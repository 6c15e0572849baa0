//! The tag sequences that classify gate operations.
use vstd::prelude::*;

verus! {

/// The texts of a sequence of tags.
pub open spec fn names(tags: Seq<&'static str>) -> Seq<Seq<char>> {
    tags.map_values(|tag: &'static str| tag@)
}

/// The tags of a two-qubit gate without a rotation angle.
pub open spec fn two_qubit_tags(name: Seq<char>) -> Seq<Seq<char>> {
    seq!["Operation"@, "GateOperation"@, "TwoQubitGateOperation"@, name]
}

/// The tags of a two-qubit gate that carries a rotation angle.
pub open spec fn rotation_tags(name: Seq<char>) -> Seq<Seq<char>> {
    seq!["Operation"@, "GateOperation"@, "TwoQubitGateOperation"@, "Rotation"@, name]
}

/// The tags of a multi-qubit gate.
pub open spec fn multi_qubit_tags(name: Seq<char>) -> Seq<Seq<char>> {
    seq!["Operation"@, "GateOperation"@, "MultiQubitGateOperation"@, name]
}

/// Whether a tag sequence starts with `Operation`, `GateOperation` and ends
/// with the name of the operation.
pub open spec fn well_tagged(tags: Seq<Seq<char>>, name: Seq<char>) -> bool {
    &&& tags.len() >= 3
    &&& tags[0] == "Operation"@
    &&& tags[1] == "GateOperation"@
    &&& tags.last() == name
}

/// Builds the tags of a two-qubit gate without a rotation angle.
pub fn make_two_qubit_tags(name: &'static str) -> (tags: Vec<&'static str>)
    ensures
        names(tags@) == two_qubit_tags(name@),
        well_tagged(names(tags@), name@),
{
    let tags = vec!["Operation", "GateOperation", "TwoQubitGateOperation", name];
    assert(names(tags@) =~= two_qubit_tags(name@));
    tags
}

/// Builds the tags of a two-qubit gate that carries a rotation angle.
pub fn make_rotation_tags(name: &'static str) -> (tags: Vec<&'static str>)
    ensures
        names(tags@) == rotation_tags(name@),
        well_tagged(names(tags@), name@),
{
    let tags = vec!["Operation", "GateOperation", "TwoQubitGateOperation", "Rotation", name];
    assert(names(tags@) =~= rotation_tags(name@));
    tags
}

/// Builds the tags of a multi-qubit gate.
pub fn make_multi_qubit_tags(name: &'static str) -> (tags: Vec<&'static str>)
    ensures
        names(tags@) == multi_qubit_tags(name@),
        well_tagged(names(tags@), name@),
{
    let tags = vec!["Operation", "GateOperation", "MultiQubitGateOperation", name];
    assert(names(tags@) =~= multi_qubit_tags(name@));
    tags
}

} // verus!
