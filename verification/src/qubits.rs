//! Qubit indices: the set a gate involves and their images under a mapping.
use crate::error::RoqoqoError;
use std::collections::{HashMap, HashSet};
use vstd::prelude::*;

verus! {

/// The image of a set of qubits under a mapping.
pub open spec fn image(mapping: Map<usize, usize>, qubits: Set<usize>) -> Set<usize> {
    Set::new(|q: usize| exists|p: usize| qubits.contains(p) && mapping[p] == q)
}

/// Whether a mapping has an entry for every qubit of a set.
pub open spec fn maps_all(mapping: Map<usize, usize>, qubits: Set<usize>) -> bool {
    forall|q: usize| qubits.contains(q) ==> mapping.contains_key(q)
}

/// The image of a pair of qubits is the pair of their images.
pub proof fn lemma_image_of_pair(mapping: Map<usize, usize>, control: usize, target: usize)
    ensures
        image(mapping, set![control, target]) == set![mapping[control], mapping[target]],
{
    let left = image(mapping, set![control, target]);
    let right = set![mapping[control], mapping[target]];
    assert forall|q: usize| left.contains(q) <==> right.contains(q) by {
        if right.contains(q) {
            if q == mapping[control] {
                assert(set![control, target].contains(control) && mapping[control] == q);
            } else {
                assert(set![control, target].contains(target) && mapping[target] == q);
            }
        }
    }
    assert(left =~= right);
}

/// The image of the qubits of a list is the set of the images of its items.
pub proof fn lemma_image_of_list(mapping: Map<usize, usize>, list: Seq<usize>, images: Seq<usize>)
    requires
        images.len() == list.len(),
        forall|i: int| 0 <= i < list.len() ==> images[i] == mapping[#[trigger] list[i]],
    ensures
        image(mapping, list.to_set()) == images.to_set(),
{
    let left = image(mapping, list.to_set());
    let right = images.to_set();
    assert forall|q: usize| left.contains(q) <==> right.contains(q) by {
        if left.contains(q) {
            let p = choose|p: usize| list.to_set().contains(p) && mapping[p] == q;
            let i = choose|i: int| 0 <= i < list.len() && list[i] == p;
            assert(images[i] == q);
        }
        if right.contains(q) {
            let i = choose|i: int| 0 <= i < images.len() && images[i] == q;
            assert(list.to_set().contains(list[i]) && mapping[list[i]] == q);
        }
    }
    assert(left =~= right);
}

/// The image of one qubit under a mapping, or the error that names the qubit
/// when the mapping has no entry for it.
pub fn remap_qubit(mapping: &HashMap<usize, usize>, qubit: usize) -> (r: Result<usize, RoqoqoError>)
    ensures
        mapping@.contains_key(qubit) ==> r is Ok && r->Ok_0 == mapping@[qubit],
        !mapping@.contains_key(qubit) ==> r is Err && r->Err_0 == (RoqoqoError::QubitMappingError {
            qubit,
        }),
{
    broadcast use vstd::std_specs::hash::group_hash_axioms;

    match mapping.get(&qubit) {
        Some(image) => Ok(*image),
        None => Err(RoqoqoError::QubitMappingError { qubit }),
    }
}

/// The set that holds exactly the two given qubits.
pub fn qubit_pair(control: usize, target: usize) -> (r: HashSet<usize>)
    ensures
        r@ == set![control, target],
{
    broadcast use vstd::std_specs::hash::group_hash_axioms;

    let mut qubits: HashSet<usize> = HashSet::new();
    qubits.insert(control);
    qubits.insert(target);
    assert(qubits@ =~= set![control, target]);
    qubits
}

/// The set of the qubits that occur in a list.
pub fn qubit_set(list: &Vec<usize>) -> (r: HashSet<usize>)
    ensures
        r@ == list@.to_set(),
{
    broadcast use vstd::std_specs::hash::group_hash_axioms;

    let mut qubits: HashSet<usize> = HashSet::new();
    let mut i: usize = 0;
    while i < list.len()
        invariant
            i <= list.len(),
            qubits@ == list@.take(i as int).to_set(),
        decreases list.len() - i,
    {
        qubits.insert(list[i]);
        proof {
            let before = list@.take(i as int);
            let after = list@.take(i + 1);
            assert(after =~= before.push(list@[i as int]));
            assert forall|q: usize| after.to_set().contains(q) <==> before.to_set().insert(
                list@[i as int],
            ).contains(q) by {
                if after.contains(q) {
                    let k = choose|k: int| 0 <= k < after.len() && after[k] == q;
                    if k < i {
                        assert(before[k] == q);
                    }
                }
                if before.contains(q) {
                    let k = choose|k: int| 0 <= k < before.len() && before[k] == q;
                    assert(after[k] == q);
                }
                assert(after[i as int] == list@[i as int]);
            }
            assert(after.to_set() =~= before.to_set().insert(list@[i as int]));
        }
        i = i + 1;
    }
    assert(list@.take(list@.len() as int) =~= list@);
    qubits
}

/// Whether a mapping has an entry for every qubit of a list.
pub open spec fn covers(mapping: Map<usize, usize>, list: Seq<usize>) -> bool {
    forall|i: int| 0 <= i < list.len() ==> mapping.contains_key(#[trigger] list[i])
}

/// Whether `k` is the first position of a list whose qubit has no entry in a
/// mapping.
pub open spec fn first_missing(mapping: Map<usize, usize>, list: Seq<usize>, k: int) -> bool {
    &&& 0 <= k < list.len()
    &&& !mapping.contains_key(list[k])
    &&& forall|i: int| 0 <= i < k ==> mapping.contains_key(#[trigger] list[i])
}

/// A mapping has an entry for every qubit of a list exactly when it has one
/// for every qubit of the set of the list.
pub proof fn lemma_covers(mapping: Map<usize, usize>, list: Seq<usize>)
    ensures
        covers(mapping, list) <==> maps_all(mapping, list.to_set()),
{
    if covers(mapping, list) {
        assert forall|q: usize| list.to_set().contains(q) implies mapping.contains_key(q) by {
            let i = choose|i: int| 0 <= i < list.len() && list[i] == q;
            assert(mapping.contains_key(list[i]));
        }
    }
    if maps_all(mapping, list.to_set()) {
        assert forall|i: int| 0 <= i < list.len() implies mapping.contains_key(
            #[trigger] list[i],
        ) by {
            assert(list.to_set().contains(list[i]));
        }
    }
}

/// The images of the qubits of a list, in the order of the list.
pub open spec fn images(mapping: Map<usize, usize>, list: Seq<usize>) -> Seq<usize> {
    Seq::new(list.len(), |i: int| mapping[list[i]])
}

/// The images of the qubits of a list under a mapping, or the error that
/// names the first qubit of the list that the mapping has no entry for.
pub fn remap_qubit_list(mapping: &HashMap<usize, usize>, list: &Vec<usize>) -> (r: Result<
    Vec<usize>,
    RoqoqoError,
>)
    ensures
        covers(mapping@, list@) ==> r is Ok && r->Ok_0@ == images(mapping@, list@),
        !covers(mapping@, list@) ==> r is Err,
        r is Err ==> exists|k: int| #[trigger]
            first_missing(mapping@, list@, k) && r->Err_0 == (RoqoqoError::QubitMappingError {
                qubit: list@[k],
            }),
{
    let mut remapped: Vec<usize> = Vec::new();
    let mut i: usize = 0;
    while i < list.len()
        invariant
            i <= list.len(),
            remapped@.len() == i,
            forall|l: int| 0 <= l < i ==> mapping@.contains_key(#[trigger] list@[l]),
            forall|l: int| 0 <= l < i ==> #[trigger] remapped@[l] == mapping@[list@[l]],
        decreases list.len() - i,
    {
        match remap_qubit(mapping, list[i]) {
            Ok(qubit) => {
                remapped.push(qubit);
            },
            Err(error) => {
                assert(first_missing(mapping@, list@, i as int));
                return Err(error);
            },
        }
        i = i + 1;
    }
    assert(remapped@ =~= images(mapping@, list@));
    Ok(remapped)
}

/// Whether two lists hold the same qubits in the same order.
pub fn same_qubits(left: &Vec<usize>, right: &Vec<usize>) -> (same: bool)
    ensures
        same == (left@ == right@),
{
    if left.len() != right.len() {
        return false;
    }
    let mut i: usize = 0;
    while i < left.len()
        invariant
            i <= left.len(),
            left.len() == right.len(),
            forall|l: int| 0 <= l < i ==> left@[l] == right@[l],
        decreases left.len() - i,
    {
        if left[i] != right[i] {
            return false;
        }
        i = i + 1;
    }
    assert(left@ =~= right@);
    true
}

} // verus!
