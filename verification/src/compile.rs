//! The pieces that the compilations of multi-qubit gates are made of.
use crate::circuit::{Circuit, Operation, Step};
use vstd::prelude::*;

verus! {

/// A Hadamard gate on every qubit of a list, in the order of the list.
pub open spec fn hadamards(qubits: Seq<usize>) -> Seq<Step> {
    Seq::new(qubits.len(), |i: int| Step::Hadamard { qubit: qubits[i] })
}

/// The number of rungs of the ladder along a list: one less than its length,
/// and none for the empty list.
pub open spec fn rungs(qubits: Seq<usize>) -> nat {
    if qubits.len() == 0 {
        0
    } else {
        (qubits.len() - 1) as nat
    }
}

/// The controlled-NOT gates from each qubit of a list to the next one, from
/// the front of the list to its end.
pub open spec fn ladder(qubits: Seq<usize>) -> Seq<Step> {
    Seq::new(
        rungs(qubits),
        |i: int| Step::CNOT { control: qubits[i], target: qubits[i + 1] },
    )
}

/// The controlled-NOT gates of the ladder in the opposite order, from the
/// end of the list to its front.
pub open spec fn reverse_ladder(qubits: Seq<usize>) -> Seq<Step> {
    Seq::new(
        rungs(qubits),
        |i: int|
            Step::CNOT {
                control: qubits[qubits.len() - 2 - i],
                target: qubits[qubits.len() - 1 - i],
            },
    )
}

/// Appends a Hadamard gate on every qubit of the list.
pub fn add_hadamards(circuit: &mut Circuit, qubits: &Vec<usize>)
    ensures
        final(circuit)@ == old(circuit)@ + hadamards(qubits@),
{
    let mut i: usize = 0;
    while i < qubits.len()
        invariant
            i <= qubits.len(),
            circuit@ == old(circuit)@ + hadamards(qubits@).take(i as int),
        decreases qubits.len() - i,
    {
        circuit.add_operation(Operation::Hadamard { qubit: qubits[i] });
        assert(circuit@ =~= old(circuit)@ + hadamards(qubits@).take(i + 1));
        i = i + 1;
    }
    assert(hadamards(qubits@).take(qubits@.len() as int) =~= hadamards(qubits@));
}

/// Appends the ladder of controlled-NOT gates along the list.
pub fn add_ladder(circuit: &mut Circuit, qubits: &Vec<usize>)
    ensures
        final(circuit)@ == old(circuit)@ + ladder(qubits@),
{
    let mut i: usize = 1;
    if qubits.len() == 0 {
        assert(ladder(qubits@) =~= Seq::<Step>::empty());
        assert(circuit@ =~= old(circuit)@ + ladder(qubits@));
        return ;
    }
    assert(circuit@ =~= old(circuit)@ + ladder(qubits@).take(0));
    while i < qubits.len()
        invariant
            1 <= i <= qubits.len(),
            circuit@ == old(circuit)@ + ladder(qubits@).take(i - 1),
        decreases qubits.len() - i,
    {
        circuit.add_operation(Operation::CNOT { control: qubits[i - 1], target: qubits[i] });
        assert(circuit@ =~= old(circuit)@ + ladder(qubits@).take(i as int));
        i = i + 1;
    }
    assert(ladder(qubits@).take(qubits@.len() - 1) =~= ladder(qubits@));
}

/// Appends the ladder of controlled-NOT gates in the opposite order.
pub fn add_reverse_ladder(circuit: &mut Circuit, qubits: &Vec<usize>)
    ensures
        final(circuit)@ == old(circuit)@ + reverse_ladder(qubits@),
{
    if qubits.len() == 0 {
        assert(reverse_ladder(qubits@) =~= Seq::<Step>::empty());
        assert(circuit@ =~= old(circuit)@ + reverse_ladder(qubits@));
        return ;
    }
    let mut i: usize = qubits.len() - 1;
    let n: usize = qubits.len();
    assert(circuit@ =~= old(circuit)@ + reverse_ladder(qubits@).take(0));
    while i > 0
        invariant
            n == qubits.len(),
            i <= n - 1,
            circuit@ == old(circuit)@ + reverse_ladder(qubits@).take(n - 1 - i),
        decreases i,
    {
        circuit.add_operation(Operation::CNOT { control: qubits[i - 1], target: qubits[i] });
        assert(circuit@ =~= old(circuit)@ + reverse_ladder(qubits@).take(n - i));
        i = i - 1;
    }
    assert(reverse_ladder(qubits@).take(n - 1) =~= reverse_ladder(qubits@));
}

} // verus!
