//! Circuits: ordered sequences of the one- and two-qubit operations that the
//! decompositions and compilations of this crate are made of.
use crate::scalar::{equal, scalar_eq, value_of, Scalar};
use qoqo_calculator::CalculatorFloat;
use vstd::prelude::*;
use vstd::std_specs::cmp::PartialEqSpecImpl;

verus! {

/// One operation of a circuit.
#[derive(Debug, Clone)]
pub enum Operation {
    /// Rotation of `qubit` around the X axis by the angle `theta`.
    RotateX { qubit: usize, theta: CalculatorFloat },
    /// Rotation of `qubit` around the Y axis by the angle `theta`.
    RotateY { qubit: usize, theta: CalculatorFloat },
    /// Rotation of `qubit` around the Z axis by the angle `theta`.
    RotateZ { qubit: usize, theta: CalculatorFloat },
    /// Shift of the phase of the state `|1⟩` of `qubit` by the angle `theta`.
    PhaseShiftState1 { qubit: usize, theta: CalculatorFloat },
    /// The Hadamard gate on `qubit`.
    Hadamard { qubit: usize },
    /// The T gate on `qubit`.
    TGate { qubit: usize },
    /// The controlled-NOT gate on `control` and `target`.
    CNOT { control: usize, target: usize },
}

/// What an operation is, with its angle given by what the scalar holds.
pub enum Step {
    /// Rotation around the X axis.
    RotateX { qubit: usize, theta: Scalar },
    /// Rotation around the Y axis.
    RotateY { qubit: usize, theta: Scalar },
    /// Rotation around the Z axis.
    RotateZ { qubit: usize, theta: Scalar },
    /// Phase shift of the state `|1⟩`.
    PhaseShiftState1 { qubit: usize, theta: Scalar },
    /// The Hadamard gate.
    Hadamard { qubit: usize },
    /// The T gate.
    TGate { qubit: usize },
    /// The controlled-NOT gate.
    CNOT { control: usize, target: usize },
}

impl View for Operation {
    type V = Step;

    open spec fn view(&self) -> Step {
        match *self {
            Operation::RotateX { qubit, theta } => Step::RotateX { qubit, theta: value_of(theta) },
            Operation::RotateY { qubit, theta } => Step::RotateY { qubit, theta: value_of(theta) },
            Operation::RotateZ { qubit, theta } => Step::RotateZ { qubit, theta: value_of(theta) },
            Operation::PhaseShiftState1 { qubit, theta } => Step::PhaseShiftState1 {
                qubit,
                theta: value_of(theta),
            },
            Operation::Hadamard { qubit } => Step::Hadamard { qubit },
            Operation::TGate { qubit } => Step::TGate { qubit },
            Operation::CNOT { control, target } => Step::CNOT { control, target },
        }
    }
}

/// Whether two operations compare equal: they are of the same kind, on the
/// same qubits, with angles that compare equal.
pub open spec fn same_step(a: Step, b: Step) -> bool {
    match (a, b) {
        (Step::RotateX { qubit: p, theta: x }, Step::RotateX { qubit: q, theta: y }) => p == q
            && equal(x, y),
        (Step::RotateY { qubit: p, theta: x }, Step::RotateY { qubit: q, theta: y }) => p == q
            && equal(x, y),
        (Step::RotateZ { qubit: p, theta: x }, Step::RotateZ { qubit: q, theta: y }) => p == q
            && equal(x, y),
        (
            Step::PhaseShiftState1 { qubit: p, theta: x },
            Step::PhaseShiftState1 { qubit: q, theta: y },
        ) => p == q && equal(x, y),
        (Step::Hadamard { qubit: p }, Step::Hadamard { qubit: q }) => p == q,
        (Step::TGate { qubit: p }, Step::TGate { qubit: q }) => p == q,
        (Step::CNOT { control: c, target: t }, Step::CNOT { control: d, target: u }) => c == d
            && t == u,
        _ => false,
    }
}

/// Whether two circuits compare equal: they hold as many operations, and
/// operations that compare equal at each position.
pub open spec fn same_steps(a: Seq<Step>, b: Seq<Step>) -> bool {
    a.len() == b.len() && forall|i: int| 0 <= i < a.len() ==> same_step(#[trigger] a[i], b[i])
}

impl PartialEq for Operation {
    fn eq(&self, other: &Self) -> (r: bool) {
        match (self, other) {
            (
                Operation::RotateX { qubit: p, theta: x },
                Operation::RotateX { qubit: q, theta: y },
            ) => *p == *q && scalar_eq(x, y),
            (
                Operation::RotateY { qubit: p, theta: x },
                Operation::RotateY { qubit: q, theta: y },
            ) => *p == *q && scalar_eq(x, y),
            (
                Operation::RotateZ { qubit: p, theta: x },
                Operation::RotateZ { qubit: q, theta: y },
            ) => *p == *q && scalar_eq(x, y),
            (
                Operation::PhaseShiftState1 { qubit: p, theta: x },
                Operation::PhaseShiftState1 { qubit: q, theta: y },
            ) => *p == *q && scalar_eq(x, y),
            (Operation::Hadamard { qubit: p }, Operation::Hadamard { qubit: q }) => *p == *q,
            (Operation::TGate { qubit: p }, Operation::TGate { qubit: q }) => *p == *q,
            (
                Operation::CNOT { control: c, target: t },
                Operation::CNOT { control: d, target: u },
            ) => *c == *d && *t == *u,
            _ => false,
        }
    }
}

impl PartialEqSpecImpl for Operation {
    open spec fn obeys_eq_spec() -> bool {
        true
    }

    open spec fn eq_spec(&self, other: &Self) -> bool {
        same_step(self@, other@)
    }
}

/// An ordered sequence of operations.
#[derive(Debug, Clone)]
pub struct Circuit {
    /// The operations, first to last.
    pub operations: Vec<Operation>,
}

impl View for Circuit {
    type V = Seq<Step>;

    open spec fn view(&self) -> Seq<Step> {
        self.operations@.map_values(|op: Operation| op@)
    }
}

impl PartialEq for Circuit {
    fn eq(&self, other: &Self) -> (r: bool) {
        if self.operations.len() != other.operations.len() {
            return false;
        }
        let mut i: usize = 0;
        while i < self.operations.len()
            invariant
                i <= self.operations.len(),
                self.operations.len() == other.operations.len(),
                forall|l: int| 0 <= l < i ==> same_step(#[trigger] self@[l], other@[l]),
            decreases self.operations.len() - i,
        {
            if !(self.operations[i] == other.operations[i]) {
                assert(!same_step(self@[i as int], other@[i as int]));
                return false;
            }
            i = i + 1;
        }
        true
    }
}

impl PartialEqSpecImpl for Circuit {
    open spec fn obeys_eq_spec() -> bool {
        true
    }

    open spec fn eq_spec(&self, other: &Self) -> bool {
        same_steps(self@, other@)
    }
}

impl Circuit {
    /// The empty circuit.
    pub fn new() -> (circuit: Circuit)
        ensures
            circuit@ == Seq::<Step>::empty(),
    {
        let circuit = Circuit { operations: Vec::new() };
        assert(circuit@ =~= Seq::<Step>::empty());
        circuit
    }

    /// Appends one operation at the end of the circuit.
    pub fn add_operation(&mut self, operation: Operation)
        ensures
            final(self)@ == old(self)@.push(operation@),
    {
        self.operations.push(operation);
        assert(self@ =~= old(self)@.push(operation@));
    }

    /// The number of operations in the circuit.
    pub fn len(&self) -> (n: usize)
        ensures
            n == self@.len(),
    {
        self.operations.len()
    }

    /// Whether the circuit holds no operation.
    pub fn is_empty(&self) -> (empty: bool)
        ensures
            empty == (self@.len() == 0),
    {
        self.operations.len() == 0
    }
}

} // verus!
