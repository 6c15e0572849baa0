//! What gate operations offer, whichever kind they are.
//!
//! The traits state what holds of every gate. The implementation for each
//! kind of gate adds what holds of that kind: the exact tags, matrix and
//! decomposition.
use crate::circuit::{Circuit, Step};
use crate::error::RoqoqoError;
use crate::kak::{is_concrete, KakDecomposition};
use crate::matrix::Matrix;
use crate::qubits::{image, maps_all};
use crate::scalar::{is_finite, is_nan, is_number, is_zero, one, product, value_of, Scalar};
use crate::tags::{names, well_tagged};
use qoqo_calculator::{Calculator, CalculatorFloat};
use std::collections::{HashMap, HashSet};
use vstd::arithmetic::power2::pow2;
use vstd::prelude::*;

verus! {

/// Whether a matrix has `dim` rows of `dim` entries each.
pub open spec fn is_square(m: Seq<Seq<(Scalar, Scalar)>>, dim: nat) -> bool {
    &&& m.len() == dim
    &&& forall|i: int| 0 <= i < dim ==> (#[trigger] m[i]).len() == dim
}

/// Whether an optional circuit holds nothing but rotations of the qubits
/// `control` and `target` around an axis.
pub open spec fn is_local(circuit: Option<Seq<Step>>, control: usize, target: usize) -> bool {
    match circuit {
        Some(steps) => forall|i: int|
            0 <= i < steps.len() ==> match #[trigger] steps[i] {
                Step::RotateX { qubit, .. } => qubit == control || qubit == target,
                Step::RotateY { qubit, .. } => qubit == control || qubit == target,
                Step::RotateZ { qubit, .. } => qubit == control || qubit == target,
                _ => false,
            },
        None => true,
    }
}

/// Operations with a name, tags and parameters.
pub trait Operate: Sized {
    /// The name of this kind of operation.
    spec fn name() -> Seq<char>;

    /// Whether a parameter of the operation is symbolic.
    spec fn parametrized(&self) -> bool;

    /// Whether two operations of this kind act on the same qubits, in the
    /// same order, with the same parameters.
    spec fn same(&self, other: &Self) -> bool;

    /// The name of the operation.
    fn hqslang(&self) -> (name: &'static str)
        ensures
            name@ == Self::name(),
    ;

    /// The tags that classify the operation. They start with `Operation` and
    /// `GateOperation` and end with the name of the operation.
    fn tags(&self) -> (tags: Vec<&'static str>)
        ensures
            well_tagged(names(tags@), Self::name()),
    ;

    /// Whether a parameter of the operation is symbolic.
    fn is_parametrized(&self) -> (symbolic: bool)
        ensures
            symbolic == self.parametrized(),
    ;
}

/// Operations that act on a set of qubits.
pub trait InvolveQubits {
    /// The qubits the operation acts on.
    spec fn involved(&self) -> Set<usize>;

    /// The set of the qubits the operation acts on.
    fn involved_qubits(&self) -> (qubits: HashSet<usize>)
        ensures
            qubits@ == self.involved(),
    ;
}

/// Operations whose symbolic parameters can be substituted and whose qubits
/// can be remapped. Both give a new operation.
pub trait Substitute: Operate + InvolveQubits {
    /// Whether the calculator can evaluate every parameter of the operation:
    /// each is a number or a symbolic expression with a readable text.
    spec fn substitutable(&self) -> bool;

    /// Whether the calculator can evaluate every parameter of the operation.
    fn can_substitute(&self) -> (possible: bool)
        ensures
            possible == self.substitutable(),
            !self.parametrized() ==> possible,
    ;

    /// The operation with every symbolic parameter replaced by the number
    /// that the calculator evaluates it to. An operation without symbolic
    /// parameters is returned as it is; otherwise the calculator decides
    /// whether the substitution succeeds, and the result has no symbolic
    /// parameter left. The calculator must be able to read every symbolic
    /// parameter: [`try_substitute_parameters`] tests that first.
    fn substitute_parameters(&self, calculator: &Calculator) -> (r: Result<Self, RoqoqoError>)
        requires
            self.substitutable(),
        ensures
            !self.parametrized() ==> r is Ok && r->Ok_0.same(self),
            r is Ok ==> !r->Ok_0.parametrized() && r->Ok_0.involved() == self.involved(),
            r is Err ==> r->Err_0 is CalculatorError,
    ;

    /// The operation with each qubit replaced by its image under `mapping`.
    /// It succeeds if and only if the mapping has an entry for every qubit of
    /// the operation; the result then acts on the image of its qubits.
    /// Otherwise the error names a qubit of the operation without an entry.
    fn remap_qubits(&self, mapping: &HashMap<usize, usize>) -> (r: Result<Self, RoqoqoError>)
        ensures
            r is Ok <==> maps_all(mapping@, self.involved()),
            r is Ok ==> r->Ok_0.involved() == image(mapping@, self.involved()),
            r is Ok ==> r->Ok_0.parametrized() == self.parametrized(),
            r is Err ==> {
                &&& r->Err_0 is QubitMappingError
                &&& self.involved().contains(r->Err_0->qubit)
                &&& !mapping@.contains_key(r->Err_0->qubit)
            },
    ;
}

/// Substitutes the parameters of an operation where the calculator can read
/// them all, and does nothing where it cannot read one of them.
pub fn try_substitute_parameters<G: Substitute>(gate: &G, calculator: &Calculator) -> (r: Option<
    Result<G, RoqoqoError>,
>)
    ensures
        r is Some <==> gate.substitutable(),
        !gate.parametrized() ==> r is Some && r->Some_0 is Ok && r->Some_0->Ok_0.same(gate),
        r is Some && r->Some_0 is Ok ==> {
            &&& !r->Some_0->Ok_0.parametrized()
            &&& r->Some_0->Ok_0.involved() == gate.involved()
        },
        r is Some && r->Some_0 is Err ==> r->Some_0->Err_0 is CalculatorError,
{
    if gate.can_substitute() {
        Some(gate.substitute_parameters(calculator))
    } else {
        None
    }
}

/// Operations that act with a unitary matrix.
pub trait OperateGate: Operate {
    /// The number of qubits of the matrix representation.
    spec fn qubit_count(&self) -> nat;

    /// Whether the matrix can be built: it has at least the two basis states
    /// that the operation needs, and its dimension fits the machine word.
    spec fn has_matrix(&self) -> bool;

    /// Whether the matrix can be built.
    fn has_unitary_matrix(&self) -> (possible: bool)
        ensures
            possible == self.has_matrix(),
    ;

    /// The unitary matrix of the operation, of dimension `2^n` for `n`
    /// qubits. It exists if and only if no parameter is symbolic.
    fn unitary_matrix(&self) -> (r: Result<Matrix, RoqoqoError>)
        requires
            self.has_matrix(),
        ensures
            r is Ok <==> !self.parametrized(),
            r is Ok ==> is_square(r->Ok_0@, pow2(self.qubit_count())),
            r is Err ==> r->Err_0 is CalculatorError,
    ;
}

/// Operations on exactly two qubits.
pub trait OperateTwoQubit: InvolveQubits {
    /// The control qubit, the most significant one of the matrix.
    spec fn control_qubit(&self) -> usize;

    /// The target qubit, the least significant one of the matrix.
    spec fn target_qubit(&self) -> usize;

    /// The control qubit.
    fn control(&self) -> (qubit: &usize)
        ensures
            *qubit == self.control_qubit(),
            self.involved().contains(*qubit),
    ;

    /// The target qubit.
    fn target(&self) -> (qubit: &usize)
        ensures
            *qubit == self.target_qubit(),
            self.involved().contains(*qubit),
    ;
}

/// Gates on exactly two qubits.
pub trait OperateTwoQubitGate: OperateGate + OperateTwoQubit {
    /// The KAK decomposition of this gate. It always exists; symbolic
    /// parameters stay symbolic, and without them the decomposition holds
    /// nothing but numbers. Its circuits hold nothing but rotations of the
    /// two qubits of this gate.
    fn kak_decomposition(&self) -> (kak: KakDecomposition)
        ensures
            !self.parametrized() ==> is_concrete(kak@),
            is_local(kak@.circuit_before, self.control_qubit(), self.target_qubit()),
            is_local(kak@.circuit_after, self.control_qubit(), self.target_qubit()),
    ;
}

/// Gates with a rotation angle.
pub trait Rotate: Operate {
    /// The rotation angle θ.
    spec fn angle(&self) -> CalculatorFloat;

    /// The rotation angle θ.
    fn theta(&self) -> (value: &CalculatorFloat)
        ensures
            *value == self.angle(),
    ;

    /// This gate raised to a power: the same gate with the angle `power · θ`.
    /// The power one gives this gate itself unless θ is a NaN; the power zero
    /// gives the angle zero when θ is symbolic or finite.
    fn powercf(&self, power: CalculatorFloat) -> (gate: Self)
        ensures
            value_of(gate.angle()) == product(value_of(power), value_of(self.angle())),
            value_of(power) == one() && !is_nan(value_of(self.angle())) ==> gate.same(self),
            is_zero(value_of(power)) && (!is_number(value_of(self.angle())) || is_finite(
                value_of(self.angle()),
            )) ==> is_zero(value_of(gate.angle())),
    ;
}

/// Operations on a list of qubits of any length.
pub trait OperateMultiQubit: InvolveQubits {
    /// The qubits of the operation, in their order.
    spec fn qubit_list(&self) -> Seq<usize>;

    /// The qubits of the operation, in their order.
    fn qubits(&self) -> (qubits: &Vec<usize>)
        ensures
            qubits@ == self.qubit_list(),
            qubits@.to_set() == self.involved(),
    ;
}

/// Gates on a list of qubits of any length.
pub trait OperateMultiQubitGate: OperateGate + OperateMultiQubit {
    /// Whether this gate has a compilation.
    spec fn compilable(&self) -> bool;

    /// The compilation of this gate.
    spec fn compiled(&self) -> Seq<Step>;

    /// Whether this gate has a compilation.
    fn has_circuit(&self) -> (possible: bool)
        ensures
            possible == self.compilable(),
    ;

    /// The circuit of one- and two-qubit gates that this gate compiles to.
    fn circuit(&self) -> (circuit: Circuit)
        requires
            self.compilable(),
        ensures
            circuit@ == self.compiled(),
    ;
}

} // verus!
