//! The KAK decomposition of a two-qubit gate.
use crate::circuit::{same_steps, Circuit, Step};
use crate::scalar::{equal, is_number, scalar_eq, value_of, Scalar};
use qoqo_calculator::CalculatorFloat;
use vstd::prelude::*;
use vstd::std_specs::cmp::PartialEqSpecImpl;

verus! {

/// The KAK decomposition of a two-qubit gate `U`:
///
/// ```text
/// U = exp(i·phase) · after · exp(i(k₀·XX + k₁·YY + k₂·ZZ)) · before
/// ```
///
/// where `before` and `after` are circuits of single-qubit operations on the
/// two qubits.
#[derive(Debug, Clone)]
pub struct KakDecomposition {
    /// Global phase of the decomposition.
    pub global_phase: CalculatorFloat,
    /// Coefficients of `XX`, `YY` and `ZZ` in the entangling exponent.
    pub k_vector: [CalculatorFloat; 3],
    /// Operations on the two qubits before the entangling part, if any.
    pub circuit_before: Option<Circuit>,
    /// Operations on the two qubits after the entangling part, if any.
    pub circuit_after: Option<Circuit>,
}

/// What a KAK decomposition holds.
pub struct KakValue {
    /// Global phase.
    pub global_phase: Scalar,
    /// Coefficients of `XX`, `YY` and `ZZ`.
    pub k_vector: (Scalar, Scalar, Scalar),
    /// Operations before the entangling part.
    pub circuit_before: Option<Seq<Step>>,
    /// Operations after the entangling part.
    pub circuit_after: Option<Seq<Step>>,
}

/// Whether every angle of an optional circuit is a number.
pub open spec fn has_numbers(circuit: Option<Seq<Step>>) -> bool {
    match circuit {
        Some(steps) => forall|i: int|
            0 <= i < steps.len() ==> match #[trigger] steps[i] {
                Step::RotateX { theta, .. } => is_number(theta),
                Step::RotateY { theta, .. } => is_number(theta),
                Step::RotateZ { theta, .. } => is_number(theta),
                Step::PhaseShiftState1 { theta, .. } => is_number(theta),
                _ => true,
            },
        None => true,
    }
}

/// Whether a decomposition holds nothing but numbers: its phase, its three
/// coefficients and every angle of its circuits.
pub open spec fn is_concrete(kak: KakValue) -> bool {
    &&& is_number(kak.global_phase)
    &&& is_number(kak.k_vector.0)
    &&& is_number(kak.k_vector.1)
    &&& is_number(kak.k_vector.2)
    &&& has_numbers(kak.circuit_before)
    &&& has_numbers(kak.circuit_after)
}

/// What an optional circuit holds.
pub open spec fn steps(circuit: Option<Circuit>) -> Option<Seq<Step>> {
    match circuit {
        Some(c) => Some(c@),
        None => None,
    }
}

impl View for KakDecomposition {
    type V = KakValue;

    open spec fn view(&self) -> KakValue {
        KakValue {
            global_phase: value_of(self.global_phase),
            k_vector: (
                value_of(self.k_vector@[0]),
                value_of(self.k_vector@[1]),
                value_of(self.k_vector@[2]),
            ),
            circuit_before: steps(self.circuit_before),
            circuit_after: steps(self.circuit_after),
        }
    }
}

/// Whether two optional circuits compare equal: both are missing, or both
/// are there and compare equal.
pub open spec fn same_circuit(a: Option<Seq<Step>>, b: Option<Seq<Step>>) -> bool {
    match (a, b) {
        (Some(x), Some(y)) => same_steps(x, y),
        (None, None) => true,
        _ => false,
    }
}

/// Whether two optional circuits compare equal.
fn circuits_eq(a: &Option<Circuit>, b: &Option<Circuit>) -> (r: bool)
    ensures
        r == same_circuit(steps(*a), steps(*b)),
{
    match (a, b) {
        (Some(x), Some(y)) => *x == *y,
        (None, None) => true,
        _ => false,
    }
}

impl PartialEq for KakDecomposition {
    fn eq(&self, other: &Self) -> (r: bool) {
        scalar_eq(&self.global_phase, &other.global_phase) && scalar_eq(
            &self.k_vector[0],
            &other.k_vector[0],
        ) && scalar_eq(&self.k_vector[1], &other.k_vector[1]) && scalar_eq(
            &self.k_vector[2],
            &other.k_vector[2],
        ) && circuits_eq(&self.circuit_before, &other.circuit_before) && circuits_eq(
            &self.circuit_after,
            &other.circuit_after,
        )
    }
}

impl PartialEqSpecImpl for KakDecomposition {
    open spec fn obeys_eq_spec() -> bool {
        true
    }

    /// Two decompositions are equal where their phases, their coefficients
    /// and their circuits compare equal.
    open spec fn eq_spec(&self, other: &Self) -> bool {
        &&& equal(self@.global_phase, other@.global_phase)
        &&& equal(self@.k_vector.0, other@.k_vector.0)
        &&& equal(self@.k_vector.1, other@.k_vector.1)
        &&& equal(self@.k_vector.2, other@.k_vector.2)
        &&& same_circuit(self@.circuit_before, other@.circuit_before)
        &&& same_circuit(self@.circuit_after, other@.circuit_after)
    }
}

impl KakDecomposition {
    /// The decomposition with the given phase, coefficients and circuits.
    pub fn new(
        global_phase: CalculatorFloat,
        k_xx: CalculatorFloat,
        k_yy: CalculatorFloat,
        k_zz: CalculatorFloat,
        circuit_before: Option<Circuit>,
        circuit_after: Option<Circuit>,
    ) -> (kak: KakDecomposition)
        ensures
            kak@ == (KakValue {
                global_phase: value_of(global_phase),
                k_vector: (value_of(k_xx), value_of(k_yy), value_of(k_zz)),
                circuit_before: steps(circuit_before),
                circuit_after: steps(circuit_after),
            }),
    {
        KakDecomposition {
            global_phase,
            k_vector: [k_xx, k_yy, k_zz],
            circuit_before,
            circuit_after,
        }
    }
}

} // verus!
