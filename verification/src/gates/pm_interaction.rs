//! The transversal interaction gate.
use crate::error::RoqoqoError;
use crate::kak::{KakDecomposition, KakValue};
use crate::matrix::{Complex, Matrix};
use crate::operate::{
    InvolveQubits, Operate, OperateGate, OperateTwoQubit, OperateTwoQubitGate, Substitute,
};
use crate::qubits::{lemma_image_of_pair, qubit_pair, remap_qubit};
use crate::scalar::{
    cosine_of, equal, evaluable, integer, is_number, negation, one, quotient, scalar_cos,
    scalar_div, scalar_eq, scalar_from_integer, scalar_is_number, scalar_neg, scalar_sin,
    scalar_zero, sine_of, value_of, zero, Scalar,
};
use crate::substitution::{
    can_evaluate, evaluates_to, fails_with, number_of, substitute_scalar, symbolic_parameter,
};
use crate::tags::{make_two_qubit_tags, names, two_qubit_tags};
use qoqo_calculator::{Calculator, CalculatorFloat};
use std::collections::{HashMap, HashSet};
use vstd::arithmetic::power2::lemma2_to64;
use vstd::prelude::*;
use vstd::std_specs::cmp::PartialEqSpecImpl;

verus! {

/// The transversal interaction gate, `exp(-iθ(X_c X_t + Y_c Y_t))`.
///
/// ```text
/// 1   0         0        0
/// 0   cos(t)   -i·sin(t)  0
/// 0  -i·sin(t)  cos(t)    0
/// 0   0         0        1
/// ```
#[derive(Debug, Clone)]
pub struct PMInteraction {
    /// The most significant qubit of the matrix representation.
    pub control: usize,
    /// The least significant qubit of the matrix representation.
    pub target: usize,
    /// The strength of the rotation θ.
    pub t: CalculatorFloat,
}

impl PMInteraction {
    /// A gate on the qubits `control` and `target` with the given parameters.
    pub fn new(control: usize, target: usize, t: CalculatorFloat) -> (gate: Self)
        ensures
            gate == (PMInteraction { control, target, t }),
    {
        PMInteraction { control, target, t }
    }

    /// The strength of the rotation θ.
    pub fn t(&self) -> (value: &CalculatorFloat)
        ensures
            *value == self.t,
    {
        &self.t
    }

    /// The matrix of this gate, given the cosines and sines that it is made of:
    /// `c` and `s` stand for the cosine and the sine of `t`.
    pub open spec fn layout(c: Scalar, s: Scalar) -> Seq<Seq<(Scalar, Scalar)>> {
        seq![
            seq![(one(), zero()), (zero(), zero()), (zero(), zero()), (zero(), zero())],
            seq![(zero(), zero()), (c, zero()), (zero(), negation(s)), (zero(), zero())],
            seq![(zero(), zero()), (zero(), negation(s)), (c, zero()), (zero(), zero())],
            seq![(zero(), zero()), (zero(), zero()), (zero(), zero()), (one(), zero())],
        ]
    }

    /// Builds the matrix of this gate from the cosines and sines that it is made
    /// of:
    /// `c` and `s` stand for the cosine and the sine of `t`.
    pub fn matrix_of(c: &CalculatorFloat, s: &CalculatorFloat) -> (m: Matrix)
        ensures
            m@ == Self::layout(value_of(*c), value_of(*s)),
    {
        let rows = vec![
            vec![Complex::one(), Complex::zero(), Complex::zero(), Complex::zero()],
            vec![
                Complex::zero(),
                Complex::from_real(c.clone()),
                Complex::from_imaginary(scalar_neg(s)),
                Complex::zero(),
            ],
            vec![
                Complex::zero(),
                Complex::from_imaginary(scalar_neg(s)),
                Complex::from_real(c.clone()),
                Complex::zero(),
            ],
            vec![Complex::zero(), Complex::zero(), Complex::zero(), Complex::one()],
        ];
        let m = Matrix::from_rows(rows);
        let ghost expected = Self::layout(value_of(*c), value_of(*s));
        assert(m@ =~= expected) by {
            assert(m@[0] =~= expected[0]);
            assert(m@[1] =~= expected[1]);
            assert(m@[2] =~= expected[2]);
            assert(m@[3] =~= expected[3]);
        }
        m
    }

    /// The error of the first symbolic parameter, which is what the matrix
    /// fails with.
    pub open spec fn conversion_error(&self) -> RoqoqoError {
        symbolic_parameter(self.t)
    }

    /// The KAK decomposition of this gate.
    pub open spec fn kak(&self) -> KakValue {
        KakValue {
            global_phase: zero(),
            k_vector: (
                quotient(value_of(self.t), integer(-2)),
                quotient(value_of(self.t), integer(-2)),
                zero(),
            ),
            circuit_before: None,
            circuit_after: None,
        }
    }
}

impl PartialEq for PMInteraction {
    fn eq(&self, other: &Self) -> (r: bool) {
        self.control == other.control && self.target == other.target && scalar_eq(&self.t, &other.t)
    }
}

impl PartialEqSpecImpl for PMInteraction {
    open spec fn obeys_eq_spec() -> bool {
        true
    }

    /// Two gates are equal where their qubits are the same and their
    /// parameters compare equal.
    open spec fn eq_spec(&self, other: &Self) -> bool {
        self.control == other.control && self.target == other.target
            && equal(value_of(self.t), value_of(other.t))
    }
}

impl Operate for PMInteraction {
    open spec fn name() -> Seq<char> {
        "PMInteraction"@
    }

    open spec fn parametrized(&self) -> bool {
        !is_number(value_of(self.t))
    }

    open spec fn same(&self, other: &Self) -> bool {
        *self == *other
    }

    fn hqslang(&self) -> (name: &'static str) {
        "PMInteraction"
    }

    /// The tags of a two-qubit gate.
    fn tags(&self) -> (tags: Vec<&'static str>)
        ensures
            names(tags@) == two_qubit_tags("PMInteraction"@),
    {
        make_two_qubit_tags("PMInteraction")
    }

    fn is_parametrized(&self) -> (symbolic: bool) {
        !scalar_is_number(&self.t)
    }
}

impl InvolveQubits for PMInteraction {
    open spec fn involved(&self) -> Set<usize> {
        set![self.control, self.target]
    }

    fn involved_qubits(&self) -> (qubits: HashSet<usize>) {
        qubit_pair(self.control, self.target)
    }
}

impl Substitute for PMInteraction {
    open spec fn substitutable(&self) -> bool {
        evaluable(value_of(self.t))
    }

    fn can_substitute(&self) -> (possible: bool) {
        can_evaluate(&self.t)
    }

    /// The qubits stay. The parameter becomes the number that the calculator gave
    /// for it, and an error is the one that the calculator gave for it.
    fn substitute_parameters(&self, calculator: &Calculator) -> (r: Result<Self, RoqoqoError>)
        ensures
            r is Ok ==> {
                &&& r->Ok_0.control == self.control
                &&& r->Ok_0.target == self.target
                &&& evaluates_to(*calculator, self.t, r->Ok_0.t)
                &&& is_number(value_of(self.t)) ==> r->Ok_0.t == self.t
            },
            r is Err ==> {
                ||| fails_with(*calculator, self.t, r->Err_0->CalculatorError_0)
            },
    {
        let t = substitute_scalar(calculator, &self.t)?;
        Ok(PMInteraction { control: self.control, target: self.target, t })
    }

    /// The control is remapped first: where both qubits lack an entry, the error
    /// names the control.
    fn remap_qubits(&self, mapping: &HashMap<usize, usize>) -> (r: Result<Self, RoqoqoError>)
        ensures
            mapping@.contains_key(self.control) && mapping@.contains_key(self.target) ==> {
                &&& r is Ok
                &&& r->Ok_0.control == mapping@[self.control]
                &&& r->Ok_0.target == mapping@[self.target]
                &&& r->Ok_0.t == self.t
            },
            !mapping@.contains_key(self.control) ==> r is Err && r->Err_0 == (
            RoqoqoError::QubitMappingError { qubit: self.control }),
            mapping@.contains_key(self.control) && !mapping@.contains_key(self.target) ==> r is Err
                && r->Err_0 == (RoqoqoError::QubitMappingError { qubit: self.target }),
    {
        proof {
            lemma_image_of_pair(mapping@, self.control, self.target);
            assert(self.involved().contains(self.control));
            assert(self.involved().contains(self.target));
        }
        let control = remap_qubit(mapping, self.control)?;
        let target = remap_qubit(mapping, self.target)?;
        Ok(PMInteraction { control, target, t: self.t.clone() })
    }
}

impl OperateGate for PMInteraction {
    open spec fn qubit_count(&self) -> nat {
        2
    }

    open spec fn has_matrix(&self) -> bool {
        true
    }

    fn has_unitary_matrix(&self) -> (possible: bool) {
        true
    }

    /// The matrix is laid out as [`Self::layout`] says, of cosines and sines that
    /// the calculator gave for the angles of this gate. With a symbolic
    /// parameter it fails with the error of the first one.
    fn unitary_matrix(&self) -> (r: Result<Matrix, RoqoqoError>)
        ensures
            self.parametrized() ==> r is Err && r->Err_0 == self.conversion_error(),
            !self.parametrized() ==> r is Ok && exists|
                c: Scalar, s: Scalar
            |
                {
                    &&& r->Ok_0@ == #[trigger] Self::layout(c, s)
                    &&& cosine_of(value_of(self.t), c)
                    &&& sine_of(value_of(self.t), s)
                    &&& is_number(c) && is_number(s)
                },
    {
        let t = number_of(&self.t)?;
        let c = scalar_cos(&t);
        let s = scalar_sin(&t);
        let m = Self::matrix_of(&c, &s);
        proof {
            lemma2_to64();
            assert(m@ == Self::layout(value_of(c), value_of(s)));
        }
        Ok(m)
    }
}

impl OperateTwoQubit for PMInteraction {
    open spec fn control_qubit(&self) -> usize {
        self.control
    }

    open spec fn target_qubit(&self) -> usize {
        self.target
    }

    fn control(&self) -> (qubit: &usize) {
        &self.control
    }

    fn target(&self) -> (qubit: &usize) {
        &self.target
    }
}

impl OperateTwoQubitGate for PMInteraction {
    /// The decomposition is the one that [`Self::kak`] gives.
    fn kak_decomposition(&self) -> (kak: KakDecomposition)
        ensures
            kak@ == self.kak(),
    {
        KakDecomposition::new(
            scalar_zero(),
            scalar_div(&self.t, &scalar_from_integer(-2)),
            scalar_div(&self.t, &scalar_from_integer(-2)),
            scalar_zero(),
            None,
            None,
        )
    }
}

} // verus!
