//! The phase-shifted controlled-Z gate.
use crate::circuit::{Circuit, Operation, Step};
use crate::error::RoqoqoError;
use crate::kak::{KakDecomposition, KakValue};
use crate::matrix::{Complex, Matrix};
use crate::operate::{
    InvolveQubits, Operate, OperateGate, OperateTwoQubit, OperateTwoQubitGate, Substitute,
};
use crate::qubits::{lemma_image_of_pair, qubit_pair, remap_qubit};
use crate::scalar::{
    cosine_of, difference, equal, evaluable, frac_pi_2, frac_pi_4, integer, is_number, one, pi,
    product, scalar_add, scalar_cos, scalar_eq, scalar_frac_pi_2, scalar_frac_pi_4,
    scalar_from_integer, scalar_is_number, scalar_mul, scalar_pi, scalar_sin, scalar_sub,
    scalar_zero, sine_of, sum, value_of, zero, Scalar,
};
use crate::substitution::{
    can_evaluate, evaluates_to, fails_with, number_of, substitute_scalar, symbolic_parameter,
};
use crate::tags::{make_two_qubit_tags, names, two_qubit_tags};
use qoqo_calculator::{Calculator, CalculatorFloat};
use std::collections::{HashMap, HashSet};
use vstd::arithmetic::power2::lemma2_to64;
use vstd::prelude::*;
use vstd::std_specs::cmp::PartialEqSpecImpl;

verus! {

/// The phase-shifted controlled-Z gate.
///
/// ```text
/// 1  0       0       0
/// 0  e^{iφ}  0       0
/// 0  0       e^{iφ}  0
/// 0  0       0       e^{i(2φ-π)}
/// ```
#[derive(Debug, Clone)]
pub struct PhaseShiftedControlledZ {
    /// The controlling qubit, the most significant one in the matrix.
    pub control: usize,
    /// The qubit whose phase is shifted, the least significant one in the matrix.
    pub target: usize,
    /// The single-qubit phase φ.
    pub phi: CalculatorFloat,
}

impl PhaseShiftedControlledZ {
    /// A gate on the qubits `control` and `target` with the given parameters.
    pub fn new(control: usize, target: usize, phi: CalculatorFloat) -> (gate: Self)
        ensures
            gate == (PhaseShiftedControlledZ { control, target, phi }),
    {
        PhaseShiftedControlledZ { control, target, phi }
    }

    /// The single-qubit phase φ.
    pub fn phi(&self) -> (value: &CalculatorFloat)
        ensures
            *value == self.phi,
    {
        &self.phi
    }

    /// The angle `2φ - π` of the phase on `|11⟩`.
    pub fn shifted_angle(&self) -> (r: Result<CalculatorFloat, RoqoqoError>)
        ensures
            !is_number(value_of(self.phi)) ==> r is Err && r->Err_0
                == symbolic_parameter(self.phi),
            is_number(value_of(self.phi)) ==> {
                &&& r is Ok
                &&& value_of(r->Ok_0) == difference(product(integer(2), value_of(self.phi)), pi())
                &&& is_number(value_of(r->Ok_0))
            },
    {
        let phi = number_of(&self.phi)?;
        let shifted = scalar_sub(&scalar_mul(&scalar_from_integer(2), &phi), &scalar_pi());
        Ok(shifted)
    }

    /// The matrix of this gate, given the cosines and sines that it is made of:
    /// `c` and `s` stand for the cosine and the sine of `φ`, `c2` and `s2` for those
    /// of `2φ - π`.
    pub open spec fn layout(
        c: Scalar,
        s: Scalar,
        c2: Scalar,
        s2: Scalar,
    ) -> Seq<Seq<(Scalar, Scalar)>> {
        seq![
            seq![(one(), zero()), (zero(), zero()), (zero(), zero()), (zero(), zero())],
            seq![(zero(), zero()), (c, s), (zero(), zero()), (zero(), zero())],
            seq![(zero(), zero()), (zero(), zero()), (c, s), (zero(), zero())],
            seq![(zero(), zero()), (zero(), zero()), (zero(), zero()), (c2, s2)],
        ]
    }

    /// Builds the matrix of this gate from the cosines and sines that it is made
    /// of:
    /// `c` and `s` stand for the cosine and the sine of `φ`, `c2` and `s2` for those
    /// of `2φ - π`.
    pub fn matrix_of(
        c: &CalculatorFloat,
        s: &CalculatorFloat,
        c2: &CalculatorFloat,
        s2: &CalculatorFloat,
    ) -> (m: Matrix)
        ensures
            m@ == Self::layout(value_of(*c), value_of(*s), value_of(*c2), value_of(*s2)),
    {
        let rows = vec![
            vec![Complex::one(), Complex::zero(), Complex::zero(), Complex::zero()],
            vec![
                Complex::zero(),
                Complex::new(c.clone(), s.clone()),
                Complex::zero(),
                Complex::zero(),
            ],
            vec![
                Complex::zero(),
                Complex::zero(),
                Complex::new(c.clone(), s.clone()),
                Complex::zero(),
            ],
            vec![
                Complex::zero(),
                Complex::zero(),
                Complex::zero(),
                Complex::new(c2.clone(), s2.clone()),
            ],
        ];
        let m = Matrix::from_rows(rows);
        let ghost expected = Self::layout(value_of(*c), value_of(*s), value_of(*c2), value_of(*s2));
        assert(m@ =~= expected) by {
            assert(m@[0] =~= expected[0]);
            assert(m@[1] =~= expected[1]);
            assert(m@[2] =~= expected[2]);
            assert(m@[3] =~= expected[3]);
        }
        m
    }

    /// The error of the first symbolic parameter, which is what the matrix
    /// fails with.
    pub open spec fn conversion_error(&self) -> RoqoqoError {
        symbolic_parameter(self.phi)
    }

    /// The KAK decomposition of this gate.
    pub open spec fn kak(&self) -> KakValue {
        KakValue {
            global_phase: sum(frac_pi_4(), value_of(self.phi)),
            k_vector: (zero(), zero(), frac_pi_4()),
            circuit_before: Some(
                seq![
                    Step::RotateZ { qubit: self.control, theta: frac_pi_2() },
                    Step::RotateZ { qubit: self.target, theta: frac_pi_2() },
                ],
            ),
            circuit_after: Some(
                seq![
                    Step::RotateZ { qubit: self.control, theta: value_of(self.phi) },
                    Step::RotateZ { qubit: self.target, theta: value_of(self.phi) },
                ],
            ),
        }
    }
}

impl PartialEq for PhaseShiftedControlledZ {
    fn eq(&self, other: &Self) -> (r: bool) {
        self.control == other.control && self.target == other.target
            && scalar_eq(&self.phi, &other.phi)
    }
}

impl PartialEqSpecImpl for PhaseShiftedControlledZ {
    open spec fn obeys_eq_spec() -> bool {
        true
    }

    /// Two gates are equal where their qubits are the same and their
    /// parameters compare equal.
    open spec fn eq_spec(&self, other: &Self) -> bool {
        self.control == other.control && self.target == other.target
            && equal(value_of(self.phi), value_of(other.phi))
    }
}

impl Operate for PhaseShiftedControlledZ {
    open spec fn name() -> Seq<char> {
        "PhaseShiftedControlledZ"@
    }

    open spec fn parametrized(&self) -> bool {
        !is_number(value_of(self.phi))
    }

    open spec fn same(&self, other: &Self) -> bool {
        *self == *other
    }

    fn hqslang(&self) -> (name: &'static str) {
        "PhaseShiftedControlledZ"
    }

    /// The tags of a two-qubit gate.
    fn tags(&self) -> (tags: Vec<&'static str>)
        ensures
            names(tags@) == two_qubit_tags("PhaseShiftedControlledZ"@),
    {
        make_two_qubit_tags("PhaseShiftedControlledZ")
    }

    fn is_parametrized(&self) -> (symbolic: bool) {
        !scalar_is_number(&self.phi)
    }
}

impl InvolveQubits for PhaseShiftedControlledZ {
    open spec fn involved(&self) -> Set<usize> {
        set![self.control, self.target]
    }

    fn involved_qubits(&self) -> (qubits: HashSet<usize>) {
        qubit_pair(self.control, self.target)
    }
}

impl Substitute for PhaseShiftedControlledZ {
    open spec fn substitutable(&self) -> bool {
        evaluable(value_of(self.phi))
    }

    fn can_substitute(&self) -> (possible: bool) {
        can_evaluate(&self.phi)
    }

    /// The qubits stay. The parameter becomes the number that the calculator gave
    /// for it, and an error is the one that the calculator gave for it.
    fn substitute_parameters(&self, calculator: &Calculator) -> (r: Result<Self, RoqoqoError>)
        ensures
            r is Ok ==> {
                &&& r->Ok_0.control == self.control
                &&& r->Ok_0.target == self.target
                &&& evaluates_to(*calculator, self.phi, r->Ok_0.phi)
                &&& is_number(value_of(self.phi)) ==> r->Ok_0.phi == self.phi
            },
            r is Err ==> {
                ||| fails_with(*calculator, self.phi, r->Err_0->CalculatorError_0)
            },
    {
        let phi = substitute_scalar(calculator, &self.phi)?;
        Ok(PhaseShiftedControlledZ { control: self.control, target: self.target, phi })
    }

    /// The control is remapped first: where both qubits lack an entry, the error
    /// names the control.
    fn remap_qubits(&self, mapping: &HashMap<usize, usize>) -> (r: Result<Self, RoqoqoError>)
        ensures
            mapping@.contains_key(self.control) && mapping@.contains_key(self.target) ==> {
                &&& r is Ok
                &&& r->Ok_0.control == mapping@[self.control]
                &&& r->Ok_0.target == mapping@[self.target]
                &&& r->Ok_0.phi == self.phi
            },
            !mapping@.contains_key(self.control) ==> r is Err && r->Err_0 == (
            RoqoqoError::QubitMappingError { qubit: self.control }),
            mapping@.contains_key(self.control) && !mapping@.contains_key(self.target) ==> r is Err
                && r->Err_0 == (RoqoqoError::QubitMappingError { qubit: self.target }),
    {
        proof {
            lemma_image_of_pair(mapping@, self.control, self.target);
            assert(self.involved().contains(self.control));
            assert(self.involved().contains(self.target));
        }
        let control = remap_qubit(mapping, self.control)?;
        let target = remap_qubit(mapping, self.target)?;
        Ok(PhaseShiftedControlledZ { control, target, phi: self.phi.clone() })
    }
}

impl OperateGate for PhaseShiftedControlledZ {
    open spec fn qubit_count(&self) -> nat {
        2
    }

    open spec fn has_matrix(&self) -> bool {
        true
    }

    fn has_unitary_matrix(&self) -> (possible: bool) {
        true
    }

    /// The matrix is laid out as [`Self::layout`] says, of cosines and sines that
    /// the calculator gave for the angles of this gate. With a symbolic
    /// parameter it fails with the error of the first one.
    fn unitary_matrix(&self) -> (r: Result<Matrix, RoqoqoError>)
        ensures
            self.parametrized() ==> r is Err && r->Err_0 == self.conversion_error(),
            !self.parametrized() ==> r is Ok && exists|
                c: Scalar, s: Scalar, c2: Scalar, s2: Scalar
            |
                {
                    &&& r->Ok_0@ == #[trigger] Self::layout(c, s, c2, s2)
                    &&& cosine_of(value_of(self.phi), c)
                    &&& sine_of(value_of(self.phi), s)
                    &&& cosine_of(difference(product(integer(2), value_of(self.phi)), pi()), c2)
                    &&& sine_of(difference(product(integer(2), value_of(self.phi)), pi()), s2)
                    &&& is_number(c) && is_number(s) && is_number(c2) && is_number(s2)
                },
    {
        let shifted = self.shifted_angle()?;
        let phi = number_of(&self.phi)?;
        let c = scalar_cos(&phi);
        let s = scalar_sin(&phi);
        let c2 = scalar_cos(&shifted);
        let s2 = scalar_sin(&shifted);
        let m = Self::matrix_of(&c, &s, &c2, &s2);
        proof {
            lemma2_to64();
            assert(m@ == Self::layout(value_of(c), value_of(s), value_of(c2), value_of(s2)));
        }
        Ok(m)
    }
}

impl OperateTwoQubit for PhaseShiftedControlledZ {
    open spec fn control_qubit(&self) -> usize {
        self.control
    }

    open spec fn target_qubit(&self) -> usize {
        self.target
    }

    fn control(&self) -> (qubit: &usize) {
        &self.control
    }

    fn target(&self) -> (qubit: &usize) {
        &self.target
    }
}

impl OperateTwoQubitGate for PhaseShiftedControlledZ {
    /// The decomposition is the one that [`Self::kak`] gives.
    fn kak_decomposition(&self) -> (kak: KakDecomposition)
        ensures
            kak@ == self.kak(),
    {
        let mut circuit_b = Circuit::new();
        circuit_b.add_operation(
            Operation::RotateZ { qubit: self.control, theta: scalar_frac_pi_2() },
        );
        circuit_b.add_operation(
            Operation::RotateZ { qubit: self.target, theta: scalar_frac_pi_2() },
        );
        assert(circuit_b@ =~= self.kak().circuit_before.unwrap());
        let mut circuit_a = Circuit::new();
        circuit_a.add_operation(
            Operation::RotateZ { qubit: self.control, theta: self.phi.clone() },
        );
        circuit_a.add_operation(Operation::RotateZ { qubit: self.target, theta: self.phi.clone() });
        assert(circuit_a@ =~= self.kak().circuit_after.unwrap());
        KakDecomposition::new(
            scalar_add(&scalar_frac_pi_4(), &self.phi),
            scalar_zero(),
            scalar_zero(),
            scalar_frac_pi_4(),
            Some(circuit_b),
            Some(circuit_a),
        )
    }
}

} // verus!
