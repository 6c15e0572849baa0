//! The Givens rotation (big endian) gate.
use crate::circuit::{Circuit, Operation, Step};
use crate::error::RoqoqoError;
use crate::kak::{KakDecomposition, KakValue};
use crate::matrix::{Complex, Matrix};
use crate::operate::{
    InvolveQubits, Operate, OperateGate, OperateTwoQubit, OperateTwoQubitGate, Rotate, Substitute,
};
use crate::qubits::{lemma_image_of_pair, qubit_pair, remap_qubit};
use crate::scalar::{
    cosine_of, equal, evaluable, frac_pi_2, integer, is_number, negation, one, product, quotient,
    scalar_add, scalar_cos, scalar_div, scalar_eq, scalar_frac_pi_2, scalar_from_integer,
    scalar_is_number, scalar_mul, scalar_neg, scalar_sin, scalar_zero, sine_of, sum, value_of, zero,
    Scalar,
};
use crate::substitution::{
    can_evaluate, evaluates, evaluates_to, fails_with, number_of, substitute_scalar,
    symbolic_parameter,
};
use crate::tags::{make_rotation_tags, names, rotation_tags};
use qoqo_calculator::{Calculator, CalculatorFloat};
use std::collections::{HashMap, HashSet};
use vstd::arithmetic::power2::lemma2_to64;
use vstd::prelude::*;
use vstd::std_specs::cmp::PartialEqSpecImpl;

verus! {

/// The Givens rotation in big endian notation,
/// `exp(-iθ(X_c Y_t - Y_c X_t)) · exp(-iφ Z_t / 2)`.
///
/// ```text
/// 1  0               0       0
/// 0  cos(θ)·e^{iφ}   sin(θ)  0
/// 0  -sin(θ)·e^{iφ}  cos(θ)  0
/// 0  0               0       e^{iφ}
/// ```
#[derive(Debug, Clone)]
pub struct GivensRotation {
    /// The most significant qubit of the matrix representation.
    pub control: usize,
    /// The least significant qubit of the matrix representation.
    pub target: usize,
    /// The rotation angle θ.
    pub theta: CalculatorFloat,
    /// The phase φ of the rotation.
    pub phi: CalculatorFloat,
}

impl GivensRotation {
    /// A gate on the qubits `control` and `target` with the given parameters.
    pub fn new(
        control: usize,
        target: usize,
        theta: CalculatorFloat,
        phi: CalculatorFloat,
    ) -> (gate: Self)
        ensures
            gate == (GivensRotation { control, target, theta, phi }),
    {
        GivensRotation { control, target, theta, phi }
    }

    /// The phase φ of the rotation.
    pub fn phi(&self) -> (value: &CalculatorFloat)
        ensures
            *value == self.phi,
    {
        &self.phi
    }

    /// The matrix of this gate, given the cosines and sines that it is made of:
    /// `ct` and `st` stand for the cosine and the sine of `θ`, `cp` and `sp` for
    /// those of `φ`.
    pub open spec fn layout(
        ct: Scalar,
        st: Scalar,
        cp: Scalar,
        sp: Scalar,
    ) -> Seq<Seq<(Scalar, Scalar)>> {
        seq![
            seq![(one(), zero()), (zero(), zero()), (zero(), zero()), (zero(), zero())],
            seq![
                (zero(), zero()),
                (product(ct, cp), product(ct, sp)),
                (st, zero()),
                (zero(), zero()),
            ],
            seq![
                (zero(), zero()),
                (product(negation(st), cp), product(negation(st), sp)),
                (ct, zero()),
                (zero(), zero()),
            ],
            seq![(zero(), zero()), (zero(), zero()), (zero(), zero()), (cp, sp)],
        ]
    }

    /// Builds the matrix of this gate from the cosines and sines that it is made
    /// of:
    /// `ct` and `st` stand for the cosine and the sine of `θ`, `cp` and `sp` for
    /// those of `φ`.
    pub fn matrix_of(
        ct: &CalculatorFloat,
        st: &CalculatorFloat,
        cp: &CalculatorFloat,
        sp: &CalculatorFloat,
    ) -> (m: Matrix)
        ensures
            m@ == Self::layout(value_of(*ct), value_of(*st), value_of(*cp), value_of(*sp)),
    {
        let rows = vec![
            vec![Complex::one(), Complex::zero(), Complex::zero(), Complex::zero()],
            vec![
                Complex::zero(),
                Complex::new(scalar_mul(ct, cp), scalar_mul(ct, sp)),
                Complex::from_real(st.clone()),
                Complex::zero(),
            ],
            vec![
                Complex::zero(),
                Complex::new(scalar_mul(&scalar_neg(st), cp), scalar_mul(&scalar_neg(st), sp)),
                Complex::from_real(ct.clone()),
                Complex::zero(),
            ],
            vec![
                Complex::zero(),
                Complex::zero(),
                Complex::zero(),
                Complex::new(cp.clone(), sp.clone()),
            ],
        ];
        let m = Matrix::from_rows(rows);
        let ghost expected = Self::layout(
            value_of(*ct),
            value_of(*st),
            value_of(*cp),
            value_of(*sp),
        );
        assert(m@ =~= expected) by {
            assert(m@[0] =~= expected[0]);
            assert(m@[1] =~= expected[1]);
            assert(m@[2] =~= expected[2]);
            assert(m@[3] =~= expected[3]);
        }
        m
    }

    /// The error of the first symbolic parameter, which is what the matrix
    /// fails with.
    pub open spec fn conversion_error(&self) -> RoqoqoError {
        if !is_number(value_of(self.theta)) {
            symbolic_parameter(self.theta)
        } else {
            symbolic_parameter(self.phi)
        }
    }

    /// The KAK decomposition of this gate.
    pub open spec fn kak(&self) -> KakValue {
        KakValue {
            global_phase: quotient(value_of(self.phi), integer(2)),
            k_vector: (
                quotient(value_of(self.theta), integer(2)),
                quotient(value_of(self.theta), integer(2)),
                zero(),
            ),
            circuit_before: Some(
                seq![
                    Step::RotateZ {
                        qubit: self.target,
                        theta: sum(value_of(self.phi), frac_pi_2()),
                    },
                ],
            ),
            circuit_after: Some(
                seq![
                    Step::RotateZ { qubit: self.target, theta: negation(frac_pi_2()) },
                ],
            ),
        }
    }
}

impl PartialEq for GivensRotation {
    fn eq(&self, other: &Self) -> (r: bool) {
        self.control == other.control && self.target == other.target
            && scalar_eq(&self.theta, &other.theta) && scalar_eq(&self.phi, &other.phi)
    }
}

impl PartialEqSpecImpl for GivensRotation {
    open spec fn obeys_eq_spec() -> bool {
        true
    }

    /// Two gates are equal where their qubits are the same and their
    /// parameters compare equal.
    open spec fn eq_spec(&self, other: &Self) -> bool {
        self.control == other.control && self.target == other.target
            && equal(value_of(self.theta), value_of(other.theta))
            && equal(value_of(self.phi), value_of(other.phi))
    }
}

impl Operate for GivensRotation {
    open spec fn name() -> Seq<char> {
        "GivensRotation"@
    }

    open spec fn parametrized(&self) -> bool {
        !is_number(value_of(self.theta)) || !is_number(value_of(self.phi))
    }

    open spec fn same(&self, other: &Self) -> bool {
        *self == *other
    }

    fn hqslang(&self) -> (name: &'static str) {
        "GivensRotation"
    }

    /// The tags of a two-qubit rotation.
    fn tags(&self) -> (tags: Vec<&'static str>)
        ensures
            names(tags@) == rotation_tags("GivensRotation"@),
    {
        make_rotation_tags("GivensRotation")
    }

    fn is_parametrized(&self) -> (symbolic: bool) {
        !scalar_is_number(&self.theta) || !scalar_is_number(&self.phi)
    }
}

impl InvolveQubits for GivensRotation {
    open spec fn involved(&self) -> Set<usize> {
        set![self.control, self.target]
    }

    fn involved_qubits(&self) -> (qubits: HashSet<usize>) {
        qubit_pair(self.control, self.target)
    }
}

impl Substitute for GivensRotation {
    open spec fn substitutable(&self) -> bool {
        evaluable(value_of(self.theta)) && evaluable(value_of(self.phi))
    }

    fn can_substitute(&self) -> (possible: bool) {
        can_evaluate(&self.theta) && can_evaluate(&self.phi)
    }

    /// The qubits stay. Each parameter becomes the number that the calculator
    /// gave for it. The parameters are evaluated in their order: an error is the
    /// one that the calculator gave for the first parameter that it failed on.
    fn substitute_parameters(&self, calculator: &Calculator) -> (r: Result<Self, RoqoqoError>)
        ensures
            r is Ok ==> {
                &&& r->Ok_0.control == self.control
                &&& r->Ok_0.target == self.target
                &&& evaluates_to(*calculator, self.theta, r->Ok_0.theta)
                &&& evaluates_to(*calculator, self.phi, r->Ok_0.phi)
                &&& is_number(value_of(self.theta)) ==> r->Ok_0.theta == self.theta
                &&& is_number(value_of(self.phi)) ==> r->Ok_0.phi == self.phi
            },
            r is Err ==> {
                ||| fails_with(*calculator, self.theta, r->Err_0->CalculatorError_0)
                ||| evaluates(*calculator, self.theta)
                    && fails_with(*calculator, self.phi, r->Err_0->CalculatorError_0)
            },
    {
        let theta = substitute_scalar(calculator, &self.theta)?;
        assert(evaluates_to(*calculator, self.theta, theta));
        let phi = substitute_scalar(calculator, &self.phi)?;
        Ok(GivensRotation { control: self.control, target: self.target, theta, phi })
    }

    /// The control is remapped first: where both qubits lack an entry, the error
    /// names the control.
    fn remap_qubits(&self, mapping: &HashMap<usize, usize>) -> (r: Result<Self, RoqoqoError>)
        ensures
            mapping@.contains_key(self.control) && mapping@.contains_key(self.target) ==> {
                &&& r is Ok
                &&& r->Ok_0.control == mapping@[self.control]
                &&& r->Ok_0.target == mapping@[self.target]
                &&& r->Ok_0.theta == self.theta
                &&& r->Ok_0.phi == self.phi
            },
            !mapping@.contains_key(self.control) ==> r is Err && r->Err_0 == (
            RoqoqoError::QubitMappingError { qubit: self.control }),
            mapping@.contains_key(self.control) && !mapping@.contains_key(self.target) ==> r is Err
                && r->Err_0 == (RoqoqoError::QubitMappingError { qubit: self.target }),
    {
        proof {
            lemma_image_of_pair(mapping@, self.control, self.target);
            assert(self.involved().contains(self.control));
            assert(self.involved().contains(self.target));
        }
        let control = remap_qubit(mapping, self.control)?;
        let target = remap_qubit(mapping, self.target)?;
        Ok(GivensRotation { control, target, theta: self.theta.clone(), phi: self.phi.clone() })
    }
}

impl OperateGate for GivensRotation {
    open spec fn qubit_count(&self) -> nat {
        2
    }

    open spec fn has_matrix(&self) -> bool {
        true
    }

    fn has_unitary_matrix(&self) -> (possible: bool) {
        true
    }

    /// The matrix is laid out as [`Self::layout`] says, of cosines and sines that
    /// the calculator gave for the angles of this gate. With a symbolic
    /// parameter it fails with the error of the first one.
    fn unitary_matrix(&self) -> (r: Result<Matrix, RoqoqoError>)
        ensures
            self.parametrized() ==> r is Err && r->Err_0 == self.conversion_error(),
            !self.parametrized() ==> r is Ok && exists|
                ct: Scalar, st: Scalar, cp: Scalar, sp: Scalar
            |
                {
                    &&& r->Ok_0@ == #[trigger] Self::layout(ct, st, cp, sp)
                    &&& cosine_of(value_of(self.theta), ct)
                    &&& sine_of(value_of(self.theta), st)
                    &&& cosine_of(value_of(self.phi), cp)
                    &&& sine_of(value_of(self.phi), sp)
                    &&& is_number(ct) && is_number(st) && is_number(cp) && is_number(sp)
                },
    {
        let theta = number_of(&self.theta)?;
        let phi = number_of(&self.phi)?;
        let ct = scalar_cos(&theta);
        let st = scalar_sin(&theta);
        let cp = scalar_cos(&phi);
        let sp = scalar_sin(&phi);
        let m = Self::matrix_of(&ct, &st, &cp, &sp);
        proof {
            lemma2_to64();
            assert(m@ == Self::layout(value_of(ct), value_of(st), value_of(cp), value_of(sp)));
        }
        Ok(m)
    }
}

impl OperateTwoQubit for GivensRotation {
    open spec fn control_qubit(&self) -> usize {
        self.control
    }

    open spec fn target_qubit(&self) -> usize {
        self.target
    }

    fn control(&self) -> (qubit: &usize) {
        &self.control
    }

    fn target(&self) -> (qubit: &usize) {
        &self.target
    }
}

impl OperateTwoQubitGate for GivensRotation {
    /// The decomposition is the one that [`Self::kak`] gives.
    fn kak_decomposition(&self) -> (kak: KakDecomposition)
        ensures
            kak@ == self.kak(),
    {
        let mut circuit_b = Circuit::new();
        circuit_b.add_operation(
            Operation::RotateZ {
                qubit: self.target,
                theta: scalar_add(&self.phi, &scalar_frac_pi_2()),
            },
        );
        assert(circuit_b@ =~= self.kak().circuit_before.unwrap());
        let mut circuit_a = Circuit::new();
        circuit_a.add_operation(
            Operation::RotateZ { qubit: self.target, theta: scalar_neg(&scalar_frac_pi_2()) },
        );
        assert(circuit_a@ =~= self.kak().circuit_after.unwrap());
        KakDecomposition::new(
            scalar_div(&self.phi, &scalar_from_integer(2)),
            scalar_div(&self.theta, &scalar_from_integer(2)),
            scalar_div(&self.theta, &scalar_from_integer(2)),
            scalar_zero(),
            Some(circuit_b),
            Some(circuit_a),
        )
    }
}

impl Rotate for GivensRotation {
    open spec fn angle(&self) -> CalculatorFloat {
        self.theta
    }

    fn theta(&self) -> (value: &CalculatorFloat) {
        &self.theta
    }

    /// Nothing but the angle changes.
    fn powercf(&self, power: CalculatorFloat) -> (gate: Self)
        ensures
            gate.control == self.control,
            gate.target == self.target,
            gate.phi == self.phi,
    {
        GivensRotation {
            control: self.control,
            target: self.target,
            theta: scalar_mul(&power, &self.theta),
            phi: self.phi.clone(),
        }
    }
}

} // verus!
