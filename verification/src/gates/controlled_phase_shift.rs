//! The controlled phase shift gate.
use crate::circuit::{Circuit, Operation, Step};
use crate::error::RoqoqoError;
use crate::kak::{KakDecomposition, KakValue};
use crate::matrix::{Complex, Matrix};
use crate::operate::{
    InvolveQubits, Operate, OperateGate, OperateTwoQubit, OperateTwoQubitGate, Rotate, Substitute,
};
use crate::qubits::{lemma_image_of_pair, qubit_pair, remap_qubit};
use crate::scalar::{
    cosine_of, equal, evaluable, integer, is_number, one, quotient, scalar_cos, scalar_div,
    scalar_eq, scalar_from_integer, scalar_is_number, scalar_mul, scalar_sin, scalar_zero, sine_of,
    value_of, zero, Scalar,
};
use crate::substitution::{
    can_evaluate, evaluates_to, fails_with, number_of, substitute_scalar, symbolic_parameter,
};
use crate::tags::{make_rotation_tags, names, rotation_tags};
use qoqo_calculator::{Calculator, CalculatorFloat};
use std::collections::{HashMap, HashSet};
use vstd::arithmetic::power2::lemma2_to64;
use vstd::prelude::*;
use vstd::std_specs::cmp::PartialEqSpecImpl;

verus! {

/// The controlled phase shift: the phase `e^{iθ}` on `|11⟩`.
///
/// ```text
/// 1 0 0 0
/// 0 1 0 0
/// 0 0 1 0
/// 0 0 0 e^{iθ}
/// ```
#[derive(Debug, Clone)]
pub struct ControlledPhaseShift {
    /// The controlling qubit, the most significant one in the matrix.
    pub control: usize,
    /// The qubit whose phase is shifted, the least significant one in the matrix.
    pub target: usize,
    /// The rotation angle θ.
    pub theta: CalculatorFloat,
}

impl ControlledPhaseShift {
    /// A gate on the qubits `control` and `target` with the given parameters.
    pub fn new(control: usize, target: usize, theta: CalculatorFloat) -> (gate: Self)
        ensures
            gate == (ControlledPhaseShift { control, target, theta }),
    {
        ControlledPhaseShift { control, target, theta }
    }

    /// The matrix of this gate, given the cosines and sines that it is made of:
    /// `c` and `s` stand for the cosine and the sine of `θ`.
    pub open spec fn layout(c: Scalar, s: Scalar) -> Seq<Seq<(Scalar, Scalar)>> {
        seq![
            seq![(one(), zero()), (zero(), zero()), (zero(), zero()), (zero(), zero())],
            seq![(zero(), zero()), (one(), zero()), (zero(), zero()), (zero(), zero())],
            seq![(zero(), zero()), (zero(), zero()), (one(), zero()), (zero(), zero())],
            seq![(zero(), zero()), (zero(), zero()), (zero(), zero()), (c, s)],
        ]
    }

    /// Builds the matrix of this gate from the cosines and sines that it is made
    /// of:
    /// `c` and `s` stand for the cosine and the sine of `θ`.
    pub fn matrix_of(c: &CalculatorFloat, s: &CalculatorFloat) -> (m: Matrix)
        ensures
            m@ == Self::layout(value_of(*c), value_of(*s)),
    {
        let rows = vec![
            vec![Complex::one(), Complex::zero(), Complex::zero(), Complex::zero()],
            vec![Complex::zero(), Complex::one(), Complex::zero(), Complex::zero()],
            vec![Complex::zero(), Complex::zero(), Complex::one(), Complex::zero()],
            vec![
                Complex::zero(),
                Complex::zero(),
                Complex::zero(),
                Complex::new(c.clone(), s.clone()),
            ],
        ];
        let m = Matrix::from_rows(rows);
        let ghost expected = Self::layout(value_of(*c), value_of(*s));
        assert(m@ =~= expected) by {
            assert(m@[0] =~= expected[0]);
            assert(m@[1] =~= expected[1]);
            assert(m@[2] =~= expected[2]);
            assert(m@[3] =~= expected[3]);
        }
        m
    }

    /// The error of the first symbolic parameter, which is what the matrix
    /// fails with.
    pub open spec fn conversion_error(&self) -> RoqoqoError {
        symbolic_parameter(self.theta)
    }

    /// The KAK decomposition of this gate.
    pub open spec fn kak(&self) -> KakValue {
        KakValue {
            global_phase: quotient(value_of(self.theta), integer(4)),
            k_vector: (zero(), zero(), quotient(value_of(self.theta), integer(4))),
            circuit_before: Some(
                seq![
                    Step::RotateZ {
                        qubit: self.control,
                        theta: quotient(value_of(self.theta), integer(2)),
                    },
                    Step::RotateZ {
                        qubit: self.target,
                        theta: quotient(value_of(self.theta), integer(2)),
                    },
                ],
            ),
            circuit_after: None,
        }
    }
}

impl PartialEq for ControlledPhaseShift {
    fn eq(&self, other: &Self) -> (r: bool) {
        self.control == other.control && self.target == other.target
            && scalar_eq(&self.theta, &other.theta)
    }
}

impl PartialEqSpecImpl for ControlledPhaseShift {
    open spec fn obeys_eq_spec() -> bool {
        true
    }

    /// Two gates are equal where their qubits are the same and their
    /// parameters compare equal.
    open spec fn eq_spec(&self, other: &Self) -> bool {
        self.control == other.control && self.target == other.target
            && equal(value_of(self.theta), value_of(other.theta))
    }
}

impl Operate for ControlledPhaseShift {
    open spec fn name() -> Seq<char> {
        "ControlledPhaseShift"@
    }

    open spec fn parametrized(&self) -> bool {
        !is_number(value_of(self.theta))
    }

    open spec fn same(&self, other: &Self) -> bool {
        *self == *other
    }

    fn hqslang(&self) -> (name: &'static str) {
        "ControlledPhaseShift"
    }

    /// The tags of a two-qubit rotation.
    fn tags(&self) -> (tags: Vec<&'static str>)
        ensures
            names(tags@) == rotation_tags("ControlledPhaseShift"@),
    {
        make_rotation_tags("ControlledPhaseShift")
    }

    fn is_parametrized(&self) -> (symbolic: bool) {
        !scalar_is_number(&self.theta)
    }
}

impl InvolveQubits for ControlledPhaseShift {
    open spec fn involved(&self) -> Set<usize> {
        set![self.control, self.target]
    }

    fn involved_qubits(&self) -> (qubits: HashSet<usize>) {
        qubit_pair(self.control, self.target)
    }
}

impl Substitute for ControlledPhaseShift {
    open spec fn substitutable(&self) -> bool {
        evaluable(value_of(self.theta))
    }

    fn can_substitute(&self) -> (possible: bool) {
        can_evaluate(&self.theta)
    }

    /// The qubits stay. The parameter becomes the number that the calculator gave
    /// for it, and an error is the one that the calculator gave for it.
    fn substitute_parameters(&self, calculator: &Calculator) -> (r: Result<Self, RoqoqoError>)
        ensures
            r is Ok ==> {
                &&& r->Ok_0.control == self.control
                &&& r->Ok_0.target == self.target
                &&& evaluates_to(*calculator, self.theta, r->Ok_0.theta)
                &&& is_number(value_of(self.theta)) ==> r->Ok_0.theta == self.theta
            },
            r is Err ==> {
                ||| fails_with(*calculator, self.theta, r->Err_0->CalculatorError_0)
            },
    {
        let theta = substitute_scalar(calculator, &self.theta)?;
        Ok(ControlledPhaseShift { control: self.control, target: self.target, theta })
    }

    /// The control is remapped first: where both qubits lack an entry, the error
    /// names the control.
    fn remap_qubits(&self, mapping: &HashMap<usize, usize>) -> (r: Result<Self, RoqoqoError>)
        ensures
            mapping@.contains_key(self.control) && mapping@.contains_key(self.target) ==> {
                &&& r is Ok
                &&& r->Ok_0.control == mapping@[self.control]
                &&& r->Ok_0.target == mapping@[self.target]
                &&& r->Ok_0.theta == self.theta
            },
            !mapping@.contains_key(self.control) ==> r is Err && r->Err_0 == (
            RoqoqoError::QubitMappingError { qubit: self.control }),
            mapping@.contains_key(self.control) && !mapping@.contains_key(self.target) ==> r is Err
                && r->Err_0 == (RoqoqoError::QubitMappingError { qubit: self.target }),
    {
        proof {
            lemma_image_of_pair(mapping@, self.control, self.target);
            assert(self.involved().contains(self.control));
            assert(self.involved().contains(self.target));
        }
        let control = remap_qubit(mapping, self.control)?;
        let target = remap_qubit(mapping, self.target)?;
        Ok(ControlledPhaseShift { control, target, theta: self.theta.clone() })
    }
}

impl OperateGate for ControlledPhaseShift {
    open spec fn qubit_count(&self) -> nat {
        2
    }

    open spec fn has_matrix(&self) -> bool {
        true
    }

    fn has_unitary_matrix(&self) -> (possible: bool) {
        true
    }

    /// The matrix is laid out as [`Self::layout`] says, of cosines and sines that
    /// the calculator gave for the angles of this gate. With a symbolic
    /// parameter it fails with the error of the first one.
    fn unitary_matrix(&self) -> (r: Result<Matrix, RoqoqoError>)
        ensures
            self.parametrized() ==> r is Err && r->Err_0 == self.conversion_error(),
            !self.parametrized() ==> r is Ok && exists|
                c: Scalar, s: Scalar
            |
                {
                    &&& r->Ok_0@ == #[trigger] Self::layout(c, s)
                    &&& cosine_of(value_of(self.theta), c)
                    &&& sine_of(value_of(self.theta), s)
                    &&& is_number(c) && is_number(s)
                },
    {
        let theta = number_of(&self.theta)?;
        let c = scalar_cos(&theta);
        let s = scalar_sin(&theta);
        let m = Self::matrix_of(&c, &s);
        proof {
            lemma2_to64();
            assert(m@ == Self::layout(value_of(c), value_of(s)));
        }
        Ok(m)
    }
}

impl OperateTwoQubit for ControlledPhaseShift {
    open spec fn control_qubit(&self) -> usize {
        self.control
    }

    open spec fn target_qubit(&self) -> usize {
        self.target
    }

    fn control(&self) -> (qubit: &usize) {
        &self.control
    }

    fn target(&self) -> (qubit: &usize) {
        &self.target
    }
}

impl OperateTwoQubitGate for ControlledPhaseShift {
    /// The decomposition is the one that [`Self::kak`] gives.
    fn kak_decomposition(&self) -> (kak: KakDecomposition)
        ensures
            kak@ == self.kak(),
    {
        let mut circuit_b = Circuit::new();
        circuit_b.add_operation(
            Operation::RotateZ {
                qubit: self.control,
                theta: scalar_div(&self.theta, &scalar_from_integer(2)),
            },
        );
        circuit_b.add_operation(
            Operation::RotateZ {
                qubit: self.target,
                theta: scalar_div(&self.theta, &scalar_from_integer(2)),
            },
        );
        assert(circuit_b@ =~= self.kak().circuit_before.unwrap());
        KakDecomposition::new(
            scalar_div(&self.theta, &scalar_from_integer(4)),
            scalar_zero(),
            scalar_zero(),
            scalar_div(&self.theta, &scalar_from_integer(4)),
            Some(circuit_b),
            None,
        )
    }
}

impl Rotate for ControlledPhaseShift {
    open spec fn angle(&self) -> CalculatorFloat {
        self.theta
    }

    fn theta(&self) -> (value: &CalculatorFloat) {
        &self.theta
    }

    /// Nothing but the angle changes.
    fn powercf(&self, power: CalculatorFloat) -> (gate: Self)
        ensures
            gate.control == self.control,
            gate.target == self.target,
    {
        ControlledPhaseShift {
            control: self.control,
            target: self.target,
            theta: scalar_mul(&power, &self.theta),
        }
    }
}

} // verus!
