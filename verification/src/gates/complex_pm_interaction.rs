//! The complex hopping gate.
use crate::circuit::{Circuit, Operation, Step};
use crate::error::RoqoqoError;
use crate::kak::{is_concrete, KakDecomposition, KakValue};
use crate::matrix::{Complex, Matrix};
use crate::operate::{
    InvolveQubits, Operate, OperateGate, OperateTwoQubit, OperateTwoQubitGate, Substitute,
};
use crate::qubits::{lemma_image_of_pair, qubit_pair, remap_qubit};
use crate::scalar::{
    argument_of, complex_norm, cosine_of, equal, evaluable, integer, is_number, negation, norm_of,
    number_arg, number_norm, one, product, quotient, scalar_argument_of, scalar_complex_arg,
    scalar_complex_norm, scalar_cos, scalar_div, scalar_eq, scalar_from_integer, scalar_is_number,
    scalar_mul, scalar_neg, scalar_sin, scalar_zero, sine_of, symbolic_argument, value_of, zero,
    Scalar,
};
use crate::substitution::{
    can_evaluate, evaluates, evaluates_to, fails_with, number_of, substitute_scalar,
    symbolic_parameter,
};
use crate::tags::{make_two_qubit_tags, names, two_qubit_tags};
use qoqo_calculator::{Calculator, CalculatorFloat};
use std::collections::{HashMap, HashSet};
use vstd::arithmetic::power2::lemma2_to64;
use vstd::prelude::*;
use vstd::std_specs::cmp::PartialEqSpecImpl;

verus! {

/// The complex hopping gate,
/// `exp(-i[Re(θ)(X_c X_t + Y_c Y_t) - Im(θ)(X_c Y_t - Y_c X_t)])`.
///
/// ```text
/// 1  0                       0                        0
/// 0  cos|θ|                 -i·sin|θ|·e^{-i·arg(θ)}   0
/// 0  -i·sin|θ|·e^{i·arg(θ)}  cos|θ|                   0
/// 0  0                       0                        1
/// ```
#[derive(Debug, Clone)]
pub struct ComplexPMInteraction {
    /// The most significant qubit of the matrix representation.
    pub control: usize,
    /// The least significant qubit of the matrix representation.
    pub target: usize,
    /// The real part of the strength of the rotation θ.
    pub t_real: CalculatorFloat,
    /// The imaginary part of the strength of the rotation θ.
    pub t_imag: CalculatorFloat,
}

impl ComplexPMInteraction {
    /// A gate on the qubits `control` and `target` with the given parameters.
    pub fn new(
        control: usize,
        target: usize,
        t_real: CalculatorFloat,
        t_imag: CalculatorFloat,
    ) -> (gate: Self)
        ensures
            gate == (ComplexPMInteraction { control, target, t_real, t_imag }),
    {
        ComplexPMInteraction { control, target, t_real, t_imag }
    }

    /// The real part of the strength of the rotation θ.
    pub fn t_real(&self) -> (value: &CalculatorFloat)
        ensures
            *value == self.t_real,
    {
        &self.t_real
    }

    /// The imaginary part of the strength of the rotation θ.
    pub fn t_imag(&self) -> (value: &CalculatorFloat)
        ensures
            *value == self.t_imag,
    {
        &self.t_imag
    }

    /// The matrix of this gate, given the cosines and sines that it is made of:
    /// `cn` and `sn` stand for the cosine and the sine of `|θ|`, `ca` and `sa` for
    /// those of `arg(θ)`.
    pub open spec fn layout(
        cn: Scalar,
        sn: Scalar,
        ca: Scalar,
        sa: Scalar,
    ) -> Seq<Seq<(Scalar, Scalar)>> {
        seq![
            seq![(one(), zero()), (zero(), zero()), (zero(), zero()), (zero(), zero())],
            seq![
                (zero(), zero()),
                (cn, zero()),
                (product(negation(sn), sa), product(negation(sn), ca)),
                (zero(), zero()),
            ],
            seq![
                (zero(), zero()),
                (product(sn, sa), product(negation(sn), ca)),
                (cn, zero()),
                (zero(), zero()),
            ],
            seq![(zero(), zero()), (zero(), zero()), (zero(), zero()), (one(), zero())],
        ]
    }

    /// Builds the matrix of this gate from the cosines and sines that it is made
    /// of:
    /// `cn` and `sn` stand for the cosine and the sine of `|θ|`, `ca` and `sa` for
    /// those of `arg(θ)`.
    pub fn matrix_of(
        cn: &CalculatorFloat,
        sn: &CalculatorFloat,
        ca: &CalculatorFloat,
        sa: &CalculatorFloat,
    ) -> (m: Matrix)
        ensures
            m@ == Self::layout(value_of(*cn), value_of(*sn), value_of(*ca), value_of(*sa)),
    {
        let rows = vec![
            vec![Complex::one(), Complex::zero(), Complex::zero(), Complex::zero()],
            vec![
                Complex::zero(),
                Complex::from_real(cn.clone()),
                Complex::new(scalar_mul(&scalar_neg(sn), sa), scalar_mul(&scalar_neg(sn), ca)),
                Complex::zero(),
            ],
            vec![
                Complex::zero(),
                Complex::new(scalar_mul(sn, sa), scalar_mul(&scalar_neg(sn), ca)),
                Complex::from_real(cn.clone()),
                Complex::zero(),
            ],
            vec![Complex::zero(), Complex::zero(), Complex::zero(), Complex::one()],
        ];
        let m = Matrix::from_rows(rows);
        let ghost expected = Self::layout(
            value_of(*cn),
            value_of(*sn),
            value_of(*ca),
            value_of(*sa),
        );
        assert(m@ =~= expected) by {
            assert(m@[0] =~= expected[0]);
            assert(m@[1] =~= expected[1]);
            assert(m@[2] =~= expected[2]);
            assert(m@[3] =~= expected[3]);
        }
        m
    }

    /// The error of the first symbolic parameter, which is what the matrix
    /// fails with.
    pub open spec fn conversion_error(&self) -> RoqoqoError {
        if !is_number(value_of(self.t_real)) {
            symbolic_parameter(self.t_real)
        } else {
            symbolic_parameter(self.t_imag)
        }
    }

    /// The KAK decomposition of this gate, given the argument of its complex
    /// parameter.
    pub open spec fn kak(&self, arg: Scalar) -> KakValue {
        KakValue {
            global_phase: zero(),
            k_vector: (
                quotient(complex_norm(value_of(self.t_real), value_of(self.t_imag)), integer(-2)),
                quotient(complex_norm(value_of(self.t_real), value_of(self.t_imag)), integer(-2)),
                zero(),
            ),
            circuit_before: Some(
                seq![
                    Step::RotateZ { qubit: self.target, theta: arg },
                ],
            ),
            circuit_after: Some(
                seq![
                    Step::RotateZ { qubit: self.target, theta: product(arg, integer(-1)) },
                ],
            ),
        }
    }

    /// Builds the KAK decomposition of this gate from the argument of its
    /// complex parameter.
    pub fn kak_from_argument(&self, arg: &CalculatorFloat) -> (kak: KakDecomposition)
        ensures
            kak@ == self.kak(value_of(*arg)),
            is_number(value_of(self.t_real)) && is_number(value_of(self.t_imag))
                && is_number(value_of(*arg))
                ==> is_concrete(kak@),
    {
        let mut circuit_b = Circuit::new();
        circuit_b.add_operation(Operation::RotateZ { qubit: self.target, theta: arg.clone() });
        assert(circuit_b@ =~= self.kak(value_of(*arg)).circuit_before.unwrap());
        let mut circuit_a = Circuit::new();
        circuit_a.add_operation(
            Operation::RotateZ {
                qubit: self.target,
                theta: scalar_mul(arg, &scalar_from_integer(-1)),
            },
        );
        assert(circuit_a@ =~= self.kak(value_of(*arg)).circuit_after.unwrap());
        KakDecomposition::new(
            scalar_zero(),
            scalar_div(&scalar_complex_norm(&self.t_real, &self.t_imag), &scalar_from_integer(-2)),
            scalar_div(&scalar_complex_norm(&self.t_real, &self.t_imag), &scalar_from_integer(-2)),
            scalar_zero(),
            Some(circuit_b),
            Some(circuit_a),
        )
    }
}

impl PartialEq for ComplexPMInteraction {
    fn eq(&self, other: &Self) -> (r: bool) {
        self.control == other.control && self.target == other.target
            && scalar_eq(&self.t_real, &other.t_real) && scalar_eq(&self.t_imag, &other.t_imag)
    }
}

impl PartialEqSpecImpl for ComplexPMInteraction {
    open spec fn obeys_eq_spec() -> bool {
        true
    }

    /// Two gates are equal where their qubits are the same and their
    /// parameters compare equal.
    open spec fn eq_spec(&self, other: &Self) -> bool {
        self.control == other.control && self.target == other.target
            && equal(value_of(self.t_real), value_of(other.t_real))
            && equal(value_of(self.t_imag), value_of(other.t_imag))
    }
}

impl Operate for ComplexPMInteraction {
    open spec fn name() -> Seq<char> {
        "ComplexPMInteraction"@
    }

    open spec fn parametrized(&self) -> bool {
        !is_number(value_of(self.t_real)) || !is_number(value_of(self.t_imag))
    }

    open spec fn same(&self, other: &Self) -> bool {
        *self == *other
    }

    fn hqslang(&self) -> (name: &'static str) {
        "ComplexPMInteraction"
    }

    /// The tags of a two-qubit gate.
    fn tags(&self) -> (tags: Vec<&'static str>)
        ensures
            names(tags@) == two_qubit_tags("ComplexPMInteraction"@),
    {
        make_two_qubit_tags("ComplexPMInteraction")
    }

    fn is_parametrized(&self) -> (symbolic: bool) {
        !scalar_is_number(&self.t_real) || !scalar_is_number(&self.t_imag)
    }
}

impl InvolveQubits for ComplexPMInteraction {
    open spec fn involved(&self) -> Set<usize> {
        set![self.control, self.target]
    }

    fn involved_qubits(&self) -> (qubits: HashSet<usize>) {
        qubit_pair(self.control, self.target)
    }
}

impl Substitute for ComplexPMInteraction {
    open spec fn substitutable(&self) -> bool {
        evaluable(value_of(self.t_real)) && evaluable(value_of(self.t_imag))
    }

    fn can_substitute(&self) -> (possible: bool) {
        can_evaluate(&self.t_real) && can_evaluate(&self.t_imag)
    }

    /// The qubits stay. Each parameter becomes the number that the calculator
    /// gave for it. The parameters are evaluated in their order: an error is the
    /// one that the calculator gave for the first parameter that it failed on.
    fn substitute_parameters(&self, calculator: &Calculator) -> (r: Result<Self, RoqoqoError>)
        ensures
            r is Ok ==> {
                &&& r->Ok_0.control == self.control
                &&& r->Ok_0.target == self.target
                &&& evaluates_to(*calculator, self.t_real, r->Ok_0.t_real)
                &&& evaluates_to(*calculator, self.t_imag, r->Ok_0.t_imag)
                &&& is_number(value_of(self.t_real)) ==> r->Ok_0.t_real == self.t_real
                &&& is_number(value_of(self.t_imag)) ==> r->Ok_0.t_imag == self.t_imag
            },
            r is Err ==> {
                ||| fails_with(*calculator, self.t_real, r->Err_0->CalculatorError_0)
                ||| evaluates(*calculator, self.t_real)
                    && fails_with(*calculator, self.t_imag, r->Err_0->CalculatorError_0)
            },
    {
        let t_real = substitute_scalar(calculator, &self.t_real)?;
        assert(evaluates_to(*calculator, self.t_real, t_real));
        let t_imag = substitute_scalar(calculator, &self.t_imag)?;
        Ok(ComplexPMInteraction { control: self.control, target: self.target, t_real, t_imag })
    }

    /// The control is remapped first: where both qubits lack an entry, the error
    /// names the control.
    fn remap_qubits(&self, mapping: &HashMap<usize, usize>) -> (r: Result<Self, RoqoqoError>)
        ensures
            mapping@.contains_key(self.control) && mapping@.contains_key(self.target) ==> {
                &&& r is Ok
                &&& r->Ok_0.control == mapping@[self.control]
                &&& r->Ok_0.target == mapping@[self.target]
                &&& r->Ok_0.t_real == self.t_real
                &&& r->Ok_0.t_imag == self.t_imag
            },
            !mapping@.contains_key(self.control) ==> r is Err && r->Err_0 == (
            RoqoqoError::QubitMappingError { qubit: self.control }),
            mapping@.contains_key(self.control) && !mapping@.contains_key(self.target) ==> r is Err
                && r->Err_0 == (RoqoqoError::QubitMappingError { qubit: self.target }),
    {
        proof {
            lemma_image_of_pair(mapping@, self.control, self.target);
            assert(self.involved().contains(self.control));
            assert(self.involved().contains(self.target));
        }
        let control = remap_qubit(mapping, self.control)?;
        let target = remap_qubit(mapping, self.target)?;
        Ok(
            ComplexPMInteraction {
                control,
                target,
                t_real: self.t_real.clone(),
                t_imag: self.t_imag.clone(),
            },
        )
    }
}

impl OperateGate for ComplexPMInteraction {
    open spec fn qubit_count(&self) -> nat {
        2
    }

    open spec fn has_matrix(&self) -> bool {
        true
    }

    fn has_unitary_matrix(&self) -> (possible: bool) {
        true
    }

    /// The matrix is laid out as [`Self::layout`] says, of cosines and sines that
    /// the calculator gave for the angles of this gate. With a symbolic
    /// parameter it fails with the error of the first one.
    fn unitary_matrix(&self) -> (r: Result<Matrix, RoqoqoError>)
        ensures
            self.parametrized() ==> r is Err && r->Err_0 == self.conversion_error(),
            !self.parametrized() ==> r is Ok && exists|
                norm: Scalar, arg: Scalar, cn: Scalar, sn: Scalar, ca: Scalar, sa: Scalar
            |
                #![trigger Self::layout(cn, sn, ca, sa), cosine_of(norm, cn), cosine_of(arg, ca)]
                {
                    &&& r->Ok_0@ == Self::layout(cn, sn, ca, sa)
                    &&& norm_of(value_of(self.t_real), value_of(self.t_imag), norm)
                    &&& argument_of(value_of(self.t_real), value_of(self.t_imag), arg)
                    &&& cosine_of(norm, cn)
                    &&& sine_of(norm, sn)
                    &&& cosine_of(arg, ca)
                    &&& sine_of(arg, sa)
                    &&& is_number(norm) && is_number(arg) && is_number(cn) && is_number(sn)
                        && is_number(ca) && is_number(sa)
                },
    {
        let t_real = number_of(&self.t_real)?;
        let t_imag = number_of(&self.t_imag)?;
        let norm = number_norm(&t_real, &t_imag);
        let arg = number_arg(&t_real, &t_imag);
        let cn = scalar_cos(&norm);
        let sn = scalar_sin(&norm);
        let ca = scalar_cos(&arg);
        let sa = scalar_sin(&arg);
        let m = Self::matrix_of(&cn, &sn, &ca, &sa);
        proof {
            lemma2_to64();
            assert(m@ == Self::layout(value_of(cn), value_of(sn), value_of(ca), value_of(sa)));
        }
        Ok(m)
    }
}

impl OperateTwoQubit for ComplexPMInteraction {
    open spec fn control_qubit(&self) -> usize {
        self.control
    }

    open spec fn target_qubit(&self) -> usize {
        self.target
    }

    fn control(&self) -> (qubit: &usize) {
        &self.control
    }

    fn target(&self) -> (qubit: &usize) {
        &self.target
    }
}

impl OperateTwoQubitGate for ComplexPMInteraction {
    /// The decomposition is the one that [`Self::kak`] gives for the argument of
    /// the complex parameter, which the calculator computes: a number for two
    /// numbers, the text `atan2(im, re)` for two symbolic expressions.
    fn kak_decomposition(&self) -> (kak: KakDecomposition)
        ensures
            exists|arg: Scalar|
                {
                    &&& kak@ == #[trigger] self.kak(arg)
                    &&& scalar_argument_of(
                        value_of(self.t_real),
                        value_of(self.t_imag),
                        arg,
                    )
                    &&& is_number(value_of(self.t_real))
                        && is_number(value_of(self.t_imag)) ==> is_number(arg)
                    &&& !is_number(value_of(self.t_real))
                        && !is_number(value_of(self.t_imag)) ==> arg
                        == symbolic_argument(value_of(self.t_real), value_of(self.t_imag))
                },
    {
        let arg = scalar_complex_arg(&self.t_real, &self.t_imag);
        let kak = self.kak_from_argument(&arg);
        assert(kak@ == self.kak(value_of(arg)));
        kak
    }
}

} // verus!
