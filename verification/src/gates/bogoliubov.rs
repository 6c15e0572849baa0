//! The Bogoliubov–de Gennes interaction gate.
use crate::circuit::{Circuit, Operation, Step};
use crate::error::RoqoqoError;
use crate::kak::{is_concrete, KakDecomposition, KakValue};
use crate::matrix::{Complex, Matrix};
use crate::operate::{
    InvolveQubits, Operate, OperateGate, OperateTwoQubit, OperateTwoQubitGate, Substitute,
};
use crate::qubits::{lemma_image_of_pair, qubit_pair, remap_qubit};
use crate::scalar::{
    argument_of, complex_norm, cosine_of, equal, evaluable, integer, is_number, negation, norm_of,
    number_arg, number_norm, one, product, quotient, scalar_argument_of, scalar_complex_arg,
    scalar_complex_norm, scalar_cos, scalar_div, scalar_eq, scalar_from_integer, scalar_is_number,
    scalar_mul, scalar_neg, scalar_sin, scalar_zero, sine_of, symbolic_argument, value_of, zero,
    Scalar,
};
use crate::substitution::{
    can_evaluate, evaluates, evaluates_to, fails_with, number_of, substitute_scalar,
    symbolic_parameter,
};
use crate::tags::{make_two_qubit_tags, names, two_qubit_tags};
use qoqo_calculator::{Calculator, CalculatorFloat};
use std::collections::{HashMap, HashSet};
use vstd::arithmetic::power2::lemma2_to64;
use vstd::prelude::*;
use vstd::std_specs::cmp::PartialEqSpecImpl;

verus! {

/// The Bogoliubov–de Gennes interaction gate,
/// `exp(-i·Re(Δ)(X_c X_t - Y_c Y_t)/2 + Im(Δ)(X_c Y_t + Y_c X_t)/2)`.
///
/// ```text
/// cos|Δ|                   0  0  i·sin|Δ|·e^{i·arg(Δ)}
/// 0                        1  0  0
/// 0                        0  1  0
/// i·sin|Δ|·e^{-i·arg(Δ)}   0  0  cos|Δ|
/// ```
#[derive(Debug, Clone)]
pub struct Bogoliubov {
    /// The most significant qubit of the matrix representation.
    pub control: usize,
    /// The least significant qubit of the matrix representation.
    pub target: usize,
    /// The real part of the interaction strength Δ.
    pub delta_real: CalculatorFloat,
    /// The imaginary part of the interaction strength Δ.
    pub delta_imag: CalculatorFloat,
}

impl Bogoliubov {
    /// A gate on the qubits `control` and `target` with the given parameters.
    pub fn new(
        control: usize,
        target: usize,
        delta_real: CalculatorFloat,
        delta_imag: CalculatorFloat,
    ) -> (gate: Self)
        ensures
            gate == (Bogoliubov { control, target, delta_real, delta_imag }),
    {
        Bogoliubov { control, target, delta_real, delta_imag }
    }

    /// The real part of the interaction strength Δ.
    pub fn delta_real(&self) -> (value: &CalculatorFloat)
        ensures
            *value == self.delta_real,
    {
        &self.delta_real
    }

    /// The imaginary part of the interaction strength Δ.
    pub fn delta_imag(&self) -> (value: &CalculatorFloat)
        ensures
            *value == self.delta_imag,
    {
        &self.delta_imag
    }

    /// The matrix of this gate, given the cosines and sines that it is made of:
    /// `ca` and `sa` stand for the cosine and the sine of `|Δ|`, `cp` and `sp` for
    /// those of `arg(Δ)`.
    pub open spec fn layout(
        ca: Scalar,
        sa: Scalar,
        cp: Scalar,
        sp: Scalar,
    ) -> Seq<Seq<(Scalar, Scalar)>> {
        seq![
            seq![
                (ca, zero()),
                (zero(), zero()),
                (zero(), zero()),
                (product(negation(sa), sp), product(sa, cp)),
            ],
            seq![(zero(), zero()), (one(), zero()), (zero(), zero()), (zero(), zero())],
            seq![(zero(), zero()), (zero(), zero()), (one(), zero()), (zero(), zero())],
            seq![
                (product(sa, sp), product(sa, cp)),
                (zero(), zero()),
                (zero(), zero()),
                (ca, zero()),
            ],
        ]
    }

    /// Builds the matrix of this gate from the cosines and sines that it is made
    /// of:
    /// `ca` and `sa` stand for the cosine and the sine of `|Δ|`, `cp` and `sp` for
    /// those of `arg(Δ)`.
    pub fn matrix_of(
        ca: &CalculatorFloat,
        sa: &CalculatorFloat,
        cp: &CalculatorFloat,
        sp: &CalculatorFloat,
    ) -> (m: Matrix)
        ensures
            m@ == Self::layout(value_of(*ca), value_of(*sa), value_of(*cp), value_of(*sp)),
    {
        let rows = vec![
            vec![
                Complex::from_real(ca.clone()),
                Complex::zero(),
                Complex::zero(),
                Complex::new(scalar_mul(&scalar_neg(sa), sp), scalar_mul(sa, cp)),
            ],
            vec![Complex::zero(), Complex::one(), Complex::zero(), Complex::zero()],
            vec![Complex::zero(), Complex::zero(), Complex::one(), Complex::zero()],
            vec![
                Complex::new(scalar_mul(sa, sp), scalar_mul(sa, cp)),
                Complex::zero(),
                Complex::zero(),
                Complex::from_real(ca.clone()),
            ],
        ];
        let m = Matrix::from_rows(rows);
        let ghost expected = Self::layout(
            value_of(*ca),
            value_of(*sa),
            value_of(*cp),
            value_of(*sp),
        );
        assert(m@ =~= expected) by {
            assert(m@[0] =~= expected[0]);
            assert(m@[1] =~= expected[1]);
            assert(m@[2] =~= expected[2]);
            assert(m@[3] =~= expected[3]);
        }
        m
    }

    /// The error of the first symbolic parameter, which is what the matrix
    /// fails with.
    pub open spec fn conversion_error(&self) -> RoqoqoError {
        if !is_number(value_of(self.delta_real)) {
            symbolic_parameter(self.delta_real)
        } else {
            symbolic_parameter(self.delta_imag)
        }
    }

    /// The KAK decomposition of this gate, given the argument of its complex
    /// parameter.
    pub open spec fn kak(&self, arg: Scalar) -> KakValue {
        KakValue {
            global_phase: zero(),
            k_vector: (
                quotient(
                    complex_norm(value_of(self.delta_real), value_of(self.delta_imag)),
                    integer(2),
                ),
                quotient(
                    complex_norm(value_of(self.delta_real), value_of(self.delta_imag)),
                    integer(-2),
                ),
                zero(),
            ),
            circuit_before: Some(
                seq![
                    Step::RotateZ { qubit: self.target, theta: arg },
                ],
            ),
            circuit_after: Some(
                seq![
                    Step::RotateZ { qubit: self.target, theta: product(arg, integer(-1)) },
                ],
            ),
        }
    }

    /// Builds the KAK decomposition of this gate from the argument of its
    /// complex parameter.
    pub fn kak_from_argument(&self, arg: &CalculatorFloat) -> (kak: KakDecomposition)
        ensures
            kak@ == self.kak(value_of(*arg)),
            is_number(value_of(self.delta_real)) && is_number(value_of(self.delta_imag))
                && is_number(value_of(*arg))
                ==> is_concrete(kak@),
    {
        let mut circuit_b = Circuit::new();
        circuit_b.add_operation(Operation::RotateZ { qubit: self.target, theta: arg.clone() });
        assert(circuit_b@ =~= self.kak(value_of(*arg)).circuit_before.unwrap());
        let mut circuit_a = Circuit::new();
        circuit_a.add_operation(
            Operation::RotateZ {
                qubit: self.target,
                theta: scalar_mul(arg, &scalar_from_integer(-1)),
            },
        );
        assert(circuit_a@ =~= self.kak(value_of(*arg)).circuit_after.unwrap());
        KakDecomposition::new(
            scalar_zero(),
            scalar_div(
                &scalar_complex_norm(&self.delta_real, &self.delta_imag),
                &scalar_from_integer(2),
            ),
            scalar_div(
                &scalar_complex_norm(&self.delta_real, &self.delta_imag),
                &scalar_from_integer(-2),
            ),
            scalar_zero(),
            Some(circuit_b),
            Some(circuit_a),
        )
    }
}

impl PartialEq for Bogoliubov {
    fn eq(&self, other: &Self) -> (r: bool) {
        self.control == other.control && self.target == other.target
            && scalar_eq(&self.delta_real, &other.delta_real)
            && scalar_eq(&self.delta_imag, &other.delta_imag)
    }
}

impl PartialEqSpecImpl for Bogoliubov {
    open spec fn obeys_eq_spec() -> bool {
        true
    }

    /// Two gates are equal where their qubits are the same and their
    /// parameters compare equal.
    open spec fn eq_spec(&self, other: &Self) -> bool {
        self.control == other.control && self.target == other.target
            && equal(value_of(self.delta_real), value_of(other.delta_real))
            && equal(value_of(self.delta_imag), value_of(other.delta_imag))
    }
}

impl Operate for Bogoliubov {
    open spec fn name() -> Seq<char> {
        "Bogoliubov"@
    }

    open spec fn parametrized(&self) -> bool {
        !is_number(value_of(self.delta_real)) || !is_number(value_of(self.delta_imag))
    }

    open spec fn same(&self, other: &Self) -> bool {
        *self == *other
    }

    fn hqslang(&self) -> (name: &'static str) {
        "Bogoliubov"
    }

    /// The tags of a two-qubit gate.
    fn tags(&self) -> (tags: Vec<&'static str>)
        ensures
            names(tags@) == two_qubit_tags("Bogoliubov"@),
    {
        make_two_qubit_tags("Bogoliubov")
    }

    fn is_parametrized(&self) -> (symbolic: bool) {
        !scalar_is_number(&self.delta_real) || !scalar_is_number(&self.delta_imag)
    }
}

impl InvolveQubits for Bogoliubov {
    open spec fn involved(&self) -> Set<usize> {
        set![self.control, self.target]
    }

    fn involved_qubits(&self) -> (qubits: HashSet<usize>) {
        qubit_pair(self.control, self.target)
    }
}

impl Substitute for Bogoliubov {
    open spec fn substitutable(&self) -> bool {
        evaluable(value_of(self.delta_real)) && evaluable(value_of(self.delta_imag))
    }

    fn can_substitute(&self) -> (possible: bool) {
        can_evaluate(&self.delta_real) && can_evaluate(&self.delta_imag)
    }

    /// The qubits stay. Each parameter becomes the number that the calculator
    /// gave for it. The parameters are evaluated in their order: an error is the
    /// one that the calculator gave for the first parameter that it failed on.
    fn substitute_parameters(&self, calculator: &Calculator) -> (r: Result<Self, RoqoqoError>)
        ensures
            r is Ok ==> {
                &&& r->Ok_0.control == self.control
                &&& r->Ok_0.target == self.target
                &&& evaluates_to(*calculator, self.delta_real, r->Ok_0.delta_real)
                &&& evaluates_to(*calculator, self.delta_imag, r->Ok_0.delta_imag)
                &&& is_number(value_of(self.delta_real)) ==> r->Ok_0.delta_real == self.delta_real
                &&& is_number(value_of(self.delta_imag)) ==> r->Ok_0.delta_imag == self.delta_imag
            },
            r is Err ==> {
                ||| fails_with(*calculator, self.delta_real, r->Err_0->CalculatorError_0)
                ||| evaluates(*calculator, self.delta_real)
                    && fails_with(*calculator, self.delta_imag, r->Err_0->CalculatorError_0)
            },
    {
        let delta_real = substitute_scalar(calculator, &self.delta_real)?;
        assert(evaluates_to(*calculator, self.delta_real, delta_real));
        let delta_imag = substitute_scalar(calculator, &self.delta_imag)?;
        Ok(Bogoliubov { control: self.control, target: self.target, delta_real, delta_imag })
    }

    /// The control is remapped first: where both qubits lack an entry, the error
    /// names the control.
    fn remap_qubits(&self, mapping: &HashMap<usize, usize>) -> (r: Result<Self, RoqoqoError>)
        ensures
            mapping@.contains_key(self.control) && mapping@.contains_key(self.target) ==> {
                &&& r is Ok
                &&& r->Ok_0.control == mapping@[self.control]
                &&& r->Ok_0.target == mapping@[self.target]
                &&& r->Ok_0.delta_real == self.delta_real
                &&& r->Ok_0.delta_imag == self.delta_imag
            },
            !mapping@.contains_key(self.control) ==> r is Err && r->Err_0 == (
            RoqoqoError::QubitMappingError { qubit: self.control }),
            mapping@.contains_key(self.control) && !mapping@.contains_key(self.target) ==> r is Err
                && r->Err_0 == (RoqoqoError::QubitMappingError { qubit: self.target }),
    {
        proof {
            lemma_image_of_pair(mapping@, self.control, self.target);
            assert(self.involved().contains(self.control));
            assert(self.involved().contains(self.target));
        }
        let control = remap_qubit(mapping, self.control)?;
        let target = remap_qubit(mapping, self.target)?;
        Ok(
            Bogoliubov {
                control,
                target,
                delta_real: self.delta_real.clone(),
                delta_imag: self.delta_imag.clone(),
            },
        )
    }
}

impl OperateGate for Bogoliubov {
    open spec fn qubit_count(&self) -> nat {
        2
    }

    open spec fn has_matrix(&self) -> bool {
        true
    }

    fn has_unitary_matrix(&self) -> (possible: bool) {
        true
    }

    /// The matrix is laid out as [`Self::layout`] says, of cosines and sines that
    /// the calculator gave for the angles of this gate. With a symbolic
    /// parameter it fails with the error of the first one.
    fn unitary_matrix(&self) -> (r: Result<Matrix, RoqoqoError>)
        ensures
            self.parametrized() ==> r is Err && r->Err_0 == self.conversion_error(),
            !self.parametrized() ==> r is Ok && exists|
                norm: Scalar, arg: Scalar, ca: Scalar, sa: Scalar, cp: Scalar, sp: Scalar
            |
                #![trigger Self::layout(ca, sa, cp, sp), cosine_of(norm, ca), cosine_of(arg, cp)]
                {
                    &&& r->Ok_0@ == Self::layout(ca, sa, cp, sp)
                    &&& norm_of(value_of(self.delta_real), value_of(self.delta_imag), norm)
                    &&& argument_of(value_of(self.delta_real), value_of(self.delta_imag), arg)
                    &&& cosine_of(norm, ca)
                    &&& sine_of(norm, sa)
                    &&& cosine_of(arg, cp)
                    &&& sine_of(arg, sp)
                    &&& is_number(norm) && is_number(arg) && is_number(ca) && is_number(sa)
                        && is_number(cp) && is_number(sp)
                },
    {
        let delta_real = number_of(&self.delta_real)?;
        let delta_imag = number_of(&self.delta_imag)?;
        let norm = number_norm(&delta_real, &delta_imag);
        let arg = number_arg(&delta_real, &delta_imag);
        let ca = scalar_cos(&norm);
        let sa = scalar_sin(&norm);
        let cp = scalar_cos(&arg);
        let sp = scalar_sin(&arg);
        let m = Self::matrix_of(&ca, &sa, &cp, &sp);
        proof {
            lemma2_to64();
            assert(m@ == Self::layout(value_of(ca), value_of(sa), value_of(cp), value_of(sp)));
        }
        Ok(m)
    }
}

impl OperateTwoQubit for Bogoliubov {
    open spec fn control_qubit(&self) -> usize {
        self.control
    }

    open spec fn target_qubit(&self) -> usize {
        self.target
    }

    fn control(&self) -> (qubit: &usize) {
        &self.control
    }

    fn target(&self) -> (qubit: &usize) {
        &self.target
    }
}

impl OperateTwoQubitGate for Bogoliubov {
    /// The decomposition is the one that [`Self::kak`] gives for the argument of
    /// the complex parameter, which the calculator computes: a number for two
    /// numbers, the text `atan2(im, re)` for two symbolic expressions.
    fn kak_decomposition(&self) -> (kak: KakDecomposition)
        ensures
            exists|arg: Scalar|
                {
                    &&& kak@ == #[trigger] self.kak(arg)
                    &&& scalar_argument_of(
                        value_of(self.delta_real),
                        value_of(self.delta_imag),
                        arg,
                    )
                    &&& is_number(value_of(self.delta_real))
                        && is_number(value_of(self.delta_imag)) ==> is_number(arg)
                    &&& !is_number(value_of(self.delta_real))
                        && !is_number(value_of(self.delta_imag)) ==> arg
                        == symbolic_argument(value_of(self.delta_real), value_of(self.delta_imag))
                },
    {
        let arg = scalar_complex_arg(&self.delta_real, &self.delta_imag);
        let kak = self.kak_from_argument(&arg);
        assert(kak@ == self.kak(value_of(arg)));
        kak
    }
}

} // verus!
