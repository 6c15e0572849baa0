//! The spin interaction gate.
use crate::error::RoqoqoError;
use crate::kak::{KakDecomposition, KakValue};
use crate::matrix::{Complex, Matrix};
use crate::operate::{
    InvolveQubits, Operate, OperateGate, OperateTwoQubit, OperateTwoQubitGate, Substitute,
};
use crate::qubits::{lemma_image_of_pair, qubit_pair, remap_qubit};
use crate::scalar::{
    cosine_of, difference, equal, evaluable, integer, is_number, negation, product, scalar_add,
    scalar_cos, scalar_eq, scalar_from_integer, scalar_is_number, scalar_mul, scalar_neg,
    scalar_sin, scalar_sub, scalar_zero, sine_of, sum, value_of, zero, Scalar,
};
use crate::substitution::{
    can_evaluate, evaluates, evaluates_to, fails_with, number_of, substitute_scalar,
    symbolic_parameter,
};
use crate::tags::{make_two_qubit_tags, names, two_qubit_tags};
use qoqo_calculator::{Calculator, CalculatorFloat};
use std::collections::{HashMap, HashSet};
use vstd::arithmetic::power2::lemma2_to64;
use vstd::prelude::*;
use vstd::std_specs::cmp::PartialEqSpecImpl;

verus! {

/// The anisotropic XYZ Heisenberg interaction between two spins,
/// `exp(-i(x·X_c X_t + y·Y_c Y_t + z·Z_c Z_t))`, with `c± = cos(x±y)` and
/// `s± = sin(x±y)`.
///
/// ```text
///  c₋·e^{-iz}     0             0            -i·s₋·e^{-iz}
///  0              c₊·e^{iz}    -i·s₊·e^{iz}   0
///  0             -i·s₊·e^{iz}   c₊·e^{iz}     0
/// -i·s₋·e^{-iz}   0             0             c₋·e^{-iz}
/// ```
#[derive(Debug, Clone)]
pub struct SpinInteraction {
    /// The most significant qubit of the matrix representation.
    pub control: usize,
    /// The least significant qubit of the matrix representation.
    pub target: usize,
    /// The prefactor of the XX interaction.
    pub x: CalculatorFloat,
    /// The prefactor of the YY interaction.
    pub y: CalculatorFloat,
    /// The prefactor of the ZZ interaction.
    pub z: CalculatorFloat,
}

impl SpinInteraction {
    /// A gate on the qubits `control` and `target` with the given parameters.
    pub fn new(
        control: usize,
        target: usize,
        x: CalculatorFloat,
        y: CalculatorFloat,
        z: CalculatorFloat,
    ) -> (gate: Self)
        ensures
            gate == (SpinInteraction { control, target, x, y, z }),
    {
        SpinInteraction { control, target, x, y, z }
    }

    /// The prefactor of the XX interaction.
    pub fn x(&self) -> (value: &CalculatorFloat)
        ensures
            *value == self.x,
    {
        &self.x
    }

    /// The prefactor of the YY interaction.
    pub fn y(&self) -> (value: &CalculatorFloat)
        ensures
            *value == self.y,
    {
        &self.y
    }

    /// The prefactor of the ZZ interaction.
    pub fn z(&self) -> (value: &CalculatorFloat)
        ensures
            *value == self.z,
    {
        &self.z
    }

    /// The angles `x - y` and `x + y`, whose cosines and sines the matrix is
    /// made of.
    pub fn mixing_angles(&self) -> (r: Result<(CalculatorFloat, CalculatorFloat), RoqoqoError>)
        ensures
            !is_number(value_of(self.x)) ==> r is Err && r->Err_0
                == symbolic_parameter(self.x),
            is_number(value_of(self.x)) && !is_number(value_of(self.y)) ==> r is Err && r->Err_0
                == symbolic_parameter(self.y),
            is_number(value_of(self.x)) && is_number(value_of(self.y)) ==> {
                &&& r is Ok
                &&& value_of(r->Ok_0.0) == difference(value_of(self.x), value_of(self.y))
                &&& is_number(value_of(r->Ok_0.0))
                &&& value_of(r->Ok_0.1) == sum(value_of(self.x), value_of(self.y))
                &&& is_number(value_of(r->Ok_0.1))
            },
    {
        let x = number_of(&self.x)?;
        let y = number_of(&self.y)?;
        let minus = scalar_sub(&x, &y);
        let plus = scalar_add(&x, &y);
        Ok((minus, plus))
    }

    /// The matrix of this gate, given the cosines and sines that it is made of:
    /// `cm` and `sm` stand for the cosine and the sine of `x - y`, `cp` and `sp`
    /// for those of `x + y`, `cz` and `sz` for those of `z`.
    pub open spec fn layout(
        cm: Scalar,
        cp: Scalar,
        sm: Scalar,
        sp: Scalar,
        cz: Scalar,
        sz: Scalar,
    ) -> Seq<Seq<(Scalar, Scalar)>> {
        seq![
            seq![
                (product(cm, cz), product(negation(cm), sz)),
                (zero(), zero()),
                (zero(), zero()),
                (product(negation(sm), sz), product(negation(sm), cz)),
            ],
            seq![
                (zero(), zero()),
                (product(cp, cz), product(cp, sz)),
                (product(sp, sz), product(negation(sp), cz)),
                (zero(), zero()),
            ],
            seq![
                (zero(), zero()),
                (product(sp, sz), product(negation(sp), cz)),
                (product(cp, cz), product(cp, sz)),
                (zero(), zero()),
            ],
            seq![
                (product(negation(sm), sz), product(negation(sm), cz)),
                (zero(), zero()),
                (zero(), zero()),
                (product(cm, cz), product(negation(cm), sz)),
            ],
        ]
    }

    /// Builds the matrix of this gate from the cosines and sines that it is made
    /// of:
    /// `cm` and `sm` stand for the cosine and the sine of `x - y`, `cp` and `sp`
    /// for those of `x + y`, `cz` and `sz` for those of `z`.
    pub fn matrix_of(
        cm: &CalculatorFloat,
        cp: &CalculatorFloat,
        sm: &CalculatorFloat,
        sp: &CalculatorFloat,
        cz: &CalculatorFloat,
        sz: &CalculatorFloat,
    ) -> (m: Matrix)
        ensures
            m@ == Self::layout(
                value_of(*cm),
                value_of(*cp),
                value_of(*sm),
                value_of(*sp),
                value_of(*cz),
                value_of(*sz),
            ),
    {
        let rows = vec![
            vec![
                Complex::new(scalar_mul(cm, cz), scalar_mul(&scalar_neg(cm), sz)),
                Complex::zero(),
                Complex::zero(),
                Complex::new(scalar_mul(&scalar_neg(sm), sz), scalar_mul(&scalar_neg(sm), cz)),
            ],
            vec![
                Complex::zero(),
                Complex::new(scalar_mul(cp, cz), scalar_mul(cp, sz)),
                Complex::new(scalar_mul(sp, sz), scalar_mul(&scalar_neg(sp), cz)),
                Complex::zero(),
            ],
            vec![
                Complex::zero(),
                Complex::new(scalar_mul(sp, sz), scalar_mul(&scalar_neg(sp), cz)),
                Complex::new(scalar_mul(cp, cz), scalar_mul(cp, sz)),
                Complex::zero(),
            ],
            vec![
                Complex::new(scalar_mul(&scalar_neg(sm), sz), scalar_mul(&scalar_neg(sm), cz)),
                Complex::zero(),
                Complex::zero(),
                Complex::new(scalar_mul(cm, cz), scalar_mul(&scalar_neg(cm), sz)),
            ],
        ];
        let m = Matrix::from_rows(rows);
        let ghost expected = Self::layout(
            value_of(*cm),
            value_of(*cp),
            value_of(*sm),
            value_of(*sp),
            value_of(*cz),
            value_of(*sz),
        );
        assert(m@ =~= expected) by {
            assert(m@[0] =~= expected[0]);
            assert(m@[1] =~= expected[1]);
            assert(m@[2] =~= expected[2]);
            assert(m@[3] =~= expected[3]);
        }
        m
    }

    /// The error of the first symbolic parameter, which is what the matrix
    /// fails with.
    pub open spec fn conversion_error(&self) -> RoqoqoError {
        if !is_number(value_of(self.x)) {
            symbolic_parameter(self.x)
        } else if !is_number(value_of(self.y)) {
            symbolic_parameter(self.y)
        } else {
            symbolic_parameter(self.z)
        }
    }

    /// The KAK decomposition of this gate.
    pub open spec fn kak(&self) -> KakValue {
        KakValue {
            global_phase: zero(),
            k_vector: (
                product(value_of(self.x), integer(-1)),
                product(value_of(self.y), integer(-1)),
                product(value_of(self.z), integer(-1)),
            ),
            circuit_before: None,
            circuit_after: None,
        }
    }
}

impl PartialEq for SpinInteraction {
    fn eq(&self, other: &Self) -> (r: bool) {
        self.control == other.control && self.target == other.target && scalar_eq(&self.x, &other.x)
            && scalar_eq(&self.y, &other.y) && scalar_eq(&self.z, &other.z)
    }
}

impl PartialEqSpecImpl for SpinInteraction {
    open spec fn obeys_eq_spec() -> bool {
        true
    }

    /// Two gates are equal where their qubits are the same and their
    /// parameters compare equal.
    open spec fn eq_spec(&self, other: &Self) -> bool {
        self.control == other.control && self.target == other.target
            && equal(value_of(self.x), value_of(other.x))
            && equal(value_of(self.y), value_of(other.y))
            && equal(value_of(self.z), value_of(other.z))
    }
}

impl Operate for SpinInteraction {
    open spec fn name() -> Seq<char> {
        "SpinInteraction"@
    }

    open spec fn parametrized(&self) -> bool {
        !is_number(value_of(self.x)) || !is_number(value_of(self.y)) || !is_number(value_of(self.z))
    }

    open spec fn same(&self, other: &Self) -> bool {
        *self == *other
    }

    fn hqslang(&self) -> (name: &'static str) {
        "SpinInteraction"
    }

    /// The tags of a two-qubit gate.
    fn tags(&self) -> (tags: Vec<&'static str>)
        ensures
            names(tags@) == two_qubit_tags("SpinInteraction"@),
    {
        make_two_qubit_tags("SpinInteraction")
    }

    fn is_parametrized(&self) -> (symbolic: bool) {
        !scalar_is_number(&self.x) || !scalar_is_number(&self.y) || !scalar_is_number(&self.z)
    }
}

impl InvolveQubits for SpinInteraction {
    open spec fn involved(&self) -> Set<usize> {
        set![self.control, self.target]
    }

    fn involved_qubits(&self) -> (qubits: HashSet<usize>) {
        qubit_pair(self.control, self.target)
    }
}

impl Substitute for SpinInteraction {
    open spec fn substitutable(&self) -> bool {
        evaluable(value_of(self.x)) && evaluable(value_of(self.y)) && evaluable(value_of(self.z))
    }

    fn can_substitute(&self) -> (possible: bool) {
        can_evaluate(&self.x) && can_evaluate(&self.y) && can_evaluate(&self.z)
    }

    /// The qubits stay. Each parameter becomes the number that the calculator
    /// gave for it. The parameters are evaluated in their order: an error is the
    /// one that the calculator gave for the first parameter that it failed on.
    fn substitute_parameters(&self, calculator: &Calculator) -> (r: Result<Self, RoqoqoError>)
        ensures
            r is Ok ==> {
                &&& r->Ok_0.control == self.control
                &&& r->Ok_0.target == self.target
                &&& evaluates_to(*calculator, self.x, r->Ok_0.x)
                &&& evaluates_to(*calculator, self.y, r->Ok_0.y)
                &&& evaluates_to(*calculator, self.z, r->Ok_0.z)
                &&& is_number(value_of(self.x)) ==> r->Ok_0.x == self.x
                &&& is_number(value_of(self.y)) ==> r->Ok_0.y == self.y
                &&& is_number(value_of(self.z)) ==> r->Ok_0.z == self.z
            },
            r is Err ==> {
                ||| fails_with(*calculator, self.x, r->Err_0->CalculatorError_0)
                ||| evaluates(*calculator, self.x)
                    && fails_with(*calculator, self.y, r->Err_0->CalculatorError_0)
                ||| evaluates(*calculator, self.x) && evaluates(*calculator, self.y)
                    && fails_with(*calculator, self.z, r->Err_0->CalculatorError_0)
            },
    {
        let x = substitute_scalar(calculator, &self.x)?;
        assert(evaluates_to(*calculator, self.x, x));
        let y = substitute_scalar(calculator, &self.y)?;
        assert(evaluates_to(*calculator, self.y, y));
        let z = substitute_scalar(calculator, &self.z)?;
        Ok(SpinInteraction { control: self.control, target: self.target, x, y, z })
    }

    /// The control is remapped first: where both qubits lack an entry, the error
    /// names the control.
    fn remap_qubits(&self, mapping: &HashMap<usize, usize>) -> (r: Result<Self, RoqoqoError>)
        ensures
            mapping@.contains_key(self.control) && mapping@.contains_key(self.target) ==> {
                &&& r is Ok
                &&& r->Ok_0.control == mapping@[self.control]
                &&& r->Ok_0.target == mapping@[self.target]
                &&& r->Ok_0.x == self.x
                &&& r->Ok_0.y == self.y
                &&& r->Ok_0.z == self.z
            },
            !mapping@.contains_key(self.control) ==> r is Err && r->Err_0 == (
            RoqoqoError::QubitMappingError { qubit: self.control }),
            mapping@.contains_key(self.control) && !mapping@.contains_key(self.target) ==> r is Err
                && r->Err_0 == (RoqoqoError::QubitMappingError { qubit: self.target }),
    {
        proof {
            lemma_image_of_pair(mapping@, self.control, self.target);
            assert(self.involved().contains(self.control));
            assert(self.involved().contains(self.target));
        }
        let control = remap_qubit(mapping, self.control)?;
        let target = remap_qubit(mapping, self.target)?;
        Ok(
            SpinInteraction {
                control,
                target,
                x: self.x.clone(),
                y: self.y.clone(),
                z: self.z.clone(),
            },
        )
    }
}

impl OperateGate for SpinInteraction {
    open spec fn qubit_count(&self) -> nat {
        2
    }

    open spec fn has_matrix(&self) -> bool {
        true
    }

    fn has_unitary_matrix(&self) -> (possible: bool) {
        true
    }

    /// The matrix is laid out as [`Self::layout`] says, of cosines and sines that
    /// the calculator gave for the angles of this gate. With a symbolic
    /// parameter it fails with the error of the first one.
    fn unitary_matrix(&self) -> (r: Result<Matrix, RoqoqoError>)
        ensures
            self.parametrized() ==> r is Err && r->Err_0 == self.conversion_error(),
            !self.parametrized() ==> r is Ok && exists|
                cm: Scalar, cp: Scalar, sm: Scalar, sp: Scalar, cz: Scalar, sz: Scalar
            |
                {
                    &&& r->Ok_0@ == #[trigger] Self::layout(cm, cp, sm, sp, cz, sz)
                    &&& cosine_of(difference(value_of(self.x), value_of(self.y)), cm)
                    &&& cosine_of(sum(value_of(self.x), value_of(self.y)), cp)
                    &&& sine_of(difference(value_of(self.x), value_of(self.y)), sm)
                    &&& sine_of(sum(value_of(self.x), value_of(self.y)), sp)
                    &&& cosine_of(value_of(self.z), cz)
                    &&& sine_of(value_of(self.z), sz)
                    &&& is_number(cm) && is_number(cp) && is_number(sm) && is_number(sp)
                        && is_number(cz) && is_number(sz)
                },
    {
        let (minus, plus) = self.mixing_angles()?;
        let z = number_of(&self.z)?;
        let cm = scalar_cos(&minus);
        let cp = scalar_cos(&plus);
        let sm = scalar_sin(&minus);
        let sp = scalar_sin(&plus);
        let cz = scalar_cos(&z);
        let sz = scalar_sin(&z);
        let m = Self::matrix_of(&cm, &cp, &sm, &sp, &cz, &sz);
        proof {
            lemma2_to64();
            assert(m@ == Self::layout(
                value_of(cm),
                value_of(cp),
                value_of(sm),
                value_of(sp),
                value_of(cz),
                value_of(sz),
            ));
        }
        Ok(m)
    }
}

impl OperateTwoQubit for SpinInteraction {
    open spec fn control_qubit(&self) -> usize {
        self.control
    }

    open spec fn target_qubit(&self) -> usize {
        self.target
    }

    fn control(&self) -> (qubit: &usize) {
        &self.control
    }

    fn target(&self) -> (qubit: &usize) {
        &self.target
    }
}

impl OperateTwoQubitGate for SpinInteraction {
    /// The decomposition is the one that [`Self::kak`] gives.
    fn kak_decomposition(&self) -> (kak: KakDecomposition)
        ensures
            kak@ == self.kak(),
    {
        KakDecomposition::new(
            scalar_zero(),
            scalar_mul(&self.x, &scalar_from_integer(-1)),
            scalar_mul(&self.y, &scalar_from_integer(-1)),
            scalar_mul(&self.z, &scalar_from_integer(-1)),
            None,
            None,
        )
    }
}

} // verus!
