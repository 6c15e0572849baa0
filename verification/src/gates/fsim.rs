//! The fermionic qubit simulation (Fsim) gate.
use crate::circuit::{Circuit, Operation, Step};
use crate::error::RoqoqoError;
use crate::kak::{KakDecomposition, KakValue};
use crate::matrix::{Complex, Matrix};
use crate::operate::{
    InvolveQubits, Operate, OperateGate, OperateTwoQubit, OperateTwoQubitGate, Substitute,
};
use crate::qubits::{lemma_image_of_pair, qubit_pair, remap_qubit};
use crate::scalar::{
    cosine_of, difference, equal, evaluable, frac_pi_2, frac_pi_4, integer, is_number, negation,
    product, quotient, scalar_add, scalar_cos, scalar_div, scalar_eq, scalar_frac_pi_2,
    scalar_frac_pi_4, scalar_from_integer, scalar_is_number, scalar_mul, scalar_neg, scalar_sin,
    scalar_sub, sine_of, sum, value_of, zero, Scalar,
};
use crate::substitution::{
    can_evaluate, evaluates, evaluates_to, fails_with, number_of, substitute_scalar,
    symbolic_parameter,
};
use crate::tags::{make_two_qubit_tags, names, two_qubit_tags};
use qoqo_calculator::{Calculator, CalculatorFloat};
use std::collections::{HashMap, HashSet};
use vstd::arithmetic::power2::lemma2_to64;
use vstd::prelude::*;
use vstd::std_specs::cmp::PartialEqSpecImpl;

verus! {

/// The fermionic qubit simulation gate.
///
/// ```text
///  cos(Δ)            0          0          i·sin(Δ)
///  0                -i·sin(t)   cos(t)     0
///  0                 cos(t)    -i·sin(t)   0
/// -i·sin(Δ)·e^{-iU}  0          0         -cos(Δ)·e^{-iU}
/// ```
///
/// This gate describes fermions only on adjacent qubits.
#[derive(Debug, Clone)]
pub struct Fsim {
    /// The most significant qubit of the matrix representation.
    pub control: usize,
    /// The least significant qubit of the matrix representation.
    pub target: usize,
    /// The hopping strength.
    pub t: CalculatorFloat,
    /// The interaction strength.
    pub u: CalculatorFloat,
    /// The Bogoliubov interaction strength Δ.
    pub delta: CalculatorFloat,
}

impl Fsim {
    /// A gate on the qubits `control` and `target` with the given parameters.
    pub fn new(
        control: usize,
        target: usize,
        t: CalculatorFloat,
        u: CalculatorFloat,
        delta: CalculatorFloat,
    ) -> (gate: Self)
        ensures
            gate == (Fsim { control, target, t, u, delta }),
    {
        Fsim { control, target, t, u, delta }
    }

    /// The hopping strength.
    pub fn t(&self) -> (value: &CalculatorFloat)
        ensures
            *value == self.t,
    {
        &self.t
    }

    /// The interaction strength.
    pub fn u(&self) -> (value: &CalculatorFloat)
        ensures
            *value == self.u,
    {
        &self.u
    }

    /// The Bogoliubov interaction strength Δ.
    pub fn delta(&self) -> (value: &CalculatorFloat)
        ensures
            *value == self.delta,
    {
        &self.delta
    }

    /// The matrix of this gate, given the cosines and sines that it is made of:
    /// `cd` and `sd` stand for the cosine and the sine of `Δ`, `ct` and `st` for
    /// those of `t`, `cu` and `su` for those of `U`.
    pub open spec fn layout(
        cd: Scalar,
        sd: Scalar,
        ct: Scalar,
        st: Scalar,
        cu: Scalar,
        su: Scalar,
    ) -> Seq<Seq<(Scalar, Scalar)>> {
        seq![
            seq![(cd, zero()), (zero(), zero()), (zero(), zero()), (zero(), sd)],
            seq![(zero(), zero()), (zero(), negation(st)), (ct, zero()), (zero(), zero())],
            seq![(zero(), zero()), (ct, zero()), (zero(), negation(st)), (zero(), zero())],
            seq![
                (product(negation(sd), su), product(negation(sd), cu)),
                (zero(), zero()),
                (zero(), zero()),
                (product(negation(cd), cu), product(cd, su)),
            ],
        ]
    }

    /// Builds the matrix of this gate from the cosines and sines that it is made
    /// of:
    /// `cd` and `sd` stand for the cosine and the sine of `Δ`, `ct` and `st` for
    /// those of `t`, `cu` and `su` for those of `U`.
    pub fn matrix_of(
        cd: &CalculatorFloat,
        sd: &CalculatorFloat,
        ct: &CalculatorFloat,
        st: &CalculatorFloat,
        cu: &CalculatorFloat,
        su: &CalculatorFloat,
    ) -> (m: Matrix)
        ensures
            m@ == Self::layout(
                value_of(*cd),
                value_of(*sd),
                value_of(*ct),
                value_of(*st),
                value_of(*cu),
                value_of(*su),
            ),
    {
        let rows = vec![
            vec![
                Complex::from_real(cd.clone()),
                Complex::zero(),
                Complex::zero(),
                Complex::from_imaginary(sd.clone()),
            ],
            vec![
                Complex::zero(),
                Complex::from_imaginary(scalar_neg(st)),
                Complex::from_real(ct.clone()),
                Complex::zero(),
            ],
            vec![
                Complex::zero(),
                Complex::from_real(ct.clone()),
                Complex::from_imaginary(scalar_neg(st)),
                Complex::zero(),
            ],
            vec![
                Complex::new(scalar_mul(&scalar_neg(sd), su), scalar_mul(&scalar_neg(sd), cu)),
                Complex::zero(),
                Complex::zero(),
                Complex::new(scalar_mul(&scalar_neg(cd), cu), scalar_mul(cd, su)),
            ],
        ];
        let m = Matrix::from_rows(rows);
        let ghost expected = Self::layout(
            value_of(*cd),
            value_of(*sd),
            value_of(*ct),
            value_of(*st),
            value_of(*cu),
            value_of(*su),
        );
        assert(m@ =~= expected) by {
            assert(m@[0] =~= expected[0]);
            assert(m@[1] =~= expected[1]);
            assert(m@[2] =~= expected[2]);
            assert(m@[3] =~= expected[3]);
        }
        m
    }

    /// The error of the first symbolic parameter, which is what the matrix
    /// fails with.
    pub open spec fn conversion_error(&self) -> RoqoqoError {
        if !is_number(value_of(self.t)) {
            symbolic_parameter(self.t)
        } else if !is_number(value_of(self.u)) {
            symbolic_parameter(self.u)
        } else {
            symbolic_parameter(self.delta)
        }
    }

    /// The KAK decomposition of this gate.
    pub open spec fn kak(&self) -> KakValue {
        KakValue {
            global_phase: difference(quotient(value_of(self.u), integer(-4)), frac_pi_2()),
            k_vector: (
                sum(
                    sum(
                        quotient(value_of(self.t), integer(-2)),
                        quotient(value_of(self.delta), integer(2)),
                    ),
                    frac_pi_4(),
                ),
                sum(
                    difference(
                        quotient(value_of(self.t), integer(-2)),
                        quotient(value_of(self.delta), integer(2)),
                    ),
                    frac_pi_4(),
                ),
                quotient(value_of(self.u), integer(-4)),
            ),
            circuit_before: None,
            circuit_after: Some(
                seq![
                    Step::RotateZ {
                        qubit: self.control,
                        theta: difference(quotient(value_of(self.u), integer(-2)), frac_pi_2()),
                    },
                    Step::RotateZ {
                        qubit: self.target,
                        theta: difference(quotient(value_of(self.u), integer(-2)), frac_pi_2()),
                    },
                ],
            ),
        }
    }
}

impl PartialEq for Fsim {
    fn eq(&self, other: &Self) -> (r: bool) {
        self.control == other.control && self.target == other.target && scalar_eq(&self.t, &other.t)
            && scalar_eq(&self.u, &other.u) && scalar_eq(&self.delta, &other.delta)
    }
}

impl PartialEqSpecImpl for Fsim {
    open spec fn obeys_eq_spec() -> bool {
        true
    }

    /// Two gates are equal where their qubits are the same and their
    /// parameters compare equal.
    open spec fn eq_spec(&self, other: &Self) -> bool {
        self.control == other.control && self.target == other.target
            && equal(value_of(self.t), value_of(other.t))
            && equal(value_of(self.u), value_of(other.u))
            && equal(value_of(self.delta), value_of(other.delta))
    }
}

impl Operate for Fsim {
    open spec fn name() -> Seq<char> {
        "Fsim"@
    }

    open spec fn parametrized(&self) -> bool {
        !is_number(value_of(self.t)) || !is_number(value_of(self.u))
            || !is_number(value_of(self.delta))
    }

    open spec fn same(&self, other: &Self) -> bool {
        *self == *other
    }

    fn hqslang(&self) -> (name: &'static str) {
        "Fsim"
    }

    /// The tags of a two-qubit gate.
    fn tags(&self) -> (tags: Vec<&'static str>)
        ensures
            names(tags@) == two_qubit_tags("Fsim"@),
    {
        make_two_qubit_tags("Fsim")
    }

    fn is_parametrized(&self) -> (symbolic: bool) {
        !scalar_is_number(&self.t) || !scalar_is_number(&self.u) || !scalar_is_number(&self.delta)
    }
}

impl InvolveQubits for Fsim {
    open spec fn involved(&self) -> Set<usize> {
        set![self.control, self.target]
    }

    fn involved_qubits(&self) -> (qubits: HashSet<usize>) {
        qubit_pair(self.control, self.target)
    }
}

impl Substitute for Fsim {
    open spec fn substitutable(&self) -> bool {
        evaluable(value_of(self.t)) && evaluable(value_of(self.u))
            && evaluable(value_of(self.delta))
    }

    fn can_substitute(&self) -> (possible: bool) {
        can_evaluate(&self.t) && can_evaluate(&self.u) && can_evaluate(&self.delta)
    }

    /// The qubits stay. Each parameter becomes the number that the calculator
    /// gave for it. The parameters are evaluated in their order: an error is the
    /// one that the calculator gave for the first parameter that it failed on.
    fn substitute_parameters(&self, calculator: &Calculator) -> (r: Result<Self, RoqoqoError>)
        ensures
            r is Ok ==> {
                &&& r->Ok_0.control == self.control
                &&& r->Ok_0.target == self.target
                &&& evaluates_to(*calculator, self.t, r->Ok_0.t)
                &&& evaluates_to(*calculator, self.u, r->Ok_0.u)
                &&& evaluates_to(*calculator, self.delta, r->Ok_0.delta)
                &&& is_number(value_of(self.t)) ==> r->Ok_0.t == self.t
                &&& is_number(value_of(self.u)) ==> r->Ok_0.u == self.u
                &&& is_number(value_of(self.delta)) ==> r->Ok_0.delta == self.delta
            },
            r is Err ==> {
                ||| fails_with(*calculator, self.t, r->Err_0->CalculatorError_0)
                ||| evaluates(*calculator, self.t)
                    && fails_with(*calculator, self.u, r->Err_0->CalculatorError_0)
                ||| evaluates(*calculator, self.t) && evaluates(*calculator, self.u)
                    && fails_with(*calculator, self.delta, r->Err_0->CalculatorError_0)
            },
    {
        let t = substitute_scalar(calculator, &self.t)?;
        assert(evaluates_to(*calculator, self.t, t));
        let u = substitute_scalar(calculator, &self.u)?;
        assert(evaluates_to(*calculator, self.u, u));
        let delta = substitute_scalar(calculator, &self.delta)?;
        Ok(Fsim { control: self.control, target: self.target, t, u, delta })
    }

    /// The control is remapped first: where both qubits lack an entry, the error
    /// names the control.
    fn remap_qubits(&self, mapping: &HashMap<usize, usize>) -> (r: Result<Self, RoqoqoError>)
        ensures
            mapping@.contains_key(self.control) && mapping@.contains_key(self.target) ==> {
                &&& r is Ok
                &&& r->Ok_0.control == mapping@[self.control]
                &&& r->Ok_0.target == mapping@[self.target]
                &&& r->Ok_0.t == self.t
                &&& r->Ok_0.u == self.u
                &&& r->Ok_0.delta == self.delta
            },
            !mapping@.contains_key(self.control) ==> r is Err && r->Err_0 == (
            RoqoqoError::QubitMappingError { qubit: self.control }),
            mapping@.contains_key(self.control) && !mapping@.contains_key(self.target) ==> r is Err
                && r->Err_0 == (RoqoqoError::QubitMappingError { qubit: self.target }),
    {
        proof {
            lemma_image_of_pair(mapping@, self.control, self.target);
            assert(self.involved().contains(self.control));
            assert(self.involved().contains(self.target));
        }
        let control = remap_qubit(mapping, self.control)?;
        let target = remap_qubit(mapping, self.target)?;
        Ok(
            Fsim {
                control,
                target,
                t: self.t.clone(),
                u: self.u.clone(),
                delta: self.delta.clone(),
            },
        )
    }
}

impl OperateGate for Fsim {
    open spec fn qubit_count(&self) -> nat {
        2
    }

    open spec fn has_matrix(&self) -> bool {
        true
    }

    fn has_unitary_matrix(&self) -> (possible: bool) {
        true
    }

    /// The matrix is laid out as [`Self::layout`] says, of cosines and sines that
    /// the calculator gave for the angles of this gate. With a symbolic
    /// parameter it fails with the error of the first one.
    fn unitary_matrix(&self) -> (r: Result<Matrix, RoqoqoError>)
        ensures
            self.parametrized() ==> r is Err && r->Err_0 == self.conversion_error(),
            !self.parametrized() ==> r is Ok && exists|
                cd: Scalar, sd: Scalar, ct: Scalar, st: Scalar, cu: Scalar, su: Scalar
            |
                {
                    &&& r->Ok_0@ == #[trigger] Self::layout(cd, sd, ct, st, cu, su)
                    &&& cosine_of(value_of(self.delta), cd)
                    &&& sine_of(value_of(self.delta), sd)
                    &&& cosine_of(value_of(self.t), ct)
                    &&& sine_of(value_of(self.t), st)
                    &&& cosine_of(value_of(self.u), cu)
                    &&& sine_of(value_of(self.u), su)
                    &&& is_number(cd) && is_number(sd) && is_number(ct) && is_number(st)
                        && is_number(cu) && is_number(su)
                },
    {
        let t = number_of(&self.t)?;
        let u = number_of(&self.u)?;
        let delta = number_of(&self.delta)?;
        let cd = scalar_cos(&delta);
        let sd = scalar_sin(&delta);
        let ct = scalar_cos(&t);
        let st = scalar_sin(&t);
        let cu = scalar_cos(&u);
        let su = scalar_sin(&u);
        let m = Self::matrix_of(&cd, &sd, &ct, &st, &cu, &su);
        proof {
            lemma2_to64();
            assert(m@ == Self::layout(
                value_of(cd),
                value_of(sd),
                value_of(ct),
                value_of(st),
                value_of(cu),
                value_of(su),
            ));
        }
        Ok(m)
    }
}

impl OperateTwoQubit for Fsim {
    open spec fn control_qubit(&self) -> usize {
        self.control
    }

    open spec fn target_qubit(&self) -> usize {
        self.target
    }

    fn control(&self) -> (qubit: &usize) {
        &self.control
    }

    fn target(&self) -> (qubit: &usize) {
        &self.target
    }
}

impl OperateTwoQubitGate for Fsim {
    /// The decomposition is the one that [`Self::kak`] gives.
    fn kak_decomposition(&self) -> (kak: KakDecomposition)
        ensures
            kak@ == self.kak(),
    {
        let mut circuit_a = Circuit::new();
        circuit_a.add_operation(
            Operation::RotateZ {
                qubit: self.control,
                theta: scalar_sub(
                    &scalar_div(&self.u, &scalar_from_integer(-2)),
                    &scalar_frac_pi_2(),
                ),
            },
        );
        circuit_a.add_operation(
            Operation::RotateZ {
                qubit: self.target,
                theta: scalar_sub(
                    &scalar_div(&self.u, &scalar_from_integer(-2)),
                    &scalar_frac_pi_2(),
                ),
            },
        );
        assert(circuit_a@ =~= self.kak().circuit_after.unwrap());
        KakDecomposition::new(
            scalar_sub(&scalar_div(&self.u, &scalar_from_integer(-4)), &scalar_frac_pi_2()),
            scalar_add(
                &scalar_add(
                    &scalar_div(&self.t, &scalar_from_integer(-2)),
                    &scalar_div(&self.delta, &scalar_from_integer(2)),
                ),
                &scalar_frac_pi_4(),
            ),
            scalar_add(
                &scalar_sub(
                    &scalar_div(&self.t, &scalar_from_integer(-2)),
                    &scalar_div(&self.delta, &scalar_from_integer(2)),
                ),
                &scalar_frac_pi_4(),
            ),
            scalar_div(&self.u, &scalar_from_integer(-4)),
            None,
            Some(circuit_a),
        )
    }
}

} // verus!
