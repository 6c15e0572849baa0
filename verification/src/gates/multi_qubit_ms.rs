//! The multi-qubit Mølmer–Sørensen gate.
use crate::circuit::{Circuit, Operation, Step};
use crate::compile::{
    add_hadamards, add_ladder, add_reverse_ladder, hadamards, ladder, reverse_ladder,
};
use crate::error::RoqoqoError;
use crate::matrix::{
    checked_dimension, dimension, make_sparse_row, row_values, sparse_row, Complex, Matrix,
};
use crate::operate::{
    InvolveQubits, Operate, OperateGate, OperateMultiQubit, OperateMultiQubitGate, Rotate,
    Substitute,
};
use crate::qubits::{
    covers, first_missing, images, lemma_covers, lemma_image_of_list, qubit_set,
    remap_qubit_list, same_qubits,
};
use crate::scalar::{
    cosine_of, equal, evaluable, integer, is_number, negation, one, quotient, scalar_cos,
    scalar_div, scalar_eq, scalar_from_integer, scalar_is_number, scalar_mul, scalar_neg,
    scalar_sin, sine_of, value_of, zero, Scalar,
};
use crate::substitution::{
    can_evaluate, evaluates_to, fails_with, number_of, substitute_scalar, symbolic_parameter,
};
use crate::tags::{make_multi_qubit_tags, multi_qubit_tags, names};
use qoqo_calculator::{Calculator, CalculatorFloat};
use std::collections::{HashMap, HashSet};
use vstd::arithmetic::power2::pow2;
use vstd::prelude::*;
use vstd::std_specs::cmp::PartialEqSpecImpl;

verus! {

/// The Mølmer–Sørensen gate between any number of qubits,
/// `exp(-i·θ·X⊗X⊗…⊗X / 2)`: `cos(θ/2)` on the diagonal of its matrix and
/// `-i·sin(θ/2)` on the anti-diagonal.
#[derive(Debug, Clone)]
pub struct MultiQubitMS {
    /// The qubits this gate acts on, the first one the most significant.
    pub qubits: Vec<usize>,
    /// The rotation angle θ.
    pub theta: CalculatorFloat,
}

impl MultiQubitMS {
    /// A gate on the given qubits with the angle `theta`.
    pub fn new(qubits: Vec<usize>, theta: CalculatorFloat) -> (gate: Self)
        ensures
            gate.qubits == qubits,
            gate.theta == theta,
    {
        MultiQubitMS { qubits, theta }
    }

    /// The compilation of this gate: a Hadamard gate on every qubit, the ladder
    /// of controlled-NOT gates along the list, the rotation of the last qubit
    /// around Z by `θ/2`, the ladder in the opposite order, and a Hadamard
    /// gate on every qubit again.
    pub open spec fn compilation(&self) -> Seq<Step> {
        hadamards(self.qubits@) + ladder(self.qubits@) + seq![
            Step::RotateZ {
                qubit: self.qubits@.last(),
                theta: quotient(value_of(self.theta), integer(2)),
            },
        ] + reverse_ladder(self.qubits@) + hadamards(self.qubits@)
    }

    /// Half the rotation angle, `θ/2`, whose cosine and sine the matrix is made
    /// of.
    pub fn half_angle(&self) -> (r: Result<CalculatorFloat, RoqoqoError>)
        ensures
            !is_number(value_of(self.theta)) ==> r is Err && r->Err_0
                == symbolic_parameter(self.theta),
            is_number(value_of(self.theta)) ==> {
                &&& r is Ok
                &&& value_of(r->Ok_0) == quotient(value_of(self.theta), integer(2))
                &&& is_number(value_of(r->Ok_0))
            },
    {
        let theta = number_of(&self.theta)?;
        let half = scalar_div(&theta, &scalar_from_integer(2));
        Ok(half)
    }

    /// The matrix of this gate on `n` qubits, given the cosine `c` and the sine
    /// `s` of `θ/2`: `c` on the diagonal and `-i·s` on the anti-diagonal.
    pub open spec fn layout(n: nat, c: Scalar, s: Scalar) -> Seq<Seq<(Scalar, Scalar)>> {
        Seq::new(
            pow2(n),
            |i: int| sparse_row(pow2(n), i, (c, zero()), pow2(n) - 1 - i, (zero(), negation(s))),
        )
    }

    /// Builds the matrix of this gate on `n` qubits from the cosine and the
    /// sine of `θ/2`.
    pub fn matrix_of(n: usize, c: &CalculatorFloat, s: &CalculatorFloat) -> (m: Matrix)
        requires
            pow2(n as nat) <= usize::MAX,
        ensures
            m@ == Self::layout(n as nat, value_of(*c), value_of(*s)),
    {
        let dim = dimension(n);
        let diagonal = Complex::from_real(c.clone());
        let anti_diagonal = Complex::from_imaginary(scalar_neg(s));
        let ghost expected = Self::layout(n as nat, value_of(*c), value_of(*s));
        let mut rows: Vec<Vec<Complex>> = Vec::new();
        let mut i: usize = 0;
        while i < dim
            invariant
                i <= dim,
                dim == pow2(n as nat),
                rows@.len() == i,
                diagonal@ == (value_of(*c), zero()),
                anti_diagonal@ == (zero(), negation(value_of(*s))),
                expected == Self::layout(n as nat, value_of(*c), value_of(*s)),
                forall|l: int| 0 <= l < i ==> row_values((#[trigger] rows@[l])@) == expected[l],
            decreases dim - i,
        {
            let row = make_sparse_row(dim, i, &diagonal, dim - 1 - i, &anti_diagonal);
            rows.push(row);
            i = i + 1;
        }
        let m = Matrix::from_rows(rows);
        assert(m@ =~= expected) by {
            assert forall|l: int| 0 <= l < dim implies m@[l] =~= expected[l] by {
                assert(row_values(m.rows@[l]@) == expected[l]);
            }
        }
        m
    }
}

impl PartialEq for MultiQubitMS {
    fn eq(&self, other: &Self) -> (r: bool) {
        same_qubits(&self.qubits, &other.qubits) && scalar_eq(&self.theta, &other.theta)
    }
}

impl PartialEqSpecImpl for MultiQubitMS {
    open spec fn obeys_eq_spec() -> bool {
        true
    }

    /// Two gates are equal where they have the same qubits in the same order
    /// and their angles compare equal.
    open spec fn eq_spec(&self, other: &Self) -> bool {
        self.qubits@ == other.qubits@ && equal(value_of(self.theta), value_of(other.theta))
    }
}

impl Operate for MultiQubitMS {
    open spec fn name() -> Seq<char> {
        "MultiQubitMS"@
    }

    open spec fn parametrized(&self) -> bool {
        !is_number(value_of(self.theta))
    }

    open spec fn same(&self, other: &Self) -> bool {
        self.qubits@ == other.qubits@ && self.theta == other.theta
    }

    fn hqslang(&self) -> (name: &'static str) {
        "MultiQubitMS"
    }

    /// The tags of a multi-qubit gate.
    fn tags(&self) -> (tags: Vec<&'static str>)
        ensures
            names(tags@) == multi_qubit_tags("MultiQubitMS"@),
    {
        make_multi_qubit_tags("MultiQubitMS")
    }

    fn is_parametrized(&self) -> (symbolic: bool) {
        !scalar_is_number(&self.theta)
    }
}

impl InvolveQubits for MultiQubitMS {
    open spec fn involved(&self) -> Set<usize> {
        self.qubits@.to_set()
    }

    fn involved_qubits(&self) -> (qubits: HashSet<usize>) {
        qubit_set(&self.qubits)
    }
}

impl Substitute for MultiQubitMS {
    open spec fn substitutable(&self) -> bool {
        evaluable(value_of(self.theta))
    }

    fn can_substitute(&self) -> (possible: bool) {
        can_evaluate(&self.theta)
    }

    /// The qubits stay. The angle becomes the number that the calculator gave
    /// for it, and an error is the one that the calculator gave for it.
    fn substitute_parameters(&self, calculator: &Calculator) -> (r: Result<Self, RoqoqoError>)
        ensures
            r is Ok ==> {
                &&& r->Ok_0.qubits@ == self.qubits@
                &&& evaluates_to(*calculator, self.theta, r->Ok_0.theta)
            },
            r is Err ==> fails_with(*calculator, self.theta, r->Err_0->CalculatorError_0),
    {
        let theta = substitute_scalar(calculator, &self.theta)?;
        Ok(MultiQubitMS { qubits: self.qubits.clone(), theta })
    }

    /// The qubits are remapped in the order of the list: the error names the
    /// first one that the mapping has no entry for.
    fn remap_qubits(&self, mapping: &HashMap<usize, usize>) -> (r: Result<Self, RoqoqoError>)
        ensures
            covers(mapping@, self.qubits@) ==> {
                &&& r is Ok
                &&& r->Ok_0.qubits@ == images(mapping@, self.qubits@)
                &&& r->Ok_0.theta == self.theta
            },
            r is Err ==> exists|k: int| #[trigger]
                first_missing(mapping@, self.qubits@, k) && r->Err_0 == (
                RoqoqoError::QubitMappingError { qubit: self.qubits@[k] }),
    {
        proof {
            lemma_covers(mapping@, self.qubits@);
        }
        let qubits = remap_qubit_list(mapping, &self.qubits)?;
        proof {
            lemma_image_of_list(mapping@, self.qubits@, qubits@);
        }
        Ok(MultiQubitMS { qubits, theta: self.theta.clone() })
    }
}

impl OperateGate for MultiQubitMS {
    open spec fn qubit_count(&self) -> nat {
        self.qubits@.len()
    }

    open spec fn has_matrix(&self) -> bool {
        pow2(self.qubits@.len()) <= usize::MAX
    }

    fn has_unitary_matrix(&self) -> (possible: bool) {
        checked_dimension(self.qubits.len()).is_some()
    }

    /// The matrix is laid out as [`Self::layout`] says, of a cosine and a sine
    /// that the calculator gave for `θ/2`. With a symbolic angle it fails
    /// with the error of the angle.
    fn unitary_matrix(&self) -> (r: Result<Matrix, RoqoqoError>)
        ensures
            self.parametrized() ==> r is Err && r->Err_0 == symbolic_parameter(self.theta),
            !self.parametrized() ==> r is Ok && exists|c: Scalar, s: Scalar|
                {
                    &&& r->Ok_0@ == #[trigger] Self::layout(self.qubits@.len(), c, s)
                    &&& cosine_of(quotient(value_of(self.theta), integer(2)), c)
                    &&& sine_of(quotient(value_of(self.theta), integer(2)), s)
                    &&& is_number(c) && is_number(s)
                },
    {
        let half = self.half_angle()?;
        let c = scalar_cos(&half);
        let s = scalar_sin(&half);
        let m = Self::matrix_of(self.qubits.len(), &c, &s);
        assert(m@ == Self::layout(self.qubits@.len(), value_of(c), value_of(s)));
        Ok(m)
    }
}

impl OperateMultiQubit for MultiQubitMS {
    open spec fn qubit_list(&self) -> Seq<usize> {
        self.qubits@
    }

    fn qubits(&self) -> (qubits: &Vec<usize>)
        ensures
            *qubits == self.qubits,
    {
        &self.qubits
    }
}

impl OperateMultiQubitGate for MultiQubitMS {
    open spec fn compilable(&self) -> bool {
        self.qubits@.len() >= 1
    }

    open spec fn compiled(&self) -> Seq<Step> {
        self.compilation()
    }

    fn has_circuit(&self) -> (possible: bool) {
        self.qubits.len() >= 1
    }

    /// The circuit needs a last qubit to rotate: a gate on no qubit has none.
    fn circuit(&self) -> (circuit: Circuit) {
        let last: usize = self.qubits[self.qubits.len() - 1];
        let mut circuit = Circuit::new();
        add_hadamards(&mut circuit, &self.qubits);
        add_ladder(&mut circuit, &self.qubits);
        circuit.add_operation(
            Operation::RotateZ {
                qubit: last,
                theta: scalar_div(&self.theta, &scalar_from_integer(2)),
            },
        );
        add_reverse_ladder(&mut circuit, &self.qubits);
        add_hadamards(&mut circuit, &self.qubits);
        assert(circuit@ =~= self.compilation());
        circuit
    }
}

impl Rotate for MultiQubitMS {
    open spec fn angle(&self) -> CalculatorFloat {
        self.theta
    }

    fn theta(&self) -> (value: &CalculatorFloat) {
        &self.theta
    }

    /// Nothing but the angle changes.
    fn powercf(&self, power: CalculatorFloat) -> (gate: Self)
        ensures
            gate.qubits@ == self.qubits@,
    {
        MultiQubitMS { qubits: self.qubits.clone(), theta: scalar_mul(&power, &self.theta) }
    }
}

} // verus!
