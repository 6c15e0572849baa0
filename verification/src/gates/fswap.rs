//! The fermionic SWAP gate.
use crate::circuit::{Circuit, Operation, Step};
use crate::error::RoqoqoError;
use crate::kak::{KakDecomposition, KakValue};
use crate::matrix::{Complex, Matrix};
use crate::operate::{
    InvolveQubits, Operate, OperateGate, OperateTwoQubit, OperateTwoQubitGate, Substitute,
};
use crate::qubits::{lemma_image_of_pair, qubit_pair, remap_qubit};
use crate::scalar::{
    frac_pi_2, frac_pi_4, negation, one, scalar_frac_pi_2, scalar_frac_pi_4, scalar_neg, scalar_one,
    scalar_zero, zero, Scalar,
};
use crate::tags::{make_two_qubit_tags, names, two_qubit_tags};
use qoqo_calculator::Calculator;
use std::collections::{HashMap, HashSet};
use vstd::arithmetic::power2::lemma2_to64;
use vstd::prelude::*;
use vstd::std_specs::cmp::PartialEqSpecImpl;

verus! {

/// The fermionic SWAP gate: SWAP with a sign on `|11⟩`.
///
/// ```text
/// 1 0 0  0
/// 0 0 1  0
/// 0 1 0  0
/// 0 0 0 -1
/// ```
#[derive(Debug, Clone)]
pub struct FSwap {
    /// The most significant qubit of the matrix representation.
    pub control: usize,
    /// The least significant qubit of the matrix representation.
    pub target: usize,
}

impl FSwap {
    /// A gate on the qubits `control` and `target`.
    pub fn new(control: usize, target: usize) -> (gate: Self)
        ensures
            gate == (FSwap { control, target }),
    {
        FSwap { control, target }
    }

    /// The matrix of this gate.
    pub open spec fn layout() -> Seq<Seq<(Scalar, Scalar)>> {
        seq![
            seq![(one(), zero()), (zero(), zero()), (zero(), zero()), (zero(), zero())],
            seq![(zero(), zero()), (zero(), zero()), (one(), zero()), (zero(), zero())],
            seq![(zero(), zero()), (one(), zero()), (zero(), zero()), (zero(), zero())],
            seq![(zero(), zero()), (zero(), zero()), (zero(), zero()), (negation(one()), zero())],
        ]
    }

    /// The KAK decomposition of this gate.
    pub open spec fn kak(&self) -> KakValue {
        KakValue {
            global_phase: negation(frac_pi_2()),
            k_vector: (frac_pi_4(), frac_pi_4(), zero()),
            circuit_before: Some(
                seq![
                    Step::RotateZ { qubit: self.control, theta: negation(frac_pi_2()) },
                    Step::RotateZ { qubit: self.target, theta: negation(frac_pi_2()) },
                ],
            ),
            circuit_after: None,
        }
    }
}

impl PartialEq for FSwap {
    fn eq(&self, other: &Self) -> (r: bool) {
        self.control == other.control && self.target == other.target
    }
}

impl PartialEqSpecImpl for FSwap {
    open spec fn obeys_eq_spec() -> bool {
        true
    }

    /// Two gates are equal where their qubits are the same.
    open spec fn eq_spec(&self, other: &Self) -> bool {
        self.control == other.control && self.target == other.target
    }
}

impl Operate for FSwap {
    open spec fn name() -> Seq<char> {
        "FSwap"@
    }

    open spec fn parametrized(&self) -> bool {
        false
    }

    open spec fn same(&self, other: &Self) -> bool {
        *self == *other
    }

    fn hqslang(&self) -> (name: &'static str) {
        "FSwap"
    }

    /// The tags of a two-qubit gate.
    fn tags(&self) -> (tags: Vec<&'static str>)
        ensures
            names(tags@) == two_qubit_tags("FSwap"@),
    {
        make_two_qubit_tags("FSwap")
    }

    fn is_parametrized(&self) -> (symbolic: bool) {
        false
    }
}

impl InvolveQubits for FSwap {
    open spec fn involved(&self) -> Set<usize> {
        set![self.control, self.target]
    }

    fn involved_qubits(&self) -> (qubits: HashSet<usize>) {
        qubit_pair(self.control, self.target)
    }
}

impl Substitute for FSwap {
    open spec fn substitutable(&self) -> bool {
        true
    }

    fn can_substitute(&self) -> (possible: bool) {
        true
    }

    /// This gate has no parameter: it is returned as it is.
    fn substitute_parameters(&self, calculator: &Calculator) -> (r: Result<Self, RoqoqoError>)
        ensures
            r is Ok,
            r->Ok_0 == *self,
    {
        Ok(FSwap { control: self.control, target: self.target })
    }

    /// The control is remapped first: where both qubits lack an entry, the error
    /// names the control.
    fn remap_qubits(&self, mapping: &HashMap<usize, usize>) -> (r: Result<Self, RoqoqoError>)
        ensures
            mapping@.contains_key(self.control) && mapping@.contains_key(self.target) ==> {
                &&& r is Ok
                &&& r->Ok_0.control == mapping@[self.control]
                &&& r->Ok_0.target == mapping@[self.target]
            },
            !mapping@.contains_key(self.control) ==> r is Err && r->Err_0 == (
            RoqoqoError::QubitMappingError { qubit: self.control }),
            mapping@.contains_key(self.control) && !mapping@.contains_key(self.target) ==> r is Err
                && r->Err_0 == (RoqoqoError::QubitMappingError { qubit: self.target }),
    {
        proof {
            lemma_image_of_pair(mapping@, self.control, self.target);
            assert(self.involved().contains(self.control));
            assert(self.involved().contains(self.target));
        }
        let control = remap_qubit(mapping, self.control)?;
        let target = remap_qubit(mapping, self.target)?;
        Ok(FSwap { control, target })
    }
}

impl OperateGate for FSwap {
    open spec fn qubit_count(&self) -> nat {
        2
    }

    open spec fn has_matrix(&self) -> bool {
        true
    }

    fn has_unitary_matrix(&self) -> (possible: bool) {
        true
    }

    /// The matrix is the one that [`Self::layout`] gives.
    fn unitary_matrix(&self) -> (r: Result<Matrix, RoqoqoError>)
        ensures
            r is Ok,
            r->Ok_0@ == Self::layout(),
    {
        let rows = vec![
            vec![Complex::one(), Complex::zero(), Complex::zero(), Complex::zero()],
            vec![Complex::zero(), Complex::zero(), Complex::one(), Complex::zero()],
            vec![Complex::zero(), Complex::one(), Complex::zero(), Complex::zero()],
            vec![
                Complex::zero(),
                Complex::zero(),
                Complex::zero(),
                Complex::from_real(scalar_neg(&scalar_one())),
            ],
        ];
        let m = Matrix::from_rows(rows);
        let ghost expected = Self::layout();
        proof {
            lemma2_to64();
        }
        assert(m@ =~= expected) by {
            assert(m@[0] =~= expected[0]);
            assert(m@[1] =~= expected[1]);
            assert(m@[2] =~= expected[2]);
            assert(m@[3] =~= expected[3]);
        }
        Ok(m)
    }
}

impl OperateTwoQubit for FSwap {
    open spec fn control_qubit(&self) -> usize {
        self.control
    }

    open spec fn target_qubit(&self) -> usize {
        self.target
    }

    fn control(&self) -> (qubit: &usize) {
        &self.control
    }

    fn target(&self) -> (qubit: &usize) {
        &self.target
    }
}

impl OperateTwoQubitGate for FSwap {
    /// The decomposition is the one that [`Self::kak`] gives.
    fn kak_decomposition(&self) -> (kak: KakDecomposition)
        ensures
            kak@ == self.kak(),
    {
        let mut circuit_b = Circuit::new();
        circuit_b.add_operation(
            Operation::RotateZ { qubit: self.control, theta: scalar_neg(&scalar_frac_pi_2()) },
        );
        circuit_b.add_operation(
            Operation::RotateZ { qubit: self.target, theta: scalar_neg(&scalar_frac_pi_2()) },
        );
        assert(circuit_b@ =~= self.kak().circuit_before.unwrap());
        KakDecomposition::new(
            scalar_neg(&scalar_frac_pi_2()),
            scalar_frac_pi_4(),
            scalar_frac_pi_4(),
            scalar_zero(),
            Some(circuit_b),
            None,
        )
    }
}

} // verus!
