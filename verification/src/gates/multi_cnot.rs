//! The multi-controlled NOT gate.
use crate::circuit::{Circuit, Operation, Step};
use crate::error::RoqoqoError;
use crate::matrix::{
    checked_dimension, dimension, make_sparse_row, row_values, sparse_row, Complex, Matrix,
};
use crate::operate::{
    InvolveQubits, Operate, OperateGate, OperateMultiQubit, OperateMultiQubitGate, Substitute,
};
use crate::qubits::{
    covers, first_missing, images, lemma_covers, lemma_image_of_list, qubit_set,
    remap_qubit_list, same_qubits,
};
use crate::scalar::{
    frac_pi_4, negation, one, scalar_frac_pi_4, scalar_neg, zero, Scalar,
};
use crate::tags::{make_multi_qubit_tags, multi_qubit_tags, names};
use qoqo_calculator::Calculator;
use std::collections::{HashMap, HashSet};
use vstd::arithmetic::power2::{lemma2_to64, lemma_pow2_strictly_increases, pow2};
use vstd::prelude::*;
use vstd::std_specs::cmp::PartialEqSpecImpl;

verus! {

/// The NOT gate on the last qubit of a list, controlled by all the others:
/// the identity on every basis state but the last two, which it exchanges.
#[derive(Debug, Clone)]
pub struct MultiCNOT {
    /// The qubits this gate acts on: the controls, then the target.
    pub qubits: Vec<usize>,
}

/// Where this gate on a state space of dimension `dim` sends the basis state
/// `i`: the last two basis states change places, every other one stays.
pub open spec fn exchanged(dim: int, i: int) -> int {
    if i == dim - 2 {
        dim - 1
    } else if i == dim - 1 {
        dim - 2
    } else {
        i
    }
}

impl MultiCNOT {
    /// A gate on the given qubits.
    pub fn new(qubits: Vec<usize>) -> (gate: Self)
        ensures
            gate.qubits == qubits,
    {
        MultiCNOT { qubits }
    }

    /// The compilation of this gate on three qubits: the Toffoli gate with
    /// the controls `a`, `b` and the target `c`.
    pub open spec fn toffoli(a: usize, b: usize, c: usize) -> Seq<Step> {
        seq![
            Step::Hadamard { qubit: c },
            Step::CNOT { control: b, target: c },
            Step::PhaseShiftState1 { qubit: c, theta: negation(frac_pi_4()) },
            Step::CNOT { control: a, target: c },
            Step::TGate { qubit: c },
            Step::CNOT { control: b, target: c },
            Step::PhaseShiftState1 { qubit: c, theta: negation(frac_pi_4()) },
            Step::CNOT { control: a, target: c },
            Step::TGate { qubit: b },
            Step::TGate { qubit: c },
            Step::Hadamard { qubit: c },
            Step::CNOT { control: a, target: b },
            Step::TGate { qubit: a },
            Step::PhaseShiftState1 { qubit: b, theta: negation(frac_pi_4()) },
            Step::CNOT { control: a, target: b },
        ]
    }

    /// The compilation of this gate: one controlled-NOT gate on two qubits,
    /// the Toffoli gate on three.
    pub open spec fn compilation(&self) -> Seq<Step> {
        if self.qubits@.len() == 2 {
            seq![Step::CNOT { control: self.qubits@[0], target: self.qubits@[1] }]
        } else {
            Self::toffoli(self.qubits@[0], self.qubits@[1], self.qubits@[2])
        }
    }

    /// The matrix of this gate on `n` qubits: row `i` holds a one in the
    /// column of the basis state that `i` is exchanged with and zero elsewhere.
    pub open spec fn layout(n: nat) -> Seq<Seq<(Scalar, Scalar)>> {
        Seq::new(
            pow2(n),
            |i: int|
                sparse_row(
                    pow2(n),
                    exchanged(pow2(n) as int, i),
                    (one(), zero()),
                    exchanged(pow2(n) as int, i),
                    (one(), zero()),
                ),
        )
    }

    /// This gate acts on the standard basis as the identity on all basis states
    /// but the last two, and exchanges those: the entry in row `i` and column
    /// `j` of its matrix is one where `i` is the basis state that `j` is sent
    /// to, and zero everywhere else.
    pub proof fn lemma_action_on_basis(n: nat, i: int, j: int)
        requires
            n >= 1,
            0 <= i < pow2(n),
            0 <= j < pow2(n),
        ensures
            Self::layout(n).len() == pow2(n),
            Self::layout(n)[i].len() == pow2(n),
            j < pow2(n) - 2 ==> Self::layout(n)[i][j] == if i == j {
                (one(), zero())
            } else {
                (zero(), zero())
            },
            j == pow2(n) - 2 ==> Self::layout(n)[i][j] == if i == pow2(n) - 1 {
                (one(), zero())
            } else {
                (zero(), zero())
            },
            j == pow2(n) - 1 ==> Self::layout(n)[i][j] == if i == pow2(n) - 2 {
                (one(), zero())
            } else {
                (zero(), zero())
            },
    {
    }
}

impl PartialEq for MultiCNOT {
    fn eq(&self, other: &Self) -> (r: bool) {
        same_qubits(&self.qubits, &other.qubits)
    }
}

impl PartialEqSpecImpl for MultiCNOT {
    open spec fn obeys_eq_spec() -> bool {
        true
    }

    /// Two gates are equal where they have the same qubits in the same order.
    open spec fn eq_spec(&self, other: &Self) -> bool {
        self.qubits@ == other.qubits@
    }
}

impl Operate for MultiCNOT {
    open spec fn name() -> Seq<char> {
        "MultiCNOT"@
    }

    open spec fn parametrized(&self) -> bool {
        false
    }

    open spec fn same(&self, other: &Self) -> bool {
        self.qubits@ == other.qubits@
    }

    fn hqslang(&self) -> (name: &'static str) {
        "MultiCNOT"
    }

    /// The tags of a multi-qubit gate.
    fn tags(&self) -> (tags: Vec<&'static str>)
        ensures
            names(tags@) == multi_qubit_tags("MultiCNOT"@),
    {
        make_multi_qubit_tags("MultiCNOT")
    }

    fn is_parametrized(&self) -> (symbolic: bool) {
        false
    }
}

impl InvolveQubits for MultiCNOT {
    open spec fn involved(&self) -> Set<usize> {
        self.qubits@.to_set()
    }

    fn involved_qubits(&self) -> (qubits: HashSet<usize>) {
        qubit_set(&self.qubits)
    }
}

impl Substitute for MultiCNOT {
    open spec fn substitutable(&self) -> bool {
        true
    }

    fn can_substitute(&self) -> (possible: bool) {
        true
    }

    /// This gate has no parameter: it is returned as it is.
    fn substitute_parameters(&self, calculator: &Calculator) -> (r: Result<Self, RoqoqoError>)
        ensures
            r is Ok,
            r->Ok_0.qubits@ == self.qubits@,
    {
        Ok(MultiCNOT { qubits: self.qubits.clone() })
    }

    /// The qubits are remapped in the order of the list: the error names the
    /// first one that the mapping has no entry for.
    fn remap_qubits(&self, mapping: &HashMap<usize, usize>) -> (r: Result<Self, RoqoqoError>)
        ensures
            covers(mapping@, self.qubits@) ==> {
                &&& r is Ok
                &&& r->Ok_0.qubits@ == images(mapping@, self.qubits@)
            },
            r is Err ==> exists|k: int| #[trigger]
                first_missing(mapping@, self.qubits@, k) && r->Err_0 == (
                RoqoqoError::QubitMappingError { qubit: self.qubits@[k] }),
    {
        proof {
            lemma_covers(mapping@, self.qubits@);
        }
        let qubits = remap_qubit_list(mapping, &self.qubits)?;
        proof {
            lemma_image_of_list(mapping@, self.qubits@, qubits@);
        }
        Ok(MultiCNOT { qubits })
    }
}

impl OperateGate for MultiCNOT {
    open spec fn qubit_count(&self) -> nat {
        self.qubits@.len()
    }

    open spec fn has_matrix(&self) -> bool {
        self.qubits@.len() >= 1 && pow2(self.qubits@.len()) <= usize::MAX
    }

    fn has_unitary_matrix(&self) -> (possible: bool) {
        self.qubits.len() >= 1 && checked_dimension(self.qubits.len()).is_some()
    }

    /// The matrix is the one that [`Self::layout`] gives. It needs the last
    /// two basis states, so a gate on no qubit has none.
    fn unitary_matrix(&self) -> (r: Result<Matrix, RoqoqoError>)
        ensures
            r is Ok,
            r->Ok_0@ == Self::layout(self.qubits@.len()),
    {
        let n: usize = self.qubits.len();
        let dim = dimension(n);
        proof {
            lemma2_to64();
            if n > 1 {
                lemma_pow2_strictly_increases(1, n as nat);
            }
        }
        let unit = Complex::one();
        let ghost expected = Self::layout(n as nat);
        let mut rows: Vec<Vec<Complex>> = Vec::new();
        let mut i: usize = 0;
        while i < dim
            invariant
                i <= dim,
                dim >= 2,
                dim == pow2(n as nat),
                rows@.len() == i,
                unit@ == (one(), zero()),
                expected == Self::layout(n as nat),
                forall|l: int| 0 <= l < i ==> row_values((#[trigger] rows@[l])@) == expected[l],
            decreases dim - i,
        {
            let column: usize = if i == dim - 2 {
                dim - 1
            } else if i == dim - 1 {
                dim - 2
            } else {
                i
            };
            let row = make_sparse_row(dim, column, &unit, column, &unit);
            rows.push(row);
            i = i + 1;
        }
        let m = Matrix::from_rows(rows);
        assert(m@ =~= expected) by {
            assert forall|l: int| 0 <= l < dim implies m@[l] =~= expected[l] by {
                assert(row_values(m.rows@[l]@) == expected[l]);
            }
        }
        Ok(m)
    }
}

impl OperateMultiQubit for MultiCNOT {
    open spec fn qubit_list(&self) -> Seq<usize> {
        self.qubits@
    }

    fn qubits(&self) -> (qubits: &Vec<usize>)
        ensures
            *qubits == self.qubits,
    {
        &self.qubits
    }
}

impl OperateMultiQubitGate for MultiCNOT {
    open spec fn compilable(&self) -> bool {
        self.qubits@.len() == 2 || self.qubits@.len() == 3
    }

    open spec fn compiled(&self) -> Seq<Step> {
        self.compilation()
    }

    fn has_circuit(&self) -> (possible: bool) {
        self.qubits.len() == 2 || self.qubits.len() == 3
    }

    /// Only the gates on two and on three qubits have a circuit.
    fn circuit(&self) -> (circuit: Circuit) {
        let mut circuit = Circuit::new();
        if self.qubits.len() == 2 {
            circuit.add_operation(
                Operation::CNOT { control: self.qubits[0], target: self.qubits[1] },
            );
            assert(circuit@ =~= self.compilation());
        } else {
            let a: usize = self.qubits[0];
            let b: usize = self.qubits[1];
            let c: usize = self.qubits[2];
            circuit.add_operation(Operation::Hadamard { qubit: c });
            circuit.add_operation(Operation::CNOT { control: b, target: c });
            circuit.add_operation(
                Operation::PhaseShiftState1 { qubit: c, theta: scalar_neg(&scalar_frac_pi_4()) },
            );
            circuit.add_operation(Operation::CNOT { control: a, target: c });
            circuit.add_operation(Operation::TGate { qubit: c });
            circuit.add_operation(Operation::CNOT { control: b, target: c });
            circuit.add_operation(
                Operation::PhaseShiftState1 { qubit: c, theta: scalar_neg(&scalar_frac_pi_4()) },
            );
            circuit.add_operation(Operation::CNOT { control: a, target: c });
            circuit.add_operation(Operation::TGate { qubit: b });
            circuit.add_operation(Operation::TGate { qubit: c });
            circuit.add_operation(Operation::Hadamard { qubit: c });
            circuit.add_operation(Operation::CNOT { control: a, target: b });
            circuit.add_operation(Operation::TGate { qubit: a });
            circuit.add_operation(
                Operation::PhaseShiftState1 { qubit: b, theta: scalar_neg(&scalar_frac_pi_4()) },
            );
            circuit.add_operation(Operation::CNOT { control: a, target: b });
            assert(circuit@ =~= self.compilation());
        }
        circuit
    }
}

} // verus!
