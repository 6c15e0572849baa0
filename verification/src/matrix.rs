//! Dense complex matrices whose entries are scalars of the calculator.
use crate::scalar::{equal, one, scalar_eq, scalar_one, scalar_zero, value_of, zero, Scalar};
use qoqo_calculator::CalculatorFloat;
use vstd::arithmetic::power2::{
    lemma2_to64, lemma_pow2_strictly_increases, lemma_pow2_unfold, pow2,
};
use vstd::prelude::*;
use vstd::std_specs::cmp::PartialEqSpecImpl;

verus! {

/// A complex number with real and imaginary part.
#[derive(Debug, Clone)]
pub struct Complex {
    /// Real part.
    pub re: CalculatorFloat,
    /// Imaginary part.
    pub im: CalculatorFloat,
}

impl View for Complex {
    type V = (Scalar, Scalar);

    open spec fn view(&self) -> (Scalar, Scalar) {
        (value_of(self.re), value_of(self.im))
    }
}

/// Whether two complex numbers compare equal: their real parts do, and
/// their imaginary parts do.
pub open spec fn same_entry(a: (Scalar, Scalar), b: (Scalar, Scalar)) -> bool {
    equal(a.0, b.0) && equal(a.1, b.1)
}

/// Whether two rows compare equal: they hold as many entries, and entries
/// that compare equal at each position.
pub open spec fn same_row(a: Seq<(Scalar, Scalar)>, b: Seq<(Scalar, Scalar)>) -> bool {
    a.len() == b.len() && forall|j: int| 0 <= j < a.len() ==> same_entry(#[trigger] a[j], b[j])
}

/// Whether two matrices compare equal: they hold as many rows, and rows that
/// compare equal at each position.
pub open spec fn same_matrix(
    a: Seq<Seq<(Scalar, Scalar)>>,
    b: Seq<Seq<(Scalar, Scalar)>>,
) -> bool {
    a.len() == b.len() && forall|i: int| 0 <= i < a.len() ==> same_row(#[trigger] a[i], b[i])
}

impl PartialEq for Complex {
    fn eq(&self, other: &Self) -> (r: bool) {
        scalar_eq(&self.re, &other.re) && scalar_eq(&self.im, &other.im)
    }
}

impl PartialEqSpecImpl for Complex {
    open spec fn obeys_eq_spec() -> bool {
        true
    }

    open spec fn eq_spec(&self, other: &Self) -> bool {
        same_entry(self@, other@)
    }
}

impl Complex {
    /// The complex number `re + i·im`.
    pub fn new(re: CalculatorFloat, im: CalculatorFloat) -> (z: Complex)
        ensures
            z.re == re,
            z.im == im,
    {
        Complex { re, im }
    }

    /// The real number `re` as a complex number.
    pub fn from_real(re: CalculatorFloat) -> (z: Complex)
        ensures
            z@ == (value_of(re), zero()),
    {
        Complex { re, im: scalar_zero() }
    }

    /// The imaginary number `i·im`.
    pub fn from_imaginary(im: CalculatorFloat) -> (z: Complex)
        ensures
            z@ == (zero(), value_of(im)),
    {
        Complex { re: scalar_zero(), im }
    }

    /// The complex number `0`.
    pub fn zero() -> (z: Complex)
        ensures
            z@ == (zero(), zero()),
    {
        Complex { re: scalar_zero(), im: scalar_zero() }
    }

    /// The complex number `1`.
    pub fn one() -> (z: Complex)
        ensures
            z@ == (one(), zero()),
    {
        Complex { re: scalar_one(), im: scalar_zero() }
    }
}

/// A dense matrix of complex numbers, stored row by row.
#[derive(Debug, Clone)]
pub struct Matrix {
    /// The rows of the matrix, each a sequence of entries.
    pub rows: Vec<Vec<Complex>>,
}

impl View for Matrix {
    type V = Seq<Seq<(Scalar, Scalar)>>;

    open spec fn view(&self) -> Seq<Seq<(Scalar, Scalar)>> {
        Seq::new(self.rows@.len(), |i: int| row_values(self.rows@[i]@))
    }
}

/// The row of `dim` entries that holds `second` at `j`, `first` at `i` (where
/// `i` differs from `j`) and zero everywhere else.
pub open spec fn sparse_row(
    dim: nat,
    i: int,
    first: (Scalar, Scalar),
    j: int,
    second: (Scalar, Scalar),
) -> Seq<(Scalar, Scalar)> {
    Seq::new(
        dim,
        |k: int|
            if k == j {
                second
            } else if k == i {
                first
            } else {
                (zero(), zero())
            },
    )
}

/// What a row of complex numbers holds.
pub open spec fn row_values(row: Seq<Complex>) -> Seq<(Scalar, Scalar)> {
    Seq::new(row.len(), |k: int| row[k]@)
}

/// Builds the row of `dim` entries that holds `second` at `j`, `first` at `i`
/// (where `i` differs from `j`) and zero everywhere else.
pub fn make_sparse_row(dim: usize, i: usize, first: &Complex, j: usize, second: &Complex) -> (row:
    Vec<Complex>)
    ensures
        row_values(row@) == sparse_row(dim as nat, i as int, first@, j as int, second@),
{
    let mut row: Vec<Complex> = Vec::new();
    let mut k: usize = 0;
    while k < dim
        invariant
            k <= dim,
            row@.len() == k,
            forall|l: int|
                0 <= l < k ==> (#[trigger] row@[l])@ == sparse_row(
                    dim as nat,
                    i as int,
                    first@,
                    j as int,
                    second@,
                )[l],
        decreases dim - k,
    {
        let entry = if k == j {
            Complex::new(second.re.clone(), second.im.clone())
        } else if k == i {
            Complex::new(first.re.clone(), first.im.clone())
        } else {
            Complex::zero()
        };
        row.push(entry);
        k = k + 1;
    }
    assert(row_values(row@) =~= sparse_row(dim as nat, i as int, first@, j as int, second@));
    row
}

/// The dimension `2^n` of the state space of `n` qubits, where it fits the
/// machine word.
pub fn checked_dimension(n: usize) -> (dim: Option<usize>)
    ensures
        pow2(n as nat) <= usize::MAX ==> dim == Some(pow2(n as nat) as usize),
        pow2(n as nat) > usize::MAX ==> dim is None,
{
    let mut dim: usize = 1;
    let mut k: usize = 0;
    proof {
        lemma2_to64();
    }
    while k < n
        invariant
            k <= n,
            dim == pow2(k as nat),
        decreases n - k,
    {
        proof {
            lemma_pow2_unfold((k + 1) as nat);
            if k + 1 < n {
                lemma_pow2_strictly_increases((k + 1) as nat, n as nat);
            }
        }
        if dim > usize::MAX / 2 {
            return None;
        }
        dim = dim * 2;
        k = k + 1;
    }
    Some(dim)
}

/// The dimension `2^n` of the state space of `n` qubits.
pub fn dimension(n: usize) -> (dim: usize)
    requires
        pow2(n as nat) <= usize::MAX,
    ensures
        dim == pow2(n as nat),
{
    checked_dimension(n).unwrap()
}

/// Whether two rows of complex numbers compare equal.
fn rows_eq(left: &Vec<Complex>, right: &Vec<Complex>) -> (r: bool)
    ensures
        r == same_row(row_values(left@), row_values(right@)),
{
    if left.len() != right.len() {
        return false;
    }
    let mut j: usize = 0;
    while j < left.len()
        invariant
            j <= left.len(),
            left.len() == right.len(),
            forall|l: int|
                0 <= l < j ==> same_entry(#[trigger] row_values(left@)[l], row_values(right@)[l]),
        decreases left.len() - j,
    {
        if !(left[j] == right[j]) {
            assert(!same_entry(row_values(left@)[j as int], row_values(right@)[j as int]));
            return false;
        }
        j = j + 1;
    }
    true
}

impl PartialEq for Matrix {
    fn eq(&self, other: &Self) -> (r: bool) {
        if self.rows.len() != other.rows.len() {
            return false;
        }
        let mut i: usize = 0;
        while i < self.rows.len()
            invariant
                i <= self.rows.len(),
                self.rows.len() == other.rows.len(),
                forall|l: int| 0 <= l < i ==> same_row(#[trigger] self@[l], other@[l]),
            decreases self.rows.len() - i,
        {
            if !rows_eq(&self.rows[i], &other.rows[i]) {
                assert(!same_row(self@[i as int], other@[i as int]));
                return false;
            }
            i = i + 1;
        }
        true
    }
}

impl PartialEqSpecImpl for Matrix {
    open spec fn obeys_eq_spec() -> bool {
        true
    }

    open spec fn eq_spec(&self, other: &Self) -> bool {
        same_matrix(self@, other@)
    }
}

impl Matrix {
    /// The matrix with the given rows.
    pub fn from_rows(rows: Vec<Vec<Complex>>) -> (m: Matrix)
        ensures
            m.rows == rows,
    {
        Matrix { rows }
    }

    /// The number of rows of the matrix.
    pub fn dim(&self) -> (n: usize)
        ensures
            n == self@.len(),
    {
        self.rows.len()
    }

    /// The entry in row `i` and column `j`.
    pub fn entry(&self, i: usize, j: usize) -> (z: &Complex)
        requires
            i < self@.len(),
            j < self@[i as int].len(),
        ensures
            z@ == self@[i as int][j as int],
    {
        &self.rows[i][j]
    }
}

} // verus!
