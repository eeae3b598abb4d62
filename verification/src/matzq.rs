//! Matrices over the ring of integers modulo `q`.
//!
//! Entries are kept as canonical residues in `[0, q)`, stored row-major.
//! The mathematical model of a matrix is [`MatView`]: the modulus, the
//! announced column count, and the rows as sequences of residues. This
//! module supplies the operations the Ajtai commitment needs: construction,
//! entry access, matrix-times-column-vector and matrix addition modulo `q`,
//! equality, and the squared Euclidean norm of a column vector measured on
//! canonical representatives.

use vstd::prelude::*;

verus! {

/// Dot product of two sequences of residues, reduced modulo `q` after every
/// accumulation step; `k` is how many leading positions are taken.
pub open spec fn dot_mod(row: Seq<u64>, col: Seq<u64>, q: int, k: int) -> int
    decreases k,
{
    if k <= 0 {
        0
    } else {
        (dot_mod(row, col, q, k - 1) + (row[k - 1] * col[k - 1]) % q) % q
    }
}

/// The dot product stays a canonical residue.
pub proof fn lemma_dot_mod_bounds(row: Seq<u64>, col: Seq<u64>, q: int, k: int)
    requires
        q >= 2,
    ensures
        0 <= dot_mod(row, col, q, k) < q,
    decreases k,
{
    if k <= 0 {
    } else {
        lemma_dot_mod_bounds(row, col, q, k - 1);
        assert(row[k - 1] * col[k - 1] >= 0) by (nonlinear_arith);
    }
}

/// Sum of the squares of the first `k` entries of a column of residues.
pub open spec fn norm_prefix(col: Seq<u64>, k: int) -> int
    decreases k,
{
    if k <= 0 {
        0
    } else {
        norm_prefix(col, k - 1) + col[k - 1] * col[k - 1]
    }
}

/// Squared Euclidean norm of a column of residues.
pub open spec fn norm_sqrd(col: Seq<u64>) -> int {
    norm_prefix(col, col.len() as int)
}

/// Prefix sums of squares grow monotonically.
pub proof fn lemma_norm_prefix_mono(col: Seq<u64>, a: int, b: int)
    requires
        0 <= a <= b,
    ensures
        norm_prefix(col, a) <= norm_prefix(col, b),
    decreases b,
{
    if a < b {
        lemma_norm_prefix_mono(col, a, b - 1);
        assert(col[b - 1] * col[b - 1] >= 0) by (nonlinear_arith);
    }
}

/// The norm prefix depends only on the positions it covers.
pub proof fn lemma_norm_prefix_extends(s: Seq<u64>, t: Seq<u64>, k: int)
    requires
        0 <= k,
        forall|i: int| 0 <= i < k ==> s[i] == t[i],
    ensures
        norm_prefix(s, k) == norm_prefix(t, k),
    decreases k,
{
    if k > 0 {
        lemma_norm_prefix_extends(s, t, k - 1);
    }
}

/// The mathematical value of a matrix over Z_q: its modulus, its announced
/// column count, and its rows as sequences of canonical residues.
pub ghost struct MatView {
    pub q: int,
    pub num_cols: int,
    pub rows: Seq<Seq<u64>>,
}

impl MatView {
    pub open spec fn num_rows(self) -> int {
        self.rows.len() as int
    }

    /// The entry in row `i`, column `j`.
    pub open spec fn entry(self, i: int, j: int) -> u64 {
        self.rows[i][j]
    }

    /// Well-formedness: modulus at least 2, every row has the announced
    /// width, every entry is a canonical residue.
    pub open spec fn wf(self) -> bool {
        &&& self.q >= 2
        &&& forall|i: int|
            0 <= i < self.rows.len() ==> (#[trigger] self.rows[i]).len() == self.num_cols
        &&& forall|i: int, j: int|
            0 <= i < self.rows.len() && 0 <= j < self.num_cols ==> #[trigger] self.entry(i, j)
                < self.q
    }

    pub open spec fn is_column_vector(self) -> bool {
        self.num_cols == 1
    }

    /// A column vector seen as the sequence of its entries.
    pub open spec fn col(self) -> Seq<u64> {
        Seq::new(self.rows.len(), |i: int| self.entry(i, 0))
    }
}

/// A matrix over Z_q, with every entry held as its representative in `[0, q)`.
pub struct MatZq {
    q: u64,
    num_cols: usize,
    entries: Vec<Vec<u64>>,
}

impl View for MatZq {
    type V = MatView;

    closed spec fn view(&self) -> MatView {
        MatView {
            q: self.q as int,
            num_cols: self.num_cols as int,
            rows: Seq::new(self.entries@.len(), |i: int| self.entries@[i]@),
        }
    }
}

impl MatZq {
    /// The all-zero matrix of the given dimensions over Z_q.
    #[verifier::loop_isolation(false)]
    pub fn new(num_rows: usize, num_cols: usize, q: u64) -> (r: Self)
        requires
            q >= 2,
        ensures
            r@.wf(),
            r@.q == q,
            r@.num_rows() == num_rows,
            r@.num_cols == num_cols,
            forall|i: int, j: int|
                0 <= i < num_rows && 0 <= j < num_cols ==> r@.entry(i, j) == 0,
    {
        let mut entries: Vec<Vec<u64>> = Vec::new();
        let mut i: usize = 0;
        while i < num_rows
            invariant
                i <= num_rows,
                entries@.len() == i,
                forall|a: int| 0 <= a < i ==> (#[trigger] entries@[a])@.len() == num_cols,
                forall|a: int, b: int|
                    0 <= a < i && 0 <= b < num_cols ==> (#[trigger] entries@[a]@[b]) == 0,
            decreases num_rows - i,
        {
            let mut row: Vec<u64> = Vec::new();
            let mut j: usize = 0;
            while j < num_cols
                invariant
                    j <= num_cols,
                    row@.len() == j,
                    forall|b: int| 0 <= b < j ==> row@[b] == 0,
                decreases num_cols - j,
            {
                row.push(0);
                j = j + 1;
            }
            entries.push(row);
            i = i + 1;
        }
        MatZq { q, num_cols, entries }
    }

    /// Build a column vector from its entries, each reduced modulo `q`.
    #[verifier::loop_isolation(false)]
    pub fn from_col(col: Vec<u64>, q: u64) -> (r: Self)
        requires
            q >= 2,
        ensures
            r@.wf(),
            r@.q == q,
            r@.is_column_vector(),
            r@.num_rows() == col@.len(),
            forall|i: int| 0 <= i < col@.len() ==> r@.entry(i, 0) == col@[i] % q,
    {
        let mut entries: Vec<Vec<u64>> = Vec::new();
        let mut i: usize = 0;
        while i < col.len()
            invariant
                i <= col@.len(),
                entries@.len() == i,
                forall|a: int| 0 <= a < i ==> (#[trigger] entries@[a])@.len() == 1,
                forall|a: int| 0 <= a < i ==> (#[trigger] entries@[a])@[0] == col@[a] % q,
            decreases col@.len() - i,
        {
            let mut row: Vec<u64> = Vec::new();
            row.push(col[i] % q);
            entries.push(row);
            i = i + 1;
        }
        MatZq { q, num_cols: 1, entries }
    }

    /// Build a matrix from row vectors, each entry reduced modulo `q`.
    /// Returns `None` exactly when some row does not have `num_cols` entries.
    #[verifier::loop_isolation(false)]
    pub fn from_rows(rows: Vec<Vec<u64>>, num_cols: usize, q: u64) -> (r: Option<Self>)
        requires
            q >= 2,
        ensures
            r is Some <==> (forall|i: int|
                0 <= i < rows@.len() ==> (#[trigger] rows@[i])@.len() == num_cols),
            r is Some ==> {
                let m = r->Some_0;
                &&& m@.wf()
                &&& m@.q == q
                &&& m@.num_rows() == rows@.len()
                &&& m@.num_cols == num_cols
                &&& forall|i: int, j: int|
                    0 <= i < rows@.len() && 0 <= j < num_cols ==> #[trigger] m@.entry(i, j)
                        == rows@[i]@[j] % q
            },
    {
        let mut entries: Vec<Vec<u64>> = Vec::new();
        let mut i: usize = 0;
        while i < rows.len()
            invariant
                i <= rows@.len(),
                entries@.len() == i,
                forall|a: int| 0 <= a < i ==> (#[trigger] rows@[a])@.len() == num_cols,
                forall|a: int| 0 <= a < i ==> (#[trigger] entries@[a])@.len() == num_cols,
                forall|a: int, b: int|
                    0 <= a < i && 0 <= b < num_cols ==> (#[trigger] entries@[a]@[b]) == rows@[a]@[b]
                        % q,
            decreases rows@.len() - i,
        {
            if rows[i].len() != num_cols {
                return None;
            }
            let mut row: Vec<u64> = Vec::new();
            let mut j: usize = 0;
            while j < num_cols
                invariant
                    j <= num_cols,
                    row@.len() == j,
                    forall|b: int| 0 <= b < j ==> row@[b] == rows@[i as int]@[b] % q,
                decreases num_cols - j,
            {
                row.push(rows[i][j] % q);
                j = j + 1;
            }
            entries.push(row);
            i = i + 1;
        }
        Some(MatZq { q, num_cols, entries })
    }

    pub fn modulus(&self) -> (r: u64)
        ensures
            r == self@.q,
    {
        self.q
    }

    pub fn num_rows(&self) -> (r: usize)
        ensures
            r == self@.num_rows(),
    {
        self.entries.len()
    }

    pub fn num_cols(&self) -> (r: usize)
        ensures
            r == self@.num_cols,
    {
        self.num_cols
    }

    pub fn is_column_vector(&self) -> (r: bool)
        ensures
            r == self@.is_column_vector(),
    {
        self.num_cols == 1
    }

    pub fn get_entry(&self, i: usize, j: usize) -> (r: u64)
        requires
            self@.wf(),
            i < self@.num_rows(),
            j < self@.num_cols,
        ensures
            r == self@.entry(i as int, j as int),
    {
        proof {
            assert(self@.rows.len() == self.entries@.len());
            assert(self@.rows[i as int] == self.entries@[i as int]@);
        }
        self.entries[i][j]
    }

    /// Whether the two matrices agree in modulus, shape and every entry.
    #[verifier::loop_isolation(false)]
    pub fn equals(&self, other: &MatZq) -> (r: bool)
        ensures
            r == (self@ == other@),
    {
        proof {
            assert(self@.rows.len() == self.entries@.len());
            assert(other@.rows.len() == other.entries@.len());
        }
        if self.q != other.q || self.num_cols != other.num_cols || self.entries.len()
            != other.entries.len() {
            return false;
        }
        let mut i: usize = 0;
        while i < self.entries.len()
            invariant
                i <= self@.num_rows(),
                forall|a: int| 0 <= a < i ==> self@.rows[a] == other@.rows[a],
            decreases self@.num_rows() - i,
        {
            proof {
                assert(self@.rows[i as int] == self.entries@[i as int]@);
                assert(other@.rows[i as int] == other.entries@[i as int]@);
            }
            if self.entries[i].len() != other.entries[i].len() {
                return false;
            }
            let mut j: usize = 0;
            while j < self.entries[i].len()
                invariant
                    j <= self@.rows[i as int].len(),
                    self@.rows[i as int].len() == other@.rows[i as int].len(),
                    forall|b: int|
                        0 <= b < j ==> self@.rows[i as int][b] == other@.rows[i as int][b],
                decreases self@.rows[i as int].len() - j,
            {
                if self.entries[i][j] != other.entries[i][j] {
                    return false;
                }
                j = j + 1;
            }
            proof {
                assert(self@.rows[i as int] =~= other@.rows[i as int]);
            }
            i = i + 1;
        }
        proof {
            assert(self@.rows =~~= other@.rows);
        }
        true
    }

    /// Dot product of row `i` of `self` with the column vector `v`, modulo `q`.
    #[verifier::loop_isolation(false)]
    fn dot_col(&self, i: usize, v: &MatZq) -> (r: u64)
        requires
            self@.wf(),
            v@.wf(),
            v@.is_column_vector(),
            v@.num_rows() == self@.num_cols,
            v@.q == self@.q,
            i < self@.num_rows(),
        ensures
            r as int == dot_mod(self@.rows[i as int], v@.col(), self@.q, self@.num_cols),
            r < self@.q,
    {
        let q: u64 = self.q;
        let mut acc: u64 = 0;
        let mut j: usize = 0;
        while j < self.num_cols
            invariant
                j <= self@.num_cols,
                acc as int == dot_mod(self@.rows[i as int], v@.col(), q as int, j as int),
                acc < q,
            decreases self@.num_cols - j,
        {
            proof {
                assert(self@.rows.len() == self.entries@.len());
                assert(self@.rows[i as int] == self.entries@[i as int]@);
                assert(v@.rows.len() == v.entries@.len());
                assert(v@.rows[j as int] == v.entries@[j as int]@);
            }
            let a: u64 = self.entries[i][j];
            let b: u64 = v.entries[j][0];
            assert(b == v@.col()[j as int]);
            assert((a as int) * (b as int) <= (u64::MAX as int) * (u64::MAX as int))
                by (nonlinear_arith)
                requires
                    a <= u64::MAX,
                    b <= u64::MAX,
            ;
            let prod: u128 = (a as u128) * (b as u128);
            let pm: u128 = prod % (q as u128);
            let s: u128 = (acc as u128) + pm;
            let res: u128 = s % (q as u128);
            acc = res as u64;
            j = j + 1;
        }
        acc
    }

    /// Matrix-times-column-vector product, reduced modulo `q`.
    #[verifier::loop_isolation(false)]
    pub fn mul_col(&self, v: &MatZq) -> (r: MatZq)
        requires
            self@.wf(),
            v@.wf(),
            v@.is_column_vector(),
            v@.num_rows() == self@.num_cols,
            v@.q == self@.q,
        ensures
            r@.wf(),
            r@.q == self@.q,
            r@.num_rows() == self@.num_rows(),
            r@.is_column_vector(),
            forall|i: int|
                0 <= i < self@.num_rows() ==> #[trigger] r@.entry(i, 0) as int == dot_mod(
                    self@.rows[i],
                    v@.col(),
                    self@.q,
                    self@.num_cols,
                ),
    {
        let mut entries: Vec<Vec<u64>> = Vec::new();
        let mut i: usize = 0;
        while i < self.entries.len()
            invariant
                i <= self@.num_rows(),
                entries@.len() == i,
                forall|a: int| 0 <= a < i ==> (#[trigger] entries@[a])@.len() == 1,
                forall|a: int|
                    0 <= a < i ==> (#[trigger] entries@[a])@[0] as int == dot_mod(
                        self@.rows[a],
                        v@.col(),
                        self@.q,
                        self@.num_cols,
                    ),
                forall|a: int| 0 <= a < i ==> (#[trigger] entries@[a])@[0] < self@.q,
            decreases self@.num_rows() - i,
        {
            let e: u64 = self.dot_col(i, v);
            let mut row: Vec<u64> = Vec::new();
            row.push(e);
            entries.push(row);
            i = i + 1;
        }
        MatZq { q: self.q, num_cols: 1, entries }
    }

    /// Entry-wise sum of two matrices of equal shape, reduced modulo `q`.
    #[verifier::loop_isolation(false)]
    pub fn add_mod(&self, other: &MatZq) -> (r: MatZq)
        requires
            self@.wf(),
            other@.wf(),
            other@.q == self@.q,
            other@.num_rows() == self@.num_rows(),
            other@.num_cols == self@.num_cols,
        ensures
            r@.wf(),
            r@.q == self@.q,
            r@.num_rows() == self@.num_rows(),
            r@.num_cols == self@.num_cols,
            forall|i: int, j: int|
                0 <= i < self@.num_rows() && 0 <= j < self@.num_cols ==> #[trigger] r@.entry(
                    i,
                    j,
                ) as int == (self@.entry(i, j) + other@.entry(i, j)) % self@.q,
    {
        let q: u64 = self.q;
        let mut entries: Vec<Vec<u64>> = Vec::new();
        let mut i: usize = 0;
        while i < self.entries.len()
            invariant
                i <= self@.num_rows(),
                entries@.len() == i,
                forall|a: int| 0 <= a < i ==> (#[trigger] entries@[a])@.len() == self@.num_cols,
                forall|a: int, b: int|
                    0 <= a < i && 0 <= b < self@.num_cols ==> (#[trigger] entries@[a]@[b]) as int
                        == (self@.entry(a, b) + other@.entry(a, b)) % (q as int),
                forall|a: int, b: int|
                    0 <= a < i && 0 <= b < self@.num_cols ==> (#[trigger] entries@[a]@[b]) < q,
            decreases self@.num_rows() - i,
        {
            let mut row: Vec<u64> = Vec::new();
            let mut j: usize = 0;
            while j < self.num_cols
                invariant
                    j <= self@.num_cols,
                    row@.len() == j,
                    forall|b: int|
                        0 <= b < j ==> #[trigger] row@[b] as int == (self@.entry(i as int, b)
                            + other@.entry(i as int, b)) % (q as int),
                    forall|b: int| 0 <= b < j ==> #[trigger] row@[b] < q,
                decreases self@.num_cols - j,
            {
                proof {
                    assert(self@.rows.len() == self.entries@.len());
                    assert(self@.rows[i as int] == self.entries@[i as int]@);
                    assert(other@.rows.len() == other.entries@.len());
                    assert(other@.rows[i as int] == other.entries@[i as int]@);
                }
                let a: u64 = self.entries[i][j];
                let b: u64 = other.entries[i][j];
                let s: u128 = (a as u128) + (b as u128);
                let res: u128 = s % (q as u128);
                row.push(res as u64);
                j = j + 1;
            }
            entries.push(row);
            i = i + 1;
        }
        MatZq { q: self.q, num_cols: self.num_cols, entries }
    }

    /// Whether the squared Euclidean norm of this column vector is strictly
    /// below `bound`.
    #[verifier::loop_isolation(false)]
    pub fn norm_sqrd_below(&self, bound: u64) -> (r: bool)
        requires
            self@.wf(),
            self@.is_column_vector(),
        ensures
            r == (norm_sqrd(self@.col()) < bound as int),
    {
        let ghost col: Seq<u64> = self@.col();
        proof {
            assert(col.len() == self.entries@.len());
        }
        if bound == 0 {
            proof {
                lemma_norm_prefix_mono(col, 0, col.len() as int);
            }
            return false;
        }
        let n: usize = self.entries.len();
        let mut acc: u64 = 0;
        let mut i: usize = 0;
        while i < n
            invariant
                i <= n,
                acc as int == norm_prefix(col, i as int),
                acc < bound,
            decreases n - i,
        {
            proof {
                assert(self@.rows.len() == self.entries@.len());
                assert(self@.rows[i as int] == self.entries@[i as int]@);
            }
            let e: u64 = self.entries[i][0];
            assert(e == col[i as int]);
            assert((e as int) * (e as int) <= (u64::MAX as int) * (u64::MAX as int))
                by (nonlinear_arith)
                requires
                    e <= u64::MAX,
            ;
            let sq: u128 = (e as u128) * (e as u128);
            let tot: u128 = (acc as u128) + sq;
            if tot >= bound as u128 {
                proof {
                    lemma_norm_prefix_mono(col, i as int + 1, col.len() as int);
                }
                return false;
            }
            acc = tot as u64;
            i = i + 1;
        }
        true
    }
}

} // verus!
