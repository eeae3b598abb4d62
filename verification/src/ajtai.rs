//! Ajtai lattice commitments over Z_q, binding under the Short Integer
//! Solution assumption.
//!
//! The public key is a pair of uniformly random matrices `A1, A2` in
//! `Z_q^{n x m}`. A commitment to a column vector `value` of length `m`
//! under a short randomness column vector is `A1*value + A2*randomness`
//! modulo `q`. Verification first checks shapes, then that the squared
//! Euclidean norm of both opening vectors is strictly below [`SHORT`], and
//! only then recomputes the product and compares: without the shortness
//! gate the construction would not be binding, since algebraically equal
//! but non-short colliding preimages are easy to find.
//!
//! The norm is measured coordinate-wise on the canonical representatives
//! in `[0, q)`. This is the plain Euclidean variant of the shortness
//! check, chosen here deliberately over a basis-relative measurement
//! against a reduced reference basis, which would need rational
//! arithmetic; the choice is documented rather than implied.

use vstd::prelude::*;

use crate::matzq::{
    dot_mod, lemma_dot_mod_bounds, lemma_norm_prefix_extends, norm_prefix, norm_sqrd, MatView,
    MatZq,
};
use crate::rng::SecureRng;

verus! {

/// Strict upper bound on the squared Euclidean norm of every opening
/// vector that verification accepts.
pub const SHORT: u64 = 50;

/// Entry `i` of `A1*value + A2*randomness` modulo `q`.
pub open spec fn spec_commit_entry(
    a1: MatView,
    a2: MatView,
    value: MatView,
    randomness: MatView,
    i: int,
) -> int {
    (dot_mod(a1.rows[i], value.col(), a1.q, a1.num_cols) + dot_mod(
        a2.rows[i],
        randomness.col(),
        a2.q,
        a2.num_cols,
    )) % a1.q
}

/// A pair of uniformly random matrices `A1, A2` over Z_q, generated once
/// and shared read-only by committer and verifier.
pub struct PublicKey {
    a_1: MatZq,
    a_2: MatZq,
}

/// The column vector `A1*value + A2*randomness` modulo `q`.
pub open spec fn spec_recomputed(public_key: PublicKey, value: MatView, randomness: MatView)
    -> MatView {
    MatView {
        q: public_key.spec_a1().q,
        num_cols: 1,
        rows: Seq::new(
            public_key.spec_a1().rows.len(),
            |i: int|
                seq![
                    spec_commit_entry(
                        public_key.spec_a1(),
                        public_key.spec_a2(),
                        value,
                        randomness,
                        i,
                    ) as u64
                ],
        ),
    }
}

impl PublicKey {
    pub closed spec fn spec_a1(self) -> MatView {
        self.a_1@
    }

    pub closed spec fn spec_a2(self) -> MatView {
        self.a_2@
    }

    /// Both matrices are well-formed and share modulus and shape.
    pub open spec fn wf(self) -> bool {
        &&& self.spec_a1().wf()
        &&& self.spec_a2().wf()
        &&& self.spec_a2().q == self.spec_a1().q
        &&& self.spec_a2().num_rows() == self.spec_a1().num_rows()
        &&& self.spec_a2().num_cols == self.spec_a1().num_cols
    }

    /// Sample two uniformly random `n x m` matrices over Z_q.
    pub fn random(n: usize, m: usize, q: u64, rng: &mut SecureRng) -> (res: Self)
        requires
            q >= 2,
        ensures
            res.wf(),
            res.spec_a1().q == q,
            res.spec_a1().num_rows() == n,
            res.spec_a1().num_cols == m,
    {
        let a_1 = sample_uniform(n, m, q, rng);
        let a_2 = sample_uniform(n, m, q, rng);
        PublicKey { a_1, a_2 }
    }

    /// Build a key from two explicit matrices of equal modulus and shape.
    pub fn new(a_1: MatZq, a_2: MatZq) -> (res: Self)
        requires
            a_1@.wf(),
            a_2@.wf(),
            a_2@.q == a_1@.q,
            a_2@.num_rows() == a_1@.num_rows(),
            a_2@.num_cols == a_1@.num_cols,
        ensures
            res.wf(),
            res.spec_a1() == a_1@,
            res.spec_a2() == a_2@,
    {
        PublicKey { a_1, a_2 }
    }

    pub fn a_1(&self) -> (res: &MatZq)
        ensures
            res@ == self.spec_a1(),
    {
        &self.a_1
    }

    pub fn a_2(&self) -> (res: &MatZq)
        ensures
            res@ == self.spec_a2(),
    {
        &self.a_2
    }
}

/// A uniformly random matrix over Z_q: every entry is a fresh draw from the
/// randomness source, reduced to its canonical residue.
#[verifier::loop_isolation(false)]
fn sample_uniform(n: usize, m: usize, q: u64, rng: &mut SecureRng) -> (res: MatZq)
    requires
        q >= 2,
    ensures
        res@.wf(),
        res@.q == q,
        res@.num_rows() == n,
        res@.num_cols == m,
{
    let mut rows: Vec<Vec<u64>> = Vec::new();
    let mut i: usize = 0;
    while i < n
        invariant
            i <= n,
            rows@.len() == i,
            forall|a: int| 0 <= a < i ==> (#[trigger] rows@[a])@.len() == m,
        decreases n - i,
    {
        let mut row: Vec<u64> = Vec::new();
        let mut j: usize = 0;
        while j < m
            invariant
                j <= m,
                row@.len() == j,
            decreases m - j,
        {
            row.push(rng.next_u64());
            j = j + 1;
        }
        rows.push(row);
        i = i + 1;
    }
    match MatZq::from_rows(rows, m, q) {
        Some(mat) => mat,
        None => MatZq::new(n, m, q),
    }
}

/// A random column vector of length `m` whose squared norm is guaranteed
/// to stay strictly below [`SHORT`]: entries are drawn from `{0, 1}`, and
/// forced to zero once one more nonzero entry would reach the bound.
#[verifier::loop_isolation(false)]
fn sample_short_col(m: usize, q: u64, rng: &mut SecureRng) -> (res: MatZq)
    requires
        q >= 2,
    ensures
        res@.wf(),
        res@.q == q,
        res@.is_column_vector(),
        res@.num_rows() == m,
        norm_sqrd(res@.col()) < SHORT as int,
{
    let mut col: Vec<u64> = Vec::new();
    let mut ones: u64 = 0;
    let mut i: usize = 0;
    while i < m
        invariant
            i <= m,
            col@.len() == i,
            ones as int == norm_prefix(col@, i as int),
            ones < SHORT,
            forall|a: int| 0 <= a < i ==> col@[a] <= 1,
        decreases m - i,
    {
        let draw: u64 = rng.next_u64();
        let bit: u64 = if ones + 1 < SHORT {
            draw % 2
        } else {
            0
        };
        let ghost prefix = col@;
        col.push(bit);
        proof {
            lemma_norm_prefix_extends(prefix, col@, i as int);
            assert(col@[i as int] == bit);
            assert(norm_prefix(col@, i as int + 1) == norm_prefix(col@, i as int) + bit * bit);
            assert(bit * bit == (if bit == 1 { 1int } else { 0int })) by (nonlinear_arith)
                requires
                    bit <= 1,
            ;
        }
        if bit == 1 {
            ones = ones + 1;
        }
        i = i + 1;
    }
    let res = MatZq::from_col(col, q);
    proof {
        assert forall|a: int| 0 <= a < m implies res@.col()[a] == col@[a] by {
            vstd::arithmetic::div_mod::lemma_small_mod(col@[a] as nat, q as nat);
        }
        assert(res@.col() =~= col@);
    }
    res
}

/// A commitment: the column vector `A1*value + A2*randomness` over Z_q,
/// opaque to its holder.
pub struct Commitment {
    com: MatZq,
}

/// Glue between the executable product and its specification: a matrix
/// whose entries are the two row dot products summed modulo `q` is exactly
/// the recomputed commitment.
proof fn lemma_recomputed_matches(
    public_key: PublicKey,
    value: MatView,
    randomness: MatView,
    x: MatView,
    y: MatView,
    z: MatView,
)
    requires
        public_key.wf(),
        x.wf(),
        x.q == public_key.spec_a1().q,
        x.num_rows() == public_key.spec_a1().num_rows(),
        x.is_column_vector(),
        forall|i: int|
            0 <= i < public_key.spec_a1().num_rows() ==> #[trigger] x.entry(i, 0) as int
                == dot_mod(
                public_key.spec_a1().rows[i],
                value.col(),
                public_key.spec_a1().q,
                public_key.spec_a1().num_cols,
            ),
        y.wf(),
        y.q == public_key.spec_a2().q,
        y.num_rows() == public_key.spec_a2().num_rows(),
        y.is_column_vector(),
        forall|i: int|
            0 <= i < public_key.spec_a2().num_rows() ==> #[trigger] y.entry(i, 0) as int
                == dot_mod(
                public_key.spec_a2().rows[i],
                randomness.col(),
                public_key.spec_a2().q,
                public_key.spec_a2().num_cols,
            ),
        z.wf(),
        z.q == x.q,
        z.num_rows() == x.num_rows(),
        z.num_cols == x.num_cols,
        forall|i: int, j: int|
            0 <= i < x.num_rows() && 0 <= j < x.num_cols ==> #[trigger] z.entry(i, j) as int == (
            x.entry(i, j) + y.entry(i, j)) % x.q,
    ensures
        z == spec_recomputed(public_key, value, randomness),
{
    let spec = spec_recomputed(public_key, value, randomness);
    let q = public_key.spec_a1().q;
    let n = public_key.spec_a1().num_rows();
    assert(spec.rows.len() == n);
    assert(z.rows.len() == n);
    assert forall|i: int| 0 <= i < n implies z.rows[i] =~= spec.rows[i] by {
        let ce = spec_commit_entry(
            public_key.spec_a1(),
            public_key.spec_a2(),
            value,
            randomness,
            i,
        );
        lemma_dot_mod_bounds(
            public_key.spec_a1().rows[i],
            value.col(),
            q,
            public_key.spec_a1().num_cols,
        );
        lemma_dot_mod_bounds(
            public_key.spec_a2().rows[i],
            randomness.col(),
            q,
            public_key.spec_a2().num_cols,
        );
        assert(0 <= ce < q);
        assert(z.entry(i, 0) as int == ce);
        assert(spec.rows[i] == seq![ce as u64]);
        assert(z.rows[i].len() == 1);
        assert(z.rows[i][0] == ce as u64);
    }
    assert(z.rows =~~= spec.rows);
    assert(z == spec);
}

impl Commitment {
    pub closed spec fn spec_com(self) -> MatView {
        self.com@
    }

    /// An opening is accepted exactly when both vectors are column vectors
    /// of the key's width over the key's modulus, both are short, and the
    /// recomputed product equals the stored vector.
    pub open spec fn spec_is_valid(
        self,
        value: MatView,
        randomness: MatView,
        public_key: PublicKey,
    ) -> bool {
        &&& value.is_column_vector()
        &&& randomness.is_column_vector()
        &&& value.q == public_key.spec_a1().q
        &&& randomness.q == public_key.spec_a1().q
        &&& value.num_rows() == public_key.spec_a1().num_cols
        &&& randomness.num_rows() == public_key.spec_a1().num_cols
        &&& norm_sqrd(value.col()) < SHORT as int
        &&& norm_sqrd(randomness.col()) < SHORT as int
        &&& self.spec_com() == spec_recomputed(public_key, value, randomness)
    }

    /// Commit to the column vector `value`: draw a short randomness vector
    /// of matching dimension and form `A1*value + A2*randomness` modulo
    /// `q`; returns the commitment together with the randomness vector.
    /// Passing anything but a column vector of the key's width is a
    /// precondition violation, not a recoverable error.
    pub fn create(value: &MatZq, public_key: &PublicKey, rng: &mut SecureRng) -> (res: (
        Commitment,
        MatZq,
    ))
        requires
            public_key.wf(),
            value@.wf(),
            value@.is_column_vector(),
            value@.q == public_key.spec_a1().q,
            value@.num_rows() == public_key.spec_a1().num_cols,
        ensures
            res.1@.wf(),
            res.1@.is_column_vector(),
            res.1@.q == public_key.spec_a1().q,
            res.1@.num_rows() == public_key.spec_a1().num_cols,
            norm_sqrd(res.1@.col()) < SHORT as int,
            res.0.spec_com() == spec_recomputed(*public_key, value@, res.1@),
            norm_sqrd(value@.col()) < SHORT as int ==> res.0.spec_is_valid(
                value@,
                res.1@,
                *public_key,
            ),
    {
        let m = public_key.a_2.num_cols();
        let q = public_key.a_1.modulus();
        let randomness = sample_short_col(m, q, rng);
        let x = public_key.a_1.mul_col(value);
        let y = public_key.a_2.mul_col(&randomness);
        let com = x.add_mod(&y);
        proof {
            lemma_recomputed_matches(*public_key, value@, randomness@, x@, y@, com@);
        }
        (Commitment { com }, randomness)
    }

    /// Check shapes, then shortness of both vectors, and only then
    /// recompute `A1*value + A2*randomness` and compare it with the stored
    /// vector. Returning `false` is an expected outcome, not a fault.
    pub fn is_valid(&self, value: &MatZq, randomness: &MatZq, public_key: &PublicKey) -> (res:
        bool)
        requires
            public_key.wf(),
            value@.wf(),
            randomness@.wf(),
        ensures
            res == self.spec_is_valid(value@, randomness@, *public_key),
    {
        if !value.is_column_vector() || !randomness.is_column_vector() {
            return false;
        }
        let q = public_key.a_1.modulus();
        if value.modulus() != q || randomness.modulus() != q {
            return false;
        }
        let m = public_key.a_1.num_cols();
        if value.num_rows() != m || randomness.num_rows() != m {
            return false;
        }
        if !value.norm_sqrd_below(SHORT) {
            return false;
        }
        if !randomness.norm_sqrd_below(SHORT) {
            return false;
        }
        let x = public_key.a_1.mul_col(value);
        let y = public_key.a_2.mul_col(randomness);
        let recomputed = x.add_mod(&y);
        proof {
            lemma_recomputed_matches(*public_key, value@, randomness@, x@, y@, recomputed@);
        }
        self.com.equals(&recomputed)
    }

    pub fn com(&self) -> (res: &MatZq)
        ensures
            res@ == self.spec_com(),
    {
        &self.com
    }
}

/// Completeness: an opening with the right shapes whose vectors are both
/// short and whose recomputed product equals the stored vector is
/// accepted, so an honestly created commitment to a short value always
/// verifies against its returned randomness.
pub proof fn lemma_completeness(
    c: Commitment,
    value: MatView,
    randomness: MatView,
    public_key: PublicKey,
)
    requires
        value.is_column_vector(),
        randomness.is_column_vector(),
        value.q == public_key.spec_a1().q,
        randomness.q == public_key.spec_a1().q,
        value.num_rows() == public_key.spec_a1().num_cols,
        randomness.num_rows() == public_key.spec_a1().num_cols,
        norm_sqrd(value.col()) < SHORT as int,
        norm_sqrd(randomness.col()) < SHORT as int,
        c.spec_com() == spec_recomputed(public_key, value, randomness),
    ensures
        c.spec_is_valid(value, randomness, public_key),
{
}

/// The shortness gate: an opening whose randomness vector has squared norm
/// at least [`SHORT`] is rejected, even where the algebraic equation
/// `A1*value + A2*randomness == commitment` still holds.
pub proof fn lemma_shortness_gate(
    c: Commitment,
    value: MatView,
    randomness: MatView,
    public_key: PublicKey,
)
    requires
        norm_sqrd(randomness.col()) >= SHORT as int,
    ensures
        !c.spec_is_valid(value, randomness, public_key),
{
}

/// Opening non-malleability, deterministic core: an opening whose
/// recomputed product differs from the stored vector is rejected.
pub proof fn lemma_rejects_noncolliding(
    c: Commitment,
    value: MatView,
    randomness: MatView,
    public_key: PublicKey,
)
    requires
        c.spec_com() != spec_recomputed(public_key, value, randomness),
    ensures
        !c.spec_is_valid(value, randomness, public_key),
{
}

/// Shape gate: an opening vector that is not a column vector is rejected.
pub proof fn lemma_non_column_rejected(
    c: Commitment,
    value: MatView,
    randomness: MatView,
    public_key: PublicKey,
)
    requires
        !value.is_column_vector() || !randomness.is_column_vector(),
    ensures
        !c.spec_is_valid(value, randomness, public_key),
{
}

/// Binding, reduced to its deterministic core: two openings accepted by the
/// same commitment recompute the same product vector.
pub proof fn lemma_valid_openings_collide(
    c: Commitment,
    public_key: PublicKey,
    v1: MatView,
    r1: MatView,
    v2: MatView,
    r2: MatView,
)
    requires
        c.spec_is_valid(v1, r1, public_key),
        c.spec_is_valid(v2, r2, public_key),
    ensures
        spec_recomputed(public_key, v1, r1) == spec_recomputed(public_key, v2, r2),
{
}

/// Determinism of verification: the accepted/rejected outcome is a function
/// of the commitment, the opening vectors and the public key alone.
pub proof fn lemma_is_valid_deterministic(
    c1: Commitment,
    c2: Commitment,
    v1: MatView,
    v2: MatView,
    r1: MatView,
    r2: MatView,
    pk1: PublicKey,
    pk2: PublicKey,
)
    requires
        c1 == c2,
        v1 == v2,
        r1 == r2,
        pk1 == pk2,
    ensures
        c1.spec_is_valid(v1, r1, pk1) == c2.spec_is_valid(v2, r2, pk2),
{
}

} // verus!
