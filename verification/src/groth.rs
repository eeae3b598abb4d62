//! Groth vector commitments over a bilinear pairing `e: G1 x G2 -> GT`.
//!
//! A public key holds two length-`n` vectors `g`, `h` of G1 elements and
//! four auxiliary G1 elements `g_s`, `g_r`, `h_s`, `h_r`. A commitment to a
//! vector `m` of `n` G2 elements under blinding elements `r`, `s` is the
//! pair of target-group accumulators
//! `C = prod_i e(g_i, m_i) * e(g_s, r) * e(g_r, s)` and
//! `D = prod_i e(h_i, m_i) * e(h_s, r) * e(h_r, s)`.
//! The vector length is fixed by the public key; a message of any other
//! length is rejected before any pairing is computed.

use vstd::prelude::*;

use substrate_bn::{Fr, G1, G2, Gt};

use crate::pairing::{
    g1_base_mul, g2_base_mul, gt_eq, gt_mul, pairing, random_fr, spec_g2_base_mul, spec_gt_mul,
    spec_pairing,
};
use crate::rng::SecureRng;

verus! {

/// A message: a vector of G2 elements whose length must match the key's.
pub type Message = Vec<G2>;

/// `init` multiplied by the pairings of the first `k` key/message pairs.
pub open spec fn spec_pair_fold(keys: Seq<G1>, ms: Seq<G2>, init: Gt, k: int) -> Gt
    decreases k,
{
    if k <= 0 {
        init
    } else {
        spec_gt_mul(spec_pair_fold(keys, ms, init, k - 1), spec_pairing(keys[k - 1], ms[k - 1]))
    }
}

/// One accumulator of the commitment: the product of the pairings of every
/// key element with its message element and of the two blinding pairings
/// `e(ks, r)` and `e(kr, s)`.
pub open spec fn spec_side(keys: Seq<G1>, ms: Seq<G2>, ks: G1, kr: G1, r: G2, s: G2) -> Gt {
    spec_pair_fold(keys, ms, spec_gt_mul(spec_pairing(ks, r), spec_pairing(kr, s)), ms.len() as int)
}

/// A commitment: the pair of target-group accumulators `(C, D)`.
#[derive(Clone, Copy, PartialEq, Eq)]
pub struct Commitment(Gt, Gt);

/// The message vector and the two blinding G2 elements that produced a
/// commitment, revealed later to open it.
#[derive(Clone)]
pub struct OpeningInfo {
    message: Vec<G2>,
    r: G2,
    s: G2,
}

/// Two length-`n` vectors of G1 elements plus the four auxiliary elements
/// `g_s`, `g_r`, `h_s`, `h_r`, all sampled as random multiples of the G1
/// generator.
#[derive(Clone)]
pub struct PublicKey {
    g: Vec<G1>,
    h: Vec<G1>,
    g_s: G1,
    g_r: G1,
    h_s: G1,
    h_r: G1,
}

impl OpeningInfo {
    pub closed spec fn spec_message(self) -> Seq<G2> {
        self.message@
    }

    pub closed spec fn spec_r(self) -> G2 {
        self.r
    }

    pub closed spec fn spec_s(self) -> G2 {
        self.s
    }

    /// Assemble opening information from a message and two blinding
    /// elements.
    pub fn new(message: Message, r: G2, s: G2) -> (res: Self)
        ensures
            res.spec_message() == message@,
            res.spec_r() == r,
            res.spec_s() == s,
    {
        OpeningInfo { message, r, s }
    }

    pub fn message(&self) -> (res: &Message)
        ensures
            res@ == self.spec_message(),
    {
        &self.message
    }

    pub fn r(&self) -> (res: G2)
        ensures
            res == self.spec_r(),
    {
        self.r
    }

    pub fn s(&self) -> (res: G2)
        ensures
            res == self.spec_s(),
    {
        self.s
    }
}

impl PublicKey {
    pub closed spec fn spec_g(self) -> Seq<G1> {
        self.g@
    }

    pub closed spec fn spec_h(self) -> Seq<G1> {
        self.h@
    }

    pub closed spec fn spec_g_s(self) -> G1 {
        self.g_s
    }

    pub closed spec fn spec_g_r(self) -> G1 {
        self.g_r
    }

    pub closed spec fn spec_h_s(self) -> G1 {
        self.h_s
    }

    pub closed spec fn spec_h_r(self) -> G1 {
        self.h_r
    }

    /// Both key vectors carry the construction-time vector length.
    pub open spec fn wf(self) -> bool {
        self.spec_g().len() == self.spec_h().len()
    }

    /// The vector length this key was built for.
    pub open spec fn spec_len(self) -> int {
        self.spec_g().len() as int
    }

    /// Sample a key for vectors of length `n`: all of `g`, `h` and the four
    /// auxiliary elements are fresh random multiples of the G1 generator.
    #[verifier::loop_isolation(false)]
    pub fn random(n: usize, rng: &mut SecureRng) -> (res: Self)
        ensures
            res.wf(),
            res.spec_len() == n,
    {
        let mut g: Vec<G1> = Vec::new();
        let mut h: Vec<G1> = Vec::new();
        let mut i: usize = 0;
        while i < n
            invariant
                i <= n,
                g@.len() == i,
                h@.len() == i,
            decreases n - i,
        {
            let fg = random_fr(rng);
            g.push(g1_base_mul(&fg));
            let fh = random_fr(rng);
            h.push(g1_base_mul(&fh));
            i = i + 1;
        }
        let f1 = random_fr(rng);
        let g_s = g1_base_mul(&f1);
        let f2 = random_fr(rng);
        let g_r = g1_base_mul(&f2);
        let f3 = random_fr(rng);
        let h_s = g1_base_mul(&f3);
        let f4 = random_fr(rng);
        let h_r = g1_base_mul(&f4);
        PublicKey { g, h, g_s, g_r, h_s, h_r }
    }

    pub fn len(&self) -> (res: usize)
        ensures
            res == self.spec_len(),
    {
        self.g.len()
    }
}

impl Commitment {
    pub closed spec fn spec_c(self) -> Gt {
        self.0
    }

    pub closed spec fn spec_d(self) -> Gt {
        self.1
    }

    /// An opening is accepted exactly when its message has the key's length
    /// and it recomputes both accumulators.
    pub open spec fn spec_is_valid(self, public_key: PublicKey, opening_info: OpeningInfo)
        -> bool {
        &&& opening_info.spec_message().len() == public_key.spec_len()
        &&& self.spec_c() == spec_side(
            public_key.spec_g(),
            opening_info.spec_message(),
            public_key.spec_g_s(),
            public_key.spec_g_r(),
            opening_info.spec_r(),
            opening_info.spec_s(),
        )
        &&& self.spec_d() == spec_side(
            public_key.spec_h(),
            opening_info.spec_message(),
            public_key.spec_h_s(),
            public_key.spec_h_r(),
            opening_info.spec_r(),
            opening_info.spec_s(),
        )
    }

    /// One accumulator: the running product of pairings seeded with the two
    /// blinding pairings.
    #[verifier::loop_isolation(false)]
    fn compute_side(keys: &Vec<G1>, ms: &Vec<G2>, ks: &G1, kr: &G1, r: &G2, s: &G2) -> (res: Gt)
        requires
            keys@.len() == ms@.len(),
        ensures
            res == spec_side(keys@, ms@, *ks, *kr, *r, *s),
    {
        let p1 = pairing(ks, r);
        let p2 = pairing(kr, s);
        let mut acc = gt_mul(&p1, &p2);
        let mut i: usize = 0;
        while i < keys.len()
            invariant
                i <= keys@.len(),
                acc == spec_pair_fold(
                    keys@,
                    ms@,
                    spec_gt_mul(spec_pairing(*ks, *r), spec_pairing(*kr, *s)),
                    i as int,
                ),
            decreases keys@.len() - i,
        {
            let p = pairing(&keys[i], &ms[i]);
            acc = gt_mul(&acc, &p);
            i = i + 1;
        }
        acc
    }

    /// Both accumulators of the commitment to `message` under blinding
    /// elements `r` and `s`.
    fn compute_inner(message: &Vec<G2>, public_key: &PublicKey, r: &G2, s: &G2) -> (res:
        Commitment)
        requires
            public_key.wf(),
            message@.len() == public_key.spec_len(),
        ensures
            res.spec_c() == spec_side(
                public_key.spec_g(),
                message@,
                public_key.spec_g_s(),
                public_key.spec_g_r(),
                *r,
                *s,
            ),
            res.spec_d() == spec_side(
                public_key.spec_h(),
                message@,
                public_key.spec_h_s(),
                public_key.spec_h_r(),
                *r,
                *s,
            ),
    {
        let c = Self::compute_side(&public_key.g, message, &public_key.g_s, &public_key.g_r, r, s);
        let d = Self::compute_side(&public_key.h, message, &public_key.h_s, &public_key.h_r, r, s);
        Commitment(c, d)
    }

    /// Commit to `message`: draw two fresh random field elements, map them
    /// through the G2 generator to obtain the blinding elements, and form
    /// both accumulators. Returns `None` exactly when the message length
    /// does not match the key's, before any pairing is computed.
    pub fn create(message: Message, public_key: &PublicKey, rng: &mut SecureRng) -> (res: Option<
        (Commitment, OpeningInfo),
    >)
        requires
            public_key.wf(),
        ensures
            res is Some <==> message@.len() == public_key.spec_len(),
            res is Some ==> res->Some_0.1.spec_message() == message@,
            res is Some ==> res->Some_0.0.spec_is_valid(*public_key, res->Some_0.1),
    {
        if message.len() != public_key.len() {
            return None;
        }
        let fr_r = random_fr(rng);
        let fr_s = random_fr(rng);
        let r = g2_base_mul(&fr_r);
        let s = g2_base_mul(&fr_s);
        let commitment = Self::compute_inner(&message, public_key, &r, &s);
        let opening_info = OpeningInfo { message, r, s };
        Some((commitment, opening_info))
    }

    /// Recompute both accumulators from the opening and compare the pair.
    /// A message of the wrong length is rejected before any pairing is
    /// computed; returning `false` is an expected outcome, not a fault.
    pub fn is_valid(&self, public_key: &PublicKey, opening_info: &OpeningInfo) -> (res: bool)
        requires
            public_key.wf(),
        ensures
            res == self.spec_is_valid(*public_key, *opening_info),
    {
        if opening_info.message.len() != public_key.len() {
            return false;
        }
        let recomputed = Self::compute_inner(
            &opening_info.message,
            public_key,
            &opening_info.r,
            &opening_info.s,
        );
        if !gt_eq(&self.0, &recomputed.0) {
            return false;
        }
        gt_eq(&self.1, &recomputed.1)
    }

    pub fn c(&self) -> (res: Gt)
        ensures
            res == self.spec_c(),
    {
        self.0
    }

    pub fn d(&self) -> (res: Gt)
        ensures
            res == self.spec_d(),
    {
        self.1
    }
}

/// Completeness: any opening of matching length that recomputes both
/// accumulators is accepted, so an honestly created commitment always
/// verifies against its paired opening information.
pub proof fn lemma_completeness(c: Commitment, public_key: PublicKey, opening_info: OpeningInfo)
    requires
        opening_info.spec_message().len() == public_key.spec_len(),
        c.spec_c() == spec_side(
            public_key.spec_g(),
            opening_info.spec_message(),
            public_key.spec_g_s(),
            public_key.spec_g_r(),
            opening_info.spec_r(),
            opening_info.spec_s(),
        ),
        c.spec_d() == spec_side(
            public_key.spec_h(),
            opening_info.spec_message(),
            public_key.spec_h_s(),
            public_key.spec_h_r(),
            opening_info.spec_r(),
            opening_info.spec_s(),
        ),
    ensures
        c.spec_is_valid(public_key, opening_info),
{
}

/// Binding, reduced to its deterministic core: two openings accepted by the
/// same commitment recompute the same pair of accumulators.
pub proof fn lemma_valid_openings_collide(
    c: Commitment,
    public_key: PublicKey,
    o1: OpeningInfo,
    o2: OpeningInfo,
)
    requires
        c.spec_is_valid(public_key, o1),
        c.spec_is_valid(public_key, o2),
    ensures
        spec_side(
            public_key.spec_g(),
            o1.spec_message(),
            public_key.spec_g_s(),
            public_key.spec_g_r(),
            o1.spec_r(),
            o1.spec_s(),
        ) == spec_side(
            public_key.spec_g(),
            o2.spec_message(),
            public_key.spec_g_s(),
            public_key.spec_g_r(),
            o2.spec_r(),
            o2.spec_s(),
        ),
{
}

/// Opening non-malleability, deterministic core: an opening that fails to
/// recompute either accumulator is rejected.
pub proof fn lemma_rejects_noncolliding(
    c: Commitment,
    public_key: PublicKey,
    opening_info: OpeningInfo,
)
    requires
        c.spec_c() != spec_side(
            public_key.spec_g(),
            opening_info.spec_message(),
            public_key.spec_g_s(),
            public_key.spec_g_r(),
            opening_info.spec_r(),
            opening_info.spec_s(),
        ) || c.spec_d() != spec_side(
            public_key.spec_h(),
            opening_info.spec_message(),
            public_key.spec_h_s(),
            public_key.spec_h_r(),
            opening_info.spec_r(),
            opening_info.spec_s(),
        ),
    ensures
        !c.spec_is_valid(public_key, opening_info),
{
}

/// Length agreement: a key built for one vector length accepts no opening
/// whose message was built for another; the mismatch is caught before any
/// pairing enters the comparison.
pub proof fn lemma_length_mismatch_rejected(
    c: Commitment,
    public_key: PublicKey,
    opening_info: OpeningInfo,
)
    requires
        opening_info.spec_message().len() != public_key.spec_len(),
    ensures
        !c.spec_is_valid(public_key, opening_info),
{
}

/// Determinism of verification: the accepted/rejected outcome is a function
/// of the commitment, the public key and the opening alone.
pub proof fn lemma_is_valid_deterministic(
    c1: Commitment,
    c2: Commitment,
    pk1: PublicKey,
    pk2: PublicKey,
    o1: OpeningInfo,
    o2: OpeningInfo,
)
    requires
        c1 == c2,
        pk1 == pk2,
        o1 == o2,
    ensures
        c1.spec_is_valid(pk1, o1) == c2.spec_is_valid(pk2, o2),
{
}

} // verus!
