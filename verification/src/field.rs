//! The prime field GF(p), p = 2^256 - 2^32 - 977, with elements kept in
//! canonical form as four little-endian 64-bit limbs.
use vstd::prelude::*;
use crate::prime::{lemma_invertible_iff_nonzero, lemma_fermat};
use crate::inversion::pow_p_minus_2;
use vstd::arithmetic::power::{pow, lemma_pow_adds, lemma_pow1};
use vstd::arithmetic::div_mod::*;

verus! {

/// The field modulus p = 2^256 - 2^32 - 977.
#[verifier::inline]
pub open spec fn p() -> nat {
    0xFFFFFFFFFFFFFFFFFFFFFFFFFFFFFFFFFFFFFFFFFFFFFFFFFFFFFFFEFFFFFC2Fnat
}

/// Value of four little-endian 64-bit limbs.
pub open spec fn limbs_value(l0: u64, l1: u64, l2: u64, l3: u64) -> nat {
    (l0 + l1 * 0x1_0000_0000_0000_0000 + l2 * 0x1_0000_0000_0000_0000_0000_0000_0000_0000int
        + l3 * 0x1_0000_0000_0000_0000_0000_0000_0000_0000_0000_0000_0000_0000int) as nat
}

/// Addition with carry: `lo + hi * 2^64 == a + b + carry`.
fn adc(a: u64, b: u64, carry: u64) -> (r: (u64, u64))
    requires
        carry <= 1,
    ensures
        r.0 + r.1 * 0x1_0000_0000_0000_0000 == a + b + carry,
        r.1 <= 1,
{
    let t: u128 = a as u128 + b as u128 + carry as u128;
    ((t % 0x1_0000_0000_0000_0000) as u64, (t / 0x1_0000_0000_0000_0000) as u64)
}

/// Subtraction with borrow: `d - out * 2^64 == a - b - borrow`.
fn sbb(a: u64, b: u64, borrow: u64) -> (r: (u64, u64))
    requires
        borrow <= 1,
    ensures
        r.0 - r.1 * 0x1_0000_0000_0000_0000 == a - b - borrow,
        r.1 <= 1,
{
    let t: u128 = 0x1_0000_0000_0000_0000u128 + a as u128 - b as u128 - borrow as u128;
    ((t % 0x1_0000_0000_0000_0000) as u64, (1 - t / 0x1_0000_0000_0000_0000) as u64)
}

/// Multiply and accumulate: `lo + hi * 2^64 == acc + a * b + carry`.
fn mac(acc: u64, a: u64, b: u64, carry: u64) -> (r: (u64, u64))
    ensures
        r.0 + r.1 * 0x1_0000_0000_0000_0000 == acc + a * b + carry,
{
    proof {
        assert(a * b <= 0xFFFF_FFFF_FFFF_FFFE_0000_0000_0000_0001) by (nonlinear_arith)
            requires
                a <= 0xFFFF_FFFF_FFFF_FFFF,
                b <= 0xFFFF_FFFF_FFFF_FFFF,
        ;
    }
    let t: u128 = acc as u128 + (a as u128) * (b as u128) + carry as u128;
    ((t % 0x1_0000_0000_0000_0000) as u64, (t / 0x1_0000_0000_0000_0000) as u64)
}


/// `(x + k * p) % p == x % p`.
pub proof fn lemma_mod_add_multiple(x: int, k: int)
    ensures
        (x + k * p()) % (p() as int) == x % (p() as int),
{
    lemma_mod_multiples_vanish(k, x, p() as int);
    assert(p() * k + x == x + k * p()) by (nonlinear_arith);
}

/// An element of GF(p), held canonically: the limbs' value is below p.
#[derive(Clone, Copy, Debug, PartialEq, Eq, Structural)]
pub struct FieldElement {
    l0: u64,
    l1: u64,
    l2: u64,
    l3: u64,
}

impl View for FieldElement {
    type V = nat;

    /// The element as a residue in `[0, p)`.
    closed spec fn view(&self) -> nat {
        limbs_value(self.l0, self.l1, self.l2, self.l3) % p()
    }
}

/// Selects p's limbs, or zero, and adds them to `s` when `sel` holds;
/// returns the canonical element of value `(s + hi * 2^256) % p` for
/// values below `2p`.
fn reduce_below_2p(s0: u64, s1: u64, s2: u64, s3: u64, hi: u64) -> (r: FieldElement)
    requires
        hi <= 1,
        limbs_value(s0, s1, s2, s3) + hi * 0x1_0000_0000_0000_0000_0000_0000_0000_0000_0000_0000_0000_0000_0000_0000_0000_0000int
            < 2 * p(),
    ensures
        r@ == (limbs_value(s0, s1, s2, s3) + hi * 0x1_0000_0000_0000_0000_0000_0000_0000_0000_0000_0000_0000_0000_0000_0000_0000_0000int) % (p() as int),
{
    let (d0, b) = sbb(s0, 0xFFFF_FFFE_FFFF_FC2F, 0);
    let (d1, b) = sbb(s1, 0xFFFF_FFFF_FFFF_FFFF, b);
    let (d2, b) = sbb(s2, 0xFFFF_FFFF_FFFF_FFFF, b);
    let (d3, b) = sbb(s3, 0xFFFF_FFFF_FFFF_FFFF, b);
    let ghost s = limbs_value(s0, s1, s2, s3) + hi * 0x1_0000_0000_0000_0000_0000_0000_0000_0000_0000_0000_0000_0000_0000_0000_0000_0000int;
    if hi == 1 || b == 0 {
        let r = FieldElement { l0: d0, l1: d1, l2: d2, l3: d3 };
        assert(limbs_value(d0, d1, d2, d3) == s - p());
        proof { lemma_mod_add_multiple(s - p(), 1); lemma_small_mod((s - p()) as nat, p()); }
        r
    } else {
        let r = FieldElement { l0: s0, l1: s1, l2: s2, l3: s3 };
        proof { lemma_small_mod(s as nat, p()); lemma_small_mod(s as nat, p()); }
        r
    }
}

/// Word selection by an all-zero or all-one mask.
proof fn lemma_select_word(a: u64, b: u64, m: u64)
    ensures
        m == 0 ==> a ^ (m & (a ^ b)) == a,
        m == 0xffff_ffff_ffff_ffff ==> a ^ (m & (a ^ b)) == b,
{
    assert(m == 0 ==> a ^ (m & (a ^ b)) == a) by (bit_vector);
    assert(m == 0xffff_ffff_ffff_ffff ==> a ^ (m & (a ^ b)) == b) by (bit_vector);
}

/// The OR of four words is zero exactly when each is.
proof fn lemma_or_zero(a: u64, b: u64, c: u64, d: u64)
    ensures
        (a | b | c | d) == 0 <==> (a == 0 && b == 0 && c == 0 && d == 0),
{
    assert((a | b | c | d) == 0 <==> (a == 0 && b == 0 && c == 0 && d == 0)) by (bit_vector);
}

impl FieldElement {
    #[verifier::type_invariant]
    spec fn canonical(self) -> bool {
        limbs_value(self.l0, self.l1, self.l2, self.l3) < p()
    }

    /// Every element is a residue below p.
    pub proof fn lemma_view_bound(self)
        ensures
            self@ < p(),
    {
        lemma_mod_bound(limbs_value(self.l0, self.l1, self.l2, self.l3) as int, p() as int);
    }

    /// Every element is its own residue.
    pub proof fn lemma_view_reduced(self)
        ensures
            self@ as int == (self@ as int) % (p() as int),
    {
        self.lemma_view_bound();
        lemma_small_mod(self@, p());
    }

    /// The additive identity.
    pub fn zero() -> (r: Self)
        ensures
            r@ == 0,
    {
        FieldElement { l0: 0, l1: 0, l2: 0, l3: 0 }
    }

    /// The multiplicative identity.
    pub fn one() -> (r: Self)
        ensures
            r@ == 1,
    {
        FieldElement { l0: 1, l1: 0, l2: 0, l3: 0 }
    }

    /// Returns `self + rhs`.
    pub fn add(&self, rhs: &Self) -> (r: Self)
        ensures
            r@ == (self@ + rhs@) % p(),
    {
        proof {
            use_type_invariant(self);
            use_type_invariant(rhs);
        }
        let (s0, c) = adc(self.l0, rhs.l0, 0);
        let (s1, c) = adc(self.l1, rhs.l1, c);
        let (s2, c) = adc(self.l2, rhs.l2, c);
        let (s3, c) = adc(self.l3, rhs.l3, c);
        proof {
            lemma_small_mod(limbs_value(self.l0, self.l1, self.l2, self.l3), p());
            lemma_small_mod(limbs_value(rhs.l0, rhs.l1, rhs.l2, rhs.l3), p());
        }
        reduce_below_2p(s0, s1, s2, s3, c)
    }
}


/// Value of eight little-endian 64-bit limbs.
pub open spec fn wide_value(w: (u64, u64, u64, u64, u64, u64, u64, u64)) -> nat {
    limbs_value(w.0, w.1, w.2, w.3) + limbs_value(w.4, w.5, w.6, w.7) * 0x1_0000_0000_0000_0000_0000_0000_0000_0000_0000_0000_0000_0000_0000_0000_0000_0000nat
}

/// Distribution of a multiplier over the limbs of a four-limb value.
proof fn lemma_distribute4(a0: int, a1: int, a2: int, a3: int, b: int)
    ensures
        (a0 + a1 * 0x1_0000_0000_0000_0000 + a2 * 0x1_0000_0000_0000_0000_0000_0000_0000_0000int + a3 * 0x1_0000_0000_0000_0000_0000_0000_0000_0000_0000_0000_0000_0000int) * b
            == a0 * b + (a1 * b) * 0x1_0000_0000_0000_0000 + (a2 * b) * 0x1_0000_0000_0000_0000_0000_0000_0000_0000int + (a3 * b) * 0x1_0000_0000_0000_0000_0000_0000_0000_0000_0000_0000_0000_0000int,
{
    assert((a0 + a1 * 0x1_0000_0000_0000_0000 + a2 * 0x1_0000_0000_0000_0000_0000_0000_0000_0000int) * b
        == a0 * b + (a1 * b) * 0x1_0000_0000_0000_0000 + (a2 * b) * 0x1_0000_0000_0000_0000_0000_0000_0000_0000int) by (nonlinear_arith);
    assert((a3 * 0x1_0000_0000_0000_0000_0000_0000_0000_0000_0000_0000_0000_0000int) * b == (a3 * b) * 0x1_0000_0000_0000_0000_0000_0000_0000_0000_0000_0000_0000_0000int) by (nonlinear_arith);
    vstd::arithmetic::mul::lemma_mul_is_distributive_add_other_way(b, a0 + a1 * 0x1_0000_0000_0000_0000 + a2 * 0x1_0000_0000_0000_0000_0000_0000_0000_0000int, a3 * 0x1_0000_0000_0000_0000_0000_0000_0000_0000_0000_0000_0000_0000int);
}

/// One row of schoolbook multiplication: `r + a * b` as five limbs.
fn mul_row(r0: u64, r1: u64, r2: u64, r3: u64, a0: u64, a1: u64, a2: u64, a3: u64, b: u64)
    -> (o: (u64, u64, u64, u64, u64))
    ensures
        limbs_value(o.0, o.1, o.2, o.3) + o.4 * 0x1_0000_0000_0000_0000_0000_0000_0000_0000_0000_0000_0000_0000_0000_0000_0000_0000int
            == limbs_value(r0, r1, r2, r3) + limbs_value(a0, a1, a2, a3) * b,
{
    let (s0, c) = mac(r0, a0, b, 0);
    let (s1, c) = mac(r1, a1, b, c);
    let (s2, c) = mac(r2, a2, b, c);
    let (s3, s4) = mac(r3, a3, b, c);
    proof {
        lemma_distribute4(a0 as int, a1 as int, a2 as int, a3 as int, b as int);
    }
    (s0, s1, s2, s3, s4)
}

/// Full 512-bit product of two four-limb numbers.
fn mul_wide(a0: u64, a1: u64, a2: u64, a3: u64, b0: u64, b1: u64, b2: u64, b3: u64)
    -> (w: (u64, u64, u64, u64, u64, u64, u64, u64))
    ensures
        wide_value(w) == limbs_value(a0, a1, a2, a3) * limbs_value(b0, b1, b2, b3),
{
    let ghost a = limbs_value(a0, a1, a2, a3) as int;
    let (r0, r1, r2, r3, r4) = mul_row(0, 0, 0, 0, a0, a1, a2, a3, b0);
    assert(r0 + limbs_value(r1, r2, r3, r4) * 0x1_0000_0000_0000_0000 == a * b0);
    let (r1, r2, r3, r4, r5) = mul_row(r1, r2, r3, r4, a0, a1, a2, a3, b1);
    assert(r0 + r1 * 0x1_0000_0000_0000_0000 + limbs_value(r2, r3, r4, r5) * 0x1_0000_0000_0000_0000_0000_0000_0000_0000int
        == a * b0 + (a * b1) * 0x1_0000_0000_0000_0000);
    let (r2, r3, r4, r5, r6) = mul_row(r2, r3, r4, r5, a0, a1, a2, a3, b2);
    assert(r0 + r1 * 0x1_0000_0000_0000_0000 + r2 * 0x1_0000_0000_0000_0000_0000_0000_0000_0000int
        + limbs_value(r3, r4, r5, r6) * 0x1_0000_0000_0000_0000_0000_0000_0000_0000_0000_0000_0000_0000int
        == a * b0 + (a * b1) * 0x1_0000_0000_0000_0000 + (a * b2) * 0x1_0000_0000_0000_0000_0000_0000_0000_0000int);
    let (r3, r4, r5, r6, r7) = mul_row(r3, r4, r5, r6, a0, a1, a2, a3, b3);
    proof {
        lemma_distribute4(b0 as int, b1 as int, b2 as int, b3 as int, a);
        let b = limbs_value(b0, b1, b2, b3) as int;
        assert(b == b0 + b1 * 0x1_0000_0000_0000_0000 + b2 * 0x1_0000_0000_0000_0000_0000_0000_0000_0000int + b3 * 0x1_0000_0000_0000_0000_0000_0000_0000_0000_0000_0000_0000_0000int);
        assert(b * a == a * b);
        assert(limbs_value(a0, a1, a2, a3) * limbs_value(b0, b1, b2, b3) == a * b);
        vstd::arithmetic::mul::lemma_mul_is_commutative(a, b0 as int);
        vstd::arithmetic::mul::lemma_mul_is_commutative(a, b1 as int);
        vstd::arithmetic::mul::lemma_mul_is_commutative(a, b2 as int);
        vstd::arithmetic::mul::lemma_mul_is_commutative(a, b3 as int);
        assert(a * b == a * b0 + (a * b1) * 0x1_0000_0000_0000_0000 + (a * b2) * 0x1_0000_0000_0000_0000_0000_0000_0000_0000int + (a * b3) * 0x1_0000_0000_0000_0000_0000_0000_0000_0000_0000_0000_0000_0000int);
        assert(wide_value((r0, r1, r2, r3, r4, r5, r6, r7))
            == a * b0 + (a * b1) * 0x1_0000_0000_0000_0000 + (a * b2) * 0x1_0000_0000_0000_0000_0000_0000_0000_0000int + (a * b3) * 0x1_0000_0000_0000_0000_0000_0000_0000_0000_0000_0000_0000_0000int);
    }
    (r0, r1, r2, r3, r4, r5, r6, r7)
}

/// Reduces a 512-bit value modulo p, using `2^256 == 0x1000003D1 (mod p)`.
fn reduce_wide(w: (u64, u64, u64, u64, u64, u64, u64, u64)) -> (r: FieldElement)
    ensures
        r@ == wide_value(w) % p(),
{
    let (t0, k) = mac(w.0, w.4, 0x1000003D1, 0);
    let (t1, k) = mac(w.1, w.5, 0x1000003D1, k);
    let (t2, k) = mac(w.2, w.6, 0x1000003D1, k);
    let (t3, t4) = mac(w.3, w.7, 0x1000003D1, k);
    let ghost h = limbs_value(w.4, w.5, w.6, w.7) as int;
    let ghost t = limbs_value(t0, t1, t2, t3) + t4 * 0x1_0000_0000_0000_0000_0000_0000_0000_0000_0000_0000_0000_0000_0000_0000_0000_0000int;
    assert(t == limbs_value(w.0, w.1, w.2, w.3) + h * 0x1000003D1);
    assert(t4 <= 0x1000003D1);

    let (u0, k) = mac(t0, t4, 0x1000003D1, 0);
    let (u1, k1) = adc(t1, k, 0);
    let (u2, k2) = adc(t2, 0, k1);
    let (u3, k3) = adc(t3, 0, k2);
    let ghost u = limbs_value(u0, u1, u2, u3) + k3 * 0x1_0000_0000_0000_0000_0000_0000_0000_0000_0000_0000_0000_0000_0000_0000_0000_0000int;
    assert(u == limbs_value(t0, t1, t2, t3) + t4 * 0x1000003D1);

    let (v0, m) = mac(u0, k3, 0x1000003D1, 0);
    let (v1, m1) = adc(u1, m, 0);
    let (v2, m2) = adc(u2, 0, m1);
    let (v3, m3) = adc(u3, 0, m2);
    let ghost v = limbs_value(v0, v1, v2, v3) + m3 * 0x1_0000_0000_0000_0000_0000_0000_0000_0000_0000_0000_0000_0000_0000_0000_0000_0000int;
    assert(v == limbs_value(u0, u1, u2, u3) + k3 * 0x1000003D1);
    assert(m3 == 0);
    proof {
        assert(wide_value(w) == v + (h + t4 + k3) * p());
        lemma_mod_add_multiple(v, h + t4 + k3);
    }
    reduce_below_2p(v0, v1, v2, v3, 0)
}

impl FieldElement {
    /// Returns `self - rhs`.
    pub fn sub(&self, rhs: &Self) -> (r: Self)
        ensures
            r@ == (self@ - rhs@) % (p() as int),
    {
        proof {
            use_type_invariant(self);
            use_type_invariant(rhs);
            lemma_small_mod(limbs_value(self.l0, self.l1, self.l2, self.l3), p());
            lemma_small_mod(limbs_value(rhs.l0, rhs.l1, rhs.l2, rhs.l3), p());
        }
        let ghost d = self@ - rhs@;
        let (d0, b) = sbb(self.l0, rhs.l0, 0);
        let (d1, b) = sbb(self.l1, rhs.l1, b);
        let (d2, b) = sbb(self.l2, rhs.l2, b);
        let (d3, b) = sbb(self.l3, rhs.l3, b);
        assert(limbs_value(d0, d1, d2, d3) - b * 0x1_0000_0000_0000_0000_0000_0000_0000_0000_0000_0000_0000_0000_0000_0000_0000_0000int == d);
        if b == 0 {
            proof { lemma_small_mod(d as nat, p()); }
            FieldElement { l0: d0, l1: d1, l2: d2, l3: d3 }
        } else {
            let (e0, c) = adc(d0, 0xFFFF_FFFE_FFFF_FC2F, 0);
            let (e1, c) = adc(d1, 0xFFFF_FFFF_FFFF_FFFF, c);
            let (e2, c) = adc(d2, 0xFFFF_FFFF_FFFF_FFFF, c);
            let (e3, c) = adc(d3, 0xFFFF_FFFF_FFFF_FFFF, c);
            assert(limbs_value(e0, e1, e2, e3) == d + p());
            proof {
                lemma_mod_add_multiple(d, 1);
                lemma_small_mod((d + p()) as nat, p());
            }
            FieldElement { l0: e0, l1: e1, l2: e2, l3: e3 }
        }
    }

    /// Returns `-self`.
    pub fn negate(&self) -> (r: Self)
        ensures
            r@ == (- self@) % (p() as int),
    {
        Self::zero().sub(self)
    }

    /// Returns `2 * self`.
    pub fn double(&self) -> (r: Self)
        ensures
            r@ == (2 * self@) % p(),
    {
        self.add(self)
    }

    /// Returns `self * rhs`.
    pub fn mul(&self, rhs: &Self) -> (r: Self)
        ensures
            r@ == (self@ * rhs@) % p(),
    {
        proof {
            use_type_invariant(self);
            use_type_invariant(rhs);
            lemma_small_mod(limbs_value(self.l0, self.l1, self.l2, self.l3), p());
            lemma_small_mod(limbs_value(rhs.l0, rhs.l1, rhs.l2, rhs.l3), p());
        }
        let w = mul_wide(self.l0, self.l1, self.l2, self.l3, rhs.l0, rhs.l1, rhs.l2, rhs.l3);
        reduce_wide(w)
    }

    /// Returns `self * self`.
    pub fn square(&self) -> (r: Self)
        ensures
            r@ == (self@ * self@) % p(),
    {
        self.mul(self)
    }

    /// The element whose value is the integer `v`.
    pub fn from_u64(v: u64) -> (r: Self)
        ensures
            r@ == v,
    {
        let r = FieldElement { l0: v, l1: 0, l2: 0, l3: 0 };
        proof { lemma_small_mod(v as nat, p()); }
        r
    }

    /// Returns `self * rhs` for a small integer `rhs`.
    pub fn mul_single(&self, rhs: u32) -> (r: Self)
        ensures
            r@ == (self@ * (rhs as nat)) % p(),
    {
        self.mul(&Self::from_u64(rhs as u64))
    }

    /// Whether this element is zero.
    pub fn is_zero(&self) -> (r: bool)
        ensures
            r == (self@ == 0),
    {
        proof {
            use_type_invariant(self);
            lemma_small_mod(limbs_value(self.l0, self.l1, self.l2, self.l3), p());
        }
        let any = self.l0 | self.l1 | self.l2 | self.l3;
        proof {
            lemma_or_zero(self.l0, self.l1, self.l2, self.l3);
        }
        any == 0
    }

    /// Returns `b` when `choice` holds, and `a` otherwise, without branching
    /// on `choice`.
    pub fn conditional_select(a: &Self, b: &Self, choice: bool) -> (r: Self)
        ensures
            r@ == (if choice { b@ } else { a@ }),
    {
        proof {
            use_type_invariant(a);
            use_type_invariant(b);
        }
        let mask: u64 = (choice as u64) * 0xffff_ffff_ffff_ffff;
        proof {
            lemma_select_word(a.l0, b.l0, mask);
            lemma_select_word(a.l1, b.l1, mask);
            lemma_select_word(a.l2, b.l2, mask);
            lemma_select_word(a.l3, b.l3, mask);
        }
        FieldElement {
            l0: a.l0 ^ (mask & (a.l0 ^ b.l0)),
            l1: a.l1 ^ (mask & (a.l1 ^ b.l1)),
            l2: a.l2 ^ (mask & (a.l2 ^ b.l2)),
            l3: a.l3 ^ (mask & (a.l3 ^ b.l3)),
        }
    }

    /// Equality of two elements.
    pub fn equals(&self, rhs: &Self) -> (r: bool)
        ensures
            r == (self@ == rhs@),
    {
        let d = self.sub(rhs);
        proof {
            self.lemma_view_bound();
            rhs.lemma_view_bound();
            if self@ != rhs@ {
                if self@ > rhs@ {
                    lemma_small_mod((self@ - rhs@) as nat, p());
                } else {
                    lemma_mod_add_multiple(self@ - rhs@, 1);
                    lemma_small_mod((self@ - rhs@ + p()) as nat, p());
                }
            }
        }
        d.is_zero()
    }
}

/// A 256-bit unsigned integer as four little-endian limbs, with no bound.
#[derive(Clone, Copy)]
struct Uint256 {
    l0: u64,
    l1: u64,
    l2: u64,
    l3: u64,
}

impl Uint256 {
    spec fn value(self) -> nat {
        limbs_value(self.l0, self.l1, self.l2, self.l3)
    }

    fn is_zero(&self) -> (r: bool)
        ensures
            r == (self.value() == 0),
    {
        self.l0 == 0 && self.l1 == 0 && self.l2 == 0 && self.l3 == 0
    }


    fn is_even(&self) -> (r: bool)
        ensures
            r == (self.value() % 2 == 0),
    {
        self.l0 % 2 == 0
    }

    fn half(&self) -> (r: Self)
        ensures
            r.value() == self.value() / 2,
    {
        Uint256 {
            l0: self.l0 / 2 + (self.l1 % 2) * 0x8000_0000_0000_0000,
            l1: self.l1 / 2 + (self.l2 % 2) * 0x8000_0000_0000_0000,
            l2: self.l2 / 2 + (self.l3 % 2) * 0x8000_0000_0000_0000,
            l3: self.l3 / 2,
        }
    }

    /// Returns `self - rhs` when `rhs <= self`, with `borrow` telling
    /// whether `rhs > self`.
    fn sub(&self, rhs: &Self) -> (r: (Self, u64))
        ensures
            r.0.value() - r.1 * 0x1_0000_0000_0000_0000_0000_0000_0000_0000_0000_0000_0000_0000_0000_0000_0000_0000int == self.value() - rhs.value(),
            r.1 == 0 <==> rhs.value() <= self.value(),
    {
        let (d0, b) = sbb(self.l0, rhs.l0, 0);
        let (d1, b) = sbb(self.l1, rhs.l1, b);
        let (d2, b) = sbb(self.l2, rhs.l2, b);
        let (d3, b) = sbb(self.l3, rhs.l3, b);
        (Uint256 { l0: d0, l1: d1, l2: d2, l3: d3 }, b)
    }
}





/// Whether `a` has a multiplicative inverse modulo p.
pub open spec fn is_invertible(a: nat) -> bool {
    exists|w: nat| #[trigger] ((a * w) % p()) == 1
}

/// The inverse of an invertible `a`: the `w` below p with `a w == 1`.
pub open spec fn inverse(a: nat) -> nat {
    choose|w: nat| w < p() && #[trigger] ((a * w) % p()) == 1
}

/// Inverses are unique.
pub proof fn lemma_inverse_unique(a: nat, w: nat)
    requires
        w < p(),
        (a * w) % p() == 1,
    ensures
        w == inverse(a),
        inverse(a) < p(),
        (a * inverse(a)) % p() == 1,
{
    let v = inverse(a);
    assert(v < p() && (a * v) % p() == 1);
    let pi = p() as int;
    let (ai, wi, vi) = (a as int, w as int, v as int);
    assert(wi * (ai * vi) == (ai * wi) * vi) by (nonlinear_arith);
    lemma_mul_mod_noop_right(wi, ai * vi, pi);
    lemma_mul_mod_noop_left(ai * wi, vi, pi);
    lemma_small_mod(w, p());
    lemma_small_mod(v, p());
}

/// An invertible element has its inverse below p.
pub proof fn lemma_inverse_of_invertible(a: nat)
    requires
        is_invertible(a),
    ensures
        inverse(a) < p(),
        (a * inverse(a)) % p() == 1,
{
    let w = choose|w: nat| #[trigger] ((a * w) % p()) == 1;
    lemma_mod_bound(w as int, p() as int);
    lemma_mul_mod_noop_right(a as int, w as int, p() as int);
    lemma_inverse_unique(a, (w % p()) as nat);
}




impl FieldElement {
    /// Returns `self / 2`, the element `h` with `2h == self`.
    #[verifier::rlimit(40)]
    fn half(&self) -> (r: Self)
        ensures
            (2 * r@) % p() == self@,
    {
        proof {
            use_type_invariant(self);
            lemma_small_mod(limbs_value(self.l0, self.l1, self.l2, self.l3), p());
        }
        let x = Uint256 { l0: self.l0, l1: self.l1, l2: self.l2, l3: self.l3 };
        let ghost xv = x.value() as int;
        assert(xv == self@);
        let h = x.half();
        let ghost hv = h.value() as int;
        if x.is_even() {
            assert(2 * hv == xv);
            let r = FieldElement { l0: h.l0, l1: h.l1, l2: h.l2, l3: h.l3 };
            proof {
                lemma_small_mod(hv as nat, p());
                lemma_small_mod(xv as nat, p());
            }
            r
        } else {
            assert(2 * hv + 1 == xv);
            // (p + 1) / 2
            let (s0, c) = adc(h.l0, 0xFFFF_FFFF_7FFF_FE18, 0);
            let (s1, c) = adc(h.l1, 0xFFFF_FFFF_FFFF_FFFF, c);
            let (s2, c) = adc(h.l2, 0xFFFF_FFFF_FFFF_FFFF, c);
            let (s3, c) = adc(h.l3, 0x7FFF_FFFF_FFFF_FFFF, c);
            let ghost sv = limbs_value(s0, s1, s2, s3) as int;
            assert(sv + c * 0x1_0000_0000_0000_0000_0000_0000_0000_0000_0000_0000_0000_0000_0000_0000_0000_0000int == hv + (p() + 1) / 2);
            assert(c == 0);
            assert(sv < p());
            let r = FieldElement { l0: s0, l1: s1, l2: s2, l3: s3 };
            proof {
                lemma_small_mod(sv as nat, p());
                assert(2 * sv == xv + p());
                lemma_mod_add_multiple(xv, 1);
                lemma_small_mod(xv as nat, p());
            }
            r
        }
    }

    /// Returns the multiplicative inverse of `self`, computed as `self^(p-2)`
    /// by the same operations for every element, or `None` for zero.
    pub fn invert(&self) -> (r: Option<Self>)
        ensures
            r is Some <==> is_invertible(self@),
            r is Some <==> self@ != 0,
            r matches Some(w) ==> (self@ * w@) % p() == 1 && w@ == inverse(self@),
    {
        let w = pow_p_minus_2(self);
        proof {
            use_type_invariant(self);
            self.lemma_view_bound();
            w.lemma_view_bound();
            lemma_invertible_iff_nonzero(self@);
            if self@ != 0 {
                let x = self@ as int;
                let pi = p() as int;
                lemma_small_mod(self@, p());
                lemma_fermat(x);
                lemma_pow_adds(x, (p() - 2) as nat, 1);
                lemma_pow1(x);
                assert(((p() - 2) as nat) + 1 == (p() - 1) as nat);
                lemma_mul_mod_noop_right(x, pow(x, (p() - 2) as nat), pi);
                assert(x * pow(x, (p() - 2) as nat) == pow(x, (p() - 2) as nat) * x) by (nonlinear_arith);
                lemma_inverse_unique(self@, w@);
            }
        }
        if self.is_zero() {
            None
        } else {
            Some(w)
        }
    }
}

/// Big-endian value of the eight bytes of `b` starting at `off`.
pub open spec fn be_word(b: Seq<u8>, off: int) -> int {
    b[off] * 0x100_0000_0000_0000 + b[off + 1] * 0x1_0000_0000_0000 + b[off + 2] * 0x100_0000_0000
        + b[off + 3] * 0x1_0000_0000 + b[off + 4] * 0x100_0000 + b[off + 5] * 0x1_0000
        + b[off + 6] * 0x100 + b[off + 7]
}

/// Big-endian value of 32 bytes.
pub open spec fn be_value(b: Seq<u8>) -> int {
    be_word(b, 0) * 0x1_0000_0000_0000_0000_0000_0000_0000_0000_0000_0000_0000_0000int
        + be_word(b, 8) * 0x1_0000_0000_0000_0000_0000_0000_0000_0000int
        + be_word(b, 16) * 0x1_0000_0000_0000_0000 + be_word(b, 24)
}

/// Splits a word into its eight big-endian bytes.
fn word_to_be(w: u64) -> (r: [u8; 8])
    ensures
        be_word(r@, 0) == w,
{
    let b0 = (w >> 56u64) & 0xff;
    let b1 = (w >> 48u64) & 0xff;
    let b2 = (w >> 40u64) & 0xff;
    let b3 = (w >> 32u64) & 0xff;
    let b4 = (w >> 24u64) & 0xff;
    let b5 = (w >> 16u64) & 0xff;
    let b6 = (w >> 8u64) & 0xff;
    let b7 = w & 0xff;
    proof {
        assert(w == b0 * 0x100_0000_0000_0000 + b1 * 0x1_0000_0000_0000 + b2 * 0x100_0000_0000
            + b3 * 0x1_0000_0000 + b4 * 0x100_0000 + b5 * 0x1_0000 + b6 * 0x100 + b7
            && b0 < 256 && b1 < 256 && b2 < 256 && b3 < 256 && b4 < 256 && b5 < 256
            && b6 < 256 && b7 < 256) by (bit_vector)
            requires
                b0 == (w >> 56u64) & 0xff,
                b1 == (w >> 48u64) & 0xff,
                b2 == (w >> 40u64) & 0xff,
                b3 == (w >> 32u64) & 0xff,
                b4 == (w >> 24u64) & 0xff,
                b5 == (w >> 16u64) & 0xff,
                b6 == (w >> 8u64) & 0xff,
                b7 == w & 0xff,
        ;
    }
    let r = [b0 as u8, b1 as u8, b2 as u8, b3 as u8, b4 as u8, b5 as u8, b6 as u8, b7 as u8];
    assert(r@[0] == b0 && r@[1] == b1 && r@[2] == b2 && r@[3] == b3);
    assert(r@[4] == b4 && r@[5] == b5 && r@[6] == b6 && r@[7] == b7);
    r
}

/// Joins eight big-endian bytes starting at `off` into a word.
fn be_to_word(b: &[u8; 32], off: usize) -> (r: u64)
    requires
        off + 8 <= 32,
    ensures
        r == be_word(b@, off as int),
{
    (b[off] as u64) * 0x100_0000_0000_0000 + (b[off + 1] as u64) * 0x1_0000_0000_0000
        + (b[off + 2] as u64) * 0x100_0000_0000 + (b[off + 3] as u64) * 0x1_0000_0000
        + (b[off + 4] as u64) * 0x100_0000 + (b[off + 5] as u64) * 0x1_0000
        + (b[off + 6] as u64) * 0x100 + (b[off + 7] as u64)
}

impl FieldElement {
    /// The element whose limbs are given, for a value already below p.
    pub(crate) fn from_canonical_limbs(l0: u64, l1: u64, l2: u64, l3: u64) -> (r: Self)
        requires
            limbs_value(l0, l1, l2, l3) < p(),
        ensures
            r@ == limbs_value(l0, l1, l2, l3),
    {
        proof { lemma_small_mod(limbs_value(l0, l1, l2, l3), p()); }
        FieldElement { l0, l1, l2, l3 }
    }

    /// The 32-byte big-endian encoding of this element.
    pub fn to_bytes(&self) -> (r: [u8; 32])
        ensures
            be_value(r@) == self@,
    {
        proof {
            use_type_invariant(self);
            lemma_small_mod(limbs_value(self.l0, self.l1, self.l2, self.l3), p());
        }
        let w3 = word_to_be(self.l3);
        let w2 = word_to_be(self.l2);
        let w1 = word_to_be(self.l1);
        let w0 = word_to_be(self.l0);
        let r = [
            w3[0], w3[1], w3[2], w3[3], w3[4], w3[5], w3[6], w3[7],
            w2[0], w2[1], w2[2], w2[3], w2[4], w2[5], w2[6], w2[7],
            w1[0], w1[1], w1[2], w1[3], w1[4], w1[5], w1[6], w1[7],
            w0[0], w0[1], w0[2], w0[3], w0[4], w0[5], w0[6], w0[7],
        ];
        assert(be_word(r@, 0) == be_word(w3@, 0));
        assert(be_word(r@, 8) == be_word(w2@, 0));
        assert(be_word(r@, 16) == be_word(w1@, 0));
        assert(be_word(r@, 24) == be_word(w0@, 0));
        r
    }

    /// Decodes a 32-byte big-endian encoding; `None` when its value is not
    /// below p.
    pub fn from_bytes(bytes: &[u8; 32]) -> (r: Option<Self>)
        ensures
            r is Some <==> be_value(bytes@) < p(),
            r matches Some(f) ==> f@ == be_value(bytes@),
    {
        let l3 = be_to_word(bytes, 0);
        let l2 = be_to_word(bytes, 8);
        let l1 = be_to_word(bytes, 16);
        let l0 = be_to_word(bytes, 24);
        let x = Uint256 { l0, l1, l2, l3 };
        let m = Uint256 {
            l0: 0xFFFF_FFFE_FFFF_FC2F,
            l1: 0xFFFF_FFFF_FFFF_FFFF,
            l2: 0xFFFF_FFFF_FFFF_FFFF,
            l3: 0xFFFF_FFFF_FFFF_FFFF,
        };
        if x.sub(&m).1 == 1 {
            Some(Self::from_canonical_limbs(l0, l1, l2, l3))
        } else {
            None
        }
    }
}

/// Sums of residues: `(a + b) % p` depends only on the classes of `a` and `b`.
pub proof fn lemma_cong_add(a: int, ea: int, b: int, eb: int)
    requires
        a == ea % (p() as int),
        b == eb % (p() as int),
    ensures
        (a + b) % (p() as int) == (ea + eb) % (p() as int),
{
    lemma_add_mod_noop(ea, eb, p() as int);
}

/// Differences of residues.
pub proof fn lemma_cong_sub(a: int, ea: int, b: int, eb: int)
    requires
        a == ea % (p() as int),
        b == eb % (p() as int),
    ensures
        (a - b) % (p() as int) == (ea - eb) % (p() as int),
{
    lemma_sub_mod_noop(ea, eb, p() as int);
}

/// Products of residues.
pub proof fn lemma_cong_mul(a: int, ea: int, b: int, eb: int)
    requires
        a == ea % (p() as int),
        b == eb % (p() as int),
    ensures
        (a * b) % (p() as int) == (ea * eb) % (p() as int),
{
    lemma_mul_mod_noop(ea, eb, p() as int);
}

/// Negation of a residue.
pub proof fn lemma_cong_neg(a: int, ea: int)
    requires
        a == ea % (p() as int),
    ensures
        (-a) % (p() as int) == (-ea) % (p() as int),
{
    lemma_sub_mod_noop(0, ea, p() as int);
    lemma_small_mod(0, p());
}

impl FieldElement {
    /// Whether the element, as an integer below p, is odd.
    pub fn is_odd(&self) -> (r: bool)
        ensures
            r == (self@ % 2 == 1),
    {
        proof {
            use_type_invariant(self);
            lemma_small_mod(limbs_value(self.l0, self.l1, self.l2, self.l3), p());
        }
        self.l0 % 2 == 1
    }
}

/// Big-endian value of a byte string, byte by byte.
pub open spec fn be_bytes_value(b: Seq<u8>) -> nat
    decreases b.len(),
{
    if b.len() == 0 {
        0
    } else {
        be_bytes_value(b.drop_last()) * 256 + (b.last() as nat)
    }
}

/// One more byte of a prefix.
proof fn lemma_be_prefix_step(b: Seq<u8>, k: int)
    requires
        1 <= k <= b.len(),
    ensures
        be_bytes_value(b.take(k)) == be_bytes_value(b.take(k - 1)) * 256 + (b[k - 1] as nat),
{
    assert(b.take(k).drop_last() =~= b.take(k - 1));
}

/// The byte-by-byte and the word-by-word big-endian values of 32 bytes agree.
pub proof fn lemma_be_values_agree(b: Seq<u8>)
    requires
        b.len() == 32,
    ensures
        be_bytes_value(b) == be_value(b),
{
    assert(b.take(0) =~= Seq::<u8>::empty());
    lemma_be_prefix_step(b, 1);
    lemma_be_prefix_step(b, 2);
    lemma_be_prefix_step(b, 3);
    lemma_be_prefix_step(b, 4);
    lemma_be_prefix_step(b, 5);
    lemma_be_prefix_step(b, 6);
    lemma_be_prefix_step(b, 7);
    lemma_be_prefix_step(b, 8);
    lemma_be_prefix_step(b, 9);
    lemma_be_prefix_step(b, 10);
    lemma_be_prefix_step(b, 11);
    lemma_be_prefix_step(b, 12);
    lemma_be_prefix_step(b, 13);
    lemma_be_prefix_step(b, 14);
    lemma_be_prefix_step(b, 15);
    lemma_be_prefix_step(b, 16);
    lemma_be_prefix_step(b, 17);
    lemma_be_prefix_step(b, 18);
    lemma_be_prefix_step(b, 19);
    lemma_be_prefix_step(b, 20);
    lemma_be_prefix_step(b, 21);
    lemma_be_prefix_step(b, 22);
    lemma_be_prefix_step(b, 23);
    lemma_be_prefix_step(b, 24);
    lemma_be_prefix_step(b, 25);
    lemma_be_prefix_step(b, 26);
    lemma_be_prefix_step(b, 27);
    lemma_be_prefix_step(b, 28);
    lemma_be_prefix_step(b, 29);
    lemma_be_prefix_step(b, 30);
    lemma_be_prefix_step(b, 31);
    lemma_be_prefix_step(b, 32);
    assert(b.take(32) =~= b);
    assert(be_bytes_value(b) == b[0] * 0x100000000000000000000000000000000000000000000000000000000000000int + b[1] * 0x1000000000000000000000000000000000000000000000000000000000000int + b[2] * 0x10000000000000000000000000000000000000000000000000000000000int + b[3] * 0x100000000000000000000000000000000000000000000000000000000int + b[4] * 0x1000000000000000000000000000000000000000000000000000000int + b[5] * 0x10000000000000000000000000000000000000000000000000000int + b[6] * 0x100000000000000000000000000000000000000000000000000int + b[7] * 0x1000000000000000000000000000000000000000000000000int + b[8] * 0x10000000000000000000000000000000000000000000000int + b[9] * 0x100000000000000000000000000000000000000000000int + b[10] * 0x1000000000000000000000000000000000000000000int + b[11] * 0x10000000000000000000000000000000000000000int + b[12] * 0x100000000000000000000000000000000000000int + b[13] * 0x1000000000000000000000000000000000000int + b[14] * 0x10000000000000000000000000000000000int + b[15] * 0x100000000000000000000000000000000int + b[16] * 0x1000000000000000000000000000000int + b[17] * 0x10000000000000000000000000000int + b[18] * 0x100000000000000000000000000int + b[19] * 0x1000000000000000000000000int + b[20] * 0x10000000000000000000000int + b[21] * 0x100000000000000000000int + b[22] * 0x1000000000000000000int + b[23] * 0x10000000000000000int + b[24] * 0x100000000000000int + b[25] * 0x1000000000000int + b[26] * 0x10000000000int + b[27] * 0x100000000int + b[28] * 0x1000000int + b[29] * 0x10000int + b[30] * 0x100int + b[31] * 0x1int);
}

/// Whether 32 big-endian bytes stand for a value below the given bound.
pub fn be_bytes_below(k: &[u8; 32], b0: u64, b1: u64, b2: u64, b3: u64) -> (r: bool)
    ensures
        r == (be_value(k@) < limbs_value(b0, b1, b2, b3)),
{
    let x = Uint256 { l0: be_to_word(k, 24), l1: be_to_word(k, 16), l2: be_to_word(k, 8), l3: be_to_word(k, 0) };
    let m = Uint256 { l0: b0, l1: b1, l2: b2, l3: b3 };
    x.sub(&m).1 == 1
}

} // verus!
