//! SEC1 decoding: points from their compressed and uncompressed encodings,
//! with the square root of `x^3 + 7` taken as `(x^3 + 7)^((p+1)/4)`.
use vstd::prelude::*;
use vstd::arithmetic::power::{pow, lemma_pow_adds, lemma_pow1, lemma_pow_multiplies, lemma_pow_mod_noop};
use vstd::arithmetic::div_mod::{lemma_mul_mod_noop, lemma_mul_mod_noop_left, lemma_small_mod, lemma_mod_twice,
    lemma_mod_bound, lemma_add_mod_noop};
use crate::field::{p, be_value, FieldElement, lemma_cong_mul, lemma_cong_neg, is_invertible};
use crate::prime::{lemma_fermat, lemma_no_cube_root, lemma_nonzero_invertible};
use crate::model::{modp, AffineCoords, on_curve, on_curve_affine, is_sec1_encoding, from_affine_spec};
use crate::group_law::{canonical_affine, lemma_same_x_same_point};
use crate::inversion::pow_p_plus_1_over_4;
use crate::affine::AffinePoint;
use crate::projective::ProjectivePoint;
use crate::complete::lemma_curve_y_nonzero;

verus! {

/// `v` is a square modulo p.
pub open spec fn is_square(v: int) -> bool {
    exists|t: int| #[trigger] ((t * t) % (p() as int)) == v % (p() as int)
}

/// `q` is the finite point of the curve with `x` coordinate `x` whose `y`
/// coordinate has the parity `odd`.
pub open spec fn decompressed(x: int, odd: bool, q: AffineCoords) -> bool {
    &&& !q.2
    &&& q.0 == x
    &&& canonical_affine(q)
    &&& on_curve_affine(q)
    &&& (q.1 % 2 == 1) == odd
}

/// What decoding the SEC1 bytes `e` gives: the identity for `[0]`; for a
/// compressed encoding (tag 2 or 3, then `x`), the point with that `x` and
/// the parity of `y` the tag gives, where `x < p` and `x^3 + 7` is a square;
/// for an uncompressed encoding (tag 4, then `x` and `y`), the point `(x, y)`
/// where both are below p and on the curve; and nothing otherwise.
pub open spec fn sec1_decodes(e: Seq<u8>, r: Option<AffineCoords>) -> bool {
    if e.len() == 1 {
        if e[0] == 0 { r == Some((0int, 0int, true)) } else { r is None }
    } else if e.len() == 33 && (e[0] == 2 || e[0] == 3) {
        let x = be_value(e.subrange(1, 33));
        if x < p() && is_square(x * x * x + 7) {
            r matches Some(q) && decompressed(x, e[0] == 3, q)
        } else {
            r is None
        }
    } else if e.len() == 65 && e[0] == 4 {
        let x = be_value(e.subrange(1, 33));
        let y = be_value(e.subrange(33, 65));
        if x < p() && y < p() && modp(y * y) == modp(x * x * x + 7) {
            r == Some((x, y, false))
        } else {
            r is None
        }
    } else {
        r is None
    }
}

/// The view of an optional point.
pub open spec fn option_view(r: Option<AffinePoint>) -> Option<AffineCoords> {
    match r {
        Some(q) => Some(q@),
        None => None,
    }
}

/// `v^((p+1)/4)` squares to `v` when `v` is a nonzero square.
proof fn lemma_root_power(v: int, t: int)
    requires
        0 < v < p(),
        (t * t) % (p() as int) == v,
    ensures
        ((pow(v, ((p() + 1) / 4) as nat) % (p() as int)) * (pow(v, ((p() + 1) / 4) as nat) % (p() as int)))
            % (p() as int) == v,
{
    let pi = p() as int;
    let e = ((p() + 1) / 4) as nat;
    let y = pow(v, e);
    lemma_mul_mod_noop(y, y, pi);
    lemma_pow_adds(v, e, e);
    // v^(2e) == (t^2)^(2e) == t^(p+1) == t^(p-1) t^2 == t^2
    lemma_pow_mod_noop(t * t, e + e, pi);
    lemma_pow_adds(t, 1, 1);
    lemma_pow1(t);
    lemma_pow_multiplies(t, 2, e + e);
    assert(2 * (e + e) == ((p() - 1) as nat) + 2);
    lemma_pow_adds(t, (p() - 1) as nat, 2);
    if t % pi == 0 {
        lemma_mul_mod_noop_left(t, t, pi);
        lemma_small_mod(0, p());
    }
    lemma_fermat(t);
    lemma_mul_mod_noop_left(pow(t, (p() - 1) as nat), pow(t, 2), pi);
}

/// Two finite points of the curve with the same `x` and the same parity of
/// `y` are the same point.
pub proof fn lemma_same_x_same_parity(a: AffineCoords, b: AffineCoords)
    requires
        canonical_affine(a),
        canonical_affine(b),
        on_curve_affine(a),
        on_curve_affine(b),
        !a.2,
        !b.2,
        a.0 == b.0,
        a.1 % 2 == b.1 % 2,
    ensures
        a == b,
{
    let pi = p() as int;
    lemma_small_mod(1, p());
    assert(on_curve((a.0, a.1, 1int))) by {
        assert(a.1 * a.1 * 1 == a.1 * a.1 && 7 * (1int * 1 * 1) == 7);
    }
    lemma_curve_y_nonzero((a.0, a.1, 1int));
    lemma_small_mod(a.1 as nat, p());
    lemma_mod_bound(a.1 + b.1, pi);
    if modp(a.1 + b.1) != 0 {
        lemma_nonzero_invertible(modp(a.1 + b.1) as nat);
        lemma_same_x_same_point(a, b);
    } else {
        // a.1 + b.1 == p, of which one is odd and the other even
        if a.1 + b.1 < pi {
            lemma_small_mod((a.1 + b.1) as nat, p());
        } else {
            vstd::arithmetic::div_mod::lemma_mod_sub_multiples_vanish(a.1 + b.1, pi);
            lemma_small_mod((a.1 + b.1 - pi) as nat, p());
        }
        assert(a.1 + b.1 == pi);
    }
}

/// Decoding a SEC1 encoding of a point of the curve gives back the point.
pub proof fn lemma_sec1_round_trip(e: Seq<u8>, a: AffineCoords, compress: bool, r: Option<AffineCoords>)
    requires
        canonical_affine(a),
        on_curve_affine(a),
        is_sec1_encoding(e, a, compress),
        sec1_decodes(e, r),
    ensures
        r == Some(a),
{
    if !a.2 && compress {
        let x = a.0;
        lemma_small_mod(a.1 as nat, p());
        assert(((a.1 * a.1) % (p() as int)) == (x * x * x + 7) % (p() as int));
        assert(is_square(x * x * x + 7));
        let q = r->0;
        lemma_same_x_same_parity(q, a);
    }
}

/// 32 bytes of `bytes` from `off`.
fn read_word(bytes: &[u8], off: usize) -> (r: [u8; 32])
    requires
        off + 32 <= bytes@.len(),
    ensures
        r@ == bytes@.subrange(off as int, off as int + 32),
{
    let mut r = [0u8; 32];
    let n = bytes.len();
    let mut i: usize = 0;
    while i < 32
        invariant
            i <= 32,
            n == bytes@.len(),
            off + 32 <= bytes@.len(),
            r@.len() == 32,
            forall|j: int| 0 <= j < i ==> r@[j] == bytes@[off + j],
        decreases 32 - i,
    {
        assert(off + i < bytes@.len());
        r[i] = bytes[off + i];
        i = i + 1;
    }
    assert(r@ =~= bytes@.subrange(off as int, off as int + 32));
    r
}

/// `x^3 + 7` as a field element.
fn curve_rhs(x: &FieldElement) -> (r: FieldElement)
    ensures
        r@ == modp((x@ as int) * (x@ as int) * (x@ as int) + 7),
{
    let ghost pi = p() as int;
    let r = x.square().mul(x).add(&FieldElement::from_u64(7));
    proof {
        x.lemma_view_bound();
        lemma_mul_mod_noop_left((x@ as int) * (x@ as int), (x@ as int), pi);
        lemma_add_mod_noop((x@ as int) * (x@ as int) * (x@ as int), 7, pi);
        lemma_mod_twice((x@ as int) * (x@ as int) * (x@ as int), pi);
        lemma_small_mod(7, p());
    }
    r
}

impl AffinePoint {
    /// The point of the curve with `x` coordinate `x` and a `y` coordinate of
    /// parity `odd`, where `x^3 + 7` is a square; `None` where it is not.
    pub fn decompress(x: &FieldElement, odd: bool) -> (r: Option<AffinePoint>)
        ensures
            r is Some <==> is_square((x@ as int) * (x@ as int) * (x@ as int) + 7),
            r matches Some(q) ==> decompressed(x@ as int, odd, q@),
    {
        let ghost pi = p() as int;
        let rhs = curve_rhs(x);
        let y = pow_p_plus_1_over_4(&rhs);
        let ysq = y.square();
        proof {
            x.lemma_view_bound();
            y.lemma_view_bound();
            rhs.lemma_view_bound();
            lemma_no_cube_root(x@ as int);
            lemma_mod_twice((x@ as int) * (x@ as int) * (x@ as int) + 7, pi);
        }
        if !ysq.equals(&rhs) {
            proof {
                if is_square((x@ as int) * (x@ as int) * (x@ as int) + 7) {
                    let t = choose|t: int| #[trigger] ((t * t) % pi) == ((x@ as int) * (x@ as int) * (x@ as int) + 7) % pi;
                    lemma_root_power(rhs@ as int, t);
                }
            }
            return None;
        }
        proof {
            assert((((y@ as int) * (y@ as int)) % pi) == ((x@ as int) * (x@ as int) * (x@ as int) + 7) % pi);
            assert(is_square((x@ as int) * (x@ as int) * (x@ as int) + 7));
        }
        let ny = y.negate();
        let flip = y.is_odd() != odd;
        let yy = FieldElement::conditional_select(&y, &ny, flip);
        proof {
            let yi = y@ as int;
            if yi == 0 {
                lemma_small_mod(0, p());
                assert(y@ == 0);
                assert(y@ * y@ == 0) by (nonlinear_arith)
                    requires y@ == 0;
                assert(ysq@ == 0);
                assert(false);
            }
            vstd::arithmetic::div_mod::lemma_mod_add_multiples_vanish(-yi, pi);
            lemma_small_mod((pi - yi) as nat, p());
            assert(ny@ == pi - yi);
            lemma_mod_twice(-yi, pi);
            lemma_cong_mul(ny@ as int, -yi, ny@ as int, -yi);
            assert((-yi) * (-yi) == yi * yi) by (nonlinear_arith);
            yy.lemma_view_bound();
        }
        Some(AffinePoint { x: *x, y: yy, infinity: false })
    }

    /// The point of a compressed SEC1 encoding: tag 2 or 3 for the parity of
    /// `y`, then `x`; `None` for any other tag, for `x >= p`, or where no
    /// point of the curve has that `x`.
    pub fn from_bytes(bytes: &[u8; 33]) -> (r: Option<AffinePoint>)
        ensures
            bytes@[0] == 2 || bytes@[0] == 3 ==> sec1_decodes(bytes@, option_view(r)),
            !(bytes@[0] == 2 || bytes@[0] == 3) ==> r is None,
    {
        if bytes[0] == 2 || bytes[0] == 3 {
            Self::from_encoded_point(bytes.as_slice())
        } else {
            None
        }
    }

    /// The point of a SEC1 encoding: `[0]` for the identity, a compressed or
    /// an uncompressed encoding of a point of the curve; `None` otherwise.
    pub fn from_encoded_point(bytes: &[u8]) -> (r: Option<AffinePoint>)
        ensures
            sec1_decodes(bytes@, option_view(r)),
    {
        let n = bytes.len();
        if n == 1 {
            if bytes[0] == 0 {
                Some(AffinePoint::identity())
            } else {
                None
            }
        } else if n == 33 && (bytes[0] == 2 || bytes[0] == 3) {
            let xb = read_word(bytes, 1);
            match FieldElement::from_bytes(&xb) {
                None => None,
                Some(x) => Self::decompress(&x, bytes[0] == 3),
            }
        } else if n == 65 && bytes[0] == 4 {
            let xb = read_word(bytes, 1);
            let yb = read_word(bytes, 33);
            match (FieldElement::from_bytes(&xb), FieldElement::from_bytes(&yb)) {
                (Some(x), Some(y)) => {
                    let rhs = curve_rhs(&x);
                    if y.square().equals(&rhs) {
                        proof {
                            lemma_mod_twice((x@ as int) * (x@ as int) * (x@ as int) + 7, p() as int);
                        }
                        Some(AffinePoint { x, y, infinity: false })
                    } else {
                        proof {
                            lemma_mod_twice((x@ as int) * (x@ as int) * (x@ as int) + 7, p() as int);
                        }
                        None
                    }
                },
                _ => None,
            }
        } else {
            None
        }
    }
}

impl ProjectivePoint {
    /// The point of a compressed SEC1 encoding, as `AffinePoint::from_bytes`
    /// decodes it.
    pub fn from_bytes(bytes: &[u8; 33]) -> (r: Option<ProjectivePoint>)
        ensures
            bytes@[0] == 2 || bytes@[0] == 3 ==> (r is None <==> sec1_decodes(bytes@, None)),
            !(bytes@[0] == 2 || bytes@[0] == 3) ==> r is None,
            r matches Some(q) ==> exists|a: AffineCoords| #[trigger] sec1_decodes(bytes@, Some(a)) && q@ == from_affine_spec(a),
    {
        match AffinePoint::from_bytes(bytes) {
            Some(a) => Some(ProjectivePoint::from(a)),
            None => None,
        }
    }

    /// The point of a SEC1 encoding, as `AffinePoint::from_encoded_point`
    /// decodes it.
    pub fn from_encoded_point(bytes: &[u8]) -> (r: Option<ProjectivePoint>)
        ensures
            r is None <==> sec1_decodes(bytes@, None),
            r matches Some(q) ==> exists|a: AffineCoords| #[trigger] sec1_decodes(bytes@, Some(a)) && q@ == from_affine_spec(a),
    {
        match AffinePoint::from_encoded_point(bytes) {
            Some(a) => Some(ProjectivePoint::from(a)),
            None => None,
        }
    }
}

/// Decoding gives at most one point.
pub proof fn lemma_sec1_decodes_unique(e: Seq<u8>, a: AffineCoords, b: AffineCoords)
    requires
        sec1_decodes(e, Some(a)),
        sec1_decodes(e, Some(b)),
    ensures
        a == b,
{
    if e.len() == 33 && (e[0] == 2 || e[0] == 3) {
        lemma_same_x_same_parity(a, b);
    }
}

/// The compressed encoding of a finite point is 33 bytes: tag 2 when `y` is
/// even and 3 when `y` is odd, whatever `x` is, then `x` in big-endian.
pub proof fn lemma_compressed_encoding(e: Seq<u8>, a: AffineCoords)
    requires
        !a.2,
        is_sec1_encoding(e, a, true),
    ensures
        e.len() == 33,
        a.1 % 2 == 0 ==> e[0] == 2u8,
        a.1 % 2 == 1 ==> e[0] == 3u8,
        be_value(e.subrange(1, 33)) == a.0,
{
}

/// The uncompressed encoding of a finite point is 65 bytes: tag 4, then `x`
/// and `y` in big-endian.
pub proof fn lemma_uncompressed_encoding(e: Seq<u8>, a: AffineCoords)
    requires
        !a.2,
        is_sec1_encoding(e, a, false),
    ensures
        e.len() == 65,
        e[0] == 4u8,
        be_value(e.subrange(1, 33)) == a.0,
        be_value(e.subrange(33, 65)) == a.1,
{
}

/// The encoding of the identity is the single byte 0, compressed or not.
pub proof fn lemma_identity_encoding(e: Seq<u8>, a: AffineCoords, compress: bool)
    requires
        a.2,
        is_sec1_encoding(e, a, compress),
    ensures
        e.len() == 1,
        e[0] == 0u8,
{
}

/// Decoding a compressed encoding gives a point of the curve with the
/// encoded `x` whose `y` has parity `tag - 2`, whatever `x` is.
pub proof fn lemma_decoded_compressed(e: Seq<u8>, q: AffineCoords)
    requires
        e.len() == 33,
        sec1_decodes(e, Some(q)),
    ensures
        e[0] == 2 || e[0] == 3,
        !q.2,
        q.0 == be_value(e.subrange(1, 33)),
        q.1 % 2 == e[0] - 2,
        0 <= q.1 < p(),
        modp(q.1 * q.1) == modp(q.0 * q.0 * q.0 + 7),
{
}

/// Decoding an uncompressed encoding gives the encoded `x` and `y`, a point
/// of the curve.
pub proof fn lemma_decoded_uncompressed(e: Seq<u8>, q: AffineCoords)
    requires
        e.len() == 65,
        sec1_decodes(e, Some(q)),
    ensures
        e[0] == 4,
        q == (be_value(e.subrange(1, 33)), be_value(e.subrange(33, 65)), false),
        modp(q.1 * q.1) == modp(q.0 * q.0 * q.0 + 7),
{
}

} // verus!
