//! Laws of the point arithmetic: how the operations relate to each other and
//! to the group of points of secp256k1.
use vstd::prelude::*;
use crate::field::{p, is_invertible, inverse, lemma_inverse_unique, lemma_inverse_of_invertible, lemma_cong_add, lemma_cong_mul, lemma_cong_neg};
use crate::closure::{lemma_add_curve, lemma_double_curve};
use crate::model::{
    modp, Coords, AffineCoords, add_spec, add_polys, combine, reduce, double_spec, double_polys, neg_spec,
    identity_spec, on_curve, to_affine_spec, from_affine_spec, add_mixed_spec, affine_neg_spec,
    endomorphism_spec, beta, generator_x, generator_y, lemma_identity_double, on_curve_affine, mul_spec, sum_spec,
};

verus! {

/// Coordinates that are residues below p, as every point's coordinates are.
pub open spec fn reduced(a: Coords) -> bool {
    0 <= a.0 < p() && 0 <= a.1 < p() && 0 <= a.2 < p()
}

/// `modp(k * d) == 0` when `modp(d) == 0`.
pub(crate) proof fn lemma_multiple_of_zero(k: int, d: int)
    requires
        modp(d) == 0,
    ensures
        modp(k * d) == 0,
{
    vstd::arithmetic::div_mod::lemma_mul_mod_noop_right(k, d, p() as int);
    vstd::arithmetic::div_mod::lemma_small_mod(0, p());
}

/// Addition is commutative: `P + Q == Q + P`, coordinate for coordinate.
pub proof fn lemma_add_commutative(a: Coords, b: Coords)
    ensures
        add_spec(a, b) == add_spec(b, a),
{
    let (x1, y1, z1) = a;
    let (x2, y2, z2) = b;
    assert(x1 * x2 == x2 * x1 && y1 * y2 == y2 * y1 && z1 * z2 == z2 * z1);
    assert(x1 * y2 + y1 * x2 == x2 * y1 + y2 * x1);
    assert(y1 * z2 + z1 * y2 == y2 * z1 + z2 * y1);
    assert(x1 * z2 + z1 * x2 == x2 * z1 + z2 * x1);
}

/// Adding the identity scales the coordinates by `y`: `P + O == (y x : y y : y z)`.
pub proof fn lemma_add_identity_coords(a: Coords)
    ensures
        add_spec(a, identity_spec()) == reduce((a.1 * a.0, a.1 * a.1, a.1 * a.2)),
{
    let (x, y, z) = a;
    assert(add_polys(a, identity_spec()) == combine(0, y, 0, x, z, 0)) by {
        assert(x * 0 == 0 && y * 1 == y && z * 0 == 0);
        assert(x * 1 + y * 0 == x && y * 0 + z * 1 == z && x * 0 + z * 0 == 0);
    }
    assert(combine(0, y, 0, x, z, 0) == (y * x, y * y, y * z)) by (nonlinear_arith);
}

/// Scaling the coordinates by an invertible `k` keeps the affine point.
pub proof fn lemma_scale_same_point(a: Coords, k: int)
    requires
        reduced(a),
        0 <= k < p(),
        is_invertible(k as nat),
    ensures
        to_affine_spec(reduce((k * a.0, k * a.1, k * a.2))) == to_affine_spec(a),
{
    let (x, y, z) = a;
    let kn = k as nat;
    let zn = z as nat;
    let ik = inverse(kn) as int;
    let kz = modp(k * z);
    lemma_inverse_of_invertible(kn);
    assert(modp(k * ik) == 1);
    vstd::arithmetic::div_mod::lemma_mod_bound(k * z, p() as int);
    if is_invertible(zn) {
        let iz = inverse(zn) as int;
        lemma_inverse_of_invertible(zn);
        // (k z) (ik iz) == (k ik) (z iz) == 1
        let c = modp(ik * iz);
        vstd::arithmetic::div_mod::lemma_mod_bound(ik * iz, p() as int);
        assert((k * z) * (ik * iz) == (k * ik) * (z * iz)) by (nonlinear_arith);
        lemma_mul_both_reduced(k * z, ik * iz);
        lemma_mul_both_reduced(k * ik, z * iz);
        vstd::arithmetic::div_mod::lemma_small_mod(1, p());
        assert(modp(kz * c) == 1);
        lemma_inverse_unique(kz as nat, c as nat);
        assert(is_invertible(kz as nat));
        // x coordinate: (k x) (ik iz) == (k ik) (x iz)
        assert((k * x) * (ik * iz) == (k * ik) * (x * iz)) by (nonlinear_arith);
        lemma_mul_both_reduced(k * x, ik * iz);
        lemma_mul_both_reduced(k * ik, x * iz);
        lemma_mod_idem(x * iz);
        assert((k * y) * (ik * iz) == (k * ik) * (y * iz)) by (nonlinear_arith);
        lemma_mul_both_reduced(k * y, ik * iz);
        lemma_mul_both_reduced(k * ik, y * iz);
        lemma_mod_idem(y * iz);
    } else {
        if is_invertible(kz as nat) {
            let v = choose|v: nat| #[trigger] (((kz as nat) * v) % p()) == 1;
            // z (k v) == (k z) v == 1
            assert(z * (k * v) == (k * z) * v) by (nonlinear_arith);
            vstd::arithmetic::div_mod::lemma_mul_mod_noop_left(k * z, v as int, p() as int);
            vstd::arithmetic::div_mod::lemma_mul_mod_noop_right(z, k * v, p() as int);
            lemma_mod_idem(k * v);
            vstd::arithmetic::div_mod::lemma_mod_bound(k * v, p() as int);
            assert(((zn * (modp(k * v) as nat)) % p()) == 1);
            assert(is_invertible(zn));
        }
    }
}

/// `modp(modp(a) * modp(b)) == modp(a * b)`.
proof fn lemma_mul_both_reduced(a: int, b: int)
    ensures
        modp(modp(a) * modp(b)) == modp(a * b),
{
    vstd::arithmetic::div_mod::lemma_mul_mod_noop(a, b, p() as int);
}

/// `modp(modp(a)) == modp(a)`.
proof fn lemma_mod_idem(a: int)
    ensures
        modp(modp(a)) == modp(a),
{
    vstd::arithmetic::div_mod::lemma_mod_twice(a, p() as int);
}

/// The identity is neutral: `P + O` is the point `P`, for every point whose
/// `y` coordinate is invertible.
pub proof fn lemma_add_identity_right(a: Coords)
    requires
        reduced(a),
        is_invertible(a.1 as nat),
    ensures
        to_affine_spec(add_spec(a, identity_spec())) == to_affine_spec(a),
{
    lemma_add_identity_coords(a);
    lemma_scale_same_point(a, a.1);
}

/// The identity is neutral on the left: `O + P` is the point `P`, for every
/// point whose `y` coordinate is invertible.
pub proof fn lemma_add_identity_left(a: Coords)
    requires
        reduced(a),
        is_invertible(a.1 as nat),
    ensures
        to_affine_spec(add_spec(identity_spec(), a)) == to_affine_spec(a),
{
    lemma_add_commutative(identity_spec(), a);
    lemma_add_identity_right(a);
}

/// Zero has no inverse.
pub proof fn lemma_zero_not_invertible()
    ensures
        !is_invertible(0),
{
    if is_invertible(0) {
        let w = choose|w: nat| #[trigger] ((0 * w) % p()) == 1;
        assert(0 * w == 0);
    }
}

/// A point plus its negation is the identity: `P + (-P) == O`, for every point.
pub proof fn lemma_add_inverse(a: Coords)
    requires
        reduced(a),
    ensures
        add_spec(a, neg_spec(a)).2 == 0,
        to_affine_spec(add_spec(a, neg_spec(a))) == to_affine_spec(identity_spec()),
{
    let (x, y, z) = a;
    let y2 = modp(-y);
    let xx = x * x;
    let yy = y * y2;
    let zz = z * z;
    let xy = x * y2 + y * x;
    let yz = y * z + z * y2;
    // x y2 == -x y and z y2 == -z y modulo p
    lemma_cong_mul(x, x, y2, -y);
    lemma_cong_mul(z, z, y2, -y);
    vstd::arithmetic::div_mod::lemma_small_mod(x as nat, p());
    vstd::arithmetic::div_mod::lemma_small_mod(z as nat, p());
    lemma_cong_add(modp(x * y2), x * (-y), modp(y * x), y * x);
    lemma_mod_idem(x * y2);
    lemma_mod_idem(y * x);
    lemma_cong_add(modp(x * y2), x * y2, modp(y * x), y * x);
    assert(x * (-y) + y * x == 0) by (nonlinear_arith);
    vstd::arithmetic::div_mod::lemma_small_mod(0, p());
    assert(modp(xy) == 0);
    lemma_mod_idem(y * z);
    lemma_mod_idem(z * y2);
    lemma_cong_add(modp(y * z), y * z, modp(z * y2), z * y2);
    lemma_cong_add(modp(y * z), y * z, modp(z * y2), z * (-y));
    assert(y * z + z * (-y) == 0) by (nonlinear_arith);
    assert(modp(yz) == 0);
    let s = yy + 21 * zz;
    lemma_multiple_of_zero(s, yz);
    lemma_multiple_of_zero(3 * xx, xy);
    assert(yz * s == s * yz && (3 * xx) * xy == (3 * xx) * xy);
    lemma_cong_add(modp(yz * s), yz * s, modp((3 * xx) * xy), (3 * xx) * xy);
    lemma_mod_idem(yz * s);
    lemma_mod_idem((3 * xx) * xy);
    assert(add_spec(a, neg_spec(a)).2 == modp(yz * s + (3 * xx) * xy));
    lemma_zero_not_invertible();
}

/// Doubling agrees with adding a point to itself: `P + P == 2P`, coordinate
/// for coordinate, for every point on the curve.
pub proof fn lemma_double_is_add(a: Coords)
    requires
        on_curve(a),
    ensures
        add_spec(a, a) == double_spec(a),
{
    let (x, y, z) = a;
    let d = x * x * x + 7 * (z * z * z) - y * y * z;
    vstd::arithmetic::div_mod::lemma_sub_mod_noop(x * x * x + 7 * (z * z * z), y * y * z, p() as int);
    vstd::arithmetic::div_mod::lemma_small_mod(0, p());
    assert(modp(d) == 0);
    let ap = add_polys(a, a);
    let dp = double_polys(a);
    lemma_double_identities(x, y, z);
    lemma_multiple_of_zero(126 * z, d);
    lemma_multiple_of_zero(6 * y, d);
    lemma_mod_idem(dp.1);
    lemma_mod_idem(dp.2);
    lemma_cong_add(modp(dp.1), dp.1, 0, (126 * z) * d);
    lemma_cong_add(modp(dp.2), dp.2, 0, (6 * y) * d);
    vstd::arithmetic::div_mod::lemma_mod_bound(dp.1, p() as int);
    vstd::arithmetic::div_mod::lemma_mod_bound(dp.2, p() as int);
    lemma_mod_idem(dp.1);
}

/// The polynomial identities between doubling and adding a point to itself.
proof fn lemma_double_identities(x: int, y: int, z: int)
    ensures
        add_polys((x, y, z), (x, y, z)).0 == double_polys((x, y, z)).0,
        add_polys((x, y, z), (x, y, z)).1 == double_polys((x, y, z)).1
            + (126 * z) * (x * x * x + 7 * (z * z * z) - y * y * z),
        add_polys((x, y, z), (x, y, z)).2 == double_polys((x, y, z)).2
            + (6 * y) * (x * x * x + 7 * (z * z * z) - y * y * z),
{
    let xx = x * x;
    let yy = y * y;
    let zz = z * z;
    assert((x * y + y * x) * (yy - 21 * zz) - (21 * (y * z + z * y)) * (x * z + z * x)
        == (2 * (x * y)) * (yy - 63 * zz)) by (nonlinear_arith)
        requires yy == y * y, zz == z * z;
    assert((yy + 21 * zz) * (yy - 21 * zz) + (63 * xx) * (x * z + z * x)
        == yy * yy - 441 * (zz * zz) + 126 * (xx * x * z)) by (nonlinear_arith)
        requires xx == x * x;
    assert((yy - 63 * zz) * (yy + 21 * zz) + 168 * (yy * zz)
        == yy * yy + 126 * (yy * zz) - 1323 * (zz * zz)) by (nonlinear_arith);
    assert((126 * z) * (x * x * x + 7 * (z * z * z) - y * y * z)
        == 126 * (xx * x * z) + 882 * (zz * zz) - 126 * (yy * zz)) by (nonlinear_arith)
        requires xx == x * x, yy == y * y, zz == z * z;
    assert((y * z + z * y) * (yy + 21 * zz) + (3 * xx) * (x * y + y * x)
        == 2 * (yy * y * z) + 42 * (zz * z * y) + 6 * (xx * x * y)) by (nonlinear_arith)
        requires xx == x * x, yy == y * y, zz == z * z;
    assert((6 * y) * (x * x * x + 7 * (z * z * z) - y * y * z)
        == 6 * (xx * x * y) + 42 * (zz * z * y) - 6 * (yy * y * z)) by (nonlinear_arith)
        requires xx == x * x, yy == y * y, zz == z * z;
}

/// Negation is an involution: `-(-P) == P`.
pub proof fn lemma_neg_involutive(a: Coords)
    requires
        reduced(a),
    ensures
        neg_spec(neg_spec(a)) == a,
{
    lemma_cong_neg(modp(-a.1), -a.1);
    lemma_mod_idem(-a.1);
    vstd::arithmetic::div_mod::lemma_small_mod(a.1 as nat, p());
}

/// One has itself as inverse.
proof fn lemma_inverse_one()
    ensures
        is_invertible(1),
        inverse(1) == 1,
{
    vstd::arithmetic::div_mod::lemma_small_mod(1, p());
    assert((1nat * 1nat) % p() == 1);
    lemma_inverse_unique(1, 1);
}

/// An affine point survives the round trip through projective coordinates.
pub proof fn lemma_to_affine_from_affine(b: AffineCoords)
    requires
        0 <= b.0 < p(),
        0 <= b.1 < p(),
        b.2 ==> b.0 == 0 && b.1 == 0,
    ensures
        to_affine_spec(from_affine_spec(b)) == b,
{
    lemma_inverse_one();
    lemma_zero_not_invertible();
    vstd::arithmetic::div_mod::lemma_small_mod(b.0 as nat, p());
    vstd::arithmetic::div_mod::lemma_small_mod(b.1 as nat, p());
    if !b.2 {
        let c = from_affine_spec(b);
        assert(c == (b.0, b.1, 1int));
        assert((c.2 as nat) == 1nat);
        assert(inverse(c.2 as nat) == 1);
        assert(c.0 * inverse(c.2 as nat) == b.0);
        assert(c.1 * inverse(c.2 as nat) == b.1);
    }
}

/// Converting to affine coordinates and back gives the same point.
pub proof fn lemma_from_affine_to_affine(a: Coords)
    ensures
        to_affine_spec(from_affine_spec(to_affine_spec(a))) == to_affine_spec(a),
{
    let c = to_affine_spec(a);
    vstd::arithmetic::div_mod::lemma_mod_bound(a.0 * inverse(a.2 as nat), p() as int);
    vstd::arithmetic::div_mod::lemma_mod_bound(a.1 * inverse(a.2 as nat), p() as int);
    lemma_to_affine_from_affine(c);
}

/// Negation commutes with the passage to affine coordinates.
pub proof fn lemma_to_affine_neg(a: Coords)
    requires
        reduced(a),
    ensures
        to_affine_spec(neg_spec(a)) == affine_neg_spec(to_affine_spec(a)),
{
    let z = a.2 as nat;
    vstd::arithmetic::div_mod::lemma_small_mod(0, p());
    if is_invertible(z) {
        let iz = inverse(z) as int;
        lemma_inverse_of_invertible(z);
        vstd::arithmetic::div_mod::lemma_small_mod(iz as nat, p());
        lemma_cong_mul(modp(-a.1), -a.1, iz, iz);
        lemma_cong_neg(modp(a.1 * iz), a.1 * iz);
        lemma_mod_idem(a.1 * iz);
        assert((-a.1) * iz == -(a.1 * iz)) by (nonlinear_arith);
    }
}

/// Mixed addition agrees with addition of the projective form of the affine
/// point. Where that point is the identity, this needs `y` of `P` to be
/// invertible.
pub proof fn lemma_add_mixed_is_add(a: Coords, b: AffineCoords)
    requires
        reduced(a),
        b.2 ==> is_invertible(a.1 as nat),
    ensures
        to_affine_spec(add_mixed_spec(a, b)) == to_affine_spec(add_spec(a, from_affine_spec(b))),
        !b.2 ==> add_mixed_spec(a, b) == add_spec(a, from_affine_spec(b)),
{
    if b.2 {
        lemma_add_identity_right(a);
    }
}

/// The identity and the base point lie on the curve.
pub proof fn lemma_generator_on_curve()
    ensures
        on_curve(identity_spec()),
        on_curve((generator_x(), generator_y(), 1)),
{
    assert(modp(generator_y() * generator_y() * 1)
        == modp(generator_x() * generator_x() * generator_x() + 7 * (1int * 1 * 1)));
}

/// The endomorphism maps points of the curve to points of the curve, as
/// `β^3 == 1`.
pub proof fn lemma_endomorphism_on_curve(a: Coords)
    requires
        on_curve(a),
    ensures
        on_curve(endomorphism_spec(a)),
{
    let (x, y, z) = a;
    let b = beta();
    assert(modp(b * b * b) == 1);
    let bx = modp(x * b);
    lemma_cong_mul(bx, x * b, bx, x * b);
    lemma_mod_idem(x * b);
    lemma_cong_mul(modp(bx * bx), (x * b) * (x * b), bx, x * b);
    lemma_mod_idem(bx * bx);
    assert(((x * b) * (x * b)) * (x * b) == (x * x * x) * (b * b * b)) by (nonlinear_arith);
    lemma_mul_both_reduced(x * x * x, b * b * b);
    lemma_cong_mul(modp(x * x * x), x * x * x, 1, b * b * b);
    lemma_mod_idem(x * x * x);
    assert(modp(bx * bx * bx) == modp(x * x * x)) by {
        lemma_mul_both_reduced(bx * bx, bx);
        lemma_mod_idem(bx);
    }
    lemma_mod_idem(7 * (z * z * z));
    lemma_cong_add(modp(bx * bx * bx), x * x * x, modp(7 * (z * z * z)), 7 * (z * z * z));
    lemma_cong_add(modp(bx * bx * bx), bx * bx * bx, modp(7 * (z * z * z)), 7 * (z * z * z));
}

/// The curve equation of a point as a zero residue: `x^3 + 7 z^3 - y^2 z`.
proof fn lemma_curve_zero(a: Coords)
    requires
        on_curve(a),
    ensures
        modp((((a.0 * a.0) * a.0) + (7 * ((a.2 * a.2) * a.2))) - ((a.1 * a.1) * a.2)) == 0,
{
    let (x, y, z) = a;
    vstd::arithmetic::div_mod::lemma_sub_mod_noop(x * x * x + 7 * (z * z * z), y * y * z, p() as int);
    vstd::arithmetic::div_mod::lemma_small_mod(0, p());
}

/// Coordinates whose curve equation is a zero residue reduce to a point of
/// the curve.
proof fn lemma_on_curve_reduce(c: Coords)
    requires
        modp((((c.1 * c.1) * c.2) - ((c.0 * c.0) * c.0)) - (7 * ((c.2 * c.2) * c.2))) == 0,
    ensures
        on_curve(reduce(c)),
{
    let pi = p() as int;
    let (x, y, z) = c;
    let (xr, yr, zr) = (modp(x), modp(y), modp(z));
    assert((y * y) * z - ((x * x) * x + 7 * ((z * z) * z)) == (((y * y) * z) - ((x * x) * x)) - (7 * ((z * z) * z)));
    vstd::arithmetic::div_mod::lemma_mod_equivalence(y * y * z, x * x * x + 7 * (z * z * z), pi);
    lemma_mod_idem(x);
    lemma_mod_idem(y);
    lemma_mod_idem(z);
    // y^2 z
    lemma_cong_mul(yr, y, yr, y);
    lemma_mul_both_reduced(y * y, z);
    lemma_mul_both_reduced(yr * yr, zr);
    // x^3
    lemma_cong_mul(xr, x, xr, x);
    lemma_mul_both_reduced(x * x, x);
    lemma_mul_both_reduced(xr * xr, xr);
    // 7 z^3
    lemma_cong_mul(zr, z, zr, z);
    lemma_mul_both_reduced(z * z, z);
    lemma_mul_both_reduced(zr * zr, zr);
    vstd::arithmetic::div_mod::lemma_mul_mod_noop_right(7, zr * zr * zr, pi);
    vstd::arithmetic::div_mod::lemma_mul_mod_noop_right(7, z * z * z, pi);
    lemma_mod_idem(x * x * x);
    lemma_mod_idem(7 * (z * z * z));
    lemma_cong_add(modp(xr * xr * xr), x * x * x, modp(7 * (zr * zr * zr)), 7 * (z * z * z));
    vstd::arithmetic::div_mod::lemma_add_mod_noop(xr * xr * xr, 7 * (zr * zr * zr), pi);
}

/// The sum of two points of the curve is a point of the curve.
pub proof fn lemma_add_on_curve(a: Coords, b: Coords)
    requires
        on_curve(a),
        on_curve(b),
    ensures
        on_curve(add_spec(a, b)),
{
    lemma_curve_zero(a);
    lemma_curve_zero(b);
    lemma_add_curve(a.0, a.1, a.2, b.0, b.1, b.2);
    lemma_on_curve_reduce(add_polys(a, b));
}

/// The double of a point of the curve is a point of the curve.
pub proof fn lemma_double_on_curve(a: Coords)
    requires
        on_curve(a),
    ensures
        on_curve(double_spec(a)),
{
    lemma_curve_zero(a);
    lemma_double_curve(a.0, a.1, a.2);
    lemma_on_curve_reduce(double_polys(a));
}

/// The negation of a point of the curve is a point of the curve.
pub proof fn lemma_neg_on_curve(a: Coords)
    requires
        on_curve(a),
    ensures
        on_curve(neg_spec(a)),
{
    let (x, y, z) = a;
    let ny = modp(-y);
    lemma_cong_mul(ny, -y, ny, -y);
    assert((-y) * (-y) == y * y) by (nonlinear_arith);
    lemma_mod_idem(z);
    lemma_mul_both_reduced(ny * ny, z);
    lemma_mul_both_reduced(y * y, z);
    lemma_mod_idem(ny * ny);
}

/// Adding an affine point of the curve to a point of the curve gives a point
/// of the curve.
pub proof fn lemma_add_mixed_on_curve(a: Coords, b: AffineCoords)
    requires
        on_curve(a),
        on_curve_affine(b),
    ensures
        on_curve(add_mixed_spec(a, b)),
{
    if !b.2 {
        assert(b.1 * b.1 * 1 == b.1 * b.1 && 7 * (1int * 1 * 1) == 7);
        lemma_add_on_curve(a, (b.0, b.1, 1));
    }
}

/// Every multiple of a point of the curve is a point of the curve.
pub proof fn lemma_mul_on_curve(a: Coords, k: nat)
    requires
        on_curve(a),
    ensures
        on_curve(mul_spec(a, k)),
    decreases k,
{
    if k == 0 {
        lemma_generator_on_curve();
    } else {
        lemma_mul_on_curve(a, k / 2);
        lemma_double_on_curve(mul_spec(a, k / 2));
        if k % 2 == 1 {
            lemma_add_on_curve(double_spec(mul_spec(a, k / 2)), a);
        }
    }
}

/// The sum of a sequence of points of the curve is a point of the curve.
pub proof fn lemma_sum_on_curve(s: Seq<Coords>)
    requires
        forall|i: int| 0 <= i < s.len() ==> on_curve(#[trigger] s[i]),
    ensures
        on_curve(sum_spec(s)),
    decreases s.len(),
{
    if s.len() == 0 {
        lemma_generator_on_curve();
    } else {
        let t = s.drop_last();
        assert forall|i: int| 0 <= i < t.len() implies on_curve(#[trigger] t[i]) by {
            assert(t[i] == s[i]);
        }
        lemma_sum_on_curve(t);
        lemma_add_on_curve(sum_spec(t), s.last());
    }
}

/// The first multiple of a point is the point itself: `[1] P` stands for
/// `P`, for every point whose `y` coordinate is invertible.
pub proof fn lemma_mul_one(a: Coords)
    requires
        reduced(a),
        is_invertible(a.1 as nat),
    ensures
        to_affine_spec(mul_spec(a, 1)) == to_affine_spec(a),
{
    assert(mul_spec(a, 0) == identity_spec());
    lemma_identity_double();
    assert(mul_spec(a, 1) == add_spec(identity_spec(), a));
    lemma_add_identity_left(a);
}

} // verus!
