//! The chord-and-tangent group law on affine points of secp256k1, and how
//! the projective addition and doubling formulas compute it.
use vstd::prelude::*;
use vstd::arithmetic::div_mod::{lemma_mod_equivalence, lemma_mul_mod_noop, lemma_mul_mod_noop_left, lemma_mul_mod_noop_right, lemma_small_mod, lemma_mod_twice, lemma_sub_mod_noop};
use vstd::arithmetic::mul::{lemma_mul_is_distributive_add_other_way, lemma_mul_is_distributive_sub_other_way};
use crate::field::{p, is_invertible, inverse, lemma_inverse_of_invertible, lemma_cong_add, lemma_cong_mul, lemma_cong_sub, lemma_cong_neg};
use crate::model::{modp, AffineCoords, Coords, on_curve_affine, affine_neg_spec, endomorphism_spec, beta, combine, add_spec, add_polys, double_spec, double_polys, neg_spec, on_curve,
    to_affine_spec, from_affine_spec, lemma_identity_double, reduce};
use crate::laws::{reduced, lemma_multiple_of_zero, lemma_add_on_curve, lemma_neg_on_curve, lemma_to_affine_neg, lemma_scale_same_point, lemma_zero_not_invertible, lemma_add_identity_left, lemma_add_identity_right, lemma_to_affine_from_affine,
    lemma_add_inverse, lemma_double_is_add};
use crate::projective::lemma_combine_cong;
use crate::prime::lemma_no_zero_divisors;
use crate::expansions::{lemma_add_polys_homogeneous, lemma_chord_x, lemma_chord_y, lemma_tangent_x, lemma_tangent_y};

verus! {

/// The slope form of a sum: with `l = u / d`, the point
/// `(l^2 - s, l (xa - (l^2 - s)) - ya)`.
pub open spec fn slope_point(u: int, d: int, s: int, xa: int, ya: int) -> AffineCoords {
    let l = modp(u * inverse(modp(d) as nat));
    let x3 = modp(l * l - s);
    (x3, modp(l * (xa - x3) - ya), false)
}

/// The group law of the curve on affine points: the identity is the point at
/// infinity; a point plus its negation is the identity; a point plus itself
/// follows the tangent, `l = 3 x^2 / (2 y)`; two points with different `x`
/// follow the chord, `l = (y2 - y1) / (x2 - x1)`.
pub open spec fn affine_add_spec(a: AffineCoords, b: AffineCoords) -> AffineCoords {
    if a.2 {
        b
    } else if b.2 {
        a
    } else if a.0 == b.0 {
        if modp(a.1 + b.1) == 0 {
            (0, 0, true)
        } else {
            slope_point(3 * a.0 * a.0, 2 * a.1, 2 * a.0, a.0, a.1)
        }
    } else {
        slope_point(b.1 - a.1, b.0 - a.0, a.0 + b.0, a.0, a.1)
    }
}

/// `modp(a u) == modp(a)` when `modp(u) == 1`.
proof fn lemma_mod_mul_one(a: int, u: int)
    requires
        modp(u) == 1,
    ensures
        modp(a * u) == modp(a),
{
    lemma_mul_mod_noop_right(a, u, p() as int);
}

/// `modp(d w) == 1` for `w` the inverse of `d`.
pub(crate) proof fn lemma_times_inverse(d: int)
    requires
        is_invertible(modp(d) as nat),
    ensures
        modp(d * (inverse(modp(d) as nat) as int)) == 1,
        inverse(modp(d) as nat) < p(),
{
    let dm = modp(d) as nat;
    lemma_inverse_of_invertible(dm);
    lemma_mul_mod_noop_left(d, inverse(dm) as int, p() as int);
}

/// Powers of a unit: `modp(e) == 1` gives `modp(e e) == 1` and `modp(e e e) == 1`.
pub(crate) proof fn lemma_unit_powers(e: int)
    requires
        modp(e) == 1,
    ensures
        modp(e * e) == 1,
        modp((e * e) * e) == 1,
{
    lemma_small_mod(1, p());
    lemma_cong_mul(1, e, 1, e);
    lemma_cong_mul(1, e * e, 1, e);
}

/// The x coordinate of a projective point whose `x d^2 == (u^2 - s d^2) z`
/// is `l^2 - s`, with `l = u / d`.
proof fn lemma_slope_x(x: int, z: int, u: int, d: int, s: int)
    requires
        is_invertible(modp(d) as nat),
        is_invertible(modp(z) as nat),
        modp(x * (d * d) - (u * u - s * (d * d)) * z) == 0,
    ensures
        modp(modp(x) * (inverse(modp(z) as nat) as int)) == slope_point(u, d, s, 0, 0).0,
        modp((u * u - s * (d * d)) * ((inverse(modp(d) as nat) as int) * (inverse(modp(d) as nat) as int)))
            == slope_point(u, d, s, 0, 0).0,
{
    let pi = p() as int;
    let w = inverse(modp(d) as nat) as int;
    let zi = inverse(modp(z) as nat) as int;
    let e = d * w;
    let x3n = u * u - s * (d * d);
    lemma_times_inverse(d);
    lemma_times_inverse(z);
    lemma_unit_powers(e);
    let a = x * (d * d);
    let b = x3n * z;
    lemma_mod_equivalence(a, b, pi);
    // x == x (d w)^2 == (x d^2) w^2 == (x3n z) w^2
    lemma_mod_mul_one(x, e * e);
    assert(x * (e * e) == a * (w * w)) by (nonlinear_arith)
        requires e == d * w, a == x * (d * d);
    lemma_mul_mod_noop_left(a, w * w, pi);
    lemma_mul_mod_noop_left(b, w * w, pi);
    // times 1/z
    lemma_mul_mod_noop_left(x, zi, pi);
    lemma_mul_mod_noop_left(b * (w * w), zi, pi);
    lemma_mul_mod_noop_left(x * (e * e), zi, pi);
    lemma_mod_twice(x * (e * e), pi);
    assert((b * (w * w)) * zi == (x3n * (w * w)) * (z * zi)) by (nonlinear_arith)
        requires b == x3n * z;
    lemma_mod_mul_one(x3n * (w * w), z * zi);
    // x3n w^2 == (u w)^2 - s (d w)^2
    lemma_mul_is_distributive_sub_other_way(w * w, u * u, s * (d * d));
    assert((u * u) * (w * w) == (u * w) * (u * w)) by (nonlinear_arith);
    assert((s * (d * d)) * (w * w) == s * (e * e)) by (nonlinear_arith)
        requires e == d * w;
    let l = modp(u * w);
    lemma_mod_twice(u * w, pi);
    lemma_cong_mul(l, u * w, l, u * w);
    lemma_mod_mul_one(s, e * e);
    lemma_mod_twice(s, pi);
    lemma_cong_sub(modp((u * w) * (u * w)), (u * w) * (u * w), modp(s), s * (e * e));
    lemma_mod_twice((u * w) * (u * w), pi);
    lemma_cong_sub(modp(l * l), l * l, modp(s), s);
    lemma_mod_twice(l * l, pi);
}

/// The y coordinate of a projective point whose
/// `y d^3 == (u (xa d^2 - (u^2 - s d^2)) - ya d^3) z` is `l (xa - x3) - ya`.
proof fn lemma_slope_y(y: int, z: int, u: int, d: int, s: int, xa: int, ya: int)
    requires
        is_invertible(modp(d) as nat),
        is_invertible(modp(z) as nat),
        modp((u * u - s * (d * d)) * ((inverse(modp(d) as nat) as int) * (inverse(modp(d) as nat) as int)))
            == slope_point(u, d, s, 0, 0).0,
        modp(y * ((d * d) * d) - (u * (xa * (d * d) - (u * u - s * (d * d))) - ya * ((d * d) * d)) * z) == 0,
    ensures
        modp(modp(y) * (inverse(modp(z) as nat) as int)) == slope_point(u, d, s, xa, ya).1,
{
    let pi = p() as int;
    let w = inverse(modp(d) as nat) as int;
    let zi = inverse(modp(z) as nat) as int;
    let e = d * w;
    let x3n = u * u - s * (d * d);
    let t = xa * (d * d) - x3n;
    let y3n = u * t - ya * ((d * d) * d);
    let x3 = slope_point(u, d, s, 0, 0).0;
    let l = modp(u * w);
    assert(x3 == modp(l * l - s));
    lemma_times_inverse(d);
    lemma_times_inverse(z);
    lemma_unit_powers(e);
    let a = y * ((d * d) * d);
    let b = y3n * z;
    lemma_mod_equivalence(a, b, pi);
    let w3 = (w * w) * w;
    lemma_mod_mul_one(y, (e * e) * e);
    assert(y * ((e * e) * e) == a * w3) by (nonlinear_arith)
        requires e == d * w, a == y * ((d * d) * d), w3 == (w * w) * w;
    lemma_mul_mod_noop_left(a, w3, pi);
    lemma_mul_mod_noop_left(b, w3, pi);
    lemma_mul_mod_noop_left(y, zi, pi);
    lemma_mul_mod_noop_left(b * w3, zi, pi);
    lemma_mul_mod_noop_left(y * ((e * e) * e), zi, pi);
    lemma_mod_twice(y * ((e * e) * e), pi);
    assert((b * w3) * zi == (y3n * w3) * (z * zi)) by (nonlinear_arith)
        requires b == y3n * z;
    lemma_mod_mul_one(y3n * w3, z * zi);
    // y3n w^3 == (u w) (t w^2) - ya (d w)^3
    lemma_mul_is_distributive_sub_other_way(w3, u * t, ya * ((d * d) * d));
    assert((u * t) * w3 == (u * w) * (t * (w * w))) by (nonlinear_arith)
        requires w3 == (w * w) * w;
    assert((ya * ((d * d) * d)) * w3 == ya * ((e * e) * e)) by (nonlinear_arith)
        requires e == d * w, w3 == (w * w) * w;
    // t w^2 == xa (d w)^2 - x3n w^2
    lemma_mul_is_distributive_sub_other_way(w * w, xa * (d * d), x3n);
    assert((xa * (d * d)) * (w * w) == xa * (e * e)) by (nonlinear_arith)
        requires e == d * w;
    lemma_mod_mul_one(xa, e * e);
    lemma_mod_twice(xa, pi);
    lemma_mod_twice(x3, pi);
    lemma_cong_sub(modp(xa), xa * (e * e), x3, x3n * (w * w));
    lemma_cong_sub(modp(xa), xa, x3, x3);
    // (u w) (t w^2) == l (xa - x3)
    lemma_mod_twice(u * w, pi);
    lemma_cong_mul(l, u * w, modp(xa - x3), t * (w * w));
    lemma_mul_mod_noop_right(l, xa - x3, pi);
    lemma_mod_mul_one(ya, (e * e) * e);
    lemma_mod_twice(ya, pi);
    lemma_cong_sub(modp((u * w) * (t * (w * w))), (u * w) * (t * (w * w)), modp(ya), ya * ((e * e) * e));
    lemma_mod_twice((u * w) * (t * (w * w)), pi);
    lemma_cong_sub(modp(l * (xa - x3)), l * (xa - x3), modp(ya), ya);
    lemma_mod_twice(l * (xa - x3), pi);
}

/// The curve equation of an affine point as a zero residue.
pub(crate) proof fn lemma_curve_residue(x: int, y: int)
    requires
        modp(y * y) == modp(x * x * x + 7),
    ensures
        modp(((y * y) - ((x * x) * x)) - 7) == 0,
{
    lemma_sub_mod_noop(y * y, x * x * x + 7, p() as int);
    lemma_small_mod(0, p());
}

/// Chord rule: the sum of two points of the curve with different `x`
/// coordinates, given with `z = 1`, is the point on the chord through them,
/// wherever the sum's `z` is invertible.
pub proof fn lemma_add_chord(a: AffineCoords, b: AffineCoords)
    requires
        !a.2,
        !b.2,
        on_curve_affine(a),
        on_curve_affine(b),
        a.0 != b.0,
        is_invertible(modp(b.0 - a.0) as nat),
        is_invertible(add_spec(from_affine_spec(a), from_affine_spec(b)).2 as nat),
    ensures
        to_affine_spec(add_spec(from_affine_spec(a), from_affine_spec(b))) == affine_add_spec(a, b),
{
    let (x1, y1, x2, y2) = (a.0, a.1, b.0, b.1);
    lemma_curve_residue(x1, y1);
    lemma_curve_residue(x2, y2);
    lemma_chord_x(x1, y1, x2, y2);
    lemma_chord_y(x1, y1, x2, y2);
    let xx = x1 * x2;
    let yy = y1 * y2;
    let xy = (x1 * y2) + (y1 * x2);
    let yz = y1 + y2;
    let xz = x1 + x2;
    let bx = (xy * (yy - 21)) - ((21 * yz) * xz);
    let by = ((yy + 21) * (yy - 21)) + ((63 * xx) * xz);
    let bz = (yz * (yy + 21)) + ((3 * xx) * xy);
    assert(add_polys((x1, y1, 1), (x2, y2, 1)) == (bx, by, bz)) by {
        assert(y1 * 1 + 1 * y2 == yz && x1 * 1 + 1 * x2 == xz && 21 * (1int * 1) == 21);
    }
    lemma_slope_x(bx, bz, y2 - y1, x2 - x1, x1 + x2);
    lemma_slope_y(by, bz, y2 - y1, x2 - x1, x1 + x2, x1, y1);
}

/// The doubling polynomials at a point given with `z = 1`.
proof fn lemma_double_polys_affine(x: int, y: int)
    ensures
        double_polys((x, y, 1)) == (
            (2 * (x * y)) * ((y * y) - 63),
            (((y * y) - 63) * ((y * y) + 21)) + (168 * (y * y)),
            8 * ((y * y) * y),
        ),
{
    assert(63 * (1int * 1) == 63 && 21 * (1int * 1) == 21);
    assert((y * y) * (1int * 1) == y * y);
    assert(((y * y) * y) * 1 == (y * y) * y);
}

/// Tangent rule: the double of a point of the curve, given with `z = 1`, is
/// the second point on the tangent at it, wherever `2 y` and the double's `z`
/// are invertible.
pub proof fn lemma_double_tangent(a: AffineCoords)
    requires
        !a.2,
        on_curve_affine(a),
        is_invertible(modp(2 * a.1) as nat),
        is_invertible(double_spec(from_affine_spec(a)).2 as nat),
    ensures
        to_affine_spec(double_spec(from_affine_spec(a))) == affine_add_spec(a, a),
{
    let (x, y) = (a.0, a.1);
    lemma_zero_not_invertible();
    assert(a.1 + a.1 == 2 * a.1);
    lemma_double_polys_affine(x, y);
    lemma_tangent_slope(x, y);
}

/// The affine form of the double of `(x : y : 1)` is the tangent point.
proof fn lemma_tangent_slope(x: int, y: int)
    requires
        modp(y * y) == modp(x * x * x + 7),
        is_invertible(modp(2 * y) as nat),
        is_invertible(modp(8 * ((y * y) * y)) as nat),
    ensures
        modp(modp((2 * (x * y)) * ((y * y) - 63)) * (inverse(modp(8 * ((y * y) * y)) as nat) as int))
            == slope_point(3 * x * x, 2 * y, 2 * x, x, y).0,
        modp(modp((((y * y) - 63) * ((y * y) + 21)) + (168 * (y * y))) * (inverse(modp(8 * ((y * y) * y)) as nat) as int))
            == slope_point(3 * x * x, 2 * y, 2 * x, x, y).1,
{
    lemma_curve_residue(x, y);
    lemma_tangent_x(x, y);
    lemma_tangent_y(x, y);
    let yy = y * y;
    let bx = (2 * (x * y)) * (yy - 63);
    let by = ((yy - 63) * (yy + 21)) + (168 * yy);
    let bz = 8 * (yy * y);
    lemma_slope_x(bx, bz, 3 * x * x, 2 * y, 2 * x);
    lemma_slope_y(by, bz, 3 * x * x, 2 * y, 2 * x, x, y);
}

/// An affine point in canonical form: coordinates below p, and `(0, 0)` for
/// the point at infinity.
pub open spec fn canonical_affine(a: AffineCoords) -> bool {
    0 <= a.0 < p() && 0 <= a.1 < p() && (a.2 ==> a.0 == 0 && a.1 == 0)
}

/// Two points of the curve with the same `x` and `y1 + y2` invertible are
/// the same point.
pub(crate) proof fn lemma_same_x_same_point(a: AffineCoords, b: AffineCoords)
    requires
        canonical_affine(a),
        canonical_affine(b),
        on_curve_affine(a),
        on_curve_affine(b),
        !a.2,
        !b.2,
        a.0 == b.0,
        is_invertible(modp(a.1 + b.1) as nat),
    ensures
        a == b,
{
    let pi = p() as int;
    let (y1, y2) = (a.1, b.1);
    let t = inverse(modp(y1 + y2) as nat) as int;
    lemma_inverse_of_invertible(modp(y1 + y2) as nat);
    lemma_mul_mod_noop_left(y1 + y2, t, pi);
    // y1^2 == y2^2, so (y1 - y2)(y1 + y2) == 0
    lemma_sub_mod_noop(y1 * y1, y2 * y2, pi);
    lemma_small_mod(0, p());
    assert((y1 - y2) * (y1 + y2) == y1 * y1 - y2 * y2) by (nonlinear_arith);
    assert(((y1 - y2) * (y1 + y2)) * t == (y1 - y2) * ((y1 + y2) * t)) by (nonlinear_arith);
    lemma_mul_mod_noop_left((y1 - y2) * (y1 + y2), t, pi);
    lemma_mul_mod_noop_right(y1 - y2, (y1 + y2) * t, pi);
    lemma_small_mod(1, p());
    // so y1 - y2 == 0 modulo p, and both are below p
    if y1 != y2 {
        if y1 > y2 {
            lemma_small_mod((y1 - y2) as nat, p());
        } else {
            vstd::arithmetic::div_mod::lemma_mod_add_multiples_vanish(y1 - y2, pi);
            lemma_small_mod((y1 - y2 + pi) as nat, p());
        }
    }
}

/// The projective formulas follow the group law of the curve: for
/// canonical affine points `a` and `b` of the curve, the sum of their
/// projective forms stands for the affine sum `a + b`. Where the affine sum
/// divides by `x2 - x1` or `2 y`, that element must be invertible; where the
/// sum is finite, its projective `z` must be; and adding the identity needs
/// the other point's `y` to be invertible.
pub proof fn lemma_add_is_group_law(a: AffineCoords, b: AffineCoords)
    requires
        canonical_affine(a),
        canonical_affine(b),
        on_curve_affine(a),
        on_curve_affine(b),
        a.2 && !b.2 ==> is_invertible(b.1 as nat),
        b.2 && !a.2 ==> is_invertible(a.1 as nat),
        !a.2 && !b.2 && a.0 != b.0 ==> is_invertible(modp(b.0 - a.0) as nat),
        !a.2 && !b.2 && a.0 == b.0 && modp(a.1 + b.1) != 0 ==> is_invertible(modp(a.1 + b.1) as nat),
        !affine_add_spec(a, b).2 && !a.2 && !b.2
            ==> is_invertible(add_spec(from_affine_spec(a), from_affine_spec(b)).2 as nat),
    ensures
        to_affine_spec(add_spec(from_affine_spec(a), from_affine_spec(b))) == affine_add_spec(a, b),
{
    if a.2 && b.2 {
        lemma_identity_double();
        lemma_zero_not_invertible();
    } else if a.2 {
        lemma_add_identity_left(from_affine_spec(b));
        lemma_to_affine_from_affine(b);
    } else if b.2 {
        lemma_add_identity_right(from_affine_spec(a));
        lemma_to_affine_from_affine(a);
    } else if a.0 != b.0 {
        lemma_add_chord(a, b);
    } else if modp(a.1 + b.1) == 0 {
        // b is the negation of a
        let pa = from_affine_spec(a);
        assert(modp(-a.1) == b.1) by {
            lemma_sub_mod_noop(0, a.1, p() as int);
            lemma_mod_twice(a.1 + b.1, p() as int);
            lemma_small_mod(b.1 as nat, p());
            lemma_small_mod(0, p());
            vstd::arithmetic::div_mod::lemma_mod_add_multiples_vanish(-a.1, p() as int);
            lemma_mod_equivalence(-a.1, b.1, p() as int);
            assert(-a.1 - b.1 == -(a.1 + b.1));
            lemma_sub_mod_noop(0, a.1 + b.1, p() as int);
        }
        assert(neg_spec(pa) == from_affine_spec(b));
        lemma_add_inverse(pa);
        lemma_zero_not_invertible();
    } else {
        lemma_same_x_same_point(a, b);
        let pa = from_affine_spec(a);
        assert(on_curve(pa)) by {
            assert(a.1 * a.1 * 1 == a.1 * a.1);
            assert(7 * (1int * 1 * 1) == 7);
        }
        lemma_double_is_add(pa);
        assert(modp(2 * a.1) == modp(a.1 + b.1));
        lemma_double_tangent(a);
    }
}

/// Products of invertible elements are invertible.
proof fn lemma_invertible_product(a: int, b: int)
    requires
        is_invertible(modp(a) as nat),
        is_invertible(modp(b) as nat),
    ensures
        is_invertible(modp(a * b) as nat),
{
    let pi = p() as int;
    let wa = inverse(modp(a) as nat) as int;
    let wb = inverse(modp(b) as nat) as int;
    lemma_times_inverse(a);
    lemma_times_inverse(b);
    assert((a * b) * (wa * wb) == (a * wa) * (b * wb)) by (nonlinear_arith);
    lemma_small_mod(1, p());
    lemma_cong_mul(modp(a * wa), a * wa, modp(b * wb), b * wb);
    lemma_mod_twice(a * b, pi);
    lemma_mod_twice(wa * wb, pi);
    lemma_cong_mul(modp(a * b), a * b, modp(wa * wb), wa * wb);
    vstd::arithmetic::div_mod::lemma_mod_bound(a * b, pi);
    vstd::arithmetic::div_mod::lemma_mod_bound(wa * wb, pi);
    let w = modp(wa * wb) as nat;
    assert(((modp(a * b) as nat) * w) % p() == 1);
}

/// A factor `r` of an invertible `t r`, with `t` invertible, is invertible.
proof fn lemma_invertible_factor(t: int, r: int)
    requires
        is_invertible(modp(t) as nat),
        is_invertible(modp(t * r) as nat),
    ensures
        is_invertible(modp(r) as nat),
{
    let pi = p() as int;
    let v = inverse(modp(t * r) as nat) as int;
    lemma_times_inverse(t * r);
    assert(r * (t * v) == (t * r) * v) by (nonlinear_arith);
    lemma_mul_mod_noop_left(r, t * v, pi);
    vstd::arithmetic::div_mod::lemma_mod_bound(r, pi);
    vstd::arithmetic::div_mod::lemma_mod_bound(t * v, pi);
    lemma_mul_mod_noop_right(modp(r), t * v, pi);
    let w = modp(t * v) as nat;
    assert(((modp(r) as nat) * w) % p() == 1);
}

/// Coordinatewise congruent inputs give the same sum.
pub(crate) proof fn lemma_add_spec_cong(a: Coords, a2: Coords, b: Coords, b2: Coords)
    requires
        modp(a.0) == modp(a2.0),
        modp(a.1) == modp(a2.1),
        modp(a.2) == modp(a2.2),
        modp(b.0) == modp(b2.0),
        modp(b.1) == modp(b2.1),
        modp(b.2) == modp(b2.2),
    ensures
        add_spec(a, b) == add_spec(a2, b2),
{
    let (x1, y1, z1) = a;
    let (x2, y2, z2) = b;
    let (u1, v1, w1) = a2;
    let (u2, v2, w2) = b2;
    lemma_cong_mul(modp(x1), x1 * 1, modp(x2), x2 * 1);
    lemma_cong_mul(modp(u1), u1 * 1, modp(u2), u2 * 1);
    lemma_cong_mul(modp(y1), y1, modp(y2), y2);
    lemma_cong_mul(modp(v1), v1, modp(v2), v2);
    lemma_cong_mul(modp(z1), z1, modp(z2), z2);
    lemma_cong_mul(modp(w1), w1, modp(w2), w2);
    lemma_mod_twice(x1, p() as int);
    lemma_mod_twice(x2, p() as int);
    lemma_mod_twice(y1, p() as int);
    lemma_mod_twice(y2, p() as int);
    lemma_mod_twice(z1, p() as int);
    lemma_mod_twice(z2, p() as int);
    lemma_mod_twice(u1, p() as int);
    lemma_mod_twice(u2, p() as int);
    lemma_mod_twice(v1, p() as int);
    lemma_mod_twice(v2, p() as int);
    lemma_mod_twice(w1, p() as int);
    lemma_mod_twice(w2, p() as int);
    lemma_cong_mul(modp(x1), x1, modp(y2), y2);
    lemma_cong_mul(modp(u1), u1, modp(v2), v2);
    lemma_cong_mul(modp(y1), y1, modp(x2), x2);
    lemma_cong_mul(modp(v1), v1, modp(u2), u2);
    lemma_cong_mul(modp(y1), y1, modp(z2), z2);
    lemma_cong_mul(modp(v1), v1, modp(w2), w2);
    lemma_cong_mul(modp(z1), z1, modp(y2), y2);
    lemma_cong_mul(modp(w1), w1, modp(v2), v2);
    lemma_cong_mul(modp(x1), x1, modp(z2), z2);
    lemma_cong_mul(modp(u1), u1, modp(w2), w2);
    lemma_cong_mul(modp(z1), z1, modp(x2), x2);
    lemma_cong_mul(modp(w1), w1, modp(u2), u2);
    lemma_cong_add(modp(x1 * y2), x1 * y2, modp(y1 * x2), y1 * x2);
    lemma_cong_add(modp(u1 * v2), u1 * v2, modp(v1 * u2), v1 * u2);
    lemma_cong_add(modp(y1 * z2), y1 * z2, modp(z1 * y2), z1 * y2);
    lemma_cong_add(modp(v1 * w2), v1 * w2, modp(w1 * v2), w1 * v2);
    lemma_cong_add(modp(x1 * z2), x1 * z2, modp(z1 * x2), z1 * x2);
    lemma_cong_add(modp(u1 * w2), u1 * w2, modp(w1 * u2), w1 * u2);
    lemma_mod_twice(x1 * y2, p() as int);
    lemma_mod_twice(y1 * x2, p() as int);
    lemma_mod_twice(u1 * v2, p() as int);
    lemma_mod_twice(v1 * u2, p() as int);
    lemma_mod_twice(y1 * z2, p() as int);
    lemma_mod_twice(z1 * y2, p() as int);
    lemma_mod_twice(v1 * w2, p() as int);
    lemma_mod_twice(w1 * v2, p() as int);
    lemma_mod_twice(x1 * z2, p() as int);
    lemma_mod_twice(z1 * x2, p() as int);
    lemma_mod_twice(u1 * w2, p() as int);
    lemma_mod_twice(w1 * u2, p() as int);
    lemma_combine_cong(
        modp(x1 * x2), x1 * x2, modp(y1 * y2), y1 * y2, modp(z1 * z2), z1 * z2,
        modp(x1 * y2 + y1 * x2), x1 * y2 + y1 * x2, modp(y1 * z2 + z1 * y2), y1 * z2 + z1 * y2,
        modp(x1 * z2 + z1 * x2), x1 * z2 + z1 * x2,
    );
    lemma_combine_cong(
        modp(x1 * x2), u1 * u2, modp(y1 * y2), v1 * v2, modp(z1 * z2), w1 * w2,
        modp(x1 * y2 + y1 * x2), u1 * v2 + v1 * u2, modp(y1 * z2 + z1 * y2), v1 * w2 + w1 * v2,
        modp(x1 * z2 + z1 * x2), u1 * w2 + w1 * u2,
    );
}

/// A finite projective point of the curve stands for an affine point of the
/// curve.
pub proof fn lemma_to_affine_on_curve(a: Coords)
    requires
        reduced(a),
        on_curve(a),
        is_invertible(a.2 as nat),
    ensures
        on_curve_affine(to_affine_spec(a)),
{
    let pi = p() as int;
    let (x, y, z) = a;
    let zi = inverse(z as nat) as int;
    lemma_small_mod(z as nat, p());
    lemma_times_inverse(z);
    let ax = modp(x * zi);
    let ay = modp(y * zi);
    let zi3 = (zi * zi) * zi;
    // ay^2 == y^2 zi^2 == (y^2 z) zi^3
    lemma_mod_twice(y * zi, pi);
    lemma_cong_mul(ay, y * zi, ay, y * zi);
    lemma_mod_mul_one((y * zi) * (y * zi), z * zi);
    assert(((y * zi) * (y * zi)) * (z * zi) == (y * y * z) * zi3) by (nonlinear_arith)
        requires zi3 == (zi * zi) * zi;
    // == (x^3 + 7 z^3) zi^3
    lemma_mul_mod_noop_left(y * y * z, zi3, pi);
    lemma_mul_mod_noop_left(x * x * x + 7 * (z * z * z), zi3, pi);
    lemma_mul_is_distributive_add_other_way(zi3, x * x * x, 7 * (z * z * z));
    assert((x * x * x) * zi3 == ((x * zi) * (x * zi)) * (x * zi)) by (nonlinear_arith)
        requires zi3 == (zi * zi) * zi;
    assert((7 * (z * z * z)) * zi3 == 7 * (((z * zi) * (z * zi)) * (z * zi))) by (nonlinear_arith)
        requires zi3 == (zi * zi) * zi;
    // (x zi)^3 == ax^3 and (z zi)^3 == 1
    let xz = x * zi;
    let zz = z * zi;
    lemma_mod_twice(xz, pi);
    lemma_cong_mul(ax, xz, ax, xz);
    lemma_mod_twice(ax * ax, pi);
    lemma_cong_mul(modp(ax * ax), xz * xz, ax, xz);
    lemma_mul_mod_noop_left(ax * ax, ax, pi);
    assert(modp(ax * ax * ax) == modp((xz * xz) * xz));
    lemma_unit_powers(zz);
    lemma_mod_mul_one(7, (zz * zz) * zz);
    lemma_small_mod(7, p());
    assert(modp(7 * ((zz * zz) * zz)) == 7);
    lemma_mod_twice(ax * ax * ax, pi);
    lemma_cong_add(modp(ax * ax * ax), (xz * xz) * xz, 7, 7 * ((zz * zz) * zz));
    lemma_cong_add(modp(ax * ax * ax), ax * ax * ax, 7, 7);
    assert(modp(ay * ay) == modp((xz * xz) * xz + 7 * ((zz * zz) * zz)));
}

/// A finite point is congruent to its affine form scaled by its `z`.
proof fn lemma_scaled_affine_form(a: Coords)
    requires
        reduced(a),
        is_invertible(a.2 as nat),
    ensures
        modp(a.2 * to_affine_spec(a).0) == a.0,
        modp(a.2 * to_affine_spec(a).1) == a.1,
        modp(a.2 * 1) == a.2,
{
    let pi = p() as int;
    let (x, y, z) = a;
    let zi = inverse(z as nat) as int;
    lemma_small_mod(z as nat, p());
    lemma_small_mod(x as nat, p());
    lemma_small_mod(y as nat, p());
    lemma_times_inverse(z);
    lemma_mul_mod_noop_right(z, x * zi, pi);
    lemma_mul_mod_noop_right(z, y * zi, pi);
    assert(z * (x * zi) == x * (z * zi)) by (nonlinear_arith);
    assert(z * (y * zi) == y * (z * zi)) by (nonlinear_arith);
    lemma_mod_mul_one(x, z * zi);
    lemma_mod_mul_one(y, z * zi);
}

/// The projective formulas follow the group law on every pair of finite
/// points of the curve: the affine form of `P + Q` is the affine sum of the
/// affine forms of `P` and `Q`. Where that sum divides by `x2 - x1` or
/// `2 y`, that element must be invertible, and where it is finite, the `z`
/// of `P + Q` must be.
pub proof fn lemma_add_is_group_law_projective(pa: Coords, pb: Coords)
    requires
        reduced(pa),
        reduced(pb),
        on_curve(pa),
        on_curve(pb),
        is_invertible(pa.2 as nat),
        is_invertible(pb.2 as nat),
        to_affine_spec(pa).0 != to_affine_spec(pb).0
            ==> is_invertible(modp(to_affine_spec(pb).0 - to_affine_spec(pa).0) as nat),
        to_affine_spec(pa).0 == to_affine_spec(pb).0 && modp(to_affine_spec(pa).1 + to_affine_spec(pb).1) != 0
            ==> is_invertible(modp(to_affine_spec(pa).1 + to_affine_spec(pb).1) as nat),
        !affine_add_spec(to_affine_spec(pa), to_affine_spec(pb)).2 ==> is_invertible(add_spec(pa, pb).2 as nat),
    ensures
        to_affine_spec(add_spec(pa, pb)) == affine_add_spec(to_affine_spec(pa), to_affine_spec(pb)),
{
    let pi = p() as int;
    let a = to_affine_spec(pa);
    let b = to_affine_spec(pb);
    let (z, w) = (pa.2, pb.2);
    vstd::arithmetic::div_mod::lemma_mod_bound(pa.0 * inverse(z as nat), pi);
    vstd::arithmetic::div_mod::lemma_mod_bound(pa.1 * inverse(z as nat), pi);
    vstd::arithmetic::div_mod::lemma_mod_bound(pb.0 * inverse(w as nat), pi);
    vstd::arithmetic::div_mod::lemma_mod_bound(pb.1 * inverse(w as nat), pi);
    lemma_to_affine_on_curve(pa);
    lemma_to_affine_on_curve(pb);
    let fa = from_affine_spec(a);
    let fb = from_affine_spec(b);
    let sa = (z * fa.0, z * fa.1, z * fa.2);
    let sb = (w * fb.0, w * fb.1, w * fb.2);
    lemma_scaled_affine_form(pa);
    lemma_scaled_affine_form(pb);
    lemma_small_mod(pa.0 as nat, p());
    lemma_small_mod(pa.1 as nat, p());
    lemma_small_mod(pa.2 as nat, p());
    lemma_small_mod(pb.0 as nat, p());
    lemma_small_mod(pb.1 as nat, p());
    lemma_small_mod(pb.2 as nat, p());
    lemma_add_spec_cong(pa, sa, pb, sb);
    lemma_add_polys_homogeneous(z, w, fa, fb);
    let t = (z * w) * (z * w);
    let ap = add_polys(fa, fb);
    let r = add_spec(fa, fb);
    let k = modp(t);
    lemma_mul_mod_noop(t, ap.0, pi);
    lemma_mul_mod_noop(t, ap.1, pi);
    lemma_mul_mod_noop(t, ap.2, pi);
    assert(add_spec(pa, pb) == reduce((k * r.0, k * r.1, k * r.2)));
    lemma_small_mod(z as nat, p());
    lemma_small_mod(w as nat, p());
    lemma_invertible_product(z, w);
    lemma_invertible_product(z * w, z * w);
    vstd::arithmetic::div_mod::lemma_mod_bound(t, pi);
    vstd::arithmetic::div_mod::lemma_mod_bound(ap.0, pi);
    vstd::arithmetic::div_mod::lemma_mod_bound(ap.1, pi);
    vstd::arithmetic::div_mod::lemma_mod_bound(ap.2, pi);
    lemma_mod_twice(t, pi);
    lemma_scale_same_point(r, k);
    if !affine_add_spec(a, b).2 {
        lemma_mod_twice(r.2, pi);
        lemma_invertible_factor(k, r.2);
    }
    lemma_add_is_group_law(a, b);
}

/// The numerator of the slope from `c` to `-b` is `-l (b0 - c0)`, where `c`
/// is the reflected third point of the line of slope `l` through `a` and `b`.
proof fn lemma_reverse_numerator(l: int, a0: int, a1: int, b0: int, b1: int, c0: int)
    requires
        modp(b1 - a1) == modp(l * (b0 - a0)),
    ensures
        modp(modp(-b1) - modp(l * (a0 - c0) - a1)) == modp(-(l * (b0 - c0))),
{
    let pi = p() as int;
    let c1 = modp(l * (a0 - c0) - a1);
    lemma_mod_twice(-b1, pi);
    lemma_cong_sub(modp(-b1), -b1, c1, l * (a0 - c0) - a1);
    let r = modp(b1 - a1);
    let m = modp(l * (a0 - c0));
    lemma_mod_twice(l * (a0 - c0), pi);
    lemma_cong_add(r, b1 - a1, m, l * (a0 - c0));
    lemma_cong_add(r, l * (b0 - a0), m, l * (a0 - c0));
    assert(l * (b0 - a0) + l * (a0 - c0) == l * (b0 - c0)) by (nonlinear_arith);
    let e1 = (b1 - a1) + l * (a0 - c0);
    lemma_mod_twice(e1, pi);
    lemma_cong_neg(modp(e1), e1);
    lemma_cong_neg(modp(e1), l * (b0 - c0));
    assert(-b1 - (l * (a0 - c0) - a1) == -e1);
}

/// A numerator `-l d` over `d` is the slope `-l`.
proof fn lemma_reverse_quotient(u: int, l: int, d: int)
    requires
        modp(u) == modp(-(l * d)),
        is_invertible(modp(d) as nat),
    ensures
        modp(u * (inverse(modp(d) as nat) as int)) == modp(-l),
{
    let pi = p() as int;
    let w = inverse(modp(d) as nat) as int;
    lemma_times_inverse(d);
    lemma_mul_mod_noop_left(u, w, pi);
    lemma_mul_mod_noop_left(-(l * d), w, pi);
    assert(-(l * d) * w == (-l) * (d * w)) by (nonlinear_arith);
    lemma_mod_mul_one(-l, d * w);
}

/// With slope `-l` from `c` to `-b`, the x coordinate comes back to `a0`.
proof fn lemma_reverse_x(l: int, l2: int, a0: int, b0: int)
    requires
        0 <= a0 < p(),
        l2 == modp(-l),
    ensures
        modp(l2 * l2 - (modp(l * l - (a0 + b0)) + b0)) == a0,
{
    let pi = p() as int;
    let c0 = modp(l * l - (a0 + b0));
    lemma_mod_twice(-l, pi);
    lemma_cong_mul(l2, -l, l2, -l);
    assert((-l) * (-l) == l * l) by (nonlinear_arith);
    let t = l * l - (a0 + b0);
    lemma_mod_twice(l2 * l2, pi);
    lemma_mod_twice(c0 + b0, pi);
    lemma_cong_sub(modp(l2 * l2), l * l, modp(c0 + b0), c0 + b0);
    lemma_cong_sub(modp(l2 * l2), l2 * l2, modp(c0 + b0), c0 + b0);
    lemma_mod_twice(t, pi);
    lemma_mod_equivalence(t, c0, pi);
    vstd::arithmetic::div_mod::lemma_add_mod_noop(t - c0, a0, pi);
    assert(l * l - (c0 + b0) == (t - c0) + a0);
    lemma_small_mod(0, p());
    lemma_small_mod(a0 as nat, p());
}

/// With slope `-l` from `c` to `-b`, the y coordinate comes back to `a1`.
proof fn lemma_reverse_y(l: int, l2: int, a0: int, a1: int, c0: int)
    requires
        0 <= a1 < p(),
        l2 == modp(-l),
    ensures
        modp(l2 * (c0 - a0) - modp(l * (a0 - c0) - a1)) == a1,
{
    let pi = p() as int;
    let c1 = modp(l * (a0 - c0) - a1);
    lemma_mul_mod_noop_left(-l, c0 - a0, pi);
    assert((-l) * (c0 - a0) == l * (a0 - c0)) by (nonlinear_arith);
    lemma_mod_twice(l2 * (c0 - a0), pi);
    lemma_mod_twice(c1, pi);
    lemma_cong_sub(modp(l2 * (c0 - a0)), l * (a0 - c0), c1, l * (a0 - c0) - a1);
    lemma_cong_sub(modp(l2 * (c0 - a0)), l2 * (c0 - a0), c1, c1);
    assert(l * (a0 - c0) - (l * (a0 - c0) - a1) == a1);
    lemma_small_mod(a1 as nat, p());
}

/// Adding back the negation of `b` along the line of slope `l` through `a`
/// and `b` returns to `a`: with `c` the third point of that line, reflected,
/// the line through `c` and `-b` has slope `-l` and meets the curve again at
/// `-a`.
proof fn lemma_reverse_slope(l: int, a0: int, a1: int, b0: int, b1: int)
    requires
        0 <= a0 < p(),
        0 <= a1 < p(),
        modp(b1 - a1) == modp(l * (b0 - a0)),
        is_invertible(modp(b0 - modp(l * l - (a0 + b0))) as nat),
    ensures
        slope_point(
            modp(-b1) - modp(l * (a0 - modp(l * l - (a0 + b0))) - a1),
            b0 - modp(l * l - (a0 + b0)),
            modp(l * l - (a0 + b0)) + b0,
            modp(l * l - (a0 + b0)),
            modp(l * (a0 - modp(l * l - (a0 + b0))) - a1),
        ) == (a0, a1, false),
{
    let c0 = modp(l * l - (a0 + b0));
    let c1 = modp(l * (a0 - c0) - a1);
    let d = b0 - c0;
    let u2 = modp(-b1) - c1;
    lemma_reverse_numerator(l, a0, a1, b0, b1, c0);
    lemma_reverse_quotient(u2, l, d);
    let l2 = modp(u2 * (inverse(modp(d) as nat) as int));
    lemma_reverse_x(l, l2, a0, b0);
    lemma_reverse_y(l, l2, a0, a1, c0);
}

/// The chord slope `l = (b1 - a1) / (b0 - a0)` has `l (b0 - a0) == b1 - a1`.
proof fn lemma_chord_slope(a0: int, a1: int, b0: int, b1: int)
    requires
        is_invertible(modp(b0 - a0) as nat),
    ensures
        modp(b1 - a1) == modp(modp((b1 - a1) * (inverse(modp(b0 - a0) as nat) as int)) * (b0 - a0)),
{
    let pi = p() as int;
    let w = inverse(modp(b0 - a0) as nat) as int;
    lemma_times_inverse(b0 - a0);
    lemma_mul_mod_noop_left((b1 - a1) * w, b0 - a0, pi);
    assert(((b1 - a1) * w) * (b0 - a0) == (b1 - a1) * ((b0 - a0) * w)) by (nonlinear_arith);
    lemma_mod_mul_one(b1 - a1, (b0 - a0) * w);
}

/// Subtracting what was added gives back the first point: `(a + b) - b == a`
/// in the affine group law, for points of the curve. Where the sum divides by
/// `x2 - x1` or by `y1 + y2`, that element must be invertible; where `a` and
/// `b` are finite and `a + b` is too, the subtraction is a chord, so `a + b`
/// and `b` must have different `x` whose difference is invertible.
pub proof fn lemma_add_sub_cancel(a: AffineCoords, b: AffineCoords)
    requires
        canonical_affine(a),
        canonical_affine(b),
        on_curve_affine(a),
        on_curve_affine(b),
        !a.2 && !b.2 && a.0 != b.0 ==> is_invertible(modp(b.0 - a.0) as nat),
        !a.2 && !b.2 && a.0 == b.0 && modp(a.1 + b.1) != 0 ==> is_invertible(modp(a.1 + b.1) as nat),
        !a.2 && !b.2 && !affine_add_spec(a, b).2 ==> affine_add_spec(a, b).0 != b.0
            && is_invertible(modp(b.0 - affine_add_spec(a, b).0) as nat),
    ensures
        affine_add_spec(affine_add_spec(a, b), affine_neg_spec(b)) == a,
{
    let pi = p() as int;
    let c = affine_add_spec(a, b);
    let nb = affine_neg_spec(b);
    lemma_small_mod(0, p());
    lemma_small_mod(a.1 as nat, p());
    lemma_small_mod(b.1 as nat, p());
    if a.2 {
        if !b.2 {
            lemma_mod_twice(-b.1, pi);
            vstd::arithmetic::div_mod::lemma_add_mod_noop(b.1, -b.1, pi);
        }
    } else if b.2 {
    } else if a.0 != b.0 {
        let l = modp((b.1 - a.1) * (inverse(modp(b.0 - a.0) as nat) as int));
        lemma_chord_slope(a.0, a.1, b.0, b.1);
        assert(l * (b.0 - a.0) == (b.0 - a.0) * l) by (nonlinear_arith);
        lemma_reverse_slope(l, a.0, a.1, b.0, b.1);
    } else if modp(a.1 + b.1) == 0 {
        lemma_mod_equivalence(a.1, -b.1, pi);
    } else {
        lemma_same_x_same_point(a, b);
        let l = modp((3 * a.0 * a.0) * (inverse(modp(2 * a.1) as nat) as int));
        assert(l * (b.0 - a.0) == 0) by (nonlinear_arith)
            requires b.0 == a.0;
        assert(2 * a.0 == a.0 + b.0);
        lemma_reverse_slope(l, a.0, a.1, b.0, b.1);
    }
}

/// Subtracting what was added gives back the first point, on projective
/// points of the curve: `(P + Q) - Q` stands for the same affine point as
/// `P`, for finite `P` and `Q` whose sum is not the identity. Where the
/// affine sums divide, by `x2 - x1` or `y1 + y2` for `P + Q` and by the
/// difference of the `x` of `P + Q` and `Q` for the subtraction, that element
/// must be invertible, and so must the `z` of both results.
pub proof fn lemma_add_sub_cancel_projective(pa: Coords, pb: Coords)
    requires
        reduced(pa),
        reduced(pb),
        on_curve(pa),
        on_curve(pb),
        is_invertible(pa.2 as nat),
        is_invertible(pb.2 as nat),
        to_affine_spec(pa).0 != to_affine_spec(pb).0
            ==> is_invertible(modp(to_affine_spec(pb).0 - to_affine_spec(pa).0) as nat),
        to_affine_spec(pa).0 == to_affine_spec(pb).0 && modp(to_affine_spec(pa).1 + to_affine_spec(pb).1) != 0
            ==> is_invertible(modp(to_affine_spec(pa).1 + to_affine_spec(pb).1) as nat),
        !affine_add_spec(to_affine_spec(pa), to_affine_spec(pb)).2,
        affine_add_spec(to_affine_spec(pa), to_affine_spec(pb)).0 != to_affine_spec(pb).0,
        is_invertible(modp(to_affine_spec(pb).0 - affine_add_spec(to_affine_spec(pa), to_affine_spec(pb)).0) as nat),
        is_invertible(add_spec(pa, pb).2 as nat),
        is_invertible(add_spec(add_spec(pa, pb), neg_spec(pb)).2 as nat),
    ensures
        to_affine_spec(add_spec(add_spec(pa, pb), neg_spec(pb))) == to_affine_spec(pa),
{
    let pi = p() as int;
    let a = to_affine_spec(pa);
    let b = to_affine_spec(pb);
    let s = add_spec(pa, pb);
    let nq = neg_spec(pb);
    lemma_add_is_group_law_projective(pa, pb);
    vstd::arithmetic::div_mod::lemma_mod_bound(pa.0 * inverse(pa.2 as nat), pi);
    vstd::arithmetic::div_mod::lemma_mod_bound(pa.1 * inverse(pa.2 as nat), pi);
    vstd::arithmetic::div_mod::lemma_mod_bound(pb.0 * inverse(pb.2 as nat), pi);
    vstd::arithmetic::div_mod::lemma_mod_bound(pb.1 * inverse(pb.2 as nat), pi);
    lemma_to_affine_on_curve(pa);
    lemma_to_affine_on_curve(pb);
    let ap = add_polys(pa, pb);
    vstd::arithmetic::div_mod::lemma_mod_bound(ap.0, pi);
    vstd::arithmetic::div_mod::lemma_mod_bound(ap.1, pi);
    vstd::arithmetic::div_mod::lemma_mod_bound(ap.2, pi);
    vstd::arithmetic::div_mod::lemma_mod_bound(-pb.1, pi);
    lemma_add_on_curve(pa, pb);
    lemma_neg_on_curve(pb);
    lemma_to_affine_neg(pb);
    lemma_add_is_group_law_projective(s, nq);
    lemma_add_sub_cancel(a, b);
}

/// The doubling formula follows the tangent rule on every finite point of
/// the curve: the affine form of `[2] P` is `P + P` in the affine group law.
/// Where that sum divides by `2 y`, `2 y` must be invertible, and where it is
/// finite, the `z` of `[2] P` must be.
pub proof fn lemma_double_is_group_law_projective(pa: Coords)
    requires
        reduced(pa),
        on_curve(pa),
        is_invertible(pa.2 as nat),
        modp(to_affine_spec(pa).1 + to_affine_spec(pa).1) != 0
            ==> is_invertible(modp(to_affine_spec(pa).1 + to_affine_spec(pa).1) as nat),
        !affine_add_spec(to_affine_spec(pa), to_affine_spec(pa)).2 ==> is_invertible(double_spec(pa).2 as nat),
    ensures
        to_affine_spec(double_spec(pa)) == affine_add_spec(to_affine_spec(pa), to_affine_spec(pa)),
{
    lemma_double_is_add(pa);
    lemma_add_is_group_law_projective(pa, pa);
}

/// For finite points of the curve, the sum is the sum of their affine forms
/// scaled by the invertible `k = (z1 z2)^2`.
pub(crate) proof fn lemma_add_scaled(pa: Coords, pb: Coords)
    requires
        reduced(pa),
        reduced(pb),
        on_curve(pa),
        on_curve(pb),
        is_invertible(pa.2 as nat),
        is_invertible(pb.2 as nat),
    ensures
        canonical_affine(to_affine_spec(pa)),
        canonical_affine(to_affine_spec(pb)),
        on_curve_affine(to_affine_spec(pa)),
        on_curve_affine(to_affine_spec(pb)),
        0 < modp((pa.2 * pb.2) * (pa.2 * pb.2)) < p(),
        is_invertible(modp((pa.2 * pb.2) * (pa.2 * pb.2)) as nat),
        add_spec(pa, pb) == reduce((
            modp((pa.2 * pb.2) * (pa.2 * pb.2)) * add_spec(from_affine_spec(to_affine_spec(pa)), from_affine_spec(to_affine_spec(pb))).0,
            modp((pa.2 * pb.2) * (pa.2 * pb.2)) * add_spec(from_affine_spec(to_affine_spec(pa)), from_affine_spec(to_affine_spec(pb))).1,
            modp((pa.2 * pb.2) * (pa.2 * pb.2)) * add_spec(from_affine_spec(to_affine_spec(pa)), from_affine_spec(to_affine_spec(pb))).2,
        )),
{
    let pi = p() as int;
    let a = to_affine_spec(pa);
    let b = to_affine_spec(pb);
    let (z, w) = (pa.2, pb.2);
    vstd::arithmetic::div_mod::lemma_mod_bound(pa.0 * inverse(z as nat), pi);
    vstd::arithmetic::div_mod::lemma_mod_bound(pa.1 * inverse(z as nat), pi);
    vstd::arithmetic::div_mod::lemma_mod_bound(pb.0 * inverse(w as nat), pi);
    vstd::arithmetic::div_mod::lemma_mod_bound(pb.1 * inverse(w as nat), pi);
    lemma_to_affine_on_curve(pa);
    lemma_to_affine_on_curve(pb);
    let fa = from_affine_spec(a);
    let fb = from_affine_spec(b);
    let sa = (z * fa.0, z * fa.1, z * fa.2);
    let sb = (w * fb.0, w * fb.1, w * fb.2);
    lemma_scaled_affine_form(pa);
    lemma_scaled_affine_form(pb);
    lemma_small_mod(pa.0 as nat, p());
    lemma_small_mod(pa.1 as nat, p());
    lemma_small_mod(pa.2 as nat, p());
    lemma_small_mod(pb.0 as nat, p());
    lemma_small_mod(pb.1 as nat, p());
    lemma_small_mod(pb.2 as nat, p());
    lemma_add_spec_cong(pa, sa, pb, sb);
    lemma_add_polys_homogeneous(z, w, fa, fb);
    let t = (z * w) * (z * w);
    let ap = add_polys(fa, fb);
    let k = modp(t);
    lemma_mul_mod_noop(t, ap.0, pi);
    lemma_mul_mod_noop(t, ap.1, pi);
    lemma_mul_mod_noop(t, ap.2, pi);
    lemma_invertible_product(z, w);
    lemma_invertible_product(z * w, z * w);
    vstd::arithmetic::div_mod::lemma_mod_bound(t, pi);
    lemma_zero_not_invertible();
}

/// The endomorphism commutes with addition, coordinate for coordinate:
/// `φ(P) + φ(Q) == φ(P + Q)`, as `β^3 == 1`.
pub proof fn lemma_endomorphism_add(a: Coords, b: Coords)
    ensures
        add_spec(endomorphism_spec(a), endomorphism_spec(b)) == endomorphism_spec(add_spec(a, b)),
{
    let pi = p() as int;
    let bt = beta();
    let (x1, y1, z1) = a;
    let (x2, y2, z2) = b;
    let ea = (x1 * bt, y1, z1);
    let eb = (x2 * bt, y2, z2);
    lemma_mod_twice(x1 * bt, pi);
    lemma_mod_twice(x2 * bt, pi);
    lemma_add_spec_cong(endomorphism_spec(a), ea, endomorphism_spec(b), eb);
    let xx = x1 * x2;
    let yy = y1 * y2;
    let zz = z1 * z2;
    let xy = x1 * y2 + y1 * x2;
    let yz = y1 * z2 + z1 * y2;
    let xz = x1 * z2 + z1 * x2;
    assert((x1 * bt) * (x2 * bt) == (bt * bt) * xx && (x1 * bt) * y2 + y1 * (x2 * bt) == bt * xy
        && (x1 * bt) * z2 + z1 * (x2 * bt) == bt * xz) by (nonlinear_arith)
        requires xx == x1 * x2, xy == x1 * y2 + y1 * x2, xz == x1 * z2 + z1 * x2;
    let c = combine(xx, yy, zz, xy, yz, xz);
    let ce = combine((bt * bt) * xx, yy, zz, bt * xy, yz, bt * xz);
    assert(add_polys(ea, eb) == ce);
    assert(add_polys(a, b) == c);
    let g = (bt * bt) * bt - 1;
    assert((bt * xy) * (yy - 21 * zz) - (21 * yz) * (bt * xz) == bt * (xy * (yy - 21 * zz) - (21 * yz) * xz))
        by (nonlinear_arith);
    assert((63 * ((bt * bt) * xx)) * (bt * xz) == (63 * xx) * xz + (63 * xx) * (xz * g)) by (nonlinear_arith)
        requires g == (bt * bt) * bt - 1;
    assert((3 * ((bt * bt) * xx)) * (bt * xy) == (3 * xx) * xy + (3 * xx) * (xy * g)) by (nonlinear_arith)
        requires g == (bt * bt) * bt - 1;
    assert(ce.0 == bt * c.0);
    assert(ce.1 == c.1 + (63 * xx) * (xz * g));
    assert(ce.2 == c.2 + (3 * xx) * (xy * g));
    assert(modp(bt * bt * bt) == 1);
    lemma_small_mod(1, p());
    lemma_sub_mod_noop(bt * bt * bt, 1, pi);
    lemma_small_mod(0, p());
    lemma_multiple_of_zero(63 * xx * xz, g);
    assert((63 * xx) * (xz * g) == (63 * xx * xz) * g) by (nonlinear_arith);
    lemma_multiple_of_zero(3 * xx * xy, g);
    assert((3 * xx) * (xy * g) == (3 * xx * xy) * g) by (nonlinear_arith);
    vstd::arithmetic::div_mod::lemma_add_mod_noop(c.1, (63 * xx) * (xz * g), pi);
    vstd::arithmetic::div_mod::lemma_add_mod_noop(c.2, (3 * xx) * (xy * g), pi);
    lemma_mod_twice(c.1, pi);
    lemma_mod_twice(c.2, pi);
    vstd::arithmetic::div_mod::lemma_mul_mod_noop_left(c.0, bt, pi);
    assert(bt * c.0 == c.0 * bt) by (nonlinear_arith);
}

/// The line of slope `l` through `a` and `b` that meets the curve again at
/// `b` is tangent there: `(b0 - a0)(2 b1 l - 3 b0^2) == 0`.
proof fn lemma_tangent_at_b(a0: int, a1: int, b0: int, b1: int, l: int)
    requires
        modp(((a1 * a1) - ((a0 * a0) * a0)) - 7) == 0,
        modp(((b1 * b1) - ((b0 * b0) * b0)) - 7) == 0,
        modp((l * l - a0) - 2 * b0) == 0,
        modp((b1 - a1) - l * (b0 - a0)) == 0,
    ensures
        modp((b0 - a0) * (2 * b1 * l - 3 * b0 * b0)) == 0,
{
    let ea = ((a1 * a1) - ((a0 * a0) * a0)) - 7;
    let eb = ((b1 * b1) - ((b0 * b0) * b0)) - 7;
    let f1 = (l * l - a0) - 2 * b0;
    let f2 = (b1 - a1) - l * (b0 - a0);
    let k1 = (a0 - b0) * (a0 - b0);
    let k2 = (b0 - a0) * l - a1 - b1;
    let d = b0 - a0;
    let u = b1 - a1;
    let sm = a1 + b1;
    let ll = l * l;
    let dd = d * d;
    assert(k2 * f2 == (d * l) * u - ll * dd - sm * u + sm * (l * d)) by (nonlinear_arith)
        requires k2 == d * l - sm, f2 == u - l * d, ll == l * l, dd == d * d, k2 == (b0 - a0) * l - a1 - b1,
            sm == a1 + b1, d == b0 - a0;
    assert(sm * u == b1 * b1 - a1 * a1) by (nonlinear_arith)
        requires sm == a1 + b1, u == b1 - a1;
    assert(k1 * f1 == dd * ll - dd * (a0 + 2 * b0)) by (nonlinear_arith)
        requires k1 == (a0 - b0) * (a0 - b0), dd == d * d, d == b0 - a0, ll == l * l, f1 == (l * l - a0) - 2 * b0;
    assert(((a0 * a0) * a0 - (b0 * b0) * b0) - dd * (a0 + 2 * b0) == -3 * (d * (b0 * b0))) by (nonlinear_arith)
        requires dd == d * d, d == b0 - a0;
    assert((d * l) * u + sm * (l * d) == (d * l) * (2 * b1)) by (nonlinear_arith)
        requires u == b1 - a1, sm == a1 + b1;
    assert((b0 - a0) * (2 * b1 * l - 3 * b0 * b0) == (d * l) * (2 * b1) - 3 * (d * (b0 * b0))) by (nonlinear_arith)
        requires d == b0 - a0;
    assert(ll * dd == dd * ll) by (nonlinear_arith);
    assert((b0 - a0) * (2 * b1 * l - 3 * b0 * b0) == (eb - ea) + k1 * f1 + k2 * f2);
    lemma_multiple_of_zero(k1, f1);
    lemma_multiple_of_zero(k2, f2);
    lemma_sub_mod_noop(eb, ea, p() as int);
    lemma_small_mod(0, p());
    vstd::arithmetic::div_mod::lemma_add_mod_noop(eb - ea, k1 * f1, p() as int);
    vstd::arithmetic::div_mod::lemma_add_mod_noop((eb - ea) + k1 * f1, k2 * f2, p() as int);
}

/// Subtraction undoes addition where the sum shares its `x` with `b`: then
/// the sum is `-b`, the line through `a` and `b` is tangent at `b`, and the
/// tangent at `-b` has slope `-l` and meets the curve again at `-a`.
pub proof fn lemma_add_sub_cancel_same_x(a: AffineCoords, b: AffineCoords)
    requires
        canonical_affine(a),
        canonical_affine(b),
        on_curve_affine(a),
        on_curve_affine(b),
        !a.2,
        !b.2,
        a.0 != b.0 ==> is_invertible(modp(b.0 - a.0) as nat),
        a.0 == b.0 && modp(a.1 + b.1) != 0 ==> is_invertible(modp(a.1 + b.1) as nat),
        !affine_add_spec(a, b).2,
        affine_add_spec(a, b).0 == b.0,
        is_invertible(modp(2 * b.1) as nat),
        is_invertible(modp(2 * modp(-b.1)) as nat),
    ensures
        affine_add_spec(affine_add_spec(a, b), affine_neg_spec(b)) == a,
{
    let pi = p() as int;
    let (a0, a1, b0, b1) = (a.0, a.1, b.0, b.1);
    let c = affine_add_spec(a, b);
    lemma_small_mod(a0 as nat, p());
    lemma_small_mod(a1 as nat, p());
    lemma_small_mod(b0 as nat, p());
    lemma_small_mod(b1 as nat, p());
    lemma_small_mod(0, p());
    let l = if a0 != b0 {
        modp((b1 - a1) * (inverse(modp(b0 - a0) as nat) as int))
    } else {
        modp((3 * a0 * a0) * (inverse(modp(2 * a1) as nat) as int))
    };
    if a0 != b0 {
        lemma_chord_slope(a0, a1, b0, b1);
        assert(l * (b0 - a0) == (b0 - a0) * l) by (nonlinear_arith);
    } else {
        lemma_same_x_same_point(a, b);
        assert(l * (b0 - a0) == 0) by (nonlinear_arith)
            requires b0 == a0;
        assert(2 * a0 == a0 + b0);
    }
    assert(c.0 == modp(l * l - (a0 + b0)));
    assert(c.1 == modp(l * (a0 - c.0) - a1));
    // c0 == b0: l^2 == a0 + 2 b0
    lemma_mod_equivalence(l * l - (a0 + b0), b0, pi);
    assert((l * l - (a0 + b0)) - b0 == (l * l - a0) - 2 * b0);
    // c1 == -b1
    lemma_mod_equivalence(b1 - a1, l * (b0 - a0), pi);
    assert(l * (a0 - b0) - a1 == -(l * (b0 - a0)) - a1) by (nonlinear_arith);
    assert((l * (a0 - b0) - a1) - (-b1) == -(l * (b0 - a0) - (b1 - a1)));
    lemma_sub_mod_noop(0, l * (b0 - a0) - (b1 - a1), pi);
    lemma_mod_equivalence(l * (a0 - b0) - a1, -b1, pi);
    assert(c.1 == modp(-b1));
    // the line is tangent at b: 2 b1 l == 3 b0^2
    lemma_curve_residue(a0, a1);
    lemma_curve_residue(b0, b1);
    assert((b1 - a1) - l * (b0 - a0) == -((l * (b0 - a0)) - (b1 - a1)));
    lemma_sub_mod_noop(0, (l * (b0 - a0)) - (b1 - a1), pi);
    lemma_tangent_at_b(a0, a1, b0, b1, l);
    let t = 2 * b1 * l - 3 * b0 * b0;
    if a0 != b0 {
        lemma_no_zero_divisors(b0 - a0, t);
        assert(modp(b0 - a0) != 0) by {
            if b0 > a0 {
                lemma_small_mod((b0 - a0) as nat, p());
            } else {
                vstd::arithmetic::div_mod::lemma_mod_add_multiples_vanish(b0 - a0, pi);
                lemma_small_mod((b0 - a0 + pi) as nat, p());
            }
        }
    } else {
        let w1 = inverse(modp(2 * a1) as nat) as int;
        lemma_times_inverse(2 * a1);
        lemma_mul_mod_noop_right(2 * b1, (3 * a0 * a0) * w1, pi);
        assert((2 * b1) * ((3 * a0 * a0) * w1) == (3 * b0 * b0) * ((2 * a1) * w1)) by (nonlinear_arith)
            requires a0 == b0, a1 == b1;
        lemma_mod_mul_one(3 * b0 * b0, (2 * a1) * w1);
        assert(2 * b1 * l == (2 * b1) * l);
        lemma_mod_equivalence(2 * b1 * l, 3 * b0 * b0, pi);
    }
    lemma_mod_equivalence(2 * b1 * l, 3 * b0 * b0, pi);
    // the tangent slope at -b is -l
    let nb1 = modp(-b1);
    let w = inverse(modp(2 * nb1) as nat) as int;
    let big_l = modp((3 * b0 * b0) * w);
    lemma_times_inverse(2 * nb1);
    lemma_mod_twice(-b1, pi);
    lemma_cong_mul(2, 2, nb1, -b1);
    lemma_small_mod(2, p());
    assert((-l) * (2 * (-b1)) == 2 * b1 * l) by (nonlinear_arith);
    lemma_mul_mod_noop_right(-l, 2 * nb1, pi);
    lemma_mul_mod_noop_right(-l, 2 * (-b1), pi);
    // (-l) (2 nb1) == 3 b0^2, so (-l) == 3 b0^2 w
    lemma_mul_mod_noop_left((-l) * (2 * nb1), w, pi);
    lemma_mul_mod_noop_left(3 * b0 * b0, w, pi);
    assert(((-l) * (2 * nb1)) * w == (-l) * ((2 * nb1) * w)) by (nonlinear_arith);
    lemma_mod_mul_one(-l, (2 * nb1) * w);
    assert(big_l == modp(-l));
    lemma_reverse_x(l, big_l, a0, b0);
    lemma_reverse_y(l, big_l, a0, a1, b0);
    assert(2 * b0 == b0 + b0);
    lemma_zero_not_invertible();
    assert(nb1 + nb1 == 2 * nb1);
    let nb = affine_neg_spec(b);
    assert(c == (b0, nb1, false));
    assert(nb == (b0, nb1, false));
    assert(modp(c.1 + nb.1) != 0);
    let x3 = modp(big_l * big_l - 2 * b0);
    assert(x3 == a0);
    assert(modp(l * (a0 - b0) - a1) == nb1);
    assert(modp(big_l * (b0 - x3) - nb1) == a1);
    assert(slope_point(3 * b0 * b0, 2 * nb1, 2 * b0, b0, nb1) == (a0, a1, false));
}

} // verus!
