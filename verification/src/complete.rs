//! Completeness of the addition formula: on points of the curve it never
//! gives `(0, 0, 0)`, and it always computes the group law.
use vstd::prelude::*;
use vstd::arithmetic::div_mod::{lemma_mod_equivalence, lemma_mul_mod_noop_left, lemma_mul_mod_noop_right, lemma_small_mod,
    lemma_mod_twice, lemma_sub_mod_noop, lemma_mod_bound, lemma_mod_add_multiples_vanish};
use crate::field::{p, is_invertible, inverse, lemma_cong_add};
use crate::prime::{lemma_nonzero_invertible, lemma_no_zero_divisors, lemma_no_cube_root, lemma_invertible_iff_nonzero};
use crate::model::{modp, beta, affine_endomorphism_spec, endomorphism_spec, Coords, AffineCoords, add_spec, add_polys, double_spec, double_polys, on_curve, on_curve_affine,
    from_affine_spec, reduce, to_affine_spec, lemma_identity_double, combine, identity_spec, add_mixed_spec, neg_spec,
    mul_spec, sum_spec};
use crate::group_law::{lemma_curve_residue, lemma_times_inverse, lemma_unit_powers, canonical_affine, affine_add_spec,
    lemma_same_x_same_point, lemma_add_spec_cong, lemma_add_is_group_law, lemma_add_scaled, lemma_add_sub_cancel,
    lemma_to_affine_on_curve, lemma_add_sub_cancel_same_x};
use crate::laws::{lemma_multiple_of_zero, lemma_add_on_curve, lemma_double_on_curve, lemma_zero_not_invertible,
    lemma_add_identity_coords, lemma_add_commutative, lemma_double_is_add, reduced, lemma_scale_same_point,
    lemma_generator_on_curve, lemma_to_affine_from_affine, lemma_neg_on_curve, lemma_add_inverse, lemma_to_affine_neg,
    lemma_endomorphism_on_curve};
use crate::expansions::{lemma_chord_x, lemma_chord_y};
use crate::exceptional::lemma_exceptional;

verus! {

/// A point of the curve with a nonzero `z` has a nonzero `y`: `y == 0`
/// would make `x / z` a cube root of -7.
pub proof fn lemma_curve_y_nonzero(c: Coords)
    requires
        on_curve(c),
        modp(c.2) != 0,
    ensures
        modp(c.1) != 0,
{
    let pi = p() as int;
    let (x, y, z) = c;
    if modp(y) == 0 {
        lemma_mod_bound(z, pi);
        lemma_mod_twice(z, pi);
        lemma_nonzero_invertible(modp(z) as nat);
        lemma_times_inverse(z);
        let w = inverse(modp(z) as nat) as int;
        let e = z * w;
        lemma_unit_powers(e);
        // y^2 z == 0, so x^3 + 7 z^3 == 0
        lemma_mul_mod_noop_left(y, y, pi);
        lemma_small_mod(0, p());
        lemma_multiple_of_zero(z, y * y);
        assert(z * (y * y) == y * y * z) by (nonlinear_arith);
        let s = x * x * x + 7 * (z * z * z);
        lemma_multiple_of_zero((w * w) * w, s);
        let t = x * w;
        let w3 = (w * w) * w;
        assert(w3 * (x * x * x) == t * t * t) by (nonlinear_arith)
            requires w3 == (w * w) * w, t == x * w;
        assert(w3 * (z * z * z) == (e * e) * e) by (nonlinear_arith)
            requires w3 == (w * w) * w, e == z * w;
        assert(w3 * s == w3 * (x * x * x) + 7 * (w3 * (z * z * z))) by (nonlinear_arith)
            requires s == x * x * x + 7 * (z * z * z);
        lemma_mod_twice(t * t * t, pi);
        vstd::arithmetic::div_mod::lemma_mul_mod_noop_right(7, (e * e) * e, pi);
        lemma_small_mod(7, p());
        lemma_cong_add(modp(t * t * t), t * t * t, 7, 7 * ((e * e) * e));
        lemma_cong_add(modp(t * t * t), t * t * t, 7, 7);
        lemma_no_cube_root(t);
    }
}

/// `modp(a) == 0` when `modp(a - b) == 0` and `modp(b) == 0`.
proof fn lemma_zero_difference(a: int, b: int)
    requires
        modp(a - b) == 0,
        modp(b) == 0,
    ensures
        modp(a) == 0,
{
    lemma_mod_equivalence(a, b, p() as int);
}

/// Where the chord sum of two points of the curve, given with `z = 1` and
/// different `x`, has `z == 0`, its `x` and `y` are zero too.
proof fn lemma_chord_zero(x1: int, y1: int, x2: int, y2: int)
    requires
        modp(((y1 * y1) - ((x1 * x1) * x1)) - 7) == 0,
        modp(((y2 * y2) - ((x2 * x2) * x2)) - 7) == 0,
        modp(x2 - x1) != 0,
        modp(add_polys((x1, y1, 1), (x2, y2, 1)).2) == 0,
    ensures
        modp(add_polys((x1, y1, 1), (x2, y2, 1)).0) == 0,
        modp(add_polys((x1, y1, 1), (x2, y2, 1)).1) == 0,
{
    let xx = x1 * x2;
    let yy = y1 * y2;
    let xy = (x1 * y2) + (y1 * x2);
    let yz = y1 + y2;
    let xz = x1 + x2;
    let bx = (xy * (yy - 21)) - ((21 * yz) * xz);
    let by = ((yy + 21) * (yy - 21)) + ((63 * xx) * xz);
    let bz = (yz * (yy + 21)) + ((3 * xx) * xy);
    assert(add_polys((x1, y1, 1), (x2, y2, 1)) == (bx, by, bz)) by {
        assert(y1 * 1 + 1 * y2 == yz && x1 * 1 + 1 * x2 == xz && 21 * (1int * 1) == 21);
    }
    lemma_chord_x(x1, y1, x2, y2);
    lemma_chord_y(x1, y1, x2, y2);
    let d = x2 - x1;
    let u = y2 - y1;
    let s = x1 + x2;
    let x3n = u * u - s * (d * d);
    let y3n = u * (x1 * (d * d) - x3n) - y1 * ((d * d) * d);
    lemma_multiple_of_zero(x3n, bz);
    lemma_multiple_of_zero(y3n, bz);
    assert(x3n * bz == bz * x3n && y3n * bz == bz * y3n) by (nonlinear_arith);
    assert(bz * x3n == x3n * bz);
    lemma_zero_difference(bx * (d * d), x3n * bz);
    lemma_zero_difference(by * ((d * d) * d), y3n * bz);
    if modp(d * d) == 0 {
        lemma_no_zero_divisors(d, d);
    }
    if modp((d * d) * d) == 0 {
        lemma_no_zero_divisors(d * d, d);
        lemma_no_zero_divisors(d, d);
    }
    lemma_no_zero_divisors(bx, d * d);
    lemma_no_zero_divisors(by, (d * d) * d);
}

/// The double of a finite point of the curve has a nonzero `z` and `y`.
proof fn lemma_double_finite(x: int, y: int)
    requires
        on_curve((x, y, 1)),
    ensures
        modp(double_polys((x, y, 1)).2) != 0,
        modp(double_polys((x, y, 1)).1) != 0,
{
    let pi = p() as int;
    lemma_small_mod(1, p());
    lemma_curve_y_nonzero((x, y, 1));
    let z3 = 8 * ((y * y) * y);
    assert(double_polys((x, y, 1)).2 == 8 * (((y * y) * y) * 1));
    assert(((y * y) * y) * 1 == (y * y) * y);
    if modp(z3) == 0 {
        lemma_no_zero_divisors(8, (y * y) * y);
        lemma_small_mod(8, p());
        lemma_no_zero_divisors(y * y, y);
        lemma_no_zero_divisors(y, y);
    }
    lemma_double_on_curve((x, y, 1));
    lemma_mod_twice(z3, pi);
    lemma_curve_y_nonzero(double_spec((x, y, 1)));
    lemma_mod_twice(double_polys((x, y, 1)).1, pi);
}

/// The chord sum of two points of the curve with different `x`, given with
/// `z = 1`, has a nonzero `z`: the formula has no exceptional pair there.
pub proof fn lemma_chord_complete(a: AffineCoords, b: AffineCoords)
    requires
        0 <= a.0 < p(),
        0 <= b.0 < p(),
        on_curve_affine(a),
        on_curve_affine(b),
        !a.2,
        !b.2,
        a.0 != b.0,
    ensures
        modp(add_polys(from_affine_spec(a), from_affine_spec(b)).2) != 0,
{
    let pi = p() as int;
    let (x1, y1, x2, y2) = (a.0, a.1, b.0, b.1);
    let fa = (x1, y1, 1int);
    let fb = (x2, y2, 1int);
    let fnb = (x2, -y2, 1int);
    if modp(add_polys(fa, fb).2) == 0 {
        lemma_curve_residue(x1, y1);
        lemma_curve_residue(x2, y2);
        assert(modp(x2 - x1) != 0) by {
            if x2 > x1 {
                lemma_small_mod((x2 - x1) as nat, p());
            } else {
                lemma_mod_add_multiples_vanish(x2 - x1, pi);
                lemma_small_mod((x2 - x1 + pi) as nat, p());
            }
        }
        lemma_chord_zero(x1, y1, x2, y2);
        // the formula for P1 - P2 has the same y
        assert((-y2) * (-y2) == y2 * y2 && y1 * (-y2) == -(y1 * y2)) by (nonlinear_arith);
        let yy = y1 * y2;
        assert((-yy + 21) * (-yy - 21) == (yy + 21) * (yy - 21)) by (nonlinear_arith);
        assert(add_polys(fa, fnb).1 == add_polys(fa, fb).1);
        // curve equations in both forms
        assert(on_curve(fa) && on_curve(fb) && on_curve(fnb)) by {
            assert(y1 * y1 * 1 == y1 * y1 && y2 * y2 * 1 == y2 * y2 && (-y2) * (-y2) * 1 == y2 * y2);
            assert(7 * (1int * 1 * 1) == 7);
        }
        lemma_mod_equivalence(x1 * x1 * x1 + 7, y1 * y1, pi);
        lemma_mod_equivalence(x2 * x2 * x2 + 7, y2 * y2, pi);
        lemma_add_on_curve(fa, fnb);
        let p4 = add_polys(fa, fnb);
        lemma_mod_twice(p4.1, pi);
        lemma_mod_twice(p4.2, pi);
        if modp(p4.2) != 0 {
            lemma_curve_y_nonzero(add_spec(fa, fnb));
        } else {
            assert(((-y2) * (-y2) - ((x2 * x2) * x2)) - 7 == ((y2 * y2) - ((x2 * x2) * x2)) - 7);
            lemma_chord_zero(x1, y1, x2, -y2);
            lemma_exceptional(x1, y1, x2, y2);
            let yy2 = y2 * y2;
            let yd = ((yy2 * yy2) + 126 * yy2) - 1323;
            lemma_no_zero_divisors(84, y2 * yd);
            lemma_small_mod(84, p());
            lemma_no_zero_divisors(y2, yd);
            lemma_small_mod(1, p());
            lemma_curve_y_nonzero(fb);
            assert((yy2 - 63) * (yy2 + 21) + 168 * yy2 == yd) by (nonlinear_arith)
                requires yd == ((yy2 * yy2) + 126 * yy2) - 1323;
            assert(yy2 * (1int * 1) == yy2);
            assert(double_polys(fb).1 == yd);
            lemma_double_finite(x2, y2);
        }
    }
}

/// A point plus its negation, given with `z = 1`, has the `y` of the double:
/// `y^4 - 441 + 126 x^3 == y^4 + 126 y^2 - 1323` on the curve.
proof fn lemma_inverse_y(x: int, y: int)
    requires
        on_curve((x, y, 1)),
    ensures
        modp(add_polys((x, y, 1), (x, -y, 1)).1) == modp(double_polys((x, y, 1)).1),
{
    let pi = p() as int;
    let yy = y * y;
    let xxx = (x * x) * x;
    assert(add_polys((x, y, 1), (x, -y, 1)).1 == (-yy + 21) * (-yy - 21) + (63 * (x * x)) * (x + x)) by {
        assert(y * (-y) == -yy) by (nonlinear_arith)
            requires yy == y * y;
        assert(x * 1 + 1 * x == x + x && 21 * (1int * 1) == 21);
    }
    assert(double_polys((x, y, 1)).1 == (yy - 63) * (yy + 21) + 168 * yy) by {
        assert(yy * (1int * 1) == yy && 63 * (1int * 1) == 63 && 21 * (1int * 1) == 21);
    }
    assert(((yy - 63) * (yy + 21) + 168 * yy) - ((-yy + 21) * (-yy - 21) + (63 * (x * x)) * (x + x))
        == 126 * ((yy - xxx) - 7)) by (nonlinear_arith)
        requires xxx == (x * x) * x;
    lemma_curve_residue(x, y);
    lemma_multiple_of_zero(126, (yy - xxx) - 7);
    lemma_mod_equivalence((yy - 63) * (yy + 21) + 168 * yy, (-yy + 21) * (-yy - 21) + (63 * (x * x)) * (x + x), pi);
}

/// The addition formula is complete on affine points of the curve: the sum
/// of their projective forms is never `(0, 0, 0)` and stands for their
/// affine sum.
pub proof fn lemma_add_complete_affine(a: AffineCoords, b: AffineCoords)
    requires
        canonical_affine(a),
        canonical_affine(b),
        on_curve_affine(a),
        on_curve_affine(b),
    ensures
        add_spec(from_affine_spec(a), from_affine_spec(b)) != (0int, 0int, 0int),
        to_affine_spec(add_spec(from_affine_spec(a), from_affine_spec(b))) == affine_add_spec(a, b),
{
    let pi = p() as int;
    let fa = from_affine_spec(a);
    let fb = from_affine_spec(b);
    let s = add_spec(fa, fb);
    lemma_small_mod(1, p());
    lemma_small_mod(0, p());
    lemma_zero_not_invertible();
    assert(!a.2 ==> on_curve(fa)) by {
        assert(a.1 * a.1 * 1 == a.1 * a.1 && 7 * (1int * 1 * 1) == 7);
    }
    assert(!b.2 ==> on_curve(fb)) by {
        assert(b.1 * b.1 * 1 == b.1 * b.1 && 7 * (1int * 1 * 1) == 7);
    }
    if !a.2 {
        lemma_curve_y_nonzero(fa);
        lemma_small_mod(a.1 as nat, p());
        lemma_nonzero_invertible(a.1 as nat);
    }
    if !b.2 {
        lemma_curve_y_nonzero(fb);
        lemma_small_mod(b.1 as nat, p());
        lemma_nonzero_invertible(b.1 as nat);
    }
    if !a.2 && !b.2 {
        if a.0 != b.0 {
            assert(modp(b.0 - a.0) != 0) by {
                if b.0 > a.0 {
                    lemma_small_mod((b.0 - a.0) as nat, p());
                } else {
                    lemma_mod_add_multiples_vanish(b.0 - a.0, pi);
                    lemma_small_mod((b.0 - a.0 + pi) as nat, p());
                }
            }
            lemma_mod_bound(b.0 - a.0, pi);
            lemma_nonzero_invertible(modp(b.0 - a.0) as nat);
            lemma_chord_complete(a, b);
            lemma_mod_bound(add_polys(fa, fb).2, pi);
            lemma_nonzero_invertible(s.2 as nat);
        } else if modp(a.1 + b.1) != 0 {
            lemma_mod_bound(a.1 + b.1, pi);
            lemma_nonzero_invertible(modp(a.1 + b.1) as nat);
            lemma_same_x_same_point(a, b);
            lemma_double_is_add(fa);
            lemma_double_finite(a.0, a.1);
            lemma_mod_bound(double_polys(fa).2, pi);
            lemma_nonzero_invertible(s.2 as nat);
        } else {
            // b is the negation of a
            assert(modp(-a.1) == b.1) by {
                lemma_sub_mod_noop(0, a.1, pi);
                lemma_mod_twice(a.1 + b.1, pi);
                lemma_small_mod(b.1 as nat, p());
                lemma_mod_add_multiples_vanish(-a.1, pi);
                lemma_mod_equivalence(-a.1, b.1, pi);
                assert(-a.1 - b.1 == -(a.1 + b.1));
                lemma_sub_mod_noop(0, a.1 + b.1, pi);
            }
            lemma_mod_twice(-a.1, pi);
            lemma_small_mod(a.0 as nat, p());
            lemma_add_spec_cong(fa, fa, fb, (a.0, -a.1, 1));
            lemma_inverse_y(a.0, a.1);
            lemma_double_finite(a.0, a.1);
        }
    } else if !a.2 {
        // b is the identity: the sum is `y_a` times `a`
        lemma_add_identity_coords(fa);
        assert(a.1 * 1 == a.1);
    } else if !b.2 {
        lemma_add_commutative(fa, fb);
        lemma_add_identity_coords(fb);
        assert(b.1 * 1 == b.1);
    } else {
        lemma_identity_double();
    }
    lemma_add_is_group_law(a, b);
}

/// A point of the curve with `z == 0` that is not `(0, 0, 0)` is `(0 : y : 0)`
/// with `y != 0`: the identity.
pub proof fn lemma_curve_infinite(c: Coords)
    requires
        reduced(c),
        on_curve(c),
        c.2 == 0,
        c != (0int, 0int, 0int),
    ensures
        c.0 == 0,
        c.1 != 0,
        modp(c.1) != 0,
{
    let (x, y, z) = c;
    assert(y * y * z == 0 && 7 * (z * z * z) == 0) by (nonlinear_arith)
        requires z == 0;
    lemma_small_mod(0, p());
    if modp(x * x * x) == 0 {
        lemma_no_zero_divisors(x * x, x);
        lemma_no_zero_divisors(x, x);
    }
    lemma_small_mod(x as nat, p());
    lemma_small_mod(y as nat, p());
}

/// Adding to the identity `(0 : y0 : 0)` scales the other point by `y0^2 y`.
proof fn lemma_add_infinite_left(pa: Coords, pb: Coords)
    requires
        reduced(pa),
        reduced(pb),
        on_curve(pa),
        on_curve(pb),
        pa.2 == 0,
        pa != (0int, 0int, 0int),
        pb != (0int, 0int, 0int),
    ensures
        add_spec(pa, pb) != (0int, 0int, 0int),
        to_affine_spec(add_spec(pa, pb)) == to_affine_spec(pb),
{
    let pi = p() as int;
    lemma_curve_infinite(pa);
    let y0 = pa.1;
    let (x, y, z) = pb;
    assert(add_polys(pa, pb) == combine(0, y0 * y, 0, y0 * x, y0 * z, 0)) by {
        assert(0 * x == 0 && 0 * z == 0 && 0 * y == 0);
        assert(0 * y + y0 * x == y0 * x && y0 * z + 0 * y == y0 * z && 0 * z + 0 * x == 0);
    }
    let (u, v, w) = (y0 * x, y0 * y, y0 * z);
    assert(combine(0, v, 0, u, w, 0) == (u * v, v * v, w * v)) by (nonlinear_arith);
    lemma_small_mod(0, p());
    lemma_small_mod(y0 as nat, p());
    lemma_small_mod(z as nat, p());
    if z == 0 {
        lemma_curve_infinite(pb);
        lemma_small_mod(y as nat, p());
        if modp(y0 * y) == 0 {
            lemma_no_zero_divisors(y0, y);
        }
        if modp((y0 * y) * (y0 * y)) == 0 {
            lemma_no_zero_divisors(y0 * y, y0 * y);
        }
        assert((y0 * z) * (y0 * y) == 0) by (nonlinear_arith)
            requires z == 0;
        lemma_zero_not_invertible();
    } else {
        lemma_curve_y_nonzero(pb);
        if modp(y0 * y) == 0 {
            lemma_no_zero_divisors(y0, y);
        }
        if modp((y0 * y) * (y0 * y)) == 0 {
            lemma_no_zero_divisors(y0 * y, y0 * y);
        }
        let k = (y0 * y0) * y;
        assert((y0 * x) * (y0 * y) == k * x && (y0 * y) * (y0 * y) == k * y && (y0 * z) * (y0 * y) == k * z)
            by (nonlinear_arith)
            requires k == (y0 * y0) * y;
        if modp(k) == 0 {
            lemma_no_zero_divisors(y0 * y0, y);
            lemma_no_zero_divisors(y0, y0);
        }
        lemma_mod_bound(k, pi);
        lemma_nonzero_invertible(modp(k) as nat);
        lemma_mul_mod_noop_left(k, x, pi);
        lemma_mul_mod_noop_left(k, y, pi);
        lemma_mul_mod_noop_left(k, z, pi);
        lemma_mod_bound(modp(k) * x, pi);
        lemma_mod_twice(k * x, pi);
        assert(reduce((k * x, k * y, k * z)) == reduce((modp(k) * x, modp(k) * y, modp(k) * z)));
        lemma_scale_same_point(pb, modp(k));
    }
}

/// The addition formula is complete on the curve: for every two points of
/// the curve other than `(0, 0, 0)`, their sum is not `(0, 0, 0)` and stands
/// for the sum of their affine forms in the group law.
pub proof fn lemma_add_complete(pa: Coords, pb: Coords)
    requires
        reduced(pa),
        reduced(pb),
        on_curve(pa),
        on_curve(pb),
        pa != (0int, 0int, 0int),
        pb != (0int, 0int, 0int),
    ensures
        add_spec(pa, pb) != (0int, 0int, 0int),
        to_affine_spec(add_spec(pa, pb)) == affine_add_spec(to_affine_spec(pa), to_affine_spec(pb)),
{
    let pi = p() as int;
    lemma_invertible_iff_nonzero(pa.2 as nat);
    lemma_invertible_iff_nonzero(pb.2 as nat);
    if pa.2 == 0 {
        lemma_add_infinite_left(pa, pb);
    } else if pb.2 == 0 {
        lemma_add_commutative(pa, pb);
        lemma_add_infinite_left(pb, pa);
    } else {
        lemma_add_scaled(pa, pb);
        let a = to_affine_spec(pa);
        let b = to_affine_spec(pb);
        let r = add_spec(from_affine_spec(a), from_affine_spec(b));
        let k = modp((pa.2 * pb.2) * (pa.2 * pb.2));
        lemma_add_complete_affine(a, b);
        let ap = add_polys(from_affine_spec(a), from_affine_spec(b));
        lemma_mod_bound(ap.0, pi);
        lemma_mod_bound(ap.1, pi);
        lemma_mod_bound(ap.2, pi);
        lemma_scale_same_point(r, k);
        if add_spec(pa, pb) == (0int, 0int, 0int) {
            lemma_small_mod(k as nat, p());
            lemma_mod_twice(ap.0, pi);
            lemma_mod_twice(ap.1, pi);
            lemma_mod_twice(ap.2, pi);
            lemma_no_zero_divisors(k, r.0);
            lemma_no_zero_divisors(k, r.1);
            lemma_no_zero_divisors(k, r.2);
        }
    }
}

/// The doubling formula is complete on the curve: for every point of the
/// curve other than `(0, 0, 0)`, its double is not `(0, 0, 0)` and stands for
/// `P + P` in the group law.
pub proof fn lemma_double_complete(pa: Coords)
    requires
        reduced(pa),
        on_curve(pa),
        pa != (0int, 0int, 0int),
    ensures
        double_spec(pa) != (0int, 0int, 0int),
        to_affine_spec(double_spec(pa)) == affine_add_spec(to_affine_spec(pa), to_affine_spec(pa)),
{
    lemma_double_is_add(pa);
    lemma_add_complete(pa, pa);
}

/// The identity `(0 : 1 : 0)` is a reduced point of the curve.
proof fn lemma_identity_point()
    ensures
        reduced(identity_spec()),
        on_curve(identity_spec()),
        identity_spec() != (0int, 0int, 0int),
        to_affine_spec(identity_spec()) == (0int, 0int, true),
{
    lemma_generator_on_curve();
    lemma_zero_not_invertible();
}

/// Mixed addition is complete on the curve: for a point of the curve other
/// than `(0, 0, 0)` and an affine point of the curve, the mixed sum is not
/// `(0, 0, 0)`, stands for their sum in the group law, and stands for the
/// same point as the addition of the projective form of the affine point.
pub proof fn lemma_add_mixed_complete(pa: Coords, b: AffineCoords)
    requires
        reduced(pa),
        on_curve(pa),
        pa != (0int, 0int, 0int),
        canonical_affine(b),
        on_curve_affine(b),
    ensures
        add_mixed_spec(pa, b) != (0int, 0int, 0int),
        to_affine_spec(add_mixed_spec(pa, b)) == affine_add_spec(to_affine_spec(pa), b),
        to_affine_spec(add_mixed_spec(pa, b)) == to_affine_spec(add_spec(pa, from_affine_spec(b))),
{
    lemma_identity_point();
    lemma_small_mod(0, p());
    lemma_small_mod(1, p());
    lemma_zero_not_invertible();
    lemma_add_complete(pa, from_affine_spec(b));
    if !b.2 {
        assert(on_curve(from_affine_spec(b))) by {
            assert(b.1 * b.1 * 1 == b.1 * b.1 && 7 * (1int * 1 * 1) == 7);
        }
    }
    lemma_to_affine_from_affine(b);
    let a = to_affine_spec(pa);
    if b.2 && a.2 {
        assert(a == (0int, 0int, true));
    }
}

/// The identity is neutral for every point of the curve other than
/// `(0, 0, 0)`: `P + O` and `O + P` stand for `P`.
pub proof fn lemma_add_identity_complete(pa: Coords)
    requires
        reduced(pa),
        on_curve(pa),
        pa != (0int, 0int, 0int),
    ensures
        to_affine_spec(add_spec(pa, identity_spec())) == to_affine_spec(pa),
        to_affine_spec(add_spec(identity_spec(), pa)) == to_affine_spec(pa),
{
    lemma_identity_point();
    lemma_add_complete(pa, identity_spec());
    lemma_add_complete(identity_spec(), pa);
    if to_affine_spec(pa).2 {
        assert(to_affine_spec(pa) == (0int, 0int, true));
    }
}

/// A point of the curve plus its negation is the identity in the form
/// `(0 : y : 0)` with `y != 0`.
pub proof fn lemma_add_inverse_complete(pa: Coords)
    requires
        reduced(pa),
        on_curve(pa),
        pa != (0int, 0int, 0int),
    ensures
        add_spec(pa, neg_spec(pa)).0 == 0,
        add_spec(pa, neg_spec(pa)).1 != 0,
        add_spec(pa, neg_spec(pa)).2 == 0,
        on_curve(add_spec(pa, neg_spec(pa))),
{
    let pi = p() as int;
    let n = neg_spec(pa);
    lemma_mod_bound(-pa.1, pi);
    if n == (0int, 0int, 0int) {
        lemma_mod_equivalence(-pa.1, 0, pi);
        lemma_small_mod(0, p());
        vstd::arithmetic::div_mod::lemma_mod_add_multiples_vanish(-pa.1, pi);
        assert(-(-pa.1) == pa.1);
        lemma_sub_mod_noop(0, -pa.1, pi);
        lemma_small_mod(pa.1 as nat, p());
    }
    lemma_neg_on_curve(pa);
    lemma_add_inverse(pa);
    lemma_add_on_curve(pa, n);
    lemma_add_complete(pa, n);
    let r = add_spec(pa, n);
    let ap = add_polys(pa, n);
    lemma_mod_bound(ap.0, pi);
    lemma_mod_bound(ap.1, pi);
    lemma_mod_bound(ap.2, pi);
    lemma_curve_infinite(r);
}

/// Scaling the coordinates by any nonzero factor keeps the point.
pub proof fn lemma_scale_nonzero(a: Coords, k: int)
    requires
        reduced(a),
        0 < k < p(),
    ensures
        to_affine_spec(reduce((k * a.0, k * a.1, k * a.2))) == to_affine_spec(a),
{
    lemma_nonzero_invertible(k as nat);
    lemma_scale_same_point(a, k);
}

/// Subtracting what was added gives back the first point, for all points of
/// the curve other than `(0, 0, 0)`: `(P + Q) - Q` stands for `P`.
pub proof fn lemma_add_sub_cancel_complete(pa: Coords, pb: Coords)
    requires
        reduced(pa),
        reduced(pb),
        on_curve(pa),
        on_curve(pb),
        pa != (0int, 0int, 0int),
        pb != (0int, 0int, 0int),
    ensures
        to_affine_spec(add_spec(add_spec(pa, pb), neg_spec(pb))) == to_affine_spec(pa),
{
    let pi = p() as int;
    let s = add_spec(pa, pb);
    let n = neg_spec(pb);
    let a = to_affine_spec(pa);
    let b = to_affine_spec(pb);
    lemma_add_complete(pa, pb);
    lemma_add_on_curve(pa, pb);
    lemma_neg_on_curve(pb);
    let ap = add_polys(pa, pb);
    lemma_mod_bound(ap.0, pi);
    lemma_mod_bound(ap.1, pi);
    lemma_mod_bound(ap.2, pi);
    lemma_mod_bound(-pb.1, pi);
    if n == (0int, 0int, 0int) {
        lemma_mod_equivalence(-pb.1, 0, pi);
        lemma_small_mod(0, p());
        lemma_sub_mod_noop(0, -pb.1, pi);
        lemma_small_mod(pb.1 as nat, p());
    }
    lemma_add_complete(s, n);
    lemma_to_affine_neg(pb);
    lemma_canonical_to_affine(pa);
    lemma_canonical_to_affine(pb);
    lemma_to_affine_on_curve_any(pa);
    lemma_to_affine_on_curve_any(pb);
    let c = affine_add_spec(a, b);
    if !a.2 && !b.2 {
        if a.0 != b.0 {
            assert(modp(b.0 - a.0) != 0) by {
                if b.0 > a.0 {
                    lemma_small_mod((b.0 - a.0) as nat, p());
                } else {
                    lemma_mod_add_multiples_vanish(b.0 - a.0, pi);
                    lemma_small_mod((b.0 - a.0 + pi) as nat, p());
                }
            }
            lemma_mod_bound(b.0 - a.0, pi);
            lemma_nonzero_invertible(modp(b.0 - a.0) as nat);
        }
        if modp(a.1 + b.1) != 0 {
            lemma_mod_bound(a.1 + b.1, pi);
            lemma_nonzero_invertible(modp(a.1 + b.1) as nat);
        }
        if !c.2 && c.0 == b.0 {
            // the sum is -Q: Q has a nonzero y, and so do 2 y and -2 y
            lemma_to_affine_from_affine(b);
            assert(on_curve(from_affine_spec(b))) by {
                assert(b.1 * b.1 * 1 == b.1 * b.1 && 7 * (1int * 1 * 1) == 7);
            }
            lemma_small_mod(1, p());
            lemma_curve_y_nonzero(from_affine_spec(b));
            lemma_small_mod(2, p());
            lemma_small_mod(b.1 as nat, p());
            lemma_mod_bound(-b.1, pi);
            if modp(2 * b.1) == 0 {
                lemma_no_zero_divisors(2, b.1);
            }
            if modp(-b.1) == 0 {
                lemma_sub_mod_noop(0, -b.1, pi);
                assert(-(-b.1) == b.1);
                lemma_sub_mod_noop(0, b.1, pi);
                lemma_mod_twice(-b.1, pi);
                lemma_small_mod(0, p());
            }
            lemma_mod_twice(-b.1, pi);
            if modp(2 * modp(-b.1)) == 0 {
                lemma_no_zero_divisors(2, modp(-b.1));
            }
            lemma_mod_bound(2 * b.1, pi);
            lemma_mod_bound(2 * modp(-b.1), pi);
            lemma_nonzero_invertible(modp(2 * b.1) as nat);
            lemma_nonzero_invertible(modp(2 * modp(-b.1)) as nat);
            lemma_add_sub_cancel_same_x(a, b);
        } else if !c.2 {
            lemma_canonical_affine_add(a, b);
            assert(modp(b.0 - c.0) != 0) by {
                if b.0 > c.0 {
                    lemma_small_mod((b.0 - c.0) as nat, p());
                } else {
                    lemma_mod_add_multiples_vanish(b.0 - c.0, pi);
                    lemma_small_mod((b.0 - c.0 + pi) as nat, p());
                }
            }
            lemma_mod_bound(b.0 - c.0, pi);
            lemma_nonzero_invertible(modp(b.0 - c.0) as nat);
        }
    }
    if !(!a.2 && !b.2 && !c.2 && c.0 == b.0) {
        lemma_add_sub_cancel(a, b);
    }
}

/// The affine form of a reduced point is canonical.
proof fn lemma_canonical_to_affine(a: Coords)
    requires
        reduced(a),
    ensures
        canonical_affine(to_affine_spec(a)),
{
    lemma_mod_bound(a.0 * inverse(a.2 as nat), p() as int);
    lemma_mod_bound(a.1 * inverse(a.2 as nat), p() as int);
}

/// The affine form of a point of the curve is on the curve.
proof fn lemma_to_affine_on_curve_any(a: Coords)
    requires
        reduced(a),
        on_curve(a),
    ensures
        on_curve_affine(to_affine_spec(a)),
{
    if is_invertible(a.2 as nat) {
        lemma_to_affine_on_curve(a);
    }
}

/// The affine sum of canonical points is canonical.
proof fn lemma_canonical_affine_add(a: AffineCoords, b: AffineCoords)
    requires
        canonical_affine(a),
        canonical_affine(b),
    ensures
        canonical_affine(affine_add_spec(a, b)),
{
    let pi = p() as int;
    if !a.2 && !b.2 {
        if a.0 == b.0 {
            let l = modp((3 * a.0 * a.0) * (inverse(modp(2 * a.1) as nat) as int));
            lemma_mod_bound(l * l - 2 * a.0, pi);
            lemma_mod_bound(l * (a.0 - modp(l * l - 2 * a.0)) - a.1, pi);
        } else {
            let l = modp((b.1 - a.1) * (inverse(modp(b.0 - a.0) as nat) as int));
            lemma_mod_bound(l * l - (a.0 + b.0), pi);
            lemma_mod_bound(l * (a.0 - modp(l * l - (a.0 + b.0))) - a.1, pi);
        }
    }
}

/// β is a nontrivial cube root of one: `1 + β + β^2 == 0` modulo p.
proof fn lemma_beta_root()
    ensures
        modp(1 + beta() + beta() * beta()) == 0,
        1 < beta() < p(),
{
    let b = beta();
    assert(1 + b + b * b == 26692297046159697023221301508138409497602950309272737873543598905544192531517int * (p() as int));
    vstd::arithmetic::div_mod::lemma_mod_multiples_basic(
        26692297046159697023221301508138409497602950309272737873543598905544192531517int, p() as int);
}

/// `-y + y` is zero modulo p, with `-y` reduced.
proof fn lemma_neg_cancel(y: int)
    ensures
        modp(modp(-y) + y) == 0,
{
    let pi = p() as int;
    vstd::arithmetic::div_mod::lemma_add_mod_noop(modp(-y), y, pi);
    vstd::arithmetic::div_mod::lemma_add_mod_noop(-y, y, pi);
    lemma_mod_twice(-y, pi);
    lemma_small_mod(0, p());
}

/// A point `(0, y)` has a horizontal tangent, so `P + P + P` is the identity.
proof fn lemma_endomorphism_sum_zero_x(a: AffineCoords)
    requires
        !a.2,
        a.0 == 0,
        modp(a.1 + a.1) != 0,
    ensures
        affine_add_spec(affine_add_spec(a, a), a).2,
{
    let y = a.1;
    let s = affine_add_spec(a, a);
    assert(3 * a.0 * a.0 == 0);
    lemma_small_mod(0, p());
    assert(s == (0int, modp(-y), false));
    lemma_neg_cancel(y);
}

/// `x + β x + β^2 x == 0`, so `-(x + β x) == β (β x)` modulo p.
proof fn lemma_beta_sum(x: int)
    ensures
        modp(0 * 0 - (x + modp(x * beta()))) == modp(modp(x * beta()) * beta()),
{
    let pi = p() as int;
    let b = beta();
    lemma_beta_root();
    lemma_mod_twice(x * b, pi);
    lemma_mul_mod_noop_left(x * b, b, pi);
    assert((x * b) * b == x * (b * b)) by (nonlinear_arith);
    lemma_multiple_of_zero(x, 1 + b + b * b);
    assert(x * (1 + b + b * b) == x + x * b + x * (b * b)) by (nonlinear_arith);
    vstd::arithmetic::div_mod::lemma_add_mod_noop_right(x, x * b, pi);
    assert(0 * 0 - (x + modp(x * b)) == -(x + modp(x * b)));
    vstd::arithmetic::div_mod::lemma_sub_mod_noop(0, x + modp(x * b), pi);
    vstd::arithmetic::div_mod::lemma_sub_mod_noop(0, x + x * b, pi);
    lemma_small_mod(0, p());
    lemma_mod_equivalence(-(x + x * b), x * (b * b), pi);
}

/// For `x != 0`, the chord through `(x, y)` and `(β x, y)` is horizontal and
/// meets the curve again at `(β^2 x, y)`, so the sum of the three is the identity.
proof fn lemma_endomorphism_sum_chord(a: AffineCoords)
    requires
        canonical_affine(a),
        !a.2,
        a.0 != 0,
    ensures
        affine_add_spec(affine_add_spec(a, affine_endomorphism_spec(a)),
            affine_endomorphism_spec(affine_endomorphism_spec(a))).2,
{
    let pi = p() as int;
    let b = beta();
    let (x, y) = (a.0, a.1);
    lemma_beta_root();
    let bx = modp(x * b);
    if bx == x {
        lemma_small_mod(x as nat, p());
        lemma_mod_equivalence(x * b, x, pi);
        assert(x * b - x == x * (b - 1)) by (nonlinear_arith);
        lemma_no_zero_divisors(x, b - 1);
        lemma_small_mod((b - 1) as nat, p());
    }
    let e1 = affine_endomorphism_spec(a);
    let e2 = affine_endomorphism_spec(e1);
    let s = affine_add_spec(a, e1);
    assert((y - y) * (inverse(modp(bx - x) as nat) as int) == 0);
    lemma_small_mod(0, p());
    let x3 = modp(0 * 0 - (x + bx));
    assert(s == (x3, modp(0 * (x - x3) - y), false));
    assert(0 * (x - x3) - y == -y);
    lemma_beta_sum(x);
    assert(s == (e2.0, modp(-y), false));
    lemma_neg_cancel(y);
}

/// On affine points of the curve, `P + φ(P) + φ²(P)` is the identity.
pub proof fn lemma_endomorphism_sum_affine(a: AffineCoords)
    requires
        canonical_affine(a),
        on_curve_affine(a),
    ensures
        affine_add_spec(affine_add_spec(a, affine_endomorphism_spec(a)),
            affine_endomorphism_spec(affine_endomorphism_spec(a))).2,
{
    if !a.2 {
        if a.0 == 0 {
            let y = a.1;
            assert(on_curve(from_affine_spec(a))) by {
                assert(y * y * 1 == y * y && 7 * (1int * 1 * 1) == 7);
            }
            lemma_small_mod(1, p());
            lemma_small_mod(2, p());
            lemma_small_mod(y as nat, p());
            lemma_curve_y_nonzero(from_affine_spec(a));
            if modp(y + y) == 0 {
                lemma_no_zero_divisors(2, y);
            }
            lemma_small_mod(0, p());
            assert(affine_endomorphism_spec(a) == a);
            assert(affine_endomorphism_spec(affine_endomorphism_spec(a)) == a);
            lemma_endomorphism_sum_zero_x(a);
        } else {
            lemma_endomorphism_sum_chord(a);
        }
    }
}

/// The endomorphism commutes with the passage to affine coordinates.
pub proof fn lemma_to_affine_endomorphism(c: Coords)
    requires
        reduced(c),
    ensures
        to_affine_spec(endomorphism_spec(c)) == affine_endomorphism_spec(to_affine_spec(c)),
{
    let pi = p() as int;
    let b = beta();
    lemma_small_mod(0, p());
    if is_invertible(c.2 as nat) {
        let zi = inverse(c.2 as nat) as int;
        lemma_mul_mod_noop_left(c.0 * b, zi, pi);
        lemma_mul_mod_noop_left(c.0 * zi, b, pi);
        assert((c.0 * b) * zi == (c.0 * zi) * b) by (nonlinear_arith);
    }
}

/// The endomorphism of a reduced point of the curve other than `(0, 0, 0)`
/// is one too.
proof fn lemma_endomorphism_point(c: Coords)
    requires
        reduced(c),
        on_curve(c),
        c != (0int, 0int, 0int),
    ensures
        reduced(endomorphism_spec(c)),
        on_curve(endomorphism_spec(c)),
        endomorphism_spec(c) != (0int, 0int, 0int),
{
    let pi = p() as int;
    lemma_beta_root();
    lemma_mod_bound(c.0 * beta(), pi);
    lemma_endomorphism_on_curve(c);
    if endomorphism_spec(c) == (0int, 0int, 0int) {
        lemma_no_zero_divisors(c.0, beta());
        lemma_small_mod(c.0 as nat, p());
        lemma_small_mod(beta() as nat, p());
    }
}

/// A point of the curve plus its two images under the endomorphism is the
/// identity: `P + φ(P) + φ(φ(P))` has `z == 0`, as `1 + β + β^2 == 0`.
pub proof fn lemma_endomorphism_sum(pa: Coords)
    requires
        reduced(pa),
        on_curve(pa),
        pa != (0int, 0int, 0int),
    ensures
        add_spec(add_spec(pa, endomorphism_spec(pa)), endomorphism_spec(endomorphism_spec(pa))).2 == 0,
        to_affine_spec(add_spec(add_spec(pa, endomorphism_spec(pa)), endomorphism_spec(endomorphism_spec(pa))))
            == (0int, 0int, true),
{
    let pi = p() as int;
    let e1 = endomorphism_spec(pa);
    let e2 = endomorphism_spec(e1);
    lemma_endomorphism_point(pa);
    lemma_endomorphism_point(e1);
    lemma_add_complete(pa, e1);
    let s = add_spec(pa, e1);
    let ap = add_polys(pa, e1);
    lemma_mod_bound(ap.0, pi);
    lemma_mod_bound(ap.1, pi);
    lemma_mod_bound(ap.2, pi);
    lemma_add_on_curve(pa, e1);
    lemma_add_complete(s, e2);
    let f = add_spec(s, e2);
    let fp = add_polys(s, e2);
    lemma_mod_bound(fp.2, pi);
    lemma_to_affine_endomorphism(pa);
    lemma_to_affine_endomorphism(e1);
    lemma_canonical_to_affine(pa);
    lemma_to_affine_on_curve_any(pa);
    lemma_endomorphism_sum_affine(to_affine_spec(pa));
    lemma_invertible_iff_nonzero(f.2 as nat);
}

/// The sum of two reduced points of the curve other than `(0, 0, 0)` is one too.
proof fn lemma_add_point(pa: Coords, pb: Coords)
    requires
        reduced(pa),
        reduced(pb),
        on_curve(pa),
        on_curve(pb),
        pa != (0int, 0int, 0int),
        pb != (0int, 0int, 0int),
    ensures
        reduced(add_spec(pa, pb)),
        on_curve(add_spec(pa, pb)),
        add_spec(pa, pb) != (0int, 0int, 0int),
{
    let ap = add_polys(pa, pb);
    lemma_mod_bound(ap.0, p() as int);
    lemma_mod_bound(ap.1, p() as int);
    lemma_mod_bound(ap.2, p() as int);
    lemma_add_on_curve(pa, pb);
    lemma_add_complete(pa, pb);
}

/// The double of a reduced point of the curve other than `(0, 0, 0)` is one too.
proof fn lemma_double_point(pa: Coords)
    requires
        reduced(pa),
        on_curve(pa),
        pa != (0int, 0int, 0int),
    ensures
        reduced(double_spec(pa)),
        on_curve(double_spec(pa)),
        double_spec(pa) != (0int, 0int, 0int),
{
    lemma_double_is_add(pa);
    lemma_add_point(pa, pa);
}

/// Every multiple of a reduced point of the curve other than `(0, 0, 0)` is one too.
pub proof fn lemma_mul_point(pa: Coords, k: nat)
    requires
        reduced(pa),
        on_curve(pa),
        pa != (0int, 0int, 0int),
    ensures
        reduced(mul_spec(pa, k)),
        on_curve(mul_spec(pa, k)),
        mul_spec(pa, k) != (0int, 0int, 0int),
    decreases k,
{
    if k == 0 {
        lemma_identity_point();
    } else {
        lemma_mul_point(pa, k / 2);
        lemma_double_point(mul_spec(pa, k / 2));
        if k % 2 == 1 {
            lemma_add_point(double_spec(mul_spec(pa, k / 2)), pa);
        }
    }
}

/// The zeroth multiple is the identity, an odd multiple is the even
/// multiple before it plus the point, and an even multiple is the half
/// multiple added to itself, coordinate for coordinate: `[0] P == O`,
/// `[2k+1] P == [2k] P + P` and `[2k] P == [k] P + [k] P`.
pub proof fn lemma_mul_steps(pa: Coords, k: nat)
    requires
        reduced(pa),
        on_curve(pa),
        pa != (0int, 0int, 0int),
    ensures
        mul_spec(pa, 0) == identity_spec(),
        mul_spec(pa, 2 * k + 1) == add_spec(mul_spec(pa, 2 * k), pa),
        mul_spec(pa, 2 * k) == add_spec(mul_spec(pa, k), mul_spec(pa, k)),
{
    assert((2 * k + 1) / 2 == k && (2 * k + 1) % 2 == 1);
    lemma_mul_point(pa, k);
    lemma_double_is_add(mul_spec(pa, k));
    if k > 0 {
        assert((2 * k) / 2 == k && (2 * k) % 2 == 0);
    } else {
        assert(mul_spec(pa, 0) == identity_spec());
        lemma_identity_double();
    }
}

/// A multiple depends only on the point, not on its projective
/// coordinates: `[k] P` and `[k] Q` stand for the same point whenever `P`
/// and `Q` do.
pub proof fn lemma_mul_projective_class(pa: Coords, pb: Coords, k: nat)
    requires
        reduced(pa),
        reduced(pb),
        on_curve(pa),
        on_curve(pb),
        pa != (0int, 0int, 0int),
        pb != (0int, 0int, 0int),
        to_affine_spec(pa) == to_affine_spec(pb),
    ensures
        to_affine_spec(mul_spec(pa, k)) == to_affine_spec(mul_spec(pb, k)),
    decreases k,
{
    if k > 0 {
        let ma = mul_spec(pa, k / 2);
        let mb = mul_spec(pb, k / 2);
        lemma_mul_projective_class(pa, pb, k / 2);
        lemma_mul_point(pa, k / 2);
        lemma_mul_point(pb, k / 2);
        lemma_double_complete(ma);
        lemma_double_complete(mb);
        if k % 2 == 1 {
            lemma_double_point(ma);
            lemma_double_point(mb);
            lemma_add_complete(double_spec(ma), pa);
            lemma_add_complete(double_spec(mb), pb);
        }
    }
}

/// Each point of a sequence enters its sum: the sum of `s` followed by `q`
/// is the sum of `s` plus `q`, coordinate for coordinate.
pub proof fn lemma_sum_push(s: Seq<Coords>, q: Coords)
    ensures
        sum_spec(s.push(q)) == add_spec(sum_spec(s), q),
        sum_spec(Seq::<Coords>::empty()) == identity_spec(),
{
    assert(s.push(q).drop_last() =~= s);
}

/// A sum depends only on the points summed, not on their projective
/// coordinates: sequences whose points stand for the same affine points
/// have sums that stand for the same point.
pub proof fn lemma_sum_projective_class(s: Seq<Coords>, t: Seq<Coords>)
    requires
        s.len() == t.len(),
        forall|i: int| 0 <= i < s.len() ==> reduced(#[trigger] s[i]) && on_curve(s[i]) && s[i] != (0int, 0int, 0int),
        forall|i: int| 0 <= i < t.len() ==> reduced(#[trigger] t[i]) && on_curve(t[i]) && t[i] != (0int, 0int, 0int),
        forall|i: int| 0 <= i < s.len() ==> to_affine_spec(#[trigger] s[i]) == to_affine_spec(t[i]),
    ensures
        to_affine_spec(sum_spec(s)) == to_affine_spec(sum_spec(t)),
        reduced(sum_spec(s)),
        on_curve(sum_spec(s)),
        sum_spec(s) != (0int, 0int, 0int),
        reduced(sum_spec(t)),
        on_curve(sum_spec(t)),
        sum_spec(t) != (0int, 0int, 0int),
    decreases s.len(),
{
    if s.len() == 0 {
        lemma_identity_point();
    } else {
        let s1 = s.drop_last();
        let t1 = t.drop_last();
        assert forall|i: int| 0 <= i < s1.len() implies reduced(#[trigger] s1[i]) && on_curve(s1[i])
            && s1[i] != (0int, 0int, 0int) && to_affine_spec(s1[i]) == to_affine_spec(t1[i]) by {
            assert(s1[i] == s[i] && t1[i] == t[i]);
        }
        assert forall|i: int| 0 <= i < t1.len() implies reduced(#[trigger] t1[i]) && on_curve(t1[i])
            && t1[i] != (0int, 0int, 0int) by {
            assert(t1[i] == t[i]);
        }
        lemma_sum_projective_class(s1, t1);
        let ls = s[s.len() - 1];
        let lt = t[t.len() - 1];
        lemma_add_point(sum_spec(s1), ls);
        lemma_add_point(sum_spec(t1), lt);
        lemma_add_complete(sum_spec(s1), ls);
        lemma_add_complete(sum_spec(t1), lt);
    }
}

/// For every point, the zeroth multiple is the identity and an odd multiple
/// is the even multiple before it plus the point: `[2k+1] P == [2k] P + P`.
pub proof fn lemma_mul_odd_step(pa: Coords, k: nat)
    ensures
        mul_spec(pa, 0) == identity_spec(),
        mul_spec(pa, 2 * k + 1) == add_spec(mul_spec(pa, 2 * k), pa),
{
    assert((2 * k + 1) / 2 == k && (2 * k + 1) % 2 == 1);
    if k > 0 {
        assert((2 * k) / 2 == k && (2 * k) % 2 == 0);
    } else {
        lemma_identity_double();
    }
}

} // verus!
