//! The mathematical model of the curve arithmetic: points as integer
//! coordinates, the projective formulas of Renes, Costello and Batina (2015)
//! for `y^2 = x^3 + 7` as polynomials reduced modulo p, and the affine
//! points and encodings they stand for.
use vstd::prelude::*;
use crate::field::{p, be_value, is_invertible, inverse};

verus! {

/// Reduction of an integer modulo p.
#[verifier::inline]
pub open spec fn modp(e: int) -> int {
    e % (p() as int)
}

/// Coordinates of a projective point as integers.
pub type Coords = (int, int, int);

/// The last stage of the complete addition formula (Algorithm 7 of
/// Renes-Costello-Batina with `3b = 21`), from the products
/// `xx = x1 x2`, `yy = y1 y2`, `zz = z1 z2` and the cross terms
/// `xy = x1 y2 + y1 x2`, `yz = y1 z2 + z1 y2`, `xz = x1 z2 + z1 x2`.
pub open spec fn combine(xx: int, yy: int, zz: int, xy: int, yz: int, xz: int) -> Coords {
    (
        xy * (yy - 21 * zz) - (21 * yz) * xz,
        (yy + 21 * zz) * (yy - 21 * zz) + (63 * xx) * xz,
        yz * (yy + 21 * zz) + (3 * xx) * xy,
    )
}

/// Coordinatewise reduction modulo p.
pub open spec fn reduce(c: Coords) -> Coords {
    (modp(c.0), modp(c.1), modp(c.2))
}

/// The complete addition formula as integer polynomials in the coordinates.
pub open spec fn add_polys(a: Coords, b: Coords) -> Coords {
    let (x1, y1, z1) = a;
    let (x2, y2, z2) = b;
    combine(x1 * x2, y1 * y2, z1 * z2, x1 * y2 + y1 * x2, y1 * z2 + z1 * y2, x1 * z2 + z1 * x2)
}

/// The sum of two points in projective coordinates.
pub open spec fn add_spec(a: Coords, b: Coords) -> Coords {
    reduce(add_polys(a, b))
}

/// The doubling formula (Algorithm 9 of Renes-Costello-Batina), as integer
/// polynomials in the coordinates.
pub open spec fn double_polys(a: Coords) -> Coords {
    let (x, y, z) = a;
    let yy = y * y;
    let zz = z * z;
    (
        (2 * (x * y)) * (yy - 63 * zz),
        (yy - 63 * zz) * (yy + 21 * zz) + 168 * (yy * zz),
        8 * ((yy * y) * z),
    )
}

/// Twice a point in projective coordinates.
pub open spec fn double_spec(a: Coords) -> Coords {
    reduce(double_polys(a))
}

/// The negation of a point: `(x, -y, z)`.
pub open spec fn neg_spec(a: Coords) -> Coords {
    (a.0, modp(-a.1), a.2)
}

/// The projective identity `(0 : 1 : 0)`.
pub open spec fn identity_spec() -> Coords {
    (0, 1, 0)
}

/// A point in projective coordinates on the curve: `y^2 z = x^3 + 7 z^3`.
pub open spec fn on_curve(a: Coords) -> bool {
    let (x, y, z) = a;
    modp(y * y * z) == modp(x * x * x + 7 * (z * z * z))
}

/// Coordinates of an affine point and whether it is the point at infinity.
pub type AffineCoords = (int, int, bool);

/// An affine point on the curve `y^2 = x^3 + 7`, or the point at infinity.
pub open spec fn on_curve_affine(a: AffineCoords) -> bool {
    a.2 || modp(a.1 * a.1) == modp(a.0 * a.0 * a.0 + 7)
}

/// The affine point `(x/z, y/z)` that `(x : y : z)` stands for, or the point
/// at infinity `(0, 0)` when `z` has no inverse.
pub open spec fn to_affine_spec(c: Coords) -> AffineCoords {
    let z = c.2 as nat;
    if is_invertible(z) {
        (modp(c.0 * inverse(z)), modp(c.1 * inverse(z)), false)
    } else {
        (0, 0, true)
    }
}

/// The projective form of an affine point: `(x : y : 1)`, or the identity.
pub open spec fn from_affine_spec(a: AffineCoords) -> Coords {
    if a.2 {
        identity_spec()
    } else {
        (a.0, a.1, 1)
    }
}

/// The negation of an affine point.
pub open spec fn affine_neg_spec(a: AffineCoords) -> AffineCoords {
    (a.0, modp(-a.1), a.2)
}

/// Mixed addition: a projective point plus an affine point.
pub open spec fn add_mixed_spec(a: Coords, b: AffineCoords) -> Coords {
    if b.2 {
        a
    } else {
        add_spec(a, (b.0, b.1, 1))
    }
}

/// The cube root of unity β of GF(p) used by the secp256k1 endomorphism.
pub open spec fn beta() -> int {
    0x7ae96a2b657c07106e64479eac3434e99cf0497512f58995c1396c28719501eeint
}

/// The endomorphism `(x, y) -> (β x, y)`, which is multiplication by the
/// scalar λ.
pub open spec fn endomorphism_spec(a: Coords) -> Coords {
    (modp(a.0 * beta()), a.1, a.2)
}

/// The endomorphism on affine points: `(x, y) -> (β x, y)`.
pub open spec fn affine_endomorphism_spec(a: AffineCoords) -> AffineCoords {
    (modp(a.0 * beta()), a.1, a.2)
}

/// The order n of the base point.
pub open spec fn group_order() -> int {
    0xFFFFFFFFFFFFFFFFFFFFFFFFFFFFFFFEBAAEDCE6AF48A03BBFD25E8CD0364141int
}

/// The x coordinate of the base point.
pub open spec fn generator_x() -> int {
    0x79BE667EF9DCBBAC55A06295CE870B07029BFCDB2DCE28D959F2815B16F81798int
}

/// The y coordinate of the base point.
pub open spec fn generator_y() -> int {
    0x483ADA7726A3C4655DA4FBFC0E1108A8FD17B448A68554199C47D08FFB10D4B8int
}

/// The sum `O + s[0] + s[1] + ...` of a sequence of points, added from the left.
pub open spec fn sum_spec(s: Seq<Coords>) -> Coords
    decreases s.len(),
{
    if s.len() == 0 {
        identity_spec()
    } else {
        add_spec(sum_spec(s.drop_last()), s.last())
    }
}

/// The multiple `[k] P` by double-and-add from the most significant bit.
pub open spec fn mul_spec(a: Coords, k: nat) -> Coords
    decreases k,
{
    if k == 0 {
        identity_spec()
    } else {
        let h = double_spec(mul_spec(a, k / 2));
        if k % 2 == 1 {
            add_spec(h, a)
        } else {
            h
        }
    }
}

/// The identity doubles to itself, and added to itself gives itself.
pub proof fn lemma_identity_double()
    ensures
        double_spec(identity_spec()) == identity_spec(),
        add_spec(identity_spec(), identity_spec()) == identity_spec(),
{
    vstd::arithmetic::div_mod::lemma_small_mod(0, p());
    vstd::arithmetic::div_mod::lemma_small_mod(1, p());
}

/// The SEC1 encoding of an affine point: `[0]` for the identity, otherwise
/// `[2 + (y odd)] ++ x` when compressed and `[4] ++ x ++ y` when not, the
/// coordinates as 32 big-endian bytes.
pub open spec fn is_sec1_encoding(e: Seq<u8>, a: AffineCoords, compress: bool) -> bool {
    if a.2 {
        e == seq![0u8]
    } else if compress {
        &&& e.len() == 33
        &&& e[0] == (if a.1 % 2 == 1 { 3u8 } else { 2u8 })
        &&& be_value(e.subrange(1, 33)) == a.0
    } else {
        &&& e.len() == 65
        &&& e[0] == 4u8
        &&& be_value(e.subrange(1, 33)) == a.0
        &&& be_value(e.subrange(33, 65)) == a.1
    }
}

} // verus!
