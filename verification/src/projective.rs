//! Points of secp256k1 in projective coordinates, with the complete
//! addition formulas of Renes, Costello and Batina (2015) specialised to
//! `a = 0`, `b = 7`.
use vstd::prelude::*;
use crate::prime::lemma_invertible_iff_nonzero;
use vstd::std_specs::cmp::PartialEqSpecImpl;
use crate::field::{p, be_value, be_bytes_value, be_bytes_below, lemma_be_values_agree, is_invertible, FieldElement, lemma_cong_add, lemma_cong_sub, lemma_cong_mul};
use crate::model::{
    modp, Coords, combine, reduce, add_spec, double_spec, neg_spec, identity_spec, to_affine_spec,
    from_affine_spec, affine_neg_spec, add_mixed_spec, endomorphism_spec, group_order, generator_x,
    generator_y, sum_spec, mul_spec, is_sec1_encoding, lemma_identity_double,
};
use crate::affine::AffinePoint;

verus! {

/// A point of secp256k1 in projective coordinates `(x : y : z)`, standing
/// for the affine point `(x/z, y/z)`, or the point at infinity when `z` has no
/// inverse.
#[derive(Clone, Copy, Debug)]
pub struct ProjectivePoint {
    x: FieldElement,
    y: FieldElement,
    z: FieldElement,
}

impl View for ProjectivePoint {
    type V = Coords;

    closed spec fn view(&self) -> Coords {
        (self.x@ as int, self.y@ as int, self.z@ as int)
    }
}

impl ProjectivePoint {
    /// Additive identity of the group: the point at infinity `(0 : 1 : 0)`.
    pub fn identity() -> (r: ProjectivePoint)
        ensures
            r@ == identity_spec(),
    {
        ProjectivePoint { x: FieldElement::zero(), y: FieldElement::one(), z: FieldElement::zero() }
    }

    /// The base point of secp256k1, `(gx : gy : 1)`.
    pub fn generator() -> (r: ProjectivePoint)
        ensures
            r@ == (generator_x(), generator_y(), 1int),
    {
        let g = AffinePoint::generator();
        ProjectivePoint { x: g.x, y: g.y, z: FieldElement::one() }
    }

    /// Returns the affine representation of this point, or the identity
    /// when `z` has no inverse.
    pub fn to_affine(&self) -> (r: AffinePoint)
        ensures
            r@ == to_affine_spec(self@),
            r.infinity <==> self@.2 == 0,
    {
        proof {
            self.lemma_coords_bound();
            lemma_invertible_iff_nonzero(self@.2 as nat);
        }
        match self.z.invert() {
            Some(zinv) => AffinePoint { x: self.x.mul(&zinv), y: self.y.mul(&zinv), infinity: false },
            None => AffinePoint::identity(),
        }
    }

    /// The projective form of an affine point.
    pub fn from(p: AffinePoint) -> (r: ProjectivePoint)
        ensures
            r@ == from_affine_spec(p@),
    {
        let projective = ProjectivePoint { x: p.x, y: p.y, z: FieldElement::one() };
        Self::conditional_select(&projective, &Self::identity(), p.is_identity())
    }

    /// Returns `b` when `choice` holds, and `a` otherwise, without branching
    /// on `choice`.
    pub fn conditional_select(a: &ProjectivePoint, b: &ProjectivePoint, choice: bool) -> (r: ProjectivePoint)
        ensures
            r@ == (if choice { b@ } else { a@ }),
    {
        ProjectivePoint {
            x: FieldElement::conditional_select(&a.x, &b.x, choice),
            y: FieldElement::conditional_select(&a.y, &b.y, choice),
            z: FieldElement::conditional_select(&a.z, &b.z, choice),
        }
    }

    /// Returns `-self`.
    pub fn neg(&self) -> (r: ProjectivePoint)
        ensures
            r@ == neg_spec(self@),
    {
        ProjectivePoint { x: self.x, y: self.y.negate(), z: self.z }
    }

    /// Returns `self - other`.
    pub fn sub(&self, other: &ProjectivePoint) -> (r: ProjectivePoint)
        ensures
            r@ == add_spec(self@, neg_spec(other@)),
    {
        self.add(&other.neg())
    }

    /// Returns `self + other` for an affine `other`, by the mixed complete
    /// addition formula (Algorithm 8 of Renes-Costello-Batina); `self` itself
    /// when `other` is the point at infinity.
    pub fn add_mixed(&self, other: &AffinePoint) -> (r: ProjectivePoint)
        ensures
            r@ == add_mixed_spec(self@, other@),
    {
        let ghost (x1, y1, z1) = self@;
        let ghost (x2, y2) = (other.x@ as int, other.y@ as int);
        proof {
            self.lemma_coords_bound();
            other.x.lemma_view_reduced();
            other.y.lemma_view_reduced();
            self.x.lemma_view_reduced();
            self.y.lemma_view_reduced();
            self.z.lemma_view_reduced();
        }
        let xx = self.x.mul(&other.x);
        let yy = self.y.mul(&other.y);
        let xy_pairs = cross_term(&self.x, &self.y, &other.x, &other.y, &xx, &yy);
        let yz = other.y.mul(&self.z);
        let yz_pairs = yz.add(&self.y);
        let xz = other.x.mul(&self.z);
        let xz_pairs = xz.add(&self.x);
        proof {
            lemma_cong_add(yz@ as int, y2 * z1, y1, y1);
            lemma_cong_add(xz@ as int, x2 * z1, x1, x1);
            assert(y2 * z1 + y1 == y1 * 1 + z1 * y2) by (nonlinear_arith);
            assert(x2 * z1 + x1 == x1 * 1 + z1 * x2) by (nonlinear_arith);
            assert(z1 == z1 * 1);
        }
        let ret = finish_addition(&xx, &yy, &self.z, &xy_pairs, &yz_pairs, &xz_pairs);
        proof {
            lemma_combine_cong(
                xx@ as int, x1 * x2, yy@ as int, y1 * y2, z1, z1 * 1,
                xy_pairs@ as int, x1 * y2 + y1 * x2, yz_pairs@ as int, y1 * 1 + z1 * y2,
                xz_pairs@ as int, x1 * 1 + z1 * x2,
            );
        }
        Self::conditional_select(&ret, self, other.is_identity())
    }

    /// Returns `self - other` for an affine `other`.
    pub fn sub_mixed(&self, other: &AffinePoint) -> (r: ProjectivePoint)
        ensures
            r@ == add_mixed_spec(self@, affine_neg_spec(other@)),
    {
        self.add_mixed(&other.neg())
    }

    /// Calculates the secp256k1 endomorphism: `self * lambda`, which maps
    /// `(x : y : z)` to `(β x : y : z)`.
    pub fn endomorphism(&self) -> (r: ProjectivePoint)
        ensures
            r@ == endomorphism_spec(self@),
    {
        let b = FieldElement::from_canonical_limbs(
            0xC1396C28719501EE, 0x9CF0497512F58995, 0x6E64479EAC3434E9, 0x7AE96A2B657C0710);
        ProjectivePoint { x: self.x.mul(&b), y: self.y, z: self.z }
    }

    /// Equality as points of the curve: the affine forms coincide.
    pub fn equals(&self, other: &ProjectivePoint) -> (r: bool)
        ensures
            r == (to_affine_spec(self@) == to_affine_spec(other@)),
    {
        self.to_affine().equals(&other.to_affine())
    }

    /// Whether this point is the identity, the point at infinity.
    pub fn is_identity(&self) -> (r: bool)
        ensures
            r == to_affine_spec(self@).2,
            r == (self@.2 == 0),
    {
        proof {
            self.lemma_coords_bound();
            lemma_invertible_iff_nonzero(self@.2 as nat);
        }
        let r = self.equals(&Self::identity());
        proof {
            assert(!is_invertible(0)) by {
                if is_invertible(0) {
                    let w = choose|w: nat| #[trigger] ((0 * w) % p()) == 1;
                    assert(0 * w == 0);
                }
            }
        }
        r
    }

    /// `self = self + rhs`.
    pub fn add_assign(&mut self, rhs: &ProjectivePoint)
        ensures
            final(self)@ == add_spec(old(self)@, rhs@),
    {
        *self = self.add(rhs);
    }

    /// `self = self - rhs`.
    pub fn sub_assign(&mut self, rhs: &ProjectivePoint)
        ensures
            final(self)@ == add_spec(old(self)@, neg_spec(rhs@)),
    {
        *self = self.sub(rhs);
    }

    /// `self = self + rhs` for an affine `rhs`.
    pub fn add_assign_affine(&mut self, rhs: &AffinePoint)
        ensures
            final(self)@ == add_mixed_spec(old(self)@, rhs@),
    {
        *self = self.add_mixed(rhs);
    }

    /// `self = self - rhs` for an affine `rhs`.
    pub fn sub_assign_affine(&mut self, rhs: &AffinePoint)
        ensures
            final(self)@ == add_mixed_spec(old(self)@, affine_neg_spec(rhs@)),
    {
        *self = self.sub_mixed(rhs);
    }
}

impl ProjectivePoint {
    /// Each coordinate is a residue below p.
    pub proof fn lemma_coords_bound(self)
        ensures
            0 <= self@.0 < p(),
            0 <= self@.1 < p(),
            0 <= self@.2 < p(),
    {
        self.x.lemma_view_bound();
        self.y.lemma_view_bound();
        self.z.lemma_view_bound();
    }

    /// Returns `self + other`, by the complete addition formula.
    pub fn add(&self, other: &ProjectivePoint) -> (r: ProjectivePoint)
        ensures
            r@ == add_spec(self@, other@),
    {
        let ghost (x1, y1, z1) = self@;
        let ghost (x2, y2, z2) = other@;
        proof {
            self.lemma_coords_bound();
            other.lemma_coords_bound();
        }
        let xx = self.x.mul(&other.x);
        let yy = self.y.mul(&other.y);
        let zz = self.z.mul(&other.z);
        let xy_pairs = cross_term(&self.x, &self.y, &other.x, &other.y, &xx, &yy);
        let yz_pairs = cross_term(&self.y, &self.z, &other.y, &other.z, &yy, &zz);
        let xz_pairs = cross_term(&self.x, &self.z, &other.x, &other.z, &xx, &zz);
        let r = finish_addition(&xx, &yy, &zz, &xy_pairs, &yz_pairs, &xz_pairs);
        proof {
            lemma_combine_cong(
                xx@ as int, x1 * x2, yy@ as int, y1 * y2, zz@ as int, z1 * z2,
                xy_pairs@ as int, x1 * y2 + y1 * x2, yz_pairs@ as int, y1 * z2 + z1 * y2,
                xz_pairs@ as int, x1 * z2 + z1 * x2,
            );
        }
        r
    }
}

impl ProjectivePoint {
    /// Doubles this point, by the doubling formula.
    pub fn double(&self) -> (r: ProjectivePoint)
        ensures
            r@ == double_spec(self@),
    {
        let ghost (x, y, z) = self@;
        proof { self.lemma_coords_bound(); }
        let yy = self.y.square();
        let zz = self.z.square();
        let xy = self.x.mul(&self.y);
        let xy2 = xy.double();
        let bzz3 = times_3b(&zz);
        let bzz9 = times_3(&bzz3);
        let yy_m_bzz9 = yy.sub(&bzz9);
        let yy_p_bzz3 = yy.add(&bzz3);
        proof {
            lemma_cong_mul(2, 2, xy@ as int, x * y);
            lemma_cong_mul(21, 21, zz@ as int, z * z);
            lemma_cong_mul(3, 3, bzz3@ as int, 21 * (z * z));
            lemma_cong_sub(yy@ as int, y * y, bzz9@ as int, 3 * (21 * (z * z)));
            lemma_cong_add(yy@ as int, y * y, bzz3@ as int, 21 * (z * z));
        }
        let ghost yy_i = y * y;
        let ghost zz_i = z * z;
        assert(yy_m_bzz9@ == modp(yy_i - 63 * zz_i));
        assert(yy_p_bzz3@ == modp(yy_i + 21 * zz_i));

        let yy_zz = yy.mul(&zz);
        let yy_zz8 = times_8(&yy_zz);
        let yy_zz24 = times_3(&yy_zz8);
        let t = yy_zz24.mul_single(7);
        proof {
            lemma_cong_mul(yy@ as int, yy_i, zz@ as int, zz_i);
            lemma_cong_mul(8, 8, yy_zz@ as int, yy_i * zz_i);
            lemma_cong_mul(3, 3, yy_zz8@ as int, 8 * (yy_i * zz_i));
            lemma_cong_mul(yy_zz24@ as int, 3 * (8 * (yy_i * zz_i)), 7, 7);
        }
        assert(t@ == modp(168 * (yy_i * zz_i)));

        let new_x = xy2.mul(&yy_m_bzz9);
        let m = yy_m_bzz9.mul(&yy_p_bzz3);
        let new_y = m.add(&t);
        proof {
            lemma_cong_mul(xy2@ as int, 2 * (x * y), yy_m_bzz9@ as int, yy_i - 63 * zz_i);
            lemma_cong_mul(yy_m_bzz9@ as int, yy_i - 63 * zz_i, yy_p_bzz3@ as int, yy_i + 21 * zz_i);
            lemma_cong_add(m@ as int, (yy_i - 63 * zz_i) * (yy_i + 21 * zz_i), t@ as int, 168 * (yy_i * zz_i));
        }

        let yyy = yy.mul(&self.y);
        let yyyz = yyy.mul(&self.z);
        let new_z = times_8(&yyyz);
        proof {
            self.y.lemma_view_reduced();
            self.z.lemma_view_reduced();
            lemma_cong_mul(yy@ as int, yy_i, y, y);
            lemma_cong_mul(yyy@ as int, yy_i * y, z, z);
            lemma_cong_mul(8, 8, yyyz@ as int, (yy_i * y) * z);
        }
        ProjectivePoint { x: new_x, y: new_y, z: new_z }
    }
}

impl ProjectivePoint {
    /// The sum of a sequence of points, added from the left to the identity.
    pub fn sum(points: &[ProjectivePoint]) -> (r: ProjectivePoint)
        ensures
            r@ == sum_spec(points@.map_values(|q: ProjectivePoint| q@)),
    {
        let ghost s = points@.map_values(|q: ProjectivePoint| q@);
        let mut acc = Self::identity();
        let mut i: usize = 0;
        assert(s.take(0) =~= Seq::<Coords>::empty());
        while i < points.len()
            invariant
                i <= points.len(),
                s == points@.map_values(|q: ProjectivePoint| q@),
                acc@ == sum_spec(s.take(i as int)),
            decreases points.len() - i,
        {
            acc = acc.add(&points[i]);
            proof {
                assert(s.take(i + 1).drop_last() =~= s.take(i as int));
            }
            i = i + 1;
        }
        assert(s.take(i as int) =~= s);
        acc
    }

    /// The multiple `[k] self` for a scalar `k` given by its 32 big-endian
    /// bytes, by double-and-add from the most significant bit.
    pub fn mul(&self, k: &[u8; 32]) -> (r: ProjectivePoint)
        ensures
            r@ == mul_spec(self@, be_value(k@) as nat),
    {
        let mut acc = Self::identity();
        let mut i: usize = 0;
        let ghost mut n: nat = 0;
        assert(k@.take(0) =~= Seq::<u8>::empty());
        while i < 32
            invariant
                i <= 32,
                n == be_bytes_value(k@.take(i as int)),
                acc@ == mul_spec(self@, n),
            decreases 32 - i,
        {
            let b = k[i];
            let b7 = (b >> 7u8) & 1 == 1;
            let b6 = (b >> 6u8) & 1 == 1;
            let b5 = (b >> 5u8) & 1 == 1;
            let b4 = (b >> 4u8) & 1 == 1;
            let b3 = (b >> 3u8) & 1 == 1;
            let b2 = (b >> 2u8) & 1 == 1;
            let b1 = (b >> 1u8) & 1 == 1;
            let b0 = b & 1 == 1;
            proof {
                assert(b == ((b >> 7u8) & 1) * 128 + ((b >> 6u8) & 1) * 64 + ((b >> 5u8) & 1) * 32
                    + ((b >> 4u8) & 1) * 16 + ((b >> 3u8) & 1) * 8 + ((b >> 2u8) & 1) * 4
                    + ((b >> 1u8) & 1) * 2 + (b & 1)) by (bit_vector);
                assert(((b >> 7u8) & 1) <= 1 && ((b >> 6u8) & 1) <= 1 && ((b >> 5u8) & 1) <= 1
                    && ((b >> 4u8) & 1) <= 1 && ((b >> 3u8) & 1) <= 1 && ((b >> 2u8) & 1) <= 1
                    && ((b >> 1u8) & 1) <= 1 && (b & 1) <= 1) by (bit_vector);
            }
            let ghost v = |c: bool| if c { 1nat } else { 0nat };
            let ghost n7 = 2 * n + v(b7);
            let ghost n6 = 2 * n7 + v(b6);
            let ghost n5 = 2 * n6 + v(b5);
            let ghost n4 = 2 * n5 + v(b4);
            let ghost n3 = 2 * n4 + v(b3);
            let ghost n2 = 2 * n3 + v(b2);
            let ghost n1 = 2 * n2 + v(b1);
            let ghost n0 = 2 * n1 + v(b0);
            acc = double_and_add(&acc, self, b7, Ghost(n));
            acc = double_and_add(&acc, self, b6, Ghost(n7));
            acc = double_and_add(&acc, self, b5, Ghost(n6));
            acc = double_and_add(&acc, self, b4, Ghost(n5));
            acc = double_and_add(&acc, self, b3, Ghost(n4));
            acc = double_and_add(&acc, self, b2, Ghost(n3));
            acc = double_and_add(&acc, self, b1, Ghost(n2));
            acc = double_and_add(&acc, self, b0, Ghost(n1));
            proof {
                assert(n0 == n * 256 + b);
                assert(k@.take(i + 1).drop_last() =~= k@.take(i as int));
                assert(k@.take(i + 1).last() == b);
                n = n0;
            }
            i = i + 1;
        }
        assert(k@.take(32) =~= k@);
        proof { lemma_be_values_agree(k@); }
        acc
    }

    /// The multiple `[k] G` of the base point for a scalar `k` below the
    /// group order, given by its 32 big-endian bytes; `None` for `k >= n`.
    pub fn generator_multiple(k: &[u8; 32]) -> (r: Option<ProjectivePoint>)
        ensures
            r is Some <==> be_value(k@) < group_order(),
            r matches Some(q) ==> q@ == mul_spec((generator_x(), generator_y(), 1int), be_value(k@) as nat),
    {
        if be_bytes_below(k, 0xBFD25E8CD0364141, 0xBAAEDCE6AF48A03B, 0xFFFFFFFFFFFFFFFE, 0xFFFFFFFFFFFFFFFF) {
            Some(Self::generator().mul(k))
        } else {
            None
        }
    }
}

impl ProjectivePoint {
    /// The SEC1 encoding of the affine form of this point.
    pub fn to_encoded_point(&self, compress: bool) -> (r: Vec<u8>)
        ensures
            is_sec1_encoding(r@, to_affine_spec(self@), compress),
    {
        self.to_affine().to_encoded_point(compress)
    }

    /// The 33-byte compressed encoding of the affine form of this point; all
    /// zero bytes for the identity.
    pub fn to_bytes(&self) -> (r: [u8; 33])
        ensures
            to_affine_spec(self@).2 ==> r@ == Seq::new(33, |i: int| 0u8),
            !to_affine_spec(self@).2 ==> is_sec1_encoding(r@, to_affine_spec(self@), true),
    {
        self.to_affine().to_bytes()
    }
}

impl PartialEq for ProjectivePoint {
    /// Equality as points of the curve.
    fn eq(&self, other: &Self) -> (r: bool) {
        self.equals(other)
    }
}

impl Eq for ProjectivePoint {}

impl PartialEqSpecImpl for ProjectivePoint {
    open spec fn obeys_eq_spec() -> bool {
        true
    }

    open spec fn eq_spec(&self, other: &Self) -> bool {
        to_affine_spec(self@) == to_affine_spec(other@)
    }
}

impl Default for ProjectivePoint {
    /// The identity.
    fn default() -> (r: Self)
        ensures
            r@ == identity_spec(),
    {
        Self::identity()
    }
}

/// `(a1 + b1)(a2 + b2) - (a1 a2 + b1 b2) = a1 b2 + b1 a2`, from the products
/// `aa = a1 a2` and `bb = b1 b2`.
fn cross_term(
    a1: &FieldElement,
    b1: &FieldElement,
    a2: &FieldElement,
    b2: &FieldElement,
    aa: &FieldElement,
    bb: &FieldElement,
) -> (r: FieldElement)
    requires
        aa@ == (a1@ * a2@) % p(),
        bb@ == (b1@ * b2@) % p(),
    ensures
        r@ == modp((a1@ * b2@ + b1@ * a2@) as int),
{
    let s1 = a1.add(b1);
    let s2 = a2.add(b2);
    let m = s1.mul(&s2);
    let s = aa.add(bb);
    let r = m.sub(&s);
    proof {
        let (x1, y1, x2, y2) = (a1@ as int, b1@ as int, a2@ as int, b2@ as int);
        a1.lemma_view_bound();
        lemma_cong_mul(s1@ as int, x1 + y1, s2@ as int, x2 + y2);
        lemma_cong_add(aa@ as int, x1 * x2, bb@ as int, y1 * y2);
        lemma_cong_sub(m@ as int, (x1 + y1) * (x2 + y2), s@ as int, x1 * x2 + y1 * y2);
        assert((x1 + y1) * (x2 + y2) - (x1 * x2 + y1 * y2) == x1 * y2 + y1 * x2) by (nonlinear_arith);
    }
    r
}

/// `21 v`, computed as `3 (7 v)`.
fn times_3b(v: &FieldElement) -> (r: FieldElement)
    ensures
        r@ == modp(21 * (v@ as int)),
{
    let b = v.mul_single(7);
    let bd = b.double();
    let r = bd.add(&b);
    proof {
        let w = v@ as int;
        lemma_cong_mul(2, 2, b@ as int, 7 * w);
        lemma_cong_add(bd@ as int, 2 * (7 * w), b@ as int, 7 * w);
    }
    r
}

/// `3 v`.
fn times_3(v: &FieldElement) -> (r: FieldElement)
    ensures
        r@ == modp(3 * (v@ as int)),
{
    let vd = v.double();
    let r = vd.add(v);
    proof {
        let w = v@ as int;
        v.lemma_view_reduced();
        lemma_cong_add(vd@ as int, 2 * w, w, w);
    }
    r
}

/// The last stage of the complete addition formula, on field elements.
fn finish_addition(
    xx: &FieldElement,
    yy: &FieldElement,
    zz: &FieldElement,
    xy_pairs: &FieldElement,
    yz_pairs: &FieldElement,
    xz_pairs: &FieldElement,
) -> (r: ProjectivePoint)
    ensures
        r@ == reduce(combine(xx@ as int, yy@ as int, zz@ as int, xy_pairs@ as int, yz_pairs@ as int, xz_pairs@ as int)),
{
    let ghost (a, b, c, d, e, f) = (xx@ as int, yy@ as int, zz@ as int, xy_pairs@ as int, yz_pairs@ as int, xz_pairs@ as int);
    proof {
        xx.lemma_view_bound();
        yy.lemma_view_bound();
        zz.lemma_view_bound();
        xy_pairs.lemma_view_bound();
        yz_pairs.lemma_view_bound();
        xz_pairs.lemma_view_bound();
    }
    let bzz3 = times_3b(zz);
    let yy_m_bzz3 = yy.sub(&bzz3);
    let yy_p_bzz3 = yy.add(&bzz3);
    let byz3 = times_3b(yz_pairs);
    let xx3 = times_3(xx);
    let xx9 = times_3(&xx3);
    let bxx9 = xx9.mul_single(7);
    proof {
        lemma_cong_sub(b, b, bzz3@ as int, 21 * c);
        lemma_cong_add(b, b, bzz3@ as int, 21 * c);
        lemma_cong_mul(3, 3, xx3@ as int, 3 * a);
        lemma_cong_mul(xx9@ as int, 3 * (3 * a), 7, 7);
    }

    let t1 = xy_pairs.mul(&yy_m_bzz3);
    let t2 = byz3.mul(xz_pairs);
    let new_x = t1.sub(&t2);
    proof {
        lemma_cong_mul(d, d, yy_m_bzz3@ as int, b - 21 * c);
        lemma_cong_mul(byz3@ as int, 21 * e, f, f);
        lemma_cong_sub(t1@ as int, d * (b - 21 * c), t2@ as int, (21 * e) * f);
    }

    let t1 = yy_p_bzz3.mul(&yy_m_bzz3);
    let t2 = bxx9.mul(xz_pairs);
    let new_y = t1.add(&t2);
    proof {
        lemma_cong_mul(yy_p_bzz3@ as int, b + 21 * c, yy_m_bzz3@ as int, b - 21 * c);
        lemma_cong_mul(bxx9@ as int, 63 * a, f, f);
        lemma_cong_add(t1@ as int, (b + 21 * c) * (b - 21 * c), t2@ as int, (63 * a) * f);
    }

    let t1 = yz_pairs.mul(&yy_p_bzz3);
    let t2 = xx3.mul(xy_pairs);
    let new_z = t1.add(&t2);
    proof {
        lemma_cong_mul(e, e, yy_p_bzz3@ as int, b + 21 * c);
        lemma_cong_mul(xx3@ as int, 3 * a, d, d);
        lemma_cong_add(t1@ as int, e * (b + 21 * c), t2@ as int, (3 * a) * d);
    }
    ProjectivePoint { x: new_x, y: new_y, z: new_z }
}

/// The last stage of the addition formula respects congruence of its inputs.
pub proof fn lemma_combine_cong(
    xx: int, pxx: int, yy: int, pyy: int, zz: int, pzz: int,
    xy: int, pxy: int, yz: int, pyz: int, xz: int, pxz: int,
)
    requires
        xx == modp(pxx),
        yy == modp(pyy),
        zz == modp(pzz),
        xy == modp(pxy),
        yz == modp(pyz),
        xz == modp(pxz),
    ensures
        reduce(combine(xx, yy, zz, xy, yz, xz)) == reduce(combine(pxx, pyy, pzz, pxy, pyz, pxz)),
{
    lemma_cong_mul(21, 21, zz, pzz);
    lemma_cong_sub(yy, pyy, modp(21 * zz), 21 * pzz);
    lemma_cong_add(yy, pyy, modp(21 * zz), 21 * pzz);
    lemma_mod_twice_all(21 * zz);
    lemma_cong_sub(yy, yy, modp(21 * zz), 21 * zz);
    lemma_cong_add(yy, yy, modp(21 * zz), 21 * zz);
    lemma_combine_cong_x(xy, pxy, yy - 21 * zz, pyy - 21 * pzz, yz, pyz, xz, pxz);
    lemma_combine_cong_y(yy + 21 * zz, pyy + 21 * pzz, yy - 21 * zz, pyy - 21 * pzz, xx, pxx, xz, pxz);
    lemma_combine_cong_z(yz, pyz, yy + 21 * zz, pyy + 21 * pzz, xx, pxx, xy, pxy);
}

proof fn lemma_combine_cong_x(xy: int, pxy: int, m: int, pm: int, yz: int, pyz: int, xz: int, pxz: int)
    requires
        xy == modp(pxy),
        modp(m) == modp(pm),
        yz == modp(pyz),
        xz == modp(pxz),
    ensures
        modp(xy * m - (21 * yz) * xz) == modp(pxy * pm - (21 * pyz) * pxz),
{
    lemma_mul_mod_right(xy, m);
    lemma_mul_mod_right(pxy, pm);
    lemma_mul_mod_left(pxy, pm);
    lemma_mul_mod_left(xy, modp(m));
    lemma_mul_mod_both(pxy, pm);
    lemma_cong_mul(21, 21, yz, pyz);
    lemma_cong_mul(modp(21 * yz), 21 * pyz, xz, pxz);
    lemma_mul_mod_left(21 * yz, xz);
    lemma_cong_sub(modp(xy * m), pxy * pm, modp((21 * yz) * xz), (21 * pyz) * pxz);
    lemma_cong_sub(modp(xy * m), xy * m, modp((21 * yz) * xz), (21 * yz) * xz);
}

proof fn lemma_combine_cong_y(s: int, ps: int, m: int, pm: int, xx: int, pxx: int, xz: int, pxz: int)
    requires
        modp(s) == modp(ps),
        modp(m) == modp(pm),
        xx == modp(pxx),
        xz == modp(pxz),
    ensures
        modp(s * m + (63 * xx) * xz) == modp(ps * pm + (63 * pxx) * pxz),
{
    lemma_mul_mod_both(s, m);
    lemma_mul_mod_both(ps, pm);
    lemma_cong_mul(63, 63, xx, pxx);
    lemma_cong_mul(modp(63 * xx), 63 * pxx, xz, pxz);
    lemma_mul_mod_left(63 * xx, xz);
    lemma_cong_add(modp(s * m), ps * pm, modp((63 * xx) * xz), (63 * pxx) * pxz);
    lemma_cong_add(modp(s * m), s * m, modp((63 * xx) * xz), (63 * xx) * xz);
}

proof fn lemma_combine_cong_z(yz: int, pyz: int, s: int, ps: int, xx: int, pxx: int, xy: int, pxy: int)
    requires
        yz == modp(pyz),
        modp(s) == modp(ps),
        xx == modp(pxx),
        xy == modp(pxy),
    ensures
        modp(yz * s + (3 * xx) * xy) == modp(pyz * ps + (3 * pxx) * pxy),
{
    lemma_mul_mod_right(yz, s);
    lemma_mul_mod_right(pyz, ps);
    lemma_mul_mod_left(pyz, ps);
    lemma_mul_mod_left(yz, modp(s));
    lemma_mul_mod_both(pyz, ps);
    lemma_cong_mul(3, 3, xx, pxx);
    lemma_cong_mul(modp(3 * xx), 3 * pxx, xy, pxy);
    lemma_mul_mod_left(3 * xx, xy);
    lemma_cong_add(modp(yz * s), pyz * ps, modp((3 * xx) * xy), (3 * pxx) * pxy);
    lemma_cong_add(modp(yz * s), yz * s, modp((3 * xx) * xy), (3 * xx) * xy);
}

/// `modp(modp(e)) == modp(e)`.
proof fn lemma_mod_twice_all(e: int)
    ensures
        modp(modp(e)) == modp(e),
{
    vstd::arithmetic::div_mod::lemma_mod_twice(e, p() as int);
}

/// `modp(a * modp(b)) == modp(a * b)`.
proof fn lemma_mul_mod_right(a: int, b: int)
    ensures
        modp(a * modp(b)) == modp(a * b),
{
    vstd::arithmetic::div_mod::lemma_mul_mod_noop_right(a, b, p() as int);
}

/// `modp(modp(a) * b) == modp(a * b)`.
proof fn lemma_mul_mod_left(a: int, b: int)
    ensures
        modp(modp(a) * b) == modp(a * b),
{
    vstd::arithmetic::div_mod::lemma_mul_mod_noop_left(a, b, p() as int);
}

/// `modp(modp(a) * modp(b)) == modp(a * b)`.
proof fn lemma_mul_mod_both(a: int, b: int)
    ensures
        modp(modp(a) * modp(b)) == modp(a * b),
{
    vstd::arithmetic::div_mod::lemma_mul_mod_noop(a, b, p() as int);
}

/// `8 v`.
fn times_8(v: &FieldElement) -> (r: FieldElement)
    ensures
        r@ == modp(8 * (v@ as int)),
{
    let d2 = v.double();
    let d4 = d2.double();
    let r = d4.double();
    proof {
        let w = v@ as int;
        lemma_cong_mul(2, 2, d2@ as int, 2 * w);
        lemma_cong_mul(2, 2, d4@ as int, 2 * (2 * w));
    }
    r
}

/// One step of double-and-add: from `[n] P` to `[2n + bit] P`.
fn double_and_add(acc: &ProjectivePoint, point: &ProjectivePoint, bit: bool, Ghost(n): Ghost<nat>) -> (r: ProjectivePoint)
    requires
        acc@ == mul_spec(point@, n),
    ensures
        r@ == mul_spec(point@, 2 * n + (if bit { 1nat } else { 0nat })),
{
    let d = acc.double();
    let e = d.add(point);
    let r = ProjectivePoint::conditional_select(&d, &e, bit);
    proof {
        let k = 2 * n + (if bit { 1nat } else { 0nat });
        assert(k / 2 == n && k % 2 == (if bit { 1nat } else { 0nat }));
        if k == 0 {
            assert(n == 0);
            lemma_identity_double();
        }
    }
    r
}

} // verus!
