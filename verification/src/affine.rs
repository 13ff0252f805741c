//! Points of secp256k1 in affine coordinates.
use vstd::prelude::*;
use crate::field::FieldElement;
use crate::model::{AffineCoords, affine_neg_spec, generator_x, generator_y, is_sec1_encoding};

verus! {

/// A point of secp256k1 in affine coordinates, or the point at infinity,
/// which is held as `(0, 0)` with `infinity` set.
#[derive(Clone, Copy, Debug, PartialEq, Eq, Structural)]
pub struct AffinePoint {
    pub x: FieldElement,
    pub y: FieldElement,
    pub infinity: bool,
}

impl View for AffinePoint {
    type V = AffineCoords;

    open spec fn view(&self) -> AffineCoords {
        (self.x@ as int, self.y@ as int, self.infinity)
    }
}

impl AffinePoint {
    /// The point at infinity.
    pub fn identity() -> (r: AffinePoint)
        ensures
            r@ == (0int, 0int, true),
    {
        AffinePoint { x: FieldElement::zero(), y: FieldElement::zero(), infinity: true }
    }

    /// The base point of secp256k1.
    pub fn generator() -> (r: AffinePoint)
        ensures
            r@ == (generator_x(), generator_y(), false),
    {
        AffinePoint {
            x: FieldElement::from_canonical_limbs(
                0x59F2815B16F81798, 0x029BFCDB2DCE28D9, 0x55A06295CE870B07, 0x79BE667EF9DCBBAC),
            y: FieldElement::from_canonical_limbs(
                0x9C47D08FFB10D4B8, 0xFD17B448A6855419, 0x5DA4FBFC0E1108A8, 0x483ADA7726A3C465),
            infinity: false,
        }
    }

    /// Whether this is the point at infinity.
    pub fn is_identity(&self) -> (r: bool)
        ensures
            r == self@.2,
    {
        self.infinity
    }

    /// Returns `-self`.
    pub fn neg(&self) -> (r: AffinePoint)
        ensures
            r@ == affine_neg_spec(self@),
    {
        AffinePoint { x: self.x, y: self.y.negate(), infinity: self.infinity }
    }

    /// Equality of coordinates and of the infinity flag.
    pub fn equals(&self, other: &AffinePoint) -> (r: bool)
        ensures
            r == (self@ == other@),
    {
        self.x.equals(&other.x) && self.y.equals(&other.y) && self.infinity == other.infinity
    }
}

impl AffinePoint {
    /// The SEC1 encoding of this point, compressed or not.
    pub fn to_encoded_point(&self, compress: bool) -> (r: Vec<u8>)
        ensures
            is_sec1_encoding(r@, self@, compress),
    {
        let mut out: Vec<u8> = Vec::new();
        if self.infinity {
            out.push(0u8);
            assert(out@ =~= seq![0u8]);
            return out;
        }
        let tag: u8 = if compress {
            if self.y.is_odd() { 3 } else { 2 }
        } else {
            4
        };
        out.push(tag);
        let xb = self.x.to_bytes();
        let mut i: usize = 0;
        while i < 32
            invariant
                i <= 32,
                out@.len() == 1 + i,
                out@[0] == tag,
                forall|j: int| 0 <= j < i ==> out@[1 + j] == xb@[j],
            decreases 32 - i,
        {
            out.push(xb[i]);
            i = i + 1;
        }
        assert(out@.subrange(1, 33) =~= xb@);
        if !compress {
            let yb = self.y.to_bytes();
            let mut i: usize = 0;
            while i < 32
                invariant
                    i <= 32,
                    out@.len() == 33 + i,
                    out@[0] == tag,
                    out@.subrange(1, 33) == xb@,
                    forall|j: int| 0 <= j < i ==> out@[33 + j] == yb@[j],
                decreases 32 - i,
            {
                out.push(yb[i]);
                i = i + 1;
                assert(out@.subrange(1, 33) =~= xb@);
            }
            assert(out@.subrange(33, 65) =~= yb@);
        }
        out
    }

    /// The 33-byte compressed encoding of this point; all zero bytes for the
    /// identity.
    pub fn to_bytes(&self) -> (r: [u8; 33])
        ensures
            self@.2 ==> r@ == Seq::new(33, |i: int| 0u8),
            !self@.2 ==> is_sec1_encoding(r@, self@, true),
    {
        let e = self.to_encoded_point(true);
        let mut r = [0u8; 33];
        let mut i: usize = 0;
        while i < e.len()
            invariant
                i <= e.len(),
                e.len() == 1 || e.len() == 33,
                is_sec1_encoding(e@, self@, true),
                r@.len() == 33,
                forall|j: int| 0 <= j < i ==> r@[j] == e@[j],
                forall|j: int| i <= j < 33 ==> r@[j] == 0u8,
            decreases e.len() - i,
        {
            r[i] = e[i];
            i = i + 1;
        }
        proof {
            if self@.2 {
                assert(e@ == seq![0u8]);
                assert(r@ =~= Seq::new(33, |i: int| 0u8));
            } else {
                assert(r@ =~= e@);
            }
        }
        r
    }
}

} // verus!
