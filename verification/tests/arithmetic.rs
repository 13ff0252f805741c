use k256_arith::FieldElement;
use k256_arith::{AffinePoint, ProjectivePoint};

/// The field modulus p as 32 big-endian bytes.
const P_BYTES: [u8; 32] = [
    0xff, 0xff, 0xff, 0xff, 0xff, 0xff, 0xff, 0xff,
    0xff, 0xff, 0xff, 0xff, 0xff, 0xff, 0xff, 0xff,
    0xff, 0xff, 0xff, 0xff, 0xff, 0xff, 0xff, 0xff,
    0xff, 0xff, 0xff, 0xfe, 0xff, 0xff, 0xfc, 0x2f,
];

/// The group order n as 32 big-endian bytes.
const N_BYTES: [u8; 32] = [
    0xff, 0xff, 0xff, 0xff, 0xff, 0xff, 0xff, 0xff,
    0xff, 0xff, 0xff, 0xff, 0xff, 0xff, 0xff, 0xfe,
    0xba, 0xae, 0xdc, 0xe6, 0xaf, 0x48, 0xa0, 0x3b,
    0xbf, 0xd2, 0x5e, 0x8c, 0xd0, 0x36, 0x41, 0x41,
];

/// Affine coordinates of `[λ] G`, λ the scalar of the endomorphism.
const LAMBDA_G: ([u8; 32], [u8; 32]) = (
    [
        0xbc, 0xac, 0xe2, 0xe9, 0x9d, 0xa0, 0x18, 0x87,
        0xab, 0x01, 0x02, 0xb6, 0x96, 0x90, 0x23, 0x25,
        0x87, 0x28, 0x44, 0x06, 0x7f, 0x15, 0xe9, 0x8d,
        0xa7, 0xbb, 0xa0, 0x44, 0x00, 0xb8, 0x8f, 0xcb,
    ],
    [
        0x48, 0x3a, 0xda, 0x77, 0x26, 0xa3, 0xc4, 0x65,
        0x5d, 0xa4, 0xfb, 0xfc, 0x0e, 0x11, 0x08, 0xa8,
        0xfd, 0x17, 0xb4, 0x48, 0xa6, 0x85, 0x54, 0x19,
        0x9c, 0x47, 0xd0, 0x8f, 0xfb, 0x10, 0xd4, 0xb8,
    ],
);

/// The x coordinate of `[2] G`.
const TWO_G_X: [u8; 32] = [
    0xc6, 0x04, 0x7f, 0x94, 0x41, 0xed, 0x7d, 0x6d,
    0x30, 0x45, 0x40, 0x6e, 0x95, 0xc0, 0x7c, 0xd8,
    0x5c, 0x77, 0x8e, 0x4b, 0x8c, 0xef, 0x3c, 0xa7,
    0xab, 0xac, 0x09, 0xb9, 0x5c, 0x70, 0x9e, 0xe5,
];

fn fe(v: u64) -> FieldElement {
    FieldElement::from_u64(v)
}

fn be(v: u64) -> [u8; 32] {
    let mut out = [0u8; 32];
    out[24..].copy_from_slice(&v.to_be_bytes());
    out
}

#[test]
fn field_small_arithmetic() {
    assert_eq!(fe(5).add(&fe(7)).to_bytes(), be(12));
    assert_eq!(fe(7).sub(&fe(5)).to_bytes(), be(2));
    assert_eq!(fe(6).mul(&fe(7)).to_bytes(), be(42));
    assert_eq!(fe(9).square().to_bytes(), be(81));
    assert_eq!(fe(21).double().to_bytes(), be(42));
    assert_eq!(fe(3).mul_single(7).to_bytes(), be(21));
    assert!(FieldElement::zero().is_zero());
    assert!(!FieldElement::one().is_zero());
    assert!(fe(3).is_odd());
    assert!(!fe(4).is_odd());
}

#[test]
fn field_wraps_around_p() {
    // 0 - 1 == p - 1
    let mut p_minus_1 = P_BYTES;
    p_minus_1[31] -= 1;
    assert_eq!(FieldElement::zero().sub(&FieldElement::one()).to_bytes(), p_minus_1);
    assert_eq!(FieldElement::one().negate().to_bytes(), p_minus_1);
    // (p - 1) + 2 == 1
    let m = FieldElement::from_bytes(&p_minus_1).unwrap();
    assert_eq!(m.add(&fe(2)).to_bytes(), be(1));
    // (p - 1)^2 == 1
    assert_eq!(m.square().to_bytes(), be(1));
    assert!(FieldElement::zero().negate().is_zero());
}

#[test]
fn field_from_bytes_rejects_p_and_above() {
    assert!(FieldElement::from_bytes(&P_BYTES).is_none());
    assert!(FieldElement::from_bytes(&[0xff; 32]).is_none());
    let mut below = P_BYTES;
    below[31] -= 1;
    let f = FieldElement::from_bytes(&below).unwrap();
    assert_eq!(f.to_bytes(), below);
}

#[test]
fn field_inverse() {
    assert!(FieldElement::zero().invert().is_none());
    let two_inv = fe(2).invert().unwrap();
    assert_eq!(two_inv.mul(&fe(2)).to_bytes(), be(1));
    // 1/2 == (p + 1) / 2
    let expected: [u8; 32] = [
        0x7f, 0xff, 0xff, 0xff, 0xff, 0xff, 0xff, 0xff,
        0xff, 0xff, 0xff, 0xff, 0xff, 0xff, 0xff, 0xff,
        0xff, 0xff, 0xff, 0xff, 0xff, 0xff, 0xff, 0xff,
        0xff, 0xff, 0xff, 0xff, 0x7f, 0xff, 0xfe, 0x18,
    ];
    assert_eq!(two_inv.to_bytes(), expected);
    let g = AffinePoint::generator();
    let gx_inv = g.x.invert().unwrap();
    assert_eq!(gx_inv.mul(&g.x).to_bytes(), be(1));
}

#[test]
fn field_equals() {
    assert!(fe(5).equals(&fe(2).add(&fe(3))));
    assert!(!fe(5).equals(&fe(6)));
}

#[test]
fn identity_is_neutral_on_both_sides() {
    let g = ProjectivePoint::generator();
    let g2 = g.double();
    let o = ProjectivePoint::identity();
    assert_eq!(g2.add(&o), g2);
    assert_eq!(o.add(&g2), g2);
    assert!(o.add(&o).is_identity());
    assert!(o.double().is_identity());
}

#[test]
fn point_plus_negation_is_identity() {
    let g = ProjectivePoint::generator();
    let g3 = g.add(&g.double());
    assert!(g.add(&g.neg()).is_identity());
    assert!(g3.sub(&g3).is_identity());
    assert!(g.add_mixed(&AffinePoint::generator().neg()).is_identity());
    assert!(!g3.is_identity());
}

#[test]
fn addition_is_commutative() {
    let g = ProjectivePoint::generator();
    let g2 = g.double();
    assert_eq!(g.add(&g2), g2.add(&g));
    assert_eq!(g.add(&g2).to_encoded_point(false), g2.add(&g).to_encoded_point(false));
}

#[test]
fn negation_is_involutive() {
    let g = ProjectivePoint::generator().double();
    assert_eq!(g.neg().neg(), g);
    assert_ne!(g.neg(), g);
}

#[test]
fn affine_round_trips() {
    let a = AffinePoint::generator();
    assert_eq!(ProjectivePoint::from(a).to_affine(), a);
    assert_eq!(ProjectivePoint::from(AffinePoint::identity()).to_affine(), AffinePoint::identity());
    let p = ProjectivePoint::generator().double().double();
    assert_eq!(ProjectivePoint::from(p.to_affine()), p);
    assert_eq!(p.neg().to_affine(), p.to_affine().neg());
}

#[test]
fn double_matches_second_vector() {
    let d = ProjectivePoint::generator().double().to_affine();
    assert_eq!(d.x.to_bytes(), TWO_G_X);
}

#[test]
fn endomorphism_is_multiplication_by_lambda() {
    let e = ProjectivePoint::generator().endomorphism().to_affine();
    assert_eq!(e.x.to_bytes(), LAMBDA_G.0);
    assert_eq!(e.y.to_bytes(), LAMBDA_G.1);
}

#[test]
fn multiplication_edge_scalars() {
    let g = ProjectivePoint::generator();
    assert!(g.mul(&[0u8; 32]).is_identity());
    assert_eq!(g.mul(&be(1)), g);
    assert_eq!(g.mul(&be(2)), g.double());
    assert!(g.mul(&N_BYTES).is_identity());
    let mut n_minus_1 = N_BYTES;
    n_minus_1[31] -= 1;
    assert_eq!(g.mul(&n_minus_1), g.neg());
}

#[test]
fn sum_of_points() {
    let g = ProjectivePoint::generator();
    assert!(ProjectivePoint::sum(&[]).is_identity());
    assert_eq!(ProjectivePoint::sum(&[g, g, g]), g.double().add(&g));
    assert_eq!(ProjectivePoint::sum(&[g, g.neg()]), ProjectivePoint::identity());
}

#[test]
fn assignment_forms() {
    let g = ProjectivePoint::generator();
    let a = AffinePoint::generator();
    let mut p = g.double();
    p.sub_assign(&g);
    assert_eq!(p, g);
    p.add_assign_affine(&a);
    assert_eq!(p, g.double());
    p.sub_assign_affine(&a);
    assert_eq!(p, g);
}

#[test]
fn selection_and_default() {
    let g = ProjectivePoint::generator();
    let o = ProjectivePoint::identity();
    assert_eq!(ProjectivePoint::conditional_select(&g, &o, false), g);
    assert_eq!(ProjectivePoint::conditional_select(&g, &o, true), o);
    assert!(ProjectivePoint::default().is_identity());
}

#[test]
fn sec1_encodings() {
    let g = ProjectivePoint::generator();
    let a = AffinePoint::generator();
    let compressed = g.to_encoded_point(true);
    assert_eq!(compressed.len(), 33);
    assert_eq!(compressed[0], 0x02);
    assert_eq!(&compressed[1..], &a.x.to_bytes()[..]);
    let full = g.to_encoded_point(false);
    assert_eq!(full.len(), 65);
    assert_eq!(full[0], 0x04);
    assert_eq!(&full[1..33], &a.x.to_bytes()[..]);
    assert_eq!(&full[33..], &a.y.to_bytes()[..]);
    let odd = g.neg().to_bytes();
    assert_eq!(odd[0], 0x03);
    assert_eq!(ProjectivePoint::identity().to_encoded_point(true), vec![0u8]);
    assert_eq!(ProjectivePoint::identity().to_bytes(), [0u8; 33]);
}

#[test]
fn equality_ignores_projective_scaling() {
    let g = ProjectivePoint::generator();
    // g + O has coordinates (y x : y y : y z), a different representative.
    assert_eq!(g.add(&ProjectivePoint::identity()), g);
    assert!(g.equals(&g.add(&ProjectivePoint::identity())));
    assert!(!g.equals(&g.double()));
}

#[test]
fn generator_multiples_below_the_order() {
    assert!(ProjectivePoint::generator_multiple(&N_BYTES).is_none());
    assert!(ProjectivePoint::generator_multiple(&[0xff; 32]).is_none());
    let mut n_minus_1 = N_BYTES;
    n_minus_1[31] -= 1;
    let q = ProjectivePoint::generator_multiple(&n_minus_1).unwrap();
    assert_eq!(q, ProjectivePoint::generator().neg());
    assert_eq!(ProjectivePoint::generator_multiple(&be(1)).unwrap(), ProjectivePoint::generator());
    assert!(ProjectivePoint::generator_multiple(&[0u8; 32]).unwrap().is_identity());
}

/// Whether the affine form of `p` satisfies `y^2 = x^3 + 7`.
fn on_curve(p: &ProjectivePoint) -> bool {
    let a = p.to_affine();
    if a.infinity {
        return true;
    }
    a.y.square().equals(&a.x.square().mul(&a.x).add(&fe(7)))
}

#[test]
fn operations_keep_points_on_the_curve() {
    let g = ProjectivePoint::generator();
    let g2 = g.double();
    let g3 = g2.add(&g);
    let mut k = be(0x1234_5678_9abc_def1);
    k[0] = 0x5a;
    assert!(on_curve(&g));
    assert!(on_curve(&g2));
    assert!(on_curve(&g3));
    assert!(on_curve(&g3.neg()));
    assert!(on_curve(&g3.double()));
    assert!(on_curve(&g3.endomorphism()));
    assert!(on_curve(&g.mul(&k)));
    assert!(on_curve(&ProjectivePoint::sum(&[g, g2, g3])));
    assert!(on_curve(&g2.add_mixed(&g3.to_affine())));
    assert!(!on_curve(&ProjectivePoint::from(AffinePoint { x: fe(1), y: fe(1), infinity: false })));
}

#[test]
fn subtraction_undoes_addition() {
    let g = ProjectivePoint::generator();
    let g2 = g.double();
    let g5 = g2.double().add(&g);
    let p = g5.mul(&be(77));
    assert_eq!(g5.add(&g2).sub(&g2), g5);
    assert_eq!(g2.add(&g5).sub(&g5), g2);
    assert_eq!(p.add(&g5).sub(&g5), p);
    assert_eq!(p.add_mixed(&g2.to_affine()).sub_mixed(&g2.to_affine()), p);
    assert_eq!(g5.double().sub(&g5), g5);
}

#[test]
fn every_nonzero_element_has_an_inverse() {
    assert!(FieldElement::zero().invert().is_none());
    let mut pm1 = P_BYTES;
    pm1[31] -= 1;
    let big = FieldElement::from_bytes(&pm1).unwrap();
    for e in [fe(1), fe(2), fe(7), big] {
        let w = e.invert().unwrap();
        assert!(e.mul(&w).equals(&fe(1)));
    }
}

#[test]
fn field_selection_without_branching() {
    assert!(FieldElement::conditional_select(&fe(3), &fe(9), false).equals(&fe(3)));
    assert!(FieldElement::conditional_select(&fe(3), &fe(9), true).equals(&fe(9)));
    assert!(fe(0).is_zero());
    assert!(!fe(1 << 40).is_zero());
}

#[test]
fn sums_of_curve_points_follow_the_group_law() {
    let g = ProjectivePoint::generator();
    let o = ProjectivePoint::identity();
    let g2 = g.double();
    let cases = [
        (g, g, g2),
        (g, g.neg(), o),
        (g2, g, g.mul(&be(3))),
        (o, g, g),
        (g, o, g),
        (o, o, o),
        (g2, g2.neg(), o),
    ];
    for (a, b, expected) in cases {
        let s = a.add(&b);
        assert!(on_curve(&s));
        assert_eq!(s, expected);
        assert_eq!(s.is_identity(), expected.is_identity());
    }
}

#[test]
fn sec1_decoding_round_trips() {
    let g = ProjectivePoint::generator();
    for k in [1u64, 2, 3, 7, 1000, 0xdead_beef] {
        let a = g.mul(&be(k)).to_affine();
        let compressed = a.to_bytes();
        assert_eq!(AffinePoint::from_bytes(&compressed), Some(a));
        assert_eq!(AffinePoint::from_encoded_point(&a.to_encoded_point(true)), Some(a));
        assert_eq!(AffinePoint::from_encoded_point(&a.to_encoded_point(false)), Some(a));
        assert_eq!(ProjectivePoint::from_bytes(&compressed), Some(g.mul(&be(k))));
        let neg = a.neg();
        assert_eq!(AffinePoint::from_bytes(&neg.to_bytes()), Some(neg));
    }
    let o = AffinePoint::identity();
    assert_eq!(AffinePoint::from_encoded_point(&o.to_encoded_point(true)), Some(o));
    assert_eq!(ProjectivePoint::from_encoded_point(&[0u8]), Some(ProjectivePoint::identity()));
}

#[test]
fn sec1_decoding_rejects() {
    let a = AffinePoint::generator();
    // the identity's 33-byte form has tag 0
    assert_eq!(AffinePoint::from_bytes(&[0u8; 33]), None);
    // bad tags and lengths
    let mut bad = a.to_bytes();
    bad[0] = 4;
    assert_eq!(AffinePoint::from_bytes(&bad), None);
    assert_eq!(AffinePoint::from_encoded_point(&[1u8]), None);
    assert_eq!(AffinePoint::from_encoded_point(&a.to_encoded_point(true)[..32]), None);
    // x = p is not a field element
    let mut big = [0u8; 33];
    big[0] = 2;
    big[1..].copy_from_slice(&P_BYTES);
    assert_eq!(AffinePoint::from_bytes(&big), None);
    // x = 5: 5^3 + 7 = 132 is not a square modulo p
    let mut five = [0u8; 33];
    five[0] = 3;
    five[32] = 5;
    assert_eq!(AffinePoint::from_bytes(&five), None);
    // an uncompressed point off the curve
    let mut off = a.to_encoded_point(false);
    off[64] ^= 1;
    assert_eq!(AffinePoint::from_encoded_point(&off), None);
}

#[test]
fn endomorphism_images_sum_to_identity() {
    let g = ProjectivePoint::generator();
    for p in [g, g.double(), g.mul(&be(12345)), ProjectivePoint::identity()] {
        let e1 = p.endomorphism();
        let e2 = e1.endomorphism();
        assert!(p.add(&e1).add(&e2).is_identity());
        assert_eq!(p.add(&g).endomorphism(), p.endomorphism().add(&g.endomorphism()));
    }
}
