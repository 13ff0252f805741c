//! The addition and doubling formulas keep points on the curve: the curve
//! equation of the result is a combination of the curve equations of the
//! inputs, as polynomials, proved by expanding both sides into monomials.
use vstd::prelude::*;
use vstd::arithmetic::mul::{lemma_mul_is_distributive_add, lemma_mul_is_distributive_add_other_way};
use vstd::arithmetic::power::{pow, lemma_pow0, lemma_pow1, lemma_pow_adds};
use crate::model::modp;
use crate::laws::lemma_multiple_of_zero;
use crate::expansions::{lemma_coefficient_product, lemma_sum_of_zeros};

verus! {

/// The monomial `x^a y^b z^c`.
pub open spec fn mono3(x: int, y: int, z: int, a: nat, b: nat, c: nat) -> int {
    (pow(x, a) * pow(y, b)) * pow(z, c)
}

/// The monomial `x1^a y1^b z1^c x2^d y2^e z2^f`.
pub open spec fn mono6(x1: int, y1: int, z1: int, x2: int, y2: int, z2: int, a: nat, b: nat, c: nat, d: nat, e: nat, f: nat) -> int {
    mono3(x1, y1, z1, a, b, c) * mono3(x2, y2, z2, d, e, f)
}

/// Exponents add in a product of monomials.
proof fn lemma_mono3_mul(x: int, y: int, z: int, a: nat, b: nat, c: nat, d: nat, e: nat, f: nat)
    ensures
        mono3(x, y, z, a, b, c) * mono3(x, y, z, d, e, f) == mono3(x, y, z, a + d, b + e, c + f),
{
    lemma_pow_adds(x, a, d);
    lemma_pow_adds(y, b, e);
    lemma_pow_adds(z, c, f);
    let (p1, p2, p3) = (pow(x, a), pow(y, b), pow(z, c));
    let (q1, q2, q3) = (pow(x, d), pow(y, e), pow(z, f));
    assert(((p1 * p2) * p3) * ((q1 * q2) * q3) == ((p1 * q1) * (p2 * q2)) * (p3 * q3)) by (nonlinear_arith);
}

/// Exponents add in a product of monomials in two points.
proof fn lemma_mono6_mul(
    x1: int, y1: int, z1: int, x2: int, y2: int, z2: int,
    a: nat, b: nat, c: nat, d: nat, e: nat, f: nat,
    a2: nat, b2: nat, c2: nat, d2: nat, e2: nat, f2: nat,
)
    ensures
        mono6(x1, y1, z1, x2, y2, z2, a, b, c, d, e, f) * mono6(x1, y1, z1, x2, y2, z2, a2, b2, c2, d2, e2, f2)
            == mono6(x1, y1, z1, x2, y2, z2, a + a2, b + b2, c + c2, d + d2, e + e2, f + f2),
{
    lemma_mono3_mul(x1, y1, z1, a, b, c, a2, b2, c2);
    lemma_mono3_mul(x2, y2, z2, d, e, f, d2, e2, f2);
    let (m1, m2) = (mono3(x1, y1, z1, a, b, c), mono3(x2, y2, z2, d, e, f));
    let (n1, n2) = (mono3(x1, y1, z1, a2, b2, c2), mono3(x2, y2, z2, d2, e2, f2));
    assert((m1 * m2) * (n1 * n2) == (m1 * n1) * (m2 * n2)) by (nonlinear_arith);
}

/// The variables and one as monomials.
proof fn lemma_mono3_vars(x: int, y: int, z: int)
    ensures
        mono3(x, y, z, 0, 0, 0) == 1,
        mono3(x, y, z, 1, 0, 0) == x,
        mono3(x, y, z, 0, 1, 0) == y,
        mono3(x, y, z, 0, 0, 1) == z,
{
    lemma_pow0(x);
    lemma_pow0(y);
    lemma_pow0(z);
    lemma_pow1(x);
    lemma_pow1(y);
    lemma_pow1(z);
}

/// The variables of two points and one as monomials.
proof fn lemma_mono6_vars(x1: int, y1: int, z1: int, x2: int, y2: int, z2: int)
    ensures
        mono6(x1, y1, z1, x2, y2, z2, 0, 0, 0, 0, 0, 0) == 1,
        mono6(x1, y1, z1, x2, y2, z2, 1, 0, 0, 0, 0, 0) == x1,
        mono6(x1, y1, z1, x2, y2, z2, 0, 1, 0, 0, 0, 0) == y1,
        mono6(x1, y1, z1, x2, y2, z2, 0, 0, 1, 0, 0, 0) == z1,
        mono6(x1, y1, z1, x2, y2, z2, 0, 0, 0, 1, 0, 0) == x2,
        mono6(x1, y1, z1, x2, y2, z2, 0, 0, 0, 0, 1, 0) == y2,
        mono6(x1, y1, z1, x2, y2, z2, 0, 0, 0, 0, 0, 1) == z2,
{
    lemma_mono3_vars(x1, y1, z1);
    lemma_mono3_vars(x2, y2, z2);
}

proof fn lemma_add_curve_identity_part2_mul_1(x1: int, y1: int, z1: int, x2: int, y2: int, z2: int)
    ensures
        (((((441int * mono6(x1, y1, z1, x2, y2, z2, 0, 0, 4, 2, 2, 0)) + (1764int * mono6(x1, y1, z1, x2, y2, z2, 0, 1, 3, 2, 1, 1))) + ((1764int * mono6(x1, y1, z1, x2, y2, z2, 0, 2, 2, 2, 0, 2)) + ((-42int) * mono6(x1, y1, z1, x2, y2, z2, 0, 2, 2, 2, 2, 0)))) + ((((-84int) * mono6(x1, y1, z1, x2, y2, z2, 0, 3, 1, 2, 1, 1)) + (1int * mono6(x1, y1, z1, x2, y2, z2, 0, 4, 0, 2, 2, 0))) + ((1764int * mono6(x1, y1, z1, x2, y2, z2, 1, 0, 3, 1, 2, 1)) + (4410int * mono6(x1, y1, z1, x2, y2, z2, 1, 1, 2, 1, 1, 2))))) + (((((-42int) * mono6(x1, y1, z1, x2, y2, z2, 1, 1, 2, 1, 3, 0)) + (1764int * mono6(x1, y1, z1, x2, y2, z2, 1, 2, 1, 1, 0, 3))) + (((-168int) * mono6(x1, y1, z1, x2, y2, z2, 1, 2, 1, 1, 2, 1)) + ((-42int) * mono6(x1, y1, z1, x2, y2, z2, 1, 3, 0, 1, 1, 2)))) + (((2int * mono6(x1, y1, z1, x2, y2, z2, 1, 3, 0, 1, 3, 0)) + (1764int * mono6(x1, y1, z1, x2, y2, z2, 2, 0, 2, 0, 2, 2))) + ((1764int * mono6(x1, y1, z1, x2, y2, z2, 2, 1, 1, 0, 1, 3)) + ((-84int) * mono6(x1, y1, z1, x2, y2, z2, 2, 1, 1, 0, 3, 1)))))) * ((((-21int) * mono6(x1, y1, z1, x2, y2, z2, 0, 0, 2, 1, 1, 0)) + (((-42int) * mono6(x1, y1, z1, x2, y2, z2, 0, 1, 1, 1, 0, 1)) + (1int * mono6(x1, y1, z1, x2, y2, z2, 0, 2, 0, 1, 1, 0)))) + (((-42int) * mono6(x1, y1, z1, x2, y2, z2, 1, 0, 1, 0, 1, 1)) + (((-21int) * mono6(x1, y1, z1, x2, y2, z2, 1, 1, 0, 0, 0, 2)) + (1int * mono6(x1, y1, z1, x2, y2, z2, 1, 1, 0, 0, 2, 0))))) == (((((((-9261int) * mono6(x1, y1, z1, x2, y2, z2, 0, 0, 6, 3, 3, 0)) + ((-55566int) * mono6(x1, y1, z1, x2, y2, z2, 0, 1, 5, 3, 2, 1))) + (((-111132int) * mono6(x1, y1, z1, x2, y2, z2, 0, 2, 4, 3, 1, 2)) + ((1323int * mono6(x1, y1, z1, x2, y2, z2, 0, 2, 4, 3, 3, 0)) + ((-74088int) * mono6(x1, y1, z1, x2, y2, z2, 0, 3, 3, 3, 0, 3))))) + (((5292int * mono6(x1, y1, z1, x2, y2, z2, 0, 3, 3, 3, 2, 1)) + (5292int * mono6(x1, y1, z1, x2, y2, z2, 0, 4, 2, 3, 1, 2))) + (((-63int) * mono6(x1, y1, z1, x2, y2, z2, 0, 4, 2, 3, 3, 0)) + (((-126int) * mono6(x1, y1, z1, x2, y2, z2, 0, 5, 1, 3, 2, 1)) + (1int * mono6(x1, y1, z1, x2, y2, z2, 0, 6, 0, 3, 3, 0)))))) + (((((-55566int) * mono6(x1, y1, z1, x2, y2, z2, 1, 0, 5, 2, 3, 1)) + ((-250047int) * mono6(x1, y1, z1, x2, y2, z2, 1, 1, 4, 2, 2, 2))) + ((1323int * mono6(x1, y1, z1, x2, y2, z2, 1, 1, 4, 2, 4, 0)) + (((-333396int) * mono6(x1, y1, z1, x2, y2, z2, 1, 2, 3, 2, 1, 3)) + (10584int * mono6(x1, y1, z1, x2, y2, z2, 1, 2, 3, 2, 3, 1))))) + ((((-111132int) * mono6(x1, y1, z1, x2, y2, z2, 1, 3, 2, 2, 0, 4)) + (18522int * mono6(x1, y1, z1, x2, y2, z2, 1, 3, 2, 2, 2, 2))) + (((-126int) * mono6(x1, y1, z1, x2, y2, z2, 1, 3, 2, 2, 4, 0)) + ((5292int * mono6(x1, y1, z1, x2, y2, z2, 1, 4, 1, 2, 1, 3)) + ((-378int) * mono6(x1, y1, z1, x2, y2, z2, 1, 4, 1, 2, 3, 1))))))) + ((((((-63int) * mono6(x1, y1, z1, x2, y2, z2, 1, 5, 0, 2, 2, 2)) + (3int * mono6(x1, y1, z1, x2, y2, z2, 1, 5, 0, 2, 4, 0))) + (((-111132int) * mono6(x1, y1, z1, x2, y2, z2, 2, 0, 4, 1, 3, 2)) + (((-333396int) * mono6(x1, y1, z1, x2, y2, z2, 2, 1, 3, 1, 2, 3)) + (5292int * mono6(x1, y1, z1, x2, y2, z2, 2, 1, 3, 1, 4, 1))))) + ((((-240786int) * mono6(x1, y1, z1, x2, y2, z2, 2, 2, 2, 1, 1, 4)) + (17640int * mono6(x1, y1, z1, x2, y2, z2, 2, 2, 2, 1, 3, 2))) + (((-42int) * mono6(x1, y1, z1, x2, y2, z2, 2, 2, 2, 1, 5, 0)) + (((-37044int) * mono6(x1, y1, z1, x2, y2, z2, 2, 3, 1, 1, 0, 5)) + (8820int * mono6(x1, y1, z1, x2, y2, z2, 2, 3, 1, 1, 2, 3)))))) + (((((-336int) * mono6(x1, y1, z1, x2, y2, z2, 2, 3, 1, 1, 4, 1)) + (882int * mono6(x1, y1, z1, x2, y2, z2, 2, 4, 0, 1, 1, 4))) + (((-84int) * mono6(x1, y1, z1, x2, y2, z2, 2, 4, 0, 1, 3, 2)) + ((2int * mono6(x1, y1, z1, x2, y2, z2, 2, 4, 0, 1, 5, 0)) + ((-74088int) * mono6(x1, y1, z1, x2, y2, z2, 3, 0, 3, 0, 3, 3))))) + ((((-111132int) * mono6(x1, y1, z1, x2, y2, z2, 3, 1, 2, 0, 2, 4)) + (5292int * mono6(x1, y1, z1, x2, y2, z2, 3, 1, 2, 0, 4, 2))) + (((-37044int) * mono6(x1, y1, z1, x2, y2, z2, 3, 2, 1, 0, 1, 5)) + ((3528int * mono6(x1, y1, z1, x2, y2, z2, 3, 2, 1, 0, 3, 3)) + ((-84int) * mono6(x1, y1, z1, x2, y2, z2, 3, 2, 1, 0, 5, 1)))))))),
{
    lemma_mono6_vars(x1, y1, z1, x2, y2, z2);
    lemma_mul_is_distributive_add_other_way(((((-21int) * mono6(x1, y1, z1, x2, y2, z2, 0, 0, 2, 1, 1, 0)) + (((-42int) * mono6(x1, y1, z1, x2, y2, z2, 0, 1, 1, 1, 0, 1)) + (1int * mono6(x1, y1, z1, x2, y2, z2, 0, 2, 0, 1, 1, 0)))) + (((-42int) * mono6(x1, y1, z1, x2, y2, z2, 1, 0, 1, 0, 1, 1)) + (((-21int) * mono6(x1, y1, z1, x2, y2, z2, 1, 1, 0, 0, 0, 2)) + (1int * mono6(x1, y1, z1, x2, y2, z2, 1, 1, 0, 0, 2, 0))))), ((((441int * mono6(x1, y1, z1, x2, y2, z2, 0, 0, 4, 2, 2, 0)) + (1764int * mono6(x1, y1, z1, x2, y2, z2, 0, 1, 3, 2, 1, 1))) + ((1764int * mono6(x1, y1, z1, x2, y2, z2, 0, 2, 2, 2, 0, 2)) + ((-42int) * mono6(x1, y1, z1, x2, y2, z2, 0, 2, 2, 2, 2, 0)))) + ((((-84int) * mono6(x1, y1, z1, x2, y2, z2, 0, 3, 1, 2, 1, 1)) + (1int * mono6(x1, y1, z1, x2, y2, z2, 0, 4, 0, 2, 2, 0))) + ((1764int * mono6(x1, y1, z1, x2, y2, z2, 1, 0, 3, 1, 2, 1)) + (4410int * mono6(x1, y1, z1, x2, y2, z2, 1, 1, 2, 1, 1, 2))))), (((((-42int) * mono6(x1, y1, z1, x2, y2, z2, 1, 1, 2, 1, 3, 0)) + (1764int * mono6(x1, y1, z1, x2, y2, z2, 1, 2, 1, 1, 0, 3))) + (((-168int) * mono6(x1, y1, z1, x2, y2, z2, 1, 2, 1, 1, 2, 1)) + ((-42int) * mono6(x1, y1, z1, x2, y2, z2, 1, 3, 0, 1, 1, 2)))) + (((2int * mono6(x1, y1, z1, x2, y2, z2, 1, 3, 0, 1, 3, 0)) + (1764int * mono6(x1, y1, z1, x2, y2, z2, 2, 0, 2, 0, 2, 2))) + ((1764int * mono6(x1, y1, z1, x2, y2, z2, 2, 1, 1, 0, 1, 3)) + ((-84int) * mono6(x1, y1, z1, x2, y2, z2, 2, 1, 1, 0, 3, 1))))));
    lemma_mul_is_distributive_add_other_way(((((-21int) * mono6(x1, y1, z1, x2, y2, z2, 0, 0, 2, 1, 1, 0)) + (((-42int) * mono6(x1, y1, z1, x2, y2, z2, 0, 1, 1, 1, 0, 1)) + (1int * mono6(x1, y1, z1, x2, y2, z2, 0, 2, 0, 1, 1, 0)))) + (((-42int) * mono6(x1, y1, z1, x2, y2, z2, 1, 0, 1, 0, 1, 1)) + (((-21int) * mono6(x1, y1, z1, x2, y2, z2, 1, 1, 0, 0, 0, 2)) + (1int * mono6(x1, y1, z1, x2, y2, z2, 1, 1, 0, 0, 2, 0))))), (((441int * mono6(x1, y1, z1, x2, y2, z2, 0, 0, 4, 2, 2, 0)) + (1764int * mono6(x1, y1, z1, x2, y2, z2, 0, 1, 3, 2, 1, 1))) + ((1764int * mono6(x1, y1, z1, x2, y2, z2, 0, 2, 2, 2, 0, 2)) + ((-42int) * mono6(x1, y1, z1, x2, y2, z2, 0, 2, 2, 2, 2, 0)))), ((((-84int) * mono6(x1, y1, z1, x2, y2, z2, 0, 3, 1, 2, 1, 1)) + (1int * mono6(x1, y1, z1, x2, y2, z2, 0, 4, 0, 2, 2, 0))) + ((1764int * mono6(x1, y1, z1, x2, y2, z2, 1, 0, 3, 1, 2, 1)) + (4410int * mono6(x1, y1, z1, x2, y2, z2, 1, 1, 2, 1, 1, 2)))));
    lemma_mul_is_distributive_add_other_way(((((-21int) * mono6(x1, y1, z1, x2, y2, z2, 0, 0, 2, 1, 1, 0)) + (((-42int) * mono6(x1, y1, z1, x2, y2, z2, 0, 1, 1, 1, 0, 1)) + (1int * mono6(x1, y1, z1, x2, y2, z2, 0, 2, 0, 1, 1, 0)))) + (((-42int) * mono6(x1, y1, z1, x2, y2, z2, 1, 0, 1, 0, 1, 1)) + (((-21int) * mono6(x1, y1, z1, x2, y2, z2, 1, 1, 0, 0, 0, 2)) + (1int * mono6(x1, y1, z1, x2, y2, z2, 1, 1, 0, 0, 2, 0))))), ((441int * mono6(x1, y1, z1, x2, y2, z2, 0, 0, 4, 2, 2, 0)) + (1764int * mono6(x1, y1, z1, x2, y2, z2, 0, 1, 3, 2, 1, 1))), ((1764int * mono6(x1, y1, z1, x2, y2, z2, 0, 2, 2, 2, 0, 2)) + ((-42int) * mono6(x1, y1, z1, x2, y2, z2, 0, 2, 2, 2, 2, 0))));
    lemma_mul_is_distributive_add_other_way(((((-21int) * mono6(x1, y1, z1, x2, y2, z2, 0, 0, 2, 1, 1, 0)) + (((-42int) * mono6(x1, y1, z1, x2, y2, z2, 0, 1, 1, 1, 0, 1)) + (1int * mono6(x1, y1, z1, x2, y2, z2, 0, 2, 0, 1, 1, 0)))) + (((-42int) * mono6(x1, y1, z1, x2, y2, z2, 1, 0, 1, 0, 1, 1)) + (((-21int) * mono6(x1, y1, z1, x2, y2, z2, 1, 1, 0, 0, 0, 2)) + (1int * mono6(x1, y1, z1, x2, y2, z2, 1, 1, 0, 0, 2, 0))))), (441int * mono6(x1, y1, z1, x2, y2, z2, 0, 0, 4, 2, 2, 0)), (1764int * mono6(x1, y1, z1, x2, y2, z2, 0, 1, 3, 2, 1, 1)));
    lemma_mul_is_distributive_add_other_way(((((-21int) * mono6(x1, y1, z1, x2, y2, z2, 0, 0, 2, 1, 1, 0)) + (((-42int) * mono6(x1, y1, z1, x2, y2, z2, 0, 1, 1, 1, 0, 1)) + (1int * mono6(x1, y1, z1, x2, y2, z2, 0, 2, 0, 1, 1, 0)))) + (((-42int) * mono6(x1, y1, z1, x2, y2, z2, 1, 0, 1, 0, 1, 1)) + (((-21int) * mono6(x1, y1, z1, x2, y2, z2, 1, 1, 0, 0, 0, 2)) + (1int * mono6(x1, y1, z1, x2, y2, z2, 1, 1, 0, 0, 2, 0))))), (1764int * mono6(x1, y1, z1, x2, y2, z2, 0, 2, 2, 2, 0, 2)), ((-42int) * mono6(x1, y1, z1, x2, y2, z2, 0, 2, 2, 2, 2, 0)));
    lemma_mul_is_distributive_add_other_way(((((-21int) * mono6(x1, y1, z1, x2, y2, z2, 0, 0, 2, 1, 1, 0)) + (((-42int) * mono6(x1, y1, z1, x2, y2, z2, 0, 1, 1, 1, 0, 1)) + (1int * mono6(x1, y1, z1, x2, y2, z2, 0, 2, 0, 1, 1, 0)))) + (((-42int) * mono6(x1, y1, z1, x2, y2, z2, 1, 0, 1, 0, 1, 1)) + (((-21int) * mono6(x1, y1, z1, x2, y2, z2, 1, 1, 0, 0, 0, 2)) + (1int * mono6(x1, y1, z1, x2, y2, z2, 1, 1, 0, 0, 2, 0))))), (((-84int) * mono6(x1, y1, z1, x2, y2, z2, 0, 3, 1, 2, 1, 1)) + (1int * mono6(x1, y1, z1, x2, y2, z2, 0, 4, 0, 2, 2, 0))), ((1764int * mono6(x1, y1, z1, x2, y2, z2, 1, 0, 3, 1, 2, 1)) + (4410int * mono6(x1, y1, z1, x2, y2, z2, 1, 1, 2, 1, 1, 2))));
    lemma_mul_is_distributive_add_other_way(((((-21int) * mono6(x1, y1, z1, x2, y2, z2, 0, 0, 2, 1, 1, 0)) + (((-42int) * mono6(x1, y1, z1, x2, y2, z2, 0, 1, 1, 1, 0, 1)) + (1int * mono6(x1, y1, z1, x2, y2, z2, 0, 2, 0, 1, 1, 0)))) + (((-42int) * mono6(x1, y1, z1, x2, y2, z2, 1, 0, 1, 0, 1, 1)) + (((-21int) * mono6(x1, y1, z1, x2, y2, z2, 1, 1, 0, 0, 0, 2)) + (1int * mono6(x1, y1, z1, x2, y2, z2, 1, 1, 0, 0, 2, 0))))), ((-84int) * mono6(x1, y1, z1, x2, y2, z2, 0, 3, 1, 2, 1, 1)), (1int * mono6(x1, y1, z1, x2, y2, z2, 0, 4, 0, 2, 2, 0)));
    lemma_mul_is_distributive_add_other_way(((((-21int) * mono6(x1, y1, z1, x2, y2, z2, 0, 0, 2, 1, 1, 0)) + (((-42int) * mono6(x1, y1, z1, x2, y2, z2, 0, 1, 1, 1, 0, 1)) + (1int * mono6(x1, y1, z1, x2, y2, z2, 0, 2, 0, 1, 1, 0)))) + (((-42int) * mono6(x1, y1, z1, x2, y2, z2, 1, 0, 1, 0, 1, 1)) + (((-21int) * mono6(x1, y1, z1, x2, y2, z2, 1, 1, 0, 0, 0, 2)) + (1int * mono6(x1, y1, z1, x2, y2, z2, 1, 1, 0, 0, 2, 0))))), (1764int * mono6(x1, y1, z1, x2, y2, z2, 1, 0, 3, 1, 2, 1)), (4410int * mono6(x1, y1, z1, x2, y2, z2, 1, 1, 2, 1, 1, 2)));
    lemma_mul_is_distributive_add_other_way(((((-21int) * mono6(x1, y1, z1, x2, y2, z2, 0, 0, 2, 1, 1, 0)) + (((-42int) * mono6(x1, y1, z1, x2, y2, z2, 0, 1, 1, 1, 0, 1)) + (1int * mono6(x1, y1, z1, x2, y2, z2, 0, 2, 0, 1, 1, 0)))) + (((-42int) * mono6(x1, y1, z1, x2, y2, z2, 1, 0, 1, 0, 1, 1)) + (((-21int) * mono6(x1, y1, z1, x2, y2, z2, 1, 1, 0, 0, 0, 2)) + (1int * mono6(x1, y1, z1, x2, y2, z2, 1, 1, 0, 0, 2, 0))))), ((((-42int) * mono6(x1, y1, z1, x2, y2, z2, 1, 1, 2, 1, 3, 0)) + (1764int * mono6(x1, y1, z1, x2, y2, z2, 1, 2, 1, 1, 0, 3))) + (((-168int) * mono6(x1, y1, z1, x2, y2, z2, 1, 2, 1, 1, 2, 1)) + ((-42int) * mono6(x1, y1, z1, x2, y2, z2, 1, 3, 0, 1, 1, 2)))), (((2int * mono6(x1, y1, z1, x2, y2, z2, 1, 3, 0, 1, 3, 0)) + (1764int * mono6(x1, y1, z1, x2, y2, z2, 2, 0, 2, 0, 2, 2))) + ((1764int * mono6(x1, y1, z1, x2, y2, z2, 2, 1, 1, 0, 1, 3)) + ((-84int) * mono6(x1, y1, z1, x2, y2, z2, 2, 1, 1, 0, 3, 1)))));
    lemma_mul_is_distributive_add_other_way(((((-21int) * mono6(x1, y1, z1, x2, y2, z2, 0, 0, 2, 1, 1, 0)) + (((-42int) * mono6(x1, y1, z1, x2, y2, z2, 0, 1, 1, 1, 0, 1)) + (1int * mono6(x1, y1, z1, x2, y2, z2, 0, 2, 0, 1, 1, 0)))) + (((-42int) * mono6(x1, y1, z1, x2, y2, z2, 1, 0, 1, 0, 1, 1)) + (((-21int) * mono6(x1, y1, z1, x2, y2, z2, 1, 1, 0, 0, 0, 2)) + (1int * mono6(x1, y1, z1, x2, y2, z2, 1, 1, 0, 0, 2, 0))))), (((-42int) * mono6(x1, y1, z1, x2, y2, z2, 1, 1, 2, 1, 3, 0)) + (1764int * mono6(x1, y1, z1, x2, y2, z2, 1, 2, 1, 1, 0, 3))), (((-168int) * mono6(x1, y1, z1, x2, y2, z2, 1, 2, 1, 1, 2, 1)) + ((-42int) * mono6(x1, y1, z1, x2, y2, z2, 1, 3, 0, 1, 1, 2))));
    lemma_mul_is_distributive_add_other_way(((((-21int) * mono6(x1, y1, z1, x2, y2, z2, 0, 0, 2, 1, 1, 0)) + (((-42int) * mono6(x1, y1, z1, x2, y2, z2, 0, 1, 1, 1, 0, 1)) + (1int * mono6(x1, y1, z1, x2, y2, z2, 0, 2, 0, 1, 1, 0)))) + (((-42int) * mono6(x1, y1, z1, x2, y2, z2, 1, 0, 1, 0, 1, 1)) + (((-21int) * mono6(x1, y1, z1, x2, y2, z2, 1, 1, 0, 0, 0, 2)) + (1int * mono6(x1, y1, z1, x2, y2, z2, 1, 1, 0, 0, 2, 0))))), ((-42int) * mono6(x1, y1, z1, x2, y2, z2, 1, 1, 2, 1, 3, 0)), (1764int * mono6(x1, y1, z1, x2, y2, z2, 1, 2, 1, 1, 0, 3)));
    lemma_mul_is_distributive_add_other_way(((((-21int) * mono6(x1, y1, z1, x2, y2, z2, 0, 0, 2, 1, 1, 0)) + (((-42int) * mono6(x1, y1, z1, x2, y2, z2, 0, 1, 1, 1, 0, 1)) + (1int * mono6(x1, y1, z1, x2, y2, z2, 0, 2, 0, 1, 1, 0)))) + (((-42int) * mono6(x1, y1, z1, x2, y2, z2, 1, 0, 1, 0, 1, 1)) + (((-21int) * mono6(x1, y1, z1, x2, y2, z2, 1, 1, 0, 0, 0, 2)) + (1int * mono6(x1, y1, z1, x2, y2, z2, 1, 1, 0, 0, 2, 0))))), ((-168int) * mono6(x1, y1, z1, x2, y2, z2, 1, 2, 1, 1, 2, 1)), ((-42int) * mono6(x1, y1, z1, x2, y2, z2, 1, 3, 0, 1, 1, 2)));
    lemma_mul_is_distributive_add_other_way(((((-21int) * mono6(x1, y1, z1, x2, y2, z2, 0, 0, 2, 1, 1, 0)) + (((-42int) * mono6(x1, y1, z1, x2, y2, z2, 0, 1, 1, 1, 0, 1)) + (1int * mono6(x1, y1, z1, x2, y2, z2, 0, 2, 0, 1, 1, 0)))) + (((-42int) * mono6(x1, y1, z1, x2, y2, z2, 1, 0, 1, 0, 1, 1)) + (((-21int) * mono6(x1, y1, z1, x2, y2, z2, 1, 1, 0, 0, 0, 2)) + (1int * mono6(x1, y1, z1, x2, y2, z2, 1, 1, 0, 0, 2, 0))))), ((2int * mono6(x1, y1, z1, x2, y2, z2, 1, 3, 0, 1, 3, 0)) + (1764int * mono6(x1, y1, z1, x2, y2, z2, 2, 0, 2, 0, 2, 2))), ((1764int * mono6(x1, y1, z1, x2, y2, z2, 2, 1, 1, 0, 1, 3)) + ((-84int) * mono6(x1, y1, z1, x2, y2, z2, 2, 1, 1, 0, 3, 1))));
    lemma_mul_is_distributive_add_other_way(((((-21int) * mono6(x1, y1, z1, x2, y2, z2, 0, 0, 2, 1, 1, 0)) + (((-42int) * mono6(x1, y1, z1, x2, y2, z2, 0, 1, 1, 1, 0, 1)) + (1int * mono6(x1, y1, z1, x2, y2, z2, 0, 2, 0, 1, 1, 0)))) + (((-42int) * mono6(x1, y1, z1, x2, y2, z2, 1, 0, 1, 0, 1, 1)) + (((-21int) * mono6(x1, y1, z1, x2, y2, z2, 1, 1, 0, 0, 0, 2)) + (1int * mono6(x1, y1, z1, x2, y2, z2, 1, 1, 0, 0, 2, 0))))), (2int * mono6(x1, y1, z1, x2, y2, z2, 1, 3, 0, 1, 3, 0)), (1764int * mono6(x1, y1, z1, x2, y2, z2, 2, 0, 2, 0, 2, 2)));
    lemma_mul_is_distributive_add_other_way(((((-21int) * mono6(x1, y1, z1, x2, y2, z2, 0, 0, 2, 1, 1, 0)) + (((-42int) * mono6(x1, y1, z1, x2, y2, z2, 0, 1, 1, 1, 0, 1)) + (1int * mono6(x1, y1, z1, x2, y2, z2, 0, 2, 0, 1, 1, 0)))) + (((-42int) * mono6(x1, y1, z1, x2, y2, z2, 1, 0, 1, 0, 1, 1)) + (((-21int) * mono6(x1, y1, z1, x2, y2, z2, 1, 1, 0, 0, 0, 2)) + (1int * mono6(x1, y1, z1, x2, y2, z2, 1, 1, 0, 0, 2, 0))))), (1764int * mono6(x1, y1, z1, x2, y2, z2, 2, 1, 1, 0, 1, 3)), ((-84int) * mono6(x1, y1, z1, x2, y2, z2, 2, 1, 1, 0, 3, 1)));
    lemma_mul_is_distributive_add((441int * mono6(x1, y1, z1, x2, y2, z2, 0, 0, 4, 2, 2, 0)), (((-21int) * mono6(x1, y1, z1, x2, y2, z2, 0, 0, 2, 1, 1, 0)) + (((-42int) * mono6(x1, y1, z1, x2, y2, z2, 0, 1, 1, 1, 0, 1)) + (1int * mono6(x1, y1, z1, x2, y2, z2, 0, 2, 0, 1, 1, 0)))), (((-42int) * mono6(x1, y1, z1, x2, y2, z2, 1, 0, 1, 0, 1, 1)) + (((-21int) * mono6(x1, y1, z1, x2, y2, z2, 1, 1, 0, 0, 0, 2)) + (1int * mono6(x1, y1, z1, x2, y2, z2, 1, 1, 0, 0, 2, 0)))));
    lemma_mul_is_distributive_add((441int * mono6(x1, y1, z1, x2, y2, z2, 0, 0, 4, 2, 2, 0)), ((-21int) * mono6(x1, y1, z1, x2, y2, z2, 0, 0, 2, 1, 1, 0)), (((-42int) * mono6(x1, y1, z1, x2, y2, z2, 0, 1, 1, 1, 0, 1)) + (1int * mono6(x1, y1, z1, x2, y2, z2, 0, 2, 0, 1, 1, 0))));
    lemma_mul_is_distributive_add((441int * mono6(x1, y1, z1, x2, y2, z2, 0, 0, 4, 2, 2, 0)), ((-42int) * mono6(x1, y1, z1, x2, y2, z2, 0, 1, 1, 1, 0, 1)), (1int * mono6(x1, y1, z1, x2, y2, z2, 0, 2, 0, 1, 1, 0)));
    lemma_mul_is_distributive_add((441int * mono6(x1, y1, z1, x2, y2, z2, 0, 0, 4, 2, 2, 0)), ((-42int) * mono6(x1, y1, z1, x2, y2, z2, 1, 0, 1, 0, 1, 1)), (((-21int) * mono6(x1, y1, z1, x2, y2, z2, 1, 1, 0, 0, 0, 2)) + (1int * mono6(x1, y1, z1, x2, y2, z2, 1, 1, 0, 0, 2, 0))));
    lemma_mul_is_distributive_add((441int * mono6(x1, y1, z1, x2, y2, z2, 0, 0, 4, 2, 2, 0)), ((-21int) * mono6(x1, y1, z1, x2, y2, z2, 1, 1, 0, 0, 0, 2)), (1int * mono6(x1, y1, z1, x2, y2, z2, 1, 1, 0, 0, 2, 0)));
    lemma_coefficient_product(441int, mono6(x1, y1, z1, x2, y2, z2, 0, 0, 4, 2, 2, 0), (-21int), mono6(x1, y1, z1, x2, y2, z2, 0, 0, 2, 1, 1, 0));
    lemma_mono6_mul(x1, y1, z1, x2, y2, z2, 0, 0, 4, 2, 2, 0, 0, 0, 2, 1, 1, 0);
    lemma_coefficient_product(441int, mono6(x1, y1, z1, x2, y2, z2, 0, 0, 4, 2, 2, 0), (-42int), mono6(x1, y1, z1, x2, y2, z2, 0, 1, 1, 1, 0, 1));
    lemma_mono6_mul(x1, y1, z1, x2, y2, z2, 0, 0, 4, 2, 2, 0, 0, 1, 1, 1, 0, 1);
    lemma_coefficient_product(441int, mono6(x1, y1, z1, x2, y2, z2, 0, 0, 4, 2, 2, 0), 1int, mono6(x1, y1, z1, x2, y2, z2, 0, 2, 0, 1, 1, 0));
    lemma_mono6_mul(x1, y1, z1, x2, y2, z2, 0, 0, 4, 2, 2, 0, 0, 2, 0, 1, 1, 0);
    lemma_coefficient_product(441int, mono6(x1, y1, z1, x2, y2, z2, 0, 0, 4, 2, 2, 0), (-42int), mono6(x1, y1, z1, x2, y2, z2, 1, 0, 1, 0, 1, 1));
    lemma_mono6_mul(x1, y1, z1, x2, y2, z2, 0, 0, 4, 2, 2, 0, 1, 0, 1, 0, 1, 1);
    lemma_coefficient_product(441int, mono6(x1, y1, z1, x2, y2, z2, 0, 0, 4, 2, 2, 0), (-21int), mono6(x1, y1, z1, x2, y2, z2, 1, 1, 0, 0, 0, 2));
    lemma_mono6_mul(x1, y1, z1, x2, y2, z2, 0, 0, 4, 2, 2, 0, 1, 1, 0, 0, 0, 2);
    lemma_coefficient_product(441int, mono6(x1, y1, z1, x2, y2, z2, 0, 0, 4, 2, 2, 0), 1int, mono6(x1, y1, z1, x2, y2, z2, 1, 1, 0, 0, 2, 0));
    lemma_mono6_mul(x1, y1, z1, x2, y2, z2, 0, 0, 4, 2, 2, 0, 1, 1, 0, 0, 2, 0);
    lemma_mul_is_distributive_add((1764int * mono6(x1, y1, z1, x2, y2, z2, 0, 1, 3, 2, 1, 1)), (((-21int) * mono6(x1, y1, z1, x2, y2, z2, 0, 0, 2, 1, 1, 0)) + (((-42int) * mono6(x1, y1, z1, x2, y2, z2, 0, 1, 1, 1, 0, 1)) + (1int * mono6(x1, y1, z1, x2, y2, z2, 0, 2, 0, 1, 1, 0)))), (((-42int) * mono6(x1, y1, z1, x2, y2, z2, 1, 0, 1, 0, 1, 1)) + (((-21int) * mono6(x1, y1, z1, x2, y2, z2, 1, 1, 0, 0, 0, 2)) + (1int * mono6(x1, y1, z1, x2, y2, z2, 1, 1, 0, 0, 2, 0)))));
    lemma_mul_is_distributive_add((1764int * mono6(x1, y1, z1, x2, y2, z2, 0, 1, 3, 2, 1, 1)), ((-21int) * mono6(x1, y1, z1, x2, y2, z2, 0, 0, 2, 1, 1, 0)), (((-42int) * mono6(x1, y1, z1, x2, y2, z2, 0, 1, 1, 1, 0, 1)) + (1int * mono6(x1, y1, z1, x2, y2, z2, 0, 2, 0, 1, 1, 0))));
    lemma_mul_is_distributive_add((1764int * mono6(x1, y1, z1, x2, y2, z2, 0, 1, 3, 2, 1, 1)), ((-42int) * mono6(x1, y1, z1, x2, y2, z2, 0, 1, 1, 1, 0, 1)), (1int * mono6(x1, y1, z1, x2, y2, z2, 0, 2, 0, 1, 1, 0)));
    lemma_mul_is_distributive_add((1764int * mono6(x1, y1, z1, x2, y2, z2, 0, 1, 3, 2, 1, 1)), ((-42int) * mono6(x1, y1, z1, x2, y2, z2, 1, 0, 1, 0, 1, 1)), (((-21int) * mono6(x1, y1, z1, x2, y2, z2, 1, 1, 0, 0, 0, 2)) + (1int * mono6(x1, y1, z1, x2, y2, z2, 1, 1, 0, 0, 2, 0))));
    lemma_mul_is_distributive_add((1764int * mono6(x1, y1, z1, x2, y2, z2, 0, 1, 3, 2, 1, 1)), ((-21int) * mono6(x1, y1, z1, x2, y2, z2, 1, 1, 0, 0, 0, 2)), (1int * mono6(x1, y1, z1, x2, y2, z2, 1, 1, 0, 0, 2, 0)));
    lemma_coefficient_product(1764int, mono6(x1, y1, z1, x2, y2, z2, 0, 1, 3, 2, 1, 1), (-21int), mono6(x1, y1, z1, x2, y2, z2, 0, 0, 2, 1, 1, 0));
    lemma_mono6_mul(x1, y1, z1, x2, y2, z2, 0, 1, 3, 2, 1, 1, 0, 0, 2, 1, 1, 0);
    lemma_coefficient_product(1764int, mono6(x1, y1, z1, x2, y2, z2, 0, 1, 3, 2, 1, 1), (-42int), mono6(x1, y1, z1, x2, y2, z2, 0, 1, 1, 1, 0, 1));
    lemma_mono6_mul(x1, y1, z1, x2, y2, z2, 0, 1, 3, 2, 1, 1, 0, 1, 1, 1, 0, 1);
    lemma_coefficient_product(1764int, mono6(x1, y1, z1, x2, y2, z2, 0, 1, 3, 2, 1, 1), 1int, mono6(x1, y1, z1, x2, y2, z2, 0, 2, 0, 1, 1, 0));
    lemma_mono6_mul(x1, y1, z1, x2, y2, z2, 0, 1, 3, 2, 1, 1, 0, 2, 0, 1, 1, 0);
    lemma_coefficient_product(1764int, mono6(x1, y1, z1, x2, y2, z2, 0, 1, 3, 2, 1, 1), (-42int), mono6(x1, y1, z1, x2, y2, z2, 1, 0, 1, 0, 1, 1));
    lemma_mono6_mul(x1, y1, z1, x2, y2, z2, 0, 1, 3, 2, 1, 1, 1, 0, 1, 0, 1, 1);
    lemma_coefficient_product(1764int, mono6(x1, y1, z1, x2, y2, z2, 0, 1, 3, 2, 1, 1), (-21int), mono6(x1, y1, z1, x2, y2, z2, 1, 1, 0, 0, 0, 2));
    lemma_mono6_mul(x1, y1, z1, x2, y2, z2, 0, 1, 3, 2, 1, 1, 1, 1, 0, 0, 0, 2);
    lemma_coefficient_product(1764int, mono6(x1, y1, z1, x2, y2, z2, 0, 1, 3, 2, 1, 1), 1int, mono6(x1, y1, z1, x2, y2, z2, 1, 1, 0, 0, 2, 0));
    lemma_mono6_mul(x1, y1, z1, x2, y2, z2, 0, 1, 3, 2, 1, 1, 1, 1, 0, 0, 2, 0);
    lemma_mul_is_distributive_add((1764int * mono6(x1, y1, z1, x2, y2, z2, 0, 2, 2, 2, 0, 2)), (((-21int) * mono6(x1, y1, z1, x2, y2, z2, 0, 0, 2, 1, 1, 0)) + (((-42int) * mono6(x1, y1, z1, x2, y2, z2, 0, 1, 1, 1, 0, 1)) + (1int * mono6(x1, y1, z1, x2, y2, z2, 0, 2, 0, 1, 1, 0)))), (((-42int) * mono6(x1, y1, z1, x2, y2, z2, 1, 0, 1, 0, 1, 1)) + (((-21int) * mono6(x1, y1, z1, x2, y2, z2, 1, 1, 0, 0, 0, 2)) + (1int * mono6(x1, y1, z1, x2, y2, z2, 1, 1, 0, 0, 2, 0)))));
    lemma_mul_is_distributive_add((1764int * mono6(x1, y1, z1, x2, y2, z2, 0, 2, 2, 2, 0, 2)), ((-21int) * mono6(x1, y1, z1, x2, y2, z2, 0, 0, 2, 1, 1, 0)), (((-42int) * mono6(x1, y1, z1, x2, y2, z2, 0, 1, 1, 1, 0, 1)) + (1int * mono6(x1, y1, z1, x2, y2, z2, 0, 2, 0, 1, 1, 0))));
    lemma_mul_is_distributive_add((1764int * mono6(x1, y1, z1, x2, y2, z2, 0, 2, 2, 2, 0, 2)), ((-42int) * mono6(x1, y1, z1, x2, y2, z2, 0, 1, 1, 1, 0, 1)), (1int * mono6(x1, y1, z1, x2, y2, z2, 0, 2, 0, 1, 1, 0)));
    lemma_mul_is_distributive_add((1764int * mono6(x1, y1, z1, x2, y2, z2, 0, 2, 2, 2, 0, 2)), ((-42int) * mono6(x1, y1, z1, x2, y2, z2, 1, 0, 1, 0, 1, 1)), (((-21int) * mono6(x1, y1, z1, x2, y2, z2, 1, 1, 0, 0, 0, 2)) + (1int * mono6(x1, y1, z1, x2, y2, z2, 1, 1, 0, 0, 2, 0))));
    lemma_mul_is_distributive_add((1764int * mono6(x1, y1, z1, x2, y2, z2, 0, 2, 2, 2, 0, 2)), ((-21int) * mono6(x1, y1, z1, x2, y2, z2, 1, 1, 0, 0, 0, 2)), (1int * mono6(x1, y1, z1, x2, y2, z2, 1, 1, 0, 0, 2, 0)));
    lemma_coefficient_product(1764int, mono6(x1, y1, z1, x2, y2, z2, 0, 2, 2, 2, 0, 2), (-21int), mono6(x1, y1, z1, x2, y2, z2, 0, 0, 2, 1, 1, 0));
    lemma_mono6_mul(x1, y1, z1, x2, y2, z2, 0, 2, 2, 2, 0, 2, 0, 0, 2, 1, 1, 0);
    lemma_coefficient_product(1764int, mono6(x1, y1, z1, x2, y2, z2, 0, 2, 2, 2, 0, 2), (-42int), mono6(x1, y1, z1, x2, y2, z2, 0, 1, 1, 1, 0, 1));
    lemma_mono6_mul(x1, y1, z1, x2, y2, z2, 0, 2, 2, 2, 0, 2, 0, 1, 1, 1, 0, 1);
    lemma_coefficient_product(1764int, mono6(x1, y1, z1, x2, y2, z2, 0, 2, 2, 2, 0, 2), 1int, mono6(x1, y1, z1, x2, y2, z2, 0, 2, 0, 1, 1, 0));
    lemma_mono6_mul(x1, y1, z1, x2, y2, z2, 0, 2, 2, 2, 0, 2, 0, 2, 0, 1, 1, 0);
    lemma_coefficient_product(1764int, mono6(x1, y1, z1, x2, y2, z2, 0, 2, 2, 2, 0, 2), (-42int), mono6(x1, y1, z1, x2, y2, z2, 1, 0, 1, 0, 1, 1));
    lemma_mono6_mul(x1, y1, z1, x2, y2, z2, 0, 2, 2, 2, 0, 2, 1, 0, 1, 0, 1, 1);
    lemma_coefficient_product(1764int, mono6(x1, y1, z1, x2, y2, z2, 0, 2, 2, 2, 0, 2), (-21int), mono6(x1, y1, z1, x2, y2, z2, 1, 1, 0, 0, 0, 2));
    lemma_mono6_mul(x1, y1, z1, x2, y2, z2, 0, 2, 2, 2, 0, 2, 1, 1, 0, 0, 0, 2);
    lemma_coefficient_product(1764int, mono6(x1, y1, z1, x2, y2, z2, 0, 2, 2, 2, 0, 2), 1int, mono6(x1, y1, z1, x2, y2, z2, 1, 1, 0, 0, 2, 0));
    lemma_mono6_mul(x1, y1, z1, x2, y2, z2, 0, 2, 2, 2, 0, 2, 1, 1, 0, 0, 2, 0);
    lemma_mul_is_distributive_add(((-42int) * mono6(x1, y1, z1, x2, y2, z2, 0, 2, 2, 2, 2, 0)), (((-21int) * mono6(x1, y1, z1, x2, y2, z2, 0, 0, 2, 1, 1, 0)) + (((-42int) * mono6(x1, y1, z1, x2, y2, z2, 0, 1, 1, 1, 0, 1)) + (1int * mono6(x1, y1, z1, x2, y2, z2, 0, 2, 0, 1, 1, 0)))), (((-42int) * mono6(x1, y1, z1, x2, y2, z2, 1, 0, 1, 0, 1, 1)) + (((-21int) * mono6(x1, y1, z1, x2, y2, z2, 1, 1, 0, 0, 0, 2)) + (1int * mono6(x1, y1, z1, x2, y2, z2, 1, 1, 0, 0, 2, 0)))));
    lemma_mul_is_distributive_add(((-42int) * mono6(x1, y1, z1, x2, y2, z2, 0, 2, 2, 2, 2, 0)), ((-21int) * mono6(x1, y1, z1, x2, y2, z2, 0, 0, 2, 1, 1, 0)), (((-42int) * mono6(x1, y1, z1, x2, y2, z2, 0, 1, 1, 1, 0, 1)) + (1int * mono6(x1, y1, z1, x2, y2, z2, 0, 2, 0, 1, 1, 0))));
    lemma_mul_is_distributive_add(((-42int) * mono6(x1, y1, z1, x2, y2, z2, 0, 2, 2, 2, 2, 0)), ((-42int) * mono6(x1, y1, z1, x2, y2, z2, 0, 1, 1, 1, 0, 1)), (1int * mono6(x1, y1, z1, x2, y2, z2, 0, 2, 0, 1, 1, 0)));
    lemma_mul_is_distributive_add(((-42int) * mono6(x1, y1, z1, x2, y2, z2, 0, 2, 2, 2, 2, 0)), ((-42int) * mono6(x1, y1, z1, x2, y2, z2, 1, 0, 1, 0, 1, 1)), (((-21int) * mono6(x1, y1, z1, x2, y2, z2, 1, 1, 0, 0, 0, 2)) + (1int * mono6(x1, y1, z1, x2, y2, z2, 1, 1, 0, 0, 2, 0))));
    lemma_mul_is_distributive_add(((-42int) * mono6(x1, y1, z1, x2, y2, z2, 0, 2, 2, 2, 2, 0)), ((-21int) * mono6(x1, y1, z1, x2, y2, z2, 1, 1, 0, 0, 0, 2)), (1int * mono6(x1, y1, z1, x2, y2, z2, 1, 1, 0, 0, 2, 0)));
    lemma_coefficient_product((-42int), mono6(x1, y1, z1, x2, y2, z2, 0, 2, 2, 2, 2, 0), (-21int), mono6(x1, y1, z1, x2, y2, z2, 0, 0, 2, 1, 1, 0));
    lemma_mono6_mul(x1, y1, z1, x2, y2, z2, 0, 2, 2, 2, 2, 0, 0, 0, 2, 1, 1, 0);
    lemma_coefficient_product((-42int), mono6(x1, y1, z1, x2, y2, z2, 0, 2, 2, 2, 2, 0), (-42int), mono6(x1, y1, z1, x2, y2, z2, 0, 1, 1, 1, 0, 1));
    lemma_mono6_mul(x1, y1, z1, x2, y2, z2, 0, 2, 2, 2, 2, 0, 0, 1, 1, 1, 0, 1);
    lemma_coefficient_product((-42int), mono6(x1, y1, z1, x2, y2, z2, 0, 2, 2, 2, 2, 0), 1int, mono6(x1, y1, z1, x2, y2, z2, 0, 2, 0, 1, 1, 0));
    lemma_mono6_mul(x1, y1, z1, x2, y2, z2, 0, 2, 2, 2, 2, 0, 0, 2, 0, 1, 1, 0);
    lemma_coefficient_product((-42int), mono6(x1, y1, z1, x2, y2, z2, 0, 2, 2, 2, 2, 0), (-42int), mono6(x1, y1, z1, x2, y2, z2, 1, 0, 1, 0, 1, 1));
    lemma_mono6_mul(x1, y1, z1, x2, y2, z2, 0, 2, 2, 2, 2, 0, 1, 0, 1, 0, 1, 1);
    lemma_coefficient_product((-42int), mono6(x1, y1, z1, x2, y2, z2, 0, 2, 2, 2, 2, 0), (-21int), mono6(x1, y1, z1, x2, y2, z2, 1, 1, 0, 0, 0, 2));
    lemma_mono6_mul(x1, y1, z1, x2, y2, z2, 0, 2, 2, 2, 2, 0, 1, 1, 0, 0, 0, 2);
    lemma_coefficient_product((-42int), mono6(x1, y1, z1, x2, y2, z2, 0, 2, 2, 2, 2, 0), 1int, mono6(x1, y1, z1, x2, y2, z2, 1, 1, 0, 0, 2, 0));
    lemma_mono6_mul(x1, y1, z1, x2, y2, z2, 0, 2, 2, 2, 2, 0, 1, 1, 0, 0, 2, 0);
    lemma_mul_is_distributive_add(((-84int) * mono6(x1, y1, z1, x2, y2, z2, 0, 3, 1, 2, 1, 1)), (((-21int) * mono6(x1, y1, z1, x2, y2, z2, 0, 0, 2, 1, 1, 0)) + (((-42int) * mono6(x1, y1, z1, x2, y2, z2, 0, 1, 1, 1, 0, 1)) + (1int * mono6(x1, y1, z1, x2, y2, z2, 0, 2, 0, 1, 1, 0)))), (((-42int) * mono6(x1, y1, z1, x2, y2, z2, 1, 0, 1, 0, 1, 1)) + (((-21int) * mono6(x1, y1, z1, x2, y2, z2, 1, 1, 0, 0, 0, 2)) + (1int * mono6(x1, y1, z1, x2, y2, z2, 1, 1, 0, 0, 2, 0)))));
    lemma_mul_is_distributive_add(((-84int) * mono6(x1, y1, z1, x2, y2, z2, 0, 3, 1, 2, 1, 1)), ((-21int) * mono6(x1, y1, z1, x2, y2, z2, 0, 0, 2, 1, 1, 0)), (((-42int) * mono6(x1, y1, z1, x2, y2, z2, 0, 1, 1, 1, 0, 1)) + (1int * mono6(x1, y1, z1, x2, y2, z2, 0, 2, 0, 1, 1, 0))));
    lemma_mul_is_distributive_add(((-84int) * mono6(x1, y1, z1, x2, y2, z2, 0, 3, 1, 2, 1, 1)), ((-42int) * mono6(x1, y1, z1, x2, y2, z2, 0, 1, 1, 1, 0, 1)), (1int * mono6(x1, y1, z1, x2, y2, z2, 0, 2, 0, 1, 1, 0)));
    lemma_mul_is_distributive_add(((-84int) * mono6(x1, y1, z1, x2, y2, z2, 0, 3, 1, 2, 1, 1)), ((-42int) * mono6(x1, y1, z1, x2, y2, z2, 1, 0, 1, 0, 1, 1)), (((-21int) * mono6(x1, y1, z1, x2, y2, z2, 1, 1, 0, 0, 0, 2)) + (1int * mono6(x1, y1, z1, x2, y2, z2, 1, 1, 0, 0, 2, 0))));
    lemma_mul_is_distributive_add(((-84int) * mono6(x1, y1, z1, x2, y2, z2, 0, 3, 1, 2, 1, 1)), ((-21int) * mono6(x1, y1, z1, x2, y2, z2, 1, 1, 0, 0, 0, 2)), (1int * mono6(x1, y1, z1, x2, y2, z2, 1, 1, 0, 0, 2, 0)));
    lemma_coefficient_product((-84int), mono6(x1, y1, z1, x2, y2, z2, 0, 3, 1, 2, 1, 1), (-21int), mono6(x1, y1, z1, x2, y2, z2, 0, 0, 2, 1, 1, 0));
    lemma_mono6_mul(x1, y1, z1, x2, y2, z2, 0, 3, 1, 2, 1, 1, 0, 0, 2, 1, 1, 0);
    lemma_coefficient_product((-84int), mono6(x1, y1, z1, x2, y2, z2, 0, 3, 1, 2, 1, 1), (-42int), mono6(x1, y1, z1, x2, y2, z2, 0, 1, 1, 1, 0, 1));
    lemma_mono6_mul(x1, y1, z1, x2, y2, z2, 0, 3, 1, 2, 1, 1, 0, 1, 1, 1, 0, 1);
    lemma_coefficient_product((-84int), mono6(x1, y1, z1, x2, y2, z2, 0, 3, 1, 2, 1, 1), 1int, mono6(x1, y1, z1, x2, y2, z2, 0, 2, 0, 1, 1, 0));
    lemma_mono6_mul(x1, y1, z1, x2, y2, z2, 0, 3, 1, 2, 1, 1, 0, 2, 0, 1, 1, 0);
    lemma_coefficient_product((-84int), mono6(x1, y1, z1, x2, y2, z2, 0, 3, 1, 2, 1, 1), (-42int), mono6(x1, y1, z1, x2, y2, z2, 1, 0, 1, 0, 1, 1));
    lemma_mono6_mul(x1, y1, z1, x2, y2, z2, 0, 3, 1, 2, 1, 1, 1, 0, 1, 0, 1, 1);
    lemma_coefficient_product((-84int), mono6(x1, y1, z1, x2, y2, z2, 0, 3, 1, 2, 1, 1), (-21int), mono6(x1, y1, z1, x2, y2, z2, 1, 1, 0, 0, 0, 2));
    lemma_mono6_mul(x1, y1, z1, x2, y2, z2, 0, 3, 1, 2, 1, 1, 1, 1, 0, 0, 0, 2);
    lemma_coefficient_product((-84int), mono6(x1, y1, z1, x2, y2, z2, 0, 3, 1, 2, 1, 1), 1int, mono6(x1, y1, z1, x2, y2, z2, 1, 1, 0, 0, 2, 0));
    lemma_mono6_mul(x1, y1, z1, x2, y2, z2, 0, 3, 1, 2, 1, 1, 1, 1, 0, 0, 2, 0);
    lemma_mul_is_distributive_add((1int * mono6(x1, y1, z1, x2, y2, z2, 0, 4, 0, 2, 2, 0)), (((-21int) * mono6(x1, y1, z1, x2, y2, z2, 0, 0, 2, 1, 1, 0)) + (((-42int) * mono6(x1, y1, z1, x2, y2, z2, 0, 1, 1, 1, 0, 1)) + (1int * mono6(x1, y1, z1, x2, y2, z2, 0, 2, 0, 1, 1, 0)))), (((-42int) * mono6(x1, y1, z1, x2, y2, z2, 1, 0, 1, 0, 1, 1)) + (((-21int) * mono6(x1, y1, z1, x2, y2, z2, 1, 1, 0, 0, 0, 2)) + (1int * mono6(x1, y1, z1, x2, y2, z2, 1, 1, 0, 0, 2, 0)))));
    lemma_mul_is_distributive_add((1int * mono6(x1, y1, z1, x2, y2, z2, 0, 4, 0, 2, 2, 0)), ((-21int) * mono6(x1, y1, z1, x2, y2, z2, 0, 0, 2, 1, 1, 0)), (((-42int) * mono6(x1, y1, z1, x2, y2, z2, 0, 1, 1, 1, 0, 1)) + (1int * mono6(x1, y1, z1, x2, y2, z2, 0, 2, 0, 1, 1, 0))));
    lemma_mul_is_distributive_add((1int * mono6(x1, y1, z1, x2, y2, z2, 0, 4, 0, 2, 2, 0)), ((-42int) * mono6(x1, y1, z1, x2, y2, z2, 0, 1, 1, 1, 0, 1)), (1int * mono6(x1, y1, z1, x2, y2, z2, 0, 2, 0, 1, 1, 0)));
    lemma_mul_is_distributive_add((1int * mono6(x1, y1, z1, x2, y2, z2, 0, 4, 0, 2, 2, 0)), ((-42int) * mono6(x1, y1, z1, x2, y2, z2, 1, 0, 1, 0, 1, 1)), (((-21int) * mono6(x1, y1, z1, x2, y2, z2, 1, 1, 0, 0, 0, 2)) + (1int * mono6(x1, y1, z1, x2, y2, z2, 1, 1, 0, 0, 2, 0))));
    lemma_mul_is_distributive_add((1int * mono6(x1, y1, z1, x2, y2, z2, 0, 4, 0, 2, 2, 0)), ((-21int) * mono6(x1, y1, z1, x2, y2, z2, 1, 1, 0, 0, 0, 2)), (1int * mono6(x1, y1, z1, x2, y2, z2, 1, 1, 0, 0, 2, 0)));
    lemma_coefficient_product(1int, mono6(x1, y1, z1, x2, y2, z2, 0, 4, 0, 2, 2, 0), (-21int), mono6(x1, y1, z1, x2, y2, z2, 0, 0, 2, 1, 1, 0));
    lemma_mono6_mul(x1, y1, z1, x2, y2, z2, 0, 4, 0, 2, 2, 0, 0, 0, 2, 1, 1, 0);
    lemma_coefficient_product(1int, mono6(x1, y1, z1, x2, y2, z2, 0, 4, 0, 2, 2, 0), (-42int), mono6(x1, y1, z1, x2, y2, z2, 0, 1, 1, 1, 0, 1));
    lemma_mono6_mul(x1, y1, z1, x2, y2, z2, 0, 4, 0, 2, 2, 0, 0, 1, 1, 1, 0, 1);
    lemma_coefficient_product(1int, mono6(x1, y1, z1, x2, y2, z2, 0, 4, 0, 2, 2, 0), 1int, mono6(x1, y1, z1, x2, y2, z2, 0, 2, 0, 1, 1, 0));
    lemma_mono6_mul(x1, y1, z1, x2, y2, z2, 0, 4, 0, 2, 2, 0, 0, 2, 0, 1, 1, 0);
    lemma_coefficient_product(1int, mono6(x1, y1, z1, x2, y2, z2, 0, 4, 0, 2, 2, 0), (-42int), mono6(x1, y1, z1, x2, y2, z2, 1, 0, 1, 0, 1, 1));
    lemma_mono6_mul(x1, y1, z1, x2, y2, z2, 0, 4, 0, 2, 2, 0, 1, 0, 1, 0, 1, 1);
    lemma_coefficient_product(1int, mono6(x1, y1, z1, x2, y2, z2, 0, 4, 0, 2, 2, 0), (-21int), mono6(x1, y1, z1, x2, y2, z2, 1, 1, 0, 0, 0, 2));
    lemma_mono6_mul(x1, y1, z1, x2, y2, z2, 0, 4, 0, 2, 2, 0, 1, 1, 0, 0, 0, 2);
    lemma_coefficient_product(1int, mono6(x1, y1, z1, x2, y2, z2, 0, 4, 0, 2, 2, 0), 1int, mono6(x1, y1, z1, x2, y2, z2, 1, 1, 0, 0, 2, 0));
    lemma_mono6_mul(x1, y1, z1, x2, y2, z2, 0, 4, 0, 2, 2, 0, 1, 1, 0, 0, 2, 0);
    lemma_mul_is_distributive_add((1764int * mono6(x1, y1, z1, x2, y2, z2, 1, 0, 3, 1, 2, 1)), (((-21int) * mono6(x1, y1, z1, x2, y2, z2, 0, 0, 2, 1, 1, 0)) + (((-42int) * mono6(x1, y1, z1, x2, y2, z2, 0, 1, 1, 1, 0, 1)) + (1int * mono6(x1, y1, z1, x2, y2, z2, 0, 2, 0, 1, 1, 0)))), (((-42int) * mono6(x1, y1, z1, x2, y2, z2, 1, 0, 1, 0, 1, 1)) + (((-21int) * mono6(x1, y1, z1, x2, y2, z2, 1, 1, 0, 0, 0, 2)) + (1int * mono6(x1, y1, z1, x2, y2, z2, 1, 1, 0, 0, 2, 0)))));
    lemma_mul_is_distributive_add((1764int * mono6(x1, y1, z1, x2, y2, z2, 1, 0, 3, 1, 2, 1)), ((-21int) * mono6(x1, y1, z1, x2, y2, z2, 0, 0, 2, 1, 1, 0)), (((-42int) * mono6(x1, y1, z1, x2, y2, z2, 0, 1, 1, 1, 0, 1)) + (1int * mono6(x1, y1, z1, x2, y2, z2, 0, 2, 0, 1, 1, 0))));
    lemma_mul_is_distributive_add((1764int * mono6(x1, y1, z1, x2, y2, z2, 1, 0, 3, 1, 2, 1)), ((-42int) * mono6(x1, y1, z1, x2, y2, z2, 0, 1, 1, 1, 0, 1)), (1int * mono6(x1, y1, z1, x2, y2, z2, 0, 2, 0, 1, 1, 0)));
    lemma_mul_is_distributive_add((1764int * mono6(x1, y1, z1, x2, y2, z2, 1, 0, 3, 1, 2, 1)), ((-42int) * mono6(x1, y1, z1, x2, y2, z2, 1, 0, 1, 0, 1, 1)), (((-21int) * mono6(x1, y1, z1, x2, y2, z2, 1, 1, 0, 0, 0, 2)) + (1int * mono6(x1, y1, z1, x2, y2, z2, 1, 1, 0, 0, 2, 0))));
    lemma_mul_is_distributive_add((1764int * mono6(x1, y1, z1, x2, y2, z2, 1, 0, 3, 1, 2, 1)), ((-21int) * mono6(x1, y1, z1, x2, y2, z2, 1, 1, 0, 0, 0, 2)), (1int * mono6(x1, y1, z1, x2, y2, z2, 1, 1, 0, 0, 2, 0)));
    lemma_coefficient_product(1764int, mono6(x1, y1, z1, x2, y2, z2, 1, 0, 3, 1, 2, 1), (-21int), mono6(x1, y1, z1, x2, y2, z2, 0, 0, 2, 1, 1, 0));
    lemma_mono6_mul(x1, y1, z1, x2, y2, z2, 1, 0, 3, 1, 2, 1, 0, 0, 2, 1, 1, 0);
    lemma_coefficient_product(1764int, mono6(x1, y1, z1, x2, y2, z2, 1, 0, 3, 1, 2, 1), (-42int), mono6(x1, y1, z1, x2, y2, z2, 0, 1, 1, 1, 0, 1));
    lemma_mono6_mul(x1, y1, z1, x2, y2, z2, 1, 0, 3, 1, 2, 1, 0, 1, 1, 1, 0, 1);
    lemma_coefficient_product(1764int, mono6(x1, y1, z1, x2, y2, z2, 1, 0, 3, 1, 2, 1), 1int, mono6(x1, y1, z1, x2, y2, z2, 0, 2, 0, 1, 1, 0));
    lemma_mono6_mul(x1, y1, z1, x2, y2, z2, 1, 0, 3, 1, 2, 1, 0, 2, 0, 1, 1, 0);
    lemma_coefficient_product(1764int, mono6(x1, y1, z1, x2, y2, z2, 1, 0, 3, 1, 2, 1), (-42int), mono6(x1, y1, z1, x2, y2, z2, 1, 0, 1, 0, 1, 1));
    lemma_mono6_mul(x1, y1, z1, x2, y2, z2, 1, 0, 3, 1, 2, 1, 1, 0, 1, 0, 1, 1);
    lemma_coefficient_product(1764int, mono6(x1, y1, z1, x2, y2, z2, 1, 0, 3, 1, 2, 1), (-21int), mono6(x1, y1, z1, x2, y2, z2, 1, 1, 0, 0, 0, 2));
    lemma_mono6_mul(x1, y1, z1, x2, y2, z2, 1, 0, 3, 1, 2, 1, 1, 1, 0, 0, 0, 2);
    lemma_coefficient_product(1764int, mono6(x1, y1, z1, x2, y2, z2, 1, 0, 3, 1, 2, 1), 1int, mono6(x1, y1, z1, x2, y2, z2, 1, 1, 0, 0, 2, 0));
    lemma_mono6_mul(x1, y1, z1, x2, y2, z2, 1, 0, 3, 1, 2, 1, 1, 1, 0, 0, 2, 0);
    lemma_mul_is_distributive_add((4410int * mono6(x1, y1, z1, x2, y2, z2, 1, 1, 2, 1, 1, 2)), (((-21int) * mono6(x1, y1, z1, x2, y2, z2, 0, 0, 2, 1, 1, 0)) + (((-42int) * mono6(x1, y1, z1, x2, y2, z2, 0, 1, 1, 1, 0, 1)) + (1int * mono6(x1, y1, z1, x2, y2, z2, 0, 2, 0, 1, 1, 0)))), (((-42int) * mono6(x1, y1, z1, x2, y2, z2, 1, 0, 1, 0, 1, 1)) + (((-21int) * mono6(x1, y1, z1, x2, y2, z2, 1, 1, 0, 0, 0, 2)) + (1int * mono6(x1, y1, z1, x2, y2, z2, 1, 1, 0, 0, 2, 0)))));
    lemma_mul_is_distributive_add((4410int * mono6(x1, y1, z1, x2, y2, z2, 1, 1, 2, 1, 1, 2)), ((-21int) * mono6(x1, y1, z1, x2, y2, z2, 0, 0, 2, 1, 1, 0)), (((-42int) * mono6(x1, y1, z1, x2, y2, z2, 0, 1, 1, 1, 0, 1)) + (1int * mono6(x1, y1, z1, x2, y2, z2, 0, 2, 0, 1, 1, 0))));
    lemma_mul_is_distributive_add((4410int * mono6(x1, y1, z1, x2, y2, z2, 1, 1, 2, 1, 1, 2)), ((-42int) * mono6(x1, y1, z1, x2, y2, z2, 0, 1, 1, 1, 0, 1)), (1int * mono6(x1, y1, z1, x2, y2, z2, 0, 2, 0, 1, 1, 0)));
    lemma_mul_is_distributive_add((4410int * mono6(x1, y1, z1, x2, y2, z2, 1, 1, 2, 1, 1, 2)), ((-42int) * mono6(x1, y1, z1, x2, y2, z2, 1, 0, 1, 0, 1, 1)), (((-21int) * mono6(x1, y1, z1, x2, y2, z2, 1, 1, 0, 0, 0, 2)) + (1int * mono6(x1, y1, z1, x2, y2, z2, 1, 1, 0, 0, 2, 0))));
    lemma_mul_is_distributive_add((4410int * mono6(x1, y1, z1, x2, y2, z2, 1, 1, 2, 1, 1, 2)), ((-21int) * mono6(x1, y1, z1, x2, y2, z2, 1, 1, 0, 0, 0, 2)), (1int * mono6(x1, y1, z1, x2, y2, z2, 1, 1, 0, 0, 2, 0)));
    lemma_coefficient_product(4410int, mono6(x1, y1, z1, x2, y2, z2, 1, 1, 2, 1, 1, 2), (-21int), mono6(x1, y1, z1, x2, y2, z2, 0, 0, 2, 1, 1, 0));
    lemma_mono6_mul(x1, y1, z1, x2, y2, z2, 1, 1, 2, 1, 1, 2, 0, 0, 2, 1, 1, 0);
    lemma_coefficient_product(4410int, mono6(x1, y1, z1, x2, y2, z2, 1, 1, 2, 1, 1, 2), (-42int), mono6(x1, y1, z1, x2, y2, z2, 0, 1, 1, 1, 0, 1));
    lemma_mono6_mul(x1, y1, z1, x2, y2, z2, 1, 1, 2, 1, 1, 2, 0, 1, 1, 1, 0, 1);
    lemma_coefficient_product(4410int, mono6(x1, y1, z1, x2, y2, z2, 1, 1, 2, 1, 1, 2), 1int, mono6(x1, y1, z1, x2, y2, z2, 0, 2, 0, 1, 1, 0));
    lemma_mono6_mul(x1, y1, z1, x2, y2, z2, 1, 1, 2, 1, 1, 2, 0, 2, 0, 1, 1, 0);
    lemma_coefficient_product(4410int, mono6(x1, y1, z1, x2, y2, z2, 1, 1, 2, 1, 1, 2), (-42int), mono6(x1, y1, z1, x2, y2, z2, 1, 0, 1, 0, 1, 1));
    lemma_mono6_mul(x1, y1, z1, x2, y2, z2, 1, 1, 2, 1, 1, 2, 1, 0, 1, 0, 1, 1);
    lemma_coefficient_product(4410int, mono6(x1, y1, z1, x2, y2, z2, 1, 1, 2, 1, 1, 2), (-21int), mono6(x1, y1, z1, x2, y2, z2, 1, 1, 0, 0, 0, 2));
    lemma_mono6_mul(x1, y1, z1, x2, y2, z2, 1, 1, 2, 1, 1, 2, 1, 1, 0, 0, 0, 2);
    lemma_coefficient_product(4410int, mono6(x1, y1, z1, x2, y2, z2, 1, 1, 2, 1, 1, 2), 1int, mono6(x1, y1, z1, x2, y2, z2, 1, 1, 0, 0, 2, 0));
    lemma_mono6_mul(x1, y1, z1, x2, y2, z2, 1, 1, 2, 1, 1, 2, 1, 1, 0, 0, 2, 0);
    lemma_mul_is_distributive_add(((-42int) * mono6(x1, y1, z1, x2, y2, z2, 1, 1, 2, 1, 3, 0)), (((-21int) * mono6(x1, y1, z1, x2, y2, z2, 0, 0, 2, 1, 1, 0)) + (((-42int) * mono6(x1, y1, z1, x2, y2, z2, 0, 1, 1, 1, 0, 1)) + (1int * mono6(x1, y1, z1, x2, y2, z2, 0, 2, 0, 1, 1, 0)))), (((-42int) * mono6(x1, y1, z1, x2, y2, z2, 1, 0, 1, 0, 1, 1)) + (((-21int) * mono6(x1, y1, z1, x2, y2, z2, 1, 1, 0, 0, 0, 2)) + (1int * mono6(x1, y1, z1, x2, y2, z2, 1, 1, 0, 0, 2, 0)))));
    lemma_mul_is_distributive_add(((-42int) * mono6(x1, y1, z1, x2, y2, z2, 1, 1, 2, 1, 3, 0)), ((-21int) * mono6(x1, y1, z1, x2, y2, z2, 0, 0, 2, 1, 1, 0)), (((-42int) * mono6(x1, y1, z1, x2, y2, z2, 0, 1, 1, 1, 0, 1)) + (1int * mono6(x1, y1, z1, x2, y2, z2, 0, 2, 0, 1, 1, 0))));
    lemma_mul_is_distributive_add(((-42int) * mono6(x1, y1, z1, x2, y2, z2, 1, 1, 2, 1, 3, 0)), ((-42int) * mono6(x1, y1, z1, x2, y2, z2, 0, 1, 1, 1, 0, 1)), (1int * mono6(x1, y1, z1, x2, y2, z2, 0, 2, 0, 1, 1, 0)));
    lemma_mul_is_distributive_add(((-42int) * mono6(x1, y1, z1, x2, y2, z2, 1, 1, 2, 1, 3, 0)), ((-42int) * mono6(x1, y1, z1, x2, y2, z2, 1, 0, 1, 0, 1, 1)), (((-21int) * mono6(x1, y1, z1, x2, y2, z2, 1, 1, 0, 0, 0, 2)) + (1int * mono6(x1, y1, z1, x2, y2, z2, 1, 1, 0, 0, 2, 0))));
    lemma_mul_is_distributive_add(((-42int) * mono6(x1, y1, z1, x2, y2, z2, 1, 1, 2, 1, 3, 0)), ((-21int) * mono6(x1, y1, z1, x2, y2, z2, 1, 1, 0, 0, 0, 2)), (1int * mono6(x1, y1, z1, x2, y2, z2, 1, 1, 0, 0, 2, 0)));
    lemma_coefficient_product((-42int), mono6(x1, y1, z1, x2, y2, z2, 1, 1, 2, 1, 3, 0), (-21int), mono6(x1, y1, z1, x2, y2, z2, 0, 0, 2, 1, 1, 0));
    lemma_mono6_mul(x1, y1, z1, x2, y2, z2, 1, 1, 2, 1, 3, 0, 0, 0, 2, 1, 1, 0);
    lemma_coefficient_product((-42int), mono6(x1, y1, z1, x2, y2, z2, 1, 1, 2, 1, 3, 0), (-42int), mono6(x1, y1, z1, x2, y2, z2, 0, 1, 1, 1, 0, 1));
    lemma_mono6_mul(x1, y1, z1, x2, y2, z2, 1, 1, 2, 1, 3, 0, 0, 1, 1, 1, 0, 1);
    lemma_coefficient_product((-42int), mono6(x1, y1, z1, x2, y2, z2, 1, 1, 2, 1, 3, 0), 1int, mono6(x1, y1, z1, x2, y2, z2, 0, 2, 0, 1, 1, 0));
    lemma_mono6_mul(x1, y1, z1, x2, y2, z2, 1, 1, 2, 1, 3, 0, 0, 2, 0, 1, 1, 0);
    lemma_coefficient_product((-42int), mono6(x1, y1, z1, x2, y2, z2, 1, 1, 2, 1, 3, 0), (-42int), mono6(x1, y1, z1, x2, y2, z2, 1, 0, 1, 0, 1, 1));
    lemma_mono6_mul(x1, y1, z1, x2, y2, z2, 1, 1, 2, 1, 3, 0, 1, 0, 1, 0, 1, 1);
    lemma_coefficient_product((-42int), mono6(x1, y1, z1, x2, y2, z2, 1, 1, 2, 1, 3, 0), (-21int), mono6(x1, y1, z1, x2, y2, z2, 1, 1, 0, 0, 0, 2));
    lemma_mono6_mul(x1, y1, z1, x2, y2, z2, 1, 1, 2, 1, 3, 0, 1, 1, 0, 0, 0, 2);
    lemma_coefficient_product((-42int), mono6(x1, y1, z1, x2, y2, z2, 1, 1, 2, 1, 3, 0), 1int, mono6(x1, y1, z1, x2, y2, z2, 1, 1, 0, 0, 2, 0));
    lemma_mono6_mul(x1, y1, z1, x2, y2, z2, 1, 1, 2, 1, 3, 0, 1, 1, 0, 0, 2, 0);
    lemma_mul_is_distributive_add((1764int * mono6(x1, y1, z1, x2, y2, z2, 1, 2, 1, 1, 0, 3)), (((-21int) * mono6(x1, y1, z1, x2, y2, z2, 0, 0, 2, 1, 1, 0)) + (((-42int) * mono6(x1, y1, z1, x2, y2, z2, 0, 1, 1, 1, 0, 1)) + (1int * mono6(x1, y1, z1, x2, y2, z2, 0, 2, 0, 1, 1, 0)))), (((-42int) * mono6(x1, y1, z1, x2, y2, z2, 1, 0, 1, 0, 1, 1)) + (((-21int) * mono6(x1, y1, z1, x2, y2, z2, 1, 1, 0, 0, 0, 2)) + (1int * mono6(x1, y1, z1, x2, y2, z2, 1, 1, 0, 0, 2, 0)))));
    lemma_mul_is_distributive_add((1764int * mono6(x1, y1, z1, x2, y2, z2, 1, 2, 1, 1, 0, 3)), ((-21int) * mono6(x1, y1, z1, x2, y2, z2, 0, 0, 2, 1, 1, 0)), (((-42int) * mono6(x1, y1, z1, x2, y2, z2, 0, 1, 1, 1, 0, 1)) + (1int * mono6(x1, y1, z1, x2, y2, z2, 0, 2, 0, 1, 1, 0))));
    lemma_mul_is_distributive_add((1764int * mono6(x1, y1, z1, x2, y2, z2, 1, 2, 1, 1, 0, 3)), ((-42int) * mono6(x1, y1, z1, x2, y2, z2, 0, 1, 1, 1, 0, 1)), (1int * mono6(x1, y1, z1, x2, y2, z2, 0, 2, 0, 1, 1, 0)));
    lemma_mul_is_distributive_add((1764int * mono6(x1, y1, z1, x2, y2, z2, 1, 2, 1, 1, 0, 3)), ((-42int) * mono6(x1, y1, z1, x2, y2, z2, 1, 0, 1, 0, 1, 1)), (((-21int) * mono6(x1, y1, z1, x2, y2, z2, 1, 1, 0, 0, 0, 2)) + (1int * mono6(x1, y1, z1, x2, y2, z2, 1, 1, 0, 0, 2, 0))));
    lemma_mul_is_distributive_add((1764int * mono6(x1, y1, z1, x2, y2, z2, 1, 2, 1, 1, 0, 3)), ((-21int) * mono6(x1, y1, z1, x2, y2, z2, 1, 1, 0, 0, 0, 2)), (1int * mono6(x1, y1, z1, x2, y2, z2, 1, 1, 0, 0, 2, 0)));
    lemma_coefficient_product(1764int, mono6(x1, y1, z1, x2, y2, z2, 1, 2, 1, 1, 0, 3), (-21int), mono6(x1, y1, z1, x2, y2, z2, 0, 0, 2, 1, 1, 0));
    lemma_mono6_mul(x1, y1, z1, x2, y2, z2, 1, 2, 1, 1, 0, 3, 0, 0, 2, 1, 1, 0);
    lemma_coefficient_product(1764int, mono6(x1, y1, z1, x2, y2, z2, 1, 2, 1, 1, 0, 3), (-42int), mono6(x1, y1, z1, x2, y2, z2, 0, 1, 1, 1, 0, 1));
    lemma_mono6_mul(x1, y1, z1, x2, y2, z2, 1, 2, 1, 1, 0, 3, 0, 1, 1, 1, 0, 1);
    lemma_coefficient_product(1764int, mono6(x1, y1, z1, x2, y2, z2, 1, 2, 1, 1, 0, 3), 1int, mono6(x1, y1, z1, x2, y2, z2, 0, 2, 0, 1, 1, 0));
    lemma_mono6_mul(x1, y1, z1, x2, y2, z2, 1, 2, 1, 1, 0, 3, 0, 2, 0, 1, 1, 0);
    lemma_coefficient_product(1764int, mono6(x1, y1, z1, x2, y2, z2, 1, 2, 1, 1, 0, 3), (-42int), mono6(x1, y1, z1, x2, y2, z2, 1, 0, 1, 0, 1, 1));
    lemma_mono6_mul(x1, y1, z1, x2, y2, z2, 1, 2, 1, 1, 0, 3, 1, 0, 1, 0, 1, 1);
    lemma_coefficient_product(1764int, mono6(x1, y1, z1, x2, y2, z2, 1, 2, 1, 1, 0, 3), (-21int), mono6(x1, y1, z1, x2, y2, z2, 1, 1, 0, 0, 0, 2));
    lemma_mono6_mul(x1, y1, z1, x2, y2, z2, 1, 2, 1, 1, 0, 3, 1, 1, 0, 0, 0, 2);
    lemma_coefficient_product(1764int, mono6(x1, y1, z1, x2, y2, z2, 1, 2, 1, 1, 0, 3), 1int, mono6(x1, y1, z1, x2, y2, z2, 1, 1, 0, 0, 2, 0));
    lemma_mono6_mul(x1, y1, z1, x2, y2, z2, 1, 2, 1, 1, 0, 3, 1, 1, 0, 0, 2, 0);
    lemma_mul_is_distributive_add(((-168int) * mono6(x1, y1, z1, x2, y2, z2, 1, 2, 1, 1, 2, 1)), (((-21int) * mono6(x1, y1, z1, x2, y2, z2, 0, 0, 2, 1, 1, 0)) + (((-42int) * mono6(x1, y1, z1, x2, y2, z2, 0, 1, 1, 1, 0, 1)) + (1int * mono6(x1, y1, z1, x2, y2, z2, 0, 2, 0, 1, 1, 0)))), (((-42int) * mono6(x1, y1, z1, x2, y2, z2, 1, 0, 1, 0, 1, 1)) + (((-21int) * mono6(x1, y1, z1, x2, y2, z2, 1, 1, 0, 0, 0, 2)) + (1int * mono6(x1, y1, z1, x2, y2, z2, 1, 1, 0, 0, 2, 0)))));
    lemma_mul_is_distributive_add(((-168int) * mono6(x1, y1, z1, x2, y2, z2, 1, 2, 1, 1, 2, 1)), ((-21int) * mono6(x1, y1, z1, x2, y2, z2, 0, 0, 2, 1, 1, 0)), (((-42int) * mono6(x1, y1, z1, x2, y2, z2, 0, 1, 1, 1, 0, 1)) + (1int * mono6(x1, y1, z1, x2, y2, z2, 0, 2, 0, 1, 1, 0))));
    lemma_mul_is_distributive_add(((-168int) * mono6(x1, y1, z1, x2, y2, z2, 1, 2, 1, 1, 2, 1)), ((-42int) * mono6(x1, y1, z1, x2, y2, z2, 0, 1, 1, 1, 0, 1)), (1int * mono6(x1, y1, z1, x2, y2, z2, 0, 2, 0, 1, 1, 0)));
    lemma_mul_is_distributive_add(((-168int) * mono6(x1, y1, z1, x2, y2, z2, 1, 2, 1, 1, 2, 1)), ((-42int) * mono6(x1, y1, z1, x2, y2, z2, 1, 0, 1, 0, 1, 1)), (((-21int) * mono6(x1, y1, z1, x2, y2, z2, 1, 1, 0, 0, 0, 2)) + (1int * mono6(x1, y1, z1, x2, y2, z2, 1, 1, 0, 0, 2, 0))));
    lemma_mul_is_distributive_add(((-168int) * mono6(x1, y1, z1, x2, y2, z2, 1, 2, 1, 1, 2, 1)), ((-21int) * mono6(x1, y1, z1, x2, y2, z2, 1, 1, 0, 0, 0, 2)), (1int * mono6(x1, y1, z1, x2, y2, z2, 1, 1, 0, 0, 2, 0)));
    lemma_coefficient_product((-168int), mono6(x1, y1, z1, x2, y2, z2, 1, 2, 1, 1, 2, 1), (-21int), mono6(x1, y1, z1, x2, y2, z2, 0, 0, 2, 1, 1, 0));
    lemma_mono6_mul(x1, y1, z1, x2, y2, z2, 1, 2, 1, 1, 2, 1, 0, 0, 2, 1, 1, 0);
    lemma_coefficient_product((-168int), mono6(x1, y1, z1, x2, y2, z2, 1, 2, 1, 1, 2, 1), (-42int), mono6(x1, y1, z1, x2, y2, z2, 0, 1, 1, 1, 0, 1));
    lemma_mono6_mul(x1, y1, z1, x2, y2, z2, 1, 2, 1, 1, 2, 1, 0, 1, 1, 1, 0, 1);
    lemma_coefficient_product((-168int), mono6(x1, y1, z1, x2, y2, z2, 1, 2, 1, 1, 2, 1), 1int, mono6(x1, y1, z1, x2, y2, z2, 0, 2, 0, 1, 1, 0));
    lemma_mono6_mul(x1, y1, z1, x2, y2, z2, 1, 2, 1, 1, 2, 1, 0, 2, 0, 1, 1, 0);
    lemma_coefficient_product((-168int), mono6(x1, y1, z1, x2, y2, z2, 1, 2, 1, 1, 2, 1), (-42int), mono6(x1, y1, z1, x2, y2, z2, 1, 0, 1, 0, 1, 1));
    lemma_mono6_mul(x1, y1, z1, x2, y2, z2, 1, 2, 1, 1, 2, 1, 1, 0, 1, 0, 1, 1);
    lemma_coefficient_product((-168int), mono6(x1, y1, z1, x2, y2, z2, 1, 2, 1, 1, 2, 1), (-21int), mono6(x1, y1, z1, x2, y2, z2, 1, 1, 0, 0, 0, 2));
    lemma_mono6_mul(x1, y1, z1, x2, y2, z2, 1, 2, 1, 1, 2, 1, 1, 1, 0, 0, 0, 2);
    lemma_coefficient_product((-168int), mono6(x1, y1, z1, x2, y2, z2, 1, 2, 1, 1, 2, 1), 1int, mono6(x1, y1, z1, x2, y2, z2, 1, 1, 0, 0, 2, 0));
    lemma_mono6_mul(x1, y1, z1, x2, y2, z2, 1, 2, 1, 1, 2, 1, 1, 1, 0, 0, 2, 0);
    lemma_mul_is_distributive_add(((-42int) * mono6(x1, y1, z1, x2, y2, z2, 1, 3, 0, 1, 1, 2)), (((-21int) * mono6(x1, y1, z1, x2, y2, z2, 0, 0, 2, 1, 1, 0)) + (((-42int) * mono6(x1, y1, z1, x2, y2, z2, 0, 1, 1, 1, 0, 1)) + (1int * mono6(x1, y1, z1, x2, y2, z2, 0, 2, 0, 1, 1, 0)))), (((-42int) * mono6(x1, y1, z1, x2, y2, z2, 1, 0, 1, 0, 1, 1)) + (((-21int) * mono6(x1, y1, z1, x2, y2, z2, 1, 1, 0, 0, 0, 2)) + (1int * mono6(x1, y1, z1, x2, y2, z2, 1, 1, 0, 0, 2, 0)))));
    lemma_mul_is_distributive_add(((-42int) * mono6(x1, y1, z1, x2, y2, z2, 1, 3, 0, 1, 1, 2)), ((-21int) * mono6(x1, y1, z1, x2, y2, z2, 0, 0, 2, 1, 1, 0)), (((-42int) * mono6(x1, y1, z1, x2, y2, z2, 0, 1, 1, 1, 0, 1)) + (1int * mono6(x1, y1, z1, x2, y2, z2, 0, 2, 0, 1, 1, 0))));
    lemma_mul_is_distributive_add(((-42int) * mono6(x1, y1, z1, x2, y2, z2, 1, 3, 0, 1, 1, 2)), ((-42int) * mono6(x1, y1, z1, x2, y2, z2, 0, 1, 1, 1, 0, 1)), (1int * mono6(x1, y1, z1, x2, y2, z2, 0, 2, 0, 1, 1, 0)));
    lemma_mul_is_distributive_add(((-42int) * mono6(x1, y1, z1, x2, y2, z2, 1, 3, 0, 1, 1, 2)), ((-42int) * mono6(x1, y1, z1, x2, y2, z2, 1, 0, 1, 0, 1, 1)), (((-21int) * mono6(x1, y1, z1, x2, y2, z2, 1, 1, 0, 0, 0, 2)) + (1int * mono6(x1, y1, z1, x2, y2, z2, 1, 1, 0, 0, 2, 0))));
    lemma_mul_is_distributive_add(((-42int) * mono6(x1, y1, z1, x2, y2, z2, 1, 3, 0, 1, 1, 2)), ((-21int) * mono6(x1, y1, z1, x2, y2, z2, 1, 1, 0, 0, 0, 2)), (1int * mono6(x1, y1, z1, x2, y2, z2, 1, 1, 0, 0, 2, 0)));
    lemma_coefficient_product((-42int), mono6(x1, y1, z1, x2, y2, z2, 1, 3, 0, 1, 1, 2), (-21int), mono6(x1, y1, z1, x2, y2, z2, 0, 0, 2, 1, 1, 0));
    lemma_mono6_mul(x1, y1, z1, x2, y2, z2, 1, 3, 0, 1, 1, 2, 0, 0, 2, 1, 1, 0);
    lemma_coefficient_product((-42int), mono6(x1, y1, z1, x2, y2, z2, 1, 3, 0, 1, 1, 2), (-42int), mono6(x1, y1, z1, x2, y2, z2, 0, 1, 1, 1, 0, 1));
    lemma_mono6_mul(x1, y1, z1, x2, y2, z2, 1, 3, 0, 1, 1, 2, 0, 1, 1, 1, 0, 1);
    lemma_coefficient_product((-42int), mono6(x1, y1, z1, x2, y2, z2, 1, 3, 0, 1, 1, 2), 1int, mono6(x1, y1, z1, x2, y2, z2, 0, 2, 0, 1, 1, 0));
    lemma_mono6_mul(x1, y1, z1, x2, y2, z2, 1, 3, 0, 1, 1, 2, 0, 2, 0, 1, 1, 0);
    lemma_coefficient_product((-42int), mono6(x1, y1, z1, x2, y2, z2, 1, 3, 0, 1, 1, 2), (-42int), mono6(x1, y1, z1, x2, y2, z2, 1, 0, 1, 0, 1, 1));
    lemma_mono6_mul(x1, y1, z1, x2, y2, z2, 1, 3, 0, 1, 1, 2, 1, 0, 1, 0, 1, 1);
    lemma_coefficient_product((-42int), mono6(x1, y1, z1, x2, y2, z2, 1, 3, 0, 1, 1, 2), (-21int), mono6(x1, y1, z1, x2, y2, z2, 1, 1, 0, 0, 0, 2));
    lemma_mono6_mul(x1, y1, z1, x2, y2, z2, 1, 3, 0, 1, 1, 2, 1, 1, 0, 0, 0, 2);
    lemma_coefficient_product((-42int), mono6(x1, y1, z1, x2, y2, z2, 1, 3, 0, 1, 1, 2), 1int, mono6(x1, y1, z1, x2, y2, z2, 1, 1, 0, 0, 2, 0));
    lemma_mono6_mul(x1, y1, z1, x2, y2, z2, 1, 3, 0, 1, 1, 2, 1, 1, 0, 0, 2, 0);
    lemma_mul_is_distributive_add((2int * mono6(x1, y1, z1, x2, y2, z2, 1, 3, 0, 1, 3, 0)), (((-21int) * mono6(x1, y1, z1, x2, y2, z2, 0, 0, 2, 1, 1, 0)) + (((-42int) * mono6(x1, y1, z1, x2, y2, z2, 0, 1, 1, 1, 0, 1)) + (1int * mono6(x1, y1, z1, x2, y2, z2, 0, 2, 0, 1, 1, 0)))), (((-42int) * mono6(x1, y1, z1, x2, y2, z2, 1, 0, 1, 0, 1, 1)) + (((-21int) * mono6(x1, y1, z1, x2, y2, z2, 1, 1, 0, 0, 0, 2)) + (1int * mono6(x1, y1, z1, x2, y2, z2, 1, 1, 0, 0, 2, 0)))));
    lemma_mul_is_distributive_add((2int * mono6(x1, y1, z1, x2, y2, z2, 1, 3, 0, 1, 3, 0)), ((-21int) * mono6(x1, y1, z1, x2, y2, z2, 0, 0, 2, 1, 1, 0)), (((-42int) * mono6(x1, y1, z1, x2, y2, z2, 0, 1, 1, 1, 0, 1)) + (1int * mono6(x1, y1, z1, x2, y2, z2, 0, 2, 0, 1, 1, 0))));
    lemma_mul_is_distributive_add((2int * mono6(x1, y1, z1, x2, y2, z2, 1, 3, 0, 1, 3, 0)), ((-42int) * mono6(x1, y1, z1, x2, y2, z2, 0, 1, 1, 1, 0, 1)), (1int * mono6(x1, y1, z1, x2, y2, z2, 0, 2, 0, 1, 1, 0)));
    lemma_mul_is_distributive_add((2int * mono6(x1, y1, z1, x2, y2, z2, 1, 3, 0, 1, 3, 0)), ((-42int) * mono6(x1, y1, z1, x2, y2, z2, 1, 0, 1, 0, 1, 1)), (((-21int) * mono6(x1, y1, z1, x2, y2, z2, 1, 1, 0, 0, 0, 2)) + (1int * mono6(x1, y1, z1, x2, y2, z2, 1, 1, 0, 0, 2, 0))));
    lemma_mul_is_distributive_add((2int * mono6(x1, y1, z1, x2, y2, z2, 1, 3, 0, 1, 3, 0)), ((-21int) * mono6(x1, y1, z1, x2, y2, z2, 1, 1, 0, 0, 0, 2)), (1int * mono6(x1, y1, z1, x2, y2, z2, 1, 1, 0, 0, 2, 0)));
    lemma_coefficient_product(2int, mono6(x1, y1, z1, x2, y2, z2, 1, 3, 0, 1, 3, 0), (-21int), mono6(x1, y1, z1, x2, y2, z2, 0, 0, 2, 1, 1, 0));
    lemma_mono6_mul(x1, y1, z1, x2, y2, z2, 1, 3, 0, 1, 3, 0, 0, 0, 2, 1, 1, 0);
    lemma_coefficient_product(2int, mono6(x1, y1, z1, x2, y2, z2, 1, 3, 0, 1, 3, 0), (-42int), mono6(x1, y1, z1, x2, y2, z2, 0, 1, 1, 1, 0, 1));
    lemma_mono6_mul(x1, y1, z1, x2, y2, z2, 1, 3, 0, 1, 3, 0, 0, 1, 1, 1, 0, 1);
    lemma_coefficient_product(2int, mono6(x1, y1, z1, x2, y2, z2, 1, 3, 0, 1, 3, 0), 1int, mono6(x1, y1, z1, x2, y2, z2, 0, 2, 0, 1, 1, 0));
    lemma_mono6_mul(x1, y1, z1, x2, y2, z2, 1, 3, 0, 1, 3, 0, 0, 2, 0, 1, 1, 0);
    lemma_coefficient_product(2int, mono6(x1, y1, z1, x2, y2, z2, 1, 3, 0, 1, 3, 0), (-42int), mono6(x1, y1, z1, x2, y2, z2, 1, 0, 1, 0, 1, 1));
    lemma_mono6_mul(x1, y1, z1, x2, y2, z2, 1, 3, 0, 1, 3, 0, 1, 0, 1, 0, 1, 1);
    lemma_coefficient_product(2int, mono6(x1, y1, z1, x2, y2, z2, 1, 3, 0, 1, 3, 0), (-21int), mono6(x1, y1, z1, x2, y2, z2, 1, 1, 0, 0, 0, 2));
    lemma_mono6_mul(x1, y1, z1, x2, y2, z2, 1, 3, 0, 1, 3, 0, 1, 1, 0, 0, 0, 2);
    lemma_coefficient_product(2int, mono6(x1, y1, z1, x2, y2, z2, 1, 3, 0, 1, 3, 0), 1int, mono6(x1, y1, z1, x2, y2, z2, 1, 1, 0, 0, 2, 0));
    lemma_mono6_mul(x1, y1, z1, x2, y2, z2, 1, 3, 0, 1, 3, 0, 1, 1, 0, 0, 2, 0);
    lemma_mul_is_distributive_add((1764int * mono6(x1, y1, z1, x2, y2, z2, 2, 0, 2, 0, 2, 2)), (((-21int) * mono6(x1, y1, z1, x2, y2, z2, 0, 0, 2, 1, 1, 0)) + (((-42int) * mono6(x1, y1, z1, x2, y2, z2, 0, 1, 1, 1, 0, 1)) + (1int * mono6(x1, y1, z1, x2, y2, z2, 0, 2, 0, 1, 1, 0)))), (((-42int) * mono6(x1, y1, z1, x2, y2, z2, 1, 0, 1, 0, 1, 1)) + (((-21int) * mono6(x1, y1, z1, x2, y2, z2, 1, 1, 0, 0, 0, 2)) + (1int * mono6(x1, y1, z1, x2, y2, z2, 1, 1, 0, 0, 2, 0)))));
    lemma_mul_is_distributive_add((1764int * mono6(x1, y1, z1, x2, y2, z2, 2, 0, 2, 0, 2, 2)), ((-21int) * mono6(x1, y1, z1, x2, y2, z2, 0, 0, 2, 1, 1, 0)), (((-42int) * mono6(x1, y1, z1, x2, y2, z2, 0, 1, 1, 1, 0, 1)) + (1int * mono6(x1, y1, z1, x2, y2, z2, 0, 2, 0, 1, 1, 0))));
    lemma_mul_is_distributive_add((1764int * mono6(x1, y1, z1, x2, y2, z2, 2, 0, 2, 0, 2, 2)), ((-42int) * mono6(x1, y1, z1, x2, y2, z2, 0, 1, 1, 1, 0, 1)), (1int * mono6(x1, y1, z1, x2, y2, z2, 0, 2, 0, 1, 1, 0)));
    lemma_mul_is_distributive_add((1764int * mono6(x1, y1, z1, x2, y2, z2, 2, 0, 2, 0, 2, 2)), ((-42int) * mono6(x1, y1, z1, x2, y2, z2, 1, 0, 1, 0, 1, 1)), (((-21int) * mono6(x1, y1, z1, x2, y2, z2, 1, 1, 0, 0, 0, 2)) + (1int * mono6(x1, y1, z1, x2, y2, z2, 1, 1, 0, 0, 2, 0))));
    lemma_mul_is_distributive_add((1764int * mono6(x1, y1, z1, x2, y2, z2, 2, 0, 2, 0, 2, 2)), ((-21int) * mono6(x1, y1, z1, x2, y2, z2, 1, 1, 0, 0, 0, 2)), (1int * mono6(x1, y1, z1, x2, y2, z2, 1, 1, 0, 0, 2, 0)));
    lemma_coefficient_product(1764int, mono6(x1, y1, z1, x2, y2, z2, 2, 0, 2, 0, 2, 2), (-21int), mono6(x1, y1, z1, x2, y2, z2, 0, 0, 2, 1, 1, 0));
    lemma_mono6_mul(x1, y1, z1, x2, y2, z2, 2, 0, 2, 0, 2, 2, 0, 0, 2, 1, 1, 0);
    lemma_coefficient_product(1764int, mono6(x1, y1, z1, x2, y2, z2, 2, 0, 2, 0, 2, 2), (-42int), mono6(x1, y1, z1, x2, y2, z2, 0, 1, 1, 1, 0, 1));
    lemma_mono6_mul(x1, y1, z1, x2, y2, z2, 2, 0, 2, 0, 2, 2, 0, 1, 1, 1, 0, 1);
    lemma_coefficient_product(1764int, mono6(x1, y1, z1, x2, y2, z2, 2, 0, 2, 0, 2, 2), 1int, mono6(x1, y1, z1, x2, y2, z2, 0, 2, 0, 1, 1, 0));
    lemma_mono6_mul(x1, y1, z1, x2, y2, z2, 2, 0, 2, 0, 2, 2, 0, 2, 0, 1, 1, 0);
    lemma_coefficient_product(1764int, mono6(x1, y1, z1, x2, y2, z2, 2, 0, 2, 0, 2, 2), (-42int), mono6(x1, y1, z1, x2, y2, z2, 1, 0, 1, 0, 1, 1));
    lemma_mono6_mul(x1, y1, z1, x2, y2, z2, 2, 0, 2, 0, 2, 2, 1, 0, 1, 0, 1, 1);
    lemma_coefficient_product(1764int, mono6(x1, y1, z1, x2, y2, z2, 2, 0, 2, 0, 2, 2), (-21int), mono6(x1, y1, z1, x2, y2, z2, 1, 1, 0, 0, 0, 2));
    lemma_mono6_mul(x1, y1, z1, x2, y2, z2, 2, 0, 2, 0, 2, 2, 1, 1, 0, 0, 0, 2);
    lemma_coefficient_product(1764int, mono6(x1, y1, z1, x2, y2, z2, 2, 0, 2, 0, 2, 2), 1int, mono6(x1, y1, z1, x2, y2, z2, 1, 1, 0, 0, 2, 0));
    lemma_mono6_mul(x1, y1, z1, x2, y2, z2, 2, 0, 2, 0, 2, 2, 1, 1, 0, 0, 2, 0);
    lemma_mul_is_distributive_add((1764int * mono6(x1, y1, z1, x2, y2, z2, 2, 1, 1, 0, 1, 3)), (((-21int) * mono6(x1, y1, z1, x2, y2, z2, 0, 0, 2, 1, 1, 0)) + (((-42int) * mono6(x1, y1, z1, x2, y2, z2, 0, 1, 1, 1, 0, 1)) + (1int * mono6(x1, y1, z1, x2, y2, z2, 0, 2, 0, 1, 1, 0)))), (((-42int) * mono6(x1, y1, z1, x2, y2, z2, 1, 0, 1, 0, 1, 1)) + (((-21int) * mono6(x1, y1, z1, x2, y2, z2, 1, 1, 0, 0, 0, 2)) + (1int * mono6(x1, y1, z1, x2, y2, z2, 1, 1, 0, 0, 2, 0)))));
    lemma_mul_is_distributive_add((1764int * mono6(x1, y1, z1, x2, y2, z2, 2, 1, 1, 0, 1, 3)), ((-21int) * mono6(x1, y1, z1, x2, y2, z2, 0, 0, 2, 1, 1, 0)), (((-42int) * mono6(x1, y1, z1, x2, y2, z2, 0, 1, 1, 1, 0, 1)) + (1int * mono6(x1, y1, z1, x2, y2, z2, 0, 2, 0, 1, 1, 0))));
    lemma_mul_is_distributive_add((1764int * mono6(x1, y1, z1, x2, y2, z2, 2, 1, 1, 0, 1, 3)), ((-42int) * mono6(x1, y1, z1, x2, y2, z2, 0, 1, 1, 1, 0, 1)), (1int * mono6(x1, y1, z1, x2, y2, z2, 0, 2, 0, 1, 1, 0)));
    lemma_mul_is_distributive_add((1764int * mono6(x1, y1, z1, x2, y2, z2, 2, 1, 1, 0, 1, 3)), ((-42int) * mono6(x1, y1, z1, x2, y2, z2, 1, 0, 1, 0, 1, 1)), (((-21int) * mono6(x1, y1, z1, x2, y2, z2, 1, 1, 0, 0, 0, 2)) + (1int * mono6(x1, y1, z1, x2, y2, z2, 1, 1, 0, 0, 2, 0))));
    lemma_mul_is_distributive_add((1764int * mono6(x1, y1, z1, x2, y2, z2, 2, 1, 1, 0, 1, 3)), ((-21int) * mono6(x1, y1, z1, x2, y2, z2, 1, 1, 0, 0, 0, 2)), (1int * mono6(x1, y1, z1, x2, y2, z2, 1, 1, 0, 0, 2, 0)));
    lemma_coefficient_product(1764int, mono6(x1, y1, z1, x2, y2, z2, 2, 1, 1, 0, 1, 3), (-21int), mono6(x1, y1, z1, x2, y2, z2, 0, 0, 2, 1, 1, 0));
    lemma_mono6_mul(x1, y1, z1, x2, y2, z2, 2, 1, 1, 0, 1, 3, 0, 0, 2, 1, 1, 0);
    lemma_coefficient_product(1764int, mono6(x1, y1, z1, x2, y2, z2, 2, 1, 1, 0, 1, 3), (-42int), mono6(x1, y1, z1, x2, y2, z2, 0, 1, 1, 1, 0, 1));
    lemma_mono6_mul(x1, y1, z1, x2, y2, z2, 2, 1, 1, 0, 1, 3, 0, 1, 1, 1, 0, 1);
    lemma_coefficient_product(1764int, mono6(x1, y1, z1, x2, y2, z2, 2, 1, 1, 0, 1, 3), 1int, mono6(x1, y1, z1, x2, y2, z2, 0, 2, 0, 1, 1, 0));
    lemma_mono6_mul(x1, y1, z1, x2, y2, z2, 2, 1, 1, 0, 1, 3, 0, 2, 0, 1, 1, 0);
    lemma_coefficient_product(1764int, mono6(x1, y1, z1, x2, y2, z2, 2, 1, 1, 0, 1, 3), (-42int), mono6(x1, y1, z1, x2, y2, z2, 1, 0, 1, 0, 1, 1));
    lemma_mono6_mul(x1, y1, z1, x2, y2, z2, 2, 1, 1, 0, 1, 3, 1, 0, 1, 0, 1, 1);
    lemma_coefficient_product(1764int, mono6(x1, y1, z1, x2, y2, z2, 2, 1, 1, 0, 1, 3), (-21int), mono6(x1, y1, z1, x2, y2, z2, 1, 1, 0, 0, 0, 2));
    lemma_mono6_mul(x1, y1, z1, x2, y2, z2, 2, 1, 1, 0, 1, 3, 1, 1, 0, 0, 0, 2);
    lemma_coefficient_product(1764int, mono6(x1, y1, z1, x2, y2, z2, 2, 1, 1, 0, 1, 3), 1int, mono6(x1, y1, z1, x2, y2, z2, 1, 1, 0, 0, 2, 0));
    lemma_mono6_mul(x1, y1, z1, x2, y2, z2, 2, 1, 1, 0, 1, 3, 1, 1, 0, 0, 2, 0);
    lemma_mul_is_distributive_add(((-84int) * mono6(x1, y1, z1, x2, y2, z2, 2, 1, 1, 0, 3, 1)), (((-21int) * mono6(x1, y1, z1, x2, y2, z2, 0, 0, 2, 1, 1, 0)) + (((-42int) * mono6(x1, y1, z1, x2, y2, z2, 0, 1, 1, 1, 0, 1)) + (1int * mono6(x1, y1, z1, x2, y2, z2, 0, 2, 0, 1, 1, 0)))), (((-42int) * mono6(x1, y1, z1, x2, y2, z2, 1, 0, 1, 0, 1, 1)) + (((-21int) * mono6(x1, y1, z1, x2, y2, z2, 1, 1, 0, 0, 0, 2)) + (1int * mono6(x1, y1, z1, x2, y2, z2, 1, 1, 0, 0, 2, 0)))));
    lemma_mul_is_distributive_add(((-84int) * mono6(x1, y1, z1, x2, y2, z2, 2, 1, 1, 0, 3, 1)), ((-21int) * mono6(x1, y1, z1, x2, y2, z2, 0, 0, 2, 1, 1, 0)), (((-42int) * mono6(x1, y1, z1, x2, y2, z2, 0, 1, 1, 1, 0, 1)) + (1int * mono6(x1, y1, z1, x2, y2, z2, 0, 2, 0, 1, 1, 0))));
    lemma_mul_is_distributive_add(((-84int) * mono6(x1, y1, z1, x2, y2, z2, 2, 1, 1, 0, 3, 1)), ((-42int) * mono6(x1, y1, z1, x2, y2, z2, 0, 1, 1, 1, 0, 1)), (1int * mono6(x1, y1, z1, x2, y2, z2, 0, 2, 0, 1, 1, 0)));
    lemma_mul_is_distributive_add(((-84int) * mono6(x1, y1, z1, x2, y2, z2, 2, 1, 1, 0, 3, 1)), ((-42int) * mono6(x1, y1, z1, x2, y2, z2, 1, 0, 1, 0, 1, 1)), (((-21int) * mono6(x1, y1, z1, x2, y2, z2, 1, 1, 0, 0, 0, 2)) + (1int * mono6(x1, y1, z1, x2, y2, z2, 1, 1, 0, 0, 2, 0))));
    lemma_mul_is_distributive_add(((-84int) * mono6(x1, y1, z1, x2, y2, z2, 2, 1, 1, 0, 3, 1)), ((-21int) * mono6(x1, y1, z1, x2, y2, z2, 1, 1, 0, 0, 0, 2)), (1int * mono6(x1, y1, z1, x2, y2, z2, 1, 1, 0, 0, 2, 0)));
    lemma_coefficient_product((-84int), mono6(x1, y1, z1, x2, y2, z2, 2, 1, 1, 0, 3, 1), (-21int), mono6(x1, y1, z1, x2, y2, z2, 0, 0, 2, 1, 1, 0));
    lemma_mono6_mul(x1, y1, z1, x2, y2, z2, 2, 1, 1, 0, 3, 1, 0, 0, 2, 1, 1, 0);
    lemma_coefficient_product((-84int), mono6(x1, y1, z1, x2, y2, z2, 2, 1, 1, 0, 3, 1), (-42int), mono6(x1, y1, z1, x2, y2, z2, 0, 1, 1, 1, 0, 1));
    lemma_mono6_mul(x1, y1, z1, x2, y2, z2, 2, 1, 1, 0, 3, 1, 0, 1, 1, 1, 0, 1);
    lemma_coefficient_product((-84int), mono6(x1, y1, z1, x2, y2, z2, 2, 1, 1, 0, 3, 1), 1int, mono6(x1, y1, z1, x2, y2, z2, 0, 2, 0, 1, 1, 0));
    lemma_mono6_mul(x1, y1, z1, x2, y2, z2, 2, 1, 1, 0, 3, 1, 0, 2, 0, 1, 1, 0);
    lemma_coefficient_product((-84int), mono6(x1, y1, z1, x2, y2, z2, 2, 1, 1, 0, 3, 1), (-42int), mono6(x1, y1, z1, x2, y2, z2, 1, 0, 1, 0, 1, 1));
    lemma_mono6_mul(x1, y1, z1, x2, y2, z2, 2, 1, 1, 0, 3, 1, 1, 0, 1, 0, 1, 1);
    lemma_coefficient_product((-84int), mono6(x1, y1, z1, x2, y2, z2, 2, 1, 1, 0, 3, 1), (-21int), mono6(x1, y1, z1, x2, y2, z2, 1, 1, 0, 0, 0, 2));
    lemma_mono6_mul(x1, y1, z1, x2, y2, z2, 2, 1, 1, 0, 3, 1, 1, 1, 0, 0, 0, 2);
    lemma_coefficient_product((-84int), mono6(x1, y1, z1, x2, y2, z2, 2, 1, 1, 0, 3, 1), 1int, mono6(x1, y1, z1, x2, y2, z2, 1, 1, 0, 0, 2, 0));
    lemma_mono6_mul(x1, y1, z1, x2, y2, z2, 2, 1, 1, 0, 3, 1, 1, 1, 0, 0, 2, 0);
}

proof fn lemma_add_curve_identity_part2_mul_2(x1: int, y1: int, z1: int, x2: int, y2: int, z2: int)
    ensures
        ((441int * mono6(x1, y1, z1, x2, y2, z2, 2, 2, 0, 0, 0, 4)) + (((-42int) * mono6(x1, y1, z1, x2, y2, z2, 2, 2, 0, 0, 2, 2)) + (1int * mono6(x1, y1, z1, x2, y2, z2, 2, 2, 0, 0, 4, 0)))) * ((((-21int) * mono6(x1, y1, z1, x2, y2, z2, 0, 0, 2, 1, 1, 0)) + (((-42int) * mono6(x1, y1, z1, x2, y2, z2, 0, 1, 1, 1, 0, 1)) + (1int * mono6(x1, y1, z1, x2, y2, z2, 0, 2, 0, 1, 1, 0)))) + (((-42int) * mono6(x1, y1, z1, x2, y2, z2, 1, 0, 1, 0, 1, 1)) + (((-21int) * mono6(x1, y1, z1, x2, y2, z2, 1, 1, 0, 0, 0, 2)) + (1int * mono6(x1, y1, z1, x2, y2, z2, 1, 1, 0, 0, 2, 0))))) == ((((((-9261int) * mono6(x1, y1, z1, x2, y2, z2, 2, 2, 2, 1, 1, 4)) + (882int * mono6(x1, y1, z1, x2, y2, z2, 2, 2, 2, 1, 3, 2))) + (((-21int) * mono6(x1, y1, z1, x2, y2, z2, 2, 2, 2, 1, 5, 0)) + ((-18522int) * mono6(x1, y1, z1, x2, y2, z2, 2, 3, 1, 1, 0, 5)))) + (((1764int * mono6(x1, y1, z1, x2, y2, z2, 2, 3, 1, 1, 2, 3)) + ((-42int) * mono6(x1, y1, z1, x2, y2, z2, 2, 3, 1, 1, 4, 1))) + ((441int * mono6(x1, y1, z1, x2, y2, z2, 2, 4, 0, 1, 1, 4)) + ((-42int) * mono6(x1, y1, z1, x2, y2, z2, 2, 4, 0, 1, 3, 2))))) + ((((1int * mono6(x1, y1, z1, x2, y2, z2, 2, 4, 0, 1, 5, 0)) + ((-18522int) * mono6(x1, y1, z1, x2, y2, z2, 3, 2, 1, 0, 1, 5))) + ((1764int * mono6(x1, y1, z1, x2, y2, z2, 3, 2, 1, 0, 3, 3)) + ((-42int) * mono6(x1, y1, z1, x2, y2, z2, 3, 2, 1, 0, 5, 1)))) + ((((-9261int) * mono6(x1, y1, z1, x2, y2, z2, 3, 3, 0, 0, 0, 6)) + (1323int * mono6(x1, y1, z1, x2, y2, z2, 3, 3, 0, 0, 2, 4))) + (((-63int) * mono6(x1, y1, z1, x2, y2, z2, 3, 3, 0, 0, 4, 2)) + (1int * mono6(x1, y1, z1, x2, y2, z2, 3, 3, 0, 0, 6, 0)))))),
{
    lemma_mono6_vars(x1, y1, z1, x2, y2, z2);
    lemma_mul_is_distributive_add_other_way(((((-21int) * mono6(x1, y1, z1, x2, y2, z2, 0, 0, 2, 1, 1, 0)) + (((-42int) * mono6(x1, y1, z1, x2, y2, z2, 0, 1, 1, 1, 0, 1)) + (1int * mono6(x1, y1, z1, x2, y2, z2, 0, 2, 0, 1, 1, 0)))) + (((-42int) * mono6(x1, y1, z1, x2, y2, z2, 1, 0, 1, 0, 1, 1)) + (((-21int) * mono6(x1, y1, z1, x2, y2, z2, 1, 1, 0, 0, 0, 2)) + (1int * mono6(x1, y1, z1, x2, y2, z2, 1, 1, 0, 0, 2, 0))))), (441int * mono6(x1, y1, z1, x2, y2, z2, 2, 2, 0, 0, 0, 4)), (((-42int) * mono6(x1, y1, z1, x2, y2, z2, 2, 2, 0, 0, 2, 2)) + (1int * mono6(x1, y1, z1, x2, y2, z2, 2, 2, 0, 0, 4, 0))));
    lemma_mul_is_distributive_add_other_way(((((-21int) * mono6(x1, y1, z1, x2, y2, z2, 0, 0, 2, 1, 1, 0)) + (((-42int) * mono6(x1, y1, z1, x2, y2, z2, 0, 1, 1, 1, 0, 1)) + (1int * mono6(x1, y1, z1, x2, y2, z2, 0, 2, 0, 1, 1, 0)))) + (((-42int) * mono6(x1, y1, z1, x2, y2, z2, 1, 0, 1, 0, 1, 1)) + (((-21int) * mono6(x1, y1, z1, x2, y2, z2, 1, 1, 0, 0, 0, 2)) + (1int * mono6(x1, y1, z1, x2, y2, z2, 1, 1, 0, 0, 2, 0))))), ((-42int) * mono6(x1, y1, z1, x2, y2, z2, 2, 2, 0, 0, 2, 2)), (1int * mono6(x1, y1, z1, x2, y2, z2, 2, 2, 0, 0, 4, 0)));
    lemma_mul_is_distributive_add((441int * mono6(x1, y1, z1, x2, y2, z2, 2, 2, 0, 0, 0, 4)), (((-21int) * mono6(x1, y1, z1, x2, y2, z2, 0, 0, 2, 1, 1, 0)) + (((-42int) * mono6(x1, y1, z1, x2, y2, z2, 0, 1, 1, 1, 0, 1)) + (1int * mono6(x1, y1, z1, x2, y2, z2, 0, 2, 0, 1, 1, 0)))), (((-42int) * mono6(x1, y1, z1, x2, y2, z2, 1, 0, 1, 0, 1, 1)) + (((-21int) * mono6(x1, y1, z1, x2, y2, z2, 1, 1, 0, 0, 0, 2)) + (1int * mono6(x1, y1, z1, x2, y2, z2, 1, 1, 0, 0, 2, 0)))));
    lemma_mul_is_distributive_add((441int * mono6(x1, y1, z1, x2, y2, z2, 2, 2, 0, 0, 0, 4)), ((-21int) * mono6(x1, y1, z1, x2, y2, z2, 0, 0, 2, 1, 1, 0)), (((-42int) * mono6(x1, y1, z1, x2, y2, z2, 0, 1, 1, 1, 0, 1)) + (1int * mono6(x1, y1, z1, x2, y2, z2, 0, 2, 0, 1, 1, 0))));
    lemma_mul_is_distributive_add((441int * mono6(x1, y1, z1, x2, y2, z2, 2, 2, 0, 0, 0, 4)), ((-42int) * mono6(x1, y1, z1, x2, y2, z2, 0, 1, 1, 1, 0, 1)), (1int * mono6(x1, y1, z1, x2, y2, z2, 0, 2, 0, 1, 1, 0)));
    lemma_mul_is_distributive_add((441int * mono6(x1, y1, z1, x2, y2, z2, 2, 2, 0, 0, 0, 4)), ((-42int) * mono6(x1, y1, z1, x2, y2, z2, 1, 0, 1, 0, 1, 1)), (((-21int) * mono6(x1, y1, z1, x2, y2, z2, 1, 1, 0, 0, 0, 2)) + (1int * mono6(x1, y1, z1, x2, y2, z2, 1, 1, 0, 0, 2, 0))));
    lemma_mul_is_distributive_add((441int * mono6(x1, y1, z1, x2, y2, z2, 2, 2, 0, 0, 0, 4)), ((-21int) * mono6(x1, y1, z1, x2, y2, z2, 1, 1, 0, 0, 0, 2)), (1int * mono6(x1, y1, z1, x2, y2, z2, 1, 1, 0, 0, 2, 0)));
    lemma_coefficient_product(441int, mono6(x1, y1, z1, x2, y2, z2, 2, 2, 0, 0, 0, 4), (-21int), mono6(x1, y1, z1, x2, y2, z2, 0, 0, 2, 1, 1, 0));
    lemma_mono6_mul(x1, y1, z1, x2, y2, z2, 2, 2, 0, 0, 0, 4, 0, 0, 2, 1, 1, 0);
    lemma_coefficient_product(441int, mono6(x1, y1, z1, x2, y2, z2, 2, 2, 0, 0, 0, 4), (-42int), mono6(x1, y1, z1, x2, y2, z2, 0, 1, 1, 1, 0, 1));
    lemma_mono6_mul(x1, y1, z1, x2, y2, z2, 2, 2, 0, 0, 0, 4, 0, 1, 1, 1, 0, 1);
    lemma_coefficient_product(441int, mono6(x1, y1, z1, x2, y2, z2, 2, 2, 0, 0, 0, 4), 1int, mono6(x1, y1, z1, x2, y2, z2, 0, 2, 0, 1, 1, 0));
    lemma_mono6_mul(x1, y1, z1, x2, y2, z2, 2, 2, 0, 0, 0, 4, 0, 2, 0, 1, 1, 0);
    lemma_coefficient_product(441int, mono6(x1, y1, z1, x2, y2, z2, 2, 2, 0, 0, 0, 4), (-42int), mono6(x1, y1, z1, x2, y2, z2, 1, 0, 1, 0, 1, 1));
    lemma_mono6_mul(x1, y1, z1, x2, y2, z2, 2, 2, 0, 0, 0, 4, 1, 0, 1, 0, 1, 1);
    lemma_coefficient_product(441int, mono6(x1, y1, z1, x2, y2, z2, 2, 2, 0, 0, 0, 4), (-21int), mono6(x1, y1, z1, x2, y2, z2, 1, 1, 0, 0, 0, 2));
    lemma_mono6_mul(x1, y1, z1, x2, y2, z2, 2, 2, 0, 0, 0, 4, 1, 1, 0, 0, 0, 2);
    lemma_coefficient_product(441int, mono6(x1, y1, z1, x2, y2, z2, 2, 2, 0, 0, 0, 4), 1int, mono6(x1, y1, z1, x2, y2, z2, 1, 1, 0, 0, 2, 0));
    lemma_mono6_mul(x1, y1, z1, x2, y2, z2, 2, 2, 0, 0, 0, 4, 1, 1, 0, 0, 2, 0);
    lemma_mul_is_distributive_add(((-42int) * mono6(x1, y1, z1, x2, y2, z2, 2, 2, 0, 0, 2, 2)), (((-21int) * mono6(x1, y1, z1, x2, y2, z2, 0, 0, 2, 1, 1, 0)) + (((-42int) * mono6(x1, y1, z1, x2, y2, z2, 0, 1, 1, 1, 0, 1)) + (1int * mono6(x1, y1, z1, x2, y2, z2, 0, 2, 0, 1, 1, 0)))), (((-42int) * mono6(x1, y1, z1, x2, y2, z2, 1, 0, 1, 0, 1, 1)) + (((-21int) * mono6(x1, y1, z1, x2, y2, z2, 1, 1, 0, 0, 0, 2)) + (1int * mono6(x1, y1, z1, x2, y2, z2, 1, 1, 0, 0, 2, 0)))));
    lemma_mul_is_distributive_add(((-42int) * mono6(x1, y1, z1, x2, y2, z2, 2, 2, 0, 0, 2, 2)), ((-21int) * mono6(x1, y1, z1, x2, y2, z2, 0, 0, 2, 1, 1, 0)), (((-42int) * mono6(x1, y1, z1, x2, y2, z2, 0, 1, 1, 1, 0, 1)) + (1int * mono6(x1, y1, z1, x2, y2, z2, 0, 2, 0, 1, 1, 0))));
    lemma_mul_is_distributive_add(((-42int) * mono6(x1, y1, z1, x2, y2, z2, 2, 2, 0, 0, 2, 2)), ((-42int) * mono6(x1, y1, z1, x2, y2, z2, 0, 1, 1, 1, 0, 1)), (1int * mono6(x1, y1, z1, x2, y2, z2, 0, 2, 0, 1, 1, 0)));
    lemma_mul_is_distributive_add(((-42int) * mono6(x1, y1, z1, x2, y2, z2, 2, 2, 0, 0, 2, 2)), ((-42int) * mono6(x1, y1, z1, x2, y2, z2, 1, 0, 1, 0, 1, 1)), (((-21int) * mono6(x1, y1, z1, x2, y2, z2, 1, 1, 0, 0, 0, 2)) + (1int * mono6(x1, y1, z1, x2, y2, z2, 1, 1, 0, 0, 2, 0))));
    lemma_mul_is_distributive_add(((-42int) * mono6(x1, y1, z1, x2, y2, z2, 2, 2, 0, 0, 2, 2)), ((-21int) * mono6(x1, y1, z1, x2, y2, z2, 1, 1, 0, 0, 0, 2)), (1int * mono6(x1, y1, z1, x2, y2, z2, 1, 1, 0, 0, 2, 0)));
    lemma_coefficient_product((-42int), mono6(x1, y1, z1, x2, y2, z2, 2, 2, 0, 0, 2, 2), (-21int), mono6(x1, y1, z1, x2, y2, z2, 0, 0, 2, 1, 1, 0));
    lemma_mono6_mul(x1, y1, z1, x2, y2, z2, 2, 2, 0, 0, 2, 2, 0, 0, 2, 1, 1, 0);
    lemma_coefficient_product((-42int), mono6(x1, y1, z1, x2, y2, z2, 2, 2, 0, 0, 2, 2), (-42int), mono6(x1, y1, z1, x2, y2, z2, 0, 1, 1, 1, 0, 1));
    lemma_mono6_mul(x1, y1, z1, x2, y2, z2, 2, 2, 0, 0, 2, 2, 0, 1, 1, 1, 0, 1);
    lemma_coefficient_product((-42int), mono6(x1, y1, z1, x2, y2, z2, 2, 2, 0, 0, 2, 2), 1int, mono6(x1, y1, z1, x2, y2, z2, 0, 2, 0, 1, 1, 0));
    lemma_mono6_mul(x1, y1, z1, x2, y2, z2, 2, 2, 0, 0, 2, 2, 0, 2, 0, 1, 1, 0);
    lemma_coefficient_product((-42int), mono6(x1, y1, z1, x2, y2, z2, 2, 2, 0, 0, 2, 2), (-42int), mono6(x1, y1, z1, x2, y2, z2, 1, 0, 1, 0, 1, 1));
    lemma_mono6_mul(x1, y1, z1, x2, y2, z2, 2, 2, 0, 0, 2, 2, 1, 0, 1, 0, 1, 1);
    lemma_coefficient_product((-42int), mono6(x1, y1, z1, x2, y2, z2, 2, 2, 0, 0, 2, 2), (-21int), mono6(x1, y1, z1, x2, y2, z2, 1, 1, 0, 0, 0, 2));
    lemma_mono6_mul(x1, y1, z1, x2, y2, z2, 2, 2, 0, 0, 2, 2, 1, 1, 0, 0, 0, 2);
    lemma_coefficient_product((-42int), mono6(x1, y1, z1, x2, y2, z2, 2, 2, 0, 0, 2, 2), 1int, mono6(x1, y1, z1, x2, y2, z2, 1, 1, 0, 0, 2, 0));
    lemma_mono6_mul(x1, y1, z1, x2, y2, z2, 2, 2, 0, 0, 2, 2, 1, 1, 0, 0, 2, 0);
    lemma_mul_is_distributive_add((1int * mono6(x1, y1, z1, x2, y2, z2, 2, 2, 0, 0, 4, 0)), (((-21int) * mono6(x1, y1, z1, x2, y2, z2, 0, 0, 2, 1, 1, 0)) + (((-42int) * mono6(x1, y1, z1, x2, y2, z2, 0, 1, 1, 1, 0, 1)) + (1int * mono6(x1, y1, z1, x2, y2, z2, 0, 2, 0, 1, 1, 0)))), (((-42int) * mono6(x1, y1, z1, x2, y2, z2, 1, 0, 1, 0, 1, 1)) + (((-21int) * mono6(x1, y1, z1, x2, y2, z2, 1, 1, 0, 0, 0, 2)) + (1int * mono6(x1, y1, z1, x2, y2, z2, 1, 1, 0, 0, 2, 0)))));
    lemma_mul_is_distributive_add((1int * mono6(x1, y1, z1, x2, y2, z2, 2, 2, 0, 0, 4, 0)), ((-21int) * mono6(x1, y1, z1, x2, y2, z2, 0, 0, 2, 1, 1, 0)), (((-42int) * mono6(x1, y1, z1, x2, y2, z2, 0, 1, 1, 1, 0, 1)) + (1int * mono6(x1, y1, z1, x2, y2, z2, 0, 2, 0, 1, 1, 0))));
    lemma_mul_is_distributive_add((1int * mono6(x1, y1, z1, x2, y2, z2, 2, 2, 0, 0, 4, 0)), ((-42int) * mono6(x1, y1, z1, x2, y2, z2, 0, 1, 1, 1, 0, 1)), (1int * mono6(x1, y1, z1, x2, y2, z2, 0, 2, 0, 1, 1, 0)));
    lemma_mul_is_distributive_add((1int * mono6(x1, y1, z1, x2, y2, z2, 2, 2, 0, 0, 4, 0)), ((-42int) * mono6(x1, y1, z1, x2, y2, z2, 1, 0, 1, 0, 1, 1)), (((-21int) * mono6(x1, y1, z1, x2, y2, z2, 1, 1, 0, 0, 0, 2)) + (1int * mono6(x1, y1, z1, x2, y2, z2, 1, 1, 0, 0, 2, 0))));
    lemma_mul_is_distributive_add((1int * mono6(x1, y1, z1, x2, y2, z2, 2, 2, 0, 0, 4, 0)), ((-21int) * mono6(x1, y1, z1, x2, y2, z2, 1, 1, 0, 0, 0, 2)), (1int * mono6(x1, y1, z1, x2, y2, z2, 1, 1, 0, 0, 2, 0)));
    lemma_coefficient_product(1int, mono6(x1, y1, z1, x2, y2, z2, 2, 2, 0, 0, 4, 0), (-21int), mono6(x1, y1, z1, x2, y2, z2, 0, 0, 2, 1, 1, 0));
    lemma_mono6_mul(x1, y1, z1, x2, y2, z2, 2, 2, 0, 0, 4, 0, 0, 0, 2, 1, 1, 0);
    lemma_coefficient_product(1int, mono6(x1, y1, z1, x2, y2, z2, 2, 2, 0, 0, 4, 0), (-42int), mono6(x1, y1, z1, x2, y2, z2, 0, 1, 1, 1, 0, 1));
    lemma_mono6_mul(x1, y1, z1, x2, y2, z2, 2, 2, 0, 0, 4, 0, 0, 1, 1, 1, 0, 1);
    lemma_coefficient_product(1int, mono6(x1, y1, z1, x2, y2, z2, 2, 2, 0, 0, 4, 0), 1int, mono6(x1, y1, z1, x2, y2, z2, 0, 2, 0, 1, 1, 0));
    lemma_mono6_mul(x1, y1, z1, x2, y2, z2, 2, 2, 0, 0, 4, 0, 0, 2, 0, 1, 1, 0);
    lemma_coefficient_product(1int, mono6(x1, y1, z1, x2, y2, z2, 2, 2, 0, 0, 4, 0), (-42int), mono6(x1, y1, z1, x2, y2, z2, 1, 0, 1, 0, 1, 1));
    lemma_mono6_mul(x1, y1, z1, x2, y2, z2, 2, 2, 0, 0, 4, 0, 1, 0, 1, 0, 1, 1);
    lemma_coefficient_product(1int, mono6(x1, y1, z1, x2, y2, z2, 2, 2, 0, 0, 4, 0), (-21int), mono6(x1, y1, z1, x2, y2, z2, 1, 1, 0, 0, 0, 2));
    lemma_mono6_mul(x1, y1, z1, x2, y2, z2, 2, 2, 0, 0, 4, 0, 1, 1, 0, 0, 0, 2);
    lemma_coefficient_product(1int, mono6(x1, y1, z1, x2, y2, z2, 2, 2, 0, 0, 4, 0), 1int, mono6(x1, y1, z1, x2, y2, z2, 1, 1, 0, 0, 2, 0));
    lemma_mono6_mul(x1, y1, z1, x2, y2, z2, 2, 2, 0, 0, 4, 0, 1, 1, 0, 0, 2, 0);
}

proof fn lemma_add_curve_identity_part3_mul_3(x1: int, y1: int, z1: int, x2: int, y2: int, z2: int)
    ensures
        (((((441int * mono6(x1, y1, z1, x2, y2, z2, 0, 0, 4, 0, 2, 2)) + (882int * mono6(x1, y1, z1, x2, y2, z2, 0, 1, 3, 0, 1, 3))) + ((42int * mono6(x1, y1, z1, x2, y2, z2, 0, 1, 3, 0, 3, 1)) + (441int * mono6(x1, y1, z1, x2, y2, z2, 0, 2, 2, 0, 0, 4)))) + (((84int * mono6(x1, y1, z1, x2, y2, z2, 0, 2, 2, 0, 2, 2)) + (1int * mono6(x1, y1, z1, x2, y2, z2, 0, 2, 2, 0, 4, 0))) + ((42int * mono6(x1, y1, z1, x2, y2, z2, 0, 3, 1, 0, 1, 3)) + (2int * mono6(x1, y1, z1, x2, y2, z2, 0, 3, 1, 0, 3, 1))))) + ((((1int * mono6(x1, y1, z1, x2, y2, z2, 0, 4, 0, 0, 2, 2)) + (126int * mono6(x1, y1, z1, x2, y2, z2, 1, 1, 2, 2, 1, 1))) + ((126int * mono6(x1, y1, z1, x2, y2, z2, 1, 2, 1, 2, 0, 2)) + (6int * mono6(x1, y1, z1, x2, y2, z2, 1, 2, 1, 2, 2, 0)))) + (((6int * mono6(x1, y1, z1, x2, y2, z2, 1, 3, 0, 2, 1, 1)) + (126int * mono6(x1, y1, z1, x2, y2, z2, 2, 0, 2, 1, 2, 1))) + ((126int * mono6(x1, y1, z1, x2, y2, z2, 2, 1, 1, 1, 1, 2)) + (6int * mono6(x1, y1, z1, x2, y2, z2, 2, 1, 1, 1, 3, 0)))))) * (((21int * mono6(x1, y1, z1, x2, y2, z2, 0, 0, 2, 0, 1, 1)) + ((21int * mono6(x1, y1, z1, x2, y2, z2, 0, 1, 1, 0, 0, 2)) + (1int * mono6(x1, y1, z1, x2, y2, z2, 0, 1, 1, 0, 2, 0)))) + ((1int * mono6(x1, y1, z1, x2, y2, z2, 0, 2, 0, 0, 1, 1)) + ((3int * mono6(x1, y1, z1, x2, y2, z2, 1, 1, 0, 2, 0, 0)) + (3int * mono6(x1, y1, z1, x2, y2, z2, 2, 0, 0, 1, 1, 0))))) == ((((((9261int * mono6(x1, y1, z1, x2, y2, z2, 0, 0, 6, 0, 3, 3)) + (27783int * mono6(x1, y1, z1, x2, y2, z2, 0, 1, 5, 0, 2, 4))) + ((1323int * mono6(x1, y1, z1, x2, y2, z2, 0, 1, 5, 0, 4, 2)) + ((27783int * mono6(x1, y1, z1, x2, y2, z2, 0, 2, 4, 0, 1, 5)) + (3969int * mono6(x1, y1, z1, x2, y2, z2, 0, 2, 4, 0, 3, 3))))) + (((63int * mono6(x1, y1, z1, x2, y2, z2, 0, 2, 4, 0, 5, 1)) + ((9261int * mono6(x1, y1, z1, x2, y2, z2, 0, 3, 3, 0, 0, 6)) + (3969int * mono6(x1, y1, z1, x2, y2, z2, 0, 3, 3, 0, 2, 4)))) + ((189int * mono6(x1, y1, z1, x2, y2, z2, 0, 3, 3, 0, 4, 2)) + ((1int * mono6(x1, y1, z1, x2, y2, z2, 0, 3, 3, 0, 6, 0)) + (1323int * mono6(x1, y1, z1, x2, y2, z2, 0, 4, 2, 0, 1, 5)))))) + ((((189int * mono6(x1, y1, z1, x2, y2, z2, 0, 4, 2, 0, 3, 3)) + (3int * mono6(x1, y1, z1, x2, y2, z2, 0, 4, 2, 0, 5, 1))) + ((63int * mono6(x1, y1, z1, x2, y2, z2, 0, 5, 1, 0, 2, 4)) + ((3int * mono6(x1, y1, z1, x2, y2, z2, 0, 5, 1, 0, 4, 2)) + (1int * mono6(x1, y1, z1, x2, y2, z2, 0, 6, 0, 0, 3, 3))))) + (((3969int * mono6(x1, y1, z1, x2, y2, z2, 1, 1, 4, 2, 2, 2)) + ((7938int * mono6(x1, y1, z1, x2, y2, z2, 1, 2, 3, 2, 1, 3)) + (378int * mono6(x1, y1, z1, x2, y2, z2, 1, 2, 3, 2, 3, 1)))) + ((3969int * mono6(x1, y1, z1, x2, y2, z2, 1, 3, 2, 2, 0, 4)) + ((756int * mono6(x1, y1, z1, x2, y2, z2, 1, 3, 2, 2, 2, 2)) + (9int * mono6(x1, y1, z1, x2, y2, z2, 1, 3, 2, 2, 4, 0))))))) + (((((378int * mono6(x1, y1, z1, x2, y2, z2, 1, 4, 1, 2, 1, 3)) + (18int * mono6(x1, y1, z1, x2, y2, z2, 1, 4, 1, 2, 3, 1))) + ((9int * mono6(x1, y1, z1, x2, y2, z2, 1, 5, 0, 2, 2, 2)) + ((3969int * mono6(x1, y1, z1, x2, y2, z2, 2, 0, 4, 1, 3, 2)) + (7938int * mono6(x1, y1, z1, x2, y2, z2, 2, 1, 3, 1, 2, 3))))) + (((378int * mono6(x1, y1, z1, x2, y2, z2, 2, 1, 3, 1, 4, 1)) + ((3969int * mono6(x1, y1, z1, x2, y2, z2, 2, 2, 2, 1, 1, 4)) + (630int * mono6(x1, y1, z1, x2, y2, z2, 2, 2, 2, 1, 3, 2)))) + ((9int * mono6(x1, y1, z1, x2, y2, z2, 2, 2, 2, 1, 5, 0)) + ((378int * mono6(x1, y1, z1, x2, y2, z2, 2, 2, 2, 4, 1, 1)) + (252int * mono6(x1, y1, z1, x2, y2, z2, 2, 3, 1, 1, 2, 3)))))) + ((((12int * mono6(x1, y1, z1, x2, y2, z2, 2, 3, 1, 1, 4, 1)) + ((378int * mono6(x1, y1, z1, x2, y2, z2, 2, 3, 1, 4, 0, 2)) + (18int * mono6(x1, y1, z1, x2, y2, z2, 2, 3, 1, 4, 2, 0)))) + ((3int * mono6(x1, y1, z1, x2, y2, z2, 2, 4, 0, 1, 3, 2)) + ((18int * mono6(x1, y1, z1, x2, y2, z2, 2, 4, 0, 4, 1, 1)) + (756int * mono6(x1, y1, z1, x2, y2, z2, 3, 1, 2, 3, 2, 1))))) + (((756int * mono6(x1, y1, z1, x2, y2, z2, 3, 2, 1, 3, 1, 2)) + ((36int * mono6(x1, y1, z1, x2, y2, z2, 3, 2, 1, 3, 3, 0)) + (18int * mono6(x1, y1, z1, x2, y2, z2, 3, 3, 0, 3, 2, 1)))) + ((378int * mono6(x1, y1, z1, x2, y2, z2, 4, 0, 2, 2, 3, 1)) + ((378int * mono6(x1, y1, z1, x2, y2, z2, 4, 1, 1, 2, 2, 2)) + (18int * mono6(x1, y1, z1, x2, y2, z2, 4, 1, 1, 2, 4, 0)))))))),
{
    lemma_mono6_vars(x1, y1, z1, x2, y2, z2);
    lemma_mul_is_distributive_add_other_way((((21int * mono6(x1, y1, z1, x2, y2, z2, 0, 0, 2, 0, 1, 1)) + ((21int * mono6(x1, y1, z1, x2, y2, z2, 0, 1, 1, 0, 0, 2)) + (1int * mono6(x1, y1, z1, x2, y2, z2, 0, 1, 1, 0, 2, 0)))) + ((1int * mono6(x1, y1, z1, x2, y2, z2, 0, 2, 0, 0, 1, 1)) + ((3int * mono6(x1, y1, z1, x2, y2, z2, 1, 1, 0, 2, 0, 0)) + (3int * mono6(x1, y1, z1, x2, y2, z2, 2, 0, 0, 1, 1, 0))))), ((((441int * mono6(x1, y1, z1, x2, y2, z2, 0, 0, 4, 0, 2, 2)) + (882int * mono6(x1, y1, z1, x2, y2, z2, 0, 1, 3, 0, 1, 3))) + ((42int * mono6(x1, y1, z1, x2, y2, z2, 0, 1, 3, 0, 3, 1)) + (441int * mono6(x1, y1, z1, x2, y2, z2, 0, 2, 2, 0, 0, 4)))) + (((84int * mono6(x1, y1, z1, x2, y2, z2, 0, 2, 2, 0, 2, 2)) + (1int * mono6(x1, y1, z1, x2, y2, z2, 0, 2, 2, 0, 4, 0))) + ((42int * mono6(x1, y1, z1, x2, y2, z2, 0, 3, 1, 0, 1, 3)) + (2int * mono6(x1, y1, z1, x2, y2, z2, 0, 3, 1, 0, 3, 1))))), ((((1int * mono6(x1, y1, z1, x2, y2, z2, 0, 4, 0, 0, 2, 2)) + (126int * mono6(x1, y1, z1, x2, y2, z2, 1, 1, 2, 2, 1, 1))) + ((126int * mono6(x1, y1, z1, x2, y2, z2, 1, 2, 1, 2, 0, 2)) + (6int * mono6(x1, y1, z1, x2, y2, z2, 1, 2, 1, 2, 2, 0)))) + (((6int * mono6(x1, y1, z1, x2, y2, z2, 1, 3, 0, 2, 1, 1)) + (126int * mono6(x1, y1, z1, x2, y2, z2, 2, 0, 2, 1, 2, 1))) + ((126int * mono6(x1, y1, z1, x2, y2, z2, 2, 1, 1, 1, 1, 2)) + (6int * mono6(x1, y1, z1, x2, y2, z2, 2, 1, 1, 1, 3, 0))))));
    lemma_mul_is_distributive_add_other_way((((21int * mono6(x1, y1, z1, x2, y2, z2, 0, 0, 2, 0, 1, 1)) + ((21int * mono6(x1, y1, z1, x2, y2, z2, 0, 1, 1, 0, 0, 2)) + (1int * mono6(x1, y1, z1, x2, y2, z2, 0, 1, 1, 0, 2, 0)))) + ((1int * mono6(x1, y1, z1, x2, y2, z2, 0, 2, 0, 0, 1, 1)) + ((3int * mono6(x1, y1, z1, x2, y2, z2, 1, 1, 0, 2, 0, 0)) + (3int * mono6(x1, y1, z1, x2, y2, z2, 2, 0, 0, 1, 1, 0))))), (((441int * mono6(x1, y1, z1, x2, y2, z2, 0, 0, 4, 0, 2, 2)) + (882int * mono6(x1, y1, z1, x2, y2, z2, 0, 1, 3, 0, 1, 3))) + ((42int * mono6(x1, y1, z1, x2, y2, z2, 0, 1, 3, 0, 3, 1)) + (441int * mono6(x1, y1, z1, x2, y2, z2, 0, 2, 2, 0, 0, 4)))), (((84int * mono6(x1, y1, z1, x2, y2, z2, 0, 2, 2, 0, 2, 2)) + (1int * mono6(x1, y1, z1, x2, y2, z2, 0, 2, 2, 0, 4, 0))) + ((42int * mono6(x1, y1, z1, x2, y2, z2, 0, 3, 1, 0, 1, 3)) + (2int * mono6(x1, y1, z1, x2, y2, z2, 0, 3, 1, 0, 3, 1)))));
    lemma_mul_is_distributive_add_other_way((((21int * mono6(x1, y1, z1, x2, y2, z2, 0, 0, 2, 0, 1, 1)) + ((21int * mono6(x1, y1, z1, x2, y2, z2, 0, 1, 1, 0, 0, 2)) + (1int * mono6(x1, y1, z1, x2, y2, z2, 0, 1, 1, 0, 2, 0)))) + ((1int * mono6(x1, y1, z1, x2, y2, z2, 0, 2, 0, 0, 1, 1)) + ((3int * mono6(x1, y1, z1, x2, y2, z2, 1, 1, 0, 2, 0, 0)) + (3int * mono6(x1, y1, z1, x2, y2, z2, 2, 0, 0, 1, 1, 0))))), ((441int * mono6(x1, y1, z1, x2, y2, z2, 0, 0, 4, 0, 2, 2)) + (882int * mono6(x1, y1, z1, x2, y2, z2, 0, 1, 3, 0, 1, 3))), ((42int * mono6(x1, y1, z1, x2, y2, z2, 0, 1, 3, 0, 3, 1)) + (441int * mono6(x1, y1, z1, x2, y2, z2, 0, 2, 2, 0, 0, 4))));
    lemma_mul_is_distributive_add_other_way((((21int * mono6(x1, y1, z1, x2, y2, z2, 0, 0, 2, 0, 1, 1)) + ((21int * mono6(x1, y1, z1, x2, y2, z2, 0, 1, 1, 0, 0, 2)) + (1int * mono6(x1, y1, z1, x2, y2, z2, 0, 1, 1, 0, 2, 0)))) + ((1int * mono6(x1, y1, z1, x2, y2, z2, 0, 2, 0, 0, 1, 1)) + ((3int * mono6(x1, y1, z1, x2, y2, z2, 1, 1, 0, 2, 0, 0)) + (3int * mono6(x1, y1, z1, x2, y2, z2, 2, 0, 0, 1, 1, 0))))), (441int * mono6(x1, y1, z1, x2, y2, z2, 0, 0, 4, 0, 2, 2)), (882int * mono6(x1, y1, z1, x2, y2, z2, 0, 1, 3, 0, 1, 3)));
    lemma_mul_is_distributive_add_other_way((((21int * mono6(x1, y1, z1, x2, y2, z2, 0, 0, 2, 0, 1, 1)) + ((21int * mono6(x1, y1, z1, x2, y2, z2, 0, 1, 1, 0, 0, 2)) + (1int * mono6(x1, y1, z1, x2, y2, z2, 0, 1, 1, 0, 2, 0)))) + ((1int * mono6(x1, y1, z1, x2, y2, z2, 0, 2, 0, 0, 1, 1)) + ((3int * mono6(x1, y1, z1, x2, y2, z2, 1, 1, 0, 2, 0, 0)) + (3int * mono6(x1, y1, z1, x2, y2, z2, 2, 0, 0, 1, 1, 0))))), (42int * mono6(x1, y1, z1, x2, y2, z2, 0, 1, 3, 0, 3, 1)), (441int * mono6(x1, y1, z1, x2, y2, z2, 0, 2, 2, 0, 0, 4)));
    lemma_mul_is_distributive_add_other_way((((21int * mono6(x1, y1, z1, x2, y2, z2, 0, 0, 2, 0, 1, 1)) + ((21int * mono6(x1, y1, z1, x2, y2, z2, 0, 1, 1, 0, 0, 2)) + (1int * mono6(x1, y1, z1, x2, y2, z2, 0, 1, 1, 0, 2, 0)))) + ((1int * mono6(x1, y1, z1, x2, y2, z2, 0, 2, 0, 0, 1, 1)) + ((3int * mono6(x1, y1, z1, x2, y2, z2, 1, 1, 0, 2, 0, 0)) + (3int * mono6(x1, y1, z1, x2, y2, z2, 2, 0, 0, 1, 1, 0))))), ((84int * mono6(x1, y1, z1, x2, y2, z2, 0, 2, 2, 0, 2, 2)) + (1int * mono6(x1, y1, z1, x2, y2, z2, 0, 2, 2, 0, 4, 0))), ((42int * mono6(x1, y1, z1, x2, y2, z2, 0, 3, 1, 0, 1, 3)) + (2int * mono6(x1, y1, z1, x2, y2, z2, 0, 3, 1, 0, 3, 1))));
    lemma_mul_is_distributive_add_other_way((((21int * mono6(x1, y1, z1, x2, y2, z2, 0, 0, 2, 0, 1, 1)) + ((21int * mono6(x1, y1, z1, x2, y2, z2, 0, 1, 1, 0, 0, 2)) + (1int * mono6(x1, y1, z1, x2, y2, z2, 0, 1, 1, 0, 2, 0)))) + ((1int * mono6(x1, y1, z1, x2, y2, z2, 0, 2, 0, 0, 1, 1)) + ((3int * mono6(x1, y1, z1, x2, y2, z2, 1, 1, 0, 2, 0, 0)) + (3int * mono6(x1, y1, z1, x2, y2, z2, 2, 0, 0, 1, 1, 0))))), (84int * mono6(x1, y1, z1, x2, y2, z2, 0, 2, 2, 0, 2, 2)), (1int * mono6(x1, y1, z1, x2, y2, z2, 0, 2, 2, 0, 4, 0)));
    lemma_mul_is_distributive_add_other_way((((21int * mono6(x1, y1, z1, x2, y2, z2, 0, 0, 2, 0, 1, 1)) + ((21int * mono6(x1, y1, z1, x2, y2, z2, 0, 1, 1, 0, 0, 2)) + (1int * mono6(x1, y1, z1, x2, y2, z2, 0, 1, 1, 0, 2, 0)))) + ((1int * mono6(x1, y1, z1, x2, y2, z2, 0, 2, 0, 0, 1, 1)) + ((3int * mono6(x1, y1, z1, x2, y2, z2, 1, 1, 0, 2, 0, 0)) + (3int * mono6(x1, y1, z1, x2, y2, z2, 2, 0, 0, 1, 1, 0))))), (42int * mono6(x1, y1, z1, x2, y2, z2, 0, 3, 1, 0, 1, 3)), (2int * mono6(x1, y1, z1, x2, y2, z2, 0, 3, 1, 0, 3, 1)));
    lemma_mul_is_distributive_add_other_way((((21int * mono6(x1, y1, z1, x2, y2, z2, 0, 0, 2, 0, 1, 1)) + ((21int * mono6(x1, y1, z1, x2, y2, z2, 0, 1, 1, 0, 0, 2)) + (1int * mono6(x1, y1, z1, x2, y2, z2, 0, 1, 1, 0, 2, 0)))) + ((1int * mono6(x1, y1, z1, x2, y2, z2, 0, 2, 0, 0, 1, 1)) + ((3int * mono6(x1, y1, z1, x2, y2, z2, 1, 1, 0, 2, 0, 0)) + (3int * mono6(x1, y1, z1, x2, y2, z2, 2, 0, 0, 1, 1, 0))))), (((1int * mono6(x1, y1, z1, x2, y2, z2, 0, 4, 0, 0, 2, 2)) + (126int * mono6(x1, y1, z1, x2, y2, z2, 1, 1, 2, 2, 1, 1))) + ((126int * mono6(x1, y1, z1, x2, y2, z2, 1, 2, 1, 2, 0, 2)) + (6int * mono6(x1, y1, z1, x2, y2, z2, 1, 2, 1, 2, 2, 0)))), (((6int * mono6(x1, y1, z1, x2, y2, z2, 1, 3, 0, 2, 1, 1)) + (126int * mono6(x1, y1, z1, x2, y2, z2, 2, 0, 2, 1, 2, 1))) + ((126int * mono6(x1, y1, z1, x2, y2, z2, 2, 1, 1, 1, 1, 2)) + (6int * mono6(x1, y1, z1, x2, y2, z2, 2, 1, 1, 1, 3, 0)))));
    lemma_mul_is_distributive_add_other_way((((21int * mono6(x1, y1, z1, x2, y2, z2, 0, 0, 2, 0, 1, 1)) + ((21int * mono6(x1, y1, z1, x2, y2, z2, 0, 1, 1, 0, 0, 2)) + (1int * mono6(x1, y1, z1, x2, y2, z2, 0, 1, 1, 0, 2, 0)))) + ((1int * mono6(x1, y1, z1, x2, y2, z2, 0, 2, 0, 0, 1, 1)) + ((3int * mono6(x1, y1, z1, x2, y2, z2, 1, 1, 0, 2, 0, 0)) + (3int * mono6(x1, y1, z1, x2, y2, z2, 2, 0, 0, 1, 1, 0))))), ((1int * mono6(x1, y1, z1, x2, y2, z2, 0, 4, 0, 0, 2, 2)) + (126int * mono6(x1, y1, z1, x2, y2, z2, 1, 1, 2, 2, 1, 1))), ((126int * mono6(x1, y1, z1, x2, y2, z2, 1, 2, 1, 2, 0, 2)) + (6int * mono6(x1, y1, z1, x2, y2, z2, 1, 2, 1, 2, 2, 0))));
    lemma_mul_is_distributive_add_other_way((((21int * mono6(x1, y1, z1, x2, y2, z2, 0, 0, 2, 0, 1, 1)) + ((21int * mono6(x1, y1, z1, x2, y2, z2, 0, 1, 1, 0, 0, 2)) + (1int * mono6(x1, y1, z1, x2, y2, z2, 0, 1, 1, 0, 2, 0)))) + ((1int * mono6(x1, y1, z1, x2, y2, z2, 0, 2, 0, 0, 1, 1)) + ((3int * mono6(x1, y1, z1, x2, y2, z2, 1, 1, 0, 2, 0, 0)) + (3int * mono6(x1, y1, z1, x2, y2, z2, 2, 0, 0, 1, 1, 0))))), (1int * mono6(x1, y1, z1, x2, y2, z2, 0, 4, 0, 0, 2, 2)), (126int * mono6(x1, y1, z1, x2, y2, z2, 1, 1, 2, 2, 1, 1)));
    lemma_mul_is_distributive_add_other_way((((21int * mono6(x1, y1, z1, x2, y2, z2, 0, 0, 2, 0, 1, 1)) + ((21int * mono6(x1, y1, z1, x2, y2, z2, 0, 1, 1, 0, 0, 2)) + (1int * mono6(x1, y1, z1, x2, y2, z2, 0, 1, 1, 0, 2, 0)))) + ((1int * mono6(x1, y1, z1, x2, y2, z2, 0, 2, 0, 0, 1, 1)) + ((3int * mono6(x1, y1, z1, x2, y2, z2, 1, 1, 0, 2, 0, 0)) + (3int * mono6(x1, y1, z1, x2, y2, z2, 2, 0, 0, 1, 1, 0))))), (126int * mono6(x1, y1, z1, x2, y2, z2, 1, 2, 1, 2, 0, 2)), (6int * mono6(x1, y1, z1, x2, y2, z2, 1, 2, 1, 2, 2, 0)));
    lemma_mul_is_distributive_add_other_way((((21int * mono6(x1, y1, z1, x2, y2, z2, 0, 0, 2, 0, 1, 1)) + ((21int * mono6(x1, y1, z1, x2, y2, z2, 0, 1, 1, 0, 0, 2)) + (1int * mono6(x1, y1, z1, x2, y2, z2, 0, 1, 1, 0, 2, 0)))) + ((1int * mono6(x1, y1, z1, x2, y2, z2, 0, 2, 0, 0, 1, 1)) + ((3int * mono6(x1, y1, z1, x2, y2, z2, 1, 1, 0, 2, 0, 0)) + (3int * mono6(x1, y1, z1, x2, y2, z2, 2, 0, 0, 1, 1, 0))))), ((6int * mono6(x1, y1, z1, x2, y2, z2, 1, 3, 0, 2, 1, 1)) + (126int * mono6(x1, y1, z1, x2, y2, z2, 2, 0, 2, 1, 2, 1))), ((126int * mono6(x1, y1, z1, x2, y2, z2, 2, 1, 1, 1, 1, 2)) + (6int * mono6(x1, y1, z1, x2, y2, z2, 2, 1, 1, 1, 3, 0))));
    lemma_mul_is_distributive_add_other_way((((21int * mono6(x1, y1, z1, x2, y2, z2, 0, 0, 2, 0, 1, 1)) + ((21int * mono6(x1, y1, z1, x2, y2, z2, 0, 1, 1, 0, 0, 2)) + (1int * mono6(x1, y1, z1, x2, y2, z2, 0, 1, 1, 0, 2, 0)))) + ((1int * mono6(x1, y1, z1, x2, y2, z2, 0, 2, 0, 0, 1, 1)) + ((3int * mono6(x1, y1, z1, x2, y2, z2, 1, 1, 0, 2, 0, 0)) + (3int * mono6(x1, y1, z1, x2, y2, z2, 2, 0, 0, 1, 1, 0))))), (6int * mono6(x1, y1, z1, x2, y2, z2, 1, 3, 0, 2, 1, 1)), (126int * mono6(x1, y1, z1, x2, y2, z2, 2, 0, 2, 1, 2, 1)));
    lemma_mul_is_distributive_add_other_way((((21int * mono6(x1, y1, z1, x2, y2, z2, 0, 0, 2, 0, 1, 1)) + ((21int * mono6(x1, y1, z1, x2, y2, z2, 0, 1, 1, 0, 0, 2)) + (1int * mono6(x1, y1, z1, x2, y2, z2, 0, 1, 1, 0, 2, 0)))) + ((1int * mono6(x1, y1, z1, x2, y2, z2, 0, 2, 0, 0, 1, 1)) + ((3int * mono6(x1, y1, z1, x2, y2, z2, 1, 1, 0, 2, 0, 0)) + (3int * mono6(x1, y1, z1, x2, y2, z2, 2, 0, 0, 1, 1, 0))))), (126int * mono6(x1, y1, z1, x2, y2, z2, 2, 1, 1, 1, 1, 2)), (6int * mono6(x1, y1, z1, x2, y2, z2, 2, 1, 1, 1, 3, 0)));
    lemma_mul_is_distributive_add((441int * mono6(x1, y1, z1, x2, y2, z2, 0, 0, 4, 0, 2, 2)), ((21int * mono6(x1, y1, z1, x2, y2, z2, 0, 0, 2, 0, 1, 1)) + ((21int * mono6(x1, y1, z1, x2, y2, z2, 0, 1, 1, 0, 0, 2)) + (1int * mono6(x1, y1, z1, x2, y2, z2, 0, 1, 1, 0, 2, 0)))), ((1int * mono6(x1, y1, z1, x2, y2, z2, 0, 2, 0, 0, 1, 1)) + ((3int * mono6(x1, y1, z1, x2, y2, z2, 1, 1, 0, 2, 0, 0)) + (3int * mono6(x1, y1, z1, x2, y2, z2, 2, 0, 0, 1, 1, 0)))));
    lemma_mul_is_distributive_add((441int * mono6(x1, y1, z1, x2, y2, z2, 0, 0, 4, 0, 2, 2)), (21int * mono6(x1, y1, z1, x2, y2, z2, 0, 0, 2, 0, 1, 1)), ((21int * mono6(x1, y1, z1, x2, y2, z2, 0, 1, 1, 0, 0, 2)) + (1int * mono6(x1, y1, z1, x2, y2, z2, 0, 1, 1, 0, 2, 0))));
    lemma_mul_is_distributive_add((441int * mono6(x1, y1, z1, x2, y2, z2, 0, 0, 4, 0, 2, 2)), (21int * mono6(x1, y1, z1, x2, y2, z2, 0, 1, 1, 0, 0, 2)), (1int * mono6(x1, y1, z1, x2, y2, z2, 0, 1, 1, 0, 2, 0)));
    lemma_mul_is_distributive_add((441int * mono6(x1, y1, z1, x2, y2, z2, 0, 0, 4, 0, 2, 2)), (1int * mono6(x1, y1, z1, x2, y2, z2, 0, 2, 0, 0, 1, 1)), ((3int * mono6(x1, y1, z1, x2, y2, z2, 1, 1, 0, 2, 0, 0)) + (3int * mono6(x1, y1, z1, x2, y2, z2, 2, 0, 0, 1, 1, 0))));
    lemma_mul_is_distributive_add((441int * mono6(x1, y1, z1, x2, y2, z2, 0, 0, 4, 0, 2, 2)), (3int * mono6(x1, y1, z1, x2, y2, z2, 1, 1, 0, 2, 0, 0)), (3int * mono6(x1, y1, z1, x2, y2, z2, 2, 0, 0, 1, 1, 0)));
    lemma_coefficient_product(441int, mono6(x1, y1, z1, x2, y2, z2, 0, 0, 4, 0, 2, 2), 21int, mono6(x1, y1, z1, x2, y2, z2, 0, 0, 2, 0, 1, 1));
    lemma_mono6_mul(x1, y1, z1, x2, y2, z2, 0, 0, 4, 0, 2, 2, 0, 0, 2, 0, 1, 1);
    lemma_coefficient_product(441int, mono6(x1, y1, z1, x2, y2, z2, 0, 0, 4, 0, 2, 2), 21int, mono6(x1, y1, z1, x2, y2, z2, 0, 1, 1, 0, 0, 2));
    lemma_mono6_mul(x1, y1, z1, x2, y2, z2, 0, 0, 4, 0, 2, 2, 0, 1, 1, 0, 0, 2);
    lemma_coefficient_product(441int, mono6(x1, y1, z1, x2, y2, z2, 0, 0, 4, 0, 2, 2), 1int, mono6(x1, y1, z1, x2, y2, z2, 0, 1, 1, 0, 2, 0));
    lemma_mono6_mul(x1, y1, z1, x2, y2, z2, 0, 0, 4, 0, 2, 2, 0, 1, 1, 0, 2, 0);
    lemma_coefficient_product(441int, mono6(x1, y1, z1, x2, y2, z2, 0, 0, 4, 0, 2, 2), 1int, mono6(x1, y1, z1, x2, y2, z2, 0, 2, 0, 0, 1, 1));
    lemma_mono6_mul(x1, y1, z1, x2, y2, z2, 0, 0, 4, 0, 2, 2, 0, 2, 0, 0, 1, 1);
    lemma_coefficient_product(441int, mono6(x1, y1, z1, x2, y2, z2, 0, 0, 4, 0, 2, 2), 3int, mono6(x1, y1, z1, x2, y2, z2, 1, 1, 0, 2, 0, 0));
    lemma_mono6_mul(x1, y1, z1, x2, y2, z2, 0, 0, 4, 0, 2, 2, 1, 1, 0, 2, 0, 0);
    lemma_coefficient_product(441int, mono6(x1, y1, z1, x2, y2, z2, 0, 0, 4, 0, 2, 2), 3int, mono6(x1, y1, z1, x2, y2, z2, 2, 0, 0, 1, 1, 0));
    lemma_mono6_mul(x1, y1, z1, x2, y2, z2, 0, 0, 4, 0, 2, 2, 2, 0, 0, 1, 1, 0);
    lemma_mul_is_distributive_add((882int * mono6(x1, y1, z1, x2, y2, z2, 0, 1, 3, 0, 1, 3)), ((21int * mono6(x1, y1, z1, x2, y2, z2, 0, 0, 2, 0, 1, 1)) + ((21int * mono6(x1, y1, z1, x2, y2, z2, 0, 1, 1, 0, 0, 2)) + (1int * mono6(x1, y1, z1, x2, y2, z2, 0, 1, 1, 0, 2, 0)))), ((1int * mono6(x1, y1, z1, x2, y2, z2, 0, 2, 0, 0, 1, 1)) + ((3int * mono6(x1, y1, z1, x2, y2, z2, 1, 1, 0, 2, 0, 0)) + (3int * mono6(x1, y1, z1, x2, y2, z2, 2, 0, 0, 1, 1, 0)))));
    lemma_mul_is_distributive_add((882int * mono6(x1, y1, z1, x2, y2, z2, 0, 1, 3, 0, 1, 3)), (21int * mono6(x1, y1, z1, x2, y2, z2, 0, 0, 2, 0, 1, 1)), ((21int * mono6(x1, y1, z1, x2, y2, z2, 0, 1, 1, 0, 0, 2)) + (1int * mono6(x1, y1, z1, x2, y2, z2, 0, 1, 1, 0, 2, 0))));
    lemma_mul_is_distributive_add((882int * mono6(x1, y1, z1, x2, y2, z2, 0, 1, 3, 0, 1, 3)), (21int * mono6(x1, y1, z1, x2, y2, z2, 0, 1, 1, 0, 0, 2)), (1int * mono6(x1, y1, z1, x2, y2, z2, 0, 1, 1, 0, 2, 0)));
    lemma_mul_is_distributive_add((882int * mono6(x1, y1, z1, x2, y2, z2, 0, 1, 3, 0, 1, 3)), (1int * mono6(x1, y1, z1, x2, y2, z2, 0, 2, 0, 0, 1, 1)), ((3int * mono6(x1, y1, z1, x2, y2, z2, 1, 1, 0, 2, 0, 0)) + (3int * mono6(x1, y1, z1, x2, y2, z2, 2, 0, 0, 1, 1, 0))));
    lemma_mul_is_distributive_add((882int * mono6(x1, y1, z1, x2, y2, z2, 0, 1, 3, 0, 1, 3)), (3int * mono6(x1, y1, z1, x2, y2, z2, 1, 1, 0, 2, 0, 0)), (3int * mono6(x1, y1, z1, x2, y2, z2, 2, 0, 0, 1, 1, 0)));
    lemma_coefficient_product(882int, mono6(x1, y1, z1, x2, y2, z2, 0, 1, 3, 0, 1, 3), 21int, mono6(x1, y1, z1, x2, y2, z2, 0, 0, 2, 0, 1, 1));
    lemma_mono6_mul(x1, y1, z1, x2, y2, z2, 0, 1, 3, 0, 1, 3, 0, 0, 2, 0, 1, 1);
    lemma_coefficient_product(882int, mono6(x1, y1, z1, x2, y2, z2, 0, 1, 3, 0, 1, 3), 21int, mono6(x1, y1, z1, x2, y2, z2, 0, 1, 1, 0, 0, 2));
    lemma_mono6_mul(x1, y1, z1, x2, y2, z2, 0, 1, 3, 0, 1, 3, 0, 1, 1, 0, 0, 2);
    lemma_coefficient_product(882int, mono6(x1, y1, z1, x2, y2, z2, 0, 1, 3, 0, 1, 3), 1int, mono6(x1, y1, z1, x2, y2, z2, 0, 1, 1, 0, 2, 0));
    lemma_mono6_mul(x1, y1, z1, x2, y2, z2, 0, 1, 3, 0, 1, 3, 0, 1, 1, 0, 2, 0);
    lemma_coefficient_product(882int, mono6(x1, y1, z1, x2, y2, z2, 0, 1, 3, 0, 1, 3), 1int, mono6(x1, y1, z1, x2, y2, z2, 0, 2, 0, 0, 1, 1));
    lemma_mono6_mul(x1, y1, z1, x2, y2, z2, 0, 1, 3, 0, 1, 3, 0, 2, 0, 0, 1, 1);
    lemma_coefficient_product(882int, mono6(x1, y1, z1, x2, y2, z2, 0, 1, 3, 0, 1, 3), 3int, mono6(x1, y1, z1, x2, y2, z2, 1, 1, 0, 2, 0, 0));
    lemma_mono6_mul(x1, y1, z1, x2, y2, z2, 0, 1, 3, 0, 1, 3, 1, 1, 0, 2, 0, 0);
    lemma_coefficient_product(882int, mono6(x1, y1, z1, x2, y2, z2, 0, 1, 3, 0, 1, 3), 3int, mono6(x1, y1, z1, x2, y2, z2, 2, 0, 0, 1, 1, 0));
    lemma_mono6_mul(x1, y1, z1, x2, y2, z2, 0, 1, 3, 0, 1, 3, 2, 0, 0, 1, 1, 0);
    lemma_mul_is_distributive_add((42int * mono6(x1, y1, z1, x2, y2, z2, 0, 1, 3, 0, 3, 1)), ((21int * mono6(x1, y1, z1, x2, y2, z2, 0, 0, 2, 0, 1, 1)) + ((21int * mono6(x1, y1, z1, x2, y2, z2, 0, 1, 1, 0, 0, 2)) + (1int * mono6(x1, y1, z1, x2, y2, z2, 0, 1, 1, 0, 2, 0)))), ((1int * mono6(x1, y1, z1, x2, y2, z2, 0, 2, 0, 0, 1, 1)) + ((3int * mono6(x1, y1, z1, x2, y2, z2, 1, 1, 0, 2, 0, 0)) + (3int * mono6(x1, y1, z1, x2, y2, z2, 2, 0, 0, 1, 1, 0)))));
    lemma_mul_is_distributive_add((42int * mono6(x1, y1, z1, x2, y2, z2, 0, 1, 3, 0, 3, 1)), (21int * mono6(x1, y1, z1, x2, y2, z2, 0, 0, 2, 0, 1, 1)), ((21int * mono6(x1, y1, z1, x2, y2, z2, 0, 1, 1, 0, 0, 2)) + (1int * mono6(x1, y1, z1, x2, y2, z2, 0, 1, 1, 0, 2, 0))));
    lemma_mul_is_distributive_add((42int * mono6(x1, y1, z1, x2, y2, z2, 0, 1, 3, 0, 3, 1)), (21int * mono6(x1, y1, z1, x2, y2, z2, 0, 1, 1, 0, 0, 2)), (1int * mono6(x1, y1, z1, x2, y2, z2, 0, 1, 1, 0, 2, 0)));
    lemma_mul_is_distributive_add((42int * mono6(x1, y1, z1, x2, y2, z2, 0, 1, 3, 0, 3, 1)), (1int * mono6(x1, y1, z1, x2, y2, z2, 0, 2, 0, 0, 1, 1)), ((3int * mono6(x1, y1, z1, x2, y2, z2, 1, 1, 0, 2, 0, 0)) + (3int * mono6(x1, y1, z1, x2, y2, z2, 2, 0, 0, 1, 1, 0))));
    lemma_mul_is_distributive_add((42int * mono6(x1, y1, z1, x2, y2, z2, 0, 1, 3, 0, 3, 1)), (3int * mono6(x1, y1, z1, x2, y2, z2, 1, 1, 0, 2, 0, 0)), (3int * mono6(x1, y1, z1, x2, y2, z2, 2, 0, 0, 1, 1, 0)));
    lemma_coefficient_product(42int, mono6(x1, y1, z1, x2, y2, z2, 0, 1, 3, 0, 3, 1), 21int, mono6(x1, y1, z1, x2, y2, z2, 0, 0, 2, 0, 1, 1));
    lemma_mono6_mul(x1, y1, z1, x2, y2, z2, 0, 1, 3, 0, 3, 1, 0, 0, 2, 0, 1, 1);
    lemma_coefficient_product(42int, mono6(x1, y1, z1, x2, y2, z2, 0, 1, 3, 0, 3, 1), 21int, mono6(x1, y1, z1, x2, y2, z2, 0, 1, 1, 0, 0, 2));
    lemma_mono6_mul(x1, y1, z1, x2, y2, z2, 0, 1, 3, 0, 3, 1, 0, 1, 1, 0, 0, 2);
    lemma_coefficient_product(42int, mono6(x1, y1, z1, x2, y2, z2, 0, 1, 3, 0, 3, 1), 1int, mono6(x1, y1, z1, x2, y2, z2, 0, 1, 1, 0, 2, 0));
    lemma_mono6_mul(x1, y1, z1, x2, y2, z2, 0, 1, 3, 0, 3, 1, 0, 1, 1, 0, 2, 0);
    lemma_coefficient_product(42int, mono6(x1, y1, z1, x2, y2, z2, 0, 1, 3, 0, 3, 1), 1int, mono6(x1, y1, z1, x2, y2, z2, 0, 2, 0, 0, 1, 1));
    lemma_mono6_mul(x1, y1, z1, x2, y2, z2, 0, 1, 3, 0, 3, 1, 0, 2, 0, 0, 1, 1);
    lemma_coefficient_product(42int, mono6(x1, y1, z1, x2, y2, z2, 0, 1, 3, 0, 3, 1), 3int, mono6(x1, y1, z1, x2, y2, z2, 1, 1, 0, 2, 0, 0));
    lemma_mono6_mul(x1, y1, z1, x2, y2, z2, 0, 1, 3, 0, 3, 1, 1, 1, 0, 2, 0, 0);
    lemma_coefficient_product(42int, mono6(x1, y1, z1, x2, y2, z2, 0, 1, 3, 0, 3, 1), 3int, mono6(x1, y1, z1, x2, y2, z2, 2, 0, 0, 1, 1, 0));
    lemma_mono6_mul(x1, y1, z1, x2, y2, z2, 0, 1, 3, 0, 3, 1, 2, 0, 0, 1, 1, 0);
    lemma_mul_is_distributive_add((441int * mono6(x1, y1, z1, x2, y2, z2, 0, 2, 2, 0, 0, 4)), ((21int * mono6(x1, y1, z1, x2, y2, z2, 0, 0, 2, 0, 1, 1)) + ((21int * mono6(x1, y1, z1, x2, y2, z2, 0, 1, 1, 0, 0, 2)) + (1int * mono6(x1, y1, z1, x2, y2, z2, 0, 1, 1, 0, 2, 0)))), ((1int * mono6(x1, y1, z1, x2, y2, z2, 0, 2, 0, 0, 1, 1)) + ((3int * mono6(x1, y1, z1, x2, y2, z2, 1, 1, 0, 2, 0, 0)) + (3int * mono6(x1, y1, z1, x2, y2, z2, 2, 0, 0, 1, 1, 0)))));
    lemma_mul_is_distributive_add((441int * mono6(x1, y1, z1, x2, y2, z2, 0, 2, 2, 0, 0, 4)), (21int * mono6(x1, y1, z1, x2, y2, z2, 0, 0, 2, 0, 1, 1)), ((21int * mono6(x1, y1, z1, x2, y2, z2, 0, 1, 1, 0, 0, 2)) + (1int * mono6(x1, y1, z1, x2, y2, z2, 0, 1, 1, 0, 2, 0))));
    lemma_mul_is_distributive_add((441int * mono6(x1, y1, z1, x2, y2, z2, 0, 2, 2, 0, 0, 4)), (21int * mono6(x1, y1, z1, x2, y2, z2, 0, 1, 1, 0, 0, 2)), (1int * mono6(x1, y1, z1, x2, y2, z2, 0, 1, 1, 0, 2, 0)));
    lemma_mul_is_distributive_add((441int * mono6(x1, y1, z1, x2, y2, z2, 0, 2, 2, 0, 0, 4)), (1int * mono6(x1, y1, z1, x2, y2, z2, 0, 2, 0, 0, 1, 1)), ((3int * mono6(x1, y1, z1, x2, y2, z2, 1, 1, 0, 2, 0, 0)) + (3int * mono6(x1, y1, z1, x2, y2, z2, 2, 0, 0, 1, 1, 0))));
    lemma_mul_is_distributive_add((441int * mono6(x1, y1, z1, x2, y2, z2, 0, 2, 2, 0, 0, 4)), (3int * mono6(x1, y1, z1, x2, y2, z2, 1, 1, 0, 2, 0, 0)), (3int * mono6(x1, y1, z1, x2, y2, z2, 2, 0, 0, 1, 1, 0)));
    lemma_coefficient_product(441int, mono6(x1, y1, z1, x2, y2, z2, 0, 2, 2, 0, 0, 4), 21int, mono6(x1, y1, z1, x2, y2, z2, 0, 0, 2, 0, 1, 1));
    lemma_mono6_mul(x1, y1, z1, x2, y2, z2, 0, 2, 2, 0, 0, 4, 0, 0, 2, 0, 1, 1);
    lemma_coefficient_product(441int, mono6(x1, y1, z1, x2, y2, z2, 0, 2, 2, 0, 0, 4), 21int, mono6(x1, y1, z1, x2, y2, z2, 0, 1, 1, 0, 0, 2));
    lemma_mono6_mul(x1, y1, z1, x2, y2, z2, 0, 2, 2, 0, 0, 4, 0, 1, 1, 0, 0, 2);
    lemma_coefficient_product(441int, mono6(x1, y1, z1, x2, y2, z2, 0, 2, 2, 0, 0, 4), 1int, mono6(x1, y1, z1, x2, y2, z2, 0, 1, 1, 0, 2, 0));
    lemma_mono6_mul(x1, y1, z1, x2, y2, z2, 0, 2, 2, 0, 0, 4, 0, 1, 1, 0, 2, 0);
    lemma_coefficient_product(441int, mono6(x1, y1, z1, x2, y2, z2, 0, 2, 2, 0, 0, 4), 1int, mono6(x1, y1, z1, x2, y2, z2, 0, 2, 0, 0, 1, 1));
    lemma_mono6_mul(x1, y1, z1, x2, y2, z2, 0, 2, 2, 0, 0, 4, 0, 2, 0, 0, 1, 1);
    lemma_coefficient_product(441int, mono6(x1, y1, z1, x2, y2, z2, 0, 2, 2, 0, 0, 4), 3int, mono6(x1, y1, z1, x2, y2, z2, 1, 1, 0, 2, 0, 0));
    lemma_mono6_mul(x1, y1, z1, x2, y2, z2, 0, 2, 2, 0, 0, 4, 1, 1, 0, 2, 0, 0);
    lemma_coefficient_product(441int, mono6(x1, y1, z1, x2, y2, z2, 0, 2, 2, 0, 0, 4), 3int, mono6(x1, y1, z1, x2, y2, z2, 2, 0, 0, 1, 1, 0));
    lemma_mono6_mul(x1, y1, z1, x2, y2, z2, 0, 2, 2, 0, 0, 4, 2, 0, 0, 1, 1, 0);
    lemma_mul_is_distributive_add((84int * mono6(x1, y1, z1, x2, y2, z2, 0, 2, 2, 0, 2, 2)), ((21int * mono6(x1, y1, z1, x2, y2, z2, 0, 0, 2, 0, 1, 1)) + ((21int * mono6(x1, y1, z1, x2, y2, z2, 0, 1, 1, 0, 0, 2)) + (1int * mono6(x1, y1, z1, x2, y2, z2, 0, 1, 1, 0, 2, 0)))), ((1int * mono6(x1, y1, z1, x2, y2, z2, 0, 2, 0, 0, 1, 1)) + ((3int * mono6(x1, y1, z1, x2, y2, z2, 1, 1, 0, 2, 0, 0)) + (3int * mono6(x1, y1, z1, x2, y2, z2, 2, 0, 0, 1, 1, 0)))));
    lemma_mul_is_distributive_add((84int * mono6(x1, y1, z1, x2, y2, z2, 0, 2, 2, 0, 2, 2)), (21int * mono6(x1, y1, z1, x2, y2, z2, 0, 0, 2, 0, 1, 1)), ((21int * mono6(x1, y1, z1, x2, y2, z2, 0, 1, 1, 0, 0, 2)) + (1int * mono6(x1, y1, z1, x2, y2, z2, 0, 1, 1, 0, 2, 0))));
    lemma_mul_is_distributive_add((84int * mono6(x1, y1, z1, x2, y2, z2, 0, 2, 2, 0, 2, 2)), (21int * mono6(x1, y1, z1, x2, y2, z2, 0, 1, 1, 0, 0, 2)), (1int * mono6(x1, y1, z1, x2, y2, z2, 0, 1, 1, 0, 2, 0)));
    lemma_mul_is_distributive_add((84int * mono6(x1, y1, z1, x2, y2, z2, 0, 2, 2, 0, 2, 2)), (1int * mono6(x1, y1, z1, x2, y2, z2, 0, 2, 0, 0, 1, 1)), ((3int * mono6(x1, y1, z1, x2, y2, z2, 1, 1, 0, 2, 0, 0)) + (3int * mono6(x1, y1, z1, x2, y2, z2, 2, 0, 0, 1, 1, 0))));
    lemma_mul_is_distributive_add((84int * mono6(x1, y1, z1, x2, y2, z2, 0, 2, 2, 0, 2, 2)), (3int * mono6(x1, y1, z1, x2, y2, z2, 1, 1, 0, 2, 0, 0)), (3int * mono6(x1, y1, z1, x2, y2, z2, 2, 0, 0, 1, 1, 0)));
    lemma_coefficient_product(84int, mono6(x1, y1, z1, x2, y2, z2, 0, 2, 2, 0, 2, 2), 21int, mono6(x1, y1, z1, x2, y2, z2, 0, 0, 2, 0, 1, 1));
    lemma_mono6_mul(x1, y1, z1, x2, y2, z2, 0, 2, 2, 0, 2, 2, 0, 0, 2, 0, 1, 1);
    lemma_coefficient_product(84int, mono6(x1, y1, z1, x2, y2, z2, 0, 2, 2, 0, 2, 2), 21int, mono6(x1, y1, z1, x2, y2, z2, 0, 1, 1, 0, 0, 2));
    lemma_mono6_mul(x1, y1, z1, x2, y2, z2, 0, 2, 2, 0, 2, 2, 0, 1, 1, 0, 0, 2);
    lemma_coefficient_product(84int, mono6(x1, y1, z1, x2, y2, z2, 0, 2, 2, 0, 2, 2), 1int, mono6(x1, y1, z1, x2, y2, z2, 0, 1, 1, 0, 2, 0));
    lemma_mono6_mul(x1, y1, z1, x2, y2, z2, 0, 2, 2, 0, 2, 2, 0, 1, 1, 0, 2, 0);
    lemma_coefficient_product(84int, mono6(x1, y1, z1, x2, y2, z2, 0, 2, 2, 0, 2, 2), 1int, mono6(x1, y1, z1, x2, y2, z2, 0, 2, 0, 0, 1, 1));
    lemma_mono6_mul(x1, y1, z1, x2, y2, z2, 0, 2, 2, 0, 2, 2, 0, 2, 0, 0, 1, 1);
    lemma_coefficient_product(84int, mono6(x1, y1, z1, x2, y2, z2, 0, 2, 2, 0, 2, 2), 3int, mono6(x1, y1, z1, x2, y2, z2, 1, 1, 0, 2, 0, 0));
    lemma_mono6_mul(x1, y1, z1, x2, y2, z2, 0, 2, 2, 0, 2, 2, 1, 1, 0, 2, 0, 0);
    lemma_coefficient_product(84int, mono6(x1, y1, z1, x2, y2, z2, 0, 2, 2, 0, 2, 2), 3int, mono6(x1, y1, z1, x2, y2, z2, 2, 0, 0, 1, 1, 0));
    lemma_mono6_mul(x1, y1, z1, x2, y2, z2, 0, 2, 2, 0, 2, 2, 2, 0, 0, 1, 1, 0);
    lemma_mul_is_distributive_add((1int * mono6(x1, y1, z1, x2, y2, z2, 0, 2, 2, 0, 4, 0)), ((21int * mono6(x1, y1, z1, x2, y2, z2, 0, 0, 2, 0, 1, 1)) + ((21int * mono6(x1, y1, z1, x2, y2, z2, 0, 1, 1, 0, 0, 2)) + (1int * mono6(x1, y1, z1, x2, y2, z2, 0, 1, 1, 0, 2, 0)))), ((1int * mono6(x1, y1, z1, x2, y2, z2, 0, 2, 0, 0, 1, 1)) + ((3int * mono6(x1, y1, z1, x2, y2, z2, 1, 1, 0, 2, 0, 0)) + (3int * mono6(x1, y1, z1, x2, y2, z2, 2, 0, 0, 1, 1, 0)))));
    lemma_mul_is_distributive_add((1int * mono6(x1, y1, z1, x2, y2, z2, 0, 2, 2, 0, 4, 0)), (21int * mono6(x1, y1, z1, x2, y2, z2, 0, 0, 2, 0, 1, 1)), ((21int * mono6(x1, y1, z1, x2, y2, z2, 0, 1, 1, 0, 0, 2)) + (1int * mono6(x1, y1, z1, x2, y2, z2, 0, 1, 1, 0, 2, 0))));
    lemma_mul_is_distributive_add((1int * mono6(x1, y1, z1, x2, y2, z2, 0, 2, 2, 0, 4, 0)), (21int * mono6(x1, y1, z1, x2, y2, z2, 0, 1, 1, 0, 0, 2)), (1int * mono6(x1, y1, z1, x2, y2, z2, 0, 1, 1, 0, 2, 0)));
    lemma_mul_is_distributive_add((1int * mono6(x1, y1, z1, x2, y2, z2, 0, 2, 2, 0, 4, 0)), (1int * mono6(x1, y1, z1, x2, y2, z2, 0, 2, 0, 0, 1, 1)), ((3int * mono6(x1, y1, z1, x2, y2, z2, 1, 1, 0, 2, 0, 0)) + (3int * mono6(x1, y1, z1, x2, y2, z2, 2, 0, 0, 1, 1, 0))));
    lemma_mul_is_distributive_add((1int * mono6(x1, y1, z1, x2, y2, z2, 0, 2, 2, 0, 4, 0)), (3int * mono6(x1, y1, z1, x2, y2, z2, 1, 1, 0, 2, 0, 0)), (3int * mono6(x1, y1, z1, x2, y2, z2, 2, 0, 0, 1, 1, 0)));
    lemma_coefficient_product(1int, mono6(x1, y1, z1, x2, y2, z2, 0, 2, 2, 0, 4, 0), 21int, mono6(x1, y1, z1, x2, y2, z2, 0, 0, 2, 0, 1, 1));
    lemma_mono6_mul(x1, y1, z1, x2, y2, z2, 0, 2, 2, 0, 4, 0, 0, 0, 2, 0, 1, 1);
    lemma_coefficient_product(1int, mono6(x1, y1, z1, x2, y2, z2, 0, 2, 2, 0, 4, 0), 21int, mono6(x1, y1, z1, x2, y2, z2, 0, 1, 1, 0, 0, 2));
    lemma_mono6_mul(x1, y1, z1, x2, y2, z2, 0, 2, 2, 0, 4, 0, 0, 1, 1, 0, 0, 2);
    lemma_coefficient_product(1int, mono6(x1, y1, z1, x2, y2, z2, 0, 2, 2, 0, 4, 0), 1int, mono6(x1, y1, z1, x2, y2, z2, 0, 1, 1, 0, 2, 0));
    lemma_mono6_mul(x1, y1, z1, x2, y2, z2, 0, 2, 2, 0, 4, 0, 0, 1, 1, 0, 2, 0);
    lemma_coefficient_product(1int, mono6(x1, y1, z1, x2, y2, z2, 0, 2, 2, 0, 4, 0), 1int, mono6(x1, y1, z1, x2, y2, z2, 0, 2, 0, 0, 1, 1));
    lemma_mono6_mul(x1, y1, z1, x2, y2, z2, 0, 2, 2, 0, 4, 0, 0, 2, 0, 0, 1, 1);
    lemma_coefficient_product(1int, mono6(x1, y1, z1, x2, y2, z2, 0, 2, 2, 0, 4, 0), 3int, mono6(x1, y1, z1, x2, y2, z2, 1, 1, 0, 2, 0, 0));
    lemma_mono6_mul(x1, y1, z1, x2, y2, z2, 0, 2, 2, 0, 4, 0, 1, 1, 0, 2, 0, 0);
    lemma_coefficient_product(1int, mono6(x1, y1, z1, x2, y2, z2, 0, 2, 2, 0, 4, 0), 3int, mono6(x1, y1, z1, x2, y2, z2, 2, 0, 0, 1, 1, 0));
    lemma_mono6_mul(x1, y1, z1, x2, y2, z2, 0, 2, 2, 0, 4, 0, 2, 0, 0, 1, 1, 0);
    lemma_mul_is_distributive_add((42int * mono6(x1, y1, z1, x2, y2, z2, 0, 3, 1, 0, 1, 3)), ((21int * mono6(x1, y1, z1, x2, y2, z2, 0, 0, 2, 0, 1, 1)) + ((21int * mono6(x1, y1, z1, x2, y2, z2, 0, 1, 1, 0, 0, 2)) + (1int * mono6(x1, y1, z1, x2, y2, z2, 0, 1, 1, 0, 2, 0)))), ((1int * mono6(x1, y1, z1, x2, y2, z2, 0, 2, 0, 0, 1, 1)) + ((3int * mono6(x1, y1, z1, x2, y2, z2, 1, 1, 0, 2, 0, 0)) + (3int * mono6(x1, y1, z1, x2, y2, z2, 2, 0, 0, 1, 1, 0)))));
    lemma_mul_is_distributive_add((42int * mono6(x1, y1, z1, x2, y2, z2, 0, 3, 1, 0, 1, 3)), (21int * mono6(x1, y1, z1, x2, y2, z2, 0, 0, 2, 0, 1, 1)), ((21int * mono6(x1, y1, z1, x2, y2, z2, 0, 1, 1, 0, 0, 2)) + (1int * mono6(x1, y1, z1, x2, y2, z2, 0, 1, 1, 0, 2, 0))));
    lemma_mul_is_distributive_add((42int * mono6(x1, y1, z1, x2, y2, z2, 0, 3, 1, 0, 1, 3)), (21int * mono6(x1, y1, z1, x2, y2, z2, 0, 1, 1, 0, 0, 2)), (1int * mono6(x1, y1, z1, x2, y2, z2, 0, 1, 1, 0, 2, 0)));
    lemma_mul_is_distributive_add((42int * mono6(x1, y1, z1, x2, y2, z2, 0, 3, 1, 0, 1, 3)), (1int * mono6(x1, y1, z1, x2, y2, z2, 0, 2, 0, 0, 1, 1)), ((3int * mono6(x1, y1, z1, x2, y2, z2, 1, 1, 0, 2, 0, 0)) + (3int * mono6(x1, y1, z1, x2, y2, z2, 2, 0, 0, 1, 1, 0))));
    lemma_mul_is_distributive_add((42int * mono6(x1, y1, z1, x2, y2, z2, 0, 3, 1, 0, 1, 3)), (3int * mono6(x1, y1, z1, x2, y2, z2, 1, 1, 0, 2, 0, 0)), (3int * mono6(x1, y1, z1, x2, y2, z2, 2, 0, 0, 1, 1, 0)));
    lemma_coefficient_product(42int, mono6(x1, y1, z1, x2, y2, z2, 0, 3, 1, 0, 1, 3), 21int, mono6(x1, y1, z1, x2, y2, z2, 0, 0, 2, 0, 1, 1));
    lemma_mono6_mul(x1, y1, z1, x2, y2, z2, 0, 3, 1, 0, 1, 3, 0, 0, 2, 0, 1, 1);
    lemma_coefficient_product(42int, mono6(x1, y1, z1, x2, y2, z2, 0, 3, 1, 0, 1, 3), 21int, mono6(x1, y1, z1, x2, y2, z2, 0, 1, 1, 0, 0, 2));
    lemma_mono6_mul(x1, y1, z1, x2, y2, z2, 0, 3, 1, 0, 1, 3, 0, 1, 1, 0, 0, 2);
    lemma_coefficient_product(42int, mono6(x1, y1, z1, x2, y2, z2, 0, 3, 1, 0, 1, 3), 1int, mono6(x1, y1, z1, x2, y2, z2, 0, 1, 1, 0, 2, 0));
    lemma_mono6_mul(x1, y1, z1, x2, y2, z2, 0, 3, 1, 0, 1, 3, 0, 1, 1, 0, 2, 0);
    lemma_coefficient_product(42int, mono6(x1, y1, z1, x2, y2, z2, 0, 3, 1, 0, 1, 3), 1int, mono6(x1, y1, z1, x2, y2, z2, 0, 2, 0, 0, 1, 1));
    lemma_mono6_mul(x1, y1, z1, x2, y2, z2, 0, 3, 1, 0, 1, 3, 0, 2, 0, 0, 1, 1);
    lemma_coefficient_product(42int, mono6(x1, y1, z1, x2, y2, z2, 0, 3, 1, 0, 1, 3), 3int, mono6(x1, y1, z1, x2, y2, z2, 1, 1, 0, 2, 0, 0));
    lemma_mono6_mul(x1, y1, z1, x2, y2, z2, 0, 3, 1, 0, 1, 3, 1, 1, 0, 2, 0, 0);
    lemma_coefficient_product(42int, mono6(x1, y1, z1, x2, y2, z2, 0, 3, 1, 0, 1, 3), 3int, mono6(x1, y1, z1, x2, y2, z2, 2, 0, 0, 1, 1, 0));
    lemma_mono6_mul(x1, y1, z1, x2, y2, z2, 0, 3, 1, 0, 1, 3, 2, 0, 0, 1, 1, 0);
    lemma_mul_is_distributive_add((2int * mono6(x1, y1, z1, x2, y2, z2, 0, 3, 1, 0, 3, 1)), ((21int * mono6(x1, y1, z1, x2, y2, z2, 0, 0, 2, 0, 1, 1)) + ((21int * mono6(x1, y1, z1, x2, y2, z2, 0, 1, 1, 0, 0, 2)) + (1int * mono6(x1, y1, z1, x2, y2, z2, 0, 1, 1, 0, 2, 0)))), ((1int * mono6(x1, y1, z1, x2, y2, z2, 0, 2, 0, 0, 1, 1)) + ((3int * mono6(x1, y1, z1, x2, y2, z2, 1, 1, 0, 2, 0, 0)) + (3int * mono6(x1, y1, z1, x2, y2, z2, 2, 0, 0, 1, 1, 0)))));
    lemma_mul_is_distributive_add((2int * mono6(x1, y1, z1, x2, y2, z2, 0, 3, 1, 0, 3, 1)), (21int * mono6(x1, y1, z1, x2, y2, z2, 0, 0, 2, 0, 1, 1)), ((21int * mono6(x1, y1, z1, x2, y2, z2, 0, 1, 1, 0, 0, 2)) + (1int * mono6(x1, y1, z1, x2, y2, z2, 0, 1, 1, 0, 2, 0))));
    lemma_mul_is_distributive_add((2int * mono6(x1, y1, z1, x2, y2, z2, 0, 3, 1, 0, 3, 1)), (21int * mono6(x1, y1, z1, x2, y2, z2, 0, 1, 1, 0, 0, 2)), (1int * mono6(x1, y1, z1, x2, y2, z2, 0, 1, 1, 0, 2, 0)));
    lemma_mul_is_distributive_add((2int * mono6(x1, y1, z1, x2, y2, z2, 0, 3, 1, 0, 3, 1)), (1int * mono6(x1, y1, z1, x2, y2, z2, 0, 2, 0, 0, 1, 1)), ((3int * mono6(x1, y1, z1, x2, y2, z2, 1, 1, 0, 2, 0, 0)) + (3int * mono6(x1, y1, z1, x2, y2, z2, 2, 0, 0, 1, 1, 0))));
    lemma_mul_is_distributive_add((2int * mono6(x1, y1, z1, x2, y2, z2, 0, 3, 1, 0, 3, 1)), (3int * mono6(x1, y1, z1, x2, y2, z2, 1, 1, 0, 2, 0, 0)), (3int * mono6(x1, y1, z1, x2, y2, z2, 2, 0, 0, 1, 1, 0)));
    lemma_coefficient_product(2int, mono6(x1, y1, z1, x2, y2, z2, 0, 3, 1, 0, 3, 1), 21int, mono6(x1, y1, z1, x2, y2, z2, 0, 0, 2, 0, 1, 1));
    lemma_mono6_mul(x1, y1, z1, x2, y2, z2, 0, 3, 1, 0, 3, 1, 0, 0, 2, 0, 1, 1);
    lemma_coefficient_product(2int, mono6(x1, y1, z1, x2, y2, z2, 0, 3, 1, 0, 3, 1), 21int, mono6(x1, y1, z1, x2, y2, z2, 0, 1, 1, 0, 0, 2));
    lemma_mono6_mul(x1, y1, z1, x2, y2, z2, 0, 3, 1, 0, 3, 1, 0, 1, 1, 0, 0, 2);
    lemma_coefficient_product(2int, mono6(x1, y1, z1, x2, y2, z2, 0, 3, 1, 0, 3, 1), 1int, mono6(x1, y1, z1, x2, y2, z2, 0, 1, 1, 0, 2, 0));
    lemma_mono6_mul(x1, y1, z1, x2, y2, z2, 0, 3, 1, 0, 3, 1, 0, 1, 1, 0, 2, 0);
    lemma_coefficient_product(2int, mono6(x1, y1, z1, x2, y2, z2, 0, 3, 1, 0, 3, 1), 1int, mono6(x1, y1, z1, x2, y2, z2, 0, 2, 0, 0, 1, 1));
    lemma_mono6_mul(x1, y1, z1, x2, y2, z2, 0, 3, 1, 0, 3, 1, 0, 2, 0, 0, 1, 1);
    lemma_coefficient_product(2int, mono6(x1, y1, z1, x2, y2, z2, 0, 3, 1, 0, 3, 1), 3int, mono6(x1, y1, z1, x2, y2, z2, 1, 1, 0, 2, 0, 0));
    lemma_mono6_mul(x1, y1, z1, x2, y2, z2, 0, 3, 1, 0, 3, 1, 1, 1, 0, 2, 0, 0);
    lemma_coefficient_product(2int, mono6(x1, y1, z1, x2, y2, z2, 0, 3, 1, 0, 3, 1), 3int, mono6(x1, y1, z1, x2, y2, z2, 2, 0, 0, 1, 1, 0));
    lemma_mono6_mul(x1, y1, z1, x2, y2, z2, 0, 3, 1, 0, 3, 1, 2, 0, 0, 1, 1, 0);
    lemma_mul_is_distributive_add((1int * mono6(x1, y1, z1, x2, y2, z2, 0, 4, 0, 0, 2, 2)), ((21int * mono6(x1, y1, z1, x2, y2, z2, 0, 0, 2, 0, 1, 1)) + ((21int * mono6(x1, y1, z1, x2, y2, z2, 0, 1, 1, 0, 0, 2)) + (1int * mono6(x1, y1, z1, x2, y2, z2, 0, 1, 1, 0, 2, 0)))), ((1int * mono6(x1, y1, z1, x2, y2, z2, 0, 2, 0, 0, 1, 1)) + ((3int * mono6(x1, y1, z1, x2, y2, z2, 1, 1, 0, 2, 0, 0)) + (3int * mono6(x1, y1, z1, x2, y2, z2, 2, 0, 0, 1, 1, 0)))));
    lemma_mul_is_distributive_add((1int * mono6(x1, y1, z1, x2, y2, z2, 0, 4, 0, 0, 2, 2)), (21int * mono6(x1, y1, z1, x2, y2, z2, 0, 0, 2, 0, 1, 1)), ((21int * mono6(x1, y1, z1, x2, y2, z2, 0, 1, 1, 0, 0, 2)) + (1int * mono6(x1, y1, z1, x2, y2, z2, 0, 1, 1, 0, 2, 0))));
    lemma_mul_is_distributive_add((1int * mono6(x1, y1, z1, x2, y2, z2, 0, 4, 0, 0, 2, 2)), (21int * mono6(x1, y1, z1, x2, y2, z2, 0, 1, 1, 0, 0, 2)), (1int * mono6(x1, y1, z1, x2, y2, z2, 0, 1, 1, 0, 2, 0)));
    lemma_mul_is_distributive_add((1int * mono6(x1, y1, z1, x2, y2, z2, 0, 4, 0, 0, 2, 2)), (1int * mono6(x1, y1, z1, x2, y2, z2, 0, 2, 0, 0, 1, 1)), ((3int * mono6(x1, y1, z1, x2, y2, z2, 1, 1, 0, 2, 0, 0)) + (3int * mono6(x1, y1, z1, x2, y2, z2, 2, 0, 0, 1, 1, 0))));
    lemma_mul_is_distributive_add((1int * mono6(x1, y1, z1, x2, y2, z2, 0, 4, 0, 0, 2, 2)), (3int * mono6(x1, y1, z1, x2, y2, z2, 1, 1, 0, 2, 0, 0)), (3int * mono6(x1, y1, z1, x2, y2, z2, 2, 0, 0, 1, 1, 0)));
    lemma_coefficient_product(1int, mono6(x1, y1, z1, x2, y2, z2, 0, 4, 0, 0, 2, 2), 21int, mono6(x1, y1, z1, x2, y2, z2, 0, 0, 2, 0, 1, 1));
    lemma_mono6_mul(x1, y1, z1, x2, y2, z2, 0, 4, 0, 0, 2, 2, 0, 0, 2, 0, 1, 1);
    lemma_coefficient_product(1int, mono6(x1, y1, z1, x2, y2, z2, 0, 4, 0, 0, 2, 2), 21int, mono6(x1, y1, z1, x2, y2, z2, 0, 1, 1, 0, 0, 2));
    lemma_mono6_mul(x1, y1, z1, x2, y2, z2, 0, 4, 0, 0, 2, 2, 0, 1, 1, 0, 0, 2);
    lemma_coefficient_product(1int, mono6(x1, y1, z1, x2, y2, z2, 0, 4, 0, 0, 2, 2), 1int, mono6(x1, y1, z1, x2, y2, z2, 0, 1, 1, 0, 2, 0));
    lemma_mono6_mul(x1, y1, z1, x2, y2, z2, 0, 4, 0, 0, 2, 2, 0, 1, 1, 0, 2, 0);
    lemma_coefficient_product(1int, mono6(x1, y1, z1, x2, y2, z2, 0, 4, 0, 0, 2, 2), 1int, mono6(x1, y1, z1, x2, y2, z2, 0, 2, 0, 0, 1, 1));
    lemma_mono6_mul(x1, y1, z1, x2, y2, z2, 0, 4, 0, 0, 2, 2, 0, 2, 0, 0, 1, 1);
    lemma_coefficient_product(1int, mono6(x1, y1, z1, x2, y2, z2, 0, 4, 0, 0, 2, 2), 3int, mono6(x1, y1, z1, x2, y2, z2, 1, 1, 0, 2, 0, 0));
    lemma_mono6_mul(x1, y1, z1, x2, y2, z2, 0, 4, 0, 0, 2, 2, 1, 1, 0, 2, 0, 0);
    lemma_coefficient_product(1int, mono6(x1, y1, z1, x2, y2, z2, 0, 4, 0, 0, 2, 2), 3int, mono6(x1, y1, z1, x2, y2, z2, 2, 0, 0, 1, 1, 0));
    lemma_mono6_mul(x1, y1, z1, x2, y2, z2, 0, 4, 0, 0, 2, 2, 2, 0, 0, 1, 1, 0);
    lemma_mul_is_distributive_add((126int * mono6(x1, y1, z1, x2, y2, z2, 1, 1, 2, 2, 1, 1)), ((21int * mono6(x1, y1, z1, x2, y2, z2, 0, 0, 2, 0, 1, 1)) + ((21int * mono6(x1, y1, z1, x2, y2, z2, 0, 1, 1, 0, 0, 2)) + (1int * mono6(x1, y1, z1, x2, y2, z2, 0, 1, 1, 0, 2, 0)))), ((1int * mono6(x1, y1, z1, x2, y2, z2, 0, 2, 0, 0, 1, 1)) + ((3int * mono6(x1, y1, z1, x2, y2, z2, 1, 1, 0, 2, 0, 0)) + (3int * mono6(x1, y1, z1, x2, y2, z2, 2, 0, 0, 1, 1, 0)))));
    lemma_mul_is_distributive_add((126int * mono6(x1, y1, z1, x2, y2, z2, 1, 1, 2, 2, 1, 1)), (21int * mono6(x1, y1, z1, x2, y2, z2, 0, 0, 2, 0, 1, 1)), ((21int * mono6(x1, y1, z1, x2, y2, z2, 0, 1, 1, 0, 0, 2)) + (1int * mono6(x1, y1, z1, x2, y2, z2, 0, 1, 1, 0, 2, 0))));
    lemma_mul_is_distributive_add((126int * mono6(x1, y1, z1, x2, y2, z2, 1, 1, 2, 2, 1, 1)), (21int * mono6(x1, y1, z1, x2, y2, z2, 0, 1, 1, 0, 0, 2)), (1int * mono6(x1, y1, z1, x2, y2, z2, 0, 1, 1, 0, 2, 0)));
    lemma_mul_is_distributive_add((126int * mono6(x1, y1, z1, x2, y2, z2, 1, 1, 2, 2, 1, 1)), (1int * mono6(x1, y1, z1, x2, y2, z2, 0, 2, 0, 0, 1, 1)), ((3int * mono6(x1, y1, z1, x2, y2, z2, 1, 1, 0, 2, 0, 0)) + (3int * mono6(x1, y1, z1, x2, y2, z2, 2, 0, 0, 1, 1, 0))));
    lemma_mul_is_distributive_add((126int * mono6(x1, y1, z1, x2, y2, z2, 1, 1, 2, 2, 1, 1)), (3int * mono6(x1, y1, z1, x2, y2, z2, 1, 1, 0, 2, 0, 0)), (3int * mono6(x1, y1, z1, x2, y2, z2, 2, 0, 0, 1, 1, 0)));
    lemma_coefficient_product(126int, mono6(x1, y1, z1, x2, y2, z2, 1, 1, 2, 2, 1, 1), 21int, mono6(x1, y1, z1, x2, y2, z2, 0, 0, 2, 0, 1, 1));
    lemma_mono6_mul(x1, y1, z1, x2, y2, z2, 1, 1, 2, 2, 1, 1, 0, 0, 2, 0, 1, 1);
    lemma_coefficient_product(126int, mono6(x1, y1, z1, x2, y2, z2, 1, 1, 2, 2, 1, 1), 21int, mono6(x1, y1, z1, x2, y2, z2, 0, 1, 1, 0, 0, 2));
    lemma_mono6_mul(x1, y1, z1, x2, y2, z2, 1, 1, 2, 2, 1, 1, 0, 1, 1, 0, 0, 2);
    lemma_coefficient_product(126int, mono6(x1, y1, z1, x2, y2, z2, 1, 1, 2, 2, 1, 1), 1int, mono6(x1, y1, z1, x2, y2, z2, 0, 1, 1, 0, 2, 0));
    lemma_mono6_mul(x1, y1, z1, x2, y2, z2, 1, 1, 2, 2, 1, 1, 0, 1, 1, 0, 2, 0);
    lemma_coefficient_product(126int, mono6(x1, y1, z1, x2, y2, z2, 1, 1, 2, 2, 1, 1), 1int, mono6(x1, y1, z1, x2, y2, z2, 0, 2, 0, 0, 1, 1));
    lemma_mono6_mul(x1, y1, z1, x2, y2, z2, 1, 1, 2, 2, 1, 1, 0, 2, 0, 0, 1, 1);
    lemma_coefficient_product(126int, mono6(x1, y1, z1, x2, y2, z2, 1, 1, 2, 2, 1, 1), 3int, mono6(x1, y1, z1, x2, y2, z2, 1, 1, 0, 2, 0, 0));
    lemma_mono6_mul(x1, y1, z1, x2, y2, z2, 1, 1, 2, 2, 1, 1, 1, 1, 0, 2, 0, 0);
    lemma_coefficient_product(126int, mono6(x1, y1, z1, x2, y2, z2, 1, 1, 2, 2, 1, 1), 3int, mono6(x1, y1, z1, x2, y2, z2, 2, 0, 0, 1, 1, 0));
    lemma_mono6_mul(x1, y1, z1, x2, y2, z2, 1, 1, 2, 2, 1, 1, 2, 0, 0, 1, 1, 0);
    lemma_mul_is_distributive_add((126int * mono6(x1, y1, z1, x2, y2, z2, 1, 2, 1, 2, 0, 2)), ((21int * mono6(x1, y1, z1, x2, y2, z2, 0, 0, 2, 0, 1, 1)) + ((21int * mono6(x1, y1, z1, x2, y2, z2, 0, 1, 1, 0, 0, 2)) + (1int * mono6(x1, y1, z1, x2, y2, z2, 0, 1, 1, 0, 2, 0)))), ((1int * mono6(x1, y1, z1, x2, y2, z2, 0, 2, 0, 0, 1, 1)) + ((3int * mono6(x1, y1, z1, x2, y2, z2, 1, 1, 0, 2, 0, 0)) + (3int * mono6(x1, y1, z1, x2, y2, z2, 2, 0, 0, 1, 1, 0)))));
    lemma_mul_is_distributive_add((126int * mono6(x1, y1, z1, x2, y2, z2, 1, 2, 1, 2, 0, 2)), (21int * mono6(x1, y1, z1, x2, y2, z2, 0, 0, 2, 0, 1, 1)), ((21int * mono6(x1, y1, z1, x2, y2, z2, 0, 1, 1, 0, 0, 2)) + (1int * mono6(x1, y1, z1, x2, y2, z2, 0, 1, 1, 0, 2, 0))));
    lemma_mul_is_distributive_add((126int * mono6(x1, y1, z1, x2, y2, z2, 1, 2, 1, 2, 0, 2)), (21int * mono6(x1, y1, z1, x2, y2, z2, 0, 1, 1, 0, 0, 2)), (1int * mono6(x1, y1, z1, x2, y2, z2, 0, 1, 1, 0, 2, 0)));
    lemma_mul_is_distributive_add((126int * mono6(x1, y1, z1, x2, y2, z2, 1, 2, 1, 2, 0, 2)), (1int * mono6(x1, y1, z1, x2, y2, z2, 0, 2, 0, 0, 1, 1)), ((3int * mono6(x1, y1, z1, x2, y2, z2, 1, 1, 0, 2, 0, 0)) + (3int * mono6(x1, y1, z1, x2, y2, z2, 2, 0, 0, 1, 1, 0))));
    lemma_mul_is_distributive_add((126int * mono6(x1, y1, z1, x2, y2, z2, 1, 2, 1, 2, 0, 2)), (3int * mono6(x1, y1, z1, x2, y2, z2, 1, 1, 0, 2, 0, 0)), (3int * mono6(x1, y1, z1, x2, y2, z2, 2, 0, 0, 1, 1, 0)));
    lemma_coefficient_product(126int, mono6(x1, y1, z1, x2, y2, z2, 1, 2, 1, 2, 0, 2), 21int, mono6(x1, y1, z1, x2, y2, z2, 0, 0, 2, 0, 1, 1));
    lemma_mono6_mul(x1, y1, z1, x2, y2, z2, 1, 2, 1, 2, 0, 2, 0, 0, 2, 0, 1, 1);
    lemma_coefficient_product(126int, mono6(x1, y1, z1, x2, y2, z2, 1, 2, 1, 2, 0, 2), 21int, mono6(x1, y1, z1, x2, y2, z2, 0, 1, 1, 0, 0, 2));
    lemma_mono6_mul(x1, y1, z1, x2, y2, z2, 1, 2, 1, 2, 0, 2, 0, 1, 1, 0, 0, 2);
    lemma_coefficient_product(126int, mono6(x1, y1, z1, x2, y2, z2, 1, 2, 1, 2, 0, 2), 1int, mono6(x1, y1, z1, x2, y2, z2, 0, 1, 1, 0, 2, 0));
    lemma_mono6_mul(x1, y1, z1, x2, y2, z2, 1, 2, 1, 2, 0, 2, 0, 1, 1, 0, 2, 0);
    lemma_coefficient_product(126int, mono6(x1, y1, z1, x2, y2, z2, 1, 2, 1, 2, 0, 2), 1int, mono6(x1, y1, z1, x2, y2, z2, 0, 2, 0, 0, 1, 1));
    lemma_mono6_mul(x1, y1, z1, x2, y2, z2, 1, 2, 1, 2, 0, 2, 0, 2, 0, 0, 1, 1);
    lemma_coefficient_product(126int, mono6(x1, y1, z1, x2, y2, z2, 1, 2, 1, 2, 0, 2), 3int, mono6(x1, y1, z1, x2, y2, z2, 1, 1, 0, 2, 0, 0));
    lemma_mono6_mul(x1, y1, z1, x2, y2, z2, 1, 2, 1, 2, 0, 2, 1, 1, 0, 2, 0, 0);
    lemma_coefficient_product(126int, mono6(x1, y1, z1, x2, y2, z2, 1, 2, 1, 2, 0, 2), 3int, mono6(x1, y1, z1, x2, y2, z2, 2, 0, 0, 1, 1, 0));
    lemma_mono6_mul(x1, y1, z1, x2, y2, z2, 1, 2, 1, 2, 0, 2, 2, 0, 0, 1, 1, 0);
    lemma_mul_is_distributive_add((6int * mono6(x1, y1, z1, x2, y2, z2, 1, 2, 1, 2, 2, 0)), ((21int * mono6(x1, y1, z1, x2, y2, z2, 0, 0, 2, 0, 1, 1)) + ((21int * mono6(x1, y1, z1, x2, y2, z2, 0, 1, 1, 0, 0, 2)) + (1int * mono6(x1, y1, z1, x2, y2, z2, 0, 1, 1, 0, 2, 0)))), ((1int * mono6(x1, y1, z1, x2, y2, z2, 0, 2, 0, 0, 1, 1)) + ((3int * mono6(x1, y1, z1, x2, y2, z2, 1, 1, 0, 2, 0, 0)) + (3int * mono6(x1, y1, z1, x2, y2, z2, 2, 0, 0, 1, 1, 0)))));
    lemma_mul_is_distributive_add((6int * mono6(x1, y1, z1, x2, y2, z2, 1, 2, 1, 2, 2, 0)), (21int * mono6(x1, y1, z1, x2, y2, z2, 0, 0, 2, 0, 1, 1)), ((21int * mono6(x1, y1, z1, x2, y2, z2, 0, 1, 1, 0, 0, 2)) + (1int * mono6(x1, y1, z1, x2, y2, z2, 0, 1, 1, 0, 2, 0))));
    lemma_mul_is_distributive_add((6int * mono6(x1, y1, z1, x2, y2, z2, 1, 2, 1, 2, 2, 0)), (21int * mono6(x1, y1, z1, x2, y2, z2, 0, 1, 1, 0, 0, 2)), (1int * mono6(x1, y1, z1, x2, y2, z2, 0, 1, 1, 0, 2, 0)));
    lemma_mul_is_distributive_add((6int * mono6(x1, y1, z1, x2, y2, z2, 1, 2, 1, 2, 2, 0)), (1int * mono6(x1, y1, z1, x2, y2, z2, 0, 2, 0, 0, 1, 1)), ((3int * mono6(x1, y1, z1, x2, y2, z2, 1, 1, 0, 2, 0, 0)) + (3int * mono6(x1, y1, z1, x2, y2, z2, 2, 0, 0, 1, 1, 0))));
    lemma_mul_is_distributive_add((6int * mono6(x1, y1, z1, x2, y2, z2, 1, 2, 1, 2, 2, 0)), (3int * mono6(x1, y1, z1, x2, y2, z2, 1, 1, 0, 2, 0, 0)), (3int * mono6(x1, y1, z1, x2, y2, z2, 2, 0, 0, 1, 1, 0)));
    lemma_coefficient_product(6int, mono6(x1, y1, z1, x2, y2, z2, 1, 2, 1, 2, 2, 0), 21int, mono6(x1, y1, z1, x2, y2, z2, 0, 0, 2, 0, 1, 1));
    lemma_mono6_mul(x1, y1, z1, x2, y2, z2, 1, 2, 1, 2, 2, 0, 0, 0, 2, 0, 1, 1);
    lemma_coefficient_product(6int, mono6(x1, y1, z1, x2, y2, z2, 1, 2, 1, 2, 2, 0), 21int, mono6(x1, y1, z1, x2, y2, z2, 0, 1, 1, 0, 0, 2));
    lemma_mono6_mul(x1, y1, z1, x2, y2, z2, 1, 2, 1, 2, 2, 0, 0, 1, 1, 0, 0, 2);
    lemma_coefficient_product(6int, mono6(x1, y1, z1, x2, y2, z2, 1, 2, 1, 2, 2, 0), 1int, mono6(x1, y1, z1, x2, y2, z2, 0, 1, 1, 0, 2, 0));
    lemma_mono6_mul(x1, y1, z1, x2, y2, z2, 1, 2, 1, 2, 2, 0, 0, 1, 1, 0, 2, 0);
    lemma_coefficient_product(6int, mono6(x1, y1, z1, x2, y2, z2, 1, 2, 1, 2, 2, 0), 1int, mono6(x1, y1, z1, x2, y2, z2, 0, 2, 0, 0, 1, 1));
    lemma_mono6_mul(x1, y1, z1, x2, y2, z2, 1, 2, 1, 2, 2, 0, 0, 2, 0, 0, 1, 1);
    lemma_coefficient_product(6int, mono6(x1, y1, z1, x2, y2, z2, 1, 2, 1, 2, 2, 0), 3int, mono6(x1, y1, z1, x2, y2, z2, 1, 1, 0, 2, 0, 0));
    lemma_mono6_mul(x1, y1, z1, x2, y2, z2, 1, 2, 1, 2, 2, 0, 1, 1, 0, 2, 0, 0);
    lemma_coefficient_product(6int, mono6(x1, y1, z1, x2, y2, z2, 1, 2, 1, 2, 2, 0), 3int, mono6(x1, y1, z1, x2, y2, z2, 2, 0, 0, 1, 1, 0));
    lemma_mono6_mul(x1, y1, z1, x2, y2, z2, 1, 2, 1, 2, 2, 0, 2, 0, 0, 1, 1, 0);
    lemma_mul_is_distributive_add((6int * mono6(x1, y1, z1, x2, y2, z2, 1, 3, 0, 2, 1, 1)), ((21int * mono6(x1, y1, z1, x2, y2, z2, 0, 0, 2, 0, 1, 1)) + ((21int * mono6(x1, y1, z1, x2, y2, z2, 0, 1, 1, 0, 0, 2)) + (1int * mono6(x1, y1, z1, x2, y2, z2, 0, 1, 1, 0, 2, 0)))), ((1int * mono6(x1, y1, z1, x2, y2, z2, 0, 2, 0, 0, 1, 1)) + ((3int * mono6(x1, y1, z1, x2, y2, z2, 1, 1, 0, 2, 0, 0)) + (3int * mono6(x1, y1, z1, x2, y2, z2, 2, 0, 0, 1, 1, 0)))));
    lemma_mul_is_distributive_add((6int * mono6(x1, y1, z1, x2, y2, z2, 1, 3, 0, 2, 1, 1)), (21int * mono6(x1, y1, z1, x2, y2, z2, 0, 0, 2, 0, 1, 1)), ((21int * mono6(x1, y1, z1, x2, y2, z2, 0, 1, 1, 0, 0, 2)) + (1int * mono6(x1, y1, z1, x2, y2, z2, 0, 1, 1, 0, 2, 0))));
    lemma_mul_is_distributive_add((6int * mono6(x1, y1, z1, x2, y2, z2, 1, 3, 0, 2, 1, 1)), (21int * mono6(x1, y1, z1, x2, y2, z2, 0, 1, 1, 0, 0, 2)), (1int * mono6(x1, y1, z1, x2, y2, z2, 0, 1, 1, 0, 2, 0)));
    lemma_mul_is_distributive_add((6int * mono6(x1, y1, z1, x2, y2, z2, 1, 3, 0, 2, 1, 1)), (1int * mono6(x1, y1, z1, x2, y2, z2, 0, 2, 0, 0, 1, 1)), ((3int * mono6(x1, y1, z1, x2, y2, z2, 1, 1, 0, 2, 0, 0)) + (3int * mono6(x1, y1, z1, x2, y2, z2, 2, 0, 0, 1, 1, 0))));
    lemma_mul_is_distributive_add((6int * mono6(x1, y1, z1, x2, y2, z2, 1, 3, 0, 2, 1, 1)), (3int * mono6(x1, y1, z1, x2, y2, z2, 1, 1, 0, 2, 0, 0)), (3int * mono6(x1, y1, z1, x2, y2, z2, 2, 0, 0, 1, 1, 0)));
    lemma_coefficient_product(6int, mono6(x1, y1, z1, x2, y2, z2, 1, 3, 0, 2, 1, 1), 21int, mono6(x1, y1, z1, x2, y2, z2, 0, 0, 2, 0, 1, 1));
    lemma_mono6_mul(x1, y1, z1, x2, y2, z2, 1, 3, 0, 2, 1, 1, 0, 0, 2, 0, 1, 1);
    lemma_coefficient_product(6int, mono6(x1, y1, z1, x2, y2, z2, 1, 3, 0, 2, 1, 1), 21int, mono6(x1, y1, z1, x2, y2, z2, 0, 1, 1, 0, 0, 2));
    lemma_mono6_mul(x1, y1, z1, x2, y2, z2, 1, 3, 0, 2, 1, 1, 0, 1, 1, 0, 0, 2);
    lemma_coefficient_product(6int, mono6(x1, y1, z1, x2, y2, z2, 1, 3, 0, 2, 1, 1), 1int, mono6(x1, y1, z1, x2, y2, z2, 0, 1, 1, 0, 2, 0));
    lemma_mono6_mul(x1, y1, z1, x2, y2, z2, 1, 3, 0, 2, 1, 1, 0, 1, 1, 0, 2, 0);
    lemma_coefficient_product(6int, mono6(x1, y1, z1, x2, y2, z2, 1, 3, 0, 2, 1, 1), 1int, mono6(x1, y1, z1, x2, y2, z2, 0, 2, 0, 0, 1, 1));
    lemma_mono6_mul(x1, y1, z1, x2, y2, z2, 1, 3, 0, 2, 1, 1, 0, 2, 0, 0, 1, 1);
    lemma_coefficient_product(6int, mono6(x1, y1, z1, x2, y2, z2, 1, 3, 0, 2, 1, 1), 3int, mono6(x1, y1, z1, x2, y2, z2, 1, 1, 0, 2, 0, 0));
    lemma_mono6_mul(x1, y1, z1, x2, y2, z2, 1, 3, 0, 2, 1, 1, 1, 1, 0, 2, 0, 0);
    lemma_coefficient_product(6int, mono6(x1, y1, z1, x2, y2, z2, 1, 3, 0, 2, 1, 1), 3int, mono6(x1, y1, z1, x2, y2, z2, 2, 0, 0, 1, 1, 0));
    lemma_mono6_mul(x1, y1, z1, x2, y2, z2, 1, 3, 0, 2, 1, 1, 2, 0, 0, 1, 1, 0);
    lemma_mul_is_distributive_add((126int * mono6(x1, y1, z1, x2, y2, z2, 2, 0, 2, 1, 2, 1)), ((21int * mono6(x1, y1, z1, x2, y2, z2, 0, 0, 2, 0, 1, 1)) + ((21int * mono6(x1, y1, z1, x2, y2, z2, 0, 1, 1, 0, 0, 2)) + (1int * mono6(x1, y1, z1, x2, y2, z2, 0, 1, 1, 0, 2, 0)))), ((1int * mono6(x1, y1, z1, x2, y2, z2, 0, 2, 0, 0, 1, 1)) + ((3int * mono6(x1, y1, z1, x2, y2, z2, 1, 1, 0, 2, 0, 0)) + (3int * mono6(x1, y1, z1, x2, y2, z2, 2, 0, 0, 1, 1, 0)))));
    lemma_mul_is_distributive_add((126int * mono6(x1, y1, z1, x2, y2, z2, 2, 0, 2, 1, 2, 1)), (21int * mono6(x1, y1, z1, x2, y2, z2, 0, 0, 2, 0, 1, 1)), ((21int * mono6(x1, y1, z1, x2, y2, z2, 0, 1, 1, 0, 0, 2)) + (1int * mono6(x1, y1, z1, x2, y2, z2, 0, 1, 1, 0, 2, 0))));
    lemma_mul_is_distributive_add((126int * mono6(x1, y1, z1, x2, y2, z2, 2, 0, 2, 1, 2, 1)), (21int * mono6(x1, y1, z1, x2, y2, z2, 0, 1, 1, 0, 0, 2)), (1int * mono6(x1, y1, z1, x2, y2, z2, 0, 1, 1, 0, 2, 0)));
    lemma_mul_is_distributive_add((126int * mono6(x1, y1, z1, x2, y2, z2, 2, 0, 2, 1, 2, 1)), (1int * mono6(x1, y1, z1, x2, y2, z2, 0, 2, 0, 0, 1, 1)), ((3int * mono6(x1, y1, z1, x2, y2, z2, 1, 1, 0, 2, 0, 0)) + (3int * mono6(x1, y1, z1, x2, y2, z2, 2, 0, 0, 1, 1, 0))));
    lemma_mul_is_distributive_add((126int * mono6(x1, y1, z1, x2, y2, z2, 2, 0, 2, 1, 2, 1)), (3int * mono6(x1, y1, z1, x2, y2, z2, 1, 1, 0, 2, 0, 0)), (3int * mono6(x1, y1, z1, x2, y2, z2, 2, 0, 0, 1, 1, 0)));
    lemma_coefficient_product(126int, mono6(x1, y1, z1, x2, y2, z2, 2, 0, 2, 1, 2, 1), 21int, mono6(x1, y1, z1, x2, y2, z2, 0, 0, 2, 0, 1, 1));
    lemma_mono6_mul(x1, y1, z1, x2, y2, z2, 2, 0, 2, 1, 2, 1, 0, 0, 2, 0, 1, 1);
    lemma_coefficient_product(126int, mono6(x1, y1, z1, x2, y2, z2, 2, 0, 2, 1, 2, 1), 21int, mono6(x1, y1, z1, x2, y2, z2, 0, 1, 1, 0, 0, 2));
    lemma_mono6_mul(x1, y1, z1, x2, y2, z2, 2, 0, 2, 1, 2, 1, 0, 1, 1, 0, 0, 2);
    lemma_coefficient_product(126int, mono6(x1, y1, z1, x2, y2, z2, 2, 0, 2, 1, 2, 1), 1int, mono6(x1, y1, z1, x2, y2, z2, 0, 1, 1, 0, 2, 0));
    lemma_mono6_mul(x1, y1, z1, x2, y2, z2, 2, 0, 2, 1, 2, 1, 0, 1, 1, 0, 2, 0);
    lemma_coefficient_product(126int, mono6(x1, y1, z1, x2, y2, z2, 2, 0, 2, 1, 2, 1), 1int, mono6(x1, y1, z1, x2, y2, z2, 0, 2, 0, 0, 1, 1));
    lemma_mono6_mul(x1, y1, z1, x2, y2, z2, 2, 0, 2, 1, 2, 1, 0, 2, 0, 0, 1, 1);
    lemma_coefficient_product(126int, mono6(x1, y1, z1, x2, y2, z2, 2, 0, 2, 1, 2, 1), 3int, mono6(x1, y1, z1, x2, y2, z2, 1, 1, 0, 2, 0, 0));
    lemma_mono6_mul(x1, y1, z1, x2, y2, z2, 2, 0, 2, 1, 2, 1, 1, 1, 0, 2, 0, 0);
    lemma_coefficient_product(126int, mono6(x1, y1, z1, x2, y2, z2, 2, 0, 2, 1, 2, 1), 3int, mono6(x1, y1, z1, x2, y2, z2, 2, 0, 0, 1, 1, 0));
    lemma_mono6_mul(x1, y1, z1, x2, y2, z2, 2, 0, 2, 1, 2, 1, 2, 0, 0, 1, 1, 0);
    lemma_mul_is_distributive_add((126int * mono6(x1, y1, z1, x2, y2, z2, 2, 1, 1, 1, 1, 2)), ((21int * mono6(x1, y1, z1, x2, y2, z2, 0, 0, 2, 0, 1, 1)) + ((21int * mono6(x1, y1, z1, x2, y2, z2, 0, 1, 1, 0, 0, 2)) + (1int * mono6(x1, y1, z1, x2, y2, z2, 0, 1, 1, 0, 2, 0)))), ((1int * mono6(x1, y1, z1, x2, y2, z2, 0, 2, 0, 0, 1, 1)) + ((3int * mono6(x1, y1, z1, x2, y2, z2, 1, 1, 0, 2, 0, 0)) + (3int * mono6(x1, y1, z1, x2, y2, z2, 2, 0, 0, 1, 1, 0)))));
    lemma_mul_is_distributive_add((126int * mono6(x1, y1, z1, x2, y2, z2, 2, 1, 1, 1, 1, 2)), (21int * mono6(x1, y1, z1, x2, y2, z2, 0, 0, 2, 0, 1, 1)), ((21int * mono6(x1, y1, z1, x2, y2, z2, 0, 1, 1, 0, 0, 2)) + (1int * mono6(x1, y1, z1, x2, y2, z2, 0, 1, 1, 0, 2, 0))));
    lemma_mul_is_distributive_add((126int * mono6(x1, y1, z1, x2, y2, z2, 2, 1, 1, 1, 1, 2)), (21int * mono6(x1, y1, z1, x2, y2, z2, 0, 1, 1, 0, 0, 2)), (1int * mono6(x1, y1, z1, x2, y2, z2, 0, 1, 1, 0, 2, 0)));
    lemma_mul_is_distributive_add((126int * mono6(x1, y1, z1, x2, y2, z2, 2, 1, 1, 1, 1, 2)), (1int * mono6(x1, y1, z1, x2, y2, z2, 0, 2, 0, 0, 1, 1)), ((3int * mono6(x1, y1, z1, x2, y2, z2, 1, 1, 0, 2, 0, 0)) + (3int * mono6(x1, y1, z1, x2, y2, z2, 2, 0, 0, 1, 1, 0))));
    lemma_mul_is_distributive_add((126int * mono6(x1, y1, z1, x2, y2, z2, 2, 1, 1, 1, 1, 2)), (3int * mono6(x1, y1, z1, x2, y2, z2, 1, 1, 0, 2, 0, 0)), (3int * mono6(x1, y1, z1, x2, y2, z2, 2, 0, 0, 1, 1, 0)));
    lemma_coefficient_product(126int, mono6(x1, y1, z1, x2, y2, z2, 2, 1, 1, 1, 1, 2), 21int, mono6(x1, y1, z1, x2, y2, z2, 0, 0, 2, 0, 1, 1));
    lemma_mono6_mul(x1, y1, z1, x2, y2, z2, 2, 1, 1, 1, 1, 2, 0, 0, 2, 0, 1, 1);
    lemma_coefficient_product(126int, mono6(x1, y1, z1, x2, y2, z2, 2, 1, 1, 1, 1, 2), 21int, mono6(x1, y1, z1, x2, y2, z2, 0, 1, 1, 0, 0, 2));
    lemma_mono6_mul(x1, y1, z1, x2, y2, z2, 2, 1, 1, 1, 1, 2, 0, 1, 1, 0, 0, 2);
    lemma_coefficient_product(126int, mono6(x1, y1, z1, x2, y2, z2, 2, 1, 1, 1, 1, 2), 1int, mono6(x1, y1, z1, x2, y2, z2, 0, 1, 1, 0, 2, 0));
    lemma_mono6_mul(x1, y1, z1, x2, y2, z2, 2, 1, 1, 1, 1, 2, 0, 1, 1, 0, 2, 0);
    lemma_coefficient_product(126int, mono6(x1, y1, z1, x2, y2, z2, 2, 1, 1, 1, 1, 2), 1int, mono6(x1, y1, z1, x2, y2, z2, 0, 2, 0, 0, 1, 1));
    lemma_mono6_mul(x1, y1, z1, x2, y2, z2, 2, 1, 1, 1, 1, 2, 0, 2, 0, 0, 1, 1);
    lemma_coefficient_product(126int, mono6(x1, y1, z1, x2, y2, z2, 2, 1, 1, 1, 1, 2), 3int, mono6(x1, y1, z1, x2, y2, z2, 1, 1, 0, 2, 0, 0));
    lemma_mono6_mul(x1, y1, z1, x2, y2, z2, 2, 1, 1, 1, 1, 2, 1, 1, 0, 2, 0, 0);
    lemma_coefficient_product(126int, mono6(x1, y1, z1, x2, y2, z2, 2, 1, 1, 1, 1, 2), 3int, mono6(x1, y1, z1, x2, y2, z2, 2, 0, 0, 1, 1, 0));
    lemma_mono6_mul(x1, y1, z1, x2, y2, z2, 2, 1, 1, 1, 1, 2, 2, 0, 0, 1, 1, 0);
    lemma_mul_is_distributive_add((6int * mono6(x1, y1, z1, x2, y2, z2, 2, 1, 1, 1, 3, 0)), ((21int * mono6(x1, y1, z1, x2, y2, z2, 0, 0, 2, 0, 1, 1)) + ((21int * mono6(x1, y1, z1, x2, y2, z2, 0, 1, 1, 0, 0, 2)) + (1int * mono6(x1, y1, z1, x2, y2, z2, 0, 1, 1, 0, 2, 0)))), ((1int * mono6(x1, y1, z1, x2, y2, z2, 0, 2, 0, 0, 1, 1)) + ((3int * mono6(x1, y1, z1, x2, y2, z2, 1, 1, 0, 2, 0, 0)) + (3int * mono6(x1, y1, z1, x2, y2, z2, 2, 0, 0, 1, 1, 0)))));
    lemma_mul_is_distributive_add((6int * mono6(x1, y1, z1, x2, y2, z2, 2, 1, 1, 1, 3, 0)), (21int * mono6(x1, y1, z1, x2, y2, z2, 0, 0, 2, 0, 1, 1)), ((21int * mono6(x1, y1, z1, x2, y2, z2, 0, 1, 1, 0, 0, 2)) + (1int * mono6(x1, y1, z1, x2, y2, z2, 0, 1, 1, 0, 2, 0))));
    lemma_mul_is_distributive_add((6int * mono6(x1, y1, z1, x2, y2, z2, 2, 1, 1, 1, 3, 0)), (21int * mono6(x1, y1, z1, x2, y2, z2, 0, 1, 1, 0, 0, 2)), (1int * mono6(x1, y1, z1, x2, y2, z2, 0, 1, 1, 0, 2, 0)));
    lemma_mul_is_distributive_add((6int * mono6(x1, y1, z1, x2, y2, z2, 2, 1, 1, 1, 3, 0)), (1int * mono6(x1, y1, z1, x2, y2, z2, 0, 2, 0, 0, 1, 1)), ((3int * mono6(x1, y1, z1, x2, y2, z2, 1, 1, 0, 2, 0, 0)) + (3int * mono6(x1, y1, z1, x2, y2, z2, 2, 0, 0, 1, 1, 0))));
    lemma_mul_is_distributive_add((6int * mono6(x1, y1, z1, x2, y2, z2, 2, 1, 1, 1, 3, 0)), (3int * mono6(x1, y1, z1, x2, y2, z2, 1, 1, 0, 2, 0, 0)), (3int * mono6(x1, y1, z1, x2, y2, z2, 2, 0, 0, 1, 1, 0)));
    lemma_coefficient_product(6int, mono6(x1, y1, z1, x2, y2, z2, 2, 1, 1, 1, 3, 0), 21int, mono6(x1, y1, z1, x2, y2, z2, 0, 0, 2, 0, 1, 1));
    lemma_mono6_mul(x1, y1, z1, x2, y2, z2, 2, 1, 1, 1, 3, 0, 0, 0, 2, 0, 1, 1);
    lemma_coefficient_product(6int, mono6(x1, y1, z1, x2, y2, z2, 2, 1, 1, 1, 3, 0), 21int, mono6(x1, y1, z1, x2, y2, z2, 0, 1, 1, 0, 0, 2));
    lemma_mono6_mul(x1, y1, z1, x2, y2, z2, 2, 1, 1, 1, 3, 0, 0, 1, 1, 0, 0, 2);
    lemma_coefficient_product(6int, mono6(x1, y1, z1, x2, y2, z2, 2, 1, 1, 1, 3, 0), 1int, mono6(x1, y1, z1, x2, y2, z2, 0, 1, 1, 0, 2, 0));
    lemma_mono6_mul(x1, y1, z1, x2, y2, z2, 2, 1, 1, 1, 3, 0, 0, 1, 1, 0, 2, 0);
    lemma_coefficient_product(6int, mono6(x1, y1, z1, x2, y2, z2, 2, 1, 1, 1, 3, 0), 1int, mono6(x1, y1, z1, x2, y2, z2, 0, 2, 0, 0, 1, 1));
    lemma_mono6_mul(x1, y1, z1, x2, y2, z2, 2, 1, 1, 1, 3, 0, 0, 2, 0, 0, 1, 1);
    lemma_coefficient_product(6int, mono6(x1, y1, z1, x2, y2, z2, 2, 1, 1, 1, 3, 0), 3int, mono6(x1, y1, z1, x2, y2, z2, 1, 1, 0, 2, 0, 0));
    lemma_mono6_mul(x1, y1, z1, x2, y2, z2, 2, 1, 1, 1, 3, 0, 1, 1, 0, 2, 0, 0);
    lemma_coefficient_product(6int, mono6(x1, y1, z1, x2, y2, z2, 2, 1, 1, 1, 3, 0), 3int, mono6(x1, y1, z1, x2, y2, z2, 2, 0, 0, 1, 1, 0));
    lemma_mono6_mul(x1, y1, z1, x2, y2, z2, 2, 1, 1, 1, 3, 0, 2, 0, 0, 1, 1, 0);
}

proof fn lemma_add_curve_identity_part3_mul_4(x1: int, y1: int, z1: int, x2: int, y2: int, z2: int)
    ensures
        (((6int * mono6(x1, y1, z1, x2, y2, z2, 2, 2, 0, 1, 2, 1)) + (9int * mono6(x1, y1, z1, x2, y2, z2, 2, 2, 0, 4, 0, 0))) + ((18int * mono6(x1, y1, z1, x2, y2, z2, 3, 1, 0, 3, 1, 0)) + (9int * mono6(x1, y1, z1, x2, y2, z2, 4, 0, 0, 2, 2, 0)))) * (((21int * mono6(x1, y1, z1, x2, y2, z2, 0, 0, 2, 0, 1, 1)) + ((21int * mono6(x1, y1, z1, x2, y2, z2, 0, 1, 1, 0, 0, 2)) + (1int * mono6(x1, y1, z1, x2, y2, z2, 0, 1, 1, 0, 2, 0)))) + ((1int * mono6(x1, y1, z1, x2, y2, z2, 0, 2, 0, 0, 1, 1)) + ((3int * mono6(x1, y1, z1, x2, y2, z2, 1, 1, 0, 2, 0, 0)) + (3int * mono6(x1, y1, z1, x2, y2, z2, 2, 0, 0, 1, 1, 0))))) == (((((126int * mono6(x1, y1, z1, x2, y2, z2, 2, 2, 2, 1, 3, 2)) + (189int * mono6(x1, y1, z1, x2, y2, z2, 2, 2, 2, 4, 1, 1))) + ((126int * mono6(x1, y1, z1, x2, y2, z2, 2, 3, 1, 1, 2, 3)) + ((6int * mono6(x1, y1, z1, x2, y2, z2, 2, 3, 1, 1, 4, 1)) + (189int * mono6(x1, y1, z1, x2, y2, z2, 2, 3, 1, 4, 0, 2))))) + (((9int * mono6(x1, y1, z1, x2, y2, z2, 2, 3, 1, 4, 2, 0)) + (6int * mono6(x1, y1, z1, x2, y2, z2, 2, 4, 0, 1, 3, 2))) + ((9int * mono6(x1, y1, z1, x2, y2, z2, 2, 4, 0, 4, 1, 1)) + ((378int * mono6(x1, y1, z1, x2, y2, z2, 3, 1, 2, 3, 2, 1)) + (378int * mono6(x1, y1, z1, x2, y2, z2, 3, 2, 1, 3, 1, 2)))))) + ((((18int * mono6(x1, y1, z1, x2, y2, z2, 3, 2, 1, 3, 3, 0)) + (36int * mono6(x1, y1, z1, x2, y2, z2, 3, 3, 0, 3, 2, 1))) + ((27int * mono6(x1, y1, z1, x2, y2, z2, 3, 3, 0, 6, 0, 0)) + ((189int * mono6(x1, y1, z1, x2, y2, z2, 4, 0, 2, 2, 3, 1)) + (189int * mono6(x1, y1, z1, x2, y2, z2, 4, 1, 1, 2, 2, 2))))) + (((9int * mono6(x1, y1, z1, x2, y2, z2, 4, 1, 1, 2, 4, 0)) + (27int * mono6(x1, y1, z1, x2, y2, z2, 4, 2, 0, 2, 3, 1))) + ((81int * mono6(x1, y1, z1, x2, y2, z2, 4, 2, 0, 5, 1, 0)) + ((81int * mono6(x1, y1, z1, x2, y2, z2, 5, 1, 0, 4, 2, 0)) + (27int * mono6(x1, y1, z1, x2, y2, z2, 6, 0, 0, 3, 3, 0))))))),
{
    lemma_mono6_vars(x1, y1, z1, x2, y2, z2);
    lemma_mul_is_distributive_add_other_way((((21int * mono6(x1, y1, z1, x2, y2, z2, 0, 0, 2, 0, 1, 1)) + ((21int * mono6(x1, y1, z1, x2, y2, z2, 0, 1, 1, 0, 0, 2)) + (1int * mono6(x1, y1, z1, x2, y2, z2, 0, 1, 1, 0, 2, 0)))) + ((1int * mono6(x1, y1, z1, x2, y2, z2, 0, 2, 0, 0, 1, 1)) + ((3int * mono6(x1, y1, z1, x2, y2, z2, 1, 1, 0, 2, 0, 0)) + (3int * mono6(x1, y1, z1, x2, y2, z2, 2, 0, 0, 1, 1, 0))))), ((6int * mono6(x1, y1, z1, x2, y2, z2, 2, 2, 0, 1, 2, 1)) + (9int * mono6(x1, y1, z1, x2, y2, z2, 2, 2, 0, 4, 0, 0))), ((18int * mono6(x1, y1, z1, x2, y2, z2, 3, 1, 0, 3, 1, 0)) + (9int * mono6(x1, y1, z1, x2, y2, z2, 4, 0, 0, 2, 2, 0))));
    lemma_mul_is_distributive_add_other_way((((21int * mono6(x1, y1, z1, x2, y2, z2, 0, 0, 2, 0, 1, 1)) + ((21int * mono6(x1, y1, z1, x2, y2, z2, 0, 1, 1, 0, 0, 2)) + (1int * mono6(x1, y1, z1, x2, y2, z2, 0, 1, 1, 0, 2, 0)))) + ((1int * mono6(x1, y1, z1, x2, y2, z2, 0, 2, 0, 0, 1, 1)) + ((3int * mono6(x1, y1, z1, x2, y2, z2, 1, 1, 0, 2, 0, 0)) + (3int * mono6(x1, y1, z1, x2, y2, z2, 2, 0, 0, 1, 1, 0))))), (6int * mono6(x1, y1, z1, x2, y2, z2, 2, 2, 0, 1, 2, 1)), (9int * mono6(x1, y1, z1, x2, y2, z2, 2, 2, 0, 4, 0, 0)));
    lemma_mul_is_distributive_add_other_way((((21int * mono6(x1, y1, z1, x2, y2, z2, 0, 0, 2, 0, 1, 1)) + ((21int * mono6(x1, y1, z1, x2, y2, z2, 0, 1, 1, 0, 0, 2)) + (1int * mono6(x1, y1, z1, x2, y2, z2, 0, 1, 1, 0, 2, 0)))) + ((1int * mono6(x1, y1, z1, x2, y2, z2, 0, 2, 0, 0, 1, 1)) + ((3int * mono6(x1, y1, z1, x2, y2, z2, 1, 1, 0, 2, 0, 0)) + (3int * mono6(x1, y1, z1, x2, y2, z2, 2, 0, 0, 1, 1, 0))))), (18int * mono6(x1, y1, z1, x2, y2, z2, 3, 1, 0, 3, 1, 0)), (9int * mono6(x1, y1, z1, x2, y2, z2, 4, 0, 0, 2, 2, 0)));
    lemma_mul_is_distributive_add((6int * mono6(x1, y1, z1, x2, y2, z2, 2, 2, 0, 1, 2, 1)), ((21int * mono6(x1, y1, z1, x2, y2, z2, 0, 0, 2, 0, 1, 1)) + ((21int * mono6(x1, y1, z1, x2, y2, z2, 0, 1, 1, 0, 0, 2)) + (1int * mono6(x1, y1, z1, x2, y2, z2, 0, 1, 1, 0, 2, 0)))), ((1int * mono6(x1, y1, z1, x2, y2, z2, 0, 2, 0, 0, 1, 1)) + ((3int * mono6(x1, y1, z1, x2, y2, z2, 1, 1, 0, 2, 0, 0)) + (3int * mono6(x1, y1, z1, x2, y2, z2, 2, 0, 0, 1, 1, 0)))));
    lemma_mul_is_distributive_add((6int * mono6(x1, y1, z1, x2, y2, z2, 2, 2, 0, 1, 2, 1)), (21int * mono6(x1, y1, z1, x2, y2, z2, 0, 0, 2, 0, 1, 1)), ((21int * mono6(x1, y1, z1, x2, y2, z2, 0, 1, 1, 0, 0, 2)) + (1int * mono6(x1, y1, z1, x2, y2, z2, 0, 1, 1, 0, 2, 0))));
    lemma_mul_is_distributive_add((6int * mono6(x1, y1, z1, x2, y2, z2, 2, 2, 0, 1, 2, 1)), (21int * mono6(x1, y1, z1, x2, y2, z2, 0, 1, 1, 0, 0, 2)), (1int * mono6(x1, y1, z1, x2, y2, z2, 0, 1, 1, 0, 2, 0)));
    lemma_mul_is_distributive_add((6int * mono6(x1, y1, z1, x2, y2, z2, 2, 2, 0, 1, 2, 1)), (1int * mono6(x1, y1, z1, x2, y2, z2, 0, 2, 0, 0, 1, 1)), ((3int * mono6(x1, y1, z1, x2, y2, z2, 1, 1, 0, 2, 0, 0)) + (3int * mono6(x1, y1, z1, x2, y2, z2, 2, 0, 0, 1, 1, 0))));
    lemma_mul_is_distributive_add((6int * mono6(x1, y1, z1, x2, y2, z2, 2, 2, 0, 1, 2, 1)), (3int * mono6(x1, y1, z1, x2, y2, z2, 1, 1, 0, 2, 0, 0)), (3int * mono6(x1, y1, z1, x2, y2, z2, 2, 0, 0, 1, 1, 0)));
    lemma_coefficient_product(6int, mono6(x1, y1, z1, x2, y2, z2, 2, 2, 0, 1, 2, 1), 21int, mono6(x1, y1, z1, x2, y2, z2, 0, 0, 2, 0, 1, 1));
    lemma_mono6_mul(x1, y1, z1, x2, y2, z2, 2, 2, 0, 1, 2, 1, 0, 0, 2, 0, 1, 1);
    lemma_coefficient_product(6int, mono6(x1, y1, z1, x2, y2, z2, 2, 2, 0, 1, 2, 1), 21int, mono6(x1, y1, z1, x2, y2, z2, 0, 1, 1, 0, 0, 2));
    lemma_mono6_mul(x1, y1, z1, x2, y2, z2, 2, 2, 0, 1, 2, 1, 0, 1, 1, 0, 0, 2);
    lemma_coefficient_product(6int, mono6(x1, y1, z1, x2, y2, z2, 2, 2, 0, 1, 2, 1), 1int, mono6(x1, y1, z1, x2, y2, z2, 0, 1, 1, 0, 2, 0));
    lemma_mono6_mul(x1, y1, z1, x2, y2, z2, 2, 2, 0, 1, 2, 1, 0, 1, 1, 0, 2, 0);
    lemma_coefficient_product(6int, mono6(x1, y1, z1, x2, y2, z2, 2, 2, 0, 1, 2, 1), 1int, mono6(x1, y1, z1, x2, y2, z2, 0, 2, 0, 0, 1, 1));
    lemma_mono6_mul(x1, y1, z1, x2, y2, z2, 2, 2, 0, 1, 2, 1, 0, 2, 0, 0, 1, 1);
    lemma_coefficient_product(6int, mono6(x1, y1, z1, x2, y2, z2, 2, 2, 0, 1, 2, 1), 3int, mono6(x1, y1, z1, x2, y2, z2, 1, 1, 0, 2, 0, 0));
    lemma_mono6_mul(x1, y1, z1, x2, y2, z2, 2, 2, 0, 1, 2, 1, 1, 1, 0, 2, 0, 0);
    lemma_coefficient_product(6int, mono6(x1, y1, z1, x2, y2, z2, 2, 2, 0, 1, 2, 1), 3int, mono6(x1, y1, z1, x2, y2, z2, 2, 0, 0, 1, 1, 0));
    lemma_mono6_mul(x1, y1, z1, x2, y2, z2, 2, 2, 0, 1, 2, 1, 2, 0, 0, 1, 1, 0);
    lemma_mul_is_distributive_add((9int * mono6(x1, y1, z1, x2, y2, z2, 2, 2, 0, 4, 0, 0)), ((21int * mono6(x1, y1, z1, x2, y2, z2, 0, 0, 2, 0, 1, 1)) + ((21int * mono6(x1, y1, z1, x2, y2, z2, 0, 1, 1, 0, 0, 2)) + (1int * mono6(x1, y1, z1, x2, y2, z2, 0, 1, 1, 0, 2, 0)))), ((1int * mono6(x1, y1, z1, x2, y2, z2, 0, 2, 0, 0, 1, 1)) + ((3int * mono6(x1, y1, z1, x2, y2, z2, 1, 1, 0, 2, 0, 0)) + (3int * mono6(x1, y1, z1, x2, y2, z2, 2, 0, 0, 1, 1, 0)))));
    lemma_mul_is_distributive_add((9int * mono6(x1, y1, z1, x2, y2, z2, 2, 2, 0, 4, 0, 0)), (21int * mono6(x1, y1, z1, x2, y2, z2, 0, 0, 2, 0, 1, 1)), ((21int * mono6(x1, y1, z1, x2, y2, z2, 0, 1, 1, 0, 0, 2)) + (1int * mono6(x1, y1, z1, x2, y2, z2, 0, 1, 1, 0, 2, 0))));
    lemma_mul_is_distributive_add((9int * mono6(x1, y1, z1, x2, y2, z2, 2, 2, 0, 4, 0, 0)), (21int * mono6(x1, y1, z1, x2, y2, z2, 0, 1, 1, 0, 0, 2)), (1int * mono6(x1, y1, z1, x2, y2, z2, 0, 1, 1, 0, 2, 0)));
    lemma_mul_is_distributive_add((9int * mono6(x1, y1, z1, x2, y2, z2, 2, 2, 0, 4, 0, 0)), (1int * mono6(x1, y1, z1, x2, y2, z2, 0, 2, 0, 0, 1, 1)), ((3int * mono6(x1, y1, z1, x2, y2, z2, 1, 1, 0, 2, 0, 0)) + (3int * mono6(x1, y1, z1, x2, y2, z2, 2, 0, 0, 1, 1, 0))));
    lemma_mul_is_distributive_add((9int * mono6(x1, y1, z1, x2, y2, z2, 2, 2, 0, 4, 0, 0)), (3int * mono6(x1, y1, z1, x2, y2, z2, 1, 1, 0, 2, 0, 0)), (3int * mono6(x1, y1, z1, x2, y2, z2, 2, 0, 0, 1, 1, 0)));
    lemma_coefficient_product(9int, mono6(x1, y1, z1, x2, y2, z2, 2, 2, 0, 4, 0, 0), 21int, mono6(x1, y1, z1, x2, y2, z2, 0, 0, 2, 0, 1, 1));
    lemma_mono6_mul(x1, y1, z1, x2, y2, z2, 2, 2, 0, 4, 0, 0, 0, 0, 2, 0, 1, 1);
    lemma_coefficient_product(9int, mono6(x1, y1, z1, x2, y2, z2, 2, 2, 0, 4, 0, 0), 21int, mono6(x1, y1, z1, x2, y2, z2, 0, 1, 1, 0, 0, 2));
    lemma_mono6_mul(x1, y1, z1, x2, y2, z2, 2, 2, 0, 4, 0, 0, 0, 1, 1, 0, 0, 2);
    lemma_coefficient_product(9int, mono6(x1, y1, z1, x2, y2, z2, 2, 2, 0, 4, 0, 0), 1int, mono6(x1, y1, z1, x2, y2, z2, 0, 1, 1, 0, 2, 0));
    lemma_mono6_mul(x1, y1, z1, x2, y2, z2, 2, 2, 0, 4, 0, 0, 0, 1, 1, 0, 2, 0);
    lemma_coefficient_product(9int, mono6(x1, y1, z1, x2, y2, z2, 2, 2, 0, 4, 0, 0), 1int, mono6(x1, y1, z1, x2, y2, z2, 0, 2, 0, 0, 1, 1));
    lemma_mono6_mul(x1, y1, z1, x2, y2, z2, 2, 2, 0, 4, 0, 0, 0, 2, 0, 0, 1, 1);
    lemma_coefficient_product(9int, mono6(x1, y1, z1, x2, y2, z2, 2, 2, 0, 4, 0, 0), 3int, mono6(x1, y1, z1, x2, y2, z2, 1, 1, 0, 2, 0, 0));
    lemma_mono6_mul(x1, y1, z1, x2, y2, z2, 2, 2, 0, 4, 0, 0, 1, 1, 0, 2, 0, 0);
    lemma_coefficient_product(9int, mono6(x1, y1, z1, x2, y2, z2, 2, 2, 0, 4, 0, 0), 3int, mono6(x1, y1, z1, x2, y2, z2, 2, 0, 0, 1, 1, 0));
    lemma_mono6_mul(x1, y1, z1, x2, y2, z2, 2, 2, 0, 4, 0, 0, 2, 0, 0, 1, 1, 0);
    lemma_mul_is_distributive_add((18int * mono6(x1, y1, z1, x2, y2, z2, 3, 1, 0, 3, 1, 0)), ((21int * mono6(x1, y1, z1, x2, y2, z2, 0, 0, 2, 0, 1, 1)) + ((21int * mono6(x1, y1, z1, x2, y2, z2, 0, 1, 1, 0, 0, 2)) + (1int * mono6(x1, y1, z1, x2, y2, z2, 0, 1, 1, 0, 2, 0)))), ((1int * mono6(x1, y1, z1, x2, y2, z2, 0, 2, 0, 0, 1, 1)) + ((3int * mono6(x1, y1, z1, x2, y2, z2, 1, 1, 0, 2, 0, 0)) + (3int * mono6(x1, y1, z1, x2, y2, z2, 2, 0, 0, 1, 1, 0)))));
    lemma_mul_is_distributive_add((18int * mono6(x1, y1, z1, x2, y2, z2, 3, 1, 0, 3, 1, 0)), (21int * mono6(x1, y1, z1, x2, y2, z2, 0, 0, 2, 0, 1, 1)), ((21int * mono6(x1, y1, z1, x2, y2, z2, 0, 1, 1, 0, 0, 2)) + (1int * mono6(x1, y1, z1, x2, y2, z2, 0, 1, 1, 0, 2, 0))));
    lemma_mul_is_distributive_add((18int * mono6(x1, y1, z1, x2, y2, z2, 3, 1, 0, 3, 1, 0)), (21int * mono6(x1, y1, z1, x2, y2, z2, 0, 1, 1, 0, 0, 2)), (1int * mono6(x1, y1, z1, x2, y2, z2, 0, 1, 1, 0, 2, 0)));
    lemma_mul_is_distributive_add((18int * mono6(x1, y1, z1, x2, y2, z2, 3, 1, 0, 3, 1, 0)), (1int * mono6(x1, y1, z1, x2, y2, z2, 0, 2, 0, 0, 1, 1)), ((3int * mono6(x1, y1, z1, x2, y2, z2, 1, 1, 0, 2, 0, 0)) + (3int * mono6(x1, y1, z1, x2, y2, z2, 2, 0, 0, 1, 1, 0))));
    lemma_mul_is_distributive_add((18int * mono6(x1, y1, z1, x2, y2, z2, 3, 1, 0, 3, 1, 0)), (3int * mono6(x1, y1, z1, x2, y2, z2, 1, 1, 0, 2, 0, 0)), (3int * mono6(x1, y1, z1, x2, y2, z2, 2, 0, 0, 1, 1, 0)));
    lemma_coefficient_product(18int, mono6(x1, y1, z1, x2, y2, z2, 3, 1, 0, 3, 1, 0), 21int, mono6(x1, y1, z1, x2, y2, z2, 0, 0, 2, 0, 1, 1));
    lemma_mono6_mul(x1, y1, z1, x2, y2, z2, 3, 1, 0, 3, 1, 0, 0, 0, 2, 0, 1, 1);
    lemma_coefficient_product(18int, mono6(x1, y1, z1, x2, y2, z2, 3, 1, 0, 3, 1, 0), 21int, mono6(x1, y1, z1, x2, y2, z2, 0, 1, 1, 0, 0, 2));
    lemma_mono6_mul(x1, y1, z1, x2, y2, z2, 3, 1, 0, 3, 1, 0, 0, 1, 1, 0, 0, 2);
    lemma_coefficient_product(18int, mono6(x1, y1, z1, x2, y2, z2, 3, 1, 0, 3, 1, 0), 1int, mono6(x1, y1, z1, x2, y2, z2, 0, 1, 1, 0, 2, 0));
    lemma_mono6_mul(x1, y1, z1, x2, y2, z2, 3, 1, 0, 3, 1, 0, 0, 1, 1, 0, 2, 0);
    lemma_coefficient_product(18int, mono6(x1, y1, z1, x2, y2, z2, 3, 1, 0, 3, 1, 0), 1int, mono6(x1, y1, z1, x2, y2, z2, 0, 2, 0, 0, 1, 1));
    lemma_mono6_mul(x1, y1, z1, x2, y2, z2, 3, 1, 0, 3, 1, 0, 0, 2, 0, 0, 1, 1);
    lemma_coefficient_product(18int, mono6(x1, y1, z1, x2, y2, z2, 3, 1, 0, 3, 1, 0), 3int, mono6(x1, y1, z1, x2, y2, z2, 1, 1, 0, 2, 0, 0));
    lemma_mono6_mul(x1, y1, z1, x2, y2, z2, 3, 1, 0, 3, 1, 0, 1, 1, 0, 2, 0, 0);
    lemma_coefficient_product(18int, mono6(x1, y1, z1, x2, y2, z2, 3, 1, 0, 3, 1, 0), 3int, mono6(x1, y1, z1, x2, y2, z2, 2, 0, 0, 1, 1, 0));
    lemma_mono6_mul(x1, y1, z1, x2, y2, z2, 3, 1, 0, 3, 1, 0, 2, 0, 0, 1, 1, 0);
    lemma_mul_is_distributive_add((9int * mono6(x1, y1, z1, x2, y2, z2, 4, 0, 0, 2, 2, 0)), ((21int * mono6(x1, y1, z1, x2, y2, z2, 0, 0, 2, 0, 1, 1)) + ((21int * mono6(x1, y1, z1, x2, y2, z2, 0, 1, 1, 0, 0, 2)) + (1int * mono6(x1, y1, z1, x2, y2, z2, 0, 1, 1, 0, 2, 0)))), ((1int * mono6(x1, y1, z1, x2, y2, z2, 0, 2, 0, 0, 1, 1)) + ((3int * mono6(x1, y1, z1, x2, y2, z2, 1, 1, 0, 2, 0, 0)) + (3int * mono6(x1, y1, z1, x2, y2, z2, 2, 0, 0, 1, 1, 0)))));
    lemma_mul_is_distributive_add((9int * mono6(x1, y1, z1, x2, y2, z2, 4, 0, 0, 2, 2, 0)), (21int * mono6(x1, y1, z1, x2, y2, z2, 0, 0, 2, 0, 1, 1)), ((21int * mono6(x1, y1, z1, x2, y2, z2, 0, 1, 1, 0, 0, 2)) + (1int * mono6(x1, y1, z1, x2, y2, z2, 0, 1, 1, 0, 2, 0))));
    lemma_mul_is_distributive_add((9int * mono6(x1, y1, z1, x2, y2, z2, 4, 0, 0, 2, 2, 0)), (21int * mono6(x1, y1, z1, x2, y2, z2, 0, 1, 1, 0, 0, 2)), (1int * mono6(x1, y1, z1, x2, y2, z2, 0, 1, 1, 0, 2, 0)));
    lemma_mul_is_distributive_add((9int * mono6(x1, y1, z1, x2, y2, z2, 4, 0, 0, 2, 2, 0)), (1int * mono6(x1, y1, z1, x2, y2, z2, 0, 2, 0, 0, 1, 1)), ((3int * mono6(x1, y1, z1, x2, y2, z2, 1, 1, 0, 2, 0, 0)) + (3int * mono6(x1, y1, z1, x2, y2, z2, 2, 0, 0, 1, 1, 0))));
    lemma_mul_is_distributive_add((9int * mono6(x1, y1, z1, x2, y2, z2, 4, 0, 0, 2, 2, 0)), (3int * mono6(x1, y1, z1, x2, y2, z2, 1, 1, 0, 2, 0, 0)), (3int * mono6(x1, y1, z1, x2, y2, z2, 2, 0, 0, 1, 1, 0)));
    lemma_coefficient_product(9int, mono6(x1, y1, z1, x2, y2, z2, 4, 0, 0, 2, 2, 0), 21int, mono6(x1, y1, z1, x2, y2, z2, 0, 0, 2, 0, 1, 1));
    lemma_mono6_mul(x1, y1, z1, x2, y2, z2, 4, 0, 0, 2, 2, 0, 0, 0, 2, 0, 1, 1);
    lemma_coefficient_product(9int, mono6(x1, y1, z1, x2, y2, z2, 4, 0, 0, 2, 2, 0), 21int, mono6(x1, y1, z1, x2, y2, z2, 0, 1, 1, 0, 0, 2));
    lemma_mono6_mul(x1, y1, z1, x2, y2, z2, 4, 0, 0, 2, 2, 0, 0, 1, 1, 0, 0, 2);
    lemma_coefficient_product(9int, mono6(x1, y1, z1, x2, y2, z2, 4, 0, 0, 2, 2, 0), 1int, mono6(x1, y1, z1, x2, y2, z2, 0, 1, 1, 0, 2, 0));
    lemma_mono6_mul(x1, y1, z1, x2, y2, z2, 4, 0, 0, 2, 2, 0, 0, 1, 1, 0, 2, 0);
    lemma_coefficient_product(9int, mono6(x1, y1, z1, x2, y2, z2, 4, 0, 0, 2, 2, 0), 1int, mono6(x1, y1, z1, x2, y2, z2, 0, 2, 0, 0, 1, 1));
    lemma_mono6_mul(x1, y1, z1, x2, y2, z2, 4, 0, 0, 2, 2, 0, 0, 2, 0, 0, 1, 1);
    lemma_coefficient_product(9int, mono6(x1, y1, z1, x2, y2, z2, 4, 0, 0, 2, 2, 0), 3int, mono6(x1, y1, z1, x2, y2, z2, 1, 1, 0, 2, 0, 0));
    lemma_mono6_mul(x1, y1, z1, x2, y2, z2, 4, 0, 0, 2, 2, 0, 1, 1, 0, 2, 0, 0);
    lemma_coefficient_product(9int, mono6(x1, y1, z1, x2, y2, z2, 4, 0, 0, 2, 2, 0), 3int, mono6(x1, y1, z1, x2, y2, z2, 2, 0, 0, 1, 1, 0));
    lemma_mono6_mul(x1, y1, z1, x2, y2, z2, 4, 0, 0, 2, 2, 0, 2, 0, 0, 1, 1, 0);
}

#[verifier::rlimit(60)]
proof fn lemma_double_curve_identity_part1(x: int, y: int, z: int)
    ensures
        ((((((y * y) - (63 * (z * z))) * ((y * y) + (21 * (z * z)))) + (168 * ((y * y) * (z * z)))) * ((((y * y) - (63 * (z * z))) * ((y * y) + (21 * (z * z)))) + (168 * ((y * y) * (z * z))))) * (8 * (((y * y) * y) * z))) == (((14002632int * mono3(x, y, z, 0, 3, 9)) + ((-2667168int) * mono3(x, y, z, 0, 5, 7))) + ((105840int * mono3(x, y, z, 0, 7, 5)) + ((2016int * mono3(x, y, z, 0, 9, 3)) + (8int * mono3(x, y, z, 0, 11, 1))))),
{
    lemma_mono3_vars(x, y, z);
    assert(y == (1int * mono3(x, y, z, 0, 1, 0)));
    assert(y == (1int * mono3(x, y, z, 0, 1, 0)));
    assert((y * y) == (1int * mono3(x, y, z, 0, 1, 0)) * (1int * mono3(x, y, z, 0, 1, 0)));
    lemma_coefficient_product(1int, mono3(x, y, z, 0, 1, 0), 1int, mono3(x, y, z, 0, 1, 0));
    lemma_mono3_mul(x, y, z, 0, 1, 0, 0, 1, 0);
    assert((y * y) == (1int * mono3(x, y, z, 0, 2, 0)));
    assert(63 == (63int * mono3(x, y, z, 0, 0, 0)));
    assert(z == (1int * mono3(x, y, z, 0, 0, 1)));
    assert(z == (1int * mono3(x, y, z, 0, 0, 1)));
    assert((z * z) == (1int * mono3(x, y, z, 0, 0, 1)) * (1int * mono3(x, y, z, 0, 0, 1)));
    lemma_coefficient_product(1int, mono3(x, y, z, 0, 0, 1), 1int, mono3(x, y, z, 0, 0, 1));
    lemma_mono3_mul(x, y, z, 0, 0, 1, 0, 0, 1);
    assert((z * z) == (1int * mono3(x, y, z, 0, 0, 2)));
    assert((63 * (z * z)) == (63int * mono3(x, y, z, 0, 0, 0)) * (1int * mono3(x, y, z, 0, 0, 2)));
    lemma_coefficient_product(63int, mono3(x, y, z, 0, 0, 0), 1int, mono3(x, y, z, 0, 0, 2));
    lemma_mono3_mul(x, y, z, 0, 0, 0, 0, 0, 2);
    assert((63 * (z * z)) == (63int * mono3(x, y, z, 0, 0, 2)));
    assert(((y * y) - (63 * (z * z))) == (((-63int) * mono3(x, y, z, 0, 0, 2)) + (1int * mono3(x, y, z, 0, 2, 0))));
    assert(y == (1int * mono3(x, y, z, 0, 1, 0)));
    assert(y == (1int * mono3(x, y, z, 0, 1, 0)));
    assert((y * y) == (1int * mono3(x, y, z, 0, 1, 0)) * (1int * mono3(x, y, z, 0, 1, 0)));
    lemma_coefficient_product(1int, mono3(x, y, z, 0, 1, 0), 1int, mono3(x, y, z, 0, 1, 0));
    lemma_mono3_mul(x, y, z, 0, 1, 0, 0, 1, 0);
    assert((y * y) == (1int * mono3(x, y, z, 0, 2, 0)));
    assert(21 == (21int * mono3(x, y, z, 0, 0, 0)));
    assert(z == (1int * mono3(x, y, z, 0, 0, 1)));
    assert(z == (1int * mono3(x, y, z, 0, 0, 1)));
    assert((z * z) == (1int * mono3(x, y, z, 0, 0, 1)) * (1int * mono3(x, y, z, 0, 0, 1)));
    lemma_coefficient_product(1int, mono3(x, y, z, 0, 0, 1), 1int, mono3(x, y, z, 0, 0, 1));
    lemma_mono3_mul(x, y, z, 0, 0, 1, 0, 0, 1);
    assert((z * z) == (1int * mono3(x, y, z, 0, 0, 2)));
    assert((21 * (z * z)) == (21int * mono3(x, y, z, 0, 0, 0)) * (1int * mono3(x, y, z, 0, 0, 2)));
    lemma_coefficient_product(21int, mono3(x, y, z, 0, 0, 0), 1int, mono3(x, y, z, 0, 0, 2));
    lemma_mono3_mul(x, y, z, 0, 0, 0, 0, 0, 2);
    assert((21 * (z * z)) == (21int * mono3(x, y, z, 0, 0, 2)));
    assert(((y * y) + (21 * (z * z))) == ((21int * mono3(x, y, z, 0, 0, 2)) + (1int * mono3(x, y, z, 0, 2, 0))));
    assert((((y * y) - (63 * (z * z))) * ((y * y) + (21 * (z * z)))) == (((-63int) * mono3(x, y, z, 0, 0, 2)) + (1int * mono3(x, y, z, 0, 2, 0))) * ((21int * mono3(x, y, z, 0, 0, 2)) + (1int * mono3(x, y, z, 0, 2, 0))));
    lemma_mul_is_distributive_add_other_way(((21int * mono3(x, y, z, 0, 0, 2)) + (1int * mono3(x, y, z, 0, 2, 0))), ((-63int) * mono3(x, y, z, 0, 0, 2)), (1int * mono3(x, y, z, 0, 2, 0)));
    lemma_mul_is_distributive_add(((-63int) * mono3(x, y, z, 0, 0, 2)), (21int * mono3(x, y, z, 0, 0, 2)), (1int * mono3(x, y, z, 0, 2, 0)));
    lemma_coefficient_product((-63int), mono3(x, y, z, 0, 0, 2), 21int, mono3(x, y, z, 0, 0, 2));
    lemma_mono3_mul(x, y, z, 0, 0, 2, 0, 0, 2);
    lemma_coefficient_product((-63int), mono3(x, y, z, 0, 0, 2), 1int, mono3(x, y, z, 0, 2, 0));
    lemma_mono3_mul(x, y, z, 0, 0, 2, 0, 2, 0);
    lemma_mul_is_distributive_add((1int * mono3(x, y, z, 0, 2, 0)), (21int * mono3(x, y, z, 0, 0, 2)), (1int * mono3(x, y, z, 0, 2, 0)));
    lemma_coefficient_product(1int, mono3(x, y, z, 0, 2, 0), 21int, mono3(x, y, z, 0, 0, 2));
    lemma_mono3_mul(x, y, z, 0, 2, 0, 0, 0, 2);
    lemma_coefficient_product(1int, mono3(x, y, z, 0, 2, 0), 1int, mono3(x, y, z, 0, 2, 0));
    lemma_mono3_mul(x, y, z, 0, 2, 0, 0, 2, 0);
    assert((((y * y) - (63 * (z * z))) * ((y * y) + (21 * (z * z)))) == (((-1323int) * mono3(x, y, z, 0, 0, 4)) + (((-42int) * mono3(x, y, z, 0, 2, 2)) + (1int * mono3(x, y, z, 0, 4, 0)))));
    assert(168 == (168int * mono3(x, y, z, 0, 0, 0)));
    assert(y == (1int * mono3(x, y, z, 0, 1, 0)));
    assert(y == (1int * mono3(x, y, z, 0, 1, 0)));
    assert((y * y) == (1int * mono3(x, y, z, 0, 1, 0)) * (1int * mono3(x, y, z, 0, 1, 0)));
    lemma_coefficient_product(1int, mono3(x, y, z, 0, 1, 0), 1int, mono3(x, y, z, 0, 1, 0));
    lemma_mono3_mul(x, y, z, 0, 1, 0, 0, 1, 0);
    assert((y * y) == (1int * mono3(x, y, z, 0, 2, 0)));
    assert(z == (1int * mono3(x, y, z, 0, 0, 1)));
    assert(z == (1int * mono3(x, y, z, 0, 0, 1)));
    assert((z * z) == (1int * mono3(x, y, z, 0, 0, 1)) * (1int * mono3(x, y, z, 0, 0, 1)));
    lemma_coefficient_product(1int, mono3(x, y, z, 0, 0, 1), 1int, mono3(x, y, z, 0, 0, 1));
    lemma_mono3_mul(x, y, z, 0, 0, 1, 0, 0, 1);
    assert((z * z) == (1int * mono3(x, y, z, 0, 0, 2)));
    assert(((y * y) * (z * z)) == (1int * mono3(x, y, z, 0, 2, 0)) * (1int * mono3(x, y, z, 0, 0, 2)));
    lemma_coefficient_product(1int, mono3(x, y, z, 0, 2, 0), 1int, mono3(x, y, z, 0, 0, 2));
    lemma_mono3_mul(x, y, z, 0, 2, 0, 0, 0, 2);
    assert(((y * y) * (z * z)) == (1int * mono3(x, y, z, 0, 2, 2)));
    assert((168 * ((y * y) * (z * z))) == (168int * mono3(x, y, z, 0, 0, 0)) * (1int * mono3(x, y, z, 0, 2, 2)));
    lemma_coefficient_product(168int, mono3(x, y, z, 0, 0, 0), 1int, mono3(x, y, z, 0, 2, 2));
    lemma_mono3_mul(x, y, z, 0, 0, 0, 0, 2, 2);
    assert((168 * ((y * y) * (z * z))) == (168int * mono3(x, y, z, 0, 2, 2)));
    assert(((((y * y) - (63 * (z * z))) * ((y * y) + (21 * (z * z)))) + (168 * ((y * y) * (z * z)))) == (((-1323int) * mono3(x, y, z, 0, 0, 4)) + ((126int * mono3(x, y, z, 0, 2, 2)) + (1int * mono3(x, y, z, 0, 4, 0)))));
    assert(y == (1int * mono3(x, y, z, 0, 1, 0)));
    assert(y == (1int * mono3(x, y, z, 0, 1, 0)));
    assert((y * y) == (1int * mono3(x, y, z, 0, 1, 0)) * (1int * mono3(x, y, z, 0, 1, 0)));
    lemma_coefficient_product(1int, mono3(x, y, z, 0, 1, 0), 1int, mono3(x, y, z, 0, 1, 0));
    lemma_mono3_mul(x, y, z, 0, 1, 0, 0, 1, 0);
    assert((y * y) == (1int * mono3(x, y, z, 0, 2, 0)));
    assert(63 == (63int * mono3(x, y, z, 0, 0, 0)));
    assert(z == (1int * mono3(x, y, z, 0, 0, 1)));
    assert(z == (1int * mono3(x, y, z, 0, 0, 1)));
    assert((z * z) == (1int * mono3(x, y, z, 0, 0, 1)) * (1int * mono3(x, y, z, 0, 0, 1)));
    lemma_coefficient_product(1int, mono3(x, y, z, 0, 0, 1), 1int, mono3(x, y, z, 0, 0, 1));
    lemma_mono3_mul(x, y, z, 0, 0, 1, 0, 0, 1);
    assert((z * z) == (1int * mono3(x, y, z, 0, 0, 2)));
    assert((63 * (z * z)) == (63int * mono3(x, y, z, 0, 0, 0)) * (1int * mono3(x, y, z, 0, 0, 2)));
    lemma_coefficient_product(63int, mono3(x, y, z, 0, 0, 0), 1int, mono3(x, y, z, 0, 0, 2));
    lemma_mono3_mul(x, y, z, 0, 0, 0, 0, 0, 2);
    assert((63 * (z * z)) == (63int * mono3(x, y, z, 0, 0, 2)));
    assert(((y * y) - (63 * (z * z))) == (((-63int) * mono3(x, y, z, 0, 0, 2)) + (1int * mono3(x, y, z, 0, 2, 0))));
    assert(y == (1int * mono3(x, y, z, 0, 1, 0)));
    assert(y == (1int * mono3(x, y, z, 0, 1, 0)));
    assert((y * y) == (1int * mono3(x, y, z, 0, 1, 0)) * (1int * mono3(x, y, z, 0, 1, 0)));
    lemma_coefficient_product(1int, mono3(x, y, z, 0, 1, 0), 1int, mono3(x, y, z, 0, 1, 0));
    lemma_mono3_mul(x, y, z, 0, 1, 0, 0, 1, 0);
    assert((y * y) == (1int * mono3(x, y, z, 0, 2, 0)));
    assert(21 == (21int * mono3(x, y, z, 0, 0, 0)));
    assert(z == (1int * mono3(x, y, z, 0, 0, 1)));
    assert(z == (1int * mono3(x, y, z, 0, 0, 1)));
    assert((z * z) == (1int * mono3(x, y, z, 0, 0, 1)) * (1int * mono3(x, y, z, 0, 0, 1)));
    lemma_coefficient_product(1int, mono3(x, y, z, 0, 0, 1), 1int, mono3(x, y, z, 0, 0, 1));
    lemma_mono3_mul(x, y, z, 0, 0, 1, 0, 0, 1);
    assert((z * z) == (1int * mono3(x, y, z, 0, 0, 2)));
    assert((21 * (z * z)) == (21int * mono3(x, y, z, 0, 0, 0)) * (1int * mono3(x, y, z, 0, 0, 2)));
    lemma_coefficient_product(21int, mono3(x, y, z, 0, 0, 0), 1int, mono3(x, y, z, 0, 0, 2));
    lemma_mono3_mul(x, y, z, 0, 0, 0, 0, 0, 2);
    assert((21 * (z * z)) == (21int * mono3(x, y, z, 0, 0, 2)));
    assert(((y * y) + (21 * (z * z))) == ((21int * mono3(x, y, z, 0, 0, 2)) + (1int * mono3(x, y, z, 0, 2, 0))));
    assert((((y * y) - (63 * (z * z))) * ((y * y) + (21 * (z * z)))) == (((-63int) * mono3(x, y, z, 0, 0, 2)) + (1int * mono3(x, y, z, 0, 2, 0))) * ((21int * mono3(x, y, z, 0, 0, 2)) + (1int * mono3(x, y, z, 0, 2, 0))));
    lemma_mul_is_distributive_add_other_way(((21int * mono3(x, y, z, 0, 0, 2)) + (1int * mono3(x, y, z, 0, 2, 0))), ((-63int) * mono3(x, y, z, 0, 0, 2)), (1int * mono3(x, y, z, 0, 2, 0)));
    lemma_mul_is_distributive_add(((-63int) * mono3(x, y, z, 0, 0, 2)), (21int * mono3(x, y, z, 0, 0, 2)), (1int * mono3(x, y, z, 0, 2, 0)));
    lemma_coefficient_product((-63int), mono3(x, y, z, 0, 0, 2), 21int, mono3(x, y, z, 0, 0, 2));
    lemma_mono3_mul(x, y, z, 0, 0, 2, 0, 0, 2);
    lemma_coefficient_product((-63int), mono3(x, y, z, 0, 0, 2), 1int, mono3(x, y, z, 0, 2, 0));
    lemma_mono3_mul(x, y, z, 0, 0, 2, 0, 2, 0);
    lemma_mul_is_distributive_add((1int * mono3(x, y, z, 0, 2, 0)), (21int * mono3(x, y, z, 0, 0, 2)), (1int * mono3(x, y, z, 0, 2, 0)));
    lemma_coefficient_product(1int, mono3(x, y, z, 0, 2, 0), 21int, mono3(x, y, z, 0, 0, 2));
    lemma_mono3_mul(x, y, z, 0, 2, 0, 0, 0, 2);
    lemma_coefficient_product(1int, mono3(x, y, z, 0, 2, 0), 1int, mono3(x, y, z, 0, 2, 0));
    lemma_mono3_mul(x, y, z, 0, 2, 0, 0, 2, 0);
    assert((((y * y) - (63 * (z * z))) * ((y * y) + (21 * (z * z)))) == (((-1323int) * mono3(x, y, z, 0, 0, 4)) + (((-42int) * mono3(x, y, z, 0, 2, 2)) + (1int * mono3(x, y, z, 0, 4, 0)))));
    assert(168 == (168int * mono3(x, y, z, 0, 0, 0)));
    assert(y == (1int * mono3(x, y, z, 0, 1, 0)));
    assert(y == (1int * mono3(x, y, z, 0, 1, 0)));
    assert((y * y) == (1int * mono3(x, y, z, 0, 1, 0)) * (1int * mono3(x, y, z, 0, 1, 0)));
    lemma_coefficient_product(1int, mono3(x, y, z, 0, 1, 0), 1int, mono3(x, y, z, 0, 1, 0));
    lemma_mono3_mul(x, y, z, 0, 1, 0, 0, 1, 0);
    assert((y * y) == (1int * mono3(x, y, z, 0, 2, 0)));
    assert(z == (1int * mono3(x, y, z, 0, 0, 1)));
    assert(z == (1int * mono3(x, y, z, 0, 0, 1)));
    assert((z * z) == (1int * mono3(x, y, z, 0, 0, 1)) * (1int * mono3(x, y, z, 0, 0, 1)));
    lemma_coefficient_product(1int, mono3(x, y, z, 0, 0, 1), 1int, mono3(x, y, z, 0, 0, 1));
    lemma_mono3_mul(x, y, z, 0, 0, 1, 0, 0, 1);
    assert((z * z) == (1int * mono3(x, y, z, 0, 0, 2)));
    assert(((y * y) * (z * z)) == (1int * mono3(x, y, z, 0, 2, 0)) * (1int * mono3(x, y, z, 0, 0, 2)));
    lemma_coefficient_product(1int, mono3(x, y, z, 0, 2, 0), 1int, mono3(x, y, z, 0, 0, 2));
    lemma_mono3_mul(x, y, z, 0, 2, 0, 0, 0, 2);
    assert(((y * y) * (z * z)) == (1int * mono3(x, y, z, 0, 2, 2)));
    assert((168 * ((y * y) * (z * z))) == (168int * mono3(x, y, z, 0, 0, 0)) * (1int * mono3(x, y, z, 0, 2, 2)));
    lemma_coefficient_product(168int, mono3(x, y, z, 0, 0, 0), 1int, mono3(x, y, z, 0, 2, 2));
    lemma_mono3_mul(x, y, z, 0, 0, 0, 0, 2, 2);
    assert((168 * ((y * y) * (z * z))) == (168int * mono3(x, y, z, 0, 2, 2)));
    assert(((((y * y) - (63 * (z * z))) * ((y * y) + (21 * (z * z)))) + (168 * ((y * y) * (z * z)))) == (((-1323int) * mono3(x, y, z, 0, 0, 4)) + ((126int * mono3(x, y, z, 0, 2, 2)) + (1int * mono3(x, y, z, 0, 4, 0)))));
    assert((((((y * y) - (63 * (z * z))) * ((y * y) + (21 * (z * z)))) + (168 * ((y * y) * (z * z)))) * ((((y * y) - (63 * (z * z))) * ((y * y) + (21 * (z * z)))) + (168 * ((y * y) * (z * z))))) == (((-1323int) * mono3(x, y, z, 0, 0, 4)) + ((126int * mono3(x, y, z, 0, 2, 2)) + (1int * mono3(x, y, z, 0, 4, 0)))) * (((-1323int) * mono3(x, y, z, 0, 0, 4)) + ((126int * mono3(x, y, z, 0, 2, 2)) + (1int * mono3(x, y, z, 0, 4, 0)))));
    lemma_mul_is_distributive_add_other_way((((-1323int) * mono3(x, y, z, 0, 0, 4)) + ((126int * mono3(x, y, z, 0, 2, 2)) + (1int * mono3(x, y, z, 0, 4, 0)))), ((-1323int) * mono3(x, y, z, 0, 0, 4)), ((126int * mono3(x, y, z, 0, 2, 2)) + (1int * mono3(x, y, z, 0, 4, 0))));
    lemma_mul_is_distributive_add_other_way((((-1323int) * mono3(x, y, z, 0, 0, 4)) + ((126int * mono3(x, y, z, 0, 2, 2)) + (1int * mono3(x, y, z, 0, 4, 0)))), (126int * mono3(x, y, z, 0, 2, 2)), (1int * mono3(x, y, z, 0, 4, 0)));
    lemma_mul_is_distributive_add(((-1323int) * mono3(x, y, z, 0, 0, 4)), ((-1323int) * mono3(x, y, z, 0, 0, 4)), ((126int * mono3(x, y, z, 0, 2, 2)) + (1int * mono3(x, y, z, 0, 4, 0))));
    lemma_mul_is_distributive_add(((-1323int) * mono3(x, y, z, 0, 0, 4)), (126int * mono3(x, y, z, 0, 2, 2)), (1int * mono3(x, y, z, 0, 4, 0)));
    lemma_coefficient_product((-1323int), mono3(x, y, z, 0, 0, 4), (-1323int), mono3(x, y, z, 0, 0, 4));
    lemma_mono3_mul(x, y, z, 0, 0, 4, 0, 0, 4);
    lemma_coefficient_product((-1323int), mono3(x, y, z, 0, 0, 4), 126int, mono3(x, y, z, 0, 2, 2));
    lemma_mono3_mul(x, y, z, 0, 0, 4, 0, 2, 2);
    lemma_coefficient_product((-1323int), mono3(x, y, z, 0, 0, 4), 1int, mono3(x, y, z, 0, 4, 0));
    lemma_mono3_mul(x, y, z, 0, 0, 4, 0, 4, 0);
    lemma_mul_is_distributive_add((126int * mono3(x, y, z, 0, 2, 2)), ((-1323int) * mono3(x, y, z, 0, 0, 4)), ((126int * mono3(x, y, z, 0, 2, 2)) + (1int * mono3(x, y, z, 0, 4, 0))));
    lemma_mul_is_distributive_add((126int * mono3(x, y, z, 0, 2, 2)), (126int * mono3(x, y, z, 0, 2, 2)), (1int * mono3(x, y, z, 0, 4, 0)));
    lemma_coefficient_product(126int, mono3(x, y, z, 0, 2, 2), (-1323int), mono3(x, y, z, 0, 0, 4));
    lemma_mono3_mul(x, y, z, 0, 2, 2, 0, 0, 4);
    lemma_coefficient_product(126int, mono3(x, y, z, 0, 2, 2), 126int, mono3(x, y, z, 0, 2, 2));
    lemma_mono3_mul(x, y, z, 0, 2, 2, 0, 2, 2);
    lemma_coefficient_product(126int, mono3(x, y, z, 0, 2, 2), 1int, mono3(x, y, z, 0, 4, 0));
    lemma_mono3_mul(x, y, z, 0, 2, 2, 0, 4, 0);
    lemma_mul_is_distributive_add((1int * mono3(x, y, z, 0, 4, 0)), ((-1323int) * mono3(x, y, z, 0, 0, 4)), ((126int * mono3(x, y, z, 0, 2, 2)) + (1int * mono3(x, y, z, 0, 4, 0))));
    lemma_mul_is_distributive_add((1int * mono3(x, y, z, 0, 4, 0)), (126int * mono3(x, y, z, 0, 2, 2)), (1int * mono3(x, y, z, 0, 4, 0)));
    lemma_coefficient_product(1int, mono3(x, y, z, 0, 4, 0), (-1323int), mono3(x, y, z, 0, 0, 4));
    lemma_mono3_mul(x, y, z, 0, 4, 0, 0, 0, 4);
    lemma_coefficient_product(1int, mono3(x, y, z, 0, 4, 0), 126int, mono3(x, y, z, 0, 2, 2));
    lemma_mono3_mul(x, y, z, 0, 4, 0, 0, 2, 2);
    lemma_coefficient_product(1int, mono3(x, y, z, 0, 4, 0), 1int, mono3(x, y, z, 0, 4, 0));
    lemma_mono3_mul(x, y, z, 0, 4, 0, 0, 4, 0);
    assert((((((y * y) - (63 * (z * z))) * ((y * y) + (21 * (z * z)))) + (168 * ((y * y) * (z * z)))) * ((((y * y) - (63 * (z * z))) * ((y * y) + (21 * (z * z)))) + (168 * ((y * y) * (z * z))))) == (((1750329int * mono3(x, y, z, 0, 0, 8)) + ((-333396int) * mono3(x, y, z, 0, 2, 6))) + ((13230int * mono3(x, y, z, 0, 4, 4)) + ((252int * mono3(x, y, z, 0, 6, 2)) + (1int * mono3(x, y, z, 0, 8, 0))))));
    assert(8 == (8int * mono3(x, y, z, 0, 0, 0)));
    assert(y == (1int * mono3(x, y, z, 0, 1, 0)));
    assert(y == (1int * mono3(x, y, z, 0, 1, 0)));
    assert((y * y) == (1int * mono3(x, y, z, 0, 1, 0)) * (1int * mono3(x, y, z, 0, 1, 0)));
    lemma_coefficient_product(1int, mono3(x, y, z, 0, 1, 0), 1int, mono3(x, y, z, 0, 1, 0));
    lemma_mono3_mul(x, y, z, 0, 1, 0, 0, 1, 0);
    assert((y * y) == (1int * mono3(x, y, z, 0, 2, 0)));
    assert(y == (1int * mono3(x, y, z, 0, 1, 0)));
    assert(((y * y) * y) == (1int * mono3(x, y, z, 0, 2, 0)) * (1int * mono3(x, y, z, 0, 1, 0)));
    lemma_coefficient_product(1int, mono3(x, y, z, 0, 2, 0), 1int, mono3(x, y, z, 0, 1, 0));
    lemma_mono3_mul(x, y, z, 0, 2, 0, 0, 1, 0);
    assert(((y * y) * y) == (1int * mono3(x, y, z, 0, 3, 0)));
    assert(z == (1int * mono3(x, y, z, 0, 0, 1)));
    assert((((y * y) * y) * z) == (1int * mono3(x, y, z, 0, 3, 0)) * (1int * mono3(x, y, z, 0, 0, 1)));
    lemma_coefficient_product(1int, mono3(x, y, z, 0, 3, 0), 1int, mono3(x, y, z, 0, 0, 1));
    lemma_mono3_mul(x, y, z, 0, 3, 0, 0, 0, 1);
    assert((((y * y) * y) * z) == (1int * mono3(x, y, z, 0, 3, 1)));
    assert((8 * (((y * y) * y) * z)) == (8int * mono3(x, y, z, 0, 0, 0)) * (1int * mono3(x, y, z, 0, 3, 1)));
    lemma_coefficient_product(8int, mono3(x, y, z, 0, 0, 0), 1int, mono3(x, y, z, 0, 3, 1));
    lemma_mono3_mul(x, y, z, 0, 0, 0, 0, 3, 1);
    assert((8 * (((y * y) * y) * z)) == (8int * mono3(x, y, z, 0, 3, 1)));
    assert(((((((y * y) - (63 * (z * z))) * ((y * y) + (21 * (z * z)))) + (168 * ((y * y) * (z * z)))) * ((((y * y) - (63 * (z * z))) * ((y * y) + (21 * (z * z)))) + (168 * ((y * y) * (z * z))))) * (8 * (((y * y) * y) * z))) == (((1750329int * mono3(x, y, z, 0, 0, 8)) + ((-333396int) * mono3(x, y, z, 0, 2, 6))) + ((13230int * mono3(x, y, z, 0, 4, 4)) + ((252int * mono3(x, y, z, 0, 6, 2)) + (1int * mono3(x, y, z, 0, 8, 0))))) * (8int * mono3(x, y, z, 0, 3, 1)));
    lemma_mul_is_distributive_add_other_way((8int * mono3(x, y, z, 0, 3, 1)), ((1750329int * mono3(x, y, z, 0, 0, 8)) + ((-333396int) * mono3(x, y, z, 0, 2, 6))), ((13230int * mono3(x, y, z, 0, 4, 4)) + ((252int * mono3(x, y, z, 0, 6, 2)) + (1int * mono3(x, y, z, 0, 8, 0)))));
    lemma_mul_is_distributive_add_other_way((8int * mono3(x, y, z, 0, 3, 1)), (1750329int * mono3(x, y, z, 0, 0, 8)), ((-333396int) * mono3(x, y, z, 0, 2, 6)));
    lemma_mul_is_distributive_add_other_way((8int * mono3(x, y, z, 0, 3, 1)), (13230int * mono3(x, y, z, 0, 4, 4)), ((252int * mono3(x, y, z, 0, 6, 2)) + (1int * mono3(x, y, z, 0, 8, 0))));
    lemma_mul_is_distributive_add_other_way((8int * mono3(x, y, z, 0, 3, 1)), (252int * mono3(x, y, z, 0, 6, 2)), (1int * mono3(x, y, z, 0, 8, 0)));
    lemma_coefficient_product(1750329int, mono3(x, y, z, 0, 0, 8), 8int, mono3(x, y, z, 0, 3, 1));
    lemma_mono3_mul(x, y, z, 0, 0, 8, 0, 3, 1);
    lemma_coefficient_product((-333396int), mono3(x, y, z, 0, 2, 6), 8int, mono3(x, y, z, 0, 3, 1));
    lemma_mono3_mul(x, y, z, 0, 2, 6, 0, 3, 1);
    lemma_coefficient_product(13230int, mono3(x, y, z, 0, 4, 4), 8int, mono3(x, y, z, 0, 3, 1));
    lemma_mono3_mul(x, y, z, 0, 4, 4, 0, 3, 1);
    lemma_coefficient_product(252int, mono3(x, y, z, 0, 6, 2), 8int, mono3(x, y, z, 0, 3, 1));
    lemma_mono3_mul(x, y, z, 0, 6, 2, 0, 3, 1);
    lemma_coefficient_product(1int, mono3(x, y, z, 0, 8, 0), 8int, mono3(x, y, z, 0, 3, 1));
    lemma_mono3_mul(x, y, z, 0, 8, 0, 0, 3, 1);
    assert(((((((y * y) - (63 * (z * z))) * ((y * y) + (21 * (z * z)))) + (168 * ((y * y) * (z * z)))) * ((((y * y) - (63 * (z * z))) * ((y * y) + (21 * (z * z)))) + (168 * ((y * y) * (z * z))))) * (8 * (((y * y) * y) * z))) == (((14002632int * mono3(x, y, z, 0, 3, 9)) + ((-2667168int) * mono3(x, y, z, 0, 5, 7))) + ((105840int * mono3(x, y, z, 0, 7, 5)) + ((2016int * mono3(x, y, z, 0, 9, 3)) + (8int * mono3(x, y, z, 0, 11, 1))))));
}

#[verifier::rlimit(60)]
proof fn lemma_double_curve_identity_part2(x: int, y: int, z: int)
    ensures
        ((((2 * (x * y)) * ((y * y) - (63 * (z * z)))) * ((2 * (x * y)) * ((y * y) - (63 * (z * z))))) * ((2 * (x * y)) * ((y * y) - (63 * (z * z))))) == ((((-2000376int) * mono3(x, y, z, 3, 3, 6)) + (95256int * mono3(x, y, z, 3, 5, 4))) + (((-1512int) * mono3(x, y, z, 3, 7, 2)) + (8int * mono3(x, y, z, 3, 9, 0)))),
{
    lemma_mono3_vars(x, y, z);
    assert(2 == (2int * mono3(x, y, z, 0, 0, 0)));
    assert(x == (1int * mono3(x, y, z, 1, 0, 0)));
    assert(y == (1int * mono3(x, y, z, 0, 1, 0)));
    assert((x * y) == (1int * mono3(x, y, z, 1, 0, 0)) * (1int * mono3(x, y, z, 0, 1, 0)));
    lemma_coefficient_product(1int, mono3(x, y, z, 1, 0, 0), 1int, mono3(x, y, z, 0, 1, 0));
    lemma_mono3_mul(x, y, z, 1, 0, 0, 0, 1, 0);
    assert((x * y) == (1int * mono3(x, y, z, 1, 1, 0)));
    assert((2 * (x * y)) == (2int * mono3(x, y, z, 0, 0, 0)) * (1int * mono3(x, y, z, 1, 1, 0)));
    lemma_coefficient_product(2int, mono3(x, y, z, 0, 0, 0), 1int, mono3(x, y, z, 1, 1, 0));
    lemma_mono3_mul(x, y, z, 0, 0, 0, 1, 1, 0);
    assert((2 * (x * y)) == (2int * mono3(x, y, z, 1, 1, 0)));
    assert(y == (1int * mono3(x, y, z, 0, 1, 0)));
    assert(y == (1int * mono3(x, y, z, 0, 1, 0)));
    assert((y * y) == (1int * mono3(x, y, z, 0, 1, 0)) * (1int * mono3(x, y, z, 0, 1, 0)));
    lemma_coefficient_product(1int, mono3(x, y, z, 0, 1, 0), 1int, mono3(x, y, z, 0, 1, 0));
    lemma_mono3_mul(x, y, z, 0, 1, 0, 0, 1, 0);
    assert((y * y) == (1int * mono3(x, y, z, 0, 2, 0)));
    assert(63 == (63int * mono3(x, y, z, 0, 0, 0)));
    assert(z == (1int * mono3(x, y, z, 0, 0, 1)));
    assert(z == (1int * mono3(x, y, z, 0, 0, 1)));
    assert((z * z) == (1int * mono3(x, y, z, 0, 0, 1)) * (1int * mono3(x, y, z, 0, 0, 1)));
    lemma_coefficient_product(1int, mono3(x, y, z, 0, 0, 1), 1int, mono3(x, y, z, 0, 0, 1));
    lemma_mono3_mul(x, y, z, 0, 0, 1, 0, 0, 1);
    assert((z * z) == (1int * mono3(x, y, z, 0, 0, 2)));
    assert((63 * (z * z)) == (63int * mono3(x, y, z, 0, 0, 0)) * (1int * mono3(x, y, z, 0, 0, 2)));
    lemma_coefficient_product(63int, mono3(x, y, z, 0, 0, 0), 1int, mono3(x, y, z, 0, 0, 2));
    lemma_mono3_mul(x, y, z, 0, 0, 0, 0, 0, 2);
    assert((63 * (z * z)) == (63int * mono3(x, y, z, 0, 0, 2)));
    assert(((y * y) - (63 * (z * z))) == (((-63int) * mono3(x, y, z, 0, 0, 2)) + (1int * mono3(x, y, z, 0, 2, 0))));
    assert(((2 * (x * y)) * ((y * y) - (63 * (z * z)))) == (2int * mono3(x, y, z, 1, 1, 0)) * (((-63int) * mono3(x, y, z, 0, 0, 2)) + (1int * mono3(x, y, z, 0, 2, 0))));
    lemma_mul_is_distributive_add((2int * mono3(x, y, z, 1, 1, 0)), ((-63int) * mono3(x, y, z, 0, 0, 2)), (1int * mono3(x, y, z, 0, 2, 0)));
    lemma_coefficient_product(2int, mono3(x, y, z, 1, 1, 0), (-63int), mono3(x, y, z, 0, 0, 2));
    lemma_mono3_mul(x, y, z, 1, 1, 0, 0, 0, 2);
    lemma_coefficient_product(2int, mono3(x, y, z, 1, 1, 0), 1int, mono3(x, y, z, 0, 2, 0));
    lemma_mono3_mul(x, y, z, 1, 1, 0, 0, 2, 0);
    assert(((2 * (x * y)) * ((y * y) - (63 * (z * z)))) == (((-126int) * mono3(x, y, z, 1, 1, 2)) + (2int * mono3(x, y, z, 1, 3, 0))));
    assert(2 == (2int * mono3(x, y, z, 0, 0, 0)));
    assert(x == (1int * mono3(x, y, z, 1, 0, 0)));
    assert(y == (1int * mono3(x, y, z, 0, 1, 0)));
    assert((x * y) == (1int * mono3(x, y, z, 1, 0, 0)) * (1int * mono3(x, y, z, 0, 1, 0)));
    lemma_coefficient_product(1int, mono3(x, y, z, 1, 0, 0), 1int, mono3(x, y, z, 0, 1, 0));
    lemma_mono3_mul(x, y, z, 1, 0, 0, 0, 1, 0);
    assert((x * y) == (1int * mono3(x, y, z, 1, 1, 0)));
    assert((2 * (x * y)) == (2int * mono3(x, y, z, 0, 0, 0)) * (1int * mono3(x, y, z, 1, 1, 0)));
    lemma_coefficient_product(2int, mono3(x, y, z, 0, 0, 0), 1int, mono3(x, y, z, 1, 1, 0));
    lemma_mono3_mul(x, y, z, 0, 0, 0, 1, 1, 0);
    assert((2 * (x * y)) == (2int * mono3(x, y, z, 1, 1, 0)));
    assert(y == (1int * mono3(x, y, z, 0, 1, 0)));
    assert(y == (1int * mono3(x, y, z, 0, 1, 0)));
    assert((y * y) == (1int * mono3(x, y, z, 0, 1, 0)) * (1int * mono3(x, y, z, 0, 1, 0)));
    lemma_coefficient_product(1int, mono3(x, y, z, 0, 1, 0), 1int, mono3(x, y, z, 0, 1, 0));
    lemma_mono3_mul(x, y, z, 0, 1, 0, 0, 1, 0);
    assert((y * y) == (1int * mono3(x, y, z, 0, 2, 0)));
    assert(63 == (63int * mono3(x, y, z, 0, 0, 0)));
    assert(z == (1int * mono3(x, y, z, 0, 0, 1)));
    assert(z == (1int * mono3(x, y, z, 0, 0, 1)));
    assert((z * z) == (1int * mono3(x, y, z, 0, 0, 1)) * (1int * mono3(x, y, z, 0, 0, 1)));
    lemma_coefficient_product(1int, mono3(x, y, z, 0, 0, 1), 1int, mono3(x, y, z, 0, 0, 1));
    lemma_mono3_mul(x, y, z, 0, 0, 1, 0, 0, 1);
    assert((z * z) == (1int * mono3(x, y, z, 0, 0, 2)));
    assert((63 * (z * z)) == (63int * mono3(x, y, z, 0, 0, 0)) * (1int * mono3(x, y, z, 0, 0, 2)));
    lemma_coefficient_product(63int, mono3(x, y, z, 0, 0, 0), 1int, mono3(x, y, z, 0, 0, 2));
    lemma_mono3_mul(x, y, z, 0, 0, 0, 0, 0, 2);
    assert((63 * (z * z)) == (63int * mono3(x, y, z, 0, 0, 2)));
    assert(((y * y) - (63 * (z * z))) == (((-63int) * mono3(x, y, z, 0, 0, 2)) + (1int * mono3(x, y, z, 0, 2, 0))));
    assert(((2 * (x * y)) * ((y * y) - (63 * (z * z)))) == (2int * mono3(x, y, z, 1, 1, 0)) * (((-63int) * mono3(x, y, z, 0, 0, 2)) + (1int * mono3(x, y, z, 0, 2, 0))));
    lemma_mul_is_distributive_add((2int * mono3(x, y, z, 1, 1, 0)), ((-63int) * mono3(x, y, z, 0, 0, 2)), (1int * mono3(x, y, z, 0, 2, 0)));
    lemma_coefficient_product(2int, mono3(x, y, z, 1, 1, 0), (-63int), mono3(x, y, z, 0, 0, 2));
    lemma_mono3_mul(x, y, z, 1, 1, 0, 0, 0, 2);
    lemma_coefficient_product(2int, mono3(x, y, z, 1, 1, 0), 1int, mono3(x, y, z, 0, 2, 0));
    lemma_mono3_mul(x, y, z, 1, 1, 0, 0, 2, 0);
    assert(((2 * (x * y)) * ((y * y) - (63 * (z * z)))) == (((-126int) * mono3(x, y, z, 1, 1, 2)) + (2int * mono3(x, y, z, 1, 3, 0))));
    assert((((2 * (x * y)) * ((y * y) - (63 * (z * z)))) * ((2 * (x * y)) * ((y * y) - (63 * (z * z))))) == (((-126int) * mono3(x, y, z, 1, 1, 2)) + (2int * mono3(x, y, z, 1, 3, 0))) * (((-126int) * mono3(x, y, z, 1, 1, 2)) + (2int * mono3(x, y, z, 1, 3, 0))));
    lemma_mul_is_distributive_add_other_way((((-126int) * mono3(x, y, z, 1, 1, 2)) + (2int * mono3(x, y, z, 1, 3, 0))), ((-126int) * mono3(x, y, z, 1, 1, 2)), (2int * mono3(x, y, z, 1, 3, 0)));
    lemma_mul_is_distributive_add(((-126int) * mono3(x, y, z, 1, 1, 2)), ((-126int) * mono3(x, y, z, 1, 1, 2)), (2int * mono3(x, y, z, 1, 3, 0)));
    lemma_coefficient_product((-126int), mono3(x, y, z, 1, 1, 2), (-126int), mono3(x, y, z, 1, 1, 2));
    lemma_mono3_mul(x, y, z, 1, 1, 2, 1, 1, 2);
    lemma_coefficient_product((-126int), mono3(x, y, z, 1, 1, 2), 2int, mono3(x, y, z, 1, 3, 0));
    lemma_mono3_mul(x, y, z, 1, 1, 2, 1, 3, 0);
    lemma_mul_is_distributive_add((2int * mono3(x, y, z, 1, 3, 0)), ((-126int) * mono3(x, y, z, 1, 1, 2)), (2int * mono3(x, y, z, 1, 3, 0)));
    lemma_coefficient_product(2int, mono3(x, y, z, 1, 3, 0), (-126int), mono3(x, y, z, 1, 1, 2));
    lemma_mono3_mul(x, y, z, 1, 3, 0, 1, 1, 2);
    lemma_coefficient_product(2int, mono3(x, y, z, 1, 3, 0), 2int, mono3(x, y, z, 1, 3, 0));
    lemma_mono3_mul(x, y, z, 1, 3, 0, 1, 3, 0);
    assert((((2 * (x * y)) * ((y * y) - (63 * (z * z)))) * ((2 * (x * y)) * ((y * y) - (63 * (z * z))))) == ((15876int * mono3(x, y, z, 2, 2, 4)) + (((-504int) * mono3(x, y, z, 2, 4, 2)) + (4int * mono3(x, y, z, 2, 6, 0)))));
    assert(2 == (2int * mono3(x, y, z, 0, 0, 0)));
    assert(x == (1int * mono3(x, y, z, 1, 0, 0)));
    assert(y == (1int * mono3(x, y, z, 0, 1, 0)));
    assert((x * y) == (1int * mono3(x, y, z, 1, 0, 0)) * (1int * mono3(x, y, z, 0, 1, 0)));
    lemma_coefficient_product(1int, mono3(x, y, z, 1, 0, 0), 1int, mono3(x, y, z, 0, 1, 0));
    lemma_mono3_mul(x, y, z, 1, 0, 0, 0, 1, 0);
    assert((x * y) == (1int * mono3(x, y, z, 1, 1, 0)));
    assert((2 * (x * y)) == (2int * mono3(x, y, z, 0, 0, 0)) * (1int * mono3(x, y, z, 1, 1, 0)));
    lemma_coefficient_product(2int, mono3(x, y, z, 0, 0, 0), 1int, mono3(x, y, z, 1, 1, 0));
    lemma_mono3_mul(x, y, z, 0, 0, 0, 1, 1, 0);
    assert((2 * (x * y)) == (2int * mono3(x, y, z, 1, 1, 0)));
    assert(y == (1int * mono3(x, y, z, 0, 1, 0)));
    assert(y == (1int * mono3(x, y, z, 0, 1, 0)));
    assert((y * y) == (1int * mono3(x, y, z, 0, 1, 0)) * (1int * mono3(x, y, z, 0, 1, 0)));
    lemma_coefficient_product(1int, mono3(x, y, z, 0, 1, 0), 1int, mono3(x, y, z, 0, 1, 0));
    lemma_mono3_mul(x, y, z, 0, 1, 0, 0, 1, 0);
    assert((y * y) == (1int * mono3(x, y, z, 0, 2, 0)));
    assert(63 == (63int * mono3(x, y, z, 0, 0, 0)));
    assert(z == (1int * mono3(x, y, z, 0, 0, 1)));
    assert(z == (1int * mono3(x, y, z, 0, 0, 1)));
    assert((z * z) == (1int * mono3(x, y, z, 0, 0, 1)) * (1int * mono3(x, y, z, 0, 0, 1)));
    lemma_coefficient_product(1int, mono3(x, y, z, 0, 0, 1), 1int, mono3(x, y, z, 0, 0, 1));
    lemma_mono3_mul(x, y, z, 0, 0, 1, 0, 0, 1);
    assert((z * z) == (1int * mono3(x, y, z, 0, 0, 2)));
    assert((63 * (z * z)) == (63int * mono3(x, y, z, 0, 0, 0)) * (1int * mono3(x, y, z, 0, 0, 2)));
    lemma_coefficient_product(63int, mono3(x, y, z, 0, 0, 0), 1int, mono3(x, y, z, 0, 0, 2));
    lemma_mono3_mul(x, y, z, 0, 0, 0, 0, 0, 2);
    assert((63 * (z * z)) == (63int * mono3(x, y, z, 0, 0, 2)));
    assert(((y * y) - (63 * (z * z))) == (((-63int) * mono3(x, y, z, 0, 0, 2)) + (1int * mono3(x, y, z, 0, 2, 0))));
    assert(((2 * (x * y)) * ((y * y) - (63 * (z * z)))) == (2int * mono3(x, y, z, 1, 1, 0)) * (((-63int) * mono3(x, y, z, 0, 0, 2)) + (1int * mono3(x, y, z, 0, 2, 0))));
    lemma_mul_is_distributive_add((2int * mono3(x, y, z, 1, 1, 0)), ((-63int) * mono3(x, y, z, 0, 0, 2)), (1int * mono3(x, y, z, 0, 2, 0)));
    lemma_coefficient_product(2int, mono3(x, y, z, 1, 1, 0), (-63int), mono3(x, y, z, 0, 0, 2));
    lemma_mono3_mul(x, y, z, 1, 1, 0, 0, 0, 2);
    lemma_coefficient_product(2int, mono3(x, y, z, 1, 1, 0), 1int, mono3(x, y, z, 0, 2, 0));
    lemma_mono3_mul(x, y, z, 1, 1, 0, 0, 2, 0);
    assert(((2 * (x * y)) * ((y * y) - (63 * (z * z)))) == (((-126int) * mono3(x, y, z, 1, 1, 2)) + (2int * mono3(x, y, z, 1, 3, 0))));
    assert(((((2 * (x * y)) * ((y * y) - (63 * (z * z)))) * ((2 * (x * y)) * ((y * y) - (63 * (z * z))))) * ((2 * (x * y)) * ((y * y) - (63 * (z * z))))) == ((15876int * mono3(x, y, z, 2, 2, 4)) + (((-504int) * mono3(x, y, z, 2, 4, 2)) + (4int * mono3(x, y, z, 2, 6, 0)))) * (((-126int) * mono3(x, y, z, 1, 1, 2)) + (2int * mono3(x, y, z, 1, 3, 0))));
    lemma_mul_is_distributive_add_other_way((((-126int) * mono3(x, y, z, 1, 1, 2)) + (2int * mono3(x, y, z, 1, 3, 0))), (15876int * mono3(x, y, z, 2, 2, 4)), (((-504int) * mono3(x, y, z, 2, 4, 2)) + (4int * mono3(x, y, z, 2, 6, 0))));
    lemma_mul_is_distributive_add_other_way((((-126int) * mono3(x, y, z, 1, 1, 2)) + (2int * mono3(x, y, z, 1, 3, 0))), ((-504int) * mono3(x, y, z, 2, 4, 2)), (4int * mono3(x, y, z, 2, 6, 0)));
    lemma_mul_is_distributive_add((15876int * mono3(x, y, z, 2, 2, 4)), ((-126int) * mono3(x, y, z, 1, 1, 2)), (2int * mono3(x, y, z, 1, 3, 0)));
    lemma_coefficient_product(15876int, mono3(x, y, z, 2, 2, 4), (-126int), mono3(x, y, z, 1, 1, 2));
    lemma_mono3_mul(x, y, z, 2, 2, 4, 1, 1, 2);
    lemma_coefficient_product(15876int, mono3(x, y, z, 2, 2, 4), 2int, mono3(x, y, z, 1, 3, 0));
    lemma_mono3_mul(x, y, z, 2, 2, 4, 1, 3, 0);
    lemma_mul_is_distributive_add(((-504int) * mono3(x, y, z, 2, 4, 2)), ((-126int) * mono3(x, y, z, 1, 1, 2)), (2int * mono3(x, y, z, 1, 3, 0)));
    lemma_coefficient_product((-504int), mono3(x, y, z, 2, 4, 2), (-126int), mono3(x, y, z, 1, 1, 2));
    lemma_mono3_mul(x, y, z, 2, 4, 2, 1, 1, 2);
    lemma_coefficient_product((-504int), mono3(x, y, z, 2, 4, 2), 2int, mono3(x, y, z, 1, 3, 0));
    lemma_mono3_mul(x, y, z, 2, 4, 2, 1, 3, 0);
    lemma_mul_is_distributive_add((4int * mono3(x, y, z, 2, 6, 0)), ((-126int) * mono3(x, y, z, 1, 1, 2)), (2int * mono3(x, y, z, 1, 3, 0)));
    lemma_coefficient_product(4int, mono3(x, y, z, 2, 6, 0), (-126int), mono3(x, y, z, 1, 1, 2));
    lemma_mono3_mul(x, y, z, 2, 6, 0, 1, 1, 2);
    lemma_coefficient_product(4int, mono3(x, y, z, 2, 6, 0), 2int, mono3(x, y, z, 1, 3, 0));
    lemma_mono3_mul(x, y, z, 2, 6, 0, 1, 3, 0);
    assert(((((2 * (x * y)) * ((y * y) - (63 * (z * z)))) * ((2 * (x * y)) * ((y * y) - (63 * (z * z))))) * ((2 * (x * y)) * ((y * y) - (63 * (z * z))))) == ((((-2000376int) * mono3(x, y, z, 3, 3, 6)) + (95256int * mono3(x, y, z, 3, 5, 4))) + (((-1512int) * mono3(x, y, z, 3, 7, 2)) + (8int * mono3(x, y, z, 3, 9, 0)))));
}

#[verifier::rlimit(60)]
proof fn lemma_double_curve_identity_part3(x: int, y: int, z: int)
    ensures
        (7 * (((8 * (((y * y) * y) * z)) * (8 * (((y * y) * y) * z))) * (8 * (((y * y) * y) * z)))) == (3584int * mono3(x, y, z, 0, 9, 3)),
{
    lemma_mono3_vars(x, y, z);
    assert(7 == (7int * mono3(x, y, z, 0, 0, 0)));
    assert(8 == (8int * mono3(x, y, z, 0, 0, 0)));
    assert(y == (1int * mono3(x, y, z, 0, 1, 0)));
    assert(y == (1int * mono3(x, y, z, 0, 1, 0)));
    assert((y * y) == (1int * mono3(x, y, z, 0, 1, 0)) * (1int * mono3(x, y, z, 0, 1, 0)));
    lemma_coefficient_product(1int, mono3(x, y, z, 0, 1, 0), 1int, mono3(x, y, z, 0, 1, 0));
    lemma_mono3_mul(x, y, z, 0, 1, 0, 0, 1, 0);
    assert((y * y) == (1int * mono3(x, y, z, 0, 2, 0)));
    assert(y == (1int * mono3(x, y, z, 0, 1, 0)));
    assert(((y * y) * y) == (1int * mono3(x, y, z, 0, 2, 0)) * (1int * mono3(x, y, z, 0, 1, 0)));
    lemma_coefficient_product(1int, mono3(x, y, z, 0, 2, 0), 1int, mono3(x, y, z, 0, 1, 0));
    lemma_mono3_mul(x, y, z, 0, 2, 0, 0, 1, 0);
    assert(((y * y) * y) == (1int * mono3(x, y, z, 0, 3, 0)));
    assert(z == (1int * mono3(x, y, z, 0, 0, 1)));
    assert((((y * y) * y) * z) == (1int * mono3(x, y, z, 0, 3, 0)) * (1int * mono3(x, y, z, 0, 0, 1)));
    lemma_coefficient_product(1int, mono3(x, y, z, 0, 3, 0), 1int, mono3(x, y, z, 0, 0, 1));
    lemma_mono3_mul(x, y, z, 0, 3, 0, 0, 0, 1);
    assert((((y * y) * y) * z) == (1int * mono3(x, y, z, 0, 3, 1)));
    assert((8 * (((y * y) * y) * z)) == (8int * mono3(x, y, z, 0, 0, 0)) * (1int * mono3(x, y, z, 0, 3, 1)));
    lemma_coefficient_product(8int, mono3(x, y, z, 0, 0, 0), 1int, mono3(x, y, z, 0, 3, 1));
    lemma_mono3_mul(x, y, z, 0, 0, 0, 0, 3, 1);
    assert((8 * (((y * y) * y) * z)) == (8int * mono3(x, y, z, 0, 3, 1)));
    assert(8 == (8int * mono3(x, y, z, 0, 0, 0)));
    assert(y == (1int * mono3(x, y, z, 0, 1, 0)));
    assert(y == (1int * mono3(x, y, z, 0, 1, 0)));
    assert((y * y) == (1int * mono3(x, y, z, 0, 1, 0)) * (1int * mono3(x, y, z, 0, 1, 0)));
    lemma_coefficient_product(1int, mono3(x, y, z, 0, 1, 0), 1int, mono3(x, y, z, 0, 1, 0));
    lemma_mono3_mul(x, y, z, 0, 1, 0, 0, 1, 0);
    assert((y * y) == (1int * mono3(x, y, z, 0, 2, 0)));
    assert(y == (1int * mono3(x, y, z, 0, 1, 0)));
    assert(((y * y) * y) == (1int * mono3(x, y, z, 0, 2, 0)) * (1int * mono3(x, y, z, 0, 1, 0)));
    lemma_coefficient_product(1int, mono3(x, y, z, 0, 2, 0), 1int, mono3(x, y, z, 0, 1, 0));
    lemma_mono3_mul(x, y, z, 0, 2, 0, 0, 1, 0);
    assert(((y * y) * y) == (1int * mono3(x, y, z, 0, 3, 0)));
    assert(z == (1int * mono3(x, y, z, 0, 0, 1)));
    assert((((y * y) * y) * z) == (1int * mono3(x, y, z, 0, 3, 0)) * (1int * mono3(x, y, z, 0, 0, 1)));
    lemma_coefficient_product(1int, mono3(x, y, z, 0, 3, 0), 1int, mono3(x, y, z, 0, 0, 1));
    lemma_mono3_mul(x, y, z, 0, 3, 0, 0, 0, 1);
    assert((((y * y) * y) * z) == (1int * mono3(x, y, z, 0, 3, 1)));
    assert((8 * (((y * y) * y) * z)) == (8int * mono3(x, y, z, 0, 0, 0)) * (1int * mono3(x, y, z, 0, 3, 1)));
    lemma_coefficient_product(8int, mono3(x, y, z, 0, 0, 0), 1int, mono3(x, y, z, 0, 3, 1));
    lemma_mono3_mul(x, y, z, 0, 0, 0, 0, 3, 1);
    assert((8 * (((y * y) * y) * z)) == (8int * mono3(x, y, z, 0, 3, 1)));
    assert(((8 * (((y * y) * y) * z)) * (8 * (((y * y) * y) * z))) == (8int * mono3(x, y, z, 0, 3, 1)) * (8int * mono3(x, y, z, 0, 3, 1)));
    lemma_coefficient_product(8int, mono3(x, y, z, 0, 3, 1), 8int, mono3(x, y, z, 0, 3, 1));
    lemma_mono3_mul(x, y, z, 0, 3, 1, 0, 3, 1);
    assert(((8 * (((y * y) * y) * z)) * (8 * (((y * y) * y) * z))) == (64int * mono3(x, y, z, 0, 6, 2)));
    assert(8 == (8int * mono3(x, y, z, 0, 0, 0)));
    assert(y == (1int * mono3(x, y, z, 0, 1, 0)));
    assert(y == (1int * mono3(x, y, z, 0, 1, 0)));
    assert((y * y) == (1int * mono3(x, y, z, 0, 1, 0)) * (1int * mono3(x, y, z, 0, 1, 0)));
    lemma_coefficient_product(1int, mono3(x, y, z, 0, 1, 0), 1int, mono3(x, y, z, 0, 1, 0));
    lemma_mono3_mul(x, y, z, 0, 1, 0, 0, 1, 0);
    assert((y * y) == (1int * mono3(x, y, z, 0, 2, 0)));
    assert(y == (1int * mono3(x, y, z, 0, 1, 0)));
    assert(((y * y) * y) == (1int * mono3(x, y, z, 0, 2, 0)) * (1int * mono3(x, y, z, 0, 1, 0)));
    lemma_coefficient_product(1int, mono3(x, y, z, 0, 2, 0), 1int, mono3(x, y, z, 0, 1, 0));
    lemma_mono3_mul(x, y, z, 0, 2, 0, 0, 1, 0);
    assert(((y * y) * y) == (1int * mono3(x, y, z, 0, 3, 0)));
    assert(z == (1int * mono3(x, y, z, 0, 0, 1)));
    assert((((y * y) * y) * z) == (1int * mono3(x, y, z, 0, 3, 0)) * (1int * mono3(x, y, z, 0, 0, 1)));
    lemma_coefficient_product(1int, mono3(x, y, z, 0, 3, 0), 1int, mono3(x, y, z, 0, 0, 1));
    lemma_mono3_mul(x, y, z, 0, 3, 0, 0, 0, 1);
    assert((((y * y) * y) * z) == (1int * mono3(x, y, z, 0, 3, 1)));
    assert((8 * (((y * y) * y) * z)) == (8int * mono3(x, y, z, 0, 0, 0)) * (1int * mono3(x, y, z, 0, 3, 1)));
    lemma_coefficient_product(8int, mono3(x, y, z, 0, 0, 0), 1int, mono3(x, y, z, 0, 3, 1));
    lemma_mono3_mul(x, y, z, 0, 0, 0, 0, 3, 1);
    assert((8 * (((y * y) * y) * z)) == (8int * mono3(x, y, z, 0, 3, 1)));
    assert((((8 * (((y * y) * y) * z)) * (8 * (((y * y) * y) * z))) * (8 * (((y * y) * y) * z))) == (64int * mono3(x, y, z, 0, 6, 2)) * (8int * mono3(x, y, z, 0, 3, 1)));
    lemma_coefficient_product(64int, mono3(x, y, z, 0, 6, 2), 8int, mono3(x, y, z, 0, 3, 1));
    lemma_mono3_mul(x, y, z, 0, 6, 2, 0, 3, 1);
    assert((((8 * (((y * y) * y) * z)) * (8 * (((y * y) * y) * z))) * (8 * (((y * y) * y) * z))) == (512int * mono3(x, y, z, 0, 9, 3)));
    assert((7 * (((8 * (((y * y) * y) * z)) * (8 * (((y * y) * y) * z))) * (8 * (((y * y) * y) * z)))) == (7int * mono3(x, y, z, 0, 0, 0)) * (512int * mono3(x, y, z, 0, 9, 3)));
    lemma_coefficient_product(7int, mono3(x, y, z, 0, 0, 0), 512int, mono3(x, y, z, 0, 9, 3));
    lemma_mono3_mul(x, y, z, 0, 0, 0, 0, 9, 3);
    assert((7 * (((8 * (((y * y) * y) * z)) * (8 * (((y * y) * y) * z))) * (8 * (((y * y) * y) * z)))) == (3584int * mono3(x, y, z, 0, 9, 3)));
}

#[verifier::rlimit(60)]
proof fn lemma_double_curve_identity_part4(x: int, y: int, z: int)
    ensures
        ((((2000376int * mono3(x, y, z, 0, 3, 6)) + ((-95256int) * mono3(x, y, z, 0, 5, 4))) + ((1512int * mono3(x, y, z, 0, 7, 2)) + ((-8int) * mono3(x, y, z, 0, 9, 0)))) * ((((x * x) * x) + (7 * ((z * z) * z))) - ((y * y) * z))) == ((((14002632int * mono3(x, y, z, 0, 3, 9)) + ((-2667168int) * mono3(x, y, z, 0, 5, 7))) + ((105840int * mono3(x, y, z, 0, 7, 5)) + ((-1568int) * mono3(x, y, z, 0, 9, 3)))) + (((8int * mono3(x, y, z, 0, 11, 1)) + (2000376int * mono3(x, y, z, 3, 3, 6))) + (((-95256int) * mono3(x, y, z, 3, 5, 4)) + ((1512int * mono3(x, y, z, 3, 7, 2)) + ((-8int) * mono3(x, y, z, 3, 9, 0)))))),
{
    lemma_mono3_vars(x, y, z);
    assert(x == (1int * mono3(x, y, z, 1, 0, 0)));
    assert(x == (1int * mono3(x, y, z, 1, 0, 0)));
    assert((x * x) == (1int * mono3(x, y, z, 1, 0, 0)) * (1int * mono3(x, y, z, 1, 0, 0)));
    lemma_coefficient_product(1int, mono3(x, y, z, 1, 0, 0), 1int, mono3(x, y, z, 1, 0, 0));
    lemma_mono3_mul(x, y, z, 1, 0, 0, 1, 0, 0);
    assert((x * x) == (1int * mono3(x, y, z, 2, 0, 0)));
    assert(x == (1int * mono3(x, y, z, 1, 0, 0)));
    assert(((x * x) * x) == (1int * mono3(x, y, z, 2, 0, 0)) * (1int * mono3(x, y, z, 1, 0, 0)));
    lemma_coefficient_product(1int, mono3(x, y, z, 2, 0, 0), 1int, mono3(x, y, z, 1, 0, 0));
    lemma_mono3_mul(x, y, z, 2, 0, 0, 1, 0, 0);
    assert(((x * x) * x) == (1int * mono3(x, y, z, 3, 0, 0)));
    assert(7 == (7int * mono3(x, y, z, 0, 0, 0)));
    assert(z == (1int * mono3(x, y, z, 0, 0, 1)));
    assert(z == (1int * mono3(x, y, z, 0, 0, 1)));
    assert((z * z) == (1int * mono3(x, y, z, 0, 0, 1)) * (1int * mono3(x, y, z, 0, 0, 1)));
    lemma_coefficient_product(1int, mono3(x, y, z, 0, 0, 1), 1int, mono3(x, y, z, 0, 0, 1));
    lemma_mono3_mul(x, y, z, 0, 0, 1, 0, 0, 1);
    assert((z * z) == (1int * mono3(x, y, z, 0, 0, 2)));
    assert(z == (1int * mono3(x, y, z, 0, 0, 1)));
    assert(((z * z) * z) == (1int * mono3(x, y, z, 0, 0, 2)) * (1int * mono3(x, y, z, 0, 0, 1)));
    lemma_coefficient_product(1int, mono3(x, y, z, 0, 0, 2), 1int, mono3(x, y, z, 0, 0, 1));
    lemma_mono3_mul(x, y, z, 0, 0, 2, 0, 0, 1);
    assert(((z * z) * z) == (1int * mono3(x, y, z, 0, 0, 3)));
    assert((7 * ((z * z) * z)) == (7int * mono3(x, y, z, 0, 0, 0)) * (1int * mono3(x, y, z, 0, 0, 3)));
    lemma_coefficient_product(7int, mono3(x, y, z, 0, 0, 0), 1int, mono3(x, y, z, 0, 0, 3));
    lemma_mono3_mul(x, y, z, 0, 0, 0, 0, 0, 3);
    assert((7 * ((z * z) * z)) == (7int * mono3(x, y, z, 0, 0, 3)));
    assert((((x * x) * x) + (7 * ((z * z) * z))) == ((7int * mono3(x, y, z, 0, 0, 3)) + (1int * mono3(x, y, z, 3, 0, 0))));
    assert(y == (1int * mono3(x, y, z, 0, 1, 0)));
    assert(y == (1int * mono3(x, y, z, 0, 1, 0)));
    assert((y * y) == (1int * mono3(x, y, z, 0, 1, 0)) * (1int * mono3(x, y, z, 0, 1, 0)));
    lemma_coefficient_product(1int, mono3(x, y, z, 0, 1, 0), 1int, mono3(x, y, z, 0, 1, 0));
    lemma_mono3_mul(x, y, z, 0, 1, 0, 0, 1, 0);
    assert((y * y) == (1int * mono3(x, y, z, 0, 2, 0)));
    assert(z == (1int * mono3(x, y, z, 0, 0, 1)));
    assert(((y * y) * z) == (1int * mono3(x, y, z, 0, 2, 0)) * (1int * mono3(x, y, z, 0, 0, 1)));
    lemma_coefficient_product(1int, mono3(x, y, z, 0, 2, 0), 1int, mono3(x, y, z, 0, 0, 1));
    lemma_mono3_mul(x, y, z, 0, 2, 0, 0, 0, 1);
    assert(((y * y) * z) == (1int * mono3(x, y, z, 0, 2, 1)));
    assert(((((x * x) * x) + (7 * ((z * z) * z))) - ((y * y) * z)) == ((7int * mono3(x, y, z, 0, 0, 3)) + (((-1int) * mono3(x, y, z, 0, 2, 1)) + (1int * mono3(x, y, z, 3, 0, 0)))));
    assert(((((2000376int * mono3(x, y, z, 0, 3, 6)) + ((-95256int) * mono3(x, y, z, 0, 5, 4))) + ((1512int * mono3(x, y, z, 0, 7, 2)) + ((-8int) * mono3(x, y, z, 0, 9, 0)))) * ((((x * x) * x) + (7 * ((z * z) * z))) - ((y * y) * z))) == (((2000376int * mono3(x, y, z, 0, 3, 6)) + ((-95256int) * mono3(x, y, z, 0, 5, 4))) + ((1512int * mono3(x, y, z, 0, 7, 2)) + ((-8int) * mono3(x, y, z, 0, 9, 0)))) * ((7int * mono3(x, y, z, 0, 0, 3)) + (((-1int) * mono3(x, y, z, 0, 2, 1)) + (1int * mono3(x, y, z, 3, 0, 0)))));
    lemma_mul_is_distributive_add_other_way(((7int * mono3(x, y, z, 0, 0, 3)) + (((-1int) * mono3(x, y, z, 0, 2, 1)) + (1int * mono3(x, y, z, 3, 0, 0)))), ((2000376int * mono3(x, y, z, 0, 3, 6)) + ((-95256int) * mono3(x, y, z, 0, 5, 4))), ((1512int * mono3(x, y, z, 0, 7, 2)) + ((-8int) * mono3(x, y, z, 0, 9, 0))));
    lemma_mul_is_distributive_add_other_way(((7int * mono3(x, y, z, 0, 0, 3)) + (((-1int) * mono3(x, y, z, 0, 2, 1)) + (1int * mono3(x, y, z, 3, 0, 0)))), (2000376int * mono3(x, y, z, 0, 3, 6)), ((-95256int) * mono3(x, y, z, 0, 5, 4)));
    lemma_mul_is_distributive_add_other_way(((7int * mono3(x, y, z, 0, 0, 3)) + (((-1int) * mono3(x, y, z, 0, 2, 1)) + (1int * mono3(x, y, z, 3, 0, 0)))), (1512int * mono3(x, y, z, 0, 7, 2)), ((-8int) * mono3(x, y, z, 0, 9, 0)));
    lemma_mul_is_distributive_add((2000376int * mono3(x, y, z, 0, 3, 6)), (7int * mono3(x, y, z, 0, 0, 3)), (((-1int) * mono3(x, y, z, 0, 2, 1)) + (1int * mono3(x, y, z, 3, 0, 0))));
    lemma_mul_is_distributive_add((2000376int * mono3(x, y, z, 0, 3, 6)), ((-1int) * mono3(x, y, z, 0, 2, 1)), (1int * mono3(x, y, z, 3, 0, 0)));
    lemma_coefficient_product(2000376int, mono3(x, y, z, 0, 3, 6), 7int, mono3(x, y, z, 0, 0, 3));
    lemma_mono3_mul(x, y, z, 0, 3, 6, 0, 0, 3);
    lemma_coefficient_product(2000376int, mono3(x, y, z, 0, 3, 6), (-1int), mono3(x, y, z, 0, 2, 1));
    lemma_mono3_mul(x, y, z, 0, 3, 6, 0, 2, 1);
    lemma_coefficient_product(2000376int, mono3(x, y, z, 0, 3, 6), 1int, mono3(x, y, z, 3, 0, 0));
    lemma_mono3_mul(x, y, z, 0, 3, 6, 3, 0, 0);
    lemma_mul_is_distributive_add(((-95256int) * mono3(x, y, z, 0, 5, 4)), (7int * mono3(x, y, z, 0, 0, 3)), (((-1int) * mono3(x, y, z, 0, 2, 1)) + (1int * mono3(x, y, z, 3, 0, 0))));
    lemma_mul_is_distributive_add(((-95256int) * mono3(x, y, z, 0, 5, 4)), ((-1int) * mono3(x, y, z, 0, 2, 1)), (1int * mono3(x, y, z, 3, 0, 0)));
    lemma_coefficient_product((-95256int), mono3(x, y, z, 0, 5, 4), 7int, mono3(x, y, z, 0, 0, 3));
    lemma_mono3_mul(x, y, z, 0, 5, 4, 0, 0, 3);
    lemma_coefficient_product((-95256int), mono3(x, y, z, 0, 5, 4), (-1int), mono3(x, y, z, 0, 2, 1));
    lemma_mono3_mul(x, y, z, 0, 5, 4, 0, 2, 1);
    lemma_coefficient_product((-95256int), mono3(x, y, z, 0, 5, 4), 1int, mono3(x, y, z, 3, 0, 0));
    lemma_mono3_mul(x, y, z, 0, 5, 4, 3, 0, 0);
    lemma_mul_is_distributive_add((1512int * mono3(x, y, z, 0, 7, 2)), (7int * mono3(x, y, z, 0, 0, 3)), (((-1int) * mono3(x, y, z, 0, 2, 1)) + (1int * mono3(x, y, z, 3, 0, 0))));
    lemma_mul_is_distributive_add((1512int * mono3(x, y, z, 0, 7, 2)), ((-1int) * mono3(x, y, z, 0, 2, 1)), (1int * mono3(x, y, z, 3, 0, 0)));
    lemma_coefficient_product(1512int, mono3(x, y, z, 0, 7, 2), 7int, mono3(x, y, z, 0, 0, 3));
    lemma_mono3_mul(x, y, z, 0, 7, 2, 0, 0, 3);
    lemma_coefficient_product(1512int, mono3(x, y, z, 0, 7, 2), (-1int), mono3(x, y, z, 0, 2, 1));
    lemma_mono3_mul(x, y, z, 0, 7, 2, 0, 2, 1);
    lemma_coefficient_product(1512int, mono3(x, y, z, 0, 7, 2), 1int, mono3(x, y, z, 3, 0, 0));
    lemma_mono3_mul(x, y, z, 0, 7, 2, 3, 0, 0);
    lemma_mul_is_distributive_add(((-8int) * mono3(x, y, z, 0, 9, 0)), (7int * mono3(x, y, z, 0, 0, 3)), (((-1int) * mono3(x, y, z, 0, 2, 1)) + (1int * mono3(x, y, z, 3, 0, 0))));
    lemma_mul_is_distributive_add(((-8int) * mono3(x, y, z, 0, 9, 0)), ((-1int) * mono3(x, y, z, 0, 2, 1)), (1int * mono3(x, y, z, 3, 0, 0)));
    lemma_coefficient_product((-8int), mono3(x, y, z, 0, 9, 0), 7int, mono3(x, y, z, 0, 0, 3));
    lemma_mono3_mul(x, y, z, 0, 9, 0, 0, 0, 3);
    lemma_coefficient_product((-8int), mono3(x, y, z, 0, 9, 0), (-1int), mono3(x, y, z, 0, 2, 1));
    lemma_mono3_mul(x, y, z, 0, 9, 0, 0, 2, 1);
    lemma_coefficient_product((-8int), mono3(x, y, z, 0, 9, 0), 1int, mono3(x, y, z, 3, 0, 0));
    lemma_mono3_mul(x, y, z, 0, 9, 0, 3, 0, 0);
    assert(((((2000376int * mono3(x, y, z, 0, 3, 6)) + ((-95256int) * mono3(x, y, z, 0, 5, 4))) + ((1512int * mono3(x, y, z, 0, 7, 2)) + ((-8int) * mono3(x, y, z, 0, 9, 0)))) * ((((x * x) * x) + (7 * ((z * z) * z))) - ((y * y) * z))) == ((((14002632int * mono3(x, y, z, 0, 3, 9)) + ((-2667168int) * mono3(x, y, z, 0, 5, 7))) + ((105840int * mono3(x, y, z, 0, 7, 5)) + ((-1568int) * mono3(x, y, z, 0, 9, 3)))) + (((8int * mono3(x, y, z, 0, 11, 1)) + (2000376int * mono3(x, y, z, 3, 3, 6))) + (((-95256int) * mono3(x, y, z, 3, 5, 4)) + ((1512int * mono3(x, y, z, 3, 7, 2)) + ((-8int) * mono3(x, y, z, 3, 9, 0)))))));
}

/// Polynomial identity behind the closure of the doubling formula on the curve.
pub proof fn lemma_double_curve_identity(x: int, y: int, z: int)
    ensures
        ((((((((y * y) - (63 * (z * z))) * ((y * y) + (21 * (z * z)))) + (168 * ((y * y) * (z * z)))) * ((((y * y) - (63 * (z * z))) * ((y * y) + (21 * (z * z)))) + (168 * ((y * y) * (z * z))))) * (8 * (((y * y) * y) * z))) - ((((2 * (x * y)) * ((y * y) - (63 * (z * z)))) * ((2 * (x * y)) * ((y * y) - (63 * (z * z))))) * ((2 * (x * y)) * ((y * y) - (63 * (z * z)))))) - (7 * (((8 * (((y * y) * y) * z)) * (8 * (((y * y) * y) * z))) * (8 * (((y * y) * y) * z))))) == ((((2000376int * mono3(x, y, z, 0, 3, 6)) + ((-95256int) * mono3(x, y, z, 0, 5, 4))) + ((1512int * mono3(x, y, z, 0, 7, 2)) + ((-8int) * mono3(x, y, z, 0, 9, 0)))) * ((((x * x) * x) + (7 * ((z * z) * z))) - ((y * y) * z))),
{
    lemma_double_curve_identity_part1(x, y, z);
    lemma_double_curve_identity_part2(x, y, z);
    lemma_double_curve_identity_part3(x, y, z);
    lemma_double_curve_identity_part4(x, y, z);
}

/// The doubling formula maps a point of the curve to a point of the curve.
pub proof fn lemma_double_curve(x: int, y: int, z: int)
    requires
        modp(((((x * x) * x) + (7 * ((z * z) * z))) - ((y * y) * z))) == 0,
    ensures
        modp(((((((((y * y) - (63 * (z * z))) * ((y * y) + (21 * (z * z)))) + (168 * ((y * y) * (z * z)))) * ((((y * y) - (63 * (z * z))) * ((y * y) + (21 * (z * z)))) + (168 * ((y * y) * (z * z))))) * (8 * (((y * y) * y) * z))) - ((((2 * (x * y)) * ((y * y) - (63 * (z * z)))) * ((2 * (x * y)) * ((y * y) - (63 * (z * z))))) * ((2 * (x * y)) * ((y * y) - (63 * (z * z)))))) - (7 * (((8 * (((y * y) * y) * z)) * (8 * (((y * y) * y) * z))) * (8 * (((y * y) * y) * z)))))) == 0,
{
    lemma_double_curve_identity(x, y, z);
    lemma_multiple_of_zero((((2000376int * mono3(x, y, z, 0, 3, 6)) + ((-95256int) * mono3(x, y, z, 0, 5, 4))) + ((1512int * mono3(x, y, z, 0, 7, 2)) + ((-8int) * mono3(x, y, z, 0, 9, 0)))), ((((x * x) * x) + (7 * ((z * z) * z))) - ((y * y) * z)));
}

#[verifier::rlimit(60)]
proof fn lemma_add_curve_identity_part1(x1: int, y1: int, z1: int, x2: int, y2: int, z2: int)
    ensures
        ((((((y1 * y2) + (21 * (z1 * z2))) * ((y1 * y2) - (21 * (z1 * z2)))) + ((63 * (x1 * x2)) * ((x1 * z2) + (z1 * x2)))) * ((((y1 * y2) + (21 * (z1 * z2))) * ((y1 * y2) - (21 * (z1 * z2)))) + ((63 * (x1 * x2)) * ((x1 * z2) + (z1 * x2))))) * ((((y1 * z2) + (z1 * y2)) * ((y1 * y2) + (21 * (z1 * z2)))) + ((3 * (x1 * x2)) * ((x1 * y2) + (y1 * x2))))) == ((((((4084101int * mono6(x1, y1, z1, x2, y2, z2, 0, 0, 6, 0, 1, 5)) + ((4084101int * mono6(x1, y1, z1, x2, y2, z2, 0, 1, 5, 0, 0, 6)) + (194481int * mono6(x1, y1, z1, x2, y2, z2, 0, 1, 5, 0, 2, 4)))) + ((194481int * mono6(x1, y1, z1, x2, y2, z2, 0, 2, 4, 0, 1, 5)) + (((-18522int) * mono6(x1, y1, z1, x2, y2, z2, 0, 2, 4, 0, 3, 3)) + ((-18522int) * mono6(x1, y1, z1, x2, y2, z2, 0, 3, 3, 0, 2, 4))))) + ((((-882int) * mono6(x1, y1, z1, x2, y2, z2, 0, 3, 3, 0, 4, 2)) + (((-882int) * mono6(x1, y1, z1, x2, y2, z2, 0, 4, 2, 0, 3, 3)) + (21int * mono6(x1, y1, z1, x2, y2, z2, 0, 4, 2, 0, 5, 1)))) + ((21int * mono6(x1, y1, z1, x2, y2, z2, 0, 5, 1, 0, 4, 2)) + ((1int * mono6(x1, y1, z1, x2, y2, z2, 0, 5, 1, 0, 6, 0)) + (1int * mono6(x1, y1, z1, x2, y2, z2, 0, 6, 0, 0, 5, 1)))))) + (((((-1166886int) * mono6(x1, y1, z1, x2, y2, z2, 1, 0, 5, 2, 1, 3)) + (((-583443int) * mono6(x1, y1, z1, x2, y2, z2, 1, 1, 4, 2, 0, 4)) + ((-55566int) * mono6(x1, y1, z1, x2, y2, z2, 1, 1, 4, 2, 2, 2)))) + (((-55566int) * mono6(x1, y1, z1, x2, y2, z2, 1, 2, 3, 2, 1, 3)) + ((2646int * mono6(x1, y1, z1, x2, y2, z2, 1, 2, 3, 2, 3, 1)) + (126int * mono6(x1, y1, z1, x2, y2, z2, 1, 3, 2, 2, 4, 0))))) + (((126int * mono6(x1, y1, z1, x2, y2, z2, 1, 4, 1, 2, 3, 1)) + ((3int * mono6(x1, y1, z1, x2, y2, z2, 1, 5, 0, 2, 4, 0)) + ((-583443int) * mono6(x1, y1, z1, x2, y2, z2, 2, 0, 4, 1, 1, 4)))) + ((83349int * mono6(x1, y1, z1, x2, y2, z2, 2, 0, 4, 4, 1, 1)) + (((-1166886int) * mono6(x1, y1, z1, x2, y2, z2, 2, 1, 3, 1, 0, 5)) + ((-55566int) * mono6(x1, y1, z1, x2, y2, z2, 2, 1, 3, 1, 2, 3))))))) + ((((((-83349int) * mono6(x1, y1, z1, x2, y2, z2, 2, 1, 3, 4, 0, 2)) + ((3969int * mono6(x1, y1, z1, x2, y2, z2, 2, 1, 3, 4, 2, 0)) + ((-55566int) * mono6(x1, y1, z1, x2, y2, z2, 2, 2, 2, 1, 1, 4)))) + ((3969int * mono6(x1, y1, z1, x2, y2, z2, 2, 2, 2, 4, 1, 1)) + ((2646int * mono6(x1, y1, z1, x2, y2, z2, 2, 3, 1, 1, 2, 3)) + (126int * mono6(x1, y1, z1, x2, y2, z2, 2, 3, 1, 1, 4, 1))))) + (((378int * mono6(x1, y1, z1, x2, y2, z2, 2, 3, 1, 4, 2, 0)) + ((126int * mono6(x1, y1, z1, x2, y2, z2, 2, 4, 0, 1, 3, 2)) + (3int * mono6(x1, y1, z1, x2, y2, z2, 2, 4, 0, 1, 5, 0)))) + ((7938int * mono6(x1, y1, z1, x2, y2, z2, 3, 1, 2, 3, 2, 1)) + ((11907int * mono6(x1, y1, z1, x2, y2, z2, 3, 1, 2, 6, 0, 0)) + (7938int * mono6(x1, y1, z1, x2, y2, z2, 3, 2, 1, 3, 1, 2)))))) + ((((378int * mono6(x1, y1, z1, x2, y2, z2, 3, 2, 1, 3, 3, 0)) + ((378int * mono6(x1, y1, z1, x2, y2, z2, 3, 3, 0, 3, 2, 1)) + ((-83349int) * mono6(x1, y1, z1, x2, y2, z2, 4, 0, 2, 2, 1, 3)))) + ((11907int * mono6(x1, y1, z1, x2, y2, z2, 4, 0, 2, 5, 1, 0)) + ((83349int * mono6(x1, y1, z1, x2, y2, z2, 4, 1, 1, 2, 0, 4)) + (3969int * mono6(x1, y1, z1, x2, y2, z2, 4, 1, 1, 2, 2, 2))))) + (((23814int * mono6(x1, y1, z1, x2, y2, z2, 4, 1, 1, 5, 0, 1)) + ((3969int * mono6(x1, y1, z1, x2, y2, z2, 4, 2, 0, 2, 1, 3)) + (378int * mono6(x1, y1, z1, x2, y2, z2, 4, 2, 0, 2, 3, 1)))) + ((23814int * mono6(x1, y1, z1, x2, y2, z2, 5, 0, 1, 4, 1, 1)) + ((11907int * mono6(x1, y1, z1, x2, y2, z2, 5, 1, 0, 4, 0, 2)) + (11907int * mono6(x1, y1, z1, x2, y2, z2, 6, 0, 0, 3, 1, 2)))))))),
{
    lemma_mono6_vars(x1, y1, z1, x2, y2, z2);
    assert(y1 == (1int * mono6(x1, y1, z1, x2, y2, z2, 0, 1, 0, 0, 0, 0)));
    assert(y2 == (1int * mono6(x1, y1, z1, x2, y2, z2, 0, 0, 0, 0, 1, 0)));
    assert((y1 * y2) == (1int * mono6(x1, y1, z1, x2, y2, z2, 0, 1, 0, 0, 0, 0)) * (1int * mono6(x1, y1, z1, x2, y2, z2, 0, 0, 0, 0, 1, 0)));
    lemma_coefficient_product(1int, mono6(x1, y1, z1, x2, y2, z2, 0, 1, 0, 0, 0, 0), 1int, mono6(x1, y1, z1, x2, y2, z2, 0, 0, 0, 0, 1, 0));
    lemma_mono6_mul(x1, y1, z1, x2, y2, z2, 0, 1, 0, 0, 0, 0, 0, 0, 0, 0, 1, 0);
    assert((y1 * y2) == (1int * mono6(x1, y1, z1, x2, y2, z2, 0, 1, 0, 0, 1, 0)));
    assert(21 == (21int * mono6(x1, y1, z1, x2, y2, z2, 0, 0, 0, 0, 0, 0)));
    assert(z1 == (1int * mono6(x1, y1, z1, x2, y2, z2, 0, 0, 1, 0, 0, 0)));
    assert(z2 == (1int * mono6(x1, y1, z1, x2, y2, z2, 0, 0, 0, 0, 0, 1)));
    assert((z1 * z2) == (1int * mono6(x1, y1, z1, x2, y2, z2, 0, 0, 1, 0, 0, 0)) * (1int * mono6(x1, y1, z1, x2, y2, z2, 0, 0, 0, 0, 0, 1)));
    lemma_coefficient_product(1int, mono6(x1, y1, z1, x2, y2, z2, 0, 0, 1, 0, 0, 0), 1int, mono6(x1, y1, z1, x2, y2, z2, 0, 0, 0, 0, 0, 1));
    lemma_mono6_mul(x1, y1, z1, x2, y2, z2, 0, 0, 1, 0, 0, 0, 0, 0, 0, 0, 0, 1);
    assert((z1 * z2) == (1int * mono6(x1, y1, z1, x2, y2, z2, 0, 0, 1, 0, 0, 1)));
    assert((21 * (z1 * z2)) == (21int * mono6(x1, y1, z1, x2, y2, z2, 0, 0, 0, 0, 0, 0)) * (1int * mono6(x1, y1, z1, x2, y2, z2, 0, 0, 1, 0, 0, 1)));
    lemma_coefficient_product(21int, mono6(x1, y1, z1, x2, y2, z2, 0, 0, 0, 0, 0, 0), 1int, mono6(x1, y1, z1, x2, y2, z2, 0, 0, 1, 0, 0, 1));
    lemma_mono6_mul(x1, y1, z1, x2, y2, z2, 0, 0, 0, 0, 0, 0, 0, 0, 1, 0, 0, 1);
    assert((21 * (z1 * z2)) == (21int * mono6(x1, y1, z1, x2, y2, z2, 0, 0, 1, 0, 0, 1)));
    assert(((y1 * y2) + (21 * (z1 * z2))) == ((21int * mono6(x1, y1, z1, x2, y2, z2, 0, 0, 1, 0, 0, 1)) + (1int * mono6(x1, y1, z1, x2, y2, z2, 0, 1, 0, 0, 1, 0))));
    assert(y1 == (1int * mono6(x1, y1, z1, x2, y2, z2, 0, 1, 0, 0, 0, 0)));
    assert(y2 == (1int * mono6(x1, y1, z1, x2, y2, z2, 0, 0, 0, 0, 1, 0)));
    assert((y1 * y2) == (1int * mono6(x1, y1, z1, x2, y2, z2, 0, 1, 0, 0, 0, 0)) * (1int * mono6(x1, y1, z1, x2, y2, z2, 0, 0, 0, 0, 1, 0)));
    lemma_coefficient_product(1int, mono6(x1, y1, z1, x2, y2, z2, 0, 1, 0, 0, 0, 0), 1int, mono6(x1, y1, z1, x2, y2, z2, 0, 0, 0, 0, 1, 0));
    lemma_mono6_mul(x1, y1, z1, x2, y2, z2, 0, 1, 0, 0, 0, 0, 0, 0, 0, 0, 1, 0);
    assert((y1 * y2) == (1int * mono6(x1, y1, z1, x2, y2, z2, 0, 1, 0, 0, 1, 0)));
    assert(21 == (21int * mono6(x1, y1, z1, x2, y2, z2, 0, 0, 0, 0, 0, 0)));
    assert(z1 == (1int * mono6(x1, y1, z1, x2, y2, z2, 0, 0, 1, 0, 0, 0)));
    assert(z2 == (1int * mono6(x1, y1, z1, x2, y2, z2, 0, 0, 0, 0, 0, 1)));
    assert((z1 * z2) == (1int * mono6(x1, y1, z1, x2, y2, z2, 0, 0, 1, 0, 0, 0)) * (1int * mono6(x1, y1, z1, x2, y2, z2, 0, 0, 0, 0, 0, 1)));
    lemma_coefficient_product(1int, mono6(x1, y1, z1, x2, y2, z2, 0, 0, 1, 0, 0, 0), 1int, mono6(x1, y1, z1, x2, y2, z2, 0, 0, 0, 0, 0, 1));
    lemma_mono6_mul(x1, y1, z1, x2, y2, z2, 0, 0, 1, 0, 0, 0, 0, 0, 0, 0, 0, 1);
    assert((z1 * z2) == (1int * mono6(x1, y1, z1, x2, y2, z2, 0, 0, 1, 0, 0, 1)));
    assert((21 * (z1 * z2)) == (21int * mono6(x1, y1, z1, x2, y2, z2, 0, 0, 0, 0, 0, 0)) * (1int * mono6(x1, y1, z1, x2, y2, z2, 0, 0, 1, 0, 0, 1)));
    lemma_coefficient_product(21int, mono6(x1, y1, z1, x2, y2, z2, 0, 0, 0, 0, 0, 0), 1int, mono6(x1, y1, z1, x2, y2, z2, 0, 0, 1, 0, 0, 1));
    lemma_mono6_mul(x1, y1, z1, x2, y2, z2, 0, 0, 0, 0, 0, 0, 0, 0, 1, 0, 0, 1);
    assert((21 * (z1 * z2)) == (21int * mono6(x1, y1, z1, x2, y2, z2, 0, 0, 1, 0, 0, 1)));
    assert(((y1 * y2) - (21 * (z1 * z2))) == (((-21int) * mono6(x1, y1, z1, x2, y2, z2, 0, 0, 1, 0, 0, 1)) + (1int * mono6(x1, y1, z1, x2, y2, z2, 0, 1, 0, 0, 1, 0))));
    assert((((y1 * y2) + (21 * (z1 * z2))) * ((y1 * y2) - (21 * (z1 * z2)))) == ((21int * mono6(x1, y1, z1, x2, y2, z2, 0, 0, 1, 0, 0, 1)) + (1int * mono6(x1, y1, z1, x2, y2, z2, 0, 1, 0, 0, 1, 0))) * (((-21int) * mono6(x1, y1, z1, x2, y2, z2, 0, 0, 1, 0, 0, 1)) + (1int * mono6(x1, y1, z1, x2, y2, z2, 0, 1, 0, 0, 1, 0))));
    lemma_mul_is_distributive_add_other_way((((-21int) * mono6(x1, y1, z1, x2, y2, z2, 0, 0, 1, 0, 0, 1)) + (1int * mono6(x1, y1, z1, x2, y2, z2, 0, 1, 0, 0, 1, 0))), (21int * mono6(x1, y1, z1, x2, y2, z2, 0, 0, 1, 0, 0, 1)), (1int * mono6(x1, y1, z1, x2, y2, z2, 0, 1, 0, 0, 1, 0)));
    lemma_mul_is_distributive_add((21int * mono6(x1, y1, z1, x2, y2, z2, 0, 0, 1, 0, 0, 1)), ((-21int) * mono6(x1, y1, z1, x2, y2, z2, 0, 0, 1, 0, 0, 1)), (1int * mono6(x1, y1, z1, x2, y2, z2, 0, 1, 0, 0, 1, 0)));
    lemma_coefficient_product(21int, mono6(x1, y1, z1, x2, y2, z2, 0, 0, 1, 0, 0, 1), (-21int), mono6(x1, y1, z1, x2, y2, z2, 0, 0, 1, 0, 0, 1));
    lemma_mono6_mul(x1, y1, z1, x2, y2, z2, 0, 0, 1, 0, 0, 1, 0, 0, 1, 0, 0, 1);
    lemma_coefficient_product(21int, mono6(x1, y1, z1, x2, y2, z2, 0, 0, 1, 0, 0, 1), 1int, mono6(x1, y1, z1, x2, y2, z2, 0, 1, 0, 0, 1, 0));
    lemma_mono6_mul(x1, y1, z1, x2, y2, z2, 0, 0, 1, 0, 0, 1, 0, 1, 0, 0, 1, 0);
    lemma_mul_is_distributive_add((1int * mono6(x1, y1, z1, x2, y2, z2, 0, 1, 0, 0, 1, 0)), ((-21int) * mono6(x1, y1, z1, x2, y2, z2, 0, 0, 1, 0, 0, 1)), (1int * mono6(x1, y1, z1, x2, y2, z2, 0, 1, 0, 0, 1, 0)));
    lemma_coefficient_product(1int, mono6(x1, y1, z1, x2, y2, z2, 0, 1, 0, 0, 1, 0), (-21int), mono6(x1, y1, z1, x2, y2, z2, 0, 0, 1, 0, 0, 1));
    lemma_mono6_mul(x1, y1, z1, x2, y2, z2, 0, 1, 0, 0, 1, 0, 0, 0, 1, 0, 0, 1);
    lemma_coefficient_product(1int, mono6(x1, y1, z1, x2, y2, z2, 0, 1, 0, 0, 1, 0), 1int, mono6(x1, y1, z1, x2, y2, z2, 0, 1, 0, 0, 1, 0));
    lemma_mono6_mul(x1, y1, z1, x2, y2, z2, 0, 1, 0, 0, 1, 0, 0, 1, 0, 0, 1, 0);
    assert((((y1 * y2) + (21 * (z1 * z2))) * ((y1 * y2) - (21 * (z1 * z2)))) == (((-441int) * mono6(x1, y1, z1, x2, y2, z2, 0, 0, 2, 0, 0, 2)) + (1int * mono6(x1, y1, z1, x2, y2, z2, 0, 2, 0, 0, 2, 0))));
    assert(63 == (63int * mono6(x1, y1, z1, x2, y2, z2, 0, 0, 0, 0, 0, 0)));
    assert(x1 == (1int * mono6(x1, y1, z1, x2, y2, z2, 1, 0, 0, 0, 0, 0)));
    assert(x2 == (1int * mono6(x1, y1, z1, x2, y2, z2, 0, 0, 0, 1, 0, 0)));
    assert((x1 * x2) == (1int * mono6(x1, y1, z1, x2, y2, z2, 1, 0, 0, 0, 0, 0)) * (1int * mono6(x1, y1, z1, x2, y2, z2, 0, 0, 0, 1, 0, 0)));
    lemma_coefficient_product(1int, mono6(x1, y1, z1, x2, y2, z2, 1, 0, 0, 0, 0, 0), 1int, mono6(x1, y1, z1, x2, y2, z2, 0, 0, 0, 1, 0, 0));
    lemma_mono6_mul(x1, y1, z1, x2, y2, z2, 1, 0, 0, 0, 0, 0, 0, 0, 0, 1, 0, 0);
    assert((x1 * x2) == (1int * mono6(x1, y1, z1, x2, y2, z2, 1, 0, 0, 1, 0, 0)));
    assert((63 * (x1 * x2)) == (63int * mono6(x1, y1, z1, x2, y2, z2, 0, 0, 0, 0, 0, 0)) * (1int * mono6(x1, y1, z1, x2, y2, z2, 1, 0, 0, 1, 0, 0)));
    lemma_coefficient_product(63int, mono6(x1, y1, z1, x2, y2, z2, 0, 0, 0, 0, 0, 0), 1int, mono6(x1, y1, z1, x2, y2, z2, 1, 0, 0, 1, 0, 0));
    lemma_mono6_mul(x1, y1, z1, x2, y2, z2, 0, 0, 0, 0, 0, 0, 1, 0, 0, 1, 0, 0);
    assert((63 * (x1 * x2)) == (63int * mono6(x1, y1, z1, x2, y2, z2, 1, 0, 0, 1, 0, 0)));
    assert(x1 == (1int * mono6(x1, y1, z1, x2, y2, z2, 1, 0, 0, 0, 0, 0)));
    assert(z2 == (1int * mono6(x1, y1, z1, x2, y2, z2, 0, 0, 0, 0, 0, 1)));
    assert((x1 * z2) == (1int * mono6(x1, y1, z1, x2, y2, z2, 1, 0, 0, 0, 0, 0)) * (1int * mono6(x1, y1, z1, x2, y2, z2, 0, 0, 0, 0, 0, 1)));
    lemma_coefficient_product(1int, mono6(x1, y1, z1, x2, y2, z2, 1, 0, 0, 0, 0, 0), 1int, mono6(x1, y1, z1, x2, y2, z2, 0, 0, 0, 0, 0, 1));
    lemma_mono6_mul(x1, y1, z1, x2, y2, z2, 1, 0, 0, 0, 0, 0, 0, 0, 0, 0, 0, 1);
    assert((x1 * z2) == (1int * mono6(x1, y1, z1, x2, y2, z2, 1, 0, 0, 0, 0, 1)));
    assert(z1 == (1int * mono6(x1, y1, z1, x2, y2, z2, 0, 0, 1, 0, 0, 0)));
    assert(x2 == (1int * mono6(x1, y1, z1, x2, y2, z2, 0, 0, 0, 1, 0, 0)));
    assert((z1 * x2) == (1int * mono6(x1, y1, z1, x2, y2, z2, 0, 0, 1, 0, 0, 0)) * (1int * mono6(x1, y1, z1, x2, y2, z2, 0, 0, 0, 1, 0, 0)));
    lemma_coefficient_product(1int, mono6(x1, y1, z1, x2, y2, z2, 0, 0, 1, 0, 0, 0), 1int, mono6(x1, y1, z1, x2, y2, z2, 0, 0, 0, 1, 0, 0));
    lemma_mono6_mul(x1, y1, z1, x2, y2, z2, 0, 0, 1, 0, 0, 0, 0, 0, 0, 1, 0, 0);
    assert((z1 * x2) == (1int * mono6(x1, y1, z1, x2, y2, z2, 0, 0, 1, 1, 0, 0)));
    assert(((x1 * z2) + (z1 * x2)) == ((1int * mono6(x1, y1, z1, x2, y2, z2, 0, 0, 1, 1, 0, 0)) + (1int * mono6(x1, y1, z1, x2, y2, z2, 1, 0, 0, 0, 0, 1))));
    assert(((63 * (x1 * x2)) * ((x1 * z2) + (z1 * x2))) == (63int * mono6(x1, y1, z1, x2, y2, z2, 1, 0, 0, 1, 0, 0)) * ((1int * mono6(x1, y1, z1, x2, y2, z2, 0, 0, 1, 1, 0, 0)) + (1int * mono6(x1, y1, z1, x2, y2, z2, 1, 0, 0, 0, 0, 1))));
    lemma_mul_is_distributive_add((63int * mono6(x1, y1, z1, x2, y2, z2, 1, 0, 0, 1, 0, 0)), (1int * mono6(x1, y1, z1, x2, y2, z2, 0, 0, 1, 1, 0, 0)), (1int * mono6(x1, y1, z1, x2, y2, z2, 1, 0, 0, 0, 0, 1)));
    lemma_coefficient_product(63int, mono6(x1, y1, z1, x2, y2, z2, 1, 0, 0, 1, 0, 0), 1int, mono6(x1, y1, z1, x2, y2, z2, 0, 0, 1, 1, 0, 0));
    lemma_mono6_mul(x1, y1, z1, x2, y2, z2, 1, 0, 0, 1, 0, 0, 0, 0, 1, 1, 0, 0);
    lemma_coefficient_product(63int, mono6(x1, y1, z1, x2, y2, z2, 1, 0, 0, 1, 0, 0), 1int, mono6(x1, y1, z1, x2, y2, z2, 1, 0, 0, 0, 0, 1));
    lemma_mono6_mul(x1, y1, z1, x2, y2, z2, 1, 0, 0, 1, 0, 0, 1, 0, 0, 0, 0, 1);
    assert(((63 * (x1 * x2)) * ((x1 * z2) + (z1 * x2))) == ((63int * mono6(x1, y1, z1, x2, y2, z2, 1, 0, 1, 2, 0, 0)) + (63int * mono6(x1, y1, z1, x2, y2, z2, 2, 0, 0, 1, 0, 1))));
    assert(((((y1 * y2) + (21 * (z1 * z2))) * ((y1 * y2) - (21 * (z1 * z2)))) + ((63 * (x1 * x2)) * ((x1 * z2) + (z1 * x2)))) == ((((-441int) * mono6(x1, y1, z1, x2, y2, z2, 0, 0, 2, 0, 0, 2)) + (1int * mono6(x1, y1, z1, x2, y2, z2, 0, 2, 0, 0, 2, 0))) + ((63int * mono6(x1, y1, z1, x2, y2, z2, 1, 0, 1, 2, 0, 0)) + (63int * mono6(x1, y1, z1, x2, y2, z2, 2, 0, 0, 1, 0, 1)))));
    assert(y1 == (1int * mono6(x1, y1, z1, x2, y2, z2, 0, 1, 0, 0, 0, 0)));
    assert(y2 == (1int * mono6(x1, y1, z1, x2, y2, z2, 0, 0, 0, 0, 1, 0)));
    assert((y1 * y2) == (1int * mono6(x1, y1, z1, x2, y2, z2, 0, 1, 0, 0, 0, 0)) * (1int * mono6(x1, y1, z1, x2, y2, z2, 0, 0, 0, 0, 1, 0)));
    lemma_coefficient_product(1int, mono6(x1, y1, z1, x2, y2, z2, 0, 1, 0, 0, 0, 0), 1int, mono6(x1, y1, z1, x2, y2, z2, 0, 0, 0, 0, 1, 0));
    lemma_mono6_mul(x1, y1, z1, x2, y2, z2, 0, 1, 0, 0, 0, 0, 0, 0, 0, 0, 1, 0);
    assert((y1 * y2) == (1int * mono6(x1, y1, z1, x2, y2, z2, 0, 1, 0, 0, 1, 0)));
    assert(21 == (21int * mono6(x1, y1, z1, x2, y2, z2, 0, 0, 0, 0, 0, 0)));
    assert(z1 == (1int * mono6(x1, y1, z1, x2, y2, z2, 0, 0, 1, 0, 0, 0)));
    assert(z2 == (1int * mono6(x1, y1, z1, x2, y2, z2, 0, 0, 0, 0, 0, 1)));
    assert((z1 * z2) == (1int * mono6(x1, y1, z1, x2, y2, z2, 0, 0, 1, 0, 0, 0)) * (1int * mono6(x1, y1, z1, x2, y2, z2, 0, 0, 0, 0, 0, 1)));
    lemma_coefficient_product(1int, mono6(x1, y1, z1, x2, y2, z2, 0, 0, 1, 0, 0, 0), 1int, mono6(x1, y1, z1, x2, y2, z2, 0, 0, 0, 0, 0, 1));
    lemma_mono6_mul(x1, y1, z1, x2, y2, z2, 0, 0, 1, 0, 0, 0, 0, 0, 0, 0, 0, 1);
    assert((z1 * z2) == (1int * mono6(x1, y1, z1, x2, y2, z2, 0, 0, 1, 0, 0, 1)));
    assert((21 * (z1 * z2)) == (21int * mono6(x1, y1, z1, x2, y2, z2, 0, 0, 0, 0, 0, 0)) * (1int * mono6(x1, y1, z1, x2, y2, z2, 0, 0, 1, 0, 0, 1)));
    lemma_coefficient_product(21int, mono6(x1, y1, z1, x2, y2, z2, 0, 0, 0, 0, 0, 0), 1int, mono6(x1, y1, z1, x2, y2, z2, 0, 0, 1, 0, 0, 1));
    lemma_mono6_mul(x1, y1, z1, x2, y2, z2, 0, 0, 0, 0, 0, 0, 0, 0, 1, 0, 0, 1);
    assert((21 * (z1 * z2)) == (21int * mono6(x1, y1, z1, x2, y2, z2, 0, 0, 1, 0, 0, 1)));
    assert(((y1 * y2) + (21 * (z1 * z2))) == ((21int * mono6(x1, y1, z1, x2, y2, z2, 0, 0, 1, 0, 0, 1)) + (1int * mono6(x1, y1, z1, x2, y2, z2, 0, 1, 0, 0, 1, 0))));
    assert(y1 == (1int * mono6(x1, y1, z1, x2, y2, z2, 0, 1, 0, 0, 0, 0)));
    assert(y2 == (1int * mono6(x1, y1, z1, x2, y2, z2, 0, 0, 0, 0, 1, 0)));
    assert((y1 * y2) == (1int * mono6(x1, y1, z1, x2, y2, z2, 0, 1, 0, 0, 0, 0)) * (1int * mono6(x1, y1, z1, x2, y2, z2, 0, 0, 0, 0, 1, 0)));
    lemma_coefficient_product(1int, mono6(x1, y1, z1, x2, y2, z2, 0, 1, 0, 0, 0, 0), 1int, mono6(x1, y1, z1, x2, y2, z2, 0, 0, 0, 0, 1, 0));
    lemma_mono6_mul(x1, y1, z1, x2, y2, z2, 0, 1, 0, 0, 0, 0, 0, 0, 0, 0, 1, 0);
    assert((y1 * y2) == (1int * mono6(x1, y1, z1, x2, y2, z2, 0, 1, 0, 0, 1, 0)));
    assert(21 == (21int * mono6(x1, y1, z1, x2, y2, z2, 0, 0, 0, 0, 0, 0)));
    assert(z1 == (1int * mono6(x1, y1, z1, x2, y2, z2, 0, 0, 1, 0, 0, 0)));
    assert(z2 == (1int * mono6(x1, y1, z1, x2, y2, z2, 0, 0, 0, 0, 0, 1)));
    assert((z1 * z2) == (1int * mono6(x1, y1, z1, x2, y2, z2, 0, 0, 1, 0, 0, 0)) * (1int * mono6(x1, y1, z1, x2, y2, z2, 0, 0, 0, 0, 0, 1)));
    lemma_coefficient_product(1int, mono6(x1, y1, z1, x2, y2, z2, 0, 0, 1, 0, 0, 0), 1int, mono6(x1, y1, z1, x2, y2, z2, 0, 0, 0, 0, 0, 1));
    lemma_mono6_mul(x1, y1, z1, x2, y2, z2, 0, 0, 1, 0, 0, 0, 0, 0, 0, 0, 0, 1);
    assert((z1 * z2) == (1int * mono6(x1, y1, z1, x2, y2, z2, 0, 0, 1, 0, 0, 1)));
    assert((21 * (z1 * z2)) == (21int * mono6(x1, y1, z1, x2, y2, z2, 0, 0, 0, 0, 0, 0)) * (1int * mono6(x1, y1, z1, x2, y2, z2, 0, 0, 1, 0, 0, 1)));
    lemma_coefficient_product(21int, mono6(x1, y1, z1, x2, y2, z2, 0, 0, 0, 0, 0, 0), 1int, mono6(x1, y1, z1, x2, y2, z2, 0, 0, 1, 0, 0, 1));
    lemma_mono6_mul(x1, y1, z1, x2, y2, z2, 0, 0, 0, 0, 0, 0, 0, 0, 1, 0, 0, 1);
    assert((21 * (z1 * z2)) == (21int * mono6(x1, y1, z1, x2, y2, z2, 0, 0, 1, 0, 0, 1)));
    assert(((y1 * y2) - (21 * (z1 * z2))) == (((-21int) * mono6(x1, y1, z1, x2, y2, z2, 0, 0, 1, 0, 0, 1)) + (1int * mono6(x1, y1, z1, x2, y2, z2, 0, 1, 0, 0, 1, 0))));
    assert((((y1 * y2) + (21 * (z1 * z2))) * ((y1 * y2) - (21 * (z1 * z2)))) == ((21int * mono6(x1, y1, z1, x2, y2, z2, 0, 0, 1, 0, 0, 1)) + (1int * mono6(x1, y1, z1, x2, y2, z2, 0, 1, 0, 0, 1, 0))) * (((-21int) * mono6(x1, y1, z1, x2, y2, z2, 0, 0, 1, 0, 0, 1)) + (1int * mono6(x1, y1, z1, x2, y2, z2, 0, 1, 0, 0, 1, 0))));
    lemma_mul_is_distributive_add_other_way((((-21int) * mono6(x1, y1, z1, x2, y2, z2, 0, 0, 1, 0, 0, 1)) + (1int * mono6(x1, y1, z1, x2, y2, z2, 0, 1, 0, 0, 1, 0))), (21int * mono6(x1, y1, z1, x2, y2, z2, 0, 0, 1, 0, 0, 1)), (1int * mono6(x1, y1, z1, x2, y2, z2, 0, 1, 0, 0, 1, 0)));
    lemma_mul_is_distributive_add((21int * mono6(x1, y1, z1, x2, y2, z2, 0, 0, 1, 0, 0, 1)), ((-21int) * mono6(x1, y1, z1, x2, y2, z2, 0, 0, 1, 0, 0, 1)), (1int * mono6(x1, y1, z1, x2, y2, z2, 0, 1, 0, 0, 1, 0)));
    lemma_coefficient_product(21int, mono6(x1, y1, z1, x2, y2, z2, 0, 0, 1, 0, 0, 1), (-21int), mono6(x1, y1, z1, x2, y2, z2, 0, 0, 1, 0, 0, 1));
    lemma_mono6_mul(x1, y1, z1, x2, y2, z2, 0, 0, 1, 0, 0, 1, 0, 0, 1, 0, 0, 1);
    lemma_coefficient_product(21int, mono6(x1, y1, z1, x2, y2, z2, 0, 0, 1, 0, 0, 1), 1int, mono6(x1, y1, z1, x2, y2, z2, 0, 1, 0, 0, 1, 0));
    lemma_mono6_mul(x1, y1, z1, x2, y2, z2, 0, 0, 1, 0, 0, 1, 0, 1, 0, 0, 1, 0);
    lemma_mul_is_distributive_add((1int * mono6(x1, y1, z1, x2, y2, z2, 0, 1, 0, 0, 1, 0)), ((-21int) * mono6(x1, y1, z1, x2, y2, z2, 0, 0, 1, 0, 0, 1)), (1int * mono6(x1, y1, z1, x2, y2, z2, 0, 1, 0, 0, 1, 0)));
    lemma_coefficient_product(1int, mono6(x1, y1, z1, x2, y2, z2, 0, 1, 0, 0, 1, 0), (-21int), mono6(x1, y1, z1, x2, y2, z2, 0, 0, 1, 0, 0, 1));
    lemma_mono6_mul(x1, y1, z1, x2, y2, z2, 0, 1, 0, 0, 1, 0, 0, 0, 1, 0, 0, 1);
    lemma_coefficient_product(1int, mono6(x1, y1, z1, x2, y2, z2, 0, 1, 0, 0, 1, 0), 1int, mono6(x1, y1, z1, x2, y2, z2, 0, 1, 0, 0, 1, 0));
    lemma_mono6_mul(x1, y1, z1, x2, y2, z2, 0, 1, 0, 0, 1, 0, 0, 1, 0, 0, 1, 0);
    assert((((y1 * y2) + (21 * (z1 * z2))) * ((y1 * y2) - (21 * (z1 * z2)))) == (((-441int) * mono6(x1, y1, z1, x2, y2, z2, 0, 0, 2, 0, 0, 2)) + (1int * mono6(x1, y1, z1, x2, y2, z2, 0, 2, 0, 0, 2, 0))));
    assert(63 == (63int * mono6(x1, y1, z1, x2, y2, z2, 0, 0, 0, 0, 0, 0)));
    assert(x1 == (1int * mono6(x1, y1, z1, x2, y2, z2, 1, 0, 0, 0, 0, 0)));
    assert(x2 == (1int * mono6(x1, y1, z1, x2, y2, z2, 0, 0, 0, 1, 0, 0)));
    assert((x1 * x2) == (1int * mono6(x1, y1, z1, x2, y2, z2, 1, 0, 0, 0, 0, 0)) * (1int * mono6(x1, y1, z1, x2, y2, z2, 0, 0, 0, 1, 0, 0)));
    lemma_coefficient_product(1int, mono6(x1, y1, z1, x2, y2, z2, 1, 0, 0, 0, 0, 0), 1int, mono6(x1, y1, z1, x2, y2, z2, 0, 0, 0, 1, 0, 0));
    lemma_mono6_mul(x1, y1, z1, x2, y2, z2, 1, 0, 0, 0, 0, 0, 0, 0, 0, 1, 0, 0);
    assert((x1 * x2) == (1int * mono6(x1, y1, z1, x2, y2, z2, 1, 0, 0, 1, 0, 0)));
    assert((63 * (x1 * x2)) == (63int * mono6(x1, y1, z1, x2, y2, z2, 0, 0, 0, 0, 0, 0)) * (1int * mono6(x1, y1, z1, x2, y2, z2, 1, 0, 0, 1, 0, 0)));
    lemma_coefficient_product(63int, mono6(x1, y1, z1, x2, y2, z2, 0, 0, 0, 0, 0, 0), 1int, mono6(x1, y1, z1, x2, y2, z2, 1, 0, 0, 1, 0, 0));
    lemma_mono6_mul(x1, y1, z1, x2, y2, z2, 0, 0, 0, 0, 0, 0, 1, 0, 0, 1, 0, 0);
    assert((63 * (x1 * x2)) == (63int * mono6(x1, y1, z1, x2, y2, z2, 1, 0, 0, 1, 0, 0)));
    assert(x1 == (1int * mono6(x1, y1, z1, x2, y2, z2, 1, 0, 0, 0, 0, 0)));
    assert(z2 == (1int * mono6(x1, y1, z1, x2, y2, z2, 0, 0, 0, 0, 0, 1)));
    assert((x1 * z2) == (1int * mono6(x1, y1, z1, x2, y2, z2, 1, 0, 0, 0, 0, 0)) * (1int * mono6(x1, y1, z1, x2, y2, z2, 0, 0, 0, 0, 0, 1)));
    lemma_coefficient_product(1int, mono6(x1, y1, z1, x2, y2, z2, 1, 0, 0, 0, 0, 0), 1int, mono6(x1, y1, z1, x2, y2, z2, 0, 0, 0, 0, 0, 1));
    lemma_mono6_mul(x1, y1, z1, x2, y2, z2, 1, 0, 0, 0, 0, 0, 0, 0, 0, 0, 0, 1);
    assert((x1 * z2) == (1int * mono6(x1, y1, z1, x2, y2, z2, 1, 0, 0, 0, 0, 1)));
    assert(z1 == (1int * mono6(x1, y1, z1, x2, y2, z2, 0, 0, 1, 0, 0, 0)));
    assert(x2 == (1int * mono6(x1, y1, z1, x2, y2, z2, 0, 0, 0, 1, 0, 0)));
    assert((z1 * x2) == (1int * mono6(x1, y1, z1, x2, y2, z2, 0, 0, 1, 0, 0, 0)) * (1int * mono6(x1, y1, z1, x2, y2, z2, 0, 0, 0, 1, 0, 0)));
    lemma_coefficient_product(1int, mono6(x1, y1, z1, x2, y2, z2, 0, 0, 1, 0, 0, 0), 1int, mono6(x1, y1, z1, x2, y2, z2, 0, 0, 0, 1, 0, 0));
    lemma_mono6_mul(x1, y1, z1, x2, y2, z2, 0, 0, 1, 0, 0, 0, 0, 0, 0, 1, 0, 0);
    assert((z1 * x2) == (1int * mono6(x1, y1, z1, x2, y2, z2, 0, 0, 1, 1, 0, 0)));
    assert(((x1 * z2) + (z1 * x2)) == ((1int * mono6(x1, y1, z1, x2, y2, z2, 0, 0, 1, 1, 0, 0)) + (1int * mono6(x1, y1, z1, x2, y2, z2, 1, 0, 0, 0, 0, 1))));
    assert(((63 * (x1 * x2)) * ((x1 * z2) + (z1 * x2))) == (63int * mono6(x1, y1, z1, x2, y2, z2, 1, 0, 0, 1, 0, 0)) * ((1int * mono6(x1, y1, z1, x2, y2, z2, 0, 0, 1, 1, 0, 0)) + (1int * mono6(x1, y1, z1, x2, y2, z2, 1, 0, 0, 0, 0, 1))));
    lemma_mul_is_distributive_add((63int * mono6(x1, y1, z1, x2, y2, z2, 1, 0, 0, 1, 0, 0)), (1int * mono6(x1, y1, z1, x2, y2, z2, 0, 0, 1, 1, 0, 0)), (1int * mono6(x1, y1, z1, x2, y2, z2, 1, 0, 0, 0, 0, 1)));
    lemma_coefficient_product(63int, mono6(x1, y1, z1, x2, y2, z2, 1, 0, 0, 1, 0, 0), 1int, mono6(x1, y1, z1, x2, y2, z2, 0, 0, 1, 1, 0, 0));
    lemma_mono6_mul(x1, y1, z1, x2, y2, z2, 1, 0, 0, 1, 0, 0, 0, 0, 1, 1, 0, 0);
    lemma_coefficient_product(63int, mono6(x1, y1, z1, x2, y2, z2, 1, 0, 0, 1, 0, 0), 1int, mono6(x1, y1, z1, x2, y2, z2, 1, 0, 0, 0, 0, 1));
    lemma_mono6_mul(x1, y1, z1, x2, y2, z2, 1, 0, 0, 1, 0, 0, 1, 0, 0, 0, 0, 1);
    assert(((63 * (x1 * x2)) * ((x1 * z2) + (z1 * x2))) == ((63int * mono6(x1, y1, z1, x2, y2, z2, 1, 0, 1, 2, 0, 0)) + (63int * mono6(x1, y1, z1, x2, y2, z2, 2, 0, 0, 1, 0, 1))));
    assert(((((y1 * y2) + (21 * (z1 * z2))) * ((y1 * y2) - (21 * (z1 * z2)))) + ((63 * (x1 * x2)) * ((x1 * z2) + (z1 * x2)))) == ((((-441int) * mono6(x1, y1, z1, x2, y2, z2, 0, 0, 2, 0, 0, 2)) + (1int * mono6(x1, y1, z1, x2, y2, z2, 0, 2, 0, 0, 2, 0))) + ((63int * mono6(x1, y1, z1, x2, y2, z2, 1, 0, 1, 2, 0, 0)) + (63int * mono6(x1, y1, z1, x2, y2, z2, 2, 0, 0, 1, 0, 1)))));
    assert((((((y1 * y2) + (21 * (z1 * z2))) * ((y1 * y2) - (21 * (z1 * z2)))) + ((63 * (x1 * x2)) * ((x1 * z2) + (z1 * x2)))) * ((((y1 * y2) + (21 * (z1 * z2))) * ((y1 * y2) - (21 * (z1 * z2)))) + ((63 * (x1 * x2)) * ((x1 * z2) + (z1 * x2))))) == ((((-441int) * mono6(x1, y1, z1, x2, y2, z2, 0, 0, 2, 0, 0, 2)) + (1int * mono6(x1, y1, z1, x2, y2, z2, 0, 2, 0, 0, 2, 0))) + ((63int * mono6(x1, y1, z1, x2, y2, z2, 1, 0, 1, 2, 0, 0)) + (63int * mono6(x1, y1, z1, x2, y2, z2, 2, 0, 0, 1, 0, 1)))) * ((((-441int) * mono6(x1, y1, z1, x2, y2, z2, 0, 0, 2, 0, 0, 2)) + (1int * mono6(x1, y1, z1, x2, y2, z2, 0, 2, 0, 0, 2, 0))) + ((63int * mono6(x1, y1, z1, x2, y2, z2, 1, 0, 1, 2, 0, 0)) + (63int * mono6(x1, y1, z1, x2, y2, z2, 2, 0, 0, 1, 0, 1)))));
    lemma_mul_is_distributive_add_other_way(((((-441int) * mono6(x1, y1, z1, x2, y2, z2, 0, 0, 2, 0, 0, 2)) + (1int * mono6(x1, y1, z1, x2, y2, z2, 0, 2, 0, 0, 2, 0))) + ((63int * mono6(x1, y1, z1, x2, y2, z2, 1, 0, 1, 2, 0, 0)) + (63int * mono6(x1, y1, z1, x2, y2, z2, 2, 0, 0, 1, 0, 1)))), (((-441int) * mono6(x1, y1, z1, x2, y2, z2, 0, 0, 2, 0, 0, 2)) + (1int * mono6(x1, y1, z1, x2, y2, z2, 0, 2, 0, 0, 2, 0))), ((63int * mono6(x1, y1, z1, x2, y2, z2, 1, 0, 1, 2, 0, 0)) + (63int * mono6(x1, y1, z1, x2, y2, z2, 2, 0, 0, 1, 0, 1))));
    lemma_mul_is_distributive_add_other_way(((((-441int) * mono6(x1, y1, z1, x2, y2, z2, 0, 0, 2, 0, 0, 2)) + (1int * mono6(x1, y1, z1, x2, y2, z2, 0, 2, 0, 0, 2, 0))) + ((63int * mono6(x1, y1, z1, x2, y2, z2, 1, 0, 1, 2, 0, 0)) + (63int * mono6(x1, y1, z1, x2, y2, z2, 2, 0, 0, 1, 0, 1)))), ((-441int) * mono6(x1, y1, z1, x2, y2, z2, 0, 0, 2, 0, 0, 2)), (1int * mono6(x1, y1, z1, x2, y2, z2, 0, 2, 0, 0, 2, 0)));
    lemma_mul_is_distributive_add_other_way(((((-441int) * mono6(x1, y1, z1, x2, y2, z2, 0, 0, 2, 0, 0, 2)) + (1int * mono6(x1, y1, z1, x2, y2, z2, 0, 2, 0, 0, 2, 0))) + ((63int * mono6(x1, y1, z1, x2, y2, z2, 1, 0, 1, 2, 0, 0)) + (63int * mono6(x1, y1, z1, x2, y2, z2, 2, 0, 0, 1, 0, 1)))), (63int * mono6(x1, y1, z1, x2, y2, z2, 1, 0, 1, 2, 0, 0)), (63int * mono6(x1, y1, z1, x2, y2, z2, 2, 0, 0, 1, 0, 1)));
    lemma_mul_is_distributive_add(((-441int) * mono6(x1, y1, z1, x2, y2, z2, 0, 0, 2, 0, 0, 2)), (((-441int) * mono6(x1, y1, z1, x2, y2, z2, 0, 0, 2, 0, 0, 2)) + (1int * mono6(x1, y1, z1, x2, y2, z2, 0, 2, 0, 0, 2, 0))), ((63int * mono6(x1, y1, z1, x2, y2, z2, 1, 0, 1, 2, 0, 0)) + (63int * mono6(x1, y1, z1, x2, y2, z2, 2, 0, 0, 1, 0, 1))));
    lemma_mul_is_distributive_add(((-441int) * mono6(x1, y1, z1, x2, y2, z2, 0, 0, 2, 0, 0, 2)), ((-441int) * mono6(x1, y1, z1, x2, y2, z2, 0, 0, 2, 0, 0, 2)), (1int * mono6(x1, y1, z1, x2, y2, z2, 0, 2, 0, 0, 2, 0)));
    lemma_mul_is_distributive_add(((-441int) * mono6(x1, y1, z1, x2, y2, z2, 0, 0, 2, 0, 0, 2)), (63int * mono6(x1, y1, z1, x2, y2, z2, 1, 0, 1, 2, 0, 0)), (63int * mono6(x1, y1, z1, x2, y2, z2, 2, 0, 0, 1, 0, 1)));
    lemma_coefficient_product((-441int), mono6(x1, y1, z1, x2, y2, z2, 0, 0, 2, 0, 0, 2), (-441int), mono6(x1, y1, z1, x2, y2, z2, 0, 0, 2, 0, 0, 2));
    lemma_mono6_mul(x1, y1, z1, x2, y2, z2, 0, 0, 2, 0, 0, 2, 0, 0, 2, 0, 0, 2);
    lemma_coefficient_product((-441int), mono6(x1, y1, z1, x2, y2, z2, 0, 0, 2, 0, 0, 2), 1int, mono6(x1, y1, z1, x2, y2, z2, 0, 2, 0, 0, 2, 0));
    lemma_mono6_mul(x1, y1, z1, x2, y2, z2, 0, 0, 2, 0, 0, 2, 0, 2, 0, 0, 2, 0);
    lemma_coefficient_product((-441int), mono6(x1, y1, z1, x2, y2, z2, 0, 0, 2, 0, 0, 2), 63int, mono6(x1, y1, z1, x2, y2, z2, 1, 0, 1, 2, 0, 0));
    lemma_mono6_mul(x1, y1, z1, x2, y2, z2, 0, 0, 2, 0, 0, 2, 1, 0, 1, 2, 0, 0);
    lemma_coefficient_product((-441int), mono6(x1, y1, z1, x2, y2, z2, 0, 0, 2, 0, 0, 2), 63int, mono6(x1, y1, z1, x2, y2, z2, 2, 0, 0, 1, 0, 1));
    lemma_mono6_mul(x1, y1, z1, x2, y2, z2, 0, 0, 2, 0, 0, 2, 2, 0, 0, 1, 0, 1);
    lemma_mul_is_distributive_add((1int * mono6(x1, y1, z1, x2, y2, z2, 0, 2, 0, 0, 2, 0)), (((-441int) * mono6(x1, y1, z1, x2, y2, z2, 0, 0, 2, 0, 0, 2)) + (1int * mono6(x1, y1, z1, x2, y2, z2, 0, 2, 0, 0, 2, 0))), ((63int * mono6(x1, y1, z1, x2, y2, z2, 1, 0, 1, 2, 0, 0)) + (63int * mono6(x1, y1, z1, x2, y2, z2, 2, 0, 0, 1, 0, 1))));
    lemma_mul_is_distributive_add((1int * mono6(x1, y1, z1, x2, y2, z2, 0, 2, 0, 0, 2, 0)), ((-441int) * mono6(x1, y1, z1, x2, y2, z2, 0, 0, 2, 0, 0, 2)), (1int * mono6(x1, y1, z1, x2, y2, z2, 0, 2, 0, 0, 2, 0)));
    lemma_mul_is_distributive_add((1int * mono6(x1, y1, z1, x2, y2, z2, 0, 2, 0, 0, 2, 0)), (63int * mono6(x1, y1, z1, x2, y2, z2, 1, 0, 1, 2, 0, 0)), (63int * mono6(x1, y1, z1, x2, y2, z2, 2, 0, 0, 1, 0, 1)));
    lemma_coefficient_product(1int, mono6(x1, y1, z1, x2, y2, z2, 0, 2, 0, 0, 2, 0), (-441int), mono6(x1, y1, z1, x2, y2, z2, 0, 0, 2, 0, 0, 2));
    lemma_mono6_mul(x1, y1, z1, x2, y2, z2, 0, 2, 0, 0, 2, 0, 0, 0, 2, 0, 0, 2);
    lemma_coefficient_product(1int, mono6(x1, y1, z1, x2, y2, z2, 0, 2, 0, 0, 2, 0), 1int, mono6(x1, y1, z1, x2, y2, z2, 0, 2, 0, 0, 2, 0));
    lemma_mono6_mul(x1, y1, z1, x2, y2, z2, 0, 2, 0, 0, 2, 0, 0, 2, 0, 0, 2, 0);
    lemma_coefficient_product(1int, mono6(x1, y1, z1, x2, y2, z2, 0, 2, 0, 0, 2, 0), 63int, mono6(x1, y1, z1, x2, y2, z2, 1, 0, 1, 2, 0, 0));
    lemma_mono6_mul(x1, y1, z1, x2, y2, z2, 0, 2, 0, 0, 2, 0, 1, 0, 1, 2, 0, 0);
    lemma_coefficient_product(1int, mono6(x1, y1, z1, x2, y2, z2, 0, 2, 0, 0, 2, 0), 63int, mono6(x1, y1, z1, x2, y2, z2, 2, 0, 0, 1, 0, 1));
    lemma_mono6_mul(x1, y1, z1, x2, y2, z2, 0, 2, 0, 0, 2, 0, 2, 0, 0, 1, 0, 1);
    lemma_mul_is_distributive_add((63int * mono6(x1, y1, z1, x2, y2, z2, 1, 0, 1, 2, 0, 0)), (((-441int) * mono6(x1, y1, z1, x2, y2, z2, 0, 0, 2, 0, 0, 2)) + (1int * mono6(x1, y1, z1, x2, y2, z2, 0, 2, 0, 0, 2, 0))), ((63int * mono6(x1, y1, z1, x2, y2, z2, 1, 0, 1, 2, 0, 0)) + (63int * mono6(x1, y1, z1, x2, y2, z2, 2, 0, 0, 1, 0, 1))));
    lemma_mul_is_distributive_add((63int * mono6(x1, y1, z1, x2, y2, z2, 1, 0, 1, 2, 0, 0)), ((-441int) * mono6(x1, y1, z1, x2, y2, z2, 0, 0, 2, 0, 0, 2)), (1int * mono6(x1, y1, z1, x2, y2, z2, 0, 2, 0, 0, 2, 0)));
    lemma_mul_is_distributive_add((63int * mono6(x1, y1, z1, x2, y2, z2, 1, 0, 1, 2, 0, 0)), (63int * mono6(x1, y1, z1, x2, y2, z2, 1, 0, 1, 2, 0, 0)), (63int * mono6(x1, y1, z1, x2, y2, z2, 2, 0, 0, 1, 0, 1)));
    lemma_coefficient_product(63int, mono6(x1, y1, z1, x2, y2, z2, 1, 0, 1, 2, 0, 0), (-441int), mono6(x1, y1, z1, x2, y2, z2, 0, 0, 2, 0, 0, 2));
    lemma_mono6_mul(x1, y1, z1, x2, y2, z2, 1, 0, 1, 2, 0, 0, 0, 0, 2, 0, 0, 2);
    lemma_coefficient_product(63int, mono6(x1, y1, z1, x2, y2, z2, 1, 0, 1, 2, 0, 0), 1int, mono6(x1, y1, z1, x2, y2, z2, 0, 2, 0, 0, 2, 0));
    lemma_mono6_mul(x1, y1, z1, x2, y2, z2, 1, 0, 1, 2, 0, 0, 0, 2, 0, 0, 2, 0);
    lemma_coefficient_product(63int, mono6(x1, y1, z1, x2, y2, z2, 1, 0, 1, 2, 0, 0), 63int, mono6(x1, y1, z1, x2, y2, z2, 1, 0, 1, 2, 0, 0));
    lemma_mono6_mul(x1, y1, z1, x2, y2, z2, 1, 0, 1, 2, 0, 0, 1, 0, 1, 2, 0, 0);
    lemma_coefficient_product(63int, mono6(x1, y1, z1, x2, y2, z2, 1, 0, 1, 2, 0, 0), 63int, mono6(x1, y1, z1, x2, y2, z2, 2, 0, 0, 1, 0, 1));
    lemma_mono6_mul(x1, y1, z1, x2, y2, z2, 1, 0, 1, 2, 0, 0, 2, 0, 0, 1, 0, 1);
    lemma_mul_is_distributive_add((63int * mono6(x1, y1, z1, x2, y2, z2, 2, 0, 0, 1, 0, 1)), (((-441int) * mono6(x1, y1, z1, x2, y2, z2, 0, 0, 2, 0, 0, 2)) + (1int * mono6(x1, y1, z1, x2, y2, z2, 0, 2, 0, 0, 2, 0))), ((63int * mono6(x1, y1, z1, x2, y2, z2, 1, 0, 1, 2, 0, 0)) + (63int * mono6(x1, y1, z1, x2, y2, z2, 2, 0, 0, 1, 0, 1))));
    lemma_mul_is_distributive_add((63int * mono6(x1, y1, z1, x2, y2, z2, 2, 0, 0, 1, 0, 1)), ((-441int) * mono6(x1, y1, z1, x2, y2, z2, 0, 0, 2, 0, 0, 2)), (1int * mono6(x1, y1, z1, x2, y2, z2, 0, 2, 0, 0, 2, 0)));
    lemma_mul_is_distributive_add((63int * mono6(x1, y1, z1, x2, y2, z2, 2, 0, 0, 1, 0, 1)), (63int * mono6(x1, y1, z1, x2, y2, z2, 1, 0, 1, 2, 0, 0)), (63int * mono6(x1, y1, z1, x2, y2, z2, 2, 0, 0, 1, 0, 1)));
    lemma_coefficient_product(63int, mono6(x1, y1, z1, x2, y2, z2, 2, 0, 0, 1, 0, 1), (-441int), mono6(x1, y1, z1, x2, y2, z2, 0, 0, 2, 0, 0, 2));
    lemma_mono6_mul(x1, y1, z1, x2, y2, z2, 2, 0, 0, 1, 0, 1, 0, 0, 2, 0, 0, 2);
    lemma_coefficient_product(63int, mono6(x1, y1, z1, x2, y2, z2, 2, 0, 0, 1, 0, 1), 1int, mono6(x1, y1, z1, x2, y2, z2, 0, 2, 0, 0, 2, 0));
    lemma_mono6_mul(x1, y1, z1, x2, y2, z2, 2, 0, 0, 1, 0, 1, 0, 2, 0, 0, 2, 0);
    lemma_coefficient_product(63int, mono6(x1, y1, z1, x2, y2, z2, 2, 0, 0, 1, 0, 1), 63int, mono6(x1, y1, z1, x2, y2, z2, 1, 0, 1, 2, 0, 0));
    lemma_mono6_mul(x1, y1, z1, x2, y2, z2, 2, 0, 0, 1, 0, 1, 1, 0, 1, 2, 0, 0);
    lemma_coefficient_product(63int, mono6(x1, y1, z1, x2, y2, z2, 2, 0, 0, 1, 0, 1), 63int, mono6(x1, y1, z1, x2, y2, z2, 2, 0, 0, 1, 0, 1));
    lemma_mono6_mul(x1, y1, z1, x2, y2, z2, 2, 0, 0, 1, 0, 1, 2, 0, 0, 1, 0, 1);
    assert((((((y1 * y2) + (21 * (z1 * z2))) * ((y1 * y2) - (21 * (z1 * z2)))) + ((63 * (x1 * x2)) * ((x1 * z2) + (z1 * x2)))) * ((((y1 * y2) + (21 * (z1 * z2))) * ((y1 * y2) - (21 * (z1 * z2)))) + ((63 * (x1 * x2)) * ((x1 * z2) + (z1 * x2))))) == ((((194481int * mono6(x1, y1, z1, x2, y2, z2, 0, 0, 4, 0, 0, 4)) + ((-882int) * mono6(x1, y1, z1, x2, y2, z2, 0, 2, 2, 0, 2, 2))) + ((1int * mono6(x1, y1, z1, x2, y2, z2, 0, 4, 0, 0, 4, 0)) + (((-55566int) * mono6(x1, y1, z1, x2, y2, z2, 1, 0, 3, 2, 0, 2)) + (126int * mono6(x1, y1, z1, x2, y2, z2, 1, 2, 1, 2, 2, 0))))) + ((((-55566int) * mono6(x1, y1, z1, x2, y2, z2, 2, 0, 2, 1, 0, 3)) + (3969int * mono6(x1, y1, z1, x2, y2, z2, 2, 0, 2, 4, 0, 0))) + ((126int * mono6(x1, y1, z1, x2, y2, z2, 2, 2, 0, 1, 2, 1)) + ((7938int * mono6(x1, y1, z1, x2, y2, z2, 3, 0, 1, 3, 0, 1)) + (3969int * mono6(x1, y1, z1, x2, y2, z2, 4, 0, 0, 2, 0, 2)))))));
    assert(y1 == (1int * mono6(x1, y1, z1, x2, y2, z2, 0, 1, 0, 0, 0, 0)));
    assert(z2 == (1int * mono6(x1, y1, z1, x2, y2, z2, 0, 0, 0, 0, 0, 1)));
    assert((y1 * z2) == (1int * mono6(x1, y1, z1, x2, y2, z2, 0, 1, 0, 0, 0, 0)) * (1int * mono6(x1, y1, z1, x2, y2, z2, 0, 0, 0, 0, 0, 1)));
    lemma_coefficient_product(1int, mono6(x1, y1, z1, x2, y2, z2, 0, 1, 0, 0, 0, 0), 1int, mono6(x1, y1, z1, x2, y2, z2, 0, 0, 0, 0, 0, 1));
    lemma_mono6_mul(x1, y1, z1, x2, y2, z2, 0, 1, 0, 0, 0, 0, 0, 0, 0, 0, 0, 1);
    assert((y1 * z2) == (1int * mono6(x1, y1, z1, x2, y2, z2, 0, 1, 0, 0, 0, 1)));
    assert(z1 == (1int * mono6(x1, y1, z1, x2, y2, z2, 0, 0, 1, 0, 0, 0)));
    assert(y2 == (1int * mono6(x1, y1, z1, x2, y2, z2, 0, 0, 0, 0, 1, 0)));
    assert((z1 * y2) == (1int * mono6(x1, y1, z1, x2, y2, z2, 0, 0, 1, 0, 0, 0)) * (1int * mono6(x1, y1, z1, x2, y2, z2, 0, 0, 0, 0, 1, 0)));
    lemma_coefficient_product(1int, mono6(x1, y1, z1, x2, y2, z2, 0, 0, 1, 0, 0, 0), 1int, mono6(x1, y1, z1, x2, y2, z2, 0, 0, 0, 0, 1, 0));
    lemma_mono6_mul(x1, y1, z1, x2, y2, z2, 0, 0, 1, 0, 0, 0, 0, 0, 0, 0, 1, 0);
    assert((z1 * y2) == (1int * mono6(x1, y1, z1, x2, y2, z2, 0, 0, 1, 0, 1, 0)));
    assert(((y1 * z2) + (z1 * y2)) == ((1int * mono6(x1, y1, z1, x2, y2, z2, 0, 0, 1, 0, 1, 0)) + (1int * mono6(x1, y1, z1, x2, y2, z2, 0, 1, 0, 0, 0, 1))));
    assert(y1 == (1int * mono6(x1, y1, z1, x2, y2, z2, 0, 1, 0, 0, 0, 0)));
    assert(y2 == (1int * mono6(x1, y1, z1, x2, y2, z2, 0, 0, 0, 0, 1, 0)));
    assert((y1 * y2) == (1int * mono6(x1, y1, z1, x2, y2, z2, 0, 1, 0, 0, 0, 0)) * (1int * mono6(x1, y1, z1, x2, y2, z2, 0, 0, 0, 0, 1, 0)));
    lemma_coefficient_product(1int, mono6(x1, y1, z1, x2, y2, z2, 0, 1, 0, 0, 0, 0), 1int, mono6(x1, y1, z1, x2, y2, z2, 0, 0, 0, 0, 1, 0));
    lemma_mono6_mul(x1, y1, z1, x2, y2, z2, 0, 1, 0, 0, 0, 0, 0, 0, 0, 0, 1, 0);
    assert((y1 * y2) == (1int * mono6(x1, y1, z1, x2, y2, z2, 0, 1, 0, 0, 1, 0)));
    assert(21 == (21int * mono6(x1, y1, z1, x2, y2, z2, 0, 0, 0, 0, 0, 0)));
    assert(z1 == (1int * mono6(x1, y1, z1, x2, y2, z2, 0, 0, 1, 0, 0, 0)));
    assert(z2 == (1int * mono6(x1, y1, z1, x2, y2, z2, 0, 0, 0, 0, 0, 1)));
    assert((z1 * z2) == (1int * mono6(x1, y1, z1, x2, y2, z2, 0, 0, 1, 0, 0, 0)) * (1int * mono6(x1, y1, z1, x2, y2, z2, 0, 0, 0, 0, 0, 1)));
    lemma_coefficient_product(1int, mono6(x1, y1, z1, x2, y2, z2, 0, 0, 1, 0, 0, 0), 1int, mono6(x1, y1, z1, x2, y2, z2, 0, 0, 0, 0, 0, 1));
    lemma_mono6_mul(x1, y1, z1, x2, y2, z2, 0, 0, 1, 0, 0, 0, 0, 0, 0, 0, 0, 1);
    assert((z1 * z2) == (1int * mono6(x1, y1, z1, x2, y2, z2, 0, 0, 1, 0, 0, 1)));
    assert((21 * (z1 * z2)) == (21int * mono6(x1, y1, z1, x2, y2, z2, 0, 0, 0, 0, 0, 0)) * (1int * mono6(x1, y1, z1, x2, y2, z2, 0, 0, 1, 0, 0, 1)));
    lemma_coefficient_product(21int, mono6(x1, y1, z1, x2, y2, z2, 0, 0, 0, 0, 0, 0), 1int, mono6(x1, y1, z1, x2, y2, z2, 0, 0, 1, 0, 0, 1));
    lemma_mono6_mul(x1, y1, z1, x2, y2, z2, 0, 0, 0, 0, 0, 0, 0, 0, 1, 0, 0, 1);
    assert((21 * (z1 * z2)) == (21int * mono6(x1, y1, z1, x2, y2, z2, 0, 0, 1, 0, 0, 1)));
    assert(((y1 * y2) + (21 * (z1 * z2))) == ((21int * mono6(x1, y1, z1, x2, y2, z2, 0, 0, 1, 0, 0, 1)) + (1int * mono6(x1, y1, z1, x2, y2, z2, 0, 1, 0, 0, 1, 0))));
    assert((((y1 * z2) + (z1 * y2)) * ((y1 * y2) + (21 * (z1 * z2)))) == ((1int * mono6(x1, y1, z1, x2, y2, z2, 0, 0, 1, 0, 1, 0)) + (1int * mono6(x1, y1, z1, x2, y2, z2, 0, 1, 0, 0, 0, 1))) * ((21int * mono6(x1, y1, z1, x2, y2, z2, 0, 0, 1, 0, 0, 1)) + (1int * mono6(x1, y1, z1, x2, y2, z2, 0, 1, 0, 0, 1, 0))));
    lemma_mul_is_distributive_add_other_way(((21int * mono6(x1, y1, z1, x2, y2, z2, 0, 0, 1, 0, 0, 1)) + (1int * mono6(x1, y1, z1, x2, y2, z2, 0, 1, 0, 0, 1, 0))), (1int * mono6(x1, y1, z1, x2, y2, z2, 0, 0, 1, 0, 1, 0)), (1int * mono6(x1, y1, z1, x2, y2, z2, 0, 1, 0, 0, 0, 1)));
    lemma_mul_is_distributive_add((1int * mono6(x1, y1, z1, x2, y2, z2, 0, 0, 1, 0, 1, 0)), (21int * mono6(x1, y1, z1, x2, y2, z2, 0, 0, 1, 0, 0, 1)), (1int * mono6(x1, y1, z1, x2, y2, z2, 0, 1, 0, 0, 1, 0)));
    lemma_coefficient_product(1int, mono6(x1, y1, z1, x2, y2, z2, 0, 0, 1, 0, 1, 0), 21int, mono6(x1, y1, z1, x2, y2, z2, 0, 0, 1, 0, 0, 1));
    lemma_mono6_mul(x1, y1, z1, x2, y2, z2, 0, 0, 1, 0, 1, 0, 0, 0, 1, 0, 0, 1);
    lemma_coefficient_product(1int, mono6(x1, y1, z1, x2, y2, z2, 0, 0, 1, 0, 1, 0), 1int, mono6(x1, y1, z1, x2, y2, z2, 0, 1, 0, 0, 1, 0));
    lemma_mono6_mul(x1, y1, z1, x2, y2, z2, 0, 0, 1, 0, 1, 0, 0, 1, 0, 0, 1, 0);
    lemma_mul_is_distributive_add((1int * mono6(x1, y1, z1, x2, y2, z2, 0, 1, 0, 0, 0, 1)), (21int * mono6(x1, y1, z1, x2, y2, z2, 0, 0, 1, 0, 0, 1)), (1int * mono6(x1, y1, z1, x2, y2, z2, 0, 1, 0, 0, 1, 0)));
    lemma_coefficient_product(1int, mono6(x1, y1, z1, x2, y2, z2, 0, 1, 0, 0, 0, 1), 21int, mono6(x1, y1, z1, x2, y2, z2, 0, 0, 1, 0, 0, 1));
    lemma_mono6_mul(x1, y1, z1, x2, y2, z2, 0, 1, 0, 0, 0, 1, 0, 0, 1, 0, 0, 1);
    lemma_coefficient_product(1int, mono6(x1, y1, z1, x2, y2, z2, 0, 1, 0, 0, 0, 1), 1int, mono6(x1, y1, z1, x2, y2, z2, 0, 1, 0, 0, 1, 0));
    lemma_mono6_mul(x1, y1, z1, x2, y2, z2, 0, 1, 0, 0, 0, 1, 0, 1, 0, 0, 1, 0);
    assert((((y1 * z2) + (z1 * y2)) * ((y1 * y2) + (21 * (z1 * z2)))) == (((21int * mono6(x1, y1, z1, x2, y2, z2, 0, 0, 2, 0, 1, 1)) + (21int * mono6(x1, y1, z1, x2, y2, z2, 0, 1, 1, 0, 0, 2))) + ((1int * mono6(x1, y1, z1, x2, y2, z2, 0, 1, 1, 0, 2, 0)) + (1int * mono6(x1, y1, z1, x2, y2, z2, 0, 2, 0, 0, 1, 1)))));
    assert(3 == (3int * mono6(x1, y1, z1, x2, y2, z2, 0, 0, 0, 0, 0, 0)));
    assert(x1 == (1int * mono6(x1, y1, z1, x2, y2, z2, 1, 0, 0, 0, 0, 0)));
    assert(x2 == (1int * mono6(x1, y1, z1, x2, y2, z2, 0, 0, 0, 1, 0, 0)));
    assert((x1 * x2) == (1int * mono6(x1, y1, z1, x2, y2, z2, 1, 0, 0, 0, 0, 0)) * (1int * mono6(x1, y1, z1, x2, y2, z2, 0, 0, 0, 1, 0, 0)));
    lemma_coefficient_product(1int, mono6(x1, y1, z1, x2, y2, z2, 1, 0, 0, 0, 0, 0), 1int, mono6(x1, y1, z1, x2, y2, z2, 0, 0, 0, 1, 0, 0));
    lemma_mono6_mul(x1, y1, z1, x2, y2, z2, 1, 0, 0, 0, 0, 0, 0, 0, 0, 1, 0, 0);
    assert((x1 * x2) == (1int * mono6(x1, y1, z1, x2, y2, z2, 1, 0, 0, 1, 0, 0)));
    assert((3 * (x1 * x2)) == (3int * mono6(x1, y1, z1, x2, y2, z2, 0, 0, 0, 0, 0, 0)) * (1int * mono6(x1, y1, z1, x2, y2, z2, 1, 0, 0, 1, 0, 0)));
    lemma_coefficient_product(3int, mono6(x1, y1, z1, x2, y2, z2, 0, 0, 0, 0, 0, 0), 1int, mono6(x1, y1, z1, x2, y2, z2, 1, 0, 0, 1, 0, 0));
    lemma_mono6_mul(x1, y1, z1, x2, y2, z2, 0, 0, 0, 0, 0, 0, 1, 0, 0, 1, 0, 0);
    assert((3 * (x1 * x2)) == (3int * mono6(x1, y1, z1, x2, y2, z2, 1, 0, 0, 1, 0, 0)));
    assert(x1 == (1int * mono6(x1, y1, z1, x2, y2, z2, 1, 0, 0, 0, 0, 0)));
    assert(y2 == (1int * mono6(x1, y1, z1, x2, y2, z2, 0, 0, 0, 0, 1, 0)));
    assert((x1 * y2) == (1int * mono6(x1, y1, z1, x2, y2, z2, 1, 0, 0, 0, 0, 0)) * (1int * mono6(x1, y1, z1, x2, y2, z2, 0, 0, 0, 0, 1, 0)));
    lemma_coefficient_product(1int, mono6(x1, y1, z1, x2, y2, z2, 1, 0, 0, 0, 0, 0), 1int, mono6(x1, y1, z1, x2, y2, z2, 0, 0, 0, 0, 1, 0));
    lemma_mono6_mul(x1, y1, z1, x2, y2, z2, 1, 0, 0, 0, 0, 0, 0, 0, 0, 0, 1, 0);
    assert((x1 * y2) == (1int * mono6(x1, y1, z1, x2, y2, z2, 1, 0, 0, 0, 1, 0)));
    assert(y1 == (1int * mono6(x1, y1, z1, x2, y2, z2, 0, 1, 0, 0, 0, 0)));
    assert(x2 == (1int * mono6(x1, y1, z1, x2, y2, z2, 0, 0, 0, 1, 0, 0)));
    assert((y1 * x2) == (1int * mono6(x1, y1, z1, x2, y2, z2, 0, 1, 0, 0, 0, 0)) * (1int * mono6(x1, y1, z1, x2, y2, z2, 0, 0, 0, 1, 0, 0)));
    lemma_coefficient_product(1int, mono6(x1, y1, z1, x2, y2, z2, 0, 1, 0, 0, 0, 0), 1int, mono6(x1, y1, z1, x2, y2, z2, 0, 0, 0, 1, 0, 0));
    lemma_mono6_mul(x1, y1, z1, x2, y2, z2, 0, 1, 0, 0, 0, 0, 0, 0, 0, 1, 0, 0);
    assert((y1 * x2) == (1int * mono6(x1, y1, z1, x2, y2, z2, 0, 1, 0, 1, 0, 0)));
    assert(((x1 * y2) + (y1 * x2)) == ((1int * mono6(x1, y1, z1, x2, y2, z2, 0, 1, 0, 1, 0, 0)) + (1int * mono6(x1, y1, z1, x2, y2, z2, 1, 0, 0, 0, 1, 0))));
    assert(((3 * (x1 * x2)) * ((x1 * y2) + (y1 * x2))) == (3int * mono6(x1, y1, z1, x2, y2, z2, 1, 0, 0, 1, 0, 0)) * ((1int * mono6(x1, y1, z1, x2, y2, z2, 0, 1, 0, 1, 0, 0)) + (1int * mono6(x1, y1, z1, x2, y2, z2, 1, 0, 0, 0, 1, 0))));
    lemma_mul_is_distributive_add((3int * mono6(x1, y1, z1, x2, y2, z2, 1, 0, 0, 1, 0, 0)), (1int * mono6(x1, y1, z1, x2, y2, z2, 0, 1, 0, 1, 0, 0)), (1int * mono6(x1, y1, z1, x2, y2, z2, 1, 0, 0, 0, 1, 0)));
    lemma_coefficient_product(3int, mono6(x1, y1, z1, x2, y2, z2, 1, 0, 0, 1, 0, 0), 1int, mono6(x1, y1, z1, x2, y2, z2, 0, 1, 0, 1, 0, 0));
    lemma_mono6_mul(x1, y1, z1, x2, y2, z2, 1, 0, 0, 1, 0, 0, 0, 1, 0, 1, 0, 0);
    lemma_coefficient_product(3int, mono6(x1, y1, z1, x2, y2, z2, 1, 0, 0, 1, 0, 0), 1int, mono6(x1, y1, z1, x2, y2, z2, 1, 0, 0, 0, 1, 0));
    lemma_mono6_mul(x1, y1, z1, x2, y2, z2, 1, 0, 0, 1, 0, 0, 1, 0, 0, 0, 1, 0);
    assert(((3 * (x1 * x2)) * ((x1 * y2) + (y1 * x2))) == ((3int * mono6(x1, y1, z1, x2, y2, z2, 1, 1, 0, 2, 0, 0)) + (3int * mono6(x1, y1, z1, x2, y2, z2, 2, 0, 0, 1, 1, 0))));
    assert(((((y1 * z2) + (z1 * y2)) * ((y1 * y2) + (21 * (z1 * z2)))) + ((3 * (x1 * x2)) * ((x1 * y2) + (y1 * x2)))) == (((21int * mono6(x1, y1, z1, x2, y2, z2, 0, 0, 2, 0, 1, 1)) + ((21int * mono6(x1, y1, z1, x2, y2, z2, 0, 1, 1, 0, 0, 2)) + (1int * mono6(x1, y1, z1, x2, y2, z2, 0, 1, 1, 0, 2, 0)))) + ((1int * mono6(x1, y1, z1, x2, y2, z2, 0, 2, 0, 0, 1, 1)) + ((3int * mono6(x1, y1, z1, x2, y2, z2, 1, 1, 0, 2, 0, 0)) + (3int * mono6(x1, y1, z1, x2, y2, z2, 2, 0, 0, 1, 1, 0))))));
    assert(((((((y1 * y2) + (21 * (z1 * z2))) * ((y1 * y2) - (21 * (z1 * z2)))) + ((63 * (x1 * x2)) * ((x1 * z2) + (z1 * x2)))) * ((((y1 * y2) + (21 * (z1 * z2))) * ((y1 * y2) - (21 * (z1 * z2)))) + ((63 * (x1 * x2)) * ((x1 * z2) + (z1 * x2))))) * ((((y1 * z2) + (z1 * y2)) * ((y1 * y2) + (21 * (z1 * z2)))) + ((3 * (x1 * x2)) * ((x1 * y2) + (y1 * x2))))) == ((((194481int * mono6(x1, y1, z1, x2, y2, z2, 0, 0, 4, 0, 0, 4)) + ((-882int) * mono6(x1, y1, z1, x2, y2, z2, 0, 2, 2, 0, 2, 2))) + ((1int * mono6(x1, y1, z1, x2, y2, z2, 0, 4, 0, 0, 4, 0)) + (((-55566int) * mono6(x1, y1, z1, x2, y2, z2, 1, 0, 3, 2, 0, 2)) + (126int * mono6(x1, y1, z1, x2, y2, z2, 1, 2, 1, 2, 2, 0))))) + ((((-55566int) * mono6(x1, y1, z1, x2, y2, z2, 2, 0, 2, 1, 0, 3)) + (3969int * mono6(x1, y1, z1, x2, y2, z2, 2, 0, 2, 4, 0, 0))) + ((126int * mono6(x1, y1, z1, x2, y2, z2, 2, 2, 0, 1, 2, 1)) + ((7938int * mono6(x1, y1, z1, x2, y2, z2, 3, 0, 1, 3, 0, 1)) + (3969int * mono6(x1, y1, z1, x2, y2, z2, 4, 0, 0, 2, 0, 2)))))) * (((21int * mono6(x1, y1, z1, x2, y2, z2, 0, 0, 2, 0, 1, 1)) + ((21int * mono6(x1, y1, z1, x2, y2, z2, 0, 1, 1, 0, 0, 2)) + (1int * mono6(x1, y1, z1, x2, y2, z2, 0, 1, 1, 0, 2, 0)))) + ((1int * mono6(x1, y1, z1, x2, y2, z2, 0, 2, 0, 0, 1, 1)) + ((3int * mono6(x1, y1, z1, x2, y2, z2, 1, 1, 0, 2, 0, 0)) + (3int * mono6(x1, y1, z1, x2, y2, z2, 2, 0, 0, 1, 1, 0))))));
    lemma_mul_is_distributive_add_other_way((((21int * mono6(x1, y1, z1, x2, y2, z2, 0, 0, 2, 0, 1, 1)) + ((21int * mono6(x1, y1, z1, x2, y2, z2, 0, 1, 1, 0, 0, 2)) + (1int * mono6(x1, y1, z1, x2, y2, z2, 0, 1, 1, 0, 2, 0)))) + ((1int * mono6(x1, y1, z1, x2, y2, z2, 0, 2, 0, 0, 1, 1)) + ((3int * mono6(x1, y1, z1, x2, y2, z2, 1, 1, 0, 2, 0, 0)) + (3int * mono6(x1, y1, z1, x2, y2, z2, 2, 0, 0, 1, 1, 0))))), (((194481int * mono6(x1, y1, z1, x2, y2, z2, 0, 0, 4, 0, 0, 4)) + ((-882int) * mono6(x1, y1, z1, x2, y2, z2, 0, 2, 2, 0, 2, 2))) + ((1int * mono6(x1, y1, z1, x2, y2, z2, 0, 4, 0, 0, 4, 0)) + (((-55566int) * mono6(x1, y1, z1, x2, y2, z2, 1, 0, 3, 2, 0, 2)) + (126int * mono6(x1, y1, z1, x2, y2, z2, 1, 2, 1, 2, 2, 0))))), ((((-55566int) * mono6(x1, y1, z1, x2, y2, z2, 2, 0, 2, 1, 0, 3)) + (3969int * mono6(x1, y1, z1, x2, y2, z2, 2, 0, 2, 4, 0, 0))) + ((126int * mono6(x1, y1, z1, x2, y2, z2, 2, 2, 0, 1, 2, 1)) + ((7938int * mono6(x1, y1, z1, x2, y2, z2, 3, 0, 1, 3, 0, 1)) + (3969int * mono6(x1, y1, z1, x2, y2, z2, 4, 0, 0, 2, 0, 2))))));
    lemma_mul_is_distributive_add_other_way((((21int * mono6(x1, y1, z1, x2, y2, z2, 0, 0, 2, 0, 1, 1)) + ((21int * mono6(x1, y1, z1, x2, y2, z2, 0, 1, 1, 0, 0, 2)) + (1int * mono6(x1, y1, z1, x2, y2, z2, 0, 1, 1, 0, 2, 0)))) + ((1int * mono6(x1, y1, z1, x2, y2, z2, 0, 2, 0, 0, 1, 1)) + ((3int * mono6(x1, y1, z1, x2, y2, z2, 1, 1, 0, 2, 0, 0)) + (3int * mono6(x1, y1, z1, x2, y2, z2, 2, 0, 0, 1, 1, 0))))), ((194481int * mono6(x1, y1, z1, x2, y2, z2, 0, 0, 4, 0, 0, 4)) + ((-882int) * mono6(x1, y1, z1, x2, y2, z2, 0, 2, 2, 0, 2, 2))), ((1int * mono6(x1, y1, z1, x2, y2, z2, 0, 4, 0, 0, 4, 0)) + (((-55566int) * mono6(x1, y1, z1, x2, y2, z2, 1, 0, 3, 2, 0, 2)) + (126int * mono6(x1, y1, z1, x2, y2, z2, 1, 2, 1, 2, 2, 0)))));
    lemma_mul_is_distributive_add_other_way((((21int * mono6(x1, y1, z1, x2, y2, z2, 0, 0, 2, 0, 1, 1)) + ((21int * mono6(x1, y1, z1, x2, y2, z2, 0, 1, 1, 0, 0, 2)) + (1int * mono6(x1, y1, z1, x2, y2, z2, 0, 1, 1, 0, 2, 0)))) + ((1int * mono6(x1, y1, z1, x2, y2, z2, 0, 2, 0, 0, 1, 1)) + ((3int * mono6(x1, y1, z1, x2, y2, z2, 1, 1, 0, 2, 0, 0)) + (3int * mono6(x1, y1, z1, x2, y2, z2, 2, 0, 0, 1, 1, 0))))), (194481int * mono6(x1, y1, z1, x2, y2, z2, 0, 0, 4, 0, 0, 4)), ((-882int) * mono6(x1, y1, z1, x2, y2, z2, 0, 2, 2, 0, 2, 2)));
    lemma_mul_is_distributive_add_other_way((((21int * mono6(x1, y1, z1, x2, y2, z2, 0, 0, 2, 0, 1, 1)) + ((21int * mono6(x1, y1, z1, x2, y2, z2, 0, 1, 1, 0, 0, 2)) + (1int * mono6(x1, y1, z1, x2, y2, z2, 0, 1, 1, 0, 2, 0)))) + ((1int * mono6(x1, y1, z1, x2, y2, z2, 0, 2, 0, 0, 1, 1)) + ((3int * mono6(x1, y1, z1, x2, y2, z2, 1, 1, 0, 2, 0, 0)) + (3int * mono6(x1, y1, z1, x2, y2, z2, 2, 0, 0, 1, 1, 0))))), (1int * mono6(x1, y1, z1, x2, y2, z2, 0, 4, 0, 0, 4, 0)), (((-55566int) * mono6(x1, y1, z1, x2, y2, z2, 1, 0, 3, 2, 0, 2)) + (126int * mono6(x1, y1, z1, x2, y2, z2, 1, 2, 1, 2, 2, 0))));
    lemma_mul_is_distributive_add_other_way((((21int * mono6(x1, y1, z1, x2, y2, z2, 0, 0, 2, 0, 1, 1)) + ((21int * mono6(x1, y1, z1, x2, y2, z2, 0, 1, 1, 0, 0, 2)) + (1int * mono6(x1, y1, z1, x2, y2, z2, 0, 1, 1, 0, 2, 0)))) + ((1int * mono6(x1, y1, z1, x2, y2, z2, 0, 2, 0, 0, 1, 1)) + ((3int * mono6(x1, y1, z1, x2, y2, z2, 1, 1, 0, 2, 0, 0)) + (3int * mono6(x1, y1, z1, x2, y2, z2, 2, 0, 0, 1, 1, 0))))), ((-55566int) * mono6(x1, y1, z1, x2, y2, z2, 1, 0, 3, 2, 0, 2)), (126int * mono6(x1, y1, z1, x2, y2, z2, 1, 2, 1, 2, 2, 0)));
    lemma_mul_is_distributive_add_other_way((((21int * mono6(x1, y1, z1, x2, y2, z2, 0, 0, 2, 0, 1, 1)) + ((21int * mono6(x1, y1, z1, x2, y2, z2, 0, 1, 1, 0, 0, 2)) + (1int * mono6(x1, y1, z1, x2, y2, z2, 0, 1, 1, 0, 2, 0)))) + ((1int * mono6(x1, y1, z1, x2, y2, z2, 0, 2, 0, 0, 1, 1)) + ((3int * mono6(x1, y1, z1, x2, y2, z2, 1, 1, 0, 2, 0, 0)) + (3int * mono6(x1, y1, z1, x2, y2, z2, 2, 0, 0, 1, 1, 0))))), (((-55566int) * mono6(x1, y1, z1, x2, y2, z2, 2, 0, 2, 1, 0, 3)) + (3969int * mono6(x1, y1, z1, x2, y2, z2, 2, 0, 2, 4, 0, 0))), ((126int * mono6(x1, y1, z1, x2, y2, z2, 2, 2, 0, 1, 2, 1)) + ((7938int * mono6(x1, y1, z1, x2, y2, z2, 3, 0, 1, 3, 0, 1)) + (3969int * mono6(x1, y1, z1, x2, y2, z2, 4, 0, 0, 2, 0, 2)))));
    lemma_mul_is_distributive_add_other_way((((21int * mono6(x1, y1, z1, x2, y2, z2, 0, 0, 2, 0, 1, 1)) + ((21int * mono6(x1, y1, z1, x2, y2, z2, 0, 1, 1, 0, 0, 2)) + (1int * mono6(x1, y1, z1, x2, y2, z2, 0, 1, 1, 0, 2, 0)))) + ((1int * mono6(x1, y1, z1, x2, y2, z2, 0, 2, 0, 0, 1, 1)) + ((3int * mono6(x1, y1, z1, x2, y2, z2, 1, 1, 0, 2, 0, 0)) + (3int * mono6(x1, y1, z1, x2, y2, z2, 2, 0, 0, 1, 1, 0))))), ((-55566int) * mono6(x1, y1, z1, x2, y2, z2, 2, 0, 2, 1, 0, 3)), (3969int * mono6(x1, y1, z1, x2, y2, z2, 2, 0, 2, 4, 0, 0)));
    lemma_mul_is_distributive_add_other_way((((21int * mono6(x1, y1, z1, x2, y2, z2, 0, 0, 2, 0, 1, 1)) + ((21int * mono6(x1, y1, z1, x2, y2, z2, 0, 1, 1, 0, 0, 2)) + (1int * mono6(x1, y1, z1, x2, y2, z2, 0, 1, 1, 0, 2, 0)))) + ((1int * mono6(x1, y1, z1, x2, y2, z2, 0, 2, 0, 0, 1, 1)) + ((3int * mono6(x1, y1, z1, x2, y2, z2, 1, 1, 0, 2, 0, 0)) + (3int * mono6(x1, y1, z1, x2, y2, z2, 2, 0, 0, 1, 1, 0))))), (126int * mono6(x1, y1, z1, x2, y2, z2, 2, 2, 0, 1, 2, 1)), ((7938int * mono6(x1, y1, z1, x2, y2, z2, 3, 0, 1, 3, 0, 1)) + (3969int * mono6(x1, y1, z1, x2, y2, z2, 4, 0, 0, 2, 0, 2))));
    lemma_mul_is_distributive_add_other_way((((21int * mono6(x1, y1, z1, x2, y2, z2, 0, 0, 2, 0, 1, 1)) + ((21int * mono6(x1, y1, z1, x2, y2, z2, 0, 1, 1, 0, 0, 2)) + (1int * mono6(x1, y1, z1, x2, y2, z2, 0, 1, 1, 0, 2, 0)))) + ((1int * mono6(x1, y1, z1, x2, y2, z2, 0, 2, 0, 0, 1, 1)) + ((3int * mono6(x1, y1, z1, x2, y2, z2, 1, 1, 0, 2, 0, 0)) + (3int * mono6(x1, y1, z1, x2, y2, z2, 2, 0, 0, 1, 1, 0))))), (7938int * mono6(x1, y1, z1, x2, y2, z2, 3, 0, 1, 3, 0, 1)), (3969int * mono6(x1, y1, z1, x2, y2, z2, 4, 0, 0, 2, 0, 2)));
    lemma_mul_is_distributive_add((194481int * mono6(x1, y1, z1, x2, y2, z2, 0, 0, 4, 0, 0, 4)), ((21int * mono6(x1, y1, z1, x2, y2, z2, 0, 0, 2, 0, 1, 1)) + ((21int * mono6(x1, y1, z1, x2, y2, z2, 0, 1, 1, 0, 0, 2)) + (1int * mono6(x1, y1, z1, x2, y2, z2, 0, 1, 1, 0, 2, 0)))), ((1int * mono6(x1, y1, z1, x2, y2, z2, 0, 2, 0, 0, 1, 1)) + ((3int * mono6(x1, y1, z1, x2, y2, z2, 1, 1, 0, 2, 0, 0)) + (3int * mono6(x1, y1, z1, x2, y2, z2, 2, 0, 0, 1, 1, 0)))));
    lemma_mul_is_distributive_add((194481int * mono6(x1, y1, z1, x2, y2, z2, 0, 0, 4, 0, 0, 4)), (21int * mono6(x1, y1, z1, x2, y2, z2, 0, 0, 2, 0, 1, 1)), ((21int * mono6(x1, y1, z1, x2, y2, z2, 0, 1, 1, 0, 0, 2)) + (1int * mono6(x1, y1, z1, x2, y2, z2, 0, 1, 1, 0, 2, 0))));
    lemma_mul_is_distributive_add((194481int * mono6(x1, y1, z1, x2, y2, z2, 0, 0, 4, 0, 0, 4)), (21int * mono6(x1, y1, z1, x2, y2, z2, 0, 1, 1, 0, 0, 2)), (1int * mono6(x1, y1, z1, x2, y2, z2, 0, 1, 1, 0, 2, 0)));
    lemma_mul_is_distributive_add((194481int * mono6(x1, y1, z1, x2, y2, z2, 0, 0, 4, 0, 0, 4)), (1int * mono6(x1, y1, z1, x2, y2, z2, 0, 2, 0, 0, 1, 1)), ((3int * mono6(x1, y1, z1, x2, y2, z2, 1, 1, 0, 2, 0, 0)) + (3int * mono6(x1, y1, z1, x2, y2, z2, 2, 0, 0, 1, 1, 0))));
    lemma_mul_is_distributive_add((194481int * mono6(x1, y1, z1, x2, y2, z2, 0, 0, 4, 0, 0, 4)), (3int * mono6(x1, y1, z1, x2, y2, z2, 1, 1, 0, 2, 0, 0)), (3int * mono6(x1, y1, z1, x2, y2, z2, 2, 0, 0, 1, 1, 0)));
    lemma_coefficient_product(194481int, mono6(x1, y1, z1, x2, y2, z2, 0, 0, 4, 0, 0, 4), 21int, mono6(x1, y1, z1, x2, y2, z2, 0, 0, 2, 0, 1, 1));
    lemma_mono6_mul(x1, y1, z1, x2, y2, z2, 0, 0, 4, 0, 0, 4, 0, 0, 2, 0, 1, 1);
    lemma_coefficient_product(194481int, mono6(x1, y1, z1, x2, y2, z2, 0, 0, 4, 0, 0, 4), 21int, mono6(x1, y1, z1, x2, y2, z2, 0, 1, 1, 0, 0, 2));
    lemma_mono6_mul(x1, y1, z1, x2, y2, z2, 0, 0, 4, 0, 0, 4, 0, 1, 1, 0, 0, 2);
    lemma_coefficient_product(194481int, mono6(x1, y1, z1, x2, y2, z2, 0, 0, 4, 0, 0, 4), 1int, mono6(x1, y1, z1, x2, y2, z2, 0, 1, 1, 0, 2, 0));
    lemma_mono6_mul(x1, y1, z1, x2, y2, z2, 0, 0, 4, 0, 0, 4, 0, 1, 1, 0, 2, 0);
    lemma_coefficient_product(194481int, mono6(x1, y1, z1, x2, y2, z2, 0, 0, 4, 0, 0, 4), 1int, mono6(x1, y1, z1, x2, y2, z2, 0, 2, 0, 0, 1, 1));
    lemma_mono6_mul(x1, y1, z1, x2, y2, z2, 0, 0, 4, 0, 0, 4, 0, 2, 0, 0, 1, 1);
    lemma_coefficient_product(194481int, mono6(x1, y1, z1, x2, y2, z2, 0, 0, 4, 0, 0, 4), 3int, mono6(x1, y1, z1, x2, y2, z2, 1, 1, 0, 2, 0, 0));
    lemma_mono6_mul(x1, y1, z1, x2, y2, z2, 0, 0, 4, 0, 0, 4, 1, 1, 0, 2, 0, 0);
    lemma_coefficient_product(194481int, mono6(x1, y1, z1, x2, y2, z2, 0, 0, 4, 0, 0, 4), 3int, mono6(x1, y1, z1, x2, y2, z2, 2, 0, 0, 1, 1, 0));
    lemma_mono6_mul(x1, y1, z1, x2, y2, z2, 0, 0, 4, 0, 0, 4, 2, 0, 0, 1, 1, 0);
    lemma_mul_is_distributive_add(((-882int) * mono6(x1, y1, z1, x2, y2, z2, 0, 2, 2, 0, 2, 2)), ((21int * mono6(x1, y1, z1, x2, y2, z2, 0, 0, 2, 0, 1, 1)) + ((21int * mono6(x1, y1, z1, x2, y2, z2, 0, 1, 1, 0, 0, 2)) + (1int * mono6(x1, y1, z1, x2, y2, z2, 0, 1, 1, 0, 2, 0)))), ((1int * mono6(x1, y1, z1, x2, y2, z2, 0, 2, 0, 0, 1, 1)) + ((3int * mono6(x1, y1, z1, x2, y2, z2, 1, 1, 0, 2, 0, 0)) + (3int * mono6(x1, y1, z1, x2, y2, z2, 2, 0, 0, 1, 1, 0)))));
    lemma_mul_is_distributive_add(((-882int) * mono6(x1, y1, z1, x2, y2, z2, 0, 2, 2, 0, 2, 2)), (21int * mono6(x1, y1, z1, x2, y2, z2, 0, 0, 2, 0, 1, 1)), ((21int * mono6(x1, y1, z1, x2, y2, z2, 0, 1, 1, 0, 0, 2)) + (1int * mono6(x1, y1, z1, x2, y2, z2, 0, 1, 1, 0, 2, 0))));
    lemma_mul_is_distributive_add(((-882int) * mono6(x1, y1, z1, x2, y2, z2, 0, 2, 2, 0, 2, 2)), (21int * mono6(x1, y1, z1, x2, y2, z2, 0, 1, 1, 0, 0, 2)), (1int * mono6(x1, y1, z1, x2, y2, z2, 0, 1, 1, 0, 2, 0)));
    lemma_mul_is_distributive_add(((-882int) * mono6(x1, y1, z1, x2, y2, z2, 0, 2, 2, 0, 2, 2)), (1int * mono6(x1, y1, z1, x2, y2, z2, 0, 2, 0, 0, 1, 1)), ((3int * mono6(x1, y1, z1, x2, y2, z2, 1, 1, 0, 2, 0, 0)) + (3int * mono6(x1, y1, z1, x2, y2, z2, 2, 0, 0, 1, 1, 0))));
    lemma_mul_is_distributive_add(((-882int) * mono6(x1, y1, z1, x2, y2, z2, 0, 2, 2, 0, 2, 2)), (3int * mono6(x1, y1, z1, x2, y2, z2, 1, 1, 0, 2, 0, 0)), (3int * mono6(x1, y1, z1, x2, y2, z2, 2, 0, 0, 1, 1, 0)));
    lemma_coefficient_product((-882int), mono6(x1, y1, z1, x2, y2, z2, 0, 2, 2, 0, 2, 2), 21int, mono6(x1, y1, z1, x2, y2, z2, 0, 0, 2, 0, 1, 1));
    lemma_mono6_mul(x1, y1, z1, x2, y2, z2, 0, 2, 2, 0, 2, 2, 0, 0, 2, 0, 1, 1);
    lemma_coefficient_product((-882int), mono6(x1, y1, z1, x2, y2, z2, 0, 2, 2, 0, 2, 2), 21int, mono6(x1, y1, z1, x2, y2, z2, 0, 1, 1, 0, 0, 2));
    lemma_mono6_mul(x1, y1, z1, x2, y2, z2, 0, 2, 2, 0, 2, 2, 0, 1, 1, 0, 0, 2);
    lemma_coefficient_product((-882int), mono6(x1, y1, z1, x2, y2, z2, 0, 2, 2, 0, 2, 2), 1int, mono6(x1, y1, z1, x2, y2, z2, 0, 1, 1, 0, 2, 0));
    lemma_mono6_mul(x1, y1, z1, x2, y2, z2, 0, 2, 2, 0, 2, 2, 0, 1, 1, 0, 2, 0);
    lemma_coefficient_product((-882int), mono6(x1, y1, z1, x2, y2, z2, 0, 2, 2, 0, 2, 2), 1int, mono6(x1, y1, z1, x2, y2, z2, 0, 2, 0, 0, 1, 1));
    lemma_mono6_mul(x1, y1, z1, x2, y2, z2, 0, 2, 2, 0, 2, 2, 0, 2, 0, 0, 1, 1);
    lemma_coefficient_product((-882int), mono6(x1, y1, z1, x2, y2, z2, 0, 2, 2, 0, 2, 2), 3int, mono6(x1, y1, z1, x2, y2, z2, 1, 1, 0, 2, 0, 0));
    lemma_mono6_mul(x1, y1, z1, x2, y2, z2, 0, 2, 2, 0, 2, 2, 1, 1, 0, 2, 0, 0);
    lemma_coefficient_product((-882int), mono6(x1, y1, z1, x2, y2, z2, 0, 2, 2, 0, 2, 2), 3int, mono6(x1, y1, z1, x2, y2, z2, 2, 0, 0, 1, 1, 0));
    lemma_mono6_mul(x1, y1, z1, x2, y2, z2, 0, 2, 2, 0, 2, 2, 2, 0, 0, 1, 1, 0);
    lemma_mul_is_distributive_add((1int * mono6(x1, y1, z1, x2, y2, z2, 0, 4, 0, 0, 4, 0)), ((21int * mono6(x1, y1, z1, x2, y2, z2, 0, 0, 2, 0, 1, 1)) + ((21int * mono6(x1, y1, z1, x2, y2, z2, 0, 1, 1, 0, 0, 2)) + (1int * mono6(x1, y1, z1, x2, y2, z2, 0, 1, 1, 0, 2, 0)))), ((1int * mono6(x1, y1, z1, x2, y2, z2, 0, 2, 0, 0, 1, 1)) + ((3int * mono6(x1, y1, z1, x2, y2, z2, 1, 1, 0, 2, 0, 0)) + (3int * mono6(x1, y1, z1, x2, y2, z2, 2, 0, 0, 1, 1, 0)))));
    lemma_mul_is_distributive_add((1int * mono6(x1, y1, z1, x2, y2, z2, 0, 4, 0, 0, 4, 0)), (21int * mono6(x1, y1, z1, x2, y2, z2, 0, 0, 2, 0, 1, 1)), ((21int * mono6(x1, y1, z1, x2, y2, z2, 0, 1, 1, 0, 0, 2)) + (1int * mono6(x1, y1, z1, x2, y2, z2, 0, 1, 1, 0, 2, 0))));
    lemma_mul_is_distributive_add((1int * mono6(x1, y1, z1, x2, y2, z2, 0, 4, 0, 0, 4, 0)), (21int * mono6(x1, y1, z1, x2, y2, z2, 0, 1, 1, 0, 0, 2)), (1int * mono6(x1, y1, z1, x2, y2, z2, 0, 1, 1, 0, 2, 0)));
    lemma_mul_is_distributive_add((1int * mono6(x1, y1, z1, x2, y2, z2, 0, 4, 0, 0, 4, 0)), (1int * mono6(x1, y1, z1, x2, y2, z2, 0, 2, 0, 0, 1, 1)), ((3int * mono6(x1, y1, z1, x2, y2, z2, 1, 1, 0, 2, 0, 0)) + (3int * mono6(x1, y1, z1, x2, y2, z2, 2, 0, 0, 1, 1, 0))));
    lemma_mul_is_distributive_add((1int * mono6(x1, y1, z1, x2, y2, z2, 0, 4, 0, 0, 4, 0)), (3int * mono6(x1, y1, z1, x2, y2, z2, 1, 1, 0, 2, 0, 0)), (3int * mono6(x1, y1, z1, x2, y2, z2, 2, 0, 0, 1, 1, 0)));
    lemma_coefficient_product(1int, mono6(x1, y1, z1, x2, y2, z2, 0, 4, 0, 0, 4, 0), 21int, mono6(x1, y1, z1, x2, y2, z2, 0, 0, 2, 0, 1, 1));
    lemma_mono6_mul(x1, y1, z1, x2, y2, z2, 0, 4, 0, 0, 4, 0, 0, 0, 2, 0, 1, 1);
    lemma_coefficient_product(1int, mono6(x1, y1, z1, x2, y2, z2, 0, 4, 0, 0, 4, 0), 21int, mono6(x1, y1, z1, x2, y2, z2, 0, 1, 1, 0, 0, 2));
    lemma_mono6_mul(x1, y1, z1, x2, y2, z2, 0, 4, 0, 0, 4, 0, 0, 1, 1, 0, 0, 2);
    lemma_coefficient_product(1int, mono6(x1, y1, z1, x2, y2, z2, 0, 4, 0, 0, 4, 0), 1int, mono6(x1, y1, z1, x2, y2, z2, 0, 1, 1, 0, 2, 0));
    lemma_mono6_mul(x1, y1, z1, x2, y2, z2, 0, 4, 0, 0, 4, 0, 0, 1, 1, 0, 2, 0);
    lemma_coefficient_product(1int, mono6(x1, y1, z1, x2, y2, z2, 0, 4, 0, 0, 4, 0), 1int, mono6(x1, y1, z1, x2, y2, z2, 0, 2, 0, 0, 1, 1));
    lemma_mono6_mul(x1, y1, z1, x2, y2, z2, 0, 4, 0, 0, 4, 0, 0, 2, 0, 0, 1, 1);
    lemma_coefficient_product(1int, mono6(x1, y1, z1, x2, y2, z2, 0, 4, 0, 0, 4, 0), 3int, mono6(x1, y1, z1, x2, y2, z2, 1, 1, 0, 2, 0, 0));
    lemma_mono6_mul(x1, y1, z1, x2, y2, z2, 0, 4, 0, 0, 4, 0, 1, 1, 0, 2, 0, 0);
    lemma_coefficient_product(1int, mono6(x1, y1, z1, x2, y2, z2, 0, 4, 0, 0, 4, 0), 3int, mono6(x1, y1, z1, x2, y2, z2, 2, 0, 0, 1, 1, 0));
    lemma_mono6_mul(x1, y1, z1, x2, y2, z2, 0, 4, 0, 0, 4, 0, 2, 0, 0, 1, 1, 0);
    lemma_mul_is_distributive_add(((-55566int) * mono6(x1, y1, z1, x2, y2, z2, 1, 0, 3, 2, 0, 2)), ((21int * mono6(x1, y1, z1, x2, y2, z2, 0, 0, 2, 0, 1, 1)) + ((21int * mono6(x1, y1, z1, x2, y2, z2, 0, 1, 1, 0, 0, 2)) + (1int * mono6(x1, y1, z1, x2, y2, z2, 0, 1, 1, 0, 2, 0)))), ((1int * mono6(x1, y1, z1, x2, y2, z2, 0, 2, 0, 0, 1, 1)) + ((3int * mono6(x1, y1, z1, x2, y2, z2, 1, 1, 0, 2, 0, 0)) + (3int * mono6(x1, y1, z1, x2, y2, z2, 2, 0, 0, 1, 1, 0)))));
    lemma_mul_is_distributive_add(((-55566int) * mono6(x1, y1, z1, x2, y2, z2, 1, 0, 3, 2, 0, 2)), (21int * mono6(x1, y1, z1, x2, y2, z2, 0, 0, 2, 0, 1, 1)), ((21int * mono6(x1, y1, z1, x2, y2, z2, 0, 1, 1, 0, 0, 2)) + (1int * mono6(x1, y1, z1, x2, y2, z2, 0, 1, 1, 0, 2, 0))));
    lemma_mul_is_distributive_add(((-55566int) * mono6(x1, y1, z1, x2, y2, z2, 1, 0, 3, 2, 0, 2)), (21int * mono6(x1, y1, z1, x2, y2, z2, 0, 1, 1, 0, 0, 2)), (1int * mono6(x1, y1, z1, x2, y2, z2, 0, 1, 1, 0, 2, 0)));
    lemma_mul_is_distributive_add(((-55566int) * mono6(x1, y1, z1, x2, y2, z2, 1, 0, 3, 2, 0, 2)), (1int * mono6(x1, y1, z1, x2, y2, z2, 0, 2, 0, 0, 1, 1)), ((3int * mono6(x1, y1, z1, x2, y2, z2, 1, 1, 0, 2, 0, 0)) + (3int * mono6(x1, y1, z1, x2, y2, z2, 2, 0, 0, 1, 1, 0))));
    lemma_mul_is_distributive_add(((-55566int) * mono6(x1, y1, z1, x2, y2, z2, 1, 0, 3, 2, 0, 2)), (3int * mono6(x1, y1, z1, x2, y2, z2, 1, 1, 0, 2, 0, 0)), (3int * mono6(x1, y1, z1, x2, y2, z2, 2, 0, 0, 1, 1, 0)));
    lemma_coefficient_product((-55566int), mono6(x1, y1, z1, x2, y2, z2, 1, 0, 3, 2, 0, 2), 21int, mono6(x1, y1, z1, x2, y2, z2, 0, 0, 2, 0, 1, 1));
    lemma_mono6_mul(x1, y1, z1, x2, y2, z2, 1, 0, 3, 2, 0, 2, 0, 0, 2, 0, 1, 1);
    lemma_coefficient_product((-55566int), mono6(x1, y1, z1, x2, y2, z2, 1, 0, 3, 2, 0, 2), 21int, mono6(x1, y1, z1, x2, y2, z2, 0, 1, 1, 0, 0, 2));
    lemma_mono6_mul(x1, y1, z1, x2, y2, z2, 1, 0, 3, 2, 0, 2, 0, 1, 1, 0, 0, 2);
    lemma_coefficient_product((-55566int), mono6(x1, y1, z1, x2, y2, z2, 1, 0, 3, 2, 0, 2), 1int, mono6(x1, y1, z1, x2, y2, z2, 0, 1, 1, 0, 2, 0));
    lemma_mono6_mul(x1, y1, z1, x2, y2, z2, 1, 0, 3, 2, 0, 2, 0, 1, 1, 0, 2, 0);
    lemma_coefficient_product((-55566int), mono6(x1, y1, z1, x2, y2, z2, 1, 0, 3, 2, 0, 2), 1int, mono6(x1, y1, z1, x2, y2, z2, 0, 2, 0, 0, 1, 1));
    lemma_mono6_mul(x1, y1, z1, x2, y2, z2, 1, 0, 3, 2, 0, 2, 0, 2, 0, 0, 1, 1);
    lemma_coefficient_product((-55566int), mono6(x1, y1, z1, x2, y2, z2, 1, 0, 3, 2, 0, 2), 3int, mono6(x1, y1, z1, x2, y2, z2, 1, 1, 0, 2, 0, 0));
    lemma_mono6_mul(x1, y1, z1, x2, y2, z2, 1, 0, 3, 2, 0, 2, 1, 1, 0, 2, 0, 0);
    lemma_coefficient_product((-55566int), mono6(x1, y1, z1, x2, y2, z2, 1, 0, 3, 2, 0, 2), 3int, mono6(x1, y1, z1, x2, y2, z2, 2, 0, 0, 1, 1, 0));
    lemma_mono6_mul(x1, y1, z1, x2, y2, z2, 1, 0, 3, 2, 0, 2, 2, 0, 0, 1, 1, 0);
    lemma_mul_is_distributive_add((126int * mono6(x1, y1, z1, x2, y2, z2, 1, 2, 1, 2, 2, 0)), ((21int * mono6(x1, y1, z1, x2, y2, z2, 0, 0, 2, 0, 1, 1)) + ((21int * mono6(x1, y1, z1, x2, y2, z2, 0, 1, 1, 0, 0, 2)) + (1int * mono6(x1, y1, z1, x2, y2, z2, 0, 1, 1, 0, 2, 0)))), ((1int * mono6(x1, y1, z1, x2, y2, z2, 0, 2, 0, 0, 1, 1)) + ((3int * mono6(x1, y1, z1, x2, y2, z2, 1, 1, 0, 2, 0, 0)) + (3int * mono6(x1, y1, z1, x2, y2, z2, 2, 0, 0, 1, 1, 0)))));
    lemma_mul_is_distributive_add((126int * mono6(x1, y1, z1, x2, y2, z2, 1, 2, 1, 2, 2, 0)), (21int * mono6(x1, y1, z1, x2, y2, z2, 0, 0, 2, 0, 1, 1)), ((21int * mono6(x1, y1, z1, x2, y2, z2, 0, 1, 1, 0, 0, 2)) + (1int * mono6(x1, y1, z1, x2, y2, z2, 0, 1, 1, 0, 2, 0))));
    lemma_mul_is_distributive_add((126int * mono6(x1, y1, z1, x2, y2, z2, 1, 2, 1, 2, 2, 0)), (21int * mono6(x1, y1, z1, x2, y2, z2, 0, 1, 1, 0, 0, 2)), (1int * mono6(x1, y1, z1, x2, y2, z2, 0, 1, 1, 0, 2, 0)));
    lemma_mul_is_distributive_add((126int * mono6(x1, y1, z1, x2, y2, z2, 1, 2, 1, 2, 2, 0)), (1int * mono6(x1, y1, z1, x2, y2, z2, 0, 2, 0, 0, 1, 1)), ((3int * mono6(x1, y1, z1, x2, y2, z2, 1, 1, 0, 2, 0, 0)) + (3int * mono6(x1, y1, z1, x2, y2, z2, 2, 0, 0, 1, 1, 0))));
    lemma_mul_is_distributive_add((126int * mono6(x1, y1, z1, x2, y2, z2, 1, 2, 1, 2, 2, 0)), (3int * mono6(x1, y1, z1, x2, y2, z2, 1, 1, 0, 2, 0, 0)), (3int * mono6(x1, y1, z1, x2, y2, z2, 2, 0, 0, 1, 1, 0)));
    lemma_coefficient_product(126int, mono6(x1, y1, z1, x2, y2, z2, 1, 2, 1, 2, 2, 0), 21int, mono6(x1, y1, z1, x2, y2, z2, 0, 0, 2, 0, 1, 1));
    lemma_mono6_mul(x1, y1, z1, x2, y2, z2, 1, 2, 1, 2, 2, 0, 0, 0, 2, 0, 1, 1);
    lemma_coefficient_product(126int, mono6(x1, y1, z1, x2, y2, z2, 1, 2, 1, 2, 2, 0), 21int, mono6(x1, y1, z1, x2, y2, z2, 0, 1, 1, 0, 0, 2));
    lemma_mono6_mul(x1, y1, z1, x2, y2, z2, 1, 2, 1, 2, 2, 0, 0, 1, 1, 0, 0, 2);
    lemma_coefficient_product(126int, mono6(x1, y1, z1, x2, y2, z2, 1, 2, 1, 2, 2, 0), 1int, mono6(x1, y1, z1, x2, y2, z2, 0, 1, 1, 0, 2, 0));
    lemma_mono6_mul(x1, y1, z1, x2, y2, z2, 1, 2, 1, 2, 2, 0, 0, 1, 1, 0, 2, 0);
    lemma_coefficient_product(126int, mono6(x1, y1, z1, x2, y2, z2, 1, 2, 1, 2, 2, 0), 1int, mono6(x1, y1, z1, x2, y2, z2, 0, 2, 0, 0, 1, 1));
    lemma_mono6_mul(x1, y1, z1, x2, y2, z2, 1, 2, 1, 2, 2, 0, 0, 2, 0, 0, 1, 1);
    lemma_coefficient_product(126int, mono6(x1, y1, z1, x2, y2, z2, 1, 2, 1, 2, 2, 0), 3int, mono6(x1, y1, z1, x2, y2, z2, 1, 1, 0, 2, 0, 0));
    lemma_mono6_mul(x1, y1, z1, x2, y2, z2, 1, 2, 1, 2, 2, 0, 1, 1, 0, 2, 0, 0);
    lemma_coefficient_product(126int, mono6(x1, y1, z1, x2, y2, z2, 1, 2, 1, 2, 2, 0), 3int, mono6(x1, y1, z1, x2, y2, z2, 2, 0, 0, 1, 1, 0));
    lemma_mono6_mul(x1, y1, z1, x2, y2, z2, 1, 2, 1, 2, 2, 0, 2, 0, 0, 1, 1, 0);
    lemma_mul_is_distributive_add(((-55566int) * mono6(x1, y1, z1, x2, y2, z2, 2, 0, 2, 1, 0, 3)), ((21int * mono6(x1, y1, z1, x2, y2, z2, 0, 0, 2, 0, 1, 1)) + ((21int * mono6(x1, y1, z1, x2, y2, z2, 0, 1, 1, 0, 0, 2)) + (1int * mono6(x1, y1, z1, x2, y2, z2, 0, 1, 1, 0, 2, 0)))), ((1int * mono6(x1, y1, z1, x2, y2, z2, 0, 2, 0, 0, 1, 1)) + ((3int * mono6(x1, y1, z1, x2, y2, z2, 1, 1, 0, 2, 0, 0)) + (3int * mono6(x1, y1, z1, x2, y2, z2, 2, 0, 0, 1, 1, 0)))));
    lemma_mul_is_distributive_add(((-55566int) * mono6(x1, y1, z1, x2, y2, z2, 2, 0, 2, 1, 0, 3)), (21int * mono6(x1, y1, z1, x2, y2, z2, 0, 0, 2, 0, 1, 1)), ((21int * mono6(x1, y1, z1, x2, y2, z2, 0, 1, 1, 0, 0, 2)) + (1int * mono6(x1, y1, z1, x2, y2, z2, 0, 1, 1, 0, 2, 0))));
    lemma_mul_is_distributive_add(((-55566int) * mono6(x1, y1, z1, x2, y2, z2, 2, 0, 2, 1, 0, 3)), (21int * mono6(x1, y1, z1, x2, y2, z2, 0, 1, 1, 0, 0, 2)), (1int * mono6(x1, y1, z1, x2, y2, z2, 0, 1, 1, 0, 2, 0)));
    lemma_mul_is_distributive_add(((-55566int) * mono6(x1, y1, z1, x2, y2, z2, 2, 0, 2, 1, 0, 3)), (1int * mono6(x1, y1, z1, x2, y2, z2, 0, 2, 0, 0, 1, 1)), ((3int * mono6(x1, y1, z1, x2, y2, z2, 1, 1, 0, 2, 0, 0)) + (3int * mono6(x1, y1, z1, x2, y2, z2, 2, 0, 0, 1, 1, 0))));
    lemma_mul_is_distributive_add(((-55566int) * mono6(x1, y1, z1, x2, y2, z2, 2, 0, 2, 1, 0, 3)), (3int * mono6(x1, y1, z1, x2, y2, z2, 1, 1, 0, 2, 0, 0)), (3int * mono6(x1, y1, z1, x2, y2, z2, 2, 0, 0, 1, 1, 0)));
    lemma_coefficient_product((-55566int), mono6(x1, y1, z1, x2, y2, z2, 2, 0, 2, 1, 0, 3), 21int, mono6(x1, y1, z1, x2, y2, z2, 0, 0, 2, 0, 1, 1));
    lemma_mono6_mul(x1, y1, z1, x2, y2, z2, 2, 0, 2, 1, 0, 3, 0, 0, 2, 0, 1, 1);
    lemma_coefficient_product((-55566int), mono6(x1, y1, z1, x2, y2, z2, 2, 0, 2, 1, 0, 3), 21int, mono6(x1, y1, z1, x2, y2, z2, 0, 1, 1, 0, 0, 2));
    lemma_mono6_mul(x1, y1, z1, x2, y2, z2, 2, 0, 2, 1, 0, 3, 0, 1, 1, 0, 0, 2);
    lemma_coefficient_product((-55566int), mono6(x1, y1, z1, x2, y2, z2, 2, 0, 2, 1, 0, 3), 1int, mono6(x1, y1, z1, x2, y2, z2, 0, 1, 1, 0, 2, 0));
    lemma_mono6_mul(x1, y1, z1, x2, y2, z2, 2, 0, 2, 1, 0, 3, 0, 1, 1, 0, 2, 0);
    lemma_coefficient_product((-55566int), mono6(x1, y1, z1, x2, y2, z2, 2, 0, 2, 1, 0, 3), 1int, mono6(x1, y1, z1, x2, y2, z2, 0, 2, 0, 0, 1, 1));
    lemma_mono6_mul(x1, y1, z1, x2, y2, z2, 2, 0, 2, 1, 0, 3, 0, 2, 0, 0, 1, 1);
    lemma_coefficient_product((-55566int), mono6(x1, y1, z1, x2, y2, z2, 2, 0, 2, 1, 0, 3), 3int, mono6(x1, y1, z1, x2, y2, z2, 1, 1, 0, 2, 0, 0));
    lemma_mono6_mul(x1, y1, z1, x2, y2, z2, 2, 0, 2, 1, 0, 3, 1, 1, 0, 2, 0, 0);
    lemma_coefficient_product((-55566int), mono6(x1, y1, z1, x2, y2, z2, 2, 0, 2, 1, 0, 3), 3int, mono6(x1, y1, z1, x2, y2, z2, 2, 0, 0, 1, 1, 0));
    lemma_mono6_mul(x1, y1, z1, x2, y2, z2, 2, 0, 2, 1, 0, 3, 2, 0, 0, 1, 1, 0);
    lemma_mul_is_distributive_add((3969int * mono6(x1, y1, z1, x2, y2, z2, 2, 0, 2, 4, 0, 0)), ((21int * mono6(x1, y1, z1, x2, y2, z2, 0, 0, 2, 0, 1, 1)) + ((21int * mono6(x1, y1, z1, x2, y2, z2, 0, 1, 1, 0, 0, 2)) + (1int * mono6(x1, y1, z1, x2, y2, z2, 0, 1, 1, 0, 2, 0)))), ((1int * mono6(x1, y1, z1, x2, y2, z2, 0, 2, 0, 0, 1, 1)) + ((3int * mono6(x1, y1, z1, x2, y2, z2, 1, 1, 0, 2, 0, 0)) + (3int * mono6(x1, y1, z1, x2, y2, z2, 2, 0, 0, 1, 1, 0)))));
    lemma_mul_is_distributive_add((3969int * mono6(x1, y1, z1, x2, y2, z2, 2, 0, 2, 4, 0, 0)), (21int * mono6(x1, y1, z1, x2, y2, z2, 0, 0, 2, 0, 1, 1)), ((21int * mono6(x1, y1, z1, x2, y2, z2, 0, 1, 1, 0, 0, 2)) + (1int * mono6(x1, y1, z1, x2, y2, z2, 0, 1, 1, 0, 2, 0))));
    lemma_mul_is_distributive_add((3969int * mono6(x1, y1, z1, x2, y2, z2, 2, 0, 2, 4, 0, 0)), (21int * mono6(x1, y1, z1, x2, y2, z2, 0, 1, 1, 0, 0, 2)), (1int * mono6(x1, y1, z1, x2, y2, z2, 0, 1, 1, 0, 2, 0)));
    lemma_mul_is_distributive_add((3969int * mono6(x1, y1, z1, x2, y2, z2, 2, 0, 2, 4, 0, 0)), (1int * mono6(x1, y1, z1, x2, y2, z2, 0, 2, 0, 0, 1, 1)), ((3int * mono6(x1, y1, z1, x2, y2, z2, 1, 1, 0, 2, 0, 0)) + (3int * mono6(x1, y1, z1, x2, y2, z2, 2, 0, 0, 1, 1, 0))));
    lemma_mul_is_distributive_add((3969int * mono6(x1, y1, z1, x2, y2, z2, 2, 0, 2, 4, 0, 0)), (3int * mono6(x1, y1, z1, x2, y2, z2, 1, 1, 0, 2, 0, 0)), (3int * mono6(x1, y1, z1, x2, y2, z2, 2, 0, 0, 1, 1, 0)));
    lemma_coefficient_product(3969int, mono6(x1, y1, z1, x2, y2, z2, 2, 0, 2, 4, 0, 0), 21int, mono6(x1, y1, z1, x2, y2, z2, 0, 0, 2, 0, 1, 1));
    lemma_mono6_mul(x1, y1, z1, x2, y2, z2, 2, 0, 2, 4, 0, 0, 0, 0, 2, 0, 1, 1);
    lemma_coefficient_product(3969int, mono6(x1, y1, z1, x2, y2, z2, 2, 0, 2, 4, 0, 0), 21int, mono6(x1, y1, z1, x2, y2, z2, 0, 1, 1, 0, 0, 2));
    lemma_mono6_mul(x1, y1, z1, x2, y2, z2, 2, 0, 2, 4, 0, 0, 0, 1, 1, 0, 0, 2);
    lemma_coefficient_product(3969int, mono6(x1, y1, z1, x2, y2, z2, 2, 0, 2, 4, 0, 0), 1int, mono6(x1, y1, z1, x2, y2, z2, 0, 1, 1, 0, 2, 0));
    lemma_mono6_mul(x1, y1, z1, x2, y2, z2, 2, 0, 2, 4, 0, 0, 0, 1, 1, 0, 2, 0);
    lemma_coefficient_product(3969int, mono6(x1, y1, z1, x2, y2, z2, 2, 0, 2, 4, 0, 0), 1int, mono6(x1, y1, z1, x2, y2, z2, 0, 2, 0, 0, 1, 1));
    lemma_mono6_mul(x1, y1, z1, x2, y2, z2, 2, 0, 2, 4, 0, 0, 0, 2, 0, 0, 1, 1);
    lemma_coefficient_product(3969int, mono6(x1, y1, z1, x2, y2, z2, 2, 0, 2, 4, 0, 0), 3int, mono6(x1, y1, z1, x2, y2, z2, 1, 1, 0, 2, 0, 0));
    lemma_mono6_mul(x1, y1, z1, x2, y2, z2, 2, 0, 2, 4, 0, 0, 1, 1, 0, 2, 0, 0);
    lemma_coefficient_product(3969int, mono6(x1, y1, z1, x2, y2, z2, 2, 0, 2, 4, 0, 0), 3int, mono6(x1, y1, z1, x2, y2, z2, 2, 0, 0, 1, 1, 0));
    lemma_mono6_mul(x1, y1, z1, x2, y2, z2, 2, 0, 2, 4, 0, 0, 2, 0, 0, 1, 1, 0);
    lemma_mul_is_distributive_add((126int * mono6(x1, y1, z1, x2, y2, z2, 2, 2, 0, 1, 2, 1)), ((21int * mono6(x1, y1, z1, x2, y2, z2, 0, 0, 2, 0, 1, 1)) + ((21int * mono6(x1, y1, z1, x2, y2, z2, 0, 1, 1, 0, 0, 2)) + (1int * mono6(x1, y1, z1, x2, y2, z2, 0, 1, 1, 0, 2, 0)))), ((1int * mono6(x1, y1, z1, x2, y2, z2, 0, 2, 0, 0, 1, 1)) + ((3int * mono6(x1, y1, z1, x2, y2, z2, 1, 1, 0, 2, 0, 0)) + (3int * mono6(x1, y1, z1, x2, y2, z2, 2, 0, 0, 1, 1, 0)))));
    lemma_mul_is_distributive_add((126int * mono6(x1, y1, z1, x2, y2, z2, 2, 2, 0, 1, 2, 1)), (21int * mono6(x1, y1, z1, x2, y2, z2, 0, 0, 2, 0, 1, 1)), ((21int * mono6(x1, y1, z1, x2, y2, z2, 0, 1, 1, 0, 0, 2)) + (1int * mono6(x1, y1, z1, x2, y2, z2, 0, 1, 1, 0, 2, 0))));
    lemma_mul_is_distributive_add((126int * mono6(x1, y1, z1, x2, y2, z2, 2, 2, 0, 1, 2, 1)), (21int * mono6(x1, y1, z1, x2, y2, z2, 0, 1, 1, 0, 0, 2)), (1int * mono6(x1, y1, z1, x2, y2, z2, 0, 1, 1, 0, 2, 0)));
    lemma_mul_is_distributive_add((126int * mono6(x1, y1, z1, x2, y2, z2, 2, 2, 0, 1, 2, 1)), (1int * mono6(x1, y1, z1, x2, y2, z2, 0, 2, 0, 0, 1, 1)), ((3int * mono6(x1, y1, z1, x2, y2, z2, 1, 1, 0, 2, 0, 0)) + (3int * mono6(x1, y1, z1, x2, y2, z2, 2, 0, 0, 1, 1, 0))));
    lemma_mul_is_distributive_add((126int * mono6(x1, y1, z1, x2, y2, z2, 2, 2, 0, 1, 2, 1)), (3int * mono6(x1, y1, z1, x2, y2, z2, 1, 1, 0, 2, 0, 0)), (3int * mono6(x1, y1, z1, x2, y2, z2, 2, 0, 0, 1, 1, 0)));
    lemma_coefficient_product(126int, mono6(x1, y1, z1, x2, y2, z2, 2, 2, 0, 1, 2, 1), 21int, mono6(x1, y1, z1, x2, y2, z2, 0, 0, 2, 0, 1, 1));
    lemma_mono6_mul(x1, y1, z1, x2, y2, z2, 2, 2, 0, 1, 2, 1, 0, 0, 2, 0, 1, 1);
    lemma_coefficient_product(126int, mono6(x1, y1, z1, x2, y2, z2, 2, 2, 0, 1, 2, 1), 21int, mono6(x1, y1, z1, x2, y2, z2, 0, 1, 1, 0, 0, 2));
    lemma_mono6_mul(x1, y1, z1, x2, y2, z2, 2, 2, 0, 1, 2, 1, 0, 1, 1, 0, 0, 2);
    lemma_coefficient_product(126int, mono6(x1, y1, z1, x2, y2, z2, 2, 2, 0, 1, 2, 1), 1int, mono6(x1, y1, z1, x2, y2, z2, 0, 1, 1, 0, 2, 0));
    lemma_mono6_mul(x1, y1, z1, x2, y2, z2, 2, 2, 0, 1, 2, 1, 0, 1, 1, 0, 2, 0);
    lemma_coefficient_product(126int, mono6(x1, y1, z1, x2, y2, z2, 2, 2, 0, 1, 2, 1), 1int, mono6(x1, y1, z1, x2, y2, z2, 0, 2, 0, 0, 1, 1));
    lemma_mono6_mul(x1, y1, z1, x2, y2, z2, 2, 2, 0, 1, 2, 1, 0, 2, 0, 0, 1, 1);
    lemma_coefficient_product(126int, mono6(x1, y1, z1, x2, y2, z2, 2, 2, 0, 1, 2, 1), 3int, mono6(x1, y1, z1, x2, y2, z2, 1, 1, 0, 2, 0, 0));
    lemma_mono6_mul(x1, y1, z1, x2, y2, z2, 2, 2, 0, 1, 2, 1, 1, 1, 0, 2, 0, 0);
    lemma_coefficient_product(126int, mono6(x1, y1, z1, x2, y2, z2, 2, 2, 0, 1, 2, 1), 3int, mono6(x1, y1, z1, x2, y2, z2, 2, 0, 0, 1, 1, 0));
    lemma_mono6_mul(x1, y1, z1, x2, y2, z2, 2, 2, 0, 1, 2, 1, 2, 0, 0, 1, 1, 0);
    lemma_mul_is_distributive_add((7938int * mono6(x1, y1, z1, x2, y2, z2, 3, 0, 1, 3, 0, 1)), ((21int * mono6(x1, y1, z1, x2, y2, z2, 0, 0, 2, 0, 1, 1)) + ((21int * mono6(x1, y1, z1, x2, y2, z2, 0, 1, 1, 0, 0, 2)) + (1int * mono6(x1, y1, z1, x2, y2, z2, 0, 1, 1, 0, 2, 0)))), ((1int * mono6(x1, y1, z1, x2, y2, z2, 0, 2, 0, 0, 1, 1)) + ((3int * mono6(x1, y1, z1, x2, y2, z2, 1, 1, 0, 2, 0, 0)) + (3int * mono6(x1, y1, z1, x2, y2, z2, 2, 0, 0, 1, 1, 0)))));
    lemma_mul_is_distributive_add((7938int * mono6(x1, y1, z1, x2, y2, z2, 3, 0, 1, 3, 0, 1)), (21int * mono6(x1, y1, z1, x2, y2, z2, 0, 0, 2, 0, 1, 1)), ((21int * mono6(x1, y1, z1, x2, y2, z2, 0, 1, 1, 0, 0, 2)) + (1int * mono6(x1, y1, z1, x2, y2, z2, 0, 1, 1, 0, 2, 0))));
    lemma_mul_is_distributive_add((7938int * mono6(x1, y1, z1, x2, y2, z2, 3, 0, 1, 3, 0, 1)), (21int * mono6(x1, y1, z1, x2, y2, z2, 0, 1, 1, 0, 0, 2)), (1int * mono6(x1, y1, z1, x2, y2, z2, 0, 1, 1, 0, 2, 0)));
    lemma_mul_is_distributive_add((7938int * mono6(x1, y1, z1, x2, y2, z2, 3, 0, 1, 3, 0, 1)), (1int * mono6(x1, y1, z1, x2, y2, z2, 0, 2, 0, 0, 1, 1)), ((3int * mono6(x1, y1, z1, x2, y2, z2, 1, 1, 0, 2, 0, 0)) + (3int * mono6(x1, y1, z1, x2, y2, z2, 2, 0, 0, 1, 1, 0))));
    lemma_mul_is_distributive_add((7938int * mono6(x1, y1, z1, x2, y2, z2, 3, 0, 1, 3, 0, 1)), (3int * mono6(x1, y1, z1, x2, y2, z2, 1, 1, 0, 2, 0, 0)), (3int * mono6(x1, y1, z1, x2, y2, z2, 2, 0, 0, 1, 1, 0)));
    lemma_coefficient_product(7938int, mono6(x1, y1, z1, x2, y2, z2, 3, 0, 1, 3, 0, 1), 21int, mono6(x1, y1, z1, x2, y2, z2, 0, 0, 2, 0, 1, 1));
    lemma_mono6_mul(x1, y1, z1, x2, y2, z2, 3, 0, 1, 3, 0, 1, 0, 0, 2, 0, 1, 1);
    lemma_coefficient_product(7938int, mono6(x1, y1, z1, x2, y2, z2, 3, 0, 1, 3, 0, 1), 21int, mono6(x1, y1, z1, x2, y2, z2, 0, 1, 1, 0, 0, 2));
    lemma_mono6_mul(x1, y1, z1, x2, y2, z2, 3, 0, 1, 3, 0, 1, 0, 1, 1, 0, 0, 2);
    lemma_coefficient_product(7938int, mono6(x1, y1, z1, x2, y2, z2, 3, 0, 1, 3, 0, 1), 1int, mono6(x1, y1, z1, x2, y2, z2, 0, 1, 1, 0, 2, 0));
    lemma_mono6_mul(x1, y1, z1, x2, y2, z2, 3, 0, 1, 3, 0, 1, 0, 1, 1, 0, 2, 0);
    lemma_coefficient_product(7938int, mono6(x1, y1, z1, x2, y2, z2, 3, 0, 1, 3, 0, 1), 1int, mono6(x1, y1, z1, x2, y2, z2, 0, 2, 0, 0, 1, 1));
    lemma_mono6_mul(x1, y1, z1, x2, y2, z2, 3, 0, 1, 3, 0, 1, 0, 2, 0, 0, 1, 1);
    lemma_coefficient_product(7938int, mono6(x1, y1, z1, x2, y2, z2, 3, 0, 1, 3, 0, 1), 3int, mono6(x1, y1, z1, x2, y2, z2, 1, 1, 0, 2, 0, 0));
    lemma_mono6_mul(x1, y1, z1, x2, y2, z2, 3, 0, 1, 3, 0, 1, 1, 1, 0, 2, 0, 0);
    lemma_coefficient_product(7938int, mono6(x1, y1, z1, x2, y2, z2, 3, 0, 1, 3, 0, 1), 3int, mono6(x1, y1, z1, x2, y2, z2, 2, 0, 0, 1, 1, 0));
    lemma_mono6_mul(x1, y1, z1, x2, y2, z2, 3, 0, 1, 3, 0, 1, 2, 0, 0, 1, 1, 0);
    lemma_mul_is_distributive_add((3969int * mono6(x1, y1, z1, x2, y2, z2, 4, 0, 0, 2, 0, 2)), ((21int * mono6(x1, y1, z1, x2, y2, z2, 0, 0, 2, 0, 1, 1)) + ((21int * mono6(x1, y1, z1, x2, y2, z2, 0, 1, 1, 0, 0, 2)) + (1int * mono6(x1, y1, z1, x2, y2, z2, 0, 1, 1, 0, 2, 0)))), ((1int * mono6(x1, y1, z1, x2, y2, z2, 0, 2, 0, 0, 1, 1)) + ((3int * mono6(x1, y1, z1, x2, y2, z2, 1, 1, 0, 2, 0, 0)) + (3int * mono6(x1, y1, z1, x2, y2, z2, 2, 0, 0, 1, 1, 0)))));
    lemma_mul_is_distributive_add((3969int * mono6(x1, y1, z1, x2, y2, z2, 4, 0, 0, 2, 0, 2)), (21int * mono6(x1, y1, z1, x2, y2, z2, 0, 0, 2, 0, 1, 1)), ((21int * mono6(x1, y1, z1, x2, y2, z2, 0, 1, 1, 0, 0, 2)) + (1int * mono6(x1, y1, z1, x2, y2, z2, 0, 1, 1, 0, 2, 0))));
    lemma_mul_is_distributive_add((3969int * mono6(x1, y1, z1, x2, y2, z2, 4, 0, 0, 2, 0, 2)), (21int * mono6(x1, y1, z1, x2, y2, z2, 0, 1, 1, 0, 0, 2)), (1int * mono6(x1, y1, z1, x2, y2, z2, 0, 1, 1, 0, 2, 0)));
    lemma_mul_is_distributive_add((3969int * mono6(x1, y1, z1, x2, y2, z2, 4, 0, 0, 2, 0, 2)), (1int * mono6(x1, y1, z1, x2, y2, z2, 0, 2, 0, 0, 1, 1)), ((3int * mono6(x1, y1, z1, x2, y2, z2, 1, 1, 0, 2, 0, 0)) + (3int * mono6(x1, y1, z1, x2, y2, z2, 2, 0, 0, 1, 1, 0))));
    lemma_mul_is_distributive_add((3969int * mono6(x1, y1, z1, x2, y2, z2, 4, 0, 0, 2, 0, 2)), (3int * mono6(x1, y1, z1, x2, y2, z2, 1, 1, 0, 2, 0, 0)), (3int * mono6(x1, y1, z1, x2, y2, z2, 2, 0, 0, 1, 1, 0)));
    lemma_coefficient_product(3969int, mono6(x1, y1, z1, x2, y2, z2, 4, 0, 0, 2, 0, 2), 21int, mono6(x1, y1, z1, x2, y2, z2, 0, 0, 2, 0, 1, 1));
    lemma_mono6_mul(x1, y1, z1, x2, y2, z2, 4, 0, 0, 2, 0, 2, 0, 0, 2, 0, 1, 1);
    lemma_coefficient_product(3969int, mono6(x1, y1, z1, x2, y2, z2, 4, 0, 0, 2, 0, 2), 21int, mono6(x1, y1, z1, x2, y2, z2, 0, 1, 1, 0, 0, 2));
    lemma_mono6_mul(x1, y1, z1, x2, y2, z2, 4, 0, 0, 2, 0, 2, 0, 1, 1, 0, 0, 2);
    lemma_coefficient_product(3969int, mono6(x1, y1, z1, x2, y2, z2, 4, 0, 0, 2, 0, 2), 1int, mono6(x1, y1, z1, x2, y2, z2, 0, 1, 1, 0, 2, 0));
    lemma_mono6_mul(x1, y1, z1, x2, y2, z2, 4, 0, 0, 2, 0, 2, 0, 1, 1, 0, 2, 0);
    lemma_coefficient_product(3969int, mono6(x1, y1, z1, x2, y2, z2, 4, 0, 0, 2, 0, 2), 1int, mono6(x1, y1, z1, x2, y2, z2, 0, 2, 0, 0, 1, 1));
    lemma_mono6_mul(x1, y1, z1, x2, y2, z2, 4, 0, 0, 2, 0, 2, 0, 2, 0, 0, 1, 1);
    lemma_coefficient_product(3969int, mono6(x1, y1, z1, x2, y2, z2, 4, 0, 0, 2, 0, 2), 3int, mono6(x1, y1, z1, x2, y2, z2, 1, 1, 0, 2, 0, 0));
    lemma_mono6_mul(x1, y1, z1, x2, y2, z2, 4, 0, 0, 2, 0, 2, 1, 1, 0, 2, 0, 0);
    lemma_coefficient_product(3969int, mono6(x1, y1, z1, x2, y2, z2, 4, 0, 0, 2, 0, 2), 3int, mono6(x1, y1, z1, x2, y2, z2, 2, 0, 0, 1, 1, 0));
    lemma_mono6_mul(x1, y1, z1, x2, y2, z2, 4, 0, 0, 2, 0, 2, 2, 0, 0, 1, 1, 0);
    assert(((((((y1 * y2) + (21 * (z1 * z2))) * ((y1 * y2) - (21 * (z1 * z2)))) + ((63 * (x1 * x2)) * ((x1 * z2) + (z1 * x2)))) * ((((y1 * y2) + (21 * (z1 * z2))) * ((y1 * y2) - (21 * (z1 * z2)))) + ((63 * (x1 * x2)) * ((x1 * z2) + (z1 * x2))))) * ((((y1 * z2) + (z1 * y2)) * ((y1 * y2) + (21 * (z1 * z2)))) + ((3 * (x1 * x2)) * ((x1 * y2) + (y1 * x2))))) == ((((((4084101int * mono6(x1, y1, z1, x2, y2, z2, 0, 0, 6, 0, 1, 5)) + ((4084101int * mono6(x1, y1, z1, x2, y2, z2, 0, 1, 5, 0, 0, 6)) + (194481int * mono6(x1, y1, z1, x2, y2, z2, 0, 1, 5, 0, 2, 4)))) + ((194481int * mono6(x1, y1, z1, x2, y2, z2, 0, 2, 4, 0, 1, 5)) + (((-18522int) * mono6(x1, y1, z1, x2, y2, z2, 0, 2, 4, 0, 3, 3)) + ((-18522int) * mono6(x1, y1, z1, x2, y2, z2, 0, 3, 3, 0, 2, 4))))) + ((((-882int) * mono6(x1, y1, z1, x2, y2, z2, 0, 3, 3, 0, 4, 2)) + (((-882int) * mono6(x1, y1, z1, x2, y2, z2, 0, 4, 2, 0, 3, 3)) + (21int * mono6(x1, y1, z1, x2, y2, z2, 0, 4, 2, 0, 5, 1)))) + ((21int * mono6(x1, y1, z1, x2, y2, z2, 0, 5, 1, 0, 4, 2)) + ((1int * mono6(x1, y1, z1, x2, y2, z2, 0, 5, 1, 0, 6, 0)) + (1int * mono6(x1, y1, z1, x2, y2, z2, 0, 6, 0, 0, 5, 1)))))) + (((((-1166886int) * mono6(x1, y1, z1, x2, y2, z2, 1, 0, 5, 2, 1, 3)) + (((-583443int) * mono6(x1, y1, z1, x2, y2, z2, 1, 1, 4, 2, 0, 4)) + ((-55566int) * mono6(x1, y1, z1, x2, y2, z2, 1, 1, 4, 2, 2, 2)))) + (((-55566int) * mono6(x1, y1, z1, x2, y2, z2, 1, 2, 3, 2, 1, 3)) + ((2646int * mono6(x1, y1, z1, x2, y2, z2, 1, 2, 3, 2, 3, 1)) + (126int * mono6(x1, y1, z1, x2, y2, z2, 1, 3, 2, 2, 4, 0))))) + (((126int * mono6(x1, y1, z1, x2, y2, z2, 1, 4, 1, 2, 3, 1)) + ((3int * mono6(x1, y1, z1, x2, y2, z2, 1, 5, 0, 2, 4, 0)) + ((-583443int) * mono6(x1, y1, z1, x2, y2, z2, 2, 0, 4, 1, 1, 4)))) + ((83349int * mono6(x1, y1, z1, x2, y2, z2, 2, 0, 4, 4, 1, 1)) + (((-1166886int) * mono6(x1, y1, z1, x2, y2, z2, 2, 1, 3, 1, 0, 5)) + ((-55566int) * mono6(x1, y1, z1, x2, y2, z2, 2, 1, 3, 1, 2, 3))))))) + ((((((-83349int) * mono6(x1, y1, z1, x2, y2, z2, 2, 1, 3, 4, 0, 2)) + ((3969int * mono6(x1, y1, z1, x2, y2, z2, 2, 1, 3, 4, 2, 0)) + ((-55566int) * mono6(x1, y1, z1, x2, y2, z2, 2, 2, 2, 1, 1, 4)))) + ((3969int * mono6(x1, y1, z1, x2, y2, z2, 2, 2, 2, 4, 1, 1)) + ((2646int * mono6(x1, y1, z1, x2, y2, z2, 2, 3, 1, 1, 2, 3)) + (126int * mono6(x1, y1, z1, x2, y2, z2, 2, 3, 1, 1, 4, 1))))) + (((378int * mono6(x1, y1, z1, x2, y2, z2, 2, 3, 1, 4, 2, 0)) + ((126int * mono6(x1, y1, z1, x2, y2, z2, 2, 4, 0, 1, 3, 2)) + (3int * mono6(x1, y1, z1, x2, y2, z2, 2, 4, 0, 1, 5, 0)))) + ((7938int * mono6(x1, y1, z1, x2, y2, z2, 3, 1, 2, 3, 2, 1)) + ((11907int * mono6(x1, y1, z1, x2, y2, z2, 3, 1, 2, 6, 0, 0)) + (7938int * mono6(x1, y1, z1, x2, y2, z2, 3, 2, 1, 3, 1, 2)))))) + ((((378int * mono6(x1, y1, z1, x2, y2, z2, 3, 2, 1, 3, 3, 0)) + ((378int * mono6(x1, y1, z1, x2, y2, z2, 3, 3, 0, 3, 2, 1)) + ((-83349int) * mono6(x1, y1, z1, x2, y2, z2, 4, 0, 2, 2, 1, 3)))) + ((11907int * mono6(x1, y1, z1, x2, y2, z2, 4, 0, 2, 5, 1, 0)) + ((83349int * mono6(x1, y1, z1, x2, y2, z2, 4, 1, 1, 2, 0, 4)) + (3969int * mono6(x1, y1, z1, x2, y2, z2, 4, 1, 1, 2, 2, 2))))) + (((23814int * mono6(x1, y1, z1, x2, y2, z2, 4, 1, 1, 5, 0, 1)) + ((3969int * mono6(x1, y1, z1, x2, y2, z2, 4, 2, 0, 2, 1, 3)) + (378int * mono6(x1, y1, z1, x2, y2, z2, 4, 2, 0, 2, 3, 1)))) + ((23814int * mono6(x1, y1, z1, x2, y2, z2, 5, 0, 1, 4, 1, 1)) + ((11907int * mono6(x1, y1, z1, x2, y2, z2, 5, 1, 0, 4, 0, 2)) + (11907int * mono6(x1, y1, z1, x2, y2, z2, 6, 0, 0, 3, 1, 2)))))))));
}

#[verifier::rlimit(60)]
proof fn lemma_add_curve_identity_part2(x1: int, y1: int, z1: int, x2: int, y2: int, z2: int)
    ensures
        ((((((x1 * y2) + (y1 * x2)) * ((y1 * y2) - (21 * (z1 * z2)))) - ((21 * ((y1 * z2) + (z1 * y2))) * ((x1 * z2) + (z1 * x2)))) * ((((x1 * y2) + (y1 * x2)) * ((y1 * y2) - (21 * (z1 * z2)))) - ((21 * ((y1 * z2) + (z1 * y2))) * ((x1 * z2) + (z1 * x2))))) * ((((x1 * y2) + (y1 * x2)) * ((y1 * y2) - (21 * (z1 * z2)))) - ((21 * ((y1 * z2) + (z1 * y2))) * ((x1 * z2) + (z1 * x2))))) == (((((((-9261int) * mono6(x1, y1, z1, x2, y2, z2, 0, 0, 6, 3, 3, 0)) + ((-55566int) * mono6(x1, y1, z1, x2, y2, z2, 0, 1, 5, 3, 2, 1))) + (((-111132int) * mono6(x1, y1, z1, x2, y2, z2, 0, 2, 4, 3, 1, 2)) + ((1323int * mono6(x1, y1, z1, x2, y2, z2, 0, 2, 4, 3, 3, 0)) + ((-74088int) * mono6(x1, y1, z1, x2, y2, z2, 0, 3, 3, 3, 0, 3))))) + (((5292int * mono6(x1, y1, z1, x2, y2, z2, 0, 3, 3, 3, 2, 1)) + ((5292int * mono6(x1, y1, z1, x2, y2, z2, 0, 4, 2, 3, 1, 2)) + ((-63int) * mono6(x1, y1, z1, x2, y2, z2, 0, 4, 2, 3, 3, 0)))) + (((-126int) * mono6(x1, y1, z1, x2, y2, z2, 0, 5, 1, 3, 2, 1)) + ((1int * mono6(x1, y1, z1, x2, y2, z2, 0, 6, 0, 3, 3, 0)) + ((-55566int) * mono6(x1, y1, z1, x2, y2, z2, 1, 0, 5, 2, 3, 1)))))) + (((((-250047int) * mono6(x1, y1, z1, x2, y2, z2, 1, 1, 4, 2, 2, 2)) + (1323int * mono6(x1, y1, z1, x2, y2, z2, 1, 1, 4, 2, 4, 0))) + (((-333396int) * mono6(x1, y1, z1, x2, y2, z2, 1, 2, 3, 2, 1, 3)) + ((10584int * mono6(x1, y1, z1, x2, y2, z2, 1, 2, 3, 2, 3, 1)) + ((-111132int) * mono6(x1, y1, z1, x2, y2, z2, 1, 3, 2, 2, 0, 4))))) + (((18522int * mono6(x1, y1, z1, x2, y2, z2, 1, 3, 2, 2, 2, 2)) + (((-126int) * mono6(x1, y1, z1, x2, y2, z2, 1, 3, 2, 2, 4, 0)) + (5292int * mono6(x1, y1, z1, x2, y2, z2, 1, 4, 1, 2, 1, 3)))) + (((-378int) * mono6(x1, y1, z1, x2, y2, z2, 1, 4, 1, 2, 3, 1)) + (((-63int) * mono6(x1, y1, z1, x2, y2, z2, 1, 5, 0, 2, 2, 2)) + (3int * mono6(x1, y1, z1, x2, y2, z2, 1, 5, 0, 2, 4, 0))))))) + ((((((-111132int) * mono6(x1, y1, z1, x2, y2, z2, 2, 0, 4, 1, 3, 2)) + ((-333396int) * mono6(x1, y1, z1, x2, y2, z2, 2, 1, 3, 1, 2, 3))) + ((5292int * mono6(x1, y1, z1, x2, y2, z2, 2, 1, 3, 1, 4, 1)) + (((-250047int) * mono6(x1, y1, z1, x2, y2, z2, 2, 2, 2, 1, 1, 4)) + (18522int * mono6(x1, y1, z1, x2, y2, z2, 2, 2, 2, 1, 3, 2))))) + ((((-63int) * mono6(x1, y1, z1, x2, y2, z2, 2, 2, 2, 1, 5, 0)) + (((-55566int) * mono6(x1, y1, z1, x2, y2, z2, 2, 3, 1, 1, 0, 5)) + (10584int * mono6(x1, y1, z1, x2, y2, z2, 2, 3, 1, 1, 2, 3)))) + (((-378int) * mono6(x1, y1, z1, x2, y2, z2, 2, 3, 1, 1, 4, 1)) + ((1323int * mono6(x1, y1, z1, x2, y2, z2, 2, 4, 0, 1, 1, 4)) + ((-126int) * mono6(x1, y1, z1, x2, y2, z2, 2, 4, 0, 1, 3, 2)))))) + ((((3int * mono6(x1, y1, z1, x2, y2, z2, 2, 4, 0, 1, 5, 0)) + ((-74088int) * mono6(x1, y1, z1, x2, y2, z2, 3, 0, 3, 0, 3, 3))) + (((-111132int) * mono6(x1, y1, z1, x2, y2, z2, 3, 1, 2, 0, 2, 4)) + ((5292int * mono6(x1, y1, z1, x2, y2, z2, 3, 1, 2, 0, 4, 2)) + ((-55566int) * mono6(x1, y1, z1, x2, y2, z2, 3, 2, 1, 0, 1, 5))))) + (((5292int * mono6(x1, y1, z1, x2, y2, z2, 3, 2, 1, 0, 3, 3)) + (((-126int) * mono6(x1, y1, z1, x2, y2, z2, 3, 2, 1, 0, 5, 1)) + ((-9261int) * mono6(x1, y1, z1, x2, y2, z2, 3, 3, 0, 0, 0, 6)))) + ((1323int * mono6(x1, y1, z1, x2, y2, z2, 3, 3, 0, 0, 2, 4)) + (((-63int) * mono6(x1, y1, z1, x2, y2, z2, 3, 3, 0, 0, 4, 2)) + (1int * mono6(x1, y1, z1, x2, y2, z2, 3, 3, 0, 0, 6, 0)))))))),
{
    lemma_mono6_vars(x1, y1, z1, x2, y2, z2);
    assert(x1 == (1int * mono6(x1, y1, z1, x2, y2, z2, 1, 0, 0, 0, 0, 0)));
    assert(y2 == (1int * mono6(x1, y1, z1, x2, y2, z2, 0, 0, 0, 0, 1, 0)));
    assert((x1 * y2) == (1int * mono6(x1, y1, z1, x2, y2, z2, 1, 0, 0, 0, 0, 0)) * (1int * mono6(x1, y1, z1, x2, y2, z2, 0, 0, 0, 0, 1, 0)));
    lemma_coefficient_product(1int, mono6(x1, y1, z1, x2, y2, z2, 1, 0, 0, 0, 0, 0), 1int, mono6(x1, y1, z1, x2, y2, z2, 0, 0, 0, 0, 1, 0));
    lemma_mono6_mul(x1, y1, z1, x2, y2, z2, 1, 0, 0, 0, 0, 0, 0, 0, 0, 0, 1, 0);
    assert((x1 * y2) == (1int * mono6(x1, y1, z1, x2, y2, z2, 1, 0, 0, 0, 1, 0)));
    assert(y1 == (1int * mono6(x1, y1, z1, x2, y2, z2, 0, 1, 0, 0, 0, 0)));
    assert(x2 == (1int * mono6(x1, y1, z1, x2, y2, z2, 0, 0, 0, 1, 0, 0)));
    assert((y1 * x2) == (1int * mono6(x1, y1, z1, x2, y2, z2, 0, 1, 0, 0, 0, 0)) * (1int * mono6(x1, y1, z1, x2, y2, z2, 0, 0, 0, 1, 0, 0)));
    lemma_coefficient_product(1int, mono6(x1, y1, z1, x2, y2, z2, 0, 1, 0, 0, 0, 0), 1int, mono6(x1, y1, z1, x2, y2, z2, 0, 0, 0, 1, 0, 0));
    lemma_mono6_mul(x1, y1, z1, x2, y2, z2, 0, 1, 0, 0, 0, 0, 0, 0, 0, 1, 0, 0);
    assert((y1 * x2) == (1int * mono6(x1, y1, z1, x2, y2, z2, 0, 1, 0, 1, 0, 0)));
    assert(((x1 * y2) + (y1 * x2)) == ((1int * mono6(x1, y1, z1, x2, y2, z2, 0, 1, 0, 1, 0, 0)) + (1int * mono6(x1, y1, z1, x2, y2, z2, 1, 0, 0, 0, 1, 0))));
    assert(y1 == (1int * mono6(x1, y1, z1, x2, y2, z2, 0, 1, 0, 0, 0, 0)));
    assert(y2 == (1int * mono6(x1, y1, z1, x2, y2, z2, 0, 0, 0, 0, 1, 0)));
    assert((y1 * y2) == (1int * mono6(x1, y1, z1, x2, y2, z2, 0, 1, 0, 0, 0, 0)) * (1int * mono6(x1, y1, z1, x2, y2, z2, 0, 0, 0, 0, 1, 0)));
    lemma_coefficient_product(1int, mono6(x1, y1, z1, x2, y2, z2, 0, 1, 0, 0, 0, 0), 1int, mono6(x1, y1, z1, x2, y2, z2, 0, 0, 0, 0, 1, 0));
    lemma_mono6_mul(x1, y1, z1, x2, y2, z2, 0, 1, 0, 0, 0, 0, 0, 0, 0, 0, 1, 0);
    assert((y1 * y2) == (1int * mono6(x1, y1, z1, x2, y2, z2, 0, 1, 0, 0, 1, 0)));
    assert(21 == (21int * mono6(x1, y1, z1, x2, y2, z2, 0, 0, 0, 0, 0, 0)));
    assert(z1 == (1int * mono6(x1, y1, z1, x2, y2, z2, 0, 0, 1, 0, 0, 0)));
    assert(z2 == (1int * mono6(x1, y1, z1, x2, y2, z2, 0, 0, 0, 0, 0, 1)));
    assert((z1 * z2) == (1int * mono6(x1, y1, z1, x2, y2, z2, 0, 0, 1, 0, 0, 0)) * (1int * mono6(x1, y1, z1, x2, y2, z2, 0, 0, 0, 0, 0, 1)));
    lemma_coefficient_product(1int, mono6(x1, y1, z1, x2, y2, z2, 0, 0, 1, 0, 0, 0), 1int, mono6(x1, y1, z1, x2, y2, z2, 0, 0, 0, 0, 0, 1));
    lemma_mono6_mul(x1, y1, z1, x2, y2, z2, 0, 0, 1, 0, 0, 0, 0, 0, 0, 0, 0, 1);
    assert((z1 * z2) == (1int * mono6(x1, y1, z1, x2, y2, z2, 0, 0, 1, 0, 0, 1)));
    assert((21 * (z1 * z2)) == (21int * mono6(x1, y1, z1, x2, y2, z2, 0, 0, 0, 0, 0, 0)) * (1int * mono6(x1, y1, z1, x2, y2, z2, 0, 0, 1, 0, 0, 1)));
    lemma_coefficient_product(21int, mono6(x1, y1, z1, x2, y2, z2, 0, 0, 0, 0, 0, 0), 1int, mono6(x1, y1, z1, x2, y2, z2, 0, 0, 1, 0, 0, 1));
    lemma_mono6_mul(x1, y1, z1, x2, y2, z2, 0, 0, 0, 0, 0, 0, 0, 0, 1, 0, 0, 1);
    assert((21 * (z1 * z2)) == (21int * mono6(x1, y1, z1, x2, y2, z2, 0, 0, 1, 0, 0, 1)));
    assert(((y1 * y2) - (21 * (z1 * z2))) == (((-21int) * mono6(x1, y1, z1, x2, y2, z2, 0, 0, 1, 0, 0, 1)) + (1int * mono6(x1, y1, z1, x2, y2, z2, 0, 1, 0, 0, 1, 0))));
    assert((((x1 * y2) + (y1 * x2)) * ((y1 * y2) - (21 * (z1 * z2)))) == ((1int * mono6(x1, y1, z1, x2, y2, z2, 0, 1, 0, 1, 0, 0)) + (1int * mono6(x1, y1, z1, x2, y2, z2, 1, 0, 0, 0, 1, 0))) * (((-21int) * mono6(x1, y1, z1, x2, y2, z2, 0, 0, 1, 0, 0, 1)) + (1int * mono6(x1, y1, z1, x2, y2, z2, 0, 1, 0, 0, 1, 0))));
    lemma_mul_is_distributive_add_other_way((((-21int) * mono6(x1, y1, z1, x2, y2, z2, 0, 0, 1, 0, 0, 1)) + (1int * mono6(x1, y1, z1, x2, y2, z2, 0, 1, 0, 0, 1, 0))), (1int * mono6(x1, y1, z1, x2, y2, z2, 0, 1, 0, 1, 0, 0)), (1int * mono6(x1, y1, z1, x2, y2, z2, 1, 0, 0, 0, 1, 0)));
    lemma_mul_is_distributive_add((1int * mono6(x1, y1, z1, x2, y2, z2, 0, 1, 0, 1, 0, 0)), ((-21int) * mono6(x1, y1, z1, x2, y2, z2, 0, 0, 1, 0, 0, 1)), (1int * mono6(x1, y1, z1, x2, y2, z2, 0, 1, 0, 0, 1, 0)));
    lemma_coefficient_product(1int, mono6(x1, y1, z1, x2, y2, z2, 0, 1, 0, 1, 0, 0), (-21int), mono6(x1, y1, z1, x2, y2, z2, 0, 0, 1, 0, 0, 1));
    lemma_mono6_mul(x1, y1, z1, x2, y2, z2, 0, 1, 0, 1, 0, 0, 0, 0, 1, 0, 0, 1);
    lemma_coefficient_product(1int, mono6(x1, y1, z1, x2, y2, z2, 0, 1, 0, 1, 0, 0), 1int, mono6(x1, y1, z1, x2, y2, z2, 0, 1, 0, 0, 1, 0));
    lemma_mono6_mul(x1, y1, z1, x2, y2, z2, 0, 1, 0, 1, 0, 0, 0, 1, 0, 0, 1, 0);
    lemma_mul_is_distributive_add((1int * mono6(x1, y1, z1, x2, y2, z2, 1, 0, 0, 0, 1, 0)), ((-21int) * mono6(x1, y1, z1, x2, y2, z2, 0, 0, 1, 0, 0, 1)), (1int * mono6(x1, y1, z1, x2, y2, z2, 0, 1, 0, 0, 1, 0)));
    lemma_coefficient_product(1int, mono6(x1, y1, z1, x2, y2, z2, 1, 0, 0, 0, 1, 0), (-21int), mono6(x1, y1, z1, x2, y2, z2, 0, 0, 1, 0, 0, 1));
    lemma_mono6_mul(x1, y1, z1, x2, y2, z2, 1, 0, 0, 0, 1, 0, 0, 0, 1, 0, 0, 1);
    lemma_coefficient_product(1int, mono6(x1, y1, z1, x2, y2, z2, 1, 0, 0, 0, 1, 0), 1int, mono6(x1, y1, z1, x2, y2, z2, 0, 1, 0, 0, 1, 0));
    lemma_mono6_mul(x1, y1, z1, x2, y2, z2, 1, 0, 0, 0, 1, 0, 0, 1, 0, 0, 1, 0);
    assert((((x1 * y2) + (y1 * x2)) * ((y1 * y2) - (21 * (z1 * z2)))) == ((((-21int) * mono6(x1, y1, z1, x2, y2, z2, 0, 1, 1, 1, 0, 1)) + (1int * mono6(x1, y1, z1, x2, y2, z2, 0, 2, 0, 1, 1, 0))) + (((-21int) * mono6(x1, y1, z1, x2, y2, z2, 1, 0, 1, 0, 1, 1)) + (1int * mono6(x1, y1, z1, x2, y2, z2, 1, 1, 0, 0, 2, 0)))));
    assert(21 == (21int * mono6(x1, y1, z1, x2, y2, z2, 0, 0, 0, 0, 0, 0)));
    assert(y1 == (1int * mono6(x1, y1, z1, x2, y2, z2, 0, 1, 0, 0, 0, 0)));
    assert(z2 == (1int * mono6(x1, y1, z1, x2, y2, z2, 0, 0, 0, 0, 0, 1)));
    assert((y1 * z2) == (1int * mono6(x1, y1, z1, x2, y2, z2, 0, 1, 0, 0, 0, 0)) * (1int * mono6(x1, y1, z1, x2, y2, z2, 0, 0, 0, 0, 0, 1)));
    lemma_coefficient_product(1int, mono6(x1, y1, z1, x2, y2, z2, 0, 1, 0, 0, 0, 0), 1int, mono6(x1, y1, z1, x2, y2, z2, 0, 0, 0, 0, 0, 1));
    lemma_mono6_mul(x1, y1, z1, x2, y2, z2, 0, 1, 0, 0, 0, 0, 0, 0, 0, 0, 0, 1);
    assert((y1 * z2) == (1int * mono6(x1, y1, z1, x2, y2, z2, 0, 1, 0, 0, 0, 1)));
    assert(z1 == (1int * mono6(x1, y1, z1, x2, y2, z2, 0, 0, 1, 0, 0, 0)));
    assert(y2 == (1int * mono6(x1, y1, z1, x2, y2, z2, 0, 0, 0, 0, 1, 0)));
    assert((z1 * y2) == (1int * mono6(x1, y1, z1, x2, y2, z2, 0, 0, 1, 0, 0, 0)) * (1int * mono6(x1, y1, z1, x2, y2, z2, 0, 0, 0, 0, 1, 0)));
    lemma_coefficient_product(1int, mono6(x1, y1, z1, x2, y2, z2, 0, 0, 1, 0, 0, 0), 1int, mono6(x1, y1, z1, x2, y2, z2, 0, 0, 0, 0, 1, 0));
    lemma_mono6_mul(x1, y1, z1, x2, y2, z2, 0, 0, 1, 0, 0, 0, 0, 0, 0, 0, 1, 0);
    assert((z1 * y2) == (1int * mono6(x1, y1, z1, x2, y2, z2, 0, 0, 1, 0, 1, 0)));
    assert(((y1 * z2) + (z1 * y2)) == ((1int * mono6(x1, y1, z1, x2, y2, z2, 0, 0, 1, 0, 1, 0)) + (1int * mono6(x1, y1, z1, x2, y2, z2, 0, 1, 0, 0, 0, 1))));
    assert((21 * ((y1 * z2) + (z1 * y2))) == (21int * mono6(x1, y1, z1, x2, y2, z2, 0, 0, 0, 0, 0, 0)) * ((1int * mono6(x1, y1, z1, x2, y2, z2, 0, 0, 1, 0, 1, 0)) + (1int * mono6(x1, y1, z1, x2, y2, z2, 0, 1, 0, 0, 0, 1))));
    lemma_mul_is_distributive_add((21int * mono6(x1, y1, z1, x2, y2, z2, 0, 0, 0, 0, 0, 0)), (1int * mono6(x1, y1, z1, x2, y2, z2, 0, 0, 1, 0, 1, 0)), (1int * mono6(x1, y1, z1, x2, y2, z2, 0, 1, 0, 0, 0, 1)));
    lemma_coefficient_product(21int, mono6(x1, y1, z1, x2, y2, z2, 0, 0, 0, 0, 0, 0), 1int, mono6(x1, y1, z1, x2, y2, z2, 0, 0, 1, 0, 1, 0));
    lemma_mono6_mul(x1, y1, z1, x2, y2, z2, 0, 0, 0, 0, 0, 0, 0, 0, 1, 0, 1, 0);
    lemma_coefficient_product(21int, mono6(x1, y1, z1, x2, y2, z2, 0, 0, 0, 0, 0, 0), 1int, mono6(x1, y1, z1, x2, y2, z2, 0, 1, 0, 0, 0, 1));
    lemma_mono6_mul(x1, y1, z1, x2, y2, z2, 0, 0, 0, 0, 0, 0, 0, 1, 0, 0, 0, 1);
    assert((21 * ((y1 * z2) + (z1 * y2))) == ((21int * mono6(x1, y1, z1, x2, y2, z2, 0, 0, 1, 0, 1, 0)) + (21int * mono6(x1, y1, z1, x2, y2, z2, 0, 1, 0, 0, 0, 1))));
    assert(x1 == (1int * mono6(x1, y1, z1, x2, y2, z2, 1, 0, 0, 0, 0, 0)));
    assert(z2 == (1int * mono6(x1, y1, z1, x2, y2, z2, 0, 0, 0, 0, 0, 1)));
    assert((x1 * z2) == (1int * mono6(x1, y1, z1, x2, y2, z2, 1, 0, 0, 0, 0, 0)) * (1int * mono6(x1, y1, z1, x2, y2, z2, 0, 0, 0, 0, 0, 1)));
    lemma_coefficient_product(1int, mono6(x1, y1, z1, x2, y2, z2, 1, 0, 0, 0, 0, 0), 1int, mono6(x1, y1, z1, x2, y2, z2, 0, 0, 0, 0, 0, 1));
    lemma_mono6_mul(x1, y1, z1, x2, y2, z2, 1, 0, 0, 0, 0, 0, 0, 0, 0, 0, 0, 1);
    assert((x1 * z2) == (1int * mono6(x1, y1, z1, x2, y2, z2, 1, 0, 0, 0, 0, 1)));
    assert(z1 == (1int * mono6(x1, y1, z1, x2, y2, z2, 0, 0, 1, 0, 0, 0)));
    assert(x2 == (1int * mono6(x1, y1, z1, x2, y2, z2, 0, 0, 0, 1, 0, 0)));
    assert((z1 * x2) == (1int * mono6(x1, y1, z1, x2, y2, z2, 0, 0, 1, 0, 0, 0)) * (1int * mono6(x1, y1, z1, x2, y2, z2, 0, 0, 0, 1, 0, 0)));
    lemma_coefficient_product(1int, mono6(x1, y1, z1, x2, y2, z2, 0, 0, 1, 0, 0, 0), 1int, mono6(x1, y1, z1, x2, y2, z2, 0, 0, 0, 1, 0, 0));
    lemma_mono6_mul(x1, y1, z1, x2, y2, z2, 0, 0, 1, 0, 0, 0, 0, 0, 0, 1, 0, 0);
    assert((z1 * x2) == (1int * mono6(x1, y1, z1, x2, y2, z2, 0, 0, 1, 1, 0, 0)));
    assert(((x1 * z2) + (z1 * x2)) == ((1int * mono6(x1, y1, z1, x2, y2, z2, 0, 0, 1, 1, 0, 0)) + (1int * mono6(x1, y1, z1, x2, y2, z2, 1, 0, 0, 0, 0, 1))));
    assert(((21 * ((y1 * z2) + (z1 * y2))) * ((x1 * z2) + (z1 * x2))) == ((21int * mono6(x1, y1, z1, x2, y2, z2, 0, 0, 1, 0, 1, 0)) + (21int * mono6(x1, y1, z1, x2, y2, z2, 0, 1, 0, 0, 0, 1))) * ((1int * mono6(x1, y1, z1, x2, y2, z2, 0, 0, 1, 1, 0, 0)) + (1int * mono6(x1, y1, z1, x2, y2, z2, 1, 0, 0, 0, 0, 1))));
    lemma_mul_is_distributive_add_other_way(((1int * mono6(x1, y1, z1, x2, y2, z2, 0, 0, 1, 1, 0, 0)) + (1int * mono6(x1, y1, z1, x2, y2, z2, 1, 0, 0, 0, 0, 1))), (21int * mono6(x1, y1, z1, x2, y2, z2, 0, 0, 1, 0, 1, 0)), (21int * mono6(x1, y1, z1, x2, y2, z2, 0, 1, 0, 0, 0, 1)));
    lemma_mul_is_distributive_add((21int * mono6(x1, y1, z1, x2, y2, z2, 0, 0, 1, 0, 1, 0)), (1int * mono6(x1, y1, z1, x2, y2, z2, 0, 0, 1, 1, 0, 0)), (1int * mono6(x1, y1, z1, x2, y2, z2, 1, 0, 0, 0, 0, 1)));
    lemma_coefficient_product(21int, mono6(x1, y1, z1, x2, y2, z2, 0, 0, 1, 0, 1, 0), 1int, mono6(x1, y1, z1, x2, y2, z2, 0, 0, 1, 1, 0, 0));
    lemma_mono6_mul(x1, y1, z1, x2, y2, z2, 0, 0, 1, 0, 1, 0, 0, 0, 1, 1, 0, 0);
    lemma_coefficient_product(21int, mono6(x1, y1, z1, x2, y2, z2, 0, 0, 1, 0, 1, 0), 1int, mono6(x1, y1, z1, x2, y2, z2, 1, 0, 0, 0, 0, 1));
    lemma_mono6_mul(x1, y1, z1, x2, y2, z2, 0, 0, 1, 0, 1, 0, 1, 0, 0, 0, 0, 1);
    lemma_mul_is_distributive_add((21int * mono6(x1, y1, z1, x2, y2, z2, 0, 1, 0, 0, 0, 1)), (1int * mono6(x1, y1, z1, x2, y2, z2, 0, 0, 1, 1, 0, 0)), (1int * mono6(x1, y1, z1, x2, y2, z2, 1, 0, 0, 0, 0, 1)));
    lemma_coefficient_product(21int, mono6(x1, y1, z1, x2, y2, z2, 0, 1, 0, 0, 0, 1), 1int, mono6(x1, y1, z1, x2, y2, z2, 0, 0, 1, 1, 0, 0));
    lemma_mono6_mul(x1, y1, z1, x2, y2, z2, 0, 1, 0, 0, 0, 1, 0, 0, 1, 1, 0, 0);
    lemma_coefficient_product(21int, mono6(x1, y1, z1, x2, y2, z2, 0, 1, 0, 0, 0, 1), 1int, mono6(x1, y1, z1, x2, y2, z2, 1, 0, 0, 0, 0, 1));
    lemma_mono6_mul(x1, y1, z1, x2, y2, z2, 0, 1, 0, 0, 0, 1, 1, 0, 0, 0, 0, 1);
    assert(((21 * ((y1 * z2) + (z1 * y2))) * ((x1 * z2) + (z1 * x2))) == (((21int * mono6(x1, y1, z1, x2, y2, z2, 0, 0, 2, 1, 1, 0)) + (21int * mono6(x1, y1, z1, x2, y2, z2, 0, 1, 1, 1, 0, 1))) + ((21int * mono6(x1, y1, z1, x2, y2, z2, 1, 0, 1, 0, 1, 1)) + (21int * mono6(x1, y1, z1, x2, y2, z2, 1, 1, 0, 0, 0, 2)))));
    assert(((((x1 * y2) + (y1 * x2)) * ((y1 * y2) - (21 * (z1 * z2)))) - ((21 * ((y1 * z2) + (z1 * y2))) * ((x1 * z2) + (z1 * x2)))) == ((((-21int) * mono6(x1, y1, z1, x2, y2, z2, 0, 0, 2, 1, 1, 0)) + (((-42int) * mono6(x1, y1, z1, x2, y2, z2, 0, 1, 1, 1, 0, 1)) + (1int * mono6(x1, y1, z1, x2, y2, z2, 0, 2, 0, 1, 1, 0)))) + (((-42int) * mono6(x1, y1, z1, x2, y2, z2, 1, 0, 1, 0, 1, 1)) + (((-21int) * mono6(x1, y1, z1, x2, y2, z2, 1, 1, 0, 0, 0, 2)) + (1int * mono6(x1, y1, z1, x2, y2, z2, 1, 1, 0, 0, 2, 0))))));
    assert(x1 == (1int * mono6(x1, y1, z1, x2, y2, z2, 1, 0, 0, 0, 0, 0)));
    assert(y2 == (1int * mono6(x1, y1, z1, x2, y2, z2, 0, 0, 0, 0, 1, 0)));
    assert((x1 * y2) == (1int * mono6(x1, y1, z1, x2, y2, z2, 1, 0, 0, 0, 0, 0)) * (1int * mono6(x1, y1, z1, x2, y2, z2, 0, 0, 0, 0, 1, 0)));
    lemma_coefficient_product(1int, mono6(x1, y1, z1, x2, y2, z2, 1, 0, 0, 0, 0, 0), 1int, mono6(x1, y1, z1, x2, y2, z2, 0, 0, 0, 0, 1, 0));
    lemma_mono6_mul(x1, y1, z1, x2, y2, z2, 1, 0, 0, 0, 0, 0, 0, 0, 0, 0, 1, 0);
    assert((x1 * y2) == (1int * mono6(x1, y1, z1, x2, y2, z2, 1, 0, 0, 0, 1, 0)));
    assert(y1 == (1int * mono6(x1, y1, z1, x2, y2, z2, 0, 1, 0, 0, 0, 0)));
    assert(x2 == (1int * mono6(x1, y1, z1, x2, y2, z2, 0, 0, 0, 1, 0, 0)));
    assert((y1 * x2) == (1int * mono6(x1, y1, z1, x2, y2, z2, 0, 1, 0, 0, 0, 0)) * (1int * mono6(x1, y1, z1, x2, y2, z2, 0, 0, 0, 1, 0, 0)));
    lemma_coefficient_product(1int, mono6(x1, y1, z1, x2, y2, z2, 0, 1, 0, 0, 0, 0), 1int, mono6(x1, y1, z1, x2, y2, z2, 0, 0, 0, 1, 0, 0));
    lemma_mono6_mul(x1, y1, z1, x2, y2, z2, 0, 1, 0, 0, 0, 0, 0, 0, 0, 1, 0, 0);
    assert((y1 * x2) == (1int * mono6(x1, y1, z1, x2, y2, z2, 0, 1, 0, 1, 0, 0)));
    assert(((x1 * y2) + (y1 * x2)) == ((1int * mono6(x1, y1, z1, x2, y2, z2, 0, 1, 0, 1, 0, 0)) + (1int * mono6(x1, y1, z1, x2, y2, z2, 1, 0, 0, 0, 1, 0))));
    assert(y1 == (1int * mono6(x1, y1, z1, x2, y2, z2, 0, 1, 0, 0, 0, 0)));
    assert(y2 == (1int * mono6(x1, y1, z1, x2, y2, z2, 0, 0, 0, 0, 1, 0)));
    assert((y1 * y2) == (1int * mono6(x1, y1, z1, x2, y2, z2, 0, 1, 0, 0, 0, 0)) * (1int * mono6(x1, y1, z1, x2, y2, z2, 0, 0, 0, 0, 1, 0)));
    lemma_coefficient_product(1int, mono6(x1, y1, z1, x2, y2, z2, 0, 1, 0, 0, 0, 0), 1int, mono6(x1, y1, z1, x2, y2, z2, 0, 0, 0, 0, 1, 0));
    lemma_mono6_mul(x1, y1, z1, x2, y2, z2, 0, 1, 0, 0, 0, 0, 0, 0, 0, 0, 1, 0);
    assert((y1 * y2) == (1int * mono6(x1, y1, z1, x2, y2, z2, 0, 1, 0, 0, 1, 0)));
    assert(21 == (21int * mono6(x1, y1, z1, x2, y2, z2, 0, 0, 0, 0, 0, 0)));
    assert(z1 == (1int * mono6(x1, y1, z1, x2, y2, z2, 0, 0, 1, 0, 0, 0)));
    assert(z2 == (1int * mono6(x1, y1, z1, x2, y2, z2, 0, 0, 0, 0, 0, 1)));
    assert((z1 * z2) == (1int * mono6(x1, y1, z1, x2, y2, z2, 0, 0, 1, 0, 0, 0)) * (1int * mono6(x1, y1, z1, x2, y2, z2, 0, 0, 0, 0, 0, 1)));
    lemma_coefficient_product(1int, mono6(x1, y1, z1, x2, y2, z2, 0, 0, 1, 0, 0, 0), 1int, mono6(x1, y1, z1, x2, y2, z2, 0, 0, 0, 0, 0, 1));
    lemma_mono6_mul(x1, y1, z1, x2, y2, z2, 0, 0, 1, 0, 0, 0, 0, 0, 0, 0, 0, 1);
    assert((z1 * z2) == (1int * mono6(x1, y1, z1, x2, y2, z2, 0, 0, 1, 0, 0, 1)));
    assert((21 * (z1 * z2)) == (21int * mono6(x1, y1, z1, x2, y2, z2, 0, 0, 0, 0, 0, 0)) * (1int * mono6(x1, y1, z1, x2, y2, z2, 0, 0, 1, 0, 0, 1)));
    lemma_coefficient_product(21int, mono6(x1, y1, z1, x2, y2, z2, 0, 0, 0, 0, 0, 0), 1int, mono6(x1, y1, z1, x2, y2, z2, 0, 0, 1, 0, 0, 1));
    lemma_mono6_mul(x1, y1, z1, x2, y2, z2, 0, 0, 0, 0, 0, 0, 0, 0, 1, 0, 0, 1);
    assert((21 * (z1 * z2)) == (21int * mono6(x1, y1, z1, x2, y2, z2, 0, 0, 1, 0, 0, 1)));
    assert(((y1 * y2) - (21 * (z1 * z2))) == (((-21int) * mono6(x1, y1, z1, x2, y2, z2, 0, 0, 1, 0, 0, 1)) + (1int * mono6(x1, y1, z1, x2, y2, z2, 0, 1, 0, 0, 1, 0))));
    assert((((x1 * y2) + (y1 * x2)) * ((y1 * y2) - (21 * (z1 * z2)))) == ((1int * mono6(x1, y1, z1, x2, y2, z2, 0, 1, 0, 1, 0, 0)) + (1int * mono6(x1, y1, z1, x2, y2, z2, 1, 0, 0, 0, 1, 0))) * (((-21int) * mono6(x1, y1, z1, x2, y2, z2, 0, 0, 1, 0, 0, 1)) + (1int * mono6(x1, y1, z1, x2, y2, z2, 0, 1, 0, 0, 1, 0))));
    lemma_mul_is_distributive_add_other_way((((-21int) * mono6(x1, y1, z1, x2, y2, z2, 0, 0, 1, 0, 0, 1)) + (1int * mono6(x1, y1, z1, x2, y2, z2, 0, 1, 0, 0, 1, 0))), (1int * mono6(x1, y1, z1, x2, y2, z2, 0, 1, 0, 1, 0, 0)), (1int * mono6(x1, y1, z1, x2, y2, z2, 1, 0, 0, 0, 1, 0)));
    lemma_mul_is_distributive_add((1int * mono6(x1, y1, z1, x2, y2, z2, 0, 1, 0, 1, 0, 0)), ((-21int) * mono6(x1, y1, z1, x2, y2, z2, 0, 0, 1, 0, 0, 1)), (1int * mono6(x1, y1, z1, x2, y2, z2, 0, 1, 0, 0, 1, 0)));
    lemma_coefficient_product(1int, mono6(x1, y1, z1, x2, y2, z2, 0, 1, 0, 1, 0, 0), (-21int), mono6(x1, y1, z1, x2, y2, z2, 0, 0, 1, 0, 0, 1));
    lemma_mono6_mul(x1, y1, z1, x2, y2, z2, 0, 1, 0, 1, 0, 0, 0, 0, 1, 0, 0, 1);
    lemma_coefficient_product(1int, mono6(x1, y1, z1, x2, y2, z2, 0, 1, 0, 1, 0, 0), 1int, mono6(x1, y1, z1, x2, y2, z2, 0, 1, 0, 0, 1, 0));
    lemma_mono6_mul(x1, y1, z1, x2, y2, z2, 0, 1, 0, 1, 0, 0, 0, 1, 0, 0, 1, 0);
    lemma_mul_is_distributive_add((1int * mono6(x1, y1, z1, x2, y2, z2, 1, 0, 0, 0, 1, 0)), ((-21int) * mono6(x1, y1, z1, x2, y2, z2, 0, 0, 1, 0, 0, 1)), (1int * mono6(x1, y1, z1, x2, y2, z2, 0, 1, 0, 0, 1, 0)));
    lemma_coefficient_product(1int, mono6(x1, y1, z1, x2, y2, z2, 1, 0, 0, 0, 1, 0), (-21int), mono6(x1, y1, z1, x2, y2, z2, 0, 0, 1, 0, 0, 1));
    lemma_mono6_mul(x1, y1, z1, x2, y2, z2, 1, 0, 0, 0, 1, 0, 0, 0, 1, 0, 0, 1);
    lemma_coefficient_product(1int, mono6(x1, y1, z1, x2, y2, z2, 1, 0, 0, 0, 1, 0), 1int, mono6(x1, y1, z1, x2, y2, z2, 0, 1, 0, 0, 1, 0));
    lemma_mono6_mul(x1, y1, z1, x2, y2, z2, 1, 0, 0, 0, 1, 0, 0, 1, 0, 0, 1, 0);
    assert((((x1 * y2) + (y1 * x2)) * ((y1 * y2) - (21 * (z1 * z2)))) == ((((-21int) * mono6(x1, y1, z1, x2, y2, z2, 0, 1, 1, 1, 0, 1)) + (1int * mono6(x1, y1, z1, x2, y2, z2, 0, 2, 0, 1, 1, 0))) + (((-21int) * mono6(x1, y1, z1, x2, y2, z2, 1, 0, 1, 0, 1, 1)) + (1int * mono6(x1, y1, z1, x2, y2, z2, 1, 1, 0, 0, 2, 0)))));
    assert(21 == (21int * mono6(x1, y1, z1, x2, y2, z2, 0, 0, 0, 0, 0, 0)));
    assert(y1 == (1int * mono6(x1, y1, z1, x2, y2, z2, 0, 1, 0, 0, 0, 0)));
    assert(z2 == (1int * mono6(x1, y1, z1, x2, y2, z2, 0, 0, 0, 0, 0, 1)));
    assert((y1 * z2) == (1int * mono6(x1, y1, z1, x2, y2, z2, 0, 1, 0, 0, 0, 0)) * (1int * mono6(x1, y1, z1, x2, y2, z2, 0, 0, 0, 0, 0, 1)));
    lemma_coefficient_product(1int, mono6(x1, y1, z1, x2, y2, z2, 0, 1, 0, 0, 0, 0), 1int, mono6(x1, y1, z1, x2, y2, z2, 0, 0, 0, 0, 0, 1));
    lemma_mono6_mul(x1, y1, z1, x2, y2, z2, 0, 1, 0, 0, 0, 0, 0, 0, 0, 0, 0, 1);
    assert((y1 * z2) == (1int * mono6(x1, y1, z1, x2, y2, z2, 0, 1, 0, 0, 0, 1)));
    assert(z1 == (1int * mono6(x1, y1, z1, x2, y2, z2, 0, 0, 1, 0, 0, 0)));
    assert(y2 == (1int * mono6(x1, y1, z1, x2, y2, z2, 0, 0, 0, 0, 1, 0)));
    assert((z1 * y2) == (1int * mono6(x1, y1, z1, x2, y2, z2, 0, 0, 1, 0, 0, 0)) * (1int * mono6(x1, y1, z1, x2, y2, z2, 0, 0, 0, 0, 1, 0)));
    lemma_coefficient_product(1int, mono6(x1, y1, z1, x2, y2, z2, 0, 0, 1, 0, 0, 0), 1int, mono6(x1, y1, z1, x2, y2, z2, 0, 0, 0, 0, 1, 0));
    lemma_mono6_mul(x1, y1, z1, x2, y2, z2, 0, 0, 1, 0, 0, 0, 0, 0, 0, 0, 1, 0);
    assert((z1 * y2) == (1int * mono6(x1, y1, z1, x2, y2, z2, 0, 0, 1, 0, 1, 0)));
    assert(((y1 * z2) + (z1 * y2)) == ((1int * mono6(x1, y1, z1, x2, y2, z2, 0, 0, 1, 0, 1, 0)) + (1int * mono6(x1, y1, z1, x2, y2, z2, 0, 1, 0, 0, 0, 1))));
    assert((21 * ((y1 * z2) + (z1 * y2))) == (21int * mono6(x1, y1, z1, x2, y2, z2, 0, 0, 0, 0, 0, 0)) * ((1int * mono6(x1, y1, z1, x2, y2, z2, 0, 0, 1, 0, 1, 0)) + (1int * mono6(x1, y1, z1, x2, y2, z2, 0, 1, 0, 0, 0, 1))));
    lemma_mul_is_distributive_add((21int * mono6(x1, y1, z1, x2, y2, z2, 0, 0, 0, 0, 0, 0)), (1int * mono6(x1, y1, z1, x2, y2, z2, 0, 0, 1, 0, 1, 0)), (1int * mono6(x1, y1, z1, x2, y2, z2, 0, 1, 0, 0, 0, 1)));
    lemma_coefficient_product(21int, mono6(x1, y1, z1, x2, y2, z2, 0, 0, 0, 0, 0, 0), 1int, mono6(x1, y1, z1, x2, y2, z2, 0, 0, 1, 0, 1, 0));
    lemma_mono6_mul(x1, y1, z1, x2, y2, z2, 0, 0, 0, 0, 0, 0, 0, 0, 1, 0, 1, 0);
    lemma_coefficient_product(21int, mono6(x1, y1, z1, x2, y2, z2, 0, 0, 0, 0, 0, 0), 1int, mono6(x1, y1, z1, x2, y2, z2, 0, 1, 0, 0, 0, 1));
    lemma_mono6_mul(x1, y1, z1, x2, y2, z2, 0, 0, 0, 0, 0, 0, 0, 1, 0, 0, 0, 1);
    assert((21 * ((y1 * z2) + (z1 * y2))) == ((21int * mono6(x1, y1, z1, x2, y2, z2, 0, 0, 1, 0, 1, 0)) + (21int * mono6(x1, y1, z1, x2, y2, z2, 0, 1, 0, 0, 0, 1))));
    assert(x1 == (1int * mono6(x1, y1, z1, x2, y2, z2, 1, 0, 0, 0, 0, 0)));
    assert(z2 == (1int * mono6(x1, y1, z1, x2, y2, z2, 0, 0, 0, 0, 0, 1)));
    assert((x1 * z2) == (1int * mono6(x1, y1, z1, x2, y2, z2, 1, 0, 0, 0, 0, 0)) * (1int * mono6(x1, y1, z1, x2, y2, z2, 0, 0, 0, 0, 0, 1)));
    lemma_coefficient_product(1int, mono6(x1, y1, z1, x2, y2, z2, 1, 0, 0, 0, 0, 0), 1int, mono6(x1, y1, z1, x2, y2, z2, 0, 0, 0, 0, 0, 1));
    lemma_mono6_mul(x1, y1, z1, x2, y2, z2, 1, 0, 0, 0, 0, 0, 0, 0, 0, 0, 0, 1);
    assert((x1 * z2) == (1int * mono6(x1, y1, z1, x2, y2, z2, 1, 0, 0, 0, 0, 1)));
    assert(z1 == (1int * mono6(x1, y1, z1, x2, y2, z2, 0, 0, 1, 0, 0, 0)));
    assert(x2 == (1int * mono6(x1, y1, z1, x2, y2, z2, 0, 0, 0, 1, 0, 0)));
    assert((z1 * x2) == (1int * mono6(x1, y1, z1, x2, y2, z2, 0, 0, 1, 0, 0, 0)) * (1int * mono6(x1, y1, z1, x2, y2, z2, 0, 0, 0, 1, 0, 0)));
    lemma_coefficient_product(1int, mono6(x1, y1, z1, x2, y2, z2, 0, 0, 1, 0, 0, 0), 1int, mono6(x1, y1, z1, x2, y2, z2, 0, 0, 0, 1, 0, 0));
    lemma_mono6_mul(x1, y1, z1, x2, y2, z2, 0, 0, 1, 0, 0, 0, 0, 0, 0, 1, 0, 0);
    assert((z1 * x2) == (1int * mono6(x1, y1, z1, x2, y2, z2, 0, 0, 1, 1, 0, 0)));
    assert(((x1 * z2) + (z1 * x2)) == ((1int * mono6(x1, y1, z1, x2, y2, z2, 0, 0, 1, 1, 0, 0)) + (1int * mono6(x1, y1, z1, x2, y2, z2, 1, 0, 0, 0, 0, 1))));
    assert(((21 * ((y1 * z2) + (z1 * y2))) * ((x1 * z2) + (z1 * x2))) == ((21int * mono6(x1, y1, z1, x2, y2, z2, 0, 0, 1, 0, 1, 0)) + (21int * mono6(x1, y1, z1, x2, y2, z2, 0, 1, 0, 0, 0, 1))) * ((1int * mono6(x1, y1, z1, x2, y2, z2, 0, 0, 1, 1, 0, 0)) + (1int * mono6(x1, y1, z1, x2, y2, z2, 1, 0, 0, 0, 0, 1))));
    lemma_mul_is_distributive_add_other_way(((1int * mono6(x1, y1, z1, x2, y2, z2, 0, 0, 1, 1, 0, 0)) + (1int * mono6(x1, y1, z1, x2, y2, z2, 1, 0, 0, 0, 0, 1))), (21int * mono6(x1, y1, z1, x2, y2, z2, 0, 0, 1, 0, 1, 0)), (21int * mono6(x1, y1, z1, x2, y2, z2, 0, 1, 0, 0, 0, 1)));
    lemma_mul_is_distributive_add((21int * mono6(x1, y1, z1, x2, y2, z2, 0, 0, 1, 0, 1, 0)), (1int * mono6(x1, y1, z1, x2, y2, z2, 0, 0, 1, 1, 0, 0)), (1int * mono6(x1, y1, z1, x2, y2, z2, 1, 0, 0, 0, 0, 1)));
    lemma_coefficient_product(21int, mono6(x1, y1, z1, x2, y2, z2, 0, 0, 1, 0, 1, 0), 1int, mono6(x1, y1, z1, x2, y2, z2, 0, 0, 1, 1, 0, 0));
    lemma_mono6_mul(x1, y1, z1, x2, y2, z2, 0, 0, 1, 0, 1, 0, 0, 0, 1, 1, 0, 0);
    lemma_coefficient_product(21int, mono6(x1, y1, z1, x2, y2, z2, 0, 0, 1, 0, 1, 0), 1int, mono6(x1, y1, z1, x2, y2, z2, 1, 0, 0, 0, 0, 1));
    lemma_mono6_mul(x1, y1, z1, x2, y2, z2, 0, 0, 1, 0, 1, 0, 1, 0, 0, 0, 0, 1);
    lemma_mul_is_distributive_add((21int * mono6(x1, y1, z1, x2, y2, z2, 0, 1, 0, 0, 0, 1)), (1int * mono6(x1, y1, z1, x2, y2, z2, 0, 0, 1, 1, 0, 0)), (1int * mono6(x1, y1, z1, x2, y2, z2, 1, 0, 0, 0, 0, 1)));
    lemma_coefficient_product(21int, mono6(x1, y1, z1, x2, y2, z2, 0, 1, 0, 0, 0, 1), 1int, mono6(x1, y1, z1, x2, y2, z2, 0, 0, 1, 1, 0, 0));
    lemma_mono6_mul(x1, y1, z1, x2, y2, z2, 0, 1, 0, 0, 0, 1, 0, 0, 1, 1, 0, 0);
    lemma_coefficient_product(21int, mono6(x1, y1, z1, x2, y2, z2, 0, 1, 0, 0, 0, 1), 1int, mono6(x1, y1, z1, x2, y2, z2, 1, 0, 0, 0, 0, 1));
    lemma_mono6_mul(x1, y1, z1, x2, y2, z2, 0, 1, 0, 0, 0, 1, 1, 0, 0, 0, 0, 1);
    assert(((21 * ((y1 * z2) + (z1 * y2))) * ((x1 * z2) + (z1 * x2))) == (((21int * mono6(x1, y1, z1, x2, y2, z2, 0, 0, 2, 1, 1, 0)) + (21int * mono6(x1, y1, z1, x2, y2, z2, 0, 1, 1, 1, 0, 1))) + ((21int * mono6(x1, y1, z1, x2, y2, z2, 1, 0, 1, 0, 1, 1)) + (21int * mono6(x1, y1, z1, x2, y2, z2, 1, 1, 0, 0, 0, 2)))));
    assert(((((x1 * y2) + (y1 * x2)) * ((y1 * y2) - (21 * (z1 * z2)))) - ((21 * ((y1 * z2) + (z1 * y2))) * ((x1 * z2) + (z1 * x2)))) == ((((-21int) * mono6(x1, y1, z1, x2, y2, z2, 0, 0, 2, 1, 1, 0)) + (((-42int) * mono6(x1, y1, z1, x2, y2, z2, 0, 1, 1, 1, 0, 1)) + (1int * mono6(x1, y1, z1, x2, y2, z2, 0, 2, 0, 1, 1, 0)))) + (((-42int) * mono6(x1, y1, z1, x2, y2, z2, 1, 0, 1, 0, 1, 1)) + (((-21int) * mono6(x1, y1, z1, x2, y2, z2, 1, 1, 0, 0, 0, 2)) + (1int * mono6(x1, y1, z1, x2, y2, z2, 1, 1, 0, 0, 2, 0))))));
    assert((((((x1 * y2) + (y1 * x2)) * ((y1 * y2) - (21 * (z1 * z2)))) - ((21 * ((y1 * z2) + (z1 * y2))) * ((x1 * z2) + (z1 * x2)))) * ((((x1 * y2) + (y1 * x2)) * ((y1 * y2) - (21 * (z1 * z2)))) - ((21 * ((y1 * z2) + (z1 * y2))) * ((x1 * z2) + (z1 * x2))))) == ((((-21int) * mono6(x1, y1, z1, x2, y2, z2, 0, 0, 2, 1, 1, 0)) + (((-42int) * mono6(x1, y1, z1, x2, y2, z2, 0, 1, 1, 1, 0, 1)) + (1int * mono6(x1, y1, z1, x2, y2, z2, 0, 2, 0, 1, 1, 0)))) + (((-42int) * mono6(x1, y1, z1, x2, y2, z2, 1, 0, 1, 0, 1, 1)) + (((-21int) * mono6(x1, y1, z1, x2, y2, z2, 1, 1, 0, 0, 0, 2)) + (1int * mono6(x1, y1, z1, x2, y2, z2, 1, 1, 0, 0, 2, 0))))) * ((((-21int) * mono6(x1, y1, z1, x2, y2, z2, 0, 0, 2, 1, 1, 0)) + (((-42int) * mono6(x1, y1, z1, x2, y2, z2, 0, 1, 1, 1, 0, 1)) + (1int * mono6(x1, y1, z1, x2, y2, z2, 0, 2, 0, 1, 1, 0)))) + (((-42int) * mono6(x1, y1, z1, x2, y2, z2, 1, 0, 1, 0, 1, 1)) + (((-21int) * mono6(x1, y1, z1, x2, y2, z2, 1, 1, 0, 0, 0, 2)) + (1int * mono6(x1, y1, z1, x2, y2, z2, 1, 1, 0, 0, 2, 0))))));
    lemma_mul_is_distributive_add_other_way(((((-21int) * mono6(x1, y1, z1, x2, y2, z2, 0, 0, 2, 1, 1, 0)) + (((-42int) * mono6(x1, y1, z1, x2, y2, z2, 0, 1, 1, 1, 0, 1)) + (1int * mono6(x1, y1, z1, x2, y2, z2, 0, 2, 0, 1, 1, 0)))) + (((-42int) * mono6(x1, y1, z1, x2, y2, z2, 1, 0, 1, 0, 1, 1)) + (((-21int) * mono6(x1, y1, z1, x2, y2, z2, 1, 1, 0, 0, 0, 2)) + (1int * mono6(x1, y1, z1, x2, y2, z2, 1, 1, 0, 0, 2, 0))))), (((-21int) * mono6(x1, y1, z1, x2, y2, z2, 0, 0, 2, 1, 1, 0)) + (((-42int) * mono6(x1, y1, z1, x2, y2, z2, 0, 1, 1, 1, 0, 1)) + (1int * mono6(x1, y1, z1, x2, y2, z2, 0, 2, 0, 1, 1, 0)))), (((-42int) * mono6(x1, y1, z1, x2, y2, z2, 1, 0, 1, 0, 1, 1)) + (((-21int) * mono6(x1, y1, z1, x2, y2, z2, 1, 1, 0, 0, 0, 2)) + (1int * mono6(x1, y1, z1, x2, y2, z2, 1, 1, 0, 0, 2, 0)))));
    lemma_mul_is_distributive_add_other_way(((((-21int) * mono6(x1, y1, z1, x2, y2, z2, 0, 0, 2, 1, 1, 0)) + (((-42int) * mono6(x1, y1, z1, x2, y2, z2, 0, 1, 1, 1, 0, 1)) + (1int * mono6(x1, y1, z1, x2, y2, z2, 0, 2, 0, 1, 1, 0)))) + (((-42int) * mono6(x1, y1, z1, x2, y2, z2, 1, 0, 1, 0, 1, 1)) + (((-21int) * mono6(x1, y1, z1, x2, y2, z2, 1, 1, 0, 0, 0, 2)) + (1int * mono6(x1, y1, z1, x2, y2, z2, 1, 1, 0, 0, 2, 0))))), ((-21int) * mono6(x1, y1, z1, x2, y2, z2, 0, 0, 2, 1, 1, 0)), (((-42int) * mono6(x1, y1, z1, x2, y2, z2, 0, 1, 1, 1, 0, 1)) + (1int * mono6(x1, y1, z1, x2, y2, z2, 0, 2, 0, 1, 1, 0))));
    lemma_mul_is_distributive_add_other_way(((((-21int) * mono6(x1, y1, z1, x2, y2, z2, 0, 0, 2, 1, 1, 0)) + (((-42int) * mono6(x1, y1, z1, x2, y2, z2, 0, 1, 1, 1, 0, 1)) + (1int * mono6(x1, y1, z1, x2, y2, z2, 0, 2, 0, 1, 1, 0)))) + (((-42int) * mono6(x1, y1, z1, x2, y2, z2, 1, 0, 1, 0, 1, 1)) + (((-21int) * mono6(x1, y1, z1, x2, y2, z2, 1, 1, 0, 0, 0, 2)) + (1int * mono6(x1, y1, z1, x2, y2, z2, 1, 1, 0, 0, 2, 0))))), ((-42int) * mono6(x1, y1, z1, x2, y2, z2, 0, 1, 1, 1, 0, 1)), (1int * mono6(x1, y1, z1, x2, y2, z2, 0, 2, 0, 1, 1, 0)));
    lemma_mul_is_distributive_add_other_way(((((-21int) * mono6(x1, y1, z1, x2, y2, z2, 0, 0, 2, 1, 1, 0)) + (((-42int) * mono6(x1, y1, z1, x2, y2, z2, 0, 1, 1, 1, 0, 1)) + (1int * mono6(x1, y1, z1, x2, y2, z2, 0, 2, 0, 1, 1, 0)))) + (((-42int) * mono6(x1, y1, z1, x2, y2, z2, 1, 0, 1, 0, 1, 1)) + (((-21int) * mono6(x1, y1, z1, x2, y2, z2, 1, 1, 0, 0, 0, 2)) + (1int * mono6(x1, y1, z1, x2, y2, z2, 1, 1, 0, 0, 2, 0))))), ((-42int) * mono6(x1, y1, z1, x2, y2, z2, 1, 0, 1, 0, 1, 1)), (((-21int) * mono6(x1, y1, z1, x2, y2, z2, 1, 1, 0, 0, 0, 2)) + (1int * mono6(x1, y1, z1, x2, y2, z2, 1, 1, 0, 0, 2, 0))));
    lemma_mul_is_distributive_add_other_way(((((-21int) * mono6(x1, y1, z1, x2, y2, z2, 0, 0, 2, 1, 1, 0)) + (((-42int) * mono6(x1, y1, z1, x2, y2, z2, 0, 1, 1, 1, 0, 1)) + (1int * mono6(x1, y1, z1, x2, y2, z2, 0, 2, 0, 1, 1, 0)))) + (((-42int) * mono6(x1, y1, z1, x2, y2, z2, 1, 0, 1, 0, 1, 1)) + (((-21int) * mono6(x1, y1, z1, x2, y2, z2, 1, 1, 0, 0, 0, 2)) + (1int * mono6(x1, y1, z1, x2, y2, z2, 1, 1, 0, 0, 2, 0))))), ((-21int) * mono6(x1, y1, z1, x2, y2, z2, 1, 1, 0, 0, 0, 2)), (1int * mono6(x1, y1, z1, x2, y2, z2, 1, 1, 0, 0, 2, 0)));
    lemma_mul_is_distributive_add(((-21int) * mono6(x1, y1, z1, x2, y2, z2, 0, 0, 2, 1, 1, 0)), (((-21int) * mono6(x1, y1, z1, x2, y2, z2, 0, 0, 2, 1, 1, 0)) + (((-42int) * mono6(x1, y1, z1, x2, y2, z2, 0, 1, 1, 1, 0, 1)) + (1int * mono6(x1, y1, z1, x2, y2, z2, 0, 2, 0, 1, 1, 0)))), (((-42int) * mono6(x1, y1, z1, x2, y2, z2, 1, 0, 1, 0, 1, 1)) + (((-21int) * mono6(x1, y1, z1, x2, y2, z2, 1, 1, 0, 0, 0, 2)) + (1int * mono6(x1, y1, z1, x2, y2, z2, 1, 1, 0, 0, 2, 0)))));
    lemma_mul_is_distributive_add(((-21int) * mono6(x1, y1, z1, x2, y2, z2, 0, 0, 2, 1, 1, 0)), ((-21int) * mono6(x1, y1, z1, x2, y2, z2, 0, 0, 2, 1, 1, 0)), (((-42int) * mono6(x1, y1, z1, x2, y2, z2, 0, 1, 1, 1, 0, 1)) + (1int * mono6(x1, y1, z1, x2, y2, z2, 0, 2, 0, 1, 1, 0))));
    lemma_mul_is_distributive_add(((-21int) * mono6(x1, y1, z1, x2, y2, z2, 0, 0, 2, 1, 1, 0)), ((-42int) * mono6(x1, y1, z1, x2, y2, z2, 0, 1, 1, 1, 0, 1)), (1int * mono6(x1, y1, z1, x2, y2, z2, 0, 2, 0, 1, 1, 0)));
    lemma_mul_is_distributive_add(((-21int) * mono6(x1, y1, z1, x2, y2, z2, 0, 0, 2, 1, 1, 0)), ((-42int) * mono6(x1, y1, z1, x2, y2, z2, 1, 0, 1, 0, 1, 1)), (((-21int) * mono6(x1, y1, z1, x2, y2, z2, 1, 1, 0, 0, 0, 2)) + (1int * mono6(x1, y1, z1, x2, y2, z2, 1, 1, 0, 0, 2, 0))));
    lemma_mul_is_distributive_add(((-21int) * mono6(x1, y1, z1, x2, y2, z2, 0, 0, 2, 1, 1, 0)), ((-21int) * mono6(x1, y1, z1, x2, y2, z2, 1, 1, 0, 0, 0, 2)), (1int * mono6(x1, y1, z1, x2, y2, z2, 1, 1, 0, 0, 2, 0)));
    lemma_coefficient_product((-21int), mono6(x1, y1, z1, x2, y2, z2, 0, 0, 2, 1, 1, 0), (-21int), mono6(x1, y1, z1, x2, y2, z2, 0, 0, 2, 1, 1, 0));
    lemma_mono6_mul(x1, y1, z1, x2, y2, z2, 0, 0, 2, 1, 1, 0, 0, 0, 2, 1, 1, 0);
    lemma_coefficient_product((-21int), mono6(x1, y1, z1, x2, y2, z2, 0, 0, 2, 1, 1, 0), (-42int), mono6(x1, y1, z1, x2, y2, z2, 0, 1, 1, 1, 0, 1));
    lemma_mono6_mul(x1, y1, z1, x2, y2, z2, 0, 0, 2, 1, 1, 0, 0, 1, 1, 1, 0, 1);
    lemma_coefficient_product((-21int), mono6(x1, y1, z1, x2, y2, z2, 0, 0, 2, 1, 1, 0), 1int, mono6(x1, y1, z1, x2, y2, z2, 0, 2, 0, 1, 1, 0));
    lemma_mono6_mul(x1, y1, z1, x2, y2, z2, 0, 0, 2, 1, 1, 0, 0, 2, 0, 1, 1, 0);
    lemma_coefficient_product((-21int), mono6(x1, y1, z1, x2, y2, z2, 0, 0, 2, 1, 1, 0), (-42int), mono6(x1, y1, z1, x2, y2, z2, 1, 0, 1, 0, 1, 1));
    lemma_mono6_mul(x1, y1, z1, x2, y2, z2, 0, 0, 2, 1, 1, 0, 1, 0, 1, 0, 1, 1);
    lemma_coefficient_product((-21int), mono6(x1, y1, z1, x2, y2, z2, 0, 0, 2, 1, 1, 0), (-21int), mono6(x1, y1, z1, x2, y2, z2, 1, 1, 0, 0, 0, 2));
    lemma_mono6_mul(x1, y1, z1, x2, y2, z2, 0, 0, 2, 1, 1, 0, 1, 1, 0, 0, 0, 2);
    lemma_coefficient_product((-21int), mono6(x1, y1, z1, x2, y2, z2, 0, 0, 2, 1, 1, 0), 1int, mono6(x1, y1, z1, x2, y2, z2, 1, 1, 0, 0, 2, 0));
    lemma_mono6_mul(x1, y1, z1, x2, y2, z2, 0, 0, 2, 1, 1, 0, 1, 1, 0, 0, 2, 0);
    lemma_mul_is_distributive_add(((-42int) * mono6(x1, y1, z1, x2, y2, z2, 0, 1, 1, 1, 0, 1)), (((-21int) * mono6(x1, y1, z1, x2, y2, z2, 0, 0, 2, 1, 1, 0)) + (((-42int) * mono6(x1, y1, z1, x2, y2, z2, 0, 1, 1, 1, 0, 1)) + (1int * mono6(x1, y1, z1, x2, y2, z2, 0, 2, 0, 1, 1, 0)))), (((-42int) * mono6(x1, y1, z1, x2, y2, z2, 1, 0, 1, 0, 1, 1)) + (((-21int) * mono6(x1, y1, z1, x2, y2, z2, 1, 1, 0, 0, 0, 2)) + (1int * mono6(x1, y1, z1, x2, y2, z2, 1, 1, 0, 0, 2, 0)))));
    lemma_mul_is_distributive_add(((-42int) * mono6(x1, y1, z1, x2, y2, z2, 0, 1, 1, 1, 0, 1)), ((-21int) * mono6(x1, y1, z1, x2, y2, z2, 0, 0, 2, 1, 1, 0)), (((-42int) * mono6(x1, y1, z1, x2, y2, z2, 0, 1, 1, 1, 0, 1)) + (1int * mono6(x1, y1, z1, x2, y2, z2, 0, 2, 0, 1, 1, 0))));
    lemma_mul_is_distributive_add(((-42int) * mono6(x1, y1, z1, x2, y2, z2, 0, 1, 1, 1, 0, 1)), ((-42int) * mono6(x1, y1, z1, x2, y2, z2, 0, 1, 1, 1, 0, 1)), (1int * mono6(x1, y1, z1, x2, y2, z2, 0, 2, 0, 1, 1, 0)));
    lemma_mul_is_distributive_add(((-42int) * mono6(x1, y1, z1, x2, y2, z2, 0, 1, 1, 1, 0, 1)), ((-42int) * mono6(x1, y1, z1, x2, y2, z2, 1, 0, 1, 0, 1, 1)), (((-21int) * mono6(x1, y1, z1, x2, y2, z2, 1, 1, 0, 0, 0, 2)) + (1int * mono6(x1, y1, z1, x2, y2, z2, 1, 1, 0, 0, 2, 0))));
    lemma_mul_is_distributive_add(((-42int) * mono6(x1, y1, z1, x2, y2, z2, 0, 1, 1, 1, 0, 1)), ((-21int) * mono6(x1, y1, z1, x2, y2, z2, 1, 1, 0, 0, 0, 2)), (1int * mono6(x1, y1, z1, x2, y2, z2, 1, 1, 0, 0, 2, 0)));
    lemma_coefficient_product((-42int), mono6(x1, y1, z1, x2, y2, z2, 0, 1, 1, 1, 0, 1), (-21int), mono6(x1, y1, z1, x2, y2, z2, 0, 0, 2, 1, 1, 0));
    lemma_mono6_mul(x1, y1, z1, x2, y2, z2, 0, 1, 1, 1, 0, 1, 0, 0, 2, 1, 1, 0);
    lemma_coefficient_product((-42int), mono6(x1, y1, z1, x2, y2, z2, 0, 1, 1, 1, 0, 1), (-42int), mono6(x1, y1, z1, x2, y2, z2, 0, 1, 1, 1, 0, 1));
    lemma_mono6_mul(x1, y1, z1, x2, y2, z2, 0, 1, 1, 1, 0, 1, 0, 1, 1, 1, 0, 1);
    lemma_coefficient_product((-42int), mono6(x1, y1, z1, x2, y2, z2, 0, 1, 1, 1, 0, 1), 1int, mono6(x1, y1, z1, x2, y2, z2, 0, 2, 0, 1, 1, 0));
    lemma_mono6_mul(x1, y1, z1, x2, y2, z2, 0, 1, 1, 1, 0, 1, 0, 2, 0, 1, 1, 0);
    lemma_coefficient_product((-42int), mono6(x1, y1, z1, x2, y2, z2, 0, 1, 1, 1, 0, 1), (-42int), mono6(x1, y1, z1, x2, y2, z2, 1, 0, 1, 0, 1, 1));
    lemma_mono6_mul(x1, y1, z1, x2, y2, z2, 0, 1, 1, 1, 0, 1, 1, 0, 1, 0, 1, 1);
    lemma_coefficient_product((-42int), mono6(x1, y1, z1, x2, y2, z2, 0, 1, 1, 1, 0, 1), (-21int), mono6(x1, y1, z1, x2, y2, z2, 1, 1, 0, 0, 0, 2));
    lemma_mono6_mul(x1, y1, z1, x2, y2, z2, 0, 1, 1, 1, 0, 1, 1, 1, 0, 0, 0, 2);
    lemma_coefficient_product((-42int), mono6(x1, y1, z1, x2, y2, z2, 0, 1, 1, 1, 0, 1), 1int, mono6(x1, y1, z1, x2, y2, z2, 1, 1, 0, 0, 2, 0));
    lemma_mono6_mul(x1, y1, z1, x2, y2, z2, 0, 1, 1, 1, 0, 1, 1, 1, 0, 0, 2, 0);
    lemma_mul_is_distributive_add((1int * mono6(x1, y1, z1, x2, y2, z2, 0, 2, 0, 1, 1, 0)), (((-21int) * mono6(x1, y1, z1, x2, y2, z2, 0, 0, 2, 1, 1, 0)) + (((-42int) * mono6(x1, y1, z1, x2, y2, z2, 0, 1, 1, 1, 0, 1)) + (1int * mono6(x1, y1, z1, x2, y2, z2, 0, 2, 0, 1, 1, 0)))), (((-42int) * mono6(x1, y1, z1, x2, y2, z2, 1, 0, 1, 0, 1, 1)) + (((-21int) * mono6(x1, y1, z1, x2, y2, z2, 1, 1, 0, 0, 0, 2)) + (1int * mono6(x1, y1, z1, x2, y2, z2, 1, 1, 0, 0, 2, 0)))));
    lemma_mul_is_distributive_add((1int * mono6(x1, y1, z1, x2, y2, z2, 0, 2, 0, 1, 1, 0)), ((-21int) * mono6(x1, y1, z1, x2, y2, z2, 0, 0, 2, 1, 1, 0)), (((-42int) * mono6(x1, y1, z1, x2, y2, z2, 0, 1, 1, 1, 0, 1)) + (1int * mono6(x1, y1, z1, x2, y2, z2, 0, 2, 0, 1, 1, 0))));
    lemma_mul_is_distributive_add((1int * mono6(x1, y1, z1, x2, y2, z2, 0, 2, 0, 1, 1, 0)), ((-42int) * mono6(x1, y1, z1, x2, y2, z2, 0, 1, 1, 1, 0, 1)), (1int * mono6(x1, y1, z1, x2, y2, z2, 0, 2, 0, 1, 1, 0)));
    lemma_mul_is_distributive_add((1int * mono6(x1, y1, z1, x2, y2, z2, 0, 2, 0, 1, 1, 0)), ((-42int) * mono6(x1, y1, z1, x2, y2, z2, 1, 0, 1, 0, 1, 1)), (((-21int) * mono6(x1, y1, z1, x2, y2, z2, 1, 1, 0, 0, 0, 2)) + (1int * mono6(x1, y1, z1, x2, y2, z2, 1, 1, 0, 0, 2, 0))));
    lemma_mul_is_distributive_add((1int * mono6(x1, y1, z1, x2, y2, z2, 0, 2, 0, 1, 1, 0)), ((-21int) * mono6(x1, y1, z1, x2, y2, z2, 1, 1, 0, 0, 0, 2)), (1int * mono6(x1, y1, z1, x2, y2, z2, 1, 1, 0, 0, 2, 0)));
    lemma_coefficient_product(1int, mono6(x1, y1, z1, x2, y2, z2, 0, 2, 0, 1, 1, 0), (-21int), mono6(x1, y1, z1, x2, y2, z2, 0, 0, 2, 1, 1, 0));
    lemma_mono6_mul(x1, y1, z1, x2, y2, z2, 0, 2, 0, 1, 1, 0, 0, 0, 2, 1, 1, 0);
    lemma_coefficient_product(1int, mono6(x1, y1, z1, x2, y2, z2, 0, 2, 0, 1, 1, 0), (-42int), mono6(x1, y1, z1, x2, y2, z2, 0, 1, 1, 1, 0, 1));
    lemma_mono6_mul(x1, y1, z1, x2, y2, z2, 0, 2, 0, 1, 1, 0, 0, 1, 1, 1, 0, 1);
    lemma_coefficient_product(1int, mono6(x1, y1, z1, x2, y2, z2, 0, 2, 0, 1, 1, 0), 1int, mono6(x1, y1, z1, x2, y2, z2, 0, 2, 0, 1, 1, 0));
    lemma_mono6_mul(x1, y1, z1, x2, y2, z2, 0, 2, 0, 1, 1, 0, 0, 2, 0, 1, 1, 0);
    lemma_coefficient_product(1int, mono6(x1, y1, z1, x2, y2, z2, 0, 2, 0, 1, 1, 0), (-42int), mono6(x1, y1, z1, x2, y2, z2, 1, 0, 1, 0, 1, 1));
    lemma_mono6_mul(x1, y1, z1, x2, y2, z2, 0, 2, 0, 1, 1, 0, 1, 0, 1, 0, 1, 1);
    lemma_coefficient_product(1int, mono6(x1, y1, z1, x2, y2, z2, 0, 2, 0, 1, 1, 0), (-21int), mono6(x1, y1, z1, x2, y2, z2, 1, 1, 0, 0, 0, 2));
    lemma_mono6_mul(x1, y1, z1, x2, y2, z2, 0, 2, 0, 1, 1, 0, 1, 1, 0, 0, 0, 2);
    lemma_coefficient_product(1int, mono6(x1, y1, z1, x2, y2, z2, 0, 2, 0, 1, 1, 0), 1int, mono6(x1, y1, z1, x2, y2, z2, 1, 1, 0, 0, 2, 0));
    lemma_mono6_mul(x1, y1, z1, x2, y2, z2, 0, 2, 0, 1, 1, 0, 1, 1, 0, 0, 2, 0);
    lemma_mul_is_distributive_add(((-42int) * mono6(x1, y1, z1, x2, y2, z2, 1, 0, 1, 0, 1, 1)), (((-21int) * mono6(x1, y1, z1, x2, y2, z2, 0, 0, 2, 1, 1, 0)) + (((-42int) * mono6(x1, y1, z1, x2, y2, z2, 0, 1, 1, 1, 0, 1)) + (1int * mono6(x1, y1, z1, x2, y2, z2, 0, 2, 0, 1, 1, 0)))), (((-42int) * mono6(x1, y1, z1, x2, y2, z2, 1, 0, 1, 0, 1, 1)) + (((-21int) * mono6(x1, y1, z1, x2, y2, z2, 1, 1, 0, 0, 0, 2)) + (1int * mono6(x1, y1, z1, x2, y2, z2, 1, 1, 0, 0, 2, 0)))));
    lemma_mul_is_distributive_add(((-42int) * mono6(x1, y1, z1, x2, y2, z2, 1, 0, 1, 0, 1, 1)), ((-21int) * mono6(x1, y1, z1, x2, y2, z2, 0, 0, 2, 1, 1, 0)), (((-42int) * mono6(x1, y1, z1, x2, y2, z2, 0, 1, 1, 1, 0, 1)) + (1int * mono6(x1, y1, z1, x2, y2, z2, 0, 2, 0, 1, 1, 0))));
    lemma_mul_is_distributive_add(((-42int) * mono6(x1, y1, z1, x2, y2, z2, 1, 0, 1, 0, 1, 1)), ((-42int) * mono6(x1, y1, z1, x2, y2, z2, 0, 1, 1, 1, 0, 1)), (1int * mono6(x1, y1, z1, x2, y2, z2, 0, 2, 0, 1, 1, 0)));
    lemma_mul_is_distributive_add(((-42int) * mono6(x1, y1, z1, x2, y2, z2, 1, 0, 1, 0, 1, 1)), ((-42int) * mono6(x1, y1, z1, x2, y2, z2, 1, 0, 1, 0, 1, 1)), (((-21int) * mono6(x1, y1, z1, x2, y2, z2, 1, 1, 0, 0, 0, 2)) + (1int * mono6(x1, y1, z1, x2, y2, z2, 1, 1, 0, 0, 2, 0))));
    lemma_mul_is_distributive_add(((-42int) * mono6(x1, y1, z1, x2, y2, z2, 1, 0, 1, 0, 1, 1)), ((-21int) * mono6(x1, y1, z1, x2, y2, z2, 1, 1, 0, 0, 0, 2)), (1int * mono6(x1, y1, z1, x2, y2, z2, 1, 1, 0, 0, 2, 0)));
    lemma_coefficient_product((-42int), mono6(x1, y1, z1, x2, y2, z2, 1, 0, 1, 0, 1, 1), (-21int), mono6(x1, y1, z1, x2, y2, z2, 0, 0, 2, 1, 1, 0));
    lemma_mono6_mul(x1, y1, z1, x2, y2, z2, 1, 0, 1, 0, 1, 1, 0, 0, 2, 1, 1, 0);
    lemma_coefficient_product((-42int), mono6(x1, y1, z1, x2, y2, z2, 1, 0, 1, 0, 1, 1), (-42int), mono6(x1, y1, z1, x2, y2, z2, 0, 1, 1, 1, 0, 1));
    lemma_mono6_mul(x1, y1, z1, x2, y2, z2, 1, 0, 1, 0, 1, 1, 0, 1, 1, 1, 0, 1);
    lemma_coefficient_product((-42int), mono6(x1, y1, z1, x2, y2, z2, 1, 0, 1, 0, 1, 1), 1int, mono6(x1, y1, z1, x2, y2, z2, 0, 2, 0, 1, 1, 0));
    lemma_mono6_mul(x1, y1, z1, x2, y2, z2, 1, 0, 1, 0, 1, 1, 0, 2, 0, 1, 1, 0);
    lemma_coefficient_product((-42int), mono6(x1, y1, z1, x2, y2, z2, 1, 0, 1, 0, 1, 1), (-42int), mono6(x1, y1, z1, x2, y2, z2, 1, 0, 1, 0, 1, 1));
    lemma_mono6_mul(x1, y1, z1, x2, y2, z2, 1, 0, 1, 0, 1, 1, 1, 0, 1, 0, 1, 1);
    lemma_coefficient_product((-42int), mono6(x1, y1, z1, x2, y2, z2, 1, 0, 1, 0, 1, 1), (-21int), mono6(x1, y1, z1, x2, y2, z2, 1, 1, 0, 0, 0, 2));
    lemma_mono6_mul(x1, y1, z1, x2, y2, z2, 1, 0, 1, 0, 1, 1, 1, 1, 0, 0, 0, 2);
    lemma_coefficient_product((-42int), mono6(x1, y1, z1, x2, y2, z2, 1, 0, 1, 0, 1, 1), 1int, mono6(x1, y1, z1, x2, y2, z2, 1, 1, 0, 0, 2, 0));
    lemma_mono6_mul(x1, y1, z1, x2, y2, z2, 1, 0, 1, 0, 1, 1, 1, 1, 0, 0, 2, 0);
    lemma_mul_is_distributive_add(((-21int) * mono6(x1, y1, z1, x2, y2, z2, 1, 1, 0, 0, 0, 2)), (((-21int) * mono6(x1, y1, z1, x2, y2, z2, 0, 0, 2, 1, 1, 0)) + (((-42int) * mono6(x1, y1, z1, x2, y2, z2, 0, 1, 1, 1, 0, 1)) + (1int * mono6(x1, y1, z1, x2, y2, z2, 0, 2, 0, 1, 1, 0)))), (((-42int) * mono6(x1, y1, z1, x2, y2, z2, 1, 0, 1, 0, 1, 1)) + (((-21int) * mono6(x1, y1, z1, x2, y2, z2, 1, 1, 0, 0, 0, 2)) + (1int * mono6(x1, y1, z1, x2, y2, z2, 1, 1, 0, 0, 2, 0)))));
    lemma_mul_is_distributive_add(((-21int) * mono6(x1, y1, z1, x2, y2, z2, 1, 1, 0, 0, 0, 2)), ((-21int) * mono6(x1, y1, z1, x2, y2, z2, 0, 0, 2, 1, 1, 0)), (((-42int) * mono6(x1, y1, z1, x2, y2, z2, 0, 1, 1, 1, 0, 1)) + (1int * mono6(x1, y1, z1, x2, y2, z2, 0, 2, 0, 1, 1, 0))));
    lemma_mul_is_distributive_add(((-21int) * mono6(x1, y1, z1, x2, y2, z2, 1, 1, 0, 0, 0, 2)), ((-42int) * mono6(x1, y1, z1, x2, y2, z2, 0, 1, 1, 1, 0, 1)), (1int * mono6(x1, y1, z1, x2, y2, z2, 0, 2, 0, 1, 1, 0)));
    lemma_mul_is_distributive_add(((-21int) * mono6(x1, y1, z1, x2, y2, z2, 1, 1, 0, 0, 0, 2)), ((-42int) * mono6(x1, y1, z1, x2, y2, z2, 1, 0, 1, 0, 1, 1)), (((-21int) * mono6(x1, y1, z1, x2, y2, z2, 1, 1, 0, 0, 0, 2)) + (1int * mono6(x1, y1, z1, x2, y2, z2, 1, 1, 0, 0, 2, 0))));
    lemma_mul_is_distributive_add(((-21int) * mono6(x1, y1, z1, x2, y2, z2, 1, 1, 0, 0, 0, 2)), ((-21int) * mono6(x1, y1, z1, x2, y2, z2, 1, 1, 0, 0, 0, 2)), (1int * mono6(x1, y1, z1, x2, y2, z2, 1, 1, 0, 0, 2, 0)));
    lemma_coefficient_product((-21int), mono6(x1, y1, z1, x2, y2, z2, 1, 1, 0, 0, 0, 2), (-21int), mono6(x1, y1, z1, x2, y2, z2, 0, 0, 2, 1, 1, 0));
    lemma_mono6_mul(x1, y1, z1, x2, y2, z2, 1, 1, 0, 0, 0, 2, 0, 0, 2, 1, 1, 0);
    lemma_coefficient_product((-21int), mono6(x1, y1, z1, x2, y2, z2, 1, 1, 0, 0, 0, 2), (-42int), mono6(x1, y1, z1, x2, y2, z2, 0, 1, 1, 1, 0, 1));
    lemma_mono6_mul(x1, y1, z1, x2, y2, z2, 1, 1, 0, 0, 0, 2, 0, 1, 1, 1, 0, 1);
    lemma_coefficient_product((-21int), mono6(x1, y1, z1, x2, y2, z2, 1, 1, 0, 0, 0, 2), 1int, mono6(x1, y1, z1, x2, y2, z2, 0, 2, 0, 1, 1, 0));
    lemma_mono6_mul(x1, y1, z1, x2, y2, z2, 1, 1, 0, 0, 0, 2, 0, 2, 0, 1, 1, 0);
    lemma_coefficient_product((-21int), mono6(x1, y1, z1, x2, y2, z2, 1, 1, 0, 0, 0, 2), (-42int), mono6(x1, y1, z1, x2, y2, z2, 1, 0, 1, 0, 1, 1));
    lemma_mono6_mul(x1, y1, z1, x2, y2, z2, 1, 1, 0, 0, 0, 2, 1, 0, 1, 0, 1, 1);
    lemma_coefficient_product((-21int), mono6(x1, y1, z1, x2, y2, z2, 1, 1, 0, 0, 0, 2), (-21int), mono6(x1, y1, z1, x2, y2, z2, 1, 1, 0, 0, 0, 2));
    lemma_mono6_mul(x1, y1, z1, x2, y2, z2, 1, 1, 0, 0, 0, 2, 1, 1, 0, 0, 0, 2);
    lemma_coefficient_product((-21int), mono6(x1, y1, z1, x2, y2, z2, 1, 1, 0, 0, 0, 2), 1int, mono6(x1, y1, z1, x2, y2, z2, 1, 1, 0, 0, 2, 0));
    lemma_mono6_mul(x1, y1, z1, x2, y2, z2, 1, 1, 0, 0, 0, 2, 1, 1, 0, 0, 2, 0);
    lemma_mul_is_distributive_add((1int * mono6(x1, y1, z1, x2, y2, z2, 1, 1, 0, 0, 2, 0)), (((-21int) * mono6(x1, y1, z1, x2, y2, z2, 0, 0, 2, 1, 1, 0)) + (((-42int) * mono6(x1, y1, z1, x2, y2, z2, 0, 1, 1, 1, 0, 1)) + (1int * mono6(x1, y1, z1, x2, y2, z2, 0, 2, 0, 1, 1, 0)))), (((-42int) * mono6(x1, y1, z1, x2, y2, z2, 1, 0, 1, 0, 1, 1)) + (((-21int) * mono6(x1, y1, z1, x2, y2, z2, 1, 1, 0, 0, 0, 2)) + (1int * mono6(x1, y1, z1, x2, y2, z2, 1, 1, 0, 0, 2, 0)))));
    lemma_mul_is_distributive_add((1int * mono6(x1, y1, z1, x2, y2, z2, 1, 1, 0, 0, 2, 0)), ((-21int) * mono6(x1, y1, z1, x2, y2, z2, 0, 0, 2, 1, 1, 0)), (((-42int) * mono6(x1, y1, z1, x2, y2, z2, 0, 1, 1, 1, 0, 1)) + (1int * mono6(x1, y1, z1, x2, y2, z2, 0, 2, 0, 1, 1, 0))));
    lemma_mul_is_distributive_add((1int * mono6(x1, y1, z1, x2, y2, z2, 1, 1, 0, 0, 2, 0)), ((-42int) * mono6(x1, y1, z1, x2, y2, z2, 0, 1, 1, 1, 0, 1)), (1int * mono6(x1, y1, z1, x2, y2, z2, 0, 2, 0, 1, 1, 0)));
    lemma_mul_is_distributive_add((1int * mono6(x1, y1, z1, x2, y2, z2, 1, 1, 0, 0, 2, 0)), ((-42int) * mono6(x1, y1, z1, x2, y2, z2, 1, 0, 1, 0, 1, 1)), (((-21int) * mono6(x1, y1, z1, x2, y2, z2, 1, 1, 0, 0, 0, 2)) + (1int * mono6(x1, y1, z1, x2, y2, z2, 1, 1, 0, 0, 2, 0))));
    lemma_mul_is_distributive_add((1int * mono6(x1, y1, z1, x2, y2, z2, 1, 1, 0, 0, 2, 0)), ((-21int) * mono6(x1, y1, z1, x2, y2, z2, 1, 1, 0, 0, 0, 2)), (1int * mono6(x1, y1, z1, x2, y2, z2, 1, 1, 0, 0, 2, 0)));
    lemma_coefficient_product(1int, mono6(x1, y1, z1, x2, y2, z2, 1, 1, 0, 0, 2, 0), (-21int), mono6(x1, y1, z1, x2, y2, z2, 0, 0, 2, 1, 1, 0));
    lemma_mono6_mul(x1, y1, z1, x2, y2, z2, 1, 1, 0, 0, 2, 0, 0, 0, 2, 1, 1, 0);
    lemma_coefficient_product(1int, mono6(x1, y1, z1, x2, y2, z2, 1, 1, 0, 0, 2, 0), (-42int), mono6(x1, y1, z1, x2, y2, z2, 0, 1, 1, 1, 0, 1));
    lemma_mono6_mul(x1, y1, z1, x2, y2, z2, 1, 1, 0, 0, 2, 0, 0, 1, 1, 1, 0, 1);
    lemma_coefficient_product(1int, mono6(x1, y1, z1, x2, y2, z2, 1, 1, 0, 0, 2, 0), 1int, mono6(x1, y1, z1, x2, y2, z2, 0, 2, 0, 1, 1, 0));
    lemma_mono6_mul(x1, y1, z1, x2, y2, z2, 1, 1, 0, 0, 2, 0, 0, 2, 0, 1, 1, 0);
    lemma_coefficient_product(1int, mono6(x1, y1, z1, x2, y2, z2, 1, 1, 0, 0, 2, 0), (-42int), mono6(x1, y1, z1, x2, y2, z2, 1, 0, 1, 0, 1, 1));
    lemma_mono6_mul(x1, y1, z1, x2, y2, z2, 1, 1, 0, 0, 2, 0, 1, 0, 1, 0, 1, 1);
    lemma_coefficient_product(1int, mono6(x1, y1, z1, x2, y2, z2, 1, 1, 0, 0, 2, 0), (-21int), mono6(x1, y1, z1, x2, y2, z2, 1, 1, 0, 0, 0, 2));
    lemma_mono6_mul(x1, y1, z1, x2, y2, z2, 1, 1, 0, 0, 2, 0, 1, 1, 0, 0, 0, 2);
    lemma_coefficient_product(1int, mono6(x1, y1, z1, x2, y2, z2, 1, 1, 0, 0, 2, 0), 1int, mono6(x1, y1, z1, x2, y2, z2, 1, 1, 0, 0, 2, 0));
    lemma_mono6_mul(x1, y1, z1, x2, y2, z2, 1, 1, 0, 0, 2, 0, 1, 1, 0, 0, 2, 0);
    assert((((((x1 * y2) + (y1 * x2)) * ((y1 * y2) - (21 * (z1 * z2)))) - ((21 * ((y1 * z2) + (z1 * y2))) * ((x1 * z2) + (z1 * x2)))) * ((((x1 * y2) + (y1 * x2)) * ((y1 * y2) - (21 * (z1 * z2)))) - ((21 * ((y1 * z2) + (z1 * y2))) * ((x1 * z2) + (z1 * x2))))) == (((((441int * mono6(x1, y1, z1, x2, y2, z2, 0, 0, 4, 2, 2, 0)) + (1764int * mono6(x1, y1, z1, x2, y2, z2, 0, 1, 3, 2, 1, 1))) + ((1764int * mono6(x1, y1, z1, x2, y2, z2, 0, 2, 2, 2, 0, 2)) + ((-42int) * mono6(x1, y1, z1, x2, y2, z2, 0, 2, 2, 2, 2, 0)))) + ((((-84int) * mono6(x1, y1, z1, x2, y2, z2, 0, 3, 1, 2, 1, 1)) + (1int * mono6(x1, y1, z1, x2, y2, z2, 0, 4, 0, 2, 2, 0))) + ((1764int * mono6(x1, y1, z1, x2, y2, z2, 1, 0, 3, 1, 2, 1)) + ((4410int * mono6(x1, y1, z1, x2, y2, z2, 1, 1, 2, 1, 1, 2)) + ((-42int) * mono6(x1, y1, z1, x2, y2, z2, 1, 1, 2, 1, 3, 0)))))) + ((((1764int * mono6(x1, y1, z1, x2, y2, z2, 1, 2, 1, 1, 0, 3)) + ((-168int) * mono6(x1, y1, z1, x2, y2, z2, 1, 2, 1, 1, 2, 1))) + (((-42int) * mono6(x1, y1, z1, x2, y2, z2, 1, 3, 0, 1, 1, 2)) + ((2int * mono6(x1, y1, z1, x2, y2, z2, 1, 3, 0, 1, 3, 0)) + (1764int * mono6(x1, y1, z1, x2, y2, z2, 2, 0, 2, 0, 2, 2))))) + (((1764int * mono6(x1, y1, z1, x2, y2, z2, 2, 1, 1, 0, 1, 3)) + ((-84int) * mono6(x1, y1, z1, x2, y2, z2, 2, 1, 1, 0, 3, 1))) + ((441int * mono6(x1, y1, z1, x2, y2, z2, 2, 2, 0, 0, 0, 4)) + (((-42int) * mono6(x1, y1, z1, x2, y2, z2, 2, 2, 0, 0, 2, 2)) + (1int * mono6(x1, y1, z1, x2, y2, z2, 2, 2, 0, 0, 4, 0))))))));
    assert(x1 == (1int * mono6(x1, y1, z1, x2, y2, z2, 1, 0, 0, 0, 0, 0)));
    assert(y2 == (1int * mono6(x1, y1, z1, x2, y2, z2, 0, 0, 0, 0, 1, 0)));
    assert((x1 * y2) == (1int * mono6(x1, y1, z1, x2, y2, z2, 1, 0, 0, 0, 0, 0)) * (1int * mono6(x1, y1, z1, x2, y2, z2, 0, 0, 0, 0, 1, 0)));
    lemma_coefficient_product(1int, mono6(x1, y1, z1, x2, y2, z2, 1, 0, 0, 0, 0, 0), 1int, mono6(x1, y1, z1, x2, y2, z2, 0, 0, 0, 0, 1, 0));
    lemma_mono6_mul(x1, y1, z1, x2, y2, z2, 1, 0, 0, 0, 0, 0, 0, 0, 0, 0, 1, 0);
    assert((x1 * y2) == (1int * mono6(x1, y1, z1, x2, y2, z2, 1, 0, 0, 0, 1, 0)));
    assert(y1 == (1int * mono6(x1, y1, z1, x2, y2, z2, 0, 1, 0, 0, 0, 0)));
    assert(x2 == (1int * mono6(x1, y1, z1, x2, y2, z2, 0, 0, 0, 1, 0, 0)));
    assert((y1 * x2) == (1int * mono6(x1, y1, z1, x2, y2, z2, 0, 1, 0, 0, 0, 0)) * (1int * mono6(x1, y1, z1, x2, y2, z2, 0, 0, 0, 1, 0, 0)));
    lemma_coefficient_product(1int, mono6(x1, y1, z1, x2, y2, z2, 0, 1, 0, 0, 0, 0), 1int, mono6(x1, y1, z1, x2, y2, z2, 0, 0, 0, 1, 0, 0));
    lemma_mono6_mul(x1, y1, z1, x2, y2, z2, 0, 1, 0, 0, 0, 0, 0, 0, 0, 1, 0, 0);
    assert((y1 * x2) == (1int * mono6(x1, y1, z1, x2, y2, z2, 0, 1, 0, 1, 0, 0)));
    assert(((x1 * y2) + (y1 * x2)) == ((1int * mono6(x1, y1, z1, x2, y2, z2, 0, 1, 0, 1, 0, 0)) + (1int * mono6(x1, y1, z1, x2, y2, z2, 1, 0, 0, 0, 1, 0))));
    assert(y1 == (1int * mono6(x1, y1, z1, x2, y2, z2, 0, 1, 0, 0, 0, 0)));
    assert(y2 == (1int * mono6(x1, y1, z1, x2, y2, z2, 0, 0, 0, 0, 1, 0)));
    assert((y1 * y2) == (1int * mono6(x1, y1, z1, x2, y2, z2, 0, 1, 0, 0, 0, 0)) * (1int * mono6(x1, y1, z1, x2, y2, z2, 0, 0, 0, 0, 1, 0)));
    lemma_coefficient_product(1int, mono6(x1, y1, z1, x2, y2, z2, 0, 1, 0, 0, 0, 0), 1int, mono6(x1, y1, z1, x2, y2, z2, 0, 0, 0, 0, 1, 0));
    lemma_mono6_mul(x1, y1, z1, x2, y2, z2, 0, 1, 0, 0, 0, 0, 0, 0, 0, 0, 1, 0);
    assert((y1 * y2) == (1int * mono6(x1, y1, z1, x2, y2, z2, 0, 1, 0, 0, 1, 0)));
    assert(21 == (21int * mono6(x1, y1, z1, x2, y2, z2, 0, 0, 0, 0, 0, 0)));
    assert(z1 == (1int * mono6(x1, y1, z1, x2, y2, z2, 0, 0, 1, 0, 0, 0)));
    assert(z2 == (1int * mono6(x1, y1, z1, x2, y2, z2, 0, 0, 0, 0, 0, 1)));
    assert((z1 * z2) == (1int * mono6(x1, y1, z1, x2, y2, z2, 0, 0, 1, 0, 0, 0)) * (1int * mono6(x1, y1, z1, x2, y2, z2, 0, 0, 0, 0, 0, 1)));
    lemma_coefficient_product(1int, mono6(x1, y1, z1, x2, y2, z2, 0, 0, 1, 0, 0, 0), 1int, mono6(x1, y1, z1, x2, y2, z2, 0, 0, 0, 0, 0, 1));
    lemma_mono6_mul(x1, y1, z1, x2, y2, z2, 0, 0, 1, 0, 0, 0, 0, 0, 0, 0, 0, 1);
    assert((z1 * z2) == (1int * mono6(x1, y1, z1, x2, y2, z2, 0, 0, 1, 0, 0, 1)));
    assert((21 * (z1 * z2)) == (21int * mono6(x1, y1, z1, x2, y2, z2, 0, 0, 0, 0, 0, 0)) * (1int * mono6(x1, y1, z1, x2, y2, z2, 0, 0, 1, 0, 0, 1)));
    lemma_coefficient_product(21int, mono6(x1, y1, z1, x2, y2, z2, 0, 0, 0, 0, 0, 0), 1int, mono6(x1, y1, z1, x2, y2, z2, 0, 0, 1, 0, 0, 1));
    lemma_mono6_mul(x1, y1, z1, x2, y2, z2, 0, 0, 0, 0, 0, 0, 0, 0, 1, 0, 0, 1);
    assert((21 * (z1 * z2)) == (21int * mono6(x1, y1, z1, x2, y2, z2, 0, 0, 1, 0, 0, 1)));
    assert(((y1 * y2) - (21 * (z1 * z2))) == (((-21int) * mono6(x1, y1, z1, x2, y2, z2, 0, 0, 1, 0, 0, 1)) + (1int * mono6(x1, y1, z1, x2, y2, z2, 0, 1, 0, 0, 1, 0))));
    assert((((x1 * y2) + (y1 * x2)) * ((y1 * y2) - (21 * (z1 * z2)))) == ((1int * mono6(x1, y1, z1, x2, y2, z2, 0, 1, 0, 1, 0, 0)) + (1int * mono6(x1, y1, z1, x2, y2, z2, 1, 0, 0, 0, 1, 0))) * (((-21int) * mono6(x1, y1, z1, x2, y2, z2, 0, 0, 1, 0, 0, 1)) + (1int * mono6(x1, y1, z1, x2, y2, z2, 0, 1, 0, 0, 1, 0))));
    lemma_mul_is_distributive_add_other_way((((-21int) * mono6(x1, y1, z1, x2, y2, z2, 0, 0, 1, 0, 0, 1)) + (1int * mono6(x1, y1, z1, x2, y2, z2, 0, 1, 0, 0, 1, 0))), (1int * mono6(x1, y1, z1, x2, y2, z2, 0, 1, 0, 1, 0, 0)), (1int * mono6(x1, y1, z1, x2, y2, z2, 1, 0, 0, 0, 1, 0)));
    lemma_mul_is_distributive_add((1int * mono6(x1, y1, z1, x2, y2, z2, 0, 1, 0, 1, 0, 0)), ((-21int) * mono6(x1, y1, z1, x2, y2, z2, 0, 0, 1, 0, 0, 1)), (1int * mono6(x1, y1, z1, x2, y2, z2, 0, 1, 0, 0, 1, 0)));
    lemma_coefficient_product(1int, mono6(x1, y1, z1, x2, y2, z2, 0, 1, 0, 1, 0, 0), (-21int), mono6(x1, y1, z1, x2, y2, z2, 0, 0, 1, 0, 0, 1));
    lemma_mono6_mul(x1, y1, z1, x2, y2, z2, 0, 1, 0, 1, 0, 0, 0, 0, 1, 0, 0, 1);
    lemma_coefficient_product(1int, mono6(x1, y1, z1, x2, y2, z2, 0, 1, 0, 1, 0, 0), 1int, mono6(x1, y1, z1, x2, y2, z2, 0, 1, 0, 0, 1, 0));
    lemma_mono6_mul(x1, y1, z1, x2, y2, z2, 0, 1, 0, 1, 0, 0, 0, 1, 0, 0, 1, 0);
    lemma_mul_is_distributive_add((1int * mono6(x1, y1, z1, x2, y2, z2, 1, 0, 0, 0, 1, 0)), ((-21int) * mono6(x1, y1, z1, x2, y2, z2, 0, 0, 1, 0, 0, 1)), (1int * mono6(x1, y1, z1, x2, y2, z2, 0, 1, 0, 0, 1, 0)));
    lemma_coefficient_product(1int, mono6(x1, y1, z1, x2, y2, z2, 1, 0, 0, 0, 1, 0), (-21int), mono6(x1, y1, z1, x2, y2, z2, 0, 0, 1, 0, 0, 1));
    lemma_mono6_mul(x1, y1, z1, x2, y2, z2, 1, 0, 0, 0, 1, 0, 0, 0, 1, 0, 0, 1);
    lemma_coefficient_product(1int, mono6(x1, y1, z1, x2, y2, z2, 1, 0, 0, 0, 1, 0), 1int, mono6(x1, y1, z1, x2, y2, z2, 0, 1, 0, 0, 1, 0));
    lemma_mono6_mul(x1, y1, z1, x2, y2, z2, 1, 0, 0, 0, 1, 0, 0, 1, 0, 0, 1, 0);
    assert((((x1 * y2) + (y1 * x2)) * ((y1 * y2) - (21 * (z1 * z2)))) == ((((-21int) * mono6(x1, y1, z1, x2, y2, z2, 0, 1, 1, 1, 0, 1)) + (1int * mono6(x1, y1, z1, x2, y2, z2, 0, 2, 0, 1, 1, 0))) + (((-21int) * mono6(x1, y1, z1, x2, y2, z2, 1, 0, 1, 0, 1, 1)) + (1int * mono6(x1, y1, z1, x2, y2, z2, 1, 1, 0, 0, 2, 0)))));
    assert(21 == (21int * mono6(x1, y1, z1, x2, y2, z2, 0, 0, 0, 0, 0, 0)));
    assert(y1 == (1int * mono6(x1, y1, z1, x2, y2, z2, 0, 1, 0, 0, 0, 0)));
    assert(z2 == (1int * mono6(x1, y1, z1, x2, y2, z2, 0, 0, 0, 0, 0, 1)));
    assert((y1 * z2) == (1int * mono6(x1, y1, z1, x2, y2, z2, 0, 1, 0, 0, 0, 0)) * (1int * mono6(x1, y1, z1, x2, y2, z2, 0, 0, 0, 0, 0, 1)));
    lemma_coefficient_product(1int, mono6(x1, y1, z1, x2, y2, z2, 0, 1, 0, 0, 0, 0), 1int, mono6(x1, y1, z1, x2, y2, z2, 0, 0, 0, 0, 0, 1));
    lemma_mono6_mul(x1, y1, z1, x2, y2, z2, 0, 1, 0, 0, 0, 0, 0, 0, 0, 0, 0, 1);
    assert((y1 * z2) == (1int * mono6(x1, y1, z1, x2, y2, z2, 0, 1, 0, 0, 0, 1)));
    assert(z1 == (1int * mono6(x1, y1, z1, x2, y2, z2, 0, 0, 1, 0, 0, 0)));
    assert(y2 == (1int * mono6(x1, y1, z1, x2, y2, z2, 0, 0, 0, 0, 1, 0)));
    assert((z1 * y2) == (1int * mono6(x1, y1, z1, x2, y2, z2, 0, 0, 1, 0, 0, 0)) * (1int * mono6(x1, y1, z1, x2, y2, z2, 0, 0, 0, 0, 1, 0)));
    lemma_coefficient_product(1int, mono6(x1, y1, z1, x2, y2, z2, 0, 0, 1, 0, 0, 0), 1int, mono6(x1, y1, z1, x2, y2, z2, 0, 0, 0, 0, 1, 0));
    lemma_mono6_mul(x1, y1, z1, x2, y2, z2, 0, 0, 1, 0, 0, 0, 0, 0, 0, 0, 1, 0);
    assert((z1 * y2) == (1int * mono6(x1, y1, z1, x2, y2, z2, 0, 0, 1, 0, 1, 0)));
    assert(((y1 * z2) + (z1 * y2)) == ((1int * mono6(x1, y1, z1, x2, y2, z2, 0, 0, 1, 0, 1, 0)) + (1int * mono6(x1, y1, z1, x2, y2, z2, 0, 1, 0, 0, 0, 1))));
    assert((21 * ((y1 * z2) + (z1 * y2))) == (21int * mono6(x1, y1, z1, x2, y2, z2, 0, 0, 0, 0, 0, 0)) * ((1int * mono6(x1, y1, z1, x2, y2, z2, 0, 0, 1, 0, 1, 0)) + (1int * mono6(x1, y1, z1, x2, y2, z2, 0, 1, 0, 0, 0, 1))));
    lemma_mul_is_distributive_add((21int * mono6(x1, y1, z1, x2, y2, z2, 0, 0, 0, 0, 0, 0)), (1int * mono6(x1, y1, z1, x2, y2, z2, 0, 0, 1, 0, 1, 0)), (1int * mono6(x1, y1, z1, x2, y2, z2, 0, 1, 0, 0, 0, 1)));
    lemma_coefficient_product(21int, mono6(x1, y1, z1, x2, y2, z2, 0, 0, 0, 0, 0, 0), 1int, mono6(x1, y1, z1, x2, y2, z2, 0, 0, 1, 0, 1, 0));
    lemma_mono6_mul(x1, y1, z1, x2, y2, z2, 0, 0, 0, 0, 0, 0, 0, 0, 1, 0, 1, 0);
    lemma_coefficient_product(21int, mono6(x1, y1, z1, x2, y2, z2, 0, 0, 0, 0, 0, 0), 1int, mono6(x1, y1, z1, x2, y2, z2, 0, 1, 0, 0, 0, 1));
    lemma_mono6_mul(x1, y1, z1, x2, y2, z2, 0, 0, 0, 0, 0, 0, 0, 1, 0, 0, 0, 1);
    assert((21 * ((y1 * z2) + (z1 * y2))) == ((21int * mono6(x1, y1, z1, x2, y2, z2, 0, 0, 1, 0, 1, 0)) + (21int * mono6(x1, y1, z1, x2, y2, z2, 0, 1, 0, 0, 0, 1))));
    assert(x1 == (1int * mono6(x1, y1, z1, x2, y2, z2, 1, 0, 0, 0, 0, 0)));
    assert(z2 == (1int * mono6(x1, y1, z1, x2, y2, z2, 0, 0, 0, 0, 0, 1)));
    assert((x1 * z2) == (1int * mono6(x1, y1, z1, x2, y2, z2, 1, 0, 0, 0, 0, 0)) * (1int * mono6(x1, y1, z1, x2, y2, z2, 0, 0, 0, 0, 0, 1)));
    lemma_coefficient_product(1int, mono6(x1, y1, z1, x2, y2, z2, 1, 0, 0, 0, 0, 0), 1int, mono6(x1, y1, z1, x2, y2, z2, 0, 0, 0, 0, 0, 1));
    lemma_mono6_mul(x1, y1, z1, x2, y2, z2, 1, 0, 0, 0, 0, 0, 0, 0, 0, 0, 0, 1);
    assert((x1 * z2) == (1int * mono6(x1, y1, z1, x2, y2, z2, 1, 0, 0, 0, 0, 1)));
    assert(z1 == (1int * mono6(x1, y1, z1, x2, y2, z2, 0, 0, 1, 0, 0, 0)));
    assert(x2 == (1int * mono6(x1, y1, z1, x2, y2, z2, 0, 0, 0, 1, 0, 0)));
    assert((z1 * x2) == (1int * mono6(x1, y1, z1, x2, y2, z2, 0, 0, 1, 0, 0, 0)) * (1int * mono6(x1, y1, z1, x2, y2, z2, 0, 0, 0, 1, 0, 0)));
    lemma_coefficient_product(1int, mono6(x1, y1, z1, x2, y2, z2, 0, 0, 1, 0, 0, 0), 1int, mono6(x1, y1, z1, x2, y2, z2, 0, 0, 0, 1, 0, 0));
    lemma_mono6_mul(x1, y1, z1, x2, y2, z2, 0, 0, 1, 0, 0, 0, 0, 0, 0, 1, 0, 0);
    assert((z1 * x2) == (1int * mono6(x1, y1, z1, x2, y2, z2, 0, 0, 1, 1, 0, 0)));
    assert(((x1 * z2) + (z1 * x2)) == ((1int * mono6(x1, y1, z1, x2, y2, z2, 0, 0, 1, 1, 0, 0)) + (1int * mono6(x1, y1, z1, x2, y2, z2, 1, 0, 0, 0, 0, 1))));
    assert(((21 * ((y1 * z2) + (z1 * y2))) * ((x1 * z2) + (z1 * x2))) == ((21int * mono6(x1, y1, z1, x2, y2, z2, 0, 0, 1, 0, 1, 0)) + (21int * mono6(x1, y1, z1, x2, y2, z2, 0, 1, 0, 0, 0, 1))) * ((1int * mono6(x1, y1, z1, x2, y2, z2, 0, 0, 1, 1, 0, 0)) + (1int * mono6(x1, y1, z1, x2, y2, z2, 1, 0, 0, 0, 0, 1))));
    lemma_mul_is_distributive_add_other_way(((1int * mono6(x1, y1, z1, x2, y2, z2, 0, 0, 1, 1, 0, 0)) + (1int * mono6(x1, y1, z1, x2, y2, z2, 1, 0, 0, 0, 0, 1))), (21int * mono6(x1, y1, z1, x2, y2, z2, 0, 0, 1, 0, 1, 0)), (21int * mono6(x1, y1, z1, x2, y2, z2, 0, 1, 0, 0, 0, 1)));
    lemma_mul_is_distributive_add((21int * mono6(x1, y1, z1, x2, y2, z2, 0, 0, 1, 0, 1, 0)), (1int * mono6(x1, y1, z1, x2, y2, z2, 0, 0, 1, 1, 0, 0)), (1int * mono6(x1, y1, z1, x2, y2, z2, 1, 0, 0, 0, 0, 1)));
    lemma_coefficient_product(21int, mono6(x1, y1, z1, x2, y2, z2, 0, 0, 1, 0, 1, 0), 1int, mono6(x1, y1, z1, x2, y2, z2, 0, 0, 1, 1, 0, 0));
    lemma_mono6_mul(x1, y1, z1, x2, y2, z2, 0, 0, 1, 0, 1, 0, 0, 0, 1, 1, 0, 0);
    lemma_coefficient_product(21int, mono6(x1, y1, z1, x2, y2, z2, 0, 0, 1, 0, 1, 0), 1int, mono6(x1, y1, z1, x2, y2, z2, 1, 0, 0, 0, 0, 1));
    lemma_mono6_mul(x1, y1, z1, x2, y2, z2, 0, 0, 1, 0, 1, 0, 1, 0, 0, 0, 0, 1);
    lemma_mul_is_distributive_add((21int * mono6(x1, y1, z1, x2, y2, z2, 0, 1, 0, 0, 0, 1)), (1int * mono6(x1, y1, z1, x2, y2, z2, 0, 0, 1, 1, 0, 0)), (1int * mono6(x1, y1, z1, x2, y2, z2, 1, 0, 0, 0, 0, 1)));
    lemma_coefficient_product(21int, mono6(x1, y1, z1, x2, y2, z2, 0, 1, 0, 0, 0, 1), 1int, mono6(x1, y1, z1, x2, y2, z2, 0, 0, 1, 1, 0, 0));
    lemma_mono6_mul(x1, y1, z1, x2, y2, z2, 0, 1, 0, 0, 0, 1, 0, 0, 1, 1, 0, 0);
    lemma_coefficient_product(21int, mono6(x1, y1, z1, x2, y2, z2, 0, 1, 0, 0, 0, 1), 1int, mono6(x1, y1, z1, x2, y2, z2, 1, 0, 0, 0, 0, 1));
    lemma_mono6_mul(x1, y1, z1, x2, y2, z2, 0, 1, 0, 0, 0, 1, 1, 0, 0, 0, 0, 1);
    assert(((21 * ((y1 * z2) + (z1 * y2))) * ((x1 * z2) + (z1 * x2))) == (((21int * mono6(x1, y1, z1, x2, y2, z2, 0, 0, 2, 1, 1, 0)) + (21int * mono6(x1, y1, z1, x2, y2, z2, 0, 1, 1, 1, 0, 1))) + ((21int * mono6(x1, y1, z1, x2, y2, z2, 1, 0, 1, 0, 1, 1)) + (21int * mono6(x1, y1, z1, x2, y2, z2, 1, 1, 0, 0, 0, 2)))));
    assert(((((x1 * y2) + (y1 * x2)) * ((y1 * y2) - (21 * (z1 * z2)))) - ((21 * ((y1 * z2) + (z1 * y2))) * ((x1 * z2) + (z1 * x2)))) == ((((-21int) * mono6(x1, y1, z1, x2, y2, z2, 0, 0, 2, 1, 1, 0)) + (((-42int) * mono6(x1, y1, z1, x2, y2, z2, 0, 1, 1, 1, 0, 1)) + (1int * mono6(x1, y1, z1, x2, y2, z2, 0, 2, 0, 1, 1, 0)))) + (((-42int) * mono6(x1, y1, z1, x2, y2, z2, 1, 0, 1, 0, 1, 1)) + (((-21int) * mono6(x1, y1, z1, x2, y2, z2, 1, 1, 0, 0, 0, 2)) + (1int * mono6(x1, y1, z1, x2, y2, z2, 1, 1, 0, 0, 2, 0))))));
    lemma_add_curve_identity_part2_mul_1(x1, y1, z1, x2, y2, z2);
    lemma_add_curve_identity_part2_mul_2(x1, y1, z1, x2, y2, z2);
    assert(((((((x1 * y2) + (y1 * x2)) * ((y1 * y2) - (21 * (z1 * z2)))) - ((21 * ((y1 * z2) + (z1 * y2))) * ((x1 * z2) + (z1 * x2)))) * ((((x1 * y2) + (y1 * x2)) * ((y1 * y2) - (21 * (z1 * z2)))) - ((21 * ((y1 * z2) + (z1 * y2))) * ((x1 * z2) + (z1 * x2))))) * ((((x1 * y2) + (y1 * x2)) * ((y1 * y2) - (21 * (z1 * z2)))) - ((21 * ((y1 * z2) + (z1 * y2))) * ((x1 * z2) + (z1 * x2))))) == ((((((441int * mono6(x1, y1, z1, x2, y2, z2, 0, 0, 4, 2, 2, 0)) + (1764int * mono6(x1, y1, z1, x2, y2, z2, 0, 1, 3, 2, 1, 1))) + ((1764int * mono6(x1, y1, z1, x2, y2, z2, 0, 2, 2, 2, 0, 2)) + ((-42int) * mono6(x1, y1, z1, x2, y2, z2, 0, 2, 2, 2, 2, 0)))) + ((((-84int) * mono6(x1, y1, z1, x2, y2, z2, 0, 3, 1, 2, 1, 1)) + (1int * mono6(x1, y1, z1, x2, y2, z2, 0, 4, 0, 2, 2, 0))) + ((1764int * mono6(x1, y1, z1, x2, y2, z2, 1, 0, 3, 1, 2, 1)) + (4410int * mono6(x1, y1, z1, x2, y2, z2, 1, 1, 2, 1, 1, 2))))) + (((((-42int) * mono6(x1, y1, z1, x2, y2, z2, 1, 1, 2, 1, 3, 0)) + (1764int * mono6(x1, y1, z1, x2, y2, z2, 1, 2, 1, 1, 0, 3))) + (((-168int) * mono6(x1, y1, z1, x2, y2, z2, 1, 2, 1, 1, 2, 1)) + ((-42int) * mono6(x1, y1, z1, x2, y2, z2, 1, 3, 0, 1, 1, 2)))) + (((2int * mono6(x1, y1, z1, x2, y2, z2, 1, 3, 0, 1, 3, 0)) + (1764int * mono6(x1, y1, z1, x2, y2, z2, 2, 0, 2, 0, 2, 2))) + ((1764int * mono6(x1, y1, z1, x2, y2, z2, 2, 1, 1, 0, 1, 3)) + ((-84int) * mono6(x1, y1, z1, x2, y2, z2, 2, 1, 1, 0, 3, 1)))))) + ((441int * mono6(x1, y1, z1, x2, y2, z2, 2, 2, 0, 0, 0, 4)) + (((-42int) * mono6(x1, y1, z1, x2, y2, z2, 2, 2, 0, 0, 2, 2)) + (1int * mono6(x1, y1, z1, x2, y2, z2, 2, 2, 0, 0, 4, 0))))) * ((((-21int) * mono6(x1, y1, z1, x2, y2, z2, 0, 0, 2, 1, 1, 0)) + (((-42int) * mono6(x1, y1, z1, x2, y2, z2, 0, 1, 1, 1, 0, 1)) + (1int * mono6(x1, y1, z1, x2, y2, z2, 0, 2, 0, 1, 1, 0)))) + (((-42int) * mono6(x1, y1, z1, x2, y2, z2, 1, 0, 1, 0, 1, 1)) + (((-21int) * mono6(x1, y1, z1, x2, y2, z2, 1, 1, 0, 0, 0, 2)) + (1int * mono6(x1, y1, z1, x2, y2, z2, 1, 1, 0, 0, 2, 0))))));
    lemma_mul_is_distributive_add_other_way(((((-21int) * mono6(x1, y1, z1, x2, y2, z2, 0, 0, 2, 1, 1, 0)) + (((-42int) * mono6(x1, y1, z1, x2, y2, z2, 0, 1, 1, 1, 0, 1)) + (1int * mono6(x1, y1, z1, x2, y2, z2, 0, 2, 0, 1, 1, 0)))) + (((-42int) * mono6(x1, y1, z1, x2, y2, z2, 1, 0, 1, 0, 1, 1)) + (((-21int) * mono6(x1, y1, z1, x2, y2, z2, 1, 1, 0, 0, 0, 2)) + (1int * mono6(x1, y1, z1, x2, y2, z2, 1, 1, 0, 0, 2, 0))))), (((((441int * mono6(x1, y1, z1, x2, y2, z2, 0, 0, 4, 2, 2, 0)) + (1764int * mono6(x1, y1, z1, x2, y2, z2, 0, 1, 3, 2, 1, 1))) + ((1764int * mono6(x1, y1, z1, x2, y2, z2, 0, 2, 2, 2, 0, 2)) + ((-42int) * mono6(x1, y1, z1, x2, y2, z2, 0, 2, 2, 2, 2, 0)))) + ((((-84int) * mono6(x1, y1, z1, x2, y2, z2, 0, 3, 1, 2, 1, 1)) + (1int * mono6(x1, y1, z1, x2, y2, z2, 0, 4, 0, 2, 2, 0))) + ((1764int * mono6(x1, y1, z1, x2, y2, z2, 1, 0, 3, 1, 2, 1)) + (4410int * mono6(x1, y1, z1, x2, y2, z2, 1, 1, 2, 1, 1, 2))))) + (((((-42int) * mono6(x1, y1, z1, x2, y2, z2, 1, 1, 2, 1, 3, 0)) + (1764int * mono6(x1, y1, z1, x2, y2, z2, 1, 2, 1, 1, 0, 3))) + (((-168int) * mono6(x1, y1, z1, x2, y2, z2, 1, 2, 1, 1, 2, 1)) + ((-42int) * mono6(x1, y1, z1, x2, y2, z2, 1, 3, 0, 1, 1, 2)))) + (((2int * mono6(x1, y1, z1, x2, y2, z2, 1, 3, 0, 1, 3, 0)) + (1764int * mono6(x1, y1, z1, x2, y2, z2, 2, 0, 2, 0, 2, 2))) + ((1764int * mono6(x1, y1, z1, x2, y2, z2, 2, 1, 1, 0, 1, 3)) + ((-84int) * mono6(x1, y1, z1, x2, y2, z2, 2, 1, 1, 0, 3, 1)))))), ((441int * mono6(x1, y1, z1, x2, y2, z2, 2, 2, 0, 0, 0, 4)) + (((-42int) * mono6(x1, y1, z1, x2, y2, z2, 2, 2, 0, 0, 2, 2)) + (1int * mono6(x1, y1, z1, x2, y2, z2, 2, 2, 0, 0, 4, 0)))));
    assert(((((((x1 * y2) + (y1 * x2)) * ((y1 * y2) - (21 * (z1 * z2)))) - ((21 * ((y1 * z2) + (z1 * y2))) * ((x1 * z2) + (z1 * x2)))) * ((((x1 * y2) + (y1 * x2)) * ((y1 * y2) - (21 * (z1 * z2)))) - ((21 * ((y1 * z2) + (z1 * y2))) * ((x1 * z2) + (z1 * x2))))) * ((((x1 * y2) + (y1 * x2)) * ((y1 * y2) - (21 * (z1 * z2)))) - ((21 * ((y1 * z2) + (z1 * y2))) * ((x1 * z2) + (z1 * x2))))) == (((((((-9261int) * mono6(x1, y1, z1, x2, y2, z2, 0, 0, 6, 3, 3, 0)) + ((-55566int) * mono6(x1, y1, z1, x2, y2, z2, 0, 1, 5, 3, 2, 1))) + (((-111132int) * mono6(x1, y1, z1, x2, y2, z2, 0, 2, 4, 3, 1, 2)) + ((1323int * mono6(x1, y1, z1, x2, y2, z2, 0, 2, 4, 3, 3, 0)) + ((-74088int) * mono6(x1, y1, z1, x2, y2, z2, 0, 3, 3, 3, 0, 3))))) + (((5292int * mono6(x1, y1, z1, x2, y2, z2, 0, 3, 3, 3, 2, 1)) + ((5292int * mono6(x1, y1, z1, x2, y2, z2, 0, 4, 2, 3, 1, 2)) + ((-63int) * mono6(x1, y1, z1, x2, y2, z2, 0, 4, 2, 3, 3, 0)))) + (((-126int) * mono6(x1, y1, z1, x2, y2, z2, 0, 5, 1, 3, 2, 1)) + ((1int * mono6(x1, y1, z1, x2, y2, z2, 0, 6, 0, 3, 3, 0)) + ((-55566int) * mono6(x1, y1, z1, x2, y2, z2, 1, 0, 5, 2, 3, 1)))))) + (((((-250047int) * mono6(x1, y1, z1, x2, y2, z2, 1, 1, 4, 2, 2, 2)) + (1323int * mono6(x1, y1, z1, x2, y2, z2, 1, 1, 4, 2, 4, 0))) + (((-333396int) * mono6(x1, y1, z1, x2, y2, z2, 1, 2, 3, 2, 1, 3)) + ((10584int * mono6(x1, y1, z1, x2, y2, z2, 1, 2, 3, 2, 3, 1)) + ((-111132int) * mono6(x1, y1, z1, x2, y2, z2, 1, 3, 2, 2, 0, 4))))) + (((18522int * mono6(x1, y1, z1, x2, y2, z2, 1, 3, 2, 2, 2, 2)) + (((-126int) * mono6(x1, y1, z1, x2, y2, z2, 1, 3, 2, 2, 4, 0)) + (5292int * mono6(x1, y1, z1, x2, y2, z2, 1, 4, 1, 2, 1, 3)))) + (((-378int) * mono6(x1, y1, z1, x2, y2, z2, 1, 4, 1, 2, 3, 1)) + (((-63int) * mono6(x1, y1, z1, x2, y2, z2, 1, 5, 0, 2, 2, 2)) + (3int * mono6(x1, y1, z1, x2, y2, z2, 1, 5, 0, 2, 4, 0))))))) + ((((((-111132int) * mono6(x1, y1, z1, x2, y2, z2, 2, 0, 4, 1, 3, 2)) + ((-333396int) * mono6(x1, y1, z1, x2, y2, z2, 2, 1, 3, 1, 2, 3))) + ((5292int * mono6(x1, y1, z1, x2, y2, z2, 2, 1, 3, 1, 4, 1)) + (((-250047int) * mono6(x1, y1, z1, x2, y2, z2, 2, 2, 2, 1, 1, 4)) + (18522int * mono6(x1, y1, z1, x2, y2, z2, 2, 2, 2, 1, 3, 2))))) + ((((-63int) * mono6(x1, y1, z1, x2, y2, z2, 2, 2, 2, 1, 5, 0)) + (((-55566int) * mono6(x1, y1, z1, x2, y2, z2, 2, 3, 1, 1, 0, 5)) + (10584int * mono6(x1, y1, z1, x2, y2, z2, 2, 3, 1, 1, 2, 3)))) + (((-378int) * mono6(x1, y1, z1, x2, y2, z2, 2, 3, 1, 1, 4, 1)) + ((1323int * mono6(x1, y1, z1, x2, y2, z2, 2, 4, 0, 1, 1, 4)) + ((-126int) * mono6(x1, y1, z1, x2, y2, z2, 2, 4, 0, 1, 3, 2)))))) + ((((3int * mono6(x1, y1, z1, x2, y2, z2, 2, 4, 0, 1, 5, 0)) + ((-74088int) * mono6(x1, y1, z1, x2, y2, z2, 3, 0, 3, 0, 3, 3))) + (((-111132int) * mono6(x1, y1, z1, x2, y2, z2, 3, 1, 2, 0, 2, 4)) + ((5292int * mono6(x1, y1, z1, x2, y2, z2, 3, 1, 2, 0, 4, 2)) + ((-55566int) * mono6(x1, y1, z1, x2, y2, z2, 3, 2, 1, 0, 1, 5))))) + (((5292int * mono6(x1, y1, z1, x2, y2, z2, 3, 2, 1, 0, 3, 3)) + (((-126int) * mono6(x1, y1, z1, x2, y2, z2, 3, 2, 1, 0, 5, 1)) + ((-9261int) * mono6(x1, y1, z1, x2, y2, z2, 3, 3, 0, 0, 0, 6)))) + ((1323int * mono6(x1, y1, z1, x2, y2, z2, 3, 3, 0, 0, 2, 4)) + (((-63int) * mono6(x1, y1, z1, x2, y2, z2, 3, 3, 0, 0, 4, 2)) + (1int * mono6(x1, y1, z1, x2, y2, z2, 3, 3, 0, 0, 6, 0)))))))));
}

#[verifier::rlimit(60)]
proof fn lemma_add_curve_identity_part3(x1: int, y1: int, z1: int, x2: int, y2: int, z2: int)
    ensures
        (7 * ((((((y1 * z2) + (z1 * y2)) * ((y1 * y2) + (21 * (z1 * z2)))) + ((3 * (x1 * x2)) * ((x1 * y2) + (y1 * x2)))) * ((((y1 * z2) + (z1 * y2)) * ((y1 * y2) + (21 * (z1 * z2)))) + ((3 * (x1 * x2)) * ((x1 * y2) + (y1 * x2))))) * ((((y1 * z2) + (z1 * y2)) * ((y1 * y2) + (21 * (z1 * z2)))) + ((3 * (x1 * x2)) * ((x1 * y2) + (y1 * x2)))))) == ((((((64827int * mono6(x1, y1, z1, x2, y2, z2, 0, 0, 6, 0, 3, 3)) + ((194481int * mono6(x1, y1, z1, x2, y2, z2, 0, 1, 5, 0, 2, 4)) + (9261int * mono6(x1, y1, z1, x2, y2, z2, 0, 1, 5, 0, 4, 2)))) + ((194481int * mono6(x1, y1, z1, x2, y2, z2, 0, 2, 4, 0, 1, 5)) + ((27783int * mono6(x1, y1, z1, x2, y2, z2, 0, 2, 4, 0, 3, 3)) + (441int * mono6(x1, y1, z1, x2, y2, z2, 0, 2, 4, 0, 5, 1))))) + (((64827int * mono6(x1, y1, z1, x2, y2, z2, 0, 3, 3, 0, 0, 6)) + ((27783int * mono6(x1, y1, z1, x2, y2, z2, 0, 3, 3, 0, 2, 4)) + (1323int * mono6(x1, y1, z1, x2, y2, z2, 0, 3, 3, 0, 4, 2)))) + ((7int * mono6(x1, y1, z1, x2, y2, z2, 0, 3, 3, 0, 6, 0)) + ((9261int * mono6(x1, y1, z1, x2, y2, z2, 0, 4, 2, 0, 1, 5)) + (1323int * mono6(x1, y1, z1, x2, y2, z2, 0, 4, 2, 0, 3, 3)))))) + ((((21int * mono6(x1, y1, z1, x2, y2, z2, 0, 4, 2, 0, 5, 1)) + ((441int * mono6(x1, y1, z1, x2, y2, z2, 0, 5, 1, 0, 2, 4)) + (21int * mono6(x1, y1, z1, x2, y2, z2, 0, 5, 1, 0, 4, 2)))) + ((7int * mono6(x1, y1, z1, x2, y2, z2, 0, 6, 0, 0, 3, 3)) + ((27783int * mono6(x1, y1, z1, x2, y2, z2, 1, 1, 4, 2, 2, 2)) + (55566int * mono6(x1, y1, z1, x2, y2, z2, 1, 2, 3, 2, 1, 3))))) + (((2646int * mono6(x1, y1, z1, x2, y2, z2, 1, 2, 3, 2, 3, 1)) + ((27783int * mono6(x1, y1, z1, x2, y2, z2, 1, 3, 2, 2, 0, 4)) + (5292int * mono6(x1, y1, z1, x2, y2, z2, 1, 3, 2, 2, 2, 2)))) + (((63int * mono6(x1, y1, z1, x2, y2, z2, 1, 3, 2, 2, 4, 0)) + (2646int * mono6(x1, y1, z1, x2, y2, z2, 1, 4, 1, 2, 1, 3))) + ((126int * mono6(x1, y1, z1, x2, y2, z2, 1, 4, 1, 2, 3, 1)) + (63int * mono6(x1, y1, z1, x2, y2, z2, 1, 5, 0, 2, 2, 2))))))) + (((((27783int * mono6(x1, y1, z1, x2, y2, z2, 2, 0, 4, 1, 3, 2)) + ((55566int * mono6(x1, y1, z1, x2, y2, z2, 2, 1, 3, 1, 2, 3)) + (2646int * mono6(x1, y1, z1, x2, y2, z2, 2, 1, 3, 1, 4, 1)))) + ((27783int * mono6(x1, y1, z1, x2, y2, z2, 2, 2, 2, 1, 1, 4)) + ((5292int * mono6(x1, y1, z1, x2, y2, z2, 2, 2, 2, 1, 3, 2)) + (63int * mono6(x1, y1, z1, x2, y2, z2, 2, 2, 2, 1, 5, 0))))) + (((3969int * mono6(x1, y1, z1, x2, y2, z2, 2, 2, 2, 4, 1, 1)) + ((2646int * mono6(x1, y1, z1, x2, y2, z2, 2, 3, 1, 1, 2, 3)) + (126int * mono6(x1, y1, z1, x2, y2, z2, 2, 3, 1, 1, 4, 1)))) + ((3969int * mono6(x1, y1, z1, x2, y2, z2, 2, 3, 1, 4, 0, 2)) + ((189int * mono6(x1, y1, z1, x2, y2, z2, 2, 3, 1, 4, 2, 0)) + (63int * mono6(x1, y1, z1, x2, y2, z2, 2, 4, 0, 1, 3, 2)))))) + ((((189int * mono6(x1, y1, z1, x2, y2, z2, 2, 4, 0, 4, 1, 1)) + ((7938int * mono6(x1, y1, z1, x2, y2, z2, 3, 1, 2, 3, 2, 1)) + (7938int * mono6(x1, y1, z1, x2, y2, z2, 3, 2, 1, 3, 1, 2)))) + ((378int * mono6(x1, y1, z1, x2, y2, z2, 3, 2, 1, 3, 3, 0)) + ((378int * mono6(x1, y1, z1, x2, y2, z2, 3, 3, 0, 3, 2, 1)) + (189int * mono6(x1, y1, z1, x2, y2, z2, 3, 3, 0, 6, 0, 0))))) + (((3969int * mono6(x1, y1, z1, x2, y2, z2, 4, 0, 2, 2, 3, 1)) + ((3969int * mono6(x1, y1, z1, x2, y2, z2, 4, 1, 1, 2, 2, 2)) + (189int * mono6(x1, y1, z1, x2, y2, z2, 4, 1, 1, 2, 4, 0)))) + (((189int * mono6(x1, y1, z1, x2, y2, z2, 4, 2, 0, 2, 3, 1)) + (567int * mono6(x1, y1, z1, x2, y2, z2, 4, 2, 0, 5, 1, 0))) + ((567int * mono6(x1, y1, z1, x2, y2, z2, 5, 1, 0, 4, 2, 0)) + (189int * mono6(x1, y1, z1, x2, y2, z2, 6, 0, 0, 3, 3, 0)))))))),
{
    lemma_mono6_vars(x1, y1, z1, x2, y2, z2);
    assert(7 == (7int * mono6(x1, y1, z1, x2, y2, z2, 0, 0, 0, 0, 0, 0)));
    assert(y1 == (1int * mono6(x1, y1, z1, x2, y2, z2, 0, 1, 0, 0, 0, 0)));
    assert(z2 == (1int * mono6(x1, y1, z1, x2, y2, z2, 0, 0, 0, 0, 0, 1)));
    assert((y1 * z2) == (1int * mono6(x1, y1, z1, x2, y2, z2, 0, 1, 0, 0, 0, 0)) * (1int * mono6(x1, y1, z1, x2, y2, z2, 0, 0, 0, 0, 0, 1)));
    lemma_coefficient_product(1int, mono6(x1, y1, z1, x2, y2, z2, 0, 1, 0, 0, 0, 0), 1int, mono6(x1, y1, z1, x2, y2, z2, 0, 0, 0, 0, 0, 1));
    lemma_mono6_mul(x1, y1, z1, x2, y2, z2, 0, 1, 0, 0, 0, 0, 0, 0, 0, 0, 0, 1);
    assert((y1 * z2) == (1int * mono6(x1, y1, z1, x2, y2, z2, 0, 1, 0, 0, 0, 1)));
    assert(z1 == (1int * mono6(x1, y1, z1, x2, y2, z2, 0, 0, 1, 0, 0, 0)));
    assert(y2 == (1int * mono6(x1, y1, z1, x2, y2, z2, 0, 0, 0, 0, 1, 0)));
    assert((z1 * y2) == (1int * mono6(x1, y1, z1, x2, y2, z2, 0, 0, 1, 0, 0, 0)) * (1int * mono6(x1, y1, z1, x2, y2, z2, 0, 0, 0, 0, 1, 0)));
    lemma_coefficient_product(1int, mono6(x1, y1, z1, x2, y2, z2, 0, 0, 1, 0, 0, 0), 1int, mono6(x1, y1, z1, x2, y2, z2, 0, 0, 0, 0, 1, 0));
    lemma_mono6_mul(x1, y1, z1, x2, y2, z2, 0, 0, 1, 0, 0, 0, 0, 0, 0, 0, 1, 0);
    assert((z1 * y2) == (1int * mono6(x1, y1, z1, x2, y2, z2, 0, 0, 1, 0, 1, 0)));
    assert(((y1 * z2) + (z1 * y2)) == ((1int * mono6(x1, y1, z1, x2, y2, z2, 0, 0, 1, 0, 1, 0)) + (1int * mono6(x1, y1, z1, x2, y2, z2, 0, 1, 0, 0, 0, 1))));
    assert(y1 == (1int * mono6(x1, y1, z1, x2, y2, z2, 0, 1, 0, 0, 0, 0)));
    assert(y2 == (1int * mono6(x1, y1, z1, x2, y2, z2, 0, 0, 0, 0, 1, 0)));
    assert((y1 * y2) == (1int * mono6(x1, y1, z1, x2, y2, z2, 0, 1, 0, 0, 0, 0)) * (1int * mono6(x1, y1, z1, x2, y2, z2, 0, 0, 0, 0, 1, 0)));
    lemma_coefficient_product(1int, mono6(x1, y1, z1, x2, y2, z2, 0, 1, 0, 0, 0, 0), 1int, mono6(x1, y1, z1, x2, y2, z2, 0, 0, 0, 0, 1, 0));
    lemma_mono6_mul(x1, y1, z1, x2, y2, z2, 0, 1, 0, 0, 0, 0, 0, 0, 0, 0, 1, 0);
    assert((y1 * y2) == (1int * mono6(x1, y1, z1, x2, y2, z2, 0, 1, 0, 0, 1, 0)));
    assert(21 == (21int * mono6(x1, y1, z1, x2, y2, z2, 0, 0, 0, 0, 0, 0)));
    assert(z1 == (1int * mono6(x1, y1, z1, x2, y2, z2, 0, 0, 1, 0, 0, 0)));
    assert(z2 == (1int * mono6(x1, y1, z1, x2, y2, z2, 0, 0, 0, 0, 0, 1)));
    assert((z1 * z2) == (1int * mono6(x1, y1, z1, x2, y2, z2, 0, 0, 1, 0, 0, 0)) * (1int * mono6(x1, y1, z1, x2, y2, z2, 0, 0, 0, 0, 0, 1)));
    lemma_coefficient_product(1int, mono6(x1, y1, z1, x2, y2, z2, 0, 0, 1, 0, 0, 0), 1int, mono6(x1, y1, z1, x2, y2, z2, 0, 0, 0, 0, 0, 1));
    lemma_mono6_mul(x1, y1, z1, x2, y2, z2, 0, 0, 1, 0, 0, 0, 0, 0, 0, 0, 0, 1);
    assert((z1 * z2) == (1int * mono6(x1, y1, z1, x2, y2, z2, 0, 0, 1, 0, 0, 1)));
    assert((21 * (z1 * z2)) == (21int * mono6(x1, y1, z1, x2, y2, z2, 0, 0, 0, 0, 0, 0)) * (1int * mono6(x1, y1, z1, x2, y2, z2, 0, 0, 1, 0, 0, 1)));
    lemma_coefficient_product(21int, mono6(x1, y1, z1, x2, y2, z2, 0, 0, 0, 0, 0, 0), 1int, mono6(x1, y1, z1, x2, y2, z2, 0, 0, 1, 0, 0, 1));
    lemma_mono6_mul(x1, y1, z1, x2, y2, z2, 0, 0, 0, 0, 0, 0, 0, 0, 1, 0, 0, 1);
    assert((21 * (z1 * z2)) == (21int * mono6(x1, y1, z1, x2, y2, z2, 0, 0, 1, 0, 0, 1)));
    assert(((y1 * y2) + (21 * (z1 * z2))) == ((21int * mono6(x1, y1, z1, x2, y2, z2, 0, 0, 1, 0, 0, 1)) + (1int * mono6(x1, y1, z1, x2, y2, z2, 0, 1, 0, 0, 1, 0))));
    assert((((y1 * z2) + (z1 * y2)) * ((y1 * y2) + (21 * (z1 * z2)))) == ((1int * mono6(x1, y1, z1, x2, y2, z2, 0, 0, 1, 0, 1, 0)) + (1int * mono6(x1, y1, z1, x2, y2, z2, 0, 1, 0, 0, 0, 1))) * ((21int * mono6(x1, y1, z1, x2, y2, z2, 0, 0, 1, 0, 0, 1)) + (1int * mono6(x1, y1, z1, x2, y2, z2, 0, 1, 0, 0, 1, 0))));
    lemma_mul_is_distributive_add_other_way(((21int * mono6(x1, y1, z1, x2, y2, z2, 0, 0, 1, 0, 0, 1)) + (1int * mono6(x1, y1, z1, x2, y2, z2, 0, 1, 0, 0, 1, 0))), (1int * mono6(x1, y1, z1, x2, y2, z2, 0, 0, 1, 0, 1, 0)), (1int * mono6(x1, y1, z1, x2, y2, z2, 0, 1, 0, 0, 0, 1)));
    lemma_mul_is_distributive_add((1int * mono6(x1, y1, z1, x2, y2, z2, 0, 0, 1, 0, 1, 0)), (21int * mono6(x1, y1, z1, x2, y2, z2, 0, 0, 1, 0, 0, 1)), (1int * mono6(x1, y1, z1, x2, y2, z2, 0, 1, 0, 0, 1, 0)));
    lemma_coefficient_product(1int, mono6(x1, y1, z1, x2, y2, z2, 0, 0, 1, 0, 1, 0), 21int, mono6(x1, y1, z1, x2, y2, z2, 0, 0, 1, 0, 0, 1));
    lemma_mono6_mul(x1, y1, z1, x2, y2, z2, 0, 0, 1, 0, 1, 0, 0, 0, 1, 0, 0, 1);
    lemma_coefficient_product(1int, mono6(x1, y1, z1, x2, y2, z2, 0, 0, 1, 0, 1, 0), 1int, mono6(x1, y1, z1, x2, y2, z2, 0, 1, 0, 0, 1, 0));
    lemma_mono6_mul(x1, y1, z1, x2, y2, z2, 0, 0, 1, 0, 1, 0, 0, 1, 0, 0, 1, 0);
    lemma_mul_is_distributive_add((1int * mono6(x1, y1, z1, x2, y2, z2, 0, 1, 0, 0, 0, 1)), (21int * mono6(x1, y1, z1, x2, y2, z2, 0, 0, 1, 0, 0, 1)), (1int * mono6(x1, y1, z1, x2, y2, z2, 0, 1, 0, 0, 1, 0)));
    lemma_coefficient_product(1int, mono6(x1, y1, z1, x2, y2, z2, 0, 1, 0, 0, 0, 1), 21int, mono6(x1, y1, z1, x2, y2, z2, 0, 0, 1, 0, 0, 1));
    lemma_mono6_mul(x1, y1, z1, x2, y2, z2, 0, 1, 0, 0, 0, 1, 0, 0, 1, 0, 0, 1);
    lemma_coefficient_product(1int, mono6(x1, y1, z1, x2, y2, z2, 0, 1, 0, 0, 0, 1), 1int, mono6(x1, y1, z1, x2, y2, z2, 0, 1, 0, 0, 1, 0));
    lemma_mono6_mul(x1, y1, z1, x2, y2, z2, 0, 1, 0, 0, 0, 1, 0, 1, 0, 0, 1, 0);
    assert((((y1 * z2) + (z1 * y2)) * ((y1 * y2) + (21 * (z1 * z2)))) == (((21int * mono6(x1, y1, z1, x2, y2, z2, 0, 0, 2, 0, 1, 1)) + (21int * mono6(x1, y1, z1, x2, y2, z2, 0, 1, 1, 0, 0, 2))) + ((1int * mono6(x1, y1, z1, x2, y2, z2, 0, 1, 1, 0, 2, 0)) + (1int * mono6(x1, y1, z1, x2, y2, z2, 0, 2, 0, 0, 1, 1)))));
    assert(3 == (3int * mono6(x1, y1, z1, x2, y2, z2, 0, 0, 0, 0, 0, 0)));
    assert(x1 == (1int * mono6(x1, y1, z1, x2, y2, z2, 1, 0, 0, 0, 0, 0)));
    assert(x2 == (1int * mono6(x1, y1, z1, x2, y2, z2, 0, 0, 0, 1, 0, 0)));
    assert((x1 * x2) == (1int * mono6(x1, y1, z1, x2, y2, z2, 1, 0, 0, 0, 0, 0)) * (1int * mono6(x1, y1, z1, x2, y2, z2, 0, 0, 0, 1, 0, 0)));
    lemma_coefficient_product(1int, mono6(x1, y1, z1, x2, y2, z2, 1, 0, 0, 0, 0, 0), 1int, mono6(x1, y1, z1, x2, y2, z2, 0, 0, 0, 1, 0, 0));
    lemma_mono6_mul(x1, y1, z1, x2, y2, z2, 1, 0, 0, 0, 0, 0, 0, 0, 0, 1, 0, 0);
    assert((x1 * x2) == (1int * mono6(x1, y1, z1, x2, y2, z2, 1, 0, 0, 1, 0, 0)));
    assert((3 * (x1 * x2)) == (3int * mono6(x1, y1, z1, x2, y2, z2, 0, 0, 0, 0, 0, 0)) * (1int * mono6(x1, y1, z1, x2, y2, z2, 1, 0, 0, 1, 0, 0)));
    lemma_coefficient_product(3int, mono6(x1, y1, z1, x2, y2, z2, 0, 0, 0, 0, 0, 0), 1int, mono6(x1, y1, z1, x2, y2, z2, 1, 0, 0, 1, 0, 0));
    lemma_mono6_mul(x1, y1, z1, x2, y2, z2, 0, 0, 0, 0, 0, 0, 1, 0, 0, 1, 0, 0);
    assert((3 * (x1 * x2)) == (3int * mono6(x1, y1, z1, x2, y2, z2, 1, 0, 0, 1, 0, 0)));
    assert(x1 == (1int * mono6(x1, y1, z1, x2, y2, z2, 1, 0, 0, 0, 0, 0)));
    assert(y2 == (1int * mono6(x1, y1, z1, x2, y2, z2, 0, 0, 0, 0, 1, 0)));
    assert((x1 * y2) == (1int * mono6(x1, y1, z1, x2, y2, z2, 1, 0, 0, 0, 0, 0)) * (1int * mono6(x1, y1, z1, x2, y2, z2, 0, 0, 0, 0, 1, 0)));
    lemma_coefficient_product(1int, mono6(x1, y1, z1, x2, y2, z2, 1, 0, 0, 0, 0, 0), 1int, mono6(x1, y1, z1, x2, y2, z2, 0, 0, 0, 0, 1, 0));
    lemma_mono6_mul(x1, y1, z1, x2, y2, z2, 1, 0, 0, 0, 0, 0, 0, 0, 0, 0, 1, 0);
    assert((x1 * y2) == (1int * mono6(x1, y1, z1, x2, y2, z2, 1, 0, 0, 0, 1, 0)));
    assert(y1 == (1int * mono6(x1, y1, z1, x2, y2, z2, 0, 1, 0, 0, 0, 0)));
    assert(x2 == (1int * mono6(x1, y1, z1, x2, y2, z2, 0, 0, 0, 1, 0, 0)));
    assert((y1 * x2) == (1int * mono6(x1, y1, z1, x2, y2, z2, 0, 1, 0, 0, 0, 0)) * (1int * mono6(x1, y1, z1, x2, y2, z2, 0, 0, 0, 1, 0, 0)));
    lemma_coefficient_product(1int, mono6(x1, y1, z1, x2, y2, z2, 0, 1, 0, 0, 0, 0), 1int, mono6(x1, y1, z1, x2, y2, z2, 0, 0, 0, 1, 0, 0));
    lemma_mono6_mul(x1, y1, z1, x2, y2, z2, 0, 1, 0, 0, 0, 0, 0, 0, 0, 1, 0, 0);
    assert((y1 * x2) == (1int * mono6(x1, y1, z1, x2, y2, z2, 0, 1, 0, 1, 0, 0)));
    assert(((x1 * y2) + (y1 * x2)) == ((1int * mono6(x1, y1, z1, x2, y2, z2, 0, 1, 0, 1, 0, 0)) + (1int * mono6(x1, y1, z1, x2, y2, z2, 1, 0, 0, 0, 1, 0))));
    assert(((3 * (x1 * x2)) * ((x1 * y2) + (y1 * x2))) == (3int * mono6(x1, y1, z1, x2, y2, z2, 1, 0, 0, 1, 0, 0)) * ((1int * mono6(x1, y1, z1, x2, y2, z2, 0, 1, 0, 1, 0, 0)) + (1int * mono6(x1, y1, z1, x2, y2, z2, 1, 0, 0, 0, 1, 0))));
    lemma_mul_is_distributive_add((3int * mono6(x1, y1, z1, x2, y2, z2, 1, 0, 0, 1, 0, 0)), (1int * mono6(x1, y1, z1, x2, y2, z2, 0, 1, 0, 1, 0, 0)), (1int * mono6(x1, y1, z1, x2, y2, z2, 1, 0, 0, 0, 1, 0)));
    lemma_coefficient_product(3int, mono6(x1, y1, z1, x2, y2, z2, 1, 0, 0, 1, 0, 0), 1int, mono6(x1, y1, z1, x2, y2, z2, 0, 1, 0, 1, 0, 0));
    lemma_mono6_mul(x1, y1, z1, x2, y2, z2, 1, 0, 0, 1, 0, 0, 0, 1, 0, 1, 0, 0);
    lemma_coefficient_product(3int, mono6(x1, y1, z1, x2, y2, z2, 1, 0, 0, 1, 0, 0), 1int, mono6(x1, y1, z1, x2, y2, z2, 1, 0, 0, 0, 1, 0));
    lemma_mono6_mul(x1, y1, z1, x2, y2, z2, 1, 0, 0, 1, 0, 0, 1, 0, 0, 0, 1, 0);
    assert(((3 * (x1 * x2)) * ((x1 * y2) + (y1 * x2))) == ((3int * mono6(x1, y1, z1, x2, y2, z2, 1, 1, 0, 2, 0, 0)) + (3int * mono6(x1, y1, z1, x2, y2, z2, 2, 0, 0, 1, 1, 0))));
    assert(((((y1 * z2) + (z1 * y2)) * ((y1 * y2) + (21 * (z1 * z2)))) + ((3 * (x1 * x2)) * ((x1 * y2) + (y1 * x2)))) == (((21int * mono6(x1, y1, z1, x2, y2, z2, 0, 0, 2, 0, 1, 1)) + ((21int * mono6(x1, y1, z1, x2, y2, z2, 0, 1, 1, 0, 0, 2)) + (1int * mono6(x1, y1, z1, x2, y2, z2, 0, 1, 1, 0, 2, 0)))) + ((1int * mono6(x1, y1, z1, x2, y2, z2, 0, 2, 0, 0, 1, 1)) + ((3int * mono6(x1, y1, z1, x2, y2, z2, 1, 1, 0, 2, 0, 0)) + (3int * mono6(x1, y1, z1, x2, y2, z2, 2, 0, 0, 1, 1, 0))))));
    assert(y1 == (1int * mono6(x1, y1, z1, x2, y2, z2, 0, 1, 0, 0, 0, 0)));
    assert(z2 == (1int * mono6(x1, y1, z1, x2, y2, z2, 0, 0, 0, 0, 0, 1)));
    assert((y1 * z2) == (1int * mono6(x1, y1, z1, x2, y2, z2, 0, 1, 0, 0, 0, 0)) * (1int * mono6(x1, y1, z1, x2, y2, z2, 0, 0, 0, 0, 0, 1)));
    lemma_coefficient_product(1int, mono6(x1, y1, z1, x2, y2, z2, 0, 1, 0, 0, 0, 0), 1int, mono6(x1, y1, z1, x2, y2, z2, 0, 0, 0, 0, 0, 1));
    lemma_mono6_mul(x1, y1, z1, x2, y2, z2, 0, 1, 0, 0, 0, 0, 0, 0, 0, 0, 0, 1);
    assert((y1 * z2) == (1int * mono6(x1, y1, z1, x2, y2, z2, 0, 1, 0, 0, 0, 1)));
    assert(z1 == (1int * mono6(x1, y1, z1, x2, y2, z2, 0, 0, 1, 0, 0, 0)));
    assert(y2 == (1int * mono6(x1, y1, z1, x2, y2, z2, 0, 0, 0, 0, 1, 0)));
    assert((z1 * y2) == (1int * mono6(x1, y1, z1, x2, y2, z2, 0, 0, 1, 0, 0, 0)) * (1int * mono6(x1, y1, z1, x2, y2, z2, 0, 0, 0, 0, 1, 0)));
    lemma_coefficient_product(1int, mono6(x1, y1, z1, x2, y2, z2, 0, 0, 1, 0, 0, 0), 1int, mono6(x1, y1, z1, x2, y2, z2, 0, 0, 0, 0, 1, 0));
    lemma_mono6_mul(x1, y1, z1, x2, y2, z2, 0, 0, 1, 0, 0, 0, 0, 0, 0, 0, 1, 0);
    assert((z1 * y2) == (1int * mono6(x1, y1, z1, x2, y2, z2, 0, 0, 1, 0, 1, 0)));
    assert(((y1 * z2) + (z1 * y2)) == ((1int * mono6(x1, y1, z1, x2, y2, z2, 0, 0, 1, 0, 1, 0)) + (1int * mono6(x1, y1, z1, x2, y2, z2, 0, 1, 0, 0, 0, 1))));
    assert(y1 == (1int * mono6(x1, y1, z1, x2, y2, z2, 0, 1, 0, 0, 0, 0)));
    assert(y2 == (1int * mono6(x1, y1, z1, x2, y2, z2, 0, 0, 0, 0, 1, 0)));
    assert((y1 * y2) == (1int * mono6(x1, y1, z1, x2, y2, z2, 0, 1, 0, 0, 0, 0)) * (1int * mono6(x1, y1, z1, x2, y2, z2, 0, 0, 0, 0, 1, 0)));
    lemma_coefficient_product(1int, mono6(x1, y1, z1, x2, y2, z2, 0, 1, 0, 0, 0, 0), 1int, mono6(x1, y1, z1, x2, y2, z2, 0, 0, 0, 0, 1, 0));
    lemma_mono6_mul(x1, y1, z1, x2, y2, z2, 0, 1, 0, 0, 0, 0, 0, 0, 0, 0, 1, 0);
    assert((y1 * y2) == (1int * mono6(x1, y1, z1, x2, y2, z2, 0, 1, 0, 0, 1, 0)));
    assert(21 == (21int * mono6(x1, y1, z1, x2, y2, z2, 0, 0, 0, 0, 0, 0)));
    assert(z1 == (1int * mono6(x1, y1, z1, x2, y2, z2, 0, 0, 1, 0, 0, 0)));
    assert(z2 == (1int * mono6(x1, y1, z1, x2, y2, z2, 0, 0, 0, 0, 0, 1)));
    assert((z1 * z2) == (1int * mono6(x1, y1, z1, x2, y2, z2, 0, 0, 1, 0, 0, 0)) * (1int * mono6(x1, y1, z1, x2, y2, z2, 0, 0, 0, 0, 0, 1)));
    lemma_coefficient_product(1int, mono6(x1, y1, z1, x2, y2, z2, 0, 0, 1, 0, 0, 0), 1int, mono6(x1, y1, z1, x2, y2, z2, 0, 0, 0, 0, 0, 1));
    lemma_mono6_mul(x1, y1, z1, x2, y2, z2, 0, 0, 1, 0, 0, 0, 0, 0, 0, 0, 0, 1);
    assert((z1 * z2) == (1int * mono6(x1, y1, z1, x2, y2, z2, 0, 0, 1, 0, 0, 1)));
    assert((21 * (z1 * z2)) == (21int * mono6(x1, y1, z1, x2, y2, z2, 0, 0, 0, 0, 0, 0)) * (1int * mono6(x1, y1, z1, x2, y2, z2, 0, 0, 1, 0, 0, 1)));
    lemma_coefficient_product(21int, mono6(x1, y1, z1, x2, y2, z2, 0, 0, 0, 0, 0, 0), 1int, mono6(x1, y1, z1, x2, y2, z2, 0, 0, 1, 0, 0, 1));
    lemma_mono6_mul(x1, y1, z1, x2, y2, z2, 0, 0, 0, 0, 0, 0, 0, 0, 1, 0, 0, 1);
    assert((21 * (z1 * z2)) == (21int * mono6(x1, y1, z1, x2, y2, z2, 0, 0, 1, 0, 0, 1)));
    assert(((y1 * y2) + (21 * (z1 * z2))) == ((21int * mono6(x1, y1, z1, x2, y2, z2, 0, 0, 1, 0, 0, 1)) + (1int * mono6(x1, y1, z1, x2, y2, z2, 0, 1, 0, 0, 1, 0))));
    assert((((y1 * z2) + (z1 * y2)) * ((y1 * y2) + (21 * (z1 * z2)))) == ((1int * mono6(x1, y1, z1, x2, y2, z2, 0, 0, 1, 0, 1, 0)) + (1int * mono6(x1, y1, z1, x2, y2, z2, 0, 1, 0, 0, 0, 1))) * ((21int * mono6(x1, y1, z1, x2, y2, z2, 0, 0, 1, 0, 0, 1)) + (1int * mono6(x1, y1, z1, x2, y2, z2, 0, 1, 0, 0, 1, 0))));
    lemma_mul_is_distributive_add_other_way(((21int * mono6(x1, y1, z1, x2, y2, z2, 0, 0, 1, 0, 0, 1)) + (1int * mono6(x1, y1, z1, x2, y2, z2, 0, 1, 0, 0, 1, 0))), (1int * mono6(x1, y1, z1, x2, y2, z2, 0, 0, 1, 0, 1, 0)), (1int * mono6(x1, y1, z1, x2, y2, z2, 0, 1, 0, 0, 0, 1)));
    lemma_mul_is_distributive_add((1int * mono6(x1, y1, z1, x2, y2, z2, 0, 0, 1, 0, 1, 0)), (21int * mono6(x1, y1, z1, x2, y2, z2, 0, 0, 1, 0, 0, 1)), (1int * mono6(x1, y1, z1, x2, y2, z2, 0, 1, 0, 0, 1, 0)));
    lemma_coefficient_product(1int, mono6(x1, y1, z1, x2, y2, z2, 0, 0, 1, 0, 1, 0), 21int, mono6(x1, y1, z1, x2, y2, z2, 0, 0, 1, 0, 0, 1));
    lemma_mono6_mul(x1, y1, z1, x2, y2, z2, 0, 0, 1, 0, 1, 0, 0, 0, 1, 0, 0, 1);
    lemma_coefficient_product(1int, mono6(x1, y1, z1, x2, y2, z2, 0, 0, 1, 0, 1, 0), 1int, mono6(x1, y1, z1, x2, y2, z2, 0, 1, 0, 0, 1, 0));
    lemma_mono6_mul(x1, y1, z1, x2, y2, z2, 0, 0, 1, 0, 1, 0, 0, 1, 0, 0, 1, 0);
    lemma_mul_is_distributive_add((1int * mono6(x1, y1, z1, x2, y2, z2, 0, 1, 0, 0, 0, 1)), (21int * mono6(x1, y1, z1, x2, y2, z2, 0, 0, 1, 0, 0, 1)), (1int * mono6(x1, y1, z1, x2, y2, z2, 0, 1, 0, 0, 1, 0)));
    lemma_coefficient_product(1int, mono6(x1, y1, z1, x2, y2, z2, 0, 1, 0, 0, 0, 1), 21int, mono6(x1, y1, z1, x2, y2, z2, 0, 0, 1, 0, 0, 1));
    lemma_mono6_mul(x1, y1, z1, x2, y2, z2, 0, 1, 0, 0, 0, 1, 0, 0, 1, 0, 0, 1);
    lemma_coefficient_product(1int, mono6(x1, y1, z1, x2, y2, z2, 0, 1, 0, 0, 0, 1), 1int, mono6(x1, y1, z1, x2, y2, z2, 0, 1, 0, 0, 1, 0));
    lemma_mono6_mul(x1, y1, z1, x2, y2, z2, 0, 1, 0, 0, 0, 1, 0, 1, 0, 0, 1, 0);
    assert((((y1 * z2) + (z1 * y2)) * ((y1 * y2) + (21 * (z1 * z2)))) == (((21int * mono6(x1, y1, z1, x2, y2, z2, 0, 0, 2, 0, 1, 1)) + (21int * mono6(x1, y1, z1, x2, y2, z2, 0, 1, 1, 0, 0, 2))) + ((1int * mono6(x1, y1, z1, x2, y2, z2, 0, 1, 1, 0, 2, 0)) + (1int * mono6(x1, y1, z1, x2, y2, z2, 0, 2, 0, 0, 1, 1)))));
    assert(3 == (3int * mono6(x1, y1, z1, x2, y2, z2, 0, 0, 0, 0, 0, 0)));
    assert(x1 == (1int * mono6(x1, y1, z1, x2, y2, z2, 1, 0, 0, 0, 0, 0)));
    assert(x2 == (1int * mono6(x1, y1, z1, x2, y2, z2, 0, 0, 0, 1, 0, 0)));
    assert((x1 * x2) == (1int * mono6(x1, y1, z1, x2, y2, z2, 1, 0, 0, 0, 0, 0)) * (1int * mono6(x1, y1, z1, x2, y2, z2, 0, 0, 0, 1, 0, 0)));
    lemma_coefficient_product(1int, mono6(x1, y1, z1, x2, y2, z2, 1, 0, 0, 0, 0, 0), 1int, mono6(x1, y1, z1, x2, y2, z2, 0, 0, 0, 1, 0, 0));
    lemma_mono6_mul(x1, y1, z1, x2, y2, z2, 1, 0, 0, 0, 0, 0, 0, 0, 0, 1, 0, 0);
    assert((x1 * x2) == (1int * mono6(x1, y1, z1, x2, y2, z2, 1, 0, 0, 1, 0, 0)));
    assert((3 * (x1 * x2)) == (3int * mono6(x1, y1, z1, x2, y2, z2, 0, 0, 0, 0, 0, 0)) * (1int * mono6(x1, y1, z1, x2, y2, z2, 1, 0, 0, 1, 0, 0)));
    lemma_coefficient_product(3int, mono6(x1, y1, z1, x2, y2, z2, 0, 0, 0, 0, 0, 0), 1int, mono6(x1, y1, z1, x2, y2, z2, 1, 0, 0, 1, 0, 0));
    lemma_mono6_mul(x1, y1, z1, x2, y2, z2, 0, 0, 0, 0, 0, 0, 1, 0, 0, 1, 0, 0);
    assert((3 * (x1 * x2)) == (3int * mono6(x1, y1, z1, x2, y2, z2, 1, 0, 0, 1, 0, 0)));
    assert(x1 == (1int * mono6(x1, y1, z1, x2, y2, z2, 1, 0, 0, 0, 0, 0)));
    assert(y2 == (1int * mono6(x1, y1, z1, x2, y2, z2, 0, 0, 0, 0, 1, 0)));
    assert((x1 * y2) == (1int * mono6(x1, y1, z1, x2, y2, z2, 1, 0, 0, 0, 0, 0)) * (1int * mono6(x1, y1, z1, x2, y2, z2, 0, 0, 0, 0, 1, 0)));
    lemma_coefficient_product(1int, mono6(x1, y1, z1, x2, y2, z2, 1, 0, 0, 0, 0, 0), 1int, mono6(x1, y1, z1, x2, y2, z2, 0, 0, 0, 0, 1, 0));
    lemma_mono6_mul(x1, y1, z1, x2, y2, z2, 1, 0, 0, 0, 0, 0, 0, 0, 0, 0, 1, 0);
    assert((x1 * y2) == (1int * mono6(x1, y1, z1, x2, y2, z2, 1, 0, 0, 0, 1, 0)));
    assert(y1 == (1int * mono6(x1, y1, z1, x2, y2, z2, 0, 1, 0, 0, 0, 0)));
    assert(x2 == (1int * mono6(x1, y1, z1, x2, y2, z2, 0, 0, 0, 1, 0, 0)));
    assert((y1 * x2) == (1int * mono6(x1, y1, z1, x2, y2, z2, 0, 1, 0, 0, 0, 0)) * (1int * mono6(x1, y1, z1, x2, y2, z2, 0, 0, 0, 1, 0, 0)));
    lemma_coefficient_product(1int, mono6(x1, y1, z1, x2, y2, z2, 0, 1, 0, 0, 0, 0), 1int, mono6(x1, y1, z1, x2, y2, z2, 0, 0, 0, 1, 0, 0));
    lemma_mono6_mul(x1, y1, z1, x2, y2, z2, 0, 1, 0, 0, 0, 0, 0, 0, 0, 1, 0, 0);
    assert((y1 * x2) == (1int * mono6(x1, y1, z1, x2, y2, z2, 0, 1, 0, 1, 0, 0)));
    assert(((x1 * y2) + (y1 * x2)) == ((1int * mono6(x1, y1, z1, x2, y2, z2, 0, 1, 0, 1, 0, 0)) + (1int * mono6(x1, y1, z1, x2, y2, z2, 1, 0, 0, 0, 1, 0))));
    assert(((3 * (x1 * x2)) * ((x1 * y2) + (y1 * x2))) == (3int * mono6(x1, y1, z1, x2, y2, z2, 1, 0, 0, 1, 0, 0)) * ((1int * mono6(x1, y1, z1, x2, y2, z2, 0, 1, 0, 1, 0, 0)) + (1int * mono6(x1, y1, z1, x2, y2, z2, 1, 0, 0, 0, 1, 0))));
    lemma_mul_is_distributive_add((3int * mono6(x1, y1, z1, x2, y2, z2, 1, 0, 0, 1, 0, 0)), (1int * mono6(x1, y1, z1, x2, y2, z2, 0, 1, 0, 1, 0, 0)), (1int * mono6(x1, y1, z1, x2, y2, z2, 1, 0, 0, 0, 1, 0)));
    lemma_coefficient_product(3int, mono6(x1, y1, z1, x2, y2, z2, 1, 0, 0, 1, 0, 0), 1int, mono6(x1, y1, z1, x2, y2, z2, 0, 1, 0, 1, 0, 0));
    lemma_mono6_mul(x1, y1, z1, x2, y2, z2, 1, 0, 0, 1, 0, 0, 0, 1, 0, 1, 0, 0);
    lemma_coefficient_product(3int, mono6(x1, y1, z1, x2, y2, z2, 1, 0, 0, 1, 0, 0), 1int, mono6(x1, y1, z1, x2, y2, z2, 1, 0, 0, 0, 1, 0));
    lemma_mono6_mul(x1, y1, z1, x2, y2, z2, 1, 0, 0, 1, 0, 0, 1, 0, 0, 0, 1, 0);
    assert(((3 * (x1 * x2)) * ((x1 * y2) + (y1 * x2))) == ((3int * mono6(x1, y1, z1, x2, y2, z2, 1, 1, 0, 2, 0, 0)) + (3int * mono6(x1, y1, z1, x2, y2, z2, 2, 0, 0, 1, 1, 0))));
    assert(((((y1 * z2) + (z1 * y2)) * ((y1 * y2) + (21 * (z1 * z2)))) + ((3 * (x1 * x2)) * ((x1 * y2) + (y1 * x2)))) == (((21int * mono6(x1, y1, z1, x2, y2, z2, 0, 0, 2, 0, 1, 1)) + ((21int * mono6(x1, y1, z1, x2, y2, z2, 0, 1, 1, 0, 0, 2)) + (1int * mono6(x1, y1, z1, x2, y2, z2, 0, 1, 1, 0, 2, 0)))) + ((1int * mono6(x1, y1, z1, x2, y2, z2, 0, 2, 0, 0, 1, 1)) + ((3int * mono6(x1, y1, z1, x2, y2, z2, 1, 1, 0, 2, 0, 0)) + (3int * mono6(x1, y1, z1, x2, y2, z2, 2, 0, 0, 1, 1, 0))))));
    assert((((((y1 * z2) + (z1 * y2)) * ((y1 * y2) + (21 * (z1 * z2)))) + ((3 * (x1 * x2)) * ((x1 * y2) + (y1 * x2)))) * ((((y1 * z2) + (z1 * y2)) * ((y1 * y2) + (21 * (z1 * z2)))) + ((3 * (x1 * x2)) * ((x1 * y2) + (y1 * x2))))) == (((21int * mono6(x1, y1, z1, x2, y2, z2, 0, 0, 2, 0, 1, 1)) + ((21int * mono6(x1, y1, z1, x2, y2, z2, 0, 1, 1, 0, 0, 2)) + (1int * mono6(x1, y1, z1, x2, y2, z2, 0, 1, 1, 0, 2, 0)))) + ((1int * mono6(x1, y1, z1, x2, y2, z2, 0, 2, 0, 0, 1, 1)) + ((3int * mono6(x1, y1, z1, x2, y2, z2, 1, 1, 0, 2, 0, 0)) + (3int * mono6(x1, y1, z1, x2, y2, z2, 2, 0, 0, 1, 1, 0))))) * (((21int * mono6(x1, y1, z1, x2, y2, z2, 0, 0, 2, 0, 1, 1)) + ((21int * mono6(x1, y1, z1, x2, y2, z2, 0, 1, 1, 0, 0, 2)) + (1int * mono6(x1, y1, z1, x2, y2, z2, 0, 1, 1, 0, 2, 0)))) + ((1int * mono6(x1, y1, z1, x2, y2, z2, 0, 2, 0, 0, 1, 1)) + ((3int * mono6(x1, y1, z1, x2, y2, z2, 1, 1, 0, 2, 0, 0)) + (3int * mono6(x1, y1, z1, x2, y2, z2, 2, 0, 0, 1, 1, 0))))));
    lemma_mul_is_distributive_add_other_way((((21int * mono6(x1, y1, z1, x2, y2, z2, 0, 0, 2, 0, 1, 1)) + ((21int * mono6(x1, y1, z1, x2, y2, z2, 0, 1, 1, 0, 0, 2)) + (1int * mono6(x1, y1, z1, x2, y2, z2, 0, 1, 1, 0, 2, 0)))) + ((1int * mono6(x1, y1, z1, x2, y2, z2, 0, 2, 0, 0, 1, 1)) + ((3int * mono6(x1, y1, z1, x2, y2, z2, 1, 1, 0, 2, 0, 0)) + (3int * mono6(x1, y1, z1, x2, y2, z2, 2, 0, 0, 1, 1, 0))))), ((21int * mono6(x1, y1, z1, x2, y2, z2, 0, 0, 2, 0, 1, 1)) + ((21int * mono6(x1, y1, z1, x2, y2, z2, 0, 1, 1, 0, 0, 2)) + (1int * mono6(x1, y1, z1, x2, y2, z2, 0, 1, 1, 0, 2, 0)))), ((1int * mono6(x1, y1, z1, x2, y2, z2, 0, 2, 0, 0, 1, 1)) + ((3int * mono6(x1, y1, z1, x2, y2, z2, 1, 1, 0, 2, 0, 0)) + (3int * mono6(x1, y1, z1, x2, y2, z2, 2, 0, 0, 1, 1, 0)))));
    lemma_mul_is_distributive_add_other_way((((21int * mono6(x1, y1, z1, x2, y2, z2, 0, 0, 2, 0, 1, 1)) + ((21int * mono6(x1, y1, z1, x2, y2, z2, 0, 1, 1, 0, 0, 2)) + (1int * mono6(x1, y1, z1, x2, y2, z2, 0, 1, 1, 0, 2, 0)))) + ((1int * mono6(x1, y1, z1, x2, y2, z2, 0, 2, 0, 0, 1, 1)) + ((3int * mono6(x1, y1, z1, x2, y2, z2, 1, 1, 0, 2, 0, 0)) + (3int * mono6(x1, y1, z1, x2, y2, z2, 2, 0, 0, 1, 1, 0))))), (21int * mono6(x1, y1, z1, x2, y2, z2, 0, 0, 2, 0, 1, 1)), ((21int * mono6(x1, y1, z1, x2, y2, z2, 0, 1, 1, 0, 0, 2)) + (1int * mono6(x1, y1, z1, x2, y2, z2, 0, 1, 1, 0, 2, 0))));
    lemma_mul_is_distributive_add_other_way((((21int * mono6(x1, y1, z1, x2, y2, z2, 0, 0, 2, 0, 1, 1)) + ((21int * mono6(x1, y1, z1, x2, y2, z2, 0, 1, 1, 0, 0, 2)) + (1int * mono6(x1, y1, z1, x2, y2, z2, 0, 1, 1, 0, 2, 0)))) + ((1int * mono6(x1, y1, z1, x2, y2, z2, 0, 2, 0, 0, 1, 1)) + ((3int * mono6(x1, y1, z1, x2, y2, z2, 1, 1, 0, 2, 0, 0)) + (3int * mono6(x1, y1, z1, x2, y2, z2, 2, 0, 0, 1, 1, 0))))), (21int * mono6(x1, y1, z1, x2, y2, z2, 0, 1, 1, 0, 0, 2)), (1int * mono6(x1, y1, z1, x2, y2, z2, 0, 1, 1, 0, 2, 0)));
    lemma_mul_is_distributive_add_other_way((((21int * mono6(x1, y1, z1, x2, y2, z2, 0, 0, 2, 0, 1, 1)) + ((21int * mono6(x1, y1, z1, x2, y2, z2, 0, 1, 1, 0, 0, 2)) + (1int * mono6(x1, y1, z1, x2, y2, z2, 0, 1, 1, 0, 2, 0)))) + ((1int * mono6(x1, y1, z1, x2, y2, z2, 0, 2, 0, 0, 1, 1)) + ((3int * mono6(x1, y1, z1, x2, y2, z2, 1, 1, 0, 2, 0, 0)) + (3int * mono6(x1, y1, z1, x2, y2, z2, 2, 0, 0, 1, 1, 0))))), (1int * mono6(x1, y1, z1, x2, y2, z2, 0, 2, 0, 0, 1, 1)), ((3int * mono6(x1, y1, z1, x2, y2, z2, 1, 1, 0, 2, 0, 0)) + (3int * mono6(x1, y1, z1, x2, y2, z2, 2, 0, 0, 1, 1, 0))));
    lemma_mul_is_distributive_add_other_way((((21int * mono6(x1, y1, z1, x2, y2, z2, 0, 0, 2, 0, 1, 1)) + ((21int * mono6(x1, y1, z1, x2, y2, z2, 0, 1, 1, 0, 0, 2)) + (1int * mono6(x1, y1, z1, x2, y2, z2, 0, 1, 1, 0, 2, 0)))) + ((1int * mono6(x1, y1, z1, x2, y2, z2, 0, 2, 0, 0, 1, 1)) + ((3int * mono6(x1, y1, z1, x2, y2, z2, 1, 1, 0, 2, 0, 0)) + (3int * mono6(x1, y1, z1, x2, y2, z2, 2, 0, 0, 1, 1, 0))))), (3int * mono6(x1, y1, z1, x2, y2, z2, 1, 1, 0, 2, 0, 0)), (3int * mono6(x1, y1, z1, x2, y2, z2, 2, 0, 0, 1, 1, 0)));
    lemma_mul_is_distributive_add((21int * mono6(x1, y1, z1, x2, y2, z2, 0, 0, 2, 0, 1, 1)), ((21int * mono6(x1, y1, z1, x2, y2, z2, 0, 0, 2, 0, 1, 1)) + ((21int * mono6(x1, y1, z1, x2, y2, z2, 0, 1, 1, 0, 0, 2)) + (1int * mono6(x1, y1, z1, x2, y2, z2, 0, 1, 1, 0, 2, 0)))), ((1int * mono6(x1, y1, z1, x2, y2, z2, 0, 2, 0, 0, 1, 1)) + ((3int * mono6(x1, y1, z1, x2, y2, z2, 1, 1, 0, 2, 0, 0)) + (3int * mono6(x1, y1, z1, x2, y2, z2, 2, 0, 0, 1, 1, 0)))));
    lemma_mul_is_distributive_add((21int * mono6(x1, y1, z1, x2, y2, z2, 0, 0, 2, 0, 1, 1)), (21int * mono6(x1, y1, z1, x2, y2, z2, 0, 0, 2, 0, 1, 1)), ((21int * mono6(x1, y1, z1, x2, y2, z2, 0, 1, 1, 0, 0, 2)) + (1int * mono6(x1, y1, z1, x2, y2, z2, 0, 1, 1, 0, 2, 0))));
    lemma_mul_is_distributive_add((21int * mono6(x1, y1, z1, x2, y2, z2, 0, 0, 2, 0, 1, 1)), (21int * mono6(x1, y1, z1, x2, y2, z2, 0, 1, 1, 0, 0, 2)), (1int * mono6(x1, y1, z1, x2, y2, z2, 0, 1, 1, 0, 2, 0)));
    lemma_mul_is_distributive_add((21int * mono6(x1, y1, z1, x2, y2, z2, 0, 0, 2, 0, 1, 1)), (1int * mono6(x1, y1, z1, x2, y2, z2, 0, 2, 0, 0, 1, 1)), ((3int * mono6(x1, y1, z1, x2, y2, z2, 1, 1, 0, 2, 0, 0)) + (3int * mono6(x1, y1, z1, x2, y2, z2, 2, 0, 0, 1, 1, 0))));
    lemma_mul_is_distributive_add((21int * mono6(x1, y1, z1, x2, y2, z2, 0, 0, 2, 0, 1, 1)), (3int * mono6(x1, y1, z1, x2, y2, z2, 1, 1, 0, 2, 0, 0)), (3int * mono6(x1, y1, z1, x2, y2, z2, 2, 0, 0, 1, 1, 0)));
    lemma_coefficient_product(21int, mono6(x1, y1, z1, x2, y2, z2, 0, 0, 2, 0, 1, 1), 21int, mono6(x1, y1, z1, x2, y2, z2, 0, 0, 2, 0, 1, 1));
    lemma_mono6_mul(x1, y1, z1, x2, y2, z2, 0, 0, 2, 0, 1, 1, 0, 0, 2, 0, 1, 1);
    lemma_coefficient_product(21int, mono6(x1, y1, z1, x2, y2, z2, 0, 0, 2, 0, 1, 1), 21int, mono6(x1, y1, z1, x2, y2, z2, 0, 1, 1, 0, 0, 2));
    lemma_mono6_mul(x1, y1, z1, x2, y2, z2, 0, 0, 2, 0, 1, 1, 0, 1, 1, 0, 0, 2);
    lemma_coefficient_product(21int, mono6(x1, y1, z1, x2, y2, z2, 0, 0, 2, 0, 1, 1), 1int, mono6(x1, y1, z1, x2, y2, z2, 0, 1, 1, 0, 2, 0));
    lemma_mono6_mul(x1, y1, z1, x2, y2, z2, 0, 0, 2, 0, 1, 1, 0, 1, 1, 0, 2, 0);
    lemma_coefficient_product(21int, mono6(x1, y1, z1, x2, y2, z2, 0, 0, 2, 0, 1, 1), 1int, mono6(x1, y1, z1, x2, y2, z2, 0, 2, 0, 0, 1, 1));
    lemma_mono6_mul(x1, y1, z1, x2, y2, z2, 0, 0, 2, 0, 1, 1, 0, 2, 0, 0, 1, 1);
    lemma_coefficient_product(21int, mono6(x1, y1, z1, x2, y2, z2, 0, 0, 2, 0, 1, 1), 3int, mono6(x1, y1, z1, x2, y2, z2, 1, 1, 0, 2, 0, 0));
    lemma_mono6_mul(x1, y1, z1, x2, y2, z2, 0, 0, 2, 0, 1, 1, 1, 1, 0, 2, 0, 0);
    lemma_coefficient_product(21int, mono6(x1, y1, z1, x2, y2, z2, 0, 0, 2, 0, 1, 1), 3int, mono6(x1, y1, z1, x2, y2, z2, 2, 0, 0, 1, 1, 0));
    lemma_mono6_mul(x1, y1, z1, x2, y2, z2, 0, 0, 2, 0, 1, 1, 2, 0, 0, 1, 1, 0);
    lemma_mul_is_distributive_add((21int * mono6(x1, y1, z1, x2, y2, z2, 0, 1, 1, 0, 0, 2)), ((21int * mono6(x1, y1, z1, x2, y2, z2, 0, 0, 2, 0, 1, 1)) + ((21int * mono6(x1, y1, z1, x2, y2, z2, 0, 1, 1, 0, 0, 2)) + (1int * mono6(x1, y1, z1, x2, y2, z2, 0, 1, 1, 0, 2, 0)))), ((1int * mono6(x1, y1, z1, x2, y2, z2, 0, 2, 0, 0, 1, 1)) + ((3int * mono6(x1, y1, z1, x2, y2, z2, 1, 1, 0, 2, 0, 0)) + (3int * mono6(x1, y1, z1, x2, y2, z2, 2, 0, 0, 1, 1, 0)))));
    lemma_mul_is_distributive_add((21int * mono6(x1, y1, z1, x2, y2, z2, 0, 1, 1, 0, 0, 2)), (21int * mono6(x1, y1, z1, x2, y2, z2, 0, 0, 2, 0, 1, 1)), ((21int * mono6(x1, y1, z1, x2, y2, z2, 0, 1, 1, 0, 0, 2)) + (1int * mono6(x1, y1, z1, x2, y2, z2, 0, 1, 1, 0, 2, 0))));
    lemma_mul_is_distributive_add((21int * mono6(x1, y1, z1, x2, y2, z2, 0, 1, 1, 0, 0, 2)), (21int * mono6(x1, y1, z1, x2, y2, z2, 0, 1, 1, 0, 0, 2)), (1int * mono6(x1, y1, z1, x2, y2, z2, 0, 1, 1, 0, 2, 0)));
    lemma_mul_is_distributive_add((21int * mono6(x1, y1, z1, x2, y2, z2, 0, 1, 1, 0, 0, 2)), (1int * mono6(x1, y1, z1, x2, y2, z2, 0, 2, 0, 0, 1, 1)), ((3int * mono6(x1, y1, z1, x2, y2, z2, 1, 1, 0, 2, 0, 0)) + (3int * mono6(x1, y1, z1, x2, y2, z2, 2, 0, 0, 1, 1, 0))));
    lemma_mul_is_distributive_add((21int * mono6(x1, y1, z1, x2, y2, z2, 0, 1, 1, 0, 0, 2)), (3int * mono6(x1, y1, z1, x2, y2, z2, 1, 1, 0, 2, 0, 0)), (3int * mono6(x1, y1, z1, x2, y2, z2, 2, 0, 0, 1, 1, 0)));
    lemma_coefficient_product(21int, mono6(x1, y1, z1, x2, y2, z2, 0, 1, 1, 0, 0, 2), 21int, mono6(x1, y1, z1, x2, y2, z2, 0, 0, 2, 0, 1, 1));
    lemma_mono6_mul(x1, y1, z1, x2, y2, z2, 0, 1, 1, 0, 0, 2, 0, 0, 2, 0, 1, 1);
    lemma_coefficient_product(21int, mono6(x1, y1, z1, x2, y2, z2, 0, 1, 1, 0, 0, 2), 21int, mono6(x1, y1, z1, x2, y2, z2, 0, 1, 1, 0, 0, 2));
    lemma_mono6_mul(x1, y1, z1, x2, y2, z2, 0, 1, 1, 0, 0, 2, 0, 1, 1, 0, 0, 2);
    lemma_coefficient_product(21int, mono6(x1, y1, z1, x2, y2, z2, 0, 1, 1, 0, 0, 2), 1int, mono6(x1, y1, z1, x2, y2, z2, 0, 1, 1, 0, 2, 0));
    lemma_mono6_mul(x1, y1, z1, x2, y2, z2, 0, 1, 1, 0, 0, 2, 0, 1, 1, 0, 2, 0);
    lemma_coefficient_product(21int, mono6(x1, y1, z1, x2, y2, z2, 0, 1, 1, 0, 0, 2), 1int, mono6(x1, y1, z1, x2, y2, z2, 0, 2, 0, 0, 1, 1));
    lemma_mono6_mul(x1, y1, z1, x2, y2, z2, 0, 1, 1, 0, 0, 2, 0, 2, 0, 0, 1, 1);
    lemma_coefficient_product(21int, mono6(x1, y1, z1, x2, y2, z2, 0, 1, 1, 0, 0, 2), 3int, mono6(x1, y1, z1, x2, y2, z2, 1, 1, 0, 2, 0, 0));
    lemma_mono6_mul(x1, y1, z1, x2, y2, z2, 0, 1, 1, 0, 0, 2, 1, 1, 0, 2, 0, 0);
    lemma_coefficient_product(21int, mono6(x1, y1, z1, x2, y2, z2, 0, 1, 1, 0, 0, 2), 3int, mono6(x1, y1, z1, x2, y2, z2, 2, 0, 0, 1, 1, 0));
    lemma_mono6_mul(x1, y1, z1, x2, y2, z2, 0, 1, 1, 0, 0, 2, 2, 0, 0, 1, 1, 0);
    lemma_mul_is_distributive_add((1int * mono6(x1, y1, z1, x2, y2, z2, 0, 1, 1, 0, 2, 0)), ((21int * mono6(x1, y1, z1, x2, y2, z2, 0, 0, 2, 0, 1, 1)) + ((21int * mono6(x1, y1, z1, x2, y2, z2, 0, 1, 1, 0, 0, 2)) + (1int * mono6(x1, y1, z1, x2, y2, z2, 0, 1, 1, 0, 2, 0)))), ((1int * mono6(x1, y1, z1, x2, y2, z2, 0, 2, 0, 0, 1, 1)) + ((3int * mono6(x1, y1, z1, x2, y2, z2, 1, 1, 0, 2, 0, 0)) + (3int * mono6(x1, y1, z1, x2, y2, z2, 2, 0, 0, 1, 1, 0)))));
    lemma_mul_is_distributive_add((1int * mono6(x1, y1, z1, x2, y2, z2, 0, 1, 1, 0, 2, 0)), (21int * mono6(x1, y1, z1, x2, y2, z2, 0, 0, 2, 0, 1, 1)), ((21int * mono6(x1, y1, z1, x2, y2, z2, 0, 1, 1, 0, 0, 2)) + (1int * mono6(x1, y1, z1, x2, y2, z2, 0, 1, 1, 0, 2, 0))));
    lemma_mul_is_distributive_add((1int * mono6(x1, y1, z1, x2, y2, z2, 0, 1, 1, 0, 2, 0)), (21int * mono6(x1, y1, z1, x2, y2, z2, 0, 1, 1, 0, 0, 2)), (1int * mono6(x1, y1, z1, x2, y2, z2, 0, 1, 1, 0, 2, 0)));
    lemma_mul_is_distributive_add((1int * mono6(x1, y1, z1, x2, y2, z2, 0, 1, 1, 0, 2, 0)), (1int * mono6(x1, y1, z1, x2, y2, z2, 0, 2, 0, 0, 1, 1)), ((3int * mono6(x1, y1, z1, x2, y2, z2, 1, 1, 0, 2, 0, 0)) + (3int * mono6(x1, y1, z1, x2, y2, z2, 2, 0, 0, 1, 1, 0))));
    lemma_mul_is_distributive_add((1int * mono6(x1, y1, z1, x2, y2, z2, 0, 1, 1, 0, 2, 0)), (3int * mono6(x1, y1, z1, x2, y2, z2, 1, 1, 0, 2, 0, 0)), (3int * mono6(x1, y1, z1, x2, y2, z2, 2, 0, 0, 1, 1, 0)));
    lemma_coefficient_product(1int, mono6(x1, y1, z1, x2, y2, z2, 0, 1, 1, 0, 2, 0), 21int, mono6(x1, y1, z1, x2, y2, z2, 0, 0, 2, 0, 1, 1));
    lemma_mono6_mul(x1, y1, z1, x2, y2, z2, 0, 1, 1, 0, 2, 0, 0, 0, 2, 0, 1, 1);
    lemma_coefficient_product(1int, mono6(x1, y1, z1, x2, y2, z2, 0, 1, 1, 0, 2, 0), 21int, mono6(x1, y1, z1, x2, y2, z2, 0, 1, 1, 0, 0, 2));
    lemma_mono6_mul(x1, y1, z1, x2, y2, z2, 0, 1, 1, 0, 2, 0, 0, 1, 1, 0, 0, 2);
    lemma_coefficient_product(1int, mono6(x1, y1, z1, x2, y2, z2, 0, 1, 1, 0, 2, 0), 1int, mono6(x1, y1, z1, x2, y2, z2, 0, 1, 1, 0, 2, 0));
    lemma_mono6_mul(x1, y1, z1, x2, y2, z2, 0, 1, 1, 0, 2, 0, 0, 1, 1, 0, 2, 0);
    lemma_coefficient_product(1int, mono6(x1, y1, z1, x2, y2, z2, 0, 1, 1, 0, 2, 0), 1int, mono6(x1, y1, z1, x2, y2, z2, 0, 2, 0, 0, 1, 1));
    lemma_mono6_mul(x1, y1, z1, x2, y2, z2, 0, 1, 1, 0, 2, 0, 0, 2, 0, 0, 1, 1);
    lemma_coefficient_product(1int, mono6(x1, y1, z1, x2, y2, z2, 0, 1, 1, 0, 2, 0), 3int, mono6(x1, y1, z1, x2, y2, z2, 1, 1, 0, 2, 0, 0));
    lemma_mono6_mul(x1, y1, z1, x2, y2, z2, 0, 1, 1, 0, 2, 0, 1, 1, 0, 2, 0, 0);
    lemma_coefficient_product(1int, mono6(x1, y1, z1, x2, y2, z2, 0, 1, 1, 0, 2, 0), 3int, mono6(x1, y1, z1, x2, y2, z2, 2, 0, 0, 1, 1, 0));
    lemma_mono6_mul(x1, y1, z1, x2, y2, z2, 0, 1, 1, 0, 2, 0, 2, 0, 0, 1, 1, 0);
    lemma_mul_is_distributive_add((1int * mono6(x1, y1, z1, x2, y2, z2, 0, 2, 0, 0, 1, 1)), ((21int * mono6(x1, y1, z1, x2, y2, z2, 0, 0, 2, 0, 1, 1)) + ((21int * mono6(x1, y1, z1, x2, y2, z2, 0, 1, 1, 0, 0, 2)) + (1int * mono6(x1, y1, z1, x2, y2, z2, 0, 1, 1, 0, 2, 0)))), ((1int * mono6(x1, y1, z1, x2, y2, z2, 0, 2, 0, 0, 1, 1)) + ((3int * mono6(x1, y1, z1, x2, y2, z2, 1, 1, 0, 2, 0, 0)) + (3int * mono6(x1, y1, z1, x2, y2, z2, 2, 0, 0, 1, 1, 0)))));
    lemma_mul_is_distributive_add((1int * mono6(x1, y1, z1, x2, y2, z2, 0, 2, 0, 0, 1, 1)), (21int * mono6(x1, y1, z1, x2, y2, z2, 0, 0, 2, 0, 1, 1)), ((21int * mono6(x1, y1, z1, x2, y2, z2, 0, 1, 1, 0, 0, 2)) + (1int * mono6(x1, y1, z1, x2, y2, z2, 0, 1, 1, 0, 2, 0))));
    lemma_mul_is_distributive_add((1int * mono6(x1, y1, z1, x2, y2, z2, 0, 2, 0, 0, 1, 1)), (21int * mono6(x1, y1, z1, x2, y2, z2, 0, 1, 1, 0, 0, 2)), (1int * mono6(x1, y1, z1, x2, y2, z2, 0, 1, 1, 0, 2, 0)));
    lemma_mul_is_distributive_add((1int * mono6(x1, y1, z1, x2, y2, z2, 0, 2, 0, 0, 1, 1)), (1int * mono6(x1, y1, z1, x2, y2, z2, 0, 2, 0, 0, 1, 1)), ((3int * mono6(x1, y1, z1, x2, y2, z2, 1, 1, 0, 2, 0, 0)) + (3int * mono6(x1, y1, z1, x2, y2, z2, 2, 0, 0, 1, 1, 0))));
    lemma_mul_is_distributive_add((1int * mono6(x1, y1, z1, x2, y2, z2, 0, 2, 0, 0, 1, 1)), (3int * mono6(x1, y1, z1, x2, y2, z2, 1, 1, 0, 2, 0, 0)), (3int * mono6(x1, y1, z1, x2, y2, z2, 2, 0, 0, 1, 1, 0)));
    lemma_coefficient_product(1int, mono6(x1, y1, z1, x2, y2, z2, 0, 2, 0, 0, 1, 1), 21int, mono6(x1, y1, z1, x2, y2, z2, 0, 0, 2, 0, 1, 1));
    lemma_mono6_mul(x1, y1, z1, x2, y2, z2, 0, 2, 0, 0, 1, 1, 0, 0, 2, 0, 1, 1);
    lemma_coefficient_product(1int, mono6(x1, y1, z1, x2, y2, z2, 0, 2, 0, 0, 1, 1), 21int, mono6(x1, y1, z1, x2, y2, z2, 0, 1, 1, 0, 0, 2));
    lemma_mono6_mul(x1, y1, z1, x2, y2, z2, 0, 2, 0, 0, 1, 1, 0, 1, 1, 0, 0, 2);
    lemma_coefficient_product(1int, mono6(x1, y1, z1, x2, y2, z2, 0, 2, 0, 0, 1, 1), 1int, mono6(x1, y1, z1, x2, y2, z2, 0, 1, 1, 0, 2, 0));
    lemma_mono6_mul(x1, y1, z1, x2, y2, z2, 0, 2, 0, 0, 1, 1, 0, 1, 1, 0, 2, 0);
    lemma_coefficient_product(1int, mono6(x1, y1, z1, x2, y2, z2, 0, 2, 0, 0, 1, 1), 1int, mono6(x1, y1, z1, x2, y2, z2, 0, 2, 0, 0, 1, 1));
    lemma_mono6_mul(x1, y1, z1, x2, y2, z2, 0, 2, 0, 0, 1, 1, 0, 2, 0, 0, 1, 1);
    lemma_coefficient_product(1int, mono6(x1, y1, z1, x2, y2, z2, 0, 2, 0, 0, 1, 1), 3int, mono6(x1, y1, z1, x2, y2, z2, 1, 1, 0, 2, 0, 0));
    lemma_mono6_mul(x1, y1, z1, x2, y2, z2, 0, 2, 0, 0, 1, 1, 1, 1, 0, 2, 0, 0);
    lemma_coefficient_product(1int, mono6(x1, y1, z1, x2, y2, z2, 0, 2, 0, 0, 1, 1), 3int, mono6(x1, y1, z1, x2, y2, z2, 2, 0, 0, 1, 1, 0));
    lemma_mono6_mul(x1, y1, z1, x2, y2, z2, 0, 2, 0, 0, 1, 1, 2, 0, 0, 1, 1, 0);
    lemma_mul_is_distributive_add((3int * mono6(x1, y1, z1, x2, y2, z2, 1, 1, 0, 2, 0, 0)), ((21int * mono6(x1, y1, z1, x2, y2, z2, 0, 0, 2, 0, 1, 1)) + ((21int * mono6(x1, y1, z1, x2, y2, z2, 0, 1, 1, 0, 0, 2)) + (1int * mono6(x1, y1, z1, x2, y2, z2, 0, 1, 1, 0, 2, 0)))), ((1int * mono6(x1, y1, z1, x2, y2, z2, 0, 2, 0, 0, 1, 1)) + ((3int * mono6(x1, y1, z1, x2, y2, z2, 1, 1, 0, 2, 0, 0)) + (3int * mono6(x1, y1, z1, x2, y2, z2, 2, 0, 0, 1, 1, 0)))));
    lemma_mul_is_distributive_add((3int * mono6(x1, y1, z1, x2, y2, z2, 1, 1, 0, 2, 0, 0)), (21int * mono6(x1, y1, z1, x2, y2, z2, 0, 0, 2, 0, 1, 1)), ((21int * mono6(x1, y1, z1, x2, y2, z2, 0, 1, 1, 0, 0, 2)) + (1int * mono6(x1, y1, z1, x2, y2, z2, 0, 1, 1, 0, 2, 0))));
    lemma_mul_is_distributive_add((3int * mono6(x1, y1, z1, x2, y2, z2, 1, 1, 0, 2, 0, 0)), (21int * mono6(x1, y1, z1, x2, y2, z2, 0, 1, 1, 0, 0, 2)), (1int * mono6(x1, y1, z1, x2, y2, z2, 0, 1, 1, 0, 2, 0)));
    lemma_mul_is_distributive_add((3int * mono6(x1, y1, z1, x2, y2, z2, 1, 1, 0, 2, 0, 0)), (1int * mono6(x1, y1, z1, x2, y2, z2, 0, 2, 0, 0, 1, 1)), ((3int * mono6(x1, y1, z1, x2, y2, z2, 1, 1, 0, 2, 0, 0)) + (3int * mono6(x1, y1, z1, x2, y2, z2, 2, 0, 0, 1, 1, 0))));
    lemma_mul_is_distributive_add((3int * mono6(x1, y1, z1, x2, y2, z2, 1, 1, 0, 2, 0, 0)), (3int * mono6(x1, y1, z1, x2, y2, z2, 1, 1, 0, 2, 0, 0)), (3int * mono6(x1, y1, z1, x2, y2, z2, 2, 0, 0, 1, 1, 0)));
    lemma_coefficient_product(3int, mono6(x1, y1, z1, x2, y2, z2, 1, 1, 0, 2, 0, 0), 21int, mono6(x1, y1, z1, x2, y2, z2, 0, 0, 2, 0, 1, 1));
    lemma_mono6_mul(x1, y1, z1, x2, y2, z2, 1, 1, 0, 2, 0, 0, 0, 0, 2, 0, 1, 1);
    lemma_coefficient_product(3int, mono6(x1, y1, z1, x2, y2, z2, 1, 1, 0, 2, 0, 0), 21int, mono6(x1, y1, z1, x2, y2, z2, 0, 1, 1, 0, 0, 2));
    lemma_mono6_mul(x1, y1, z1, x2, y2, z2, 1, 1, 0, 2, 0, 0, 0, 1, 1, 0, 0, 2);
    lemma_coefficient_product(3int, mono6(x1, y1, z1, x2, y2, z2, 1, 1, 0, 2, 0, 0), 1int, mono6(x1, y1, z1, x2, y2, z2, 0, 1, 1, 0, 2, 0));
    lemma_mono6_mul(x1, y1, z1, x2, y2, z2, 1, 1, 0, 2, 0, 0, 0, 1, 1, 0, 2, 0);
    lemma_coefficient_product(3int, mono6(x1, y1, z1, x2, y2, z2, 1, 1, 0, 2, 0, 0), 1int, mono6(x1, y1, z1, x2, y2, z2, 0, 2, 0, 0, 1, 1));
    lemma_mono6_mul(x1, y1, z1, x2, y2, z2, 1, 1, 0, 2, 0, 0, 0, 2, 0, 0, 1, 1);
    lemma_coefficient_product(3int, mono6(x1, y1, z1, x2, y2, z2, 1, 1, 0, 2, 0, 0), 3int, mono6(x1, y1, z1, x2, y2, z2, 1, 1, 0, 2, 0, 0));
    lemma_mono6_mul(x1, y1, z1, x2, y2, z2, 1, 1, 0, 2, 0, 0, 1, 1, 0, 2, 0, 0);
    lemma_coefficient_product(3int, mono6(x1, y1, z1, x2, y2, z2, 1, 1, 0, 2, 0, 0), 3int, mono6(x1, y1, z1, x2, y2, z2, 2, 0, 0, 1, 1, 0));
    lemma_mono6_mul(x1, y1, z1, x2, y2, z2, 1, 1, 0, 2, 0, 0, 2, 0, 0, 1, 1, 0);
    lemma_mul_is_distributive_add((3int * mono6(x1, y1, z1, x2, y2, z2, 2, 0, 0, 1, 1, 0)), ((21int * mono6(x1, y1, z1, x2, y2, z2, 0, 0, 2, 0, 1, 1)) + ((21int * mono6(x1, y1, z1, x2, y2, z2, 0, 1, 1, 0, 0, 2)) + (1int * mono6(x1, y1, z1, x2, y2, z2, 0, 1, 1, 0, 2, 0)))), ((1int * mono6(x1, y1, z1, x2, y2, z2, 0, 2, 0, 0, 1, 1)) + ((3int * mono6(x1, y1, z1, x2, y2, z2, 1, 1, 0, 2, 0, 0)) + (3int * mono6(x1, y1, z1, x2, y2, z2, 2, 0, 0, 1, 1, 0)))));
    lemma_mul_is_distributive_add((3int * mono6(x1, y1, z1, x2, y2, z2, 2, 0, 0, 1, 1, 0)), (21int * mono6(x1, y1, z1, x2, y2, z2, 0, 0, 2, 0, 1, 1)), ((21int * mono6(x1, y1, z1, x2, y2, z2, 0, 1, 1, 0, 0, 2)) + (1int * mono6(x1, y1, z1, x2, y2, z2, 0, 1, 1, 0, 2, 0))));
    lemma_mul_is_distributive_add((3int * mono6(x1, y1, z1, x2, y2, z2, 2, 0, 0, 1, 1, 0)), (21int * mono6(x1, y1, z1, x2, y2, z2, 0, 1, 1, 0, 0, 2)), (1int * mono6(x1, y1, z1, x2, y2, z2, 0, 1, 1, 0, 2, 0)));
    lemma_mul_is_distributive_add((3int * mono6(x1, y1, z1, x2, y2, z2, 2, 0, 0, 1, 1, 0)), (1int * mono6(x1, y1, z1, x2, y2, z2, 0, 2, 0, 0, 1, 1)), ((3int * mono6(x1, y1, z1, x2, y2, z2, 1, 1, 0, 2, 0, 0)) + (3int * mono6(x1, y1, z1, x2, y2, z2, 2, 0, 0, 1, 1, 0))));
    lemma_mul_is_distributive_add((3int * mono6(x1, y1, z1, x2, y2, z2, 2, 0, 0, 1, 1, 0)), (3int * mono6(x1, y1, z1, x2, y2, z2, 1, 1, 0, 2, 0, 0)), (3int * mono6(x1, y1, z1, x2, y2, z2, 2, 0, 0, 1, 1, 0)));
    lemma_coefficient_product(3int, mono6(x1, y1, z1, x2, y2, z2, 2, 0, 0, 1, 1, 0), 21int, mono6(x1, y1, z1, x2, y2, z2, 0, 0, 2, 0, 1, 1));
    lemma_mono6_mul(x1, y1, z1, x2, y2, z2, 2, 0, 0, 1, 1, 0, 0, 0, 2, 0, 1, 1);
    lemma_coefficient_product(3int, mono6(x1, y1, z1, x2, y2, z2, 2, 0, 0, 1, 1, 0), 21int, mono6(x1, y1, z1, x2, y2, z2, 0, 1, 1, 0, 0, 2));
    lemma_mono6_mul(x1, y1, z1, x2, y2, z2, 2, 0, 0, 1, 1, 0, 0, 1, 1, 0, 0, 2);
    lemma_coefficient_product(3int, mono6(x1, y1, z1, x2, y2, z2, 2, 0, 0, 1, 1, 0), 1int, mono6(x1, y1, z1, x2, y2, z2, 0, 1, 1, 0, 2, 0));
    lemma_mono6_mul(x1, y1, z1, x2, y2, z2, 2, 0, 0, 1, 1, 0, 0, 1, 1, 0, 2, 0);
    lemma_coefficient_product(3int, mono6(x1, y1, z1, x2, y2, z2, 2, 0, 0, 1, 1, 0), 1int, mono6(x1, y1, z1, x2, y2, z2, 0, 2, 0, 0, 1, 1));
    lemma_mono6_mul(x1, y1, z1, x2, y2, z2, 2, 0, 0, 1, 1, 0, 0, 2, 0, 0, 1, 1);
    lemma_coefficient_product(3int, mono6(x1, y1, z1, x2, y2, z2, 2, 0, 0, 1, 1, 0), 3int, mono6(x1, y1, z1, x2, y2, z2, 1, 1, 0, 2, 0, 0));
    lemma_mono6_mul(x1, y1, z1, x2, y2, z2, 2, 0, 0, 1, 1, 0, 1, 1, 0, 2, 0, 0);
    lemma_coefficient_product(3int, mono6(x1, y1, z1, x2, y2, z2, 2, 0, 0, 1, 1, 0), 3int, mono6(x1, y1, z1, x2, y2, z2, 2, 0, 0, 1, 1, 0));
    lemma_mono6_mul(x1, y1, z1, x2, y2, z2, 2, 0, 0, 1, 1, 0, 2, 0, 0, 1, 1, 0);
    assert((((((y1 * z2) + (z1 * y2)) * ((y1 * y2) + (21 * (z1 * z2)))) + ((3 * (x1 * x2)) * ((x1 * y2) + (y1 * x2)))) * ((((y1 * z2) + (z1 * y2)) * ((y1 * y2) + (21 * (z1 * z2)))) + ((3 * (x1 * x2)) * ((x1 * y2) + (y1 * x2))))) == (((((441int * mono6(x1, y1, z1, x2, y2, z2, 0, 0, 4, 0, 2, 2)) + (882int * mono6(x1, y1, z1, x2, y2, z2, 0, 1, 3, 0, 1, 3))) + ((42int * mono6(x1, y1, z1, x2, y2, z2, 0, 1, 3, 0, 3, 1)) + ((441int * mono6(x1, y1, z1, x2, y2, z2, 0, 2, 2, 0, 0, 4)) + (84int * mono6(x1, y1, z1, x2, y2, z2, 0, 2, 2, 0, 2, 2))))) + (((1int * mono6(x1, y1, z1, x2, y2, z2, 0, 2, 2, 0, 4, 0)) + (42int * mono6(x1, y1, z1, x2, y2, z2, 0, 3, 1, 0, 1, 3))) + ((2int * mono6(x1, y1, z1, x2, y2, z2, 0, 3, 1, 0, 3, 1)) + ((1int * mono6(x1, y1, z1, x2, y2, z2, 0, 4, 0, 0, 2, 2)) + (126int * mono6(x1, y1, z1, x2, y2, z2, 1, 1, 2, 2, 1, 1)))))) + ((((126int * mono6(x1, y1, z1, x2, y2, z2, 1, 2, 1, 2, 0, 2)) + (6int * mono6(x1, y1, z1, x2, y2, z2, 1, 2, 1, 2, 2, 0))) + ((6int * mono6(x1, y1, z1, x2, y2, z2, 1, 3, 0, 2, 1, 1)) + ((126int * mono6(x1, y1, z1, x2, y2, z2, 2, 0, 2, 1, 2, 1)) + (126int * mono6(x1, y1, z1, x2, y2, z2, 2, 1, 1, 1, 1, 2))))) + (((6int * mono6(x1, y1, z1, x2, y2, z2, 2, 1, 1, 1, 3, 0)) + (6int * mono6(x1, y1, z1, x2, y2, z2, 2, 2, 0, 1, 2, 1))) + ((9int * mono6(x1, y1, z1, x2, y2, z2, 2, 2, 0, 4, 0, 0)) + ((18int * mono6(x1, y1, z1, x2, y2, z2, 3, 1, 0, 3, 1, 0)) + (9int * mono6(x1, y1, z1, x2, y2, z2, 4, 0, 0, 2, 2, 0))))))));
    assert(y1 == (1int * mono6(x1, y1, z1, x2, y2, z2, 0, 1, 0, 0, 0, 0)));
    assert(z2 == (1int * mono6(x1, y1, z1, x2, y2, z2, 0, 0, 0, 0, 0, 1)));
    assert((y1 * z2) == (1int * mono6(x1, y1, z1, x2, y2, z2, 0, 1, 0, 0, 0, 0)) * (1int * mono6(x1, y1, z1, x2, y2, z2, 0, 0, 0, 0, 0, 1)));
    lemma_coefficient_product(1int, mono6(x1, y1, z1, x2, y2, z2, 0, 1, 0, 0, 0, 0), 1int, mono6(x1, y1, z1, x2, y2, z2, 0, 0, 0, 0, 0, 1));
    lemma_mono6_mul(x1, y1, z1, x2, y2, z2, 0, 1, 0, 0, 0, 0, 0, 0, 0, 0, 0, 1);
    assert((y1 * z2) == (1int * mono6(x1, y1, z1, x2, y2, z2, 0, 1, 0, 0, 0, 1)));
    assert(z1 == (1int * mono6(x1, y1, z1, x2, y2, z2, 0, 0, 1, 0, 0, 0)));
    assert(y2 == (1int * mono6(x1, y1, z1, x2, y2, z2, 0, 0, 0, 0, 1, 0)));
    assert((z1 * y2) == (1int * mono6(x1, y1, z1, x2, y2, z2, 0, 0, 1, 0, 0, 0)) * (1int * mono6(x1, y1, z1, x2, y2, z2, 0, 0, 0, 0, 1, 0)));
    lemma_coefficient_product(1int, mono6(x1, y1, z1, x2, y2, z2, 0, 0, 1, 0, 0, 0), 1int, mono6(x1, y1, z1, x2, y2, z2, 0, 0, 0, 0, 1, 0));
    lemma_mono6_mul(x1, y1, z1, x2, y2, z2, 0, 0, 1, 0, 0, 0, 0, 0, 0, 0, 1, 0);
    assert((z1 * y2) == (1int * mono6(x1, y1, z1, x2, y2, z2, 0, 0, 1, 0, 1, 0)));
    assert(((y1 * z2) + (z1 * y2)) == ((1int * mono6(x1, y1, z1, x2, y2, z2, 0, 0, 1, 0, 1, 0)) + (1int * mono6(x1, y1, z1, x2, y2, z2, 0, 1, 0, 0, 0, 1))));
    assert(y1 == (1int * mono6(x1, y1, z1, x2, y2, z2, 0, 1, 0, 0, 0, 0)));
    assert(y2 == (1int * mono6(x1, y1, z1, x2, y2, z2, 0, 0, 0, 0, 1, 0)));
    assert((y1 * y2) == (1int * mono6(x1, y1, z1, x2, y2, z2, 0, 1, 0, 0, 0, 0)) * (1int * mono6(x1, y1, z1, x2, y2, z2, 0, 0, 0, 0, 1, 0)));
    lemma_coefficient_product(1int, mono6(x1, y1, z1, x2, y2, z2, 0, 1, 0, 0, 0, 0), 1int, mono6(x1, y1, z1, x2, y2, z2, 0, 0, 0, 0, 1, 0));
    lemma_mono6_mul(x1, y1, z1, x2, y2, z2, 0, 1, 0, 0, 0, 0, 0, 0, 0, 0, 1, 0);
    assert((y1 * y2) == (1int * mono6(x1, y1, z1, x2, y2, z2, 0, 1, 0, 0, 1, 0)));
    assert(21 == (21int * mono6(x1, y1, z1, x2, y2, z2, 0, 0, 0, 0, 0, 0)));
    assert(z1 == (1int * mono6(x1, y1, z1, x2, y2, z2, 0, 0, 1, 0, 0, 0)));
    assert(z2 == (1int * mono6(x1, y1, z1, x2, y2, z2, 0, 0, 0, 0, 0, 1)));
    assert((z1 * z2) == (1int * mono6(x1, y1, z1, x2, y2, z2, 0, 0, 1, 0, 0, 0)) * (1int * mono6(x1, y1, z1, x2, y2, z2, 0, 0, 0, 0, 0, 1)));
    lemma_coefficient_product(1int, mono6(x1, y1, z1, x2, y2, z2, 0, 0, 1, 0, 0, 0), 1int, mono6(x1, y1, z1, x2, y2, z2, 0, 0, 0, 0, 0, 1));
    lemma_mono6_mul(x1, y1, z1, x2, y2, z2, 0, 0, 1, 0, 0, 0, 0, 0, 0, 0, 0, 1);
    assert((z1 * z2) == (1int * mono6(x1, y1, z1, x2, y2, z2, 0, 0, 1, 0, 0, 1)));
    assert((21 * (z1 * z2)) == (21int * mono6(x1, y1, z1, x2, y2, z2, 0, 0, 0, 0, 0, 0)) * (1int * mono6(x1, y1, z1, x2, y2, z2, 0, 0, 1, 0, 0, 1)));
    lemma_coefficient_product(21int, mono6(x1, y1, z1, x2, y2, z2, 0, 0, 0, 0, 0, 0), 1int, mono6(x1, y1, z1, x2, y2, z2, 0, 0, 1, 0, 0, 1));
    lemma_mono6_mul(x1, y1, z1, x2, y2, z2, 0, 0, 0, 0, 0, 0, 0, 0, 1, 0, 0, 1);
    assert((21 * (z1 * z2)) == (21int * mono6(x1, y1, z1, x2, y2, z2, 0, 0, 1, 0, 0, 1)));
    assert(((y1 * y2) + (21 * (z1 * z2))) == ((21int * mono6(x1, y1, z1, x2, y2, z2, 0, 0, 1, 0, 0, 1)) + (1int * mono6(x1, y1, z1, x2, y2, z2, 0, 1, 0, 0, 1, 0))));
    assert((((y1 * z2) + (z1 * y2)) * ((y1 * y2) + (21 * (z1 * z2)))) == ((1int * mono6(x1, y1, z1, x2, y2, z2, 0, 0, 1, 0, 1, 0)) + (1int * mono6(x1, y1, z1, x2, y2, z2, 0, 1, 0, 0, 0, 1))) * ((21int * mono6(x1, y1, z1, x2, y2, z2, 0, 0, 1, 0, 0, 1)) + (1int * mono6(x1, y1, z1, x2, y2, z2, 0, 1, 0, 0, 1, 0))));
    lemma_mul_is_distributive_add_other_way(((21int * mono6(x1, y1, z1, x2, y2, z2, 0, 0, 1, 0, 0, 1)) + (1int * mono6(x1, y1, z1, x2, y2, z2, 0, 1, 0, 0, 1, 0))), (1int * mono6(x1, y1, z1, x2, y2, z2, 0, 0, 1, 0, 1, 0)), (1int * mono6(x1, y1, z1, x2, y2, z2, 0, 1, 0, 0, 0, 1)));
    lemma_mul_is_distributive_add((1int * mono6(x1, y1, z1, x2, y2, z2, 0, 0, 1, 0, 1, 0)), (21int * mono6(x1, y1, z1, x2, y2, z2, 0, 0, 1, 0, 0, 1)), (1int * mono6(x1, y1, z1, x2, y2, z2, 0, 1, 0, 0, 1, 0)));
    lemma_coefficient_product(1int, mono6(x1, y1, z1, x2, y2, z2, 0, 0, 1, 0, 1, 0), 21int, mono6(x1, y1, z1, x2, y2, z2, 0, 0, 1, 0, 0, 1));
    lemma_mono6_mul(x1, y1, z1, x2, y2, z2, 0, 0, 1, 0, 1, 0, 0, 0, 1, 0, 0, 1);
    lemma_coefficient_product(1int, mono6(x1, y1, z1, x2, y2, z2, 0, 0, 1, 0, 1, 0), 1int, mono6(x1, y1, z1, x2, y2, z2, 0, 1, 0, 0, 1, 0));
    lemma_mono6_mul(x1, y1, z1, x2, y2, z2, 0, 0, 1, 0, 1, 0, 0, 1, 0, 0, 1, 0);
    lemma_mul_is_distributive_add((1int * mono6(x1, y1, z1, x2, y2, z2, 0, 1, 0, 0, 0, 1)), (21int * mono6(x1, y1, z1, x2, y2, z2, 0, 0, 1, 0, 0, 1)), (1int * mono6(x1, y1, z1, x2, y2, z2, 0, 1, 0, 0, 1, 0)));
    lemma_coefficient_product(1int, mono6(x1, y1, z1, x2, y2, z2, 0, 1, 0, 0, 0, 1), 21int, mono6(x1, y1, z1, x2, y2, z2, 0, 0, 1, 0, 0, 1));
    lemma_mono6_mul(x1, y1, z1, x2, y2, z2, 0, 1, 0, 0, 0, 1, 0, 0, 1, 0, 0, 1);
    lemma_coefficient_product(1int, mono6(x1, y1, z1, x2, y2, z2, 0, 1, 0, 0, 0, 1), 1int, mono6(x1, y1, z1, x2, y2, z2, 0, 1, 0, 0, 1, 0));
    lemma_mono6_mul(x1, y1, z1, x2, y2, z2, 0, 1, 0, 0, 0, 1, 0, 1, 0, 0, 1, 0);
    assert((((y1 * z2) + (z1 * y2)) * ((y1 * y2) + (21 * (z1 * z2)))) == (((21int * mono6(x1, y1, z1, x2, y2, z2, 0, 0, 2, 0, 1, 1)) + (21int * mono6(x1, y1, z1, x2, y2, z2, 0, 1, 1, 0, 0, 2))) + ((1int * mono6(x1, y1, z1, x2, y2, z2, 0, 1, 1, 0, 2, 0)) + (1int * mono6(x1, y1, z1, x2, y2, z2, 0, 2, 0, 0, 1, 1)))));
    assert(3 == (3int * mono6(x1, y1, z1, x2, y2, z2, 0, 0, 0, 0, 0, 0)));
    assert(x1 == (1int * mono6(x1, y1, z1, x2, y2, z2, 1, 0, 0, 0, 0, 0)));
    assert(x2 == (1int * mono6(x1, y1, z1, x2, y2, z2, 0, 0, 0, 1, 0, 0)));
    assert((x1 * x2) == (1int * mono6(x1, y1, z1, x2, y2, z2, 1, 0, 0, 0, 0, 0)) * (1int * mono6(x1, y1, z1, x2, y2, z2, 0, 0, 0, 1, 0, 0)));
    lemma_coefficient_product(1int, mono6(x1, y1, z1, x2, y2, z2, 1, 0, 0, 0, 0, 0), 1int, mono6(x1, y1, z1, x2, y2, z2, 0, 0, 0, 1, 0, 0));
    lemma_mono6_mul(x1, y1, z1, x2, y2, z2, 1, 0, 0, 0, 0, 0, 0, 0, 0, 1, 0, 0);
    assert((x1 * x2) == (1int * mono6(x1, y1, z1, x2, y2, z2, 1, 0, 0, 1, 0, 0)));
    assert((3 * (x1 * x2)) == (3int * mono6(x1, y1, z1, x2, y2, z2, 0, 0, 0, 0, 0, 0)) * (1int * mono6(x1, y1, z1, x2, y2, z2, 1, 0, 0, 1, 0, 0)));
    lemma_coefficient_product(3int, mono6(x1, y1, z1, x2, y2, z2, 0, 0, 0, 0, 0, 0), 1int, mono6(x1, y1, z1, x2, y2, z2, 1, 0, 0, 1, 0, 0));
    lemma_mono6_mul(x1, y1, z1, x2, y2, z2, 0, 0, 0, 0, 0, 0, 1, 0, 0, 1, 0, 0);
    assert((3 * (x1 * x2)) == (3int * mono6(x1, y1, z1, x2, y2, z2, 1, 0, 0, 1, 0, 0)));
    assert(x1 == (1int * mono6(x1, y1, z1, x2, y2, z2, 1, 0, 0, 0, 0, 0)));
    assert(y2 == (1int * mono6(x1, y1, z1, x2, y2, z2, 0, 0, 0, 0, 1, 0)));
    assert((x1 * y2) == (1int * mono6(x1, y1, z1, x2, y2, z2, 1, 0, 0, 0, 0, 0)) * (1int * mono6(x1, y1, z1, x2, y2, z2, 0, 0, 0, 0, 1, 0)));
    lemma_coefficient_product(1int, mono6(x1, y1, z1, x2, y2, z2, 1, 0, 0, 0, 0, 0), 1int, mono6(x1, y1, z1, x2, y2, z2, 0, 0, 0, 0, 1, 0));
    lemma_mono6_mul(x1, y1, z1, x2, y2, z2, 1, 0, 0, 0, 0, 0, 0, 0, 0, 0, 1, 0);
    assert((x1 * y2) == (1int * mono6(x1, y1, z1, x2, y2, z2, 1, 0, 0, 0, 1, 0)));
    assert(y1 == (1int * mono6(x1, y1, z1, x2, y2, z2, 0, 1, 0, 0, 0, 0)));
    assert(x2 == (1int * mono6(x1, y1, z1, x2, y2, z2, 0, 0, 0, 1, 0, 0)));
    assert((y1 * x2) == (1int * mono6(x1, y1, z1, x2, y2, z2, 0, 1, 0, 0, 0, 0)) * (1int * mono6(x1, y1, z1, x2, y2, z2, 0, 0, 0, 1, 0, 0)));
    lemma_coefficient_product(1int, mono6(x1, y1, z1, x2, y2, z2, 0, 1, 0, 0, 0, 0), 1int, mono6(x1, y1, z1, x2, y2, z2, 0, 0, 0, 1, 0, 0));
    lemma_mono6_mul(x1, y1, z1, x2, y2, z2, 0, 1, 0, 0, 0, 0, 0, 0, 0, 1, 0, 0);
    assert((y1 * x2) == (1int * mono6(x1, y1, z1, x2, y2, z2, 0, 1, 0, 1, 0, 0)));
    assert(((x1 * y2) + (y1 * x2)) == ((1int * mono6(x1, y1, z1, x2, y2, z2, 0, 1, 0, 1, 0, 0)) + (1int * mono6(x1, y1, z1, x2, y2, z2, 1, 0, 0, 0, 1, 0))));
    assert(((3 * (x1 * x2)) * ((x1 * y2) + (y1 * x2))) == (3int * mono6(x1, y1, z1, x2, y2, z2, 1, 0, 0, 1, 0, 0)) * ((1int * mono6(x1, y1, z1, x2, y2, z2, 0, 1, 0, 1, 0, 0)) + (1int * mono6(x1, y1, z1, x2, y2, z2, 1, 0, 0, 0, 1, 0))));
    lemma_mul_is_distributive_add((3int * mono6(x1, y1, z1, x2, y2, z2, 1, 0, 0, 1, 0, 0)), (1int * mono6(x1, y1, z1, x2, y2, z2, 0, 1, 0, 1, 0, 0)), (1int * mono6(x1, y1, z1, x2, y2, z2, 1, 0, 0, 0, 1, 0)));
    lemma_coefficient_product(3int, mono6(x1, y1, z1, x2, y2, z2, 1, 0, 0, 1, 0, 0), 1int, mono6(x1, y1, z1, x2, y2, z2, 0, 1, 0, 1, 0, 0));
    lemma_mono6_mul(x1, y1, z1, x2, y2, z2, 1, 0, 0, 1, 0, 0, 0, 1, 0, 1, 0, 0);
    lemma_coefficient_product(3int, mono6(x1, y1, z1, x2, y2, z2, 1, 0, 0, 1, 0, 0), 1int, mono6(x1, y1, z1, x2, y2, z2, 1, 0, 0, 0, 1, 0));
    lemma_mono6_mul(x1, y1, z1, x2, y2, z2, 1, 0, 0, 1, 0, 0, 1, 0, 0, 0, 1, 0);
    assert(((3 * (x1 * x2)) * ((x1 * y2) + (y1 * x2))) == ((3int * mono6(x1, y1, z1, x2, y2, z2, 1, 1, 0, 2, 0, 0)) + (3int * mono6(x1, y1, z1, x2, y2, z2, 2, 0, 0, 1, 1, 0))));
    assert(((((y1 * z2) + (z1 * y2)) * ((y1 * y2) + (21 * (z1 * z2)))) + ((3 * (x1 * x2)) * ((x1 * y2) + (y1 * x2)))) == (((21int * mono6(x1, y1, z1, x2, y2, z2, 0, 0, 2, 0, 1, 1)) + ((21int * mono6(x1, y1, z1, x2, y2, z2, 0, 1, 1, 0, 0, 2)) + (1int * mono6(x1, y1, z1, x2, y2, z2, 0, 1, 1, 0, 2, 0)))) + ((1int * mono6(x1, y1, z1, x2, y2, z2, 0, 2, 0, 0, 1, 1)) + ((3int * mono6(x1, y1, z1, x2, y2, z2, 1, 1, 0, 2, 0, 0)) + (3int * mono6(x1, y1, z1, x2, y2, z2, 2, 0, 0, 1, 1, 0))))));
    lemma_add_curve_identity_part3_mul_3(x1, y1, z1, x2, y2, z2);
    lemma_add_curve_identity_part3_mul_4(x1, y1, z1, x2, y2, z2);
    assert(((((((y1 * z2) + (z1 * y2)) * ((y1 * y2) + (21 * (z1 * z2)))) + ((3 * (x1 * x2)) * ((x1 * y2) + (y1 * x2)))) * ((((y1 * z2) + (z1 * y2)) * ((y1 * y2) + (21 * (z1 * z2)))) + ((3 * (x1 * x2)) * ((x1 * y2) + (y1 * x2))))) * ((((y1 * z2) + (z1 * y2)) * ((y1 * y2) + (21 * (z1 * z2)))) + ((3 * (x1 * x2)) * ((x1 * y2) + (y1 * x2))))) == ((((((441int * mono6(x1, y1, z1, x2, y2, z2, 0, 0, 4, 0, 2, 2)) + (882int * mono6(x1, y1, z1, x2, y2, z2, 0, 1, 3, 0, 1, 3))) + ((42int * mono6(x1, y1, z1, x2, y2, z2, 0, 1, 3, 0, 3, 1)) + (441int * mono6(x1, y1, z1, x2, y2, z2, 0, 2, 2, 0, 0, 4)))) + (((84int * mono6(x1, y1, z1, x2, y2, z2, 0, 2, 2, 0, 2, 2)) + (1int * mono6(x1, y1, z1, x2, y2, z2, 0, 2, 2, 0, 4, 0))) + ((42int * mono6(x1, y1, z1, x2, y2, z2, 0, 3, 1, 0, 1, 3)) + (2int * mono6(x1, y1, z1, x2, y2, z2, 0, 3, 1, 0, 3, 1))))) + ((((1int * mono6(x1, y1, z1, x2, y2, z2, 0, 4, 0, 0, 2, 2)) + (126int * mono6(x1, y1, z1, x2, y2, z2, 1, 1, 2, 2, 1, 1))) + ((126int * mono6(x1, y1, z1, x2, y2, z2, 1, 2, 1, 2, 0, 2)) + (6int * mono6(x1, y1, z1, x2, y2, z2, 1, 2, 1, 2, 2, 0)))) + (((6int * mono6(x1, y1, z1, x2, y2, z2, 1, 3, 0, 2, 1, 1)) + (126int * mono6(x1, y1, z1, x2, y2, z2, 2, 0, 2, 1, 2, 1))) + ((126int * mono6(x1, y1, z1, x2, y2, z2, 2, 1, 1, 1, 1, 2)) + (6int * mono6(x1, y1, z1, x2, y2, z2, 2, 1, 1, 1, 3, 0)))))) + (((6int * mono6(x1, y1, z1, x2, y2, z2, 2, 2, 0, 1, 2, 1)) + (9int * mono6(x1, y1, z1, x2, y2, z2, 2, 2, 0, 4, 0, 0))) + ((18int * mono6(x1, y1, z1, x2, y2, z2, 3, 1, 0, 3, 1, 0)) + (9int * mono6(x1, y1, z1, x2, y2, z2, 4, 0, 0, 2, 2, 0))))) * (((21int * mono6(x1, y1, z1, x2, y2, z2, 0, 0, 2, 0, 1, 1)) + ((21int * mono6(x1, y1, z1, x2, y2, z2, 0, 1, 1, 0, 0, 2)) + (1int * mono6(x1, y1, z1, x2, y2, z2, 0, 1, 1, 0, 2, 0)))) + ((1int * mono6(x1, y1, z1, x2, y2, z2, 0, 2, 0, 0, 1, 1)) + ((3int * mono6(x1, y1, z1, x2, y2, z2, 1, 1, 0, 2, 0, 0)) + (3int * mono6(x1, y1, z1, x2, y2, z2, 2, 0, 0, 1, 1, 0))))));
    lemma_mul_is_distributive_add_other_way((((21int * mono6(x1, y1, z1, x2, y2, z2, 0, 0, 2, 0, 1, 1)) + ((21int * mono6(x1, y1, z1, x2, y2, z2, 0, 1, 1, 0, 0, 2)) + (1int * mono6(x1, y1, z1, x2, y2, z2, 0, 1, 1, 0, 2, 0)))) + ((1int * mono6(x1, y1, z1, x2, y2, z2, 0, 2, 0, 0, 1, 1)) + ((3int * mono6(x1, y1, z1, x2, y2, z2, 1, 1, 0, 2, 0, 0)) + (3int * mono6(x1, y1, z1, x2, y2, z2, 2, 0, 0, 1, 1, 0))))), (((((441int * mono6(x1, y1, z1, x2, y2, z2, 0, 0, 4, 0, 2, 2)) + (882int * mono6(x1, y1, z1, x2, y2, z2, 0, 1, 3, 0, 1, 3))) + ((42int * mono6(x1, y1, z1, x2, y2, z2, 0, 1, 3, 0, 3, 1)) + (441int * mono6(x1, y1, z1, x2, y2, z2, 0, 2, 2, 0, 0, 4)))) + (((84int * mono6(x1, y1, z1, x2, y2, z2, 0, 2, 2, 0, 2, 2)) + (1int * mono6(x1, y1, z1, x2, y2, z2, 0, 2, 2, 0, 4, 0))) + ((42int * mono6(x1, y1, z1, x2, y2, z2, 0, 3, 1, 0, 1, 3)) + (2int * mono6(x1, y1, z1, x2, y2, z2, 0, 3, 1, 0, 3, 1))))) + ((((1int * mono6(x1, y1, z1, x2, y2, z2, 0, 4, 0, 0, 2, 2)) + (126int * mono6(x1, y1, z1, x2, y2, z2, 1, 1, 2, 2, 1, 1))) + ((126int * mono6(x1, y1, z1, x2, y2, z2, 1, 2, 1, 2, 0, 2)) + (6int * mono6(x1, y1, z1, x2, y2, z2, 1, 2, 1, 2, 2, 0)))) + (((6int * mono6(x1, y1, z1, x2, y2, z2, 1, 3, 0, 2, 1, 1)) + (126int * mono6(x1, y1, z1, x2, y2, z2, 2, 0, 2, 1, 2, 1))) + ((126int * mono6(x1, y1, z1, x2, y2, z2, 2, 1, 1, 1, 1, 2)) + (6int * mono6(x1, y1, z1, x2, y2, z2, 2, 1, 1, 1, 3, 0)))))), (((6int * mono6(x1, y1, z1, x2, y2, z2, 2, 2, 0, 1, 2, 1)) + (9int * mono6(x1, y1, z1, x2, y2, z2, 2, 2, 0, 4, 0, 0))) + ((18int * mono6(x1, y1, z1, x2, y2, z2, 3, 1, 0, 3, 1, 0)) + (9int * mono6(x1, y1, z1, x2, y2, z2, 4, 0, 0, 2, 2, 0)))));
    assert(((((((y1 * z2) + (z1 * y2)) * ((y1 * y2) + (21 * (z1 * z2)))) + ((3 * (x1 * x2)) * ((x1 * y2) + (y1 * x2)))) * ((((y1 * z2) + (z1 * y2)) * ((y1 * y2) + (21 * (z1 * z2)))) + ((3 * (x1 * x2)) * ((x1 * y2) + (y1 * x2))))) * ((((y1 * z2) + (z1 * y2)) * ((y1 * y2) + (21 * (z1 * z2)))) + ((3 * (x1 * x2)) * ((x1 * y2) + (y1 * x2))))) == ((((((9261int * mono6(x1, y1, z1, x2, y2, z2, 0, 0, 6, 0, 3, 3)) + ((27783int * mono6(x1, y1, z1, x2, y2, z2, 0, 1, 5, 0, 2, 4)) + (1323int * mono6(x1, y1, z1, x2, y2, z2, 0, 1, 5, 0, 4, 2)))) + ((27783int * mono6(x1, y1, z1, x2, y2, z2, 0, 2, 4, 0, 1, 5)) + ((3969int * mono6(x1, y1, z1, x2, y2, z2, 0, 2, 4, 0, 3, 3)) + (63int * mono6(x1, y1, z1, x2, y2, z2, 0, 2, 4, 0, 5, 1))))) + (((9261int * mono6(x1, y1, z1, x2, y2, z2, 0, 3, 3, 0, 0, 6)) + ((3969int * mono6(x1, y1, z1, x2, y2, z2, 0, 3, 3, 0, 2, 4)) + (189int * mono6(x1, y1, z1, x2, y2, z2, 0, 3, 3, 0, 4, 2)))) + ((1int * mono6(x1, y1, z1, x2, y2, z2, 0, 3, 3, 0, 6, 0)) + ((1323int * mono6(x1, y1, z1, x2, y2, z2, 0, 4, 2, 0, 1, 5)) + (189int * mono6(x1, y1, z1, x2, y2, z2, 0, 4, 2, 0, 3, 3)))))) + ((((3int * mono6(x1, y1, z1, x2, y2, z2, 0, 4, 2, 0, 5, 1)) + ((63int * mono6(x1, y1, z1, x2, y2, z2, 0, 5, 1, 0, 2, 4)) + (3int * mono6(x1, y1, z1, x2, y2, z2, 0, 5, 1, 0, 4, 2)))) + ((1int * mono6(x1, y1, z1, x2, y2, z2, 0, 6, 0, 0, 3, 3)) + ((3969int * mono6(x1, y1, z1, x2, y2, z2, 1, 1, 4, 2, 2, 2)) + (7938int * mono6(x1, y1, z1, x2, y2, z2, 1, 2, 3, 2, 1, 3))))) + (((378int * mono6(x1, y1, z1, x2, y2, z2, 1, 2, 3, 2, 3, 1)) + ((3969int * mono6(x1, y1, z1, x2, y2, z2, 1, 3, 2, 2, 0, 4)) + (756int * mono6(x1, y1, z1, x2, y2, z2, 1, 3, 2, 2, 2, 2)))) + (((9int * mono6(x1, y1, z1, x2, y2, z2, 1, 3, 2, 2, 4, 0)) + (378int * mono6(x1, y1, z1, x2, y2, z2, 1, 4, 1, 2, 1, 3))) + ((18int * mono6(x1, y1, z1, x2, y2, z2, 1, 4, 1, 2, 3, 1)) + (9int * mono6(x1, y1, z1, x2, y2, z2, 1, 5, 0, 2, 2, 2))))))) + (((((3969int * mono6(x1, y1, z1, x2, y2, z2, 2, 0, 4, 1, 3, 2)) + ((7938int * mono6(x1, y1, z1, x2, y2, z2, 2, 1, 3, 1, 2, 3)) + (378int * mono6(x1, y1, z1, x2, y2, z2, 2, 1, 3, 1, 4, 1)))) + ((3969int * mono6(x1, y1, z1, x2, y2, z2, 2, 2, 2, 1, 1, 4)) + ((756int * mono6(x1, y1, z1, x2, y2, z2, 2, 2, 2, 1, 3, 2)) + (9int * mono6(x1, y1, z1, x2, y2, z2, 2, 2, 2, 1, 5, 0))))) + (((567int * mono6(x1, y1, z1, x2, y2, z2, 2, 2, 2, 4, 1, 1)) + ((378int * mono6(x1, y1, z1, x2, y2, z2, 2, 3, 1, 1, 2, 3)) + (18int * mono6(x1, y1, z1, x2, y2, z2, 2, 3, 1, 1, 4, 1)))) + ((567int * mono6(x1, y1, z1, x2, y2, z2, 2, 3, 1, 4, 0, 2)) + ((27int * mono6(x1, y1, z1, x2, y2, z2, 2, 3, 1, 4, 2, 0)) + (9int * mono6(x1, y1, z1, x2, y2, z2, 2, 4, 0, 1, 3, 2)))))) + ((((27int * mono6(x1, y1, z1, x2, y2, z2, 2, 4, 0, 4, 1, 1)) + ((1134int * mono6(x1, y1, z1, x2, y2, z2, 3, 1, 2, 3, 2, 1)) + (1134int * mono6(x1, y1, z1, x2, y2, z2, 3, 2, 1, 3, 1, 2)))) + ((54int * mono6(x1, y1, z1, x2, y2, z2, 3, 2, 1, 3, 3, 0)) + ((54int * mono6(x1, y1, z1, x2, y2, z2, 3, 3, 0, 3, 2, 1)) + (27int * mono6(x1, y1, z1, x2, y2, z2, 3, 3, 0, 6, 0, 0))))) + (((567int * mono6(x1, y1, z1, x2, y2, z2, 4, 0, 2, 2, 3, 1)) + ((567int * mono6(x1, y1, z1, x2, y2, z2, 4, 1, 1, 2, 2, 2)) + (27int * mono6(x1, y1, z1, x2, y2, z2, 4, 1, 1, 2, 4, 0)))) + (((27int * mono6(x1, y1, z1, x2, y2, z2, 4, 2, 0, 2, 3, 1)) + (81int * mono6(x1, y1, z1, x2, y2, z2, 4, 2, 0, 5, 1, 0))) + ((81int * mono6(x1, y1, z1, x2, y2, z2, 5, 1, 0, 4, 2, 0)) + (27int * mono6(x1, y1, z1, x2, y2, z2, 6, 0, 0, 3, 3, 0)))))))));
    assert((7 * ((((((y1 * z2) + (z1 * y2)) * ((y1 * y2) + (21 * (z1 * z2)))) + ((3 * (x1 * x2)) * ((x1 * y2) + (y1 * x2)))) * ((((y1 * z2) + (z1 * y2)) * ((y1 * y2) + (21 * (z1 * z2)))) + ((3 * (x1 * x2)) * ((x1 * y2) + (y1 * x2))))) * ((((y1 * z2) + (z1 * y2)) * ((y1 * y2) + (21 * (z1 * z2)))) + ((3 * (x1 * x2)) * ((x1 * y2) + (y1 * x2)))))) == (7int * mono6(x1, y1, z1, x2, y2, z2, 0, 0, 0, 0, 0, 0)) * ((((((9261int * mono6(x1, y1, z1, x2, y2, z2, 0, 0, 6, 0, 3, 3)) + ((27783int * mono6(x1, y1, z1, x2, y2, z2, 0, 1, 5, 0, 2, 4)) + (1323int * mono6(x1, y1, z1, x2, y2, z2, 0, 1, 5, 0, 4, 2)))) + ((27783int * mono6(x1, y1, z1, x2, y2, z2, 0, 2, 4, 0, 1, 5)) + ((3969int * mono6(x1, y1, z1, x2, y2, z2, 0, 2, 4, 0, 3, 3)) + (63int * mono6(x1, y1, z1, x2, y2, z2, 0, 2, 4, 0, 5, 1))))) + (((9261int * mono6(x1, y1, z1, x2, y2, z2, 0, 3, 3, 0, 0, 6)) + ((3969int * mono6(x1, y1, z1, x2, y2, z2, 0, 3, 3, 0, 2, 4)) + (189int * mono6(x1, y1, z1, x2, y2, z2, 0, 3, 3, 0, 4, 2)))) + ((1int * mono6(x1, y1, z1, x2, y2, z2, 0, 3, 3, 0, 6, 0)) + ((1323int * mono6(x1, y1, z1, x2, y2, z2, 0, 4, 2, 0, 1, 5)) + (189int * mono6(x1, y1, z1, x2, y2, z2, 0, 4, 2, 0, 3, 3)))))) + ((((3int * mono6(x1, y1, z1, x2, y2, z2, 0, 4, 2, 0, 5, 1)) + ((63int * mono6(x1, y1, z1, x2, y2, z2, 0, 5, 1, 0, 2, 4)) + (3int * mono6(x1, y1, z1, x2, y2, z2, 0, 5, 1, 0, 4, 2)))) + ((1int * mono6(x1, y1, z1, x2, y2, z2, 0, 6, 0, 0, 3, 3)) + ((3969int * mono6(x1, y1, z1, x2, y2, z2, 1, 1, 4, 2, 2, 2)) + (7938int * mono6(x1, y1, z1, x2, y2, z2, 1, 2, 3, 2, 1, 3))))) + (((378int * mono6(x1, y1, z1, x2, y2, z2, 1, 2, 3, 2, 3, 1)) + ((3969int * mono6(x1, y1, z1, x2, y2, z2, 1, 3, 2, 2, 0, 4)) + (756int * mono6(x1, y1, z1, x2, y2, z2, 1, 3, 2, 2, 2, 2)))) + (((9int * mono6(x1, y1, z1, x2, y2, z2, 1, 3, 2, 2, 4, 0)) + (378int * mono6(x1, y1, z1, x2, y2, z2, 1, 4, 1, 2, 1, 3))) + ((18int * mono6(x1, y1, z1, x2, y2, z2, 1, 4, 1, 2, 3, 1)) + (9int * mono6(x1, y1, z1, x2, y2, z2, 1, 5, 0, 2, 2, 2))))))) + (((((3969int * mono6(x1, y1, z1, x2, y2, z2, 2, 0, 4, 1, 3, 2)) + ((7938int * mono6(x1, y1, z1, x2, y2, z2, 2, 1, 3, 1, 2, 3)) + (378int * mono6(x1, y1, z1, x2, y2, z2, 2, 1, 3, 1, 4, 1)))) + ((3969int * mono6(x1, y1, z1, x2, y2, z2, 2, 2, 2, 1, 1, 4)) + ((756int * mono6(x1, y1, z1, x2, y2, z2, 2, 2, 2, 1, 3, 2)) + (9int * mono6(x1, y1, z1, x2, y2, z2, 2, 2, 2, 1, 5, 0))))) + (((567int * mono6(x1, y1, z1, x2, y2, z2, 2, 2, 2, 4, 1, 1)) + ((378int * mono6(x1, y1, z1, x2, y2, z2, 2, 3, 1, 1, 2, 3)) + (18int * mono6(x1, y1, z1, x2, y2, z2, 2, 3, 1, 1, 4, 1)))) + ((567int * mono6(x1, y1, z1, x2, y2, z2, 2, 3, 1, 4, 0, 2)) + ((27int * mono6(x1, y1, z1, x2, y2, z2, 2, 3, 1, 4, 2, 0)) + (9int * mono6(x1, y1, z1, x2, y2, z2, 2, 4, 0, 1, 3, 2)))))) + ((((27int * mono6(x1, y1, z1, x2, y2, z2, 2, 4, 0, 4, 1, 1)) + ((1134int * mono6(x1, y1, z1, x2, y2, z2, 3, 1, 2, 3, 2, 1)) + (1134int * mono6(x1, y1, z1, x2, y2, z2, 3, 2, 1, 3, 1, 2)))) + ((54int * mono6(x1, y1, z1, x2, y2, z2, 3, 2, 1, 3, 3, 0)) + ((54int * mono6(x1, y1, z1, x2, y2, z2, 3, 3, 0, 3, 2, 1)) + (27int * mono6(x1, y1, z1, x2, y2, z2, 3, 3, 0, 6, 0, 0))))) + (((567int * mono6(x1, y1, z1, x2, y2, z2, 4, 0, 2, 2, 3, 1)) + ((567int * mono6(x1, y1, z1, x2, y2, z2, 4, 1, 1, 2, 2, 2)) + (27int * mono6(x1, y1, z1, x2, y2, z2, 4, 1, 1, 2, 4, 0)))) + (((27int * mono6(x1, y1, z1, x2, y2, z2, 4, 2, 0, 2, 3, 1)) + (81int * mono6(x1, y1, z1, x2, y2, z2, 4, 2, 0, 5, 1, 0))) + ((81int * mono6(x1, y1, z1, x2, y2, z2, 5, 1, 0, 4, 2, 0)) + (27int * mono6(x1, y1, z1, x2, y2, z2, 6, 0, 0, 3, 3, 0)))))))));
    lemma_mul_is_distributive_add((7int * mono6(x1, y1, z1, x2, y2, z2, 0, 0, 0, 0, 0, 0)), (((((9261int * mono6(x1, y1, z1, x2, y2, z2, 0, 0, 6, 0, 3, 3)) + ((27783int * mono6(x1, y1, z1, x2, y2, z2, 0, 1, 5, 0, 2, 4)) + (1323int * mono6(x1, y1, z1, x2, y2, z2, 0, 1, 5, 0, 4, 2)))) + ((27783int * mono6(x1, y1, z1, x2, y2, z2, 0, 2, 4, 0, 1, 5)) + ((3969int * mono6(x1, y1, z1, x2, y2, z2, 0, 2, 4, 0, 3, 3)) + (63int * mono6(x1, y1, z1, x2, y2, z2, 0, 2, 4, 0, 5, 1))))) + (((9261int * mono6(x1, y1, z1, x2, y2, z2, 0, 3, 3, 0, 0, 6)) + ((3969int * mono6(x1, y1, z1, x2, y2, z2, 0, 3, 3, 0, 2, 4)) + (189int * mono6(x1, y1, z1, x2, y2, z2, 0, 3, 3, 0, 4, 2)))) + ((1int * mono6(x1, y1, z1, x2, y2, z2, 0, 3, 3, 0, 6, 0)) + ((1323int * mono6(x1, y1, z1, x2, y2, z2, 0, 4, 2, 0, 1, 5)) + (189int * mono6(x1, y1, z1, x2, y2, z2, 0, 4, 2, 0, 3, 3)))))) + ((((3int * mono6(x1, y1, z1, x2, y2, z2, 0, 4, 2, 0, 5, 1)) + ((63int * mono6(x1, y1, z1, x2, y2, z2, 0, 5, 1, 0, 2, 4)) + (3int * mono6(x1, y1, z1, x2, y2, z2, 0, 5, 1, 0, 4, 2)))) + ((1int * mono6(x1, y1, z1, x2, y2, z2, 0, 6, 0, 0, 3, 3)) + ((3969int * mono6(x1, y1, z1, x2, y2, z2, 1, 1, 4, 2, 2, 2)) + (7938int * mono6(x1, y1, z1, x2, y2, z2, 1, 2, 3, 2, 1, 3))))) + (((378int * mono6(x1, y1, z1, x2, y2, z2, 1, 2, 3, 2, 3, 1)) + ((3969int * mono6(x1, y1, z1, x2, y2, z2, 1, 3, 2, 2, 0, 4)) + (756int * mono6(x1, y1, z1, x2, y2, z2, 1, 3, 2, 2, 2, 2)))) + (((9int * mono6(x1, y1, z1, x2, y2, z2, 1, 3, 2, 2, 4, 0)) + (378int * mono6(x1, y1, z1, x2, y2, z2, 1, 4, 1, 2, 1, 3))) + ((18int * mono6(x1, y1, z1, x2, y2, z2, 1, 4, 1, 2, 3, 1)) + (9int * mono6(x1, y1, z1, x2, y2, z2, 1, 5, 0, 2, 2, 2))))))), (((((3969int * mono6(x1, y1, z1, x2, y2, z2, 2, 0, 4, 1, 3, 2)) + ((7938int * mono6(x1, y1, z1, x2, y2, z2, 2, 1, 3, 1, 2, 3)) + (378int * mono6(x1, y1, z1, x2, y2, z2, 2, 1, 3, 1, 4, 1)))) + ((3969int * mono6(x1, y1, z1, x2, y2, z2, 2, 2, 2, 1, 1, 4)) + ((756int * mono6(x1, y1, z1, x2, y2, z2, 2, 2, 2, 1, 3, 2)) + (9int * mono6(x1, y1, z1, x2, y2, z2, 2, 2, 2, 1, 5, 0))))) + (((567int * mono6(x1, y1, z1, x2, y2, z2, 2, 2, 2, 4, 1, 1)) + ((378int * mono6(x1, y1, z1, x2, y2, z2, 2, 3, 1, 1, 2, 3)) + (18int * mono6(x1, y1, z1, x2, y2, z2, 2, 3, 1, 1, 4, 1)))) + ((567int * mono6(x1, y1, z1, x2, y2, z2, 2, 3, 1, 4, 0, 2)) + ((27int * mono6(x1, y1, z1, x2, y2, z2, 2, 3, 1, 4, 2, 0)) + (9int * mono6(x1, y1, z1, x2, y2, z2, 2, 4, 0, 1, 3, 2)))))) + ((((27int * mono6(x1, y1, z1, x2, y2, z2, 2, 4, 0, 4, 1, 1)) + ((1134int * mono6(x1, y1, z1, x2, y2, z2, 3, 1, 2, 3, 2, 1)) + (1134int * mono6(x1, y1, z1, x2, y2, z2, 3, 2, 1, 3, 1, 2)))) + ((54int * mono6(x1, y1, z1, x2, y2, z2, 3, 2, 1, 3, 3, 0)) + ((54int * mono6(x1, y1, z1, x2, y2, z2, 3, 3, 0, 3, 2, 1)) + (27int * mono6(x1, y1, z1, x2, y2, z2, 3, 3, 0, 6, 0, 0))))) + (((567int * mono6(x1, y1, z1, x2, y2, z2, 4, 0, 2, 2, 3, 1)) + ((567int * mono6(x1, y1, z1, x2, y2, z2, 4, 1, 1, 2, 2, 2)) + (27int * mono6(x1, y1, z1, x2, y2, z2, 4, 1, 1, 2, 4, 0)))) + (((27int * mono6(x1, y1, z1, x2, y2, z2, 4, 2, 0, 2, 3, 1)) + (81int * mono6(x1, y1, z1, x2, y2, z2, 4, 2, 0, 5, 1, 0))) + ((81int * mono6(x1, y1, z1, x2, y2, z2, 5, 1, 0, 4, 2, 0)) + (27int * mono6(x1, y1, z1, x2, y2, z2, 6, 0, 0, 3, 3, 0))))))));
    lemma_mul_is_distributive_add((7int * mono6(x1, y1, z1, x2, y2, z2, 0, 0, 0, 0, 0, 0)), ((((9261int * mono6(x1, y1, z1, x2, y2, z2, 0, 0, 6, 0, 3, 3)) + ((27783int * mono6(x1, y1, z1, x2, y2, z2, 0, 1, 5, 0, 2, 4)) + (1323int * mono6(x1, y1, z1, x2, y2, z2, 0, 1, 5, 0, 4, 2)))) + ((27783int * mono6(x1, y1, z1, x2, y2, z2, 0, 2, 4, 0, 1, 5)) + ((3969int * mono6(x1, y1, z1, x2, y2, z2, 0, 2, 4, 0, 3, 3)) + (63int * mono6(x1, y1, z1, x2, y2, z2, 0, 2, 4, 0, 5, 1))))) + (((9261int * mono6(x1, y1, z1, x2, y2, z2, 0, 3, 3, 0, 0, 6)) + ((3969int * mono6(x1, y1, z1, x2, y2, z2, 0, 3, 3, 0, 2, 4)) + (189int * mono6(x1, y1, z1, x2, y2, z2, 0, 3, 3, 0, 4, 2)))) + ((1int * mono6(x1, y1, z1, x2, y2, z2, 0, 3, 3, 0, 6, 0)) + ((1323int * mono6(x1, y1, z1, x2, y2, z2, 0, 4, 2, 0, 1, 5)) + (189int * mono6(x1, y1, z1, x2, y2, z2, 0, 4, 2, 0, 3, 3)))))), ((((3int * mono6(x1, y1, z1, x2, y2, z2, 0, 4, 2, 0, 5, 1)) + ((63int * mono6(x1, y1, z1, x2, y2, z2, 0, 5, 1, 0, 2, 4)) + (3int * mono6(x1, y1, z1, x2, y2, z2, 0, 5, 1, 0, 4, 2)))) + ((1int * mono6(x1, y1, z1, x2, y2, z2, 0, 6, 0, 0, 3, 3)) + ((3969int * mono6(x1, y1, z1, x2, y2, z2, 1, 1, 4, 2, 2, 2)) + (7938int * mono6(x1, y1, z1, x2, y2, z2, 1, 2, 3, 2, 1, 3))))) + (((378int * mono6(x1, y1, z1, x2, y2, z2, 1, 2, 3, 2, 3, 1)) + ((3969int * mono6(x1, y1, z1, x2, y2, z2, 1, 3, 2, 2, 0, 4)) + (756int * mono6(x1, y1, z1, x2, y2, z2, 1, 3, 2, 2, 2, 2)))) + (((9int * mono6(x1, y1, z1, x2, y2, z2, 1, 3, 2, 2, 4, 0)) + (378int * mono6(x1, y1, z1, x2, y2, z2, 1, 4, 1, 2, 1, 3))) + ((18int * mono6(x1, y1, z1, x2, y2, z2, 1, 4, 1, 2, 3, 1)) + (9int * mono6(x1, y1, z1, x2, y2, z2, 1, 5, 0, 2, 2, 2)))))));
    lemma_mul_is_distributive_add((7int * mono6(x1, y1, z1, x2, y2, z2, 0, 0, 0, 0, 0, 0)), (((9261int * mono6(x1, y1, z1, x2, y2, z2, 0, 0, 6, 0, 3, 3)) + ((27783int * mono6(x1, y1, z1, x2, y2, z2, 0, 1, 5, 0, 2, 4)) + (1323int * mono6(x1, y1, z1, x2, y2, z2, 0, 1, 5, 0, 4, 2)))) + ((27783int * mono6(x1, y1, z1, x2, y2, z2, 0, 2, 4, 0, 1, 5)) + ((3969int * mono6(x1, y1, z1, x2, y2, z2, 0, 2, 4, 0, 3, 3)) + (63int * mono6(x1, y1, z1, x2, y2, z2, 0, 2, 4, 0, 5, 1))))), (((9261int * mono6(x1, y1, z1, x2, y2, z2, 0, 3, 3, 0, 0, 6)) + ((3969int * mono6(x1, y1, z1, x2, y2, z2, 0, 3, 3, 0, 2, 4)) + (189int * mono6(x1, y1, z1, x2, y2, z2, 0, 3, 3, 0, 4, 2)))) + ((1int * mono6(x1, y1, z1, x2, y2, z2, 0, 3, 3, 0, 6, 0)) + ((1323int * mono6(x1, y1, z1, x2, y2, z2, 0, 4, 2, 0, 1, 5)) + (189int * mono6(x1, y1, z1, x2, y2, z2, 0, 4, 2, 0, 3, 3))))));
    lemma_mul_is_distributive_add((7int * mono6(x1, y1, z1, x2, y2, z2, 0, 0, 0, 0, 0, 0)), ((9261int * mono6(x1, y1, z1, x2, y2, z2, 0, 0, 6, 0, 3, 3)) + ((27783int * mono6(x1, y1, z1, x2, y2, z2, 0, 1, 5, 0, 2, 4)) + (1323int * mono6(x1, y1, z1, x2, y2, z2, 0, 1, 5, 0, 4, 2)))), ((27783int * mono6(x1, y1, z1, x2, y2, z2, 0, 2, 4, 0, 1, 5)) + ((3969int * mono6(x1, y1, z1, x2, y2, z2, 0, 2, 4, 0, 3, 3)) + (63int * mono6(x1, y1, z1, x2, y2, z2, 0, 2, 4, 0, 5, 1)))));
    lemma_mul_is_distributive_add((7int * mono6(x1, y1, z1, x2, y2, z2, 0, 0, 0, 0, 0, 0)), (9261int * mono6(x1, y1, z1, x2, y2, z2, 0, 0, 6, 0, 3, 3)), ((27783int * mono6(x1, y1, z1, x2, y2, z2, 0, 1, 5, 0, 2, 4)) + (1323int * mono6(x1, y1, z1, x2, y2, z2, 0, 1, 5, 0, 4, 2))));
    lemma_mul_is_distributive_add((7int * mono6(x1, y1, z1, x2, y2, z2, 0, 0, 0, 0, 0, 0)), (27783int * mono6(x1, y1, z1, x2, y2, z2, 0, 1, 5, 0, 2, 4)), (1323int * mono6(x1, y1, z1, x2, y2, z2, 0, 1, 5, 0, 4, 2)));
    lemma_mul_is_distributive_add((7int * mono6(x1, y1, z1, x2, y2, z2, 0, 0, 0, 0, 0, 0)), (27783int * mono6(x1, y1, z1, x2, y2, z2, 0, 2, 4, 0, 1, 5)), ((3969int * mono6(x1, y1, z1, x2, y2, z2, 0, 2, 4, 0, 3, 3)) + (63int * mono6(x1, y1, z1, x2, y2, z2, 0, 2, 4, 0, 5, 1))));
    lemma_mul_is_distributive_add((7int * mono6(x1, y1, z1, x2, y2, z2, 0, 0, 0, 0, 0, 0)), (3969int * mono6(x1, y1, z1, x2, y2, z2, 0, 2, 4, 0, 3, 3)), (63int * mono6(x1, y1, z1, x2, y2, z2, 0, 2, 4, 0, 5, 1)));
    lemma_mul_is_distributive_add((7int * mono6(x1, y1, z1, x2, y2, z2, 0, 0, 0, 0, 0, 0)), ((9261int * mono6(x1, y1, z1, x2, y2, z2, 0, 3, 3, 0, 0, 6)) + ((3969int * mono6(x1, y1, z1, x2, y2, z2, 0, 3, 3, 0, 2, 4)) + (189int * mono6(x1, y1, z1, x2, y2, z2, 0, 3, 3, 0, 4, 2)))), ((1int * mono6(x1, y1, z1, x2, y2, z2, 0, 3, 3, 0, 6, 0)) + ((1323int * mono6(x1, y1, z1, x2, y2, z2, 0, 4, 2, 0, 1, 5)) + (189int * mono6(x1, y1, z1, x2, y2, z2, 0, 4, 2, 0, 3, 3)))));
    lemma_mul_is_distributive_add((7int * mono6(x1, y1, z1, x2, y2, z2, 0, 0, 0, 0, 0, 0)), (9261int * mono6(x1, y1, z1, x2, y2, z2, 0, 3, 3, 0, 0, 6)), ((3969int * mono6(x1, y1, z1, x2, y2, z2, 0, 3, 3, 0, 2, 4)) + (189int * mono6(x1, y1, z1, x2, y2, z2, 0, 3, 3, 0, 4, 2))));
    lemma_mul_is_distributive_add((7int * mono6(x1, y1, z1, x2, y2, z2, 0, 0, 0, 0, 0, 0)), (3969int * mono6(x1, y1, z1, x2, y2, z2, 0, 3, 3, 0, 2, 4)), (189int * mono6(x1, y1, z1, x2, y2, z2, 0, 3, 3, 0, 4, 2)));
    lemma_mul_is_distributive_add((7int * mono6(x1, y1, z1, x2, y2, z2, 0, 0, 0, 0, 0, 0)), (1int * mono6(x1, y1, z1, x2, y2, z2, 0, 3, 3, 0, 6, 0)), ((1323int * mono6(x1, y1, z1, x2, y2, z2, 0, 4, 2, 0, 1, 5)) + (189int * mono6(x1, y1, z1, x2, y2, z2, 0, 4, 2, 0, 3, 3))));
    lemma_mul_is_distributive_add((7int * mono6(x1, y1, z1, x2, y2, z2, 0, 0, 0, 0, 0, 0)), (1323int * mono6(x1, y1, z1, x2, y2, z2, 0, 4, 2, 0, 1, 5)), (189int * mono6(x1, y1, z1, x2, y2, z2, 0, 4, 2, 0, 3, 3)));
    lemma_mul_is_distributive_add((7int * mono6(x1, y1, z1, x2, y2, z2, 0, 0, 0, 0, 0, 0)), (((3int * mono6(x1, y1, z1, x2, y2, z2, 0, 4, 2, 0, 5, 1)) + ((63int * mono6(x1, y1, z1, x2, y2, z2, 0, 5, 1, 0, 2, 4)) + (3int * mono6(x1, y1, z1, x2, y2, z2, 0, 5, 1, 0, 4, 2)))) + ((1int * mono6(x1, y1, z1, x2, y2, z2, 0, 6, 0, 0, 3, 3)) + ((3969int * mono6(x1, y1, z1, x2, y2, z2, 1, 1, 4, 2, 2, 2)) + (7938int * mono6(x1, y1, z1, x2, y2, z2, 1, 2, 3, 2, 1, 3))))), (((378int * mono6(x1, y1, z1, x2, y2, z2, 1, 2, 3, 2, 3, 1)) + ((3969int * mono6(x1, y1, z1, x2, y2, z2, 1, 3, 2, 2, 0, 4)) + (756int * mono6(x1, y1, z1, x2, y2, z2, 1, 3, 2, 2, 2, 2)))) + (((9int * mono6(x1, y1, z1, x2, y2, z2, 1, 3, 2, 2, 4, 0)) + (378int * mono6(x1, y1, z1, x2, y2, z2, 1, 4, 1, 2, 1, 3))) + ((18int * mono6(x1, y1, z1, x2, y2, z2, 1, 4, 1, 2, 3, 1)) + (9int * mono6(x1, y1, z1, x2, y2, z2, 1, 5, 0, 2, 2, 2))))));
    lemma_mul_is_distributive_add((7int * mono6(x1, y1, z1, x2, y2, z2, 0, 0, 0, 0, 0, 0)), ((3int * mono6(x1, y1, z1, x2, y2, z2, 0, 4, 2, 0, 5, 1)) + ((63int * mono6(x1, y1, z1, x2, y2, z2, 0, 5, 1, 0, 2, 4)) + (3int * mono6(x1, y1, z1, x2, y2, z2, 0, 5, 1, 0, 4, 2)))), ((1int * mono6(x1, y1, z1, x2, y2, z2, 0, 6, 0, 0, 3, 3)) + ((3969int * mono6(x1, y1, z1, x2, y2, z2, 1, 1, 4, 2, 2, 2)) + (7938int * mono6(x1, y1, z1, x2, y2, z2, 1, 2, 3, 2, 1, 3)))));
    lemma_mul_is_distributive_add((7int * mono6(x1, y1, z1, x2, y2, z2, 0, 0, 0, 0, 0, 0)), (3int * mono6(x1, y1, z1, x2, y2, z2, 0, 4, 2, 0, 5, 1)), ((63int * mono6(x1, y1, z1, x2, y2, z2, 0, 5, 1, 0, 2, 4)) + (3int * mono6(x1, y1, z1, x2, y2, z2, 0, 5, 1, 0, 4, 2))));
    lemma_mul_is_distributive_add((7int * mono6(x1, y1, z1, x2, y2, z2, 0, 0, 0, 0, 0, 0)), (63int * mono6(x1, y1, z1, x2, y2, z2, 0, 5, 1, 0, 2, 4)), (3int * mono6(x1, y1, z1, x2, y2, z2, 0, 5, 1, 0, 4, 2)));
    lemma_mul_is_distributive_add((7int * mono6(x1, y1, z1, x2, y2, z2, 0, 0, 0, 0, 0, 0)), (1int * mono6(x1, y1, z1, x2, y2, z2, 0, 6, 0, 0, 3, 3)), ((3969int * mono6(x1, y1, z1, x2, y2, z2, 1, 1, 4, 2, 2, 2)) + (7938int * mono6(x1, y1, z1, x2, y2, z2, 1, 2, 3, 2, 1, 3))));
    lemma_mul_is_distributive_add((7int * mono6(x1, y1, z1, x2, y2, z2, 0, 0, 0, 0, 0, 0)), (3969int * mono6(x1, y1, z1, x2, y2, z2, 1, 1, 4, 2, 2, 2)), (7938int * mono6(x1, y1, z1, x2, y2, z2, 1, 2, 3, 2, 1, 3)));
    lemma_mul_is_distributive_add((7int * mono6(x1, y1, z1, x2, y2, z2, 0, 0, 0, 0, 0, 0)), ((378int * mono6(x1, y1, z1, x2, y2, z2, 1, 2, 3, 2, 3, 1)) + ((3969int * mono6(x1, y1, z1, x2, y2, z2, 1, 3, 2, 2, 0, 4)) + (756int * mono6(x1, y1, z1, x2, y2, z2, 1, 3, 2, 2, 2, 2)))), (((9int * mono6(x1, y1, z1, x2, y2, z2, 1, 3, 2, 2, 4, 0)) + (378int * mono6(x1, y1, z1, x2, y2, z2, 1, 4, 1, 2, 1, 3))) + ((18int * mono6(x1, y1, z1, x2, y2, z2, 1, 4, 1, 2, 3, 1)) + (9int * mono6(x1, y1, z1, x2, y2, z2, 1, 5, 0, 2, 2, 2)))));
    lemma_mul_is_distributive_add((7int * mono6(x1, y1, z1, x2, y2, z2, 0, 0, 0, 0, 0, 0)), (378int * mono6(x1, y1, z1, x2, y2, z2, 1, 2, 3, 2, 3, 1)), ((3969int * mono6(x1, y1, z1, x2, y2, z2, 1, 3, 2, 2, 0, 4)) + (756int * mono6(x1, y1, z1, x2, y2, z2, 1, 3, 2, 2, 2, 2))));
    lemma_mul_is_distributive_add((7int * mono6(x1, y1, z1, x2, y2, z2, 0, 0, 0, 0, 0, 0)), (3969int * mono6(x1, y1, z1, x2, y2, z2, 1, 3, 2, 2, 0, 4)), (756int * mono6(x1, y1, z1, x2, y2, z2, 1, 3, 2, 2, 2, 2)));
    lemma_mul_is_distributive_add((7int * mono6(x1, y1, z1, x2, y2, z2, 0, 0, 0, 0, 0, 0)), ((9int * mono6(x1, y1, z1, x2, y2, z2, 1, 3, 2, 2, 4, 0)) + (378int * mono6(x1, y1, z1, x2, y2, z2, 1, 4, 1, 2, 1, 3))), ((18int * mono6(x1, y1, z1, x2, y2, z2, 1, 4, 1, 2, 3, 1)) + (9int * mono6(x1, y1, z1, x2, y2, z2, 1, 5, 0, 2, 2, 2))));
    lemma_mul_is_distributive_add((7int * mono6(x1, y1, z1, x2, y2, z2, 0, 0, 0, 0, 0, 0)), (9int * mono6(x1, y1, z1, x2, y2, z2, 1, 3, 2, 2, 4, 0)), (378int * mono6(x1, y1, z1, x2, y2, z2, 1, 4, 1, 2, 1, 3)));
    lemma_mul_is_distributive_add((7int * mono6(x1, y1, z1, x2, y2, z2, 0, 0, 0, 0, 0, 0)), (18int * mono6(x1, y1, z1, x2, y2, z2, 1, 4, 1, 2, 3, 1)), (9int * mono6(x1, y1, z1, x2, y2, z2, 1, 5, 0, 2, 2, 2)));
    lemma_mul_is_distributive_add((7int * mono6(x1, y1, z1, x2, y2, z2, 0, 0, 0, 0, 0, 0)), ((((3969int * mono6(x1, y1, z1, x2, y2, z2, 2, 0, 4, 1, 3, 2)) + ((7938int * mono6(x1, y1, z1, x2, y2, z2, 2, 1, 3, 1, 2, 3)) + (378int * mono6(x1, y1, z1, x2, y2, z2, 2, 1, 3, 1, 4, 1)))) + ((3969int * mono6(x1, y1, z1, x2, y2, z2, 2, 2, 2, 1, 1, 4)) + ((756int * mono6(x1, y1, z1, x2, y2, z2, 2, 2, 2, 1, 3, 2)) + (9int * mono6(x1, y1, z1, x2, y2, z2, 2, 2, 2, 1, 5, 0))))) + (((567int * mono6(x1, y1, z1, x2, y2, z2, 2, 2, 2, 4, 1, 1)) + ((378int * mono6(x1, y1, z1, x2, y2, z2, 2, 3, 1, 1, 2, 3)) + (18int * mono6(x1, y1, z1, x2, y2, z2, 2, 3, 1, 1, 4, 1)))) + ((567int * mono6(x1, y1, z1, x2, y2, z2, 2, 3, 1, 4, 0, 2)) + ((27int * mono6(x1, y1, z1, x2, y2, z2, 2, 3, 1, 4, 2, 0)) + (9int * mono6(x1, y1, z1, x2, y2, z2, 2, 4, 0, 1, 3, 2)))))), ((((27int * mono6(x1, y1, z1, x2, y2, z2, 2, 4, 0, 4, 1, 1)) + ((1134int * mono6(x1, y1, z1, x2, y2, z2, 3, 1, 2, 3, 2, 1)) + (1134int * mono6(x1, y1, z1, x2, y2, z2, 3, 2, 1, 3, 1, 2)))) + ((54int * mono6(x1, y1, z1, x2, y2, z2, 3, 2, 1, 3, 3, 0)) + ((54int * mono6(x1, y1, z1, x2, y2, z2, 3, 3, 0, 3, 2, 1)) + (27int * mono6(x1, y1, z1, x2, y2, z2, 3, 3, 0, 6, 0, 0))))) + (((567int * mono6(x1, y1, z1, x2, y2, z2, 4, 0, 2, 2, 3, 1)) + ((567int * mono6(x1, y1, z1, x2, y2, z2, 4, 1, 1, 2, 2, 2)) + (27int * mono6(x1, y1, z1, x2, y2, z2, 4, 1, 1, 2, 4, 0)))) + (((27int * mono6(x1, y1, z1, x2, y2, z2, 4, 2, 0, 2, 3, 1)) + (81int * mono6(x1, y1, z1, x2, y2, z2, 4, 2, 0, 5, 1, 0))) + ((81int * mono6(x1, y1, z1, x2, y2, z2, 5, 1, 0, 4, 2, 0)) + (27int * mono6(x1, y1, z1, x2, y2, z2, 6, 0, 0, 3, 3, 0)))))));
    lemma_mul_is_distributive_add((7int * mono6(x1, y1, z1, x2, y2, z2, 0, 0, 0, 0, 0, 0)), (((3969int * mono6(x1, y1, z1, x2, y2, z2, 2, 0, 4, 1, 3, 2)) + ((7938int * mono6(x1, y1, z1, x2, y2, z2, 2, 1, 3, 1, 2, 3)) + (378int * mono6(x1, y1, z1, x2, y2, z2, 2, 1, 3, 1, 4, 1)))) + ((3969int * mono6(x1, y1, z1, x2, y2, z2, 2, 2, 2, 1, 1, 4)) + ((756int * mono6(x1, y1, z1, x2, y2, z2, 2, 2, 2, 1, 3, 2)) + (9int * mono6(x1, y1, z1, x2, y2, z2, 2, 2, 2, 1, 5, 0))))), (((567int * mono6(x1, y1, z1, x2, y2, z2, 2, 2, 2, 4, 1, 1)) + ((378int * mono6(x1, y1, z1, x2, y2, z2, 2, 3, 1, 1, 2, 3)) + (18int * mono6(x1, y1, z1, x2, y2, z2, 2, 3, 1, 1, 4, 1)))) + ((567int * mono6(x1, y1, z1, x2, y2, z2, 2, 3, 1, 4, 0, 2)) + ((27int * mono6(x1, y1, z1, x2, y2, z2, 2, 3, 1, 4, 2, 0)) + (9int * mono6(x1, y1, z1, x2, y2, z2, 2, 4, 0, 1, 3, 2))))));
    lemma_mul_is_distributive_add((7int * mono6(x1, y1, z1, x2, y2, z2, 0, 0, 0, 0, 0, 0)), ((3969int * mono6(x1, y1, z1, x2, y2, z2, 2, 0, 4, 1, 3, 2)) + ((7938int * mono6(x1, y1, z1, x2, y2, z2, 2, 1, 3, 1, 2, 3)) + (378int * mono6(x1, y1, z1, x2, y2, z2, 2, 1, 3, 1, 4, 1)))), ((3969int * mono6(x1, y1, z1, x2, y2, z2, 2, 2, 2, 1, 1, 4)) + ((756int * mono6(x1, y1, z1, x2, y2, z2, 2, 2, 2, 1, 3, 2)) + (9int * mono6(x1, y1, z1, x2, y2, z2, 2, 2, 2, 1, 5, 0)))));
    lemma_mul_is_distributive_add((7int * mono6(x1, y1, z1, x2, y2, z2, 0, 0, 0, 0, 0, 0)), (3969int * mono6(x1, y1, z1, x2, y2, z2, 2, 0, 4, 1, 3, 2)), ((7938int * mono6(x1, y1, z1, x2, y2, z2, 2, 1, 3, 1, 2, 3)) + (378int * mono6(x1, y1, z1, x2, y2, z2, 2, 1, 3, 1, 4, 1))));
    lemma_mul_is_distributive_add((7int * mono6(x1, y1, z1, x2, y2, z2, 0, 0, 0, 0, 0, 0)), (7938int * mono6(x1, y1, z1, x2, y2, z2, 2, 1, 3, 1, 2, 3)), (378int * mono6(x1, y1, z1, x2, y2, z2, 2, 1, 3, 1, 4, 1)));
    lemma_mul_is_distributive_add((7int * mono6(x1, y1, z1, x2, y2, z2, 0, 0, 0, 0, 0, 0)), (3969int * mono6(x1, y1, z1, x2, y2, z2, 2, 2, 2, 1, 1, 4)), ((756int * mono6(x1, y1, z1, x2, y2, z2, 2, 2, 2, 1, 3, 2)) + (9int * mono6(x1, y1, z1, x2, y2, z2, 2, 2, 2, 1, 5, 0))));
    lemma_mul_is_distributive_add((7int * mono6(x1, y1, z1, x2, y2, z2, 0, 0, 0, 0, 0, 0)), (756int * mono6(x1, y1, z1, x2, y2, z2, 2, 2, 2, 1, 3, 2)), (9int * mono6(x1, y1, z1, x2, y2, z2, 2, 2, 2, 1, 5, 0)));
    lemma_mul_is_distributive_add((7int * mono6(x1, y1, z1, x2, y2, z2, 0, 0, 0, 0, 0, 0)), ((567int * mono6(x1, y1, z1, x2, y2, z2, 2, 2, 2, 4, 1, 1)) + ((378int * mono6(x1, y1, z1, x2, y2, z2, 2, 3, 1, 1, 2, 3)) + (18int * mono6(x1, y1, z1, x2, y2, z2, 2, 3, 1, 1, 4, 1)))), ((567int * mono6(x1, y1, z1, x2, y2, z2, 2, 3, 1, 4, 0, 2)) + ((27int * mono6(x1, y1, z1, x2, y2, z2, 2, 3, 1, 4, 2, 0)) + (9int * mono6(x1, y1, z1, x2, y2, z2, 2, 4, 0, 1, 3, 2)))));
    lemma_mul_is_distributive_add((7int * mono6(x1, y1, z1, x2, y2, z2, 0, 0, 0, 0, 0, 0)), (567int * mono6(x1, y1, z1, x2, y2, z2, 2, 2, 2, 4, 1, 1)), ((378int * mono6(x1, y1, z1, x2, y2, z2, 2, 3, 1, 1, 2, 3)) + (18int * mono6(x1, y1, z1, x2, y2, z2, 2, 3, 1, 1, 4, 1))));
    lemma_mul_is_distributive_add((7int * mono6(x1, y1, z1, x2, y2, z2, 0, 0, 0, 0, 0, 0)), (378int * mono6(x1, y1, z1, x2, y2, z2, 2, 3, 1, 1, 2, 3)), (18int * mono6(x1, y1, z1, x2, y2, z2, 2, 3, 1, 1, 4, 1)));
    lemma_mul_is_distributive_add((7int * mono6(x1, y1, z1, x2, y2, z2, 0, 0, 0, 0, 0, 0)), (567int * mono6(x1, y1, z1, x2, y2, z2, 2, 3, 1, 4, 0, 2)), ((27int * mono6(x1, y1, z1, x2, y2, z2, 2, 3, 1, 4, 2, 0)) + (9int * mono6(x1, y1, z1, x2, y2, z2, 2, 4, 0, 1, 3, 2))));
    lemma_mul_is_distributive_add((7int * mono6(x1, y1, z1, x2, y2, z2, 0, 0, 0, 0, 0, 0)), (27int * mono6(x1, y1, z1, x2, y2, z2, 2, 3, 1, 4, 2, 0)), (9int * mono6(x1, y1, z1, x2, y2, z2, 2, 4, 0, 1, 3, 2)));
    lemma_mul_is_distributive_add((7int * mono6(x1, y1, z1, x2, y2, z2, 0, 0, 0, 0, 0, 0)), (((27int * mono6(x1, y1, z1, x2, y2, z2, 2, 4, 0, 4, 1, 1)) + ((1134int * mono6(x1, y1, z1, x2, y2, z2, 3, 1, 2, 3, 2, 1)) + (1134int * mono6(x1, y1, z1, x2, y2, z2, 3, 2, 1, 3, 1, 2)))) + ((54int * mono6(x1, y1, z1, x2, y2, z2, 3, 2, 1, 3, 3, 0)) + ((54int * mono6(x1, y1, z1, x2, y2, z2, 3, 3, 0, 3, 2, 1)) + (27int * mono6(x1, y1, z1, x2, y2, z2, 3, 3, 0, 6, 0, 0))))), (((567int * mono6(x1, y1, z1, x2, y2, z2, 4, 0, 2, 2, 3, 1)) + ((567int * mono6(x1, y1, z1, x2, y2, z2, 4, 1, 1, 2, 2, 2)) + (27int * mono6(x1, y1, z1, x2, y2, z2, 4, 1, 1, 2, 4, 0)))) + (((27int * mono6(x1, y1, z1, x2, y2, z2, 4, 2, 0, 2, 3, 1)) + (81int * mono6(x1, y1, z1, x2, y2, z2, 4, 2, 0, 5, 1, 0))) + ((81int * mono6(x1, y1, z1, x2, y2, z2, 5, 1, 0, 4, 2, 0)) + (27int * mono6(x1, y1, z1, x2, y2, z2, 6, 0, 0, 3, 3, 0))))));
    lemma_mul_is_distributive_add((7int * mono6(x1, y1, z1, x2, y2, z2, 0, 0, 0, 0, 0, 0)), ((27int * mono6(x1, y1, z1, x2, y2, z2, 2, 4, 0, 4, 1, 1)) + ((1134int * mono6(x1, y1, z1, x2, y2, z2, 3, 1, 2, 3, 2, 1)) + (1134int * mono6(x1, y1, z1, x2, y2, z2, 3, 2, 1, 3, 1, 2)))), ((54int * mono6(x1, y1, z1, x2, y2, z2, 3, 2, 1, 3, 3, 0)) + ((54int * mono6(x1, y1, z1, x2, y2, z2, 3, 3, 0, 3, 2, 1)) + (27int * mono6(x1, y1, z1, x2, y2, z2, 3, 3, 0, 6, 0, 0)))));
    lemma_mul_is_distributive_add((7int * mono6(x1, y1, z1, x2, y2, z2, 0, 0, 0, 0, 0, 0)), (27int * mono6(x1, y1, z1, x2, y2, z2, 2, 4, 0, 4, 1, 1)), ((1134int * mono6(x1, y1, z1, x2, y2, z2, 3, 1, 2, 3, 2, 1)) + (1134int * mono6(x1, y1, z1, x2, y2, z2, 3, 2, 1, 3, 1, 2))));
    lemma_mul_is_distributive_add((7int * mono6(x1, y1, z1, x2, y2, z2, 0, 0, 0, 0, 0, 0)), (1134int * mono6(x1, y1, z1, x2, y2, z2, 3, 1, 2, 3, 2, 1)), (1134int * mono6(x1, y1, z1, x2, y2, z2, 3, 2, 1, 3, 1, 2)));
    lemma_mul_is_distributive_add((7int * mono6(x1, y1, z1, x2, y2, z2, 0, 0, 0, 0, 0, 0)), (54int * mono6(x1, y1, z1, x2, y2, z2, 3, 2, 1, 3, 3, 0)), ((54int * mono6(x1, y1, z1, x2, y2, z2, 3, 3, 0, 3, 2, 1)) + (27int * mono6(x1, y1, z1, x2, y2, z2, 3, 3, 0, 6, 0, 0))));
    lemma_mul_is_distributive_add((7int * mono6(x1, y1, z1, x2, y2, z2, 0, 0, 0, 0, 0, 0)), (54int * mono6(x1, y1, z1, x2, y2, z2, 3, 3, 0, 3, 2, 1)), (27int * mono6(x1, y1, z1, x2, y2, z2, 3, 3, 0, 6, 0, 0)));
    lemma_mul_is_distributive_add((7int * mono6(x1, y1, z1, x2, y2, z2, 0, 0, 0, 0, 0, 0)), ((567int * mono6(x1, y1, z1, x2, y2, z2, 4, 0, 2, 2, 3, 1)) + ((567int * mono6(x1, y1, z1, x2, y2, z2, 4, 1, 1, 2, 2, 2)) + (27int * mono6(x1, y1, z1, x2, y2, z2, 4, 1, 1, 2, 4, 0)))), (((27int * mono6(x1, y1, z1, x2, y2, z2, 4, 2, 0, 2, 3, 1)) + (81int * mono6(x1, y1, z1, x2, y2, z2, 4, 2, 0, 5, 1, 0))) + ((81int * mono6(x1, y1, z1, x2, y2, z2, 5, 1, 0, 4, 2, 0)) + (27int * mono6(x1, y1, z1, x2, y2, z2, 6, 0, 0, 3, 3, 0)))));
    lemma_mul_is_distributive_add((7int * mono6(x1, y1, z1, x2, y2, z2, 0, 0, 0, 0, 0, 0)), (567int * mono6(x1, y1, z1, x2, y2, z2, 4, 0, 2, 2, 3, 1)), ((567int * mono6(x1, y1, z1, x2, y2, z2, 4, 1, 1, 2, 2, 2)) + (27int * mono6(x1, y1, z1, x2, y2, z2, 4, 1, 1, 2, 4, 0))));
    lemma_mul_is_distributive_add((7int * mono6(x1, y1, z1, x2, y2, z2, 0, 0, 0, 0, 0, 0)), (567int * mono6(x1, y1, z1, x2, y2, z2, 4, 1, 1, 2, 2, 2)), (27int * mono6(x1, y1, z1, x2, y2, z2, 4, 1, 1, 2, 4, 0)));
    lemma_mul_is_distributive_add((7int * mono6(x1, y1, z1, x2, y2, z2, 0, 0, 0, 0, 0, 0)), ((27int * mono6(x1, y1, z1, x2, y2, z2, 4, 2, 0, 2, 3, 1)) + (81int * mono6(x1, y1, z1, x2, y2, z2, 4, 2, 0, 5, 1, 0))), ((81int * mono6(x1, y1, z1, x2, y2, z2, 5, 1, 0, 4, 2, 0)) + (27int * mono6(x1, y1, z1, x2, y2, z2, 6, 0, 0, 3, 3, 0))));
    lemma_mul_is_distributive_add((7int * mono6(x1, y1, z1, x2, y2, z2, 0, 0, 0, 0, 0, 0)), (27int * mono6(x1, y1, z1, x2, y2, z2, 4, 2, 0, 2, 3, 1)), (81int * mono6(x1, y1, z1, x2, y2, z2, 4, 2, 0, 5, 1, 0)));
    lemma_mul_is_distributive_add((7int * mono6(x1, y1, z1, x2, y2, z2, 0, 0, 0, 0, 0, 0)), (81int * mono6(x1, y1, z1, x2, y2, z2, 5, 1, 0, 4, 2, 0)), (27int * mono6(x1, y1, z1, x2, y2, z2, 6, 0, 0, 3, 3, 0)));
    lemma_coefficient_product(7int, mono6(x1, y1, z1, x2, y2, z2, 0, 0, 0, 0, 0, 0), 9261int, mono6(x1, y1, z1, x2, y2, z2, 0, 0, 6, 0, 3, 3));
    lemma_mono6_mul(x1, y1, z1, x2, y2, z2, 0, 0, 0, 0, 0, 0, 0, 0, 6, 0, 3, 3);
    lemma_coefficient_product(7int, mono6(x1, y1, z1, x2, y2, z2, 0, 0, 0, 0, 0, 0), 27783int, mono6(x1, y1, z1, x2, y2, z2, 0, 1, 5, 0, 2, 4));
    lemma_mono6_mul(x1, y1, z1, x2, y2, z2, 0, 0, 0, 0, 0, 0, 0, 1, 5, 0, 2, 4);
    lemma_coefficient_product(7int, mono6(x1, y1, z1, x2, y2, z2, 0, 0, 0, 0, 0, 0), 1323int, mono6(x1, y1, z1, x2, y2, z2, 0, 1, 5, 0, 4, 2));
    lemma_mono6_mul(x1, y1, z1, x2, y2, z2, 0, 0, 0, 0, 0, 0, 0, 1, 5, 0, 4, 2);
    lemma_coefficient_product(7int, mono6(x1, y1, z1, x2, y2, z2, 0, 0, 0, 0, 0, 0), 27783int, mono6(x1, y1, z1, x2, y2, z2, 0, 2, 4, 0, 1, 5));
    lemma_mono6_mul(x1, y1, z1, x2, y2, z2, 0, 0, 0, 0, 0, 0, 0, 2, 4, 0, 1, 5);
    lemma_coefficient_product(7int, mono6(x1, y1, z1, x2, y2, z2, 0, 0, 0, 0, 0, 0), 3969int, mono6(x1, y1, z1, x2, y2, z2, 0, 2, 4, 0, 3, 3));
    lemma_mono6_mul(x1, y1, z1, x2, y2, z2, 0, 0, 0, 0, 0, 0, 0, 2, 4, 0, 3, 3);
    lemma_coefficient_product(7int, mono6(x1, y1, z1, x2, y2, z2, 0, 0, 0, 0, 0, 0), 63int, mono6(x1, y1, z1, x2, y2, z2, 0, 2, 4, 0, 5, 1));
    lemma_mono6_mul(x1, y1, z1, x2, y2, z2, 0, 0, 0, 0, 0, 0, 0, 2, 4, 0, 5, 1);
    lemma_coefficient_product(7int, mono6(x1, y1, z1, x2, y2, z2, 0, 0, 0, 0, 0, 0), 9261int, mono6(x1, y1, z1, x2, y2, z2, 0, 3, 3, 0, 0, 6));
    lemma_mono6_mul(x1, y1, z1, x2, y2, z2, 0, 0, 0, 0, 0, 0, 0, 3, 3, 0, 0, 6);
    lemma_coefficient_product(7int, mono6(x1, y1, z1, x2, y2, z2, 0, 0, 0, 0, 0, 0), 3969int, mono6(x1, y1, z1, x2, y2, z2, 0, 3, 3, 0, 2, 4));
    lemma_mono6_mul(x1, y1, z1, x2, y2, z2, 0, 0, 0, 0, 0, 0, 0, 3, 3, 0, 2, 4);
    lemma_coefficient_product(7int, mono6(x1, y1, z1, x2, y2, z2, 0, 0, 0, 0, 0, 0), 189int, mono6(x1, y1, z1, x2, y2, z2, 0, 3, 3, 0, 4, 2));
    lemma_mono6_mul(x1, y1, z1, x2, y2, z2, 0, 0, 0, 0, 0, 0, 0, 3, 3, 0, 4, 2);
    lemma_coefficient_product(7int, mono6(x1, y1, z1, x2, y2, z2, 0, 0, 0, 0, 0, 0), 1int, mono6(x1, y1, z1, x2, y2, z2, 0, 3, 3, 0, 6, 0));
    lemma_mono6_mul(x1, y1, z1, x2, y2, z2, 0, 0, 0, 0, 0, 0, 0, 3, 3, 0, 6, 0);
    lemma_coefficient_product(7int, mono6(x1, y1, z1, x2, y2, z2, 0, 0, 0, 0, 0, 0), 1323int, mono6(x1, y1, z1, x2, y2, z2, 0, 4, 2, 0, 1, 5));
    lemma_mono6_mul(x1, y1, z1, x2, y2, z2, 0, 0, 0, 0, 0, 0, 0, 4, 2, 0, 1, 5);
    lemma_coefficient_product(7int, mono6(x1, y1, z1, x2, y2, z2, 0, 0, 0, 0, 0, 0), 189int, mono6(x1, y1, z1, x2, y2, z2, 0, 4, 2, 0, 3, 3));
    lemma_mono6_mul(x1, y1, z1, x2, y2, z2, 0, 0, 0, 0, 0, 0, 0, 4, 2, 0, 3, 3);
    lemma_coefficient_product(7int, mono6(x1, y1, z1, x2, y2, z2, 0, 0, 0, 0, 0, 0), 3int, mono6(x1, y1, z1, x2, y2, z2, 0, 4, 2, 0, 5, 1));
    lemma_mono6_mul(x1, y1, z1, x2, y2, z2, 0, 0, 0, 0, 0, 0, 0, 4, 2, 0, 5, 1);
    lemma_coefficient_product(7int, mono6(x1, y1, z1, x2, y2, z2, 0, 0, 0, 0, 0, 0), 63int, mono6(x1, y1, z1, x2, y2, z2, 0, 5, 1, 0, 2, 4));
    lemma_mono6_mul(x1, y1, z1, x2, y2, z2, 0, 0, 0, 0, 0, 0, 0, 5, 1, 0, 2, 4);
    lemma_coefficient_product(7int, mono6(x1, y1, z1, x2, y2, z2, 0, 0, 0, 0, 0, 0), 3int, mono6(x1, y1, z1, x2, y2, z2, 0, 5, 1, 0, 4, 2));
    lemma_mono6_mul(x1, y1, z1, x2, y2, z2, 0, 0, 0, 0, 0, 0, 0, 5, 1, 0, 4, 2);
    lemma_coefficient_product(7int, mono6(x1, y1, z1, x2, y2, z2, 0, 0, 0, 0, 0, 0), 1int, mono6(x1, y1, z1, x2, y2, z2, 0, 6, 0, 0, 3, 3));
    lemma_mono6_mul(x1, y1, z1, x2, y2, z2, 0, 0, 0, 0, 0, 0, 0, 6, 0, 0, 3, 3);
    lemma_coefficient_product(7int, mono6(x1, y1, z1, x2, y2, z2, 0, 0, 0, 0, 0, 0), 3969int, mono6(x1, y1, z1, x2, y2, z2, 1, 1, 4, 2, 2, 2));
    lemma_mono6_mul(x1, y1, z1, x2, y2, z2, 0, 0, 0, 0, 0, 0, 1, 1, 4, 2, 2, 2);
    lemma_coefficient_product(7int, mono6(x1, y1, z1, x2, y2, z2, 0, 0, 0, 0, 0, 0), 7938int, mono6(x1, y1, z1, x2, y2, z2, 1, 2, 3, 2, 1, 3));
    lemma_mono6_mul(x1, y1, z1, x2, y2, z2, 0, 0, 0, 0, 0, 0, 1, 2, 3, 2, 1, 3);
    lemma_coefficient_product(7int, mono6(x1, y1, z1, x2, y2, z2, 0, 0, 0, 0, 0, 0), 378int, mono6(x1, y1, z1, x2, y2, z2, 1, 2, 3, 2, 3, 1));
    lemma_mono6_mul(x1, y1, z1, x2, y2, z2, 0, 0, 0, 0, 0, 0, 1, 2, 3, 2, 3, 1);
    lemma_coefficient_product(7int, mono6(x1, y1, z1, x2, y2, z2, 0, 0, 0, 0, 0, 0), 3969int, mono6(x1, y1, z1, x2, y2, z2, 1, 3, 2, 2, 0, 4));
    lemma_mono6_mul(x1, y1, z1, x2, y2, z2, 0, 0, 0, 0, 0, 0, 1, 3, 2, 2, 0, 4);
    lemma_coefficient_product(7int, mono6(x1, y1, z1, x2, y2, z2, 0, 0, 0, 0, 0, 0), 756int, mono6(x1, y1, z1, x2, y2, z2, 1, 3, 2, 2, 2, 2));
    lemma_mono6_mul(x1, y1, z1, x2, y2, z2, 0, 0, 0, 0, 0, 0, 1, 3, 2, 2, 2, 2);
    lemma_coefficient_product(7int, mono6(x1, y1, z1, x2, y2, z2, 0, 0, 0, 0, 0, 0), 9int, mono6(x1, y1, z1, x2, y2, z2, 1, 3, 2, 2, 4, 0));
    lemma_mono6_mul(x1, y1, z1, x2, y2, z2, 0, 0, 0, 0, 0, 0, 1, 3, 2, 2, 4, 0);
    lemma_coefficient_product(7int, mono6(x1, y1, z1, x2, y2, z2, 0, 0, 0, 0, 0, 0), 378int, mono6(x1, y1, z1, x2, y2, z2, 1, 4, 1, 2, 1, 3));
    lemma_mono6_mul(x1, y1, z1, x2, y2, z2, 0, 0, 0, 0, 0, 0, 1, 4, 1, 2, 1, 3);
    lemma_coefficient_product(7int, mono6(x1, y1, z1, x2, y2, z2, 0, 0, 0, 0, 0, 0), 18int, mono6(x1, y1, z1, x2, y2, z2, 1, 4, 1, 2, 3, 1));
    lemma_mono6_mul(x1, y1, z1, x2, y2, z2, 0, 0, 0, 0, 0, 0, 1, 4, 1, 2, 3, 1);
    lemma_coefficient_product(7int, mono6(x1, y1, z1, x2, y2, z2, 0, 0, 0, 0, 0, 0), 9int, mono6(x1, y1, z1, x2, y2, z2, 1, 5, 0, 2, 2, 2));
    lemma_mono6_mul(x1, y1, z1, x2, y2, z2, 0, 0, 0, 0, 0, 0, 1, 5, 0, 2, 2, 2);
    lemma_coefficient_product(7int, mono6(x1, y1, z1, x2, y2, z2, 0, 0, 0, 0, 0, 0), 3969int, mono6(x1, y1, z1, x2, y2, z2, 2, 0, 4, 1, 3, 2));
    lemma_mono6_mul(x1, y1, z1, x2, y2, z2, 0, 0, 0, 0, 0, 0, 2, 0, 4, 1, 3, 2);
    lemma_coefficient_product(7int, mono6(x1, y1, z1, x2, y2, z2, 0, 0, 0, 0, 0, 0), 7938int, mono6(x1, y1, z1, x2, y2, z2, 2, 1, 3, 1, 2, 3));
    lemma_mono6_mul(x1, y1, z1, x2, y2, z2, 0, 0, 0, 0, 0, 0, 2, 1, 3, 1, 2, 3);
    lemma_coefficient_product(7int, mono6(x1, y1, z1, x2, y2, z2, 0, 0, 0, 0, 0, 0), 378int, mono6(x1, y1, z1, x2, y2, z2, 2, 1, 3, 1, 4, 1));
    lemma_mono6_mul(x1, y1, z1, x2, y2, z2, 0, 0, 0, 0, 0, 0, 2, 1, 3, 1, 4, 1);
    lemma_coefficient_product(7int, mono6(x1, y1, z1, x2, y2, z2, 0, 0, 0, 0, 0, 0), 3969int, mono6(x1, y1, z1, x2, y2, z2, 2, 2, 2, 1, 1, 4));
    lemma_mono6_mul(x1, y1, z1, x2, y2, z2, 0, 0, 0, 0, 0, 0, 2, 2, 2, 1, 1, 4);
    lemma_coefficient_product(7int, mono6(x1, y1, z1, x2, y2, z2, 0, 0, 0, 0, 0, 0), 756int, mono6(x1, y1, z1, x2, y2, z2, 2, 2, 2, 1, 3, 2));
    lemma_mono6_mul(x1, y1, z1, x2, y2, z2, 0, 0, 0, 0, 0, 0, 2, 2, 2, 1, 3, 2);
    lemma_coefficient_product(7int, mono6(x1, y1, z1, x2, y2, z2, 0, 0, 0, 0, 0, 0), 9int, mono6(x1, y1, z1, x2, y2, z2, 2, 2, 2, 1, 5, 0));
    lemma_mono6_mul(x1, y1, z1, x2, y2, z2, 0, 0, 0, 0, 0, 0, 2, 2, 2, 1, 5, 0);
    lemma_coefficient_product(7int, mono6(x1, y1, z1, x2, y2, z2, 0, 0, 0, 0, 0, 0), 567int, mono6(x1, y1, z1, x2, y2, z2, 2, 2, 2, 4, 1, 1));
    lemma_mono6_mul(x1, y1, z1, x2, y2, z2, 0, 0, 0, 0, 0, 0, 2, 2, 2, 4, 1, 1);
    lemma_coefficient_product(7int, mono6(x1, y1, z1, x2, y2, z2, 0, 0, 0, 0, 0, 0), 378int, mono6(x1, y1, z1, x2, y2, z2, 2, 3, 1, 1, 2, 3));
    lemma_mono6_mul(x1, y1, z1, x2, y2, z2, 0, 0, 0, 0, 0, 0, 2, 3, 1, 1, 2, 3);
    lemma_coefficient_product(7int, mono6(x1, y1, z1, x2, y2, z2, 0, 0, 0, 0, 0, 0), 18int, mono6(x1, y1, z1, x2, y2, z2, 2, 3, 1, 1, 4, 1));
    lemma_mono6_mul(x1, y1, z1, x2, y2, z2, 0, 0, 0, 0, 0, 0, 2, 3, 1, 1, 4, 1);
    lemma_coefficient_product(7int, mono6(x1, y1, z1, x2, y2, z2, 0, 0, 0, 0, 0, 0), 567int, mono6(x1, y1, z1, x2, y2, z2, 2, 3, 1, 4, 0, 2));
    lemma_mono6_mul(x1, y1, z1, x2, y2, z2, 0, 0, 0, 0, 0, 0, 2, 3, 1, 4, 0, 2);
    lemma_coefficient_product(7int, mono6(x1, y1, z1, x2, y2, z2, 0, 0, 0, 0, 0, 0), 27int, mono6(x1, y1, z1, x2, y2, z2, 2, 3, 1, 4, 2, 0));
    lemma_mono6_mul(x1, y1, z1, x2, y2, z2, 0, 0, 0, 0, 0, 0, 2, 3, 1, 4, 2, 0);
    lemma_coefficient_product(7int, mono6(x1, y1, z1, x2, y2, z2, 0, 0, 0, 0, 0, 0), 9int, mono6(x1, y1, z1, x2, y2, z2, 2, 4, 0, 1, 3, 2));
    lemma_mono6_mul(x1, y1, z1, x2, y2, z2, 0, 0, 0, 0, 0, 0, 2, 4, 0, 1, 3, 2);
    lemma_coefficient_product(7int, mono6(x1, y1, z1, x2, y2, z2, 0, 0, 0, 0, 0, 0), 27int, mono6(x1, y1, z1, x2, y2, z2, 2, 4, 0, 4, 1, 1));
    lemma_mono6_mul(x1, y1, z1, x2, y2, z2, 0, 0, 0, 0, 0, 0, 2, 4, 0, 4, 1, 1);
    lemma_coefficient_product(7int, mono6(x1, y1, z1, x2, y2, z2, 0, 0, 0, 0, 0, 0), 1134int, mono6(x1, y1, z1, x2, y2, z2, 3, 1, 2, 3, 2, 1));
    lemma_mono6_mul(x1, y1, z1, x2, y2, z2, 0, 0, 0, 0, 0, 0, 3, 1, 2, 3, 2, 1);
    lemma_coefficient_product(7int, mono6(x1, y1, z1, x2, y2, z2, 0, 0, 0, 0, 0, 0), 1134int, mono6(x1, y1, z1, x2, y2, z2, 3, 2, 1, 3, 1, 2));
    lemma_mono6_mul(x1, y1, z1, x2, y2, z2, 0, 0, 0, 0, 0, 0, 3, 2, 1, 3, 1, 2);
    lemma_coefficient_product(7int, mono6(x1, y1, z1, x2, y2, z2, 0, 0, 0, 0, 0, 0), 54int, mono6(x1, y1, z1, x2, y2, z2, 3, 2, 1, 3, 3, 0));
    lemma_mono6_mul(x1, y1, z1, x2, y2, z2, 0, 0, 0, 0, 0, 0, 3, 2, 1, 3, 3, 0);
    lemma_coefficient_product(7int, mono6(x1, y1, z1, x2, y2, z2, 0, 0, 0, 0, 0, 0), 54int, mono6(x1, y1, z1, x2, y2, z2, 3, 3, 0, 3, 2, 1));
    lemma_mono6_mul(x1, y1, z1, x2, y2, z2, 0, 0, 0, 0, 0, 0, 3, 3, 0, 3, 2, 1);
    lemma_coefficient_product(7int, mono6(x1, y1, z1, x2, y2, z2, 0, 0, 0, 0, 0, 0), 27int, mono6(x1, y1, z1, x2, y2, z2, 3, 3, 0, 6, 0, 0));
    lemma_mono6_mul(x1, y1, z1, x2, y2, z2, 0, 0, 0, 0, 0, 0, 3, 3, 0, 6, 0, 0);
    lemma_coefficient_product(7int, mono6(x1, y1, z1, x2, y2, z2, 0, 0, 0, 0, 0, 0), 567int, mono6(x1, y1, z1, x2, y2, z2, 4, 0, 2, 2, 3, 1));
    lemma_mono6_mul(x1, y1, z1, x2, y2, z2, 0, 0, 0, 0, 0, 0, 4, 0, 2, 2, 3, 1);
    lemma_coefficient_product(7int, mono6(x1, y1, z1, x2, y2, z2, 0, 0, 0, 0, 0, 0), 567int, mono6(x1, y1, z1, x2, y2, z2, 4, 1, 1, 2, 2, 2));
    lemma_mono6_mul(x1, y1, z1, x2, y2, z2, 0, 0, 0, 0, 0, 0, 4, 1, 1, 2, 2, 2);
    lemma_coefficient_product(7int, mono6(x1, y1, z1, x2, y2, z2, 0, 0, 0, 0, 0, 0), 27int, mono6(x1, y1, z1, x2, y2, z2, 4, 1, 1, 2, 4, 0));
    lemma_mono6_mul(x1, y1, z1, x2, y2, z2, 0, 0, 0, 0, 0, 0, 4, 1, 1, 2, 4, 0);
    lemma_coefficient_product(7int, mono6(x1, y1, z1, x2, y2, z2, 0, 0, 0, 0, 0, 0), 27int, mono6(x1, y1, z1, x2, y2, z2, 4, 2, 0, 2, 3, 1));
    lemma_mono6_mul(x1, y1, z1, x2, y2, z2, 0, 0, 0, 0, 0, 0, 4, 2, 0, 2, 3, 1);
    lemma_coefficient_product(7int, mono6(x1, y1, z1, x2, y2, z2, 0, 0, 0, 0, 0, 0), 81int, mono6(x1, y1, z1, x2, y2, z2, 4, 2, 0, 5, 1, 0));
    lemma_mono6_mul(x1, y1, z1, x2, y2, z2, 0, 0, 0, 0, 0, 0, 4, 2, 0, 5, 1, 0);
    lemma_coefficient_product(7int, mono6(x1, y1, z1, x2, y2, z2, 0, 0, 0, 0, 0, 0), 81int, mono6(x1, y1, z1, x2, y2, z2, 5, 1, 0, 4, 2, 0));
    lemma_mono6_mul(x1, y1, z1, x2, y2, z2, 0, 0, 0, 0, 0, 0, 5, 1, 0, 4, 2, 0);
    lemma_coefficient_product(7int, mono6(x1, y1, z1, x2, y2, z2, 0, 0, 0, 0, 0, 0), 27int, mono6(x1, y1, z1, x2, y2, z2, 6, 0, 0, 3, 3, 0));
    lemma_mono6_mul(x1, y1, z1, x2, y2, z2, 0, 0, 0, 0, 0, 0, 6, 0, 0, 3, 3, 0);
    assert((7 * ((((((y1 * z2) + (z1 * y2)) * ((y1 * y2) + (21 * (z1 * z2)))) + ((3 * (x1 * x2)) * ((x1 * y2) + (y1 * x2)))) * ((((y1 * z2) + (z1 * y2)) * ((y1 * y2) + (21 * (z1 * z2)))) + ((3 * (x1 * x2)) * ((x1 * y2) + (y1 * x2))))) * ((((y1 * z2) + (z1 * y2)) * ((y1 * y2) + (21 * (z1 * z2)))) + ((3 * (x1 * x2)) * ((x1 * y2) + (y1 * x2)))))) == ((((((64827int * mono6(x1, y1, z1, x2, y2, z2, 0, 0, 6, 0, 3, 3)) + ((194481int * mono6(x1, y1, z1, x2, y2, z2, 0, 1, 5, 0, 2, 4)) + (9261int * mono6(x1, y1, z1, x2, y2, z2, 0, 1, 5, 0, 4, 2)))) + ((194481int * mono6(x1, y1, z1, x2, y2, z2, 0, 2, 4, 0, 1, 5)) + ((27783int * mono6(x1, y1, z1, x2, y2, z2, 0, 2, 4, 0, 3, 3)) + (441int * mono6(x1, y1, z1, x2, y2, z2, 0, 2, 4, 0, 5, 1))))) + (((64827int * mono6(x1, y1, z1, x2, y2, z2, 0, 3, 3, 0, 0, 6)) + ((27783int * mono6(x1, y1, z1, x2, y2, z2, 0, 3, 3, 0, 2, 4)) + (1323int * mono6(x1, y1, z1, x2, y2, z2, 0, 3, 3, 0, 4, 2)))) + ((7int * mono6(x1, y1, z1, x2, y2, z2, 0, 3, 3, 0, 6, 0)) + ((9261int * mono6(x1, y1, z1, x2, y2, z2, 0, 4, 2, 0, 1, 5)) + (1323int * mono6(x1, y1, z1, x2, y2, z2, 0, 4, 2, 0, 3, 3)))))) + ((((21int * mono6(x1, y1, z1, x2, y2, z2, 0, 4, 2, 0, 5, 1)) + ((441int * mono6(x1, y1, z1, x2, y2, z2, 0, 5, 1, 0, 2, 4)) + (21int * mono6(x1, y1, z1, x2, y2, z2, 0, 5, 1, 0, 4, 2)))) + ((7int * mono6(x1, y1, z1, x2, y2, z2, 0, 6, 0, 0, 3, 3)) + ((27783int * mono6(x1, y1, z1, x2, y2, z2, 1, 1, 4, 2, 2, 2)) + (55566int * mono6(x1, y1, z1, x2, y2, z2, 1, 2, 3, 2, 1, 3))))) + (((2646int * mono6(x1, y1, z1, x2, y2, z2, 1, 2, 3, 2, 3, 1)) + ((27783int * mono6(x1, y1, z1, x2, y2, z2, 1, 3, 2, 2, 0, 4)) + (5292int * mono6(x1, y1, z1, x2, y2, z2, 1, 3, 2, 2, 2, 2)))) + (((63int * mono6(x1, y1, z1, x2, y2, z2, 1, 3, 2, 2, 4, 0)) + (2646int * mono6(x1, y1, z1, x2, y2, z2, 1, 4, 1, 2, 1, 3))) + ((126int * mono6(x1, y1, z1, x2, y2, z2, 1, 4, 1, 2, 3, 1)) + (63int * mono6(x1, y1, z1, x2, y2, z2, 1, 5, 0, 2, 2, 2))))))) + (((((27783int * mono6(x1, y1, z1, x2, y2, z2, 2, 0, 4, 1, 3, 2)) + ((55566int * mono6(x1, y1, z1, x2, y2, z2, 2, 1, 3, 1, 2, 3)) + (2646int * mono6(x1, y1, z1, x2, y2, z2, 2, 1, 3, 1, 4, 1)))) + ((27783int * mono6(x1, y1, z1, x2, y2, z2, 2, 2, 2, 1, 1, 4)) + ((5292int * mono6(x1, y1, z1, x2, y2, z2, 2, 2, 2, 1, 3, 2)) + (63int * mono6(x1, y1, z1, x2, y2, z2, 2, 2, 2, 1, 5, 0))))) + (((3969int * mono6(x1, y1, z1, x2, y2, z2, 2, 2, 2, 4, 1, 1)) + ((2646int * mono6(x1, y1, z1, x2, y2, z2, 2, 3, 1, 1, 2, 3)) + (126int * mono6(x1, y1, z1, x2, y2, z2, 2, 3, 1, 1, 4, 1)))) + ((3969int * mono6(x1, y1, z1, x2, y2, z2, 2, 3, 1, 4, 0, 2)) + ((189int * mono6(x1, y1, z1, x2, y2, z2, 2, 3, 1, 4, 2, 0)) + (63int * mono6(x1, y1, z1, x2, y2, z2, 2, 4, 0, 1, 3, 2)))))) + ((((189int * mono6(x1, y1, z1, x2, y2, z2, 2, 4, 0, 4, 1, 1)) + ((7938int * mono6(x1, y1, z1, x2, y2, z2, 3, 1, 2, 3, 2, 1)) + (7938int * mono6(x1, y1, z1, x2, y2, z2, 3, 2, 1, 3, 1, 2)))) + ((378int * mono6(x1, y1, z1, x2, y2, z2, 3, 2, 1, 3, 3, 0)) + ((378int * mono6(x1, y1, z1, x2, y2, z2, 3, 3, 0, 3, 2, 1)) + (189int * mono6(x1, y1, z1, x2, y2, z2, 3, 3, 0, 6, 0, 0))))) + (((3969int * mono6(x1, y1, z1, x2, y2, z2, 4, 0, 2, 2, 3, 1)) + ((3969int * mono6(x1, y1, z1, x2, y2, z2, 4, 1, 1, 2, 2, 2)) + (189int * mono6(x1, y1, z1, x2, y2, z2, 4, 1, 1, 2, 4, 0)))) + (((189int * mono6(x1, y1, z1, x2, y2, z2, 4, 2, 0, 2, 3, 1)) + (567int * mono6(x1, y1, z1, x2, y2, z2, 4, 2, 0, 5, 1, 0))) + ((567int * mono6(x1, y1, z1, x2, y2, z2, 5, 1, 0, 4, 2, 0)) + (189int * mono6(x1, y1, z1, x2, y2, z2, 6, 0, 0, 3, 3, 0)))))))));
}

#[verifier::rlimit(60)]
proof fn lemma_add_curve_identity_part4(x1: int, y1: int, z1: int, x2: int, y2: int, z2: int)
    ensures
        ((((((74088int * mono6(x1, y1, z1, x2, y2, z2, 0, 0, 3, 0, 3, 3)) + (((-83349int) * mono6(x1, y1, z1, x2, y2, z2, 0, 0, 3, 3, 1, 2)) + (1323int * mono6(x1, y1, z1, x2, y2, z2, 0, 0, 3, 3, 3, 0)))) + (((111132int * mono6(x1, y1, z1, x2, y2, z2, 0, 1, 2, 0, 2, 4)) + ((-5292int) * mono6(x1, y1, z1, x2, y2, z2, 0, 1, 2, 0, 4, 2))) + ((11907int * mono6(x1, y1, z1, x2, y2, z2, 0, 1, 2, 6, 0, 0)) + (55566int * mono6(x1, y1, z1, x2, y2, z2, 0, 2, 1, 0, 1, 5))))) + (((((-5292int) * mono6(x1, y1, z1, x2, y2, z2, 0, 2, 1, 0, 3, 3)) + (126int * mono6(x1, y1, z1, x2, y2, z2, 0, 2, 1, 0, 5, 1))) + ((11907int * mono6(x1, y1, z1, x2, y2, z2, 0, 2, 1, 3, 1, 2)) + ((-189int) * mono6(x1, y1, z1, x2, y2, z2, 0, 2, 1, 3, 3, 0)))) + (((9261int * mono6(x1, y1, z1, x2, y2, z2, 0, 3, 0, 0, 0, 6)) + ((-1323int) * mono6(x1, y1, z1, x2, y2, z2, 0, 3, 0, 0, 2, 4))) + ((63int * mono6(x1, y1, z1, x2, y2, z2, 0, 3, 0, 0, 4, 2)) + ((-1int) * mono6(x1, y1, z1, x2, y2, z2, 0, 3, 0, 0, 6, 0)))))) + (((((-189int) * mono6(x1, y1, z1, x2, y2, z2, 0, 3, 0, 6, 0, 0)) + (((-83349int) * mono6(x1, y1, z1, x2, y2, z2, 1, 0, 2, 2, 1, 3)) + ((-3969int) * mono6(x1, y1, z1, x2, y2, z2, 1, 0, 2, 2, 3, 1)))) + (((11907int * mono6(x1, y1, z1, x2, y2, z2, 1, 0, 2, 5, 1, 0)) + (83349int * mono6(x1, y1, z1, x2, y2, z2, 1, 1, 1, 2, 0, 4))) + (((-189int) * mono6(x1, y1, z1, x2, y2, z2, 1, 1, 1, 2, 4, 0)) + (23814int * mono6(x1, y1, z1, x2, y2, z2, 1, 1, 1, 5, 0, 1))))) + ((((3969int * mono6(x1, y1, z1, x2, y2, z2, 1, 2, 0, 2, 1, 3)) + (189int * mono6(x1, y1, z1, x2, y2, z2, 1, 2, 0, 2, 3, 1))) + (((-567int) * mono6(x1, y1, z1, x2, y2, z2, 1, 2, 0, 5, 1, 0)) + (23814int * mono6(x1, y1, z1, x2, y2, z2, 2, 0, 1, 4, 1, 1)))) + (((11907int * mono6(x1, y1, z1, x2, y2, z2, 2, 1, 0, 4, 0, 2)) + ((-567int) * mono6(x1, y1, z1, x2, y2, z2, 2, 1, 0, 4, 2, 0))) + ((11907int * mono6(x1, y1, z1, x2, y2, z2, 3, 0, 0, 3, 1, 2)) + ((-189int) * mono6(x1, y1, z1, x2, y2, z2, 3, 0, 0, 3, 3, 0))))))) * ((((x1 * x1) * x1) + (7 * ((z1 * z1) * z1))) - ((y1 * y1) * z1))) == (((((((518616int * mono6(x1, y1, z1, x2, y2, z2, 0, 0, 6, 0, 3, 3)) + ((-583443int) * mono6(x1, y1, z1, x2, y2, z2, 0, 0, 6, 3, 1, 2))) + ((9261int * mono6(x1, y1, z1, x2, y2, z2, 0, 0, 6, 3, 3, 0)) + (777924int * mono6(x1, y1, z1, x2, y2, z2, 0, 1, 5, 0, 2, 4)))) + ((((-37044int) * mono6(x1, y1, z1, x2, y2, z2, 0, 1, 5, 0, 4, 2)) + (83349int * mono6(x1, y1, z1, x2, y2, z2, 0, 1, 5, 6, 0, 0))) + ((388962int * mono6(x1, y1, z1, x2, y2, z2, 0, 2, 4, 0, 1, 5)) + (((-111132int) * mono6(x1, y1, z1, x2, y2, z2, 0, 2, 4, 0, 3, 3)) + (882int * mono6(x1, y1, z1, x2, y2, z2, 0, 2, 4, 0, 5, 1)))))) + ((((166698int * mono6(x1, y1, z1, x2, y2, z2, 0, 2, 4, 3, 1, 2)) + ((-2646int) * mono6(x1, y1, z1, x2, y2, z2, 0, 2, 4, 3, 3, 0))) + ((64827int * mono6(x1, y1, z1, x2, y2, z2, 0, 3, 3, 0, 0, 6)) + ((-120393int) * mono6(x1, y1, z1, x2, y2, z2, 0, 3, 3, 0, 2, 4)))) + (((5733int * mono6(x1, y1, z1, x2, y2, z2, 0, 3, 3, 0, 4, 2)) + ((-7int) * mono6(x1, y1, z1, x2, y2, z2, 0, 3, 3, 0, 6, 0))) + (((-13230int) * mono6(x1, y1, z1, x2, y2, z2, 0, 3, 3, 6, 0, 0)) + (((-55566int) * mono6(x1, y1, z1, x2, y2, z2, 0, 4, 2, 0, 1, 5)) + (5292int * mono6(x1, y1, z1, x2, y2, z2, 0, 4, 2, 0, 3, 3))))))) + ((((((-126int) * mono6(x1, y1, z1, x2, y2, z2, 0, 4, 2, 0, 5, 1)) + ((-11907int) * mono6(x1, y1, z1, x2, y2, z2, 0, 4, 2, 3, 1, 2))) + ((189int * mono6(x1, y1, z1, x2, y2, z2, 0, 4, 2, 3, 3, 0)) + ((-9261int) * mono6(x1, y1, z1, x2, y2, z2, 0, 5, 1, 0, 0, 6)))) + (((1323int * mono6(x1, y1, z1, x2, y2, z2, 0, 5, 1, 0, 2, 4)) + ((-63int) * mono6(x1, y1, z1, x2, y2, z2, 0, 5, 1, 0, 4, 2))) + ((1int * mono6(x1, y1, z1, x2, y2, z2, 0, 5, 1, 0, 6, 0)) + ((189int * mono6(x1, y1, z1, x2, y2, z2, 0, 5, 1, 6, 0, 0)) + ((-583443int) * mono6(x1, y1, z1, x2, y2, z2, 1, 0, 5, 2, 1, 3)))))) + (((((-27783int) * mono6(x1, y1, z1, x2, y2, z2, 1, 0, 5, 2, 3, 1)) + (83349int * mono6(x1, y1, z1, x2, y2, z2, 1, 0, 5, 5, 1, 0))) + ((583443int * mono6(x1, y1, z1, x2, y2, z2, 1, 1, 4, 2, 0, 4)) + ((-1323int) * mono6(x1, y1, z1, x2, y2, z2, 1, 1, 4, 2, 4, 0)))) + (((166698int * mono6(x1, y1, z1, x2, y2, z2, 1, 1, 4, 5, 0, 1)) + (111132int * mono6(x1, y1, z1, x2, y2, z2, 1, 2, 3, 2, 1, 3))) + ((5292int * mono6(x1, y1, z1, x2, y2, z2, 1, 2, 3, 2, 3, 1)) + (((-15876int) * mono6(x1, y1, z1, x2, y2, z2, 1, 2, 3, 5, 1, 0)) + ((-83349int) * mono6(x1, y1, z1, x2, y2, z2, 1, 3, 2, 2, 0, 4)))))))) + ((((((189int * mono6(x1, y1, z1, x2, y2, z2, 1, 3, 2, 2, 4, 0)) + ((-23814int) * mono6(x1, y1, z1, x2, y2, z2, 1, 3, 2, 5, 0, 1))) + (((-3969int) * mono6(x1, y1, z1, x2, y2, z2, 1, 4, 1, 2, 1, 3)) + ((-189int) * mono6(x1, y1, z1, x2, y2, z2, 1, 4, 1, 2, 3, 1)))) + (((567int * mono6(x1, y1, z1, x2, y2, z2, 1, 4, 1, 5, 1, 0)) + (166698int * mono6(x1, y1, z1, x2, y2, z2, 2, 0, 4, 4, 1, 1))) + ((83349int * mono6(x1, y1, z1, x2, y2, z2, 2, 1, 3, 4, 0, 2)) + (((-3969int) * mono6(x1, y1, z1, x2, y2, z2, 2, 1, 3, 4, 2, 0)) + ((-23814int) * mono6(x1, y1, z1, x2, y2, z2, 2, 2, 2, 4, 1, 1)))))) + (((((-11907int) * mono6(x1, y1, z1, x2, y2, z2, 2, 3, 1, 4, 0, 2)) + (567int * mono6(x1, y1, z1, x2, y2, z2, 2, 3, 1, 4, 2, 0))) + ((74088int * mono6(x1, y1, z1, x2, y2, z2, 3, 0, 3, 0, 3, 3)) + (111132int * mono6(x1, y1, z1, x2, y2, z2, 3, 1, 2, 0, 2, 4)))) + ((((-5292int) * mono6(x1, y1, z1, x2, y2, z2, 3, 1, 2, 0, 4, 2)) + (11907int * mono6(x1, y1, z1, x2, y2, z2, 3, 1, 2, 6, 0, 0))) + ((55566int * mono6(x1, y1, z1, x2, y2, z2, 3, 2, 1, 0, 1, 5)) + (((-5292int) * mono6(x1, y1, z1, x2, y2, z2, 3, 2, 1, 0, 3, 3)) + (126int * mono6(x1, y1, z1, x2, y2, z2, 3, 2, 1, 0, 5, 1))))))) + (((((9261int * mono6(x1, y1, z1, x2, y2, z2, 3, 3, 0, 0, 0, 6)) + ((-1323int) * mono6(x1, y1, z1, x2, y2, z2, 3, 3, 0, 0, 2, 4))) + ((63int * mono6(x1, y1, z1, x2, y2, z2, 3, 3, 0, 0, 4, 2)) + ((-1int) * mono6(x1, y1, z1, x2, y2, z2, 3, 3, 0, 0, 6, 0)))) + ((((-189int) * mono6(x1, y1, z1, x2, y2, z2, 3, 3, 0, 6, 0, 0)) + ((-83349int) * mono6(x1, y1, z1, x2, y2, z2, 4, 0, 2, 2, 1, 3))) + (((-3969int) * mono6(x1, y1, z1, x2, y2, z2, 4, 0, 2, 2, 3, 1)) + ((11907int * mono6(x1, y1, z1, x2, y2, z2, 4, 0, 2, 5, 1, 0)) + (83349int * mono6(x1, y1, z1, x2, y2, z2, 4, 1, 1, 2, 0, 4)))))) + (((((-189int) * mono6(x1, y1, z1, x2, y2, z2, 4, 1, 1, 2, 4, 0)) + (23814int * mono6(x1, y1, z1, x2, y2, z2, 4, 1, 1, 5, 0, 1))) + ((3969int * mono6(x1, y1, z1, x2, y2, z2, 4, 2, 0, 2, 1, 3)) + ((189int * mono6(x1, y1, z1, x2, y2, z2, 4, 2, 0, 2, 3, 1)) + ((-567int) * mono6(x1, y1, z1, x2, y2, z2, 4, 2, 0, 5, 1, 0))))) + (((23814int * mono6(x1, y1, z1, x2, y2, z2, 5, 0, 1, 4, 1, 1)) + (11907int * mono6(x1, y1, z1, x2, y2, z2, 5, 1, 0, 4, 0, 2))) + (((-567int) * mono6(x1, y1, z1, x2, y2, z2, 5, 1, 0, 4, 2, 0)) + ((11907int * mono6(x1, y1, z1, x2, y2, z2, 6, 0, 0, 3, 1, 2)) + ((-189int) * mono6(x1, y1, z1, x2, y2, z2, 6, 0, 0, 3, 3, 0))))))))),
{
    lemma_mono6_vars(x1, y1, z1, x2, y2, z2);
    assert(x1 == (1int * mono6(x1, y1, z1, x2, y2, z2, 1, 0, 0, 0, 0, 0)));
    assert(x1 == (1int * mono6(x1, y1, z1, x2, y2, z2, 1, 0, 0, 0, 0, 0)));
    assert((x1 * x1) == (1int * mono6(x1, y1, z1, x2, y2, z2, 1, 0, 0, 0, 0, 0)) * (1int * mono6(x1, y1, z1, x2, y2, z2, 1, 0, 0, 0, 0, 0)));
    lemma_coefficient_product(1int, mono6(x1, y1, z1, x2, y2, z2, 1, 0, 0, 0, 0, 0), 1int, mono6(x1, y1, z1, x2, y2, z2, 1, 0, 0, 0, 0, 0));
    lemma_mono6_mul(x1, y1, z1, x2, y2, z2, 1, 0, 0, 0, 0, 0, 1, 0, 0, 0, 0, 0);
    assert((x1 * x1) == (1int * mono6(x1, y1, z1, x2, y2, z2, 2, 0, 0, 0, 0, 0)));
    assert(x1 == (1int * mono6(x1, y1, z1, x2, y2, z2, 1, 0, 0, 0, 0, 0)));
    assert(((x1 * x1) * x1) == (1int * mono6(x1, y1, z1, x2, y2, z2, 2, 0, 0, 0, 0, 0)) * (1int * mono6(x1, y1, z1, x2, y2, z2, 1, 0, 0, 0, 0, 0)));
    lemma_coefficient_product(1int, mono6(x1, y1, z1, x2, y2, z2, 2, 0, 0, 0, 0, 0), 1int, mono6(x1, y1, z1, x2, y2, z2, 1, 0, 0, 0, 0, 0));
    lemma_mono6_mul(x1, y1, z1, x2, y2, z2, 2, 0, 0, 0, 0, 0, 1, 0, 0, 0, 0, 0);
    assert(((x1 * x1) * x1) == (1int * mono6(x1, y1, z1, x2, y2, z2, 3, 0, 0, 0, 0, 0)));
    assert(7 == (7int * mono6(x1, y1, z1, x2, y2, z2, 0, 0, 0, 0, 0, 0)));
    assert(z1 == (1int * mono6(x1, y1, z1, x2, y2, z2, 0, 0, 1, 0, 0, 0)));
    assert(z1 == (1int * mono6(x1, y1, z1, x2, y2, z2, 0, 0, 1, 0, 0, 0)));
    assert((z1 * z1) == (1int * mono6(x1, y1, z1, x2, y2, z2, 0, 0, 1, 0, 0, 0)) * (1int * mono6(x1, y1, z1, x2, y2, z2, 0, 0, 1, 0, 0, 0)));
    lemma_coefficient_product(1int, mono6(x1, y1, z1, x2, y2, z2, 0, 0, 1, 0, 0, 0), 1int, mono6(x1, y1, z1, x2, y2, z2, 0, 0, 1, 0, 0, 0));
    lemma_mono6_mul(x1, y1, z1, x2, y2, z2, 0, 0, 1, 0, 0, 0, 0, 0, 1, 0, 0, 0);
    assert((z1 * z1) == (1int * mono6(x1, y1, z1, x2, y2, z2, 0, 0, 2, 0, 0, 0)));
    assert(z1 == (1int * mono6(x1, y1, z1, x2, y2, z2, 0, 0, 1, 0, 0, 0)));
    assert(((z1 * z1) * z1) == (1int * mono6(x1, y1, z1, x2, y2, z2, 0, 0, 2, 0, 0, 0)) * (1int * mono6(x1, y1, z1, x2, y2, z2, 0, 0, 1, 0, 0, 0)));
    lemma_coefficient_product(1int, mono6(x1, y1, z1, x2, y2, z2, 0, 0, 2, 0, 0, 0), 1int, mono6(x1, y1, z1, x2, y2, z2, 0, 0, 1, 0, 0, 0));
    lemma_mono6_mul(x1, y1, z1, x2, y2, z2, 0, 0, 2, 0, 0, 0, 0, 0, 1, 0, 0, 0);
    assert(((z1 * z1) * z1) == (1int * mono6(x1, y1, z1, x2, y2, z2, 0, 0, 3, 0, 0, 0)));
    assert((7 * ((z1 * z1) * z1)) == (7int * mono6(x1, y1, z1, x2, y2, z2, 0, 0, 0, 0, 0, 0)) * (1int * mono6(x1, y1, z1, x2, y2, z2, 0, 0, 3, 0, 0, 0)));
    lemma_coefficient_product(7int, mono6(x1, y1, z1, x2, y2, z2, 0, 0, 0, 0, 0, 0), 1int, mono6(x1, y1, z1, x2, y2, z2, 0, 0, 3, 0, 0, 0));
    lemma_mono6_mul(x1, y1, z1, x2, y2, z2, 0, 0, 0, 0, 0, 0, 0, 0, 3, 0, 0, 0);
    assert((7 * ((z1 * z1) * z1)) == (7int * mono6(x1, y1, z1, x2, y2, z2, 0, 0, 3, 0, 0, 0)));
    assert((((x1 * x1) * x1) + (7 * ((z1 * z1) * z1))) == ((7int * mono6(x1, y1, z1, x2, y2, z2, 0, 0, 3, 0, 0, 0)) + (1int * mono6(x1, y1, z1, x2, y2, z2, 3, 0, 0, 0, 0, 0))));
    assert(y1 == (1int * mono6(x1, y1, z1, x2, y2, z2, 0, 1, 0, 0, 0, 0)));
    assert(y1 == (1int * mono6(x1, y1, z1, x2, y2, z2, 0, 1, 0, 0, 0, 0)));
    assert((y1 * y1) == (1int * mono6(x1, y1, z1, x2, y2, z2, 0, 1, 0, 0, 0, 0)) * (1int * mono6(x1, y1, z1, x2, y2, z2, 0, 1, 0, 0, 0, 0)));
    lemma_coefficient_product(1int, mono6(x1, y1, z1, x2, y2, z2, 0, 1, 0, 0, 0, 0), 1int, mono6(x1, y1, z1, x2, y2, z2, 0, 1, 0, 0, 0, 0));
    lemma_mono6_mul(x1, y1, z1, x2, y2, z2, 0, 1, 0, 0, 0, 0, 0, 1, 0, 0, 0, 0);
    assert((y1 * y1) == (1int * mono6(x1, y1, z1, x2, y2, z2, 0, 2, 0, 0, 0, 0)));
    assert(z1 == (1int * mono6(x1, y1, z1, x2, y2, z2, 0, 0, 1, 0, 0, 0)));
    assert(((y1 * y1) * z1) == (1int * mono6(x1, y1, z1, x2, y2, z2, 0, 2, 0, 0, 0, 0)) * (1int * mono6(x1, y1, z1, x2, y2, z2, 0, 0, 1, 0, 0, 0)));
    lemma_coefficient_product(1int, mono6(x1, y1, z1, x2, y2, z2, 0, 2, 0, 0, 0, 0), 1int, mono6(x1, y1, z1, x2, y2, z2, 0, 0, 1, 0, 0, 0));
    lemma_mono6_mul(x1, y1, z1, x2, y2, z2, 0, 2, 0, 0, 0, 0, 0, 0, 1, 0, 0, 0);
    assert(((y1 * y1) * z1) == (1int * mono6(x1, y1, z1, x2, y2, z2, 0, 2, 1, 0, 0, 0)));
    assert(((((x1 * x1) * x1) + (7 * ((z1 * z1) * z1))) - ((y1 * y1) * z1)) == ((7int * mono6(x1, y1, z1, x2, y2, z2, 0, 0, 3, 0, 0, 0)) + (((-1int) * mono6(x1, y1, z1, x2, y2, z2, 0, 2, 1, 0, 0, 0)) + (1int * mono6(x1, y1, z1, x2, y2, z2, 3, 0, 0, 0, 0, 0)))));
    assert(((((((74088int * mono6(x1, y1, z1, x2, y2, z2, 0, 0, 3, 0, 3, 3)) + (((-83349int) * mono6(x1, y1, z1, x2, y2, z2, 0, 0, 3, 3, 1, 2)) + (1323int * mono6(x1, y1, z1, x2, y2, z2, 0, 0, 3, 3, 3, 0)))) + (((111132int * mono6(x1, y1, z1, x2, y2, z2, 0, 1, 2, 0, 2, 4)) + ((-5292int) * mono6(x1, y1, z1, x2, y2, z2, 0, 1, 2, 0, 4, 2))) + ((11907int * mono6(x1, y1, z1, x2, y2, z2, 0, 1, 2, 6, 0, 0)) + (55566int * mono6(x1, y1, z1, x2, y2, z2, 0, 2, 1, 0, 1, 5))))) + (((((-5292int) * mono6(x1, y1, z1, x2, y2, z2, 0, 2, 1, 0, 3, 3)) + (126int * mono6(x1, y1, z1, x2, y2, z2, 0, 2, 1, 0, 5, 1))) + ((11907int * mono6(x1, y1, z1, x2, y2, z2, 0, 2, 1, 3, 1, 2)) + ((-189int) * mono6(x1, y1, z1, x2, y2, z2, 0, 2, 1, 3, 3, 0)))) + (((9261int * mono6(x1, y1, z1, x2, y2, z2, 0, 3, 0, 0, 0, 6)) + ((-1323int) * mono6(x1, y1, z1, x2, y2, z2, 0, 3, 0, 0, 2, 4))) + ((63int * mono6(x1, y1, z1, x2, y2, z2, 0, 3, 0, 0, 4, 2)) + ((-1int) * mono6(x1, y1, z1, x2, y2, z2, 0, 3, 0, 0, 6, 0)))))) + (((((-189int) * mono6(x1, y1, z1, x2, y2, z2, 0, 3, 0, 6, 0, 0)) + (((-83349int) * mono6(x1, y1, z1, x2, y2, z2, 1, 0, 2, 2, 1, 3)) + ((-3969int) * mono6(x1, y1, z1, x2, y2, z2, 1, 0, 2, 2, 3, 1)))) + (((11907int * mono6(x1, y1, z1, x2, y2, z2, 1, 0, 2, 5, 1, 0)) + (83349int * mono6(x1, y1, z1, x2, y2, z2, 1, 1, 1, 2, 0, 4))) + (((-189int) * mono6(x1, y1, z1, x2, y2, z2, 1, 1, 1, 2, 4, 0)) + (23814int * mono6(x1, y1, z1, x2, y2, z2, 1, 1, 1, 5, 0, 1))))) + ((((3969int * mono6(x1, y1, z1, x2, y2, z2, 1, 2, 0, 2, 1, 3)) + (189int * mono6(x1, y1, z1, x2, y2, z2, 1, 2, 0, 2, 3, 1))) + (((-567int) * mono6(x1, y1, z1, x2, y2, z2, 1, 2, 0, 5, 1, 0)) + (23814int * mono6(x1, y1, z1, x2, y2, z2, 2, 0, 1, 4, 1, 1)))) + (((11907int * mono6(x1, y1, z1, x2, y2, z2, 2, 1, 0, 4, 0, 2)) + ((-567int) * mono6(x1, y1, z1, x2, y2, z2, 2, 1, 0, 4, 2, 0))) + ((11907int * mono6(x1, y1, z1, x2, y2, z2, 3, 0, 0, 3, 1, 2)) + ((-189int) * mono6(x1, y1, z1, x2, y2, z2, 3, 0, 0, 3, 3, 0))))))) * ((((x1 * x1) * x1) + (7 * ((z1 * z1) * z1))) - ((y1 * y1) * z1))) == (((((74088int * mono6(x1, y1, z1, x2, y2, z2, 0, 0, 3, 0, 3, 3)) + (((-83349int) * mono6(x1, y1, z1, x2, y2, z2, 0, 0, 3, 3, 1, 2)) + (1323int * mono6(x1, y1, z1, x2, y2, z2, 0, 0, 3, 3, 3, 0)))) + (((111132int * mono6(x1, y1, z1, x2, y2, z2, 0, 1, 2, 0, 2, 4)) + ((-5292int) * mono6(x1, y1, z1, x2, y2, z2, 0, 1, 2, 0, 4, 2))) + ((11907int * mono6(x1, y1, z1, x2, y2, z2, 0, 1, 2, 6, 0, 0)) + (55566int * mono6(x1, y1, z1, x2, y2, z2, 0, 2, 1, 0, 1, 5))))) + (((((-5292int) * mono6(x1, y1, z1, x2, y2, z2, 0, 2, 1, 0, 3, 3)) + (126int * mono6(x1, y1, z1, x2, y2, z2, 0, 2, 1, 0, 5, 1))) + ((11907int * mono6(x1, y1, z1, x2, y2, z2, 0, 2, 1, 3, 1, 2)) + ((-189int) * mono6(x1, y1, z1, x2, y2, z2, 0, 2, 1, 3, 3, 0)))) + (((9261int * mono6(x1, y1, z1, x2, y2, z2, 0, 3, 0, 0, 0, 6)) + ((-1323int) * mono6(x1, y1, z1, x2, y2, z2, 0, 3, 0, 0, 2, 4))) + ((63int * mono6(x1, y1, z1, x2, y2, z2, 0, 3, 0, 0, 4, 2)) + ((-1int) * mono6(x1, y1, z1, x2, y2, z2, 0, 3, 0, 0, 6, 0)))))) + (((((-189int) * mono6(x1, y1, z1, x2, y2, z2, 0, 3, 0, 6, 0, 0)) + (((-83349int) * mono6(x1, y1, z1, x2, y2, z2, 1, 0, 2, 2, 1, 3)) + ((-3969int) * mono6(x1, y1, z1, x2, y2, z2, 1, 0, 2, 2, 3, 1)))) + (((11907int * mono6(x1, y1, z1, x2, y2, z2, 1, 0, 2, 5, 1, 0)) + (83349int * mono6(x1, y1, z1, x2, y2, z2, 1, 1, 1, 2, 0, 4))) + (((-189int) * mono6(x1, y1, z1, x2, y2, z2, 1, 1, 1, 2, 4, 0)) + (23814int * mono6(x1, y1, z1, x2, y2, z2, 1, 1, 1, 5, 0, 1))))) + ((((3969int * mono6(x1, y1, z1, x2, y2, z2, 1, 2, 0, 2, 1, 3)) + (189int * mono6(x1, y1, z1, x2, y2, z2, 1, 2, 0, 2, 3, 1))) + (((-567int) * mono6(x1, y1, z1, x2, y2, z2, 1, 2, 0, 5, 1, 0)) + (23814int * mono6(x1, y1, z1, x2, y2, z2, 2, 0, 1, 4, 1, 1)))) + (((11907int * mono6(x1, y1, z1, x2, y2, z2, 2, 1, 0, 4, 0, 2)) + ((-567int) * mono6(x1, y1, z1, x2, y2, z2, 2, 1, 0, 4, 2, 0))) + ((11907int * mono6(x1, y1, z1, x2, y2, z2, 3, 0, 0, 3, 1, 2)) + ((-189int) * mono6(x1, y1, z1, x2, y2, z2, 3, 0, 0, 3, 3, 0))))))) * ((7int * mono6(x1, y1, z1, x2, y2, z2, 0, 0, 3, 0, 0, 0)) + (((-1int) * mono6(x1, y1, z1, x2, y2, z2, 0, 2, 1, 0, 0, 0)) + (1int * mono6(x1, y1, z1, x2, y2, z2, 3, 0, 0, 0, 0, 0)))));
    lemma_mul_is_distributive_add_other_way(((7int * mono6(x1, y1, z1, x2, y2, z2, 0, 0, 3, 0, 0, 0)) + (((-1int) * mono6(x1, y1, z1, x2, y2, z2, 0, 2, 1, 0, 0, 0)) + (1int * mono6(x1, y1, z1, x2, y2, z2, 3, 0, 0, 0, 0, 0)))), ((((74088int * mono6(x1, y1, z1, x2, y2, z2, 0, 0, 3, 0, 3, 3)) + (((-83349int) * mono6(x1, y1, z1, x2, y2, z2, 0, 0, 3, 3, 1, 2)) + (1323int * mono6(x1, y1, z1, x2, y2, z2, 0, 0, 3, 3, 3, 0)))) + (((111132int * mono6(x1, y1, z1, x2, y2, z2, 0, 1, 2, 0, 2, 4)) + ((-5292int) * mono6(x1, y1, z1, x2, y2, z2, 0, 1, 2, 0, 4, 2))) + ((11907int * mono6(x1, y1, z1, x2, y2, z2, 0, 1, 2, 6, 0, 0)) + (55566int * mono6(x1, y1, z1, x2, y2, z2, 0, 2, 1, 0, 1, 5))))) + (((((-5292int) * mono6(x1, y1, z1, x2, y2, z2, 0, 2, 1, 0, 3, 3)) + (126int * mono6(x1, y1, z1, x2, y2, z2, 0, 2, 1, 0, 5, 1))) + ((11907int * mono6(x1, y1, z1, x2, y2, z2, 0, 2, 1, 3, 1, 2)) + ((-189int) * mono6(x1, y1, z1, x2, y2, z2, 0, 2, 1, 3, 3, 0)))) + (((9261int * mono6(x1, y1, z1, x2, y2, z2, 0, 3, 0, 0, 0, 6)) + ((-1323int) * mono6(x1, y1, z1, x2, y2, z2, 0, 3, 0, 0, 2, 4))) + ((63int * mono6(x1, y1, z1, x2, y2, z2, 0, 3, 0, 0, 4, 2)) + ((-1int) * mono6(x1, y1, z1, x2, y2, z2, 0, 3, 0, 0, 6, 0)))))), (((((-189int) * mono6(x1, y1, z1, x2, y2, z2, 0, 3, 0, 6, 0, 0)) + (((-83349int) * mono6(x1, y1, z1, x2, y2, z2, 1, 0, 2, 2, 1, 3)) + ((-3969int) * mono6(x1, y1, z1, x2, y2, z2, 1, 0, 2, 2, 3, 1)))) + (((11907int * mono6(x1, y1, z1, x2, y2, z2, 1, 0, 2, 5, 1, 0)) + (83349int * mono6(x1, y1, z1, x2, y2, z2, 1, 1, 1, 2, 0, 4))) + (((-189int) * mono6(x1, y1, z1, x2, y2, z2, 1, 1, 1, 2, 4, 0)) + (23814int * mono6(x1, y1, z1, x2, y2, z2, 1, 1, 1, 5, 0, 1))))) + ((((3969int * mono6(x1, y1, z1, x2, y2, z2, 1, 2, 0, 2, 1, 3)) + (189int * mono6(x1, y1, z1, x2, y2, z2, 1, 2, 0, 2, 3, 1))) + (((-567int) * mono6(x1, y1, z1, x2, y2, z2, 1, 2, 0, 5, 1, 0)) + (23814int * mono6(x1, y1, z1, x2, y2, z2, 2, 0, 1, 4, 1, 1)))) + (((11907int * mono6(x1, y1, z1, x2, y2, z2, 2, 1, 0, 4, 0, 2)) + ((-567int) * mono6(x1, y1, z1, x2, y2, z2, 2, 1, 0, 4, 2, 0))) + ((11907int * mono6(x1, y1, z1, x2, y2, z2, 3, 0, 0, 3, 1, 2)) + ((-189int) * mono6(x1, y1, z1, x2, y2, z2, 3, 0, 0, 3, 3, 0)))))));
    lemma_mul_is_distributive_add_other_way(((7int * mono6(x1, y1, z1, x2, y2, z2, 0, 0, 3, 0, 0, 0)) + (((-1int) * mono6(x1, y1, z1, x2, y2, z2, 0, 2, 1, 0, 0, 0)) + (1int * mono6(x1, y1, z1, x2, y2, z2, 3, 0, 0, 0, 0, 0)))), (((74088int * mono6(x1, y1, z1, x2, y2, z2, 0, 0, 3, 0, 3, 3)) + (((-83349int) * mono6(x1, y1, z1, x2, y2, z2, 0, 0, 3, 3, 1, 2)) + (1323int * mono6(x1, y1, z1, x2, y2, z2, 0, 0, 3, 3, 3, 0)))) + (((111132int * mono6(x1, y1, z1, x2, y2, z2, 0, 1, 2, 0, 2, 4)) + ((-5292int) * mono6(x1, y1, z1, x2, y2, z2, 0, 1, 2, 0, 4, 2))) + ((11907int * mono6(x1, y1, z1, x2, y2, z2, 0, 1, 2, 6, 0, 0)) + (55566int * mono6(x1, y1, z1, x2, y2, z2, 0, 2, 1, 0, 1, 5))))), (((((-5292int) * mono6(x1, y1, z1, x2, y2, z2, 0, 2, 1, 0, 3, 3)) + (126int * mono6(x1, y1, z1, x2, y2, z2, 0, 2, 1, 0, 5, 1))) + ((11907int * mono6(x1, y1, z1, x2, y2, z2, 0, 2, 1, 3, 1, 2)) + ((-189int) * mono6(x1, y1, z1, x2, y2, z2, 0, 2, 1, 3, 3, 0)))) + (((9261int * mono6(x1, y1, z1, x2, y2, z2, 0, 3, 0, 0, 0, 6)) + ((-1323int) * mono6(x1, y1, z1, x2, y2, z2, 0, 3, 0, 0, 2, 4))) + ((63int * mono6(x1, y1, z1, x2, y2, z2, 0, 3, 0, 0, 4, 2)) + ((-1int) * mono6(x1, y1, z1, x2, y2, z2, 0, 3, 0, 0, 6, 0))))));
    lemma_mul_is_distributive_add_other_way(((7int * mono6(x1, y1, z1, x2, y2, z2, 0, 0, 3, 0, 0, 0)) + (((-1int) * mono6(x1, y1, z1, x2, y2, z2, 0, 2, 1, 0, 0, 0)) + (1int * mono6(x1, y1, z1, x2, y2, z2, 3, 0, 0, 0, 0, 0)))), ((74088int * mono6(x1, y1, z1, x2, y2, z2, 0, 0, 3, 0, 3, 3)) + (((-83349int) * mono6(x1, y1, z1, x2, y2, z2, 0, 0, 3, 3, 1, 2)) + (1323int * mono6(x1, y1, z1, x2, y2, z2, 0, 0, 3, 3, 3, 0)))), (((111132int * mono6(x1, y1, z1, x2, y2, z2, 0, 1, 2, 0, 2, 4)) + ((-5292int) * mono6(x1, y1, z1, x2, y2, z2, 0, 1, 2, 0, 4, 2))) + ((11907int * mono6(x1, y1, z1, x2, y2, z2, 0, 1, 2, 6, 0, 0)) + (55566int * mono6(x1, y1, z1, x2, y2, z2, 0, 2, 1, 0, 1, 5)))));
    lemma_mul_is_distributive_add_other_way(((7int * mono6(x1, y1, z1, x2, y2, z2, 0, 0, 3, 0, 0, 0)) + (((-1int) * mono6(x1, y1, z1, x2, y2, z2, 0, 2, 1, 0, 0, 0)) + (1int * mono6(x1, y1, z1, x2, y2, z2, 3, 0, 0, 0, 0, 0)))), (74088int * mono6(x1, y1, z1, x2, y2, z2, 0, 0, 3, 0, 3, 3)), (((-83349int) * mono6(x1, y1, z1, x2, y2, z2, 0, 0, 3, 3, 1, 2)) + (1323int * mono6(x1, y1, z1, x2, y2, z2, 0, 0, 3, 3, 3, 0))));
    lemma_mul_is_distributive_add_other_way(((7int * mono6(x1, y1, z1, x2, y2, z2, 0, 0, 3, 0, 0, 0)) + (((-1int) * mono6(x1, y1, z1, x2, y2, z2, 0, 2, 1, 0, 0, 0)) + (1int * mono6(x1, y1, z1, x2, y2, z2, 3, 0, 0, 0, 0, 0)))), ((-83349int) * mono6(x1, y1, z1, x2, y2, z2, 0, 0, 3, 3, 1, 2)), (1323int * mono6(x1, y1, z1, x2, y2, z2, 0, 0, 3, 3, 3, 0)));
    lemma_mul_is_distributive_add_other_way(((7int * mono6(x1, y1, z1, x2, y2, z2, 0, 0, 3, 0, 0, 0)) + (((-1int) * mono6(x1, y1, z1, x2, y2, z2, 0, 2, 1, 0, 0, 0)) + (1int * mono6(x1, y1, z1, x2, y2, z2, 3, 0, 0, 0, 0, 0)))), ((111132int * mono6(x1, y1, z1, x2, y2, z2, 0, 1, 2, 0, 2, 4)) + ((-5292int) * mono6(x1, y1, z1, x2, y2, z2, 0, 1, 2, 0, 4, 2))), ((11907int * mono6(x1, y1, z1, x2, y2, z2, 0, 1, 2, 6, 0, 0)) + (55566int * mono6(x1, y1, z1, x2, y2, z2, 0, 2, 1, 0, 1, 5))));
    lemma_mul_is_distributive_add_other_way(((7int * mono6(x1, y1, z1, x2, y2, z2, 0, 0, 3, 0, 0, 0)) + (((-1int) * mono6(x1, y1, z1, x2, y2, z2, 0, 2, 1, 0, 0, 0)) + (1int * mono6(x1, y1, z1, x2, y2, z2, 3, 0, 0, 0, 0, 0)))), (111132int * mono6(x1, y1, z1, x2, y2, z2, 0, 1, 2, 0, 2, 4)), ((-5292int) * mono6(x1, y1, z1, x2, y2, z2, 0, 1, 2, 0, 4, 2)));
    lemma_mul_is_distributive_add_other_way(((7int * mono6(x1, y1, z1, x2, y2, z2, 0, 0, 3, 0, 0, 0)) + (((-1int) * mono6(x1, y1, z1, x2, y2, z2, 0, 2, 1, 0, 0, 0)) + (1int * mono6(x1, y1, z1, x2, y2, z2, 3, 0, 0, 0, 0, 0)))), (11907int * mono6(x1, y1, z1, x2, y2, z2, 0, 1, 2, 6, 0, 0)), (55566int * mono6(x1, y1, z1, x2, y2, z2, 0, 2, 1, 0, 1, 5)));
    lemma_mul_is_distributive_add_other_way(((7int * mono6(x1, y1, z1, x2, y2, z2, 0, 0, 3, 0, 0, 0)) + (((-1int) * mono6(x1, y1, z1, x2, y2, z2, 0, 2, 1, 0, 0, 0)) + (1int * mono6(x1, y1, z1, x2, y2, z2, 3, 0, 0, 0, 0, 0)))), ((((-5292int) * mono6(x1, y1, z1, x2, y2, z2, 0, 2, 1, 0, 3, 3)) + (126int * mono6(x1, y1, z1, x2, y2, z2, 0, 2, 1, 0, 5, 1))) + ((11907int * mono6(x1, y1, z1, x2, y2, z2, 0, 2, 1, 3, 1, 2)) + ((-189int) * mono6(x1, y1, z1, x2, y2, z2, 0, 2, 1, 3, 3, 0)))), (((9261int * mono6(x1, y1, z1, x2, y2, z2, 0, 3, 0, 0, 0, 6)) + ((-1323int) * mono6(x1, y1, z1, x2, y2, z2, 0, 3, 0, 0, 2, 4))) + ((63int * mono6(x1, y1, z1, x2, y2, z2, 0, 3, 0, 0, 4, 2)) + ((-1int) * mono6(x1, y1, z1, x2, y2, z2, 0, 3, 0, 0, 6, 0)))));
    lemma_mul_is_distributive_add_other_way(((7int * mono6(x1, y1, z1, x2, y2, z2, 0, 0, 3, 0, 0, 0)) + (((-1int) * mono6(x1, y1, z1, x2, y2, z2, 0, 2, 1, 0, 0, 0)) + (1int * mono6(x1, y1, z1, x2, y2, z2, 3, 0, 0, 0, 0, 0)))), (((-5292int) * mono6(x1, y1, z1, x2, y2, z2, 0, 2, 1, 0, 3, 3)) + (126int * mono6(x1, y1, z1, x2, y2, z2, 0, 2, 1, 0, 5, 1))), ((11907int * mono6(x1, y1, z1, x2, y2, z2, 0, 2, 1, 3, 1, 2)) + ((-189int) * mono6(x1, y1, z1, x2, y2, z2, 0, 2, 1, 3, 3, 0))));
    lemma_mul_is_distributive_add_other_way(((7int * mono6(x1, y1, z1, x2, y2, z2, 0, 0, 3, 0, 0, 0)) + (((-1int) * mono6(x1, y1, z1, x2, y2, z2, 0, 2, 1, 0, 0, 0)) + (1int * mono6(x1, y1, z1, x2, y2, z2, 3, 0, 0, 0, 0, 0)))), ((-5292int) * mono6(x1, y1, z1, x2, y2, z2, 0, 2, 1, 0, 3, 3)), (126int * mono6(x1, y1, z1, x2, y2, z2, 0, 2, 1, 0, 5, 1)));
    lemma_mul_is_distributive_add_other_way(((7int * mono6(x1, y1, z1, x2, y2, z2, 0, 0, 3, 0, 0, 0)) + (((-1int) * mono6(x1, y1, z1, x2, y2, z2, 0, 2, 1, 0, 0, 0)) + (1int * mono6(x1, y1, z1, x2, y2, z2, 3, 0, 0, 0, 0, 0)))), (11907int * mono6(x1, y1, z1, x2, y2, z2, 0, 2, 1, 3, 1, 2)), ((-189int) * mono6(x1, y1, z1, x2, y2, z2, 0, 2, 1, 3, 3, 0)));
    lemma_mul_is_distributive_add_other_way(((7int * mono6(x1, y1, z1, x2, y2, z2, 0, 0, 3, 0, 0, 0)) + (((-1int) * mono6(x1, y1, z1, x2, y2, z2, 0, 2, 1, 0, 0, 0)) + (1int * mono6(x1, y1, z1, x2, y2, z2, 3, 0, 0, 0, 0, 0)))), ((9261int * mono6(x1, y1, z1, x2, y2, z2, 0, 3, 0, 0, 0, 6)) + ((-1323int) * mono6(x1, y1, z1, x2, y2, z2, 0, 3, 0, 0, 2, 4))), ((63int * mono6(x1, y1, z1, x2, y2, z2, 0, 3, 0, 0, 4, 2)) + ((-1int) * mono6(x1, y1, z1, x2, y2, z2, 0, 3, 0, 0, 6, 0))));
    lemma_mul_is_distributive_add_other_way(((7int * mono6(x1, y1, z1, x2, y2, z2, 0, 0, 3, 0, 0, 0)) + (((-1int) * mono6(x1, y1, z1, x2, y2, z2, 0, 2, 1, 0, 0, 0)) + (1int * mono6(x1, y1, z1, x2, y2, z2, 3, 0, 0, 0, 0, 0)))), (9261int * mono6(x1, y1, z1, x2, y2, z2, 0, 3, 0, 0, 0, 6)), ((-1323int) * mono6(x1, y1, z1, x2, y2, z2, 0, 3, 0, 0, 2, 4)));
    lemma_mul_is_distributive_add_other_way(((7int * mono6(x1, y1, z1, x2, y2, z2, 0, 0, 3, 0, 0, 0)) + (((-1int) * mono6(x1, y1, z1, x2, y2, z2, 0, 2, 1, 0, 0, 0)) + (1int * mono6(x1, y1, z1, x2, y2, z2, 3, 0, 0, 0, 0, 0)))), (63int * mono6(x1, y1, z1, x2, y2, z2, 0, 3, 0, 0, 4, 2)), ((-1int) * mono6(x1, y1, z1, x2, y2, z2, 0, 3, 0, 0, 6, 0)));
    lemma_mul_is_distributive_add_other_way(((7int * mono6(x1, y1, z1, x2, y2, z2, 0, 0, 3, 0, 0, 0)) + (((-1int) * mono6(x1, y1, z1, x2, y2, z2, 0, 2, 1, 0, 0, 0)) + (1int * mono6(x1, y1, z1, x2, y2, z2, 3, 0, 0, 0, 0, 0)))), ((((-189int) * mono6(x1, y1, z1, x2, y2, z2, 0, 3, 0, 6, 0, 0)) + (((-83349int) * mono6(x1, y1, z1, x2, y2, z2, 1, 0, 2, 2, 1, 3)) + ((-3969int) * mono6(x1, y1, z1, x2, y2, z2, 1, 0, 2, 2, 3, 1)))) + (((11907int * mono6(x1, y1, z1, x2, y2, z2, 1, 0, 2, 5, 1, 0)) + (83349int * mono6(x1, y1, z1, x2, y2, z2, 1, 1, 1, 2, 0, 4))) + (((-189int) * mono6(x1, y1, z1, x2, y2, z2, 1, 1, 1, 2, 4, 0)) + (23814int * mono6(x1, y1, z1, x2, y2, z2, 1, 1, 1, 5, 0, 1))))), ((((3969int * mono6(x1, y1, z1, x2, y2, z2, 1, 2, 0, 2, 1, 3)) + (189int * mono6(x1, y1, z1, x2, y2, z2, 1, 2, 0, 2, 3, 1))) + (((-567int) * mono6(x1, y1, z1, x2, y2, z2, 1, 2, 0, 5, 1, 0)) + (23814int * mono6(x1, y1, z1, x2, y2, z2, 2, 0, 1, 4, 1, 1)))) + (((11907int * mono6(x1, y1, z1, x2, y2, z2, 2, 1, 0, 4, 0, 2)) + ((-567int) * mono6(x1, y1, z1, x2, y2, z2, 2, 1, 0, 4, 2, 0))) + ((11907int * mono6(x1, y1, z1, x2, y2, z2, 3, 0, 0, 3, 1, 2)) + ((-189int) * mono6(x1, y1, z1, x2, y2, z2, 3, 0, 0, 3, 3, 0))))));
    lemma_mul_is_distributive_add_other_way(((7int * mono6(x1, y1, z1, x2, y2, z2, 0, 0, 3, 0, 0, 0)) + (((-1int) * mono6(x1, y1, z1, x2, y2, z2, 0, 2, 1, 0, 0, 0)) + (1int * mono6(x1, y1, z1, x2, y2, z2, 3, 0, 0, 0, 0, 0)))), (((-189int) * mono6(x1, y1, z1, x2, y2, z2, 0, 3, 0, 6, 0, 0)) + (((-83349int) * mono6(x1, y1, z1, x2, y2, z2, 1, 0, 2, 2, 1, 3)) + ((-3969int) * mono6(x1, y1, z1, x2, y2, z2, 1, 0, 2, 2, 3, 1)))), (((11907int * mono6(x1, y1, z1, x2, y2, z2, 1, 0, 2, 5, 1, 0)) + (83349int * mono6(x1, y1, z1, x2, y2, z2, 1, 1, 1, 2, 0, 4))) + (((-189int) * mono6(x1, y1, z1, x2, y2, z2, 1, 1, 1, 2, 4, 0)) + (23814int * mono6(x1, y1, z1, x2, y2, z2, 1, 1, 1, 5, 0, 1)))));
    lemma_mul_is_distributive_add_other_way(((7int * mono6(x1, y1, z1, x2, y2, z2, 0, 0, 3, 0, 0, 0)) + (((-1int) * mono6(x1, y1, z1, x2, y2, z2, 0, 2, 1, 0, 0, 0)) + (1int * mono6(x1, y1, z1, x2, y2, z2, 3, 0, 0, 0, 0, 0)))), ((-189int) * mono6(x1, y1, z1, x2, y2, z2, 0, 3, 0, 6, 0, 0)), (((-83349int) * mono6(x1, y1, z1, x2, y2, z2, 1, 0, 2, 2, 1, 3)) + ((-3969int) * mono6(x1, y1, z1, x2, y2, z2, 1, 0, 2, 2, 3, 1))));
    lemma_mul_is_distributive_add_other_way(((7int * mono6(x1, y1, z1, x2, y2, z2, 0, 0, 3, 0, 0, 0)) + (((-1int) * mono6(x1, y1, z1, x2, y2, z2, 0, 2, 1, 0, 0, 0)) + (1int * mono6(x1, y1, z1, x2, y2, z2, 3, 0, 0, 0, 0, 0)))), ((-83349int) * mono6(x1, y1, z1, x2, y2, z2, 1, 0, 2, 2, 1, 3)), ((-3969int) * mono6(x1, y1, z1, x2, y2, z2, 1, 0, 2, 2, 3, 1)));
    lemma_mul_is_distributive_add_other_way(((7int * mono6(x1, y1, z1, x2, y2, z2, 0, 0, 3, 0, 0, 0)) + (((-1int) * mono6(x1, y1, z1, x2, y2, z2, 0, 2, 1, 0, 0, 0)) + (1int * mono6(x1, y1, z1, x2, y2, z2, 3, 0, 0, 0, 0, 0)))), ((11907int * mono6(x1, y1, z1, x2, y2, z2, 1, 0, 2, 5, 1, 0)) + (83349int * mono6(x1, y1, z1, x2, y2, z2, 1, 1, 1, 2, 0, 4))), (((-189int) * mono6(x1, y1, z1, x2, y2, z2, 1, 1, 1, 2, 4, 0)) + (23814int * mono6(x1, y1, z1, x2, y2, z2, 1, 1, 1, 5, 0, 1))));
    lemma_mul_is_distributive_add_other_way(((7int * mono6(x1, y1, z1, x2, y2, z2, 0, 0, 3, 0, 0, 0)) + (((-1int) * mono6(x1, y1, z1, x2, y2, z2, 0, 2, 1, 0, 0, 0)) + (1int * mono6(x1, y1, z1, x2, y2, z2, 3, 0, 0, 0, 0, 0)))), (11907int * mono6(x1, y1, z1, x2, y2, z2, 1, 0, 2, 5, 1, 0)), (83349int * mono6(x1, y1, z1, x2, y2, z2, 1, 1, 1, 2, 0, 4)));
    lemma_mul_is_distributive_add_other_way(((7int * mono6(x1, y1, z1, x2, y2, z2, 0, 0, 3, 0, 0, 0)) + (((-1int) * mono6(x1, y1, z1, x2, y2, z2, 0, 2, 1, 0, 0, 0)) + (1int * mono6(x1, y1, z1, x2, y2, z2, 3, 0, 0, 0, 0, 0)))), ((-189int) * mono6(x1, y1, z1, x2, y2, z2, 1, 1, 1, 2, 4, 0)), (23814int * mono6(x1, y1, z1, x2, y2, z2, 1, 1, 1, 5, 0, 1)));
    lemma_mul_is_distributive_add_other_way(((7int * mono6(x1, y1, z1, x2, y2, z2, 0, 0, 3, 0, 0, 0)) + (((-1int) * mono6(x1, y1, z1, x2, y2, z2, 0, 2, 1, 0, 0, 0)) + (1int * mono6(x1, y1, z1, x2, y2, z2, 3, 0, 0, 0, 0, 0)))), (((3969int * mono6(x1, y1, z1, x2, y2, z2, 1, 2, 0, 2, 1, 3)) + (189int * mono6(x1, y1, z1, x2, y2, z2, 1, 2, 0, 2, 3, 1))) + (((-567int) * mono6(x1, y1, z1, x2, y2, z2, 1, 2, 0, 5, 1, 0)) + (23814int * mono6(x1, y1, z1, x2, y2, z2, 2, 0, 1, 4, 1, 1)))), (((11907int * mono6(x1, y1, z1, x2, y2, z2, 2, 1, 0, 4, 0, 2)) + ((-567int) * mono6(x1, y1, z1, x2, y2, z2, 2, 1, 0, 4, 2, 0))) + ((11907int * mono6(x1, y1, z1, x2, y2, z2, 3, 0, 0, 3, 1, 2)) + ((-189int) * mono6(x1, y1, z1, x2, y2, z2, 3, 0, 0, 3, 3, 0)))));
    lemma_mul_is_distributive_add_other_way(((7int * mono6(x1, y1, z1, x2, y2, z2, 0, 0, 3, 0, 0, 0)) + (((-1int) * mono6(x1, y1, z1, x2, y2, z2, 0, 2, 1, 0, 0, 0)) + (1int * mono6(x1, y1, z1, x2, y2, z2, 3, 0, 0, 0, 0, 0)))), ((3969int * mono6(x1, y1, z1, x2, y2, z2, 1, 2, 0, 2, 1, 3)) + (189int * mono6(x1, y1, z1, x2, y2, z2, 1, 2, 0, 2, 3, 1))), (((-567int) * mono6(x1, y1, z1, x2, y2, z2, 1, 2, 0, 5, 1, 0)) + (23814int * mono6(x1, y1, z1, x2, y2, z2, 2, 0, 1, 4, 1, 1))));
    lemma_mul_is_distributive_add_other_way(((7int * mono6(x1, y1, z1, x2, y2, z2, 0, 0, 3, 0, 0, 0)) + (((-1int) * mono6(x1, y1, z1, x2, y2, z2, 0, 2, 1, 0, 0, 0)) + (1int * mono6(x1, y1, z1, x2, y2, z2, 3, 0, 0, 0, 0, 0)))), (3969int * mono6(x1, y1, z1, x2, y2, z2, 1, 2, 0, 2, 1, 3)), (189int * mono6(x1, y1, z1, x2, y2, z2, 1, 2, 0, 2, 3, 1)));
    lemma_mul_is_distributive_add_other_way(((7int * mono6(x1, y1, z1, x2, y2, z2, 0, 0, 3, 0, 0, 0)) + (((-1int) * mono6(x1, y1, z1, x2, y2, z2, 0, 2, 1, 0, 0, 0)) + (1int * mono6(x1, y1, z1, x2, y2, z2, 3, 0, 0, 0, 0, 0)))), ((-567int) * mono6(x1, y1, z1, x2, y2, z2, 1, 2, 0, 5, 1, 0)), (23814int * mono6(x1, y1, z1, x2, y2, z2, 2, 0, 1, 4, 1, 1)));
    lemma_mul_is_distributive_add_other_way(((7int * mono6(x1, y1, z1, x2, y2, z2, 0, 0, 3, 0, 0, 0)) + (((-1int) * mono6(x1, y1, z1, x2, y2, z2, 0, 2, 1, 0, 0, 0)) + (1int * mono6(x1, y1, z1, x2, y2, z2, 3, 0, 0, 0, 0, 0)))), ((11907int * mono6(x1, y1, z1, x2, y2, z2, 2, 1, 0, 4, 0, 2)) + ((-567int) * mono6(x1, y1, z1, x2, y2, z2, 2, 1, 0, 4, 2, 0))), ((11907int * mono6(x1, y1, z1, x2, y2, z2, 3, 0, 0, 3, 1, 2)) + ((-189int) * mono6(x1, y1, z1, x2, y2, z2, 3, 0, 0, 3, 3, 0))));
    lemma_mul_is_distributive_add_other_way(((7int * mono6(x1, y1, z1, x2, y2, z2, 0, 0, 3, 0, 0, 0)) + (((-1int) * mono6(x1, y1, z1, x2, y2, z2, 0, 2, 1, 0, 0, 0)) + (1int * mono6(x1, y1, z1, x2, y2, z2, 3, 0, 0, 0, 0, 0)))), (11907int * mono6(x1, y1, z1, x2, y2, z2, 2, 1, 0, 4, 0, 2)), ((-567int) * mono6(x1, y1, z1, x2, y2, z2, 2, 1, 0, 4, 2, 0)));
    lemma_mul_is_distributive_add_other_way(((7int * mono6(x1, y1, z1, x2, y2, z2, 0, 0, 3, 0, 0, 0)) + (((-1int) * mono6(x1, y1, z1, x2, y2, z2, 0, 2, 1, 0, 0, 0)) + (1int * mono6(x1, y1, z1, x2, y2, z2, 3, 0, 0, 0, 0, 0)))), (11907int * mono6(x1, y1, z1, x2, y2, z2, 3, 0, 0, 3, 1, 2)), ((-189int) * mono6(x1, y1, z1, x2, y2, z2, 3, 0, 0, 3, 3, 0)));
    lemma_mul_is_distributive_add((74088int * mono6(x1, y1, z1, x2, y2, z2, 0, 0, 3, 0, 3, 3)), (7int * mono6(x1, y1, z1, x2, y2, z2, 0, 0, 3, 0, 0, 0)), (((-1int) * mono6(x1, y1, z1, x2, y2, z2, 0, 2, 1, 0, 0, 0)) + (1int * mono6(x1, y1, z1, x2, y2, z2, 3, 0, 0, 0, 0, 0))));
    lemma_mul_is_distributive_add((74088int * mono6(x1, y1, z1, x2, y2, z2, 0, 0, 3, 0, 3, 3)), ((-1int) * mono6(x1, y1, z1, x2, y2, z2, 0, 2, 1, 0, 0, 0)), (1int * mono6(x1, y1, z1, x2, y2, z2, 3, 0, 0, 0, 0, 0)));
    lemma_coefficient_product(74088int, mono6(x1, y1, z1, x2, y2, z2, 0, 0, 3, 0, 3, 3), 7int, mono6(x1, y1, z1, x2, y2, z2, 0, 0, 3, 0, 0, 0));
    lemma_mono6_mul(x1, y1, z1, x2, y2, z2, 0, 0, 3, 0, 3, 3, 0, 0, 3, 0, 0, 0);
    lemma_coefficient_product(74088int, mono6(x1, y1, z1, x2, y2, z2, 0, 0, 3, 0, 3, 3), (-1int), mono6(x1, y1, z1, x2, y2, z2, 0, 2, 1, 0, 0, 0));
    lemma_mono6_mul(x1, y1, z1, x2, y2, z2, 0, 0, 3, 0, 3, 3, 0, 2, 1, 0, 0, 0);
    lemma_coefficient_product(74088int, mono6(x1, y1, z1, x2, y2, z2, 0, 0, 3, 0, 3, 3), 1int, mono6(x1, y1, z1, x2, y2, z2, 3, 0, 0, 0, 0, 0));
    lemma_mono6_mul(x1, y1, z1, x2, y2, z2, 0, 0, 3, 0, 3, 3, 3, 0, 0, 0, 0, 0);
    lemma_mul_is_distributive_add(((-83349int) * mono6(x1, y1, z1, x2, y2, z2, 0, 0, 3, 3, 1, 2)), (7int * mono6(x1, y1, z1, x2, y2, z2, 0, 0, 3, 0, 0, 0)), (((-1int) * mono6(x1, y1, z1, x2, y2, z2, 0, 2, 1, 0, 0, 0)) + (1int * mono6(x1, y1, z1, x2, y2, z2, 3, 0, 0, 0, 0, 0))));
    lemma_mul_is_distributive_add(((-83349int) * mono6(x1, y1, z1, x2, y2, z2, 0, 0, 3, 3, 1, 2)), ((-1int) * mono6(x1, y1, z1, x2, y2, z2, 0, 2, 1, 0, 0, 0)), (1int * mono6(x1, y1, z1, x2, y2, z2, 3, 0, 0, 0, 0, 0)));
    lemma_coefficient_product((-83349int), mono6(x1, y1, z1, x2, y2, z2, 0, 0, 3, 3, 1, 2), 7int, mono6(x1, y1, z1, x2, y2, z2, 0, 0, 3, 0, 0, 0));
    lemma_mono6_mul(x1, y1, z1, x2, y2, z2, 0, 0, 3, 3, 1, 2, 0, 0, 3, 0, 0, 0);
    lemma_coefficient_product((-83349int), mono6(x1, y1, z1, x2, y2, z2, 0, 0, 3, 3, 1, 2), (-1int), mono6(x1, y1, z1, x2, y2, z2, 0, 2, 1, 0, 0, 0));
    lemma_mono6_mul(x1, y1, z1, x2, y2, z2, 0, 0, 3, 3, 1, 2, 0, 2, 1, 0, 0, 0);
    lemma_coefficient_product((-83349int), mono6(x1, y1, z1, x2, y2, z2, 0, 0, 3, 3, 1, 2), 1int, mono6(x1, y1, z1, x2, y2, z2, 3, 0, 0, 0, 0, 0));
    lemma_mono6_mul(x1, y1, z1, x2, y2, z2, 0, 0, 3, 3, 1, 2, 3, 0, 0, 0, 0, 0);
    lemma_mul_is_distributive_add((1323int * mono6(x1, y1, z1, x2, y2, z2, 0, 0, 3, 3, 3, 0)), (7int * mono6(x1, y1, z1, x2, y2, z2, 0, 0, 3, 0, 0, 0)), (((-1int) * mono6(x1, y1, z1, x2, y2, z2, 0, 2, 1, 0, 0, 0)) + (1int * mono6(x1, y1, z1, x2, y2, z2, 3, 0, 0, 0, 0, 0))));
    lemma_mul_is_distributive_add((1323int * mono6(x1, y1, z1, x2, y2, z2, 0, 0, 3, 3, 3, 0)), ((-1int) * mono6(x1, y1, z1, x2, y2, z2, 0, 2, 1, 0, 0, 0)), (1int * mono6(x1, y1, z1, x2, y2, z2, 3, 0, 0, 0, 0, 0)));
    lemma_coefficient_product(1323int, mono6(x1, y1, z1, x2, y2, z2, 0, 0, 3, 3, 3, 0), 7int, mono6(x1, y1, z1, x2, y2, z2, 0, 0, 3, 0, 0, 0));
    lemma_mono6_mul(x1, y1, z1, x2, y2, z2, 0, 0, 3, 3, 3, 0, 0, 0, 3, 0, 0, 0);
    lemma_coefficient_product(1323int, mono6(x1, y1, z1, x2, y2, z2, 0, 0, 3, 3, 3, 0), (-1int), mono6(x1, y1, z1, x2, y2, z2, 0, 2, 1, 0, 0, 0));
    lemma_mono6_mul(x1, y1, z1, x2, y2, z2, 0, 0, 3, 3, 3, 0, 0, 2, 1, 0, 0, 0);
    lemma_coefficient_product(1323int, mono6(x1, y1, z1, x2, y2, z2, 0, 0, 3, 3, 3, 0), 1int, mono6(x1, y1, z1, x2, y2, z2, 3, 0, 0, 0, 0, 0));
    lemma_mono6_mul(x1, y1, z1, x2, y2, z2, 0, 0, 3, 3, 3, 0, 3, 0, 0, 0, 0, 0);
    lemma_mul_is_distributive_add((111132int * mono6(x1, y1, z1, x2, y2, z2, 0, 1, 2, 0, 2, 4)), (7int * mono6(x1, y1, z1, x2, y2, z2, 0, 0, 3, 0, 0, 0)), (((-1int) * mono6(x1, y1, z1, x2, y2, z2, 0, 2, 1, 0, 0, 0)) + (1int * mono6(x1, y1, z1, x2, y2, z2, 3, 0, 0, 0, 0, 0))));
    lemma_mul_is_distributive_add((111132int * mono6(x1, y1, z1, x2, y2, z2, 0, 1, 2, 0, 2, 4)), ((-1int) * mono6(x1, y1, z1, x2, y2, z2, 0, 2, 1, 0, 0, 0)), (1int * mono6(x1, y1, z1, x2, y2, z2, 3, 0, 0, 0, 0, 0)));
    lemma_coefficient_product(111132int, mono6(x1, y1, z1, x2, y2, z2, 0, 1, 2, 0, 2, 4), 7int, mono6(x1, y1, z1, x2, y2, z2, 0, 0, 3, 0, 0, 0));
    lemma_mono6_mul(x1, y1, z1, x2, y2, z2, 0, 1, 2, 0, 2, 4, 0, 0, 3, 0, 0, 0);
    lemma_coefficient_product(111132int, mono6(x1, y1, z1, x2, y2, z2, 0, 1, 2, 0, 2, 4), (-1int), mono6(x1, y1, z1, x2, y2, z2, 0, 2, 1, 0, 0, 0));
    lemma_mono6_mul(x1, y1, z1, x2, y2, z2, 0, 1, 2, 0, 2, 4, 0, 2, 1, 0, 0, 0);
    lemma_coefficient_product(111132int, mono6(x1, y1, z1, x2, y2, z2, 0, 1, 2, 0, 2, 4), 1int, mono6(x1, y1, z1, x2, y2, z2, 3, 0, 0, 0, 0, 0));
    lemma_mono6_mul(x1, y1, z1, x2, y2, z2, 0, 1, 2, 0, 2, 4, 3, 0, 0, 0, 0, 0);
    lemma_mul_is_distributive_add(((-5292int) * mono6(x1, y1, z1, x2, y2, z2, 0, 1, 2, 0, 4, 2)), (7int * mono6(x1, y1, z1, x2, y2, z2, 0, 0, 3, 0, 0, 0)), (((-1int) * mono6(x1, y1, z1, x2, y2, z2, 0, 2, 1, 0, 0, 0)) + (1int * mono6(x1, y1, z1, x2, y2, z2, 3, 0, 0, 0, 0, 0))));
    lemma_mul_is_distributive_add(((-5292int) * mono6(x1, y1, z1, x2, y2, z2, 0, 1, 2, 0, 4, 2)), ((-1int) * mono6(x1, y1, z1, x2, y2, z2, 0, 2, 1, 0, 0, 0)), (1int * mono6(x1, y1, z1, x2, y2, z2, 3, 0, 0, 0, 0, 0)));
    lemma_coefficient_product((-5292int), mono6(x1, y1, z1, x2, y2, z2, 0, 1, 2, 0, 4, 2), 7int, mono6(x1, y1, z1, x2, y2, z2, 0, 0, 3, 0, 0, 0));
    lemma_mono6_mul(x1, y1, z1, x2, y2, z2, 0, 1, 2, 0, 4, 2, 0, 0, 3, 0, 0, 0);
    lemma_coefficient_product((-5292int), mono6(x1, y1, z1, x2, y2, z2, 0, 1, 2, 0, 4, 2), (-1int), mono6(x1, y1, z1, x2, y2, z2, 0, 2, 1, 0, 0, 0));
    lemma_mono6_mul(x1, y1, z1, x2, y2, z2, 0, 1, 2, 0, 4, 2, 0, 2, 1, 0, 0, 0);
    lemma_coefficient_product((-5292int), mono6(x1, y1, z1, x2, y2, z2, 0, 1, 2, 0, 4, 2), 1int, mono6(x1, y1, z1, x2, y2, z2, 3, 0, 0, 0, 0, 0));
    lemma_mono6_mul(x1, y1, z1, x2, y2, z2, 0, 1, 2, 0, 4, 2, 3, 0, 0, 0, 0, 0);
    lemma_mul_is_distributive_add((11907int * mono6(x1, y1, z1, x2, y2, z2, 0, 1, 2, 6, 0, 0)), (7int * mono6(x1, y1, z1, x2, y2, z2, 0, 0, 3, 0, 0, 0)), (((-1int) * mono6(x1, y1, z1, x2, y2, z2, 0, 2, 1, 0, 0, 0)) + (1int * mono6(x1, y1, z1, x2, y2, z2, 3, 0, 0, 0, 0, 0))));
    lemma_mul_is_distributive_add((11907int * mono6(x1, y1, z1, x2, y2, z2, 0, 1, 2, 6, 0, 0)), ((-1int) * mono6(x1, y1, z1, x2, y2, z2, 0, 2, 1, 0, 0, 0)), (1int * mono6(x1, y1, z1, x2, y2, z2, 3, 0, 0, 0, 0, 0)));
    lemma_coefficient_product(11907int, mono6(x1, y1, z1, x2, y2, z2, 0, 1, 2, 6, 0, 0), 7int, mono6(x1, y1, z1, x2, y2, z2, 0, 0, 3, 0, 0, 0));
    lemma_mono6_mul(x1, y1, z1, x2, y2, z2, 0, 1, 2, 6, 0, 0, 0, 0, 3, 0, 0, 0);
    lemma_coefficient_product(11907int, mono6(x1, y1, z1, x2, y2, z2, 0, 1, 2, 6, 0, 0), (-1int), mono6(x1, y1, z1, x2, y2, z2, 0, 2, 1, 0, 0, 0));
    lemma_mono6_mul(x1, y1, z1, x2, y2, z2, 0, 1, 2, 6, 0, 0, 0, 2, 1, 0, 0, 0);
    lemma_coefficient_product(11907int, mono6(x1, y1, z1, x2, y2, z2, 0, 1, 2, 6, 0, 0), 1int, mono6(x1, y1, z1, x2, y2, z2, 3, 0, 0, 0, 0, 0));
    lemma_mono6_mul(x1, y1, z1, x2, y2, z2, 0, 1, 2, 6, 0, 0, 3, 0, 0, 0, 0, 0);
    lemma_mul_is_distributive_add((55566int * mono6(x1, y1, z1, x2, y2, z2, 0, 2, 1, 0, 1, 5)), (7int * mono6(x1, y1, z1, x2, y2, z2, 0, 0, 3, 0, 0, 0)), (((-1int) * mono6(x1, y1, z1, x2, y2, z2, 0, 2, 1, 0, 0, 0)) + (1int * mono6(x1, y1, z1, x2, y2, z2, 3, 0, 0, 0, 0, 0))));
    lemma_mul_is_distributive_add((55566int * mono6(x1, y1, z1, x2, y2, z2, 0, 2, 1, 0, 1, 5)), ((-1int) * mono6(x1, y1, z1, x2, y2, z2, 0, 2, 1, 0, 0, 0)), (1int * mono6(x1, y1, z1, x2, y2, z2, 3, 0, 0, 0, 0, 0)));
    lemma_coefficient_product(55566int, mono6(x1, y1, z1, x2, y2, z2, 0, 2, 1, 0, 1, 5), 7int, mono6(x1, y1, z1, x2, y2, z2, 0, 0, 3, 0, 0, 0));
    lemma_mono6_mul(x1, y1, z1, x2, y2, z2, 0, 2, 1, 0, 1, 5, 0, 0, 3, 0, 0, 0);
    lemma_coefficient_product(55566int, mono6(x1, y1, z1, x2, y2, z2, 0, 2, 1, 0, 1, 5), (-1int), mono6(x1, y1, z1, x2, y2, z2, 0, 2, 1, 0, 0, 0));
    lemma_mono6_mul(x1, y1, z1, x2, y2, z2, 0, 2, 1, 0, 1, 5, 0, 2, 1, 0, 0, 0);
    lemma_coefficient_product(55566int, mono6(x1, y1, z1, x2, y2, z2, 0, 2, 1, 0, 1, 5), 1int, mono6(x1, y1, z1, x2, y2, z2, 3, 0, 0, 0, 0, 0));
    lemma_mono6_mul(x1, y1, z1, x2, y2, z2, 0, 2, 1, 0, 1, 5, 3, 0, 0, 0, 0, 0);
    lemma_mul_is_distributive_add(((-5292int) * mono6(x1, y1, z1, x2, y2, z2, 0, 2, 1, 0, 3, 3)), (7int * mono6(x1, y1, z1, x2, y2, z2, 0, 0, 3, 0, 0, 0)), (((-1int) * mono6(x1, y1, z1, x2, y2, z2, 0, 2, 1, 0, 0, 0)) + (1int * mono6(x1, y1, z1, x2, y2, z2, 3, 0, 0, 0, 0, 0))));
    lemma_mul_is_distributive_add(((-5292int) * mono6(x1, y1, z1, x2, y2, z2, 0, 2, 1, 0, 3, 3)), ((-1int) * mono6(x1, y1, z1, x2, y2, z2, 0, 2, 1, 0, 0, 0)), (1int * mono6(x1, y1, z1, x2, y2, z2, 3, 0, 0, 0, 0, 0)));
    lemma_coefficient_product((-5292int), mono6(x1, y1, z1, x2, y2, z2, 0, 2, 1, 0, 3, 3), 7int, mono6(x1, y1, z1, x2, y2, z2, 0, 0, 3, 0, 0, 0));
    lemma_mono6_mul(x1, y1, z1, x2, y2, z2, 0, 2, 1, 0, 3, 3, 0, 0, 3, 0, 0, 0);
    lemma_coefficient_product((-5292int), mono6(x1, y1, z1, x2, y2, z2, 0, 2, 1, 0, 3, 3), (-1int), mono6(x1, y1, z1, x2, y2, z2, 0, 2, 1, 0, 0, 0));
    lemma_mono6_mul(x1, y1, z1, x2, y2, z2, 0, 2, 1, 0, 3, 3, 0, 2, 1, 0, 0, 0);
    lemma_coefficient_product((-5292int), mono6(x1, y1, z1, x2, y2, z2, 0, 2, 1, 0, 3, 3), 1int, mono6(x1, y1, z1, x2, y2, z2, 3, 0, 0, 0, 0, 0));
    lemma_mono6_mul(x1, y1, z1, x2, y2, z2, 0, 2, 1, 0, 3, 3, 3, 0, 0, 0, 0, 0);
    lemma_mul_is_distributive_add((126int * mono6(x1, y1, z1, x2, y2, z2, 0, 2, 1, 0, 5, 1)), (7int * mono6(x1, y1, z1, x2, y2, z2, 0, 0, 3, 0, 0, 0)), (((-1int) * mono6(x1, y1, z1, x2, y2, z2, 0, 2, 1, 0, 0, 0)) + (1int * mono6(x1, y1, z1, x2, y2, z2, 3, 0, 0, 0, 0, 0))));
    lemma_mul_is_distributive_add((126int * mono6(x1, y1, z1, x2, y2, z2, 0, 2, 1, 0, 5, 1)), ((-1int) * mono6(x1, y1, z1, x2, y2, z2, 0, 2, 1, 0, 0, 0)), (1int * mono6(x1, y1, z1, x2, y2, z2, 3, 0, 0, 0, 0, 0)));
    lemma_coefficient_product(126int, mono6(x1, y1, z1, x2, y2, z2, 0, 2, 1, 0, 5, 1), 7int, mono6(x1, y1, z1, x2, y2, z2, 0, 0, 3, 0, 0, 0));
    lemma_mono6_mul(x1, y1, z1, x2, y2, z2, 0, 2, 1, 0, 5, 1, 0, 0, 3, 0, 0, 0);
    lemma_coefficient_product(126int, mono6(x1, y1, z1, x2, y2, z2, 0, 2, 1, 0, 5, 1), (-1int), mono6(x1, y1, z1, x2, y2, z2, 0, 2, 1, 0, 0, 0));
    lemma_mono6_mul(x1, y1, z1, x2, y2, z2, 0, 2, 1, 0, 5, 1, 0, 2, 1, 0, 0, 0);
    lemma_coefficient_product(126int, mono6(x1, y1, z1, x2, y2, z2, 0, 2, 1, 0, 5, 1), 1int, mono6(x1, y1, z1, x2, y2, z2, 3, 0, 0, 0, 0, 0));
    lemma_mono6_mul(x1, y1, z1, x2, y2, z2, 0, 2, 1, 0, 5, 1, 3, 0, 0, 0, 0, 0);
    lemma_mul_is_distributive_add((11907int * mono6(x1, y1, z1, x2, y2, z2, 0, 2, 1, 3, 1, 2)), (7int * mono6(x1, y1, z1, x2, y2, z2, 0, 0, 3, 0, 0, 0)), (((-1int) * mono6(x1, y1, z1, x2, y2, z2, 0, 2, 1, 0, 0, 0)) + (1int * mono6(x1, y1, z1, x2, y2, z2, 3, 0, 0, 0, 0, 0))));
    lemma_mul_is_distributive_add((11907int * mono6(x1, y1, z1, x2, y2, z2, 0, 2, 1, 3, 1, 2)), ((-1int) * mono6(x1, y1, z1, x2, y2, z2, 0, 2, 1, 0, 0, 0)), (1int * mono6(x1, y1, z1, x2, y2, z2, 3, 0, 0, 0, 0, 0)));
    lemma_coefficient_product(11907int, mono6(x1, y1, z1, x2, y2, z2, 0, 2, 1, 3, 1, 2), 7int, mono6(x1, y1, z1, x2, y2, z2, 0, 0, 3, 0, 0, 0));
    lemma_mono6_mul(x1, y1, z1, x2, y2, z2, 0, 2, 1, 3, 1, 2, 0, 0, 3, 0, 0, 0);
    lemma_coefficient_product(11907int, mono6(x1, y1, z1, x2, y2, z2, 0, 2, 1, 3, 1, 2), (-1int), mono6(x1, y1, z1, x2, y2, z2, 0, 2, 1, 0, 0, 0));
    lemma_mono6_mul(x1, y1, z1, x2, y2, z2, 0, 2, 1, 3, 1, 2, 0, 2, 1, 0, 0, 0);
    lemma_coefficient_product(11907int, mono6(x1, y1, z1, x2, y2, z2, 0, 2, 1, 3, 1, 2), 1int, mono6(x1, y1, z1, x2, y2, z2, 3, 0, 0, 0, 0, 0));
    lemma_mono6_mul(x1, y1, z1, x2, y2, z2, 0, 2, 1, 3, 1, 2, 3, 0, 0, 0, 0, 0);
    lemma_mul_is_distributive_add(((-189int) * mono6(x1, y1, z1, x2, y2, z2, 0, 2, 1, 3, 3, 0)), (7int * mono6(x1, y1, z1, x2, y2, z2, 0, 0, 3, 0, 0, 0)), (((-1int) * mono6(x1, y1, z1, x2, y2, z2, 0, 2, 1, 0, 0, 0)) + (1int * mono6(x1, y1, z1, x2, y2, z2, 3, 0, 0, 0, 0, 0))));
    lemma_mul_is_distributive_add(((-189int) * mono6(x1, y1, z1, x2, y2, z2, 0, 2, 1, 3, 3, 0)), ((-1int) * mono6(x1, y1, z1, x2, y2, z2, 0, 2, 1, 0, 0, 0)), (1int * mono6(x1, y1, z1, x2, y2, z2, 3, 0, 0, 0, 0, 0)));
    lemma_coefficient_product((-189int), mono6(x1, y1, z1, x2, y2, z2, 0, 2, 1, 3, 3, 0), 7int, mono6(x1, y1, z1, x2, y2, z2, 0, 0, 3, 0, 0, 0));
    lemma_mono6_mul(x1, y1, z1, x2, y2, z2, 0, 2, 1, 3, 3, 0, 0, 0, 3, 0, 0, 0);
    lemma_coefficient_product((-189int), mono6(x1, y1, z1, x2, y2, z2, 0, 2, 1, 3, 3, 0), (-1int), mono6(x1, y1, z1, x2, y2, z2, 0, 2, 1, 0, 0, 0));
    lemma_mono6_mul(x1, y1, z1, x2, y2, z2, 0, 2, 1, 3, 3, 0, 0, 2, 1, 0, 0, 0);
    lemma_coefficient_product((-189int), mono6(x1, y1, z1, x2, y2, z2, 0, 2, 1, 3, 3, 0), 1int, mono6(x1, y1, z1, x2, y2, z2, 3, 0, 0, 0, 0, 0));
    lemma_mono6_mul(x1, y1, z1, x2, y2, z2, 0, 2, 1, 3, 3, 0, 3, 0, 0, 0, 0, 0);
    lemma_mul_is_distributive_add((9261int * mono6(x1, y1, z1, x2, y2, z2, 0, 3, 0, 0, 0, 6)), (7int * mono6(x1, y1, z1, x2, y2, z2, 0, 0, 3, 0, 0, 0)), (((-1int) * mono6(x1, y1, z1, x2, y2, z2, 0, 2, 1, 0, 0, 0)) + (1int * mono6(x1, y1, z1, x2, y2, z2, 3, 0, 0, 0, 0, 0))));
    lemma_mul_is_distributive_add((9261int * mono6(x1, y1, z1, x2, y2, z2, 0, 3, 0, 0, 0, 6)), ((-1int) * mono6(x1, y1, z1, x2, y2, z2, 0, 2, 1, 0, 0, 0)), (1int * mono6(x1, y1, z1, x2, y2, z2, 3, 0, 0, 0, 0, 0)));
    lemma_coefficient_product(9261int, mono6(x1, y1, z1, x2, y2, z2, 0, 3, 0, 0, 0, 6), 7int, mono6(x1, y1, z1, x2, y2, z2, 0, 0, 3, 0, 0, 0));
    lemma_mono6_mul(x1, y1, z1, x2, y2, z2, 0, 3, 0, 0, 0, 6, 0, 0, 3, 0, 0, 0);
    lemma_coefficient_product(9261int, mono6(x1, y1, z1, x2, y2, z2, 0, 3, 0, 0, 0, 6), (-1int), mono6(x1, y1, z1, x2, y2, z2, 0, 2, 1, 0, 0, 0));
    lemma_mono6_mul(x1, y1, z1, x2, y2, z2, 0, 3, 0, 0, 0, 6, 0, 2, 1, 0, 0, 0);
    lemma_coefficient_product(9261int, mono6(x1, y1, z1, x2, y2, z2, 0, 3, 0, 0, 0, 6), 1int, mono6(x1, y1, z1, x2, y2, z2, 3, 0, 0, 0, 0, 0));
    lemma_mono6_mul(x1, y1, z1, x2, y2, z2, 0, 3, 0, 0, 0, 6, 3, 0, 0, 0, 0, 0);
    lemma_mul_is_distributive_add(((-1323int) * mono6(x1, y1, z1, x2, y2, z2, 0, 3, 0, 0, 2, 4)), (7int * mono6(x1, y1, z1, x2, y2, z2, 0, 0, 3, 0, 0, 0)), (((-1int) * mono6(x1, y1, z1, x2, y2, z2, 0, 2, 1, 0, 0, 0)) + (1int * mono6(x1, y1, z1, x2, y2, z2, 3, 0, 0, 0, 0, 0))));
    lemma_mul_is_distributive_add(((-1323int) * mono6(x1, y1, z1, x2, y2, z2, 0, 3, 0, 0, 2, 4)), ((-1int) * mono6(x1, y1, z1, x2, y2, z2, 0, 2, 1, 0, 0, 0)), (1int * mono6(x1, y1, z1, x2, y2, z2, 3, 0, 0, 0, 0, 0)));
    lemma_coefficient_product((-1323int), mono6(x1, y1, z1, x2, y2, z2, 0, 3, 0, 0, 2, 4), 7int, mono6(x1, y1, z1, x2, y2, z2, 0, 0, 3, 0, 0, 0));
    lemma_mono6_mul(x1, y1, z1, x2, y2, z2, 0, 3, 0, 0, 2, 4, 0, 0, 3, 0, 0, 0);
    lemma_coefficient_product((-1323int), mono6(x1, y1, z1, x2, y2, z2, 0, 3, 0, 0, 2, 4), (-1int), mono6(x1, y1, z1, x2, y2, z2, 0, 2, 1, 0, 0, 0));
    lemma_mono6_mul(x1, y1, z1, x2, y2, z2, 0, 3, 0, 0, 2, 4, 0, 2, 1, 0, 0, 0);
    lemma_coefficient_product((-1323int), mono6(x1, y1, z1, x2, y2, z2, 0, 3, 0, 0, 2, 4), 1int, mono6(x1, y1, z1, x2, y2, z2, 3, 0, 0, 0, 0, 0));
    lemma_mono6_mul(x1, y1, z1, x2, y2, z2, 0, 3, 0, 0, 2, 4, 3, 0, 0, 0, 0, 0);
    lemma_mul_is_distributive_add((63int * mono6(x1, y1, z1, x2, y2, z2, 0, 3, 0, 0, 4, 2)), (7int * mono6(x1, y1, z1, x2, y2, z2, 0, 0, 3, 0, 0, 0)), (((-1int) * mono6(x1, y1, z1, x2, y2, z2, 0, 2, 1, 0, 0, 0)) + (1int * mono6(x1, y1, z1, x2, y2, z2, 3, 0, 0, 0, 0, 0))));
    lemma_mul_is_distributive_add((63int * mono6(x1, y1, z1, x2, y2, z2, 0, 3, 0, 0, 4, 2)), ((-1int) * mono6(x1, y1, z1, x2, y2, z2, 0, 2, 1, 0, 0, 0)), (1int * mono6(x1, y1, z1, x2, y2, z2, 3, 0, 0, 0, 0, 0)));
    lemma_coefficient_product(63int, mono6(x1, y1, z1, x2, y2, z2, 0, 3, 0, 0, 4, 2), 7int, mono6(x1, y1, z1, x2, y2, z2, 0, 0, 3, 0, 0, 0));
    lemma_mono6_mul(x1, y1, z1, x2, y2, z2, 0, 3, 0, 0, 4, 2, 0, 0, 3, 0, 0, 0);
    lemma_coefficient_product(63int, mono6(x1, y1, z1, x2, y2, z2, 0, 3, 0, 0, 4, 2), (-1int), mono6(x1, y1, z1, x2, y2, z2, 0, 2, 1, 0, 0, 0));
    lemma_mono6_mul(x1, y1, z1, x2, y2, z2, 0, 3, 0, 0, 4, 2, 0, 2, 1, 0, 0, 0);
    lemma_coefficient_product(63int, mono6(x1, y1, z1, x2, y2, z2, 0, 3, 0, 0, 4, 2), 1int, mono6(x1, y1, z1, x2, y2, z2, 3, 0, 0, 0, 0, 0));
    lemma_mono6_mul(x1, y1, z1, x2, y2, z2, 0, 3, 0, 0, 4, 2, 3, 0, 0, 0, 0, 0);
    lemma_mul_is_distributive_add(((-1int) * mono6(x1, y1, z1, x2, y2, z2, 0, 3, 0, 0, 6, 0)), (7int * mono6(x1, y1, z1, x2, y2, z2, 0, 0, 3, 0, 0, 0)), (((-1int) * mono6(x1, y1, z1, x2, y2, z2, 0, 2, 1, 0, 0, 0)) + (1int * mono6(x1, y1, z1, x2, y2, z2, 3, 0, 0, 0, 0, 0))));
    lemma_mul_is_distributive_add(((-1int) * mono6(x1, y1, z1, x2, y2, z2, 0, 3, 0, 0, 6, 0)), ((-1int) * mono6(x1, y1, z1, x2, y2, z2, 0, 2, 1, 0, 0, 0)), (1int * mono6(x1, y1, z1, x2, y2, z2, 3, 0, 0, 0, 0, 0)));
    lemma_coefficient_product((-1int), mono6(x1, y1, z1, x2, y2, z2, 0, 3, 0, 0, 6, 0), 7int, mono6(x1, y1, z1, x2, y2, z2, 0, 0, 3, 0, 0, 0));
    lemma_mono6_mul(x1, y1, z1, x2, y2, z2, 0, 3, 0, 0, 6, 0, 0, 0, 3, 0, 0, 0);
    lemma_coefficient_product((-1int), mono6(x1, y1, z1, x2, y2, z2, 0, 3, 0, 0, 6, 0), (-1int), mono6(x1, y1, z1, x2, y2, z2, 0, 2, 1, 0, 0, 0));
    lemma_mono6_mul(x1, y1, z1, x2, y2, z2, 0, 3, 0, 0, 6, 0, 0, 2, 1, 0, 0, 0);
    lemma_coefficient_product((-1int), mono6(x1, y1, z1, x2, y2, z2, 0, 3, 0, 0, 6, 0), 1int, mono6(x1, y1, z1, x2, y2, z2, 3, 0, 0, 0, 0, 0));
    lemma_mono6_mul(x1, y1, z1, x2, y2, z2, 0, 3, 0, 0, 6, 0, 3, 0, 0, 0, 0, 0);
    lemma_mul_is_distributive_add(((-189int) * mono6(x1, y1, z1, x2, y2, z2, 0, 3, 0, 6, 0, 0)), (7int * mono6(x1, y1, z1, x2, y2, z2, 0, 0, 3, 0, 0, 0)), (((-1int) * mono6(x1, y1, z1, x2, y2, z2, 0, 2, 1, 0, 0, 0)) + (1int * mono6(x1, y1, z1, x2, y2, z2, 3, 0, 0, 0, 0, 0))));
    lemma_mul_is_distributive_add(((-189int) * mono6(x1, y1, z1, x2, y2, z2, 0, 3, 0, 6, 0, 0)), ((-1int) * mono6(x1, y1, z1, x2, y2, z2, 0, 2, 1, 0, 0, 0)), (1int * mono6(x1, y1, z1, x2, y2, z2, 3, 0, 0, 0, 0, 0)));
    lemma_coefficient_product((-189int), mono6(x1, y1, z1, x2, y2, z2, 0, 3, 0, 6, 0, 0), 7int, mono6(x1, y1, z1, x2, y2, z2, 0, 0, 3, 0, 0, 0));
    lemma_mono6_mul(x1, y1, z1, x2, y2, z2, 0, 3, 0, 6, 0, 0, 0, 0, 3, 0, 0, 0);
    lemma_coefficient_product((-189int), mono6(x1, y1, z1, x2, y2, z2, 0, 3, 0, 6, 0, 0), (-1int), mono6(x1, y1, z1, x2, y2, z2, 0, 2, 1, 0, 0, 0));
    lemma_mono6_mul(x1, y1, z1, x2, y2, z2, 0, 3, 0, 6, 0, 0, 0, 2, 1, 0, 0, 0);
    lemma_coefficient_product((-189int), mono6(x1, y1, z1, x2, y2, z2, 0, 3, 0, 6, 0, 0), 1int, mono6(x1, y1, z1, x2, y2, z2, 3, 0, 0, 0, 0, 0));
    lemma_mono6_mul(x1, y1, z1, x2, y2, z2, 0, 3, 0, 6, 0, 0, 3, 0, 0, 0, 0, 0);
    lemma_mul_is_distributive_add(((-83349int) * mono6(x1, y1, z1, x2, y2, z2, 1, 0, 2, 2, 1, 3)), (7int * mono6(x1, y1, z1, x2, y2, z2, 0, 0, 3, 0, 0, 0)), (((-1int) * mono6(x1, y1, z1, x2, y2, z2, 0, 2, 1, 0, 0, 0)) + (1int * mono6(x1, y1, z1, x2, y2, z2, 3, 0, 0, 0, 0, 0))));
    lemma_mul_is_distributive_add(((-83349int) * mono6(x1, y1, z1, x2, y2, z2, 1, 0, 2, 2, 1, 3)), ((-1int) * mono6(x1, y1, z1, x2, y2, z2, 0, 2, 1, 0, 0, 0)), (1int * mono6(x1, y1, z1, x2, y2, z2, 3, 0, 0, 0, 0, 0)));
    lemma_coefficient_product((-83349int), mono6(x1, y1, z1, x2, y2, z2, 1, 0, 2, 2, 1, 3), 7int, mono6(x1, y1, z1, x2, y2, z2, 0, 0, 3, 0, 0, 0));
    lemma_mono6_mul(x1, y1, z1, x2, y2, z2, 1, 0, 2, 2, 1, 3, 0, 0, 3, 0, 0, 0);
    lemma_coefficient_product((-83349int), mono6(x1, y1, z1, x2, y2, z2, 1, 0, 2, 2, 1, 3), (-1int), mono6(x1, y1, z1, x2, y2, z2, 0, 2, 1, 0, 0, 0));
    lemma_mono6_mul(x1, y1, z1, x2, y2, z2, 1, 0, 2, 2, 1, 3, 0, 2, 1, 0, 0, 0);
    lemma_coefficient_product((-83349int), mono6(x1, y1, z1, x2, y2, z2, 1, 0, 2, 2, 1, 3), 1int, mono6(x1, y1, z1, x2, y2, z2, 3, 0, 0, 0, 0, 0));
    lemma_mono6_mul(x1, y1, z1, x2, y2, z2, 1, 0, 2, 2, 1, 3, 3, 0, 0, 0, 0, 0);
    lemma_mul_is_distributive_add(((-3969int) * mono6(x1, y1, z1, x2, y2, z2, 1, 0, 2, 2, 3, 1)), (7int * mono6(x1, y1, z1, x2, y2, z2, 0, 0, 3, 0, 0, 0)), (((-1int) * mono6(x1, y1, z1, x2, y2, z2, 0, 2, 1, 0, 0, 0)) + (1int * mono6(x1, y1, z1, x2, y2, z2, 3, 0, 0, 0, 0, 0))));
    lemma_mul_is_distributive_add(((-3969int) * mono6(x1, y1, z1, x2, y2, z2, 1, 0, 2, 2, 3, 1)), ((-1int) * mono6(x1, y1, z1, x2, y2, z2, 0, 2, 1, 0, 0, 0)), (1int * mono6(x1, y1, z1, x2, y2, z2, 3, 0, 0, 0, 0, 0)));
    lemma_coefficient_product((-3969int), mono6(x1, y1, z1, x2, y2, z2, 1, 0, 2, 2, 3, 1), 7int, mono6(x1, y1, z1, x2, y2, z2, 0, 0, 3, 0, 0, 0));
    lemma_mono6_mul(x1, y1, z1, x2, y2, z2, 1, 0, 2, 2, 3, 1, 0, 0, 3, 0, 0, 0);
    lemma_coefficient_product((-3969int), mono6(x1, y1, z1, x2, y2, z2, 1, 0, 2, 2, 3, 1), (-1int), mono6(x1, y1, z1, x2, y2, z2, 0, 2, 1, 0, 0, 0));
    lemma_mono6_mul(x1, y1, z1, x2, y2, z2, 1, 0, 2, 2, 3, 1, 0, 2, 1, 0, 0, 0);
    lemma_coefficient_product((-3969int), mono6(x1, y1, z1, x2, y2, z2, 1, 0, 2, 2, 3, 1), 1int, mono6(x1, y1, z1, x2, y2, z2, 3, 0, 0, 0, 0, 0));
    lemma_mono6_mul(x1, y1, z1, x2, y2, z2, 1, 0, 2, 2, 3, 1, 3, 0, 0, 0, 0, 0);
    lemma_mul_is_distributive_add((11907int * mono6(x1, y1, z1, x2, y2, z2, 1, 0, 2, 5, 1, 0)), (7int * mono6(x1, y1, z1, x2, y2, z2, 0, 0, 3, 0, 0, 0)), (((-1int) * mono6(x1, y1, z1, x2, y2, z2, 0, 2, 1, 0, 0, 0)) + (1int * mono6(x1, y1, z1, x2, y2, z2, 3, 0, 0, 0, 0, 0))));
    lemma_mul_is_distributive_add((11907int * mono6(x1, y1, z1, x2, y2, z2, 1, 0, 2, 5, 1, 0)), ((-1int) * mono6(x1, y1, z1, x2, y2, z2, 0, 2, 1, 0, 0, 0)), (1int * mono6(x1, y1, z1, x2, y2, z2, 3, 0, 0, 0, 0, 0)));
    lemma_coefficient_product(11907int, mono6(x1, y1, z1, x2, y2, z2, 1, 0, 2, 5, 1, 0), 7int, mono6(x1, y1, z1, x2, y2, z2, 0, 0, 3, 0, 0, 0));
    lemma_mono6_mul(x1, y1, z1, x2, y2, z2, 1, 0, 2, 5, 1, 0, 0, 0, 3, 0, 0, 0);
    lemma_coefficient_product(11907int, mono6(x1, y1, z1, x2, y2, z2, 1, 0, 2, 5, 1, 0), (-1int), mono6(x1, y1, z1, x2, y2, z2, 0, 2, 1, 0, 0, 0));
    lemma_mono6_mul(x1, y1, z1, x2, y2, z2, 1, 0, 2, 5, 1, 0, 0, 2, 1, 0, 0, 0);
    lemma_coefficient_product(11907int, mono6(x1, y1, z1, x2, y2, z2, 1, 0, 2, 5, 1, 0), 1int, mono6(x1, y1, z1, x2, y2, z2, 3, 0, 0, 0, 0, 0));
    lemma_mono6_mul(x1, y1, z1, x2, y2, z2, 1, 0, 2, 5, 1, 0, 3, 0, 0, 0, 0, 0);
    lemma_mul_is_distributive_add((83349int * mono6(x1, y1, z1, x2, y2, z2, 1, 1, 1, 2, 0, 4)), (7int * mono6(x1, y1, z1, x2, y2, z2, 0, 0, 3, 0, 0, 0)), (((-1int) * mono6(x1, y1, z1, x2, y2, z2, 0, 2, 1, 0, 0, 0)) + (1int * mono6(x1, y1, z1, x2, y2, z2, 3, 0, 0, 0, 0, 0))));
    lemma_mul_is_distributive_add((83349int * mono6(x1, y1, z1, x2, y2, z2, 1, 1, 1, 2, 0, 4)), ((-1int) * mono6(x1, y1, z1, x2, y2, z2, 0, 2, 1, 0, 0, 0)), (1int * mono6(x1, y1, z1, x2, y2, z2, 3, 0, 0, 0, 0, 0)));
    lemma_coefficient_product(83349int, mono6(x1, y1, z1, x2, y2, z2, 1, 1, 1, 2, 0, 4), 7int, mono6(x1, y1, z1, x2, y2, z2, 0, 0, 3, 0, 0, 0));
    lemma_mono6_mul(x1, y1, z1, x2, y2, z2, 1, 1, 1, 2, 0, 4, 0, 0, 3, 0, 0, 0);
    lemma_coefficient_product(83349int, mono6(x1, y1, z1, x2, y2, z2, 1, 1, 1, 2, 0, 4), (-1int), mono6(x1, y1, z1, x2, y2, z2, 0, 2, 1, 0, 0, 0));
    lemma_mono6_mul(x1, y1, z1, x2, y2, z2, 1, 1, 1, 2, 0, 4, 0, 2, 1, 0, 0, 0);
    lemma_coefficient_product(83349int, mono6(x1, y1, z1, x2, y2, z2, 1, 1, 1, 2, 0, 4), 1int, mono6(x1, y1, z1, x2, y2, z2, 3, 0, 0, 0, 0, 0));
    lemma_mono6_mul(x1, y1, z1, x2, y2, z2, 1, 1, 1, 2, 0, 4, 3, 0, 0, 0, 0, 0);
    lemma_mul_is_distributive_add(((-189int) * mono6(x1, y1, z1, x2, y2, z2, 1, 1, 1, 2, 4, 0)), (7int * mono6(x1, y1, z1, x2, y2, z2, 0, 0, 3, 0, 0, 0)), (((-1int) * mono6(x1, y1, z1, x2, y2, z2, 0, 2, 1, 0, 0, 0)) + (1int * mono6(x1, y1, z1, x2, y2, z2, 3, 0, 0, 0, 0, 0))));
    lemma_mul_is_distributive_add(((-189int) * mono6(x1, y1, z1, x2, y2, z2, 1, 1, 1, 2, 4, 0)), ((-1int) * mono6(x1, y1, z1, x2, y2, z2, 0, 2, 1, 0, 0, 0)), (1int * mono6(x1, y1, z1, x2, y2, z2, 3, 0, 0, 0, 0, 0)));
    lemma_coefficient_product((-189int), mono6(x1, y1, z1, x2, y2, z2, 1, 1, 1, 2, 4, 0), 7int, mono6(x1, y1, z1, x2, y2, z2, 0, 0, 3, 0, 0, 0));
    lemma_mono6_mul(x1, y1, z1, x2, y2, z2, 1, 1, 1, 2, 4, 0, 0, 0, 3, 0, 0, 0);
    lemma_coefficient_product((-189int), mono6(x1, y1, z1, x2, y2, z2, 1, 1, 1, 2, 4, 0), (-1int), mono6(x1, y1, z1, x2, y2, z2, 0, 2, 1, 0, 0, 0));
    lemma_mono6_mul(x1, y1, z1, x2, y2, z2, 1, 1, 1, 2, 4, 0, 0, 2, 1, 0, 0, 0);
    lemma_coefficient_product((-189int), mono6(x1, y1, z1, x2, y2, z2, 1, 1, 1, 2, 4, 0), 1int, mono6(x1, y1, z1, x2, y2, z2, 3, 0, 0, 0, 0, 0));
    lemma_mono6_mul(x1, y1, z1, x2, y2, z2, 1, 1, 1, 2, 4, 0, 3, 0, 0, 0, 0, 0);
    lemma_mul_is_distributive_add((23814int * mono6(x1, y1, z1, x2, y2, z2, 1, 1, 1, 5, 0, 1)), (7int * mono6(x1, y1, z1, x2, y2, z2, 0, 0, 3, 0, 0, 0)), (((-1int) * mono6(x1, y1, z1, x2, y2, z2, 0, 2, 1, 0, 0, 0)) + (1int * mono6(x1, y1, z1, x2, y2, z2, 3, 0, 0, 0, 0, 0))));
    lemma_mul_is_distributive_add((23814int * mono6(x1, y1, z1, x2, y2, z2, 1, 1, 1, 5, 0, 1)), ((-1int) * mono6(x1, y1, z1, x2, y2, z2, 0, 2, 1, 0, 0, 0)), (1int * mono6(x1, y1, z1, x2, y2, z2, 3, 0, 0, 0, 0, 0)));
    lemma_coefficient_product(23814int, mono6(x1, y1, z1, x2, y2, z2, 1, 1, 1, 5, 0, 1), 7int, mono6(x1, y1, z1, x2, y2, z2, 0, 0, 3, 0, 0, 0));
    lemma_mono6_mul(x1, y1, z1, x2, y2, z2, 1, 1, 1, 5, 0, 1, 0, 0, 3, 0, 0, 0);
    lemma_coefficient_product(23814int, mono6(x1, y1, z1, x2, y2, z2, 1, 1, 1, 5, 0, 1), (-1int), mono6(x1, y1, z1, x2, y2, z2, 0, 2, 1, 0, 0, 0));
    lemma_mono6_mul(x1, y1, z1, x2, y2, z2, 1, 1, 1, 5, 0, 1, 0, 2, 1, 0, 0, 0);
    lemma_coefficient_product(23814int, mono6(x1, y1, z1, x2, y2, z2, 1, 1, 1, 5, 0, 1), 1int, mono6(x1, y1, z1, x2, y2, z2, 3, 0, 0, 0, 0, 0));
    lemma_mono6_mul(x1, y1, z1, x2, y2, z2, 1, 1, 1, 5, 0, 1, 3, 0, 0, 0, 0, 0);
    lemma_mul_is_distributive_add((3969int * mono6(x1, y1, z1, x2, y2, z2, 1, 2, 0, 2, 1, 3)), (7int * mono6(x1, y1, z1, x2, y2, z2, 0, 0, 3, 0, 0, 0)), (((-1int) * mono6(x1, y1, z1, x2, y2, z2, 0, 2, 1, 0, 0, 0)) + (1int * mono6(x1, y1, z1, x2, y2, z2, 3, 0, 0, 0, 0, 0))));
    lemma_mul_is_distributive_add((3969int * mono6(x1, y1, z1, x2, y2, z2, 1, 2, 0, 2, 1, 3)), ((-1int) * mono6(x1, y1, z1, x2, y2, z2, 0, 2, 1, 0, 0, 0)), (1int * mono6(x1, y1, z1, x2, y2, z2, 3, 0, 0, 0, 0, 0)));
    lemma_coefficient_product(3969int, mono6(x1, y1, z1, x2, y2, z2, 1, 2, 0, 2, 1, 3), 7int, mono6(x1, y1, z1, x2, y2, z2, 0, 0, 3, 0, 0, 0));
    lemma_mono6_mul(x1, y1, z1, x2, y2, z2, 1, 2, 0, 2, 1, 3, 0, 0, 3, 0, 0, 0);
    lemma_coefficient_product(3969int, mono6(x1, y1, z1, x2, y2, z2, 1, 2, 0, 2, 1, 3), (-1int), mono6(x1, y1, z1, x2, y2, z2, 0, 2, 1, 0, 0, 0));
    lemma_mono6_mul(x1, y1, z1, x2, y2, z2, 1, 2, 0, 2, 1, 3, 0, 2, 1, 0, 0, 0);
    lemma_coefficient_product(3969int, mono6(x1, y1, z1, x2, y2, z2, 1, 2, 0, 2, 1, 3), 1int, mono6(x1, y1, z1, x2, y2, z2, 3, 0, 0, 0, 0, 0));
    lemma_mono6_mul(x1, y1, z1, x2, y2, z2, 1, 2, 0, 2, 1, 3, 3, 0, 0, 0, 0, 0);
    lemma_mul_is_distributive_add((189int * mono6(x1, y1, z1, x2, y2, z2, 1, 2, 0, 2, 3, 1)), (7int * mono6(x1, y1, z1, x2, y2, z2, 0, 0, 3, 0, 0, 0)), (((-1int) * mono6(x1, y1, z1, x2, y2, z2, 0, 2, 1, 0, 0, 0)) + (1int * mono6(x1, y1, z1, x2, y2, z2, 3, 0, 0, 0, 0, 0))));
    lemma_mul_is_distributive_add((189int * mono6(x1, y1, z1, x2, y2, z2, 1, 2, 0, 2, 3, 1)), ((-1int) * mono6(x1, y1, z1, x2, y2, z2, 0, 2, 1, 0, 0, 0)), (1int * mono6(x1, y1, z1, x2, y2, z2, 3, 0, 0, 0, 0, 0)));
    lemma_coefficient_product(189int, mono6(x1, y1, z1, x2, y2, z2, 1, 2, 0, 2, 3, 1), 7int, mono6(x1, y1, z1, x2, y2, z2, 0, 0, 3, 0, 0, 0));
    lemma_mono6_mul(x1, y1, z1, x2, y2, z2, 1, 2, 0, 2, 3, 1, 0, 0, 3, 0, 0, 0);
    lemma_coefficient_product(189int, mono6(x1, y1, z1, x2, y2, z2, 1, 2, 0, 2, 3, 1), (-1int), mono6(x1, y1, z1, x2, y2, z2, 0, 2, 1, 0, 0, 0));
    lemma_mono6_mul(x1, y1, z1, x2, y2, z2, 1, 2, 0, 2, 3, 1, 0, 2, 1, 0, 0, 0);
    lemma_coefficient_product(189int, mono6(x1, y1, z1, x2, y2, z2, 1, 2, 0, 2, 3, 1), 1int, mono6(x1, y1, z1, x2, y2, z2, 3, 0, 0, 0, 0, 0));
    lemma_mono6_mul(x1, y1, z1, x2, y2, z2, 1, 2, 0, 2, 3, 1, 3, 0, 0, 0, 0, 0);
    lemma_mul_is_distributive_add(((-567int) * mono6(x1, y1, z1, x2, y2, z2, 1, 2, 0, 5, 1, 0)), (7int * mono6(x1, y1, z1, x2, y2, z2, 0, 0, 3, 0, 0, 0)), (((-1int) * mono6(x1, y1, z1, x2, y2, z2, 0, 2, 1, 0, 0, 0)) + (1int * mono6(x1, y1, z1, x2, y2, z2, 3, 0, 0, 0, 0, 0))));
    lemma_mul_is_distributive_add(((-567int) * mono6(x1, y1, z1, x2, y2, z2, 1, 2, 0, 5, 1, 0)), ((-1int) * mono6(x1, y1, z1, x2, y2, z2, 0, 2, 1, 0, 0, 0)), (1int * mono6(x1, y1, z1, x2, y2, z2, 3, 0, 0, 0, 0, 0)));
    lemma_coefficient_product((-567int), mono6(x1, y1, z1, x2, y2, z2, 1, 2, 0, 5, 1, 0), 7int, mono6(x1, y1, z1, x2, y2, z2, 0, 0, 3, 0, 0, 0));
    lemma_mono6_mul(x1, y1, z1, x2, y2, z2, 1, 2, 0, 5, 1, 0, 0, 0, 3, 0, 0, 0);
    lemma_coefficient_product((-567int), mono6(x1, y1, z1, x2, y2, z2, 1, 2, 0, 5, 1, 0), (-1int), mono6(x1, y1, z1, x2, y2, z2, 0, 2, 1, 0, 0, 0));
    lemma_mono6_mul(x1, y1, z1, x2, y2, z2, 1, 2, 0, 5, 1, 0, 0, 2, 1, 0, 0, 0);
    lemma_coefficient_product((-567int), mono6(x1, y1, z1, x2, y2, z2, 1, 2, 0, 5, 1, 0), 1int, mono6(x1, y1, z1, x2, y2, z2, 3, 0, 0, 0, 0, 0));
    lemma_mono6_mul(x1, y1, z1, x2, y2, z2, 1, 2, 0, 5, 1, 0, 3, 0, 0, 0, 0, 0);
    lemma_mul_is_distributive_add((23814int * mono6(x1, y1, z1, x2, y2, z2, 2, 0, 1, 4, 1, 1)), (7int * mono6(x1, y1, z1, x2, y2, z2, 0, 0, 3, 0, 0, 0)), (((-1int) * mono6(x1, y1, z1, x2, y2, z2, 0, 2, 1, 0, 0, 0)) + (1int * mono6(x1, y1, z1, x2, y2, z2, 3, 0, 0, 0, 0, 0))));
    lemma_mul_is_distributive_add((23814int * mono6(x1, y1, z1, x2, y2, z2, 2, 0, 1, 4, 1, 1)), ((-1int) * mono6(x1, y1, z1, x2, y2, z2, 0, 2, 1, 0, 0, 0)), (1int * mono6(x1, y1, z1, x2, y2, z2, 3, 0, 0, 0, 0, 0)));
    lemma_coefficient_product(23814int, mono6(x1, y1, z1, x2, y2, z2, 2, 0, 1, 4, 1, 1), 7int, mono6(x1, y1, z1, x2, y2, z2, 0, 0, 3, 0, 0, 0));
    lemma_mono6_mul(x1, y1, z1, x2, y2, z2, 2, 0, 1, 4, 1, 1, 0, 0, 3, 0, 0, 0);
    lemma_coefficient_product(23814int, mono6(x1, y1, z1, x2, y2, z2, 2, 0, 1, 4, 1, 1), (-1int), mono6(x1, y1, z1, x2, y2, z2, 0, 2, 1, 0, 0, 0));
    lemma_mono6_mul(x1, y1, z1, x2, y2, z2, 2, 0, 1, 4, 1, 1, 0, 2, 1, 0, 0, 0);
    lemma_coefficient_product(23814int, mono6(x1, y1, z1, x2, y2, z2, 2, 0, 1, 4, 1, 1), 1int, mono6(x1, y1, z1, x2, y2, z2, 3, 0, 0, 0, 0, 0));
    lemma_mono6_mul(x1, y1, z1, x2, y2, z2, 2, 0, 1, 4, 1, 1, 3, 0, 0, 0, 0, 0);
    lemma_mul_is_distributive_add((11907int * mono6(x1, y1, z1, x2, y2, z2, 2, 1, 0, 4, 0, 2)), (7int * mono6(x1, y1, z1, x2, y2, z2, 0, 0, 3, 0, 0, 0)), (((-1int) * mono6(x1, y1, z1, x2, y2, z2, 0, 2, 1, 0, 0, 0)) + (1int * mono6(x1, y1, z1, x2, y2, z2, 3, 0, 0, 0, 0, 0))));
    lemma_mul_is_distributive_add((11907int * mono6(x1, y1, z1, x2, y2, z2, 2, 1, 0, 4, 0, 2)), ((-1int) * mono6(x1, y1, z1, x2, y2, z2, 0, 2, 1, 0, 0, 0)), (1int * mono6(x1, y1, z1, x2, y2, z2, 3, 0, 0, 0, 0, 0)));
    lemma_coefficient_product(11907int, mono6(x1, y1, z1, x2, y2, z2, 2, 1, 0, 4, 0, 2), 7int, mono6(x1, y1, z1, x2, y2, z2, 0, 0, 3, 0, 0, 0));
    lemma_mono6_mul(x1, y1, z1, x2, y2, z2, 2, 1, 0, 4, 0, 2, 0, 0, 3, 0, 0, 0);
    lemma_coefficient_product(11907int, mono6(x1, y1, z1, x2, y2, z2, 2, 1, 0, 4, 0, 2), (-1int), mono6(x1, y1, z1, x2, y2, z2, 0, 2, 1, 0, 0, 0));
    lemma_mono6_mul(x1, y1, z1, x2, y2, z2, 2, 1, 0, 4, 0, 2, 0, 2, 1, 0, 0, 0);
    lemma_coefficient_product(11907int, mono6(x1, y1, z1, x2, y2, z2, 2, 1, 0, 4, 0, 2), 1int, mono6(x1, y1, z1, x2, y2, z2, 3, 0, 0, 0, 0, 0));
    lemma_mono6_mul(x1, y1, z1, x2, y2, z2, 2, 1, 0, 4, 0, 2, 3, 0, 0, 0, 0, 0);
    lemma_mul_is_distributive_add(((-567int) * mono6(x1, y1, z1, x2, y2, z2, 2, 1, 0, 4, 2, 0)), (7int * mono6(x1, y1, z1, x2, y2, z2, 0, 0, 3, 0, 0, 0)), (((-1int) * mono6(x1, y1, z1, x2, y2, z2, 0, 2, 1, 0, 0, 0)) + (1int * mono6(x1, y1, z1, x2, y2, z2, 3, 0, 0, 0, 0, 0))));
    lemma_mul_is_distributive_add(((-567int) * mono6(x1, y1, z1, x2, y2, z2, 2, 1, 0, 4, 2, 0)), ((-1int) * mono6(x1, y1, z1, x2, y2, z2, 0, 2, 1, 0, 0, 0)), (1int * mono6(x1, y1, z1, x2, y2, z2, 3, 0, 0, 0, 0, 0)));
    lemma_coefficient_product((-567int), mono6(x1, y1, z1, x2, y2, z2, 2, 1, 0, 4, 2, 0), 7int, mono6(x1, y1, z1, x2, y2, z2, 0, 0, 3, 0, 0, 0));
    lemma_mono6_mul(x1, y1, z1, x2, y2, z2, 2, 1, 0, 4, 2, 0, 0, 0, 3, 0, 0, 0);
    lemma_coefficient_product((-567int), mono6(x1, y1, z1, x2, y2, z2, 2, 1, 0, 4, 2, 0), (-1int), mono6(x1, y1, z1, x2, y2, z2, 0, 2, 1, 0, 0, 0));
    lemma_mono6_mul(x1, y1, z1, x2, y2, z2, 2, 1, 0, 4, 2, 0, 0, 2, 1, 0, 0, 0);
    lemma_coefficient_product((-567int), mono6(x1, y1, z1, x2, y2, z2, 2, 1, 0, 4, 2, 0), 1int, mono6(x1, y1, z1, x2, y2, z2, 3, 0, 0, 0, 0, 0));
    lemma_mono6_mul(x1, y1, z1, x2, y2, z2, 2, 1, 0, 4, 2, 0, 3, 0, 0, 0, 0, 0);
    lemma_mul_is_distributive_add((11907int * mono6(x1, y1, z1, x2, y2, z2, 3, 0, 0, 3, 1, 2)), (7int * mono6(x1, y1, z1, x2, y2, z2, 0, 0, 3, 0, 0, 0)), (((-1int) * mono6(x1, y1, z1, x2, y2, z2, 0, 2, 1, 0, 0, 0)) + (1int * mono6(x1, y1, z1, x2, y2, z2, 3, 0, 0, 0, 0, 0))));
    lemma_mul_is_distributive_add((11907int * mono6(x1, y1, z1, x2, y2, z2, 3, 0, 0, 3, 1, 2)), ((-1int) * mono6(x1, y1, z1, x2, y2, z2, 0, 2, 1, 0, 0, 0)), (1int * mono6(x1, y1, z1, x2, y2, z2, 3, 0, 0, 0, 0, 0)));
    lemma_coefficient_product(11907int, mono6(x1, y1, z1, x2, y2, z2, 3, 0, 0, 3, 1, 2), 7int, mono6(x1, y1, z1, x2, y2, z2, 0, 0, 3, 0, 0, 0));
    lemma_mono6_mul(x1, y1, z1, x2, y2, z2, 3, 0, 0, 3, 1, 2, 0, 0, 3, 0, 0, 0);
    lemma_coefficient_product(11907int, mono6(x1, y1, z1, x2, y2, z2, 3, 0, 0, 3, 1, 2), (-1int), mono6(x1, y1, z1, x2, y2, z2, 0, 2, 1, 0, 0, 0));
    lemma_mono6_mul(x1, y1, z1, x2, y2, z2, 3, 0, 0, 3, 1, 2, 0, 2, 1, 0, 0, 0);
    lemma_coefficient_product(11907int, mono6(x1, y1, z1, x2, y2, z2, 3, 0, 0, 3, 1, 2), 1int, mono6(x1, y1, z1, x2, y2, z2, 3, 0, 0, 0, 0, 0));
    lemma_mono6_mul(x1, y1, z1, x2, y2, z2, 3, 0, 0, 3, 1, 2, 3, 0, 0, 0, 0, 0);
    lemma_mul_is_distributive_add(((-189int) * mono6(x1, y1, z1, x2, y2, z2, 3, 0, 0, 3, 3, 0)), (7int * mono6(x1, y1, z1, x2, y2, z2, 0, 0, 3, 0, 0, 0)), (((-1int) * mono6(x1, y1, z1, x2, y2, z2, 0, 2, 1, 0, 0, 0)) + (1int * mono6(x1, y1, z1, x2, y2, z2, 3, 0, 0, 0, 0, 0))));
    lemma_mul_is_distributive_add(((-189int) * mono6(x1, y1, z1, x2, y2, z2, 3, 0, 0, 3, 3, 0)), ((-1int) * mono6(x1, y1, z1, x2, y2, z2, 0, 2, 1, 0, 0, 0)), (1int * mono6(x1, y1, z1, x2, y2, z2, 3, 0, 0, 0, 0, 0)));
    lemma_coefficient_product((-189int), mono6(x1, y1, z1, x2, y2, z2, 3, 0, 0, 3, 3, 0), 7int, mono6(x1, y1, z1, x2, y2, z2, 0, 0, 3, 0, 0, 0));
    lemma_mono6_mul(x1, y1, z1, x2, y2, z2, 3, 0, 0, 3, 3, 0, 0, 0, 3, 0, 0, 0);
    lemma_coefficient_product((-189int), mono6(x1, y1, z1, x2, y2, z2, 3, 0, 0, 3, 3, 0), (-1int), mono6(x1, y1, z1, x2, y2, z2, 0, 2, 1, 0, 0, 0));
    lemma_mono6_mul(x1, y1, z1, x2, y2, z2, 3, 0, 0, 3, 3, 0, 0, 2, 1, 0, 0, 0);
    lemma_coefficient_product((-189int), mono6(x1, y1, z1, x2, y2, z2, 3, 0, 0, 3, 3, 0), 1int, mono6(x1, y1, z1, x2, y2, z2, 3, 0, 0, 0, 0, 0));
    lemma_mono6_mul(x1, y1, z1, x2, y2, z2, 3, 0, 0, 3, 3, 0, 3, 0, 0, 0, 0, 0);
    assert(((((((74088int * mono6(x1, y1, z1, x2, y2, z2, 0, 0, 3, 0, 3, 3)) + (((-83349int) * mono6(x1, y1, z1, x2, y2, z2, 0, 0, 3, 3, 1, 2)) + (1323int * mono6(x1, y1, z1, x2, y2, z2, 0, 0, 3, 3, 3, 0)))) + (((111132int * mono6(x1, y1, z1, x2, y2, z2, 0, 1, 2, 0, 2, 4)) + ((-5292int) * mono6(x1, y1, z1, x2, y2, z2, 0, 1, 2, 0, 4, 2))) + ((11907int * mono6(x1, y1, z1, x2, y2, z2, 0, 1, 2, 6, 0, 0)) + (55566int * mono6(x1, y1, z1, x2, y2, z2, 0, 2, 1, 0, 1, 5))))) + (((((-5292int) * mono6(x1, y1, z1, x2, y2, z2, 0, 2, 1, 0, 3, 3)) + (126int * mono6(x1, y1, z1, x2, y2, z2, 0, 2, 1, 0, 5, 1))) + ((11907int * mono6(x1, y1, z1, x2, y2, z2, 0, 2, 1, 3, 1, 2)) + ((-189int) * mono6(x1, y1, z1, x2, y2, z2, 0, 2, 1, 3, 3, 0)))) + (((9261int * mono6(x1, y1, z1, x2, y2, z2, 0, 3, 0, 0, 0, 6)) + ((-1323int) * mono6(x1, y1, z1, x2, y2, z2, 0, 3, 0, 0, 2, 4))) + ((63int * mono6(x1, y1, z1, x2, y2, z2, 0, 3, 0, 0, 4, 2)) + ((-1int) * mono6(x1, y1, z1, x2, y2, z2, 0, 3, 0, 0, 6, 0)))))) + (((((-189int) * mono6(x1, y1, z1, x2, y2, z2, 0, 3, 0, 6, 0, 0)) + (((-83349int) * mono6(x1, y1, z1, x2, y2, z2, 1, 0, 2, 2, 1, 3)) + ((-3969int) * mono6(x1, y1, z1, x2, y2, z2, 1, 0, 2, 2, 3, 1)))) + (((11907int * mono6(x1, y1, z1, x2, y2, z2, 1, 0, 2, 5, 1, 0)) + (83349int * mono6(x1, y1, z1, x2, y2, z2, 1, 1, 1, 2, 0, 4))) + (((-189int) * mono6(x1, y1, z1, x2, y2, z2, 1, 1, 1, 2, 4, 0)) + (23814int * mono6(x1, y1, z1, x2, y2, z2, 1, 1, 1, 5, 0, 1))))) + ((((3969int * mono6(x1, y1, z1, x2, y2, z2, 1, 2, 0, 2, 1, 3)) + (189int * mono6(x1, y1, z1, x2, y2, z2, 1, 2, 0, 2, 3, 1))) + (((-567int) * mono6(x1, y1, z1, x2, y2, z2, 1, 2, 0, 5, 1, 0)) + (23814int * mono6(x1, y1, z1, x2, y2, z2, 2, 0, 1, 4, 1, 1)))) + (((11907int * mono6(x1, y1, z1, x2, y2, z2, 2, 1, 0, 4, 0, 2)) + ((-567int) * mono6(x1, y1, z1, x2, y2, z2, 2, 1, 0, 4, 2, 0))) + ((11907int * mono6(x1, y1, z1, x2, y2, z2, 3, 0, 0, 3, 1, 2)) + ((-189int) * mono6(x1, y1, z1, x2, y2, z2, 3, 0, 0, 3, 3, 0))))))) * ((((x1 * x1) * x1) + (7 * ((z1 * z1) * z1))) - ((y1 * y1) * z1))) == (((((((518616int * mono6(x1, y1, z1, x2, y2, z2, 0, 0, 6, 0, 3, 3)) + ((-583443int) * mono6(x1, y1, z1, x2, y2, z2, 0, 0, 6, 3, 1, 2))) + ((9261int * mono6(x1, y1, z1, x2, y2, z2, 0, 0, 6, 3, 3, 0)) + (777924int * mono6(x1, y1, z1, x2, y2, z2, 0, 1, 5, 0, 2, 4)))) + ((((-37044int) * mono6(x1, y1, z1, x2, y2, z2, 0, 1, 5, 0, 4, 2)) + (83349int * mono6(x1, y1, z1, x2, y2, z2, 0, 1, 5, 6, 0, 0))) + ((388962int * mono6(x1, y1, z1, x2, y2, z2, 0, 2, 4, 0, 1, 5)) + (((-111132int) * mono6(x1, y1, z1, x2, y2, z2, 0, 2, 4, 0, 3, 3)) + (882int * mono6(x1, y1, z1, x2, y2, z2, 0, 2, 4, 0, 5, 1)))))) + ((((166698int * mono6(x1, y1, z1, x2, y2, z2, 0, 2, 4, 3, 1, 2)) + ((-2646int) * mono6(x1, y1, z1, x2, y2, z2, 0, 2, 4, 3, 3, 0))) + ((64827int * mono6(x1, y1, z1, x2, y2, z2, 0, 3, 3, 0, 0, 6)) + ((-120393int) * mono6(x1, y1, z1, x2, y2, z2, 0, 3, 3, 0, 2, 4)))) + (((5733int * mono6(x1, y1, z1, x2, y2, z2, 0, 3, 3, 0, 4, 2)) + ((-7int) * mono6(x1, y1, z1, x2, y2, z2, 0, 3, 3, 0, 6, 0))) + (((-13230int) * mono6(x1, y1, z1, x2, y2, z2, 0, 3, 3, 6, 0, 0)) + (((-55566int) * mono6(x1, y1, z1, x2, y2, z2, 0, 4, 2, 0, 1, 5)) + (5292int * mono6(x1, y1, z1, x2, y2, z2, 0, 4, 2, 0, 3, 3))))))) + ((((((-126int) * mono6(x1, y1, z1, x2, y2, z2, 0, 4, 2, 0, 5, 1)) + ((-11907int) * mono6(x1, y1, z1, x2, y2, z2, 0, 4, 2, 3, 1, 2))) + ((189int * mono6(x1, y1, z1, x2, y2, z2, 0, 4, 2, 3, 3, 0)) + ((-9261int) * mono6(x1, y1, z1, x2, y2, z2, 0, 5, 1, 0, 0, 6)))) + (((1323int * mono6(x1, y1, z1, x2, y2, z2, 0, 5, 1, 0, 2, 4)) + ((-63int) * mono6(x1, y1, z1, x2, y2, z2, 0, 5, 1, 0, 4, 2))) + ((1int * mono6(x1, y1, z1, x2, y2, z2, 0, 5, 1, 0, 6, 0)) + ((189int * mono6(x1, y1, z1, x2, y2, z2, 0, 5, 1, 6, 0, 0)) + ((-583443int) * mono6(x1, y1, z1, x2, y2, z2, 1, 0, 5, 2, 1, 3)))))) + (((((-27783int) * mono6(x1, y1, z1, x2, y2, z2, 1, 0, 5, 2, 3, 1)) + (83349int * mono6(x1, y1, z1, x2, y2, z2, 1, 0, 5, 5, 1, 0))) + ((583443int * mono6(x1, y1, z1, x2, y2, z2, 1, 1, 4, 2, 0, 4)) + ((-1323int) * mono6(x1, y1, z1, x2, y2, z2, 1, 1, 4, 2, 4, 0)))) + (((166698int * mono6(x1, y1, z1, x2, y2, z2, 1, 1, 4, 5, 0, 1)) + (111132int * mono6(x1, y1, z1, x2, y2, z2, 1, 2, 3, 2, 1, 3))) + ((5292int * mono6(x1, y1, z1, x2, y2, z2, 1, 2, 3, 2, 3, 1)) + (((-15876int) * mono6(x1, y1, z1, x2, y2, z2, 1, 2, 3, 5, 1, 0)) + ((-83349int) * mono6(x1, y1, z1, x2, y2, z2, 1, 3, 2, 2, 0, 4)))))))) + ((((((189int * mono6(x1, y1, z1, x2, y2, z2, 1, 3, 2, 2, 4, 0)) + ((-23814int) * mono6(x1, y1, z1, x2, y2, z2, 1, 3, 2, 5, 0, 1))) + (((-3969int) * mono6(x1, y1, z1, x2, y2, z2, 1, 4, 1, 2, 1, 3)) + ((-189int) * mono6(x1, y1, z1, x2, y2, z2, 1, 4, 1, 2, 3, 1)))) + (((567int * mono6(x1, y1, z1, x2, y2, z2, 1, 4, 1, 5, 1, 0)) + (166698int * mono6(x1, y1, z1, x2, y2, z2, 2, 0, 4, 4, 1, 1))) + ((83349int * mono6(x1, y1, z1, x2, y2, z2, 2, 1, 3, 4, 0, 2)) + (((-3969int) * mono6(x1, y1, z1, x2, y2, z2, 2, 1, 3, 4, 2, 0)) + ((-23814int) * mono6(x1, y1, z1, x2, y2, z2, 2, 2, 2, 4, 1, 1)))))) + (((((-11907int) * mono6(x1, y1, z1, x2, y2, z2, 2, 3, 1, 4, 0, 2)) + (567int * mono6(x1, y1, z1, x2, y2, z2, 2, 3, 1, 4, 2, 0))) + ((74088int * mono6(x1, y1, z1, x2, y2, z2, 3, 0, 3, 0, 3, 3)) + (111132int * mono6(x1, y1, z1, x2, y2, z2, 3, 1, 2, 0, 2, 4)))) + ((((-5292int) * mono6(x1, y1, z1, x2, y2, z2, 3, 1, 2, 0, 4, 2)) + (11907int * mono6(x1, y1, z1, x2, y2, z2, 3, 1, 2, 6, 0, 0))) + ((55566int * mono6(x1, y1, z1, x2, y2, z2, 3, 2, 1, 0, 1, 5)) + (((-5292int) * mono6(x1, y1, z1, x2, y2, z2, 3, 2, 1, 0, 3, 3)) + (126int * mono6(x1, y1, z1, x2, y2, z2, 3, 2, 1, 0, 5, 1))))))) + (((((9261int * mono6(x1, y1, z1, x2, y2, z2, 3, 3, 0, 0, 0, 6)) + ((-1323int) * mono6(x1, y1, z1, x2, y2, z2, 3, 3, 0, 0, 2, 4))) + ((63int * mono6(x1, y1, z1, x2, y2, z2, 3, 3, 0, 0, 4, 2)) + ((-1int) * mono6(x1, y1, z1, x2, y2, z2, 3, 3, 0, 0, 6, 0)))) + ((((-189int) * mono6(x1, y1, z1, x2, y2, z2, 3, 3, 0, 6, 0, 0)) + ((-83349int) * mono6(x1, y1, z1, x2, y2, z2, 4, 0, 2, 2, 1, 3))) + (((-3969int) * mono6(x1, y1, z1, x2, y2, z2, 4, 0, 2, 2, 3, 1)) + ((11907int * mono6(x1, y1, z1, x2, y2, z2, 4, 0, 2, 5, 1, 0)) + (83349int * mono6(x1, y1, z1, x2, y2, z2, 4, 1, 1, 2, 0, 4)))))) + (((((-189int) * mono6(x1, y1, z1, x2, y2, z2, 4, 1, 1, 2, 4, 0)) + (23814int * mono6(x1, y1, z1, x2, y2, z2, 4, 1, 1, 5, 0, 1))) + ((3969int * mono6(x1, y1, z1, x2, y2, z2, 4, 2, 0, 2, 1, 3)) + ((189int * mono6(x1, y1, z1, x2, y2, z2, 4, 2, 0, 2, 3, 1)) + ((-567int) * mono6(x1, y1, z1, x2, y2, z2, 4, 2, 0, 5, 1, 0))))) + (((23814int * mono6(x1, y1, z1, x2, y2, z2, 5, 0, 1, 4, 1, 1)) + (11907int * mono6(x1, y1, z1, x2, y2, z2, 5, 1, 0, 4, 0, 2))) + (((-567int) * mono6(x1, y1, z1, x2, y2, z2, 5, 1, 0, 4, 2, 0)) + ((11907int * mono6(x1, y1, z1, x2, y2, z2, 6, 0, 0, 3, 1, 2)) + ((-189int) * mono6(x1, y1, z1, x2, y2, z2, 6, 0, 0, 3, 3, 0))))))))));
}

#[verifier::rlimit(60)]
proof fn lemma_add_curve_identity_part5(x1: int, y1: int, z1: int, x2: int, y2: int, z2: int)
    ensures
        ((((((583443int * mono6(x1, y1, z1, x2, y2, z2, 0, 0, 6, 0, 1, 2)) + ((583443int * mono6(x1, y1, z1, x2, y2, z2, 0, 1, 5, 0, 0, 3)) + ((-27783int) * mono6(x1, y1, z1, x2, y2, z2, 0, 1, 5, 0, 2, 1)))) + (((-83349int) * mono6(x1, y1, z1, x2, y2, z2, 0, 1, 5, 3, 0, 0)) + (((-55566int) * mono6(x1, y1, z1, x2, y2, z2, 0, 2, 4, 0, 1, 2)) + (1323int * mono6(x1, y1, z1, x2, y2, z2, 0, 2, 4, 0, 3, 0))))) + ((((-18522int) * mono6(x1, y1, z1, x2, y2, z2, 0, 3, 3, 0, 0, 3)) + ((7938int * mono6(x1, y1, z1, x2, y2, z2, 0, 3, 3, 0, 2, 1)) + (13230int * mono6(x1, y1, z1, x2, y2, z2, 0, 3, 3, 3, 0, 0)))) + (((6615int * mono6(x1, y1, z1, x2, y2, z2, 0, 4, 2, 0, 1, 2)) + ((-126int) * mono6(x1, y1, z1, x2, y2, z2, 0, 4, 2, 0, 3, 0))) + ((1323int * mono6(x1, y1, z1, x2, y2, z2, 0, 5, 1, 0, 0, 3)) + ((-63int) * mono6(x1, y1, z1, x2, y2, z2, 0, 5, 1, 0, 2, 1)))))) + (((((-189int) * mono6(x1, y1, z1, x2, y2, z2, 0, 5, 1, 3, 0, 0)) + (((-1int) * mono6(x1, y1, z1, x2, y2, z2, 0, 6, 0, 0, 3, 0)) + ((-83349int) * mono6(x1, y1, z1, x2, y2, z2, 1, 0, 5, 2, 1, 0)))) + ((((-166698int) * mono6(x1, y1, z1, x2, y2, z2, 1, 1, 4, 2, 0, 1)) + (15876int * mono6(x1, y1, z1, x2, y2, z2, 1, 2, 3, 2, 1, 0))) + ((23814int * mono6(x1, y1, z1, x2, y2, z2, 1, 3, 2, 2, 0, 1)) + ((-567int) * mono6(x1, y1, z1, x2, y2, z2, 1, 4, 1, 2, 1, 0))))) + ((((-83349int) * mono6(x1, y1, z1, x2, y2, z2, 2, 0, 4, 1, 1, 1)) + (((-166698int) * mono6(x1, y1, z1, x2, y2, z2, 2, 1, 3, 1, 0, 2)) + (7938int * mono6(x1, y1, z1, x2, y2, z2, 2, 1, 3, 1, 2, 0)))) + (((23814int * mono6(x1, y1, z1, x2, y2, z2, 2, 2, 2, 1, 1, 1)) + (7938int * mono6(x1, y1, z1, x2, y2, z2, 2, 3, 1, 1, 0, 2))) + (((-378int) * mono6(x1, y1, z1, x2, y2, z2, 2, 3, 1, 1, 2, 0)) + ((-189int) * mono6(x1, y1, z1, x2, y2, z2, 2, 4, 0, 1, 1, 1))))))) * ((((x2 * x2) * x2) + (7 * ((z2 * z2) * z2))) - ((y2 * y2) * z2))) == (((((((4084101int * mono6(x1, y1, z1, x2, y2, z2, 0, 0, 6, 0, 1, 5)) + ((-583443int) * mono6(x1, y1, z1, x2, y2, z2, 0, 0, 6, 0, 3, 3))) + ((583443int * mono6(x1, y1, z1, x2, y2, z2, 0, 0, 6, 3, 1, 2)) + (4084101int * mono6(x1, y1, z1, x2, y2, z2, 0, 1, 5, 0, 0, 6)))) + ((((-777924int) * mono6(x1, y1, z1, x2, y2, z2, 0, 1, 5, 0, 2, 4)) + (27783int * mono6(x1, y1, z1, x2, y2, z2, 0, 1, 5, 0, 4, 2))) + ((55566int * mono6(x1, y1, z1, x2, y2, z2, 0, 1, 5, 3, 2, 1)) + ((-83349int) * mono6(x1, y1, z1, x2, y2, z2, 0, 1, 5, 6, 0, 0))))) + (((((-388962int) * mono6(x1, y1, z1, x2, y2, z2, 0, 2, 4, 0, 1, 5)) + (64827int * mono6(x1, y1, z1, x2, y2, z2, 0, 2, 4, 0, 3, 3))) + (((-1323int) * mono6(x1, y1, z1, x2, y2, z2, 0, 2, 4, 0, 5, 1)) + ((-55566int) * mono6(x1, y1, z1, x2, y2, z2, 0, 2, 4, 3, 1, 2)))) + (((1323int * mono6(x1, y1, z1, x2, y2, z2, 0, 2, 4, 3, 3, 0)) + ((-129654int) * mono6(x1, y1, z1, x2, y2, z2, 0, 3, 3, 0, 0, 6))) + ((74088int * mono6(x1, y1, z1, x2, y2, z2, 0, 3, 3, 0, 2, 4)) + ((-7938int) * mono6(x1, y1, z1, x2, y2, z2, 0, 3, 3, 0, 4, 2)))))) + (((((74088int * mono6(x1, y1, z1, x2, y2, z2, 0, 3, 3, 3, 0, 3)) + ((-5292int) * mono6(x1, y1, z1, x2, y2, z2, 0, 3, 3, 3, 2, 1))) + ((13230int * mono6(x1, y1, z1, x2, y2, z2, 0, 3, 3, 6, 0, 0)) + (46305int * mono6(x1, y1, z1, x2, y2, z2, 0, 4, 2, 0, 1, 5)))) + ((((-7497int) * mono6(x1, y1, z1, x2, y2, z2, 0, 4, 2, 0, 3, 3)) + (126int * mono6(x1, y1, z1, x2, y2, z2, 0, 4, 2, 0, 5, 1))) + ((6615int * mono6(x1, y1, z1, x2, y2, z2, 0, 4, 2, 3, 1, 2)) + ((-126int) * mono6(x1, y1, z1, x2, y2, z2, 0, 4, 2, 3, 3, 0))))) + ((((9261int * mono6(x1, y1, z1, x2, y2, z2, 0, 5, 1, 0, 0, 6)) + ((-1764int) * mono6(x1, y1, z1, x2, y2, z2, 0, 5, 1, 0, 2, 4))) + ((63int * mono6(x1, y1, z1, x2, y2, z2, 0, 5, 1, 0, 4, 2)) + (126int * mono6(x1, y1, z1, x2, y2, z2, 0, 5, 1, 3, 2, 1)))) + ((((-189int) * mono6(x1, y1, z1, x2, y2, z2, 0, 5, 1, 6, 0, 0)) + ((-7int) * mono6(x1, y1, z1, x2, y2, z2, 0, 6, 0, 0, 3, 3))) + ((1int * mono6(x1, y1, z1, x2, y2, z2, 0, 6, 0, 0, 5, 1)) + (((-1int) * mono6(x1, y1, z1, x2, y2, z2, 0, 6, 0, 3, 3, 0)) + ((-583443int) * mono6(x1, y1, z1, x2, y2, z2, 1, 0, 5, 2, 1, 3)))))))) + ((((((83349int * mono6(x1, y1, z1, x2, y2, z2, 1, 0, 5, 2, 3, 1)) + ((-83349int) * mono6(x1, y1, z1, x2, y2, z2, 1, 0, 5, 5, 1, 0))) + (((-1166886int) * mono6(x1, y1, z1, x2, y2, z2, 1, 1, 4, 2, 0, 4)) + (166698int * mono6(x1, y1, z1, x2, y2, z2, 1, 1, 4, 2, 2, 2)))) + ((((-166698int) * mono6(x1, y1, z1, x2, y2, z2, 1, 1, 4, 5, 0, 1)) + (111132int * mono6(x1, y1, z1, x2, y2, z2, 1, 2, 3, 2, 1, 3))) + (((-15876int) * mono6(x1, y1, z1, x2, y2, z2, 1, 2, 3, 2, 3, 1)) + (15876int * mono6(x1, y1, z1, x2, y2, z2, 1, 2, 3, 5, 1, 0))))) + ((((166698int * mono6(x1, y1, z1, x2, y2, z2, 1, 3, 2, 2, 0, 4)) + ((-23814int) * mono6(x1, y1, z1, x2, y2, z2, 1, 3, 2, 2, 2, 2))) + ((23814int * mono6(x1, y1, z1, x2, y2, z2, 1, 3, 2, 5, 0, 1)) + ((-3969int) * mono6(x1, y1, z1, x2, y2, z2, 1, 4, 1, 2, 1, 3)))) + (((567int * mono6(x1, y1, z1, x2, y2, z2, 1, 4, 1, 2, 3, 1)) + ((-567int) * mono6(x1, y1, z1, x2, y2, z2, 1, 4, 1, 5, 1, 0))) + (((-583443int) * mono6(x1, y1, z1, x2, y2, z2, 2, 0, 4, 1, 1, 4)) + (83349int * mono6(x1, y1, z1, x2, y2, z2, 2, 0, 4, 1, 3, 2)))))) + ((((((-83349int) * mono6(x1, y1, z1, x2, y2, z2, 2, 0, 4, 4, 1, 1)) + ((-1166886int) * mono6(x1, y1, z1, x2, y2, z2, 2, 1, 3, 1, 0, 5))) + ((222264int * mono6(x1, y1, z1, x2, y2, z2, 2, 1, 3, 1, 2, 3)) + ((-7938int) * mono6(x1, y1, z1, x2, y2, z2, 2, 1, 3, 1, 4, 1)))) + ((((-166698int) * mono6(x1, y1, z1, x2, y2, z2, 2, 1, 3, 4, 0, 2)) + (7938int * mono6(x1, y1, z1, x2, y2, z2, 2, 1, 3, 4, 2, 0))) + ((166698int * mono6(x1, y1, z1, x2, y2, z2, 2, 2, 2, 1, 1, 4)) + ((-23814int) * mono6(x1, y1, z1, x2, y2, z2, 2, 2, 2, 1, 3, 2))))) + ((((23814int * mono6(x1, y1, z1, x2, y2, z2, 2, 2, 2, 4, 1, 1)) + (55566int * mono6(x1, y1, z1, x2, y2, z2, 2, 3, 1, 1, 0, 5))) + (((-10584int) * mono6(x1, y1, z1, x2, y2, z2, 2, 3, 1, 1, 2, 3)) + (378int * mono6(x1, y1, z1, x2, y2, z2, 2, 3, 1, 1, 4, 1)))) + (((7938int * mono6(x1, y1, z1, x2, y2, z2, 2, 3, 1, 4, 0, 2)) + ((-378int) * mono6(x1, y1, z1, x2, y2, z2, 2, 3, 1, 4, 2, 0))) + (((-1323int) * mono6(x1, y1, z1, x2, y2, z2, 2, 4, 0, 1, 1, 4)) + ((189int * mono6(x1, y1, z1, x2, y2, z2, 2, 4, 0, 1, 3, 2)) + ((-189int) * mono6(x1, y1, z1, x2, y2, z2, 2, 4, 0, 4, 1, 1))))))))),
{
    lemma_mono6_vars(x1, y1, z1, x2, y2, z2);
    assert(x2 == (1int * mono6(x1, y1, z1, x2, y2, z2, 0, 0, 0, 1, 0, 0)));
    assert(x2 == (1int * mono6(x1, y1, z1, x2, y2, z2, 0, 0, 0, 1, 0, 0)));
    assert((x2 * x2) == (1int * mono6(x1, y1, z1, x2, y2, z2, 0, 0, 0, 1, 0, 0)) * (1int * mono6(x1, y1, z1, x2, y2, z2, 0, 0, 0, 1, 0, 0)));
    lemma_coefficient_product(1int, mono6(x1, y1, z1, x2, y2, z2, 0, 0, 0, 1, 0, 0), 1int, mono6(x1, y1, z1, x2, y2, z2, 0, 0, 0, 1, 0, 0));
    lemma_mono6_mul(x1, y1, z1, x2, y2, z2, 0, 0, 0, 1, 0, 0, 0, 0, 0, 1, 0, 0);
    assert((x2 * x2) == (1int * mono6(x1, y1, z1, x2, y2, z2, 0, 0, 0, 2, 0, 0)));
    assert(x2 == (1int * mono6(x1, y1, z1, x2, y2, z2, 0, 0, 0, 1, 0, 0)));
    assert(((x2 * x2) * x2) == (1int * mono6(x1, y1, z1, x2, y2, z2, 0, 0, 0, 2, 0, 0)) * (1int * mono6(x1, y1, z1, x2, y2, z2, 0, 0, 0, 1, 0, 0)));
    lemma_coefficient_product(1int, mono6(x1, y1, z1, x2, y2, z2, 0, 0, 0, 2, 0, 0), 1int, mono6(x1, y1, z1, x2, y2, z2, 0, 0, 0, 1, 0, 0));
    lemma_mono6_mul(x1, y1, z1, x2, y2, z2, 0, 0, 0, 2, 0, 0, 0, 0, 0, 1, 0, 0);
    assert(((x2 * x2) * x2) == (1int * mono6(x1, y1, z1, x2, y2, z2, 0, 0, 0, 3, 0, 0)));
    assert(7 == (7int * mono6(x1, y1, z1, x2, y2, z2, 0, 0, 0, 0, 0, 0)));
    assert(z2 == (1int * mono6(x1, y1, z1, x2, y2, z2, 0, 0, 0, 0, 0, 1)));
    assert(z2 == (1int * mono6(x1, y1, z1, x2, y2, z2, 0, 0, 0, 0, 0, 1)));
    assert((z2 * z2) == (1int * mono6(x1, y1, z1, x2, y2, z2, 0, 0, 0, 0, 0, 1)) * (1int * mono6(x1, y1, z1, x2, y2, z2, 0, 0, 0, 0, 0, 1)));
    lemma_coefficient_product(1int, mono6(x1, y1, z1, x2, y2, z2, 0, 0, 0, 0, 0, 1), 1int, mono6(x1, y1, z1, x2, y2, z2, 0, 0, 0, 0, 0, 1));
    lemma_mono6_mul(x1, y1, z1, x2, y2, z2, 0, 0, 0, 0, 0, 1, 0, 0, 0, 0, 0, 1);
    assert((z2 * z2) == (1int * mono6(x1, y1, z1, x2, y2, z2, 0, 0, 0, 0, 0, 2)));
    assert(z2 == (1int * mono6(x1, y1, z1, x2, y2, z2, 0, 0, 0, 0, 0, 1)));
    assert(((z2 * z2) * z2) == (1int * mono6(x1, y1, z1, x2, y2, z2, 0, 0, 0, 0, 0, 2)) * (1int * mono6(x1, y1, z1, x2, y2, z2, 0, 0, 0, 0, 0, 1)));
    lemma_coefficient_product(1int, mono6(x1, y1, z1, x2, y2, z2, 0, 0, 0, 0, 0, 2), 1int, mono6(x1, y1, z1, x2, y2, z2, 0, 0, 0, 0, 0, 1));
    lemma_mono6_mul(x1, y1, z1, x2, y2, z2, 0, 0, 0, 0, 0, 2, 0, 0, 0, 0, 0, 1);
    assert(((z2 * z2) * z2) == (1int * mono6(x1, y1, z1, x2, y2, z2, 0, 0, 0, 0, 0, 3)));
    assert((7 * ((z2 * z2) * z2)) == (7int * mono6(x1, y1, z1, x2, y2, z2, 0, 0, 0, 0, 0, 0)) * (1int * mono6(x1, y1, z1, x2, y2, z2, 0, 0, 0, 0, 0, 3)));
    lemma_coefficient_product(7int, mono6(x1, y1, z1, x2, y2, z2, 0, 0, 0, 0, 0, 0), 1int, mono6(x1, y1, z1, x2, y2, z2, 0, 0, 0, 0, 0, 3));
    lemma_mono6_mul(x1, y1, z1, x2, y2, z2, 0, 0, 0, 0, 0, 0, 0, 0, 0, 0, 0, 3);
    assert((7 * ((z2 * z2) * z2)) == (7int * mono6(x1, y1, z1, x2, y2, z2, 0, 0, 0, 0, 0, 3)));
    assert((((x2 * x2) * x2) + (7 * ((z2 * z2) * z2))) == ((7int * mono6(x1, y1, z1, x2, y2, z2, 0, 0, 0, 0, 0, 3)) + (1int * mono6(x1, y1, z1, x2, y2, z2, 0, 0, 0, 3, 0, 0))));
    assert(y2 == (1int * mono6(x1, y1, z1, x2, y2, z2, 0, 0, 0, 0, 1, 0)));
    assert(y2 == (1int * mono6(x1, y1, z1, x2, y2, z2, 0, 0, 0, 0, 1, 0)));
    assert((y2 * y2) == (1int * mono6(x1, y1, z1, x2, y2, z2, 0, 0, 0, 0, 1, 0)) * (1int * mono6(x1, y1, z1, x2, y2, z2, 0, 0, 0, 0, 1, 0)));
    lemma_coefficient_product(1int, mono6(x1, y1, z1, x2, y2, z2, 0, 0, 0, 0, 1, 0), 1int, mono6(x1, y1, z1, x2, y2, z2, 0, 0, 0, 0, 1, 0));
    lemma_mono6_mul(x1, y1, z1, x2, y2, z2, 0, 0, 0, 0, 1, 0, 0, 0, 0, 0, 1, 0);
    assert((y2 * y2) == (1int * mono6(x1, y1, z1, x2, y2, z2, 0, 0, 0, 0, 2, 0)));
    assert(z2 == (1int * mono6(x1, y1, z1, x2, y2, z2, 0, 0, 0, 0, 0, 1)));
    assert(((y2 * y2) * z2) == (1int * mono6(x1, y1, z1, x2, y2, z2, 0, 0, 0, 0, 2, 0)) * (1int * mono6(x1, y1, z1, x2, y2, z2, 0, 0, 0, 0, 0, 1)));
    lemma_coefficient_product(1int, mono6(x1, y1, z1, x2, y2, z2, 0, 0, 0, 0, 2, 0), 1int, mono6(x1, y1, z1, x2, y2, z2, 0, 0, 0, 0, 0, 1));
    lemma_mono6_mul(x1, y1, z1, x2, y2, z2, 0, 0, 0, 0, 2, 0, 0, 0, 0, 0, 0, 1);
    assert(((y2 * y2) * z2) == (1int * mono6(x1, y1, z1, x2, y2, z2, 0, 0, 0, 0, 2, 1)));
    assert(((((x2 * x2) * x2) + (7 * ((z2 * z2) * z2))) - ((y2 * y2) * z2)) == ((7int * mono6(x1, y1, z1, x2, y2, z2, 0, 0, 0, 0, 0, 3)) + (((-1int) * mono6(x1, y1, z1, x2, y2, z2, 0, 0, 0, 0, 2, 1)) + (1int * mono6(x1, y1, z1, x2, y2, z2, 0, 0, 0, 3, 0, 0)))));
    assert(((((((583443int * mono6(x1, y1, z1, x2, y2, z2, 0, 0, 6, 0, 1, 2)) + ((583443int * mono6(x1, y1, z1, x2, y2, z2, 0, 1, 5, 0, 0, 3)) + ((-27783int) * mono6(x1, y1, z1, x2, y2, z2, 0, 1, 5, 0, 2, 1)))) + (((-83349int) * mono6(x1, y1, z1, x2, y2, z2, 0, 1, 5, 3, 0, 0)) + (((-55566int) * mono6(x1, y1, z1, x2, y2, z2, 0, 2, 4, 0, 1, 2)) + (1323int * mono6(x1, y1, z1, x2, y2, z2, 0, 2, 4, 0, 3, 0))))) + ((((-18522int) * mono6(x1, y1, z1, x2, y2, z2, 0, 3, 3, 0, 0, 3)) + ((7938int * mono6(x1, y1, z1, x2, y2, z2, 0, 3, 3, 0, 2, 1)) + (13230int * mono6(x1, y1, z1, x2, y2, z2, 0, 3, 3, 3, 0, 0)))) + (((6615int * mono6(x1, y1, z1, x2, y2, z2, 0, 4, 2, 0, 1, 2)) + ((-126int) * mono6(x1, y1, z1, x2, y2, z2, 0, 4, 2, 0, 3, 0))) + ((1323int * mono6(x1, y1, z1, x2, y2, z2, 0, 5, 1, 0, 0, 3)) + ((-63int) * mono6(x1, y1, z1, x2, y2, z2, 0, 5, 1, 0, 2, 1)))))) + (((((-189int) * mono6(x1, y1, z1, x2, y2, z2, 0, 5, 1, 3, 0, 0)) + (((-1int) * mono6(x1, y1, z1, x2, y2, z2, 0, 6, 0, 0, 3, 0)) + ((-83349int) * mono6(x1, y1, z1, x2, y2, z2, 1, 0, 5, 2, 1, 0)))) + ((((-166698int) * mono6(x1, y1, z1, x2, y2, z2, 1, 1, 4, 2, 0, 1)) + (15876int * mono6(x1, y1, z1, x2, y2, z2, 1, 2, 3, 2, 1, 0))) + ((23814int * mono6(x1, y1, z1, x2, y2, z2, 1, 3, 2, 2, 0, 1)) + ((-567int) * mono6(x1, y1, z1, x2, y2, z2, 1, 4, 1, 2, 1, 0))))) + ((((-83349int) * mono6(x1, y1, z1, x2, y2, z2, 2, 0, 4, 1, 1, 1)) + (((-166698int) * mono6(x1, y1, z1, x2, y2, z2, 2, 1, 3, 1, 0, 2)) + (7938int * mono6(x1, y1, z1, x2, y2, z2, 2, 1, 3, 1, 2, 0)))) + (((23814int * mono6(x1, y1, z1, x2, y2, z2, 2, 2, 2, 1, 1, 1)) + (7938int * mono6(x1, y1, z1, x2, y2, z2, 2, 3, 1, 1, 0, 2))) + (((-378int) * mono6(x1, y1, z1, x2, y2, z2, 2, 3, 1, 1, 2, 0)) + ((-189int) * mono6(x1, y1, z1, x2, y2, z2, 2, 4, 0, 1, 1, 1))))))) * ((((x2 * x2) * x2) + (7 * ((z2 * z2) * z2))) - ((y2 * y2) * z2))) == (((((583443int * mono6(x1, y1, z1, x2, y2, z2, 0, 0, 6, 0, 1, 2)) + ((583443int * mono6(x1, y1, z1, x2, y2, z2, 0, 1, 5, 0, 0, 3)) + ((-27783int) * mono6(x1, y1, z1, x2, y2, z2, 0, 1, 5, 0, 2, 1)))) + (((-83349int) * mono6(x1, y1, z1, x2, y2, z2, 0, 1, 5, 3, 0, 0)) + (((-55566int) * mono6(x1, y1, z1, x2, y2, z2, 0, 2, 4, 0, 1, 2)) + (1323int * mono6(x1, y1, z1, x2, y2, z2, 0, 2, 4, 0, 3, 0))))) + ((((-18522int) * mono6(x1, y1, z1, x2, y2, z2, 0, 3, 3, 0, 0, 3)) + ((7938int * mono6(x1, y1, z1, x2, y2, z2, 0, 3, 3, 0, 2, 1)) + (13230int * mono6(x1, y1, z1, x2, y2, z2, 0, 3, 3, 3, 0, 0)))) + (((6615int * mono6(x1, y1, z1, x2, y2, z2, 0, 4, 2, 0, 1, 2)) + ((-126int) * mono6(x1, y1, z1, x2, y2, z2, 0, 4, 2, 0, 3, 0))) + ((1323int * mono6(x1, y1, z1, x2, y2, z2, 0, 5, 1, 0, 0, 3)) + ((-63int) * mono6(x1, y1, z1, x2, y2, z2, 0, 5, 1, 0, 2, 1)))))) + (((((-189int) * mono6(x1, y1, z1, x2, y2, z2, 0, 5, 1, 3, 0, 0)) + (((-1int) * mono6(x1, y1, z1, x2, y2, z2, 0, 6, 0, 0, 3, 0)) + ((-83349int) * mono6(x1, y1, z1, x2, y2, z2, 1, 0, 5, 2, 1, 0)))) + ((((-166698int) * mono6(x1, y1, z1, x2, y2, z2, 1, 1, 4, 2, 0, 1)) + (15876int * mono6(x1, y1, z1, x2, y2, z2, 1, 2, 3, 2, 1, 0))) + ((23814int * mono6(x1, y1, z1, x2, y2, z2, 1, 3, 2, 2, 0, 1)) + ((-567int) * mono6(x1, y1, z1, x2, y2, z2, 1, 4, 1, 2, 1, 0))))) + ((((-83349int) * mono6(x1, y1, z1, x2, y2, z2, 2, 0, 4, 1, 1, 1)) + (((-166698int) * mono6(x1, y1, z1, x2, y2, z2, 2, 1, 3, 1, 0, 2)) + (7938int * mono6(x1, y1, z1, x2, y2, z2, 2, 1, 3, 1, 2, 0)))) + (((23814int * mono6(x1, y1, z1, x2, y2, z2, 2, 2, 2, 1, 1, 1)) + (7938int * mono6(x1, y1, z1, x2, y2, z2, 2, 3, 1, 1, 0, 2))) + (((-378int) * mono6(x1, y1, z1, x2, y2, z2, 2, 3, 1, 1, 2, 0)) + ((-189int) * mono6(x1, y1, z1, x2, y2, z2, 2, 4, 0, 1, 1, 1))))))) * ((7int * mono6(x1, y1, z1, x2, y2, z2, 0, 0, 0, 0, 0, 3)) + (((-1int) * mono6(x1, y1, z1, x2, y2, z2, 0, 0, 0, 0, 2, 1)) + (1int * mono6(x1, y1, z1, x2, y2, z2, 0, 0, 0, 3, 0, 0)))));
    lemma_mul_is_distributive_add_other_way(((7int * mono6(x1, y1, z1, x2, y2, z2, 0, 0, 0, 0, 0, 3)) + (((-1int) * mono6(x1, y1, z1, x2, y2, z2, 0, 0, 0, 0, 2, 1)) + (1int * mono6(x1, y1, z1, x2, y2, z2, 0, 0, 0, 3, 0, 0)))), ((((583443int * mono6(x1, y1, z1, x2, y2, z2, 0, 0, 6, 0, 1, 2)) + ((583443int * mono6(x1, y1, z1, x2, y2, z2, 0, 1, 5, 0, 0, 3)) + ((-27783int) * mono6(x1, y1, z1, x2, y2, z2, 0, 1, 5, 0, 2, 1)))) + (((-83349int) * mono6(x1, y1, z1, x2, y2, z2, 0, 1, 5, 3, 0, 0)) + (((-55566int) * mono6(x1, y1, z1, x2, y2, z2, 0, 2, 4, 0, 1, 2)) + (1323int * mono6(x1, y1, z1, x2, y2, z2, 0, 2, 4, 0, 3, 0))))) + ((((-18522int) * mono6(x1, y1, z1, x2, y2, z2, 0, 3, 3, 0, 0, 3)) + ((7938int * mono6(x1, y1, z1, x2, y2, z2, 0, 3, 3, 0, 2, 1)) + (13230int * mono6(x1, y1, z1, x2, y2, z2, 0, 3, 3, 3, 0, 0)))) + (((6615int * mono6(x1, y1, z1, x2, y2, z2, 0, 4, 2, 0, 1, 2)) + ((-126int) * mono6(x1, y1, z1, x2, y2, z2, 0, 4, 2, 0, 3, 0))) + ((1323int * mono6(x1, y1, z1, x2, y2, z2, 0, 5, 1, 0, 0, 3)) + ((-63int) * mono6(x1, y1, z1, x2, y2, z2, 0, 5, 1, 0, 2, 1)))))), (((((-189int) * mono6(x1, y1, z1, x2, y2, z2, 0, 5, 1, 3, 0, 0)) + (((-1int) * mono6(x1, y1, z1, x2, y2, z2, 0, 6, 0, 0, 3, 0)) + ((-83349int) * mono6(x1, y1, z1, x2, y2, z2, 1, 0, 5, 2, 1, 0)))) + ((((-166698int) * mono6(x1, y1, z1, x2, y2, z2, 1, 1, 4, 2, 0, 1)) + (15876int * mono6(x1, y1, z1, x2, y2, z2, 1, 2, 3, 2, 1, 0))) + ((23814int * mono6(x1, y1, z1, x2, y2, z2, 1, 3, 2, 2, 0, 1)) + ((-567int) * mono6(x1, y1, z1, x2, y2, z2, 1, 4, 1, 2, 1, 0))))) + ((((-83349int) * mono6(x1, y1, z1, x2, y2, z2, 2, 0, 4, 1, 1, 1)) + (((-166698int) * mono6(x1, y1, z1, x2, y2, z2, 2, 1, 3, 1, 0, 2)) + (7938int * mono6(x1, y1, z1, x2, y2, z2, 2, 1, 3, 1, 2, 0)))) + (((23814int * mono6(x1, y1, z1, x2, y2, z2, 2, 2, 2, 1, 1, 1)) + (7938int * mono6(x1, y1, z1, x2, y2, z2, 2, 3, 1, 1, 0, 2))) + (((-378int) * mono6(x1, y1, z1, x2, y2, z2, 2, 3, 1, 1, 2, 0)) + ((-189int) * mono6(x1, y1, z1, x2, y2, z2, 2, 4, 0, 1, 1, 1)))))));
    lemma_mul_is_distributive_add_other_way(((7int * mono6(x1, y1, z1, x2, y2, z2, 0, 0, 0, 0, 0, 3)) + (((-1int) * mono6(x1, y1, z1, x2, y2, z2, 0, 0, 0, 0, 2, 1)) + (1int * mono6(x1, y1, z1, x2, y2, z2, 0, 0, 0, 3, 0, 0)))), (((583443int * mono6(x1, y1, z1, x2, y2, z2, 0, 0, 6, 0, 1, 2)) + ((583443int * mono6(x1, y1, z1, x2, y2, z2, 0, 1, 5, 0, 0, 3)) + ((-27783int) * mono6(x1, y1, z1, x2, y2, z2, 0, 1, 5, 0, 2, 1)))) + (((-83349int) * mono6(x1, y1, z1, x2, y2, z2, 0, 1, 5, 3, 0, 0)) + (((-55566int) * mono6(x1, y1, z1, x2, y2, z2, 0, 2, 4, 0, 1, 2)) + (1323int * mono6(x1, y1, z1, x2, y2, z2, 0, 2, 4, 0, 3, 0))))), ((((-18522int) * mono6(x1, y1, z1, x2, y2, z2, 0, 3, 3, 0, 0, 3)) + ((7938int * mono6(x1, y1, z1, x2, y2, z2, 0, 3, 3, 0, 2, 1)) + (13230int * mono6(x1, y1, z1, x2, y2, z2, 0, 3, 3, 3, 0, 0)))) + (((6615int * mono6(x1, y1, z1, x2, y2, z2, 0, 4, 2, 0, 1, 2)) + ((-126int) * mono6(x1, y1, z1, x2, y2, z2, 0, 4, 2, 0, 3, 0))) + ((1323int * mono6(x1, y1, z1, x2, y2, z2, 0, 5, 1, 0, 0, 3)) + ((-63int) * mono6(x1, y1, z1, x2, y2, z2, 0, 5, 1, 0, 2, 1))))));
    lemma_mul_is_distributive_add_other_way(((7int * mono6(x1, y1, z1, x2, y2, z2, 0, 0, 0, 0, 0, 3)) + (((-1int) * mono6(x1, y1, z1, x2, y2, z2, 0, 0, 0, 0, 2, 1)) + (1int * mono6(x1, y1, z1, x2, y2, z2, 0, 0, 0, 3, 0, 0)))), ((583443int * mono6(x1, y1, z1, x2, y2, z2, 0, 0, 6, 0, 1, 2)) + ((583443int * mono6(x1, y1, z1, x2, y2, z2, 0, 1, 5, 0, 0, 3)) + ((-27783int) * mono6(x1, y1, z1, x2, y2, z2, 0, 1, 5, 0, 2, 1)))), (((-83349int) * mono6(x1, y1, z1, x2, y2, z2, 0, 1, 5, 3, 0, 0)) + (((-55566int) * mono6(x1, y1, z1, x2, y2, z2, 0, 2, 4, 0, 1, 2)) + (1323int * mono6(x1, y1, z1, x2, y2, z2, 0, 2, 4, 0, 3, 0)))));
    lemma_mul_is_distributive_add_other_way(((7int * mono6(x1, y1, z1, x2, y2, z2, 0, 0, 0, 0, 0, 3)) + (((-1int) * mono6(x1, y1, z1, x2, y2, z2, 0, 0, 0, 0, 2, 1)) + (1int * mono6(x1, y1, z1, x2, y2, z2, 0, 0, 0, 3, 0, 0)))), (583443int * mono6(x1, y1, z1, x2, y2, z2, 0, 0, 6, 0, 1, 2)), ((583443int * mono6(x1, y1, z1, x2, y2, z2, 0, 1, 5, 0, 0, 3)) + ((-27783int) * mono6(x1, y1, z1, x2, y2, z2, 0, 1, 5, 0, 2, 1))));
    lemma_mul_is_distributive_add_other_way(((7int * mono6(x1, y1, z1, x2, y2, z2, 0, 0, 0, 0, 0, 3)) + (((-1int) * mono6(x1, y1, z1, x2, y2, z2, 0, 0, 0, 0, 2, 1)) + (1int * mono6(x1, y1, z1, x2, y2, z2, 0, 0, 0, 3, 0, 0)))), (583443int * mono6(x1, y1, z1, x2, y2, z2, 0, 1, 5, 0, 0, 3)), ((-27783int) * mono6(x1, y1, z1, x2, y2, z2, 0, 1, 5, 0, 2, 1)));
    lemma_mul_is_distributive_add_other_way(((7int * mono6(x1, y1, z1, x2, y2, z2, 0, 0, 0, 0, 0, 3)) + (((-1int) * mono6(x1, y1, z1, x2, y2, z2, 0, 0, 0, 0, 2, 1)) + (1int * mono6(x1, y1, z1, x2, y2, z2, 0, 0, 0, 3, 0, 0)))), ((-83349int) * mono6(x1, y1, z1, x2, y2, z2, 0, 1, 5, 3, 0, 0)), (((-55566int) * mono6(x1, y1, z1, x2, y2, z2, 0, 2, 4, 0, 1, 2)) + (1323int * mono6(x1, y1, z1, x2, y2, z2, 0, 2, 4, 0, 3, 0))));
    lemma_mul_is_distributive_add_other_way(((7int * mono6(x1, y1, z1, x2, y2, z2, 0, 0, 0, 0, 0, 3)) + (((-1int) * mono6(x1, y1, z1, x2, y2, z2, 0, 0, 0, 0, 2, 1)) + (1int * mono6(x1, y1, z1, x2, y2, z2, 0, 0, 0, 3, 0, 0)))), ((-55566int) * mono6(x1, y1, z1, x2, y2, z2, 0, 2, 4, 0, 1, 2)), (1323int * mono6(x1, y1, z1, x2, y2, z2, 0, 2, 4, 0, 3, 0)));
    lemma_mul_is_distributive_add_other_way(((7int * mono6(x1, y1, z1, x2, y2, z2, 0, 0, 0, 0, 0, 3)) + (((-1int) * mono6(x1, y1, z1, x2, y2, z2, 0, 0, 0, 0, 2, 1)) + (1int * mono6(x1, y1, z1, x2, y2, z2, 0, 0, 0, 3, 0, 0)))), (((-18522int) * mono6(x1, y1, z1, x2, y2, z2, 0, 3, 3, 0, 0, 3)) + ((7938int * mono6(x1, y1, z1, x2, y2, z2, 0, 3, 3, 0, 2, 1)) + (13230int * mono6(x1, y1, z1, x2, y2, z2, 0, 3, 3, 3, 0, 0)))), (((6615int * mono6(x1, y1, z1, x2, y2, z2, 0, 4, 2, 0, 1, 2)) + ((-126int) * mono6(x1, y1, z1, x2, y2, z2, 0, 4, 2, 0, 3, 0))) + ((1323int * mono6(x1, y1, z1, x2, y2, z2, 0, 5, 1, 0, 0, 3)) + ((-63int) * mono6(x1, y1, z1, x2, y2, z2, 0, 5, 1, 0, 2, 1)))));
    lemma_mul_is_distributive_add_other_way(((7int * mono6(x1, y1, z1, x2, y2, z2, 0, 0, 0, 0, 0, 3)) + (((-1int) * mono6(x1, y1, z1, x2, y2, z2, 0, 0, 0, 0, 2, 1)) + (1int * mono6(x1, y1, z1, x2, y2, z2, 0, 0, 0, 3, 0, 0)))), ((-18522int) * mono6(x1, y1, z1, x2, y2, z2, 0, 3, 3, 0, 0, 3)), ((7938int * mono6(x1, y1, z1, x2, y2, z2, 0, 3, 3, 0, 2, 1)) + (13230int * mono6(x1, y1, z1, x2, y2, z2, 0, 3, 3, 3, 0, 0))));
    lemma_mul_is_distributive_add_other_way(((7int * mono6(x1, y1, z1, x2, y2, z2, 0, 0, 0, 0, 0, 3)) + (((-1int) * mono6(x1, y1, z1, x2, y2, z2, 0, 0, 0, 0, 2, 1)) + (1int * mono6(x1, y1, z1, x2, y2, z2, 0, 0, 0, 3, 0, 0)))), (7938int * mono6(x1, y1, z1, x2, y2, z2, 0, 3, 3, 0, 2, 1)), (13230int * mono6(x1, y1, z1, x2, y2, z2, 0, 3, 3, 3, 0, 0)));
    lemma_mul_is_distributive_add_other_way(((7int * mono6(x1, y1, z1, x2, y2, z2, 0, 0, 0, 0, 0, 3)) + (((-1int) * mono6(x1, y1, z1, x2, y2, z2, 0, 0, 0, 0, 2, 1)) + (1int * mono6(x1, y1, z1, x2, y2, z2, 0, 0, 0, 3, 0, 0)))), ((6615int * mono6(x1, y1, z1, x2, y2, z2, 0, 4, 2, 0, 1, 2)) + ((-126int) * mono6(x1, y1, z1, x2, y2, z2, 0, 4, 2, 0, 3, 0))), ((1323int * mono6(x1, y1, z1, x2, y2, z2, 0, 5, 1, 0, 0, 3)) + ((-63int) * mono6(x1, y1, z1, x2, y2, z2, 0, 5, 1, 0, 2, 1))));
    lemma_mul_is_distributive_add_other_way(((7int * mono6(x1, y1, z1, x2, y2, z2, 0, 0, 0, 0, 0, 3)) + (((-1int) * mono6(x1, y1, z1, x2, y2, z2, 0, 0, 0, 0, 2, 1)) + (1int * mono6(x1, y1, z1, x2, y2, z2, 0, 0, 0, 3, 0, 0)))), (6615int * mono6(x1, y1, z1, x2, y2, z2, 0, 4, 2, 0, 1, 2)), ((-126int) * mono6(x1, y1, z1, x2, y2, z2, 0, 4, 2, 0, 3, 0)));
    lemma_mul_is_distributive_add_other_way(((7int * mono6(x1, y1, z1, x2, y2, z2, 0, 0, 0, 0, 0, 3)) + (((-1int) * mono6(x1, y1, z1, x2, y2, z2, 0, 0, 0, 0, 2, 1)) + (1int * mono6(x1, y1, z1, x2, y2, z2, 0, 0, 0, 3, 0, 0)))), (1323int * mono6(x1, y1, z1, x2, y2, z2, 0, 5, 1, 0, 0, 3)), ((-63int) * mono6(x1, y1, z1, x2, y2, z2, 0, 5, 1, 0, 2, 1)));
    lemma_mul_is_distributive_add_other_way(((7int * mono6(x1, y1, z1, x2, y2, z2, 0, 0, 0, 0, 0, 3)) + (((-1int) * mono6(x1, y1, z1, x2, y2, z2, 0, 0, 0, 0, 2, 1)) + (1int * mono6(x1, y1, z1, x2, y2, z2, 0, 0, 0, 3, 0, 0)))), ((((-189int) * mono6(x1, y1, z1, x2, y2, z2, 0, 5, 1, 3, 0, 0)) + (((-1int) * mono6(x1, y1, z1, x2, y2, z2, 0, 6, 0, 0, 3, 0)) + ((-83349int) * mono6(x1, y1, z1, x2, y2, z2, 1, 0, 5, 2, 1, 0)))) + ((((-166698int) * mono6(x1, y1, z1, x2, y2, z2, 1, 1, 4, 2, 0, 1)) + (15876int * mono6(x1, y1, z1, x2, y2, z2, 1, 2, 3, 2, 1, 0))) + ((23814int * mono6(x1, y1, z1, x2, y2, z2, 1, 3, 2, 2, 0, 1)) + ((-567int) * mono6(x1, y1, z1, x2, y2, z2, 1, 4, 1, 2, 1, 0))))), ((((-83349int) * mono6(x1, y1, z1, x2, y2, z2, 2, 0, 4, 1, 1, 1)) + (((-166698int) * mono6(x1, y1, z1, x2, y2, z2, 2, 1, 3, 1, 0, 2)) + (7938int * mono6(x1, y1, z1, x2, y2, z2, 2, 1, 3, 1, 2, 0)))) + (((23814int * mono6(x1, y1, z1, x2, y2, z2, 2, 2, 2, 1, 1, 1)) + (7938int * mono6(x1, y1, z1, x2, y2, z2, 2, 3, 1, 1, 0, 2))) + (((-378int) * mono6(x1, y1, z1, x2, y2, z2, 2, 3, 1, 1, 2, 0)) + ((-189int) * mono6(x1, y1, z1, x2, y2, z2, 2, 4, 0, 1, 1, 1))))));
    lemma_mul_is_distributive_add_other_way(((7int * mono6(x1, y1, z1, x2, y2, z2, 0, 0, 0, 0, 0, 3)) + (((-1int) * mono6(x1, y1, z1, x2, y2, z2, 0, 0, 0, 0, 2, 1)) + (1int * mono6(x1, y1, z1, x2, y2, z2, 0, 0, 0, 3, 0, 0)))), (((-189int) * mono6(x1, y1, z1, x2, y2, z2, 0, 5, 1, 3, 0, 0)) + (((-1int) * mono6(x1, y1, z1, x2, y2, z2, 0, 6, 0, 0, 3, 0)) + ((-83349int) * mono6(x1, y1, z1, x2, y2, z2, 1, 0, 5, 2, 1, 0)))), ((((-166698int) * mono6(x1, y1, z1, x2, y2, z2, 1, 1, 4, 2, 0, 1)) + (15876int * mono6(x1, y1, z1, x2, y2, z2, 1, 2, 3, 2, 1, 0))) + ((23814int * mono6(x1, y1, z1, x2, y2, z2, 1, 3, 2, 2, 0, 1)) + ((-567int) * mono6(x1, y1, z1, x2, y2, z2, 1, 4, 1, 2, 1, 0)))));
    lemma_mul_is_distributive_add_other_way(((7int * mono6(x1, y1, z1, x2, y2, z2, 0, 0, 0, 0, 0, 3)) + (((-1int) * mono6(x1, y1, z1, x2, y2, z2, 0, 0, 0, 0, 2, 1)) + (1int * mono6(x1, y1, z1, x2, y2, z2, 0, 0, 0, 3, 0, 0)))), ((-189int) * mono6(x1, y1, z1, x2, y2, z2, 0, 5, 1, 3, 0, 0)), (((-1int) * mono6(x1, y1, z1, x2, y2, z2, 0, 6, 0, 0, 3, 0)) + ((-83349int) * mono6(x1, y1, z1, x2, y2, z2, 1, 0, 5, 2, 1, 0))));
    lemma_mul_is_distributive_add_other_way(((7int * mono6(x1, y1, z1, x2, y2, z2, 0, 0, 0, 0, 0, 3)) + (((-1int) * mono6(x1, y1, z1, x2, y2, z2, 0, 0, 0, 0, 2, 1)) + (1int * mono6(x1, y1, z1, x2, y2, z2, 0, 0, 0, 3, 0, 0)))), ((-1int) * mono6(x1, y1, z1, x2, y2, z2, 0, 6, 0, 0, 3, 0)), ((-83349int) * mono6(x1, y1, z1, x2, y2, z2, 1, 0, 5, 2, 1, 0)));
    lemma_mul_is_distributive_add_other_way(((7int * mono6(x1, y1, z1, x2, y2, z2, 0, 0, 0, 0, 0, 3)) + (((-1int) * mono6(x1, y1, z1, x2, y2, z2, 0, 0, 0, 0, 2, 1)) + (1int * mono6(x1, y1, z1, x2, y2, z2, 0, 0, 0, 3, 0, 0)))), (((-166698int) * mono6(x1, y1, z1, x2, y2, z2, 1, 1, 4, 2, 0, 1)) + (15876int * mono6(x1, y1, z1, x2, y2, z2, 1, 2, 3, 2, 1, 0))), ((23814int * mono6(x1, y1, z1, x2, y2, z2, 1, 3, 2, 2, 0, 1)) + ((-567int) * mono6(x1, y1, z1, x2, y2, z2, 1, 4, 1, 2, 1, 0))));
    lemma_mul_is_distributive_add_other_way(((7int * mono6(x1, y1, z1, x2, y2, z2, 0, 0, 0, 0, 0, 3)) + (((-1int) * mono6(x1, y1, z1, x2, y2, z2, 0, 0, 0, 0, 2, 1)) + (1int * mono6(x1, y1, z1, x2, y2, z2, 0, 0, 0, 3, 0, 0)))), ((-166698int) * mono6(x1, y1, z1, x2, y2, z2, 1, 1, 4, 2, 0, 1)), (15876int * mono6(x1, y1, z1, x2, y2, z2, 1, 2, 3, 2, 1, 0)));
    lemma_mul_is_distributive_add_other_way(((7int * mono6(x1, y1, z1, x2, y2, z2, 0, 0, 0, 0, 0, 3)) + (((-1int) * mono6(x1, y1, z1, x2, y2, z2, 0, 0, 0, 0, 2, 1)) + (1int * mono6(x1, y1, z1, x2, y2, z2, 0, 0, 0, 3, 0, 0)))), (23814int * mono6(x1, y1, z1, x2, y2, z2, 1, 3, 2, 2, 0, 1)), ((-567int) * mono6(x1, y1, z1, x2, y2, z2, 1, 4, 1, 2, 1, 0)));
    lemma_mul_is_distributive_add_other_way(((7int * mono6(x1, y1, z1, x2, y2, z2, 0, 0, 0, 0, 0, 3)) + (((-1int) * mono6(x1, y1, z1, x2, y2, z2, 0, 0, 0, 0, 2, 1)) + (1int * mono6(x1, y1, z1, x2, y2, z2, 0, 0, 0, 3, 0, 0)))), (((-83349int) * mono6(x1, y1, z1, x2, y2, z2, 2, 0, 4, 1, 1, 1)) + (((-166698int) * mono6(x1, y1, z1, x2, y2, z2, 2, 1, 3, 1, 0, 2)) + (7938int * mono6(x1, y1, z1, x2, y2, z2, 2, 1, 3, 1, 2, 0)))), (((23814int * mono6(x1, y1, z1, x2, y2, z2, 2, 2, 2, 1, 1, 1)) + (7938int * mono6(x1, y1, z1, x2, y2, z2, 2, 3, 1, 1, 0, 2))) + (((-378int) * mono6(x1, y1, z1, x2, y2, z2, 2, 3, 1, 1, 2, 0)) + ((-189int) * mono6(x1, y1, z1, x2, y2, z2, 2, 4, 0, 1, 1, 1)))));
    lemma_mul_is_distributive_add_other_way(((7int * mono6(x1, y1, z1, x2, y2, z2, 0, 0, 0, 0, 0, 3)) + (((-1int) * mono6(x1, y1, z1, x2, y2, z2, 0, 0, 0, 0, 2, 1)) + (1int * mono6(x1, y1, z1, x2, y2, z2, 0, 0, 0, 3, 0, 0)))), ((-83349int) * mono6(x1, y1, z1, x2, y2, z2, 2, 0, 4, 1, 1, 1)), (((-166698int) * mono6(x1, y1, z1, x2, y2, z2, 2, 1, 3, 1, 0, 2)) + (7938int * mono6(x1, y1, z1, x2, y2, z2, 2, 1, 3, 1, 2, 0))));
    lemma_mul_is_distributive_add_other_way(((7int * mono6(x1, y1, z1, x2, y2, z2, 0, 0, 0, 0, 0, 3)) + (((-1int) * mono6(x1, y1, z1, x2, y2, z2, 0, 0, 0, 0, 2, 1)) + (1int * mono6(x1, y1, z1, x2, y2, z2, 0, 0, 0, 3, 0, 0)))), ((-166698int) * mono6(x1, y1, z1, x2, y2, z2, 2, 1, 3, 1, 0, 2)), (7938int * mono6(x1, y1, z1, x2, y2, z2, 2, 1, 3, 1, 2, 0)));
    lemma_mul_is_distributive_add_other_way(((7int * mono6(x1, y1, z1, x2, y2, z2, 0, 0, 0, 0, 0, 3)) + (((-1int) * mono6(x1, y1, z1, x2, y2, z2, 0, 0, 0, 0, 2, 1)) + (1int * mono6(x1, y1, z1, x2, y2, z2, 0, 0, 0, 3, 0, 0)))), ((23814int * mono6(x1, y1, z1, x2, y2, z2, 2, 2, 2, 1, 1, 1)) + (7938int * mono6(x1, y1, z1, x2, y2, z2, 2, 3, 1, 1, 0, 2))), (((-378int) * mono6(x1, y1, z1, x2, y2, z2, 2, 3, 1, 1, 2, 0)) + ((-189int) * mono6(x1, y1, z1, x2, y2, z2, 2, 4, 0, 1, 1, 1))));
    lemma_mul_is_distributive_add_other_way(((7int * mono6(x1, y1, z1, x2, y2, z2, 0, 0, 0, 0, 0, 3)) + (((-1int) * mono6(x1, y1, z1, x2, y2, z2, 0, 0, 0, 0, 2, 1)) + (1int * mono6(x1, y1, z1, x2, y2, z2, 0, 0, 0, 3, 0, 0)))), (23814int * mono6(x1, y1, z1, x2, y2, z2, 2, 2, 2, 1, 1, 1)), (7938int * mono6(x1, y1, z1, x2, y2, z2, 2, 3, 1, 1, 0, 2)));
    lemma_mul_is_distributive_add_other_way(((7int * mono6(x1, y1, z1, x2, y2, z2, 0, 0, 0, 0, 0, 3)) + (((-1int) * mono6(x1, y1, z1, x2, y2, z2, 0, 0, 0, 0, 2, 1)) + (1int * mono6(x1, y1, z1, x2, y2, z2, 0, 0, 0, 3, 0, 0)))), ((-378int) * mono6(x1, y1, z1, x2, y2, z2, 2, 3, 1, 1, 2, 0)), ((-189int) * mono6(x1, y1, z1, x2, y2, z2, 2, 4, 0, 1, 1, 1)));
    lemma_mul_is_distributive_add((583443int * mono6(x1, y1, z1, x2, y2, z2, 0, 0, 6, 0, 1, 2)), (7int * mono6(x1, y1, z1, x2, y2, z2, 0, 0, 0, 0, 0, 3)), (((-1int) * mono6(x1, y1, z1, x2, y2, z2, 0, 0, 0, 0, 2, 1)) + (1int * mono6(x1, y1, z1, x2, y2, z2, 0, 0, 0, 3, 0, 0))));
    lemma_mul_is_distributive_add((583443int * mono6(x1, y1, z1, x2, y2, z2, 0, 0, 6, 0, 1, 2)), ((-1int) * mono6(x1, y1, z1, x2, y2, z2, 0, 0, 0, 0, 2, 1)), (1int * mono6(x1, y1, z1, x2, y2, z2, 0, 0, 0, 3, 0, 0)));
    lemma_coefficient_product(583443int, mono6(x1, y1, z1, x2, y2, z2, 0, 0, 6, 0, 1, 2), 7int, mono6(x1, y1, z1, x2, y2, z2, 0, 0, 0, 0, 0, 3));
    lemma_mono6_mul(x1, y1, z1, x2, y2, z2, 0, 0, 6, 0, 1, 2, 0, 0, 0, 0, 0, 3);
    lemma_coefficient_product(583443int, mono6(x1, y1, z1, x2, y2, z2, 0, 0, 6, 0, 1, 2), (-1int), mono6(x1, y1, z1, x2, y2, z2, 0, 0, 0, 0, 2, 1));
    lemma_mono6_mul(x1, y1, z1, x2, y2, z2, 0, 0, 6, 0, 1, 2, 0, 0, 0, 0, 2, 1);
    lemma_coefficient_product(583443int, mono6(x1, y1, z1, x2, y2, z2, 0, 0, 6, 0, 1, 2), 1int, mono6(x1, y1, z1, x2, y2, z2, 0, 0, 0, 3, 0, 0));
    lemma_mono6_mul(x1, y1, z1, x2, y2, z2, 0, 0, 6, 0, 1, 2, 0, 0, 0, 3, 0, 0);
    lemma_mul_is_distributive_add((583443int * mono6(x1, y1, z1, x2, y2, z2, 0, 1, 5, 0, 0, 3)), (7int * mono6(x1, y1, z1, x2, y2, z2, 0, 0, 0, 0, 0, 3)), (((-1int) * mono6(x1, y1, z1, x2, y2, z2, 0, 0, 0, 0, 2, 1)) + (1int * mono6(x1, y1, z1, x2, y2, z2, 0, 0, 0, 3, 0, 0))));
    lemma_mul_is_distributive_add((583443int * mono6(x1, y1, z1, x2, y2, z2, 0, 1, 5, 0, 0, 3)), ((-1int) * mono6(x1, y1, z1, x2, y2, z2, 0, 0, 0, 0, 2, 1)), (1int * mono6(x1, y1, z1, x2, y2, z2, 0, 0, 0, 3, 0, 0)));
    lemma_coefficient_product(583443int, mono6(x1, y1, z1, x2, y2, z2, 0, 1, 5, 0, 0, 3), 7int, mono6(x1, y1, z1, x2, y2, z2, 0, 0, 0, 0, 0, 3));
    lemma_mono6_mul(x1, y1, z1, x2, y2, z2, 0, 1, 5, 0, 0, 3, 0, 0, 0, 0, 0, 3);
    lemma_coefficient_product(583443int, mono6(x1, y1, z1, x2, y2, z2, 0, 1, 5, 0, 0, 3), (-1int), mono6(x1, y1, z1, x2, y2, z2, 0, 0, 0, 0, 2, 1));
    lemma_mono6_mul(x1, y1, z1, x2, y2, z2, 0, 1, 5, 0, 0, 3, 0, 0, 0, 0, 2, 1);
    lemma_coefficient_product(583443int, mono6(x1, y1, z1, x2, y2, z2, 0, 1, 5, 0, 0, 3), 1int, mono6(x1, y1, z1, x2, y2, z2, 0, 0, 0, 3, 0, 0));
    lemma_mono6_mul(x1, y1, z1, x2, y2, z2, 0, 1, 5, 0, 0, 3, 0, 0, 0, 3, 0, 0);
    lemma_mul_is_distributive_add(((-27783int) * mono6(x1, y1, z1, x2, y2, z2, 0, 1, 5, 0, 2, 1)), (7int * mono6(x1, y1, z1, x2, y2, z2, 0, 0, 0, 0, 0, 3)), (((-1int) * mono6(x1, y1, z1, x2, y2, z2, 0, 0, 0, 0, 2, 1)) + (1int * mono6(x1, y1, z1, x2, y2, z2, 0, 0, 0, 3, 0, 0))));
    lemma_mul_is_distributive_add(((-27783int) * mono6(x1, y1, z1, x2, y2, z2, 0, 1, 5, 0, 2, 1)), ((-1int) * mono6(x1, y1, z1, x2, y2, z2, 0, 0, 0, 0, 2, 1)), (1int * mono6(x1, y1, z1, x2, y2, z2, 0, 0, 0, 3, 0, 0)));
    lemma_coefficient_product((-27783int), mono6(x1, y1, z1, x2, y2, z2, 0, 1, 5, 0, 2, 1), 7int, mono6(x1, y1, z1, x2, y2, z2, 0, 0, 0, 0, 0, 3));
    lemma_mono6_mul(x1, y1, z1, x2, y2, z2, 0, 1, 5, 0, 2, 1, 0, 0, 0, 0, 0, 3);
    lemma_coefficient_product((-27783int), mono6(x1, y1, z1, x2, y2, z2, 0, 1, 5, 0, 2, 1), (-1int), mono6(x1, y1, z1, x2, y2, z2, 0, 0, 0, 0, 2, 1));
    lemma_mono6_mul(x1, y1, z1, x2, y2, z2, 0, 1, 5, 0, 2, 1, 0, 0, 0, 0, 2, 1);
    lemma_coefficient_product((-27783int), mono6(x1, y1, z1, x2, y2, z2, 0, 1, 5, 0, 2, 1), 1int, mono6(x1, y1, z1, x2, y2, z2, 0, 0, 0, 3, 0, 0));
    lemma_mono6_mul(x1, y1, z1, x2, y2, z2, 0, 1, 5, 0, 2, 1, 0, 0, 0, 3, 0, 0);
    lemma_mul_is_distributive_add(((-83349int) * mono6(x1, y1, z1, x2, y2, z2, 0, 1, 5, 3, 0, 0)), (7int * mono6(x1, y1, z1, x2, y2, z2, 0, 0, 0, 0, 0, 3)), (((-1int) * mono6(x1, y1, z1, x2, y2, z2, 0, 0, 0, 0, 2, 1)) + (1int * mono6(x1, y1, z1, x2, y2, z2, 0, 0, 0, 3, 0, 0))));
    lemma_mul_is_distributive_add(((-83349int) * mono6(x1, y1, z1, x2, y2, z2, 0, 1, 5, 3, 0, 0)), ((-1int) * mono6(x1, y1, z1, x2, y2, z2, 0, 0, 0, 0, 2, 1)), (1int * mono6(x1, y1, z1, x2, y2, z2, 0, 0, 0, 3, 0, 0)));
    lemma_coefficient_product((-83349int), mono6(x1, y1, z1, x2, y2, z2, 0, 1, 5, 3, 0, 0), 7int, mono6(x1, y1, z1, x2, y2, z2, 0, 0, 0, 0, 0, 3));
    lemma_mono6_mul(x1, y1, z1, x2, y2, z2, 0, 1, 5, 3, 0, 0, 0, 0, 0, 0, 0, 3);
    lemma_coefficient_product((-83349int), mono6(x1, y1, z1, x2, y2, z2, 0, 1, 5, 3, 0, 0), (-1int), mono6(x1, y1, z1, x2, y2, z2, 0, 0, 0, 0, 2, 1));
    lemma_mono6_mul(x1, y1, z1, x2, y2, z2, 0, 1, 5, 3, 0, 0, 0, 0, 0, 0, 2, 1);
    lemma_coefficient_product((-83349int), mono6(x1, y1, z1, x2, y2, z2, 0, 1, 5, 3, 0, 0), 1int, mono6(x1, y1, z1, x2, y2, z2, 0, 0, 0, 3, 0, 0));
    lemma_mono6_mul(x1, y1, z1, x2, y2, z2, 0, 1, 5, 3, 0, 0, 0, 0, 0, 3, 0, 0);
    lemma_mul_is_distributive_add(((-55566int) * mono6(x1, y1, z1, x2, y2, z2, 0, 2, 4, 0, 1, 2)), (7int * mono6(x1, y1, z1, x2, y2, z2, 0, 0, 0, 0, 0, 3)), (((-1int) * mono6(x1, y1, z1, x2, y2, z2, 0, 0, 0, 0, 2, 1)) + (1int * mono6(x1, y1, z1, x2, y2, z2, 0, 0, 0, 3, 0, 0))));
    lemma_mul_is_distributive_add(((-55566int) * mono6(x1, y1, z1, x2, y2, z2, 0, 2, 4, 0, 1, 2)), ((-1int) * mono6(x1, y1, z1, x2, y2, z2, 0, 0, 0, 0, 2, 1)), (1int * mono6(x1, y1, z1, x2, y2, z2, 0, 0, 0, 3, 0, 0)));
    lemma_coefficient_product((-55566int), mono6(x1, y1, z1, x2, y2, z2, 0, 2, 4, 0, 1, 2), 7int, mono6(x1, y1, z1, x2, y2, z2, 0, 0, 0, 0, 0, 3));
    lemma_mono6_mul(x1, y1, z1, x2, y2, z2, 0, 2, 4, 0, 1, 2, 0, 0, 0, 0, 0, 3);
    lemma_coefficient_product((-55566int), mono6(x1, y1, z1, x2, y2, z2, 0, 2, 4, 0, 1, 2), (-1int), mono6(x1, y1, z1, x2, y2, z2, 0, 0, 0, 0, 2, 1));
    lemma_mono6_mul(x1, y1, z1, x2, y2, z2, 0, 2, 4, 0, 1, 2, 0, 0, 0, 0, 2, 1);
    lemma_coefficient_product((-55566int), mono6(x1, y1, z1, x2, y2, z2, 0, 2, 4, 0, 1, 2), 1int, mono6(x1, y1, z1, x2, y2, z2, 0, 0, 0, 3, 0, 0));
    lemma_mono6_mul(x1, y1, z1, x2, y2, z2, 0, 2, 4, 0, 1, 2, 0, 0, 0, 3, 0, 0);
    lemma_mul_is_distributive_add((1323int * mono6(x1, y1, z1, x2, y2, z2, 0, 2, 4, 0, 3, 0)), (7int * mono6(x1, y1, z1, x2, y2, z2, 0, 0, 0, 0, 0, 3)), (((-1int) * mono6(x1, y1, z1, x2, y2, z2, 0, 0, 0, 0, 2, 1)) + (1int * mono6(x1, y1, z1, x2, y2, z2, 0, 0, 0, 3, 0, 0))));
    lemma_mul_is_distributive_add((1323int * mono6(x1, y1, z1, x2, y2, z2, 0, 2, 4, 0, 3, 0)), ((-1int) * mono6(x1, y1, z1, x2, y2, z2, 0, 0, 0, 0, 2, 1)), (1int * mono6(x1, y1, z1, x2, y2, z2, 0, 0, 0, 3, 0, 0)));
    lemma_coefficient_product(1323int, mono6(x1, y1, z1, x2, y2, z2, 0, 2, 4, 0, 3, 0), 7int, mono6(x1, y1, z1, x2, y2, z2, 0, 0, 0, 0, 0, 3));
    lemma_mono6_mul(x1, y1, z1, x2, y2, z2, 0, 2, 4, 0, 3, 0, 0, 0, 0, 0, 0, 3);
    lemma_coefficient_product(1323int, mono6(x1, y1, z1, x2, y2, z2, 0, 2, 4, 0, 3, 0), (-1int), mono6(x1, y1, z1, x2, y2, z2, 0, 0, 0, 0, 2, 1));
    lemma_mono6_mul(x1, y1, z1, x2, y2, z2, 0, 2, 4, 0, 3, 0, 0, 0, 0, 0, 2, 1);
    lemma_coefficient_product(1323int, mono6(x1, y1, z1, x2, y2, z2, 0, 2, 4, 0, 3, 0), 1int, mono6(x1, y1, z1, x2, y2, z2, 0, 0, 0, 3, 0, 0));
    lemma_mono6_mul(x1, y1, z1, x2, y2, z2, 0, 2, 4, 0, 3, 0, 0, 0, 0, 3, 0, 0);
    lemma_mul_is_distributive_add(((-18522int) * mono6(x1, y1, z1, x2, y2, z2, 0, 3, 3, 0, 0, 3)), (7int * mono6(x1, y1, z1, x2, y2, z2, 0, 0, 0, 0, 0, 3)), (((-1int) * mono6(x1, y1, z1, x2, y2, z2, 0, 0, 0, 0, 2, 1)) + (1int * mono6(x1, y1, z1, x2, y2, z2, 0, 0, 0, 3, 0, 0))));
    lemma_mul_is_distributive_add(((-18522int) * mono6(x1, y1, z1, x2, y2, z2, 0, 3, 3, 0, 0, 3)), ((-1int) * mono6(x1, y1, z1, x2, y2, z2, 0, 0, 0, 0, 2, 1)), (1int * mono6(x1, y1, z1, x2, y2, z2, 0, 0, 0, 3, 0, 0)));
    lemma_coefficient_product((-18522int), mono6(x1, y1, z1, x2, y2, z2, 0, 3, 3, 0, 0, 3), 7int, mono6(x1, y1, z1, x2, y2, z2, 0, 0, 0, 0, 0, 3));
    lemma_mono6_mul(x1, y1, z1, x2, y2, z2, 0, 3, 3, 0, 0, 3, 0, 0, 0, 0, 0, 3);
    lemma_coefficient_product((-18522int), mono6(x1, y1, z1, x2, y2, z2, 0, 3, 3, 0, 0, 3), (-1int), mono6(x1, y1, z1, x2, y2, z2, 0, 0, 0, 0, 2, 1));
    lemma_mono6_mul(x1, y1, z1, x2, y2, z2, 0, 3, 3, 0, 0, 3, 0, 0, 0, 0, 2, 1);
    lemma_coefficient_product((-18522int), mono6(x1, y1, z1, x2, y2, z2, 0, 3, 3, 0, 0, 3), 1int, mono6(x1, y1, z1, x2, y2, z2, 0, 0, 0, 3, 0, 0));
    lemma_mono6_mul(x1, y1, z1, x2, y2, z2, 0, 3, 3, 0, 0, 3, 0, 0, 0, 3, 0, 0);
    lemma_mul_is_distributive_add((7938int * mono6(x1, y1, z1, x2, y2, z2, 0, 3, 3, 0, 2, 1)), (7int * mono6(x1, y1, z1, x2, y2, z2, 0, 0, 0, 0, 0, 3)), (((-1int) * mono6(x1, y1, z1, x2, y2, z2, 0, 0, 0, 0, 2, 1)) + (1int * mono6(x1, y1, z1, x2, y2, z2, 0, 0, 0, 3, 0, 0))));
    lemma_mul_is_distributive_add((7938int * mono6(x1, y1, z1, x2, y2, z2, 0, 3, 3, 0, 2, 1)), ((-1int) * mono6(x1, y1, z1, x2, y2, z2, 0, 0, 0, 0, 2, 1)), (1int * mono6(x1, y1, z1, x2, y2, z2, 0, 0, 0, 3, 0, 0)));
    lemma_coefficient_product(7938int, mono6(x1, y1, z1, x2, y2, z2, 0, 3, 3, 0, 2, 1), 7int, mono6(x1, y1, z1, x2, y2, z2, 0, 0, 0, 0, 0, 3));
    lemma_mono6_mul(x1, y1, z1, x2, y2, z2, 0, 3, 3, 0, 2, 1, 0, 0, 0, 0, 0, 3);
    lemma_coefficient_product(7938int, mono6(x1, y1, z1, x2, y2, z2, 0, 3, 3, 0, 2, 1), (-1int), mono6(x1, y1, z1, x2, y2, z2, 0, 0, 0, 0, 2, 1));
    lemma_mono6_mul(x1, y1, z1, x2, y2, z2, 0, 3, 3, 0, 2, 1, 0, 0, 0, 0, 2, 1);
    lemma_coefficient_product(7938int, mono6(x1, y1, z1, x2, y2, z2, 0, 3, 3, 0, 2, 1), 1int, mono6(x1, y1, z1, x2, y2, z2, 0, 0, 0, 3, 0, 0));
    lemma_mono6_mul(x1, y1, z1, x2, y2, z2, 0, 3, 3, 0, 2, 1, 0, 0, 0, 3, 0, 0);
    lemma_mul_is_distributive_add((13230int * mono6(x1, y1, z1, x2, y2, z2, 0, 3, 3, 3, 0, 0)), (7int * mono6(x1, y1, z1, x2, y2, z2, 0, 0, 0, 0, 0, 3)), (((-1int) * mono6(x1, y1, z1, x2, y2, z2, 0, 0, 0, 0, 2, 1)) + (1int * mono6(x1, y1, z1, x2, y2, z2, 0, 0, 0, 3, 0, 0))));
    lemma_mul_is_distributive_add((13230int * mono6(x1, y1, z1, x2, y2, z2, 0, 3, 3, 3, 0, 0)), ((-1int) * mono6(x1, y1, z1, x2, y2, z2, 0, 0, 0, 0, 2, 1)), (1int * mono6(x1, y1, z1, x2, y2, z2, 0, 0, 0, 3, 0, 0)));
    lemma_coefficient_product(13230int, mono6(x1, y1, z1, x2, y2, z2, 0, 3, 3, 3, 0, 0), 7int, mono6(x1, y1, z1, x2, y2, z2, 0, 0, 0, 0, 0, 3));
    lemma_mono6_mul(x1, y1, z1, x2, y2, z2, 0, 3, 3, 3, 0, 0, 0, 0, 0, 0, 0, 3);
    lemma_coefficient_product(13230int, mono6(x1, y1, z1, x2, y2, z2, 0, 3, 3, 3, 0, 0), (-1int), mono6(x1, y1, z1, x2, y2, z2, 0, 0, 0, 0, 2, 1));
    lemma_mono6_mul(x1, y1, z1, x2, y2, z2, 0, 3, 3, 3, 0, 0, 0, 0, 0, 0, 2, 1);
    lemma_coefficient_product(13230int, mono6(x1, y1, z1, x2, y2, z2, 0, 3, 3, 3, 0, 0), 1int, mono6(x1, y1, z1, x2, y2, z2, 0, 0, 0, 3, 0, 0));
    lemma_mono6_mul(x1, y1, z1, x2, y2, z2, 0, 3, 3, 3, 0, 0, 0, 0, 0, 3, 0, 0);
    lemma_mul_is_distributive_add((6615int * mono6(x1, y1, z1, x2, y2, z2, 0, 4, 2, 0, 1, 2)), (7int * mono6(x1, y1, z1, x2, y2, z2, 0, 0, 0, 0, 0, 3)), (((-1int) * mono6(x1, y1, z1, x2, y2, z2, 0, 0, 0, 0, 2, 1)) + (1int * mono6(x1, y1, z1, x2, y2, z2, 0, 0, 0, 3, 0, 0))));
    lemma_mul_is_distributive_add((6615int * mono6(x1, y1, z1, x2, y2, z2, 0, 4, 2, 0, 1, 2)), ((-1int) * mono6(x1, y1, z1, x2, y2, z2, 0, 0, 0, 0, 2, 1)), (1int * mono6(x1, y1, z1, x2, y2, z2, 0, 0, 0, 3, 0, 0)));
    lemma_coefficient_product(6615int, mono6(x1, y1, z1, x2, y2, z2, 0, 4, 2, 0, 1, 2), 7int, mono6(x1, y1, z1, x2, y2, z2, 0, 0, 0, 0, 0, 3));
    lemma_mono6_mul(x1, y1, z1, x2, y2, z2, 0, 4, 2, 0, 1, 2, 0, 0, 0, 0, 0, 3);
    lemma_coefficient_product(6615int, mono6(x1, y1, z1, x2, y2, z2, 0, 4, 2, 0, 1, 2), (-1int), mono6(x1, y1, z1, x2, y2, z2, 0, 0, 0, 0, 2, 1));
    lemma_mono6_mul(x1, y1, z1, x2, y2, z2, 0, 4, 2, 0, 1, 2, 0, 0, 0, 0, 2, 1);
    lemma_coefficient_product(6615int, mono6(x1, y1, z1, x2, y2, z2, 0, 4, 2, 0, 1, 2), 1int, mono6(x1, y1, z1, x2, y2, z2, 0, 0, 0, 3, 0, 0));
    lemma_mono6_mul(x1, y1, z1, x2, y2, z2, 0, 4, 2, 0, 1, 2, 0, 0, 0, 3, 0, 0);
    lemma_mul_is_distributive_add(((-126int) * mono6(x1, y1, z1, x2, y2, z2, 0, 4, 2, 0, 3, 0)), (7int * mono6(x1, y1, z1, x2, y2, z2, 0, 0, 0, 0, 0, 3)), (((-1int) * mono6(x1, y1, z1, x2, y2, z2, 0, 0, 0, 0, 2, 1)) + (1int * mono6(x1, y1, z1, x2, y2, z2, 0, 0, 0, 3, 0, 0))));
    lemma_mul_is_distributive_add(((-126int) * mono6(x1, y1, z1, x2, y2, z2, 0, 4, 2, 0, 3, 0)), ((-1int) * mono6(x1, y1, z1, x2, y2, z2, 0, 0, 0, 0, 2, 1)), (1int * mono6(x1, y1, z1, x2, y2, z2, 0, 0, 0, 3, 0, 0)));
    lemma_coefficient_product((-126int), mono6(x1, y1, z1, x2, y2, z2, 0, 4, 2, 0, 3, 0), 7int, mono6(x1, y1, z1, x2, y2, z2, 0, 0, 0, 0, 0, 3));
    lemma_mono6_mul(x1, y1, z1, x2, y2, z2, 0, 4, 2, 0, 3, 0, 0, 0, 0, 0, 0, 3);
    lemma_coefficient_product((-126int), mono6(x1, y1, z1, x2, y2, z2, 0, 4, 2, 0, 3, 0), (-1int), mono6(x1, y1, z1, x2, y2, z2, 0, 0, 0, 0, 2, 1));
    lemma_mono6_mul(x1, y1, z1, x2, y2, z2, 0, 4, 2, 0, 3, 0, 0, 0, 0, 0, 2, 1);
    lemma_coefficient_product((-126int), mono6(x1, y1, z1, x2, y2, z2, 0, 4, 2, 0, 3, 0), 1int, mono6(x1, y1, z1, x2, y2, z2, 0, 0, 0, 3, 0, 0));
    lemma_mono6_mul(x1, y1, z1, x2, y2, z2, 0, 4, 2, 0, 3, 0, 0, 0, 0, 3, 0, 0);
    lemma_mul_is_distributive_add((1323int * mono6(x1, y1, z1, x2, y2, z2, 0, 5, 1, 0, 0, 3)), (7int * mono6(x1, y1, z1, x2, y2, z2, 0, 0, 0, 0, 0, 3)), (((-1int) * mono6(x1, y1, z1, x2, y2, z2, 0, 0, 0, 0, 2, 1)) + (1int * mono6(x1, y1, z1, x2, y2, z2, 0, 0, 0, 3, 0, 0))));
    lemma_mul_is_distributive_add((1323int * mono6(x1, y1, z1, x2, y2, z2, 0, 5, 1, 0, 0, 3)), ((-1int) * mono6(x1, y1, z1, x2, y2, z2, 0, 0, 0, 0, 2, 1)), (1int * mono6(x1, y1, z1, x2, y2, z2, 0, 0, 0, 3, 0, 0)));
    lemma_coefficient_product(1323int, mono6(x1, y1, z1, x2, y2, z2, 0, 5, 1, 0, 0, 3), 7int, mono6(x1, y1, z1, x2, y2, z2, 0, 0, 0, 0, 0, 3));
    lemma_mono6_mul(x1, y1, z1, x2, y2, z2, 0, 5, 1, 0, 0, 3, 0, 0, 0, 0, 0, 3);
    lemma_coefficient_product(1323int, mono6(x1, y1, z1, x2, y2, z2, 0, 5, 1, 0, 0, 3), (-1int), mono6(x1, y1, z1, x2, y2, z2, 0, 0, 0, 0, 2, 1));
    lemma_mono6_mul(x1, y1, z1, x2, y2, z2, 0, 5, 1, 0, 0, 3, 0, 0, 0, 0, 2, 1);
    lemma_coefficient_product(1323int, mono6(x1, y1, z1, x2, y2, z2, 0, 5, 1, 0, 0, 3), 1int, mono6(x1, y1, z1, x2, y2, z2, 0, 0, 0, 3, 0, 0));
    lemma_mono6_mul(x1, y1, z1, x2, y2, z2, 0, 5, 1, 0, 0, 3, 0, 0, 0, 3, 0, 0);
    lemma_mul_is_distributive_add(((-63int) * mono6(x1, y1, z1, x2, y2, z2, 0, 5, 1, 0, 2, 1)), (7int * mono6(x1, y1, z1, x2, y2, z2, 0, 0, 0, 0, 0, 3)), (((-1int) * mono6(x1, y1, z1, x2, y2, z2, 0, 0, 0, 0, 2, 1)) + (1int * mono6(x1, y1, z1, x2, y2, z2, 0, 0, 0, 3, 0, 0))));
    lemma_mul_is_distributive_add(((-63int) * mono6(x1, y1, z1, x2, y2, z2, 0, 5, 1, 0, 2, 1)), ((-1int) * mono6(x1, y1, z1, x2, y2, z2, 0, 0, 0, 0, 2, 1)), (1int * mono6(x1, y1, z1, x2, y2, z2, 0, 0, 0, 3, 0, 0)));
    lemma_coefficient_product((-63int), mono6(x1, y1, z1, x2, y2, z2, 0, 5, 1, 0, 2, 1), 7int, mono6(x1, y1, z1, x2, y2, z2, 0, 0, 0, 0, 0, 3));
    lemma_mono6_mul(x1, y1, z1, x2, y2, z2, 0, 5, 1, 0, 2, 1, 0, 0, 0, 0, 0, 3);
    lemma_coefficient_product((-63int), mono6(x1, y1, z1, x2, y2, z2, 0, 5, 1, 0, 2, 1), (-1int), mono6(x1, y1, z1, x2, y2, z2, 0, 0, 0, 0, 2, 1));
    lemma_mono6_mul(x1, y1, z1, x2, y2, z2, 0, 5, 1, 0, 2, 1, 0, 0, 0, 0, 2, 1);
    lemma_coefficient_product((-63int), mono6(x1, y1, z1, x2, y2, z2, 0, 5, 1, 0, 2, 1), 1int, mono6(x1, y1, z1, x2, y2, z2, 0, 0, 0, 3, 0, 0));
    lemma_mono6_mul(x1, y1, z1, x2, y2, z2, 0, 5, 1, 0, 2, 1, 0, 0, 0, 3, 0, 0);
    lemma_mul_is_distributive_add(((-189int) * mono6(x1, y1, z1, x2, y2, z2, 0, 5, 1, 3, 0, 0)), (7int * mono6(x1, y1, z1, x2, y2, z2, 0, 0, 0, 0, 0, 3)), (((-1int) * mono6(x1, y1, z1, x2, y2, z2, 0, 0, 0, 0, 2, 1)) + (1int * mono6(x1, y1, z1, x2, y2, z2, 0, 0, 0, 3, 0, 0))));
    lemma_mul_is_distributive_add(((-189int) * mono6(x1, y1, z1, x2, y2, z2, 0, 5, 1, 3, 0, 0)), ((-1int) * mono6(x1, y1, z1, x2, y2, z2, 0, 0, 0, 0, 2, 1)), (1int * mono6(x1, y1, z1, x2, y2, z2, 0, 0, 0, 3, 0, 0)));
    lemma_coefficient_product((-189int), mono6(x1, y1, z1, x2, y2, z2, 0, 5, 1, 3, 0, 0), 7int, mono6(x1, y1, z1, x2, y2, z2, 0, 0, 0, 0, 0, 3));
    lemma_mono6_mul(x1, y1, z1, x2, y2, z2, 0, 5, 1, 3, 0, 0, 0, 0, 0, 0, 0, 3);
    lemma_coefficient_product((-189int), mono6(x1, y1, z1, x2, y2, z2, 0, 5, 1, 3, 0, 0), (-1int), mono6(x1, y1, z1, x2, y2, z2, 0, 0, 0, 0, 2, 1));
    lemma_mono6_mul(x1, y1, z1, x2, y2, z2, 0, 5, 1, 3, 0, 0, 0, 0, 0, 0, 2, 1);
    lemma_coefficient_product((-189int), mono6(x1, y1, z1, x2, y2, z2, 0, 5, 1, 3, 0, 0), 1int, mono6(x1, y1, z1, x2, y2, z2, 0, 0, 0, 3, 0, 0));
    lemma_mono6_mul(x1, y1, z1, x2, y2, z2, 0, 5, 1, 3, 0, 0, 0, 0, 0, 3, 0, 0);
    lemma_mul_is_distributive_add(((-1int) * mono6(x1, y1, z1, x2, y2, z2, 0, 6, 0, 0, 3, 0)), (7int * mono6(x1, y1, z1, x2, y2, z2, 0, 0, 0, 0, 0, 3)), (((-1int) * mono6(x1, y1, z1, x2, y2, z2, 0, 0, 0, 0, 2, 1)) + (1int * mono6(x1, y1, z1, x2, y2, z2, 0, 0, 0, 3, 0, 0))));
    lemma_mul_is_distributive_add(((-1int) * mono6(x1, y1, z1, x2, y2, z2, 0, 6, 0, 0, 3, 0)), ((-1int) * mono6(x1, y1, z1, x2, y2, z2, 0, 0, 0, 0, 2, 1)), (1int * mono6(x1, y1, z1, x2, y2, z2, 0, 0, 0, 3, 0, 0)));
    lemma_coefficient_product((-1int), mono6(x1, y1, z1, x2, y2, z2, 0, 6, 0, 0, 3, 0), 7int, mono6(x1, y1, z1, x2, y2, z2, 0, 0, 0, 0, 0, 3));
    lemma_mono6_mul(x1, y1, z1, x2, y2, z2, 0, 6, 0, 0, 3, 0, 0, 0, 0, 0, 0, 3);
    lemma_coefficient_product((-1int), mono6(x1, y1, z1, x2, y2, z2, 0, 6, 0, 0, 3, 0), (-1int), mono6(x1, y1, z1, x2, y2, z2, 0, 0, 0, 0, 2, 1));
    lemma_mono6_mul(x1, y1, z1, x2, y2, z2, 0, 6, 0, 0, 3, 0, 0, 0, 0, 0, 2, 1);
    lemma_coefficient_product((-1int), mono6(x1, y1, z1, x2, y2, z2, 0, 6, 0, 0, 3, 0), 1int, mono6(x1, y1, z1, x2, y2, z2, 0, 0, 0, 3, 0, 0));
    lemma_mono6_mul(x1, y1, z1, x2, y2, z2, 0, 6, 0, 0, 3, 0, 0, 0, 0, 3, 0, 0);
    lemma_mul_is_distributive_add(((-83349int) * mono6(x1, y1, z1, x2, y2, z2, 1, 0, 5, 2, 1, 0)), (7int * mono6(x1, y1, z1, x2, y2, z2, 0, 0, 0, 0, 0, 3)), (((-1int) * mono6(x1, y1, z1, x2, y2, z2, 0, 0, 0, 0, 2, 1)) + (1int * mono6(x1, y1, z1, x2, y2, z2, 0, 0, 0, 3, 0, 0))));
    lemma_mul_is_distributive_add(((-83349int) * mono6(x1, y1, z1, x2, y2, z2, 1, 0, 5, 2, 1, 0)), ((-1int) * mono6(x1, y1, z1, x2, y2, z2, 0, 0, 0, 0, 2, 1)), (1int * mono6(x1, y1, z1, x2, y2, z2, 0, 0, 0, 3, 0, 0)));
    lemma_coefficient_product((-83349int), mono6(x1, y1, z1, x2, y2, z2, 1, 0, 5, 2, 1, 0), 7int, mono6(x1, y1, z1, x2, y2, z2, 0, 0, 0, 0, 0, 3));
    lemma_mono6_mul(x1, y1, z1, x2, y2, z2, 1, 0, 5, 2, 1, 0, 0, 0, 0, 0, 0, 3);
    lemma_coefficient_product((-83349int), mono6(x1, y1, z1, x2, y2, z2, 1, 0, 5, 2, 1, 0), (-1int), mono6(x1, y1, z1, x2, y2, z2, 0, 0, 0, 0, 2, 1));
    lemma_mono6_mul(x1, y1, z1, x2, y2, z2, 1, 0, 5, 2, 1, 0, 0, 0, 0, 0, 2, 1);
    lemma_coefficient_product((-83349int), mono6(x1, y1, z1, x2, y2, z2, 1, 0, 5, 2, 1, 0), 1int, mono6(x1, y1, z1, x2, y2, z2, 0, 0, 0, 3, 0, 0));
    lemma_mono6_mul(x1, y1, z1, x2, y2, z2, 1, 0, 5, 2, 1, 0, 0, 0, 0, 3, 0, 0);
    lemma_mul_is_distributive_add(((-166698int) * mono6(x1, y1, z1, x2, y2, z2, 1, 1, 4, 2, 0, 1)), (7int * mono6(x1, y1, z1, x2, y2, z2, 0, 0, 0, 0, 0, 3)), (((-1int) * mono6(x1, y1, z1, x2, y2, z2, 0, 0, 0, 0, 2, 1)) + (1int * mono6(x1, y1, z1, x2, y2, z2, 0, 0, 0, 3, 0, 0))));
    lemma_mul_is_distributive_add(((-166698int) * mono6(x1, y1, z1, x2, y2, z2, 1, 1, 4, 2, 0, 1)), ((-1int) * mono6(x1, y1, z1, x2, y2, z2, 0, 0, 0, 0, 2, 1)), (1int * mono6(x1, y1, z1, x2, y2, z2, 0, 0, 0, 3, 0, 0)));
    lemma_coefficient_product((-166698int), mono6(x1, y1, z1, x2, y2, z2, 1, 1, 4, 2, 0, 1), 7int, mono6(x1, y1, z1, x2, y2, z2, 0, 0, 0, 0, 0, 3));
    lemma_mono6_mul(x1, y1, z1, x2, y2, z2, 1, 1, 4, 2, 0, 1, 0, 0, 0, 0, 0, 3);
    lemma_coefficient_product((-166698int), mono6(x1, y1, z1, x2, y2, z2, 1, 1, 4, 2, 0, 1), (-1int), mono6(x1, y1, z1, x2, y2, z2, 0, 0, 0, 0, 2, 1));
    lemma_mono6_mul(x1, y1, z1, x2, y2, z2, 1, 1, 4, 2, 0, 1, 0, 0, 0, 0, 2, 1);
    lemma_coefficient_product((-166698int), mono6(x1, y1, z1, x2, y2, z2, 1, 1, 4, 2, 0, 1), 1int, mono6(x1, y1, z1, x2, y2, z2, 0, 0, 0, 3, 0, 0));
    lemma_mono6_mul(x1, y1, z1, x2, y2, z2, 1, 1, 4, 2, 0, 1, 0, 0, 0, 3, 0, 0);
    lemma_mul_is_distributive_add((15876int * mono6(x1, y1, z1, x2, y2, z2, 1, 2, 3, 2, 1, 0)), (7int * mono6(x1, y1, z1, x2, y2, z2, 0, 0, 0, 0, 0, 3)), (((-1int) * mono6(x1, y1, z1, x2, y2, z2, 0, 0, 0, 0, 2, 1)) + (1int * mono6(x1, y1, z1, x2, y2, z2, 0, 0, 0, 3, 0, 0))));
    lemma_mul_is_distributive_add((15876int * mono6(x1, y1, z1, x2, y2, z2, 1, 2, 3, 2, 1, 0)), ((-1int) * mono6(x1, y1, z1, x2, y2, z2, 0, 0, 0, 0, 2, 1)), (1int * mono6(x1, y1, z1, x2, y2, z2, 0, 0, 0, 3, 0, 0)));
    lemma_coefficient_product(15876int, mono6(x1, y1, z1, x2, y2, z2, 1, 2, 3, 2, 1, 0), 7int, mono6(x1, y1, z1, x2, y2, z2, 0, 0, 0, 0, 0, 3));
    lemma_mono6_mul(x1, y1, z1, x2, y2, z2, 1, 2, 3, 2, 1, 0, 0, 0, 0, 0, 0, 3);
    lemma_coefficient_product(15876int, mono6(x1, y1, z1, x2, y2, z2, 1, 2, 3, 2, 1, 0), (-1int), mono6(x1, y1, z1, x2, y2, z2, 0, 0, 0, 0, 2, 1));
    lemma_mono6_mul(x1, y1, z1, x2, y2, z2, 1, 2, 3, 2, 1, 0, 0, 0, 0, 0, 2, 1);
    lemma_coefficient_product(15876int, mono6(x1, y1, z1, x2, y2, z2, 1, 2, 3, 2, 1, 0), 1int, mono6(x1, y1, z1, x2, y2, z2, 0, 0, 0, 3, 0, 0));
    lemma_mono6_mul(x1, y1, z1, x2, y2, z2, 1, 2, 3, 2, 1, 0, 0, 0, 0, 3, 0, 0);
    lemma_mul_is_distributive_add((23814int * mono6(x1, y1, z1, x2, y2, z2, 1, 3, 2, 2, 0, 1)), (7int * mono6(x1, y1, z1, x2, y2, z2, 0, 0, 0, 0, 0, 3)), (((-1int) * mono6(x1, y1, z1, x2, y2, z2, 0, 0, 0, 0, 2, 1)) + (1int * mono6(x1, y1, z1, x2, y2, z2, 0, 0, 0, 3, 0, 0))));
    lemma_mul_is_distributive_add((23814int * mono6(x1, y1, z1, x2, y2, z2, 1, 3, 2, 2, 0, 1)), ((-1int) * mono6(x1, y1, z1, x2, y2, z2, 0, 0, 0, 0, 2, 1)), (1int * mono6(x1, y1, z1, x2, y2, z2, 0, 0, 0, 3, 0, 0)));
    lemma_coefficient_product(23814int, mono6(x1, y1, z1, x2, y2, z2, 1, 3, 2, 2, 0, 1), 7int, mono6(x1, y1, z1, x2, y2, z2, 0, 0, 0, 0, 0, 3));
    lemma_mono6_mul(x1, y1, z1, x2, y2, z2, 1, 3, 2, 2, 0, 1, 0, 0, 0, 0, 0, 3);
    lemma_coefficient_product(23814int, mono6(x1, y1, z1, x2, y2, z2, 1, 3, 2, 2, 0, 1), (-1int), mono6(x1, y1, z1, x2, y2, z2, 0, 0, 0, 0, 2, 1));
    lemma_mono6_mul(x1, y1, z1, x2, y2, z2, 1, 3, 2, 2, 0, 1, 0, 0, 0, 0, 2, 1);
    lemma_coefficient_product(23814int, mono6(x1, y1, z1, x2, y2, z2, 1, 3, 2, 2, 0, 1), 1int, mono6(x1, y1, z1, x2, y2, z2, 0, 0, 0, 3, 0, 0));
    lemma_mono6_mul(x1, y1, z1, x2, y2, z2, 1, 3, 2, 2, 0, 1, 0, 0, 0, 3, 0, 0);
    lemma_mul_is_distributive_add(((-567int) * mono6(x1, y1, z1, x2, y2, z2, 1, 4, 1, 2, 1, 0)), (7int * mono6(x1, y1, z1, x2, y2, z2, 0, 0, 0, 0, 0, 3)), (((-1int) * mono6(x1, y1, z1, x2, y2, z2, 0, 0, 0, 0, 2, 1)) + (1int * mono6(x1, y1, z1, x2, y2, z2, 0, 0, 0, 3, 0, 0))));
    lemma_mul_is_distributive_add(((-567int) * mono6(x1, y1, z1, x2, y2, z2, 1, 4, 1, 2, 1, 0)), ((-1int) * mono6(x1, y1, z1, x2, y2, z2, 0, 0, 0, 0, 2, 1)), (1int * mono6(x1, y1, z1, x2, y2, z2, 0, 0, 0, 3, 0, 0)));
    lemma_coefficient_product((-567int), mono6(x1, y1, z1, x2, y2, z2, 1, 4, 1, 2, 1, 0), 7int, mono6(x1, y1, z1, x2, y2, z2, 0, 0, 0, 0, 0, 3));
    lemma_mono6_mul(x1, y1, z1, x2, y2, z2, 1, 4, 1, 2, 1, 0, 0, 0, 0, 0, 0, 3);
    lemma_coefficient_product((-567int), mono6(x1, y1, z1, x2, y2, z2, 1, 4, 1, 2, 1, 0), (-1int), mono6(x1, y1, z1, x2, y2, z2, 0, 0, 0, 0, 2, 1));
    lemma_mono6_mul(x1, y1, z1, x2, y2, z2, 1, 4, 1, 2, 1, 0, 0, 0, 0, 0, 2, 1);
    lemma_coefficient_product((-567int), mono6(x1, y1, z1, x2, y2, z2, 1, 4, 1, 2, 1, 0), 1int, mono6(x1, y1, z1, x2, y2, z2, 0, 0, 0, 3, 0, 0));
    lemma_mono6_mul(x1, y1, z1, x2, y2, z2, 1, 4, 1, 2, 1, 0, 0, 0, 0, 3, 0, 0);
    lemma_mul_is_distributive_add(((-83349int) * mono6(x1, y1, z1, x2, y2, z2, 2, 0, 4, 1, 1, 1)), (7int * mono6(x1, y1, z1, x2, y2, z2, 0, 0, 0, 0, 0, 3)), (((-1int) * mono6(x1, y1, z1, x2, y2, z2, 0, 0, 0, 0, 2, 1)) + (1int * mono6(x1, y1, z1, x2, y2, z2, 0, 0, 0, 3, 0, 0))));
    lemma_mul_is_distributive_add(((-83349int) * mono6(x1, y1, z1, x2, y2, z2, 2, 0, 4, 1, 1, 1)), ((-1int) * mono6(x1, y1, z1, x2, y2, z2, 0, 0, 0, 0, 2, 1)), (1int * mono6(x1, y1, z1, x2, y2, z2, 0, 0, 0, 3, 0, 0)));
    lemma_coefficient_product((-83349int), mono6(x1, y1, z1, x2, y2, z2, 2, 0, 4, 1, 1, 1), 7int, mono6(x1, y1, z1, x2, y2, z2, 0, 0, 0, 0, 0, 3));
    lemma_mono6_mul(x1, y1, z1, x2, y2, z2, 2, 0, 4, 1, 1, 1, 0, 0, 0, 0, 0, 3);
    lemma_coefficient_product((-83349int), mono6(x1, y1, z1, x2, y2, z2, 2, 0, 4, 1, 1, 1), (-1int), mono6(x1, y1, z1, x2, y2, z2, 0, 0, 0, 0, 2, 1));
    lemma_mono6_mul(x1, y1, z1, x2, y2, z2, 2, 0, 4, 1, 1, 1, 0, 0, 0, 0, 2, 1);
    lemma_coefficient_product((-83349int), mono6(x1, y1, z1, x2, y2, z2, 2, 0, 4, 1, 1, 1), 1int, mono6(x1, y1, z1, x2, y2, z2, 0, 0, 0, 3, 0, 0));
    lemma_mono6_mul(x1, y1, z1, x2, y2, z2, 2, 0, 4, 1, 1, 1, 0, 0, 0, 3, 0, 0);
    lemma_mul_is_distributive_add(((-166698int) * mono6(x1, y1, z1, x2, y2, z2, 2, 1, 3, 1, 0, 2)), (7int * mono6(x1, y1, z1, x2, y2, z2, 0, 0, 0, 0, 0, 3)), (((-1int) * mono6(x1, y1, z1, x2, y2, z2, 0, 0, 0, 0, 2, 1)) + (1int * mono6(x1, y1, z1, x2, y2, z2, 0, 0, 0, 3, 0, 0))));
    lemma_mul_is_distributive_add(((-166698int) * mono6(x1, y1, z1, x2, y2, z2, 2, 1, 3, 1, 0, 2)), ((-1int) * mono6(x1, y1, z1, x2, y2, z2, 0, 0, 0, 0, 2, 1)), (1int * mono6(x1, y1, z1, x2, y2, z2, 0, 0, 0, 3, 0, 0)));
    lemma_coefficient_product((-166698int), mono6(x1, y1, z1, x2, y2, z2, 2, 1, 3, 1, 0, 2), 7int, mono6(x1, y1, z1, x2, y2, z2, 0, 0, 0, 0, 0, 3));
    lemma_mono6_mul(x1, y1, z1, x2, y2, z2, 2, 1, 3, 1, 0, 2, 0, 0, 0, 0, 0, 3);
    lemma_coefficient_product((-166698int), mono6(x1, y1, z1, x2, y2, z2, 2, 1, 3, 1, 0, 2), (-1int), mono6(x1, y1, z1, x2, y2, z2, 0, 0, 0, 0, 2, 1));
    lemma_mono6_mul(x1, y1, z1, x2, y2, z2, 2, 1, 3, 1, 0, 2, 0, 0, 0, 0, 2, 1);
    lemma_coefficient_product((-166698int), mono6(x1, y1, z1, x2, y2, z2, 2, 1, 3, 1, 0, 2), 1int, mono6(x1, y1, z1, x2, y2, z2, 0, 0, 0, 3, 0, 0));
    lemma_mono6_mul(x1, y1, z1, x2, y2, z2, 2, 1, 3, 1, 0, 2, 0, 0, 0, 3, 0, 0);
    lemma_mul_is_distributive_add((7938int * mono6(x1, y1, z1, x2, y2, z2, 2, 1, 3, 1, 2, 0)), (7int * mono6(x1, y1, z1, x2, y2, z2, 0, 0, 0, 0, 0, 3)), (((-1int) * mono6(x1, y1, z1, x2, y2, z2, 0, 0, 0, 0, 2, 1)) + (1int * mono6(x1, y1, z1, x2, y2, z2, 0, 0, 0, 3, 0, 0))));
    lemma_mul_is_distributive_add((7938int * mono6(x1, y1, z1, x2, y2, z2, 2, 1, 3, 1, 2, 0)), ((-1int) * mono6(x1, y1, z1, x2, y2, z2, 0, 0, 0, 0, 2, 1)), (1int * mono6(x1, y1, z1, x2, y2, z2, 0, 0, 0, 3, 0, 0)));
    lemma_coefficient_product(7938int, mono6(x1, y1, z1, x2, y2, z2, 2, 1, 3, 1, 2, 0), 7int, mono6(x1, y1, z1, x2, y2, z2, 0, 0, 0, 0, 0, 3));
    lemma_mono6_mul(x1, y1, z1, x2, y2, z2, 2, 1, 3, 1, 2, 0, 0, 0, 0, 0, 0, 3);
    lemma_coefficient_product(7938int, mono6(x1, y1, z1, x2, y2, z2, 2, 1, 3, 1, 2, 0), (-1int), mono6(x1, y1, z1, x2, y2, z2, 0, 0, 0, 0, 2, 1));
    lemma_mono6_mul(x1, y1, z1, x2, y2, z2, 2, 1, 3, 1, 2, 0, 0, 0, 0, 0, 2, 1);
    lemma_coefficient_product(7938int, mono6(x1, y1, z1, x2, y2, z2, 2, 1, 3, 1, 2, 0), 1int, mono6(x1, y1, z1, x2, y2, z2, 0, 0, 0, 3, 0, 0));
    lemma_mono6_mul(x1, y1, z1, x2, y2, z2, 2, 1, 3, 1, 2, 0, 0, 0, 0, 3, 0, 0);
    lemma_mul_is_distributive_add((23814int * mono6(x1, y1, z1, x2, y2, z2, 2, 2, 2, 1, 1, 1)), (7int * mono6(x1, y1, z1, x2, y2, z2, 0, 0, 0, 0, 0, 3)), (((-1int) * mono6(x1, y1, z1, x2, y2, z2, 0, 0, 0, 0, 2, 1)) + (1int * mono6(x1, y1, z1, x2, y2, z2, 0, 0, 0, 3, 0, 0))));
    lemma_mul_is_distributive_add((23814int * mono6(x1, y1, z1, x2, y2, z2, 2, 2, 2, 1, 1, 1)), ((-1int) * mono6(x1, y1, z1, x2, y2, z2, 0, 0, 0, 0, 2, 1)), (1int * mono6(x1, y1, z1, x2, y2, z2, 0, 0, 0, 3, 0, 0)));
    lemma_coefficient_product(23814int, mono6(x1, y1, z1, x2, y2, z2, 2, 2, 2, 1, 1, 1), 7int, mono6(x1, y1, z1, x2, y2, z2, 0, 0, 0, 0, 0, 3));
    lemma_mono6_mul(x1, y1, z1, x2, y2, z2, 2, 2, 2, 1, 1, 1, 0, 0, 0, 0, 0, 3);
    lemma_coefficient_product(23814int, mono6(x1, y1, z1, x2, y2, z2, 2, 2, 2, 1, 1, 1), (-1int), mono6(x1, y1, z1, x2, y2, z2, 0, 0, 0, 0, 2, 1));
    lemma_mono6_mul(x1, y1, z1, x2, y2, z2, 2, 2, 2, 1, 1, 1, 0, 0, 0, 0, 2, 1);
    lemma_coefficient_product(23814int, mono6(x1, y1, z1, x2, y2, z2, 2, 2, 2, 1, 1, 1), 1int, mono6(x1, y1, z1, x2, y2, z2, 0, 0, 0, 3, 0, 0));
    lemma_mono6_mul(x1, y1, z1, x2, y2, z2, 2, 2, 2, 1, 1, 1, 0, 0, 0, 3, 0, 0);
    lemma_mul_is_distributive_add((7938int * mono6(x1, y1, z1, x2, y2, z2, 2, 3, 1, 1, 0, 2)), (7int * mono6(x1, y1, z1, x2, y2, z2, 0, 0, 0, 0, 0, 3)), (((-1int) * mono6(x1, y1, z1, x2, y2, z2, 0, 0, 0, 0, 2, 1)) + (1int * mono6(x1, y1, z1, x2, y2, z2, 0, 0, 0, 3, 0, 0))));
    lemma_mul_is_distributive_add((7938int * mono6(x1, y1, z1, x2, y2, z2, 2, 3, 1, 1, 0, 2)), ((-1int) * mono6(x1, y1, z1, x2, y2, z2, 0, 0, 0, 0, 2, 1)), (1int * mono6(x1, y1, z1, x2, y2, z2, 0, 0, 0, 3, 0, 0)));
    lemma_coefficient_product(7938int, mono6(x1, y1, z1, x2, y2, z2, 2, 3, 1, 1, 0, 2), 7int, mono6(x1, y1, z1, x2, y2, z2, 0, 0, 0, 0, 0, 3));
    lemma_mono6_mul(x1, y1, z1, x2, y2, z2, 2, 3, 1, 1, 0, 2, 0, 0, 0, 0, 0, 3);
    lemma_coefficient_product(7938int, mono6(x1, y1, z1, x2, y2, z2, 2, 3, 1, 1, 0, 2), (-1int), mono6(x1, y1, z1, x2, y2, z2, 0, 0, 0, 0, 2, 1));
    lemma_mono6_mul(x1, y1, z1, x2, y2, z2, 2, 3, 1, 1, 0, 2, 0, 0, 0, 0, 2, 1);
    lemma_coefficient_product(7938int, mono6(x1, y1, z1, x2, y2, z2, 2, 3, 1, 1, 0, 2), 1int, mono6(x1, y1, z1, x2, y2, z2, 0, 0, 0, 3, 0, 0));
    lemma_mono6_mul(x1, y1, z1, x2, y2, z2, 2, 3, 1, 1, 0, 2, 0, 0, 0, 3, 0, 0);
    lemma_mul_is_distributive_add(((-378int) * mono6(x1, y1, z1, x2, y2, z2, 2, 3, 1, 1, 2, 0)), (7int * mono6(x1, y1, z1, x2, y2, z2, 0, 0, 0, 0, 0, 3)), (((-1int) * mono6(x1, y1, z1, x2, y2, z2, 0, 0, 0, 0, 2, 1)) + (1int * mono6(x1, y1, z1, x2, y2, z2, 0, 0, 0, 3, 0, 0))));
    lemma_mul_is_distributive_add(((-378int) * mono6(x1, y1, z1, x2, y2, z2, 2, 3, 1, 1, 2, 0)), ((-1int) * mono6(x1, y1, z1, x2, y2, z2, 0, 0, 0, 0, 2, 1)), (1int * mono6(x1, y1, z1, x2, y2, z2, 0, 0, 0, 3, 0, 0)));
    lemma_coefficient_product((-378int), mono6(x1, y1, z1, x2, y2, z2, 2, 3, 1, 1, 2, 0), 7int, mono6(x1, y1, z1, x2, y2, z2, 0, 0, 0, 0, 0, 3));
    lemma_mono6_mul(x1, y1, z1, x2, y2, z2, 2, 3, 1, 1, 2, 0, 0, 0, 0, 0, 0, 3);
    lemma_coefficient_product((-378int), mono6(x1, y1, z1, x2, y2, z2, 2, 3, 1, 1, 2, 0), (-1int), mono6(x1, y1, z1, x2, y2, z2, 0, 0, 0, 0, 2, 1));
    lemma_mono6_mul(x1, y1, z1, x2, y2, z2, 2, 3, 1, 1, 2, 0, 0, 0, 0, 0, 2, 1);
    lemma_coefficient_product((-378int), mono6(x1, y1, z1, x2, y2, z2, 2, 3, 1, 1, 2, 0), 1int, mono6(x1, y1, z1, x2, y2, z2, 0, 0, 0, 3, 0, 0));
    lemma_mono6_mul(x1, y1, z1, x2, y2, z2, 2, 3, 1, 1, 2, 0, 0, 0, 0, 3, 0, 0);
    lemma_mul_is_distributive_add(((-189int) * mono6(x1, y1, z1, x2, y2, z2, 2, 4, 0, 1, 1, 1)), (7int * mono6(x1, y1, z1, x2, y2, z2, 0, 0, 0, 0, 0, 3)), (((-1int) * mono6(x1, y1, z1, x2, y2, z2, 0, 0, 0, 0, 2, 1)) + (1int * mono6(x1, y1, z1, x2, y2, z2, 0, 0, 0, 3, 0, 0))));
    lemma_mul_is_distributive_add(((-189int) * mono6(x1, y1, z1, x2, y2, z2, 2, 4, 0, 1, 1, 1)), ((-1int) * mono6(x1, y1, z1, x2, y2, z2, 0, 0, 0, 0, 2, 1)), (1int * mono6(x1, y1, z1, x2, y2, z2, 0, 0, 0, 3, 0, 0)));
    lemma_coefficient_product((-189int), mono6(x1, y1, z1, x2, y2, z2, 2, 4, 0, 1, 1, 1), 7int, mono6(x1, y1, z1, x2, y2, z2, 0, 0, 0, 0, 0, 3));
    lemma_mono6_mul(x1, y1, z1, x2, y2, z2, 2, 4, 0, 1, 1, 1, 0, 0, 0, 0, 0, 3);
    lemma_coefficient_product((-189int), mono6(x1, y1, z1, x2, y2, z2, 2, 4, 0, 1, 1, 1), (-1int), mono6(x1, y1, z1, x2, y2, z2, 0, 0, 0, 0, 2, 1));
    lemma_mono6_mul(x1, y1, z1, x2, y2, z2, 2, 4, 0, 1, 1, 1, 0, 0, 0, 0, 2, 1);
    lemma_coefficient_product((-189int), mono6(x1, y1, z1, x2, y2, z2, 2, 4, 0, 1, 1, 1), 1int, mono6(x1, y1, z1, x2, y2, z2, 0, 0, 0, 3, 0, 0));
    lemma_mono6_mul(x1, y1, z1, x2, y2, z2, 2, 4, 0, 1, 1, 1, 0, 0, 0, 3, 0, 0);
    assert(((((((583443int * mono6(x1, y1, z1, x2, y2, z2, 0, 0, 6, 0, 1, 2)) + ((583443int * mono6(x1, y1, z1, x2, y2, z2, 0, 1, 5, 0, 0, 3)) + ((-27783int) * mono6(x1, y1, z1, x2, y2, z2, 0, 1, 5, 0, 2, 1)))) + (((-83349int) * mono6(x1, y1, z1, x2, y2, z2, 0, 1, 5, 3, 0, 0)) + (((-55566int) * mono6(x1, y1, z1, x2, y2, z2, 0, 2, 4, 0, 1, 2)) + (1323int * mono6(x1, y1, z1, x2, y2, z2, 0, 2, 4, 0, 3, 0))))) + ((((-18522int) * mono6(x1, y1, z1, x2, y2, z2, 0, 3, 3, 0, 0, 3)) + ((7938int * mono6(x1, y1, z1, x2, y2, z2, 0, 3, 3, 0, 2, 1)) + (13230int * mono6(x1, y1, z1, x2, y2, z2, 0, 3, 3, 3, 0, 0)))) + (((6615int * mono6(x1, y1, z1, x2, y2, z2, 0, 4, 2, 0, 1, 2)) + ((-126int) * mono6(x1, y1, z1, x2, y2, z2, 0, 4, 2, 0, 3, 0))) + ((1323int * mono6(x1, y1, z1, x2, y2, z2, 0, 5, 1, 0, 0, 3)) + ((-63int) * mono6(x1, y1, z1, x2, y2, z2, 0, 5, 1, 0, 2, 1)))))) + (((((-189int) * mono6(x1, y1, z1, x2, y2, z2, 0, 5, 1, 3, 0, 0)) + (((-1int) * mono6(x1, y1, z1, x2, y2, z2, 0, 6, 0, 0, 3, 0)) + ((-83349int) * mono6(x1, y1, z1, x2, y2, z2, 1, 0, 5, 2, 1, 0)))) + ((((-166698int) * mono6(x1, y1, z1, x2, y2, z2, 1, 1, 4, 2, 0, 1)) + (15876int * mono6(x1, y1, z1, x2, y2, z2, 1, 2, 3, 2, 1, 0))) + ((23814int * mono6(x1, y1, z1, x2, y2, z2, 1, 3, 2, 2, 0, 1)) + ((-567int) * mono6(x1, y1, z1, x2, y2, z2, 1, 4, 1, 2, 1, 0))))) + ((((-83349int) * mono6(x1, y1, z1, x2, y2, z2, 2, 0, 4, 1, 1, 1)) + (((-166698int) * mono6(x1, y1, z1, x2, y2, z2, 2, 1, 3, 1, 0, 2)) + (7938int * mono6(x1, y1, z1, x2, y2, z2, 2, 1, 3, 1, 2, 0)))) + (((23814int * mono6(x1, y1, z1, x2, y2, z2, 2, 2, 2, 1, 1, 1)) + (7938int * mono6(x1, y1, z1, x2, y2, z2, 2, 3, 1, 1, 0, 2))) + (((-378int) * mono6(x1, y1, z1, x2, y2, z2, 2, 3, 1, 1, 2, 0)) + ((-189int) * mono6(x1, y1, z1, x2, y2, z2, 2, 4, 0, 1, 1, 1))))))) * ((((x2 * x2) * x2) + (7 * ((z2 * z2) * z2))) - ((y2 * y2) * z2))) == (((((((4084101int * mono6(x1, y1, z1, x2, y2, z2, 0, 0, 6, 0, 1, 5)) + ((-583443int) * mono6(x1, y1, z1, x2, y2, z2, 0, 0, 6, 0, 3, 3))) + ((583443int * mono6(x1, y1, z1, x2, y2, z2, 0, 0, 6, 3, 1, 2)) + (4084101int * mono6(x1, y1, z1, x2, y2, z2, 0, 1, 5, 0, 0, 6)))) + ((((-777924int) * mono6(x1, y1, z1, x2, y2, z2, 0, 1, 5, 0, 2, 4)) + (27783int * mono6(x1, y1, z1, x2, y2, z2, 0, 1, 5, 0, 4, 2))) + ((55566int * mono6(x1, y1, z1, x2, y2, z2, 0, 1, 5, 3, 2, 1)) + ((-83349int) * mono6(x1, y1, z1, x2, y2, z2, 0, 1, 5, 6, 0, 0))))) + (((((-388962int) * mono6(x1, y1, z1, x2, y2, z2, 0, 2, 4, 0, 1, 5)) + (64827int * mono6(x1, y1, z1, x2, y2, z2, 0, 2, 4, 0, 3, 3))) + (((-1323int) * mono6(x1, y1, z1, x2, y2, z2, 0, 2, 4, 0, 5, 1)) + ((-55566int) * mono6(x1, y1, z1, x2, y2, z2, 0, 2, 4, 3, 1, 2)))) + (((1323int * mono6(x1, y1, z1, x2, y2, z2, 0, 2, 4, 3, 3, 0)) + ((-129654int) * mono6(x1, y1, z1, x2, y2, z2, 0, 3, 3, 0, 0, 6))) + ((74088int * mono6(x1, y1, z1, x2, y2, z2, 0, 3, 3, 0, 2, 4)) + ((-7938int) * mono6(x1, y1, z1, x2, y2, z2, 0, 3, 3, 0, 4, 2)))))) + (((((74088int * mono6(x1, y1, z1, x2, y2, z2, 0, 3, 3, 3, 0, 3)) + ((-5292int) * mono6(x1, y1, z1, x2, y2, z2, 0, 3, 3, 3, 2, 1))) + ((13230int * mono6(x1, y1, z1, x2, y2, z2, 0, 3, 3, 6, 0, 0)) + (46305int * mono6(x1, y1, z1, x2, y2, z2, 0, 4, 2, 0, 1, 5)))) + ((((-7497int) * mono6(x1, y1, z1, x2, y2, z2, 0, 4, 2, 0, 3, 3)) + (126int * mono6(x1, y1, z1, x2, y2, z2, 0, 4, 2, 0, 5, 1))) + ((6615int * mono6(x1, y1, z1, x2, y2, z2, 0, 4, 2, 3, 1, 2)) + ((-126int) * mono6(x1, y1, z1, x2, y2, z2, 0, 4, 2, 3, 3, 0))))) + ((((9261int * mono6(x1, y1, z1, x2, y2, z2, 0, 5, 1, 0, 0, 6)) + ((-1764int) * mono6(x1, y1, z1, x2, y2, z2, 0, 5, 1, 0, 2, 4))) + ((63int * mono6(x1, y1, z1, x2, y2, z2, 0, 5, 1, 0, 4, 2)) + (126int * mono6(x1, y1, z1, x2, y2, z2, 0, 5, 1, 3, 2, 1)))) + ((((-189int) * mono6(x1, y1, z1, x2, y2, z2, 0, 5, 1, 6, 0, 0)) + ((-7int) * mono6(x1, y1, z1, x2, y2, z2, 0, 6, 0, 0, 3, 3))) + ((1int * mono6(x1, y1, z1, x2, y2, z2, 0, 6, 0, 0, 5, 1)) + (((-1int) * mono6(x1, y1, z1, x2, y2, z2, 0, 6, 0, 3, 3, 0)) + ((-583443int) * mono6(x1, y1, z1, x2, y2, z2, 1, 0, 5, 2, 1, 3)))))))) + ((((((83349int * mono6(x1, y1, z1, x2, y2, z2, 1, 0, 5, 2, 3, 1)) + ((-83349int) * mono6(x1, y1, z1, x2, y2, z2, 1, 0, 5, 5, 1, 0))) + (((-1166886int) * mono6(x1, y1, z1, x2, y2, z2, 1, 1, 4, 2, 0, 4)) + (166698int * mono6(x1, y1, z1, x2, y2, z2, 1, 1, 4, 2, 2, 2)))) + ((((-166698int) * mono6(x1, y1, z1, x2, y2, z2, 1, 1, 4, 5, 0, 1)) + (111132int * mono6(x1, y1, z1, x2, y2, z2, 1, 2, 3, 2, 1, 3))) + (((-15876int) * mono6(x1, y1, z1, x2, y2, z2, 1, 2, 3, 2, 3, 1)) + (15876int * mono6(x1, y1, z1, x2, y2, z2, 1, 2, 3, 5, 1, 0))))) + ((((166698int * mono6(x1, y1, z1, x2, y2, z2, 1, 3, 2, 2, 0, 4)) + ((-23814int) * mono6(x1, y1, z1, x2, y2, z2, 1, 3, 2, 2, 2, 2))) + ((23814int * mono6(x1, y1, z1, x2, y2, z2, 1, 3, 2, 5, 0, 1)) + ((-3969int) * mono6(x1, y1, z1, x2, y2, z2, 1, 4, 1, 2, 1, 3)))) + (((567int * mono6(x1, y1, z1, x2, y2, z2, 1, 4, 1, 2, 3, 1)) + ((-567int) * mono6(x1, y1, z1, x2, y2, z2, 1, 4, 1, 5, 1, 0))) + (((-583443int) * mono6(x1, y1, z1, x2, y2, z2, 2, 0, 4, 1, 1, 4)) + (83349int * mono6(x1, y1, z1, x2, y2, z2, 2, 0, 4, 1, 3, 2)))))) + ((((((-83349int) * mono6(x1, y1, z1, x2, y2, z2, 2, 0, 4, 4, 1, 1)) + ((-1166886int) * mono6(x1, y1, z1, x2, y2, z2, 2, 1, 3, 1, 0, 5))) + ((222264int * mono6(x1, y1, z1, x2, y2, z2, 2, 1, 3, 1, 2, 3)) + ((-7938int) * mono6(x1, y1, z1, x2, y2, z2, 2, 1, 3, 1, 4, 1)))) + ((((-166698int) * mono6(x1, y1, z1, x2, y2, z2, 2, 1, 3, 4, 0, 2)) + (7938int * mono6(x1, y1, z1, x2, y2, z2, 2, 1, 3, 4, 2, 0))) + ((166698int * mono6(x1, y1, z1, x2, y2, z2, 2, 2, 2, 1, 1, 4)) + ((-23814int) * mono6(x1, y1, z1, x2, y2, z2, 2, 2, 2, 1, 3, 2))))) + ((((23814int * mono6(x1, y1, z1, x2, y2, z2, 2, 2, 2, 4, 1, 1)) + (55566int * mono6(x1, y1, z1, x2, y2, z2, 2, 3, 1, 1, 0, 5))) + (((-10584int) * mono6(x1, y1, z1, x2, y2, z2, 2, 3, 1, 1, 2, 3)) + (378int * mono6(x1, y1, z1, x2, y2, z2, 2, 3, 1, 1, 4, 1)))) + (((7938int * mono6(x1, y1, z1, x2, y2, z2, 2, 3, 1, 4, 0, 2)) + ((-378int) * mono6(x1, y1, z1, x2, y2, z2, 2, 3, 1, 4, 2, 0))) + (((-1323int) * mono6(x1, y1, z1, x2, y2, z2, 2, 4, 0, 1, 1, 4)) + ((189int * mono6(x1, y1, z1, x2, y2, z2, 2, 4, 0, 1, 3, 2)) + ((-189int) * mono6(x1, y1, z1, x2, y2, z2, 2, 4, 0, 4, 1, 1))))))))));
}

/// Polynomial identity behind the closure of the addition formula on the curve.
pub proof fn lemma_add_curve_identity(x1: int, y1: int, z1: int, x2: int, y2: int, z2: int)
    ensures
        ((((((((y1 * y2) + (21 * (z1 * z2))) * ((y1 * y2) - (21 * (z1 * z2)))) + ((63 * (x1 * x2)) * ((x1 * z2) + (z1 * x2)))) * ((((y1 * y2) + (21 * (z1 * z2))) * ((y1 * y2) - (21 * (z1 * z2)))) + ((63 * (x1 * x2)) * ((x1 * z2) + (z1 * x2))))) * ((((y1 * z2) + (z1 * y2)) * ((y1 * y2) + (21 * (z1 * z2)))) + ((3 * (x1 * x2)) * ((x1 * y2) + (y1 * x2))))) - ((((((x1 * y2) + (y1 * x2)) * ((y1 * y2) - (21 * (z1 * z2)))) - ((21 * ((y1 * z2) + (z1 * y2))) * ((x1 * z2) + (z1 * x2)))) * ((((x1 * y2) + (y1 * x2)) * ((y1 * y2) - (21 * (z1 * z2)))) - ((21 * ((y1 * z2) + (z1 * y2))) * ((x1 * z2) + (z1 * x2))))) * ((((x1 * y2) + (y1 * x2)) * ((y1 * y2) - (21 * (z1 * z2)))) - ((21 * ((y1 * z2) + (z1 * y2))) * ((x1 * z2) + (z1 * x2)))))) - (7 * ((((((y1 * z2) + (z1 * y2)) * ((y1 * y2) + (21 * (z1 * z2)))) + ((3 * (x1 * x2)) * ((x1 * y2) + (y1 * x2)))) * ((((y1 * z2) + (z1 * y2)) * ((y1 * y2) + (21 * (z1 * z2)))) + ((3 * (x1 * x2)) * ((x1 * y2) + (y1 * x2))))) * ((((y1 * z2) + (z1 * y2)) * ((y1 * y2) + (21 * (z1 * z2)))) + ((3 * (x1 * x2)) * ((x1 * y2) + (y1 * x2))))))) == (((((((74088int * mono6(x1, y1, z1, x2, y2, z2, 0, 0, 3, 0, 3, 3)) + (((-83349int) * mono6(x1, y1, z1, x2, y2, z2, 0, 0, 3, 3, 1, 2)) + (1323int * mono6(x1, y1, z1, x2, y2, z2, 0, 0, 3, 3, 3, 0)))) + (((111132int * mono6(x1, y1, z1, x2, y2, z2, 0, 1, 2, 0, 2, 4)) + ((-5292int) * mono6(x1, y1, z1, x2, y2, z2, 0, 1, 2, 0, 4, 2))) + ((11907int * mono6(x1, y1, z1, x2, y2, z2, 0, 1, 2, 6, 0, 0)) + (55566int * mono6(x1, y1, z1, x2, y2, z2, 0, 2, 1, 0, 1, 5))))) + (((((-5292int) * mono6(x1, y1, z1, x2, y2, z2, 0, 2, 1, 0, 3, 3)) + (126int * mono6(x1, y1, z1, x2, y2, z2, 0, 2, 1, 0, 5, 1))) + ((11907int * mono6(x1, y1, z1, x2, y2, z2, 0, 2, 1, 3, 1, 2)) + ((-189int) * mono6(x1, y1, z1, x2, y2, z2, 0, 2, 1, 3, 3, 0)))) + (((9261int * mono6(x1, y1, z1, x2, y2, z2, 0, 3, 0, 0, 0, 6)) + ((-1323int) * mono6(x1, y1, z1, x2, y2, z2, 0, 3, 0, 0, 2, 4))) + ((63int * mono6(x1, y1, z1, x2, y2, z2, 0, 3, 0, 0, 4, 2)) + ((-1int) * mono6(x1, y1, z1, x2, y2, z2, 0, 3, 0, 0, 6, 0)))))) + (((((-189int) * mono6(x1, y1, z1, x2, y2, z2, 0, 3, 0, 6, 0, 0)) + (((-83349int) * mono6(x1, y1, z1, x2, y2, z2, 1, 0, 2, 2, 1, 3)) + ((-3969int) * mono6(x1, y1, z1, x2, y2, z2, 1, 0, 2, 2, 3, 1)))) + (((11907int * mono6(x1, y1, z1, x2, y2, z2, 1, 0, 2, 5, 1, 0)) + (83349int * mono6(x1, y1, z1, x2, y2, z2, 1, 1, 1, 2, 0, 4))) + (((-189int) * mono6(x1, y1, z1, x2, y2, z2, 1, 1, 1, 2, 4, 0)) + (23814int * mono6(x1, y1, z1, x2, y2, z2, 1, 1, 1, 5, 0, 1))))) + ((((3969int * mono6(x1, y1, z1, x2, y2, z2, 1, 2, 0, 2, 1, 3)) + (189int * mono6(x1, y1, z1, x2, y2, z2, 1, 2, 0, 2, 3, 1))) + (((-567int) * mono6(x1, y1, z1, x2, y2, z2, 1, 2, 0, 5, 1, 0)) + (23814int * mono6(x1, y1, z1, x2, y2, z2, 2, 0, 1, 4, 1, 1)))) + (((11907int * mono6(x1, y1, z1, x2, y2, z2, 2, 1, 0, 4, 0, 2)) + ((-567int) * mono6(x1, y1, z1, x2, y2, z2, 2, 1, 0, 4, 2, 0))) + ((11907int * mono6(x1, y1, z1, x2, y2, z2, 3, 0, 0, 3, 1, 2)) + ((-189int) * mono6(x1, y1, z1, x2, y2, z2, 3, 0, 0, 3, 3, 0))))))) * ((((x1 * x1) * x1) + (7 * ((z1 * z1) * z1))) - ((y1 * y1) * z1))) + ((((((583443int * mono6(x1, y1, z1, x2, y2, z2, 0, 0, 6, 0, 1, 2)) + ((583443int * mono6(x1, y1, z1, x2, y2, z2, 0, 1, 5, 0, 0, 3)) + ((-27783int) * mono6(x1, y1, z1, x2, y2, z2, 0, 1, 5, 0, 2, 1)))) + (((-83349int) * mono6(x1, y1, z1, x2, y2, z2, 0, 1, 5, 3, 0, 0)) + (((-55566int) * mono6(x1, y1, z1, x2, y2, z2, 0, 2, 4, 0, 1, 2)) + (1323int * mono6(x1, y1, z1, x2, y2, z2, 0, 2, 4, 0, 3, 0))))) + ((((-18522int) * mono6(x1, y1, z1, x2, y2, z2, 0, 3, 3, 0, 0, 3)) + ((7938int * mono6(x1, y1, z1, x2, y2, z2, 0, 3, 3, 0, 2, 1)) + (13230int * mono6(x1, y1, z1, x2, y2, z2, 0, 3, 3, 3, 0, 0)))) + (((6615int * mono6(x1, y1, z1, x2, y2, z2, 0, 4, 2, 0, 1, 2)) + ((-126int) * mono6(x1, y1, z1, x2, y2, z2, 0, 4, 2, 0, 3, 0))) + ((1323int * mono6(x1, y1, z1, x2, y2, z2, 0, 5, 1, 0, 0, 3)) + ((-63int) * mono6(x1, y1, z1, x2, y2, z2, 0, 5, 1, 0, 2, 1)))))) + (((((-189int) * mono6(x1, y1, z1, x2, y2, z2, 0, 5, 1, 3, 0, 0)) + (((-1int) * mono6(x1, y1, z1, x2, y2, z2, 0, 6, 0, 0, 3, 0)) + ((-83349int) * mono6(x1, y1, z1, x2, y2, z2, 1, 0, 5, 2, 1, 0)))) + ((((-166698int) * mono6(x1, y1, z1, x2, y2, z2, 1, 1, 4, 2, 0, 1)) + (15876int * mono6(x1, y1, z1, x2, y2, z2, 1, 2, 3, 2, 1, 0))) + ((23814int * mono6(x1, y1, z1, x2, y2, z2, 1, 3, 2, 2, 0, 1)) + ((-567int) * mono6(x1, y1, z1, x2, y2, z2, 1, 4, 1, 2, 1, 0))))) + ((((-83349int) * mono6(x1, y1, z1, x2, y2, z2, 2, 0, 4, 1, 1, 1)) + (((-166698int) * mono6(x1, y1, z1, x2, y2, z2, 2, 1, 3, 1, 0, 2)) + (7938int * mono6(x1, y1, z1, x2, y2, z2, 2, 1, 3, 1, 2, 0)))) + (((23814int * mono6(x1, y1, z1, x2, y2, z2, 2, 2, 2, 1, 1, 1)) + (7938int * mono6(x1, y1, z1, x2, y2, z2, 2, 3, 1, 1, 0, 2))) + (((-378int) * mono6(x1, y1, z1, x2, y2, z2, 2, 3, 1, 1, 2, 0)) + ((-189int) * mono6(x1, y1, z1, x2, y2, z2, 2, 4, 0, 1, 1, 1))))))) * ((((x2 * x2) * x2) + (7 * ((z2 * z2) * z2))) - ((y2 * y2) * z2)))),
{
    lemma_add_curve_identity_part1(x1, y1, z1, x2, y2, z2);
    lemma_add_curve_identity_part2(x1, y1, z1, x2, y2, z2);
    lemma_add_curve_identity_part3(x1, y1, z1, x2, y2, z2);
    lemma_add_curve_identity_part4(x1, y1, z1, x2, y2, z2);
    lemma_add_curve_identity_part5(x1, y1, z1, x2, y2, z2);
}

/// The addition formula maps two points of the curve to a point of the curve.
pub proof fn lemma_add_curve(x1: int, y1: int, z1: int, x2: int, y2: int, z2: int)
    requires
        modp(((((x1 * x1) * x1) + (7 * ((z1 * z1) * z1))) - ((y1 * y1) * z1))) == 0,
        modp(((((x2 * x2) * x2) + (7 * ((z2 * z2) * z2))) - ((y2 * y2) * z2))) == 0,
    ensures
        modp(((((((((y1 * y2) + (21 * (z1 * z2))) * ((y1 * y2) - (21 * (z1 * z2)))) + ((63 * (x1 * x2)) * ((x1 * z2) + (z1 * x2)))) * ((((y1 * y2) + (21 * (z1 * z2))) * ((y1 * y2) - (21 * (z1 * z2)))) + ((63 * (x1 * x2)) * ((x1 * z2) + (z1 * x2))))) * ((((y1 * z2) + (z1 * y2)) * ((y1 * y2) + (21 * (z1 * z2)))) + ((3 * (x1 * x2)) * ((x1 * y2) + (y1 * x2))))) - ((((((x1 * y2) + (y1 * x2)) * ((y1 * y2) - (21 * (z1 * z2)))) - ((21 * ((y1 * z2) + (z1 * y2))) * ((x1 * z2) + (z1 * x2)))) * ((((x1 * y2) + (y1 * x2)) * ((y1 * y2) - (21 * (z1 * z2)))) - ((21 * ((y1 * z2) + (z1 * y2))) * ((x1 * z2) + (z1 * x2))))) * ((((x1 * y2) + (y1 * x2)) * ((y1 * y2) - (21 * (z1 * z2)))) - ((21 * ((y1 * z2) + (z1 * y2))) * ((x1 * z2) + (z1 * x2)))))) - (7 * ((((((y1 * z2) + (z1 * y2)) * ((y1 * y2) + (21 * (z1 * z2)))) + ((3 * (x1 * x2)) * ((x1 * y2) + (y1 * x2)))) * ((((y1 * z2) + (z1 * y2)) * ((y1 * y2) + (21 * (z1 * z2)))) + ((3 * (x1 * x2)) * ((x1 * y2) + (y1 * x2))))) * ((((y1 * z2) + (z1 * y2)) * ((y1 * y2) + (21 * (z1 * z2)))) + ((3 * (x1 * x2)) * ((x1 * y2) + (y1 * x2)))))))) == 0,
{
    lemma_add_curve_identity(x1, y1, z1, x2, y2, z2);
    lemma_multiple_of_zero((((((74088int * mono6(x1, y1, z1, x2, y2, z2, 0, 0, 3, 0, 3, 3)) + (((-83349int) * mono6(x1, y1, z1, x2, y2, z2, 0, 0, 3, 3, 1, 2)) + (1323int * mono6(x1, y1, z1, x2, y2, z2, 0, 0, 3, 3, 3, 0)))) + (((111132int * mono6(x1, y1, z1, x2, y2, z2, 0, 1, 2, 0, 2, 4)) + ((-5292int) * mono6(x1, y1, z1, x2, y2, z2, 0, 1, 2, 0, 4, 2))) + ((11907int * mono6(x1, y1, z1, x2, y2, z2, 0, 1, 2, 6, 0, 0)) + (55566int * mono6(x1, y1, z1, x2, y2, z2, 0, 2, 1, 0, 1, 5))))) + (((((-5292int) * mono6(x1, y1, z1, x2, y2, z2, 0, 2, 1, 0, 3, 3)) + (126int * mono6(x1, y1, z1, x2, y2, z2, 0, 2, 1, 0, 5, 1))) + ((11907int * mono6(x1, y1, z1, x2, y2, z2, 0, 2, 1, 3, 1, 2)) + ((-189int) * mono6(x1, y1, z1, x2, y2, z2, 0, 2, 1, 3, 3, 0)))) + (((9261int * mono6(x1, y1, z1, x2, y2, z2, 0, 3, 0, 0, 0, 6)) + ((-1323int) * mono6(x1, y1, z1, x2, y2, z2, 0, 3, 0, 0, 2, 4))) + ((63int * mono6(x1, y1, z1, x2, y2, z2, 0, 3, 0, 0, 4, 2)) + ((-1int) * mono6(x1, y1, z1, x2, y2, z2, 0, 3, 0, 0, 6, 0)))))) + (((((-189int) * mono6(x1, y1, z1, x2, y2, z2, 0, 3, 0, 6, 0, 0)) + (((-83349int) * mono6(x1, y1, z1, x2, y2, z2, 1, 0, 2, 2, 1, 3)) + ((-3969int) * mono6(x1, y1, z1, x2, y2, z2, 1, 0, 2, 2, 3, 1)))) + (((11907int * mono6(x1, y1, z1, x2, y2, z2, 1, 0, 2, 5, 1, 0)) + (83349int * mono6(x1, y1, z1, x2, y2, z2, 1, 1, 1, 2, 0, 4))) + (((-189int) * mono6(x1, y1, z1, x2, y2, z2, 1, 1, 1, 2, 4, 0)) + (23814int * mono6(x1, y1, z1, x2, y2, z2, 1, 1, 1, 5, 0, 1))))) + ((((3969int * mono6(x1, y1, z1, x2, y2, z2, 1, 2, 0, 2, 1, 3)) + (189int * mono6(x1, y1, z1, x2, y2, z2, 1, 2, 0, 2, 3, 1))) + (((-567int) * mono6(x1, y1, z1, x2, y2, z2, 1, 2, 0, 5, 1, 0)) + (23814int * mono6(x1, y1, z1, x2, y2, z2, 2, 0, 1, 4, 1, 1)))) + (((11907int * mono6(x1, y1, z1, x2, y2, z2, 2, 1, 0, 4, 0, 2)) + ((-567int) * mono6(x1, y1, z1, x2, y2, z2, 2, 1, 0, 4, 2, 0))) + ((11907int * mono6(x1, y1, z1, x2, y2, z2, 3, 0, 0, 3, 1, 2)) + ((-189int) * mono6(x1, y1, z1, x2, y2, z2, 3, 0, 0, 3, 3, 0))))))), ((((x1 * x1) * x1) + (7 * ((z1 * z1) * z1))) - ((y1 * y1) * z1)));
    lemma_multiple_of_zero((((((583443int * mono6(x1, y1, z1, x2, y2, z2, 0, 0, 6, 0, 1, 2)) + ((583443int * mono6(x1, y1, z1, x2, y2, z2, 0, 1, 5, 0, 0, 3)) + ((-27783int) * mono6(x1, y1, z1, x2, y2, z2, 0, 1, 5, 0, 2, 1)))) + (((-83349int) * mono6(x1, y1, z1, x2, y2, z2, 0, 1, 5, 3, 0, 0)) + (((-55566int) * mono6(x1, y1, z1, x2, y2, z2, 0, 2, 4, 0, 1, 2)) + (1323int * mono6(x1, y1, z1, x2, y2, z2, 0, 2, 4, 0, 3, 0))))) + ((((-18522int) * mono6(x1, y1, z1, x2, y2, z2, 0, 3, 3, 0, 0, 3)) + ((7938int * mono6(x1, y1, z1, x2, y2, z2, 0, 3, 3, 0, 2, 1)) + (13230int * mono6(x1, y1, z1, x2, y2, z2, 0, 3, 3, 3, 0, 0)))) + (((6615int * mono6(x1, y1, z1, x2, y2, z2, 0, 4, 2, 0, 1, 2)) + ((-126int) * mono6(x1, y1, z1, x2, y2, z2, 0, 4, 2, 0, 3, 0))) + ((1323int * mono6(x1, y1, z1, x2, y2, z2, 0, 5, 1, 0, 0, 3)) + ((-63int) * mono6(x1, y1, z1, x2, y2, z2, 0, 5, 1, 0, 2, 1)))))) + (((((-189int) * mono6(x1, y1, z1, x2, y2, z2, 0, 5, 1, 3, 0, 0)) + (((-1int) * mono6(x1, y1, z1, x2, y2, z2, 0, 6, 0, 0, 3, 0)) + ((-83349int) * mono6(x1, y1, z1, x2, y2, z2, 1, 0, 5, 2, 1, 0)))) + ((((-166698int) * mono6(x1, y1, z1, x2, y2, z2, 1, 1, 4, 2, 0, 1)) + (15876int * mono6(x1, y1, z1, x2, y2, z2, 1, 2, 3, 2, 1, 0))) + ((23814int * mono6(x1, y1, z1, x2, y2, z2, 1, 3, 2, 2, 0, 1)) + ((-567int) * mono6(x1, y1, z1, x2, y2, z2, 1, 4, 1, 2, 1, 0))))) + ((((-83349int) * mono6(x1, y1, z1, x2, y2, z2, 2, 0, 4, 1, 1, 1)) + (((-166698int) * mono6(x1, y1, z1, x2, y2, z2, 2, 1, 3, 1, 0, 2)) + (7938int * mono6(x1, y1, z1, x2, y2, z2, 2, 1, 3, 1, 2, 0)))) + (((23814int * mono6(x1, y1, z1, x2, y2, z2, 2, 2, 2, 1, 1, 1)) + (7938int * mono6(x1, y1, z1, x2, y2, z2, 2, 3, 1, 1, 0, 2))) + (((-378int) * mono6(x1, y1, z1, x2, y2, z2, 2, 3, 1, 1, 2, 0)) + ((-189int) * mono6(x1, y1, z1, x2, y2, z2, 2, 4, 0, 1, 1, 1))))))), ((((x2 * x2) * x2) + (7 * ((z2 * z2) * z2))) - ((y2 * y2) * z2)));
    lemma_sum_of_zeros(((((((74088int * mono6(x1, y1, z1, x2, y2, z2, 0, 0, 3, 0, 3, 3)) + (((-83349int) * mono6(x1, y1, z1, x2, y2, z2, 0, 0, 3, 3, 1, 2)) + (1323int * mono6(x1, y1, z1, x2, y2, z2, 0, 0, 3, 3, 3, 0)))) + (((111132int * mono6(x1, y1, z1, x2, y2, z2, 0, 1, 2, 0, 2, 4)) + ((-5292int) * mono6(x1, y1, z1, x2, y2, z2, 0, 1, 2, 0, 4, 2))) + ((11907int * mono6(x1, y1, z1, x2, y2, z2, 0, 1, 2, 6, 0, 0)) + (55566int * mono6(x1, y1, z1, x2, y2, z2, 0, 2, 1, 0, 1, 5))))) + (((((-5292int) * mono6(x1, y1, z1, x2, y2, z2, 0, 2, 1, 0, 3, 3)) + (126int * mono6(x1, y1, z1, x2, y2, z2, 0, 2, 1, 0, 5, 1))) + ((11907int * mono6(x1, y1, z1, x2, y2, z2, 0, 2, 1, 3, 1, 2)) + ((-189int) * mono6(x1, y1, z1, x2, y2, z2, 0, 2, 1, 3, 3, 0)))) + (((9261int * mono6(x1, y1, z1, x2, y2, z2, 0, 3, 0, 0, 0, 6)) + ((-1323int) * mono6(x1, y1, z1, x2, y2, z2, 0, 3, 0, 0, 2, 4))) + ((63int * mono6(x1, y1, z1, x2, y2, z2, 0, 3, 0, 0, 4, 2)) + ((-1int) * mono6(x1, y1, z1, x2, y2, z2, 0, 3, 0, 0, 6, 0)))))) + (((((-189int) * mono6(x1, y1, z1, x2, y2, z2, 0, 3, 0, 6, 0, 0)) + (((-83349int) * mono6(x1, y1, z1, x2, y2, z2, 1, 0, 2, 2, 1, 3)) + ((-3969int) * mono6(x1, y1, z1, x2, y2, z2, 1, 0, 2, 2, 3, 1)))) + (((11907int * mono6(x1, y1, z1, x2, y2, z2, 1, 0, 2, 5, 1, 0)) + (83349int * mono6(x1, y1, z1, x2, y2, z2, 1, 1, 1, 2, 0, 4))) + (((-189int) * mono6(x1, y1, z1, x2, y2, z2, 1, 1, 1, 2, 4, 0)) + (23814int * mono6(x1, y1, z1, x2, y2, z2, 1, 1, 1, 5, 0, 1))))) + ((((3969int * mono6(x1, y1, z1, x2, y2, z2, 1, 2, 0, 2, 1, 3)) + (189int * mono6(x1, y1, z1, x2, y2, z2, 1, 2, 0, 2, 3, 1))) + (((-567int) * mono6(x1, y1, z1, x2, y2, z2, 1, 2, 0, 5, 1, 0)) + (23814int * mono6(x1, y1, z1, x2, y2, z2, 2, 0, 1, 4, 1, 1)))) + (((11907int * mono6(x1, y1, z1, x2, y2, z2, 2, 1, 0, 4, 0, 2)) + ((-567int) * mono6(x1, y1, z1, x2, y2, z2, 2, 1, 0, 4, 2, 0))) + ((11907int * mono6(x1, y1, z1, x2, y2, z2, 3, 0, 0, 3, 1, 2)) + ((-189int) * mono6(x1, y1, z1, x2, y2, z2, 3, 0, 0, 3, 3, 0))))))) * ((((x1 * x1) * x1) + (7 * ((z1 * z1) * z1))) - ((y1 * y1) * z1))), ((((((583443int * mono6(x1, y1, z1, x2, y2, z2, 0, 0, 6, 0, 1, 2)) + ((583443int * mono6(x1, y1, z1, x2, y2, z2, 0, 1, 5, 0, 0, 3)) + ((-27783int) * mono6(x1, y1, z1, x2, y2, z2, 0, 1, 5, 0, 2, 1)))) + (((-83349int) * mono6(x1, y1, z1, x2, y2, z2, 0, 1, 5, 3, 0, 0)) + (((-55566int) * mono6(x1, y1, z1, x2, y2, z2, 0, 2, 4, 0, 1, 2)) + (1323int * mono6(x1, y1, z1, x2, y2, z2, 0, 2, 4, 0, 3, 0))))) + ((((-18522int) * mono6(x1, y1, z1, x2, y2, z2, 0, 3, 3, 0, 0, 3)) + ((7938int * mono6(x1, y1, z1, x2, y2, z2, 0, 3, 3, 0, 2, 1)) + (13230int * mono6(x1, y1, z1, x2, y2, z2, 0, 3, 3, 3, 0, 0)))) + (((6615int * mono6(x1, y1, z1, x2, y2, z2, 0, 4, 2, 0, 1, 2)) + ((-126int) * mono6(x1, y1, z1, x2, y2, z2, 0, 4, 2, 0, 3, 0))) + ((1323int * mono6(x1, y1, z1, x2, y2, z2, 0, 5, 1, 0, 0, 3)) + ((-63int) * mono6(x1, y1, z1, x2, y2, z2, 0, 5, 1, 0, 2, 1)))))) + (((((-189int) * mono6(x1, y1, z1, x2, y2, z2, 0, 5, 1, 3, 0, 0)) + (((-1int) * mono6(x1, y1, z1, x2, y2, z2, 0, 6, 0, 0, 3, 0)) + ((-83349int) * mono6(x1, y1, z1, x2, y2, z2, 1, 0, 5, 2, 1, 0)))) + ((((-166698int) * mono6(x1, y1, z1, x2, y2, z2, 1, 1, 4, 2, 0, 1)) + (15876int * mono6(x1, y1, z1, x2, y2, z2, 1, 2, 3, 2, 1, 0))) + ((23814int * mono6(x1, y1, z1, x2, y2, z2, 1, 3, 2, 2, 0, 1)) + ((-567int) * mono6(x1, y1, z1, x2, y2, z2, 1, 4, 1, 2, 1, 0))))) + ((((-83349int) * mono6(x1, y1, z1, x2, y2, z2, 2, 0, 4, 1, 1, 1)) + (((-166698int) * mono6(x1, y1, z1, x2, y2, z2, 2, 1, 3, 1, 0, 2)) + (7938int * mono6(x1, y1, z1, x2, y2, z2, 2, 1, 3, 1, 2, 0)))) + (((23814int * mono6(x1, y1, z1, x2, y2, z2, 2, 2, 2, 1, 1, 1)) + (7938int * mono6(x1, y1, z1, x2, y2, z2, 2, 3, 1, 1, 0, 2))) + (((-378int) * mono6(x1, y1, z1, x2, y2, z2, 2, 3, 1, 1, 2, 0)) + ((-189int) * mono6(x1, y1, z1, x2, y2, z2, 2, 4, 0, 1, 1, 1))))))) * ((((x2 * x2) * x2) + (7 * ((z2 * z2) * z2))) - ((y2 * y2) * z2))));
}

} // verus!
