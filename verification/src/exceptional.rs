//! The polynomial identity behind the completeness of the addition formula:
//! where it vanishes on `P1 + P2` and on `P1 - P2`, `P2` has `y = 0` or a
//! double with `y = 0`.
use vstd::prelude::*;
use vstd::arithmetic::mul::{lemma_mul_is_distributive_add, lemma_mul_is_distributive_add_other_way};
use vstd::arithmetic::power::{pow, lemma_pow0, lemma_pow1, lemma_pow_adds};
use crate::model::modp;
use crate::laws::lemma_multiple_of_zero;
use crate::expansions::{lemma_coefficient_product, lemma_sum_of_zeros};

verus! {

/// The monomial `x1^a y1^b x2^c y2^d`.
pub open spec fn mono4(x1: int, y1: int, x2: int, y2: int, a: nat, b: nat, c: nat, d: nat) -> int {
    (pow(x1, a) * pow(y1, b)) * (pow(x2, c) * pow(y2, d))
}

/// Exponents add in a product of monomials.
proof fn lemma_mono4_mul(x1: int, y1: int, x2: int, y2: int, a: nat, b: nat, c: nat, d: nat, a2: nat, b2: nat, c2: nat, d2: nat)
    ensures
        mono4(x1, y1, x2, y2, a, b, c, d) * mono4(x1, y1, x2, y2, a2, b2, c2, d2)
            == mono4(x1, y1, x2, y2, a + a2, b + b2, c + c2, d + d2),
{
    lemma_pow_adds(x1, a, a2);
    lemma_pow_adds(y1, b, b2);
    lemma_pow_adds(x2, c, c2);
    lemma_pow_adds(y2, d, d2);
    let (p1, p2, p3, p4) = (pow(x1, a), pow(y1, b), pow(x2, c), pow(y2, d));
    let (q1, q2, q3, q4) = (pow(x1, a2), pow(y1, b2), pow(x2, c2), pow(y2, d2));
    assert((p1 * p2) * (q1 * q2) == (p1 * q1) * (p2 * q2)) by (nonlinear_arith);
    assert((p3 * p4) * (q3 * q4) == (p3 * q3) * (p4 * q4)) by (nonlinear_arith);
    let (a1, b1, a3, b3) = (p1 * p2, p3 * p4, q1 * q2, q3 * q4);
    assert((a1 * b1) * (a3 * b3) == (a1 * a3) * (b1 * b3)) by (nonlinear_arith);
}

/// The variables and one as monomials.
proof fn lemma_mono4_vars(x1: int, y1: int, x2: int, y2: int)
    ensures
        mono4(x1, y1, x2, y2, 0, 0, 0, 0) == 1,
        mono4(x1, y1, x2, y2, 1, 0, 0, 0) == x1,
        mono4(x1, y1, x2, y2, 0, 1, 0, 0) == y1,
        mono4(x1, y1, x2, y2, 0, 0, 1, 0) == x2,
        mono4(x1, y1, x2, y2, 0, 0, 0, 1) == y2,
{
    lemma_pow0(x1);
    lemma_pow0(y1);
    lemma_pow0(x2);
    lemma_pow0(y2);
    lemma_pow1(x1);
    lemma_pow1(y1);
    lemma_pow1(x2);
    lemma_pow1(y2);
}


proof fn lemma_exceptional_identity_part0(x1: int, y1: int, x2: int, y2: int)
    ensures
        (84 * (y2 * ((((y2 * y2) * (y2 * y2)) + (126 * (y2 * y2))) - 1323))) == (((-111132int) * mono4(x1, y1, x2, y2, 0, 0, 0, 1)) + ((10584int * mono4(x1, y1, x2, y2, 0, 0, 0, 3)) + (84int * mono4(x1, y1, x2, y2, 0, 0, 0, 5)))),
{
    lemma_mono4_vars(x1, y1, x2, y2);
    assert(84 == (84int * mono4(x1, y1, x2, y2, 0, 0, 0, 0)));
    assert(y2 == (1int * mono4(x1, y1, x2, y2, 0, 0, 0, 1)));
    assert(y2 == (1int * mono4(x1, y1, x2, y2, 0, 0, 0, 1)));
    assert(y2 == (1int * mono4(x1, y1, x2, y2, 0, 0, 0, 1)));
    assert((y2 * y2) == (1int * mono4(x1, y1, x2, y2, 0, 0, 0, 1)) * (1int * mono4(x1, y1, x2, y2, 0, 0, 0, 1)));
    lemma_coefficient_product(1int, mono4(x1, y1, x2, y2, 0, 0, 0, 1), 1int, mono4(x1, y1, x2, y2, 0, 0, 0, 1));
    lemma_mono4_mul(x1, y1, x2, y2, 0, 0, 0, 1, 0, 0, 0, 1);
    assert((y2 * y2) == (1int * mono4(x1, y1, x2, y2, 0, 0, 0, 2)));
    assert(y2 == (1int * mono4(x1, y1, x2, y2, 0, 0, 0, 1)));
    assert(y2 == (1int * mono4(x1, y1, x2, y2, 0, 0, 0, 1)));
    assert((y2 * y2) == (1int * mono4(x1, y1, x2, y2, 0, 0, 0, 1)) * (1int * mono4(x1, y1, x2, y2, 0, 0, 0, 1)));
    lemma_coefficient_product(1int, mono4(x1, y1, x2, y2, 0, 0, 0, 1), 1int, mono4(x1, y1, x2, y2, 0, 0, 0, 1));
    lemma_mono4_mul(x1, y1, x2, y2, 0, 0, 0, 1, 0, 0, 0, 1);
    assert((y2 * y2) == (1int * mono4(x1, y1, x2, y2, 0, 0, 0, 2)));
    assert(((y2 * y2) * (y2 * y2)) == (1int * mono4(x1, y1, x2, y2, 0, 0, 0, 2)) * (1int * mono4(x1, y1, x2, y2, 0, 0, 0, 2)));
    lemma_coefficient_product(1int, mono4(x1, y1, x2, y2, 0, 0, 0, 2), 1int, mono4(x1, y1, x2, y2, 0, 0, 0, 2));
    lemma_mono4_mul(x1, y1, x2, y2, 0, 0, 0, 2, 0, 0, 0, 2);
    assert(((y2 * y2) * (y2 * y2)) == (1int * mono4(x1, y1, x2, y2, 0, 0, 0, 4)));
    assert(126 == (126int * mono4(x1, y1, x2, y2, 0, 0, 0, 0)));
    assert(y2 == (1int * mono4(x1, y1, x2, y2, 0, 0, 0, 1)));
    assert(y2 == (1int * mono4(x1, y1, x2, y2, 0, 0, 0, 1)));
    assert((y2 * y2) == (1int * mono4(x1, y1, x2, y2, 0, 0, 0, 1)) * (1int * mono4(x1, y1, x2, y2, 0, 0, 0, 1)));
    lemma_coefficient_product(1int, mono4(x1, y1, x2, y2, 0, 0, 0, 1), 1int, mono4(x1, y1, x2, y2, 0, 0, 0, 1));
    lemma_mono4_mul(x1, y1, x2, y2, 0, 0, 0, 1, 0, 0, 0, 1);
    assert((y2 * y2) == (1int * mono4(x1, y1, x2, y2, 0, 0, 0, 2)));
    assert((126 * (y2 * y2)) == (126int * mono4(x1, y1, x2, y2, 0, 0, 0, 0)) * (1int * mono4(x1, y1, x2, y2, 0, 0, 0, 2)));
    lemma_coefficient_product(126int, mono4(x1, y1, x2, y2, 0, 0, 0, 0), 1int, mono4(x1, y1, x2, y2, 0, 0, 0, 2));
    lemma_mono4_mul(x1, y1, x2, y2, 0, 0, 0, 0, 0, 0, 0, 2);
    assert((126 * (y2 * y2)) == (126int * mono4(x1, y1, x2, y2, 0, 0, 0, 2)));
    assert((((y2 * y2) * (y2 * y2)) + (126 * (y2 * y2))) == ((126int * mono4(x1, y1, x2, y2, 0, 0, 0, 2)) + (1int * mono4(x1, y1, x2, y2, 0, 0, 0, 4))));
    assert(1323 == (1323int * mono4(x1, y1, x2, y2, 0, 0, 0, 0)));
    assert(((((y2 * y2) * (y2 * y2)) + (126 * (y2 * y2))) - 1323) == (((-1323int) * mono4(x1, y1, x2, y2, 0, 0, 0, 0)) + ((126int * mono4(x1, y1, x2, y2, 0, 0, 0, 2)) + (1int * mono4(x1, y1, x2, y2, 0, 0, 0, 4)))));
    assert((y2 * ((((y2 * y2) * (y2 * y2)) + (126 * (y2 * y2))) - 1323)) == (1int * mono4(x1, y1, x2, y2, 0, 0, 0, 1)) * (((-1323int) * mono4(x1, y1, x2, y2, 0, 0, 0, 0)) + ((126int * mono4(x1, y1, x2, y2, 0, 0, 0, 2)) + (1int * mono4(x1, y1, x2, y2, 0, 0, 0, 4)))));
    lemma_mul_is_distributive_add((1int * mono4(x1, y1, x2, y2, 0, 0, 0, 1)), ((-1323int) * mono4(x1, y1, x2, y2, 0, 0, 0, 0)), ((126int * mono4(x1, y1, x2, y2, 0, 0, 0, 2)) + (1int * mono4(x1, y1, x2, y2, 0, 0, 0, 4))));
    lemma_mul_is_distributive_add((1int * mono4(x1, y1, x2, y2, 0, 0, 0, 1)), (126int * mono4(x1, y1, x2, y2, 0, 0, 0, 2)), (1int * mono4(x1, y1, x2, y2, 0, 0, 0, 4)));
    lemma_coefficient_product(1int, mono4(x1, y1, x2, y2, 0, 0, 0, 1), (-1323int), mono4(x1, y1, x2, y2, 0, 0, 0, 0));
    lemma_mono4_mul(x1, y1, x2, y2, 0, 0, 0, 1, 0, 0, 0, 0);
    lemma_coefficient_product(1int, mono4(x1, y1, x2, y2, 0, 0, 0, 1), 126int, mono4(x1, y1, x2, y2, 0, 0, 0, 2));
    lemma_mono4_mul(x1, y1, x2, y2, 0, 0, 0, 1, 0, 0, 0, 2);
    lemma_coefficient_product(1int, mono4(x1, y1, x2, y2, 0, 0, 0, 1), 1int, mono4(x1, y1, x2, y2, 0, 0, 0, 4));
    lemma_mono4_mul(x1, y1, x2, y2, 0, 0, 0, 1, 0, 0, 0, 4);
    assert((y2 * ((((y2 * y2) * (y2 * y2)) + (126 * (y2 * y2))) - 1323)) == (((-1323int) * mono4(x1, y1, x2, y2, 0, 0, 0, 1)) + ((126int * mono4(x1, y1, x2, y2, 0, 0, 0, 3)) + (1int * mono4(x1, y1, x2, y2, 0, 0, 0, 5)))));
    assert((84 * (y2 * ((((y2 * y2) * (y2 * y2)) + (126 * (y2 * y2))) - 1323))) == (84int * mono4(x1, y1, x2, y2, 0, 0, 0, 0)) * (((-1323int) * mono4(x1, y1, x2, y2, 0, 0, 0, 1)) + ((126int * mono4(x1, y1, x2, y2, 0, 0, 0, 3)) + (1int * mono4(x1, y1, x2, y2, 0, 0, 0, 5)))));
    lemma_mul_is_distributive_add((84int * mono4(x1, y1, x2, y2, 0, 0, 0, 0)), ((-1323int) * mono4(x1, y1, x2, y2, 0, 0, 0, 1)), ((126int * mono4(x1, y1, x2, y2, 0, 0, 0, 3)) + (1int * mono4(x1, y1, x2, y2, 0, 0, 0, 5))));
    lemma_mul_is_distributive_add((84int * mono4(x1, y1, x2, y2, 0, 0, 0, 0)), (126int * mono4(x1, y1, x2, y2, 0, 0, 0, 3)), (1int * mono4(x1, y1, x2, y2, 0, 0, 0, 5)));
    lemma_coefficient_product(84int, mono4(x1, y1, x2, y2, 0, 0, 0, 0), (-1323int), mono4(x1, y1, x2, y2, 0, 0, 0, 1));
    lemma_mono4_mul(x1, y1, x2, y2, 0, 0, 0, 0, 0, 0, 0, 1);
    lemma_coefficient_product(84int, mono4(x1, y1, x2, y2, 0, 0, 0, 0), 126int, mono4(x1, y1, x2, y2, 0, 0, 0, 3));
    lemma_mono4_mul(x1, y1, x2, y2, 0, 0, 0, 0, 0, 0, 0, 3);
    lemma_coefficient_product(84int, mono4(x1, y1, x2, y2, 0, 0, 0, 0), 1int, mono4(x1, y1, x2, y2, 0, 0, 0, 5));
    lemma_mono4_mul(x1, y1, x2, y2, 0, 0, 0, 0, 0, 0, 0, 5);
    assert((84 * (y2 * ((((y2 * y2) * (y2 * y2)) + (126 * (y2 * y2))) - 1323))) == (((-111132int) * mono4(x1, y1, x2, y2, 0, 0, 0, 1)) + ((10584int * mono4(x1, y1, x2, y2, 0, 0, 0, 3)) + (84int * mono4(x1, y1, x2, y2, 0, 0, 0, 5)))));
}

proof fn lemma_exceptional_identity_part1(x1: int, y1: int, x2: int, y2: int)
    ensures
        ((((((-29106int) * mono4(x1, y1, x2, y2, 0, 0, 0, 1)) + ((-27783int) * mono4(x1, y1, x2, y2, 0, 1, 0, 0))) + (((-3696int) * mono4(x1, y1, x2, y2, 0, 0, 0, 3)) + (((-3969int) * mono4(x1, y1, x2, y2, 0, 1, 0, 2)) + ((-1764int) * mono4(x1, y1, x2, y2, 0, 2, 0, 1))))) + (((1575int * mono4(x1, y1, x2, y2, 0, 0, 3, 1)) + ((-3969int) * mono4(x1, y1, x2, y2, 0, 1, 3, 0))) + (((-4977int) * mono4(x1, y1, x2, y2, 1, 0, 2, 1)) + (((-7938int) * mono4(x1, y1, x2, y2, 1, 1, 2, 0)) + ((-5292int) * mono4(x1, y1, x2, y2, 2, 0, 1, 1)))))) * ((((x1 * x1) * x1) + 7) - (y1 * y1))) == ((((((-203742int) * mono4(x1, y1, x2, y2, 0, 0, 0, 1)) + (((-194481int) * mono4(x1, y1, x2, y2, 0, 1, 0, 0)) + ((-25872int) * mono4(x1, y1, x2, y2, 0, 0, 0, 3)))) + ((((-27783int) * mono4(x1, y1, x2, y2, 0, 1, 0, 2)) + (16758int * mono4(x1, y1, x2, y2, 0, 2, 0, 1))) + ((27783int * mono4(x1, y1, x2, y2, 0, 3, 0, 0)) + (11025int * mono4(x1, y1, x2, y2, 0, 0, 3, 1))))) + ((((-27783int) * mono4(x1, y1, x2, y2, 0, 1, 3, 0)) + (((-34839int) * mono4(x1, y1, x2, y2, 1, 0, 2, 1)) + ((-55566int) * mono4(x1, y1, x2, y2, 1, 1, 2, 0)))) + ((((-37044int) * mono4(x1, y1, x2, y2, 2, 0, 1, 1)) + ((-29106int) * mono4(x1, y1, x2, y2, 3, 0, 0, 1))) + (((-27783int) * mono4(x1, y1, x2, y2, 3, 1, 0, 0)) + (3696int * mono4(x1, y1, x2, y2, 0, 2, 0, 3)))))) + ((((3969int * mono4(x1, y1, x2, y2, 0, 3, 0, 2)) + ((1764int * mono4(x1, y1, x2, y2, 0, 4, 0, 1)) + ((-1575int) * mono4(x1, y1, x2, y2, 0, 2, 3, 1)))) + (((3969int * mono4(x1, y1, x2, y2, 0, 3, 3, 0)) + (4977int * mono4(x1, y1, x2, y2, 1, 2, 2, 1))) + ((7938int * mono4(x1, y1, x2, y2, 1, 3, 2, 0)) + (5292int * mono4(x1, y1, x2, y2, 2, 2, 1, 1))))) + (((((-3696int) * mono4(x1, y1, x2, y2, 3, 0, 0, 3)) + ((-3969int) * mono4(x1, y1, x2, y2, 3, 1, 0, 2))) + (((-1764int) * mono4(x1, y1, x2, y2, 3, 2, 0, 1)) + (1575int * mono4(x1, y1, x2, y2, 3, 0, 3, 1)))) + ((((-3969int) * mono4(x1, y1, x2, y2, 3, 1, 3, 0)) + ((-4977int) * mono4(x1, y1, x2, y2, 4, 0, 2, 1))) + (((-7938int) * mono4(x1, y1, x2, y2, 4, 1, 2, 0)) + ((-5292int) * mono4(x1, y1, x2, y2, 5, 0, 1, 1))))))),
{
    lemma_mono4_vars(x1, y1, x2, y2);
    assert(x1 == (1int * mono4(x1, y1, x2, y2, 1, 0, 0, 0)));
    assert(x1 == (1int * mono4(x1, y1, x2, y2, 1, 0, 0, 0)));
    assert((x1 * x1) == (1int * mono4(x1, y1, x2, y2, 1, 0, 0, 0)) * (1int * mono4(x1, y1, x2, y2, 1, 0, 0, 0)));
    lemma_coefficient_product(1int, mono4(x1, y1, x2, y2, 1, 0, 0, 0), 1int, mono4(x1, y1, x2, y2, 1, 0, 0, 0));
    lemma_mono4_mul(x1, y1, x2, y2, 1, 0, 0, 0, 1, 0, 0, 0);
    assert((x1 * x1) == (1int * mono4(x1, y1, x2, y2, 2, 0, 0, 0)));
    assert(x1 == (1int * mono4(x1, y1, x2, y2, 1, 0, 0, 0)));
    assert(((x1 * x1) * x1) == (1int * mono4(x1, y1, x2, y2, 2, 0, 0, 0)) * (1int * mono4(x1, y1, x2, y2, 1, 0, 0, 0)));
    lemma_coefficient_product(1int, mono4(x1, y1, x2, y2, 2, 0, 0, 0), 1int, mono4(x1, y1, x2, y2, 1, 0, 0, 0));
    lemma_mono4_mul(x1, y1, x2, y2, 2, 0, 0, 0, 1, 0, 0, 0);
    assert(((x1 * x1) * x1) == (1int * mono4(x1, y1, x2, y2, 3, 0, 0, 0)));
    assert(7 == (7int * mono4(x1, y1, x2, y2, 0, 0, 0, 0)));
    assert((((x1 * x1) * x1) + 7) == ((7int * mono4(x1, y1, x2, y2, 0, 0, 0, 0)) + (1int * mono4(x1, y1, x2, y2, 3, 0, 0, 0))));
    assert(y1 == (1int * mono4(x1, y1, x2, y2, 0, 1, 0, 0)));
    assert(y1 == (1int * mono4(x1, y1, x2, y2, 0, 1, 0, 0)));
    assert((y1 * y1) == (1int * mono4(x1, y1, x2, y2, 0, 1, 0, 0)) * (1int * mono4(x1, y1, x2, y2, 0, 1, 0, 0)));
    lemma_coefficient_product(1int, mono4(x1, y1, x2, y2, 0, 1, 0, 0), 1int, mono4(x1, y1, x2, y2, 0, 1, 0, 0));
    lemma_mono4_mul(x1, y1, x2, y2, 0, 1, 0, 0, 0, 1, 0, 0);
    assert((y1 * y1) == (1int * mono4(x1, y1, x2, y2, 0, 2, 0, 0)));
    assert(((((x1 * x1) * x1) + 7) - (y1 * y1)) == ((7int * mono4(x1, y1, x2, y2, 0, 0, 0, 0)) + (((-1int) * mono4(x1, y1, x2, y2, 0, 2, 0, 0)) + (1int * mono4(x1, y1, x2, y2, 3, 0, 0, 0)))));
    assert(((((((-29106int) * mono4(x1, y1, x2, y2, 0, 0, 0, 1)) + ((-27783int) * mono4(x1, y1, x2, y2, 0, 1, 0, 0))) + (((-3696int) * mono4(x1, y1, x2, y2, 0, 0, 0, 3)) + (((-3969int) * mono4(x1, y1, x2, y2, 0, 1, 0, 2)) + ((-1764int) * mono4(x1, y1, x2, y2, 0, 2, 0, 1))))) + (((1575int * mono4(x1, y1, x2, y2, 0, 0, 3, 1)) + ((-3969int) * mono4(x1, y1, x2, y2, 0, 1, 3, 0))) + (((-4977int) * mono4(x1, y1, x2, y2, 1, 0, 2, 1)) + (((-7938int) * mono4(x1, y1, x2, y2, 1, 1, 2, 0)) + ((-5292int) * mono4(x1, y1, x2, y2, 2, 0, 1, 1)))))) * ((((x1 * x1) * x1) + 7) - (y1 * y1))) == (((((-29106int) * mono4(x1, y1, x2, y2, 0, 0, 0, 1)) + ((-27783int) * mono4(x1, y1, x2, y2, 0, 1, 0, 0))) + (((-3696int) * mono4(x1, y1, x2, y2, 0, 0, 0, 3)) + (((-3969int) * mono4(x1, y1, x2, y2, 0, 1, 0, 2)) + ((-1764int) * mono4(x1, y1, x2, y2, 0, 2, 0, 1))))) + (((1575int * mono4(x1, y1, x2, y2, 0, 0, 3, 1)) + ((-3969int) * mono4(x1, y1, x2, y2, 0, 1, 3, 0))) + (((-4977int) * mono4(x1, y1, x2, y2, 1, 0, 2, 1)) + (((-7938int) * mono4(x1, y1, x2, y2, 1, 1, 2, 0)) + ((-5292int) * mono4(x1, y1, x2, y2, 2, 0, 1, 1)))))) * ((7int * mono4(x1, y1, x2, y2, 0, 0, 0, 0)) + (((-1int) * mono4(x1, y1, x2, y2, 0, 2, 0, 0)) + (1int * mono4(x1, y1, x2, y2, 3, 0, 0, 0)))));
    lemma_mul_is_distributive_add_other_way(((7int * mono4(x1, y1, x2, y2, 0, 0, 0, 0)) + (((-1int) * mono4(x1, y1, x2, y2, 0, 2, 0, 0)) + (1int * mono4(x1, y1, x2, y2, 3, 0, 0, 0)))), ((((-29106int) * mono4(x1, y1, x2, y2, 0, 0, 0, 1)) + ((-27783int) * mono4(x1, y1, x2, y2, 0, 1, 0, 0))) + (((-3696int) * mono4(x1, y1, x2, y2, 0, 0, 0, 3)) + (((-3969int) * mono4(x1, y1, x2, y2, 0, 1, 0, 2)) + ((-1764int) * mono4(x1, y1, x2, y2, 0, 2, 0, 1))))), (((1575int * mono4(x1, y1, x2, y2, 0, 0, 3, 1)) + ((-3969int) * mono4(x1, y1, x2, y2, 0, 1, 3, 0))) + (((-4977int) * mono4(x1, y1, x2, y2, 1, 0, 2, 1)) + (((-7938int) * mono4(x1, y1, x2, y2, 1, 1, 2, 0)) + ((-5292int) * mono4(x1, y1, x2, y2, 2, 0, 1, 1))))));
    lemma_mul_is_distributive_add_other_way(((7int * mono4(x1, y1, x2, y2, 0, 0, 0, 0)) + (((-1int) * mono4(x1, y1, x2, y2, 0, 2, 0, 0)) + (1int * mono4(x1, y1, x2, y2, 3, 0, 0, 0)))), (((-29106int) * mono4(x1, y1, x2, y2, 0, 0, 0, 1)) + ((-27783int) * mono4(x1, y1, x2, y2, 0, 1, 0, 0))), (((-3696int) * mono4(x1, y1, x2, y2, 0, 0, 0, 3)) + (((-3969int) * mono4(x1, y1, x2, y2, 0, 1, 0, 2)) + ((-1764int) * mono4(x1, y1, x2, y2, 0, 2, 0, 1)))));
    lemma_mul_is_distributive_add_other_way(((7int * mono4(x1, y1, x2, y2, 0, 0, 0, 0)) + (((-1int) * mono4(x1, y1, x2, y2, 0, 2, 0, 0)) + (1int * mono4(x1, y1, x2, y2, 3, 0, 0, 0)))), ((-29106int) * mono4(x1, y1, x2, y2, 0, 0, 0, 1)), ((-27783int) * mono4(x1, y1, x2, y2, 0, 1, 0, 0)));
    lemma_mul_is_distributive_add_other_way(((7int * mono4(x1, y1, x2, y2, 0, 0, 0, 0)) + (((-1int) * mono4(x1, y1, x2, y2, 0, 2, 0, 0)) + (1int * mono4(x1, y1, x2, y2, 3, 0, 0, 0)))), ((-3696int) * mono4(x1, y1, x2, y2, 0, 0, 0, 3)), (((-3969int) * mono4(x1, y1, x2, y2, 0, 1, 0, 2)) + ((-1764int) * mono4(x1, y1, x2, y2, 0, 2, 0, 1))));
    lemma_mul_is_distributive_add_other_way(((7int * mono4(x1, y1, x2, y2, 0, 0, 0, 0)) + (((-1int) * mono4(x1, y1, x2, y2, 0, 2, 0, 0)) + (1int * mono4(x1, y1, x2, y2, 3, 0, 0, 0)))), ((-3969int) * mono4(x1, y1, x2, y2, 0, 1, 0, 2)), ((-1764int) * mono4(x1, y1, x2, y2, 0, 2, 0, 1)));
    lemma_mul_is_distributive_add_other_way(((7int * mono4(x1, y1, x2, y2, 0, 0, 0, 0)) + (((-1int) * mono4(x1, y1, x2, y2, 0, 2, 0, 0)) + (1int * mono4(x1, y1, x2, y2, 3, 0, 0, 0)))), ((1575int * mono4(x1, y1, x2, y2, 0, 0, 3, 1)) + ((-3969int) * mono4(x1, y1, x2, y2, 0, 1, 3, 0))), (((-4977int) * mono4(x1, y1, x2, y2, 1, 0, 2, 1)) + (((-7938int) * mono4(x1, y1, x2, y2, 1, 1, 2, 0)) + ((-5292int) * mono4(x1, y1, x2, y2, 2, 0, 1, 1)))));
    lemma_mul_is_distributive_add_other_way(((7int * mono4(x1, y1, x2, y2, 0, 0, 0, 0)) + (((-1int) * mono4(x1, y1, x2, y2, 0, 2, 0, 0)) + (1int * mono4(x1, y1, x2, y2, 3, 0, 0, 0)))), (1575int * mono4(x1, y1, x2, y2, 0, 0, 3, 1)), ((-3969int) * mono4(x1, y1, x2, y2, 0, 1, 3, 0)));
    lemma_mul_is_distributive_add_other_way(((7int * mono4(x1, y1, x2, y2, 0, 0, 0, 0)) + (((-1int) * mono4(x1, y1, x2, y2, 0, 2, 0, 0)) + (1int * mono4(x1, y1, x2, y2, 3, 0, 0, 0)))), ((-4977int) * mono4(x1, y1, x2, y2, 1, 0, 2, 1)), (((-7938int) * mono4(x1, y1, x2, y2, 1, 1, 2, 0)) + ((-5292int) * mono4(x1, y1, x2, y2, 2, 0, 1, 1))));
    lemma_mul_is_distributive_add_other_way(((7int * mono4(x1, y1, x2, y2, 0, 0, 0, 0)) + (((-1int) * mono4(x1, y1, x2, y2, 0, 2, 0, 0)) + (1int * mono4(x1, y1, x2, y2, 3, 0, 0, 0)))), ((-7938int) * mono4(x1, y1, x2, y2, 1, 1, 2, 0)), ((-5292int) * mono4(x1, y1, x2, y2, 2, 0, 1, 1)));
    lemma_mul_is_distributive_add(((-29106int) * mono4(x1, y1, x2, y2, 0, 0, 0, 1)), (7int * mono4(x1, y1, x2, y2, 0, 0, 0, 0)), (((-1int) * mono4(x1, y1, x2, y2, 0, 2, 0, 0)) + (1int * mono4(x1, y1, x2, y2, 3, 0, 0, 0))));
    lemma_mul_is_distributive_add(((-29106int) * mono4(x1, y1, x2, y2, 0, 0, 0, 1)), ((-1int) * mono4(x1, y1, x2, y2, 0, 2, 0, 0)), (1int * mono4(x1, y1, x2, y2, 3, 0, 0, 0)));
    lemma_coefficient_product((-29106int), mono4(x1, y1, x2, y2, 0, 0, 0, 1), 7int, mono4(x1, y1, x2, y2, 0, 0, 0, 0));
    lemma_mono4_mul(x1, y1, x2, y2, 0, 0, 0, 1, 0, 0, 0, 0);
    lemma_coefficient_product((-29106int), mono4(x1, y1, x2, y2, 0, 0, 0, 1), (-1int), mono4(x1, y1, x2, y2, 0, 2, 0, 0));
    lemma_mono4_mul(x1, y1, x2, y2, 0, 0, 0, 1, 0, 2, 0, 0);
    lemma_coefficient_product((-29106int), mono4(x1, y1, x2, y2, 0, 0, 0, 1), 1int, mono4(x1, y1, x2, y2, 3, 0, 0, 0));
    lemma_mono4_mul(x1, y1, x2, y2, 0, 0, 0, 1, 3, 0, 0, 0);
    lemma_mul_is_distributive_add(((-27783int) * mono4(x1, y1, x2, y2, 0, 1, 0, 0)), (7int * mono4(x1, y1, x2, y2, 0, 0, 0, 0)), (((-1int) * mono4(x1, y1, x2, y2, 0, 2, 0, 0)) + (1int * mono4(x1, y1, x2, y2, 3, 0, 0, 0))));
    lemma_mul_is_distributive_add(((-27783int) * mono4(x1, y1, x2, y2, 0, 1, 0, 0)), ((-1int) * mono4(x1, y1, x2, y2, 0, 2, 0, 0)), (1int * mono4(x1, y1, x2, y2, 3, 0, 0, 0)));
    lemma_coefficient_product((-27783int), mono4(x1, y1, x2, y2, 0, 1, 0, 0), 7int, mono4(x1, y1, x2, y2, 0, 0, 0, 0));
    lemma_mono4_mul(x1, y1, x2, y2, 0, 1, 0, 0, 0, 0, 0, 0);
    lemma_coefficient_product((-27783int), mono4(x1, y1, x2, y2, 0, 1, 0, 0), (-1int), mono4(x1, y1, x2, y2, 0, 2, 0, 0));
    lemma_mono4_mul(x1, y1, x2, y2, 0, 1, 0, 0, 0, 2, 0, 0);
    lemma_coefficient_product((-27783int), mono4(x1, y1, x2, y2, 0, 1, 0, 0), 1int, mono4(x1, y1, x2, y2, 3, 0, 0, 0));
    lemma_mono4_mul(x1, y1, x2, y2, 0, 1, 0, 0, 3, 0, 0, 0);
    lemma_mul_is_distributive_add(((-3696int) * mono4(x1, y1, x2, y2, 0, 0, 0, 3)), (7int * mono4(x1, y1, x2, y2, 0, 0, 0, 0)), (((-1int) * mono4(x1, y1, x2, y2, 0, 2, 0, 0)) + (1int * mono4(x1, y1, x2, y2, 3, 0, 0, 0))));
    lemma_mul_is_distributive_add(((-3696int) * mono4(x1, y1, x2, y2, 0, 0, 0, 3)), ((-1int) * mono4(x1, y1, x2, y2, 0, 2, 0, 0)), (1int * mono4(x1, y1, x2, y2, 3, 0, 0, 0)));
    lemma_coefficient_product((-3696int), mono4(x1, y1, x2, y2, 0, 0, 0, 3), 7int, mono4(x1, y1, x2, y2, 0, 0, 0, 0));
    lemma_mono4_mul(x1, y1, x2, y2, 0, 0, 0, 3, 0, 0, 0, 0);
    lemma_coefficient_product((-3696int), mono4(x1, y1, x2, y2, 0, 0, 0, 3), (-1int), mono4(x1, y1, x2, y2, 0, 2, 0, 0));
    lemma_mono4_mul(x1, y1, x2, y2, 0, 0, 0, 3, 0, 2, 0, 0);
    lemma_coefficient_product((-3696int), mono4(x1, y1, x2, y2, 0, 0, 0, 3), 1int, mono4(x1, y1, x2, y2, 3, 0, 0, 0));
    lemma_mono4_mul(x1, y1, x2, y2, 0, 0, 0, 3, 3, 0, 0, 0);
    lemma_mul_is_distributive_add(((-3969int) * mono4(x1, y1, x2, y2, 0, 1, 0, 2)), (7int * mono4(x1, y1, x2, y2, 0, 0, 0, 0)), (((-1int) * mono4(x1, y1, x2, y2, 0, 2, 0, 0)) + (1int * mono4(x1, y1, x2, y2, 3, 0, 0, 0))));
    lemma_mul_is_distributive_add(((-3969int) * mono4(x1, y1, x2, y2, 0, 1, 0, 2)), ((-1int) * mono4(x1, y1, x2, y2, 0, 2, 0, 0)), (1int * mono4(x1, y1, x2, y2, 3, 0, 0, 0)));
    lemma_coefficient_product((-3969int), mono4(x1, y1, x2, y2, 0, 1, 0, 2), 7int, mono4(x1, y1, x2, y2, 0, 0, 0, 0));
    lemma_mono4_mul(x1, y1, x2, y2, 0, 1, 0, 2, 0, 0, 0, 0);
    lemma_coefficient_product((-3969int), mono4(x1, y1, x2, y2, 0, 1, 0, 2), (-1int), mono4(x1, y1, x2, y2, 0, 2, 0, 0));
    lemma_mono4_mul(x1, y1, x2, y2, 0, 1, 0, 2, 0, 2, 0, 0);
    lemma_coefficient_product((-3969int), mono4(x1, y1, x2, y2, 0, 1, 0, 2), 1int, mono4(x1, y1, x2, y2, 3, 0, 0, 0));
    lemma_mono4_mul(x1, y1, x2, y2, 0, 1, 0, 2, 3, 0, 0, 0);
    lemma_mul_is_distributive_add(((-1764int) * mono4(x1, y1, x2, y2, 0, 2, 0, 1)), (7int * mono4(x1, y1, x2, y2, 0, 0, 0, 0)), (((-1int) * mono4(x1, y1, x2, y2, 0, 2, 0, 0)) + (1int * mono4(x1, y1, x2, y2, 3, 0, 0, 0))));
    lemma_mul_is_distributive_add(((-1764int) * mono4(x1, y1, x2, y2, 0, 2, 0, 1)), ((-1int) * mono4(x1, y1, x2, y2, 0, 2, 0, 0)), (1int * mono4(x1, y1, x2, y2, 3, 0, 0, 0)));
    lemma_coefficient_product((-1764int), mono4(x1, y1, x2, y2, 0, 2, 0, 1), 7int, mono4(x1, y1, x2, y2, 0, 0, 0, 0));
    lemma_mono4_mul(x1, y1, x2, y2, 0, 2, 0, 1, 0, 0, 0, 0);
    lemma_coefficient_product((-1764int), mono4(x1, y1, x2, y2, 0, 2, 0, 1), (-1int), mono4(x1, y1, x2, y2, 0, 2, 0, 0));
    lemma_mono4_mul(x1, y1, x2, y2, 0, 2, 0, 1, 0, 2, 0, 0);
    lemma_coefficient_product((-1764int), mono4(x1, y1, x2, y2, 0, 2, 0, 1), 1int, mono4(x1, y1, x2, y2, 3, 0, 0, 0));
    lemma_mono4_mul(x1, y1, x2, y2, 0, 2, 0, 1, 3, 0, 0, 0);
    lemma_mul_is_distributive_add((1575int * mono4(x1, y1, x2, y2, 0, 0, 3, 1)), (7int * mono4(x1, y1, x2, y2, 0, 0, 0, 0)), (((-1int) * mono4(x1, y1, x2, y2, 0, 2, 0, 0)) + (1int * mono4(x1, y1, x2, y2, 3, 0, 0, 0))));
    lemma_mul_is_distributive_add((1575int * mono4(x1, y1, x2, y2, 0, 0, 3, 1)), ((-1int) * mono4(x1, y1, x2, y2, 0, 2, 0, 0)), (1int * mono4(x1, y1, x2, y2, 3, 0, 0, 0)));
    lemma_coefficient_product(1575int, mono4(x1, y1, x2, y2, 0, 0, 3, 1), 7int, mono4(x1, y1, x2, y2, 0, 0, 0, 0));
    lemma_mono4_mul(x1, y1, x2, y2, 0, 0, 3, 1, 0, 0, 0, 0);
    lemma_coefficient_product(1575int, mono4(x1, y1, x2, y2, 0, 0, 3, 1), (-1int), mono4(x1, y1, x2, y2, 0, 2, 0, 0));
    lemma_mono4_mul(x1, y1, x2, y2, 0, 0, 3, 1, 0, 2, 0, 0);
    lemma_coefficient_product(1575int, mono4(x1, y1, x2, y2, 0, 0, 3, 1), 1int, mono4(x1, y1, x2, y2, 3, 0, 0, 0));
    lemma_mono4_mul(x1, y1, x2, y2, 0, 0, 3, 1, 3, 0, 0, 0);
    lemma_mul_is_distributive_add(((-3969int) * mono4(x1, y1, x2, y2, 0, 1, 3, 0)), (7int * mono4(x1, y1, x2, y2, 0, 0, 0, 0)), (((-1int) * mono4(x1, y1, x2, y2, 0, 2, 0, 0)) + (1int * mono4(x1, y1, x2, y2, 3, 0, 0, 0))));
    lemma_mul_is_distributive_add(((-3969int) * mono4(x1, y1, x2, y2, 0, 1, 3, 0)), ((-1int) * mono4(x1, y1, x2, y2, 0, 2, 0, 0)), (1int * mono4(x1, y1, x2, y2, 3, 0, 0, 0)));
    lemma_coefficient_product((-3969int), mono4(x1, y1, x2, y2, 0, 1, 3, 0), 7int, mono4(x1, y1, x2, y2, 0, 0, 0, 0));
    lemma_mono4_mul(x1, y1, x2, y2, 0, 1, 3, 0, 0, 0, 0, 0);
    lemma_coefficient_product((-3969int), mono4(x1, y1, x2, y2, 0, 1, 3, 0), (-1int), mono4(x1, y1, x2, y2, 0, 2, 0, 0));
    lemma_mono4_mul(x1, y1, x2, y2, 0, 1, 3, 0, 0, 2, 0, 0);
    lemma_coefficient_product((-3969int), mono4(x1, y1, x2, y2, 0, 1, 3, 0), 1int, mono4(x1, y1, x2, y2, 3, 0, 0, 0));
    lemma_mono4_mul(x1, y1, x2, y2, 0, 1, 3, 0, 3, 0, 0, 0);
    lemma_mul_is_distributive_add(((-4977int) * mono4(x1, y1, x2, y2, 1, 0, 2, 1)), (7int * mono4(x1, y1, x2, y2, 0, 0, 0, 0)), (((-1int) * mono4(x1, y1, x2, y2, 0, 2, 0, 0)) + (1int * mono4(x1, y1, x2, y2, 3, 0, 0, 0))));
    lemma_mul_is_distributive_add(((-4977int) * mono4(x1, y1, x2, y2, 1, 0, 2, 1)), ((-1int) * mono4(x1, y1, x2, y2, 0, 2, 0, 0)), (1int * mono4(x1, y1, x2, y2, 3, 0, 0, 0)));
    lemma_coefficient_product((-4977int), mono4(x1, y1, x2, y2, 1, 0, 2, 1), 7int, mono4(x1, y1, x2, y2, 0, 0, 0, 0));
    lemma_mono4_mul(x1, y1, x2, y2, 1, 0, 2, 1, 0, 0, 0, 0);
    lemma_coefficient_product((-4977int), mono4(x1, y1, x2, y2, 1, 0, 2, 1), (-1int), mono4(x1, y1, x2, y2, 0, 2, 0, 0));
    lemma_mono4_mul(x1, y1, x2, y2, 1, 0, 2, 1, 0, 2, 0, 0);
    lemma_coefficient_product((-4977int), mono4(x1, y1, x2, y2, 1, 0, 2, 1), 1int, mono4(x1, y1, x2, y2, 3, 0, 0, 0));
    lemma_mono4_mul(x1, y1, x2, y2, 1, 0, 2, 1, 3, 0, 0, 0);
    lemma_mul_is_distributive_add(((-7938int) * mono4(x1, y1, x2, y2, 1, 1, 2, 0)), (7int * mono4(x1, y1, x2, y2, 0, 0, 0, 0)), (((-1int) * mono4(x1, y1, x2, y2, 0, 2, 0, 0)) + (1int * mono4(x1, y1, x2, y2, 3, 0, 0, 0))));
    lemma_mul_is_distributive_add(((-7938int) * mono4(x1, y1, x2, y2, 1, 1, 2, 0)), ((-1int) * mono4(x1, y1, x2, y2, 0, 2, 0, 0)), (1int * mono4(x1, y1, x2, y2, 3, 0, 0, 0)));
    lemma_coefficient_product((-7938int), mono4(x1, y1, x2, y2, 1, 1, 2, 0), 7int, mono4(x1, y1, x2, y2, 0, 0, 0, 0));
    lemma_mono4_mul(x1, y1, x2, y2, 1, 1, 2, 0, 0, 0, 0, 0);
    lemma_coefficient_product((-7938int), mono4(x1, y1, x2, y2, 1, 1, 2, 0), (-1int), mono4(x1, y1, x2, y2, 0, 2, 0, 0));
    lemma_mono4_mul(x1, y1, x2, y2, 1, 1, 2, 0, 0, 2, 0, 0);
    lemma_coefficient_product((-7938int), mono4(x1, y1, x2, y2, 1, 1, 2, 0), 1int, mono4(x1, y1, x2, y2, 3, 0, 0, 0));
    lemma_mono4_mul(x1, y1, x2, y2, 1, 1, 2, 0, 3, 0, 0, 0);
    lemma_mul_is_distributive_add(((-5292int) * mono4(x1, y1, x2, y2, 2, 0, 1, 1)), (7int * mono4(x1, y1, x2, y2, 0, 0, 0, 0)), (((-1int) * mono4(x1, y1, x2, y2, 0, 2, 0, 0)) + (1int * mono4(x1, y1, x2, y2, 3, 0, 0, 0))));
    lemma_mul_is_distributive_add(((-5292int) * mono4(x1, y1, x2, y2, 2, 0, 1, 1)), ((-1int) * mono4(x1, y1, x2, y2, 0, 2, 0, 0)), (1int * mono4(x1, y1, x2, y2, 3, 0, 0, 0)));
    lemma_coefficient_product((-5292int), mono4(x1, y1, x2, y2, 2, 0, 1, 1), 7int, mono4(x1, y1, x2, y2, 0, 0, 0, 0));
    lemma_mono4_mul(x1, y1, x2, y2, 2, 0, 1, 1, 0, 0, 0, 0);
    lemma_coefficient_product((-5292int), mono4(x1, y1, x2, y2, 2, 0, 1, 1), (-1int), mono4(x1, y1, x2, y2, 0, 2, 0, 0));
    lemma_mono4_mul(x1, y1, x2, y2, 2, 0, 1, 1, 0, 2, 0, 0);
    lemma_coefficient_product((-5292int), mono4(x1, y1, x2, y2, 2, 0, 1, 1), 1int, mono4(x1, y1, x2, y2, 3, 0, 0, 0));
    lemma_mono4_mul(x1, y1, x2, y2, 2, 0, 1, 1, 3, 0, 0, 0);
    assert(((((((-29106int) * mono4(x1, y1, x2, y2, 0, 0, 0, 1)) + ((-27783int) * mono4(x1, y1, x2, y2, 0, 1, 0, 0))) + (((-3696int) * mono4(x1, y1, x2, y2, 0, 0, 0, 3)) + (((-3969int) * mono4(x1, y1, x2, y2, 0, 1, 0, 2)) + ((-1764int) * mono4(x1, y1, x2, y2, 0, 2, 0, 1))))) + (((1575int * mono4(x1, y1, x2, y2, 0, 0, 3, 1)) + ((-3969int) * mono4(x1, y1, x2, y2, 0, 1, 3, 0))) + (((-4977int) * mono4(x1, y1, x2, y2, 1, 0, 2, 1)) + (((-7938int) * mono4(x1, y1, x2, y2, 1, 1, 2, 0)) + ((-5292int) * mono4(x1, y1, x2, y2, 2, 0, 1, 1)))))) * ((((x1 * x1) * x1) + 7) - (y1 * y1))) == ((((((-203742int) * mono4(x1, y1, x2, y2, 0, 0, 0, 1)) + (((-194481int) * mono4(x1, y1, x2, y2, 0, 1, 0, 0)) + ((-25872int) * mono4(x1, y1, x2, y2, 0, 0, 0, 3)))) + ((((-27783int) * mono4(x1, y1, x2, y2, 0, 1, 0, 2)) + (16758int * mono4(x1, y1, x2, y2, 0, 2, 0, 1))) + ((27783int * mono4(x1, y1, x2, y2, 0, 3, 0, 0)) + (11025int * mono4(x1, y1, x2, y2, 0, 0, 3, 1))))) + ((((-27783int) * mono4(x1, y1, x2, y2, 0, 1, 3, 0)) + (((-34839int) * mono4(x1, y1, x2, y2, 1, 0, 2, 1)) + ((-55566int) * mono4(x1, y1, x2, y2, 1, 1, 2, 0)))) + ((((-37044int) * mono4(x1, y1, x2, y2, 2, 0, 1, 1)) + ((-29106int) * mono4(x1, y1, x2, y2, 3, 0, 0, 1))) + (((-27783int) * mono4(x1, y1, x2, y2, 3, 1, 0, 0)) + (3696int * mono4(x1, y1, x2, y2, 0, 2, 0, 3)))))) + ((((3969int * mono4(x1, y1, x2, y2, 0, 3, 0, 2)) + ((1764int * mono4(x1, y1, x2, y2, 0, 4, 0, 1)) + ((-1575int) * mono4(x1, y1, x2, y2, 0, 2, 3, 1)))) + (((3969int * mono4(x1, y1, x2, y2, 0, 3, 3, 0)) + (4977int * mono4(x1, y1, x2, y2, 1, 2, 2, 1))) + ((7938int * mono4(x1, y1, x2, y2, 1, 3, 2, 0)) + (5292int * mono4(x1, y1, x2, y2, 2, 2, 1, 1))))) + (((((-3696int) * mono4(x1, y1, x2, y2, 3, 0, 0, 3)) + ((-3969int) * mono4(x1, y1, x2, y2, 3, 1, 0, 2))) + (((-1764int) * mono4(x1, y1, x2, y2, 3, 2, 0, 1)) + (1575int * mono4(x1, y1, x2, y2, 3, 0, 3, 1)))) + ((((-3969int) * mono4(x1, y1, x2, y2, 3, 1, 3, 0)) + ((-4977int) * mono4(x1, y1, x2, y2, 4, 0, 2, 1))) + (((-7938int) * mono4(x1, y1, x2, y2, 4, 1, 2, 0)) + ((-5292int) * mono4(x1, y1, x2, y2, 5, 0, 1, 1))))))));
}

proof fn lemma_exceptional_identity_part2(x1: int, y1: int, x2: int, y2: int)
    ensures
        ((((((-37044int) * mono4(x1, y1, x2, y2, 0, 0, 0, 1)) + ((-27783int) * mono4(x1, y1, x2, y2, 0, 1, 0, 0))) + (((-84int) * mono4(x1, y1, x2, y2, 0, 0, 0, 3)) + (2898int * mono4(x1, y1, x2, y2, 0, 2, 0, 1)))) + (((1323int * mono4(x1, y1, x2, y2, 0, 3, 0, 0)) + ((-252int) * mono4(x1, y1, x2, y2, 1, 0, 2, 1))) + ((1008int * mono4(x1, y1, x2, y2, 2, 0, 1, 1)) + (3969int * mono4(x1, y1, x2, y2, 2, 1, 1, 0))))) * ((((x2 * x2) * x2) + 7) - (y2 * y2))) == ((((((-259308int) * mono4(x1, y1, x2, y2, 0, 0, 0, 1)) + ((-194481int) * mono4(x1, y1, x2, y2, 0, 1, 0, 0))) + ((36456int * mono4(x1, y1, x2, y2, 0, 0, 0, 3)) + ((27783int * mono4(x1, y1, x2, y2, 0, 1, 0, 2)) + (20286int * mono4(x1, y1, x2, y2, 0, 2, 0, 1))))) + (((9261int * mono4(x1, y1, x2, y2, 0, 3, 0, 0)) + (((-37044int) * mono4(x1, y1, x2, y2, 0, 0, 3, 1)) + ((-27783int) * mono4(x1, y1, x2, y2, 0, 1, 3, 0)))) + (((-1764int) * mono4(x1, y1, x2, y2, 1, 0, 2, 1)) + ((7056int * mono4(x1, y1, x2, y2, 2, 0, 1, 1)) + (27783int * mono4(x1, y1, x2, y2, 2, 1, 1, 0)))))) + ((((84int * mono4(x1, y1, x2, y2, 0, 0, 0, 5)) + (((-2898int) * mono4(x1, y1, x2, y2, 0, 2, 0, 3)) + ((-1323int) * mono4(x1, y1, x2, y2, 0, 3, 0, 2)))) + (((-84int) * mono4(x1, y1, x2, y2, 0, 0, 3, 3)) + ((2898int * mono4(x1, y1, x2, y2, 0, 2, 3, 1)) + (1323int * mono4(x1, y1, x2, y2, 0, 3, 3, 0))))) + (((252int * mono4(x1, y1, x2, y2, 1, 0, 2, 3)) + (((-1008int) * mono4(x1, y1, x2, y2, 2, 0, 1, 3)) + ((-3969int) * mono4(x1, y1, x2, y2, 2, 1, 1, 2)))) + (((-252int) * mono4(x1, y1, x2, y2, 1, 0, 5, 1)) + ((1008int * mono4(x1, y1, x2, y2, 2, 0, 4, 1)) + (3969int * mono4(x1, y1, x2, y2, 2, 1, 4, 0))))))),
{
    lemma_mono4_vars(x1, y1, x2, y2);
    assert(x2 == (1int * mono4(x1, y1, x2, y2, 0, 0, 1, 0)));
    assert(x2 == (1int * mono4(x1, y1, x2, y2, 0, 0, 1, 0)));
    assert((x2 * x2) == (1int * mono4(x1, y1, x2, y2, 0, 0, 1, 0)) * (1int * mono4(x1, y1, x2, y2, 0, 0, 1, 0)));
    lemma_coefficient_product(1int, mono4(x1, y1, x2, y2, 0, 0, 1, 0), 1int, mono4(x1, y1, x2, y2, 0, 0, 1, 0));
    lemma_mono4_mul(x1, y1, x2, y2, 0, 0, 1, 0, 0, 0, 1, 0);
    assert((x2 * x2) == (1int * mono4(x1, y1, x2, y2, 0, 0, 2, 0)));
    assert(x2 == (1int * mono4(x1, y1, x2, y2, 0, 0, 1, 0)));
    assert(((x2 * x2) * x2) == (1int * mono4(x1, y1, x2, y2, 0, 0, 2, 0)) * (1int * mono4(x1, y1, x2, y2, 0, 0, 1, 0)));
    lemma_coefficient_product(1int, mono4(x1, y1, x2, y2, 0, 0, 2, 0), 1int, mono4(x1, y1, x2, y2, 0, 0, 1, 0));
    lemma_mono4_mul(x1, y1, x2, y2, 0, 0, 2, 0, 0, 0, 1, 0);
    assert(((x2 * x2) * x2) == (1int * mono4(x1, y1, x2, y2, 0, 0, 3, 0)));
    assert(7 == (7int * mono4(x1, y1, x2, y2, 0, 0, 0, 0)));
    assert((((x2 * x2) * x2) + 7) == ((7int * mono4(x1, y1, x2, y2, 0, 0, 0, 0)) + (1int * mono4(x1, y1, x2, y2, 0, 0, 3, 0))));
    assert(y2 == (1int * mono4(x1, y1, x2, y2, 0, 0, 0, 1)));
    assert(y2 == (1int * mono4(x1, y1, x2, y2, 0, 0, 0, 1)));
    assert((y2 * y2) == (1int * mono4(x1, y1, x2, y2, 0, 0, 0, 1)) * (1int * mono4(x1, y1, x2, y2, 0, 0, 0, 1)));
    lemma_coefficient_product(1int, mono4(x1, y1, x2, y2, 0, 0, 0, 1), 1int, mono4(x1, y1, x2, y2, 0, 0, 0, 1));
    lemma_mono4_mul(x1, y1, x2, y2, 0, 0, 0, 1, 0, 0, 0, 1);
    assert((y2 * y2) == (1int * mono4(x1, y1, x2, y2, 0, 0, 0, 2)));
    assert(((((x2 * x2) * x2) + 7) - (y2 * y2)) == ((7int * mono4(x1, y1, x2, y2, 0, 0, 0, 0)) + (((-1int) * mono4(x1, y1, x2, y2, 0, 0, 0, 2)) + (1int * mono4(x1, y1, x2, y2, 0, 0, 3, 0)))));
    assert(((((((-37044int) * mono4(x1, y1, x2, y2, 0, 0, 0, 1)) + ((-27783int) * mono4(x1, y1, x2, y2, 0, 1, 0, 0))) + (((-84int) * mono4(x1, y1, x2, y2, 0, 0, 0, 3)) + (2898int * mono4(x1, y1, x2, y2, 0, 2, 0, 1)))) + (((1323int * mono4(x1, y1, x2, y2, 0, 3, 0, 0)) + ((-252int) * mono4(x1, y1, x2, y2, 1, 0, 2, 1))) + ((1008int * mono4(x1, y1, x2, y2, 2, 0, 1, 1)) + (3969int * mono4(x1, y1, x2, y2, 2, 1, 1, 0))))) * ((((x2 * x2) * x2) + 7) - (y2 * y2))) == (((((-37044int) * mono4(x1, y1, x2, y2, 0, 0, 0, 1)) + ((-27783int) * mono4(x1, y1, x2, y2, 0, 1, 0, 0))) + (((-84int) * mono4(x1, y1, x2, y2, 0, 0, 0, 3)) + (2898int * mono4(x1, y1, x2, y2, 0, 2, 0, 1)))) + (((1323int * mono4(x1, y1, x2, y2, 0, 3, 0, 0)) + ((-252int) * mono4(x1, y1, x2, y2, 1, 0, 2, 1))) + ((1008int * mono4(x1, y1, x2, y2, 2, 0, 1, 1)) + (3969int * mono4(x1, y1, x2, y2, 2, 1, 1, 0))))) * ((7int * mono4(x1, y1, x2, y2, 0, 0, 0, 0)) + (((-1int) * mono4(x1, y1, x2, y2, 0, 0, 0, 2)) + (1int * mono4(x1, y1, x2, y2, 0, 0, 3, 0)))));
    lemma_mul_is_distributive_add_other_way(((7int * mono4(x1, y1, x2, y2, 0, 0, 0, 0)) + (((-1int) * mono4(x1, y1, x2, y2, 0, 0, 0, 2)) + (1int * mono4(x1, y1, x2, y2, 0, 0, 3, 0)))), ((((-37044int) * mono4(x1, y1, x2, y2, 0, 0, 0, 1)) + ((-27783int) * mono4(x1, y1, x2, y2, 0, 1, 0, 0))) + (((-84int) * mono4(x1, y1, x2, y2, 0, 0, 0, 3)) + (2898int * mono4(x1, y1, x2, y2, 0, 2, 0, 1)))), (((1323int * mono4(x1, y1, x2, y2, 0, 3, 0, 0)) + ((-252int) * mono4(x1, y1, x2, y2, 1, 0, 2, 1))) + ((1008int * mono4(x1, y1, x2, y2, 2, 0, 1, 1)) + (3969int * mono4(x1, y1, x2, y2, 2, 1, 1, 0)))));
    lemma_mul_is_distributive_add_other_way(((7int * mono4(x1, y1, x2, y2, 0, 0, 0, 0)) + (((-1int) * mono4(x1, y1, x2, y2, 0, 0, 0, 2)) + (1int * mono4(x1, y1, x2, y2, 0, 0, 3, 0)))), (((-37044int) * mono4(x1, y1, x2, y2, 0, 0, 0, 1)) + ((-27783int) * mono4(x1, y1, x2, y2, 0, 1, 0, 0))), (((-84int) * mono4(x1, y1, x2, y2, 0, 0, 0, 3)) + (2898int * mono4(x1, y1, x2, y2, 0, 2, 0, 1))));
    lemma_mul_is_distributive_add_other_way(((7int * mono4(x1, y1, x2, y2, 0, 0, 0, 0)) + (((-1int) * mono4(x1, y1, x2, y2, 0, 0, 0, 2)) + (1int * mono4(x1, y1, x2, y2, 0, 0, 3, 0)))), ((-37044int) * mono4(x1, y1, x2, y2, 0, 0, 0, 1)), ((-27783int) * mono4(x1, y1, x2, y2, 0, 1, 0, 0)));
    lemma_mul_is_distributive_add_other_way(((7int * mono4(x1, y1, x2, y2, 0, 0, 0, 0)) + (((-1int) * mono4(x1, y1, x2, y2, 0, 0, 0, 2)) + (1int * mono4(x1, y1, x2, y2, 0, 0, 3, 0)))), ((-84int) * mono4(x1, y1, x2, y2, 0, 0, 0, 3)), (2898int * mono4(x1, y1, x2, y2, 0, 2, 0, 1)));
    lemma_mul_is_distributive_add_other_way(((7int * mono4(x1, y1, x2, y2, 0, 0, 0, 0)) + (((-1int) * mono4(x1, y1, x2, y2, 0, 0, 0, 2)) + (1int * mono4(x1, y1, x2, y2, 0, 0, 3, 0)))), ((1323int * mono4(x1, y1, x2, y2, 0, 3, 0, 0)) + ((-252int) * mono4(x1, y1, x2, y2, 1, 0, 2, 1))), ((1008int * mono4(x1, y1, x2, y2, 2, 0, 1, 1)) + (3969int * mono4(x1, y1, x2, y2, 2, 1, 1, 0))));
    lemma_mul_is_distributive_add_other_way(((7int * mono4(x1, y1, x2, y2, 0, 0, 0, 0)) + (((-1int) * mono4(x1, y1, x2, y2, 0, 0, 0, 2)) + (1int * mono4(x1, y1, x2, y2, 0, 0, 3, 0)))), (1323int * mono4(x1, y1, x2, y2, 0, 3, 0, 0)), ((-252int) * mono4(x1, y1, x2, y2, 1, 0, 2, 1)));
    lemma_mul_is_distributive_add_other_way(((7int * mono4(x1, y1, x2, y2, 0, 0, 0, 0)) + (((-1int) * mono4(x1, y1, x2, y2, 0, 0, 0, 2)) + (1int * mono4(x1, y1, x2, y2, 0, 0, 3, 0)))), (1008int * mono4(x1, y1, x2, y2, 2, 0, 1, 1)), (3969int * mono4(x1, y1, x2, y2, 2, 1, 1, 0)));
    lemma_mul_is_distributive_add(((-37044int) * mono4(x1, y1, x2, y2, 0, 0, 0, 1)), (7int * mono4(x1, y1, x2, y2, 0, 0, 0, 0)), (((-1int) * mono4(x1, y1, x2, y2, 0, 0, 0, 2)) + (1int * mono4(x1, y1, x2, y2, 0, 0, 3, 0))));
    lemma_mul_is_distributive_add(((-37044int) * mono4(x1, y1, x2, y2, 0, 0, 0, 1)), ((-1int) * mono4(x1, y1, x2, y2, 0, 0, 0, 2)), (1int * mono4(x1, y1, x2, y2, 0, 0, 3, 0)));
    lemma_coefficient_product((-37044int), mono4(x1, y1, x2, y2, 0, 0, 0, 1), 7int, mono4(x1, y1, x2, y2, 0, 0, 0, 0));
    lemma_mono4_mul(x1, y1, x2, y2, 0, 0, 0, 1, 0, 0, 0, 0);
    lemma_coefficient_product((-37044int), mono4(x1, y1, x2, y2, 0, 0, 0, 1), (-1int), mono4(x1, y1, x2, y2, 0, 0, 0, 2));
    lemma_mono4_mul(x1, y1, x2, y2, 0, 0, 0, 1, 0, 0, 0, 2);
    lemma_coefficient_product((-37044int), mono4(x1, y1, x2, y2, 0, 0, 0, 1), 1int, mono4(x1, y1, x2, y2, 0, 0, 3, 0));
    lemma_mono4_mul(x1, y1, x2, y2, 0, 0, 0, 1, 0, 0, 3, 0);
    lemma_mul_is_distributive_add(((-27783int) * mono4(x1, y1, x2, y2, 0, 1, 0, 0)), (7int * mono4(x1, y1, x2, y2, 0, 0, 0, 0)), (((-1int) * mono4(x1, y1, x2, y2, 0, 0, 0, 2)) + (1int * mono4(x1, y1, x2, y2, 0, 0, 3, 0))));
    lemma_mul_is_distributive_add(((-27783int) * mono4(x1, y1, x2, y2, 0, 1, 0, 0)), ((-1int) * mono4(x1, y1, x2, y2, 0, 0, 0, 2)), (1int * mono4(x1, y1, x2, y2, 0, 0, 3, 0)));
    lemma_coefficient_product((-27783int), mono4(x1, y1, x2, y2, 0, 1, 0, 0), 7int, mono4(x1, y1, x2, y2, 0, 0, 0, 0));
    lemma_mono4_mul(x1, y1, x2, y2, 0, 1, 0, 0, 0, 0, 0, 0);
    lemma_coefficient_product((-27783int), mono4(x1, y1, x2, y2, 0, 1, 0, 0), (-1int), mono4(x1, y1, x2, y2, 0, 0, 0, 2));
    lemma_mono4_mul(x1, y1, x2, y2, 0, 1, 0, 0, 0, 0, 0, 2);
    lemma_coefficient_product((-27783int), mono4(x1, y1, x2, y2, 0, 1, 0, 0), 1int, mono4(x1, y1, x2, y2, 0, 0, 3, 0));
    lemma_mono4_mul(x1, y1, x2, y2, 0, 1, 0, 0, 0, 0, 3, 0);
    lemma_mul_is_distributive_add(((-84int) * mono4(x1, y1, x2, y2, 0, 0, 0, 3)), (7int * mono4(x1, y1, x2, y2, 0, 0, 0, 0)), (((-1int) * mono4(x1, y1, x2, y2, 0, 0, 0, 2)) + (1int * mono4(x1, y1, x2, y2, 0, 0, 3, 0))));
    lemma_mul_is_distributive_add(((-84int) * mono4(x1, y1, x2, y2, 0, 0, 0, 3)), ((-1int) * mono4(x1, y1, x2, y2, 0, 0, 0, 2)), (1int * mono4(x1, y1, x2, y2, 0, 0, 3, 0)));
    lemma_coefficient_product((-84int), mono4(x1, y1, x2, y2, 0, 0, 0, 3), 7int, mono4(x1, y1, x2, y2, 0, 0, 0, 0));
    lemma_mono4_mul(x1, y1, x2, y2, 0, 0, 0, 3, 0, 0, 0, 0);
    lemma_coefficient_product((-84int), mono4(x1, y1, x2, y2, 0, 0, 0, 3), (-1int), mono4(x1, y1, x2, y2, 0, 0, 0, 2));
    lemma_mono4_mul(x1, y1, x2, y2, 0, 0, 0, 3, 0, 0, 0, 2);
    lemma_coefficient_product((-84int), mono4(x1, y1, x2, y2, 0, 0, 0, 3), 1int, mono4(x1, y1, x2, y2, 0, 0, 3, 0));
    lemma_mono4_mul(x1, y1, x2, y2, 0, 0, 0, 3, 0, 0, 3, 0);
    lemma_mul_is_distributive_add((2898int * mono4(x1, y1, x2, y2, 0, 2, 0, 1)), (7int * mono4(x1, y1, x2, y2, 0, 0, 0, 0)), (((-1int) * mono4(x1, y1, x2, y2, 0, 0, 0, 2)) + (1int * mono4(x1, y1, x2, y2, 0, 0, 3, 0))));
    lemma_mul_is_distributive_add((2898int * mono4(x1, y1, x2, y2, 0, 2, 0, 1)), ((-1int) * mono4(x1, y1, x2, y2, 0, 0, 0, 2)), (1int * mono4(x1, y1, x2, y2, 0, 0, 3, 0)));
    lemma_coefficient_product(2898int, mono4(x1, y1, x2, y2, 0, 2, 0, 1), 7int, mono4(x1, y1, x2, y2, 0, 0, 0, 0));
    lemma_mono4_mul(x1, y1, x2, y2, 0, 2, 0, 1, 0, 0, 0, 0);
    lemma_coefficient_product(2898int, mono4(x1, y1, x2, y2, 0, 2, 0, 1), (-1int), mono4(x1, y1, x2, y2, 0, 0, 0, 2));
    lemma_mono4_mul(x1, y1, x2, y2, 0, 2, 0, 1, 0, 0, 0, 2);
    lemma_coefficient_product(2898int, mono4(x1, y1, x2, y2, 0, 2, 0, 1), 1int, mono4(x1, y1, x2, y2, 0, 0, 3, 0));
    lemma_mono4_mul(x1, y1, x2, y2, 0, 2, 0, 1, 0, 0, 3, 0);
    lemma_mul_is_distributive_add((1323int * mono4(x1, y1, x2, y2, 0, 3, 0, 0)), (7int * mono4(x1, y1, x2, y2, 0, 0, 0, 0)), (((-1int) * mono4(x1, y1, x2, y2, 0, 0, 0, 2)) + (1int * mono4(x1, y1, x2, y2, 0, 0, 3, 0))));
    lemma_mul_is_distributive_add((1323int * mono4(x1, y1, x2, y2, 0, 3, 0, 0)), ((-1int) * mono4(x1, y1, x2, y2, 0, 0, 0, 2)), (1int * mono4(x1, y1, x2, y2, 0, 0, 3, 0)));
    lemma_coefficient_product(1323int, mono4(x1, y1, x2, y2, 0, 3, 0, 0), 7int, mono4(x1, y1, x2, y2, 0, 0, 0, 0));
    lemma_mono4_mul(x1, y1, x2, y2, 0, 3, 0, 0, 0, 0, 0, 0);
    lemma_coefficient_product(1323int, mono4(x1, y1, x2, y2, 0, 3, 0, 0), (-1int), mono4(x1, y1, x2, y2, 0, 0, 0, 2));
    lemma_mono4_mul(x1, y1, x2, y2, 0, 3, 0, 0, 0, 0, 0, 2);
    lemma_coefficient_product(1323int, mono4(x1, y1, x2, y2, 0, 3, 0, 0), 1int, mono4(x1, y1, x2, y2, 0, 0, 3, 0));
    lemma_mono4_mul(x1, y1, x2, y2, 0, 3, 0, 0, 0, 0, 3, 0);
    lemma_mul_is_distributive_add(((-252int) * mono4(x1, y1, x2, y2, 1, 0, 2, 1)), (7int * mono4(x1, y1, x2, y2, 0, 0, 0, 0)), (((-1int) * mono4(x1, y1, x2, y2, 0, 0, 0, 2)) + (1int * mono4(x1, y1, x2, y2, 0, 0, 3, 0))));
    lemma_mul_is_distributive_add(((-252int) * mono4(x1, y1, x2, y2, 1, 0, 2, 1)), ((-1int) * mono4(x1, y1, x2, y2, 0, 0, 0, 2)), (1int * mono4(x1, y1, x2, y2, 0, 0, 3, 0)));
    lemma_coefficient_product((-252int), mono4(x1, y1, x2, y2, 1, 0, 2, 1), 7int, mono4(x1, y1, x2, y2, 0, 0, 0, 0));
    lemma_mono4_mul(x1, y1, x2, y2, 1, 0, 2, 1, 0, 0, 0, 0);
    lemma_coefficient_product((-252int), mono4(x1, y1, x2, y2, 1, 0, 2, 1), (-1int), mono4(x1, y1, x2, y2, 0, 0, 0, 2));
    lemma_mono4_mul(x1, y1, x2, y2, 1, 0, 2, 1, 0, 0, 0, 2);
    lemma_coefficient_product((-252int), mono4(x1, y1, x2, y2, 1, 0, 2, 1), 1int, mono4(x1, y1, x2, y2, 0, 0, 3, 0));
    lemma_mono4_mul(x1, y1, x2, y2, 1, 0, 2, 1, 0, 0, 3, 0);
    lemma_mul_is_distributive_add((1008int * mono4(x1, y1, x2, y2, 2, 0, 1, 1)), (7int * mono4(x1, y1, x2, y2, 0, 0, 0, 0)), (((-1int) * mono4(x1, y1, x2, y2, 0, 0, 0, 2)) + (1int * mono4(x1, y1, x2, y2, 0, 0, 3, 0))));
    lemma_mul_is_distributive_add((1008int * mono4(x1, y1, x2, y2, 2, 0, 1, 1)), ((-1int) * mono4(x1, y1, x2, y2, 0, 0, 0, 2)), (1int * mono4(x1, y1, x2, y2, 0, 0, 3, 0)));
    lemma_coefficient_product(1008int, mono4(x1, y1, x2, y2, 2, 0, 1, 1), 7int, mono4(x1, y1, x2, y2, 0, 0, 0, 0));
    lemma_mono4_mul(x1, y1, x2, y2, 2, 0, 1, 1, 0, 0, 0, 0);
    lemma_coefficient_product(1008int, mono4(x1, y1, x2, y2, 2, 0, 1, 1), (-1int), mono4(x1, y1, x2, y2, 0, 0, 0, 2));
    lemma_mono4_mul(x1, y1, x2, y2, 2, 0, 1, 1, 0, 0, 0, 2);
    lemma_coefficient_product(1008int, mono4(x1, y1, x2, y2, 2, 0, 1, 1), 1int, mono4(x1, y1, x2, y2, 0, 0, 3, 0));
    lemma_mono4_mul(x1, y1, x2, y2, 2, 0, 1, 1, 0, 0, 3, 0);
    lemma_mul_is_distributive_add((3969int * mono4(x1, y1, x2, y2, 2, 1, 1, 0)), (7int * mono4(x1, y1, x2, y2, 0, 0, 0, 0)), (((-1int) * mono4(x1, y1, x2, y2, 0, 0, 0, 2)) + (1int * mono4(x1, y1, x2, y2, 0, 0, 3, 0))));
    lemma_mul_is_distributive_add((3969int * mono4(x1, y1, x2, y2, 2, 1, 1, 0)), ((-1int) * mono4(x1, y1, x2, y2, 0, 0, 0, 2)), (1int * mono4(x1, y1, x2, y2, 0, 0, 3, 0)));
    lemma_coefficient_product(3969int, mono4(x1, y1, x2, y2, 2, 1, 1, 0), 7int, mono4(x1, y1, x2, y2, 0, 0, 0, 0));
    lemma_mono4_mul(x1, y1, x2, y2, 2, 1, 1, 0, 0, 0, 0, 0);
    lemma_coefficient_product(3969int, mono4(x1, y1, x2, y2, 2, 1, 1, 0), (-1int), mono4(x1, y1, x2, y2, 0, 0, 0, 2));
    lemma_mono4_mul(x1, y1, x2, y2, 2, 1, 1, 0, 0, 0, 0, 2);
    lemma_coefficient_product(3969int, mono4(x1, y1, x2, y2, 2, 1, 1, 0), 1int, mono4(x1, y1, x2, y2, 0, 0, 3, 0));
    lemma_mono4_mul(x1, y1, x2, y2, 2, 1, 1, 0, 0, 0, 3, 0);
    assert(((((((-37044int) * mono4(x1, y1, x2, y2, 0, 0, 0, 1)) + ((-27783int) * mono4(x1, y1, x2, y2, 0, 1, 0, 0))) + (((-84int) * mono4(x1, y1, x2, y2, 0, 0, 0, 3)) + (2898int * mono4(x1, y1, x2, y2, 0, 2, 0, 1)))) + (((1323int * mono4(x1, y1, x2, y2, 0, 3, 0, 0)) + ((-252int) * mono4(x1, y1, x2, y2, 1, 0, 2, 1))) + ((1008int * mono4(x1, y1, x2, y2, 2, 0, 1, 1)) + (3969int * mono4(x1, y1, x2, y2, 2, 1, 1, 0))))) * ((((x2 * x2) * x2) + 7) - (y2 * y2))) == ((((((-259308int) * mono4(x1, y1, x2, y2, 0, 0, 0, 1)) + ((-194481int) * mono4(x1, y1, x2, y2, 0, 1, 0, 0))) + ((36456int * mono4(x1, y1, x2, y2, 0, 0, 0, 3)) + ((27783int * mono4(x1, y1, x2, y2, 0, 1, 0, 2)) + (20286int * mono4(x1, y1, x2, y2, 0, 2, 0, 1))))) + (((9261int * mono4(x1, y1, x2, y2, 0, 3, 0, 0)) + (((-37044int) * mono4(x1, y1, x2, y2, 0, 0, 3, 1)) + ((-27783int) * mono4(x1, y1, x2, y2, 0, 1, 3, 0)))) + (((-1764int) * mono4(x1, y1, x2, y2, 1, 0, 2, 1)) + ((7056int * mono4(x1, y1, x2, y2, 2, 0, 1, 1)) + (27783int * mono4(x1, y1, x2, y2, 2, 1, 1, 0)))))) + ((((84int * mono4(x1, y1, x2, y2, 0, 0, 0, 5)) + (((-2898int) * mono4(x1, y1, x2, y2, 0, 2, 0, 3)) + ((-1323int) * mono4(x1, y1, x2, y2, 0, 3, 0, 2)))) + (((-84int) * mono4(x1, y1, x2, y2, 0, 0, 3, 3)) + ((2898int * mono4(x1, y1, x2, y2, 0, 2, 3, 1)) + (1323int * mono4(x1, y1, x2, y2, 0, 3, 3, 0))))) + (((252int * mono4(x1, y1, x2, y2, 1, 0, 2, 3)) + (((-1008int) * mono4(x1, y1, x2, y2, 2, 0, 1, 3)) + ((-3969int) * mono4(x1, y1, x2, y2, 2, 1, 1, 2)))) + (((-252int) * mono4(x1, y1, x2, y2, 1, 0, 5, 1)) + ((1008int * mono4(x1, y1, x2, y2, 2, 0, 4, 1)) + (3969int * mono4(x1, y1, x2, y2, 2, 1, 4, 0))))))));
}

proof fn lemma_exceptional_identity_part3(x1: int, y1: int, x2: int, y2: int)
    ensures
        ((((((-1323int) * mono4(x1, y1, x2, y2, 0, 0, 2, 0)) + ((-1197int) * mono4(x1, y1, x2, y2, 1, 0, 1, 0))) + (((-1449int) * mono4(x1, y1, x2, y2, 2, 0, 0, 0)) + ((-2int) * mono4(x1, y1, x2, y2, 0, 0, 2, 2)))) + (((63int * mono4(x1, y1, x2, y2, 0, 2, 2, 0)) + (10int * mono4(x1, y1, x2, y2, 1, 0, 1, 2))) + ((15int * mono4(x1, y1, x2, y2, 1, 1, 1, 1)) + (((-44int) * mono4(x1, y1, x2, y2, 2, 0, 0, 2)) + ((-105int) * mono4(x1, y1, x2, y2, 2, 1, 0, 1)))))) * ((((x1 * y2) + (y1 * x2)) * ((y1 * y2) - (21 * (1 * 1)))) - ((21 * ((y1 * 1) + (1 * y2))) * ((x1 * 1) + (1 * x2))))) == ((((((27783int * mono4(x1, y1, x2, y2, 0, 0, 3, 1)) + (55566int * mono4(x1, y1, x2, y2, 0, 1, 3, 0))) + ((80703int * mono4(x1, y1, x2, y2, 1, 0, 2, 1)) + (78057int * mono4(x1, y1, x2, y2, 1, 1, 2, 0)))) + (((80703int * mono4(x1, y1, x2, y2, 2, 0, 1, 1)) + (85995int * mono4(x1, y1, x2, y2, 2, 1, 1, 0))) + ((60858int * mono4(x1, y1, x2, y2, 3, 0, 0, 1)) + (30429int * mono4(x1, y1, x2, y2, 3, 1, 0, 0))))) + ((((42int * mono4(x1, y1, x2, y2, 0, 0, 3, 3)) + (84int * mono4(x1, y1, x2, y2, 0, 1, 3, 2))) + (((-2646int) * mono4(x1, y1, x2, y2, 0, 2, 3, 1)) + ((-2646int) * mono4(x1, y1, x2, y2, 0, 3, 3, 0)))) + ((((-126int) * mono4(x1, y1, x2, y2, 1, 0, 2, 3)) + ((-2016int) * mono4(x1, y1, x2, y2, 1, 1, 2, 2))) + (((-4473int) * mono4(x1, y1, x2, y2, 1, 2, 2, 1)) + ((-1323int) * mono4(x1, y1, x2, y2, 1, 3, 2, 0)))))) + (((((504int * mono4(x1, y1, x2, y2, 2, 0, 1, 3)) + (2016int * mono4(x1, y1, x2, y2, 2, 1, 1, 2))) + ((2646int * mono4(x1, y1, x2, y2, 2, 2, 1, 1)) + (1848int * mono4(x1, y1, x2, y2, 3, 0, 0, 3)))) + (((3885int * mono4(x1, y1, x2, y2, 3, 1, 0, 2)) + (2205int * mono4(x1, y1, x2, y2, 3, 2, 0, 1))) + (((-2int) * mono4(x1, y1, x2, y2, 0, 2, 3, 3)) + (63int * mono4(x1, y1, x2, y2, 0, 4, 3, 1))))) + (((((-2int) * mono4(x1, y1, x2, y2, 1, 1, 2, 4)) + (10int * mono4(x1, y1, x2, y2, 1, 2, 2, 3))) + ((78int * mono4(x1, y1, x2, y2, 1, 3, 2, 2)) + (10int * mono4(x1, y1, x2, y2, 2, 1, 1, 4)))) + ((((-29int) * mono4(x1, y1, x2, y2, 2, 2, 1, 3)) + ((-105int) * mono4(x1, y1, x2, y2, 2, 3, 1, 2))) + (((-44int) * mono4(x1, y1, x2, y2, 3, 1, 0, 4)) + ((-105int) * mono4(x1, y1, x2, y2, 3, 2, 0, 3))))))),
{
    lemma_mono4_vars(x1, y1, x2, y2);
    assert(x1 == (1int * mono4(x1, y1, x2, y2, 1, 0, 0, 0)));
    assert(y2 == (1int * mono4(x1, y1, x2, y2, 0, 0, 0, 1)));
    assert((x1 * y2) == (1int * mono4(x1, y1, x2, y2, 1, 0, 0, 0)) * (1int * mono4(x1, y1, x2, y2, 0, 0, 0, 1)));
    lemma_coefficient_product(1int, mono4(x1, y1, x2, y2, 1, 0, 0, 0), 1int, mono4(x1, y1, x2, y2, 0, 0, 0, 1));
    lemma_mono4_mul(x1, y1, x2, y2, 1, 0, 0, 0, 0, 0, 0, 1);
    assert((x1 * y2) == (1int * mono4(x1, y1, x2, y2, 1, 0, 0, 1)));
    assert(y1 == (1int * mono4(x1, y1, x2, y2, 0, 1, 0, 0)));
    assert(x2 == (1int * mono4(x1, y1, x2, y2, 0, 0, 1, 0)));
    assert((y1 * x2) == (1int * mono4(x1, y1, x2, y2, 0, 1, 0, 0)) * (1int * mono4(x1, y1, x2, y2, 0, 0, 1, 0)));
    lemma_coefficient_product(1int, mono4(x1, y1, x2, y2, 0, 1, 0, 0), 1int, mono4(x1, y1, x2, y2, 0, 0, 1, 0));
    lemma_mono4_mul(x1, y1, x2, y2, 0, 1, 0, 0, 0, 0, 1, 0);
    assert((y1 * x2) == (1int * mono4(x1, y1, x2, y2, 0, 1, 1, 0)));
    assert(((x1 * y2) + (y1 * x2)) == ((1int * mono4(x1, y1, x2, y2, 0, 1, 1, 0)) + (1int * mono4(x1, y1, x2, y2, 1, 0, 0, 1))));
    assert(y1 == (1int * mono4(x1, y1, x2, y2, 0, 1, 0, 0)));
    assert(y2 == (1int * mono4(x1, y1, x2, y2, 0, 0, 0, 1)));
    assert((y1 * y2) == (1int * mono4(x1, y1, x2, y2, 0, 1, 0, 0)) * (1int * mono4(x1, y1, x2, y2, 0, 0, 0, 1)));
    lemma_coefficient_product(1int, mono4(x1, y1, x2, y2, 0, 1, 0, 0), 1int, mono4(x1, y1, x2, y2, 0, 0, 0, 1));
    lemma_mono4_mul(x1, y1, x2, y2, 0, 1, 0, 0, 0, 0, 0, 1);
    assert((y1 * y2) == (1int * mono4(x1, y1, x2, y2, 0, 1, 0, 1)));
    assert(21 == (21int * mono4(x1, y1, x2, y2, 0, 0, 0, 0)));
    assert(1 == (1int * mono4(x1, y1, x2, y2, 0, 0, 0, 0)));
    assert(1 == (1int * mono4(x1, y1, x2, y2, 0, 0, 0, 0)));
    assert((1 * 1) == (1int * mono4(x1, y1, x2, y2, 0, 0, 0, 0)) * (1int * mono4(x1, y1, x2, y2, 0, 0, 0, 0)));
    lemma_coefficient_product(1int, mono4(x1, y1, x2, y2, 0, 0, 0, 0), 1int, mono4(x1, y1, x2, y2, 0, 0, 0, 0));
    lemma_mono4_mul(x1, y1, x2, y2, 0, 0, 0, 0, 0, 0, 0, 0);
    assert((1 * 1) == (1int * mono4(x1, y1, x2, y2, 0, 0, 0, 0)));
    assert((21 * (1 * 1)) == (21int * mono4(x1, y1, x2, y2, 0, 0, 0, 0)) * (1int * mono4(x1, y1, x2, y2, 0, 0, 0, 0)));
    lemma_coefficient_product(21int, mono4(x1, y1, x2, y2, 0, 0, 0, 0), 1int, mono4(x1, y1, x2, y2, 0, 0, 0, 0));
    lemma_mono4_mul(x1, y1, x2, y2, 0, 0, 0, 0, 0, 0, 0, 0);
    assert((21 * (1 * 1)) == (21int * mono4(x1, y1, x2, y2, 0, 0, 0, 0)));
    assert(((y1 * y2) - (21 * (1 * 1))) == (((-21int) * mono4(x1, y1, x2, y2, 0, 0, 0, 0)) + (1int * mono4(x1, y1, x2, y2, 0, 1, 0, 1))));
    assert((((x1 * y2) + (y1 * x2)) * ((y1 * y2) - (21 * (1 * 1)))) == ((1int * mono4(x1, y1, x2, y2, 0, 1, 1, 0)) + (1int * mono4(x1, y1, x2, y2, 1, 0, 0, 1))) * (((-21int) * mono4(x1, y1, x2, y2, 0, 0, 0, 0)) + (1int * mono4(x1, y1, x2, y2, 0, 1, 0, 1))));
    lemma_mul_is_distributive_add_other_way((((-21int) * mono4(x1, y1, x2, y2, 0, 0, 0, 0)) + (1int * mono4(x1, y1, x2, y2, 0, 1, 0, 1))), (1int * mono4(x1, y1, x2, y2, 0, 1, 1, 0)), (1int * mono4(x1, y1, x2, y2, 1, 0, 0, 1)));
    lemma_mul_is_distributive_add((1int * mono4(x1, y1, x2, y2, 0, 1, 1, 0)), ((-21int) * mono4(x1, y1, x2, y2, 0, 0, 0, 0)), (1int * mono4(x1, y1, x2, y2, 0, 1, 0, 1)));
    lemma_coefficient_product(1int, mono4(x1, y1, x2, y2, 0, 1, 1, 0), (-21int), mono4(x1, y1, x2, y2, 0, 0, 0, 0));
    lemma_mono4_mul(x1, y1, x2, y2, 0, 1, 1, 0, 0, 0, 0, 0);
    lemma_coefficient_product(1int, mono4(x1, y1, x2, y2, 0, 1, 1, 0), 1int, mono4(x1, y1, x2, y2, 0, 1, 0, 1));
    lemma_mono4_mul(x1, y1, x2, y2, 0, 1, 1, 0, 0, 1, 0, 1);
    lemma_mul_is_distributive_add((1int * mono4(x1, y1, x2, y2, 1, 0, 0, 1)), ((-21int) * mono4(x1, y1, x2, y2, 0, 0, 0, 0)), (1int * mono4(x1, y1, x2, y2, 0, 1, 0, 1)));
    lemma_coefficient_product(1int, mono4(x1, y1, x2, y2, 1, 0, 0, 1), (-21int), mono4(x1, y1, x2, y2, 0, 0, 0, 0));
    lemma_mono4_mul(x1, y1, x2, y2, 1, 0, 0, 1, 0, 0, 0, 0);
    lemma_coefficient_product(1int, mono4(x1, y1, x2, y2, 1, 0, 0, 1), 1int, mono4(x1, y1, x2, y2, 0, 1, 0, 1));
    lemma_mono4_mul(x1, y1, x2, y2, 1, 0, 0, 1, 0, 1, 0, 1);
    assert((((x1 * y2) + (y1 * x2)) * ((y1 * y2) - (21 * (1 * 1)))) == ((((-21int) * mono4(x1, y1, x2, y2, 0, 1, 1, 0)) + ((-21int) * mono4(x1, y1, x2, y2, 1, 0, 0, 1))) + ((1int * mono4(x1, y1, x2, y2, 0, 2, 1, 1)) + (1int * mono4(x1, y1, x2, y2, 1, 1, 0, 2)))));
    assert(21 == (21int * mono4(x1, y1, x2, y2, 0, 0, 0, 0)));
    assert(y1 == (1int * mono4(x1, y1, x2, y2, 0, 1, 0, 0)));
    assert(1 == (1int * mono4(x1, y1, x2, y2, 0, 0, 0, 0)));
    assert((y1 * 1) == (1int * mono4(x1, y1, x2, y2, 0, 1, 0, 0)) * (1int * mono4(x1, y1, x2, y2, 0, 0, 0, 0)));
    lemma_coefficient_product(1int, mono4(x1, y1, x2, y2, 0, 1, 0, 0), 1int, mono4(x1, y1, x2, y2, 0, 0, 0, 0));
    lemma_mono4_mul(x1, y1, x2, y2, 0, 1, 0, 0, 0, 0, 0, 0);
    assert((y1 * 1) == (1int * mono4(x1, y1, x2, y2, 0, 1, 0, 0)));
    assert(1 == (1int * mono4(x1, y1, x2, y2, 0, 0, 0, 0)));
    assert(y2 == (1int * mono4(x1, y1, x2, y2, 0, 0, 0, 1)));
    assert((1 * y2) == (1int * mono4(x1, y1, x2, y2, 0, 0, 0, 0)) * (1int * mono4(x1, y1, x2, y2, 0, 0, 0, 1)));
    lemma_coefficient_product(1int, mono4(x1, y1, x2, y2, 0, 0, 0, 0), 1int, mono4(x1, y1, x2, y2, 0, 0, 0, 1));
    lemma_mono4_mul(x1, y1, x2, y2, 0, 0, 0, 0, 0, 0, 0, 1);
    assert((1 * y2) == (1int * mono4(x1, y1, x2, y2, 0, 0, 0, 1)));
    assert(((y1 * 1) + (1 * y2)) == ((1int * mono4(x1, y1, x2, y2, 0, 0, 0, 1)) + (1int * mono4(x1, y1, x2, y2, 0, 1, 0, 0))));
    assert((21 * ((y1 * 1) + (1 * y2))) == (21int * mono4(x1, y1, x2, y2, 0, 0, 0, 0)) * ((1int * mono4(x1, y1, x2, y2, 0, 0, 0, 1)) + (1int * mono4(x1, y1, x2, y2, 0, 1, 0, 0))));
    lemma_mul_is_distributive_add((21int * mono4(x1, y1, x2, y2, 0, 0, 0, 0)), (1int * mono4(x1, y1, x2, y2, 0, 0, 0, 1)), (1int * mono4(x1, y1, x2, y2, 0, 1, 0, 0)));
    lemma_coefficient_product(21int, mono4(x1, y1, x2, y2, 0, 0, 0, 0), 1int, mono4(x1, y1, x2, y2, 0, 0, 0, 1));
    lemma_mono4_mul(x1, y1, x2, y2, 0, 0, 0, 0, 0, 0, 0, 1);
    lemma_coefficient_product(21int, mono4(x1, y1, x2, y2, 0, 0, 0, 0), 1int, mono4(x1, y1, x2, y2, 0, 1, 0, 0));
    lemma_mono4_mul(x1, y1, x2, y2, 0, 0, 0, 0, 0, 1, 0, 0);
    assert((21 * ((y1 * 1) + (1 * y2))) == ((21int * mono4(x1, y1, x2, y2, 0, 0, 0, 1)) + (21int * mono4(x1, y1, x2, y2, 0, 1, 0, 0))));
    assert(x1 == (1int * mono4(x1, y1, x2, y2, 1, 0, 0, 0)));
    assert(1 == (1int * mono4(x1, y1, x2, y2, 0, 0, 0, 0)));
    assert((x1 * 1) == (1int * mono4(x1, y1, x2, y2, 1, 0, 0, 0)) * (1int * mono4(x1, y1, x2, y2, 0, 0, 0, 0)));
    lemma_coefficient_product(1int, mono4(x1, y1, x2, y2, 1, 0, 0, 0), 1int, mono4(x1, y1, x2, y2, 0, 0, 0, 0));
    lemma_mono4_mul(x1, y1, x2, y2, 1, 0, 0, 0, 0, 0, 0, 0);
    assert((x1 * 1) == (1int * mono4(x1, y1, x2, y2, 1, 0, 0, 0)));
    assert(1 == (1int * mono4(x1, y1, x2, y2, 0, 0, 0, 0)));
    assert(x2 == (1int * mono4(x1, y1, x2, y2, 0, 0, 1, 0)));
    assert((1 * x2) == (1int * mono4(x1, y1, x2, y2, 0, 0, 0, 0)) * (1int * mono4(x1, y1, x2, y2, 0, 0, 1, 0)));
    lemma_coefficient_product(1int, mono4(x1, y1, x2, y2, 0, 0, 0, 0), 1int, mono4(x1, y1, x2, y2, 0, 0, 1, 0));
    lemma_mono4_mul(x1, y1, x2, y2, 0, 0, 0, 0, 0, 0, 1, 0);
    assert((1 * x2) == (1int * mono4(x1, y1, x2, y2, 0, 0, 1, 0)));
    assert(((x1 * 1) + (1 * x2)) == ((1int * mono4(x1, y1, x2, y2, 0, 0, 1, 0)) + (1int * mono4(x1, y1, x2, y2, 1, 0, 0, 0))));
    assert(((21 * ((y1 * 1) + (1 * y2))) * ((x1 * 1) + (1 * x2))) == ((21int * mono4(x1, y1, x2, y2, 0, 0, 0, 1)) + (21int * mono4(x1, y1, x2, y2, 0, 1, 0, 0))) * ((1int * mono4(x1, y1, x2, y2, 0, 0, 1, 0)) + (1int * mono4(x1, y1, x2, y2, 1, 0, 0, 0))));
    lemma_mul_is_distributive_add_other_way(((1int * mono4(x1, y1, x2, y2, 0, 0, 1, 0)) + (1int * mono4(x1, y1, x2, y2, 1, 0, 0, 0))), (21int * mono4(x1, y1, x2, y2, 0, 0, 0, 1)), (21int * mono4(x1, y1, x2, y2, 0, 1, 0, 0)));
    lemma_mul_is_distributive_add((21int * mono4(x1, y1, x2, y2, 0, 0, 0, 1)), (1int * mono4(x1, y1, x2, y2, 0, 0, 1, 0)), (1int * mono4(x1, y1, x2, y2, 1, 0, 0, 0)));
    lemma_coefficient_product(21int, mono4(x1, y1, x2, y2, 0, 0, 0, 1), 1int, mono4(x1, y1, x2, y2, 0, 0, 1, 0));
    lemma_mono4_mul(x1, y1, x2, y2, 0, 0, 0, 1, 0, 0, 1, 0);
    lemma_coefficient_product(21int, mono4(x1, y1, x2, y2, 0, 0, 0, 1), 1int, mono4(x1, y1, x2, y2, 1, 0, 0, 0));
    lemma_mono4_mul(x1, y1, x2, y2, 0, 0, 0, 1, 1, 0, 0, 0);
    lemma_mul_is_distributive_add((21int * mono4(x1, y1, x2, y2, 0, 1, 0, 0)), (1int * mono4(x1, y1, x2, y2, 0, 0, 1, 0)), (1int * mono4(x1, y1, x2, y2, 1, 0, 0, 0)));
    lemma_coefficient_product(21int, mono4(x1, y1, x2, y2, 0, 1, 0, 0), 1int, mono4(x1, y1, x2, y2, 0, 0, 1, 0));
    lemma_mono4_mul(x1, y1, x2, y2, 0, 1, 0, 0, 0, 0, 1, 0);
    lemma_coefficient_product(21int, mono4(x1, y1, x2, y2, 0, 1, 0, 0), 1int, mono4(x1, y1, x2, y2, 1, 0, 0, 0));
    lemma_mono4_mul(x1, y1, x2, y2, 0, 1, 0, 0, 1, 0, 0, 0);
    assert(((21 * ((y1 * 1) + (1 * y2))) * ((x1 * 1) + (1 * x2))) == (((21int * mono4(x1, y1, x2, y2, 0, 0, 1, 1)) + (21int * mono4(x1, y1, x2, y2, 0, 1, 1, 0))) + ((21int * mono4(x1, y1, x2, y2, 1, 0, 0, 1)) + (21int * mono4(x1, y1, x2, y2, 1, 1, 0, 0)))));
    assert(((((x1 * y2) + (y1 * x2)) * ((y1 * y2) - (21 * (1 * 1)))) - ((21 * ((y1 * 1) + (1 * y2))) * ((x1 * 1) + (1 * x2)))) == ((((-21int) * mono4(x1, y1, x2, y2, 0, 0, 1, 1)) + (((-42int) * mono4(x1, y1, x2, y2, 0, 1, 1, 0)) + ((-42int) * mono4(x1, y1, x2, y2, 1, 0, 0, 1)))) + (((-21int) * mono4(x1, y1, x2, y2, 1, 1, 0, 0)) + ((1int * mono4(x1, y1, x2, y2, 0, 2, 1, 1)) + (1int * mono4(x1, y1, x2, y2, 1, 1, 0, 2))))));
    assert(((((((-1323int) * mono4(x1, y1, x2, y2, 0, 0, 2, 0)) + ((-1197int) * mono4(x1, y1, x2, y2, 1, 0, 1, 0))) + (((-1449int) * mono4(x1, y1, x2, y2, 2, 0, 0, 0)) + ((-2int) * mono4(x1, y1, x2, y2, 0, 0, 2, 2)))) + (((63int * mono4(x1, y1, x2, y2, 0, 2, 2, 0)) + (10int * mono4(x1, y1, x2, y2, 1, 0, 1, 2))) + ((15int * mono4(x1, y1, x2, y2, 1, 1, 1, 1)) + (((-44int) * mono4(x1, y1, x2, y2, 2, 0, 0, 2)) + ((-105int) * mono4(x1, y1, x2, y2, 2, 1, 0, 1)))))) * ((((x1 * y2) + (y1 * x2)) * ((y1 * y2) - (21 * (1 * 1)))) - ((21 * ((y1 * 1) + (1 * y2))) * ((x1 * 1) + (1 * x2))))) == (((((-1323int) * mono4(x1, y1, x2, y2, 0, 0, 2, 0)) + ((-1197int) * mono4(x1, y1, x2, y2, 1, 0, 1, 0))) + (((-1449int) * mono4(x1, y1, x2, y2, 2, 0, 0, 0)) + ((-2int) * mono4(x1, y1, x2, y2, 0, 0, 2, 2)))) + (((63int * mono4(x1, y1, x2, y2, 0, 2, 2, 0)) + (10int * mono4(x1, y1, x2, y2, 1, 0, 1, 2))) + ((15int * mono4(x1, y1, x2, y2, 1, 1, 1, 1)) + (((-44int) * mono4(x1, y1, x2, y2, 2, 0, 0, 2)) + ((-105int) * mono4(x1, y1, x2, y2, 2, 1, 0, 1)))))) * ((((-21int) * mono4(x1, y1, x2, y2, 0, 0, 1, 1)) + (((-42int) * mono4(x1, y1, x2, y2, 0, 1, 1, 0)) + ((-42int) * mono4(x1, y1, x2, y2, 1, 0, 0, 1)))) + (((-21int) * mono4(x1, y1, x2, y2, 1, 1, 0, 0)) + ((1int * mono4(x1, y1, x2, y2, 0, 2, 1, 1)) + (1int * mono4(x1, y1, x2, y2, 1, 1, 0, 2))))));
    lemma_mul_is_distributive_add_other_way(((((-21int) * mono4(x1, y1, x2, y2, 0, 0, 1, 1)) + (((-42int) * mono4(x1, y1, x2, y2, 0, 1, 1, 0)) + ((-42int) * mono4(x1, y1, x2, y2, 1, 0, 0, 1)))) + (((-21int) * mono4(x1, y1, x2, y2, 1, 1, 0, 0)) + ((1int * mono4(x1, y1, x2, y2, 0, 2, 1, 1)) + (1int * mono4(x1, y1, x2, y2, 1, 1, 0, 2))))), ((((-1323int) * mono4(x1, y1, x2, y2, 0, 0, 2, 0)) + ((-1197int) * mono4(x1, y1, x2, y2, 1, 0, 1, 0))) + (((-1449int) * mono4(x1, y1, x2, y2, 2, 0, 0, 0)) + ((-2int) * mono4(x1, y1, x2, y2, 0, 0, 2, 2)))), (((63int * mono4(x1, y1, x2, y2, 0, 2, 2, 0)) + (10int * mono4(x1, y1, x2, y2, 1, 0, 1, 2))) + ((15int * mono4(x1, y1, x2, y2, 1, 1, 1, 1)) + (((-44int) * mono4(x1, y1, x2, y2, 2, 0, 0, 2)) + ((-105int) * mono4(x1, y1, x2, y2, 2, 1, 0, 1))))));
    lemma_mul_is_distributive_add_other_way(((((-21int) * mono4(x1, y1, x2, y2, 0, 0, 1, 1)) + (((-42int) * mono4(x1, y1, x2, y2, 0, 1, 1, 0)) + ((-42int) * mono4(x1, y1, x2, y2, 1, 0, 0, 1)))) + (((-21int) * mono4(x1, y1, x2, y2, 1, 1, 0, 0)) + ((1int * mono4(x1, y1, x2, y2, 0, 2, 1, 1)) + (1int * mono4(x1, y1, x2, y2, 1, 1, 0, 2))))), (((-1323int) * mono4(x1, y1, x2, y2, 0, 0, 2, 0)) + ((-1197int) * mono4(x1, y1, x2, y2, 1, 0, 1, 0))), (((-1449int) * mono4(x1, y1, x2, y2, 2, 0, 0, 0)) + ((-2int) * mono4(x1, y1, x2, y2, 0, 0, 2, 2))));
    lemma_mul_is_distributive_add_other_way(((((-21int) * mono4(x1, y1, x2, y2, 0, 0, 1, 1)) + (((-42int) * mono4(x1, y1, x2, y2, 0, 1, 1, 0)) + ((-42int) * mono4(x1, y1, x2, y2, 1, 0, 0, 1)))) + (((-21int) * mono4(x1, y1, x2, y2, 1, 1, 0, 0)) + ((1int * mono4(x1, y1, x2, y2, 0, 2, 1, 1)) + (1int * mono4(x1, y1, x2, y2, 1, 1, 0, 2))))), ((-1323int) * mono4(x1, y1, x2, y2, 0, 0, 2, 0)), ((-1197int) * mono4(x1, y1, x2, y2, 1, 0, 1, 0)));
    lemma_mul_is_distributive_add_other_way(((((-21int) * mono4(x1, y1, x2, y2, 0, 0, 1, 1)) + (((-42int) * mono4(x1, y1, x2, y2, 0, 1, 1, 0)) + ((-42int) * mono4(x1, y1, x2, y2, 1, 0, 0, 1)))) + (((-21int) * mono4(x1, y1, x2, y2, 1, 1, 0, 0)) + ((1int * mono4(x1, y1, x2, y2, 0, 2, 1, 1)) + (1int * mono4(x1, y1, x2, y2, 1, 1, 0, 2))))), ((-1449int) * mono4(x1, y1, x2, y2, 2, 0, 0, 0)), ((-2int) * mono4(x1, y1, x2, y2, 0, 0, 2, 2)));
    lemma_mul_is_distributive_add_other_way(((((-21int) * mono4(x1, y1, x2, y2, 0, 0, 1, 1)) + (((-42int) * mono4(x1, y1, x2, y2, 0, 1, 1, 0)) + ((-42int) * mono4(x1, y1, x2, y2, 1, 0, 0, 1)))) + (((-21int) * mono4(x1, y1, x2, y2, 1, 1, 0, 0)) + ((1int * mono4(x1, y1, x2, y2, 0, 2, 1, 1)) + (1int * mono4(x1, y1, x2, y2, 1, 1, 0, 2))))), ((63int * mono4(x1, y1, x2, y2, 0, 2, 2, 0)) + (10int * mono4(x1, y1, x2, y2, 1, 0, 1, 2))), ((15int * mono4(x1, y1, x2, y2, 1, 1, 1, 1)) + (((-44int) * mono4(x1, y1, x2, y2, 2, 0, 0, 2)) + ((-105int) * mono4(x1, y1, x2, y2, 2, 1, 0, 1)))));
    lemma_mul_is_distributive_add_other_way(((((-21int) * mono4(x1, y1, x2, y2, 0, 0, 1, 1)) + (((-42int) * mono4(x1, y1, x2, y2, 0, 1, 1, 0)) + ((-42int) * mono4(x1, y1, x2, y2, 1, 0, 0, 1)))) + (((-21int) * mono4(x1, y1, x2, y2, 1, 1, 0, 0)) + ((1int * mono4(x1, y1, x2, y2, 0, 2, 1, 1)) + (1int * mono4(x1, y1, x2, y2, 1, 1, 0, 2))))), (63int * mono4(x1, y1, x2, y2, 0, 2, 2, 0)), (10int * mono4(x1, y1, x2, y2, 1, 0, 1, 2)));
    lemma_mul_is_distributive_add_other_way(((((-21int) * mono4(x1, y1, x2, y2, 0, 0, 1, 1)) + (((-42int) * mono4(x1, y1, x2, y2, 0, 1, 1, 0)) + ((-42int) * mono4(x1, y1, x2, y2, 1, 0, 0, 1)))) + (((-21int) * mono4(x1, y1, x2, y2, 1, 1, 0, 0)) + ((1int * mono4(x1, y1, x2, y2, 0, 2, 1, 1)) + (1int * mono4(x1, y1, x2, y2, 1, 1, 0, 2))))), (15int * mono4(x1, y1, x2, y2, 1, 1, 1, 1)), (((-44int) * mono4(x1, y1, x2, y2, 2, 0, 0, 2)) + ((-105int) * mono4(x1, y1, x2, y2, 2, 1, 0, 1))));
    lemma_mul_is_distributive_add_other_way(((((-21int) * mono4(x1, y1, x2, y2, 0, 0, 1, 1)) + (((-42int) * mono4(x1, y1, x2, y2, 0, 1, 1, 0)) + ((-42int) * mono4(x1, y1, x2, y2, 1, 0, 0, 1)))) + (((-21int) * mono4(x1, y1, x2, y2, 1, 1, 0, 0)) + ((1int * mono4(x1, y1, x2, y2, 0, 2, 1, 1)) + (1int * mono4(x1, y1, x2, y2, 1, 1, 0, 2))))), ((-44int) * mono4(x1, y1, x2, y2, 2, 0, 0, 2)), ((-105int) * mono4(x1, y1, x2, y2, 2, 1, 0, 1)));
    lemma_mul_is_distributive_add(((-1323int) * mono4(x1, y1, x2, y2, 0, 0, 2, 0)), (((-21int) * mono4(x1, y1, x2, y2, 0, 0, 1, 1)) + (((-42int) * mono4(x1, y1, x2, y2, 0, 1, 1, 0)) + ((-42int) * mono4(x1, y1, x2, y2, 1, 0, 0, 1)))), (((-21int) * mono4(x1, y1, x2, y2, 1, 1, 0, 0)) + ((1int * mono4(x1, y1, x2, y2, 0, 2, 1, 1)) + (1int * mono4(x1, y1, x2, y2, 1, 1, 0, 2)))));
    lemma_mul_is_distributive_add(((-1323int) * mono4(x1, y1, x2, y2, 0, 0, 2, 0)), ((-21int) * mono4(x1, y1, x2, y2, 0, 0, 1, 1)), (((-42int) * mono4(x1, y1, x2, y2, 0, 1, 1, 0)) + ((-42int) * mono4(x1, y1, x2, y2, 1, 0, 0, 1))));
    lemma_mul_is_distributive_add(((-1323int) * mono4(x1, y1, x2, y2, 0, 0, 2, 0)), ((-42int) * mono4(x1, y1, x2, y2, 0, 1, 1, 0)), ((-42int) * mono4(x1, y1, x2, y2, 1, 0, 0, 1)));
    lemma_mul_is_distributive_add(((-1323int) * mono4(x1, y1, x2, y2, 0, 0, 2, 0)), ((-21int) * mono4(x1, y1, x2, y2, 1, 1, 0, 0)), ((1int * mono4(x1, y1, x2, y2, 0, 2, 1, 1)) + (1int * mono4(x1, y1, x2, y2, 1, 1, 0, 2))));
    lemma_mul_is_distributive_add(((-1323int) * mono4(x1, y1, x2, y2, 0, 0, 2, 0)), (1int * mono4(x1, y1, x2, y2, 0, 2, 1, 1)), (1int * mono4(x1, y1, x2, y2, 1, 1, 0, 2)));
    lemma_coefficient_product((-1323int), mono4(x1, y1, x2, y2, 0, 0, 2, 0), (-21int), mono4(x1, y1, x2, y2, 0, 0, 1, 1));
    lemma_mono4_mul(x1, y1, x2, y2, 0, 0, 2, 0, 0, 0, 1, 1);
    lemma_coefficient_product((-1323int), mono4(x1, y1, x2, y2, 0, 0, 2, 0), (-42int), mono4(x1, y1, x2, y2, 0, 1, 1, 0));
    lemma_mono4_mul(x1, y1, x2, y2, 0, 0, 2, 0, 0, 1, 1, 0);
    lemma_coefficient_product((-1323int), mono4(x1, y1, x2, y2, 0, 0, 2, 0), (-42int), mono4(x1, y1, x2, y2, 1, 0, 0, 1));
    lemma_mono4_mul(x1, y1, x2, y2, 0, 0, 2, 0, 1, 0, 0, 1);
    lemma_coefficient_product((-1323int), mono4(x1, y1, x2, y2, 0, 0, 2, 0), (-21int), mono4(x1, y1, x2, y2, 1, 1, 0, 0));
    lemma_mono4_mul(x1, y1, x2, y2, 0, 0, 2, 0, 1, 1, 0, 0);
    lemma_coefficient_product((-1323int), mono4(x1, y1, x2, y2, 0, 0, 2, 0), 1int, mono4(x1, y1, x2, y2, 0, 2, 1, 1));
    lemma_mono4_mul(x1, y1, x2, y2, 0, 0, 2, 0, 0, 2, 1, 1);
    lemma_coefficient_product((-1323int), mono4(x1, y1, x2, y2, 0, 0, 2, 0), 1int, mono4(x1, y1, x2, y2, 1, 1, 0, 2));
    lemma_mono4_mul(x1, y1, x2, y2, 0, 0, 2, 0, 1, 1, 0, 2);
    lemma_mul_is_distributive_add(((-1197int) * mono4(x1, y1, x2, y2, 1, 0, 1, 0)), (((-21int) * mono4(x1, y1, x2, y2, 0, 0, 1, 1)) + (((-42int) * mono4(x1, y1, x2, y2, 0, 1, 1, 0)) + ((-42int) * mono4(x1, y1, x2, y2, 1, 0, 0, 1)))), (((-21int) * mono4(x1, y1, x2, y2, 1, 1, 0, 0)) + ((1int * mono4(x1, y1, x2, y2, 0, 2, 1, 1)) + (1int * mono4(x1, y1, x2, y2, 1, 1, 0, 2)))));
    lemma_mul_is_distributive_add(((-1197int) * mono4(x1, y1, x2, y2, 1, 0, 1, 0)), ((-21int) * mono4(x1, y1, x2, y2, 0, 0, 1, 1)), (((-42int) * mono4(x1, y1, x2, y2, 0, 1, 1, 0)) + ((-42int) * mono4(x1, y1, x2, y2, 1, 0, 0, 1))));
    lemma_mul_is_distributive_add(((-1197int) * mono4(x1, y1, x2, y2, 1, 0, 1, 0)), ((-42int) * mono4(x1, y1, x2, y2, 0, 1, 1, 0)), ((-42int) * mono4(x1, y1, x2, y2, 1, 0, 0, 1)));
    lemma_mul_is_distributive_add(((-1197int) * mono4(x1, y1, x2, y2, 1, 0, 1, 0)), ((-21int) * mono4(x1, y1, x2, y2, 1, 1, 0, 0)), ((1int * mono4(x1, y1, x2, y2, 0, 2, 1, 1)) + (1int * mono4(x1, y1, x2, y2, 1, 1, 0, 2))));
    lemma_mul_is_distributive_add(((-1197int) * mono4(x1, y1, x2, y2, 1, 0, 1, 0)), (1int * mono4(x1, y1, x2, y2, 0, 2, 1, 1)), (1int * mono4(x1, y1, x2, y2, 1, 1, 0, 2)));
    lemma_coefficient_product((-1197int), mono4(x1, y1, x2, y2, 1, 0, 1, 0), (-21int), mono4(x1, y1, x2, y2, 0, 0, 1, 1));
    lemma_mono4_mul(x1, y1, x2, y2, 1, 0, 1, 0, 0, 0, 1, 1);
    lemma_coefficient_product((-1197int), mono4(x1, y1, x2, y2, 1, 0, 1, 0), (-42int), mono4(x1, y1, x2, y2, 0, 1, 1, 0));
    lemma_mono4_mul(x1, y1, x2, y2, 1, 0, 1, 0, 0, 1, 1, 0);
    lemma_coefficient_product((-1197int), mono4(x1, y1, x2, y2, 1, 0, 1, 0), (-42int), mono4(x1, y1, x2, y2, 1, 0, 0, 1));
    lemma_mono4_mul(x1, y1, x2, y2, 1, 0, 1, 0, 1, 0, 0, 1);
    lemma_coefficient_product((-1197int), mono4(x1, y1, x2, y2, 1, 0, 1, 0), (-21int), mono4(x1, y1, x2, y2, 1, 1, 0, 0));
    lemma_mono4_mul(x1, y1, x2, y2, 1, 0, 1, 0, 1, 1, 0, 0);
    lemma_coefficient_product((-1197int), mono4(x1, y1, x2, y2, 1, 0, 1, 0), 1int, mono4(x1, y1, x2, y2, 0, 2, 1, 1));
    lemma_mono4_mul(x1, y1, x2, y2, 1, 0, 1, 0, 0, 2, 1, 1);
    lemma_coefficient_product((-1197int), mono4(x1, y1, x2, y2, 1, 0, 1, 0), 1int, mono4(x1, y1, x2, y2, 1, 1, 0, 2));
    lemma_mono4_mul(x1, y1, x2, y2, 1, 0, 1, 0, 1, 1, 0, 2);
    lemma_mul_is_distributive_add(((-1449int) * mono4(x1, y1, x2, y2, 2, 0, 0, 0)), (((-21int) * mono4(x1, y1, x2, y2, 0, 0, 1, 1)) + (((-42int) * mono4(x1, y1, x2, y2, 0, 1, 1, 0)) + ((-42int) * mono4(x1, y1, x2, y2, 1, 0, 0, 1)))), (((-21int) * mono4(x1, y1, x2, y2, 1, 1, 0, 0)) + ((1int * mono4(x1, y1, x2, y2, 0, 2, 1, 1)) + (1int * mono4(x1, y1, x2, y2, 1, 1, 0, 2)))));
    lemma_mul_is_distributive_add(((-1449int) * mono4(x1, y1, x2, y2, 2, 0, 0, 0)), ((-21int) * mono4(x1, y1, x2, y2, 0, 0, 1, 1)), (((-42int) * mono4(x1, y1, x2, y2, 0, 1, 1, 0)) + ((-42int) * mono4(x1, y1, x2, y2, 1, 0, 0, 1))));
    lemma_mul_is_distributive_add(((-1449int) * mono4(x1, y1, x2, y2, 2, 0, 0, 0)), ((-42int) * mono4(x1, y1, x2, y2, 0, 1, 1, 0)), ((-42int) * mono4(x1, y1, x2, y2, 1, 0, 0, 1)));
    lemma_mul_is_distributive_add(((-1449int) * mono4(x1, y1, x2, y2, 2, 0, 0, 0)), ((-21int) * mono4(x1, y1, x2, y2, 1, 1, 0, 0)), ((1int * mono4(x1, y1, x2, y2, 0, 2, 1, 1)) + (1int * mono4(x1, y1, x2, y2, 1, 1, 0, 2))));
    lemma_mul_is_distributive_add(((-1449int) * mono4(x1, y1, x2, y2, 2, 0, 0, 0)), (1int * mono4(x1, y1, x2, y2, 0, 2, 1, 1)), (1int * mono4(x1, y1, x2, y2, 1, 1, 0, 2)));
    lemma_coefficient_product((-1449int), mono4(x1, y1, x2, y2, 2, 0, 0, 0), (-21int), mono4(x1, y1, x2, y2, 0, 0, 1, 1));
    lemma_mono4_mul(x1, y1, x2, y2, 2, 0, 0, 0, 0, 0, 1, 1);
    lemma_coefficient_product((-1449int), mono4(x1, y1, x2, y2, 2, 0, 0, 0), (-42int), mono4(x1, y1, x2, y2, 0, 1, 1, 0));
    lemma_mono4_mul(x1, y1, x2, y2, 2, 0, 0, 0, 0, 1, 1, 0);
    lemma_coefficient_product((-1449int), mono4(x1, y1, x2, y2, 2, 0, 0, 0), (-42int), mono4(x1, y1, x2, y2, 1, 0, 0, 1));
    lemma_mono4_mul(x1, y1, x2, y2, 2, 0, 0, 0, 1, 0, 0, 1);
    lemma_coefficient_product((-1449int), mono4(x1, y1, x2, y2, 2, 0, 0, 0), (-21int), mono4(x1, y1, x2, y2, 1, 1, 0, 0));
    lemma_mono4_mul(x1, y1, x2, y2, 2, 0, 0, 0, 1, 1, 0, 0);
    lemma_coefficient_product((-1449int), mono4(x1, y1, x2, y2, 2, 0, 0, 0), 1int, mono4(x1, y1, x2, y2, 0, 2, 1, 1));
    lemma_mono4_mul(x1, y1, x2, y2, 2, 0, 0, 0, 0, 2, 1, 1);
    lemma_coefficient_product((-1449int), mono4(x1, y1, x2, y2, 2, 0, 0, 0), 1int, mono4(x1, y1, x2, y2, 1, 1, 0, 2));
    lemma_mono4_mul(x1, y1, x2, y2, 2, 0, 0, 0, 1, 1, 0, 2);
    lemma_mul_is_distributive_add(((-2int) * mono4(x1, y1, x2, y2, 0, 0, 2, 2)), (((-21int) * mono4(x1, y1, x2, y2, 0, 0, 1, 1)) + (((-42int) * mono4(x1, y1, x2, y2, 0, 1, 1, 0)) + ((-42int) * mono4(x1, y1, x2, y2, 1, 0, 0, 1)))), (((-21int) * mono4(x1, y1, x2, y2, 1, 1, 0, 0)) + ((1int * mono4(x1, y1, x2, y2, 0, 2, 1, 1)) + (1int * mono4(x1, y1, x2, y2, 1, 1, 0, 2)))));
    lemma_mul_is_distributive_add(((-2int) * mono4(x1, y1, x2, y2, 0, 0, 2, 2)), ((-21int) * mono4(x1, y1, x2, y2, 0, 0, 1, 1)), (((-42int) * mono4(x1, y1, x2, y2, 0, 1, 1, 0)) + ((-42int) * mono4(x1, y1, x2, y2, 1, 0, 0, 1))));
    lemma_mul_is_distributive_add(((-2int) * mono4(x1, y1, x2, y2, 0, 0, 2, 2)), ((-42int) * mono4(x1, y1, x2, y2, 0, 1, 1, 0)), ((-42int) * mono4(x1, y1, x2, y2, 1, 0, 0, 1)));
    lemma_mul_is_distributive_add(((-2int) * mono4(x1, y1, x2, y2, 0, 0, 2, 2)), ((-21int) * mono4(x1, y1, x2, y2, 1, 1, 0, 0)), ((1int * mono4(x1, y1, x2, y2, 0, 2, 1, 1)) + (1int * mono4(x1, y1, x2, y2, 1, 1, 0, 2))));
    lemma_mul_is_distributive_add(((-2int) * mono4(x1, y1, x2, y2, 0, 0, 2, 2)), (1int * mono4(x1, y1, x2, y2, 0, 2, 1, 1)), (1int * mono4(x1, y1, x2, y2, 1, 1, 0, 2)));
    lemma_coefficient_product((-2int), mono4(x1, y1, x2, y2, 0, 0, 2, 2), (-21int), mono4(x1, y1, x2, y2, 0, 0, 1, 1));
    lemma_mono4_mul(x1, y1, x2, y2, 0, 0, 2, 2, 0, 0, 1, 1);
    lemma_coefficient_product((-2int), mono4(x1, y1, x2, y2, 0, 0, 2, 2), (-42int), mono4(x1, y1, x2, y2, 0, 1, 1, 0));
    lemma_mono4_mul(x1, y1, x2, y2, 0, 0, 2, 2, 0, 1, 1, 0);
    lemma_coefficient_product((-2int), mono4(x1, y1, x2, y2, 0, 0, 2, 2), (-42int), mono4(x1, y1, x2, y2, 1, 0, 0, 1));
    lemma_mono4_mul(x1, y1, x2, y2, 0, 0, 2, 2, 1, 0, 0, 1);
    lemma_coefficient_product((-2int), mono4(x1, y1, x2, y2, 0, 0, 2, 2), (-21int), mono4(x1, y1, x2, y2, 1, 1, 0, 0));
    lemma_mono4_mul(x1, y1, x2, y2, 0, 0, 2, 2, 1, 1, 0, 0);
    lemma_coefficient_product((-2int), mono4(x1, y1, x2, y2, 0, 0, 2, 2), 1int, mono4(x1, y1, x2, y2, 0, 2, 1, 1));
    lemma_mono4_mul(x1, y1, x2, y2, 0, 0, 2, 2, 0, 2, 1, 1);
    lemma_coefficient_product((-2int), mono4(x1, y1, x2, y2, 0, 0, 2, 2), 1int, mono4(x1, y1, x2, y2, 1, 1, 0, 2));
    lemma_mono4_mul(x1, y1, x2, y2, 0, 0, 2, 2, 1, 1, 0, 2);
    lemma_mul_is_distributive_add((63int * mono4(x1, y1, x2, y2, 0, 2, 2, 0)), (((-21int) * mono4(x1, y1, x2, y2, 0, 0, 1, 1)) + (((-42int) * mono4(x1, y1, x2, y2, 0, 1, 1, 0)) + ((-42int) * mono4(x1, y1, x2, y2, 1, 0, 0, 1)))), (((-21int) * mono4(x1, y1, x2, y2, 1, 1, 0, 0)) + ((1int * mono4(x1, y1, x2, y2, 0, 2, 1, 1)) + (1int * mono4(x1, y1, x2, y2, 1, 1, 0, 2)))));
    lemma_mul_is_distributive_add((63int * mono4(x1, y1, x2, y2, 0, 2, 2, 0)), ((-21int) * mono4(x1, y1, x2, y2, 0, 0, 1, 1)), (((-42int) * mono4(x1, y1, x2, y2, 0, 1, 1, 0)) + ((-42int) * mono4(x1, y1, x2, y2, 1, 0, 0, 1))));
    lemma_mul_is_distributive_add((63int * mono4(x1, y1, x2, y2, 0, 2, 2, 0)), ((-42int) * mono4(x1, y1, x2, y2, 0, 1, 1, 0)), ((-42int) * mono4(x1, y1, x2, y2, 1, 0, 0, 1)));
    lemma_mul_is_distributive_add((63int * mono4(x1, y1, x2, y2, 0, 2, 2, 0)), ((-21int) * mono4(x1, y1, x2, y2, 1, 1, 0, 0)), ((1int * mono4(x1, y1, x2, y2, 0, 2, 1, 1)) + (1int * mono4(x1, y1, x2, y2, 1, 1, 0, 2))));
    lemma_mul_is_distributive_add((63int * mono4(x1, y1, x2, y2, 0, 2, 2, 0)), (1int * mono4(x1, y1, x2, y2, 0, 2, 1, 1)), (1int * mono4(x1, y1, x2, y2, 1, 1, 0, 2)));
    lemma_coefficient_product(63int, mono4(x1, y1, x2, y2, 0, 2, 2, 0), (-21int), mono4(x1, y1, x2, y2, 0, 0, 1, 1));
    lemma_mono4_mul(x1, y1, x2, y2, 0, 2, 2, 0, 0, 0, 1, 1);
    lemma_coefficient_product(63int, mono4(x1, y1, x2, y2, 0, 2, 2, 0), (-42int), mono4(x1, y1, x2, y2, 0, 1, 1, 0));
    lemma_mono4_mul(x1, y1, x2, y2, 0, 2, 2, 0, 0, 1, 1, 0);
    lemma_coefficient_product(63int, mono4(x1, y1, x2, y2, 0, 2, 2, 0), (-42int), mono4(x1, y1, x2, y2, 1, 0, 0, 1));
    lemma_mono4_mul(x1, y1, x2, y2, 0, 2, 2, 0, 1, 0, 0, 1);
    lemma_coefficient_product(63int, mono4(x1, y1, x2, y2, 0, 2, 2, 0), (-21int), mono4(x1, y1, x2, y2, 1, 1, 0, 0));
    lemma_mono4_mul(x1, y1, x2, y2, 0, 2, 2, 0, 1, 1, 0, 0);
    lemma_coefficient_product(63int, mono4(x1, y1, x2, y2, 0, 2, 2, 0), 1int, mono4(x1, y1, x2, y2, 0, 2, 1, 1));
    lemma_mono4_mul(x1, y1, x2, y2, 0, 2, 2, 0, 0, 2, 1, 1);
    lemma_coefficient_product(63int, mono4(x1, y1, x2, y2, 0, 2, 2, 0), 1int, mono4(x1, y1, x2, y2, 1, 1, 0, 2));
    lemma_mono4_mul(x1, y1, x2, y2, 0, 2, 2, 0, 1, 1, 0, 2);
    lemma_mul_is_distributive_add((10int * mono4(x1, y1, x2, y2, 1, 0, 1, 2)), (((-21int) * mono4(x1, y1, x2, y2, 0, 0, 1, 1)) + (((-42int) * mono4(x1, y1, x2, y2, 0, 1, 1, 0)) + ((-42int) * mono4(x1, y1, x2, y2, 1, 0, 0, 1)))), (((-21int) * mono4(x1, y1, x2, y2, 1, 1, 0, 0)) + ((1int * mono4(x1, y1, x2, y2, 0, 2, 1, 1)) + (1int * mono4(x1, y1, x2, y2, 1, 1, 0, 2)))));
    lemma_mul_is_distributive_add((10int * mono4(x1, y1, x2, y2, 1, 0, 1, 2)), ((-21int) * mono4(x1, y1, x2, y2, 0, 0, 1, 1)), (((-42int) * mono4(x1, y1, x2, y2, 0, 1, 1, 0)) + ((-42int) * mono4(x1, y1, x2, y2, 1, 0, 0, 1))));
    lemma_mul_is_distributive_add((10int * mono4(x1, y1, x2, y2, 1, 0, 1, 2)), ((-42int) * mono4(x1, y1, x2, y2, 0, 1, 1, 0)), ((-42int) * mono4(x1, y1, x2, y2, 1, 0, 0, 1)));
    lemma_mul_is_distributive_add((10int * mono4(x1, y1, x2, y2, 1, 0, 1, 2)), ((-21int) * mono4(x1, y1, x2, y2, 1, 1, 0, 0)), ((1int * mono4(x1, y1, x2, y2, 0, 2, 1, 1)) + (1int * mono4(x1, y1, x2, y2, 1, 1, 0, 2))));
    lemma_mul_is_distributive_add((10int * mono4(x1, y1, x2, y2, 1, 0, 1, 2)), (1int * mono4(x1, y1, x2, y2, 0, 2, 1, 1)), (1int * mono4(x1, y1, x2, y2, 1, 1, 0, 2)));
    lemma_coefficient_product(10int, mono4(x1, y1, x2, y2, 1, 0, 1, 2), (-21int), mono4(x1, y1, x2, y2, 0, 0, 1, 1));
    lemma_mono4_mul(x1, y1, x2, y2, 1, 0, 1, 2, 0, 0, 1, 1);
    lemma_coefficient_product(10int, mono4(x1, y1, x2, y2, 1, 0, 1, 2), (-42int), mono4(x1, y1, x2, y2, 0, 1, 1, 0));
    lemma_mono4_mul(x1, y1, x2, y2, 1, 0, 1, 2, 0, 1, 1, 0);
    lemma_coefficient_product(10int, mono4(x1, y1, x2, y2, 1, 0, 1, 2), (-42int), mono4(x1, y1, x2, y2, 1, 0, 0, 1));
    lemma_mono4_mul(x1, y1, x2, y2, 1, 0, 1, 2, 1, 0, 0, 1);
    lemma_coefficient_product(10int, mono4(x1, y1, x2, y2, 1, 0, 1, 2), (-21int), mono4(x1, y1, x2, y2, 1, 1, 0, 0));
    lemma_mono4_mul(x1, y1, x2, y2, 1, 0, 1, 2, 1, 1, 0, 0);
    lemma_coefficient_product(10int, mono4(x1, y1, x2, y2, 1, 0, 1, 2), 1int, mono4(x1, y1, x2, y2, 0, 2, 1, 1));
    lemma_mono4_mul(x1, y1, x2, y2, 1, 0, 1, 2, 0, 2, 1, 1);
    lemma_coefficient_product(10int, mono4(x1, y1, x2, y2, 1, 0, 1, 2), 1int, mono4(x1, y1, x2, y2, 1, 1, 0, 2));
    lemma_mono4_mul(x1, y1, x2, y2, 1, 0, 1, 2, 1, 1, 0, 2);
    lemma_mul_is_distributive_add((15int * mono4(x1, y1, x2, y2, 1, 1, 1, 1)), (((-21int) * mono4(x1, y1, x2, y2, 0, 0, 1, 1)) + (((-42int) * mono4(x1, y1, x2, y2, 0, 1, 1, 0)) + ((-42int) * mono4(x1, y1, x2, y2, 1, 0, 0, 1)))), (((-21int) * mono4(x1, y1, x2, y2, 1, 1, 0, 0)) + ((1int * mono4(x1, y1, x2, y2, 0, 2, 1, 1)) + (1int * mono4(x1, y1, x2, y2, 1, 1, 0, 2)))));
    lemma_mul_is_distributive_add((15int * mono4(x1, y1, x2, y2, 1, 1, 1, 1)), ((-21int) * mono4(x1, y1, x2, y2, 0, 0, 1, 1)), (((-42int) * mono4(x1, y1, x2, y2, 0, 1, 1, 0)) + ((-42int) * mono4(x1, y1, x2, y2, 1, 0, 0, 1))));
    lemma_mul_is_distributive_add((15int * mono4(x1, y1, x2, y2, 1, 1, 1, 1)), ((-42int) * mono4(x1, y1, x2, y2, 0, 1, 1, 0)), ((-42int) * mono4(x1, y1, x2, y2, 1, 0, 0, 1)));
    lemma_mul_is_distributive_add((15int * mono4(x1, y1, x2, y2, 1, 1, 1, 1)), ((-21int) * mono4(x1, y1, x2, y2, 1, 1, 0, 0)), ((1int * mono4(x1, y1, x2, y2, 0, 2, 1, 1)) + (1int * mono4(x1, y1, x2, y2, 1, 1, 0, 2))));
    lemma_mul_is_distributive_add((15int * mono4(x1, y1, x2, y2, 1, 1, 1, 1)), (1int * mono4(x1, y1, x2, y2, 0, 2, 1, 1)), (1int * mono4(x1, y1, x2, y2, 1, 1, 0, 2)));
    lemma_coefficient_product(15int, mono4(x1, y1, x2, y2, 1, 1, 1, 1), (-21int), mono4(x1, y1, x2, y2, 0, 0, 1, 1));
    lemma_mono4_mul(x1, y1, x2, y2, 1, 1, 1, 1, 0, 0, 1, 1);
    lemma_coefficient_product(15int, mono4(x1, y1, x2, y2, 1, 1, 1, 1), (-42int), mono4(x1, y1, x2, y2, 0, 1, 1, 0));
    lemma_mono4_mul(x1, y1, x2, y2, 1, 1, 1, 1, 0, 1, 1, 0);
    lemma_coefficient_product(15int, mono4(x1, y1, x2, y2, 1, 1, 1, 1), (-42int), mono4(x1, y1, x2, y2, 1, 0, 0, 1));
    lemma_mono4_mul(x1, y1, x2, y2, 1, 1, 1, 1, 1, 0, 0, 1);
    lemma_coefficient_product(15int, mono4(x1, y1, x2, y2, 1, 1, 1, 1), (-21int), mono4(x1, y1, x2, y2, 1, 1, 0, 0));
    lemma_mono4_mul(x1, y1, x2, y2, 1, 1, 1, 1, 1, 1, 0, 0);
    lemma_coefficient_product(15int, mono4(x1, y1, x2, y2, 1, 1, 1, 1), 1int, mono4(x1, y1, x2, y2, 0, 2, 1, 1));
    lemma_mono4_mul(x1, y1, x2, y2, 1, 1, 1, 1, 0, 2, 1, 1);
    lemma_coefficient_product(15int, mono4(x1, y1, x2, y2, 1, 1, 1, 1), 1int, mono4(x1, y1, x2, y2, 1, 1, 0, 2));
    lemma_mono4_mul(x1, y1, x2, y2, 1, 1, 1, 1, 1, 1, 0, 2);
    lemma_mul_is_distributive_add(((-44int) * mono4(x1, y1, x2, y2, 2, 0, 0, 2)), (((-21int) * mono4(x1, y1, x2, y2, 0, 0, 1, 1)) + (((-42int) * mono4(x1, y1, x2, y2, 0, 1, 1, 0)) + ((-42int) * mono4(x1, y1, x2, y2, 1, 0, 0, 1)))), (((-21int) * mono4(x1, y1, x2, y2, 1, 1, 0, 0)) + ((1int * mono4(x1, y1, x2, y2, 0, 2, 1, 1)) + (1int * mono4(x1, y1, x2, y2, 1, 1, 0, 2)))));
    lemma_mul_is_distributive_add(((-44int) * mono4(x1, y1, x2, y2, 2, 0, 0, 2)), ((-21int) * mono4(x1, y1, x2, y2, 0, 0, 1, 1)), (((-42int) * mono4(x1, y1, x2, y2, 0, 1, 1, 0)) + ((-42int) * mono4(x1, y1, x2, y2, 1, 0, 0, 1))));
    lemma_mul_is_distributive_add(((-44int) * mono4(x1, y1, x2, y2, 2, 0, 0, 2)), ((-42int) * mono4(x1, y1, x2, y2, 0, 1, 1, 0)), ((-42int) * mono4(x1, y1, x2, y2, 1, 0, 0, 1)));
    lemma_mul_is_distributive_add(((-44int) * mono4(x1, y1, x2, y2, 2, 0, 0, 2)), ((-21int) * mono4(x1, y1, x2, y2, 1, 1, 0, 0)), ((1int * mono4(x1, y1, x2, y2, 0, 2, 1, 1)) + (1int * mono4(x1, y1, x2, y2, 1, 1, 0, 2))));
    lemma_mul_is_distributive_add(((-44int) * mono4(x1, y1, x2, y2, 2, 0, 0, 2)), (1int * mono4(x1, y1, x2, y2, 0, 2, 1, 1)), (1int * mono4(x1, y1, x2, y2, 1, 1, 0, 2)));
    lemma_coefficient_product((-44int), mono4(x1, y1, x2, y2, 2, 0, 0, 2), (-21int), mono4(x1, y1, x2, y2, 0, 0, 1, 1));
    lemma_mono4_mul(x1, y1, x2, y2, 2, 0, 0, 2, 0, 0, 1, 1);
    lemma_coefficient_product((-44int), mono4(x1, y1, x2, y2, 2, 0, 0, 2), (-42int), mono4(x1, y1, x2, y2, 0, 1, 1, 0));
    lemma_mono4_mul(x1, y1, x2, y2, 2, 0, 0, 2, 0, 1, 1, 0);
    lemma_coefficient_product((-44int), mono4(x1, y1, x2, y2, 2, 0, 0, 2), (-42int), mono4(x1, y1, x2, y2, 1, 0, 0, 1));
    lemma_mono4_mul(x1, y1, x2, y2, 2, 0, 0, 2, 1, 0, 0, 1);
    lemma_coefficient_product((-44int), mono4(x1, y1, x2, y2, 2, 0, 0, 2), (-21int), mono4(x1, y1, x2, y2, 1, 1, 0, 0));
    lemma_mono4_mul(x1, y1, x2, y2, 2, 0, 0, 2, 1, 1, 0, 0);
    lemma_coefficient_product((-44int), mono4(x1, y1, x2, y2, 2, 0, 0, 2), 1int, mono4(x1, y1, x2, y2, 0, 2, 1, 1));
    lemma_mono4_mul(x1, y1, x2, y2, 2, 0, 0, 2, 0, 2, 1, 1);
    lemma_coefficient_product((-44int), mono4(x1, y1, x2, y2, 2, 0, 0, 2), 1int, mono4(x1, y1, x2, y2, 1, 1, 0, 2));
    lemma_mono4_mul(x1, y1, x2, y2, 2, 0, 0, 2, 1, 1, 0, 2);
    lemma_mul_is_distributive_add(((-105int) * mono4(x1, y1, x2, y2, 2, 1, 0, 1)), (((-21int) * mono4(x1, y1, x2, y2, 0, 0, 1, 1)) + (((-42int) * mono4(x1, y1, x2, y2, 0, 1, 1, 0)) + ((-42int) * mono4(x1, y1, x2, y2, 1, 0, 0, 1)))), (((-21int) * mono4(x1, y1, x2, y2, 1, 1, 0, 0)) + ((1int * mono4(x1, y1, x2, y2, 0, 2, 1, 1)) + (1int * mono4(x1, y1, x2, y2, 1, 1, 0, 2)))));
    lemma_mul_is_distributive_add(((-105int) * mono4(x1, y1, x2, y2, 2, 1, 0, 1)), ((-21int) * mono4(x1, y1, x2, y2, 0, 0, 1, 1)), (((-42int) * mono4(x1, y1, x2, y2, 0, 1, 1, 0)) + ((-42int) * mono4(x1, y1, x2, y2, 1, 0, 0, 1))));
    lemma_mul_is_distributive_add(((-105int) * mono4(x1, y1, x2, y2, 2, 1, 0, 1)), ((-42int) * mono4(x1, y1, x2, y2, 0, 1, 1, 0)), ((-42int) * mono4(x1, y1, x2, y2, 1, 0, 0, 1)));
    lemma_mul_is_distributive_add(((-105int) * mono4(x1, y1, x2, y2, 2, 1, 0, 1)), ((-21int) * mono4(x1, y1, x2, y2, 1, 1, 0, 0)), ((1int * mono4(x1, y1, x2, y2, 0, 2, 1, 1)) + (1int * mono4(x1, y1, x2, y2, 1, 1, 0, 2))));
    lemma_mul_is_distributive_add(((-105int) * mono4(x1, y1, x2, y2, 2, 1, 0, 1)), (1int * mono4(x1, y1, x2, y2, 0, 2, 1, 1)), (1int * mono4(x1, y1, x2, y2, 1, 1, 0, 2)));
    lemma_coefficient_product((-105int), mono4(x1, y1, x2, y2, 2, 1, 0, 1), (-21int), mono4(x1, y1, x2, y2, 0, 0, 1, 1));
    lemma_mono4_mul(x1, y1, x2, y2, 2, 1, 0, 1, 0, 0, 1, 1);
    lemma_coefficient_product((-105int), mono4(x1, y1, x2, y2, 2, 1, 0, 1), (-42int), mono4(x1, y1, x2, y2, 0, 1, 1, 0));
    lemma_mono4_mul(x1, y1, x2, y2, 2, 1, 0, 1, 0, 1, 1, 0);
    lemma_coefficient_product((-105int), mono4(x1, y1, x2, y2, 2, 1, 0, 1), (-42int), mono4(x1, y1, x2, y2, 1, 0, 0, 1));
    lemma_mono4_mul(x1, y1, x2, y2, 2, 1, 0, 1, 1, 0, 0, 1);
    lemma_coefficient_product((-105int), mono4(x1, y1, x2, y2, 2, 1, 0, 1), (-21int), mono4(x1, y1, x2, y2, 1, 1, 0, 0));
    lemma_mono4_mul(x1, y1, x2, y2, 2, 1, 0, 1, 1, 1, 0, 0);
    lemma_coefficient_product((-105int), mono4(x1, y1, x2, y2, 2, 1, 0, 1), 1int, mono4(x1, y1, x2, y2, 0, 2, 1, 1));
    lemma_mono4_mul(x1, y1, x2, y2, 2, 1, 0, 1, 0, 2, 1, 1);
    lemma_coefficient_product((-105int), mono4(x1, y1, x2, y2, 2, 1, 0, 1), 1int, mono4(x1, y1, x2, y2, 1, 1, 0, 2));
    lemma_mono4_mul(x1, y1, x2, y2, 2, 1, 0, 1, 1, 1, 0, 2);
    assert(((((((-1323int) * mono4(x1, y1, x2, y2, 0, 0, 2, 0)) + ((-1197int) * mono4(x1, y1, x2, y2, 1, 0, 1, 0))) + (((-1449int) * mono4(x1, y1, x2, y2, 2, 0, 0, 0)) + ((-2int) * mono4(x1, y1, x2, y2, 0, 0, 2, 2)))) + (((63int * mono4(x1, y1, x2, y2, 0, 2, 2, 0)) + (10int * mono4(x1, y1, x2, y2, 1, 0, 1, 2))) + ((15int * mono4(x1, y1, x2, y2, 1, 1, 1, 1)) + (((-44int) * mono4(x1, y1, x2, y2, 2, 0, 0, 2)) + ((-105int) * mono4(x1, y1, x2, y2, 2, 1, 0, 1)))))) * ((((x1 * y2) + (y1 * x2)) * ((y1 * y2) - (21 * (1 * 1)))) - ((21 * ((y1 * 1) + (1 * y2))) * ((x1 * 1) + (1 * x2))))) == ((((((27783int * mono4(x1, y1, x2, y2, 0, 0, 3, 1)) + (55566int * mono4(x1, y1, x2, y2, 0, 1, 3, 0))) + ((80703int * mono4(x1, y1, x2, y2, 1, 0, 2, 1)) + (78057int * mono4(x1, y1, x2, y2, 1, 1, 2, 0)))) + (((80703int * mono4(x1, y1, x2, y2, 2, 0, 1, 1)) + (85995int * mono4(x1, y1, x2, y2, 2, 1, 1, 0))) + ((60858int * mono4(x1, y1, x2, y2, 3, 0, 0, 1)) + (30429int * mono4(x1, y1, x2, y2, 3, 1, 0, 0))))) + ((((42int * mono4(x1, y1, x2, y2, 0, 0, 3, 3)) + (84int * mono4(x1, y1, x2, y2, 0, 1, 3, 2))) + (((-2646int) * mono4(x1, y1, x2, y2, 0, 2, 3, 1)) + ((-2646int) * mono4(x1, y1, x2, y2, 0, 3, 3, 0)))) + ((((-126int) * mono4(x1, y1, x2, y2, 1, 0, 2, 3)) + ((-2016int) * mono4(x1, y1, x2, y2, 1, 1, 2, 2))) + (((-4473int) * mono4(x1, y1, x2, y2, 1, 2, 2, 1)) + ((-1323int) * mono4(x1, y1, x2, y2, 1, 3, 2, 0)))))) + (((((504int * mono4(x1, y1, x2, y2, 2, 0, 1, 3)) + (2016int * mono4(x1, y1, x2, y2, 2, 1, 1, 2))) + ((2646int * mono4(x1, y1, x2, y2, 2, 2, 1, 1)) + (1848int * mono4(x1, y1, x2, y2, 3, 0, 0, 3)))) + (((3885int * mono4(x1, y1, x2, y2, 3, 1, 0, 2)) + (2205int * mono4(x1, y1, x2, y2, 3, 2, 0, 1))) + (((-2int) * mono4(x1, y1, x2, y2, 0, 2, 3, 3)) + (63int * mono4(x1, y1, x2, y2, 0, 4, 3, 1))))) + (((((-2int) * mono4(x1, y1, x2, y2, 1, 1, 2, 4)) + (10int * mono4(x1, y1, x2, y2, 1, 2, 2, 3))) + ((78int * mono4(x1, y1, x2, y2, 1, 3, 2, 2)) + (10int * mono4(x1, y1, x2, y2, 2, 1, 1, 4)))) + ((((-29int) * mono4(x1, y1, x2, y2, 2, 2, 1, 3)) + ((-105int) * mono4(x1, y1, x2, y2, 2, 3, 1, 2))) + (((-44int) * mono4(x1, y1, x2, y2, 3, 1, 0, 4)) + ((-105int) * mono4(x1, y1, x2, y2, 3, 2, 0, 3))))))));
}

proof fn lemma_exceptional_identity_part4(x1: int, y1: int, x2: int, y2: int)
    ensures
        ((((((-798int) * mono4(x1, y1, x2, y2, 0, 0, 0, 1)) + ((-882int) * mono4(x1, y1, x2, y2, 0, 1, 0, 0))) + ((4int * mono4(x1, y1, x2, y2, 0, 0, 3, 1)) + ((-20int) * mono4(x1, y1, x2, y2, 1, 0, 2, 1)))) + ((((-63int) * mono4(x1, y1, x2, y2, 1, 1, 2, 0)) + ((-5int) * mono4(x1, y1, x2, y2, 2, 0, 1, 1))) + ((126int * mono4(x1, y1, x2, y2, 2, 1, 1, 0)) + (84int * mono4(x1, y1, x2, y2, 3, 0, 0, 1))))) * ((((y1 * y2) + (21 * (1 * 1))) * ((y1 * y2) - (21 * (1 * 1)))) + ((63 * (x1 * x2)) * ((x1 * 1) + (1 * x2))))) == (((((351918int * mono4(x1, y1, x2, y2, 0, 0, 0, 1)) + ((388962int * mono4(x1, y1, x2, y2, 0, 1, 0, 0)) + ((-1764int) * mono4(x1, y1, x2, y2, 0, 0, 3, 1)))) + (((-41454int) * mono4(x1, y1, x2, y2, 1, 0, 2, 1)) + (((-27783int) * mono4(x1, y1, x2, y2, 1, 1, 2, 0)) + ((-48069int) * mono4(x1, y1, x2, y2, 2, 0, 1, 1))))) + ((((-111132int) * mono4(x1, y1, x2, y2, 2, 1, 1, 0)) + (((-37044int) * mono4(x1, y1, x2, y2, 3, 0, 0, 1)) + ((-798int) * mono4(x1, y1, x2, y2, 0, 2, 0, 3)))) + (((-882int) * mono4(x1, y1, x2, y2, 0, 3, 0, 2)) + ((252int * mono4(x1, y1, x2, y2, 1, 0, 5, 1)) + ((-1008int) * mono4(x1, y1, x2, y2, 2, 0, 4, 1)))))) + (((((-3969int) * mono4(x1, y1, x2, y2, 2, 1, 4, 0)) + (((-1575int) * mono4(x1, y1, x2, y2, 3, 0, 3, 1)) + (3969int * mono4(x1, y1, x2, y2, 3, 1, 3, 0)))) + ((4977int * mono4(x1, y1, x2, y2, 4, 0, 2, 1)) + ((7938int * mono4(x1, y1, x2, y2, 4, 1, 2, 0)) + (5292int * mono4(x1, y1, x2, y2, 5, 0, 1, 1))))) + (((4int * mono4(x1, y1, x2, y2, 0, 2, 3, 3)) + (((-20int) * mono4(x1, y1, x2, y2, 1, 2, 2, 3)) + ((-63int) * mono4(x1, y1, x2, y2, 1, 3, 2, 2)))) + (((-5int) * mono4(x1, y1, x2, y2, 2, 2, 1, 3)) + ((126int * mono4(x1, y1, x2, y2, 2, 3, 1, 2)) + (84int * mono4(x1, y1, x2, y2, 3, 2, 0, 3))))))),
{
    lemma_mono4_vars(x1, y1, x2, y2);
    assert(y1 == (1int * mono4(x1, y1, x2, y2, 0, 1, 0, 0)));
    assert(y2 == (1int * mono4(x1, y1, x2, y2, 0, 0, 0, 1)));
    assert((y1 * y2) == (1int * mono4(x1, y1, x2, y2, 0, 1, 0, 0)) * (1int * mono4(x1, y1, x2, y2, 0, 0, 0, 1)));
    lemma_coefficient_product(1int, mono4(x1, y1, x2, y2, 0, 1, 0, 0), 1int, mono4(x1, y1, x2, y2, 0, 0, 0, 1));
    lemma_mono4_mul(x1, y1, x2, y2, 0, 1, 0, 0, 0, 0, 0, 1);
    assert((y1 * y2) == (1int * mono4(x1, y1, x2, y2, 0, 1, 0, 1)));
    assert(21 == (21int * mono4(x1, y1, x2, y2, 0, 0, 0, 0)));
    assert(1 == (1int * mono4(x1, y1, x2, y2, 0, 0, 0, 0)));
    assert(1 == (1int * mono4(x1, y1, x2, y2, 0, 0, 0, 0)));
    assert((1 * 1) == (1int * mono4(x1, y1, x2, y2, 0, 0, 0, 0)) * (1int * mono4(x1, y1, x2, y2, 0, 0, 0, 0)));
    lemma_coefficient_product(1int, mono4(x1, y1, x2, y2, 0, 0, 0, 0), 1int, mono4(x1, y1, x2, y2, 0, 0, 0, 0));
    lemma_mono4_mul(x1, y1, x2, y2, 0, 0, 0, 0, 0, 0, 0, 0);
    assert((1 * 1) == (1int * mono4(x1, y1, x2, y2, 0, 0, 0, 0)));
    assert((21 * (1 * 1)) == (21int * mono4(x1, y1, x2, y2, 0, 0, 0, 0)) * (1int * mono4(x1, y1, x2, y2, 0, 0, 0, 0)));
    lemma_coefficient_product(21int, mono4(x1, y1, x2, y2, 0, 0, 0, 0), 1int, mono4(x1, y1, x2, y2, 0, 0, 0, 0));
    lemma_mono4_mul(x1, y1, x2, y2, 0, 0, 0, 0, 0, 0, 0, 0);
    assert((21 * (1 * 1)) == (21int * mono4(x1, y1, x2, y2, 0, 0, 0, 0)));
    assert(((y1 * y2) + (21 * (1 * 1))) == ((21int * mono4(x1, y1, x2, y2, 0, 0, 0, 0)) + (1int * mono4(x1, y1, x2, y2, 0, 1, 0, 1))));
    assert(y1 == (1int * mono4(x1, y1, x2, y2, 0, 1, 0, 0)));
    assert(y2 == (1int * mono4(x1, y1, x2, y2, 0, 0, 0, 1)));
    assert((y1 * y2) == (1int * mono4(x1, y1, x2, y2, 0, 1, 0, 0)) * (1int * mono4(x1, y1, x2, y2, 0, 0, 0, 1)));
    lemma_coefficient_product(1int, mono4(x1, y1, x2, y2, 0, 1, 0, 0), 1int, mono4(x1, y1, x2, y2, 0, 0, 0, 1));
    lemma_mono4_mul(x1, y1, x2, y2, 0, 1, 0, 0, 0, 0, 0, 1);
    assert((y1 * y2) == (1int * mono4(x1, y1, x2, y2, 0, 1, 0, 1)));
    assert(21 == (21int * mono4(x1, y1, x2, y2, 0, 0, 0, 0)));
    assert(1 == (1int * mono4(x1, y1, x2, y2, 0, 0, 0, 0)));
    assert(1 == (1int * mono4(x1, y1, x2, y2, 0, 0, 0, 0)));
    assert((1 * 1) == (1int * mono4(x1, y1, x2, y2, 0, 0, 0, 0)) * (1int * mono4(x1, y1, x2, y2, 0, 0, 0, 0)));
    lemma_coefficient_product(1int, mono4(x1, y1, x2, y2, 0, 0, 0, 0), 1int, mono4(x1, y1, x2, y2, 0, 0, 0, 0));
    lemma_mono4_mul(x1, y1, x2, y2, 0, 0, 0, 0, 0, 0, 0, 0);
    assert((1 * 1) == (1int * mono4(x1, y1, x2, y2, 0, 0, 0, 0)));
    assert((21 * (1 * 1)) == (21int * mono4(x1, y1, x2, y2, 0, 0, 0, 0)) * (1int * mono4(x1, y1, x2, y2, 0, 0, 0, 0)));
    lemma_coefficient_product(21int, mono4(x1, y1, x2, y2, 0, 0, 0, 0), 1int, mono4(x1, y1, x2, y2, 0, 0, 0, 0));
    lemma_mono4_mul(x1, y1, x2, y2, 0, 0, 0, 0, 0, 0, 0, 0);
    assert((21 * (1 * 1)) == (21int * mono4(x1, y1, x2, y2, 0, 0, 0, 0)));
    assert(((y1 * y2) - (21 * (1 * 1))) == (((-21int) * mono4(x1, y1, x2, y2, 0, 0, 0, 0)) + (1int * mono4(x1, y1, x2, y2, 0, 1, 0, 1))));
    assert((((y1 * y2) + (21 * (1 * 1))) * ((y1 * y2) - (21 * (1 * 1)))) == ((21int * mono4(x1, y1, x2, y2, 0, 0, 0, 0)) + (1int * mono4(x1, y1, x2, y2, 0, 1, 0, 1))) * (((-21int) * mono4(x1, y1, x2, y2, 0, 0, 0, 0)) + (1int * mono4(x1, y1, x2, y2, 0, 1, 0, 1))));
    lemma_mul_is_distributive_add_other_way((((-21int) * mono4(x1, y1, x2, y2, 0, 0, 0, 0)) + (1int * mono4(x1, y1, x2, y2, 0, 1, 0, 1))), (21int * mono4(x1, y1, x2, y2, 0, 0, 0, 0)), (1int * mono4(x1, y1, x2, y2, 0, 1, 0, 1)));
    lemma_mul_is_distributive_add((21int * mono4(x1, y1, x2, y2, 0, 0, 0, 0)), ((-21int) * mono4(x1, y1, x2, y2, 0, 0, 0, 0)), (1int * mono4(x1, y1, x2, y2, 0, 1, 0, 1)));
    lemma_coefficient_product(21int, mono4(x1, y1, x2, y2, 0, 0, 0, 0), (-21int), mono4(x1, y1, x2, y2, 0, 0, 0, 0));
    lemma_mono4_mul(x1, y1, x2, y2, 0, 0, 0, 0, 0, 0, 0, 0);
    lemma_coefficient_product(21int, mono4(x1, y1, x2, y2, 0, 0, 0, 0), 1int, mono4(x1, y1, x2, y2, 0, 1, 0, 1));
    lemma_mono4_mul(x1, y1, x2, y2, 0, 0, 0, 0, 0, 1, 0, 1);
    lemma_mul_is_distributive_add((1int * mono4(x1, y1, x2, y2, 0, 1, 0, 1)), ((-21int) * mono4(x1, y1, x2, y2, 0, 0, 0, 0)), (1int * mono4(x1, y1, x2, y2, 0, 1, 0, 1)));
    lemma_coefficient_product(1int, mono4(x1, y1, x2, y2, 0, 1, 0, 1), (-21int), mono4(x1, y1, x2, y2, 0, 0, 0, 0));
    lemma_mono4_mul(x1, y1, x2, y2, 0, 1, 0, 1, 0, 0, 0, 0);
    lemma_coefficient_product(1int, mono4(x1, y1, x2, y2, 0, 1, 0, 1), 1int, mono4(x1, y1, x2, y2, 0, 1, 0, 1));
    lemma_mono4_mul(x1, y1, x2, y2, 0, 1, 0, 1, 0, 1, 0, 1);
    assert((((y1 * y2) + (21 * (1 * 1))) * ((y1 * y2) - (21 * (1 * 1)))) == (((-441int) * mono4(x1, y1, x2, y2, 0, 0, 0, 0)) + (1int * mono4(x1, y1, x2, y2, 0, 2, 0, 2))));
    assert(63 == (63int * mono4(x1, y1, x2, y2, 0, 0, 0, 0)));
    assert(x1 == (1int * mono4(x1, y1, x2, y2, 1, 0, 0, 0)));
    assert(x2 == (1int * mono4(x1, y1, x2, y2, 0, 0, 1, 0)));
    assert((x1 * x2) == (1int * mono4(x1, y1, x2, y2, 1, 0, 0, 0)) * (1int * mono4(x1, y1, x2, y2, 0, 0, 1, 0)));
    lemma_coefficient_product(1int, mono4(x1, y1, x2, y2, 1, 0, 0, 0), 1int, mono4(x1, y1, x2, y2, 0, 0, 1, 0));
    lemma_mono4_mul(x1, y1, x2, y2, 1, 0, 0, 0, 0, 0, 1, 0);
    assert((x1 * x2) == (1int * mono4(x1, y1, x2, y2, 1, 0, 1, 0)));
    assert((63 * (x1 * x2)) == (63int * mono4(x1, y1, x2, y2, 0, 0, 0, 0)) * (1int * mono4(x1, y1, x2, y2, 1, 0, 1, 0)));
    lemma_coefficient_product(63int, mono4(x1, y1, x2, y2, 0, 0, 0, 0), 1int, mono4(x1, y1, x2, y2, 1, 0, 1, 0));
    lemma_mono4_mul(x1, y1, x2, y2, 0, 0, 0, 0, 1, 0, 1, 0);
    assert((63 * (x1 * x2)) == (63int * mono4(x1, y1, x2, y2, 1, 0, 1, 0)));
    assert(x1 == (1int * mono4(x1, y1, x2, y2, 1, 0, 0, 0)));
    assert(1 == (1int * mono4(x1, y1, x2, y2, 0, 0, 0, 0)));
    assert((x1 * 1) == (1int * mono4(x1, y1, x2, y2, 1, 0, 0, 0)) * (1int * mono4(x1, y1, x2, y2, 0, 0, 0, 0)));
    lemma_coefficient_product(1int, mono4(x1, y1, x2, y2, 1, 0, 0, 0), 1int, mono4(x1, y1, x2, y2, 0, 0, 0, 0));
    lemma_mono4_mul(x1, y1, x2, y2, 1, 0, 0, 0, 0, 0, 0, 0);
    assert((x1 * 1) == (1int * mono4(x1, y1, x2, y2, 1, 0, 0, 0)));
    assert(1 == (1int * mono4(x1, y1, x2, y2, 0, 0, 0, 0)));
    assert(x2 == (1int * mono4(x1, y1, x2, y2, 0, 0, 1, 0)));
    assert((1 * x2) == (1int * mono4(x1, y1, x2, y2, 0, 0, 0, 0)) * (1int * mono4(x1, y1, x2, y2, 0, 0, 1, 0)));
    lemma_coefficient_product(1int, mono4(x1, y1, x2, y2, 0, 0, 0, 0), 1int, mono4(x1, y1, x2, y2, 0, 0, 1, 0));
    lemma_mono4_mul(x1, y1, x2, y2, 0, 0, 0, 0, 0, 0, 1, 0);
    assert((1 * x2) == (1int * mono4(x1, y1, x2, y2, 0, 0, 1, 0)));
    assert(((x1 * 1) + (1 * x2)) == ((1int * mono4(x1, y1, x2, y2, 0, 0, 1, 0)) + (1int * mono4(x1, y1, x2, y2, 1, 0, 0, 0))));
    assert(((63 * (x1 * x2)) * ((x1 * 1) + (1 * x2))) == (63int * mono4(x1, y1, x2, y2, 1, 0, 1, 0)) * ((1int * mono4(x1, y1, x2, y2, 0, 0, 1, 0)) + (1int * mono4(x1, y1, x2, y2, 1, 0, 0, 0))));
    lemma_mul_is_distributive_add((63int * mono4(x1, y1, x2, y2, 1, 0, 1, 0)), (1int * mono4(x1, y1, x2, y2, 0, 0, 1, 0)), (1int * mono4(x1, y1, x2, y2, 1, 0, 0, 0)));
    lemma_coefficient_product(63int, mono4(x1, y1, x2, y2, 1, 0, 1, 0), 1int, mono4(x1, y1, x2, y2, 0, 0, 1, 0));
    lemma_mono4_mul(x1, y1, x2, y2, 1, 0, 1, 0, 0, 0, 1, 0);
    lemma_coefficient_product(63int, mono4(x1, y1, x2, y2, 1, 0, 1, 0), 1int, mono4(x1, y1, x2, y2, 1, 0, 0, 0));
    lemma_mono4_mul(x1, y1, x2, y2, 1, 0, 1, 0, 1, 0, 0, 0);
    assert(((63 * (x1 * x2)) * ((x1 * 1) + (1 * x2))) == ((63int * mono4(x1, y1, x2, y2, 1, 0, 2, 0)) + (63int * mono4(x1, y1, x2, y2, 2, 0, 1, 0))));
    assert(((((y1 * y2) + (21 * (1 * 1))) * ((y1 * y2) - (21 * (1 * 1)))) + ((63 * (x1 * x2)) * ((x1 * 1) + (1 * x2)))) == ((((-441int) * mono4(x1, y1, x2, y2, 0, 0, 0, 0)) + (63int * mono4(x1, y1, x2, y2, 1, 0, 2, 0))) + ((63int * mono4(x1, y1, x2, y2, 2, 0, 1, 0)) + (1int * mono4(x1, y1, x2, y2, 0, 2, 0, 2)))));
    assert(((((((-798int) * mono4(x1, y1, x2, y2, 0, 0, 0, 1)) + ((-882int) * mono4(x1, y1, x2, y2, 0, 1, 0, 0))) + ((4int * mono4(x1, y1, x2, y2, 0, 0, 3, 1)) + ((-20int) * mono4(x1, y1, x2, y2, 1, 0, 2, 1)))) + ((((-63int) * mono4(x1, y1, x2, y2, 1, 1, 2, 0)) + ((-5int) * mono4(x1, y1, x2, y2, 2, 0, 1, 1))) + ((126int * mono4(x1, y1, x2, y2, 2, 1, 1, 0)) + (84int * mono4(x1, y1, x2, y2, 3, 0, 0, 1))))) * ((((y1 * y2) + (21 * (1 * 1))) * ((y1 * y2) - (21 * (1 * 1)))) + ((63 * (x1 * x2)) * ((x1 * 1) + (1 * x2))))) == (((((-798int) * mono4(x1, y1, x2, y2, 0, 0, 0, 1)) + ((-882int) * mono4(x1, y1, x2, y2, 0, 1, 0, 0))) + ((4int * mono4(x1, y1, x2, y2, 0, 0, 3, 1)) + ((-20int) * mono4(x1, y1, x2, y2, 1, 0, 2, 1)))) + ((((-63int) * mono4(x1, y1, x2, y2, 1, 1, 2, 0)) + ((-5int) * mono4(x1, y1, x2, y2, 2, 0, 1, 1))) + ((126int * mono4(x1, y1, x2, y2, 2, 1, 1, 0)) + (84int * mono4(x1, y1, x2, y2, 3, 0, 0, 1))))) * ((((-441int) * mono4(x1, y1, x2, y2, 0, 0, 0, 0)) + (63int * mono4(x1, y1, x2, y2, 1, 0, 2, 0))) + ((63int * mono4(x1, y1, x2, y2, 2, 0, 1, 0)) + (1int * mono4(x1, y1, x2, y2, 0, 2, 0, 2)))));
    lemma_mul_is_distributive_add_other_way(((((-441int) * mono4(x1, y1, x2, y2, 0, 0, 0, 0)) + (63int * mono4(x1, y1, x2, y2, 1, 0, 2, 0))) + ((63int * mono4(x1, y1, x2, y2, 2, 0, 1, 0)) + (1int * mono4(x1, y1, x2, y2, 0, 2, 0, 2)))), ((((-798int) * mono4(x1, y1, x2, y2, 0, 0, 0, 1)) + ((-882int) * mono4(x1, y1, x2, y2, 0, 1, 0, 0))) + ((4int * mono4(x1, y1, x2, y2, 0, 0, 3, 1)) + ((-20int) * mono4(x1, y1, x2, y2, 1, 0, 2, 1)))), ((((-63int) * mono4(x1, y1, x2, y2, 1, 1, 2, 0)) + ((-5int) * mono4(x1, y1, x2, y2, 2, 0, 1, 1))) + ((126int * mono4(x1, y1, x2, y2, 2, 1, 1, 0)) + (84int * mono4(x1, y1, x2, y2, 3, 0, 0, 1)))));
    lemma_mul_is_distributive_add_other_way(((((-441int) * mono4(x1, y1, x2, y2, 0, 0, 0, 0)) + (63int * mono4(x1, y1, x2, y2, 1, 0, 2, 0))) + ((63int * mono4(x1, y1, x2, y2, 2, 0, 1, 0)) + (1int * mono4(x1, y1, x2, y2, 0, 2, 0, 2)))), (((-798int) * mono4(x1, y1, x2, y2, 0, 0, 0, 1)) + ((-882int) * mono4(x1, y1, x2, y2, 0, 1, 0, 0))), ((4int * mono4(x1, y1, x2, y2, 0, 0, 3, 1)) + ((-20int) * mono4(x1, y1, x2, y2, 1, 0, 2, 1))));
    lemma_mul_is_distributive_add_other_way(((((-441int) * mono4(x1, y1, x2, y2, 0, 0, 0, 0)) + (63int * mono4(x1, y1, x2, y2, 1, 0, 2, 0))) + ((63int * mono4(x1, y1, x2, y2, 2, 0, 1, 0)) + (1int * mono4(x1, y1, x2, y2, 0, 2, 0, 2)))), ((-798int) * mono4(x1, y1, x2, y2, 0, 0, 0, 1)), ((-882int) * mono4(x1, y1, x2, y2, 0, 1, 0, 0)));
    lemma_mul_is_distributive_add_other_way(((((-441int) * mono4(x1, y1, x2, y2, 0, 0, 0, 0)) + (63int * mono4(x1, y1, x2, y2, 1, 0, 2, 0))) + ((63int * mono4(x1, y1, x2, y2, 2, 0, 1, 0)) + (1int * mono4(x1, y1, x2, y2, 0, 2, 0, 2)))), (4int * mono4(x1, y1, x2, y2, 0, 0, 3, 1)), ((-20int) * mono4(x1, y1, x2, y2, 1, 0, 2, 1)));
    lemma_mul_is_distributive_add_other_way(((((-441int) * mono4(x1, y1, x2, y2, 0, 0, 0, 0)) + (63int * mono4(x1, y1, x2, y2, 1, 0, 2, 0))) + ((63int * mono4(x1, y1, x2, y2, 2, 0, 1, 0)) + (1int * mono4(x1, y1, x2, y2, 0, 2, 0, 2)))), (((-63int) * mono4(x1, y1, x2, y2, 1, 1, 2, 0)) + ((-5int) * mono4(x1, y1, x2, y2, 2, 0, 1, 1))), ((126int * mono4(x1, y1, x2, y2, 2, 1, 1, 0)) + (84int * mono4(x1, y1, x2, y2, 3, 0, 0, 1))));
    lemma_mul_is_distributive_add_other_way(((((-441int) * mono4(x1, y1, x2, y2, 0, 0, 0, 0)) + (63int * mono4(x1, y1, x2, y2, 1, 0, 2, 0))) + ((63int * mono4(x1, y1, x2, y2, 2, 0, 1, 0)) + (1int * mono4(x1, y1, x2, y2, 0, 2, 0, 2)))), ((-63int) * mono4(x1, y1, x2, y2, 1, 1, 2, 0)), ((-5int) * mono4(x1, y1, x2, y2, 2, 0, 1, 1)));
    lemma_mul_is_distributive_add_other_way(((((-441int) * mono4(x1, y1, x2, y2, 0, 0, 0, 0)) + (63int * mono4(x1, y1, x2, y2, 1, 0, 2, 0))) + ((63int * mono4(x1, y1, x2, y2, 2, 0, 1, 0)) + (1int * mono4(x1, y1, x2, y2, 0, 2, 0, 2)))), (126int * mono4(x1, y1, x2, y2, 2, 1, 1, 0)), (84int * mono4(x1, y1, x2, y2, 3, 0, 0, 1)));
    lemma_mul_is_distributive_add(((-798int) * mono4(x1, y1, x2, y2, 0, 0, 0, 1)), (((-441int) * mono4(x1, y1, x2, y2, 0, 0, 0, 0)) + (63int * mono4(x1, y1, x2, y2, 1, 0, 2, 0))), ((63int * mono4(x1, y1, x2, y2, 2, 0, 1, 0)) + (1int * mono4(x1, y1, x2, y2, 0, 2, 0, 2))));
    lemma_mul_is_distributive_add(((-798int) * mono4(x1, y1, x2, y2, 0, 0, 0, 1)), ((-441int) * mono4(x1, y1, x2, y2, 0, 0, 0, 0)), (63int * mono4(x1, y1, x2, y2, 1, 0, 2, 0)));
    lemma_mul_is_distributive_add(((-798int) * mono4(x1, y1, x2, y2, 0, 0, 0, 1)), (63int * mono4(x1, y1, x2, y2, 2, 0, 1, 0)), (1int * mono4(x1, y1, x2, y2, 0, 2, 0, 2)));
    lemma_coefficient_product((-798int), mono4(x1, y1, x2, y2, 0, 0, 0, 1), (-441int), mono4(x1, y1, x2, y2, 0, 0, 0, 0));
    lemma_mono4_mul(x1, y1, x2, y2, 0, 0, 0, 1, 0, 0, 0, 0);
    lemma_coefficient_product((-798int), mono4(x1, y1, x2, y2, 0, 0, 0, 1), 63int, mono4(x1, y1, x2, y2, 1, 0, 2, 0));
    lemma_mono4_mul(x1, y1, x2, y2, 0, 0, 0, 1, 1, 0, 2, 0);
    lemma_coefficient_product((-798int), mono4(x1, y1, x2, y2, 0, 0, 0, 1), 63int, mono4(x1, y1, x2, y2, 2, 0, 1, 0));
    lemma_mono4_mul(x1, y1, x2, y2, 0, 0, 0, 1, 2, 0, 1, 0);
    lemma_coefficient_product((-798int), mono4(x1, y1, x2, y2, 0, 0, 0, 1), 1int, mono4(x1, y1, x2, y2, 0, 2, 0, 2));
    lemma_mono4_mul(x1, y1, x2, y2, 0, 0, 0, 1, 0, 2, 0, 2);
    lemma_mul_is_distributive_add(((-882int) * mono4(x1, y1, x2, y2, 0, 1, 0, 0)), (((-441int) * mono4(x1, y1, x2, y2, 0, 0, 0, 0)) + (63int * mono4(x1, y1, x2, y2, 1, 0, 2, 0))), ((63int * mono4(x1, y1, x2, y2, 2, 0, 1, 0)) + (1int * mono4(x1, y1, x2, y2, 0, 2, 0, 2))));
    lemma_mul_is_distributive_add(((-882int) * mono4(x1, y1, x2, y2, 0, 1, 0, 0)), ((-441int) * mono4(x1, y1, x2, y2, 0, 0, 0, 0)), (63int * mono4(x1, y1, x2, y2, 1, 0, 2, 0)));
    lemma_mul_is_distributive_add(((-882int) * mono4(x1, y1, x2, y2, 0, 1, 0, 0)), (63int * mono4(x1, y1, x2, y2, 2, 0, 1, 0)), (1int * mono4(x1, y1, x2, y2, 0, 2, 0, 2)));
    lemma_coefficient_product((-882int), mono4(x1, y1, x2, y2, 0, 1, 0, 0), (-441int), mono4(x1, y1, x2, y2, 0, 0, 0, 0));
    lemma_mono4_mul(x1, y1, x2, y2, 0, 1, 0, 0, 0, 0, 0, 0);
    lemma_coefficient_product((-882int), mono4(x1, y1, x2, y2, 0, 1, 0, 0), 63int, mono4(x1, y1, x2, y2, 1, 0, 2, 0));
    lemma_mono4_mul(x1, y1, x2, y2, 0, 1, 0, 0, 1, 0, 2, 0);
    lemma_coefficient_product((-882int), mono4(x1, y1, x2, y2, 0, 1, 0, 0), 63int, mono4(x1, y1, x2, y2, 2, 0, 1, 0));
    lemma_mono4_mul(x1, y1, x2, y2, 0, 1, 0, 0, 2, 0, 1, 0);
    lemma_coefficient_product((-882int), mono4(x1, y1, x2, y2, 0, 1, 0, 0), 1int, mono4(x1, y1, x2, y2, 0, 2, 0, 2));
    lemma_mono4_mul(x1, y1, x2, y2, 0, 1, 0, 0, 0, 2, 0, 2);
    lemma_mul_is_distributive_add((4int * mono4(x1, y1, x2, y2, 0, 0, 3, 1)), (((-441int) * mono4(x1, y1, x2, y2, 0, 0, 0, 0)) + (63int * mono4(x1, y1, x2, y2, 1, 0, 2, 0))), ((63int * mono4(x1, y1, x2, y2, 2, 0, 1, 0)) + (1int * mono4(x1, y1, x2, y2, 0, 2, 0, 2))));
    lemma_mul_is_distributive_add((4int * mono4(x1, y1, x2, y2, 0, 0, 3, 1)), ((-441int) * mono4(x1, y1, x2, y2, 0, 0, 0, 0)), (63int * mono4(x1, y1, x2, y2, 1, 0, 2, 0)));
    lemma_mul_is_distributive_add((4int * mono4(x1, y1, x2, y2, 0, 0, 3, 1)), (63int * mono4(x1, y1, x2, y2, 2, 0, 1, 0)), (1int * mono4(x1, y1, x2, y2, 0, 2, 0, 2)));
    lemma_coefficient_product(4int, mono4(x1, y1, x2, y2, 0, 0, 3, 1), (-441int), mono4(x1, y1, x2, y2, 0, 0, 0, 0));
    lemma_mono4_mul(x1, y1, x2, y2, 0, 0, 3, 1, 0, 0, 0, 0);
    lemma_coefficient_product(4int, mono4(x1, y1, x2, y2, 0, 0, 3, 1), 63int, mono4(x1, y1, x2, y2, 1, 0, 2, 0));
    lemma_mono4_mul(x1, y1, x2, y2, 0, 0, 3, 1, 1, 0, 2, 0);
    lemma_coefficient_product(4int, mono4(x1, y1, x2, y2, 0, 0, 3, 1), 63int, mono4(x1, y1, x2, y2, 2, 0, 1, 0));
    lemma_mono4_mul(x1, y1, x2, y2, 0, 0, 3, 1, 2, 0, 1, 0);
    lemma_coefficient_product(4int, mono4(x1, y1, x2, y2, 0, 0, 3, 1), 1int, mono4(x1, y1, x2, y2, 0, 2, 0, 2));
    lemma_mono4_mul(x1, y1, x2, y2, 0, 0, 3, 1, 0, 2, 0, 2);
    lemma_mul_is_distributive_add(((-20int) * mono4(x1, y1, x2, y2, 1, 0, 2, 1)), (((-441int) * mono4(x1, y1, x2, y2, 0, 0, 0, 0)) + (63int * mono4(x1, y1, x2, y2, 1, 0, 2, 0))), ((63int * mono4(x1, y1, x2, y2, 2, 0, 1, 0)) + (1int * mono4(x1, y1, x2, y2, 0, 2, 0, 2))));
    lemma_mul_is_distributive_add(((-20int) * mono4(x1, y1, x2, y2, 1, 0, 2, 1)), ((-441int) * mono4(x1, y1, x2, y2, 0, 0, 0, 0)), (63int * mono4(x1, y1, x2, y2, 1, 0, 2, 0)));
    lemma_mul_is_distributive_add(((-20int) * mono4(x1, y1, x2, y2, 1, 0, 2, 1)), (63int * mono4(x1, y1, x2, y2, 2, 0, 1, 0)), (1int * mono4(x1, y1, x2, y2, 0, 2, 0, 2)));
    lemma_coefficient_product((-20int), mono4(x1, y1, x2, y2, 1, 0, 2, 1), (-441int), mono4(x1, y1, x2, y2, 0, 0, 0, 0));
    lemma_mono4_mul(x1, y1, x2, y2, 1, 0, 2, 1, 0, 0, 0, 0);
    lemma_coefficient_product((-20int), mono4(x1, y1, x2, y2, 1, 0, 2, 1), 63int, mono4(x1, y1, x2, y2, 1, 0, 2, 0));
    lemma_mono4_mul(x1, y1, x2, y2, 1, 0, 2, 1, 1, 0, 2, 0);
    lemma_coefficient_product((-20int), mono4(x1, y1, x2, y2, 1, 0, 2, 1), 63int, mono4(x1, y1, x2, y2, 2, 0, 1, 0));
    lemma_mono4_mul(x1, y1, x2, y2, 1, 0, 2, 1, 2, 0, 1, 0);
    lemma_coefficient_product((-20int), mono4(x1, y1, x2, y2, 1, 0, 2, 1), 1int, mono4(x1, y1, x2, y2, 0, 2, 0, 2));
    lemma_mono4_mul(x1, y1, x2, y2, 1, 0, 2, 1, 0, 2, 0, 2);
    lemma_mul_is_distributive_add(((-63int) * mono4(x1, y1, x2, y2, 1, 1, 2, 0)), (((-441int) * mono4(x1, y1, x2, y2, 0, 0, 0, 0)) + (63int * mono4(x1, y1, x2, y2, 1, 0, 2, 0))), ((63int * mono4(x1, y1, x2, y2, 2, 0, 1, 0)) + (1int * mono4(x1, y1, x2, y2, 0, 2, 0, 2))));
    lemma_mul_is_distributive_add(((-63int) * mono4(x1, y1, x2, y2, 1, 1, 2, 0)), ((-441int) * mono4(x1, y1, x2, y2, 0, 0, 0, 0)), (63int * mono4(x1, y1, x2, y2, 1, 0, 2, 0)));
    lemma_mul_is_distributive_add(((-63int) * mono4(x1, y1, x2, y2, 1, 1, 2, 0)), (63int * mono4(x1, y1, x2, y2, 2, 0, 1, 0)), (1int * mono4(x1, y1, x2, y2, 0, 2, 0, 2)));
    lemma_coefficient_product((-63int), mono4(x1, y1, x2, y2, 1, 1, 2, 0), (-441int), mono4(x1, y1, x2, y2, 0, 0, 0, 0));
    lemma_mono4_mul(x1, y1, x2, y2, 1, 1, 2, 0, 0, 0, 0, 0);
    lemma_coefficient_product((-63int), mono4(x1, y1, x2, y2, 1, 1, 2, 0), 63int, mono4(x1, y1, x2, y2, 1, 0, 2, 0));
    lemma_mono4_mul(x1, y1, x2, y2, 1, 1, 2, 0, 1, 0, 2, 0);
    lemma_coefficient_product((-63int), mono4(x1, y1, x2, y2, 1, 1, 2, 0), 63int, mono4(x1, y1, x2, y2, 2, 0, 1, 0));
    lemma_mono4_mul(x1, y1, x2, y2, 1, 1, 2, 0, 2, 0, 1, 0);
    lemma_coefficient_product((-63int), mono4(x1, y1, x2, y2, 1, 1, 2, 0), 1int, mono4(x1, y1, x2, y2, 0, 2, 0, 2));
    lemma_mono4_mul(x1, y1, x2, y2, 1, 1, 2, 0, 0, 2, 0, 2);
    lemma_mul_is_distributive_add(((-5int) * mono4(x1, y1, x2, y2, 2, 0, 1, 1)), (((-441int) * mono4(x1, y1, x2, y2, 0, 0, 0, 0)) + (63int * mono4(x1, y1, x2, y2, 1, 0, 2, 0))), ((63int * mono4(x1, y1, x2, y2, 2, 0, 1, 0)) + (1int * mono4(x1, y1, x2, y2, 0, 2, 0, 2))));
    lemma_mul_is_distributive_add(((-5int) * mono4(x1, y1, x2, y2, 2, 0, 1, 1)), ((-441int) * mono4(x1, y1, x2, y2, 0, 0, 0, 0)), (63int * mono4(x1, y1, x2, y2, 1, 0, 2, 0)));
    lemma_mul_is_distributive_add(((-5int) * mono4(x1, y1, x2, y2, 2, 0, 1, 1)), (63int * mono4(x1, y1, x2, y2, 2, 0, 1, 0)), (1int * mono4(x1, y1, x2, y2, 0, 2, 0, 2)));
    lemma_coefficient_product((-5int), mono4(x1, y1, x2, y2, 2, 0, 1, 1), (-441int), mono4(x1, y1, x2, y2, 0, 0, 0, 0));
    lemma_mono4_mul(x1, y1, x2, y2, 2, 0, 1, 1, 0, 0, 0, 0);
    lemma_coefficient_product((-5int), mono4(x1, y1, x2, y2, 2, 0, 1, 1), 63int, mono4(x1, y1, x2, y2, 1, 0, 2, 0));
    lemma_mono4_mul(x1, y1, x2, y2, 2, 0, 1, 1, 1, 0, 2, 0);
    lemma_coefficient_product((-5int), mono4(x1, y1, x2, y2, 2, 0, 1, 1), 63int, mono4(x1, y1, x2, y2, 2, 0, 1, 0));
    lemma_mono4_mul(x1, y1, x2, y2, 2, 0, 1, 1, 2, 0, 1, 0);
    lemma_coefficient_product((-5int), mono4(x1, y1, x2, y2, 2, 0, 1, 1), 1int, mono4(x1, y1, x2, y2, 0, 2, 0, 2));
    lemma_mono4_mul(x1, y1, x2, y2, 2, 0, 1, 1, 0, 2, 0, 2);
    lemma_mul_is_distributive_add((126int * mono4(x1, y1, x2, y2, 2, 1, 1, 0)), (((-441int) * mono4(x1, y1, x2, y2, 0, 0, 0, 0)) + (63int * mono4(x1, y1, x2, y2, 1, 0, 2, 0))), ((63int * mono4(x1, y1, x2, y2, 2, 0, 1, 0)) + (1int * mono4(x1, y1, x2, y2, 0, 2, 0, 2))));
    lemma_mul_is_distributive_add((126int * mono4(x1, y1, x2, y2, 2, 1, 1, 0)), ((-441int) * mono4(x1, y1, x2, y2, 0, 0, 0, 0)), (63int * mono4(x1, y1, x2, y2, 1, 0, 2, 0)));
    lemma_mul_is_distributive_add((126int * mono4(x1, y1, x2, y2, 2, 1, 1, 0)), (63int * mono4(x1, y1, x2, y2, 2, 0, 1, 0)), (1int * mono4(x1, y1, x2, y2, 0, 2, 0, 2)));
    lemma_coefficient_product(126int, mono4(x1, y1, x2, y2, 2, 1, 1, 0), (-441int), mono4(x1, y1, x2, y2, 0, 0, 0, 0));
    lemma_mono4_mul(x1, y1, x2, y2, 2, 1, 1, 0, 0, 0, 0, 0);
    lemma_coefficient_product(126int, mono4(x1, y1, x2, y2, 2, 1, 1, 0), 63int, mono4(x1, y1, x2, y2, 1, 0, 2, 0));
    lemma_mono4_mul(x1, y1, x2, y2, 2, 1, 1, 0, 1, 0, 2, 0);
    lemma_coefficient_product(126int, mono4(x1, y1, x2, y2, 2, 1, 1, 0), 63int, mono4(x1, y1, x2, y2, 2, 0, 1, 0));
    lemma_mono4_mul(x1, y1, x2, y2, 2, 1, 1, 0, 2, 0, 1, 0);
    lemma_coefficient_product(126int, mono4(x1, y1, x2, y2, 2, 1, 1, 0), 1int, mono4(x1, y1, x2, y2, 0, 2, 0, 2));
    lemma_mono4_mul(x1, y1, x2, y2, 2, 1, 1, 0, 0, 2, 0, 2);
    lemma_mul_is_distributive_add((84int * mono4(x1, y1, x2, y2, 3, 0, 0, 1)), (((-441int) * mono4(x1, y1, x2, y2, 0, 0, 0, 0)) + (63int * mono4(x1, y1, x2, y2, 1, 0, 2, 0))), ((63int * mono4(x1, y1, x2, y2, 2, 0, 1, 0)) + (1int * mono4(x1, y1, x2, y2, 0, 2, 0, 2))));
    lemma_mul_is_distributive_add((84int * mono4(x1, y1, x2, y2, 3, 0, 0, 1)), ((-441int) * mono4(x1, y1, x2, y2, 0, 0, 0, 0)), (63int * mono4(x1, y1, x2, y2, 1, 0, 2, 0)));
    lemma_mul_is_distributive_add((84int * mono4(x1, y1, x2, y2, 3, 0, 0, 1)), (63int * mono4(x1, y1, x2, y2, 2, 0, 1, 0)), (1int * mono4(x1, y1, x2, y2, 0, 2, 0, 2)));
    lemma_coefficient_product(84int, mono4(x1, y1, x2, y2, 3, 0, 0, 1), (-441int), mono4(x1, y1, x2, y2, 0, 0, 0, 0));
    lemma_mono4_mul(x1, y1, x2, y2, 3, 0, 0, 1, 0, 0, 0, 0);
    lemma_coefficient_product(84int, mono4(x1, y1, x2, y2, 3, 0, 0, 1), 63int, mono4(x1, y1, x2, y2, 1, 0, 2, 0));
    lemma_mono4_mul(x1, y1, x2, y2, 3, 0, 0, 1, 1, 0, 2, 0);
    lemma_coefficient_product(84int, mono4(x1, y1, x2, y2, 3, 0, 0, 1), 63int, mono4(x1, y1, x2, y2, 2, 0, 1, 0));
    lemma_mono4_mul(x1, y1, x2, y2, 3, 0, 0, 1, 2, 0, 1, 0);
    lemma_coefficient_product(84int, mono4(x1, y1, x2, y2, 3, 0, 0, 1), 1int, mono4(x1, y1, x2, y2, 0, 2, 0, 2));
    lemma_mono4_mul(x1, y1, x2, y2, 3, 0, 0, 1, 0, 2, 0, 2);
    assert(((((((-798int) * mono4(x1, y1, x2, y2, 0, 0, 0, 1)) + ((-882int) * mono4(x1, y1, x2, y2, 0, 1, 0, 0))) + ((4int * mono4(x1, y1, x2, y2, 0, 0, 3, 1)) + ((-20int) * mono4(x1, y1, x2, y2, 1, 0, 2, 1)))) + ((((-63int) * mono4(x1, y1, x2, y2, 1, 1, 2, 0)) + ((-5int) * mono4(x1, y1, x2, y2, 2, 0, 1, 1))) + ((126int * mono4(x1, y1, x2, y2, 2, 1, 1, 0)) + (84int * mono4(x1, y1, x2, y2, 3, 0, 0, 1))))) * ((((y1 * y2) + (21 * (1 * 1))) * ((y1 * y2) - (21 * (1 * 1)))) + ((63 * (x1 * x2)) * ((x1 * 1) + (1 * x2))))) == (((((351918int * mono4(x1, y1, x2, y2, 0, 0, 0, 1)) + ((388962int * mono4(x1, y1, x2, y2, 0, 1, 0, 0)) + ((-1764int) * mono4(x1, y1, x2, y2, 0, 0, 3, 1)))) + (((-41454int) * mono4(x1, y1, x2, y2, 1, 0, 2, 1)) + (((-27783int) * mono4(x1, y1, x2, y2, 1, 1, 2, 0)) + ((-48069int) * mono4(x1, y1, x2, y2, 2, 0, 1, 1))))) + ((((-111132int) * mono4(x1, y1, x2, y2, 2, 1, 1, 0)) + (((-37044int) * mono4(x1, y1, x2, y2, 3, 0, 0, 1)) + ((-798int) * mono4(x1, y1, x2, y2, 0, 2, 0, 3)))) + (((-882int) * mono4(x1, y1, x2, y2, 0, 3, 0, 2)) + ((252int * mono4(x1, y1, x2, y2, 1, 0, 5, 1)) + ((-1008int) * mono4(x1, y1, x2, y2, 2, 0, 4, 1)))))) + (((((-3969int) * mono4(x1, y1, x2, y2, 2, 1, 4, 0)) + (((-1575int) * mono4(x1, y1, x2, y2, 3, 0, 3, 1)) + (3969int * mono4(x1, y1, x2, y2, 3, 1, 3, 0)))) + ((4977int * mono4(x1, y1, x2, y2, 4, 0, 2, 1)) + ((7938int * mono4(x1, y1, x2, y2, 4, 1, 2, 0)) + (5292int * mono4(x1, y1, x2, y2, 5, 0, 1, 1))))) + (((4int * mono4(x1, y1, x2, y2, 0, 2, 3, 3)) + (((-20int) * mono4(x1, y1, x2, y2, 1, 2, 2, 3)) + ((-63int) * mono4(x1, y1, x2, y2, 1, 3, 2, 2)))) + (((-5int) * mono4(x1, y1, x2, y2, 2, 2, 1, 3)) + ((126int * mono4(x1, y1, x2, y2, 2, 3, 1, 2)) + (84int * mono4(x1, y1, x2, y2, 3, 2, 0, 3))))))));
}

proof fn lemma_exceptional_identity_part5(x1: int, y1: int, x2: int, y2: int)
    ensures
        (((-1764int) * mono4(x1, y1, x2, y2, 0, 2, 0, 0)) * ((((y1 * 1) + (1 * y2)) * ((y1 * y2) + (21 * (1 * 1)))) + ((3 * (x1 * x2)) * ((x1 * y2) + (y1 * x2))))) == ((((-37044int) * mono4(x1, y1, x2, y2, 0, 2, 0, 1)) + (((-37044int) * mono4(x1, y1, x2, y2, 0, 3, 0, 0)) + ((-1764int) * mono4(x1, y1, x2, y2, 0, 3, 0, 2)))) + (((-1764int) * mono4(x1, y1, x2, y2, 0, 4, 0, 1)) + (((-5292int) * mono4(x1, y1, x2, y2, 1, 3, 2, 0)) + ((-5292int) * mono4(x1, y1, x2, y2, 2, 2, 1, 1))))),
{
    lemma_mono4_vars(x1, y1, x2, y2);
    assert(y1 == (1int * mono4(x1, y1, x2, y2, 0, 1, 0, 0)));
    assert(1 == (1int * mono4(x1, y1, x2, y2, 0, 0, 0, 0)));
    assert((y1 * 1) == (1int * mono4(x1, y1, x2, y2, 0, 1, 0, 0)) * (1int * mono4(x1, y1, x2, y2, 0, 0, 0, 0)));
    lemma_coefficient_product(1int, mono4(x1, y1, x2, y2, 0, 1, 0, 0), 1int, mono4(x1, y1, x2, y2, 0, 0, 0, 0));
    lemma_mono4_mul(x1, y1, x2, y2, 0, 1, 0, 0, 0, 0, 0, 0);
    assert((y1 * 1) == (1int * mono4(x1, y1, x2, y2, 0, 1, 0, 0)));
    assert(1 == (1int * mono4(x1, y1, x2, y2, 0, 0, 0, 0)));
    assert(y2 == (1int * mono4(x1, y1, x2, y2, 0, 0, 0, 1)));
    assert((1 * y2) == (1int * mono4(x1, y1, x2, y2, 0, 0, 0, 0)) * (1int * mono4(x1, y1, x2, y2, 0, 0, 0, 1)));
    lemma_coefficient_product(1int, mono4(x1, y1, x2, y2, 0, 0, 0, 0), 1int, mono4(x1, y1, x2, y2, 0, 0, 0, 1));
    lemma_mono4_mul(x1, y1, x2, y2, 0, 0, 0, 0, 0, 0, 0, 1);
    assert((1 * y2) == (1int * mono4(x1, y1, x2, y2, 0, 0, 0, 1)));
    assert(((y1 * 1) + (1 * y2)) == ((1int * mono4(x1, y1, x2, y2, 0, 0, 0, 1)) + (1int * mono4(x1, y1, x2, y2, 0, 1, 0, 0))));
    assert(y1 == (1int * mono4(x1, y1, x2, y2, 0, 1, 0, 0)));
    assert(y2 == (1int * mono4(x1, y1, x2, y2, 0, 0, 0, 1)));
    assert((y1 * y2) == (1int * mono4(x1, y1, x2, y2, 0, 1, 0, 0)) * (1int * mono4(x1, y1, x2, y2, 0, 0, 0, 1)));
    lemma_coefficient_product(1int, mono4(x1, y1, x2, y2, 0, 1, 0, 0), 1int, mono4(x1, y1, x2, y2, 0, 0, 0, 1));
    lemma_mono4_mul(x1, y1, x2, y2, 0, 1, 0, 0, 0, 0, 0, 1);
    assert((y1 * y2) == (1int * mono4(x1, y1, x2, y2, 0, 1, 0, 1)));
    assert(21 == (21int * mono4(x1, y1, x2, y2, 0, 0, 0, 0)));
    assert(1 == (1int * mono4(x1, y1, x2, y2, 0, 0, 0, 0)));
    assert(1 == (1int * mono4(x1, y1, x2, y2, 0, 0, 0, 0)));
    assert((1 * 1) == (1int * mono4(x1, y1, x2, y2, 0, 0, 0, 0)) * (1int * mono4(x1, y1, x2, y2, 0, 0, 0, 0)));
    lemma_coefficient_product(1int, mono4(x1, y1, x2, y2, 0, 0, 0, 0), 1int, mono4(x1, y1, x2, y2, 0, 0, 0, 0));
    lemma_mono4_mul(x1, y1, x2, y2, 0, 0, 0, 0, 0, 0, 0, 0);
    assert((1 * 1) == (1int * mono4(x1, y1, x2, y2, 0, 0, 0, 0)));
    assert((21 * (1 * 1)) == (21int * mono4(x1, y1, x2, y2, 0, 0, 0, 0)) * (1int * mono4(x1, y1, x2, y2, 0, 0, 0, 0)));
    lemma_coefficient_product(21int, mono4(x1, y1, x2, y2, 0, 0, 0, 0), 1int, mono4(x1, y1, x2, y2, 0, 0, 0, 0));
    lemma_mono4_mul(x1, y1, x2, y2, 0, 0, 0, 0, 0, 0, 0, 0);
    assert((21 * (1 * 1)) == (21int * mono4(x1, y1, x2, y2, 0, 0, 0, 0)));
    assert(((y1 * y2) + (21 * (1 * 1))) == ((21int * mono4(x1, y1, x2, y2, 0, 0, 0, 0)) + (1int * mono4(x1, y1, x2, y2, 0, 1, 0, 1))));
    assert((((y1 * 1) + (1 * y2)) * ((y1 * y2) + (21 * (1 * 1)))) == ((1int * mono4(x1, y1, x2, y2, 0, 0, 0, 1)) + (1int * mono4(x1, y1, x2, y2, 0, 1, 0, 0))) * ((21int * mono4(x1, y1, x2, y2, 0, 0, 0, 0)) + (1int * mono4(x1, y1, x2, y2, 0, 1, 0, 1))));
    lemma_mul_is_distributive_add_other_way(((21int * mono4(x1, y1, x2, y2, 0, 0, 0, 0)) + (1int * mono4(x1, y1, x2, y2, 0, 1, 0, 1))), (1int * mono4(x1, y1, x2, y2, 0, 0, 0, 1)), (1int * mono4(x1, y1, x2, y2, 0, 1, 0, 0)));
    lemma_mul_is_distributive_add((1int * mono4(x1, y1, x2, y2, 0, 0, 0, 1)), (21int * mono4(x1, y1, x2, y2, 0, 0, 0, 0)), (1int * mono4(x1, y1, x2, y2, 0, 1, 0, 1)));
    lemma_coefficient_product(1int, mono4(x1, y1, x2, y2, 0, 0, 0, 1), 21int, mono4(x1, y1, x2, y2, 0, 0, 0, 0));
    lemma_mono4_mul(x1, y1, x2, y2, 0, 0, 0, 1, 0, 0, 0, 0);
    lemma_coefficient_product(1int, mono4(x1, y1, x2, y2, 0, 0, 0, 1), 1int, mono4(x1, y1, x2, y2, 0, 1, 0, 1));
    lemma_mono4_mul(x1, y1, x2, y2, 0, 0, 0, 1, 0, 1, 0, 1);
    lemma_mul_is_distributive_add((1int * mono4(x1, y1, x2, y2, 0, 1, 0, 0)), (21int * mono4(x1, y1, x2, y2, 0, 0, 0, 0)), (1int * mono4(x1, y1, x2, y2, 0, 1, 0, 1)));
    lemma_coefficient_product(1int, mono4(x1, y1, x2, y2, 0, 1, 0, 0), 21int, mono4(x1, y1, x2, y2, 0, 0, 0, 0));
    lemma_mono4_mul(x1, y1, x2, y2, 0, 1, 0, 0, 0, 0, 0, 0);
    lemma_coefficient_product(1int, mono4(x1, y1, x2, y2, 0, 1, 0, 0), 1int, mono4(x1, y1, x2, y2, 0, 1, 0, 1));
    lemma_mono4_mul(x1, y1, x2, y2, 0, 1, 0, 0, 0, 1, 0, 1);
    assert((((y1 * 1) + (1 * y2)) * ((y1 * y2) + (21 * (1 * 1)))) == (((21int * mono4(x1, y1, x2, y2, 0, 0, 0, 1)) + (21int * mono4(x1, y1, x2, y2, 0, 1, 0, 0))) + ((1int * mono4(x1, y1, x2, y2, 0, 1, 0, 2)) + (1int * mono4(x1, y1, x2, y2, 0, 2, 0, 1)))));
    assert(3 == (3int * mono4(x1, y1, x2, y2, 0, 0, 0, 0)));
    assert(x1 == (1int * mono4(x1, y1, x2, y2, 1, 0, 0, 0)));
    assert(x2 == (1int * mono4(x1, y1, x2, y2, 0, 0, 1, 0)));
    assert((x1 * x2) == (1int * mono4(x1, y1, x2, y2, 1, 0, 0, 0)) * (1int * mono4(x1, y1, x2, y2, 0, 0, 1, 0)));
    lemma_coefficient_product(1int, mono4(x1, y1, x2, y2, 1, 0, 0, 0), 1int, mono4(x1, y1, x2, y2, 0, 0, 1, 0));
    lemma_mono4_mul(x1, y1, x2, y2, 1, 0, 0, 0, 0, 0, 1, 0);
    assert((x1 * x2) == (1int * mono4(x1, y1, x2, y2, 1, 0, 1, 0)));
    assert((3 * (x1 * x2)) == (3int * mono4(x1, y1, x2, y2, 0, 0, 0, 0)) * (1int * mono4(x1, y1, x2, y2, 1, 0, 1, 0)));
    lemma_coefficient_product(3int, mono4(x1, y1, x2, y2, 0, 0, 0, 0), 1int, mono4(x1, y1, x2, y2, 1, 0, 1, 0));
    lemma_mono4_mul(x1, y1, x2, y2, 0, 0, 0, 0, 1, 0, 1, 0);
    assert((3 * (x1 * x2)) == (3int * mono4(x1, y1, x2, y2, 1, 0, 1, 0)));
    assert(x1 == (1int * mono4(x1, y1, x2, y2, 1, 0, 0, 0)));
    assert(y2 == (1int * mono4(x1, y1, x2, y2, 0, 0, 0, 1)));
    assert((x1 * y2) == (1int * mono4(x1, y1, x2, y2, 1, 0, 0, 0)) * (1int * mono4(x1, y1, x2, y2, 0, 0, 0, 1)));
    lemma_coefficient_product(1int, mono4(x1, y1, x2, y2, 1, 0, 0, 0), 1int, mono4(x1, y1, x2, y2, 0, 0, 0, 1));
    lemma_mono4_mul(x1, y1, x2, y2, 1, 0, 0, 0, 0, 0, 0, 1);
    assert((x1 * y2) == (1int * mono4(x1, y1, x2, y2, 1, 0, 0, 1)));
    assert(y1 == (1int * mono4(x1, y1, x2, y2, 0, 1, 0, 0)));
    assert(x2 == (1int * mono4(x1, y1, x2, y2, 0, 0, 1, 0)));
    assert((y1 * x2) == (1int * mono4(x1, y1, x2, y2, 0, 1, 0, 0)) * (1int * mono4(x1, y1, x2, y2, 0, 0, 1, 0)));
    lemma_coefficient_product(1int, mono4(x1, y1, x2, y2, 0, 1, 0, 0), 1int, mono4(x1, y1, x2, y2, 0, 0, 1, 0));
    lemma_mono4_mul(x1, y1, x2, y2, 0, 1, 0, 0, 0, 0, 1, 0);
    assert((y1 * x2) == (1int * mono4(x1, y1, x2, y2, 0, 1, 1, 0)));
    assert(((x1 * y2) + (y1 * x2)) == ((1int * mono4(x1, y1, x2, y2, 0, 1, 1, 0)) + (1int * mono4(x1, y1, x2, y2, 1, 0, 0, 1))));
    assert(((3 * (x1 * x2)) * ((x1 * y2) + (y1 * x2))) == (3int * mono4(x1, y1, x2, y2, 1, 0, 1, 0)) * ((1int * mono4(x1, y1, x2, y2, 0, 1, 1, 0)) + (1int * mono4(x1, y1, x2, y2, 1, 0, 0, 1))));
    lemma_mul_is_distributive_add((3int * mono4(x1, y1, x2, y2, 1, 0, 1, 0)), (1int * mono4(x1, y1, x2, y2, 0, 1, 1, 0)), (1int * mono4(x1, y1, x2, y2, 1, 0, 0, 1)));
    lemma_coefficient_product(3int, mono4(x1, y1, x2, y2, 1, 0, 1, 0), 1int, mono4(x1, y1, x2, y2, 0, 1, 1, 0));
    lemma_mono4_mul(x1, y1, x2, y2, 1, 0, 1, 0, 0, 1, 1, 0);
    lemma_coefficient_product(3int, mono4(x1, y1, x2, y2, 1, 0, 1, 0), 1int, mono4(x1, y1, x2, y2, 1, 0, 0, 1));
    lemma_mono4_mul(x1, y1, x2, y2, 1, 0, 1, 0, 1, 0, 0, 1);
    assert(((3 * (x1 * x2)) * ((x1 * y2) + (y1 * x2))) == ((3int * mono4(x1, y1, x2, y2, 1, 1, 2, 0)) + (3int * mono4(x1, y1, x2, y2, 2, 0, 1, 1))));
    assert(((((y1 * 1) + (1 * y2)) * ((y1 * y2) + (21 * (1 * 1)))) + ((3 * (x1 * x2)) * ((x1 * y2) + (y1 * x2)))) == (((21int * mono4(x1, y1, x2, y2, 0, 0, 0, 1)) + ((21int * mono4(x1, y1, x2, y2, 0, 1, 0, 0)) + (1int * mono4(x1, y1, x2, y2, 0, 1, 0, 2)))) + ((1int * mono4(x1, y1, x2, y2, 0, 2, 0, 1)) + ((3int * mono4(x1, y1, x2, y2, 1, 1, 2, 0)) + (3int * mono4(x1, y1, x2, y2, 2, 0, 1, 1))))));
    assert((((-1764int) * mono4(x1, y1, x2, y2, 0, 2, 0, 0)) * ((((y1 * 1) + (1 * y2)) * ((y1 * y2) + (21 * (1 * 1)))) + ((3 * (x1 * x2)) * ((x1 * y2) + (y1 * x2))))) == ((-1764int) * mono4(x1, y1, x2, y2, 0, 2, 0, 0)) * (((21int * mono4(x1, y1, x2, y2, 0, 0, 0, 1)) + ((21int * mono4(x1, y1, x2, y2, 0, 1, 0, 0)) + (1int * mono4(x1, y1, x2, y2, 0, 1, 0, 2)))) + ((1int * mono4(x1, y1, x2, y2, 0, 2, 0, 1)) + ((3int * mono4(x1, y1, x2, y2, 1, 1, 2, 0)) + (3int * mono4(x1, y1, x2, y2, 2, 0, 1, 1))))));
    lemma_mul_is_distributive_add(((-1764int) * mono4(x1, y1, x2, y2, 0, 2, 0, 0)), ((21int * mono4(x1, y1, x2, y2, 0, 0, 0, 1)) + ((21int * mono4(x1, y1, x2, y2, 0, 1, 0, 0)) + (1int * mono4(x1, y1, x2, y2, 0, 1, 0, 2)))), ((1int * mono4(x1, y1, x2, y2, 0, 2, 0, 1)) + ((3int * mono4(x1, y1, x2, y2, 1, 1, 2, 0)) + (3int * mono4(x1, y1, x2, y2, 2, 0, 1, 1)))));
    lemma_mul_is_distributive_add(((-1764int) * mono4(x1, y1, x2, y2, 0, 2, 0, 0)), (21int * mono4(x1, y1, x2, y2, 0, 0, 0, 1)), ((21int * mono4(x1, y1, x2, y2, 0, 1, 0, 0)) + (1int * mono4(x1, y1, x2, y2, 0, 1, 0, 2))));
    lemma_mul_is_distributive_add(((-1764int) * mono4(x1, y1, x2, y2, 0, 2, 0, 0)), (21int * mono4(x1, y1, x2, y2, 0, 1, 0, 0)), (1int * mono4(x1, y1, x2, y2, 0, 1, 0, 2)));
    lemma_mul_is_distributive_add(((-1764int) * mono4(x1, y1, x2, y2, 0, 2, 0, 0)), (1int * mono4(x1, y1, x2, y2, 0, 2, 0, 1)), ((3int * mono4(x1, y1, x2, y2, 1, 1, 2, 0)) + (3int * mono4(x1, y1, x2, y2, 2, 0, 1, 1))));
    lemma_mul_is_distributive_add(((-1764int) * mono4(x1, y1, x2, y2, 0, 2, 0, 0)), (3int * mono4(x1, y1, x2, y2, 1, 1, 2, 0)), (3int * mono4(x1, y1, x2, y2, 2, 0, 1, 1)));
    lemma_coefficient_product((-1764int), mono4(x1, y1, x2, y2, 0, 2, 0, 0), 21int, mono4(x1, y1, x2, y2, 0, 0, 0, 1));
    lemma_mono4_mul(x1, y1, x2, y2, 0, 2, 0, 0, 0, 0, 0, 1);
    lemma_coefficient_product((-1764int), mono4(x1, y1, x2, y2, 0, 2, 0, 0), 21int, mono4(x1, y1, x2, y2, 0, 1, 0, 0));
    lemma_mono4_mul(x1, y1, x2, y2, 0, 2, 0, 0, 0, 1, 0, 0);
    lemma_coefficient_product((-1764int), mono4(x1, y1, x2, y2, 0, 2, 0, 0), 1int, mono4(x1, y1, x2, y2, 0, 1, 0, 2));
    lemma_mono4_mul(x1, y1, x2, y2, 0, 2, 0, 0, 0, 1, 0, 2);
    lemma_coefficient_product((-1764int), mono4(x1, y1, x2, y2, 0, 2, 0, 0), 1int, mono4(x1, y1, x2, y2, 0, 2, 0, 1));
    lemma_mono4_mul(x1, y1, x2, y2, 0, 2, 0, 0, 0, 2, 0, 1);
    lemma_coefficient_product((-1764int), mono4(x1, y1, x2, y2, 0, 2, 0, 0), 3int, mono4(x1, y1, x2, y2, 1, 1, 2, 0));
    lemma_mono4_mul(x1, y1, x2, y2, 0, 2, 0, 0, 1, 1, 2, 0);
    lemma_coefficient_product((-1764int), mono4(x1, y1, x2, y2, 0, 2, 0, 0), 3int, mono4(x1, y1, x2, y2, 2, 0, 1, 1));
    lemma_mono4_mul(x1, y1, x2, y2, 0, 2, 0, 0, 2, 0, 1, 1);
    assert((((-1764int) * mono4(x1, y1, x2, y2, 0, 2, 0, 0)) * ((((y1 * 1) + (1 * y2)) * ((y1 * y2) + (21 * (1 * 1)))) + ((3 * (x1 * x2)) * ((x1 * y2) + (y1 * x2))))) == ((((-37044int) * mono4(x1, y1, x2, y2, 0, 2, 0, 1)) + (((-37044int) * mono4(x1, y1, x2, y2, 0, 3, 0, 0)) + ((-1764int) * mono4(x1, y1, x2, y2, 0, 3, 0, 2)))) + (((-1764int) * mono4(x1, y1, x2, y2, 0, 4, 0, 1)) + (((-5292int) * mono4(x1, y1, x2, y2, 1, 3, 2, 0)) + ((-5292int) * mono4(x1, y1, x2, y2, 2, 2, 1, 1))))));
}

proof fn lemma_exceptional_identity_part6(x1: int, y1: int, x2: int, y2: int)
    ensures
        ((((((-126int) * mono4(x1, y1, x2, y2, 1, 0, 1, 0)) + (126int * mono4(x1, y1, x2, y2, 2, 0, 0, 0))) + ((2int * mono4(x1, y1, x2, y2, 0, 0, 2, 2)) + (63int * mono4(x1, y1, x2, y2, 0, 2, 2, 0)))) + ((((-10int) * mono4(x1, y1, x2, y2, 1, 0, 1, 2)) + (78int * mono4(x1, y1, x2, y2, 1, 1, 1, 1))) + ((44int * mono4(x1, y1, x2, y2, 2, 0, 0, 2)) + (21int * mono4(x1, y1, x2, y2, 2, 1, 0, 1))))) * ((((x1 * (-y2)) + (y1 * x2)) * ((y1 * (-y2)) - (21 * (1 * 1)))) - ((21 * ((y1 * 1) + (1 * (-y2)))) * ((x1 * 1) + (1 * x2))))) == ((((((-2646int) * mono4(x1, y1, x2, y2, 1, 0, 2, 1)) + ((5292int * mono4(x1, y1, x2, y2, 1, 1, 2, 0)) + ((-2646int) * mono4(x1, y1, x2, y2, 2, 0, 1, 1)))) + ((((-2646int) * mono4(x1, y1, x2, y2, 2, 1, 1, 0)) + (5292int * mono4(x1, y1, x2, y2, 3, 0, 0, 1))) + (((-2646int) * mono4(x1, y1, x2, y2, 3, 1, 0, 0)) + (42int * mono4(x1, y1, x2, y2, 0, 0, 3, 3))))) + (((((-84int) * mono4(x1, y1, x2, y2, 0, 1, 3, 2)) + (1323int * mono4(x1, y1, x2, y2, 0, 2, 3, 1))) + (((-2646int) * mono4(x1, y1, x2, y2, 0, 3, 3, 0)) + ((-126int) * mono4(x1, y1, x2, y2, 1, 0, 2, 3)))) + (((2016int * mono4(x1, y1, x2, y2, 1, 1, 2, 2)) + ((-504int) * mono4(x1, y1, x2, y2, 1, 2, 2, 1))) + (((-1323int) * mono4(x1, y1, x2, y2, 1, 3, 2, 0)) + (504int * mono4(x1, y1, x2, y2, 2, 0, 1, 3)))))) + ((((1953int * mono4(x1, y1, x2, y2, 2, 1, 1, 2)) + (((-2646int) * mono4(x1, y1, x2, y2, 2, 2, 1, 1)) + (1848int * mono4(x1, y1, x2, y2, 3, 0, 0, 3)))) + (((84int * mono4(x1, y1, x2, y2, 3, 1, 0, 2)) + ((-441int) * mono4(x1, y1, x2, y2, 3, 2, 0, 1))) + (((-2int) * mono4(x1, y1, x2, y2, 0, 2, 3, 3)) + ((-63int) * mono4(x1, y1, x2, y2, 0, 4, 3, 1))))) + ((((2int * mono4(x1, y1, x2, y2, 1, 1, 2, 4)) + (10int * mono4(x1, y1, x2, y2, 1, 2, 2, 3))) + (((-15int) * mono4(x1, y1, x2, y2, 1, 3, 2, 2)) + ((-10int) * mono4(x1, y1, x2, y2, 2, 1, 1, 4)))) + (((34int * mono4(x1, y1, x2, y2, 2, 2, 1, 3)) + ((-21int) * mono4(x1, y1, x2, y2, 2, 3, 1, 2))) + ((44int * mono4(x1, y1, x2, y2, 3, 1, 0, 4)) + (21int * mono4(x1, y1, x2, y2, 3, 2, 0, 3))))))),
{
    lemma_mono4_vars(x1, y1, x2, y2);
    assert(x1 == (1int * mono4(x1, y1, x2, y2, 1, 0, 0, 0)));
    assert(y2 == (1int * mono4(x1, y1, x2, y2, 0, 0, 0, 1)));
    assert((-y2) == ((-1int) * mono4(x1, y1, x2, y2, 0, 0, 0, 1)));
    assert((x1 * (-y2)) == (1int * mono4(x1, y1, x2, y2, 1, 0, 0, 0)) * ((-1int) * mono4(x1, y1, x2, y2, 0, 0, 0, 1)));
    lemma_coefficient_product(1int, mono4(x1, y1, x2, y2, 1, 0, 0, 0), (-1int), mono4(x1, y1, x2, y2, 0, 0, 0, 1));
    lemma_mono4_mul(x1, y1, x2, y2, 1, 0, 0, 0, 0, 0, 0, 1);
    assert((x1 * (-y2)) == ((-1int) * mono4(x1, y1, x2, y2, 1, 0, 0, 1)));
    assert(y1 == (1int * mono4(x1, y1, x2, y2, 0, 1, 0, 0)));
    assert(x2 == (1int * mono4(x1, y1, x2, y2, 0, 0, 1, 0)));
    assert((y1 * x2) == (1int * mono4(x1, y1, x2, y2, 0, 1, 0, 0)) * (1int * mono4(x1, y1, x2, y2, 0, 0, 1, 0)));
    lemma_coefficient_product(1int, mono4(x1, y1, x2, y2, 0, 1, 0, 0), 1int, mono4(x1, y1, x2, y2, 0, 0, 1, 0));
    lemma_mono4_mul(x1, y1, x2, y2, 0, 1, 0, 0, 0, 0, 1, 0);
    assert((y1 * x2) == (1int * mono4(x1, y1, x2, y2, 0, 1, 1, 0)));
    assert(((x1 * (-y2)) + (y1 * x2)) == ((1int * mono4(x1, y1, x2, y2, 0, 1, 1, 0)) + ((-1int) * mono4(x1, y1, x2, y2, 1, 0, 0, 1))));
    assert(y1 == (1int * mono4(x1, y1, x2, y2, 0, 1, 0, 0)));
    assert(y2 == (1int * mono4(x1, y1, x2, y2, 0, 0, 0, 1)));
    assert((-y2) == ((-1int) * mono4(x1, y1, x2, y2, 0, 0, 0, 1)));
    assert((y1 * (-y2)) == (1int * mono4(x1, y1, x2, y2, 0, 1, 0, 0)) * ((-1int) * mono4(x1, y1, x2, y2, 0, 0, 0, 1)));
    lemma_coefficient_product(1int, mono4(x1, y1, x2, y2, 0, 1, 0, 0), (-1int), mono4(x1, y1, x2, y2, 0, 0, 0, 1));
    lemma_mono4_mul(x1, y1, x2, y2, 0, 1, 0, 0, 0, 0, 0, 1);
    assert((y1 * (-y2)) == ((-1int) * mono4(x1, y1, x2, y2, 0, 1, 0, 1)));
    assert(21 == (21int * mono4(x1, y1, x2, y2, 0, 0, 0, 0)));
    assert(1 == (1int * mono4(x1, y1, x2, y2, 0, 0, 0, 0)));
    assert(1 == (1int * mono4(x1, y1, x2, y2, 0, 0, 0, 0)));
    assert((1 * 1) == (1int * mono4(x1, y1, x2, y2, 0, 0, 0, 0)) * (1int * mono4(x1, y1, x2, y2, 0, 0, 0, 0)));
    lemma_coefficient_product(1int, mono4(x1, y1, x2, y2, 0, 0, 0, 0), 1int, mono4(x1, y1, x2, y2, 0, 0, 0, 0));
    lemma_mono4_mul(x1, y1, x2, y2, 0, 0, 0, 0, 0, 0, 0, 0);
    assert((1 * 1) == (1int * mono4(x1, y1, x2, y2, 0, 0, 0, 0)));
    assert((21 * (1 * 1)) == (21int * mono4(x1, y1, x2, y2, 0, 0, 0, 0)) * (1int * mono4(x1, y1, x2, y2, 0, 0, 0, 0)));
    lemma_coefficient_product(21int, mono4(x1, y1, x2, y2, 0, 0, 0, 0), 1int, mono4(x1, y1, x2, y2, 0, 0, 0, 0));
    lemma_mono4_mul(x1, y1, x2, y2, 0, 0, 0, 0, 0, 0, 0, 0);
    assert((21 * (1 * 1)) == (21int * mono4(x1, y1, x2, y2, 0, 0, 0, 0)));
    assert(((y1 * (-y2)) - (21 * (1 * 1))) == (((-21int) * mono4(x1, y1, x2, y2, 0, 0, 0, 0)) + ((-1int) * mono4(x1, y1, x2, y2, 0, 1, 0, 1))));
    assert((((x1 * (-y2)) + (y1 * x2)) * ((y1 * (-y2)) - (21 * (1 * 1)))) == ((1int * mono4(x1, y1, x2, y2, 0, 1, 1, 0)) + ((-1int) * mono4(x1, y1, x2, y2, 1, 0, 0, 1))) * (((-21int) * mono4(x1, y1, x2, y2, 0, 0, 0, 0)) + ((-1int) * mono4(x1, y1, x2, y2, 0, 1, 0, 1))));
    lemma_mul_is_distributive_add_other_way((((-21int) * mono4(x1, y1, x2, y2, 0, 0, 0, 0)) + ((-1int) * mono4(x1, y1, x2, y2, 0, 1, 0, 1))), (1int * mono4(x1, y1, x2, y2, 0, 1, 1, 0)), ((-1int) * mono4(x1, y1, x2, y2, 1, 0, 0, 1)));
    lemma_mul_is_distributive_add((1int * mono4(x1, y1, x2, y2, 0, 1, 1, 0)), ((-21int) * mono4(x1, y1, x2, y2, 0, 0, 0, 0)), ((-1int) * mono4(x1, y1, x2, y2, 0, 1, 0, 1)));
    lemma_coefficient_product(1int, mono4(x1, y1, x2, y2, 0, 1, 1, 0), (-21int), mono4(x1, y1, x2, y2, 0, 0, 0, 0));
    lemma_mono4_mul(x1, y1, x2, y2, 0, 1, 1, 0, 0, 0, 0, 0);
    lemma_coefficient_product(1int, mono4(x1, y1, x2, y2, 0, 1, 1, 0), (-1int), mono4(x1, y1, x2, y2, 0, 1, 0, 1));
    lemma_mono4_mul(x1, y1, x2, y2, 0, 1, 1, 0, 0, 1, 0, 1);
    lemma_mul_is_distributive_add(((-1int) * mono4(x1, y1, x2, y2, 1, 0, 0, 1)), ((-21int) * mono4(x1, y1, x2, y2, 0, 0, 0, 0)), ((-1int) * mono4(x1, y1, x2, y2, 0, 1, 0, 1)));
    lemma_coefficient_product((-1int), mono4(x1, y1, x2, y2, 1, 0, 0, 1), (-21int), mono4(x1, y1, x2, y2, 0, 0, 0, 0));
    lemma_mono4_mul(x1, y1, x2, y2, 1, 0, 0, 1, 0, 0, 0, 0);
    lemma_coefficient_product((-1int), mono4(x1, y1, x2, y2, 1, 0, 0, 1), (-1int), mono4(x1, y1, x2, y2, 0, 1, 0, 1));
    lemma_mono4_mul(x1, y1, x2, y2, 1, 0, 0, 1, 0, 1, 0, 1);
    assert((((x1 * (-y2)) + (y1 * x2)) * ((y1 * (-y2)) - (21 * (1 * 1)))) == ((((-21int) * mono4(x1, y1, x2, y2, 0, 1, 1, 0)) + (21int * mono4(x1, y1, x2, y2, 1, 0, 0, 1))) + (((-1int) * mono4(x1, y1, x2, y2, 0, 2, 1, 1)) + (1int * mono4(x1, y1, x2, y2, 1, 1, 0, 2)))));
    assert(21 == (21int * mono4(x1, y1, x2, y2, 0, 0, 0, 0)));
    assert(y1 == (1int * mono4(x1, y1, x2, y2, 0, 1, 0, 0)));
    assert(1 == (1int * mono4(x1, y1, x2, y2, 0, 0, 0, 0)));
    assert((y1 * 1) == (1int * mono4(x1, y1, x2, y2, 0, 1, 0, 0)) * (1int * mono4(x1, y1, x2, y2, 0, 0, 0, 0)));
    lemma_coefficient_product(1int, mono4(x1, y1, x2, y2, 0, 1, 0, 0), 1int, mono4(x1, y1, x2, y2, 0, 0, 0, 0));
    lemma_mono4_mul(x1, y1, x2, y2, 0, 1, 0, 0, 0, 0, 0, 0);
    assert((y1 * 1) == (1int * mono4(x1, y1, x2, y2, 0, 1, 0, 0)));
    assert(1 == (1int * mono4(x1, y1, x2, y2, 0, 0, 0, 0)));
    assert(y2 == (1int * mono4(x1, y1, x2, y2, 0, 0, 0, 1)));
    assert((-y2) == ((-1int) * mono4(x1, y1, x2, y2, 0, 0, 0, 1)));
    assert((1 * (-y2)) == (1int * mono4(x1, y1, x2, y2, 0, 0, 0, 0)) * ((-1int) * mono4(x1, y1, x2, y2, 0, 0, 0, 1)));
    lemma_coefficient_product(1int, mono4(x1, y1, x2, y2, 0, 0, 0, 0), (-1int), mono4(x1, y1, x2, y2, 0, 0, 0, 1));
    lemma_mono4_mul(x1, y1, x2, y2, 0, 0, 0, 0, 0, 0, 0, 1);
    assert((1 * (-y2)) == ((-1int) * mono4(x1, y1, x2, y2, 0, 0, 0, 1)));
    assert(((y1 * 1) + (1 * (-y2))) == (((-1int) * mono4(x1, y1, x2, y2, 0, 0, 0, 1)) + (1int * mono4(x1, y1, x2, y2, 0, 1, 0, 0))));
    assert((21 * ((y1 * 1) + (1 * (-y2)))) == (21int * mono4(x1, y1, x2, y2, 0, 0, 0, 0)) * (((-1int) * mono4(x1, y1, x2, y2, 0, 0, 0, 1)) + (1int * mono4(x1, y1, x2, y2, 0, 1, 0, 0))));
    lemma_mul_is_distributive_add((21int * mono4(x1, y1, x2, y2, 0, 0, 0, 0)), ((-1int) * mono4(x1, y1, x2, y2, 0, 0, 0, 1)), (1int * mono4(x1, y1, x2, y2, 0, 1, 0, 0)));
    lemma_coefficient_product(21int, mono4(x1, y1, x2, y2, 0, 0, 0, 0), (-1int), mono4(x1, y1, x2, y2, 0, 0, 0, 1));
    lemma_mono4_mul(x1, y1, x2, y2, 0, 0, 0, 0, 0, 0, 0, 1);
    lemma_coefficient_product(21int, mono4(x1, y1, x2, y2, 0, 0, 0, 0), 1int, mono4(x1, y1, x2, y2, 0, 1, 0, 0));
    lemma_mono4_mul(x1, y1, x2, y2, 0, 0, 0, 0, 0, 1, 0, 0);
    assert((21 * ((y1 * 1) + (1 * (-y2)))) == (((-21int) * mono4(x1, y1, x2, y2, 0, 0, 0, 1)) + (21int * mono4(x1, y1, x2, y2, 0, 1, 0, 0))));
    assert(x1 == (1int * mono4(x1, y1, x2, y2, 1, 0, 0, 0)));
    assert(1 == (1int * mono4(x1, y1, x2, y2, 0, 0, 0, 0)));
    assert((x1 * 1) == (1int * mono4(x1, y1, x2, y2, 1, 0, 0, 0)) * (1int * mono4(x1, y1, x2, y2, 0, 0, 0, 0)));
    lemma_coefficient_product(1int, mono4(x1, y1, x2, y2, 1, 0, 0, 0), 1int, mono4(x1, y1, x2, y2, 0, 0, 0, 0));
    lemma_mono4_mul(x1, y1, x2, y2, 1, 0, 0, 0, 0, 0, 0, 0);
    assert((x1 * 1) == (1int * mono4(x1, y1, x2, y2, 1, 0, 0, 0)));
    assert(1 == (1int * mono4(x1, y1, x2, y2, 0, 0, 0, 0)));
    assert(x2 == (1int * mono4(x1, y1, x2, y2, 0, 0, 1, 0)));
    assert((1 * x2) == (1int * mono4(x1, y1, x2, y2, 0, 0, 0, 0)) * (1int * mono4(x1, y1, x2, y2, 0, 0, 1, 0)));
    lemma_coefficient_product(1int, mono4(x1, y1, x2, y2, 0, 0, 0, 0), 1int, mono4(x1, y1, x2, y2, 0, 0, 1, 0));
    lemma_mono4_mul(x1, y1, x2, y2, 0, 0, 0, 0, 0, 0, 1, 0);
    assert((1 * x2) == (1int * mono4(x1, y1, x2, y2, 0, 0, 1, 0)));
    assert(((x1 * 1) + (1 * x2)) == ((1int * mono4(x1, y1, x2, y2, 0, 0, 1, 0)) + (1int * mono4(x1, y1, x2, y2, 1, 0, 0, 0))));
    assert(((21 * ((y1 * 1) + (1 * (-y2)))) * ((x1 * 1) + (1 * x2))) == (((-21int) * mono4(x1, y1, x2, y2, 0, 0, 0, 1)) + (21int * mono4(x1, y1, x2, y2, 0, 1, 0, 0))) * ((1int * mono4(x1, y1, x2, y2, 0, 0, 1, 0)) + (1int * mono4(x1, y1, x2, y2, 1, 0, 0, 0))));
    lemma_mul_is_distributive_add_other_way(((1int * mono4(x1, y1, x2, y2, 0, 0, 1, 0)) + (1int * mono4(x1, y1, x2, y2, 1, 0, 0, 0))), ((-21int) * mono4(x1, y1, x2, y2, 0, 0, 0, 1)), (21int * mono4(x1, y1, x2, y2, 0, 1, 0, 0)));
    lemma_mul_is_distributive_add(((-21int) * mono4(x1, y1, x2, y2, 0, 0, 0, 1)), (1int * mono4(x1, y1, x2, y2, 0, 0, 1, 0)), (1int * mono4(x1, y1, x2, y2, 1, 0, 0, 0)));
    lemma_coefficient_product((-21int), mono4(x1, y1, x2, y2, 0, 0, 0, 1), 1int, mono4(x1, y1, x2, y2, 0, 0, 1, 0));
    lemma_mono4_mul(x1, y1, x2, y2, 0, 0, 0, 1, 0, 0, 1, 0);
    lemma_coefficient_product((-21int), mono4(x1, y1, x2, y2, 0, 0, 0, 1), 1int, mono4(x1, y1, x2, y2, 1, 0, 0, 0));
    lemma_mono4_mul(x1, y1, x2, y2, 0, 0, 0, 1, 1, 0, 0, 0);
    lemma_mul_is_distributive_add((21int * mono4(x1, y1, x2, y2, 0, 1, 0, 0)), (1int * mono4(x1, y1, x2, y2, 0, 0, 1, 0)), (1int * mono4(x1, y1, x2, y2, 1, 0, 0, 0)));
    lemma_coefficient_product(21int, mono4(x1, y1, x2, y2, 0, 1, 0, 0), 1int, mono4(x1, y1, x2, y2, 0, 0, 1, 0));
    lemma_mono4_mul(x1, y1, x2, y2, 0, 1, 0, 0, 0, 0, 1, 0);
    lemma_coefficient_product(21int, mono4(x1, y1, x2, y2, 0, 1, 0, 0), 1int, mono4(x1, y1, x2, y2, 1, 0, 0, 0));
    lemma_mono4_mul(x1, y1, x2, y2, 0, 1, 0, 0, 1, 0, 0, 0);
    assert(((21 * ((y1 * 1) + (1 * (-y2)))) * ((x1 * 1) + (1 * x2))) == ((((-21int) * mono4(x1, y1, x2, y2, 0, 0, 1, 1)) + (21int * mono4(x1, y1, x2, y2, 0, 1, 1, 0))) + (((-21int) * mono4(x1, y1, x2, y2, 1, 0, 0, 1)) + (21int * mono4(x1, y1, x2, y2, 1, 1, 0, 0)))));
    assert(((((x1 * (-y2)) + (y1 * x2)) * ((y1 * (-y2)) - (21 * (1 * 1)))) - ((21 * ((y1 * 1) + (1 * (-y2)))) * ((x1 * 1) + (1 * x2)))) == (((21int * mono4(x1, y1, x2, y2, 0, 0, 1, 1)) + (((-42int) * mono4(x1, y1, x2, y2, 0, 1, 1, 0)) + (42int * mono4(x1, y1, x2, y2, 1, 0, 0, 1)))) + (((-21int) * mono4(x1, y1, x2, y2, 1, 1, 0, 0)) + (((-1int) * mono4(x1, y1, x2, y2, 0, 2, 1, 1)) + (1int * mono4(x1, y1, x2, y2, 1, 1, 0, 2))))));
    assert(((((((-126int) * mono4(x1, y1, x2, y2, 1, 0, 1, 0)) + (126int * mono4(x1, y1, x2, y2, 2, 0, 0, 0))) + ((2int * mono4(x1, y1, x2, y2, 0, 0, 2, 2)) + (63int * mono4(x1, y1, x2, y2, 0, 2, 2, 0)))) + ((((-10int) * mono4(x1, y1, x2, y2, 1, 0, 1, 2)) + (78int * mono4(x1, y1, x2, y2, 1, 1, 1, 1))) + ((44int * mono4(x1, y1, x2, y2, 2, 0, 0, 2)) + (21int * mono4(x1, y1, x2, y2, 2, 1, 0, 1))))) * ((((x1 * (-y2)) + (y1 * x2)) * ((y1 * (-y2)) - (21 * (1 * 1)))) - ((21 * ((y1 * 1) + (1 * (-y2)))) * ((x1 * 1) + (1 * x2))))) == (((((-126int) * mono4(x1, y1, x2, y2, 1, 0, 1, 0)) + (126int * mono4(x1, y1, x2, y2, 2, 0, 0, 0))) + ((2int * mono4(x1, y1, x2, y2, 0, 0, 2, 2)) + (63int * mono4(x1, y1, x2, y2, 0, 2, 2, 0)))) + ((((-10int) * mono4(x1, y1, x2, y2, 1, 0, 1, 2)) + (78int * mono4(x1, y1, x2, y2, 1, 1, 1, 1))) + ((44int * mono4(x1, y1, x2, y2, 2, 0, 0, 2)) + (21int * mono4(x1, y1, x2, y2, 2, 1, 0, 1))))) * (((21int * mono4(x1, y1, x2, y2, 0, 0, 1, 1)) + (((-42int) * mono4(x1, y1, x2, y2, 0, 1, 1, 0)) + (42int * mono4(x1, y1, x2, y2, 1, 0, 0, 1)))) + (((-21int) * mono4(x1, y1, x2, y2, 1, 1, 0, 0)) + (((-1int) * mono4(x1, y1, x2, y2, 0, 2, 1, 1)) + (1int * mono4(x1, y1, x2, y2, 1, 1, 0, 2))))));
    lemma_mul_is_distributive_add_other_way((((21int * mono4(x1, y1, x2, y2, 0, 0, 1, 1)) + (((-42int) * mono4(x1, y1, x2, y2, 0, 1, 1, 0)) + (42int * mono4(x1, y1, x2, y2, 1, 0, 0, 1)))) + (((-21int) * mono4(x1, y1, x2, y2, 1, 1, 0, 0)) + (((-1int) * mono4(x1, y1, x2, y2, 0, 2, 1, 1)) + (1int * mono4(x1, y1, x2, y2, 1, 1, 0, 2))))), ((((-126int) * mono4(x1, y1, x2, y2, 1, 0, 1, 0)) + (126int * mono4(x1, y1, x2, y2, 2, 0, 0, 0))) + ((2int * mono4(x1, y1, x2, y2, 0, 0, 2, 2)) + (63int * mono4(x1, y1, x2, y2, 0, 2, 2, 0)))), ((((-10int) * mono4(x1, y1, x2, y2, 1, 0, 1, 2)) + (78int * mono4(x1, y1, x2, y2, 1, 1, 1, 1))) + ((44int * mono4(x1, y1, x2, y2, 2, 0, 0, 2)) + (21int * mono4(x1, y1, x2, y2, 2, 1, 0, 1)))));
    lemma_mul_is_distributive_add_other_way((((21int * mono4(x1, y1, x2, y2, 0, 0, 1, 1)) + (((-42int) * mono4(x1, y1, x2, y2, 0, 1, 1, 0)) + (42int * mono4(x1, y1, x2, y2, 1, 0, 0, 1)))) + (((-21int) * mono4(x1, y1, x2, y2, 1, 1, 0, 0)) + (((-1int) * mono4(x1, y1, x2, y2, 0, 2, 1, 1)) + (1int * mono4(x1, y1, x2, y2, 1, 1, 0, 2))))), (((-126int) * mono4(x1, y1, x2, y2, 1, 0, 1, 0)) + (126int * mono4(x1, y1, x2, y2, 2, 0, 0, 0))), ((2int * mono4(x1, y1, x2, y2, 0, 0, 2, 2)) + (63int * mono4(x1, y1, x2, y2, 0, 2, 2, 0))));
    lemma_mul_is_distributive_add_other_way((((21int * mono4(x1, y1, x2, y2, 0, 0, 1, 1)) + (((-42int) * mono4(x1, y1, x2, y2, 0, 1, 1, 0)) + (42int * mono4(x1, y1, x2, y2, 1, 0, 0, 1)))) + (((-21int) * mono4(x1, y1, x2, y2, 1, 1, 0, 0)) + (((-1int) * mono4(x1, y1, x2, y2, 0, 2, 1, 1)) + (1int * mono4(x1, y1, x2, y2, 1, 1, 0, 2))))), ((-126int) * mono4(x1, y1, x2, y2, 1, 0, 1, 0)), (126int * mono4(x1, y1, x2, y2, 2, 0, 0, 0)));
    lemma_mul_is_distributive_add_other_way((((21int * mono4(x1, y1, x2, y2, 0, 0, 1, 1)) + (((-42int) * mono4(x1, y1, x2, y2, 0, 1, 1, 0)) + (42int * mono4(x1, y1, x2, y2, 1, 0, 0, 1)))) + (((-21int) * mono4(x1, y1, x2, y2, 1, 1, 0, 0)) + (((-1int) * mono4(x1, y1, x2, y2, 0, 2, 1, 1)) + (1int * mono4(x1, y1, x2, y2, 1, 1, 0, 2))))), (2int * mono4(x1, y1, x2, y2, 0, 0, 2, 2)), (63int * mono4(x1, y1, x2, y2, 0, 2, 2, 0)));
    lemma_mul_is_distributive_add_other_way((((21int * mono4(x1, y1, x2, y2, 0, 0, 1, 1)) + (((-42int) * mono4(x1, y1, x2, y2, 0, 1, 1, 0)) + (42int * mono4(x1, y1, x2, y2, 1, 0, 0, 1)))) + (((-21int) * mono4(x1, y1, x2, y2, 1, 1, 0, 0)) + (((-1int) * mono4(x1, y1, x2, y2, 0, 2, 1, 1)) + (1int * mono4(x1, y1, x2, y2, 1, 1, 0, 2))))), (((-10int) * mono4(x1, y1, x2, y2, 1, 0, 1, 2)) + (78int * mono4(x1, y1, x2, y2, 1, 1, 1, 1))), ((44int * mono4(x1, y1, x2, y2, 2, 0, 0, 2)) + (21int * mono4(x1, y1, x2, y2, 2, 1, 0, 1))));
    lemma_mul_is_distributive_add_other_way((((21int * mono4(x1, y1, x2, y2, 0, 0, 1, 1)) + (((-42int) * mono4(x1, y1, x2, y2, 0, 1, 1, 0)) + (42int * mono4(x1, y1, x2, y2, 1, 0, 0, 1)))) + (((-21int) * mono4(x1, y1, x2, y2, 1, 1, 0, 0)) + (((-1int) * mono4(x1, y1, x2, y2, 0, 2, 1, 1)) + (1int * mono4(x1, y1, x2, y2, 1, 1, 0, 2))))), ((-10int) * mono4(x1, y1, x2, y2, 1, 0, 1, 2)), (78int * mono4(x1, y1, x2, y2, 1, 1, 1, 1)));
    lemma_mul_is_distributive_add_other_way((((21int * mono4(x1, y1, x2, y2, 0, 0, 1, 1)) + (((-42int) * mono4(x1, y1, x2, y2, 0, 1, 1, 0)) + (42int * mono4(x1, y1, x2, y2, 1, 0, 0, 1)))) + (((-21int) * mono4(x1, y1, x2, y2, 1, 1, 0, 0)) + (((-1int) * mono4(x1, y1, x2, y2, 0, 2, 1, 1)) + (1int * mono4(x1, y1, x2, y2, 1, 1, 0, 2))))), (44int * mono4(x1, y1, x2, y2, 2, 0, 0, 2)), (21int * mono4(x1, y1, x2, y2, 2, 1, 0, 1)));
    lemma_mul_is_distributive_add(((-126int) * mono4(x1, y1, x2, y2, 1, 0, 1, 0)), ((21int * mono4(x1, y1, x2, y2, 0, 0, 1, 1)) + (((-42int) * mono4(x1, y1, x2, y2, 0, 1, 1, 0)) + (42int * mono4(x1, y1, x2, y2, 1, 0, 0, 1)))), (((-21int) * mono4(x1, y1, x2, y2, 1, 1, 0, 0)) + (((-1int) * mono4(x1, y1, x2, y2, 0, 2, 1, 1)) + (1int * mono4(x1, y1, x2, y2, 1, 1, 0, 2)))));
    lemma_mul_is_distributive_add(((-126int) * mono4(x1, y1, x2, y2, 1, 0, 1, 0)), (21int * mono4(x1, y1, x2, y2, 0, 0, 1, 1)), (((-42int) * mono4(x1, y1, x2, y2, 0, 1, 1, 0)) + (42int * mono4(x1, y1, x2, y2, 1, 0, 0, 1))));
    lemma_mul_is_distributive_add(((-126int) * mono4(x1, y1, x2, y2, 1, 0, 1, 0)), ((-42int) * mono4(x1, y1, x2, y2, 0, 1, 1, 0)), (42int * mono4(x1, y1, x2, y2, 1, 0, 0, 1)));
    lemma_mul_is_distributive_add(((-126int) * mono4(x1, y1, x2, y2, 1, 0, 1, 0)), ((-21int) * mono4(x1, y1, x2, y2, 1, 1, 0, 0)), (((-1int) * mono4(x1, y1, x2, y2, 0, 2, 1, 1)) + (1int * mono4(x1, y1, x2, y2, 1, 1, 0, 2))));
    lemma_mul_is_distributive_add(((-126int) * mono4(x1, y1, x2, y2, 1, 0, 1, 0)), ((-1int) * mono4(x1, y1, x2, y2, 0, 2, 1, 1)), (1int * mono4(x1, y1, x2, y2, 1, 1, 0, 2)));
    lemma_coefficient_product((-126int), mono4(x1, y1, x2, y2, 1, 0, 1, 0), 21int, mono4(x1, y1, x2, y2, 0, 0, 1, 1));
    lemma_mono4_mul(x1, y1, x2, y2, 1, 0, 1, 0, 0, 0, 1, 1);
    lemma_coefficient_product((-126int), mono4(x1, y1, x2, y2, 1, 0, 1, 0), (-42int), mono4(x1, y1, x2, y2, 0, 1, 1, 0));
    lemma_mono4_mul(x1, y1, x2, y2, 1, 0, 1, 0, 0, 1, 1, 0);
    lemma_coefficient_product((-126int), mono4(x1, y1, x2, y2, 1, 0, 1, 0), 42int, mono4(x1, y1, x2, y2, 1, 0, 0, 1));
    lemma_mono4_mul(x1, y1, x2, y2, 1, 0, 1, 0, 1, 0, 0, 1);
    lemma_coefficient_product((-126int), mono4(x1, y1, x2, y2, 1, 0, 1, 0), (-21int), mono4(x1, y1, x2, y2, 1, 1, 0, 0));
    lemma_mono4_mul(x1, y1, x2, y2, 1, 0, 1, 0, 1, 1, 0, 0);
    lemma_coefficient_product((-126int), mono4(x1, y1, x2, y2, 1, 0, 1, 0), (-1int), mono4(x1, y1, x2, y2, 0, 2, 1, 1));
    lemma_mono4_mul(x1, y1, x2, y2, 1, 0, 1, 0, 0, 2, 1, 1);
    lemma_coefficient_product((-126int), mono4(x1, y1, x2, y2, 1, 0, 1, 0), 1int, mono4(x1, y1, x2, y2, 1, 1, 0, 2));
    lemma_mono4_mul(x1, y1, x2, y2, 1, 0, 1, 0, 1, 1, 0, 2);
    lemma_mul_is_distributive_add((126int * mono4(x1, y1, x2, y2, 2, 0, 0, 0)), ((21int * mono4(x1, y1, x2, y2, 0, 0, 1, 1)) + (((-42int) * mono4(x1, y1, x2, y2, 0, 1, 1, 0)) + (42int * mono4(x1, y1, x2, y2, 1, 0, 0, 1)))), (((-21int) * mono4(x1, y1, x2, y2, 1, 1, 0, 0)) + (((-1int) * mono4(x1, y1, x2, y2, 0, 2, 1, 1)) + (1int * mono4(x1, y1, x2, y2, 1, 1, 0, 2)))));
    lemma_mul_is_distributive_add((126int * mono4(x1, y1, x2, y2, 2, 0, 0, 0)), (21int * mono4(x1, y1, x2, y2, 0, 0, 1, 1)), (((-42int) * mono4(x1, y1, x2, y2, 0, 1, 1, 0)) + (42int * mono4(x1, y1, x2, y2, 1, 0, 0, 1))));
    lemma_mul_is_distributive_add((126int * mono4(x1, y1, x2, y2, 2, 0, 0, 0)), ((-42int) * mono4(x1, y1, x2, y2, 0, 1, 1, 0)), (42int * mono4(x1, y1, x2, y2, 1, 0, 0, 1)));
    lemma_mul_is_distributive_add((126int * mono4(x1, y1, x2, y2, 2, 0, 0, 0)), ((-21int) * mono4(x1, y1, x2, y2, 1, 1, 0, 0)), (((-1int) * mono4(x1, y1, x2, y2, 0, 2, 1, 1)) + (1int * mono4(x1, y1, x2, y2, 1, 1, 0, 2))));
    lemma_mul_is_distributive_add((126int * mono4(x1, y1, x2, y2, 2, 0, 0, 0)), ((-1int) * mono4(x1, y1, x2, y2, 0, 2, 1, 1)), (1int * mono4(x1, y1, x2, y2, 1, 1, 0, 2)));
    lemma_coefficient_product(126int, mono4(x1, y1, x2, y2, 2, 0, 0, 0), 21int, mono4(x1, y1, x2, y2, 0, 0, 1, 1));
    lemma_mono4_mul(x1, y1, x2, y2, 2, 0, 0, 0, 0, 0, 1, 1);
    lemma_coefficient_product(126int, mono4(x1, y1, x2, y2, 2, 0, 0, 0), (-42int), mono4(x1, y1, x2, y2, 0, 1, 1, 0));
    lemma_mono4_mul(x1, y1, x2, y2, 2, 0, 0, 0, 0, 1, 1, 0);
    lemma_coefficient_product(126int, mono4(x1, y1, x2, y2, 2, 0, 0, 0), 42int, mono4(x1, y1, x2, y2, 1, 0, 0, 1));
    lemma_mono4_mul(x1, y1, x2, y2, 2, 0, 0, 0, 1, 0, 0, 1);
    lemma_coefficient_product(126int, mono4(x1, y1, x2, y2, 2, 0, 0, 0), (-21int), mono4(x1, y1, x2, y2, 1, 1, 0, 0));
    lemma_mono4_mul(x1, y1, x2, y2, 2, 0, 0, 0, 1, 1, 0, 0);
    lemma_coefficient_product(126int, mono4(x1, y1, x2, y2, 2, 0, 0, 0), (-1int), mono4(x1, y1, x2, y2, 0, 2, 1, 1));
    lemma_mono4_mul(x1, y1, x2, y2, 2, 0, 0, 0, 0, 2, 1, 1);
    lemma_coefficient_product(126int, mono4(x1, y1, x2, y2, 2, 0, 0, 0), 1int, mono4(x1, y1, x2, y2, 1, 1, 0, 2));
    lemma_mono4_mul(x1, y1, x2, y2, 2, 0, 0, 0, 1, 1, 0, 2);
    lemma_mul_is_distributive_add((2int * mono4(x1, y1, x2, y2, 0, 0, 2, 2)), ((21int * mono4(x1, y1, x2, y2, 0, 0, 1, 1)) + (((-42int) * mono4(x1, y1, x2, y2, 0, 1, 1, 0)) + (42int * mono4(x1, y1, x2, y2, 1, 0, 0, 1)))), (((-21int) * mono4(x1, y1, x2, y2, 1, 1, 0, 0)) + (((-1int) * mono4(x1, y1, x2, y2, 0, 2, 1, 1)) + (1int * mono4(x1, y1, x2, y2, 1, 1, 0, 2)))));
    lemma_mul_is_distributive_add((2int * mono4(x1, y1, x2, y2, 0, 0, 2, 2)), (21int * mono4(x1, y1, x2, y2, 0, 0, 1, 1)), (((-42int) * mono4(x1, y1, x2, y2, 0, 1, 1, 0)) + (42int * mono4(x1, y1, x2, y2, 1, 0, 0, 1))));
    lemma_mul_is_distributive_add((2int * mono4(x1, y1, x2, y2, 0, 0, 2, 2)), ((-42int) * mono4(x1, y1, x2, y2, 0, 1, 1, 0)), (42int * mono4(x1, y1, x2, y2, 1, 0, 0, 1)));
    lemma_mul_is_distributive_add((2int * mono4(x1, y1, x2, y2, 0, 0, 2, 2)), ((-21int) * mono4(x1, y1, x2, y2, 1, 1, 0, 0)), (((-1int) * mono4(x1, y1, x2, y2, 0, 2, 1, 1)) + (1int * mono4(x1, y1, x2, y2, 1, 1, 0, 2))));
    lemma_mul_is_distributive_add((2int * mono4(x1, y1, x2, y2, 0, 0, 2, 2)), ((-1int) * mono4(x1, y1, x2, y2, 0, 2, 1, 1)), (1int * mono4(x1, y1, x2, y2, 1, 1, 0, 2)));
    lemma_coefficient_product(2int, mono4(x1, y1, x2, y2, 0, 0, 2, 2), 21int, mono4(x1, y1, x2, y2, 0, 0, 1, 1));
    lemma_mono4_mul(x1, y1, x2, y2, 0, 0, 2, 2, 0, 0, 1, 1);
    lemma_coefficient_product(2int, mono4(x1, y1, x2, y2, 0, 0, 2, 2), (-42int), mono4(x1, y1, x2, y2, 0, 1, 1, 0));
    lemma_mono4_mul(x1, y1, x2, y2, 0, 0, 2, 2, 0, 1, 1, 0);
    lemma_coefficient_product(2int, mono4(x1, y1, x2, y2, 0, 0, 2, 2), 42int, mono4(x1, y1, x2, y2, 1, 0, 0, 1));
    lemma_mono4_mul(x1, y1, x2, y2, 0, 0, 2, 2, 1, 0, 0, 1);
    lemma_coefficient_product(2int, mono4(x1, y1, x2, y2, 0, 0, 2, 2), (-21int), mono4(x1, y1, x2, y2, 1, 1, 0, 0));
    lemma_mono4_mul(x1, y1, x2, y2, 0, 0, 2, 2, 1, 1, 0, 0);
    lemma_coefficient_product(2int, mono4(x1, y1, x2, y2, 0, 0, 2, 2), (-1int), mono4(x1, y1, x2, y2, 0, 2, 1, 1));
    lemma_mono4_mul(x1, y1, x2, y2, 0, 0, 2, 2, 0, 2, 1, 1);
    lemma_coefficient_product(2int, mono4(x1, y1, x2, y2, 0, 0, 2, 2), 1int, mono4(x1, y1, x2, y2, 1, 1, 0, 2));
    lemma_mono4_mul(x1, y1, x2, y2, 0, 0, 2, 2, 1, 1, 0, 2);
    lemma_mul_is_distributive_add((63int * mono4(x1, y1, x2, y2, 0, 2, 2, 0)), ((21int * mono4(x1, y1, x2, y2, 0, 0, 1, 1)) + (((-42int) * mono4(x1, y1, x2, y2, 0, 1, 1, 0)) + (42int * mono4(x1, y1, x2, y2, 1, 0, 0, 1)))), (((-21int) * mono4(x1, y1, x2, y2, 1, 1, 0, 0)) + (((-1int) * mono4(x1, y1, x2, y2, 0, 2, 1, 1)) + (1int * mono4(x1, y1, x2, y2, 1, 1, 0, 2)))));
    lemma_mul_is_distributive_add((63int * mono4(x1, y1, x2, y2, 0, 2, 2, 0)), (21int * mono4(x1, y1, x2, y2, 0, 0, 1, 1)), (((-42int) * mono4(x1, y1, x2, y2, 0, 1, 1, 0)) + (42int * mono4(x1, y1, x2, y2, 1, 0, 0, 1))));
    lemma_mul_is_distributive_add((63int * mono4(x1, y1, x2, y2, 0, 2, 2, 0)), ((-42int) * mono4(x1, y1, x2, y2, 0, 1, 1, 0)), (42int * mono4(x1, y1, x2, y2, 1, 0, 0, 1)));
    lemma_mul_is_distributive_add((63int * mono4(x1, y1, x2, y2, 0, 2, 2, 0)), ((-21int) * mono4(x1, y1, x2, y2, 1, 1, 0, 0)), (((-1int) * mono4(x1, y1, x2, y2, 0, 2, 1, 1)) + (1int * mono4(x1, y1, x2, y2, 1, 1, 0, 2))));
    lemma_mul_is_distributive_add((63int * mono4(x1, y1, x2, y2, 0, 2, 2, 0)), ((-1int) * mono4(x1, y1, x2, y2, 0, 2, 1, 1)), (1int * mono4(x1, y1, x2, y2, 1, 1, 0, 2)));
    lemma_coefficient_product(63int, mono4(x1, y1, x2, y2, 0, 2, 2, 0), 21int, mono4(x1, y1, x2, y2, 0, 0, 1, 1));
    lemma_mono4_mul(x1, y1, x2, y2, 0, 2, 2, 0, 0, 0, 1, 1);
    lemma_coefficient_product(63int, mono4(x1, y1, x2, y2, 0, 2, 2, 0), (-42int), mono4(x1, y1, x2, y2, 0, 1, 1, 0));
    lemma_mono4_mul(x1, y1, x2, y2, 0, 2, 2, 0, 0, 1, 1, 0);
    lemma_coefficient_product(63int, mono4(x1, y1, x2, y2, 0, 2, 2, 0), 42int, mono4(x1, y1, x2, y2, 1, 0, 0, 1));
    lemma_mono4_mul(x1, y1, x2, y2, 0, 2, 2, 0, 1, 0, 0, 1);
    lemma_coefficient_product(63int, mono4(x1, y1, x2, y2, 0, 2, 2, 0), (-21int), mono4(x1, y1, x2, y2, 1, 1, 0, 0));
    lemma_mono4_mul(x1, y1, x2, y2, 0, 2, 2, 0, 1, 1, 0, 0);
    lemma_coefficient_product(63int, mono4(x1, y1, x2, y2, 0, 2, 2, 0), (-1int), mono4(x1, y1, x2, y2, 0, 2, 1, 1));
    lemma_mono4_mul(x1, y1, x2, y2, 0, 2, 2, 0, 0, 2, 1, 1);
    lemma_coefficient_product(63int, mono4(x1, y1, x2, y2, 0, 2, 2, 0), 1int, mono4(x1, y1, x2, y2, 1, 1, 0, 2));
    lemma_mono4_mul(x1, y1, x2, y2, 0, 2, 2, 0, 1, 1, 0, 2);
    lemma_mul_is_distributive_add(((-10int) * mono4(x1, y1, x2, y2, 1, 0, 1, 2)), ((21int * mono4(x1, y1, x2, y2, 0, 0, 1, 1)) + (((-42int) * mono4(x1, y1, x2, y2, 0, 1, 1, 0)) + (42int * mono4(x1, y1, x2, y2, 1, 0, 0, 1)))), (((-21int) * mono4(x1, y1, x2, y2, 1, 1, 0, 0)) + (((-1int) * mono4(x1, y1, x2, y2, 0, 2, 1, 1)) + (1int * mono4(x1, y1, x2, y2, 1, 1, 0, 2)))));
    lemma_mul_is_distributive_add(((-10int) * mono4(x1, y1, x2, y2, 1, 0, 1, 2)), (21int * mono4(x1, y1, x2, y2, 0, 0, 1, 1)), (((-42int) * mono4(x1, y1, x2, y2, 0, 1, 1, 0)) + (42int * mono4(x1, y1, x2, y2, 1, 0, 0, 1))));
    lemma_mul_is_distributive_add(((-10int) * mono4(x1, y1, x2, y2, 1, 0, 1, 2)), ((-42int) * mono4(x1, y1, x2, y2, 0, 1, 1, 0)), (42int * mono4(x1, y1, x2, y2, 1, 0, 0, 1)));
    lemma_mul_is_distributive_add(((-10int) * mono4(x1, y1, x2, y2, 1, 0, 1, 2)), ((-21int) * mono4(x1, y1, x2, y2, 1, 1, 0, 0)), (((-1int) * mono4(x1, y1, x2, y2, 0, 2, 1, 1)) + (1int * mono4(x1, y1, x2, y2, 1, 1, 0, 2))));
    lemma_mul_is_distributive_add(((-10int) * mono4(x1, y1, x2, y2, 1, 0, 1, 2)), ((-1int) * mono4(x1, y1, x2, y2, 0, 2, 1, 1)), (1int * mono4(x1, y1, x2, y2, 1, 1, 0, 2)));
    lemma_coefficient_product((-10int), mono4(x1, y1, x2, y2, 1, 0, 1, 2), 21int, mono4(x1, y1, x2, y2, 0, 0, 1, 1));
    lemma_mono4_mul(x1, y1, x2, y2, 1, 0, 1, 2, 0, 0, 1, 1);
    lemma_coefficient_product((-10int), mono4(x1, y1, x2, y2, 1, 0, 1, 2), (-42int), mono4(x1, y1, x2, y2, 0, 1, 1, 0));
    lemma_mono4_mul(x1, y1, x2, y2, 1, 0, 1, 2, 0, 1, 1, 0);
    lemma_coefficient_product((-10int), mono4(x1, y1, x2, y2, 1, 0, 1, 2), 42int, mono4(x1, y1, x2, y2, 1, 0, 0, 1));
    lemma_mono4_mul(x1, y1, x2, y2, 1, 0, 1, 2, 1, 0, 0, 1);
    lemma_coefficient_product((-10int), mono4(x1, y1, x2, y2, 1, 0, 1, 2), (-21int), mono4(x1, y1, x2, y2, 1, 1, 0, 0));
    lemma_mono4_mul(x1, y1, x2, y2, 1, 0, 1, 2, 1, 1, 0, 0);
    lemma_coefficient_product((-10int), mono4(x1, y1, x2, y2, 1, 0, 1, 2), (-1int), mono4(x1, y1, x2, y2, 0, 2, 1, 1));
    lemma_mono4_mul(x1, y1, x2, y2, 1, 0, 1, 2, 0, 2, 1, 1);
    lemma_coefficient_product((-10int), mono4(x1, y1, x2, y2, 1, 0, 1, 2), 1int, mono4(x1, y1, x2, y2, 1, 1, 0, 2));
    lemma_mono4_mul(x1, y1, x2, y2, 1, 0, 1, 2, 1, 1, 0, 2);
    lemma_mul_is_distributive_add((78int * mono4(x1, y1, x2, y2, 1, 1, 1, 1)), ((21int * mono4(x1, y1, x2, y2, 0, 0, 1, 1)) + (((-42int) * mono4(x1, y1, x2, y2, 0, 1, 1, 0)) + (42int * mono4(x1, y1, x2, y2, 1, 0, 0, 1)))), (((-21int) * mono4(x1, y1, x2, y2, 1, 1, 0, 0)) + (((-1int) * mono4(x1, y1, x2, y2, 0, 2, 1, 1)) + (1int * mono4(x1, y1, x2, y2, 1, 1, 0, 2)))));
    lemma_mul_is_distributive_add((78int * mono4(x1, y1, x2, y2, 1, 1, 1, 1)), (21int * mono4(x1, y1, x2, y2, 0, 0, 1, 1)), (((-42int) * mono4(x1, y1, x2, y2, 0, 1, 1, 0)) + (42int * mono4(x1, y1, x2, y2, 1, 0, 0, 1))));
    lemma_mul_is_distributive_add((78int * mono4(x1, y1, x2, y2, 1, 1, 1, 1)), ((-42int) * mono4(x1, y1, x2, y2, 0, 1, 1, 0)), (42int * mono4(x1, y1, x2, y2, 1, 0, 0, 1)));
    lemma_mul_is_distributive_add((78int * mono4(x1, y1, x2, y2, 1, 1, 1, 1)), ((-21int) * mono4(x1, y1, x2, y2, 1, 1, 0, 0)), (((-1int) * mono4(x1, y1, x2, y2, 0, 2, 1, 1)) + (1int * mono4(x1, y1, x2, y2, 1, 1, 0, 2))));
    lemma_mul_is_distributive_add((78int * mono4(x1, y1, x2, y2, 1, 1, 1, 1)), ((-1int) * mono4(x1, y1, x2, y2, 0, 2, 1, 1)), (1int * mono4(x1, y1, x2, y2, 1, 1, 0, 2)));
    lemma_coefficient_product(78int, mono4(x1, y1, x2, y2, 1, 1, 1, 1), 21int, mono4(x1, y1, x2, y2, 0, 0, 1, 1));
    lemma_mono4_mul(x1, y1, x2, y2, 1, 1, 1, 1, 0, 0, 1, 1);
    lemma_coefficient_product(78int, mono4(x1, y1, x2, y2, 1, 1, 1, 1), (-42int), mono4(x1, y1, x2, y2, 0, 1, 1, 0));
    lemma_mono4_mul(x1, y1, x2, y2, 1, 1, 1, 1, 0, 1, 1, 0);
    lemma_coefficient_product(78int, mono4(x1, y1, x2, y2, 1, 1, 1, 1), 42int, mono4(x1, y1, x2, y2, 1, 0, 0, 1));
    lemma_mono4_mul(x1, y1, x2, y2, 1, 1, 1, 1, 1, 0, 0, 1);
    lemma_coefficient_product(78int, mono4(x1, y1, x2, y2, 1, 1, 1, 1), (-21int), mono4(x1, y1, x2, y2, 1, 1, 0, 0));
    lemma_mono4_mul(x1, y1, x2, y2, 1, 1, 1, 1, 1, 1, 0, 0);
    lemma_coefficient_product(78int, mono4(x1, y1, x2, y2, 1, 1, 1, 1), (-1int), mono4(x1, y1, x2, y2, 0, 2, 1, 1));
    lemma_mono4_mul(x1, y1, x2, y2, 1, 1, 1, 1, 0, 2, 1, 1);
    lemma_coefficient_product(78int, mono4(x1, y1, x2, y2, 1, 1, 1, 1), 1int, mono4(x1, y1, x2, y2, 1, 1, 0, 2));
    lemma_mono4_mul(x1, y1, x2, y2, 1, 1, 1, 1, 1, 1, 0, 2);
    lemma_mul_is_distributive_add((44int * mono4(x1, y1, x2, y2, 2, 0, 0, 2)), ((21int * mono4(x1, y1, x2, y2, 0, 0, 1, 1)) + (((-42int) * mono4(x1, y1, x2, y2, 0, 1, 1, 0)) + (42int * mono4(x1, y1, x2, y2, 1, 0, 0, 1)))), (((-21int) * mono4(x1, y1, x2, y2, 1, 1, 0, 0)) + (((-1int) * mono4(x1, y1, x2, y2, 0, 2, 1, 1)) + (1int * mono4(x1, y1, x2, y2, 1, 1, 0, 2)))));
    lemma_mul_is_distributive_add((44int * mono4(x1, y1, x2, y2, 2, 0, 0, 2)), (21int * mono4(x1, y1, x2, y2, 0, 0, 1, 1)), (((-42int) * mono4(x1, y1, x2, y2, 0, 1, 1, 0)) + (42int * mono4(x1, y1, x2, y2, 1, 0, 0, 1))));
    lemma_mul_is_distributive_add((44int * mono4(x1, y1, x2, y2, 2, 0, 0, 2)), ((-42int) * mono4(x1, y1, x2, y2, 0, 1, 1, 0)), (42int * mono4(x1, y1, x2, y2, 1, 0, 0, 1)));
    lemma_mul_is_distributive_add((44int * mono4(x1, y1, x2, y2, 2, 0, 0, 2)), ((-21int) * mono4(x1, y1, x2, y2, 1, 1, 0, 0)), (((-1int) * mono4(x1, y1, x2, y2, 0, 2, 1, 1)) + (1int * mono4(x1, y1, x2, y2, 1, 1, 0, 2))));
    lemma_mul_is_distributive_add((44int * mono4(x1, y1, x2, y2, 2, 0, 0, 2)), ((-1int) * mono4(x1, y1, x2, y2, 0, 2, 1, 1)), (1int * mono4(x1, y1, x2, y2, 1, 1, 0, 2)));
    lemma_coefficient_product(44int, mono4(x1, y1, x2, y2, 2, 0, 0, 2), 21int, mono4(x1, y1, x2, y2, 0, 0, 1, 1));
    lemma_mono4_mul(x1, y1, x2, y2, 2, 0, 0, 2, 0, 0, 1, 1);
    lemma_coefficient_product(44int, mono4(x1, y1, x2, y2, 2, 0, 0, 2), (-42int), mono4(x1, y1, x2, y2, 0, 1, 1, 0));
    lemma_mono4_mul(x1, y1, x2, y2, 2, 0, 0, 2, 0, 1, 1, 0);
    lemma_coefficient_product(44int, mono4(x1, y1, x2, y2, 2, 0, 0, 2), 42int, mono4(x1, y1, x2, y2, 1, 0, 0, 1));
    lemma_mono4_mul(x1, y1, x2, y2, 2, 0, 0, 2, 1, 0, 0, 1);
    lemma_coefficient_product(44int, mono4(x1, y1, x2, y2, 2, 0, 0, 2), (-21int), mono4(x1, y1, x2, y2, 1, 1, 0, 0));
    lemma_mono4_mul(x1, y1, x2, y2, 2, 0, 0, 2, 1, 1, 0, 0);
    lemma_coefficient_product(44int, mono4(x1, y1, x2, y2, 2, 0, 0, 2), (-1int), mono4(x1, y1, x2, y2, 0, 2, 1, 1));
    lemma_mono4_mul(x1, y1, x2, y2, 2, 0, 0, 2, 0, 2, 1, 1);
    lemma_coefficient_product(44int, mono4(x1, y1, x2, y2, 2, 0, 0, 2), 1int, mono4(x1, y1, x2, y2, 1, 1, 0, 2));
    lemma_mono4_mul(x1, y1, x2, y2, 2, 0, 0, 2, 1, 1, 0, 2);
    lemma_mul_is_distributive_add((21int * mono4(x1, y1, x2, y2, 2, 1, 0, 1)), ((21int * mono4(x1, y1, x2, y2, 0, 0, 1, 1)) + (((-42int) * mono4(x1, y1, x2, y2, 0, 1, 1, 0)) + (42int * mono4(x1, y1, x2, y2, 1, 0, 0, 1)))), (((-21int) * mono4(x1, y1, x2, y2, 1, 1, 0, 0)) + (((-1int) * mono4(x1, y1, x2, y2, 0, 2, 1, 1)) + (1int * mono4(x1, y1, x2, y2, 1, 1, 0, 2)))));
    lemma_mul_is_distributive_add((21int * mono4(x1, y1, x2, y2, 2, 1, 0, 1)), (21int * mono4(x1, y1, x2, y2, 0, 0, 1, 1)), (((-42int) * mono4(x1, y1, x2, y2, 0, 1, 1, 0)) + (42int * mono4(x1, y1, x2, y2, 1, 0, 0, 1))));
    lemma_mul_is_distributive_add((21int * mono4(x1, y1, x2, y2, 2, 1, 0, 1)), ((-42int) * mono4(x1, y1, x2, y2, 0, 1, 1, 0)), (42int * mono4(x1, y1, x2, y2, 1, 0, 0, 1)));
    lemma_mul_is_distributive_add((21int * mono4(x1, y1, x2, y2, 2, 1, 0, 1)), ((-21int) * mono4(x1, y1, x2, y2, 1, 1, 0, 0)), (((-1int) * mono4(x1, y1, x2, y2, 0, 2, 1, 1)) + (1int * mono4(x1, y1, x2, y2, 1, 1, 0, 2))));
    lemma_mul_is_distributive_add((21int * mono4(x1, y1, x2, y2, 2, 1, 0, 1)), ((-1int) * mono4(x1, y1, x2, y2, 0, 2, 1, 1)), (1int * mono4(x1, y1, x2, y2, 1, 1, 0, 2)));
    lemma_coefficient_product(21int, mono4(x1, y1, x2, y2, 2, 1, 0, 1), 21int, mono4(x1, y1, x2, y2, 0, 0, 1, 1));
    lemma_mono4_mul(x1, y1, x2, y2, 2, 1, 0, 1, 0, 0, 1, 1);
    lemma_coefficient_product(21int, mono4(x1, y1, x2, y2, 2, 1, 0, 1), (-42int), mono4(x1, y1, x2, y2, 0, 1, 1, 0));
    lemma_mono4_mul(x1, y1, x2, y2, 2, 1, 0, 1, 0, 1, 1, 0);
    lemma_coefficient_product(21int, mono4(x1, y1, x2, y2, 2, 1, 0, 1), 42int, mono4(x1, y1, x2, y2, 1, 0, 0, 1));
    lemma_mono4_mul(x1, y1, x2, y2, 2, 1, 0, 1, 1, 0, 0, 1);
    lemma_coefficient_product(21int, mono4(x1, y1, x2, y2, 2, 1, 0, 1), (-21int), mono4(x1, y1, x2, y2, 1, 1, 0, 0));
    lemma_mono4_mul(x1, y1, x2, y2, 2, 1, 0, 1, 1, 1, 0, 0);
    lemma_coefficient_product(21int, mono4(x1, y1, x2, y2, 2, 1, 0, 1), (-1int), mono4(x1, y1, x2, y2, 0, 2, 1, 1));
    lemma_mono4_mul(x1, y1, x2, y2, 2, 1, 0, 1, 0, 2, 1, 1);
    lemma_coefficient_product(21int, mono4(x1, y1, x2, y2, 2, 1, 0, 1), 1int, mono4(x1, y1, x2, y2, 1, 1, 0, 2));
    lemma_mono4_mul(x1, y1, x2, y2, 2, 1, 0, 1, 1, 1, 0, 2);
    assert(((((((-126int) * mono4(x1, y1, x2, y2, 1, 0, 1, 0)) + (126int * mono4(x1, y1, x2, y2, 2, 0, 0, 0))) + ((2int * mono4(x1, y1, x2, y2, 0, 0, 2, 2)) + (63int * mono4(x1, y1, x2, y2, 0, 2, 2, 0)))) + ((((-10int) * mono4(x1, y1, x2, y2, 1, 0, 1, 2)) + (78int * mono4(x1, y1, x2, y2, 1, 1, 1, 1))) + ((44int * mono4(x1, y1, x2, y2, 2, 0, 0, 2)) + (21int * mono4(x1, y1, x2, y2, 2, 1, 0, 1))))) * ((((x1 * (-y2)) + (y1 * x2)) * ((y1 * (-y2)) - (21 * (1 * 1)))) - ((21 * ((y1 * 1) + (1 * (-y2)))) * ((x1 * 1) + (1 * x2))))) == ((((((-2646int) * mono4(x1, y1, x2, y2, 1, 0, 2, 1)) + ((5292int * mono4(x1, y1, x2, y2, 1, 1, 2, 0)) + ((-2646int) * mono4(x1, y1, x2, y2, 2, 0, 1, 1)))) + ((((-2646int) * mono4(x1, y1, x2, y2, 2, 1, 1, 0)) + (5292int * mono4(x1, y1, x2, y2, 3, 0, 0, 1))) + (((-2646int) * mono4(x1, y1, x2, y2, 3, 1, 0, 0)) + (42int * mono4(x1, y1, x2, y2, 0, 0, 3, 3))))) + (((((-84int) * mono4(x1, y1, x2, y2, 0, 1, 3, 2)) + (1323int * mono4(x1, y1, x2, y2, 0, 2, 3, 1))) + (((-2646int) * mono4(x1, y1, x2, y2, 0, 3, 3, 0)) + ((-126int) * mono4(x1, y1, x2, y2, 1, 0, 2, 3)))) + (((2016int * mono4(x1, y1, x2, y2, 1, 1, 2, 2)) + ((-504int) * mono4(x1, y1, x2, y2, 1, 2, 2, 1))) + (((-1323int) * mono4(x1, y1, x2, y2, 1, 3, 2, 0)) + (504int * mono4(x1, y1, x2, y2, 2, 0, 1, 3)))))) + ((((1953int * mono4(x1, y1, x2, y2, 2, 1, 1, 2)) + (((-2646int) * mono4(x1, y1, x2, y2, 2, 2, 1, 1)) + (1848int * mono4(x1, y1, x2, y2, 3, 0, 0, 3)))) + (((84int * mono4(x1, y1, x2, y2, 3, 1, 0, 2)) + ((-441int) * mono4(x1, y1, x2, y2, 3, 2, 0, 1))) + (((-2int) * mono4(x1, y1, x2, y2, 0, 2, 3, 3)) + ((-63int) * mono4(x1, y1, x2, y2, 0, 4, 3, 1))))) + ((((2int * mono4(x1, y1, x2, y2, 1, 1, 2, 4)) + (10int * mono4(x1, y1, x2, y2, 1, 2, 2, 3))) + (((-15int) * mono4(x1, y1, x2, y2, 1, 3, 2, 2)) + ((-10int) * mono4(x1, y1, x2, y2, 2, 1, 1, 4)))) + (((34int * mono4(x1, y1, x2, y2, 2, 2, 1, 3)) + ((-21int) * mono4(x1, y1, x2, y2, 2, 3, 1, 2))) + ((44int * mono4(x1, y1, x2, y2, 3, 1, 0, 4)) + (21int * mono4(x1, y1, x2, y2, 3, 2, 0, 3))))))));
}

proof fn lemma_exceptional_identity_part7(x1: int, y1: int, x2: int, y2: int)
    ensures
        (0int * ((((y1 * 1) + (1 * (-y2))) * ((y1 * (-y2)) + (21 * (1 * 1)))) + ((3 * (x1 * x2)) * ((x1 * (-y2)) + (y1 * x2))))) == 0int,
{
    lemma_mono4_vars(x1, y1, x2, y2);
    assert(y1 == (1int * mono4(x1, y1, x2, y2, 0, 1, 0, 0)));
    assert(1 == (1int * mono4(x1, y1, x2, y2, 0, 0, 0, 0)));
    assert((y1 * 1) == (1int * mono4(x1, y1, x2, y2, 0, 1, 0, 0)) * (1int * mono4(x1, y1, x2, y2, 0, 0, 0, 0)));
    lemma_coefficient_product(1int, mono4(x1, y1, x2, y2, 0, 1, 0, 0), 1int, mono4(x1, y1, x2, y2, 0, 0, 0, 0));
    lemma_mono4_mul(x1, y1, x2, y2, 0, 1, 0, 0, 0, 0, 0, 0);
    assert((y1 * 1) == (1int * mono4(x1, y1, x2, y2, 0, 1, 0, 0)));
    assert(1 == (1int * mono4(x1, y1, x2, y2, 0, 0, 0, 0)));
    assert(y2 == (1int * mono4(x1, y1, x2, y2, 0, 0, 0, 1)));
    assert((-y2) == ((-1int) * mono4(x1, y1, x2, y2, 0, 0, 0, 1)));
    assert((1 * (-y2)) == (1int * mono4(x1, y1, x2, y2, 0, 0, 0, 0)) * ((-1int) * mono4(x1, y1, x2, y2, 0, 0, 0, 1)));
    lemma_coefficient_product(1int, mono4(x1, y1, x2, y2, 0, 0, 0, 0), (-1int), mono4(x1, y1, x2, y2, 0, 0, 0, 1));
    lemma_mono4_mul(x1, y1, x2, y2, 0, 0, 0, 0, 0, 0, 0, 1);
    assert((1 * (-y2)) == ((-1int) * mono4(x1, y1, x2, y2, 0, 0, 0, 1)));
    assert(((y1 * 1) + (1 * (-y2))) == (((-1int) * mono4(x1, y1, x2, y2, 0, 0, 0, 1)) + (1int * mono4(x1, y1, x2, y2, 0, 1, 0, 0))));
    assert(y1 == (1int * mono4(x1, y1, x2, y2, 0, 1, 0, 0)));
    assert(y2 == (1int * mono4(x1, y1, x2, y2, 0, 0, 0, 1)));
    assert((-y2) == ((-1int) * mono4(x1, y1, x2, y2, 0, 0, 0, 1)));
    assert((y1 * (-y2)) == (1int * mono4(x1, y1, x2, y2, 0, 1, 0, 0)) * ((-1int) * mono4(x1, y1, x2, y2, 0, 0, 0, 1)));
    lemma_coefficient_product(1int, mono4(x1, y1, x2, y2, 0, 1, 0, 0), (-1int), mono4(x1, y1, x2, y2, 0, 0, 0, 1));
    lemma_mono4_mul(x1, y1, x2, y2, 0, 1, 0, 0, 0, 0, 0, 1);
    assert((y1 * (-y2)) == ((-1int) * mono4(x1, y1, x2, y2, 0, 1, 0, 1)));
    assert(21 == (21int * mono4(x1, y1, x2, y2, 0, 0, 0, 0)));
    assert(1 == (1int * mono4(x1, y1, x2, y2, 0, 0, 0, 0)));
    assert(1 == (1int * mono4(x1, y1, x2, y2, 0, 0, 0, 0)));
    assert((1 * 1) == (1int * mono4(x1, y1, x2, y2, 0, 0, 0, 0)) * (1int * mono4(x1, y1, x2, y2, 0, 0, 0, 0)));
    lemma_coefficient_product(1int, mono4(x1, y1, x2, y2, 0, 0, 0, 0), 1int, mono4(x1, y1, x2, y2, 0, 0, 0, 0));
    lemma_mono4_mul(x1, y1, x2, y2, 0, 0, 0, 0, 0, 0, 0, 0);
    assert((1 * 1) == (1int * mono4(x1, y1, x2, y2, 0, 0, 0, 0)));
    assert((21 * (1 * 1)) == (21int * mono4(x1, y1, x2, y2, 0, 0, 0, 0)) * (1int * mono4(x1, y1, x2, y2, 0, 0, 0, 0)));
    lemma_coefficient_product(21int, mono4(x1, y1, x2, y2, 0, 0, 0, 0), 1int, mono4(x1, y1, x2, y2, 0, 0, 0, 0));
    lemma_mono4_mul(x1, y1, x2, y2, 0, 0, 0, 0, 0, 0, 0, 0);
    assert((21 * (1 * 1)) == (21int * mono4(x1, y1, x2, y2, 0, 0, 0, 0)));
    assert(((y1 * (-y2)) + (21 * (1 * 1))) == ((21int * mono4(x1, y1, x2, y2, 0, 0, 0, 0)) + ((-1int) * mono4(x1, y1, x2, y2, 0, 1, 0, 1))));
    assert((((y1 * 1) + (1 * (-y2))) * ((y1 * (-y2)) + (21 * (1 * 1)))) == (((-1int) * mono4(x1, y1, x2, y2, 0, 0, 0, 1)) + (1int * mono4(x1, y1, x2, y2, 0, 1, 0, 0))) * ((21int * mono4(x1, y1, x2, y2, 0, 0, 0, 0)) + ((-1int) * mono4(x1, y1, x2, y2, 0, 1, 0, 1))));
    lemma_mul_is_distributive_add_other_way(((21int * mono4(x1, y1, x2, y2, 0, 0, 0, 0)) + ((-1int) * mono4(x1, y1, x2, y2, 0, 1, 0, 1))), ((-1int) * mono4(x1, y1, x2, y2, 0, 0, 0, 1)), (1int * mono4(x1, y1, x2, y2, 0, 1, 0, 0)));
    lemma_mul_is_distributive_add(((-1int) * mono4(x1, y1, x2, y2, 0, 0, 0, 1)), (21int * mono4(x1, y1, x2, y2, 0, 0, 0, 0)), ((-1int) * mono4(x1, y1, x2, y2, 0, 1, 0, 1)));
    lemma_coefficient_product((-1int), mono4(x1, y1, x2, y2, 0, 0, 0, 1), 21int, mono4(x1, y1, x2, y2, 0, 0, 0, 0));
    lemma_mono4_mul(x1, y1, x2, y2, 0, 0, 0, 1, 0, 0, 0, 0);
    lemma_coefficient_product((-1int), mono4(x1, y1, x2, y2, 0, 0, 0, 1), (-1int), mono4(x1, y1, x2, y2, 0, 1, 0, 1));
    lemma_mono4_mul(x1, y1, x2, y2, 0, 0, 0, 1, 0, 1, 0, 1);
    lemma_mul_is_distributive_add((1int * mono4(x1, y1, x2, y2, 0, 1, 0, 0)), (21int * mono4(x1, y1, x2, y2, 0, 0, 0, 0)), ((-1int) * mono4(x1, y1, x2, y2, 0, 1, 0, 1)));
    lemma_coefficient_product(1int, mono4(x1, y1, x2, y2, 0, 1, 0, 0), 21int, mono4(x1, y1, x2, y2, 0, 0, 0, 0));
    lemma_mono4_mul(x1, y1, x2, y2, 0, 1, 0, 0, 0, 0, 0, 0);
    lemma_coefficient_product(1int, mono4(x1, y1, x2, y2, 0, 1, 0, 0), (-1int), mono4(x1, y1, x2, y2, 0, 1, 0, 1));
    lemma_mono4_mul(x1, y1, x2, y2, 0, 1, 0, 0, 0, 1, 0, 1);
    assert((((y1 * 1) + (1 * (-y2))) * ((y1 * (-y2)) + (21 * (1 * 1)))) == ((((-21int) * mono4(x1, y1, x2, y2, 0, 0, 0, 1)) + (21int * mono4(x1, y1, x2, y2, 0, 1, 0, 0))) + ((1int * mono4(x1, y1, x2, y2, 0, 1, 0, 2)) + ((-1int) * mono4(x1, y1, x2, y2, 0, 2, 0, 1)))));
    assert(3 == (3int * mono4(x1, y1, x2, y2, 0, 0, 0, 0)));
    assert(x1 == (1int * mono4(x1, y1, x2, y2, 1, 0, 0, 0)));
    assert(x2 == (1int * mono4(x1, y1, x2, y2, 0, 0, 1, 0)));
    assert((x1 * x2) == (1int * mono4(x1, y1, x2, y2, 1, 0, 0, 0)) * (1int * mono4(x1, y1, x2, y2, 0, 0, 1, 0)));
    lemma_coefficient_product(1int, mono4(x1, y1, x2, y2, 1, 0, 0, 0), 1int, mono4(x1, y1, x2, y2, 0, 0, 1, 0));
    lemma_mono4_mul(x1, y1, x2, y2, 1, 0, 0, 0, 0, 0, 1, 0);
    assert((x1 * x2) == (1int * mono4(x1, y1, x2, y2, 1, 0, 1, 0)));
    assert((3 * (x1 * x2)) == (3int * mono4(x1, y1, x2, y2, 0, 0, 0, 0)) * (1int * mono4(x1, y1, x2, y2, 1, 0, 1, 0)));
    lemma_coefficient_product(3int, mono4(x1, y1, x2, y2, 0, 0, 0, 0), 1int, mono4(x1, y1, x2, y2, 1, 0, 1, 0));
    lemma_mono4_mul(x1, y1, x2, y2, 0, 0, 0, 0, 1, 0, 1, 0);
    assert((3 * (x1 * x2)) == (3int * mono4(x1, y1, x2, y2, 1, 0, 1, 0)));
    assert(x1 == (1int * mono4(x1, y1, x2, y2, 1, 0, 0, 0)));
    assert(y2 == (1int * mono4(x1, y1, x2, y2, 0, 0, 0, 1)));
    assert((-y2) == ((-1int) * mono4(x1, y1, x2, y2, 0, 0, 0, 1)));
    assert((x1 * (-y2)) == (1int * mono4(x1, y1, x2, y2, 1, 0, 0, 0)) * ((-1int) * mono4(x1, y1, x2, y2, 0, 0, 0, 1)));
    lemma_coefficient_product(1int, mono4(x1, y1, x2, y2, 1, 0, 0, 0), (-1int), mono4(x1, y1, x2, y2, 0, 0, 0, 1));
    lemma_mono4_mul(x1, y1, x2, y2, 1, 0, 0, 0, 0, 0, 0, 1);
    assert((x1 * (-y2)) == ((-1int) * mono4(x1, y1, x2, y2, 1, 0, 0, 1)));
    assert(y1 == (1int * mono4(x1, y1, x2, y2, 0, 1, 0, 0)));
    assert(x2 == (1int * mono4(x1, y1, x2, y2, 0, 0, 1, 0)));
    assert((y1 * x2) == (1int * mono4(x1, y1, x2, y2, 0, 1, 0, 0)) * (1int * mono4(x1, y1, x2, y2, 0, 0, 1, 0)));
    lemma_coefficient_product(1int, mono4(x1, y1, x2, y2, 0, 1, 0, 0), 1int, mono4(x1, y1, x2, y2, 0, 0, 1, 0));
    lemma_mono4_mul(x1, y1, x2, y2, 0, 1, 0, 0, 0, 0, 1, 0);
    assert((y1 * x2) == (1int * mono4(x1, y1, x2, y2, 0, 1, 1, 0)));
    assert(((x1 * (-y2)) + (y1 * x2)) == ((1int * mono4(x1, y1, x2, y2, 0, 1, 1, 0)) + ((-1int) * mono4(x1, y1, x2, y2, 1, 0, 0, 1))));
    assert(((3 * (x1 * x2)) * ((x1 * (-y2)) + (y1 * x2))) == (3int * mono4(x1, y1, x2, y2, 1, 0, 1, 0)) * ((1int * mono4(x1, y1, x2, y2, 0, 1, 1, 0)) + ((-1int) * mono4(x1, y1, x2, y2, 1, 0, 0, 1))));
    lemma_mul_is_distributive_add((3int * mono4(x1, y1, x2, y2, 1, 0, 1, 0)), (1int * mono4(x1, y1, x2, y2, 0, 1, 1, 0)), ((-1int) * mono4(x1, y1, x2, y2, 1, 0, 0, 1)));
    lemma_coefficient_product(3int, mono4(x1, y1, x2, y2, 1, 0, 1, 0), 1int, mono4(x1, y1, x2, y2, 0, 1, 1, 0));
    lemma_mono4_mul(x1, y1, x2, y2, 1, 0, 1, 0, 0, 1, 1, 0);
    lemma_coefficient_product(3int, mono4(x1, y1, x2, y2, 1, 0, 1, 0), (-1int), mono4(x1, y1, x2, y2, 1, 0, 0, 1));
    lemma_mono4_mul(x1, y1, x2, y2, 1, 0, 1, 0, 1, 0, 0, 1);
    assert(((3 * (x1 * x2)) * ((x1 * (-y2)) + (y1 * x2))) == ((3int * mono4(x1, y1, x2, y2, 1, 1, 2, 0)) + ((-3int) * mono4(x1, y1, x2, y2, 2, 0, 1, 1))));
    assert(((((y1 * 1) + (1 * (-y2))) * ((y1 * (-y2)) + (21 * (1 * 1)))) + ((3 * (x1 * x2)) * ((x1 * (-y2)) + (y1 * x2)))) == ((((-21int) * mono4(x1, y1, x2, y2, 0, 0, 0, 1)) + ((21int * mono4(x1, y1, x2, y2, 0, 1, 0, 0)) + (1int * mono4(x1, y1, x2, y2, 0, 1, 0, 2)))) + (((-1int) * mono4(x1, y1, x2, y2, 0, 2, 0, 1)) + ((3int * mono4(x1, y1, x2, y2, 1, 1, 2, 0)) + ((-3int) * mono4(x1, y1, x2, y2, 2, 0, 1, 1))))));
    assert((0int * ((((y1 * 1) + (1 * (-y2))) * ((y1 * (-y2)) + (21 * (1 * 1)))) + ((3 * (x1 * x2)) * ((x1 * (-y2)) + (y1 * x2))))) == 0int * ((((-21int) * mono4(x1, y1, x2, y2, 0, 0, 0, 1)) + ((21int * mono4(x1, y1, x2, y2, 0, 1, 0, 0)) + (1int * mono4(x1, y1, x2, y2, 0, 1, 0, 2)))) + (((-1int) * mono4(x1, y1, x2, y2, 0, 2, 0, 1)) + ((3int * mono4(x1, y1, x2, y2, 1, 1, 2, 0)) + ((-3int) * mono4(x1, y1, x2, y2, 2, 0, 1, 1))))));
    assert((0int * ((((y1 * 1) + (1 * (-y2))) * ((y1 * (-y2)) + (21 * (1 * 1)))) + ((3 * (x1 * x2)) * ((x1 * (-y2)) + (y1 * x2))))) == 0int);
}

/// Polynomial identity behind the completeness of the addition formula.
proof fn lemma_exceptional_identity(x1: int, y1: int, x2: int, y2: int)
    ensures
        (84 * (y2 * ((((y2 * y2) * (y2 * y2)) + (126 * (y2 * y2))) - 1323))) == ((((((((((((-29106int) * mono4(x1, y1, x2, y2, 0, 0, 0, 1)) + ((-27783int) * mono4(x1, y1, x2, y2, 0, 1, 0, 0))) + (((-3696int) * mono4(x1, y1, x2, y2, 0, 0, 0, 3)) + (((-3969int) * mono4(x1, y1, x2, y2, 0, 1, 0, 2)) + ((-1764int) * mono4(x1, y1, x2, y2, 0, 2, 0, 1))))) + (((1575int * mono4(x1, y1, x2, y2, 0, 0, 3, 1)) + ((-3969int) * mono4(x1, y1, x2, y2, 0, 1, 3, 0))) + (((-4977int) * mono4(x1, y1, x2, y2, 1, 0, 2, 1)) + (((-7938int) * mono4(x1, y1, x2, y2, 1, 1, 2, 0)) + ((-5292int) * mono4(x1, y1, x2, y2, 2, 0, 1, 1)))))) * ((((x1 * x1) * x1) + 7) - (y1 * y1))) + ((((((-37044int) * mono4(x1, y1, x2, y2, 0, 0, 0, 1)) + ((-27783int) * mono4(x1, y1, x2, y2, 0, 1, 0, 0))) + (((-84int) * mono4(x1, y1, x2, y2, 0, 0, 0, 3)) + (2898int * mono4(x1, y1, x2, y2, 0, 2, 0, 1)))) + (((1323int * mono4(x1, y1, x2, y2, 0, 3, 0, 0)) + ((-252int) * mono4(x1, y1, x2, y2, 1, 0, 2, 1))) + ((1008int * mono4(x1, y1, x2, y2, 2, 0, 1, 1)) + (3969int * mono4(x1, y1, x2, y2, 2, 1, 1, 0))))) * ((((x2 * x2) * x2) + 7) - (y2 * y2)))) + ((((((-1323int) * mono4(x1, y1, x2, y2, 0, 0, 2, 0)) + ((-1197int) * mono4(x1, y1, x2, y2, 1, 0, 1, 0))) + (((-1449int) * mono4(x1, y1, x2, y2, 2, 0, 0, 0)) + ((-2int) * mono4(x1, y1, x2, y2, 0, 0, 2, 2)))) + (((63int * mono4(x1, y1, x2, y2, 0, 2, 2, 0)) + (10int * mono4(x1, y1, x2, y2, 1, 0, 1, 2))) + ((15int * mono4(x1, y1, x2, y2, 1, 1, 1, 1)) + (((-44int) * mono4(x1, y1, x2, y2, 2, 0, 0, 2)) + ((-105int) * mono4(x1, y1, x2, y2, 2, 1, 0, 1)))))) * ((((x1 * y2) + (y1 * x2)) * ((y1 * y2) - (21 * (1 * 1)))) - ((21 * ((y1 * 1) + (1 * y2))) * ((x1 * 1) + (1 * x2)))))) + ((((((-798int) * mono4(x1, y1, x2, y2, 0, 0, 0, 1)) + ((-882int) * mono4(x1, y1, x2, y2, 0, 1, 0, 0))) + ((4int * mono4(x1, y1, x2, y2, 0, 0, 3, 1)) + ((-20int) * mono4(x1, y1, x2, y2, 1, 0, 2, 1)))) + ((((-63int) * mono4(x1, y1, x2, y2, 1, 1, 2, 0)) + ((-5int) * mono4(x1, y1, x2, y2, 2, 0, 1, 1))) + ((126int * mono4(x1, y1, x2, y2, 2, 1, 1, 0)) + (84int * mono4(x1, y1, x2, y2, 3, 0, 0, 1))))) * ((((y1 * y2) + (21 * (1 * 1))) * ((y1 * y2) - (21 * (1 * 1)))) + ((63 * (x1 * x2)) * ((x1 * 1) + (1 * x2)))))) + (((-1764int) * mono4(x1, y1, x2, y2, 0, 2, 0, 0)) * ((((y1 * 1) + (1 * y2)) * ((y1 * y2) + (21 * (1 * 1)))) + ((3 * (x1 * x2)) * ((x1 * y2) + (y1 * x2)))))) + ((((((-126int) * mono4(x1, y1, x2, y2, 1, 0, 1, 0)) + (126int * mono4(x1, y1, x2, y2, 2, 0, 0, 0))) + ((2int * mono4(x1, y1, x2, y2, 0, 0, 2, 2)) + (63int * mono4(x1, y1, x2, y2, 0, 2, 2, 0)))) + ((((-10int) * mono4(x1, y1, x2, y2, 1, 0, 1, 2)) + (78int * mono4(x1, y1, x2, y2, 1, 1, 1, 1))) + ((44int * mono4(x1, y1, x2, y2, 2, 0, 0, 2)) + (21int * mono4(x1, y1, x2, y2, 2, 1, 0, 1))))) * ((((x1 * (-y2)) + (y1 * x2)) * ((y1 * (-y2)) - (21 * (1 * 1)))) - ((21 * ((y1 * 1) + (1 * (-y2)))) * ((x1 * 1) + (1 * x2)))))) + (0int * ((((y1 * 1) + (1 * (-y2))) * ((y1 * (-y2)) + (21 * (1 * 1)))) + ((3 * (x1 * x2)) * ((x1 * (-y2)) + (y1 * x2)))))),
{
    lemma_exceptional_identity_part0(x1, y1, x2, y2);
    lemma_exceptional_identity_part1(x1, y1, x2, y2);
    lemma_exceptional_identity_part2(x1, y1, x2, y2);
    lemma_exceptional_identity_part3(x1, y1, x2, y2);
    lemma_exceptional_identity_part4(x1, y1, x2, y2);
    lemma_exceptional_identity_part5(x1, y1, x2, y2);
    lemma_exceptional_identity_part6(x1, y1, x2, y2);
    lemma_exceptional_identity_part7(x1, y1, x2, y2);
}

/// Where the addition formula and the formula for `P1 - P2` both vanish on
/// two points of the curve given with `z = 1`, `84 y2 (y2^4 + 126 y2^2 - 1323)`
/// vanishes too.
pub proof fn lemma_exceptional(x1: int, y1: int, x2: int, y2: int)
    requires
        modp(((((x1 * x1) * x1) + 7) - (y1 * y1))) == 0,
        modp(((((x2 * x2) * x2) + 7) - (y2 * y2))) == 0,
        modp(((((x1 * y2) + (y1 * x2)) * ((y1 * y2) - (21 * (1 * 1)))) - ((21 * ((y1 * 1) + (1 * y2))) * ((x1 * 1) + (1 * x2))))) == 0,
        modp(((((y1 * y2) + (21 * (1 * 1))) * ((y1 * y2) - (21 * (1 * 1)))) + ((63 * (x1 * x2)) * ((x1 * 1) + (1 * x2))))) == 0,
        modp(((((y1 * 1) + (1 * y2)) * ((y1 * y2) + (21 * (1 * 1)))) + ((3 * (x1 * x2)) * ((x1 * y2) + (y1 * x2))))) == 0,
        modp(((((x1 * (-y2)) + (y1 * x2)) * ((y1 * (-y2)) - (21 * (1 * 1)))) - ((21 * ((y1 * 1) + (1 * (-y2)))) * ((x1 * 1) + (1 * x2))))) == 0,
        modp(((((y1 * 1) + (1 * (-y2))) * ((y1 * (-y2)) + (21 * (1 * 1)))) + ((3 * (x1 * x2)) * ((x1 * (-y2)) + (y1 * x2))))) == 0,
    ensures
        modp((84 * (y2 * ((((y2 * y2) * (y2 * y2)) + (126 * (y2 * y2))) - 1323)))) == 0,
{
    lemma_exceptional_identity(x1, y1, x2, y2);
    lemma_multiple_of_zero((((((-29106int) * mono4(x1, y1, x2, y2, 0, 0, 0, 1)) + ((-27783int) * mono4(x1, y1, x2, y2, 0, 1, 0, 0))) + (((-3696int) * mono4(x1, y1, x2, y2, 0, 0, 0, 3)) + (((-3969int) * mono4(x1, y1, x2, y2, 0, 1, 0, 2)) + ((-1764int) * mono4(x1, y1, x2, y2, 0, 2, 0, 1))))) + (((1575int * mono4(x1, y1, x2, y2, 0, 0, 3, 1)) + ((-3969int) * mono4(x1, y1, x2, y2, 0, 1, 3, 0))) + (((-4977int) * mono4(x1, y1, x2, y2, 1, 0, 2, 1)) + (((-7938int) * mono4(x1, y1, x2, y2, 1, 1, 2, 0)) + ((-5292int) * mono4(x1, y1, x2, y2, 2, 0, 1, 1)))))), ((((x1 * x1) * x1) + 7) - (y1 * y1)));
    lemma_multiple_of_zero((((((-37044int) * mono4(x1, y1, x2, y2, 0, 0, 0, 1)) + ((-27783int) * mono4(x1, y1, x2, y2, 0, 1, 0, 0))) + (((-84int) * mono4(x1, y1, x2, y2, 0, 0, 0, 3)) + (2898int * mono4(x1, y1, x2, y2, 0, 2, 0, 1)))) + (((1323int * mono4(x1, y1, x2, y2, 0, 3, 0, 0)) + ((-252int) * mono4(x1, y1, x2, y2, 1, 0, 2, 1))) + ((1008int * mono4(x1, y1, x2, y2, 2, 0, 1, 1)) + (3969int * mono4(x1, y1, x2, y2, 2, 1, 1, 0))))), ((((x2 * x2) * x2) + 7) - (y2 * y2)));
    lemma_sum_of_zeros(((((((-29106int) * mono4(x1, y1, x2, y2, 0, 0, 0, 1)) + ((-27783int) * mono4(x1, y1, x2, y2, 0, 1, 0, 0))) + (((-3696int) * mono4(x1, y1, x2, y2, 0, 0, 0, 3)) + (((-3969int) * mono4(x1, y1, x2, y2, 0, 1, 0, 2)) + ((-1764int) * mono4(x1, y1, x2, y2, 0, 2, 0, 1))))) + (((1575int * mono4(x1, y1, x2, y2, 0, 0, 3, 1)) + ((-3969int) * mono4(x1, y1, x2, y2, 0, 1, 3, 0))) + (((-4977int) * mono4(x1, y1, x2, y2, 1, 0, 2, 1)) + (((-7938int) * mono4(x1, y1, x2, y2, 1, 1, 2, 0)) + ((-5292int) * mono4(x1, y1, x2, y2, 2, 0, 1, 1)))))) * ((((x1 * x1) * x1) + 7) - (y1 * y1))), ((((((-37044int) * mono4(x1, y1, x2, y2, 0, 0, 0, 1)) + ((-27783int) * mono4(x1, y1, x2, y2, 0, 1, 0, 0))) + (((-84int) * mono4(x1, y1, x2, y2, 0, 0, 0, 3)) + (2898int * mono4(x1, y1, x2, y2, 0, 2, 0, 1)))) + (((1323int * mono4(x1, y1, x2, y2, 0, 3, 0, 0)) + ((-252int) * mono4(x1, y1, x2, y2, 1, 0, 2, 1))) + ((1008int * mono4(x1, y1, x2, y2, 2, 0, 1, 1)) + (3969int * mono4(x1, y1, x2, y2, 2, 1, 1, 0))))) * ((((x2 * x2) * x2) + 7) - (y2 * y2))));
    lemma_multiple_of_zero((((((-1323int) * mono4(x1, y1, x2, y2, 0, 0, 2, 0)) + ((-1197int) * mono4(x1, y1, x2, y2, 1, 0, 1, 0))) + (((-1449int) * mono4(x1, y1, x2, y2, 2, 0, 0, 0)) + ((-2int) * mono4(x1, y1, x2, y2, 0, 0, 2, 2)))) + (((63int * mono4(x1, y1, x2, y2, 0, 2, 2, 0)) + (10int * mono4(x1, y1, x2, y2, 1, 0, 1, 2))) + ((15int * mono4(x1, y1, x2, y2, 1, 1, 1, 1)) + (((-44int) * mono4(x1, y1, x2, y2, 2, 0, 0, 2)) + ((-105int) * mono4(x1, y1, x2, y2, 2, 1, 0, 1)))))), ((((x1 * y2) + (y1 * x2)) * ((y1 * y2) - (21 * (1 * 1)))) - ((21 * ((y1 * 1) + (1 * y2))) * ((x1 * 1) + (1 * x2)))));
    lemma_sum_of_zeros((((((((-29106int) * mono4(x1, y1, x2, y2, 0, 0, 0, 1)) + ((-27783int) * mono4(x1, y1, x2, y2, 0, 1, 0, 0))) + (((-3696int) * mono4(x1, y1, x2, y2, 0, 0, 0, 3)) + (((-3969int) * mono4(x1, y1, x2, y2, 0, 1, 0, 2)) + ((-1764int) * mono4(x1, y1, x2, y2, 0, 2, 0, 1))))) + (((1575int * mono4(x1, y1, x2, y2, 0, 0, 3, 1)) + ((-3969int) * mono4(x1, y1, x2, y2, 0, 1, 3, 0))) + (((-4977int) * mono4(x1, y1, x2, y2, 1, 0, 2, 1)) + (((-7938int) * mono4(x1, y1, x2, y2, 1, 1, 2, 0)) + ((-5292int) * mono4(x1, y1, x2, y2, 2, 0, 1, 1)))))) * ((((x1 * x1) * x1) + 7) - (y1 * y1))) + ((((((-37044int) * mono4(x1, y1, x2, y2, 0, 0, 0, 1)) + ((-27783int) * mono4(x1, y1, x2, y2, 0, 1, 0, 0))) + (((-84int) * mono4(x1, y1, x2, y2, 0, 0, 0, 3)) + (2898int * mono4(x1, y1, x2, y2, 0, 2, 0, 1)))) + (((1323int * mono4(x1, y1, x2, y2, 0, 3, 0, 0)) + ((-252int) * mono4(x1, y1, x2, y2, 1, 0, 2, 1))) + ((1008int * mono4(x1, y1, x2, y2, 2, 0, 1, 1)) + (3969int * mono4(x1, y1, x2, y2, 2, 1, 1, 0))))) * ((((x2 * x2) * x2) + 7) - (y2 * y2)))), ((((((-1323int) * mono4(x1, y1, x2, y2, 0, 0, 2, 0)) + ((-1197int) * mono4(x1, y1, x2, y2, 1, 0, 1, 0))) + (((-1449int) * mono4(x1, y1, x2, y2, 2, 0, 0, 0)) + ((-2int) * mono4(x1, y1, x2, y2, 0, 0, 2, 2)))) + (((63int * mono4(x1, y1, x2, y2, 0, 2, 2, 0)) + (10int * mono4(x1, y1, x2, y2, 1, 0, 1, 2))) + ((15int * mono4(x1, y1, x2, y2, 1, 1, 1, 1)) + (((-44int) * mono4(x1, y1, x2, y2, 2, 0, 0, 2)) + ((-105int) * mono4(x1, y1, x2, y2, 2, 1, 0, 1)))))) * ((((x1 * y2) + (y1 * x2)) * ((y1 * y2) - (21 * (1 * 1)))) - ((21 * ((y1 * 1) + (1 * y2))) * ((x1 * 1) + (1 * x2))))));
    lemma_multiple_of_zero((((((-798int) * mono4(x1, y1, x2, y2, 0, 0, 0, 1)) + ((-882int) * mono4(x1, y1, x2, y2, 0, 1, 0, 0))) + ((4int * mono4(x1, y1, x2, y2, 0, 0, 3, 1)) + ((-20int) * mono4(x1, y1, x2, y2, 1, 0, 2, 1)))) + ((((-63int) * mono4(x1, y1, x2, y2, 1, 1, 2, 0)) + ((-5int) * mono4(x1, y1, x2, y2, 2, 0, 1, 1))) + ((126int * mono4(x1, y1, x2, y2, 2, 1, 1, 0)) + (84int * mono4(x1, y1, x2, y2, 3, 0, 0, 1))))), ((((y1 * y2) + (21 * (1 * 1))) * ((y1 * y2) - (21 * (1 * 1)))) + ((63 * (x1 * x2)) * ((x1 * 1) + (1 * x2)))));
    lemma_sum_of_zeros(((((((((-29106int) * mono4(x1, y1, x2, y2, 0, 0, 0, 1)) + ((-27783int) * mono4(x1, y1, x2, y2, 0, 1, 0, 0))) + (((-3696int) * mono4(x1, y1, x2, y2, 0, 0, 0, 3)) + (((-3969int) * mono4(x1, y1, x2, y2, 0, 1, 0, 2)) + ((-1764int) * mono4(x1, y1, x2, y2, 0, 2, 0, 1))))) + (((1575int * mono4(x1, y1, x2, y2, 0, 0, 3, 1)) + ((-3969int) * mono4(x1, y1, x2, y2, 0, 1, 3, 0))) + (((-4977int) * mono4(x1, y1, x2, y2, 1, 0, 2, 1)) + (((-7938int) * mono4(x1, y1, x2, y2, 1, 1, 2, 0)) + ((-5292int) * mono4(x1, y1, x2, y2, 2, 0, 1, 1)))))) * ((((x1 * x1) * x1) + 7) - (y1 * y1))) + ((((((-37044int) * mono4(x1, y1, x2, y2, 0, 0, 0, 1)) + ((-27783int) * mono4(x1, y1, x2, y2, 0, 1, 0, 0))) + (((-84int) * mono4(x1, y1, x2, y2, 0, 0, 0, 3)) + (2898int * mono4(x1, y1, x2, y2, 0, 2, 0, 1)))) + (((1323int * mono4(x1, y1, x2, y2, 0, 3, 0, 0)) + ((-252int) * mono4(x1, y1, x2, y2, 1, 0, 2, 1))) + ((1008int * mono4(x1, y1, x2, y2, 2, 0, 1, 1)) + (3969int * mono4(x1, y1, x2, y2, 2, 1, 1, 0))))) * ((((x2 * x2) * x2) + 7) - (y2 * y2)))) + ((((((-1323int) * mono4(x1, y1, x2, y2, 0, 0, 2, 0)) + ((-1197int) * mono4(x1, y1, x2, y2, 1, 0, 1, 0))) + (((-1449int) * mono4(x1, y1, x2, y2, 2, 0, 0, 0)) + ((-2int) * mono4(x1, y1, x2, y2, 0, 0, 2, 2)))) + (((63int * mono4(x1, y1, x2, y2, 0, 2, 2, 0)) + (10int * mono4(x1, y1, x2, y2, 1, 0, 1, 2))) + ((15int * mono4(x1, y1, x2, y2, 1, 1, 1, 1)) + (((-44int) * mono4(x1, y1, x2, y2, 2, 0, 0, 2)) + ((-105int) * mono4(x1, y1, x2, y2, 2, 1, 0, 1)))))) * ((((x1 * y2) + (y1 * x2)) * ((y1 * y2) - (21 * (1 * 1)))) - ((21 * ((y1 * 1) + (1 * y2))) * ((x1 * 1) + (1 * x2)))))), ((((((-798int) * mono4(x1, y1, x2, y2, 0, 0, 0, 1)) + ((-882int) * mono4(x1, y1, x2, y2, 0, 1, 0, 0))) + ((4int * mono4(x1, y1, x2, y2, 0, 0, 3, 1)) + ((-20int) * mono4(x1, y1, x2, y2, 1, 0, 2, 1)))) + ((((-63int) * mono4(x1, y1, x2, y2, 1, 1, 2, 0)) + ((-5int) * mono4(x1, y1, x2, y2, 2, 0, 1, 1))) + ((126int * mono4(x1, y1, x2, y2, 2, 1, 1, 0)) + (84int * mono4(x1, y1, x2, y2, 3, 0, 0, 1))))) * ((((y1 * y2) + (21 * (1 * 1))) * ((y1 * y2) - (21 * (1 * 1)))) + ((63 * (x1 * x2)) * ((x1 * 1) + (1 * x2))))));
    lemma_multiple_of_zero(((-1764int) * mono4(x1, y1, x2, y2, 0, 2, 0, 0)), ((((y1 * 1) + (1 * y2)) * ((y1 * y2) + (21 * (1 * 1)))) + ((3 * (x1 * x2)) * ((x1 * y2) + (y1 * x2)))));
    lemma_sum_of_zeros((((((((((-29106int) * mono4(x1, y1, x2, y2, 0, 0, 0, 1)) + ((-27783int) * mono4(x1, y1, x2, y2, 0, 1, 0, 0))) + (((-3696int) * mono4(x1, y1, x2, y2, 0, 0, 0, 3)) + (((-3969int) * mono4(x1, y1, x2, y2, 0, 1, 0, 2)) + ((-1764int) * mono4(x1, y1, x2, y2, 0, 2, 0, 1))))) + (((1575int * mono4(x1, y1, x2, y2, 0, 0, 3, 1)) + ((-3969int) * mono4(x1, y1, x2, y2, 0, 1, 3, 0))) + (((-4977int) * mono4(x1, y1, x2, y2, 1, 0, 2, 1)) + (((-7938int) * mono4(x1, y1, x2, y2, 1, 1, 2, 0)) + ((-5292int) * mono4(x1, y1, x2, y2, 2, 0, 1, 1)))))) * ((((x1 * x1) * x1) + 7) - (y1 * y1))) + ((((((-37044int) * mono4(x1, y1, x2, y2, 0, 0, 0, 1)) + ((-27783int) * mono4(x1, y1, x2, y2, 0, 1, 0, 0))) + (((-84int) * mono4(x1, y1, x2, y2, 0, 0, 0, 3)) + (2898int * mono4(x1, y1, x2, y2, 0, 2, 0, 1)))) + (((1323int * mono4(x1, y1, x2, y2, 0, 3, 0, 0)) + ((-252int) * mono4(x1, y1, x2, y2, 1, 0, 2, 1))) + ((1008int * mono4(x1, y1, x2, y2, 2, 0, 1, 1)) + (3969int * mono4(x1, y1, x2, y2, 2, 1, 1, 0))))) * ((((x2 * x2) * x2) + 7) - (y2 * y2)))) + ((((((-1323int) * mono4(x1, y1, x2, y2, 0, 0, 2, 0)) + ((-1197int) * mono4(x1, y1, x2, y2, 1, 0, 1, 0))) + (((-1449int) * mono4(x1, y1, x2, y2, 2, 0, 0, 0)) + ((-2int) * mono4(x1, y1, x2, y2, 0, 0, 2, 2)))) + (((63int * mono4(x1, y1, x2, y2, 0, 2, 2, 0)) + (10int * mono4(x1, y1, x2, y2, 1, 0, 1, 2))) + ((15int * mono4(x1, y1, x2, y2, 1, 1, 1, 1)) + (((-44int) * mono4(x1, y1, x2, y2, 2, 0, 0, 2)) + ((-105int) * mono4(x1, y1, x2, y2, 2, 1, 0, 1)))))) * ((((x1 * y2) + (y1 * x2)) * ((y1 * y2) - (21 * (1 * 1)))) - ((21 * ((y1 * 1) + (1 * y2))) * ((x1 * 1) + (1 * x2)))))) + ((((((-798int) * mono4(x1, y1, x2, y2, 0, 0, 0, 1)) + ((-882int) * mono4(x1, y1, x2, y2, 0, 1, 0, 0))) + ((4int * mono4(x1, y1, x2, y2, 0, 0, 3, 1)) + ((-20int) * mono4(x1, y1, x2, y2, 1, 0, 2, 1)))) + ((((-63int) * mono4(x1, y1, x2, y2, 1, 1, 2, 0)) + ((-5int) * mono4(x1, y1, x2, y2, 2, 0, 1, 1))) + ((126int * mono4(x1, y1, x2, y2, 2, 1, 1, 0)) + (84int * mono4(x1, y1, x2, y2, 3, 0, 0, 1))))) * ((((y1 * y2) + (21 * (1 * 1))) * ((y1 * y2) - (21 * (1 * 1)))) + ((63 * (x1 * x2)) * ((x1 * 1) + (1 * x2)))))), (((-1764int) * mono4(x1, y1, x2, y2, 0, 2, 0, 0)) * ((((y1 * 1) + (1 * y2)) * ((y1 * y2) + (21 * (1 * 1)))) + ((3 * (x1 * x2)) * ((x1 * y2) + (y1 * x2))))));
    lemma_multiple_of_zero((((((-126int) * mono4(x1, y1, x2, y2, 1, 0, 1, 0)) + (126int * mono4(x1, y1, x2, y2, 2, 0, 0, 0))) + ((2int * mono4(x1, y1, x2, y2, 0, 0, 2, 2)) + (63int * mono4(x1, y1, x2, y2, 0, 2, 2, 0)))) + ((((-10int) * mono4(x1, y1, x2, y2, 1, 0, 1, 2)) + (78int * mono4(x1, y1, x2, y2, 1, 1, 1, 1))) + ((44int * mono4(x1, y1, x2, y2, 2, 0, 0, 2)) + (21int * mono4(x1, y1, x2, y2, 2, 1, 0, 1))))), ((((x1 * (-y2)) + (y1 * x2)) * ((y1 * (-y2)) - (21 * (1 * 1)))) - ((21 * ((y1 * 1) + (1 * (-y2)))) * ((x1 * 1) + (1 * x2)))));
    lemma_sum_of_zeros(((((((((((-29106int) * mono4(x1, y1, x2, y2, 0, 0, 0, 1)) + ((-27783int) * mono4(x1, y1, x2, y2, 0, 1, 0, 0))) + (((-3696int) * mono4(x1, y1, x2, y2, 0, 0, 0, 3)) + (((-3969int) * mono4(x1, y1, x2, y2, 0, 1, 0, 2)) + ((-1764int) * mono4(x1, y1, x2, y2, 0, 2, 0, 1))))) + (((1575int * mono4(x1, y1, x2, y2, 0, 0, 3, 1)) + ((-3969int) * mono4(x1, y1, x2, y2, 0, 1, 3, 0))) + (((-4977int) * mono4(x1, y1, x2, y2, 1, 0, 2, 1)) + (((-7938int) * mono4(x1, y1, x2, y2, 1, 1, 2, 0)) + ((-5292int) * mono4(x1, y1, x2, y2, 2, 0, 1, 1)))))) * ((((x1 * x1) * x1) + 7) - (y1 * y1))) + ((((((-37044int) * mono4(x1, y1, x2, y2, 0, 0, 0, 1)) + ((-27783int) * mono4(x1, y1, x2, y2, 0, 1, 0, 0))) + (((-84int) * mono4(x1, y1, x2, y2, 0, 0, 0, 3)) + (2898int * mono4(x1, y1, x2, y2, 0, 2, 0, 1)))) + (((1323int * mono4(x1, y1, x2, y2, 0, 3, 0, 0)) + ((-252int) * mono4(x1, y1, x2, y2, 1, 0, 2, 1))) + ((1008int * mono4(x1, y1, x2, y2, 2, 0, 1, 1)) + (3969int * mono4(x1, y1, x2, y2, 2, 1, 1, 0))))) * ((((x2 * x2) * x2) + 7) - (y2 * y2)))) + ((((((-1323int) * mono4(x1, y1, x2, y2, 0, 0, 2, 0)) + ((-1197int) * mono4(x1, y1, x2, y2, 1, 0, 1, 0))) + (((-1449int) * mono4(x1, y1, x2, y2, 2, 0, 0, 0)) + ((-2int) * mono4(x1, y1, x2, y2, 0, 0, 2, 2)))) + (((63int * mono4(x1, y1, x2, y2, 0, 2, 2, 0)) + (10int * mono4(x1, y1, x2, y2, 1, 0, 1, 2))) + ((15int * mono4(x1, y1, x2, y2, 1, 1, 1, 1)) + (((-44int) * mono4(x1, y1, x2, y2, 2, 0, 0, 2)) + ((-105int) * mono4(x1, y1, x2, y2, 2, 1, 0, 1)))))) * ((((x1 * y2) + (y1 * x2)) * ((y1 * y2) - (21 * (1 * 1)))) - ((21 * ((y1 * 1) + (1 * y2))) * ((x1 * 1) + (1 * x2)))))) + ((((((-798int) * mono4(x1, y1, x2, y2, 0, 0, 0, 1)) + ((-882int) * mono4(x1, y1, x2, y2, 0, 1, 0, 0))) + ((4int * mono4(x1, y1, x2, y2, 0, 0, 3, 1)) + ((-20int) * mono4(x1, y1, x2, y2, 1, 0, 2, 1)))) + ((((-63int) * mono4(x1, y1, x2, y2, 1, 1, 2, 0)) + ((-5int) * mono4(x1, y1, x2, y2, 2, 0, 1, 1))) + ((126int * mono4(x1, y1, x2, y2, 2, 1, 1, 0)) + (84int * mono4(x1, y1, x2, y2, 3, 0, 0, 1))))) * ((((y1 * y2) + (21 * (1 * 1))) * ((y1 * y2) - (21 * (1 * 1)))) + ((63 * (x1 * x2)) * ((x1 * 1) + (1 * x2)))))) + (((-1764int) * mono4(x1, y1, x2, y2, 0, 2, 0, 0)) * ((((y1 * 1) + (1 * y2)) * ((y1 * y2) + (21 * (1 * 1)))) + ((3 * (x1 * x2)) * ((x1 * y2) + (y1 * x2)))))), ((((((-126int) * mono4(x1, y1, x2, y2, 1, 0, 1, 0)) + (126int * mono4(x1, y1, x2, y2, 2, 0, 0, 0))) + ((2int * mono4(x1, y1, x2, y2, 0, 0, 2, 2)) + (63int * mono4(x1, y1, x2, y2, 0, 2, 2, 0)))) + ((((-10int) * mono4(x1, y1, x2, y2, 1, 0, 1, 2)) + (78int * mono4(x1, y1, x2, y2, 1, 1, 1, 1))) + ((44int * mono4(x1, y1, x2, y2, 2, 0, 0, 2)) + (21int * mono4(x1, y1, x2, y2, 2, 1, 0, 1))))) * ((((x1 * (-y2)) + (y1 * x2)) * ((y1 * (-y2)) - (21 * (1 * 1)))) - ((21 * ((y1 * 1) + (1 * (-y2)))) * ((x1 * 1) + (1 * x2))))));
    lemma_multiple_of_zero(0int, ((((y1 * 1) + (1 * (-y2))) * ((y1 * (-y2)) + (21 * (1 * 1)))) + ((3 * (x1 * x2)) * ((x1 * (-y2)) + (y1 * x2)))));
    lemma_sum_of_zeros((((((((((((-29106int) * mono4(x1, y1, x2, y2, 0, 0, 0, 1)) + ((-27783int) * mono4(x1, y1, x2, y2, 0, 1, 0, 0))) + (((-3696int) * mono4(x1, y1, x2, y2, 0, 0, 0, 3)) + (((-3969int) * mono4(x1, y1, x2, y2, 0, 1, 0, 2)) + ((-1764int) * mono4(x1, y1, x2, y2, 0, 2, 0, 1))))) + (((1575int * mono4(x1, y1, x2, y2, 0, 0, 3, 1)) + ((-3969int) * mono4(x1, y1, x2, y2, 0, 1, 3, 0))) + (((-4977int) * mono4(x1, y1, x2, y2, 1, 0, 2, 1)) + (((-7938int) * mono4(x1, y1, x2, y2, 1, 1, 2, 0)) + ((-5292int) * mono4(x1, y1, x2, y2, 2, 0, 1, 1)))))) * ((((x1 * x1) * x1) + 7) - (y1 * y1))) + ((((((-37044int) * mono4(x1, y1, x2, y2, 0, 0, 0, 1)) + ((-27783int) * mono4(x1, y1, x2, y2, 0, 1, 0, 0))) + (((-84int) * mono4(x1, y1, x2, y2, 0, 0, 0, 3)) + (2898int * mono4(x1, y1, x2, y2, 0, 2, 0, 1)))) + (((1323int * mono4(x1, y1, x2, y2, 0, 3, 0, 0)) + ((-252int) * mono4(x1, y1, x2, y2, 1, 0, 2, 1))) + ((1008int * mono4(x1, y1, x2, y2, 2, 0, 1, 1)) + (3969int * mono4(x1, y1, x2, y2, 2, 1, 1, 0))))) * ((((x2 * x2) * x2) + 7) - (y2 * y2)))) + ((((((-1323int) * mono4(x1, y1, x2, y2, 0, 0, 2, 0)) + ((-1197int) * mono4(x1, y1, x2, y2, 1, 0, 1, 0))) + (((-1449int) * mono4(x1, y1, x2, y2, 2, 0, 0, 0)) + ((-2int) * mono4(x1, y1, x2, y2, 0, 0, 2, 2)))) + (((63int * mono4(x1, y1, x2, y2, 0, 2, 2, 0)) + (10int * mono4(x1, y1, x2, y2, 1, 0, 1, 2))) + ((15int * mono4(x1, y1, x2, y2, 1, 1, 1, 1)) + (((-44int) * mono4(x1, y1, x2, y2, 2, 0, 0, 2)) + ((-105int) * mono4(x1, y1, x2, y2, 2, 1, 0, 1)))))) * ((((x1 * y2) + (y1 * x2)) * ((y1 * y2) - (21 * (1 * 1)))) - ((21 * ((y1 * 1) + (1 * y2))) * ((x1 * 1) + (1 * x2)))))) + ((((((-798int) * mono4(x1, y1, x2, y2, 0, 0, 0, 1)) + ((-882int) * mono4(x1, y1, x2, y2, 0, 1, 0, 0))) + ((4int * mono4(x1, y1, x2, y2, 0, 0, 3, 1)) + ((-20int) * mono4(x1, y1, x2, y2, 1, 0, 2, 1)))) + ((((-63int) * mono4(x1, y1, x2, y2, 1, 1, 2, 0)) + ((-5int) * mono4(x1, y1, x2, y2, 2, 0, 1, 1))) + ((126int * mono4(x1, y1, x2, y2, 2, 1, 1, 0)) + (84int * mono4(x1, y1, x2, y2, 3, 0, 0, 1))))) * ((((y1 * y2) + (21 * (1 * 1))) * ((y1 * y2) - (21 * (1 * 1)))) + ((63 * (x1 * x2)) * ((x1 * 1) + (1 * x2)))))) + (((-1764int) * mono4(x1, y1, x2, y2, 0, 2, 0, 0)) * ((((y1 * 1) + (1 * y2)) * ((y1 * y2) + (21 * (1 * 1)))) + ((3 * (x1 * x2)) * ((x1 * y2) + (y1 * x2)))))) + ((((((-126int) * mono4(x1, y1, x2, y2, 1, 0, 1, 0)) + (126int * mono4(x1, y1, x2, y2, 2, 0, 0, 0))) + ((2int * mono4(x1, y1, x2, y2, 0, 0, 2, 2)) + (63int * mono4(x1, y1, x2, y2, 0, 2, 2, 0)))) + ((((-10int) * mono4(x1, y1, x2, y2, 1, 0, 1, 2)) + (78int * mono4(x1, y1, x2, y2, 1, 1, 1, 1))) + ((44int * mono4(x1, y1, x2, y2, 2, 0, 0, 2)) + (21int * mono4(x1, y1, x2, y2, 2, 1, 0, 1))))) * ((((x1 * (-y2)) + (y1 * x2)) * ((y1 * (-y2)) - (21 * (1 * 1)))) - ((21 * ((y1 * 1) + (1 * (-y2)))) * ((x1 * 1) + (1 * x2)))))), (0int * ((((y1 * 1) + (1 * (-y2))) * ((y1 * (-y2)) + (21 * (1 * 1)))) + ((3 * (x1 * x2)) * ((x1 * (-y2)) + (y1 * x2))))));
}

} // verus!
