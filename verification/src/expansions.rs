//! Polynomial identities behind the chord and tangent rules and behind the
//! homogeneity of the addition formulas, proved by expanding both sides into
//! monomials, and their consequences modulo p on the curve.
use vstd::prelude::*;
use vstd::arithmetic::mul::{lemma_mul_is_distributive_add, lemma_mul_is_distributive_add_other_way};
use crate::field::p;
use crate::model::{modp, Coords, add_polys, combine};
use crate::laws::lemma_multiple_of_zero;

verus! {

/// Coefficients and monomials of a product of two terms.
pub(crate) proof fn lemma_coefficient_product(c1: int, m1: int, c2: int, m2: int)
    ensures
        (c1 * m1) * (c2 * m2) == (c1 * c2) * (m1 * m2),
{
    assert((c1 * m1) * (c2 * m2) == (c1 * c2) * (m1 * m2)) by (nonlinear_arith);
}

/// `modp(a + b) == 0` when `modp(a) == 0` and `modp(b) == 0`.
pub(crate) proof fn lemma_sum_of_zeros(a: int, b: int)
    requires
        modp(a) == 0,
        modp(b) == 0,
    ensures
        modp(a + b) == 0,
{
    vstd::arithmetic::div_mod::lemma_add_mod_noop(a, b, p() as int);
    vstd::arithmetic::div_mod::lemma_small_mod(0, p());
}

#[verifier::rlimit(40)]
proof fn lemma_chord_identity_x_part1(x1: int, y1: int, x2: int, y2: int)
    ensures
        (((((x1 * y2) + (y1 * x2)) * ((y1 * y2) - 21)) - ((21 * (y1 + y2)) * (x1 + x2))) * ((x2 - x1) * (x2 - x1))) == (((((-21int) * (x1 * x1 * x1 * y1)) + (((-42int) * (x1 * x1 * x1 * y2)) + (63int * (x1 * x1 * x2 * y2)))) + ((63int * (x1 * y1 * x2 * x2)) + (((-42int) * (y1 * x2 * x2 * x2)) + ((-21int) * (x2 * x2 * x2 * y2))))) + (((1int * (x1 * x1 * x1 * y1 * y2 * y2)) + ((1int * (x1 * x1 * y1 * y1 * x2 * y2)) + ((-2int) * (x1 * x1 * y1 * x2 * y2 * y2)))) + (((-2int) * (x1 * y1 * y1 * x2 * x2 * y2)) + ((1int * (x1 * y1 * x2 * x2 * y2 * y2)) + (1int * (y1 * y1 * x2 * x2 * x2 * y2)))))),
{
    assert(x1 == (1int * (x1)));
    assert(y2 == (1int * (y2)));
    assert((x1 * y2) == (1int * (x1)) * (1int * (y2)));
    lemma_coefficient_product(1int, (x1), 1int, (y2));
    assert((x1) * (y2) == x1 * y2) by (nonlinear_arith);
    assert((x1 * y2) == (1int * (x1 * y2)));
    assert(y1 == (1int * (y1)));
    assert(x2 == (1int * (x2)));
    assert((y1 * x2) == (1int * (y1)) * (1int * (x2)));
    lemma_coefficient_product(1int, (y1), 1int, (x2));
    assert((y1) * (x2) == y1 * x2) by (nonlinear_arith);
    assert((y1 * x2) == (1int * (y1 * x2)));
    assert(((x1 * y2) + (y1 * x2)) == (1int * (x1 * y2)) + (1int * (y1 * x2)));
    assert(((x1 * y2) + (y1 * x2)) == ((1int * (x1 * y2)) + (1int * (y1 * x2))));
    assert(y1 == (1int * (y1)));
    assert(y2 == (1int * (y2)));
    assert((y1 * y2) == (1int * (y1)) * (1int * (y2)));
    lemma_coefficient_product(1int, (y1), 1int, (y2));
    assert((y1) * (y2) == y1 * y2) by (nonlinear_arith);
    assert((y1 * y2) == (1int * (y1 * y2)));
    assert(((y1 * y2) - 21) == (1int * (y1 * y2)) - (21int * (1int)));
    assert(((y1 * y2) - 21) == (((-21int) * (1int)) + (1int * (y1 * y2))));
    assert((((x1 * y2) + (y1 * x2)) * ((y1 * y2) - 21)) == ((1int * (x1 * y2)) + (1int * (y1 * x2))) * (((-21int) * (1int)) + (1int * (y1 * y2))));
    lemma_mul_is_distributive_add_other_way((((-21int) * (1int)) + (1int * (y1 * y2))), (1int * (x1 * y2)), (1int * (y1 * x2)));
    lemma_mul_is_distributive_add((1int * (x1 * y2)), ((-21int) * (1int)), (1int * (y1 * y2)));
    lemma_coefficient_product(1int, (x1 * y2), (-21int), (1int));
    assert((x1 * y2) * (1int) == x1 * y2) by (nonlinear_arith);
    lemma_coefficient_product(1int, (x1 * y2), 1int, (y1 * y2));
    assert((x1 * y2) * (y1 * y2) == x1 * y1 * y2 * y2) by (nonlinear_arith);
    lemma_mul_is_distributive_add((1int * (y1 * x2)), ((-21int) * (1int)), (1int * (y1 * y2)));
    lemma_coefficient_product(1int, (y1 * x2), (-21int), (1int));
    assert((y1 * x2) * (1int) == y1 * x2) by (nonlinear_arith);
    lemma_coefficient_product(1int, (y1 * x2), 1int, (y1 * y2));
    assert((y1 * x2) * (y1 * y2) == y1 * y1 * x2 * y2) by (nonlinear_arith);
    assert((((x1 * y2) + (y1 * x2)) * ((y1 * y2) - 21)) == ((((-21int) * (x1 * y2)) + ((-21int) * (y1 * x2))) + ((1int * (x1 * y1 * y2 * y2)) + (1int * (y1 * y1 * x2 * y2)))));
    assert(y1 == (1int * (y1)));
    assert(y2 == (1int * (y2)));
    assert((y1 + y2) == (1int * (y1)) + (1int * (y2)));
    assert((y1 + y2) == ((1int * (y1)) + (1int * (y2))));
    assert((21 * (y1 + y2)) == (21int * (1int)) * ((1int * (y1)) + (1int * (y2))));
    lemma_mul_is_distributive_add((21int * (1int)), (1int * (y1)), (1int * (y2)));
    lemma_coefficient_product(21int, (1int), 1int, (y1));
    assert((1int) * (y1) == y1) by (nonlinear_arith);
    lemma_coefficient_product(21int, (1int), 1int, (y2));
    assert((1int) * (y2) == y2) by (nonlinear_arith);
    assert((21 * (y1 + y2)) == ((21int * (y1)) + (21int * (y2))));
    assert(x1 == (1int * (x1)));
    assert(x2 == (1int * (x2)));
    assert((x1 + x2) == (1int * (x1)) + (1int * (x2)));
    assert((x1 + x2) == ((1int * (x1)) + (1int * (x2))));
    assert(((21 * (y1 + y2)) * (x1 + x2)) == ((21int * (y1)) + (21int * (y2))) * ((1int * (x1)) + (1int * (x2))));
    lemma_mul_is_distributive_add_other_way(((1int * (x1)) + (1int * (x2))), (21int * (y1)), (21int * (y2)));
    lemma_mul_is_distributive_add((21int * (y1)), (1int * (x1)), (1int * (x2)));
    lemma_coefficient_product(21int, (y1), 1int, (x1));
    assert((y1) * (x1) == x1 * y1) by (nonlinear_arith);
    lemma_coefficient_product(21int, (y1), 1int, (x2));
    assert((y1) * (x2) == y1 * x2) by (nonlinear_arith);
    lemma_mul_is_distributive_add((21int * (y2)), (1int * (x1)), (1int * (x2)));
    lemma_coefficient_product(21int, (y2), 1int, (x1));
    assert((y2) * (x1) == x1 * y2) by (nonlinear_arith);
    lemma_coefficient_product(21int, (y2), 1int, (x2));
    assert((y2) * (x2) == x2 * y2) by (nonlinear_arith);
    assert(((21 * (y1 + y2)) * (x1 + x2)) == (((21int * (x1 * y1)) + (21int * (x1 * y2))) + ((21int * (y1 * x2)) + (21int * (x2 * y2)))));
    assert(((((x1 * y2) + (y1 * x2)) * ((y1 * y2) - 21)) - ((21 * (y1 + y2)) * (x1 + x2))) == ((((-21int) * (x1 * y2)) + ((-21int) * (y1 * x2))) + ((1int * (x1 * y1 * y2 * y2)) + (1int * (y1 * y1 * x2 * y2)))) - (((21int * (x1 * y1)) + (21int * (x1 * y2))) + ((21int * (y1 * x2)) + (21int * (x2 * y2)))));
    assert(((((x1 * y2) + (y1 * x2)) * ((y1 * y2) - 21)) - ((21 * (y1 + y2)) * (x1 + x2))) == ((((-21int) * (x1 * y1)) + (((-42int) * (x1 * y2)) + ((-42int) * (y1 * x2)))) + (((-21int) * (x2 * y2)) + ((1int * (x1 * y1 * y2 * y2)) + (1int * (y1 * y1 * x2 * y2))))));
    assert(x2 == (1int * (x2)));
    assert(x1 == (1int * (x1)));
    assert((x2 - x1) == (1int * (x2)) - (1int * (x1)));
    assert((x2 - x1) == (((-1int) * (x1)) + (1int * (x2))));
    assert(x2 == (1int * (x2)));
    assert(x1 == (1int * (x1)));
    assert((x2 - x1) == (1int * (x2)) - (1int * (x1)));
    assert((x2 - x1) == (((-1int) * (x1)) + (1int * (x2))));
    assert(((x2 - x1) * (x2 - x1)) == (((-1int) * (x1)) + (1int * (x2))) * (((-1int) * (x1)) + (1int * (x2))));
    lemma_mul_is_distributive_add_other_way((((-1int) * (x1)) + (1int * (x2))), ((-1int) * (x1)), (1int * (x2)));
    lemma_mul_is_distributive_add(((-1int) * (x1)), ((-1int) * (x1)), (1int * (x2)));
    lemma_coefficient_product((-1int), (x1), (-1int), (x1));
    assert((x1) * (x1) == x1 * x1) by (nonlinear_arith);
    lemma_coefficient_product((-1int), (x1), 1int, (x2));
    assert((x1) * (x2) == x1 * x2) by (nonlinear_arith);
    lemma_mul_is_distributive_add((1int * (x2)), ((-1int) * (x1)), (1int * (x2)));
    lemma_coefficient_product(1int, (x2), (-1int), (x1));
    assert((x2) * (x1) == x1 * x2) by (nonlinear_arith);
    lemma_coefficient_product(1int, (x2), 1int, (x2));
    assert((x2) * (x2) == x2 * x2) by (nonlinear_arith);
    assert(((x2 - x1) * (x2 - x1)) == ((1int * (x1 * x1)) + (((-2int) * (x1 * x2)) + (1int * (x2 * x2)))));
    assert((((((x1 * y2) + (y1 * x2)) * ((y1 * y2) - 21)) - ((21 * (y1 + y2)) * (x1 + x2))) * ((x2 - x1) * (x2 - x1))) == ((((-21int) * (x1 * y1)) + (((-42int) * (x1 * y2)) + ((-42int) * (y1 * x2)))) + (((-21int) * (x2 * y2)) + ((1int * (x1 * y1 * y2 * y2)) + (1int * (y1 * y1 * x2 * y2))))) * ((1int * (x1 * x1)) + (((-2int) * (x1 * x2)) + (1int * (x2 * x2)))));
    lemma_mul_is_distributive_add_other_way(((1int * (x1 * x1)) + (((-2int) * (x1 * x2)) + (1int * (x2 * x2)))), (((-21int) * (x1 * y1)) + (((-42int) * (x1 * y2)) + ((-42int) * (y1 * x2)))), (((-21int) * (x2 * y2)) + ((1int * (x1 * y1 * y2 * y2)) + (1int * (y1 * y1 * x2 * y2)))));
    lemma_mul_is_distributive_add_other_way(((1int * (x1 * x1)) + (((-2int) * (x1 * x2)) + (1int * (x2 * x2)))), ((-21int) * (x1 * y1)), (((-42int) * (x1 * y2)) + ((-42int) * (y1 * x2))));
    lemma_mul_is_distributive_add_other_way(((1int * (x1 * x1)) + (((-2int) * (x1 * x2)) + (1int * (x2 * x2)))), ((-42int) * (x1 * y2)), ((-42int) * (y1 * x2)));
    lemma_mul_is_distributive_add_other_way(((1int * (x1 * x1)) + (((-2int) * (x1 * x2)) + (1int * (x2 * x2)))), ((-21int) * (x2 * y2)), ((1int * (x1 * y1 * y2 * y2)) + (1int * (y1 * y1 * x2 * y2))));
    lemma_mul_is_distributive_add_other_way(((1int * (x1 * x1)) + (((-2int) * (x1 * x2)) + (1int * (x2 * x2)))), (1int * (x1 * y1 * y2 * y2)), (1int * (y1 * y1 * x2 * y2)));
    lemma_mul_is_distributive_add(((-21int) * (x1 * y1)), (1int * (x1 * x1)), (((-2int) * (x1 * x2)) + (1int * (x2 * x2))));
    lemma_mul_is_distributive_add(((-21int) * (x1 * y1)), ((-2int) * (x1 * x2)), (1int * (x2 * x2)));
    lemma_coefficient_product((-21int), (x1 * y1), 1int, (x1 * x1));
    assert((x1 * y1) * (x1 * x1) == x1 * x1 * x1 * y1) by (nonlinear_arith);
    lemma_coefficient_product((-21int), (x1 * y1), (-2int), (x1 * x2));
    assert((x1 * y1) * (x1 * x2) == x1 * x1 * y1 * x2) by (nonlinear_arith);
    lemma_coefficient_product((-21int), (x1 * y1), 1int, (x2 * x2));
    assert((x1 * y1) * (x2 * x2) == x1 * y1 * x2 * x2) by (nonlinear_arith);
    lemma_mul_is_distributive_add(((-42int) * (x1 * y2)), (1int * (x1 * x1)), (((-2int) * (x1 * x2)) + (1int * (x2 * x2))));
    lemma_mul_is_distributive_add(((-42int) * (x1 * y2)), ((-2int) * (x1 * x2)), (1int * (x2 * x2)));
    lemma_coefficient_product((-42int), (x1 * y2), 1int, (x1 * x1));
    assert((x1 * y2) * (x1 * x1) == x1 * x1 * x1 * y2) by (nonlinear_arith);
    lemma_coefficient_product((-42int), (x1 * y2), (-2int), (x1 * x2));
    assert((x1 * y2) * (x1 * x2) == x1 * x1 * x2 * y2) by (nonlinear_arith);
    lemma_coefficient_product((-42int), (x1 * y2), 1int, (x2 * x2));
    assert((x1 * y2) * (x2 * x2) == x1 * x2 * x2 * y2) by (nonlinear_arith);
    lemma_mul_is_distributive_add(((-42int) * (y1 * x2)), (1int * (x1 * x1)), (((-2int) * (x1 * x2)) + (1int * (x2 * x2))));
    lemma_mul_is_distributive_add(((-42int) * (y1 * x2)), ((-2int) * (x1 * x2)), (1int * (x2 * x2)));
    lemma_coefficient_product((-42int), (y1 * x2), 1int, (x1 * x1));
    assert((y1 * x2) * (x1 * x1) == x1 * x1 * y1 * x2) by (nonlinear_arith);
    lemma_coefficient_product((-42int), (y1 * x2), (-2int), (x1 * x2));
    assert((y1 * x2) * (x1 * x2) == x1 * y1 * x2 * x2) by (nonlinear_arith);
    lemma_coefficient_product((-42int), (y1 * x2), 1int, (x2 * x2));
    assert((y1 * x2) * (x2 * x2) == y1 * x2 * x2 * x2) by (nonlinear_arith);
    lemma_mul_is_distributive_add(((-21int) * (x2 * y2)), (1int * (x1 * x1)), (((-2int) * (x1 * x2)) + (1int * (x2 * x2))));
    lemma_mul_is_distributive_add(((-21int) * (x2 * y2)), ((-2int) * (x1 * x2)), (1int * (x2 * x2)));
    lemma_coefficient_product((-21int), (x2 * y2), 1int, (x1 * x1));
    assert((x2 * y2) * (x1 * x1) == x1 * x1 * x2 * y2) by (nonlinear_arith);
    lemma_coefficient_product((-21int), (x2 * y2), (-2int), (x1 * x2));
    assert((x2 * y2) * (x1 * x2) == x1 * x2 * x2 * y2) by (nonlinear_arith);
    lemma_coefficient_product((-21int), (x2 * y2), 1int, (x2 * x2));
    assert((x2 * y2) * (x2 * x2) == x2 * x2 * x2 * y2) by (nonlinear_arith);
    lemma_mul_is_distributive_add((1int * (x1 * y1 * y2 * y2)), (1int * (x1 * x1)), (((-2int) * (x1 * x2)) + (1int * (x2 * x2))));
    lemma_mul_is_distributive_add((1int * (x1 * y1 * y2 * y2)), ((-2int) * (x1 * x2)), (1int * (x2 * x2)));
    lemma_coefficient_product(1int, (x1 * y1 * y2 * y2), 1int, (x1 * x1));
    assert((x1 * y1 * y2 * y2) * (x1 * x1) == x1 * x1 * x1 * y1 * y2 * y2) by (nonlinear_arith);
    lemma_coefficient_product(1int, (x1 * y1 * y2 * y2), (-2int), (x1 * x2));
    assert((x1 * y1 * y2 * y2) * (x1 * x2) == x1 * x1 * y1 * x2 * y2 * y2) by (nonlinear_arith);
    lemma_coefficient_product(1int, (x1 * y1 * y2 * y2), 1int, (x2 * x2));
    assert((x1 * y1 * y2 * y2) * (x2 * x2) == x1 * y1 * x2 * x2 * y2 * y2) by (nonlinear_arith);
    lemma_mul_is_distributive_add((1int * (y1 * y1 * x2 * y2)), (1int * (x1 * x1)), (((-2int) * (x1 * x2)) + (1int * (x2 * x2))));
    lemma_mul_is_distributive_add((1int * (y1 * y1 * x2 * y2)), ((-2int) * (x1 * x2)), (1int * (x2 * x2)));
    lemma_coefficient_product(1int, (y1 * y1 * x2 * y2), 1int, (x1 * x1));
    assert((y1 * y1 * x2 * y2) * (x1 * x1) == x1 * x1 * y1 * y1 * x2 * y2) by (nonlinear_arith);
    lemma_coefficient_product(1int, (y1 * y1 * x2 * y2), (-2int), (x1 * x2));
    assert((y1 * y1 * x2 * y2) * (x1 * x2) == x1 * y1 * y1 * x2 * x2 * y2) by (nonlinear_arith);
    lemma_coefficient_product(1int, (y1 * y1 * x2 * y2), 1int, (x2 * x2));
    assert((y1 * y1 * x2 * y2) * (x2 * x2) == y1 * y1 * x2 * x2 * x2 * y2) by (nonlinear_arith);
    assert((((((x1 * y2) + (y1 * x2)) * ((y1 * y2) - 21)) - ((21 * (y1 + y2)) * (x1 + x2))) * ((x2 - x1) * (x2 - x1))) == (((((-21int) * (x1 * x1 * x1 * y1)) + (((-42int) * (x1 * x1 * x1 * y2)) + (63int * (x1 * x1 * x2 * y2)))) + ((63int * (x1 * y1 * x2 * x2)) + (((-42int) * (y1 * x2 * x2 * x2)) + ((-21int) * (x2 * x2 * x2 * y2))))) + (((1int * (x1 * x1 * x1 * y1 * y2 * y2)) + ((1int * (x1 * x1 * y1 * y1 * x2 * y2)) + ((-2int) * (x1 * x1 * y1 * x2 * y2 * y2)))) + (((-2int) * (x1 * y1 * y1 * x2 * x2 * y2)) + ((1int * (x1 * y1 * x2 * x2 * y2 * y2)) + (1int * (y1 * y1 * x2 * x2 * x2 * y2)))))));
}

#[verifier::rlimit(40)]
proof fn lemma_chord_identity_x_part2(x1: int, y1: int, x2: int, y2: int)
    ensures
        ((((y2 - y1) * (y2 - y1)) - ((x1 + x2) * ((x2 - x1) * (x2 - x1)))) * (((y1 + y2) * ((y1 * y2) + 21)) + ((3 * (x1 * x2)) * ((x1 * y2) + (y1 * x2))))) == ((((((21int * (y1 * y1 * y1)) + ((-21int) * (y1 * y1 * y2))) + (((-21int) * (y1 * y2 * y2)) + (21int * (y2 * y2 * y2)))) + ((((-21int) * (x1 * x1 * x1 * y1)) + ((-21int) * (x1 * x1 * x1 * y2))) + ((21int * (x1 * x1 * y1 * x2)) + (21int * (x1 * x1 * x2 * y2))))) + ((((21int * (x1 * y1 * x2 * x2)) + (21int * (x1 * x2 * x2 * y2))) + (((-21int) * (y1 * x2 * x2 * x2)) + ((-21int) * (x2 * x2 * x2 * y2)))) + (((1int * (y1 * y1 * y1 * y1 * y2)) + ((-1int) * (y1 * y1 * y1 * y2 * y2))) + (((-1int) * (y1 * y1 * y2 * y2 * y2)) + ((1int * (y1 * y2 * y2 * y2 * y2)) + ((-1int) * (x1 * x1 * x1 * y1 * y1 * y2))))))) + ((((((-1int) * (x1 * x1 * x1 * y1 * y2 * y2)) + (4int * (x1 * x1 * y1 * y1 * x2 * y2))) + (((-5int) * (x1 * x1 * y1 * x2 * y2 * y2)) + (3int * (x1 * x1 * x2 * y2 * y2 * y2)))) + (((3int * (x1 * y1 * y1 * y1 * x2 * x2)) + ((-5int) * (x1 * y1 * y1 * x2 * x2 * y2))) + ((4int * (x1 * y1 * x2 * x2 * y2 * y2)) + ((-1int) * (y1 * y1 * x2 * x2 * x2 * y2))))) + (((((-1int) * (y1 * x2 * x2 * x2 * y2 * y2)) + ((-3int) * (x1 * x1 * x1 * x1 * x1 * x2 * y2))) + (((-3int) * (x1 * x1 * x1 * x1 * y1 * x2 * x2)) + (3int * (x1 * x1 * x1 * x1 * x2 * x2 * y2)))) + (((3int * (x1 * x1 * x1 * y1 * x2 * x2 * x2)) + (3int * (x1 * x1 * x1 * x2 * x2 * x2 * y2))) + ((3int * (x1 * x1 * y1 * x2 * x2 * x2 * x2)) + (((-3int) * (x1 * x1 * x2 * x2 * x2 * x2 * y2)) + ((-3int) * (x1 * y1 * x2 * x2 * x2 * x2 * x2)))))))),
{
    assert(y2 == (1int * (y2)));
    assert(y1 == (1int * (y1)));
    assert((y2 - y1) == (1int * (y2)) - (1int * (y1)));
    assert((y2 - y1) == (((-1int) * (y1)) + (1int * (y2))));
    assert(y2 == (1int * (y2)));
    assert(y1 == (1int * (y1)));
    assert((y2 - y1) == (1int * (y2)) - (1int * (y1)));
    assert((y2 - y1) == (((-1int) * (y1)) + (1int * (y2))));
    assert(((y2 - y1) * (y2 - y1)) == (((-1int) * (y1)) + (1int * (y2))) * (((-1int) * (y1)) + (1int * (y2))));
    lemma_mul_is_distributive_add_other_way((((-1int) * (y1)) + (1int * (y2))), ((-1int) * (y1)), (1int * (y2)));
    lemma_mul_is_distributive_add(((-1int) * (y1)), ((-1int) * (y1)), (1int * (y2)));
    lemma_coefficient_product((-1int), (y1), (-1int), (y1));
    assert((y1) * (y1) == y1 * y1) by (nonlinear_arith);
    lemma_coefficient_product((-1int), (y1), 1int, (y2));
    assert((y1) * (y2) == y1 * y2) by (nonlinear_arith);
    lemma_mul_is_distributive_add((1int * (y2)), ((-1int) * (y1)), (1int * (y2)));
    lemma_coefficient_product(1int, (y2), (-1int), (y1));
    assert((y2) * (y1) == y1 * y2) by (nonlinear_arith);
    lemma_coefficient_product(1int, (y2), 1int, (y2));
    assert((y2) * (y2) == y2 * y2) by (nonlinear_arith);
    assert(((y2 - y1) * (y2 - y1)) == ((1int * (y1 * y1)) + (((-2int) * (y1 * y2)) + (1int * (y2 * y2)))));
    assert(x1 == (1int * (x1)));
    assert(x2 == (1int * (x2)));
    assert((x1 + x2) == (1int * (x1)) + (1int * (x2)));
    assert((x1 + x2) == ((1int * (x1)) + (1int * (x2))));
    assert(x2 == (1int * (x2)));
    assert(x1 == (1int * (x1)));
    assert((x2 - x1) == (1int * (x2)) - (1int * (x1)));
    assert((x2 - x1) == (((-1int) * (x1)) + (1int * (x2))));
    assert(x2 == (1int * (x2)));
    assert(x1 == (1int * (x1)));
    assert((x2 - x1) == (1int * (x2)) - (1int * (x1)));
    assert((x2 - x1) == (((-1int) * (x1)) + (1int * (x2))));
    assert(((x2 - x1) * (x2 - x1)) == (((-1int) * (x1)) + (1int * (x2))) * (((-1int) * (x1)) + (1int * (x2))));
    lemma_mul_is_distributive_add_other_way((((-1int) * (x1)) + (1int * (x2))), ((-1int) * (x1)), (1int * (x2)));
    lemma_mul_is_distributive_add(((-1int) * (x1)), ((-1int) * (x1)), (1int * (x2)));
    lemma_coefficient_product((-1int), (x1), (-1int), (x1));
    assert((x1) * (x1) == x1 * x1) by (nonlinear_arith);
    lemma_coefficient_product((-1int), (x1), 1int, (x2));
    assert((x1) * (x2) == x1 * x2) by (nonlinear_arith);
    lemma_mul_is_distributive_add((1int * (x2)), ((-1int) * (x1)), (1int * (x2)));
    lemma_coefficient_product(1int, (x2), (-1int), (x1));
    assert((x2) * (x1) == x1 * x2) by (nonlinear_arith);
    lemma_coefficient_product(1int, (x2), 1int, (x2));
    assert((x2) * (x2) == x2 * x2) by (nonlinear_arith);
    assert(((x2 - x1) * (x2 - x1)) == ((1int * (x1 * x1)) + (((-2int) * (x1 * x2)) + (1int * (x2 * x2)))));
    assert(((x1 + x2) * ((x2 - x1) * (x2 - x1))) == ((1int * (x1)) + (1int * (x2))) * ((1int * (x1 * x1)) + (((-2int) * (x1 * x2)) + (1int * (x2 * x2)))));
    lemma_mul_is_distributive_add_other_way(((1int * (x1 * x1)) + (((-2int) * (x1 * x2)) + (1int * (x2 * x2)))), (1int * (x1)), (1int * (x2)));
    lemma_mul_is_distributive_add((1int * (x1)), (1int * (x1 * x1)), (((-2int) * (x1 * x2)) + (1int * (x2 * x2))));
    lemma_mul_is_distributive_add((1int * (x1)), ((-2int) * (x1 * x2)), (1int * (x2 * x2)));
    lemma_coefficient_product(1int, (x1), 1int, (x1 * x1));
    assert((x1) * (x1 * x1) == x1 * x1 * x1) by (nonlinear_arith);
    lemma_coefficient_product(1int, (x1), (-2int), (x1 * x2));
    assert((x1) * (x1 * x2) == x1 * x1 * x2) by (nonlinear_arith);
    lemma_coefficient_product(1int, (x1), 1int, (x2 * x2));
    assert((x1) * (x2 * x2) == x1 * x2 * x2) by (nonlinear_arith);
    lemma_mul_is_distributive_add((1int * (x2)), (1int * (x1 * x1)), (((-2int) * (x1 * x2)) + (1int * (x2 * x2))));
    lemma_mul_is_distributive_add((1int * (x2)), ((-2int) * (x1 * x2)), (1int * (x2 * x2)));
    lemma_coefficient_product(1int, (x2), 1int, (x1 * x1));
    assert((x2) * (x1 * x1) == x1 * x1 * x2) by (nonlinear_arith);
    lemma_coefficient_product(1int, (x2), (-2int), (x1 * x2));
    assert((x2) * (x1 * x2) == x1 * x2 * x2) by (nonlinear_arith);
    lemma_coefficient_product(1int, (x2), 1int, (x2 * x2));
    assert((x2) * (x2 * x2) == x2 * x2 * x2) by (nonlinear_arith);
    assert(((x1 + x2) * ((x2 - x1) * (x2 - x1))) == (((1int * (x1 * x1 * x1)) + ((-1int) * (x1 * x1 * x2))) + (((-1int) * (x1 * x2 * x2)) + (1int * (x2 * x2 * x2)))));
    assert((((y2 - y1) * (y2 - y1)) - ((x1 + x2) * ((x2 - x1) * (x2 - x1)))) == ((1int * (y1 * y1)) + (((-2int) * (y1 * y2)) + (1int * (y2 * y2)))) - (((1int * (x1 * x1 * x1)) + ((-1int) * (x1 * x1 * x2))) + (((-1int) * (x1 * x2 * x2)) + (1int * (x2 * x2 * x2)))));
    assert((((y2 - y1) * (y2 - y1)) - ((x1 + x2) * ((x2 - x1) * (x2 - x1)))) == (((1int * (y1 * y1)) + (((-2int) * (y1 * y2)) + (1int * (y2 * y2)))) + ((((-1int) * (x1 * x1 * x1)) + (1int * (x1 * x1 * x2))) + ((1int * (x1 * x2 * x2)) + ((-1int) * (x2 * x2 * x2))))));
    assert(y1 == (1int * (y1)));
    assert(y2 == (1int * (y2)));
    assert((y1 + y2) == (1int * (y1)) + (1int * (y2)));
    assert((y1 + y2) == ((1int * (y1)) + (1int * (y2))));
    assert(y1 == (1int * (y1)));
    assert(y2 == (1int * (y2)));
    assert((y1 * y2) == (1int * (y1)) * (1int * (y2)));
    lemma_coefficient_product(1int, (y1), 1int, (y2));
    assert((y1) * (y2) == y1 * y2) by (nonlinear_arith);
    assert((y1 * y2) == (1int * (y1 * y2)));
    assert(((y1 * y2) + 21) == (1int * (y1 * y2)) + (21int * (1int)));
    assert(((y1 * y2) + 21) == ((21int * (1int)) + (1int * (y1 * y2))));
    assert(((y1 + y2) * ((y1 * y2) + 21)) == ((1int * (y1)) + (1int * (y2))) * ((21int * (1int)) + (1int * (y1 * y2))));
    lemma_mul_is_distributive_add_other_way(((21int * (1int)) + (1int * (y1 * y2))), (1int * (y1)), (1int * (y2)));
    lemma_mul_is_distributive_add((1int * (y1)), (21int * (1int)), (1int * (y1 * y2)));
    lemma_coefficient_product(1int, (y1), 21int, (1int));
    assert((y1) * (1int) == y1) by (nonlinear_arith);
    lemma_coefficient_product(1int, (y1), 1int, (y1 * y2));
    assert((y1) * (y1 * y2) == y1 * y1 * y2) by (nonlinear_arith);
    lemma_mul_is_distributive_add((1int * (y2)), (21int * (1int)), (1int * (y1 * y2)));
    lemma_coefficient_product(1int, (y2), 21int, (1int));
    assert((y2) * (1int) == y2) by (nonlinear_arith);
    lemma_coefficient_product(1int, (y2), 1int, (y1 * y2));
    assert((y2) * (y1 * y2) == y1 * y2 * y2) by (nonlinear_arith);
    assert(((y1 + y2) * ((y1 * y2) + 21)) == (((21int * (y1)) + (21int * (y2))) + ((1int * (y1 * y1 * y2)) + (1int * (y1 * y2 * y2)))));
    assert(x1 == (1int * (x1)));
    assert(x2 == (1int * (x2)));
    assert((x1 * x2) == (1int * (x1)) * (1int * (x2)));
    lemma_coefficient_product(1int, (x1), 1int, (x2));
    assert((x1) * (x2) == x1 * x2) by (nonlinear_arith);
    assert((x1 * x2) == (1int * (x1 * x2)));
    assert((3 * (x1 * x2)) == (3int * (1int)) * (1int * (x1 * x2)));
    lemma_coefficient_product(3int, (1int), 1int, (x1 * x2));
    assert((1int) * (x1 * x2) == x1 * x2) by (nonlinear_arith);
    assert((3 * (x1 * x2)) == (3int * (x1 * x2)));
    assert(x1 == (1int * (x1)));
    assert(y2 == (1int * (y2)));
    assert((x1 * y2) == (1int * (x1)) * (1int * (y2)));
    lemma_coefficient_product(1int, (x1), 1int, (y2));
    assert((x1) * (y2) == x1 * y2) by (nonlinear_arith);
    assert((x1 * y2) == (1int * (x1 * y2)));
    assert(y1 == (1int * (y1)));
    assert(x2 == (1int * (x2)));
    assert((y1 * x2) == (1int * (y1)) * (1int * (x2)));
    lemma_coefficient_product(1int, (y1), 1int, (x2));
    assert((y1) * (x2) == y1 * x2) by (nonlinear_arith);
    assert((y1 * x2) == (1int * (y1 * x2)));
    assert(((x1 * y2) + (y1 * x2)) == (1int * (x1 * y2)) + (1int * (y1 * x2)));
    assert(((x1 * y2) + (y1 * x2)) == ((1int * (x1 * y2)) + (1int * (y1 * x2))));
    assert(((3 * (x1 * x2)) * ((x1 * y2) + (y1 * x2))) == (3int * (x1 * x2)) * ((1int * (x1 * y2)) + (1int * (y1 * x2))));
    lemma_mul_is_distributive_add((3int * (x1 * x2)), (1int * (x1 * y2)), (1int * (y1 * x2)));
    lemma_coefficient_product(3int, (x1 * x2), 1int, (x1 * y2));
    assert((x1 * x2) * (x1 * y2) == x1 * x1 * x2 * y2) by (nonlinear_arith);
    lemma_coefficient_product(3int, (x1 * x2), 1int, (y1 * x2));
    assert((x1 * x2) * (y1 * x2) == x1 * y1 * x2 * x2) by (nonlinear_arith);
    assert(((3 * (x1 * x2)) * ((x1 * y2) + (y1 * x2))) == ((3int * (x1 * x1 * x2 * y2)) + (3int * (x1 * y1 * x2 * x2))));
    assert((((y1 + y2) * ((y1 * y2) + 21)) + ((3 * (x1 * x2)) * ((x1 * y2) + (y1 * x2)))) == (((21int * (y1)) + (21int * (y2))) + ((1int * (y1 * y1 * y2)) + (1int * (y1 * y2 * y2)))) + ((3int * (x1 * x1 * x2 * y2)) + (3int * (x1 * y1 * x2 * x2))));
    assert((((y1 + y2) * ((y1 * y2) + 21)) + ((3 * (x1 * x2)) * ((x1 * y2) + (y1 * x2)))) == (((21int * (y1)) + ((21int * (y2)) + (1int * (y1 * y1 * y2)))) + ((1int * (y1 * y2 * y2)) + ((3int * (x1 * x1 * x2 * y2)) + (3int * (x1 * y1 * x2 * x2))))));
    assert(((((y2 - y1) * (y2 - y1)) - ((x1 + x2) * ((x2 - x1) * (x2 - x1)))) * (((y1 + y2) * ((y1 * y2) + 21)) + ((3 * (x1 * x2)) * ((x1 * y2) + (y1 * x2))))) == (((1int * (y1 * y1)) + (((-2int) * (y1 * y2)) + (1int * (y2 * y2)))) + ((((-1int) * (x1 * x1 * x1)) + (1int * (x1 * x1 * x2))) + ((1int * (x1 * x2 * x2)) + ((-1int) * (x2 * x2 * x2))))) * (((21int * (y1)) + ((21int * (y2)) + (1int * (y1 * y1 * y2)))) + ((1int * (y1 * y2 * y2)) + ((3int * (x1 * x1 * x2 * y2)) + (3int * (x1 * y1 * x2 * x2))))));
    lemma_mul_is_distributive_add_other_way((((21int * (y1)) + ((21int * (y2)) + (1int * (y1 * y1 * y2)))) + ((1int * (y1 * y2 * y2)) + ((3int * (x1 * x1 * x2 * y2)) + (3int * (x1 * y1 * x2 * x2))))), ((1int * (y1 * y1)) + (((-2int) * (y1 * y2)) + (1int * (y2 * y2)))), ((((-1int) * (x1 * x1 * x1)) + (1int * (x1 * x1 * x2))) + ((1int * (x1 * x2 * x2)) + ((-1int) * (x2 * x2 * x2)))));
    lemma_mul_is_distributive_add_other_way((((21int * (y1)) + ((21int * (y2)) + (1int * (y1 * y1 * y2)))) + ((1int * (y1 * y2 * y2)) + ((3int * (x1 * x1 * x2 * y2)) + (3int * (x1 * y1 * x2 * x2))))), (1int * (y1 * y1)), (((-2int) * (y1 * y2)) + (1int * (y2 * y2))));
    lemma_mul_is_distributive_add_other_way((((21int * (y1)) + ((21int * (y2)) + (1int * (y1 * y1 * y2)))) + ((1int * (y1 * y2 * y2)) + ((3int * (x1 * x1 * x2 * y2)) + (3int * (x1 * y1 * x2 * x2))))), ((-2int) * (y1 * y2)), (1int * (y2 * y2)));
    lemma_mul_is_distributive_add_other_way((((21int * (y1)) + ((21int * (y2)) + (1int * (y1 * y1 * y2)))) + ((1int * (y1 * y2 * y2)) + ((3int * (x1 * x1 * x2 * y2)) + (3int * (x1 * y1 * x2 * x2))))), (((-1int) * (x1 * x1 * x1)) + (1int * (x1 * x1 * x2))), ((1int * (x1 * x2 * x2)) + ((-1int) * (x2 * x2 * x2))));
    lemma_mul_is_distributive_add_other_way((((21int * (y1)) + ((21int * (y2)) + (1int * (y1 * y1 * y2)))) + ((1int * (y1 * y2 * y2)) + ((3int * (x1 * x1 * x2 * y2)) + (3int * (x1 * y1 * x2 * x2))))), ((-1int) * (x1 * x1 * x1)), (1int * (x1 * x1 * x2)));
    lemma_mul_is_distributive_add_other_way((((21int * (y1)) + ((21int * (y2)) + (1int * (y1 * y1 * y2)))) + ((1int * (y1 * y2 * y2)) + ((3int * (x1 * x1 * x2 * y2)) + (3int * (x1 * y1 * x2 * x2))))), (1int * (x1 * x2 * x2)), ((-1int) * (x2 * x2 * x2)));
    lemma_mul_is_distributive_add((1int * (y1 * y1)), ((21int * (y1)) + ((21int * (y2)) + (1int * (y1 * y1 * y2)))), ((1int * (y1 * y2 * y2)) + ((3int * (x1 * x1 * x2 * y2)) + (3int * (x1 * y1 * x2 * x2)))));
    lemma_mul_is_distributive_add((1int * (y1 * y1)), (21int * (y1)), ((21int * (y2)) + (1int * (y1 * y1 * y2))));
    lemma_mul_is_distributive_add((1int * (y1 * y1)), (21int * (y2)), (1int * (y1 * y1 * y2)));
    lemma_mul_is_distributive_add((1int * (y1 * y1)), (1int * (y1 * y2 * y2)), ((3int * (x1 * x1 * x2 * y2)) + (3int * (x1 * y1 * x2 * x2))));
    lemma_mul_is_distributive_add((1int * (y1 * y1)), (3int * (x1 * x1 * x2 * y2)), (3int * (x1 * y1 * x2 * x2)));
    lemma_coefficient_product(1int, (y1 * y1), 21int, (y1));
    assert((y1 * y1) * (y1) == y1 * y1 * y1) by (nonlinear_arith);
    lemma_coefficient_product(1int, (y1 * y1), 21int, (y2));
    assert((y1 * y1) * (y2) == y1 * y1 * y2) by (nonlinear_arith);
    lemma_coefficient_product(1int, (y1 * y1), 1int, (y1 * y1 * y2));
    assert((y1 * y1) * (y1 * y1 * y2) == y1 * y1 * y1 * y1 * y2) by (nonlinear_arith);
    lemma_coefficient_product(1int, (y1 * y1), 1int, (y1 * y2 * y2));
    assert((y1 * y1) * (y1 * y2 * y2) == y1 * y1 * y1 * y2 * y2) by (nonlinear_arith);
    lemma_coefficient_product(1int, (y1 * y1), 3int, (x1 * x1 * x2 * y2));
    assert((y1 * y1) * (x1 * x1 * x2 * y2) == x1 * x1 * y1 * y1 * x2 * y2) by (nonlinear_arith);
    lemma_coefficient_product(1int, (y1 * y1), 3int, (x1 * y1 * x2 * x2));
    assert((y1 * y1) * (x1 * y1 * x2 * x2) == x1 * y1 * y1 * y1 * x2 * x2) by (nonlinear_arith);
    lemma_mul_is_distributive_add(((-2int) * (y1 * y2)), ((21int * (y1)) + ((21int * (y2)) + (1int * (y1 * y1 * y2)))), ((1int * (y1 * y2 * y2)) + ((3int * (x1 * x1 * x2 * y2)) + (3int * (x1 * y1 * x2 * x2)))));
    lemma_mul_is_distributive_add(((-2int) * (y1 * y2)), (21int * (y1)), ((21int * (y2)) + (1int * (y1 * y1 * y2))));
    lemma_mul_is_distributive_add(((-2int) * (y1 * y2)), (21int * (y2)), (1int * (y1 * y1 * y2)));
    lemma_mul_is_distributive_add(((-2int) * (y1 * y2)), (1int * (y1 * y2 * y2)), ((3int * (x1 * x1 * x2 * y2)) + (3int * (x1 * y1 * x2 * x2))));
    lemma_mul_is_distributive_add(((-2int) * (y1 * y2)), (3int * (x1 * x1 * x2 * y2)), (3int * (x1 * y1 * x2 * x2)));
    lemma_coefficient_product((-2int), (y1 * y2), 21int, (y1));
    assert((y1 * y2) * (y1) == y1 * y1 * y2) by (nonlinear_arith);
    lemma_coefficient_product((-2int), (y1 * y2), 21int, (y2));
    assert((y1 * y2) * (y2) == y1 * y2 * y2) by (nonlinear_arith);
    lemma_coefficient_product((-2int), (y1 * y2), 1int, (y1 * y1 * y2));
    assert((y1 * y2) * (y1 * y1 * y2) == y1 * y1 * y1 * y2 * y2) by (nonlinear_arith);
    lemma_coefficient_product((-2int), (y1 * y2), 1int, (y1 * y2 * y2));
    assert((y1 * y2) * (y1 * y2 * y2) == y1 * y1 * y2 * y2 * y2) by (nonlinear_arith);
    lemma_coefficient_product((-2int), (y1 * y2), 3int, (x1 * x1 * x2 * y2));
    assert((y1 * y2) * (x1 * x1 * x2 * y2) == x1 * x1 * y1 * x2 * y2 * y2) by (nonlinear_arith);
    lemma_coefficient_product((-2int), (y1 * y2), 3int, (x1 * y1 * x2 * x2));
    assert((y1 * y2) * (x1 * y1 * x2 * x2) == x1 * y1 * y1 * x2 * x2 * y2) by (nonlinear_arith);
    lemma_mul_is_distributive_add((1int * (y2 * y2)), ((21int * (y1)) + ((21int * (y2)) + (1int * (y1 * y1 * y2)))), ((1int * (y1 * y2 * y2)) + ((3int * (x1 * x1 * x2 * y2)) + (3int * (x1 * y1 * x2 * x2)))));
    lemma_mul_is_distributive_add((1int * (y2 * y2)), (21int * (y1)), ((21int * (y2)) + (1int * (y1 * y1 * y2))));
    lemma_mul_is_distributive_add((1int * (y2 * y2)), (21int * (y2)), (1int * (y1 * y1 * y2)));
    lemma_mul_is_distributive_add((1int * (y2 * y2)), (1int * (y1 * y2 * y2)), ((3int * (x1 * x1 * x2 * y2)) + (3int * (x1 * y1 * x2 * x2))));
    lemma_mul_is_distributive_add((1int * (y2 * y2)), (3int * (x1 * x1 * x2 * y2)), (3int * (x1 * y1 * x2 * x2)));
    lemma_coefficient_product(1int, (y2 * y2), 21int, (y1));
    assert((y2 * y2) * (y1) == y1 * y2 * y2) by (nonlinear_arith);
    lemma_coefficient_product(1int, (y2 * y2), 21int, (y2));
    assert((y2 * y2) * (y2) == y2 * y2 * y2) by (nonlinear_arith);
    lemma_coefficient_product(1int, (y2 * y2), 1int, (y1 * y1 * y2));
    assert((y2 * y2) * (y1 * y1 * y2) == y1 * y1 * y2 * y2 * y2) by (nonlinear_arith);
    lemma_coefficient_product(1int, (y2 * y2), 1int, (y1 * y2 * y2));
    assert((y2 * y2) * (y1 * y2 * y2) == y1 * y2 * y2 * y2 * y2) by (nonlinear_arith);
    lemma_coefficient_product(1int, (y2 * y2), 3int, (x1 * x1 * x2 * y2));
    assert((y2 * y2) * (x1 * x1 * x2 * y2) == x1 * x1 * x2 * y2 * y2 * y2) by (nonlinear_arith);
    lemma_coefficient_product(1int, (y2 * y2), 3int, (x1 * y1 * x2 * x2));
    assert((y2 * y2) * (x1 * y1 * x2 * x2) == x1 * y1 * x2 * x2 * y2 * y2) by (nonlinear_arith);
    lemma_mul_is_distributive_add(((-1int) * (x1 * x1 * x1)), ((21int * (y1)) + ((21int * (y2)) + (1int * (y1 * y1 * y2)))), ((1int * (y1 * y2 * y2)) + ((3int * (x1 * x1 * x2 * y2)) + (3int * (x1 * y1 * x2 * x2)))));
    lemma_mul_is_distributive_add(((-1int) * (x1 * x1 * x1)), (21int * (y1)), ((21int * (y2)) + (1int * (y1 * y1 * y2))));
    lemma_mul_is_distributive_add(((-1int) * (x1 * x1 * x1)), (21int * (y2)), (1int * (y1 * y1 * y2)));
    lemma_mul_is_distributive_add(((-1int) * (x1 * x1 * x1)), (1int * (y1 * y2 * y2)), ((3int * (x1 * x1 * x2 * y2)) + (3int * (x1 * y1 * x2 * x2))));
    lemma_mul_is_distributive_add(((-1int) * (x1 * x1 * x1)), (3int * (x1 * x1 * x2 * y2)), (3int * (x1 * y1 * x2 * x2)));
    lemma_coefficient_product((-1int), (x1 * x1 * x1), 21int, (y1));
    assert((x1 * x1 * x1) * (y1) == x1 * x1 * x1 * y1) by (nonlinear_arith);
    lemma_coefficient_product((-1int), (x1 * x1 * x1), 21int, (y2));
    assert((x1 * x1 * x1) * (y2) == x1 * x1 * x1 * y2) by (nonlinear_arith);
    lemma_coefficient_product((-1int), (x1 * x1 * x1), 1int, (y1 * y1 * y2));
    assert((x1 * x1 * x1) * (y1 * y1 * y2) == x1 * x1 * x1 * y1 * y1 * y2) by (nonlinear_arith);
    lemma_coefficient_product((-1int), (x1 * x1 * x1), 1int, (y1 * y2 * y2));
    assert((x1 * x1 * x1) * (y1 * y2 * y2) == x1 * x1 * x1 * y1 * y2 * y2) by (nonlinear_arith);
    lemma_coefficient_product((-1int), (x1 * x1 * x1), 3int, (x1 * x1 * x2 * y2));
    assert((x1 * x1 * x1) * (x1 * x1 * x2 * y2) == x1 * x1 * x1 * x1 * x1 * x2 * y2) by (nonlinear_arith);
    lemma_coefficient_product((-1int), (x1 * x1 * x1), 3int, (x1 * y1 * x2 * x2));
    assert((x1 * x1 * x1) * (x1 * y1 * x2 * x2) == x1 * x1 * x1 * x1 * y1 * x2 * x2) by (nonlinear_arith);
    lemma_mul_is_distributive_add((1int * (x1 * x1 * x2)), ((21int * (y1)) + ((21int * (y2)) + (1int * (y1 * y1 * y2)))), ((1int * (y1 * y2 * y2)) + ((3int * (x1 * x1 * x2 * y2)) + (3int * (x1 * y1 * x2 * x2)))));
    lemma_mul_is_distributive_add((1int * (x1 * x1 * x2)), (21int * (y1)), ((21int * (y2)) + (1int * (y1 * y1 * y2))));
    lemma_mul_is_distributive_add((1int * (x1 * x1 * x2)), (21int * (y2)), (1int * (y1 * y1 * y2)));
    lemma_mul_is_distributive_add((1int * (x1 * x1 * x2)), (1int * (y1 * y2 * y2)), ((3int * (x1 * x1 * x2 * y2)) + (3int * (x1 * y1 * x2 * x2))));
    lemma_mul_is_distributive_add((1int * (x1 * x1 * x2)), (3int * (x1 * x1 * x2 * y2)), (3int * (x1 * y1 * x2 * x2)));
    lemma_coefficient_product(1int, (x1 * x1 * x2), 21int, (y1));
    assert((x1 * x1 * x2) * (y1) == x1 * x1 * y1 * x2) by (nonlinear_arith);
    lemma_coefficient_product(1int, (x1 * x1 * x2), 21int, (y2));
    assert((x1 * x1 * x2) * (y2) == x1 * x1 * x2 * y2) by (nonlinear_arith);
    lemma_coefficient_product(1int, (x1 * x1 * x2), 1int, (y1 * y1 * y2));
    assert((x1 * x1 * x2) * (y1 * y1 * y2) == x1 * x1 * y1 * y1 * x2 * y2) by (nonlinear_arith);
    lemma_coefficient_product(1int, (x1 * x1 * x2), 1int, (y1 * y2 * y2));
    assert((x1 * x1 * x2) * (y1 * y2 * y2) == x1 * x1 * y1 * x2 * y2 * y2) by (nonlinear_arith);
    lemma_coefficient_product(1int, (x1 * x1 * x2), 3int, (x1 * x1 * x2 * y2));
    assert((x1 * x1 * x2) * (x1 * x1 * x2 * y2) == x1 * x1 * x1 * x1 * x2 * x2 * y2) by (nonlinear_arith);
    lemma_coefficient_product(1int, (x1 * x1 * x2), 3int, (x1 * y1 * x2 * x2));
    assert((x1 * x1 * x2) * (x1 * y1 * x2 * x2) == x1 * x1 * x1 * y1 * x2 * x2 * x2) by (nonlinear_arith);
    lemma_mul_is_distributive_add((1int * (x1 * x2 * x2)), ((21int * (y1)) + ((21int * (y2)) + (1int * (y1 * y1 * y2)))), ((1int * (y1 * y2 * y2)) + ((3int * (x1 * x1 * x2 * y2)) + (3int * (x1 * y1 * x2 * x2)))));
    lemma_mul_is_distributive_add((1int * (x1 * x2 * x2)), (21int * (y1)), ((21int * (y2)) + (1int * (y1 * y1 * y2))));
    lemma_mul_is_distributive_add((1int * (x1 * x2 * x2)), (21int * (y2)), (1int * (y1 * y1 * y2)));
    lemma_mul_is_distributive_add((1int * (x1 * x2 * x2)), (1int * (y1 * y2 * y2)), ((3int * (x1 * x1 * x2 * y2)) + (3int * (x1 * y1 * x2 * x2))));
    lemma_mul_is_distributive_add((1int * (x1 * x2 * x2)), (3int * (x1 * x1 * x2 * y2)), (3int * (x1 * y1 * x2 * x2)));
    lemma_coefficient_product(1int, (x1 * x2 * x2), 21int, (y1));
    assert((x1 * x2 * x2) * (y1) == x1 * y1 * x2 * x2) by (nonlinear_arith);
    lemma_coefficient_product(1int, (x1 * x2 * x2), 21int, (y2));
    assert((x1 * x2 * x2) * (y2) == x1 * x2 * x2 * y2) by (nonlinear_arith);
    lemma_coefficient_product(1int, (x1 * x2 * x2), 1int, (y1 * y1 * y2));
    assert((x1 * x2 * x2) * (y1 * y1 * y2) == x1 * y1 * y1 * x2 * x2 * y2) by (nonlinear_arith);
    lemma_coefficient_product(1int, (x1 * x2 * x2), 1int, (y1 * y2 * y2));
    assert((x1 * x2 * x2) * (y1 * y2 * y2) == x1 * y1 * x2 * x2 * y2 * y2) by (nonlinear_arith);
    lemma_coefficient_product(1int, (x1 * x2 * x2), 3int, (x1 * x1 * x2 * y2));
    assert((x1 * x2 * x2) * (x1 * x1 * x2 * y2) == x1 * x1 * x1 * x2 * x2 * x2 * y2) by (nonlinear_arith);
    lemma_coefficient_product(1int, (x1 * x2 * x2), 3int, (x1 * y1 * x2 * x2));
    assert((x1 * x2 * x2) * (x1 * y1 * x2 * x2) == x1 * x1 * y1 * x2 * x2 * x2 * x2) by (nonlinear_arith);
    lemma_mul_is_distributive_add(((-1int) * (x2 * x2 * x2)), ((21int * (y1)) + ((21int * (y2)) + (1int * (y1 * y1 * y2)))), ((1int * (y1 * y2 * y2)) + ((3int * (x1 * x1 * x2 * y2)) + (3int * (x1 * y1 * x2 * x2)))));
    lemma_mul_is_distributive_add(((-1int) * (x2 * x2 * x2)), (21int * (y1)), ((21int * (y2)) + (1int * (y1 * y1 * y2))));
    lemma_mul_is_distributive_add(((-1int) * (x2 * x2 * x2)), (21int * (y2)), (1int * (y1 * y1 * y2)));
    lemma_mul_is_distributive_add(((-1int) * (x2 * x2 * x2)), (1int * (y1 * y2 * y2)), ((3int * (x1 * x1 * x2 * y2)) + (3int * (x1 * y1 * x2 * x2))));
    lemma_mul_is_distributive_add(((-1int) * (x2 * x2 * x2)), (3int * (x1 * x1 * x2 * y2)), (3int * (x1 * y1 * x2 * x2)));
    lemma_coefficient_product((-1int), (x2 * x2 * x2), 21int, (y1));
    assert((x2 * x2 * x2) * (y1) == y1 * x2 * x2 * x2) by (nonlinear_arith);
    lemma_coefficient_product((-1int), (x2 * x2 * x2), 21int, (y2));
    assert((x2 * x2 * x2) * (y2) == x2 * x2 * x2 * y2) by (nonlinear_arith);
    lemma_coefficient_product((-1int), (x2 * x2 * x2), 1int, (y1 * y1 * y2));
    assert((x2 * x2 * x2) * (y1 * y1 * y2) == y1 * y1 * x2 * x2 * x2 * y2) by (nonlinear_arith);
    lemma_coefficient_product((-1int), (x2 * x2 * x2), 1int, (y1 * y2 * y2));
    assert((x2 * x2 * x2) * (y1 * y2 * y2) == y1 * x2 * x2 * x2 * y2 * y2) by (nonlinear_arith);
    lemma_coefficient_product((-1int), (x2 * x2 * x2), 3int, (x1 * x1 * x2 * y2));
    assert((x2 * x2 * x2) * (x1 * x1 * x2 * y2) == x1 * x1 * x2 * x2 * x2 * x2 * y2) by (nonlinear_arith);
    lemma_coefficient_product((-1int), (x2 * x2 * x2), 3int, (x1 * y1 * x2 * x2));
    assert((x2 * x2 * x2) * (x1 * y1 * x2 * x2) == x1 * y1 * x2 * x2 * x2 * x2 * x2) by (nonlinear_arith);
    assert(((((y2 - y1) * (y2 - y1)) - ((x1 + x2) * ((x2 - x1) * (x2 - x1)))) * (((y1 + y2) * ((y1 * y2) + 21)) + ((3 * (x1 * x2)) * ((x1 * y2) + (y1 * x2))))) == ((((((21int * (y1 * y1 * y1)) + ((-21int) * (y1 * y1 * y2))) + (((-21int) * (y1 * y2 * y2)) + (21int * (y2 * y2 * y2)))) + ((((-21int) * (x1 * x1 * x1 * y1)) + ((-21int) * (x1 * x1 * x1 * y2))) + ((21int * (x1 * x1 * y1 * x2)) + (21int * (x1 * x1 * x2 * y2))))) + ((((21int * (x1 * y1 * x2 * x2)) + (21int * (x1 * x2 * x2 * y2))) + (((-21int) * (y1 * x2 * x2 * x2)) + ((-21int) * (x2 * x2 * x2 * y2)))) + (((1int * (y1 * y1 * y1 * y1 * y2)) + ((-1int) * (y1 * y1 * y1 * y2 * y2))) + (((-1int) * (y1 * y1 * y2 * y2 * y2)) + ((1int * (y1 * y2 * y2 * y2 * y2)) + ((-1int) * (x1 * x1 * x1 * y1 * y1 * y2))))))) + ((((((-1int) * (x1 * x1 * x1 * y1 * y2 * y2)) + (4int * (x1 * x1 * y1 * y1 * x2 * y2))) + (((-5int) * (x1 * x1 * y1 * x2 * y2 * y2)) + (3int * (x1 * x1 * x2 * y2 * y2 * y2)))) + (((3int * (x1 * y1 * y1 * y1 * x2 * x2)) + ((-5int) * (x1 * y1 * y1 * x2 * x2 * y2))) + ((4int * (x1 * y1 * x2 * x2 * y2 * y2)) + ((-1int) * (y1 * y1 * x2 * x2 * x2 * y2))))) + (((((-1int) * (y1 * x2 * x2 * x2 * y2 * y2)) + ((-3int) * (x1 * x1 * x1 * x1 * x1 * x2 * y2))) + (((-3int) * (x1 * x1 * x1 * x1 * y1 * x2 * x2)) + (3int * (x1 * x1 * x1 * x1 * x2 * x2 * y2)))) + (((3int * (x1 * x1 * x1 * y1 * x2 * x2 * x2)) + (3int * (x1 * x1 * x1 * x2 * x2 * x2 * y2))) + ((3int * (x1 * x1 * y1 * x2 * x2 * x2 * x2)) + (((-3int) * (x1 * x1 * x2 * x2 * x2 * x2 * y2)) + ((-3int) * (x1 * y1 * x2 * x2 * x2 * x2 * x2)))))))));
}

#[verifier::rlimit(40)]
proof fn lemma_chord_identity_x_part3(x1: int, y1: int, x2: int, y2: int)
    ensures
        ((((((((((14 * y2) + (1 * ((y2 * y2) * y2))) + (2 * (((x2 * x2) * x2) * y2))) + ((-21) * y1)) + (1 * ((y1 * y2) * y2))) + ((-1) * ((y1 * y1) * y2))) + (3 * (((x1 * x2) * x2) * y2))) + ((-3) * (((x1 * y1) * x2) * x2))) + ((-3) * (((x1 * x1) * x2) * y2))) * (((y1 * y1) - ((x1 * x1) * x1)) - 7)) == (((((147int * (y1)) + (((-98int) * (y2)) + ((-21int) * (y1 * y1 * y1)))) + ((21int * (y1 * y1 * y2)) + (((-7int) * (y1 * y2 * y2)) + ((-7int) * (y2 * y2 * y2))))) + (((21int * (x1 * x1 * x1 * y1)) + (((-14int) * (x1 * x1 * x1 * y2)) + (21int * (x1 * x1 * x2 * y2)))) + (((21int * (x1 * y1 * x2 * x2)) + ((-21int) * (x1 * x2 * x2 * y2))) + (((-14int) * (x2 * x2 * x2 * y2)) + ((-1int) * (y1 * y1 * y1 * y1 * y2)))))) + ((((1int * (y1 * y1 * y1 * y2 * y2)) + ((1int * (y1 * y1 * y2 * y2 * y2)) + (1int * (x1 * x1 * x1 * y1 * y1 * y2)))) + (((-1int) * (x1 * x1 * x1 * y1 * y2 * y2)) + (((-1int) * (x1 * x1 * x1 * y2 * y2 * y2)) + ((-3int) * (x1 * x1 * y1 * y1 * x2 * y2))))) + ((((-3int) * (x1 * y1 * y1 * y1 * x2 * x2)) + ((3int * (x1 * y1 * y1 * x2 * x2 * y2)) + (2int * (y1 * y1 * x2 * x2 * x2 * y2)))) + (((3int * (x1 * x1 * x1 * x1 * x1 * x2 * y2)) + (3int * (x1 * x1 * x1 * x1 * y1 * x2 * x2))) + (((-3int) * (x1 * x1 * x1 * x1 * x2 * x2 * y2)) + ((-2int) * (x1 * x1 * x1 * x2 * x2 * x2 * y2))))))),
{
    assert(y2 == (1int * (y2)));
    assert((14 * y2) == (14int * (1int)) * (1int * (y2)));
    lemma_coefficient_product(14int, (1int), 1int, (y2));
    assert((1int) * (y2) == y2) by (nonlinear_arith);
    assert((14 * y2) == (14int * (y2)));
    assert(y2 == (1int * (y2)));
    assert(y2 == (1int * (y2)));
    assert((y2 * y2) == (1int * (y2)) * (1int * (y2)));
    lemma_coefficient_product(1int, (y2), 1int, (y2));
    assert((y2) * (y2) == y2 * y2) by (nonlinear_arith);
    assert((y2 * y2) == (1int * (y2 * y2)));
    assert(y2 == (1int * (y2)));
    assert(((y2 * y2) * y2) == (1int * (y2 * y2)) * (1int * (y2)));
    lemma_coefficient_product(1int, (y2 * y2), 1int, (y2));
    assert((y2 * y2) * (y2) == y2 * y2 * y2) by (nonlinear_arith);
    assert(((y2 * y2) * y2) == (1int * (y2 * y2 * y2)));
    assert((1 * ((y2 * y2) * y2)) == (1int * (1int)) * (1int * (y2 * y2 * y2)));
    lemma_coefficient_product(1int, (1int), 1int, (y2 * y2 * y2));
    assert((1int) * (y2 * y2 * y2) == y2 * y2 * y2) by (nonlinear_arith);
    assert((1 * ((y2 * y2) * y2)) == (1int * (y2 * y2 * y2)));
    assert(((14 * y2) + (1 * ((y2 * y2) * y2))) == (14int * (y2)) + (1int * (y2 * y2 * y2)));
    assert(((14 * y2) + (1 * ((y2 * y2) * y2))) == ((14int * (y2)) + (1int * (y2 * y2 * y2))));
    assert(x2 == (1int * (x2)));
    assert(x2 == (1int * (x2)));
    assert((x2 * x2) == (1int * (x2)) * (1int * (x2)));
    lemma_coefficient_product(1int, (x2), 1int, (x2));
    assert((x2) * (x2) == x2 * x2) by (nonlinear_arith);
    assert((x2 * x2) == (1int * (x2 * x2)));
    assert(x2 == (1int * (x2)));
    assert(((x2 * x2) * x2) == (1int * (x2 * x2)) * (1int * (x2)));
    lemma_coefficient_product(1int, (x2 * x2), 1int, (x2));
    assert((x2 * x2) * (x2) == x2 * x2 * x2) by (nonlinear_arith);
    assert(((x2 * x2) * x2) == (1int * (x2 * x2 * x2)));
    assert(y2 == (1int * (y2)));
    assert((((x2 * x2) * x2) * y2) == (1int * (x2 * x2 * x2)) * (1int * (y2)));
    lemma_coefficient_product(1int, (x2 * x2 * x2), 1int, (y2));
    assert((x2 * x2 * x2) * (y2) == x2 * x2 * x2 * y2) by (nonlinear_arith);
    assert((((x2 * x2) * x2) * y2) == (1int * (x2 * x2 * x2 * y2)));
    assert((2 * (((x2 * x2) * x2) * y2)) == (2int * (1int)) * (1int * (x2 * x2 * x2 * y2)));
    lemma_coefficient_product(2int, (1int), 1int, (x2 * x2 * x2 * y2));
    assert((1int) * (x2 * x2 * x2 * y2) == x2 * x2 * x2 * y2) by (nonlinear_arith);
    assert((2 * (((x2 * x2) * x2) * y2)) == (2int * (x2 * x2 * x2 * y2)));
    assert((((14 * y2) + (1 * ((y2 * y2) * y2))) + (2 * (((x2 * x2) * x2) * y2))) == ((14int * (y2)) + (1int * (y2 * y2 * y2))) + (2int * (x2 * x2 * x2 * y2)));
    assert((((14 * y2) + (1 * ((y2 * y2) * y2))) + (2 * (((x2 * x2) * x2) * y2))) == ((14int * (y2)) + ((1int * (y2 * y2 * y2)) + (2int * (x2 * x2 * x2 * y2)))));
    assert(y1 == (1int * (y1)));
    assert(((-21) * y1) == ((-21int) * (1int)) * (1int * (y1)));
    lemma_coefficient_product((-21int), (1int), 1int, (y1));
    assert((1int) * (y1) == y1) by (nonlinear_arith);
    assert(((-21) * y1) == ((-21int) * (y1)));
    assert(((((14 * y2) + (1 * ((y2 * y2) * y2))) + (2 * (((x2 * x2) * x2) * y2))) + ((-21) * y1)) == ((14int * (y2)) + ((1int * (y2 * y2 * y2)) + (2int * (x2 * x2 * x2 * y2)))) + ((-21int) * (y1)));
    assert(((((14 * y2) + (1 * ((y2 * y2) * y2))) + (2 * (((x2 * x2) * x2) * y2))) + ((-21) * y1)) == ((((-21int) * (y1)) + (14int * (y2))) + ((1int * (y2 * y2 * y2)) + (2int * (x2 * x2 * x2 * y2)))));
    assert(y1 == (1int * (y1)));
    assert(y2 == (1int * (y2)));
    assert((y1 * y2) == (1int * (y1)) * (1int * (y2)));
    lemma_coefficient_product(1int, (y1), 1int, (y2));
    assert((y1) * (y2) == y1 * y2) by (nonlinear_arith);
    assert((y1 * y2) == (1int * (y1 * y2)));
    assert(y2 == (1int * (y2)));
    assert(((y1 * y2) * y2) == (1int * (y1 * y2)) * (1int * (y2)));
    lemma_coefficient_product(1int, (y1 * y2), 1int, (y2));
    assert((y1 * y2) * (y2) == y1 * y2 * y2) by (nonlinear_arith);
    assert(((y1 * y2) * y2) == (1int * (y1 * y2 * y2)));
    assert((1 * ((y1 * y2) * y2)) == (1int * (1int)) * (1int * (y1 * y2 * y2)));
    lemma_coefficient_product(1int, (1int), 1int, (y1 * y2 * y2));
    assert((1int) * (y1 * y2 * y2) == y1 * y2 * y2) by (nonlinear_arith);
    assert((1 * ((y1 * y2) * y2)) == (1int * (y1 * y2 * y2)));
    assert((((((14 * y2) + (1 * ((y2 * y2) * y2))) + (2 * (((x2 * x2) * x2) * y2))) + ((-21) * y1)) + (1 * ((y1 * y2) * y2))) == ((((-21int) * (y1)) + (14int * (y2))) + ((1int * (y2 * y2 * y2)) + (2int * (x2 * x2 * x2 * y2)))) + (1int * (y1 * y2 * y2)));
    assert((((((14 * y2) + (1 * ((y2 * y2) * y2))) + (2 * (((x2 * x2) * x2) * y2))) + ((-21) * y1)) + (1 * ((y1 * y2) * y2))) == ((((-21int) * (y1)) + (14int * (y2))) + ((1int * (y1 * y2 * y2)) + ((1int * (y2 * y2 * y2)) + (2int * (x2 * x2 * x2 * y2))))));
    assert(y1 == (1int * (y1)));
    assert(y1 == (1int * (y1)));
    assert((y1 * y1) == (1int * (y1)) * (1int * (y1)));
    lemma_coefficient_product(1int, (y1), 1int, (y1));
    assert((y1) * (y1) == y1 * y1) by (nonlinear_arith);
    assert((y1 * y1) == (1int * (y1 * y1)));
    assert(y2 == (1int * (y2)));
    assert(((y1 * y1) * y2) == (1int * (y1 * y1)) * (1int * (y2)));
    lemma_coefficient_product(1int, (y1 * y1), 1int, (y2));
    assert((y1 * y1) * (y2) == y1 * y1 * y2) by (nonlinear_arith);
    assert(((y1 * y1) * y2) == (1int * (y1 * y1 * y2)));
    assert(((-1) * ((y1 * y1) * y2)) == ((-1int) * (1int)) * (1int * (y1 * y1 * y2)));
    lemma_coefficient_product((-1int), (1int), 1int, (y1 * y1 * y2));
    assert((1int) * (y1 * y1 * y2) == y1 * y1 * y2) by (nonlinear_arith);
    assert(((-1) * ((y1 * y1) * y2)) == ((-1int) * (y1 * y1 * y2)));
    assert(((((((14 * y2) + (1 * ((y2 * y2) * y2))) + (2 * (((x2 * x2) * x2) * y2))) + ((-21) * y1)) + (1 * ((y1 * y2) * y2))) + ((-1) * ((y1 * y1) * y2))) == ((((-21int) * (y1)) + (14int * (y2))) + ((1int * (y1 * y2 * y2)) + ((1int * (y2 * y2 * y2)) + (2int * (x2 * x2 * x2 * y2))))) + ((-1int) * (y1 * y1 * y2)));
    assert(((((((14 * y2) + (1 * ((y2 * y2) * y2))) + (2 * (((x2 * x2) * x2) * y2))) + ((-21) * y1)) + (1 * ((y1 * y2) * y2))) + ((-1) * ((y1 * y1) * y2))) == ((((-21int) * (y1)) + ((14int * (y2)) + ((-1int) * (y1 * y1 * y2)))) + ((1int * (y1 * y2 * y2)) + ((1int * (y2 * y2 * y2)) + (2int * (x2 * x2 * x2 * y2))))));
    assert(x1 == (1int * (x1)));
    assert(x2 == (1int * (x2)));
    assert((x1 * x2) == (1int * (x1)) * (1int * (x2)));
    lemma_coefficient_product(1int, (x1), 1int, (x2));
    assert((x1) * (x2) == x1 * x2) by (nonlinear_arith);
    assert((x1 * x2) == (1int * (x1 * x2)));
    assert(x2 == (1int * (x2)));
    assert(((x1 * x2) * x2) == (1int * (x1 * x2)) * (1int * (x2)));
    lemma_coefficient_product(1int, (x1 * x2), 1int, (x2));
    assert((x1 * x2) * (x2) == x1 * x2 * x2) by (nonlinear_arith);
    assert(((x1 * x2) * x2) == (1int * (x1 * x2 * x2)));
    assert(y2 == (1int * (y2)));
    assert((((x1 * x2) * x2) * y2) == (1int * (x1 * x2 * x2)) * (1int * (y2)));
    lemma_coefficient_product(1int, (x1 * x2 * x2), 1int, (y2));
    assert((x1 * x2 * x2) * (y2) == x1 * x2 * x2 * y2) by (nonlinear_arith);
    assert((((x1 * x2) * x2) * y2) == (1int * (x1 * x2 * x2 * y2)));
    assert((3 * (((x1 * x2) * x2) * y2)) == (3int * (1int)) * (1int * (x1 * x2 * x2 * y2)));
    lemma_coefficient_product(3int, (1int), 1int, (x1 * x2 * x2 * y2));
    assert((1int) * (x1 * x2 * x2 * y2) == x1 * x2 * x2 * y2) by (nonlinear_arith);
    assert((3 * (((x1 * x2) * x2) * y2)) == (3int * (x1 * x2 * x2 * y2)));
    assert((((((((14 * y2) + (1 * ((y2 * y2) * y2))) + (2 * (((x2 * x2) * x2) * y2))) + ((-21) * y1)) + (1 * ((y1 * y2) * y2))) + ((-1) * ((y1 * y1) * y2))) + (3 * (((x1 * x2) * x2) * y2))) == ((((-21int) * (y1)) + ((14int * (y2)) + ((-1int) * (y1 * y1 * y2)))) + ((1int * (y1 * y2 * y2)) + ((1int * (y2 * y2 * y2)) + (2int * (x2 * x2 * x2 * y2))))) + (3int * (x1 * x2 * x2 * y2)));
    assert((((((((14 * y2) + (1 * ((y2 * y2) * y2))) + (2 * (((x2 * x2) * x2) * y2))) + ((-21) * y1)) + (1 * ((y1 * y2) * y2))) + ((-1) * ((y1 * y1) * y2))) + (3 * (((x1 * x2) * x2) * y2))) == ((((-21int) * (y1)) + ((14int * (y2)) + ((-1int) * (y1 * y1 * y2)))) + (((1int * (y1 * y2 * y2)) + (1int * (y2 * y2 * y2))) + ((3int * (x1 * x2 * x2 * y2)) + (2int * (x2 * x2 * x2 * y2))))));
    assert(x1 == (1int * (x1)));
    assert(y1 == (1int * (y1)));
    assert((x1 * y1) == (1int * (x1)) * (1int * (y1)));
    lemma_coefficient_product(1int, (x1), 1int, (y1));
    assert((x1) * (y1) == x1 * y1) by (nonlinear_arith);
    assert((x1 * y1) == (1int * (x1 * y1)));
    assert(x2 == (1int * (x2)));
    assert(((x1 * y1) * x2) == (1int * (x1 * y1)) * (1int * (x2)));
    lemma_coefficient_product(1int, (x1 * y1), 1int, (x2));
    assert((x1 * y1) * (x2) == x1 * y1 * x2) by (nonlinear_arith);
    assert(((x1 * y1) * x2) == (1int * (x1 * y1 * x2)));
    assert(x2 == (1int * (x2)));
    assert((((x1 * y1) * x2) * x2) == (1int * (x1 * y1 * x2)) * (1int * (x2)));
    lemma_coefficient_product(1int, (x1 * y1 * x2), 1int, (x2));
    assert((x1 * y1 * x2) * (x2) == x1 * y1 * x2 * x2) by (nonlinear_arith);
    assert((((x1 * y1) * x2) * x2) == (1int * (x1 * y1 * x2 * x2)));
    assert(((-3) * (((x1 * y1) * x2) * x2)) == ((-3int) * (1int)) * (1int * (x1 * y1 * x2 * x2)));
    lemma_coefficient_product((-3int), (1int), 1int, (x1 * y1 * x2 * x2));
    assert((1int) * (x1 * y1 * x2 * x2) == x1 * y1 * x2 * x2) by (nonlinear_arith);
    assert(((-3) * (((x1 * y1) * x2) * x2)) == ((-3int) * (x1 * y1 * x2 * x2)));
    assert(((((((((14 * y2) + (1 * ((y2 * y2) * y2))) + (2 * (((x2 * x2) * x2) * y2))) + ((-21) * y1)) + (1 * ((y1 * y2) * y2))) + ((-1) * ((y1 * y1) * y2))) + (3 * (((x1 * x2) * x2) * y2))) + ((-3) * (((x1 * y1) * x2) * x2))) == ((((-21int) * (y1)) + ((14int * (y2)) + ((-1int) * (y1 * y1 * y2)))) + (((1int * (y1 * y2 * y2)) + (1int * (y2 * y2 * y2))) + ((3int * (x1 * x2 * x2 * y2)) + (2int * (x2 * x2 * x2 * y2))))) + ((-3int) * (x1 * y1 * x2 * x2)));
    assert(((((((((14 * y2) + (1 * ((y2 * y2) * y2))) + (2 * (((x2 * x2) * x2) * y2))) + ((-21) * y1)) + (1 * ((y1 * y2) * y2))) + ((-1) * ((y1 * y1) * y2))) + (3 * (((x1 * x2) * x2) * y2))) + ((-3) * (((x1 * y1) * x2) * x2))) == (((((-21int) * (y1)) + (14int * (y2))) + (((-1int) * (y1 * y1 * y2)) + (1int * (y1 * y2 * y2)))) + (((1int * (y2 * y2 * y2)) + ((-3int) * (x1 * y1 * x2 * x2))) + ((3int * (x1 * x2 * x2 * y2)) + (2int * (x2 * x2 * x2 * y2))))));
    assert(x1 == (1int * (x1)));
    assert(x1 == (1int * (x1)));
    assert((x1 * x1) == (1int * (x1)) * (1int * (x1)));
    lemma_coefficient_product(1int, (x1), 1int, (x1));
    assert((x1) * (x1) == x1 * x1) by (nonlinear_arith);
    assert((x1 * x1) == (1int * (x1 * x1)));
    assert(x2 == (1int * (x2)));
    assert(((x1 * x1) * x2) == (1int * (x1 * x1)) * (1int * (x2)));
    lemma_coefficient_product(1int, (x1 * x1), 1int, (x2));
    assert((x1 * x1) * (x2) == x1 * x1 * x2) by (nonlinear_arith);
    assert(((x1 * x1) * x2) == (1int * (x1 * x1 * x2)));
    assert(y2 == (1int * (y2)));
    assert((((x1 * x1) * x2) * y2) == (1int * (x1 * x1 * x2)) * (1int * (y2)));
    lemma_coefficient_product(1int, (x1 * x1 * x2), 1int, (y2));
    assert((x1 * x1 * x2) * (y2) == x1 * x1 * x2 * y2) by (nonlinear_arith);
    assert((((x1 * x1) * x2) * y2) == (1int * (x1 * x1 * x2 * y2)));
    assert(((-3) * (((x1 * x1) * x2) * y2)) == ((-3int) * (1int)) * (1int * (x1 * x1 * x2 * y2)));
    lemma_coefficient_product((-3int), (1int), 1int, (x1 * x1 * x2 * y2));
    assert((1int) * (x1 * x1 * x2 * y2) == x1 * x1 * x2 * y2) by (nonlinear_arith);
    assert(((-3) * (((x1 * x1) * x2) * y2)) == ((-3int) * (x1 * x1 * x2 * y2)));
    assert((((((((((14 * y2) + (1 * ((y2 * y2) * y2))) + (2 * (((x2 * x2) * x2) * y2))) + ((-21) * y1)) + (1 * ((y1 * y2) * y2))) + ((-1) * ((y1 * y1) * y2))) + (3 * (((x1 * x2) * x2) * y2))) + ((-3) * (((x1 * y1) * x2) * x2))) + ((-3) * (((x1 * x1) * x2) * y2))) == (((((-21int) * (y1)) + (14int * (y2))) + (((-1int) * (y1 * y1 * y2)) + (1int * (y1 * y2 * y2)))) + (((1int * (y2 * y2 * y2)) + ((-3int) * (x1 * y1 * x2 * x2))) + ((3int * (x1 * x2 * x2 * y2)) + (2int * (x2 * x2 * x2 * y2))))) + ((-3int) * (x1 * x1 * x2 * y2)));
    assert((((((((((14 * y2) + (1 * ((y2 * y2) * y2))) + (2 * (((x2 * x2) * x2) * y2))) + ((-21) * y1)) + (1 * ((y1 * y2) * y2))) + ((-1) * ((y1 * y1) * y2))) + (3 * (((x1 * x2) * x2) * y2))) + ((-3) * (((x1 * y1) * x2) * x2))) + ((-3) * (((x1 * x1) * x2) * y2))) == (((((-21int) * (y1)) + (14int * (y2))) + (((-1int) * (y1 * y1 * y2)) + (1int * (y1 * y2 * y2)))) + (((1int * (y2 * y2 * y2)) + ((-3int) * (x1 * x1 * x2 * y2))) + (((-3int) * (x1 * y1 * x2 * x2)) + ((3int * (x1 * x2 * x2 * y2)) + (2int * (x2 * x2 * x2 * y2)))))));
    assert(y1 == (1int * (y1)));
    assert(y1 == (1int * (y1)));
    assert((y1 * y1) == (1int * (y1)) * (1int * (y1)));
    lemma_coefficient_product(1int, (y1), 1int, (y1));
    assert((y1) * (y1) == y1 * y1) by (nonlinear_arith);
    assert((y1 * y1) == (1int * (y1 * y1)));
    assert(x1 == (1int * (x1)));
    assert(x1 == (1int * (x1)));
    assert((x1 * x1) == (1int * (x1)) * (1int * (x1)));
    lemma_coefficient_product(1int, (x1), 1int, (x1));
    assert((x1) * (x1) == x1 * x1) by (nonlinear_arith);
    assert((x1 * x1) == (1int * (x1 * x1)));
    assert(x1 == (1int * (x1)));
    assert(((x1 * x1) * x1) == (1int * (x1 * x1)) * (1int * (x1)));
    lemma_coefficient_product(1int, (x1 * x1), 1int, (x1));
    assert((x1 * x1) * (x1) == x1 * x1 * x1) by (nonlinear_arith);
    assert(((x1 * x1) * x1) == (1int * (x1 * x1 * x1)));
    assert(((y1 * y1) - ((x1 * x1) * x1)) == (1int * (y1 * y1)) - (1int * (x1 * x1 * x1)));
    assert(((y1 * y1) - ((x1 * x1) * x1)) == ((1int * (y1 * y1)) + ((-1int) * (x1 * x1 * x1))));
    assert((((y1 * y1) - ((x1 * x1) * x1)) - 7) == ((1int * (y1 * y1)) + ((-1int) * (x1 * x1 * x1))) - (7int * (1int)));
    assert((((y1 * y1) - ((x1 * x1) * x1)) - 7) == (((-7int) * (1int)) + ((1int * (y1 * y1)) + ((-1int) * (x1 * x1 * x1)))));
    assert(((((((((((14 * y2) + (1 * ((y2 * y2) * y2))) + (2 * (((x2 * x2) * x2) * y2))) + ((-21) * y1)) + (1 * ((y1 * y2) * y2))) + ((-1) * ((y1 * y1) * y2))) + (3 * (((x1 * x2) * x2) * y2))) + ((-3) * (((x1 * y1) * x2) * x2))) + ((-3) * (((x1 * x1) * x2) * y2))) * (((y1 * y1) - ((x1 * x1) * x1)) - 7)) == (((((-21int) * (y1)) + (14int * (y2))) + (((-1int) * (y1 * y1 * y2)) + (1int * (y1 * y2 * y2)))) + (((1int * (y2 * y2 * y2)) + ((-3int) * (x1 * x1 * x2 * y2))) + (((-3int) * (x1 * y1 * x2 * x2)) + ((3int * (x1 * x2 * x2 * y2)) + (2int * (x2 * x2 * x2 * y2)))))) * (((-7int) * (1int)) + ((1int * (y1 * y1)) + ((-1int) * (x1 * x1 * x1)))));
    lemma_mul_is_distributive_add_other_way((((-7int) * (1int)) + ((1int * (y1 * y1)) + ((-1int) * (x1 * x1 * x1)))), ((((-21int) * (y1)) + (14int * (y2))) + (((-1int) * (y1 * y1 * y2)) + (1int * (y1 * y2 * y2)))), (((1int * (y2 * y2 * y2)) + ((-3int) * (x1 * x1 * x2 * y2))) + (((-3int) * (x1 * y1 * x2 * x2)) + ((3int * (x1 * x2 * x2 * y2)) + (2int * (x2 * x2 * x2 * y2))))));
    lemma_mul_is_distributive_add_other_way((((-7int) * (1int)) + ((1int * (y1 * y1)) + ((-1int) * (x1 * x1 * x1)))), (((-21int) * (y1)) + (14int * (y2))), (((-1int) * (y1 * y1 * y2)) + (1int * (y1 * y2 * y2))));
    lemma_mul_is_distributive_add_other_way((((-7int) * (1int)) + ((1int * (y1 * y1)) + ((-1int) * (x1 * x1 * x1)))), ((-21int) * (y1)), (14int * (y2)));
    lemma_mul_is_distributive_add_other_way((((-7int) * (1int)) + ((1int * (y1 * y1)) + ((-1int) * (x1 * x1 * x1)))), ((-1int) * (y1 * y1 * y2)), (1int * (y1 * y2 * y2)));
    lemma_mul_is_distributive_add_other_way((((-7int) * (1int)) + ((1int * (y1 * y1)) + ((-1int) * (x1 * x1 * x1)))), ((1int * (y2 * y2 * y2)) + ((-3int) * (x1 * x1 * x2 * y2))), (((-3int) * (x1 * y1 * x2 * x2)) + ((3int * (x1 * x2 * x2 * y2)) + (2int * (x2 * x2 * x2 * y2)))));
    lemma_mul_is_distributive_add_other_way((((-7int) * (1int)) + ((1int * (y1 * y1)) + ((-1int) * (x1 * x1 * x1)))), (1int * (y2 * y2 * y2)), ((-3int) * (x1 * x1 * x2 * y2)));
    lemma_mul_is_distributive_add_other_way((((-7int) * (1int)) + ((1int * (y1 * y1)) + ((-1int) * (x1 * x1 * x1)))), ((-3int) * (x1 * y1 * x2 * x2)), ((3int * (x1 * x2 * x2 * y2)) + (2int * (x2 * x2 * x2 * y2))));
    lemma_mul_is_distributive_add_other_way((((-7int) * (1int)) + ((1int * (y1 * y1)) + ((-1int) * (x1 * x1 * x1)))), (3int * (x1 * x2 * x2 * y2)), (2int * (x2 * x2 * x2 * y2)));
    lemma_mul_is_distributive_add(((-21int) * (y1)), ((-7int) * (1int)), ((1int * (y1 * y1)) + ((-1int) * (x1 * x1 * x1))));
    lemma_mul_is_distributive_add(((-21int) * (y1)), (1int * (y1 * y1)), ((-1int) * (x1 * x1 * x1)));
    lemma_coefficient_product((-21int), (y1), (-7int), (1int));
    assert((y1) * (1int) == y1) by (nonlinear_arith);
    lemma_coefficient_product((-21int), (y1), 1int, (y1 * y1));
    assert((y1) * (y1 * y1) == y1 * y1 * y1) by (nonlinear_arith);
    lemma_coefficient_product((-21int), (y1), (-1int), (x1 * x1 * x1));
    assert((y1) * (x1 * x1 * x1) == x1 * x1 * x1 * y1) by (nonlinear_arith);
    lemma_mul_is_distributive_add((14int * (y2)), ((-7int) * (1int)), ((1int * (y1 * y1)) + ((-1int) * (x1 * x1 * x1))));
    lemma_mul_is_distributive_add((14int * (y2)), (1int * (y1 * y1)), ((-1int) * (x1 * x1 * x1)));
    lemma_coefficient_product(14int, (y2), (-7int), (1int));
    assert((y2) * (1int) == y2) by (nonlinear_arith);
    lemma_coefficient_product(14int, (y2), 1int, (y1 * y1));
    assert((y2) * (y1 * y1) == y1 * y1 * y2) by (nonlinear_arith);
    lemma_coefficient_product(14int, (y2), (-1int), (x1 * x1 * x1));
    assert((y2) * (x1 * x1 * x1) == x1 * x1 * x1 * y2) by (nonlinear_arith);
    lemma_mul_is_distributive_add(((-1int) * (y1 * y1 * y2)), ((-7int) * (1int)), ((1int * (y1 * y1)) + ((-1int) * (x1 * x1 * x1))));
    lemma_mul_is_distributive_add(((-1int) * (y1 * y1 * y2)), (1int * (y1 * y1)), ((-1int) * (x1 * x1 * x1)));
    lemma_coefficient_product((-1int), (y1 * y1 * y2), (-7int), (1int));
    assert((y1 * y1 * y2) * (1int) == y1 * y1 * y2) by (nonlinear_arith);
    lemma_coefficient_product((-1int), (y1 * y1 * y2), 1int, (y1 * y1));
    assert((y1 * y1 * y2) * (y1 * y1) == y1 * y1 * y1 * y1 * y2) by (nonlinear_arith);
    lemma_coefficient_product((-1int), (y1 * y1 * y2), (-1int), (x1 * x1 * x1));
    assert((y1 * y1 * y2) * (x1 * x1 * x1) == x1 * x1 * x1 * y1 * y1 * y2) by (nonlinear_arith);
    lemma_mul_is_distributive_add((1int * (y1 * y2 * y2)), ((-7int) * (1int)), ((1int * (y1 * y1)) + ((-1int) * (x1 * x1 * x1))));
    lemma_mul_is_distributive_add((1int * (y1 * y2 * y2)), (1int * (y1 * y1)), ((-1int) * (x1 * x1 * x1)));
    lemma_coefficient_product(1int, (y1 * y2 * y2), (-7int), (1int));
    assert((y1 * y2 * y2) * (1int) == y1 * y2 * y2) by (nonlinear_arith);
    lemma_coefficient_product(1int, (y1 * y2 * y2), 1int, (y1 * y1));
    assert((y1 * y2 * y2) * (y1 * y1) == y1 * y1 * y1 * y2 * y2) by (nonlinear_arith);
    lemma_coefficient_product(1int, (y1 * y2 * y2), (-1int), (x1 * x1 * x1));
    assert((y1 * y2 * y2) * (x1 * x1 * x1) == x1 * x1 * x1 * y1 * y2 * y2) by (nonlinear_arith);
    lemma_mul_is_distributive_add((1int * (y2 * y2 * y2)), ((-7int) * (1int)), ((1int * (y1 * y1)) + ((-1int) * (x1 * x1 * x1))));
    lemma_mul_is_distributive_add((1int * (y2 * y2 * y2)), (1int * (y1 * y1)), ((-1int) * (x1 * x1 * x1)));
    lemma_coefficient_product(1int, (y2 * y2 * y2), (-7int), (1int));
    assert((y2 * y2 * y2) * (1int) == y2 * y2 * y2) by (nonlinear_arith);
    lemma_coefficient_product(1int, (y2 * y2 * y2), 1int, (y1 * y1));
    assert((y2 * y2 * y2) * (y1 * y1) == y1 * y1 * y2 * y2 * y2) by (nonlinear_arith);
    lemma_coefficient_product(1int, (y2 * y2 * y2), (-1int), (x1 * x1 * x1));
    assert((y2 * y2 * y2) * (x1 * x1 * x1) == x1 * x1 * x1 * y2 * y2 * y2) by (nonlinear_arith);
    lemma_mul_is_distributive_add(((-3int) * (x1 * x1 * x2 * y2)), ((-7int) * (1int)), ((1int * (y1 * y1)) + ((-1int) * (x1 * x1 * x1))));
    lemma_mul_is_distributive_add(((-3int) * (x1 * x1 * x2 * y2)), (1int * (y1 * y1)), ((-1int) * (x1 * x1 * x1)));
    lemma_coefficient_product((-3int), (x1 * x1 * x2 * y2), (-7int), (1int));
    assert((x1 * x1 * x2 * y2) * (1int) == x1 * x1 * x2 * y2) by (nonlinear_arith);
    lemma_coefficient_product((-3int), (x1 * x1 * x2 * y2), 1int, (y1 * y1));
    assert((x1 * x1 * x2 * y2) * (y1 * y1) == x1 * x1 * y1 * y1 * x2 * y2) by (nonlinear_arith);
    lemma_coefficient_product((-3int), (x1 * x1 * x2 * y2), (-1int), (x1 * x1 * x1));
    assert((x1 * x1 * x2 * y2) * (x1 * x1 * x1) == x1 * x1 * x1 * x1 * x1 * x2 * y2) by (nonlinear_arith);
    lemma_mul_is_distributive_add(((-3int) * (x1 * y1 * x2 * x2)), ((-7int) * (1int)), ((1int * (y1 * y1)) + ((-1int) * (x1 * x1 * x1))));
    lemma_mul_is_distributive_add(((-3int) * (x1 * y1 * x2 * x2)), (1int * (y1 * y1)), ((-1int) * (x1 * x1 * x1)));
    lemma_coefficient_product((-3int), (x1 * y1 * x2 * x2), (-7int), (1int));
    assert((x1 * y1 * x2 * x2) * (1int) == x1 * y1 * x2 * x2) by (nonlinear_arith);
    lemma_coefficient_product((-3int), (x1 * y1 * x2 * x2), 1int, (y1 * y1));
    assert((x1 * y1 * x2 * x2) * (y1 * y1) == x1 * y1 * y1 * y1 * x2 * x2) by (nonlinear_arith);
    lemma_coefficient_product((-3int), (x1 * y1 * x2 * x2), (-1int), (x1 * x1 * x1));
    assert((x1 * y1 * x2 * x2) * (x1 * x1 * x1) == x1 * x1 * x1 * x1 * y1 * x2 * x2) by (nonlinear_arith);
    lemma_mul_is_distributive_add((3int * (x1 * x2 * x2 * y2)), ((-7int) * (1int)), ((1int * (y1 * y1)) + ((-1int) * (x1 * x1 * x1))));
    lemma_mul_is_distributive_add((3int * (x1 * x2 * x2 * y2)), (1int * (y1 * y1)), ((-1int) * (x1 * x1 * x1)));
    lemma_coefficient_product(3int, (x1 * x2 * x2 * y2), (-7int), (1int));
    assert((x1 * x2 * x2 * y2) * (1int) == x1 * x2 * x2 * y2) by (nonlinear_arith);
    lemma_coefficient_product(3int, (x1 * x2 * x2 * y2), 1int, (y1 * y1));
    assert((x1 * x2 * x2 * y2) * (y1 * y1) == x1 * y1 * y1 * x2 * x2 * y2) by (nonlinear_arith);
    lemma_coefficient_product(3int, (x1 * x2 * x2 * y2), (-1int), (x1 * x1 * x1));
    assert((x1 * x2 * x2 * y2) * (x1 * x1 * x1) == x1 * x1 * x1 * x1 * x2 * x2 * y2) by (nonlinear_arith);
    lemma_mul_is_distributive_add((2int * (x2 * x2 * x2 * y2)), ((-7int) * (1int)), ((1int * (y1 * y1)) + ((-1int) * (x1 * x1 * x1))));
    lemma_mul_is_distributive_add((2int * (x2 * x2 * x2 * y2)), (1int * (y1 * y1)), ((-1int) * (x1 * x1 * x1)));
    lemma_coefficient_product(2int, (x2 * x2 * x2 * y2), (-7int), (1int));
    assert((x2 * x2 * x2 * y2) * (1int) == x2 * x2 * x2 * y2) by (nonlinear_arith);
    lemma_coefficient_product(2int, (x2 * x2 * x2 * y2), 1int, (y1 * y1));
    assert((x2 * x2 * x2 * y2) * (y1 * y1) == y1 * y1 * x2 * x2 * x2 * y2) by (nonlinear_arith);
    lemma_coefficient_product(2int, (x2 * x2 * x2 * y2), (-1int), (x1 * x1 * x1));
    assert((x2 * x2 * x2 * y2) * (x1 * x1 * x1) == x1 * x1 * x1 * x2 * x2 * x2 * y2) by (nonlinear_arith);
    assert(((((((((((14 * y2) + (1 * ((y2 * y2) * y2))) + (2 * (((x2 * x2) * x2) * y2))) + ((-21) * y1)) + (1 * ((y1 * y2) * y2))) + ((-1) * ((y1 * y1) * y2))) + (3 * (((x1 * x2) * x2) * y2))) + ((-3) * (((x1 * y1) * x2) * x2))) + ((-3) * (((x1 * x1) * x2) * y2))) * (((y1 * y1) - ((x1 * x1) * x1)) - 7)) == (((((147int * (y1)) + (((-98int) * (y2)) + ((-21int) * (y1 * y1 * y1)))) + ((21int * (y1 * y1 * y2)) + (((-7int) * (y1 * y2 * y2)) + ((-7int) * (y2 * y2 * y2))))) + (((21int * (x1 * x1 * x1 * y1)) + (((-14int) * (x1 * x1 * x1 * y2)) + (21int * (x1 * x1 * x2 * y2)))) + (((21int * (x1 * y1 * x2 * x2)) + ((-21int) * (x1 * x2 * x2 * y2))) + (((-14int) * (x2 * x2 * x2 * y2)) + ((-1int) * (y1 * y1 * y1 * y1 * y2)))))) + ((((1int * (y1 * y1 * y1 * y2 * y2)) + ((1int * (y1 * y1 * y2 * y2 * y2)) + (1int * (x1 * x1 * x1 * y1 * y1 * y2)))) + (((-1int) * (x1 * x1 * x1 * y1 * y2 * y2)) + (((-1int) * (x1 * x1 * x1 * y2 * y2 * y2)) + ((-3int) * (x1 * x1 * y1 * y1 * x2 * y2))))) + ((((-3int) * (x1 * y1 * y1 * y1 * x2 * x2)) + ((3int * (x1 * y1 * y1 * x2 * x2 * y2)) + (2int * (y1 * y1 * x2 * x2 * x2 * y2)))) + (((3int * (x1 * x1 * x1 * x1 * x1 * x2 * y2)) + (3int * (x1 * x1 * x1 * x1 * y1 * x2 * x2))) + (((-3int) * (x1 * x1 * x1 * x1 * x2 * x2 * y2)) + ((-2int) * (x1 * x1 * x1 * x2 * x2 * x2 * y2))))))));
}

#[verifier::rlimit(40)]
proof fn lemma_chord_identity_x_part4(x1: int, y1: int, x2: int, y2: int)
    ensures
        ((((((((((-14) * y2) + (21 * y1)) + ((-1) * ((y1 * y2) * y2))) + ((-3) * (((x1 * y1) * x2) * x2))) + ((-3) * (((x1 * x1) * x2) * y2))) + (3 * (((x1 * x1) * y1) * x2))) + (1 * (((x1 * x1) * x1) * y2))) + (3 * (((x1 * x1) * x1) * y1))) * (((y2 * y2) - ((x2 * x2) * x2)) - 7)) == ((((((-147int) * (y1)) + (98int * (y2))) + ((28int * (y1 * y2 * y2)) + (((-14int) * (y2 * y2 * y2)) + ((-21int) * (x1 * x1 * x1 * y1))))) + ((((-7int) * (x1 * x1 * x1 * y2)) + (((-21int) * (x1 * x1 * y1 * x2)) + (21int * (x1 * x1 * x2 * y2)))) + ((21int * (x1 * y1 * x2 * x2)) + (((-21int) * (y1 * x2 * x2 * x2)) + (14int * (x2 * x2 * x2 * y2)))))) + (((((-1int) * (y1 * y2 * y2 * y2 * y2)) + ((3int * (x1 * x1 * x1 * y1 * y2 * y2)) + (1int * (x1 * x1 * x1 * y2 * y2 * y2)))) + ((3int * (x1 * x1 * y1 * x2 * y2 * y2)) + (((-3int) * (x1 * x1 * x2 * y2 * y2 * y2)) + ((-3int) * (x1 * y1 * x2 * x2 * y2 * y2))))) + (((1int * (y1 * x2 * x2 * x2 * y2 * y2)) + (((-3int) * (x1 * x1 * x1 * y1 * x2 * x2 * x2)) + ((-1int) * (x1 * x1 * x1 * x2 * x2 * x2 * y2)))) + (((-3int) * (x1 * x1 * y1 * x2 * x2 * x2 * x2)) + ((3int * (x1 * x1 * x2 * x2 * x2 * x2 * y2)) + (3int * (x1 * y1 * x2 * x2 * x2 * x2 * x2))))))),
{
    assert(y2 == (1int * (y2)));
    assert(((-14) * y2) == ((-14int) * (1int)) * (1int * (y2)));
    lemma_coefficient_product((-14int), (1int), 1int, (y2));
    assert((1int) * (y2) == y2) by (nonlinear_arith);
    assert(((-14) * y2) == ((-14int) * (y2)));
    assert(y1 == (1int * (y1)));
    assert((21 * y1) == (21int * (1int)) * (1int * (y1)));
    lemma_coefficient_product(21int, (1int), 1int, (y1));
    assert((1int) * (y1) == y1) by (nonlinear_arith);
    assert((21 * y1) == (21int * (y1)));
    assert((((-14) * y2) + (21 * y1)) == ((-14int) * (y2)) + (21int * (y1)));
    assert((((-14) * y2) + (21 * y1)) == ((21int * (y1)) + ((-14int) * (y2))));
    assert(y1 == (1int * (y1)));
    assert(y2 == (1int * (y2)));
    assert((y1 * y2) == (1int * (y1)) * (1int * (y2)));
    lemma_coefficient_product(1int, (y1), 1int, (y2));
    assert((y1) * (y2) == y1 * y2) by (nonlinear_arith);
    assert((y1 * y2) == (1int * (y1 * y2)));
    assert(y2 == (1int * (y2)));
    assert(((y1 * y2) * y2) == (1int * (y1 * y2)) * (1int * (y2)));
    lemma_coefficient_product(1int, (y1 * y2), 1int, (y2));
    assert((y1 * y2) * (y2) == y1 * y2 * y2) by (nonlinear_arith);
    assert(((y1 * y2) * y2) == (1int * (y1 * y2 * y2)));
    assert(((-1) * ((y1 * y2) * y2)) == ((-1int) * (1int)) * (1int * (y1 * y2 * y2)));
    lemma_coefficient_product((-1int), (1int), 1int, (y1 * y2 * y2));
    assert((1int) * (y1 * y2 * y2) == y1 * y2 * y2) by (nonlinear_arith);
    assert(((-1) * ((y1 * y2) * y2)) == ((-1int) * (y1 * y2 * y2)));
    assert(((((-14) * y2) + (21 * y1)) + ((-1) * ((y1 * y2) * y2))) == ((21int * (y1)) + ((-14int) * (y2))) + ((-1int) * (y1 * y2 * y2)));
    assert(((((-14) * y2) + (21 * y1)) + ((-1) * ((y1 * y2) * y2))) == ((21int * (y1)) + (((-14int) * (y2)) + ((-1int) * (y1 * y2 * y2)))));
    assert(x1 == (1int * (x1)));
    assert(y1 == (1int * (y1)));
    assert((x1 * y1) == (1int * (x1)) * (1int * (y1)));
    lemma_coefficient_product(1int, (x1), 1int, (y1));
    assert((x1) * (y1) == x1 * y1) by (nonlinear_arith);
    assert((x1 * y1) == (1int * (x1 * y1)));
    assert(x2 == (1int * (x2)));
    assert(((x1 * y1) * x2) == (1int * (x1 * y1)) * (1int * (x2)));
    lemma_coefficient_product(1int, (x1 * y1), 1int, (x2));
    assert((x1 * y1) * (x2) == x1 * y1 * x2) by (nonlinear_arith);
    assert(((x1 * y1) * x2) == (1int * (x1 * y1 * x2)));
    assert(x2 == (1int * (x2)));
    assert((((x1 * y1) * x2) * x2) == (1int * (x1 * y1 * x2)) * (1int * (x2)));
    lemma_coefficient_product(1int, (x1 * y1 * x2), 1int, (x2));
    assert((x1 * y1 * x2) * (x2) == x1 * y1 * x2 * x2) by (nonlinear_arith);
    assert((((x1 * y1) * x2) * x2) == (1int * (x1 * y1 * x2 * x2)));
    assert(((-3) * (((x1 * y1) * x2) * x2)) == ((-3int) * (1int)) * (1int * (x1 * y1 * x2 * x2)));
    lemma_coefficient_product((-3int), (1int), 1int, (x1 * y1 * x2 * x2));
    assert((1int) * (x1 * y1 * x2 * x2) == x1 * y1 * x2 * x2) by (nonlinear_arith);
    assert(((-3) * (((x1 * y1) * x2) * x2)) == ((-3int) * (x1 * y1 * x2 * x2)));
    assert((((((-14) * y2) + (21 * y1)) + ((-1) * ((y1 * y2) * y2))) + ((-3) * (((x1 * y1) * x2) * x2))) == ((21int * (y1)) + (((-14int) * (y2)) + ((-1int) * (y1 * y2 * y2)))) + ((-3int) * (x1 * y1 * x2 * x2)));
    assert((((((-14) * y2) + (21 * y1)) + ((-1) * ((y1 * y2) * y2))) + ((-3) * (((x1 * y1) * x2) * x2))) == (((21int * (y1)) + ((-14int) * (y2))) + (((-1int) * (y1 * y2 * y2)) + ((-3int) * (x1 * y1 * x2 * x2)))));
    assert(x1 == (1int * (x1)));
    assert(x1 == (1int * (x1)));
    assert((x1 * x1) == (1int * (x1)) * (1int * (x1)));
    lemma_coefficient_product(1int, (x1), 1int, (x1));
    assert((x1) * (x1) == x1 * x1) by (nonlinear_arith);
    assert((x1 * x1) == (1int * (x1 * x1)));
    assert(x2 == (1int * (x2)));
    assert(((x1 * x1) * x2) == (1int * (x1 * x1)) * (1int * (x2)));
    lemma_coefficient_product(1int, (x1 * x1), 1int, (x2));
    assert((x1 * x1) * (x2) == x1 * x1 * x2) by (nonlinear_arith);
    assert(((x1 * x1) * x2) == (1int * (x1 * x1 * x2)));
    assert(y2 == (1int * (y2)));
    assert((((x1 * x1) * x2) * y2) == (1int * (x1 * x1 * x2)) * (1int * (y2)));
    lemma_coefficient_product(1int, (x1 * x1 * x2), 1int, (y2));
    assert((x1 * x1 * x2) * (y2) == x1 * x1 * x2 * y2) by (nonlinear_arith);
    assert((((x1 * x1) * x2) * y2) == (1int * (x1 * x1 * x2 * y2)));
    assert(((-3) * (((x1 * x1) * x2) * y2)) == ((-3int) * (1int)) * (1int * (x1 * x1 * x2 * y2)));
    lemma_coefficient_product((-3int), (1int), 1int, (x1 * x1 * x2 * y2));
    assert((1int) * (x1 * x1 * x2 * y2) == x1 * x1 * x2 * y2) by (nonlinear_arith);
    assert(((-3) * (((x1 * x1) * x2) * y2)) == ((-3int) * (x1 * x1 * x2 * y2)));
    assert(((((((-14) * y2) + (21 * y1)) + ((-1) * ((y1 * y2) * y2))) + ((-3) * (((x1 * y1) * x2) * x2))) + ((-3) * (((x1 * x1) * x2) * y2))) == (((21int * (y1)) + ((-14int) * (y2))) + (((-1int) * (y1 * y2 * y2)) + ((-3int) * (x1 * y1 * x2 * x2)))) + ((-3int) * (x1 * x1 * x2 * y2)));
    assert(((((((-14) * y2) + (21 * y1)) + ((-1) * ((y1 * y2) * y2))) + ((-3) * (((x1 * y1) * x2) * x2))) + ((-3) * (((x1 * x1) * x2) * y2))) == (((21int * (y1)) + ((-14int) * (y2))) + (((-1int) * (y1 * y2 * y2)) + (((-3int) * (x1 * x1 * x2 * y2)) + ((-3int) * (x1 * y1 * x2 * x2))))));
    assert(x1 == (1int * (x1)));
    assert(x1 == (1int * (x1)));
    assert((x1 * x1) == (1int * (x1)) * (1int * (x1)));
    lemma_coefficient_product(1int, (x1), 1int, (x1));
    assert((x1) * (x1) == x1 * x1) by (nonlinear_arith);
    assert((x1 * x1) == (1int * (x1 * x1)));
    assert(y1 == (1int * (y1)));
    assert(((x1 * x1) * y1) == (1int * (x1 * x1)) * (1int * (y1)));
    lemma_coefficient_product(1int, (x1 * x1), 1int, (y1));
    assert((x1 * x1) * (y1) == x1 * x1 * y1) by (nonlinear_arith);
    assert(((x1 * x1) * y1) == (1int * (x1 * x1 * y1)));
    assert(x2 == (1int * (x2)));
    assert((((x1 * x1) * y1) * x2) == (1int * (x1 * x1 * y1)) * (1int * (x2)));
    lemma_coefficient_product(1int, (x1 * x1 * y1), 1int, (x2));
    assert((x1 * x1 * y1) * (x2) == x1 * x1 * y1 * x2) by (nonlinear_arith);
    assert((((x1 * x1) * y1) * x2) == (1int * (x1 * x1 * y1 * x2)));
    assert((3 * (((x1 * x1) * y1) * x2)) == (3int * (1int)) * (1int * (x1 * x1 * y1 * x2)));
    lemma_coefficient_product(3int, (1int), 1int, (x1 * x1 * y1 * x2));
    assert((1int) * (x1 * x1 * y1 * x2) == x1 * x1 * y1 * x2) by (nonlinear_arith);
    assert((3 * (((x1 * x1) * y1) * x2)) == (3int * (x1 * x1 * y1 * x2)));
    assert((((((((-14) * y2) + (21 * y1)) + ((-1) * ((y1 * y2) * y2))) + ((-3) * (((x1 * y1) * x2) * x2))) + ((-3) * (((x1 * x1) * x2) * y2))) + (3 * (((x1 * x1) * y1) * x2))) == (((21int * (y1)) + ((-14int) * (y2))) + (((-1int) * (y1 * y2 * y2)) + (((-3int) * (x1 * x1 * x2 * y2)) + ((-3int) * (x1 * y1 * x2 * x2))))) + (3int * (x1 * x1 * y1 * x2)));
    assert((((((((-14) * y2) + (21 * y1)) + ((-1) * ((y1 * y2) * y2))) + ((-3) * (((x1 * y1) * x2) * x2))) + ((-3) * (((x1 * x1) * x2) * y2))) + (3 * (((x1 * x1) * y1) * x2))) == (((21int * (y1)) + (((-14int) * (y2)) + ((-1int) * (y1 * y2 * y2)))) + ((3int * (x1 * x1 * y1 * x2)) + (((-3int) * (x1 * x1 * x2 * y2)) + ((-3int) * (x1 * y1 * x2 * x2))))));
    assert(x1 == (1int * (x1)));
    assert(x1 == (1int * (x1)));
    assert((x1 * x1) == (1int * (x1)) * (1int * (x1)));
    lemma_coefficient_product(1int, (x1), 1int, (x1));
    assert((x1) * (x1) == x1 * x1) by (nonlinear_arith);
    assert((x1 * x1) == (1int * (x1 * x1)));
    assert(x1 == (1int * (x1)));
    assert(((x1 * x1) * x1) == (1int * (x1 * x1)) * (1int * (x1)));
    lemma_coefficient_product(1int, (x1 * x1), 1int, (x1));
    assert((x1 * x1) * (x1) == x1 * x1 * x1) by (nonlinear_arith);
    assert(((x1 * x1) * x1) == (1int * (x1 * x1 * x1)));
    assert(y2 == (1int * (y2)));
    assert((((x1 * x1) * x1) * y2) == (1int * (x1 * x1 * x1)) * (1int * (y2)));
    lemma_coefficient_product(1int, (x1 * x1 * x1), 1int, (y2));
    assert((x1 * x1 * x1) * (y2) == x1 * x1 * x1 * y2) by (nonlinear_arith);
    assert((((x1 * x1) * x1) * y2) == (1int * (x1 * x1 * x1 * y2)));
    assert((1 * (((x1 * x1) * x1) * y2)) == (1int * (1int)) * (1int * (x1 * x1 * x1 * y2)));
    lemma_coefficient_product(1int, (1int), 1int, (x1 * x1 * x1 * y2));
    assert((1int) * (x1 * x1 * x1 * y2) == x1 * x1 * x1 * y2) by (nonlinear_arith);
    assert((1 * (((x1 * x1) * x1) * y2)) == (1int * (x1 * x1 * x1 * y2)));
    assert(((((((((-14) * y2) + (21 * y1)) + ((-1) * ((y1 * y2) * y2))) + ((-3) * (((x1 * y1) * x2) * x2))) + ((-3) * (((x1 * x1) * x2) * y2))) + (3 * (((x1 * x1) * y1) * x2))) + (1 * (((x1 * x1) * x1) * y2))) == (((21int * (y1)) + (((-14int) * (y2)) + ((-1int) * (y1 * y2 * y2)))) + ((3int * (x1 * x1 * y1 * x2)) + (((-3int) * (x1 * x1 * x2 * y2)) + ((-3int) * (x1 * y1 * x2 * x2))))) + (1int * (x1 * x1 * x1 * y2)));
    assert(((((((((-14) * y2) + (21 * y1)) + ((-1) * ((y1 * y2) * y2))) + ((-3) * (((x1 * y1) * x2) * x2))) + ((-3) * (((x1 * x1) * x2) * y2))) + (3 * (((x1 * x1) * y1) * x2))) + (1 * (((x1 * x1) * x1) * y2))) == (((21int * (y1)) + (((-14int) * (y2)) + ((-1int) * (y1 * y2 * y2)))) + (((1int * (x1 * x1 * x1 * y2)) + (3int * (x1 * x1 * y1 * x2))) + (((-3int) * (x1 * x1 * x2 * y2)) + ((-3int) * (x1 * y1 * x2 * x2))))));
    assert(x1 == (1int * (x1)));
    assert(x1 == (1int * (x1)));
    assert((x1 * x1) == (1int * (x1)) * (1int * (x1)));
    lemma_coefficient_product(1int, (x1), 1int, (x1));
    assert((x1) * (x1) == x1 * x1) by (nonlinear_arith);
    assert((x1 * x1) == (1int * (x1 * x1)));
    assert(x1 == (1int * (x1)));
    assert(((x1 * x1) * x1) == (1int * (x1 * x1)) * (1int * (x1)));
    lemma_coefficient_product(1int, (x1 * x1), 1int, (x1));
    assert((x1 * x1) * (x1) == x1 * x1 * x1) by (nonlinear_arith);
    assert(((x1 * x1) * x1) == (1int * (x1 * x1 * x1)));
    assert(y1 == (1int * (y1)));
    assert((((x1 * x1) * x1) * y1) == (1int * (x1 * x1 * x1)) * (1int * (y1)));
    lemma_coefficient_product(1int, (x1 * x1 * x1), 1int, (y1));
    assert((x1 * x1 * x1) * (y1) == x1 * x1 * x1 * y1) by (nonlinear_arith);
    assert((((x1 * x1) * x1) * y1) == (1int * (x1 * x1 * x1 * y1)));
    assert((3 * (((x1 * x1) * x1) * y1)) == (3int * (1int)) * (1int * (x1 * x1 * x1 * y1)));
    lemma_coefficient_product(3int, (1int), 1int, (x1 * x1 * x1 * y1));
    assert((1int) * (x1 * x1 * x1 * y1) == x1 * x1 * x1 * y1) by (nonlinear_arith);
    assert((3 * (((x1 * x1) * x1) * y1)) == (3int * (x1 * x1 * x1 * y1)));
    assert((((((((((-14) * y2) + (21 * y1)) + ((-1) * ((y1 * y2) * y2))) + ((-3) * (((x1 * y1) * x2) * x2))) + ((-3) * (((x1 * x1) * x2) * y2))) + (3 * (((x1 * x1) * y1) * x2))) + (1 * (((x1 * x1) * x1) * y2))) + (3 * (((x1 * x1) * x1) * y1))) == (((21int * (y1)) + (((-14int) * (y2)) + ((-1int) * (y1 * y2 * y2)))) + (((1int * (x1 * x1 * x1 * y2)) + (3int * (x1 * x1 * y1 * x2))) + (((-3int) * (x1 * x1 * x2 * y2)) + ((-3int) * (x1 * y1 * x2 * x2))))) + (3int * (x1 * x1 * x1 * y1)));
    assert((((((((((-14) * y2) + (21 * y1)) + ((-1) * ((y1 * y2) * y2))) + ((-3) * (((x1 * y1) * x2) * x2))) + ((-3) * (((x1 * x1) * x2) * y2))) + (3 * (((x1 * x1) * y1) * x2))) + (1 * (((x1 * x1) * x1) * y2))) + (3 * (((x1 * x1) * x1) * y1))) == ((((21int * (y1)) + ((-14int) * (y2))) + (((-1int) * (y1 * y2 * y2)) + (3int * (x1 * x1 * x1 * y1)))) + (((1int * (x1 * x1 * x1 * y2)) + (3int * (x1 * x1 * y1 * x2))) + (((-3int) * (x1 * x1 * x2 * y2)) + ((-3int) * (x1 * y1 * x2 * x2))))));
    assert(y2 == (1int * (y2)));
    assert(y2 == (1int * (y2)));
    assert((y2 * y2) == (1int * (y2)) * (1int * (y2)));
    lemma_coefficient_product(1int, (y2), 1int, (y2));
    assert((y2) * (y2) == y2 * y2) by (nonlinear_arith);
    assert((y2 * y2) == (1int * (y2 * y2)));
    assert(x2 == (1int * (x2)));
    assert(x2 == (1int * (x2)));
    assert((x2 * x2) == (1int * (x2)) * (1int * (x2)));
    lemma_coefficient_product(1int, (x2), 1int, (x2));
    assert((x2) * (x2) == x2 * x2) by (nonlinear_arith);
    assert((x2 * x2) == (1int * (x2 * x2)));
    assert(x2 == (1int * (x2)));
    assert(((x2 * x2) * x2) == (1int * (x2 * x2)) * (1int * (x2)));
    lemma_coefficient_product(1int, (x2 * x2), 1int, (x2));
    assert((x2 * x2) * (x2) == x2 * x2 * x2) by (nonlinear_arith);
    assert(((x2 * x2) * x2) == (1int * (x2 * x2 * x2)));
    assert(((y2 * y2) - ((x2 * x2) * x2)) == (1int * (y2 * y2)) - (1int * (x2 * x2 * x2)));
    assert(((y2 * y2) - ((x2 * x2) * x2)) == ((1int * (y2 * y2)) + ((-1int) * (x2 * x2 * x2))));
    assert((((y2 * y2) - ((x2 * x2) * x2)) - 7) == ((1int * (y2 * y2)) + ((-1int) * (x2 * x2 * x2))) - (7int * (1int)));
    assert((((y2 * y2) - ((x2 * x2) * x2)) - 7) == (((-7int) * (1int)) + ((1int * (y2 * y2)) + ((-1int) * (x2 * x2 * x2)))));
    assert(((((((((((-14) * y2) + (21 * y1)) + ((-1) * ((y1 * y2) * y2))) + ((-3) * (((x1 * y1) * x2) * x2))) + ((-3) * (((x1 * x1) * x2) * y2))) + (3 * (((x1 * x1) * y1) * x2))) + (1 * (((x1 * x1) * x1) * y2))) + (3 * (((x1 * x1) * x1) * y1))) * (((y2 * y2) - ((x2 * x2) * x2)) - 7)) == ((((21int * (y1)) + ((-14int) * (y2))) + (((-1int) * (y1 * y2 * y2)) + (3int * (x1 * x1 * x1 * y1)))) + (((1int * (x1 * x1 * x1 * y2)) + (3int * (x1 * x1 * y1 * x2))) + (((-3int) * (x1 * x1 * x2 * y2)) + ((-3int) * (x1 * y1 * x2 * x2))))) * (((-7int) * (1int)) + ((1int * (y2 * y2)) + ((-1int) * (x2 * x2 * x2)))));
    lemma_mul_is_distributive_add_other_way((((-7int) * (1int)) + ((1int * (y2 * y2)) + ((-1int) * (x2 * x2 * x2)))), (((21int * (y1)) + ((-14int) * (y2))) + (((-1int) * (y1 * y2 * y2)) + (3int * (x1 * x1 * x1 * y1)))), (((1int * (x1 * x1 * x1 * y2)) + (3int * (x1 * x1 * y1 * x2))) + (((-3int) * (x1 * x1 * x2 * y2)) + ((-3int) * (x1 * y1 * x2 * x2)))));
    lemma_mul_is_distributive_add_other_way((((-7int) * (1int)) + ((1int * (y2 * y2)) + ((-1int) * (x2 * x2 * x2)))), ((21int * (y1)) + ((-14int) * (y2))), (((-1int) * (y1 * y2 * y2)) + (3int * (x1 * x1 * x1 * y1))));
    lemma_mul_is_distributive_add_other_way((((-7int) * (1int)) + ((1int * (y2 * y2)) + ((-1int) * (x2 * x2 * x2)))), (21int * (y1)), ((-14int) * (y2)));
    lemma_mul_is_distributive_add_other_way((((-7int) * (1int)) + ((1int * (y2 * y2)) + ((-1int) * (x2 * x2 * x2)))), ((-1int) * (y1 * y2 * y2)), (3int * (x1 * x1 * x1 * y1)));
    lemma_mul_is_distributive_add_other_way((((-7int) * (1int)) + ((1int * (y2 * y2)) + ((-1int) * (x2 * x2 * x2)))), ((1int * (x1 * x1 * x1 * y2)) + (3int * (x1 * x1 * y1 * x2))), (((-3int) * (x1 * x1 * x2 * y2)) + ((-3int) * (x1 * y1 * x2 * x2))));
    lemma_mul_is_distributive_add_other_way((((-7int) * (1int)) + ((1int * (y2 * y2)) + ((-1int) * (x2 * x2 * x2)))), (1int * (x1 * x1 * x1 * y2)), (3int * (x1 * x1 * y1 * x2)));
    lemma_mul_is_distributive_add_other_way((((-7int) * (1int)) + ((1int * (y2 * y2)) + ((-1int) * (x2 * x2 * x2)))), ((-3int) * (x1 * x1 * x2 * y2)), ((-3int) * (x1 * y1 * x2 * x2)));
    lemma_mul_is_distributive_add((21int * (y1)), ((-7int) * (1int)), ((1int * (y2 * y2)) + ((-1int) * (x2 * x2 * x2))));
    lemma_mul_is_distributive_add((21int * (y1)), (1int * (y2 * y2)), ((-1int) * (x2 * x2 * x2)));
    lemma_coefficient_product(21int, (y1), (-7int), (1int));
    assert((y1) * (1int) == y1) by (nonlinear_arith);
    lemma_coefficient_product(21int, (y1), 1int, (y2 * y2));
    assert((y1) * (y2 * y2) == y1 * y2 * y2) by (nonlinear_arith);
    lemma_coefficient_product(21int, (y1), (-1int), (x2 * x2 * x2));
    assert((y1) * (x2 * x2 * x2) == y1 * x2 * x2 * x2) by (nonlinear_arith);
    lemma_mul_is_distributive_add(((-14int) * (y2)), ((-7int) * (1int)), ((1int * (y2 * y2)) + ((-1int) * (x2 * x2 * x2))));
    lemma_mul_is_distributive_add(((-14int) * (y2)), (1int * (y2 * y2)), ((-1int) * (x2 * x2 * x2)));
    lemma_coefficient_product((-14int), (y2), (-7int), (1int));
    assert((y2) * (1int) == y2) by (nonlinear_arith);
    lemma_coefficient_product((-14int), (y2), 1int, (y2 * y2));
    assert((y2) * (y2 * y2) == y2 * y2 * y2) by (nonlinear_arith);
    lemma_coefficient_product((-14int), (y2), (-1int), (x2 * x2 * x2));
    assert((y2) * (x2 * x2 * x2) == x2 * x2 * x2 * y2) by (nonlinear_arith);
    lemma_mul_is_distributive_add(((-1int) * (y1 * y2 * y2)), ((-7int) * (1int)), ((1int * (y2 * y2)) + ((-1int) * (x2 * x2 * x2))));
    lemma_mul_is_distributive_add(((-1int) * (y1 * y2 * y2)), (1int * (y2 * y2)), ((-1int) * (x2 * x2 * x2)));
    lemma_coefficient_product((-1int), (y1 * y2 * y2), (-7int), (1int));
    assert((y1 * y2 * y2) * (1int) == y1 * y2 * y2) by (nonlinear_arith);
    lemma_coefficient_product((-1int), (y1 * y2 * y2), 1int, (y2 * y2));
    assert((y1 * y2 * y2) * (y2 * y2) == y1 * y2 * y2 * y2 * y2) by (nonlinear_arith);
    lemma_coefficient_product((-1int), (y1 * y2 * y2), (-1int), (x2 * x2 * x2));
    assert((y1 * y2 * y2) * (x2 * x2 * x2) == y1 * x2 * x2 * x2 * y2 * y2) by (nonlinear_arith);
    lemma_mul_is_distributive_add((3int * (x1 * x1 * x1 * y1)), ((-7int) * (1int)), ((1int * (y2 * y2)) + ((-1int) * (x2 * x2 * x2))));
    lemma_mul_is_distributive_add((3int * (x1 * x1 * x1 * y1)), (1int * (y2 * y2)), ((-1int) * (x2 * x2 * x2)));
    lemma_coefficient_product(3int, (x1 * x1 * x1 * y1), (-7int), (1int));
    assert((x1 * x1 * x1 * y1) * (1int) == x1 * x1 * x1 * y1) by (nonlinear_arith);
    lemma_coefficient_product(3int, (x1 * x1 * x1 * y1), 1int, (y2 * y2));
    assert((x1 * x1 * x1 * y1) * (y2 * y2) == x1 * x1 * x1 * y1 * y2 * y2) by (nonlinear_arith);
    lemma_coefficient_product(3int, (x1 * x1 * x1 * y1), (-1int), (x2 * x2 * x2));
    assert((x1 * x1 * x1 * y1) * (x2 * x2 * x2) == x1 * x1 * x1 * y1 * x2 * x2 * x2) by (nonlinear_arith);
    lemma_mul_is_distributive_add((1int * (x1 * x1 * x1 * y2)), ((-7int) * (1int)), ((1int * (y2 * y2)) + ((-1int) * (x2 * x2 * x2))));
    lemma_mul_is_distributive_add((1int * (x1 * x1 * x1 * y2)), (1int * (y2 * y2)), ((-1int) * (x2 * x2 * x2)));
    lemma_coefficient_product(1int, (x1 * x1 * x1 * y2), (-7int), (1int));
    assert((x1 * x1 * x1 * y2) * (1int) == x1 * x1 * x1 * y2) by (nonlinear_arith);
    lemma_coefficient_product(1int, (x1 * x1 * x1 * y2), 1int, (y2 * y2));
    assert((x1 * x1 * x1 * y2) * (y2 * y2) == x1 * x1 * x1 * y2 * y2 * y2) by (nonlinear_arith);
    lemma_coefficient_product(1int, (x1 * x1 * x1 * y2), (-1int), (x2 * x2 * x2));
    assert((x1 * x1 * x1 * y2) * (x2 * x2 * x2) == x1 * x1 * x1 * x2 * x2 * x2 * y2) by (nonlinear_arith);
    lemma_mul_is_distributive_add((3int * (x1 * x1 * y1 * x2)), ((-7int) * (1int)), ((1int * (y2 * y2)) + ((-1int) * (x2 * x2 * x2))));
    lemma_mul_is_distributive_add((3int * (x1 * x1 * y1 * x2)), (1int * (y2 * y2)), ((-1int) * (x2 * x2 * x2)));
    lemma_coefficient_product(3int, (x1 * x1 * y1 * x2), (-7int), (1int));
    assert((x1 * x1 * y1 * x2) * (1int) == x1 * x1 * y1 * x2) by (nonlinear_arith);
    lemma_coefficient_product(3int, (x1 * x1 * y1 * x2), 1int, (y2 * y2));
    assert((x1 * x1 * y1 * x2) * (y2 * y2) == x1 * x1 * y1 * x2 * y2 * y2) by (nonlinear_arith);
    lemma_coefficient_product(3int, (x1 * x1 * y1 * x2), (-1int), (x2 * x2 * x2));
    assert((x1 * x1 * y1 * x2) * (x2 * x2 * x2) == x1 * x1 * y1 * x2 * x2 * x2 * x2) by (nonlinear_arith);
    lemma_mul_is_distributive_add(((-3int) * (x1 * x1 * x2 * y2)), ((-7int) * (1int)), ((1int * (y2 * y2)) + ((-1int) * (x2 * x2 * x2))));
    lemma_mul_is_distributive_add(((-3int) * (x1 * x1 * x2 * y2)), (1int * (y2 * y2)), ((-1int) * (x2 * x2 * x2)));
    lemma_coefficient_product((-3int), (x1 * x1 * x2 * y2), (-7int), (1int));
    assert((x1 * x1 * x2 * y2) * (1int) == x1 * x1 * x2 * y2) by (nonlinear_arith);
    lemma_coefficient_product((-3int), (x1 * x1 * x2 * y2), 1int, (y2 * y2));
    assert((x1 * x1 * x2 * y2) * (y2 * y2) == x1 * x1 * x2 * y2 * y2 * y2) by (nonlinear_arith);
    lemma_coefficient_product((-3int), (x1 * x1 * x2 * y2), (-1int), (x2 * x2 * x2));
    assert((x1 * x1 * x2 * y2) * (x2 * x2 * x2) == x1 * x1 * x2 * x2 * x2 * x2 * y2) by (nonlinear_arith);
    lemma_mul_is_distributive_add(((-3int) * (x1 * y1 * x2 * x2)), ((-7int) * (1int)), ((1int * (y2 * y2)) + ((-1int) * (x2 * x2 * x2))));
    lemma_mul_is_distributive_add(((-3int) * (x1 * y1 * x2 * x2)), (1int * (y2 * y2)), ((-1int) * (x2 * x2 * x2)));
    lemma_coefficient_product((-3int), (x1 * y1 * x2 * x2), (-7int), (1int));
    assert((x1 * y1 * x2 * x2) * (1int) == x1 * y1 * x2 * x2) by (nonlinear_arith);
    lemma_coefficient_product((-3int), (x1 * y1 * x2 * x2), 1int, (y2 * y2));
    assert((x1 * y1 * x2 * x2) * (y2 * y2) == x1 * y1 * x2 * x2 * y2 * y2) by (nonlinear_arith);
    lemma_coefficient_product((-3int), (x1 * y1 * x2 * x2), (-1int), (x2 * x2 * x2));
    assert((x1 * y1 * x2 * x2) * (x2 * x2 * x2) == x1 * y1 * x2 * x2 * x2 * x2 * x2) by (nonlinear_arith);
    assert(((((((((((-14) * y2) + (21 * y1)) + ((-1) * ((y1 * y2) * y2))) + ((-3) * (((x1 * y1) * x2) * x2))) + ((-3) * (((x1 * x1) * x2) * y2))) + (3 * (((x1 * x1) * y1) * x2))) + (1 * (((x1 * x1) * x1) * y2))) + (3 * (((x1 * x1) * x1) * y1))) * (((y2 * y2) - ((x2 * x2) * x2)) - 7)) == ((((((-147int) * (y1)) + (98int * (y2))) + ((28int * (y1 * y2 * y2)) + (((-14int) * (y2 * y2 * y2)) + ((-21int) * (x1 * x1 * x1 * y1))))) + ((((-7int) * (x1 * x1 * x1 * y2)) + (((-21int) * (x1 * x1 * y1 * x2)) + (21int * (x1 * x1 * x2 * y2)))) + ((21int * (x1 * y1 * x2 * x2)) + (((-21int) * (y1 * x2 * x2 * x2)) + (14int * (x2 * x2 * x2 * y2)))))) + (((((-1int) * (y1 * y2 * y2 * y2 * y2)) + ((3int * (x1 * x1 * x1 * y1 * y2 * y2)) + (1int * (x1 * x1 * x1 * y2 * y2 * y2)))) + ((3int * (x1 * x1 * y1 * x2 * y2 * y2)) + (((-3int) * (x1 * x1 * x2 * y2 * y2 * y2)) + ((-3int) * (x1 * y1 * x2 * x2 * y2 * y2))))) + (((1int * (y1 * x2 * x2 * x2 * y2 * y2)) + (((-3int) * (x1 * x1 * x1 * y1 * x2 * x2 * x2)) + ((-1int) * (x1 * x1 * x1 * x2 * x2 * x2 * y2)))) + (((-3int) * (x1 * x1 * y1 * x2 * x2 * x2 * x2)) + ((3int * (x1 * x1 * x2 * x2 * x2 * x2 * y2)) + (3int * (x1 * y1 * x2 * x2 * x2 * x2 * x2))))))));
}

/// Polynomial identity behind the x coordinate of the chord rule.
pub proof fn lemma_chord_identity_x(x1: int, y1: int, x2: int, y2: int)
    ensures
        ((((((x1 * y2) + (y1 * x2)) * ((y1 * y2) - 21)) - ((21 * (y1 + y2)) * (x1 + x2))) * ((x2 - x1) * (x2 - x1))) - ((((y2 - y1) * (y2 - y1)) - ((x1 + x2) * ((x2 - x1) * (x2 - x1)))) * (((y1 + y2) * ((y1 * y2) + 21)) + ((3 * (x1 * x2)) * ((x1 * y2) + (y1 * x2)))))) == (((((((((((14 * y2) + (1 * ((y2 * y2) * y2))) + (2 * (((x2 * x2) * x2) * y2))) + ((-21) * y1)) + (1 * ((y1 * y2) * y2))) + ((-1) * ((y1 * y1) * y2))) + (3 * (((x1 * x2) * x2) * y2))) + ((-3) * (((x1 * y1) * x2) * x2))) + ((-3) * (((x1 * x1) * x2) * y2))) * (((y1 * y1) - ((x1 * x1) * x1)) - 7)) + ((((((((((-14) * y2) + (21 * y1)) + ((-1) * ((y1 * y2) * y2))) + ((-3) * (((x1 * y1) * x2) * x2))) + ((-3) * (((x1 * x1) * x2) * y2))) + (3 * (((x1 * x1) * y1) * x2))) + (1 * (((x1 * x1) * x1) * y2))) + (3 * (((x1 * x1) * x1) * y1))) * (((y2 * y2) - ((x2 * x2) * x2)) - 7))),
{
    lemma_chord_identity_x_part1(x1, y1, x2, y2);
    lemma_chord_identity_x_part2(x1, y1, x2, y2);
    lemma_chord_identity_x_part3(x1, y1, x2, y2);
    lemma_chord_identity_x_part4(x1, y1, x2, y2);
}

/// On the curve, the sum of two points given with `z = 1` has `x3 d^2 == (u^2 - s d^2) z3`.
pub proof fn lemma_chord_x(x1: int, y1: int, x2: int, y2: int)
    requires
        modp((((y1 * y1) - ((x1 * x1) * x1)) - 7)) == 0,
        modp((((y2 * y2) - ((x2 * x2) * x2)) - 7)) == 0,
    ensures
        modp(((((((x1 * y2) + (y1 * x2)) * ((y1 * y2) - 21)) - ((21 * (y1 + y2)) * (x1 + x2))) * ((x2 - x1) * (x2 - x1))) - ((((y2 - y1) * (y2 - y1)) - ((x1 + x2) * ((x2 - x1) * (x2 - x1)))) * (((y1 + y2) * ((y1 * y2) + 21)) + ((3 * (x1 * x2)) * ((x1 * y2) + (y1 * x2))))))) == 0,
{
    lemma_chord_identity_x(x1, y1, x2, y2);
    lemma_multiple_of_zero((((((((((14 * y2) + (1 * ((y2 * y2) * y2))) + (2 * (((x2 * x2) * x2) * y2))) + ((-21) * y1)) + (1 * ((y1 * y2) * y2))) + ((-1) * ((y1 * y1) * y2))) + (3 * (((x1 * x2) * x2) * y2))) + ((-3) * (((x1 * y1) * x2) * x2))) + ((-3) * (((x1 * x1) * x2) * y2))), (((y1 * y1) - ((x1 * x1) * x1)) - 7));
    lemma_multiple_of_zero((((((((((-14) * y2) + (21 * y1)) + ((-1) * ((y1 * y2) * y2))) + ((-3) * (((x1 * y1) * x2) * x2))) + ((-3) * (((x1 * x1) * x2) * y2))) + (3 * (((x1 * x1) * y1) * x2))) + (1 * (((x1 * x1) * x1) * y2))) + (3 * (((x1 * x1) * x1) * y1))), (((y2 * y2) - ((x2 * x2) * x2)) - 7));
    lemma_sum_of_zeros(((((((((((14 * y2) + (1 * ((y2 * y2) * y2))) + (2 * (((x2 * x2) * x2) * y2))) + ((-21) * y1)) + (1 * ((y1 * y2) * y2))) + ((-1) * ((y1 * y1) * y2))) + (3 * (((x1 * x2) * x2) * y2))) + ((-3) * (((x1 * y1) * x2) * x2))) + ((-3) * (((x1 * x1) * x2) * y2))) * (((y1 * y1) - ((x1 * x1) * x1)) - 7)), ((((((((((-14) * y2) + (21 * y1)) + ((-1) * ((y1 * y2) * y2))) + ((-3) * (((x1 * y1) * x2) * x2))) + ((-3) * (((x1 * x1) * x2) * y2))) + (3 * (((x1 * x1) * y1) * x2))) + (1 * (((x1 * x1) * x1) * y2))) + (3 * (((x1 * x1) * x1) * y1))) * (((y2 * y2) - ((x2 * x2) * x2)) - 7)));
}

#[verifier::rlimit(40)]
proof fn lemma_chord_identity_y_part1(x1: int, y1: int, x2: int, y2: int)
    ensures
        (((((y1 * y2) + 21) * ((y1 * y2) - 21)) + ((63 * (x1 * x2)) * (x1 + x2))) * (((x2 - x1) * (x2 - x1)) * (x2 - x1))) == ((((441int * (x1 * x1 * x1)) + (((-1323int) * (x1 * x1 * x2)) + (1323int * (x1 * x2 * x2)))) + (((-441int) * (x2 * x2 * x2)) + (((-63int) * (x1 * x1 * x1 * x1 * x1 * x2)) + (126int * (x1 * x1 * x1 * x1 * x2 * x2))))) + ((((-126int) * (x1 * x1 * x2 * x2 * x2 * x2)) + ((63int * (x1 * x2 * x2 * x2 * x2 * x2)) + ((-1int) * (x1 * x1 * x1 * y1 * y1 * y2 * y2)))) + ((3int * (x1 * x1 * y1 * y1 * x2 * y2 * y2)) + (((-3int) * (x1 * y1 * y1 * x2 * x2 * y2 * y2)) + (1int * (y1 * y1 * x2 * x2 * x2 * y2 * y2)))))),
{
    assert(y1 == (1int * (y1)));
    assert(y2 == (1int * (y2)));
    assert((y1 * y2) == (1int * (y1)) * (1int * (y2)));
    lemma_coefficient_product(1int, (y1), 1int, (y2));
    assert((y1) * (y2) == y1 * y2) by (nonlinear_arith);
    assert((y1 * y2) == (1int * (y1 * y2)));
    assert(((y1 * y2) + 21) == (1int * (y1 * y2)) + (21int * (1int)));
    assert(((y1 * y2) + 21) == ((21int * (1int)) + (1int * (y1 * y2))));
    assert(y1 == (1int * (y1)));
    assert(y2 == (1int * (y2)));
    assert((y1 * y2) == (1int * (y1)) * (1int * (y2)));
    lemma_coefficient_product(1int, (y1), 1int, (y2));
    assert((y1) * (y2) == y1 * y2) by (nonlinear_arith);
    assert((y1 * y2) == (1int * (y1 * y2)));
    assert(((y1 * y2) - 21) == (1int * (y1 * y2)) - (21int * (1int)));
    assert(((y1 * y2) - 21) == (((-21int) * (1int)) + (1int * (y1 * y2))));
    assert((((y1 * y2) + 21) * ((y1 * y2) - 21)) == ((21int * (1int)) + (1int * (y1 * y2))) * (((-21int) * (1int)) + (1int * (y1 * y2))));
    lemma_mul_is_distributive_add_other_way((((-21int) * (1int)) + (1int * (y1 * y2))), (21int * (1int)), (1int * (y1 * y2)));
    lemma_mul_is_distributive_add((21int * (1int)), ((-21int) * (1int)), (1int * (y1 * y2)));
    lemma_coefficient_product(21int, (1int), (-21int), (1int));
    assert((1int) * (1int) == 1int) by (nonlinear_arith);
    lemma_coefficient_product(21int, (1int), 1int, (y1 * y2));
    assert((1int) * (y1 * y2) == y1 * y2) by (nonlinear_arith);
    lemma_mul_is_distributive_add((1int * (y1 * y2)), ((-21int) * (1int)), (1int * (y1 * y2)));
    lemma_coefficient_product(1int, (y1 * y2), (-21int), (1int));
    assert((y1 * y2) * (1int) == y1 * y2) by (nonlinear_arith);
    lemma_coefficient_product(1int, (y1 * y2), 1int, (y1 * y2));
    assert((y1 * y2) * (y1 * y2) == y1 * y1 * y2 * y2) by (nonlinear_arith);
    assert((((y1 * y2) + 21) * ((y1 * y2) - 21)) == (((-441int) * (1int)) + (1int * (y1 * y1 * y2 * y2))));
    assert(x1 == (1int * (x1)));
    assert(x2 == (1int * (x2)));
    assert((x1 * x2) == (1int * (x1)) * (1int * (x2)));
    lemma_coefficient_product(1int, (x1), 1int, (x2));
    assert((x1) * (x2) == x1 * x2) by (nonlinear_arith);
    assert((x1 * x2) == (1int * (x1 * x2)));
    assert((63 * (x1 * x2)) == (63int * (1int)) * (1int * (x1 * x2)));
    lemma_coefficient_product(63int, (1int), 1int, (x1 * x2));
    assert((1int) * (x1 * x2) == x1 * x2) by (nonlinear_arith);
    assert((63 * (x1 * x2)) == (63int * (x1 * x2)));
    assert(x1 == (1int * (x1)));
    assert(x2 == (1int * (x2)));
    assert((x1 + x2) == (1int * (x1)) + (1int * (x2)));
    assert((x1 + x2) == ((1int * (x1)) + (1int * (x2))));
    assert(((63 * (x1 * x2)) * (x1 + x2)) == (63int * (x1 * x2)) * ((1int * (x1)) + (1int * (x2))));
    lemma_mul_is_distributive_add((63int * (x1 * x2)), (1int * (x1)), (1int * (x2)));
    lemma_coefficient_product(63int, (x1 * x2), 1int, (x1));
    assert((x1 * x2) * (x1) == x1 * x1 * x2) by (nonlinear_arith);
    lemma_coefficient_product(63int, (x1 * x2), 1int, (x2));
    assert((x1 * x2) * (x2) == x1 * x2 * x2) by (nonlinear_arith);
    assert(((63 * (x1 * x2)) * (x1 + x2)) == ((63int * (x1 * x1 * x2)) + (63int * (x1 * x2 * x2))));
    assert(((((y1 * y2) + 21) * ((y1 * y2) - 21)) + ((63 * (x1 * x2)) * (x1 + x2))) == (((-441int) * (1int)) + (1int * (y1 * y1 * y2 * y2))) + ((63int * (x1 * x1 * x2)) + (63int * (x1 * x2 * x2))));
    assert(((((y1 * y2) + 21) * ((y1 * y2) - 21)) + ((63 * (x1 * x2)) * (x1 + x2))) == ((((-441int) * (1int)) + (63int * (x1 * x1 * x2))) + ((63int * (x1 * x2 * x2)) + (1int * (y1 * y1 * y2 * y2)))));
    assert(x2 == (1int * (x2)));
    assert(x1 == (1int * (x1)));
    assert((x2 - x1) == (1int * (x2)) - (1int * (x1)));
    assert((x2 - x1) == (((-1int) * (x1)) + (1int * (x2))));
    assert(x2 == (1int * (x2)));
    assert(x1 == (1int * (x1)));
    assert((x2 - x1) == (1int * (x2)) - (1int * (x1)));
    assert((x2 - x1) == (((-1int) * (x1)) + (1int * (x2))));
    assert(((x2 - x1) * (x2 - x1)) == (((-1int) * (x1)) + (1int * (x2))) * (((-1int) * (x1)) + (1int * (x2))));
    lemma_mul_is_distributive_add_other_way((((-1int) * (x1)) + (1int * (x2))), ((-1int) * (x1)), (1int * (x2)));
    lemma_mul_is_distributive_add(((-1int) * (x1)), ((-1int) * (x1)), (1int * (x2)));
    lemma_coefficient_product((-1int), (x1), (-1int), (x1));
    assert((x1) * (x1) == x1 * x1) by (nonlinear_arith);
    lemma_coefficient_product((-1int), (x1), 1int, (x2));
    assert((x1) * (x2) == x1 * x2) by (nonlinear_arith);
    lemma_mul_is_distributive_add((1int * (x2)), ((-1int) * (x1)), (1int * (x2)));
    lemma_coefficient_product(1int, (x2), (-1int), (x1));
    assert((x2) * (x1) == x1 * x2) by (nonlinear_arith);
    lemma_coefficient_product(1int, (x2), 1int, (x2));
    assert((x2) * (x2) == x2 * x2) by (nonlinear_arith);
    assert(((x2 - x1) * (x2 - x1)) == ((1int * (x1 * x1)) + (((-2int) * (x1 * x2)) + (1int * (x2 * x2)))));
    assert(x2 == (1int * (x2)));
    assert(x1 == (1int * (x1)));
    assert((x2 - x1) == (1int * (x2)) - (1int * (x1)));
    assert((x2 - x1) == (((-1int) * (x1)) + (1int * (x2))));
    assert((((x2 - x1) * (x2 - x1)) * (x2 - x1)) == ((1int * (x1 * x1)) + (((-2int) * (x1 * x2)) + (1int * (x2 * x2)))) * (((-1int) * (x1)) + (1int * (x2))));
    lemma_mul_is_distributive_add_other_way((((-1int) * (x1)) + (1int * (x2))), (1int * (x1 * x1)), (((-2int) * (x1 * x2)) + (1int * (x2 * x2))));
    lemma_mul_is_distributive_add_other_way((((-1int) * (x1)) + (1int * (x2))), ((-2int) * (x1 * x2)), (1int * (x2 * x2)));
    lemma_mul_is_distributive_add((1int * (x1 * x1)), ((-1int) * (x1)), (1int * (x2)));
    lemma_coefficient_product(1int, (x1 * x1), (-1int), (x1));
    assert((x1 * x1) * (x1) == x1 * x1 * x1) by (nonlinear_arith);
    lemma_coefficient_product(1int, (x1 * x1), 1int, (x2));
    assert((x1 * x1) * (x2) == x1 * x1 * x2) by (nonlinear_arith);
    lemma_mul_is_distributive_add(((-2int) * (x1 * x2)), ((-1int) * (x1)), (1int * (x2)));
    lemma_coefficient_product((-2int), (x1 * x2), (-1int), (x1));
    assert((x1 * x2) * (x1) == x1 * x1 * x2) by (nonlinear_arith);
    lemma_coefficient_product((-2int), (x1 * x2), 1int, (x2));
    assert((x1 * x2) * (x2) == x1 * x2 * x2) by (nonlinear_arith);
    lemma_mul_is_distributive_add((1int * (x2 * x2)), ((-1int) * (x1)), (1int * (x2)));
    lemma_coefficient_product(1int, (x2 * x2), (-1int), (x1));
    assert((x2 * x2) * (x1) == x1 * x2 * x2) by (nonlinear_arith);
    lemma_coefficient_product(1int, (x2 * x2), 1int, (x2));
    assert((x2 * x2) * (x2) == x2 * x2 * x2) by (nonlinear_arith);
    assert((((x2 - x1) * (x2 - x1)) * (x2 - x1)) == ((((-1int) * (x1 * x1 * x1)) + (3int * (x1 * x1 * x2))) + (((-3int) * (x1 * x2 * x2)) + (1int * (x2 * x2 * x2)))));
    assert((((((y1 * y2) + 21) * ((y1 * y2) - 21)) + ((63 * (x1 * x2)) * (x1 + x2))) * (((x2 - x1) * (x2 - x1)) * (x2 - x1))) == ((((-441int) * (1int)) + (63int * (x1 * x1 * x2))) + ((63int * (x1 * x2 * x2)) + (1int * (y1 * y1 * y2 * y2)))) * ((((-1int) * (x1 * x1 * x1)) + (3int * (x1 * x1 * x2))) + (((-3int) * (x1 * x2 * x2)) + (1int * (x2 * x2 * x2)))));
    lemma_mul_is_distributive_add_other_way(((((-1int) * (x1 * x1 * x1)) + (3int * (x1 * x1 * x2))) + (((-3int) * (x1 * x2 * x2)) + (1int * (x2 * x2 * x2)))), (((-441int) * (1int)) + (63int * (x1 * x1 * x2))), ((63int * (x1 * x2 * x2)) + (1int * (y1 * y1 * y2 * y2))));
    lemma_mul_is_distributive_add_other_way(((((-1int) * (x1 * x1 * x1)) + (3int * (x1 * x1 * x2))) + (((-3int) * (x1 * x2 * x2)) + (1int * (x2 * x2 * x2)))), ((-441int) * (1int)), (63int * (x1 * x1 * x2)));
    lemma_mul_is_distributive_add_other_way(((((-1int) * (x1 * x1 * x1)) + (3int * (x1 * x1 * x2))) + (((-3int) * (x1 * x2 * x2)) + (1int * (x2 * x2 * x2)))), (63int * (x1 * x2 * x2)), (1int * (y1 * y1 * y2 * y2)));
    lemma_mul_is_distributive_add(((-441int) * (1int)), (((-1int) * (x1 * x1 * x1)) + (3int * (x1 * x1 * x2))), (((-3int) * (x1 * x2 * x2)) + (1int * (x2 * x2 * x2))));
    lemma_mul_is_distributive_add(((-441int) * (1int)), ((-1int) * (x1 * x1 * x1)), (3int * (x1 * x1 * x2)));
    lemma_mul_is_distributive_add(((-441int) * (1int)), ((-3int) * (x1 * x2 * x2)), (1int * (x2 * x2 * x2)));
    lemma_coefficient_product((-441int), (1int), (-1int), (x1 * x1 * x1));
    assert((1int) * (x1 * x1 * x1) == x1 * x1 * x1) by (nonlinear_arith);
    lemma_coefficient_product((-441int), (1int), 3int, (x1 * x1 * x2));
    assert((1int) * (x1 * x1 * x2) == x1 * x1 * x2) by (nonlinear_arith);
    lemma_coefficient_product((-441int), (1int), (-3int), (x1 * x2 * x2));
    assert((1int) * (x1 * x2 * x2) == x1 * x2 * x2) by (nonlinear_arith);
    lemma_coefficient_product((-441int), (1int), 1int, (x2 * x2 * x2));
    assert((1int) * (x2 * x2 * x2) == x2 * x2 * x2) by (nonlinear_arith);
    lemma_mul_is_distributive_add((63int * (x1 * x1 * x2)), (((-1int) * (x1 * x1 * x1)) + (3int * (x1 * x1 * x2))), (((-3int) * (x1 * x2 * x2)) + (1int * (x2 * x2 * x2))));
    lemma_mul_is_distributive_add((63int * (x1 * x1 * x2)), ((-1int) * (x1 * x1 * x1)), (3int * (x1 * x1 * x2)));
    lemma_mul_is_distributive_add((63int * (x1 * x1 * x2)), ((-3int) * (x1 * x2 * x2)), (1int * (x2 * x2 * x2)));
    lemma_coefficient_product(63int, (x1 * x1 * x2), (-1int), (x1 * x1 * x1));
    assert((x1 * x1 * x2) * (x1 * x1 * x1) == x1 * x1 * x1 * x1 * x1 * x2) by (nonlinear_arith);
    lemma_coefficient_product(63int, (x1 * x1 * x2), 3int, (x1 * x1 * x2));
    assert((x1 * x1 * x2) * (x1 * x1 * x2) == x1 * x1 * x1 * x1 * x2 * x2) by (nonlinear_arith);
    lemma_coefficient_product(63int, (x1 * x1 * x2), (-3int), (x1 * x2 * x2));
    assert((x1 * x1 * x2) * (x1 * x2 * x2) == x1 * x1 * x1 * x2 * x2 * x2) by (nonlinear_arith);
    lemma_coefficient_product(63int, (x1 * x1 * x2), 1int, (x2 * x2 * x2));
    assert((x1 * x1 * x2) * (x2 * x2 * x2) == x1 * x1 * x2 * x2 * x2 * x2) by (nonlinear_arith);
    lemma_mul_is_distributive_add((63int * (x1 * x2 * x2)), (((-1int) * (x1 * x1 * x1)) + (3int * (x1 * x1 * x2))), (((-3int) * (x1 * x2 * x2)) + (1int * (x2 * x2 * x2))));
    lemma_mul_is_distributive_add((63int * (x1 * x2 * x2)), ((-1int) * (x1 * x1 * x1)), (3int * (x1 * x1 * x2)));
    lemma_mul_is_distributive_add((63int * (x1 * x2 * x2)), ((-3int) * (x1 * x2 * x2)), (1int * (x2 * x2 * x2)));
    lemma_coefficient_product(63int, (x1 * x2 * x2), (-1int), (x1 * x1 * x1));
    assert((x1 * x2 * x2) * (x1 * x1 * x1) == x1 * x1 * x1 * x1 * x2 * x2) by (nonlinear_arith);
    lemma_coefficient_product(63int, (x1 * x2 * x2), 3int, (x1 * x1 * x2));
    assert((x1 * x2 * x2) * (x1 * x1 * x2) == x1 * x1 * x1 * x2 * x2 * x2) by (nonlinear_arith);
    lemma_coefficient_product(63int, (x1 * x2 * x2), (-3int), (x1 * x2 * x2));
    assert((x1 * x2 * x2) * (x1 * x2 * x2) == x1 * x1 * x2 * x2 * x2 * x2) by (nonlinear_arith);
    lemma_coefficient_product(63int, (x1 * x2 * x2), 1int, (x2 * x2 * x2));
    assert((x1 * x2 * x2) * (x2 * x2 * x2) == x1 * x2 * x2 * x2 * x2 * x2) by (nonlinear_arith);
    lemma_mul_is_distributive_add((1int * (y1 * y1 * y2 * y2)), (((-1int) * (x1 * x1 * x1)) + (3int * (x1 * x1 * x2))), (((-3int) * (x1 * x2 * x2)) + (1int * (x2 * x2 * x2))));
    lemma_mul_is_distributive_add((1int * (y1 * y1 * y2 * y2)), ((-1int) * (x1 * x1 * x1)), (3int * (x1 * x1 * x2)));
    lemma_mul_is_distributive_add((1int * (y1 * y1 * y2 * y2)), ((-3int) * (x1 * x2 * x2)), (1int * (x2 * x2 * x2)));
    lemma_coefficient_product(1int, (y1 * y1 * y2 * y2), (-1int), (x1 * x1 * x1));
    assert((y1 * y1 * y2 * y2) * (x1 * x1 * x1) == x1 * x1 * x1 * y1 * y1 * y2 * y2) by (nonlinear_arith);
    lemma_coefficient_product(1int, (y1 * y1 * y2 * y2), 3int, (x1 * x1 * x2));
    assert((y1 * y1 * y2 * y2) * (x1 * x1 * x2) == x1 * x1 * y1 * y1 * x2 * y2 * y2) by (nonlinear_arith);
    lemma_coefficient_product(1int, (y1 * y1 * y2 * y2), (-3int), (x1 * x2 * x2));
    assert((y1 * y1 * y2 * y2) * (x1 * x2 * x2) == x1 * y1 * y1 * x2 * x2 * y2 * y2) by (nonlinear_arith);
    lemma_coefficient_product(1int, (y1 * y1 * y2 * y2), 1int, (x2 * x2 * x2));
    assert((y1 * y1 * y2 * y2) * (x2 * x2 * x2) == y1 * y1 * x2 * x2 * x2 * y2 * y2) by (nonlinear_arith);
    assert((((((y1 * y2) + 21) * ((y1 * y2) - 21)) + ((63 * (x1 * x2)) * (x1 + x2))) * (((x2 - x1) * (x2 - x1)) * (x2 - x1))) == ((((441int * (x1 * x1 * x1)) + (((-1323int) * (x1 * x1 * x2)) + (1323int * (x1 * x2 * x2)))) + (((-441int) * (x2 * x2 * x2)) + (((-63int) * (x1 * x1 * x1 * x1 * x1 * x2)) + (126int * (x1 * x1 * x1 * x1 * x2 * x2))))) + ((((-126int) * (x1 * x1 * x2 * x2 * x2 * x2)) + ((63int * (x1 * x2 * x2 * x2 * x2 * x2)) + ((-1int) * (x1 * x1 * x1 * y1 * y1 * y2 * y2)))) + ((3int * (x1 * x1 * y1 * y1 * x2 * y2 * y2)) + (((-3int) * (x1 * y1 * y1 * x2 * x2 * y2 * y2)) + (1int * (y1 * y1 * x2 * x2 * x2 * y2 * y2)))))));
}

#[verifier::rlimit(40)]
proof fn lemma_chord_identity_y_part2(x1: int, y1: int, x2: int, y2: int)
    ensures
        ((((y2 - y1) * ((x1 * ((x2 - x1) * (x2 - x1))) - (((y2 - y1) * (y2 - y1)) - ((x1 + x2) * ((x2 - x1) * (x2 - x1)))))) - (y1 * (((x2 - x1) * (x2 - x1)) * (x2 - x1)))) * (((y1 + y2) * ((y1 * y2) + 21)) + ((3 * (x1 * x2)) * ((x1 * y2) + (y1 * x2))))) == ((((((21int * (y1 * y1 * y1 * y1)) + ((-42int) * (y1 * y1 * y1 * y2))) + ((42int * (y1 * y2 * y2 * y2)) + (((-21int) * (y2 * y2 * y2 * y2)) + ((-21int) * (x1 * x1 * x1 * y1 * y1))))) + (((21int * (x1 * x1 * x1 * y1 * y2)) + (42int * (x1 * x1 * x1 * y2 * y2))) + (((-63int) * (x1 * x1 * y1 * x2 * y2)) + (((-63int) * (x1 * x1 * x2 * y2 * y2)) + (63int * (x1 * y1 * y1 * x2 * x2)))))) + ((((63int * (x1 * y1 * x2 * x2 * y2)) + ((-42int) * (y1 * y1 * x2 * x2 * x2))) + (((-21int) * (y1 * x2 * x2 * x2 * y2)) + ((21int * (x2 * x2 * x2 * y2 * y2)) + (1int * (y1 * y1 * y1 * y1 * y1 * y2))))) + ((((-2int) * (y1 * y1 * y1 * y1 * y2 * y2)) + ((2int * (y1 * y1 * y2 * y2 * y2 * y2)) + ((-1int) * (y1 * y2 * y2 * y2 * y2 * y2)))) + (((-1int) * (x1 * x1 * x1 * y1 * y1 * y1 * y2)) + ((1int * (x1 * x1 * x1 * y1 * y1 * y2 * y2)) + (2int * (x1 * x1 * x1 * y1 * y2 * y2 * y2))))))) + (((((3int * (x1 * x1 * y1 * y1 * y1 * x2 * y2)) + ((-12int) * (x1 * x1 * y1 * y1 * x2 * y2 * y2))) + ((6int * (x1 * x1 * y1 * x2 * y2 * y2 * y2)) + (((-3int) * (x1 * x1 * x2 * y2 * y2 * y2 * y2)) + (3int * (x1 * y1 * y1 * y1 * y1 * x2 * x2))))) + ((((-6int) * (x1 * y1 * y1 * y1 * x2 * x2 * y2)) + (12int * (x1 * y1 * y1 * x2 * x2 * y2 * y2))) + (((-3int) * (x1 * y1 * x2 * x2 * y2 * y2 * y2)) + (((-2int) * (y1 * y1 * y1 * x2 * x2 * x2 * y2)) + ((-1int) * (y1 * y1 * x2 * x2 * x2 * y2 * y2)))))) + ((((1int * (y1 * x2 * x2 * x2 * y2 * y2 * y2)) + ((-3int) * (x1 * x1 * x1 * x1 * x1 * y1 * x2 * y2))) + ((6int * (x1 * x1 * x1 * x1 * x1 * x2 * y2 * y2)) + (((-3int) * (x1 * x1 * x1 * x1 * y1 * y1 * x2 * x2)) + (6int * (x1 * x1 * x1 * x1 * y1 * x2 * x2 * y2))))) + ((((-9int) * (x1 * x1 * x1 * x1 * x2 * x2 * y2 * y2)) + ((9int * (x1 * x1 * y1 * y1 * x2 * x2 * x2 * x2)) + ((-6int) * (x1 * x1 * y1 * x2 * x2 * x2 * x2 * y2)))) + ((3int * (x1 * x1 * x2 * x2 * x2 * x2 * y2 * y2)) + (((-6int) * (x1 * y1 * y1 * x2 * x2 * x2 * x2 * x2)) + (3int * (x1 * y1 * x2 * x2 * x2 * x2 * x2 * y2)))))))),
{
    assert(y2 == (1int * (y2)));
    assert(y1 == (1int * (y1)));
    assert((y2 - y1) == (1int * (y2)) - (1int * (y1)));
    assert((y2 - y1) == (((-1int) * (y1)) + (1int * (y2))));
    assert(x1 == (1int * (x1)));
    assert(x2 == (1int * (x2)));
    assert(x1 == (1int * (x1)));
    assert((x2 - x1) == (1int * (x2)) - (1int * (x1)));
    assert((x2 - x1) == (((-1int) * (x1)) + (1int * (x2))));
    assert(x2 == (1int * (x2)));
    assert(x1 == (1int * (x1)));
    assert((x2 - x1) == (1int * (x2)) - (1int * (x1)));
    assert((x2 - x1) == (((-1int) * (x1)) + (1int * (x2))));
    assert(((x2 - x1) * (x2 - x1)) == (((-1int) * (x1)) + (1int * (x2))) * (((-1int) * (x1)) + (1int * (x2))));
    lemma_mul_is_distributive_add_other_way((((-1int) * (x1)) + (1int * (x2))), ((-1int) * (x1)), (1int * (x2)));
    lemma_mul_is_distributive_add(((-1int) * (x1)), ((-1int) * (x1)), (1int * (x2)));
    lemma_coefficient_product((-1int), (x1), (-1int), (x1));
    assert((x1) * (x1) == x1 * x1) by (nonlinear_arith);
    lemma_coefficient_product((-1int), (x1), 1int, (x2));
    assert((x1) * (x2) == x1 * x2) by (nonlinear_arith);
    lemma_mul_is_distributive_add((1int * (x2)), ((-1int) * (x1)), (1int * (x2)));
    lemma_coefficient_product(1int, (x2), (-1int), (x1));
    assert((x2) * (x1) == x1 * x2) by (nonlinear_arith);
    lemma_coefficient_product(1int, (x2), 1int, (x2));
    assert((x2) * (x2) == x2 * x2) by (nonlinear_arith);
    assert(((x2 - x1) * (x2 - x1)) == ((1int * (x1 * x1)) + (((-2int) * (x1 * x2)) + (1int * (x2 * x2)))));
    assert((x1 * ((x2 - x1) * (x2 - x1))) == (1int * (x1)) * ((1int * (x1 * x1)) + (((-2int) * (x1 * x2)) + (1int * (x2 * x2)))));
    lemma_mul_is_distributive_add((1int * (x1)), (1int * (x1 * x1)), (((-2int) * (x1 * x2)) + (1int * (x2 * x2))));
    lemma_mul_is_distributive_add((1int * (x1)), ((-2int) * (x1 * x2)), (1int * (x2 * x2)));
    lemma_coefficient_product(1int, (x1), 1int, (x1 * x1));
    assert((x1) * (x1 * x1) == x1 * x1 * x1) by (nonlinear_arith);
    lemma_coefficient_product(1int, (x1), (-2int), (x1 * x2));
    assert((x1) * (x1 * x2) == x1 * x1 * x2) by (nonlinear_arith);
    lemma_coefficient_product(1int, (x1), 1int, (x2 * x2));
    assert((x1) * (x2 * x2) == x1 * x2 * x2) by (nonlinear_arith);
    assert((x1 * ((x2 - x1) * (x2 - x1))) == ((1int * (x1 * x1 * x1)) + (((-2int) * (x1 * x1 * x2)) + (1int * (x1 * x2 * x2)))));
    assert(y2 == (1int * (y2)));
    assert(y1 == (1int * (y1)));
    assert((y2 - y1) == (1int * (y2)) - (1int * (y1)));
    assert((y2 - y1) == (((-1int) * (y1)) + (1int * (y2))));
    assert(y2 == (1int * (y2)));
    assert(y1 == (1int * (y1)));
    assert((y2 - y1) == (1int * (y2)) - (1int * (y1)));
    assert((y2 - y1) == (((-1int) * (y1)) + (1int * (y2))));
    assert(((y2 - y1) * (y2 - y1)) == (((-1int) * (y1)) + (1int * (y2))) * (((-1int) * (y1)) + (1int * (y2))));
    lemma_mul_is_distributive_add_other_way((((-1int) * (y1)) + (1int * (y2))), ((-1int) * (y1)), (1int * (y2)));
    lemma_mul_is_distributive_add(((-1int) * (y1)), ((-1int) * (y1)), (1int * (y2)));
    lemma_coefficient_product((-1int), (y1), (-1int), (y1));
    assert((y1) * (y1) == y1 * y1) by (nonlinear_arith);
    lemma_coefficient_product((-1int), (y1), 1int, (y2));
    assert((y1) * (y2) == y1 * y2) by (nonlinear_arith);
    lemma_mul_is_distributive_add((1int * (y2)), ((-1int) * (y1)), (1int * (y2)));
    lemma_coefficient_product(1int, (y2), (-1int), (y1));
    assert((y2) * (y1) == y1 * y2) by (nonlinear_arith);
    lemma_coefficient_product(1int, (y2), 1int, (y2));
    assert((y2) * (y2) == y2 * y2) by (nonlinear_arith);
    assert(((y2 - y1) * (y2 - y1)) == ((1int * (y1 * y1)) + (((-2int) * (y1 * y2)) + (1int * (y2 * y2)))));
    assert(x1 == (1int * (x1)));
    assert(x2 == (1int * (x2)));
    assert((x1 + x2) == (1int * (x1)) + (1int * (x2)));
    assert((x1 + x2) == ((1int * (x1)) + (1int * (x2))));
    assert(x2 == (1int * (x2)));
    assert(x1 == (1int * (x1)));
    assert((x2 - x1) == (1int * (x2)) - (1int * (x1)));
    assert((x2 - x1) == (((-1int) * (x1)) + (1int * (x2))));
    assert(x2 == (1int * (x2)));
    assert(x1 == (1int * (x1)));
    assert((x2 - x1) == (1int * (x2)) - (1int * (x1)));
    assert((x2 - x1) == (((-1int) * (x1)) + (1int * (x2))));
    assert(((x2 - x1) * (x2 - x1)) == (((-1int) * (x1)) + (1int * (x2))) * (((-1int) * (x1)) + (1int * (x2))));
    lemma_mul_is_distributive_add_other_way((((-1int) * (x1)) + (1int * (x2))), ((-1int) * (x1)), (1int * (x2)));
    lemma_mul_is_distributive_add(((-1int) * (x1)), ((-1int) * (x1)), (1int * (x2)));
    lemma_coefficient_product((-1int), (x1), (-1int), (x1));
    assert((x1) * (x1) == x1 * x1) by (nonlinear_arith);
    lemma_coefficient_product((-1int), (x1), 1int, (x2));
    assert((x1) * (x2) == x1 * x2) by (nonlinear_arith);
    lemma_mul_is_distributive_add((1int * (x2)), ((-1int) * (x1)), (1int * (x2)));
    lemma_coefficient_product(1int, (x2), (-1int), (x1));
    assert((x2) * (x1) == x1 * x2) by (nonlinear_arith);
    lemma_coefficient_product(1int, (x2), 1int, (x2));
    assert((x2) * (x2) == x2 * x2) by (nonlinear_arith);
    assert(((x2 - x1) * (x2 - x1)) == ((1int * (x1 * x1)) + (((-2int) * (x1 * x2)) + (1int * (x2 * x2)))));
    assert(((x1 + x2) * ((x2 - x1) * (x2 - x1))) == ((1int * (x1)) + (1int * (x2))) * ((1int * (x1 * x1)) + (((-2int) * (x1 * x2)) + (1int * (x2 * x2)))));
    lemma_mul_is_distributive_add_other_way(((1int * (x1 * x1)) + (((-2int) * (x1 * x2)) + (1int * (x2 * x2)))), (1int * (x1)), (1int * (x2)));
    lemma_mul_is_distributive_add((1int * (x1)), (1int * (x1 * x1)), (((-2int) * (x1 * x2)) + (1int * (x2 * x2))));
    lemma_mul_is_distributive_add((1int * (x1)), ((-2int) * (x1 * x2)), (1int * (x2 * x2)));
    lemma_coefficient_product(1int, (x1), 1int, (x1 * x1));
    assert((x1) * (x1 * x1) == x1 * x1 * x1) by (nonlinear_arith);
    lemma_coefficient_product(1int, (x1), (-2int), (x1 * x2));
    assert((x1) * (x1 * x2) == x1 * x1 * x2) by (nonlinear_arith);
    lemma_coefficient_product(1int, (x1), 1int, (x2 * x2));
    assert((x1) * (x2 * x2) == x1 * x2 * x2) by (nonlinear_arith);
    lemma_mul_is_distributive_add((1int * (x2)), (1int * (x1 * x1)), (((-2int) * (x1 * x2)) + (1int * (x2 * x2))));
    lemma_mul_is_distributive_add((1int * (x2)), ((-2int) * (x1 * x2)), (1int * (x2 * x2)));
    lemma_coefficient_product(1int, (x2), 1int, (x1 * x1));
    assert((x2) * (x1 * x1) == x1 * x1 * x2) by (nonlinear_arith);
    lemma_coefficient_product(1int, (x2), (-2int), (x1 * x2));
    assert((x2) * (x1 * x2) == x1 * x2 * x2) by (nonlinear_arith);
    lemma_coefficient_product(1int, (x2), 1int, (x2 * x2));
    assert((x2) * (x2 * x2) == x2 * x2 * x2) by (nonlinear_arith);
    assert(((x1 + x2) * ((x2 - x1) * (x2 - x1))) == (((1int * (x1 * x1 * x1)) + ((-1int) * (x1 * x1 * x2))) + (((-1int) * (x1 * x2 * x2)) + (1int * (x2 * x2 * x2)))));
    assert((((y2 - y1) * (y2 - y1)) - ((x1 + x2) * ((x2 - x1) * (x2 - x1)))) == ((1int * (y1 * y1)) + (((-2int) * (y1 * y2)) + (1int * (y2 * y2)))) - (((1int * (x1 * x1 * x1)) + ((-1int) * (x1 * x1 * x2))) + (((-1int) * (x1 * x2 * x2)) + (1int * (x2 * x2 * x2)))));
    assert((((y2 - y1) * (y2 - y1)) - ((x1 + x2) * ((x2 - x1) * (x2 - x1)))) == (((1int * (y1 * y1)) + (((-2int) * (y1 * y2)) + (1int * (y2 * y2)))) + ((((-1int) * (x1 * x1 * x1)) + (1int * (x1 * x1 * x2))) + ((1int * (x1 * x2 * x2)) + ((-1int) * (x2 * x2 * x2))))));
    assert(((x1 * ((x2 - x1) * (x2 - x1))) - (((y2 - y1) * (y2 - y1)) - ((x1 + x2) * ((x2 - x1) * (x2 - x1))))) == ((1int * (x1 * x1 * x1)) + (((-2int) * (x1 * x1 * x2)) + (1int * (x1 * x2 * x2)))) - (((1int * (y1 * y1)) + (((-2int) * (y1 * y2)) + (1int * (y2 * y2)))) + ((((-1int) * (x1 * x1 * x1)) + (1int * (x1 * x1 * x2))) + ((1int * (x1 * x2 * x2)) + ((-1int) * (x2 * x2 * x2))))));
    assert(((x1 * ((x2 - x1) * (x2 - x1))) - (((y2 - y1) * (y2 - y1)) - ((x1 + x2) * ((x2 - x1) * (x2 - x1))))) == ((((-1int) * (y1 * y1)) + ((2int * (y1 * y2)) + ((-1int) * (y2 * y2)))) + ((2int * (x1 * x1 * x1)) + (((-3int) * (x1 * x1 * x2)) + (1int * (x2 * x2 * x2))))));
    assert(((y2 - y1) * ((x1 * ((x2 - x1) * (x2 - x1))) - (((y2 - y1) * (y2 - y1)) - ((x1 + x2) * ((x2 - x1) * (x2 - x1)))))) == (((-1int) * (y1)) + (1int * (y2))) * ((((-1int) * (y1 * y1)) + ((2int * (y1 * y2)) + ((-1int) * (y2 * y2)))) + ((2int * (x1 * x1 * x1)) + (((-3int) * (x1 * x1 * x2)) + (1int * (x2 * x2 * x2))))));
    lemma_mul_is_distributive_add_other_way(((((-1int) * (y1 * y1)) + ((2int * (y1 * y2)) + ((-1int) * (y2 * y2)))) + ((2int * (x1 * x1 * x1)) + (((-3int) * (x1 * x1 * x2)) + (1int * (x2 * x2 * x2))))), ((-1int) * (y1)), (1int * (y2)));
    lemma_mul_is_distributive_add(((-1int) * (y1)), (((-1int) * (y1 * y1)) + ((2int * (y1 * y2)) + ((-1int) * (y2 * y2)))), ((2int * (x1 * x1 * x1)) + (((-3int) * (x1 * x1 * x2)) + (1int * (x2 * x2 * x2)))));
    lemma_mul_is_distributive_add(((-1int) * (y1)), ((-1int) * (y1 * y1)), ((2int * (y1 * y2)) + ((-1int) * (y2 * y2))));
    lemma_mul_is_distributive_add(((-1int) * (y1)), (2int * (y1 * y2)), ((-1int) * (y2 * y2)));
    lemma_mul_is_distributive_add(((-1int) * (y1)), (2int * (x1 * x1 * x1)), (((-3int) * (x1 * x1 * x2)) + (1int * (x2 * x2 * x2))));
    lemma_mul_is_distributive_add(((-1int) * (y1)), ((-3int) * (x1 * x1 * x2)), (1int * (x2 * x2 * x2)));
    lemma_coefficient_product((-1int), (y1), (-1int), (y1 * y1));
    assert((y1) * (y1 * y1) == y1 * y1 * y1) by (nonlinear_arith);
    lemma_coefficient_product((-1int), (y1), 2int, (y1 * y2));
    assert((y1) * (y1 * y2) == y1 * y1 * y2) by (nonlinear_arith);
    lemma_coefficient_product((-1int), (y1), (-1int), (y2 * y2));
    assert((y1) * (y2 * y2) == y1 * y2 * y2) by (nonlinear_arith);
    lemma_coefficient_product((-1int), (y1), 2int, (x1 * x1 * x1));
    assert((y1) * (x1 * x1 * x1) == x1 * x1 * x1 * y1) by (nonlinear_arith);
    lemma_coefficient_product((-1int), (y1), (-3int), (x1 * x1 * x2));
    assert((y1) * (x1 * x1 * x2) == x1 * x1 * y1 * x2) by (nonlinear_arith);
    lemma_coefficient_product((-1int), (y1), 1int, (x2 * x2 * x2));
    assert((y1) * (x2 * x2 * x2) == y1 * x2 * x2 * x2) by (nonlinear_arith);
    lemma_mul_is_distributive_add((1int * (y2)), (((-1int) * (y1 * y1)) + ((2int * (y1 * y2)) + ((-1int) * (y2 * y2)))), ((2int * (x1 * x1 * x1)) + (((-3int) * (x1 * x1 * x2)) + (1int * (x2 * x2 * x2)))));
    lemma_mul_is_distributive_add((1int * (y2)), ((-1int) * (y1 * y1)), ((2int * (y1 * y2)) + ((-1int) * (y2 * y2))));
    lemma_mul_is_distributive_add((1int * (y2)), (2int * (y1 * y2)), ((-1int) * (y2 * y2)));
    lemma_mul_is_distributive_add((1int * (y2)), (2int * (x1 * x1 * x1)), (((-3int) * (x1 * x1 * x2)) + (1int * (x2 * x2 * x2))));
    lemma_mul_is_distributive_add((1int * (y2)), ((-3int) * (x1 * x1 * x2)), (1int * (x2 * x2 * x2)));
    lemma_coefficient_product(1int, (y2), (-1int), (y1 * y1));
    assert((y2) * (y1 * y1) == y1 * y1 * y2) by (nonlinear_arith);
    lemma_coefficient_product(1int, (y2), 2int, (y1 * y2));
    assert((y2) * (y1 * y2) == y1 * y2 * y2) by (nonlinear_arith);
    lemma_coefficient_product(1int, (y2), (-1int), (y2 * y2));
    assert((y2) * (y2 * y2) == y2 * y2 * y2) by (nonlinear_arith);
    lemma_coefficient_product(1int, (y2), 2int, (x1 * x1 * x1));
    assert((y2) * (x1 * x1 * x1) == x1 * x1 * x1 * y2) by (nonlinear_arith);
    lemma_coefficient_product(1int, (y2), (-3int), (x1 * x1 * x2));
    assert((y2) * (x1 * x1 * x2) == x1 * x1 * x2 * y2) by (nonlinear_arith);
    lemma_coefficient_product(1int, (y2), 1int, (x2 * x2 * x2));
    assert((y2) * (x2 * x2 * x2) == x2 * x2 * x2 * y2) by (nonlinear_arith);
    assert(((y2 - y1) * ((x1 * ((x2 - x1) * (x2 - x1))) - (((y2 - y1) * (y2 - y1)) - ((x1 + x2) * ((x2 - x1) * (x2 - x1)))))) == ((((1int * (y1 * y1 * y1)) + ((-3int) * (y1 * y1 * y2))) + ((3int * (y1 * y2 * y2)) + (((-1int) * (y2 * y2 * y2)) + ((-2int) * (x1 * x1 * x1 * y1))))) + (((2int * (x1 * x1 * x1 * y2)) + (3int * (x1 * x1 * y1 * x2))) + (((-3int) * (x1 * x1 * x2 * y2)) + (((-1int) * (y1 * x2 * x2 * x2)) + (1int * (x2 * x2 * x2 * y2)))))));
    assert(y1 == (1int * (y1)));
    assert(x2 == (1int * (x2)));
    assert(x1 == (1int * (x1)));
    assert((x2 - x1) == (1int * (x2)) - (1int * (x1)));
    assert((x2 - x1) == (((-1int) * (x1)) + (1int * (x2))));
    assert(x2 == (1int * (x2)));
    assert(x1 == (1int * (x1)));
    assert((x2 - x1) == (1int * (x2)) - (1int * (x1)));
    assert((x2 - x1) == (((-1int) * (x1)) + (1int * (x2))));
    assert(((x2 - x1) * (x2 - x1)) == (((-1int) * (x1)) + (1int * (x2))) * (((-1int) * (x1)) + (1int * (x2))));
    lemma_mul_is_distributive_add_other_way((((-1int) * (x1)) + (1int * (x2))), ((-1int) * (x1)), (1int * (x2)));
    lemma_mul_is_distributive_add(((-1int) * (x1)), ((-1int) * (x1)), (1int * (x2)));
    lemma_coefficient_product((-1int), (x1), (-1int), (x1));
    assert((x1) * (x1) == x1 * x1) by (nonlinear_arith);
    lemma_coefficient_product((-1int), (x1), 1int, (x2));
    assert((x1) * (x2) == x1 * x2) by (nonlinear_arith);
    lemma_mul_is_distributive_add((1int * (x2)), ((-1int) * (x1)), (1int * (x2)));
    lemma_coefficient_product(1int, (x2), (-1int), (x1));
    assert((x2) * (x1) == x1 * x2) by (nonlinear_arith);
    lemma_coefficient_product(1int, (x2), 1int, (x2));
    assert((x2) * (x2) == x2 * x2) by (nonlinear_arith);
    assert(((x2 - x1) * (x2 - x1)) == ((1int * (x1 * x1)) + (((-2int) * (x1 * x2)) + (1int * (x2 * x2)))));
    assert(x2 == (1int * (x2)));
    assert(x1 == (1int * (x1)));
    assert((x2 - x1) == (1int * (x2)) - (1int * (x1)));
    assert((x2 - x1) == (((-1int) * (x1)) + (1int * (x2))));
    assert((((x2 - x1) * (x2 - x1)) * (x2 - x1)) == ((1int * (x1 * x1)) + (((-2int) * (x1 * x2)) + (1int * (x2 * x2)))) * (((-1int) * (x1)) + (1int * (x2))));
    lemma_mul_is_distributive_add_other_way((((-1int) * (x1)) + (1int * (x2))), (1int * (x1 * x1)), (((-2int) * (x1 * x2)) + (1int * (x2 * x2))));
    lemma_mul_is_distributive_add_other_way((((-1int) * (x1)) + (1int * (x2))), ((-2int) * (x1 * x2)), (1int * (x2 * x2)));
    lemma_mul_is_distributive_add((1int * (x1 * x1)), ((-1int) * (x1)), (1int * (x2)));
    lemma_coefficient_product(1int, (x1 * x1), (-1int), (x1));
    assert((x1 * x1) * (x1) == x1 * x1 * x1) by (nonlinear_arith);
    lemma_coefficient_product(1int, (x1 * x1), 1int, (x2));
    assert((x1 * x1) * (x2) == x1 * x1 * x2) by (nonlinear_arith);
    lemma_mul_is_distributive_add(((-2int) * (x1 * x2)), ((-1int) * (x1)), (1int * (x2)));
    lemma_coefficient_product((-2int), (x1 * x2), (-1int), (x1));
    assert((x1 * x2) * (x1) == x1 * x1 * x2) by (nonlinear_arith);
    lemma_coefficient_product((-2int), (x1 * x2), 1int, (x2));
    assert((x1 * x2) * (x2) == x1 * x2 * x2) by (nonlinear_arith);
    lemma_mul_is_distributive_add((1int * (x2 * x2)), ((-1int) * (x1)), (1int * (x2)));
    lemma_coefficient_product(1int, (x2 * x2), (-1int), (x1));
    assert((x2 * x2) * (x1) == x1 * x2 * x2) by (nonlinear_arith);
    lemma_coefficient_product(1int, (x2 * x2), 1int, (x2));
    assert((x2 * x2) * (x2) == x2 * x2 * x2) by (nonlinear_arith);
    assert((((x2 - x1) * (x2 - x1)) * (x2 - x1)) == ((((-1int) * (x1 * x1 * x1)) + (3int * (x1 * x1 * x2))) + (((-3int) * (x1 * x2 * x2)) + (1int * (x2 * x2 * x2)))));
    assert((y1 * (((x2 - x1) * (x2 - x1)) * (x2 - x1))) == (1int * (y1)) * ((((-1int) * (x1 * x1 * x1)) + (3int * (x1 * x1 * x2))) + (((-3int) * (x1 * x2 * x2)) + (1int * (x2 * x2 * x2)))));
    lemma_mul_is_distributive_add((1int * (y1)), (((-1int) * (x1 * x1 * x1)) + (3int * (x1 * x1 * x2))), (((-3int) * (x1 * x2 * x2)) + (1int * (x2 * x2 * x2))));
    lemma_mul_is_distributive_add((1int * (y1)), ((-1int) * (x1 * x1 * x1)), (3int * (x1 * x1 * x2)));
    lemma_mul_is_distributive_add((1int * (y1)), ((-3int) * (x1 * x2 * x2)), (1int * (x2 * x2 * x2)));
    lemma_coefficient_product(1int, (y1), (-1int), (x1 * x1 * x1));
    assert((y1) * (x1 * x1 * x1) == x1 * x1 * x1 * y1) by (nonlinear_arith);
    lemma_coefficient_product(1int, (y1), 3int, (x1 * x1 * x2));
    assert((y1) * (x1 * x1 * x2) == x1 * x1 * y1 * x2) by (nonlinear_arith);
    lemma_coefficient_product(1int, (y1), (-3int), (x1 * x2 * x2));
    assert((y1) * (x1 * x2 * x2) == x1 * y1 * x2 * x2) by (nonlinear_arith);
    lemma_coefficient_product(1int, (y1), 1int, (x2 * x2 * x2));
    assert((y1) * (x2 * x2 * x2) == y1 * x2 * x2 * x2) by (nonlinear_arith);
    assert((y1 * (((x2 - x1) * (x2 - x1)) * (x2 - x1))) == ((((-1int) * (x1 * x1 * x1 * y1)) + (3int * (x1 * x1 * y1 * x2))) + (((-3int) * (x1 * y1 * x2 * x2)) + (1int * (y1 * x2 * x2 * x2)))));
    assert((((y2 - y1) * ((x1 * ((x2 - x1) * (x2 - x1))) - (((y2 - y1) * (y2 - y1)) - ((x1 + x2) * ((x2 - x1) * (x2 - x1)))))) - (y1 * (((x2 - x1) * (x2 - x1)) * (x2 - x1)))) == ((((1int * (y1 * y1 * y1)) + ((-3int) * (y1 * y1 * y2))) + ((3int * (y1 * y2 * y2)) + (((-1int) * (y2 * y2 * y2)) + ((-2int) * (x1 * x1 * x1 * y1))))) + (((2int * (x1 * x1 * x1 * y2)) + (3int * (x1 * x1 * y1 * x2))) + (((-3int) * (x1 * x1 * x2 * y2)) + (((-1int) * (y1 * x2 * x2 * x2)) + (1int * (x2 * x2 * x2 * y2)))))) - ((((-1int) * (x1 * x1 * x1 * y1)) + (3int * (x1 * x1 * y1 * x2))) + (((-3int) * (x1 * y1 * x2 * x2)) + (1int * (y1 * x2 * x2 * x2)))));
    assert((((y2 - y1) * ((x1 * ((x2 - x1) * (x2 - x1))) - (((y2 - y1) * (y2 - y1)) - ((x1 + x2) * ((x2 - x1) * (x2 - x1)))))) - (y1 * (((x2 - x1) * (x2 - x1)) * (x2 - x1)))) == ((((1int * (y1 * y1 * y1)) + ((-3int) * (y1 * y1 * y2))) + ((3int * (y1 * y2 * y2)) + (((-1int) * (y2 * y2 * y2)) + ((-1int) * (x1 * x1 * x1 * y1))))) + (((2int * (x1 * x1 * x1 * y2)) + ((-3int) * (x1 * x1 * x2 * y2))) + ((3int * (x1 * y1 * x2 * x2)) + (((-2int) * (y1 * x2 * x2 * x2)) + (1int * (x2 * x2 * x2 * y2)))))));
    assert(y1 == (1int * (y1)));
    assert(y2 == (1int * (y2)));
    assert((y1 + y2) == (1int * (y1)) + (1int * (y2)));
    assert((y1 + y2) == ((1int * (y1)) + (1int * (y2))));
    assert(y1 == (1int * (y1)));
    assert(y2 == (1int * (y2)));
    assert((y1 * y2) == (1int * (y1)) * (1int * (y2)));
    lemma_coefficient_product(1int, (y1), 1int, (y2));
    assert((y1) * (y2) == y1 * y2) by (nonlinear_arith);
    assert((y1 * y2) == (1int * (y1 * y2)));
    assert(((y1 * y2) + 21) == (1int * (y1 * y2)) + (21int * (1int)));
    assert(((y1 * y2) + 21) == ((21int * (1int)) + (1int * (y1 * y2))));
    assert(((y1 + y2) * ((y1 * y2) + 21)) == ((1int * (y1)) + (1int * (y2))) * ((21int * (1int)) + (1int * (y1 * y2))));
    lemma_mul_is_distributive_add_other_way(((21int * (1int)) + (1int * (y1 * y2))), (1int * (y1)), (1int * (y2)));
    lemma_mul_is_distributive_add((1int * (y1)), (21int * (1int)), (1int * (y1 * y2)));
    lemma_coefficient_product(1int, (y1), 21int, (1int));
    assert((y1) * (1int) == y1) by (nonlinear_arith);
    lemma_coefficient_product(1int, (y1), 1int, (y1 * y2));
    assert((y1) * (y1 * y2) == y1 * y1 * y2) by (nonlinear_arith);
    lemma_mul_is_distributive_add((1int * (y2)), (21int * (1int)), (1int * (y1 * y2)));
    lemma_coefficient_product(1int, (y2), 21int, (1int));
    assert((y2) * (1int) == y2) by (nonlinear_arith);
    lemma_coefficient_product(1int, (y2), 1int, (y1 * y2));
    assert((y2) * (y1 * y2) == y1 * y2 * y2) by (nonlinear_arith);
    assert(((y1 + y2) * ((y1 * y2) + 21)) == (((21int * (y1)) + (21int * (y2))) + ((1int * (y1 * y1 * y2)) + (1int * (y1 * y2 * y2)))));
    assert(x1 == (1int * (x1)));
    assert(x2 == (1int * (x2)));
    assert((x1 * x2) == (1int * (x1)) * (1int * (x2)));
    lemma_coefficient_product(1int, (x1), 1int, (x2));
    assert((x1) * (x2) == x1 * x2) by (nonlinear_arith);
    assert((x1 * x2) == (1int * (x1 * x2)));
    assert((3 * (x1 * x2)) == (3int * (1int)) * (1int * (x1 * x2)));
    lemma_coefficient_product(3int, (1int), 1int, (x1 * x2));
    assert((1int) * (x1 * x2) == x1 * x2) by (nonlinear_arith);
    assert((3 * (x1 * x2)) == (3int * (x1 * x2)));
    assert(x1 == (1int * (x1)));
    assert(y2 == (1int * (y2)));
    assert((x1 * y2) == (1int * (x1)) * (1int * (y2)));
    lemma_coefficient_product(1int, (x1), 1int, (y2));
    assert((x1) * (y2) == x1 * y2) by (nonlinear_arith);
    assert((x1 * y2) == (1int * (x1 * y2)));
    assert(y1 == (1int * (y1)));
    assert(x2 == (1int * (x2)));
    assert((y1 * x2) == (1int * (y1)) * (1int * (x2)));
    lemma_coefficient_product(1int, (y1), 1int, (x2));
    assert((y1) * (x2) == y1 * x2) by (nonlinear_arith);
    assert((y1 * x2) == (1int * (y1 * x2)));
    assert(((x1 * y2) + (y1 * x2)) == (1int * (x1 * y2)) + (1int * (y1 * x2)));
    assert(((x1 * y2) + (y1 * x2)) == ((1int * (x1 * y2)) + (1int * (y1 * x2))));
    assert(((3 * (x1 * x2)) * ((x1 * y2) + (y1 * x2))) == (3int * (x1 * x2)) * ((1int * (x1 * y2)) + (1int * (y1 * x2))));
    lemma_mul_is_distributive_add((3int * (x1 * x2)), (1int * (x1 * y2)), (1int * (y1 * x2)));
    lemma_coefficient_product(3int, (x1 * x2), 1int, (x1 * y2));
    assert((x1 * x2) * (x1 * y2) == x1 * x1 * x2 * y2) by (nonlinear_arith);
    lemma_coefficient_product(3int, (x1 * x2), 1int, (y1 * x2));
    assert((x1 * x2) * (y1 * x2) == x1 * y1 * x2 * x2) by (nonlinear_arith);
    assert(((3 * (x1 * x2)) * ((x1 * y2) + (y1 * x2))) == ((3int * (x1 * x1 * x2 * y2)) + (3int * (x1 * y1 * x2 * x2))));
    assert((((y1 + y2) * ((y1 * y2) + 21)) + ((3 * (x1 * x2)) * ((x1 * y2) + (y1 * x2)))) == (((21int * (y1)) + (21int * (y2))) + ((1int * (y1 * y1 * y2)) + (1int * (y1 * y2 * y2)))) + ((3int * (x1 * x1 * x2 * y2)) + (3int * (x1 * y1 * x2 * x2))));
    assert((((y1 + y2) * ((y1 * y2) + 21)) + ((3 * (x1 * x2)) * ((x1 * y2) + (y1 * x2)))) == (((21int * (y1)) + ((21int * (y2)) + (1int * (y1 * y1 * y2)))) + ((1int * (y1 * y2 * y2)) + ((3int * (x1 * x1 * x2 * y2)) + (3int * (x1 * y1 * x2 * x2))))));
    assert(((((y2 - y1) * ((x1 * ((x2 - x1) * (x2 - x1))) - (((y2 - y1) * (y2 - y1)) - ((x1 + x2) * ((x2 - x1) * (x2 - x1)))))) - (y1 * (((x2 - x1) * (x2 - x1)) * (x2 - x1)))) * (((y1 + y2) * ((y1 * y2) + 21)) + ((3 * (x1 * x2)) * ((x1 * y2) + (y1 * x2))))) == ((((1int * (y1 * y1 * y1)) + ((-3int) * (y1 * y1 * y2))) + ((3int * (y1 * y2 * y2)) + (((-1int) * (y2 * y2 * y2)) + ((-1int) * (x1 * x1 * x1 * y1))))) + (((2int * (x1 * x1 * x1 * y2)) + ((-3int) * (x1 * x1 * x2 * y2))) + ((3int * (x1 * y1 * x2 * x2)) + (((-2int) * (y1 * x2 * x2 * x2)) + (1int * (x2 * x2 * x2 * y2)))))) * (((21int * (y1)) + ((21int * (y2)) + (1int * (y1 * y1 * y2)))) + ((1int * (y1 * y2 * y2)) + ((3int * (x1 * x1 * x2 * y2)) + (3int * (x1 * y1 * x2 * x2))))));
    lemma_mul_is_distributive_add_other_way((((21int * (y1)) + ((21int * (y2)) + (1int * (y1 * y1 * y2)))) + ((1int * (y1 * y2 * y2)) + ((3int * (x1 * x1 * x2 * y2)) + (3int * (x1 * y1 * x2 * x2))))), (((1int * (y1 * y1 * y1)) + ((-3int) * (y1 * y1 * y2))) + ((3int * (y1 * y2 * y2)) + (((-1int) * (y2 * y2 * y2)) + ((-1int) * (x1 * x1 * x1 * y1))))), (((2int * (x1 * x1 * x1 * y2)) + ((-3int) * (x1 * x1 * x2 * y2))) + ((3int * (x1 * y1 * x2 * x2)) + (((-2int) * (y1 * x2 * x2 * x2)) + (1int * (x2 * x2 * x2 * y2))))));
    lemma_mul_is_distributive_add_other_way((((21int * (y1)) + ((21int * (y2)) + (1int * (y1 * y1 * y2)))) + ((1int * (y1 * y2 * y2)) + ((3int * (x1 * x1 * x2 * y2)) + (3int * (x1 * y1 * x2 * x2))))), ((1int * (y1 * y1 * y1)) + ((-3int) * (y1 * y1 * y2))), ((3int * (y1 * y2 * y2)) + (((-1int) * (y2 * y2 * y2)) + ((-1int) * (x1 * x1 * x1 * y1)))));
    lemma_mul_is_distributive_add_other_way((((21int * (y1)) + ((21int * (y2)) + (1int * (y1 * y1 * y2)))) + ((1int * (y1 * y2 * y2)) + ((3int * (x1 * x1 * x2 * y2)) + (3int * (x1 * y1 * x2 * x2))))), (1int * (y1 * y1 * y1)), ((-3int) * (y1 * y1 * y2)));
    lemma_mul_is_distributive_add_other_way((((21int * (y1)) + ((21int * (y2)) + (1int * (y1 * y1 * y2)))) + ((1int * (y1 * y2 * y2)) + ((3int * (x1 * x1 * x2 * y2)) + (3int * (x1 * y1 * x2 * x2))))), (3int * (y1 * y2 * y2)), (((-1int) * (y2 * y2 * y2)) + ((-1int) * (x1 * x1 * x1 * y1))));
    lemma_mul_is_distributive_add_other_way((((21int * (y1)) + ((21int * (y2)) + (1int * (y1 * y1 * y2)))) + ((1int * (y1 * y2 * y2)) + ((3int * (x1 * x1 * x2 * y2)) + (3int * (x1 * y1 * x2 * x2))))), ((-1int) * (y2 * y2 * y2)), ((-1int) * (x1 * x1 * x1 * y1)));
    lemma_mul_is_distributive_add_other_way((((21int * (y1)) + ((21int * (y2)) + (1int * (y1 * y1 * y2)))) + ((1int * (y1 * y2 * y2)) + ((3int * (x1 * x1 * x2 * y2)) + (3int * (x1 * y1 * x2 * x2))))), ((2int * (x1 * x1 * x1 * y2)) + ((-3int) * (x1 * x1 * x2 * y2))), ((3int * (x1 * y1 * x2 * x2)) + (((-2int) * (y1 * x2 * x2 * x2)) + (1int * (x2 * x2 * x2 * y2)))));
    lemma_mul_is_distributive_add_other_way((((21int * (y1)) + ((21int * (y2)) + (1int * (y1 * y1 * y2)))) + ((1int * (y1 * y2 * y2)) + ((3int * (x1 * x1 * x2 * y2)) + (3int * (x1 * y1 * x2 * x2))))), (2int * (x1 * x1 * x1 * y2)), ((-3int) * (x1 * x1 * x2 * y2)));
    lemma_mul_is_distributive_add_other_way((((21int * (y1)) + ((21int * (y2)) + (1int * (y1 * y1 * y2)))) + ((1int * (y1 * y2 * y2)) + ((3int * (x1 * x1 * x2 * y2)) + (3int * (x1 * y1 * x2 * x2))))), (3int * (x1 * y1 * x2 * x2)), (((-2int) * (y1 * x2 * x2 * x2)) + (1int * (x2 * x2 * x2 * y2))));
    lemma_mul_is_distributive_add_other_way((((21int * (y1)) + ((21int * (y2)) + (1int * (y1 * y1 * y2)))) + ((1int * (y1 * y2 * y2)) + ((3int * (x1 * x1 * x2 * y2)) + (3int * (x1 * y1 * x2 * x2))))), ((-2int) * (y1 * x2 * x2 * x2)), (1int * (x2 * x2 * x2 * y2)));
    lemma_mul_is_distributive_add((1int * (y1 * y1 * y1)), ((21int * (y1)) + ((21int * (y2)) + (1int * (y1 * y1 * y2)))), ((1int * (y1 * y2 * y2)) + ((3int * (x1 * x1 * x2 * y2)) + (3int * (x1 * y1 * x2 * x2)))));
    lemma_mul_is_distributive_add((1int * (y1 * y1 * y1)), (21int * (y1)), ((21int * (y2)) + (1int * (y1 * y1 * y2))));
    lemma_mul_is_distributive_add((1int * (y1 * y1 * y1)), (21int * (y2)), (1int * (y1 * y1 * y2)));
    lemma_mul_is_distributive_add((1int * (y1 * y1 * y1)), (1int * (y1 * y2 * y2)), ((3int * (x1 * x1 * x2 * y2)) + (3int * (x1 * y1 * x2 * x2))));
    lemma_mul_is_distributive_add((1int * (y1 * y1 * y1)), (3int * (x1 * x1 * x2 * y2)), (3int * (x1 * y1 * x2 * x2)));
    lemma_coefficient_product(1int, (y1 * y1 * y1), 21int, (y1));
    assert((y1 * y1 * y1) * (y1) == y1 * y1 * y1 * y1) by (nonlinear_arith);
    lemma_coefficient_product(1int, (y1 * y1 * y1), 21int, (y2));
    assert((y1 * y1 * y1) * (y2) == y1 * y1 * y1 * y2) by (nonlinear_arith);
    lemma_coefficient_product(1int, (y1 * y1 * y1), 1int, (y1 * y1 * y2));
    assert((y1 * y1 * y1) * (y1 * y1 * y2) == y1 * y1 * y1 * y1 * y1 * y2) by (nonlinear_arith);
    lemma_coefficient_product(1int, (y1 * y1 * y1), 1int, (y1 * y2 * y2));
    assert((y1 * y1 * y1) * (y1 * y2 * y2) == y1 * y1 * y1 * y1 * y2 * y2) by (nonlinear_arith);
    lemma_coefficient_product(1int, (y1 * y1 * y1), 3int, (x1 * x1 * x2 * y2));
    assert((y1 * y1 * y1) * (x1 * x1 * x2 * y2) == x1 * x1 * y1 * y1 * y1 * x2 * y2) by (nonlinear_arith);
    lemma_coefficient_product(1int, (y1 * y1 * y1), 3int, (x1 * y1 * x2 * x2));
    assert((y1 * y1 * y1) * (x1 * y1 * x2 * x2) == x1 * y1 * y1 * y1 * y1 * x2 * x2) by (nonlinear_arith);
    lemma_mul_is_distributive_add(((-3int) * (y1 * y1 * y2)), ((21int * (y1)) + ((21int * (y2)) + (1int * (y1 * y1 * y2)))), ((1int * (y1 * y2 * y2)) + ((3int * (x1 * x1 * x2 * y2)) + (3int * (x1 * y1 * x2 * x2)))));
    lemma_mul_is_distributive_add(((-3int) * (y1 * y1 * y2)), (21int * (y1)), ((21int * (y2)) + (1int * (y1 * y1 * y2))));
    lemma_mul_is_distributive_add(((-3int) * (y1 * y1 * y2)), (21int * (y2)), (1int * (y1 * y1 * y2)));
    lemma_mul_is_distributive_add(((-3int) * (y1 * y1 * y2)), (1int * (y1 * y2 * y2)), ((3int * (x1 * x1 * x2 * y2)) + (3int * (x1 * y1 * x2 * x2))));
    lemma_mul_is_distributive_add(((-3int) * (y1 * y1 * y2)), (3int * (x1 * x1 * x2 * y2)), (3int * (x1 * y1 * x2 * x2)));
    lemma_coefficient_product((-3int), (y1 * y1 * y2), 21int, (y1));
    assert((y1 * y1 * y2) * (y1) == y1 * y1 * y1 * y2) by (nonlinear_arith);
    lemma_coefficient_product((-3int), (y1 * y1 * y2), 21int, (y2));
    assert((y1 * y1 * y2) * (y2) == y1 * y1 * y2 * y2) by (nonlinear_arith);
    lemma_coefficient_product((-3int), (y1 * y1 * y2), 1int, (y1 * y1 * y2));
    assert((y1 * y1 * y2) * (y1 * y1 * y2) == y1 * y1 * y1 * y1 * y2 * y2) by (nonlinear_arith);
    lemma_coefficient_product((-3int), (y1 * y1 * y2), 1int, (y1 * y2 * y2));
    assert((y1 * y1 * y2) * (y1 * y2 * y2) == y1 * y1 * y1 * y2 * y2 * y2) by (nonlinear_arith);
    lemma_coefficient_product((-3int), (y1 * y1 * y2), 3int, (x1 * x1 * x2 * y2));
    assert((y1 * y1 * y2) * (x1 * x1 * x2 * y2) == x1 * x1 * y1 * y1 * x2 * y2 * y2) by (nonlinear_arith);
    lemma_coefficient_product((-3int), (y1 * y1 * y2), 3int, (x1 * y1 * x2 * x2));
    assert((y1 * y1 * y2) * (x1 * y1 * x2 * x2) == x1 * y1 * y1 * y1 * x2 * x2 * y2) by (nonlinear_arith);
    lemma_mul_is_distributive_add((3int * (y1 * y2 * y2)), ((21int * (y1)) + ((21int * (y2)) + (1int * (y1 * y1 * y2)))), ((1int * (y1 * y2 * y2)) + ((3int * (x1 * x1 * x2 * y2)) + (3int * (x1 * y1 * x2 * x2)))));
    lemma_mul_is_distributive_add((3int * (y1 * y2 * y2)), (21int * (y1)), ((21int * (y2)) + (1int * (y1 * y1 * y2))));
    lemma_mul_is_distributive_add((3int * (y1 * y2 * y2)), (21int * (y2)), (1int * (y1 * y1 * y2)));
    lemma_mul_is_distributive_add((3int * (y1 * y2 * y2)), (1int * (y1 * y2 * y2)), ((3int * (x1 * x1 * x2 * y2)) + (3int * (x1 * y1 * x2 * x2))));
    lemma_mul_is_distributive_add((3int * (y1 * y2 * y2)), (3int * (x1 * x1 * x2 * y2)), (3int * (x1 * y1 * x2 * x2)));
    lemma_coefficient_product(3int, (y1 * y2 * y2), 21int, (y1));
    assert((y1 * y2 * y2) * (y1) == y1 * y1 * y2 * y2) by (nonlinear_arith);
    lemma_coefficient_product(3int, (y1 * y2 * y2), 21int, (y2));
    assert((y1 * y2 * y2) * (y2) == y1 * y2 * y2 * y2) by (nonlinear_arith);
    lemma_coefficient_product(3int, (y1 * y2 * y2), 1int, (y1 * y1 * y2));
    assert((y1 * y2 * y2) * (y1 * y1 * y2) == y1 * y1 * y1 * y2 * y2 * y2) by (nonlinear_arith);
    lemma_coefficient_product(3int, (y1 * y2 * y2), 1int, (y1 * y2 * y2));
    assert((y1 * y2 * y2) * (y1 * y2 * y2) == y1 * y1 * y2 * y2 * y2 * y2) by (nonlinear_arith);
    lemma_coefficient_product(3int, (y1 * y2 * y2), 3int, (x1 * x1 * x2 * y2));
    assert((y1 * y2 * y2) * (x1 * x1 * x2 * y2) == x1 * x1 * y1 * x2 * y2 * y2 * y2) by (nonlinear_arith);
    lemma_coefficient_product(3int, (y1 * y2 * y2), 3int, (x1 * y1 * x2 * x2));
    assert((y1 * y2 * y2) * (x1 * y1 * x2 * x2) == x1 * y1 * y1 * x2 * x2 * y2 * y2) by (nonlinear_arith);
    lemma_mul_is_distributive_add(((-1int) * (y2 * y2 * y2)), ((21int * (y1)) + ((21int * (y2)) + (1int * (y1 * y1 * y2)))), ((1int * (y1 * y2 * y2)) + ((3int * (x1 * x1 * x2 * y2)) + (3int * (x1 * y1 * x2 * x2)))));
    lemma_mul_is_distributive_add(((-1int) * (y2 * y2 * y2)), (21int * (y1)), ((21int * (y2)) + (1int * (y1 * y1 * y2))));
    lemma_mul_is_distributive_add(((-1int) * (y2 * y2 * y2)), (21int * (y2)), (1int * (y1 * y1 * y2)));
    lemma_mul_is_distributive_add(((-1int) * (y2 * y2 * y2)), (1int * (y1 * y2 * y2)), ((3int * (x1 * x1 * x2 * y2)) + (3int * (x1 * y1 * x2 * x2))));
    lemma_mul_is_distributive_add(((-1int) * (y2 * y2 * y2)), (3int * (x1 * x1 * x2 * y2)), (3int * (x1 * y1 * x2 * x2)));
    lemma_coefficient_product((-1int), (y2 * y2 * y2), 21int, (y1));
    assert((y2 * y2 * y2) * (y1) == y1 * y2 * y2 * y2) by (nonlinear_arith);
    lemma_coefficient_product((-1int), (y2 * y2 * y2), 21int, (y2));
    assert((y2 * y2 * y2) * (y2) == y2 * y2 * y2 * y2) by (nonlinear_arith);
    lemma_coefficient_product((-1int), (y2 * y2 * y2), 1int, (y1 * y1 * y2));
    assert((y2 * y2 * y2) * (y1 * y1 * y2) == y1 * y1 * y2 * y2 * y2 * y2) by (nonlinear_arith);
    lemma_coefficient_product((-1int), (y2 * y2 * y2), 1int, (y1 * y2 * y2));
    assert((y2 * y2 * y2) * (y1 * y2 * y2) == y1 * y2 * y2 * y2 * y2 * y2) by (nonlinear_arith);
    lemma_coefficient_product((-1int), (y2 * y2 * y2), 3int, (x1 * x1 * x2 * y2));
    assert((y2 * y2 * y2) * (x1 * x1 * x2 * y2) == x1 * x1 * x2 * y2 * y2 * y2 * y2) by (nonlinear_arith);
    lemma_coefficient_product((-1int), (y2 * y2 * y2), 3int, (x1 * y1 * x2 * x2));
    assert((y2 * y2 * y2) * (x1 * y1 * x2 * x2) == x1 * y1 * x2 * x2 * y2 * y2 * y2) by (nonlinear_arith);
    lemma_mul_is_distributive_add(((-1int) * (x1 * x1 * x1 * y1)), ((21int * (y1)) + ((21int * (y2)) + (1int * (y1 * y1 * y2)))), ((1int * (y1 * y2 * y2)) + ((3int * (x1 * x1 * x2 * y2)) + (3int * (x1 * y1 * x2 * x2)))));
    lemma_mul_is_distributive_add(((-1int) * (x1 * x1 * x1 * y1)), (21int * (y1)), ((21int * (y2)) + (1int * (y1 * y1 * y2))));
    lemma_mul_is_distributive_add(((-1int) * (x1 * x1 * x1 * y1)), (21int * (y2)), (1int * (y1 * y1 * y2)));
    lemma_mul_is_distributive_add(((-1int) * (x1 * x1 * x1 * y1)), (1int * (y1 * y2 * y2)), ((3int * (x1 * x1 * x2 * y2)) + (3int * (x1 * y1 * x2 * x2))));
    lemma_mul_is_distributive_add(((-1int) * (x1 * x1 * x1 * y1)), (3int * (x1 * x1 * x2 * y2)), (3int * (x1 * y1 * x2 * x2)));
    lemma_coefficient_product((-1int), (x1 * x1 * x1 * y1), 21int, (y1));
    assert((x1 * x1 * x1 * y1) * (y1) == x1 * x1 * x1 * y1 * y1) by (nonlinear_arith);
    lemma_coefficient_product((-1int), (x1 * x1 * x1 * y1), 21int, (y2));
    assert((x1 * x1 * x1 * y1) * (y2) == x1 * x1 * x1 * y1 * y2) by (nonlinear_arith);
    lemma_coefficient_product((-1int), (x1 * x1 * x1 * y1), 1int, (y1 * y1 * y2));
    assert((x1 * x1 * x1 * y1) * (y1 * y1 * y2) == x1 * x1 * x1 * y1 * y1 * y1 * y2) by (nonlinear_arith);
    lemma_coefficient_product((-1int), (x1 * x1 * x1 * y1), 1int, (y1 * y2 * y2));
    assert((x1 * x1 * x1 * y1) * (y1 * y2 * y2) == x1 * x1 * x1 * y1 * y1 * y2 * y2) by (nonlinear_arith);
    lemma_coefficient_product((-1int), (x1 * x1 * x1 * y1), 3int, (x1 * x1 * x2 * y2));
    assert((x1 * x1 * x1 * y1) * (x1 * x1 * x2 * y2) == x1 * x1 * x1 * x1 * x1 * y1 * x2 * y2) by (nonlinear_arith);
    lemma_coefficient_product((-1int), (x1 * x1 * x1 * y1), 3int, (x1 * y1 * x2 * x2));
    assert((x1 * x1 * x1 * y1) * (x1 * y1 * x2 * x2) == x1 * x1 * x1 * x1 * y1 * y1 * x2 * x2) by (nonlinear_arith);
    lemma_mul_is_distributive_add((2int * (x1 * x1 * x1 * y2)), ((21int * (y1)) + ((21int * (y2)) + (1int * (y1 * y1 * y2)))), ((1int * (y1 * y2 * y2)) + ((3int * (x1 * x1 * x2 * y2)) + (3int * (x1 * y1 * x2 * x2)))));
    lemma_mul_is_distributive_add((2int * (x1 * x1 * x1 * y2)), (21int * (y1)), ((21int * (y2)) + (1int * (y1 * y1 * y2))));
    lemma_mul_is_distributive_add((2int * (x1 * x1 * x1 * y2)), (21int * (y2)), (1int * (y1 * y1 * y2)));
    lemma_mul_is_distributive_add((2int * (x1 * x1 * x1 * y2)), (1int * (y1 * y2 * y2)), ((3int * (x1 * x1 * x2 * y2)) + (3int * (x1 * y1 * x2 * x2))));
    lemma_mul_is_distributive_add((2int * (x1 * x1 * x1 * y2)), (3int * (x1 * x1 * x2 * y2)), (3int * (x1 * y1 * x2 * x2)));
    lemma_coefficient_product(2int, (x1 * x1 * x1 * y2), 21int, (y1));
    assert((x1 * x1 * x1 * y2) * (y1) == x1 * x1 * x1 * y1 * y2) by (nonlinear_arith);
    lemma_coefficient_product(2int, (x1 * x1 * x1 * y2), 21int, (y2));
    assert((x1 * x1 * x1 * y2) * (y2) == x1 * x1 * x1 * y2 * y2) by (nonlinear_arith);
    lemma_coefficient_product(2int, (x1 * x1 * x1 * y2), 1int, (y1 * y1 * y2));
    assert((x1 * x1 * x1 * y2) * (y1 * y1 * y2) == x1 * x1 * x1 * y1 * y1 * y2 * y2) by (nonlinear_arith);
    lemma_coefficient_product(2int, (x1 * x1 * x1 * y2), 1int, (y1 * y2 * y2));
    assert((x1 * x1 * x1 * y2) * (y1 * y2 * y2) == x1 * x1 * x1 * y1 * y2 * y2 * y2) by (nonlinear_arith);
    lemma_coefficient_product(2int, (x1 * x1 * x1 * y2), 3int, (x1 * x1 * x2 * y2));
    assert((x1 * x1 * x1 * y2) * (x1 * x1 * x2 * y2) == x1 * x1 * x1 * x1 * x1 * x2 * y2 * y2) by (nonlinear_arith);
    lemma_coefficient_product(2int, (x1 * x1 * x1 * y2), 3int, (x1 * y1 * x2 * x2));
    assert((x1 * x1 * x1 * y2) * (x1 * y1 * x2 * x2) == x1 * x1 * x1 * x1 * y1 * x2 * x2 * y2) by (nonlinear_arith);
    lemma_mul_is_distributive_add(((-3int) * (x1 * x1 * x2 * y2)), ((21int * (y1)) + ((21int * (y2)) + (1int * (y1 * y1 * y2)))), ((1int * (y1 * y2 * y2)) + ((3int * (x1 * x1 * x2 * y2)) + (3int * (x1 * y1 * x2 * x2)))));
    lemma_mul_is_distributive_add(((-3int) * (x1 * x1 * x2 * y2)), (21int * (y1)), ((21int * (y2)) + (1int * (y1 * y1 * y2))));
    lemma_mul_is_distributive_add(((-3int) * (x1 * x1 * x2 * y2)), (21int * (y2)), (1int * (y1 * y1 * y2)));
    lemma_mul_is_distributive_add(((-3int) * (x1 * x1 * x2 * y2)), (1int * (y1 * y2 * y2)), ((3int * (x1 * x1 * x2 * y2)) + (3int * (x1 * y1 * x2 * x2))));
    lemma_mul_is_distributive_add(((-3int) * (x1 * x1 * x2 * y2)), (3int * (x1 * x1 * x2 * y2)), (3int * (x1 * y1 * x2 * x2)));
    lemma_coefficient_product((-3int), (x1 * x1 * x2 * y2), 21int, (y1));
    assert((x1 * x1 * x2 * y2) * (y1) == x1 * x1 * y1 * x2 * y2) by (nonlinear_arith);
    lemma_coefficient_product((-3int), (x1 * x1 * x2 * y2), 21int, (y2));
    assert((x1 * x1 * x2 * y2) * (y2) == x1 * x1 * x2 * y2 * y2) by (nonlinear_arith);
    lemma_coefficient_product((-3int), (x1 * x1 * x2 * y2), 1int, (y1 * y1 * y2));
    assert((x1 * x1 * x2 * y2) * (y1 * y1 * y2) == x1 * x1 * y1 * y1 * x2 * y2 * y2) by (nonlinear_arith);
    lemma_coefficient_product((-3int), (x1 * x1 * x2 * y2), 1int, (y1 * y2 * y2));
    assert((x1 * x1 * x2 * y2) * (y1 * y2 * y2) == x1 * x1 * y1 * x2 * y2 * y2 * y2) by (nonlinear_arith);
    lemma_coefficient_product((-3int), (x1 * x1 * x2 * y2), 3int, (x1 * x1 * x2 * y2));
    assert((x1 * x1 * x2 * y2) * (x1 * x1 * x2 * y2) == x1 * x1 * x1 * x1 * x2 * x2 * y2 * y2) by (nonlinear_arith);
    lemma_coefficient_product((-3int), (x1 * x1 * x2 * y2), 3int, (x1 * y1 * x2 * x2));
    assert((x1 * x1 * x2 * y2) * (x1 * y1 * x2 * x2) == x1 * x1 * x1 * y1 * x2 * x2 * x2 * y2) by (nonlinear_arith);
    lemma_mul_is_distributive_add((3int * (x1 * y1 * x2 * x2)), ((21int * (y1)) + ((21int * (y2)) + (1int * (y1 * y1 * y2)))), ((1int * (y1 * y2 * y2)) + ((3int * (x1 * x1 * x2 * y2)) + (3int * (x1 * y1 * x2 * x2)))));
    lemma_mul_is_distributive_add((3int * (x1 * y1 * x2 * x2)), (21int * (y1)), ((21int * (y2)) + (1int * (y1 * y1 * y2))));
    lemma_mul_is_distributive_add((3int * (x1 * y1 * x2 * x2)), (21int * (y2)), (1int * (y1 * y1 * y2)));
    lemma_mul_is_distributive_add((3int * (x1 * y1 * x2 * x2)), (1int * (y1 * y2 * y2)), ((3int * (x1 * x1 * x2 * y2)) + (3int * (x1 * y1 * x2 * x2))));
    lemma_mul_is_distributive_add((3int * (x1 * y1 * x2 * x2)), (3int * (x1 * x1 * x2 * y2)), (3int * (x1 * y1 * x2 * x2)));
    lemma_coefficient_product(3int, (x1 * y1 * x2 * x2), 21int, (y1));
    assert((x1 * y1 * x2 * x2) * (y1) == x1 * y1 * y1 * x2 * x2) by (nonlinear_arith);
    lemma_coefficient_product(3int, (x1 * y1 * x2 * x2), 21int, (y2));
    assert((x1 * y1 * x2 * x2) * (y2) == x1 * y1 * x2 * x2 * y2) by (nonlinear_arith);
    lemma_coefficient_product(3int, (x1 * y1 * x2 * x2), 1int, (y1 * y1 * y2));
    assert((x1 * y1 * x2 * x2) * (y1 * y1 * y2) == x1 * y1 * y1 * y1 * x2 * x2 * y2) by (nonlinear_arith);
    lemma_coefficient_product(3int, (x1 * y1 * x2 * x2), 1int, (y1 * y2 * y2));
    assert((x1 * y1 * x2 * x2) * (y1 * y2 * y2) == x1 * y1 * y1 * x2 * x2 * y2 * y2) by (nonlinear_arith);
    lemma_coefficient_product(3int, (x1 * y1 * x2 * x2), 3int, (x1 * x1 * x2 * y2));
    assert((x1 * y1 * x2 * x2) * (x1 * x1 * x2 * y2) == x1 * x1 * x1 * y1 * x2 * x2 * x2 * y2) by (nonlinear_arith);
    lemma_coefficient_product(3int, (x1 * y1 * x2 * x2), 3int, (x1 * y1 * x2 * x2));
    assert((x1 * y1 * x2 * x2) * (x1 * y1 * x2 * x2) == x1 * x1 * y1 * y1 * x2 * x2 * x2 * x2) by (nonlinear_arith);
    lemma_mul_is_distributive_add(((-2int) * (y1 * x2 * x2 * x2)), ((21int * (y1)) + ((21int * (y2)) + (1int * (y1 * y1 * y2)))), ((1int * (y1 * y2 * y2)) + ((3int * (x1 * x1 * x2 * y2)) + (3int * (x1 * y1 * x2 * x2)))));
    lemma_mul_is_distributive_add(((-2int) * (y1 * x2 * x2 * x2)), (21int * (y1)), ((21int * (y2)) + (1int * (y1 * y1 * y2))));
    lemma_mul_is_distributive_add(((-2int) * (y1 * x2 * x2 * x2)), (21int * (y2)), (1int * (y1 * y1 * y2)));
    lemma_mul_is_distributive_add(((-2int) * (y1 * x2 * x2 * x2)), (1int * (y1 * y2 * y2)), ((3int * (x1 * x1 * x2 * y2)) + (3int * (x1 * y1 * x2 * x2))));
    lemma_mul_is_distributive_add(((-2int) * (y1 * x2 * x2 * x2)), (3int * (x1 * x1 * x2 * y2)), (3int * (x1 * y1 * x2 * x2)));
    lemma_coefficient_product((-2int), (y1 * x2 * x2 * x2), 21int, (y1));
    assert((y1 * x2 * x2 * x2) * (y1) == y1 * y1 * x2 * x2 * x2) by (nonlinear_arith);
    lemma_coefficient_product((-2int), (y1 * x2 * x2 * x2), 21int, (y2));
    assert((y1 * x2 * x2 * x2) * (y2) == y1 * x2 * x2 * x2 * y2) by (nonlinear_arith);
    lemma_coefficient_product((-2int), (y1 * x2 * x2 * x2), 1int, (y1 * y1 * y2));
    assert((y1 * x2 * x2 * x2) * (y1 * y1 * y2) == y1 * y1 * y1 * x2 * x2 * x2 * y2) by (nonlinear_arith);
    lemma_coefficient_product((-2int), (y1 * x2 * x2 * x2), 1int, (y1 * y2 * y2));
    assert((y1 * x2 * x2 * x2) * (y1 * y2 * y2) == y1 * y1 * x2 * x2 * x2 * y2 * y2) by (nonlinear_arith);
    lemma_coefficient_product((-2int), (y1 * x2 * x2 * x2), 3int, (x1 * x1 * x2 * y2));
    assert((y1 * x2 * x2 * x2) * (x1 * x1 * x2 * y2) == x1 * x1 * y1 * x2 * x2 * x2 * x2 * y2) by (nonlinear_arith);
    lemma_coefficient_product((-2int), (y1 * x2 * x2 * x2), 3int, (x1 * y1 * x2 * x2));
    assert((y1 * x2 * x2 * x2) * (x1 * y1 * x2 * x2) == x1 * y1 * y1 * x2 * x2 * x2 * x2 * x2) by (nonlinear_arith);
    lemma_mul_is_distributive_add((1int * (x2 * x2 * x2 * y2)), ((21int * (y1)) + ((21int * (y2)) + (1int * (y1 * y1 * y2)))), ((1int * (y1 * y2 * y2)) + ((3int * (x1 * x1 * x2 * y2)) + (3int * (x1 * y1 * x2 * x2)))));
    lemma_mul_is_distributive_add((1int * (x2 * x2 * x2 * y2)), (21int * (y1)), ((21int * (y2)) + (1int * (y1 * y1 * y2))));
    lemma_mul_is_distributive_add((1int * (x2 * x2 * x2 * y2)), (21int * (y2)), (1int * (y1 * y1 * y2)));
    lemma_mul_is_distributive_add((1int * (x2 * x2 * x2 * y2)), (1int * (y1 * y2 * y2)), ((3int * (x1 * x1 * x2 * y2)) + (3int * (x1 * y1 * x2 * x2))));
    lemma_mul_is_distributive_add((1int * (x2 * x2 * x2 * y2)), (3int * (x1 * x1 * x2 * y2)), (3int * (x1 * y1 * x2 * x2)));
    lemma_coefficient_product(1int, (x2 * x2 * x2 * y2), 21int, (y1));
    assert((x2 * x2 * x2 * y2) * (y1) == y1 * x2 * x2 * x2 * y2) by (nonlinear_arith);
    lemma_coefficient_product(1int, (x2 * x2 * x2 * y2), 21int, (y2));
    assert((x2 * x2 * x2 * y2) * (y2) == x2 * x2 * x2 * y2 * y2) by (nonlinear_arith);
    lemma_coefficient_product(1int, (x2 * x2 * x2 * y2), 1int, (y1 * y1 * y2));
    assert((x2 * x2 * x2 * y2) * (y1 * y1 * y2) == y1 * y1 * x2 * x2 * x2 * y2 * y2) by (nonlinear_arith);
    lemma_coefficient_product(1int, (x2 * x2 * x2 * y2), 1int, (y1 * y2 * y2));
    assert((x2 * x2 * x2 * y2) * (y1 * y2 * y2) == y1 * x2 * x2 * x2 * y2 * y2 * y2) by (nonlinear_arith);
    lemma_coefficient_product(1int, (x2 * x2 * x2 * y2), 3int, (x1 * x1 * x2 * y2));
    assert((x2 * x2 * x2 * y2) * (x1 * x1 * x2 * y2) == x1 * x1 * x2 * x2 * x2 * x2 * y2 * y2) by (nonlinear_arith);
    lemma_coefficient_product(1int, (x2 * x2 * x2 * y2), 3int, (x1 * y1 * x2 * x2));
    assert((x2 * x2 * x2 * y2) * (x1 * y1 * x2 * x2) == x1 * y1 * x2 * x2 * x2 * x2 * x2 * y2) by (nonlinear_arith);
    assert(((((y2 - y1) * ((x1 * ((x2 - x1) * (x2 - x1))) - (((y2 - y1) * (y2 - y1)) - ((x1 + x2) * ((x2 - x1) * (x2 - x1)))))) - (y1 * (((x2 - x1) * (x2 - x1)) * (x2 - x1)))) * (((y1 + y2) * ((y1 * y2) + 21)) + ((3 * (x1 * x2)) * ((x1 * y2) + (y1 * x2))))) == ((((((21int * (y1 * y1 * y1 * y1)) + ((-42int) * (y1 * y1 * y1 * y2))) + ((42int * (y1 * y2 * y2 * y2)) + (((-21int) * (y2 * y2 * y2 * y2)) + ((-21int) * (x1 * x1 * x1 * y1 * y1))))) + (((21int * (x1 * x1 * x1 * y1 * y2)) + (42int * (x1 * x1 * x1 * y2 * y2))) + (((-63int) * (x1 * x1 * y1 * x2 * y2)) + (((-63int) * (x1 * x1 * x2 * y2 * y2)) + (63int * (x1 * y1 * y1 * x2 * x2)))))) + ((((63int * (x1 * y1 * x2 * x2 * y2)) + ((-42int) * (y1 * y1 * x2 * x2 * x2))) + (((-21int) * (y1 * x2 * x2 * x2 * y2)) + ((21int * (x2 * x2 * x2 * y2 * y2)) + (1int * (y1 * y1 * y1 * y1 * y1 * y2))))) + ((((-2int) * (y1 * y1 * y1 * y1 * y2 * y2)) + ((2int * (y1 * y1 * y2 * y2 * y2 * y2)) + ((-1int) * (y1 * y2 * y2 * y2 * y2 * y2)))) + (((-1int) * (x1 * x1 * x1 * y1 * y1 * y1 * y2)) + ((1int * (x1 * x1 * x1 * y1 * y1 * y2 * y2)) + (2int * (x1 * x1 * x1 * y1 * y2 * y2 * y2))))))) + (((((3int * (x1 * x1 * y1 * y1 * y1 * x2 * y2)) + ((-12int) * (x1 * x1 * y1 * y1 * x2 * y2 * y2))) + ((6int * (x1 * x1 * y1 * x2 * y2 * y2 * y2)) + (((-3int) * (x1 * x1 * x2 * y2 * y2 * y2 * y2)) + (3int * (x1 * y1 * y1 * y1 * y1 * x2 * x2))))) + ((((-6int) * (x1 * y1 * y1 * y1 * x2 * x2 * y2)) + (12int * (x1 * y1 * y1 * x2 * x2 * y2 * y2))) + (((-3int) * (x1 * y1 * x2 * x2 * y2 * y2 * y2)) + (((-2int) * (y1 * y1 * y1 * x2 * x2 * x2 * y2)) + ((-1int) * (y1 * y1 * x2 * x2 * x2 * y2 * y2)))))) + ((((1int * (y1 * x2 * x2 * x2 * y2 * y2 * y2)) + ((-3int) * (x1 * x1 * x1 * x1 * x1 * y1 * x2 * y2))) + ((6int * (x1 * x1 * x1 * x1 * x1 * x2 * y2 * y2)) + (((-3int) * (x1 * x1 * x1 * x1 * y1 * y1 * x2 * x2)) + (6int * (x1 * x1 * x1 * x1 * y1 * x2 * x2 * y2))))) + ((((-9int) * (x1 * x1 * x1 * x1 * x2 * x2 * y2 * y2)) + ((9int * (x1 * x1 * y1 * y1 * x2 * x2 * x2 * x2)) + ((-6int) * (x1 * x1 * y1 * x2 * x2 * x2 * x2 * y2)))) + ((3int * (x1 * x1 * x2 * x2 * x2 * x2 * y2 * y2)) + (((-6int) * (x1 * y1 * y1 * x2 * x2 * x2 * x2 * x2)) + (3int * (x1 * y1 * x2 * x2 * x2 * x2 * x2 * y2)))))))));
}

#[verifier::rlimit(40)]
proof fn lemma_chord_identity_y_part3(x1: int, y1: int, x2: int, y2: int)
    ensures
        (((((((((((((((((((-147) + (14 * (y2 * y2))) + ((-2) * (((y2 * y2) * y2) * y2))) + (42 * ((x2 * x2) * x2))) + (2 * ((((x2 * x2) * x2) * y2) * y2))) + (35 * (y1 * y2))) + (2 * ((((y1 * x2) * x2) * x2) * y2))) + ((-21) * (y1 * y1))) + (2 * (((y1 * y1) * y2) * y2))) + ((-1) * (((y1 * y1) * y1) * y2))) + ((-84) * ((x1 * x2) * x2))) + ((-15) * ((((x1 * x2) * x2) * y2) * y2))) + (6 * (((((x1 * x2) * x2) * x2) * x2) * x2))) + (6 * ((((x1 * y1) * x2) * x2) * y2))) + ((-3) * ((((x1 * y1) * y1) * x2) * x2))) + (15 * ((((x1 * x1) * x2) * y2) * y2))) + ((-9) * (((((x1 * x1) * x2) * x2) * x2) * x2))) + ((-3) * ((((x1 * x1) * y1) * x2) * y2))) * (((y1 * y1) - ((x1 * x1) * x1)) - 7)) == ((((((1029int * (1int)) + (((-245int) * (y1 * y2)) + ((-98int) * (y2 * y2)))) + ((147int * (x1 * x1 * x1)) + ((588int * (x1 * x2 * x2)) + ((-294int) * (x2 * x2 * x2))))) + ((((-21int) * (y1 * y1 * y1 * y1)) + ((42int * (y1 * y1 * y1 * y2)) + (14int * (y2 * y2 * y2 * y2)))) + ((21int * (x1 * x1 * x1 * y1 * y1)) + (((-35int) * (x1 * x1 * x1 * y1 * y2)) + ((-14int) * (x1 * x1 * x1 * y2 * y2)))))) + ((((21int * (x1 * x1 * y1 * x2 * y2)) + (((-105int) * (x1 * x1 * x2 * y2 * y2)) + ((-63int) * (x1 * y1 * y1 * x2 * x2)))) + (((-42int) * (x1 * y1 * x2 * x2 * y2)) + ((105int * (x1 * x2 * x2 * y2 * y2)) + (42int * (y1 * y1 * x2 * x2 * x2))))) + ((((-14int) * (y1 * x2 * x2 * x2 * y2)) + (((-14int) * (x2 * x2 * x2 * y2 * y2)) + (84int * (x1 * x1 * x1 * x1 * x2 * x2)))) + (((-42int) * (x1 * x1 * x1 * x2 * x2 * x2)) + ((63int * (x1 * x1 * x2 * x2 * x2 * x2)) + ((-42int) * (x1 * x2 * x2 * x2 * x2 * x2))))))) + ((((((-1int) * (y1 * y1 * y1 * y1 * y1 * y2)) + ((2int * (y1 * y1 * y1 * y1 * y2 * y2)) + ((-2int) * (y1 * y1 * y2 * y2 * y2 * y2)))) + ((1int * (x1 * x1 * x1 * y1 * y1 * y1 * y2)) + (((-2int) * (x1 * x1 * x1 * y1 * y1 * y2 * y2)) + (2int * (x1 * x1 * x1 * y2 * y2 * y2 * y2))))) + ((((-3int) * (x1 * x1 * y1 * y1 * y1 * x2 * y2)) + ((15int * (x1 * x1 * y1 * y1 * x2 * y2 * y2)) + ((-3int) * (x1 * y1 * y1 * y1 * y1 * x2 * x2)))) + ((6int * (x1 * y1 * y1 * y1 * x2 * x2 * y2)) + (((-15int) * (x1 * y1 * y1 * x2 * x2 * y2 * y2)) + (2int * (y1 * y1 * y1 * x2 * x2 * x2 * y2)))))) + ((((2int * (y1 * y1 * x2 * x2 * x2 * y2 * y2)) + ((3int * (x1 * x1 * x1 * x1 * x1 * y1 * x2 * y2)) + ((-15int) * (x1 * x1 * x1 * x1 * x1 * x2 * y2 * y2)))) + ((3int * (x1 * x1 * x1 * x1 * y1 * y1 * x2 * x2)) + (((-6int) * (x1 * x1 * x1 * x1 * y1 * x2 * x2 * y2)) + (15int * (x1 * x1 * x1 * x1 * x2 * x2 * y2 * y2))))) + ((((-2int) * (x1 * x1 * x1 * y1 * x2 * x2 * x2 * y2)) + (((-2int) * (x1 * x1 * x1 * x2 * x2 * x2 * y2 * y2)) + ((-9int) * (x1 * x1 * y1 * y1 * x2 * x2 * x2 * x2)))) + ((6int * (x1 * y1 * y1 * x2 * x2 * x2 * x2 * x2)) + ((9int * (x1 * x1 * x1 * x1 * x1 * x2 * x2 * x2 * x2)) + ((-6int) * (x1 * x1 * x1 * x1 * x2 * x2 * x2 * x2 * x2)))))))),
{
    assert(y2 == (1int * (y2)));
    assert(y2 == (1int * (y2)));
    assert((y2 * y2) == (1int * (y2)) * (1int * (y2)));
    lemma_coefficient_product(1int, (y2), 1int, (y2));
    assert((y2) * (y2) == y2 * y2) by (nonlinear_arith);
    assert((y2 * y2) == (1int * (y2 * y2)));
    assert((14 * (y2 * y2)) == (14int * (1int)) * (1int * (y2 * y2)));
    lemma_coefficient_product(14int, (1int), 1int, (y2 * y2));
    assert((1int) * (y2 * y2) == y2 * y2) by (nonlinear_arith);
    assert((14 * (y2 * y2)) == (14int * (y2 * y2)));
    assert(((-147) + (14 * (y2 * y2))) == ((-147int) * (1int)) + (14int * (y2 * y2)));
    assert(((-147) + (14 * (y2 * y2))) == (((-147int) * (1int)) + (14int * (y2 * y2))));
    assert(y2 == (1int * (y2)));
    assert(y2 == (1int * (y2)));
    assert((y2 * y2) == (1int * (y2)) * (1int * (y2)));
    lemma_coefficient_product(1int, (y2), 1int, (y2));
    assert((y2) * (y2) == y2 * y2) by (nonlinear_arith);
    assert((y2 * y2) == (1int * (y2 * y2)));
    assert(y2 == (1int * (y2)));
    assert(((y2 * y2) * y2) == (1int * (y2 * y2)) * (1int * (y2)));
    lemma_coefficient_product(1int, (y2 * y2), 1int, (y2));
    assert((y2 * y2) * (y2) == y2 * y2 * y2) by (nonlinear_arith);
    assert(((y2 * y2) * y2) == (1int * (y2 * y2 * y2)));
    assert(y2 == (1int * (y2)));
    assert((((y2 * y2) * y2) * y2) == (1int * (y2 * y2 * y2)) * (1int * (y2)));
    lemma_coefficient_product(1int, (y2 * y2 * y2), 1int, (y2));
    assert((y2 * y2 * y2) * (y2) == y2 * y2 * y2 * y2) by (nonlinear_arith);
    assert((((y2 * y2) * y2) * y2) == (1int * (y2 * y2 * y2 * y2)));
    assert(((-2) * (((y2 * y2) * y2) * y2)) == ((-2int) * (1int)) * (1int * (y2 * y2 * y2 * y2)));
    lemma_coefficient_product((-2int), (1int), 1int, (y2 * y2 * y2 * y2));
    assert((1int) * (y2 * y2 * y2 * y2) == y2 * y2 * y2 * y2) by (nonlinear_arith);
    assert(((-2) * (((y2 * y2) * y2) * y2)) == ((-2int) * (y2 * y2 * y2 * y2)));
    assert((((-147) + (14 * (y2 * y2))) + ((-2) * (((y2 * y2) * y2) * y2))) == (((-147int) * (1int)) + (14int * (y2 * y2))) + ((-2int) * (y2 * y2 * y2 * y2)));
    assert((((-147) + (14 * (y2 * y2))) + ((-2) * (((y2 * y2) * y2) * y2))) == (((-147int) * (1int)) + ((14int * (y2 * y2)) + ((-2int) * (y2 * y2 * y2 * y2)))));
    assert(x2 == (1int * (x2)));
    assert(x2 == (1int * (x2)));
    assert((x2 * x2) == (1int * (x2)) * (1int * (x2)));
    lemma_coefficient_product(1int, (x2), 1int, (x2));
    assert((x2) * (x2) == x2 * x2) by (nonlinear_arith);
    assert((x2 * x2) == (1int * (x2 * x2)));
    assert(x2 == (1int * (x2)));
    assert(((x2 * x2) * x2) == (1int * (x2 * x2)) * (1int * (x2)));
    lemma_coefficient_product(1int, (x2 * x2), 1int, (x2));
    assert((x2 * x2) * (x2) == x2 * x2 * x2) by (nonlinear_arith);
    assert(((x2 * x2) * x2) == (1int * (x2 * x2 * x2)));
    assert((42 * ((x2 * x2) * x2)) == (42int * (1int)) * (1int * (x2 * x2 * x2)));
    lemma_coefficient_product(42int, (1int), 1int, (x2 * x2 * x2));
    assert((1int) * (x2 * x2 * x2) == x2 * x2 * x2) by (nonlinear_arith);
    assert((42 * ((x2 * x2) * x2)) == (42int * (x2 * x2 * x2)));
    assert(((((-147) + (14 * (y2 * y2))) + ((-2) * (((y2 * y2) * y2) * y2))) + (42 * ((x2 * x2) * x2))) == (((-147int) * (1int)) + ((14int * (y2 * y2)) + ((-2int) * (y2 * y2 * y2 * y2)))) + (42int * (x2 * x2 * x2)));
    assert(((((-147) + (14 * (y2 * y2))) + ((-2) * (((y2 * y2) * y2) * y2))) + (42 * ((x2 * x2) * x2))) == ((((-147int) * (1int)) + (14int * (y2 * y2))) + ((42int * (x2 * x2 * x2)) + ((-2int) * (y2 * y2 * y2 * y2)))));
    assert(x2 == (1int * (x2)));
    assert(x2 == (1int * (x2)));
    assert((x2 * x2) == (1int * (x2)) * (1int * (x2)));
    lemma_coefficient_product(1int, (x2), 1int, (x2));
    assert((x2) * (x2) == x2 * x2) by (nonlinear_arith);
    assert((x2 * x2) == (1int * (x2 * x2)));
    assert(x2 == (1int * (x2)));
    assert(((x2 * x2) * x2) == (1int * (x2 * x2)) * (1int * (x2)));
    lemma_coefficient_product(1int, (x2 * x2), 1int, (x2));
    assert((x2 * x2) * (x2) == x2 * x2 * x2) by (nonlinear_arith);
    assert(((x2 * x2) * x2) == (1int * (x2 * x2 * x2)));
    assert(y2 == (1int * (y2)));
    assert((((x2 * x2) * x2) * y2) == (1int * (x2 * x2 * x2)) * (1int * (y2)));
    lemma_coefficient_product(1int, (x2 * x2 * x2), 1int, (y2));
    assert((x2 * x2 * x2) * (y2) == x2 * x2 * x2 * y2) by (nonlinear_arith);
    assert((((x2 * x2) * x2) * y2) == (1int * (x2 * x2 * x2 * y2)));
    assert(y2 == (1int * (y2)));
    assert(((((x2 * x2) * x2) * y2) * y2) == (1int * (x2 * x2 * x2 * y2)) * (1int * (y2)));
    lemma_coefficient_product(1int, (x2 * x2 * x2 * y2), 1int, (y2));
    assert((x2 * x2 * x2 * y2) * (y2) == x2 * x2 * x2 * y2 * y2) by (nonlinear_arith);
    assert(((((x2 * x2) * x2) * y2) * y2) == (1int * (x2 * x2 * x2 * y2 * y2)));
    assert((2 * ((((x2 * x2) * x2) * y2) * y2)) == (2int * (1int)) * (1int * (x2 * x2 * x2 * y2 * y2)));
    lemma_coefficient_product(2int, (1int), 1int, (x2 * x2 * x2 * y2 * y2));
    assert((1int) * (x2 * x2 * x2 * y2 * y2) == x2 * x2 * x2 * y2 * y2) by (nonlinear_arith);
    assert((2 * ((((x2 * x2) * x2) * y2) * y2)) == (2int * (x2 * x2 * x2 * y2 * y2)));
    assert((((((-147) + (14 * (y2 * y2))) + ((-2) * (((y2 * y2) * y2) * y2))) + (42 * ((x2 * x2) * x2))) + (2 * ((((x2 * x2) * x2) * y2) * y2))) == ((((-147int) * (1int)) + (14int * (y2 * y2))) + ((42int * (x2 * x2 * x2)) + ((-2int) * (y2 * y2 * y2 * y2)))) + (2int * (x2 * x2 * x2 * y2 * y2)));
    assert((((((-147) + (14 * (y2 * y2))) + ((-2) * (((y2 * y2) * y2) * y2))) + (42 * ((x2 * x2) * x2))) + (2 * ((((x2 * x2) * x2) * y2) * y2))) == ((((-147int) * (1int)) + (14int * (y2 * y2))) + ((42int * (x2 * x2 * x2)) + (((-2int) * (y2 * y2 * y2 * y2)) + (2int * (x2 * x2 * x2 * y2 * y2))))));
    assert(y1 == (1int * (y1)));
    assert(y2 == (1int * (y2)));
    assert((y1 * y2) == (1int * (y1)) * (1int * (y2)));
    lemma_coefficient_product(1int, (y1), 1int, (y2));
    assert((y1) * (y2) == y1 * y2) by (nonlinear_arith);
    assert((y1 * y2) == (1int * (y1 * y2)));
    assert((35 * (y1 * y2)) == (35int * (1int)) * (1int * (y1 * y2)));
    lemma_coefficient_product(35int, (1int), 1int, (y1 * y2));
    assert((1int) * (y1 * y2) == y1 * y2) by (nonlinear_arith);
    assert((35 * (y1 * y2)) == (35int * (y1 * y2)));
    assert(((((((-147) + (14 * (y2 * y2))) + ((-2) * (((y2 * y2) * y2) * y2))) + (42 * ((x2 * x2) * x2))) + (2 * ((((x2 * x2) * x2) * y2) * y2))) + (35 * (y1 * y2))) == ((((-147int) * (1int)) + (14int * (y2 * y2))) + ((42int * (x2 * x2 * x2)) + (((-2int) * (y2 * y2 * y2 * y2)) + (2int * (x2 * x2 * x2 * y2 * y2))))) + (35int * (y1 * y2)));
    assert(((((((-147) + (14 * (y2 * y2))) + ((-2) * (((y2 * y2) * y2) * y2))) + (42 * ((x2 * x2) * x2))) + (2 * ((((x2 * x2) * x2) * y2) * y2))) + (35 * (y1 * y2))) == ((((-147int) * (1int)) + ((35int * (y1 * y2)) + (14int * (y2 * y2)))) + ((42int * (x2 * x2 * x2)) + (((-2int) * (y2 * y2 * y2 * y2)) + (2int * (x2 * x2 * x2 * y2 * y2))))));
    assert(y1 == (1int * (y1)));
    assert(x2 == (1int * (x2)));
    assert((y1 * x2) == (1int * (y1)) * (1int * (x2)));
    lemma_coefficient_product(1int, (y1), 1int, (x2));
    assert((y1) * (x2) == y1 * x2) by (nonlinear_arith);
    assert((y1 * x2) == (1int * (y1 * x2)));
    assert(x2 == (1int * (x2)));
    assert(((y1 * x2) * x2) == (1int * (y1 * x2)) * (1int * (x2)));
    lemma_coefficient_product(1int, (y1 * x2), 1int, (x2));
    assert((y1 * x2) * (x2) == y1 * x2 * x2) by (nonlinear_arith);
    assert(((y1 * x2) * x2) == (1int * (y1 * x2 * x2)));
    assert(x2 == (1int * (x2)));
    assert((((y1 * x2) * x2) * x2) == (1int * (y1 * x2 * x2)) * (1int * (x2)));
    lemma_coefficient_product(1int, (y1 * x2 * x2), 1int, (x2));
    assert((y1 * x2 * x2) * (x2) == y1 * x2 * x2 * x2) by (nonlinear_arith);
    assert((((y1 * x2) * x2) * x2) == (1int * (y1 * x2 * x2 * x2)));
    assert(y2 == (1int * (y2)));
    assert(((((y1 * x2) * x2) * x2) * y2) == (1int * (y1 * x2 * x2 * x2)) * (1int * (y2)));
    lemma_coefficient_product(1int, (y1 * x2 * x2 * x2), 1int, (y2));
    assert((y1 * x2 * x2 * x2) * (y2) == y1 * x2 * x2 * x2 * y2) by (nonlinear_arith);
    assert(((((y1 * x2) * x2) * x2) * y2) == (1int * (y1 * x2 * x2 * x2 * y2)));
    assert((2 * ((((y1 * x2) * x2) * x2) * y2)) == (2int * (1int)) * (1int * (y1 * x2 * x2 * x2 * y2)));
    lemma_coefficient_product(2int, (1int), 1int, (y1 * x2 * x2 * x2 * y2));
    assert((1int) * (y1 * x2 * x2 * x2 * y2) == y1 * x2 * x2 * x2 * y2) by (nonlinear_arith);
    assert((2 * ((((y1 * x2) * x2) * x2) * y2)) == (2int * (y1 * x2 * x2 * x2 * y2)));
    assert((((((((-147) + (14 * (y2 * y2))) + ((-2) * (((y2 * y2) * y2) * y2))) + (42 * ((x2 * x2) * x2))) + (2 * ((((x2 * x2) * x2) * y2) * y2))) + (35 * (y1 * y2))) + (2 * ((((y1 * x2) * x2) * x2) * y2))) == ((((-147int) * (1int)) + ((35int * (y1 * y2)) + (14int * (y2 * y2)))) + ((42int * (x2 * x2 * x2)) + (((-2int) * (y2 * y2 * y2 * y2)) + (2int * (x2 * x2 * x2 * y2 * y2))))) + (2int * (y1 * x2 * x2 * x2 * y2)));
    assert((((((((-147) + (14 * (y2 * y2))) + ((-2) * (((y2 * y2) * y2) * y2))) + (42 * ((x2 * x2) * x2))) + (2 * ((((x2 * x2) * x2) * y2) * y2))) + (35 * (y1 * y2))) + (2 * ((((y1 * x2) * x2) * x2) * y2))) == ((((-147int) * (1int)) + ((35int * (y1 * y2)) + (14int * (y2 * y2)))) + (((42int * (x2 * x2 * x2)) + ((-2int) * (y2 * y2 * y2 * y2))) + ((2int * (y1 * x2 * x2 * x2 * y2)) + (2int * (x2 * x2 * x2 * y2 * y2))))));
    assert(y1 == (1int * (y1)));
    assert(y1 == (1int * (y1)));
    assert((y1 * y1) == (1int * (y1)) * (1int * (y1)));
    lemma_coefficient_product(1int, (y1), 1int, (y1));
    assert((y1) * (y1) == y1 * y1) by (nonlinear_arith);
    assert((y1 * y1) == (1int * (y1 * y1)));
    assert(((-21) * (y1 * y1)) == ((-21int) * (1int)) * (1int * (y1 * y1)));
    lemma_coefficient_product((-21int), (1int), 1int, (y1 * y1));
    assert((1int) * (y1 * y1) == y1 * y1) by (nonlinear_arith);
    assert(((-21) * (y1 * y1)) == ((-21int) * (y1 * y1)));
    assert(((((((((-147) + (14 * (y2 * y2))) + ((-2) * (((y2 * y2) * y2) * y2))) + (42 * ((x2 * x2) * x2))) + (2 * ((((x2 * x2) * x2) * y2) * y2))) + (35 * (y1 * y2))) + (2 * ((((y1 * x2) * x2) * x2) * y2))) + ((-21) * (y1 * y1))) == ((((-147int) * (1int)) + ((35int * (y1 * y2)) + (14int * (y2 * y2)))) + (((42int * (x2 * x2 * x2)) + ((-2int) * (y2 * y2 * y2 * y2))) + ((2int * (y1 * x2 * x2 * x2 * y2)) + (2int * (x2 * x2 * x2 * y2 * y2))))) + ((-21int) * (y1 * y1)));
    assert(((((((((-147) + (14 * (y2 * y2))) + ((-2) * (((y2 * y2) * y2) * y2))) + (42 * ((x2 * x2) * x2))) + (2 * ((((x2 * x2) * x2) * y2) * y2))) + (35 * (y1 * y2))) + (2 * ((((y1 * x2) * x2) * x2) * y2))) + ((-21) * (y1 * y1))) == (((((-147int) * (1int)) + ((-21int) * (y1 * y1))) + ((35int * (y1 * y2)) + (14int * (y2 * y2)))) + (((42int * (x2 * x2 * x2)) + ((-2int) * (y2 * y2 * y2 * y2))) + ((2int * (y1 * x2 * x2 * x2 * y2)) + (2int * (x2 * x2 * x2 * y2 * y2))))));
    assert(y1 == (1int * (y1)));
    assert(y1 == (1int * (y1)));
    assert((y1 * y1) == (1int * (y1)) * (1int * (y1)));
    lemma_coefficient_product(1int, (y1), 1int, (y1));
    assert((y1) * (y1) == y1 * y1) by (nonlinear_arith);
    assert((y1 * y1) == (1int * (y1 * y1)));
    assert(y2 == (1int * (y2)));
    assert(((y1 * y1) * y2) == (1int * (y1 * y1)) * (1int * (y2)));
    lemma_coefficient_product(1int, (y1 * y1), 1int, (y2));
    assert((y1 * y1) * (y2) == y1 * y1 * y2) by (nonlinear_arith);
    assert(((y1 * y1) * y2) == (1int * (y1 * y1 * y2)));
    assert(y2 == (1int * (y2)));
    assert((((y1 * y1) * y2) * y2) == (1int * (y1 * y1 * y2)) * (1int * (y2)));
    lemma_coefficient_product(1int, (y1 * y1 * y2), 1int, (y2));
    assert((y1 * y1 * y2) * (y2) == y1 * y1 * y2 * y2) by (nonlinear_arith);
    assert((((y1 * y1) * y2) * y2) == (1int * (y1 * y1 * y2 * y2)));
    assert((2 * (((y1 * y1) * y2) * y2)) == (2int * (1int)) * (1int * (y1 * y1 * y2 * y2)));
    lemma_coefficient_product(2int, (1int), 1int, (y1 * y1 * y2 * y2));
    assert((1int) * (y1 * y1 * y2 * y2) == y1 * y1 * y2 * y2) by (nonlinear_arith);
    assert((2 * (((y1 * y1) * y2) * y2)) == (2int * (y1 * y1 * y2 * y2)));
    assert((((((((((-147) + (14 * (y2 * y2))) + ((-2) * (((y2 * y2) * y2) * y2))) + (42 * ((x2 * x2) * x2))) + (2 * ((((x2 * x2) * x2) * y2) * y2))) + (35 * (y1 * y2))) + (2 * ((((y1 * x2) * x2) * x2) * y2))) + ((-21) * (y1 * y1))) + (2 * (((y1 * y1) * y2) * y2))) == (((((-147int) * (1int)) + ((-21int) * (y1 * y1))) + ((35int * (y1 * y2)) + (14int * (y2 * y2)))) + (((42int * (x2 * x2 * x2)) + ((-2int) * (y2 * y2 * y2 * y2))) + ((2int * (y1 * x2 * x2 * x2 * y2)) + (2int * (x2 * x2 * x2 * y2 * y2))))) + (2int * (y1 * y1 * y2 * y2)));
    assert((((((((((-147) + (14 * (y2 * y2))) + ((-2) * (((y2 * y2) * y2) * y2))) + (42 * ((x2 * x2) * x2))) + (2 * ((((x2 * x2) * x2) * y2) * y2))) + (35 * (y1 * y2))) + (2 * ((((y1 * x2) * x2) * x2) * y2))) + ((-21) * (y1 * y1))) + (2 * (((y1 * y1) * y2) * y2))) == (((((-147int) * (1int)) + ((-21int) * (y1 * y1))) + ((35int * (y1 * y2)) + (14int * (y2 * y2)))) + (((42int * (x2 * x2 * x2)) + (2int * (y1 * y1 * y2 * y2))) + (((-2int) * (y2 * y2 * y2 * y2)) + ((2int * (y1 * x2 * x2 * x2 * y2)) + (2int * (x2 * x2 * x2 * y2 * y2)))))));
    assert(y1 == (1int * (y1)));
    assert(y1 == (1int * (y1)));
    assert((y1 * y1) == (1int * (y1)) * (1int * (y1)));
    lemma_coefficient_product(1int, (y1), 1int, (y1));
    assert((y1) * (y1) == y1 * y1) by (nonlinear_arith);
    assert((y1 * y1) == (1int * (y1 * y1)));
    assert(y1 == (1int * (y1)));
    assert(((y1 * y1) * y1) == (1int * (y1 * y1)) * (1int * (y1)));
    lemma_coefficient_product(1int, (y1 * y1), 1int, (y1));
    assert((y1 * y1) * (y1) == y1 * y1 * y1) by (nonlinear_arith);
    assert(((y1 * y1) * y1) == (1int * (y1 * y1 * y1)));
    assert(y2 == (1int * (y2)));
    assert((((y1 * y1) * y1) * y2) == (1int * (y1 * y1 * y1)) * (1int * (y2)));
    lemma_coefficient_product(1int, (y1 * y1 * y1), 1int, (y2));
    assert((y1 * y1 * y1) * (y2) == y1 * y1 * y1 * y2) by (nonlinear_arith);
    assert((((y1 * y1) * y1) * y2) == (1int * (y1 * y1 * y1 * y2)));
    assert(((-1) * (((y1 * y1) * y1) * y2)) == ((-1int) * (1int)) * (1int * (y1 * y1 * y1 * y2)));
    lemma_coefficient_product((-1int), (1int), 1int, (y1 * y1 * y1 * y2));
    assert((1int) * (y1 * y1 * y1 * y2) == y1 * y1 * y1 * y2) by (nonlinear_arith);
    assert(((-1) * (((y1 * y1) * y1) * y2)) == ((-1int) * (y1 * y1 * y1 * y2)));
    assert(((((((((((-147) + (14 * (y2 * y2))) + ((-2) * (((y2 * y2) * y2) * y2))) + (42 * ((x2 * x2) * x2))) + (2 * ((((x2 * x2) * x2) * y2) * y2))) + (35 * (y1 * y2))) + (2 * ((((y1 * x2) * x2) * x2) * y2))) + ((-21) * (y1 * y1))) + (2 * (((y1 * y1) * y2) * y2))) + ((-1) * (((y1 * y1) * y1) * y2))) == (((((-147int) * (1int)) + ((-21int) * (y1 * y1))) + ((35int * (y1 * y2)) + (14int * (y2 * y2)))) + (((42int * (x2 * x2 * x2)) + (2int * (y1 * y1 * y2 * y2))) + (((-2int) * (y2 * y2 * y2 * y2)) + ((2int * (y1 * x2 * x2 * x2 * y2)) + (2int * (x2 * x2 * x2 * y2 * y2)))))) + ((-1int) * (y1 * y1 * y1 * y2)));
    assert(((((((((((-147) + (14 * (y2 * y2))) + ((-2) * (((y2 * y2) * y2) * y2))) + (42 * ((x2 * x2) * x2))) + (2 * ((((x2 * x2) * x2) * y2) * y2))) + (35 * (y1 * y2))) + (2 * ((((y1 * x2) * x2) * x2) * y2))) + ((-21) * (y1 * y1))) + (2 * (((y1 * y1) * y2) * y2))) + ((-1) * (((y1 * y1) * y1) * y2))) == (((((-147int) * (1int)) + ((-21int) * (y1 * y1))) + ((35int * (y1 * y2)) + ((14int * (y2 * y2)) + (42int * (x2 * x2 * x2))))) + ((((-1int) * (y1 * y1 * y1 * y2)) + (2int * (y1 * y1 * y2 * y2))) + (((-2int) * (y2 * y2 * y2 * y2)) + ((2int * (y1 * x2 * x2 * x2 * y2)) + (2int * (x2 * x2 * x2 * y2 * y2)))))));
    assert(x1 == (1int * (x1)));
    assert(x2 == (1int * (x2)));
    assert((x1 * x2) == (1int * (x1)) * (1int * (x2)));
    lemma_coefficient_product(1int, (x1), 1int, (x2));
    assert((x1) * (x2) == x1 * x2) by (nonlinear_arith);
    assert((x1 * x2) == (1int * (x1 * x2)));
    assert(x2 == (1int * (x2)));
    assert(((x1 * x2) * x2) == (1int * (x1 * x2)) * (1int * (x2)));
    lemma_coefficient_product(1int, (x1 * x2), 1int, (x2));
    assert((x1 * x2) * (x2) == x1 * x2 * x2) by (nonlinear_arith);
    assert(((x1 * x2) * x2) == (1int * (x1 * x2 * x2)));
    assert(((-84) * ((x1 * x2) * x2)) == ((-84int) * (1int)) * (1int * (x1 * x2 * x2)));
    lemma_coefficient_product((-84int), (1int), 1int, (x1 * x2 * x2));
    assert((1int) * (x1 * x2 * x2) == x1 * x2 * x2) by (nonlinear_arith);
    assert(((-84) * ((x1 * x2) * x2)) == ((-84int) * (x1 * x2 * x2)));
    assert((((((((((((-147) + (14 * (y2 * y2))) + ((-2) * (((y2 * y2) * y2) * y2))) + (42 * ((x2 * x2) * x2))) + (2 * ((((x2 * x2) * x2) * y2) * y2))) + (35 * (y1 * y2))) + (2 * ((((y1 * x2) * x2) * x2) * y2))) + ((-21) * (y1 * y1))) + (2 * (((y1 * y1) * y2) * y2))) + ((-1) * (((y1 * y1) * y1) * y2))) + ((-84) * ((x1 * x2) * x2))) == (((((-147int) * (1int)) + ((-21int) * (y1 * y1))) + ((35int * (y1 * y2)) + ((14int * (y2 * y2)) + (42int * (x2 * x2 * x2))))) + ((((-1int) * (y1 * y1 * y1 * y2)) + (2int * (y1 * y1 * y2 * y2))) + (((-2int) * (y2 * y2 * y2 * y2)) + ((2int * (y1 * x2 * x2 * x2 * y2)) + (2int * (x2 * x2 * x2 * y2 * y2)))))) + ((-84int) * (x1 * x2 * x2)));
    assert((((((((((((-147) + (14 * (y2 * y2))) + ((-2) * (((y2 * y2) * y2) * y2))) + (42 * ((x2 * x2) * x2))) + (2 * ((((x2 * x2) * x2) * y2) * y2))) + (35 * (y1 * y2))) + (2 * ((((y1 * x2) * x2) * x2) * y2))) + ((-21) * (y1 * y1))) + (2 * (((y1 * y1) * y2) * y2))) + ((-1) * (((y1 * y1) * y1) * y2))) + ((-84) * ((x1 * x2) * x2))) == (((((-147int) * (1int)) + ((-21int) * (y1 * y1))) + ((35int * (y1 * y2)) + ((14int * (y2 * y2)) + ((-84int) * (x1 * x2 * x2))))) + (((42int * (x2 * x2 * x2)) + (((-1int) * (y1 * y1 * y1 * y2)) + (2int * (y1 * y1 * y2 * y2)))) + (((-2int) * (y2 * y2 * y2 * y2)) + ((2int * (y1 * x2 * x2 * x2 * y2)) + (2int * (x2 * x2 * x2 * y2 * y2)))))));
    assert(x1 == (1int * (x1)));
    assert(x2 == (1int * (x2)));
    assert((x1 * x2) == (1int * (x1)) * (1int * (x2)));
    lemma_coefficient_product(1int, (x1), 1int, (x2));
    assert((x1) * (x2) == x1 * x2) by (nonlinear_arith);
    assert((x1 * x2) == (1int * (x1 * x2)));
    assert(x2 == (1int * (x2)));
    assert(((x1 * x2) * x2) == (1int * (x1 * x2)) * (1int * (x2)));
    lemma_coefficient_product(1int, (x1 * x2), 1int, (x2));
    assert((x1 * x2) * (x2) == x1 * x2 * x2) by (nonlinear_arith);
    assert(((x1 * x2) * x2) == (1int * (x1 * x2 * x2)));
    assert(y2 == (1int * (y2)));
    assert((((x1 * x2) * x2) * y2) == (1int * (x1 * x2 * x2)) * (1int * (y2)));
    lemma_coefficient_product(1int, (x1 * x2 * x2), 1int, (y2));
    assert((x1 * x2 * x2) * (y2) == x1 * x2 * x2 * y2) by (nonlinear_arith);
    assert((((x1 * x2) * x2) * y2) == (1int * (x1 * x2 * x2 * y2)));
    assert(y2 == (1int * (y2)));
    assert(((((x1 * x2) * x2) * y2) * y2) == (1int * (x1 * x2 * x2 * y2)) * (1int * (y2)));
    lemma_coefficient_product(1int, (x1 * x2 * x2 * y2), 1int, (y2));
    assert((x1 * x2 * x2 * y2) * (y2) == x1 * x2 * x2 * y2 * y2) by (nonlinear_arith);
    assert(((((x1 * x2) * x2) * y2) * y2) == (1int * (x1 * x2 * x2 * y2 * y2)));
    assert(((-15) * ((((x1 * x2) * x2) * y2) * y2)) == ((-15int) * (1int)) * (1int * (x1 * x2 * x2 * y2 * y2)));
    lemma_coefficient_product((-15int), (1int), 1int, (x1 * x2 * x2 * y2 * y2));
    assert((1int) * (x1 * x2 * x2 * y2 * y2) == x1 * x2 * x2 * y2 * y2) by (nonlinear_arith);
    assert(((-15) * ((((x1 * x2) * x2) * y2) * y2)) == ((-15int) * (x1 * x2 * x2 * y2 * y2)));
    assert(((((((((((((-147) + (14 * (y2 * y2))) + ((-2) * (((y2 * y2) * y2) * y2))) + (42 * ((x2 * x2) * x2))) + (2 * ((((x2 * x2) * x2) * y2) * y2))) + (35 * (y1 * y2))) + (2 * ((((y1 * x2) * x2) * x2) * y2))) + ((-21) * (y1 * y1))) + (2 * (((y1 * y1) * y2) * y2))) + ((-1) * (((y1 * y1) * y1) * y2))) + ((-84) * ((x1 * x2) * x2))) + ((-15) * ((((x1 * x2) * x2) * y2) * y2))) == (((((-147int) * (1int)) + ((-21int) * (y1 * y1))) + ((35int * (y1 * y2)) + ((14int * (y2 * y2)) + ((-84int) * (x1 * x2 * x2))))) + (((42int * (x2 * x2 * x2)) + (((-1int) * (y1 * y1 * y1 * y2)) + (2int * (y1 * y1 * y2 * y2)))) + (((-2int) * (y2 * y2 * y2 * y2)) + ((2int * (y1 * x2 * x2 * x2 * y2)) + (2int * (x2 * x2 * x2 * y2 * y2)))))) + ((-15int) * (x1 * x2 * x2 * y2 * y2)));
    assert(((((((((((((-147) + (14 * (y2 * y2))) + ((-2) * (((y2 * y2) * y2) * y2))) + (42 * ((x2 * x2) * x2))) + (2 * ((((x2 * x2) * x2) * y2) * y2))) + (35 * (y1 * y2))) + (2 * ((((y1 * x2) * x2) * x2) * y2))) + ((-21) * (y1 * y1))) + (2 * (((y1 * y1) * y2) * y2))) + ((-1) * (((y1 * y1) * y1) * y2))) + ((-84) * ((x1 * x2) * x2))) + ((-15) * ((((x1 * x2) * x2) * y2) * y2))) == (((((-147int) * (1int)) + (((-21int) * (y1 * y1)) + (35int * (y1 * y2)))) + ((14int * (y2 * y2)) + (((-84int) * (x1 * x2 * x2)) + (42int * (x2 * x2 * x2))))) + ((((-1int) * (y1 * y1 * y1 * y2)) + ((2int * (y1 * y1 * y2 * y2)) + ((-2int) * (y2 * y2 * y2 * y2)))) + (((-15int) * (x1 * x2 * x2 * y2 * y2)) + ((2int * (y1 * x2 * x2 * x2 * y2)) + (2int * (x2 * x2 * x2 * y2 * y2)))))));
    assert(x1 == (1int * (x1)));
    assert(x2 == (1int * (x2)));
    assert((x1 * x2) == (1int * (x1)) * (1int * (x2)));
    lemma_coefficient_product(1int, (x1), 1int, (x2));
    assert((x1) * (x2) == x1 * x2) by (nonlinear_arith);
    assert((x1 * x2) == (1int * (x1 * x2)));
    assert(x2 == (1int * (x2)));
    assert(((x1 * x2) * x2) == (1int * (x1 * x2)) * (1int * (x2)));
    lemma_coefficient_product(1int, (x1 * x2), 1int, (x2));
    assert((x1 * x2) * (x2) == x1 * x2 * x2) by (nonlinear_arith);
    assert(((x1 * x2) * x2) == (1int * (x1 * x2 * x2)));
    assert(x2 == (1int * (x2)));
    assert((((x1 * x2) * x2) * x2) == (1int * (x1 * x2 * x2)) * (1int * (x2)));
    lemma_coefficient_product(1int, (x1 * x2 * x2), 1int, (x2));
    assert((x1 * x2 * x2) * (x2) == x1 * x2 * x2 * x2) by (nonlinear_arith);
    assert((((x1 * x2) * x2) * x2) == (1int * (x1 * x2 * x2 * x2)));
    assert(x2 == (1int * (x2)));
    assert(((((x1 * x2) * x2) * x2) * x2) == (1int * (x1 * x2 * x2 * x2)) * (1int * (x2)));
    lemma_coefficient_product(1int, (x1 * x2 * x2 * x2), 1int, (x2));
    assert((x1 * x2 * x2 * x2) * (x2) == x1 * x2 * x2 * x2 * x2) by (nonlinear_arith);
    assert(((((x1 * x2) * x2) * x2) * x2) == (1int * (x1 * x2 * x2 * x2 * x2)));
    assert(x2 == (1int * (x2)));
    assert((((((x1 * x2) * x2) * x2) * x2) * x2) == (1int * (x1 * x2 * x2 * x2 * x2)) * (1int * (x2)));
    lemma_coefficient_product(1int, (x1 * x2 * x2 * x2 * x2), 1int, (x2));
    assert((x1 * x2 * x2 * x2 * x2) * (x2) == x1 * x2 * x2 * x2 * x2 * x2) by (nonlinear_arith);
    assert((((((x1 * x2) * x2) * x2) * x2) * x2) == (1int * (x1 * x2 * x2 * x2 * x2 * x2)));
    assert((6 * (((((x1 * x2) * x2) * x2) * x2) * x2)) == (6int * (1int)) * (1int * (x1 * x2 * x2 * x2 * x2 * x2)));
    lemma_coefficient_product(6int, (1int), 1int, (x1 * x2 * x2 * x2 * x2 * x2));
    assert((1int) * (x1 * x2 * x2 * x2 * x2 * x2) == x1 * x2 * x2 * x2 * x2 * x2) by (nonlinear_arith);
    assert((6 * (((((x1 * x2) * x2) * x2) * x2) * x2)) == (6int * (x1 * x2 * x2 * x2 * x2 * x2)));
    assert((((((((((((((-147) + (14 * (y2 * y2))) + ((-2) * (((y2 * y2) * y2) * y2))) + (42 * ((x2 * x2) * x2))) + (2 * ((((x2 * x2) * x2) * y2) * y2))) + (35 * (y1 * y2))) + (2 * ((((y1 * x2) * x2) * x2) * y2))) + ((-21) * (y1 * y1))) + (2 * (((y1 * y1) * y2) * y2))) + ((-1) * (((y1 * y1) * y1) * y2))) + ((-84) * ((x1 * x2) * x2))) + ((-15) * ((((x1 * x2) * x2) * y2) * y2))) + (6 * (((((x1 * x2) * x2) * x2) * x2) * x2))) == (((((-147int) * (1int)) + (((-21int) * (y1 * y1)) + (35int * (y1 * y2)))) + ((14int * (y2 * y2)) + (((-84int) * (x1 * x2 * x2)) + (42int * (x2 * x2 * x2))))) + ((((-1int) * (y1 * y1 * y1 * y2)) + ((2int * (y1 * y1 * y2 * y2)) + ((-2int) * (y2 * y2 * y2 * y2)))) + (((-15int) * (x1 * x2 * x2 * y2 * y2)) + ((2int * (y1 * x2 * x2 * x2 * y2)) + (2int * (x2 * x2 * x2 * y2 * y2)))))) + (6int * (x1 * x2 * x2 * x2 * x2 * x2)));
    assert((((((((((((((-147) + (14 * (y2 * y2))) + ((-2) * (((y2 * y2) * y2) * y2))) + (42 * ((x2 * x2) * x2))) + (2 * ((((x2 * x2) * x2) * y2) * y2))) + (35 * (y1 * y2))) + (2 * ((((y1 * x2) * x2) * x2) * y2))) + ((-21) * (y1 * y1))) + (2 * (((y1 * y1) * y2) * y2))) + ((-1) * (((y1 * y1) * y1) * y2))) + ((-84) * ((x1 * x2) * x2))) + ((-15) * ((((x1 * x2) * x2) * y2) * y2))) + (6 * (((((x1 * x2) * x2) * x2) * x2) * x2))) == (((((-147int) * (1int)) + (((-21int) * (y1 * y1)) + (35int * (y1 * y2)))) + ((14int * (y2 * y2)) + (((-84int) * (x1 * x2 * x2)) + (42int * (x2 * x2 * x2))))) + ((((-1int) * (y1 * y1 * y1 * y2)) + ((2int * (y1 * y1 * y2 * y2)) + ((-2int) * (y2 * y2 * y2 * y2)))) + ((((-15int) * (x1 * x2 * x2 * y2 * y2)) + (2int * (y1 * x2 * x2 * x2 * y2))) + ((2int * (x2 * x2 * x2 * y2 * y2)) + (6int * (x1 * x2 * x2 * x2 * x2 * x2)))))));
    assert(x1 == (1int * (x1)));
    assert(y1 == (1int * (y1)));
    assert((x1 * y1) == (1int * (x1)) * (1int * (y1)));
    lemma_coefficient_product(1int, (x1), 1int, (y1));
    assert((x1) * (y1) == x1 * y1) by (nonlinear_arith);
    assert((x1 * y1) == (1int * (x1 * y1)));
    assert(x2 == (1int * (x2)));
    assert(((x1 * y1) * x2) == (1int * (x1 * y1)) * (1int * (x2)));
    lemma_coefficient_product(1int, (x1 * y1), 1int, (x2));
    assert((x1 * y1) * (x2) == x1 * y1 * x2) by (nonlinear_arith);
    assert(((x1 * y1) * x2) == (1int * (x1 * y1 * x2)));
    assert(x2 == (1int * (x2)));
    assert((((x1 * y1) * x2) * x2) == (1int * (x1 * y1 * x2)) * (1int * (x2)));
    lemma_coefficient_product(1int, (x1 * y1 * x2), 1int, (x2));
    assert((x1 * y1 * x2) * (x2) == x1 * y1 * x2 * x2) by (nonlinear_arith);
    assert((((x1 * y1) * x2) * x2) == (1int * (x1 * y1 * x2 * x2)));
    assert(y2 == (1int * (y2)));
    assert(((((x1 * y1) * x2) * x2) * y2) == (1int * (x1 * y1 * x2 * x2)) * (1int * (y2)));
    lemma_coefficient_product(1int, (x1 * y1 * x2 * x2), 1int, (y2));
    assert((x1 * y1 * x2 * x2) * (y2) == x1 * y1 * x2 * x2 * y2) by (nonlinear_arith);
    assert(((((x1 * y1) * x2) * x2) * y2) == (1int * (x1 * y1 * x2 * x2 * y2)));
    assert((6 * ((((x1 * y1) * x2) * x2) * y2)) == (6int * (1int)) * (1int * (x1 * y1 * x2 * x2 * y2)));
    lemma_coefficient_product(6int, (1int), 1int, (x1 * y1 * x2 * x2 * y2));
    assert((1int) * (x1 * y1 * x2 * x2 * y2) == x1 * y1 * x2 * x2 * y2) by (nonlinear_arith);
    assert((6 * ((((x1 * y1) * x2) * x2) * y2)) == (6int * (x1 * y1 * x2 * x2 * y2)));
    assert(((((((((((((((-147) + (14 * (y2 * y2))) + ((-2) * (((y2 * y2) * y2) * y2))) + (42 * ((x2 * x2) * x2))) + (2 * ((((x2 * x2) * x2) * y2) * y2))) + (35 * (y1 * y2))) + (2 * ((((y1 * x2) * x2) * x2) * y2))) + ((-21) * (y1 * y1))) + (2 * (((y1 * y1) * y2) * y2))) + ((-1) * (((y1 * y1) * y1) * y2))) + ((-84) * ((x1 * x2) * x2))) + ((-15) * ((((x1 * x2) * x2) * y2) * y2))) + (6 * (((((x1 * x2) * x2) * x2) * x2) * x2))) + (6 * ((((x1 * y1) * x2) * x2) * y2))) == (((((-147int) * (1int)) + (((-21int) * (y1 * y1)) + (35int * (y1 * y2)))) + ((14int * (y2 * y2)) + (((-84int) * (x1 * x2 * x2)) + (42int * (x2 * x2 * x2))))) + ((((-1int) * (y1 * y1 * y1 * y2)) + ((2int * (y1 * y1 * y2 * y2)) + ((-2int) * (y2 * y2 * y2 * y2)))) + ((((-15int) * (x1 * x2 * x2 * y2 * y2)) + (2int * (y1 * x2 * x2 * x2 * y2))) + ((2int * (x2 * x2 * x2 * y2 * y2)) + (6int * (x1 * x2 * x2 * x2 * x2 * x2)))))) + (6int * (x1 * y1 * x2 * x2 * y2)));
    assert(((((((((((((((-147) + (14 * (y2 * y2))) + ((-2) * (((y2 * y2) * y2) * y2))) + (42 * ((x2 * x2) * x2))) + (2 * ((((x2 * x2) * x2) * y2) * y2))) + (35 * (y1 * y2))) + (2 * ((((y1 * x2) * x2) * x2) * y2))) + ((-21) * (y1 * y1))) + (2 * (((y1 * y1) * y2) * y2))) + ((-1) * (((y1 * y1) * y1) * y2))) + ((-84) * ((x1 * x2) * x2))) + ((-15) * ((((x1 * x2) * x2) * y2) * y2))) + (6 * (((((x1 * x2) * x2) * x2) * x2) * x2))) + (6 * ((((x1 * y1) * x2) * x2) * y2))) == (((((-147int) * (1int)) + (((-21int) * (y1 * y1)) + (35int * (y1 * y2)))) + (((14int * (y2 * y2)) + ((-84int) * (x1 * x2 * x2))) + ((42int * (x2 * x2 * x2)) + ((-1int) * (y1 * y1 * y1 * y2))))) + (((2int * (y1 * y1 * y2 * y2)) + (((-2int) * (y2 * y2 * y2 * y2)) + (6int * (x1 * y1 * x2 * x2 * y2)))) + ((((-15int) * (x1 * x2 * x2 * y2 * y2)) + (2int * (y1 * x2 * x2 * x2 * y2))) + ((2int * (x2 * x2 * x2 * y2 * y2)) + (6int * (x1 * x2 * x2 * x2 * x2 * x2)))))));
    assert(x1 == (1int * (x1)));
    assert(y1 == (1int * (y1)));
    assert((x1 * y1) == (1int * (x1)) * (1int * (y1)));
    lemma_coefficient_product(1int, (x1), 1int, (y1));
    assert((x1) * (y1) == x1 * y1) by (nonlinear_arith);
    assert((x1 * y1) == (1int * (x1 * y1)));
    assert(y1 == (1int * (y1)));
    assert(((x1 * y1) * y1) == (1int * (x1 * y1)) * (1int * (y1)));
    lemma_coefficient_product(1int, (x1 * y1), 1int, (y1));
    assert((x1 * y1) * (y1) == x1 * y1 * y1) by (nonlinear_arith);
    assert(((x1 * y1) * y1) == (1int * (x1 * y1 * y1)));
    assert(x2 == (1int * (x2)));
    assert((((x1 * y1) * y1) * x2) == (1int * (x1 * y1 * y1)) * (1int * (x2)));
    lemma_coefficient_product(1int, (x1 * y1 * y1), 1int, (x2));
    assert((x1 * y1 * y1) * (x2) == x1 * y1 * y1 * x2) by (nonlinear_arith);
    assert((((x1 * y1) * y1) * x2) == (1int * (x1 * y1 * y1 * x2)));
    assert(x2 == (1int * (x2)));
    assert(((((x1 * y1) * y1) * x2) * x2) == (1int * (x1 * y1 * y1 * x2)) * (1int * (x2)));
    lemma_coefficient_product(1int, (x1 * y1 * y1 * x2), 1int, (x2));
    assert((x1 * y1 * y1 * x2) * (x2) == x1 * y1 * y1 * x2 * x2) by (nonlinear_arith);
    assert(((((x1 * y1) * y1) * x2) * x2) == (1int * (x1 * y1 * y1 * x2 * x2)));
    assert(((-3) * ((((x1 * y1) * y1) * x2) * x2)) == ((-3int) * (1int)) * (1int * (x1 * y1 * y1 * x2 * x2)));
    lemma_coefficient_product((-3int), (1int), 1int, (x1 * y1 * y1 * x2 * x2));
    assert((1int) * (x1 * y1 * y1 * x2 * x2) == x1 * y1 * y1 * x2 * x2) by (nonlinear_arith);
    assert(((-3) * ((((x1 * y1) * y1) * x2) * x2)) == ((-3int) * (x1 * y1 * y1 * x2 * x2)));
    assert((((((((((((((((-147) + (14 * (y2 * y2))) + ((-2) * (((y2 * y2) * y2) * y2))) + (42 * ((x2 * x2) * x2))) + (2 * ((((x2 * x2) * x2) * y2) * y2))) + (35 * (y1 * y2))) + (2 * ((((y1 * x2) * x2) * x2) * y2))) + ((-21) * (y1 * y1))) + (2 * (((y1 * y1) * y2) * y2))) + ((-1) * (((y1 * y1) * y1) * y2))) + ((-84) * ((x1 * x2) * x2))) + ((-15) * ((((x1 * x2) * x2) * y2) * y2))) + (6 * (((((x1 * x2) * x2) * x2) * x2) * x2))) + (6 * ((((x1 * y1) * x2) * x2) * y2))) + ((-3) * ((((x1 * y1) * y1) * x2) * x2))) == (((((-147int) * (1int)) + (((-21int) * (y1 * y1)) + (35int * (y1 * y2)))) + (((14int * (y2 * y2)) + ((-84int) * (x1 * x2 * x2))) + ((42int * (x2 * x2 * x2)) + ((-1int) * (y1 * y1 * y1 * y2))))) + (((2int * (y1 * y1 * y2 * y2)) + (((-2int) * (y2 * y2 * y2 * y2)) + (6int * (x1 * y1 * x2 * x2 * y2)))) + ((((-15int) * (x1 * x2 * x2 * y2 * y2)) + (2int * (y1 * x2 * x2 * x2 * y2))) + ((2int * (x2 * x2 * x2 * y2 * y2)) + (6int * (x1 * x2 * x2 * x2 * x2 * x2)))))) + ((-3int) * (x1 * y1 * y1 * x2 * x2)));
    assert((((((((((((((((-147) + (14 * (y2 * y2))) + ((-2) * (((y2 * y2) * y2) * y2))) + (42 * ((x2 * x2) * x2))) + (2 * ((((x2 * x2) * x2) * y2) * y2))) + (35 * (y1 * y2))) + (2 * ((((y1 * x2) * x2) * x2) * y2))) + ((-21) * (y1 * y1))) + (2 * (((y1 * y1) * y2) * y2))) + ((-1) * (((y1 * y1) * y1) * y2))) + ((-84) * ((x1 * x2) * x2))) + ((-15) * ((((x1 * x2) * x2) * y2) * y2))) + (6 * (((((x1 * x2) * x2) * x2) * x2) * x2))) + (6 * ((((x1 * y1) * x2) * x2) * y2))) + ((-3) * ((((x1 * y1) * y1) * x2) * x2))) == (((((-147int) * (1int)) + (((-21int) * (y1 * y1)) + (35int * (y1 * y2)))) + (((14int * (y2 * y2)) + ((-84int) * (x1 * x2 * x2))) + ((42int * (x2 * x2 * x2)) + ((-1int) * (y1 * y1 * y1 * y2))))) + ((((2int * (y1 * y1 * y2 * y2)) + ((-2int) * (y2 * y2 * y2 * y2))) + (((-3int) * (x1 * y1 * y1 * x2 * x2)) + (6int * (x1 * y1 * x2 * x2 * y2)))) + ((((-15int) * (x1 * x2 * x2 * y2 * y2)) + (2int * (y1 * x2 * x2 * x2 * y2))) + ((2int * (x2 * x2 * x2 * y2 * y2)) + (6int * (x1 * x2 * x2 * x2 * x2 * x2)))))));
    assert(x1 == (1int * (x1)));
    assert(x1 == (1int * (x1)));
    assert((x1 * x1) == (1int * (x1)) * (1int * (x1)));
    lemma_coefficient_product(1int, (x1), 1int, (x1));
    assert((x1) * (x1) == x1 * x1) by (nonlinear_arith);
    assert((x1 * x1) == (1int * (x1 * x1)));
    assert(x2 == (1int * (x2)));
    assert(((x1 * x1) * x2) == (1int * (x1 * x1)) * (1int * (x2)));
    lemma_coefficient_product(1int, (x1 * x1), 1int, (x2));
    assert((x1 * x1) * (x2) == x1 * x1 * x2) by (nonlinear_arith);
    assert(((x1 * x1) * x2) == (1int * (x1 * x1 * x2)));
    assert(y2 == (1int * (y2)));
    assert((((x1 * x1) * x2) * y2) == (1int * (x1 * x1 * x2)) * (1int * (y2)));
    lemma_coefficient_product(1int, (x1 * x1 * x2), 1int, (y2));
    assert((x1 * x1 * x2) * (y2) == x1 * x1 * x2 * y2) by (nonlinear_arith);
    assert((((x1 * x1) * x2) * y2) == (1int * (x1 * x1 * x2 * y2)));
    assert(y2 == (1int * (y2)));
    assert(((((x1 * x1) * x2) * y2) * y2) == (1int * (x1 * x1 * x2 * y2)) * (1int * (y2)));
    lemma_coefficient_product(1int, (x1 * x1 * x2 * y2), 1int, (y2));
    assert((x1 * x1 * x2 * y2) * (y2) == x1 * x1 * x2 * y2 * y2) by (nonlinear_arith);
    assert(((((x1 * x1) * x2) * y2) * y2) == (1int * (x1 * x1 * x2 * y2 * y2)));
    assert((15 * ((((x1 * x1) * x2) * y2) * y2)) == (15int * (1int)) * (1int * (x1 * x1 * x2 * y2 * y2)));
    lemma_coefficient_product(15int, (1int), 1int, (x1 * x1 * x2 * y2 * y2));
    assert((1int) * (x1 * x1 * x2 * y2 * y2) == x1 * x1 * x2 * y2 * y2) by (nonlinear_arith);
    assert((15 * ((((x1 * x1) * x2) * y2) * y2)) == (15int * (x1 * x1 * x2 * y2 * y2)));
    assert(((((((((((((((((-147) + (14 * (y2 * y2))) + ((-2) * (((y2 * y2) * y2) * y2))) + (42 * ((x2 * x2) * x2))) + (2 * ((((x2 * x2) * x2) * y2) * y2))) + (35 * (y1 * y2))) + (2 * ((((y1 * x2) * x2) * x2) * y2))) + ((-21) * (y1 * y1))) + (2 * (((y1 * y1) * y2) * y2))) + ((-1) * (((y1 * y1) * y1) * y2))) + ((-84) * ((x1 * x2) * x2))) + ((-15) * ((((x1 * x2) * x2) * y2) * y2))) + (6 * (((((x1 * x2) * x2) * x2) * x2) * x2))) + (6 * ((((x1 * y1) * x2) * x2) * y2))) + ((-3) * ((((x1 * y1) * y1) * x2) * x2))) + (15 * ((((x1 * x1) * x2) * y2) * y2))) == (((((-147int) * (1int)) + (((-21int) * (y1 * y1)) + (35int * (y1 * y2)))) + (((14int * (y2 * y2)) + ((-84int) * (x1 * x2 * x2))) + ((42int * (x2 * x2 * x2)) + ((-1int) * (y1 * y1 * y1 * y2))))) + ((((2int * (y1 * y1 * y2 * y2)) + ((-2int) * (y2 * y2 * y2 * y2))) + (((-3int) * (x1 * y1 * y1 * x2 * x2)) + (6int * (x1 * y1 * x2 * x2 * y2)))) + ((((-15int) * (x1 * x2 * x2 * y2 * y2)) + (2int * (y1 * x2 * x2 * x2 * y2))) + ((2int * (x2 * x2 * x2 * y2 * y2)) + (6int * (x1 * x2 * x2 * x2 * x2 * x2)))))) + (15int * (x1 * x1 * x2 * y2 * y2)));
    assert(((((((((((((((((-147) + (14 * (y2 * y2))) + ((-2) * (((y2 * y2) * y2) * y2))) + (42 * ((x2 * x2) * x2))) + (2 * ((((x2 * x2) * x2) * y2) * y2))) + (35 * (y1 * y2))) + (2 * ((((y1 * x2) * x2) * x2) * y2))) + ((-21) * (y1 * y1))) + (2 * (((y1 * y1) * y2) * y2))) + ((-1) * (((y1 * y1) * y1) * y2))) + ((-84) * ((x1 * x2) * x2))) + ((-15) * ((((x1 * x2) * x2) * y2) * y2))) + (6 * (((((x1 * x2) * x2) * x2) * x2) * x2))) + (6 * ((((x1 * y1) * x2) * x2) * y2))) + ((-3) * ((((x1 * y1) * y1) * x2) * x2))) + (15 * ((((x1 * x1) * x2) * y2) * y2))) == ((((((-147int) * (1int)) + ((-21int) * (y1 * y1))) + ((35int * (y1 * y2)) + (14int * (y2 * y2)))) + ((((-84int) * (x1 * x2 * x2)) + (42int * (x2 * x2 * x2))) + (((-1int) * (y1 * y1 * y1 * y2)) + (2int * (y1 * y1 * y2 * y2))))) + (((((-2int) * (y2 * y2 * y2 * y2)) + (15int * (x1 * x1 * x2 * y2 * y2))) + (((-3int) * (x1 * y1 * y1 * x2 * x2)) + (6int * (x1 * y1 * x2 * x2 * y2)))) + ((((-15int) * (x1 * x2 * x2 * y2 * y2)) + (2int * (y1 * x2 * x2 * x2 * y2))) + ((2int * (x2 * x2 * x2 * y2 * y2)) + (6int * (x1 * x2 * x2 * x2 * x2 * x2)))))));
    assert(x1 == (1int * (x1)));
    assert(x1 == (1int * (x1)));
    assert((x1 * x1) == (1int * (x1)) * (1int * (x1)));
    lemma_coefficient_product(1int, (x1), 1int, (x1));
    assert((x1) * (x1) == x1 * x1) by (nonlinear_arith);
    assert((x1 * x1) == (1int * (x1 * x1)));
    assert(x2 == (1int * (x2)));
    assert(((x1 * x1) * x2) == (1int * (x1 * x1)) * (1int * (x2)));
    lemma_coefficient_product(1int, (x1 * x1), 1int, (x2));
    assert((x1 * x1) * (x2) == x1 * x1 * x2) by (nonlinear_arith);
    assert(((x1 * x1) * x2) == (1int * (x1 * x1 * x2)));
    assert(x2 == (1int * (x2)));
    assert((((x1 * x1) * x2) * x2) == (1int * (x1 * x1 * x2)) * (1int * (x2)));
    lemma_coefficient_product(1int, (x1 * x1 * x2), 1int, (x2));
    assert((x1 * x1 * x2) * (x2) == x1 * x1 * x2 * x2) by (nonlinear_arith);
    assert((((x1 * x1) * x2) * x2) == (1int * (x1 * x1 * x2 * x2)));
    assert(x2 == (1int * (x2)));
    assert(((((x1 * x1) * x2) * x2) * x2) == (1int * (x1 * x1 * x2 * x2)) * (1int * (x2)));
    lemma_coefficient_product(1int, (x1 * x1 * x2 * x2), 1int, (x2));
    assert((x1 * x1 * x2 * x2) * (x2) == x1 * x1 * x2 * x2 * x2) by (nonlinear_arith);
    assert(((((x1 * x1) * x2) * x2) * x2) == (1int * (x1 * x1 * x2 * x2 * x2)));
    assert(x2 == (1int * (x2)));
    assert((((((x1 * x1) * x2) * x2) * x2) * x2) == (1int * (x1 * x1 * x2 * x2 * x2)) * (1int * (x2)));
    lemma_coefficient_product(1int, (x1 * x1 * x2 * x2 * x2), 1int, (x2));
    assert((x1 * x1 * x2 * x2 * x2) * (x2) == x1 * x1 * x2 * x2 * x2 * x2) by (nonlinear_arith);
    assert((((((x1 * x1) * x2) * x2) * x2) * x2) == (1int * (x1 * x1 * x2 * x2 * x2 * x2)));
    assert(((-9) * (((((x1 * x1) * x2) * x2) * x2) * x2)) == ((-9int) * (1int)) * (1int * (x1 * x1 * x2 * x2 * x2 * x2)));
    lemma_coefficient_product((-9int), (1int), 1int, (x1 * x1 * x2 * x2 * x2 * x2));
    assert((1int) * (x1 * x1 * x2 * x2 * x2 * x2) == x1 * x1 * x2 * x2 * x2 * x2) by (nonlinear_arith);
    assert(((-9) * (((((x1 * x1) * x2) * x2) * x2) * x2)) == ((-9int) * (x1 * x1 * x2 * x2 * x2 * x2)));
    assert((((((((((((((((((-147) + (14 * (y2 * y2))) + ((-2) * (((y2 * y2) * y2) * y2))) + (42 * ((x2 * x2) * x2))) + (2 * ((((x2 * x2) * x2) * y2) * y2))) + (35 * (y1 * y2))) + (2 * ((((y1 * x2) * x2) * x2) * y2))) + ((-21) * (y1 * y1))) + (2 * (((y1 * y1) * y2) * y2))) + ((-1) * (((y1 * y1) * y1) * y2))) + ((-84) * ((x1 * x2) * x2))) + ((-15) * ((((x1 * x2) * x2) * y2) * y2))) + (6 * (((((x1 * x2) * x2) * x2) * x2) * x2))) + (6 * ((((x1 * y1) * x2) * x2) * y2))) + ((-3) * ((((x1 * y1) * y1) * x2) * x2))) + (15 * ((((x1 * x1) * x2) * y2) * y2))) + ((-9) * (((((x1 * x1) * x2) * x2) * x2) * x2))) == ((((((-147int) * (1int)) + ((-21int) * (y1 * y1))) + ((35int * (y1 * y2)) + (14int * (y2 * y2)))) + ((((-84int) * (x1 * x2 * x2)) + (42int * (x2 * x2 * x2))) + (((-1int) * (y1 * y1 * y1 * y2)) + (2int * (y1 * y1 * y2 * y2))))) + (((((-2int) * (y2 * y2 * y2 * y2)) + (15int * (x1 * x1 * x2 * y2 * y2))) + (((-3int) * (x1 * y1 * y1 * x2 * x2)) + (6int * (x1 * y1 * x2 * x2 * y2)))) + ((((-15int) * (x1 * x2 * x2 * y2 * y2)) + (2int * (y1 * x2 * x2 * x2 * y2))) + ((2int * (x2 * x2 * x2 * y2 * y2)) + (6int * (x1 * x2 * x2 * x2 * x2 * x2)))))) + ((-9int) * (x1 * x1 * x2 * x2 * x2 * x2)));
    assert((((((((((((((((((-147) + (14 * (y2 * y2))) + ((-2) * (((y2 * y2) * y2) * y2))) + (42 * ((x2 * x2) * x2))) + (2 * ((((x2 * x2) * x2) * y2) * y2))) + (35 * (y1 * y2))) + (2 * ((((y1 * x2) * x2) * x2) * y2))) + ((-21) * (y1 * y1))) + (2 * (((y1 * y1) * y2) * y2))) + ((-1) * (((y1 * y1) * y1) * y2))) + ((-84) * ((x1 * x2) * x2))) + ((-15) * ((((x1 * x2) * x2) * y2) * y2))) + (6 * (((((x1 * x2) * x2) * x2) * x2) * x2))) + (6 * ((((x1 * y1) * x2) * x2) * y2))) + ((-3) * ((((x1 * y1) * y1) * x2) * x2))) + (15 * ((((x1 * x1) * x2) * y2) * y2))) + ((-9) * (((((x1 * x1) * x2) * x2) * x2) * x2))) == ((((((-147int) * (1int)) + ((-21int) * (y1 * y1))) + ((35int * (y1 * y2)) + (14int * (y2 * y2)))) + ((((-84int) * (x1 * x2 * x2)) + (42int * (x2 * x2 * x2))) + (((-1int) * (y1 * y1 * y1 * y2)) + (2int * (y1 * y1 * y2 * y2))))) + (((((-2int) * (y2 * y2 * y2 * y2)) + (15int * (x1 * x1 * x2 * y2 * y2))) + (((-3int) * (x1 * y1 * y1 * x2 * x2)) + (6int * (x1 * y1 * x2 * x2 * y2)))) + ((((-15int) * (x1 * x2 * x2 * y2 * y2)) + (2int * (y1 * x2 * x2 * x2 * y2))) + ((2int * (x2 * x2 * x2 * y2 * y2)) + (((-9int) * (x1 * x1 * x2 * x2 * x2 * x2)) + (6int * (x1 * x2 * x2 * x2 * x2 * x2))))))));
    assert(x1 == (1int * (x1)));
    assert(x1 == (1int * (x1)));
    assert((x1 * x1) == (1int * (x1)) * (1int * (x1)));
    lemma_coefficient_product(1int, (x1), 1int, (x1));
    assert((x1) * (x1) == x1 * x1) by (nonlinear_arith);
    assert((x1 * x1) == (1int * (x1 * x1)));
    assert(y1 == (1int * (y1)));
    assert(((x1 * x1) * y1) == (1int * (x1 * x1)) * (1int * (y1)));
    lemma_coefficient_product(1int, (x1 * x1), 1int, (y1));
    assert((x1 * x1) * (y1) == x1 * x1 * y1) by (nonlinear_arith);
    assert(((x1 * x1) * y1) == (1int * (x1 * x1 * y1)));
    assert(x2 == (1int * (x2)));
    assert((((x1 * x1) * y1) * x2) == (1int * (x1 * x1 * y1)) * (1int * (x2)));
    lemma_coefficient_product(1int, (x1 * x1 * y1), 1int, (x2));
    assert((x1 * x1 * y1) * (x2) == x1 * x1 * y1 * x2) by (nonlinear_arith);
    assert((((x1 * x1) * y1) * x2) == (1int * (x1 * x1 * y1 * x2)));
    assert(y2 == (1int * (y2)));
    assert(((((x1 * x1) * y1) * x2) * y2) == (1int * (x1 * x1 * y1 * x2)) * (1int * (y2)));
    lemma_coefficient_product(1int, (x1 * x1 * y1 * x2), 1int, (y2));
    assert((x1 * x1 * y1 * x2) * (y2) == x1 * x1 * y1 * x2 * y2) by (nonlinear_arith);
    assert(((((x1 * x1) * y1) * x2) * y2) == (1int * (x1 * x1 * y1 * x2 * y2)));
    assert(((-3) * ((((x1 * x1) * y1) * x2) * y2)) == ((-3int) * (1int)) * (1int * (x1 * x1 * y1 * x2 * y2)));
    lemma_coefficient_product((-3int), (1int), 1int, (x1 * x1 * y1 * x2 * y2));
    assert((1int) * (x1 * x1 * y1 * x2 * y2) == x1 * x1 * y1 * x2 * y2) by (nonlinear_arith);
    assert(((-3) * ((((x1 * x1) * y1) * x2) * y2)) == ((-3int) * (x1 * x1 * y1 * x2 * y2)));
    assert(((((((((((((((((((-147) + (14 * (y2 * y2))) + ((-2) * (((y2 * y2) * y2) * y2))) + (42 * ((x2 * x2) * x2))) + (2 * ((((x2 * x2) * x2) * y2) * y2))) + (35 * (y1 * y2))) + (2 * ((((y1 * x2) * x2) * x2) * y2))) + ((-21) * (y1 * y1))) + (2 * (((y1 * y1) * y2) * y2))) + ((-1) * (((y1 * y1) * y1) * y2))) + ((-84) * ((x1 * x2) * x2))) + ((-15) * ((((x1 * x2) * x2) * y2) * y2))) + (6 * (((((x1 * x2) * x2) * x2) * x2) * x2))) + (6 * ((((x1 * y1) * x2) * x2) * y2))) + ((-3) * ((((x1 * y1) * y1) * x2) * x2))) + (15 * ((((x1 * x1) * x2) * y2) * y2))) + ((-9) * (((((x1 * x1) * x2) * x2) * x2) * x2))) + ((-3) * ((((x1 * x1) * y1) * x2) * y2))) == ((((((-147int) * (1int)) + ((-21int) * (y1 * y1))) + ((35int * (y1 * y2)) + (14int * (y2 * y2)))) + ((((-84int) * (x1 * x2 * x2)) + (42int * (x2 * x2 * x2))) + (((-1int) * (y1 * y1 * y1 * y2)) + (2int * (y1 * y1 * y2 * y2))))) + (((((-2int) * (y2 * y2 * y2 * y2)) + (15int * (x1 * x1 * x2 * y2 * y2))) + (((-3int) * (x1 * y1 * y1 * x2 * x2)) + (6int * (x1 * y1 * x2 * x2 * y2)))) + ((((-15int) * (x1 * x2 * x2 * y2 * y2)) + (2int * (y1 * x2 * x2 * x2 * y2))) + ((2int * (x2 * x2 * x2 * y2 * y2)) + (((-9int) * (x1 * x1 * x2 * x2 * x2 * x2)) + (6int * (x1 * x2 * x2 * x2 * x2 * x2))))))) + ((-3int) * (x1 * x1 * y1 * x2 * y2)));
    assert(((((((((((((((((((-147) + (14 * (y2 * y2))) + ((-2) * (((y2 * y2) * y2) * y2))) + (42 * ((x2 * x2) * x2))) + (2 * ((((x2 * x2) * x2) * y2) * y2))) + (35 * (y1 * y2))) + (2 * ((((y1 * x2) * x2) * x2) * y2))) + ((-21) * (y1 * y1))) + (2 * (((y1 * y1) * y2) * y2))) + ((-1) * (((y1 * y1) * y1) * y2))) + ((-84) * ((x1 * x2) * x2))) + ((-15) * ((((x1 * x2) * x2) * y2) * y2))) + (6 * (((((x1 * x2) * x2) * x2) * x2) * x2))) + (6 * ((((x1 * y1) * x2) * x2) * y2))) + ((-3) * ((((x1 * y1) * y1) * x2) * x2))) + (15 * ((((x1 * x1) * x2) * y2) * y2))) + ((-9) * (((((x1 * x1) * x2) * x2) * x2) * x2))) + ((-3) * ((((x1 * x1) * y1) * x2) * y2))) == ((((((-147int) * (1int)) + ((-21int) * (y1 * y1))) + ((35int * (y1 * y2)) + (14int * (y2 * y2)))) + ((((-84int) * (x1 * x2 * x2)) + (42int * (x2 * x2 * x2))) + (((-1int) * (y1 * y1 * y1 * y2)) + ((2int * (y1 * y1 * y2 * y2)) + ((-2int) * (y2 * y2 * y2 * y2)))))) + (((((-3int) * (x1 * x1 * y1 * x2 * y2)) + (15int * (x1 * x1 * x2 * y2 * y2))) + (((-3int) * (x1 * y1 * y1 * x2 * x2)) + (6int * (x1 * y1 * x2 * x2 * y2)))) + ((((-15int) * (x1 * x2 * x2 * y2 * y2)) + (2int * (y1 * x2 * x2 * x2 * y2))) + ((2int * (x2 * x2 * x2 * y2 * y2)) + (((-9int) * (x1 * x1 * x2 * x2 * x2 * x2)) + (6int * (x1 * x2 * x2 * x2 * x2 * x2))))))));
    assert(y1 == (1int * (y1)));
    assert(y1 == (1int * (y1)));
    assert((y1 * y1) == (1int * (y1)) * (1int * (y1)));
    lemma_coefficient_product(1int, (y1), 1int, (y1));
    assert((y1) * (y1) == y1 * y1) by (nonlinear_arith);
    assert((y1 * y1) == (1int * (y1 * y1)));
    assert(x1 == (1int * (x1)));
    assert(x1 == (1int * (x1)));
    assert((x1 * x1) == (1int * (x1)) * (1int * (x1)));
    lemma_coefficient_product(1int, (x1), 1int, (x1));
    assert((x1) * (x1) == x1 * x1) by (nonlinear_arith);
    assert((x1 * x1) == (1int * (x1 * x1)));
    assert(x1 == (1int * (x1)));
    assert(((x1 * x1) * x1) == (1int * (x1 * x1)) * (1int * (x1)));
    lemma_coefficient_product(1int, (x1 * x1), 1int, (x1));
    assert((x1 * x1) * (x1) == x1 * x1 * x1) by (nonlinear_arith);
    assert(((x1 * x1) * x1) == (1int * (x1 * x1 * x1)));
    assert(((y1 * y1) - ((x1 * x1) * x1)) == (1int * (y1 * y1)) - (1int * (x1 * x1 * x1)));
    assert(((y1 * y1) - ((x1 * x1) * x1)) == ((1int * (y1 * y1)) + ((-1int) * (x1 * x1 * x1))));
    assert((((y1 * y1) - ((x1 * x1) * x1)) - 7) == ((1int * (y1 * y1)) + ((-1int) * (x1 * x1 * x1))) - (7int * (1int)));
    assert((((y1 * y1) - ((x1 * x1) * x1)) - 7) == (((-7int) * (1int)) + ((1int * (y1 * y1)) + ((-1int) * (x1 * x1 * x1)))));
    assert((((((((((((((((((((-147) + (14 * (y2 * y2))) + ((-2) * (((y2 * y2) * y2) * y2))) + (42 * ((x2 * x2) * x2))) + (2 * ((((x2 * x2) * x2) * y2) * y2))) + (35 * (y1 * y2))) + (2 * ((((y1 * x2) * x2) * x2) * y2))) + ((-21) * (y1 * y1))) + (2 * (((y1 * y1) * y2) * y2))) + ((-1) * (((y1 * y1) * y1) * y2))) + ((-84) * ((x1 * x2) * x2))) + ((-15) * ((((x1 * x2) * x2) * y2) * y2))) + (6 * (((((x1 * x2) * x2) * x2) * x2) * x2))) + (6 * ((((x1 * y1) * x2) * x2) * y2))) + ((-3) * ((((x1 * y1) * y1) * x2) * x2))) + (15 * ((((x1 * x1) * x2) * y2) * y2))) + ((-9) * (((((x1 * x1) * x2) * x2) * x2) * x2))) + ((-3) * ((((x1 * x1) * y1) * x2) * y2))) * (((y1 * y1) - ((x1 * x1) * x1)) - 7)) == ((((((-147int) * (1int)) + ((-21int) * (y1 * y1))) + ((35int * (y1 * y2)) + (14int * (y2 * y2)))) + ((((-84int) * (x1 * x2 * x2)) + (42int * (x2 * x2 * x2))) + (((-1int) * (y1 * y1 * y1 * y2)) + ((2int * (y1 * y1 * y2 * y2)) + ((-2int) * (y2 * y2 * y2 * y2)))))) + (((((-3int) * (x1 * x1 * y1 * x2 * y2)) + (15int * (x1 * x1 * x2 * y2 * y2))) + (((-3int) * (x1 * y1 * y1 * x2 * x2)) + (6int * (x1 * y1 * x2 * x2 * y2)))) + ((((-15int) * (x1 * x2 * x2 * y2 * y2)) + (2int * (y1 * x2 * x2 * x2 * y2))) + ((2int * (x2 * x2 * x2 * y2 * y2)) + (((-9int) * (x1 * x1 * x2 * x2 * x2 * x2)) + (6int * (x1 * x2 * x2 * x2 * x2 * x2))))))) * (((-7int) * (1int)) + ((1int * (y1 * y1)) + ((-1int) * (x1 * x1 * x1)))));
    lemma_mul_is_distributive_add_other_way((((-7int) * (1int)) + ((1int * (y1 * y1)) + ((-1int) * (x1 * x1 * x1)))), (((((-147int) * (1int)) + ((-21int) * (y1 * y1))) + ((35int * (y1 * y2)) + (14int * (y2 * y2)))) + ((((-84int) * (x1 * x2 * x2)) + (42int * (x2 * x2 * x2))) + (((-1int) * (y1 * y1 * y1 * y2)) + ((2int * (y1 * y1 * y2 * y2)) + ((-2int) * (y2 * y2 * y2 * y2)))))), (((((-3int) * (x1 * x1 * y1 * x2 * y2)) + (15int * (x1 * x1 * x2 * y2 * y2))) + (((-3int) * (x1 * y1 * y1 * x2 * x2)) + (6int * (x1 * y1 * x2 * x2 * y2)))) + ((((-15int) * (x1 * x2 * x2 * y2 * y2)) + (2int * (y1 * x2 * x2 * x2 * y2))) + ((2int * (x2 * x2 * x2 * y2 * y2)) + (((-9int) * (x1 * x1 * x2 * x2 * x2 * x2)) + (6int * (x1 * x2 * x2 * x2 * x2 * x2)))))));
    lemma_mul_is_distributive_add_other_way((((-7int) * (1int)) + ((1int * (y1 * y1)) + ((-1int) * (x1 * x1 * x1)))), ((((-147int) * (1int)) + ((-21int) * (y1 * y1))) + ((35int * (y1 * y2)) + (14int * (y2 * y2)))), ((((-84int) * (x1 * x2 * x2)) + (42int * (x2 * x2 * x2))) + (((-1int) * (y1 * y1 * y1 * y2)) + ((2int * (y1 * y1 * y2 * y2)) + ((-2int) * (y2 * y2 * y2 * y2))))));
    lemma_mul_is_distributive_add_other_way((((-7int) * (1int)) + ((1int * (y1 * y1)) + ((-1int) * (x1 * x1 * x1)))), (((-147int) * (1int)) + ((-21int) * (y1 * y1))), ((35int * (y1 * y2)) + (14int * (y2 * y2))));
    lemma_mul_is_distributive_add_other_way((((-7int) * (1int)) + ((1int * (y1 * y1)) + ((-1int) * (x1 * x1 * x1)))), ((-147int) * (1int)), ((-21int) * (y1 * y1)));
    lemma_mul_is_distributive_add_other_way((((-7int) * (1int)) + ((1int * (y1 * y1)) + ((-1int) * (x1 * x1 * x1)))), (35int * (y1 * y2)), (14int * (y2 * y2)));
    lemma_mul_is_distributive_add_other_way((((-7int) * (1int)) + ((1int * (y1 * y1)) + ((-1int) * (x1 * x1 * x1)))), (((-84int) * (x1 * x2 * x2)) + (42int * (x2 * x2 * x2))), (((-1int) * (y1 * y1 * y1 * y2)) + ((2int * (y1 * y1 * y2 * y2)) + ((-2int) * (y2 * y2 * y2 * y2)))));
    lemma_mul_is_distributive_add_other_way((((-7int) * (1int)) + ((1int * (y1 * y1)) + ((-1int) * (x1 * x1 * x1)))), ((-84int) * (x1 * x2 * x2)), (42int * (x2 * x2 * x2)));
    lemma_mul_is_distributive_add_other_way((((-7int) * (1int)) + ((1int * (y1 * y1)) + ((-1int) * (x1 * x1 * x1)))), ((-1int) * (y1 * y1 * y1 * y2)), ((2int * (y1 * y1 * y2 * y2)) + ((-2int) * (y2 * y2 * y2 * y2))));
    lemma_mul_is_distributive_add_other_way((((-7int) * (1int)) + ((1int * (y1 * y1)) + ((-1int) * (x1 * x1 * x1)))), (2int * (y1 * y1 * y2 * y2)), ((-2int) * (y2 * y2 * y2 * y2)));
    lemma_mul_is_distributive_add_other_way((((-7int) * (1int)) + ((1int * (y1 * y1)) + ((-1int) * (x1 * x1 * x1)))), ((((-3int) * (x1 * x1 * y1 * x2 * y2)) + (15int * (x1 * x1 * x2 * y2 * y2))) + (((-3int) * (x1 * y1 * y1 * x2 * x2)) + (6int * (x1 * y1 * x2 * x2 * y2)))), ((((-15int) * (x1 * x2 * x2 * y2 * y2)) + (2int * (y1 * x2 * x2 * x2 * y2))) + ((2int * (x2 * x2 * x2 * y2 * y2)) + (((-9int) * (x1 * x1 * x2 * x2 * x2 * x2)) + (6int * (x1 * x2 * x2 * x2 * x2 * x2))))));
    lemma_mul_is_distributive_add_other_way((((-7int) * (1int)) + ((1int * (y1 * y1)) + ((-1int) * (x1 * x1 * x1)))), (((-3int) * (x1 * x1 * y1 * x2 * y2)) + (15int * (x1 * x1 * x2 * y2 * y2))), (((-3int) * (x1 * y1 * y1 * x2 * x2)) + (6int * (x1 * y1 * x2 * x2 * y2))));
    lemma_mul_is_distributive_add_other_way((((-7int) * (1int)) + ((1int * (y1 * y1)) + ((-1int) * (x1 * x1 * x1)))), ((-3int) * (x1 * x1 * y1 * x2 * y2)), (15int * (x1 * x1 * x2 * y2 * y2)));
    lemma_mul_is_distributive_add_other_way((((-7int) * (1int)) + ((1int * (y1 * y1)) + ((-1int) * (x1 * x1 * x1)))), ((-3int) * (x1 * y1 * y1 * x2 * x2)), (6int * (x1 * y1 * x2 * x2 * y2)));
    lemma_mul_is_distributive_add_other_way((((-7int) * (1int)) + ((1int * (y1 * y1)) + ((-1int) * (x1 * x1 * x1)))), (((-15int) * (x1 * x2 * x2 * y2 * y2)) + (2int * (y1 * x2 * x2 * x2 * y2))), ((2int * (x2 * x2 * x2 * y2 * y2)) + (((-9int) * (x1 * x1 * x2 * x2 * x2 * x2)) + (6int * (x1 * x2 * x2 * x2 * x2 * x2)))));
    lemma_mul_is_distributive_add_other_way((((-7int) * (1int)) + ((1int * (y1 * y1)) + ((-1int) * (x1 * x1 * x1)))), ((-15int) * (x1 * x2 * x2 * y2 * y2)), (2int * (y1 * x2 * x2 * x2 * y2)));
    lemma_mul_is_distributive_add_other_way((((-7int) * (1int)) + ((1int * (y1 * y1)) + ((-1int) * (x1 * x1 * x1)))), (2int * (x2 * x2 * x2 * y2 * y2)), (((-9int) * (x1 * x1 * x2 * x2 * x2 * x2)) + (6int * (x1 * x2 * x2 * x2 * x2 * x2))));
    lemma_mul_is_distributive_add_other_way((((-7int) * (1int)) + ((1int * (y1 * y1)) + ((-1int) * (x1 * x1 * x1)))), ((-9int) * (x1 * x1 * x2 * x2 * x2 * x2)), (6int * (x1 * x2 * x2 * x2 * x2 * x2)));
    lemma_mul_is_distributive_add(((-147int) * (1int)), ((-7int) * (1int)), ((1int * (y1 * y1)) + ((-1int) * (x1 * x1 * x1))));
    lemma_mul_is_distributive_add(((-147int) * (1int)), (1int * (y1 * y1)), ((-1int) * (x1 * x1 * x1)));
    lemma_coefficient_product((-147int), (1int), (-7int), (1int));
    assert((1int) * (1int) == 1int) by (nonlinear_arith);
    lemma_coefficient_product((-147int), (1int), 1int, (y1 * y1));
    assert((1int) * (y1 * y1) == y1 * y1) by (nonlinear_arith);
    lemma_coefficient_product((-147int), (1int), (-1int), (x1 * x1 * x1));
    assert((1int) * (x1 * x1 * x1) == x1 * x1 * x1) by (nonlinear_arith);
    lemma_mul_is_distributive_add(((-21int) * (y1 * y1)), ((-7int) * (1int)), ((1int * (y1 * y1)) + ((-1int) * (x1 * x1 * x1))));
    lemma_mul_is_distributive_add(((-21int) * (y1 * y1)), (1int * (y1 * y1)), ((-1int) * (x1 * x1 * x1)));
    lemma_coefficient_product((-21int), (y1 * y1), (-7int), (1int));
    assert((y1 * y1) * (1int) == y1 * y1) by (nonlinear_arith);
    lemma_coefficient_product((-21int), (y1 * y1), 1int, (y1 * y1));
    assert((y1 * y1) * (y1 * y1) == y1 * y1 * y1 * y1) by (nonlinear_arith);
    lemma_coefficient_product((-21int), (y1 * y1), (-1int), (x1 * x1 * x1));
    assert((y1 * y1) * (x1 * x1 * x1) == x1 * x1 * x1 * y1 * y1) by (nonlinear_arith);
    lemma_mul_is_distributive_add((35int * (y1 * y2)), ((-7int) * (1int)), ((1int * (y1 * y1)) + ((-1int) * (x1 * x1 * x1))));
    lemma_mul_is_distributive_add((35int * (y1 * y2)), (1int * (y1 * y1)), ((-1int) * (x1 * x1 * x1)));
    lemma_coefficient_product(35int, (y1 * y2), (-7int), (1int));
    assert((y1 * y2) * (1int) == y1 * y2) by (nonlinear_arith);
    lemma_coefficient_product(35int, (y1 * y2), 1int, (y1 * y1));
    assert((y1 * y2) * (y1 * y1) == y1 * y1 * y1 * y2) by (nonlinear_arith);
    lemma_coefficient_product(35int, (y1 * y2), (-1int), (x1 * x1 * x1));
    assert((y1 * y2) * (x1 * x1 * x1) == x1 * x1 * x1 * y1 * y2) by (nonlinear_arith);
    lemma_mul_is_distributive_add((14int * (y2 * y2)), ((-7int) * (1int)), ((1int * (y1 * y1)) + ((-1int) * (x1 * x1 * x1))));
    lemma_mul_is_distributive_add((14int * (y2 * y2)), (1int * (y1 * y1)), ((-1int) * (x1 * x1 * x1)));
    lemma_coefficient_product(14int, (y2 * y2), (-7int), (1int));
    assert((y2 * y2) * (1int) == y2 * y2) by (nonlinear_arith);
    lemma_coefficient_product(14int, (y2 * y2), 1int, (y1 * y1));
    assert((y2 * y2) * (y1 * y1) == y1 * y1 * y2 * y2) by (nonlinear_arith);
    lemma_coefficient_product(14int, (y2 * y2), (-1int), (x1 * x1 * x1));
    assert((y2 * y2) * (x1 * x1 * x1) == x1 * x1 * x1 * y2 * y2) by (nonlinear_arith);
    lemma_mul_is_distributive_add(((-84int) * (x1 * x2 * x2)), ((-7int) * (1int)), ((1int * (y1 * y1)) + ((-1int) * (x1 * x1 * x1))));
    lemma_mul_is_distributive_add(((-84int) * (x1 * x2 * x2)), (1int * (y1 * y1)), ((-1int) * (x1 * x1 * x1)));
    lemma_coefficient_product((-84int), (x1 * x2 * x2), (-7int), (1int));
    assert((x1 * x2 * x2) * (1int) == x1 * x2 * x2) by (nonlinear_arith);
    lemma_coefficient_product((-84int), (x1 * x2 * x2), 1int, (y1 * y1));
    assert((x1 * x2 * x2) * (y1 * y1) == x1 * y1 * y1 * x2 * x2) by (nonlinear_arith);
    lemma_coefficient_product((-84int), (x1 * x2 * x2), (-1int), (x1 * x1 * x1));
    assert((x1 * x2 * x2) * (x1 * x1 * x1) == x1 * x1 * x1 * x1 * x2 * x2) by (nonlinear_arith);
    lemma_mul_is_distributive_add((42int * (x2 * x2 * x2)), ((-7int) * (1int)), ((1int * (y1 * y1)) + ((-1int) * (x1 * x1 * x1))));
    lemma_mul_is_distributive_add((42int * (x2 * x2 * x2)), (1int * (y1 * y1)), ((-1int) * (x1 * x1 * x1)));
    lemma_coefficient_product(42int, (x2 * x2 * x2), (-7int), (1int));
    assert((x2 * x2 * x2) * (1int) == x2 * x2 * x2) by (nonlinear_arith);
    lemma_coefficient_product(42int, (x2 * x2 * x2), 1int, (y1 * y1));
    assert((x2 * x2 * x2) * (y1 * y1) == y1 * y1 * x2 * x2 * x2) by (nonlinear_arith);
    lemma_coefficient_product(42int, (x2 * x2 * x2), (-1int), (x1 * x1 * x1));
    assert((x2 * x2 * x2) * (x1 * x1 * x1) == x1 * x1 * x1 * x2 * x2 * x2) by (nonlinear_arith);
    lemma_mul_is_distributive_add(((-1int) * (y1 * y1 * y1 * y2)), ((-7int) * (1int)), ((1int * (y1 * y1)) + ((-1int) * (x1 * x1 * x1))));
    lemma_mul_is_distributive_add(((-1int) * (y1 * y1 * y1 * y2)), (1int * (y1 * y1)), ((-1int) * (x1 * x1 * x1)));
    lemma_coefficient_product((-1int), (y1 * y1 * y1 * y2), (-7int), (1int));
    assert((y1 * y1 * y1 * y2) * (1int) == y1 * y1 * y1 * y2) by (nonlinear_arith);
    lemma_coefficient_product((-1int), (y1 * y1 * y1 * y2), 1int, (y1 * y1));
    assert((y1 * y1 * y1 * y2) * (y1 * y1) == y1 * y1 * y1 * y1 * y1 * y2) by (nonlinear_arith);
    lemma_coefficient_product((-1int), (y1 * y1 * y1 * y2), (-1int), (x1 * x1 * x1));
    assert((y1 * y1 * y1 * y2) * (x1 * x1 * x1) == x1 * x1 * x1 * y1 * y1 * y1 * y2) by (nonlinear_arith);
    lemma_mul_is_distributive_add((2int * (y1 * y1 * y2 * y2)), ((-7int) * (1int)), ((1int * (y1 * y1)) + ((-1int) * (x1 * x1 * x1))));
    lemma_mul_is_distributive_add((2int * (y1 * y1 * y2 * y2)), (1int * (y1 * y1)), ((-1int) * (x1 * x1 * x1)));
    lemma_coefficient_product(2int, (y1 * y1 * y2 * y2), (-7int), (1int));
    assert((y1 * y1 * y2 * y2) * (1int) == y1 * y1 * y2 * y2) by (nonlinear_arith);
    lemma_coefficient_product(2int, (y1 * y1 * y2 * y2), 1int, (y1 * y1));
    assert((y1 * y1 * y2 * y2) * (y1 * y1) == y1 * y1 * y1 * y1 * y2 * y2) by (nonlinear_arith);
    lemma_coefficient_product(2int, (y1 * y1 * y2 * y2), (-1int), (x1 * x1 * x1));
    assert((y1 * y1 * y2 * y2) * (x1 * x1 * x1) == x1 * x1 * x1 * y1 * y1 * y2 * y2) by (nonlinear_arith);
    lemma_mul_is_distributive_add(((-2int) * (y2 * y2 * y2 * y2)), ((-7int) * (1int)), ((1int * (y1 * y1)) + ((-1int) * (x1 * x1 * x1))));
    lemma_mul_is_distributive_add(((-2int) * (y2 * y2 * y2 * y2)), (1int * (y1 * y1)), ((-1int) * (x1 * x1 * x1)));
    lemma_coefficient_product((-2int), (y2 * y2 * y2 * y2), (-7int), (1int));
    assert((y2 * y2 * y2 * y2) * (1int) == y2 * y2 * y2 * y2) by (nonlinear_arith);
    lemma_coefficient_product((-2int), (y2 * y2 * y2 * y2), 1int, (y1 * y1));
    assert((y2 * y2 * y2 * y2) * (y1 * y1) == y1 * y1 * y2 * y2 * y2 * y2) by (nonlinear_arith);
    lemma_coefficient_product((-2int), (y2 * y2 * y2 * y2), (-1int), (x1 * x1 * x1));
    assert((y2 * y2 * y2 * y2) * (x1 * x1 * x1) == x1 * x1 * x1 * y2 * y2 * y2 * y2) by (nonlinear_arith);
    lemma_mul_is_distributive_add(((-3int) * (x1 * x1 * y1 * x2 * y2)), ((-7int) * (1int)), ((1int * (y1 * y1)) + ((-1int) * (x1 * x1 * x1))));
    lemma_mul_is_distributive_add(((-3int) * (x1 * x1 * y1 * x2 * y2)), (1int * (y1 * y1)), ((-1int) * (x1 * x1 * x1)));
    lemma_coefficient_product((-3int), (x1 * x1 * y1 * x2 * y2), (-7int), (1int));
    assert((x1 * x1 * y1 * x2 * y2) * (1int) == x1 * x1 * y1 * x2 * y2) by (nonlinear_arith);
    lemma_coefficient_product((-3int), (x1 * x1 * y1 * x2 * y2), 1int, (y1 * y1));
    assert((x1 * x1 * y1 * x2 * y2) * (y1 * y1) == x1 * x1 * y1 * y1 * y1 * x2 * y2) by (nonlinear_arith);
    lemma_coefficient_product((-3int), (x1 * x1 * y1 * x2 * y2), (-1int), (x1 * x1 * x1));
    assert((x1 * x1 * y1 * x2 * y2) * (x1 * x1 * x1) == x1 * x1 * x1 * x1 * x1 * y1 * x2 * y2) by (nonlinear_arith);
    lemma_mul_is_distributive_add((15int * (x1 * x1 * x2 * y2 * y2)), ((-7int) * (1int)), ((1int * (y1 * y1)) + ((-1int) * (x1 * x1 * x1))));
    lemma_mul_is_distributive_add((15int * (x1 * x1 * x2 * y2 * y2)), (1int * (y1 * y1)), ((-1int) * (x1 * x1 * x1)));
    lemma_coefficient_product(15int, (x1 * x1 * x2 * y2 * y2), (-7int), (1int));
    assert((x1 * x1 * x2 * y2 * y2) * (1int) == x1 * x1 * x2 * y2 * y2) by (nonlinear_arith);
    lemma_coefficient_product(15int, (x1 * x1 * x2 * y2 * y2), 1int, (y1 * y1));
    assert((x1 * x1 * x2 * y2 * y2) * (y1 * y1) == x1 * x1 * y1 * y1 * x2 * y2 * y2) by (nonlinear_arith);
    lemma_coefficient_product(15int, (x1 * x1 * x2 * y2 * y2), (-1int), (x1 * x1 * x1));
    assert((x1 * x1 * x2 * y2 * y2) * (x1 * x1 * x1) == x1 * x1 * x1 * x1 * x1 * x2 * y2 * y2) by (nonlinear_arith);
    lemma_mul_is_distributive_add(((-3int) * (x1 * y1 * y1 * x2 * x2)), ((-7int) * (1int)), ((1int * (y1 * y1)) + ((-1int) * (x1 * x1 * x1))));
    lemma_mul_is_distributive_add(((-3int) * (x1 * y1 * y1 * x2 * x2)), (1int * (y1 * y1)), ((-1int) * (x1 * x1 * x1)));
    lemma_coefficient_product((-3int), (x1 * y1 * y1 * x2 * x2), (-7int), (1int));
    assert((x1 * y1 * y1 * x2 * x2) * (1int) == x1 * y1 * y1 * x2 * x2) by (nonlinear_arith);
    lemma_coefficient_product((-3int), (x1 * y1 * y1 * x2 * x2), 1int, (y1 * y1));
    assert((x1 * y1 * y1 * x2 * x2) * (y1 * y1) == x1 * y1 * y1 * y1 * y1 * x2 * x2) by (nonlinear_arith);
    lemma_coefficient_product((-3int), (x1 * y1 * y1 * x2 * x2), (-1int), (x1 * x1 * x1));
    assert((x1 * y1 * y1 * x2 * x2) * (x1 * x1 * x1) == x1 * x1 * x1 * x1 * y1 * y1 * x2 * x2) by (nonlinear_arith);
    lemma_mul_is_distributive_add((6int * (x1 * y1 * x2 * x2 * y2)), ((-7int) * (1int)), ((1int * (y1 * y1)) + ((-1int) * (x1 * x1 * x1))));
    lemma_mul_is_distributive_add((6int * (x1 * y1 * x2 * x2 * y2)), (1int * (y1 * y1)), ((-1int) * (x1 * x1 * x1)));
    lemma_coefficient_product(6int, (x1 * y1 * x2 * x2 * y2), (-7int), (1int));
    assert((x1 * y1 * x2 * x2 * y2) * (1int) == x1 * y1 * x2 * x2 * y2) by (nonlinear_arith);
    lemma_coefficient_product(6int, (x1 * y1 * x2 * x2 * y2), 1int, (y1 * y1));
    assert((x1 * y1 * x2 * x2 * y2) * (y1 * y1) == x1 * y1 * y1 * y1 * x2 * x2 * y2) by (nonlinear_arith);
    lemma_coefficient_product(6int, (x1 * y1 * x2 * x2 * y2), (-1int), (x1 * x1 * x1));
    assert((x1 * y1 * x2 * x2 * y2) * (x1 * x1 * x1) == x1 * x1 * x1 * x1 * y1 * x2 * x2 * y2) by (nonlinear_arith);
    lemma_mul_is_distributive_add(((-15int) * (x1 * x2 * x2 * y2 * y2)), ((-7int) * (1int)), ((1int * (y1 * y1)) + ((-1int) * (x1 * x1 * x1))));
    lemma_mul_is_distributive_add(((-15int) * (x1 * x2 * x2 * y2 * y2)), (1int * (y1 * y1)), ((-1int) * (x1 * x1 * x1)));
    lemma_coefficient_product((-15int), (x1 * x2 * x2 * y2 * y2), (-7int), (1int));
    assert((x1 * x2 * x2 * y2 * y2) * (1int) == x1 * x2 * x2 * y2 * y2) by (nonlinear_arith);
    lemma_coefficient_product((-15int), (x1 * x2 * x2 * y2 * y2), 1int, (y1 * y1));
    assert((x1 * x2 * x2 * y2 * y2) * (y1 * y1) == x1 * y1 * y1 * x2 * x2 * y2 * y2) by (nonlinear_arith);
    lemma_coefficient_product((-15int), (x1 * x2 * x2 * y2 * y2), (-1int), (x1 * x1 * x1));
    assert((x1 * x2 * x2 * y2 * y2) * (x1 * x1 * x1) == x1 * x1 * x1 * x1 * x2 * x2 * y2 * y2) by (nonlinear_arith);
    lemma_mul_is_distributive_add((2int * (y1 * x2 * x2 * x2 * y2)), ((-7int) * (1int)), ((1int * (y1 * y1)) + ((-1int) * (x1 * x1 * x1))));
    lemma_mul_is_distributive_add((2int * (y1 * x2 * x2 * x2 * y2)), (1int * (y1 * y1)), ((-1int) * (x1 * x1 * x1)));
    lemma_coefficient_product(2int, (y1 * x2 * x2 * x2 * y2), (-7int), (1int));
    assert((y1 * x2 * x2 * x2 * y2) * (1int) == y1 * x2 * x2 * x2 * y2) by (nonlinear_arith);
    lemma_coefficient_product(2int, (y1 * x2 * x2 * x2 * y2), 1int, (y1 * y1));
    assert((y1 * x2 * x2 * x2 * y2) * (y1 * y1) == y1 * y1 * y1 * x2 * x2 * x2 * y2) by (nonlinear_arith);
    lemma_coefficient_product(2int, (y1 * x2 * x2 * x2 * y2), (-1int), (x1 * x1 * x1));
    assert((y1 * x2 * x2 * x2 * y2) * (x1 * x1 * x1) == x1 * x1 * x1 * y1 * x2 * x2 * x2 * y2) by (nonlinear_arith);
    lemma_mul_is_distributive_add((2int * (x2 * x2 * x2 * y2 * y2)), ((-7int) * (1int)), ((1int * (y1 * y1)) + ((-1int) * (x1 * x1 * x1))));
    lemma_mul_is_distributive_add((2int * (x2 * x2 * x2 * y2 * y2)), (1int * (y1 * y1)), ((-1int) * (x1 * x1 * x1)));
    lemma_coefficient_product(2int, (x2 * x2 * x2 * y2 * y2), (-7int), (1int));
    assert((x2 * x2 * x2 * y2 * y2) * (1int) == x2 * x2 * x2 * y2 * y2) by (nonlinear_arith);
    lemma_coefficient_product(2int, (x2 * x2 * x2 * y2 * y2), 1int, (y1 * y1));
    assert((x2 * x2 * x2 * y2 * y2) * (y1 * y1) == y1 * y1 * x2 * x2 * x2 * y2 * y2) by (nonlinear_arith);
    lemma_coefficient_product(2int, (x2 * x2 * x2 * y2 * y2), (-1int), (x1 * x1 * x1));
    assert((x2 * x2 * x2 * y2 * y2) * (x1 * x1 * x1) == x1 * x1 * x1 * x2 * x2 * x2 * y2 * y2) by (nonlinear_arith);
    lemma_mul_is_distributive_add(((-9int) * (x1 * x1 * x2 * x2 * x2 * x2)), ((-7int) * (1int)), ((1int * (y1 * y1)) + ((-1int) * (x1 * x1 * x1))));
    lemma_mul_is_distributive_add(((-9int) * (x1 * x1 * x2 * x2 * x2 * x2)), (1int * (y1 * y1)), ((-1int) * (x1 * x1 * x1)));
    lemma_coefficient_product((-9int), (x1 * x1 * x2 * x2 * x2 * x2), (-7int), (1int));
    assert((x1 * x1 * x2 * x2 * x2 * x2) * (1int) == x1 * x1 * x2 * x2 * x2 * x2) by (nonlinear_arith);
    lemma_coefficient_product((-9int), (x1 * x1 * x2 * x2 * x2 * x2), 1int, (y1 * y1));
    assert((x1 * x1 * x2 * x2 * x2 * x2) * (y1 * y1) == x1 * x1 * y1 * y1 * x2 * x2 * x2 * x2) by (nonlinear_arith);
    lemma_coefficient_product((-9int), (x1 * x1 * x2 * x2 * x2 * x2), (-1int), (x1 * x1 * x1));
    assert((x1 * x1 * x2 * x2 * x2 * x2) * (x1 * x1 * x1) == x1 * x1 * x1 * x1 * x1 * x2 * x2 * x2 * x2) by (nonlinear_arith);
    lemma_mul_is_distributive_add((6int * (x1 * x2 * x2 * x2 * x2 * x2)), ((-7int) * (1int)), ((1int * (y1 * y1)) + ((-1int) * (x1 * x1 * x1))));
    lemma_mul_is_distributive_add((6int * (x1 * x2 * x2 * x2 * x2 * x2)), (1int * (y1 * y1)), ((-1int) * (x1 * x1 * x1)));
    lemma_coefficient_product(6int, (x1 * x2 * x2 * x2 * x2 * x2), (-7int), (1int));
    assert((x1 * x2 * x2 * x2 * x2 * x2) * (1int) == x1 * x2 * x2 * x2 * x2 * x2) by (nonlinear_arith);
    lemma_coefficient_product(6int, (x1 * x2 * x2 * x2 * x2 * x2), 1int, (y1 * y1));
    assert((x1 * x2 * x2 * x2 * x2 * x2) * (y1 * y1) == x1 * y1 * y1 * x2 * x2 * x2 * x2 * x2) by (nonlinear_arith);
    lemma_coefficient_product(6int, (x1 * x2 * x2 * x2 * x2 * x2), (-1int), (x1 * x1 * x1));
    assert((x1 * x2 * x2 * x2 * x2 * x2) * (x1 * x1 * x1) == x1 * x1 * x1 * x1 * x2 * x2 * x2 * x2 * x2) by (nonlinear_arith);
    assert((((((((((((((((((((-147) + (14 * (y2 * y2))) + ((-2) * (((y2 * y2) * y2) * y2))) + (42 * ((x2 * x2) * x2))) + (2 * ((((x2 * x2) * x2) * y2) * y2))) + (35 * (y1 * y2))) + (2 * ((((y1 * x2) * x2) * x2) * y2))) + ((-21) * (y1 * y1))) + (2 * (((y1 * y1) * y2) * y2))) + ((-1) * (((y1 * y1) * y1) * y2))) + ((-84) * ((x1 * x2) * x2))) + ((-15) * ((((x1 * x2) * x2) * y2) * y2))) + (6 * (((((x1 * x2) * x2) * x2) * x2) * x2))) + (6 * ((((x1 * y1) * x2) * x2) * y2))) + ((-3) * ((((x1 * y1) * y1) * x2) * x2))) + (15 * ((((x1 * x1) * x2) * y2) * y2))) + ((-9) * (((((x1 * x1) * x2) * x2) * x2) * x2))) + ((-3) * ((((x1 * x1) * y1) * x2) * y2))) * (((y1 * y1) - ((x1 * x1) * x1)) - 7)) == ((((((1029int * (1int)) + (((-245int) * (y1 * y2)) + ((-98int) * (y2 * y2)))) + ((147int * (x1 * x1 * x1)) + ((588int * (x1 * x2 * x2)) + ((-294int) * (x2 * x2 * x2))))) + ((((-21int) * (y1 * y1 * y1 * y1)) + ((42int * (y1 * y1 * y1 * y2)) + (14int * (y2 * y2 * y2 * y2)))) + ((21int * (x1 * x1 * x1 * y1 * y1)) + (((-35int) * (x1 * x1 * x1 * y1 * y2)) + ((-14int) * (x1 * x1 * x1 * y2 * y2)))))) + ((((21int * (x1 * x1 * y1 * x2 * y2)) + (((-105int) * (x1 * x1 * x2 * y2 * y2)) + ((-63int) * (x1 * y1 * y1 * x2 * x2)))) + (((-42int) * (x1 * y1 * x2 * x2 * y2)) + ((105int * (x1 * x2 * x2 * y2 * y2)) + (42int * (y1 * y1 * x2 * x2 * x2))))) + ((((-14int) * (y1 * x2 * x2 * x2 * y2)) + (((-14int) * (x2 * x2 * x2 * y2 * y2)) + (84int * (x1 * x1 * x1 * x1 * x2 * x2)))) + (((-42int) * (x1 * x1 * x1 * x2 * x2 * x2)) + ((63int * (x1 * x1 * x2 * x2 * x2 * x2)) + ((-42int) * (x1 * x2 * x2 * x2 * x2 * x2))))))) + ((((((-1int) * (y1 * y1 * y1 * y1 * y1 * y2)) + ((2int * (y1 * y1 * y1 * y1 * y2 * y2)) + ((-2int) * (y1 * y1 * y2 * y2 * y2 * y2)))) + ((1int * (x1 * x1 * x1 * y1 * y1 * y1 * y2)) + (((-2int) * (x1 * x1 * x1 * y1 * y1 * y2 * y2)) + (2int * (x1 * x1 * x1 * y2 * y2 * y2 * y2))))) + ((((-3int) * (x1 * x1 * y1 * y1 * y1 * x2 * y2)) + ((15int * (x1 * x1 * y1 * y1 * x2 * y2 * y2)) + ((-3int) * (x1 * y1 * y1 * y1 * y1 * x2 * x2)))) + ((6int * (x1 * y1 * y1 * y1 * x2 * x2 * y2)) + (((-15int) * (x1 * y1 * y1 * x2 * x2 * y2 * y2)) + (2int * (y1 * y1 * y1 * x2 * x2 * x2 * y2)))))) + ((((2int * (y1 * y1 * x2 * x2 * x2 * y2 * y2)) + ((3int * (x1 * x1 * x1 * x1 * x1 * y1 * x2 * y2)) + ((-15int) * (x1 * x1 * x1 * x1 * x1 * x2 * y2 * y2)))) + ((3int * (x1 * x1 * x1 * x1 * y1 * y1 * x2 * x2)) + (((-6int) * (x1 * x1 * x1 * x1 * y1 * x2 * x2 * y2)) + (15int * (x1 * x1 * x1 * x1 * x2 * x2 * y2 * y2))))) + ((((-2int) * (x1 * x1 * x1 * y1 * x2 * x2 * x2 * y2)) + (((-2int) * (x1 * x1 * x1 * x2 * x2 * x2 * y2 * y2)) + ((-9int) * (x1 * x1 * y1 * y1 * x2 * x2 * x2 * x2)))) + ((6int * (x1 * y1 * y1 * x2 * x2 * x2 * x2 * x2)) + ((9int * (x1 * x1 * x1 * x1 * x1 * x2 * x2 * x2 * x2)) + ((-6int) * (x1 * x1 * x1 * x1 * x2 * x2 * x2 * x2 * x2)))))))));
}

#[verifier::rlimit(40)]
proof fn lemma_chord_identity_y_part4(x1: int, y1: int, x2: int, y2: int)
    ensures
        ((((((((((((((147 + (7 * (y2 * y2))) + ((-35) * (y1 * y2))) + (1 * (((y1 * y2) * y2) * y2))) + ((-105) * ((x1 * x2) * x2))) + (3 * ((((x1 * y1) * x2) * x2) * y2))) + (189 * ((x1 * x1) * x2))) + (3 * ((((x1 * x1) * x2) * y2) * y2))) + ((-6) * ((((x1 * x1) * y1) * x2) * y2))) + ((-42) * ((x1 * x1) * x1))) + ((-2) * ((((x1 * x1) * x1) * y2) * y2))) + ((-2) * ((((x1 * x1) * x1) * y1) * y2))) + ((-6) * (((((x1 * x1) * x1) * x1) * x2) * x2))) + (9 * (((((x1 * x1) * x1) * x1) * x1) * x2))) * (((y2 * y2) - ((x2 * x2) * x2)) - 7)) == (((((((-1029int) * (1int)) + (245int * (y1 * y2))) + ((98int * (y2 * y2)) + (294int * (x1 * x1 * x1)))) + ((((-1323int) * (x1 * x1 * x2)) + (735int * (x1 * x2 * x2))) + (((-147int) * (x2 * x2 * x2)) + (((-42int) * (y1 * y2 * y2 * y2)) + (7int * (y2 * y2 * y2 * y2)))))) + ((((14int * (x1 * x1 * x1 * y1 * y2)) + ((-28int) * (x1 * x1 * x1 * y2 * y2))) + ((42int * (x1 * x1 * y1 * x2 * y2)) + ((168int * (x1 * x1 * x2 * y2 * y2)) + ((-21int) * (x1 * y1 * x2 * x2 * y2))))) + ((((-105int) * (x1 * x2 * x2 * y2 * y2)) + (35int * (y1 * x2 * x2 * x2 * y2))) + (((-7int) * (x2 * x2 * x2 * y2 * y2)) + (((-63int) * (x1 * x1 * x1 * x1 * x1 * x2)) + (42int * (x1 * x1 * x1 * x1 * x2 * x2))))))) + (((((42int * (x1 * x1 * x1 * x2 * x2 * x2)) + ((-189int) * (x1 * x1 * x2 * x2 * x2 * x2))) + ((105int * (x1 * x2 * x2 * x2 * x2 * x2)) + (1int * (y1 * y2 * y2 * y2 * y2 * y2)))) + ((((-2int) * (x1 * x1 * x1 * y1 * y2 * y2 * y2)) + ((-2int) * (x1 * x1 * x1 * y2 * y2 * y2 * y2))) + (((-6int) * (x1 * x1 * y1 * x2 * y2 * y2 * y2)) + ((3int * (x1 * x1 * x2 * y2 * y2 * y2 * y2)) + (3int * (x1 * y1 * x2 * x2 * y2 * y2 * y2)))))) + (((((-1int) * (y1 * x2 * x2 * x2 * y2 * y2 * y2)) + (9int * (x1 * x1 * x1 * x1 * x1 * x2 * y2 * y2))) + (((-6int) * (x1 * x1 * x1 * x1 * x2 * x2 * y2 * y2)) + ((2int * (x1 * x1 * x1 * y1 * x2 * x2 * x2 * y2)) + (2int * (x1 * x1 * x1 * x2 * x2 * x2 * y2 * y2))))) + (((6int * (x1 * x1 * y1 * x2 * x2 * x2 * x2 * y2)) + ((-3int) * (x1 * x1 * x2 * x2 * x2 * x2 * y2 * y2))) + (((-3int) * (x1 * y1 * x2 * x2 * x2 * x2 * x2 * y2)) + (((-9int) * (x1 * x1 * x1 * x1 * x1 * x2 * x2 * x2 * x2)) + (6int * (x1 * x1 * x1 * x1 * x2 * x2 * x2 * x2 * x2)))))))),
{
    assert(y2 == (1int * (y2)));
    assert(y2 == (1int * (y2)));
    assert((y2 * y2) == (1int * (y2)) * (1int * (y2)));
    lemma_coefficient_product(1int, (y2), 1int, (y2));
    assert((y2) * (y2) == y2 * y2) by (nonlinear_arith);
    assert((y2 * y2) == (1int * (y2 * y2)));
    assert((7 * (y2 * y2)) == (7int * (1int)) * (1int * (y2 * y2)));
    lemma_coefficient_product(7int, (1int), 1int, (y2 * y2));
    assert((1int) * (y2 * y2) == y2 * y2) by (nonlinear_arith);
    assert((7 * (y2 * y2)) == (7int * (y2 * y2)));
    assert((147 + (7 * (y2 * y2))) == (147int * (1int)) + (7int * (y2 * y2)));
    assert((147 + (7 * (y2 * y2))) == ((147int * (1int)) + (7int * (y2 * y2))));
    assert(y1 == (1int * (y1)));
    assert(y2 == (1int * (y2)));
    assert((y1 * y2) == (1int * (y1)) * (1int * (y2)));
    lemma_coefficient_product(1int, (y1), 1int, (y2));
    assert((y1) * (y2) == y1 * y2) by (nonlinear_arith);
    assert((y1 * y2) == (1int * (y1 * y2)));
    assert(((-35) * (y1 * y2)) == ((-35int) * (1int)) * (1int * (y1 * y2)));
    lemma_coefficient_product((-35int), (1int), 1int, (y1 * y2));
    assert((1int) * (y1 * y2) == y1 * y2) by (nonlinear_arith);
    assert(((-35) * (y1 * y2)) == ((-35int) * (y1 * y2)));
    assert(((147 + (7 * (y2 * y2))) + ((-35) * (y1 * y2))) == ((147int * (1int)) + (7int * (y2 * y2))) + ((-35int) * (y1 * y2)));
    assert(((147 + (7 * (y2 * y2))) + ((-35) * (y1 * y2))) == ((147int * (1int)) + (((-35int) * (y1 * y2)) + (7int * (y2 * y2)))));
    assert(y1 == (1int * (y1)));
    assert(y2 == (1int * (y2)));
    assert((y1 * y2) == (1int * (y1)) * (1int * (y2)));
    lemma_coefficient_product(1int, (y1), 1int, (y2));
    assert((y1) * (y2) == y1 * y2) by (nonlinear_arith);
    assert((y1 * y2) == (1int * (y1 * y2)));
    assert(y2 == (1int * (y2)));
    assert(((y1 * y2) * y2) == (1int * (y1 * y2)) * (1int * (y2)));
    lemma_coefficient_product(1int, (y1 * y2), 1int, (y2));
    assert((y1 * y2) * (y2) == y1 * y2 * y2) by (nonlinear_arith);
    assert(((y1 * y2) * y2) == (1int * (y1 * y2 * y2)));
    assert(y2 == (1int * (y2)));
    assert((((y1 * y2) * y2) * y2) == (1int * (y1 * y2 * y2)) * (1int * (y2)));
    lemma_coefficient_product(1int, (y1 * y2 * y2), 1int, (y2));
    assert((y1 * y2 * y2) * (y2) == y1 * y2 * y2 * y2) by (nonlinear_arith);
    assert((((y1 * y2) * y2) * y2) == (1int * (y1 * y2 * y2 * y2)));
    assert((1 * (((y1 * y2) * y2) * y2)) == (1int * (1int)) * (1int * (y1 * y2 * y2 * y2)));
    lemma_coefficient_product(1int, (1int), 1int, (y1 * y2 * y2 * y2));
    assert((1int) * (y1 * y2 * y2 * y2) == y1 * y2 * y2 * y2) by (nonlinear_arith);
    assert((1 * (((y1 * y2) * y2) * y2)) == (1int * (y1 * y2 * y2 * y2)));
    assert((((147 + (7 * (y2 * y2))) + ((-35) * (y1 * y2))) + (1 * (((y1 * y2) * y2) * y2))) == ((147int * (1int)) + (((-35int) * (y1 * y2)) + (7int * (y2 * y2)))) + (1int * (y1 * y2 * y2 * y2)));
    assert((((147 + (7 * (y2 * y2))) + ((-35) * (y1 * y2))) + (1 * (((y1 * y2) * y2) * y2))) == (((147int * (1int)) + ((-35int) * (y1 * y2))) + ((7int * (y2 * y2)) + (1int * (y1 * y2 * y2 * y2)))));
    assert(x1 == (1int * (x1)));
    assert(x2 == (1int * (x2)));
    assert((x1 * x2) == (1int * (x1)) * (1int * (x2)));
    lemma_coefficient_product(1int, (x1), 1int, (x2));
    assert((x1) * (x2) == x1 * x2) by (nonlinear_arith);
    assert((x1 * x2) == (1int * (x1 * x2)));
    assert(x2 == (1int * (x2)));
    assert(((x1 * x2) * x2) == (1int * (x1 * x2)) * (1int * (x2)));
    lemma_coefficient_product(1int, (x1 * x2), 1int, (x2));
    assert((x1 * x2) * (x2) == x1 * x2 * x2) by (nonlinear_arith);
    assert(((x1 * x2) * x2) == (1int * (x1 * x2 * x2)));
    assert(((-105) * ((x1 * x2) * x2)) == ((-105int) * (1int)) * (1int * (x1 * x2 * x2)));
    lemma_coefficient_product((-105int), (1int), 1int, (x1 * x2 * x2));
    assert((1int) * (x1 * x2 * x2) == x1 * x2 * x2) by (nonlinear_arith);
    assert(((-105) * ((x1 * x2) * x2)) == ((-105int) * (x1 * x2 * x2)));
    assert(((((147 + (7 * (y2 * y2))) + ((-35) * (y1 * y2))) + (1 * (((y1 * y2) * y2) * y2))) + ((-105) * ((x1 * x2) * x2))) == (((147int * (1int)) + ((-35int) * (y1 * y2))) + ((7int * (y2 * y2)) + (1int * (y1 * y2 * y2 * y2)))) + ((-105int) * (x1 * x2 * x2)));
    assert(((((147 + (7 * (y2 * y2))) + ((-35) * (y1 * y2))) + (1 * (((y1 * y2) * y2) * y2))) + ((-105) * ((x1 * x2) * x2))) == (((147int * (1int)) + ((-35int) * (y1 * y2))) + ((7int * (y2 * y2)) + (((-105int) * (x1 * x2 * x2)) + (1int * (y1 * y2 * y2 * y2))))));
    assert(x1 == (1int * (x1)));
    assert(y1 == (1int * (y1)));
    assert((x1 * y1) == (1int * (x1)) * (1int * (y1)));
    lemma_coefficient_product(1int, (x1), 1int, (y1));
    assert((x1) * (y1) == x1 * y1) by (nonlinear_arith);
    assert((x1 * y1) == (1int * (x1 * y1)));
    assert(x2 == (1int * (x2)));
    assert(((x1 * y1) * x2) == (1int * (x1 * y1)) * (1int * (x2)));
    lemma_coefficient_product(1int, (x1 * y1), 1int, (x2));
    assert((x1 * y1) * (x2) == x1 * y1 * x2) by (nonlinear_arith);
    assert(((x1 * y1) * x2) == (1int * (x1 * y1 * x2)));
    assert(x2 == (1int * (x2)));
    assert((((x1 * y1) * x2) * x2) == (1int * (x1 * y1 * x2)) * (1int * (x2)));
    lemma_coefficient_product(1int, (x1 * y1 * x2), 1int, (x2));
    assert((x1 * y1 * x2) * (x2) == x1 * y1 * x2 * x2) by (nonlinear_arith);
    assert((((x1 * y1) * x2) * x2) == (1int * (x1 * y1 * x2 * x2)));
    assert(y2 == (1int * (y2)));
    assert(((((x1 * y1) * x2) * x2) * y2) == (1int * (x1 * y1 * x2 * x2)) * (1int * (y2)));
    lemma_coefficient_product(1int, (x1 * y1 * x2 * x2), 1int, (y2));
    assert((x1 * y1 * x2 * x2) * (y2) == x1 * y1 * x2 * x2 * y2) by (nonlinear_arith);
    assert(((((x1 * y1) * x2) * x2) * y2) == (1int * (x1 * y1 * x2 * x2 * y2)));
    assert((3 * ((((x1 * y1) * x2) * x2) * y2)) == (3int * (1int)) * (1int * (x1 * y1 * x2 * x2 * y2)));
    lemma_coefficient_product(3int, (1int), 1int, (x1 * y1 * x2 * x2 * y2));
    assert((1int) * (x1 * y1 * x2 * x2 * y2) == x1 * y1 * x2 * x2 * y2) by (nonlinear_arith);
    assert((3 * ((((x1 * y1) * x2) * x2) * y2)) == (3int * (x1 * y1 * x2 * x2 * y2)));
    assert((((((147 + (7 * (y2 * y2))) + ((-35) * (y1 * y2))) + (1 * (((y1 * y2) * y2) * y2))) + ((-105) * ((x1 * x2) * x2))) + (3 * ((((x1 * y1) * x2) * x2) * y2))) == (((147int * (1int)) + ((-35int) * (y1 * y2))) + ((7int * (y2 * y2)) + (((-105int) * (x1 * x2 * x2)) + (1int * (y1 * y2 * y2 * y2))))) + (3int * (x1 * y1 * x2 * x2 * y2)));
    assert((((((147 + (7 * (y2 * y2))) + ((-35) * (y1 * y2))) + (1 * (((y1 * y2) * y2) * y2))) + ((-105) * ((x1 * x2) * x2))) + (3 * ((((x1 * y1) * x2) * x2) * y2))) == (((147int * (1int)) + (((-35int) * (y1 * y2)) + (7int * (y2 * y2)))) + (((-105int) * (x1 * x2 * x2)) + ((1int * (y1 * y2 * y2 * y2)) + (3int * (x1 * y1 * x2 * x2 * y2))))));
    assert(x1 == (1int * (x1)));
    assert(x1 == (1int * (x1)));
    assert((x1 * x1) == (1int * (x1)) * (1int * (x1)));
    lemma_coefficient_product(1int, (x1), 1int, (x1));
    assert((x1) * (x1) == x1 * x1) by (nonlinear_arith);
    assert((x1 * x1) == (1int * (x1 * x1)));
    assert(x2 == (1int * (x2)));
    assert(((x1 * x1) * x2) == (1int * (x1 * x1)) * (1int * (x2)));
    lemma_coefficient_product(1int, (x1 * x1), 1int, (x2));
    assert((x1 * x1) * (x2) == x1 * x1 * x2) by (nonlinear_arith);
    assert(((x1 * x1) * x2) == (1int * (x1 * x1 * x2)));
    assert((189 * ((x1 * x1) * x2)) == (189int * (1int)) * (1int * (x1 * x1 * x2)));
    lemma_coefficient_product(189int, (1int), 1int, (x1 * x1 * x2));
    assert((1int) * (x1 * x1 * x2) == x1 * x1 * x2) by (nonlinear_arith);
    assert((189 * ((x1 * x1) * x2)) == (189int * (x1 * x1 * x2)));
    assert(((((((147 + (7 * (y2 * y2))) + ((-35) * (y1 * y2))) + (1 * (((y1 * y2) * y2) * y2))) + ((-105) * ((x1 * x2) * x2))) + (3 * ((((x1 * y1) * x2) * x2) * y2))) + (189 * ((x1 * x1) * x2))) == (((147int * (1int)) + (((-35int) * (y1 * y2)) + (7int * (y2 * y2)))) + (((-105int) * (x1 * x2 * x2)) + ((1int * (y1 * y2 * y2 * y2)) + (3int * (x1 * y1 * x2 * x2 * y2))))) + (189int * (x1 * x1 * x2)));
    assert(((((((147 + (7 * (y2 * y2))) + ((-35) * (y1 * y2))) + (1 * (((y1 * y2) * y2) * y2))) + ((-105) * ((x1 * x2) * x2))) + (3 * ((((x1 * y1) * x2) * x2) * y2))) + (189 * ((x1 * x1) * x2))) == (((147int * (1int)) + (((-35int) * (y1 * y2)) + (7int * (y2 * y2)))) + (((189int * (x1 * x1 * x2)) + ((-105int) * (x1 * x2 * x2))) + ((1int * (y1 * y2 * y2 * y2)) + (3int * (x1 * y1 * x2 * x2 * y2))))));
    assert(x1 == (1int * (x1)));
    assert(x1 == (1int * (x1)));
    assert((x1 * x1) == (1int * (x1)) * (1int * (x1)));
    lemma_coefficient_product(1int, (x1), 1int, (x1));
    assert((x1) * (x1) == x1 * x1) by (nonlinear_arith);
    assert((x1 * x1) == (1int * (x1 * x1)));
    assert(x2 == (1int * (x2)));
    assert(((x1 * x1) * x2) == (1int * (x1 * x1)) * (1int * (x2)));
    lemma_coefficient_product(1int, (x1 * x1), 1int, (x2));
    assert((x1 * x1) * (x2) == x1 * x1 * x2) by (nonlinear_arith);
    assert(((x1 * x1) * x2) == (1int * (x1 * x1 * x2)));
    assert(y2 == (1int * (y2)));
    assert((((x1 * x1) * x2) * y2) == (1int * (x1 * x1 * x2)) * (1int * (y2)));
    lemma_coefficient_product(1int, (x1 * x1 * x2), 1int, (y2));
    assert((x1 * x1 * x2) * (y2) == x1 * x1 * x2 * y2) by (nonlinear_arith);
    assert((((x1 * x1) * x2) * y2) == (1int * (x1 * x1 * x2 * y2)));
    assert(y2 == (1int * (y2)));
    assert(((((x1 * x1) * x2) * y2) * y2) == (1int * (x1 * x1 * x2 * y2)) * (1int * (y2)));
    lemma_coefficient_product(1int, (x1 * x1 * x2 * y2), 1int, (y2));
    assert((x1 * x1 * x2 * y2) * (y2) == x1 * x1 * x2 * y2 * y2) by (nonlinear_arith);
    assert(((((x1 * x1) * x2) * y2) * y2) == (1int * (x1 * x1 * x2 * y2 * y2)));
    assert((3 * ((((x1 * x1) * x2) * y2) * y2)) == (3int * (1int)) * (1int * (x1 * x1 * x2 * y2 * y2)));
    lemma_coefficient_product(3int, (1int), 1int, (x1 * x1 * x2 * y2 * y2));
    assert((1int) * (x1 * x1 * x2 * y2 * y2) == x1 * x1 * x2 * y2 * y2) by (nonlinear_arith);
    assert((3 * ((((x1 * x1) * x2) * y2) * y2)) == (3int * (x1 * x1 * x2 * y2 * y2)));
    assert((((((((147 + (7 * (y2 * y2))) + ((-35) * (y1 * y2))) + (1 * (((y1 * y2) * y2) * y2))) + ((-105) * ((x1 * x2) * x2))) + (3 * ((((x1 * y1) * x2) * x2) * y2))) + (189 * ((x1 * x1) * x2))) + (3 * ((((x1 * x1) * x2) * y2) * y2))) == (((147int * (1int)) + (((-35int) * (y1 * y2)) + (7int * (y2 * y2)))) + (((189int * (x1 * x1 * x2)) + ((-105int) * (x1 * x2 * x2))) + ((1int * (y1 * y2 * y2 * y2)) + (3int * (x1 * y1 * x2 * x2 * y2))))) + (3int * (x1 * x1 * x2 * y2 * y2)));
    assert((((((((147 + (7 * (y2 * y2))) + ((-35) * (y1 * y2))) + (1 * (((y1 * y2) * y2) * y2))) + ((-105) * ((x1 * x2) * x2))) + (3 * ((((x1 * y1) * x2) * x2) * y2))) + (189 * ((x1 * x1) * x2))) + (3 * ((((x1 * x1) * x2) * y2) * y2))) == ((((147int * (1int)) + ((-35int) * (y1 * y2))) + ((7int * (y2 * y2)) + (189int * (x1 * x1 * x2)))) + ((((-105int) * (x1 * x2 * x2)) + (1int * (y1 * y2 * y2 * y2))) + ((3int * (x1 * x1 * x2 * y2 * y2)) + (3int * (x1 * y1 * x2 * x2 * y2))))));
    assert(x1 == (1int * (x1)));
    assert(x1 == (1int * (x1)));
    assert((x1 * x1) == (1int * (x1)) * (1int * (x1)));
    lemma_coefficient_product(1int, (x1), 1int, (x1));
    assert((x1) * (x1) == x1 * x1) by (nonlinear_arith);
    assert((x1 * x1) == (1int * (x1 * x1)));
    assert(y1 == (1int * (y1)));
    assert(((x1 * x1) * y1) == (1int * (x1 * x1)) * (1int * (y1)));
    lemma_coefficient_product(1int, (x1 * x1), 1int, (y1));
    assert((x1 * x1) * (y1) == x1 * x1 * y1) by (nonlinear_arith);
    assert(((x1 * x1) * y1) == (1int * (x1 * x1 * y1)));
    assert(x2 == (1int * (x2)));
    assert((((x1 * x1) * y1) * x2) == (1int * (x1 * x1 * y1)) * (1int * (x2)));
    lemma_coefficient_product(1int, (x1 * x1 * y1), 1int, (x2));
    assert((x1 * x1 * y1) * (x2) == x1 * x1 * y1 * x2) by (nonlinear_arith);
    assert((((x1 * x1) * y1) * x2) == (1int * (x1 * x1 * y1 * x2)));
    assert(y2 == (1int * (y2)));
    assert(((((x1 * x1) * y1) * x2) * y2) == (1int * (x1 * x1 * y1 * x2)) * (1int * (y2)));
    lemma_coefficient_product(1int, (x1 * x1 * y1 * x2), 1int, (y2));
    assert((x1 * x1 * y1 * x2) * (y2) == x1 * x1 * y1 * x2 * y2) by (nonlinear_arith);
    assert(((((x1 * x1) * y1) * x2) * y2) == (1int * (x1 * x1 * y1 * x2 * y2)));
    assert(((-6) * ((((x1 * x1) * y1) * x2) * y2)) == ((-6int) * (1int)) * (1int * (x1 * x1 * y1 * x2 * y2)));
    lemma_coefficient_product((-6int), (1int), 1int, (x1 * x1 * y1 * x2 * y2));
    assert((1int) * (x1 * x1 * y1 * x2 * y2) == x1 * x1 * y1 * x2 * y2) by (nonlinear_arith);
    assert(((-6) * ((((x1 * x1) * y1) * x2) * y2)) == ((-6int) * (x1 * x1 * y1 * x2 * y2)));
    assert(((((((((147 + (7 * (y2 * y2))) + ((-35) * (y1 * y2))) + (1 * (((y1 * y2) * y2) * y2))) + ((-105) * ((x1 * x2) * x2))) + (3 * ((((x1 * y1) * x2) * x2) * y2))) + (189 * ((x1 * x1) * x2))) + (3 * ((((x1 * x1) * x2) * y2) * y2))) + ((-6) * ((((x1 * x1) * y1) * x2) * y2))) == ((((147int * (1int)) + ((-35int) * (y1 * y2))) + ((7int * (y2 * y2)) + (189int * (x1 * x1 * x2)))) + ((((-105int) * (x1 * x2 * x2)) + (1int * (y1 * y2 * y2 * y2))) + ((3int * (x1 * x1 * x2 * y2 * y2)) + (3int * (x1 * y1 * x2 * x2 * y2))))) + ((-6int) * (x1 * x1 * y1 * x2 * y2)));
    assert(((((((((147 + (7 * (y2 * y2))) + ((-35) * (y1 * y2))) + (1 * (((y1 * y2) * y2) * y2))) + ((-105) * ((x1 * x2) * x2))) + (3 * ((((x1 * y1) * x2) * x2) * y2))) + (189 * ((x1 * x1) * x2))) + (3 * ((((x1 * x1) * x2) * y2) * y2))) + ((-6) * ((((x1 * x1) * y1) * x2) * y2))) == ((((147int * (1int)) + ((-35int) * (y1 * y2))) + ((7int * (y2 * y2)) + (189int * (x1 * x1 * x2)))) + ((((-105int) * (x1 * x2 * x2)) + (1int * (y1 * y2 * y2 * y2))) + (((-6int) * (x1 * x1 * y1 * x2 * y2)) + ((3int * (x1 * x1 * x2 * y2 * y2)) + (3int * (x1 * y1 * x2 * x2 * y2)))))));
    assert(x1 == (1int * (x1)));
    assert(x1 == (1int * (x1)));
    assert((x1 * x1) == (1int * (x1)) * (1int * (x1)));
    lemma_coefficient_product(1int, (x1), 1int, (x1));
    assert((x1) * (x1) == x1 * x1) by (nonlinear_arith);
    assert((x1 * x1) == (1int * (x1 * x1)));
    assert(x1 == (1int * (x1)));
    assert(((x1 * x1) * x1) == (1int * (x1 * x1)) * (1int * (x1)));
    lemma_coefficient_product(1int, (x1 * x1), 1int, (x1));
    assert((x1 * x1) * (x1) == x1 * x1 * x1) by (nonlinear_arith);
    assert(((x1 * x1) * x1) == (1int * (x1 * x1 * x1)));
    assert(((-42) * ((x1 * x1) * x1)) == ((-42int) * (1int)) * (1int * (x1 * x1 * x1)));
    lemma_coefficient_product((-42int), (1int), 1int, (x1 * x1 * x1));
    assert((1int) * (x1 * x1 * x1) == x1 * x1 * x1) by (nonlinear_arith);
    assert(((-42) * ((x1 * x1) * x1)) == ((-42int) * (x1 * x1 * x1)));
    assert((((((((((147 + (7 * (y2 * y2))) + ((-35) * (y1 * y2))) + (1 * (((y1 * y2) * y2) * y2))) + ((-105) * ((x1 * x2) * x2))) + (3 * ((((x1 * y1) * x2) * x2) * y2))) + (189 * ((x1 * x1) * x2))) + (3 * ((((x1 * x1) * x2) * y2) * y2))) + ((-6) * ((((x1 * x1) * y1) * x2) * y2))) + ((-42) * ((x1 * x1) * x1))) == ((((147int * (1int)) + ((-35int) * (y1 * y2))) + ((7int * (y2 * y2)) + (189int * (x1 * x1 * x2)))) + ((((-105int) * (x1 * x2 * x2)) + (1int * (y1 * y2 * y2 * y2))) + (((-6int) * (x1 * x1 * y1 * x2 * y2)) + ((3int * (x1 * x1 * x2 * y2 * y2)) + (3int * (x1 * y1 * x2 * x2 * y2)))))) + ((-42int) * (x1 * x1 * x1)));
    assert((((((((((147 + (7 * (y2 * y2))) + ((-35) * (y1 * y2))) + (1 * (((y1 * y2) * y2) * y2))) + ((-105) * ((x1 * x2) * x2))) + (3 * ((((x1 * y1) * x2) * x2) * y2))) + (189 * ((x1 * x1) * x2))) + (3 * ((((x1 * x1) * x2) * y2) * y2))) + ((-6) * ((((x1 * x1) * y1) * x2) * y2))) + ((-42) * ((x1 * x1) * x1))) == ((((147int * (1int)) + ((-35int) * (y1 * y2))) + ((7int * (y2 * y2)) + (((-42int) * (x1 * x1 * x1)) + (189int * (x1 * x1 * x2))))) + ((((-105int) * (x1 * x2 * x2)) + (1int * (y1 * y2 * y2 * y2))) + (((-6int) * (x1 * x1 * y1 * x2 * y2)) + ((3int * (x1 * x1 * x2 * y2 * y2)) + (3int * (x1 * y1 * x2 * x2 * y2)))))));
    assert(x1 == (1int * (x1)));
    assert(x1 == (1int * (x1)));
    assert((x1 * x1) == (1int * (x1)) * (1int * (x1)));
    lemma_coefficient_product(1int, (x1), 1int, (x1));
    assert((x1) * (x1) == x1 * x1) by (nonlinear_arith);
    assert((x1 * x1) == (1int * (x1 * x1)));
    assert(x1 == (1int * (x1)));
    assert(((x1 * x1) * x1) == (1int * (x1 * x1)) * (1int * (x1)));
    lemma_coefficient_product(1int, (x1 * x1), 1int, (x1));
    assert((x1 * x1) * (x1) == x1 * x1 * x1) by (nonlinear_arith);
    assert(((x1 * x1) * x1) == (1int * (x1 * x1 * x1)));
    assert(y2 == (1int * (y2)));
    assert((((x1 * x1) * x1) * y2) == (1int * (x1 * x1 * x1)) * (1int * (y2)));
    lemma_coefficient_product(1int, (x1 * x1 * x1), 1int, (y2));
    assert((x1 * x1 * x1) * (y2) == x1 * x1 * x1 * y2) by (nonlinear_arith);
    assert((((x1 * x1) * x1) * y2) == (1int * (x1 * x1 * x1 * y2)));
    assert(y2 == (1int * (y2)));
    assert(((((x1 * x1) * x1) * y2) * y2) == (1int * (x1 * x1 * x1 * y2)) * (1int * (y2)));
    lemma_coefficient_product(1int, (x1 * x1 * x1 * y2), 1int, (y2));
    assert((x1 * x1 * x1 * y2) * (y2) == x1 * x1 * x1 * y2 * y2) by (nonlinear_arith);
    assert(((((x1 * x1) * x1) * y2) * y2) == (1int * (x1 * x1 * x1 * y2 * y2)));
    assert(((-2) * ((((x1 * x1) * x1) * y2) * y2)) == ((-2int) * (1int)) * (1int * (x1 * x1 * x1 * y2 * y2)));
    lemma_coefficient_product((-2int), (1int), 1int, (x1 * x1 * x1 * y2 * y2));
    assert((1int) * (x1 * x1 * x1 * y2 * y2) == x1 * x1 * x1 * y2 * y2) by (nonlinear_arith);
    assert(((-2) * ((((x1 * x1) * x1) * y2) * y2)) == ((-2int) * (x1 * x1 * x1 * y2 * y2)));
    assert(((((((((((147 + (7 * (y2 * y2))) + ((-35) * (y1 * y2))) + (1 * (((y1 * y2) * y2) * y2))) + ((-105) * ((x1 * x2) * x2))) + (3 * ((((x1 * y1) * x2) * x2) * y2))) + (189 * ((x1 * x1) * x2))) + (3 * ((((x1 * x1) * x2) * y2) * y2))) + ((-6) * ((((x1 * x1) * y1) * x2) * y2))) + ((-42) * ((x1 * x1) * x1))) + ((-2) * ((((x1 * x1) * x1) * y2) * y2))) == ((((147int * (1int)) + ((-35int) * (y1 * y2))) + ((7int * (y2 * y2)) + (((-42int) * (x1 * x1 * x1)) + (189int * (x1 * x1 * x2))))) + ((((-105int) * (x1 * x2 * x2)) + (1int * (y1 * y2 * y2 * y2))) + (((-6int) * (x1 * x1 * y1 * x2 * y2)) + ((3int * (x1 * x1 * x2 * y2 * y2)) + (3int * (x1 * y1 * x2 * x2 * y2)))))) + ((-2int) * (x1 * x1 * x1 * y2 * y2)));
    assert(((((((((((147 + (7 * (y2 * y2))) + ((-35) * (y1 * y2))) + (1 * (((y1 * y2) * y2) * y2))) + ((-105) * ((x1 * x2) * x2))) + (3 * ((((x1 * y1) * x2) * x2) * y2))) + (189 * ((x1 * x1) * x2))) + (3 * ((((x1 * x1) * x2) * y2) * y2))) + ((-6) * ((((x1 * x1) * y1) * x2) * y2))) + ((-42) * ((x1 * x1) * x1))) + ((-2) * ((((x1 * x1) * x1) * y2) * y2))) == ((((147int * (1int)) + ((-35int) * (y1 * y2))) + ((7int * (y2 * y2)) + (((-42int) * (x1 * x1 * x1)) + (189int * (x1 * x1 * x2))))) + ((((-105int) * (x1 * x2 * x2)) + ((1int * (y1 * y2 * y2 * y2)) + ((-2int) * (x1 * x1 * x1 * y2 * y2)))) + (((-6int) * (x1 * x1 * y1 * x2 * y2)) + ((3int * (x1 * x1 * x2 * y2 * y2)) + (3int * (x1 * y1 * x2 * x2 * y2)))))));
    assert(x1 == (1int * (x1)));
    assert(x1 == (1int * (x1)));
    assert((x1 * x1) == (1int * (x1)) * (1int * (x1)));
    lemma_coefficient_product(1int, (x1), 1int, (x1));
    assert((x1) * (x1) == x1 * x1) by (nonlinear_arith);
    assert((x1 * x1) == (1int * (x1 * x1)));
    assert(x1 == (1int * (x1)));
    assert(((x1 * x1) * x1) == (1int * (x1 * x1)) * (1int * (x1)));
    lemma_coefficient_product(1int, (x1 * x1), 1int, (x1));
    assert((x1 * x1) * (x1) == x1 * x1 * x1) by (nonlinear_arith);
    assert(((x1 * x1) * x1) == (1int * (x1 * x1 * x1)));
    assert(y1 == (1int * (y1)));
    assert((((x1 * x1) * x1) * y1) == (1int * (x1 * x1 * x1)) * (1int * (y1)));
    lemma_coefficient_product(1int, (x1 * x1 * x1), 1int, (y1));
    assert((x1 * x1 * x1) * (y1) == x1 * x1 * x1 * y1) by (nonlinear_arith);
    assert((((x1 * x1) * x1) * y1) == (1int * (x1 * x1 * x1 * y1)));
    assert(y2 == (1int * (y2)));
    assert(((((x1 * x1) * x1) * y1) * y2) == (1int * (x1 * x1 * x1 * y1)) * (1int * (y2)));
    lemma_coefficient_product(1int, (x1 * x1 * x1 * y1), 1int, (y2));
    assert((x1 * x1 * x1 * y1) * (y2) == x1 * x1 * x1 * y1 * y2) by (nonlinear_arith);
    assert(((((x1 * x1) * x1) * y1) * y2) == (1int * (x1 * x1 * x1 * y1 * y2)));
    assert(((-2) * ((((x1 * x1) * x1) * y1) * y2)) == ((-2int) * (1int)) * (1int * (x1 * x1 * x1 * y1 * y2)));
    lemma_coefficient_product((-2int), (1int), 1int, (x1 * x1 * x1 * y1 * y2));
    assert((1int) * (x1 * x1 * x1 * y1 * y2) == x1 * x1 * x1 * y1 * y2) by (nonlinear_arith);
    assert(((-2) * ((((x1 * x1) * x1) * y1) * y2)) == ((-2int) * (x1 * x1 * x1 * y1 * y2)));
    assert((((((((((((147 + (7 * (y2 * y2))) + ((-35) * (y1 * y2))) + (1 * (((y1 * y2) * y2) * y2))) + ((-105) * ((x1 * x2) * x2))) + (3 * ((((x1 * y1) * x2) * x2) * y2))) + (189 * ((x1 * x1) * x2))) + (3 * ((((x1 * x1) * x2) * y2) * y2))) + ((-6) * ((((x1 * x1) * y1) * x2) * y2))) + ((-42) * ((x1 * x1) * x1))) + ((-2) * ((((x1 * x1) * x1) * y2) * y2))) + ((-2) * ((((x1 * x1) * x1) * y1) * y2))) == ((((147int * (1int)) + ((-35int) * (y1 * y2))) + ((7int * (y2 * y2)) + (((-42int) * (x1 * x1 * x1)) + (189int * (x1 * x1 * x2))))) + ((((-105int) * (x1 * x2 * x2)) + ((1int * (y1 * y2 * y2 * y2)) + ((-2int) * (x1 * x1 * x1 * y2 * y2)))) + (((-6int) * (x1 * x1 * y1 * x2 * y2)) + ((3int * (x1 * x1 * x2 * y2 * y2)) + (3int * (x1 * y1 * x2 * x2 * y2)))))) + ((-2int) * (x1 * x1 * x1 * y1 * y2)));
    assert((((((((((((147 + (7 * (y2 * y2))) + ((-35) * (y1 * y2))) + (1 * (((y1 * y2) * y2) * y2))) + ((-105) * ((x1 * x2) * x2))) + (3 * ((((x1 * y1) * x2) * x2) * y2))) + (189 * ((x1 * x1) * x2))) + (3 * ((((x1 * x1) * x2) * y2) * y2))) + ((-6) * ((((x1 * x1) * y1) * x2) * y2))) + ((-42) * ((x1 * x1) * x1))) + ((-2) * ((((x1 * x1) * x1) * y2) * y2))) + ((-2) * ((((x1 * x1) * x1) * y1) * y2))) == ((((147int * (1int)) + (((-35int) * (y1 * y2)) + (7int * (y2 * y2)))) + (((-42int) * (x1 * x1 * x1)) + ((189int * (x1 * x1 * x2)) + ((-105int) * (x1 * x2 * x2))))) + (((1int * (y1 * y2 * y2 * y2)) + (((-2int) * (x1 * x1 * x1 * y1 * y2)) + ((-2int) * (x1 * x1 * x1 * y2 * y2)))) + (((-6int) * (x1 * x1 * y1 * x2 * y2)) + ((3int * (x1 * x1 * x2 * y2 * y2)) + (3int * (x1 * y1 * x2 * x2 * y2)))))));
    assert(x1 == (1int * (x1)));
    assert(x1 == (1int * (x1)));
    assert((x1 * x1) == (1int * (x1)) * (1int * (x1)));
    lemma_coefficient_product(1int, (x1), 1int, (x1));
    assert((x1) * (x1) == x1 * x1) by (nonlinear_arith);
    assert((x1 * x1) == (1int * (x1 * x1)));
    assert(x1 == (1int * (x1)));
    assert(((x1 * x1) * x1) == (1int * (x1 * x1)) * (1int * (x1)));
    lemma_coefficient_product(1int, (x1 * x1), 1int, (x1));
    assert((x1 * x1) * (x1) == x1 * x1 * x1) by (nonlinear_arith);
    assert(((x1 * x1) * x1) == (1int * (x1 * x1 * x1)));
    assert(x1 == (1int * (x1)));
    assert((((x1 * x1) * x1) * x1) == (1int * (x1 * x1 * x1)) * (1int * (x1)));
    lemma_coefficient_product(1int, (x1 * x1 * x1), 1int, (x1));
    assert((x1 * x1 * x1) * (x1) == x1 * x1 * x1 * x1) by (nonlinear_arith);
    assert((((x1 * x1) * x1) * x1) == (1int * (x1 * x1 * x1 * x1)));
    assert(x2 == (1int * (x2)));
    assert(((((x1 * x1) * x1) * x1) * x2) == (1int * (x1 * x1 * x1 * x1)) * (1int * (x2)));
    lemma_coefficient_product(1int, (x1 * x1 * x1 * x1), 1int, (x2));
    assert((x1 * x1 * x1 * x1) * (x2) == x1 * x1 * x1 * x1 * x2) by (nonlinear_arith);
    assert(((((x1 * x1) * x1) * x1) * x2) == (1int * (x1 * x1 * x1 * x1 * x2)));
    assert(x2 == (1int * (x2)));
    assert((((((x1 * x1) * x1) * x1) * x2) * x2) == (1int * (x1 * x1 * x1 * x1 * x2)) * (1int * (x2)));
    lemma_coefficient_product(1int, (x1 * x1 * x1 * x1 * x2), 1int, (x2));
    assert((x1 * x1 * x1 * x1 * x2) * (x2) == x1 * x1 * x1 * x1 * x2 * x2) by (nonlinear_arith);
    assert((((((x1 * x1) * x1) * x1) * x2) * x2) == (1int * (x1 * x1 * x1 * x1 * x2 * x2)));
    assert(((-6) * (((((x1 * x1) * x1) * x1) * x2) * x2)) == ((-6int) * (1int)) * (1int * (x1 * x1 * x1 * x1 * x2 * x2)));
    lemma_coefficient_product((-6int), (1int), 1int, (x1 * x1 * x1 * x1 * x2 * x2));
    assert((1int) * (x1 * x1 * x1 * x1 * x2 * x2) == x1 * x1 * x1 * x1 * x2 * x2) by (nonlinear_arith);
    assert(((-6) * (((((x1 * x1) * x1) * x1) * x2) * x2)) == ((-6int) * (x1 * x1 * x1 * x1 * x2 * x2)));
    assert(((((((((((((147 + (7 * (y2 * y2))) + ((-35) * (y1 * y2))) + (1 * (((y1 * y2) * y2) * y2))) + ((-105) * ((x1 * x2) * x2))) + (3 * ((((x1 * y1) * x2) * x2) * y2))) + (189 * ((x1 * x1) * x2))) + (3 * ((((x1 * x1) * x2) * y2) * y2))) + ((-6) * ((((x1 * x1) * y1) * x2) * y2))) + ((-42) * ((x1 * x1) * x1))) + ((-2) * ((((x1 * x1) * x1) * y2) * y2))) + ((-2) * ((((x1 * x1) * x1) * y1) * y2))) + ((-6) * (((((x1 * x1) * x1) * x1) * x2) * x2))) == ((((147int * (1int)) + (((-35int) * (y1 * y2)) + (7int * (y2 * y2)))) + (((-42int) * (x1 * x1 * x1)) + ((189int * (x1 * x1 * x2)) + ((-105int) * (x1 * x2 * x2))))) + (((1int * (y1 * y2 * y2 * y2)) + (((-2int) * (x1 * x1 * x1 * y1 * y2)) + ((-2int) * (x1 * x1 * x1 * y2 * y2)))) + (((-6int) * (x1 * x1 * y1 * x2 * y2)) + ((3int * (x1 * x1 * x2 * y2 * y2)) + (3int * (x1 * y1 * x2 * x2 * y2)))))) + ((-6int) * (x1 * x1 * x1 * x1 * x2 * x2)));
    assert(((((((((((((147 + (7 * (y2 * y2))) + ((-35) * (y1 * y2))) + (1 * (((y1 * y2) * y2) * y2))) + ((-105) * ((x1 * x2) * x2))) + (3 * ((((x1 * y1) * x2) * x2) * y2))) + (189 * ((x1 * x1) * x2))) + (3 * ((((x1 * x1) * x2) * y2) * y2))) + ((-6) * ((((x1 * x1) * y1) * x2) * y2))) + ((-42) * ((x1 * x1) * x1))) + ((-2) * ((((x1 * x1) * x1) * y2) * y2))) + ((-2) * ((((x1 * x1) * x1) * y1) * y2))) + ((-6) * (((((x1 * x1) * x1) * x1) * x2) * x2))) == ((((147int * (1int)) + (((-35int) * (y1 * y2)) + (7int * (y2 * y2)))) + (((-42int) * (x1 * x1 * x1)) + ((189int * (x1 * x1 * x2)) + ((-105int) * (x1 * x2 * x2))))) + (((1int * (y1 * y2 * y2 * y2)) + (((-2int) * (x1 * x1 * x1 * y1 * y2)) + ((-2int) * (x1 * x1 * x1 * y2 * y2)))) + ((((-6int) * (x1 * x1 * y1 * x2 * y2)) + (3int * (x1 * x1 * x2 * y2 * y2))) + ((3int * (x1 * y1 * x2 * x2 * y2)) + ((-6int) * (x1 * x1 * x1 * x1 * x2 * x2)))))));
    assert(x1 == (1int * (x1)));
    assert(x1 == (1int * (x1)));
    assert((x1 * x1) == (1int * (x1)) * (1int * (x1)));
    lemma_coefficient_product(1int, (x1), 1int, (x1));
    assert((x1) * (x1) == x1 * x1) by (nonlinear_arith);
    assert((x1 * x1) == (1int * (x1 * x1)));
    assert(x1 == (1int * (x1)));
    assert(((x1 * x1) * x1) == (1int * (x1 * x1)) * (1int * (x1)));
    lemma_coefficient_product(1int, (x1 * x1), 1int, (x1));
    assert((x1 * x1) * (x1) == x1 * x1 * x1) by (nonlinear_arith);
    assert(((x1 * x1) * x1) == (1int * (x1 * x1 * x1)));
    assert(x1 == (1int * (x1)));
    assert((((x1 * x1) * x1) * x1) == (1int * (x1 * x1 * x1)) * (1int * (x1)));
    lemma_coefficient_product(1int, (x1 * x1 * x1), 1int, (x1));
    assert((x1 * x1 * x1) * (x1) == x1 * x1 * x1 * x1) by (nonlinear_arith);
    assert((((x1 * x1) * x1) * x1) == (1int * (x1 * x1 * x1 * x1)));
    assert(x1 == (1int * (x1)));
    assert(((((x1 * x1) * x1) * x1) * x1) == (1int * (x1 * x1 * x1 * x1)) * (1int * (x1)));
    lemma_coefficient_product(1int, (x1 * x1 * x1 * x1), 1int, (x1));
    assert((x1 * x1 * x1 * x1) * (x1) == x1 * x1 * x1 * x1 * x1) by (nonlinear_arith);
    assert(((((x1 * x1) * x1) * x1) * x1) == (1int * (x1 * x1 * x1 * x1 * x1)));
    assert(x2 == (1int * (x2)));
    assert((((((x1 * x1) * x1) * x1) * x1) * x2) == (1int * (x1 * x1 * x1 * x1 * x1)) * (1int * (x2)));
    lemma_coefficient_product(1int, (x1 * x1 * x1 * x1 * x1), 1int, (x2));
    assert((x1 * x1 * x1 * x1 * x1) * (x2) == x1 * x1 * x1 * x1 * x1 * x2) by (nonlinear_arith);
    assert((((((x1 * x1) * x1) * x1) * x1) * x2) == (1int * (x1 * x1 * x1 * x1 * x1 * x2)));
    assert((9 * (((((x1 * x1) * x1) * x1) * x1) * x2)) == (9int * (1int)) * (1int * (x1 * x1 * x1 * x1 * x1 * x2)));
    lemma_coefficient_product(9int, (1int), 1int, (x1 * x1 * x1 * x1 * x1 * x2));
    assert((1int) * (x1 * x1 * x1 * x1 * x1 * x2) == x1 * x1 * x1 * x1 * x1 * x2) by (nonlinear_arith);
    assert((9 * (((((x1 * x1) * x1) * x1) * x1) * x2)) == (9int * (x1 * x1 * x1 * x1 * x1 * x2)));
    assert((((((((((((((147 + (7 * (y2 * y2))) + ((-35) * (y1 * y2))) + (1 * (((y1 * y2) * y2) * y2))) + ((-105) * ((x1 * x2) * x2))) + (3 * ((((x1 * y1) * x2) * x2) * y2))) + (189 * ((x1 * x1) * x2))) + (3 * ((((x1 * x1) * x2) * y2) * y2))) + ((-6) * ((((x1 * x1) * y1) * x2) * y2))) + ((-42) * ((x1 * x1) * x1))) + ((-2) * ((((x1 * x1) * x1) * y2) * y2))) + ((-2) * ((((x1 * x1) * x1) * y1) * y2))) + ((-6) * (((((x1 * x1) * x1) * x1) * x2) * x2))) + (9 * (((((x1 * x1) * x1) * x1) * x1) * x2))) == ((((147int * (1int)) + (((-35int) * (y1 * y2)) + (7int * (y2 * y2)))) + (((-42int) * (x1 * x1 * x1)) + ((189int * (x1 * x1 * x2)) + ((-105int) * (x1 * x2 * x2))))) + (((1int * (y1 * y2 * y2 * y2)) + (((-2int) * (x1 * x1 * x1 * y1 * y2)) + ((-2int) * (x1 * x1 * x1 * y2 * y2)))) + ((((-6int) * (x1 * x1 * y1 * x2 * y2)) + (3int * (x1 * x1 * x2 * y2 * y2))) + ((3int * (x1 * y1 * x2 * x2 * y2)) + ((-6int) * (x1 * x1 * x1 * x1 * x2 * x2)))))) + (9int * (x1 * x1 * x1 * x1 * x1 * x2)));
    assert((((((((((((((147 + (7 * (y2 * y2))) + ((-35) * (y1 * y2))) + (1 * (((y1 * y2) * y2) * y2))) + ((-105) * ((x1 * x2) * x2))) + (3 * ((((x1 * y1) * x2) * x2) * y2))) + (189 * ((x1 * x1) * x2))) + (3 * ((((x1 * x1) * x2) * y2) * y2))) + ((-6) * ((((x1 * x1) * y1) * x2) * y2))) + ((-42) * ((x1 * x1) * x1))) + ((-2) * ((((x1 * x1) * x1) * y2) * y2))) + ((-2) * ((((x1 * x1) * x1) * y1) * y2))) + ((-6) * (((((x1 * x1) * x1) * x1) * x2) * x2))) + (9 * (((((x1 * x1) * x1) * x1) * x1) * x2))) == ((((147int * (1int)) + (((-35int) * (y1 * y2)) + (7int * (y2 * y2)))) + ((((-42int) * (x1 * x1 * x1)) + (189int * (x1 * x1 * x2))) + (((-105int) * (x1 * x2 * x2)) + (1int * (y1 * y2 * y2 * y2))))) + ((((-2int) * (x1 * x1 * x1 * y1 * y2)) + (((-2int) * (x1 * x1 * x1 * y2 * y2)) + ((-6int) * (x1 * x1 * y1 * x2 * y2)))) + (((3int * (x1 * x1 * x2 * y2 * y2)) + (3int * (x1 * y1 * x2 * x2 * y2))) + ((9int * (x1 * x1 * x1 * x1 * x1 * x2)) + ((-6int) * (x1 * x1 * x1 * x1 * x2 * x2)))))));
    assert(y2 == (1int * (y2)));
    assert(y2 == (1int * (y2)));
    assert((y2 * y2) == (1int * (y2)) * (1int * (y2)));
    lemma_coefficient_product(1int, (y2), 1int, (y2));
    assert((y2) * (y2) == y2 * y2) by (nonlinear_arith);
    assert((y2 * y2) == (1int * (y2 * y2)));
    assert(x2 == (1int * (x2)));
    assert(x2 == (1int * (x2)));
    assert((x2 * x2) == (1int * (x2)) * (1int * (x2)));
    lemma_coefficient_product(1int, (x2), 1int, (x2));
    assert((x2) * (x2) == x2 * x2) by (nonlinear_arith);
    assert((x2 * x2) == (1int * (x2 * x2)));
    assert(x2 == (1int * (x2)));
    assert(((x2 * x2) * x2) == (1int * (x2 * x2)) * (1int * (x2)));
    lemma_coefficient_product(1int, (x2 * x2), 1int, (x2));
    assert((x2 * x2) * (x2) == x2 * x2 * x2) by (nonlinear_arith);
    assert(((x2 * x2) * x2) == (1int * (x2 * x2 * x2)));
    assert(((y2 * y2) - ((x2 * x2) * x2)) == (1int * (y2 * y2)) - (1int * (x2 * x2 * x2)));
    assert(((y2 * y2) - ((x2 * x2) * x2)) == ((1int * (y2 * y2)) + ((-1int) * (x2 * x2 * x2))));
    assert((((y2 * y2) - ((x2 * x2) * x2)) - 7) == ((1int * (y2 * y2)) + ((-1int) * (x2 * x2 * x2))) - (7int * (1int)));
    assert((((y2 * y2) - ((x2 * x2) * x2)) - 7) == (((-7int) * (1int)) + ((1int * (y2 * y2)) + ((-1int) * (x2 * x2 * x2)))));
    assert(((((((((((((((147 + (7 * (y2 * y2))) + ((-35) * (y1 * y2))) + (1 * (((y1 * y2) * y2) * y2))) + ((-105) * ((x1 * x2) * x2))) + (3 * ((((x1 * y1) * x2) * x2) * y2))) + (189 * ((x1 * x1) * x2))) + (3 * ((((x1 * x1) * x2) * y2) * y2))) + ((-6) * ((((x1 * x1) * y1) * x2) * y2))) + ((-42) * ((x1 * x1) * x1))) + ((-2) * ((((x1 * x1) * x1) * y2) * y2))) + ((-2) * ((((x1 * x1) * x1) * y1) * y2))) + ((-6) * (((((x1 * x1) * x1) * x1) * x2) * x2))) + (9 * (((((x1 * x1) * x1) * x1) * x1) * x2))) * (((y2 * y2) - ((x2 * x2) * x2)) - 7)) == ((((147int * (1int)) + (((-35int) * (y1 * y2)) + (7int * (y2 * y2)))) + ((((-42int) * (x1 * x1 * x1)) + (189int * (x1 * x1 * x2))) + (((-105int) * (x1 * x2 * x2)) + (1int * (y1 * y2 * y2 * y2))))) + ((((-2int) * (x1 * x1 * x1 * y1 * y2)) + (((-2int) * (x1 * x1 * x1 * y2 * y2)) + ((-6int) * (x1 * x1 * y1 * x2 * y2)))) + (((3int * (x1 * x1 * x2 * y2 * y2)) + (3int * (x1 * y1 * x2 * x2 * y2))) + ((9int * (x1 * x1 * x1 * x1 * x1 * x2)) + ((-6int) * (x1 * x1 * x1 * x1 * x2 * x2)))))) * (((-7int) * (1int)) + ((1int * (y2 * y2)) + ((-1int) * (x2 * x2 * x2)))));
    lemma_mul_is_distributive_add_other_way((((-7int) * (1int)) + ((1int * (y2 * y2)) + ((-1int) * (x2 * x2 * x2)))), (((147int * (1int)) + (((-35int) * (y1 * y2)) + (7int * (y2 * y2)))) + ((((-42int) * (x1 * x1 * x1)) + (189int * (x1 * x1 * x2))) + (((-105int) * (x1 * x2 * x2)) + (1int * (y1 * y2 * y2 * y2))))), ((((-2int) * (x1 * x1 * x1 * y1 * y2)) + (((-2int) * (x1 * x1 * x1 * y2 * y2)) + ((-6int) * (x1 * x1 * y1 * x2 * y2)))) + (((3int * (x1 * x1 * x2 * y2 * y2)) + (3int * (x1 * y1 * x2 * x2 * y2))) + ((9int * (x1 * x1 * x1 * x1 * x1 * x2)) + ((-6int) * (x1 * x1 * x1 * x1 * x2 * x2))))));
    lemma_mul_is_distributive_add_other_way((((-7int) * (1int)) + ((1int * (y2 * y2)) + ((-1int) * (x2 * x2 * x2)))), ((147int * (1int)) + (((-35int) * (y1 * y2)) + (7int * (y2 * y2)))), ((((-42int) * (x1 * x1 * x1)) + (189int * (x1 * x1 * x2))) + (((-105int) * (x1 * x2 * x2)) + (1int * (y1 * y2 * y2 * y2)))));
    lemma_mul_is_distributive_add_other_way((((-7int) * (1int)) + ((1int * (y2 * y2)) + ((-1int) * (x2 * x2 * x2)))), (147int * (1int)), (((-35int) * (y1 * y2)) + (7int * (y2 * y2))));
    lemma_mul_is_distributive_add_other_way((((-7int) * (1int)) + ((1int * (y2 * y2)) + ((-1int) * (x2 * x2 * x2)))), ((-35int) * (y1 * y2)), (7int * (y2 * y2)));
    lemma_mul_is_distributive_add_other_way((((-7int) * (1int)) + ((1int * (y2 * y2)) + ((-1int) * (x2 * x2 * x2)))), (((-42int) * (x1 * x1 * x1)) + (189int * (x1 * x1 * x2))), (((-105int) * (x1 * x2 * x2)) + (1int * (y1 * y2 * y2 * y2))));
    lemma_mul_is_distributive_add_other_way((((-7int) * (1int)) + ((1int * (y2 * y2)) + ((-1int) * (x2 * x2 * x2)))), ((-42int) * (x1 * x1 * x1)), (189int * (x1 * x1 * x2)));
    lemma_mul_is_distributive_add_other_way((((-7int) * (1int)) + ((1int * (y2 * y2)) + ((-1int) * (x2 * x2 * x2)))), ((-105int) * (x1 * x2 * x2)), (1int * (y1 * y2 * y2 * y2)));
    lemma_mul_is_distributive_add_other_way((((-7int) * (1int)) + ((1int * (y2 * y2)) + ((-1int) * (x2 * x2 * x2)))), (((-2int) * (x1 * x1 * x1 * y1 * y2)) + (((-2int) * (x1 * x1 * x1 * y2 * y2)) + ((-6int) * (x1 * x1 * y1 * x2 * y2)))), (((3int * (x1 * x1 * x2 * y2 * y2)) + (3int * (x1 * y1 * x2 * x2 * y2))) + ((9int * (x1 * x1 * x1 * x1 * x1 * x2)) + ((-6int) * (x1 * x1 * x1 * x1 * x2 * x2)))));
    lemma_mul_is_distributive_add_other_way((((-7int) * (1int)) + ((1int * (y2 * y2)) + ((-1int) * (x2 * x2 * x2)))), ((-2int) * (x1 * x1 * x1 * y1 * y2)), (((-2int) * (x1 * x1 * x1 * y2 * y2)) + ((-6int) * (x1 * x1 * y1 * x2 * y2))));
    lemma_mul_is_distributive_add_other_way((((-7int) * (1int)) + ((1int * (y2 * y2)) + ((-1int) * (x2 * x2 * x2)))), ((-2int) * (x1 * x1 * x1 * y2 * y2)), ((-6int) * (x1 * x1 * y1 * x2 * y2)));
    lemma_mul_is_distributive_add_other_way((((-7int) * (1int)) + ((1int * (y2 * y2)) + ((-1int) * (x2 * x2 * x2)))), ((3int * (x1 * x1 * x2 * y2 * y2)) + (3int * (x1 * y1 * x2 * x2 * y2))), ((9int * (x1 * x1 * x1 * x1 * x1 * x2)) + ((-6int) * (x1 * x1 * x1 * x1 * x2 * x2))));
    lemma_mul_is_distributive_add_other_way((((-7int) * (1int)) + ((1int * (y2 * y2)) + ((-1int) * (x2 * x2 * x2)))), (3int * (x1 * x1 * x2 * y2 * y2)), (3int * (x1 * y1 * x2 * x2 * y2)));
    lemma_mul_is_distributive_add_other_way((((-7int) * (1int)) + ((1int * (y2 * y2)) + ((-1int) * (x2 * x2 * x2)))), (9int * (x1 * x1 * x1 * x1 * x1 * x2)), ((-6int) * (x1 * x1 * x1 * x1 * x2 * x2)));
    lemma_mul_is_distributive_add((147int * (1int)), ((-7int) * (1int)), ((1int * (y2 * y2)) + ((-1int) * (x2 * x2 * x2))));
    lemma_mul_is_distributive_add((147int * (1int)), (1int * (y2 * y2)), ((-1int) * (x2 * x2 * x2)));
    lemma_coefficient_product(147int, (1int), (-7int), (1int));
    assert((1int) * (1int) == 1int) by (nonlinear_arith);
    lemma_coefficient_product(147int, (1int), 1int, (y2 * y2));
    assert((1int) * (y2 * y2) == y2 * y2) by (nonlinear_arith);
    lemma_coefficient_product(147int, (1int), (-1int), (x2 * x2 * x2));
    assert((1int) * (x2 * x2 * x2) == x2 * x2 * x2) by (nonlinear_arith);
    lemma_mul_is_distributive_add(((-35int) * (y1 * y2)), ((-7int) * (1int)), ((1int * (y2 * y2)) + ((-1int) * (x2 * x2 * x2))));
    lemma_mul_is_distributive_add(((-35int) * (y1 * y2)), (1int * (y2 * y2)), ((-1int) * (x2 * x2 * x2)));
    lemma_coefficient_product((-35int), (y1 * y2), (-7int), (1int));
    assert((y1 * y2) * (1int) == y1 * y2) by (nonlinear_arith);
    lemma_coefficient_product((-35int), (y1 * y2), 1int, (y2 * y2));
    assert((y1 * y2) * (y2 * y2) == y1 * y2 * y2 * y2) by (nonlinear_arith);
    lemma_coefficient_product((-35int), (y1 * y2), (-1int), (x2 * x2 * x2));
    assert((y1 * y2) * (x2 * x2 * x2) == y1 * x2 * x2 * x2 * y2) by (nonlinear_arith);
    lemma_mul_is_distributive_add((7int * (y2 * y2)), ((-7int) * (1int)), ((1int * (y2 * y2)) + ((-1int) * (x2 * x2 * x2))));
    lemma_mul_is_distributive_add((7int * (y2 * y2)), (1int * (y2 * y2)), ((-1int) * (x2 * x2 * x2)));
    lemma_coefficient_product(7int, (y2 * y2), (-7int), (1int));
    assert((y2 * y2) * (1int) == y2 * y2) by (nonlinear_arith);
    lemma_coefficient_product(7int, (y2 * y2), 1int, (y2 * y2));
    assert((y2 * y2) * (y2 * y2) == y2 * y2 * y2 * y2) by (nonlinear_arith);
    lemma_coefficient_product(7int, (y2 * y2), (-1int), (x2 * x2 * x2));
    assert((y2 * y2) * (x2 * x2 * x2) == x2 * x2 * x2 * y2 * y2) by (nonlinear_arith);
    lemma_mul_is_distributive_add(((-42int) * (x1 * x1 * x1)), ((-7int) * (1int)), ((1int * (y2 * y2)) + ((-1int) * (x2 * x2 * x2))));
    lemma_mul_is_distributive_add(((-42int) * (x1 * x1 * x1)), (1int * (y2 * y2)), ((-1int) * (x2 * x2 * x2)));
    lemma_coefficient_product((-42int), (x1 * x1 * x1), (-7int), (1int));
    assert((x1 * x1 * x1) * (1int) == x1 * x1 * x1) by (nonlinear_arith);
    lemma_coefficient_product((-42int), (x1 * x1 * x1), 1int, (y2 * y2));
    assert((x1 * x1 * x1) * (y2 * y2) == x1 * x1 * x1 * y2 * y2) by (nonlinear_arith);
    lemma_coefficient_product((-42int), (x1 * x1 * x1), (-1int), (x2 * x2 * x2));
    assert((x1 * x1 * x1) * (x2 * x2 * x2) == x1 * x1 * x1 * x2 * x2 * x2) by (nonlinear_arith);
    lemma_mul_is_distributive_add((189int * (x1 * x1 * x2)), ((-7int) * (1int)), ((1int * (y2 * y2)) + ((-1int) * (x2 * x2 * x2))));
    lemma_mul_is_distributive_add((189int * (x1 * x1 * x2)), (1int * (y2 * y2)), ((-1int) * (x2 * x2 * x2)));
    lemma_coefficient_product(189int, (x1 * x1 * x2), (-7int), (1int));
    assert((x1 * x1 * x2) * (1int) == x1 * x1 * x2) by (nonlinear_arith);
    lemma_coefficient_product(189int, (x1 * x1 * x2), 1int, (y2 * y2));
    assert((x1 * x1 * x2) * (y2 * y2) == x1 * x1 * x2 * y2 * y2) by (nonlinear_arith);
    lemma_coefficient_product(189int, (x1 * x1 * x2), (-1int), (x2 * x2 * x2));
    assert((x1 * x1 * x2) * (x2 * x2 * x2) == x1 * x1 * x2 * x2 * x2 * x2) by (nonlinear_arith);
    lemma_mul_is_distributive_add(((-105int) * (x1 * x2 * x2)), ((-7int) * (1int)), ((1int * (y2 * y2)) + ((-1int) * (x2 * x2 * x2))));
    lemma_mul_is_distributive_add(((-105int) * (x1 * x2 * x2)), (1int * (y2 * y2)), ((-1int) * (x2 * x2 * x2)));
    lemma_coefficient_product((-105int), (x1 * x2 * x2), (-7int), (1int));
    assert((x1 * x2 * x2) * (1int) == x1 * x2 * x2) by (nonlinear_arith);
    lemma_coefficient_product((-105int), (x1 * x2 * x2), 1int, (y2 * y2));
    assert((x1 * x2 * x2) * (y2 * y2) == x1 * x2 * x2 * y2 * y2) by (nonlinear_arith);
    lemma_coefficient_product((-105int), (x1 * x2 * x2), (-1int), (x2 * x2 * x2));
    assert((x1 * x2 * x2) * (x2 * x2 * x2) == x1 * x2 * x2 * x2 * x2 * x2) by (nonlinear_arith);
    lemma_mul_is_distributive_add((1int * (y1 * y2 * y2 * y2)), ((-7int) * (1int)), ((1int * (y2 * y2)) + ((-1int) * (x2 * x2 * x2))));
    lemma_mul_is_distributive_add((1int * (y1 * y2 * y2 * y2)), (1int * (y2 * y2)), ((-1int) * (x2 * x2 * x2)));
    lemma_coefficient_product(1int, (y1 * y2 * y2 * y2), (-7int), (1int));
    assert((y1 * y2 * y2 * y2) * (1int) == y1 * y2 * y2 * y2) by (nonlinear_arith);
    lemma_coefficient_product(1int, (y1 * y2 * y2 * y2), 1int, (y2 * y2));
    assert((y1 * y2 * y2 * y2) * (y2 * y2) == y1 * y2 * y2 * y2 * y2 * y2) by (nonlinear_arith);
    lemma_coefficient_product(1int, (y1 * y2 * y2 * y2), (-1int), (x2 * x2 * x2));
    assert((y1 * y2 * y2 * y2) * (x2 * x2 * x2) == y1 * x2 * x2 * x2 * y2 * y2 * y2) by (nonlinear_arith);
    lemma_mul_is_distributive_add(((-2int) * (x1 * x1 * x1 * y1 * y2)), ((-7int) * (1int)), ((1int * (y2 * y2)) + ((-1int) * (x2 * x2 * x2))));
    lemma_mul_is_distributive_add(((-2int) * (x1 * x1 * x1 * y1 * y2)), (1int * (y2 * y2)), ((-1int) * (x2 * x2 * x2)));
    lemma_coefficient_product((-2int), (x1 * x1 * x1 * y1 * y2), (-7int), (1int));
    assert((x1 * x1 * x1 * y1 * y2) * (1int) == x1 * x1 * x1 * y1 * y2) by (nonlinear_arith);
    lemma_coefficient_product((-2int), (x1 * x1 * x1 * y1 * y2), 1int, (y2 * y2));
    assert((x1 * x1 * x1 * y1 * y2) * (y2 * y2) == x1 * x1 * x1 * y1 * y2 * y2 * y2) by (nonlinear_arith);
    lemma_coefficient_product((-2int), (x1 * x1 * x1 * y1 * y2), (-1int), (x2 * x2 * x2));
    assert((x1 * x1 * x1 * y1 * y2) * (x2 * x2 * x2) == x1 * x1 * x1 * y1 * x2 * x2 * x2 * y2) by (nonlinear_arith);
    lemma_mul_is_distributive_add(((-2int) * (x1 * x1 * x1 * y2 * y2)), ((-7int) * (1int)), ((1int * (y2 * y2)) + ((-1int) * (x2 * x2 * x2))));
    lemma_mul_is_distributive_add(((-2int) * (x1 * x1 * x1 * y2 * y2)), (1int * (y2 * y2)), ((-1int) * (x2 * x2 * x2)));
    lemma_coefficient_product((-2int), (x1 * x1 * x1 * y2 * y2), (-7int), (1int));
    assert((x1 * x1 * x1 * y2 * y2) * (1int) == x1 * x1 * x1 * y2 * y2) by (nonlinear_arith);
    lemma_coefficient_product((-2int), (x1 * x1 * x1 * y2 * y2), 1int, (y2 * y2));
    assert((x1 * x1 * x1 * y2 * y2) * (y2 * y2) == x1 * x1 * x1 * y2 * y2 * y2 * y2) by (nonlinear_arith);
    lemma_coefficient_product((-2int), (x1 * x1 * x1 * y2 * y2), (-1int), (x2 * x2 * x2));
    assert((x1 * x1 * x1 * y2 * y2) * (x2 * x2 * x2) == x1 * x1 * x1 * x2 * x2 * x2 * y2 * y2) by (nonlinear_arith);
    lemma_mul_is_distributive_add(((-6int) * (x1 * x1 * y1 * x2 * y2)), ((-7int) * (1int)), ((1int * (y2 * y2)) + ((-1int) * (x2 * x2 * x2))));
    lemma_mul_is_distributive_add(((-6int) * (x1 * x1 * y1 * x2 * y2)), (1int * (y2 * y2)), ((-1int) * (x2 * x2 * x2)));
    lemma_coefficient_product((-6int), (x1 * x1 * y1 * x2 * y2), (-7int), (1int));
    assert((x1 * x1 * y1 * x2 * y2) * (1int) == x1 * x1 * y1 * x2 * y2) by (nonlinear_arith);
    lemma_coefficient_product((-6int), (x1 * x1 * y1 * x2 * y2), 1int, (y2 * y2));
    assert((x1 * x1 * y1 * x2 * y2) * (y2 * y2) == x1 * x1 * y1 * x2 * y2 * y2 * y2) by (nonlinear_arith);
    lemma_coefficient_product((-6int), (x1 * x1 * y1 * x2 * y2), (-1int), (x2 * x2 * x2));
    assert((x1 * x1 * y1 * x2 * y2) * (x2 * x2 * x2) == x1 * x1 * y1 * x2 * x2 * x2 * x2 * y2) by (nonlinear_arith);
    lemma_mul_is_distributive_add((3int * (x1 * x1 * x2 * y2 * y2)), ((-7int) * (1int)), ((1int * (y2 * y2)) + ((-1int) * (x2 * x2 * x2))));
    lemma_mul_is_distributive_add((3int * (x1 * x1 * x2 * y2 * y2)), (1int * (y2 * y2)), ((-1int) * (x2 * x2 * x2)));
    lemma_coefficient_product(3int, (x1 * x1 * x2 * y2 * y2), (-7int), (1int));
    assert((x1 * x1 * x2 * y2 * y2) * (1int) == x1 * x1 * x2 * y2 * y2) by (nonlinear_arith);
    lemma_coefficient_product(3int, (x1 * x1 * x2 * y2 * y2), 1int, (y2 * y2));
    assert((x1 * x1 * x2 * y2 * y2) * (y2 * y2) == x1 * x1 * x2 * y2 * y2 * y2 * y2) by (nonlinear_arith);
    lemma_coefficient_product(3int, (x1 * x1 * x2 * y2 * y2), (-1int), (x2 * x2 * x2));
    assert((x1 * x1 * x2 * y2 * y2) * (x2 * x2 * x2) == x1 * x1 * x2 * x2 * x2 * x2 * y2 * y2) by (nonlinear_arith);
    lemma_mul_is_distributive_add((3int * (x1 * y1 * x2 * x2 * y2)), ((-7int) * (1int)), ((1int * (y2 * y2)) + ((-1int) * (x2 * x2 * x2))));
    lemma_mul_is_distributive_add((3int * (x1 * y1 * x2 * x2 * y2)), (1int * (y2 * y2)), ((-1int) * (x2 * x2 * x2)));
    lemma_coefficient_product(3int, (x1 * y1 * x2 * x2 * y2), (-7int), (1int));
    assert((x1 * y1 * x2 * x2 * y2) * (1int) == x1 * y1 * x2 * x2 * y2) by (nonlinear_arith);
    lemma_coefficient_product(3int, (x1 * y1 * x2 * x2 * y2), 1int, (y2 * y2));
    assert((x1 * y1 * x2 * x2 * y2) * (y2 * y2) == x1 * y1 * x2 * x2 * y2 * y2 * y2) by (nonlinear_arith);
    lemma_coefficient_product(3int, (x1 * y1 * x2 * x2 * y2), (-1int), (x2 * x2 * x2));
    assert((x1 * y1 * x2 * x2 * y2) * (x2 * x2 * x2) == x1 * y1 * x2 * x2 * x2 * x2 * x2 * y2) by (nonlinear_arith);
    lemma_mul_is_distributive_add((9int * (x1 * x1 * x1 * x1 * x1 * x2)), ((-7int) * (1int)), ((1int * (y2 * y2)) + ((-1int) * (x2 * x2 * x2))));
    lemma_mul_is_distributive_add((9int * (x1 * x1 * x1 * x1 * x1 * x2)), (1int * (y2 * y2)), ((-1int) * (x2 * x2 * x2)));
    lemma_coefficient_product(9int, (x1 * x1 * x1 * x1 * x1 * x2), (-7int), (1int));
    assert((x1 * x1 * x1 * x1 * x1 * x2) * (1int) == x1 * x1 * x1 * x1 * x1 * x2) by (nonlinear_arith);
    lemma_coefficient_product(9int, (x1 * x1 * x1 * x1 * x1 * x2), 1int, (y2 * y2));
    assert((x1 * x1 * x1 * x1 * x1 * x2) * (y2 * y2) == x1 * x1 * x1 * x1 * x1 * x2 * y2 * y2) by (nonlinear_arith);
    lemma_coefficient_product(9int, (x1 * x1 * x1 * x1 * x1 * x2), (-1int), (x2 * x2 * x2));
    assert((x1 * x1 * x1 * x1 * x1 * x2) * (x2 * x2 * x2) == x1 * x1 * x1 * x1 * x1 * x2 * x2 * x2 * x2) by (nonlinear_arith);
    lemma_mul_is_distributive_add(((-6int) * (x1 * x1 * x1 * x1 * x2 * x2)), ((-7int) * (1int)), ((1int * (y2 * y2)) + ((-1int) * (x2 * x2 * x2))));
    lemma_mul_is_distributive_add(((-6int) * (x1 * x1 * x1 * x1 * x2 * x2)), (1int * (y2 * y2)), ((-1int) * (x2 * x2 * x2)));
    lemma_coefficient_product((-6int), (x1 * x1 * x1 * x1 * x2 * x2), (-7int), (1int));
    assert((x1 * x1 * x1 * x1 * x2 * x2) * (1int) == x1 * x1 * x1 * x1 * x2 * x2) by (nonlinear_arith);
    lemma_coefficient_product((-6int), (x1 * x1 * x1 * x1 * x2 * x2), 1int, (y2 * y2));
    assert((x1 * x1 * x1 * x1 * x2 * x2) * (y2 * y2) == x1 * x1 * x1 * x1 * x2 * x2 * y2 * y2) by (nonlinear_arith);
    lemma_coefficient_product((-6int), (x1 * x1 * x1 * x1 * x2 * x2), (-1int), (x2 * x2 * x2));
    assert((x1 * x1 * x1 * x1 * x2 * x2) * (x2 * x2 * x2) == x1 * x1 * x1 * x1 * x2 * x2 * x2 * x2 * x2) by (nonlinear_arith);
    assert(((((((((((((((147 + (7 * (y2 * y2))) + ((-35) * (y1 * y2))) + (1 * (((y1 * y2) * y2) * y2))) + ((-105) * ((x1 * x2) * x2))) + (3 * ((((x1 * y1) * x2) * x2) * y2))) + (189 * ((x1 * x1) * x2))) + (3 * ((((x1 * x1) * x2) * y2) * y2))) + ((-6) * ((((x1 * x1) * y1) * x2) * y2))) + ((-42) * ((x1 * x1) * x1))) + ((-2) * ((((x1 * x1) * x1) * y2) * y2))) + ((-2) * ((((x1 * x1) * x1) * y1) * y2))) + ((-6) * (((((x1 * x1) * x1) * x1) * x2) * x2))) + (9 * (((((x1 * x1) * x1) * x1) * x1) * x2))) * (((y2 * y2) - ((x2 * x2) * x2)) - 7)) == (((((((-1029int) * (1int)) + (245int * (y1 * y2))) + ((98int * (y2 * y2)) + (294int * (x1 * x1 * x1)))) + ((((-1323int) * (x1 * x1 * x2)) + (735int * (x1 * x2 * x2))) + (((-147int) * (x2 * x2 * x2)) + (((-42int) * (y1 * y2 * y2 * y2)) + (7int * (y2 * y2 * y2 * y2)))))) + ((((14int * (x1 * x1 * x1 * y1 * y2)) + ((-28int) * (x1 * x1 * x1 * y2 * y2))) + ((42int * (x1 * x1 * y1 * x2 * y2)) + ((168int * (x1 * x1 * x2 * y2 * y2)) + ((-21int) * (x1 * y1 * x2 * x2 * y2))))) + ((((-105int) * (x1 * x2 * x2 * y2 * y2)) + (35int * (y1 * x2 * x2 * x2 * y2))) + (((-7int) * (x2 * x2 * x2 * y2 * y2)) + (((-63int) * (x1 * x1 * x1 * x1 * x1 * x2)) + (42int * (x1 * x1 * x1 * x1 * x2 * x2))))))) + (((((42int * (x1 * x1 * x1 * x2 * x2 * x2)) + ((-189int) * (x1 * x1 * x2 * x2 * x2 * x2))) + ((105int * (x1 * x2 * x2 * x2 * x2 * x2)) + (1int * (y1 * y2 * y2 * y2 * y2 * y2)))) + ((((-2int) * (x1 * x1 * x1 * y1 * y2 * y2 * y2)) + ((-2int) * (x1 * x1 * x1 * y2 * y2 * y2 * y2))) + (((-6int) * (x1 * x1 * y1 * x2 * y2 * y2 * y2)) + ((3int * (x1 * x1 * x2 * y2 * y2 * y2 * y2)) + (3int * (x1 * y1 * x2 * x2 * y2 * y2 * y2)))))) + (((((-1int) * (y1 * x2 * x2 * x2 * y2 * y2 * y2)) + (9int * (x1 * x1 * x1 * x1 * x1 * x2 * y2 * y2))) + (((-6int) * (x1 * x1 * x1 * x1 * x2 * x2 * y2 * y2)) + ((2int * (x1 * x1 * x1 * y1 * x2 * x2 * x2 * y2)) + (2int * (x1 * x1 * x1 * x2 * x2 * x2 * y2 * y2))))) + (((6int * (x1 * x1 * y1 * x2 * x2 * x2 * x2 * y2)) + ((-3int) * (x1 * x1 * x2 * x2 * x2 * x2 * y2 * y2))) + (((-3int) * (x1 * y1 * x2 * x2 * x2 * x2 * x2 * y2)) + (((-9int) * (x1 * x1 * x1 * x1 * x1 * x2 * x2 * x2 * x2)) + (6int * (x1 * x1 * x1 * x1 * x2 * x2 * x2 * x2 * x2)))))))));
}

/// Polynomial identity behind the y coordinate of the chord rule.
pub proof fn lemma_chord_identity_y(x1: int, y1: int, x2: int, y2: int)
    ensures
        ((((((y1 * y2) + 21) * ((y1 * y2) - 21)) + ((63 * (x1 * x2)) * (x1 + x2))) * (((x2 - x1) * (x2 - x1)) * (x2 - x1))) - ((((y2 - y1) * ((x1 * ((x2 - x1) * (x2 - x1))) - (((y2 - y1) * (y2 - y1)) - ((x1 + x2) * ((x2 - x1) * (x2 - x1)))))) - (y1 * (((x2 - x1) * (x2 - x1)) * (x2 - x1)))) * (((y1 + y2) * ((y1 * y2) + 21)) + ((3 * (x1 * x2)) * ((x1 * y2) + (y1 * x2)))))) == ((((((((((((((((((((-147) + (14 * (y2 * y2))) + ((-2) * (((y2 * y2) * y2) * y2))) + (42 * ((x2 * x2) * x2))) + (2 * ((((x2 * x2) * x2) * y2) * y2))) + (35 * (y1 * y2))) + (2 * ((((y1 * x2) * x2) * x2) * y2))) + ((-21) * (y1 * y1))) + (2 * (((y1 * y1) * y2) * y2))) + ((-1) * (((y1 * y1) * y1) * y2))) + ((-84) * ((x1 * x2) * x2))) + ((-15) * ((((x1 * x2) * x2) * y2) * y2))) + (6 * (((((x1 * x2) * x2) * x2) * x2) * x2))) + (6 * ((((x1 * y1) * x2) * x2) * y2))) + ((-3) * ((((x1 * y1) * y1) * x2) * x2))) + (15 * ((((x1 * x1) * x2) * y2) * y2))) + ((-9) * (((((x1 * x1) * x2) * x2) * x2) * x2))) + ((-3) * ((((x1 * x1) * y1) * x2) * y2))) * (((y1 * y1) - ((x1 * x1) * x1)) - 7)) + ((((((((((((((147 + (7 * (y2 * y2))) + ((-35) * (y1 * y2))) + (1 * (((y1 * y2) * y2) * y2))) + ((-105) * ((x1 * x2) * x2))) + (3 * ((((x1 * y1) * x2) * x2) * y2))) + (189 * ((x1 * x1) * x2))) + (3 * ((((x1 * x1) * x2) * y2) * y2))) + ((-6) * ((((x1 * x1) * y1) * x2) * y2))) + ((-42) * ((x1 * x1) * x1))) + ((-2) * ((((x1 * x1) * x1) * y2) * y2))) + ((-2) * ((((x1 * x1) * x1) * y1) * y2))) + ((-6) * (((((x1 * x1) * x1) * x1) * x2) * x2))) + (9 * (((((x1 * x1) * x1) * x1) * x1) * x2))) * (((y2 * y2) - ((x2 * x2) * x2)) - 7))),
{
    lemma_chord_identity_y_part1(x1, y1, x2, y2);
    lemma_chord_identity_y_part2(x1, y1, x2, y2);
    lemma_chord_identity_y_part3(x1, y1, x2, y2);
    lemma_chord_identity_y_part4(x1, y1, x2, y2);
}

/// On the curve, the sum of two points given with `z = 1` has `y3 d^3 == (u (x1 d^2 - (u^2 - s d^2)) - y1 d^3) z3`.
pub proof fn lemma_chord_y(x1: int, y1: int, x2: int, y2: int)
    requires
        modp((((y1 * y1) - ((x1 * x1) * x1)) - 7)) == 0,
        modp((((y2 * y2) - ((x2 * x2) * x2)) - 7)) == 0,
    ensures
        modp(((((((y1 * y2) + 21) * ((y1 * y2) - 21)) + ((63 * (x1 * x2)) * (x1 + x2))) * (((x2 - x1) * (x2 - x1)) * (x2 - x1))) - ((((y2 - y1) * ((x1 * ((x2 - x1) * (x2 - x1))) - (((y2 - y1) * (y2 - y1)) - ((x1 + x2) * ((x2 - x1) * (x2 - x1)))))) - (y1 * (((x2 - x1) * (x2 - x1)) * (x2 - x1)))) * (((y1 + y2) * ((y1 * y2) + 21)) + ((3 * (x1 * x2)) * ((x1 * y2) + (y1 * x2))))))) == 0,
{
    lemma_chord_identity_y(x1, y1, x2, y2);
    lemma_multiple_of_zero(((((((((((((((((((-147) + (14 * (y2 * y2))) + ((-2) * (((y2 * y2) * y2) * y2))) + (42 * ((x2 * x2) * x2))) + (2 * ((((x2 * x2) * x2) * y2) * y2))) + (35 * (y1 * y2))) + (2 * ((((y1 * x2) * x2) * x2) * y2))) + ((-21) * (y1 * y1))) + (2 * (((y1 * y1) * y2) * y2))) + ((-1) * (((y1 * y1) * y1) * y2))) + ((-84) * ((x1 * x2) * x2))) + ((-15) * ((((x1 * x2) * x2) * y2) * y2))) + (6 * (((((x1 * x2) * x2) * x2) * x2) * x2))) + (6 * ((((x1 * y1) * x2) * x2) * y2))) + ((-3) * ((((x1 * y1) * y1) * x2) * x2))) + (15 * ((((x1 * x1) * x2) * y2) * y2))) + ((-9) * (((((x1 * x1) * x2) * x2) * x2) * x2))) + ((-3) * ((((x1 * x1) * y1) * x2) * y2))), (((y1 * y1) - ((x1 * x1) * x1)) - 7));
    lemma_multiple_of_zero((((((((((((((147 + (7 * (y2 * y2))) + ((-35) * (y1 * y2))) + (1 * (((y1 * y2) * y2) * y2))) + ((-105) * ((x1 * x2) * x2))) + (3 * ((((x1 * y1) * x2) * x2) * y2))) + (189 * ((x1 * x1) * x2))) + (3 * ((((x1 * x1) * x2) * y2) * y2))) + ((-6) * ((((x1 * x1) * y1) * x2) * y2))) + ((-42) * ((x1 * x1) * x1))) + ((-2) * ((((x1 * x1) * x1) * y2) * y2))) + ((-2) * ((((x1 * x1) * x1) * y1) * y2))) + ((-6) * (((((x1 * x1) * x1) * x1) * x2) * x2))) + (9 * (((((x1 * x1) * x1) * x1) * x1) * x2))), (((y2 * y2) - ((x2 * x2) * x2)) - 7));
    lemma_sum_of_zeros((((((((((((((((((((-147) + (14 * (y2 * y2))) + ((-2) * (((y2 * y2) * y2) * y2))) + (42 * ((x2 * x2) * x2))) + (2 * ((((x2 * x2) * x2) * y2) * y2))) + (35 * (y1 * y2))) + (2 * ((((y1 * x2) * x2) * x2) * y2))) + ((-21) * (y1 * y1))) + (2 * (((y1 * y1) * y2) * y2))) + ((-1) * (((y1 * y1) * y1) * y2))) + ((-84) * ((x1 * x2) * x2))) + ((-15) * ((((x1 * x2) * x2) * y2) * y2))) + (6 * (((((x1 * x2) * x2) * x2) * x2) * x2))) + (6 * ((((x1 * y1) * x2) * x2) * y2))) + ((-3) * ((((x1 * y1) * y1) * x2) * x2))) + (15 * ((((x1 * x1) * x2) * y2) * y2))) + ((-9) * (((((x1 * x1) * x2) * x2) * x2) * x2))) + ((-3) * ((((x1 * x1) * y1) * x2) * y2))) * (((y1 * y1) - ((x1 * x1) * x1)) - 7)), ((((((((((((((147 + (7 * (y2 * y2))) + ((-35) * (y1 * y2))) + (1 * (((y1 * y2) * y2) * y2))) + ((-105) * ((x1 * x2) * x2))) + (3 * ((((x1 * y1) * x2) * x2) * y2))) + (189 * ((x1 * x1) * x2))) + (3 * ((((x1 * x1) * x2) * y2) * y2))) + ((-6) * ((((x1 * x1) * y1) * x2) * y2))) + ((-42) * ((x1 * x1) * x1))) + ((-2) * ((((x1 * x1) * x1) * y2) * y2))) + ((-2) * ((((x1 * x1) * x1) * y1) * y2))) + ((-6) * (((((x1 * x1) * x1) * x1) * x2) * x2))) + (9 * (((((x1 * x1) * x1) * x1) * x1) * x2))) * (((y2 * y2) - ((x2 * x2) * x2)) - 7)));
}

#[verifier::rlimit(40)]
proof fn lemma_tangent_identity_x_part1(x: int, y: int)
    ensures
        (((2 * (x * y)) * ((y * y) - 63)) * ((2 * y) * (2 * y))) == (((-504int) * (x * y * y * y)) + (8int * (x * y * y * y * y * y))),
{
    assert(x == (1int * (x)));
    assert(y == (1int * (y)));
    assert((x * y) == (1int * (x)) * (1int * (y)));
    lemma_coefficient_product(1int, (x), 1int, (y));
    assert((x) * (y) == x * y) by (nonlinear_arith);
    assert((x * y) == (1int * (x * y)));
    assert((2 * (x * y)) == (2int * (1int)) * (1int * (x * y)));
    lemma_coefficient_product(2int, (1int), 1int, (x * y));
    assert((1int) * (x * y) == x * y) by (nonlinear_arith);
    assert((2 * (x * y)) == (2int * (x * y)));
    assert(y == (1int * (y)));
    assert(y == (1int * (y)));
    assert((y * y) == (1int * (y)) * (1int * (y)));
    lemma_coefficient_product(1int, (y), 1int, (y));
    assert((y) * (y) == y * y) by (nonlinear_arith);
    assert((y * y) == (1int * (y * y)));
    assert(((y * y) - 63) == (1int * (y * y)) - (63int * (1int)));
    assert(((y * y) - 63) == (((-63int) * (1int)) + (1int * (y * y))));
    assert(((2 * (x * y)) * ((y * y) - 63)) == (2int * (x * y)) * (((-63int) * (1int)) + (1int * (y * y))));
    lemma_mul_is_distributive_add((2int * (x * y)), ((-63int) * (1int)), (1int * (y * y)));
    lemma_coefficient_product(2int, (x * y), (-63int), (1int));
    assert((x * y) * (1int) == x * y) by (nonlinear_arith);
    lemma_coefficient_product(2int, (x * y), 1int, (y * y));
    assert((x * y) * (y * y) == x * y * y * y) by (nonlinear_arith);
    assert(((2 * (x * y)) * ((y * y) - 63)) == (((-126int) * (x * y)) + (2int * (x * y * y * y))));
    assert(y == (1int * (y)));
    assert((2 * y) == (2int * (1int)) * (1int * (y)));
    lemma_coefficient_product(2int, (1int), 1int, (y));
    assert((1int) * (y) == y) by (nonlinear_arith);
    assert((2 * y) == (2int * (y)));
    assert(y == (1int * (y)));
    assert((2 * y) == (2int * (1int)) * (1int * (y)));
    lemma_coefficient_product(2int, (1int), 1int, (y));
    assert((1int) * (y) == y) by (nonlinear_arith);
    assert((2 * y) == (2int * (y)));
    assert(((2 * y) * (2 * y)) == (2int * (y)) * (2int * (y)));
    lemma_coefficient_product(2int, (y), 2int, (y));
    assert((y) * (y) == y * y) by (nonlinear_arith);
    assert(((2 * y) * (2 * y)) == (4int * (y * y)));
    assert((((2 * (x * y)) * ((y * y) - 63)) * ((2 * y) * (2 * y))) == (((-126int) * (x * y)) + (2int * (x * y * y * y))) * (4int * (y * y)));
    lemma_mul_is_distributive_add_other_way((4int * (y * y)), ((-126int) * (x * y)), (2int * (x * y * y * y)));
    lemma_coefficient_product((-126int), (x * y), 4int, (y * y));
    assert((x * y) * (y * y) == x * y * y * y) by (nonlinear_arith);
    lemma_coefficient_product(2int, (x * y * y * y), 4int, (y * y));
    assert((x * y * y * y) * (y * y) == x * y * y * y * y * y) by (nonlinear_arith);
    assert((((2 * (x * y)) * ((y * y) - 63)) * ((2 * y) * (2 * y))) == (((-504int) * (x * y * y * y)) + (8int * (x * y * y * y * y * y))));
}

#[verifier::rlimit(40)]
proof fn lemma_tangent_identity_x_part2(x: int, y: int)
    ensures
        (((((3 * x) * x) * ((3 * x) * x)) - ((2 * x) * ((2 * y) * (2 * y)))) * (8 * ((y * y) * y))) == (((-64int) * (x * y * y * y * y * y)) + (72int * (x * x * x * x * y * y * y))),
{
    assert(x == (1int * (x)));
    assert((3 * x) == (3int * (1int)) * (1int * (x)));
    lemma_coefficient_product(3int, (1int), 1int, (x));
    assert((1int) * (x) == x) by (nonlinear_arith);
    assert((3 * x) == (3int * (x)));
    assert(x == (1int * (x)));
    assert(((3 * x) * x) == (3int * (x)) * (1int * (x)));
    lemma_coefficient_product(3int, (x), 1int, (x));
    assert((x) * (x) == x * x) by (nonlinear_arith);
    assert(((3 * x) * x) == (3int * (x * x)));
    assert(x == (1int * (x)));
    assert((3 * x) == (3int * (1int)) * (1int * (x)));
    lemma_coefficient_product(3int, (1int), 1int, (x));
    assert((1int) * (x) == x) by (nonlinear_arith);
    assert((3 * x) == (3int * (x)));
    assert(x == (1int * (x)));
    assert(((3 * x) * x) == (3int * (x)) * (1int * (x)));
    lemma_coefficient_product(3int, (x), 1int, (x));
    assert((x) * (x) == x * x) by (nonlinear_arith);
    assert(((3 * x) * x) == (3int * (x * x)));
    assert((((3 * x) * x) * ((3 * x) * x)) == (3int * (x * x)) * (3int * (x * x)));
    lemma_coefficient_product(3int, (x * x), 3int, (x * x));
    assert((x * x) * (x * x) == x * x * x * x) by (nonlinear_arith);
    assert((((3 * x) * x) * ((3 * x) * x)) == (9int * (x * x * x * x)));
    assert(x == (1int * (x)));
    assert((2 * x) == (2int * (1int)) * (1int * (x)));
    lemma_coefficient_product(2int, (1int), 1int, (x));
    assert((1int) * (x) == x) by (nonlinear_arith);
    assert((2 * x) == (2int * (x)));
    assert(y == (1int * (y)));
    assert((2 * y) == (2int * (1int)) * (1int * (y)));
    lemma_coefficient_product(2int, (1int), 1int, (y));
    assert((1int) * (y) == y) by (nonlinear_arith);
    assert((2 * y) == (2int * (y)));
    assert(y == (1int * (y)));
    assert((2 * y) == (2int * (1int)) * (1int * (y)));
    lemma_coefficient_product(2int, (1int), 1int, (y));
    assert((1int) * (y) == y) by (nonlinear_arith);
    assert((2 * y) == (2int * (y)));
    assert(((2 * y) * (2 * y)) == (2int * (y)) * (2int * (y)));
    lemma_coefficient_product(2int, (y), 2int, (y));
    assert((y) * (y) == y * y) by (nonlinear_arith);
    assert(((2 * y) * (2 * y)) == (4int * (y * y)));
    assert(((2 * x) * ((2 * y) * (2 * y))) == (2int * (x)) * (4int * (y * y)));
    lemma_coefficient_product(2int, (x), 4int, (y * y));
    assert((x) * (y * y) == x * y * y) by (nonlinear_arith);
    assert(((2 * x) * ((2 * y) * (2 * y))) == (8int * (x * y * y)));
    assert(((((3 * x) * x) * ((3 * x) * x)) - ((2 * x) * ((2 * y) * (2 * y)))) == (9int * (x * x * x * x)) - (8int * (x * y * y)));
    assert(((((3 * x) * x) * ((3 * x) * x)) - ((2 * x) * ((2 * y) * (2 * y)))) == (((-8int) * (x * y * y)) + (9int * (x * x * x * x))));
    assert(y == (1int * (y)));
    assert(y == (1int * (y)));
    assert((y * y) == (1int * (y)) * (1int * (y)));
    lemma_coefficient_product(1int, (y), 1int, (y));
    assert((y) * (y) == y * y) by (nonlinear_arith);
    assert((y * y) == (1int * (y * y)));
    assert(y == (1int * (y)));
    assert(((y * y) * y) == (1int * (y * y)) * (1int * (y)));
    lemma_coefficient_product(1int, (y * y), 1int, (y));
    assert((y * y) * (y) == y * y * y) by (nonlinear_arith);
    assert(((y * y) * y) == (1int * (y * y * y)));
    assert((8 * ((y * y) * y)) == (8int * (1int)) * (1int * (y * y * y)));
    lemma_coefficient_product(8int, (1int), 1int, (y * y * y));
    assert((1int) * (y * y * y) == y * y * y) by (nonlinear_arith);
    assert((8 * ((y * y) * y)) == (8int * (y * y * y)));
    assert((((((3 * x) * x) * ((3 * x) * x)) - ((2 * x) * ((2 * y) * (2 * y)))) * (8 * ((y * y) * y))) == (((-8int) * (x * y * y)) + (9int * (x * x * x * x))) * (8int * (y * y * y)));
    lemma_mul_is_distributive_add_other_way((8int * (y * y * y)), ((-8int) * (x * y * y)), (9int * (x * x * x * x)));
    lemma_coefficient_product((-8int), (x * y * y), 8int, (y * y * y));
    assert((x * y * y) * (y * y * y) == x * y * y * y * y * y) by (nonlinear_arith);
    lemma_coefficient_product(9int, (x * x * x * x), 8int, (y * y * y));
    assert((x * x * x * x) * (y * y * y) == x * x * x * x * y * y * y) by (nonlinear_arith);
    assert((((((3 * x) * x) * ((3 * x) * x)) - ((2 * x) * ((2 * y) * (2 * y)))) * (8 * ((y * y) * y))) == (((-64int) * (x * y * y * y * y * y)) + (72int * (x * x * x * x * y * y * y))));
}

#[verifier::rlimit(40)]
proof fn lemma_tangent_identity_x_part3(x: int, y: int)
    ensures
        ((72 * (((x * y) * y) * y)) * (((y * y) - ((x * x) * x)) - 7)) == (((-504int) * (x * y * y * y)) + ((72int * (x * y * y * y * y * y)) + ((-72int) * (x * x * x * x * y * y * y)))),
{
    assert(x == (1int * (x)));
    assert(y == (1int * (y)));
    assert((x * y) == (1int * (x)) * (1int * (y)));
    lemma_coefficient_product(1int, (x), 1int, (y));
    assert((x) * (y) == x * y) by (nonlinear_arith);
    assert((x * y) == (1int * (x * y)));
    assert(y == (1int * (y)));
    assert(((x * y) * y) == (1int * (x * y)) * (1int * (y)));
    lemma_coefficient_product(1int, (x * y), 1int, (y));
    assert((x * y) * (y) == x * y * y) by (nonlinear_arith);
    assert(((x * y) * y) == (1int * (x * y * y)));
    assert(y == (1int * (y)));
    assert((((x * y) * y) * y) == (1int * (x * y * y)) * (1int * (y)));
    lemma_coefficient_product(1int, (x * y * y), 1int, (y));
    assert((x * y * y) * (y) == x * y * y * y) by (nonlinear_arith);
    assert((((x * y) * y) * y) == (1int * (x * y * y * y)));
    assert((72 * (((x * y) * y) * y)) == (72int * (1int)) * (1int * (x * y * y * y)));
    lemma_coefficient_product(72int, (1int), 1int, (x * y * y * y));
    assert((1int) * (x * y * y * y) == x * y * y * y) by (nonlinear_arith);
    assert((72 * (((x * y) * y) * y)) == (72int * (x * y * y * y)));
    assert(y == (1int * (y)));
    assert(y == (1int * (y)));
    assert((y * y) == (1int * (y)) * (1int * (y)));
    lemma_coefficient_product(1int, (y), 1int, (y));
    assert((y) * (y) == y * y) by (nonlinear_arith);
    assert((y * y) == (1int * (y * y)));
    assert(x == (1int * (x)));
    assert(x == (1int * (x)));
    assert((x * x) == (1int * (x)) * (1int * (x)));
    lemma_coefficient_product(1int, (x), 1int, (x));
    assert((x) * (x) == x * x) by (nonlinear_arith);
    assert((x * x) == (1int * (x * x)));
    assert(x == (1int * (x)));
    assert(((x * x) * x) == (1int * (x * x)) * (1int * (x)));
    lemma_coefficient_product(1int, (x * x), 1int, (x));
    assert((x * x) * (x) == x * x * x) by (nonlinear_arith);
    assert(((x * x) * x) == (1int * (x * x * x)));
    assert(((y * y) - ((x * x) * x)) == (1int * (y * y)) - (1int * (x * x * x)));
    assert(((y * y) - ((x * x) * x)) == ((1int * (y * y)) + ((-1int) * (x * x * x))));
    assert((((y * y) - ((x * x) * x)) - 7) == ((1int * (y * y)) + ((-1int) * (x * x * x))) - (7int * (1int)));
    assert((((y * y) - ((x * x) * x)) - 7) == (((-7int) * (1int)) + ((1int * (y * y)) + ((-1int) * (x * x * x)))));
    assert(((72 * (((x * y) * y) * y)) * (((y * y) - ((x * x) * x)) - 7)) == (72int * (x * y * y * y)) * (((-7int) * (1int)) + ((1int * (y * y)) + ((-1int) * (x * x * x)))));
    lemma_mul_is_distributive_add((72int * (x * y * y * y)), ((-7int) * (1int)), ((1int * (y * y)) + ((-1int) * (x * x * x))));
    lemma_mul_is_distributive_add((72int * (x * y * y * y)), (1int * (y * y)), ((-1int) * (x * x * x)));
    lemma_coefficient_product(72int, (x * y * y * y), (-7int), (1int));
    assert((x * y * y * y) * (1int) == x * y * y * y) by (nonlinear_arith);
    lemma_coefficient_product(72int, (x * y * y * y), 1int, (y * y));
    assert((x * y * y * y) * (y * y) == x * y * y * y * y * y) by (nonlinear_arith);
    lemma_coefficient_product(72int, (x * y * y * y), (-1int), (x * x * x));
    assert((x * y * y * y) * (x * x * x) == x * x * x * x * y * y * y) by (nonlinear_arith);
    assert(((72 * (((x * y) * y) * y)) * (((y * y) - ((x * x) * x)) - 7)) == (((-504int) * (x * y * y * y)) + ((72int * (x * y * y * y * y * y)) + ((-72int) * (x * x * x * x * y * y * y)))));
}

/// Polynomial identity behind the x coordinate of the tangent rule.
pub proof fn lemma_tangent_identity_x(x: int, y: int)
    ensures
        ((((2 * (x * y)) * ((y * y) - 63)) * ((2 * y) * (2 * y))) - (((((3 * x) * x) * ((3 * x) * x)) - ((2 * x) * ((2 * y) * (2 * y)))) * (8 * ((y * y) * y)))) == ((72 * (((x * y) * y) * y)) * (((y * y) - ((x * x) * x)) - 7)),
{
    lemma_tangent_identity_x_part1(x, y);
    lemma_tangent_identity_x_part2(x, y);
    lemma_tangent_identity_x_part3(x, y);
}

/// On the curve, the double of a point given with `z = 1` has `x3 d^2 == (u^2 - s d^2) z3`.
pub proof fn lemma_tangent_x(x: int, y: int)
    requires
        modp((((y * y) - ((x * x) * x)) - 7)) == 0,
    ensures
        modp(((((2 * (x * y)) * ((y * y) - 63)) * ((2 * y) * (2 * y))) - (((((3 * x) * x) * ((3 * x) * x)) - ((2 * x) * ((2 * y) * (2 * y)))) * (8 * ((y * y) * y))))) == 0,
{
    lemma_tangent_identity_x(x, y);
    lemma_multiple_of_zero((72 * (((x * y) * y) * y)), (((y * y) - ((x * x) * x)) - 7));
}

#[verifier::rlimit(40)]
proof fn lemma_tangent_identity_y_part1(x: int, y: int)
    ensures
        (((((y * y) - 63) * ((y * y) + 21)) + (168 * (y * y))) * (((2 * y) * (2 * y)) * (2 * y))) == (((-10584int) * (y * y * y)) + ((1008int * (y * y * y * y * y)) + (8int * (y * y * y * y * y * y * y)))),
{
    assert(y == (1int * (y)));
    assert(y == (1int * (y)));
    assert((y * y) == (1int * (y)) * (1int * (y)));
    lemma_coefficient_product(1int, (y), 1int, (y));
    assert((y) * (y) == y * y) by (nonlinear_arith);
    assert((y * y) == (1int * (y * y)));
    assert(((y * y) - 63) == (1int * (y * y)) - (63int * (1int)));
    assert(((y * y) - 63) == (((-63int) * (1int)) + (1int * (y * y))));
    assert(y == (1int * (y)));
    assert(y == (1int * (y)));
    assert((y * y) == (1int * (y)) * (1int * (y)));
    lemma_coefficient_product(1int, (y), 1int, (y));
    assert((y) * (y) == y * y) by (nonlinear_arith);
    assert((y * y) == (1int * (y * y)));
    assert(((y * y) + 21) == (1int * (y * y)) + (21int * (1int)));
    assert(((y * y) + 21) == ((21int * (1int)) + (1int * (y * y))));
    assert((((y * y) - 63) * ((y * y) + 21)) == (((-63int) * (1int)) + (1int * (y * y))) * ((21int * (1int)) + (1int * (y * y))));
    lemma_mul_is_distributive_add_other_way(((21int * (1int)) + (1int * (y * y))), ((-63int) * (1int)), (1int * (y * y)));
    lemma_mul_is_distributive_add(((-63int) * (1int)), (21int * (1int)), (1int * (y * y)));
    lemma_coefficient_product((-63int), (1int), 21int, (1int));
    assert((1int) * (1int) == 1int) by (nonlinear_arith);
    lemma_coefficient_product((-63int), (1int), 1int, (y * y));
    assert((1int) * (y * y) == y * y) by (nonlinear_arith);
    lemma_mul_is_distributive_add((1int * (y * y)), (21int * (1int)), (1int * (y * y)));
    lemma_coefficient_product(1int, (y * y), 21int, (1int));
    assert((y * y) * (1int) == y * y) by (nonlinear_arith);
    lemma_coefficient_product(1int, (y * y), 1int, (y * y));
    assert((y * y) * (y * y) == y * y * y * y) by (nonlinear_arith);
    assert((((y * y) - 63) * ((y * y) + 21)) == (((-1323int) * (1int)) + (((-42int) * (y * y)) + (1int * (y * y * y * y)))));
    assert(y == (1int * (y)));
    assert(y == (1int * (y)));
    assert((y * y) == (1int * (y)) * (1int * (y)));
    lemma_coefficient_product(1int, (y), 1int, (y));
    assert((y) * (y) == y * y) by (nonlinear_arith);
    assert((y * y) == (1int * (y * y)));
    assert((168 * (y * y)) == (168int * (1int)) * (1int * (y * y)));
    lemma_coefficient_product(168int, (1int), 1int, (y * y));
    assert((1int) * (y * y) == y * y) by (nonlinear_arith);
    assert((168 * (y * y)) == (168int * (y * y)));
    assert(((((y * y) - 63) * ((y * y) + 21)) + (168 * (y * y))) == (((-1323int) * (1int)) + (((-42int) * (y * y)) + (1int * (y * y * y * y)))) + (168int * (y * y)));
    assert(((((y * y) - 63) * ((y * y) + 21)) + (168 * (y * y))) == (((-1323int) * (1int)) + ((126int * (y * y)) + (1int * (y * y * y * y)))));
    assert(y == (1int * (y)));
    assert((2 * y) == (2int * (1int)) * (1int * (y)));
    lemma_coefficient_product(2int, (1int), 1int, (y));
    assert((1int) * (y) == y) by (nonlinear_arith);
    assert((2 * y) == (2int * (y)));
    assert(y == (1int * (y)));
    assert((2 * y) == (2int * (1int)) * (1int * (y)));
    lemma_coefficient_product(2int, (1int), 1int, (y));
    assert((1int) * (y) == y) by (nonlinear_arith);
    assert((2 * y) == (2int * (y)));
    assert(((2 * y) * (2 * y)) == (2int * (y)) * (2int * (y)));
    lemma_coefficient_product(2int, (y), 2int, (y));
    assert((y) * (y) == y * y) by (nonlinear_arith);
    assert(((2 * y) * (2 * y)) == (4int * (y * y)));
    assert(y == (1int * (y)));
    assert((2 * y) == (2int * (1int)) * (1int * (y)));
    lemma_coefficient_product(2int, (1int), 1int, (y));
    assert((1int) * (y) == y) by (nonlinear_arith);
    assert((2 * y) == (2int * (y)));
    assert((((2 * y) * (2 * y)) * (2 * y)) == (4int * (y * y)) * (2int * (y)));
    lemma_coefficient_product(4int, (y * y), 2int, (y));
    assert((y * y) * (y) == y * y * y) by (nonlinear_arith);
    assert((((2 * y) * (2 * y)) * (2 * y)) == (8int * (y * y * y)));
    assert((((((y * y) - 63) * ((y * y) + 21)) + (168 * (y * y))) * (((2 * y) * (2 * y)) * (2 * y))) == (((-1323int) * (1int)) + ((126int * (y * y)) + (1int * (y * y * y * y)))) * (8int * (y * y * y)));
    lemma_mul_is_distributive_add_other_way((8int * (y * y * y)), ((-1323int) * (1int)), ((126int * (y * y)) + (1int * (y * y * y * y))));
    lemma_mul_is_distributive_add_other_way((8int * (y * y * y)), (126int * (y * y)), (1int * (y * y * y * y)));
    lemma_coefficient_product((-1323int), (1int), 8int, (y * y * y));
    assert((1int) * (y * y * y) == y * y * y) by (nonlinear_arith);
    lemma_coefficient_product(126int, (y * y), 8int, (y * y * y));
    assert((y * y) * (y * y * y) == y * y * y * y * y) by (nonlinear_arith);
    lemma_coefficient_product(1int, (y * y * y * y), 8int, (y * y * y));
    assert((y * y * y * y) * (y * y * y) == y * y * y * y * y * y * y) by (nonlinear_arith);
    assert((((((y * y) - 63) * ((y * y) + 21)) + (168 * (y * y))) * (((2 * y) * (2 * y)) * (2 * y))) == (((-10584int) * (y * y * y)) + ((1008int * (y * y * y * y * y)) + (8int * (y * y * y * y * y * y * y)))));
}

#[verifier::rlimit(40)]
proof fn lemma_tangent_identity_y_part2(x: int, y: int)
    ensures
        (((((3 * x) * x) * ((x * ((2 * y) * (2 * y))) - ((((3 * x) * x) * ((3 * x) * x)) - ((2 * x) * ((2 * y) * (2 * y)))))) - (y * (((2 * y) * (2 * y)) * (2 * y)))) * (8 * ((y * y) * y))) == (((-64int) * (y * y * y * y * y * y * y)) + ((288int * (x * x * x * y * y * y * y * y)) + ((-216int) * (x * x * x * x * x * x * y * y * y)))),
{
    assert(x == (1int * (x)));
    assert((3 * x) == (3int * (1int)) * (1int * (x)));
    lemma_coefficient_product(3int, (1int), 1int, (x));
    assert((1int) * (x) == x) by (nonlinear_arith);
    assert((3 * x) == (3int * (x)));
    assert(x == (1int * (x)));
    assert(((3 * x) * x) == (3int * (x)) * (1int * (x)));
    lemma_coefficient_product(3int, (x), 1int, (x));
    assert((x) * (x) == x * x) by (nonlinear_arith);
    assert(((3 * x) * x) == (3int * (x * x)));
    assert(x == (1int * (x)));
    assert(y == (1int * (y)));
    assert((2 * y) == (2int * (1int)) * (1int * (y)));
    lemma_coefficient_product(2int, (1int), 1int, (y));
    assert((1int) * (y) == y) by (nonlinear_arith);
    assert((2 * y) == (2int * (y)));
    assert(y == (1int * (y)));
    assert((2 * y) == (2int * (1int)) * (1int * (y)));
    lemma_coefficient_product(2int, (1int), 1int, (y));
    assert((1int) * (y) == y) by (nonlinear_arith);
    assert((2 * y) == (2int * (y)));
    assert(((2 * y) * (2 * y)) == (2int * (y)) * (2int * (y)));
    lemma_coefficient_product(2int, (y), 2int, (y));
    assert((y) * (y) == y * y) by (nonlinear_arith);
    assert(((2 * y) * (2 * y)) == (4int * (y * y)));
    assert((x * ((2 * y) * (2 * y))) == (1int * (x)) * (4int * (y * y)));
    lemma_coefficient_product(1int, (x), 4int, (y * y));
    assert((x) * (y * y) == x * y * y) by (nonlinear_arith);
    assert((x * ((2 * y) * (2 * y))) == (4int * (x * y * y)));
    assert(x == (1int * (x)));
    assert((3 * x) == (3int * (1int)) * (1int * (x)));
    lemma_coefficient_product(3int, (1int), 1int, (x));
    assert((1int) * (x) == x) by (nonlinear_arith);
    assert((3 * x) == (3int * (x)));
    assert(x == (1int * (x)));
    assert(((3 * x) * x) == (3int * (x)) * (1int * (x)));
    lemma_coefficient_product(3int, (x), 1int, (x));
    assert((x) * (x) == x * x) by (nonlinear_arith);
    assert(((3 * x) * x) == (3int * (x * x)));
    assert(x == (1int * (x)));
    assert((3 * x) == (3int * (1int)) * (1int * (x)));
    lemma_coefficient_product(3int, (1int), 1int, (x));
    assert((1int) * (x) == x) by (nonlinear_arith);
    assert((3 * x) == (3int * (x)));
    assert(x == (1int * (x)));
    assert(((3 * x) * x) == (3int * (x)) * (1int * (x)));
    lemma_coefficient_product(3int, (x), 1int, (x));
    assert((x) * (x) == x * x) by (nonlinear_arith);
    assert(((3 * x) * x) == (3int * (x * x)));
    assert((((3 * x) * x) * ((3 * x) * x)) == (3int * (x * x)) * (3int * (x * x)));
    lemma_coefficient_product(3int, (x * x), 3int, (x * x));
    assert((x * x) * (x * x) == x * x * x * x) by (nonlinear_arith);
    assert((((3 * x) * x) * ((3 * x) * x)) == (9int * (x * x * x * x)));
    assert(x == (1int * (x)));
    assert((2 * x) == (2int * (1int)) * (1int * (x)));
    lemma_coefficient_product(2int, (1int), 1int, (x));
    assert((1int) * (x) == x) by (nonlinear_arith);
    assert((2 * x) == (2int * (x)));
    assert(y == (1int * (y)));
    assert((2 * y) == (2int * (1int)) * (1int * (y)));
    lemma_coefficient_product(2int, (1int), 1int, (y));
    assert((1int) * (y) == y) by (nonlinear_arith);
    assert((2 * y) == (2int * (y)));
    assert(y == (1int * (y)));
    assert((2 * y) == (2int * (1int)) * (1int * (y)));
    lemma_coefficient_product(2int, (1int), 1int, (y));
    assert((1int) * (y) == y) by (nonlinear_arith);
    assert((2 * y) == (2int * (y)));
    assert(((2 * y) * (2 * y)) == (2int * (y)) * (2int * (y)));
    lemma_coefficient_product(2int, (y), 2int, (y));
    assert((y) * (y) == y * y) by (nonlinear_arith);
    assert(((2 * y) * (2 * y)) == (4int * (y * y)));
    assert(((2 * x) * ((2 * y) * (2 * y))) == (2int * (x)) * (4int * (y * y)));
    lemma_coefficient_product(2int, (x), 4int, (y * y));
    assert((x) * (y * y) == x * y * y) by (nonlinear_arith);
    assert(((2 * x) * ((2 * y) * (2 * y))) == (8int * (x * y * y)));
    assert(((((3 * x) * x) * ((3 * x) * x)) - ((2 * x) * ((2 * y) * (2 * y)))) == (9int * (x * x * x * x)) - (8int * (x * y * y)));
    assert(((((3 * x) * x) * ((3 * x) * x)) - ((2 * x) * ((2 * y) * (2 * y)))) == (((-8int) * (x * y * y)) + (9int * (x * x * x * x))));
    assert(((x * ((2 * y) * (2 * y))) - ((((3 * x) * x) * ((3 * x) * x)) - ((2 * x) * ((2 * y) * (2 * y))))) == (4int * (x * y * y)) - (((-8int) * (x * y * y)) + (9int * (x * x * x * x))));
    assert(((x * ((2 * y) * (2 * y))) - ((((3 * x) * x) * ((3 * x) * x)) - ((2 * x) * ((2 * y) * (2 * y))))) == ((12int * (x * y * y)) + ((-9int) * (x * x * x * x))));
    assert((((3 * x) * x) * ((x * ((2 * y) * (2 * y))) - ((((3 * x) * x) * ((3 * x) * x)) - ((2 * x) * ((2 * y) * (2 * y)))))) == (3int * (x * x)) * ((12int * (x * y * y)) + ((-9int) * (x * x * x * x))));
    lemma_mul_is_distributive_add((3int * (x * x)), (12int * (x * y * y)), ((-9int) * (x * x * x * x)));
    lemma_coefficient_product(3int, (x * x), 12int, (x * y * y));
    assert((x * x) * (x * y * y) == x * x * x * y * y) by (nonlinear_arith);
    lemma_coefficient_product(3int, (x * x), (-9int), (x * x * x * x));
    assert((x * x) * (x * x * x * x) == x * x * x * x * x * x) by (nonlinear_arith);
    assert((((3 * x) * x) * ((x * ((2 * y) * (2 * y))) - ((((3 * x) * x) * ((3 * x) * x)) - ((2 * x) * ((2 * y) * (2 * y)))))) == ((36int * (x * x * x * y * y)) + ((-27int) * (x * x * x * x * x * x))));
    assert(y == (1int * (y)));
    assert(y == (1int * (y)));
    assert((2 * y) == (2int * (1int)) * (1int * (y)));
    lemma_coefficient_product(2int, (1int), 1int, (y));
    assert((1int) * (y) == y) by (nonlinear_arith);
    assert((2 * y) == (2int * (y)));
    assert(y == (1int * (y)));
    assert((2 * y) == (2int * (1int)) * (1int * (y)));
    lemma_coefficient_product(2int, (1int), 1int, (y));
    assert((1int) * (y) == y) by (nonlinear_arith);
    assert((2 * y) == (2int * (y)));
    assert(((2 * y) * (2 * y)) == (2int * (y)) * (2int * (y)));
    lemma_coefficient_product(2int, (y), 2int, (y));
    assert((y) * (y) == y * y) by (nonlinear_arith);
    assert(((2 * y) * (2 * y)) == (4int * (y * y)));
    assert(y == (1int * (y)));
    assert((2 * y) == (2int * (1int)) * (1int * (y)));
    lemma_coefficient_product(2int, (1int), 1int, (y));
    assert((1int) * (y) == y) by (nonlinear_arith);
    assert((2 * y) == (2int * (y)));
    assert((((2 * y) * (2 * y)) * (2 * y)) == (4int * (y * y)) * (2int * (y)));
    lemma_coefficient_product(4int, (y * y), 2int, (y));
    assert((y * y) * (y) == y * y * y) by (nonlinear_arith);
    assert((((2 * y) * (2 * y)) * (2 * y)) == (8int * (y * y * y)));
    assert((y * (((2 * y) * (2 * y)) * (2 * y))) == (1int * (y)) * (8int * (y * y * y)));
    lemma_coefficient_product(1int, (y), 8int, (y * y * y));
    assert((y) * (y * y * y) == y * y * y * y) by (nonlinear_arith);
    assert((y * (((2 * y) * (2 * y)) * (2 * y))) == (8int * (y * y * y * y)));
    assert(((((3 * x) * x) * ((x * ((2 * y) * (2 * y))) - ((((3 * x) * x) * ((3 * x) * x)) - ((2 * x) * ((2 * y) * (2 * y)))))) - (y * (((2 * y) * (2 * y)) * (2 * y)))) == ((36int * (x * x * x * y * y)) + ((-27int) * (x * x * x * x * x * x))) - (8int * (y * y * y * y)));
    assert(((((3 * x) * x) * ((x * ((2 * y) * (2 * y))) - ((((3 * x) * x) * ((3 * x) * x)) - ((2 * x) * ((2 * y) * (2 * y)))))) - (y * (((2 * y) * (2 * y)) * (2 * y)))) == (((-8int) * (y * y * y * y)) + ((36int * (x * x * x * y * y)) + ((-27int) * (x * x * x * x * x * x)))));
    assert(y == (1int * (y)));
    assert(y == (1int * (y)));
    assert((y * y) == (1int * (y)) * (1int * (y)));
    lemma_coefficient_product(1int, (y), 1int, (y));
    assert((y) * (y) == y * y) by (nonlinear_arith);
    assert((y * y) == (1int * (y * y)));
    assert(y == (1int * (y)));
    assert(((y * y) * y) == (1int * (y * y)) * (1int * (y)));
    lemma_coefficient_product(1int, (y * y), 1int, (y));
    assert((y * y) * (y) == y * y * y) by (nonlinear_arith);
    assert(((y * y) * y) == (1int * (y * y * y)));
    assert((8 * ((y * y) * y)) == (8int * (1int)) * (1int * (y * y * y)));
    lemma_coefficient_product(8int, (1int), 1int, (y * y * y));
    assert((1int) * (y * y * y) == y * y * y) by (nonlinear_arith);
    assert((8 * ((y * y) * y)) == (8int * (y * y * y)));
    assert((((((3 * x) * x) * ((x * ((2 * y) * (2 * y))) - ((((3 * x) * x) * ((3 * x) * x)) - ((2 * x) * ((2 * y) * (2 * y)))))) - (y * (((2 * y) * (2 * y)) * (2 * y)))) * (8 * ((y * y) * y))) == (((-8int) * (y * y * y * y)) + ((36int * (x * x * x * y * y)) + ((-27int) * (x * x * x * x * x * x)))) * (8int * (y * y * y)));
    lemma_mul_is_distributive_add_other_way((8int * (y * y * y)), ((-8int) * (y * y * y * y)), ((36int * (x * x * x * y * y)) + ((-27int) * (x * x * x * x * x * x))));
    lemma_mul_is_distributive_add_other_way((8int * (y * y * y)), (36int * (x * x * x * y * y)), ((-27int) * (x * x * x * x * x * x)));
    lemma_coefficient_product((-8int), (y * y * y * y), 8int, (y * y * y));
    assert((y * y * y * y) * (y * y * y) == y * y * y * y * y * y * y) by (nonlinear_arith);
    lemma_coefficient_product(36int, (x * x * x * y * y), 8int, (y * y * y));
    assert((x * x * x * y * y) * (y * y * y) == x * x * x * y * y * y * y * y) by (nonlinear_arith);
    lemma_coefficient_product((-27int), (x * x * x * x * x * x), 8int, (y * y * y));
    assert((x * x * x * x * x * x) * (y * y * y) == x * x * x * x * x * x * y * y * y) by (nonlinear_arith);
    assert((((((3 * x) * x) * ((x * ((2 * y) * (2 * y))) - ((((3 * x) * x) * ((3 * x) * x)) - ((2 * x) * ((2 * y) * (2 * y)))))) - (y * (((2 * y) * (2 * y)) * (2 * y)))) * (8 * ((y * y) * y))) == (((-64int) * (y * y * y * y * y * y * y)) + ((288int * (x * x * x * y * y * y * y * y)) + ((-216int) * (x * x * x * x * x * x * y * y * y)))));
}

#[verifier::rlimit(40)]
proof fn lemma_tangent_identity_y_part3(x: int, y: int)
    ensures
        ((((1512 * ((y * y) * y)) + (72 * ((((y * y) * y) * y) * y))) + ((-216) * (((((x * x) * x) * y) * y) * y))) * (((y * y) - ((x * x) * x)) - 7)) == ((((-10584int) * (y * y * y)) + (1008int * (y * y * y * y * y))) + ((72int * (y * y * y * y * y * y * y)) + (((-288int) * (x * x * x * y * y * y * y * y)) + (216int * (x * x * x * x * x * x * y * y * y))))),
{
    assert(y == (1int * (y)));
    assert(y == (1int * (y)));
    assert((y * y) == (1int * (y)) * (1int * (y)));
    lemma_coefficient_product(1int, (y), 1int, (y));
    assert((y) * (y) == y * y) by (nonlinear_arith);
    assert((y * y) == (1int * (y * y)));
    assert(y == (1int * (y)));
    assert(((y * y) * y) == (1int * (y * y)) * (1int * (y)));
    lemma_coefficient_product(1int, (y * y), 1int, (y));
    assert((y * y) * (y) == y * y * y) by (nonlinear_arith);
    assert(((y * y) * y) == (1int * (y * y * y)));
    assert((1512 * ((y * y) * y)) == (1512int * (1int)) * (1int * (y * y * y)));
    lemma_coefficient_product(1512int, (1int), 1int, (y * y * y));
    assert((1int) * (y * y * y) == y * y * y) by (nonlinear_arith);
    assert((1512 * ((y * y) * y)) == (1512int * (y * y * y)));
    assert(y == (1int * (y)));
    assert(y == (1int * (y)));
    assert((y * y) == (1int * (y)) * (1int * (y)));
    lemma_coefficient_product(1int, (y), 1int, (y));
    assert((y) * (y) == y * y) by (nonlinear_arith);
    assert((y * y) == (1int * (y * y)));
    assert(y == (1int * (y)));
    assert(((y * y) * y) == (1int * (y * y)) * (1int * (y)));
    lemma_coefficient_product(1int, (y * y), 1int, (y));
    assert((y * y) * (y) == y * y * y) by (nonlinear_arith);
    assert(((y * y) * y) == (1int * (y * y * y)));
    assert(y == (1int * (y)));
    assert((((y * y) * y) * y) == (1int * (y * y * y)) * (1int * (y)));
    lemma_coefficient_product(1int, (y * y * y), 1int, (y));
    assert((y * y * y) * (y) == y * y * y * y) by (nonlinear_arith);
    assert((((y * y) * y) * y) == (1int * (y * y * y * y)));
    assert(y == (1int * (y)));
    assert(((((y * y) * y) * y) * y) == (1int * (y * y * y * y)) * (1int * (y)));
    lemma_coefficient_product(1int, (y * y * y * y), 1int, (y));
    assert((y * y * y * y) * (y) == y * y * y * y * y) by (nonlinear_arith);
    assert(((((y * y) * y) * y) * y) == (1int * (y * y * y * y * y)));
    assert((72 * ((((y * y) * y) * y) * y)) == (72int * (1int)) * (1int * (y * y * y * y * y)));
    lemma_coefficient_product(72int, (1int), 1int, (y * y * y * y * y));
    assert((1int) * (y * y * y * y * y) == y * y * y * y * y) by (nonlinear_arith);
    assert((72 * ((((y * y) * y) * y) * y)) == (72int * (y * y * y * y * y)));
    assert(((1512 * ((y * y) * y)) + (72 * ((((y * y) * y) * y) * y))) == (1512int * (y * y * y)) + (72int * (y * y * y * y * y)));
    assert(((1512 * ((y * y) * y)) + (72 * ((((y * y) * y) * y) * y))) == ((1512int * (y * y * y)) + (72int * (y * y * y * y * y))));
    assert(x == (1int * (x)));
    assert(x == (1int * (x)));
    assert((x * x) == (1int * (x)) * (1int * (x)));
    lemma_coefficient_product(1int, (x), 1int, (x));
    assert((x) * (x) == x * x) by (nonlinear_arith);
    assert((x * x) == (1int * (x * x)));
    assert(x == (1int * (x)));
    assert(((x * x) * x) == (1int * (x * x)) * (1int * (x)));
    lemma_coefficient_product(1int, (x * x), 1int, (x));
    assert((x * x) * (x) == x * x * x) by (nonlinear_arith);
    assert(((x * x) * x) == (1int * (x * x * x)));
    assert(y == (1int * (y)));
    assert((((x * x) * x) * y) == (1int * (x * x * x)) * (1int * (y)));
    lemma_coefficient_product(1int, (x * x * x), 1int, (y));
    assert((x * x * x) * (y) == x * x * x * y) by (nonlinear_arith);
    assert((((x * x) * x) * y) == (1int * (x * x * x * y)));
    assert(y == (1int * (y)));
    assert(((((x * x) * x) * y) * y) == (1int * (x * x * x * y)) * (1int * (y)));
    lemma_coefficient_product(1int, (x * x * x * y), 1int, (y));
    assert((x * x * x * y) * (y) == x * x * x * y * y) by (nonlinear_arith);
    assert(((((x * x) * x) * y) * y) == (1int * (x * x * x * y * y)));
    assert(y == (1int * (y)));
    assert((((((x * x) * x) * y) * y) * y) == (1int * (x * x * x * y * y)) * (1int * (y)));
    lemma_coefficient_product(1int, (x * x * x * y * y), 1int, (y));
    assert((x * x * x * y * y) * (y) == x * x * x * y * y * y) by (nonlinear_arith);
    assert((((((x * x) * x) * y) * y) * y) == (1int * (x * x * x * y * y * y)));
    assert(((-216) * (((((x * x) * x) * y) * y) * y)) == ((-216int) * (1int)) * (1int * (x * x * x * y * y * y)));
    lemma_coefficient_product((-216int), (1int), 1int, (x * x * x * y * y * y));
    assert((1int) * (x * x * x * y * y * y) == x * x * x * y * y * y) by (nonlinear_arith);
    assert(((-216) * (((((x * x) * x) * y) * y) * y)) == ((-216int) * (x * x * x * y * y * y)));
    assert((((1512 * ((y * y) * y)) + (72 * ((((y * y) * y) * y) * y))) + ((-216) * (((((x * x) * x) * y) * y) * y))) == ((1512int * (y * y * y)) + (72int * (y * y * y * y * y))) + ((-216int) * (x * x * x * y * y * y)));
    assert((((1512 * ((y * y) * y)) + (72 * ((((y * y) * y) * y) * y))) + ((-216) * (((((x * x) * x) * y) * y) * y))) == ((1512int * (y * y * y)) + ((72int * (y * y * y * y * y)) + ((-216int) * (x * x * x * y * y * y)))));
    assert(y == (1int * (y)));
    assert(y == (1int * (y)));
    assert((y * y) == (1int * (y)) * (1int * (y)));
    lemma_coefficient_product(1int, (y), 1int, (y));
    assert((y) * (y) == y * y) by (nonlinear_arith);
    assert((y * y) == (1int * (y * y)));
    assert(x == (1int * (x)));
    assert(x == (1int * (x)));
    assert((x * x) == (1int * (x)) * (1int * (x)));
    lemma_coefficient_product(1int, (x), 1int, (x));
    assert((x) * (x) == x * x) by (nonlinear_arith);
    assert((x * x) == (1int * (x * x)));
    assert(x == (1int * (x)));
    assert(((x * x) * x) == (1int * (x * x)) * (1int * (x)));
    lemma_coefficient_product(1int, (x * x), 1int, (x));
    assert((x * x) * (x) == x * x * x) by (nonlinear_arith);
    assert(((x * x) * x) == (1int * (x * x * x)));
    assert(((y * y) - ((x * x) * x)) == (1int * (y * y)) - (1int * (x * x * x)));
    assert(((y * y) - ((x * x) * x)) == ((1int * (y * y)) + ((-1int) * (x * x * x))));
    assert((((y * y) - ((x * x) * x)) - 7) == ((1int * (y * y)) + ((-1int) * (x * x * x))) - (7int * (1int)));
    assert((((y * y) - ((x * x) * x)) - 7) == (((-7int) * (1int)) + ((1int * (y * y)) + ((-1int) * (x * x * x)))));
    assert(((((1512 * ((y * y) * y)) + (72 * ((((y * y) * y) * y) * y))) + ((-216) * (((((x * x) * x) * y) * y) * y))) * (((y * y) - ((x * x) * x)) - 7)) == ((1512int * (y * y * y)) + ((72int * (y * y * y * y * y)) + ((-216int) * (x * x * x * y * y * y)))) * (((-7int) * (1int)) + ((1int * (y * y)) + ((-1int) * (x * x * x)))));
    lemma_mul_is_distributive_add_other_way((((-7int) * (1int)) + ((1int * (y * y)) + ((-1int) * (x * x * x)))), (1512int * (y * y * y)), ((72int * (y * y * y * y * y)) + ((-216int) * (x * x * x * y * y * y))));
    lemma_mul_is_distributive_add_other_way((((-7int) * (1int)) + ((1int * (y * y)) + ((-1int) * (x * x * x)))), (72int * (y * y * y * y * y)), ((-216int) * (x * x * x * y * y * y)));
    lemma_mul_is_distributive_add((1512int * (y * y * y)), ((-7int) * (1int)), ((1int * (y * y)) + ((-1int) * (x * x * x))));
    lemma_mul_is_distributive_add((1512int * (y * y * y)), (1int * (y * y)), ((-1int) * (x * x * x)));
    lemma_coefficient_product(1512int, (y * y * y), (-7int), (1int));
    assert((y * y * y) * (1int) == y * y * y) by (nonlinear_arith);
    lemma_coefficient_product(1512int, (y * y * y), 1int, (y * y));
    assert((y * y * y) * (y * y) == y * y * y * y * y) by (nonlinear_arith);
    lemma_coefficient_product(1512int, (y * y * y), (-1int), (x * x * x));
    assert((y * y * y) * (x * x * x) == x * x * x * y * y * y) by (nonlinear_arith);
    lemma_mul_is_distributive_add((72int * (y * y * y * y * y)), ((-7int) * (1int)), ((1int * (y * y)) + ((-1int) * (x * x * x))));
    lemma_mul_is_distributive_add((72int * (y * y * y * y * y)), (1int * (y * y)), ((-1int) * (x * x * x)));
    lemma_coefficient_product(72int, (y * y * y * y * y), (-7int), (1int));
    assert((y * y * y * y * y) * (1int) == y * y * y * y * y) by (nonlinear_arith);
    lemma_coefficient_product(72int, (y * y * y * y * y), 1int, (y * y));
    assert((y * y * y * y * y) * (y * y) == y * y * y * y * y * y * y) by (nonlinear_arith);
    lemma_coefficient_product(72int, (y * y * y * y * y), (-1int), (x * x * x));
    assert((y * y * y * y * y) * (x * x * x) == x * x * x * y * y * y * y * y) by (nonlinear_arith);
    lemma_mul_is_distributive_add(((-216int) * (x * x * x * y * y * y)), ((-7int) * (1int)), ((1int * (y * y)) + ((-1int) * (x * x * x))));
    lemma_mul_is_distributive_add(((-216int) * (x * x * x * y * y * y)), (1int * (y * y)), ((-1int) * (x * x * x)));
    lemma_coefficient_product((-216int), (x * x * x * y * y * y), (-7int), (1int));
    assert((x * x * x * y * y * y) * (1int) == x * x * x * y * y * y) by (nonlinear_arith);
    lemma_coefficient_product((-216int), (x * x * x * y * y * y), 1int, (y * y));
    assert((x * x * x * y * y * y) * (y * y) == x * x * x * y * y * y * y * y) by (nonlinear_arith);
    lemma_coefficient_product((-216int), (x * x * x * y * y * y), (-1int), (x * x * x));
    assert((x * x * x * y * y * y) * (x * x * x) == x * x * x * x * x * x * y * y * y) by (nonlinear_arith);
    assert(((((1512 * ((y * y) * y)) + (72 * ((((y * y) * y) * y) * y))) + ((-216) * (((((x * x) * x) * y) * y) * y))) * (((y * y) - ((x * x) * x)) - 7)) == ((((-10584int) * (y * y * y)) + (1008int * (y * y * y * y * y))) + ((72int * (y * y * y * y * y * y * y)) + (((-288int) * (x * x * x * y * y * y * y * y)) + (216int * (x * x * x * x * x * x * y * y * y))))));
}

/// Polynomial identity behind the y coordinate of the tangent rule.
pub proof fn lemma_tangent_identity_y(x: int, y: int)
    ensures
        ((((((y * y) - 63) * ((y * y) + 21)) + (168 * (y * y))) * (((2 * y) * (2 * y)) * (2 * y))) - (((((3 * x) * x) * ((x * ((2 * y) * (2 * y))) - ((((3 * x) * x) * ((3 * x) * x)) - ((2 * x) * ((2 * y) * (2 * y)))))) - (y * (((2 * y) * (2 * y)) * (2 * y)))) * (8 * ((y * y) * y)))) == ((((1512 * ((y * y) * y)) + (72 * ((((y * y) * y) * y) * y))) + ((-216) * (((((x * x) * x) * y) * y) * y))) * (((y * y) - ((x * x) * x)) - 7)),
{
    lemma_tangent_identity_y_part1(x, y);
    lemma_tangent_identity_y_part2(x, y);
    lemma_tangent_identity_y_part3(x, y);
}

/// On the curve, the double of a point given with `z = 1` has `y3 d^3 == (u (x d^2 - (u^2 - s d^2)) - y d^3) z3`.
pub proof fn lemma_tangent_y(x: int, y: int)
    requires
        modp((((y * y) - ((x * x) * x)) - 7)) == 0,
    ensures
        modp(((((((y * y) - 63) * ((y * y) + 21)) + (168 * (y * y))) * (((2 * y) * (2 * y)) * (2 * y))) - (((((3 * x) * x) * ((x * ((2 * y) * (2 * y))) - ((((3 * x) * x) * ((3 * x) * x)) - ((2 * x) * ((2 * y) * (2 * y)))))) - (y * (((2 * y) * (2 * y)) * (2 * y)))) * (8 * ((y * y) * y))))) == 0,
{
    lemma_tangent_identity_y(x, y);
    lemma_multiple_of_zero((((1512 * ((y * y) * y)) + (72 * ((((y * y) * y) * y) * y))) + ((-216) * (((((x * x) * x) * y) * y) * y))), (((y * y) - ((x * x) * x)) - 7));
}

#[verifier::rlimit(40)]
proof fn lemma_combine_homogeneous_0(t: int, a: int, b: int, c: int, d: int, e: int, f: int)
    ensures
        (((t * d) * ((t * b) - (21 * (t * c)))) - ((21 * (t * e)) * (t * f))) == ((t * t) * ((d * (b - (21 * c))) - ((21 * e) * f))),
{
    assert(t == (1int * (t)));
    assert(d == (1int * (d)));
    assert((t * d) == (1int * (t)) * (1int * (d)));
    lemma_coefficient_product(1int, (t), 1int, (d));
    assert((t) * (d) == t * d) by (nonlinear_arith);
    assert((t * d) == (1int * (t * d)));
    assert(t == (1int * (t)));
    assert(b == (1int * (b)));
    assert((t * b) == (1int * (t)) * (1int * (b)));
    lemma_coefficient_product(1int, (t), 1int, (b));
    assert((t) * (b) == t * b) by (nonlinear_arith);
    assert((t * b) == (1int * (t * b)));
    assert(t == (1int * (t)));
    assert(c == (1int * (c)));
    assert((t * c) == (1int * (t)) * (1int * (c)));
    lemma_coefficient_product(1int, (t), 1int, (c));
    assert((t) * (c) == t * c) by (nonlinear_arith);
    assert((t * c) == (1int * (t * c)));
    assert((21 * (t * c)) == (21int * (1int)) * (1int * (t * c)));
    lemma_coefficient_product(21int, (1int), 1int, (t * c));
    assert((1int) * (t * c) == t * c) by (nonlinear_arith);
    assert((21 * (t * c)) == (21int * (t * c)));
    assert(((t * b) - (21 * (t * c))) == (1int * (t * b)) - (21int * (t * c)));
    assert(((t * b) - (21 * (t * c))) == ((1int * (t * b)) + ((-21int) * (t * c))));
    assert(((t * d) * ((t * b) - (21 * (t * c)))) == (1int * (t * d)) * ((1int * (t * b)) + ((-21int) * (t * c))));
    lemma_mul_is_distributive_add((1int * (t * d)), (1int * (t * b)), ((-21int) * (t * c)));
    lemma_coefficient_product(1int, (t * d), 1int, (t * b));
    assert((t * d) * (t * b) == t * t * b * d) by (nonlinear_arith);
    lemma_coefficient_product(1int, (t * d), (-21int), (t * c));
    assert((t * d) * (t * c) == t * t * c * d) by (nonlinear_arith);
    assert(((t * d) * ((t * b) - (21 * (t * c)))) == ((1int * (t * t * b * d)) + ((-21int) * (t * t * c * d))));
    assert(t == (1int * (t)));
    assert(e == (1int * (e)));
    assert((t * e) == (1int * (t)) * (1int * (e)));
    lemma_coefficient_product(1int, (t), 1int, (e));
    assert((t) * (e) == t * e) by (nonlinear_arith);
    assert((t * e) == (1int * (t * e)));
    assert((21 * (t * e)) == (21int * (1int)) * (1int * (t * e)));
    lemma_coefficient_product(21int, (1int), 1int, (t * e));
    assert((1int) * (t * e) == t * e) by (nonlinear_arith);
    assert((21 * (t * e)) == (21int * (t * e)));
    assert(t == (1int * (t)));
    assert(f == (1int * (f)));
    assert((t * f) == (1int * (t)) * (1int * (f)));
    lemma_coefficient_product(1int, (t), 1int, (f));
    assert((t) * (f) == t * f) by (nonlinear_arith);
    assert((t * f) == (1int * (t * f)));
    assert(((21 * (t * e)) * (t * f)) == (21int * (t * e)) * (1int * (t * f)));
    lemma_coefficient_product(21int, (t * e), 1int, (t * f));
    assert((t * e) * (t * f) == t * t * e * f) by (nonlinear_arith);
    assert(((21 * (t * e)) * (t * f)) == (21int * (t * t * e * f)));
    assert((((t * d) * ((t * b) - (21 * (t * c)))) - ((21 * (t * e)) * (t * f))) == ((1int * (t * t * b * d)) + ((-21int) * (t * t * c * d))) - (21int * (t * t * e * f)));
    assert((((t * d) * ((t * b) - (21 * (t * c)))) - ((21 * (t * e)) * (t * f))) == ((1int * (t * t * b * d)) + (((-21int) * (t * t * c * d)) + ((-21int) * (t * t * e * f)))));
    assert(t == (1int * (t)));
    assert(t == (1int * (t)));
    assert((t * t) == (1int * (t)) * (1int * (t)));
    lemma_coefficient_product(1int, (t), 1int, (t));
    assert((t) * (t) == t * t) by (nonlinear_arith);
    assert((t * t) == (1int * (t * t)));
    assert(d == (1int * (d)));
    assert(b == (1int * (b)));
    assert(c == (1int * (c)));
    assert((21 * c) == (21int * (1int)) * (1int * (c)));
    lemma_coefficient_product(21int, (1int), 1int, (c));
    assert((1int) * (c) == c) by (nonlinear_arith);
    assert((21 * c) == (21int * (c)));
    assert((b - (21 * c)) == (1int * (b)) - (21int * (c)));
    assert((b - (21 * c)) == ((1int * (b)) + ((-21int) * (c))));
    assert((d * (b - (21 * c))) == (1int * (d)) * ((1int * (b)) + ((-21int) * (c))));
    lemma_mul_is_distributive_add((1int * (d)), (1int * (b)), ((-21int) * (c)));
    lemma_coefficient_product(1int, (d), 1int, (b));
    assert((d) * (b) == b * d) by (nonlinear_arith);
    lemma_coefficient_product(1int, (d), (-21int), (c));
    assert((d) * (c) == c * d) by (nonlinear_arith);
    assert((d * (b - (21 * c))) == ((1int * (b * d)) + ((-21int) * (c * d))));
    assert(e == (1int * (e)));
    assert((21 * e) == (21int * (1int)) * (1int * (e)));
    lemma_coefficient_product(21int, (1int), 1int, (e));
    assert((1int) * (e) == e) by (nonlinear_arith);
    assert((21 * e) == (21int * (e)));
    assert(f == (1int * (f)));
    assert(((21 * e) * f) == (21int * (e)) * (1int * (f)));
    lemma_coefficient_product(21int, (e), 1int, (f));
    assert((e) * (f) == e * f) by (nonlinear_arith);
    assert(((21 * e) * f) == (21int * (e * f)));
    assert(((d * (b - (21 * c))) - ((21 * e) * f)) == ((1int * (b * d)) + ((-21int) * (c * d))) - (21int * (e * f)));
    assert(((d * (b - (21 * c))) - ((21 * e) * f)) == ((1int * (b * d)) + (((-21int) * (c * d)) + ((-21int) * (e * f)))));
    assert(((t * t) * ((d * (b - (21 * c))) - ((21 * e) * f))) == (1int * (t * t)) * ((1int * (b * d)) + (((-21int) * (c * d)) + ((-21int) * (e * f)))));
    lemma_mul_is_distributive_add((1int * (t * t)), (1int * (b * d)), (((-21int) * (c * d)) + ((-21int) * (e * f))));
    lemma_mul_is_distributive_add((1int * (t * t)), ((-21int) * (c * d)), ((-21int) * (e * f)));
    lemma_coefficient_product(1int, (t * t), 1int, (b * d));
    assert((t * t) * (b * d) == t * t * b * d) by (nonlinear_arith);
    lemma_coefficient_product(1int, (t * t), (-21int), (c * d));
    assert((t * t) * (c * d) == t * t * c * d) by (nonlinear_arith);
    lemma_coefficient_product(1int, (t * t), (-21int), (e * f));
    assert((t * t) * (e * f) == t * t * e * f) by (nonlinear_arith);
    assert(((t * t) * ((d * (b - (21 * c))) - ((21 * e) * f))) == ((1int * (t * t * b * d)) + (((-21int) * (t * t * c * d)) + ((-21int) * (t * t * e * f)))));
}

#[verifier::rlimit(40)]
proof fn lemma_combine_homogeneous_1(t: int, a: int, b: int, c: int, d: int, e: int, f: int)
    ensures
        ((((t * b) + (21 * (t * c))) * ((t * b) - (21 * (t * c)))) + ((63 * (t * a)) * (t * f))) == ((t * t) * (((b + (21 * c)) * (b - (21 * c))) + ((63 * a) * f))),
{
    assert(t == (1int * (t)));
    assert(b == (1int * (b)));
    assert((t * b) == (1int * (t)) * (1int * (b)));
    lemma_coefficient_product(1int, (t), 1int, (b));
    assert((t) * (b) == t * b) by (nonlinear_arith);
    assert((t * b) == (1int * (t * b)));
    assert(t == (1int * (t)));
    assert(c == (1int * (c)));
    assert((t * c) == (1int * (t)) * (1int * (c)));
    lemma_coefficient_product(1int, (t), 1int, (c));
    assert((t) * (c) == t * c) by (nonlinear_arith);
    assert((t * c) == (1int * (t * c)));
    assert((21 * (t * c)) == (21int * (1int)) * (1int * (t * c)));
    lemma_coefficient_product(21int, (1int), 1int, (t * c));
    assert((1int) * (t * c) == t * c) by (nonlinear_arith);
    assert((21 * (t * c)) == (21int * (t * c)));
    assert(((t * b) + (21 * (t * c))) == (1int * (t * b)) + (21int * (t * c)));
    assert(((t * b) + (21 * (t * c))) == ((1int * (t * b)) + (21int * (t * c))));
    assert(t == (1int * (t)));
    assert(b == (1int * (b)));
    assert((t * b) == (1int * (t)) * (1int * (b)));
    lemma_coefficient_product(1int, (t), 1int, (b));
    assert((t) * (b) == t * b) by (nonlinear_arith);
    assert((t * b) == (1int * (t * b)));
    assert(t == (1int * (t)));
    assert(c == (1int * (c)));
    assert((t * c) == (1int * (t)) * (1int * (c)));
    lemma_coefficient_product(1int, (t), 1int, (c));
    assert((t) * (c) == t * c) by (nonlinear_arith);
    assert((t * c) == (1int * (t * c)));
    assert((21 * (t * c)) == (21int * (1int)) * (1int * (t * c)));
    lemma_coefficient_product(21int, (1int), 1int, (t * c));
    assert((1int) * (t * c) == t * c) by (nonlinear_arith);
    assert((21 * (t * c)) == (21int * (t * c)));
    assert(((t * b) - (21 * (t * c))) == (1int * (t * b)) - (21int * (t * c)));
    assert(((t * b) - (21 * (t * c))) == ((1int * (t * b)) + ((-21int) * (t * c))));
    assert((((t * b) + (21 * (t * c))) * ((t * b) - (21 * (t * c)))) == ((1int * (t * b)) + (21int * (t * c))) * ((1int * (t * b)) + ((-21int) * (t * c))));
    lemma_mul_is_distributive_add_other_way(((1int * (t * b)) + ((-21int) * (t * c))), (1int * (t * b)), (21int * (t * c)));
    lemma_mul_is_distributive_add((1int * (t * b)), (1int * (t * b)), ((-21int) * (t * c)));
    lemma_coefficient_product(1int, (t * b), 1int, (t * b));
    assert((t * b) * (t * b) == t * t * b * b) by (nonlinear_arith);
    lemma_coefficient_product(1int, (t * b), (-21int), (t * c));
    assert((t * b) * (t * c) == t * t * b * c) by (nonlinear_arith);
    lemma_mul_is_distributive_add((21int * (t * c)), (1int * (t * b)), ((-21int) * (t * c)));
    lemma_coefficient_product(21int, (t * c), 1int, (t * b));
    assert((t * c) * (t * b) == t * t * b * c) by (nonlinear_arith);
    lemma_coefficient_product(21int, (t * c), (-21int), (t * c));
    assert((t * c) * (t * c) == t * t * c * c) by (nonlinear_arith);
    assert((((t * b) + (21 * (t * c))) * ((t * b) - (21 * (t * c)))) == ((1int * (t * t * b * b)) + ((-441int) * (t * t * c * c))));
    assert(t == (1int * (t)));
    assert(a == (1int * (a)));
    assert((t * a) == (1int * (t)) * (1int * (a)));
    lemma_coefficient_product(1int, (t), 1int, (a));
    assert((t) * (a) == t * a) by (nonlinear_arith);
    assert((t * a) == (1int * (t * a)));
    assert((63 * (t * a)) == (63int * (1int)) * (1int * (t * a)));
    lemma_coefficient_product(63int, (1int), 1int, (t * a));
    assert((1int) * (t * a) == t * a) by (nonlinear_arith);
    assert((63 * (t * a)) == (63int * (t * a)));
    assert(t == (1int * (t)));
    assert(f == (1int * (f)));
    assert((t * f) == (1int * (t)) * (1int * (f)));
    lemma_coefficient_product(1int, (t), 1int, (f));
    assert((t) * (f) == t * f) by (nonlinear_arith);
    assert((t * f) == (1int * (t * f)));
    assert(((63 * (t * a)) * (t * f)) == (63int * (t * a)) * (1int * (t * f)));
    lemma_coefficient_product(63int, (t * a), 1int, (t * f));
    assert((t * a) * (t * f) == t * t * a * f) by (nonlinear_arith);
    assert(((63 * (t * a)) * (t * f)) == (63int * (t * t * a * f)));
    assert(((((t * b) + (21 * (t * c))) * ((t * b) - (21 * (t * c)))) + ((63 * (t * a)) * (t * f))) == ((1int * (t * t * b * b)) + ((-441int) * (t * t * c * c))) + (63int * (t * t * a * f)));
    assert(((((t * b) + (21 * (t * c))) * ((t * b) - (21 * (t * c)))) + ((63 * (t * a)) * (t * f))) == ((63int * (t * t * a * f)) + ((1int * (t * t * b * b)) + ((-441int) * (t * t * c * c)))));
    assert(t == (1int * (t)));
    assert(t == (1int * (t)));
    assert((t * t) == (1int * (t)) * (1int * (t)));
    lemma_coefficient_product(1int, (t), 1int, (t));
    assert((t) * (t) == t * t) by (nonlinear_arith);
    assert((t * t) == (1int * (t * t)));
    assert(b == (1int * (b)));
    assert(c == (1int * (c)));
    assert((21 * c) == (21int * (1int)) * (1int * (c)));
    lemma_coefficient_product(21int, (1int), 1int, (c));
    assert((1int) * (c) == c) by (nonlinear_arith);
    assert((21 * c) == (21int * (c)));
    assert((b + (21 * c)) == (1int * (b)) + (21int * (c)));
    assert((b + (21 * c)) == ((1int * (b)) + (21int * (c))));
    assert(b == (1int * (b)));
    assert(c == (1int * (c)));
    assert((21 * c) == (21int * (1int)) * (1int * (c)));
    lemma_coefficient_product(21int, (1int), 1int, (c));
    assert((1int) * (c) == c) by (nonlinear_arith);
    assert((21 * c) == (21int * (c)));
    assert((b - (21 * c)) == (1int * (b)) - (21int * (c)));
    assert((b - (21 * c)) == ((1int * (b)) + ((-21int) * (c))));
    assert(((b + (21 * c)) * (b - (21 * c))) == ((1int * (b)) + (21int * (c))) * ((1int * (b)) + ((-21int) * (c))));
    lemma_mul_is_distributive_add_other_way(((1int * (b)) + ((-21int) * (c))), (1int * (b)), (21int * (c)));
    lemma_mul_is_distributive_add((1int * (b)), (1int * (b)), ((-21int) * (c)));
    lemma_coefficient_product(1int, (b), 1int, (b));
    assert((b) * (b) == b * b) by (nonlinear_arith);
    lemma_coefficient_product(1int, (b), (-21int), (c));
    assert((b) * (c) == b * c) by (nonlinear_arith);
    lemma_mul_is_distributive_add((21int * (c)), (1int * (b)), ((-21int) * (c)));
    lemma_coefficient_product(21int, (c), 1int, (b));
    assert((c) * (b) == b * c) by (nonlinear_arith);
    lemma_coefficient_product(21int, (c), (-21int), (c));
    assert((c) * (c) == c * c) by (nonlinear_arith);
    assert(((b + (21 * c)) * (b - (21 * c))) == ((1int * (b * b)) + ((-441int) * (c * c))));
    assert(a == (1int * (a)));
    assert((63 * a) == (63int * (1int)) * (1int * (a)));
    lemma_coefficient_product(63int, (1int), 1int, (a));
    assert((1int) * (a) == a) by (nonlinear_arith);
    assert((63 * a) == (63int * (a)));
    assert(f == (1int * (f)));
    assert(((63 * a) * f) == (63int * (a)) * (1int * (f)));
    lemma_coefficient_product(63int, (a), 1int, (f));
    assert((a) * (f) == a * f) by (nonlinear_arith);
    assert(((63 * a) * f) == (63int * (a * f)));
    assert((((b + (21 * c)) * (b - (21 * c))) + ((63 * a) * f)) == ((1int * (b * b)) + ((-441int) * (c * c))) + (63int * (a * f)));
    assert((((b + (21 * c)) * (b - (21 * c))) + ((63 * a) * f)) == ((63int * (a * f)) + ((1int * (b * b)) + ((-441int) * (c * c)))));
    assert(((t * t) * (((b + (21 * c)) * (b - (21 * c))) + ((63 * a) * f))) == (1int * (t * t)) * ((63int * (a * f)) + ((1int * (b * b)) + ((-441int) * (c * c)))));
    lemma_mul_is_distributive_add((1int * (t * t)), (63int * (a * f)), ((1int * (b * b)) + ((-441int) * (c * c))));
    lemma_mul_is_distributive_add((1int * (t * t)), (1int * (b * b)), ((-441int) * (c * c)));
    lemma_coefficient_product(1int, (t * t), 63int, (a * f));
    assert((t * t) * (a * f) == t * t * a * f) by (nonlinear_arith);
    lemma_coefficient_product(1int, (t * t), 1int, (b * b));
    assert((t * t) * (b * b) == t * t * b * b) by (nonlinear_arith);
    lemma_coefficient_product(1int, (t * t), (-441int), (c * c));
    assert((t * t) * (c * c) == t * t * c * c) by (nonlinear_arith);
    assert(((t * t) * (((b + (21 * c)) * (b - (21 * c))) + ((63 * a) * f))) == ((63int * (t * t * a * f)) + ((1int * (t * t * b * b)) + ((-441int) * (t * t * c * c)))));
}

#[verifier::rlimit(40)]
proof fn lemma_combine_homogeneous_2(t: int, a: int, b: int, c: int, d: int, e: int, f: int)
    ensures
        (((t * e) * ((t * b) + (21 * (t * c)))) + ((3 * (t * a)) * (t * d))) == ((t * t) * ((e * (b + (21 * c))) + ((3 * a) * d))),
{
    assert(t == (1int * (t)));
    assert(e == (1int * (e)));
    assert((t * e) == (1int * (t)) * (1int * (e)));
    lemma_coefficient_product(1int, (t), 1int, (e));
    assert((t) * (e) == t * e) by (nonlinear_arith);
    assert((t * e) == (1int * (t * e)));
    assert(t == (1int * (t)));
    assert(b == (1int * (b)));
    assert((t * b) == (1int * (t)) * (1int * (b)));
    lemma_coefficient_product(1int, (t), 1int, (b));
    assert((t) * (b) == t * b) by (nonlinear_arith);
    assert((t * b) == (1int * (t * b)));
    assert(t == (1int * (t)));
    assert(c == (1int * (c)));
    assert((t * c) == (1int * (t)) * (1int * (c)));
    lemma_coefficient_product(1int, (t), 1int, (c));
    assert((t) * (c) == t * c) by (nonlinear_arith);
    assert((t * c) == (1int * (t * c)));
    assert((21 * (t * c)) == (21int * (1int)) * (1int * (t * c)));
    lemma_coefficient_product(21int, (1int), 1int, (t * c));
    assert((1int) * (t * c) == t * c) by (nonlinear_arith);
    assert((21 * (t * c)) == (21int * (t * c)));
    assert(((t * b) + (21 * (t * c))) == (1int * (t * b)) + (21int * (t * c)));
    assert(((t * b) + (21 * (t * c))) == ((1int * (t * b)) + (21int * (t * c))));
    assert(((t * e) * ((t * b) + (21 * (t * c)))) == (1int * (t * e)) * ((1int * (t * b)) + (21int * (t * c))));
    lemma_mul_is_distributive_add((1int * (t * e)), (1int * (t * b)), (21int * (t * c)));
    lemma_coefficient_product(1int, (t * e), 1int, (t * b));
    assert((t * e) * (t * b) == t * t * b * e) by (nonlinear_arith);
    lemma_coefficient_product(1int, (t * e), 21int, (t * c));
    assert((t * e) * (t * c) == t * t * c * e) by (nonlinear_arith);
    assert(((t * e) * ((t * b) + (21 * (t * c)))) == ((1int * (t * t * b * e)) + (21int * (t * t * c * e))));
    assert(t == (1int * (t)));
    assert(a == (1int * (a)));
    assert((t * a) == (1int * (t)) * (1int * (a)));
    lemma_coefficient_product(1int, (t), 1int, (a));
    assert((t) * (a) == t * a) by (nonlinear_arith);
    assert((t * a) == (1int * (t * a)));
    assert((3 * (t * a)) == (3int * (1int)) * (1int * (t * a)));
    lemma_coefficient_product(3int, (1int), 1int, (t * a));
    assert((1int) * (t * a) == t * a) by (nonlinear_arith);
    assert((3 * (t * a)) == (3int * (t * a)));
    assert(t == (1int * (t)));
    assert(d == (1int * (d)));
    assert((t * d) == (1int * (t)) * (1int * (d)));
    lemma_coefficient_product(1int, (t), 1int, (d));
    assert((t) * (d) == t * d) by (nonlinear_arith);
    assert((t * d) == (1int * (t * d)));
    assert(((3 * (t * a)) * (t * d)) == (3int * (t * a)) * (1int * (t * d)));
    lemma_coefficient_product(3int, (t * a), 1int, (t * d));
    assert((t * a) * (t * d) == t * t * a * d) by (nonlinear_arith);
    assert(((3 * (t * a)) * (t * d)) == (3int * (t * t * a * d)));
    assert((((t * e) * ((t * b) + (21 * (t * c)))) + ((3 * (t * a)) * (t * d))) == ((1int * (t * t * b * e)) + (21int * (t * t * c * e))) + (3int * (t * t * a * d)));
    assert((((t * e) * ((t * b) + (21 * (t * c)))) + ((3 * (t * a)) * (t * d))) == ((3int * (t * t * a * d)) + ((1int * (t * t * b * e)) + (21int * (t * t * c * e)))));
    assert(t == (1int * (t)));
    assert(t == (1int * (t)));
    assert((t * t) == (1int * (t)) * (1int * (t)));
    lemma_coefficient_product(1int, (t), 1int, (t));
    assert((t) * (t) == t * t) by (nonlinear_arith);
    assert((t * t) == (1int * (t * t)));
    assert(e == (1int * (e)));
    assert(b == (1int * (b)));
    assert(c == (1int * (c)));
    assert((21 * c) == (21int * (1int)) * (1int * (c)));
    lemma_coefficient_product(21int, (1int), 1int, (c));
    assert((1int) * (c) == c) by (nonlinear_arith);
    assert((21 * c) == (21int * (c)));
    assert((b + (21 * c)) == (1int * (b)) + (21int * (c)));
    assert((b + (21 * c)) == ((1int * (b)) + (21int * (c))));
    assert((e * (b + (21 * c))) == (1int * (e)) * ((1int * (b)) + (21int * (c))));
    lemma_mul_is_distributive_add((1int * (e)), (1int * (b)), (21int * (c)));
    lemma_coefficient_product(1int, (e), 1int, (b));
    assert((e) * (b) == b * e) by (nonlinear_arith);
    lemma_coefficient_product(1int, (e), 21int, (c));
    assert((e) * (c) == c * e) by (nonlinear_arith);
    assert((e * (b + (21 * c))) == ((1int * (b * e)) + (21int * (c * e))));
    assert(a == (1int * (a)));
    assert((3 * a) == (3int * (1int)) * (1int * (a)));
    lemma_coefficient_product(3int, (1int), 1int, (a));
    assert((1int) * (a) == a) by (nonlinear_arith);
    assert((3 * a) == (3int * (a)));
    assert(d == (1int * (d)));
    assert(((3 * a) * d) == (3int * (a)) * (1int * (d)));
    lemma_coefficient_product(3int, (a), 1int, (d));
    assert((a) * (d) == a * d) by (nonlinear_arith);
    assert(((3 * a) * d) == (3int * (a * d)));
    assert(((e * (b + (21 * c))) + ((3 * a) * d)) == ((1int * (b * e)) + (21int * (c * e))) + (3int * (a * d)));
    assert(((e * (b + (21 * c))) + ((3 * a) * d)) == ((3int * (a * d)) + ((1int * (b * e)) + (21int * (c * e)))));
    assert(((t * t) * ((e * (b + (21 * c))) + ((3 * a) * d))) == (1int * (t * t)) * ((3int * (a * d)) + ((1int * (b * e)) + (21int * (c * e)))));
    lemma_mul_is_distributive_add((1int * (t * t)), (3int * (a * d)), ((1int * (b * e)) + (21int * (c * e))));
    lemma_mul_is_distributive_add((1int * (t * t)), (1int * (b * e)), (21int * (c * e)));
    lemma_coefficient_product(1int, (t * t), 3int, (a * d));
    assert((t * t) * (a * d) == t * t * a * d) by (nonlinear_arith);
    lemma_coefficient_product(1int, (t * t), 1int, (b * e));
    assert((t * t) * (b * e) == t * t * b * e) by (nonlinear_arith);
    lemma_coefficient_product(1int, (t * t), 21int, (c * e));
    assert((t * t) * (c * e) == t * t * c * e) by (nonlinear_arith);
    assert(((t * t) * ((e * (b + (21 * c))) + ((3 * a) * d))) == ((3int * (t * t * a * d)) + ((1int * (t * t * b * e)) + (21int * (t * t * c * e)))));
}

/// The last stage of the addition formula is homogeneous of degree two.
pub proof fn lemma_combine_homogeneous(t: int, a: int, b: int, c: int, d: int, e: int, f: int)
    ensures
        combine(t * a, t * b, t * c, t * d, t * e, t * f) == (
            (t * t) * combine(a, b, c, d, e, f).0,
            (t * t) * combine(a, b, c, d, e, f).1,
            (t * t) * combine(a, b, c, d, e, f).2,
        ),
{
    lemma_combine_homogeneous_0(t, a, b, c, d, e, f);
    lemma_combine_homogeneous_1(t, a, b, c, d, e, f);
    lemma_combine_homogeneous_2(t, a, b, c, d, e, f);
}

/// The addition polynomials are homogeneous of degree two in each point:
/// scaling the inputs by `k` and `m` scales the output by `(k m)^2`.
pub proof fn lemma_add_polys_homogeneous(k: int, m: int, a: Coords, b: Coords)
    ensures
        add_polys((k * a.0, k * a.1, k * a.2), (m * b.0, m * b.1, m * b.2)) == (
            ((k * m) * (k * m)) * add_polys(a, b).0,
            ((k * m) * (k * m)) * add_polys(a, b).1,
            ((k * m) * (k * m)) * add_polys(a, b).2,
        ),
{
    let (x1, y1, z1) = a;
    let (x2, y2, z2) = b;
    let t = k * m;
    assert((k * x1) * (m * x2) == t * (x1 * x2)) by (nonlinear_arith) requires t == k * m;
    assert((k * y1) * (m * y2) == t * (y1 * y2)) by (nonlinear_arith) requires t == k * m;
    assert((k * z1) * (m * z2) == t * (z1 * z2)) by (nonlinear_arith) requires t == k * m;
    assert((k * x1) * (m * y2) == t * (x1 * y2)) by (nonlinear_arith) requires t == k * m;
    assert((k * y1) * (m * x2) == t * (y1 * x2)) by (nonlinear_arith) requires t == k * m;
    assert((k * y1) * (m * z2) == t * (y1 * z2)) by (nonlinear_arith) requires t == k * m;
    assert((k * z1) * (m * y2) == t * (z1 * y2)) by (nonlinear_arith) requires t == k * m;
    assert((k * x1) * (m * z2) == t * (x1 * z2)) by (nonlinear_arith) requires t == k * m;
    assert((k * z1) * (m * x2) == t * (z1 * x2)) by (nonlinear_arith) requires t == k * m;
    lemma_mul_is_distributive_add(t, x1 * y2, y1 * x2);
    lemma_mul_is_distributive_add(t, y1 * z2, z1 * y2);
    lemma_mul_is_distributive_add(t, x1 * z2, z1 * x2);
    lemma_combine_homogeneous(t, x1 * x2, y1 * y2, z1 * z2, x1 * y2 + y1 * x2, y1 * z2 + z1 * y2, x1 * z2 + z1 * x2);
}

} // verus!
