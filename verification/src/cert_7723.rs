//! A Lucas certificate that 7723 is prime.
use vstd::prelude::*;
use crate::prime::{is_prime, pow_mod, power_of, product, lucas_certificate, lemma_lucas, lemma_pow_mod_step, lemma_pow_mod_zero, lemma_product_push};

use crate::cert_small::lemma_small_primes;
verus! {

proof fn lemma_certificate_full_0()
    requires
        pow_mod(3int, 0nat, 7723int) == 1int,
    ensures
        pow_mod(3int, 3861nat, 7723int) == 7722int,
{
    let m: int = 7723int;
    lemma_pow_mod_step(3int, 1nat, m, 0nat, 1int, 0int, 1int, 0int, 3int);
    lemma_pow_mod_step(3int, 3nat, m, 1nat, 3int, 0int, 9int, 0int, 27int);
    lemma_pow_mod_step(3int, 7nat, m, 3nat, 27int, 0int, 729int, 0int, 2187int);
    lemma_pow_mod_step(3int, 15nat, m, 7nat, 2187int, 619int, 2432int, 0int, 7296int);
    lemma_pow_mod_step(3int, 30nat, m, 15nat, 7296int, 6892int, 4700int, 0int, 4700int);
    lemma_pow_mod_step(3int, 60nat, m, 30nat, 4700int, 2860int, 2220int, 0int, 2220int);
    lemma_pow_mod_step(3int, 120nat, m, 60nat, 2220int, 638int, 1126int, 0int, 1126int);
    lemma_pow_mod_step(3int, 241nat, m, 120nat, 1126int, 164int, 1304int, 0int, 3912int);
    lemma_pow_mod_step(3int, 482nat, m, 241nat, 3912int, 1981int, 4481int, 0int, 4481int);
    lemma_pow_mod_step(3int, 965nat, m, 482nat, 4481int, 2599int, 7284int, 2int, 6406int);
    lemma_pow_mod_step(3int, 1930nat, m, 965nat, 6406int, 5313int, 4537int, 0int, 4537int);
    lemma_pow_mod_step(3int, 3861nat, m, 1930nat, 4537int, 2665int, 2574int, 0int, 7722int);
}

proof fn lemma_certificate_full_1()
    requires
        pow_mod(3int, 3861nat, 7723int) == 7722int,
    ensures
        pow_mod(3int, 7722nat, 7723int) == 1int,
{
    let m: int = 7723int;
    lemma_pow_mod_step(3int, 7722nat, m, 3861nat, 7722int, 7721int, 1int, 0int, 1int);
}

proof fn lemma_certificate_full()
    ensures
        pow_mod(3int, 7722nat, 7723int) == 1int,
{
    lemma_pow_mod_zero(3int, 7723int);
    lemma_certificate_full_0();
    lemma_certificate_full_1();
}

proof fn lemma_certificate_2_0()
    requires
        pow_mod(3int, 0nat, 7723int) == 1int,
    ensures
        pow_mod(3int, 3861nat, 7723int) == 7722int,
{
    let m: int = 7723int;
    lemma_pow_mod_step(3int, 1nat, m, 0nat, 1int, 0int, 1int, 0int, 3int);
    lemma_pow_mod_step(3int, 3nat, m, 1nat, 3int, 0int, 9int, 0int, 27int);
    lemma_pow_mod_step(3int, 7nat, m, 3nat, 27int, 0int, 729int, 0int, 2187int);
    lemma_pow_mod_step(3int, 15nat, m, 7nat, 2187int, 619int, 2432int, 0int, 7296int);
    lemma_pow_mod_step(3int, 30nat, m, 15nat, 7296int, 6892int, 4700int, 0int, 4700int);
    lemma_pow_mod_step(3int, 60nat, m, 30nat, 4700int, 2860int, 2220int, 0int, 2220int);
    lemma_pow_mod_step(3int, 120nat, m, 60nat, 2220int, 638int, 1126int, 0int, 1126int);
    lemma_pow_mod_step(3int, 241nat, m, 120nat, 1126int, 164int, 1304int, 0int, 3912int);
    lemma_pow_mod_step(3int, 482nat, m, 241nat, 3912int, 1981int, 4481int, 0int, 4481int);
    lemma_pow_mod_step(3int, 965nat, m, 482nat, 4481int, 2599int, 7284int, 2int, 6406int);
    lemma_pow_mod_step(3int, 1930nat, m, 965nat, 6406int, 5313int, 4537int, 0int, 4537int);
    lemma_pow_mod_step(3int, 3861nat, m, 1930nat, 4537int, 2665int, 2574int, 0int, 7722int);
}

proof fn lemma_certificate_2()
    ensures
        pow_mod(3int, 3861nat, 7723int) == 7722int,
{
    lemma_pow_mod_zero(3int, 7723int);
    lemma_certificate_2_0();
}

proof fn lemma_certificate_3_0()
    requires
        pow_mod(3int, 0nat, 7723int) == 1int,
    ensures
        pow_mod(3int, 2574nat, 7723int) == 917int,
{
    let m: int = 7723int;
    lemma_pow_mod_step(3int, 1nat, m, 0nat, 1int, 0int, 1int, 0int, 3int);
    lemma_pow_mod_step(3int, 2nat, m, 1nat, 3int, 0int, 9int, 0int, 9int);
    lemma_pow_mod_step(3int, 5nat, m, 2nat, 9int, 0int, 81int, 0int, 243int);
    lemma_pow_mod_step(3int, 10nat, m, 5nat, 243int, 7int, 4988int, 0int, 4988int);
    lemma_pow_mod_step(3int, 20nat, m, 10nat, 4988int, 3221int, 4361int, 0int, 4361int);
    lemma_pow_mod_step(3int, 40nat, m, 20nat, 4361int, 2462int, 4295int, 0int, 4295int);
    lemma_pow_mod_step(3int, 80nat, m, 40nat, 4295int, 2388int, 4501int, 0int, 4501int);
    lemma_pow_mod_step(3int, 160nat, m, 80nat, 4501int, 2623int, 1572int, 0int, 1572int);
    lemma_pow_mod_step(3int, 321nat, m, 160nat, 1572int, 319int, 7547int, 2int, 7195int);
    lemma_pow_mod_step(3int, 643nat, m, 321nat, 7195int, 6703int, 756int, 0int, 2268int);
    lemma_pow_mod_step(3int, 1287nat, m, 643nat, 2268int, 666int, 306int, 0int, 918int);
    lemma_pow_mod_step(3int, 2574nat, m, 1287nat, 918int, 109int, 917int, 0int, 917int);
}

proof fn lemma_certificate_3()
    ensures
        pow_mod(3int, 2574nat, 7723int) == 917int,
{
    lemma_pow_mod_zero(3int, 7723int);
    lemma_certificate_3_0();
}

proof fn lemma_certificate_11_0()
    requires
        pow_mod(3int, 0nat, 7723int) == 1int,
    ensures
        pow_mod(3int, 702nat, 7723int) == 2429int,
{
    let m: int = 7723int;
    lemma_pow_mod_step(3int, 1nat, m, 0nat, 1int, 0int, 1int, 0int, 3int);
    lemma_pow_mod_step(3int, 2nat, m, 1nat, 3int, 0int, 9int, 0int, 9int);
    lemma_pow_mod_step(3int, 5nat, m, 2nat, 9int, 0int, 81int, 0int, 243int);
    lemma_pow_mod_step(3int, 10nat, m, 5nat, 243int, 7int, 4988int, 0int, 4988int);
    lemma_pow_mod_step(3int, 21nat, m, 10nat, 4988int, 3221int, 4361int, 1int, 5360int);
    lemma_pow_mod_step(3int, 43nat, m, 21nat, 5360int, 3720int, 40int, 0int, 120int);
    lemma_pow_mod_step(3int, 87nat, m, 43nat, 120int, 1int, 6677int, 2int, 4585int);
    lemma_pow_mod_step(3int, 175nat, m, 87nat, 4585int, 2722int, 219int, 0int, 657int);
    lemma_pow_mod_step(3int, 351nat, m, 175nat, 657int, 55int, 6884int, 2int, 5206int);
    lemma_pow_mod_step(3int, 702nat, m, 351nat, 5206int, 3509int, 2429int, 0int, 2429int);
}

proof fn lemma_certificate_11()
    ensures
        pow_mod(3int, 702nat, 7723int) == 2429int,
{
    lemma_pow_mod_zero(3int, 7723int);
    lemma_certificate_11_0();
}

proof fn lemma_certificate_13_0()
    requires
        pow_mod(3int, 0nat, 7723int) == 1int,
    ensures
        pow_mod(3int, 594nat, 7723int) == 2889int,
{
    let m: int = 7723int;
    lemma_pow_mod_step(3int, 1nat, m, 0nat, 1int, 0int, 1int, 0int, 3int);
    lemma_pow_mod_step(3int, 2nat, m, 1nat, 3int, 0int, 9int, 0int, 9int);
    lemma_pow_mod_step(3int, 4nat, m, 2nat, 9int, 0int, 81int, 0int, 81int);
    lemma_pow_mod_step(3int, 9nat, m, 4nat, 81int, 0int, 6561int, 2int, 4237int);
    lemma_pow_mod_step(3int, 18nat, m, 9nat, 4237int, 2324int, 3917int, 0int, 3917int);
    lemma_pow_mod_step(3int, 37nat, m, 18nat, 3917int, 1986int, 5011int, 1int, 7310int);
    lemma_pow_mod_step(3int, 74nat, m, 37nat, 7310int, 6919int, 663int, 0int, 663int);
    lemma_pow_mod_step(3int, 148nat, m, 74nat, 663int, 56int, 7081int, 0int, 7081int);
    lemma_pow_mod_step(3int, 297nat, m, 148nat, 7081int, 6492int, 2845int, 1int, 812int);
    lemma_pow_mod_step(3int, 594nat, m, 297nat, 812int, 85int, 2889int, 0int, 2889int);
}

proof fn lemma_certificate_13()
    ensures
        pow_mod(3int, 594nat, 7723int) == 2889int,
{
    lemma_pow_mod_zero(3int, 7723int);
    lemma_certificate_13_0();
}

/// 7723 is prime, by a Lucas certificate with witness 3.
pub proof fn lemma_prime_7723()
    ensures
        is_prime(7723int),
        forall|x: int| 1 <= x < 7723int ==> #[trigger] power_of(3, 7723int, x),
{
    lemma_small_primes();
    let fs: Seq<int> = Seq::empty().push(2int).push(3int).push(3int).push(3int).push(11int).push(13int);
    assert(product(Seq::<int>::empty()) == 1);
    lemma_product_push(Seq::<int>::empty(), 2int);
    lemma_product_push(Seq::<int>::empty().push(2int), 3int);
    lemma_product_push(Seq::<int>::empty().push(2int).push(3int), 3int);
    lemma_product_push(Seq::<int>::empty().push(2int).push(3int).push(3int), 3int);
    lemma_product_push(Seq::<int>::empty().push(2int).push(3int).push(3int).push(3int), 11int);
    lemma_product_push(Seq::<int>::empty().push(2int).push(3int).push(3int).push(3int).push(11int), 13int);
    lemma_certificate_full();
    lemma_certificate_2();
    lemma_certificate_3();
    lemma_certificate_11();
    lemma_certificate_13();
    assert forall|i: int| 0 <= i < fs.len() implies is_prime(#[trigger] fs[i])
        && pow_mod(3, ((7723int - 1) / fs[i]) as nat, 7723int) != 1 by {
        if i == 0 { assert(fs[0] == 2int); } else if i == 1 { assert(fs[1] == 3int); } else if i == 2 { assert(fs[2] == 3int); } else if i == 3 { assert(fs[3] == 3int); } else if i == 4 { assert(fs[4] == 11int); } else if i == 5 { assert(fs[5] == 13int); }
    }
    lemma_lucas(7723int, 3, fs);
}

} // verus!
