//! A Lucas certificate that 2657 is prime.
use vstd::prelude::*;
use crate::prime::{is_prime, pow_mod, power_of, product, lucas_certificate, lemma_lucas, lemma_pow_mod_step, lemma_pow_mod_zero, lemma_product_push};

use crate::cert_small::lemma_small_primes;
verus! {

proof fn lemma_certificate_full_0()
    requires
        pow_mod(3int, 0nat, 2657int) == 1int,
    ensures
        pow_mod(3int, 2656nat, 2657int) == 1int,
{
    let m: int = 2657int;
    lemma_pow_mod_step(3int, 1nat, m, 0nat, 1int, 0int, 1int, 0int, 3int);
    lemma_pow_mod_step(3int, 2nat, m, 1nat, 3int, 0int, 9int, 0int, 9int);
    lemma_pow_mod_step(3int, 5nat, m, 2nat, 9int, 0int, 81int, 0int, 243int);
    lemma_pow_mod_step(3int, 10nat, m, 5nat, 243int, 22int, 595int, 0int, 595int);
    lemma_pow_mod_step(3int, 20nat, m, 10nat, 595int, 133int, 644int, 0int, 644int);
    lemma_pow_mod_step(3int, 41nat, m, 20nat, 644int, 156int, 244int, 0int, 732int);
    lemma_pow_mod_step(3int, 83nat, m, 41nat, 732int, 201int, 1767int, 1int, 2644int);
    lemma_pow_mod_step(3int, 166nat, m, 83nat, 2644int, 2631int, 169int, 0int, 169int);
    lemma_pow_mod_step(3int, 332nat, m, 166nat, 169int, 10int, 1991int, 0int, 1991int);
    lemma_pow_mod_step(3int, 664nat, m, 332nat, 1991int, 1491int, 2494int, 0int, 2494int);
    lemma_pow_mod_step(3int, 1328nat, m, 664nat, 2494int, 2340int, 2656int, 0int, 2656int);
    lemma_pow_mod_step(3int, 2656nat, m, 1328nat, 2656int, 2655int, 1int, 0int, 1int);
}

proof fn lemma_certificate_full()
    ensures
        pow_mod(3int, 2656nat, 2657int) == 1int,
{
    lemma_pow_mod_zero(3int, 2657int);
    lemma_certificate_full_0();
}

proof fn lemma_certificate_2_0()
    requires
        pow_mod(3int, 0nat, 2657int) == 1int,
    ensures
        pow_mod(3int, 1328nat, 2657int) == 2656int,
{
    let m: int = 2657int;
    lemma_pow_mod_step(3int, 1nat, m, 0nat, 1int, 0int, 1int, 0int, 3int);
    lemma_pow_mod_step(3int, 2nat, m, 1nat, 3int, 0int, 9int, 0int, 9int);
    lemma_pow_mod_step(3int, 5nat, m, 2nat, 9int, 0int, 81int, 0int, 243int);
    lemma_pow_mod_step(3int, 10nat, m, 5nat, 243int, 22int, 595int, 0int, 595int);
    lemma_pow_mod_step(3int, 20nat, m, 10nat, 595int, 133int, 644int, 0int, 644int);
    lemma_pow_mod_step(3int, 41nat, m, 20nat, 644int, 156int, 244int, 0int, 732int);
    lemma_pow_mod_step(3int, 83nat, m, 41nat, 732int, 201int, 1767int, 1int, 2644int);
    lemma_pow_mod_step(3int, 166nat, m, 83nat, 2644int, 2631int, 169int, 0int, 169int);
    lemma_pow_mod_step(3int, 332nat, m, 166nat, 169int, 10int, 1991int, 0int, 1991int);
    lemma_pow_mod_step(3int, 664nat, m, 332nat, 1991int, 1491int, 2494int, 0int, 2494int);
    lemma_pow_mod_step(3int, 1328nat, m, 664nat, 2494int, 2340int, 2656int, 0int, 2656int);
}

proof fn lemma_certificate_2()
    ensures
        pow_mod(3int, 1328nat, 2657int) == 2656int,
{
    lemma_pow_mod_zero(3int, 2657int);
    lemma_certificate_2_0();
}

proof fn lemma_certificate_83_0()
    requires
        pow_mod(3int, 0nat, 2657int) == 1int,
    ensures
        pow_mod(3int, 32nat, 2657int) == 2491int,
{
    let m: int = 2657int;
    lemma_pow_mod_step(3int, 1nat, m, 0nat, 1int, 0int, 1int, 0int, 3int);
    lemma_pow_mod_step(3int, 2nat, m, 1nat, 3int, 0int, 9int, 0int, 9int);
    lemma_pow_mod_step(3int, 4nat, m, 2nat, 9int, 0int, 81int, 0int, 81int);
    lemma_pow_mod_step(3int, 8nat, m, 4nat, 81int, 2int, 1247int, 0int, 1247int);
    lemma_pow_mod_step(3int, 16nat, m, 8nat, 1247int, 585int, 664int, 0int, 664int);
    lemma_pow_mod_step(3int, 32nat, m, 16nat, 664int, 165int, 2491int, 0int, 2491int);
}

proof fn lemma_certificate_83()
    ensures
        pow_mod(3int, 32nat, 2657int) == 2491int,
{
    lemma_pow_mod_zero(3int, 2657int);
    lemma_certificate_83_0();
}

/// 2657 is prime, by a Lucas certificate with witness 3.
pub proof fn lemma_prime_2657()
    ensures
        is_prime(2657int),
        forall|x: int| 1 <= x < 2657int ==> #[trigger] power_of(3, 2657int, x),
{
    lemma_small_primes();
    let fs: Seq<int> = Seq::empty().push(2int).push(2int).push(2int).push(2int).push(2int).push(83int);
    assert(product(Seq::<int>::empty()) == 1);
    lemma_product_push(Seq::<int>::empty(), 2int);
    lemma_product_push(Seq::<int>::empty().push(2int), 2int);
    lemma_product_push(Seq::<int>::empty().push(2int).push(2int), 2int);
    lemma_product_push(Seq::<int>::empty().push(2int).push(2int).push(2int), 2int);
    lemma_product_push(Seq::<int>::empty().push(2int).push(2int).push(2int).push(2int), 2int);
    lemma_product_push(Seq::<int>::empty().push(2int).push(2int).push(2int).push(2int).push(2int), 83int);
    lemma_certificate_full();
    lemma_certificate_2();
    lemma_certificate_83();
    assert forall|i: int| 0 <= i < fs.len() implies is_prime(#[trigger] fs[i])
        && pow_mod(3, ((2657int - 1) / fs[i]) as nat, 2657int) != 1 by {
        if i == 0 { assert(fs[0] == 2int); } else if i == 1 { assert(fs[1] == 2int); } else if i == 2 { assert(fs[2] == 2int); } else if i == 3 { assert(fs[3] == 2int); } else if i == 4 { assert(fs[4] == 2int); } else if i == 5 { assert(fs[5] == 83int); }
    }
    lemma_lucas(2657int, 3, fs);
}

} // verus!
