//! A Lucas certificate that 2621 is prime.
use vstd::prelude::*;
use crate::prime::{is_prime, pow_mod, power_of, product, lucas_certificate, lemma_lucas, lemma_pow_mod_step, lemma_pow_mod_zero, lemma_product_push};

use crate::cert_small::lemma_small_primes;
verus! {

proof fn lemma_certificate_full_0()
    requires
        pow_mod(2int, 0nat, 2621int) == 1int,
    ensures
        pow_mod(2int, 2620nat, 2621int) == 1int,
{
    let m: int = 2621int;
    lemma_pow_mod_step(2int, 1nat, m, 0nat, 1int, 0int, 1int, 0int, 2int);
    lemma_pow_mod_step(2int, 2nat, m, 1nat, 2int, 0int, 4int, 0int, 4int);
    lemma_pow_mod_step(2int, 5nat, m, 2nat, 4int, 0int, 16int, 0int, 32int);
    lemma_pow_mod_step(2int, 10nat, m, 5nat, 32int, 0int, 1024int, 0int, 1024int);
    lemma_pow_mod_step(2int, 20nat, m, 10nat, 1024int, 400int, 176int, 0int, 176int);
    lemma_pow_mod_step(2int, 40nat, m, 20nat, 176int, 11int, 2145int, 0int, 2145int);
    lemma_pow_mod_step(2int, 81nat, m, 40nat, 2145int, 1755int, 1170int, 0int, 2340int);
    lemma_pow_mod_step(2int, 163nat, m, 81nat, 2340int, 2089int, 331int, 0int, 662int);
    lemma_pow_mod_step(2int, 327nat, m, 163nat, 662int, 167int, 537int, 0int, 1074int);
    lemma_pow_mod_step(2int, 655nat, m, 327nat, 1074int, 440int, 236int, 0int, 472int);
    lemma_pow_mod_step(2int, 1310nat, m, 655nat, 472int, 84int, 2620int, 0int, 2620int);
    lemma_pow_mod_step(2int, 2620nat, m, 1310nat, 2620int, 2619int, 1int, 0int, 1int);
}

proof fn lemma_certificate_full()
    ensures
        pow_mod(2int, 2620nat, 2621int) == 1int,
{
    lemma_pow_mod_zero(2int, 2621int);
    lemma_certificate_full_0();
}

proof fn lemma_certificate_2_0()
    requires
        pow_mod(2int, 0nat, 2621int) == 1int,
    ensures
        pow_mod(2int, 1310nat, 2621int) == 2620int,
{
    let m: int = 2621int;
    lemma_pow_mod_step(2int, 1nat, m, 0nat, 1int, 0int, 1int, 0int, 2int);
    lemma_pow_mod_step(2int, 2nat, m, 1nat, 2int, 0int, 4int, 0int, 4int);
    lemma_pow_mod_step(2int, 5nat, m, 2nat, 4int, 0int, 16int, 0int, 32int);
    lemma_pow_mod_step(2int, 10nat, m, 5nat, 32int, 0int, 1024int, 0int, 1024int);
    lemma_pow_mod_step(2int, 20nat, m, 10nat, 1024int, 400int, 176int, 0int, 176int);
    lemma_pow_mod_step(2int, 40nat, m, 20nat, 176int, 11int, 2145int, 0int, 2145int);
    lemma_pow_mod_step(2int, 81nat, m, 40nat, 2145int, 1755int, 1170int, 0int, 2340int);
    lemma_pow_mod_step(2int, 163nat, m, 81nat, 2340int, 2089int, 331int, 0int, 662int);
    lemma_pow_mod_step(2int, 327nat, m, 163nat, 662int, 167int, 537int, 0int, 1074int);
    lemma_pow_mod_step(2int, 655nat, m, 327nat, 1074int, 440int, 236int, 0int, 472int);
    lemma_pow_mod_step(2int, 1310nat, m, 655nat, 472int, 84int, 2620int, 0int, 2620int);
}

proof fn lemma_certificate_2()
    ensures
        pow_mod(2int, 1310nat, 2621int) == 2620int,
{
    lemma_pow_mod_zero(2int, 2621int);
    lemma_certificate_2_0();
}

proof fn lemma_certificate_5_0()
    requires
        pow_mod(2int, 0nat, 2621int) == 1int,
    ensures
        pow_mod(2int, 524nat, 2621int) == 1860int,
{
    let m: int = 2621int;
    lemma_pow_mod_step(2int, 1nat, m, 0nat, 1int, 0int, 1int, 0int, 2int);
    lemma_pow_mod_step(2int, 2nat, m, 1nat, 2int, 0int, 4int, 0int, 4int);
    lemma_pow_mod_step(2int, 4nat, m, 2nat, 4int, 0int, 16int, 0int, 16int);
    lemma_pow_mod_step(2int, 8nat, m, 4nat, 16int, 0int, 256int, 0int, 256int);
    lemma_pow_mod_step(2int, 16nat, m, 8nat, 256int, 25int, 11int, 0int, 11int);
    lemma_pow_mod_step(2int, 32nat, m, 16nat, 11int, 0int, 121int, 0int, 121int);
    lemma_pow_mod_step(2int, 65nat, m, 32nat, 121int, 5int, 1536int, 1int, 451int);
    lemma_pow_mod_step(2int, 131nat, m, 65nat, 451int, 77int, 1584int, 1int, 547int);
    lemma_pow_mod_step(2int, 262nat, m, 131nat, 547int, 114int, 415int, 0int, 415int);
    lemma_pow_mod_step(2int, 524nat, m, 262nat, 415int, 65int, 1860int, 0int, 1860int);
}

proof fn lemma_certificate_5()
    ensures
        pow_mod(2int, 524nat, 2621int) == 1860int,
{
    lemma_pow_mod_zero(2int, 2621int);
    lemma_certificate_5_0();
}

proof fn lemma_certificate_131_0()
    requires
        pow_mod(2int, 0nat, 2621int) == 1int,
    ensures
        pow_mod(2int, 20nat, 2621int) == 176int,
{
    let m: int = 2621int;
    lemma_pow_mod_step(2int, 1nat, m, 0nat, 1int, 0int, 1int, 0int, 2int);
    lemma_pow_mod_step(2int, 2nat, m, 1nat, 2int, 0int, 4int, 0int, 4int);
    lemma_pow_mod_step(2int, 5nat, m, 2nat, 4int, 0int, 16int, 0int, 32int);
    lemma_pow_mod_step(2int, 10nat, m, 5nat, 32int, 0int, 1024int, 0int, 1024int);
    lemma_pow_mod_step(2int, 20nat, m, 10nat, 1024int, 400int, 176int, 0int, 176int);
}

proof fn lemma_certificate_131()
    ensures
        pow_mod(2int, 20nat, 2621int) == 176int,
{
    lemma_pow_mod_zero(2int, 2621int);
    lemma_certificate_131_0();
}

/// 2621 is prime, by a Lucas certificate with witness 2.
pub proof fn lemma_prime_2621()
    ensures
        is_prime(2621int),
        forall|x: int| 1 <= x < 2621int ==> #[trigger] power_of(2, 2621int, x),
{
    lemma_small_primes();
    let fs: Seq<int> = Seq::empty().push(2int).push(2int).push(5int).push(131int);
    assert(product(Seq::<int>::empty()) == 1);
    lemma_product_push(Seq::<int>::empty(), 2int);
    lemma_product_push(Seq::<int>::empty().push(2int), 2int);
    lemma_product_push(Seq::<int>::empty().push(2int).push(2int), 5int);
    lemma_product_push(Seq::<int>::empty().push(2int).push(2int).push(5int), 131int);
    lemma_certificate_full();
    lemma_certificate_2();
    lemma_certificate_5();
    lemma_certificate_131();
    assert forall|i: int| 0 <= i < fs.len() implies is_prime(#[trigger] fs[i])
        && pow_mod(2, ((2621int - 1) / fs[i]) as nat, 2621int) != 1 by {
        if i == 0 { assert(fs[0] == 2int); } else if i == 1 { assert(fs[1] == 2int); } else if i == 2 { assert(fs[2] == 5int); } else if i == 3 { assert(fs[3] == 131int); }
    }
    lemma_lucas(2621int, 2, fs);
}

} // verus!
