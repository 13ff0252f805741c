//! A Lucas certificate that 1373 is prime.
use vstd::prelude::*;
use crate::prime::{is_prime, pow_mod, power_of, product, lucas_certificate, lemma_lucas, lemma_pow_mod_step, lemma_pow_mod_zero, lemma_product_push};

use crate::cert_small::lemma_small_primes;
verus! {

proof fn lemma_certificate_full_0()
    requires
        pow_mod(2int, 0nat, 1373int) == 1int,
    ensures
        pow_mod(2int, 1372nat, 1373int) == 1int,
{
    let m: int = 1373int;
    lemma_pow_mod_step(2int, 1nat, m, 0nat, 1int, 0int, 1int, 0int, 2int);
    lemma_pow_mod_step(2int, 2nat, m, 1nat, 2int, 0int, 4int, 0int, 4int);
    lemma_pow_mod_step(2int, 5nat, m, 2nat, 4int, 0int, 16int, 0int, 32int);
    lemma_pow_mod_step(2int, 10nat, m, 5nat, 32int, 0int, 1024int, 0int, 1024int);
    lemma_pow_mod_step(2int, 21nat, m, 10nat, 1024int, 763int, 977int, 1int, 581int);
    lemma_pow_mod_step(2int, 42nat, m, 21nat, 581int, 245int, 1176int, 0int, 1176int);
    lemma_pow_mod_step(2int, 85nat, m, 42nat, 1176int, 1007int, 365int, 0int, 730int);
    lemma_pow_mod_step(2int, 171nat, m, 85nat, 730int, 388int, 176int, 0int, 352int);
    lemma_pow_mod_step(2int, 343nat, m, 171nat, 352int, 90int, 334int, 0int, 668int);
    lemma_pow_mod_step(2int, 686nat, m, 343nat, 668int, 324int, 1372int, 0int, 1372int);
    lemma_pow_mod_step(2int, 1372nat, m, 686nat, 1372int, 1371int, 1int, 0int, 1int);
}

proof fn lemma_certificate_full()
    ensures
        pow_mod(2int, 1372nat, 1373int) == 1int,
{
    lemma_pow_mod_zero(2int, 1373int);
    lemma_certificate_full_0();
}

proof fn lemma_certificate_2_0()
    requires
        pow_mod(2int, 0nat, 1373int) == 1int,
    ensures
        pow_mod(2int, 686nat, 1373int) == 1372int,
{
    let m: int = 1373int;
    lemma_pow_mod_step(2int, 1nat, m, 0nat, 1int, 0int, 1int, 0int, 2int);
    lemma_pow_mod_step(2int, 2nat, m, 1nat, 2int, 0int, 4int, 0int, 4int);
    lemma_pow_mod_step(2int, 5nat, m, 2nat, 4int, 0int, 16int, 0int, 32int);
    lemma_pow_mod_step(2int, 10nat, m, 5nat, 32int, 0int, 1024int, 0int, 1024int);
    lemma_pow_mod_step(2int, 21nat, m, 10nat, 1024int, 763int, 977int, 1int, 581int);
    lemma_pow_mod_step(2int, 42nat, m, 21nat, 581int, 245int, 1176int, 0int, 1176int);
    lemma_pow_mod_step(2int, 85nat, m, 42nat, 1176int, 1007int, 365int, 0int, 730int);
    lemma_pow_mod_step(2int, 171nat, m, 85nat, 730int, 388int, 176int, 0int, 352int);
    lemma_pow_mod_step(2int, 343nat, m, 171nat, 352int, 90int, 334int, 0int, 668int);
    lemma_pow_mod_step(2int, 686nat, m, 343nat, 668int, 324int, 1372int, 0int, 1372int);
}

proof fn lemma_certificate_2()
    ensures
        pow_mod(2int, 686nat, 1373int) == 1372int,
{
    lemma_pow_mod_zero(2int, 1373int);
    lemma_certificate_2_0();
}

proof fn lemma_certificate_7_0()
    requires
        pow_mod(2int, 0nat, 1373int) == 1int,
    ensures
        pow_mod(2int, 196nat, 1373int) == 333int,
{
    let m: int = 1373int;
    lemma_pow_mod_step(2int, 1nat, m, 0nat, 1int, 0int, 1int, 0int, 2int);
    lemma_pow_mod_step(2int, 3nat, m, 1nat, 2int, 0int, 4int, 0int, 8int);
    lemma_pow_mod_step(2int, 6nat, m, 3nat, 8int, 0int, 64int, 0int, 64int);
    lemma_pow_mod_step(2int, 12nat, m, 6nat, 64int, 2int, 1350int, 0int, 1350int);
    lemma_pow_mod_step(2int, 24nat, m, 12nat, 1350int, 1327int, 529int, 0int, 529int);
    lemma_pow_mod_step(2int, 49nat, m, 24nat, 529int, 203int, 1122int, 1int, 871int);
    lemma_pow_mod_step(2int, 98nat, m, 49nat, 871int, 552int, 745int, 0int, 745int);
    lemma_pow_mod_step(2int, 196nat, m, 98nat, 745int, 404int, 333int, 0int, 333int);
}

proof fn lemma_certificate_7()
    ensures
        pow_mod(2int, 196nat, 1373int) == 333int,
{
    lemma_pow_mod_zero(2int, 1373int);
    lemma_certificate_7_0();
}

/// 1373 is prime, by a Lucas certificate with witness 2.
pub proof fn lemma_prime_1373()
    ensures
        is_prime(1373int),
        forall|x: int| 1 <= x < 1373int ==> #[trigger] power_of(2, 1373int, x),
{
    lemma_small_primes();
    let fs: Seq<int> = Seq::empty().push(2int).push(2int).push(7int).push(7int).push(7int);
    assert(product(Seq::<int>::empty()) == 1);
    lemma_product_push(Seq::<int>::empty(), 2int);
    lemma_product_push(Seq::<int>::empty().push(2int), 2int);
    lemma_product_push(Seq::<int>::empty().push(2int).push(2int), 7int);
    lemma_product_push(Seq::<int>::empty().push(2int).push(2int).push(7int), 7int);
    lemma_product_push(Seq::<int>::empty().push(2int).push(2int).push(7int).push(7int), 7int);
    lemma_certificate_full();
    lemma_certificate_2();
    lemma_certificate_7();
    assert forall|i: int| 0 <= i < fs.len() implies is_prime(#[trigger] fs[i])
        && pow_mod(2, ((1373int - 1) / fs[i]) as nat, 1373int) != 1 by {
        if i == 0 { assert(fs[0] == 2int); } else if i == 1 { assert(fs[1] == 2int); } else if i == 2 { assert(fs[2] == 7int); } else if i == 3 { assert(fs[3] == 7int); } else if i == 4 { assert(fs[4] == 7int); }
    }
    lemma_lucas(1373int, 2, fs);
}

} // verus!
