//! A Lucas certificate that 20113 is prime.
use vstd::prelude::*;
use crate::prime::{is_prime, pow_mod, power_of, product, lucas_certificate, lemma_lucas, lemma_pow_mod_step, lemma_pow_mod_zero, lemma_product_push};

use crate::cert_small::lemma_small_primes;
verus! {

proof fn lemma_certificate_full_0()
    requires
        pow_mod(10int, 0nat, 20113int) == 1int,
    ensures
        pow_mod(10int, 2514nat, 20113int) == 19977int,
{
    let m: int = 20113int;
    lemma_pow_mod_step(10int, 1nat, m, 0nat, 1int, 0int, 1int, 0int, 10int);
    lemma_pow_mod_step(10int, 2nat, m, 1nat, 10int, 0int, 100int, 0int, 100int);
    lemma_pow_mod_step(10int, 4nat, m, 2nat, 100int, 0int, 10000int, 0int, 10000int);
    lemma_pow_mod_step(10int, 9nat, m, 4nat, 10000int, 4971int, 18277int, 9int, 1753int);
    lemma_pow_mod_step(10int, 19nat, m, 9nat, 1753int, 152int, 15833int, 7int, 17539int);
    lemma_pow_mod_step(10int, 39nat, m, 19nat, 17539int, 15294int, 8299int, 4int, 2538int);
    lemma_pow_mod_step(10int, 78nat, m, 39nat, 2538int, 320int, 5284int, 0int, 5284int);
    lemma_pow_mod_step(10int, 157nat, m, 78nat, 5284int, 1388int, 3812int, 1int, 18007int);
    lemma_pow_mod_step(10int, 314nat, m, 157nat, 18007int, 16121int, 10376int, 0int, 10376int);
    lemma_pow_mod_step(10int, 628nat, m, 314nat, 10376int, 5352int, 16600int, 0int, 16600int);
    lemma_pow_mod_step(10int, 1257nat, m, 628nat, 16600int, 13700int, 11900int, 5int, 18435int);
    lemma_pow_mod_step(10int, 2514nat, m, 1257nat, 18435int, 16896int, 19977int, 0int, 19977int);
}

proof fn lemma_certificate_full_1()
    requires
        pow_mod(10int, 2514nat, 20113int) == 19977int,
    ensures
        pow_mod(10int, 20112nat, 20113int) == 1int,
{
    let m: int = 20113int;
    lemma_pow_mod_step(10int, 5028nat, m, 2514nat, 19977int, 19841int, 18496int, 0int, 18496int);
    lemma_pow_mod_step(10int, 10056nat, m, 5028nat, 18496int, 17008int, 20112int, 0int, 20112int);
    lemma_pow_mod_step(10int, 20112nat, m, 10056nat, 20112int, 20111int, 1int, 0int, 1int);
}

proof fn lemma_certificate_full()
    ensures
        pow_mod(10int, 20112nat, 20113int) == 1int,
{
    lemma_pow_mod_zero(10int, 20113int);
    lemma_certificate_full_0();
    lemma_certificate_full_1();
}

proof fn lemma_certificate_2_0()
    requires
        pow_mod(10int, 0nat, 20113int) == 1int,
    ensures
        pow_mod(10int, 2514nat, 20113int) == 19977int,
{
    let m: int = 20113int;
    lemma_pow_mod_step(10int, 1nat, m, 0nat, 1int, 0int, 1int, 0int, 10int);
    lemma_pow_mod_step(10int, 2nat, m, 1nat, 10int, 0int, 100int, 0int, 100int);
    lemma_pow_mod_step(10int, 4nat, m, 2nat, 100int, 0int, 10000int, 0int, 10000int);
    lemma_pow_mod_step(10int, 9nat, m, 4nat, 10000int, 4971int, 18277int, 9int, 1753int);
    lemma_pow_mod_step(10int, 19nat, m, 9nat, 1753int, 152int, 15833int, 7int, 17539int);
    lemma_pow_mod_step(10int, 39nat, m, 19nat, 17539int, 15294int, 8299int, 4int, 2538int);
    lemma_pow_mod_step(10int, 78nat, m, 39nat, 2538int, 320int, 5284int, 0int, 5284int);
    lemma_pow_mod_step(10int, 157nat, m, 78nat, 5284int, 1388int, 3812int, 1int, 18007int);
    lemma_pow_mod_step(10int, 314nat, m, 157nat, 18007int, 16121int, 10376int, 0int, 10376int);
    lemma_pow_mod_step(10int, 628nat, m, 314nat, 10376int, 5352int, 16600int, 0int, 16600int);
    lemma_pow_mod_step(10int, 1257nat, m, 628nat, 16600int, 13700int, 11900int, 5int, 18435int);
    lemma_pow_mod_step(10int, 2514nat, m, 1257nat, 18435int, 16896int, 19977int, 0int, 19977int);
}

proof fn lemma_certificate_2_1()
    requires
        pow_mod(10int, 2514nat, 20113int) == 19977int,
    ensures
        pow_mod(10int, 10056nat, 20113int) == 20112int,
{
    let m: int = 20113int;
    lemma_pow_mod_step(10int, 5028nat, m, 2514nat, 19977int, 19841int, 18496int, 0int, 18496int);
    lemma_pow_mod_step(10int, 10056nat, m, 5028nat, 18496int, 17008int, 20112int, 0int, 20112int);
}

proof fn lemma_certificate_2()
    ensures
        pow_mod(10int, 10056nat, 20113int) == 20112int,
{
    lemma_pow_mod_zero(10int, 20113int);
    lemma_certificate_2_0();
    lemma_certificate_2_1();
}

proof fn lemma_certificate_3_0()
    requires
        pow_mod(10int, 0nat, 20113int) == 1int,
    ensures
        pow_mod(10int, 3352nat, 20113int) == 5473int,
{
    let m: int = 20113int;
    lemma_pow_mod_step(10int, 1nat, m, 0nat, 1int, 0int, 1int, 0int, 10int);
    lemma_pow_mod_step(10int, 3nat, m, 1nat, 10int, 0int, 100int, 0int, 1000int);
    lemma_pow_mod_step(10int, 6nat, m, 3nat, 1000int, 49int, 14463int, 0int, 14463int);
    lemma_pow_mod_step(10int, 13nat, m, 6nat, 14463int, 10400int, 3169int, 1int, 11577int);
    lemma_pow_mod_step(10int, 26nat, m, 13nat, 11577int, 6663int, 14010int, 0int, 14010int);
    lemma_pow_mod_step(10int, 52nat, m, 26nat, 14010int, 9758int, 17446int, 0int, 17446int);
    lemma_pow_mod_step(10int, 104nat, m, 52nat, 17446int, 15132int, 13000int, 0int, 13000int);
    lemma_pow_mod_step(10int, 209nat, m, 104nat, 13000int, 8402int, 10574int, 5int, 5175int);
    lemma_pow_mod_step(10int, 419nat, m, 209nat, 5175int, 1331int, 10222int, 5int, 1655int);
    lemma_pow_mod_step(10int, 838nat, m, 419nat, 1655int, 136int, 3657int, 0int, 3657int);
    lemma_pow_mod_step(10int, 1676nat, m, 838nat, 3657int, 664int, 18617int, 0int, 18617int);
    lemma_pow_mod_step(10int, 3352nat, m, 1676nat, 18617int, 17232int, 5473int, 0int, 5473int);
}

proof fn lemma_certificate_3_1()
    requires
        pow_mod(10int, 3352nat, 20113int) == 5473int,
    ensures
        pow_mod(10int, 6704nat, 20113int) == 5472int,
{
    let m: int = 20113int;
    lemma_pow_mod_step(10int, 6704nat, m, 3352nat, 5473int, 1489int, 5472int, 0int, 5472int);
}

proof fn lemma_certificate_3()
    ensures
        pow_mod(10int, 6704nat, 20113int) == 5472int,
{
    lemma_pow_mod_zero(10int, 20113int);
    lemma_certificate_3_0();
    lemma_certificate_3_1();
}

proof fn lemma_certificate_419_0()
    requires
        pow_mod(10int, 0nat, 20113int) == 1int,
    ensures
        pow_mod(10int, 48nat, 20113int) == 4141int,
{
    let m: int = 20113int;
    lemma_pow_mod_step(10int, 1nat, m, 0nat, 1int, 0int, 1int, 0int, 10int);
    lemma_pow_mod_step(10int, 3nat, m, 1nat, 10int, 0int, 100int, 0int, 1000int);
    lemma_pow_mod_step(10int, 6nat, m, 3nat, 1000int, 49int, 14463int, 0int, 14463int);
    lemma_pow_mod_step(10int, 12nat, m, 6nat, 14463int, 10400int, 3169int, 0int, 3169int);
    lemma_pow_mod_step(10int, 24nat, m, 12nat, 3169int, 499int, 6174int, 0int, 6174int);
    lemma_pow_mod_step(10int, 48nat, m, 24nat, 6174int, 1895int, 4141int, 0int, 4141int);
}

proof fn lemma_certificate_419()
    ensures
        pow_mod(10int, 48nat, 20113int) == 4141int,
{
    lemma_pow_mod_zero(10int, 20113int);
    lemma_certificate_419_0();
}

/// 20113 is prime, by a Lucas certificate with witness 10.
pub proof fn lemma_prime_20113()
    ensures
        is_prime(20113int),
        forall|x: int| 1 <= x < 20113int ==> #[trigger] power_of(10, 20113int, x),
{
    lemma_small_primes();
    let fs: Seq<int> = Seq::empty().push(2int).push(2int).push(2int).push(2int).push(3int).push(419int);
    assert(product(Seq::<int>::empty()) == 1);
    lemma_product_push(Seq::<int>::empty(), 2int);
    lemma_product_push(Seq::<int>::empty().push(2int), 2int);
    lemma_product_push(Seq::<int>::empty().push(2int).push(2int), 2int);
    lemma_product_push(Seq::<int>::empty().push(2int).push(2int).push(2int), 2int);
    lemma_product_push(Seq::<int>::empty().push(2int).push(2int).push(2int).push(2int), 3int);
    lemma_product_push(Seq::<int>::empty().push(2int).push(2int).push(2int).push(2int).push(3int), 419int);
    lemma_certificate_full();
    lemma_certificate_2();
    lemma_certificate_3();
    lemma_certificate_419();
    assert forall|i: int| 0 <= i < fs.len() implies is_prime(#[trigger] fs[i])
        && pow_mod(10, ((20113int - 1) / fs[i]) as nat, 20113int) != 1 by {
        if i == 0 { assert(fs[0] == 2int); } else if i == 1 { assert(fs[1] == 2int); } else if i == 2 { assert(fs[2] == 2int); } else if i == 3 { assert(fs[3] == 2int); } else if i == 4 { assert(fs[4] == 3int); } else if i == 5 { assert(fs[5] == 419int); }
    }
    lemma_lucas(20113int, 10, fs);
}

} // verus!
