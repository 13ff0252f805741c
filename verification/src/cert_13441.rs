//! A Lucas certificate that 13441 is prime.
use vstd::prelude::*;
use crate::prime::{is_prime, pow_mod, power_of, product, lucas_certificate, lemma_lucas, lemma_pow_mod_step, lemma_pow_mod_zero, lemma_product_push};

use crate::cert_small::lemma_small_primes;
verus! {

proof fn lemma_certificate_full_0()
    requires
        pow_mod(11int, 0nat, 13441int) == 1int,
    ensures
        pow_mod(11int, 3360nat, 13441int) == 9100int,
{
    let m: int = 13441int;
    lemma_pow_mod_step(11int, 1nat, m, 0nat, 1int, 0int, 1int, 0int, 11int);
    lemma_pow_mod_step(11int, 3nat, m, 1nat, 11int, 0int, 121int, 0int, 1331int);
    lemma_pow_mod_step(11int, 6nat, m, 3nat, 1331int, 131int, 10790int, 0int, 10790int);
    lemma_pow_mod_step(11int, 13nat, m, 6nat, 10790int, 8661int, 11599int, 9int, 6620int);
    lemma_pow_mod_step(11int, 26nat, m, 13nat, 6620int, 3260int, 6740int, 0int, 6740int);
    lemma_pow_mod_step(11int, 52nat, m, 26nat, 6740int, 3379int, 10461int, 0int, 10461int);
    lemma_pow_mod_step(11int, 105nat, m, 52nat, 10461int, 8141int, 9340int, 7int, 8653int);
    lemma_pow_mod_step(11int, 210nat, m, 105nat, 8653int, 5570int, 8039int, 0int, 8039int);
    lemma_pow_mod_step(11int, 420nat, m, 210nat, 8039int, 4808int, 1193int, 0int, 1193int);
    lemma_pow_mod_step(11int, 840nat, m, 420nat, 1193int, 105int, 11944int, 0int, 11944int);
    lemma_pow_mod_step(11int, 1680nat, m, 840nat, 11944int, 10613int, 9803int, 0int, 9803int);
    lemma_pow_mod_step(11int, 3360nat, m, 1680nat, 9803int, 7149int, 9100int, 0int, 9100int);
}

proof fn lemma_certificate_full_1()
    requires
        pow_mod(11int, 3360nat, 13441int) == 9100int,
    ensures
        pow_mod(11int, 13440nat, 13441int) == 1int,
{
    let m: int = 13441int;
    lemma_pow_mod_step(11int, 6720nat, m, 3360nat, 9100int, 6160int, 13440int, 0int, 13440int);
    lemma_pow_mod_step(11int, 13440nat, m, 6720nat, 13440int, 13439int, 1int, 0int, 1int);
}

proof fn lemma_certificate_full()
    ensures
        pow_mod(11int, 13440nat, 13441int) == 1int,
{
    lemma_pow_mod_zero(11int, 13441int);
    lemma_certificate_full_0();
    lemma_certificate_full_1();
}

proof fn lemma_certificate_2_0()
    requires
        pow_mod(11int, 0nat, 13441int) == 1int,
    ensures
        pow_mod(11int, 3360nat, 13441int) == 9100int,
{
    let m: int = 13441int;
    lemma_pow_mod_step(11int, 1nat, m, 0nat, 1int, 0int, 1int, 0int, 11int);
    lemma_pow_mod_step(11int, 3nat, m, 1nat, 11int, 0int, 121int, 0int, 1331int);
    lemma_pow_mod_step(11int, 6nat, m, 3nat, 1331int, 131int, 10790int, 0int, 10790int);
    lemma_pow_mod_step(11int, 13nat, m, 6nat, 10790int, 8661int, 11599int, 9int, 6620int);
    lemma_pow_mod_step(11int, 26nat, m, 13nat, 6620int, 3260int, 6740int, 0int, 6740int);
    lemma_pow_mod_step(11int, 52nat, m, 26nat, 6740int, 3379int, 10461int, 0int, 10461int);
    lemma_pow_mod_step(11int, 105nat, m, 52nat, 10461int, 8141int, 9340int, 7int, 8653int);
    lemma_pow_mod_step(11int, 210nat, m, 105nat, 8653int, 5570int, 8039int, 0int, 8039int);
    lemma_pow_mod_step(11int, 420nat, m, 210nat, 8039int, 4808int, 1193int, 0int, 1193int);
    lemma_pow_mod_step(11int, 840nat, m, 420nat, 1193int, 105int, 11944int, 0int, 11944int);
    lemma_pow_mod_step(11int, 1680nat, m, 840nat, 11944int, 10613int, 9803int, 0int, 9803int);
    lemma_pow_mod_step(11int, 3360nat, m, 1680nat, 9803int, 7149int, 9100int, 0int, 9100int);
}

proof fn lemma_certificate_2_1()
    requires
        pow_mod(11int, 3360nat, 13441int) == 9100int,
    ensures
        pow_mod(11int, 6720nat, 13441int) == 13440int,
{
    let m: int = 13441int;
    lemma_pow_mod_step(11int, 6720nat, m, 3360nat, 9100int, 6160int, 13440int, 0int, 13440int);
}

proof fn lemma_certificate_2()
    ensures
        pow_mod(11int, 6720nat, 13441int) == 13440int,
{
    lemma_pow_mod_zero(11int, 13441int);
    lemma_certificate_2_0();
    lemma_certificate_2_1();
}

proof fn lemma_certificate_3_0()
    requires
        pow_mod(11int, 0nat, 13441int) == 1int,
    ensures
        pow_mod(11int, 2240nat, 13441int) == 646int,
{
    let m: int = 13441int;
    lemma_pow_mod_step(11int, 1nat, m, 0nat, 1int, 0int, 1int, 0int, 11int);
    lemma_pow_mod_step(11int, 2nat, m, 1nat, 11int, 0int, 121int, 0int, 121int);
    lemma_pow_mod_step(11int, 4nat, m, 2nat, 121int, 1int, 1200int, 0int, 1200int);
    lemma_pow_mod_step(11int, 8nat, m, 4nat, 1200int, 107int, 1813int, 0int, 1813int);
    lemma_pow_mod_step(11int, 17nat, m, 8nat, 1813int, 244int, 7365int, 6int, 369int);
    lemma_pow_mod_step(11int, 35nat, m, 17nat, 369int, 10int, 1751int, 1int, 5820int);
    lemma_pow_mod_step(11int, 70nat, m, 35nat, 5820int, 2520int, 1080int, 0int, 1080int);
    lemma_pow_mod_step(11int, 140nat, m, 70nat, 1080int, 86int, 10474int, 0int, 10474int);
    lemma_pow_mod_step(11int, 280nat, m, 140nat, 10474int, 8161int, 12675int, 0int, 12675int);
    lemma_pow_mod_step(11int, 560nat, m, 280nat, 12675int, 11952int, 8793int, 0int, 8793int);
    lemma_pow_mod_step(11int, 1120nat, m, 560nat, 8793int, 5752int, 4217int, 0int, 4217int);
    lemma_pow_mod_step(11int, 2240nat, m, 1120nat, 4217int, 1323int, 646int, 0int, 646int);
}

proof fn lemma_certificate_3_1()
    requires
        pow_mod(11int, 2240nat, 13441int) == 646int,
    ensures
        pow_mod(11int, 4480nat, 13441int) == 645int,
{
    let m: int = 13441int;
    lemma_pow_mod_step(11int, 4480nat, m, 2240nat, 646int, 31int, 645int, 0int, 645int);
}

proof fn lemma_certificate_3()
    ensures
        pow_mod(11int, 4480nat, 13441int) == 645int,
{
    lemma_pow_mod_zero(11int, 13441int);
    lemma_certificate_3_0();
    lemma_certificate_3_1();
}

proof fn lemma_certificate_5_0()
    requires
        pow_mod(11int, 0nat, 13441int) == 1int,
    ensures
        pow_mod(11int, 2688nat, 13441int) == 8733int,
{
    let m: int = 13441int;
    lemma_pow_mod_step(11int, 1nat, m, 0nat, 1int, 0int, 1int, 0int, 11int);
    lemma_pow_mod_step(11int, 2nat, m, 1nat, 11int, 0int, 121int, 0int, 121int);
    lemma_pow_mod_step(11int, 5nat, m, 2nat, 121int, 1int, 1200int, 0int, 13200int);
    lemma_pow_mod_step(11int, 10nat, m, 5nat, 13200int, 12963int, 4317int, 0int, 4317int);
    lemma_pow_mod_step(11int, 21nat, m, 10nat, 4317int, 1386int, 7263int, 5int, 12688int);
    lemma_pow_mod_step(11int, 42nat, m, 21nat, 12688int, 11977int, 2487int, 0int, 2487int);
    lemma_pow_mod_step(11int, 84nat, m, 42nat, 2487int, 460int, 2309int, 0int, 2309int);
    lemma_pow_mod_step(11int, 168nat, m, 84nat, 2309int, 396int, 8845int, 0int, 8845int);
    lemma_pow_mod_step(11int, 336nat, m, 168nat, 8845int, 5820int, 7405int, 0int, 7405int);
    lemma_pow_mod_step(11int, 672nat, m, 336nat, 7405int, 4079int, 8186int, 0int, 8186int);
    lemma_pow_mod_step(11int, 1344nat, m, 672nat, 8186int, 4985int, 7211int, 0int, 7211int);
    lemma_pow_mod_step(11int, 2688nat, m, 1344nat, 7211int, 3868int, 8733int, 0int, 8733int);
}

proof fn lemma_certificate_5()
    ensures
        pow_mod(11int, 2688nat, 13441int) == 8733int,
{
    lemma_pow_mod_zero(11int, 13441int);
    lemma_certificate_5_0();
}

proof fn lemma_certificate_7_0()
    requires
        pow_mod(11int, 0nat, 13441int) == 1int,
    ensures
        pow_mod(11int, 1920nat, 13441int) == 10662int,
{
    let m: int = 13441int;
    lemma_pow_mod_step(11int, 1nat, m, 0nat, 1int, 0int, 1int, 0int, 11int);
    lemma_pow_mod_step(11int, 3nat, m, 1nat, 11int, 0int, 121int, 0int, 1331int);
    lemma_pow_mod_step(11int, 7nat, m, 3nat, 1331int, 131int, 10790int, 8int, 11162int);
    lemma_pow_mod_step(11int, 15nat, m, 7nat, 11162int, 9269int, 5615int, 4int, 8001int);
    lemma_pow_mod_step(11int, 30nat, m, 15nat, 8001int, 4762int, 9959int, 0int, 9959int);
    lemma_pow_mod_step(11int, 60nat, m, 30nat, 9959int, 7379int, 542int, 0int, 542int);
    lemma_pow_mod_step(11int, 120nat, m, 60nat, 542int, 21int, 11503int, 0int, 11503int);
    lemma_pow_mod_step(11int, 240nat, m, 120nat, 11503int, 9844int, 5805int, 0int, 5805int);
    lemma_pow_mod_step(11int, 480nat, m, 240nat, 5805int, 2507int, 1438int, 0int, 1438int);
    lemma_pow_mod_step(11int, 960nat, m, 480nat, 1438int, 153int, 11371int, 0int, 11371int);
    lemma_pow_mod_step(11int, 1920nat, m, 960nat, 11371int, 9619int, 10662int, 0int, 10662int);
}

proof fn lemma_certificate_7()
    ensures
        pow_mod(11int, 1920nat, 13441int) == 10662int,
{
    lemma_pow_mod_zero(11int, 13441int);
    lemma_certificate_7_0();
}

/// 13441 is prime, by a Lucas certificate with witness 11.
pub proof fn lemma_prime_13441()
    ensures
        is_prime(13441int),
        forall|x: int| 1 <= x < 13441int ==> #[trigger] power_of(11, 13441int, x),
{
    lemma_small_primes();
    let fs: Seq<int> = Seq::empty().push(2int).push(2int).push(2int).push(2int).push(2int).push(2int).push(2int).push(3int).push(5int).push(7int);
    assert(product(Seq::<int>::empty()) == 1);
    lemma_product_push(Seq::<int>::empty(), 2int);
    lemma_product_push(Seq::<int>::empty().push(2int), 2int);
    lemma_product_push(Seq::<int>::empty().push(2int).push(2int), 2int);
    lemma_product_push(Seq::<int>::empty().push(2int).push(2int).push(2int), 2int);
    lemma_product_push(Seq::<int>::empty().push(2int).push(2int).push(2int).push(2int), 2int);
    lemma_product_push(Seq::<int>::empty().push(2int).push(2int).push(2int).push(2int).push(2int), 2int);
    lemma_product_push(Seq::<int>::empty().push(2int).push(2int).push(2int).push(2int).push(2int).push(2int), 2int);
    lemma_product_push(Seq::<int>::empty().push(2int).push(2int).push(2int).push(2int).push(2int).push(2int).push(2int), 3int);
    lemma_product_push(Seq::<int>::empty().push(2int).push(2int).push(2int).push(2int).push(2int).push(2int).push(2int).push(3int), 5int);
    lemma_product_push(Seq::<int>::empty().push(2int).push(2int).push(2int).push(2int).push(2int).push(2int).push(2int).push(3int).push(5int), 7int);
    lemma_certificate_full();
    lemma_certificate_2();
    lemma_certificate_3();
    lemma_certificate_5();
    lemma_certificate_7();
    assert forall|i: int| 0 <= i < fs.len() implies is_prime(#[trigger] fs[i])
        && pow_mod(11, ((13441int - 1) / fs[i]) as nat, 13441int) != 1 by {
        if i == 0 { assert(fs[0] == 2int); } else if i == 1 { assert(fs[1] == 2int); } else if i == 2 { assert(fs[2] == 2int); } else if i == 3 { assert(fs[3] == 2int); } else if i == 4 { assert(fs[4] == 2int); } else if i == 5 { assert(fs[5] == 2int); } else if i == 6 { assert(fs[6] == 2int); } else if i == 7 { assert(fs[7] == 3int); } else if i == 8 { assert(fs[8] == 5int); } else if i == 9 { assert(fs[9] == 7int); }
    }
    lemma_lucas(13441int, 11, fs);
}

} // verus!
