//! A Lucas certificate that 13331831 is prime.
use vstd::prelude::*;
use crate::prime::{is_prime, pow_mod, power_of, product, lucas_certificate, lemma_lucas, lemma_pow_mod_step, lemma_pow_mod_zero, lemma_product_push};
use crate::cert_1373::lemma_prime_1373;
use crate::cert_small::lemma_small_primes;
verus! {

proof fn lemma_certificate_full_0()
    requires
        pow_mod(13int, 0nat, 13331831int) == 1int,
    ensures
        pow_mod(13int, 3254nat, 13331831int) == 4106094int,
{
    let m: int = 13331831int;
    lemma_pow_mod_step(13int, 1nat, m, 0nat, 1int, 0int, 1int, 0int, 13int);
    lemma_pow_mod_step(13int, 3nat, m, 1nat, 13int, 0int, 169int, 0int, 2197int);
    lemma_pow_mod_step(13int, 6nat, m, 3nat, 2197int, 0int, 4826809int, 0int, 4826809int);
    lemma_pow_mod_step(13int, 12nat, m, 6nat, 4826809int, 1747553int, 3862938int, 0int, 3862938int);
    lemma_pow_mod_step(13int, 25nat, m, 12nat, 3862938int, 1119297int, 11549037int, 11int, 3487340int);
    lemma_pow_mod_step(13int, 50nat, m, 25nat, 3487340int, 912218int, 4064442int, 0int, 4064442int);
    lemma_pow_mod_step(13int, 101nat, m, 50nat, 4064442int, 1239116int, 3669968int, 3int, 7714091int);
    lemma_pow_mod_step(13int, 203nat, m, 101nat, 7714091int, 4463542int, 12350879int, 12int, 579455int);
    lemma_pow_mod_step(13int, 406nat, m, 203nat, 579455int, 25185int, 5933290int, 0int, 5933290int);
    lemma_pow_mod_step(13int, 813nat, m, 406nat, 5933290int, 2640592int, 3940148int, 3int, 11226431int);
    lemma_pow_mod_step(13int, 1627nat, m, 813nat, 11226431int, 9453521int, 8670810int, 8int, 6065882int);
    lemma_pow_mod_step(13int, 3254nat, m, 1627nat, 6065882int, 2759930int, 4106094int, 0int, 4106094int);
}

proof fn lemma_certificate_full_1()
    requires
        pow_mod(13int, 3254nat, 13331831int) == 4106094int,
    ensures
        pow_mod(13int, 13331830nat, 13331831int) == 1int,
{
    let m: int = 13331831int;
    lemma_pow_mod_step(13int, 6509nat, m, 3254nat, 4106094int, 1264643int, 1185503int, 1int, 2079708int);
    lemma_pow_mod_step(13int, 13019nat, m, 6509nat, 2079708int, 324425int, 6093089int, 5int, 12551002int);
    lemma_pow_mod_step(13int, 26038nat, m, 13019nat, 12551002int, 11815905int, 2631949int, 0int, 2631949int);
    lemma_pow_mod_step(13int, 52077nat, m, 26038nat, 2631949int, 519595int, 2810156int, 2int, 9868366int);
    lemma_pow_mod_step(13int, 104154nat, m, 52077nat, 9868366int, 7304671int, 8227355int, 0int, 8227355int);
    lemma_pow_mod_step(13int, 208309nat, m, 104154nat, 8227355int, 5077274int, 11387331int, 11int, 1385162int);
    lemma_pow_mod_step(13int, 416619nat, m, 208309nat, 1385162int, 143916int, 9976048int, 9int, 9702145int);
    lemma_pow_mod_step(13int, 833239nat, m, 416619nat, 9702145int, 7060666int, 11741579int, 11int, 5990386int);
    lemma_pow_mod_step(13int, 1666478nat, m, 833239nat, 5990386int, 2691657int, 8195029int, 0int, 8195029int);
    lemma_pow_mod_step(13int, 3332957nat, m, 1666478nat, 8195029int, 5037455int, 1580736int, 1int, 7217737int);
    lemma_pow_mod_step(13int, 6665915nat, m, 3332957nat, 7217737int, 3907619int, 11280780int, 10int, 13331830int);
    lemma_pow_mod_step(13int, 13331830nat, m, 6665915nat, 13331830int, 13331829int, 1int, 0int, 1int);
}

proof fn lemma_certificate_full()
    ensures
        pow_mod(13int, 13331830nat, 13331831int) == 1int,
{
    lemma_pow_mod_zero(13int, 13331831int);
    lemma_certificate_full_0();
    lemma_certificate_full_1();
}

proof fn lemma_certificate_2_0()
    requires
        pow_mod(13int, 0nat, 13331831int) == 1int,
    ensures
        pow_mod(13int, 3254nat, 13331831int) == 4106094int,
{
    let m: int = 13331831int;
    lemma_pow_mod_step(13int, 1nat, m, 0nat, 1int, 0int, 1int, 0int, 13int);
    lemma_pow_mod_step(13int, 3nat, m, 1nat, 13int, 0int, 169int, 0int, 2197int);
    lemma_pow_mod_step(13int, 6nat, m, 3nat, 2197int, 0int, 4826809int, 0int, 4826809int);
    lemma_pow_mod_step(13int, 12nat, m, 6nat, 4826809int, 1747553int, 3862938int, 0int, 3862938int);
    lemma_pow_mod_step(13int, 25nat, m, 12nat, 3862938int, 1119297int, 11549037int, 11int, 3487340int);
    lemma_pow_mod_step(13int, 50nat, m, 25nat, 3487340int, 912218int, 4064442int, 0int, 4064442int);
    lemma_pow_mod_step(13int, 101nat, m, 50nat, 4064442int, 1239116int, 3669968int, 3int, 7714091int);
    lemma_pow_mod_step(13int, 203nat, m, 101nat, 7714091int, 4463542int, 12350879int, 12int, 579455int);
    lemma_pow_mod_step(13int, 406nat, m, 203nat, 579455int, 25185int, 5933290int, 0int, 5933290int);
    lemma_pow_mod_step(13int, 813nat, m, 406nat, 5933290int, 2640592int, 3940148int, 3int, 11226431int);
    lemma_pow_mod_step(13int, 1627nat, m, 813nat, 11226431int, 9453521int, 8670810int, 8int, 6065882int);
    lemma_pow_mod_step(13int, 3254nat, m, 1627nat, 6065882int, 2759930int, 4106094int, 0int, 4106094int);
}

proof fn lemma_certificate_2_1()
    requires
        pow_mod(13int, 3254nat, 13331831int) == 4106094int,
    ensures
        pow_mod(13int, 6665915nat, 13331831int) == 13331830int,
{
    let m: int = 13331831int;
    lemma_pow_mod_step(13int, 6509nat, m, 3254nat, 4106094int, 1264643int, 1185503int, 1int, 2079708int);
    lemma_pow_mod_step(13int, 13019nat, m, 6509nat, 2079708int, 324425int, 6093089int, 5int, 12551002int);
    lemma_pow_mod_step(13int, 26038nat, m, 13019nat, 12551002int, 11815905int, 2631949int, 0int, 2631949int);
    lemma_pow_mod_step(13int, 52077nat, m, 26038nat, 2631949int, 519595int, 2810156int, 2int, 9868366int);
    lemma_pow_mod_step(13int, 104154nat, m, 52077nat, 9868366int, 7304671int, 8227355int, 0int, 8227355int);
    lemma_pow_mod_step(13int, 208309nat, m, 104154nat, 8227355int, 5077274int, 11387331int, 11int, 1385162int);
    lemma_pow_mod_step(13int, 416619nat, m, 208309nat, 1385162int, 143916int, 9976048int, 9int, 9702145int);
    lemma_pow_mod_step(13int, 833239nat, m, 416619nat, 9702145int, 7060666int, 11741579int, 11int, 5990386int);
    lemma_pow_mod_step(13int, 1666478nat, m, 833239nat, 5990386int, 2691657int, 8195029int, 0int, 8195029int);
    lemma_pow_mod_step(13int, 3332957nat, m, 1666478nat, 8195029int, 5037455int, 1580736int, 1int, 7217737int);
    lemma_pow_mod_step(13int, 6665915nat, m, 3332957nat, 7217737int, 3907619int, 11280780int, 10int, 13331830int);
}

proof fn lemma_certificate_2()
    ensures
        pow_mod(13int, 6665915nat, 13331831int) == 13331830int,
{
    lemma_pow_mod_zero(13int, 13331831int);
    lemma_certificate_2_0();
    lemma_certificate_2_1();
}

proof fn lemma_certificate_5_0()
    requires
        pow_mod(13int, 0nat, 13331831int) == 1int,
    ensures
        pow_mod(13int, 2603nat, 13331831int) == 2346463int,
{
    let m: int = 13331831int;
    lemma_pow_mod_step(13int, 1nat, m, 0nat, 1int, 0int, 1int, 0int, 13int);
    lemma_pow_mod_step(13int, 2nat, m, 1nat, 13int, 0int, 169int, 0int, 169int);
    lemma_pow_mod_step(13int, 5nat, m, 2nat, 169int, 0int, 28561int, 0int, 371293int);
    lemma_pow_mod_step(13int, 10nat, m, 5nat, 371293int, 10340int, 7359309int, 0int, 7359309int);
    lemma_pow_mod_step(13int, 20nat, m, 10nat, 7359309int, 4062414int, 12057447int, 0int, 12057447int);
    lemma_pow_mod_step(13int, 40nat, m, 20nat, 12057447int, 10904880int, 10922529int, 0int, 10922529int);
    lemma_pow_mod_step(13int, 81nat, m, 40nat, 10922529int, 8948631int, 3582480int, 3int, 6576747int);
    lemma_pow_mod_step(13int, 162nat, m, 81nat, 6576747int, 3244385int, 8583074int, 0int, 8583074int);
    lemma_pow_mod_step(13int, 325nat, m, 162nat, 8583074int, 5525809int, 7563197int, 7int, 4998744int);
    lemma_pow_mod_step(13int, 650nat, m, 325nat, 4998744int, 1874269int, 4020997int, 0int, 4020997int);
    lemma_pow_mod_step(13int, 1301nat, m, 650nat, 4020997int, 1212767int, 12187632int, 11int, 11789075int);
    lemma_pow_mod_step(13int, 2603nat, m, 1301nat, 11789075int, 10424846int, 4282599int, 4int, 2346463int);
}

proof fn lemma_certificate_5_1()
    requires
        pow_mod(13int, 2603nat, 13331831int) == 2346463int,
    ensures
        pow_mod(13int, 2666366nat, 13331831int) == 1325729int,
{
    let m: int = 13331831int;
    lemma_pow_mod_step(13int, 5207nat, m, 2603nat, 2346463int, 412988int, 2389341int, 2int, 4397771int);
    lemma_pow_mod_step(13int, 10415nat, m, 5207nat, 4397771int, 1450692int, 9191389int, 8int, 12833409int);
    lemma_pow_mod_step(13int, 20830nat, m, 10415nat, 12833409int, 12353620int, 12483061int, 0int, 12483061int);
    lemma_pow_mod_step(13int, 41661nat, m, 20830nat, 12483061int, 11688327int, 11692984int, 11int, 5358651int);
    lemma_pow_mod_step(13int, 83323nat, m, 41661nat, 5358651int, 2153878int, 3049183int, 2int, 12975717int);
    lemma_pow_mod_step(13int, 166647nat, m, 83323nat, 12975717int, 12629115int, 4804524int, 4int, 9131488int);
    lemma_pow_mod_step(13int, 333295nat, m, 166647nat, 9131488int, 6254510int, 2786334int, 2int, 9558680int);
    lemma_pow_mod_step(13int, 666591nat, m, 333295nat, 9558680int, 6853399int, 6098831int, 5int, 12625648int);
    lemma_pow_mod_step(13int, 1333183nat, m, 666591nat, 12625648int, 11956871int, 3959103int, 3int, 11472846int);
    lemma_pow_mod_step(13int, 2666366nat, m, 1333183nat, 11472846int, 9873077int, 1325729int, 0int, 1325729int);
}

proof fn lemma_certificate_5()
    ensures
        pow_mod(13int, 2666366nat, 13331831int) == 1325729int,
{
    lemma_pow_mod_zero(13int, 13331831int);
    lemma_certificate_5_0();
    lemma_certificate_5_1();
}

proof fn lemma_certificate_971_0()
    requires
        pow_mod(13int, 0nat, 13331831int) == 1int,
    ensures
        pow_mod(13int, 3432nat, 13331831int) == 1979958int,
{
    let m: int = 13331831int;
    lemma_pow_mod_step(13int, 1nat, m, 0nat, 1int, 0int, 1int, 0int, 13int);
    lemma_pow_mod_step(13int, 3nat, m, 1nat, 13int, 0int, 169int, 0int, 2197int);
    lemma_pow_mod_step(13int, 6nat, m, 3nat, 2197int, 0int, 4826809int, 0int, 4826809int);
    lemma_pow_mod_step(13int, 13nat, m, 6nat, 4826809int, 1747553int, 3862938int, 3int, 10222701int);
    lemma_pow_mod_step(13int, 26nat, m, 13nat, 10222701int, 7838654int, 5339927int, 0int, 5339927int);
    lemma_pow_mod_step(13int, 53nat, m, 26nat, 5339927int, 2138852int, 6967317int, 6int, 10584135int);
    lemma_pow_mod_step(13int, 107nat, m, 53nat, 10584135int, 8402740int, 4081285int, 3int, 13061212int);
    lemma_pow_mod_step(13int, 214nat, m, 107nat, 13061212int, 12796086int, 2895478int, 0int, 2895478int);
    lemma_pow_mod_step(13int, 429nat, m, 214nat, 2895478int, 628855int, 4264979int, 4int, 2117403int);
    lemma_pow_mod_step(13int, 858nat, m, 429nat, 2117403int, 336292int, 7353757int, 0int, 7353757int);
    lemma_pow_mod_step(13int, 1716nat, m, 858nat, 7353757int, 4056287int, 9243552int, 0int, 9243552int);
    lemma_pow_mod_step(13int, 3432nat, m, 1716nat, 9243552int, 6408966int, 1979958int, 0int, 1979958int);
}

proof fn lemma_certificate_971_1()
    requires
        pow_mod(13int, 3432nat, 13331831int) == 1979958int,
    ensures
        pow_mod(13int, 13730nat, 13331831int) == 54862int,
{
    let m: int = 13331831int;
    lemma_pow_mod_step(13int, 6865nat, m, 3432nat, 1979958int, 294050int, 8776214int, 8int, 7436134int);
    lemma_pow_mod_step(13int, 13730nat, m, 6865nat, 7436134int, 4147674int, 54862int, 0int, 54862int);
}

proof fn lemma_certificate_971()
    ensures
        pow_mod(13int, 13730nat, 13331831int) == 54862int,
{
    lemma_pow_mod_zero(13int, 13331831int);
    lemma_certificate_971_0();
    lemma_certificate_971_1();
}

proof fn lemma_certificate_1373_0()
    requires
        pow_mod(13int, 0nat, 13331831int) == 1int,
    ensures
        pow_mod(13int, 2427nat, 13331831int) == 7040795int,
{
    let m: int = 13331831int;
    lemma_pow_mod_step(13int, 1nat, m, 0nat, 1int, 0int, 1int, 0int, 13int);
    lemma_pow_mod_step(13int, 2nat, m, 1nat, 13int, 0int, 169int, 0int, 169int);
    lemma_pow_mod_step(13int, 4nat, m, 2nat, 169int, 0int, 28561int, 0int, 28561int);
    lemma_pow_mod_step(13int, 9nat, m, 4nat, 28561int, 61int, 2489030int, 2int, 5693728int);
    lemma_pow_mod_step(13int, 18nat, m, 9nat, 5693728int, 2431664int, 5041200int, 0int, 5041200int);
    lemma_pow_mod_step(13int, 37nat, m, 18nat, 5041200int, 1906242int, 1250898int, 1int, 2929843int);
    lemma_pow_mod_step(13int, 75nat, m, 37nat, 2929843int, 643871int, 646848int, 0int, 8409024int);
    lemma_pow_mod_step(13int, 151nat, m, 75nat, 8409024int, 5303973int, 12968013int, 12int, 8602197int);
    lemma_pow_mod_step(13int, 303nat, m, 151nat, 8602197int, 5550459int, 11866380int, 11int, 7612799int);
    lemma_pow_mod_step(13int, 606nat, m, 303nat, 7612799int, 4347092int, 12728949int, 0int, 12728949int);
    lemma_pow_mod_step(13int, 1213nat, m, 606nat, 12728949int, 12153330int, 997371int, 0int, 12965823int);
    lemma_pow_mod_step(13int, 2427nat, m, 1213nat, 12965823int, 12609863int, 3618176int, 3int, 7040795int);
}

proof fn lemma_certificate_1373_1()
    requires
        pow_mod(13int, 2427nat, 13331831int) == 7040795int,
    ensures
        pow_mod(13int, 9710nat, 13331831int) == 1273336int,
{
    let m: int = 13331831int;
    lemma_pow_mod_step(13int, 4855nat, m, 2427nat, 7040795int, 3718378int, 7141907int, 6int, 12853805int);
    lemma_pow_mod_step(13int, 9710nat, m, 4855nat, 12853805int, 12392919int, 1273336int, 0int, 1273336int);
}

proof fn lemma_certificate_1373()
    ensures
        pow_mod(13int, 9710nat, 13331831int) == 1273336int,
{
    lemma_pow_mod_zero(13int, 13331831int);
    lemma_certificate_1373_0();
    lemma_certificate_1373_1();
}

/// 13331831 is prime, by a Lucas certificate with witness 13.
pub proof fn lemma_prime_13331831()
    ensures
        is_prime(13331831int),
        forall|x: int| 1 <= x < 13331831int ==> #[trigger] power_of(13, 13331831int, x),
{
    lemma_small_primes();
    lemma_prime_1373();
    let fs: Seq<int> = Seq::empty().push(2int).push(5int).push(971int).push(1373int);
    assert(product(Seq::<int>::empty()) == 1);
    lemma_product_push(Seq::<int>::empty(), 2int);
    lemma_product_push(Seq::<int>::empty().push(2int), 5int);
    lemma_product_push(Seq::<int>::empty().push(2int).push(5int), 971int);
    lemma_product_push(Seq::<int>::empty().push(2int).push(5int).push(971int), 1373int);
    lemma_certificate_full();
    lemma_certificate_2();
    lemma_certificate_5();
    lemma_certificate_971();
    lemma_certificate_1373();
    assert forall|i: int| 0 <= i < fs.len() implies is_prime(#[trigger] fs[i])
        && pow_mod(13, ((13331831int - 1) / fs[i]) as nat, 13331831int) != 1 by {
        if i == 0 { assert(fs[0] == 2int); } else if i == 1 { assert(fs[1] == 5int); } else if i == 2 { assert(fs[2] == 971int); } else if i == 3 { assert(fs[3] == 1373int); }
    }
    lemma_lucas(13331831int, 13, fs);
}

} // verus!
