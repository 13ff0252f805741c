//! A Lucas certificate that 41201 is prime.
use vstd::prelude::*;
use crate::prime::{is_prime, pow_mod, power_of, product, lucas_certificate, lemma_lucas, lemma_pow_mod_step, lemma_pow_mod_zero, lemma_product_push};

use crate::cert_small::lemma_small_primes;
verus! {

proof fn lemma_certificate_full_0()
    requires
        pow_mod(3int, 0nat, 41201int) == 1int,
    ensures
        pow_mod(3int, 2575nat, 41201int) == 914int,
{
    let m: int = 41201int;
    lemma_pow_mod_step(3int, 1nat, m, 0nat, 1int, 0int, 1int, 0int, 3int);
    lemma_pow_mod_step(3int, 2nat, m, 1nat, 3int, 0int, 9int, 0int, 9int);
    lemma_pow_mod_step(3int, 5nat, m, 2nat, 9int, 0int, 81int, 0int, 243int);
    lemma_pow_mod_step(3int, 10nat, m, 5nat, 243int, 1int, 17848int, 0int, 17848int);
    lemma_pow_mod_step(3int, 20nat, m, 10nat, 17848int, 7731int, 26173int, 0int, 26173int);
    lemma_pow_mod_step(3int, 40nat, m, 20nat, 26173int, 16626int, 18103int, 0int, 18103int);
    lemma_pow_mod_step(3int, 80nat, m, 40nat, 18103int, 7954int, 5855int, 0int, 5855int);
    lemma_pow_mod_step(3int, 160nat, m, 80nat, 5855int, 832int, 1793int, 0int, 1793int);
    lemma_pow_mod_step(3int, 321nat, m, 160nat, 1793int, 78int, 1171int, 0int, 3513int);
    lemma_pow_mod_step(3int, 643nat, m, 321nat, 3513int, 299int, 22070int, 1int, 25009int);
    lemma_pow_mod_step(3int, 1287nat, m, 643nat, 25009int, 15180int, 18901int, 1int, 15502int);
    lemma_pow_mod_step(3int, 2575nat, m, 1287nat, 15502int, 5832int, 27772int, 2int, 914int);
}

proof fn lemma_certificate_full_1()
    requires
        pow_mod(3int, 2575nat, 41201int) == 914int,
    ensures
        pow_mod(3int, 41200nat, 41201int) == 1int,
{
    let m: int = 41201int;
    lemma_pow_mod_step(3int, 5150nat, m, 2575nat, 914int, 20int, 11376int, 0int, 11376int);
    lemma_pow_mod_step(3int, 10300nat, m, 5150nat, 11376int, 3141int, 1035int, 0int, 1035int);
    lemma_pow_mod_step(3int, 20600nat, m, 10300nat, 1035int, 25int, 41200int, 0int, 41200int);
    lemma_pow_mod_step(3int, 41200nat, m, 20600nat, 41200int, 41199int, 1int, 0int, 1int);
}

proof fn lemma_certificate_full()
    ensures
        pow_mod(3int, 41200nat, 41201int) == 1int,
{
    lemma_pow_mod_zero(3int, 41201int);
    lemma_certificate_full_0();
    lemma_certificate_full_1();
}

proof fn lemma_certificate_2_0()
    requires
        pow_mod(3int, 0nat, 41201int) == 1int,
    ensures
        pow_mod(3int, 2575nat, 41201int) == 914int,
{
    let m: int = 41201int;
    lemma_pow_mod_step(3int, 1nat, m, 0nat, 1int, 0int, 1int, 0int, 3int);
    lemma_pow_mod_step(3int, 2nat, m, 1nat, 3int, 0int, 9int, 0int, 9int);
    lemma_pow_mod_step(3int, 5nat, m, 2nat, 9int, 0int, 81int, 0int, 243int);
    lemma_pow_mod_step(3int, 10nat, m, 5nat, 243int, 1int, 17848int, 0int, 17848int);
    lemma_pow_mod_step(3int, 20nat, m, 10nat, 17848int, 7731int, 26173int, 0int, 26173int);
    lemma_pow_mod_step(3int, 40nat, m, 20nat, 26173int, 16626int, 18103int, 0int, 18103int);
    lemma_pow_mod_step(3int, 80nat, m, 40nat, 18103int, 7954int, 5855int, 0int, 5855int);
    lemma_pow_mod_step(3int, 160nat, m, 80nat, 5855int, 832int, 1793int, 0int, 1793int);
    lemma_pow_mod_step(3int, 321nat, m, 160nat, 1793int, 78int, 1171int, 0int, 3513int);
    lemma_pow_mod_step(3int, 643nat, m, 321nat, 3513int, 299int, 22070int, 1int, 25009int);
    lemma_pow_mod_step(3int, 1287nat, m, 643nat, 25009int, 15180int, 18901int, 1int, 15502int);
    lemma_pow_mod_step(3int, 2575nat, m, 1287nat, 15502int, 5832int, 27772int, 2int, 914int);
}

proof fn lemma_certificate_2_1()
    requires
        pow_mod(3int, 2575nat, 41201int) == 914int,
    ensures
        pow_mod(3int, 20600nat, 41201int) == 41200int,
{
    let m: int = 41201int;
    lemma_pow_mod_step(3int, 5150nat, m, 2575nat, 914int, 20int, 11376int, 0int, 11376int);
    lemma_pow_mod_step(3int, 10300nat, m, 5150nat, 11376int, 3141int, 1035int, 0int, 1035int);
    lemma_pow_mod_step(3int, 20600nat, m, 10300nat, 1035int, 25int, 41200int, 0int, 41200int);
}

proof fn lemma_certificate_2()
    ensures
        pow_mod(3int, 20600nat, 41201int) == 41200int,
{
    lemma_pow_mod_zero(3int, 41201int);
    lemma_certificate_2_0();
    lemma_certificate_2_1();
}

proof fn lemma_certificate_5_0()
    requires
        pow_mod(3int, 0nat, 41201int) == 1int,
    ensures
        pow_mod(3int, 2060nat, 41201int) == 4458int,
{
    let m: int = 41201int;
    lemma_pow_mod_step(3int, 1nat, m, 0nat, 1int, 0int, 1int, 0int, 3int);
    lemma_pow_mod_step(3int, 2nat, m, 1nat, 3int, 0int, 9int, 0int, 9int);
    lemma_pow_mod_step(3int, 4nat, m, 2nat, 9int, 0int, 81int, 0int, 81int);
    lemma_pow_mod_step(3int, 8nat, m, 4nat, 81int, 0int, 6561int, 0int, 6561int);
    lemma_pow_mod_step(3int, 16nat, m, 8nat, 6561int, 1044int, 32877int, 0int, 32877int);
    lemma_pow_mod_step(3int, 32nat, m, 16nat, 32877int, 26234int, 30095int, 0int, 30095int);
    lemma_pow_mod_step(3int, 64nat, m, 32nat, 30095int, 21982int, 28643int, 0int, 28643int);
    lemma_pow_mod_step(3int, 128nat, m, 64nat, 28643int, 19912int, 27137int, 0int, 27137int);
    lemma_pow_mod_step(3int, 257nat, m, 128nat, 27137int, 17873int, 31296int, 2int, 11486int);
    lemma_pow_mod_step(3int, 515nat, m, 257nat, 11486int, 3202int, 2594int, 0int, 7782int);
    lemma_pow_mod_step(3int, 1030nat, m, 515nat, 7782int, 1469int, 35255int, 0int, 35255int);
    lemma_pow_mod_step(3int, 2060nat, m, 1030nat, 35255int, 30167int, 4458int, 0int, 4458int);
}

proof fn lemma_certificate_5_1()
    requires
        pow_mod(3int, 2060nat, 41201int) == 4458int,
    ensures
        pow_mod(3int, 8240nat, 41201int) == 18549int,
{
    let m: int = 41201int;
    lemma_pow_mod_step(3int, 4120nat, m, 2060nat, 4458int, 482int, 14882int, 0int, 14882int);
    lemma_pow_mod_step(3int, 8240nat, m, 4120nat, 14882int, 5375int, 18549int, 0int, 18549int);
}

proof fn lemma_certificate_5()
    ensures
        pow_mod(3int, 8240nat, 41201int) == 18549int,
{
    lemma_pow_mod_zero(3int, 41201int);
    lemma_certificate_5_0();
    lemma_certificate_5_1();
}

proof fn lemma_certificate_103_0()
    requires
        pow_mod(3int, 0nat, 41201int) == 1int,
    ensures
        pow_mod(3int, 400nat, 41201int) == 16839int,
{
    let m: int = 41201int;
    lemma_pow_mod_step(3int, 1nat, m, 0nat, 1int, 0int, 1int, 0int, 3int);
    lemma_pow_mod_step(3int, 3nat, m, 1nat, 3int, 0int, 9int, 0int, 27int);
    lemma_pow_mod_step(3int, 6nat, m, 3nat, 27int, 0int, 729int, 0int, 729int);
    lemma_pow_mod_step(3int, 12nat, m, 6nat, 729int, 12int, 37029int, 0int, 37029int);
    lemma_pow_mod_step(3int, 25nat, m, 12nat, 37029int, 33279int, 18762int, 1int, 15085int);
    lemma_pow_mod_step(3int, 50nat, m, 25nat, 15085int, 5523int, 4102int, 0int, 4102int);
    lemma_pow_mod_step(3int, 100nat, m, 50nat, 4102int, 408int, 16396int, 0int, 16396int);
    lemma_pow_mod_step(3int, 200nat, m, 100nat, 16396int, 6524int, 33492int, 0int, 33492int);
    lemma_pow_mod_step(3int, 400nat, m, 200nat, 33492int, 27225int, 16839int, 0int, 16839int);
}

proof fn lemma_certificate_103()
    ensures
        pow_mod(3int, 400nat, 41201int) == 16839int,
{
    lemma_pow_mod_zero(3int, 41201int);
    lemma_certificate_103_0();
}

/// 41201 is prime, by a Lucas certificate with witness 3.
pub proof fn lemma_prime_41201()
    ensures
        is_prime(41201int),
        forall|x: int| 1 <= x < 41201int ==> #[trigger] power_of(3, 41201int, x),
{
    lemma_small_primes();
    let fs: Seq<int> = Seq::empty().push(2int).push(2int).push(2int).push(2int).push(5int).push(5int).push(103int);
    assert(product(Seq::<int>::empty()) == 1);
    lemma_product_push(Seq::<int>::empty(), 2int);
    lemma_product_push(Seq::<int>::empty().push(2int), 2int);
    lemma_product_push(Seq::<int>::empty().push(2int).push(2int), 2int);
    lemma_product_push(Seq::<int>::empty().push(2int).push(2int).push(2int), 2int);
    lemma_product_push(Seq::<int>::empty().push(2int).push(2int).push(2int).push(2int), 5int);
    lemma_product_push(Seq::<int>::empty().push(2int).push(2int).push(2int).push(2int).push(5int), 5int);
    lemma_product_push(Seq::<int>::empty().push(2int).push(2int).push(2int).push(2int).push(5int).push(5int), 103int);
    lemma_certificate_full();
    lemma_certificate_2();
    lemma_certificate_5();
    lemma_certificate_103();
    assert forall|i: int| 0 <= i < fs.len() implies is_prime(#[trigger] fs[i])
        && pow_mod(3, ((41201int - 1) / fs[i]) as nat, 41201int) != 1 by {
        if i == 0 { assert(fs[0] == 2int); } else if i == 1 { assert(fs[1] == 2int); } else if i == 2 { assert(fs[2] == 2int); } else if i == 3 { assert(fs[3] == 2int); } else if i == 4 { assert(fs[4] == 5int); } else if i == 5 { assert(fs[5] == 5int); } else if i == 6 { assert(fs[6] == 103int); }
    }
    lemma_lucas(41201int, 3, fs);
}

} // verus!
