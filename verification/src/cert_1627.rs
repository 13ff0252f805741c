//! A Lucas certificate that 1627 is prime.
use vstd::prelude::*;
use crate::prime::{is_prime, pow_mod, power_of, product, lucas_certificate, lemma_lucas, lemma_pow_mod_step, lemma_pow_mod_zero, lemma_product_push};

use crate::cert_small::lemma_small_primes;
verus! {

proof fn lemma_certificate_full_0()
    requires
        pow_mod(3int, 0nat, 1627int) == 1int,
    ensures
        pow_mod(3int, 1626nat, 1627int) == 1int,
{
    let m: int = 1627int;
    lemma_pow_mod_step(3int, 1nat, m, 0nat, 1int, 0int, 1int, 0int, 3int);
    lemma_pow_mod_step(3int, 3nat, m, 1nat, 3int, 0int, 9int, 0int, 27int);
    lemma_pow_mod_step(3int, 6nat, m, 3nat, 27int, 0int, 729int, 0int, 729int);
    lemma_pow_mod_step(3int, 12nat, m, 6nat, 729int, 326int, 1039int, 0int, 1039int);
    lemma_pow_mod_step(3int, 25nat, m, 12nat, 1039int, 663int, 820int, 1int, 833int);
    lemma_pow_mod_step(3int, 50nat, m, 25nat, 833int, 426int, 787int, 0int, 787int);
    lemma_pow_mod_step(3int, 101nat, m, 50nat, 787int, 380int, 1109int, 2int, 73int);
    lemma_pow_mod_step(3int, 203nat, m, 101nat, 73int, 3int, 448int, 0int, 1344int);
    lemma_pow_mod_step(3int, 406nat, m, 203nat, 1344int, 1110int, 366int, 0int, 366int);
    lemma_pow_mod_step(3int, 813nat, m, 406nat, 366int, 82int, 542int, 0int, 1626int);
    lemma_pow_mod_step(3int, 1626nat, m, 813nat, 1626int, 1625int, 1int, 0int, 1int);
}

proof fn lemma_certificate_full()
    ensures
        pow_mod(3int, 1626nat, 1627int) == 1int,
{
    lemma_pow_mod_zero(3int, 1627int);
    lemma_certificate_full_0();
}

proof fn lemma_certificate_2_0()
    requires
        pow_mod(3int, 0nat, 1627int) == 1int,
    ensures
        pow_mod(3int, 813nat, 1627int) == 1626int,
{
    let m: int = 1627int;
    lemma_pow_mod_step(3int, 1nat, m, 0nat, 1int, 0int, 1int, 0int, 3int);
    lemma_pow_mod_step(3int, 3nat, m, 1nat, 3int, 0int, 9int, 0int, 27int);
    lemma_pow_mod_step(3int, 6nat, m, 3nat, 27int, 0int, 729int, 0int, 729int);
    lemma_pow_mod_step(3int, 12nat, m, 6nat, 729int, 326int, 1039int, 0int, 1039int);
    lemma_pow_mod_step(3int, 25nat, m, 12nat, 1039int, 663int, 820int, 1int, 833int);
    lemma_pow_mod_step(3int, 50nat, m, 25nat, 833int, 426int, 787int, 0int, 787int);
    lemma_pow_mod_step(3int, 101nat, m, 50nat, 787int, 380int, 1109int, 2int, 73int);
    lemma_pow_mod_step(3int, 203nat, m, 101nat, 73int, 3int, 448int, 0int, 1344int);
    lemma_pow_mod_step(3int, 406nat, m, 203nat, 1344int, 1110int, 366int, 0int, 366int);
    lemma_pow_mod_step(3int, 813nat, m, 406nat, 366int, 82int, 542int, 0int, 1626int);
}

proof fn lemma_certificate_2()
    ensures
        pow_mod(3int, 813nat, 1627int) == 1626int,
{
    lemma_pow_mod_zero(3int, 1627int);
    lemma_certificate_2_0();
}

proof fn lemma_certificate_3_0()
    requires
        pow_mod(3int, 0nat, 1627int) == 1int,
    ensures
        pow_mod(3int, 542nat, 1627int) == 1362int,
{
    let m: int = 1627int;
    lemma_pow_mod_step(3int, 1nat, m, 0nat, 1int, 0int, 1int, 0int, 3int);
    lemma_pow_mod_step(3int, 2nat, m, 1nat, 3int, 0int, 9int, 0int, 9int);
    lemma_pow_mod_step(3int, 4nat, m, 2nat, 9int, 0int, 81int, 0int, 81int);
    lemma_pow_mod_step(3int, 8nat, m, 4nat, 81int, 4int, 53int, 0int, 53int);
    lemma_pow_mod_step(3int, 16nat, m, 8nat, 53int, 1int, 1182int, 0int, 1182int);
    lemma_pow_mod_step(3int, 33nat, m, 16nat, 1182int, 858int, 1158int, 2int, 220int);
    lemma_pow_mod_step(3int, 67nat, m, 33nat, 220int, 29int, 1217int, 2int, 397int);
    lemma_pow_mod_step(3int, 135nat, m, 67nat, 397int, 96int, 1417int, 2int, 997int);
    lemma_pow_mod_step(3int, 271nat, m, 135nat, 997int, 610int, 1539int, 2int, 1363int);
    lemma_pow_mod_step(3int, 542nat, m, 271nat, 1363int, 1141int, 1362int, 0int, 1362int);
}

proof fn lemma_certificate_3()
    ensures
        pow_mod(3int, 542nat, 1627int) == 1362int,
{
    lemma_pow_mod_zero(3int, 1627int);
    lemma_certificate_3_0();
}

proof fn lemma_certificate_271_0()
    requires
        pow_mod(3int, 0nat, 1627int) == 1int,
    ensures
        pow_mod(3int, 6nat, 1627int) == 729int,
{
    let m: int = 1627int;
    lemma_pow_mod_step(3int, 1nat, m, 0nat, 1int, 0int, 1int, 0int, 3int);
    lemma_pow_mod_step(3int, 3nat, m, 1nat, 3int, 0int, 9int, 0int, 27int);
    lemma_pow_mod_step(3int, 6nat, m, 3nat, 27int, 0int, 729int, 0int, 729int);
}

proof fn lemma_certificate_271()
    ensures
        pow_mod(3int, 6nat, 1627int) == 729int,
{
    lemma_pow_mod_zero(3int, 1627int);
    lemma_certificate_271_0();
}

/// 1627 is prime, by a Lucas certificate with witness 3.
pub proof fn lemma_prime_1627()
    ensures
        is_prime(1627int),
        forall|x: int| 1 <= x < 1627int ==> #[trigger] power_of(3, 1627int, x),
{
    lemma_small_primes();
    let fs: Seq<int> = Seq::empty().push(2int).push(3int).push(271int);
    assert(product(Seq::<int>::empty()) == 1);
    lemma_product_push(Seq::<int>::empty(), 2int);
    lemma_product_push(Seq::<int>::empty().push(2int), 3int);
    lemma_product_push(Seq::<int>::empty().push(2int).push(3int), 271int);
    lemma_certificate_full();
    lemma_certificate_2();
    lemma_certificate_3();
    lemma_certificate_271();
    assert forall|i: int| 0 <= i < fs.len() implies is_prime(#[trigger] fs[i])
        && pow_mod(3, ((1627int - 1) / fs[i]) as nat, 1627int) != 1 by {
        if i == 0 { assert(fs[0] == 2int); } else if i == 1 { assert(fs[1] == 3int); } else if i == 2 { assert(fs[2] == 271int); }
    }
    lemma_lucas(1627int, 3, fs);
}

} // verus!
