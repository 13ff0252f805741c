//! A Lucas certificate that 5323 is prime.
use vstd::prelude::*;
use crate::prime::{is_prime, pow_mod, power_of, product, lucas_certificate, lemma_lucas, lemma_pow_mod_step, lemma_pow_mod_zero, lemma_product_push};

use crate::cert_small::lemma_small_primes;
verus! {

proof fn lemma_certificate_full_0()
    requires
        pow_mod(5int, 0nat, 5323int) == 1int,
    ensures
        pow_mod(5int, 2661nat, 5323int) == 5322int,
{
    let m: int = 5323int;
    lemma_pow_mod_step(5int, 1nat, m, 0nat, 1int, 0int, 1int, 0int, 5int);
    lemma_pow_mod_step(5int, 2nat, m, 1nat, 5int, 0int, 25int, 0int, 25int);
    lemma_pow_mod_step(5int, 5nat, m, 2nat, 25int, 0int, 625int, 0int, 3125int);
    lemma_pow_mod_step(5int, 10nat, m, 5nat, 3125int, 1834int, 3243int, 0int, 3243int);
    lemma_pow_mod_step(5int, 20nat, m, 10nat, 3243int, 1975int, 4124int, 0int, 4124int);
    lemma_pow_mod_step(5int, 41nat, m, 20nat, 4124int, 3195int, 391int, 0int, 1955int);
    lemma_pow_mod_step(5int, 83nat, m, 41nat, 1955int, 718int, 111int, 0int, 555int);
    lemma_pow_mod_step(5int, 166nat, m, 83nat, 555int, 57int, 4614int, 0int, 4614int);
    lemma_pow_mod_step(5int, 332nat, m, 166nat, 4614int, 3999int, 2319int, 0int, 2319int);
    lemma_pow_mod_step(5int, 665nat, m, 332nat, 2319int, 1010int, 1531int, 1int, 2332int);
    lemma_pow_mod_step(5int, 1330nat, m, 665nat, 2332int, 1021int, 3441int, 0int, 3441int);
    lemma_pow_mod_step(5int, 2661nat, m, 1330nat, 3441int, 2224int, 2129int, 1int, 5322int);
}

proof fn lemma_certificate_full_1()
    requires
        pow_mod(5int, 2661nat, 5323int) == 5322int,
    ensures
        pow_mod(5int, 5322nat, 5323int) == 1int,
{
    let m: int = 5323int;
    lemma_pow_mod_step(5int, 5322nat, m, 2661nat, 5322int, 5321int, 1int, 0int, 1int);
}

proof fn lemma_certificate_full()
    ensures
        pow_mod(5int, 5322nat, 5323int) == 1int,
{
    lemma_pow_mod_zero(5int, 5323int);
    lemma_certificate_full_0();
    lemma_certificate_full_1();
}

proof fn lemma_certificate_2_0()
    requires
        pow_mod(5int, 0nat, 5323int) == 1int,
    ensures
        pow_mod(5int, 2661nat, 5323int) == 5322int,
{
    let m: int = 5323int;
    lemma_pow_mod_step(5int, 1nat, m, 0nat, 1int, 0int, 1int, 0int, 5int);
    lemma_pow_mod_step(5int, 2nat, m, 1nat, 5int, 0int, 25int, 0int, 25int);
    lemma_pow_mod_step(5int, 5nat, m, 2nat, 25int, 0int, 625int, 0int, 3125int);
    lemma_pow_mod_step(5int, 10nat, m, 5nat, 3125int, 1834int, 3243int, 0int, 3243int);
    lemma_pow_mod_step(5int, 20nat, m, 10nat, 3243int, 1975int, 4124int, 0int, 4124int);
    lemma_pow_mod_step(5int, 41nat, m, 20nat, 4124int, 3195int, 391int, 0int, 1955int);
    lemma_pow_mod_step(5int, 83nat, m, 41nat, 1955int, 718int, 111int, 0int, 555int);
    lemma_pow_mod_step(5int, 166nat, m, 83nat, 555int, 57int, 4614int, 0int, 4614int);
    lemma_pow_mod_step(5int, 332nat, m, 166nat, 4614int, 3999int, 2319int, 0int, 2319int);
    lemma_pow_mod_step(5int, 665nat, m, 332nat, 2319int, 1010int, 1531int, 1int, 2332int);
    lemma_pow_mod_step(5int, 1330nat, m, 665nat, 2332int, 1021int, 3441int, 0int, 3441int);
    lemma_pow_mod_step(5int, 2661nat, m, 1330nat, 3441int, 2224int, 2129int, 1int, 5322int);
}

proof fn lemma_certificate_2()
    ensures
        pow_mod(5int, 2661nat, 5323int) == 5322int,
{
    lemma_pow_mod_zero(5int, 5323int);
    lemma_certificate_2_0();
}

proof fn lemma_certificate_3_0()
    requires
        pow_mod(5int, 0nat, 5323int) == 1int,
    ensures
        pow_mod(5int, 1774nat, 5323int) == 1282int,
{
    let m: int = 5323int;
    lemma_pow_mod_step(5int, 1nat, m, 0nat, 1int, 0int, 1int, 0int, 5int);
    lemma_pow_mod_step(5int, 3nat, m, 1nat, 5int, 0int, 25int, 0int, 125int);
    lemma_pow_mod_step(5int, 6nat, m, 3nat, 125int, 2int, 4979int, 0int, 4979int);
    lemma_pow_mod_step(5int, 13nat, m, 6nat, 4979int, 4657int, 1230int, 1int, 827int);
    lemma_pow_mod_step(5int, 27nat, m, 13nat, 827int, 128int, 2585int, 2int, 2279int);
    lemma_pow_mod_step(5int, 55nat, m, 27nat, 2279int, 975int, 3916int, 3int, 3611int);
    lemma_pow_mod_step(5int, 110nat, m, 55nat, 3611int, 2449int, 3294int, 0int, 3294int);
    lemma_pow_mod_step(5int, 221nat, m, 110nat, 3294int, 2038int, 2162int, 2int, 164int);
    lemma_pow_mod_step(5int, 443nat, m, 221nat, 164int, 5int, 281int, 0int, 1405int);
    lemma_pow_mod_step(5int, 887nat, m, 443nat, 1405int, 370int, 4515int, 4int, 1283int);
    lemma_pow_mod_step(5int, 1774nat, m, 887nat, 1283int, 309int, 1282int, 0int, 1282int);
}

proof fn lemma_certificate_3()
    ensures
        pow_mod(5int, 1774nat, 5323int) == 1282int,
{
    lemma_pow_mod_zero(5int, 5323int);
    lemma_certificate_3_0();
}

proof fn lemma_certificate_887_0()
    requires
        pow_mod(5int, 0nat, 5323int) == 1int,
    ensures
        pow_mod(5int, 6nat, 5323int) == 4979int,
{
    let m: int = 5323int;
    lemma_pow_mod_step(5int, 1nat, m, 0nat, 1int, 0int, 1int, 0int, 5int);
    lemma_pow_mod_step(5int, 3nat, m, 1nat, 5int, 0int, 25int, 0int, 125int);
    lemma_pow_mod_step(5int, 6nat, m, 3nat, 125int, 2int, 4979int, 0int, 4979int);
}

proof fn lemma_certificate_887()
    ensures
        pow_mod(5int, 6nat, 5323int) == 4979int,
{
    lemma_pow_mod_zero(5int, 5323int);
    lemma_certificate_887_0();
}

/// 5323 is prime, by a Lucas certificate with witness 5.
pub proof fn lemma_prime_5323()
    ensures
        is_prime(5323int),
        forall|x: int| 1 <= x < 5323int ==> #[trigger] power_of(5, 5323int, x),
{
    lemma_small_primes();
    let fs: Seq<int> = Seq::empty().push(2int).push(3int).push(887int);
    assert(product(Seq::<int>::empty()) == 1);
    lemma_product_push(Seq::<int>::empty(), 2int);
    lemma_product_push(Seq::<int>::empty().push(2int), 3int);
    lemma_product_push(Seq::<int>::empty().push(2int).push(3int), 887int);
    lemma_certificate_full();
    lemma_certificate_2();
    lemma_certificate_3();
    lemma_certificate_887();
    assert forall|i: int| 0 <= i < fs.len() implies is_prime(#[trigger] fs[i])
        && pow_mod(5, ((5323int - 1) / fs[i]) as nat, 5323int) != 1 by {
        if i == 0 { assert(fs[0] == 2int); } else if i == 1 { assert(fs[1] == 3int); } else if i == 2 { assert(fs[2] == 887int); }
    }
    lemma_lucas(5323int, 5, fs);
}

} // verus!
