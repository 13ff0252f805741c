//! A Lucas certificate that 24809 is prime.
use vstd::prelude::*;
use crate::prime::{is_prime, pow_mod, power_of, product, lucas_certificate, lemma_lucas, lemma_pow_mod_step, lemma_pow_mod_zero, lemma_product_push};

use crate::cert_small::lemma_small_primes;
verus! {

proof fn lemma_certificate_full_0()
    requires
        pow_mod(6int, 0nat, 24809int) == 1int,
    ensures
        pow_mod(6int, 3101nat, 24809int) == 18831int,
{
    let m: int = 24809int;
    lemma_pow_mod_step(6int, 1nat, m, 0nat, 1int, 0int, 1int, 0int, 6int);
    lemma_pow_mod_step(6int, 3nat, m, 1nat, 6int, 0int, 36int, 0int, 216int);
    lemma_pow_mod_step(6int, 6nat, m, 3nat, 216int, 1int, 21847int, 0int, 21847int);
    lemma_pow_mod_step(6int, 12nat, m, 6nat, 21847int, 19238int, 15867int, 0int, 15867int);
    lemma_pow_mod_step(6int, 24nat, m, 12nat, 15867int, 10147int, 24766int, 0int, 24766int);
    lemma_pow_mod_step(6int, 48nat, m, 24nat, 24766int, 24723int, 1849int, 0int, 1849int);
    lemma_pow_mod_step(6int, 96nat, m, 48nat, 1849int, 137int, 19968int, 0int, 19968int);
    lemma_pow_mod_step(6int, 193nat, m, 96nat, 19968int, 16071int, 15585int, 3int, 19083int);
    lemma_pow_mod_step(6int, 387nat, m, 193nat, 19083int, 14678int, 14387int, 3int, 11895int);
    lemma_pow_mod_step(6int, 775nat, m, 387nat, 11895int, 5703int, 5298int, 1int, 6979int);
    lemma_pow_mod_step(6int, 1550nat, m, 775nat, 6979int, 1963int, 6374int, 0int, 6374int);
    lemma_pow_mod_step(6int, 3101nat, m, 1550nat, 6374int, 1637int, 15543int, 3int, 18831int);
}

proof fn lemma_certificate_full_1()
    requires
        pow_mod(6int, 3101nat, 24809int) == 18831int,
    ensures
        pow_mod(6int, 24808nat, 24809int) == 1int,
{
    let m: int = 24809int;
    lemma_pow_mod_step(6int, 6202nat, m, 3101nat, 18831int, 14293int, 11524int, 0int, 11524int);
    lemma_pow_mod_step(6int, 12404nat, m, 6202nat, 11524int, 5352int, 24808int, 0int, 24808int);
    lemma_pow_mod_step(6int, 24808nat, m, 12404nat, 24808int, 24807int, 1int, 0int, 1int);
}

proof fn lemma_certificate_full()
    ensures
        pow_mod(6int, 24808nat, 24809int) == 1int,
{
    lemma_pow_mod_zero(6int, 24809int);
    lemma_certificate_full_0();
    lemma_certificate_full_1();
}

proof fn lemma_certificate_2_0()
    requires
        pow_mod(6int, 0nat, 24809int) == 1int,
    ensures
        pow_mod(6int, 3101nat, 24809int) == 18831int,
{
    let m: int = 24809int;
    lemma_pow_mod_step(6int, 1nat, m, 0nat, 1int, 0int, 1int, 0int, 6int);
    lemma_pow_mod_step(6int, 3nat, m, 1nat, 6int, 0int, 36int, 0int, 216int);
    lemma_pow_mod_step(6int, 6nat, m, 3nat, 216int, 1int, 21847int, 0int, 21847int);
    lemma_pow_mod_step(6int, 12nat, m, 6nat, 21847int, 19238int, 15867int, 0int, 15867int);
    lemma_pow_mod_step(6int, 24nat, m, 12nat, 15867int, 10147int, 24766int, 0int, 24766int);
    lemma_pow_mod_step(6int, 48nat, m, 24nat, 24766int, 24723int, 1849int, 0int, 1849int);
    lemma_pow_mod_step(6int, 96nat, m, 48nat, 1849int, 137int, 19968int, 0int, 19968int);
    lemma_pow_mod_step(6int, 193nat, m, 96nat, 19968int, 16071int, 15585int, 3int, 19083int);
    lemma_pow_mod_step(6int, 387nat, m, 193nat, 19083int, 14678int, 14387int, 3int, 11895int);
    lemma_pow_mod_step(6int, 775nat, m, 387nat, 11895int, 5703int, 5298int, 1int, 6979int);
    lemma_pow_mod_step(6int, 1550nat, m, 775nat, 6979int, 1963int, 6374int, 0int, 6374int);
    lemma_pow_mod_step(6int, 3101nat, m, 1550nat, 6374int, 1637int, 15543int, 3int, 18831int);
}

proof fn lemma_certificate_2_1()
    requires
        pow_mod(6int, 3101nat, 24809int) == 18831int,
    ensures
        pow_mod(6int, 12404nat, 24809int) == 24808int,
{
    let m: int = 24809int;
    lemma_pow_mod_step(6int, 6202nat, m, 3101nat, 18831int, 14293int, 11524int, 0int, 11524int);
    lemma_pow_mod_step(6int, 12404nat, m, 6202nat, 11524int, 5352int, 24808int, 0int, 24808int);
}

proof fn lemma_certificate_2()
    ensures
        pow_mod(6int, 12404nat, 24809int) == 24808int,
{
    lemma_pow_mod_zero(6int, 24809int);
    lemma_certificate_2_0();
    lemma_certificate_2_1();
}

proof fn lemma_certificate_7_0()
    requires
        pow_mod(6int, 0nat, 24809int) == 1int,
    ensures
        pow_mod(6int, 3544nat, 24809int) == 13134int,
{
    let m: int = 24809int;
    lemma_pow_mod_step(6int, 1nat, m, 0nat, 1int, 0int, 1int, 0int, 6int);
    lemma_pow_mod_step(6int, 3nat, m, 1nat, 6int, 0int, 36int, 0int, 216int);
    lemma_pow_mod_step(6int, 6nat, m, 3nat, 216int, 1int, 21847int, 0int, 21847int);
    lemma_pow_mod_step(6int, 13nat, m, 6nat, 21847int, 19238int, 15867int, 3int, 20775int);
    lemma_pow_mod_step(6int, 27nat, m, 13nat, 20775int, 17396int, 23261int, 5int, 15521int);
    lemma_pow_mod_step(6int, 55nat, m, 27nat, 15521int, 9710int, 6051int, 1int, 11497int);
    lemma_pow_mod_step(6int, 110nat, m, 55nat, 11497int, 5327int, 23466int, 0int, 23466int);
    lemma_pow_mod_step(6int, 221nat, m, 110nat, 23466int, 22195int, 17401int, 4int, 5170int);
    lemma_pow_mod_step(6int, 443nat, m, 221nat, 5170int, 1077int, 9607int, 2int, 8024int);
    lemma_pow_mod_step(6int, 886nat, m, 443nat, 8024int, 2595int, 5221int, 0int, 5221int);
    lemma_pow_mod_step(6int, 1772nat, m, 886nat, 5221int, 1098int, 18559int, 0int, 18559int);
    lemma_pow_mod_step(6int, 3544nat, m, 1772nat, 18559int, 13883int, 13134int, 0int, 13134int);
}

proof fn lemma_certificate_7()
    ensures
        pow_mod(6int, 3544nat, 24809int) == 13134int,
{
    lemma_pow_mod_zero(6int, 24809int);
    lemma_certificate_7_0();
}

proof fn lemma_certificate_443_0()
    requires
        pow_mod(6int, 0nat, 24809int) == 1int,
    ensures
        pow_mod(6int, 56nat, 24809int) == 19364int,
{
    let m: int = 24809int;
    lemma_pow_mod_step(6int, 1nat, m, 0nat, 1int, 0int, 1int, 0int, 6int);
    lemma_pow_mod_step(6int, 3nat, m, 1nat, 6int, 0int, 36int, 0int, 216int);
    lemma_pow_mod_step(6int, 7nat, m, 3nat, 216int, 1int, 21847int, 5int, 7037int);
    lemma_pow_mod_step(6int, 14nat, m, 7nat, 7037int, 1996int, 605int, 0int, 605int);
    lemma_pow_mod_step(6int, 28nat, m, 14nat, 605int, 14int, 18699int, 0int, 18699int);
    lemma_pow_mod_step(6int, 56nat, m, 28nat, 18699int, 14093int, 19364int, 0int, 19364int);
}

proof fn lemma_certificate_443()
    ensures
        pow_mod(6int, 56nat, 24809int) == 19364int,
{
    lemma_pow_mod_zero(6int, 24809int);
    lemma_certificate_443_0();
}

/// 24809 is prime, by a Lucas certificate with witness 6.
pub proof fn lemma_prime_24809()
    ensures
        is_prime(24809int),
        forall|x: int| 1 <= x < 24809int ==> #[trigger] power_of(6, 24809int, x),
{
    lemma_small_primes();
    let fs: Seq<int> = Seq::empty().push(2int).push(2int).push(2int).push(7int).push(443int);
    assert(product(Seq::<int>::empty()) == 1);
    lemma_product_push(Seq::<int>::empty(), 2int);
    lemma_product_push(Seq::<int>::empty().push(2int), 2int);
    lemma_product_push(Seq::<int>::empty().push(2int).push(2int), 2int);
    lemma_product_push(Seq::<int>::empty().push(2int).push(2int).push(2int), 7int);
    lemma_product_push(Seq::<int>::empty().push(2int).push(2int).push(2int).push(7int), 443int);
    lemma_certificate_full();
    lemma_certificate_2();
    lemma_certificate_7();
    lemma_certificate_443();
    assert forall|i: int| 0 <= i < fs.len() implies is_prime(#[trigger] fs[i])
        && pow_mod(6, ((24809int - 1) / fs[i]) as nat, 24809int) != 1 by {
        if i == 0 { assert(fs[0] == 2int); } else if i == 1 { assert(fs[1] == 2int); } else if i == 2 { assert(fs[2] == 2int); } else if i == 3 { assert(fs[3] == 7int); } else if i == 4 { assert(fs[4] == 443int); }
    }
    lemma_lucas(24809int, 6, fs);
}

} // verus!
