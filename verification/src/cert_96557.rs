//! A Lucas certificate that 96557 is prime.
use vstd::prelude::*;
use crate::prime::{is_prime, pow_mod, power_of, product, lucas_certificate, lemma_lucas, lemma_pow_mod_step, lemma_pow_mod_zero, lemma_product_push};

use crate::cert_small::lemma_small_primes;
verus! {

proof fn lemma_certificate_full_0()
    requires
        pow_mod(2int, 0nat, 96557int) == 1int,
    ensures
        pow_mod(2int, 3017nat, 96557int) == 21381int,
{
    let m: int = 96557int;
    lemma_pow_mod_step(2int, 1nat, m, 0nat, 1int, 0int, 1int, 0int, 2int);
    lemma_pow_mod_step(2int, 2nat, m, 1nat, 2int, 0int, 4int, 0int, 4int);
    lemma_pow_mod_step(2int, 5nat, m, 2nat, 4int, 0int, 16int, 0int, 32int);
    lemma_pow_mod_step(2int, 11nat, m, 5nat, 32int, 0int, 1024int, 0int, 2048int);
    lemma_pow_mod_step(2int, 23nat, m, 11nat, 2048int, 43int, 42353int, 0int, 84706int);
    lemma_pow_mod_step(2int, 47nat, m, 23nat, 84706int, 74309int, 52323int, 1int, 8089int);
    lemma_pow_mod_step(2int, 94nat, m, 47nat, 8089int, 677int, 62832int, 0int, 62832int);
    lemma_pow_mod_step(2int, 188nat, m, 94nat, 62832int, 40886int, 30722int, 0int, 30722int);
    lemma_pow_mod_step(2int, 377nat, m, 188nat, 30722int, 9774int, 93166int, 1int, 89775int);
    lemma_pow_mod_step(2int, 754nat, m, 377nat, 89775int, 83469int, 34392int, 0int, 34392int);
    lemma_pow_mod_step(2int, 1508nat, m, 754nat, 34392int, 12249int, 82971int, 0int, 82971int);
    lemma_pow_mod_step(2int, 3017nat, m, 1508nat, 82971int, 71296int, 58969int, 1int, 21381int);
}

proof fn lemma_certificate_full_1()
    requires
        pow_mod(2int, 3017nat, 96557int) == 21381int,
    ensures
        pow_mod(2int, 96556nat, 96557int) == 1int,
{
    let m: int = 96557int;
    lemma_pow_mod_step(2int, 6034nat, m, 3017nat, 21381int, 4734int, 46323int, 0int, 46323int);
    lemma_pow_mod_step(2int, 12069nat, m, 6034nat, 46323int, 22223int, 34118int, 0int, 68236int);
    lemma_pow_mod_step(2int, 24139nat, m, 12069nat, 68236int, 48221int, 76599int, 1int, 56641int);
    lemma_pow_mod_step(2int, 48278nat, m, 24139nat, 56641int, 33225int, 96556int, 0int, 96556int);
    lemma_pow_mod_step(2int, 96556nat, m, 48278nat, 96556int, 96555int, 1int, 0int, 1int);
}

proof fn lemma_certificate_full()
    ensures
        pow_mod(2int, 96556nat, 96557int) == 1int,
{
    lemma_pow_mod_zero(2int, 96557int);
    lemma_certificate_full_0();
    lemma_certificate_full_1();
}

proof fn lemma_certificate_2_0()
    requires
        pow_mod(2int, 0nat, 96557int) == 1int,
    ensures
        pow_mod(2int, 3017nat, 96557int) == 21381int,
{
    let m: int = 96557int;
    lemma_pow_mod_step(2int, 1nat, m, 0nat, 1int, 0int, 1int, 0int, 2int);
    lemma_pow_mod_step(2int, 2nat, m, 1nat, 2int, 0int, 4int, 0int, 4int);
    lemma_pow_mod_step(2int, 5nat, m, 2nat, 4int, 0int, 16int, 0int, 32int);
    lemma_pow_mod_step(2int, 11nat, m, 5nat, 32int, 0int, 1024int, 0int, 2048int);
    lemma_pow_mod_step(2int, 23nat, m, 11nat, 2048int, 43int, 42353int, 0int, 84706int);
    lemma_pow_mod_step(2int, 47nat, m, 23nat, 84706int, 74309int, 52323int, 1int, 8089int);
    lemma_pow_mod_step(2int, 94nat, m, 47nat, 8089int, 677int, 62832int, 0int, 62832int);
    lemma_pow_mod_step(2int, 188nat, m, 94nat, 62832int, 40886int, 30722int, 0int, 30722int);
    lemma_pow_mod_step(2int, 377nat, m, 188nat, 30722int, 9774int, 93166int, 1int, 89775int);
    lemma_pow_mod_step(2int, 754nat, m, 377nat, 89775int, 83469int, 34392int, 0int, 34392int);
    lemma_pow_mod_step(2int, 1508nat, m, 754nat, 34392int, 12249int, 82971int, 0int, 82971int);
    lemma_pow_mod_step(2int, 3017nat, m, 1508nat, 82971int, 71296int, 58969int, 1int, 21381int);
}

proof fn lemma_certificate_2_1()
    requires
        pow_mod(2int, 3017nat, 96557int) == 21381int,
    ensures
        pow_mod(2int, 48278nat, 96557int) == 96556int,
{
    let m: int = 96557int;
    lemma_pow_mod_step(2int, 6034nat, m, 3017nat, 21381int, 4734int, 46323int, 0int, 46323int);
    lemma_pow_mod_step(2int, 12069nat, m, 6034nat, 46323int, 22223int, 34118int, 0int, 68236int);
    lemma_pow_mod_step(2int, 24139nat, m, 12069nat, 68236int, 48221int, 76599int, 1int, 56641int);
    lemma_pow_mod_step(2int, 48278nat, m, 24139nat, 56641int, 33225int, 96556int, 0int, 96556int);
}

proof fn lemma_certificate_2()
    ensures
        pow_mod(2int, 48278nat, 96557int) == 96556int,
{
    lemma_pow_mod_zero(2int, 96557int);
    lemma_certificate_2_0();
    lemma_certificate_2_1();
}

proof fn lemma_certificate_101_0()
    requires
        pow_mod(2int, 0nat, 96557int) == 1int,
    ensures
        pow_mod(2int, 956nat, 96557int) == 63065int,
{
    let m: int = 96557int;
    lemma_pow_mod_step(2int, 1nat, m, 0nat, 1int, 0int, 1int, 0int, 2int);
    lemma_pow_mod_step(2int, 3nat, m, 1nat, 2int, 0int, 4int, 0int, 8int);
    lemma_pow_mod_step(2int, 7nat, m, 3nat, 8int, 0int, 64int, 0int, 128int);
    lemma_pow_mod_step(2int, 14nat, m, 7nat, 128int, 0int, 16384int, 0int, 16384int);
    lemma_pow_mod_step(2int, 29nat, m, 14nat, 16384int, 2780int, 6996int, 0int, 13992int);
    lemma_pow_mod_step(2int, 59nat, m, 29nat, 13992int, 2027int, 55025int, 1int, 13493int);
    lemma_pow_mod_step(2int, 119nat, m, 59nat, 13493int, 1885int, 51104int, 1int, 5651int);
    lemma_pow_mod_step(2int, 239nat, m, 119nat, 5651int, 330int, 69991int, 1int, 43425int);
    lemma_pow_mod_step(2int, 478nat, m, 239nat, 43425int, 19529int, 68972int, 0int, 68972int);
    lemma_pow_mod_step(2int, 956nat, m, 478nat, 68972int, 49267int, 63065int, 0int, 63065int);
}

proof fn lemma_certificate_101()
    ensures
        pow_mod(2int, 956nat, 96557int) == 63065int,
{
    lemma_pow_mod_zero(2int, 96557int);
    lemma_certificate_101_0();
}

proof fn lemma_certificate_239_0()
    requires
        pow_mod(2int, 0nat, 96557int) == 1int,
    ensures
        pow_mod(2int, 404nat, 96557int) == 29586int,
{
    let m: int = 96557int;
    lemma_pow_mod_step(2int, 1nat, m, 0nat, 1int, 0int, 1int, 0int, 2int);
    lemma_pow_mod_step(2int, 3nat, m, 1nat, 2int, 0int, 4int, 0int, 8int);
    lemma_pow_mod_step(2int, 6nat, m, 3nat, 8int, 0int, 64int, 0int, 64int);
    lemma_pow_mod_step(2int, 12nat, m, 6nat, 64int, 0int, 4096int, 0int, 4096int);
    lemma_pow_mod_step(2int, 25nat, m, 12nat, 4096int, 173int, 72855int, 1int, 49153int);
    lemma_pow_mod_step(2int, 50nat, m, 25nat, 49153int, 25021int, 64712int, 0int, 64712int);
    lemma_pow_mod_step(2int, 101nat, m, 50nat, 64712int, 43369int, 62411int, 1int, 28265int);
    lemma_pow_mod_step(2int, 202nat, m, 101nat, 28265int, 8273int, 94164int, 0int, 94164int);
    lemma_pow_mod_step(2int, 404nat, m, 202nat, 94164int, 91830int, 29586int, 0int, 29586int);
}

proof fn lemma_certificate_239()
    ensures
        pow_mod(2int, 404nat, 96557int) == 29586int,
{
    lemma_pow_mod_zero(2int, 96557int);
    lemma_certificate_239_0();
}

/// 96557 is prime, by a Lucas certificate with witness 2.
pub proof fn lemma_prime_96557()
    ensures
        is_prime(96557int),
        forall|x: int| 1 <= x < 96557int ==> #[trigger] power_of(2, 96557int, x),
{
    lemma_small_primes();
    let fs: Seq<int> = Seq::empty().push(2int).push(2int).push(101int).push(239int);
    assert(product(Seq::<int>::empty()) == 1);
    lemma_product_push(Seq::<int>::empty(), 2int);
    lemma_product_push(Seq::<int>::empty().push(2int), 2int);
    lemma_product_push(Seq::<int>::empty().push(2int).push(2int), 101int);
    lemma_product_push(Seq::<int>::empty().push(2int).push(2int).push(101int), 239int);
    lemma_certificate_full();
    lemma_certificate_2();
    lemma_certificate_101();
    lemma_certificate_239();
    assert forall|i: int| 0 <= i < fs.len() implies is_prime(#[trigger] fs[i])
        && pow_mod(2, ((96557int - 1) / fs[i]) as nat, 96557int) != 1 by {
        if i == 0 { assert(fs[0] == 2int); } else if i == 1 { assert(fs[1] == 2int); } else if i == 2 { assert(fs[2] == 101int); } else if i == 3 { assert(fs[3] == 239int); }
    }
    lemma_lucas(96557int, 2, fs);
}

} // verus!
