//! A Lucas certificate that 4423 is prime.
use vstd::prelude::*;
use crate::prime::{is_prime, pow_mod, power_of, product, lucas_certificate, lemma_lucas, lemma_pow_mod_step, lemma_pow_mod_zero, lemma_product_push};

use crate::cert_small::lemma_small_primes;
verus! {

proof fn lemma_certificate_full_0()
    requires
        pow_mod(3int, 0nat, 4423int) == 1int,
    ensures
        pow_mod(3int, 2211nat, 4423int) == 4422int,
{
    let m: int = 4423int;
    lemma_pow_mod_step(3int, 1nat, m, 0nat, 1int, 0int, 1int, 0int, 3int);
    lemma_pow_mod_step(3int, 2nat, m, 1nat, 3int, 0int, 9int, 0int, 9int);
    lemma_pow_mod_step(3int, 4nat, m, 2nat, 9int, 0int, 81int, 0int, 81int);
    lemma_pow_mod_step(3int, 8nat, m, 4nat, 81int, 1int, 2138int, 0int, 2138int);
    lemma_pow_mod_step(3int, 17nat, m, 8nat, 2138int, 1033int, 2085int, 1int, 1832int);
    lemma_pow_mod_step(3int, 34nat, m, 17nat, 1832int, 758int, 3590int, 0int, 3590int);
    lemma_pow_mod_step(3int, 69nat, m, 34nat, 3590int, 2913int, 3901int, 2int, 2857int);
    lemma_pow_mod_step(3int, 138nat, m, 69nat, 2857int, 1845int, 2014int, 0int, 2014int);
    lemma_pow_mod_step(3int, 276nat, m, 138nat, 2014int, 917int, 305int, 0int, 305int);
    lemma_pow_mod_step(3int, 552nat, m, 276nat, 305int, 21int, 142int, 0int, 142int);
    lemma_pow_mod_step(3int, 1105nat, m, 552nat, 142int, 4int, 2472int, 1int, 2993int);
    lemma_pow_mod_step(3int, 2211nat, m, 1105nat, 2993int, 2025int, 1474int, 0int, 4422int);
}

proof fn lemma_certificate_full_1()
    requires
        pow_mod(3int, 2211nat, 4423int) == 4422int,
    ensures
        pow_mod(3int, 4422nat, 4423int) == 1int,
{
    let m: int = 4423int;
    lemma_pow_mod_step(3int, 4422nat, m, 2211nat, 4422int, 4421int, 1int, 0int, 1int);
}

proof fn lemma_certificate_full()
    ensures
        pow_mod(3int, 4422nat, 4423int) == 1int,
{
    lemma_pow_mod_zero(3int, 4423int);
    lemma_certificate_full_0();
    lemma_certificate_full_1();
}

proof fn lemma_certificate_2_0()
    requires
        pow_mod(3int, 0nat, 4423int) == 1int,
    ensures
        pow_mod(3int, 2211nat, 4423int) == 4422int,
{
    let m: int = 4423int;
    lemma_pow_mod_step(3int, 1nat, m, 0nat, 1int, 0int, 1int, 0int, 3int);
    lemma_pow_mod_step(3int, 2nat, m, 1nat, 3int, 0int, 9int, 0int, 9int);
    lemma_pow_mod_step(3int, 4nat, m, 2nat, 9int, 0int, 81int, 0int, 81int);
    lemma_pow_mod_step(3int, 8nat, m, 4nat, 81int, 1int, 2138int, 0int, 2138int);
    lemma_pow_mod_step(3int, 17nat, m, 8nat, 2138int, 1033int, 2085int, 1int, 1832int);
    lemma_pow_mod_step(3int, 34nat, m, 17nat, 1832int, 758int, 3590int, 0int, 3590int);
    lemma_pow_mod_step(3int, 69nat, m, 34nat, 3590int, 2913int, 3901int, 2int, 2857int);
    lemma_pow_mod_step(3int, 138nat, m, 69nat, 2857int, 1845int, 2014int, 0int, 2014int);
    lemma_pow_mod_step(3int, 276nat, m, 138nat, 2014int, 917int, 305int, 0int, 305int);
    lemma_pow_mod_step(3int, 552nat, m, 276nat, 305int, 21int, 142int, 0int, 142int);
    lemma_pow_mod_step(3int, 1105nat, m, 552nat, 142int, 4int, 2472int, 1int, 2993int);
    lemma_pow_mod_step(3int, 2211nat, m, 1105nat, 2993int, 2025int, 1474int, 0int, 4422int);
}

proof fn lemma_certificate_2()
    ensures
        pow_mod(3int, 2211nat, 4423int) == 4422int,
{
    lemma_pow_mod_zero(3int, 4423int);
    lemma_certificate_2_0();
}

proof fn lemma_certificate_3_0()
    requires
        pow_mod(3int, 0nat, 4423int) == 1int,
    ensures
        pow_mod(3int, 1474nat, 4423int) == 66int,
{
    let m: int = 4423int;
    lemma_pow_mod_step(3int, 1nat, m, 0nat, 1int, 0int, 1int, 0int, 3int);
    lemma_pow_mod_step(3int, 2nat, m, 1nat, 3int, 0int, 9int, 0int, 9int);
    lemma_pow_mod_step(3int, 5nat, m, 2nat, 9int, 0int, 81int, 0int, 243int);
    lemma_pow_mod_step(3int, 11nat, m, 5nat, 243int, 13int, 1550int, 1int, 227int);
    lemma_pow_mod_step(3int, 23nat, m, 11nat, 227int, 11int, 2876int, 1int, 4205int);
    lemma_pow_mod_step(3int, 46nat, m, 23nat, 4205int, 3997int, 3294int, 0int, 3294int);
    lemma_pow_mod_step(3int, 92nat, m, 46nat, 3294int, 2453int, 817int, 0int, 817int);
    lemma_pow_mod_step(3int, 184nat, m, 92nat, 817int, 150int, 4039int, 0int, 4039int);
    lemma_pow_mod_step(3int, 368nat, m, 184nat, 4039int, 3688int, 1497int, 0int, 1497int);
    lemma_pow_mod_step(3int, 737nat, m, 368nat, 1497int, 506int, 2971int, 2int, 67int);
    lemma_pow_mod_step(3int, 1474nat, m, 737nat, 67int, 1int, 66int, 0int, 66int);
}

proof fn lemma_certificate_3()
    ensures
        pow_mod(3int, 1474nat, 4423int) == 66int,
{
    lemma_pow_mod_zero(3int, 4423int);
    lemma_certificate_3_0();
}

proof fn lemma_certificate_11_0()
    requires
        pow_mod(3int, 0nat, 4423int) == 1int,
    ensures
        pow_mod(3int, 402nat, 4423int) == 285int,
{
    let m: int = 4423int;
    lemma_pow_mod_step(3int, 1nat, m, 0nat, 1int, 0int, 1int, 0int, 3int);
    lemma_pow_mod_step(3int, 3nat, m, 1nat, 3int, 0int, 9int, 0int, 27int);
    lemma_pow_mod_step(3int, 6nat, m, 3nat, 27int, 0int, 729int, 0int, 729int);
    lemma_pow_mod_step(3int, 12nat, m, 6nat, 729int, 120int, 681int, 0int, 681int);
    lemma_pow_mod_step(3int, 25nat, m, 12nat, 681int, 104int, 3769int, 2int, 2461int);
    lemma_pow_mod_step(3int, 50nat, m, 25nat, 2461int, 1369int, 1434int, 0int, 1434int);
    lemma_pow_mod_step(3int, 100nat, m, 50nat, 1434int, 464int, 4084int, 0int, 4084int);
    lemma_pow_mod_step(3int, 201nat, m, 100nat, 4084int, 3770int, 4346int, 2int, 4192int);
    lemma_pow_mod_step(3int, 402nat, m, 201nat, 4192int, 3973int, 285int, 0int, 285int);
}

proof fn lemma_certificate_11()
    ensures
        pow_mod(3int, 402nat, 4423int) == 285int,
{
    lemma_pow_mod_zero(3int, 4423int);
    lemma_certificate_11_0();
}

proof fn lemma_certificate_67_0()
    requires
        pow_mod(3int, 0nat, 4423int) == 1int,
    ensures
        pow_mod(3int, 66nat, 4423int) == 4365int,
{
    let m: int = 4423int;
    lemma_pow_mod_step(3int, 1nat, m, 0nat, 1int, 0int, 1int, 0int, 3int);
    lemma_pow_mod_step(3int, 2nat, m, 1nat, 3int, 0int, 9int, 0int, 9int);
    lemma_pow_mod_step(3int, 4nat, m, 2nat, 9int, 0int, 81int, 0int, 81int);
    lemma_pow_mod_step(3int, 8nat, m, 4nat, 81int, 1int, 2138int, 0int, 2138int);
    lemma_pow_mod_step(3int, 16nat, m, 8nat, 2138int, 1033int, 2085int, 0int, 2085int);
    lemma_pow_mod_step(3int, 33nat, m, 16nat, 2085int, 982int, 3839int, 2int, 2671int);
    lemma_pow_mod_step(3int, 66nat, m, 33nat, 2671int, 1612int, 4365int, 0int, 4365int);
}

proof fn lemma_certificate_67()
    ensures
        pow_mod(3int, 66nat, 4423int) == 4365int,
{
    lemma_pow_mod_zero(3int, 4423int);
    lemma_certificate_67_0();
}

/// 4423 is prime, by a Lucas certificate with witness 3.
pub proof fn lemma_prime_4423()
    ensures
        is_prime(4423int),
        forall|x: int| 1 <= x < 4423int ==> #[trigger] power_of(3, 4423int, x),
{
    lemma_small_primes();
    let fs: Seq<int> = Seq::empty().push(2int).push(3int).push(11int).push(67int);
    assert(product(Seq::<int>::empty()) == 1);
    lemma_product_push(Seq::<int>::empty(), 2int);
    lemma_product_push(Seq::<int>::empty().push(2int), 3int);
    lemma_product_push(Seq::<int>::empty().push(2int).push(3int), 11int);
    lemma_product_push(Seq::<int>::empty().push(2int).push(3int).push(11int), 67int);
    lemma_certificate_full();
    lemma_certificate_2();
    lemma_certificate_3();
    lemma_certificate_11();
    lemma_certificate_67();
    assert forall|i: int| 0 <= i < fs.len() implies is_prime(#[trigger] fs[i])
        && pow_mod(3, ((4423int - 1) / fs[i]) as nat, 4423int) != 1 by {
        if i == 0 { assert(fs[0] == 2int); } else if i == 1 { assert(fs[1] == 3int); } else if i == 2 { assert(fs[2] == 11int); } else if i == 3 { assert(fs[3] == 67int); }
    }
    lemma_lucas(4423int, 3, fs);
}

} // verus!
