//! A Lucas certificate that 7240687 is prime.
use vstd::prelude::*;
use crate::prime::{is_prime, pow_mod, power_of, product, lucas_certificate, lemma_lucas, lemma_pow_mod_step, lemma_pow_mod_zero, lemma_product_push};
use crate::cert_1206781::lemma_prime_1206781;
use crate::cert_small::lemma_small_primes;
verus! {

proof fn lemma_certificate_full_0()
    requires
        pow_mod(3int, 0nat, 7240687int) == 1int,
    ensures
        pow_mod(3int, 3535nat, 7240687int) == 1922818int,
{
    let m: int = 7240687int;
    lemma_pow_mod_step(3int, 1nat, m, 0nat, 1int, 0int, 1int, 0int, 3int);
    lemma_pow_mod_step(3int, 3nat, m, 1nat, 3int, 0int, 9int, 0int, 27int);
    lemma_pow_mod_step(3int, 6nat, m, 3nat, 27int, 0int, 729int, 0int, 729int);
    lemma_pow_mod_step(3int, 13nat, m, 6nat, 729int, 0int, 531441int, 0int, 1594323int);
    lemma_pow_mod_step(3int, 27nat, m, 13nat, 1594323int, 351053int, 934918int, 0int, 2804754int);
    lemma_pow_mod_step(3int, 55nat, m, 27nat, 2804754int, 1086450int, 609366int, 0int, 1828098int);
    lemma_pow_mod_step(3int, 110nat, m, 55nat, 1828098int, 461550int, 3212754int, 0int, 3212754int);
    lemma_pow_mod_step(3int, 220nat, m, 110nat, 3212754int, 1425526int, 688154int, 0int, 688154int);
    lemma_pow_mod_step(3int, 441nat, m, 220nat, 688154int, 65402int, 516542int, 0int, 1549626int);
    lemma_pow_mod_step(3int, 883nat, m, 441nat, 1549626int, 331645int, 3099761int, 1int, 2058596int);
    lemma_pow_mod_step(3int, 1767nat, m, 883nat, 2058596int, 585278int, 2685230int, 1int, 815003int);
    lemma_pow_mod_step(3int, 3535nat, m, 1767nat, 815003int, 91735int, 5468064int, 2int, 1922818int);
}

proof fn lemma_certificate_full_1()
    requires
        pow_mod(3int, 3535nat, 7240687int) == 1922818int,
    ensures
        pow_mod(3int, 7240686nat, 7240687int) == 1int,
{
    let m: int = 7240687int;
    lemma_pow_mod_step(3int, 7070nat, m, 3535nat, 1922818int, 510618int, 3946558int, 0int, 3946558int);
    lemma_pow_mod_step(3int, 14141nat, m, 7070nat, 3946558int, 2151083int, 1333343int, 0int, 4000029int);
    lemma_pow_mod_step(3int, 28283nat, m, 14141nat, 4000029int, 2209767int, 810912int, 0int, 2432736int);
    lemma_pow_mod_step(3int, 56567nat, m, 28283nat, 2432736int, 817353int, 7204185int, 2int, 7131181int);
    lemma_pow_mod_step(3int, 113135nat, m, 56567nat, 7131181int, 7023331int, 986364int, 0int, 2959092int);
    lemma_pow_mod_step(3int, 226271nat, m, 113135nat, 2959092int, 1209308int, 4749868int, 1int, 7008917int);
    lemma_pow_mod_step(3int, 452542nat, m, 226271nat, 7008917int, 6784565int, 5916734int, 0int, 5916734int);
    lemma_pow_mod_step(3int, 905085nat, m, 452542nat, 5916734int, 4834864int, 4315188int, 1int, 5704877int);
    lemma_pow_mod_step(3int, 1810171nat, m, 905085nat, 5704877int, 4494825int, 640354int, 0int, 1921062int);
    lemma_pow_mod_step(3int, 3620343nat, m, 1810171nat, 1921062int, 509686int, 2413562int, 0int, 7240686int);
    lemma_pow_mod_step(3int, 7240686nat, m, 3620343nat, 7240686int, 7240685int, 1int, 0int, 1int);
}

proof fn lemma_certificate_full()
    ensures
        pow_mod(3int, 7240686nat, 7240687int) == 1int,
{
    lemma_pow_mod_zero(3int, 7240687int);
    lemma_certificate_full_0();
    lemma_certificate_full_1();
}

proof fn lemma_certificate_2_0()
    requires
        pow_mod(3int, 0nat, 7240687int) == 1int,
    ensures
        pow_mod(3int, 3535nat, 7240687int) == 1922818int,
{
    let m: int = 7240687int;
    lemma_pow_mod_step(3int, 1nat, m, 0nat, 1int, 0int, 1int, 0int, 3int);
    lemma_pow_mod_step(3int, 3nat, m, 1nat, 3int, 0int, 9int, 0int, 27int);
    lemma_pow_mod_step(3int, 6nat, m, 3nat, 27int, 0int, 729int, 0int, 729int);
    lemma_pow_mod_step(3int, 13nat, m, 6nat, 729int, 0int, 531441int, 0int, 1594323int);
    lemma_pow_mod_step(3int, 27nat, m, 13nat, 1594323int, 351053int, 934918int, 0int, 2804754int);
    lemma_pow_mod_step(3int, 55nat, m, 27nat, 2804754int, 1086450int, 609366int, 0int, 1828098int);
    lemma_pow_mod_step(3int, 110nat, m, 55nat, 1828098int, 461550int, 3212754int, 0int, 3212754int);
    lemma_pow_mod_step(3int, 220nat, m, 110nat, 3212754int, 1425526int, 688154int, 0int, 688154int);
    lemma_pow_mod_step(3int, 441nat, m, 220nat, 688154int, 65402int, 516542int, 0int, 1549626int);
    lemma_pow_mod_step(3int, 883nat, m, 441nat, 1549626int, 331645int, 3099761int, 1int, 2058596int);
    lemma_pow_mod_step(3int, 1767nat, m, 883nat, 2058596int, 585278int, 2685230int, 1int, 815003int);
    lemma_pow_mod_step(3int, 3535nat, m, 1767nat, 815003int, 91735int, 5468064int, 2int, 1922818int);
}

proof fn lemma_certificate_2_1()
    requires
        pow_mod(3int, 3535nat, 7240687int) == 1922818int,
    ensures
        pow_mod(3int, 3620343nat, 7240687int) == 7240686int,
{
    let m: int = 7240687int;
    lemma_pow_mod_step(3int, 7070nat, m, 3535nat, 1922818int, 510618int, 3946558int, 0int, 3946558int);
    lemma_pow_mod_step(3int, 14141nat, m, 7070nat, 3946558int, 2151083int, 1333343int, 0int, 4000029int);
    lemma_pow_mod_step(3int, 28283nat, m, 14141nat, 4000029int, 2209767int, 810912int, 0int, 2432736int);
    lemma_pow_mod_step(3int, 56567nat, m, 28283nat, 2432736int, 817353int, 7204185int, 2int, 7131181int);
    lemma_pow_mod_step(3int, 113135nat, m, 56567nat, 7131181int, 7023331int, 986364int, 0int, 2959092int);
    lemma_pow_mod_step(3int, 226271nat, m, 113135nat, 2959092int, 1209308int, 4749868int, 1int, 7008917int);
    lemma_pow_mod_step(3int, 452542nat, m, 226271nat, 7008917int, 6784565int, 5916734int, 0int, 5916734int);
    lemma_pow_mod_step(3int, 905085nat, m, 452542nat, 5916734int, 4834864int, 4315188int, 1int, 5704877int);
    lemma_pow_mod_step(3int, 1810171nat, m, 905085nat, 5704877int, 4494825int, 640354int, 0int, 1921062int);
    lemma_pow_mod_step(3int, 3620343nat, m, 1810171nat, 1921062int, 509686int, 2413562int, 0int, 7240686int);
}

proof fn lemma_certificate_2()
    ensures
        pow_mod(3int, 3620343nat, 7240687int) == 7240686int,
{
    lemma_pow_mod_zero(3int, 7240687int);
    lemma_certificate_2_0();
    lemma_certificate_2_1();
}

proof fn lemma_certificate_3_0()
    requires
        pow_mod(3int, 0nat, 7240687int) == 1int,
    ensures
        pow_mod(3int, 2356nat, 7240687int) == 4094566int,
{
    let m: int = 7240687int;
    lemma_pow_mod_step(3int, 1nat, m, 0nat, 1int, 0int, 1int, 0int, 3int);
    lemma_pow_mod_step(3int, 2nat, m, 1nat, 3int, 0int, 9int, 0int, 9int);
    lemma_pow_mod_step(3int, 4nat, m, 2nat, 9int, 0int, 81int, 0int, 81int);
    lemma_pow_mod_step(3int, 9nat, m, 4nat, 81int, 0int, 6561int, 0int, 19683int);
    lemma_pow_mod_step(3int, 18nat, m, 9nat, 19683int, 53int, 3664078int, 0int, 3664078int);
    lemma_pow_mod_step(3int, 36nat, m, 18nat, 3664078int, 1854170int, 2975294int, 0int, 2975294int);
    lemma_pow_mod_step(3int, 73nat, m, 36nat, 2975294int, 1222587int, 4589167int, 1int, 6526814int);
    lemma_pow_mod_step(3int, 147nat, m, 73nat, 6526814int, 5883323int, 627695int, 0int, 1883085int);
    lemma_pow_mod_step(3int, 294nat, m, 147nat, 1883085int, 489733int, 5750654int, 0int, 5750654int);
    lemma_pow_mod_step(3int, 589nat, m, 294nat, 5750654int, 4567249int, 967653int, 0int, 2902959int);
    lemma_pow_mod_step(3int, 1178nat, m, 589nat, 2902959int, 1163863int, 3261800int, 0int, 3261800int);
    lemma_pow_mod_step(3int, 2356nat, m, 1178nat, 3261800int, 1469382int, 4094566int, 0int, 4094566int);
}

proof fn lemma_certificate_3_1()
    requires
        pow_mod(3int, 2356nat, 7240687int) == 4094566int,
    ensures
        pow_mod(3int, 2413562nat, 7240687int) == 6501936int,
{
    let m: int = 7240687int;
    lemma_pow_mod_step(3int, 4713nat, m, 2356nat, 4094566int, 2315453int, 292145int, 0int, 876435int);
    lemma_pow_mod_step(3int, 9427nat, m, 4713nat, 876435int, 106086int, 2788143int, 1int, 1123742int);
    lemma_pow_mod_step(3int, 18855nat, m, 9427nat, 1123742int, 174402int, 5788390int, 2int, 2883796int);
    lemma_pow_mod_step(3int, 37711nat, m, 18855nat, 2883796int, 1148548int, 2797140int, 1int, 1150733int);
    lemma_pow_mod_step(3int, 75423nat, m, 37711nat, 1150733int, 182881int, 2358042int, 0int, 7074126int);
    lemma_pow_mod_step(3int, 150847nat, m, 75423nat, 7074126int, 6911396int, 3494824int, 1int, 3243785int);
    lemma_pow_mod_step(3int, 301695nat, m, 150847nat, 3243785int, 1453196int, 3740573int, 1int, 3981032int);
    lemma_pow_mod_step(3int, 603390nat, m, 301695nat, 3981032int, 2188827int, 4580875int, 0int, 4580875int);
    lemma_pow_mod_step(3int, 1206781nat, m, 603390nat, 4580875int, 2898124int, 6994437int, 2int, 6501937int);
    lemma_pow_mod_step(3int, 2413562nat, m, 1206781nat, 6501937int, 5838559int, 6501936int, 0int, 6501936int);
}

proof fn lemma_certificate_3()
    ensures
        pow_mod(3int, 2413562nat, 7240687int) == 6501936int,
{
    lemma_pow_mod_zero(3int, 7240687int);
    lemma_certificate_3_0();
    lemma_certificate_3_1();
}

proof fn lemma_certificate_1206781_0()
    requires
        pow_mod(3int, 0nat, 7240687int) == 1int,
    ensures
        pow_mod(3int, 6nat, 7240687int) == 729int,
{
    let m: int = 7240687int;
    lemma_pow_mod_step(3int, 1nat, m, 0nat, 1int, 0int, 1int, 0int, 3int);
    lemma_pow_mod_step(3int, 3nat, m, 1nat, 3int, 0int, 9int, 0int, 27int);
    lemma_pow_mod_step(3int, 6nat, m, 3nat, 27int, 0int, 729int, 0int, 729int);
}

proof fn lemma_certificate_1206781()
    ensures
        pow_mod(3int, 6nat, 7240687int) == 729int,
{
    lemma_pow_mod_zero(3int, 7240687int);
    lemma_certificate_1206781_0();
}

/// 7240687 is prime, by a Lucas certificate with witness 3.
pub proof fn lemma_prime_7240687()
    ensures
        is_prime(7240687int),
        forall|x: int| 1 <= x < 7240687int ==> #[trigger] power_of(3, 7240687int, x),
{
    lemma_small_primes();
    lemma_prime_1206781();
    let fs: Seq<int> = Seq::empty().push(2int).push(3int).push(1206781int);
    assert(product(Seq::<int>::empty()) == 1);
    lemma_product_push(Seq::<int>::empty(), 2int);
    lemma_product_push(Seq::<int>::empty().push(2int), 3int);
    lemma_product_push(Seq::<int>::empty().push(2int).push(3int), 1206781int);
    lemma_certificate_full();
    lemma_certificate_2();
    lemma_certificate_3();
    lemma_certificate_1206781();
    assert forall|i: int| 0 <= i < fs.len() implies is_prime(#[trigger] fs[i])
        && pow_mod(3, ((7240687int - 1) / fs[i]) as nat, 7240687int) != 1 by {
        if i == 0 { assert(fs[0] == 2int); } else if i == 1 { assert(fs[1] == 3int); } else if i == 2 { assert(fs[2] == 1206781int); }
    }
    lemma_lucas(7240687int, 3, fs);
}

} // verus!
