//! A Lucas certificate that 1206781 is prime.
use vstd::prelude::*;
use crate::prime::{is_prime, pow_mod, power_of, product, lucas_certificate, lemma_lucas, lemma_pow_mod_step, lemma_pow_mod_zero, lemma_product_push};
use crate::cert_20113::lemma_prime_20113;
use crate::cert_small::lemma_small_primes;
verus! {

proof fn lemma_certificate_full_0()
    requires
        pow_mod(10int, 0nat, 1206781int) == 1int,
    ensures
        pow_mod(10int, 2356nat, 1206781int) == 1084374int,
{
    let m: int = 1206781int;
    lemma_pow_mod_step(10int, 1nat, m, 0nat, 1int, 0int, 1int, 0int, 10int);
    lemma_pow_mod_step(10int, 2nat, m, 1nat, 10int, 0int, 100int, 0int, 100int);
    lemma_pow_mod_step(10int, 4nat, m, 2nat, 100int, 0int, 10000int, 0int, 10000int);
    lemma_pow_mod_step(10int, 9nat, m, 4nat, 10000int, 82int, 1043958int, 8int, 785332int);
    lemma_pow_mod_step(10int, 18nat, m, 9nat, 785332int, 511067int, 404897int, 0int, 404897int);
    lemma_pow_mod_step(10int, 36nat, m, 18nat, 404897int, 135850int, 381759int, 0int, 381759int);
    lemma_pow_mod_step(10int, 73nat, m, 36nat, 381759int, 120767int, 613054int, 5int, 96635int);
    lemma_pow_mod_step(10int, 147nat, m, 73nat, 96635int, 7738int, 251847int, 2int, 104908int);
    lemma_pow_mod_step(10int, 294nat, m, 147nat, 104908int, 9119int, 1052525int, 0int, 1052525int);
    lemma_pow_mod_step(10int, 589nat, m, 294nat, 1052525int, 917986int, 812559int, 6int, 884904int);
    lemma_pow_mod_step(10int, 1178nat, m, 589nat, 884904int, 648879int, 240717int, 0int, 240717int);
    lemma_pow_mod_step(10int, 2356nat, m, 1178nat, 240717int, 48015int, 1084374int, 0int, 1084374int);
}

proof fn lemma_certificate_full_1()
    requires
        pow_mod(10int, 2356nat, 1206781int) == 1084374int,
    ensures
        pow_mod(10int, 1206780nat, 1206781int) == 1int,
{
    let m: int = 1206781int;
    lemma_pow_mod_step(10int, 4713nat, m, 2356nat, 1084374int, 974383int, 80753int, 0int, 807530int);
    lemma_pow_mod_step(10int, 9427nat, m, 4713nat, 807530int, 540367int, 72273int, 0int, 722730int);
    lemma_pow_mod_step(10int, 18855nat, m, 9427nat, 722730int, 432836int, 391984int, 3int, 299497int);
    lemma_pow_mod_step(10int, 37711nat, m, 18855nat, 299497int, 74328int, 834841int, 6int, 1107724int);
    lemma_pow_mod_step(10int, 75423nat, m, 37711nat, 1107724int, 1016797int, 1159719int, 9int, 736161int);
    lemma_pow_mod_step(10int, 150847nat, m, 75423nat, 736161int, 449073int, 253908int, 2int, 125518int);
    lemma_pow_mod_step(10int, 301695nat, m, 150847nat, 125518int, 13055int, 242369int, 2int, 10128int);
    lemma_pow_mod_step(10int, 603390nat, m, 301695nat, 10128int, 84int, 1206780int, 0int, 1206780int);
    lemma_pow_mod_step(10int, 1206780nat, m, 603390nat, 1206780int, 1206779int, 1int, 0int, 1int);
}

proof fn lemma_certificate_full()
    ensures
        pow_mod(10int, 1206780nat, 1206781int) == 1int,
{
    lemma_pow_mod_zero(10int, 1206781int);
    lemma_certificate_full_0();
    lemma_certificate_full_1();
}

proof fn lemma_certificate_2_0()
    requires
        pow_mod(10int, 0nat, 1206781int) == 1int,
    ensures
        pow_mod(10int, 2356nat, 1206781int) == 1084374int,
{
    let m: int = 1206781int;
    lemma_pow_mod_step(10int, 1nat, m, 0nat, 1int, 0int, 1int, 0int, 10int);
    lemma_pow_mod_step(10int, 2nat, m, 1nat, 10int, 0int, 100int, 0int, 100int);
    lemma_pow_mod_step(10int, 4nat, m, 2nat, 100int, 0int, 10000int, 0int, 10000int);
    lemma_pow_mod_step(10int, 9nat, m, 4nat, 10000int, 82int, 1043958int, 8int, 785332int);
    lemma_pow_mod_step(10int, 18nat, m, 9nat, 785332int, 511067int, 404897int, 0int, 404897int);
    lemma_pow_mod_step(10int, 36nat, m, 18nat, 404897int, 135850int, 381759int, 0int, 381759int);
    lemma_pow_mod_step(10int, 73nat, m, 36nat, 381759int, 120767int, 613054int, 5int, 96635int);
    lemma_pow_mod_step(10int, 147nat, m, 73nat, 96635int, 7738int, 251847int, 2int, 104908int);
    lemma_pow_mod_step(10int, 294nat, m, 147nat, 104908int, 9119int, 1052525int, 0int, 1052525int);
    lemma_pow_mod_step(10int, 589nat, m, 294nat, 1052525int, 917986int, 812559int, 6int, 884904int);
    lemma_pow_mod_step(10int, 1178nat, m, 589nat, 884904int, 648879int, 240717int, 0int, 240717int);
    lemma_pow_mod_step(10int, 2356nat, m, 1178nat, 240717int, 48015int, 1084374int, 0int, 1084374int);
}

proof fn lemma_certificate_2_1()
    requires
        pow_mod(10int, 2356nat, 1206781int) == 1084374int,
    ensures
        pow_mod(10int, 603390nat, 1206781int) == 1206780int,
{
    let m: int = 1206781int;
    lemma_pow_mod_step(10int, 4713nat, m, 2356nat, 1084374int, 974383int, 80753int, 0int, 807530int);
    lemma_pow_mod_step(10int, 9427nat, m, 4713nat, 807530int, 540367int, 72273int, 0int, 722730int);
    lemma_pow_mod_step(10int, 18855nat, m, 9427nat, 722730int, 432836int, 391984int, 3int, 299497int);
    lemma_pow_mod_step(10int, 37711nat, m, 18855nat, 299497int, 74328int, 834841int, 6int, 1107724int);
    lemma_pow_mod_step(10int, 75423nat, m, 37711nat, 1107724int, 1016797int, 1159719int, 9int, 736161int);
    lemma_pow_mod_step(10int, 150847nat, m, 75423nat, 736161int, 449073int, 253908int, 2int, 125518int);
    lemma_pow_mod_step(10int, 301695nat, m, 150847nat, 125518int, 13055int, 242369int, 2int, 10128int);
    lemma_pow_mod_step(10int, 603390nat, m, 301695nat, 10128int, 84int, 1206780int, 0int, 1206780int);
}

proof fn lemma_certificate_2()
    ensures
        pow_mod(10int, 603390nat, 1206781int) == 1206780int,
{
    lemma_pow_mod_zero(10int, 1206781int);
    lemma_certificate_2_0();
    lemma_certificate_2_1();
}

proof fn lemma_certificate_3_0()
    requires
        pow_mod(10int, 0nat, 1206781int) == 1int,
    ensures
        pow_mod(10int, 3142nat, 1206781int) == 894615int,
{
    let m: int = 1206781int;
    lemma_pow_mod_step(10int, 1nat, m, 0nat, 1int, 0int, 1int, 0int, 10int);
    lemma_pow_mod_step(10int, 3nat, m, 1nat, 10int, 0int, 100int, 0int, 1000int);
    lemma_pow_mod_step(10int, 6nat, m, 3nat, 1000int, 0int, 1000000int, 0int, 1000000int);
    lemma_pow_mod_step(10int, 12nat, m, 6nat, 1000000int, 828650int, 924350int, 0int, 924350int);
    lemma_pow_mod_step(10int, 24nat, m, 12nat, 924350int, 708018int, 252442int, 0int, 252442int);
    lemma_pow_mod_step(10int, 49nat, m, 24nat, 252442int, 52807int, 479097int, 3int, 1170627int);
    lemma_pow_mod_step(10int, 98nat, m, 49nat, 1170627int, 1135556int, 167893int, 0int, 167893int);
    lemma_pow_mod_step(10int, 196nat, m, 98nat, 167893int, 23358int, 68851int, 0int, 68851int);
    lemma_pow_mod_step(10int, 392nat, m, 196nat, 68851int, 3928int, 224433int, 0int, 224433int);
    lemma_pow_mod_step(10int, 785nat, m, 392nat, 224433int, 41739int, 339330int, 2int, 979738int);
    lemma_pow_mod_step(10int, 1571nat, m, 785nat, 979738int, 795410int, 873434int, 7int, 286873int);
    lemma_pow_mod_step(10int, 3142nat, m, 1571nat, 286873int, 68194int, 894615int, 0int, 894615int);
}

proof fn lemma_certificate_3_1()
    requires
        pow_mod(10int, 3142nat, 1206781int) == 894615int,
    ensures
        pow_mod(10int, 402260nat, 1206781int) == 608272int,
{
    let m: int = 1206781int;
    lemma_pow_mod_step(10int, 6285nat, m, 3142nat, 894615int, 663199int, 45806int, 0int, 458060int);
    lemma_pow_mod_step(10int, 12570nat, m, 6285nat, 458060int, 173866int, 778254int, 0int, 778254int);
    lemma_pow_mod_step(10int, 25141nat, m, 12570nat, 778254int, 501896int, 731740int, 6int, 76714int);
    lemma_pow_mod_step(10int, 50282nat, m, 25141nat, 76714int, 4876int, 773640int, 0int, 773640int);
    lemma_pow_mod_step(10int, 100565nat, m, 50282nat, 773640int, 495963int, 124497int, 1int, 38189int);
    lemma_pow_mod_step(10int, 201130nat, m, 100565nat, 38189int, 1208int, 608273int, 0int, 608273int);
    lemma_pow_mod_step(10int, 402260nat, m, 201130nat, 608273int, 306597int, 608272int, 0int, 608272int);
}

proof fn lemma_certificate_3()
    ensures
        pow_mod(10int, 402260nat, 1206781int) == 608272int,
{
    lemma_pow_mod_zero(10int, 1206781int);
    lemma_certificate_3_0();
    lemma_certificate_3_1();
}

proof fn lemma_certificate_5_0()
    requires
        pow_mod(10int, 0nat, 1206781int) == 1int,
    ensures
        pow_mod(10int, 3771nat, 1206781int) == 232181int,
{
    let m: int = 1206781int;
    lemma_pow_mod_step(10int, 1nat, m, 0nat, 1int, 0int, 1int, 0int, 10int);
    lemma_pow_mod_step(10int, 3nat, m, 1nat, 10int, 0int, 100int, 0int, 1000int);
    lemma_pow_mod_step(10int, 7nat, m, 3nat, 1000int, 0int, 1000000int, 8int, 345752int);
    lemma_pow_mod_step(10int, 14nat, m, 7nat, 345752int, 99060int, 719644int, 0int, 719644int);
    lemma_pow_mod_step(10int, 29nat, m, 14nat, 719644int, 429147int, 1040929int, 8int, 755042int);
    lemma_pow_mod_step(10int, 58nat, m, 29nat, 755042int, 472404int, 250240int, 0int, 250240int);
    lemma_pow_mod_step(10int, 117nat, m, 58nat, 250240int, 51890int, 191510int, 1int, 708319int);
    lemma_pow_mod_step(10int, 235nat, m, 117nat, 708319int, 415747int, 225354int, 1int, 1046759int);
    lemma_pow_mod_step(10int, 471nat, m, 235nat, 1046759int, 907956int, 354445int, 2int, 1130888int);
    lemma_pow_mod_step(10int, 942nat, m, 471nat, 1130888int, 1059767int, 988517int, 0int, 988517int);
    lemma_pow_mod_step(10int, 1885nat, m, 942nat, 988517int, 809729int, 286940int, 2int, 455838int);
    lemma_pow_mod_step(10int, 3771nat, m, 1885nat, 455838int, 172183int, 1109321int, 9int, 232181int);
}

proof fn lemma_certificate_5_1()
    requires
        pow_mod(10int, 3771nat, 1206781int) == 232181int,
    ensures
        pow_mod(10int, 241356nat, 1206781int) == 1065415int,
{
    let m: int = 1206781int;
    lemma_pow_mod_step(10int, 7542nat, m, 3771nat, 232181int, 44670int, 1109491int, 0int, 1109491int);
    lemma_pow_mod_step(10int, 15084nat, m, 7542nat, 1109491int, 1020044int, 560717int, 0int, 560717int);
    lemma_pow_mod_step(10int, 30169nat, m, 15084nat, 560717int, 260530int, 900159int, 7int, 554123int);
    lemma_pow_mod_step(10int, 60339nat, m, 30169nat, 554123int, 254439int, 148270int, 1int, 275919int);
    lemma_pow_mod_step(10int, 120678nat, m, 60339nat, 275919int, 63086int, 308395int, 0int, 308395int);
    lemma_pow_mod_step(10int, 241356nat, m, 120678nat, 308395int, 78810int, 1065415int, 0int, 1065415int);
}

proof fn lemma_certificate_5()
    ensures
        pow_mod(10int, 241356nat, 1206781int) == 1065415int,
{
    lemma_pow_mod_zero(10int, 1206781int);
    lemma_certificate_5_0();
    lemma_certificate_5_1();
}

proof fn lemma_certificate_20113_0()
    requires
        pow_mod(10int, 0nat, 1206781int) == 1int,
    ensures
        pow_mod(10int, 60nat, 1206781int) == 888380int,
{
    let m: int = 1206781int;
    lemma_pow_mod_step(10int, 1nat, m, 0nat, 1int, 0int, 1int, 0int, 10int);
    lemma_pow_mod_step(10int, 3nat, m, 1nat, 10int, 0int, 100int, 0int, 1000int);
    lemma_pow_mod_step(10int, 7nat, m, 3nat, 1000int, 0int, 1000000int, 8int, 345752int);
    lemma_pow_mod_step(10int, 15nat, m, 7nat, 345752int, 99060int, 719644int, 5int, 1162535int);
    lemma_pow_mod_step(10int, 30nat, m, 15nat, 1162535int, 1119911int, 309734int, 0int, 309734int);
    lemma_pow_mod_step(10int, 60nat, m, 30nat, 309734int, 79496int, 888380int, 0int, 888380int);
}

proof fn lemma_certificate_20113()
    ensures
        pow_mod(10int, 60nat, 1206781int) == 888380int,
{
    lemma_pow_mod_zero(10int, 1206781int);
    lemma_certificate_20113_0();
}

/// 1206781 is prime, by a Lucas certificate with witness 10.
pub proof fn lemma_prime_1206781()
    ensures
        is_prime(1206781int),
        forall|x: int| 1 <= x < 1206781int ==> #[trigger] power_of(10, 1206781int, x),
{
    lemma_small_primes();
    lemma_prime_20113();
    let fs: Seq<int> = Seq::empty().push(2int).push(2int).push(3int).push(5int).push(20113int);
    assert(product(Seq::<int>::empty()) == 1);
    lemma_product_push(Seq::<int>::empty(), 2int);
    lemma_product_push(Seq::<int>::empty().push(2int), 2int);
    lemma_product_push(Seq::<int>::empty().push(2int).push(2int), 3int);
    lemma_product_push(Seq::<int>::empty().push(2int).push(2int).push(3int), 5int);
    lemma_product_push(Seq::<int>::empty().push(2int).push(2int).push(3int).push(5int), 20113int);
    lemma_certificate_full();
    lemma_certificate_2();
    lemma_certificate_3();
    lemma_certificate_5();
    lemma_certificate_20113();
    assert forall|i: int| 0 <= i < fs.len() implies is_prime(#[trigger] fs[i])
        && pow_mod(10, ((1206781int - 1) / fs[i]) as nat, 1206781int) != 1 by {
        if i == 0 { assert(fs[0] == 2int); } else if i == 1 { assert(fs[1] == 2int); } else if i == 2 { assert(fs[2] == 3int); } else if i == 3 { assert(fs[3] == 5int); } else if i == 4 { assert(fs[4] == 20113int); }
    }
    lemma_lucas(1206781int, 10, fs);
}

} // verus!
