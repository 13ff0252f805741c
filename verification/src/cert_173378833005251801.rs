//! A Lucas certificate that 173378833005251801 is prime.
use vstd::prelude::*;
use crate::prime::{is_prime, pow_mod, power_of, product, lucas_certificate, lemma_lucas, lemma_pow_mod_step, lemma_pow_mod_zero, lemma_product_push};
use crate::cert_2621::lemma_prime_2621;
use crate::cert_24809::lemma_prime_24809;
use crate::cert_13331831::lemma_prime_13331831;
use crate::cert_small::lemma_small_primes;
verus! {

proof fn lemma_certificate_full_0()
    requires
        pow_mod(6int, 0nat, 173378833005251801int) == 1int,
    ensures
        pow_mod(6int, 2463nat, 173378833005251801int) == 25290898929434078int,
{
    let m: int = 173378833005251801int;
    lemma_pow_mod_step(6int, 1nat, m, 0nat, 1int, 0int, 1int, 0int, 6int);
    lemma_pow_mod_step(6int, 2nat, m, 1nat, 6int, 0int, 36int, 0int, 36int);
    lemma_pow_mod_step(6int, 4nat, m, 2nat, 36int, 0int, 1296int, 0int, 1296int);
    lemma_pow_mod_step(6int, 9nat, m, 4nat, 1296int, 0int, 1679616int, 0int, 10077696int);
    lemma_pow_mod_step(6int, 19nat, m, 9nat, 10077696int, 0int, 101559956668416int, 0int, 609359740010496int);
    lemma_pow_mod_step(6int, 38nat, m, 19nat, 609359740010496int, 2141664506038int, 21790213715291578int, 0int, 21790213715291578int);
    lemma_pow_mod_step(6int, 76nat, m, 38nat, 21790213715291578int, 2738589281793693int, 30065287159038991int, 0int, 30065287159038991int);
    lemma_pow_mod_step(6int, 153nat, m, 76nat, 30065287159038991int, 5213563133903976int, 153484026623237305int, 5int, 54009994713164825int);
    lemma_pow_mod_step(6int, 307nat, m, 153nat, 54009994713164825int, 16824888473137498int, 129238221632146727int, 4int, 81913997771873158int);
    lemma_pow_mod_step(6int, 615nat, m, 307nat, 81913997771873158int, 38700820132796670int, 16612872356590294int, 0int, 99677234139541764int);
    lemma_pow_mod_step(6int, 1231nat, m, 615nat, 99677234139541764int, 57305444000814524int, 136794042182273972int, 4int, 127248921072636628int);
    lemma_pow_mod_step(6int, 2463nat, m, 1231nat, 127248921072636628int, 93392530296126904int, 62008094156656280int, 2int, 25290898929434078int);
}

proof fn lemma_certificate_full_1()
    requires
        pow_mod(6int, 2463nat, 173378833005251801int) == 25290898929434078int,
    ensures
        pow_mod(6int, 10091976nat, 173378833005251801int) == 134731246558790741int,
{
    let m: int = 173378833005251801int;
    lemma_pow_mod_step(6int, 4927nat, m, 2463nat, 25290898929434078int, 3689202179827077int, 84933434324894407int, 2int, 162842939938862840int);
    lemma_pow_mod_step(6int, 9855nat, m, 4927nat, 162842939938862840int, 152947292517125441int, 29457867424696359int, 1int, 3368371542926353int);
    lemma_pow_mod_step(6int, 19710nat, m, 9855nat, 3368371542926353int, 65440092394971int, 134539427780787838int, 0int, 134539427780787838int);
    lemma_pow_mod_step(6int, 39421nat, m, 19710nat, 134539427780787838int, 104400619809417767int, 144365668930565877int, 4int, 172678681562388058int);
    lemma_pow_mod_step(6int, 78843nat, m, 39421nat, 172678681562388058int, 171981357523737661int, 119709187809233903int, 4int, 24739794834396214int);
    lemma_pow_mod_step(6int, 157687nat, m, 78843nat, 24739794834396214int, 3530174000129980int, 41639477308439816int, 1int, 76458030845387095int);
    lemma_pow_mod_step(6int, 315374nat, m, 157687nat, 76458030845387095int, 33717094407810952int, 44417988427014473int, 0int, 44417988427014473int);
    lemma_pow_mod_step(6int, 630748nat, m, 315374nat, 44417988427014473int, 11379461158575389int, 104588903764942140int, 0int, 104588903764942140int);
    lemma_pow_mod_step(6int, 1261497nat, m, 630748nat, 104588903764942140int, 63092123768193669int, 19375117268731731int, 0int, 116250703612390386int);
    lemma_pow_mod_step(6int, 2522994nat, m, 1261497nat, 116250703612390386int, 77946228245557963int, 2661272309587633int, 0int, 2661272309587633int);
    lemma_pow_mod_step(6int, 5045988nat, m, 2522994nat, 2661272309587633int, 40849105874206int, 81886177245597683int, 0int, 81886177245597683int);
    lemma_pow_mod_step(6int, 10091976nat, m, 5045988nat, 81886177245597683int, 38674536606751348int, 134731246558790741int, 0int, 134731246558790741int);
}

proof fn lemma_certificate_full_2()
    requires
        pow_mod(6int, 10091976nat, 173378833005251801int) == 134731246558790741int,
    ensures
        pow_mod(6int, 41336735011nat, 173378833005251801int) == 135235477390634299int,
{
    let m: int = 173378833005251801int;
    lemma_pow_mod_step(6int, 20183952nat, m, 10091976nat, 134731246558790741int, 104698529137843522int, 67639182480645959int, 0int, 67639182480645959int);
    lemma_pow_mod_step(6int, 40367905nat, m, 20183952nat, 67639182480645959int, 26387644485480765int, 90407876535921916int, 3int, 22310760199776093int);
    lemma_pow_mod_step(6int, 80735810nat, m, 40367905nat, 22310760199776093int, 2870996488232419int, 28016924828008030int, 0int, 28016924828008030int);
    lemma_pow_mod_step(6int, 161471621nat, m, 80735810nat, 28016924828008030int, 4527358174076970int, 86434752139357930int, 2int, 171850846825643978int);
    lemma_pow_mod_step(6int, 322943242nat, m, 161471621nat, 171850846825643978int, 170336326775231993int, 168000095251595091int, 0int, 168000095251595091int);
    lemma_pow_mod_step(6int, 645886484nat, m, 322943242nat, 168000095251595091int, 162788222272150673int, 8945667638686208int, 0int, 8945667638686208int);
    lemma_pow_mod_step(6int, 1291772969nat, m, 645886484nat, 8945667638686208int, 461561357374078int, 59952351749204786int, 2int, 12956444484725114int);
    lemma_pow_mod_step(6int, 2583545938nat, m, 1291772969nat, 12956444484725114int, 968223460592094int, 161142805122451702int, 0int, 161142805122451702int);
    lemma_pow_mod_step(6int, 5167091876nat, m, 2583545938nat, 161142805122451702int, 149770321974343215int, 4719366651816589int, 0int, 4719366651816589int);
    lemma_pow_mod_step(6int, 10334183752nat, m, 5167091876nat, 4719366651816589int, 128461019192601int, 106266323974470520int, 0int, 106266323974470520int);
    lemma_pow_mod_step(6int, 20668367505nat, m, 10334183752nat, 106266323974470520int, 65132123773754245int, 34525503031425155int, 1int, 33774185183299129int);
    lemma_pow_mod_step(6int, 41336735011nat, m, 20668367505nat, 33774185183299129int, 6579209036210491int, 51435718399314350int, 1int, 135235477390634299int);
}

proof fn lemma_certificate_full_3()
    requires
        pow_mod(6int, 41336735011nat, 173378833005251801int) == 135235477390634299int,
    ensures
        pow_mod(6int, 169315266606691nat, 173378833005251801int) == 73823054158385341int,
{
    let m: int = 173378833005251801int;
    lemma_pow_mod_step(6int, 82673470022nat, m, 41336735011nat, 135235477390634299int, 105483662728995190int, 158029331887384211int, 0int, 158029331887384211int);
    lemma_pow_mod_step(6int, 165346940045nat, m, 82673470022nat, 158029331887384211int, 144038746275426628int, 24543264091735493int, 0int, 147259584550412958int);
    lemma_pow_mod_step(6int, 330693880091nat, m, 165346940045nat, 147259584550412958int, 125075159787834959int, 112261609908798605int, 3int, 153433160437036227int);
    lemma_pow_mod_step(6int, 661387760182nat, m, 330693880091nat, 153433160437036227int, 135782057784321333int, 117777158149424796int, 0int, 117777158149424796int);
    lemma_pow_mod_step(6int, 1322775520364nat, m, 661387760182nat, 117777158149424796int, 80006646378421757int, 41620882897807259int, 0int, 41620882897807259int);
    lemma_pow_mod_step(6int, 2645551040729nat, m, 1322775520364nat, 41620882897807259int, 9991403582353746int, 39239123327496535int, 1int, 62055906959727409int);
    lemma_pow_mod_step(6int, 5291102081459nat, m, 2645551040729nat, 62055906959727409int, 22211105714834845int, 157091647232047436int, 5int, 75655718366025611int);
    lemma_pow_mod_step(6int, 10582204162918nat, m, 5291102081459nat, 75655718366025611int, 33013186340376430int, 48020378632472891int, 0int, 48020378632472891int);
    lemma_pow_mod_step(6int, 21164408325836nat, m, 10582204162918nat, 48020378632472891int, 13300105462909705int, 56723074198269176int, 0int, 56723074198269176int);
    lemma_pow_mod_step(6int, 42328816651672nat, m, 21164408325836nat, 56723074198269176int, 18557669876604193int, 149182325374317383int, 0int, 149182325374317383int);
    lemma_pow_mod_step(6int, 84657633303345nat, m, 42328816651672nat, 149182325374317383int, 128362648532849249int, 65350569997221240int, 2int, 45345753972823838int);
    lemma_pow_mod_step(6int, 169315266606691nat, m, 84657633303345nat, 45345753972823838int, 11859794922610787int, 41200314527272857int, 1int, 73823054158385341int);
}

proof fn lemma_certificate_full_4()
    requires
        pow_mod(6int, 169315266606691nat, 173378833005251801int) == 73823054158385341int,
    ensures
        pow_mod(6int, 173378833005251800nat, 173378833005251801int) == 1int,
{
    let m: int = 173378833005251801int;
    lemma_pow_mod_step(6int, 338630533213382nat, m, 169315266606691nat, 73823054158385341int, 31433152656569181int, 139888048562341300int, 0int, 139888048562341300int);
    lemma_pow_mod_step(6int, 677261066426764nat, m, 338630533213382nat, 139888048562341300int, 112866523504557245int, 8989695441841755int, 0int, 8989695441841755int);
    lemma_pow_mod_step(6int, 1354522132853529nat, m, 677261066426764nat, 8989695441841755int, 466115861643978int, 111787614756175647int, 3int, 150589189521298479int);
    lemma_pow_mod_step(6int, 2709044265707059nat, m, 1354522132853529nat, 150589189521298479int, 130795112688263634int, 67968708566408607int, 2int, 61054585387948040int);
    lemma_pow_mod_step(6int, 5418088531414118nat, m, 2709044265707059nat, 61054585387948040int, 21500100861685486int, 91107143042781314int, 0int, 91107143042781314int);
    lemma_pow_mod_step(6int, 10836177062828237nat, m, 5418088531414118nat, 91107143042781314int, 47874999326857769int, 70938676869474627int, 2int, 78874395206344160int);
    lemma_pow_mod_step(6int, 21672354125656475nat, m, 10836177062828237nat, 78874395206344160int, 35881947705681706int, 101572567476853094int, 3int, 89298905845363161int);
    lemma_pow_mod_step(6int, 43344708251312950nat, m, 21672354125656475nat, 89298905845363161int, 45993472484253521int, 12009015850070600int, 0int, 12009015850070600int);
    lemma_pow_mod_step(6int, 86689416502625900nat, m, 43344708251312950nat, 12009015850070600int, 831799702348200int, 173378833005251800int, 0int, 173378833005251800int);
    lemma_pow_mod_step(6int, 173378833005251800nat, m, 86689416502625900nat, 173378833005251800int, 173378833005251799int, 1int, 0int, 1int);
}

proof fn lemma_certificate_full()
    ensures
        pow_mod(6int, 173378833005251800nat, 173378833005251801int) == 1int,
{
    lemma_pow_mod_zero(6int, 173378833005251801int);
    lemma_certificate_full_0();
    lemma_certificate_full_1();
    lemma_certificate_full_2();
    lemma_certificate_full_3();
    lemma_certificate_full_4();
}

proof fn lemma_certificate_2_0()
    requires
        pow_mod(6int, 0nat, 173378833005251801int) == 1int,
    ensures
        pow_mod(6int, 2463nat, 173378833005251801int) == 25290898929434078int,
{
    let m: int = 173378833005251801int;
    lemma_pow_mod_step(6int, 1nat, m, 0nat, 1int, 0int, 1int, 0int, 6int);
    lemma_pow_mod_step(6int, 2nat, m, 1nat, 6int, 0int, 36int, 0int, 36int);
    lemma_pow_mod_step(6int, 4nat, m, 2nat, 36int, 0int, 1296int, 0int, 1296int);
    lemma_pow_mod_step(6int, 9nat, m, 4nat, 1296int, 0int, 1679616int, 0int, 10077696int);
    lemma_pow_mod_step(6int, 19nat, m, 9nat, 10077696int, 0int, 101559956668416int, 0int, 609359740010496int);
    lemma_pow_mod_step(6int, 38nat, m, 19nat, 609359740010496int, 2141664506038int, 21790213715291578int, 0int, 21790213715291578int);
    lemma_pow_mod_step(6int, 76nat, m, 38nat, 21790213715291578int, 2738589281793693int, 30065287159038991int, 0int, 30065287159038991int);
    lemma_pow_mod_step(6int, 153nat, m, 76nat, 30065287159038991int, 5213563133903976int, 153484026623237305int, 5int, 54009994713164825int);
    lemma_pow_mod_step(6int, 307nat, m, 153nat, 54009994713164825int, 16824888473137498int, 129238221632146727int, 4int, 81913997771873158int);
    lemma_pow_mod_step(6int, 615nat, m, 307nat, 81913997771873158int, 38700820132796670int, 16612872356590294int, 0int, 99677234139541764int);
    lemma_pow_mod_step(6int, 1231nat, m, 615nat, 99677234139541764int, 57305444000814524int, 136794042182273972int, 4int, 127248921072636628int);
    lemma_pow_mod_step(6int, 2463nat, m, 1231nat, 127248921072636628int, 93392530296126904int, 62008094156656280int, 2int, 25290898929434078int);
}

proof fn lemma_certificate_2_1()
    requires
        pow_mod(6int, 2463nat, 173378833005251801int) == 25290898929434078int,
    ensures
        pow_mod(6int, 10091976nat, 173378833005251801int) == 134731246558790741int,
{
    let m: int = 173378833005251801int;
    lemma_pow_mod_step(6int, 4927nat, m, 2463nat, 25290898929434078int, 3689202179827077int, 84933434324894407int, 2int, 162842939938862840int);
    lemma_pow_mod_step(6int, 9855nat, m, 4927nat, 162842939938862840int, 152947292517125441int, 29457867424696359int, 1int, 3368371542926353int);
    lemma_pow_mod_step(6int, 19710nat, m, 9855nat, 3368371542926353int, 65440092394971int, 134539427780787838int, 0int, 134539427780787838int);
    lemma_pow_mod_step(6int, 39421nat, m, 19710nat, 134539427780787838int, 104400619809417767int, 144365668930565877int, 4int, 172678681562388058int);
    lemma_pow_mod_step(6int, 78843nat, m, 39421nat, 172678681562388058int, 171981357523737661int, 119709187809233903int, 4int, 24739794834396214int);
    lemma_pow_mod_step(6int, 157687nat, m, 78843nat, 24739794834396214int, 3530174000129980int, 41639477308439816int, 1int, 76458030845387095int);
    lemma_pow_mod_step(6int, 315374nat, m, 157687nat, 76458030845387095int, 33717094407810952int, 44417988427014473int, 0int, 44417988427014473int);
    lemma_pow_mod_step(6int, 630748nat, m, 315374nat, 44417988427014473int, 11379461158575389int, 104588903764942140int, 0int, 104588903764942140int);
    lemma_pow_mod_step(6int, 1261497nat, m, 630748nat, 104588903764942140int, 63092123768193669int, 19375117268731731int, 0int, 116250703612390386int);
    lemma_pow_mod_step(6int, 2522994nat, m, 1261497nat, 116250703612390386int, 77946228245557963int, 2661272309587633int, 0int, 2661272309587633int);
    lemma_pow_mod_step(6int, 5045988nat, m, 2522994nat, 2661272309587633int, 40849105874206int, 81886177245597683int, 0int, 81886177245597683int);
    lemma_pow_mod_step(6int, 10091976nat, m, 5045988nat, 81886177245597683int, 38674536606751348int, 134731246558790741int, 0int, 134731246558790741int);
}

proof fn lemma_certificate_2_2()
    requires
        pow_mod(6int, 10091976nat, 173378833005251801int) == 134731246558790741int,
    ensures
        pow_mod(6int, 41336735011nat, 173378833005251801int) == 135235477390634299int,
{
    let m: int = 173378833005251801int;
    lemma_pow_mod_step(6int, 20183952nat, m, 10091976nat, 134731246558790741int, 104698529137843522int, 67639182480645959int, 0int, 67639182480645959int);
    lemma_pow_mod_step(6int, 40367905nat, m, 20183952nat, 67639182480645959int, 26387644485480765int, 90407876535921916int, 3int, 22310760199776093int);
    lemma_pow_mod_step(6int, 80735810nat, m, 40367905nat, 22310760199776093int, 2870996488232419int, 28016924828008030int, 0int, 28016924828008030int);
    lemma_pow_mod_step(6int, 161471621nat, m, 80735810nat, 28016924828008030int, 4527358174076970int, 86434752139357930int, 2int, 171850846825643978int);
    lemma_pow_mod_step(6int, 322943242nat, m, 161471621nat, 171850846825643978int, 170336326775231993int, 168000095251595091int, 0int, 168000095251595091int);
    lemma_pow_mod_step(6int, 645886484nat, m, 322943242nat, 168000095251595091int, 162788222272150673int, 8945667638686208int, 0int, 8945667638686208int);
    lemma_pow_mod_step(6int, 1291772969nat, m, 645886484nat, 8945667638686208int, 461561357374078int, 59952351749204786int, 2int, 12956444484725114int);
    lemma_pow_mod_step(6int, 2583545938nat, m, 1291772969nat, 12956444484725114int, 968223460592094int, 161142805122451702int, 0int, 161142805122451702int);
    lemma_pow_mod_step(6int, 5167091876nat, m, 2583545938nat, 161142805122451702int, 149770321974343215int, 4719366651816589int, 0int, 4719366651816589int);
    lemma_pow_mod_step(6int, 10334183752nat, m, 5167091876nat, 4719366651816589int, 128461019192601int, 106266323974470520int, 0int, 106266323974470520int);
    lemma_pow_mod_step(6int, 20668367505nat, m, 10334183752nat, 106266323974470520int, 65132123773754245int, 34525503031425155int, 1int, 33774185183299129int);
    lemma_pow_mod_step(6int, 41336735011nat, m, 20668367505nat, 33774185183299129int, 6579209036210491int, 51435718399314350int, 1int, 135235477390634299int);
}

proof fn lemma_certificate_2_3()
    requires
        pow_mod(6int, 41336735011nat, 173378833005251801int) == 135235477390634299int,
    ensures
        pow_mod(6int, 169315266606691nat, 173378833005251801int) == 73823054158385341int,
{
    let m: int = 173378833005251801int;
    lemma_pow_mod_step(6int, 82673470022nat, m, 41336735011nat, 135235477390634299int, 105483662728995190int, 158029331887384211int, 0int, 158029331887384211int);
    lemma_pow_mod_step(6int, 165346940045nat, m, 82673470022nat, 158029331887384211int, 144038746275426628int, 24543264091735493int, 0int, 147259584550412958int);
    lemma_pow_mod_step(6int, 330693880091nat, m, 165346940045nat, 147259584550412958int, 125075159787834959int, 112261609908798605int, 3int, 153433160437036227int);
    lemma_pow_mod_step(6int, 661387760182nat, m, 330693880091nat, 153433160437036227int, 135782057784321333int, 117777158149424796int, 0int, 117777158149424796int);
    lemma_pow_mod_step(6int, 1322775520364nat, m, 661387760182nat, 117777158149424796int, 80006646378421757int, 41620882897807259int, 0int, 41620882897807259int);
    lemma_pow_mod_step(6int, 2645551040729nat, m, 1322775520364nat, 41620882897807259int, 9991403582353746int, 39239123327496535int, 1int, 62055906959727409int);
    lemma_pow_mod_step(6int, 5291102081459nat, m, 2645551040729nat, 62055906959727409int, 22211105714834845int, 157091647232047436int, 5int, 75655718366025611int);
    lemma_pow_mod_step(6int, 10582204162918nat, m, 5291102081459nat, 75655718366025611int, 33013186340376430int, 48020378632472891int, 0int, 48020378632472891int);
    lemma_pow_mod_step(6int, 21164408325836nat, m, 10582204162918nat, 48020378632472891int, 13300105462909705int, 56723074198269176int, 0int, 56723074198269176int);
    lemma_pow_mod_step(6int, 42328816651672nat, m, 21164408325836nat, 56723074198269176int, 18557669876604193int, 149182325374317383int, 0int, 149182325374317383int);
    lemma_pow_mod_step(6int, 84657633303345nat, m, 42328816651672nat, 149182325374317383int, 128362648532849249int, 65350569997221240int, 2int, 45345753972823838int);
    lemma_pow_mod_step(6int, 169315266606691nat, m, 84657633303345nat, 45345753972823838int, 11859794922610787int, 41200314527272857int, 1int, 73823054158385341int);
}

proof fn lemma_certificate_2_4()
    requires
        pow_mod(6int, 169315266606691nat, 173378833005251801int) == 73823054158385341int,
    ensures
        pow_mod(6int, 86689416502625900nat, 173378833005251801int) == 173378833005251800int,
{
    let m: int = 173378833005251801int;
    lemma_pow_mod_step(6int, 338630533213382nat, m, 169315266606691nat, 73823054158385341int, 31433152656569181int, 139888048562341300int, 0int, 139888048562341300int);
    lemma_pow_mod_step(6int, 677261066426764nat, m, 338630533213382nat, 139888048562341300int, 112866523504557245int, 8989695441841755int, 0int, 8989695441841755int);
    lemma_pow_mod_step(6int, 1354522132853529nat, m, 677261066426764nat, 8989695441841755int, 466115861643978int, 111787614756175647int, 3int, 150589189521298479int);
    lemma_pow_mod_step(6int, 2709044265707059nat, m, 1354522132853529nat, 150589189521298479int, 130795112688263634int, 67968708566408607int, 2int, 61054585387948040int);
    lemma_pow_mod_step(6int, 5418088531414118nat, m, 2709044265707059nat, 61054585387948040int, 21500100861685486int, 91107143042781314int, 0int, 91107143042781314int);
    lemma_pow_mod_step(6int, 10836177062828237nat, m, 5418088531414118nat, 91107143042781314int, 47874999326857769int, 70938676869474627int, 2int, 78874395206344160int);
    lemma_pow_mod_step(6int, 21672354125656475nat, m, 10836177062828237nat, 78874395206344160int, 35881947705681706int, 101572567476853094int, 3int, 89298905845363161int);
    lemma_pow_mod_step(6int, 43344708251312950nat, m, 21672354125656475nat, 89298905845363161int, 45993472484253521int, 12009015850070600int, 0int, 12009015850070600int);
    lemma_pow_mod_step(6int, 86689416502625900nat, m, 43344708251312950nat, 12009015850070600int, 831799702348200int, 173378833005251800int, 0int, 173378833005251800int);
}

proof fn lemma_certificate_2()
    ensures
        pow_mod(6int, 86689416502625900nat, 173378833005251801int) == 173378833005251800int,
{
    lemma_pow_mod_zero(6int, 173378833005251801int);
    lemma_certificate_2_0();
    lemma_certificate_2_1();
    lemma_certificate_2_2();
    lemma_certificate_2_3();
    lemma_certificate_2_4();
}

proof fn lemma_certificate_5_0()
    requires
        pow_mod(6int, 0nat, 173378833005251801int) == 1int,
    ensures
        pow_mod(6int, 3942nat, 173378833005251801int) == 50222000233613978int,
{
    let m: int = 173378833005251801int;
    lemma_pow_mod_step(6int, 1nat, m, 0nat, 1int, 0int, 1int, 0int, 6int);
    lemma_pow_mod_step(6int, 3nat, m, 1nat, 6int, 0int, 36int, 0int, 216int);
    lemma_pow_mod_step(6int, 7nat, m, 3nat, 216int, 0int, 46656int, 0int, 279936int);
    lemma_pow_mod_step(6int, 15nat, m, 7nat, 279936int, 0int, 78364164096int, 0int, 470184984576int);
    lemma_pow_mod_step(6int, 30nat, m, 15nat, 470184984576int, 1275091int, 130165233833710885int, 0int, 130165233833710885int);
    lemma_pow_mod_step(6int, 61nat, m, 30nat, 130165233833710885int, 97722356329803041int, 159269880826956384int, 5int, 88725119935479299int);
    lemma_pow_mod_step(6int, 123nat, m, 61nat, 88725119935479299int, 45404313612646889int, 51208931313234312int, 1int, 133874754874154071int);
    lemma_pow_mod_step(6int, 246nat, m, 123nat, 133874754874154071int, 103371615104088006int, 29440145351874235int, 0int, 29440145351874235int);
    lemma_pow_mod_step(6int, 492nat, m, 246nat, 29440145351874235int, 4999007914150790int, 173153012223762435int, 0int, 173153012223762435int);
    lemma_pow_mod_step(6int, 985nat, m, 492nat, 173153012223762435int, 172927485567135190int, 98415831159152035int, 3int, 70358487939156807int);
    lemma_pow_mod_step(6int, 1971nat, m, 985nat, 70358487939156807int, 28552025292121583int, 164923697712714266int, 5int, 122648021250026591int);
    lemma_pow_mod_step(6int, 3942nat, m, 1971nat, 122648021250026591int, 86761093357291903int, 50222000233613978int, 0int, 50222000233613978int);
}

proof fn lemma_certificate_5_1()
    requires
        pow_mod(6int, 3942nat, 173378833005251801int) == 50222000233613978int,
    ensures
        pow_mod(6int, 16147162nat, 173378833005251801int) == 38988705486204730int,
{
    let m: int = 173378833005251801int;
    lemma_pow_mod_step(6int, 7884nat, m, 3942nat, 50222000233613978int, 14547619589691904int, 112630695185865380int, 0int, 112630695185865380int);
    lemma_pow_mod_step(6int, 15768nat, m, 7884nat, 112630695185865380int, 73167371576823673int, 139495996339859327int, 0int, 139495996339859327int);
    lemma_pow_mod_step(6int, 31537nat, m, 15768nat, 139495996339859327int, 112234767402434944int, 142194518907558785int, 4int, 159651781424345506int);
    lemma_pow_mod_step(6int, 63074nat, m, 31537nat, 159651781424345506int, 147011551930303495int, 50201025637051541int, 0int, 50201025637051541int);
    lemma_pow_mod_step(6int, 126149nat, m, 63074nat, 50201025637051541int, 14535470860710942int, 3201277304568139int, 0int, 19207663827408834int);
    lemma_pow_mod_step(6int, 252299nat, m, 126149nat, 19207663827408834int, 2127908830114079int, 150383553631033277int, 5int, 35407156759940657int);
    lemma_pow_mod_step(6int, 504598nat, m, 252299nat, 35407156759940657int, 7230794717513392int, 102033018611972657int, 0int, 102033018611972657int);
    lemma_pow_mod_step(6int, 1009197nat, m, 504598nat, 102033018611972657int, 60046181570248589int, 151754734805680860int, 5int, 43634243807826155int);
    lemma_pow_mod_step(6int, 2018395nat, m, 1009197nat, 43634243807826155int, 10981428353616516int, 619647129738709int, 0int, 3717882778432254int);
    lemma_pow_mod_step(6int, 4036790nat, m, 2018395nat, 3717882778432254int, 79725143574731int, 127031156151679985int, 0int, 127031156151679985int);
    lemma_pow_mod_step(6int, 8073581nat, m, 4036790nat, 127031156151679985int, 93073152896026829int, 70069074253031196int, 2int, 73656779507683574int);
    lemma_pow_mod_step(6int, 16147162nat, m, 8073581nat, 73656779507683574int, 31291715796005946int, 38988705486204730int, 0int, 38988705486204730int);
}

proof fn lemma_certificate_5_2()
    requires
        pow_mod(6int, 16147162nat, 173378833005251801int) == 38988705486204730int,
    ensures
        pow_mod(6int, 66138776018nat, 173378833005251801int) == 172067236360860544int,
{
    let m: int = 173378833005251801int;
    lemma_pow_mod_step(6int, 32294324nat, m, 16147162nat, 38988705486204730int, 8767616721955701int, 116199422801905399int, 0int, 116199422801905399int);
    lemma_pow_mod_step(6int, 64588648nat, m, 32294324nat, 116199422801905399int, 77877475730194673int, 95537103831493128int, 0int, 95537103831493128int);
    lemma_pow_mod_step(6int, 129177296nat, m, 64588648nat, 95537103831493128int, 52643901509205703int, 80762642891003281int, 0int, 80762642891003281int);
    lemma_pow_mod_step(6int, 258354593nat, m, 129177296nat, 80762642891003281int, 37620535181143751int, 84436201820119410int, 2int, 159859544910212858int);
    lemma_pow_mod_step(6int, 516709187nat, m, 258354593nat, 159859544910212858int, 147394429042709472int, 50873844220769092int, 1int, 131864232319362751int);
    lemma_pow_mod_step(6int, 1033418375nat, m, 516709187nat, 131864232319362751int, 100290072690985112int, 39054146424101289int, 1int, 60946045539355933int);
    lemma_pow_mod_step(6int, 2066836750nat, m, 1033418375nat, 60946045539355933int, 21423725160110715int, 159459602849152774int, 0int, 159459602849152774int);
    lemma_pow_mod_step(6int, 4133673501nat, m, 2066836750nat, 159459602849152774int, 146657838791885937int, 68935743236072539int, 2int, 66856793405931632int);
    lemma_pow_mod_step(6int, 8267347002nat, m, 4133673501nat, 66856793405931632int, 25780718136383050int, 99062817219810374int, 0int, 99062817219810374int);
    lemma_pow_mod_step(6int, 16534694004nat, m, 8267347002nat, 99062817219810374int, 56601152432651918int, 129845068742415558int, 0int, 129845068742415558int);
    lemma_pow_mod_step(6int, 33069388009nat, m, 16534694004nat, 129845068742415558int, 97242215698913632int, 127115522449000132int, 4int, 69177802672993588int);
    lemma_pow_mod_step(6int, 66138776018nat, m, 33069388009nat, 69177802672993588int, 27601802940493200int, 172067236360860544int, 0int, 172067236360860544int);
}

proof fn lemma_certificate_5_3()
    requires
        pow_mod(6int, 66138776018nat, 173378833005251801int) == 172067236360860544int,
    ensures
        pow_mod(6int, 270904426570705nat, 173378833005251801int) == 57961934453885441int,
{
    let m: int = 173378833005251801int;
    lemma_pow_mod_step(6int, 132277552036nat, m, 66138776018nat, 172067236360860544int, 170765561837455799int, 37167021013331937int, 0int, 37167021013331937int);
    lemma_pow_mod_step(6int, 264555104072nat, m, 132277552036nat, 37167021013331937int, 7967451545619841int, 856803717588328int, 0int, 856803717588328int);
    lemma_pow_mod_step(6int, 529110208145nat, m, 264555104072nat, 856803717588328int, 4234153603115int, 118526854488875469int, 4int, 17645794912245610int);
    lemma_pow_mod_step(6int, 1058220416291nat, m, 529110208145nat, 17645794912245610int, 1795917487087949int, 87882609986625951int, 3int, 7159160904000303int);
    lemma_pow_mod_step(6int, 2116440832583nat, m, 1058220416291nat, 7159160904000303int, 295616160063863int, 146010589268324546int, 5int, 9169370583688271int);
    lemma_pow_mod_step(6int, 4232881665167nat, m, 2116440832583nat, 9169370583688271int, 484934380071995int, 55666506219556446int, 1int, 160620204312086875int);
    lemma_pow_mod_step(6int, 8465763330334nat, m, 4232881665167nat, 160620204312086875int, 148800459583639375int, 21052025694001250int, 0int, 21052025694001250int);
    lemma_pow_mod_step(6int, 16931526660669nat, m, 8465763330334nat, 21052025694001250int, 2556181617668774int, 37863638516600526int, 1int, 53802998094351355int);
    lemma_pow_mod_step(6int, 33863053321338nat, m, 16931526660669nat, 53802998094351355int, 16696170771048450int, 123816345169577575int, 0int, 123816345169577575int);
    lemma_pow_mod_step(6int, 67726106642676nat, m, 33863053321338nat, 123816345169577575int, 88421908634530962int, 127567219602118063int, 0int, 127567219602118063int);
    lemma_pow_mod_step(6int, 135452213285352nat, m, 67726106642676nat, 127567219602118063int, 93860335976088148int, 163988916079117421int, 0int, 163988916079117421int);
    lemma_pow_mod_step(6int, 270904426570705nat, m, 135452213285352nat, 163988916079117421int, 155107541853100500int, 154142683246690741int, 5int, 57961934453885441int);
}

proof fn lemma_certificate_5_4()
    requires
        pow_mod(6int, 270904426570705nat, 173378833005251801int) == 57961934453885441int,
    ensures
        pow_mod(6int, 34675766601050360nat, 173378833005251801int) == 152071994513768143int,
{
    let m: int = 173378833005251801int;
    lemma_pow_mod_step(6int, 541808853141411nat, m, 270904426570705nat, 57961934453885441int, 19377139570057824int, 7007220301623457int, 0int, 42043321809740742int);
    lemma_pow_mod_step(6int, 1083617706282823nat, m, 541808853141411nat, 42043321809740742int, 10195252085610001int, 39441141565848763int, 1int, 63268016389840777int);
    lemma_pow_mod_step(6int, 2167235412565647nat, m, 1083617706282823nat, 63268016389840777int, 23087258280161059int, 37765540282146470int, 1int, 53214408687627019int);
    lemma_pow_mod_step(6int, 4334470825131295nat, m, 2167235412565647nat, 53214408687627019int, 16332866261062081int, 46916236160768480int, 1int, 108118583959359079int);
    lemma_pow_mod_step(6int, 8668941650262590nat, m, 4334470825131295nat, 108118583959359079int, 67422464407883567int, 127362858134674074int, 0int, 127362858134674074int);
    lemma_pow_mod_step(6int, 17337883300525180nat, m, 8668941650262590nat, 127362858134674074int, 93559850133157582int, 57673117085452294int, 0int, 57673117085452294int);
    lemma_pow_mod_step(6int, 34675766601050360nat, m, 17337883300525180nat, 57673117085452294int, 19184512761436893int, 152071994513768143int, 0int, 152071994513768143int);
}

proof fn lemma_certificate_5()
    ensures
        pow_mod(6int, 34675766601050360nat, 173378833005251801int) == 152071994513768143int,
{
    lemma_pow_mod_zero(6int, 173378833005251801int);
    lemma_certificate_5_0();
    lemma_certificate_5_1();
    lemma_certificate_5_2();
    lemma_certificate_5_3();
    lemma_certificate_5_4();
}

proof fn lemma_certificate_2621_0()
    requires
        pow_mod(6int, 0nat, 173378833005251801int) == 1int,
    ensures
        pow_mod(6int, 3850nat, 173378833005251801int) == 97794684915265168int,
{
    let m: int = 173378833005251801int;
    lemma_pow_mod_step(6int, 1nat, m, 0nat, 1int, 0int, 1int, 0int, 6int);
    lemma_pow_mod_step(6int, 3nat, m, 1nat, 6int, 0int, 36int, 0int, 216int);
    lemma_pow_mod_step(6int, 7nat, m, 3nat, 216int, 0int, 46656int, 0int, 279936int);
    lemma_pow_mod_step(6int, 15nat, m, 7nat, 279936int, 0int, 78364164096int, 0int, 470184984576int);
    lemma_pow_mod_step(6int, 30nat, m, 15nat, 470184984576int, 1275091int, 130165233833710885int, 0int, 130165233833710885int);
    lemma_pow_mod_step(6int, 60nat, m, 30nat, 130165233833710885int, 97722356329803041int, 159269880826956384int, 0int, 159269880826956384int);
    lemma_pow_mod_step(6int, 120nat, m, 60nat, 159269880826956384int, 146309064947187080int, 117008358984424376int, 0int, 117008358984424376int);
    lemma_pow_mod_step(6int, 240nat, m, 120nat, 117008358984424376int, 78965556722908690int, 163438869481938686int, 0int, 163438869481938686int);
    lemma_pow_mod_step(6int, 481nat, m, 240nat, 163438869481938686int, 154068772955260635int, 123622999305252961int, 4int, 48222663810510562int);
    lemma_pow_mod_step(6int, 962nat, m, 481nat, 48222663810510562int, 13412394492879565int, 19402838721209279int, 0int, 19402838721209279int);
    lemma_pow_mod_step(6int, 1925nat, m, 962nat, 19402838721209279int, 2171373194269074int, 171186750598597567int, 5int, 160226338565326397int);
    lemma_pow_mod_step(6int, 3850nat, m, 1925nat, 160226338565326397int, 148071590545732641int, 97794684915265168int, 0int, 97794684915265168int);
}

proof fn lemma_certificate_2621_1()
    requires
        pow_mod(6int, 3850nat, 173378833005251801int) == 97794684915265168int,
    ensures
        pow_mod(6int, 15771360nat, 173378833005251801int) == 94943748857634501int,
{
    let m: int = 173378833005251801int;
    lemma_pow_mod_step(6int, 7700nat, m, 3850nat, 97794684915265168int, 55161291790366915int, 107348015999504309int, 0int, 107348015999504309int);
    lemma_pow_mod_step(6int, 15401nat, m, 7700nat, 107348015999504309int, 66464840830257364int, 131688735255054917int, 4int, 96617079509322298int);
    lemma_pow_mod_step(6int, 30803nat, m, 15401nat, 96617079509322298int, 53840828728083233int, 81502221988848171int, 2int, 142255665922585424int);
    lemma_pow_mod_step(6int, 61606nat, m, 30803nat, 142255665922585424int, 116719406494478162int, 104725731671590014int, 0int, 104725731671590014int);
    lemma_pow_mod_step(6int, 123213nat, m, 61606nat, 104725731671590014int, 63257311657055950int, 108609426809254246int, 3int, 131520061839770073int);
    lemma_pow_mod_step(6int, 246427nat, m, 123213nat, 131520061839770073int, 99767234364837295int, 55901459635707034int, 1int, 162029924808990403int);
    lemma_pow_mod_step(6int, 492855nat, m, 246427nat, 162029924808990403int, 151423885364436820int, 17692321490389589int, 0int, 106153928942337534int);
    lemma_pow_mod_step(6int, 985710nat, m, 492855nat, 106153928942337534int, 64994419644948865int, 43406824891045291int, 0int, 43406824891045291int);
    lemma_pow_mod_step(6int, 1971420nat, m, 985710nat, 43406824891045291int, 10867257637296453int, 68187118464112828int, 0int, 68187118464112828int);
    lemma_pow_mod_step(6int, 3942840nat, m, 1971420nat, 68187118464112828int, 26816901716590280int, 34904794565063304int, 0int, 34904794565063304int);
    lemma_pow_mod_step(6int, 7885680nat, m, 3942840nat, 34904794565063304int, 7027067044524218int, 50646196194779798int, 0int, 50646196194779798int);
    lemma_pow_mod_step(6int, 15771360nat, m, 7885680nat, 50646196194779798int, 14794407970910903int, 94943748857634501int, 0int, 94943748857634501int);
}

proof fn lemma_certificate_2621_2()
    requires
        pow_mod(6int, 15771360nat, 173378833005251801int) == 94943748857634501int,
    ensures
        pow_mod(6int, 64599491265nat, 173378833005251801int) == 130062621806661990int,
{
    let m: int = 173378833005251801int;
    lemma_pow_mod_step(6int, 31542720nat, m, 15771360nat, 94943748857634501int, 51992018234824091int, 22412962909581110int, 0int, 22412962909581110int);
    lemma_pow_mod_step(6int, 63085440nat, m, 31542720nat, 22412962909581110int, 2897360062234599int, 30718264939569301int, 0int, 30718264939569301int);
    lemma_pow_mod_step(6int, 126170881nat, m, 63085440nat, 30718264939569301int, 5442485593780583int, 161733857922048618int, 5int, 103508982506032703int);
    lemma_pow_mod_step(6int, 252341762nat, m, 126170881nat, 103508982506032703int, 61795948638722491int, 23255994088529918int, 0int, 23255994088529918int);
    lemma_pow_mod_step(6int, 504683525nat, m, 252341762nat, 23255994088529918int, 3119419202858263int, 19258461152605061int, 0int, 115550766915630366int);
    lemma_pow_mod_step(6int, 1009367051nat, m, 504683525nat, 115550766915630366int, 77010437222090966int, 170563586583964190int, 5int, 156487354477526135int);
    lemma_pow_mod_step(6int, 2018734102nat, m, 1009367051nat, 156487354477526135int, 141241532699860463int, 131570450728594362int, 0int, 131570450728594362int);
    lemma_pow_mod_step(6int, 4037468204nat, m, 2018734102nat, 131570450728594362int, 99843696054876072int, 136686874128381372int, 0int, 136686874128381372int);
    lemma_pow_mod_step(6int, 8074936408nat, m, 4037468204nat, 136686874128381372int, 107759991431145685int, 104460345336973699int, 0int, 104460345336973699int);
    lemma_pow_mod_step(6int, 16149872816nat, m, 8074936408nat, 104460345336973699int, 62937116133370615int, 25844936888514986int, 0int, 25844936888514986int);
    lemma_pow_mod_step(6int, 32299745632nat, m, 16149872816nat, 25844936888514986int, 3852608482784571int, 42412532853817825int, 0int, 42412532853817825int);
    lemma_pow_mod_step(6int, 64599491265nat, m, 32299745632nat, 42412532853817825int, 10375101227158960int, 21677103634443665int, 0int, 130062621806661990int);
}

proof fn lemma_certificate_2621_3()
    requires
        pow_mod(6int, 64599491265nat, 173378833005251801int) == 130062621806661990int,
    ensures
        pow_mod(6int, 66149879055800nat, 173378833005251801int) == 25743935490785551int,
{
    let m: int = 173378833005251801int;
    lemma_pow_mod_step(6int, 129198982530nat, m, 64599491265nat, 130062621806661990int, 97568343828397884int, 98379450275171016int, 0int, 98379450275171016int);
    lemma_pow_mod_step(6int, 258397965061nat, m, 129198982530nat, 98379450275171016int, 55822940255640522int, 150433148897392134int, 5int, 35704728358093799int);
    lemma_pow_mod_step(6int, 516795930123nat, m, 258397965061nat, 35704728358093799int, 7352844664069528int, 39334083871032473int, 1int, 62625670220943037int);
    lemma_pow_mod_step(6int, 1033591860246nat, m, 516795930123nat, 62625670220943037int, 22620838441700154int, 118346164288306015int, 0int, 118346164288306015int);
    lemma_pow_mod_step(6int, 2067183720493nat, m, 1033591860246nat, 118346164288306015int, 80781571538957522int, 10751583632183103int, 0int, 64509501793098618int);
    lemma_pow_mod_step(6int, 4134367440987nat, m, 2067183720493nat, 64509501793098618int, 24002213819652015int, 133605896601480909int, 4int, 108120047587878250int);
    lemma_pow_mod_step(6int, 8268734881975nat, m, 4134367440987nat, 108120047587878250int, 67424289850024301int, 104276956349046399int, 3int, 105525239078522991int);
    lemma_pow_mod_step(6int, 16537469763950nat, m, 8268734881975nat, 105525239078522991int, 64226848742499778int, 149853775038985903int, 0int, 149853775038985903int);
    lemma_pow_mod_step(6int, 33074939527900nat, m, 16537469763950nat, 149853775038985903int, 129520735052789156int, 85981629490455453int, 0int, 85981629490455453int);
    lemma_pow_mod_step(6int, 66149879055800nat, m, 33074939527900nat, 85981629490455453int, 42639810648685258int, 25743935490785551int, 0int, 25743935490785551int);
}

proof fn lemma_certificate_2621()
    ensures
        pow_mod(6int, 66149879055800nat, 173378833005251801int) == 25743935490785551int,
{
    lemma_pow_mod_zero(6int, 173378833005251801int);
    lemma_certificate_2621_0();
    lemma_certificate_2621_1();
    lemma_certificate_2621_2();
    lemma_certificate_2621_3();
}

proof fn lemma_certificate_24809_0()
    requires
        pow_mod(6int, 0nat, 173378833005251801int) == 1int,
    ensures
        pow_mod(6int, 3254nat, 173378833005251801int) == 113487991254976447int,
{
    let m: int = 173378833005251801int;
    lemma_pow_mod_step(6int, 1nat, m, 0nat, 1int, 0int, 1int, 0int, 6int);
    lemma_pow_mod_step(6int, 3nat, m, 1nat, 6int, 0int, 36int, 0int, 216int);
    lemma_pow_mod_step(6int, 6nat, m, 3nat, 216int, 0int, 46656int, 0int, 46656int);
    lemma_pow_mod_step(6int, 12nat, m, 6nat, 46656int, 0int, 2176782336int, 0int, 2176782336int);
    lemma_pow_mod_step(6int, 25nat, m, 12nat, 2176782336int, 27int, 57152847179818269int, 1int, 169538250073657813int);
    lemma_pow_mod_step(6int, 50nat, m, 25nat, 169538250073657813int, 165782741409774487int, 118767707355341882int, 0int, 118767707355341882int);
    lemma_pow_mod_step(6int, 101nat, m, 50nat, 118767707355341882int, 81358076219239829int, 53491164150119895int, 1int, 147568151895467569int);
    lemma_pow_mod_step(6int, 203nat, m, 101nat, 147568151895467569int, 125599873273943210int, 79318106906548551int, 2int, 129150975428787704int);
    lemma_pow_mod_step(6int, 406nat, m, 203nat, 129150975428787704int, 96205368124158926int, 118148511129865890int, 0int, 118148511129865890int);
    lemma_pow_mod_step(6int, 813nat, m, 406nat, 118148511129865890int, 80511965850994113int, 58666383651844587int, 2int, 5240635900563920int);
    lemma_pow_mod_step(6int, 1627nat, m, 813nat, 5240635900563920int, 158406099327289int, 39609183850068911int, 1int, 64276270095161665int);
    lemma_pow_mod_step(6int, 3254nat, m, 1627nat, 64276270095161665int, 23828969348415378int, 113487991254976447int, 0int, 113487991254976447int);
}

proof fn lemma_certificate_24809_1()
    requires
        pow_mod(6int, 3254nat, 173378833005251801int) == 113487991254976447int,
    ensures
        pow_mod(6int, 13329593nat, 173378833005251801int) == 118665973046907645int,
{
    let m: int = 173378833005251801int;
    lemma_pow_mod_step(6int, 6508nat, m, 3254nat, 113487991254976447int, 74285447282365074int, 113307328346745535int, 0int, 113307328346745535int);
    lemma_pow_mod_step(6int, 13017nat, m, 6508nat, 113307328346745535int, 74049123728317591int, 10796620989704834int, 0int, 64779725938229004int);
    lemma_pow_mod_step(6int, 26034nat, m, 13017nat, 64779725938229004int, 24203720949632568int, 68041318676577048int, 0int, 68041318676577048int);
    lemma_pow_mod_step(6int, 52068nat, m, 26034nat, 68041318676577048int, 26702342881194022int, 34712906234460682int, 0int, 34712906234460682int);
    lemma_pow_mod_step(6int, 104137nat, m, 52068nat, 34712906234460682int, 6950017129287974int, 124931641692763950int, 4int, 56074518135576496int);
    lemma_pow_mod_step(6int, 208274nat, m, 104137nat, 56074518135576496int, 18135729313865275int, 8968480302527741int, 0int, 8968480302527741int);
    lemma_pow_mod_step(6int, 416549nat, m, 208274nat, 8968480302527741int, 463918446921324int, 75432042218258557int, 2int, 105834587299047740int);
    lemma_pow_mod_step(6int, 833099nat, m, 416549nat, 105834587299047740int, 64603963901524645int, 168735034766971955int, 5int, 145516043575572725int);
    lemma_pow_mod_step(6int, 1666199nat, m, 833099nat, 145516043575572725int, 122130934733229936int, 143230712052810889int, 4int, 165868940295858130int);
    lemma_pow_mod_step(6int, 3332398nat, m, 1666199nat, 165868940295858130int, 158684338093552460int, 9933196184116440int, 0int, 9933196184116440int);
    lemma_pow_mod_step(6int, 6664796nat, m, 3332398nat, 9933196184116440int, 569091305564137int, 170583569438012863int, 0int, 170583569438012863int);
    lemma_pow_mod_step(6int, 13329593nat, m, 6664796nat, 170583569438012863int, 167833371916466461int, 106467078677110508int, 3int, 118665973046907645int);
}

proof fn lemma_certificate_24809_2()
    requires
        pow_mod(6int, 13329593nat, 173378833005251801int) == 118665973046907645int,
    ensures
        pow_mod(6int, 54598014142nat, 173378833005251801int) == 69549326803372519int,
{
    let m: int = 173378833005251801int;
    lemma_pow_mod_step(6int, 26659186nat, m, 13329593nat, 118665973046907645int, 81218756148525160int, 15629636575632865int, 0int, 15629636575632865int);
    lemma_pow_mod_step(6int, 53318373nat, m, 26659186nat, 15629636575632865int, 1408969798977485int, 58953230513407740int, 2int, 6961717069942838int);
    lemma_pow_mod_step(6int, 106636746nat, m, 53318373nat, 6961717069942838int, 279535302677146int, 80524939449454298int, 0int, 80524939449454298int);
    lemma_pow_mod_step(6int, 213273492nat, m, 106636746nat, 80524939449454298int, 37399408918283968int, 73879013329246436int, 0int, 73879013329246436int);
    lemma_pow_mod_step(6int, 426546985nat, m, 213273492nat, 73879013329246436int, 31480824480677185int, 148785001697841911int, 5int, 25815845160792461int);
    lemma_pow_mod_step(6int, 853093970nat, m, 426546985nat, 25815845160792461int, 3843940173168796int, 155202849458434925int, 0int, 155202849458434925int);
    lemma_pow_mod_step(6int, 1706187941nat, m, 853093970nat, 155202849458434925int, 138932325604521569int, 9274101479159856int, 0int, 55644608874959136int);
    lemma_pow_mod_step(6int, 3412375883nat, m, 1706187941nat, 55644608874959136int, 17858711142399895int, 31571963758905601int, 1int, 16052949548181805int);
    lemma_pow_mod_step(6int, 6824751767nat, m, 3412375883nat, 16052949548181805int, 1486324395715966int, 152793757827103259int, 5int, 49868381936360549int);
    lemma_pow_mod_step(6int, 13649503535nat, m, 6824751767nat, 49868381936360549int, 14343478231136796int, 51416585267211805int, 1int, 135120678598019029int);
    lemma_pow_mod_step(6int, 27299007071nat, m, 13649503535nat, 135120678598019029int, 105304652640245413int, 48806360545864028int, 1int, 119459330269932367int);
    lemma_pow_mod_step(6int, 54598014142nat, m, 27299007071nat, 119459330269932367int, 82308384138844170int, 69549326803372519int, 0int, 69549326803372519int);
}

proof fn lemma_certificate_24809_3()
    requires
        pow_mod(6int, 54598014142nat, 173378833005251801int) == 69549326803372519int,
    ensures
        pow_mod(6int, 6988545810200nat, 173378833005251801int) == 5978649957832462int,
{
    let m: int = 173378833005251801int;
    lemma_pow_mod_step(6int, 109196028284nat, m, 54598014142nat, 69549326803372519int, 27899073808253114int, 34490572772047047int, 0int, 34490572772047047int);
    lemma_pow_mod_step(6int, 218392056568nat, m, 109196028284nat, 34490572772047047int, 6861273602573153int, 12100694493921656int, 0int, 12100694493921656int);
    lemma_pow_mod_step(6int, 436784113137nat, m, 218392056568nat, 12100694493921656int, 844548349398513int, 46675881805810423int, 1int, 106676457829610737int);
    lemma_pow_mod_step(6int, 873568226275nat, m, 436784113137nat, 106676457829610737int, 65635847570435610int, 139542201638649559int, 4int, 143737877810890150int);
    lemma_pow_mod_step(6int, 1747136452550nat, m, 873568226275nat, 143737877810890150int, 119164359105777113int, 29600727019191987int, 0int, 29600727019191987int);
    lemma_pow_mod_step(6int, 3494272905100nat, m, 1747136452550nat, 29600727019191987int, 5053690954524890int, 59055395593181279int, 0int, 59055395593181279int);
    lemma_pow_mod_step(6int, 6988545810200nat, m, 3494272905100nat, 59055395593181279int, 20115141440371179int, 5978649957832462int, 0int, 5978649957832462int);
}

proof fn lemma_certificate_24809()
    ensures
        pow_mod(6int, 6988545810200nat, 173378833005251801int) == 5978649957832462int,
{
    lemma_pow_mod_zero(6int, 173378833005251801int);
    lemma_certificate_24809_0();
    lemma_certificate_24809_1();
    lemma_certificate_24809_2();
    lemma_certificate_24809_3();
}

proof fn lemma_certificate_13331831_0()
    requires
        pow_mod(6int, 0nat, 173378833005251801int) == 1int,
    ensures
        pow_mod(6int, 3100nat, 173378833005251801int) == 21610600394853958int,
{
    let m: int = 173378833005251801int;
    lemma_pow_mod_step(6int, 1nat, m, 0nat, 1int, 0int, 1int, 0int, 6int);
    lemma_pow_mod_step(6int, 3nat, m, 1nat, 6int, 0int, 36int, 0int, 216int);
    lemma_pow_mod_step(6int, 6nat, m, 3nat, 216int, 0int, 46656int, 0int, 46656int);
    lemma_pow_mod_step(6int, 12nat, m, 6nat, 46656int, 0int, 2176782336int, 0int, 2176782336int);
    lemma_pow_mod_step(6int, 24nat, m, 12nat, 2176782336int, 27int, 57152847179818269int, 0int, 57152847179818269int);
    lemma_pow_mod_step(6int, 48nat, m, 24nat, 57152847179818269int, 18839946515620608int, 128517149041441353int, 0int, 128517149041441353int);
    lemma_pow_mod_step(6int, 96nat, m, 48nat, 128517149041441353int, 95263402754820397int, 87934710222685612int, 0int, 87934710222685612int);
    lemma_pow_mod_step(6int, 193nat, m, 96nat, 87934710222685612int, 44598946295326977int, 57943336278678967int, 2int, 902351661570200int);
    lemma_pow_mod_step(6int, 387nat, m, 193nat, 902351661570200int, 4696297160529int, 105054748564677271int, 3int, 110191992372308223int);
    lemma_pow_mod_step(6int, 775nat, m, 387nat, 110191992372308223int, 70033204010613182int, 38881096593576947int, 1int, 59907746556209881int);
    lemma_pow_mod_step(6int, 1550nat, m, 775nat, 59907746556209881int, 20699978395484786int, 23473760327434575int, 0int, 23473760327434575int);
    lemma_pow_mod_step(6int, 3100nat, m, 1550nat, 23473760327434575int, 3178112427906067int, 21610600394853958int, 0int, 21610600394853958int);
}

proof fn lemma_certificate_13331831_1()
    requires
        pow_mod(6int, 3100nat, 173378833005251801int) == 21610600394853958int,
    ensures
        pow_mod(6int, 12700075nat, 173378833005251801int) == 138386591450202163int,
{
    let m: int = 173378833005251801int;
    lemma_pow_mod_step(6int, 6201nat, m, 3100nat, 21610600394853958int, 2693627828328476int, 138548296829680488int, 4int, 137774448957075724int);
    lemma_pow_mod_step(6int, 12402nat, m, 6201nat, 137774448957075724int, 109481638885243207int, 121178055310358369int, 0int, 121178055310358369int);
    lemma_pow_mod_step(6int, 24804nat, m, 12402nat, 121178055310358369int, 84693851228976012int, 114974723759542549int, 0int, 114974723759542549int);
    lemma_pow_mod_step(6int, 49609nat, m, 24804nat, 114974723759542549int, 76244526938202986int, 20268818361339615int, 0int, 121612910168037690int);
    lemma_pow_mod_step(6int, 99219nat, m, 49609nat, 121612910168037690int, 85302800019949445int, 145847209745335655int, 5int, 8189093445754925int);
    lemma_pow_mod_step(6int, 198438nat, m, 99219nat, 8189093445754925int, 386790303642630int, 86609252493878995int, 0int, 86609252493878995int);
    lemma_pow_mod_step(6int, 396877nat, m, 198438nat, 86609252493878995int, 43264581307461378int, 33252960729768247int, 1int, 26138931373357681int);
    lemma_pow_mod_step(6int, 793754nat, m, 396877nat, 26138931373357681int, 3940756328198416int, 36800263192350545int, 0int, 36800263192350545int);
    lemma_pow_mod_step(6int, 1587509nat, m, 793754nat, 36800263192350545int, 7810984464206473int, 29579289142689152int, 1int, 4096901850883111int);
    lemma_pow_mod_step(6int, 3175018nat, m, 1587509nat, 4096901850883111int, 96808846182861int, 95103685589455660int, 0int, 95103685589455660int);
    lemma_pow_mod_step(6int, 6350037nat, m, 3175018nat, 95103685589455660int, 52167331247546600int, 104141178624609000int, 3int, 104710572731898597int);
    lemma_pow_mod_step(6int, 12700075nat, m, 6350037nat, 104710572731898597int, 63239000123562415int, 51960904075908994int, 1int, 138386591450202163int);
}

proof fn lemma_certificate_13331831_2()
    requires
        pow_mod(6int, 12700075nat, 173378833005251801int) == 138386591450202163int,
    ensures
        pow_mod(6int, 13004877800nat, 173378833005251801int) == 17954474104786666int,
{
    let m: int = 173378833005251801int;
    lemma_pow_mod_step(6int, 25400151nat, m, 12700075nat, 138386591450202163int, 110456670870688522int, 94084474719350447int, 3int, 44370349300347279int);
    lemma_pow_mod_step(6int, 50800303nat, m, 25400151nat, 44370349300347279int, 11355064876778780int, 54430558329121061int, 1int, 153204516969474565int);
    lemma_pow_mod_step(6int, 101600607nat, m, 50800303nat, 153204516969474565int, 135377679114607048int, 83785255772645777int, 2int, 155953868625371060int);
    lemma_pow_mod_step(6int, 203201215nat, m, 101600607nat, 155953868625371060int, 140280152528669819int, 169737675001429581int, 5int, 151531884982318481int);
    lemma_pow_mod_step(6int, 406402431nat, m, 203201215nat, 151531884982318481int, 132437805516888328int, 93433382476268633int, 3int, 40463795841856395int);
    lemma_pow_mod_step(6int, 812804862nat, m, 406402431nat, 40463795841856395int, 9443590924861277int, 128747721422986148int, 0int, 128747721422986148int);
    lemma_pow_mod_step(6int, 1625609725nat, m, 812804862nat, 128747721422986148int, 95605533180101316int, 93449680128407788int, 3int, 40561581754691325int);
    lemma_pow_mod_step(6int, 3251219450nat, m, 1625609725nat, 40561581754691325int, 9489289355135250int, 126040807369170375int, 0int, 126040807369170375int);
    lemma_pow_mod_step(6int, 6502438900nat, m, 3251219450nat, 126040807369170375int, 91627592866489666int, 125788414483252159int, 0int, 125788414483252159int);
    lemma_pow_mod_step(6int, 13004877800nat, m, 6502438900nat, 125788414483252159int, 91260997342917615int, 17954474104786666int, 0int, 17954474104786666int);
}

proof fn lemma_certificate_13331831()
    ensures
        pow_mod(6int, 13004877800nat, 173378833005251801int) == 17954474104786666int,
{
    lemma_pow_mod_zero(6int, 173378833005251801int);
    lemma_certificate_13331831_0();
    lemma_certificate_13331831_1();
    lemma_certificate_13331831_2();
}

/// 173378833005251801 is prime, by a Lucas certificate with witness 6.
pub proof fn lemma_prime_173378833005251801()
    ensures
        is_prime(173378833005251801int),
        forall|x: int| 1 <= x < 173378833005251801int ==> #[trigger] power_of(6, 173378833005251801int, x),
{
    lemma_small_primes();
    lemma_prime_2621();
    lemma_prime_24809();
    lemma_prime_13331831();
    let fs: Seq<int> = Seq::empty().push(2int).push(2int).push(2int).push(5int).push(5int).push(2621int).push(24809int).push(13331831int);
    assert(product(Seq::<int>::empty()) == 1);
    lemma_product_push(Seq::<int>::empty(), 2int);
    lemma_product_push(Seq::<int>::empty().push(2int), 2int);
    lemma_product_push(Seq::<int>::empty().push(2int).push(2int), 2int);
    lemma_product_push(Seq::<int>::empty().push(2int).push(2int).push(2int), 5int);
    lemma_product_push(Seq::<int>::empty().push(2int).push(2int).push(2int).push(5int), 5int);
    lemma_product_push(Seq::<int>::empty().push(2int).push(2int).push(2int).push(5int).push(5int), 2621int);
    lemma_product_push(Seq::<int>::empty().push(2int).push(2int).push(2int).push(5int).push(5int).push(2621int), 24809int);
    lemma_product_push(Seq::<int>::empty().push(2int).push(2int).push(2int).push(5int).push(5int).push(2621int).push(24809int), 13331831int);
    lemma_certificate_full();
    lemma_certificate_2();
    lemma_certificate_5();
    lemma_certificate_2621();
    lemma_certificate_24809();
    lemma_certificate_13331831();
    assert forall|i: int| 0 <= i < fs.len() implies is_prime(#[trigger] fs[i])
        && pow_mod(6, ((173378833005251801int - 1) / fs[i]) as nat, 173378833005251801int) != 1 by {
        if i == 0 { assert(fs[0] == 2int); } else if i == 1 { assert(fs[1] == 2int); } else if i == 2 { assert(fs[2] == 2int); } else if i == 3 { assert(fs[3] == 5int); } else if i == 4 { assert(fs[4] == 5int); } else if i == 5 { assert(fs[5] == 2621int); } else if i == 6 { assert(fs[6] == 24809int); } else if i == 7 { assert(fs[7] == 13331831int); }
    }
    lemma_lucas(173378833005251801int, 6, fs);
}

} // verus!
