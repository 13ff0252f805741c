//! A Lucas certificate that 107590001 is prime.
use vstd::prelude::*;
use crate::prime::{is_prime, pow_mod, power_of, product, lucas_certificate, lemma_lucas, lemma_pow_mod_step, lemma_pow_mod_zero, lemma_product_push};

use crate::cert_small::lemma_small_primes;
verus! {

proof fn lemma_certificate_full_0()
    requires
        pow_mod(3int, 0nat, 107590001int) == 1int,
    ensures
        pow_mod(3int, 3283nat, 107590001int) == 26560023int,
{
    let m: int = 107590001int;
    lemma_pow_mod_step(3int, 1nat, m, 0nat, 1int, 0int, 1int, 0int, 3int);
    lemma_pow_mod_step(3int, 3nat, m, 1nat, 3int, 0int, 9int, 0int, 27int);
    lemma_pow_mod_step(3int, 6nat, m, 3nat, 27int, 0int, 729int, 0int, 729int);
    lemma_pow_mod_step(3int, 12nat, m, 6nat, 729int, 0int, 531441int, 0int, 531441int);
    lemma_pow_mod_step(3int, 25nat, m, 12nat, 531441int, 2625int, 5783856int, 0int, 17351568int);
    lemma_pow_mod_step(3int, 51nat, m, 25nat, 17351568int, 2798372int, 65780252int, 1int, 89750755int);
    lemma_pow_mod_step(3int, 102nat, m, 51nat, 89750755int, 74869392int, 62920633int, 0int, 62920633int);
    lemma_pow_mod_step(3int, 205nat, m, 102nat, 62920633int, 36797156int, 6283533int, 0int, 18850599int);
    lemma_pow_mod_step(3int, 410nat, m, 205nat, 18850599int, 3302770int, 55056031int, 0int, 55056031int);
    lemma_pow_mod_step(3int, 820nat, m, 410nat, 55056031int, 28173310int, 98399651int, 0int, 98399651int);
    lemma_pow_mod_step(3int, 1641nat, m, 820nat, 98399651int, 89994341int, 78737460int, 2int, 21032378int);
    lemma_pow_mod_step(3int, 3283nat, m, 1641nat, 21032378int, 4111543int, 8853341int, 0int, 26560023int);
}

proof fn lemma_certificate_full_1()
    requires
        pow_mod(3int, 3283nat, 107590001int) == 26560023int,
    ensures
        pow_mod(3int, 13448750nat, 107590001int) == 2540879int,
{
    let m: int = 107590001int;
    lemma_pow_mod_step(3int, 6566nat, m, 3283nat, 26560023int, 6556695int, 153834int, 0int, 153834int);
    lemma_pow_mod_step(3int, 13133nat, m, 6566nat, 153834int, 219int, 102689337int, 2int, 92888009int);
    lemma_pow_mod_step(3int, 26267nat, m, 13133nat, 92888009int, 80195019int, 41579062int, 1int, 17147185int);
    lemma_pow_mod_step(3int, 52534nat, m, 26267nat, 17147185int, 2732837int, 17861388int, 0int, 17861388int);
    lemma_pow_mod_step(3int, 105068nat, m, 52534nat, 17861388int, 2965230int, 82621314int, 0int, 82621314int);
    lemma_pow_mod_step(3int, 210136nat, m, 105068nat, 82621314int, 63447174int, 12979422int, 0int, 12979422int);
    lemma_pow_mod_step(3int, 420273nat, m, 210136nat, 12979422int, 1565809int, 3578275int, 0int, 10734825int);
    lemma_pow_mod_step(3int, 840546nat, m, 420273nat, 10734825int, 1071070int, 45409555int, 0int, 45409555int);
    lemma_pow_mod_step(3int, 1681093nat, m, 840546nat, 45409555int, 19165607int, 9002418int, 0int, 27007254int);
    lemma_pow_mod_step(3int, 3362187nat, m, 1681093nat, 27007254int, 6779363int, 96671153int, 2int, 74833457int);
    lemma_pow_mod_step(3int, 6724375nat, m, 3362187nat, 74833457int, 52049876int, 75680973int, 2int, 11862917int);
    lemma_pow_mod_step(3int, 13448750nat, m, 6724375nat, 11862917int, 1308010int, 2540879int, 0int, 2540879int);
}

proof fn lemma_certificate_full_2()
    requires
        pow_mod(3int, 13448750nat, 107590001int) == 2540879int,
    ensures
        pow_mod(3int, 107590000nat, 107590001int) == 1int,
{
    let m: int = 107590001int;
    lemma_pow_mod_step(3int, 26897500nat, m, 13448750nat, 2540879int, 60006int, 20492635int, 0int, 20492635int);
    lemma_pow_mod_step(3int, 53795000nat, m, 26897500nat, 20492635int, 3903225int, 107590000int, 0int, 107590000int);
    lemma_pow_mod_step(3int, 107590000nat, m, 53795000nat, 107590000int, 107589999int, 1int, 0int, 1int);
}

proof fn lemma_certificate_full()
    ensures
        pow_mod(3int, 107590000nat, 107590001int) == 1int,
{
    lemma_pow_mod_zero(3int, 107590001int);
    lemma_certificate_full_0();
    lemma_certificate_full_1();
    lemma_certificate_full_2();
}

proof fn lemma_certificate_2_0()
    requires
        pow_mod(3int, 0nat, 107590001int) == 1int,
    ensures
        pow_mod(3int, 3283nat, 107590001int) == 26560023int,
{
    let m: int = 107590001int;
    lemma_pow_mod_step(3int, 1nat, m, 0nat, 1int, 0int, 1int, 0int, 3int);
    lemma_pow_mod_step(3int, 3nat, m, 1nat, 3int, 0int, 9int, 0int, 27int);
    lemma_pow_mod_step(3int, 6nat, m, 3nat, 27int, 0int, 729int, 0int, 729int);
    lemma_pow_mod_step(3int, 12nat, m, 6nat, 729int, 0int, 531441int, 0int, 531441int);
    lemma_pow_mod_step(3int, 25nat, m, 12nat, 531441int, 2625int, 5783856int, 0int, 17351568int);
    lemma_pow_mod_step(3int, 51nat, m, 25nat, 17351568int, 2798372int, 65780252int, 1int, 89750755int);
    lemma_pow_mod_step(3int, 102nat, m, 51nat, 89750755int, 74869392int, 62920633int, 0int, 62920633int);
    lemma_pow_mod_step(3int, 205nat, m, 102nat, 62920633int, 36797156int, 6283533int, 0int, 18850599int);
    lemma_pow_mod_step(3int, 410nat, m, 205nat, 18850599int, 3302770int, 55056031int, 0int, 55056031int);
    lemma_pow_mod_step(3int, 820nat, m, 410nat, 55056031int, 28173310int, 98399651int, 0int, 98399651int);
    lemma_pow_mod_step(3int, 1641nat, m, 820nat, 98399651int, 89994341int, 78737460int, 2int, 21032378int);
    lemma_pow_mod_step(3int, 3283nat, m, 1641nat, 21032378int, 4111543int, 8853341int, 0int, 26560023int);
}

proof fn lemma_certificate_2_1()
    requires
        pow_mod(3int, 3283nat, 107590001int) == 26560023int,
    ensures
        pow_mod(3int, 13448750nat, 107590001int) == 2540879int,
{
    let m: int = 107590001int;
    lemma_pow_mod_step(3int, 6566nat, m, 3283nat, 26560023int, 6556695int, 153834int, 0int, 153834int);
    lemma_pow_mod_step(3int, 13133nat, m, 6566nat, 153834int, 219int, 102689337int, 2int, 92888009int);
    lemma_pow_mod_step(3int, 26267nat, m, 13133nat, 92888009int, 80195019int, 41579062int, 1int, 17147185int);
    lemma_pow_mod_step(3int, 52534nat, m, 26267nat, 17147185int, 2732837int, 17861388int, 0int, 17861388int);
    lemma_pow_mod_step(3int, 105068nat, m, 52534nat, 17861388int, 2965230int, 82621314int, 0int, 82621314int);
    lemma_pow_mod_step(3int, 210136nat, m, 105068nat, 82621314int, 63447174int, 12979422int, 0int, 12979422int);
    lemma_pow_mod_step(3int, 420273nat, m, 210136nat, 12979422int, 1565809int, 3578275int, 0int, 10734825int);
    lemma_pow_mod_step(3int, 840546nat, m, 420273nat, 10734825int, 1071070int, 45409555int, 0int, 45409555int);
    lemma_pow_mod_step(3int, 1681093nat, m, 840546nat, 45409555int, 19165607int, 9002418int, 0int, 27007254int);
    lemma_pow_mod_step(3int, 3362187nat, m, 1681093nat, 27007254int, 6779363int, 96671153int, 2int, 74833457int);
    lemma_pow_mod_step(3int, 6724375nat, m, 3362187nat, 74833457int, 52049876int, 75680973int, 2int, 11862917int);
    lemma_pow_mod_step(3int, 13448750nat, m, 6724375nat, 11862917int, 1308010int, 2540879int, 0int, 2540879int);
}

proof fn lemma_certificate_2_2()
    requires
        pow_mod(3int, 13448750nat, 107590001int) == 2540879int,
    ensures
        pow_mod(3int, 53795000nat, 107590001int) == 107590000int,
{
    let m: int = 107590001int;
    lemma_pow_mod_step(3int, 26897500nat, m, 13448750nat, 2540879int, 60006int, 20492635int, 0int, 20492635int);
    lemma_pow_mod_step(3int, 53795000nat, m, 26897500nat, 20492635int, 3903225int, 107590000int, 0int, 107590000int);
}

proof fn lemma_certificate_2()
    ensures
        pow_mod(3int, 53795000nat, 107590001int) == 107590000int,
{
    lemma_pow_mod_zero(3int, 107590001int);
    lemma_certificate_2_0();
    lemma_certificate_2_1();
    lemma_certificate_2_2();
}

proof fn lemma_certificate_5_0()
    requires
        pow_mod(3int, 0nat, 107590001int) == 1int,
    ensures
        pow_mod(3int, 2626nat, 107590001int) == 25070826int,
{
    let m: int = 107590001int;
    lemma_pow_mod_step(3int, 1nat, m, 0nat, 1int, 0int, 1int, 0int, 3int);
    lemma_pow_mod_step(3int, 2nat, m, 1nat, 3int, 0int, 9int, 0int, 9int);
    lemma_pow_mod_step(3int, 5nat, m, 2nat, 9int, 0int, 81int, 0int, 243int);
    lemma_pow_mod_step(3int, 10nat, m, 5nat, 243int, 0int, 59049int, 0int, 59049int);
    lemma_pow_mod_step(3int, 20nat, m, 10nat, 59049int, 32int, 43904369int, 0int, 43904369int);
    lemma_pow_mod_step(3int, 41nat, m, 20nat, 43904369int, 17916103int, 77602058int, 2int, 17626172int);
    lemma_pow_mod_step(3int, 82nat, m, 41nat, 17626172int, 2887646int, 103345938int, 0int, 103345938int);
    lemma_pow_mod_step(3int, 164nat, m, 82nat, 103345938int, 99269288int, 105910556int, 0int, 105910556int);
    lemma_pow_mod_step(3int, 328nat, m, 164nat, 105910556int, 104257326int, 63631810int, 0int, 63631810int);
    lemma_pow_mod_step(3int, 656nat, m, 328nat, 63631810int, 37633676int, 5402424int, 0int, 5402424int);
    lemma_pow_mod_step(3int, 1313nat, m, 656nat, 5402424int, 271272int, 30324504int, 0int, 90973512int);
    lemma_pow_mod_step(3int, 2626nat, m, 1313nat, 90973512int, 76923318int, 25070826int, 0int, 25070826int);
}

proof fn lemma_certificate_5_1()
    requires
        pow_mod(3int, 2626nat, 107590001int) == 25070826int,
    ensures
        pow_mod(3int, 10759000nat, 107590001int) == 98828591int,
{
    let m: int = 107590001int;
    lemma_pow_mod_step(3int, 5253nat, m, 2626nat, 25070826int, 5842051int, 43390225int, 1int, 22580674int);
    lemma_pow_mod_step(3int, 10506nat, m, 5253nat, 22580674int, 4739165int, 71205111int, 0int, 71205111int);
    lemma_pow_mod_step(3int, 21013nat, m, 10506nat, 71205111int, 47124898int, 9577423int, 0int, 28732269int);
    lemma_pow_mod_step(3int, 42027nat, m, 21013nat, 28732269int, 7673048int, 39895313int, 1int, 12095938int);
    lemma_pow_mod_step(3int, 84054nat, m, 42027nat, 12095938int, 1359900int, 73739944int, 0int, 73739944int);
    lemma_pow_mod_step(3int, 168109nat, m, 84054nat, 73739944int, 50539820int, 56783316int, 1int, 62759947int);
    lemma_pow_mod_step(3int, 336218nat, m, 168109nat, 62759947int, 36609451int, 77743358int, 0int, 77743358int);
    lemma_pow_mod_step(3int, 672437nat, m, 336218nat, 77743358int, 56176500int, 21939664int, 0int, 65818992int);
    lemma_pow_mod_step(3int, 1344875nat, m, 672437nat, 65818992int, 40265263int, 21460801int, 0int, 64382403int);
    lemma_pow_mod_step(3int, 2689750nat, m, 1344875nat, 64382403int, 38526756int, 99487653int, 0int, 99487653int);
    lemma_pow_mod_step(3int, 5379500nat, m, 2689750nat, 99487653int, 91995473int, 67382936int, 0int, 67382936int);
    lemma_pow_mod_step(3int, 10759000nat, m, 5379500nat, 67382936int, 42201505int, 98828591int, 0int, 98828591int);
}

proof fn lemma_certificate_5_2()
    requires
        pow_mod(3int, 10759000nat, 107590001int) == 98828591int,
    ensures
        pow_mod(3int, 21518000nat, 107590001int) == 67174630int,
{
    let m: int = 107590001int;
    lemma_pow_mod_step(3int, 21518000nat, m, 10759000nat, 98828591int, 90780651int, 67174630int, 0int, 67174630int);
}

proof fn lemma_certificate_5()
    ensures
        pow_mod(3int, 21518000nat, 107590001int) == 67174630int,
{
    lemma_pow_mod_zero(3int, 107590001int);
    lemma_certificate_5_0();
    lemma_certificate_5_1();
    lemma_certificate_5_2();
}

proof fn lemma_certificate_7_0()
    requires
        pow_mod(3int, 0nat, 107590001int) == 1int,
    ensures
        pow_mod(3int, 3752nat, 107590001int) == 7456834int,
{
    let m: int = 107590001int;
    lemma_pow_mod_step(3int, 1nat, m, 0nat, 1int, 0int, 1int, 0int, 3int);
    lemma_pow_mod_step(3int, 3nat, m, 1nat, 3int, 0int, 9int, 0int, 27int);
    lemma_pow_mod_step(3int, 7nat, m, 3nat, 27int, 0int, 729int, 0int, 2187int);
    lemma_pow_mod_step(3int, 14nat, m, 7nat, 2187int, 0int, 4782969int, 0int, 4782969int);
    lemma_pow_mod_step(3int, 29nat, m, 14nat, 4782969int, 212629int, 38132332int, 1int, 6806995int);
    lemma_pow_mod_step(3int, 58nat, m, 29nat, 6806995int, 430664int, 40739361int, 0int, 40739361int);
    lemma_pow_mod_step(3int, 117nat, m, 58nat, 40739361int, 15426113int, 21592208int, 0int, 64776624int);
    lemma_pow_mod_step(3int, 234nat, m, 117nat, 64776624int, 39000009int, 9527367int, 0int, 9527367int);
    lemma_pow_mod_step(3int, 469nat, m, 234nat, 9527367int, 843672int, 50629017int, 1int, 44297050int);
    lemma_pow_mod_step(3int, 938nat, m, 469nat, 44297050int, 18238020int, 48664480int, 0int, 48664480int);
    lemma_pow_mod_step(3int, 1876nat, m, 938nat, 48664480int, 22011632int, 104778768int, 0int, 104778768int);
    lemma_pow_mod_step(3int, 3752nat, m, 1876nat, 104778768int, 102040990int, 7456834int, 0int, 7456834int);
}

proof fn lemma_certificate_7_1()
    requires
        pow_mod(3int, 3752nat, 107590001int) == 7456834int,
    ensures
        pow_mod(3int, 15370000nat, 107590001int) == 37492364int,
{
    let m: int = 107590001int;
    lemma_pow_mod_step(3int, 7504nat, m, 3752nat, 7456834int, 516817int, 31756739int, 0int, 31756739int);
    lemma_pow_mod_step(3int, 15009nat, m, 7504nat, 31756739int, 9373459int, 8730662int, 0int, 26191986int);
    lemma_pow_mod_step(3int, 30019nat, m, 15009nat, 26191986int, 6376244int, 32287952int, 0int, 96863856int);
    lemma_pow_mod_step(3int, 60039nat, m, 30019nat, 96863856int, 87207050int, 2481686int, 0int, 7445058int);
    lemma_pow_mod_step(3int, 120078nat, m, 60039nat, 7445058int, 515186int, 26368178int, 0int, 26368178int);
    lemma_pow_mod_step(3int, 240156nat, m, 120078nat, 26368178int, 6462318int, 10957366int, 0int, 10957366int);
    lemma_pow_mod_step(3int, 480312nat, m, 240156nat, 10957366int, 1115938int, 99122018int, 0int, 99122018int);
    lemma_pow_mod_step(3int, 960625nat, m, 480312nat, 99122018int, 91320516int, 44631808int, 1int, 26305423int);
    lemma_pow_mod_step(3int, 1921250nat, m, 960625nat, 26305423int, 6431594int, 74317335int, 0int, 74317335int);
    lemma_pow_mod_step(3int, 3842500nat, m, 1921250nat, 74317335int, 51334382int, 70787843int, 0int, 70787843int);
    lemma_pow_mod_step(3int, 7685000nat, m, 3842500nat, 70787843int, 46574204int, 61658445int, 0int, 61658445int);
    lemma_pow_mod_step(3int, 15370000nat, m, 7685000nat, 61658445int, 35335661int, 37492364int, 0int, 37492364int);
}

proof fn lemma_certificate_7()
    ensures
        pow_mod(3int, 15370000nat, 107590001int) == 37492364int,
{
    lemma_pow_mod_zero(3int, 107590001int);
    lemma_certificate_7_0();
    lemma_certificate_7_1();
}

proof fn lemma_certificate_29_0()
    requires
        pow_mod(3int, 0nat, 107590001int) == 1int,
    ensures
        pow_mod(3int, 3623nat, 107590001int) == 22679030int,
{
    let m: int = 107590001int;
    lemma_pow_mod_step(3int, 1nat, m, 0nat, 1int, 0int, 1int, 0int, 3int);
    lemma_pow_mod_step(3int, 3nat, m, 1nat, 3int, 0int, 9int, 0int, 27int);
    lemma_pow_mod_step(3int, 7nat, m, 3nat, 27int, 0int, 729int, 0int, 2187int);
    lemma_pow_mod_step(3int, 14nat, m, 7nat, 2187int, 0int, 4782969int, 0int, 4782969int);
    lemma_pow_mod_step(3int, 28nat, m, 14nat, 4782969int, 212629int, 38132332int, 0int, 38132332int);
    lemma_pow_mod_step(3int, 56nat, m, 28nat, 38132332int, 13514961int, 76253263int, 0int, 76253263int);
    lemma_pow_mod_step(3int, 113nat, m, 56nat, 76253263int, 54043684int, 102543485int, 2int, 92450453int);
    lemma_pow_mod_step(3int, 226nat, m, 113nat, 92450453int, 79441269int, 48753940int, 0int, 48753940int);
    lemma_pow_mod_step(3int, 452nat, m, 226nat, 48753940int, 22092635int, 43780965int, 0int, 43780965int);
    lemma_pow_mod_step(3int, 905nat, m, 452nat, 43780965int, 17815530int, 5815695int, 0int, 17447085int);
    lemma_pow_mod_step(3int, 1811nat, m, 905nat, 17447085int, 2829266int, 43227959int, 1int, 22093876int);
    lemma_pow_mod_step(3int, 3623nat, m, 1811nat, 22093876int, 4537032int, 79286344int, 2int, 22679030int);
}

proof fn lemma_certificate_29_1()
    requires
        pow_mod(3int, 3623nat, 107590001int) == 22679030int,
    ensures
        pow_mod(3int, 3710000nat, 107590001int) == 32711690int,
{
    let m: int = 107590001int;
    lemma_pow_mod_step(3int, 7246nat, m, 3623nat, 22679030int, 4780540int, 98360360int, 0int, 98360360int);
    lemma_pow_mod_step(3int, 14492nat, m, 7246nat, 98360360int, 89922486int, 60667114int, 0int, 60667114int);
    lemma_pow_mod_step(3int, 28984nat, m, 14492nat, 60667114int, 34208557int, 39250439int, 0int, 39250439int);
    lemma_pow_mod_step(3int, 57968nat, m, 28984nat, 39250439int, 14319146int, 29233575int, 0int, 29233575int);
    lemma_pow_mod_step(3int, 115937nat, m, 57968nat, 29233575int, 7943135int, 4687490int, 0int, 14062470int);
    lemma_pow_mod_step(3int, 231875nat, m, 115937nat, 14062470int, 1838024int, 58502876int, 1int, 67918627int);
    lemma_pow_mod_step(3int, 463750nat, m, 231875nat, 67918627int, 42875172int, 95209957int, 0int, 95209957int);
    lemma_pow_mod_step(3int, 927500nat, m, 463750nat, 95209957int, 84254445int, 90137404int, 0int, 90137404int);
    lemma_pow_mod_step(3int, 1855000nat, m, 927500nat, 90137404int, 75515861int, 39353355int, 0int, 39353355int);
    lemma_pow_mod_step(3int, 3710000nat, m, 1855000nat, 39353355int, 14394335int, 32711690int, 0int, 32711690int);
}

proof fn lemma_certificate_29()
    ensures
        pow_mod(3int, 3710000nat, 107590001int) == 32711690int,
{
    lemma_pow_mod_zero(3int, 107590001int);
    lemma_certificate_29_0();
    lemma_certificate_29_1();
}

proof fn lemma_certificate_53_0()
    requires
        pow_mod(3int, 0nat, 107590001int) == 1int,
    ensures
        pow_mod(3int, 3964nat, 107590001int) == 21924497int,
{
    let m: int = 107590001int;
    lemma_pow_mod_step(3int, 1nat, m, 0nat, 1int, 0int, 1int, 0int, 3int);
    lemma_pow_mod_step(3int, 3nat, m, 1nat, 3int, 0int, 9int, 0int, 27int);
    lemma_pow_mod_step(3int, 7nat, m, 3nat, 27int, 0int, 729int, 0int, 2187int);
    lemma_pow_mod_step(3int, 15nat, m, 7nat, 2187int, 0int, 4782969int, 0int, 14348907int);
    lemma_pow_mod_step(3int, 30nat, m, 15nat, 14348907int, 1913664int, 20420985int, 0int, 20420985int);
    lemma_pow_mod_step(3int, 61nat, m, 30nat, 20420985int, 3875979int, 43884246int, 1int, 24062737int);
    lemma_pow_mod_step(3int, 123nat, m, 61nat, 24062737int, 5381683int, 32579486int, 0int, 97738458int);
    lemma_pow_mod_step(3int, 247nat, m, 123nat, 97738458int, 88788977int, 47998787int, 1int, 36406360int);
    lemma_pow_mod_step(3int, 495nat, m, 247nat, 36406360int, 12319202int, 92950398int, 2int, 63671192int);
    lemma_pow_mod_step(3int, 991nat, m, 495nat, 63671192int, 37680273int, 80950591int, 2int, 27671771int);
    lemma_pow_mod_step(3int, 1982nat, m, 991nat, 27671771int, 7117082int, 50779359int, 0int, 50779359int);
    lemma_pow_mod_step(3int, 3964nat, m, 1982nat, 50779359int, 23966384int, 21924497int, 0int, 21924497int);
}

proof fn lemma_certificate_53_1()
    requires
        pow_mod(3int, 3964nat, 107590001int) == 21924497int,
    ensures
        pow_mod(3int, 2030000nat, 107590001int) == 15240736int,
{
    let m: int = 107590001int;
    lemma_pow_mod_step(3int, 7929nat, m, 3964nat, 21924497int, 4467734int, 63175275int, 1int, 81935824int);
    lemma_pow_mod_step(3int, 15859nat, m, 7929nat, 81935824int, 62398728int, 46640248int, 1int, 32330743int);
    lemma_pow_mod_step(3int, 31718nat, m, 15859nat, 32330743int, 9715372int, 59736677int, 0int, 59736677int);
    lemma_pow_mod_step(3int, 63437nat, m, 31718nat, 59736677int, 33167306int, 93295023int, 2int, 64705067int);
    lemma_pow_mod_step(3int, 126875nat, m, 63437nat, 64705067int, 38913892int, 16280597int, 0int, 48841791int);
    lemma_pow_mod_step(3int, 253750nat, m, 126875nat, 48841791int, 22172325int, 79165356int, 0int, 79165356int);
    lemma_pow_mod_step(3int, 507500nat, m, 253750nat, 79165356int, 58250334int, 97296402int, 0int, 97296402int);
    lemma_pow_mod_step(3int, 1015000nat, m, 507500nat, 97296402int, 87987635int, 104507969int, 0int, 104507969int);
    lemma_pow_mod_step(3int, 2030000nat, m, 1015000nat, 104507969int, 101514225int, 15240736int, 0int, 15240736int);
}

proof fn lemma_certificate_53()
    ensures
        pow_mod(3int, 2030000nat, 107590001int) == 15240736int,
{
    lemma_pow_mod_zero(3int, 107590001int);
    lemma_certificate_53_0();
    lemma_certificate_53_1();
}

/// 107590001 is prime, by a Lucas certificate with witness 3.
pub proof fn lemma_prime_107590001()
    ensures
        is_prime(107590001int),
        forall|x: int| 1 <= x < 107590001int ==> #[trigger] power_of(3, 107590001int, x),
{
    lemma_small_primes();
    let fs: Seq<int> = Seq::empty().push(2int).push(2int).push(2int).push(2int).push(5int).push(5int).push(5int).push(5int).push(7int).push(29int).push(53int);
    assert(product(Seq::<int>::empty()) == 1);
    lemma_product_push(Seq::<int>::empty(), 2int);
    lemma_product_push(Seq::<int>::empty().push(2int), 2int);
    lemma_product_push(Seq::<int>::empty().push(2int).push(2int), 2int);
    lemma_product_push(Seq::<int>::empty().push(2int).push(2int).push(2int), 2int);
    lemma_product_push(Seq::<int>::empty().push(2int).push(2int).push(2int).push(2int), 5int);
    lemma_product_push(Seq::<int>::empty().push(2int).push(2int).push(2int).push(2int).push(5int), 5int);
    lemma_product_push(Seq::<int>::empty().push(2int).push(2int).push(2int).push(2int).push(5int).push(5int), 5int);
    lemma_product_push(Seq::<int>::empty().push(2int).push(2int).push(2int).push(2int).push(5int).push(5int).push(5int), 5int);
    lemma_product_push(Seq::<int>::empty().push(2int).push(2int).push(2int).push(2int).push(5int).push(5int).push(5int).push(5int), 7int);
    lemma_product_push(Seq::<int>::empty().push(2int).push(2int).push(2int).push(2int).push(5int).push(5int).push(5int).push(5int).push(7int), 29int);
    lemma_product_push(Seq::<int>::empty().push(2int).push(2int).push(2int).push(2int).push(5int).push(5int).push(5int).push(5int).push(7int).push(29int), 53int);
    lemma_certificate_full();
    lemma_certificate_2();
    lemma_certificate_5();
    lemma_certificate_7();
    lemma_certificate_29();
    lemma_certificate_53();
    assert forall|i: int| 0 <= i < fs.len() implies is_prime(#[trigger] fs[i])
        && pow_mod(3, ((107590001int - 1) / fs[i]) as nat, 107590001int) != 1 by {
        if i == 0 { assert(fs[0] == 2int); } else if i == 1 { assert(fs[1] == 2int); } else if i == 2 { assert(fs[2] == 2int); } else if i == 3 { assert(fs[3] == 2int); } else if i == 4 { assert(fs[4] == 5int); } else if i == 5 { assert(fs[5] == 5int); } else if i == 6 { assert(fs[6] == 5int); } else if i == 7 { assert(fs[7] == 5int); } else if i == 8 { assert(fs[8] == 7int); } else if i == 9 { assert(fs[9] == 29int); } else if i == 10 { assert(fs[10] == 53int); }
    }
    lemma_lucas(107590001int, 3, fs);
}

} // verus!
