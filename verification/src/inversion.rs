//! Fixed powers by a fixed sequence of squarings and multiplications,
//! whatever the base: `x^(p-2)`, the inverse by Fermat's little theorem, and
//! `x^((p+1)/4)`, a square root of `x` where there is one.
use vstd::prelude::*;
use vstd::arithmetic::power::{pow, lemma_pow_adds, lemma_pow1};
use vstd::arithmetic::div_mod::{lemma_mul_mod_noop, lemma_mul_mod_noop_left, lemma_small_mod};
use crate::field::{p, FieldElement};

verus! {

/// A squaring step: `x^e` becomes `x^(2e)`.
fn square_step(acc: &FieldElement, x: &FieldElement, Ghost(e): Ghost<nat>) -> (r: FieldElement)
    requires
        acc@ == pow(x@ as int, e) % (p() as int),
    ensures
        r@ == pow(x@ as int, e + e) % (p() as int),
{
    let r = acc.square();
    proof {
        lemma_pow_adds(x@ as int, e, e);
        lemma_mul_mod_noop(pow(x@ as int, e), pow(x@ as int, e), p() as int);
    }
    r
}

/// A multiplying step: `x^e` becomes `x^(e+1)`.
fn mul_step(acc: &FieldElement, x: &FieldElement, Ghost(e): Ghost<nat>) -> (r: FieldElement)
    requires
        acc@ == pow(x@ as int, e) % (p() as int),
    ensures
        r@ == pow(x@ as int, e + 1) % (p() as int),
{
    let r = acc.mul(x);
    proof {
        lemma_pow_adds(x@ as int, e, 1);
        lemma_pow1(x@ as int);
        lemma_mul_mod_noop_left(pow(x@ as int, e), x@ as int, p() as int);
    }
    r
}

fn inverse_power_part_0(acc0: &FieldElement, x: &FieldElement) -> (r: FieldElement)
    requires
        acc0@ == pow(x@ as int, 1nat) % (p() as int),
    ensures
        r@ == pow(x@ as int, 8191nat) % (p() as int),
{
    let mut acc = *acc0;
    acc = square_step(&acc, x, Ghost(1nat));
    acc = mul_step(&acc, x, Ghost(2nat));
    acc = square_step(&acc, x, Ghost(3nat));
    acc = mul_step(&acc, x, Ghost(6nat));
    acc = square_step(&acc, x, Ghost(7nat));
    acc = mul_step(&acc, x, Ghost(14nat));
    acc = square_step(&acc, x, Ghost(15nat));
    acc = mul_step(&acc, x, Ghost(30nat));
    acc = square_step(&acc, x, Ghost(31nat));
    acc = mul_step(&acc, x, Ghost(62nat));
    acc = square_step(&acc, x, Ghost(63nat));
    acc = mul_step(&acc, x, Ghost(126nat));
    acc = square_step(&acc, x, Ghost(127nat));
    acc = mul_step(&acc, x, Ghost(254nat));
    acc = square_step(&acc, x, Ghost(255nat));
    acc = mul_step(&acc, x, Ghost(510nat));
    acc = square_step(&acc, x, Ghost(511nat));
    acc = mul_step(&acc, x, Ghost(1022nat));
    acc = square_step(&acc, x, Ghost(1023nat));
    acc = mul_step(&acc, x, Ghost(2046nat));
    acc = square_step(&acc, x, Ghost(2047nat));
    acc = mul_step(&acc, x, Ghost(4094nat));
    acc = square_step(&acc, x, Ghost(4095nat));
    acc = mul_step(&acc, x, Ghost(8190nat));
    acc
}

fn inverse_power_part_1(acc0: &FieldElement, x: &FieldElement) -> (r: FieldElement)
    requires
        acc0@ == pow(x@ as int, 8191nat) % (p() as int),
    ensures
        r@ == pow(x@ as int, 33554431nat) % (p() as int),
{
    let mut acc = *acc0;
    acc = square_step(&acc, x, Ghost(8191nat));
    acc = mul_step(&acc, x, Ghost(16382nat));
    acc = square_step(&acc, x, Ghost(16383nat));
    acc = mul_step(&acc, x, Ghost(32766nat));
    acc = square_step(&acc, x, Ghost(32767nat));
    acc = mul_step(&acc, x, Ghost(65534nat));
    acc = square_step(&acc, x, Ghost(65535nat));
    acc = mul_step(&acc, x, Ghost(131070nat));
    acc = square_step(&acc, x, Ghost(131071nat));
    acc = mul_step(&acc, x, Ghost(262142nat));
    acc = square_step(&acc, x, Ghost(262143nat));
    acc = mul_step(&acc, x, Ghost(524286nat));
    acc = square_step(&acc, x, Ghost(524287nat));
    acc = mul_step(&acc, x, Ghost(1048574nat));
    acc = square_step(&acc, x, Ghost(1048575nat));
    acc = mul_step(&acc, x, Ghost(2097150nat));
    acc = square_step(&acc, x, Ghost(2097151nat));
    acc = mul_step(&acc, x, Ghost(4194302nat));
    acc = square_step(&acc, x, Ghost(4194303nat));
    acc = mul_step(&acc, x, Ghost(8388606nat));
    acc = square_step(&acc, x, Ghost(8388607nat));
    acc = mul_step(&acc, x, Ghost(16777214nat));
    acc = square_step(&acc, x, Ghost(16777215nat));
    acc = mul_step(&acc, x, Ghost(33554430nat));
    acc
}

fn inverse_power_part_2(acc0: &FieldElement, x: &FieldElement) -> (r: FieldElement)
    requires
        acc0@ == pow(x@ as int, 33554431nat) % (p() as int),
    ensures
        r@ == pow(x@ as int, 137438953471nat) % (p() as int),
{
    let mut acc = *acc0;
    acc = square_step(&acc, x, Ghost(33554431nat));
    acc = mul_step(&acc, x, Ghost(67108862nat));
    acc = square_step(&acc, x, Ghost(67108863nat));
    acc = mul_step(&acc, x, Ghost(134217726nat));
    acc = square_step(&acc, x, Ghost(134217727nat));
    acc = mul_step(&acc, x, Ghost(268435454nat));
    acc = square_step(&acc, x, Ghost(268435455nat));
    acc = mul_step(&acc, x, Ghost(536870910nat));
    acc = square_step(&acc, x, Ghost(536870911nat));
    acc = mul_step(&acc, x, Ghost(1073741822nat));
    acc = square_step(&acc, x, Ghost(1073741823nat));
    acc = mul_step(&acc, x, Ghost(2147483646nat));
    acc = square_step(&acc, x, Ghost(2147483647nat));
    acc = mul_step(&acc, x, Ghost(4294967294nat));
    acc = square_step(&acc, x, Ghost(4294967295nat));
    acc = mul_step(&acc, x, Ghost(8589934590nat));
    acc = square_step(&acc, x, Ghost(8589934591nat));
    acc = mul_step(&acc, x, Ghost(17179869182nat));
    acc = square_step(&acc, x, Ghost(17179869183nat));
    acc = mul_step(&acc, x, Ghost(34359738366nat));
    acc = square_step(&acc, x, Ghost(34359738367nat));
    acc = mul_step(&acc, x, Ghost(68719476734nat));
    acc = square_step(&acc, x, Ghost(68719476735nat));
    acc = mul_step(&acc, x, Ghost(137438953470nat));
    acc
}

fn inverse_power_part_3(acc0: &FieldElement, x: &FieldElement) -> (r: FieldElement)
    requires
        acc0@ == pow(x@ as int, 137438953471nat) % (p() as int),
    ensures
        r@ == pow(x@ as int, 562949953421311nat) % (p() as int),
{
    let mut acc = *acc0;
    acc = square_step(&acc, x, Ghost(137438953471nat));
    acc = mul_step(&acc, x, Ghost(274877906942nat));
    acc = square_step(&acc, x, Ghost(274877906943nat));
    acc = mul_step(&acc, x, Ghost(549755813886nat));
    acc = square_step(&acc, x, Ghost(549755813887nat));
    acc = mul_step(&acc, x, Ghost(1099511627774nat));
    acc = square_step(&acc, x, Ghost(1099511627775nat));
    acc = mul_step(&acc, x, Ghost(2199023255550nat));
    acc = square_step(&acc, x, Ghost(2199023255551nat));
    acc = mul_step(&acc, x, Ghost(4398046511102nat));
    acc = square_step(&acc, x, Ghost(4398046511103nat));
    acc = mul_step(&acc, x, Ghost(8796093022206nat));
    acc = square_step(&acc, x, Ghost(8796093022207nat));
    acc = mul_step(&acc, x, Ghost(17592186044414nat));
    acc = square_step(&acc, x, Ghost(17592186044415nat));
    acc = mul_step(&acc, x, Ghost(35184372088830nat));
    acc = square_step(&acc, x, Ghost(35184372088831nat));
    acc = mul_step(&acc, x, Ghost(70368744177662nat));
    acc = square_step(&acc, x, Ghost(70368744177663nat));
    acc = mul_step(&acc, x, Ghost(140737488355326nat));
    acc = square_step(&acc, x, Ghost(140737488355327nat));
    acc = mul_step(&acc, x, Ghost(281474976710654nat));
    acc = square_step(&acc, x, Ghost(281474976710655nat));
    acc = mul_step(&acc, x, Ghost(562949953421310nat));
    acc
}

fn inverse_power_part_4(acc0: &FieldElement, x: &FieldElement) -> (r: FieldElement)
    requires
        acc0@ == pow(x@ as int, 562949953421311nat) % (p() as int),
    ensures
        r@ == pow(x@ as int, 2305843009213693951nat) % (p() as int),
{
    let mut acc = *acc0;
    acc = square_step(&acc, x, Ghost(562949953421311nat));
    acc = mul_step(&acc, x, Ghost(1125899906842622nat));
    acc = square_step(&acc, x, Ghost(1125899906842623nat));
    acc = mul_step(&acc, x, Ghost(2251799813685246nat));
    acc = square_step(&acc, x, Ghost(2251799813685247nat));
    acc = mul_step(&acc, x, Ghost(4503599627370494nat));
    acc = square_step(&acc, x, Ghost(4503599627370495nat));
    acc = mul_step(&acc, x, Ghost(9007199254740990nat));
    acc = square_step(&acc, x, Ghost(9007199254740991nat));
    acc = mul_step(&acc, x, Ghost(18014398509481982nat));
    acc = square_step(&acc, x, Ghost(18014398509481983nat));
    acc = mul_step(&acc, x, Ghost(36028797018963966nat));
    acc = square_step(&acc, x, Ghost(36028797018963967nat));
    acc = mul_step(&acc, x, Ghost(72057594037927934nat));
    acc = square_step(&acc, x, Ghost(72057594037927935nat));
    acc = mul_step(&acc, x, Ghost(144115188075855870nat));
    acc = square_step(&acc, x, Ghost(144115188075855871nat));
    acc = mul_step(&acc, x, Ghost(288230376151711742nat));
    acc = square_step(&acc, x, Ghost(288230376151711743nat));
    acc = mul_step(&acc, x, Ghost(576460752303423486nat));
    acc = square_step(&acc, x, Ghost(576460752303423487nat));
    acc = mul_step(&acc, x, Ghost(1152921504606846974nat));
    acc = square_step(&acc, x, Ghost(1152921504606846975nat));
    acc = mul_step(&acc, x, Ghost(2305843009213693950nat));
    acc
}

fn inverse_power_part_5(acc0: &FieldElement, x: &FieldElement) -> (r: FieldElement)
    requires
        acc0@ == pow(x@ as int, 2305843009213693951nat) % (p() as int),
    ensures
        r@ == pow(x@ as int, 9444732965739290427391nat) % (p() as int),
{
    let mut acc = *acc0;
    acc = square_step(&acc, x, Ghost(2305843009213693951nat));
    acc = mul_step(&acc, x, Ghost(4611686018427387902nat));
    acc = square_step(&acc, x, Ghost(4611686018427387903nat));
    acc = mul_step(&acc, x, Ghost(9223372036854775806nat));
    acc = square_step(&acc, x, Ghost(9223372036854775807nat));
    acc = mul_step(&acc, x, Ghost(18446744073709551614nat));
    acc = square_step(&acc, x, Ghost(18446744073709551615nat));
    acc = mul_step(&acc, x, Ghost(36893488147419103230nat));
    acc = square_step(&acc, x, Ghost(36893488147419103231nat));
    acc = mul_step(&acc, x, Ghost(73786976294838206462nat));
    acc = square_step(&acc, x, Ghost(73786976294838206463nat));
    acc = mul_step(&acc, x, Ghost(147573952589676412926nat));
    acc = square_step(&acc, x, Ghost(147573952589676412927nat));
    acc = mul_step(&acc, x, Ghost(295147905179352825854nat));
    acc = square_step(&acc, x, Ghost(295147905179352825855nat));
    acc = mul_step(&acc, x, Ghost(590295810358705651710nat));
    acc = square_step(&acc, x, Ghost(590295810358705651711nat));
    acc = mul_step(&acc, x, Ghost(1180591620717411303422nat));
    acc = square_step(&acc, x, Ghost(1180591620717411303423nat));
    acc = mul_step(&acc, x, Ghost(2361183241434822606846nat));
    acc = square_step(&acc, x, Ghost(2361183241434822606847nat));
    acc = mul_step(&acc, x, Ghost(4722366482869645213694nat));
    acc = square_step(&acc, x, Ghost(4722366482869645213695nat));
    acc = mul_step(&acc, x, Ghost(9444732965739290427390nat));
    acc
}

fn inverse_power_part_6(acc0: &FieldElement, x: &FieldElement) -> (r: FieldElement)
    requires
        acc0@ == pow(x@ as int, 9444732965739290427391nat) % (p() as int),
    ensures
        r@ == pow(x@ as int, 38685626227668133590597631nat) % (p() as int),
{
    let mut acc = *acc0;
    acc = square_step(&acc, x, Ghost(9444732965739290427391nat));
    acc = mul_step(&acc, x, Ghost(18889465931478580854782nat));
    acc = square_step(&acc, x, Ghost(18889465931478580854783nat));
    acc = mul_step(&acc, x, Ghost(37778931862957161709566nat));
    acc = square_step(&acc, x, Ghost(37778931862957161709567nat));
    acc = mul_step(&acc, x, Ghost(75557863725914323419134nat));
    acc = square_step(&acc, x, Ghost(75557863725914323419135nat));
    acc = mul_step(&acc, x, Ghost(151115727451828646838270nat));
    acc = square_step(&acc, x, Ghost(151115727451828646838271nat));
    acc = mul_step(&acc, x, Ghost(302231454903657293676542nat));
    acc = square_step(&acc, x, Ghost(302231454903657293676543nat));
    acc = mul_step(&acc, x, Ghost(604462909807314587353086nat));
    acc = square_step(&acc, x, Ghost(604462909807314587353087nat));
    acc = mul_step(&acc, x, Ghost(1208925819614629174706174nat));
    acc = square_step(&acc, x, Ghost(1208925819614629174706175nat));
    acc = mul_step(&acc, x, Ghost(2417851639229258349412350nat));
    acc = square_step(&acc, x, Ghost(2417851639229258349412351nat));
    acc = mul_step(&acc, x, Ghost(4835703278458516698824702nat));
    acc = square_step(&acc, x, Ghost(4835703278458516698824703nat));
    acc = mul_step(&acc, x, Ghost(9671406556917033397649406nat));
    acc = square_step(&acc, x, Ghost(9671406556917033397649407nat));
    acc = mul_step(&acc, x, Ghost(19342813113834066795298814nat));
    acc = square_step(&acc, x, Ghost(19342813113834066795298815nat));
    acc = mul_step(&acc, x, Ghost(38685626227668133590597630nat));
    acc
}

fn inverse_power_part_7(acc0: &FieldElement, x: &FieldElement) -> (r: FieldElement)
    requires
        acc0@ == pow(x@ as int, 38685626227668133590597631nat) % (p() as int),
    ensures
        r@ == pow(x@ as int, 158456325028528675187087900671nat) % (p() as int),
{
    let mut acc = *acc0;
    acc = square_step(&acc, x, Ghost(38685626227668133590597631nat));
    acc = mul_step(&acc, x, Ghost(77371252455336267181195262nat));
    acc = square_step(&acc, x, Ghost(77371252455336267181195263nat));
    acc = mul_step(&acc, x, Ghost(154742504910672534362390526nat));
    acc = square_step(&acc, x, Ghost(154742504910672534362390527nat));
    acc = mul_step(&acc, x, Ghost(309485009821345068724781054nat));
    acc = square_step(&acc, x, Ghost(309485009821345068724781055nat));
    acc = mul_step(&acc, x, Ghost(618970019642690137449562110nat));
    acc = square_step(&acc, x, Ghost(618970019642690137449562111nat));
    acc = mul_step(&acc, x, Ghost(1237940039285380274899124222nat));
    acc = square_step(&acc, x, Ghost(1237940039285380274899124223nat));
    acc = mul_step(&acc, x, Ghost(2475880078570760549798248446nat));
    acc = square_step(&acc, x, Ghost(2475880078570760549798248447nat));
    acc = mul_step(&acc, x, Ghost(4951760157141521099596496894nat));
    acc = square_step(&acc, x, Ghost(4951760157141521099596496895nat));
    acc = mul_step(&acc, x, Ghost(9903520314283042199192993790nat));
    acc = square_step(&acc, x, Ghost(9903520314283042199192993791nat));
    acc = mul_step(&acc, x, Ghost(19807040628566084398385987582nat));
    acc = square_step(&acc, x, Ghost(19807040628566084398385987583nat));
    acc = mul_step(&acc, x, Ghost(39614081257132168796771975166nat));
    acc = square_step(&acc, x, Ghost(39614081257132168796771975167nat));
    acc = mul_step(&acc, x, Ghost(79228162514264337593543950334nat));
    acc = square_step(&acc, x, Ghost(79228162514264337593543950335nat));
    acc = mul_step(&acc, x, Ghost(158456325028528675187087900670nat));
    acc
}

fn inverse_power_part_8(acc0: &FieldElement, x: &FieldElement) -> (r: FieldElement)
    requires
        acc0@ == pow(x@ as int, 158456325028528675187087900671nat) % (p() as int),
    ensures
        r@ == pow(x@ as int, 649037107316853453566312041152511nat) % (p() as int),
{
    let mut acc = *acc0;
    acc = square_step(&acc, x, Ghost(158456325028528675187087900671nat));
    acc = mul_step(&acc, x, Ghost(316912650057057350374175801342nat));
    acc = square_step(&acc, x, Ghost(316912650057057350374175801343nat));
    acc = mul_step(&acc, x, Ghost(633825300114114700748351602686nat));
    acc = square_step(&acc, x, Ghost(633825300114114700748351602687nat));
    acc = mul_step(&acc, x, Ghost(1267650600228229401496703205374nat));
    acc = square_step(&acc, x, Ghost(1267650600228229401496703205375nat));
    acc = mul_step(&acc, x, Ghost(2535301200456458802993406410750nat));
    acc = square_step(&acc, x, Ghost(2535301200456458802993406410751nat));
    acc = mul_step(&acc, x, Ghost(5070602400912917605986812821502nat));
    acc = square_step(&acc, x, Ghost(5070602400912917605986812821503nat));
    acc = mul_step(&acc, x, Ghost(10141204801825835211973625643006nat));
    acc = square_step(&acc, x, Ghost(10141204801825835211973625643007nat));
    acc = mul_step(&acc, x, Ghost(20282409603651670423947251286014nat));
    acc = square_step(&acc, x, Ghost(20282409603651670423947251286015nat));
    acc = mul_step(&acc, x, Ghost(40564819207303340847894502572030nat));
    acc = square_step(&acc, x, Ghost(40564819207303340847894502572031nat));
    acc = mul_step(&acc, x, Ghost(81129638414606681695789005144062nat));
    acc = square_step(&acc, x, Ghost(81129638414606681695789005144063nat));
    acc = mul_step(&acc, x, Ghost(162259276829213363391578010288126nat));
    acc = square_step(&acc, x, Ghost(162259276829213363391578010288127nat));
    acc = mul_step(&acc, x, Ghost(324518553658426726783156020576254nat));
    acc = square_step(&acc, x, Ghost(324518553658426726783156020576255nat));
    acc = mul_step(&acc, x, Ghost(649037107316853453566312041152510nat));
    acc
}

fn inverse_power_part_9(acc0: &FieldElement, x: &FieldElement) -> (r: FieldElement)
    requires
        acc0@ == pow(x@ as int, 649037107316853453566312041152511nat) % (p() as int),
    ensures
        r@ == pow(x@ as int, 2658455991569831745807614120560689151nat) % (p() as int),
{
    let mut acc = *acc0;
    acc = square_step(&acc, x, Ghost(649037107316853453566312041152511nat));
    acc = mul_step(&acc, x, Ghost(1298074214633706907132624082305022nat));
    acc = square_step(&acc, x, Ghost(1298074214633706907132624082305023nat));
    acc = mul_step(&acc, x, Ghost(2596148429267413814265248164610046nat));
    acc = square_step(&acc, x, Ghost(2596148429267413814265248164610047nat));
    acc = mul_step(&acc, x, Ghost(5192296858534827628530496329220094nat));
    acc = square_step(&acc, x, Ghost(5192296858534827628530496329220095nat));
    acc = mul_step(&acc, x, Ghost(10384593717069655257060992658440190nat));
    acc = square_step(&acc, x, Ghost(10384593717069655257060992658440191nat));
    acc = mul_step(&acc, x, Ghost(20769187434139310514121985316880382nat));
    acc = square_step(&acc, x, Ghost(20769187434139310514121985316880383nat));
    acc = mul_step(&acc, x, Ghost(41538374868278621028243970633760766nat));
    acc = square_step(&acc, x, Ghost(41538374868278621028243970633760767nat));
    acc = mul_step(&acc, x, Ghost(83076749736557242056487941267521534nat));
    acc = square_step(&acc, x, Ghost(83076749736557242056487941267521535nat));
    acc = mul_step(&acc, x, Ghost(166153499473114484112975882535043070nat));
    acc = square_step(&acc, x, Ghost(166153499473114484112975882535043071nat));
    acc = mul_step(&acc, x, Ghost(332306998946228968225951765070086142nat));
    acc = square_step(&acc, x, Ghost(332306998946228968225951765070086143nat));
    acc = mul_step(&acc, x, Ghost(664613997892457936451903530140172286nat));
    acc = square_step(&acc, x, Ghost(664613997892457936451903530140172287nat));
    acc = mul_step(&acc, x, Ghost(1329227995784915872903807060280344574nat));
    acc = square_step(&acc, x, Ghost(1329227995784915872903807060280344575nat));
    acc = mul_step(&acc, x, Ghost(2658455991569831745807614120560689150nat));
    acc
}

fn inverse_power_part_10(acc0: &FieldElement, x: &FieldElement) -> (r: FieldElement)
    requires
        acc0@ == pow(x@ as int, 2658455991569831745807614120560689151nat) % (p() as int),
    ensures
        r@ == pow(x@ as int, 10889035741470030830827987437816582766591nat) % (p() as int),
{
    let mut acc = *acc0;
    acc = square_step(&acc, x, Ghost(2658455991569831745807614120560689151nat));
    acc = mul_step(&acc, x, Ghost(5316911983139663491615228241121378302nat));
    acc = square_step(&acc, x, Ghost(5316911983139663491615228241121378303nat));
    acc = mul_step(&acc, x, Ghost(10633823966279326983230456482242756606nat));
    acc = square_step(&acc, x, Ghost(10633823966279326983230456482242756607nat));
    acc = mul_step(&acc, x, Ghost(21267647932558653966460912964485513214nat));
    acc = square_step(&acc, x, Ghost(21267647932558653966460912964485513215nat));
    acc = mul_step(&acc, x, Ghost(42535295865117307932921825928971026430nat));
    acc = square_step(&acc, x, Ghost(42535295865117307932921825928971026431nat));
    acc = mul_step(&acc, x, Ghost(85070591730234615865843651857942052862nat));
    acc = square_step(&acc, x, Ghost(85070591730234615865843651857942052863nat));
    acc = mul_step(&acc, x, Ghost(170141183460469231731687303715884105726nat));
    acc = square_step(&acc, x, Ghost(170141183460469231731687303715884105727nat));
    acc = mul_step(&acc, x, Ghost(340282366920938463463374607431768211454nat));
    acc = square_step(&acc, x, Ghost(340282366920938463463374607431768211455nat));
    acc = mul_step(&acc, x, Ghost(680564733841876926926749214863536422910nat));
    acc = square_step(&acc, x, Ghost(680564733841876926926749214863536422911nat));
    acc = mul_step(&acc, x, Ghost(1361129467683753853853498429727072845822nat));
    acc = square_step(&acc, x, Ghost(1361129467683753853853498429727072845823nat));
    acc = mul_step(&acc, x, Ghost(2722258935367507707706996859454145691646nat));
    acc = square_step(&acc, x, Ghost(2722258935367507707706996859454145691647nat));
    acc = mul_step(&acc, x, Ghost(5444517870735015415413993718908291383294nat));
    acc = square_step(&acc, x, Ghost(5444517870735015415413993718908291383295nat));
    acc = mul_step(&acc, x, Ghost(10889035741470030830827987437816582766590nat));
    acc
}

fn inverse_power_part_11(acc0: &FieldElement, x: &FieldElement) -> (r: FieldElement)
    requires
        acc0@ == pow(x@ as int, 10889035741470030830827987437816582766591nat) % (p() as int),
    ensures
        r@ == pow(x@ as int, 44601490397061246283071436545296723011960831nat) % (p() as int),
{
    let mut acc = *acc0;
    acc = square_step(&acc, x, Ghost(10889035741470030830827987437816582766591nat));
    acc = mul_step(&acc, x, Ghost(21778071482940061661655974875633165533182nat));
    acc = square_step(&acc, x, Ghost(21778071482940061661655974875633165533183nat));
    acc = mul_step(&acc, x, Ghost(43556142965880123323311949751266331066366nat));
    acc = square_step(&acc, x, Ghost(43556142965880123323311949751266331066367nat));
    acc = mul_step(&acc, x, Ghost(87112285931760246646623899502532662132734nat));
    acc = square_step(&acc, x, Ghost(87112285931760246646623899502532662132735nat));
    acc = mul_step(&acc, x, Ghost(174224571863520493293247799005065324265470nat));
    acc = square_step(&acc, x, Ghost(174224571863520493293247799005065324265471nat));
    acc = mul_step(&acc, x, Ghost(348449143727040986586495598010130648530942nat));
    acc = square_step(&acc, x, Ghost(348449143727040986586495598010130648530943nat));
    acc = mul_step(&acc, x, Ghost(696898287454081973172991196020261297061886nat));
    acc = square_step(&acc, x, Ghost(696898287454081973172991196020261297061887nat));
    acc = mul_step(&acc, x, Ghost(1393796574908163946345982392040522594123774nat));
    acc = square_step(&acc, x, Ghost(1393796574908163946345982392040522594123775nat));
    acc = mul_step(&acc, x, Ghost(2787593149816327892691964784081045188247550nat));
    acc = square_step(&acc, x, Ghost(2787593149816327892691964784081045188247551nat));
    acc = mul_step(&acc, x, Ghost(5575186299632655785383929568162090376495102nat));
    acc = square_step(&acc, x, Ghost(5575186299632655785383929568162090376495103nat));
    acc = mul_step(&acc, x, Ghost(11150372599265311570767859136324180752990206nat));
    acc = square_step(&acc, x, Ghost(11150372599265311570767859136324180752990207nat));
    acc = mul_step(&acc, x, Ghost(22300745198530623141535718272648361505980414nat));
    acc = square_step(&acc, x, Ghost(22300745198530623141535718272648361505980415nat));
    acc = mul_step(&acc, x, Ghost(44601490397061246283071436545296723011960830nat));
    acc
}

fn inverse_power_part_12(acc0: &FieldElement, x: &FieldElement) -> (r: FieldElement)
    requires
        acc0@ == pow(x@ as int, 44601490397061246283071436545296723011960831nat) % (p() as int),
    ensures
        r@ == pow(x@ as int, 182687704666362864775460604089535377456991567871nat) % (p() as int),
{
    let mut acc = *acc0;
    acc = square_step(&acc, x, Ghost(44601490397061246283071436545296723011960831nat));
    acc = mul_step(&acc, x, Ghost(89202980794122492566142873090593446023921662nat));
    acc = square_step(&acc, x, Ghost(89202980794122492566142873090593446023921663nat));
    acc = mul_step(&acc, x, Ghost(178405961588244985132285746181186892047843326nat));
    acc = square_step(&acc, x, Ghost(178405961588244985132285746181186892047843327nat));
    acc = mul_step(&acc, x, Ghost(356811923176489970264571492362373784095686654nat));
    acc = square_step(&acc, x, Ghost(356811923176489970264571492362373784095686655nat));
    acc = mul_step(&acc, x, Ghost(713623846352979940529142984724747568191373310nat));
    acc = square_step(&acc, x, Ghost(713623846352979940529142984724747568191373311nat));
    acc = mul_step(&acc, x, Ghost(1427247692705959881058285969449495136382746622nat));
    acc = square_step(&acc, x, Ghost(1427247692705959881058285969449495136382746623nat));
    acc = mul_step(&acc, x, Ghost(2854495385411919762116571938898990272765493246nat));
    acc = square_step(&acc, x, Ghost(2854495385411919762116571938898990272765493247nat));
    acc = mul_step(&acc, x, Ghost(5708990770823839524233143877797980545530986494nat));
    acc = square_step(&acc, x, Ghost(5708990770823839524233143877797980545530986495nat));
    acc = mul_step(&acc, x, Ghost(11417981541647679048466287755595961091061972990nat));
    acc = square_step(&acc, x, Ghost(11417981541647679048466287755595961091061972991nat));
    acc = mul_step(&acc, x, Ghost(22835963083295358096932575511191922182123945982nat));
    acc = square_step(&acc, x, Ghost(22835963083295358096932575511191922182123945983nat));
    acc = mul_step(&acc, x, Ghost(45671926166590716193865151022383844364247891966nat));
    acc = square_step(&acc, x, Ghost(45671926166590716193865151022383844364247891967nat));
    acc = mul_step(&acc, x, Ghost(91343852333181432387730302044767688728495783934nat));
    acc = square_step(&acc, x, Ghost(91343852333181432387730302044767688728495783935nat));
    acc = mul_step(&acc, x, Ghost(182687704666362864775460604089535377456991567870nat));
    acc
}

fn inverse_power_part_13(acc0: &FieldElement, x: &FieldElement) -> (r: FieldElement)
    requires
        acc0@ == pow(x@ as int, 182687704666362864775460604089535377456991567871nat) % (p() as int),
    ensures
        r@ == pow(x@ as int, 748288838313422294120286634350736906063837462003711nat) % (p() as int),
{
    let mut acc = *acc0;
    acc = square_step(&acc, x, Ghost(182687704666362864775460604089535377456991567871nat));
    acc = mul_step(&acc, x, Ghost(365375409332725729550921208179070754913983135742nat));
    acc = square_step(&acc, x, Ghost(365375409332725729550921208179070754913983135743nat));
    acc = mul_step(&acc, x, Ghost(730750818665451459101842416358141509827966271486nat));
    acc = square_step(&acc, x, Ghost(730750818665451459101842416358141509827966271487nat));
    acc = mul_step(&acc, x, Ghost(1461501637330902918203684832716283019655932542974nat));
    acc = square_step(&acc, x, Ghost(1461501637330902918203684832716283019655932542975nat));
    acc = mul_step(&acc, x, Ghost(2923003274661805836407369665432566039311865085950nat));
    acc = square_step(&acc, x, Ghost(2923003274661805836407369665432566039311865085951nat));
    acc = mul_step(&acc, x, Ghost(5846006549323611672814739330865132078623730171902nat));
    acc = square_step(&acc, x, Ghost(5846006549323611672814739330865132078623730171903nat));
    acc = mul_step(&acc, x, Ghost(11692013098647223345629478661730264157247460343806nat));
    acc = square_step(&acc, x, Ghost(11692013098647223345629478661730264157247460343807nat));
    acc = mul_step(&acc, x, Ghost(23384026197294446691258957323460528314494920687614nat));
    acc = square_step(&acc, x, Ghost(23384026197294446691258957323460528314494920687615nat));
    acc = mul_step(&acc, x, Ghost(46768052394588893382517914646921056628989841375230nat));
    acc = square_step(&acc, x, Ghost(46768052394588893382517914646921056628989841375231nat));
    acc = mul_step(&acc, x, Ghost(93536104789177786765035829293842113257979682750462nat));
    acc = square_step(&acc, x, Ghost(93536104789177786765035829293842113257979682750463nat));
    acc = mul_step(&acc, x, Ghost(187072209578355573530071658587684226515959365500926nat));
    acc = square_step(&acc, x, Ghost(187072209578355573530071658587684226515959365500927nat));
    acc = mul_step(&acc, x, Ghost(374144419156711147060143317175368453031918731001854nat));
    acc = square_step(&acc, x, Ghost(374144419156711147060143317175368453031918731001855nat));
    acc = mul_step(&acc, x, Ghost(748288838313422294120286634350736906063837462003710nat));
    acc
}

fn inverse_power_part_14(acc0: &FieldElement, x: &FieldElement) -> (r: FieldElement)
    requires
        acc0@ == pow(x@ as int, 748288838313422294120286634350736906063837462003711nat) % (p() as int),
    ensures
        r@ == pow(x@ as int, 3064991081731777716716694054300618367237478244367204351nat) % (p() as int),
{
    let mut acc = *acc0;
    acc = square_step(&acc, x, Ghost(748288838313422294120286634350736906063837462003711nat));
    acc = mul_step(&acc, x, Ghost(1496577676626844588240573268701473812127674924007422nat));
    acc = square_step(&acc, x, Ghost(1496577676626844588240573268701473812127674924007423nat));
    acc = mul_step(&acc, x, Ghost(2993155353253689176481146537402947624255349848014846nat));
    acc = square_step(&acc, x, Ghost(2993155353253689176481146537402947624255349848014847nat));
    acc = mul_step(&acc, x, Ghost(5986310706507378352962293074805895248510699696029694nat));
    acc = square_step(&acc, x, Ghost(5986310706507378352962293074805895248510699696029695nat));
    acc = mul_step(&acc, x, Ghost(11972621413014756705924586149611790497021399392059390nat));
    acc = square_step(&acc, x, Ghost(11972621413014756705924586149611790497021399392059391nat));
    acc = mul_step(&acc, x, Ghost(23945242826029513411849172299223580994042798784118782nat));
    acc = square_step(&acc, x, Ghost(23945242826029513411849172299223580994042798784118783nat));
    acc = mul_step(&acc, x, Ghost(47890485652059026823698344598447161988085597568237566nat));
    acc = square_step(&acc, x, Ghost(47890485652059026823698344598447161988085597568237567nat));
    acc = mul_step(&acc, x, Ghost(95780971304118053647396689196894323976171195136475134nat));
    acc = square_step(&acc, x, Ghost(95780971304118053647396689196894323976171195136475135nat));
    acc = mul_step(&acc, x, Ghost(191561942608236107294793378393788647952342390272950270nat));
    acc = square_step(&acc, x, Ghost(191561942608236107294793378393788647952342390272950271nat));
    acc = mul_step(&acc, x, Ghost(383123885216472214589586756787577295904684780545900542nat));
    acc = square_step(&acc, x, Ghost(383123885216472214589586756787577295904684780545900543nat));
    acc = mul_step(&acc, x, Ghost(766247770432944429179173513575154591809369561091801086nat));
    acc = square_step(&acc, x, Ghost(766247770432944429179173513575154591809369561091801087nat));
    acc = mul_step(&acc, x, Ghost(1532495540865888858358347027150309183618739122183602174nat));
    acc = square_step(&acc, x, Ghost(1532495540865888858358347027150309183618739122183602175nat));
    acc = mul_step(&acc, x, Ghost(3064991081731777716716694054300618367237478244367204350nat));
    acc
}

fn inverse_power_part_15(acc0: &FieldElement, x: &FieldElement) -> (r: FieldElement)
    requires
        acc0@ == pow(x@ as int, 3064991081731777716716694054300618367237478244367204351nat) % (p() as int),
    ensures
        r@ == pow(x@ as int, 12554203470773361527671578846415332832204710888928069025791nat) % (p() as int),
{
    let mut acc = *acc0;
    acc = square_step(&acc, x, Ghost(3064991081731777716716694054300618367237478244367204351nat));
    acc = mul_step(&acc, x, Ghost(6129982163463555433433388108601236734474956488734408702nat));
    acc = square_step(&acc, x, Ghost(6129982163463555433433388108601236734474956488734408703nat));
    acc = mul_step(&acc, x, Ghost(12259964326927110866866776217202473468949912977468817406nat));
    acc = square_step(&acc, x, Ghost(12259964326927110866866776217202473468949912977468817407nat));
    acc = mul_step(&acc, x, Ghost(24519928653854221733733552434404946937899825954937634814nat));
    acc = square_step(&acc, x, Ghost(24519928653854221733733552434404946937899825954937634815nat));
    acc = mul_step(&acc, x, Ghost(49039857307708443467467104868809893875799651909875269630nat));
    acc = square_step(&acc, x, Ghost(49039857307708443467467104868809893875799651909875269631nat));
    acc = mul_step(&acc, x, Ghost(98079714615416886934934209737619787751599303819750539262nat));
    acc = square_step(&acc, x, Ghost(98079714615416886934934209737619787751599303819750539263nat));
    acc = mul_step(&acc, x, Ghost(196159429230833773869868419475239575503198607639501078526nat));
    acc = square_step(&acc, x, Ghost(196159429230833773869868419475239575503198607639501078527nat));
    acc = mul_step(&acc, x, Ghost(392318858461667547739736838950479151006397215279002157054nat));
    acc = square_step(&acc, x, Ghost(392318858461667547739736838950479151006397215279002157055nat));
    acc = mul_step(&acc, x, Ghost(784637716923335095479473677900958302012794430558004314110nat));
    acc = square_step(&acc, x, Ghost(784637716923335095479473677900958302012794430558004314111nat));
    acc = mul_step(&acc, x, Ghost(1569275433846670190958947355801916604025588861116008628222nat));
    acc = square_step(&acc, x, Ghost(1569275433846670190958947355801916604025588861116008628223nat));
    acc = mul_step(&acc, x, Ghost(3138550867693340381917894711603833208051177722232017256446nat));
    acc = square_step(&acc, x, Ghost(3138550867693340381917894711603833208051177722232017256447nat));
    acc = mul_step(&acc, x, Ghost(6277101735386680763835789423207666416102355444464034512894nat));
    acc = square_step(&acc, x, Ghost(6277101735386680763835789423207666416102355444464034512895nat));
    acc = mul_step(&acc, x, Ghost(12554203470773361527671578846415332832204710888928069025790nat));
    acc
}

fn inverse_power_part_16(acc0: &FieldElement, x: &FieldElement) -> (r: FieldElement)
    requires
        acc0@ == pow(x@ as int, 12554203470773361527671578846415332832204710888928069025791nat) % (p() as int),
    ensures
        r@ == pow(x@ as int, 51422017416287688817342786954917203280710495801049370729644031nat) % (p() as int),
{
    let mut acc = *acc0;
    acc = square_step(&acc, x, Ghost(12554203470773361527671578846415332832204710888928069025791nat));
    acc = mul_step(&acc, x, Ghost(25108406941546723055343157692830665664409421777856138051582nat));
    acc = square_step(&acc, x, Ghost(25108406941546723055343157692830665664409421777856138051583nat));
    acc = mul_step(&acc, x, Ghost(50216813883093446110686315385661331328818843555712276103166nat));
    acc = square_step(&acc, x, Ghost(50216813883093446110686315385661331328818843555712276103167nat));
    acc = mul_step(&acc, x, Ghost(100433627766186892221372630771322662657637687111424552206334nat));
    acc = square_step(&acc, x, Ghost(100433627766186892221372630771322662657637687111424552206335nat));
    acc = mul_step(&acc, x, Ghost(200867255532373784442745261542645325315275374222849104412670nat));
    acc = square_step(&acc, x, Ghost(200867255532373784442745261542645325315275374222849104412671nat));
    acc = mul_step(&acc, x, Ghost(401734511064747568885490523085290650630550748445698208825342nat));
    acc = square_step(&acc, x, Ghost(401734511064747568885490523085290650630550748445698208825343nat));
    acc = mul_step(&acc, x, Ghost(803469022129495137770981046170581301261101496891396417650686nat));
    acc = square_step(&acc, x, Ghost(803469022129495137770981046170581301261101496891396417650687nat));
    acc = mul_step(&acc, x, Ghost(1606938044258990275541962092341162602522202993782792835301374nat));
    acc = square_step(&acc, x, Ghost(1606938044258990275541962092341162602522202993782792835301375nat));
    acc = mul_step(&acc, x, Ghost(3213876088517980551083924184682325205044405987565585670602750nat));
    acc = square_step(&acc, x, Ghost(3213876088517980551083924184682325205044405987565585670602751nat));
    acc = mul_step(&acc, x, Ghost(6427752177035961102167848369364650410088811975131171341205502nat));
    acc = square_step(&acc, x, Ghost(6427752177035961102167848369364650410088811975131171341205503nat));
    acc = mul_step(&acc, x, Ghost(12855504354071922204335696738729300820177623950262342682411006nat));
    acc = square_step(&acc, x, Ghost(12855504354071922204335696738729300820177623950262342682411007nat));
    acc = mul_step(&acc, x, Ghost(25711008708143844408671393477458601640355247900524685364822014nat));
    acc = square_step(&acc, x, Ghost(25711008708143844408671393477458601640355247900524685364822015nat));
    acc = mul_step(&acc, x, Ghost(51422017416287688817342786954917203280710495801049370729644030nat));
    acc
}

fn inverse_power_part_17(acc0: &FieldElement, x: &FieldElement) -> (r: FieldElement)
    requires
        acc0@ == pow(x@ as int, 51422017416287688817342786954917203280710495801049370729644031nat) % (p() as int),
    ensures
        r@ == pow(x@ as int, 210624583337114373395836055367340864637790190801098222508621955071nat) % (p() as int),
{
    let mut acc = *acc0;
    acc = square_step(&acc, x, Ghost(51422017416287688817342786954917203280710495801049370729644031nat));
    acc = mul_step(&acc, x, Ghost(102844034832575377634685573909834406561420991602098741459288062nat));
    acc = square_step(&acc, x, Ghost(102844034832575377634685573909834406561420991602098741459288063nat));
    acc = mul_step(&acc, x, Ghost(205688069665150755269371147819668813122841983204197482918576126nat));
    acc = square_step(&acc, x, Ghost(205688069665150755269371147819668813122841983204197482918576127nat));
    acc = mul_step(&acc, x, Ghost(411376139330301510538742295639337626245683966408394965837152254nat));
    acc = square_step(&acc, x, Ghost(411376139330301510538742295639337626245683966408394965837152255nat));
    acc = mul_step(&acc, x, Ghost(822752278660603021077484591278675252491367932816789931674304510nat));
    acc = square_step(&acc, x, Ghost(822752278660603021077484591278675252491367932816789931674304511nat));
    acc = mul_step(&acc, x, Ghost(1645504557321206042154969182557350504982735865633579863348609022nat));
    acc = square_step(&acc, x, Ghost(1645504557321206042154969182557350504982735865633579863348609023nat));
    acc = mul_step(&acc, x, Ghost(3291009114642412084309938365114701009965471731267159726697218046nat));
    acc = square_step(&acc, x, Ghost(3291009114642412084309938365114701009965471731267159726697218047nat));
    acc = mul_step(&acc, x, Ghost(6582018229284824168619876730229402019930943462534319453394436094nat));
    acc = square_step(&acc, x, Ghost(6582018229284824168619876730229402019930943462534319453394436095nat));
    acc = mul_step(&acc, x, Ghost(13164036458569648337239753460458804039861886925068638906788872190nat));
    acc = square_step(&acc, x, Ghost(13164036458569648337239753460458804039861886925068638906788872191nat));
    acc = mul_step(&acc, x, Ghost(26328072917139296674479506920917608079723773850137277813577744382nat));
    acc = square_step(&acc, x, Ghost(26328072917139296674479506920917608079723773850137277813577744383nat));
    acc = mul_step(&acc, x, Ghost(52656145834278593348959013841835216159447547700274555627155488766nat));
    acc = square_step(&acc, x, Ghost(52656145834278593348959013841835216159447547700274555627155488767nat));
    acc = mul_step(&acc, x, Ghost(105312291668557186697918027683670432318895095400549111254310977534nat));
    acc = square_step(&acc, x, Ghost(105312291668557186697918027683670432318895095400549111254310977535nat));
    acc = mul_step(&acc, x, Ghost(210624583337114373395836055367340864637790190801098222508621955070nat));
    acc
}

fn inverse_power_part_18(acc0: &FieldElement, x: &FieldElement) -> (r: FieldElement)
    requires
        acc0@ == pow(x@ as int, 210624583337114373395836055367340864637790190801098222508621955071nat) % (p() as int),
    ensures
        r@ == pow(x@ as int, 1725436586697640946858688965569256363112777243042596638790631055949758nat) % (p() as int),
{
    let mut acc = *acc0;
    acc = square_step(&acc, x, Ghost(210624583337114373395836055367340864637790190801098222508621955071nat));
    acc = mul_step(&acc, x, Ghost(421249166674228746791672110734681729275580381602196445017243910142nat));
    acc = square_step(&acc, x, Ghost(421249166674228746791672110734681729275580381602196445017243910143nat));
    acc = mul_step(&acc, x, Ghost(842498333348457493583344221469363458551160763204392890034487820286nat));
    acc = square_step(&acc, x, Ghost(842498333348457493583344221469363458551160763204392890034487820287nat));
    acc = mul_step(&acc, x, Ghost(1684996666696914987166688442938726917102321526408785780068975640574nat));
    acc = square_step(&acc, x, Ghost(1684996666696914987166688442938726917102321526408785780068975640575nat));
    acc = mul_step(&acc, x, Ghost(3369993333393829974333376885877453834204643052817571560137951281150nat));
    acc = square_step(&acc, x, Ghost(3369993333393829974333376885877453834204643052817571560137951281151nat));
    acc = mul_step(&acc, x, Ghost(6739986666787659948666753771754907668409286105635143120275902562302nat));
    acc = square_step(&acc, x, Ghost(6739986666787659948666753771754907668409286105635143120275902562303nat));
    acc = mul_step(&acc, x, Ghost(13479973333575319897333507543509815336818572211270286240551805124606nat));
    acc = square_step(&acc, x, Ghost(13479973333575319897333507543509815336818572211270286240551805124607nat));
    acc = square_step(&acc, x, Ghost(26959946667150639794667015087019630673637144422540572481103610249214nat));
    acc = mul_step(&acc, x, Ghost(53919893334301279589334030174039261347274288845081144962207220498428nat));
    acc = square_step(&acc, x, Ghost(53919893334301279589334030174039261347274288845081144962207220498429nat));
    acc = mul_step(&acc, x, Ghost(107839786668602559178668060348078522694548577690162289924414440996858nat));
    acc = square_step(&acc, x, Ghost(107839786668602559178668060348078522694548577690162289924414440996859nat));
    acc = mul_step(&acc, x, Ghost(215679573337205118357336120696157045389097155380324579848828881993718nat));
    acc = square_step(&acc, x, Ghost(215679573337205118357336120696157045389097155380324579848828881993719nat));
    acc = mul_step(&acc, x, Ghost(431359146674410236714672241392314090778194310760649159697657763987438nat));
    acc = square_step(&acc, x, Ghost(431359146674410236714672241392314090778194310760649159697657763987439nat));
    acc = mul_step(&acc, x, Ghost(862718293348820473429344482784628181556388621521298319395315527974878nat));
    acc = square_step(&acc, x, Ghost(862718293348820473429344482784628181556388621521298319395315527974879nat));
    acc
}

fn inverse_power_part_19(acc0: &FieldElement, x: &FieldElement) -> (r: FieldElement)
    requires
        acc0@ == pow(x@ as int, 1725436586697640946858688965569256363112777243042596638790631055949758nat) % (p() as int),
    ensures
        r@ == pow(x@ as int, 7067388259113537318333190002971674063309935587502475832486424805170216958nat) % (p() as int),
{
    let mut acc = *acc0;
    acc = mul_step(&acc, x, Ghost(1725436586697640946858688965569256363112777243042596638790631055949758nat));
    acc = square_step(&acc, x, Ghost(1725436586697640946858688965569256363112777243042596638790631055949759nat));
    acc = mul_step(&acc, x, Ghost(3450873173395281893717377931138512726225554486085193277581262111899518nat));
    acc = square_step(&acc, x, Ghost(3450873173395281893717377931138512726225554486085193277581262111899519nat));
    acc = mul_step(&acc, x, Ghost(6901746346790563787434755862277025452451108972170386555162524223799038nat));
    acc = square_step(&acc, x, Ghost(6901746346790563787434755862277025452451108972170386555162524223799039nat));
    acc = mul_step(&acc, x, Ghost(13803492693581127574869511724554050904902217944340773110325048447598078nat));
    acc = square_step(&acc, x, Ghost(13803492693581127574869511724554050904902217944340773110325048447598079nat));
    acc = mul_step(&acc, x, Ghost(27606985387162255149739023449108101809804435888681546220650096895196158nat));
    acc = square_step(&acc, x, Ghost(27606985387162255149739023449108101809804435888681546220650096895196159nat));
    acc = mul_step(&acc, x, Ghost(55213970774324510299478046898216203619608871777363092441300193790392318nat));
    acc = square_step(&acc, x, Ghost(55213970774324510299478046898216203619608871777363092441300193790392319nat));
    acc = mul_step(&acc, x, Ghost(110427941548649020598956093796432407239217743554726184882600387580784638nat));
    acc = square_step(&acc, x, Ghost(110427941548649020598956093796432407239217743554726184882600387580784639nat));
    acc = mul_step(&acc, x, Ghost(220855883097298041197912187592864814478435487109452369765200775161569278nat));
    acc = square_step(&acc, x, Ghost(220855883097298041197912187592864814478435487109452369765200775161569279nat));
    acc = mul_step(&acc, x, Ghost(441711766194596082395824375185729628956870974218904739530401550323138558nat));
    acc = square_step(&acc, x, Ghost(441711766194596082395824375185729628956870974218904739530401550323138559nat));
    acc = mul_step(&acc, x, Ghost(883423532389192164791648750371459257913741948437809479060803100646277118nat));
    acc = square_step(&acc, x, Ghost(883423532389192164791648750371459257913741948437809479060803100646277119nat));
    acc = mul_step(&acc, x, Ghost(1766847064778384329583297500742918515827483896875618958121606201292554238nat));
    acc = square_step(&acc, x, Ghost(1766847064778384329583297500742918515827483896875618958121606201292554239nat));
    acc = mul_step(&acc, x, Ghost(3533694129556768659166595001485837031654967793751237916243212402585108478nat));
    acc = square_step(&acc, x, Ghost(3533694129556768659166595001485837031654967793751237916243212402585108479nat));
    acc
}

fn inverse_power_part_20(acc0: &FieldElement, x: &FieldElement) -> (r: FieldElement)
    requires
        acc0@ == pow(x@ as int, 7067388259113537318333190002971674063309935587502475832486424805170216958nat) % (p() as int),
    ensures
        r@ == pow(x@ as int, 115792089237316195423570985008687907853269984665640564039457584007908834671661nat) % (p() as int),
{
    let mut acc = *acc0;
    acc = mul_step(&acc, x, Ghost(7067388259113537318333190002971674063309935587502475832486424805170216958nat));
    acc = square_step(&acc, x, Ghost(7067388259113537318333190002971674063309935587502475832486424805170216959nat));
    acc = mul_step(&acc, x, Ghost(14134776518227074636666380005943348126619871175004951664972849610340433918nat));
    acc = square_step(&acc, x, Ghost(14134776518227074636666380005943348126619871175004951664972849610340433919nat));
    acc = mul_step(&acc, x, Ghost(28269553036454149273332760011886696253239742350009903329945699220680867838nat));
    acc = square_step(&acc, x, Ghost(28269553036454149273332760011886696253239742350009903329945699220680867839nat));
    acc = mul_step(&acc, x, Ghost(56539106072908298546665520023773392506479484700019806659891398441361735678nat));
    acc = square_step(&acc, x, Ghost(56539106072908298546665520023773392506479484700019806659891398441361735679nat));
    acc = mul_step(&acc, x, Ghost(113078212145816597093331040047546785012958969400039613319782796882723471358nat));
    acc = square_step(&acc, x, Ghost(113078212145816597093331040047546785012958969400039613319782796882723471359nat));
    acc = square_step(&acc, x, Ghost(226156424291633194186662080095093570025917938800079226639565593765446942718nat));
    acc = square_step(&acc, x, Ghost(452312848583266388373324160190187140051835877600158453279131187530893885436nat));
    acc = square_step(&acc, x, Ghost(904625697166532776746648320380374280103671755200316906558262375061787770872nat));
    acc = square_step(&acc, x, Ghost(1809251394333065553493296640760748560207343510400633813116524750123575541744nat));
    acc = mul_step(&acc, x, Ghost(3618502788666131106986593281521497120414687020801267626233049500247151083488nat));
    acc = square_step(&acc, x, Ghost(3618502788666131106986593281521497120414687020801267626233049500247151083489nat));
    acc = square_step(&acc, x, Ghost(7237005577332262213973186563042994240829374041602535252466099000494302166978nat));
    acc = mul_step(&acc, x, Ghost(14474011154664524427946373126085988481658748083205070504932198000988604333956nat));
    acc = square_step(&acc, x, Ghost(14474011154664524427946373126085988481658748083205070504932198000988604333957nat));
    acc = mul_step(&acc, x, Ghost(28948022309329048855892746252171976963317496166410141009864396001977208667914nat));
    acc = square_step(&acc, x, Ghost(28948022309329048855892746252171976963317496166410141009864396001977208667915nat));
    acc = square_step(&acc, x, Ghost(57896044618658097711785492504343953926634992332820282019728792003954417335830nat));
    acc = mul_step(&acc, x, Ghost(115792089237316195423570985008687907853269984665640564039457584007908834671660nat));
    acc
}
fn root_power_part_0(acc0: &FieldElement, x: &FieldElement) -> (r: FieldElement)
    requires
        acc0@ == pow(x@ as int, 1nat) % (p() as int),
    ensures
        r@ == pow(x@ as int, 8191nat) % (p() as int),
{
    let mut acc = *acc0;
    acc = square_step(&acc, x, Ghost(1nat));
    acc = mul_step(&acc, x, Ghost(2nat));
    acc = square_step(&acc, x, Ghost(3nat));
    acc = mul_step(&acc, x, Ghost(6nat));
    acc = square_step(&acc, x, Ghost(7nat));
    acc = mul_step(&acc, x, Ghost(14nat));
    acc = square_step(&acc, x, Ghost(15nat));
    acc = mul_step(&acc, x, Ghost(30nat));
    acc = square_step(&acc, x, Ghost(31nat));
    acc = mul_step(&acc, x, Ghost(62nat));
    acc = square_step(&acc, x, Ghost(63nat));
    acc = mul_step(&acc, x, Ghost(126nat));
    acc = square_step(&acc, x, Ghost(127nat));
    acc = mul_step(&acc, x, Ghost(254nat));
    acc = square_step(&acc, x, Ghost(255nat));
    acc = mul_step(&acc, x, Ghost(510nat));
    acc = square_step(&acc, x, Ghost(511nat));
    acc = mul_step(&acc, x, Ghost(1022nat));
    acc = square_step(&acc, x, Ghost(1023nat));
    acc = mul_step(&acc, x, Ghost(2046nat));
    acc = square_step(&acc, x, Ghost(2047nat));
    acc = mul_step(&acc, x, Ghost(4094nat));
    acc = square_step(&acc, x, Ghost(4095nat));
    acc = mul_step(&acc, x, Ghost(8190nat));
    acc
}

fn root_power_part_1(acc0: &FieldElement, x: &FieldElement) -> (r: FieldElement)
    requires
        acc0@ == pow(x@ as int, 8191nat) % (p() as int),
    ensures
        r@ == pow(x@ as int, 33554431nat) % (p() as int),
{
    let mut acc = *acc0;
    acc = square_step(&acc, x, Ghost(8191nat));
    acc = mul_step(&acc, x, Ghost(16382nat));
    acc = square_step(&acc, x, Ghost(16383nat));
    acc = mul_step(&acc, x, Ghost(32766nat));
    acc = square_step(&acc, x, Ghost(32767nat));
    acc = mul_step(&acc, x, Ghost(65534nat));
    acc = square_step(&acc, x, Ghost(65535nat));
    acc = mul_step(&acc, x, Ghost(131070nat));
    acc = square_step(&acc, x, Ghost(131071nat));
    acc = mul_step(&acc, x, Ghost(262142nat));
    acc = square_step(&acc, x, Ghost(262143nat));
    acc = mul_step(&acc, x, Ghost(524286nat));
    acc = square_step(&acc, x, Ghost(524287nat));
    acc = mul_step(&acc, x, Ghost(1048574nat));
    acc = square_step(&acc, x, Ghost(1048575nat));
    acc = mul_step(&acc, x, Ghost(2097150nat));
    acc = square_step(&acc, x, Ghost(2097151nat));
    acc = mul_step(&acc, x, Ghost(4194302nat));
    acc = square_step(&acc, x, Ghost(4194303nat));
    acc = mul_step(&acc, x, Ghost(8388606nat));
    acc = square_step(&acc, x, Ghost(8388607nat));
    acc = mul_step(&acc, x, Ghost(16777214nat));
    acc = square_step(&acc, x, Ghost(16777215nat));
    acc = mul_step(&acc, x, Ghost(33554430nat));
    acc
}

fn root_power_part_2(acc0: &FieldElement, x: &FieldElement) -> (r: FieldElement)
    requires
        acc0@ == pow(x@ as int, 33554431nat) % (p() as int),
    ensures
        r@ == pow(x@ as int, 137438953471nat) % (p() as int),
{
    let mut acc = *acc0;
    acc = square_step(&acc, x, Ghost(33554431nat));
    acc = mul_step(&acc, x, Ghost(67108862nat));
    acc = square_step(&acc, x, Ghost(67108863nat));
    acc = mul_step(&acc, x, Ghost(134217726nat));
    acc = square_step(&acc, x, Ghost(134217727nat));
    acc = mul_step(&acc, x, Ghost(268435454nat));
    acc = square_step(&acc, x, Ghost(268435455nat));
    acc = mul_step(&acc, x, Ghost(536870910nat));
    acc = square_step(&acc, x, Ghost(536870911nat));
    acc = mul_step(&acc, x, Ghost(1073741822nat));
    acc = square_step(&acc, x, Ghost(1073741823nat));
    acc = mul_step(&acc, x, Ghost(2147483646nat));
    acc = square_step(&acc, x, Ghost(2147483647nat));
    acc = mul_step(&acc, x, Ghost(4294967294nat));
    acc = square_step(&acc, x, Ghost(4294967295nat));
    acc = mul_step(&acc, x, Ghost(8589934590nat));
    acc = square_step(&acc, x, Ghost(8589934591nat));
    acc = mul_step(&acc, x, Ghost(17179869182nat));
    acc = square_step(&acc, x, Ghost(17179869183nat));
    acc = mul_step(&acc, x, Ghost(34359738366nat));
    acc = square_step(&acc, x, Ghost(34359738367nat));
    acc = mul_step(&acc, x, Ghost(68719476734nat));
    acc = square_step(&acc, x, Ghost(68719476735nat));
    acc = mul_step(&acc, x, Ghost(137438953470nat));
    acc
}

fn root_power_part_3(acc0: &FieldElement, x: &FieldElement) -> (r: FieldElement)
    requires
        acc0@ == pow(x@ as int, 137438953471nat) % (p() as int),
    ensures
        r@ == pow(x@ as int, 562949953421311nat) % (p() as int),
{
    let mut acc = *acc0;
    acc = square_step(&acc, x, Ghost(137438953471nat));
    acc = mul_step(&acc, x, Ghost(274877906942nat));
    acc = square_step(&acc, x, Ghost(274877906943nat));
    acc = mul_step(&acc, x, Ghost(549755813886nat));
    acc = square_step(&acc, x, Ghost(549755813887nat));
    acc = mul_step(&acc, x, Ghost(1099511627774nat));
    acc = square_step(&acc, x, Ghost(1099511627775nat));
    acc = mul_step(&acc, x, Ghost(2199023255550nat));
    acc = square_step(&acc, x, Ghost(2199023255551nat));
    acc = mul_step(&acc, x, Ghost(4398046511102nat));
    acc = square_step(&acc, x, Ghost(4398046511103nat));
    acc = mul_step(&acc, x, Ghost(8796093022206nat));
    acc = square_step(&acc, x, Ghost(8796093022207nat));
    acc = mul_step(&acc, x, Ghost(17592186044414nat));
    acc = square_step(&acc, x, Ghost(17592186044415nat));
    acc = mul_step(&acc, x, Ghost(35184372088830nat));
    acc = square_step(&acc, x, Ghost(35184372088831nat));
    acc = mul_step(&acc, x, Ghost(70368744177662nat));
    acc = square_step(&acc, x, Ghost(70368744177663nat));
    acc = mul_step(&acc, x, Ghost(140737488355326nat));
    acc = square_step(&acc, x, Ghost(140737488355327nat));
    acc = mul_step(&acc, x, Ghost(281474976710654nat));
    acc = square_step(&acc, x, Ghost(281474976710655nat));
    acc = mul_step(&acc, x, Ghost(562949953421310nat));
    acc
}

fn root_power_part_4(acc0: &FieldElement, x: &FieldElement) -> (r: FieldElement)
    requires
        acc0@ == pow(x@ as int, 562949953421311nat) % (p() as int),
    ensures
        r@ == pow(x@ as int, 2305843009213693951nat) % (p() as int),
{
    let mut acc = *acc0;
    acc = square_step(&acc, x, Ghost(562949953421311nat));
    acc = mul_step(&acc, x, Ghost(1125899906842622nat));
    acc = square_step(&acc, x, Ghost(1125899906842623nat));
    acc = mul_step(&acc, x, Ghost(2251799813685246nat));
    acc = square_step(&acc, x, Ghost(2251799813685247nat));
    acc = mul_step(&acc, x, Ghost(4503599627370494nat));
    acc = square_step(&acc, x, Ghost(4503599627370495nat));
    acc = mul_step(&acc, x, Ghost(9007199254740990nat));
    acc = square_step(&acc, x, Ghost(9007199254740991nat));
    acc = mul_step(&acc, x, Ghost(18014398509481982nat));
    acc = square_step(&acc, x, Ghost(18014398509481983nat));
    acc = mul_step(&acc, x, Ghost(36028797018963966nat));
    acc = square_step(&acc, x, Ghost(36028797018963967nat));
    acc = mul_step(&acc, x, Ghost(72057594037927934nat));
    acc = square_step(&acc, x, Ghost(72057594037927935nat));
    acc = mul_step(&acc, x, Ghost(144115188075855870nat));
    acc = square_step(&acc, x, Ghost(144115188075855871nat));
    acc = mul_step(&acc, x, Ghost(288230376151711742nat));
    acc = square_step(&acc, x, Ghost(288230376151711743nat));
    acc = mul_step(&acc, x, Ghost(576460752303423486nat));
    acc = square_step(&acc, x, Ghost(576460752303423487nat));
    acc = mul_step(&acc, x, Ghost(1152921504606846974nat));
    acc = square_step(&acc, x, Ghost(1152921504606846975nat));
    acc = mul_step(&acc, x, Ghost(2305843009213693950nat));
    acc
}

fn root_power_part_5(acc0: &FieldElement, x: &FieldElement) -> (r: FieldElement)
    requires
        acc0@ == pow(x@ as int, 2305843009213693951nat) % (p() as int),
    ensures
        r@ == pow(x@ as int, 9444732965739290427391nat) % (p() as int),
{
    let mut acc = *acc0;
    acc = square_step(&acc, x, Ghost(2305843009213693951nat));
    acc = mul_step(&acc, x, Ghost(4611686018427387902nat));
    acc = square_step(&acc, x, Ghost(4611686018427387903nat));
    acc = mul_step(&acc, x, Ghost(9223372036854775806nat));
    acc = square_step(&acc, x, Ghost(9223372036854775807nat));
    acc = mul_step(&acc, x, Ghost(18446744073709551614nat));
    acc = square_step(&acc, x, Ghost(18446744073709551615nat));
    acc = mul_step(&acc, x, Ghost(36893488147419103230nat));
    acc = square_step(&acc, x, Ghost(36893488147419103231nat));
    acc = mul_step(&acc, x, Ghost(73786976294838206462nat));
    acc = square_step(&acc, x, Ghost(73786976294838206463nat));
    acc = mul_step(&acc, x, Ghost(147573952589676412926nat));
    acc = square_step(&acc, x, Ghost(147573952589676412927nat));
    acc = mul_step(&acc, x, Ghost(295147905179352825854nat));
    acc = square_step(&acc, x, Ghost(295147905179352825855nat));
    acc = mul_step(&acc, x, Ghost(590295810358705651710nat));
    acc = square_step(&acc, x, Ghost(590295810358705651711nat));
    acc = mul_step(&acc, x, Ghost(1180591620717411303422nat));
    acc = square_step(&acc, x, Ghost(1180591620717411303423nat));
    acc = mul_step(&acc, x, Ghost(2361183241434822606846nat));
    acc = square_step(&acc, x, Ghost(2361183241434822606847nat));
    acc = mul_step(&acc, x, Ghost(4722366482869645213694nat));
    acc = square_step(&acc, x, Ghost(4722366482869645213695nat));
    acc = mul_step(&acc, x, Ghost(9444732965739290427390nat));
    acc
}

fn root_power_part_6(acc0: &FieldElement, x: &FieldElement) -> (r: FieldElement)
    requires
        acc0@ == pow(x@ as int, 9444732965739290427391nat) % (p() as int),
    ensures
        r@ == pow(x@ as int, 38685626227668133590597631nat) % (p() as int),
{
    let mut acc = *acc0;
    acc = square_step(&acc, x, Ghost(9444732965739290427391nat));
    acc = mul_step(&acc, x, Ghost(18889465931478580854782nat));
    acc = square_step(&acc, x, Ghost(18889465931478580854783nat));
    acc = mul_step(&acc, x, Ghost(37778931862957161709566nat));
    acc = square_step(&acc, x, Ghost(37778931862957161709567nat));
    acc = mul_step(&acc, x, Ghost(75557863725914323419134nat));
    acc = square_step(&acc, x, Ghost(75557863725914323419135nat));
    acc = mul_step(&acc, x, Ghost(151115727451828646838270nat));
    acc = square_step(&acc, x, Ghost(151115727451828646838271nat));
    acc = mul_step(&acc, x, Ghost(302231454903657293676542nat));
    acc = square_step(&acc, x, Ghost(302231454903657293676543nat));
    acc = mul_step(&acc, x, Ghost(604462909807314587353086nat));
    acc = square_step(&acc, x, Ghost(604462909807314587353087nat));
    acc = mul_step(&acc, x, Ghost(1208925819614629174706174nat));
    acc = square_step(&acc, x, Ghost(1208925819614629174706175nat));
    acc = mul_step(&acc, x, Ghost(2417851639229258349412350nat));
    acc = square_step(&acc, x, Ghost(2417851639229258349412351nat));
    acc = mul_step(&acc, x, Ghost(4835703278458516698824702nat));
    acc = square_step(&acc, x, Ghost(4835703278458516698824703nat));
    acc = mul_step(&acc, x, Ghost(9671406556917033397649406nat));
    acc = square_step(&acc, x, Ghost(9671406556917033397649407nat));
    acc = mul_step(&acc, x, Ghost(19342813113834066795298814nat));
    acc = square_step(&acc, x, Ghost(19342813113834066795298815nat));
    acc = mul_step(&acc, x, Ghost(38685626227668133590597630nat));
    acc
}

fn root_power_part_7(acc0: &FieldElement, x: &FieldElement) -> (r: FieldElement)
    requires
        acc0@ == pow(x@ as int, 38685626227668133590597631nat) % (p() as int),
    ensures
        r@ == pow(x@ as int, 158456325028528675187087900671nat) % (p() as int),
{
    let mut acc = *acc0;
    acc = square_step(&acc, x, Ghost(38685626227668133590597631nat));
    acc = mul_step(&acc, x, Ghost(77371252455336267181195262nat));
    acc = square_step(&acc, x, Ghost(77371252455336267181195263nat));
    acc = mul_step(&acc, x, Ghost(154742504910672534362390526nat));
    acc = square_step(&acc, x, Ghost(154742504910672534362390527nat));
    acc = mul_step(&acc, x, Ghost(309485009821345068724781054nat));
    acc = square_step(&acc, x, Ghost(309485009821345068724781055nat));
    acc = mul_step(&acc, x, Ghost(618970019642690137449562110nat));
    acc = square_step(&acc, x, Ghost(618970019642690137449562111nat));
    acc = mul_step(&acc, x, Ghost(1237940039285380274899124222nat));
    acc = square_step(&acc, x, Ghost(1237940039285380274899124223nat));
    acc = mul_step(&acc, x, Ghost(2475880078570760549798248446nat));
    acc = square_step(&acc, x, Ghost(2475880078570760549798248447nat));
    acc = mul_step(&acc, x, Ghost(4951760157141521099596496894nat));
    acc = square_step(&acc, x, Ghost(4951760157141521099596496895nat));
    acc = mul_step(&acc, x, Ghost(9903520314283042199192993790nat));
    acc = square_step(&acc, x, Ghost(9903520314283042199192993791nat));
    acc = mul_step(&acc, x, Ghost(19807040628566084398385987582nat));
    acc = square_step(&acc, x, Ghost(19807040628566084398385987583nat));
    acc = mul_step(&acc, x, Ghost(39614081257132168796771975166nat));
    acc = square_step(&acc, x, Ghost(39614081257132168796771975167nat));
    acc = mul_step(&acc, x, Ghost(79228162514264337593543950334nat));
    acc = square_step(&acc, x, Ghost(79228162514264337593543950335nat));
    acc = mul_step(&acc, x, Ghost(158456325028528675187087900670nat));
    acc
}

fn root_power_part_8(acc0: &FieldElement, x: &FieldElement) -> (r: FieldElement)
    requires
        acc0@ == pow(x@ as int, 158456325028528675187087900671nat) % (p() as int),
    ensures
        r@ == pow(x@ as int, 649037107316853453566312041152511nat) % (p() as int),
{
    let mut acc = *acc0;
    acc = square_step(&acc, x, Ghost(158456325028528675187087900671nat));
    acc = mul_step(&acc, x, Ghost(316912650057057350374175801342nat));
    acc = square_step(&acc, x, Ghost(316912650057057350374175801343nat));
    acc = mul_step(&acc, x, Ghost(633825300114114700748351602686nat));
    acc = square_step(&acc, x, Ghost(633825300114114700748351602687nat));
    acc = mul_step(&acc, x, Ghost(1267650600228229401496703205374nat));
    acc = square_step(&acc, x, Ghost(1267650600228229401496703205375nat));
    acc = mul_step(&acc, x, Ghost(2535301200456458802993406410750nat));
    acc = square_step(&acc, x, Ghost(2535301200456458802993406410751nat));
    acc = mul_step(&acc, x, Ghost(5070602400912917605986812821502nat));
    acc = square_step(&acc, x, Ghost(5070602400912917605986812821503nat));
    acc = mul_step(&acc, x, Ghost(10141204801825835211973625643006nat));
    acc = square_step(&acc, x, Ghost(10141204801825835211973625643007nat));
    acc = mul_step(&acc, x, Ghost(20282409603651670423947251286014nat));
    acc = square_step(&acc, x, Ghost(20282409603651670423947251286015nat));
    acc = mul_step(&acc, x, Ghost(40564819207303340847894502572030nat));
    acc = square_step(&acc, x, Ghost(40564819207303340847894502572031nat));
    acc = mul_step(&acc, x, Ghost(81129638414606681695789005144062nat));
    acc = square_step(&acc, x, Ghost(81129638414606681695789005144063nat));
    acc = mul_step(&acc, x, Ghost(162259276829213363391578010288126nat));
    acc = square_step(&acc, x, Ghost(162259276829213363391578010288127nat));
    acc = mul_step(&acc, x, Ghost(324518553658426726783156020576254nat));
    acc = square_step(&acc, x, Ghost(324518553658426726783156020576255nat));
    acc = mul_step(&acc, x, Ghost(649037107316853453566312041152510nat));
    acc
}

fn root_power_part_9(acc0: &FieldElement, x: &FieldElement) -> (r: FieldElement)
    requires
        acc0@ == pow(x@ as int, 649037107316853453566312041152511nat) % (p() as int),
    ensures
        r@ == pow(x@ as int, 2658455991569831745807614120560689151nat) % (p() as int),
{
    let mut acc = *acc0;
    acc = square_step(&acc, x, Ghost(649037107316853453566312041152511nat));
    acc = mul_step(&acc, x, Ghost(1298074214633706907132624082305022nat));
    acc = square_step(&acc, x, Ghost(1298074214633706907132624082305023nat));
    acc = mul_step(&acc, x, Ghost(2596148429267413814265248164610046nat));
    acc = square_step(&acc, x, Ghost(2596148429267413814265248164610047nat));
    acc = mul_step(&acc, x, Ghost(5192296858534827628530496329220094nat));
    acc = square_step(&acc, x, Ghost(5192296858534827628530496329220095nat));
    acc = mul_step(&acc, x, Ghost(10384593717069655257060992658440190nat));
    acc = square_step(&acc, x, Ghost(10384593717069655257060992658440191nat));
    acc = mul_step(&acc, x, Ghost(20769187434139310514121985316880382nat));
    acc = square_step(&acc, x, Ghost(20769187434139310514121985316880383nat));
    acc = mul_step(&acc, x, Ghost(41538374868278621028243970633760766nat));
    acc = square_step(&acc, x, Ghost(41538374868278621028243970633760767nat));
    acc = mul_step(&acc, x, Ghost(83076749736557242056487941267521534nat));
    acc = square_step(&acc, x, Ghost(83076749736557242056487941267521535nat));
    acc = mul_step(&acc, x, Ghost(166153499473114484112975882535043070nat));
    acc = square_step(&acc, x, Ghost(166153499473114484112975882535043071nat));
    acc = mul_step(&acc, x, Ghost(332306998946228968225951765070086142nat));
    acc = square_step(&acc, x, Ghost(332306998946228968225951765070086143nat));
    acc = mul_step(&acc, x, Ghost(664613997892457936451903530140172286nat));
    acc = square_step(&acc, x, Ghost(664613997892457936451903530140172287nat));
    acc = mul_step(&acc, x, Ghost(1329227995784915872903807060280344574nat));
    acc = square_step(&acc, x, Ghost(1329227995784915872903807060280344575nat));
    acc = mul_step(&acc, x, Ghost(2658455991569831745807614120560689150nat));
    acc
}

fn root_power_part_10(acc0: &FieldElement, x: &FieldElement) -> (r: FieldElement)
    requires
        acc0@ == pow(x@ as int, 2658455991569831745807614120560689151nat) % (p() as int),
    ensures
        r@ == pow(x@ as int, 10889035741470030830827987437816582766591nat) % (p() as int),
{
    let mut acc = *acc0;
    acc = square_step(&acc, x, Ghost(2658455991569831745807614120560689151nat));
    acc = mul_step(&acc, x, Ghost(5316911983139663491615228241121378302nat));
    acc = square_step(&acc, x, Ghost(5316911983139663491615228241121378303nat));
    acc = mul_step(&acc, x, Ghost(10633823966279326983230456482242756606nat));
    acc = square_step(&acc, x, Ghost(10633823966279326983230456482242756607nat));
    acc = mul_step(&acc, x, Ghost(21267647932558653966460912964485513214nat));
    acc = square_step(&acc, x, Ghost(21267647932558653966460912964485513215nat));
    acc = mul_step(&acc, x, Ghost(42535295865117307932921825928971026430nat));
    acc = square_step(&acc, x, Ghost(42535295865117307932921825928971026431nat));
    acc = mul_step(&acc, x, Ghost(85070591730234615865843651857942052862nat));
    acc = square_step(&acc, x, Ghost(85070591730234615865843651857942052863nat));
    acc = mul_step(&acc, x, Ghost(170141183460469231731687303715884105726nat));
    acc = square_step(&acc, x, Ghost(170141183460469231731687303715884105727nat));
    acc = mul_step(&acc, x, Ghost(340282366920938463463374607431768211454nat));
    acc = square_step(&acc, x, Ghost(340282366920938463463374607431768211455nat));
    acc = mul_step(&acc, x, Ghost(680564733841876926926749214863536422910nat));
    acc = square_step(&acc, x, Ghost(680564733841876926926749214863536422911nat));
    acc = mul_step(&acc, x, Ghost(1361129467683753853853498429727072845822nat));
    acc = square_step(&acc, x, Ghost(1361129467683753853853498429727072845823nat));
    acc = mul_step(&acc, x, Ghost(2722258935367507707706996859454145691646nat));
    acc = square_step(&acc, x, Ghost(2722258935367507707706996859454145691647nat));
    acc = mul_step(&acc, x, Ghost(5444517870735015415413993718908291383294nat));
    acc = square_step(&acc, x, Ghost(5444517870735015415413993718908291383295nat));
    acc = mul_step(&acc, x, Ghost(10889035741470030830827987437816582766590nat));
    acc
}

fn root_power_part_11(acc0: &FieldElement, x: &FieldElement) -> (r: FieldElement)
    requires
        acc0@ == pow(x@ as int, 10889035741470030830827987437816582766591nat) % (p() as int),
    ensures
        r@ == pow(x@ as int, 44601490397061246283071436545296723011960831nat) % (p() as int),
{
    let mut acc = *acc0;
    acc = square_step(&acc, x, Ghost(10889035741470030830827987437816582766591nat));
    acc = mul_step(&acc, x, Ghost(21778071482940061661655974875633165533182nat));
    acc = square_step(&acc, x, Ghost(21778071482940061661655974875633165533183nat));
    acc = mul_step(&acc, x, Ghost(43556142965880123323311949751266331066366nat));
    acc = square_step(&acc, x, Ghost(43556142965880123323311949751266331066367nat));
    acc = mul_step(&acc, x, Ghost(87112285931760246646623899502532662132734nat));
    acc = square_step(&acc, x, Ghost(87112285931760246646623899502532662132735nat));
    acc = mul_step(&acc, x, Ghost(174224571863520493293247799005065324265470nat));
    acc = square_step(&acc, x, Ghost(174224571863520493293247799005065324265471nat));
    acc = mul_step(&acc, x, Ghost(348449143727040986586495598010130648530942nat));
    acc = square_step(&acc, x, Ghost(348449143727040986586495598010130648530943nat));
    acc = mul_step(&acc, x, Ghost(696898287454081973172991196020261297061886nat));
    acc = square_step(&acc, x, Ghost(696898287454081973172991196020261297061887nat));
    acc = mul_step(&acc, x, Ghost(1393796574908163946345982392040522594123774nat));
    acc = square_step(&acc, x, Ghost(1393796574908163946345982392040522594123775nat));
    acc = mul_step(&acc, x, Ghost(2787593149816327892691964784081045188247550nat));
    acc = square_step(&acc, x, Ghost(2787593149816327892691964784081045188247551nat));
    acc = mul_step(&acc, x, Ghost(5575186299632655785383929568162090376495102nat));
    acc = square_step(&acc, x, Ghost(5575186299632655785383929568162090376495103nat));
    acc = mul_step(&acc, x, Ghost(11150372599265311570767859136324180752990206nat));
    acc = square_step(&acc, x, Ghost(11150372599265311570767859136324180752990207nat));
    acc = mul_step(&acc, x, Ghost(22300745198530623141535718272648361505980414nat));
    acc = square_step(&acc, x, Ghost(22300745198530623141535718272648361505980415nat));
    acc = mul_step(&acc, x, Ghost(44601490397061246283071436545296723011960830nat));
    acc
}

fn root_power_part_12(acc0: &FieldElement, x: &FieldElement) -> (r: FieldElement)
    requires
        acc0@ == pow(x@ as int, 44601490397061246283071436545296723011960831nat) % (p() as int),
    ensures
        r@ == pow(x@ as int, 182687704666362864775460604089535377456991567871nat) % (p() as int),
{
    let mut acc = *acc0;
    acc = square_step(&acc, x, Ghost(44601490397061246283071436545296723011960831nat));
    acc = mul_step(&acc, x, Ghost(89202980794122492566142873090593446023921662nat));
    acc = square_step(&acc, x, Ghost(89202980794122492566142873090593446023921663nat));
    acc = mul_step(&acc, x, Ghost(178405961588244985132285746181186892047843326nat));
    acc = square_step(&acc, x, Ghost(178405961588244985132285746181186892047843327nat));
    acc = mul_step(&acc, x, Ghost(356811923176489970264571492362373784095686654nat));
    acc = square_step(&acc, x, Ghost(356811923176489970264571492362373784095686655nat));
    acc = mul_step(&acc, x, Ghost(713623846352979940529142984724747568191373310nat));
    acc = square_step(&acc, x, Ghost(713623846352979940529142984724747568191373311nat));
    acc = mul_step(&acc, x, Ghost(1427247692705959881058285969449495136382746622nat));
    acc = square_step(&acc, x, Ghost(1427247692705959881058285969449495136382746623nat));
    acc = mul_step(&acc, x, Ghost(2854495385411919762116571938898990272765493246nat));
    acc = square_step(&acc, x, Ghost(2854495385411919762116571938898990272765493247nat));
    acc = mul_step(&acc, x, Ghost(5708990770823839524233143877797980545530986494nat));
    acc = square_step(&acc, x, Ghost(5708990770823839524233143877797980545530986495nat));
    acc = mul_step(&acc, x, Ghost(11417981541647679048466287755595961091061972990nat));
    acc = square_step(&acc, x, Ghost(11417981541647679048466287755595961091061972991nat));
    acc = mul_step(&acc, x, Ghost(22835963083295358096932575511191922182123945982nat));
    acc = square_step(&acc, x, Ghost(22835963083295358096932575511191922182123945983nat));
    acc = mul_step(&acc, x, Ghost(45671926166590716193865151022383844364247891966nat));
    acc = square_step(&acc, x, Ghost(45671926166590716193865151022383844364247891967nat));
    acc = mul_step(&acc, x, Ghost(91343852333181432387730302044767688728495783934nat));
    acc = square_step(&acc, x, Ghost(91343852333181432387730302044767688728495783935nat));
    acc = mul_step(&acc, x, Ghost(182687704666362864775460604089535377456991567870nat));
    acc
}

fn root_power_part_13(acc0: &FieldElement, x: &FieldElement) -> (r: FieldElement)
    requires
        acc0@ == pow(x@ as int, 182687704666362864775460604089535377456991567871nat) % (p() as int),
    ensures
        r@ == pow(x@ as int, 748288838313422294120286634350736906063837462003711nat) % (p() as int),
{
    let mut acc = *acc0;
    acc = square_step(&acc, x, Ghost(182687704666362864775460604089535377456991567871nat));
    acc = mul_step(&acc, x, Ghost(365375409332725729550921208179070754913983135742nat));
    acc = square_step(&acc, x, Ghost(365375409332725729550921208179070754913983135743nat));
    acc = mul_step(&acc, x, Ghost(730750818665451459101842416358141509827966271486nat));
    acc = square_step(&acc, x, Ghost(730750818665451459101842416358141509827966271487nat));
    acc = mul_step(&acc, x, Ghost(1461501637330902918203684832716283019655932542974nat));
    acc = square_step(&acc, x, Ghost(1461501637330902918203684832716283019655932542975nat));
    acc = mul_step(&acc, x, Ghost(2923003274661805836407369665432566039311865085950nat));
    acc = square_step(&acc, x, Ghost(2923003274661805836407369665432566039311865085951nat));
    acc = mul_step(&acc, x, Ghost(5846006549323611672814739330865132078623730171902nat));
    acc = square_step(&acc, x, Ghost(5846006549323611672814739330865132078623730171903nat));
    acc = mul_step(&acc, x, Ghost(11692013098647223345629478661730264157247460343806nat));
    acc = square_step(&acc, x, Ghost(11692013098647223345629478661730264157247460343807nat));
    acc = mul_step(&acc, x, Ghost(23384026197294446691258957323460528314494920687614nat));
    acc = square_step(&acc, x, Ghost(23384026197294446691258957323460528314494920687615nat));
    acc = mul_step(&acc, x, Ghost(46768052394588893382517914646921056628989841375230nat));
    acc = square_step(&acc, x, Ghost(46768052394588893382517914646921056628989841375231nat));
    acc = mul_step(&acc, x, Ghost(93536104789177786765035829293842113257979682750462nat));
    acc = square_step(&acc, x, Ghost(93536104789177786765035829293842113257979682750463nat));
    acc = mul_step(&acc, x, Ghost(187072209578355573530071658587684226515959365500926nat));
    acc = square_step(&acc, x, Ghost(187072209578355573530071658587684226515959365500927nat));
    acc = mul_step(&acc, x, Ghost(374144419156711147060143317175368453031918731001854nat));
    acc = square_step(&acc, x, Ghost(374144419156711147060143317175368453031918731001855nat));
    acc = mul_step(&acc, x, Ghost(748288838313422294120286634350736906063837462003710nat));
    acc
}

fn root_power_part_14(acc0: &FieldElement, x: &FieldElement) -> (r: FieldElement)
    requires
        acc0@ == pow(x@ as int, 748288838313422294120286634350736906063837462003711nat) % (p() as int),
    ensures
        r@ == pow(x@ as int, 3064991081731777716716694054300618367237478244367204351nat) % (p() as int),
{
    let mut acc = *acc0;
    acc = square_step(&acc, x, Ghost(748288838313422294120286634350736906063837462003711nat));
    acc = mul_step(&acc, x, Ghost(1496577676626844588240573268701473812127674924007422nat));
    acc = square_step(&acc, x, Ghost(1496577676626844588240573268701473812127674924007423nat));
    acc = mul_step(&acc, x, Ghost(2993155353253689176481146537402947624255349848014846nat));
    acc = square_step(&acc, x, Ghost(2993155353253689176481146537402947624255349848014847nat));
    acc = mul_step(&acc, x, Ghost(5986310706507378352962293074805895248510699696029694nat));
    acc = square_step(&acc, x, Ghost(5986310706507378352962293074805895248510699696029695nat));
    acc = mul_step(&acc, x, Ghost(11972621413014756705924586149611790497021399392059390nat));
    acc = square_step(&acc, x, Ghost(11972621413014756705924586149611790497021399392059391nat));
    acc = mul_step(&acc, x, Ghost(23945242826029513411849172299223580994042798784118782nat));
    acc = square_step(&acc, x, Ghost(23945242826029513411849172299223580994042798784118783nat));
    acc = mul_step(&acc, x, Ghost(47890485652059026823698344598447161988085597568237566nat));
    acc = square_step(&acc, x, Ghost(47890485652059026823698344598447161988085597568237567nat));
    acc = mul_step(&acc, x, Ghost(95780971304118053647396689196894323976171195136475134nat));
    acc = square_step(&acc, x, Ghost(95780971304118053647396689196894323976171195136475135nat));
    acc = mul_step(&acc, x, Ghost(191561942608236107294793378393788647952342390272950270nat));
    acc = square_step(&acc, x, Ghost(191561942608236107294793378393788647952342390272950271nat));
    acc = mul_step(&acc, x, Ghost(383123885216472214589586756787577295904684780545900542nat));
    acc = square_step(&acc, x, Ghost(383123885216472214589586756787577295904684780545900543nat));
    acc = mul_step(&acc, x, Ghost(766247770432944429179173513575154591809369561091801086nat));
    acc = square_step(&acc, x, Ghost(766247770432944429179173513575154591809369561091801087nat));
    acc = mul_step(&acc, x, Ghost(1532495540865888858358347027150309183618739122183602174nat));
    acc = square_step(&acc, x, Ghost(1532495540865888858358347027150309183618739122183602175nat));
    acc = mul_step(&acc, x, Ghost(3064991081731777716716694054300618367237478244367204350nat));
    acc
}

fn root_power_part_15(acc0: &FieldElement, x: &FieldElement) -> (r: FieldElement)
    requires
        acc0@ == pow(x@ as int, 3064991081731777716716694054300618367237478244367204351nat) % (p() as int),
    ensures
        r@ == pow(x@ as int, 12554203470773361527671578846415332832204710888928069025791nat) % (p() as int),
{
    let mut acc = *acc0;
    acc = square_step(&acc, x, Ghost(3064991081731777716716694054300618367237478244367204351nat));
    acc = mul_step(&acc, x, Ghost(6129982163463555433433388108601236734474956488734408702nat));
    acc = square_step(&acc, x, Ghost(6129982163463555433433388108601236734474956488734408703nat));
    acc = mul_step(&acc, x, Ghost(12259964326927110866866776217202473468949912977468817406nat));
    acc = square_step(&acc, x, Ghost(12259964326927110866866776217202473468949912977468817407nat));
    acc = mul_step(&acc, x, Ghost(24519928653854221733733552434404946937899825954937634814nat));
    acc = square_step(&acc, x, Ghost(24519928653854221733733552434404946937899825954937634815nat));
    acc = mul_step(&acc, x, Ghost(49039857307708443467467104868809893875799651909875269630nat));
    acc = square_step(&acc, x, Ghost(49039857307708443467467104868809893875799651909875269631nat));
    acc = mul_step(&acc, x, Ghost(98079714615416886934934209737619787751599303819750539262nat));
    acc = square_step(&acc, x, Ghost(98079714615416886934934209737619787751599303819750539263nat));
    acc = mul_step(&acc, x, Ghost(196159429230833773869868419475239575503198607639501078526nat));
    acc = square_step(&acc, x, Ghost(196159429230833773869868419475239575503198607639501078527nat));
    acc = mul_step(&acc, x, Ghost(392318858461667547739736838950479151006397215279002157054nat));
    acc = square_step(&acc, x, Ghost(392318858461667547739736838950479151006397215279002157055nat));
    acc = mul_step(&acc, x, Ghost(784637716923335095479473677900958302012794430558004314110nat));
    acc = square_step(&acc, x, Ghost(784637716923335095479473677900958302012794430558004314111nat));
    acc = mul_step(&acc, x, Ghost(1569275433846670190958947355801916604025588861116008628222nat));
    acc = square_step(&acc, x, Ghost(1569275433846670190958947355801916604025588861116008628223nat));
    acc = mul_step(&acc, x, Ghost(3138550867693340381917894711603833208051177722232017256446nat));
    acc = square_step(&acc, x, Ghost(3138550867693340381917894711603833208051177722232017256447nat));
    acc = mul_step(&acc, x, Ghost(6277101735386680763835789423207666416102355444464034512894nat));
    acc = square_step(&acc, x, Ghost(6277101735386680763835789423207666416102355444464034512895nat));
    acc = mul_step(&acc, x, Ghost(12554203470773361527671578846415332832204710888928069025790nat));
    acc
}

fn root_power_part_16(acc0: &FieldElement, x: &FieldElement) -> (r: FieldElement)
    requires
        acc0@ == pow(x@ as int, 12554203470773361527671578846415332832204710888928069025791nat) % (p() as int),
    ensures
        r@ == pow(x@ as int, 51422017416287688817342786954917203280710495801049370729644031nat) % (p() as int),
{
    let mut acc = *acc0;
    acc = square_step(&acc, x, Ghost(12554203470773361527671578846415332832204710888928069025791nat));
    acc = mul_step(&acc, x, Ghost(25108406941546723055343157692830665664409421777856138051582nat));
    acc = square_step(&acc, x, Ghost(25108406941546723055343157692830665664409421777856138051583nat));
    acc = mul_step(&acc, x, Ghost(50216813883093446110686315385661331328818843555712276103166nat));
    acc = square_step(&acc, x, Ghost(50216813883093446110686315385661331328818843555712276103167nat));
    acc = mul_step(&acc, x, Ghost(100433627766186892221372630771322662657637687111424552206334nat));
    acc = square_step(&acc, x, Ghost(100433627766186892221372630771322662657637687111424552206335nat));
    acc = mul_step(&acc, x, Ghost(200867255532373784442745261542645325315275374222849104412670nat));
    acc = square_step(&acc, x, Ghost(200867255532373784442745261542645325315275374222849104412671nat));
    acc = mul_step(&acc, x, Ghost(401734511064747568885490523085290650630550748445698208825342nat));
    acc = square_step(&acc, x, Ghost(401734511064747568885490523085290650630550748445698208825343nat));
    acc = mul_step(&acc, x, Ghost(803469022129495137770981046170581301261101496891396417650686nat));
    acc = square_step(&acc, x, Ghost(803469022129495137770981046170581301261101496891396417650687nat));
    acc = mul_step(&acc, x, Ghost(1606938044258990275541962092341162602522202993782792835301374nat));
    acc = square_step(&acc, x, Ghost(1606938044258990275541962092341162602522202993782792835301375nat));
    acc = mul_step(&acc, x, Ghost(3213876088517980551083924184682325205044405987565585670602750nat));
    acc = square_step(&acc, x, Ghost(3213876088517980551083924184682325205044405987565585670602751nat));
    acc = mul_step(&acc, x, Ghost(6427752177035961102167848369364650410088811975131171341205502nat));
    acc = square_step(&acc, x, Ghost(6427752177035961102167848369364650410088811975131171341205503nat));
    acc = mul_step(&acc, x, Ghost(12855504354071922204335696738729300820177623950262342682411006nat));
    acc = square_step(&acc, x, Ghost(12855504354071922204335696738729300820177623950262342682411007nat));
    acc = mul_step(&acc, x, Ghost(25711008708143844408671393477458601640355247900524685364822014nat));
    acc = square_step(&acc, x, Ghost(25711008708143844408671393477458601640355247900524685364822015nat));
    acc = mul_step(&acc, x, Ghost(51422017416287688817342786954917203280710495801049370729644030nat));
    acc
}

fn root_power_part_17(acc0: &FieldElement, x: &FieldElement) -> (r: FieldElement)
    requires
        acc0@ == pow(x@ as int, 51422017416287688817342786954917203280710495801049370729644031nat) % (p() as int),
    ensures
        r@ == pow(x@ as int, 210624583337114373395836055367340864637790190801098222508621955071nat) % (p() as int),
{
    let mut acc = *acc0;
    acc = square_step(&acc, x, Ghost(51422017416287688817342786954917203280710495801049370729644031nat));
    acc = mul_step(&acc, x, Ghost(102844034832575377634685573909834406561420991602098741459288062nat));
    acc = square_step(&acc, x, Ghost(102844034832575377634685573909834406561420991602098741459288063nat));
    acc = mul_step(&acc, x, Ghost(205688069665150755269371147819668813122841983204197482918576126nat));
    acc = square_step(&acc, x, Ghost(205688069665150755269371147819668813122841983204197482918576127nat));
    acc = mul_step(&acc, x, Ghost(411376139330301510538742295639337626245683966408394965837152254nat));
    acc = square_step(&acc, x, Ghost(411376139330301510538742295639337626245683966408394965837152255nat));
    acc = mul_step(&acc, x, Ghost(822752278660603021077484591278675252491367932816789931674304510nat));
    acc = square_step(&acc, x, Ghost(822752278660603021077484591278675252491367932816789931674304511nat));
    acc = mul_step(&acc, x, Ghost(1645504557321206042154969182557350504982735865633579863348609022nat));
    acc = square_step(&acc, x, Ghost(1645504557321206042154969182557350504982735865633579863348609023nat));
    acc = mul_step(&acc, x, Ghost(3291009114642412084309938365114701009965471731267159726697218046nat));
    acc = square_step(&acc, x, Ghost(3291009114642412084309938365114701009965471731267159726697218047nat));
    acc = mul_step(&acc, x, Ghost(6582018229284824168619876730229402019930943462534319453394436094nat));
    acc = square_step(&acc, x, Ghost(6582018229284824168619876730229402019930943462534319453394436095nat));
    acc = mul_step(&acc, x, Ghost(13164036458569648337239753460458804039861886925068638906788872190nat));
    acc = square_step(&acc, x, Ghost(13164036458569648337239753460458804039861886925068638906788872191nat));
    acc = mul_step(&acc, x, Ghost(26328072917139296674479506920917608079723773850137277813577744382nat));
    acc = square_step(&acc, x, Ghost(26328072917139296674479506920917608079723773850137277813577744383nat));
    acc = mul_step(&acc, x, Ghost(52656145834278593348959013841835216159447547700274555627155488766nat));
    acc = square_step(&acc, x, Ghost(52656145834278593348959013841835216159447547700274555627155488767nat));
    acc = mul_step(&acc, x, Ghost(105312291668557186697918027683670432318895095400549111254310977534nat));
    acc = square_step(&acc, x, Ghost(105312291668557186697918027683670432318895095400549111254310977535nat));
    acc = mul_step(&acc, x, Ghost(210624583337114373395836055367340864637790190801098222508621955070nat));
    acc
}

fn root_power_part_18(acc0: &FieldElement, x: &FieldElement) -> (r: FieldElement)
    requires
        acc0@ == pow(x@ as int, 210624583337114373395836055367340864637790190801098222508621955071nat) % (p() as int),
    ensures
        r@ == pow(x@ as int, 1725436586697640946858688965569256363112777243042596638790631055949758nat) % (p() as int),
{
    let mut acc = *acc0;
    acc = square_step(&acc, x, Ghost(210624583337114373395836055367340864637790190801098222508621955071nat));
    acc = mul_step(&acc, x, Ghost(421249166674228746791672110734681729275580381602196445017243910142nat));
    acc = square_step(&acc, x, Ghost(421249166674228746791672110734681729275580381602196445017243910143nat));
    acc = mul_step(&acc, x, Ghost(842498333348457493583344221469363458551160763204392890034487820286nat));
    acc = square_step(&acc, x, Ghost(842498333348457493583344221469363458551160763204392890034487820287nat));
    acc = mul_step(&acc, x, Ghost(1684996666696914987166688442938726917102321526408785780068975640574nat));
    acc = square_step(&acc, x, Ghost(1684996666696914987166688442938726917102321526408785780068975640575nat));
    acc = mul_step(&acc, x, Ghost(3369993333393829974333376885877453834204643052817571560137951281150nat));
    acc = square_step(&acc, x, Ghost(3369993333393829974333376885877453834204643052817571560137951281151nat));
    acc = mul_step(&acc, x, Ghost(6739986666787659948666753771754907668409286105635143120275902562302nat));
    acc = square_step(&acc, x, Ghost(6739986666787659948666753771754907668409286105635143120275902562303nat));
    acc = mul_step(&acc, x, Ghost(13479973333575319897333507543509815336818572211270286240551805124606nat));
    acc = square_step(&acc, x, Ghost(13479973333575319897333507543509815336818572211270286240551805124607nat));
    acc = square_step(&acc, x, Ghost(26959946667150639794667015087019630673637144422540572481103610249214nat));
    acc = mul_step(&acc, x, Ghost(53919893334301279589334030174039261347274288845081144962207220498428nat));
    acc = square_step(&acc, x, Ghost(53919893334301279589334030174039261347274288845081144962207220498429nat));
    acc = mul_step(&acc, x, Ghost(107839786668602559178668060348078522694548577690162289924414440996858nat));
    acc = square_step(&acc, x, Ghost(107839786668602559178668060348078522694548577690162289924414440996859nat));
    acc = mul_step(&acc, x, Ghost(215679573337205118357336120696157045389097155380324579848828881993718nat));
    acc = square_step(&acc, x, Ghost(215679573337205118357336120696157045389097155380324579848828881993719nat));
    acc = mul_step(&acc, x, Ghost(431359146674410236714672241392314090778194310760649159697657763987438nat));
    acc = square_step(&acc, x, Ghost(431359146674410236714672241392314090778194310760649159697657763987439nat));
    acc = mul_step(&acc, x, Ghost(862718293348820473429344482784628181556388621521298319395315527974878nat));
    acc = square_step(&acc, x, Ghost(862718293348820473429344482784628181556388621521298319395315527974879nat));
    acc
}

fn root_power_part_19(acc0: &FieldElement, x: &FieldElement) -> (r: FieldElement)
    requires
        acc0@ == pow(x@ as int, 1725436586697640946858688965569256363112777243042596638790631055949758nat) % (p() as int),
    ensures
        r@ == pow(x@ as int, 7067388259113537318333190002971674063309935587502475832486424805170216958nat) % (p() as int),
{
    let mut acc = *acc0;
    acc = mul_step(&acc, x, Ghost(1725436586697640946858688965569256363112777243042596638790631055949758nat));
    acc = square_step(&acc, x, Ghost(1725436586697640946858688965569256363112777243042596638790631055949759nat));
    acc = mul_step(&acc, x, Ghost(3450873173395281893717377931138512726225554486085193277581262111899518nat));
    acc = square_step(&acc, x, Ghost(3450873173395281893717377931138512726225554486085193277581262111899519nat));
    acc = mul_step(&acc, x, Ghost(6901746346790563787434755862277025452451108972170386555162524223799038nat));
    acc = square_step(&acc, x, Ghost(6901746346790563787434755862277025452451108972170386555162524223799039nat));
    acc = mul_step(&acc, x, Ghost(13803492693581127574869511724554050904902217944340773110325048447598078nat));
    acc = square_step(&acc, x, Ghost(13803492693581127574869511724554050904902217944340773110325048447598079nat));
    acc = mul_step(&acc, x, Ghost(27606985387162255149739023449108101809804435888681546220650096895196158nat));
    acc = square_step(&acc, x, Ghost(27606985387162255149739023449108101809804435888681546220650096895196159nat));
    acc = mul_step(&acc, x, Ghost(55213970774324510299478046898216203619608871777363092441300193790392318nat));
    acc = square_step(&acc, x, Ghost(55213970774324510299478046898216203619608871777363092441300193790392319nat));
    acc = mul_step(&acc, x, Ghost(110427941548649020598956093796432407239217743554726184882600387580784638nat));
    acc = square_step(&acc, x, Ghost(110427941548649020598956093796432407239217743554726184882600387580784639nat));
    acc = mul_step(&acc, x, Ghost(220855883097298041197912187592864814478435487109452369765200775161569278nat));
    acc = square_step(&acc, x, Ghost(220855883097298041197912187592864814478435487109452369765200775161569279nat));
    acc = mul_step(&acc, x, Ghost(441711766194596082395824375185729628956870974218904739530401550323138558nat));
    acc = square_step(&acc, x, Ghost(441711766194596082395824375185729628956870974218904739530401550323138559nat));
    acc = mul_step(&acc, x, Ghost(883423532389192164791648750371459257913741948437809479060803100646277118nat));
    acc = square_step(&acc, x, Ghost(883423532389192164791648750371459257913741948437809479060803100646277119nat));
    acc = mul_step(&acc, x, Ghost(1766847064778384329583297500742918515827483896875618958121606201292554238nat));
    acc = square_step(&acc, x, Ghost(1766847064778384329583297500742918515827483896875618958121606201292554239nat));
    acc = mul_step(&acc, x, Ghost(3533694129556768659166595001485837031654967793751237916243212402585108478nat));
    acc = square_step(&acc, x, Ghost(3533694129556768659166595001485837031654967793751237916243212402585108479nat));
    acc
}

fn root_power_part_20(acc0: &FieldElement, x: &FieldElement) -> (r: FieldElement)
    requires
        acc0@ == pow(x@ as int, 7067388259113537318333190002971674063309935587502475832486424805170216958nat) % (p() as int),
    ensures
        r@ == pow(x@ as int, 28948022309329048855892746252171976963317496166410141009864396001977208667916nat) % (p() as int),
{
    let mut acc = *acc0;
    acc = mul_step(&acc, x, Ghost(7067388259113537318333190002971674063309935587502475832486424805170216958nat));
    acc = square_step(&acc, x, Ghost(7067388259113537318333190002971674063309935587502475832486424805170216959nat));
    acc = mul_step(&acc, x, Ghost(14134776518227074636666380005943348126619871175004951664972849610340433918nat));
    acc = square_step(&acc, x, Ghost(14134776518227074636666380005943348126619871175004951664972849610340433919nat));
    acc = mul_step(&acc, x, Ghost(28269553036454149273332760011886696253239742350009903329945699220680867838nat));
    acc = square_step(&acc, x, Ghost(28269553036454149273332760011886696253239742350009903329945699220680867839nat));
    acc = mul_step(&acc, x, Ghost(56539106072908298546665520023773392506479484700019806659891398441361735678nat));
    acc = square_step(&acc, x, Ghost(56539106072908298546665520023773392506479484700019806659891398441361735679nat));
    acc = mul_step(&acc, x, Ghost(113078212145816597093331040047546785012958969400039613319782796882723471358nat));
    acc = square_step(&acc, x, Ghost(113078212145816597093331040047546785012958969400039613319782796882723471359nat));
    acc = square_step(&acc, x, Ghost(226156424291633194186662080095093570025917938800079226639565593765446942718nat));
    acc = square_step(&acc, x, Ghost(452312848583266388373324160190187140051835877600158453279131187530893885436nat));
    acc = square_step(&acc, x, Ghost(904625697166532776746648320380374280103671755200316906558262375061787770872nat));
    acc = square_step(&acc, x, Ghost(1809251394333065553493296640760748560207343510400633813116524750123575541744nat));
    acc = mul_step(&acc, x, Ghost(3618502788666131106986593281521497120414687020801267626233049500247151083488nat));
    acc = square_step(&acc, x, Ghost(3618502788666131106986593281521497120414687020801267626233049500247151083489nat));
    acc = mul_step(&acc, x, Ghost(7237005577332262213973186563042994240829374041602535252466099000494302166978nat));
    acc = square_step(&acc, x, Ghost(7237005577332262213973186563042994240829374041602535252466099000494302166979nat));
    acc = square_step(&acc, x, Ghost(14474011154664524427946373126085988481658748083205070504932198000988604333958nat));
    acc
}

/// `x^(p-2)`, by the same squarings and multiplications for every `x`.
pub(crate) fn pow_p_minus_2(x: &FieldElement) -> (r: FieldElement)
    ensures
        r@ == pow(x@ as int, (p() - 2) as nat) % (p() as int),
{
    let acc = *x;
    proof {
        x.lemma_view_bound();
        lemma_pow1(x@ as int);
        lemma_small_mod(x@, p());
    }
    let acc = inverse_power_part_0(&acc, x);
    let acc = inverse_power_part_1(&acc, x);
    let acc = inverse_power_part_2(&acc, x);
    let acc = inverse_power_part_3(&acc, x);
    let acc = inverse_power_part_4(&acc, x);
    let acc = inverse_power_part_5(&acc, x);
    let acc = inverse_power_part_6(&acc, x);
    let acc = inverse_power_part_7(&acc, x);
    let acc = inverse_power_part_8(&acc, x);
    let acc = inverse_power_part_9(&acc, x);
    let acc = inverse_power_part_10(&acc, x);
    let acc = inverse_power_part_11(&acc, x);
    let acc = inverse_power_part_12(&acc, x);
    let acc = inverse_power_part_13(&acc, x);
    let acc = inverse_power_part_14(&acc, x);
    let acc = inverse_power_part_15(&acc, x);
    let acc = inverse_power_part_16(&acc, x);
    let acc = inverse_power_part_17(&acc, x);
    let acc = inverse_power_part_18(&acc, x);
    let acc = inverse_power_part_19(&acc, x);
    let acc = inverse_power_part_20(&acc, x);
    acc
}

/// `x^((p+1)/4)`, by the same squarings and multiplications for every `x`.
pub(crate) fn pow_p_plus_1_over_4(x: &FieldElement) -> (r: FieldElement)
    ensures
        r@ == pow(x@ as int, ((p() + 1) / 4) as nat) % (p() as int),
{
    let acc = *x;
    proof {
        x.lemma_view_bound();
        lemma_pow1(x@ as int);
        lemma_small_mod(x@, p());
    }
    let acc = root_power_part_0(&acc, x);
    let acc = root_power_part_1(&acc, x);
    let acc = root_power_part_2(&acc, x);
    let acc = root_power_part_3(&acc, x);
    let acc = root_power_part_4(&acc, x);
    let acc = root_power_part_5(&acc, x);
    let acc = root_power_part_6(&acc, x);
    let acc = root_power_part_7(&acc, x);
    let acc = root_power_part_8(&acc, x);
    let acc = root_power_part_9(&acc, x);
    let acc = root_power_part_10(&acc, x);
    let acc = root_power_part_11(&acc, x);
    let acc = root_power_part_12(&acc, x);
    let acc = root_power_part_13(&acc, x);
    let acc = root_power_part_14(&acc, x);
    let acc = root_power_part_15(&acc, x);
    let acc = root_power_part_16(&acc, x);
    let acc = root_power_part_17(&acc, x);
    let acc = root_power_part_18(&acc, x);
    let acc = root_power_part_19(&acc, x);
    let acc = root_power_part_20(&acc, x);
    acc
}

} // verus!
