//! A Lucas certificate that 255515944373312847190720520512484175977 is prime.
use vstd::prelude::*;
use crate::prime::{is_prime, pow_mod, power_of, product, lucas_certificate, lemma_lucas, lemma_pow_mod_step, lemma_pow_mod_zero, lemma_product_push};
use crate::cert_1627::lemma_prime_1627;
use crate::cert_2657::lemma_prime_2657;
use crate::cert_4423::lemma_prime_4423;
use crate::cert_41201::lemma_prime_41201;
use crate::cert_96557::lemma_prime_96557;
use crate::cert_7240687::lemma_prime_7240687;
use crate::cert_107590001::lemma_prime_107590001;
use crate::cert_small::lemma_small_primes;
verus! {

proof fn lemma_certificate_full_0()
    requires
        pow_mod(3int, 0nat, 255515944373312847190720520512484175977int) == 1int,
    ensures
        pow_mod(3int, 3075nat, 255515944373312847190720520512484175977int) == 169370732391857245969895334087052081396int,
{
    let m: int = 255515944373312847190720520512484175977int;
    lemma_pow_mod_step(3int, 1nat, m, 0nat, 1int, 0int, 1int, 0int, 3int);
    lemma_pow_mod_step(3int, 3nat, m, 1nat, 3int, 0int, 9int, 0int, 27int);
    lemma_pow_mod_step(3int, 6nat, m, 3nat, 27int, 0int, 729int, 0int, 729int);
    lemma_pow_mod_step(3int, 12nat, m, 6nat, 729int, 0int, 531441int, 0int, 531441int);
    lemma_pow_mod_step(3int, 24nat, m, 12nat, 531441int, 0int, 282429536481int, 0int, 282429536481int);
    lemma_pow_mod_step(3int, 48nat, m, 24nat, 282429536481int, 0int, 79766443076872509863361int, 0int, 79766443076872509863361int);
    lemma_pow_mod_step(3int, 96nat, m, 48nat, 79766443076872509863361int, 24901324int, 123130102197216207287808519720013922773int, 0int, 123130102197216207287808519720013922773int);
    lemma_pow_mod_step(3int, 192nat, m, 96nat, 123130102197216207287808519720013922773int, 59334935454933543345292668545207582789int, 29530757701057884023829642930935549676int, 0int, 29530757701057884023829642930935549676int);
    lemma_pow_mod_step(3int, 384nat, m, 192nat, 29530757701057884023829642930935549676int, 3412959815628913463991120993474009346int, 183241631355299747406576440305057023934int, 0int, 183241631355299747406576440305057023934int);
    lemma_pow_mod_step(3int, 768nat, m, 384nat, 183241631355299747406576440305057023934int, 131410568307605564284134017320277744473int, 197971628716840702485946242451477711235int, 0int, 197971628716840702485946242451477711235int);
    lemma_pow_mod_step(3int, 1537nat, m, 768nat, 197971628716840702485946242451477711235int, 153386771510185579243593383079947362734int, 82016011872336211217361298725737384107int, 0int, 246048035617008633652083896177212152321int);
    lemma_pow_mod_step(3int, 3075nat, m, 1537nat, 246048035617008633652083896177212152321int, 236930951528173056215900984615994191250int, 141628892255056697720205284866512085791int, 1int, 169370732391857245969895334087052081396int);
}

proof fn lemma_certificate_full_1()
    requires
        pow_mod(3int, 3075nat, 255515944373312847190720520512484175977int) == 169370732391857245969895334087052081396int,
    ensures
        pow_mod(3int, 12597908nat, 255515944373312847190720520512484175977int) == 219236835492465487912168423673372651111int,
{
    let m: int = 255515944373312847190720520512484175977int;
    lemma_pow_mod_step(3int, 6151nat, m, 3075nat, 169370732391857245969895334087052081396int, 112268708167357142441265241925773458480int, 60051468447359576389704335875586373856int, 0int, 180154405342078729169113007626759121568int);
    lemma_pow_mod_step(3int, 12302nat, m, 6151nat, 180154405342078729169113007626759121568int, 127019900240510409564058461520762153536int, 180185237501836803885153168786085973952int, 0int, 180185237501836803885153168786085973952int);
    lemma_pow_mod_step(3int, 24605nat, m, 12302nat, 180185237501836803885153168786085973952int, 127063381086539725174575307008200694454int, 248818078343315926230196157367078566746int, 2int, 235422346283322084309147431076267348284int);
    lemma_pow_mod_step(3int, 49210nat, m, 24605nat, 235422346283322084309147431076267348284int, 216908894924261706574525909141772220254int, 79716174543849707823105575972018106498int, 0int, 79716174543849707823105575972018106498int);
    lemma_pow_mod_step(3int, 98421nat, m, 49210nat, 79716174543849707823105575972018106498int, 24869948916460730660441546455404853199int, 33895460781420143903587210341102423581int, 0int, 101686382344260431710761631023307270743int);
    lemma_pow_mod_step(3int, 196842nat, m, 98421nat, 101686382344260431710761631023307270743int, 40467613007961803825250245119741765630int, 69797524569170208769900481565893501539int, 0int, 69797524569170208769900481565893501539int);
    lemma_pow_mod_step(3int, 393684nat, m, 196842nat, 69797524569170208769900481565893501539int, 19066107392759397048522144693659209825int, 178361913330335418956323358048127994496int, 0int, 178361913330335418956323358048127994496int);
    lemma_pow_mod_step(3int, 787369nat, m, 393684nat, 178361913330335418956323358048127994496int, 124504841390167130995714797973846174193int, 101567863160973307925652851553398332455int, 1int, 49187645109607076586238034147710821388int);
    lemma_pow_mod_step(3int, 1574738nat, m, 787369nat, 49187645109607076586238034147710821388int, 9468780656184161607749063027665780455int, 113344126178366576760458288876371117009int, 0int, 113344126178366576760458288876371117009int);
    lemma_pow_mod_step(3int, 3149477nat, m, 1574738nat, 113344126178366576760458288876371117009int, 50278235945886696292349396666885770020int, 210384305219976303633101300115538296541int, 2int, 120121026913303216517862859321646537669int);
    lemma_pow_mod_step(3int, 6298954nat, m, 3149477nat, 120121026913303216517862859321646537669int, 56470296372681262301130507570256201638int, 254673168503053577592844845231048303235int, 0int, 254673168503053577592844845231048303235int);
    lemma_pow_mod_step(3int, 12597908nat, m, 6298954nat, 254673168503053577592844845231048303235int, 253833172385616517601510788176554592082int, 219236835492465487912168423673372651111int, 0int, 219236835492465487912168423673372651111int);
}

proof fn lemma_certificate_full_2()
    requires
        pow_mod(3int, 12597908nat, 255515944373312847190720520512484175977int) == 219236835492465487912168423673372651111int,
    ensures
        pow_mod(3int, 51601034029nat, 255515944373312847190720520512484175977int) == 212007719781293929518820093449660728702int,
{
    let m: int = 255515944373312847190720520512484175977int;
    lemma_pow_mod_step(3int, 25195817nat, m, 12597908nat, 219236835492465487912168423673372651111int, 188108770099007811929364777635602160187int, 223862271473144589313514488620678306622int, 2int, 160554925672808073559102424837066567912int);
    lemma_pow_mod_step(3int, 50391634nat, m, 25195817nat, 160554925672808073559102424837066567912int, 100885618786039541401021091812142391098int, 21419408077732696603490547125917786998int, 0int, 21419408077732696603490547125917786998int);
    lemma_pow_mod_step(3int, 100783269nat, m, 50391634nat, 21419408077732696603490547125917786998int, 1795547606728368010134339936257272753int, 36513382834754445222702202179158597323int, 0int, 109540148504263335668106606537475791969int);
    lemma_pow_mod_step(3int, 201566539nat, m, 100783269nat, 109540148504263335668106606537475791969int, 46960060217632725534753734667760144391int, 193945504310396340664562594199591401954int, 2int, 70804624184563327612246741573805853908int);
    lemma_pow_mod_step(3int, 403133078nat, m, 201566539nat, 70804624184563327612246741573805853908int, 19620281694017289362318427642495980712int, 114410661563531417093923972365233116840int, 0int, 114410661563531417093923972365233116840int);
    lemma_pow_mod_step(3int, 806266156nat, m, 403133078nat, 114410661563531417093923972365233116840int, 51228894977608600905966439435529731853int, 141045285003779970102151391492617290219int, 0int, 141045285003779970102151391492617290219int);
    lemma_pow_mod_step(3int, 1612532313nat, m, 806266156nat, 141045285003779970102151391492617290219int, 77857264330762865815197502227990921174int, 205233454561567243310044578615921630963int, 2int, 104668474938076035548692694822796540935int);
    lemma_pow_mod_step(3int, 3225064626nat, m, 1612532313nat, 104668474938076035548692694822796540935int, 42875953094561124639420093677302858397int, 223568192645085876696095981147870545356int, 0int, 223568192645085876696095981147870545356int);
    lemma_pow_mod_step(3int, 6450129253nat, m, 3225064626nat, 223568192645085876696095981147870545356int, 195614942485016354045474041412945633123int, 4142478855717833240127124539641080565int, 0int, 12427436567153499720381373618923241695int);
    lemma_pow_mod_step(3int, 12900258507nat, m, 6450129253nat, 12427436567153499720381373618923241695int, 604428737351055277790384892586380018int, 54511283103068241814503600429278045439int, 0int, 163533849309204725443510801287834136317int);
    lemma_pow_mod_step(3int, 25800517014nat, m, 12900258507nat, 163533849309204725443510801287834136317int, 104663996352467399766019598007336108073int, 140108671371876971559015356683715962168int, 0int, 140108671371876971559015356683715962168int);
    lemma_pow_mod_step(3int, 51601034029nat, m, 25800517014nat, 140108671371876971559015356683715962168int, 76826672565341886391294490980995859536int, 241013202842639874633420378158209693552int, 2int, 212007719781293929518820093449660728702int);
}

proof fn lemma_certificate_full_3()
    requires
        pow_mod(3int, 51601034029nat, 255515944373312847190720520512484175977int) == 212007719781293929518820093449660728702int,
    ensures
        pow_mod(3int, 211357835383782nat, 255515944373312847190720520512484175977int) == 141965714162396576751412984526292467729int,
{
    let m: int = 255515944373312847190720520512484175977int;
    lemma_pow_mod_step(3int, 103202068058nat, m, 51601034029nat, 212007719781293929518820093449660728702int, 175907900217745199761218066043609846799int, 2425448716754535643017145544920457181int, 0int, 2425448716754535643017145544920457181int);
    lemma_pow_mod_step(3int, 206404136116nat, m, 103202068058nat, 2425448716754535643017145544920457181int, 23023226562375917371778903708096810int, 143980614909008451346023520934262133391int, 0int, 143980614909008451346023520934262133391int);
    lemma_pow_mod_step(3int, 412808272233nat, m, 206404136116nat, 143980614909008451346023520934262133391int, 81131600301579294138112432988262592265int, 16287243030538953675282418480218140976int, 0int, 48861729091616861025847255440654422928int);
    lemma_pow_mod_step(3int, 825616544467nat, m, 412808272233nat, 48861729091616861025847255440654422928int, 9343716595369986122604213595882312270int, 179152673538794839841418442048345755394int, 2int, 26426131869758825142814285120068914228int);
    lemma_pow_mod_step(3int, 1651233088935nat, m, 825616544467nat, 26426131869758825142814285120068914228int, 2733060151336765869693017477902554056int, 56016473573236615810859782197961723272int, 0int, 168049420719709847432579346593885169816int);
    lemma_pow_mod_step(3int, 3302466177871nat, m, 1651233088935nat, 168049420719709847432579346593885169816int, 110523857419128684513765575420870606245int, 250818928611647149232270589969902297491int, 2int, 241424897088315753315370728884738540519int);
    lemma_pow_mod_step(3int, 6604932355743nat, m, 3302466177871nat, 241424897088315753315370728884738540519int, 228110934826623225310815210409967403027int, 105244124036924652602309815967454306982int, 1int, 60216427737461110616208927389878744969int);
    lemma_pow_mod_step(3int, 13209864711486nat, m, 6604932355743nat, 60216427737461110616208927389878744969int, 14190966353799063730614725241381713039int, 126828720038413691633082396893951346858int, 0int, 126828720038413691633082396893951346858int);
    lemma_pow_mod_step(3int, 26419729422972nat, m, 13209864711486nat, 126828720038413691633082396893951346858int, 62953113419337591989873790149797841365int, 198635517191860279569158160156836583559int, 0int, 198635517191860279569158160156836583559int);
    lemma_pow_mod_step(3int, 52839458845945nat, m, 26419729422972nat, 198635517191860279569158160156836583559int, 154417246981784739658579378701435212037int, 243158517672035647594548634424972471332int, 2int, 218443664269481248402204862249949062042int);
    lemma_pow_mod_step(3int, 105678917691891nat, m, 52839458845945nat, 218443664269481248402204862249949062042int, 186750124640995467156490802318827610922int, 46347708865198092993141567598829988970int, 0int, 139043126595594278979424702796489966910int);
    lemma_pow_mod_step(3int, 211357835383782nat, m, 105678917691891nat, 139043126595594278979424702796489966910int, 75662562275302282350039376798207337723int, 141965714162396576751412984526292467729int, 0int, 141965714162396576751412984526292467729int);
}

proof fn lemma_certificate_full_4()
    requires
        pow_mod(3int, 211357835383782nat, 255515944373312847190720520512484175977int) == 141965714162396576751412984526292467729int,
    ensures
        pow_mod(3int, 865721693731972161nat, 255515944373312847190720520512484175977int) == 252472905046965328337639186249456290906int,
{
    let m: int = 255515944373312847190720520512484175977int;
    lemma_pow_mod_step(3int, 422715670767564nat, m, 211357835383782nat, 141965714162396576751412984526292467729int, 78876737211332646311245824327513094459int, 2720161571667947129701196782526805998int, 0int, 2720161571667947129701196782526805998int);
    lemma_pow_mod_step(3int, 845431341535129nat, m, 422715670767564nat, 2720161571667947129701196782526805998int, 28958188868122344384688060751947086int, 115170805070009049184292884064512422982int, 1int, 89996470836714300362158131681053092969int);
    lemma_pow_mod_step(3int, 1690862683070258nat, m, 845431341535129nat, 89996470836714300362158131681053092969int, 31698079675334339168444827888916208157int, 80634808963327930307784251701806390572int, 0int, 80634808963327930307784251701806390572int);
    lemma_pow_mod_step(3int, 3381725366140516nat, m, 1690862683070258nat, 80634808963327930307784251701806390572int, 25446444966474990341483629553863559715int, 88369426337805496522430654468902520629int, 0int, 88369426337805496522430654468902520629int);
    lemma_pow_mod_step(3int, 6763450732281032nat, m, 3381725366140516nat, 88369426337805496522430654468902520629int, 30562302209460289938932618017809122440int, 14727893041673048498816559692870931761int, 0int, 14727893041673048498816559692870931761int);
    lemma_pow_mod_step(3int, 13526901464562065nat, m, 6763450732281032nat, 14727893041673048498816559692870931761int, 848913103951161781246357386543541738int, 225890819135836194173110861526282133095int, 2int, 166640568660882888137891543553878047331int);
    lemma_pow_mod_step(3int, 27053802929124130nat, m, 13526901464562065nat, 166640568660882888137891543553878047331int, 108678459153419244724157995334767838497int, 156760711265408222659570370465013036992int, 0int, 156760711265408222659570370465013036992int);
    lemma_pow_mod_step(3int, 54107605858248260nat, m, 27053802929124130nat, 156760711265408222659570370465013036992int, 96173726679591457186962087271036497075int, 236609021026614482351799790349214640789int, 0int, 236609021026614482351799790349214640789int);
    lemma_pow_mod_step(3int, 108215211716496520nat, m, 54107605858248260nat, 236609021026614482351799790349214640789int, 219101117030018417977576943196323813445int, 86857902747137006246196492367203931756int, 0int, 86857902747137006246196492367203931756int);
    lemma_pow_mod_step(3int, 216430423432993040nat, m, 108215211716496520nat, 86857902747137006246196492367203931756int, 29525731899567000232312367308499868064int, 128203010364344306247745888272846945008int, 0int, 128203010364344306247745888272846945008int);
    lemma_pow_mod_step(3int, 432860846865986080nat, m, 216430423432993040nat, 128203010364344306247745888272846945008int, 64324799404560443385497726711078459871int, 96095462142211338703669824214879401097int, 0int, 96095462142211338703669824214879401097int);
    lemma_pow_mod_step(3int, 865721693731972161nat, m, 432860846865986080nat, 96095462142211338703669824214879401097int, 36139967182766718317121863277745083024int, 169329616473426058509453235587313488961int, 1int, 252472905046965328337639186249456290906int);
}

proof fn lemma_certificate_full_5()
    requires
        pow_mod(3int, 865721693731972161nat, 255515944373312847190720520512484175977int) == 252472905046965328337639186249456290906int,
    ensures
        pow_mod(3int, 3545996057526157973920nat, 255515944373312847190720520512484175977int) == 200153039591887114643012105749475409681int,
{
    let m: int = 255515944373312847190720520512484175977int;
    lemma_pow_mod_step(3int, 1731443387463944323nat, m, 865721693731972161nat, 252472905046965328337639186249456290906int, 249466106466237066909126187264838190058int, 107066734819107535137544646464654464170int, 1int, 65684260084009758221913418881479216533int);
    lemma_pow_mod_step(3int, 3462886774927888646nat, m, 1731443387463944323nat, 65684260084009758221913418881479216533int, 16885138159833965619663780321899525779int, 247590775204346075220177411393616529006int, 0int, 247590775204346075220177411393616529006int);
    lemma_pow_mod_step(3int, 6925773549855777292nat, m, 3462886774927888646nat, 247590775204346075220177411393616529006int, 239911415769526372926547175058183357880int, 218742996331785033898976045024549699276int, 0int, 218742996331785033898976045024549699276int);
    lemma_pow_mod_step(3int, 13851547099711554585nat, m, 6925773549855777292nat, 218742996331785033898976045024549699276int, 187262280487279125313585106062005921187int, 40389332133184614047465347327534199477int, 0int, 121167996399553842142396041982602598431int);
    lemma_pow_mod_step(3int, 27703094199423109171nat, m, 13851547099711554585nat, 121167996399553842142396041982602598431int, 57458971444976132784331743864138863335int, 107654085271039032005524368414150558466int, 1int, 67446311439804248825852584729967499421int);
    lemma_pow_mod_step(3int, 55406188398846218342nat, m, 27703094199423109171nat, 67446311439804248825852584729967499421int, 17803213564586408507436409250946732967int, 186643412474479490088698847234380001482int, 0int, 186643412474479490088698847234380001482int);
    lemma_pow_mod_step(3int, 110812376797692436685nat, m, 55406188398846218342nat, 186643412474479490088698847234380001482int, 136334988822549105915753707065730997295int, 160992365762315799872181478827831214109int, 1int, 227461152913634552425823915971009466350int);
    lemma_pow_mod_step(3int, 221624753595384873370nat, m, 110812376797692436685nat, 227461152913634552425823915971009466350int, 202486683215388548156315918959066286598int, 131554686227729553030715800814433666254int, 0int, 131554686227729553030715800814433666254int);
    lemma_pow_mod_step(3int, 443249507190769746740nat, m, 221624753595384873370nat, 131554686227729553030715800814433666254int, 67732115547322193069843676496948101338int, 28260077754826655212757698392237235290int, 0int, 28260077754826655212757698392237235290int);
    lemma_pow_mod_step(3int, 886499014381539493480nat, m, 443249507190769746740nat, 28260077754826655212757698392237235290int, 3125566182054120095095098283090890236int, 5528172039024546085068512751006323528int, 0int, 5528172039024546085068512751006323528int);
    lemma_pow_mod_step(3int, 1772998028763078986960nat, m, 886499014381539493480nat, 5528172039024546085068512751006323528int, 119603832034853998823000583706136018int, 42632965022892213686680161139596327198int, 0int, 42632965022892213686680161139596327198int);
    lemma_pow_mod_step(3int, 3545996057526157973920nat, m, 1772998028763078986960nat, 42632965022892213686680161139596327198int, 7113331855282004329130203403678117499int, 200153039591887114643012105749475409681int, 0int, 200153039591887114643012105749475409681int);
}

proof fn lemma_certificate_full_6()
    requires
        pow_mod(3int, 3545996057526157973920nat, 255515944373312847190720520512484175977int) == 200153039591887114643012105749475409681int,
    ensures
        pow_mod(3int, 14524399851627143061177805nat, 255515944373312847190720520512484175977int) == 157701005066555249611705827334598298627int,
{
    let m: int = 255515944373312847190720520512484175977int;
    lemma_pow_mod_step(3int, 7091992115052315947840nat, m, 3545996057526157973920nat, 200153039591887114643012105749475409681int, 156785672831991356704485773527159404892int, 182196983039059185669254440900465842277int, 0int, 182196983039059185669254440900465842277int);
    lemma_pow_mod_step(3int, 14183984230104631895681nat, m, 7091992115052315947840nat, 182196983039059185669254440900465842277int, 129916513468277803581373512465712140993int, 8658348382452551939752464344993019568int, 0int, 25975045147357655819257393034979058704int);
    lemma_pow_mod_step(3int, 28367968460209263791362nat, m, 14183984230104631895681nat, 25975045147357655819257393034979058704int, 2640551344308740135670530509134971004int, 168251798675798307685255925759149788708int, 0int, 168251798675798307685255925759149788708int);
    lemma_pow_mod_step(3int, 56735936920418527582725nat, m, 28367968460209263791362nat, 168251798675798307685255925759149788708int, 110790220262270414704575868640001213356int, 167154237701504962481308888371217560452int, 1int, 245946768731202040253206144601168505379int);
    lemma_pow_mod_step(3int, 113471873840837055165451nat, m, 56735936920418527582725nat, 245946768731202040253206144601168505379int, 236735962593953845075262734186408592090int, 85894126739455241752987381344381711711int, 1int, 2166435845052878068241623520660959156int);
    lemma_pow_mod_step(3int, 226943747681674110330903nat, m, 113471873840837055165451nat, 2166435845052878068241623520660959156int, 18368498616559056654180227289541125int, 54249558315842616815822713609821678211int, 0int, 162748674947527850447468140829465034633int);
    lemma_pow_mod_step(3int, 453887495363348220661806nat, m, 226943747681674110330903nat, 162748674947527850447468140829465034633int, 103661363529150105059045466488878761389int, 205807422651320376743827173625820492636int, 0int, 205807422651320376743827173625820492636int);
    lemma_pow_mod_step(3int, 907774990726696441323612nat, m, 453887495363348220661806nat, 205807422651320376743827173625820492636int, 165769284270164433276957766952200924418int, 16988784633134836047334202269341922110int, 0int, 16988784633134836047334202269341922110int);
    lemma_pow_mod_step(3int, 1815549981453392882647225nat, m, 907774990726696441323612nat, 16988784633134836047334202269341922110int, 1129553007030205898695635120646626098int, 21203159083676313403705330670554004354int, 0int, 63609477251028940211115992011662013062int);
    lemma_pow_mod_step(3int, 3631099962906785765294451nat, m, 1815549981453392882647225nat, 63609477251028940211115992011662013062int, 15835276370219997514454436783290267325int, 96850555002925920979017383801585564319int, 1int, 35035720635464915746331630892272516980int);
    lemma_pow_mod_step(3int, 7262199925813571530588902nat, m, 3631099962906785765294451nat, 35035720635464915746331630892272516980int, 4804012224978581524423418147487578708int, 101628834478036869834831570812078022684int, 0int, 101628834478036869834831570812078022684int);
    lemma_pow_mod_step(3int, 14524399851627143061177805nat, m, 7262199925813571530588902nat, 101628834478036869834831570812078022684int, 40421821905071529255130051449349014711int, 52567001688851749870568609111532766209int, 0int, 157701005066555249611705827334598298627int);
}

proof fn lemma_certificate_full_7()
    requires
        pow_mod(3int, 14524399851627143061177805nat, 255515944373312847190720520512484175977int) == 157701005066555249611705827334598298627int,
    ensures
        pow_mod(3int, 59491941792264777978584291532nat, 255515944373312847190720520512484175977int) == 31354924605790841835682865686551094273int,
{
    let m: int = 255515944373312847190720520512484175977int;
    lemma_pow_mod_step(3int, 29048799703254286122355611nat, m, 14524399851627143061177805nat, 157701005066555249611705827334598298627int, 97330939797114164635471984623989164384int, 26018097232239528624159726172033281961int, 0int, 78054291696718585872479178516099845883int);
    lemma_pow_mod_step(3int, 58097599406508572244711222nat, m, 29048799703254286122355611nat, 78054291696718585872479178516099845883int, 23843805392336820672685817990076975411int, 137573374372443008740164442149526148142int, 0int, 137573374372443008740164442149526148142int);
    lemma_pow_mod_step(3int, 116195198813017144489422444nat, m, 58097599406508572244711222nat, 137573374372443008740164442149526148142int, 74071437626485412327351607393152063476int, 194007919637473851381918663028271736112int, 0int, 194007919637473851381918663028271736112int);
    lemma_pow_mod_step(3int, 232390397626034288978844888nat, m, 116195198813017144489422444nat, 194007919637473851381918663028271736112int, 147306161164914349220439329327128856672int, 93899643026798086341536151938506308000int, 0int, 93899643026798086341536151938506308000int);
    lemma_pow_mod_step(3int, 464780795252068577957689777nat, m, 232390397626034288978844888nat, 93899643026798086341536151938506308000int, 34507212386238115838687274863024254508int, 163111725423742943924311378093756445684int, 1int, 233819231897915984582213613768785161075int);
    lemma_pow_mod_step(3int, 929561590504137155915379555nat, m, 464780795252068577957689777nat, 233819231897915984582213613768785161075int, 213964859764115466877440804493195859655int, 177769534675361150015992000552880647690int, 2int, 22276715279457755666534960633673591116int);
    lemma_pow_mod_step(3int, 1859123181008274311830759110nat, m, 929561590504137155915379555nat, 22276715279457755666534960633673591116int, 1942156857800601777187649545384464521int, 114053369928188682526563914145477113439int, 0int, 114053369928188682526563914145477113439int);
    lemma_pow_mod_step(3int, 3718246362016548623661518220nat, m, 1859123181008274311830759110nat, 114053369928188682526563914145477113439int, 50909430422749314074944341245491150602int, 111097685949464779340891803632096918567int, 0int, 111097685949464779340891803632096918567int);
    lemma_pow_mod_step(3int, 7436492724033097247323036441nat, m, 3718246362016548623661518220nat, 111097685949464779340891803632096918567int, 48304992682934218371547424551347979016int, 131774575247300763189370793297582034857int, 1int, 139807781368589442377391859380261928594int);
    lemma_pow_mod_step(3int, 14872985448066194494646072883nat, m, 7436492724033097247323036441nat, 139807781368589442377391859380261928594int, 76497049055576641545522042222569320110int, 24912334809205338479669981693869819366int, 0int, 74737004427616015439009945081609458098int);
    lemma_pow_mod_step(3int, 29745970896132388989292145766nat, m, 14872985448066194494646072883nat, 74737004427616015439009945081609458098int, 21860161582139143282724397733459195247int, 41348078307886331510862273136867796285int, 0int, 41348078307886331510862273136867796285int);
    lemma_pow_mod_step(3int, 59491941792264777978584291532nat, m, 29745970896132388989292145766nat, 41348078307886331510862273136867796285int, 6691025031523099750447300753095055176int, 31354924605790841835682865686551094273int, 0int, 31354924605790841835682865686551094273int);
}

proof fn lemma_certificate_full_8()
    requires
        pow_mod(3int, 59491941792264777978584291532nat, 255515944373312847190720520512484175977int) == 31354924605790841835682865686551094273int,
    ensures
        pow_mod(3int, 243678993581116530600281258118137nat, 255515944373312847190720520512484175977int) == 204031551689721771629775745213702469089int,
{
    let m: int = 255515944373312847190720520512484175977int;
    lemma_pow_mod_step(3int, 118983883584529555957168583065nat, m, 59491941792264777978584291532nat, 31354924605790841835682865686551094273int, 3847631894150830607044177080668150627int, 58445997919641032401816666787122510950int, 0int, 175337993758923097205450000361367532850int);
    lemma_pow_mod_step(3int, 237967767169059111914337166130nat, m, 118983883584529555957168583065nat, 175337993758923097205450000361367532850int, 120318957514790319252224737997205445770int, 13675496121650248052739193880418855210int, 0int, 13675496121650248052739193880418855210int);
    lemma_pow_mod_step(3int, 475935534338118223828674332261nat, m, 237967767169059111914337166130nat, 13675496121650248052739193880418855210int, 731927687064541723046000402885720302int, 14400334207334649145356247416374559046int, 0int, 43201002622003947436068742249123677138int);
    lemma_pow_mod_step(3int, 951871068676236447657348664523nat, m, 475935534338118223828674332261nat, 43201002622003947436068742249123677138int, 7304149383412485361961800630376181002int, 179475732487814711501189986420291682090int, 2int, 27395308716818440122128918235906694316int);
    lemma_pow_mod_step(3int, 1903742137352472895314697329047nat, m, 951871068676236447657348664523nat, 27395308716818440122128918235906694316int, 2937205901300983826195902852443810242int, 143781876492999193147852846537143751422int, 1int, 175829685105684732252838019098947078289int);
    lemma_pow_mod_step(3int, 3807484274704945790629394658095nat, m, 1903742137352472895314697329047nat, 175829685105684732252838019098947078289int, 120994712248545127380758022403285159187int, 32659827491848532240746060226528916822int, 0int, 97979482475545596722238180679586750466int);
    lemma_pow_mod_step(3int, 7614968549409891581258789316191nat, m, 3807484274704945790629394658095nat, 97979482475545596722238180679586750466int, 37570958672348153510671029016965400344int, 94080193936000225492106740522598881068int, 1int, 26724637434687829285599701055312467227int);
    lemma_pow_mod_step(3int, 15229937098819783162517578632383nat, m, 7614968549409891581258789316191nat, 26724637434687829285599701055312467227int, 2795153342650317853453801776455516007int, 173223029366244826698399764094220705690int, 2int, 8637199352108785713758251257693765116int);
    lemma_pow_mod_step(3int, 30459874197639566325035157264767nat, m, 15229937098819783162517578632383nat, 8637199352108785713758251257693765116int, 291963042975803000571296525611576593int, 198013805353502915004660545424752387095int, 2int, 83009527313883050632540595249288809331int);
    lemma_pow_mod_step(3int, 60919748395279132650070314529534nat, m, 30459874197639566325035157264767nat, 83009527313883050632540595249288809331int, 26967325431586559597184104021986798562int, 155669486375651456138646156248814122487int, 0int, 155669486375651456138646156248814122487int);
    lemma_pow_mod_step(3int, 121839496790558265300140629059068nat, m, 60919748395279132650070314529534nat, 155669486375651456138646156248814122487int, 94839439659602428098672698243528591679int, 121446857804833128931408833524225169786int, 0int, 121446857804833128931408833524225169786int);
    lemma_pow_mod_step(3int, 243678993581116530600281258118137nat, m, 121839496790558265300140629059068nat, 121446857804833128931408833524225169786int, 57723753039529849794524807652390062662int, 153182498687678206273498755242062215022int, 1int, 204031551689721771629775745213702469089int);
}

proof fn lemma_certificate_full_9()
    requires
        pow_mod(3int, 243678993581116530600281258118137nat, 255515944373312847190720520512484175977int) == 204031551689721771629775745213702469089int,
    ensures
        pow_mod(3int, 998109157708253309338752033251891312nat, 255515944373312847190720520512484175977int) == 161936679795175458933915901328389379879int,
{
    let m: int = 255515944373312847190720520512484175977int;
    lemma_pow_mod_step(3int, 487357987162233061200562516236275nat, m, 243678993581116530600281258118137nat, 204031551689721771629775745213702469089int, 162920847021957901207946084397519625313int, 84327921783213893390573463516404784120int, 0int, 252983765349641680171720390549214352360int);
    lemma_pow_mod_step(3int, 974715974324466122401125032472550nat, m, 487357987162233061200562516236275nat, 252983765349641680171720390549214352360int, 250476680378804070702896009584250820945int, 62112755094046007986077909330140131335int, 0int, 62112755094046007986077909330140131335int);
    lemma_pow_mod_step(3int, 1949431948648932244802250064945100nat, m, 974715974324466122401125032472550nat, 62112755094046007986077909330140131335int, 15098839936721707621989779524110612723int, 205356494439687225017952822743821726854int, 0int, 205356494439687225017952822743821726854int);
    lemma_pow_mod_step(3int, 3898863897297864489604500129890200nat, m, 1949431948648932244802250064945100nat, 205356494439687225017952822743821726854int, 165043672370380014025573279711186192899int, 163075437672184139821549219002800949993int, 0int, 163075437672184139821549219002800949993int);
    lemma_pow_mod_step(3int, 7797727794595728979209000259780400nat, m, 3898863897297864489604500129890200nat, 163075437672184139821549219002800949993int, 104078038797926227061149203220727015621int, 19114681964357624912614287472694763332int, 0int, 19114681964357624912614287472694763332int);
    lemma_pow_mod_step(3int, 15595455589191457958418000519560801nat, m, 7797727794595728979209000259780400nat, 19114681964357624912614287472694763332int, 1429934509545618598170285921749678631int, 90711188881569037302611774222891294737int, 1int, 16617622271394264717114802156189708234int);
    lemma_pow_mod_step(3int, 31190911178382915916836001039121603nat, m, 15595455589191457958418000519560801nat, 16617622271394264717114802156189708234int, 1080736353388913830686887495324283259int, 35187004725345686996638867835296329713int, 0int, 105561014176037060989916603505888989139int);
    lemma_pow_mod_step(3int, 62381822356765831833672002078243207nat, m, 31190911178382915916836001039121603nat, 105561014176037060989916603505888989139int, 43610302837278956773459753188159987094int, 52660641847759707320280467367715120483int, 0int, 157981925543279121960841402103145361449int);
    lemma_pow_mod_step(3int, 124763644713531663667344004156486414nat, m, 62381822356765831833672002078243207nat, 157981925543279121960841402103145361449int, 97678009329616364463574749718147748847int, 217586946539143330568586073852508531082int, 0int, 217586946539143330568586073852508531082int);
    lemma_pow_mod_step(3int, 249527289427063327334688008312972828nat, m, 124763644713531663667344004156486414nat, 217586946539143330568586073852508531082int, 185288160472121329005875945343482541193int, 663657229633841905516828808796570163int, 0int, 663657229633841905516828808796570163int);
    lemma_pow_mod_step(3int, 499054578854126654669376016625945656nat, m, 249527289427063327334688008312972828nat, 663657229633841905516828808796570163int, 1723731642365827470540110549116350int, 28256641779209338099905457817333922619int, 0int, 28256641779209338099905457817333922619int);
    lemma_pow_mod_step(3int, 998109157708253309338752033251891312nat, m, 499054578854126654669376016625945656nat, 28256641779209338099905457817333922619int, 3124806190067060443427247635614242466int, 161936679795175458933915901328389379879int, 0int, 161936679795175458933915901328389379879int);
}

proof fn lemma_certificate_full_10()
    requires
        pow_mod(3int, 998109157708253309338752033251891312nat, 255515944373312847190720520512484175977int) == 161936679795175458933915901328389379879int,
    ensures
        pow_mod(3int, 255515944373312847190720520512484175976nat, 255515944373312847190720520512484175977int) == 1int,
{
    let m: int = 255515944373312847190720520512484175977int;
    lemma_pow_mod_step(3int, 1996218315416506618677504066503782624nat, m, 998109157708253309338752033251891312nat, 161936679795175458933915901328389379879int, 102629557335068904591505981460199029349int, 18912221052307962861416516976666305668int, 0int, 18912221052307962861416516976666305668int);
    lemma_pow_mod_step(3int, 3992436630833013237355008133007565249nat, m, 1996218315416506618677504066503782624nat, 18912221052307962861416516976666305668int, 1399803468267310520080934634629583738int, 134966020225579430645252452583759464198int, 1int, 149382116303425444745036837238794216617int);
    lemma_pow_mod_step(3int, 7984873261666026474710016266015130499nat, m, 3992436630833013237355008133007565249nat, 149382116303425444745036837238794216617int, 87333167118086113599003542645879575777int, 219343733236170607721502001276544415560int, 2int, 146999310961886128783064962804664894726int);
    lemma_pow_mod_step(3int, 15969746523332052949420032532030260998nat, m, 7984873261666026474710016266015130499nat, 146999310961886128783064962804664894726int, 84569272090897386957146835728665293950int, 198673325022833988689104100400429175926int, 0int, 198673325022833988689104100400429175926int);
    lemma_pow_mod_step(3int, 31939493046664105898840065064060521997nat, m, 15969746523332052949420032532030260998nat, 198673325022833988689104100400429175926int, 154476035428774438058645748379010433900int, 125443972538485419394044432848731537176int, 1int, 120815973242143410991412778033710435551int);
    lemma_pow_mod_step(3int, 63878986093328211797680130128121043994nat, m, 31939493046664105898840065064060521997nat, 120815973242143410991412778033710435551int, 57125591227765401437633732867112157976int, 178062041200560850904751377069516531049int, 0int, 178062041200560850904751377069516531049int);
    lemma_pow_mod_step(3int, 127757972186656423595360260256242087988nat, m, 63878986093328211797680130128121043994nat, 178062041200560850904751377069516531049int, 124086544165663215338441986460605545025int, 255515944373312847190720520512484175976int, 0int, 255515944373312847190720520512484175976int);
    lemma_pow_mod_step(3int, 255515944373312847190720520512484175976nat, m, 127757972186656423595360260256242087988nat, 255515944373312847190720520512484175976int, 255515944373312847190720520512484175975int, 1int, 0int, 1int);
}

proof fn lemma_certificate_full()
    ensures
        pow_mod(3int, 255515944373312847190720520512484175976nat, 255515944373312847190720520512484175977int) == 1int,
{
    lemma_pow_mod_zero(3int, 255515944373312847190720520512484175977int);
    lemma_certificate_full_0();
    lemma_certificate_full_1();
    lemma_certificate_full_2();
    lemma_certificate_full_3();
    lemma_certificate_full_4();
    lemma_certificate_full_5();
    lemma_certificate_full_6();
    lemma_certificate_full_7();
    lemma_certificate_full_8();
    lemma_certificate_full_9();
    lemma_certificate_full_10();
}

proof fn lemma_certificate_2_0()
    requires
        pow_mod(3int, 0nat, 255515944373312847190720520512484175977int) == 1int,
    ensures
        pow_mod(3int, 3075nat, 255515944373312847190720520512484175977int) == 169370732391857245969895334087052081396int,
{
    let m: int = 255515944373312847190720520512484175977int;
    lemma_pow_mod_step(3int, 1nat, m, 0nat, 1int, 0int, 1int, 0int, 3int);
    lemma_pow_mod_step(3int, 3nat, m, 1nat, 3int, 0int, 9int, 0int, 27int);
    lemma_pow_mod_step(3int, 6nat, m, 3nat, 27int, 0int, 729int, 0int, 729int);
    lemma_pow_mod_step(3int, 12nat, m, 6nat, 729int, 0int, 531441int, 0int, 531441int);
    lemma_pow_mod_step(3int, 24nat, m, 12nat, 531441int, 0int, 282429536481int, 0int, 282429536481int);
    lemma_pow_mod_step(3int, 48nat, m, 24nat, 282429536481int, 0int, 79766443076872509863361int, 0int, 79766443076872509863361int);
    lemma_pow_mod_step(3int, 96nat, m, 48nat, 79766443076872509863361int, 24901324int, 123130102197216207287808519720013922773int, 0int, 123130102197216207287808519720013922773int);
    lemma_pow_mod_step(3int, 192nat, m, 96nat, 123130102197216207287808519720013922773int, 59334935454933543345292668545207582789int, 29530757701057884023829642930935549676int, 0int, 29530757701057884023829642930935549676int);
    lemma_pow_mod_step(3int, 384nat, m, 192nat, 29530757701057884023829642930935549676int, 3412959815628913463991120993474009346int, 183241631355299747406576440305057023934int, 0int, 183241631355299747406576440305057023934int);
    lemma_pow_mod_step(3int, 768nat, m, 384nat, 183241631355299747406576440305057023934int, 131410568307605564284134017320277744473int, 197971628716840702485946242451477711235int, 0int, 197971628716840702485946242451477711235int);
    lemma_pow_mod_step(3int, 1537nat, m, 768nat, 197971628716840702485946242451477711235int, 153386771510185579243593383079947362734int, 82016011872336211217361298725737384107int, 0int, 246048035617008633652083896177212152321int);
    lemma_pow_mod_step(3int, 3075nat, m, 1537nat, 246048035617008633652083896177212152321int, 236930951528173056215900984615994191250int, 141628892255056697720205284866512085791int, 1int, 169370732391857245969895334087052081396int);
}

proof fn lemma_certificate_2_1()
    requires
        pow_mod(3int, 3075nat, 255515944373312847190720520512484175977int) == 169370732391857245969895334087052081396int,
    ensures
        pow_mod(3int, 12597908nat, 255515944373312847190720520512484175977int) == 219236835492465487912168423673372651111int,
{
    let m: int = 255515944373312847190720520512484175977int;
    lemma_pow_mod_step(3int, 6151nat, m, 3075nat, 169370732391857245969895334087052081396int, 112268708167357142441265241925773458480int, 60051468447359576389704335875586373856int, 0int, 180154405342078729169113007626759121568int);
    lemma_pow_mod_step(3int, 12302nat, m, 6151nat, 180154405342078729169113007626759121568int, 127019900240510409564058461520762153536int, 180185237501836803885153168786085973952int, 0int, 180185237501836803885153168786085973952int);
    lemma_pow_mod_step(3int, 24605nat, m, 12302nat, 180185237501836803885153168786085973952int, 127063381086539725174575307008200694454int, 248818078343315926230196157367078566746int, 2int, 235422346283322084309147431076267348284int);
    lemma_pow_mod_step(3int, 49210nat, m, 24605nat, 235422346283322084309147431076267348284int, 216908894924261706574525909141772220254int, 79716174543849707823105575972018106498int, 0int, 79716174543849707823105575972018106498int);
    lemma_pow_mod_step(3int, 98421nat, m, 49210nat, 79716174543849707823105575972018106498int, 24869948916460730660441546455404853199int, 33895460781420143903587210341102423581int, 0int, 101686382344260431710761631023307270743int);
    lemma_pow_mod_step(3int, 196842nat, m, 98421nat, 101686382344260431710761631023307270743int, 40467613007961803825250245119741765630int, 69797524569170208769900481565893501539int, 0int, 69797524569170208769900481565893501539int);
    lemma_pow_mod_step(3int, 393684nat, m, 196842nat, 69797524569170208769900481565893501539int, 19066107392759397048522144693659209825int, 178361913330335418956323358048127994496int, 0int, 178361913330335418956323358048127994496int);
    lemma_pow_mod_step(3int, 787369nat, m, 393684nat, 178361913330335418956323358048127994496int, 124504841390167130995714797973846174193int, 101567863160973307925652851553398332455int, 1int, 49187645109607076586238034147710821388int);
    lemma_pow_mod_step(3int, 1574738nat, m, 787369nat, 49187645109607076586238034147710821388int, 9468780656184161607749063027665780455int, 113344126178366576760458288876371117009int, 0int, 113344126178366576760458288876371117009int);
    lemma_pow_mod_step(3int, 3149477nat, m, 1574738nat, 113344126178366576760458288876371117009int, 50278235945886696292349396666885770020int, 210384305219976303633101300115538296541int, 2int, 120121026913303216517862859321646537669int);
    lemma_pow_mod_step(3int, 6298954nat, m, 3149477nat, 120121026913303216517862859321646537669int, 56470296372681262301130507570256201638int, 254673168503053577592844845231048303235int, 0int, 254673168503053577592844845231048303235int);
    lemma_pow_mod_step(3int, 12597908nat, m, 6298954nat, 254673168503053577592844845231048303235int, 253833172385616517601510788176554592082int, 219236835492465487912168423673372651111int, 0int, 219236835492465487912168423673372651111int);
}

proof fn lemma_certificate_2_2()
    requires
        pow_mod(3int, 12597908nat, 255515944373312847190720520512484175977int) == 219236835492465487912168423673372651111int,
    ensures
        pow_mod(3int, 51601034029nat, 255515944373312847190720520512484175977int) == 212007719781293929518820093449660728702int,
{
    let m: int = 255515944373312847190720520512484175977int;
    lemma_pow_mod_step(3int, 25195817nat, m, 12597908nat, 219236835492465487912168423673372651111int, 188108770099007811929364777635602160187int, 223862271473144589313514488620678306622int, 2int, 160554925672808073559102424837066567912int);
    lemma_pow_mod_step(3int, 50391634nat, m, 25195817nat, 160554925672808073559102424837066567912int, 100885618786039541401021091812142391098int, 21419408077732696603490547125917786998int, 0int, 21419408077732696603490547125917786998int);
    lemma_pow_mod_step(3int, 100783269nat, m, 50391634nat, 21419408077732696603490547125917786998int, 1795547606728368010134339936257272753int, 36513382834754445222702202179158597323int, 0int, 109540148504263335668106606537475791969int);
    lemma_pow_mod_step(3int, 201566539nat, m, 100783269nat, 109540148504263335668106606537475791969int, 46960060217632725534753734667760144391int, 193945504310396340664562594199591401954int, 2int, 70804624184563327612246741573805853908int);
    lemma_pow_mod_step(3int, 403133078nat, m, 201566539nat, 70804624184563327612246741573805853908int, 19620281694017289362318427642495980712int, 114410661563531417093923972365233116840int, 0int, 114410661563531417093923972365233116840int);
    lemma_pow_mod_step(3int, 806266156nat, m, 403133078nat, 114410661563531417093923972365233116840int, 51228894977608600905966439435529731853int, 141045285003779970102151391492617290219int, 0int, 141045285003779970102151391492617290219int);
    lemma_pow_mod_step(3int, 1612532313nat, m, 806266156nat, 141045285003779970102151391492617290219int, 77857264330762865815197502227990921174int, 205233454561567243310044578615921630963int, 2int, 104668474938076035548692694822796540935int);
    lemma_pow_mod_step(3int, 3225064626nat, m, 1612532313nat, 104668474938076035548692694822796540935int, 42875953094561124639420093677302858397int, 223568192645085876696095981147870545356int, 0int, 223568192645085876696095981147870545356int);
    lemma_pow_mod_step(3int, 6450129253nat, m, 3225064626nat, 223568192645085876696095981147870545356int, 195614942485016354045474041412945633123int, 4142478855717833240127124539641080565int, 0int, 12427436567153499720381373618923241695int);
    lemma_pow_mod_step(3int, 12900258507nat, m, 6450129253nat, 12427436567153499720381373618923241695int, 604428737351055277790384892586380018int, 54511283103068241814503600429278045439int, 0int, 163533849309204725443510801287834136317int);
    lemma_pow_mod_step(3int, 25800517014nat, m, 12900258507nat, 163533849309204725443510801287834136317int, 104663996352467399766019598007336108073int, 140108671371876971559015356683715962168int, 0int, 140108671371876971559015356683715962168int);
    lemma_pow_mod_step(3int, 51601034029nat, m, 25800517014nat, 140108671371876971559015356683715962168int, 76826672565341886391294490980995859536int, 241013202842639874633420378158209693552int, 2int, 212007719781293929518820093449660728702int);
}

proof fn lemma_certificate_2_3()
    requires
        pow_mod(3int, 51601034029nat, 255515944373312847190720520512484175977int) == 212007719781293929518820093449660728702int,
    ensures
        pow_mod(3int, 211357835383782nat, 255515944373312847190720520512484175977int) == 141965714162396576751412984526292467729int,
{
    let m: int = 255515944373312847190720520512484175977int;
    lemma_pow_mod_step(3int, 103202068058nat, m, 51601034029nat, 212007719781293929518820093449660728702int, 175907900217745199761218066043609846799int, 2425448716754535643017145544920457181int, 0int, 2425448716754535643017145544920457181int);
    lemma_pow_mod_step(3int, 206404136116nat, m, 103202068058nat, 2425448716754535643017145544920457181int, 23023226562375917371778903708096810int, 143980614909008451346023520934262133391int, 0int, 143980614909008451346023520934262133391int);
    lemma_pow_mod_step(3int, 412808272233nat, m, 206404136116nat, 143980614909008451346023520934262133391int, 81131600301579294138112432988262592265int, 16287243030538953675282418480218140976int, 0int, 48861729091616861025847255440654422928int);
    lemma_pow_mod_step(3int, 825616544467nat, m, 412808272233nat, 48861729091616861025847255440654422928int, 9343716595369986122604213595882312270int, 179152673538794839841418442048345755394int, 2int, 26426131869758825142814285120068914228int);
    lemma_pow_mod_step(3int, 1651233088935nat, m, 825616544467nat, 26426131869758825142814285120068914228int, 2733060151336765869693017477902554056int, 56016473573236615810859782197961723272int, 0int, 168049420719709847432579346593885169816int);
    lemma_pow_mod_step(3int, 3302466177871nat, m, 1651233088935nat, 168049420719709847432579346593885169816int, 110523857419128684513765575420870606245int, 250818928611647149232270589969902297491int, 2int, 241424897088315753315370728884738540519int);
    lemma_pow_mod_step(3int, 6604932355743nat, m, 3302466177871nat, 241424897088315753315370728884738540519int, 228110934826623225310815210409967403027int, 105244124036924652602309815967454306982int, 1int, 60216427737461110616208927389878744969int);
    lemma_pow_mod_step(3int, 13209864711486nat, m, 6604932355743nat, 60216427737461110616208927389878744969int, 14190966353799063730614725241381713039int, 126828720038413691633082396893951346858int, 0int, 126828720038413691633082396893951346858int);
    lemma_pow_mod_step(3int, 26419729422972nat, m, 13209864711486nat, 126828720038413691633082396893951346858int, 62953113419337591989873790149797841365int, 198635517191860279569158160156836583559int, 0int, 198635517191860279569158160156836583559int);
    lemma_pow_mod_step(3int, 52839458845945nat, m, 26419729422972nat, 198635517191860279569158160156836583559int, 154417246981784739658579378701435212037int, 243158517672035647594548634424972471332int, 2int, 218443664269481248402204862249949062042int);
    lemma_pow_mod_step(3int, 105678917691891nat, m, 52839458845945nat, 218443664269481248402204862249949062042int, 186750124640995467156490802318827610922int, 46347708865198092993141567598829988970int, 0int, 139043126595594278979424702796489966910int);
    lemma_pow_mod_step(3int, 211357835383782nat, m, 105678917691891nat, 139043126595594278979424702796489966910int, 75662562275302282350039376798207337723int, 141965714162396576751412984526292467729int, 0int, 141965714162396576751412984526292467729int);
}

proof fn lemma_certificate_2_4()
    requires
        pow_mod(3int, 211357835383782nat, 255515944373312847190720520512484175977int) == 141965714162396576751412984526292467729int,
    ensures
        pow_mod(3int, 865721693731972161nat, 255515944373312847190720520512484175977int) == 252472905046965328337639186249456290906int,
{
    let m: int = 255515944373312847190720520512484175977int;
    lemma_pow_mod_step(3int, 422715670767564nat, m, 211357835383782nat, 141965714162396576751412984526292467729int, 78876737211332646311245824327513094459int, 2720161571667947129701196782526805998int, 0int, 2720161571667947129701196782526805998int);
    lemma_pow_mod_step(3int, 845431341535129nat, m, 422715670767564nat, 2720161571667947129701196782526805998int, 28958188868122344384688060751947086int, 115170805070009049184292884064512422982int, 1int, 89996470836714300362158131681053092969int);
    lemma_pow_mod_step(3int, 1690862683070258nat, m, 845431341535129nat, 89996470836714300362158131681053092969int, 31698079675334339168444827888916208157int, 80634808963327930307784251701806390572int, 0int, 80634808963327930307784251701806390572int);
    lemma_pow_mod_step(3int, 3381725366140516nat, m, 1690862683070258nat, 80634808963327930307784251701806390572int, 25446444966474990341483629553863559715int, 88369426337805496522430654468902520629int, 0int, 88369426337805496522430654468902520629int);
    lemma_pow_mod_step(3int, 6763450732281032nat, m, 3381725366140516nat, 88369426337805496522430654468902520629int, 30562302209460289938932618017809122440int, 14727893041673048498816559692870931761int, 0int, 14727893041673048498816559692870931761int);
    lemma_pow_mod_step(3int, 13526901464562065nat, m, 6763450732281032nat, 14727893041673048498816559692870931761int, 848913103951161781246357386543541738int, 225890819135836194173110861526282133095int, 2int, 166640568660882888137891543553878047331int);
    lemma_pow_mod_step(3int, 27053802929124130nat, m, 13526901464562065nat, 166640568660882888137891543553878047331int, 108678459153419244724157995334767838497int, 156760711265408222659570370465013036992int, 0int, 156760711265408222659570370465013036992int);
    lemma_pow_mod_step(3int, 54107605858248260nat, m, 27053802929124130nat, 156760711265408222659570370465013036992int, 96173726679591457186962087271036497075int, 236609021026614482351799790349214640789int, 0int, 236609021026614482351799790349214640789int);
    lemma_pow_mod_step(3int, 108215211716496520nat, m, 54107605858248260nat, 236609021026614482351799790349214640789int, 219101117030018417977576943196323813445int, 86857902747137006246196492367203931756int, 0int, 86857902747137006246196492367203931756int);
    lemma_pow_mod_step(3int, 216430423432993040nat, m, 108215211716496520nat, 86857902747137006246196492367203931756int, 29525731899567000232312367308499868064int, 128203010364344306247745888272846945008int, 0int, 128203010364344306247745888272846945008int);
    lemma_pow_mod_step(3int, 432860846865986080nat, m, 216430423432993040nat, 128203010364344306247745888272846945008int, 64324799404560443385497726711078459871int, 96095462142211338703669824214879401097int, 0int, 96095462142211338703669824214879401097int);
    lemma_pow_mod_step(3int, 865721693731972161nat, m, 432860846865986080nat, 96095462142211338703669824214879401097int, 36139967182766718317121863277745083024int, 169329616473426058509453235587313488961int, 1int, 252472905046965328337639186249456290906int);
}

proof fn lemma_certificate_2_5()
    requires
        pow_mod(3int, 865721693731972161nat, 255515944373312847190720520512484175977int) == 252472905046965328337639186249456290906int,
    ensures
        pow_mod(3int, 3545996057526157973920nat, 255515944373312847190720520512484175977int) == 200153039591887114643012105749475409681int,
{
    let m: int = 255515944373312847190720520512484175977int;
    lemma_pow_mod_step(3int, 1731443387463944323nat, m, 865721693731972161nat, 252472905046965328337639186249456290906int, 249466106466237066909126187264838190058int, 107066734819107535137544646464654464170int, 1int, 65684260084009758221913418881479216533int);
    lemma_pow_mod_step(3int, 3462886774927888646nat, m, 1731443387463944323nat, 65684260084009758221913418881479216533int, 16885138159833965619663780321899525779int, 247590775204346075220177411393616529006int, 0int, 247590775204346075220177411393616529006int);
    lemma_pow_mod_step(3int, 6925773549855777292nat, m, 3462886774927888646nat, 247590775204346075220177411393616529006int, 239911415769526372926547175058183357880int, 218742996331785033898976045024549699276int, 0int, 218742996331785033898976045024549699276int);
    lemma_pow_mod_step(3int, 13851547099711554585nat, m, 6925773549855777292nat, 218742996331785033898976045024549699276int, 187262280487279125313585106062005921187int, 40389332133184614047465347327534199477int, 0int, 121167996399553842142396041982602598431int);
    lemma_pow_mod_step(3int, 27703094199423109171nat, m, 13851547099711554585nat, 121167996399553842142396041982602598431int, 57458971444976132784331743864138863335int, 107654085271039032005524368414150558466int, 1int, 67446311439804248825852584729967499421int);
    lemma_pow_mod_step(3int, 55406188398846218342nat, m, 27703094199423109171nat, 67446311439804248825852584729967499421int, 17803213564586408507436409250946732967int, 186643412474479490088698847234380001482int, 0int, 186643412474479490088698847234380001482int);
    lemma_pow_mod_step(3int, 110812376797692436685nat, m, 55406188398846218342nat, 186643412474479490088698847234380001482int, 136334988822549105915753707065730997295int, 160992365762315799872181478827831214109int, 1int, 227461152913634552425823915971009466350int);
    lemma_pow_mod_step(3int, 221624753595384873370nat, m, 110812376797692436685nat, 227461152913634552425823915971009466350int, 202486683215388548156315918959066286598int, 131554686227729553030715800814433666254int, 0int, 131554686227729553030715800814433666254int);
    lemma_pow_mod_step(3int, 443249507190769746740nat, m, 221624753595384873370nat, 131554686227729553030715800814433666254int, 67732115547322193069843676496948101338int, 28260077754826655212757698392237235290int, 0int, 28260077754826655212757698392237235290int);
    lemma_pow_mod_step(3int, 886499014381539493480nat, m, 443249507190769746740nat, 28260077754826655212757698392237235290int, 3125566182054120095095098283090890236int, 5528172039024546085068512751006323528int, 0int, 5528172039024546085068512751006323528int);
    lemma_pow_mod_step(3int, 1772998028763078986960nat, m, 886499014381539493480nat, 5528172039024546085068512751006323528int, 119603832034853998823000583706136018int, 42632965022892213686680161139596327198int, 0int, 42632965022892213686680161139596327198int);
    lemma_pow_mod_step(3int, 3545996057526157973920nat, m, 1772998028763078986960nat, 42632965022892213686680161139596327198int, 7113331855282004329130203403678117499int, 200153039591887114643012105749475409681int, 0int, 200153039591887114643012105749475409681int);
}

proof fn lemma_certificate_2_6()
    requires
        pow_mod(3int, 3545996057526157973920nat, 255515944373312847190720520512484175977int) == 200153039591887114643012105749475409681int,
    ensures
        pow_mod(3int, 14524399851627143061177805nat, 255515944373312847190720520512484175977int) == 157701005066555249611705827334598298627int,
{
    let m: int = 255515944373312847190720520512484175977int;
    lemma_pow_mod_step(3int, 7091992115052315947840nat, m, 3545996057526157973920nat, 200153039591887114643012105749475409681int, 156785672831991356704485773527159404892int, 182196983039059185669254440900465842277int, 0int, 182196983039059185669254440900465842277int);
    lemma_pow_mod_step(3int, 14183984230104631895681nat, m, 7091992115052315947840nat, 182196983039059185669254440900465842277int, 129916513468277803581373512465712140993int, 8658348382452551939752464344993019568int, 0int, 25975045147357655819257393034979058704int);
    lemma_pow_mod_step(3int, 28367968460209263791362nat, m, 14183984230104631895681nat, 25975045147357655819257393034979058704int, 2640551344308740135670530509134971004int, 168251798675798307685255925759149788708int, 0int, 168251798675798307685255925759149788708int);
    lemma_pow_mod_step(3int, 56735936920418527582725nat, m, 28367968460209263791362nat, 168251798675798307685255925759149788708int, 110790220262270414704575868640001213356int, 167154237701504962481308888371217560452int, 1int, 245946768731202040253206144601168505379int);
    lemma_pow_mod_step(3int, 113471873840837055165451nat, m, 56735936920418527582725nat, 245946768731202040253206144601168505379int, 236735962593953845075262734186408592090int, 85894126739455241752987381344381711711int, 1int, 2166435845052878068241623520660959156int);
    lemma_pow_mod_step(3int, 226943747681674110330903nat, m, 113471873840837055165451nat, 2166435845052878068241623520660959156int, 18368498616559056654180227289541125int, 54249558315842616815822713609821678211int, 0int, 162748674947527850447468140829465034633int);
    lemma_pow_mod_step(3int, 453887495363348220661806nat, m, 226943747681674110330903nat, 162748674947527850447468140829465034633int, 103661363529150105059045466488878761389int, 205807422651320376743827173625820492636int, 0int, 205807422651320376743827173625820492636int);
    lemma_pow_mod_step(3int, 907774990726696441323612nat, m, 453887495363348220661806nat, 205807422651320376743827173625820492636int, 165769284270164433276957766952200924418int, 16988784633134836047334202269341922110int, 0int, 16988784633134836047334202269341922110int);
    lemma_pow_mod_step(3int, 1815549981453392882647225nat, m, 907774990726696441323612nat, 16988784633134836047334202269341922110int, 1129553007030205898695635120646626098int, 21203159083676313403705330670554004354int, 0int, 63609477251028940211115992011662013062int);
    lemma_pow_mod_step(3int, 3631099962906785765294451nat, m, 1815549981453392882647225nat, 63609477251028940211115992011662013062int, 15835276370219997514454436783290267325int, 96850555002925920979017383801585564319int, 1int, 35035720635464915746331630892272516980int);
    lemma_pow_mod_step(3int, 7262199925813571530588902nat, m, 3631099962906785765294451nat, 35035720635464915746331630892272516980int, 4804012224978581524423418147487578708int, 101628834478036869834831570812078022684int, 0int, 101628834478036869834831570812078022684int);
    lemma_pow_mod_step(3int, 14524399851627143061177805nat, m, 7262199925813571530588902nat, 101628834478036869834831570812078022684int, 40421821905071529255130051449349014711int, 52567001688851749870568609111532766209int, 0int, 157701005066555249611705827334598298627int);
}

proof fn lemma_certificate_2_7()
    requires
        pow_mod(3int, 14524399851627143061177805nat, 255515944373312847190720520512484175977int) == 157701005066555249611705827334598298627int,
    ensures
        pow_mod(3int, 59491941792264777978584291532nat, 255515944373312847190720520512484175977int) == 31354924605790841835682865686551094273int,
{
    let m: int = 255515944373312847190720520512484175977int;
    lemma_pow_mod_step(3int, 29048799703254286122355611nat, m, 14524399851627143061177805nat, 157701005066555249611705827334598298627int, 97330939797114164635471984623989164384int, 26018097232239528624159726172033281961int, 0int, 78054291696718585872479178516099845883int);
    lemma_pow_mod_step(3int, 58097599406508572244711222nat, m, 29048799703254286122355611nat, 78054291696718585872479178516099845883int, 23843805392336820672685817990076975411int, 137573374372443008740164442149526148142int, 0int, 137573374372443008740164442149526148142int);
    lemma_pow_mod_step(3int, 116195198813017144489422444nat, m, 58097599406508572244711222nat, 137573374372443008740164442149526148142int, 74071437626485412327351607393152063476int, 194007919637473851381918663028271736112int, 0int, 194007919637473851381918663028271736112int);
    lemma_pow_mod_step(3int, 232390397626034288978844888nat, m, 116195198813017144489422444nat, 194007919637473851381918663028271736112int, 147306161164914349220439329327128856672int, 93899643026798086341536151938506308000int, 0int, 93899643026798086341536151938506308000int);
    lemma_pow_mod_step(3int, 464780795252068577957689777nat, m, 232390397626034288978844888nat, 93899643026798086341536151938506308000int, 34507212386238115838687274863024254508int, 163111725423742943924311378093756445684int, 1int, 233819231897915984582213613768785161075int);
    lemma_pow_mod_step(3int, 929561590504137155915379555nat, m, 464780795252068577957689777nat, 233819231897915984582213613768785161075int, 213964859764115466877440804493195859655int, 177769534675361150015992000552880647690int, 2int, 22276715279457755666534960633673591116int);
    lemma_pow_mod_step(3int, 1859123181008274311830759110nat, m, 929561590504137155915379555nat, 22276715279457755666534960633673591116int, 1942156857800601777187649545384464521int, 114053369928188682526563914145477113439int, 0int, 114053369928188682526563914145477113439int);
    lemma_pow_mod_step(3int, 3718246362016548623661518220nat, m, 1859123181008274311830759110nat, 114053369928188682526563914145477113439int, 50909430422749314074944341245491150602int, 111097685949464779340891803632096918567int, 0int, 111097685949464779340891803632096918567int);
    lemma_pow_mod_step(3int, 7436492724033097247323036441nat, m, 3718246362016548623661518220nat, 111097685949464779340891803632096918567int, 48304992682934218371547424551347979016int, 131774575247300763189370793297582034857int, 1int, 139807781368589442377391859380261928594int);
    lemma_pow_mod_step(3int, 14872985448066194494646072883nat, m, 7436492724033097247323036441nat, 139807781368589442377391859380261928594int, 76497049055576641545522042222569320110int, 24912334809205338479669981693869819366int, 0int, 74737004427616015439009945081609458098int);
    lemma_pow_mod_step(3int, 29745970896132388989292145766nat, m, 14872985448066194494646072883nat, 74737004427616015439009945081609458098int, 21860161582139143282724397733459195247int, 41348078307886331510862273136867796285int, 0int, 41348078307886331510862273136867796285int);
    lemma_pow_mod_step(3int, 59491941792264777978584291532nat, m, 29745970896132388989292145766nat, 41348078307886331510862273136867796285int, 6691025031523099750447300753095055176int, 31354924605790841835682865686551094273int, 0int, 31354924605790841835682865686551094273int);
}

proof fn lemma_certificate_2_8()
    requires
        pow_mod(3int, 59491941792264777978584291532nat, 255515944373312847190720520512484175977int) == 31354924605790841835682865686551094273int,
    ensures
        pow_mod(3int, 243678993581116530600281258118137nat, 255515944373312847190720520512484175977int) == 204031551689721771629775745213702469089int,
{
    let m: int = 255515944373312847190720520512484175977int;
    lemma_pow_mod_step(3int, 118983883584529555957168583065nat, m, 59491941792264777978584291532nat, 31354924605790841835682865686551094273int, 3847631894150830607044177080668150627int, 58445997919641032401816666787122510950int, 0int, 175337993758923097205450000361367532850int);
    lemma_pow_mod_step(3int, 237967767169059111914337166130nat, m, 118983883584529555957168583065nat, 175337993758923097205450000361367532850int, 120318957514790319252224737997205445770int, 13675496121650248052739193880418855210int, 0int, 13675496121650248052739193880418855210int);
    lemma_pow_mod_step(3int, 475935534338118223828674332261nat, m, 237967767169059111914337166130nat, 13675496121650248052739193880418855210int, 731927687064541723046000402885720302int, 14400334207334649145356247416374559046int, 0int, 43201002622003947436068742249123677138int);
    lemma_pow_mod_step(3int, 951871068676236447657348664523nat, m, 475935534338118223828674332261nat, 43201002622003947436068742249123677138int, 7304149383412485361961800630376181002int, 179475732487814711501189986420291682090int, 2int, 27395308716818440122128918235906694316int);
    lemma_pow_mod_step(3int, 1903742137352472895314697329047nat, m, 951871068676236447657348664523nat, 27395308716818440122128918235906694316int, 2937205901300983826195902852443810242int, 143781876492999193147852846537143751422int, 1int, 175829685105684732252838019098947078289int);
    lemma_pow_mod_step(3int, 3807484274704945790629394658095nat, m, 1903742137352472895314697329047nat, 175829685105684732252838019098947078289int, 120994712248545127380758022403285159187int, 32659827491848532240746060226528916822int, 0int, 97979482475545596722238180679586750466int);
    lemma_pow_mod_step(3int, 7614968549409891581258789316191nat, m, 3807484274704945790629394658095nat, 97979482475545596722238180679586750466int, 37570958672348153510671029016965400344int, 94080193936000225492106740522598881068int, 1int, 26724637434687829285599701055312467227int);
    lemma_pow_mod_step(3int, 15229937098819783162517578632383nat, m, 7614968549409891581258789316191nat, 26724637434687829285599701055312467227int, 2795153342650317853453801776455516007int, 173223029366244826698399764094220705690int, 2int, 8637199352108785713758251257693765116int);
    lemma_pow_mod_step(3int, 30459874197639566325035157264767nat, m, 15229937098819783162517578632383nat, 8637199352108785713758251257693765116int, 291963042975803000571296525611576593int, 198013805353502915004660545424752387095int, 2int, 83009527313883050632540595249288809331int);
    lemma_pow_mod_step(3int, 60919748395279132650070314529534nat, m, 30459874197639566325035157264767nat, 83009527313883050632540595249288809331int, 26967325431586559597184104021986798562int, 155669486375651456138646156248814122487int, 0int, 155669486375651456138646156248814122487int);
    lemma_pow_mod_step(3int, 121839496790558265300140629059068nat, m, 60919748395279132650070314529534nat, 155669486375651456138646156248814122487int, 94839439659602428098672698243528591679int, 121446857804833128931408833524225169786int, 0int, 121446857804833128931408833524225169786int);
    lemma_pow_mod_step(3int, 243678993581116530600281258118137nat, m, 121839496790558265300140629059068nat, 121446857804833128931408833524225169786int, 57723753039529849794524807652390062662int, 153182498687678206273498755242062215022int, 1int, 204031551689721771629775745213702469089int);
}

proof fn lemma_certificate_2_9()
    requires
        pow_mod(3int, 243678993581116530600281258118137nat, 255515944373312847190720520512484175977int) == 204031551689721771629775745213702469089int,
    ensures
        pow_mod(3int, 998109157708253309338752033251891312nat, 255515944373312847190720520512484175977int) == 161936679795175458933915901328389379879int,
{
    let m: int = 255515944373312847190720520512484175977int;
    lemma_pow_mod_step(3int, 487357987162233061200562516236275nat, m, 243678993581116530600281258118137nat, 204031551689721771629775745213702469089int, 162920847021957901207946084397519625313int, 84327921783213893390573463516404784120int, 0int, 252983765349641680171720390549214352360int);
    lemma_pow_mod_step(3int, 974715974324466122401125032472550nat, m, 487357987162233061200562516236275nat, 252983765349641680171720390549214352360int, 250476680378804070702896009584250820945int, 62112755094046007986077909330140131335int, 0int, 62112755094046007986077909330140131335int);
    lemma_pow_mod_step(3int, 1949431948648932244802250064945100nat, m, 974715974324466122401125032472550nat, 62112755094046007986077909330140131335int, 15098839936721707621989779524110612723int, 205356494439687225017952822743821726854int, 0int, 205356494439687225017952822743821726854int);
    lemma_pow_mod_step(3int, 3898863897297864489604500129890200nat, m, 1949431948648932244802250064945100nat, 205356494439687225017952822743821726854int, 165043672370380014025573279711186192899int, 163075437672184139821549219002800949993int, 0int, 163075437672184139821549219002800949993int);
    lemma_pow_mod_step(3int, 7797727794595728979209000259780400nat, m, 3898863897297864489604500129890200nat, 163075437672184139821549219002800949993int, 104078038797926227061149203220727015621int, 19114681964357624912614287472694763332int, 0int, 19114681964357624912614287472694763332int);
    lemma_pow_mod_step(3int, 15595455589191457958418000519560801nat, m, 7797727794595728979209000259780400nat, 19114681964357624912614287472694763332int, 1429934509545618598170285921749678631int, 90711188881569037302611774222891294737int, 1int, 16617622271394264717114802156189708234int);
    lemma_pow_mod_step(3int, 31190911178382915916836001039121603nat, m, 15595455589191457958418000519560801nat, 16617622271394264717114802156189708234int, 1080736353388913830686887495324283259int, 35187004725345686996638867835296329713int, 0int, 105561014176037060989916603505888989139int);
    lemma_pow_mod_step(3int, 62381822356765831833672002078243207nat, m, 31190911178382915916836001039121603nat, 105561014176037060989916603505888989139int, 43610302837278956773459753188159987094int, 52660641847759707320280467367715120483int, 0int, 157981925543279121960841402103145361449int);
    lemma_pow_mod_step(3int, 124763644713531663667344004156486414nat, m, 62381822356765831833672002078243207nat, 157981925543279121960841402103145361449int, 97678009329616364463574749718147748847int, 217586946539143330568586073852508531082int, 0int, 217586946539143330568586073852508531082int);
    lemma_pow_mod_step(3int, 249527289427063327334688008312972828nat, m, 124763644713531663667344004156486414nat, 217586946539143330568586073852508531082int, 185288160472121329005875945343482541193int, 663657229633841905516828808796570163int, 0int, 663657229633841905516828808796570163int);
    lemma_pow_mod_step(3int, 499054578854126654669376016625945656nat, m, 249527289427063327334688008312972828nat, 663657229633841905516828808796570163int, 1723731642365827470540110549116350int, 28256641779209338099905457817333922619int, 0int, 28256641779209338099905457817333922619int);
    lemma_pow_mod_step(3int, 998109157708253309338752033251891312nat, m, 499054578854126654669376016625945656nat, 28256641779209338099905457817333922619int, 3124806190067060443427247635614242466int, 161936679795175458933915901328389379879int, 0int, 161936679795175458933915901328389379879int);
}

proof fn lemma_certificate_2_10()
    requires
        pow_mod(3int, 998109157708253309338752033251891312nat, 255515944373312847190720520512484175977int) == 161936679795175458933915901328389379879int,
    ensures
        pow_mod(3int, 127757972186656423595360260256242087988nat, 255515944373312847190720520512484175977int) == 255515944373312847190720520512484175976int,
{
    let m: int = 255515944373312847190720520512484175977int;
    lemma_pow_mod_step(3int, 1996218315416506618677504066503782624nat, m, 998109157708253309338752033251891312nat, 161936679795175458933915901328389379879int, 102629557335068904591505981460199029349int, 18912221052307962861416516976666305668int, 0int, 18912221052307962861416516976666305668int);
    lemma_pow_mod_step(3int, 3992436630833013237355008133007565249nat, m, 1996218315416506618677504066503782624nat, 18912221052307962861416516976666305668int, 1399803468267310520080934634629583738int, 134966020225579430645252452583759464198int, 1int, 149382116303425444745036837238794216617int);
    lemma_pow_mod_step(3int, 7984873261666026474710016266015130499nat, m, 3992436630833013237355008133007565249nat, 149382116303425444745036837238794216617int, 87333167118086113599003542645879575777int, 219343733236170607721502001276544415560int, 2int, 146999310961886128783064962804664894726int);
    lemma_pow_mod_step(3int, 15969746523332052949420032532030260998nat, m, 7984873261666026474710016266015130499nat, 146999310961886128783064962804664894726int, 84569272090897386957146835728665293950int, 198673325022833988689104100400429175926int, 0int, 198673325022833988689104100400429175926int);
    lemma_pow_mod_step(3int, 31939493046664105898840065064060521997nat, m, 15969746523332052949420032532030260998nat, 198673325022833988689104100400429175926int, 154476035428774438058645748379010433900int, 125443972538485419394044432848731537176int, 1int, 120815973242143410991412778033710435551int);
    lemma_pow_mod_step(3int, 63878986093328211797680130128121043994nat, m, 31939493046664105898840065064060521997nat, 120815973242143410991412778033710435551int, 57125591227765401437633732867112157976int, 178062041200560850904751377069516531049int, 0int, 178062041200560850904751377069516531049int);
    lemma_pow_mod_step(3int, 127757972186656423595360260256242087988nat, m, 63878986093328211797680130128121043994nat, 178062041200560850904751377069516531049int, 124086544165663215338441986460605545025int, 255515944373312847190720520512484175976int, 0int, 255515944373312847190720520512484175976int);
}

proof fn lemma_certificate_2()
    ensures
        pow_mod(3int, 127757972186656423595360260256242087988nat, 255515944373312847190720520512484175977int) == 255515944373312847190720520512484175976int,
{
    lemma_pow_mod_zero(3int, 255515944373312847190720520512484175977int);
    lemma_certificate_2_0();
    lemma_certificate_2_1();
    lemma_certificate_2_2();
    lemma_certificate_2_3();
    lemma_certificate_2_4();
    lemma_certificate_2_5();
    lemma_certificate_2_6();
    lemma_certificate_2_7();
    lemma_certificate_2_8();
    lemma_certificate_2_9();
    lemma_certificate_2_10();
}

proof fn lemma_certificate_7_0()
    requires
        pow_mod(3int, 0nat, 255515944373312847190720520512484175977int) == 1int,
    ensures
        pow_mod(3int, 3515nat, 255515944373312847190720520512484175977int) == 245876269589222595086541341131181198473int,
{
    let m: int = 255515944373312847190720520512484175977int;
    lemma_pow_mod_step(3int, 1nat, m, 0nat, 1int, 0int, 1int, 0int, 3int);
    lemma_pow_mod_step(3int, 3nat, m, 1nat, 3int, 0int, 9int, 0int, 27int);
    lemma_pow_mod_step(3int, 6nat, m, 3nat, 27int, 0int, 729int, 0int, 729int);
    lemma_pow_mod_step(3int, 13nat, m, 6nat, 729int, 0int, 531441int, 0int, 1594323int);
    lemma_pow_mod_step(3int, 27nat, m, 13nat, 1594323int, 0int, 2541865828329int, 0int, 7625597484987int);
    lemma_pow_mod_step(3int, 54nat, m, 27nat, 7625597484987int, 0int, 58149737003040059690390169int, 0int, 58149737003040059690390169int);
    lemma_pow_mod_step(3int, 109nat, m, 54nat, 58149737003040059690390169int, 13233584783979int, 28867507224815932675827879284085576078int, 0int, 86602521674447798027483637852256728234int);
    lemma_pow_mod_step(3int, 219nat, m, 109nat, 86602521674447798027483637852256728234int, 29352363034596331972210856525264453673int, 24506173489169447249347953505636745235int, 0int, 73518520467508341748043860516910235705int);
    lemma_pow_mod_step(3int, 439nat, m, 219nat, 73518520467508341748043860516910235705int, 21153172515272439929275000707383872622int, 171959176640161301120914876493856445331int, 2int, 4845641173858208981303588456600984039int);
    lemma_pow_mod_step(3int, 878nat, m, 439nat, 4845641173858208981303588456600984039int, 91893437191868390033557340068956789int, 73281426635678445628492925014447895668int, 0int, 73281426635678445628492925014447895668int);
    lemma_pow_mod_step(3int, 1757nat, m, 878nat, 73281426635678445628492925014447895668int, 21016956507083653759716076472219528256int, 164841848889127713677084298709585260112int, 1int, 239009602294070293840532375616271604359int);
    lemma_pow_mod_step(3int, 3515nat, m, 1757nat, 239009602294070293840532375616271604359int, 223569570693045514559149537117691112403int, 167130737987511814092420620547888458150int, 1int, 245876269589222595086541341131181198473int);
}

proof fn lemma_certificate_7_1()
    requires
        pow_mod(3int, 3515nat, 255515944373312847190720520512484175977int) == 245876269589222595086541341131181198473int,
    ensures
        pow_mod(3int, 14397609nat, 255515944373312847190720520512484175977int) == 94054689422204814913935639038348246507int,
{
    let m: int = 255515944373312847190720520512484175977int;
    lemma_pow_mod_step(3int, 7030nat, m, 3515nat, 245876269589222595086541341131181198473int, 236600264204202261647472141706456208266int, 73292792306749839673248584775711505847int, 0int, 73292792306749839673248584775711505847int);
    lemma_pow_mod_step(3int, 14060nat, m, 7030nat, 73292792306749839673248584775711505847int, 21023476312977301660129472161514974700int, 146354979371982157332474738344812405509int, 0int, 146354979371982157332474738344812405509int);
    lemma_pow_mod_step(3int, 28120nat, m, 14060nat, 146354979371982157332474738344812405509int, 83829523983359271353486095605280602975int, 103836645627263943499840411398483817506int, 0int, 103836645627263943499840411398483817506int);
    lemma_pow_mod_step(3int, 56240nat, m, 28120nat, 103836645627263943499840411398483817506int, 42197166997020145574188242478399139770int, 107637935705080851174090979021012754746int, 0int, 107637935705080851174090979021012754746int);
    lemma_pow_mod_step(3int, 112481nat, m, 56240nat, 107637935705080851174090979021012754746int, 45343257272132883734334376575826816759int, 150234233320428425609796805820456725973int, 1int, 195186755587972429638669896948886001942int);
    lemma_pow_mod_step(3int, 224962nat, m, 112481nat, 195186755587972429638669896948886001942int, 149101730815268791348984445915190412968int, 254051155277748131782534968517412901628int, 0int, 254051155277748131782534968517412901628int);
    lemma_pow_mod_step(3int, 449925nat, m, 224962nat, 254051155277748131782534968517412901628int, 252594763337592828050728037383416586839int, 33320342919234795294429588007626883681int, 0int, 99961028757704385883288764022880651043int);
    lemma_pow_mod_step(3int, 899850nat, m, 449925nat, 99961028757704385883288764022880651043int, 39106002933812341442967829629508616424int, 243546160901961963232416924676528541601int, 0int, 243546160901961963232416924676528541601int);
    lemma_pow_mod_step(3int, 1799701nat, m, 899850nat, 243546160901961963232416924676528541601int, 232137108451535928973199781396484746001int, 129180374656825795559118350003356625224int, 1int, 132025179597164539486634529497585699695int);
    lemma_pow_mod_step(3int, 3599402nat, m, 1799701nat, 132025179597164539486634529497585699695int, 68217457389653533897333830898105224112int, 156432637847209807557769981285491535601int, 0int, 156432637847209807557769981285491535601int);
    lemma_pow_mod_step(3int, 7198804nat, m, 3599402nat, 156432637847209807557769981285491535601int, 95771597517544856400565838364959837141int, 189785782988337614517155613911545869444int, 0int, 189785782988337614517155613911545869444int);
    lemma_pow_mod_step(3int, 14397609nat, m, 7198804nat, 189785782988337614517155613911545869444int, 140964367264191426673880677012819210537int, 201695526056276836431792226687772199487int, 2int, 94054689422204814913935639038348246507int);
}

proof fn lemma_certificate_7_2()
    requires
        pow_mod(3int, 14397609nat, 255515944373312847190720520512484175977int) == 94054689422204814913935639038348246507int,
    ensures
        pow_mod(3int, 58972610319nat, 255515944373312847190720520512484175977int) == 89101083876036401684331853530049477279int,
{
    let m: int = 255515944373312847190720520512484175977int;
    lemma_pow_mod_step(3int, 28795219nat, m, 14397609nat, 94054689422204814913935639038348246507int, 34621262575234225677221287723222527261int, 182959203922103789429094905804633892052int, 2int, 37845723019685673905843676388933324202int);
    lemma_pow_mod_step(3int, 57590439nat, m, 28795219nat, 37845723019685673905843676388933324202int, 5605516142625349957137262125719864306int, 86096869170797144196868622017373959842int, 1int, 2774663139078585399885345539637703549int);
    lemma_pow_mod_step(3int, 115180879nat, m, 57590439nat, 2774663139078585399885345539637703549int, 30130235333233942563212614528944386int, 228338289431318404268311379963536980279int, 2int, 173982979547329518423493098865642588883int);
    lemma_pow_mod_step(3int, 230361759nat, m, 115180879nat, 173982979547329518423493098865642588883int, 118466490403985978620867788394027587318int, 112745414274076865531153121191909728003int, 1int, 82720298448917749402738843063245008032int);
    lemma_pow_mod_step(3int, 460723518nat, m, 230361759nat, 82720298448917749402738843063245008032int, 26779729117337614336525935982122036300int, 39662062396924219385363015908962547924int, 0int, 39662062396924219385363015908962547924int);
    lemma_pow_mod_step(3int, 921447036nat, m, 460723518nat, 39662062396924219385363015908962547924int, 6156481535567958545696866039777195577int, 19510756440985683148463828535182656047int, 0int, 19510756440985683148463828535182656047int);
    lemma_pow_mod_step(3int, 1842894072nat, m, 921447036nat, 19510756440985683148463828535182656047int, 1489807682385956993729681126560036821int, 171816143432694871558054726692542017092int, 0int, 171816143432694871558054726692542017092int);
    lemma_pow_mod_step(3int, 3685788144nat, m, 1842894072nat, 171816143432694871558054726692542017092int, 115534031414313773024261677979133707404int, 184513819127531645566804302612056302756int, 0int, 184513819127531645566804302612056302756int);
    lemma_pow_mod_step(3int, 7371576289nat, m, 3685788144nat, 184513819127531645566804302612056302756int, 133241585109407761453185720747747293302int, 67757710198050991141369440436731789482int, 0int, 203273130594152973424108321310195368446int);
    lemma_pow_mod_step(3int, 14743152579nat, m, 7371576289nat, 203273130594152973424108321310195368446int, 161711887384915770509492437830191818873int, 208782590855408515316914830373450640995int, 2int, 115315883819599851569303450095383571031int);
    lemma_pow_mod_step(3int, 29486305159nat, m, 14743152579nat, 115315883819599851569303450095383571031int, 52042752532371219578409800854779078030int, 55596275171687105550437876041487917651int, 0int, 166788825515061316651313628124463752953int);
    lemma_pow_mod_step(3int, 58972610319nat, m, 29486305159nat, 166788825515061316651313628124463752953int, 108871923374183965544602794019742496241int, 114872342749783082958350791347511217752int, 1int, 89101083876036401684331853530049477279int);
}

proof fn lemma_certificate_7_3()
    requires
        pow_mod(3int, 58972610319nat, 255515944373312847190720520512484175977int) == 89101083876036401684331853530049477279int,
    ensures
        pow_mod(3int, 241551811867179nat, 255515944373312847190720520512484175977int) == 71605064663558861048846497213610455368int,
{
    let m: int = 255515944373312847190720520512484175977int;
    lemma_pow_mod_step(3int, 117945220638nat, m, 58972610319nat, 89101083876036401684331853530049477279int, 31070480424835894121169700065838226588int, 24215754788207798628852377002944967365int, 0int, 24215754788207798628852377002944967365int);
    lemma_pow_mod_step(3int, 235890441276nat, m, 117945220638nat, 24215754788207798628852377002944967365int, 2294975295576330706013482048570797898int, 207324131296407571108271831478981346879int, 0int, 207324131296407571108271831478981346879int);
    lemma_pow_mod_step(3int, 471780882553nat, m, 235890441276nat, 207324131296407571108271831478981346879int, 168221578200265925380711511450230579899int, 208327825902676203525615089835048154318int, 2int, 113951588961402916195404228480176111000int);
    lemma_pow_mod_step(3int, 943561765106nat, m, 471780882553nat, 113951588961402916195404228480176111000int, 50818608046851603439081651588502116461int, 133993069133857107067513612848248542603int, 0int, 133993069133857107067513612848248542603int);
    lemma_pow_mod_step(3int, 1887123530212nat, m, 943561765106nat, 133993069133857107067513612848248542603int, 70266231799919785554368386740871265143int, 105649925096553857529316796265667945898int, 0int, 105649925096553857529316796265667945898int);
    lemma_pow_mod_step(3int, 3774247060424nat, m, 1887123530212nat, 105649925096553857529316796265667945898int, 43683797112088308454728742834848732827int, 54443513913270191959757211374930329425int, 0int, 54443513913270191959757211374930329425int);
    lemma_pow_mod_step(3int, 7548494120849nat, m, 3774247060424nat, 54443513913270191959757211374930329425int, 11600435403333787272151390500809027078int, 253900309831290935259119118827110725419int, 2int, 250669040747247111395916315456363824303int);
    lemma_pow_mod_step(3int, 15096988241698nat, m, 7548494120849nat, 250669040747247111395916315456363824303int, 245914078447261779803938792584323446021int, 31990163567033712131976580346228998292int, 0int, 31990163567033712131976580346228998292int);
    lemma_pow_mod_step(3int, 30193976483397nat, m, 15096988241698nat, 31990163567033712131976580346228998292int, 4005114309228430968749589673477622553int, 174502956949096036141586532258502907983int, 2int, 12476982100662414043318555750540371995int);
    lemma_pow_mod_step(3int, 60387952966794nat, m, 30193976483397nat, 12476982100662414043318555750540371995int, 609257800807946849806819797268799347int, 110481457323894265608853175873529593006int, 0int, 110481457323894265608853175873529593006int);
    lemma_pow_mod_step(3int, 120775905933589nat, m, 60387952966794nat, 110481457323894265608853175873529593006int, 47770609549821625215879062573960133363int, 221215500584043585211849633041923295385int, 2int, 152614613005505061254107858100801534201int);
    lemma_pow_mod_step(3int, 241551811867179nat, m, 120775905933589nat, 152614613005505061254107858100801534201int, 91153685770744829209950266932515924785int, 23868354887852953682948832404536818456int, 0int, 71605064663558861048846497213610455368int);
}

proof fn lemma_certificate_7_4()
    requires
        pow_mod(3int, 241551811867179nat, 255515944373312847190720520512484175977int) == 71605064663558861048846497213610455368int,
    ensures
        pow_mod(3int, 989396221407968184nat, 255515944373312847190720520512484175977int) == 127343204530042761032777700178664817061int,
{
    let m: int = 255515944373312847190720520512484175977int;
    lemma_pow_mod_step(3int, 483103623734359nat, m, 241551811867179nat, 71605064663558861048846497213610455368int, 20066400545170679236606818051349248562int, 236275127718665712293137672189597820350int, 2int, 197793494409371442497971975543825109096int);
    lemma_pow_mod_step(3int, 966207247468718nat, m, 483103623734359nat, 197793494409371442497971975543825109096int, 153110861737503943579820446541136080661int, 57493544664217789318750632300311456419int, 0int, 57493544664217789318750632300311456419int);
    lemma_pow_mod_step(3int, 1932414494937437nat, m, 966207247468718nat, 57493544664217789318750632300311456419int, 12936600438628623073449911326484576718int, 77055085793800990606363796977067200075int, 0int, 231165257381402971819091390931201600225int);
    lemma_pow_mod_step(3int, 3864828989874875nat, m, 1932414494937437nat, 231165257381402971819091390931201600225int, 209135192526918895431874399691672888107int, 200171539213579228958167191453101645086int, 2int, 89482728894111992493060533334336583304int);
    lemma_pow_mod_step(3int, 7729657979749751nat, m, 3864828989874875nat, 89482728894111992493060533334336583304int, 31337217683130408858950121063072042548int, 30194645945979655749681069994468087020int, 0int, 90583937837938967249043209983404261060int);
    lemma_pow_mod_step(3int, 15459315959499502nat, m, 7729657979749751nat, 90583937837938967249043209983404261060int, 32113259367639690826099092770439992763int, 124878180693515571034409276092733869149int, 0int, 124878180693515571034409276092733869149int);
    lemma_pow_mod_step(3int, 30918631918999005nat, m, 15459315959499502nat, 124878180693515571034409276092733869149int, 61031651279414585564844059531782496434int, 37183505531555968351511928373423018183int, 0int, 111550516594667905054535785120269054549int);
    lemma_pow_mod_step(3int, 61837263837998011nat, m, 30918631918999005nat, 111550516594667905054535785120269054549int, 48699574435781991275568561872883309098int, 176303187973441126456883967944820454655int, 2int, 17877675173697684989210862809493012011int);
    lemma_pow_mod_step(3int, 123674527675996023nat, m, 61837263837998011nat, 17877675173697684989210862809493012011int, 1250846675733430620019435919243119503int, 65565750428528476202296282619097484690int, 0int, 196697251285585428606888847857292454070int);
    lemma_pow_mod_step(3int, 247349055351992046nat, m, 123674527675996023nat, 196697251285585428606888847857292454070int, 151418373355121488906518855311588043497int, 141396340216049651132919894517381093331int, 0int, 141396340216049651132919894517381093331int);
    lemma_pow_mod_step(3int, 494698110703984092nat, m, 247349055351992046nat, 141396340216049651132919894517381093331int, 78245312931559681276920462437658512041int, 33571835674143329585464967729115236504int, 0int, 33571835674143329585464967729115236504int);
    lemma_pow_mod_step(3int, 989396221407968184nat, m, 494698110703984092nat, 33571835674143329585464967729115236504int, 4410950374529341565176073232537378915int, 127343204530042761032777700178664817061int, 0int, 127343204530042761032777700178664817061int);
}

proof fn lemma_certificate_7_5()
    requires
        pow_mod(3int, 989396221407968184nat, 255515944373312847190720520512484175977int) == 127343204530042761032777700178664817061int,
    ensures
        pow_mod(3int, 4052566922887037684480nat, 255515944373312847190720520512484175977int) == 175304574151979717810516636478415116922int,
{
    let m: int = 255515944373312847190720520512484175977int;
    lemma_pow_mod_step(3int, 1978792442815936369nat, m, 989396221407968184nat, 127343204530042761032777700178664817061int, 63464891710585558424707928247058880684int, 220419752525196075018548034300894549453int, 2int, 150227368828962530674203061877715296405int);
    lemma_pow_mod_step(3int, 3957584885631872738nat, m, 1978792442815936369nat, 150227368828962530674203061877715296405int, 88324282074157195363153226363874186750int, 142030730764852272914608395442244219275int, 0int, 142030730764852272914608395442244219275int);
    lemma_pow_mod_step(3int, 7915169771263745477nat, m, 3957584885631872738nat, 142030730764852272914608395442244219275int, 78949000740733727614490876077472876697int, 243334727464321734355345065524511017656int, 2int, 218972293646339508684594155548564701014int);
    lemma_pow_mod_step(3int, 15830339542527490955nat, m, 7915169771263745477nat, 218972293646339508684594155548564701014int, 187655081573636301819238605740980679463int, 98976363716178905087631764106090767845int, 1int, 41413146775223868072174771805788127558int);
    lemma_pow_mod_step(3int, 31660679085054981910nat, m, 15830339542527490955nat, 41413146775223868072174771805788127558int, 6712100608956604580132624820740324717int, 104842294612564388703089457740528319855int, 0int, 104842294612564388703089457740528319855int);
    lemma_pow_mod_step(3int, 63321358170109963820nat, m, 31660679085054981910nat, 104842294612564388703089457740528319855int, 43018476857038705054761906793732716895int, 156245309768318592988155051349686189610int, 0int, 156245309768318592988155051349686189610int);
    lemma_pow_mod_step(3int, 126642716340219927640nat, m, 63321358170109963820nat, 156245309768318592988155051349686189610int, 95542361884590037135256099036090339079int, 198242870064360659913408937329035846917int, 0int, 198242870064360659913408937329035846917int);
    lemma_pow_mod_step(3int, 253285432680439855280nat, m, 126642716340219927640nat, 198242870064360659913408937329035846917int, 153807370525327047564087137695427764845int, 12115993932481540226030747270704276324int, 0int, 12115993932481540226030747270704276324int);
    lemma_pow_mod_step(3int, 506570865360879710560nat, m, 253285432680439855280nat, 12115993932481540226030747270704276324int, 574513302220609375892872585334716751int, 179989331836665875170926827233613262249int, 0int, 179989331836665875170926827233613262249int);
    lemma_pow_mod_step(3int, 1013141730721759421120nat, m, 506570865360879710560nat, 179989331836665875170926827233613262249int, 126787233002094464389485920715452502800int, 62837305645374697436777956479763302401int, 0int, 62837305645374697436777956479763302401int);
    lemma_pow_mod_step(3int, 2026283461443518842240nat, m, 1013141730721759421120nat, 62837305645374697436777956479763302401int, 15453152993855359094670109652406384947int, 18787989303577421932438518016620546582int, 0int, 18787989303577421932438518016620546582int);
    lemma_pow_mod_step(3int, 4052566922887037684480nat, m, 2026283461443518842240nat, 18787989303577421932438518016620546582int, 1381473641251982935571991470259435226int, 175304574151979717810516636478415116922int, 0int, 175304574151979717810516636478415116922int);
}

proof fn lemma_certificate_7_6()
    requires
        pow_mod(3int, 4052566922887037684480nat, 255515944373312847190720520512484175977int) == 175304574151979717810516636478415116922int,
    ensures
        pow_mod(3int, 16599314116145306355631777nat, 255515944373312847190720520512484175977int) == 90500829692429840149225830756716710484int,
{
    let m: int = 255515944373312847190720520512484175977int;
    lemma_pow_mod_step(3int, 8105133845774075368960nat, m, 4052566922887037684480nat, 175304574151979717810516636478415116922int, 120273096044869370159422717600161520845int, 228634349166763129331261511137997013519int, 0int, 228634349166763129331261511137997013519int);
    lemma_pow_mod_step(3int, 16210267691548150737921nat, m, 8105133845774075368960nat, 228634349166763129331261511137997013519int, 204580836421451279480119137208302439541int, 254085150360743545112752906994821656804int, 2int, 251223562335604940956817679959496618458int);
    lemma_pow_mod_step(3int, 32420535383096301475843nat, m, 16210267691548150737921nat, 251223562335604940956817679959496618458int, 247003287514543832024239632108058743882int, 27498282592398294692023376860366175050int, 0int, 82494847777194884076070130581098525150int);
    lemma_pow_mod_step(3int, 64841070766192602951686nat, m, 32420535383096301475843nat, 82494847777194884076070130581098525150int, 26633954004215715418712622900121593752int, 122640191351943798865688944407510826796int, 0int, 122640191351943798865688944407510826796int);
    lemma_pow_mod_step(3int, 129682141532385205903373nat, m, 64841070766192602951686nat, 122640191351943798865688944407510826796int, 58863710332169374337985758897667435547int, 115888915603579275034944790268458371197int, 1int, 92150802437424977914113850292890937614int);
    lemma_pow_mod_step(3int, 259364283064770411806746nat, m, 129682141532385205903373nat, 92150802437424977914113850292890937614int, 33233817993975037550797013940197160703int, 246923833515652265137959716616038981165int, 0int, 246923833515652265137959716616038981165int);
    lemma_pow_mod_step(3int, 518728566129540823613493nat, m, 259364283064770411806746nat, 246923833515652265137959716616038981165int, 238620645406712484198734261808319297502int, 42609864269593393559486451191240247771int, 0int, 127829592808780180678459353573720743313int);
    lemma_pow_mod_step(3int, 1037457132259081647226986nat, m, 518728566129540823613493nat, 127829592808780180678459353573720743313int, 63950626790573018468596551671989695869int, 83812754377311121728731526161928276956int, 0int, 83812754377311121728731526161928276956int);
    lemma_pow_mod_step(3int, 2074914264518163294453972nat, m, 1037457132259081647226986nat, 83812754377311121728731526161928276956int, 27491739560676749888336272363397051218int, 87858737435158589214827140010646435950int, 0int, 87858737435158589214827140010646435950int);
    lemma_pow_mod_step(3int, 4149828529036326588907944nat, m, 2074914264518163294453972nat, 87858737435158589214827140010646435950int, 30210082437839281711750640207545587023int, 251801967949156226178696215292552856029int, 0int, 251801967949156226178696215292552856029int);
    lemma_pow_mod_step(3int, 8299657058072653177815888nat, m, 4149828529036326588907944nat, 251801967949156226178696215292552856029int, 248141974930665431258519180073756991013int, 175663640237818561247917658884502154140int, 0int, 175663640237818561247917658884502154140int);
    lemma_pow_mod_step(3int, 16599314116145306355631777nat, m, 8299657058072653177815888nat, 175663640237818561247917658884502154140int, 120766297294223400891626705348353285502int, 200510906146351844843555623927228354146int, 2int, 90500829692429840149225830756716710484int);
}

proof fn lemma_certificate_7_7()
    requires
        pow_mod(3int, 16599314116145306355631777nat, 255515944373312847190720520512484175977int) == 90500829692429840149225830756716710484int,
    ensures
        pow_mod(3int, 67990790619731174832667761751nat, 255515944373312847190720520512484175977int) == 160472019948963813010936561997642804801int,
{
    let m: int = 255515944373312847190720520512484175977int;
    lemma_pow_mod_step(3int, 33198628232290612711263555nat, m, 16599314116145306355631777nat, 90500829692429840149225830756716710484int, 32054360423989377509792110631574776586int, 184344536190087869345418229191792239734int, 2int, 42001719823637913654813646550408367248int);
    lemma_pow_mod_step(3int, 66397256464581225422527111nat, m, 33198628232290612711263555nat, 42001719823637913654813646550408367248int, 6904244165545830069183746107452414699int, 32689693499943159560447626853341607581int, 0int, 98069080499829478681342880560024822743int);
    lemma_pow_mod_step(3int, 132794512929162450845054222nat, m, 66397256464581225422527111nat, 98069080499829478681342880560024822743int, 37639704143200744416296374539789694820int, 92540236847252637089651019624564704909int, 0int, 92540236847252637089651019624564704909int);
    lemma_pow_mod_step(3int, 265589025858324901690108444nat, m, 132794512929162450845054222nat, 92540236847252637089651019624564704909int, 33515307456641217827578028221740749329int, 225416728830787370027585523671168028848int, 0int, 225416728830787370027585523671168028848int);
    lemma_pow_mod_step(3int, 531178051716649803380216888nat, m, 265589025858324901690108444nat, 225416728830787370027585523671168028848int, 198863134593802737195964891529829904765int, 245298103005745255350514497246349376699int, 0int, 245298103005745255350514497246349376699int);
    lemma_pow_mod_step(3int, 1062356103433299606760433777nat, m, 531178051716649803380216888nat, 245298103005745255350514497246349376699int, 235488863467190099788266185841504689316int, 67911786197838265212786856094148374869int, 0int, 203735358593514795638360568282445124607int);
    lemma_pow_mod_step(3int, 2124712206866599213520867554nat, m, 1062356103433299606760433777nat, 203735358593514795638360568282445124607int, 162448165193887376429932953034682376428int, 129727577623232659164500220636048234293int, 0int, 129727577623232659164500220636048234293int);
    lemma_pow_mod_step(3int, 4249424413733198427041735109nat, m, 2124712206866599213520867554nat, 129727577623232659164500220636048234293int, 65863773931086124225712300143056091939int, 173057342116901650716156491394654060446int, 2int, 8140137604079257767028433158993829384int);
    lemma_pow_mod_step(3int, 8498848827466396854083470218nat, m, 4249424413733198427041735109nat, 8140137604079257767028433158993829384int, 259325657253449513180713917849331544int, 17902903159842485235115497821388700968int, 0int, 17902903159842485235115497821388700968int);
    lemma_pow_mod_step(3int, 16997697654932793708166940437nat, m, 8498848827466396854083470218nat, 17902903159842485235115497821388700968int, 1254379417835554287392730155362838369int, 29786950243265332367724980913720475511int, 0int, 89360850729795997103174942741161426533int);
    lemma_pow_mod_step(3int, 33995395309865587416333880875nat, m, 16997697654932793708166940437nat, 89360850729795997103174942741161426533int, 31251911354252483673851278393495755451int, 75909396727743617733081243678715399462int, 0int, 227728190183230853199243731036146198386int);
    lemma_pow_mod_step(3int, 67990790619731174832667761751nat, m, 33995395309865587416333880875nat, 227728190183230853199243731036146198386int, 202962397244225553095491467477394441243int, 223834636231863169130792534340870385585int, 2int, 160472019948963813010936561997642804801int);
}

proof fn lemma_certificate_7_8()
    requires
        pow_mod(3int, 67990790619731174832667761751nat, 255515944373312847190720520512484175977int) == 160472019948963813010936561997642804801int,
    ensures
        pow_mod(3int, 278490278378418892114607152135014nat, 255515944373312847190720520512484175977int) == 213259807177309103129159269544247744187int,
{
    let m: int = 255515944373312847190720520512484175977int;
    lemma_pow_mod_step(3int, 135981581239462349665335523503nat, m, 67990790619731174832667761751nat, 160472019948963813010936561997642804801int, 100781457101078699299117274696885067618int, 35058342700682314266407006319532436815int, 0int, 105175028102046942799221018958597310445int);
    lemma_pow_mod_step(3int, 271963162478924699330671047006nat, m, 135981581239462349665335523503nat, 105175028102046942799221018958597310445int, 43291961929800038522733378211796084962int, 167163580657981924276046989482454740151int, 0int, 167163580657981924276046989482454740151int);
    lemma_pow_mod_step(3int, 543926324957849398661342094013nat, m, 271963162478924699330671047006nat, 167163580657981924276046989482454740151int, 109361718177443729777564741453964050443int, 52623651642293967085477340706814694990int, 0int, 157870954926881901256432022120444084970int);
    lemma_pow_mod_step(3int, 1087852649915698797322684188027nat, m, 543926324957849398661342094013nat, 157870954926881901256432022120444084970int, 97540834372012144399525821239285048340int, 68196536628941653121456545119068172720int, 0int, 204589609886824959364369635357204518160int);
    lemma_pow_mod_step(3int, 2175705299831397594645368376054nat, m, 1087852649915698797322684188027nat, 204589609886824959364369635357204518160int, 163813293829091221153013140944093893453int, 188191210744115465647936622739429607019int, 0int, 188191210744115465647936622739429607019int);
    lemma_pow_mod_step(3int, 4351410599662795189290736752109nat, m, 2175705299831397594645368376054nat, 188191210744115465647936622739429607019int, 138605564862883242300778095480682851107int, 22707934005778978554049061426896809822int, 0int, 68123802017336935662147184280690429466int);
    lemma_pow_mod_step(3int, 8702821199325590378581473504219nat, m, 4351410599662795189290736752109nat, 68123802017336935662147184280690429466int, 18162672441751662209961847481314775861int, 226330642618685622148641150128485353959int, 2int, 167960039109431172064482409360487709923int);
    lemma_pow_mod_step(3int, 17405642398651180757162947008438nat, m, 8702821199325590378581473504219nat, 167960039109431172064482409360487709923int, 110406318505218413135420280089531344347int, 201015598622946930990966787743660513910int, 0int, 201015598622946930990966787743660513910int);
    lemma_pow_mod_step(3int, 34811284797302361514325894016876nat, m, 17405642398651180757162947008438nat, 201015598622946930990966787743660513910int, 158139919560972838834168537743380818241int, 223969604700955572049427246538407891643int, 0int, 223969604700955572049427246538407891643int);
    lemma_pow_mod_step(3int, 69622569594604723028651788033753nat, m, 34811284797302361514325894016876nat, 223969604700955572049427246538407891643int, 196318018247089355534249323600819583764int, 241808035486575742553587992322761202021int, 2int, 214392217713101533279322935943315254109int);
    lemma_pow_mod_step(3int, 139245139189209446057303576067507nat, m, 69622569594604723028651788033753nat, 214392217713101533279322935943315254109int, 179887103048206495593104509816430023762int, 147667261642739213820403961176141818407int, 1int, 187485840554904794270491363015941279244int);
    lemma_pow_mod_step(3int, 278490278378418892114607152135014nat, m, 139245139189209446057303576067507nat, 187485840554904794270491363015941279244int, 137568481273415571388757512510088810637int, 213259807177309103129159269544247744187int, 0int, 213259807177309103129159269544247744187int);
}

proof fn lemma_certificate_7_9()
    requires
        pow_mod(3int, 278490278378418892114607152135014nat, 255515944373312847190720520512484175977int) == 213259807177309103129159269544247744187int,
    ensures
        pow_mod(3int, 1140696180238003782101430895145018642nat, 255515944373312847190720520512484175977int) == 250548075171569229876488998331208037792int,
{
    let m: int = 255515944373312847190720520512484175977int;
    lemma_pow_mod_step(3int, 556980556756837784229214304270028nat, m, 278490278378418892114607152135014nat, 213259807177309103129159269544247744187int, 177991809743412450163311100367448633265int, 23933510089393192090293125949796216064int, 0int, 23933510089393192090293125949796216064int);
    lemma_pow_mod_step(3int, 1113961113513675568458428608540057nat, m, 556980556756837784229214304270028nat, 23933510089393192090293125949796216064int, 2241789280915467969313313478771769396int, 5461596261573188071328608533244652204int, 0int, 16384788784719564213985825599733956612int);
    lemma_pow_mod_step(3int, 2227922227027351136916857217080114nat, m, 1113961113513675568458428608540057nat, 16384788784719564213985825599733956612int, 1050663606055228364793299885718806371int, 242001592123239656227184840110345769077int, 0int, 242001592123239656227184840110345769077int);
    lemma_pow_mod_step(3int, 4455844454054702273833714434160229nat, m, 2227922227027351136916857217080114nat, 242001592123239656227184840110345769077int, 229202019990653856651839580169504155188int, 72639110446498541068549396994899913253int, 0int, 217917331339495623205648190984699739759int);
    lemma_pow_mod_step(3int, 8911688908109404547667428868320458nat, m, 4455844454054702273833714434160229nat, 217917331339495623205648190984699739759int, 185851272078531638604581203937486269995int, 26921953298773925060313602303410467966int, 0int, 26921953298773925060313602303410467966int);
    lemma_pow_mod_step(3int, 17823377816218809095334857736640916nat, m, 8911688908109404547667428868320458nat, 26921953298773925060313602303410467966int, 2836580594604430036689614506422432473int, 13848679339198347974927295153780876035int, 0int, 13848679339198347974927295153780876035int);
    lemma_pow_mod_step(3int, 35646755632437618190669715473281832nat, m, 17823377816218809095334857736640916nat, 13848679339198347974927295153780876035int, 750582981857824582231980661678219045int, 131588154836444295921243774886304439260int, 0int, 131588154836444295921243774886304439260int);
    lemma_pow_mod_step(3int, 71293511264875236381339430946563665nat, m, 35646755632437618190669715473281832nat, 131588154836444295921243774886304439260int, 67766583160704453901875255957782965465int, 239699929190396219010688775845055713295int, 2int, 208067898824562962650625286510198787931int);
    lemma_pow_mod_step(3int, 142587022529750472762678861893127330nat, m, 71293511264875236381339430946563665nat, 208067898824562962650625286510198787931int, 169430720370302625309471178789312230794int, 200958129684752840360037765230776825023int, 0int, 200958129684752840360037765230776825023int);
    lemma_pow_mod_step(3int, 285174045059500945525357723786254660nat, m, 142587022529750472762678861893127330nat, 200958129684752840360037765230776825023int, 158049510317023614102597687211642723450int, 80994405361375797007024229895014389879int, 0int, 80994405361375797007024229895014389879int);
    lemma_pow_mod_step(3int, 570348090119001891050715447572509321nat, m, 285174045059500945525357723786254660nat, 80994405361375797007024229895014389879int, 25673911332352941202601047401791366995int, 189183974915818596080111724373647955526int, 2int, 56520036000830093858894132095975514624int);
    lemma_pow_mod_step(3int, 1140696180238003782101430895145018642nat, m, 570348090119001891050715447572509321nat, 56520036000830093858894132095975514624int, 12502211857542218832560081261360868192int, 250548075171569229876488998331208037792int, 0int, 250548075171569229876488998331208037792int);
}

proof fn lemma_certificate_7_10()
    requires
        pow_mod(3int, 1140696180238003782101430895145018642nat, 255515944373312847190720520512484175977int) == 250548075171569229876488998331208037792int,
    ensures
        pow_mod(3int, 36502277767616121027245788644640596568nat, 255515944373312847190720520512484175977int) == 101630464857884484146913207008716355375int,
{
    let m: int = 255515944373312847190720520512484175977int;
    lemma_pow_mod_step(3int, 2281392360476007564202861790290037285nat, m, 1140696180238003782101430895145018642nat, 250548075171569229876488998331208037792int, 245676793775593127785229158097775073812int, 176028563397047389096451390393728020940int, 2int, 17053801444516472907913130156215710866int);
    lemma_pow_mod_step(3int, 4562784720952015128405723580580074571nat, m, 2281392360476007564202861790290037285nat, 17053801444516472907913130156215710866int, 1138215246889179500476455133754854036int, 75279688255947149071103072806337776784int, 0int, 225839064767841447213309218419013330352int);
    lemma_pow_mod_step(3int, 9125569441904030256811447161160149142nat, m, 4562784720952015128405723580580074571nat, 225839064767841447213309218419013330352int, 199609004049847779522306736670045252837int, 172045876665795905305554905203717947155int, 0int, 172045876665795905305554905203717947155int);
    lemma_pow_mod_step(3int, 18251138883808060513622894322320298284nat, m, 9125569441904030256811447161160149142nat, 172045876665795905305554905203717947155int, 115843196205621135607510159797331756827int, 137620483964780291032943782268533449046int, 0int, 137620483964780291032943782268533449046int);
    lemma_pow_mod_step(3int, 36502277767616121027245788644640596568nat, m, 18251138883808060513622894322320298284nat, 137620483964780291032943782268533449046int, 74122175244882522602319320955804167533int, 101630464857884484146913207008716355375int, 0int, 101630464857884484146913207008716355375int);
}

proof fn lemma_certificate_7()
    ensures
        pow_mod(3int, 36502277767616121027245788644640596568nat, 255515944373312847190720520512484175977int) == 101630464857884484146913207008716355375int,
{
    lemma_pow_mod_zero(3int, 255515944373312847190720520512484175977int);
    lemma_certificate_7_0();
    lemma_certificate_7_1();
    lemma_certificate_7_2();
    lemma_certificate_7_3();
    lemma_certificate_7_4();
    lemma_certificate_7_5();
    lemma_certificate_7_6();
    lemma_certificate_7_7();
    lemma_certificate_7_8();
    lemma_certificate_7_9();
    lemma_certificate_7_10();
}

proof fn lemma_certificate_11_0()
    requires
        pow_mod(3int, 0nat, 255515944373312847190720520512484175977int) == 1int,
    ensures
        pow_mod(3int, 2236nat, 255515944373312847190720520512484175977int) == 71421707765760949515765138353283980818int,
{
    let m: int = 255515944373312847190720520512484175977int;
    lemma_pow_mod_step(3int, 1nat, m, 0nat, 1int, 0int, 1int, 0int, 3int);
    lemma_pow_mod_step(3int, 2nat, m, 1nat, 3int, 0int, 9int, 0int, 9int);
    lemma_pow_mod_step(3int, 4nat, m, 2nat, 9int, 0int, 81int, 0int, 81int);
    lemma_pow_mod_step(3int, 8nat, m, 4nat, 81int, 0int, 6561int, 0int, 6561int);
    lemma_pow_mod_step(3int, 17nat, m, 8nat, 6561int, 0int, 43046721int, 0int, 129140163int);
    lemma_pow_mod_step(3int, 34nat, m, 17nat, 129140163int, 0int, 16677181699666569int, 0int, 16677181699666569int);
    lemma_pow_mod_step(3int, 69nat, m, 34nat, 16677181699666569int, 0int, 278128389443693511257285776231761int, 0int, 834385168331080533771857328695283int);
    lemma_pow_mod_step(3int, 139nat, m, 69nat, 834385168331080533771857328695283int, 2724677752843980601475637532int, 201905266326201288085924570823312481325int, 2int, 94683910231978169876332671444969092021int);
    lemma_pow_mod_step(3int, 279nat, m, 139nat, 94683910231978169876332671444969092021int, 35086040829292557071317574763922409041int, 132927830262485598893841610251546056384int, 1int, 143267546414143949490804310242153993175int);
    lemma_pow_mod_step(3int, 559nat, m, 279nat, 143267546414143949490804310242153993175int, 80329976690380927959062548327822930521int, 157640265881649743564660180177938286608int, 1int, 217404853271636383503260020021330683847int);
    lemma_pow_mod_step(3int, 1118nat, m, 559nat, 217404853271636383503260020021330683847int, 184978163855821929087186632170254560019int, 87658709823060272187194711716762255846int, 0int, 87658709823060272187194711716762255846int);
    lemma_pow_mod_step(3int, 2236nat, m, 1118nat, 87658709823060272187194711716762255846int, 30072680695874561168010910012986983874int, 71421707765760949515765138353283980818int, 0int, 71421707765760949515765138353283980818int);
}

proof fn lemma_certificate_11_1()
    requires
        pow_mod(3int, 2236nat, 255515944373312847190720520512484175977int) == 71421707765760949515765138353283980818int,
    ensures
        pow_mod(3int, 9162115nat, 255515944373312847190720520512484175977int) == 94090737988469863233974013237941116066int,
{
    let m: int = 255515944373312847190720520512484175977int;
    lemma_pow_mod_step(3int, 4473nat, m, 2236nat, 71421707765760949515765138353283980818int, 19963765285523739621184798382430015086int, 75072943726900214111523354392603160102int, 0int, 225218831180700642334570063177809480306int);
    lemma_pow_mod_step(3int, 8947nat, m, 4473nat, 225218831180700642334570063177809480306int, 198514116380514657410868675516712007766int, 7442005914897882248463530310067216254int, 0int, 22326017744693646745390590930201648762int);
    lemma_pow_mod_step(3int, 17894nat, m, 8947nat, 22326017744693646745390590930201648762int, 1950763071004800672620576954610611952int, 6766193029753569873415882422788655540int, 0int, 6766193029753569873415882422788655540int);
    lemma_pow_mod_step(3int, 35789nat, m, 17894nat, 6766193029753569873415882422788655540int, 179172255681228598338922370023962549int, 249461599385962760303112000652199206227int, 2int, 237352909411262586527894960931629266727int);
    lemma_pow_mod_step(3int, 71579nat, m, 35789nat, 237352909411262586527894960931629266727int, 220480971331020519645921497192177887526int, 102326718199970438467445043525012129627int, 1int, 51464210226598468211614610062552212904int);
    lemma_pow_mod_step(3int, 143158nat, m, 71579nat, 51464210226598468211614610062552212904int, 10365556406835915428575576852060091606int, 18715458734945098307227417599299564154int, 0int, 18715458734945098307227417599299564154int);
    lemma_pow_mod_step(3int, 286316nat, m, 143158nat, 18715458734945098307227417599299564154int, 1370827939988297161637192427162403880int, 90536893011871061964661286378094144956int, 0int, 90536893011871061964661286378094144956int);
    lemma_pow_mod_step(3int, 572632nat, m, 286316nat, 90536893011871061964661286378094144956int, 32079911945796790934540398906560884511int, 102478078785184776162336844408642649689int, 0int, 102478078785184776162336844408642649689int);
    lemma_pow_mod_step(3int, 1145264nat, m, 572632nat, 102478078785184776162336844408642649689int, 41100200839753878892462230530321517540int, 130955223750130061263342747487719660141int, 0int, 130955223750130061263342747487719660141int);
    lemma_pow_mod_step(3int, 2290528nat, m, 1145264nat, 130955223750130061263342747487719660141int, 67116244622258374974441409479393467034int, 128780000646355286504426347375939897663int, 0int, 128780000646355286504426347375939897663int);
    lemma_pow_mod_step(3int, 4581057nat, m, 2290528nat, 128780000646355286504426347375939897663int, 64905102525599574282605253108355135076int, 31177164659397774360801963566523592317int, 0int, 93531493978193323082405890699570776951int);
    lemma_pow_mod_step(3int, 9162115nat, m, 4581057nat, 93531493978193323082405890699570776951int, 34237160374663907621861155682966562360int, 116535560787260903474898177916808430681int, 1int, 94090737988469863233974013237941116066int);
}

proof fn lemma_certificate_11_2()
    requires
        pow_mod(3int, 9162115nat, 255515944373312847190720520512484175977int) == 94090737988469863233974013237941116066int,
    ensures
        pow_mod(3int, 37528024748nat, 255515944373312847190720520512484175977int) == 45253331090394870963944763474535614474int,
{
    let m: int = 255515944373312847190720520512484175977int;
    lemma_pow_mod_step(3int, 18324230nat, m, 9162115nat, 94090737988469863233974013237941116066int, 34647806409608688001623851949235963683int, 70854831337563838501847187917930273065int, 0int, 70854831337563838501847187917930273065int);
    lemma_pow_mod_step(3int, 36648461nat, m, 18324230nat, 70854831337563838501847187917930273065int, 19648116817867632323776441446133531459int, 177829750363195440636250736710842933782int, 2int, 22457362342960627527311169107560449392int);
    lemma_pow_mod_step(3int, 73296923nat, m, 36648461nat, 22457362342960627527311169107560449392int, 1973783376375868559910244307068736411int, 200611207938966781853238313519041771117int, 2int, 90801735070274651178273899532156961397int);
    lemma_pow_mod_step(3int, 146593846nat, m, 73296923nat, 90801735070274651178273899532156961397int, 32267869279133263631413287463226198465int, 223018276423186372274280558994360916304int, 0int, 223018276423186372274280558994360916304int);
    lemma_pow_mod_step(3int, 293187693nat, m, 146593846nat, 223018276423186372274280558994360916304int, 194653808163540664138154611403702806415int, 13384101270793538681051304736868527961int, 0int, 40152303812380616043153914210605583883int);
    lemma_pow_mod_step(3int, 586375386nat, m, 293187693nat, 40152303812380616043153914210605583883int, 6309616041362390380867122848683252096int, 221406576959823303089772856800231259897int, 0int, 221406576959823303089772856800231259897int);
    lemma_pow_mod_step(3int, 1172750773nat, m, 586375386nat, 221406576959823303089772856800231259897int, 191850541621957990995346499184810180935int, 228809829757705114697546968706210052114int, 2int, 175397600526489649711199865093661804388int);
    lemma_pow_mod_step(3int, 2345501546nat, m, 1172750773nat, 175397600526489649711199865093661804388int, 120400777125293149350175541263179681206int, 230133365285065485973401107469512466282int, 0int, 230133365285065485973401107469512466282int);
    lemma_pow_mod_step(3int, 4691003093nat, m, 2345501546nat, 230133365285065485973401107469512466282int, 207272254368799736129361212380188371648int, 3149861342669422133558898143477403428int, 0int, 9449584028008266400676694430432210284int);
    lemma_pow_mod_step(3int, 9382006187nat, m, 4691003093nat, 9449584028008266400676694430432210284int, 349467969685398771492672589150074141int, 243884763335052933329625705030754249899int, 2int, 220622401258533105607436074067294397743int);
    lemma_pow_mod_step(3int, 18764012374nat, m, 9382006187nat, 220622401258533105607436074067294397743int, 190493959414005678250597028922339150927int, 253077261792298643227959801443652813370int, 0int, 253077261792298643227959801443652813370int);
    lemma_pow_mod_step(3int, 37528024748nat, m, 18764012374nat, 253077261792298643227959801443652813370int, 250661854364408555800927153186127388938int, 45253331090394870963944763474535614474int, 0int, 45253331090394870963944763474535614474int);
}

proof fn lemma_certificate_11_3()
    requires
        pow_mod(3int, 37528024748nat, 255515944373312847190720520512484175977int) == 45253331090394870963944763474535614474int,
    ensures
        pow_mod(3int, 153714789370023nat, 255515944373312847190720520512484175977int) == 161207040231104634531937621614354385839int,
{
    let m: int = 255515944373312847190720520512484175977int;
    lemma_pow_mod_step(3int, 75056049497nat, m, 37528024748nat, 45253331090394870963944763474535614474int, 8014623039668073687565109400376212706int, 92324953055312536076061665790270932914int, 1int, 21458914792624761037464476858328622765int);
    lemma_pow_mod_step(3int, 150112098994nat, m, 75056049497nat, 21458914792624761037464476858328622765int, 1802177258278465267007813067201242194int, 122015895818012704061714526238782671687int, 0int, 122015895818012704061714526238782671687int);
    lemma_pow_mod_step(3int, 300224197988nat, m, 150112098994nat, 122015895818012704061714526238782671687int, 58265948407981550417902799032005329915int, 239860742611351033811374470620828974014int, 0int, 239860742611351033811374470620828974014int);
    lemma_pow_mod_step(3int, 600448395976nat, m, 300224197988nat, 239860742611351033811374470620828974014int, 225164719122231789873189286241446445431int, 232175400179084445790250963994155661109int, 0int, 232175400179084445790250963994155661109int);
    lemma_pow_mod_step(3int, 1200896791953nat, m, 600448395976nat, 232175400179084445790250963994155661109int, 210966938210170310687083459463571838677int, 49939361192037155474626215547732247452int, 0int, 149818083576111466423878646643196742356int);
    lemma_pow_mod_step(3int, 2401793583906nat, m, 1200896791953nat, 149818083576111466423878646643196742356int, 87843669487903071737799000658704939825int, 92503937010934047423119031176148846711int, 0int, 92503937010934047423119031176148846711int);
    lemma_pow_mod_step(3int, 4803587167813nat, m, 2401793583906nat, 92503937010934047423119031176148846711int, 33489019182384065894085782543638111807int, 204724775540068600003361866512786057082int, 2int, 103142437873580105628644558513389819292int);
    lemma_pow_mod_step(3int, 9607174335626nat, m, 4803587167813nat, 103142437873580105628644558513389819292int, 41634828372833420757079630990013693262int, 216228640744022167669995877349908214290int, 0int, 216228640744022167669995877349908214290int);
    lemma_pow_mod_step(3int, 19214348671252nat, m, 9607174335626nat, 216228640744022167669995877349908214290int, 182982025613626140203960098676634358568int, 88871268894082093462740293169130483164int, 0int, 88871268894082093462740293169130483164int);
    lemma_pow_mod_step(3int, 38428697342505nat, m, 19214348671252nat, 88871268894082093462740293169130483164int, 30910409345355726854735409734294965006int, 27099496813596122317231661128126590034int, 0int, 81298490440788366951694983384379770102int);
    lemma_pow_mod_step(3int, 76857394685011nat, m, 38428697342505nat, 81298490440788366951694983384379770102int, 25867053283745198186077961520743273845int, 152689694650899444622574306646291668839int, 1int, 202553139579385486677002399426390830540int);
    lemma_pow_mod_step(3int, 153714789370023nat, m, 76857394685011nat, 202553139579385486677002399426390830540int, 160568353000796656130290247447018630131int, 53735680077034878177312540538118128613int, 0int, 161207040231104634531937621614354385839int);
}

proof fn lemma_certificate_11_4()
    requires
        pow_mod(3int, 153714789370023nat, 255515944373312847190720520512484175977int) == 161207040231104634531937621614354385839int,
    ensures
        pow_mod(3int, 629615777259616117nat, 255515944373312847190720520512484175977int) == 120106571379856266663879441206219300847int,
{
    let m: int = 255515944373312847190720520512484175977int;
    lemma_pow_mod_step(3int, 307429578740046nat, m, 153714789370023nat, 161207040231104634531937621614354385839int, 101706803009148156992306558572933093472int, 250637468069668442648062533663445811777int, 0int, 250637468069668442648062533663445811777int);
    lemma_pow_mod_step(3int, 614859157480093nat, m, 307429578740046nat, 250637468069668442648062533663445811777int, 245852134802962854260358855372410255436int, 129425726341303211116711508939967036757int, 1int, 132761234650596786159414006307416934294int);
    lemma_pow_mod_step(3int, 1229718314960187nat, m, 614859157480093nat, 132761234650596786159414006307416934294int, 68980217532725156870113512669337667296int, 149050574550920645517237000163571530244int, 1int, 191635779279449089360990479978230414755int);
    lemma_pow_mod_step(3int, 2459436629920375nat, m, 1229718314960187nat, 191635779279449089360990479978230414755int, 143725950214625296530796217972587797424int, 12954433684617166737304224615278426777int, 0int, 38863301053851500211912673845835280331int);
    lemma_pow_mod_step(3int, 4918873259840750nat, m, 2459436629920375nat, 38863301053851500211912673845835280331int, 5911005563690541402115909597368088002int, 80350388832484857334179510960365141607int, 0int, 80350388832484857334179510960365141607int);
    lemma_pow_mod_step(3int, 9837746519681501nat, m, 4918873259840750nat, 80350388832484857334179510960365141607int, 25267248982705042533363477145889351107int, 113324760522673556988758798943034785910int, 1int, 84458337194707823775555876316620181753int);
    lemma_pow_mod_step(3int, 19675493039363003nat, m, 9837746519681501nat, 84458337194707823775555876316620181753int, 27916890819436430297045796445843103114int, 133611632139402024407323462895821460631int, 1int, 145318952044893226031249868174980205916int);
    lemma_pow_mod_step(3int, 39350986078726007nat, m, 19675493039363003nat, 145318952044893226031249868174980205916int, 82646888730250163082550108459038832303int, 55251509997350738130259848158517214025int, 0int, 165754529992052214390779544475551642075int);
    lemma_pow_mod_step(3int, 78701972157452014nat, m, 39350986078726007nat, 165754529992052214390779544475551642075int, 107525830845003406145069941515660247382int, 87342983048797826480388919568668763411int, 0int, 87342983048797826480388919568668763411int);
    lemma_pow_mod_step(3int, 157403944314904029nat, m, 78701972157452014nat, 87342983048797826480388919568668763411int, 29856440883065956568133235782196952298int, 72778195569381255862636792234585809775int, 0int, 218334586708143767587910376703757429325int);
    lemma_pow_mod_step(3int, 314807888629808058nat, m, 157403944314904029nat, 218334586708143767587910376703757429325int, 186563667758319360132920037620097652443int, 160849047874648203507055783609373993814int, 0int, 160849047874648203507055783609373993814int);
    lemma_pow_mod_step(3int, 629615777259616117nat, m, 314807888629808058nat, 160849047874648203507055783609373993814int, 101255584130518521959749150948239940711int, 40035523793285422221293147068739766949int, 0int, 120106571379856266663879441206219300847int);
}

proof fn lemma_certificate_11_5()
    requires
        pow_mod(3int, 629615777259616117nat, 255515944373312847190720520512484175977int) == 120106571379856266663879441206219300847int,
    ensures
        pow_mod(3int, 2578906223655387617396nat, 255515944373312847190720520512484175977int) == 188427338944411309483346280271203841230int,
{
    let m: int = 255515944373312847190720520512484175977int;
    lemma_pow_mod_step(3int, 1259231554519232235nat, m, 629615777259616117nat, 120106571379856266663879441206219300847int, 56456705760594316953915426201361619683int, 49921968572315790423212997189175962118int, 0int, 149765905716947371269638991567527886354int);
    lemma_pow_mod_step(3int, 2518463109038464470nat, m, 1259231554519232235nat, 149765905716947371269638991567527886354int, 87782492674692883475257146715093766700int, 181592711614516435550654001900156847416int, 0int, 181592711614516435550654001900156847416int);
    lemma_pow_mod_step(3int, 5036926218076928940nat, m, 2518463109038464470nat, 181592711614516435550654001900156847416int, 129056184702644624752319759743053529710int, 68986027726115109356118158681268100386int, 0int, 68986027726115109356118158681268100386int);
    lemma_pow_mod_step(3int, 10073852436153857880nat, m, 5036926218076928940nat, 68986027726115109356118158681268100386int, 18625342669321813059751962930523425409int, 9605086428807863725802127522184149403int, 0int, 9605086428807863725802127522184149403int);
    lemma_pow_mod_step(3int, 20147704872307715760nat, m, 10073852436153857880nat, 9605086428807863725802127522184149403int, 361064298868484933260714019170344369int, 13205429489350041986728654592338232896int, 0int, 13205429489350041986728654592338232896int);
    lemma_pow_mod_step(3int, 40295409744615431521nat, m, 20147704872307715760nat, 13205429489350041986728654592338232896int, 682475484752602539425605272761222793int, 170799365540615448259472171806421103055int, 2int, 1366207875220650396975474394294957211int);
    lemma_pow_mod_step(3int, 80590819489230863043nat, m, 40295409744615431521nat, 1366207875220650396975474394294957211int, 7304921666993520916947904862198676int, 233162545031205932454227309818000492069int, 2int, 188455746346992102981240888429033124253int);
    lemma_pow_mod_step(3int, 161181638978461726087nat, m, 80590819489230863043nat, 188455746346992102981240888429033124253int, 138995507377469246151930258209984127723int, 203957008890975504132004343919360497638int, 2int, 100839137926300818014571990733113140960int);
    lemma_pow_mod_step(3int, 322363277956923452174nat, m, 161181638978461726087nat, 100839137926300818014571990733113140960int, 39796075202505303931784807424435380286int, 44404011885359886987231967881489132178int, 0int, 44404011885359886987231967881489132178int);
    lemma_pow_mod_step(3int, 644726555913846904349nat, m, 322363277956923452174nat, 44404011885359886987231967881489132178int, 7716607573555070838962671501892297720int, 6377379873077276179928806686199151244int, 0int, 19132139619231828539786420058597453732int);
    lemma_pow_mod_step(3int, 1289453111827693808698nat, m, 644726555913846904349nat, 19132139619231828539786420058597453732int, 1432547652975392306924499229684507683int, 241753957468544436533509126268700196533int, 0int, 241753957468544436533509126268700196533int);
    lemma_pow_mod_step(3int, 2578906223655387617396nat, m, 1289453111827693808698nat, 241753957468544436533509126268700196533int, 228733185692372118846458613341653809267int, 188427338944411309483346280271203841230int, 0int, 188427338944411309483346280271203841230int);
}

proof fn lemma_certificate_11_6()
    requires
        pow_mod(3int, 2578906223655387617396nat, 255515944373312847190720520512484175977int) == 188427338944411309483346280271203841230int,
    ensures
        pow_mod(3int, 10563199892092467680856585nat, 255515944373312847190720520512484175977int) == 214256298518735875025079891154850438539int,
{
    let m: int = 255515944373312847190720520512484175977int;
    lemma_pow_mod_step(3int, 5157812447310775234793nat, m, 2578906223655387617396nat, 188427338944411309483346280271203841230int, 138953606784705757390139946671147908734int, 166114047741223250878790409676256629782int, 1int, 242826198850356905445650708516285713369int);
    lemma_pow_mod_step(3int, 10315624894621550469586nat, m, 5157812447310775234793nat, 242826198850356905445650708516285713369int, 230766666998928692347470990193656204484int, 136768452166343405187809045121072849293int, 0int, 136768452166343405187809045121072849293int);
    lemma_pow_mod_step(3int, 20631249789243100939173nat, m, 10315624894621550469586nat, 136768452166343405187809045121072849293int, 73207210430078570451236148096330156502int, 232878685673925595027026693262571847395int, 2int, 187604168275151090699639038762747190231int);
    lemma_pow_mod_step(3int, 41262499578486201878346nat, m, 20631249789243100939173nat, 187604168275151090699639038762747190231int, 137742182940999879341130287499725314655int, 98568105733303256363899666470584790426int, 0int, 98568105733303256363899666470584790426int);
    lemma_pow_mod_step(3int, 82524999156972403756692nat, m, 41262499578486201878346nat, 98568105733303256363899666470584790426int, 38023738564263137229943488124974065356int, 38354031823940309638116613816938108664int, 0int, 38354031823940309638116613816938108664int);
    lemma_pow_mod_step(3int, 165049998313944807513384nat, m, 82524999156972403756692nat, 38354031823940309638116613816938108664int, 5757103576294343914832804307885872270int, 166564218929581548540175998262647407106int, 0int, 166564218929581548540175998262647407106int);
    lemma_pow_mod_step(3int, 330099996627889615026768nat, m, 165049998313944807513384nat, 166564218929581548540175998262647407106int, 108578895519285777456769697288330857089int, 28107354184820322041607082506585344283int, 0int, 28107354184820322041607082506585344283int);
    lemma_pow_mod_step(3int, 660199993255779230053536nat, m, 330099996627889615026768nat, 28107354184820322041607082506585344283int, 3091874995153726346700402538567481623int, 157004230542707188689776712754395213418int, 0int, 157004230542707188689776712754395213418int);
    lemma_pow_mod_step(3int, 1320399986511558460107073nat, m, 660199993255779230053536nat, 157004230542707188689776712754395213418int, 96472760119787390211829870277804995402int, 227666839341712234822035079101523384970int, 2int, 171968629278511010084664196279601802956int);
    lemma_pow_mod_step(3int, 2640799973023116920214146nat, m, 1320399986511558460107073nat, 171968629278511010084664196279601802956int, 115739194000054361246352138332831506925int, 68036493900649034224824576604056197211int, 0int, 68036493900649034224824576604056197211int);
    lemma_pow_mod_step(3int, 5281599946046233840428292nat, m, 2640799973023116920214146nat, 68036493900649034224824576604056197211int, 18116147364682896983212592536788636816int, 171097248253113765090155544549639209289int, 0int, 171097248253113765090155544549639209289int);
    lemma_pow_mod_step(3int, 10563199892092467680856585nat, m, 5281599946046233840428292nat, 171097248253113765090155544549639209289int, 114569243150703233527688469249234250637int, 156590747630682907405266803889111538172int, 1int, 214256298518735875025079891154850438539int);
}

proof fn lemma_certificate_11_7()
    requires
        pow_mod(3int, 10563199892092467680856585nat, 255515944373312847190720520512484175977int) == 214256298518735875025079891154850438539int,
    ensures
        pow_mod(3int, 43266866758010747620788575660nat, 255515944373312847190720520512484175977int) == 121793103756742907272282924689875075678int,
{
    let m: int = 255515944373312847190720520512484175977int;
    lemma_pow_mod_step(3int, 21126399784184935361713171nat, m, 10563199892092467680856585nat, 214256298518735875025079891154850438539int, 179659087684487568287449376281268606404int, 47327121930020778044536400567531297813int, 0int, 141981365790062334133609201702593893439int);
    lemma_pow_mod_step(3int, 42252799568369870723426343nat, m, 21126399784184935361713171nat, 141981365790062334133609201702593893439int, 78894130388040640051624135763813714940int, 114752306964431171434627579815813250341int, 1int, 88740976519980667113162218934955575046int);
    lemma_pow_mod_step(3int, 84505599136739741446852686nat, m, 42252799568369870723426343nat, 88740976519980667113162218934955575046int, 30819841529005787915630696203795198873int, 102450161691799969672772851098293828195int, 0int, 102450161691799969672772851098293828195int);
    lemma_pow_mod_step(3int, 169011198273479482893705373nat, m, 84505599136739741446852686nat, 102450161691799969672772851098293828195int, 41077810844324781163056699693746854517int, 238236499890405822644750714447731619916int, 2int, 203677610924591773552811102318226507794int);
    lemma_pow_mod_step(3int, 338022396546958965787410747nat, m, 169011198273479482893705373nat, 203677610924591773552811102318226507794int, 162356088163875099118909160820681281297int, 239138575820011239160034293523155944267int, 2int, 206383838713408023098661839544499480847int);
    lemma_pow_mod_step(3int, 676044793093917931574821494nat, m, 338022396546958965787410747nat, 206383838713408023098661839544499480847int, 166699142734713590493561255700410678588int, 146293824354562766645693551989941956933int, 0int, 146293824354562766645693551989941956933int);
    lemma_pow_mod_step(3int, 1352089586187835863149642989nat, m, 676044793093917931574821494nat, 146293824354562766645693551989941956933int, 83759481611899614089029353300540712904int, 14871974217363871686353701191056059281int, 0int, 44615922652091615059061103573168177843int);
    lemma_pow_mod_step(3int, 2704179172375671726299285978nat, m, 1352089586187835863149642989nat, 44615922652091615059061103573168177843int, 7790435774877327944379718528135288914int, 235402953151161366026313640398762913671int, 0int, 235402953151161366026313640398762913671int);
    lemma_pow_mod_step(3int, 5408358344751343452598571957nat, m, 2704179172375671726299285978nat, 235402953151161366026313640398762913671int, 216873160256983164902939180017091273480int, 194512230180329860416510533590045506281int, 2int, 72504801794363886868090559745168166889int);
    lemma_pow_mod_step(3int, 10816716689502686905197143915nat, m, 5408358344751343452598571957nat, 72504801794363886868090559745168166889int, 20573848321416337191039884222959214616int, 222170699743320954530342479752701458489int, 2int, 155480210483337169209586398233136023513int);
    lemma_pow_mod_step(3int, 21633433379005373810394287830nat, m, 10816716689502686905197143915nat, 155480210483337169209586398233136023513int, 94608952530273773967821940063837166158int, 9383708368322254561122772264627874803int, 0int, 9383708368322254561122772264627874803int);
    lemma_pow_mod_step(3int, 43266866758010747620788575660nat, m, 21633433379005373810394287830nat, 9383708368322254561122772264627874803int, 344612477932386261396600907378387603int, 121793103756742907272282924689875075678int, 0int, 121793103756742907272282924689875075678int);
}

proof fn lemma_certificate_11_8()
    requires
        pow_mod(3int, 43266866758010747620788575660nat, 255515944373312847190720520512484175977int) == 121793103756742907272282924689875075678int,
    ensures
        pow_mod(3int, 177221086240812022254750005904100nat, 255515944373312847190720520512484175977int) == 122621688061614144048374242178918944018int,
{
    let m: int = 255515944373312847190720520512484175977int;
    lemma_pow_mod_step(3int, 86533733516021495241577151320nat, m, 43266866758010747620788575660nat, 121793103756742907272282924689875075678int, 58053363985100971523905205821141432942int, 20343265778185648030244238872354325350int, 0int, 20343265778185648030244238872354325350int);
    lemma_pow_mod_step(3int, 173067467032042990483154302640nat, m, 86533733516021495241577151320nat, 20343265778185648030244238872354325350int, 1619658074712003695466835904251097715int, 190032648415997612934522273084170029945int, 0int, 190032648415997612934522273084170029945int);
    lemma_pow_mod_step(3int, 346134934064085980966308605281nat, m, 173067467032042990483154302640nat, 190032648415997612934522273084170029945int, 141331326906305933001468964971861662848int, 115455246020804285864681674647921700529int, 1int, 90849793689100010403324503431280925610int);
    lemma_pow_mod_step(3int, 692269868128171961932617210562nat, m, 346134934064085980966308605281nat, 90849793689100010403324503431280925610int, 32302035137553965597088576072361361292int, 197867763724870859827177248713749789816int, 0int, 197867763724870859827177248713749789816int);
    lemma_pow_mod_step(3int, 1384539736256343923865234421125nat, m, 692269868128171961932617210562nat, 197867763724870859827177248713749789816int, 153225866266412463568375235403155233786int, 67784028979682115886479105751177354934int, 0int, 203352086939046347659437317253532064802int);
    lemma_pow_mod_step(3int, 2769079472512687847730468842251nat, m, 1384539736256343923865234421125nat, 203352086939046347659437317253532064802int, 161837537629547814916167304330246816858int, 216468060662845165022090376266165078938int, 2int, 138372293241909800684830087773526884860int);
    lemma_pow_mod_step(3int, 5538158945025375695460937684503nat, m, 2769079472512687847730468842251nat, 138372293241909800684830087773526884860int, 74934233885033665432278802783732523381int, 60777414396391460287673135929026201363int, 0int, 182332243189174380863019407787078604089int);
    lemma_pow_mod_step(3int, 11076317890050751390921875369006nat, m, 5538158945025375695460937684503nat, 182332243189174380863019407787078604089int, 130109480987318296676177056719095920372int, 228401353966045719580342108421980216477int, 0int, 228401353966045719580342108421980216477int);
    lemma_pow_mod_step(3int, 22152635780101502781843750738012nat, m, 11076317890050751390921875369006nat, 228401353966045719580342108421980216477int, 204164083073054077639778067822238945663int, 34016586900708866047880386675949353778int, 0int, 34016586900708866047880386675949353778int);
    lemma_pow_mod_step(3int, 44305271560203005563687501476025nat, m, 22152635780101502781843750738012nat, 34016586900708866047880386675949353778int, 4528594828833442142114943800070408463int, 170956080390908702517416413153440779933int, 2int, 1836352426100413170808198435353987845int);
    lemma_pow_mod_step(3int, 88610543120406011127375002952050nat, m, 44305271560203005563687501476025nat, 1836352426100413170808198435353987845int, 13197572625519016546393054515458174int, 8479011110564889451360251233408658027int, 0int, 8479011110564889451360251233408658027int);
    lemma_pow_mod_step(3int, 177221086240812022254750005904100nat, m, 88610543120406011127375002952050nat, 8479011110564889451360251233408658027int, 281366509590670033369509214558112143int, 122621688061614144048374242178918944018int, 0int, 122621688061614144048374242178918944018int);
}

proof fn lemma_certificate_11_9()
    requires
        pow_mod(3int, 177221086240812022254750005904100nat, 255515944373312847190720520512484175977int) == 122621688061614144048374242178918944018int,
    ensures
        pow_mod(3int, 725897569242366043155456024183193681nat, 255515944373312847190720520512484175977int) == 24048057700014711327245167057591073482int,
{
    let m: int = 255515944373312847190720520512484175977int;
    lemma_pow_mod_step(3int, 354442172481624044509500011808200nat, m, 177221086240812022254750005904100nat, 122621688061614144048374242178918944018int, 58845949594095997825311080134018585167int, 232377574226114210749501055602828051165int, 0int, 232377574226114210749501055602828051165int);
    lemma_pow_mod_step(3int, 708884344963248089019000023616400nat, m, 354442172481624044509500011808200nat, 232377574226114210749501055602828051165int, 211334510398769212406931923280038509380int, 195262445563808833039821328955172692965int, 0int, 195262445563808833039821328955172692965int);
    lemma_pow_mod_step(3int, 1417768689926496178038000047232800nat, m, 708884344963248089019000023616400nat, 195262445563808833039821328955172692965int, 149217391271108462163111523619653237443int, 170833901484224774376596312553982984414int, 0int, 170833901484224774376596312553982984414int);
    lemma_pow_mod_step(3int, 2835537379852992356076000094465600nat, m, 1417768689926496178038000047232800nat, 170833901484224774376596312553982984414int, 114216832800395440371615777126473797112int, 72404681544750444740362291616564544972int, 0int, 72404681544750444740362291616564544972int);
    lemma_pow_mod_step(3int, 5671074759705984712152000188931200nat, m, 2835537379852992356076000094465600nat, 72404681544750444740362291616564544972int, 20517067623527401946696530698262665547int, 93862109180456454942988802171567516365int, 0int, 93862109180456454942988802171567516365int);
    lemma_pow_mod_step(3int, 11342149519411969424304000377862401nat, m, 5671074759705984712152000188931200nat, 93862109180456454942988802171567516365int, 34479631247325366939779587745913648670int, 192191537813594240319870644012110812635int, 2int, 65542724694157026578170891011364085951int);
    lemma_pow_mod_step(3int, 22684299038823938848608000755724802nat, m, 11342149519411969424304000377862401nat, 65542724694157026578170891011364085951int, 16812448909480803759763080248800825121int, 164987169339253970949449206968349256184int, 0int, 164987169339253970949449206968349256184int);
    lemma_pow_mod_step(3int, 45368598077647877697216001511449605nat, m, 22684299038823938848608000755724802nat, 164987169339253970949449206968349256184int, 106532553627298086259165967195348510198int, 85737268263942413300803763949451128410int, 1int, 1695860418514392711690771335869209253int);
    lemma_pow_mod_step(3int, 90737196155295755394432003022899210nat, m, 45368598077647877697216001511449605nat, 1695860418514392711690771335869209253int, 11255432869903466812094684644357624int, 88087226645677100991424077997363219361int, 0int, 88087226645677100991424077997363219361int);
    lemma_pow_mod_step(3int, 181474392310591510788864006045798420nat, m, 90737196155295755394432003022899210nat, 88087226645677100991424077997363219361int, 30367418037875313813926364531605552390int, 153617587574154821546067038751152313291int, 0int, 153617587574154821546067038751152313291int);
    lemma_pow_mod_step(3int, 362948784621183021577728012091596840nat, m, 181474392310591510788864006045798420nat, 153617587574154821546067038751152313291int, 92355736429604341674143312062232749427int, 245971311835347067192544705541401335502int, 0int, 245971311835347067192544705541401335502int);
    lemma_pow_mod_step(3int, 725897569242366043155456024183193681nat, m, 362948784621183021577728012091596840nat, 245971311835347067192544705541401335502int, 236783212861297347661005441558813259963int, 93188000691109186172655229190025083153int, 1int, 24048057700014711327245167057591073482int);
}

proof fn lemma_certificate_11_10()
    requires
        pow_mod(3int, 725897569242366043155456024183193681nat, 255515944373312847190720520512484175977int) == 24048057700014711327245167057591073482int,
    ensures
        pow_mod(3int, 23228722215755713380974592773862197816nat, 255515944373312847190720520512484175977int) == 216514664320154426008163201710470464886int,
{
    let m: int = 255515944373312847190720520512484175977int;
    lemma_pow_mod_step(3int, 1451795138484732086310912048366387363nat, m, 725897569242366043155456024183193681nat, 24048057700014711327245167057591073482int, 2263299382594763288554001031153242122int, 202314707278485560458733697903986701130int, 2int, 95912233088830986994760052686991751436int);
    lemma_pow_mod_step(3int, 2903590276969464172621824096732774727nat, m, 1451795138484732086310912048366387363nat, 95912233088830986994760052686991751436int, 36002279539339166139185467235943748629int, 201142195490941169392004953045319576563int, 2int, 92394697726197813794573818110990377735int);
    lemma_pow_mod_step(3int, 5807180553938928345243648193465549454nat, m, 2903590276969464172621824096732774727nat, 92394697726197813794573818110990377735int, 33409970516137702329252725729312005741int, 167664628044991226906993472448505446268int, 0int, 167664628044991226906993472448505446268int);
    lemma_pow_mod_step(3int, 11614361107877856690487296386931098908nat, m, 5807180553938928345243648193465549454nat, 167664628044991226906993472448505446268int, 110018290899271699571943184538326156941int, 67937066364045015028203289284271121467int, 0int, 67937066364045015028203289284271121467int);
    lemma_pow_mod_step(3int, 23228722215755713380974592773862197816nat, m, 11614361107877856690487296386931098908nat, 67937066364045015028203289284271121467int, 18063236709054125534631663651526343339int, 216514664320154426008163201710470464886int, 0int, 216514664320154426008163201710470464886int);
}

proof fn lemma_certificate_11()
    ensures
        pow_mod(3int, 23228722215755713380974592773862197816nat, 255515944373312847190720520512484175977int) == 216514664320154426008163201710470464886int,
{
    lemma_pow_mod_zero(3int, 255515944373312847190720520512484175977int);
    lemma_certificate_11_0();
    lemma_certificate_11_1();
    lemma_certificate_11_2();
    lemma_certificate_11_3();
    lemma_certificate_11_4();
    lemma_certificate_11_5();
    lemma_certificate_11_6();
    lemma_certificate_11_7();
    lemma_certificate_11_8();
    lemma_certificate_11_9();
    lemma_certificate_11_10();
}

proof fn lemma_certificate_1627_0()
    requires
        pow_mod(3int, 0nat, 255515944373312847190720520512484175977int) == 1int,
    ensures
        pow_mod(3int, 3871nat, 255515944373312847190720520512484175977int) == 186734670261566000802439990487245953626int,
{
    let m: int = 255515944373312847190720520512484175977int;
    lemma_pow_mod_step(3int, 1nat, m, 0nat, 1int, 0int, 1int, 0int, 3int);
    lemma_pow_mod_step(3int, 3nat, m, 1nat, 3int, 0int, 9int, 0int, 27int);
    lemma_pow_mod_step(3int, 7nat, m, 3nat, 27int, 0int, 729int, 0int, 2187int);
    lemma_pow_mod_step(3int, 15nat, m, 7nat, 2187int, 0int, 4782969int, 0int, 14348907int);
    lemma_pow_mod_step(3int, 30nat, m, 15nat, 14348907int, 0int, 205891132094649int, 0int, 205891132094649int);
    lemma_pow_mod_step(3int, 60nat, m, 30nat, 205891132094649int, 0int, 42391158275216203514294433201int, 0int, 42391158275216203514294433201int);
    lemma_pow_mod_step(3int, 120nat, m, 60nat, 42391158275216203514294433201int, 7032869531182643779int, 199606889700731843783943044172710809318int, 0int, 199606889700731843783943044172710809318int);
    lemma_pow_mod_step(3int, 241nat, m, 120nat, 199606889700731843783943044172710809318int, 155931210139235006759290398553687638340int, 136024252858963980930732909952463466944int, 1int, 152556814203579095601478209344906224855int);
    lemma_pow_mod_step(3int, 483nat, m, 241nat, 152556814203579095601478209344906224855int, 91084654685745484083181349533447400307int, 189662411455797517930869347322067946086int, 2int, 57955345620766859411167000941235486304int);
    lemma_pow_mod_step(3int, 967nat, m, 483nat, 57955345620766859411167000941235486304int, 13145254376436282389169211600326484941int, 112184170262844910906019258770087118059int, 1int, 81036566415221885527337255797777178200int);
    lemma_pow_mod_step(3int, 1935nat, m, 967nat, 81036566415221885527337255797777178200int, 25700647028015934371977495415507869966int, 18810930994966179703359770270578233218int, 0int, 56432792984898539110079310811734699654int);
    lemma_pow_mod_step(3int, 3871nat, m, 1935nat, 56432792984898539110079310811734699654int, 12463645397500419064708826858250926528int, 232588853002730565061293677170738101860int, 2int, 186734670261566000802439990487245953626int);
}

proof fn lemma_certificate_1627_1()
    requires
        pow_mod(3int, 3871nat, 255515944373312847190720520512484175977int) == 186734670261566000802439990487245953626int,
    ensures
        pow_mod(3int, 15857724nat, 255515944373312847190720520512484175977int) == 23605081119323699852054656528869774229int,
{
    let m: int = 255515944373312847190720520512484175977int;
    lemma_pow_mod_step(3int, 7743nat, m, 3871nat, 186734670261566000802439990487245953626int, 136468341195766620150158504513929379945int, 176797089460051354636722205426267966611int, 2int, 19359379633528369528725575253835547879int);
    lemma_pow_mod_step(3int, 15486nat, m, 7743nat, 19359379633528369528725575253835547879int, 1466779620012696159294199826573259542int, 92775678432017101978921153027278976107int, 0int, 92775678432017101978921153027278976107int);
    lemma_pow_mod_step(3int, 30972nat, m, 15486nat, 92775678432017101978921153027278976107int, 33686064208758740838484537720665360259int, 222960569026448110577149642944818577406int, 0int, 222960569026448110577149642944818577406int);
    lemma_pow_mod_step(3int, 61944nat, m, 30972nat, 222960569026448110577149642944818577406int, 194553085376027909772032064944902533326int, 50447700605797270964349297342722579334int, 0int, 50447700605797270964349297342722579334int);
    lemma_pow_mod_step(3int, 123888nat, m, 61944nat, 50447700605797270964349297342722579334int, 9960124025348164111321829113967533940int, 254658539395915765119514328978243724176int, 0int, 254658539395915765119514328978243724176int);
    lemma_pow_mod_step(3int, 247776nat, m, 123888nat, 254658539395915765119514328978243724176int, 253804011512146121165452497666702137240int, 177097849664874140604246551183801795496int, 0int, 177097849664874140604246551183801795496int);
    lemma_pow_mod_step(3int, 495553nat, m, 247776nat, 177097849664874140604246551183801795496int, 122746345371307138793306318412367406807int, 159104103350755404721495616295670210577int, 1int, 221796365678953366973766328374526455754int);
    lemma_pow_mod_step(3int, 991107nat, m, 495553nat, 221796365678953366973766328374526455754int, 192526646229635410131184320933109504123int, 150140635117490976336528766870180655345int, 1int, 194905960979160081818865780098057790058int);
    lemma_pow_mod_step(3int, 1982215nat, m, 991107nat, 194905960979160081818865780098057790058int, 148673045505560758751427214201072992762int, 147899921940580493401719346195948364890int, 1int, 188183821448428633014437518075360918693int);
    lemma_pow_mod_step(3int, 3964431nat, m, 1982215nat, 188183821448428633014437518075360918693int, 138594680429002480007965736838864429907int, 200337261751414033651054184948187084110int, 2int, 89979896507616406571721513819592900376int);
    lemma_pow_mod_step(3int, 7928862nat, m, 3964431nat, 89979896507616406571721513819592900376int, 31686405305856048725243454454617437249int, 193619705142748106698303371414590174103int, 0int, 193619705142748106698303371414590174103int);
    lemma_pow_mod_step(3int, 15857724nat, m, 7928862nat, 193619705142748106698303371414590174103int, 146717224678524533718273285572330406940int, 23605081119323699852054656528869774229int, 0int, 23605081119323699852054656528869774229int);
}

proof fn lemma_certificate_1627_2()
    requires
        pow_mod(3int, 15857724nat, 255515944373312847190720520512484175977int) == 23605081119323699852054656528869774229int,
    ensures
        pow_mod(3int, 64953237671nat, 255515944373312847190720520512484175977int) == 176699641475055229373655892306584691283int,
{
    let m: int = 255515944373312847190720520512484175977int;
    lemma_pow_mod_step(3int, 31715448nat, m, 15857724nat, 23605081119323699852054656528869774229int, 2180685264148425860684937910146682703int, 75959849440278072591661828786398518610int, 0int, 75959849440278072591661828786398518610int);
    lemma_pow_mod_step(3int, 63430896nat, m, 31715448nat, 75959849440278072591661828786398518610int, 22581364701686871907114188022759699329int, 127932277751748086031889719895671512667int, 0int, 127932277751748086031889719895671512667int);
    lemma_pow_mod_step(3int, 126861792nat, m, 63430896nat, 127932277751748086031889719895671512667int, 64053410564620019359237328482422216433int, 131516569640077677591273071527988222848int, 0int, 131516569640077677591273071527988222848int);
    lemma_pow_mod_step(3int, 253723584nat, m, 126861792nat, 131516569640077677591273071527988222848int, 67692871896177182462655475640090404334int, 209151244958184752860754711294569746786int, 0int, 209151244958184752860754711294569746786int);
    lemma_pow_mod_step(3int, 507447169nat, m, 253723584nat, 209151244958184752860754711294569746786int, 171199661824811878704241671955223632933int, 141047769835103772116134289143332679255int, 1int, 167627365131998469157682346917513861788int);
    lemma_pow_mod_step(3int, 1014894338nat, m, 507447169nat, 167627365131998469157682346917513861788int, 109969393925740104128452170473324975982int, 234465364022185766581244853660580172530int, 0int, 234465364022185766581244853660580172530int);
    lemma_pow_mod_step(3int, 2029788677nat, m, 1014894338nat, 234465364022185766581244853660580172530int, 215149027435008860631396954545482936042int, 61715159425770978509011634765602737866int, 0int, 185145478277312935527034904296808213598int);
    lemma_pow_mod_step(3int, 4059577354nat, m, 2029788677nat, 185145478277312935527034904296808213598int, 134155417230844175077658154093945454910int, 10027666118779202359686138900233408534int, 0int, 10027666118779202359686138900233408534int);
    lemma_pow_mod_step(3int, 8119154708nat, m, 4059577354nat, 10027666118779202359686138900233408534int, 393533515242403953809916506261502718int, 44756048712583544000622883431768223670int, 0int, 44756048712583544000622883431768223670int);
    lemma_pow_mod_step(3int, 16238309417nat, m, 8119154708nat, 44756048712583544000622883431768223670int, 7839447754526756830227402544344708340int, 203416665442007627035572336081848720720int, 2int, 99218107579397186725275967220577810206int);
    lemma_pow_mod_step(3int, 32476618835nat, m, 16238309417nat, 99218107579397186725275967220577810206int, 38526882914415129873664887187746267485int, 149514659697847491203705775466504554591int, 1int, 193028034720229626420396805887029487796int);
    lemma_pow_mod_step(3int, 64953237671nat, m, 32476618835nat, 193028034720229626420396805887029487796int, 145821906649852672197481569006072791281int, 229243843407226974585032311110517681079int, 2int, 176699641475055229373655892306584691283int);
}

proof fn lemma_certificate_1627_3()
    requires
        pow_mod(3int, 64953237671nat, 255515944373312847190720520512484175977int) == 176699641475055229373655892306584691283int,
    ensures
        pow_mod(3int, 266048461503371nat, 255515944373312847190720520512484175977int) == 140837425708172169457885986427975071290int,
{
    let m: int = 255515944373312847190720520512484175977int;
    lemma_pow_mod_step(3int, 129906475343nat, m, 64953237671nat, 176699641475055229373655892306584691283int, 122194970548671928780936718462586647165int, 91725089471415342935665824774148030884int, 1int, 19659324040933181616276953809959916675int);
    lemma_pow_mod_step(3int, 259812950686nat, m, 129906475343nat, 19659324040933181616276953809959916675int, 1512582796718731456974041110551299425int, 46085476118830630808543524165224142400int, 0int, 46085476118830630808543524165224142400int);
    lemma_pow_mod_step(3int, 519625901373nat, m, 259812950686nat, 46085476118830630808543524165224142400int, 8312088368138385163526604424357536779int, 239714586166976562102932688000192001917int, 2int, 208111869754303991927357022975607653797int);
    lemma_pow_mod_step(3int, 1039251802747nat, m, 519625901373nat, 208111869754303991927357022975607653797int, 169502339428787221746336075566847947976int, 177402811593307860296377897553283544657int, 2int, 21176546033297886507692651634882282017int);
    lemma_pow_mod_step(3int, 2078503605495nat, m, 1039251802747nat, 21176546033297886507692651634882282017int, 1755061129356364488083878443049078917int, 211140569537581892240708380965933011380int, 2int, 122389819866119982340684101872830682186int);
    lemma_pow_mod_step(3int, 4157007210990nat, m, 2078503605495nat, 122389819866119982340684101872830682186int, 58623613659804921465614216740043936302int, 109847650954698482779636382772191121542int, 0int, 109847650954698482779636382772191121542int);
    lemma_pow_mod_step(3int, 8314014421980nat, m, 4157007210990nat, 109847650954698482779636382772191121542int, 47224083999376231651068134060992142758int, 1759289297643422482891175886638333198int, 0int, 1759289297643422482891175886638333198int);
    lemma_pow_mod_step(3int, 16628028843960nat, m, 8314014421980nat, 1759289297643422482891175886638333198int, 12113133841388380452228254167563803int, 118957597118836086083070384465641546673int, 0int, 118957597118836086083070384465641546673int);
    lemma_pow_mod_step(3int, 33256057687921nat, m, 16628028843960nat, 118957597118836086083070384465641546673int, 55381709924186240505946109751284000587int, 148539064084856076493584153490958070430int, 1int, 190101247881255382290031939960390035313int);
    lemma_pow_mod_step(3int, 66512115375842nat, m, 33256057687921nat, 190101247881255382290031939960390035313int, 141433383089438853354960508095470271510int, 65607459051832656952038801402577492699int, 0int, 65607459051832656952038801402577492699int);
    lemma_pow_mod_step(3int, 133024230751685nat, m, 66512115375842nat, 65607459051832656952038801402577492699int, 16845675497060926075563234287470994154int, 65203887938014679613660171511724066143int, 0int, 195611663814044038840980514535172198429int);
    lemma_pow_mod_step(3int, 266048461503371nat, m, 133024230751685nat, 195611663814044038840980514535172198429int, 149751605967079642018565720090108144509int, 217289771484932621279775675817647807748int, 2int, 140837425708172169457885986427975071290int);
}

proof fn lemma_certificate_1627_4()
    requires
        pow_mod(3int, 266048461503371nat, 255515944373312847190720520512484175977int) == 140837425708172169457885986427975071290int,
    ensures
        pow_mod(3int, 1089734498317811301nat, 255515944373312847190720520512484175977int) == 19164722719333902693445850754012623268int,
{
    let m: int = 255515944373312847190720520512484175977int;
    lemma_pow_mod_step(3int, 532096923006743nat, m, 266048461503371nat, 140837425708172169457885986427975071290int, 77627955972584637779045869997528537643int, 36881625738240087165531525165901461889int, 0int, 110644877214720261496594575497704385667int);
    lemma_pow_mod_step(3int, 1064193846013487nat, m, 532096923006743nat, 110644877214720261496594575497704385667int, 47912034937335827130786655268105548445int, 118846747136897411410939157468396329124int, 1int, 101024297037379387042096951892704811395int);
    lemma_pow_mod_step(3int, 2128387692026975nat, m, 1064193846013487nat, 101024297037379387042096951892704811395int, 39942355131410771298971799568043101265int, 86339962893161212778162483569430535120int, 1int, 3503944306170791143766930195807429383int);
    lemma_pow_mod_step(3int, 4256775384053950nat, m, 2128387692026975nat, 3503944306170791143766930195807429383int, 48050330991513003496038815511494333int, 51811347177389842794129322559121522348int, 0int, 51811347177389842794129322559121522348int);
    lemma_pow_mod_step(3int, 8513550768107900nat, m, 4256775384053950nat, 51811347177389842794129322559121522348int, 10505863745293516881584636749143617156int, 190000324180228659226073046123243171692int, 0int, 190000324180228659226073046123243171692int);
    lemma_pow_mod_step(3int, 17027101536215801nat, m, 8513550768107900nat, 190000324180228659226073046123243171692int, 141283250550694131255941298827610635488int, 43609591901114808458740568834796871088int, 0int, 130828775703344425376221706504390613264int);
    lemma_pow_mod_step(3int, 34054203072431603nat, m, 17027101536215801nat, 130828775703344425376221706504390613264int, 66986694681679085080030330396460037841int, 74474551076009804894431986078889588039int, 0int, 223423653228029414683295958236668764117int);
    lemma_pow_mod_step(3int, 68108406144863206nat, m, 34054203072431603nat, 223423653228029414683295958236668764117int, 195362089611236004850193851390179059251int, 251928475139516815145740469938392976462int, 0int, 251928475139516815145740469938392976462int);
    lemma_pow_mod_step(3int, 136216812289726412nat, m, 68108406144863206nat, 251928475139516815145740469938392976462int, 248391374330027917176678293035975438227int, 103285009736848048890931513036125164665int, 0int, 103285009736848048890931513036125164665int);
    lemma_pow_mod_step(3int, 272433624579452825nat, m, 136216812289726412nat, 103285009736848048890931513036125164665int, 41750010014071690011702179873976958844int, 33814509602049999434209473021582071637int, 0int, 101443528806149998302628419064746214911int);
    lemma_pow_mod_step(3int, 544867249158905650nat, m, 272433624579452825nat, 101443528806149998302628419064746214911int, 40274549448895360423428237144560377446int, 152982161494333631371223379963992923179int, 0int, 152982161494333631371223379963992923179int);
    lemma_pow_mod_step(3int, 1089734498317811301nat, m, 544867249158905650nat, 152982161494333631371223379963992923179int, 91593273339081454560540534927729079205int, 6388240906444634231148616918004207756int, 0int, 19164722719333902693445850754012623268int);
}

proof fn lemma_certificate_1627_5()
    requires
        pow_mod(3int, 1089734498317811301nat, 255515944373312847190720520512484175977int) == 19164722719333902693445850754012623268int,
    ensures
        pow_mod(3int, 4463552505109755089483nat, 255515944373312847190720520512484175977int) == 74728850894354182918842834536684319491int,
{
    let m: int = 255515944373312847190720520512484175977int;
    lemma_pow_mod_step(3int, 2179468996635622602nat, m, 1089734498317811301nat, 19164722719333902693445850754012623268int, 1437431224927167420960390631078311131int, 131958414809823259000804240563533099837int, 0int, 131958414809823259000804240563533099837int);
    lemma_pow_mod_step(3int, 4358937993271245204nat, m, 2179468996635622602nat, 131958414809823259000804240563533099837int, 68148480056026090060717630450080291069int, 101630183483174268078934889913431977156int, 0int, 101630183483174268078934889913431977156int);
    lemma_pow_mod_step(3int, 8717875986542490409nat, m, 4358937993271245204nat, 101630183483174268078934889913431977156int, 40422895017984794616606392625350854706int, 180021492713267963350538684602243250574int, 2int, 29032589393178195670175012781761399768int);
    lemma_pow_mod_step(3int, 17435751973084980818nat, m, 8717875986542490409nat, 29032589393178195670175012781761399768int, 3298781408495610716297700890202324968int, 2234018375060888422379375187657560088int, 0int, 2234018375060888422379375187657560088int);
    lemma_pow_mod_step(3int, 34871503946169961636nat, m, 17435751973084980818nat, 2234018375060888422379375187657560088int, 19532394005197572779697110161811802int, 125262871436805327327628503700007087190int, 0int, 125262871436805327327628503700007087190int);
    lemma_pow_mod_step(3int, 69743007892339923273nat, m, 34871503946169961636nat, 125262871436805327327628503700007087190int, 61408249880755509038300322270888078335int, 224252740430738582408722854722760937805int, 2int, 161726332545590052844727523143314461461int);
    lemma_pow_mod_step(3int, 139486015784679846546nat, m, 69743007892339923273nat, 161726332545590052844727523143314461461int, 102363109679109951825909788926908212368int, 245075393266428356958071412127854370985int, 0int, 245075393266428356958071412127854370985int);
    lemma_pow_mod_step(3int, 278972031569359693092nat, m, 139486015784679846546nat, 245075393266428356958071412127854370985int, 235061450008548423417369652316592441091int, 110418755202393130067548202901959999318int, 0int, 110418755202393130067548202901959999318int);
    lemma_pow_mod_step(3int, 557944063138719386185nat, m, 278972031569359693092nat, 110418755202393130067548202901959999318int, 47716401926890613390302322103209113439int, 120626468684373510438268513623928810221int, 1int, 106363461679807684124085020359302254686int);
    lemma_pow_mod_step(3int, 1115888126277438772370nat, m, 557944063138719386185nat, 106363461679807684124085020359302254686int, 44275851388683492542057212037350214244int, 159546678424169216534440889042460942208int, 0int, 159546678424169216534440889042460942208int);
    lemma_pow_mod_step(3int, 2231776252554877544741nat, m, 1115888126277438772370nat, 159546678424169216534440889042460942208int, 99622521242724860826474696172522805298int, 214056004596871862535116774805175989118int, 2int, 131136125043989893223909283390559615400int);
    lemma_pow_mod_step(3int, 4463552505109755089483nat, m, 2231776252554877544741nat, 131136125043989893223909283390559615400int, 67301801199647745849179581139040101905int, 195253579880326625766761291853884223815int, 2int, 74728850894354182918842834536684319491int);
}

proof fn lemma_certificate_1627_6()
    requires
        pow_mod(3int, 4463552505109755089483nat, 255515944373312847190720520512484175977int) == 74728850894354182918842834536684319491int,
    ensures
        pow_mod(3int, 18282711060929556846522523nat, 255515944373312847190720520512484175977int) == 44739938940413345824906130637259012754int,
{
    let m: int = 255515944373312847190720520512484175977int;
    lemma_pow_mod_step(3int, 8927105010219510178966nat, m, 4463552505109755089483nat, 74728850894354182918842834536684319491int, 21855392115302680709684689786188255794int, 176203428683770891481564309134776638343int, 0int, 176203428683770891481564309134776638343int);
    lemma_pow_mod_step(3int, 17854210020439020357932nat, m, 8927105010219510178966nat, 176203428683770891481564309134776638343int, 121509631643791387080089449925522412591int, 450369216527443601517259096173259242int, 0int, 450369216527443601517259096173259242int);
    lemma_pow_mod_step(3int, 35708420040878040715864nat, m, 17854210020439020357932nat, 450369216527443601517259096173259242int, 793815163640833231116717913484343int, 230375491639541898453592010929692186453int, 0int, 230375491639541898453592010929692186453int);
    lemma_pow_mod_step(3int, 71416840081756081431728nat, m, 35708420040878040715864nat, 230375491639541898453592010929692186453int, 207708631562421554863890188997006859989int, 83289536529746156934515570880840436956int, 0int, 83289536529746156934515570880840436956int);
    lemma_pow_mod_step(3int, 142833680163512162863457nat, m, 71416840081756081431728nat, 83289536529746156934515570880840436956int, 27149565606773399086567842407061379200int, 129957571651323571819854091463883067536int, 1int, 134356770580657868268841753879165026631int);
    lemma_pow_mod_step(3int, 285667360327024325726914nat, m, 142833680163512162863457nat, 134356770580657868268841753879165026631int, 70648201015939931241139337995871220655int, 185207548908004703660902591500122005226int, 0int, 185207548908004703660902591500122005226int);
    lemma_pow_mod_step(3int, 571334720654048651453828nat, m, 285667360327024325726914nat, 185207548908004703660902591500122005226int, 134245384399164647147077594149102648383int, 67707393690779350914474852725044815885int, 0int, 67707393690779350914474852725044815885int);
    lemma_pow_mod_step(3int, 1142669441308097302907657nat, m, 571334720654048651453828nat, 67707393690779350914474852725044815885int, 17941311535926953202834255129582835059int, 103318922960192585775677820738427155582int, 1int, 54440824507264910136312941702797290769int);
    lemma_pow_mod_step(3int, 2285338882616194605815315nat, m, 1142669441308097302907657nat, 54440824507264910136312941702797290769int, 11599289352764036955212447854261870434int, 124412745220043200123533033307103247343int, 1int, 117722291286816753179878579408825566052int);
    lemma_pow_mod_step(3int, 4570677765232389211630630nat, m, 2285338882616194605815315nat, 117722291286816753179878579408825566052int, 54237468036713153321252026919959547114int, 167195128434740699184074556845816386326int, 0int, 167195128434740699184074556845816386326int);
    lemma_pow_mod_step(3int, 9141355530464778423261261nat, m, 4570677765232389211630630nat, 167195128434740699184074556845816386326int, 109403000430641980998299568193922235133int, 83421187181842785186017917819735778335int, 0int, 250263561545528355558053753459207335005int);
    lemma_pow_mod_step(3int, 18282711060929556846522523nat, m, 9141355530464778423261261nat, 250263561545528355558053753459207335005int, 245119146639030606018426340434798794357int, 185257275895679680068782390554075788236int, 2int, 44739938940413345824906130637259012754int);
}

proof fn lemma_certificate_1627_7()
    requires
        pow_mod(3int, 18282711060929556846522523nat, 255515944373312847190720520512484175977int) == 44739938940413345824906130637259012754int,
    ensures
        pow_mod(3int, 74885984505567464843356256336nat, 255515944373312847190720520512484175977int) == 74244603914731028898835355771564205301int,
{
    let m: int = 255515944373312847190720520512484175977int;
    lemma_pow_mod_step(3int, 36565422121859113693045047nat, m, 18282711060929556846522523nat, 44739938940413345824906130637259012754int, 7833805210478193603737945972137911578int, 109915323213632820696789000149716902810int, 1int, 74230025267585614899646479936666532453int);
    lemma_pow_mod_step(3int, 73130844243718227386090094nat, m, 36565422121859113693045047nat, 74230025267585614899646479936666532453int, 21564590283164718056790834718975073965int, 168325009968108049662354044571251058404int, 0int, 168325009968108049662354044571251058404int);
    lemma_pow_mod_step(3int, 146261688487436454772180188nat, m, 73130844243718227386090094nat, 168325009968108049662354044571251058404int, 110886657387486788289129005281953947662int, 34869538882072137545669623667963311442int, 0int, 34869538882072137545669623667963311442int);
    lemma_pow_mod_step(3int, 292523376974872909544360376nat, m, 146261688487436454772180188nat, 34869538882072137545669623667963311442int, 4758547435583564695913304351059495500int, 244502254869272826468843886343448515864int, 0int, 244502254869272826468843886343448515864int);
    lemma_pow_mod_step(3int, 585046753949745819088720752nat, m, 292523376974872909544360376nat, 244502254869272826468843886343448515864int, 233963296430602949975468857431912944625int, 28023684062784549346895248241503392871int, 0int, 28023684062784549346895248241503392871int);
    lemma_pow_mod_step(3int, 1170093507899491638177441505nat, m, 585046753949745819088720752nat, 28023684062784549346895248241503392871int, 3073494573408654826945293713708855724int, 85342638148310436763265230002853880293int, 1int, 511970071618463099075169496077464902int);
    lemma_pow_mod_step(3int, 2340187015798983276354883010nat, m, 1170093507899491638177441505nat, 511970071618463099075169496077464902int, 1025819953724932590669089407481420int, 105040466881876834170471604887404022264int, 0int, 105040466881876834170471604887404022264int);
    lemma_pow_mod_step(3int, 4680374031597966552709766021nat, m, 2340187015798983276354883010nat, 105040466881876834170471604887404022264int, 43181257082894780071176126307688876089int, 62540080396598953337030140565384171743int, 0int, 187620241189796860011090421696152515229int);
    lemma_pow_mod_step(3int, 9360748063195933105419532042nat, m, 4680374031597966552709766021nat, 187620241189796860011090421696152515229int, 137765785968674457603466288037309731120int, 102503152494219508859174692706443618201int, 0int, 102503152494219508859174692706443618201int);
    lemma_pow_mod_step(3int, 18721496126391866210839064084nat, m, 9360748063195933105419532042nat, 102503152494219508859174692706443618201int, 41120315591352988247882576599965788650int, 37978704918189854054976318234069215351int, 0int, 37978704918189854054976318234069215351int);
    lemma_pow_mod_step(3int, 37442992252783732421678128168nat, m, 18721496126391866210839064084nat, 37978704918189854054976318234069215351int, 5644978558189680684265012490876568783int, 205746492252310705694495067859897327210int, 0int, 205746492252310705694495067859897327210int);
    lemma_pow_mod_step(3int, 74885984505567464843356256336nat, m, 37442992252783732421678128168nat, 205746492252310705694495067859897327210int, 165671145015838942722982003981322414487int, 74244603914731028898835355771564205301int, 0int, 74244603914731028898835355771564205301int);
}

proof fn lemma_certificate_1627_8()
    requires
        pow_mod(3int, 74885984505567464843356256336nat, 255515944373312847190720520512484175977int) == 74244603914731028898835355771564205301int,
    ensures
        pow_mod(3int, 306732992534804335998387225953254nat, 255515944373312847190720520512484175977int) == 67385003913802248006731224201176602169int,
{
    let m: int = 255515944373312847190720520512484175977int;
    lemma_pow_mod_step(3int, 149771969011134929686712512672nat, m, 74885984505567464843356256336nat, 74244603914731028898835355771564205301int, 21573061610596765613230233703464955772int, 210985056829486746029544343253506611357int, 0int, 210985056829486746029544343253506611357int);
    lemma_pow_mod_step(3int, 299543938022269859373425025344nat, m, 149771969011134929686712512672nat, 210985056829486746029544343253506611357int, 174214937210748295141040572814307985909int, 198318628609043876881560229644649073356int, 0int, 198318628609043876881560229644649073356int);
    lemma_pow_mod_step(3int, 599087876044539718746850050689nat, m, 299543938022269859373425025344nat, 198318628609043876881560229644649073356int, 153924948009935990082738224359266321426int, 145771733718704166866133766457839519534int, 1int, 181799256782799653407680778861034382625int);
    lemma_pow_mod_step(3int, 1198175752089079437493700101379nat, m, 599087876044539718746850050689nat, 181799256782799653407680778861034382625int, 129349930971393060196156889994585310534int, 136012700997517319507526021569254048907int, 1int, 152522158619239111331857544195277970744int);
    lemma_pow_mod_step(3int, 2396351504178158874987400202759nat, m, 1198175752089079437493700101379nat, 152522158619239111331857544195277970744int, 91043276876235600514583977412012784958int, 163463541932593888148380049704989359570int, 1int, 234874681424468817254419628602483902733int);
    lemma_pow_mod_step(3int, 4792703008356317749974800405519nat, m, 2396351504178158874987400202759nat, 234874681424468817254419628602483902733int, 215900875029728661104670813256202037655int, 48230072103286994554609648136004455354int, 0int, 144690216309860983663828944408013366062int);
    lemma_pow_mod_step(3int, 9585406016712635499949600811039nat, m, 4792703008356317749974800405519nat, 144690216309860983663828944408013366062int, 81933277186051514744638381446011597006int, 11242677230731636899681816437903062982int, 0int, 33728031692194910699045449313709188946int);
    lemma_pow_mod_step(3int, 19170812033425270999899201622078nat, m, 9585406016712635499949600811039nat, 33728031692194910699045449313709188946int, 4452090551999689269547723392191228498int, 63931489449489596077440843952279198370int, 0int, 63931489449489596077440843952279198370int);
    lemma_pow_mod_step(3int, 38341624066850541999798403244156nat, m, 19170812033425270999899201622078nat, 63931489449489596077440843952279198370int, 15996008989790022171190724751239677938int, 239128296321164223097351050927014161474int, 0int, 239128296321164223097351050927014161474int);
    lemma_pow_mod_step(3int, 76683248133701083999596806488313nat, m, 38341624066850541999798403244156nat, 239128296321164223097351050927014161474int, 223791678604283943222961324757783655468int, 129707956910435913491301823986495560440int, 1int, 133607926357994893283184951447002505343int);
    lemma_pow_mod_step(3int, 153366496267402167999193612976627nat, m, 76683248133701083999596806488313nat, 133607926357994893283184951447002505343int, 69862873056574029269978398077749764809int, 14424190332397941964376492372825754256int, 0int, 43272570997193825893129477118477262768int);
    lemma_pow_mod_step(3int, 306732992534804335998387225953254nat, m, 153366496267402167999193612976627nat, 43272570997193825893129477118477262768int, 7328370076081849377988912046059140015int, 67385003913802248006731224201176602169int, 0int, 67385003913802248006731224201176602169int);
}

proof fn lemma_certificate_1627_9()
    requires
        pow_mod(3int, 306732992534804335998387225953254nat, 255515944373312847190720520512484175977int) == 67385003913802248006731224201176602169int,
    ensures
        pow_mod(3int, 157047292177819820031174259688066488nat, 255515944373312847190720520512484175977int) == 72473583126275438393254198129422586513int,
{
    let m: int = 255515944373312847190720520512484175977int;
    lemma_pow_mod_step(3int, 613465985069608671996774451906509nat, m, 306732992534804335998387225953254nat, 67385003913802248006731224201176602169int, 17770862650469486744174388704234946393int, 207692749826895160466247339840722103600int, 2int, 112046360734059787017300978497197958846int);
    lemma_pow_mod_step(3int, 1226931970139217343993548903813019nat, m, 613465985069608671996774451906509nat, 112046360734059787017300978497197958846int, 49133477695641945550096778380909585336int, 93432683837662525075781267967986978444int, 1int, 24782107139674728036623283391476759355int);
    lemma_pow_mod_step(3int, 2453863940278434687987097807626038nat, m, 1226931970139217343993548903813019nat, 24782107139674728036623283391476759355int, 2403579298304101520214517816346438081int, 170222525877904375477366184392241835888int, 0int, 170222525877904375477366184392241835888int);
    lemma_pow_mod_step(3int, 4907727880556869375974195615252077nat, m, 2453863940278434687987097807626038nat, 170222525877904375477366184392241835888int, 113400783607929591168650567907760091172int, 191346990259666923038519896699912573500int, 2int, 63009082032375074734118649074769368546int);
    lemma_pow_mod_step(3int, 9815455761113738751948391230504155nat, m, 4907727880556869375974195615252077nat, 63009082032375074734118649074769368546int, 15537756081327463137600830294920435082int, 104508026992139790827087478990481729002int, 1int, 58008136603106525290541916458961011029int);
    lemma_pow_mod_step(3int, 19630911522227477503896782461008311nat, m, 9815455761113738751948391230504155nat, 58008136603106525290541916458961011029int, 13169213061899693521359551122741950699int, 101806908623553965966135503975285480918int, 1int, 49904781497349050707685991413372266777int);
    lemma_pow_mod_step(3int, 39261823044454955007793564922016622nat, m, 19630911522227477503896782461008311nat, 49904781497349050707685991413372266777int, 9746895530947809807427792449900094672int, 228512247479206947363571440401049873185int, 0int, 228512247479206947363571440401049873185int);
    lemma_pow_mod_step(3int, 78523646088909910015587129844033244nat, m, 39261823044454955007793564922016622nat, 228512247479206947363571440401049873185int, 204362382848826133800029384219804762264int, 40350395872421526476845669018157112297int, 0int, 40350395872421526476845669018157112297int);
    lemma_pow_mod_step(3int, 157047292177819820031174259688066488nat, m, 78523646088909910015587129844033244nat, 40350395872421526476845669018157112297int, 6372026806602615339175331692198296448int, 72473583126275438393254198129422586513int, 0int, 72473583126275438393254198129422586513int);
}

proof fn lemma_certificate_1627()
    ensures
        pow_mod(3int, 157047292177819820031174259688066488nat, 255515944373312847190720520512484175977int) == 72473583126275438393254198129422586513int,
{
    lemma_pow_mod_zero(3int, 255515944373312847190720520512484175977int);
    lemma_certificate_1627_0();
    lemma_certificate_1627_1();
    lemma_certificate_1627_2();
    lemma_certificate_1627_3();
    lemma_certificate_1627_4();
    lemma_certificate_1627_5();
    lemma_certificate_1627_6();
    lemma_certificate_1627_7();
    lemma_certificate_1627_8();
    lemma_certificate_1627_9();
}

proof fn lemma_certificate_2657_0()
    requires
        pow_mod(3int, 0nat, 255515944373312847190720520512484175977int) == 1int,
    ensures
        pow_mod(3int, 2370nat, 255515944373312847190720520512484175977int) == 69379832078230116070358056896024480278int,
{
    let m: int = 255515944373312847190720520512484175977int;
    lemma_pow_mod_step(3int, 1nat, m, 0nat, 1int, 0int, 1int, 0int, 3int);
    lemma_pow_mod_step(3int, 2nat, m, 1nat, 3int, 0int, 9int, 0int, 9int);
    lemma_pow_mod_step(3int, 4nat, m, 2nat, 9int, 0int, 81int, 0int, 81int);
    lemma_pow_mod_step(3int, 9nat, m, 4nat, 81int, 0int, 6561int, 0int, 19683int);
    lemma_pow_mod_step(3int, 18nat, m, 9nat, 19683int, 0int, 387420489int, 0int, 387420489int);
    lemma_pow_mod_step(3int, 37nat, m, 18nat, 387420489int, 0int, 150094635296999121int, 0int, 450283905890997363int);
    lemma_pow_mod_step(3int, 74nat, m, 37nat, 450283905890997363int, 0int, 202755595904452569706561330872953769int, 0int, 202755595904452569706561330872953769int);
    lemma_pow_mod_step(3int, 148nat, m, 74nat, 202755595904452569706561330872953769int, 160889496627684210536534920673727int, 185622781455723113931215953779542849082int, 0int, 185622781455723113931215953779542849082int);
    lemma_pow_mod_step(3int, 296nat, m, 148nat, 185622781455723113931215953779542849082int, 134848011461150344727211639890172976453int, 71136388545679596084587669372698973143int, 0int, 71136388545679596084587669372698973143int);
    lemma_pow_mod_step(3int, 592nat, m, 296nat, 71136388545679596084587669372698973143int, 19804579270906833760020416065604759420int, 154869858958266283489026012318606845109int, 0int, 154869858958266283489026012318606845109int);
    lemma_pow_mod_step(3int, 1185nat, m, 592nat, 154869858958266283489026012318606845109int, 93867618604306365548579697951860475257int, 114707770549433959589328450151074920792int, 1int, 88607367274989031577264829940740586399int);
    lemma_pow_mod_step(3int, 2370nat, m, 1185nat, 88607367274989031577264829940740586399int, 30727106109409648784447109199903987699int, 69379832078230116070358056896024480278int, 0int, 69379832078230116070358056896024480278int);
}

proof fn lemma_certificate_2657_1()
    requires
        pow_mod(3int, 2370nat, 255515944373312847190720520512484175977int) == 69379832078230116070358056896024480278int,
    ensures
        pow_mod(3int, 9710394nat, 255515944373312847190720520512484175977int) == 41661832998383471834063537587159658774int,
{
    let m: int = 255515944373312847190720520512484175977int;
    lemma_pow_mod_step(3int, 4741nat, m, 2370nat, 69379832078230116070358056896024480278int, 18838593853739003927343648732924889619int, 166801114159634458924874308033114474521int, 1int, 244887398105590529583902403586859247586int);
    lemma_pow_mod_step(3int, 9482nat, m, 4741nat, 244887398105590529583902403586859247586int, 234700961217939104524019058739108594382int, 177280289103743975719127537828045266182int, 0int, 177280289103743975719127537828045266182int);
    lemma_pow_mod_step(3int, 18965nat, m, 9482nat, 177280289103743975719127537828045266182int, 122999372825007737809809872996947983461int, 131380235978201378087839854476823340727int, 1int, 138624763561291287072799042917985846204int);
    lemma_pow_mod_step(3int, 37931nat, m, 18965nat, 138624763561291287072799042917985846204int, 75207929272499043722596108725518882554int, 191750390734163141217034689433410004358int, 2int, 64219283455863729269663027275261661120int);
    lemma_pow_mod_step(3int, 75862nat, m, 37931nat, 64219283455863729269663027275261661120int, 16140348414262451917446447916277962799int, 126216661329192772138506632611944174777int, 0int, 126216661329192772138506632611944174777int);
    lemma_pow_mod_step(3int, 151724nat, m, 75862nat, 126216661329192772138506632611944174777int, 62346972656286451860866497428466785932int, 236859199550739495725200240628847044165int, 0int, 236859199550739495725200240628847044165int);
    lemma_pow_mod_step(3int, 303449nat, m, 151724nat, 236859199550739495725200240628847044165int, 219564695069872866620358930226175266712int, 186976636780859657559804117779942369601int, 2int, 49898021595953278297971312314858756849int);
    lemma_pow_mod_step(3int, 606899nat, m, 303449nat, 49898021595953278297971312314858756849int, 9744255159093180146239332438850916878int, 224650109689172513307054103524952968995int, 2int, 162918440320891845539721269549890555031int);
    lemma_pow_mod_step(3int, 1213799nat, m, 606899nat, 162918440320891845539721269549890555031int, 103877737499672834213989901151073763613int, 76432143584692094834770896348848086060int, 0int, 229296430754076284504312689046544258180int);
    lemma_pow_mod_step(3int, 2427598nat, m, 1213799nat, 229296430754076284504312689046544258180int, 205767406357011068598723976230460175580int, 22576796662489424649240679895458870740int, 0int, 22576796662489424649240679895458870740int);
    lemma_pow_mod_step(3int, 4855197nat, m, 2427598nat, 22576796662489424649240679895458870740int, 1994833429238751052961484366778611532int, 227475287688353311979913101990818580836int, 2int, 171393974318434241558298264947487390554int);
    lemma_pow_mod_step(3int, 9710394nat, m, 4855197nat, 171393974318434241558298264947487390554int, 114966972040497984238398400167985431646int, 41661832998383471834063537587159658774int, 0int, 41661832998383471834063537587159658774int);
}

proof fn lemma_certificate_2657_2()
    requires
        pow_mod(3int, 9710394nat, 255515944373312847190720520512484175977int) == 41661832998383471834063537587159658774int,
    ensures
        pow_mod(3int, 39773774065nat, 255515944373312847190720520512484175977int) == 170868303050147399663206047866214859003int,
{
    let m: int = 255515944373312847190720520512484175977int;
    lemma_pow_mod_step(3int, 19420788nat, m, 9710394nat, 41661832998383471834063537587159658774int, 6792955066041970948324749823746262743int, 242426530527404452848646358620424458165int, 0int, 242426530527404452848646358620424458165int);
    lemma_pow_mod_step(3int, 38841576nat, m, 19420788nat, 242426530527404452848646358620424458165int, 230007653133730673309524324664549125693int, 60842308156305436364538444320931090164int, 0int, 60842308156305436364538444320931090164int);
    lemma_pow_mod_step(3int, 77683152nat, m, 38841576nat, 60842308156305436364538444320931090164int, 14487496938267235082877248235210414752int, 98992607628416171233096344466372734192int, 0int, 98992607628416171233096344466372734192int);
    lemma_pow_mod_step(3int, 155366304nat, m, 77683152nat, 98992607628416171233096344466372734192int, 38351956427252467221223720937155599068int, 242488985516861083177050543126116703428int, 0int, 242488985516861083177050543126116703428int);
    lemma_pow_mod_step(3int, 310732609nat, m, 155366304nat, 242488985516861083177050543126116703428int, 230126179566655162823034841396973357296int, 75558203482653101172453215882346072992int, 0int, 226674610447959303517359647647038218976int);
    lemma_pow_mod_step(3int, 621465219nat, m, 310732609nat, 226674610447959303517359647647038218976int, 201088738895546539306830602974151617780int, 76923321201720909945596890989364417516int, 0int, 230769963605162729836790672968093252548int);
    lemma_pow_mod_step(3int, 1242930439nat, m, 621465219nat, 230769963605162729836790672968093252548int, 208420559558201418582697044876822770998int, 174533447652822225306823920185904577258int, 2int, 12568454211840981539030719532745379820int);
    lemma_pow_mod_step(3int, 2485860879nat, m, 1242930439nat, 12568454211840981539030719532745379820int, 618223812461395429875207680437449919int, 103358992956035215346654934926142836537int, 1int, 54561034494792798849244284265944333634int);
    lemma_pow_mod_step(3int, 4971721758nat, m, 2485860879nat, 54561034494792798849244284265944333634int, 11650570348724156714382839950887817376int, 251765444595372396497710946524881269604int, 0int, 251765444595372396497710946524881269604int);
    lemma_pow_mod_step(3int, 9943443516nat, m, 4971721758nat, 251765444595372396497710946524881269604int, 248069995192541924686048537559605711792int, 198719170108421736675278380361262296032int, 0int, 198719170108421736675278380361262296032int);
    lemma_pow_mod_step(3int, 19886887032nat, m, 9943443516nat, 198719170108421736675278380361262296032int, 154547336235445835583939669555710896409int, 40493759489575550318437733706029578431int, 0int, 40493759489575550318437733706029578431int);
    lemma_pow_mod_step(3int, 39773774065nat, m, 19886887032nat, 40493759489575550318437733706029578431int, 6417386443813843290324467972850351213int, 142128082474486748951308856126233011660int, 1int, 170868303050147399663206047866214859003int);
}

proof fn lemma_certificate_2657_3()
    requires
        pow_mod(3int, 39773774065nat, 255515944373312847190720520512484175977int) == 170868303050147399663206047866214859003int,
    ensures
        pow_mod(3int, 162913378572068nat, 255515944373312847190720520512484175977int) == 97452980713350320594998688407369301907int,
{
    let m: int = 255515944373312847190720520512484175977int;
    lemma_pow_mod_step(3int, 79547548130nat, m, 39773774065nat, 170868303050147399663206047866214859003int, 114262838113073780394151805764819069900int, 149867778060998663937956945390106361709int, 0int, 149867778060998663937956945390106361709int);
    lemma_pow_mod_step(3int, 159095096261nat, m, 79547548130nat, 149867778060998663937956945390106361709int, 87901954439781744378650562703597256158int, 172711451151435904052840180022322484315int, 2int, 7102464707682017777079499041999100991int);
    lemma_pow_mod_step(3int, 318190192523nat, m, 159095096261nat, 7102464707682017777079499041999100991int, 197424098318372093385610386122168770int, 58824161978833376654138643506643543791int, 0int, 176472485936500129962415930519930631373int);
    lemma_pow_mod_step(3int, 636380385047nat, m, 318190192523nat, 176472485936500129962415930519930631373int, 121880997950986940322143563077336465299int, 173174128944812781223068997194541943006int, 2int, 8490498087812649287765950558657477064int);
    lemma_pow_mod_step(3int, 1272760770094nat, m, 636380385047nat, 8490498087812649287765950558657477064int, 282129391009070368549047193303280309int, 124008145059026598741761357704771123203int, 0int, 124008145059026598741761357704771123203int);
    lemma_pow_mod_step(3int, 2545521540188nat, m, 1272760770094nat, 124008145059026598741761357704771123203int, 60184189596063139843680317143475484355int, 178164031959934136919744361245074639374int, 0int, 178164031959934136919744361245074639374int);
    lemma_pow_mod_step(3int, 5091043080377nat, m, 2545521540188nat, 178164031959934136919744361245074639374int, 124228733991817943808408702994324056073int, 17916510437763793318504547616403553555int, 0int, 53749531313291379955513642849210660665int);
    lemma_pow_mod_step(3int, 10182086160754nat, m, 5091043080377nat, 53749531313291379955513642849210660665int, 11306582544131171926039569756683360241int, 197102623865776222279002465469449111768int, 0int, 197102623865776222279002465469449111768int);
    lemma_pow_mod_step(3int, 20364172321508nat, m, 10182086160754nat, 197102623865776222279002465469449111768int, 152043131515949564822463726425370958854int, 1152478917548023435005064925593835466int, 0int, 1152478917548023435005064925593835466int);
    lemma_pow_mod_step(3int, 40728344643017nat, m, 20364172321508nat, 1152478917548023435005064925593835466int, 5198140016859892505341496318701740int, 162874202794880166119969060462343337176int, 1int, 233106664011327651169186660874545835551int);
    lemma_pow_mod_step(3int, 81456689286034nat, m, 40728344643017nat, 233106664011327651169186660874545835551int, 212662724198143466493010881766784763128int, 215662936477814094602468019224522497545int, 0int, 215662936477814094602468019224522497545int);
    lemma_pow_mod_step(3int, 162913378572068nat, m, 81456689286034nat, 215662936477814094602468019224522497545int, 182025831242378737482058285654179454734int, 97452980713350320594998688407369301907int, 0int, 97452980713350320594998688407369301907int);
}

proof fn lemma_certificate_2657_4()
    requires
        pow_mod(3int, 162913378572068nat, 255515944373312847190720520512484175977int) == 97452980713350320594998688407369301907int,
    ensures
        pow_mod(3int, 667293198631192693nat, 255515944373312847190720520512484175977int) == 11091457237593293049758123396314512931int,
{
    let m: int = 255515944373312847190720520512484175977int;
    lemma_pow_mod_step(3int, 325826757144137nat, m, 162913378572068nat, 97452980713350320594998688407369301907int, 37168261547080756797996834231950709003int, 243259279415014966194777819513143615718int, 2int, 218745949498419204202892417514462495200int);
    lemma_pow_mod_step(3int, 651653514288274nat, m, 325826757144137nat, 218745949498419204202892417514462495200int, 187267336836153215529542964929574297987int, 101404411298390517563568586144078181701int, 0int, 101404411298390517563568586144078181701int);
    lemma_pow_mod_step(3int, 1303307028576548nat, m, 651653514288274nat, 101404411298390517563568586144078181701int, 40243495003778459912108197453673129748int, 126448733025543935647299523455985589605int, 0int, 126448733025543935647299523455985589605int);
    lemma_pow_mod_step(3int, 2606614057153096nat, m, 1303307028576548nat, 126448733025543935647299523455985589605int, 62576455347947644646692915991151053142int, 90761313424235972625167224205877286291int, 0int, 90761313424235972625167224205877286291int);
    lemma_pow_mod_step(3int, 5213228114306192nat, m, 2606614057153096nat, 90761313424235972625167224205877286291int, 32239146698638537129771277745119663850int, 238273023183276165393657817119891205231int, 0int, 238273023183276165393657817119891205231int);
    lemma_pow_mod_step(3int, 10426456228612385nat, m, 5213228114306192nat, 238273023183276165393657817119891205231int, 222193701908285995220522687924057318482int, 2097466114946837156488288977739256447int, 0int, 6292398344840511469464866933217769341int);
    lemma_pow_mod_step(3int, 20852912457224771nat, m, 10426456228612385nat, 6292398344840511469464866933217769341int, 154958145673695187244410659879902321int, 240157617045134924340478151030944831664int, 2int, 209440962388779078639993412067866143038int);
    lemma_pow_mod_step(3int, 41705824914449543nat, m, 20852912457224771nat, 209440962388779078639993412067866143038int, 171674283708298676587651260430745673969int, 3144943798533731130878003193811826731int, 0int, 9434831395601193392634009581435480193int);
    lemma_pow_mod_step(3int, 83411649828899086nat, m, 41705824914449543nat, 9434831395601193392634009581435480193int, 348377646967377156428821583160865226int, 1581588909689023450598986883531441447int, 0int, 1581588909689023450598986883531441447int);
    lemma_pow_mod_step(3int, 166823299657798173nat, m, 83411649828899086nat, 1581588909689023450598986883531441447int, 9789696237494653566275591031437972int, 206769308031307271906732928831781455165int, 2int, 109276035347296121338757745470376013541int);
    lemma_pow_mod_step(3int, 333646599315596346nat, m, 166823299657798173nat, 109276035347296121338757745470376013541int, 46733881639014874653913937495291678434int, 162398141626014065975539385209263578663int, 0int, 162398141626014065975539385209263578663int);
    lemma_pow_mod_step(3int, 667293198631192693nat, m, 333646599315596346nat, 162398141626014065975539385209263578663int, 103215306067363540800343840623744489829int, 88869133870302046746826214636266229636int, 1int, 11091457237593293049758123396314512931int);
}

proof fn lemma_certificate_2657_5()
    requires
        pow_mod(3int, 667293198631192693nat, 255515944373312847190720520512484175977int) == 11091457237593293049758123396314512931int,
    ensures
        pow_mod(3int, 2733232941593365273085nat, 255515944373312847190720520512484175977int) == 185855572500618768403191697562234477077int,
{
    let m: int = 255515944373312847190720520512484175977int;
    lemma_pow_mod_step(3int, 1334586397262385387nat, m, 667293198631192693nat, 11091457237593293049758123396314512931int, 481458892732055315886901388696234080int, 195633580417630544383602080883861514601int, 2int, 75868852506265938769365201626616191849int);
    lemma_pow_mod_step(3int, 2669172794524770774nat, m, 1334586397262385387nat, 75868852506265938769365201626616191849int, 22527293921853296110179313431054599577int, 138002925752456956025900079028236277072int, 0int, 138002925752456956025900079028236277072int);
    lemma_pow_mod_step(3int, 5338345589049541548nat, m, 2669172794524770774nat, 138002925752456956025900079028236277072int, 74534712747371183507315756807396100530int, 135776521653708850818270239726649925374int, 0int, 135776521653708850818270239726649925374int);
    lemma_pow_mod_step(3int, 10676691178099083097nat, m, 5338345589049541548nat, 135776521653708850818270239726649925374int, 72149172051063301194719717449967207309int, 142933509041745033509410174614972423983int, 1int, 173284582751922253337510003332433095972int);
    lemma_pow_mod_step(3int, 21353382356198166195nat, m, 10676691178099083097nat, 173284582751922253337510003332433095972int, 117517310683505016235340642963303666933int, 211747872613768738815170771747994756243int, 2int, 124211729094680522064071274219015916775int);
    lemma_pow_mod_step(3int, 42706764712396332391nat, m, 21353382356198166195nat, 124211729094680522064071274219015916775int, 60381960439028188921608832027342818783int, 224018875279782427854696523899533424634int, 2int, 161024737092721589182648530673631921948int);
    lemma_pow_mod_step(3int, 85413529424792664783nat, m, 42706764712396332391nat, 161024737092721589182648530673631921948int, 101476900079070907374402943641694873046int, 60234921016584782289566674711426098762int, 0int, 180704763049754346868700024134278296286int);
    lemma_pow_mod_step(3int, 170827058849585329567nat, m, 85413529424792664783nat, 180704763049754346868700024134278296286int, 127797157507946131097633654001116790420int, 243198217242414047665996805338093653456int, 2int, 218562762980616448616549374989312608414int);
    lemma_pow_mod_step(3int, 341654117699170659135nat, m, 170827058849585329567nat, 218562762980616448616549374989312608414int, 186953818004910338642303949265193608917int, 225365745024842654384664685716959208487int, 2int, 165065346327902268772553016125909273507int);
    lemma_pow_mod_step(3int, 683308235398341318271nat, m, 341654117699170659135nat, 165065346327902268772553016125909273507int, 106633535629943508393141457738855617058int, 84070822298866804340018656113537063383int, 0int, 252212466896600413020055968340611190149int);
    lemma_pow_mod_step(3int, 1366616470796682636542nat, m, 683308235398341318271nat, 252212466896600413020055968340611190149int, 248951698940289579848447200743468922146int, 76015675035064136622893068217058155559int, 0int, 76015675035064136622893068217058155559int);
    lemma_pow_mod_step(3int, 2733232941593365273085nat, m, 1366616470796682636542nat, 76015675035064136622893068217058155559int, 22614568594569441187450121004514412719int, 147123838957977205197970739358239551018int, 1int, 185855572500618768403191697562234477077int);
}

proof fn lemma_certificate_2657_6()
    requires
        pow_mod(3int, 2733232941593365273085nat, 255515944373312847190720520512484175977int) == 185855572500618768403191697562234477077int,
    ensures
        pow_mod(3int, 11195322128766424158559332nat, 255515944373312847190720520512484175977int) == 223126428757828190559625190410366123282int,
{
    let m: int = 255515944373312847190720520512484175977int;
    lemma_pow_mod_step(3int, 5466465883186730546171nat, m, 2733232941593365273085nat, 185855572500618768403191697562234477077int, 135186451531439150579302795747867930766int, 81467799647990518240112278810042055547int, 0int, 244403398943971554720336836430126166641int);
    lemma_pow_mod_step(3int, 10932931766373461092343nat, m, 5466465883186730546171nat, 244403398943971554720336836430126166641int, 233774144943750455042215124320884221880int, 38981456523219577877955199088667446121int, 0int, 116944369569658733633865597266002338363int);
    lemma_pow_mod_step(3int, 21865863532746922184686nat, m, 10932931766373461092343nat, 116944369569658733633865597266002338363int, 53523022242651487146170265033091188019int, 116068949860794942250355427566751500206int, 0int, 116068949860794942250355427566751500206int);
    lemma_pow_mod_step(3int, 43731727065493844369372nat, m, 21865863532746922184686nat, 116068949860794942250355427566751500206int, 52724698471673152968741143556275073586int, 105295256974106265320219775485369598914int, 0int, 105295256974106265320219775485369598914int);
    lemma_pow_mod_step(3int, 87463454130987688738744nat, m, 43731727065493844369372nat, 105295256974106265320219775485369598914int, 43390995299473985495754966551785945351int, 232681515982224579914776429040040946469int, 0int, 232681515982224579914776429040040946469int);
    lemma_pow_mod_step(3int, 174926908261975377477489nat, m, 87463454130987688738744nat, 232681515982224579914776429040040946469int, 211887708270313765450484040261262129752int, 184517946336453397295710396183548200257int, 2int, 42521950262734497505690147525676248817int);
    lemma_pow_mod_step(3int, 349853816523950754954979nat, m, 174926908261975377477489nat, 42521950262734497505690147525676248817int, 7076334350019190495503551972704128410int, 9445905406319848780289523687648692919int, 0int, 28337716218959546340868571062946078757int);
    lemma_pow_mod_step(3int, 699707633047901509909958nat, m, 349853816523950754954979nat, 28337716218959546340868571062946078757int, 3142763409445200691308814843109358079int, 75510661422384656665854333268703996866int, 0int, 75510661422384656665854333268703996866int);
    lemma_pow_mod_step(3int, 1399415266095803019819916nat, m, 699707633047901509909958nat, 75510661422384656665854333268703996866int, 22315084886113809580761309482237738487int, 37132202257804220298141521241124095157int, 0int, 37132202257804220298141521241124095157int);
    lemma_pow_mod_step(3int, 2798830532191606039639833nat, m, 1399415266095803019819916nat, 37132202257804220298141521241124095157int, 5396142490818621942804759625741904977int, 55506575295146014858329729865910717120int, 0int, 166519725885438044574989189597732151360int);
    lemma_pow_mod_step(3int, 5597661064383212079279666nat, m, 2798830532191606039639833nat, 166519725885438044574989189597732151360int, 108520895543211897036872218622752758132int, 210248744988612324012509134771944054636int, 0int, 210248744988612324012509134771944054636int);
    lemma_pow_mod_step(3int, 11195322128766424158559332nat, m, 5597661064383212079279666nat, 210248744988612324012509134771944054636int, 173001081704330002406184864770818098382int, 223126428757828190559625190410366123282int, 0int, 223126428757828190559625190410366123282int);
}

proof fn lemma_certificate_2657_7()
    requires
        pow_mod(3int, 11195322128766424158559332nat, 255515944373312847190720520512484175977int) == 223126428757828190559625190410366123282int,
    ensures
        pow_mod(3int, 45856039439427273353459024862nat, 255515944373312847190720520512484175977int) == 59272964871896163948249569650097296735int,
{
    let m: int = 255515944373312847190720520512484175977int;
    lemma_pow_mod_step(3int, 22390644257532848317118664nat, m, 11195322128766424158559332nat, 223126428757828190559625190410366123282int, 194842648009021759074342774107837790895int, 68291011698312259260535293493514122109int, 0int, 68291011698312259260535293493514122109int);
    lemma_pow_mod_step(3int, 44781288515065696634237328nat, m, 22390644257532848317118664nat, 68291011698312259260535293493514122109int, 18251942320927485019274959876296990906int, 22672300714203575946982236430889942719int, 0int, 22672300714203575946982236430889942719int);
    lemma_pow_mod_step(3int, 89562577030131393268474657nat, m, 44781288515065696634237328nat, 22672300714203575946982236430889942719int, 2011746159074383606774942818863842835int, 68347983314346962861017837728490538166int, 0int, 205043949943040888583053513185471614498int);
    lemma_pow_mod_step(3int, 179125154060262786536949315nat, m, 89562577030131393268474657nat, 205043949943040888583053513185471614498int, 164541674733294672759000343847563968035int, 39913676126903583203922675281380896809int, 0int, 119741028380710749611768025844142690427int);
    lemma_pow_mod_step(3int, 358250308120525573073898631nat, m, 179125154060262786536949315nat, 119741028380710749611768025844142690427int, 56113578011093732882234831036424370108int, 139488972676999590421290804054306946813int, 1int, 162950973657685924073151891650436664462int);
    lemma_pow_mod_step(3int, 716500616241051146147797263nat, m, 358250308120525573073898631nat, 162950973657685924073151891650436664462int, 103919228528429790921336586032209938815int, 188510822543242656178987486577510902189int, 2int, 54500578883102274155521418707564354613int);
    lemma_pow_mod_step(3int, 1433001232482102292295594526nat, m, 716500616241051146147797263nat, 54500578883102274155521418707564354613int, 11624766140830644145989625134077193565int, 146454997814814378098385900443462391764int, 0int, 146454997814814378098385900443462391764int);
    lemma_pow_mod_step(3int, 2866002464964204584591189053nat, m, 1433001232482102292295594526nat, 146454997814814378098385900443462391764int, 83944140697536503221335683665398506284int, 121475248310895278090907948765018692228int, 1int, 108909800559372987082003325782571900707int);
    lemma_pow_mod_step(3int, 5732004929928409169182378107nat, m, 2866002464964204584591189053nat, 108909800559372987082003325782571900707int, 46421152648512563837558365360913053228int, 194594903873371991444016478271947196093int, 2int, 72752822873490279950608393790873236325int);
    lemma_pow_mod_step(3int, 11464009859856818338364756215nat, m, 5732004929928409169182378107nat, 72752822873490279950608393790873236325int, 20714845208752736897484143329029291841int, 22387336103067794166811852748565201968int, 0int, 67162008309203382500435558245695605904int);
    lemma_pow_mod_step(3int, 22928019719713636676729512431nat, m, 11464009859856818338364756215nat, 67162008309203382500435558245695605904int, 17653439871193510698588428104469026679int, 79987623993717594499729335827135766833int, 0int, 239962871981152783499188007481407300499int);
    lemma_pow_mod_step(3int, 45856039439427273353459024862nat, m, 22928019719713636676729512431nat, 239962871981152783499188007481407300499int, 225356503957790757172649078720933332858int, 59272964871896163948249569650097296735int, 0int, 59272964871896163948249569650097296735int);
}

proof fn lemma_certificate_2657_8()
    requires
        pow_mod(3int, 45856039439427273353459024862nat, 255515944373312847190720520512484175977int) == 59272964871896163948249569650097296735int,
    ensures
        pow_mod(3int, 187826337543894111655768165835884nat, 255515944373312847190720520512484175977int) == 10901349688792864919195472621905480378int,
{
    let m: int = 255515944373312847190720520512484175977int;
    lemma_pow_mod_step(3int, 91712078878854546706918049724nat, m, 45856039439427273353459024862nat, 59272964871896163948249569650097296735int, 13749765688093704469028252226705763980int, 185924624608941493085521205628093751765int, 0int, 185924624608941493085521205628093751765int);
    lemma_pow_mod_step(3int, 183424157757709093413836099449nat, m, 91712078878854546706918049724nat, 185924624608941493085521205628093751765int, 135286923564626816505328466544361127782int, 26577130761249973251702728964768922211int, 0int, 79731392283749919755108186894306766633int);
    lemma_pow_mod_step(3int, 366848315515418186827672198898nat, m, 183424157757709093413836099449nat, 79731392283749919755108186894306766633int, 24879445120721702399511587908794356810int, 236744321318392662754494540250553803319int, 0int, 236744321318392662754494540250553803319int);
    lemma_pow_mod_step(3int, 733696631030836373655344397796nat, m, 366848315515418186827672198898nat, 236744321318392662754494540250553803319int, 219351766145049321289484881832010183350int, 12894738231428575331665922018700032811int, 0int, 12894738231428575331665922018700032811int);
    lemma_pow_mod_step(3int, 1467393262061672747310688795592nat, m, 733696631030836373655344397796nat, 12894738231428575331665922018700032811int, 650739328478603242449915053034467015int, 42567541169692003059159829570814663066int, 0int, 42567541169692003059159829570814663066int);
    lemma_pow_mod_step(3int, 2934786524123345494621377591185nat, m, 1467393262061672747310688795592nat, 42567541169692003059159829570814663066int, 7091516600569040697211876155285088102int, 56666616204134379305024689681787594702int, 0int, 169999848612403137915074069045362784106int);
    lemma_pow_mod_step(3int, 5869573048246690989242755182371nat, m, 2934786524123345494621377591185nat, 169999848612403137915074069045362784106int, 113104286306363339679131489785029979287int, 40608731195601832430325764707993230837int, 0int, 121826193586805497290977294123979692511int);
    lemma_pow_mod_step(3int, 11739146096493381978485510364742nat, m, 5869573048246690989242755182371nat, 121826193586805497290977294123979692511int, 58084913175382764219503698508138822426int, 99950566288253075854904464210371424919int, 0int, 99950566288253075854904464210371424919int);
    lemma_pow_mod_step(3int, 23478292192986763956971020729485nat, m, 11739146096493381978485510364742nat, 99950566288253075854904464210371424919int, 39097817264768239929927681476742087976int, 91682545835725757365250287515654404009int, 1int, 19531693133864424905030342034479036050int);
    lemma_pow_mod_step(3int, 46956584385973527913942041458971nat, m, 23478292192986763956971020729485nat, 19531693133864424905030342034479036050int, 1493006777369979341554782419854462463int, 239489259430202708805981127320366751149int, 2int, 207435889543982432036502340936131901493int);
    lemma_pow_mod_step(3int, 93913168771947055827884082917942nat, m, 46956584385973527913942041458971nat, 207435889543982432036502340936131901493int, 168402987048183112617369600057069759282int, 108678598746631531595609834058338460535int, 0int, 108678598746631531595609834058338460535int);
    lemma_pow_mod_step(3int, 187826337543894111655768165835884nat, m, 93913168771947055827884082917942nat, 108678598746631531595609834058338460535int, 46224269309296906830602848225969901311int, 10901349688792864919195472621905480378int, 0int, 10901349688792864919195472621905480378int);
}

proof fn lemma_certificate_2657_9()
    requires
        pow_mod(3int, 187826337543894111655768165835884nat, 255515944373312847190720520512484175977int) == 10901349688792864919195472621905480378int,
    ensures
        pow_mod(3int, 96167084822473785167753300907972968nat, 255515944373312847190720520512484175977int) == 25264823290665569537380285172105507303int,
{
    let m: int = 255515944373312847190720520512484175977int;
    lemma_pow_mod_step(3int, 375652675087788223311536331671769nat, m, 187826337543894111655768165835884nat, 10901349688792864919195472621905480378int, 465095927100807486443248410626732463int, 95460569590095859111926679762352381533int, 1int, 30865764396974730145059518774572968622int);
    lemma_pow_mod_step(3int, 751305350175576446623072663343538nat, m, 375652675087788223311536331671769nat, 30865764396974730145059518774572968622int, 3728516489044025058994158932014021913int, 240152735571796117968036966804370394883int, 0int, 240152735571796117968036966804370394883int);
    lemma_pow_mod_step(3int, 1502610700351152893246145326687077nat, m, 751305350175576446623072663343538nat, 240152735571796117968036966804370394883int, 225713258497698168429338579714512757268int, 149698353995763489619884443688154832853int, 1int, 193579117613977621668932810551980322582int);
    lemma_pow_mod_step(3int, 3005221400702305786492290653374155nat, m, 1502610700351152893246145326687077nat, 193579117613977621668932810551980322582int, 146655719932129623712109596047772485007int, 253332792088807329565445812542797069885int, 2int, 248966487519796294314896396603422857701int);
    lemma_pow_mod_step(3int, 6010442801404611572984581306748310nat, m, 3005221400702305786492290653374155nat, 248966487519796294314896396603422857701int, 242584908194162714202763845009136616789int, 84956755105790666776303016713006327548int, 0int, 84956755105790666776303016713006327548int);
    lemma_pow_mod_step(3int, 12020885602809223145969162613496621nat, m, 6010442801404611572984581306748310nat, 84956755105790666776303016713006327548int, 28247357540867144710148937697865281202int, 228838674776151189746527590721505607950int, 2int, 175484135581827874858141731139548471896int);
    lemma_pow_mod_step(3int, 24041771205618446291938325226993242nat, m, 12020885602809223145969162613496621nat, 175484135581827874858141731139548471896int, 120519609515677931411789286955794298525int, 2625080109240398530491055409330300891int, 0int, 2625080109240398530491055409330300891int);
    lemma_pow_mod_step(3int, 48083542411236892583876650453986484nat, m, 24041771205618446291938325226993242nat, 2625080109240398530491055409330300891int, 26969141189332810474751526323996308int, 90472483643503039347538805689625100965int, 0int, 90472483643503039347538805689625100965int);
    lemma_pow_mod_step(3int, 96167084822473785167753300907972968nat, m, 48083542411236892583876650453986484nat, 90472483643503039347538805689625100965int, 32034283874923731838314040760658778786int, 25264823290665569537380285172105507303int, 0int, 25264823290665569537380285172105507303int);
}

proof fn lemma_certificate_2657()
    ensures
        pow_mod(3int, 96167084822473785167753300907972968nat, 255515944373312847190720520512484175977int) == 25264823290665569537380285172105507303int,
{
    lemma_pow_mod_zero(3int, 255515944373312847190720520512484175977int);
    lemma_certificate_2657_0();
    lemma_certificate_2657_1();
    lemma_certificate_2657_2();
    lemma_certificate_2657_3();
    lemma_certificate_2657_4();
    lemma_certificate_2657_5();
    lemma_certificate_2657_6();
    lemma_certificate_2657_7();
    lemma_certificate_2657_8();
    lemma_certificate_2657_9();
}

proof fn lemma_certificate_4423_0()
    requires
        pow_mod(3int, 0nat, 255515944373312847190720520512484175977int) == 1int,
    ensures
        pow_mod(3int, 2848nat, 255515944373312847190720520512484175977int) == 233841367592727282928903190510361051364int,
{
    let m: int = 255515944373312847190720520512484175977int;
    lemma_pow_mod_step(3int, 1nat, m, 0nat, 1int, 0int, 1int, 0int, 3int);
    lemma_pow_mod_step(3int, 2nat, m, 1nat, 3int, 0int, 9int, 0int, 9int);
    lemma_pow_mod_step(3int, 5nat, m, 2nat, 9int, 0int, 81int, 0int, 243int);
    lemma_pow_mod_step(3int, 11nat, m, 5nat, 243int, 0int, 59049int, 0int, 177147int);
    lemma_pow_mod_step(3int, 22nat, m, 11nat, 177147int, 0int, 31381059609int, 0int, 31381059609int);
    lemma_pow_mod_step(3int, 44nat, m, 22nat, 31381059609int, 0int, 984770902183611232881int, 0int, 984770902183611232881int);
    lemma_pow_mod_step(3int, 89nat, m, 44nat, 984770902183611232881int, 3795int, 90720890801347788037566819203367727446int, 1int, 16646728030730516921979937097619006361int);
    lemma_pow_mod_step(3int, 178nat, m, 89nat, 16646728030730516921979937097619006361int, 1084525487475027454112031980111675422int, 243745045874792512840565845828404725027int, 0int, 243745045874792512840565845828404725027int);
    lemma_pow_mod_step(3int, 356nat, m, 178nat, 243745045874792512840565845828404725027int, 232516399452956827942280328374139603666int, 219629239850597251948860815928101819047int, 0int, 219629239850597251948860815928101819047int);
    lemma_pow_mod_step(3int, 712nat, m, 356nat, 219629239850597251948860815928101819047int, 188782751368643162211547749224947593404int, 55160753700545913115115231692151532501int, 0int, 55160753700545913115115231692151532501int);
    lemma_pow_mod_step(3int, 1424nat, m, 712nat, 55160753700545913115115231692151532501int, 11908097384196282908476953576327222553int, 180473104328958978663762021295564105720int, 0int, 180473104328958978663762021295564105720int);
    lemma_pow_mod_step(3int, 2848nat, m, 1424nat, 180473104328958978663762021295564105720int, 127469702393777957407138420641720047868int, 233841367592727282928903190510361051364int, 0int, 233841367592727282928903190510361051364int);
}

proof fn lemma_certificate_4423_1()
    requires
        pow_mod(3int, 2848nat, 255515944373312847190720520512484175977int) == 233841367592727282928903190510361051364int,
    ensures
        pow_mod(3int, 11666523nat, 255515944373312847190720520512484175977int) == 239360231336918546360226316056360980658int,
{
    let m: int = 255515944373312847190720520512484175977int;
    lemma_pow_mod_step(3int, 5696nat, m, 2848nat, 233841367592727282928903190510361051364int, 214005373839786882832099214493594434943int, 35403234381048876721455372771156296185int, 0int, 35403234381048876721455372771156296185int);
    lemma_pow_mod_step(3int, 11393nat, m, 5696nat, 35403234381048876721455372771156296185int, 4905325997223327976706691254299440785int, 162300901962919988358535116654814532280int, 1int, 231386761515447117884884829451959420863int);
    lemma_pow_mod_step(3int, 22786nat, m, 11393nat, 231386761515447117884884829451959420863int, 209536174096375972814653239181030581820int, 50302470388827963559598507158782726629int, 0int, 50302470388827963559598507158782726629int);
    lemma_pow_mod_step(3int, 45572nat, m, 22786nat, 50302470388827963559598507158782726629int, 9902859617723304876037333859395652104int, 207399044189591078132644054004739398033int, 0int, 207399044189591078132644054004739398033int);
    lemma_pow_mod_step(3int, 91144nat, m, 45572nat, 207399044189591078132644054004739398033int, 168343167923451717849023172600501945146int, 102269729797003679452873962981739311447int, 0int, 102269729797003679452873962981739311447int);
    lemma_pow_mod_step(3int, 182289nat, m, 91144nat, 102269729797003679452873962981739311447int, 40933248445236884053916129659203376731int, 100399553765262340963609190187234242622int, 1int, 45682716922474175700107050049218551889int);
    lemma_pow_mod_step(3int, 364578nat, m, 182289nat, 45682716922474175700107050049218551889int, 8167437967667093606805973816511880367int, 55546654956753899933741103737386124762int, 0int, 55546654956753899933741103737386124762int);
    lemma_pow_mod_step(3int, 729157nat, m, 364578nat, 55546654956753899933741103737386124762int, 12075296844790277177836396297140984478int, 226456024353263981053681932317452071638int, 2int, 168336184313166248779604755927387862960int);
    lemma_pow_mod_step(3int, 1458315nat, m, 729157nat, 168336184313166248779604755927387862960int, 110901380415287777784103566584405581706int, 32422935248512659350343886556984084838int, 0int, 97268805745537978051031659670952254514int);
    lemma_pow_mod_step(3int, 2916630nat, m, 1458315nat, 97268805745537978051031659670952254514int, 37027906788236309282828665438801464201int, 106720802589462030201353265868883676819int, 0int, 106720802589462030201353265868883676819int);
    lemma_pow_mod_step(3int, 5833261nat, m, 2916630nat, 106720802589462030201353265868883676819int, 44573851284595118015143549006929390152int, 101852930316872203123927697433579180257int, 1int, 50042846577303762181062571788253364794int);
    lemma_pow_mod_step(3int, 11666523nat, m, 5833261nat, 50042846577303762181062571788253364794int, 9800901073714447269528434952171307150int, 79786743778972848786742105352120326886int, 0int, 239360231336918546360226316056360980658int);
}

proof fn lemma_certificate_4423_2()
    requires
        pow_mod(3int, 11666523nat, 255515944373312847190720520512484175977int) == 239360231336918546360226316056360980658int,
    ensures
        pow_mod(3int, 47786080801nat, 255515944373312847190720520512484175977int) == 111273873291996966999043908473466202896int,
{
    let m: int = 255515944373312847190720520512484175977int;
    lemma_pow_mod_step(3int, 23333047nat, m, 11666523nat, 239360231336918546360226316056360980658int, 224226008620255468641954708650227687547int, 43621071575178286805337190776930654545int, 0int, 130863214725534860416011572330791963635int);
    lemma_pow_mod_step(3int, 46666094nat, m, 23333047nat, 130863214725534860416011572330791963635int, 67021966125453536997084820600725663648int, 91045886399891761920268822617418629129int, 0int, 91045886399891761920268822617418629129int);
    lemma_pow_mod_step(3int, 93332189nat, m, 46666094nat, 91045886399891761920268822617418629129int, 32441628841099320463547713514099771338int, 218365185819507104244851626414594551415int, 2int, 144063668711895618353113838218815302291int);
    lemma_pow_mod_step(3int, 186664378nat, m, 93332189nat, 144063668711895618353113838218815302291int, 81225227230471346601487489850023536811int, 135066328252390625994016936061248459334int, 0int, 135066328252390625994016936061248459334int);
    lemma_pow_mod_step(3int, 373328756nat, m, 186664378nat, 135066328252390625994016936061248459334int, 71396378305571995728801138979896477122int, 135394538467994470691132155249225362int, 0int, 135394538467994470691132155249225362int);
    lemma_pow_mod_step(3int, 746657512nat, m, 373328756nat, 135394538467994470691132155249225362int, 71743785273056611144606828691366int, 213763057469773849439681681595299516462int, 0int, 213763057469773849439681681595299516462int);
    lemma_pow_mod_step(3int, 1493315025nat, m, 746657512nat, 213763057469773849439681681595299516462int, 178832850728349213518442878313603362187int, 155112310292049939636099843869633415745int, 1int, 209820986502836971717579011096416071258int);
    lemma_pow_mod_step(3int, 2986630050nat, m, 1493315025nat, 209820986502836971717579011096416071258int, 172297844210859483084699195640190064769int, 131376100589371391783514266024509848251int, 0int, 131376100589371391783514266024509848251int);
    lemma_pow_mod_step(3int, 5973260100nat, m, 2986630050nat, 131376100589371391783514266024509848251int, 67548347514673934483743127300061878467int, 100396988188617267595762746015832771742int, 0int, 100396988188617267595762746015832771742int);
    lemma_pow_mod_step(3int, 11946520200nat, m, 5973260100nat, 100396988188617267595762746015832771742int, 39447852313352958810776959048244880612int, 106676016110762561224713656484710256640int, 0int, 106676016110762561224713656484710256640int);
    lemma_pow_mod_step(3int, 23893040400nat, m, 11946520200nat, 106676016110762561224713656484710256640int, 44536447387555766543778740441201030519int, 126747365959973406549959146281720447537int, 0int, 126747365959973406549959146281720447537int);
    lemma_pow_mod_step(3int, 47786080801nat, m, 23893040400nat, 126747365959973406549959146281720447537int, 62872376975114943762110619250511119881int, 37091291097332322333014636157822067632int, 0int, 111273873291996966999043908473466202896int);
}

proof fn lemma_certificate_4423_3()
    requires
        pow_mod(3int, 47786080801nat, 255515944373312847190720520512484175977int) == 111273873291996966999043908473466202896int,
    ensures
        pow_mod(3int, 195731786961784nat, 255515944373312847190720520512484175977int) == 222886979069699775007486498614704628657int,
{
    let m: int = 255515944373312847190720520512484175977int;
    lemma_pow_mod_step(3int, 95572161602nat, m, 47786080801nat, 111273873291996966999043908473466202896int, 48458325791651108700907656018723421755int, 181604114608380325432810539175228607181int, 0int, 181604114608380325432810539175228607181int);
    lemma_pow_mod_step(3int, 191144323204nat, m, 95572161602nat, 181604114608380325432810539175228607181int, 129072393206544299712998746542669062454int, 207550899648051990467837670643865299203int, 0int, 207550899648051990467837670643865299203int);
    lemma_pow_mod_step(3int, 382288646409nat, m, 191144323204nat, 207550899648051990467837670643865299203int, 168589776463338892080540765617126800073int, 61670183436863669822757564034483988888int, 0int, 185010550310591009468272692103451966664int);
    lemma_pow_mod_step(3int, 764577292819nat, m, 382288646409nat, 185010550310591009468272692103451966664int, 133959952323831329517678945269782179805int, 199019653047670233223487407005091744411int, 2int, 86027070396385005289021179990306881279int);
    lemma_pow_mod_step(3int, 1529154585638nat, m, 764577292819nat, 86027070396385005289021179990306881279int, 28963581349632351445543289269834824289int, 30611452016233392806778781892650770488int, 0int, 30611452016233392806778781892650770488int);
    lemma_pow_mod_step(3int, 3058309171277nat, m, 1529154585638nat, 30611452016233392806778781892650770488int, 3667328850418424280141426237394015748int, 140956481003640420225079604335310472348int, 1int, 167353498637608413484518292493447241067int);
    lemma_pow_mod_step(3int, 6116618342555nat, m, 3058309171277nat, 167353498637608413484518292493447241067int, 109610355529630069597223102975752187072int, 28847773634325743815881201284538929145int, 0int, 86543320902977231447643603853616787435int);
    lemma_pow_mod_step(3int, 12233236685111nat, m, 6116618342555nat, 86543320902977231447643603853616787435int, 29312246683021305067160157020618881877int, 72232079605217909440861283548529810396int, 0int, 216696238815653728322583850645589431188int);
    lemma_pow_mod_step(3int, 24466473370223nat, m, 12233236685111nat, 216696238815653728322583850645589431188int, 183774284739920308319190892374511123653int, 6335622509697894856855618117328007363int, 0int, 19006867529093684570566854351984022089int);
    lemma_pow_mod_step(3int, 48932946740446nat, m, 24466473370223nat, 19006867529093684570566854351984022089int, 1413849198939647368271783805546129714int, 249390601761225879860495049008795243343int, 0int, 249390601761225879860495049008795243343int);
    lemma_pow_mod_step(3int, 97865893480892nat, m, 48932946740446nat, 249390601761225879860495049008795243343int, 243412098604529732825849604229712323453int, 166661565676338157920724454889789527068int, 0int, 166661565676338157920724454889789527068int);
    lemma_pow_mod_step(3int, 195731786961784nat, m, 97865893480892nat, 166661565676338157920724454889789527068int, 108705848246820509481398593185758836871int, 222886979069699775007486498614704628657int, 0int, 222886979069699775007486498614704628657int);
}

proof fn lemma_certificate_4423_4()
    requires
        pow_mod(3int, 195731786961784nat, 255515944373312847190720520512484175977int) == 222886979069699775007486498614704628657int,
    ensures
        pow_mod(3int, 801717399395468680nat, 255515944373312847190720520512484175977int) == 35486210052936540845938050559108005325int,
{
    let m: int = 255515944373312847190720520512484175977int;
    lemma_pow_mod_step(3int, 391463573923568nat, m, 195731786961784nat, 222886979069699775007486498614704628657int, 194424678900802977433981296692556229729int, 208451092131215193855552881935790603416int, 0int, 208451092131215193855552881935790603416int);
    lemma_pow_mod_step(3int, 782927147847137nat, m, 391463573923568nat, 208451092131215193855552881935790603416int, 170055367453752754878404668753679422761int, 76640746762768494421742153189287656559int, 0int, 229922240288305483265226459567862969677int);
    lemma_pow_mod_step(3int, 1565854295694274nat, m, 782927147847137nat, 229922240288305483265226459567862969677int, 206892124516338585320669406380838053118int, 198688564331201086208402961518235938043int, 0int, 198688564331201086208402961518235938043int);
    lemma_pow_mod_step(3int, 3131708591388549nat, m, 1565854295694274nat, 198688564331201086208402961518235938043int, 154499734616627668125969233795588345330int, 184444810897950580652653310958168532439int, 2int, 42302543947226047576518891849537245363int);
    lemma_pow_mod_step(3int, 6263417182777099nat, m, 3131708591388549nat, 42302543947226047576518891849537245363int, 7003497291709106025995118010000978610int, 45103828612175257668535357044612149799int, 0int, 135311485836525773005606071133836449397int);
    lemma_pow_mod_step(3int, 12526834365554198nat, m, 6263417182777099nat, 135311485836525773005606071133836449397int, 71655795274123034453771951429627485244int, 109778015041726167411257801853674880221int, 0int, 109778015041726167411257801853674880221int);
    lemma_pow_mod_step(3int, 25053668731108396nat, m, 12526834365554198nat, 109778015041726167411257801853674880221int, 47164229285411809548679939829619504604int, 102832879147105420104741487910799310733int, 0int, 102832879147105420104741487910799310733int);
    lemma_pow_mod_step(3int, 50107337462216792nat, m, 25053668731108396nat, 102832879147105420104741487910799310733int, 41385288341276773440404714969159966451int, 114702525632665448981567479170188849662int, 0int, 114702525632665448981567479170188849662int);
    lemma_pow_mod_step(3int, 100214674924433585nat, m, 50107337462216792nat, 114702525632665448981567479170188849662int, 51490600395919605391803330251355006712int, 163739799558555831616731602782213356620int, 1int, 235703454302354647659474287834155893883int);
    lemma_pow_mod_step(3int, 200429349848867170nat, m, 100214674924433585nat, 235703454302354647659474287834155893883int, 217427207943210837794105175072786767045int, 62326901739488818304517435660072539724int, 0int, 62326901739488818304517435660072539724int);
    lemma_pow_mod_step(3int, 400858699697734340nat, m, 200429349848867170nat, 62326901739488818304517435660072539724int, 15203132195806809295452239183376760834int, 199676733241981009443469225347660711358int, 0int, 199676733241981009443469225347660711358int);
    lemma_pow_mod_step(3int, 801717399395468680nat, m, 400858699697734340nat, 199676733241981009443469225347660711358int, 156040351595191946046782822956921871007int, 35486210052936540845938050559108005325int, 0int, 35486210052936540845938050559108005325int);
}

proof fn lemma_certificate_4423_5()
    requires
        pow_mod(3int, 801717399395468680nat, 255515944373312847190720520512484175977int) == 35486210052936540845938050559108005325int,
    ensures
        pow_mod(3int, 3283834467923839715391nat, 255515944373312847190720520512484175977int) == 46610528259489363312961835368890730865int,
{
    let m: int = 255515944373312847190720520512484175977int;
    lemma_pow_mod_step(3int, 1603434798790937361nat, m, 801717399395468680nat, 35486210052936540845938050559108005325int, 4928346475636445443518599310642470131int, 230168132493730782985359446954858112638int, 2int, 179472508734566654574637299839605985960int);
    lemma_pow_mod_step(3int, 3206869597581874722nat, m, 1603434798790937361nat, 179472508734566654574637299839605985960int, 126060162196450746932906728573084604937int, 237732507133444982755583717620686123151int, 0int, 237732507133444982755583717620686123151int);
    lemma_pow_mod_step(3int, 6413739195163749444nat, m, 3206869597581874722nat, 237732507133444982755583717620686123151int, 221186764241145002255344363798379203098int, 61293661963082387136081378365882592055int, 0int, 61293661963082387136081378365882592055int);
    lemma_pow_mod_step(3int, 12827478390327498888nat, m, 6413739195163749444nat, 61293661963082387136081378365882592055int, 14703242907439479233413906046989138499int, 42348622525730463037149183356407484502int, 0int, 42348622525730463037149183356407484502int);
    lemma_pow_mod_step(3int, 25654956780654997776nat, m, 12827478390327498888nat, 42348622525730463037149183356407484502int, 7018762896481368778462126176667946263int, 6065198885070569130728016900898664053int, 0int, 6065198885070569130728016900898664053int);
    lemma_pow_mod_step(3int, 51309913561309995552nat, m, 25654956780654997776nat, 6065198885070569130728016900898664053int, 143970027411343904269097521086648117int, 50766027700433054526015506622450701500int, 0int, 50766027700433054526015506622450701500int);
    lemma_pow_mod_step(3int, 102619827122619991105nat, m, 51309913561309995552nat, 50766027700433054526015506622450701500int, 10086218199815434502071037814731344927int, 177338143365545758423191661295548031321int, 2int, 20982541350011580888133942861675742009int);
    lemma_pow_mod_step(3int, 205239654245239982211nat, m, 102619827122619991105nat, 20982541350011580888133942861675742009int, 1723051148861805215534565500276775386int, 7939508665296767430226603635801253959int, 0int, 23818525995890302290679810907403761877int);
    lemma_pow_mod_step(3int, 410479308490479964423nat, m, 205239654245239982211nat, 23818525995890302290679810907403761877int, 2220300506132155154163413832750989436int, 125746909185144156137732972391426584157int, 1int, 121724783182119621222478396661795576494int);
    lemma_pow_mod_step(3int, 820958616980959928847nat, m, 410479308490479964423nat, 121724783182119621222478396661795576494int, 57988251484949496984838987849863590434int, 46311065036804417634669499602695528018int, 0int, 138933195110413252904008498808086584054int);
    lemma_pow_mod_step(3int, 1641917233961919857695nat, m, 820958616980959928847nat, 138933195110413252904008498808086584054int, 75542967586347553677077884486792235489int, 115405468156238626329864487480506427163int, 1int, 90700460095403031798872941929035105512int);
    lemma_pow_mod_step(3int, 3283834467923839715391nat, m, 1641917233961919857695nat, 90700460095403031798872941929035105512int, 32195930010139185084153975634129485223int, 185880805668705019231467625464619694273int, 2int, 46610528259489363312961835368890730865int);
}

proof fn lemma_certificate_4423_6()
    requires
        pow_mod(3int, 3283834467923839715391nat, 255515944373312847190720520512484175977int) == 46610528259489363312961835368890730865int,
    ensures
        pow_mod(3int, 13450585980616047474244696nat, 255515944373312847190720520512484175977int) == 145550775371001467070065455001852650267int,
{
    let m: int = 255515944373312847190720520512484175977int;
    lemma_pow_mod_step(3int, 6567668935847679430783nat, m, 3283834467923839715391nat, 46610528259489363312961835368890730865int, 8502566640047085184288440857030612107int, 167856305781493792416677315394048894686int, 1int, 248052972971168530059311425669662508081int);
    lemma_pow_mod_step(3int, 13135337871695358861567nat, m, 6567668935847679430783nat, 248052972971168530059311425669662508081int, 240807975998314039397753123483346295994int, 124767672423007891473874314315164166423int, 1int, 118787072895710827230902422433008323292int);
    lemma_pow_mod_step(3int, 26270675743390717723134nat, m, 13135337871695358861567nat, 118787072895710827230902422433008323292int, 55223045754496812974053717138539841680int, 250078920586894829054127775790350395904int, 0int, 250078920586894829054127775790350395904int);
    lemma_pow_mod_step(3int, 52541351486781435446268nat, m, 26270675743390717723134nat, 250078920586894829054127775790350395904int, 244757589101896897252571186661688254320int, 145493320440726435308010614764729506576int, 0int, 145493320440726435308010614764729506576int);
    lemma_pow_mod_step(3int, 105082702973562870892536nat, m, 52541351486781435446268nat, 145493320440726435308010614764729506576int, 82845343936504696326363501300560503508int, 114606597050118612098911947442829416460int, 0int, 114606597050118612098911947442829416460int);
    lemma_pow_mod_step(3int, 210165405947125741785073nat, m, 105082702973562870892536nat, 114606597050118612098911947442829416460int, 51404510664188892752838997581100548359int, 61732240802928146948149887759164359857int, 0int, 185196722408784440844449663277493079571int);
    lemma_pow_mod_step(3int, 420330811894251483570146nat, m, 210165405947125741785073nat, 185196722408784440844449663277493079571int, 134229689951742085150201865248520292693int, 179925162586977003071203476462378307980int, 0int, 179925162586977003071203476462378307980int);
    lemma_pow_mod_step(3int, 840661623788502967140293nat, m, 420330811894251483570146nat, 179925162586977003071203476462378307980int, 126696845519168654889965834204559703615int, 108103081860342506636915887215108623545int, 1int, 68793301207714672720027141132841694658int);
    lemma_pow_mod_step(3int, 1681323247577005934280587nat, m, 840661623788502967140293nat, 68793301207714672720027141132841694658int, 18521420659921999887660636138396250387int, 178149808091182279571870445721043383865int, 2int, 23417535526921144334170296138161799641int);
    lemma_pow_mod_step(3int, 3362646495154011868561174nat, m, 1681323247577005934280587nat, 23417535526921144334170296138161799641int, 2146171236004828968109602800012482207int, 144950732377454646545053842871058387642int, 0int, 144950732377454646545053842871058387642int);
    lemma_pow_mod_step(3int, 6725292990308023737122348nat, m, 3362646495154011868561174nat, 144950732377454646545053842871058387642int, 82228586041047564507501173023205624162int, 49533257578727390677915371786207163890int, 0int, 49533257578727390677915371786207163890int);
    lemma_pow_mod_step(3int, 13450585980616047474244696nat, m, 6725292990308023737122348nat, 49533257578727390677915371786207163890int, 9602311168401641362212975759277470529int, 145550775371001467070065455001852650267int, 0int, 145550775371001467070065455001852650267int);
}

proof fn lemma_certificate_4423_7()
    requires
        pow_mod(3int, 13450585980616047474244696nat, 255515944373312847190720520512484175977int) == 145550775371001467070065455001852650267int,
    ensures
        pow_mod(3int, 55093600176603330454506275857nat, 255515944373312847190720520512484175977int) == 114525420261760516961396481416507981705int,
{
    let m: int = 255515944373312847190720520512484175977int;
    lemma_pow_mod_step(3int, 26901171961232094948489392nat, m, 13450585980616047474244696nat, 145550775371001467070065455001852650267int, 82910787673383172694836351264505456876int, 186636168631003734946188727495046503437int, 0int, 186636168631003734946188727495046503437int);
    lemma_pow_mod_step(3int, 53802343922464189896978785nat, m, 26901171961232094948489392nat, 186636168631003734946188727495046503437int, 136324406395433430460176256768642291856int, 119495446398026053757251168304754869657int, 1int, 102970394820765314081032984401780432994int);
    lemma_pow_mod_step(3int, 107604687844928379793957570nat, m, 53802343922464189896978785nat, 102970394820765314081032984401780432994int, 41496049240877445711539759386351342990int, 240589909178723593320990536008678452806int, 0int, 240589909178723593320990536008678452806int);
    lemma_pow_mod_step(3int, 215209375689856759587915140nat, m, 107604687844928379793957570nat, 240589909178723593320990536008678452806int, 226535782495270624617284552866874955344int, 19293873669650658276840226537456702548int, 0int, 19293873669650658276840226537456702548int);
    lemma_pow_mod_step(3int, 430418751379713519175830280nat, m, 215209375689856759587915140nat, 19293873669650658276840226537456702548int, 1456870185120700733872135999439420018int, 224968416711841523580940947913821184718int, 0int, 224968416711841523580940947913821184718int);
    lemma_pow_mod_step(3int, 860837502759427038351660560nat, m, 430418751379713519175830280nat, 224968416711841523580940947913821184718int, 198072917296658449640201478266351752158int, 235089184918304518469419140686315231158int, 0int, 235089184918304518469419140686315231158int);
    lemma_pow_mod_step(3int, 1721675005518854076703321120nat, m, 860837502759427038351660560nat, 235089184918304518469419140686315231158int, 216295405756780965914692485122532361866int, 41841714528524727920705093046385927882int, 0int, 41841714528524727920705093046385927882int);
    lemma_pow_mod_step(3int, 3443350011037708153406642241nat, m, 1721675005518854076703321120nat, 41841714528524727920705093046385927882int, 6851741009667538985269315612574755893int, 146437562494144212208721244338075223463int, 1int, 183796743109119789435443212501741494412int);
    lemma_pow_mod_step(3int, 6886700022075416306813284482nat, m, 3443350011037708153406642241nat, 183796743109119789435443212501741494412int, 132207964009341199218676551544328498875int, 74014698576908000680617369035280699869int, 0int, 74014698576908000680617369035280699869int);
    lemma_pow_mod_step(3int, 13773400044150832613626568964nat, m, 6886700022075416306813284482nat, 74014698576908000680617369035280699869int, 21439662479249614960252670270113303435int, 153651809158678777745688583935118036166int, 0int, 153651809158678777745688583935118036166int);
    lemma_pow_mod_step(3int, 27546800088301665227253137928nat, m, 13773400044150832613626568964nat, 153651809158678777745688583935118036166int, 92396889421671853341083303735684358357int, 255027241479827494971937276201365389767int, 0int, 255027241479827494971937276201365389767int);
    lemma_pow_mod_step(3int, 55093600176603330454506275857nat, m, 27546800088301665227253137928nat, 255027241479827494971937276201365389767int, 254539473285422024908536652136834412968int, 208519103002795403780945840813825444553int, 2int, 114525420261760516961396481416507981705int);
}

proof fn lemma_certificate_4423_8()
    requires
        pow_mod(3int, 55093600176603330454506275857nat, 255515944373312847190720520512484175977int) == 114525420261760516961396481416507981705int,
    ensures
        pow_mod(3int, 225663386323367241541657705912704nat, 255515944373312847190720520512484175977int) == 25917393779361008484205599389104451140int,
{
    let m: int = 255515944373312847190720520512484175977int;
    lemma_pow_mod_step(3int, 110187200353206660909012551715nat, m, 55093600176603330454506275857nat, 114525420261760516961396481416507981705int, 51331715984698306387986242831934519119int, 217437236643445777215852222450147702762int, 2int, 141279821183711637266115626325474756332int);
    lemma_pow_mod_step(3int, 220374400706413321818025103430nat, m, 110187200353206660909012551715nat, 141279821183711637266115626325474756332int, 78116408440405099118576319873549562542int, 197375138474505939345126435969078640690int, 0int, 197375138474505939345126435969078640690int);
    lemma_pow_mod_step(3int, 440748801412826643636050206860nat, m, 220374400706413321818025103430nat, 197375138474505939345126435969078640690int, 152463852631105007779473713719545508178int, 52889461887077791419000144024079036194int, 0int, 52889461887077791419000144024079036194int);
    lemma_pow_mod_step(3int, 881497602825653287272100413721nat, m, 440748801412826643636050206860nat, 52889461887077791419000144024079036194int, 10947634542202038368285817932307624114int, 248726010265187691873481865894017296258int, 2int, 235146142048937381239004556657083536820int);
    lemma_pow_mod_step(3int, 1762995205651306574544200827443nat, m, 881497602825653287272100413721nat, 235146142048937381239004556657083536820int, 216400226045048884623310852946089505712int, 217297428673178139372964820578741031776int, 2int, 140860397272908723737453420711254743374int);
    lemma_pow_mod_step(3int, 3525990411302613149088401654886nat, m, 1762995205651306574544200827443nat, 140860397272908723737453420711254743374int, 77653281358022432673930288441496402754int, 175672347666300543386064513821193463218int, 0int, 175672347666300543386064513821193463218int);
    lemma_pow_mod_step(3int, 7051980822605226298176803309772nat, m, 3525990411302613149088401654886nat, 175672347666300543386064513821193463218int, 120778270061697167893620934505605392795int, 70251551675647125871350685899731029809int, 0int, 70251551675647125871350685899731029809int);
    lemma_pow_mod_step(3int, 14103961645210452596353606619544nat, m, 7051980822605226298176803309772nat, 70251551675647125871350685899731029809int, 19314961048479993860666213617747395618int, 46229676759709934124452864935095907695int, 0int, 46229676759709934124452864935095907695int);
    lemma_pow_mod_step(3int, 28207923290420905192707213239088nat, m, 14103961645210452596353606619544nat, 46229676759709934124452864935095907695int, 8364186503308014768286519682628947067int, 89959469629947656589131209257314203566int, 0int, 89959469629947656589131209257314203566int);
    lemma_pow_mod_step(3int, 56415846580841810385414426478176nat, m, 28207923290420905192707213239088nat, 89959469629947656589131209257314203566int, 31672020295836813584588334852383296009int, 29180565899113886889373875073249340563int, 0int, 29180565899113886889373875073249340563int);
    lemma_pow_mod_step(3int, 112831693161683620770828852956352nat, m, 56415846580841810385414426478176nat, 29180565899113886889373875073249340563int, 3332494292209277216338232480760443476int, 188461631210922975388949241779411580917int, 0int, 188461631210922975388949241779411580917int);
    lemma_pow_mod_step(3int, 225663386323367241541657705912704nat, m, 112831693161683620770828852956352nat, 188461631210922975388949241779411580917int, 139004188274019752218780083386052921837int, 25917393779361008484205599389104451140int, 0int, 25917393779361008484205599389104451140int);
}

proof fn lemma_certificate_4423_9()
    requires
        pow_mod(3int, 225663386323367241541657705912704nat, 255515944373312847190720520512484175977int) == 25917393779361008484205599389104451140int,
    ensures
        pow_mod(3int, 57769826898782013834664372713652312nat, 255515944373312847190720520512484175977int) == 83399280779944061005050044694706920693int,
{
    let m: int = 255515944373312847190720520512484175977int;
    lemma_pow_mod_step(3int, 451326772646734483083315411825408nat, m, 225663386323367241541657705912704nat, 25917393779361008484205599389104451140int, 2628842994365470343731701428034651940int, 62177984971850537487798050887742854220int, 0int, 62177984971850537487798050887742854220int);
    lemma_pow_mod_step(3int, 902653545293468966166630823650817nat, m, 451326772646734483083315411825408nat, 62177984971850537487798050887742854220int, 15130569736623696629718494316959957160int, 137473785562202429750612917824350663080int, 1int, 156905412313294442061118232960567813263int);
    lemma_pow_mod_step(3int, 1805307090586937932333261647301634nat, m, 902653545293468966166630823650817nat, 156905412313294442061118232960567813263int, 96351358713003565304431179849936767539int, 91685630146550182914014801082221496566int, 0int, 91685630146550182914014801082221496566int);
    lemma_pow_mod_step(3int, 3610614181173875864666523294603269nat, m, 1805307090586937932333261647301634nat, 91685630146550182914014801082221496566int, 32899139801187201712718062425858054816int, 210055008936350558213786030006893437124int, 2int, 119133138062425980259917048995711959418int);
    lemma_pow_mod_step(3int, 7221228362347751729333046589206539nat, m, 3610614181173875864666523294603269nat, 119133138062425980259917048995711959418int, 55545279647462169143065557625478547583int, 213313410796209403629136857668338885133int, 2int, 128908343642002516505969531980048303445int);
    lemma_pow_mod_step(3int, 14442456724695503458666093178413078nat, m, 7221228362347751729333046589206539nat, 128908343642002516505969531980048303445int, 65034536695081472340631468092878286860int, 110998271957177135256481931820272105805int, 0int, 110998271957177135256481931820272105805int);
    lemma_pow_mod_step(3int, 28884913449391006917332186356826156nat, m, 14442456724695503458666093178413078nat, 110998271957177135256481931820272105805int, 48218581457597182636712694625932791307int, 240856888847640381862824023817710866086int, 0int, 240856888847640381862824023817710866086int);
    lemma_pow_mod_step(3int, 57769826898782013834664372713652312nat, m, 28884913449391006917332186356826156nat, 240856888847640381862824023817710866086int, 227038829407092036209322725285207722839int, 83399280779944061005050044694706920693int, 0int, 83399280779944061005050044694706920693int);
}

proof fn lemma_certificate_4423()
    ensures
        pow_mod(3int, 57769826898782013834664372713652312nat, 255515944373312847190720520512484175977int) == 83399280779944061005050044694706920693int,
{
    lemma_pow_mod_zero(3int, 255515944373312847190720520512484175977int);
    lemma_certificate_4423_0();
    lemma_certificate_4423_1();
    lemma_certificate_4423_2();
    lemma_certificate_4423_3();
    lemma_certificate_4423_4();
    lemma_certificate_4423_5();
    lemma_certificate_4423_6();
    lemma_certificate_4423_7();
    lemma_certificate_4423_8();
    lemma_certificate_4423_9();
}

proof fn lemma_certificate_41201_0()
    requires
        pow_mod(3int, 0nat, 255515944373312847190720520512484175977int) == 1int,
    ensures
        pow_mod(3int, 2446nat, 255515944373312847190720520512484175977int) == 152445045010206360728154508738121444517int,
{
    let m: int = 255515944373312847190720520512484175977int;
    lemma_pow_mod_step(3int, 1nat, m, 0nat, 1int, 0int, 1int, 0int, 3int);
    lemma_pow_mod_step(3int, 2nat, m, 1nat, 3int, 0int, 9int, 0int, 9int);
    lemma_pow_mod_step(3int, 4nat, m, 2nat, 9int, 0int, 81int, 0int, 81int);
    lemma_pow_mod_step(3int, 9nat, m, 4nat, 81int, 0int, 6561int, 0int, 19683int);
    lemma_pow_mod_step(3int, 19nat, m, 9nat, 19683int, 0int, 387420489int, 0int, 1162261467int);
    lemma_pow_mod_step(3int, 38nat, m, 19nat, 1162261467int, 0int, 1350851717672992089int, 0int, 1350851717672992089int);
    lemma_pow_mod_step(3int, 76nat, m, 38nat, 1350851717672992089int, 0int, 1824800363140073127359051977856583921int, 0int, 1824800363140073127359051977856583921int);
    lemma_pow_mod_step(3int, 152nat, m, 76nat, 1824800363140073127359051977856583921int, 13032049226842421053459328574571945int, 215520524261427091366702066418888568976int, 0int, 215520524261427091366702066418888568976int);
    lemma_pow_mod_step(3int, 305nat, m, 152nat, 215520524261427091366702066418888568976int, 181785510457451207114298610837056522115int, 153730822534570940724028298481857457221int, 1int, 205676523230399974981364374933088195686int);
    lemma_pow_mod_step(3int, 611nat, m, 305nat, 205676523230399974981364374933088195686int, 165558483295039122038285726710835078387int, 176290870577632418723027111847131701497int, 2int, 17840722986271561787640294516426752537int);
    lemma_pow_mod_step(3int, 1223nat, m, 611nat, 17840722986271561787640294516426752537int, 1245681154863078504549445892881817933int, 60596268407221086319871858672589540828int, 0int, 181788805221663258959615576017768622484int);
    lemma_pow_mod_step(3int, 2446nat, m, 1223nat, 181788805221663258959615576017768622484int, 129335058855025437879265028574647110707int, 152445045010206360728154508738121444517int, 0int, 152445045010206360728154508738121444517int);
}

proof fn lemma_certificate_41201_1()
    requires
        pow_mod(3int, 2446nat, 255515944373312847190720520512484175977int) == 152445045010206360728154508738121444517int,
    ensures
        pow_mod(3int, 10019375nat, 255515944373312847190720520512484175977int) == 149600026571296437872031864858240452659int,
{
    let m: int = 255515944373312847190720520512484175977int;
    lemma_pow_mod_step(3int, 4892nat, m, 2446nat, 152445045010206360728154508738121444517int, 90951239090624329966034276963467723546int, 110722995602429809805018173954858908847int, 0int, 110722995602429809805018173954858908847int);
    lemma_pow_mod_step(3int, 9784nat, m, 4892nat, 110722995602429809805018173954858908847int, 47979713302212748103351640365512729691int, 126972669365665708448487181687378036302int, 0int, 126972669365665708448487181687378036302int);
    lemma_pow_mod_step(3int, 19569nat, m, 9784nat, 126972669365665708448487181687378036302int, 63096096822388819342266169345191664596int, 161912133684225161198256296783605224912int, 1int, 230220456679362636404048369838331498759int);
    lemma_pow_mod_step(3int, 39138nat, m, 19569nat, 230220456679362636404048369838331498759int, 207429163779377762137881436019821501418int, 148306705257366961833283800680551504695int, 0int, 148306705257366961833283800680551504695int);
    lemma_pow_mod_step(3int, 78276nat, m, 39138nat, 148306705257366961833283800680551504695int, 86080259602745770094607201077060583955int, 68024114841666805216235697144004393990int, 0int, 68024114841666805216235697144004393990int);
    lemma_pow_mod_step(3int, 156552nat, m, 78276nat, 68024114841666805216235697144004393990int, 18109555594823250497553782613897749234int, 74395634676941235856928704105675168482int, 0int, 74395634676941235856928704105675168482int);
    lemma_pow_mod_step(3int, 313105nat, m, 156552nat, 74395634676941235856928704105675168482int, 21660920114239922117233015985008315062int, 83492316083977940367128319656818518750int, 0int, 250476948251933821101384958970455556250int);
    lemma_pow_mod_step(3int, 626210nat, m, 313105nat, 250476948251933821101384958970455556250int, 245537325506151957398322457130219134490int, 238268825611031785932765531951123915770int, 0int, 238268825611031785932765531951123915770int);
    lemma_pow_mod_step(3int, 1252421nat, m, 626210nat, 238268825611031785932765531951123915770int, 222185873360276240637967400188396951309int, 175343623626254375836584061486198189007int, 2int, 14998982132137433128311143433626215067int);
    lemma_pow_mod_step(3int, 2504843nat, m, 1252421nat, 14998982132137433128311143433626215067int, 880451768095904117567709749627375733int, 132204363479771972478841760004666448348int, 1int, 141097146066003070245804759501515169067int);
    lemma_pow_mod_step(3int, 5009687nat, m, 2504843nat, 141097146066003070245804759501515169067int, 77914529665845473717737603296666473434int, 161520790939466174136142521475542155471int, 1int, 229046428445085675217707043914142290436int);
    lemma_pow_mod_step(3int, 10019375nat, m, 5009687nat, 229046428445085675217707043914142290436int, 205318953821533536435332378575073652092int, 135038656981536428354250795123574876212int, 1int, 149600026571296437872031864858240452659int);
}

proof fn lemma_certificate_41201_2()
    requires
        pow_mod(3int, 10019375nat, 255515944373312847190720520512484175977int) == 149600026571296437872031864858240452659int,
    ensures
        pow_mod(3int, 41039360284nat, 255515944373312847190720520512484175977int) == 141828659943319467897840873474172067712int,
{
    let m: int = 255515944373312847190720520512484175977int;
    lemma_pow_mod_step(3int, 20038750nat, m, 10019375nat, 149600026571296437872031864858240452659int, 87588146426724822785962608577913511037int, 231959704928373508651950586553380412132int, 0int, 231959704928373508651950586553380412132int);
    lemma_pow_mod_step(3int, 40077500nat, m, 20038750nat, 231959704928373508651950586553380412132int, 210575135897772789744199700907433241804int, 40805963408506293967297075321443842916int, 0int, 40805963408506293967297075321443842916int);
    lemma_pow_mod_step(3int, 80155000nat, m, 40077500nat, 40805963408506293967297075321443842916int, 6516723070962562542461919608328332402int, 53058179556476614320632491104564276302int, 0int, 53058179556476614320632491104564276302int);
    lemma_pow_mod_step(3int, 160310001nat, m, 80155000nat, 53058179556476614320632491104564276302int, 11017591973572906686019777557287577460int, 105996982859887877495903196754340116784int, 1int, 62475004206350785296989069750536174375int);
    lemma_pow_mod_step(3int, 320620002nat, m, 160310001nat, 62475004206350785296989069750536174375int, 15275470030476920481298230399174894540int, 245295520007832987286964386422630175045int, 0int, 245295520007832987286964386422630175045int);
    lemma_pow_mod_step(3int, 641240004nat, m, 320620002nat, 245295520007832987286964386422630175045int, 235483904080772457312880231499853700790int, 128271438384672405049426153150276830195int, 0int, 128271438384672405049426153150276830195int);
    lemma_pow_mod_step(3int, 1282480008nat, m, 641240004nat, 128271438384672405049426153150276830195int, 64393484115550512814507453852172612701int, 248966528145493066080945052217714454148int, 0int, 248966528145493066080945052217714454148int);
    lemma_pow_mod_step(3int, 2564960017nat, m, 1282480008nat, 248966528145493066080945052217714454148int, 242584987362904049242001421358477654236int, 202372331091930808290223662657210917332int, 2int, 96085104529166730489229946946664400042int);
    lemma_pow_mod_step(3int, 5129920035nat, m, 2564960017nat, 96085104529166730489229946946664400042int, 36132176937233674534122607957128864229int, 38677376650230078153913363678833175031int, 0int, 116032129950690234461740091036499525093int);
    lemma_pow_mod_step(3int, 10259840071nat, m, 5129920035nat, 116032129950690234461740091036499525093int, 52691252649281033529058238552014515430int, 186566490443648291599546064528034833539int, 2int, 48667582584319180417197152559136148663int);
    lemma_pow_mod_step(3int, 20519680142nat, m, 10259840071nat, 48667582584319180417197152559136148663int, 9269611727795203454022643143014110960int, 221994800886187390861633074273592279649int, 0int, 221994800886187390861633074273592279649int);
    lemma_pow_mod_step(3int, 41039360284nat, m, 20519680142nat, 221994800886187390861633074273592279649int, 192871297097987172643955526125640562457int, 141828659943319467897840873474172067712int, 0int, 141828659943319467897840873474172067712int);
}

proof fn lemma_certificate_41201_3()
    requires
        pow_mod(3int, 41039360284nat, 255515944373312847190720520512484175977int) == 141828659943319467897840873474172067712int,
    ensures
        pow_mod(3int, 168097219724176nat, 255515944373312847190720520512484175977int) == 239447406105575262363685766326090721790int,
{
    let m: int = 255515944373312847190720520512484175977int;
    lemma_pow_mod_step(3int, 82078720568nat, m, 41039360284nat, 141828659943319467897840873474172067712int, 78724514944276351511685028432752175147int, 95867764095361219059804271808839071325int, 0int, 95867764095361219059804271808839071325int);
    lemma_pow_mod_step(3int, 164157441136nat, m, 82078720568nat, 95867764095361219059804271808839071325int, 35968902900306589651442571792878072997int, 160877216303841145841320254789237462556int, 0int, 160877216303841145841320254789237462556int);
    lemma_pow_mod_step(3int, 328314882273nat, m, 164157441136nat, 160877216303841145841320254789237462556int, 101291051676445053833691468706393773870int, 6959538038941883454682996783277732146int, 0int, 20878614116825650364048990349833196438int);
    lemma_pow_mod_step(3int, 656629764547nat, m, 328314882273nat, 20878614116825650364048990349833196438int, 1706024759075035927933892834681736773int, 22289856700144957472884052866171785623int, 0int, 66869570100434872418652158598515356869int);
    lemma_pow_mod_step(3int, 1313259529095nat, m, 656629764547nat, 66869570100434872418652158598515356869int, 17500040619320348493852437993776923640int, 130441945489792936820232446422974086881int, 1int, 135809892096065963269976818756438084666int);
    lemma_pow_mod_step(3int, 2626519058190nat, m, 1313259529095nat, 135809892096065963269976818756438084666int, 72184641300496012237274184707386279044int, 74861259061459509964986547866061005568int, 0int, 74861259061459509964986547866061005568int);
    lemma_pow_mod_step(3int, 5253038116380nat, m, 2626519058190nat, 74861259061459509964986547866061005568int, 21932909595962890919775897419783600070int, 6330574667768297379937617922857484234int, 0int, 6330574667768297379937617922857484234int);
    lemma_pow_mod_step(3int, 10506076232761nat, m, 5253038116380nat, 6330574667768297379937617922857484234int, 156844128543453087053532628145995664int, 254055365969042775849887937590303603028int, 2int, 251134209160502633168222771745942457130int);
    lemma_pow_mod_step(3int, 21012152465522nat, m, 10506076232761nat, 251134209160502633168222771745942457130int, 246827614477659230322042832728114298558int, 186427209922576689961250471573898495734int, 0int, 186427209922576689961250471573898495734int);
    lemma_pow_mod_step(3int, 42024304931044nat, m, 21012152465522nat, 186427209922576689961250471573898495734int, 136019318421627409732589078985749317328int, 239530811122770169155188457017648769300int, 0int, 239530811122770169155188457017648769300int);
    lemma_pow_mod_step(3int, 84048609862088nat, m, 42024304931044nat, 239530811122770169155188457017648769300int, 224545711297399110933264757966312421395int, 71107681357632970889926253848462662085int, 0int, 71107681357632970889926253848462662085int);
    lemma_pow_mod_step(3int, 168097219724176nat, m, 84048609862088nat, 71107681357632970889926253848462662085int, 19788598165409692097748332257476237155int, 239447406105575262363685766326090721790int, 0int, 239447406105575262363685766326090721790int);
}

proof fn lemma_certificate_41201_4()
    requires
        pow_mod(3int, 168097219724176nat, 255515944373312847190720520512484175977int) == 239447406105575262363685766326090721790int,
    ensures
        pow_mod(3int, 688526211990225086nat, 255515944373312847190720520512484175977int) == 239062514089693601881422895103259221533int,
{
    let m: int = 255515944373312847190720520512484175977int;
    lemma_pow_mod_step(3int, 336194439448352nat, m, 168097219724176nat, 239447406105575262363685766326090721790int, 224389364160073114727986572132005301716int, 71677463521095788289219679003656727568int, 0int, 71677463521095788289219679003656727568int);
    lemma_pow_mod_step(3int, 672388878896704nat, m, 336194439448352nat, 71677463521095788289219679003656727568int, 20106998760561949452703837199525249856int, 14412994526651735337290872449373285312int, 0int, 14412994526651735337290872449373285312int);
    lemma_pow_mod_step(3int, 1344777757793408nat, m, 672388878896704nat, 14412994526651735337290872449373285312int, 812999798250513912836657515203792118int, 167174960123847840719852567281317388058int, 0int, 167174960123847840719852567281317388058int);
    lemma_pow_mod_step(3int, 2689555515586816nat, m, 1344777757793408nat, 167174960123847840719852567281317388058int, 109376608027162573829483840547775569597int, 124059057764760923512309070525002040095int, 0int, 124059057764760923512309070525002040095int);
    lemma_pow_mod_step(3int, 5379111031173633nat, m, 2689555515586816nat, 124059057764760923512309070525002040095int, 60233618106407888643262072306833834969int, 180641026424894522664472103961215269312int, 2int, 30891190528057873611975270858677455982int);
    lemma_pow_mod_step(3int, 10758222062347266nat, m, 5379111031173633nat, 30891190528057873611975270858677455982int, 3734661860657021214440066739200969058int, 159766133926002498784139540630543664658int, 0int, 159766133926002498784139540630543664658int);
    lemma_pow_mod_step(3int, 21516444124694533nat, m, 10758222062347266nat, 159766133926002498784139540630543664658int, 99896770091061788879162430598345384786int, 109578228363080736146573378646155771042int, 1int, 73218740715929361248999615425983137149int);
    lemma_pow_mod_step(3int, 43032888249389067nat, m, 21516444124694533nat, 73218740715929361248999615425983137149int, 20981015510304160881497446471391760112int, 188130194568945775651257679957766618777int, 2int, 53358694960211632572331998848331504377int);
    lemma_pow_mod_step(3int, 86065776498778135nat, m, 43032888249389067nat, 53358694960211632572331998848331504377int, 11142750151423750264204800033021267514int, 226576691943342327114497858915600846951int, 2int, 168698187083401286962052535721834188899int);
    lemma_pow_mod_step(3int, 172131552997556271nat, m, 86065776498778135nat, 168698187083401286962052535721834188899int, 111378874594405333951098227322241147811int, 245778936587752472613250592674222495854int, 2int, 226304921016631723458310736997699135608int);
    lemma_pow_mod_step(3int, 344263105995112543nat, m, 172131552997556271nat, 226304921016631723458310736997699135608int, 200433352219772153779126459531626547777int, 49603781687219624758787420957307376535int, 0int, 148811345061658874276362262871922129605int);
    lemma_pow_mod_step(3int, 688526211990225086nat, m, 344263105995112543nat, 148811345061658874276362262871922129605int, 86667062884757504702479593749692359196int, 239062514089693601881422895103259221533int, 0int, 239062514089693601881422895103259221533int);
}

proof fn lemma_certificate_41201_5()
    requires
        pow_mod(3int, 688526211990225086nat, 255515944373312847190720520512484175977int) == 239062514089693601881422895103259221533int,
    ensures
        pow_mod(3int, 2820203364311961954550nat, 255515944373312847190720520512484175977int) == 214135568995558833422711120030545484896int,
{
    let m: int = 255515944373312847190720520512484175977int;
    lemma_pow_mod_step(3int, 1377052423980450173nat, m, 688526211990225086nat, 239062514089693601881422895103259221533int, 223668569032179853271871891761421609448int, 159594995141072083969101345561773039393int, 1int, 223269041049903404716583516172834942202int);
    lemma_pow_mod_step(3int, 2754104847960900346nat, m, 1377052423980450173nat, 223269041049903404716583516172834942202int, 195091796770667185895421557032172264960int, 56095655499622611979709623629369742884int, 0int, 56095655499622611979709623629369742884int);
    lemma_pow_mod_step(3int, 5508209695921800692nat, m, 2754104847960900346nat, 56095655499622611979709623629369742884int, 12315171069461438452023292582498757979int, 231175701393794919426137367378499766973int, 0int, 231175701393794919426137367378499766973int);
    lemma_pow_mod_step(3int, 11016419391843601384nat, m, 5508209695921800692nat, 231175701393794919426137367378499766973int, 209154090348401606134915335669684260640int, 124042150960731538822807206758406937449int, 0int, 124042150960731538822807206758406937449int);
    lemma_pow_mod_step(3int, 22032838783687202769nat, m, 11016419391843601384nat, 124042150960731538822807206758406937449int, 60217201915529220841261148757808000550int, 252863269783819808372061452126685840251int, 2int, 247557920604833730734743315355089168799int);
    lemma_pow_mod_step(3int, 44065677567374405539nat, m, 22032838783687202769nat, 247557920604833730734743315355089168799int, 239847748853789394066137425297228774863int, 143569671121828369507003421046909036250int, 1int, 175193068992172261330289742628242932773int);
    lemma_pow_mod_step(3int, 88131355134748811079nat, m, 44065677567374405539nat, 175193068992172261330289742628242932773int, 120120141614542996217999767475937277767int, 44366353011120216334211899062639866170int, 0int, 133099059033360649002635697187919598510int);
    lemma_pow_mod_step(3int, 176262710269497622159nat, m, 88131355134748811079nat, 133099059033360649002635697187919598510int, 69331718453090354958532664966341023282int, 112057840179378137393556046712852123586int, 1int, 80657576164821564989947619626072194781int);
    lemma_pow_mod_step(3int, 352525420538995244318nat, m, 176262710269497622159nat, 80657576164821564989947619626072194781int, 25460816579333076402331647507864754519int, 134070086890639692003821729467301647898int, 0int, 134070086890639692003821729467301647898int);
    lemma_pow_mod_step(3int, 705050841077990488637nat, m, 352525420538995244318nat, 134070086890639692003821729467301647898int, 70347031544153762710038064527614252244int, 95590762333805468284790709199004676016int, 1int, 31256342628103557663651607084529852071int);
    lemma_pow_mod_step(3int, 1410101682155980977275nat, m, 705050841077990488637nat, 31256342628103557663651607084529852071int, 3823475505145193941509887196406276639int, 107122337965850714025726366096522887738int, 1int, 65851069524239294886458577777084487237int);
    lemma_pow_mod_step(3int, 2820203364311961954550nat, m, 1410101682155980977275nat, 65851069524239294886458577777084487237int, 16971008866478804138115683936108583249int, 214135568995558833422711120030545484896int, 0int, 214135568995558833422711120030545484896int);
}

proof fn lemma_certificate_41201_6()
    requires
        pow_mod(3int, 2820203364311961954550nat, 255515944373312847190720520512484175977int) == 214135568995558833422711120030545484896int,
    ensures
        pow_mod(3int, 11551552980221796165837584nat, 255515944373312847190720520512484175977int) == 180087346617568055692848729969165679755int,
{
    let m: int = 255515944373312847190720520512484175977int;
    lemma_pow_mod_step(3int, 5640406728623923909100nat, m, 2820203364311961954550nat, 214135568995558833422711120030545484896int, 179456675478764859642409563404349561460int, 254285193571081772149934625042347084396int, 0int, 254285193571081772149934625042347084396int);
    lemma_pow_mod_step(3int, 11280813457247847818200nat, m, 5640406728623923909100nat, 254285193571081772149934625042347084396int, 253060370960693705405382431571053454077int, 22631596659107750703019578370990576587int, 0int, 22631596659107750703019578370990576587int);
    lemma_pow_mod_step(3int, 22561626914495695636401nat, m, 11280813457247847818200nat, 22631596659107750703019578370990576587int, 2004529183479135871147245378729047870int, 10959081801154889550178707143975549579int, 0int, 32877245403464668650536121431926648737int);
    lemma_pow_mod_step(3int, 45123253828991391272803nat, m, 22561626914495695636401nat, 32877245403464668650536121431926648737int, 4230316303629206242775934946822119697int, 45901356661519464973714475462277776200int, 0int, 137704069984558394921143426386833328600int);
    lemma_pow_mod_step(3int, 90246507657982782545606nat, m, 45123253828991391272803nat, 137704069984558394921143426386833328600int, 74212241184478778411862152346625579522int, 42510516958846371604352877873322417006int, 0int, 42510516958846371604352877873322417006int);
    lemma_pow_mod_step(3int, 180493015315965565091212nat, m, 90246507657982782545606nat, 42510516958846371604352877873322417006int, 7072529491420303859243670111442004328int, 80913275964406644237706661941410375580int, 0int, 80913275964406644237706661941410375580int);
    lemma_pow_mod_step(3int, 360986030631931130182424nat, m, 180493015315965565091212nat, 80913275964406644237706661941410375580int, 25622503688955770837794787298681485256int, 109971319696742435021552139669025441288int, 0int, 109971319696742435021552139669025441288int);
    lemma_pow_mod_step(3int, 721972061263862260364849nat, m, 360986030631931130182424nat, 109971319696742435021552139669025441288int, 47330475542356198590198467997620358402int, 169798524777957626281587542074756590190int, 1int, 253879629960560031654042105711785594593int);
    lemma_pow_mod_step(3int, 1443944122527724520729698nat, m, 721972061263862260364849nat, 253879629960560031654042105711785594593int, 252253794443219984117810274933033323745int, 127316968272788729549260023572758161784int, 0int, 127316968272788729549260023572758161784int);
    lemma_pow_mod_step(3int, 2887888245055449041459396nat, m, 1443944122527724520729698nat, 127316968272788729549260023572758161784int, 63438743323554768400925046616199846588int, 135102001241774949059957636381723046180int, 0int, 135102001241774949059957636381723046180int);
    lemma_pow_mod_step(3int, 5775776490110898082918792nat, m, 2887888245055449041459396nat, 135102001241774949059957636381723046180int, 71434096937861904083099642648195566893int, 24266139540866651984329379834925462939int, 0int, 24266139540866651984329379834925462939int);
    lemma_pow_mod_step(3int, 11551552980221796165837584nat, m, 5775776490110898082918792nat, 24266139540866651984329379834925462939int, 2304535357513734453315849053866076958int, 180087346617568055692848729969165679755int, 0int, 180087346617568055692848729969165679755int);
}

proof fn lemma_certificate_41201_7()
    requires
        pow_mod(3int, 11551552980221796165837584nat, 255515944373312847190720520512484175977int) == 180087346617568055692848729969165679755int,
    ensures
        pow_mod(3int, 47315161006988477095270747431nat, 255515944373312847190720520512484175977int) == 230894185257925318741389370730524291689int,
{
    let m: int = 255515944373312847190720520512484175977int;
    lemma_pow_mod_step(3int, 23103105960443592331675169nat, m, 11551552980221796165837584nat, 180087346617568055692848729969165679755int, 126925356815984971552019729829481795106int, 170828697499889699769757999150055491463int, 2int, 1454203753043404927832956425198122435int);
    lemma_pow_mod_step(3int, 46206211920887184663350339nat, m, 23103105960443592331675169nat, 1454203753043404927832956425198122435int, 8276229338846665037937592574747337int, 185751725733870937269903259467830205976int, 2int, 46223288454987117428268737378522265974int);
    lemma_pow_mod_step(3int, 92412423841774369326700678nat, m, 46206211920887184663350339nat, 46223288454987117428268737378522265974int, 8361875032234191856263589222278744028int, 59960158470493698750220530699508353320int, 0int, 59960158470493698750220530699508353320int);
    lemma_pow_mod_step(3int, 184824847683548738653401357nat, m, 92412423841774369326700678nat, 59960158470493698750220530699508353320int, 14070435458047357426128534816071085222int, 251361656351207764622554757805142910506int, 2int, 243053080306997599486223232390460379564int);
    lemma_pow_mod_step(3int, 369649695367097477306802714nat, m, 184824847683548738653401357nat, 243053080306997599486223232390460379564int, 231198096039011189111222598306414956980int, 108376261896242976481795124339744360636int, 0int, 108376261896242976481795124339744360636int);
    lemma_pow_mod_step(3int, 739299390734194954613605428nat, m, 369649695367097477306802714nat, 108376261896242976481795124339744360636int, 45967441176362798467274094928504750387int, 241840723013720563158835341152659471397int, 0int, 241840723013720563158835341152659471397int);
    lemma_pow_mod_step(3int, 1478598781468389909227210857nat, m, 739299390734194954613605428nat, 241840723013720563158835341152659471397int, 228897399930349437396502653861827315485int, 47105900987732097173916169411224027764int, 0int, 141317702963196291521748508233672083292int);
    lemma_pow_mod_step(3int, 2957197562936779818454421714nat, m, 1478598781468389909227210857nat, 141317702963196291521748508233672083292int, 78158305227389952844821073401325766392int, 111604191816654002544267333281265192280int, 0int, 111604191816654002544267333281265192280int);
    lemma_pow_mod_step(3int, 5914395125873559636908843428nat, m, 2957197562936779818454421714nat, 111604191816654002544267333281265192280int, 48746451661156704837887992142733195031int, 52138911462320878180278724278905628113int, 0int, 52138911462320878180278724278905628113int);
    lemma_pow_mod_step(3int, 11828790251747119273817686857nat, m, 5914395125873559636908843428nat, 52138911462320878180278724278905628113int, 10639125065729805830048819593898964993int, 123279205151419693861085806076281367608int, 1int, 114321671080946234392536897716359926847int);
    lemma_pow_mod_step(3int, 23657580503494238547635373715nat, m, 11828790251747119273817686857nat, 114321671080946234392536897716359926847int, 51149232627320481013316969353289052023int, 35692970218691352843377929536551509938int, 0int, 107078910656074058530133788609654529814int);
    lemma_pow_mod_step(3int, 47315161006988477095270747431nat, m, 23657580503494238547635373715nat, 107078910656074058530133788609654529814int, 44873493649929097520228631774307359129int, 76964728419308439580463123576841430563int, 0int, 230894185257925318741389370730524291689int);
}

proof fn lemma_certificate_41201_8()
    requires
        pow_mod(3int, 47315161006988477095270747431nat, 255515944373312847190720520512484175977int) == 230894185257925318741389370730524291689int,
    ensures
        pow_mod(3int, 193802899484624802182228981481399nat, 255515944373312847190720520512484175977int) == 214169715988081077547704280734836787563int,
{
    let m: int = 255515944373312847190720520512484175977int;
    lemma_pow_mod_step(3int, 94630322013976954190541494863nat, m, 47315161006988477095270747431nat, 230894185257925318741389370730524291689int, 208645002239199905865021651262709312749int, 128005166586200033708279435059908841948int, 1int, 128499555385287253934117784667242349867int);
    lemma_pow_mod_step(3int, 189260644027953908381082989727nat, m, 94630322013976954190541494863nat, 128499555385287253934117784667242349867int, 64622721586767259874355296320374642866int, 24078730797409071551153546928363287607int, 0int, 72236192392227214653460640785089862821int);
    lemma_pow_mod_step(3int, 378521288055907816762165979455nat, m, 189260644027953908381082989727nat, 72236192392227214653460640785089862821int, 20421690333747570607839874626603051728int, 221758372833337798283109496799012139785int, 2int, 154243229753387700467887449372068067401int);
    lemma_pow_mod_step(3int, 757042576111815633524331958911nat, m, 378521288055907816762165979455nat, 154243229753387700467887449372068067401int, 93109547363499768761158893935074896384int, 219630865612356752478345986382181927633int, 2int, 147860708090444563053596918121577430945int);
    lemma_pow_mod_step(3int, 1514085152223631267048663917823nat, m, 757042576111815633524331958911nat, 147860708090444563053596918121577430945int, 85563306237616924591112297043996519821int, 23861450737426544885090439865311052908int, 0int, 71584352212279634655271319595933158724int);
    lemma_pow_mod_step(3int, 3028170304447262534097327835646nat, m, 1514085152223631267048663917823nat, 71584352212279634655271319595933158724int, 20054793426765541450062051560088865381int, 150329941183731744995455983089510155939int, 0int, 150329941183731744995455983089510155939int);
    lemma_pow_mod_step(3int, 6056340608894525068194655671293nat, m, 3028170304447262534097327835646nat, 150329941183731744995455983089510155939int, 88444935488200357145014661651550450996int, 251474614073535175223201387096318048629int, 2int, 243391953473979831288163120263985793933int);
    lemma_pow_mod_step(3int, 12112681217789050136389311342587nat, m, 6056340608894525068194655671293nat, 243391953473979831288163120263985793933int, 231843234523673813804712370586033734587int, 208828808047326520252825023893720191990int, 2int, 115454535395353866377034030656192224016int);
    lemma_pow_mod_step(3int, 24225362435578100272778622685174nat, m, 12112681217789050136389311342587nat, 115454535395353866377034030656192224016int, 52167976350947567399471032222889047365int, 247823771299055588232425981913779017651int, 0int, 247823771299055588232425981913779017651int);
    lemma_pow_mod_step(3int, 48450724871156200545557245370349nat, m, 24225362435578100272778622685174nat, 247823771299055588232425981913779017651int, 240363167048221265079450589593446357740int, 123528632869414036529081475290713545821int, 1int, 115069954234929262396523905359656461486int);
    lemma_pow_mod_step(3int, 96901449742312401091114490740699nat, m, 48450724871156200545557245370349nat, 115069954234929262396523905359656461486int, 51821010231296040046295687032127523635int, 213047430913305968245967073366034611801int, 2int, 128110403993292210356460179073135483449int);
    lemma_pow_mod_step(3int, 193802899484624802182228981481399nat, m, 96901449742312401091114490740699nat, 128110403993292210356460179073135483449int, 64231904007312928199236558529980508706int, 241733868244902257309715107253268379839int, 2int, 214169715988081077547704280734836787563int);
}

proof fn lemma_certificate_41201_9()
    requires
        pow_mod(3int, 193802899484624802182228981481399nat, 255515944373312847190720520512484175977int) == 214169715988081077547704280734836787563int,
    ensures
        pow_mod(3int, 6201692783507993669831327407404776nat, 255515944373312847190720520512484175977int) == 172827330636526207461984371528411705589int,
{
    let m: int = 255515944373312847190720520512484175977int;
    lemma_pow_mod_step(3int, 387605798969249604364457962962798nat, m, 193802899484624802182228981481399nat, 214169715988081077547704280734836787563int, 179513913931728899104120090311565568924int, 228170497009126585142221373088252940221int, 0int, 228170497009126585142221373088252940221int);
    lemma_pow_mod_step(3int, 775211597938499208728915925925597nat, m, 387605798969249604364457962962798nat, 228170497009126585142221373088252940221int, 203751573441259555743278506162665305104int, 137571387226002586241089035380667242233int, 1int, 157198217304694911532546585629517550722int);
    lemma_pow_mod_step(3int, 1550423195876998417457831851851194nat, m, 775211597938499208728915925925597nat, 157198217304694911532546585629517550722int, 96711301458630352372749511302935668015int, 11889633254683664140514163316532445629int, 0int, 11889633254683664140514163316532445629int);
    lemma_pow_mod_step(3int, 3100846391753996834915663703702388nat, m, 1550423195876998417457831851851194nat, 11889633254683664140514163316532445629int, 553246801398606740902412978562334969int, 12318072395706954605343907158824365928int, 0int, 12318072395706954605343907158824365928int);
    lemma_pow_mod_step(3int, 6201692783507993669831327407404776nat, m, 3100846391753996834915663703702388nat, 12318072395706954605343907158824365928int, 593837335349181049990978671511033235int, 172827330636526207461984371528411705589int, 0int, 172827330636526207461984371528411705589int);
}

proof fn lemma_certificate_41201()
    ensures
        pow_mod(3int, 6201692783507993669831327407404776nat, 255515944373312847190720520512484175977int) == 172827330636526207461984371528411705589int,
{
    lemma_pow_mod_zero(3int, 255515944373312847190720520512484175977int);
    lemma_certificate_41201_0();
    lemma_certificate_41201_1();
    lemma_certificate_41201_2();
    lemma_certificate_41201_3();
    lemma_certificate_41201_4();
    lemma_certificate_41201_5();
    lemma_certificate_41201_6();
    lemma_certificate_41201_7();
    lemma_certificate_41201_8();
    lemma_certificate_41201_9();
}

proof fn lemma_certificate_96557_0()
    requires
        pow_mod(3int, 0nat, 255515944373312847190720520512484175977int) == 1int,
    ensures
        pow_mod(3int, 2087nat, 255515944373312847190720520512484175977int) == 182812741732553954250691638379354702890int,
{
    let m: int = 255515944373312847190720520512484175977int;
    lemma_pow_mod_step(3int, 1nat, m, 0nat, 1int, 0int, 1int, 0int, 3int);
    lemma_pow_mod_step(3int, 2nat, m, 1nat, 3int, 0int, 9int, 0int, 9int);
    lemma_pow_mod_step(3int, 4nat, m, 2nat, 9int, 0int, 81int, 0int, 81int);
    lemma_pow_mod_step(3int, 8nat, m, 4nat, 81int, 0int, 6561int, 0int, 6561int);
    lemma_pow_mod_step(3int, 16nat, m, 8nat, 6561int, 0int, 43046721int, 0int, 43046721int);
    lemma_pow_mod_step(3int, 32nat, m, 16nat, 43046721int, 0int, 1853020188851841int, 0int, 1853020188851841int);
    lemma_pow_mod_step(3int, 65nat, m, 32nat, 1853020188851841int, 0int, 3433683820292512484657849089281int, 0int, 10301051460877537453973547267843int);
    lemma_pow_mod_step(3int, 130nat, m, 65nat, 10301051460877537453973547267843int, 415283912946803932552299int, 147747886339628384496645154530509951526int, 0int, 147747886339628384496645154530509951526int);
    lemma_pow_mod_step(3int, 260nat, m, 130nat, 147747886339628384496645154530509951526int, 85432781783412281991715045101833386829int, 199747605804887515371914295111719721743int, 0int, 199747605804887515371914295111719721743int);
    lemma_pow_mod_step(3int, 521nat, m, 260nat, 199747605804887515371914295111719721743int, 156151140088899915885721614364307244006int, 61947468354479665667960851466564514187int, 0int, 185842405063438997003882554399693542561int);
    lemma_pow_mod_step(3int, 1043nat, m, 521nat, 185842405063438997003882554399693542561int, 135167296915544527011542339124160317000int, 185509502328689063146461603173813729721int, 2int, 45496618239441495057943768496472837209int);
    lemma_pow_mod_step(3int, 2087nat, m, 1043nat, 45496618239441495057943768496472837209int, 8101029766664040495110588064022771563int, 60937580577517984750230546126451567630int, 0int, 182812741732553954250691638379354702890int);
}

proof fn lemma_certificate_96557_1()
    requires
        pow_mod(3int, 2087nat, 255515944373312847190720520512484175977int) == 182812741732553954250691638379354702890int,
    ensures
        pow_mod(3int, 8550561nat, 255515944373312847190720520512484175977int) == 20772901826785854376691913851433438920int,
{
    let m: int = 255515944373312847190720520512484175977int;
    lemma_pow_mod_step(3int, 4175nat, m, 2087nat, 182812741732553954250691638379354702890int, 130796137288973230326696988033452706624int, 57217356230393417676293700359204780452int, 0int, 171652068691180253028881101077614341356int);
    lemma_pow_mod_step(3int, 8350nat, m, 4175nat, 171652068691180253028881101077614341356int, 115313479783921666377367678638607761030int, 224639790717164226388632706149209142426int, 0int, 224639790717164226388632706149209142426int);
    lemma_pow_mod_step(3int, 16700nat, m, 8350nat, 224639790717164226388632706149209142426int, 197494663971826539423063040916381368596int, 101042220498994673878607129905787747184int, 0int, 101042220498994673878607129905787747184int);
    lemma_pow_mod_step(3int, 33400nat, m, 16700nat, 101042220498994673878607129905787747184int, 39956529321125940219243627033468942679int, 186706609074303374830467251997138107473int, 0int, 186706609074303374830467251997138107473int);
    lemma_pow_mod_step(3int, 66801nat, m, 33400nat, 186706609074303374830467251997138107473int, 136427329251495431501230869314651985543int, 23528639224124414425898917304826545218int, 0int, 70585917672373243277696751914479635654int);
    lemma_pow_mod_step(3int, 133602nat, m, 66801nat, 70585917672373243277696751914479635654int, 19499259765847446125813689287122090237int, 94560714327602318407484120969806371167int, 0int, 94560714327602318407484120969806371167int);
    lemma_pow_mod_step(3int, 267205nat, m, 133602nat, 94560714327602318407484120969806371167int, 34994797354338118890330792589878446061int, 217020782017879093362108775940142465292int, 2int, 140030457307011585704885286795459043922int);
    lemma_pow_mod_step(3int, 534410nat, m, 267205nat, 140030457307011585704885286795459043922int, 76740921282635977406152880230307660358int, 42470360249956081270612481541906322318int, 0int, 42470360249956081270612481541906322318int);
    lemma_pow_mod_step(3int, 1068820nat, m, 534410nat, 42470360249956081270612481541906322318int, 7059173955601648270536688475103805514int, 49713642524396353462890355840945955946int, 0int, 49713642524396353462890355840945955946int);
    lemma_pow_mod_step(3int, 2137640nat, m, 1068820nat, 49713642524396353462890355840945955946int, 9672375863295040667541448624492619405int, 100424810599503297607031726442067721231int, 0int, 100424810599503297607031726442067721231int);
    lemma_pow_mod_step(3int, 4275280nat, m, 2137640nat, 100424810599503297607031726442067721231int, 39469719232908442722729048899579383051int, 135362309410474237197634301579352989534int, 0int, 135362309410474237197634301579352989534int);
    lemma_pow_mod_step(3int, 8550561nat, m, 4275280nat, 135362309410474237197634301579352989534int, 71709633830782922322398983214236142774int, 177268263524470516252710984958800596958int, 2int, 20772901826785854376691913851433438920int);
}

proof fn lemma_certificate_96557_2()
    requires
        pow_mod(3int, 8550561nat, 255515944373312847190720520512484175977int) == 20772901826785854376691913851433438920int,
    ensures
        pow_mod(3int, 35023098958nat, 255515944373312847190720520512484175977int) == 86286265363237147844207217545311416801int,
{
    let m: int = 255515944373312847190720520512484175977int;
    lemma_pow_mod_step(3int, 17101122nat, m, 8550561nat, 20772901826785854376691913851433438920int, 1688792655830647856741209658748057478int, 167348676612474969130068665075107960394int, 0int, 167348676612474969130068665075107960394int);
    lemma_pow_mod_step(3int, 34202245nat, m, 17101122nat, 167348676612474969130068665075107960394int, 109604039124189177017411977855671525436int, 61731286118966231441373865495616984264int, 0int, 185193858356898694324121596486850952792int);
    lemma_pow_mod_step(3int, 68404490nat, m, 34202245nat, 185193858356898694324121596486850952792int, 134225538281896563369636067333139478471int, 71489461554245266030443809860245704097int, 0int, 71489461554245266030443809860245704097int);
    lemma_pow_mod_step(3int, 136808980nat, m, 68404490nat, 71489461554245266030443809860245704097int, 20001660271536852601710629315104486029int, 27346934567436723284804881115108660076int, 0int, 27346934567436723284804881115108660076int);
    lemma_pow_mod_step(3int, 273617960nat, m, 136808980nat, 27346934567436723284804881115108660076int, 2926842127483981178831207068965396180int, 47132204323750467112663465257472757916int, 0int, 47132204323750467112663465257472757916int);
    lemma_pow_mod_step(3int, 547235921nat, m, 273617960nat, 47132204323750467112663465257472757916int, 8693957200456329688203087764002770649int, 16106586532590536957710109673454163983int, 0int, 48319759597771610873130329020362491949int);
    lemma_pow_mod_step(3int, 1094471842nat, m, 547235921nat, 48319759597771610873130329020362491949int, 9137586984298964500752472928910263281int, 223592684718129631088271422231684418064int, 0int, 223592684718129631088271422231684418064int);
    lemma_pow_mod_step(3int, 2188943684nat, m, 1094471842nat, 223592684718129631088271422231684418064int, 195657804377246015765138840117495594759int, 152088857454699453423169168660694603553int, 0int, 152088857454699453423169168660694603553int);
    lemma_pow_mod_step(3int, 4377887369nat, m, 2188943684nat, 152088857454699453423169168660694603553int, 90526720822091249261244915623894474804int, 202410174837412597304836120524711640301int, 2int, 96198635765612097533067320549166568949int);
    lemma_pow_mod_step(3int, 8755774739nat, m, 4377887369nat, 96198635765612097533067320549166568949int, 36217612743744879179357382279573147280int, 40918820753380460844201988129512072041int, 0int, 122756462260141382532605964388536216123int);
    lemma_pow_mod_step(3int, 17511549479nat, m, 8755774739nat, 122756462260141382532605964388536216123int, 58975376521354181417832205002546460339int, 46767198980471509769490189688038074926int, 0int, 140301596941414529308470569064114224778int);
    lemma_pow_mod_step(3int, 35023098958nat, m, 17511549479nat, 140301596941414529308470569064114224778int, 77038394424230984348610015012247763979int, 86286265363237147844207217545311416801int, 0int, 86286265363237147844207217545311416801int);
}

proof fn lemma_certificate_96557_3()
    requires
        pow_mod(3int, 35023098958nat, 255515944373312847190720520512484175977int) == 86286265363237147844207217545311416801int,
    ensures
        pow_mod(3int, 143454613334212nat, 255515944373312847190720520512484175977int) == 232651411466325960951707495442640029359int,
{
    let m: int = 255515944373312847190720520512484175977int;
    lemma_pow_mod_step(3int, 70046197917nat, m, 35023098958nat, 86286265363237147844207217545311416801int, 29138375722875628934452875867730121408int, 181734209449200758154614652312898057985int, 2int, 34170739600976580082402915913725822001int);
    lemma_pow_mod_step(3int, 140092395834nat, m, 70046197917nat, 34170739600976580082402915913725822001int, 4569732224505760547608710187596320230int, 49507821160452809531718762014170529291int, 0int, 49507821160452809531718762014170529291int);
    lemma_pow_mod_step(3int, 280184791668nat, m, 140092395834nat, 49507821160452809531718762014170529291int, 9592451704205172867786459280532932610int, 44593443668884414304777938339967052711int, 0int, 44593443668884414304777938339967052711int);
    lemma_pow_mod_step(3int, 560369583336nat, m, 280184791668nat, 44593443668884414304777938339967052711int, 7782587592047201252869936473738821784int, 217284568754226567037191902715755366553int, 0int, 217284568754226567037191902715755366553int);
    lemma_pow_mod_step(3int, 1120739166673nat, m, 560369583336nat, 217284568754226567037191902715755366553int, 184773533152717383490270035035970515374int, 233040932631570234510708755506991131411int, 2int, 188090909148085009150685225496005042279int);
    lemma_pow_mod_step(3int, 2241478333347nat, m, 1120739166673nat, 188090909148085009150685225496005042279int, 138457857066113542196427107408571376212int, 203130370719133355816613671396897854717int, 2int, 98359223410774373068399973165725212197int);
    lemma_pow_mod_step(3int, 4482956666694nat, m, 2241478333347nat, 98359223410774373068399973165725212197int, 37862751984807545901913935057751006884int, 37433085184076982167910969951883141141int, 0int, 37433085184076982167910969951883141141int);
    lemma_pow_mod_step(3int, 8965913333388nat, m, 4482956666694nat, 37433085184076982167910969951883141141int, 5483946881808423859700708782067513480int, 206655415982812033546339126277787111921int, 0int, 206655415982812033546339126277787111921int);
    lemma_pow_mod_step(3int, 17931826666776nat, m, 8965913333388nat, 206655415982812033546339126277787111921int, 167138144978672119610591673166428811852int, 120598012962034817621746579606789030837int, 0int, 120598012962034817621746579606789030837int);
    lemma_pow_mod_step(3int, 35863653333553nat, m, 17931826666776nat, 120598012962034817621746579606789030837int, 56919660203835567590330871778348214852int, 85748937780048963697448671509563910165int, 1int, 1730868966834043901625494016207554518int);
    lemma_pow_mod_step(3int, 71727306667106nat, m, 35863653333553nat, 1730868966834043901625494016207554518int, 11724933204059009211486200937785742int, 10833332366899229336115396822092692390int, 0int, 10833332366899229336115396822092692390int);
    lemma_pow_mod_step(3int, 143454613334212nat, m, 71727306667106nat, 10833332366899229336115396822092692390int, 459310241713292241449139012756431533int, 232651411466325960951707495442640029359int, 0int, 232651411466325960951707495442640029359int);
}

proof fn lemma_certificate_96557_4()
    requires
        pow_mod(3int, 143454613334212nat, 255515944373312847190720520512484175977int) == 232651411466325960951707495442640029359int,
    ensures
        pow_mod(3int, 587590096216934324nat, 255515944373312847190720520512484175977int) == 193420322377320298493911111443823970507int,
{
    let m: int = 255515944373312847190720520512484175977int;
    lemma_pow_mod_step(3int, 286909226668424nat, m, 143454613334212nat, 232651411466325960951707495442640029359int, 211832883423485189561047371039942689225int, 113085347781623213233287360156860203056int, 0int, 113085347781623213233287360156860203056int);
    lemma_pow_mod_step(3int, 573818453336849nat, m, 286909226668424nat, 113085347781623213233287360156860203056int, 50048915398433105560805537995717906315int, 156732740841394921819728450383092144381int, 1int, 214682278150871918268464830636792257166int);
    lemma_pow_mod_step(3int, 1147636906673699nat, m, 573818453336849nat, 214682278150871918268464830636792257166int, 180374186296227123803342913453996429285int, 232980054337204646465107186945502065111int, 2int, 187908274264988245013880519811537843379int);
    lemma_pow_mod_step(3int, 2295273813347399nat, m, 1147636906673699nat, 187908274264988245013880519811537843379int, 138189104495405873858100987649309696724int, 86132110343227567326227979763417738293int, 1int, 2880386656369854787963418777769038902int);
    lemma_pow_mod_step(3int, 4590547626694799nat, m, 2295273813347399nat, 2880386656369854787963418777769038902int, 32470096183399059720400945018510501int, 243039006144051466814407989423882931127int, 2int, 218085129685528706061782927246680441427int);
    lemma_pow_mod_step(3int, 9181095253389598nat, m, 4590547626694799nat, 218085129685528706061782927246680441427int, 186137596644326499980729964653875720246int, 7587412741315337589991410980892065987int, 0int, 7587412741315337589991410980892065987int);
    lemma_pow_mod_step(3int, 18362190506779197nat, m, 9181095253389598nat, 7587412741315337589991410980892065987int, 225304265251507550667288174336333037int, 102896655839551151891816860926375432020int, 1int, 53174023145340608484730062266642120083int);
    lemma_pow_mod_step(3int, 36724381013558395nat, m, 18362190506779197nat, 53174023145340608484730062266642120083int, 11065754602500384011076495808835990937int, 69458200627915377862156323468306806440int, 0int, 208374601883746133586468970404920419320int);
    lemma_pow_mod_step(3int, 73448762027116790nat, m, 36724381013558395nat, 208374601883746133586468970404920419320int, 169930588154500550599704429449549808516int, 125791922967825780816133151344232042268int, 0int, 125791922967825780816133151344232042268int);
    lemma_pow_mod_step(3int, 146897524054233581nat, m, 73448762027116790nat, 125791922967825780816133151344232042268int, 61928064500056689680328638363299018950int, 213401896425891623388170174154880819674int, 2int, 129173800531049175783069481439674107068int);
    lemma_pow_mod_step(3int, 293795048108467162nat, m, 146897524054233581nat, 129173800531049175783069481439674107068int, 65302659622903839357259883364627293445int, 127547727632881089284563731158528985859int, 0int, 127547727632881089284563731158528985859int);
    lemma_pow_mod_step(3int, 587590096216934324nat, m, 293795048108467162nat, 127547727632881089284563731158528985859int, 63668914533737254523211642751623448462int, 193420322377320298493911111443823970507int, 0int, 193420322377320298493911111443823970507int);
}

proof fn lemma_certificate_96557_5()
    requires
        pow_mod(3int, 587590096216934324nat, 255515944373312847190720520512484175977int) == 193420322377320298493911111443823970507int,
    ensures
        pow_mod(3int, 2406769034104562993660nat, 255515944373312847190720520512484175977int) == 220825344472849965280227093517390725214int,
{
    let m: int = 255515944373312847190720520512484175977int;
    lemma_pow_mod_step(3int, 1175180192433868649nat, m, 587590096216934324nat, 193420322377320298493911111443823970507int, 146415211779848195400518566586360146873int, 214437986674155466672003712636307567128int, 2int, 132282071275840705634570096883954349430int);
    lemma_pow_mod_step(3int, 2350360384867737298nat, m, 1175180192433868649nat, 132282071275840705634570096883954349430int, 68483187708477976242548017089371011490int, 47991994116164797000190847530892349170int, 0int, 47991994116164797000190847530892349170int);
    lemma_pow_mod_step(3int, 4700720769735474596nat, m, 2350360384867737298nat, 47991994116164797000190847530892349170int, 9014042176095824162454003616177367287int, 187071737632594470561914886485728624501int, 0int, 187071737632594470561914886485728624501int);
    lemma_pow_mod_step(3int, 9401441539470949193nat, m, 4700720769735474596nat, 187071737632594470561914886485728624501int, 136961453058087021970373205926826481353int, 194963428590626691780875016778896442120int, 2int, 73858397025254380961184009311720974406int);
    lemma_pow_mod_step(3int, 18802883078941898387nat, m, 9401441539470949193nat, 73858397025254380961184009311720974406int, 21349207089676454424179066722733507655int, 232501051220130174582348989086610448901int, 2int, 186471264913764829365605926234862994749int);
    lemma_pow_mod_step(3int, 37605766157883796775nat, m, 18802883078941898387nat, 186471264913764829365605926234862994749int, 136083612018112269493386407072294459023int, 57700660195713875160428591363654082530int, 0int, 173101980587141625481285774090962247590int);
    lemma_pow_mod_step(3int, 75211532315767593551nat, m, 37605766157883796775nat, 173101980587141625481285774090962247590int, 117269768650573308031418611333037561565int, 58763937631309448977497751596029284095int, 0int, 176291812893928346932493254788087852285int);
    lemma_pow_mod_step(3int, 150423064631535187103nat, m, 75211532315767593551nat, 176291812893928346932493254788087852285int, 121631561465382435931280283485848147163int, 172832536252422461468700099401694417974int, 2int, 7465720010641690024659257180114901968int);
    lemma_pow_mod_step(3int, 300846129263070374207nat, m, 150423064631535187103nat, 7465720010641690024659257180114901968int, 218135018595407695385112145612117443int, 219072201182787385111022658900247006213int, 2int, 146184714801736460951626935675772666685int);
    lemma_pow_mod_step(3int, 601692258526140748415nat, m, 300846129263070374207nat, 146184714801736460951626935675772666685int, 83634588417085866126406872321416711412int, 134474140494563582457351311340076739701int, 1int, 147906477110377900181333413507746043126int);
    lemma_pow_mod_step(3int, 1203384517052281496830nat, m, 601692258526140748415nat, 147906477110377900181333413507746043126int, 85616285217963081476160476268348279873int, 214408260478559572687156288550072640955int, 0int, 214408260478559572687156288550072640955int);
    lemma_pow_mod_step(3int, 2406769034104562993660nat, m, 1203384517052281496830nat, 214408260478559572687156288550072640955int, 179914025616646582527617572206621277443int, 220825344472849965280227093517390725214int, 0int, 220825344472849965280227093517390725214int);
}

proof fn lemma_certificate_96557_6()
    requires
        pow_mod(3int, 2406769034104562993660nat, 255515944373312847190720520512484175977int) == 220825344472849965280227093517390725214int,
    ensures
        pow_mod(3int, 9858125963692290022032050nat, 255515944373312847190720520512484175977int) == 102255323745026307346142929729367007965int,
{
    let m: int = 255515944373312847190720520512484175977int;
    lemma_pow_mod_step(3int, 4813538068209125987320nat, m, 2406769034104562993660nat, 220825344472849965280227093517390725214int, 190844578725420420948272379848327481025int, 71420302077876016758225986727627009371int, 0int, 71420302077876016758225986727627009371int);
    lemma_pow_mod_step(3int, 9627076136418251974640nat, m, 4813538068209125987320nat, 71420302077876016758225986727627009371int, 19962979458701115640698388917557603433int, 7222655256974385654971835393370486600int, 0int, 7222655256974385654971835393370486600int);
    lemma_pow_mod_step(3int, 19254152272836503949281nat, m, 9627076136418251974640nat, 7222655256974385654971835393370486600int, 204162402033445244767403215936984173int, 180471658863169893374266640062383747979int, 2int, 30383087842883985741358879162182891983int);
    lemma_pow_mod_step(3int, 38508304545673007898562nat, m, 19254152272836503949281nat, 30383087842883985741358879162182891983int, 3612815744757180858254307048678150703int, 49085561227719681025734115858267410458int, 0int, 49085561227719681025734115858267410458int);
    lemma_pow_mod_step(3int, 77016609091346015797125nat, m, 38508304545673007898562nat, 49085561227719681025734115858267410458int, 9429518486408258131383307464753422498int, 252792859800607669774447533902984839218int, 2int, 247346690655197314941901560683986165700int);
    lemma_pow_mod_step(3int, 154033218182692031594250nat, m, 77016609091346015797125nat, 247346690655197314941901560683986165700int, 239438621054083268368166817258581554893int, 13209972629553266893644217797359084539int, 0int, 13209972629553266893644217797359084539int);
    lemma_pow_mod_step(3int, 308066436365384063188501nat, m, 154033218182692031594250nat, 13209972629553266893644217797359084539int, 682945157499033608107722446780020693int, 178269049735651797596426121033035350460int, 2int, 23775260460329698407837322074137699426int);
    lemma_pow_mod_step(3int, 616132872730768126377003nat, m, 308066436365384063188501nat, 23775260460329698407837322074137699426int, 2212241632681280038122283304415372470int, 55851714817414558680811614160439576286int, 0int, 167555144452243676042434842481318728858int);
    lemma_pow_mod_step(3int, 1232265745461536252754006nat, m, 616132872730768126377003nat, 167555144452243676042434842481318728858int, 109874655772536151985637248363933973575int, 146145160746344391209206767861754176389int, 0int, 146145160746344391209206767861754176389int);
    lemma_pow_mod_step(3int, 2464531490923072505508012nat, m, 1232265745461536252754006nat, 146145160746344391209206767861754176389int, 83589335538176312978876595053802865466int, 150713541990694118315871441339324969039int, 0int, 150713541990694118315871441339324969039int);
    lemma_pow_mod_step(3int, 4929062981846145011016025nat, m, 2464531490923072505508012nat, 150713541990694118315871441339324969039int, 88896885848322520560849886729537753739int, 177105432073121421285097540275342855518int, 2int, 20284407472738569473851579801060214600int);
    lemma_pow_mod_step(3int, 9858125963692290022032050nat, m, 4929062981846145011016025nat, 20284407472738569473851579801060214600int, 1610299457160085649725304082885822955int, 102255323745026307346142929729367007965int, 0int, 102255323745026307346142929729367007965int);
}

proof fn lemma_certificate_96557_7()
    requires
        pow_mod(3int, 9858125963692290022032050nat, 255515944373312847190720520512484175977int) == 102255323745026307346142929729367007965int,
    ensures
        pow_mod(3int, 40378883947283619930243277337nat, 255515944373312847190720520512484175977int) == 67495376929893078464091530979220169074int,
{
    let m: int = 255515944373312847190720520512484175977int;
    lemma_pow_mod_step(3int, 19716251927384580044064100nat, m, 9858125963692290022032050nat, 102255323745026307346142929729367007965int, 40921717272263597650783098737696386197int, 51367856363156345959467490436071651756int, 0int, 51367856363156345959467490436071651756int);
    lemma_pow_mod_step(3int, 39432503854769160088128200nat, m, 19716251927384580044064100nat, 51367856363156345959467490436071651756int, 10326778917133807749712948950639023840int, 224969170466251430813206564984079591856int, 0int, 224969170466251430813206564984079591856int);
    lemma_pow_mod_step(3int, 78865007709538320176256401nat, m, 39432503854769160088128200nat, 224969170466251430813206564984079591856int, 198074244581503042409898935048447603706int, 4281967302469170177166797141880153974int, 0int, 12845901907407510531500391425640461922int);
    lemma_pow_mod_step(3int, 157730015419076640352512802nat, m, 78865007709538320176256401nat, 12845901907407510531500391425640461922int, 645819564095942196986685035509910504int, 194399107588435717756550280514075171676int, 0int, 194399107588435717756550280514075171676int);
    lemma_pow_mod_step(3int, 315460030838153280705025604nat, m, 157730015419076640352512802nat, 194399107588435717756550280514075171676int, 147900801743968415775182692837365112006int, 5972117221213094293498071425653169114int, 0int, 5972117221213094293498071425653169114int);
    lemma_pow_mod_step(3int, 630920061676306561410051208nat, m, 315460030838153280705025604nat, 5972117221213094293498071425653169114int, 139584964810654439639808890443457233int, 204602817015291024191983554626438053355int, 0int, 204602817015291024191983554626438053355int);
    lemma_pow_mod_step(3int, 1261840123352613122820102416nat, m, 630920061676306561410051208nat, 204602817015291024191983554626438053355int, 163834444199815411194385056089537599039int, 129964987852516799734499376740884669922int, 0int, 129964987852516799734499376740884669922int);
    lemma_pow_mod_step(3int, 2523680246705226245640204833nat, m, 1261840123352613122820102416nat, 129964987852516799734499376740884669922int, 66105064828467100869033484990568937667int, 202112806930494407749884992746119660425int, 2int, 95306532044857528868213937213390629321int);
    lemma_pow_mod_step(3int, 5047360493410452491280409667nat, m, 2523680246705226245640204833nat, 95306532044857528868213937213390629321int, 35548995084027157434307909422163317844int, 110544778157794983277773190013744687453int, 1int, 76118390100072102642599049528749886382int);
    lemma_pow_mod_step(3int, 10094720986820904982560819334nat, m, 5047360493410452491280409667nat, 76118390100072102642599049528749886382int, 22675725092762176859147711067035131445int, 127913385508657760265009637877202753159int, 0int, 127913385508657760265009637877202753159int);
    lemma_pow_mod_step(3int, 20189441973641809965121638668nat, m, 10094720986820904982560819334nat, 127913385508657760265009637877202753159int, 64034493942896956170080199002300915713int, 110798835191450429661163639560148052680int, 0int, 110798835191450429661163639560148052680int);
    lemma_pow_mod_step(3int, 40378883947283619930243277337nat, m, 20189441973641809965121638668nat, 110798835191450429661163639560148052680int, 48045463111476932106138282315722627679int, 107670440434401975218270683830568115017int, 1int, 67495376929893078464091530979220169074int);
}

proof fn lemma_certificate_96557_8()
    requires
        pow_mod(3int, 40378883947283619930243277337nat, 255515944373312847190720520512484175977int) == 67495376929893078464091530979220169074int,
    ensures
        pow_mod(3int, 165391908648073707234276463974960nat, 255515944373312847190720520512484175977int) == 166883083468778870117394356395399533565int,
{
    let m: int = 255515944373312847190720520512484175977int;
    lemma_pow_mod_step(3int, 80757767894567239860486554675nat, m, 40378883947283619930243277337nat, 67495376929893078464091530979220169074int, 17829125763879928777862926686682040661int, 177510491014935049085953772955752616679int, 2int, 21499584298179452876420277842289498083int);
    lemma_pow_mod_step(3int, 161515535789134479720973109350nat, m, 80757767894567239860486554675nat, 21499584298179452876420277842289498083int, 1809014799950002383071554202841237752int, 130931955579223154262402681423596791185int, 0int, 130931955579223154262402681423596791185int);
    lemma_pow_mod_step(3int, 323031071578268959441946218701nat, m, 161515535789134479720973109350nat, 130931955579223154262402681423596791185int, 67092396264529041674307401287398273085int, 249908559134811453478798336049451025180int, 2int, 238693788657808666054953967123384723586int);
    lemma_pow_mod_step(3int, 646062143156537918883892437402nat, m, 323031071578268959441946218701nat, 238693788657808666054953967123384723586int, 222979136912793404889973537369089181600int, 224740664822495134662203595092314276196int, 0int, 224740664822495134662203595092314276196int);
    lemma_pow_mod_step(3int, 1292124286313075837767784874804nat, m, 646062143156537918883892437402nat, 224740664822495134662203595092314276196int, 197672073062742329977106557291739948159int, 143826553916164091111964028753559054073int, 0int, 143826553916164091111964028753559054073int);
    lemma_pow_mod_step(3int, 2584248572626151675535569749608nat, m, 1292124286313075837767784874804nat, 143826553916164091111964028753559054073int, 80958069611407767116407053166643810015int, 230418899121481028756730825189522879674int, 0int, 230418899121481028756730825189522879674int);
    lemma_pow_mod_step(3int, 5168497145252303351071139499217nat, m, 2584248572626151675535569749608nat, 230418899121481028756730825189522879674int, 207786912094948278619556700803023262176int, 74154295086772869713261793295690400324int, 0int, 222462885260318609139785379887071200972int);
    lemma_pow_mod_step(3int, 10336994290504606702142278998435nat, m, 5168497145252303351071139499217nat, 222462885260318609139785379887071200972int, 193685507335856875066418203848300481018int, 159831860817308292535920683503953640198int, 1int, 223979638078612030417041529999376744617int);
    lemma_pow_mod_step(3int, 20673988581009213404284557996870nat, m, 10336994290504606702142278998435nat, 223979638078612030417041529999376744617int, 196335607927978957885199242609169467786int, 78577537004013443692385584616581899767int, 0int, 78577537004013443692385584616581899767int);
    lemma_pow_mod_step(3int, 41347977162018426808569115993740nat, m, 20673988581009213404284557996870nat, 78577537004013443692385584616581899767int, 24164555901827256915432780415354332322int, 91582106263051225979260737765647625695int, 0int, 91582106263051225979260737765647625695int);
    lemma_pow_mod_step(3int, 82695954324036853617138231987480nat, m, 41347977162018426808569115993740nat, 91582106263051225979260737765647625695int, 32824887731165826167324822575818037067int, 106107869237997752924612989415687293566int, 0int, 106107869237997752924612989415687293566int);
    lemma_pow_mod_step(3int, 165391908648073707234276463974960nat, m, 82695954324036853617138231987480nat, 106107869237997752924612989415687293566int, 44063316447206236634333355995840467183int, 166883083468778870117394356395399533565int, 0int, 166883083468778870117394356395399533565int);
}

proof fn lemma_certificate_96557_9()
    requires
        pow_mod(3int, 165391908648073707234276463974960nat, 255515944373312847190720520512484175977int) == 166883083468778870117394356395399533565int,
    ensures
        pow_mod(3int, 2646270538369179315748423423599368nat, 255515944373312847190720520512484175977int) == 255259905881023646761568249610326048823int,
{
    let m: int = 255515944373312847190720520512484175977int;
    lemma_pow_mod_step(3int, 330783817296147414468552927949921nat, m, 165391908648073707234276463974960nat, 166883083468778870117394356395399533565int, 108995012488763429020616797988858248261int, 242933141505190224236603516321283383228int, 2int, 217767535768944978328369507938881797730int);
    lemma_pow_mod_step(3int, 661567634592294828937105855899842nat, m, 330783817296147414468552927949921nat, 217767535768944978328369507938881797730int, 185595852936650459147473181153839250137int, 229715732839428878375802912336603794051int, 0int, 229715732839428878375802912336603794051int);
    lemma_pow_mod_step(3int, 1323135269184589657874211711799684nat, m, 661567634592294828937105855899842nat, 229715732839428878375802912336603794051int, 206520646073103965799865621403855265069int, 130571951511755374346931863668645943188int, 0int, 130571951511755374346931863668645943188int);
    lemma_pow_mod_step(3int, 2646270538369179315748423423599368nat, m, 1323135269184589657874211711799684nat, 130571951511755374346931863668645943188int, 66723955577031571681621716756260386673int, 255259905881023646761568249610326048823int, 0int, 255259905881023646761568249610326048823int);
}

proof fn lemma_certificate_96557()
    ensures
        pow_mod(3int, 2646270538369179315748423423599368nat, 255515944373312847190720520512484175977int) == 255259905881023646761568249610326048823int,
{
    lemma_pow_mod_zero(3int, 255515944373312847190720520512484175977int);
    lemma_certificate_96557_0();
    lemma_certificate_96557_1();
    lemma_certificate_96557_2();
    lemma_certificate_96557_3();
    lemma_certificate_96557_4();
    lemma_certificate_96557_5();
    lemma_certificate_96557_6();
    lemma_certificate_96557_7();
    lemma_certificate_96557_8();
    lemma_certificate_96557_9();
}

proof fn lemma_certificate_7240687_0()
    requires
        pow_mod(3int, 0nat, 255515944373312847190720520512484175977int) == 1int,
    ensures
        pow_mod(3int, 3563nat, 255515944373312847190720520512484175977int) == 13751927023953596719336640786300375032int,
{
    let m: int = 255515944373312847190720520512484175977int;
    lemma_pow_mod_step(3int, 1nat, m, 0nat, 1int, 0int, 1int, 0int, 3int);
    lemma_pow_mod_step(3int, 3nat, m, 1nat, 3int, 0int, 9int, 0int, 27int);
    lemma_pow_mod_step(3int, 6nat, m, 3nat, 27int, 0int, 729int, 0int, 729int);
    lemma_pow_mod_step(3int, 13nat, m, 6nat, 729int, 0int, 531441int, 0int, 1594323int);
    lemma_pow_mod_step(3int, 27nat, m, 13nat, 1594323int, 0int, 2541865828329int, 0int, 7625597484987int);
    lemma_pow_mod_step(3int, 55nat, m, 27nat, 7625597484987int, 0int, 58149737003040059690390169int, 0int, 174449211009120179071170507int);
    lemma_pow_mod_step(3int, 111nat, m, 55nat, 174449211009120179071170507int, 119102263055812int, 4291620650030546891730393044286008725int, 0int, 12874861950091640675191179132858026175int);
    lemma_pow_mod_step(3int, 222nat, m, 111nat, 12874861950091640675191179132858026175int, 648734741937420981447619136915006677int, 196388442009535296862140590369187132196int, 0int, 196388442009535296862140590369187132196int);
    lemma_pow_mod_step(3int, 445nat, m, 222nat, 196388442009535296862140590369187132196int, 150943301207785040026201745402498668311int, 155427027754293393693889912904102417569int, 1int, 210765138889567333890949218199823076730int);
    lemma_pow_mod_step(3int, 890nat, m, 445nat, 210765138889567333890949218199823076730int, 173851944465107211427298723781239320272int, 36475088737905831049708172415955987156int, 0int, 36475088737905831049708172415955987156int);
    lemma_pow_mod_step(3int, 1781nat, m, 890nat, 36475088737905831049708172415955987156int, 5206845708596260414374129040369069485int, 168295935324727146443920371943956206491int, 1int, 249371861600868592141040595319384443496int);
    lemma_pow_mod_step(3int, 3563nat, m, 1781nat, 249371861600868592141040595319384443496int, 243375518153292038089189697769085293869int, 89755957132422147970019053766261517003int, 1int, 13751927023953596719336640786300375032int);
}

proof fn lemma_certificate_7240687_1()
    requires
        pow_mod(3int, 3563nat, 255515944373312847190720520512484175977int) == 13751927023953596719336640786300375032int,
    ensures
        pow_mod(3int, 14595150nat, 255515944373312847190720520512484175977int) == 218797762184799676842218803315410352182int,
{
    let m: int = 255515944373312847190720520512484175977int;
    lemma_pow_mod_step(3int, 7126nat, m, 3563nat, 13751927023953596719336640786300375032int, 740131882321380646333626933792205980int, 130440984520645752942883318058497258564int, 0int, 130440984520645752942883318058497258564int);
    lemma_pow_mod_step(3int, 14253nat, m, 7126nat, 130440984520645752942883318058497258564int, 66590171053499419115521895258841971128int, 16929055281985347492322706707966150040int, 0int, 50787165845956042476968120123898450120int);
    lemma_pow_mod_step(3int, 28506nat, m, 14253nat, 50787165845956042476968120123898450120int, 10094619421855697670324273170392137390int, 176849773491011625609068097864206534370int, 0int, 176849773491011625609068097864206534370int);
    lemma_pow_mod_step(3int, 57012nat, m, 28506nat, 176849773491011625609068097864206534370int, 122402703520245361067399187327358543292int, 117607916943357251181365980774290400616int, 0int, 117607916943357251181365980774290400616int);
    lemma_pow_mod_step(3int, 114024nat, m, 57012nat, 117607916943357251181365980774290400616int, 54132129255884706367953564238920328884int, 165853389357259416041792265815201159788int, 0int, 165853389357259416041792265815201159788int);
    lemma_pow_mod_step(3int, 228049nat, m, 114024nat, 165853389357259416041792265815201159788int, 107654130268684998579091380158603325384int, 127641388413580315956658103069061104776int, 1int, 127408220867428100679253788694699138351int);
    lemma_pow_mod_step(3int, 456098nat, m, 228049nat, 127408220867428100679253788694699138351int, 63529713515203900895941648483253210025int, 22472642495530744060313777719598429776int, 0int, 22472642495530744060313777719598429776int);
    lemma_pow_mod_step(3int, 912196nat, m, 456098nat, 22472642495530744060313777719598429776int, 1976470243258450181779208854180427463int, 244528624476558481990268560027627753825int, 0int, 244528624476558481990268560027627753825int);
    lemma_pow_mod_step(3int, 1824393nat, m, 912196nat, 244528624476558481990268560027627753825int, 234013765109849313377281652131260694658int, 181349464055021971932491677441066299759int, 2int, 33016503418440221416033991298230547323int);
    lemma_pow_mod_step(3int, 3648787nat, m, 1824393nat, 33016503418440221416033991298230547323int, 4266228867452736261430699371068424686int, 14978053827523968778001043287947498107int, 0int, 44934161482571906334003129863842494321int);
    lemma_pow_mod_step(3int, 7297575nat, m, 3648787nat, 44934161482571906334003129863842494321int, 7901968204347915176197427916664177983int, 121471347032537629552507572475096336650int, 1int, 108898096724300041466802196912804833973int);
    lemma_pow_mod_step(3int, 14595150nat, m, 7297575nat, 108898096724300041466802196912804833973int, 46411176019799058645441258157699118411int, 218797762184799676842218803315410352182int, 0int, 218797762184799676842218803315410352182int);
}

proof fn lemma_certificate_7240687_2()
    requires
        pow_mod(3int, 14595150nat, 255515944373312847190720520512484175977int) == 218797762184799676842218803315410352182int,
    ensures
        pow_mod(3int, 59781737128nat, 255515944373312847190720520512484175977int) == 151093806929367680360926088636619715293int,
{
    let m: int = 255515944373312847190720520512484175977int;
    lemma_pow_mod_step(3int, 29190301nat, m, 14595150nat, 218797762184799676842218803315410352182int, 187356060517044412175302595609710995177int, 106456932665619950001717253171805898195int, 1int, 63854853623547002814431239002933518608int);
    lemma_pow_mod_step(3int, 58380602nat, m, 29190301nat, 63854853623547002814431239002933518608int, 15957682567657718774390924765425950758int, 94723969741606996558121601798073717098int, 0int, 94723969741606996558121601798073717098int);
    lemma_pow_mod_step(3int, 116761205nat, m, 58380602nat, 94723969741606996558121601798073717098int, 35115735989061107165258218637865473591int, 91367327217231327060147795156047418197int, 1int, 18586037278381133989722864955658078614int);
    lemma_pow_mod_step(3int, 233522410nat, m, 116761205nat, 18586037278381133989722864955658078614int, 1351934348209122831180627690919645198int, 233074086327143397848178637583969152550int, 0int, 233074086327143397848178637583969152550int);
    lemma_pow_mod_step(3int, 467044821nat, m, 233522410nat, 233074086327143397848178637583969152550int, 212603287244827095847870101660507456114int, 148699395407064508868477499717390929122int, 1int, 190582241847880679414711978639688611389int);
    lemma_pow_mod_step(3int, 934089642nat, m, 467044821nat, 190582241847880679414711978639688611389int, 142149997710896903217159214238285288532int, 167577422128944400719035966023352513557int, 0int, 167577422128944400719035966023352513557int);
    lemma_pow_mod_step(3int, 1868179285nat, m, 934089642nat, 167577422128944400719035966023352513557int, 109903874986188321915056984169136990057int, 129655878996885793691748028838181531560int, 1int, 133451692617344533884523566002060418703int);
    lemma_pow_mod_step(3int, 3736358570nat, m, 1868179285nat, 133451692617344533884523566002060418703int, 69699581003111338275330985188296561762int, 124602392850860316645043242330815010735int, 0int, 124602392850860316645043242330815010735int);
    lemma_pow_mod_step(3int, 7472717141nat, m, 3736358570nat, 124602392850860316645043242330815010735int, 60762377636507684820249170317829117660int, 96198066830582657570011312116086786405int, 1int, 33078256118435125519313415835776183238int);
    lemma_pow_mod_step(3int, 14945434282nat, m, 7472717141nat, 33078256118435125519313415835776183238int, 4282202547165470001109386341595649392int, 59051634774846943612195149891631108660int, 0int, 59051634774846943612195149891631108660int);
    lemma_pow_mod_step(3int, 29890868564nat, m, 14945434282nat, 59051634774846943612195149891631108660int, 13647271907569145307813686159280147430int, 238882231327514668985974683102102706490int, 0int, 238882231327514668985974683102102706490int);
    lemma_pow_mod_step(3int, 59781737128nat, m, 29890868564nat, 238882231327514668985974683102102706490int, 223331348593416030124940789240996991791int, 151093806929367680360926088636619715293int, 0int, 151093806929367680360926088636619715293int);
}

proof fn lemma_certificate_7240687_3()
    requires
        pow_mod(3int, 59781737128nat, 255515944373312847190720520512484175977int) == 151093806929367680360926088636619715293int,
    ensures
        pow_mod(3int, 244865995279602nat, 255515944373312847190720520512484175977int) == 33031110226527388901072023967352856685int,
{
    let m: int = 255515944373312847190720520512484175977int;
    lemma_pow_mod_step(3int, 119563474257nat, m, 59781737128nat, 151093806929367680360926088636619715293int, 89346042762227828934153320270567610539int, 154207796673159212841216614595102254246int, 1int, 207107445646164791332929323272822586761int);
    lemma_pow_mod_step(3int, 239126948515nat, m, 119563474257nat, 207107445646164791332929323272822586761int, 167870127037595071948616405033965077281int, 158635535565198968360976005614963792584int, 1int, 220390662322284057892207496332407201775int);
    lemma_pow_mod_step(3int, 478253897030nat, m, 239126948515nat, 220390662322284057892207496332407201775int, 190093984772592160262222356065967576260int, 194865505759561697911822619079555644605int, 0int, 194865505759561697911822619079555644605int);
    lemma_pow_mod_step(3int, 956507794060nat, m, 478253897030nat, 194865505759561697911822619079555644605int, 148611333934806248589364071907095108440int, 17815156886258327367541229876207660145int, 0int, 17815156886258327367541229876207660145int);
    lemma_pow_mod_step(3int, 1913015588121nat, m, 956507794060nat, 17815156886258327367541229876207660145int, 1242113542700492142274230019602670922int, 125198558819938391564149302366352580231int, 1int, 120079732086502327501727386586573564716int);
    lemma_pow_mod_step(3int, 3826031176243nat, m, 1913015588121nat, 120079732086502327501727386586573564716int, 56431476686635184620750760946104165354int, 181572824153329044348801405783397659798int, 2int, 33686583713361438664963176325224627440int);
    lemma_pow_mod_step(3int, 7652062352487nat, m, 3826031176243nat, 33686583713361438664963176325224627440int, 4441155032655683920850880060396361102int, 217411528610361351680655022118995306946int, 2int, 141202697084458360660524025332017568884int);
    lemma_pow_mod_step(3int, 15304124704975nat, m, 7652062352487nat, 141202697084458360660524025332017568884int, 78031144838442163033365396639283809760int, 24188040980924131347138695350854869936int, 0int, 72564122942772394041416086052564609808int);
    lemma_pow_mod_step(3int, 30608249409950nat, m, 15304124704975nat, 72564122942772394041416086052564609808int, 20607527844762329330166140908687119020int, 100749876378094618601302588388466014324int, 0int, 100749876378094618601302588388466014324int);
    lemma_pow_mod_step(3int, 61216498819900nat, m, 30608249409950nat, 100749876378094618601302588388466014324int, 39725652405359297726246877400122076578int, 114437067435831377331498214491751210270int, 0int, 114437067435831377331498214491751210270int);
    lemma_pow_mod_step(3int, 122432997639801nat, m, 61216498819900nat, 114437067435831377331498214491751210270int, 51252544867336281748928425187596706664int, 217312319824433457242833226310728862172int, 2int, 140905070726674677347058637907218234562int);
    lemma_pow_mod_step(3int, 244865995279602nat, m, 122432997639801nat, 140905070726674677347058637907218234562int, 77702544180498713159366618130435431167int, 33031110226527388901072023967352856685int, 0int, 33031110226527388901072023967352856685int);
}

proof fn lemma_certificate_7240687_4()
    requires
        pow_mod(3int, 244865995279602nat, 255515944373312847190720520512484175977int) == 33031110226527388901072023967352856685int,
    ensures
        pow_mod(3int, 1002971116665251726nat, 255515944373312847190720520512484175977int) == 249484083838159616466970710363977134809int,
{
    let m: int = 255515944373312847190720520512484175977int;
    lemma_pow_mod_step(3int, 489731990559204nat, m, 244865995279602nat, 33031110226527388901072023967352856685int, 4270004541098048660979909985852886931int, 87140426783803353302622240250061732638int, 0int, 87140426783803353302622240250061732638int);
    lemma_pow_mod_step(3int, 979463981118409nat, m, 489731990559204nat, 87140426783803353302622240250061732638int, 29718121891326030644780091423122547796int, 32077614949771128184550298396736942352int, 0int, 96232844849313384553650895190210827056int);
    lemma_pow_mod_step(3int, 1958927962236819nat, m, 979463981118409nat, 96232844849313384553650895190210827056int, 36243375929064934386941276002719240424int, 201909961181815743256594149350553532888int, 2int, 94697994798821535388341407026692246710int);
    lemma_pow_mod_step(3int, 3917855924473639nat, m, 1958927962236819nat, 94697994798821535388341407026692246710int, 35096479951230220340778171686264325565int, 107675611810369955627618717836825872095int, 1int, 67510891057797019692135632997993440308int);
    lemma_pow_mod_step(3int, 7835711848947279nat, m, 3917855924473639nat, 67510891057797019692135632997993440308int, 17837322921652340373403091421978897661int, 31517787352832326264659935317161445067int, 0int, 94553362058496978793979805951484335201int);
    lemma_pow_mod_step(3int, 15671423697894558nat, m, 7835711848947279nat, 94553362058496978793979805951484335201int, 34989355746439212466430931977480198405int, 153878713647022195043822542468032993716int, 0int, 153878713647022195043822542468032993716int);
    lemma_pow_mod_step(3int, 31342847395789116nat, m, 15671423697894558nat, 153878713647022195043822542468032993716int, 92669984144188509427061683396547018749int, 21358366361623284976284440044061095883int, 0int, 21358366361623284976284440044061095883int);
    lemma_pow_mod_step(3int, 62685694791578232nat, m, 31342847395789116nat, 21358366361623284976284440044061095883int, 1785328171031218065067216934057564521int, 134343349589069443837438989782723837672int, 0int, 134343349589069443837438989782723837672int);
    lemma_pow_mod_step(3int, 125371389583156465nat, m, 62685694791578232nat, 134343349589069443837438989782723837672int, 70634087524660742038982453266371147894int, 229258501709470146017478582479217437146int, 2int, 176743616381784743670994706412683959484int);
    lemma_pow_mod_step(3int, 250742779166312931nat, m, 125371389583156465nat, 176743616381784743670994706412683959484int, 122255798980872316925644354953048459745int, 10654593116186453432828006826373000391int, 0int, 31963779348559360298484020479119001173int);
    lemma_pow_mod_step(3int, 501485558332625863nat, m, 250742779166312931nat, 31963779348559360298484020479119001173int, 3998510514673379828943705670484384169int, 178289156472792088108068413716906467816int, 2int, 23835580671750569942764200125751051494int);
    lemma_pow_mod_step(3int, 1002971116665251726nat, m, 501485558332625863nat, 23835580671750569942764200125751051494int, 2223481228746630554307033199123551251int, 249484083838159616466970710363977134809int, 0int, 249484083838159616466970710363977134809int);
}

proof fn lemma_certificate_7240687_5()
    requires
        pow_mod(3int, 1002971116665251726nat, 255515944373312847190720520512484175977int) == 249484083838159616466970710363977134809int,
    ensures
        pow_mod(3int, 4108169693860871073323nat, 255515944373312847190720520512484175977int) == 76484896312389825435004849458317693696int,
{
    let m: int = 255515944373312847190720520512484175977int;
    lemma_pow_mod_step(3int, 2005942233330503453nat, m, 1002971116665251726nat, 249484083838159616466970710363977134809int, 243594614970989274435070076859723205006int, 132723399177879625012017785963608125619int, 1int, 142654253160326027845332837378340200880int);
    lemma_pow_mod_step(3int, 4011884466661006907nat, m, 2005942233330503453nat, 142654253160326027845332837378340200880int, 79643702840705592269793017336871280552int, 253190743159394483043620448910247075096int, 2int, 248540340731557754749420305705772873334int);
    lemma_pow_mod_step(3int, 8023768933322013815nat, m, 4011884466661006907nat, 248540340731557754749420305705772873334int, 241755171570461823326538038544875017090int, 64195943891167655270818404307965828626int, 0int, 192587831673502965812455212923897485878int);
    lemma_pow_mod_step(3int, 16047537866644027630nat, m, 8023768933322013815nat, 192587831673502965812455212923897485878int, 145157567366959798815307847899479905811int, 20607608358144376970405107269300528537int, 0int, 20607608358144376970405107269300528537int);
    lemma_pow_mod_step(3int, 32095075733288055260nat, m, 16047537866644027630nat, 20607608358144376970405107269300528537int, 1662023570717791422852737162258574006int, 72021389947403254628997824639569506507int, 0int, 72021389947403254628997824639569506507int);
    lemma_pow_mod_step(3int, 64190151466576110520nat, m, 32095075733288055260nat, 72021389947403254628997824639569506507int, 20300418522522851031045199161680989575int, 28420117684723576088323053117712901274int, 0int, 28420117684723576088323053117712901274int);
    lemma_pow_mod_step(3int, 128380302933152221041nat, m, 64190151466576110520nat, 28420117684723576088323053117712901274int, 3161067271925194365090832778129073560int, 25908711957820310333235039199452954956int, 0int, 77726135873460930999705117598358864868int);
    lemma_pow_mod_step(3int, 256760605866304442082nat, m, 128380302933152221041nat, 77726135873460930999705117598358864868int, 23643738603619971624162152471137982722int, 254632376573528217042951487371251188030int, 0int, 254632376573528217042951487371251188030int);
    lemma_pow_mod_step(3int, 513521211732608884165nat, m, 256760605866304442082nat, 254632376573528217042951487371251188030int, 253751864129286001300407529473647294851int, 109082025752742966473128875236525286473int, 1int, 71730132884916052228666105197091683442int);
    lemma_pow_mod_step(3int, 1027042423465217768330nat, m, 513521211732608884165nat, 71730132884916052228666105197091683442int, 20136559291072963227936346135498694574int, 1862534945948126061643145285945918566int, 0int, 1862534945948126061643145285945918566int);
    lemma_pow_mod_step(3int, 2054084846930435536661nat, m, 1027042423465217768330nat, 1862534945948126061643145285945918566int, 13576594734180938762390803218638736int, 73296158265469160001318532566890651284int, 0int, 219888474796407480003955597700671953852int);
    lemma_pow_mod_step(3int, 4108169693860871073323nat, m, 2054084846930435536661nat, 219888474796407480003955597700671953852int, 189228666206633412289429170606529446202int, 195838928353005173272148630161095348550int, 2int, 76484896312389825435004849458317693696int);
}

proof fn lemma_certificate_7240687_6()
    requires
        pow_mod(3int, 4108169693860871073323nat, 255515944373312847190720520512484175977int) == 76484896312389825435004849458317693696int,
    ensures
        pow_mod(3int, 16827063066054127916334545nat, 255515944373312847190720520512484175977int) == 92286998267433694126506118616266572190int,
{
    let m: int = 255515944373312847190720520512484175977int;
    lemma_pow_mod_step(3int, 8216339387721742146647nat, m, 4108169693860871073323nat, 76484896312389825435004849458317693696int, 22894615748010498034005649904127085081int, 27735100292558455157091793597222841279int, 0int, 83205300877675365471275380791668523837int);
    lemma_pow_mod_step(3int, 16432678775443484293295nat, m, 8216339387721742146647nat, 83205300877675365471275380791668523837int, 27094677442240918492080947053664511429int, 37052225315403008317671536355273461436int, 0int, 111156675946209024953014609065820384308int);
    lemma_pow_mod_step(3int, 32865357550886968586590nat, m, 16432678775443484293295nat, 111156675946209024953014609065820384308int, 48356303704314023618710601837139715711int, 113125524617147887574654853680936964217int, 0int, 113125524617147887574654853680936964217int);
    lemma_pow_mod_step(3int, 65730715101773937173181nat, m, 32865357550886968586590nat, 113125524617147887574654853680936964217int, 50084484360818404579900192963467019726int, 99128133414446395669272649768824100787int, 1int, 41868455870026339817097428793988126384int);
    lemma_pow_mod_step(3int, 131461430203547874346363nat, m, 65730715101773937173181nat, 41868455870026339817097428793988126384int, 6860501802498984606579265749648719466int, 28864268198197007895760050028507447174int, 0int, 86592804594591023687280150085522341522int);
    lemma_pow_mod_step(3int, 262922860407095748692727nat, m, 131461430203547874346363nat, 86592804594591023687280150085522341522int, 29345776546147229492252777806071798779int, 97221907744066065696622714851635544401int, 1int, 36149778858885349899147624042422457226int);
    lemma_pow_mod_step(3int, 525845720814191497385454nat, m, 262922860407095748692727nat, 36149778858885349899147624042422457226int, 5114383428210057807926567604967229739int, 160630038352199478059569460211935835073int, 0int, 160630038352199478059569460211935835073int);
    lemma_pow_mod_step(3int, 1051691441628382994770909nat, m, 525845720814191497385454nat, 160630038352199478059569460211935835073int, 100980035842037045339958249289946937950int, 90917816279344685638403502729757288179int, 1int, 17237504464721209724489987676787688560int);
    lemma_pow_mod_step(3int, 2103382883256765989541818nat, m, 1051691441628382994770909nat, 17237504464721209724489987676787688560int, 1162868958725995263511083015018016076int, 84672885388900349089044621869355867348int, 0int, 84672885388900349089044621869355867348int);
    lemma_pow_mod_step(3int, 4206765766513531979083636nat, m, 2103382883256765989541818nat, 84672885388900349089044621869355867348int, 28058904651394688061154567933713751684int, 68073305812322972975379039225436457836int, 0int, 68073305812322972975379039225436457836int);
    lemma_pow_mod_step(3int, 8413531533027063958167272nat, m, 4206765766513531979083636nat, 68073305812322972975379039225436457836int, 18135756559472209446208671121141047295int, 85013602257020709347835962673745970681int, 0int, 85013602257020709347835962673745970681int);
    lemma_pow_mod_step(3int, 16827063066054127916334545nat, m, 8413531533027063958167272nat, 85013602257020709347835962673745970681int, 28285172521976547808339738133877329636int, 115934314213582180439075546376250249389int, 1int, 92286998267433694126506118616266572190int);
}

proof fn lemma_certificate_7240687_7()
    requires
        pow_mod(3int, 16827063066054127916334545nat, 255515944373312847190720520512484175977int) == 92286998267433694126506118616266572190int,
    ensures
        pow_mod(3int, 68923650318557707945306297127nat, 255515944373312847190720520512484175977int) == 194345370142742247111613586852501723121int,
{
    let m: int = 255515944373312847190720520512484175977int;
    lemma_pow_mod_step(3int, 33654126132108255832669090nat, m, 16827063066054127916334545nat, 92286998267433694126506118616266572190int, 33332127551187170623034791809677173984int, 154040702576816423688698035236179213732int, 0int, 154040702576816423688698035236179213732int);
    lemma_pow_mod_step(3int, 67308252264216511665338180nat, m, 33654126132108255832669090nat, 154040702576816423688698035236179213732int, 92865195197726868929966626780744329222int, 139715431537157199816360987013465867930int, 0int, 139715431537157199816360987013465867930int);
    lemma_pow_mod_step(3int, 134616504528433023330676361nat, m, 67308252264216511665338180nat, 139715431537157199816360987013465867930int, 76396022398877950359757836511267814226int, 249161071171293252282735649934674436098int, 2int, 236451324767254062466765908779054956340int);
    lemma_pow_mod_step(3int, 269233009056866046661352723nat, m, 134616504528433023330676361nat, 236451324767254062466765908779054956340int, 218809159331776118661371869008516635267int, 8013163451272077836927778014153814741int, 0int, 24039490353816233510783334042461444223int);
    lemma_pow_mod_step(3int, 538466018113732093322705446nat, m, 269233009056866046661352723nat, 24039490353816233510783334042461444223int, 2261687026571253481084449998907636382int, 65779513535275502376535988140924478515int, 0int, 65779513535275502376535988140924478515int);
    lemma_pow_mod_step(3int, 1076932036227464186645410892nat, m, 538466018113732093322705446nat, 65779513535275502376535988140924478515int, 16934146366286084386557776253601430478int, 243772602839883523583828447618413378219int, 0int, 243772602839883523583828447618413378219int);
    lemma_pow_mod_step(3int, 2153864072454928373290821785nat, m, 1076932036227464186645410892nat, 243772602839883523583828447618413378219int, 232568977411877676883671733543449299143int, 137141506351172177309659388657416324250int, 1int, 155908574680203684738257645459764796773int);
    lemma_pow_mod_step(3int, 4307728144909856746581643570nat, m, 2153864072454928373290821785nat, 155908574680203684738257645459764796773int, 95130985733317018982922208572512181513int, 159209579137867743190249966233533100328int, 0int, 159209579137867743190249966233533100328int);
    lemma_pow_mod_step(3int, 8615456289819713493163287140nat, m, 4307728144909856746581643570nat, 159209579137867743190249966233533100328int, 99201989728764614737221296188970586968int, 248434497567931381748261546622218839848int, 0int, 248434497567931381748261546622218839848int);
    lemma_pow_mod_step(3int, 17230912579639426986326574281nat, m, 8615456289819713493163287140nat, 248434497567931381748261546622218839848int, 241549308138896583590707613365427532497int, 118743074502249624071875465757638438535int, 1int, 100713279133436025024905876760431139628int);
    lemma_pow_mod_step(3int, 34461825159278853972653148563nat, m, 17230912579639426986326574281nat, 100713279133436025024905876760431139628int, 39696797077328669206192429803604083896int, 222658574783358558118625571745296211992int, 2int, 156943835603449979974435674210920284022int);
    lemma_pow_mod_step(3int, 68923650318557707945306297127nat, m, 34461825159278853972653148563nat, 156943835603449979974435674210920284022int, 96398553891947795325848658002738086401int, 64781790047580749037204528950833907707int, 0int, 194345370142742247111613586852501723121int);
}

proof fn lemma_certificate_7240687_8()
    requires
        pow_mod(3int, 68923650318557707945306297127nat, 255515944373312847190720520512484175977int) == 194345370142742247111613586852501723121int,
    ensures
        pow_mod(3int, 35288908963101546467996824129048nat, 255515944373312847190720520512484175977int) == 31043399383638056505926561103262574803int,
{
    let m: int = 255515944373312847190720520512484175977int;
    lemma_pow_mod_step(3int, 137847300637115415890612594254nat, m, 68923650318557707945306297127nat, 194345370142742247111613586852501723121int, 147819045064118351446404660519091616547int, 9613318775850408283495113615992889222int, 0int, 9613318775850408283495113615992889222int);
    lemma_pow_mod_step(3int, 275694601274230831781225188508nat, m, 137847300637115415890612594254nat, 9613318775850408283495113615992889222int, 361683487552138429146492204846140844int, 10589371513521379040436487561340460696int, 0int, 10589371513521379040436487561340460696int);
    lemma_pow_mod_step(3int, 551389202548461663562450377016nat, m, 275694601274230831781225188508nat, 10589371513521379040436487561340460696int, 438856327836619685202368100462428246int, 226395403653725692124416506097721358074int, 0int, 226395403653725692124416506097721358074int);
    lemma_pow_mod_step(3int, 1102778405096923327124900754032nat, m, 551389202548461663562450377016nat, 226395403653725692124416506097721358074int, 200593661273244074541798318216187580571int, 209116305071916043065020436694846609int, 0int, 209116305071916043065020436694846609int);
    lemma_pow_mod_step(3int, 2205556810193846654249801508065nat, m, 1102778405096923327124900754032nat, 209116305071916043065020436694846609int, 171142466878861296465071154721920int, 140176323652839699997934679814259483041int, 1int, 165013026585206252803083518930294273146int);
    lemma_pow_mod_step(3int, 4411113620387693308499603016131nat, m, 2205556810193846654249801508065nat, 165013026585206252803083518930294273146int, 106565948397441483929291177500233700567int, 42974296286104778566804304240104058357int, 0int, 128922888858314335700412912720312175071int);
    lemma_pow_mod_step(3int, 8822227240775386616999206032262nat, m, 4411113620387693308499603016131nat, 128922888858314335700412912720312175071int, 65049213708908761874016718164973451838int, 85187671230408867278880290236227759315int, 0int, 85187671230408867278880290236227759315int);
    lemma_pow_mod_step(3int, 17644454481550773233998412064524nat, m, 8822227240775386616999206032262nat, 85187671230408867278880290236227759315int, 28401121297768123465834505391438566097int, 148015958605815472179389154146075217456int, 0int, 148015958605815472179389154146075217456int);
    lemma_pow_mod_step(3int, 35288908963101546467996824129048nat, m, 17644454481550773233998412064524nat, 148015958605815472179389154146075217456int, 85743079774268356816467198279255259429int, 31043399383638056505926561103262574803int, 0int, 31043399383638056505926561103262574803int);
}

proof fn lemma_certificate_7240687()
    ensures
        pow_mod(3int, 35288908963101546467996824129048nat, 255515944373312847190720520512484175977int) == 31043399383638056505926561103262574803int,
{
    lemma_pow_mod_zero(3int, 255515944373312847190720520512484175977int);
    lemma_certificate_7240687_0();
    lemma_certificate_7240687_1();
    lemma_certificate_7240687_2();
    lemma_certificate_7240687_3();
    lemma_certificate_7240687_4();
    lemma_certificate_7240687_5();
    lemma_certificate_7240687_6();
    lemma_certificate_7240687_7();
    lemma_certificate_7240687_8();
}

proof fn lemma_certificate_107590001_0()
    requires
        pow_mod(3int, 0nat, 255515944373312847190720520512484175977int) == 1int,
    ensures
        pow_mod(3int, 3836nat, 255515944373312847190720520512484175977int) == 162408071679165106177926055805383489672int,
{
    let m: int = 255515944373312847190720520512484175977int;
    lemma_pow_mod_step(3int, 1nat, m, 0nat, 1int, 0int, 1int, 0int, 3int);
    lemma_pow_mod_step(3int, 3nat, m, 1nat, 3int, 0int, 9int, 0int, 27int);
    lemma_pow_mod_step(3int, 7nat, m, 3nat, 27int, 0int, 729int, 0int, 2187int);
    lemma_pow_mod_step(3int, 14nat, m, 7nat, 2187int, 0int, 4782969int, 0int, 4782969int);
    lemma_pow_mod_step(3int, 29nat, m, 14nat, 4782969int, 0int, 22876792454961int, 0int, 68630377364883int);
    lemma_pow_mod_step(3int, 59nat, m, 29nat, 68630377364883int, 0int, 4710128697246244834921603689int, 0int, 14130386091738734504764811067int);
    lemma_pow_mod_step(3int, 119nat, m, 59nat, 14130386091738734504764811067int, 781429947909182642int, 50569203786004965663851507187243887255int, 0int, 151707611358014896991554521561731661765int);
    lemma_pow_mod_step(3int, 239nat, m, 119nat, 151707611358014896991554521561731661765int, 90073437101556837946433000823510381439int, 71895126845065519479130438997492424322int, 0int, 215685380535196558437391316992477272966int);
    lemma_pow_mod_step(3int, 479nat, m, 239nat, 215685380535196558437391316992477272966int, 182063720096644226356162738092269866310int, 128522224523312486488391236639770802286int, 1int, 130050729196624612274453189406828230881int);
    lemma_pow_mod_step(3int, 959nat, m, 479nat, 130050729196624612274453189406828230881int, 66192316123581498991267498593243032491int, 224143643352945935146090933517469367454int, 2int, 161399041312212111056831759527439750408int);
    lemma_pow_mod_step(3int, 1918nat, m, 959nat, 161399041312212111056831759527439750408int, 101949217299888726883930836258051405378int, 158420675288710489816960477602219962158int, 0int, 158420675288710489816960477602219962158int);
    lemma_pow_mod_step(3int, 3836nat, m, 1918nat, 158420675288710489816960477602219962158int, 98221308343340680782215983610380885596int, 162408071679165106177926055805383489672int, 0int, 162408071679165106177926055805383489672int);
}

proof fn lemma_certificate_107590001_1()
    requires
        pow_mod(3int, 3836nat, 255515944373312847190720520512484175977int) == 162408071679165106177926055805383489672int,
    ensures
        pow_mod(3int, 15715797nat, 255515944373312847190720520512484175977int) == 28507727853310296518167123784191490834int,
{
    let m: int = 255515944373312847190720520512484175977int;
    lemma_pow_mod_step(3int, 7673nat, m, 3836nat, 162408071679165106177926055805383489672int, 103227928931153192428999259872687713217int, 241849306107476235632615879981793879575int, 2int, 214516029575803012516406598920413286771int);
    lemma_pow_mod_step(3int, 15347nat, m, 7673nat, 214516029575803012516406598920413286771int, 180094933245085639351402364649790741893int, 113677756316348559045621676077485501980int, 1int, 85517324575732829946144507719972329963int);
    lemma_pow_mod_step(3int, 30694nat, m, 15347nat, 85517324575732829946144507719972329963int, 28621355980457009570515935391387890171int, 53879858496999949409279597689434959302int, 0int, 53879858496999949409279597689434959302int);
    lemma_pow_mod_step(3int, 61389nat, m, 30694nat, 53879858496999949409279597689434959302int, 11361479452003791218762006080084560577int, 245731522839968288743945757966411668475int, 2int, 226162679773279171850396232874266653471int);
    lemma_pow_mod_step(3int, 122779nat, m, 61389nat, 226162679773279171850396232874266653471int, 200181471444695853419179781495132817304int, 232400848699924436282490923170669641833int, 2int, 186170657353147614466031728487040573545int);
    lemma_pow_mod_step(3int, 245559nat, m, 122779nat, 186170657353147614466031728487040573545int, 135645208929369185579111815891071627524int, 165417085111092190679822295921141076077int, 1int, 240735310959963724848746367250939052254int);
    lemma_pow_mod_step(3int, 491118nat, m, 245559nat, 240735310959963724848746367250939052254int, 226809681427627321596016850946082301419int, 214379012602164008043891402995789669153int, 0int, 214379012602164008043891402995789669153int);
    lemma_pow_mod_step(3int, 982237nat, m, 491118nat, 214379012602164008043891402995789669153int, 179864944072268539899812270300448431531int, 240860416047207458384089437094560206622int, 2int, 211549359394996680770827270258712267912int);
    lemma_pow_mod_step(3int, 1964474nat, m, 982237nat, 211549359394996680770827270258712267912int, 175148097196816945246414283383980858784int, 201554475019768427829716872311422607776int, 0int, 201554475019768427829716872311422607776int);
    lemma_pow_mod_step(3int, 3928949nat, m, 1964474nat, 201554475019768427829716872311422607776int, 158988929243264151603673665798309154575int, 111017129919780979989500015739941021401int, 1int, 77535445386030092777779526707338888226int);
    lemma_pow_mod_step(3int, 7857898nat, m, 3928949nat, 77535445386030092777779526707338888226int, 23527867530751035976922440227639666193int, 91222250118065547441493560194771781515int, 0int, 91222250118065547441493560194771781515int);
    lemma_pow_mod_step(3int, 15715797nat, m, 7857898nat, 91222250118065547441493560194771781515int, 32567435026461862938391698895926826277int, 179846538866645330299869388269719947596int, 2int, 28507727853310296518167123784191490834int);
}

proof fn lemma_certificate_107590001_2()
    requires
        pow_mod(3int, 15715797nat, 255515944373312847190720520512484175977int) == 28507727853310296518167123784191490834int,
    ensures
        pow_mod(3int, 64371907105nat, 255515944373312847190720520512484175977int) == 40490960003365124254936155468052476089int,
{
    let m: int = 255515944373312847190720520512484175977int;
    lemma_pow_mod_step(3int, 31431595nat, m, 15715797nat, 28507727853310296518167123784191490834int, 3180586437968230695233123131359897613int, 189526004939573595236321644830111772655int, 2int, 57546126072095091327523893465366966011int);
    lemma_pow_mod_step(3int, 62863190nat, m, 31431595nat, 57546126072095091327523893465366966011int, 12960273903953428725260477124966597910int, 95083507369952531508736516727788844051int, 0int, 95083507369952531508736516727788844051int);
    lemma_pow_mod_step(3int, 125726381nat, m, 62863190nat, 95083507369952531508736516727788844051int, 35382814939184217752975105144038080616int, 156123687750391817200004198291341528769int, 1int, 212855118877862604409292074361540410330int);
    lemma_pow_mod_step(3int, 251452762nat, m, 125726381nat, 212855118877862604409292074361540410330int, 177316925343470288547715046755779733678int, 73278972936572666895440605498425255494int, 0int, 73278972936572666895440605498425255494int);
    lemma_pow_mod_step(3int, 502905524nat, m, 251452762nat, 73278972936572666895440605498425255494int, 21015549099329687522019567546269918046int, 73627425296147001171068364431545203094int, 0int, 73627425296147001171068364431545203094int);
    lemma_pow_mod_step(3int, 1005811048nat, m, 502905524nat, 73627425296147001171068364431545203094int, 21215888382368591548228371443857595543int, 221542131394586202379218815454804302325int, 0int, 221542131394586202379218815454804302325int);
    lemma_pow_mod_step(3int, 2011622097nat, m, 1005811048nat, 221542131394586202379218815454804302325int, 192085531504633232445720122434921741421int, 140111211429908079476364782706946362308int, 1int, 164817689916411391238373827608354910947int);
    lemma_pow_mod_step(3int, 4023244194nat, m, 2011622097nat, 164817689916411391238373827608354910947int, 106313799618289299250186000083254265853int, 254099040195553934106246619087506423428int, 0int, 254099040195553934106246619087506423428int);
    lemma_pow_mod_step(3int, 8046488388nat, m, 4023244194nat, 254099040195553934106246619087506423428int, 252689993130015061195213940565193454801int, 155116231157652657652716153876147755607int, 0int, 155116231157652657652716153876147755607int);
    lemma_pow_mod_step(3int, 16092976776nat, m, 8046488388nat, 155116231157652657652716153876147755607int, 94166511712477576553486220858458964276int, 158570802323074963754014020128659540797int, 0int, 158570802323074963754014020128659540797int);
    lemma_pow_mod_step(3int, 32185953552nat, m, 16092976776nat, 158570802323074963754014020128659540797int, 98407555000352196336164429166753868403int, 239815889663042372819054785606355440478int, 0int, 239815889663042372819054785606355440478int);
    lemma_pow_mod_step(3int, 64371907105nat, m, 32185953552nat, 239815889663042372819054785606355440478int, 225080517287997749558143718114818545139int, 183840949583330272878792398831006942681int, 2int, 40490960003365124254936155468052476089int);
}

proof fn lemma_certificate_107590001_3()
    requires
        pow_mod(3int, 64371907105nat, 255515944373312847190720520512484175977int) == 40490960003365124254936155468052476089int,
    ensures
        pow_mod(3int, 263667331504246nat, 255515944373312847190720520512484175977int) == 243798827451893363704137564190230892709int,
{
    let m: int = 255515944373312847190720520512484175977int;
    lemma_pow_mod_step(3int, 128743814211nat, m, 64371907105nat, 40490960003365124254936155468052476089int, 6416499158262909235310322270943843037int, 9201961597721801069329994185342613772int, 0int, 27605884793165403207989982556027841316int);
    lemma_pow_mod_step(3int, 257487628422nat, m, 128743814211nat, 27605884793165403207989982556027841316int, 2982533544365054445951153156788923434int, 125281199625147803671793553136441466838int, 0int, 125281199625147803671793553136441466838int);
    lemma_pow_mod_step(3int, 514975256844nat, m, 257487628422nat, 125281199625147803671793553136441466838int, 61426221436048376561537331154413991502int, 9830688755395676349019079683103170790int, 0int, 9830688755395676349019079683103170790int);
    lemma_pow_mod_step(3int, 1029950513688nat, m, 514975256844nat, 9830688755395676349019079683103170790int, 378224699998630427777353771969027853int, 191895657103670542373143203341442736719int, 0int, 191895657103670542373143203341442736719int);
    lemma_pow_mod_step(3int, 2059901027376nat, m, 1029950513688nat, 191895657103670542373143203341442736719int, 144116028866868431619743335681825908236int, 169532912324510902029829615064273238389int, 0int, 169532912324510902029829615064273238389int);
    lemma_pow_mod_step(3int, 4119802054753nat, m, 2059901027376nat, 169532912324510902029829615064273238389int, 112483815566666348801179591843458608153int, 231116386739739804124754906011684374840int, 2int, 182317271472593717992823677010084772566int);
    lemma_pow_mod_step(3int, 8239604109507nat, m, 4119802054753nat, 182317271472593717992823677010084772566int, 130088114691769961151534240174648324521int, 88235664942698943492066923799577992339int, 1int, 9191050454783983285480250886249801040int);
    lemma_pow_mod_step(3int, 16479208219015nat, m, 8239604109507nat, 9191050454783983285480250886249801040int, 330607190363686089366328458771794000int, 1212529895141416841162577859592343600int, 0int, 3637589685424250523487733578777030800int);
    lemma_pow_mod_step(3int, 32958416438030nat, m, 16479208219015nat, 3637589685424250523487733578777030800int, 51785647866156838466559950773460473int, 154291428690776979657191647357962982879int, 0int, 154291428690776979657191647357962982879int);
    lemma_pow_mod_step(3int, 65916832876061nat, m, 32958416438030nat, 154291428690776979657191647357962982879int, 93167747421117488710292208576684785371int, 61592940718412406351893372301207896174int, 0int, 184778822155237219055680116903623688522int);
    lemma_pow_mod_step(3int, 131833665752123nat, m, 65916832876061nat, 184778822155237219055680116903623688522int, 133624589263177287625152449484973638303int, 79372694428945589291516932823874897453int, 0int, 238118083286836767874550798471624692359int);
    lemma_pow_mod_step(3int, 263667331504246nat, m, 131833665752123nat, 238118083286836767874550798471624692359int, 221904827611685197545242643846047141036int, 243798827451893363704137564190230892709int, 0int, 243798827451893363704137564190230892709int);
}

proof fn lemma_certificate_107590001_4()
    requires
        pow_mod(3int, 263667331504246nat, 255515944373312847190720520512484175977int) == 243798827451893363704137564190230892709int,
    ensures
        pow_mod(3int, 1079981389841395618nat, 255515944373312847190720520512484175977int) == 49748260716887179002962620379751443324int,
{
    let m: int = 255515944373312847190720520512484175977int;
    lemma_pow_mod_step(3int, 527334663008493nat, m, 263667331504246nat, 243798827451893363704137564190230892709int, 232619018796253297551454506354697640350int, 188649493097942242193521995107013486731int, 2int, 54916590547201032199124944296072108239int);
    lemma_pow_mod_step(3int, 1054669326016987nat, m, 527334663008493nat, 54916590547201032199124944296072108239int, 11802910870105043241779218688570895604int, 12760752564665806328592407725299976013int, 0int, 38282257693997418985777223175899928039int);
    lemma_pow_mod_step(3int, 2109338652033975nat, m, 1054669326016987nat, 38282257693997418985777223175899928039int, 5735576532196598181827088610251720409int, 197407601950309018290388349772419970928int, 2int, 81190917104301360489724008292291560830int);
    lemma_pow_mod_step(3int, 4218677304067951nat, m, 2109338652033975nat, 81190917104301360489724008292291560830int, 25798644528446998882071499483754250175int, 172726542554018051606501013131207242925int, 2int, 7147738915428460438061998368653376821int);
    lemma_pow_mod_step(3int, 8437354608135903nat, m, 4218677304067951nat, 7147738915428460438061998368653376821int, 199949054954030081663115912819329108int, 120808819166505529389262748734869627525int, 1int, 106910513126203740977067725692124706598int);
    lemma_pow_mod_step(3int, 16874709216271806nat, m, 8437354608135903nat, 106910513126203740977067725692124706598int, 44732464132292968964782785101429209342int, 110547441840214924641190028734084356470int, 0int, 110547441840214924641190028734084356470int);
    lemma_pow_mod_step(3int, 33749418432543613nat, m, 16874709216271806nat, 110547441840214924641190028734084356470int, 47827688120945638120977308796942828775int, 66494035452061381647122912438751522725int, 0int, 199482106356184144941368737316254568175int);
    lemma_pow_mod_step(3int, 67498836865087226nat, m, 33749418432543613nat, 199482106356184144941368737316254568175int, 155736311696312762815153649566590177284int, 98681493448644673502383966502638924157int, 0int, 98681493448644673502383966502638924157int);
    lemma_pow_mod_step(3int, 134997673730174452nat, m, 67498836865087226nat, 98681493448644673502383966502638924157int, 38111270015414282316562523154156483587int, 118956642777865704637647728110777971150int, 0int, 118956642777865704637647728110777971150int);
    lemma_pow_mod_step(3int, 269995347460348904nat, m, 134997673730174452nat, 118956642777865704637647728110777971150int, 55380821324818684574388913729235250778int, 91966433001691837204019142765954162394int, 0int, 91966433001691837204019142765954162394int);
    lemma_pow_mod_step(3int, 539990694920697809nat, m, 269995347460348904nat, 91966433001691837204019142765954162394int, 33100966829285836244869470190220853448int, 111830825843785223784618301754164592540int, 1int, 79976533158042824163134384750009601643int);
    lemma_pow_mod_step(3int, 1079981389841395618nat, m, 539990694920697809nat, 79976533158042824163134384750009601643int, 25032668202632813667644517732857267125int, 49748260716887179002962620379751443324int, 0int, 49748260716887179002962620379751443324int);
}

proof fn lemma_certificate_107590001_5()
    requires
        pow_mod(3int, 1079981389841395618nat, 255515944373312847190720520512484175977int) == 49748260716887179002962620379751443324int,
    ensures
        pow_mod(3int, 4423603772790356455417nat, 255515944373312847190720520512484175977int) == 228958023042711048119845099668008191017int,
{
    let m: int = 255515944373312847190720520512484175977int;
    lemma_pow_mod_step(3int, 2159962779682791237nat, m, 1079981389841395618nat, 49748260716887179002962620379751443324int, 9685851309300398598993798422812443360int, 168766588871207552114231992489599006256int, 1int, 250783822240309809151975456956312842791int);
    lemma_pow_mod_step(3int, 4319925559365582475nat, m, 2159962779682791237nat, 250783822240309809151975456956312842791int, 246139338395150525879750563506994531334int, 122133099349122395811055332453584106363int, 1int, 110883353674054340242445476848268143112int);
    lemma_pow_mod_step(3int, 8639851118731164951nat, m, 4319925559365582475nat, 110883353674054340242445476848268143112int, 48118790207635957070193973479177066124int, 80076869966876447137650262045931741396int, 0int, 240230609900629341412950786137795224188int);
    lemma_pow_mod_step(3int, 17279702237462329903nat, m, 8639851118731164951nat, 240230609900629341412950786137795224188int, 225859666310733380524118871551889748969int, 92248636221523595646678267489829941631int, 1int, 21229964291257939749314281957005648916int);
    lemma_pow_mod_step(3int, 34559404474924659807nat, m, 17279702237462329903nat, 21229964291257939749314281957005648916int, 1763926650109907646417909768617820480int, 239426178640818697964658786203737366096int, 2int, 207246647175830399512535317586243746334int);
    lemma_pow_mod_step(3int, 69118808949849319615nat, m, 34559404474924659807nat, 207246647175830399512535317586243746334int, 168095861379479262153805190959085671074int, 76415225346331495375896930016383850258int, 0int, 229245676038994486127690790049151550774int);
    lemma_pow_mod_step(3int, 138237617899698639231nat, m, 69118808949849319615nat, 229245676038994486127690790049151550774int, 205676323297437739606829228244539327714int, 118649160202622527804134970010250872498int, 1int, 100431536234554736221684389518268441517int);
    lemma_pow_mod_step(3int, 276475235799397278463nat, m, 138237617899698639231nat, 100431536234554736221684389518268441517int, 39475006129935101010432075335918143282int, 111655232267746856523391927860460924775int, 1int, 79449752429927722379455263068898598348int);
    lemma_pow_mod_step(3int, 552950471598794556927nat, m, 276475235799397278463nat, 79449752429927722379455263068898598348int, 24703989321130150047868387767832351071int, 76400526870914813061682156215019907737int, 0int, 229201580612744439185046468645059723211int);
    lemma_pow_mod_step(3int, 1105900943197589113854nat, m, 552950471598794556927nat, 229201580612744439185046468645059723211int, 205597207188872365554497287457664476172int, 88552952774528918334058221099160830477int, 0int, 88552952774528918334058221099160830477int);
    lemma_pow_mod_step(3int, 2211801886395178227708nat, m, 1105900943197589113854nat, 88552952774528918334058221099160830477int, 30689378169024198790504578184549600128int, 246301541042711104732174120405398322473int, 0int, 246301541042711104732174120405398322473int);
    lemma_pow_mod_step(3int, 4423603772790356455417nat, m, 2211801886395178227708nat, 246301541042711104732174120405398322473int, 237419427068639523062930872361254531070int, 76319341014237016039948366556002730339int, 0int, 228958023042711048119845099668008191017int);
}

proof fn lemma_certificate_107590001_6()
    requires
        pow_mod(3int, 4423603772790356455417nat, 255515944373312847190720520512484175977int) == 228958023042711048119845099668008191017int,
    ensures
        pow_mod(3int, 18119081053349300041388140nat, 255515944373312847190720520512484175977int) == 9740543452812263028239173217228163883int,
{
    let m: int = 255515944373312847190720520512484175977int;
    lemma_pow_mod_step(3int, 8847207545580712910834nat, m, 4423603772790356455417nat, 228958023042711048119845099668008191017int, 205160489863746258727797285547329384030int, 61211434772714277219728224191226046979int, 0int, 61211434772714277219728224191226046979int);
    lemma_pow_mod_step(3int, 17694415091161425821668nat, m, 8847207545580712910834nat, 61211434772714277219728224191226046979int, 14663819731969689782021886129454132153int, 36157241100981719638365209966849137960int, 0int, 36157241100981719638365209966849137960int);
    lemma_pow_mod_step(3int, 35388830182322851643336nat, m, 17694415091161425821668nat, 36157241100981719638365209966849137960int, 5116495126129852758393562900769701042int, 217217757356234554970862956437104693566int, 0int, 217217757356234554970862956437104693566int);
    lemma_pow_mod_step(3int, 70777660364645703286672nat, m, 35388830182322851643336nat, 217217757356234554970862956437104693566int, 184659921033875170768449588253662857565int, 237354477757650312456313518256616080351int, 0int, 237354477757650312456313518256616080351int);
    lemma_pow_mod_step(3int, 141555320729291406573344nat, m, 70777660364645703286672nat, 237354477757650312456313518256616080351int, 220483885065494973591441501329133680108int, 244349465612447726550541857284991917685int, 0int, 244349465612447726550541857284991917685int);
    lemma_pow_mod_step(3int, 283110641458582813146689nat, m, 141555320729291406573344nat, 244349465612447726550541857284991917685int, 233670980852202298786844537793145395525int, 41026486994955221745250131192447456300int, 0int, 123079460984865665235750393577342368900int);
    lemma_pow_mod_step(3int, 566221282917165626293379nat, m, 283110641458582813146689nat, 123079460984865665235750393577342368900int, 59286138692749413066528701444671371173int, 244145892230274150856339253906070298979int, 2int, 221405787944196758187576720693242544983int);
    lemma_pow_mod_step(3int, 1132442565834331252586758nat, m, 566221282917165626293379nat, 221405787944196758187576720693242544983int, 191849174247892965460410455044306024355int, 174260606089825054617377177117710550454int, 0int, 174260606089825054617377177117710550454int);
    lemma_pow_mod_step(3int, 2264885131668662505173517nat, m, 1132442565834331252586758nat, 174260606089825054617377177117710550454int, 118844868602120800099340372842569215861int, 122487944954956761194748946072056034919int, 1int, 111947890491557436393526317703683928780int);
    lemma_pow_mod_step(3int, 4529770263337325010347035nat, m, 2264885131668662505173517nat, 111947890491557436393526317703683928780int, 49047155222532033911077674373333532992int, 246254887338339092007716785268848955216int, 2int, 227732773268391581641709314781578513694int);
    lemma_pow_mod_step(3int, 9059540526674650020694070nat, m, 4529770263337325010347035nat, 227732773268391581641709314781578513694int, 202970566661550980200050516416656514342int, 45094641407490488040442510113193163502int, 0int, 45094641407490488040442510113193163502int);
    lemma_pow_mod_step(3int, 18119081053349300041388140nat, m, 9059540526674650020694070nat, 45094641407490488040442510113193163502int, 7958511898964477018474972322339239473int, 9740543452812263028239173217228163883int, 0int, 9740543452812263028239173217228163883int);
}

proof fn lemma_certificate_107590001_7()
    requires
        pow_mod(3int, 18119081053349300041388140nat, 255515944373312847190720520512484175977int) == 9740543452812263028239173217228163883int,
    ensures
        pow_mod(3int, 74215755994518732969525822999nat, 255515944373312847190720520512484175977int) == 248428734966499115841364157583084300996int,
{
    let m: int = 255515944373312847190720520512484175977int;
    lemma_pow_mod_step(3int, 36238162106698600082776280nat, m, 18119081053349300041388140nat, 9740543452812263028239173217228163883int, 371320024622437288437714079285136497int, 38072652783191316326059839090492305120int, 0int, 38072652783191316326059839090492305120int);
    lemma_pow_mod_step(3int, 72476324213397200165552561nat, m, 36238162106698600082776280nat, 38072652783191316326059839090492305120int, 5672941050722313084330906427959051032int, 110434761473778977865345223897766756136int, 1int, 75788340048024086405315151180816092431int);
    lemma_pow_mod_step(3int, 144952648426794400331105123nat, m, 72476324213397200165552561nat, 75788340048024086405315151180816092431int, 22479507105995087251674822134370430118int, 208463555783837693076411835317642614475int, 2int, 114358778604887384847794464927959491471int);
    lemma_pow_mod_step(3int, 289905296853588800662210246nat, m, 144952648426794400331105123nat, 114358778604887384847794464927959491471int, 51182442943343626267609818415613217311int, 175363626770646742339789794339255005994int, 0int, 175363626770646742339789794339255005994int);
    lemma_pow_mod_step(3int, 579810593707177601324420492nat, m, 289905296853588800662210246nat, 175363626770646742339789794339255005994int, 120354139423976393183234603897692001740int, 211168284785611309759626840121425728056int, 0int, 211168284785611309759626840121425728056int);
    lemma_pow_mod_step(3int, 1159621187414355202648840984nat, m, 579810593707177601324420492nat, 211168284785611309759626840121425728056int, 174517659196043581231533541381256013671int, 248164610477328498231606034471383757569int, 0int, 248164610477328498231606034471383757569int);
    lemma_pow_mod_step(3int, 2319242374828710405297681968nat, m, 1159621187414355202648840984nat, 248164610477328498231606034471383757569int, 241024778490482516179546650645386688821int, 174696287156000393899190214915062136644int, 0int, 174696287156000393899190214915062136644int);
    lemma_pow_mod_step(3int, 4638484749657420810595363937nat, m, 2319242374828710405297681968nat, 174696287156000393899190214915062136644int, 119439876133535165877050272476053012816int, 205803952267953276642381493106547261504int, 2int, 106379968057234135545703438294673432558int);
    lemma_pow_mod_step(3int, 9276969499314841621190727874nat, m, 4638484749657420810595363937nat, 106379968057234135545703438294673432558int, 44289594653726502240851868804275778384int, 31620982279621319674876404129665742196int, 0int, 31620982279621319674876404129665742196int);
    lemma_pow_mod_step(3int, 18553938998629683242381455749nat, m, 9276969499314841621190727874nat, 31620982279621319674876404129665742196int, 3913205975386316582983569988892921370int, 13160766115390911375282816446830973926int, 0int, 39482298346172734125848449340492921778int);
    lemma_pow_mod_step(3int, 37107877997259366484762911499nat, m, 18553938998629683242381455749nat, 39482298346172734125848449340492921778int, 6100800818984066577153308140605002846int, 33005483218713586186553567143176850742int, 0int, 99016449656140758559660701429530552226int);
    lemma_pow_mod_step(3int, 74215755994518732969525822999nat, m, 37107877997259366484762911499nat, 99016449656140758559660701429530552226int, 38370432524488107600645571121975757272int, 82809578322166371947121385861028100332int, 0int, 248428734966499115841364157583084300996int);
}

proof fn lemma_certificate_107590001_8()
    requires
        pow_mod(3int, 74215755994518732969525822999nat, 255515944373312847190720520512484175977int) == 248428734966499115841364157583084300996int,
    ensures
        pow_mod(3int, 2374904191824599455024826335976nat, 255515944373312847190720520512484175977int) == 18335160587089267704563076742628378053int,
{
    let m: int = 255515944373312847190720520512484175977int;
    lemma_pow_mod_step(3int, 148431511989037465939051645998nat, m, 74215755994518732969525822999nat, 248428734966499115841364157583084300996int, 241538102478981834941097401081509850423int, 178697580940215890704278546954246703745int, 0int, 178697580940215890704278546954246703745int);
    lemma_pow_mod_step(3int, 296863023978074931878103291997nat, m, 148431511989037465939051645998nat, 178697580940215890704278546954246703745int, 124973905296612900077898996598292370791int, 73386595685384660826158098046418337218int, 0int, 220159787056153982478474294139255011654int);
    lemma_pow_mod_step(3int, 593726047956149863756206583994nat, m, 296863023978074931878103291997nat, 220159787056153982478474294139255011654int, 189695918802605692182629780524812191455int, 88611143497425142854907682256440139181int, 0int, 88611143497425142854907682256440139181int);
    lemma_pow_mod_step(3int, 1187452095912299727512413167988nat, m, 593726047956149863756206583994nat, 88611143497425142854907682256440139181int, 30729725188692995903518626688040550880int, 53603464959484389722521908672709141001int, 0int, 53603464959484389722521908672709141001int);
    lemma_pow_mod_step(3int, 2374904191824599455024826335976nat, m, 1187452095912299727512413167988nat, 53603464959484389722521908672709141001int, 11245213924750965752646420055005796524int, 18335160587089267704563076742628378053int, 0int, 18335160587089267704563076742628378053int);
}

proof fn lemma_certificate_107590001()
    ensures
        pow_mod(3int, 2374904191824599455024826335976nat, 255515944373312847190720520512484175977int) == 18335160587089267704563076742628378053int,
{
    lemma_pow_mod_zero(3int, 255515944373312847190720520512484175977int);
    lemma_certificate_107590001_0();
    lemma_certificate_107590001_1();
    lemma_certificate_107590001_2();
    lemma_certificate_107590001_3();
    lemma_certificate_107590001_4();
    lemma_certificate_107590001_5();
    lemma_certificate_107590001_6();
    lemma_certificate_107590001_7();
    lemma_certificate_107590001_8();
}

/// 255515944373312847190720520512484175977 is prime, by a Lucas certificate with witness 3.
pub proof fn lemma_prime_255515944373312847190720520512484175977()
    ensures
        is_prime(255515944373312847190720520512484175977int),
        forall|x: int| 1 <= x < 255515944373312847190720520512484175977int ==> #[trigger] power_of(3, 255515944373312847190720520512484175977int, x),
{
    lemma_small_primes();
    lemma_prime_1627();
    lemma_prime_2657();
    lemma_prime_4423();
    lemma_prime_41201();
    lemma_prime_96557();
    lemma_prime_7240687();
    lemma_prime_107590001();
    let fs: Seq<int> = Seq::empty().push(2int).push(2int).push(2int).push(7int).push(7int).push(11int).push(1627int).push(2657int).push(4423int).push(41201int).push(96557int).push(7240687int).push(107590001int);
    assert(product(Seq::<int>::empty()) == 1);
    lemma_product_push(Seq::<int>::empty(), 2int);
    lemma_product_push(Seq::<int>::empty().push(2int), 2int);
    lemma_product_push(Seq::<int>::empty().push(2int).push(2int), 2int);
    lemma_product_push(Seq::<int>::empty().push(2int).push(2int).push(2int), 7int);
    lemma_product_push(Seq::<int>::empty().push(2int).push(2int).push(2int).push(7int), 7int);
    lemma_product_push(Seq::<int>::empty().push(2int).push(2int).push(2int).push(7int).push(7int), 11int);
    lemma_product_push(Seq::<int>::empty().push(2int).push(2int).push(2int).push(7int).push(7int).push(11int), 1627int);
    lemma_product_push(Seq::<int>::empty().push(2int).push(2int).push(2int).push(7int).push(7int).push(11int).push(1627int), 2657int);
    lemma_product_push(Seq::<int>::empty().push(2int).push(2int).push(2int).push(7int).push(7int).push(11int).push(1627int).push(2657int), 4423int);
    lemma_product_push(Seq::<int>::empty().push(2int).push(2int).push(2int).push(7int).push(7int).push(11int).push(1627int).push(2657int).push(4423int), 41201int);
    lemma_product_push(Seq::<int>::empty().push(2int).push(2int).push(2int).push(7int).push(7int).push(11int).push(1627int).push(2657int).push(4423int).push(41201int), 96557int);
    lemma_product_push(Seq::<int>::empty().push(2int).push(2int).push(2int).push(7int).push(7int).push(11int).push(1627int).push(2657int).push(4423int).push(41201int).push(96557int), 7240687int);
    lemma_product_push(Seq::<int>::empty().push(2int).push(2int).push(2int).push(7int).push(7int).push(11int).push(1627int).push(2657int).push(4423int).push(41201int).push(96557int).push(7240687int), 107590001int);
    lemma_certificate_full();
    lemma_certificate_2();
    lemma_certificate_7();
    lemma_certificate_11();
    lemma_certificate_1627();
    lemma_certificate_2657();
    lemma_certificate_4423();
    lemma_certificate_41201();
    lemma_certificate_96557();
    lemma_certificate_7240687();
    lemma_certificate_107590001();
    assert forall|i: int| 0 <= i < fs.len() implies is_prime(#[trigger] fs[i])
        && pow_mod(3, ((255515944373312847190720520512484175977int - 1) / fs[i]) as nat, 255515944373312847190720520512484175977int) != 1 by {
        if i == 0 { assert(fs[0] == 2int); } else if i == 1 { assert(fs[1] == 2int); } else if i == 2 { assert(fs[2] == 2int); } else if i == 3 { assert(fs[3] == 7int); } else if i == 4 { assert(fs[4] == 7int); } else if i == 5 { assert(fs[5] == 11int); } else if i == 6 { assert(fs[6] == 1627int); } else if i == 7 { assert(fs[7] == 2657int); } else if i == 8 { assert(fs[8] == 4423int); } else if i == 9 { assert(fs[9] == 41201int); } else if i == 10 { assert(fs[10] == 96557int); } else if i == 11 { assert(fs[11] == 7240687int); } else if i == 12 { assert(fs[12] == 107590001int); }
    }
    lemma_lucas(255515944373312847190720520512484175977int, 3, fs);
}

} // verus!
