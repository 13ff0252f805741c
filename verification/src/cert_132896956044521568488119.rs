//! A Lucas certificate that 132896956044521568488119 is prime.
use vstd::prelude::*;
use crate::prime::{is_prime, pow_mod, power_of, product, lucas_certificate, lemma_lucas, lemma_pow_mod_step, lemma_pow_mod_zero, lemma_product_push};
use crate::cert_22149492674086928081353::lemma_prime_22149492674086928081353;
use crate::cert_small::lemma_small_primes;
verus! {

proof fn lemma_certificate_full_0()
    requires
        pow_mod(6int, 0nat, 132896956044521568488119int) == 1int,
    ensures
        pow_mod(6int, 3602nat, 132896956044521568488119int) == 25756179227066249763362int,
{
    let m: int = 132896956044521568488119int;
    lemma_pow_mod_step(6int, 1nat, m, 0nat, 1int, 0int, 1int, 0int, 6int);
    lemma_pow_mod_step(6int, 3nat, m, 1nat, 6int, 0int, 36int, 0int, 216int);
    lemma_pow_mod_step(6int, 7nat, m, 3nat, 216int, 0int, 46656int, 0int, 279936int);
    lemma_pow_mod_step(6int, 14nat, m, 7nat, 279936int, 0int, 78364164096int, 0int, 78364164096int);
    lemma_pow_mod_step(6int, 28nat, m, 14nat, 78364164096int, 0int, 6140942214464815497216int, 0int, 6140942214464815497216int);
    lemma_pow_mod_step(6int, 56nat, m, 28nat, 6140942214464815497216int, 283762490908839784411int, 91012720208514128837747int, 0int, 91012720208514128837747int);
    lemma_pow_mod_step(6int, 112nat, m, 56nat, 91012720208514128837747int, 62328856027208762095229int, 128358756880936818951758int, 0int, 128358756880936818951758int);
    lemma_pow_mod_step(6int, 225nat, m, 112nat, 128358756880936818951758int, 123975529300308881024670int, 131212337227178490394834int, 5int, 122789243140463099928409int);
    lemma_pow_mod_step(6int, 450nat, m, 225nat, 122789243140463099928409int, 113450290207977220889271int, 109902895880040747200032int, 0int, 109902895880040747200032int);
    lemma_pow_mod_step(6int, 900nat, m, 450nat, 109902895880040747200032int, 90887307597719784906528int, 103042949886763127260192int, 0int, 103042949886763127260192int);
    lemma_pow_mod_step(6int, 1801nat, m, 900nat, 103042949886763127260192int, 79895355299250877109748int, 5505987144219670792852int, 0int, 33035922865318024757112int);
    lemma_pow_mod_step(6int, 3602nat, m, 1801nat, 33035922865318024757112int, 8212168525497481428178int, 25756179227066249763362int, 0int, 25756179227066249763362int);
}

proof fn lemma_certificate_full_1()
    requires
        pow_mod(6int, 3602nat, 132896956044521568488119int) == 25756179227066249763362int,
    ensures
        pow_mod(6int, 14754526nat, 132896956044521568488119int) == 99969185935380378506290int,
{
    let m: int = 132896956044521568488119int;
    lemma_pow_mod_step(6int, 7204nat, m, 3602nat, 25756179227066249763362int, 4991692722853042696137int, 13195632222390385846741int, 0int, 13195632222390385846741int);
    lemma_pow_mod_step(6int, 14408nat, m, 7204nat, 13195632222390385846741int, 1310223461327844332510int, 10190663195064119872391int, 0int, 10190663195064119872391int);
    lemma_pow_mod_step(6int, 28817nat, m, 14408nat, 10190663195064119872391int, 781429608669471588433int, 37814105903812905729354int, 1int, 93987679378355865888005int);
    lemma_pow_mod_step(6int, 57634nat, m, 28817nat, 93987679378355865888005int, 66470174621375556961801int, 126576072113474597537706int, 0int, 126576072113474597537706int);
    lemma_pow_mod_step(6int, 115269nat, m, 57634nat, 126576072113474597537706int, 120555823914493476419679int, 25721590576244922448635int, 1int, 21432587412947966203691int);
    lemma_pow_mod_step(6int, 230539nat, m, 115269nat, 21432587412947966203691int, 3456480997651802042241int, 108037563752811557388802int, 4int, 116637558338783070380336int);
    lemma_pow_mod_step(6int, 461078nat, m, 230539nat, 116637558338783070380336int, 102367431280182712039616int, 25630860007911742150592int, 0int, 25630860007911742150592int);
    lemma_pow_mod_step(6int, 922157nat, m, 461078nat, 25630860007911742150592int, 4943235754211623189581int, 63425326123442522862325int, 2int, 114758044651612000197712int);
    lemma_pow_mod_step(6int, 1844315nat, m, 922157nat, 114758044651612000197712int, 99094886777162253553500int, 123288921969596809168444int, 5int, 75248751594973012570069int);
    lemma_pow_mod_step(6int, 3688631nat, m, 1844315nat, 75248751594973012570069int, 42607255915666056646645int, 42285137027036970954006int, 1int, 120813866117700257235917int);
    lemma_pow_mod_step(6int, 7377263nat, m, 3688631nat, 120813866117700257235917int, 109829379699380217371502int, 44360691152238698646151int, 2int, 370234824389054900668int);
    lemma_pow_mod_step(6int, 14754526nat, m, 7377263nat, 370234824389054900668int, 1031429381606554386int, 99969185935380378506290int, 0int, 99969185935380378506290int);
}

proof fn lemma_certificate_full_2()
    requires
        pow_mod(6int, 14754526nat, 132896956044521568488119int) == 99969185935380378506290int,
    ensures
        pow_mod(6int, 60434538702nat, 132896956044521568488119int) == 72734756699851493753566int,
{
    let m: int = 132896956044521568488119int;
    lemma_pow_mod_step(6int, 29509052nat, m, 14754526nat, 99969185935380378506290int, 75199902496146235841436int, 121189579412827235665216int, 0int, 121189579412827235665216int);
    lemma_pow_mod_step(6int, 59018104nat, m, 29509052nat, 121189579412827235665216int, 110513548206007987459924int, 53624759222886249683700int, 0int, 53624759222886249683700int);
    lemma_pow_mod_step(6int, 118036208nat, m, 59018104nat, 53624759222886249683700int, 21637928266386849310753int, 37853441733030626246393int, 0int, 37853441733030626246393int);
    lemma_pow_mod_step(6int, 236072416nat, m, 118036208nat, 37853441733030626246393int, 10781910238455101303009int, 16799907836733710060378int, 0int, 16799907836733710060378int);
    lemma_pow_mod_step(6int, 472144833nat, m, 236072416nat, 16799907836733710060378int, 2123727372869210427969int, 104170040038828123702573int, 4int, 93432416054882468262962int);
    lemma_pow_mod_step(6int, 944289667nat, m, 472144833nat, 93432416054882468262962int, 65687105481393917323731int, 118546795645909230761455int, 5int, 46795993652847542128135int);
    lemma_pow_mod_step(6int, 1888579334nat, m, 944289667nat, 46795993652847542128135int, 16477917080536628208083int, 111716817659746313312348int, 0int, 111716817659746313312348int);
    lemma_pow_mod_step(6int, 3777158668nat, m, 1888579334nat, 111716817659746313312348int, 93912213789455694370061int, 118944971639787541467845int, 0int, 118944971639787541467845int);
    lemma_pow_mod_step(6int, 7554317337nat, m, 3777158668nat, 118944971639787541467845int, 106457715055943027690450int, 135421378098334180475int, 0int, 812528268590005082850int);
    lemma_pow_mod_step(6int, 15108634675nat, m, 7554317337nat, 812528268590005082850int, 4967775086110311674int, 91024157436571308121294int, 4int, 14557120441341574775288int);
    lemma_pow_mod_step(6int, 30217269351nat, m, 15108634675nat, 14557120441341574775288int, 1594541830384235598740int, 60715768482727154112884int, 2int, 98500698807319787701066int);
    lemma_pow_mod_step(6int, 60434538702nat, m, 30217269351nat, 98500698807319787701066int, 73006846464413756266410int, 72734756699851493753566int, 0int, 72734756699851493753566int);
}

proof fn lemma_certificate_full_3()
    requires
        pow_mod(6int, 60434538702nat, 132896956044521568488119int) == 72734756699851493753566int,
    ensures
        pow_mod(6int, 247539870523887nat, 132896956044521568488119int) == 35400723987692606045496int,
{
    let m: int = 132896956044521568488119int;
    lemma_pow_mod_step(6int, 120869077404nat, m, 60434538702nat, 72734756699851493753566int, 39807870621312672657163int, 60888289486259611969959int, 0int, 60888289486259611969959int);
    lemma_pow_mod_step(6int, 241738154808nat, m, 120869077404nat, 60888289486259611969959int, 27896679554650964860130int, 111313374531392316666211int, 0int, 111313374531392316666211int);
    lemma_pow_mod_step(6int, 483476309616nat, m, 241738154808nat, 111313374531392316666211int, 93235147879647782392690int, 11264359522481531646411int, 0int, 11264359522481531646411int);
    lemma_pow_mod_step(6int, 966952619233nat, m, 483476309616nat, 11264359522481531646411int, 954768259772726315787int, 79370899875497777546268int, 3int, 77534531119421959813251int);
    lemma_pow_mod_step(6int, 1933905238467nat, m, 966952619233nat, 77534531119421959813251int, 45235073058367686777347int, 82608430004596627348708int, 3int, 96959711894015058627891int);
    lemma_pow_mod_step(6int, 3867810476935nat, m, 1933905238467nat, 96959711894015058627891int, 70740414305809465096293int, 65082459736318841665014int, 2int, 124700846328869913013846int);
    lemma_pow_mod_step(6int, 7735620953871nat, m, 3867810476935nat, 124700846328869913013846int, 117010212558419702776882int, 21828450626940262846758int, 0int, 130970703761641577080548int);
    lemma_pow_mod_step(6int, 15471241907742nat, m, 7735620953871nat, 130970703761641577080548int, 129072371214229848377383int, 16835202334238216167727int, 0int, 16835202334238216167727int);
    lemma_pow_mod_step(6int, 30942483815485nat, m, 15471241907742nat, 16835202334238216167727int, 2132660115554418785373int, 60137506433770234863142int, 2int, 95031126513578272202614int);
    lemma_pow_mod_step(6int, 61884967630971nat, m, 30942483815485nat, 95031126513578272202614int, 67954265283655471995719int, 84272964155544598070435int, 3int, 106946916799702882958253int);
    lemma_pow_mod_step(6int, 123769935261943nat, m, 61884967630971nat, 106946916799702882958253int, 86063995394528574993051int, 70007003183367539750940int, 3int, 21351150966640533041283int);
    lemma_pow_mod_step(6int, 247539870523887nat, m, 123769935261943nat, 21351150966640533041283int, 3430264026871723334867int, 5900120664615434340916int, 0int, 35400723987692606045496int);
}

proof fn lemma_certificate_full_4()
    requires
        pow_mod(6int, 247539870523887nat, 132896956044521568488119int) == 35400723987692606045496int,
    ensures
        pow_mod(6int, 1013923309665844486nat, 132896956044521568488119int) == 1185017263014692940835int,
{
    let m: int = 132896956044521568488119int;
    lemma_pow_mod_step(6int, 495079741047775nat, m, 247539870523887nat, 35400723987692606045496int, 9429947051856918781176int, 38463111409864705038072int, 1int, 97881712414666661740313int);
    lemma_pow_mod_step(6int, 990159482095551nat, m, 495079741047775nat, 97881712414666661740313int, 72092167573934901238686int, 18753658188120475166335int, 0int, 112521949128722850998010int);
    lemma_pow_mod_step(6int, 1980318964191102nat, m, 990159482095551nat, 112521949128722850998010int, 95270722615236508238819int, 126987208114539807868639int, 0int, 126987208114539807868639int);
    lemma_pow_mod_step(6int, 3960637928382205nat, m, 1980318964191102nat, 126987208114539807868639int, 121340258683751839943982int, 10241971361414487162463int, 0int, 61451828168486922974778int);
    lemma_pow_mod_step(6int, 7921275856764410nat, m, 3960637928382205nat, 61451828168486922974778int, 28415452826354746011255int, 56527286504140716369939int, 0int, 56527286504140716369939int);
    lemma_pow_mod_step(6int, 15842551713528820nat, m, 7921275856764410nat, 56527286504140716369939int, 24043696820646110783957int, 85404610846975172556838int, 0int, 85404610846975172556838int);
    lemma_pow_mod_step(6int, 31685103427057640nat, m, 15842551713528820nat, 85404610846975172556838int, 54884233401702121340191int, 33580652503456399867515int, 0int, 33580652503456399867515int);
    lemma_pow_mod_step(6int, 63370206854115280nat, m, 31685103427057640nat, 33580652503456399867515int, 8485222356636348897473int, 59704721610524402651938int, 0int, 59704721610524402651938int);
    lemma_pow_mod_step(6int, 126740413708230560nat, m, 63370206854115280nat, 59704721610524402651938int, 26822689463226166104351int, 85164851068492117450075int, 0int, 85164851068492117450075int);
    lemma_pow_mod_step(6int, 253480827416461121nat, m, 126740413708230560nat, 85164851068492117450075int, 54576508547634538718595int, 105553153484758375632820int, 4int, 101731096730463979844444int);
    lemma_pow_mod_step(6int, 506961654832922243nat, m, 253480827416461121nat, 101731096730463979844444int, 77873988615028525801637int, 12212263845085852418333int, 0int, 73273583070515114509998int);
    lemma_pow_mod_step(6int, 1013923309665844486nat, m, 506961654832922243nat, 73273583070515114509998int, 40399856669350757822951int, 1185017263014692940835int, 0int, 1185017263014692940835int);
}

proof fn lemma_certificate_full_5()
    requires
        pow_mod(6int, 1013923309665844486nat, 132896956044521568488119int) == 1185017263014692940835int,
    ensures
        pow_mod(6int, 4153029876391299015253nat, 132896956044521568488119int) == 34168063199283984733468int,
{
    let m: int = 132896956044521568488119int;
    lemma_pow_mod_step(6int, 2027846619331688972nat, m, 1013923309665844486nat, 1185017263014692940835int, 10566576958861220014int, 1843779721739006483559int, 0int, 1843779721739006483559int);
    lemma_pow_mod_step(6int, 4055693238663377944nat, m, 2027846619331688972nat, 1843779721739006483559int, 25580146930958297601int, 55529349220646902603962int, 0int, 55529349220646902603962int);
    lemma_pow_mod_step(6int, 8111386477326755889nat, m, 4055693238663377944nat, 55529349220646902603962int, 23202251704211781429261int, 128147770161475500647385int, 5int, 104401840746245161443715int);
    lemma_pow_mod_step(6int, 16222772954653511778nat, m, 8111386477326755889nat, 104401840746245161443715int, 82016508696804408668490int, 126661106826275938330915int, 0int, 126661106826275938330915int);
    lemma_pow_mod_step(6int, 32445545909307023556nat, m, 16222772954653511778nat, 126661106826275938330915int, 120717858858127169460553int, 54596190338619025067418int, 0int, 54596190338619025067418int);
    lemma_pow_mod_step(6int, 64891091818614047113nat, m, 32445545909307023556nat, 54596190338619025067418int, 22428986247752309147739int, 25012819966535807973783int, 1int, 17179963754693279354579int);
    lemma_pow_mod_step(6int, 129782183637228094226nat, m, 64891091818614047113nat, 17179963754693279354579int, 2220902294509264360217int, 66457733672204307505418int, 0int, 66457733672204307505418int);
    lemma_pow_mod_step(6int, 259564367274456188453nat, m, 129782183637228094226nat, 66457733672204307505418int, 33233495305686541788036int, 75753193266674617010440int, 3int, 55828291466482996598283int);
    lemma_pow_mod_step(6int, 519128734548912376906nat, m, 259564367274456188453nat, 55828291466482996598283int, 23452742792862955299003int, 37090816713675380502732int, 0int, 37090816713675380502732int);
    lemma_pow_mod_step(6int, 1038257469097824753813nat, m, 519128734548912376906nat, 37090816713675380502732int, 10351844958936309864979int, 36513585536527003779323int, 1int, 86184557174640454187819int);
    lemma_pow_mod_step(6int, 2076514938195649507626nat, m, 1038257469097824753813nat, 86184557174640454187819int, 55891256778676728839841int, 57136686258499665627682int, 0int, 57136686258499665627682int);
    lemma_pow_mod_step(6int, 4153029876391299015253nat, m, 2076514938195649507626nat, 57136686258499665627682int, 24564903619828256111867int, 49993662548054520284951int, 2int, 34168063199283984733468int);
}

proof fn lemma_certificate_full_6()
    requires
        pow_mod(6int, 4153029876391299015253nat, 132896956044521568488119int) == 34168063199283984733468int,
    ensures
        pow_mod(6int, 132896956044521568488118nat, 132896956044521568488119int) == 1int,
{
    let m: int = 132896956044521568488119int;
    lemma_pow_mod_step(6int, 8306059752782598030507nat, m, 4153029876391299015253nat, 34168063199283984733468int, 8784674815269335655879int, 1780020612541715305423int, 0int, 10680123675250291832538int);
    lemma_pow_mod_step(6int, 16612119505565196061014nat, m, 8306059752782598030507nat, 10680123675250291832538int, 858296872355970877858int, 48415345636439962352342int, 0int, 48415345636439962352342int);
    lemma_pow_mod_step(6int, 33224239011130392122029nat, m, 16612119505565196061014nat, 48415345636439962352342int, 17638069094002962731819int, 107266504724768268126503int, 4int, 112011204170523334806542int);
    lemma_pow_mod_step(6int, 66448478022260784244059nat, m, 33224239011130392122029nat, 112011204170523334806542int, 94407804611623162939869int, 22149492674086928081353int, 0int, 132896956044521568488118int);
    lemma_pow_mod_step(6int, 132896956044521568488118nat, m, 66448478022260784244059nat, 132896956044521568488118int, 132896956044521568488117int, 1int, 0int, 1int);
}

proof fn lemma_certificate_full()
    ensures
        pow_mod(6int, 132896956044521568488118nat, 132896956044521568488119int) == 1int,
{
    lemma_pow_mod_zero(6int, 132896956044521568488119int);
    lemma_certificate_full_0();
    lemma_certificate_full_1();
    lemma_certificate_full_2();
    lemma_certificate_full_3();
    lemma_certificate_full_4();
    lemma_certificate_full_5();
    lemma_certificate_full_6();
}

proof fn lemma_certificate_2_0()
    requires
        pow_mod(6int, 0nat, 132896956044521568488119int) == 1int,
    ensures
        pow_mod(6int, 3602nat, 132896956044521568488119int) == 25756179227066249763362int,
{
    let m: int = 132896956044521568488119int;
    lemma_pow_mod_step(6int, 1nat, m, 0nat, 1int, 0int, 1int, 0int, 6int);
    lemma_pow_mod_step(6int, 3nat, m, 1nat, 6int, 0int, 36int, 0int, 216int);
    lemma_pow_mod_step(6int, 7nat, m, 3nat, 216int, 0int, 46656int, 0int, 279936int);
    lemma_pow_mod_step(6int, 14nat, m, 7nat, 279936int, 0int, 78364164096int, 0int, 78364164096int);
    lemma_pow_mod_step(6int, 28nat, m, 14nat, 78364164096int, 0int, 6140942214464815497216int, 0int, 6140942214464815497216int);
    lemma_pow_mod_step(6int, 56nat, m, 28nat, 6140942214464815497216int, 283762490908839784411int, 91012720208514128837747int, 0int, 91012720208514128837747int);
    lemma_pow_mod_step(6int, 112nat, m, 56nat, 91012720208514128837747int, 62328856027208762095229int, 128358756880936818951758int, 0int, 128358756880936818951758int);
    lemma_pow_mod_step(6int, 225nat, m, 112nat, 128358756880936818951758int, 123975529300308881024670int, 131212337227178490394834int, 5int, 122789243140463099928409int);
    lemma_pow_mod_step(6int, 450nat, m, 225nat, 122789243140463099928409int, 113450290207977220889271int, 109902895880040747200032int, 0int, 109902895880040747200032int);
    lemma_pow_mod_step(6int, 900nat, m, 450nat, 109902895880040747200032int, 90887307597719784906528int, 103042949886763127260192int, 0int, 103042949886763127260192int);
    lemma_pow_mod_step(6int, 1801nat, m, 900nat, 103042949886763127260192int, 79895355299250877109748int, 5505987144219670792852int, 0int, 33035922865318024757112int);
    lemma_pow_mod_step(6int, 3602nat, m, 1801nat, 33035922865318024757112int, 8212168525497481428178int, 25756179227066249763362int, 0int, 25756179227066249763362int);
}

proof fn lemma_certificate_2_1()
    requires
        pow_mod(6int, 3602nat, 132896956044521568488119int) == 25756179227066249763362int,
    ensures
        pow_mod(6int, 14754526nat, 132896956044521568488119int) == 99969185935380378506290int,
{
    let m: int = 132896956044521568488119int;
    lemma_pow_mod_step(6int, 7204nat, m, 3602nat, 25756179227066249763362int, 4991692722853042696137int, 13195632222390385846741int, 0int, 13195632222390385846741int);
    lemma_pow_mod_step(6int, 14408nat, m, 7204nat, 13195632222390385846741int, 1310223461327844332510int, 10190663195064119872391int, 0int, 10190663195064119872391int);
    lemma_pow_mod_step(6int, 28817nat, m, 14408nat, 10190663195064119872391int, 781429608669471588433int, 37814105903812905729354int, 1int, 93987679378355865888005int);
    lemma_pow_mod_step(6int, 57634nat, m, 28817nat, 93987679378355865888005int, 66470174621375556961801int, 126576072113474597537706int, 0int, 126576072113474597537706int);
    lemma_pow_mod_step(6int, 115269nat, m, 57634nat, 126576072113474597537706int, 120555823914493476419679int, 25721590576244922448635int, 1int, 21432587412947966203691int);
    lemma_pow_mod_step(6int, 230539nat, m, 115269nat, 21432587412947966203691int, 3456480997651802042241int, 108037563752811557388802int, 4int, 116637558338783070380336int);
    lemma_pow_mod_step(6int, 461078nat, m, 230539nat, 116637558338783070380336int, 102367431280182712039616int, 25630860007911742150592int, 0int, 25630860007911742150592int);
    lemma_pow_mod_step(6int, 922157nat, m, 461078nat, 25630860007911742150592int, 4943235754211623189581int, 63425326123442522862325int, 2int, 114758044651612000197712int);
    lemma_pow_mod_step(6int, 1844315nat, m, 922157nat, 114758044651612000197712int, 99094886777162253553500int, 123288921969596809168444int, 5int, 75248751594973012570069int);
    lemma_pow_mod_step(6int, 3688631nat, m, 1844315nat, 75248751594973012570069int, 42607255915666056646645int, 42285137027036970954006int, 1int, 120813866117700257235917int);
    lemma_pow_mod_step(6int, 7377263nat, m, 3688631nat, 120813866117700257235917int, 109829379699380217371502int, 44360691152238698646151int, 2int, 370234824389054900668int);
    lemma_pow_mod_step(6int, 14754526nat, m, 7377263nat, 370234824389054900668int, 1031429381606554386int, 99969185935380378506290int, 0int, 99969185935380378506290int);
}

proof fn lemma_certificate_2_2()
    requires
        pow_mod(6int, 14754526nat, 132896956044521568488119int) == 99969185935380378506290int,
    ensures
        pow_mod(6int, 60434538702nat, 132896956044521568488119int) == 72734756699851493753566int,
{
    let m: int = 132896956044521568488119int;
    lemma_pow_mod_step(6int, 29509052nat, m, 14754526nat, 99969185935380378506290int, 75199902496146235841436int, 121189579412827235665216int, 0int, 121189579412827235665216int);
    lemma_pow_mod_step(6int, 59018104nat, m, 29509052nat, 121189579412827235665216int, 110513548206007987459924int, 53624759222886249683700int, 0int, 53624759222886249683700int);
    lemma_pow_mod_step(6int, 118036208nat, m, 59018104nat, 53624759222886249683700int, 21637928266386849310753int, 37853441733030626246393int, 0int, 37853441733030626246393int);
    lemma_pow_mod_step(6int, 236072416nat, m, 118036208nat, 37853441733030626246393int, 10781910238455101303009int, 16799907836733710060378int, 0int, 16799907836733710060378int);
    lemma_pow_mod_step(6int, 472144833nat, m, 236072416nat, 16799907836733710060378int, 2123727372869210427969int, 104170040038828123702573int, 4int, 93432416054882468262962int);
    lemma_pow_mod_step(6int, 944289667nat, m, 472144833nat, 93432416054882468262962int, 65687105481393917323731int, 118546795645909230761455int, 5int, 46795993652847542128135int);
    lemma_pow_mod_step(6int, 1888579334nat, m, 944289667nat, 46795993652847542128135int, 16477917080536628208083int, 111716817659746313312348int, 0int, 111716817659746313312348int);
    lemma_pow_mod_step(6int, 3777158668nat, m, 1888579334nat, 111716817659746313312348int, 93912213789455694370061int, 118944971639787541467845int, 0int, 118944971639787541467845int);
    lemma_pow_mod_step(6int, 7554317337nat, m, 3777158668nat, 118944971639787541467845int, 106457715055943027690450int, 135421378098334180475int, 0int, 812528268590005082850int);
    lemma_pow_mod_step(6int, 15108634675nat, m, 7554317337nat, 812528268590005082850int, 4967775086110311674int, 91024157436571308121294int, 4int, 14557120441341574775288int);
    lemma_pow_mod_step(6int, 30217269351nat, m, 15108634675nat, 14557120441341574775288int, 1594541830384235598740int, 60715768482727154112884int, 2int, 98500698807319787701066int);
    lemma_pow_mod_step(6int, 60434538702nat, m, 30217269351nat, 98500698807319787701066int, 73006846464413756266410int, 72734756699851493753566int, 0int, 72734756699851493753566int);
}

proof fn lemma_certificate_2_3()
    requires
        pow_mod(6int, 60434538702nat, 132896956044521568488119int) == 72734756699851493753566int,
    ensures
        pow_mod(6int, 247539870523887nat, 132896956044521568488119int) == 35400723987692606045496int,
{
    let m: int = 132896956044521568488119int;
    lemma_pow_mod_step(6int, 120869077404nat, m, 60434538702nat, 72734756699851493753566int, 39807870621312672657163int, 60888289486259611969959int, 0int, 60888289486259611969959int);
    lemma_pow_mod_step(6int, 241738154808nat, m, 120869077404nat, 60888289486259611969959int, 27896679554650964860130int, 111313374531392316666211int, 0int, 111313374531392316666211int);
    lemma_pow_mod_step(6int, 483476309616nat, m, 241738154808nat, 111313374531392316666211int, 93235147879647782392690int, 11264359522481531646411int, 0int, 11264359522481531646411int);
    lemma_pow_mod_step(6int, 966952619233nat, m, 483476309616nat, 11264359522481531646411int, 954768259772726315787int, 79370899875497777546268int, 3int, 77534531119421959813251int);
    lemma_pow_mod_step(6int, 1933905238467nat, m, 966952619233nat, 77534531119421959813251int, 45235073058367686777347int, 82608430004596627348708int, 3int, 96959711894015058627891int);
    lemma_pow_mod_step(6int, 3867810476935nat, m, 1933905238467nat, 96959711894015058627891int, 70740414305809465096293int, 65082459736318841665014int, 2int, 124700846328869913013846int);
    lemma_pow_mod_step(6int, 7735620953871nat, m, 3867810476935nat, 124700846328869913013846int, 117010212558419702776882int, 21828450626940262846758int, 0int, 130970703761641577080548int);
    lemma_pow_mod_step(6int, 15471241907742nat, m, 7735620953871nat, 130970703761641577080548int, 129072371214229848377383int, 16835202334238216167727int, 0int, 16835202334238216167727int);
    lemma_pow_mod_step(6int, 30942483815485nat, m, 15471241907742nat, 16835202334238216167727int, 2132660115554418785373int, 60137506433770234863142int, 2int, 95031126513578272202614int);
    lemma_pow_mod_step(6int, 61884967630971nat, m, 30942483815485nat, 95031126513578272202614int, 67954265283655471995719int, 84272964155544598070435int, 3int, 106946916799702882958253int);
    lemma_pow_mod_step(6int, 123769935261943nat, m, 61884967630971nat, 106946916799702882958253int, 86063995394528574993051int, 70007003183367539750940int, 3int, 21351150966640533041283int);
    lemma_pow_mod_step(6int, 247539870523887nat, m, 123769935261943nat, 21351150966640533041283int, 3430264026871723334867int, 5900120664615434340916int, 0int, 35400723987692606045496int);
}

proof fn lemma_certificate_2_4()
    requires
        pow_mod(6int, 247539870523887nat, 132896956044521568488119int) == 35400723987692606045496int,
    ensures
        pow_mod(6int, 1013923309665844486nat, 132896956044521568488119int) == 1185017263014692940835int,
{
    let m: int = 132896956044521568488119int;
    lemma_pow_mod_step(6int, 495079741047775nat, m, 247539870523887nat, 35400723987692606045496int, 9429947051856918781176int, 38463111409864705038072int, 1int, 97881712414666661740313int);
    lemma_pow_mod_step(6int, 990159482095551nat, m, 495079741047775nat, 97881712414666661740313int, 72092167573934901238686int, 18753658188120475166335int, 0int, 112521949128722850998010int);
    lemma_pow_mod_step(6int, 1980318964191102nat, m, 990159482095551nat, 112521949128722850998010int, 95270722615236508238819int, 126987208114539807868639int, 0int, 126987208114539807868639int);
    lemma_pow_mod_step(6int, 3960637928382205nat, m, 1980318964191102nat, 126987208114539807868639int, 121340258683751839943982int, 10241971361414487162463int, 0int, 61451828168486922974778int);
    lemma_pow_mod_step(6int, 7921275856764410nat, m, 3960637928382205nat, 61451828168486922974778int, 28415452826354746011255int, 56527286504140716369939int, 0int, 56527286504140716369939int);
    lemma_pow_mod_step(6int, 15842551713528820nat, m, 7921275856764410nat, 56527286504140716369939int, 24043696820646110783957int, 85404610846975172556838int, 0int, 85404610846975172556838int);
    lemma_pow_mod_step(6int, 31685103427057640nat, m, 15842551713528820nat, 85404610846975172556838int, 54884233401702121340191int, 33580652503456399867515int, 0int, 33580652503456399867515int);
    lemma_pow_mod_step(6int, 63370206854115280nat, m, 31685103427057640nat, 33580652503456399867515int, 8485222356636348897473int, 59704721610524402651938int, 0int, 59704721610524402651938int);
    lemma_pow_mod_step(6int, 126740413708230560nat, m, 63370206854115280nat, 59704721610524402651938int, 26822689463226166104351int, 85164851068492117450075int, 0int, 85164851068492117450075int);
    lemma_pow_mod_step(6int, 253480827416461121nat, m, 126740413708230560nat, 85164851068492117450075int, 54576508547634538718595int, 105553153484758375632820int, 4int, 101731096730463979844444int);
    lemma_pow_mod_step(6int, 506961654832922243nat, m, 253480827416461121nat, 101731096730463979844444int, 77873988615028525801637int, 12212263845085852418333int, 0int, 73273583070515114509998int);
    lemma_pow_mod_step(6int, 1013923309665844486nat, m, 506961654832922243nat, 73273583070515114509998int, 40399856669350757822951int, 1185017263014692940835int, 0int, 1185017263014692940835int);
}

proof fn lemma_certificate_2_5()
    requires
        pow_mod(6int, 1013923309665844486nat, 132896956044521568488119int) == 1185017263014692940835int,
    ensures
        pow_mod(6int, 4153029876391299015253nat, 132896956044521568488119int) == 34168063199283984733468int,
{
    let m: int = 132896956044521568488119int;
    lemma_pow_mod_step(6int, 2027846619331688972nat, m, 1013923309665844486nat, 1185017263014692940835int, 10566576958861220014int, 1843779721739006483559int, 0int, 1843779721739006483559int);
    lemma_pow_mod_step(6int, 4055693238663377944nat, m, 2027846619331688972nat, 1843779721739006483559int, 25580146930958297601int, 55529349220646902603962int, 0int, 55529349220646902603962int);
    lemma_pow_mod_step(6int, 8111386477326755889nat, m, 4055693238663377944nat, 55529349220646902603962int, 23202251704211781429261int, 128147770161475500647385int, 5int, 104401840746245161443715int);
    lemma_pow_mod_step(6int, 16222772954653511778nat, m, 8111386477326755889nat, 104401840746245161443715int, 82016508696804408668490int, 126661106826275938330915int, 0int, 126661106826275938330915int);
    lemma_pow_mod_step(6int, 32445545909307023556nat, m, 16222772954653511778nat, 126661106826275938330915int, 120717858858127169460553int, 54596190338619025067418int, 0int, 54596190338619025067418int);
    lemma_pow_mod_step(6int, 64891091818614047113nat, m, 32445545909307023556nat, 54596190338619025067418int, 22428986247752309147739int, 25012819966535807973783int, 1int, 17179963754693279354579int);
    lemma_pow_mod_step(6int, 129782183637228094226nat, m, 64891091818614047113nat, 17179963754693279354579int, 2220902294509264360217int, 66457733672204307505418int, 0int, 66457733672204307505418int);
    lemma_pow_mod_step(6int, 259564367274456188453nat, m, 129782183637228094226nat, 66457733672204307505418int, 33233495305686541788036int, 75753193266674617010440int, 3int, 55828291466482996598283int);
    lemma_pow_mod_step(6int, 519128734548912376906nat, m, 259564367274456188453nat, 55828291466482996598283int, 23452742792862955299003int, 37090816713675380502732int, 0int, 37090816713675380502732int);
    lemma_pow_mod_step(6int, 1038257469097824753813nat, m, 519128734548912376906nat, 37090816713675380502732int, 10351844958936309864979int, 36513585536527003779323int, 1int, 86184557174640454187819int);
    lemma_pow_mod_step(6int, 2076514938195649507626nat, m, 1038257469097824753813nat, 86184557174640454187819int, 55891256778676728839841int, 57136686258499665627682int, 0int, 57136686258499665627682int);
    lemma_pow_mod_step(6int, 4153029876391299015253nat, m, 2076514938195649507626nat, 57136686258499665627682int, 24564903619828256111867int, 49993662548054520284951int, 2int, 34168063199283984733468int);
}

proof fn lemma_certificate_2_6()
    requires
        pow_mod(6int, 4153029876391299015253nat, 132896956044521568488119int) == 34168063199283984733468int,
    ensures
        pow_mod(6int, 66448478022260784244059nat, 132896956044521568488119int) == 132896956044521568488118int,
{
    let m: int = 132896956044521568488119int;
    lemma_pow_mod_step(6int, 8306059752782598030507nat, m, 4153029876391299015253nat, 34168063199283984733468int, 8784674815269335655879int, 1780020612541715305423int, 0int, 10680123675250291832538int);
    lemma_pow_mod_step(6int, 16612119505565196061014nat, m, 8306059752782598030507nat, 10680123675250291832538int, 858296872355970877858int, 48415345636439962352342int, 0int, 48415345636439962352342int);
    lemma_pow_mod_step(6int, 33224239011130392122029nat, m, 16612119505565196061014nat, 48415345636439962352342int, 17638069094002962731819int, 107266504724768268126503int, 4int, 112011204170523334806542int);
    lemma_pow_mod_step(6int, 66448478022260784244059nat, m, 33224239011130392122029nat, 112011204170523334806542int, 94407804611623162939869int, 22149492674086928081353int, 0int, 132896956044521568488118int);
}

proof fn lemma_certificate_2()
    ensures
        pow_mod(6int, 66448478022260784244059nat, 132896956044521568488119int) == 132896956044521568488118int,
{
    lemma_pow_mod_zero(6int, 132896956044521568488119int);
    lemma_certificate_2_0();
    lemma_certificate_2_1();
    lemma_certificate_2_2();
    lemma_certificate_2_3();
    lemma_certificate_2_4();
    lemma_certificate_2_5();
    lemma_certificate_2_6();
}

proof fn lemma_certificate_3_0()
    requires
        pow_mod(6int, 0nat, 132896956044521568488119int) == 1int,
    ensures
        pow_mod(6int, 2401nat, 132896956044521568488119int) == 17238636564558505586917int,
{
    let m: int = 132896956044521568488119int;
    lemma_pow_mod_step(6int, 1nat, m, 0nat, 1int, 0int, 1int, 0int, 6int);
    lemma_pow_mod_step(6int, 2nat, m, 1nat, 6int, 0int, 36int, 0int, 36int);
    lemma_pow_mod_step(6int, 4nat, m, 2nat, 36int, 0int, 1296int, 0int, 1296int);
    lemma_pow_mod_step(6int, 9nat, m, 4nat, 1296int, 0int, 1679616int, 0int, 10077696int);
    lemma_pow_mod_step(6int, 18nat, m, 9nat, 10077696int, 0int, 101559956668416int, 0int, 101559956668416int);
    lemma_pow_mod_step(6int, 37nat, m, 18nat, 101559956668416int, 77612int, 26245963127572672057228int, 1int, 24578822720914463855249int);
    lemma_pow_mod_step(6int, 75nat, m, 37nat, 24578822720914463855249int, 4545766466944182192373int, 33810708665995601935614int, 1int, 69967295951452043125565int);
    lemma_pow_mod_step(6int, 150nat, m, 75nat, 69967295951452043125565int, 36836227468732021526558int, 132717731879155890604823int, 0int, 132717731879155890604823int);
    lemma_pow_mod_step(6int, 300nat, m, 150nat, 132717731879155890604823int, 132538749414596665075128int, 102465798460160240457097int, 0int, 102465798460160240457097int);
    lemma_pow_mod_step(6int, 600nat, m, 300nat, 102465798460160240457097int, 79002861815441772656482int, 20927695604024412330051int, 0int, 20927695604024412330051int);
    lemma_pow_mod_step(6int, 1200nat, m, 600nat, 20927695604024412330051int, 3295549095556257117558int, 25134046799360048369199int, 0int, 25134046799360048369199int);
    lemma_pow_mod_step(6int, 2401nat, m, 1200nat, 25134046799360048369199int, 4753459577364507998171int, 113620569464527724671252int, 5int, 17238636564558505586917int);
}

proof fn lemma_certificate_3_1()
    requires
        pow_mod(6int, 2401nat, 132896956044521568488119int) == 17238636564558505586917int,
    ensures
        pow_mod(6int, 9836350nat, 132896956044521568488119int) == 44148545806395241113743int,
{
    let m: int = 132896956044521568488119int;
    lemma_pow_mod_step(6int, 4802nat, m, 2401nat, 17238636564558505586917int, 2236097796742454315930int, 2793115292466164129219int, 0int, 2793115292466164129219int);
    lemma_pow_mod_step(6int, 9605nat, m, 4802nat, 2793115292466164129219int, 58703323757052656126int, 34219375003397505982967int, 1int, 72419293975863467409683int);
    lemma_pow_mod_step(6int, 19211nat, m, 9605nat, 72419293975863467409683int, 39463312750410672458138int, 29286971009519784298067int, 1int, 42824870012597137300283int);
    lemma_pow_mod_step(6int, 38423nat, m, 19211nat, 42824870012597137300283int, 13799936026988057858262int, 119867428251461178890911int, 5int, 54719789286159230904871int);
    lemma_pow_mod_step(6int, 76846nat, m, 38423nat, 54719789286159230904871int, 22530654039348850819621int, 24986308744238500943742int, 0int, 24986308744238500943742int);
    lemma_pow_mod_step(6int, 153692nat, m, 76846nat, 24986308744238500943742int, 4697742094659102105854int, 131650908633504769613938int, 0int, 131650908633504769613938int);
    lemma_pow_mod_step(6int, 307385nat, m, 153692nat, 131650908633504769613938int, 130416544215061416305766int, 64170775629890721673690int, 2int, 119230741690301193065902int);
    lemma_pow_mod_step(6int, 614771nat, m, 307385nat, 119230741690301193065902int, 106969867385501747116090int, 89166240175316836338894int, 4int, 3409616873814744080888int);
    lemma_pow_mod_step(6int, 1229543nat, m, 614771nat, 3409616873814744080888int, 87477452999808325523int, 48025943238211776907307int, 2int, 22361747340227524467604int);
    lemma_pow_mod_step(6int, 2459087nat, m, 1229543nat, 22361747340227524467604int, 3762672667541404605611int, 108615842212290911265107int, 4int, 120107229095659193638166int);
    lemma_pow_mod_step(6int, 4918175nat, m, 2459087nat, 120107229095659193638166int, 108548358896981953196541int, 103081887587018701447177int, 4int, 86903501344025934730586int);
    lemma_pow_mod_step(6int, 9836350nat, m, 4918175nat, 86903501344025934730586int, 56827626234878264560787int, 44148545806395241113743int, 0int, 44148545806395241113743int);
}

proof fn lemma_certificate_3_2()
    requires
        pow_mod(6int, 9836350nat, 132896956044521568488119int) == 44148545806395241113743int,
    ensures
        pow_mod(6int, 40289692468nat, 132896956044521568488119int) == 71896509454829889736702int,
{
    let m: int = 132896956044521568488119int;
    lemma_pow_mod_step(6int, 19672701nat, m, 9836350nat, 44148545806395241113743int, 14666205719312460009030int, 119015037320380875755479int, 5int, 49605443699677412092279int);
    lemma_pow_mod_step(6int, 39345402nat, m, 19672701nat, 49605443699677412092279int, 18515849556535446856010int, 94324486046604822668651int, 0int, 94324486046604822668651int);
    lemma_pow_mod_step(6int, 78690805nat, m, 39345402nat, 94324486046604822668651int, 66947422520163243107094int, 54534671827251754543615int, 2int, 61414118874467390285452int);
    lemma_pow_mod_step(6int, 157381611nat, m, 78690805nat, 61414118874467390285452int, 28380589814740853656637int, 98360115527309202848501int, 4int, 58572868985768943138530int);
    lemma_pow_mod_step(6int, 314763222nat, m, 157381611nat, 58572868985768943138530int, 25815346591344903493008int, 34085748316222122988948int, 0int, 34085748316222122988948int);
    lemma_pow_mod_step(6int, 629526444nat, m, 314763222nat, 34085748316222122988948int, 8742399170434076526418int, 46441976121409907518962int, 0int, 46441976121409907518962int);
    lemma_pow_mod_step(6int, 1259052889nat, m, 629526444nat, 46441976121409907518962int, 16229545132237966623705int, 128235985028982553296549int, 5int, 104931129951287477338699int);
    lemma_pow_mod_step(6int, 2518105779nat, m, 1259052889nat, 104931129951287477338699int, 82850219903948425776296int, 32312804046665935185377int, 1int, 60979868235474042624143int);
    lemma_pow_mod_step(6int, 5036211558nat, m, 2518105779nat, 60979868235474042624143int, 27980658404019677691218int, 47570417388136782845507int, 0int, 47570417388136782845507int);
    lemma_pow_mod_step(6int, 10072423117nat, m, 5036211558nat, 47570417388136782845507int, 17027813712478421268321int, 31317070802833430508850int, 1int, 55005468772479014564981int);
    lemma_pow_mod_step(6int, 20144846234nat, m, 10072423117nat, 55005468772479014564981int, 22766522913185180255440int, 37637664261605646413001int, 0int, 37637664261605646413001int);
    lemma_pow_mod_step(6int, 40289692468nat, m, 20144846234nat, 37637664261605646413001int, 10659339485509181985221int, 71896509454829889736702int, 0int, 71896509454829889736702int);
}

proof fn lemma_certificate_3_3()
    requires
        pow_mod(6int, 40289692468nat, 132896956044521568488119int) == 71896509454829889736702int,
    ensures
        pow_mod(6int, 165026580349258nat, 132896956044521568488119int) == 74988660404382215957201int,
{
    let m: int = 132896956044521568488119int;
    lemma_pow_mod_step(6int, 80579384936nat, m, 40289692468nat, 71896509454829889736702int, 38895609242221847413518int, 124754917847621022844162int, 0int, 124754917847621022844162int);
    lemma_pow_mod_step(6int, 161158769872nat, m, 80579384936nat, 124754917847621022844162int, 117111708126352220506167int, 100492696171028631752371int, 0int, 100492696171028631752371int);
    lemma_pow_mod_step(6int, 322317539744nat, m, 161158769872nat, 100492696171028631752371int, 75989565783128230324769int, 66120737492058576202130int, 0int, 66120737492058576202130int);
    lemma_pow_mod_step(6int, 644635079489nat, m, 322317539744nat, 66120737492058576202130int, 32897306730103592130234int, 16198121462800686847054int, 0int, 97188728776804121082324int);
    lemma_pow_mod_step(6int, 1289270158978nat, m, 644635079489nat, 97188728776804121082324int, 71074983824963031580405int, 12733395607234149532781int, 0int, 12733395607234149532781int);
    lemma_pow_mod_step(6int, 2578540317957nat, m, 1289270158978nat, 12733395607234149532781int, 1220038204908259307423int, 114468343154936449586624int, 5int, 22325278707010855079149int);
    lemma_pow_mod_step(6int, 5157080635914nat, m, 2578540317957nat, 22325278707010855079149int, 3750409973112838963048int, 32577473172469986537489int, 0int, 32577473172469986537489int);
    lemma_pow_mod_step(6int, 10314161271828nat, m, 5157080635914nat, 32577473172469986537489int, 7985824430376420810613int, 101112960406948362818174int, 0int, 101112960406948362818174int);
    lemma_pow_mod_step(6int, 20628322543657nat, m, 10314161271828nat, 101112960406948362818174int, 76930511176132884539897int, 23636078202464158710533int, 1int, 8919513170263383775079int);
    lemma_pow_mod_step(6int, 41256645087314nat, m, 20628322543657nat, 8919513170263383775079int, 598642117640749220477int, 50911770736248575443478int, 0int, 50911770736248575443478int);
    lemma_pow_mod_step(6int, 82513290174629nat, m, 41256645087314nat, 50911770736248575443478int, 19503895925441608876611int, 89523694643355082251775int, 4int, 5554343682044219558174int);
    lemma_pow_mod_step(6int, 165026580349258nat, m, 82513290174629nat, 5554343682044219558174int, 232140258561898813925int, 74988660404382215957201int, 0int, 74988660404382215957201int);
}

proof fn lemma_certificate_3_4()
    requires
        pow_mod(6int, 165026580349258nat, 132896956044521568488119int) == 74988660404382215957201int,
    ensures
        pow_mod(6int, 675948873110562990nat, 132896956044521568488119int) == 81374867682781041554445int,
{
    let m: int = 132896956044521568488119int;
    lemma_pow_mod_step(6int, 330053160698517nat, m, 165026580349258nat, 74988660404382215957201int, 42313227906889830450572int, 106257347577990065000333int, 4int, 105956261289854116049522int);
    lemma_pow_mod_step(6int, 660106321397034nat, m, 330053160698517nat, 105956261289854116049522int, 84476948461955679267281int, 78414911981642682494045int, 0int, 78414911981642682494045int);
    lemma_pow_mod_step(6int, 1320212642794068nat, m, 660106321397034nat, 78414911981642682494045int, 46268165984394991003947int, 109775783928658708856332int, 0int, 109775783928658708856332int);
    lemma_pow_mod_step(6int, 2640425285588136nat, m, 1320212642794068nat, 109775783928658708856332int, 90677191531117333329213int, 79050220917618110373877int, 0int, 79050220917618110373877int);
    lemma_pow_mod_step(6int, 5280850571176273nat, m, 2640425285588136nat, 79050220917618110373877int, 47020922172444511349278int, 14146081617701521783047int, 0int, 84876489706209130698282int);
    lemma_pow_mod_step(6int, 10561701142352546nat, m, 5280850571176273nat, 84876489706209130698282int, 54207550866965074332170int, 19358762261556413263294int, 0int, 19358762261556413263294int);
    lemma_pow_mod_step(6int, 21123402284705093nat, m, 10561701142352546nat, 19358762261556413263294int, 2819941761298976223571int, 120442487443023566477487int, 5int, 58170144435533556424327int);
    lemma_pow_mod_step(6int, 42246804569410186nat, m, 21123402284705093nat, 58170144435533556424327int, 25461574172678916433689int, 41963351768298629561938int, 0int, 41963351768298629561938int);
    lemma_pow_mod_step(6int, 84493609138820373nat, m, 42246804569410186nat, 41963351768298629561938int, 13250287621637083491227int, 33422653819441188083831int, 1int, 67638966872125560014867int);
    lemma_pow_mod_step(6int, 168987218277640747nat, m, 84493609138820373nat, 67638966872125560014867int, 34425392241458310793421int, 47081150565190959162590int, 2int, 16692991302102617999302int);
    lemma_pow_mod_step(6int, 337974436555281495nat, m, 168987218277640747nat, 16692991302102617999302int, 2096782100251578599456int, 106074944463383876623940int, 4int, 104861842602216985791164int);
    lemma_pow_mod_step(6int, 675948873110562990nat, m, 337974436555281495nat, 104861842602216985791164int, 82740841936578119435029int, 81374867682781041554445int, 0int, 81374867682781041554445int);
}

proof fn lemma_certificate_3_5()
    requires
        pow_mod(6int, 675948873110562990nat, 132896956044521568488119int) == 81374867682781041554445int,
    ensures
        pow_mod(6int, 2768686584260866010169nat, 132896956044521568488119int) == 35019642108680367496727int,
{
    let m: int = 132896956044521568488119int;
    lemma_pow_mod_step(6int, 1351897746221125981nat, m, 675948873110562990nat, 81374867682781041554445int, 49827093768586708574700int, 31767669285129525268725int, 1int, 57709059666255583124231int);
    lemma_pow_mod_step(6int, 2703795492442251963nat, m, 1351897746221125981nat, 57709059666255583124231int, 25059532337578576817365int, 90392323026912943954926int, 4int, 10766113983391389777080int);
    lemma_pow_mod_step(6int, 5407590984884503926nat, m, 2703795492442251963nat, 10766113983391389777080int, 872173552752743890013int, 67810666967836860070853int, 0int, 67810666967836860070853int);
    lemma_pow_mod_step(6int, 10815181969769007852nat, m, 5407590984884503926nat, 67810666967836860070853int, 34600390343646527237347int, 69967760094259517567316int, 0int, 69967760094259517567316int);
    lemma_pow_mod_step(6int, 21630363939538015704nat, m, 10815181969769007852nat, 69967760094259517567316int, 36836716192113732325003int, 61057055371541139304499int, 0int, 61057055371541139304499int);
    lemma_pow_mod_step(6int, 43260727879076031408nat, m, 21630363939538015704nat, 61057055371541139304499int, 28051537985524229937803int, 55860127498033327178444int, 0int, 55860127498033327178444int);
    lemma_pow_mod_step(6int, 86521455758152062817nat, m, 43260727879076031408nat, 55860127498033327178444int, 23479498229073019342939int, 5587804179901210219395int, 0int, 33526825079407261316370int);
    lemma_pow_mod_step(6int, 173042911516304125635nat, m, 86521455758152062817nat, 33526825079407261316370int, 8458041729177050751644int, 2284719329131596259264int, 0int, 13708315974789577555584int);
    lemma_pow_mod_step(6int, 346085823032608251271nat, m, 173042911516304125635nat, 13708315974789577555584int, 1414012272799665040228int, 61632893480667334529924int, 2int, 104003448794960870203306int);
    lemma_pow_mod_step(6int, 692171646065216502542nat, m, 346085823032608251271nat, 104003448794960870203306int, 81391761581223566902497int, 57225124193505597396493int, 0int, 57225124193505597396493int);
    lemma_pow_mod_step(6int, 1384343292130433005084nat, m, 692171646065216502542nat, 57225124193505597396493int, 24641007111292175594598int, 8246589977751125117887int, 0int, 8246589977751125117887int);
    lemma_pow_mod_step(6int, 2768686584260866010169nat, m, 1384343292130433005084nat, 8246589977751125117887int, 511721624672597112812int, 27986099692200322664141int, 1int, 35019642108680367496727int);
}

proof fn lemma_certificate_3_6()
    requires
        pow_mod(6int, 2768686584260866010169nat, 132896956044521568488119int) == 35019642108680367496727int,
    ensures
        pow_mod(6int, 44298985348173856162706nat, 132896956044521568488119int) == 76725380987433565404982int,
{
    let m: int = 132896956044521568488119int;
    lemma_pow_mod_step(6int, 5537373168521732020338nat, m, 2768686584260866010169nat, 35019642108680367496727int, 9228016727555545797404int, 97397433712695800669453int, 0int, 97397433712695800669453int);
    lemma_pow_mod_step(6int, 11074746337043464040676nat, m, 5537373168521732020338nat, 97397433712695800669453int, 71380567141364755483180int, 132893567088935032980789int, 0int, 132893567088935032980789int);
    lemma_pow_mod_step(6int, 22149492674086928081353nat, m, 11074746337043464040676nat, 132893567088935032980789int, 132890178219768986770916int, 34937056171992522315517int, 1int, 76725380987433565404983int);
    lemma_pow_mod_step(6int, 44298985348173856162706nat, m, 22149492674086928081353nat, 76725380987433565404983int, 44295853440726747445053int, 76725380987433565404982int, 0int, 76725380987433565404982int);
}

proof fn lemma_certificate_3()
    ensures
        pow_mod(6int, 44298985348173856162706nat, 132896956044521568488119int) == 76725380987433565404982int,
{
    lemma_pow_mod_zero(6int, 132896956044521568488119int);
    lemma_certificate_3_0();
    lemma_certificate_3_1();
    lemma_certificate_3_2();
    lemma_certificate_3_3();
    lemma_certificate_3_4();
    lemma_certificate_3_5();
    lemma_certificate_3_6();
}

proof fn lemma_certificate_22149492674086928081353_0()
    requires
        pow_mod(6int, 0nat, 132896956044521568488119int) == 1int,
    ensures
        pow_mod(6int, 6nat, 132896956044521568488119int) == 46656int,
{
    let m: int = 132896956044521568488119int;
    lemma_pow_mod_step(6int, 1nat, m, 0nat, 1int, 0int, 1int, 0int, 6int);
    lemma_pow_mod_step(6int, 3nat, m, 1nat, 6int, 0int, 36int, 0int, 216int);
    lemma_pow_mod_step(6int, 6nat, m, 3nat, 216int, 0int, 46656int, 0int, 46656int);
}

proof fn lemma_certificate_22149492674086928081353()
    ensures
        pow_mod(6int, 6nat, 132896956044521568488119int) == 46656int,
{
    lemma_pow_mod_zero(6int, 132896956044521568488119int);
    lemma_certificate_22149492674086928081353_0();
}

/// 132896956044521568488119 is prime, by a Lucas certificate with witness 6.
pub proof fn lemma_prime_132896956044521568488119()
    ensures
        is_prime(132896956044521568488119int),
        forall|x: int| 1 <= x < 132896956044521568488119int ==> #[trigger] power_of(6, 132896956044521568488119int, x),
{
    lemma_small_primes();
    lemma_prime_22149492674086928081353();
    let fs: Seq<int> = Seq::empty().push(2int).push(3int).push(22149492674086928081353int);
    assert(product(Seq::<int>::empty()) == 1);
    lemma_product_push(Seq::<int>::empty(), 2int);
    lemma_product_push(Seq::<int>::empty().push(2int), 3int);
    lemma_product_push(Seq::<int>::empty().push(2int).push(3int), 22149492674086928081353int);
    lemma_certificate_full();
    lemma_certificate_2();
    lemma_certificate_3();
    lemma_certificate_22149492674086928081353();
    assert forall|i: int| 0 <= i < fs.len() implies is_prime(#[trigger] fs[i])
        && pow_mod(6, ((132896956044521568488119int - 1) / fs[i]) as nat, 132896956044521568488119int) != 1 by {
        if i == 0 { assert(fs[0] == 2int); } else if i == 1 { assert(fs[1] == 3int); } else if i == 2 { assert(fs[2] == 22149492674086928081353int); }
    }
    lemma_lucas(132896956044521568488119int, 6, fs);
}

} // verus!
