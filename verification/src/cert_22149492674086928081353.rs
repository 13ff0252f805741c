//! A Lucas certificate that 22149492674086928081353 is prime.
use vstd::prelude::*;
use crate::prime::{is_prime, pow_mod, power_of, product, lucas_certificate, lemma_lucas, lemma_pow_mod_step, lemma_pow_mod_zero, lemma_product_push};
use crate::cert_5323::lemma_prime_5323;
use crate::cert_173378833005251801::lemma_prime_173378833005251801;
use crate::cert_small::lemma_small_primes;
verus! {

proof fn lemma_certificate_full_0()
    requires
        pow_mod(5int, 0nat, 22149492674086928081353int) == 1int,
    ensures
        pow_mod(5int, 2401nat, 22149492674086928081353int) == 16655107271058566186584int,
{
    let m: int = 22149492674086928081353int;
    lemma_pow_mod_step(5int, 1nat, m, 0nat, 1int, 0int, 1int, 0int, 5int);
    lemma_pow_mod_step(5int, 2nat, m, 1nat, 5int, 0int, 25int, 0int, 25int);
    lemma_pow_mod_step(5int, 4nat, m, 2nat, 25int, 0int, 625int, 0int, 625int);
    lemma_pow_mod_step(5int, 9nat, m, 4nat, 625int, 0int, 390625int, 0int, 1953125int);
    lemma_pow_mod_step(5int, 18nat, m, 9nat, 1953125int, 0int, 3814697265625int, 0int, 3814697265625int);
    lemma_pow_mod_step(5int, 37nat, m, 18nat, 3814697265625int, 656int, 21848034165826985273057int, 4int, 20642200132787214039873int);
    lemma_pow_mod_step(5int, 75nat, m, 37nat, 20642200132787214039873int, 19237480180326779420394int, 4053085908673414543047int, 0int, 20265429543367072715235int);
    lemma_pow_mod_step(5int, 150nat, m, 75nat, 20265429543367072715235int, 18541627143345160180525int, 11226702898502034854900int, 0int, 11226702898502034854900int);
    lemma_pow_mod_step(5int, 300nat, m, 150nat, 11226702898502034854900int, 5690372227743573355359int, 9803667710893723489273int, 0int, 9803667710893723489273int);
    lemma_pow_mod_step(5int, 600nat, m, 300nat, 9803667710893723489273int, 4339237110295674791633int, 11875576125201398349080int, 0int, 11875576125201398349080int);
    lemma_pow_mod_step(5int, 1200nat, m, 600nat, 11875576125201398349080int, 6367157495685942666307int, 15014219458920908773029int, 0int, 15014219458920908773029int);
    lemma_pow_mod_step(5int, 2401nat, m, 1200nat, 15014219458920908773029int, 10177514640069834891711int, 12190818523846484469858int, 2int, 16655107271058566186584int);
}

proof fn lemma_certificate_full_1()
    requires
        pow_mod(5int, 2401nat, 22149492674086928081353int) == 16655107271058566186584int,
    ensures
        pow_mod(5int, 9836350nat, 22149492674086928081353int) == 16058718683804050193992int,
{
    let m: int = 22149492674086928081353int;
    lemma_pow_mod_step(5int, 4802nat, m, 2401nat, 16655107271058566186584int, 12523654708127662211290int, 3774122266270906513686int, 0int, 3774122266270906513686int);
    lemma_pow_mod_step(5int, 9605nat, m, 4802nat, 3774122266270906513686int, 643084656174818049531int, 8238751015899353811153int, 1int, 19044262405409840974412int);
    lemma_pow_mod_step(5int, 19211nat, m, 9605nat, 19044262405409840974412int, 16374367390834950453211int, 9571590220527610671261int, 2int, 3558965754464197193599int);
    lemma_pow_mod_step(5int, 38423nat, m, 19211nat, 3558965754464197193599int, 571852250876488961314int, 6577040217077624794959int, 1int, 10735708411301195893442int);
    lemma_pow_mod_step(5int, 76846nat, m, 38423nat, 10735708411301195893442int, 5203524829592262428382int, 16886923888608786446518int, 0int, 16886923888608786446518int);
    lemma_pow_mod_step(5int, 153692nat, m, 76846nat, 16886923888608786446518int, 12874705647470168501487int, 10438229056133636852413int, 0int, 10438229056133636852413int);
    lemma_pow_mod_step(5int, 307385nat, m, 153692nat, 10438229056133636852413int, 4919147694781413358553int, 2589577872237801560360int, 0int, 12947889361189007801800int);
    lemma_pow_mod_step(5int, 614771nat, m, 307385nat, 12947889361189007801800int, 7568924551744951648005int, 20378818406438023089235int, 4int, 13296121335842403120763int);
    lemma_pow_mod_step(5int, 1229543nat, m, 614771nat, 13296121335842403120763int, 7981530104491717503649int, 8886197783347215345072int, 2int, 132003568562220562654int);
    lemma_pow_mod_step(5int, 2459087nat, m, 1229543nat, 132003568562220562654int, 786697120767312378int, 16188309446802391636282int, 3int, 14493069211751173937351int);
    lemma_pow_mod_step(5int, 4918175nat, m, 2459087nat, 14493069211751173937351int, 9483244526966064179790int, 16182396526399734441331int, 3int, 14463504609737887962596int);
    lemma_pow_mod_step(5int, 9836350nat, m, 4918175nat, 14463504609737887962596int, 9444593999240785244808int, 16058718683804050193992int, 0int, 16058718683804050193992int);
}

proof fn lemma_certificate_full_2()
    requires
        pow_mod(5int, 9836350nat, 22149492674086928081353int) == 16058718683804050193992int,
    ensures
        pow_mod(5int, 40289692468nat, 22149492674086928081353int) == 1669349550314589857770int,
{
    let m: int = 22149492674086928081353int;
    lemma_pow_mod_step(5int, 19672701nat, m, 9836350nat, 16058718683804050193992int, 11642815009810964605931int, 11947745620799278591421int, 2int, 15439742755822536794399int);
    lemma_pow_mod_step(5int, 39345402nat, m, 19672701nat, 15439742755822536794399int, 10762578623070043357673int, 7569797415146976999632int, 0int, 7569797415146976999632int);
    lemma_pow_mod_step(5int, 78690805nat, m, 39345402nat, 7569797415146976999632int, 2587049452983826260772int, 7701558863218719550908int, 1int, 16358301642006669673187int);
    lemma_pow_mod_step(5int, 157381611nat, m, 78690805nat, 16358301642006669673187int, 12081271410967392501805int, 20429562251234147394804int, 4int, 13549840559823024648608int);
    lemma_pow_mod_step(5int, 314763222nat, m, 157381611nat, 13549840559823024648608int, 8289046701797364475616int, 11070888318982043549216int, 0int, 11070888318982043549216int);
    lemma_pow_mod_step(5int, 629526444nat, m, 314763222nat, 11070888318982043549216int, 5533515822453281357036int, 17762549822534567264948int, 0int, 17762549822534567264948int);
    lemma_pow_mod_step(5int, 1259052889nat, m, 629526444nat, 17762549822534567264948int, 14244487710869388062058int, 5019368358080392838230int, 1int, 2947349116315036109797int);
    lemma_pow_mod_step(5int, 2518105779nat, m, 1259052889nat, 2947349116315036109797int, 392192586135660747933int, 10793209147298788787860int, 2int, 9667060388320087776594int);
    lemma_pow_mod_step(5int, 5036211558nat, m, 2518105779nat, 9667060388320087776594int, 4219151107725302095330int, 10528361929542852859346int, 0int, 10528361929542852859346int);
    lemma_pow_mod_step(5int, 10072423117nat, m, 5036211558nat, 10528361929542852859346int, 5004466989400999545552int, 4719340484867774255860int, 1int, 1447209750251943197947int);
    lemma_pow_mod_step(5int, 20144846234nat, m, 10072423117nat, 1447209750251943197947int, 94558195622899531634int, 6617593180135275994007int, 0int, 6617593180135275994007int);
    lemma_pow_mod_step(5int, 40289692468nat, m, 20144846234nat, 6617593180135275994007int, 1977135103821432421743int, 1669349550314589857770int, 0int, 1669349550314589857770int);
}

proof fn lemma_certificate_full_3()
    requires
        pow_mod(5int, 40289692468nat, 22149492674086928081353int) == 1669349550314589857770int,
    ensures
        pow_mod(5int, 165026580349258nat, 22149492674086928081353int) == 15002264471006660425016int,
{
    let m: int = 22149492674086928081353int;
    lemma_pow_mod_step(5int, 80579384936nat, m, 40289692468nat, 1669349550314589857770int, 125814525964098682712int, 13903032675639958703564int, 0int, 13903032675639958703564int);
    lemma_pow_mod_step(5int, 161158769872nat, m, 80579384936nat, 13903032675639958703564int, 8726805639483144068306int, 296522981392269404078int, 0int, 296522981392269404078int);
    lemma_pow_mod_step(5int, 322317539744nat, m, 161158769872nat, 296522981392269404078int, 3969656541913763231int, 6855500453254494898541int, 0int, 6855500453254494898541int);
    lemma_pow_mod_step(5int, 644635079489nat, m, 322317539744nat, 6855500453254494898541int, 2121849342380478971564int, 11664582674172718282589int, 2int, 14023928022689735250239int);
    lemma_pow_mod_step(5int, 1289270158978nat, m, 644635079489nat, 14023928022689735250239int, 8879235298046834740938int, 15559969361850806028007int, 0int, 15559969361850806028007int);
    lemma_pow_mod_step(5int, 2578540317957nat, m, 1289270158978nat, 15559969361850806028007int, 10930843884518742205262int, 14265674086798307712563int, 3int, 4879892411730754318756int);
    lemma_pow_mod_step(5int, 5157080635914nat, m, 2578540317957nat, 4879892411730754318756int, 1075119430519826079562int, 6681994500969066780150int, 0int, 6681994500969066780150int);
    lemma_pow_mod_step(5int, 10314161271828nat, m, 5157080635914nat, 6681994500969066780150int, 2015804658280798407410int, 3656850973159115996770int, 0int, 3656850973159115996770int);
    lemma_pow_mod_step(5int, 20628322543657nat, m, 10314161271828nat, 3656850973159115996770int, 603741098573312255219int, 21207369285761519601593int, 4int, 17438875732459885682553int);
    lemma_pow_mod_step(5int, 41256645087314nat, m, 20628322543657nat, 17438875732459885682553int, 13730083631575316348269int, 21308988234200175869852int, 0int, 21308988234200175869852int);
    lemma_pow_mod_step(5int, 82513290174629nat, m, 41256645087314nat, 21308988234200175869852int, 20500378326791624767481int, 18053710146366765620111int, 4int, 1670580035486115775143int);
    lemma_pow_mod_step(5int, 165026580349258nat, m, 82513290174629nat, 1670580035486115775143int, 126000071244513909361int, 15002264471006660425016int, 0int, 15002264471006660425016int);
}

proof fn lemma_certificate_full_4()
    requires
        pow_mod(5int, 165026580349258nat, 22149492674086928081353int) == 15002264471006660425016int,
    ensures
        pow_mod(5int, 675948873110562990nat, 22149492674086928081353int) == 6792817387654870311569int,
{
    let m: int = 22149492674086928081353int;
    lemma_pow_mod_step(5int, 330053160698517nat, m, 165026580349258nat, 15002264471006660425016int, 10161313514929378073586int, 10177908139015530158398int, 2int, 6590555346903794629284int);
    lemma_pow_mod_step(5int, 660106321397034nat, m, 330053160698517nat, 6590555346903794629284int, 1961011948206743372296int, 8126066616462735956168int, 0int, 8126066616462735956168int);
    lemma_pow_mod_step(5int, 1320212642794068nat, m, 660106321397034nat, 8126066616462735956168int, 2981240230953155436311int, 10472249993016399035441int, 0int, 10472249993016399035441int);
    lemma_pow_mod_step(5int, 2640425285588136nat, m, 1320212642794068nat, 10472249993016399035441int, 4951265544990764948861int, 16739690767105281375548int, 0int, 16739690767105281375548int);
    lemma_pow_mod_step(5int, 5280850571176273nat, m, 2640425285588136nat, 16739690767105281375548int, 12651181275413173407580int, 1421793087268545444564int, 0int, 7108965436342727222820int);
    lemma_pow_mod_step(5int, 10561701142352546nat, m, 5280850571176273nat, 7108965436342727222820int, 2281649982630983785521int, 5368879661716537262487int, 0int, 5368879661716537262487int);
    lemma_pow_mod_step(5int, 21123402284705093nat, m, 10561701142352546nat, 5368879661716537262487int, 1301378286452411107435int, 20048440646253434265614int, 4int, 11644232534919459002658int);
    lemma_pow_mod_step(5int, 42246804569410186nat, m, 21123402284705093nat, 11644232534919459002658int, 6121501441245367986184int, 631694359419519038012int, 0int, 631694359419519038012int);
    lemma_pow_mod_step(5int, 84493609138820373nat, m, 42246804569410186nat, 631694359419519038012int, 18015661559114517978int, 12179057061078935847910int, 2int, 16596299957220823076844int);
    lemma_pow_mod_step(5int, 168987218277640747nat, m, 84493609138820373nat, 16596299957220823076844int, 12435371605250650848200int, 16331756994323075385736int, 3int, 15210306949354592684621int);
    lemma_pow_mod_step(5int, 337974436555281495nat, m, 168987218277640747nat, 15210306949354592684621int, 10445089686602572888573int, 21407890205742021834372int, 4int, 18441480332362396846448int);
    lemma_pow_mod_step(5int, 675948873110562990nat, m, 337974436555281495nat, 18441480332362396846448int, 15354220606902844402295int, 6792817387654870311569int, 0int, 6792817387654870311569int);
}

proof fn lemma_certificate_full_5()
    requires
        pow_mod(5int, 675948873110562990nat, 22149492674086928081353int) == 6792817387654870311569int,
    ensures
        pow_mod(5int, 2768686584260866010169nat, 22149492674086928081353int) == 3273850943551546674510int,
{
    let m: int = 22149492674086928081353int;
    lemma_pow_mod_step(5int, 1351897746221125981nat, m, 675948873110562990nat, 6792817387654870311569int, 2083224602069964590334int, 13222878158095865799859int, 2int, 21815405442305472836589int);
    lemma_pow_mod_step(5int, 2703795492442251963nat, m, 1351897746221125981nat, 21815405442305472836589int, 21486357345283522727614int, 17782614217275645573179int, 4int, 315100390030515540483int);
    lemma_pow_mod_step(5int, 5407590984884503926nat, m, 2703795492442251963nat, 315100390030515540483int, 4482642436029338642int, 9039697795203049330663int, 0int, 9039697795203049330663int);
    lemma_pow_mod_step(5int, 10815181969769007852nat, m, 5407590984884503926nat, 9039697795203049330663int, 3689300582681064407714int, 11961049930296959262527int, 0int, 11961049930296959262527int);
    lemma_pow_mod_step(5int, 21630363939538015704nat, m, 10815181969769007852nat, 11961049930296959262527int, 6459141865693073039594int, 5284162550181484335047int, 0int, 5284162550181484335047int);
    lemma_pow_mod_step(5int, 43260727879076031408nat, m, 21630363939538015704nat, 5284162550181484335047int, 1260632659519436881842int, 19219358909941727999983int, 0int, 19219358909941727999983int);
    lemma_pow_mod_step(5int, 86521455758152062817nat, m, 43260727879076031408nat, 19219358909941727999983int, 16676849548852416329625int, 21606561303713584017664int, 4int, 19434835822220207762908int);
    lemma_pow_mod_step(5int, 173042911516304125635nat, m, 86521455758152062817nat, 19434835822220207762908int, 17052889156172256814096int, 4888644475600255464576int, 1int, 2293729703914349241527int);
    lemma_pow_mod_step(5int, 346085823032608251271nat, m, 173042911516304125635nat, 2293729703914349241527int, 237531217172038064409int, 1542813317241975426352int, 0int, 7714066586209877131760int);
    lemma_pow_mod_step(5int, 692171646065216502542nat, m, 346085823032608251271nat, 7714066586209877131760int, 2686599831972574360455int, 19793272015330214601985int, 0int, 19793272015330214601985int);
    lemma_pow_mod_step(5int, 1384343292130433005084nat, m, 692171646065216502542nat, 19793272015330214601985int, 17687701602809029518544int, 20522624947140711830193int, 0int, 20522624947140711830193int);
    lemma_pow_mod_step(5int, 2768686584260866010169nat, m, 1384343292130433005084nat, 20522624947140711830193int, 19015249735888797082899int, 654770188710309334902int, 0int, 3273850943551546674510int);
}

proof fn lemma_certificate_full_6()
    requires
        pow_mod(5int, 2768686584260866010169nat, 22149492674086928081353int) == 3273850943551546674510int,
    ensures
        pow_mod(5int, 22149492674086928081352nat, 22149492674086928081353int) == 1int,
{
    let m: int = 22149492674086928081353int;
    lemma_pow_mod_step(5int, 5537373168521732020338nat, m, 2768686584260866010169nat, 3273850943551546674510int, 483898216464914419225int, 21822917668466336528675int, 0int, 21822917668466336528675int);
    lemma_pow_mod_step(5int, 11074746337043464040676nat, m, 5537373168521732020338nat, 21822917668466336528675int, 21501157727274776459641int, 22149492674086928081352int, 0int, 22149492674086928081352int);
    lemma_pow_mod_step(5int, 22149492674086928081352nat, m, 11074746337043464040676nat, 22149492674086928081352int, 22149492674086928081351int, 1int, 0int, 1int);
}

proof fn lemma_certificate_full()
    ensures
        pow_mod(5int, 22149492674086928081352nat, 22149492674086928081353int) == 1int,
{
    lemma_pow_mod_zero(5int, 22149492674086928081353int);
    lemma_certificate_full_0();
    lemma_certificate_full_1();
    lemma_certificate_full_2();
    lemma_certificate_full_3();
    lemma_certificate_full_4();
    lemma_certificate_full_5();
    lemma_certificate_full_6();
}

proof fn lemma_certificate_2_0()
    requires
        pow_mod(5int, 0nat, 22149492674086928081353int) == 1int,
    ensures
        pow_mod(5int, 2401nat, 22149492674086928081353int) == 16655107271058566186584int,
{
    let m: int = 22149492674086928081353int;
    lemma_pow_mod_step(5int, 1nat, m, 0nat, 1int, 0int, 1int, 0int, 5int);
    lemma_pow_mod_step(5int, 2nat, m, 1nat, 5int, 0int, 25int, 0int, 25int);
    lemma_pow_mod_step(5int, 4nat, m, 2nat, 25int, 0int, 625int, 0int, 625int);
    lemma_pow_mod_step(5int, 9nat, m, 4nat, 625int, 0int, 390625int, 0int, 1953125int);
    lemma_pow_mod_step(5int, 18nat, m, 9nat, 1953125int, 0int, 3814697265625int, 0int, 3814697265625int);
    lemma_pow_mod_step(5int, 37nat, m, 18nat, 3814697265625int, 656int, 21848034165826985273057int, 4int, 20642200132787214039873int);
    lemma_pow_mod_step(5int, 75nat, m, 37nat, 20642200132787214039873int, 19237480180326779420394int, 4053085908673414543047int, 0int, 20265429543367072715235int);
    lemma_pow_mod_step(5int, 150nat, m, 75nat, 20265429543367072715235int, 18541627143345160180525int, 11226702898502034854900int, 0int, 11226702898502034854900int);
    lemma_pow_mod_step(5int, 300nat, m, 150nat, 11226702898502034854900int, 5690372227743573355359int, 9803667710893723489273int, 0int, 9803667710893723489273int);
    lemma_pow_mod_step(5int, 600nat, m, 300nat, 9803667710893723489273int, 4339237110295674791633int, 11875576125201398349080int, 0int, 11875576125201398349080int);
    lemma_pow_mod_step(5int, 1200nat, m, 600nat, 11875576125201398349080int, 6367157495685942666307int, 15014219458920908773029int, 0int, 15014219458920908773029int);
    lemma_pow_mod_step(5int, 2401nat, m, 1200nat, 15014219458920908773029int, 10177514640069834891711int, 12190818523846484469858int, 2int, 16655107271058566186584int);
}

proof fn lemma_certificate_2_1()
    requires
        pow_mod(5int, 2401nat, 22149492674086928081353int) == 16655107271058566186584int,
    ensures
        pow_mod(5int, 9836350nat, 22149492674086928081353int) == 16058718683804050193992int,
{
    let m: int = 22149492674086928081353int;
    lemma_pow_mod_step(5int, 4802nat, m, 2401nat, 16655107271058566186584int, 12523654708127662211290int, 3774122266270906513686int, 0int, 3774122266270906513686int);
    lemma_pow_mod_step(5int, 9605nat, m, 4802nat, 3774122266270906513686int, 643084656174818049531int, 8238751015899353811153int, 1int, 19044262405409840974412int);
    lemma_pow_mod_step(5int, 19211nat, m, 9605nat, 19044262405409840974412int, 16374367390834950453211int, 9571590220527610671261int, 2int, 3558965754464197193599int);
    lemma_pow_mod_step(5int, 38423nat, m, 19211nat, 3558965754464197193599int, 571852250876488961314int, 6577040217077624794959int, 1int, 10735708411301195893442int);
    lemma_pow_mod_step(5int, 76846nat, m, 38423nat, 10735708411301195893442int, 5203524829592262428382int, 16886923888608786446518int, 0int, 16886923888608786446518int);
    lemma_pow_mod_step(5int, 153692nat, m, 76846nat, 16886923888608786446518int, 12874705647470168501487int, 10438229056133636852413int, 0int, 10438229056133636852413int);
    lemma_pow_mod_step(5int, 307385nat, m, 153692nat, 10438229056133636852413int, 4919147694781413358553int, 2589577872237801560360int, 0int, 12947889361189007801800int);
    lemma_pow_mod_step(5int, 614771nat, m, 307385nat, 12947889361189007801800int, 7568924551744951648005int, 20378818406438023089235int, 4int, 13296121335842403120763int);
    lemma_pow_mod_step(5int, 1229543nat, m, 614771nat, 13296121335842403120763int, 7981530104491717503649int, 8886197783347215345072int, 2int, 132003568562220562654int);
    lemma_pow_mod_step(5int, 2459087nat, m, 1229543nat, 132003568562220562654int, 786697120767312378int, 16188309446802391636282int, 3int, 14493069211751173937351int);
    lemma_pow_mod_step(5int, 4918175nat, m, 2459087nat, 14493069211751173937351int, 9483244526966064179790int, 16182396526399734441331int, 3int, 14463504609737887962596int);
    lemma_pow_mod_step(5int, 9836350nat, m, 4918175nat, 14463504609737887962596int, 9444593999240785244808int, 16058718683804050193992int, 0int, 16058718683804050193992int);
}

proof fn lemma_certificate_2_2()
    requires
        pow_mod(5int, 9836350nat, 22149492674086928081353int) == 16058718683804050193992int,
    ensures
        pow_mod(5int, 40289692468nat, 22149492674086928081353int) == 1669349550314589857770int,
{
    let m: int = 22149492674086928081353int;
    lemma_pow_mod_step(5int, 19672701nat, m, 9836350nat, 16058718683804050193992int, 11642815009810964605931int, 11947745620799278591421int, 2int, 15439742755822536794399int);
    lemma_pow_mod_step(5int, 39345402nat, m, 19672701nat, 15439742755822536794399int, 10762578623070043357673int, 7569797415146976999632int, 0int, 7569797415146976999632int);
    lemma_pow_mod_step(5int, 78690805nat, m, 39345402nat, 7569797415146976999632int, 2587049452983826260772int, 7701558863218719550908int, 1int, 16358301642006669673187int);
    lemma_pow_mod_step(5int, 157381611nat, m, 78690805nat, 16358301642006669673187int, 12081271410967392501805int, 20429562251234147394804int, 4int, 13549840559823024648608int);
    lemma_pow_mod_step(5int, 314763222nat, m, 157381611nat, 13549840559823024648608int, 8289046701797364475616int, 11070888318982043549216int, 0int, 11070888318982043549216int);
    lemma_pow_mod_step(5int, 629526444nat, m, 314763222nat, 11070888318982043549216int, 5533515822453281357036int, 17762549822534567264948int, 0int, 17762549822534567264948int);
    lemma_pow_mod_step(5int, 1259052889nat, m, 629526444nat, 17762549822534567264948int, 14244487710869388062058int, 5019368358080392838230int, 1int, 2947349116315036109797int);
    lemma_pow_mod_step(5int, 2518105779nat, m, 1259052889nat, 2947349116315036109797int, 392192586135660747933int, 10793209147298788787860int, 2int, 9667060388320087776594int);
    lemma_pow_mod_step(5int, 5036211558nat, m, 2518105779nat, 9667060388320087776594int, 4219151107725302095330int, 10528361929542852859346int, 0int, 10528361929542852859346int);
    lemma_pow_mod_step(5int, 10072423117nat, m, 5036211558nat, 10528361929542852859346int, 5004466989400999545552int, 4719340484867774255860int, 1int, 1447209750251943197947int);
    lemma_pow_mod_step(5int, 20144846234nat, m, 10072423117nat, 1447209750251943197947int, 94558195622899531634int, 6617593180135275994007int, 0int, 6617593180135275994007int);
    lemma_pow_mod_step(5int, 40289692468nat, m, 20144846234nat, 6617593180135275994007int, 1977135103821432421743int, 1669349550314589857770int, 0int, 1669349550314589857770int);
}

proof fn lemma_certificate_2_3()
    requires
        pow_mod(5int, 40289692468nat, 22149492674086928081353int) == 1669349550314589857770int,
    ensures
        pow_mod(5int, 165026580349258nat, 22149492674086928081353int) == 15002264471006660425016int,
{
    let m: int = 22149492674086928081353int;
    lemma_pow_mod_step(5int, 80579384936nat, m, 40289692468nat, 1669349550314589857770int, 125814525964098682712int, 13903032675639958703564int, 0int, 13903032675639958703564int);
    lemma_pow_mod_step(5int, 161158769872nat, m, 80579384936nat, 13903032675639958703564int, 8726805639483144068306int, 296522981392269404078int, 0int, 296522981392269404078int);
    lemma_pow_mod_step(5int, 322317539744nat, m, 161158769872nat, 296522981392269404078int, 3969656541913763231int, 6855500453254494898541int, 0int, 6855500453254494898541int);
    lemma_pow_mod_step(5int, 644635079489nat, m, 322317539744nat, 6855500453254494898541int, 2121849342380478971564int, 11664582674172718282589int, 2int, 14023928022689735250239int);
    lemma_pow_mod_step(5int, 1289270158978nat, m, 644635079489nat, 14023928022689735250239int, 8879235298046834740938int, 15559969361850806028007int, 0int, 15559969361850806028007int);
    lemma_pow_mod_step(5int, 2578540317957nat, m, 1289270158978nat, 15559969361850806028007int, 10930843884518742205262int, 14265674086798307712563int, 3int, 4879892411730754318756int);
    lemma_pow_mod_step(5int, 5157080635914nat, m, 2578540317957nat, 4879892411730754318756int, 1075119430519826079562int, 6681994500969066780150int, 0int, 6681994500969066780150int);
    lemma_pow_mod_step(5int, 10314161271828nat, m, 5157080635914nat, 6681994500969066780150int, 2015804658280798407410int, 3656850973159115996770int, 0int, 3656850973159115996770int);
    lemma_pow_mod_step(5int, 20628322543657nat, m, 10314161271828nat, 3656850973159115996770int, 603741098573312255219int, 21207369285761519601593int, 4int, 17438875732459885682553int);
    lemma_pow_mod_step(5int, 41256645087314nat, m, 20628322543657nat, 17438875732459885682553int, 13730083631575316348269int, 21308988234200175869852int, 0int, 21308988234200175869852int);
    lemma_pow_mod_step(5int, 82513290174629nat, m, 41256645087314nat, 21308988234200175869852int, 20500378326791624767481int, 18053710146366765620111int, 4int, 1670580035486115775143int);
    lemma_pow_mod_step(5int, 165026580349258nat, m, 82513290174629nat, 1670580035486115775143int, 126000071244513909361int, 15002264471006660425016int, 0int, 15002264471006660425016int);
}

proof fn lemma_certificate_2_4()
    requires
        pow_mod(5int, 165026580349258nat, 22149492674086928081353int) == 15002264471006660425016int,
    ensures
        pow_mod(5int, 675948873110562990nat, 22149492674086928081353int) == 6792817387654870311569int,
{
    let m: int = 22149492674086928081353int;
    lemma_pow_mod_step(5int, 330053160698517nat, m, 165026580349258nat, 15002264471006660425016int, 10161313514929378073586int, 10177908139015530158398int, 2int, 6590555346903794629284int);
    lemma_pow_mod_step(5int, 660106321397034nat, m, 330053160698517nat, 6590555346903794629284int, 1961011948206743372296int, 8126066616462735956168int, 0int, 8126066616462735956168int);
    lemma_pow_mod_step(5int, 1320212642794068nat, m, 660106321397034nat, 8126066616462735956168int, 2981240230953155436311int, 10472249993016399035441int, 0int, 10472249993016399035441int);
    lemma_pow_mod_step(5int, 2640425285588136nat, m, 1320212642794068nat, 10472249993016399035441int, 4951265544990764948861int, 16739690767105281375548int, 0int, 16739690767105281375548int);
    lemma_pow_mod_step(5int, 5280850571176273nat, m, 2640425285588136nat, 16739690767105281375548int, 12651181275413173407580int, 1421793087268545444564int, 0int, 7108965436342727222820int);
    lemma_pow_mod_step(5int, 10561701142352546nat, m, 5280850571176273nat, 7108965436342727222820int, 2281649982630983785521int, 5368879661716537262487int, 0int, 5368879661716537262487int);
    lemma_pow_mod_step(5int, 21123402284705093nat, m, 10561701142352546nat, 5368879661716537262487int, 1301378286452411107435int, 20048440646253434265614int, 4int, 11644232534919459002658int);
    lemma_pow_mod_step(5int, 42246804569410186nat, m, 21123402284705093nat, 11644232534919459002658int, 6121501441245367986184int, 631694359419519038012int, 0int, 631694359419519038012int);
    lemma_pow_mod_step(5int, 84493609138820373nat, m, 42246804569410186nat, 631694359419519038012int, 18015661559114517978int, 12179057061078935847910int, 2int, 16596299957220823076844int);
    lemma_pow_mod_step(5int, 168987218277640747nat, m, 84493609138820373nat, 16596299957220823076844int, 12435371605250650848200int, 16331756994323075385736int, 3int, 15210306949354592684621int);
    lemma_pow_mod_step(5int, 337974436555281495nat, m, 168987218277640747nat, 15210306949354592684621int, 10445089686602572888573int, 21407890205742021834372int, 4int, 18441480332362396846448int);
    lemma_pow_mod_step(5int, 675948873110562990nat, m, 337974436555281495nat, 18441480332362396846448int, 15354220606902844402295int, 6792817387654870311569int, 0int, 6792817387654870311569int);
}

proof fn lemma_certificate_2_5()
    requires
        pow_mod(5int, 675948873110562990nat, 22149492674086928081353int) == 6792817387654870311569int,
    ensures
        pow_mod(5int, 2768686584260866010169nat, 22149492674086928081353int) == 3273850943551546674510int,
{
    let m: int = 22149492674086928081353int;
    lemma_pow_mod_step(5int, 1351897746221125981nat, m, 675948873110562990nat, 6792817387654870311569int, 2083224602069964590334int, 13222878158095865799859int, 2int, 21815405442305472836589int);
    lemma_pow_mod_step(5int, 2703795492442251963nat, m, 1351897746221125981nat, 21815405442305472836589int, 21486357345283522727614int, 17782614217275645573179int, 4int, 315100390030515540483int);
    lemma_pow_mod_step(5int, 5407590984884503926nat, m, 2703795492442251963nat, 315100390030515540483int, 4482642436029338642int, 9039697795203049330663int, 0int, 9039697795203049330663int);
    lemma_pow_mod_step(5int, 10815181969769007852nat, m, 5407590984884503926nat, 9039697795203049330663int, 3689300582681064407714int, 11961049930296959262527int, 0int, 11961049930296959262527int);
    lemma_pow_mod_step(5int, 21630363939538015704nat, m, 10815181969769007852nat, 11961049930296959262527int, 6459141865693073039594int, 5284162550181484335047int, 0int, 5284162550181484335047int);
    lemma_pow_mod_step(5int, 43260727879076031408nat, m, 21630363939538015704nat, 5284162550181484335047int, 1260632659519436881842int, 19219358909941727999983int, 0int, 19219358909941727999983int);
    lemma_pow_mod_step(5int, 86521455758152062817nat, m, 43260727879076031408nat, 19219358909941727999983int, 16676849548852416329625int, 21606561303713584017664int, 4int, 19434835822220207762908int);
    lemma_pow_mod_step(5int, 173042911516304125635nat, m, 86521455758152062817nat, 19434835822220207762908int, 17052889156172256814096int, 4888644475600255464576int, 1int, 2293729703914349241527int);
    lemma_pow_mod_step(5int, 346085823032608251271nat, m, 173042911516304125635nat, 2293729703914349241527int, 237531217172038064409int, 1542813317241975426352int, 0int, 7714066586209877131760int);
    lemma_pow_mod_step(5int, 692171646065216502542nat, m, 346085823032608251271nat, 7714066586209877131760int, 2686599831972574360455int, 19793272015330214601985int, 0int, 19793272015330214601985int);
    lemma_pow_mod_step(5int, 1384343292130433005084nat, m, 692171646065216502542nat, 19793272015330214601985int, 17687701602809029518544int, 20522624947140711830193int, 0int, 20522624947140711830193int);
    lemma_pow_mod_step(5int, 2768686584260866010169nat, m, 1384343292130433005084nat, 20522624947140711830193int, 19015249735888797082899int, 654770188710309334902int, 0int, 3273850943551546674510int);
}

proof fn lemma_certificate_2_6()
    requires
        pow_mod(5int, 2768686584260866010169nat, 22149492674086928081353int) == 3273850943551546674510int,
    ensures
        pow_mod(5int, 11074746337043464040676nat, 22149492674086928081353int) == 22149492674086928081352int,
{
    let m: int = 22149492674086928081353int;
    lemma_pow_mod_step(5int, 5537373168521732020338nat, m, 2768686584260866010169nat, 3273850943551546674510int, 483898216464914419225int, 21822917668466336528675int, 0int, 21822917668466336528675int);
    lemma_pow_mod_step(5int, 11074746337043464040676nat, m, 5537373168521732020338nat, 21822917668466336528675int, 21501157727274776459641int, 22149492674086928081352int, 0int, 22149492674086928081352int);
}

proof fn lemma_certificate_2()
    ensures
        pow_mod(5int, 11074746337043464040676nat, 22149492674086928081353int) == 22149492674086928081352int,
{
    lemma_pow_mod_zero(5int, 22149492674086928081353int);
    lemma_certificate_2_0();
    lemma_certificate_2_1();
    lemma_certificate_2_2();
    lemma_certificate_2_3();
    lemma_certificate_2_4();
    lemma_certificate_2_5();
    lemma_certificate_2_6();
}

proof fn lemma_certificate_3_0()
    requires
        pow_mod(5int, 0nat, 22149492674086928081353int) == 1int,
    ensures
        pow_mod(5int, 3201nat, 22149492674086928081353int) == 15535104809003088092118int,
{
    let m: int = 22149492674086928081353int;
    lemma_pow_mod_step(5int, 1nat, m, 0nat, 1int, 0int, 1int, 0int, 5int);
    lemma_pow_mod_step(5int, 3nat, m, 1nat, 5int, 0int, 25int, 0int, 125int);
    lemma_pow_mod_step(5int, 6nat, m, 3nat, 125int, 0int, 15625int, 0int, 15625int);
    lemma_pow_mod_step(5int, 12nat, m, 6nat, 15625int, 0int, 244140625int, 0int, 244140625int);
    lemma_pow_mod_step(5int, 25nat, m, 12nat, 244140625int, 0int, 59604644775390625int, 0int, 298023223876953125int);
    lemma_pow_mod_step(5int, 50nat, m, 25nat, 298023223876953125int, 4009926695699int, 1920190741244300064878int, 0int, 1920190741244300064878int);
    lemma_pow_mod_step(5int, 100nat, m, 50nat, 1920190741244300064878int, 166465775853817823464int, 16148069365675024888092int, 0int, 16148069365675024888092int);
    lemma_pow_mod_step(5int, 200nat, m, 100nat, 16148069365675024888092int, 11772736652506717330513int, 14536625455808070176375int, 0int, 14536625455808070176375int);
    lemma_pow_mod_step(5int, 400nat, m, 200nat, 14536625455808070176375int, 9540330460465419750493int, 9853314600575142283596int, 0int, 9853314600575142283596int);
    lemma_pow_mod_step(5int, 800nat, m, 400nat, 9853314600575142283596int, 4383297172828340696069int, 8030249942135011389859int, 0int, 8030249942135011389859int);
    lemma_pow_mod_step(5int, 1600nat, m, 800nat, 8030249942135011389859int, 2911349486961449117574int, 8699037204416154042259int, 0int, 8699037204416154042259int);
    lemma_pow_mod_step(5int, 3201nat, m, 1600nat, 8699037204416154042259int, 3416477722415188747775int, 20826615101070160083506int, 4int, 15535104809003088092118int);
}

proof fn lemma_certificate_3_1()
    requires
        pow_mod(5int, 3201nat, 22149492674086928081353int) == 15535104809003088092118int,
    ensures
        pow_mod(5int, 13115134nat, 22149492674086928081353int) == 20126857022568596148752int,
{
    let m: int = 22149492674086928081353int;
    lemma_pow_mod_step(5int, 6403nat, m, 3201nat, 15535104809003088092118int, 10895937210745150777811int, 2982498059123418467641int, 0int, 14912490295617092338205int);
    lemma_pow_mod_step(5int, 12807nat, m, 6403nat, 14912490295617092338205int, 10040065932392343442187int, 9258928126566514383014int, 2int, 1995655284658715752364int);
    lemma_pow_mod_step(5int, 25615nat, m, 12807nat, 1995655284658715752364int, 179807279281191788183int, 2875322696503203536897int, 0int, 14376613482516017684485int);
    lemma_pow_mod_step(5int, 51230nat, m, 25615nat, 14376613482516017684485int, 9331455951019050973033int, 22095597762594576561576int, 0int, 22095597762594576561576int);
    lemma_pow_mod_step(5int, 102461nat, m, 51230nat, 22095597762594576561576int, 22041833990064525817982int, 12346715506630753314130int, 2int, 17434592184979910407944int);
    lemma_pow_mod_step(5int, 204923nat, m, 102461nat, 17434592184979910407944int, 13723339361726169303195int, 9355393861790215484301int, 2int, 2477983960777221258799int);
    lemma_pow_mod_step(5int, 409847nat, m, 204923nat, 2477983960777221258799int, 277225514833255297513int, 11498168715073852347312int, 2int, 13191858227195405573854int);
    lemma_pow_mod_step(5int, 819695nat, m, 409847nat, 13191858227195405573854int, 7856844671210825961799int, 20421755261623106179269int, 4int, 13510805611767818570933int);
    lemma_pow_mod_step(5int, 1639391nat, m, 819695nat, 13510805611767818570933int, 8241356629018218790597int, 8928018069425065052748int, 2int, 341104998951469101034int);
    lemma_pow_mod_step(5int, 3278783nat, m, 1639391nat, 341104998951469101034int, 5253060285475733062int, 2425550370527252076270int, 0int, 12127751852636260381350int);
    lemma_pow_mod_step(5int, 6557567nat, m, 3278783nat, 12127751852636260381350int, 6640439452195509246905int, 6528137029425824360035int, 1int, 10491192473042193718822int);
    lemma_pow_mod_step(5int, 13115134nat, m, 6557567nat, 10491192473042193718822int, 4969193702354377369844int, 20126857022568596148752int, 0int, 20126857022568596148752int);
}

proof fn lemma_certificate_3_2()
    requires
        pow_mod(5int, 13115134nat, 22149492674086928081353int) == 20126857022568596148752int,
    ensures
        pow_mod(5int, 53719589957nat, 22149492674086928081353int) == 19565110049326979579377int,
{
    let m: int = 22149492674086928081353int;
    lemma_pow_mod_step(5int, 26230268nat, m, 13115134nat, 20126857022568596148752int, 18288923343189751753068int, 12094550725037039816500int, 0int, 12094550725037039816500int);
    lemma_pow_mod_step(5int, 52460537nat, m, 26230268nat, 12094550725037039816500int, 6604131272569836966527int, 17243944608147878378969int, 3int, 19771245018478607650786int);
    lemma_pow_mod_step(5int, 104921074nat, m, 52460537nat, 19771245018478607650786int, 17648355893859287987667int, 13321780802321089744345int, 0int, 13321780802321089744345int);
    lemma_pow_mod_step(5int, 209842148nat, m, 104921074nat, 13321780802321089744345int, 8012366077924473457749int, 956556352643179224628int, 0int, 956556352643179224628int);
    lemma_pow_mod_step(5int, 419684296nat, m, 209842148nat, 956556352643179224628int, 41310203770603582775int, 11280863161696812243809int, 0int, 11280863161696812243809int);
    lemma_pow_mod_step(5int, 839368593nat, m, 419684296nat, 11280863161696812243809int, 5745408057215205260782int, 21990591014281982430435int, 4int, 21354984375062199826763int);
    lemma_pow_mod_step(5int, 1678737186nat, m, 839368593nat, 21354984375062199826763int, 20588975303830515768955int, 10476371741677619262054int, 0int, 10476371741677619262054int);
    lemma_pow_mod_step(5int, 3357474372nat, m, 1678737186nat, 10476371741677619262054int, 4955163826313045546982int, 21451301113361844672270int, 0int, 21451301113361844672270int);
    lemma_pow_mod_step(5int, 6714948744nat, m, 3357474372nat, 21451301113361844672270int, 20775117797369067437500int, 2014701297440464015400int, 0int, 2014701297440464015400int);
    lemma_pow_mod_step(5int, 13429897489nat, m, 6714948744nat, 2014701297440464015400int, 183255724076109779837int, 149090618861782080539int, 0int, 745453094308910402695int);
    lemma_pow_mod_step(5int, 26859794978nat, m, 13429897489nat, 745453094308910402695int, 25088625007869936957int, 1340632390145986000204int, 0int, 1340632390145986000204int);
    lemma_pow_mod_step(5int, 53719589957nat, m, 26859794978nat, 1340632390145986000204int, 81143854261331490990int, 8342920544682781532146int, 1int, 19565110049326979579377int);
}

proof fn lemma_certificate_3_3()
    requires
        pow_mod(5int, 53719589957nat, 22149492674086928081353int) == 19565110049326979579377int,
    ensures
        pow_mod(5int, 220035440465678nat, 22149492674086928081353int) == 21251284446742036945275int,
{
    let m: int = 22149492674086928081353int;
    lemma_pow_mod_step(5int, 107439179914nat, m, 53719589957nat, 19565110049326979579377int, 17282270834587208959592int, 16645228654935978020153int, 0int, 16645228654935978020153int);
    lemma_pow_mod_step(5int, 214878359829nat, m, 107439179914nat, 16645228654935978020153int, 12508802844917675959889int, 6900050718606317293592int, 1int, 12350760918944658386607int);
    lemma_pow_mod_step(5int, 429756719659nat, m, 214878359829nat, 12350760918944658386607int, 6886897931318823562937int, 10570393041699425358688int, 2int, 8552979860323270630734int);
    lemma_pow_mod_step(5int, 859513439319nat, m, 429756719659nat, 8552979860323270630734int, 3302715126142774754323int, 18740824536213852939737int, 4int, 5106151984721552373273int);
    lemma_pow_mod_step(5int, 1719026878638nat, m, 859513439319nat, 5106151984721552373273int, 1177128003549212259594int, 12603264242846537981847int, 0int, 12603264242846537981847int);
    lemma_pow_mod_step(5int, 3438053757276nat, m, 1719026878638nat, 12603264242846537981847int, 7171372812563170702519int, 11699415571393907503202int, 0int, 11699415571393907503202int);
    lemma_pow_mod_step(5int, 6876107514552nat, m, 3438053757276nat, 11699415571393907503202int, 6179659585264821639001int, 14516603604719914604451int, 0int, 14516603604719914604451int);
    lemma_pow_mod_step(5int, 13752215029104nat, m, 6876107514552nat, 14516603604719914604451int, 9514068033851897109124int, 21048093078523198446629int, 0int, 21048093078523198446629int);
    lemma_pow_mod_step(5int, 27504430058209nat, m, 13752215029104nat, 21048093078523198446629int, 20001461377057880898185int, 21179007481788171419336int, 4int, 17297066712593144771268int);
    lemma_pow_mod_step(5int, 55008860116419nat, m, 27504430058209nat, 17297066712593144771268int, 13507691632590917309432int, 11998634103367268106328int, 2int, 15694185168662484368934int);
    lemma_pow_mod_step(5int, 110017720232839nat, m, 55008860116419nat, 15694185168662484368934int, 11120229782798809069423int, 17846778985563455527037int, 4int, 635924231469565309773int);
    lemma_pow_mod_step(5int, 220035440465678nat, m, 110017720232839nat, 635924231469565309773int, 18257737733346432318int, 21251284446742036945275int, 0int, 21251284446742036945275int);
}

proof fn lemma_certificate_3_4()
    requires
        pow_mod(5int, 220035440465678nat, 22149492674086928081353int) == 21251284446742036945275int,
    ensures
        pow_mod(5int, 901265164147417321nat, 22149492674086928081353int) == 1098037338852290940185int,
{
    let m: int = 22149492674086928081353int;
    lemma_pow_mod_step(5int, 440070880931356nat, m, 220035440465678nat, 21251284446742036945275int, 20389500440553863999100int, 9251989960790626043325int, 0int, 9251989960790626043325int);
    lemma_pow_mod_step(5int, 880141761862712nat, m, 440070880931356nat, 9251989960790626043325int, 3864617555539529024305int, 19801957981655022770960int, 0int, 19801957981655022770960int);
    lemma_pow_mod_step(5int, 1760283523725424nat, m, 880141761862712nat, 19801957981655022770960int, 17703228948714302069592int, 9605209928006975803624int, 0int, 9605209928006975803624int);
    lemma_pow_mod_step(5int, 3520567047450848nat, m, 1760283523725424nat, 9605209928006975803624int, 4165335031308432609474int, 18948794592926660995054int, 0int, 18948794592926660995054int);
    lemma_pow_mod_step(5int, 7041134094901697nat, m, 3520567047450848nat, 18948794592926660995054int, 16210611313233074677746int, 3323781849040865792578int, 0int, 16618909245204328962890int);
    lemma_pow_mod_step(5int, 14082268189803395nat, m, 7041134094901697nat, 16618909245204328962890int, 12469276319969855249041int, 65099945432873919627int, 0int, 325499727164369598135int);
    lemma_pow_mod_step(5int, 28164536379606791nat, m, 14082268189803395nat, 325499727164369598135int, 4783408538653883352int, 13734480215929367142969int, 3int, 2223923057386051470786int);
    lemma_pow_mod_step(5int, 56329072759213582nat, m, 28164536379606791nat, 2223923057386051470786int, 223293320436162344011int, 17761870602730431130913int, 0int, 17761870602730431130913int);
    lemma_pow_mod_step(5int, 112658145518427165nat, m, 56329072759213582nat, 17761870602730431130913int, 14243398345517398444062int, 19396059648506988437683int, 4int, 8382327546187229863003int);
    lemma_pow_mod_step(5int, 225316291036854330nat, m, 112658145518427165nat, 8382327546187229863003int, 3172235866773219702264int, 16065257059974717894817int, 0int, 16065257059974717894817int);
    lemma_pow_mod_step(5int, 450632582073708660nat, m, 225316291036854330nat, 16065257059974717894817int, 11652297784003619507584int, 2388802664764522982337int, 0int, 2388802664764522982337int);
    lemma_pow_mod_step(5int, 901265164147417321nat, m, 450632582073708660nat, 2388802664764522982337int, 257630197456489638044int, 219607467770458188037int, 0int, 1098037338852290940185int);
}

proof fn lemma_certificate_3_5()
    requires
        pow_mod(5int, 901265164147417321nat, 22149492674086928081353int) == 1098037338852290940185int,
    ensures
        pow_mod(5int, 3691582112347821346892nat, 22149492674086928081353int) == 10043889752229528936000int,
{
    let m: int = 22149492674086928081353int;
    lemma_pow_mod_step(5int, 1802530328294834642nat, m, 901265164147417321nat, 1098037338852290940185int, 54434023174010371460int, 2778956895890618448845int, 0int, 2778956895890618448845int);
    lemma_pow_mod_step(5int, 3605060656589669284nat, m, 1802530328294834642nat, 2778956895890618448845int, 348658163094309859274int, 15952625638713628316303int, 0int, 15952625638713628316303int);
    lemma_pow_mod_step(5int, 7210121313179338568nat, m, 3605060656589669284nat, 15952625638713628316303int, 11489485042096302729221int, 15118466197215597271796int, 0int, 15118466197215597271796int);
    lemma_pow_mod_step(5int, 14420242626358677136nat, m, 7210121313179338568nat, 15118466197215597271796int, 10319334330567141865114int, 15391665714556352446374int, 0int, 15391665714556352446374int);
    lemma_pow_mod_step(5int, 28840485252717354272nat, m, 14420242626358677136nat, 15391665714556352446374int, 10695656869189010239150int, 6418338355953360177926int, 0int, 6418338355953360177926int);
    lemma_pow_mod_step(5int, 57680970505434708545nat, m, 28840485252717354272nat, 6418338355953360177926int, 1859865047821022969130int, 19785658650880130028586int, 4int, 10330322558052937817518int);
    lemma_pow_mod_step(5int, 115361941010869417090nat, m, 57680970505434708545nat, 10330322558052937817518int, 4817968778050874468668int, 7639399794406514132520int, 0int, 7639399794406514132520int);
    lemma_pow_mod_step(5int, 230723882021738834180nat, m, 115361941010869417090nat, 7639399794406514132520int, 2634842706219414178150int, 4251353852263286513450int, 0int, 4251353852263286513450int);
    lemma_pow_mod_step(5int, 461447764043477668361nat, m, 230723882021738834180nat, 4251353852263286513450int, 816001063459976237445int, 9239099006591226039415int, 2int, 1896509684782274034369int);
    lemma_pow_mod_step(5int, 922895528086955336723nat, m, 461447764043477668361nat, 1896509684782274034369int, 162385163281001863969int, 11146142103509521758104int, 2int, 11431725169373752627814int);
    lemma_pow_mod_step(5int, 1845791056173910673446nat, m, 922895528086955336723nat, 11431725169373752627814int, 5900105355504742896917int, 10861564951320537529895int, 0int, 10861564951320537529895int);
    lemma_pow_mod_step(5int, 3691582112347821346892nat, m, 1845791056173910673446nat, 10861564951320537529895int, 5326243581631738400425int, 10043889752229528936000int, 0int, 10043889752229528936000int);
}

proof fn lemma_certificate_3_6()
    requires
        pow_mod(5int, 3691582112347821346892nat, 22149492674086928081353int) == 10043889752229528936000int,
    ensures
        pow_mod(5int, 7383164224695642693784nat, 22149492674086928081353int) == 10043889752229528935999int,
{
    let m: int = 22149492674086928081353int;
    lemma_pow_mod_step(5int, 7383164224695642693784nat, m, 3691582112347821346892nat, 10043889752229528936000int, 4554493542552433577017int, 10043889752229528935999int, 0int, 10043889752229528935999int);
}

proof fn lemma_certificate_3()
    ensures
        pow_mod(5int, 7383164224695642693784nat, 22149492674086928081353int) == 10043889752229528935999int,
{
    lemma_pow_mod_zero(5int, 22149492674086928081353int);
    lemma_certificate_3_0();
    lemma_certificate_3_1();
    lemma_certificate_3_2();
    lemma_certificate_3_3();
    lemma_certificate_3_4();
    lemma_certificate_3_5();
    lemma_certificate_3_6();
}

proof fn lemma_certificate_5323_0()
    requires
        pow_mod(5int, 0nat, 22149492674086928081353int) == 1int,
    ensures
        pow_mod(5int, 3695nat, 22149492674086928081353int) == 9199183026497705326773int,
{
    let m: int = 22149492674086928081353int;
    lemma_pow_mod_step(5int, 1nat, m, 0nat, 1int, 0int, 1int, 0int, 5int);
    lemma_pow_mod_step(5int, 3nat, m, 1nat, 5int, 0int, 25int, 0int, 125int);
    lemma_pow_mod_step(5int, 7nat, m, 3nat, 125int, 0int, 15625int, 0int, 78125int);
    lemma_pow_mod_step(5int, 14nat, m, 7nat, 78125int, 0int, 6103515625int, 0int, 6103515625int);
    lemma_pow_mod_step(5int, 28nat, m, 14nat, 6103515625int, 0int, 37252902984619140625int, 0int, 37252902984619140625int);
    lemma_pow_mod_step(5int, 57nat, m, 28nat, 37252902984619140625int, 62655104620298229int, 12567251228487891566788int, 2int, 18537270794265601671234int);
    lemma_pow_mod_step(5int, 115nat, m, 57nat, 18537270794265601671234int, 15514143531691430916384int, 8274516145886130495204int, 1int, 19223088055343724394667int);
    lemma_pow_mod_step(5int, 230nat, m, 115nat, 19223088055343724394667int, 16683321817831732540908int, 865264486207553552365int, 0int, 865264486207553552365int);
    lemma_pow_mod_step(5int, 461nat, m, 230nat, 865264486207553552365int, 33801344441984366582int, 2197084204336526547779int, 0int, 10985421021682632738895int);
    lemma_pow_mod_step(5int, 923nat, m, 461nat, 10985421021682632738895int, 5448408087685533725057int, 5239114250309215258904int, 1int, 4046078577459148213167int);
    lemma_pow_mod_step(5int, 1847nat, m, 923nat, 4046078577459148213167int, 739102791014544012828int, 6583466947137412573605int, 1int, 10767842061600134786672int);
    lemma_pow_mod_step(5int, 3695nat, m, 1847nat, 10767842061600134786672int, 5234721371257986070499int, 19559430744569083530437int, 4int, 9199183026497705326773int);
}

proof fn lemma_certificate_5323_1()
    requires
        pow_mod(5int, 3695nat, 22149492674086928081353int) == 9199183026497705326773int,
    ensures
        pow_mod(5int, 15137964nat, 22149492674086928081353int) == 1936097316698812034558int,
{
    let m: int = 22149492674086928081353int;
    lemma_pow_mod_step(5int, 7391nat, m, 3695nat, 9199183026497705326773int, 3820627840113362301046int, 16569930642528745598291int, 3int, 16401175190382943747396int);
    lemma_pow_mod_step(5int, 14783nat, m, 7391nat, 16401175190382943747396int, 12144682119078014471132int, 2693961881417690779220int, 0int, 13469809407088453896100int);
    lemma_pow_mod_step(5int, 29566nat, m, 14783nat, 13469809407088453896100int, 8191418563530054313390int, 14065252060395117993330int, 0int, 14065252060395117993330int);
    lemma_pow_mod_step(5int, 59132nat, m, 29566nat, 14065252060395117993330int, 8931640937938744119216int, 7516751743267145909652int, 0int, 7516751743267145909652int);
    lemma_pow_mod_step(5int, 118265nat, m, 59132nat, 7516751743267145909652int, 2550918777296051513983int, 4596468000601505702105int, 1int, 832847328920600429172int);
    lemma_pow_mod_step(5int, 236530nat, m, 118265nat, 832847328920600429172int, 31316052403388630122int, 17500750783550146290518int, 0int, 17500750783550146290518int);
    lemma_pow_mod_step(5int, 473061nat, m, 236530nat, 17500750783550146290518int, 13827688177537760833301int, 11975374338069257172071int, 2int, 15577886342172429697649int);
    lemma_pow_mod_step(5int, 946122nat, m, 473061nat, 15577886342172429697649int, 10956031655458490823982int, 15553755817614256719555int, 0int, 15553755817614256719555int);
    lemma_pow_mod_step(5int, 1892245nat, m, 946122nat, 15553755817614256719555int, 10922115625564413186231int, 18681152700075611947482int, 4int, 4807792804030347411998int);
    lemma_pow_mod_step(5int, 3784491nat, m, 1892245nat, 4807792804030347411998int, 1043584699054009300801int, 11211515684128378288251int, 2int, 11758593072468035278549int);
    lemma_pow_mod_step(5int, 7568982nat, m, 3784491nat, 11758593072468035278549int, 6242333089897417661871int, 13730029032698685353938int, 0int, 13730029032698685353938int);
    lemma_pow_mod_step(5int, 15137964nat, m, 7568982nat, 13730029032698685353938int, 8510971335216820099862int, 1936097316698812034558int, 0int, 1936097316698812034558int);
}

proof fn lemma_certificate_5323_2()
    requires
        pow_mod(5int, 15137964nat, 22149492674086928081353int) == 1936097316698812034558int,
    ensures
        pow_mod(5int, 62005102517nat, 22149492674086928081353int) == 15881581828978678331284int,
{
    let m: int = 22149492674086928081353int;
    lemma_pow_mod_step(5int, 30275928nat, m, 15137964nat, 1936097316698812034558int, 169235154722696777654int, 12622317859633521769502int, 0int, 12622317859633521769502int);
    lemma_pow_mod_step(5int, 60551857nat, m, 30275928nat, 12622317859633521769502int, 7193072568024006118350int, 6376706656046671200454int, 1int, 9734040606146427920917int);
    lemma_pow_mod_step(5int, 121103715nat, m, 60551857nat, 9734040606146427920917int, 4277820170254237001959int, 13951874262840433750362int, 3int, 3310893291941384507751int);
    lemma_pow_mod_step(5int, 242207431nat, m, 121103715nat, 3310893291941384507751int, 494910405033660518226int, 13408889959858711838223int, 3int, 595971777032774947056int);
    lemma_pow_mod_step(5int, 484414863nat, m, 242207431nat, 595971777032774947056int, 16035688232044138794int, 3636001383951947758854int, 0int, 18180006919759738794270int);
    lemma_pow_mod_step(5int, 968829726nat, m, 484414863nat, 18180006919759738794270int, 14921906179331340334617int, 1139888170716566736099int, 0int, 1139888170716566736099int);
    lemma_pow_mod_step(5int, 1937659453nat, m, 968829726nat, 1139888170716566736099int, 58662519311771274714int, 10501952768706805929759int, 2int, 8210778495360173486089int);
    lemma_pow_mod_step(5int, 3875318907nat, m, 1937659453nat, 8210778495360173486089int, 3043721338987652950206int, 13546075029465450407203int, 3int, 1281897125066467791956int);
    lemma_pow_mod_step(5int, 7750637814nat, m, 3875318907nat, 1281897125066467791956int, 74189520429790870394int, 19959610505119787142854int, 0int, 19959610505119787142854int);
    lemma_pow_mod_step(5int, 15501275629nat, m, 7750637814nat, 19959610505119787142854int, 17986238212226271385172int, 9728293991036989367600int, 2int, 4342484607011090675294int);
    lemma_pow_mod_step(5int, 31002551258nat, m, 15501275629nat, 4342484607011090675294int, 851359118675869117911int, 9572385660729184572853int, 0int, 9572385660729184572853int);
    lemma_pow_mod_step(5int, 62005102517nat, m, 31002551258nat, 9572385660729184572853int, 4136914943651683812787int, 12036113435430506898798int, 2int, 15881581828978678331284int);
}

proof fn lemma_certificate_5323_3()
    requires
        pow_mod(5int, 62005102517nat, 22149492674086928081353int) == 15881581828978678331284int,
    ensures
        pow_mod(5int, 253972899910036nat, 22149492674086928081353int) == 3358715067535077050950int,
{
    let m: int = 22149492674086928081353int;
    lemma_pow_mod_step(5int, 124010205034nat, m, 62005102517nat, 15881581828978678331284int, 11387377810491690482653int, 6571619100279033819147int, 0int, 6571619100279033819147int);
    lemma_pow_mod_step(5int, 248020410068nat, m, 124010205034nat, 6571619100279033819147int, 1949759221784635676515int, 4518556584198592282814int, 0int, 4518556584198592282814int);
    lemma_pow_mod_step(5int, 496040820136nat, m, 248020410068nat, 4518556584198592282814int, 921797799391182564655int, 2071460224070737380381int, 0int, 2071460224070737380381int);
    lemma_pow_mod_step(5int, 992081640273nat, m, 496040820136nat, 2071460224070737380381int, 193726670088802650102int, 19643126420737633957155int, 4int, 9617661407340457460363int);
    lemma_pow_mod_step(5int, 1984163280547nat, m, 992081640273nat, 9617661407340457460363int, 4176141291690291328326int, 4684072605830754786691int, 1int, 1270870355066845852102int);
    lemma_pow_mod_step(5int, 3968326561094nat, m, 1984163280547nat, 1270870355066845852102int, 72918666045894472610int, 282427676547347577074int, 0int, 282427676547347577074int);
    lemma_pow_mod_step(5int, 7936653122188nat, m, 3968326561094nat, 282427676547347577074int, 3601228870278012612int, 5090866324715274377440int, 0int, 5090866324715274377440int);
    lemma_pow_mod_step(5int, 15873306244377nat, m, 7936653122188nat, 5090866324715274377440int, 1170090905352457812242int, 11209705193106605630174int, 2int, 11749540617359171988164int);
    lemma_pow_mod_step(5int, 31746612488754nat, m, 15873306244377nat, 11749540617359171988164int, 6232725360815239481306int, 13466663180535065403878int, 0int, 13466663180535065403878int);
    lemma_pow_mod_step(5int, 63493224977509nat, m, 31746612488754nat, 13466663180535065403878int, 8187592370011457349158int, 13539500025430907388110int, 3int, 1249022104893752696491int);
    lemma_pow_mod_step(5int, 126986449955018nat, m, 63493224977509nat, 1249022104893752696491int, 70433045192875100438int, 21557393094091053780467int, 0int, 21557393094091053780467int);
    lemma_pow_mod_step(5int, 253972899910036nat, m, 126986449955018nat, 21557393094091053780467int, 20981121502473506652363int, 3358715067535077050950int, 0int, 3358715067535077050950int);
}

proof fn lemma_certificate_5323_4()
    requires
        pow_mod(5int, 253972899910036nat, 22149492674086928081353int) == 3358715067535077050950int,
    ensures
        pow_mod(5int, 1040272998031510806nat, 22149492674086928081353int) == 19690069849792171756964int,
{
    let m: int = 22149492674086928081353int;
    lemma_pow_mod_step(5int, 507945799820073nat, m, 253972899910036nat, 3358715067535077050950int, 509310396896130905022int, 4596382922658963647734int, 1int, 832421939207890157317int);
    lemma_pow_mod_step(5int, 1015891599640147nat, m, 507945799820073nat, 832421939207890157317int, 31284070252556652871int, 8739893804275339624026int, 1int, 21549976347289770038777int);
    lemma_pow_mod_step(5int, 2031783199280294nat, m, 1015891599640147nat, 21549976347289770038777int, 20966687020875191784424int, 13309100138937373410057int, 0int, 13309100138937373410057int);
    lemma_pow_mod_step(5int, 4063566398560589nat, m, 2031783199280294nat, 13309100138937373410057int, 7997119803808994362444int, 17093089146238268836517int, 3int, 19016967708930559938526int);
    lemma_pow_mod_step(5int, 8127132797121178nat, m, 4063566398560589nat, 19016967708930559938526int, 16327464748915102608886int, 20079976765928150349918int, 0int, 20079976765928150349918int);
    lemma_pow_mod_step(5int, 16254265594242356nat, m, 8127132797121178nat, 20079976765928150349918int, 18203824026720546125475int, 3525433051026096839049int, 0int, 3525433051026096839049int);
    lemma_pow_mod_step(5int, 32508531188484712nat, m, 16254265594242356nat, 3525433051026096839049int, 561126991942695735714int, 7383072342076631683359int, 0int, 7383072342076631683359int);
    lemma_pow_mod_step(5int, 65017062376969425nat, m, 32508531188484712nat, 7383072342076631683359int, 2460993486867029722282int, 2347669590435344715335int, 0int, 11738347952176723576675int);
    lemma_pow_mod_step(5int, 130034124753938850nat, m, 65017062376969425nat, 11738347952176723576675int, 6220856372370685426376int, 887888112420184088897int, 0int, 887888112420184088897int);
    lemma_pow_mod_step(5int, 260068249507877701nat, m, 130034124753938850nat, 887888112420184088897int, 35592025143735060181int, 9728416666509679771716int, 2int, 4343097984374542695874int);
    lemma_pow_mod_step(5int, 520136499015755403nat, m, 260068249507877701nat, 4343097984374542695874int, 851599645166851986726int, 19738978979536252503598int, 4int, 10096924201333550192578int);
    lemma_pow_mod_step(5int, 1040272998031510806nat, m, 520136499015755403nat, 10096924201333550192578int, 4602718438185526675040int, 19690069849792171756964int, 0int, 19690069849792171756964int);
}

proof fn lemma_certificate_5323_5()
    requires
        pow_mod(5int, 1040272998031510806nat, 22149492674086928081353int) == 19690069849792171756964int,
    ensures
        pow_mod(5int, 4161091992126043224nat, 22149492674086928081353int) == 6446620476143922066636int,
{
    let m: int = 22149492674086928081353int;
    lemma_pow_mod_step(5int, 2080545996063021612nat, m, 1040272998031510806nat, 19690069849792171756964int, 17503735024291109917161int, 20711036855794183698463int, 0int, 20711036855794183698463int);
    lemma_pow_mod_step(5int, 4161091992126043224nat, m, 2080545996063021612nat, 20711036855794183698463int, 19365998759145284864461int, 6446620476143922066636int, 0int, 6446620476143922066636int);
}

proof fn lemma_certificate_5323()
    ensures
        pow_mod(5int, 4161091992126043224nat, 22149492674086928081353int) == 6446620476143922066636int,
{
    lemma_pow_mod_zero(5int, 22149492674086928081353int);
    lemma_certificate_5323_0();
    lemma_certificate_5323_1();
    lemma_certificate_5323_2();
    lemma_certificate_5323_3();
    lemma_certificate_5323_4();
    lemma_certificate_5323_5();
}

proof fn lemma_certificate_173378833005251801_0()
    requires
        pow_mod(5int, 0nat, 22149492674086928081353int) == 1int,
    ensures
        pow_mod(5int, 3992nat, 22149492674086928081353int) == 2584867656533675254014int,
{
    let m: int = 22149492674086928081353int;
    lemma_pow_mod_step(5int, 1nat, m, 0nat, 1int, 0int, 1int, 0int, 5int);
    lemma_pow_mod_step(5int, 3nat, m, 1nat, 5int, 0int, 25int, 0int, 125int);
    lemma_pow_mod_step(5int, 7nat, m, 3nat, 125int, 0int, 15625int, 0int, 78125int);
    lemma_pow_mod_step(5int, 15nat, m, 7nat, 78125int, 0int, 6103515625int, 0int, 30517578125int);
    lemma_pow_mod_step(5int, 31nat, m, 15nat, 30517578125int, 0int, 931322574615478515625int, 0int, 4656612873077392578125int);
    lemma_pow_mod_step(5int, 62nat, m, 31nat, 4656612873077392578125int, 978986009692159836990int, 8047889342688289868155int, 0int, 8047889342688289868155int);
    lemma_pow_mod_step(5int, 124nat, m, 62nat, 8047889342688289868155int, 2924153786507695579126int, 20414072638003906466547int, 0int, 20414072638003906466547int);
    lemma_pow_mod_step(5int, 249nat, m, 124nat, 20414072638003906466547int, 18814623332535487838326int, 2235060159338190768131int, 0int, 11175300796690953840655int);
    lemma_pow_mod_step(5int, 499nat, m, 249nat, 11175300796690953840655int, 5638384126180430353336int, 16534805300552787885417int, 3int, 16225548480503155183026int);
    lemma_pow_mod_step(5int, 998nat, m, 499nat, 16225548480503155183026int, 11885979844638179842748int, 20313312793684667438632int, 0int, 20313312793684667438632int);
    lemma_pow_mod_step(5int, 1996nat, m, 998nat, 20313312793684667438632int, 18629351142512483118105int, 11362647796232938835359int, 0int, 11362647796232938835359int);
    lemma_pow_mod_step(5int, 3992nat, m, 1996nat, 11362647796232938835359int, 5829016801467646845739int, 2584867656533675254014int, 0int, 2584867656533675254014int);
}

proof fn lemma_certificate_173378833005251801_1()
    requires
        pow_mod(5int, 3992nat, 22149492674086928081353int) == 2584867656533675254014int,
    ensures
        pow_mod(5int, 127752nat, 22149492674086928081353int) == 317195385910872261254int,
{
    let m: int = 22149492674086928081353int;
    lemma_pow_mod_step(5int, 7984nat, m, 3992nat, 2584867656533675254014int, 301656606772341268480int, 21751691058198768458756int, 0int, 21751691058198768458756int);
    lemma_pow_mod_step(5int, 15969nat, m, 7984nat, 21751691058198768458756int, 21361033900557653282041int, 19111043690208171186063int, 4int, 6957247754693143604903int);
    lemma_pow_mod_step(5int, 31938nat, m, 15969nat, 6957247754693143604903int, 2185300450552108393539int, 9837667256693834061142int, 0int, 9837667256693834061142int);
    lemma_pow_mod_step(5int, 63876nat, m, 31938nat, 9837667256693834061142int, 4369386625574960308421int, 7306129260633935370551int, 0int, 7306129260633935370551int);
    lemma_pow_mod_step(5int, 127752nat, m, 63876nat, 7306129260633935370551int, 2409966023083724982899int, 317195385910872261254int, 0int, 317195385910872261254int);
}

proof fn lemma_certificate_173378833005251801()
    ensures
        pow_mod(5int, 127752nat, 22149492674086928081353int) == 317195385910872261254int,
{
    lemma_pow_mod_zero(5int, 22149492674086928081353int);
    lemma_certificate_173378833005251801_0();
    lemma_certificate_173378833005251801_1();
}

/// 22149492674086928081353 is prime, by a Lucas certificate with witness 5.
pub proof fn lemma_prime_22149492674086928081353()
    ensures
        is_prime(22149492674086928081353int),
        forall|x: int| 1 <= x < 22149492674086928081353int ==> #[trigger] power_of(5, 22149492674086928081353int, x),
{
    lemma_small_primes();
    lemma_prime_5323();
    lemma_prime_173378833005251801();
    let fs: Seq<int> = Seq::empty().push(2int).push(2int).push(2int).push(3int).push(5323int).push(173378833005251801int);
    assert(product(Seq::<int>::empty()) == 1);
    lemma_product_push(Seq::<int>::empty(), 2int);
    lemma_product_push(Seq::<int>::empty().push(2int), 2int);
    lemma_product_push(Seq::<int>::empty().push(2int).push(2int), 2int);
    lemma_product_push(Seq::<int>::empty().push(2int).push(2int).push(2int), 3int);
    lemma_product_push(Seq::<int>::empty().push(2int).push(2int).push(2int).push(3int), 5323int);
    lemma_product_push(Seq::<int>::empty().push(2int).push(2int).push(2int).push(3int).push(5323int), 173378833005251801int);
    lemma_certificate_full();
    lemma_certificate_2();
    lemma_certificate_3();
    lemma_certificate_5323();
    lemma_certificate_173378833005251801();
    assert forall|i: int| 0 <= i < fs.len() implies is_prime(#[trigger] fs[i])
        && pow_mod(5, ((22149492674086928081353int - 1) / fs[i]) as nat, 22149492674086928081353int) != 1 by {
        if i == 0 { assert(fs[0] == 2int); } else if i == 1 { assert(fs[1] == 2int); } else if i == 2 { assert(fs[2] == 2int); } else if i == 3 { assert(fs[3] == 3int); } else if i == 4 { assert(fs[4] == 5323int); } else if i == 5 { assert(fs[5] == 173378833005251801int); }
    }
    lemma_lucas(22149492674086928081353int, 5, fs);
}

} // verus!
