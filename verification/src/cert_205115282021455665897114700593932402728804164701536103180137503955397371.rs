//! A Lucas certificate that 205115282021455665897114700593932402728804164701536103180137503955397371 is prime.
use vstd::prelude::*;
use crate::prime::{is_prime, pow_mod, power_of, product, lucas_certificate, lemma_lucas, lemma_pow_mod_step, lemma_pow_mod_zero, lemma_product_push};
use crate::cert_7723::lemma_prime_7723;
use crate::cert_132896956044521568488119::lemma_prime_132896956044521568488119;
use crate::cert_255515944373312847190720520512484175977::lemma_prime_255515944373312847190720520512484175977;
use crate::cert_small::lemma_small_primes;
verus! {

proof fn lemma_certificate_full_0()
    requires
        pow_mod(10int, 0nat, 205115282021455665897114700593932402728804164701536103180137503955397371int) == 1int,
    ensures
        pow_mod(10int, 3804nat, 205115282021455665897114700593932402728804164701536103180137503955397371int) == 67215330545053355740955458102018692855627318322599146752679400003626493int,
{
    let m: int = 205115282021455665897114700593932402728804164701536103180137503955397371int;
    lemma_pow_mod_step(10int, 1nat, m, 0nat, 1int, 0int, 1int, 0int, 10int);
    lemma_pow_mod_step(10int, 3nat, m, 1nat, 10int, 0int, 100int, 0int, 1000int);
    lemma_pow_mod_step(10int, 7nat, m, 3nat, 1000int, 0int, 1000000int, 0int, 10000000int);
    lemma_pow_mod_step(10int, 14nat, m, 7nat, 10000000int, 0int, 100000000000000int, 0int, 100000000000000int);
    lemma_pow_mod_step(10int, 29nat, m, 14nat, 100000000000000int, 0int, 10000000000000000000000000000int, 0int, 100000000000000000000000000000int);
    lemma_pow_mod_step(10int, 59nat, m, 29nat, 100000000000000000000000000000int, 0int, 10000000000000000000000000000000000000000000000000000000000int, 0int, 100000000000000000000000000000000000000000000000000000000000int);
    lemma_pow_mod_step(10int, 118nat, m, 59nat, 100000000000000000000000000000000000000000000000000000000000int, 48753071450590260688123541262918071666855467577int, 66249036369092368987035784810614146017500214344230318878458208958459933int, 0int, 66249036369092368987035784810614146017500214344230318878458208958459933int);
    lemma_pow_mod_step(10int, 237nat, m, 118nat, 66249036369092368987035784810614146017500214344230318878458208958459933int, 21397405286331750932313865151567475859371601662974925211551087120845728int, 9805021884408975843753478304514651354233346677962523127020419338583401int, 0int, 98050218844089758437534783045146513542333466779625231270204193385834010int);
    lemma_pow_mod_step(10int, 475nat, m, 237nat, 98050218844089758437534783045146513542333466779625231270204193385834010int, 46870449245065307546285004919475136905302398984836729936680755187087278int, 195277245050279367736803998134613674001709713548806179682851110723933962int, 9int, 106734912309692684294007676000745115457859653174236868207273571640763281int);
    lemma_pow_mod_step(10int, 951nat, m, 475nat, 106734912309692684294007676000745115457859653174236868207273571640763281int, 55541163941973442277026853995799532599258102870939138516704444492212544int, 159982902909430988781376454849028295171492864297236875774357557767063137int, 7int, 164022054944120226533961644332756132613299490061616035482613049982849773int);
    lemma_pow_mod_step(10int, 1902nat, m, 951nat, 164022054944120226533961644332756132613299490061616035482613049982849773int, 131161531422499453028074825519341026122299058846308251868210129636279229int, 156405005163081193348175699702907607396905589584584741426073881677644570int, 0int, 156405005163081193348175699702907607396905589584584741426073881677644570int);
    lemma_pow_mod_step(10int, 3804nat, m, 1902nat, 156405005163081193348175699702907607396905589584584741426073881677644570int, 119262326039190985911233104260718541354599676911773287684363349725346117int, 67215330545053355740955458102018692855627318322599146752679400003626493int, 0int, 67215330545053355740955458102018692855627318322599146752679400003626493int);
}

proof fn lemma_certificate_full_1()
    requires
        pow_mod(10int, 3804nat, 205115282021455665897114700593932402728804164701536103180137503955397371int) == 67215330545053355740955458102018692855627318322599146752679400003626493int,
    ensures
        pow_mod(10int, 15581488nat, 205115282021455665897114700593932402728804164701536103180137503955397371int) == 179176058734562140003011497558287426222039245845971322406873946692625133int,
{
    let m: int = 205115282021455665897114700593932402728804164701536103180137503955397371int;
    lemma_pow_mod_step(10int, 7608nat, m, 3804nat, 67215330545053355740955458102018692855627318322599146752679400003626493int, 22026153369733791248450110694345142437133608107512466561876743881526234int, 6709142846424936811509875018360782318219882847211913598497350020348235int, 0int, 6709142846424936811509875018360782318219882847211913598497350020348235int);
    lemma_pow_mod_step(10int, 15216nat, m, 7608nat, 6709142846424936811509875018360782318219882847211913598497350020348235int, 219450239348945498061693909724820036173046109823221111601068393514887int, 186887347835949308571211815192256877081895296366645626968306073178453148int, 0int, 186887347835949308571211815192256877081895296366645626968306073178453148int);
    lemma_pow_mod_step(10int, 30432nat, m, 15216nat, 186887347835949308571211815192256877081895296366645626968306073178453148int, 170279271426990269562586307673484807648878669147821996910112408690279489int, 34534950497415168475077085977596484007848282005971825842834589985286485int, 0int, 34534950497415168475077085977596484007848282005971825842834589985286485int);
    lemma_pow_mod_step(10int, 60865nat, m, 30432nat, 34534950497415168475077085977596484007848282005971825842834589985286485int, 5814597499050120171995563737657815188281779685098796709507244551034875int, 162836387943663103378061403618037116763465112532283655637318867619341600int, 7int, 192556905286441372500811132022844348533021972412083834112226148505634403int);
    lemma_pow_mod_step(10int, 121730nat, m, 60865nat, 192556905286441372500811132022844348533021972412083834112226148505634403int, 180767427019957819955336060999306928657572240690053013173016535666557671int, 153705600244561651635777792925764014225821930902582292170812993003883468int, 0int, 153705600244561651635777792925764014225821930902582292170812993003883468int);
    lemma_pow_mod_step(10int, 243460nat, m, 121730nat, 153705600244561651635777792925764014225821930902582292170812993003883468int, 115181137717811307958145702049326422566094864754649929451039875778623118int, 170997182187514710335289954687799254174501477969162580794957070386684246int, 0int, 170997182187514710335289954687799254174501477969162580794957070386684246int);
    lemma_pow_mod_step(10int, 486921nat, m, 243460nat, 170997182187514710335289954687799254174501477969162580794957070386684246int, 142554157973521952163462324453079324170361549284834599968017744695649727int, 107339297727941301118997715754823881517461668854168455432178520791920799int, 5int, 47816567172134681704403654578576801530595865034004038421097688142221135int);
    lemma_pow_mod_step(10int, 973843nat, m, 486921nat, 47816567172134681704403654578576801530595865034004038421097688142221135int, 11147019732484395677481513311490952435796755124121774619584059295882027int, 2828077758483650288495107690689980595605488051719543395546230518737208int, 0int, 28280777584836502884951076906899805956054880517195433955462305187372080int);
    lemma_pow_mod_step(10int, 1947686nat, m, 973843nat, 28280777584836502884951076906899805956054880517195433955462305187372080int, 3899282261764040982987782545408878446046745721402374623024911853528500int, 190516976174204569934206414208175050871018622963867881352293730389952900int, 0int, 190516976174204569934206414208175050871018622963867881352293730389952900int);
    lemma_pow_mod_step(10int, 3895372nat, m, 1947686nat, 190516976174204569934206414208175050871018622963867881352293730389952900int, 176957649634149090657951550664540014115799260474512557083581624120151775int, 91382951001774083799752686594235291135088837685815774804876245262426475int, 0int, 91382951001774083799752686594235291135088837685815774804876245262426475int);
    lemma_pow_mod_step(10int, 7790744nat, m, 3895372nat, 91382951001774083799752686594235291135088837685815774804876245262426475int, 40712928122630667969420853108024587454376410196674241107869189145082521int, 162315297720581025675197380368041503038134402651311112859041763639473334int, 0int, 162315297720581025675197380368041503038134402651311112859041763639473334int);
    lemma_pow_mod_step(10int, 15581488nat, m, 7790744nat, 162315297720581025675197380368041503038134402651311112859041763639473334int, 128446089508654745320326767612416248042453329764297725728339445964722613int, 179176058734562140003011497558287426222039245845971322406873946692625133int, 0int, 179176058734562140003011497558287426222039245845971322406873946692625133int);
}

proof fn lemma_certificate_full_2()
    requires
        pow_mod(10int, 15581488nat, 205115282021455665897114700593932402728804164701536103180137503955397371int) == 179176058734562140003011497558287426222039245845971322406873946692625133int,
    ensures
        pow_mod(10int, 63821776687nat, 205115282021455665897114700593932402728804164701536103180137503955397371int) == 8509849072203147133704970730071230067393653895624158666900112072997801int,
{
    let m: int = 205115282021455665897114700593932402728804164701536103180137503955397371int;
    lemma_pow_mod_step(10int, 31162976nat, m, 15581488nat, 179176058734562140003011497558287426222039245845971322406873946692625133int, 156517153218710841820751237085067839983988541306068188790143909131459615int, 18943023072526118476639798631256564140632079598689270117398456299595524int, 0int, 18943023072526118476639798631256564140632079598689270117398456299595524int);
    lemma_pow_mod_step(10int, 62325953nat, m, 31162976nat, 18943023072526118476639798631256564140632079598689270117398456299595524int, 1749446065597010639992157819941048784864773726848935500004928507563486int, 32365011777720153803978881334811014189008993265748659808794799860839270int, 1int, 118534835755745872142674112754177739161285767955950494907810494652995329int);
    lemma_pow_mod_step(10int, 124651907nat, m, 62325953nat, 118534835755745872142674112754177739161285767955950494907810494652995329int, 68500538571143253063527951239397453790482110566894943207177967041137756int, 46272552209792595603899630051778798151586261813457253139677022764578765int, 2int, 52494958055014624244766899329923176058254288731500325036495219734992908int);
    lemma_pow_mod_step(10int, 249303815nat, m, 124651907nat, 52494958055014624244766899329923176058254288731500325036495219734992908int, 13434984434311862944959494563048651330454449242136895953696829221832876int, 104791342545480774055485612536780502657601255615272492086504545278527468int, 5int, 22337015347529411069282622398143012931991732645044404964357933008287825int);
    lemma_pow_mod_step(10int, 498607630nat, m, 249303815nat, 22337015347529411069282622398143012931991732645044404964357933008287825int, 2432496738997602428474353912087586838830989337710526727062019596253310int, 162529337301740404350413544812550483020864513602662591077104314219182615int, 0int, 162529337301740404350413544812550483020864513602662591077104314219182615int);
    lemma_pow_mod_step(10int, 997215260nat, m, 498607630nat, 162529337301740404350413544812550483020864513602662591077104314219182615int, 128785067711238285190602750910570498247948163409480331240800824334370287int, 10882357377422098141243760798488516366026113326744439307379680577922748int, 0int, 10882357377422098141243760798488516366026113326744439307379680577922748int);
    lemma_pow_mod_step(10int, 1994430521nat, m, 997215260nat, 10882357377422098141243760798488516366026113326744439307379680577922748int, 577361671557682799299180984331742121962660514894371591206787249833420int, 56946819134356832282784862623347656784735622954647022323318552999932684int, 2int, 159237627300656991033619225045611762389747900143398016872910522088532098int);
    lemma_pow_mod_step(10int, 3988861042nat, m, 1994430521nat, 159237627300656991033619225045611762389747900143398016872910522088532098int, 123621320159316861303409263607889246573918415469249525154345547301532145int, 59871110645196612176712274689677357665983506885851390973734353771290809int, 0int, 59871110645196612176712274689677357665983506885851390973734353771290809int);
    lemma_pow_mod_step(10int, 7977722085nat, m, 3988861042nat, 59871110645196612176712274689677357665983506885851390973734353771290809int, 17475781689998215547711906785382624197881537005359383750609321237704802int, 205006311631029311289471864405004912925267512746878459705825626142998939int, 9int, 204025578117192119820686338704657504693437645154959668437018725831413051int);
    lemma_pow_mod_step(10int, 15955444171nat, m, 7977722085nat, 204025578117192119820686338704657504693437645154959668437018725831413051int, 202941663418819351810835205569568388956320985806431491948219645194967160int, 189055742841048878848770408070665272034548706315684375164781724277792241int, 9int, 44519890217387795413671775361261095786249580843018823026579707179346071int);
    lemma_pow_mod_step(10int, 31910888343nat, m, 15955444171nat, 44519890217387795413671775361261095786249580843018823026579707179346071int, 9662959314562121699665167356864854835271072088572145689732398644060214int, 43555985170604410369956346777743690528339293409281696980062671961839647int, 2int, 25329287663132771905334066589572099825784604689744763440351711707601728int);
    lemma_pow_mod_step(10int, 63821776687nat, m, 31910888343nat, 25329287663132771905334066589572099825784604689744763440351711707601728int, 3127864521838112583852055499511675395397974388659320688841553175890670int, 185454738726530414020773727607546285462663113620944908728813764767157414int, 9int, 8509849072203147133704970730071230067393653895624158666900112072997801int);
}

proof fn lemma_certificate_full_3()
    requires
        pow_mod(10int, 63821776687nat, 205115282021455665897114700593932402728804164701536103180137503955397371int) == 8509849072203147133704970730071230067393653895624158666900112072997801int,
    ensures
        pow_mod(10int, 261413997310426nat, 205115282021455665897114700593932402728804164701536103180137503955397371int) == 191007405779495481345495331594086067724515424843395436822646680295487206int,
{
    let m: int = 205115282021455665897114700593932402728804164701536103180137503955397371int;
    lemma_pow_mod_step(10int, 127643553374nat, m, 63821776687nat, 8509849072203147133704970730071230067393653895624158666900112072997801int, 353057707441328900424183213175567265203566331437746990975773109229961int, 172193284752466796845243604656319898435839583998415514550057919377003070int, 0int, 172193284752466796845243604656319898435839583998415514550057919377003070int);
    lemma_pow_mod_step(10int, 255287106748nat, m, 127643553374nat, 172193284752466796845243604656319898435839583998415514550057919377003070int, 144555427667952021761278827871706806886479633774888126610251516259265699int, 12229252439578864415311617630489772183298978055125108509478174574347571int, 0int, 12229252439578864415311617630489772183298978055125108509478174574347571int);
    lemma_pow_mod_step(10int, 510574213496nat, m, 255287106748nat, 12229252439578864415311617630489772183298978055125108509478174574347571int, 729124684211982563177049587572283349526954392775345478045589243929266int, 184793409294585874532507019493288830804179996222237747691047143867240355int, 0int, 184793409294585874532507019493288830804179996222237747691047143867240355int);
    lemma_pow_mod_step(10int, 1021148426993nat, m, 510574213496nat, 184793409294585874532507019493288830804179996222237747691047143867240355int, 166484933653769844265522601077597430129376588259524594100002667961780411int, 158800326331033062319243235175499075552799979964794543250692697191826544int, 7int, 152196289160140961912629447597463936426370646737192710245964444230483843int);
    lemma_pow_mod_step(10int, 2042296853987nat, m, 1021148426993nat, 152196289160140961912629447597463936426370646737192710245964444230483843int, 112930202985530100876049484523642745460873601398981161362327703070580936int, 161616459634961592730793961237331937368639859359892900117534924186929393int, 7int, 180357622199426266028136708215792554584769440688176278914386714181512333int);
    lemma_pow_mod_step(10int, 4084593707975nat, m, 2042296853987nat, 180357622199426266028136708215792554584769440688176278914386714181512333int, 158588241523751321097442844118601551304717453995077303785416615187229684int, 13810331993556012063777065247647593701184446809559608424797286164342125int, 0int, 138103319935560120637770652476475937011844468095596084247972861643421250int);
    lemma_pow_mod_step(10int, 8169187415950nat, m, 4084593707975nat, 138103319935560120637770652476475937011844468095596084247972861643421250int, 92984427046389623193282182743567100738210454094899776124172252680295154int, 193880067116405185437130846626582664873012630452216309688921249315922366int, 0int, 193880067116405185437130846626582664873012630452216309688921249315922366int);
    lemma_pow_mod_step(10int, 16338374831901nat, m, 8169187415950nat, 193880067116405185437130846626582664873012630452216309688921249315922366int, 183260262495360089028514643858927830108078278971673405771170324724727406int, 177561300241191973606430639222596022570993859154602719935589128954988330int, 8int, 134690746240274408887388787474501003879505273933738373914791257906704332int);
    lemma_pow_mod_step(10int, 32676749663803nat, m, 16338374831901nat, 134690746240274408887388787474501003879505273933738373914791257906704332int, 88445858075383822607549951298985483164431436387484823871719280107797063int, 168356034765401866750389892888032405798424550093113848792807794075844851int, 8int, 42638091482373340326981324128864836153812183318849662486977909115269542int);
    lemma_pow_mod_step(10int, 65353499327606nat, m, 32676749663803nat, 42638091482373340326981324128864836153812183318849662486977909115269542int, 8863341762458582168287116014867903138259249970498395598657957477712941int, 201573551907616809213066328287845157756513481669869236037419365388811653int, 0int, 201573551907616809213066328287845157756513481669869236037419365388811653int);
    lemma_pow_mod_step(10int, 130706998655213nat, m, 65353499327606nat, 201573551907616809213066328287845157756513481669869236037419365388811653int, 198092976926031632567548413952905778906364350848709223851297942507840544int, 148200017126924321912101263861988690018691620725575076742873556883782585int, 7int, 46193197119053557841209734462360081085287054344998045167773041150044253int);
    lemma_pow_mod_step(10int, 261413997310426nat, m, 130706998655213nat, 46193197119053557841209734462360081085287054344998045167773041150044253int, 10402986257535579033645979573021244981083217335709487226284592102894393int, 191007405779495481345495331594086067724515424843395436822646680295487206int, 0int, 191007405779495481345495331594086067724515424843395436822646680295487206int);
}

proof fn lemma_certificate_full_4()
    requires
        pow_mod(10int, 261413997310426nat, 205115282021455665897114700593932402728804164701536103180137503955397371int) == 191007405779495481345495331594086067724515424843395436822646680295487206int,
    ensures
        pow_mod(10int, 1070751732983505669nat, 205115282021455665897114700593932402728804164701536103180137503955397371int) == 49248794374659950972934017828696995953454681934396266290033447741604210int,
{
    let m: int = 205115282021455665897114700593932402728804164701536103180137503955397371int;
    lemma_pow_mod_step(10int, 522827994620852nat, m, 261413997310426nat, 191007405779495481345495331594086067724515424843395436822646680295487206int, 177869872508068546798846723355978548676972973923926594962905477528066630int, 203305025405491633142559440648274787190885880568756009186425521894856706int, 0int, 203305025405491633142559440648274787190885880568756009186425521894856706int);
    lemma_pow_mod_step(10int, 1045655989241704nat, m, 522827994620852nat, 203305025405491633142559440648274787190885880568756009186425521894856706int, 201510745312502123391262470730142633234512232778741667503059502925641025int, 37737538025098164822542042756955571470492069683211477603971357498425161int, 0int, 37737538025098164822542042756955571470492069683211477603971357498425161int);
    lemma_pow_mod_step(10int, 2091311978483409nat, m, 1045655989241704nat, 37737538025098164822542042756955571470492069683211477603971357498425161int, 6943031070921193200518494105288163805496979602234100584322949651736595int, 92893288225349182565278647372178485269813836960576540203397801670384176int, 4int, 108471754167669162064327671346055241782921710799620989313428000882252276int);
    lemma_pow_mod_step(10int, 4182623956966819nat, m, 2091311978483409nat, 108471754167669162064327671346055241782921710799620989313428000882252276int, 57363455985597801939681333377837440062039389920823395559924552289813282int, 125346573391512599184084487258396294043913656259242128330870592803498554int, 6int, 22774041786391996458156669020368524066311574383204664227880904302601314int);
    lemma_pow_mod_step(10int, 8365247913933638nat, m, 4182623956966819nat, 22774041786391996458156669020368524066311574383204664227880904302601314int, 2528612076959120487792603617959575775366931409376016058661516922025154int, 124058979057081630796546246637636506958897465181868616072457961107056462int, 0int, 124058979057081630796546246637636506958897465181868616072457961107056462int);
    lemma_pow_mod_step(10int, 16730495827867276nat, m, 8365247913933638nat, 124058979057081630796546246637636506958897465181868616072457961107056462int, 75034049793888654149729017347210004692976138493015233981031813406697652int, 152386165122901600650733178880805103626788959760982638004884603543284552int, 0int, 152386165122901600650733178880805103626788959760982638004884603543284552int);
    lemma_pow_mod_step(10int, 33460991655734552nat, m, 16730495827867276nat, 152386165122901600650733178880805103626788959760982638004884603543284552int, 113212156071507095263608924075873332011561222948315926960346853442322901int, 63875339419735796871789355747670128235919971559446210067490013693347433int, 0int, 63875339419735796871789355747670128235919971559446210067490013693347433int);
    lemma_pow_mod_step(10int, 66921983311469104nat, m, 33460991655734552nat, 63875339419735796871789355747670128235919971559446210067490013693347433int, 19891540726642042962990083759244517565057737359299994615244726328995494int, 120646054759058030640304802721626965065537096402623629170355662809243215int, 0int, 120646054759058030640304802721626965065537096402623629170355662809243215int);
    lemma_pow_mod_step(10int, 133843966622938208nat, m, 66921983311469104nat, 120646054759058030640304802721626965065537096402623629170355662809243215int, 70962389469367199875342083511888956260072979312864962454346034456451367int, 112228197674104574712995056717535159753005986818995220539255590002380068int, 0int, 112228197674104574712995056717535159753005986818995220539255590002380068int);
    lemma_pow_mod_step(10int, 267687933245876417nat, m, 133843966622938208nat, 112228197674104574712995056717535159753005986818995220539255590002380068int, 61405314265469501030216696460807201315918708868018660149740339302001278int, 22084332406539258165692874253296728398884262603985656323657074683844486int, 1int, 15728042043936915759814041939034881260038461338320460056433242883047489int);
    lemma_pow_mod_step(10int, 535375866491752834nat, m, 267687933245876417nat, 15728042043936915759814041939034881260038461338320460056433242883047489int, 1206011098236802968099206150990681850835389650415287753867424269831009int, 138463893460120200485771551885641712233900400361266594645062876216327782int, 0int, 138463893460120200485771551885641712233900400361266594645062876216327782int);
    lemma_pow_mod_step(10int, 1070751732983505669nat, m, 535375866491752834nat, 138463893460120200485771551885641712233900400361266594645062876216327782int, 93470606398454716426372771550704034940333567146549789609161545542031693int, 4924879437465995097293401782869699595345468193439626629003344774160421int, 0int, 49248794374659950972934017828696995953454681934396266290033447741604210int);
}

proof fn lemma_certificate_full_5()
    requires
        pow_mod(10int, 1070751732983505669nat, 205115282021455665897114700593932402728804164701536103180137503955397371int) == 49248794374659950972934017828696995953454681934396266290033447741604210int,
    ensures
        pow_mod(10int, 4385799098300439220789nat, 205115282021455665897114700593932402728804164701536103180137503955397371int) == 4753704174765748303104000214883193804954460406566865270739991403235121int,
{
    let m: int = 205115282021455665897114700593932402728804164701536103180137503955397371int;
    lemma_pow_mod_step(10int, 2141503465967011338nat, m, 1070751732983505669nat, 49248794374659950972934017828696995953454681934396266290033447741604210int, 11824783231430942493514190041132798581106846514052054178289219110337821int, 126759815221525089369894074758267711947065884337346795444939868184455509int, 0int, 126759815221525089369894074758267711947065884337346795444939868184455509int);
    lemma_pow_mod_step(10int, 4283006931934022676nat, m, 2141503465967011338nat, 126759815221525089369894074758267711947065884337346795444939868184455509int, 78336682652999097606753624066528282267255517296727981350564483136991785int, 47451097912938196306537155564535184643791101953324455050220819562851846int, 0int, 47451097912938196306537155564535184643791101953324455050220819562851846int);
    lemma_pow_mod_step(10int, 8566013863868045353nat, m, 4283006931934022676nat, 47451097912938196306537155564535184643791101953324455050220819562851846int, 10977274198944001264984551369521251500824023009430516280328754103449755int, 112202836378256216900939984375063178660833258161252384442562825588013611int, 5int, 96451953675283839523826340780969772964311758104843328524940736103149255int);
    lemma_pow_mod_step(10int, 17132027727736090706nat, m, 8566013863868045353nat, 96451953675283839523826340780969772964311758104843328524940736103149255int, 45354881782070146136221648623831603098470987676414426439021595096951453int, 15980660069744278363530663937472838550959399622393807262247361496224962int, 0int, 15980660069744278363530663937472838550959399622393807262247361496224962int);
    lemma_pow_mod_step(10int, 34264055455472181412nat, m, 17132027727736090706nat, 15980660069744278363530663937472838550959399622393807262247361496224962int, 1245063233455250511526230732040604471304160910510996546445244075998449int, 105054970435004858916888404925818867360207829160308347319494687537223865int, 0int, 105054970435004858916888404925818867360207829160308347319494687537223865int);
    lemma_pow_mod_step(10int, 68528110910944362824nat, m, 34264055455472181412nat, 105054970435004858916888404925818867360207829160308347319494687537223865int, 53806555534683610348147514644240999738625478562884383316257311138911176int, 158264060999199425248261249617018519010633591493157450477741709772619929int, 0int, 158264060999199425248261249617018519010633591493157450477741709772619929int);
    lemma_pow_mod_step(10int, 137056221821888725649nat, m, 68528110910944362824nat, 158264060999199425248261249617018519010633591493157450477741709772619929int, 122114319114156850317691887327931677128652381693876601087211468997667712int, 120394659735409594607983702516019644130640385765362622507956003511579889int, 5int, 178370187246817616594263522190534427662383034145945709178872515338812035int);
    lemma_pow_mod_step(10int, 274112443643777451299nat, m, 137056221821888725649nat, 178370187246817616594263522190534427662383034145945709178872515338812035int, 155112400133778126199174169565793789406132811287356465370161064238939669int, 106310589419787201034897756908925177049529962458549659778478062470631026int, 5int, 37529484090593680863404066119589756851278801077816081884093104929323405int);
    lemma_pow_mod_step(10int, 548224887287554902598nat, m, 274112443643777451299nat, 37529484090593680863404066119589756851278801077816081884093104929323405int, 6866685710715571581380602702950331389585016364287523041270277654506989int, 97937762073837907308521980571314401114424205885068253890175740489068106int, 0int, 97937762073837907308521980571314401114424205885068253890175740489068106int);
    lemma_pow_mod_step(10int, 1096449774575109805197nat, m, 548224887287554902598nat, 97937762073837907308521980571314401114424205885068253890175740489068106int, 46762996620741069691383038979488354618721934994186589919320636350855152int, 125906418181780776145858000629938331958363906073597589505464990483821844int, 6int, 28372489689073766075891802735788903210814072526759275973824881105834214int);
    lemma_pow_mod_step(10int, 2192899549150219610394nat, m, 1096449774575109805197nat, 28372489689073766075891802735788903210814072526759275973824881105834214int, 3924613335599206979967023100183567470657300940527213131324512766837503int, 3108786586261152514634608819168640015250015653457187477290453502593183int, 0int, 3108786586261152514634608819168640015250015653457187477290453502593183int);
    lemma_pow_mod_step(10int, 4385799098300439220789nat, m, 2192899549150219610394nat, 3108786586261152514634608819168640015250015653457187477290453502593183int, 47117669359742436417913170264230880649819604196110271380141791240133int, 185079124236786674137713630556027481836419194272039179389197752700181146int, 9int, 4753704174765748303104000214883193804954460406566865270739991403235121int);
}

proof fn lemma_certificate_full_6()
    requires
        pow_mod(10int, 4385799098300439220789nat, 205115282021455665897114700593932402728804164701536103180137503955397371int) == 4753704174765748303104000214883193804954460406566865270739991403235121int,
    ensures
        pow_mod(10int, 17964233106638599048351748nat, 205115282021455665897114700593932402728804164701536103180137503955397371int) == 164624476497990022763112415649316438245384144927042667774324770969818941int,
{
    let m: int = 205115282021455665897114700593932402728804164701536103180137503955397371int;
    lemma_pow_mod_step(10int, 8771598196600878441578nat, m, 4385799098300439220789nat, 4753704174765748303104000214883193804954460406566865270739991403235121int, 110170744756217225174175360917914877623306825644081214462944540885127int, 85647019273980321714652993779759768917724193894884163644548051459083524int, 0int, 85647019273980321714652993779759768917724193894884163644548051459083524int);
    lemma_pow_mod_step(10int, 17543196393201756883156nat, m, 8771598196600878441578nat, 85647019273980321714652993779759768917724193894884163644548051459083524int, 35762386099297325424426783141835693105719986119517903470095115208866312int, 119768260027413166731965182739150979103391093325916919396589203632992824int, 0int, 119768260027413166731965182739150979103391093325916919396589203632992824int);
    lemma_pow_mod_step(10int, 35086392786403513766312nat, m, 17543196393201756883156nat, 119768260027413166731965182739150979103391093325916919396589203632992824int, 69933531858896715786084040516288908152838371293068738735539204577094634int, 78316175788115877711229152728718466351283654552714639866592177093687762int, 0int, 78316175788115877711229152728718466351283654552714639866592177093687762int);
    lemma_pow_mod_step(10int, 70172785572807027532624nat, m, 35086392786403513766312nat, 78316175788115877711229152728718466351283654552714639866592177093687762int, 29902322877305131122048584608516657216082477157158084344143943709208335int, 134561204523397185773713414980196608819539907647914092629416007998281359int, 0int, 134561204523397185773713414980196608819539907647914092629416007998281359int);
    lemma_pow_mod_step(10int, 140345571145614055065248nat, m, 70172785572807027532624nat, 134561204523397185773713414980196608819539907647914092629416007998281359int, 88275810482485215086414151161044961946691468011379597083941608240500688int, 111229402301580545106651955056462415776585786406890679448604340687995633int, 0int, 111229402301580545106651955056462415776585786406890679448604340687995633int);
    lemma_pow_mod_step(10int, 280691142291228110130496nat, m, 140345571145614055065248nat, 111229402301580545106651955056462415776585786406890679448604340687995633int, 60317202182296225627755059365492933478668542091905880268174720874458095int, 168207799371685388570921381099471028644339323828115322199479561014402444int, 0int, 168207799371685388570921381099471028644339323828115322199479561014402444int);
    lemma_pow_mod_step(10int, 561382284582456220260992nat, m, 280691142291228110130496nat, 168207799371685388570921381099471028644339323828115322199479561014402444int, 137941276196600219512669147524722341136066880937701615554025255176656746int, 77954342752679153553649066307798971399803068857062598037174364695358370int, 0int, 77954342752679153553649066307798971399803068857062598037174364695358370int);
    lemma_pow_mod_step(10int, 1122764569164912440521984nat, m, 561382284582456220260992nat, 77954342752679153553649066307798971399803068857062598037174364695358370int, 29626654309289940058195269273393322689829375963518358664748553933014279int, 113996113476172011481765433109330406475594732917089429511117733466996391int, 0int, 113996113476172011481765433109330406475594732917089429511117733466996391int);
    lemma_pow_mod_step(10int, 2245529138329824881043968nat, m, 1122764569164912440521984nat, 113996113476172011481765433109330406475594732917089429511117733466996391int, 63355171587424474247271787877125514636247188564538375387639893066342962int, 126159719346306695137720478317129142323009517501863660345679754727871979int, 0int, 126159719346306695137720478317129142323009517501863660345679754727871979int);
    lemma_pow_mod_step(10int, 4491058276659649762087937nat, m, 2245529138329824881043968nat, 126159719346306695137720478317129142323009517501863660345679754727871979int, 77596728184660479554497513387462731910955877051999584777288855856063026int, 1211850260102667686811431570377064430878342238108817511479302362671795int, 0int, 12118502601026676868114315703770644308783422381088175114793023626717950int);
    lemma_pow_mod_step(10int, 8982116553319299524175874nat, m, 4491058276659649762087937nat, 12118502601026676868114315703770644308783422381088175114793023626717950int, 715978370035483459956037585743024458817295185563602836079621487226914int, 117129907712909490554335147826162979381975233732797766492573643136159406int, 0int, 117129907712909490554335147826162979381975233732797766492573643136159406int);
    lemma_pow_mod_step(10int, 17964233106638599048351748nat, m, 8982116553319299524175874nat, 117129907712909490554335147826162979381975233732797766492573643136159406int, 66886363344685369173695510940450509660960772345008616917281145700038245int, 164624476497990022763112415649316438245384144927042667774324770969818941int, 0int, 164624476497990022763112415649316438245384144927042667774324770969818941int);
}

proof fn lemma_certificate_full_7()
    requires
        pow_mod(10int, 17964233106638599048351748nat, 205115282021455665897114700593932402728804164701536103180137503955397371int) == 164624476497990022763112415649316438245384144927042667774324770969818941int,
    ensures
        pow_mod(10int, 73581498804791701702048760958nat, 205115282021455665897114700593932402728804164701536103180137503955397371int) == 1456530324046570965142388537947518133993506139806926537260192544928639int,
{
    let m: int = 205115282021455665897114700593932402728804164701536103180137503955397371int;
    lemma_pow_mod_step(10int, 35928466213277198096703496nat, m, 17964233106638599048351748nat, 164624476497990022763112415649316438245384144927042667774324770969818941int, 132126763033689521317513935112442233526366437103902773619182329607268232int, 173923775335778858255087195006986184460270248615442732963341690977743409int, 0int, 173923775335778858255087195006986184460270248615442732963341690977743409int);
    lemma_pow_mod_step(10int, 71856932426554396193406993nat, m, 35928466213277198096703496nat, 173923775335778858255087195006986184460270248615442732963341690977743409int, 147475504160076639990723089804539137941111934418280738480180456494980875int, 108629617817201720172054845711364122169923410822425797384684866172661656int, 5int, 60719768064738872234974954143979208055213284716577457946161141949629705int);
    lemma_pow_mod_step(10int, 143713864853108792386813986nat, m, 71856932426554396193406993nat, 60719768064738872234974954143979208055213284716577457946161141949629705int, 17974722300067446819033692235003402491282421823590090417656062452709081int, 201865647865690279897958860082126685737223475889372395836088575803160974int, 0int, 201865647865690279897958860082126685737223475889372395836088575803160974int);
    lemma_pow_mod_step(10int, 287427729706217584773627972nat, m, 143713864853108792386813986nat, 201865647865690279897958860082126685737223475889372395836088575803160974int, 198667497548877529290188184387661946517350108748035252158773520466594990int, 185340213469960028516034308597004731675208100811273431690502133388857386int, 0int, 185340213469960028516034308597004731675208100811273431690502133388857386int);
    lemma_pow_mod_step(10int, 574855459412435169547255944nat, m, 287427729706217584773627972nat, 185340213469960028516034308597004731675208100811273431690502133388857386int, 167471650042619140506582159767557946747973078639274878521415645549500513int, 42578743610870106042130117910612381480464735447740330817519063163401673int, 0int, 42578743610870106042130117910612381480464735447740330817519063163401673int);
    lemma_pow_mod_step(10int, 1149710918824870339094511889nat, m, 574855459412435169547255944nat, 42578743610870106042130117910612381480464735447740330817519063163401673int, 8838685199918804682940528316304755396514616179609849167606345085889955int, 141414325687700037380783090200986089321751738109998571749424507536890624int, 6int, 183451564748266378425142698446266476844692392890769098413420051636522014int);
    lemma_pow_mod_step(10int, 2299421837649740678189023779nat, m, 1149710918824870339094511889nat, 183451564748266378425142698446266476844692392890769098413420051636522014int, 164075910273067871504255977841847030579961784487992087833570607797763799int, 186655413391372368685108166085220850550471417318180031417656172063043767int, 9int, 20516595720622693777049355506816880945476690867975385555324185031861331int);
    lemma_pow_mod_step(10int, 4598843675299481356378047559nat, m, 2299421837649740678189023779nat, 20516595720622693777049355506816880945476690867975385555324185031861331int, 2052166449106619143400786544988973594434420718487735221945255034092952int, 10648271673994130541450724767781987437847570506799491933519836702662369int, 0int, 106482716739941305414507247677819874378475705067994919335198367026623690int);
    lemma_pow_mod_step(10int, 9197687350598962712756095119nat, m, 4598843675299481356378047559nat, 106482716739941305414507247677819874378475705067994919335198367026623690int, 55279006286486876291110502965511407203401508587953977488325843406823593int, 167538160793925407119234119077248006711393042062685355636992057656242097int, 8int, 34459351767608744015423586021020845283497103014564730928820544919242002int);
    lemma_pow_mod_step(10int, 18395374701197925425512190239nat, m, 9197687350598962712756095119nat, 34459351767608744015423586021020845283497103014564730928820544919242002int, 5789168474144161555027864687770886993276696605079657094830428695425551int, 74287299843735440200833490987204625948131983548892821029632350089341583int, 3int, 127527152372987404316990808090249051294907341384319900755910989027223717int);
    lemma_pow_mod_step(10int, 36790749402395850851024380479nat, m, 18395374701197925425512190239nat, 127527152372987404316990808090249051294907341384319900755910989027223717int, 79287971291490464012652398754796891080530394300504888572802502741924635int, 119954680246403666596676548277832920788811455493470319299251864008161504int, 5int, 173970392356758336481191979808667194244093731427022677091831120304628185int);
    lemma_pow_mod_step(10int, 73581498804791701702048760958nat, m, 36790749402395850851024380479nat, 173970392356758336481191979808667194244093731427022677091831120304628185int, 147554570866146179429878279021847624932640926600020013421620232123562166int, 1456530324046570965142388537947518133993506139806926537260192544928639int, 0int, 1456530324046570965142388537947518133993506139806926537260192544928639int);
}

proof fn lemma_certificate_full_8()
    requires
        pow_mod(10int, 73581498804791701702048760958nat, 205115282021455665897114700593932402728804164701536103180137503955397371int) == 1456530324046570965142388537947518133993506139806926537260192544928639int,
    ensures
        pow_mod(10int, 301389819104426810171591724885627nat, 205115282021455665897114700593932402728804164701536103180137503955397371int) == 105159867749515576952046162546428167067958191335190324572726341855652560int,
{
    let m: int = 205115282021455665897114700593932402728804164701536103180137503955397371int;
    lemma_pow_mod_step(10int, 147162997609583403404097521916nat, m, 73581498804791701702048760958nat, 1456530324046570965142388537947518133993506139806926537260192544928639int, 10342869453507105679653448999319637483330189366624191050371987989447int, 82518582123118661117240347562701340015861560991404089628996595362848484int, 0int, 82518582123118661117240347562701340015861560991404089628996595362848484int);
    lemma_pow_mod_step(10int, 294325995219166806808195043833nat, m, 147162997609583403404097521916nat, 82518582123118661117240347562701340015861560991404089628996595362848484int, 33197508876484415346265004056803339963835945063520815777456868042252139int, 126440242094314335034199778898670036185283748193793370396152454821371687int, 6int, 33710728814409354959309585423105945480012493728717084880699524481332644int);
    lemma_pow_mod_step(10int, 588651990438333613616390087667nat, m, 294325995219166806808195043833nat, 33710728814409354959309585423105945480012493728717084880699524481332644int, 5540363575054232013903102941310870739984821308649000588049513532946078int, 125384061347563752387760123276826505257138958559982021172835187374069798int, 6int, 23148921346903528494913029204670636198564597390603592647526850008313754int);
    lemma_pow_mod_step(10int, 1177303980876667227232780175334nat, m, 588651990438333613616390087667nat, 23148921346903528494913029204670636198564597390603592647526850008313754int, 2612543318293914420589030981871998017644681317900895435477799591067812int, 84713681227580449725732571543770631195242188225410591263134419838050264int, 0int, 84713681227580449725732571543770631195242188225410591263134419838050264int);
    lemma_pow_mod_step(10int, 2354607961753334454465560350668nat, m, 1177303980876667227232780175334nat, 84713681227580449725732571543770631195242188225410591263134419838050264int, 34987192160442939526684022645207286207816182751199807507453411350964286int, 14368432792200403204957162719475534704665546404860275091290781831177590int, 0int, 14368432792200403204957162719475534704665546404860275091290781831177590int);
    lemma_pow_mod_step(10int, 4709215923506668908931120701337nat, m, 2354607961753334454465560350668nat, 14368432792200403204957162719475534704665546404860275091290781831177590int, 1006516232575905286380981254558867747183983281338023469279698697708063int, 23933217845053013177237524528265431704045047504240069681202670002505727int, 1int, 34216896429074465875260544688721914311646310340864593631889196069659899int);
    lemma_pow_mod_step(10int, 9418431847013337817862241402675nat, m, 4709215923506668908931120701337nat, 34216896429074465875260544688721914311646310340864593631889196069659899int, 5707990110242201288415866296714776555252587715870666840485289199441512int, 16553945889399088362318919856017778860553172866728784518409258295625249int, 0int, 165539458893990883623189198560177788605531728667287845184092582956252490int);
    lemma_pow_mod_step(10int, 18836863694026675635724482805351nat, m, 9418431847013337817862241402675nat, 165539458893990883623189198560177788605531728667287845184092582956252490int, 133599564990232321317906705847113765572154255952223026197269664270181689int, 195184493236152305377212015480699874631149104978640426335910398268260481int, 9int, 105807394168422060698087849461607121752253567472579334737866447084028471int);
    lemma_pow_mod_step(10int, 37673727388053351271448965610703nat, m, 18836863694026675635724482805351nat, 105807394168422060698087849461607121752253567472579334737866447084028471int, 54580061272766517407525273768511031327644581307920678057281496508426150int, 139301317532610518193345501493875550198585116480955331402286384880946191int, 6int, 162321483197371186550766811375161085613026176600336694942038825077077684int);
    lemma_pow_mod_step(10int, 75347454776106702542897931221406nat, m, 37673727388053351271448965610703nat, 162321483197371186550766811375161085613026176600336694942038825077077684int, 128455879287621046272019551411318047804775674162368130394654241714294317int, 11131096832278482303008798055305709143831518832838435084797794788763249int, 0int, 11131096832278482303008798055305709143831518832838435084797794788763249int);
    lemma_pow_mod_step(10int, 150694909552213405085795862442813nat, m, 75347454776106702542897931221406nat, 11131096832278482303008798055305709143831518832838435084797794788763249int, 604056974538833330600540116308300295928326958698567426339622393570040int, 100006155816434627470165195039182047433653898738702011979933211452671161int, 4int, 179600430078523611113193148016090863421322328580875707078782098705122126int);
    lemma_pow_mod_step(10int, 301389819104426810171591724885627nat, m, 150694909552213405085795862442813nat, 179600430078523611113193148016090863421322328580875707078782098705122126int, 157259440479020683764778825382250722868296461159264234752177165289463220int, 10515986774951557695204616254642816706795819133519032457272634185565256int, 0int, 105159867749515576952046162546428167067958191335190324572726341855652560int);
}

proof fn lemma_certificate_full_9()
    requires
        pow_mod(10int, 301389819104426810171591724885627nat, 205115282021455665897114700593932402728804164701536103180137503955397371int) == 105159867749515576952046162546428167067958191335190324572726341855652560int,
    ensures
        pow_mod(10int, 1234492699051732214462839705131529501nat, 205115282021455665897114700593932402728804164701536103180137503955397371int) == 85231555930974178722950936478201032907995486183677535468913579999720464int,
{
    let m: int = 205115282021455665897114700593932402728804164701536103180137503955397371int;
    lemma_pow_mod_step(10int, 602779638208853620343183449771254nat, m, 301389819104426810171591724885627nat, 105159867749515576952046162546428167067958191335190324572726341855652560int, 53914060796010529627863359236490733042738293287034119045083590753572189int, 160634084451061065765783564532127839399766957303180938906400378205238481int, 0int, 160634084451061065765783564532127839399766957303180938906400378205238481int);
    lemma_pow_mod_step(10int, 1205559276417707240686366899542509nat, m, 602779638208853620343183449771254nat, 160634084451061065765783564532127839399766957303180938906400378205238481int, 125799057160116991758602281405504146308717227159741725386229418987821567int, 62560070996116794738977442388148251048454543810001801566465062954287004int, 3int, 10254863896800949698430322099685302298132943995409706124238117676677927int);
    lemma_pow_mod_step(10int, 2411118552835414481372733799085018nat, m, 1205559276417707240686366899542509nat, 10254863896800949698430322099685302298132943995409706124238117676677927int, 512698188577247394303670594899953911655699398452907703814697730060500int, 65602350184460687951111423256740414104909766791808420998388965518071829int, 0int, 65602350184460687951111423256740414104909766791808420998388965518071829int);
    lemma_pow_mod_step(10int, 4822237105670828962745467598170037nat, m, 2411118552835414481372733799085018nat, 65602350184460687951111423256740414104909766791808420998388965518071829int, 20981705055376774924186135356373303147050879012866445274398056836853702int, 86700794162368667316554157055787228687680553544124492206307681200987799int, 4int, 46546813537864009577082768182142675961588876635100509342526796188288506int);
    lemma_pow_mod_step(10int, 9644474211341657925490935196340074nat, m, 4822237105670828962745467598170037nat, 46546813537864009577082768182142675961588876635100509342526796188288506int, 10562868983609163006682946483158785419362688412604437759144943105207762int, 195912083791681562014970275507873654846034829183011553009507755268118334int, 0int, 195912083791681562014970275507873654846034829183011553009507755268118334int);
    lemma_pow_mod_step(10int, 19288948422683315850981870392680148nat, m, 9644474211341657925490935196340074nat, 195912083791681562014970275507873654846034829183011553009507755268118334int, 187121818507818613831457049142540651161646867646996626480326908519634960int, 33277225867581030485384580278116355528533755065893176147126158363245396int, 0int, 33277225867581030485384580278116355528533755065893176147126158363245396int);
    lemma_pow_mod_step(10int, 38577896845366631701963740785360296nat, m, 19288948422683315850981870392680148nat, 33277225867581030485384580278116355528533755065893176147126158363245396int, 5398787211409091851221691085528324520824567731271507006372209221320773int, 73063071714412955434813855831412512168228529352176148833522711043309033int, 0int, 73063071714412955434813855831412512168228529352176148833522711043309033int);
    lemma_pow_mod_step(10int, 77155793690733263403927481570720593nat, m, 38577896845366631701963740785360296nat, 73063071714412955434813855831412512168228529352176148833522711043309033int, 26025425291261611862803688827074242134380075400124508299673324075587917int, 177801651024268673624449386186794353645267227313148198589773646158228882int, 8int, 137094254071041409067576257116484314622238955519193160456636429939109852int);
    lemma_pow_mod_step(10int, 154311587381466526807854963141441187nat, m, 77155793690733263403927481570720593nat, 137094254071041409067576257116484314622238955519193160456636429939109852int, 91630590924616034307329352909898461746088152288423399417568449152700751int, 126600930467907230025633765619323596210769967359469060869522102068336283int, 6int, 35317612550338304873649452629641545734874685385473989614395996950978604int);
    lemma_pow_mod_step(10int, 308623174762933053615709926282882375nat, m, 154311587381466526807854963141441187nat, 35317612550338304873649452629641545734874685385473989614395996950978604int, 6081135174147282399129451906618856634245109793557420492986402779007524int, 163821608808630366862736651266416068233411084463707240717516018846969412int, 7int, 202409113936114007347563608506633863232481691726319684914197660781912523int);
    lemma_pow_mod_step(10int, 617246349525866107231419852565764750nat, m, 308623174762933053615709926282882375nat, 202409113936114007347563608506633863232481691726319684914197660781912523int, 199738649410419141446565745885275736791417938939804734515102608711700724int, 103518775393531578713122891428523421801094359472693882850926812975828925int, 0int, 103518775393531578713122891428523421801094359472693882850926812975828925int);
    lemma_pow_mod_step(10int, 1234492699051732214462839705131529501nat, m, 617246349525866107231419852565764750nat, 103518775393531578713122891428523421801094359472693882850926812975828925int, 52244458595998222163928476613139238649969375076292945900415467708033836int, 131592324805970817410563914004179544928082047439289415454973860373210469int, 6int, 85231555930974178722950936478201032907995486183677535468913579999720464int);
}

proof fn lemma_certificate_full_10()
    requires
        pow_mod(10int, 1234492699051732214462839705131529501nat, 205115282021455665897114700593932402728804164701536103180137503955397371int) == 85231555930974178722950936478201032907995486183677535468913579999720464int,
    ensures
        pow_mod(10int, 5056482095315895150439791432218744836809nat, 205115282021455665897114700593932402728804164701536103180137503955397371int) == 48824741319028935502930194482950692211882713508094565608933622262017409int,
{
    let m: int = 205115282021455665897114700593932402728804164701536103180137503955397371int;
    lemma_pow_mod_step(10int, 2468985398103464428925679410263059002nat, m, 1234492699051732214462839705131529501nat, 85231555930974178722950936478201032907995486183677535468913579999720464int, 35416269596406278756647357179005001104088062964335230008863238113433090int, 192798016473563838591034729251461576421497545536061941564707074169968906int, 0int, 192798016473563838591034729251461576421497545536061941564707074169968906int);
    lemma_pow_mod_step(10int, 4937970796206928857851358820526118004nat, m, 2468985398103464428925679410263059002nat, 192798016473563838591034729251461576421497545536061941564707074169968906int, 181220408298258287500333736042887790793435594560774385691845931226685883int, 191660228522809556656524616873016277475868773646671365425378870345823243int, 0int, 191660228522809556656524616873016277475868773646671365425378870345823243int);
    lemma_pow_mod_step(10int, 9875941592413857715702717641052236009nat, m, 4937970796206928857851358820526118004nat, 191660228522809556656524616873016277475868773646671365425378870345823243int, 179087793144409074678836725536315556181505458549220260386630908010108277int, 178648451221043758269772707678181306184551648056251342935131915127897282int, 8int, 145562256038792255520809472030353840015083162950224603910219119635793852int);
    lemma_pow_mod_step(10int, 19751883184827715431405435282104472018nat, m, 9875941592413857715702717641052236009nat, 145562256038792255520809472030353840015083162950224603910219119635793852int, 103299813520898682591778551962625484185399619991267260858429354530028027int, 53941581282420516965436674513881145470153758011826736259334299688880887int, 0int, 53941581282420516965436674513881145470153758011826736259334299688880887int);
    lemma_pow_mod_step(10int, 39503766369655430862810870564208944037nat, m, 19751883184827715431405435282104472018nat, 53941581282420516965436674513881145470153758011826736259334299688880887int, 14185652880528018555585973523221106101338794187617005346334140943947925int, 176493578340594974066516027941355451015016205011602249406920721568001594int, 8int, 124013527234304413488242674662095288319728732503733668628107184036836972int);
    lemma_pow_mod_step(10int, 79007532739310861725621741128417888075nat, m, 39503766369655430862810870564208944037nat, 124013527234304413488242674662095288319728732503733668628107184036836972int, 74979079011211053514029943352264854249761534618157027733732792102979330int, 9566245591271826162443488017567270400999011627449378542881655356787354int, 0int, 95662455912718261624434880175672704009990116274493785428816553567873540int);
    lemma_pow_mod_step(10int, 158015065478621723451243482256835776150nat, m, 79007532739310861725621741128417888075nat, 95662455912718261624434880175672704009990116274493785428816553567873540int, 44615424950616363348820896344660862958169104752637082670834853931300545int, 46795558352015332845990866202351509272116611731271130707922907128264405int, 0int, 46795558352015332845990866202351509272116611731271130707922907128264405int);
    lemma_pow_mod_step(10int, 316030130957243446902486964513671552300nat, m, 158015065478621723451243482256835776150nat, 46795558352015332845990866202351509272116611731271130707922907128264405int, 10676065965907941806220259637203257260092703364072386651554829306528540int, 76649812875413796202782143116786225567007668713848700145255687337535685int, 0int, 76649812875413796202782143116786225567007668713848700145255687337535685int);
    lemma_pow_mod_step(10int, 632060261914486893804973929027343104601nat, m, 316030130957243446902486964513671552300nat, 76649812875413796202782143116786225567007668713848700145255687337535685int, 28643374379200999259539974393077875300758232765586260981277902659711748int, 83519670562160743653012809315250200356229903640950559331343772991404717int, 4int, 14735577535784772941669290776772392647082377603361180592887714092457686int);
    lemma_pow_mod_step(10int, 1264120523828973787609947858054686209202nat, m, 632060261914486893804973929027343104601nat, 14735577535784772941669290776772392647082377603361180592887714092457686int, 1058610763533512058973875347452032616378293598772479011095552975310870int, 133440835026732280940213939072770929648466542136769106284127188594751826int, 0int, 133440835026732280940213939072770929648466542136769106284127188594751826int);
    lemma_pow_mod_step(10int, 2528241047657947575219895716109372418404nat, m, 1264120523828973787609947858054686209202nat, 133440835026732280940213939072770929648466542136769106284127188594751826int, 86811944371697144957878078312180621038930830392010399246064576001822349int, 6644075190674193459069247452424452386615052608694357705395000086689797int, 0int, 6644075190674193459069247452424452386615052608694357705395000086689797int);
    lemma_pow_mod_step(10int, 5056482095315895150439791432218744836809nat, m, 2528241047657947575219895716109372418404nat, 6644075190674193459069247452424452386615052608694357705395000086689797int, 215214267334380062201120086220628283858254053468076169464046258173161int, 25394002334048460140004489507688309494068687820963066878907112621741478int, 1int, 48824741319028935502930194482950692211882713508094565608933622262017409int);
}

proof fn lemma_certificate_full_11()
    requires
        pow_mod(10int, 5056482095315895150439791432218744836809nat, 205115282021455665897114700593932402728804164701536103180137503955397371int) == 48824741319028935502930194482950692211882713508094565608933622262017409int,
    ensures
        pow_mod(10int, 20711350662413906536201385706367978851572587nat, 205115282021455665897114700593932402728804164701536103180137503955397371int) == 176261691597511668808421740010041922733951783355325099451027911459559357int,
{
    let m: int = 205115282021455665897114700593932402728804164701536103180137503955397371int;
    lemma_pow_mod_step(10int, 10112964190631790300879582864437489673619nat, m, 5056482095315895150439791432218744836809nat, 48824741319028935502930194482950692211882713508094565608933622262017409int, 11622027093138448193706068973118759719349247017448099974551565084966598int, 154395334945112397583751891213361262990907501847838281859266645267059423int, 7int, 108146375300934314557716007976085810807445865567630096331703924982812633int);
    lemma_pow_mod_step(10int, 20225928381263580601759165728874979347238nat, m, 10112964190631790300879582864437489673619nat, 108146375300934314557716007976085810807445865567630096331703924982812633int, 57019829899885943826324099951715630457929822292524935385684705073309083int, 198961532679924560605521460424829594164749753949660009390874846415771896int, 0int, 198961532679924560605521460424829594164749753949660009390874846415771896int);
    lemma_pow_mod_step(10int, 40451856762527161203518331457749958694477nat, m, 20225928381263580601759165728874979347238nat, 198961532679924560605521460424829594164749753949660009390874846415771896int, 192992404545478519512220524673262284485074475405773075544267155851282271int, 51810730583191891424208167800008333317584572587298420345050639811125275int, 2int, 107876741789007582447852276812218527718237396469911997090231390200458008int);
    lemma_pow_mod_step(10int, 80903713525054322407036662915499917388955nat, m, 40451856762527161203518331457749958694477nat, 107876741789007582447852276812218527718237396469911997090231390200458008int, 56735857534958849416216596659014490124406299559241260323122294937897080int, 165158140780995160406068481980743450242535098725892050279780934470751384int, 8int, 10659151638306276883767215055975280594917669646631677356709313064334872int);
    lemma_pow_mod_step(10int, 161807427050108644814073325830999834777910nat, m, 80903713525054322407036662915499917388955nat, 10659151638306276883767215055975280594917669646631677356709313064334872int, 553920276093921944641661448986708426039903733691762678921692037500462int, 166602354262281303490824906254003477914576293872562749716738886949170982int, 0int, 166602354262281303490824906254003477914576293872562749716738886949170982int);
    lemma_pow_mod_step(10int, 323614854100217289628146651661999669555821nat, m, 161807427050108644814073325830999834777910nat, 166602354262281303490824906254003477914576293872562749716738886949170982int, 135320704397009703985911275536186202875019137210827019854706626038585917int, 203547361400575766960857540747974812010094832955076925192447276411420117int, 9int, 189436075812656676534543102134356495541710847236944323303235228515624831int);
    lemma_pow_mod_step(10int, 647229708200434579256293303323999339111643nat, m, 323614854100217289628146651661999669555821nat, 189436075812656676534543102134356495541710847236944323303235228515624831int, 174955402959906338125040071483447510486941412212704150951901162708807607int, 55112311084162595074488934891026125549568611254561678911138555071177364int, 2int, 140892546798714618950659947722396450038077783142544582751110542800978898int);
    lemma_pow_mod_step(10int, 1294459416400869158512586606647998678223286nat, m, 647229708200434579256293303323999339111643nat, 140892546798714618950659947722396450038077783142544582751110542800978898int, 96778307046627301024898196782829233796086324022512991809772324047489677int, 46005888251080296584166125845217986550151590343111039719664379485855237int, 0int, 46005888251080296584166125845217986550151590343111039719664379485855237int);
    lemma_pow_mod_step(10int, 2588918832801738317025173213295997356446573nat, m, 1294459416400869158512586606647998678223286nat, 46005888251080296584166125845217986550151590343111039719664379485855237int, 10318791134974972441609894474927624815394751594383610921097164759019783int, 158549450989330110100267818892156529407944413256785352991517759105135676int, 7int, 149687535743111439722875284764038474977814979657100807654215063363575163int);
    lemma_pow_mod_step(10int, 5177837665603476634050346426591994712893146nat, m, 2588918832801738317025173213295997356446573nat, 149687535743111439722875284764038474977814979657100807654215063363575163int, 109237878991880738569698297138519043344367542844083831691756591781544312int, 108546084094304257687936283676539608937358805365195167459206859145672817int, 0int, 108546084094304257687936283676539608937358805365195167459206859145672817int);
    lemma_pow_mod_step(10int, 10355675331206953268100692853183989425786293nat, m, 5177837665603476634050346426591994712893146nat, 108546084094304257687936283676539608937358805365195167459206859145672817int, 57442099175113209135084782868736748724090069553712743744216865620314431int, 204248604209467584843155383919064211913150089865630801951009691041954588int, 9int, 196448503901574855357521533845250494572263416342483090888859374820969541int);
    lemma_pow_mod_step(10int, 20711350662413906536201385706367978851572587nat, m, 10355675331206953268100692853183989425786293nat, 196448503901574855357521533845250494572263416342483090888859374820969541int, 188147924936817882496978991752232651007215776036708272896622467985992554int, 79160753766187866649976584179183913092036427745993340899144042332575147int, 3int, 176261691597511668808421740010041922733951783355325099451027911459559357int);
}

proof fn lemma_certificate_full_12()
    requires
        pow_mod(10int, 20711350662413906536201385706367978851572587nat, 205115282021455665897114700593932402728804164701536103180137503955397371int) == 176261691597511668808421740010041922733951783355325099451027911459559357int,
    ensures
        pow_mod(10int, 84833692313247361172280875853283241376041319148nat, 205115282021455665897114700593932402728804164701536103180137503955397371int) == 121941447820132259025243881822730881650985381577547260597125448799290822int,
{
    let m: int = 205115282021455665897114700593932402728804164701536103180137503955397371int;
    lemma_pow_mod_step(10int, 41422701324827813072402771412735957703145175nat, m, 20711350662413906536201385706367978851572587nat, 176261691597511668808421740010041922733951783355325099451027911459559357int, 151466939072664959164901270085549912127259387591622055179249718477252682int, 201474881064422266825085225839348539748684781439979179526430874920754427int, 9int, 168711272451121675176819953048093772927610332085966866643071213608967931int);
    lemma_pow_mod_step(10int, 82845402649655626144805542825471915406290350nat, m, 41422701324827813072402771412735957703145175nat, 168711272451121675176819953048093772927610332085966866643071213608967931int, 138768273000249887731924528225881154880946301341859996757957612648693367int, 108965527928257729539839664441671705084344381215532486705341956569482604int, 0int, 108965527928257729539839664441671705084344381215532486705341956569482604int);
    lemma_pow_mod_step(10int, 165690805299311252289611085650943830812580701nat, m, 82845402649655626144805542825471915406290350nat, 108965527928257729539839664441671705084344381215532486705341956569482604int, 57886892481477384113299884880312988389551046061925430133084069513457457int, 50731907646722201304193162409170478875311578886517549615128909720475269int, 2int, 97088512424310681247702222903839983295507459462103289791014089293957948int);
    lemma_pow_mod_step(10int, 331381610598622504579222171301887661625161402nat, m, 165690805299311252289611085650943830812580701nat, 97088512424310681247702222903839983295507459462103289791014089293957948int, 45955519022612480204440867618269758985742837760435573182840250566400509int, 103123206764903915889527829947329915445780953218765793876160684960708865int, 0int, 103123206764903915889527829947329915445780953218765793876160684960708865int);
    lemma_pow_mod_step(10int, 662763221197245009158444342603775323250322805nat, m, 331381610598622504579222171301887661625161402nat, 103123206764903915889527829947329915445780953218765793876160684960708865int, 51845945697818534423147262556648708963347048165144717312794688383517163int, 192630576971538973039183304149019217364363459421640512444648317026009752int, 9int, 80268231522288737317800736144800549084397111902580195825245634661521181int);
    lemma_pow_mod_step(10int, 1325526442394490018316888685207550646500645611nat, m, 662763221197245009158444342603775323250322805nat, 80268231522288737317800736144800549084397111902580195825245634661521181int, 31411550266848432952922058896892008660190148878787678359834847201306591int, 145960443564913523684826449691651691639385495817352893624660483105262500int, 7int, 23797461498945575568461592758990097292225805262776213985642303364843403int);
    lemma_pow_mod_step(10int, 2651052884788980036633777370415101293001291223nat, m, 1325526442394490018316888685207550646500645611nat, 23797461498945575568461592758990097292225805262776213985642303364843403int, 2760979914380822867118810092397028713253510148409633621094681112336843int, 21152216846962134184521513895695142549789019902732152197931922243980656int, 1int, 6406886448165675948100438363019022769086034325785418799181718484409189int);
    lemma_pow_mod_step(10int, 5302105769577960073267554740830202586002582446nat, m, 2651052884788980036633777370415101293001291223nat, 6406886448165675948100438363019022769086034325785418799181718484409189int, 200122553303440491748244293539551349910088811975896141386961164387450int, 204691772833171727446749518512952766885773838717637239236993447832243771int, 0int, 204691772833171727446749518512952766885773838717637239236993447832243771int);
    lemma_pow_mod_step(10int, 10604211539155920146535109481660405172005164893nat, m, 5302105769577960073267554740830202586002582446nat, 204691772833171727446749518512952766885773838717637239236993447832243771int, 204269138080136071271318181142502312624237171505129703130825606765974724int, 107376235760930185199061569208818213900777684918246569853600732806249837int, 5int, 48185947502023522505042189118520125363756025674785182635319808285511515int);
    lemma_pow_mod_step(10int, 21208423078311840293070218963320810344010329787nat, m, 10604211539155920146535109481660405172005164893nat, 48185947502023522505042189118520125363756025674785182635319808285511515int, 11319905146925575470143142331896633165091699157415446466012422824131289int, 104039842001044640411989117372282907931723000256315070700548269328154006int, 5int, 14822009903168074634317670753167065673209179055470191104795173504553205int);
    lemma_pow_mod_step(10int, 42416846156623680586140437926641620688020659574nat, m, 21208423078311840293070218963320810344010329787nat, 14822009903168074634317670753167065673209179055470191104795173504553205int, 1071065867957278998748288975503146844973352501085261784299204954887734int, 152557119467397025425025989200055218476778104837988184526554750012024711int, 0int, 152557119467397025425025989200055218476778104837988184526554750012024711int);
    lemma_pow_mod_step(10int, 84833692313247361172280875853283241376041319148nat, m, 42416846156623680586140437926641620688020659574nat, 152557119467397025425025989200055218476778104837988184526554750012024711int, 113466312557614079587057059417975139220935470913315770444455266214297169int, 121941447820132259025243881822730881650985381577547260597125448799290822int, 0int, 121941447820132259025243881822730881650985381577547260597125448799290822int);
}

proof fn lemma_certificate_full_13()
    requires
        pow_mod(10int, 84833692313247361172280875853283241376041319148nat, 205115282021455665897114700593932402728804164701536103180137503955397371int) == 121941447820132259025243881822730881650985381577547260597125448799290822int,
    ensures
        pow_mod(10int, 347478803715061191361662467495048156676265243231443nat, 205115282021455665897114700593932402728804164701536103180137503955397371int) == 169331083694116842872289357264651847166128550683047008513356214246361926int,
{
    let m: int = 205115282021455665897114700593932402728804164701536103180137503955397371int;
    lemma_pow_mod_step(10int, 169667384626494722344561751706566482752082638296nat, m, 84833692313247361172280875853283241376041319148nat, 121941447820132259025243881822730881650985381577547260597125448799290822int, 72494436055303875734859548500743290678197302988847969390161230735940514int, 69202914473075195460194408256723078837030878604645293317203825845446990int, 0int, 69202914473075195460194408256723078837030878604645293317203825845446990int);
    lemma_pow_mod_step(10int, 339334769252989444689123503413132965504165276593nat, m, 169667384626494722344561751706566482752082638296nat, 69202914473075195460194408256723078837030878604645293317203825845446990int, 23348057367401870327285251864951628226402953543684546252467867640796102int, 204528096141382719485103924074616330629123695477871084087848238702212258int, 9int, 199243423220726201777006935400771681731999472464885912257244851423546241int);
    lemma_pow_mod_step(10int, 678669538505978889378247006826265931008330553186nat, m, 339334769252989444689123503413132965504165276593nat, 199243423220726201777006935400771681731999472464885912257244851423546241int, 193539658798123558474716819997406856645519902241053817795802886015190782int, 28529525499644447351540614597004082405124893062440238823478315078995959int, 0int, 28529525499644447351540614597004082405124893062440238823478315078995959int);
    lemma_pow_mod_step(10int, 1357339077011957778756494013652531862016661106372nat, m, 678669538505978889378247006826265931008330553186nat, 28529525499644447351540614597004082405124893062440238823478315078995959int, 3968177393772750998227551706669951639116470504893259892266174699778930int, 3051006228944355514536510620878889612712735995158039781891237535136651int, 0int, 3051006228944355514536510620878889612712735995158039781891237535136651int);
    lemma_pow_mod_step(10int, 2714678154023915557512988027305063724033322212745nat, m, 1357339077011957778756494013652531862016661106372nat, 3051006228944355514536510620878889612712735995158039781891237535136651int, 45382474271632017608172870423827023595549339596048093874410342962433int, 182640283072543681236650133773557111782709376598727865165959493403532158int, 8int, 185480574553791485189583732984111895996660448374989826218494902392142612int);
    lemma_pow_mod_step(10int, 5429356308047831115025976054610127448066644425491nat, m, 2714678154023915557512988027305063724033322212745nat, 185480574553791485189583732984111895996660448374989826218494902392142612int, 167725403966760220114991648055977489195712495745431749726293292270889802int, 72327164228386262920897908857096899082048291952203475780716733484672002int, 3int, 107925796219495631517634986789171782634070425417426448266754822980527907int);
    lemma_pow_mod_step(10int, 10858712616095662230051952109220254896133288850982nat, m, 5429356308047831115025976054610127448066644425491nat, 107925796219495631517634986789171782634070425417426448266754822980527907int, 56787467880592556776516018361768592268096645296027092632580614144204182int, 150937770096207880950126608999391920425308061150474294590494448035795127int, 0int, 150937770096207880950126608999391920425308061150474294590494448035795127int);
    lemma_pow_mod_step(10int, 21717425232191324460103904218440509792266577701965nat, m, 10858712616095662230051952109220254896133288850982nat, 150937770096207880950126608999391920425308061150474294590494448035795127int, 111070273346247401240990182539991304423475854538211048218673025131780905int, 1837727685369381550530736481463748219364435313546113029890462931945374int, 0int, 18377276853693815505307364814637482193644353135461130298904629319453740int);
    lemma_pow_mod_step(10int, 43434850464382648920207808436881019584533155403930nat, m, 21717425232191324460103904218440509792266577701965nat, 18377276853693815505307364814637482193644353135461130298904629319453740int, 1646509715068346299611632485312994524772337249882564210950313539987767int, 113814991984823674849292278395618107852099219261959337411119795036027043int, 0int, 113814991984823674849292278395618107852099219261959337411119795036027043int);
    lemma_pow_mod_step(10int, 86869700928765297840415616873762039169066310807860nat, m, 43434850464382648920207808436881019584533155403930nat, 113814991984823674849292278395618107852099219261959337411119795036027043int, 63154009164224370314372804707098141104442896614762843380681941065469862int, 11103903021262297953842149821774727597009283960622902922968886792791047int, 0int, 11103903021262297953842149821774727597009283960622902922968886792791047int);
    lemma_pow_mod_step(10int, 173739401857530595680831233747524078338132621615721nat, m, 86869700928765297840415616873762039169066310807860nat, 11103903021262297953842149821774727597009283960622902922968886792791047int, 601109098700411764228161960465826771626991993605222800670403609942797int, 15795458407244697252872690734627469563887962716813590518380779489169522int, 0int, 157954584072446972528726907346274695638879627168135905183807794891695220int);
    lemma_pow_mod_step(10int, 347478803715061191361662467495048156676265243231443nat, m, 173739401857530595680831233747524078338132621615721nat, 157954584072446972528726907346274695638879627168135905183807794891695220int, 121637209980726406738011289548809281991485183353872789764914003490164529int, 98979221177993950646074815964038145808134520948919142123390623006795141int, 4int, 169331083694116842872289357264651847166128550683047008513356214246361926int);
}

proof fn lemma_certificate_full_14()
    requires
        pow_mod(10int, 347478803715061191361662467495048156676265243231443nat, 205115282021455665897114700593932402728804164701536103180137503955397371int) == 169331083694116842872289357264651847166128550683047008513356214246361926int,
    ensures
        pow_mod(10int, 1423273180016890639817369466859717249745982436275993526nat, 205115282021455665897114700593932402728804164701536103180137503955397371int) == 156894353484063468832072892109927324183227292469666902125490849128737921int,
{
    let m: int = 205115282021455665897114700593932402728804164701536103180137503955397371int;
    lemma_pow_mod_step(10int, 694957607430122382723324934990096313352530486462887nat, m, 347478803715061191361662467495048156676265243231443nat, 169331083694116842872289357264651847166128550683047008513356214246361926int, 139789759312154618369048185681448415090881678089724085968355601857799578int, 202117998470716525541667397256502677011407502494755821007472359916320038int, 9int, 175142446514064262342641667219635145554837542633733281453486063564624041int);
    lemma_pow_mod_step(10int, 1389915214860244765446649869980192626705060972925774nat, m, 694957607430122382723324934990096313352530486462887nat, 175142446514064262342641667219635145554837542633733281453486063564624041int, 149549444920067818031764385211377040290564671354259142753896177537834028int, 38888294004305443458152110990289386120185145269546176316333506289629293int, 0int, 38888294004305443458152110990289386120185145269546176316333506289629293int);
    lemma_pow_mod_step(10int, 2779830429720489530893299739960385253410121945851549nat, m, 1389915214860244765446649869980192626705060972925774nat, 38888294004305443458152110990289386120185145269546176316333506289629293int, 7372924121797554340092820004629551771162356531085778125777364665705874int, 58634719871302500783580792350573966955052786781131362066151335484822595int, 2int, 176116634670113676041578522317874864092919538408241414301238346937431208int);
    lemma_pow_mod_step(10int, 5559660859440979061786599479920770506820243891703099nat, m, 2779830429720489530893299739960385253410121945851549nat, 176116634670113676041578522317874864092919538408241414301238346937431208int, 151217738151181778962630946840315287251390038900620486174192541324740755int, 88197936534456451082034238516022841140112804485886115294680266148784159int, 4int, 61518237258741847231883582784498800485911386052716740226252645666252106int);
    lemma_pow_mod_step(10int, 11119321718881958123573198959841541013640487783406199nat, m, 5559660859440979061786599479920770506820243891703099nat, 61518237258741847231883582784498800485911386052716740226252645666252106int, 18450568276170589756737580487647610643624324338213771360208448943432594int, 27000794241055858492947526134600951209354768780235144018016598726124862int, 1int, 64892660389102919032360560752077109364743523100815337000028483305851249int);
    lemma_pow_mod_step(10int, 22238643437763916247146397919683082027280975566812398nat, m, 11119321718881958123573198959841541013640487783406199nat, 64892660389102919032360560752077109364743523100815337000028483305851249int, 20530198095795504597288458297819176055160235781966154894837242389738860int, 134098357314309138672349222054573254547502341225848364301282676294322941int, 0int, 134098357314309138672349222054573254547502341225848364301282676294322941int);
    lemma_pow_mod_step(10int, 44477286875527832494292795839366164054561951133624797nat, m, 22238643437763916247146397919683082027280975566812398nat, 134098357314309138672349222054573254547502341225848364301282676294322941int, 87669574188602476619716971222642952690849652693417529197108721250645621int, 108184490148185312452943588258328531958801855003904115243103204242827090int, 5int, 56268491374574795043862379613623305943997726531360636530344522651284045int);
    lemma_pow_mod_step(10int, 88954573751055664988585591678732328109123902267249595nat, m, 44477286875527832494292795839366164054561951133624797nat, 56268491374574795043862379613623305943997726531360636530344522651284045int, 15435920182872625558698557635015775052033769139914881187861412855320356int, 76631317656406841587529694950526411857057478604641247338444147786377949int, 3int, 150967330499701418183952847723466910384162291941804163844028965997587377int);
    lemma_pow_mod_step(10int, 177909147502111329977171183357464656218247804534499190nat, m, 88954573751055664988585591678732328109123902267249595nat, 150967330499701418183952847723466910384162291941804163844028965997587377int, 111113782715722068198107233312974069262379647970273778029248633003487038int, 80709240793379032101166861667315108587572911228331246212868720811963031int, 0int, 80709240793379032101166861667315108587572911228331246212868720811963031int);
    lemma_pow_mod_step(10int, 355818295004222659954342366714929312436495609068998381nat, m, 177909147502111329977171183357464656218247804534499190nat, 80709240793379032101166861667315108587572911228331246212868720811963031int, 31757660790785234107963063389087883366476513387248553328010838641670490int, 48645410788861475789720420003798917687609401280772955136720936516425171int, 2int, 76223543845703426102974798850124371418485683404657345006934357253456968int);
    lemma_pow_mod_step(10int, 711636590008445319908684733429858624872991218137996763nat, m, 355818295004222659954342366714929312436495609068998381nat, 76223543845703426102974798850124371418485683404657345006934357253456968int, 28325674124028098718229268460179113750809135557794492845877239556424528int, 191925402256656885695360686294088572344103880007587542321920802416637136int, 9int, 73216484373467863879574557595494098881801317762050494597970488567795021int);
    lemma_pow_mod_step(10int, 1423273180016890639817369466859717249745982436275993526nat, m, 711636590008445319908684733429858624872991218137996763nat, 73216484373467863879574557595494098881801317762050494597970488567795021int, 26134832720311515652258212483337506194033966485265918658283912927008120int, 156894353484063468832072892109927324183227292469666902125490849128737921int, 0int, 156894353484063468832072892109927324183227292469666902125490849128737921int);
}

proof fn lemma_certificate_full_15()
    requires
        pow_mod(10int, 1423273180016890639817369466859717249745982436275993526nat, 205115282021455665897114700593932402728804164701536103180137503955397371int) == 156894353484063468832072892109927324183227292469666902125490849128737921int,
    ensures
        pow_mod(10int, 5829726945349184060691945336257401854959544058986469485152nat, 205115282021455665897114700593932402728804164701536103180137503955397371int) == 70386338051231711838976684798136873336923113779702627237962992860312690int,
{
    let m: int = 205115282021455665897114700593932402728804164701536103180137503955397371int;
    lemma_pow_mod_step(10int, 2846546360033781279634738933719434499491964872551987053nat, m, 1423273180016890639817369466859717249745982436275993526nat, 156894353484063468832072892109927324183227292469666902125490849128737921int, 120009771639576660974081580318951684162165066058288421610898098617783542int, 32984315219272782550338656357634047182488341875569414007438554429534159int, 1int, 124727870171272159606271862982408069096079254054158036894248040339944219int);
    lemma_pow_mod_step(10int, 5693092720067562559269477867438868998983929745103974106nat, m, 2846546360033781279634738933719434499491964872551987053nat, 124727870171272159606271862982408069096079254054158036894248040339944219int, 75845356056085624697275021239692724856989323806807656170288953962404310int, 17923570697666368557358974375756113599096602442178878009864551418450951int, 0int, 17923570697666368557358974375756113599096602442178878009864551418450951int);
    lemma_pow_mod_step(10int, 11386185440135125118538955734877737997967859490207948213nat, m, 5693092720067562559269477867438868998983929745103974106nat, 17923570697666368557358974375756113599096602442178878009864551418450951int, 1566213806149462396260731883656836513833000380126558530534198571881940int, 77316075589310177377988909300496530115369137379238423445813420394424661int, 3int, 157814909828734776088544991223168092967278879687775924917721692078054497int);
    lemma_pow_mod_step(10int, 22772370880270250237077911469755475995935718980415896426nat, m, 11386185440135125118538955734877737997967859490207948213nat, 157814909828734776088544991223168092967278879687775924917721692078054497int, 121422185216050817683132796806271789001660648809977763887695123794678999int, 65320512004489323283828611398780948354972134396855013026834996068411380int, 0int, 65320512004489323283828611398780948354972134396855013026834996068411380int);
    lemma_pow_mod_step(10int, 45544741760540500474155822939510951991871437960831792852nat, m, 22772370880270250237077911469755475995935718980415896426nat, 65320512004489323283828611398780948354972134396855013026834996068411380int, 20801810798682065475428843728773866377453647593472269572486712574601588int, 15690317882142580384012272832279508864884607374531439813627314365879252int, 0int, 15690317882142580384012272832279508864884607374531439813627314365879252int);
    lemma_pow_mod_step(10int, 91089483521081000948311645879021903983742875921663585705nat, m, 45544741760540500474155822939510951991871437960831792852nat, 15690317882142580384012272832279508864884607374531439813627314365879252int, 1200232731644692551639574381946934274933919569789738674128578346947060int, 126086746918586658640157249041186294025765709609734997709813956043900244int, 6int, 30175777057132591018884286848268523884832107888133358017314536706618214int);
    lemma_pow_mod_step(10int, 182178967042162001896623291758043807967485751843327171411nat, m, 91089483521081000948311645879021903983742875921663585705nat, 30175777057132591018884286848268523884832107888133358017314536706618214int, 4439345094270062969543095176707570176514179825205832950673561678694571int, 89413717068160450414552366108296207859432258258478018681799355511176955int, 4int, 73676042595781840557064858707232467679105923778635774097443539290180066int);
    lemma_pow_mod_step(10int, 364357934084324003793246583516087615934971503686654342822nat, m, 182178967042162001896623291758043807967485751843327171411nat, 73676042595781840557064858707232467679105923778635774097443539290180066int, 26463943588599403521957715179174643564997359335690361815691785521890905int, 177213660267548510530907113202640988925000882632840121341770970117953601int, 0int, 177213660267548510530907113202640988925000882632840121341770970117953601int);
    lemma_pow_mod_step(10int, 728715868168648007586493167032175231869943007373308685644nat, m, 364357934084324003793246583516087615934971503686654342822nat, 177213660267548510530907113202640988925000882632840121341770970117953601int, 153107467546650565797477364314745697448701426837866834881864312071964990int, 198980371137990637499473539504890075917486153181103816337140107738825911int, 0int, 198980371137990637499473539504890075917486153181103816337140107738825911int);
    lemma_pow_mod_step(10int, 1457431736337296015172986334064350463739886014746617371288nat, m, 728715868168648007586493167032175231869943007373308685644nat, 198980371137990637499473539504890075917486153181103816337140107738825911int, 193028952830881381071234012863094674091174815068101341706479922455587155int, 74683716915268878916672990966919642290610742655416259844762883616610416int, 0int, 74683716915268878916672990966919642290610742655416259844762883616610416int);
    lemma_pow_mod_step(10int, 2914863472674592030345972668128700927479772029493234742576nat, m, 1457431736337296015172986334064350463739886014746617371288nat, 74683716915268878916672990966919642290610742655416259844762883616610416int, 27192793814829357142289386109016950659633264899613326772848614765651419int, 82143083551423194510981324172334389384130832048641348281025157304673607int, 0int, 82143083551423194510981324172334389384130832048641348281025157304673607int);
    lemma_pow_mod_step(10int, 5829726945349184060691945336257401854959544058986469485152nat, m, 2914863472674592030345972668128700927479772029493234742576nat, 82143083551423194510981324172334389384130832048641348281025157304673607int, 32896067561803048584229561611819915338197887053604927334332015383174029int, 70386338051231711838976684798136873336923113779702627237962992860312690int, 0int, 70386338051231711838976684798136873336923113779702627237962992860312690int);
}

proof fn lemma_certificate_full_16()
    requires
        pow_mod(10int, 5829726945349184060691945336257401854959544058986469485152nat, 205115282021455665897114700593932402728804164701536103180137503955397371int) == 70386338051231711838976684798136873336923113779702627237962992860312690int,
    ensures
        pow_mod(10int, 23878561568150257912594208097310317997914292465608579011184338nat, 205115282021455665897114700593932402728804164701536103180137503955397371int) == 174710012674542220243093334383153920725048802449754536058296524642921551int,
{
    let m: int = 205115282021455665897114700593932402728804164701536103180137503955397371int;
    lemma_pow_mod_step(10int, 11659453890698368121383890672514803709919088117972938970304nat, m, 5829726945349184060691945336257401854959544058986469485152nat, 70386338051231711838976684798136873336923113779702627237962992860312690int, 24153425017566664568710171460984860163145682243421278208667841211833901int, 151330312972308877806738021574948685307690097330761587393154118470961829int, 0int, 151330312972308877806738021574948685307690097330761587393154118470961829int);
    lemma_pow_mod_step(10int, 23318907781396736242767781345029607419838176235945877940609nat, m, 11659453890698368121383890672514803709919088117972938970304nat, 151330312972308877806738021574948685307690097330761587393154118470961829int, 111648744055557296178561315319229970487772940542763694898240431895097460int, 83141184877451090210134183991124627233202048254756519661605647302247581int, 4int, 10950720688688238512883037535516661416803823741420783895506457200886326int);
    lemma_pow_mod_step(10int, 46637815562793472485535562690059214839676352471891755881219nat, m, 23318907781396736242767781345029607419838176235945877940609nat, 10950720688688238512883037535516661416803823741420783895506457200886326int, 584638464866410105973045992881423572327965238523391456847262951638236int, 57719376179925857515900572875875018472738763252706804587463701156300720int, 2int, 166963197756347243364776327570885379269779303123995839514362003652212458int);
    lemma_pow_mod_step(10int, 93275631125586944971071125380118429679352704943783511762438nat, m, 46637815562793472485535562690059214839676352471891755881219nat, 166963197756347243364776327570885379269779303123995839514362003652212458int, 135907520543053105165632359492923308325341226218429725327929815815750664int, 188161272291462478340483551587126412041628567323965262395813441593297420int, 0int, 188161272291462478340483551587126412041628567323965262395813441593297420int);
    lemma_pow_mod_step(10int, 186551262251173889942142250760236859358705409887567023524877nat, m, 93275631125586944971071125380118429679352704943783511762438nat, 188161272291462478340483551587126412041628567323965262395813441593297420int, 172608613270650661111085254353392763830404105658878483055691502406989700int, 162654651565898384002093381006175294807146875973450325753849037174577700int, 7int, 190739541508794178741130905904226128969839606823750535277527844057995403int);
    lemma_pow_mod_step(10int, 373102524502347779884284501520473718717410819775134047049755nat, m, 186551262251173889942142250760236859358705409887567023524877nat, 190739541508794178741130905904226128969839606823750535277527844057995403int, 177371341308344822660005917919743163751159437960485763940916509348339103int, 177542971124847552371638332514480314328353092606360419742785819546434196int, 8int, 134507455076830196539465720393343921453097608451315371986758163821162992int);
    lemma_pow_mod_step(10int, 746205049004695559768569003040947437434821639550268094099510nat, m, 373102524502347779884284501520473718717410819775134047049755nat, 134507455076830196539465720393343921453097608451315371986758163821162992int, 88205302369196410803082450896375812036890742532484830831807793157848253int, 122087018603718190840159069525073148500086275055150967784663783497249201int, 0int, 122087018603718190840159069525073148500086275055150967784663783497249201int);
    lemma_pow_mod_step(10int, 1492410098009391119537138006081894874869643279100536188199021nat, m, 746205049004695559768569003040947437434821639550268094099510nat, 122087018603718190840159069525073148500086275055150967784663783497249201int, 72667623614633937293480924454676225167862432446727549631063142500566469int, 37553713463056003191197288923664809160958797531567428456805056401785402int, 1int, 170421852609104366014858188642715688880783810614138181387913060062456649int);
    lemma_pow_mod_step(10int, 2984820196018782239074276012163789749739286558201072376398042nat, m, 1492410098009391119537138006081894874869643279100536188199021nat, 170421852609104366014858188642715688880783810614138181387913060062456649int, 141596508853402962047107026580394626982251636451256803793203122247405520int, 4444383678771799173252873475960421453873858618621008400393307625421281int, 0int, 4444383678771799173252873475960421453873858618621008400393307625421281int);
    lemma_pow_mod_step(10int, 5969640392037564478148552024327579499478573116402144752796084nat, m, 2984820196018782239074276012163789749739286558201072376398042nat, 4444383678771799173252873475960421453873858618621008400393307625421281int, 96299730032143466266163391623548338407596736847790448913993688024202int, 81942890311127698400366221749220192269455997197433149200187789952508019int, 0int, 81942890311127698400366221749220192269455997197433149200187789952508019int);
    lemma_pow_mod_step(10int, 11939280784075128956297104048655158998957146232804289505592169nat, m, 5969640392037564478148552024327579499478573116402144752796084nat, 81942890311127698400366221749220192269455997197433149200187789952508019int, 32735919071301253342597799255233588297569662026914539525457641270815320int, 114151512949627858952543767435309325809627820563322936003087492504780641int, 5int, 115938719389000260039864171383431244452257382125548844130187405270819555int);
    lemma_pow_mod_step(10int, 23878561568150257912594208097310317997914292465608579011184338nat, m, 11939280784075128956297104048655158998957146232804289505592169nat, 115938719389000260039864171383431244452257382125548844130187405270819555int, 65532838514466679972888205849665081280671992651500553920942470059231694int, 174710012674542220243093334383153920725048802449754536058296524642921551int, 0int, 174710012674542220243093334383153920725048802449754536058296524642921551int);
}

proof fn lemma_certificate_full_17()
    requires
        pow_mod(10int, 23878561568150257912594208097310317997914292465608579011184338nat, 205115282021455665897114700593932402728804164701536103180137503955397371int) == 174710012674542220243093334383153920725048802449754536058296524642921551int,
    ensures
        pow_mod(10int, 97806588183143456409985876366583062519456941939132739629811050393nat, 205115282021455665897114700593932402728804164701536103180137503955397371int) == 118328817684342725313737295797682613092925082191817581182799049338978764int,
{
    let m: int = 205115282021455665897114700593932402728804164701536103180137503955397371int;
    lemma_pow_mod_step(10int, 47757123136300515825188416194620635995828584931217158022368676nat, m, 23878561568150257912594208097310317997914292465608579011184338nat, 174710012674542220243093334383153920725048802449754536058296524642921551int, 148811869247001525187544939345978553187028051869156717396125413269992812int, 67495347382768274012022882625930068244018714717214040263257486966548349int, 0int, 67495347382768274012022882625930068244018714717214040263257486966548349int);
    lemma_pow_mod_step(10int, 95514246272601031650376832389241271991657169862434316044737353nat, m, 47757123136300515825188416194620635995828584931217158022368676nat, 67495347382768274012022882625930068244018714717214040263257486966548349int, 22210056088575752993304640062234371785730231293989370568039063253463016int, 47160439558431155188860307057971145244390658224328464381846618822494865int, 2int, 61373831541400220094373669391846646986298252840212437458191180314153908int);
    lemma_pow_mod_step(10int, 191028492545202063300753664778482543983314339724868632089474707nat, m, 95514246272601031650376832389241271991657169862434316044737353nat, 61373831541400220094373669391846646986298252840212437458191180314153908int, 18364049528392329172161501807568555981246240475651545485893764620419536int, 105555508675048680145773300204478934772452750923374945383855312300232608int, 5int, 29978676643208471972159499075127334080506685726068937937865603225339225int);
    lemma_pow_mod_step(10int, 382056985090404126601507329556965087966628679449737264178949415nat, m, 191028492545202063300753664778482543983314339724868632089474707nat, 29978676643208471972159499075127334080506685726068937937865603225339225int, 4381541172461466296905436132269395933167189402118323322740016459896512int, 117693487816206303706706136523923505539146204405025885766761725826730673int, 5int, 151358468054784707581487862269573041747441220542578341766929738490319875int);
    lemma_pow_mod_step(10int, 764113970180808253203014659113930175933257358899474528357898831nat, m, 382056985090404126601507329556965087966628679449737264178949415nat, 151358468054784707581487862269573041747441220542578341766929738490319875int, 111690292532639733889715819085238039161138707657900809259457061923415568int, 85334753866665703430167759968762782213177759614375485280436938812343897int, 4int, 32886410580834370713218797311898211216560937337610440083819372301849486int);
    lemma_pow_mod_step(10int, 1528227940361616506406029318227860351866514717798949056715797662nat, m, 764113970180808253203014659113930175933257358899474528357898831nat, 32886410580834370713218797311898211216560937337610440083819372301849486int, 5272722686640603774075107547170160250710312833615175805206639445033519int, 158224771845313274103226296434222130666937435295260400499705716138985647int, 0int, 158224771845313274103226296434222130666937435295260400499705716138985647int);
    lemma_pow_mod_step(10int, 3056455880723233012812058636455720703733029435597898113431595324nat, m, 1528227940361616506406029318227860351866514717798949056715797662nat, 158224771845313274103226296434222130666937435295260400499705716138985647int, 122053696724960243638026170495042938699556031685855521391271533531530323int, 164412576415726886393585372628243795207409022704777101877867628871027776int, 0int, 164412576415726886393585372628243795207409022704777101877867628871027776int);
    lemma_pow_mod_step(10int, 6112911761446466025624117272911441407466058871195796226863190649nat, m, 3056455880723233012812058636455720703733029435597898113431595324nat, 164412576415726886393585372628243795207409022704777101877867628871027776int, 131786842098043471612197353372283165899416969583782394699404917115650108int, 117827654424428610035150306565965917856130644974275222283594702424440108int, 5int, 152700134137007770865929562689997164917285626235071706935259504467414225int);
    lemma_pow_mod_step(10int, 12225823522892932051248234545822882814932117742391592453726381299nat, m, 6112911761446466025624117272911441407466058871195796226863190649nat, 152700134137007770865929562689997164917285626235071706935259504467414225int, 113679150259614025696390732011520973214767627951563324416933658266516279int, 129315592649763863766887008654335377304823009895004095693411450447048116int, 6int, 62464234368904642286181882979759356675405110740824337853289480738096934int);
    lemma_pow_mod_step(10int, 24451647045785864102496469091645765629864235484783184907452762598nat, m, 12225823522892932051248234545822882814932117742391592453726381299nat, 62464234368904642286181882979759356675405110740824337853289480738096934int, 19022378717180663957876827785589974116983973915419121164669259722033009int, 156626735827521172912991058890223367132796928120591718401912669406381017int, 0int, 156626735827521172912991058890223367132796928120591718401912669406381017int);
    lemma_pow_mod_step(10int, 48903294091571728204992938183291531259728470969566369814905525196nat, m, 24451647045785864102496469091645765629864235484783184907452762598nat, 156626735827521172912991058890223367132796928120591718401912669406381017int, 119600714945354445200880600569373492381984937692798647558833985419445102int, 43012501567569914692562627200343641102683301320017019696903788248327447int, 0int, 43012501567569914692562627200343641102683301320017019696903788248327447int);
    lemma_pow_mod_step(10int, 97806588183143456409985876366583062519456941939132739629811050393nat, m, 48903294091571728204992938183291531259728470969566369814905525196nat, 43012501567569914692562627200343641102683301320017019696903788248327447int, 9019685285597983941139137168728559399298264590109871349055787811961810int, 134902050981307672069642549936127702946575007040103420026362407307136299int, 6int, 118328817684342725313737295797682613092925082191817581182799049338978764int);
}

proof fn lemma_certificate_full_18()
    requires
        pow_mod(10int, 97806588183143456409985876366583062519456941939132739629811050393nat, 205115282021455665897114700593932402728804164701536103180137503955397371int) == 118328817684342725313737295797682613092925082191817581182799049338978764int,
    ensures
        pow_mod(10int, 400615785198155597455302149597524224079695634182687701523706062412885nat, 205115282021455665897114700593932402728804164701536103180137503955397371int) == 8086585477736310995102411749293770909655888454922527927550137658910517int,
{
    let m: int = 205115282021455665897114700593932402728804164701536103180137503955397371int;
    lemma_pow_mod_step(10int, 195613176366286912819971752733166125038913883878265479259622100787nat, m, 97806588183143456409985876366583062519456941939132739629811050393nat, 118328817684342725313737295797682613092925082191817581182799049338978764int, 68262632391816614874797894194666061666452092583095986073068870253450696int, 168462059363581249784644968513492320628357425937106274442558487806447480int, 8int, 43698337464167170669532080383463984453140941758773918984484846421295832int);
    lemma_pow_mod_step(10int, 391226352732573825639943505466332250077827767756530958519244201575nat, m, 195613176366286912819971752733166125038913883878265479259622100787nat, 43698337464167170669532080383463984453140941758773918984484846421295832int, 9309616905738364643152069852634965894051839989955956525720877578481212int, 85528808029142919089876155744023685358205015442964844371026489942878572int, 4int, 34826952205606527310302755064507242666833495623504030989714883607196236int);
    lemma_pow_mod_step(10int, 782452705465147651279887010932664500155655535513061917038488403150nat, m, 391226352732573825639943505466332250077827767756530958519244201575nat, 34826952205606527310302755064507242666833495623504030989714883607196236int, 5913340966007236307321448748932471553042133169638249717658894836676031int, 19640235133812257411110247909103132866385353743109746264231697616453195int, 0int, 19640235133812257411110247909103132866385353743109746264231697616453195int);
    lemma_pow_mod_step(10int, 1564905410930295302559774021865329000311311071026123834076976806300nat, m, 782452705465147651279887010932664500155655535513061917038488403150nat, 19640235133812257411110247909103132866385353743109746264231697616453195int, 1880595303820823824568329746458322127505448930720405933583085828960344int, 55432893862610660734375108892174655417903880179388582786621271304852401int, 0int, 55432893862610660734375108892174655417903880179388582786621271304852401int);
    lemma_pow_mod_step(10int, 3129810821860590605119548043730658000622622142052247668153953612600nat, m, 1564905410930295302559774021865329000311311071026123834076976806300nat, 55432893862610660734375108892174655417903880179388582786621271304852401int, 14980871691764215211068228430741557226171703677258692423000327151844025int, 202090102619967959943792666339507436287716175847149979374997054108406526int, 0int, 202090102619967959943792666339507436287716175847149979374997054108406526int);
    lemma_pow_mod_step(10int, 6259621643721181210239096087461316001245244284104495336307907225201nat, m, 3129810821860590605119548043730658000622622142052247668153953612600nat, 202090102619967959943792666339507436287716175847149979374997054108406526int, 199109540617637417808226509066879765763399051585698981165202807817122872int, 67234448914137594629023175575510640678600618652282589703934726186619164int, 3int, 56998643077008948598887653973309198599593692418217587498934749999999527int);
    lemma_pow_mod_step(10int, 12519243287442362420478192174922632002490488568208990672615814450402nat, m, 6259621643721181210239096087461316001245244284104495336307907225201nat, 56998643077008948598887653973309198599593692418217587498934749999999527int, 15839118765809079518381053552144360071356926432590117047828359727278066int, 131376834293459725743774700510275944057765197062772800069133560757859243int, 0int, 131376834293459725743774700510275944057765197062772800069133560757859243int);
    lemma_pow_mod_step(10int, 25038486574884724840956384349845264004980977136417981345231628900805nat, m, 12519243287442362420478192174922632002490488568208990672615814450402nat, 131376834293459725743774700510275944057765197062772800069133560757859243int, 84147180155819602227209261965941139799262551284505485689170477714062998int, 103094291311934563374436297330797008753878690628384567446096920182954791int, 5int, 5366503012067304258789470338308073894766082776165158560281682052561055int);
    lemma_pow_mod_step(10int, 50076973149769449681912768699690528009961954272835962690463257801610nat, m, 25038486574884724840956384349845264004980977136417981345231628900805nat, 5366503012067304258789470338308073894766082776165158560281682052561055int, 140405699149783249148760251716857406419547922860492084297304131560090int, 149117041527850106998345012668520885447850982699166453752216466388189635int, 0int, 149117041527850106998345012668520885447850982699166453752216466388189635int);
    lemma_pow_mod_step(10int, 100153946299538899363825537399381056019923908545671925380926515603221nat, m, 50076973149769449681912768699690528009961954272835962690463257801610nat, 149117041527850106998345012668520885447850982699166453752216466388189635int, 108406803505224116923168525098389524735677394322574498523067457807864483int, 50268912774505791435795117129328927175327342947585394130457913538959032int, 2int, 92458563702146582563721770105424466295665100072781734944304127478795578int);
    lemma_pow_mod_step(10int, 200307892599077798727651074798762112039847817091343850761853031206442nat, m, 100153946299538899363825537399381056019923908545671925380926515603221nat, 92458563702146582563721770105424466295665100072781734944304127478795578int, 41676982415038632573061872269319696926149417045581991786538899889984444int, 57679174344219842336436866138469809682216585839500551223619358483857360int, 0int, 57679174344219842336436866138469809682216585839500551223619358483857360int);
    lemma_pow_mod_step(10int, 400615785198155597455302149597524224079695634182687701523706062412885nat, m, 200307892599077798727651074798762112039847817091343850761853031206442nat, 57679174344219842336436866138469809682216585839500551223619358483857360int, 16219596707976669584701290308035696827635506546258186341033744381319947int, 62343243154210330868644651353109097909606838255953083746796264952510263int, 3int, 8086585477736310995102411749293770909655888454922527927550137658910517int);
}

proof fn lemma_certificate_full_19()
    requires
        pow_mod(10int, 400615785198155597455302149597524224079695634182687701523706062412885nat, 205115282021455665897114700593932402728804164701536103180137503955397371int) == 8086585477736310995102411749293770909655888454922527927550137658910517int,
    ensures
        pow_mod(10int, 205115282021455665897114700593932402728804164701536103180137503955397370nat, 205115282021455665897114700593932402728804164701536103180137503955397371int) == 1int,
{
    let m: int = 205115282021455665897114700593932402728804164701536103180137503955397371int;
    lemma_pow_mod_step(10int, 801231570396311194910604299195048448159391268365375403047412124825770nat, m, 400615785198155597455302149597524224079695634182687701523706062412885nat, 8086585477736310995102411749293770909655888454922527927550137658910517int, 318810300452871735990728103565242324935999514742927618648721424586299int, 43374721378697035570117318471538406664214620505176113330912205585987360int, 0int, 43374721378697035570117318471538406664214620505176113330912205585987360int);
    lemma_pow_mod_step(10int, 1602463140792622389821208598390096896318782536730750806094824249651541nat, m, 801231570396311194910604299195048448159391268365375403047412124825770nat, 43374721378697035570117318471538406664214620505176113330912205585987360int, 9172239318973810853435060200317983521566131203143935936767938862041953int, 62642455003619178746445545770133040871203667333871555222291813491864037int, 3int, 11078703971824789773111355919533200525624179234107242682505623052448257int);
    lemma_pow_mod_step(10int, 3204926281585244779642417196780193792637565073461501612189648499303083nat, m, 1602463140792622389821208598390096896318782536730750806094824249651541nat, 11078703971824789773111355919533200525624179234107242682505623052448257int, 598383896537205098879869375367258121357599661889945486513762456705665int, 128848213530051102825565387767831019588905586490806813935339453000531334int, 6int, 57790443171777032872965674114715779516230876698851520272569506272929114int);
    lemma_pow_mod_step(10int, 6409852563170489559284834393560387585275130146923003224379296998606167nat, m, 3204926281585244779642417196780193792637565073461501612189648499303083nat, 57790443171777032872965674114715779516230876698851520272569506272929114int, 16282235477905758767129566762199471960682327940785748236235097041477597int, 106454219819787241008044037006121794012846433289809052221107804139627509int, 5int, 38965788090594080594866867091555926484443509390410006310390521619288235int);
    lemma_pow_mod_step(10int, 12819705126340979118569668787120775170550260293846006448758593997212335nat, m, 6409852563170489559284834393560387585275130146923003224379296998606167nat, 38965788090594080594866867091555926484443509390410006310390521619288235int, 7402337975784083190692404300448283075011601008092465205045134336360718int, 164045576700148475872909625898082993964778959203790024076050774324542847int, 7int, 204648792851295097449293354823303120546160439127147518499545215557646873int);
    lemma_pow_mod_step(10int, 25639410252681958237139337574241550341100520587692012897517187994424671nat, m, 12819705126340979118569668787120775170550260293846006448758593997212335nat, 204648792851295097449293354823303120546160439127147518499545215557646873int, 204183364607184175233628751828860721899397100507368529092341416895206197int, 184124963666953416904060377502159541745113967120583553510894350849970042int, 8int, 200327380497888841863686170270136195620706353593546709667843476856521452int);
    lemma_pow_mod_step(10int, 51278820505363916474278675148483100682201041175384025795034375988849342nat, m, 25639410252681958237139337574241550341100520587692012897517187994424671nat, 200327380497888841863686170270136195620706353593546709667843476856521452int, 195651240520187603781317762044073353475170103668095877822676675902329733int, 193723128387713915503461738990293310580207034693851090952741723052856361int, 0int, 193723128387713915503461738990293310580207034693851090952741723052856361int);
    lemma_pow_mod_step(10int, 102557641010727832948557350296966201364402082350768051590068751977698685nat, m, 51278820505363916474278675148483100682201041175384025795034375988849342nat, 193723128387713915503461738990293310580207034693851090952741723052856361int, 182963697792137599674849771306576236389617768341832530133063471324176104int, 20511528202145566589711470059393240272880416470153610318013750395539737int, 0int, 205115282021455665897114700593932402728804164701536103180137503955397370int);
    lemma_pow_mod_step(10int, 205115282021455665897114700593932402728804164701536103180137503955397370nat, m, 102557641010727832948557350296966201364402082350768051590068751977698685nat, 205115282021455665897114700593932402728804164701536103180137503955397370int, 205115282021455665897114700593932402728804164701536103180137503955397369int, 1int, 0int, 1int);
}

proof fn lemma_certificate_full()
    ensures
        pow_mod(10int, 205115282021455665897114700593932402728804164701536103180137503955397370nat, 205115282021455665897114700593932402728804164701536103180137503955397371int) == 1int,
{
    lemma_pow_mod_zero(10int, 205115282021455665897114700593932402728804164701536103180137503955397371int);
    lemma_certificate_full_0();
    lemma_certificate_full_1();
    lemma_certificate_full_2();
    lemma_certificate_full_3();
    lemma_certificate_full_4();
    lemma_certificate_full_5();
    lemma_certificate_full_6();
    lemma_certificate_full_7();
    lemma_certificate_full_8();
    lemma_certificate_full_9();
    lemma_certificate_full_10();
    lemma_certificate_full_11();
    lemma_certificate_full_12();
    lemma_certificate_full_13();
    lemma_certificate_full_14();
    lemma_certificate_full_15();
    lemma_certificate_full_16();
    lemma_certificate_full_17();
    lemma_certificate_full_18();
    lemma_certificate_full_19();
}

proof fn lemma_certificate_2_0()
    requires
        pow_mod(10int, 0nat, 205115282021455665897114700593932402728804164701536103180137503955397371int) == 1int,
    ensures
        pow_mod(10int, 3804nat, 205115282021455665897114700593932402728804164701536103180137503955397371int) == 67215330545053355740955458102018692855627318322599146752679400003626493int,
{
    let m: int = 205115282021455665897114700593932402728804164701536103180137503955397371int;
    lemma_pow_mod_step(10int, 1nat, m, 0nat, 1int, 0int, 1int, 0int, 10int);
    lemma_pow_mod_step(10int, 3nat, m, 1nat, 10int, 0int, 100int, 0int, 1000int);
    lemma_pow_mod_step(10int, 7nat, m, 3nat, 1000int, 0int, 1000000int, 0int, 10000000int);
    lemma_pow_mod_step(10int, 14nat, m, 7nat, 10000000int, 0int, 100000000000000int, 0int, 100000000000000int);
    lemma_pow_mod_step(10int, 29nat, m, 14nat, 100000000000000int, 0int, 10000000000000000000000000000int, 0int, 100000000000000000000000000000int);
    lemma_pow_mod_step(10int, 59nat, m, 29nat, 100000000000000000000000000000int, 0int, 10000000000000000000000000000000000000000000000000000000000int, 0int, 100000000000000000000000000000000000000000000000000000000000int);
    lemma_pow_mod_step(10int, 118nat, m, 59nat, 100000000000000000000000000000000000000000000000000000000000int, 48753071450590260688123541262918071666855467577int, 66249036369092368987035784810614146017500214344230318878458208958459933int, 0int, 66249036369092368987035784810614146017500214344230318878458208958459933int);
    lemma_pow_mod_step(10int, 237nat, m, 118nat, 66249036369092368987035784810614146017500214344230318878458208958459933int, 21397405286331750932313865151567475859371601662974925211551087120845728int, 9805021884408975843753478304514651354233346677962523127020419338583401int, 0int, 98050218844089758437534783045146513542333466779625231270204193385834010int);
    lemma_pow_mod_step(10int, 475nat, m, 237nat, 98050218844089758437534783045146513542333466779625231270204193385834010int, 46870449245065307546285004919475136905302398984836729936680755187087278int, 195277245050279367736803998134613674001709713548806179682851110723933962int, 9int, 106734912309692684294007676000745115457859653174236868207273571640763281int);
    lemma_pow_mod_step(10int, 951nat, m, 475nat, 106734912309692684294007676000745115457859653174236868207273571640763281int, 55541163941973442277026853995799532599258102870939138516704444492212544int, 159982902909430988781376454849028295171492864297236875774357557767063137int, 7int, 164022054944120226533961644332756132613299490061616035482613049982849773int);
    lemma_pow_mod_step(10int, 1902nat, m, 951nat, 164022054944120226533961644332756132613299490061616035482613049982849773int, 131161531422499453028074825519341026122299058846308251868210129636279229int, 156405005163081193348175699702907607396905589584584741426073881677644570int, 0int, 156405005163081193348175699702907607396905589584584741426073881677644570int);
    lemma_pow_mod_step(10int, 3804nat, m, 1902nat, 156405005163081193348175699702907607396905589584584741426073881677644570int, 119262326039190985911233104260718541354599676911773287684363349725346117int, 67215330545053355740955458102018692855627318322599146752679400003626493int, 0int, 67215330545053355740955458102018692855627318322599146752679400003626493int);
}

proof fn lemma_certificate_2_1()
    requires
        pow_mod(10int, 3804nat, 205115282021455665897114700593932402728804164701536103180137503955397371int) == 67215330545053355740955458102018692855627318322599146752679400003626493int,
    ensures
        pow_mod(10int, 15581488nat, 205115282021455665897114700593932402728804164701536103180137503955397371int) == 179176058734562140003011497558287426222039245845971322406873946692625133int,
{
    let m: int = 205115282021455665897114700593932402728804164701536103180137503955397371int;
    lemma_pow_mod_step(10int, 7608nat, m, 3804nat, 67215330545053355740955458102018692855627318322599146752679400003626493int, 22026153369733791248450110694345142437133608107512466561876743881526234int, 6709142846424936811509875018360782318219882847211913598497350020348235int, 0int, 6709142846424936811509875018360782318219882847211913598497350020348235int);
    lemma_pow_mod_step(10int, 15216nat, m, 7608nat, 6709142846424936811509875018360782318219882847211913598497350020348235int, 219450239348945498061693909724820036173046109823221111601068393514887int, 186887347835949308571211815192256877081895296366645626968306073178453148int, 0int, 186887347835949308571211815192256877081895296366645626968306073178453148int);
    lemma_pow_mod_step(10int, 30432nat, m, 15216nat, 186887347835949308571211815192256877081895296366645626968306073178453148int, 170279271426990269562586307673484807648878669147821996910112408690279489int, 34534950497415168475077085977596484007848282005971825842834589985286485int, 0int, 34534950497415168475077085977596484007848282005971825842834589985286485int);
    lemma_pow_mod_step(10int, 60865nat, m, 30432nat, 34534950497415168475077085977596484007848282005971825842834589985286485int, 5814597499050120171995563737657815188281779685098796709507244551034875int, 162836387943663103378061403618037116763465112532283655637318867619341600int, 7int, 192556905286441372500811132022844348533021972412083834112226148505634403int);
    lemma_pow_mod_step(10int, 121730nat, m, 60865nat, 192556905286441372500811132022844348533021972412083834112226148505634403int, 180767427019957819955336060999306928657572240690053013173016535666557671int, 153705600244561651635777792925764014225821930902582292170812993003883468int, 0int, 153705600244561651635777792925764014225821930902582292170812993003883468int);
    lemma_pow_mod_step(10int, 243460nat, m, 121730nat, 153705600244561651635777792925764014225821930902582292170812993003883468int, 115181137717811307958145702049326422566094864754649929451039875778623118int, 170997182187514710335289954687799254174501477969162580794957070386684246int, 0int, 170997182187514710335289954687799254174501477969162580794957070386684246int);
    lemma_pow_mod_step(10int, 486921nat, m, 243460nat, 170997182187514710335289954687799254174501477969162580794957070386684246int, 142554157973521952163462324453079324170361549284834599968017744695649727int, 107339297727941301118997715754823881517461668854168455432178520791920799int, 5int, 47816567172134681704403654578576801530595865034004038421097688142221135int);
    lemma_pow_mod_step(10int, 973843nat, m, 486921nat, 47816567172134681704403654578576801530595865034004038421097688142221135int, 11147019732484395677481513311490952435796755124121774619584059295882027int, 2828077758483650288495107690689980595605488051719543395546230518737208int, 0int, 28280777584836502884951076906899805956054880517195433955462305187372080int);
    lemma_pow_mod_step(10int, 1947686nat, m, 973843nat, 28280777584836502884951076906899805956054880517195433955462305187372080int, 3899282261764040982987782545408878446046745721402374623024911853528500int, 190516976174204569934206414208175050871018622963867881352293730389952900int, 0int, 190516976174204569934206414208175050871018622963867881352293730389952900int);
    lemma_pow_mod_step(10int, 3895372nat, m, 1947686nat, 190516976174204569934206414208175050871018622963867881352293730389952900int, 176957649634149090657951550664540014115799260474512557083581624120151775int, 91382951001774083799752686594235291135088837685815774804876245262426475int, 0int, 91382951001774083799752686594235291135088837685815774804876245262426475int);
    lemma_pow_mod_step(10int, 7790744nat, m, 3895372nat, 91382951001774083799752686594235291135088837685815774804876245262426475int, 40712928122630667969420853108024587454376410196674241107869189145082521int, 162315297720581025675197380368041503038134402651311112859041763639473334int, 0int, 162315297720581025675197380368041503038134402651311112859041763639473334int);
    lemma_pow_mod_step(10int, 15581488nat, m, 7790744nat, 162315297720581025675197380368041503038134402651311112859041763639473334int, 128446089508654745320326767612416248042453329764297725728339445964722613int, 179176058734562140003011497558287426222039245845971322406873946692625133int, 0int, 179176058734562140003011497558287426222039245845971322406873946692625133int);
}

proof fn lemma_certificate_2_2()
    requires
        pow_mod(10int, 15581488nat, 205115282021455665897114700593932402728804164701536103180137503955397371int) == 179176058734562140003011497558287426222039245845971322406873946692625133int,
    ensures
        pow_mod(10int, 63821776687nat, 205115282021455665897114700593932402728804164701536103180137503955397371int) == 8509849072203147133704970730071230067393653895624158666900112072997801int,
{
    let m: int = 205115282021455665897114700593932402728804164701536103180137503955397371int;
    lemma_pow_mod_step(10int, 31162976nat, m, 15581488nat, 179176058734562140003011497558287426222039245845971322406873946692625133int, 156517153218710841820751237085067839983988541306068188790143909131459615int, 18943023072526118476639798631256564140632079598689270117398456299595524int, 0int, 18943023072526118476639798631256564140632079598689270117398456299595524int);
    lemma_pow_mod_step(10int, 62325953nat, m, 31162976nat, 18943023072526118476639798631256564140632079598689270117398456299595524int, 1749446065597010639992157819941048784864773726848935500004928507563486int, 32365011777720153803978881334811014189008993265748659808794799860839270int, 1int, 118534835755745872142674112754177739161285767955950494907810494652995329int);
    lemma_pow_mod_step(10int, 124651907nat, m, 62325953nat, 118534835755745872142674112754177739161285767955950494907810494652995329int, 68500538571143253063527951239397453790482110566894943207177967041137756int, 46272552209792595603899630051778798151586261813457253139677022764578765int, 2int, 52494958055014624244766899329923176058254288731500325036495219734992908int);
    lemma_pow_mod_step(10int, 249303815nat, m, 124651907nat, 52494958055014624244766899329923176058254288731500325036495219734992908int, 13434984434311862944959494563048651330454449242136895953696829221832876int, 104791342545480774055485612536780502657601255615272492086504545278527468int, 5int, 22337015347529411069282622398143012931991732645044404964357933008287825int);
    lemma_pow_mod_step(10int, 498607630nat, m, 249303815nat, 22337015347529411069282622398143012931991732645044404964357933008287825int, 2432496738997602428474353912087586838830989337710526727062019596253310int, 162529337301740404350413544812550483020864513602662591077104314219182615int, 0int, 162529337301740404350413544812550483020864513602662591077104314219182615int);
    lemma_pow_mod_step(10int, 997215260nat, m, 498607630nat, 162529337301740404350413544812550483020864513602662591077104314219182615int, 128785067711238285190602750910570498247948163409480331240800824334370287int, 10882357377422098141243760798488516366026113326744439307379680577922748int, 0int, 10882357377422098141243760798488516366026113326744439307379680577922748int);
    lemma_pow_mod_step(10int, 1994430521nat, m, 997215260nat, 10882357377422098141243760798488516366026113326744439307379680577922748int, 577361671557682799299180984331742121962660514894371591206787249833420int, 56946819134356832282784862623347656784735622954647022323318552999932684int, 2int, 159237627300656991033619225045611762389747900143398016872910522088532098int);
    lemma_pow_mod_step(10int, 3988861042nat, m, 1994430521nat, 159237627300656991033619225045611762389747900143398016872910522088532098int, 123621320159316861303409263607889246573918415469249525154345547301532145int, 59871110645196612176712274689677357665983506885851390973734353771290809int, 0int, 59871110645196612176712274689677357665983506885851390973734353771290809int);
    lemma_pow_mod_step(10int, 7977722085nat, m, 3988861042nat, 59871110645196612176712274689677357665983506885851390973734353771290809int, 17475781689998215547711906785382624197881537005359383750609321237704802int, 205006311631029311289471864405004912925267512746878459705825626142998939int, 9int, 204025578117192119820686338704657504693437645154959668437018725831413051int);
    lemma_pow_mod_step(10int, 15955444171nat, m, 7977722085nat, 204025578117192119820686338704657504693437645154959668437018725831413051int, 202941663418819351810835205569568388956320985806431491948219645194967160int, 189055742841048878848770408070665272034548706315684375164781724277792241int, 9int, 44519890217387795413671775361261095786249580843018823026579707179346071int);
    lemma_pow_mod_step(10int, 31910888343nat, m, 15955444171nat, 44519890217387795413671775361261095786249580843018823026579707179346071int, 9662959314562121699665167356864854835271072088572145689732398644060214int, 43555985170604410369956346777743690528339293409281696980062671961839647int, 2int, 25329287663132771905334066589572099825784604689744763440351711707601728int);
    lemma_pow_mod_step(10int, 63821776687nat, m, 31910888343nat, 25329287663132771905334066589572099825784604689744763440351711707601728int, 3127864521838112583852055499511675395397974388659320688841553175890670int, 185454738726530414020773727607546285462663113620944908728813764767157414int, 9int, 8509849072203147133704970730071230067393653895624158666900112072997801int);
}

proof fn lemma_certificate_2_3()
    requires
        pow_mod(10int, 63821776687nat, 205115282021455665897114700593932402728804164701536103180137503955397371int) == 8509849072203147133704970730071230067393653895624158666900112072997801int,
    ensures
        pow_mod(10int, 261413997310426nat, 205115282021455665897114700593932402728804164701536103180137503955397371int) == 191007405779495481345495331594086067724515424843395436822646680295487206int,
{
    let m: int = 205115282021455665897114700593932402728804164701536103180137503955397371int;
    lemma_pow_mod_step(10int, 127643553374nat, m, 63821776687nat, 8509849072203147133704970730071230067393653895624158666900112072997801int, 353057707441328900424183213175567265203566331437746990975773109229961int, 172193284752466796845243604656319898435839583998415514550057919377003070int, 0int, 172193284752466796845243604656319898435839583998415514550057919377003070int);
    lemma_pow_mod_step(10int, 255287106748nat, m, 127643553374nat, 172193284752466796845243604656319898435839583998415514550057919377003070int, 144555427667952021761278827871706806886479633774888126610251516259265699int, 12229252439578864415311617630489772183298978055125108509478174574347571int, 0int, 12229252439578864415311617630489772183298978055125108509478174574347571int);
    lemma_pow_mod_step(10int, 510574213496nat, m, 255287106748nat, 12229252439578864415311617630489772183298978055125108509478174574347571int, 729124684211982563177049587572283349526954392775345478045589243929266int, 184793409294585874532507019493288830804179996222237747691047143867240355int, 0int, 184793409294585874532507019493288830804179996222237747691047143867240355int);
    lemma_pow_mod_step(10int, 1021148426993nat, m, 510574213496nat, 184793409294585874532507019493288830804179996222237747691047143867240355int, 166484933653769844265522601077597430129376588259524594100002667961780411int, 158800326331033062319243235175499075552799979964794543250692697191826544int, 7int, 152196289160140961912629447597463936426370646737192710245964444230483843int);
    lemma_pow_mod_step(10int, 2042296853987nat, m, 1021148426993nat, 152196289160140961912629447597463936426370646737192710245964444230483843int, 112930202985530100876049484523642745460873601398981161362327703070580936int, 161616459634961592730793961237331937368639859359892900117534924186929393int, 7int, 180357622199426266028136708215792554584769440688176278914386714181512333int);
    lemma_pow_mod_step(10int, 4084593707975nat, m, 2042296853987nat, 180357622199426266028136708215792554584769440688176278914386714181512333int, 158588241523751321097442844118601551304717453995077303785416615187229684int, 13810331993556012063777065247647593701184446809559608424797286164342125int, 0int, 138103319935560120637770652476475937011844468095596084247972861643421250int);
    lemma_pow_mod_step(10int, 8169187415950nat, m, 4084593707975nat, 138103319935560120637770652476475937011844468095596084247972861643421250int, 92984427046389623193282182743567100738210454094899776124172252680295154int, 193880067116405185437130846626582664873012630452216309688921249315922366int, 0int, 193880067116405185437130846626582664873012630452216309688921249315922366int);
    lemma_pow_mod_step(10int, 16338374831901nat, m, 8169187415950nat, 193880067116405185437130846626582664873012630452216309688921249315922366int, 183260262495360089028514643858927830108078278971673405771170324724727406int, 177561300241191973606430639222596022570993859154602719935589128954988330int, 8int, 134690746240274408887388787474501003879505273933738373914791257906704332int);
    lemma_pow_mod_step(10int, 32676749663803nat, m, 16338374831901nat, 134690746240274408887388787474501003879505273933738373914791257906704332int, 88445858075383822607549951298985483164431436387484823871719280107797063int, 168356034765401866750389892888032405798424550093113848792807794075844851int, 8int, 42638091482373340326981324128864836153812183318849662486977909115269542int);
    lemma_pow_mod_step(10int, 65353499327606nat, m, 32676749663803nat, 42638091482373340326981324128864836153812183318849662486977909115269542int, 8863341762458582168287116014867903138259249970498395598657957477712941int, 201573551907616809213066328287845157756513481669869236037419365388811653int, 0int, 201573551907616809213066328287845157756513481669869236037419365388811653int);
    lemma_pow_mod_step(10int, 130706998655213nat, m, 65353499327606nat, 201573551907616809213066328287845157756513481669869236037419365388811653int, 198092976926031632567548413952905778906364350848709223851297942507840544int, 148200017126924321912101263861988690018691620725575076742873556883782585int, 7int, 46193197119053557841209734462360081085287054344998045167773041150044253int);
    lemma_pow_mod_step(10int, 261413997310426nat, m, 130706998655213nat, 46193197119053557841209734462360081085287054344998045167773041150044253int, 10402986257535579033645979573021244981083217335709487226284592102894393int, 191007405779495481345495331594086067724515424843395436822646680295487206int, 0int, 191007405779495481345495331594086067724515424843395436822646680295487206int);
}

proof fn lemma_certificate_2_4()
    requires
        pow_mod(10int, 261413997310426nat, 205115282021455665897114700593932402728804164701536103180137503955397371int) == 191007405779495481345495331594086067724515424843395436822646680295487206int,
    ensures
        pow_mod(10int, 1070751732983505669nat, 205115282021455665897114700593932402728804164701536103180137503955397371int) == 49248794374659950972934017828696995953454681934396266290033447741604210int,
{
    let m: int = 205115282021455665897114700593932402728804164701536103180137503955397371int;
    lemma_pow_mod_step(10int, 522827994620852nat, m, 261413997310426nat, 191007405779495481345495331594086067724515424843395436822646680295487206int, 177869872508068546798846723355978548676972973923926594962905477528066630int, 203305025405491633142559440648274787190885880568756009186425521894856706int, 0int, 203305025405491633142559440648274787190885880568756009186425521894856706int);
    lemma_pow_mod_step(10int, 1045655989241704nat, m, 522827994620852nat, 203305025405491633142559440648274787190885880568756009186425521894856706int, 201510745312502123391262470730142633234512232778741667503059502925641025int, 37737538025098164822542042756955571470492069683211477603971357498425161int, 0int, 37737538025098164822542042756955571470492069683211477603971357498425161int);
    lemma_pow_mod_step(10int, 2091311978483409nat, m, 1045655989241704nat, 37737538025098164822542042756955571470492069683211477603971357498425161int, 6943031070921193200518494105288163805496979602234100584322949651736595int, 92893288225349182565278647372178485269813836960576540203397801670384176int, 4int, 108471754167669162064327671346055241782921710799620989313428000882252276int);
    lemma_pow_mod_step(10int, 4182623956966819nat, m, 2091311978483409nat, 108471754167669162064327671346055241782921710799620989313428000882252276int, 57363455985597801939681333377837440062039389920823395559924552289813282int, 125346573391512599184084487258396294043913656259242128330870592803498554int, 6int, 22774041786391996458156669020368524066311574383204664227880904302601314int);
    lemma_pow_mod_step(10int, 8365247913933638nat, m, 4182623956966819nat, 22774041786391996458156669020368524066311574383204664227880904302601314int, 2528612076959120487792603617959575775366931409376016058661516922025154int, 124058979057081630796546246637636506958897465181868616072457961107056462int, 0int, 124058979057081630796546246637636506958897465181868616072457961107056462int);
    lemma_pow_mod_step(10int, 16730495827867276nat, m, 8365247913933638nat, 124058979057081630796546246637636506958897465181868616072457961107056462int, 75034049793888654149729017347210004692976138493015233981031813406697652int, 152386165122901600650733178880805103626788959760982638004884603543284552int, 0int, 152386165122901600650733178880805103626788959760982638004884603543284552int);
    lemma_pow_mod_step(10int, 33460991655734552nat, m, 16730495827867276nat, 152386165122901600650733178880805103626788959760982638004884603543284552int, 113212156071507095263608924075873332011561222948315926960346853442322901int, 63875339419735796871789355747670128235919971559446210067490013693347433int, 0int, 63875339419735796871789355747670128235919971559446210067490013693347433int);
    lemma_pow_mod_step(10int, 66921983311469104nat, m, 33460991655734552nat, 63875339419735796871789355747670128235919971559446210067490013693347433int, 19891540726642042962990083759244517565057737359299994615244726328995494int, 120646054759058030640304802721626965065537096402623629170355662809243215int, 0int, 120646054759058030640304802721626965065537096402623629170355662809243215int);
    lemma_pow_mod_step(10int, 133843966622938208nat, m, 66921983311469104nat, 120646054759058030640304802721626965065537096402623629170355662809243215int, 70962389469367199875342083511888956260072979312864962454346034456451367int, 112228197674104574712995056717535159753005986818995220539255590002380068int, 0int, 112228197674104574712995056717535159753005986818995220539255590002380068int);
    lemma_pow_mod_step(10int, 267687933245876417nat, m, 133843966622938208nat, 112228197674104574712995056717535159753005986818995220539255590002380068int, 61405314265469501030216696460807201315918708868018660149740339302001278int, 22084332406539258165692874253296728398884262603985656323657074683844486int, 1int, 15728042043936915759814041939034881260038461338320460056433242883047489int);
    lemma_pow_mod_step(10int, 535375866491752834nat, m, 267687933245876417nat, 15728042043936915759814041939034881260038461338320460056433242883047489int, 1206011098236802968099206150990681850835389650415287753867424269831009int, 138463893460120200485771551885641712233900400361266594645062876216327782int, 0int, 138463893460120200485771551885641712233900400361266594645062876216327782int);
    lemma_pow_mod_step(10int, 1070751732983505669nat, m, 535375866491752834nat, 138463893460120200485771551885641712233900400361266594645062876216327782int, 93470606398454716426372771550704034940333567146549789609161545542031693int, 4924879437465995097293401782869699595345468193439626629003344774160421int, 0int, 49248794374659950972934017828696995953454681934396266290033447741604210int);
}

proof fn lemma_certificate_2_5()
    requires
        pow_mod(10int, 1070751732983505669nat, 205115282021455665897114700593932402728804164701536103180137503955397371int) == 49248794374659950972934017828696995953454681934396266290033447741604210int,
    ensures
        pow_mod(10int, 4385799098300439220789nat, 205115282021455665897114700593932402728804164701536103180137503955397371int) == 4753704174765748303104000214883193804954460406566865270739991403235121int,
{
    let m: int = 205115282021455665897114700593932402728804164701536103180137503955397371int;
    lemma_pow_mod_step(10int, 2141503465967011338nat, m, 1070751732983505669nat, 49248794374659950972934017828696995953454681934396266290033447741604210int, 11824783231430942493514190041132798581106846514052054178289219110337821int, 126759815221525089369894074758267711947065884337346795444939868184455509int, 0int, 126759815221525089369894074758267711947065884337346795444939868184455509int);
    lemma_pow_mod_step(10int, 4283006931934022676nat, m, 2141503465967011338nat, 126759815221525089369894074758267711947065884337346795444939868184455509int, 78336682652999097606753624066528282267255517296727981350564483136991785int, 47451097912938196306537155564535184643791101953324455050220819562851846int, 0int, 47451097912938196306537155564535184643791101953324455050220819562851846int);
    lemma_pow_mod_step(10int, 8566013863868045353nat, m, 4283006931934022676nat, 47451097912938196306537155564535184643791101953324455050220819562851846int, 10977274198944001264984551369521251500824023009430516280328754103449755int, 112202836378256216900939984375063178660833258161252384442562825588013611int, 5int, 96451953675283839523826340780969772964311758104843328524940736103149255int);
    lemma_pow_mod_step(10int, 17132027727736090706nat, m, 8566013863868045353nat, 96451953675283839523826340780969772964311758104843328524940736103149255int, 45354881782070146136221648623831603098470987676414426439021595096951453int, 15980660069744278363530663937472838550959399622393807262247361496224962int, 0int, 15980660069744278363530663937472838550959399622393807262247361496224962int);
    lemma_pow_mod_step(10int, 34264055455472181412nat, m, 17132027727736090706nat, 15980660069744278363530663937472838550959399622393807262247361496224962int, 1245063233455250511526230732040604471304160910510996546445244075998449int, 105054970435004858916888404925818867360207829160308347319494687537223865int, 0int, 105054970435004858916888404925818867360207829160308347319494687537223865int);
    lemma_pow_mod_step(10int, 68528110910944362824nat, m, 34264055455472181412nat, 105054970435004858916888404925818867360207829160308347319494687537223865int, 53806555534683610348147514644240999738625478562884383316257311138911176int, 158264060999199425248261249617018519010633591493157450477741709772619929int, 0int, 158264060999199425248261249617018519010633591493157450477741709772619929int);
    lemma_pow_mod_step(10int, 137056221821888725649nat, m, 68528110910944362824nat, 158264060999199425248261249617018519010633591493157450477741709772619929int, 122114319114156850317691887327931677128652381693876601087211468997667712int, 120394659735409594607983702516019644130640385765362622507956003511579889int, 5int, 178370187246817616594263522190534427662383034145945709178872515338812035int);
    lemma_pow_mod_step(10int, 274112443643777451299nat, m, 137056221821888725649nat, 178370187246817616594263522190534427662383034145945709178872515338812035int, 155112400133778126199174169565793789406132811287356465370161064238939669int, 106310589419787201034897756908925177049529962458549659778478062470631026int, 5int, 37529484090593680863404066119589756851278801077816081884093104929323405int);
    lemma_pow_mod_step(10int, 548224887287554902598nat, m, 274112443643777451299nat, 37529484090593680863404066119589756851278801077816081884093104929323405int, 6866685710715571581380602702950331389585016364287523041270277654506989int, 97937762073837907308521980571314401114424205885068253890175740489068106int, 0int, 97937762073837907308521980571314401114424205885068253890175740489068106int);
    lemma_pow_mod_step(10int, 1096449774575109805197nat, m, 548224887287554902598nat, 97937762073837907308521980571314401114424205885068253890175740489068106int, 46762996620741069691383038979488354618721934994186589919320636350855152int, 125906418181780776145858000629938331958363906073597589505464990483821844int, 6int, 28372489689073766075891802735788903210814072526759275973824881105834214int);
    lemma_pow_mod_step(10int, 2192899549150219610394nat, m, 1096449774575109805197nat, 28372489689073766075891802735788903210814072526759275973824881105834214int, 3924613335599206979967023100183567470657300940527213131324512766837503int, 3108786586261152514634608819168640015250015653457187477290453502593183int, 0int, 3108786586261152514634608819168640015250015653457187477290453502593183int);
    lemma_pow_mod_step(10int, 4385799098300439220789nat, m, 2192899549150219610394nat, 3108786586261152514634608819168640015250015653457187477290453502593183int, 47117669359742436417913170264230880649819604196110271380141791240133int, 185079124236786674137713630556027481836419194272039179389197752700181146int, 9int, 4753704174765748303104000214883193804954460406566865270739991403235121int);
}

proof fn lemma_certificate_2_6()
    requires
        pow_mod(10int, 4385799098300439220789nat, 205115282021455665897114700593932402728804164701536103180137503955397371int) == 4753704174765748303104000214883193804954460406566865270739991403235121int,
    ensures
        pow_mod(10int, 17964233106638599048351748nat, 205115282021455665897114700593932402728804164701536103180137503955397371int) == 164624476497990022763112415649316438245384144927042667774324770969818941int,
{
    let m: int = 205115282021455665897114700593932402728804164701536103180137503955397371int;
    lemma_pow_mod_step(10int, 8771598196600878441578nat, m, 4385799098300439220789nat, 4753704174765748303104000214883193804954460406566865270739991403235121int, 110170744756217225174175360917914877623306825644081214462944540885127int, 85647019273980321714652993779759768917724193894884163644548051459083524int, 0int, 85647019273980321714652993779759768917724193894884163644548051459083524int);
    lemma_pow_mod_step(10int, 17543196393201756883156nat, m, 8771598196600878441578nat, 85647019273980321714652993779759768917724193894884163644548051459083524int, 35762386099297325424426783141835693105719986119517903470095115208866312int, 119768260027413166731965182739150979103391093325916919396589203632992824int, 0int, 119768260027413166731965182739150979103391093325916919396589203632992824int);
    lemma_pow_mod_step(10int, 35086392786403513766312nat, m, 17543196393201756883156nat, 119768260027413166731965182739150979103391093325916919396589203632992824int, 69933531858896715786084040516288908152838371293068738735539204577094634int, 78316175788115877711229152728718466351283654552714639866592177093687762int, 0int, 78316175788115877711229152728718466351283654552714639866592177093687762int);
    lemma_pow_mod_step(10int, 70172785572807027532624nat, m, 35086392786403513766312nat, 78316175788115877711229152728718466351283654552714639866592177093687762int, 29902322877305131122048584608516657216082477157158084344143943709208335int, 134561204523397185773713414980196608819539907647914092629416007998281359int, 0int, 134561204523397185773713414980196608819539907647914092629416007998281359int);
    lemma_pow_mod_step(10int, 140345571145614055065248nat, m, 70172785572807027532624nat, 134561204523397185773713414980196608819539907647914092629416007998281359int, 88275810482485215086414151161044961946691468011379597083941608240500688int, 111229402301580545106651955056462415776585786406890679448604340687995633int, 0int, 111229402301580545106651955056462415776585786406890679448604340687995633int);
    lemma_pow_mod_step(10int, 280691142291228110130496nat, m, 140345571145614055065248nat, 111229402301580545106651955056462415776585786406890679448604340687995633int, 60317202182296225627755059365492933478668542091905880268174720874458095int, 168207799371685388570921381099471028644339323828115322199479561014402444int, 0int, 168207799371685388570921381099471028644339323828115322199479561014402444int);
    lemma_pow_mod_step(10int, 561382284582456220260992nat, m, 280691142291228110130496nat, 168207799371685388570921381099471028644339323828115322199479561014402444int, 137941276196600219512669147524722341136066880937701615554025255176656746int, 77954342752679153553649066307798971399803068857062598037174364695358370int, 0int, 77954342752679153553649066307798971399803068857062598037174364695358370int);
    lemma_pow_mod_step(10int, 1122764569164912440521984nat, m, 561382284582456220260992nat, 77954342752679153553649066307798971399803068857062598037174364695358370int, 29626654309289940058195269273393322689829375963518358664748553933014279int, 113996113476172011481765433109330406475594732917089429511117733466996391int, 0int, 113996113476172011481765433109330406475594732917089429511117733466996391int);
    lemma_pow_mod_step(10int, 2245529138329824881043968nat, m, 1122764569164912440521984nat, 113996113476172011481765433109330406475594732917089429511117733466996391int, 63355171587424474247271787877125514636247188564538375387639893066342962int, 126159719346306695137720478317129142323009517501863660345679754727871979int, 0int, 126159719346306695137720478317129142323009517501863660345679754727871979int);
    lemma_pow_mod_step(10int, 4491058276659649762087937nat, m, 2245529138329824881043968nat, 126159719346306695137720478317129142323009517501863660345679754727871979int, 77596728184660479554497513387462731910955877051999584777288855856063026int, 1211850260102667686811431570377064430878342238108817511479302362671795int, 0int, 12118502601026676868114315703770644308783422381088175114793023626717950int);
    lemma_pow_mod_step(10int, 8982116553319299524175874nat, m, 4491058276659649762087937nat, 12118502601026676868114315703770644308783422381088175114793023626717950int, 715978370035483459956037585743024458817295185563602836079621487226914int, 117129907712909490554335147826162979381975233732797766492573643136159406int, 0int, 117129907712909490554335147826162979381975233732797766492573643136159406int);
    lemma_pow_mod_step(10int, 17964233106638599048351748nat, m, 8982116553319299524175874nat, 117129907712909490554335147826162979381975233732797766492573643136159406int, 66886363344685369173695510940450509660960772345008616917281145700038245int, 164624476497990022763112415649316438245384144927042667774324770969818941int, 0int, 164624476497990022763112415649316438245384144927042667774324770969818941int);
}

proof fn lemma_certificate_2_7()
    requires
        pow_mod(10int, 17964233106638599048351748nat, 205115282021455665897114700593932402728804164701536103180137503955397371int) == 164624476497990022763112415649316438245384144927042667774324770969818941int,
    ensures
        pow_mod(10int, 73581498804791701702048760958nat, 205115282021455665897114700593932402728804164701536103180137503955397371int) == 1456530324046570965142388537947518133993506139806926537260192544928639int,
{
    let m: int = 205115282021455665897114700593932402728804164701536103180137503955397371int;
    lemma_pow_mod_step(10int, 35928466213277198096703496nat, m, 17964233106638599048351748nat, 164624476497990022763112415649316438245384144927042667774324770969818941int, 132126763033689521317513935112442233526366437103902773619182329607268232int, 173923775335778858255087195006986184460270248615442732963341690977743409int, 0int, 173923775335778858255087195006986184460270248615442732963341690977743409int);
    lemma_pow_mod_step(10int, 71856932426554396193406993nat, m, 35928466213277198096703496nat, 173923775335778858255087195006986184460270248615442732963341690977743409int, 147475504160076639990723089804539137941111934418280738480180456494980875int, 108629617817201720172054845711364122169923410822425797384684866172661656int, 5int, 60719768064738872234974954143979208055213284716577457946161141949629705int);
    lemma_pow_mod_step(10int, 143713864853108792386813986nat, m, 71856932426554396193406993nat, 60719768064738872234974954143979208055213284716577457946161141949629705int, 17974722300067446819033692235003402491282421823590090417656062452709081int, 201865647865690279897958860082126685737223475889372395836088575803160974int, 0int, 201865647865690279897958860082126685737223475889372395836088575803160974int);
    lemma_pow_mod_step(10int, 287427729706217584773627972nat, m, 143713864853108792386813986nat, 201865647865690279897958860082126685737223475889372395836088575803160974int, 198667497548877529290188184387661946517350108748035252158773520466594990int, 185340213469960028516034308597004731675208100811273431690502133388857386int, 0int, 185340213469960028516034308597004731675208100811273431690502133388857386int);
    lemma_pow_mod_step(10int, 574855459412435169547255944nat, m, 287427729706217584773627972nat, 185340213469960028516034308597004731675208100811273431690502133388857386int, 167471650042619140506582159767557946747973078639274878521415645549500513int, 42578743610870106042130117910612381480464735447740330817519063163401673int, 0int, 42578743610870106042130117910612381480464735447740330817519063163401673int);
    lemma_pow_mod_step(10int, 1149710918824870339094511889nat, m, 574855459412435169547255944nat, 42578743610870106042130117910612381480464735447740330817519063163401673int, 8838685199918804682940528316304755396514616179609849167606345085889955int, 141414325687700037380783090200986089321751738109998571749424507536890624int, 6int, 183451564748266378425142698446266476844692392890769098413420051636522014int);
    lemma_pow_mod_step(10int, 2299421837649740678189023779nat, m, 1149710918824870339094511889nat, 183451564748266378425142698446266476844692392890769098413420051636522014int, 164075910273067871504255977841847030579961784487992087833570607797763799int, 186655413391372368685108166085220850550471417318180031417656172063043767int, 9int, 20516595720622693777049355506816880945476690867975385555324185031861331int);
    lemma_pow_mod_step(10int, 4598843675299481356378047559nat, m, 2299421837649740678189023779nat, 20516595720622693777049355506816880945476690867975385555324185031861331int, 2052166449106619143400786544988973594434420718487735221945255034092952int, 10648271673994130541450724767781987437847570506799491933519836702662369int, 0int, 106482716739941305414507247677819874378475705067994919335198367026623690int);
    lemma_pow_mod_step(10int, 9197687350598962712756095119nat, m, 4598843675299481356378047559nat, 106482716739941305414507247677819874378475705067994919335198367026623690int, 55279006286486876291110502965511407203401508587953977488325843406823593int, 167538160793925407119234119077248006711393042062685355636992057656242097int, 8int, 34459351767608744015423586021020845283497103014564730928820544919242002int);
    lemma_pow_mod_step(10int, 18395374701197925425512190239nat, m, 9197687350598962712756095119nat, 34459351767608744015423586021020845283497103014564730928820544919242002int, 5789168474144161555027864687770886993276696605079657094830428695425551int, 74287299843735440200833490987204625948131983548892821029632350089341583int, 3int, 127527152372987404316990808090249051294907341384319900755910989027223717int);
    lemma_pow_mod_step(10int, 36790749402395850851024380479nat, m, 18395374701197925425512190239nat, 127527152372987404316990808090249051294907341384319900755910989027223717int, 79287971291490464012652398754796891080530394300504888572802502741924635int, 119954680246403666596676548277832920788811455493470319299251864008161504int, 5int, 173970392356758336481191979808667194244093731427022677091831120304628185int);
    lemma_pow_mod_step(10int, 73581498804791701702048760958nat, m, 36790749402395850851024380479nat, 173970392356758336481191979808667194244093731427022677091831120304628185int, 147554570866146179429878279021847624932640926600020013421620232123562166int, 1456530324046570965142388537947518133993506139806926537260192544928639int, 0int, 1456530324046570965142388537947518133993506139806926537260192544928639int);
}

proof fn lemma_certificate_2_8()
    requires
        pow_mod(10int, 73581498804791701702048760958nat, 205115282021455665897114700593932402728804164701536103180137503955397371int) == 1456530324046570965142388537947518133993506139806926537260192544928639int,
    ensures
        pow_mod(10int, 301389819104426810171591724885627nat, 205115282021455665897114700593932402728804164701536103180137503955397371int) == 105159867749515576952046162546428167067958191335190324572726341855652560int,
{
    let m: int = 205115282021455665897114700593932402728804164701536103180137503955397371int;
    lemma_pow_mod_step(10int, 147162997609583403404097521916nat, m, 73581498804791701702048760958nat, 1456530324046570965142388537947518133993506139806926537260192544928639int, 10342869453507105679653448999319637483330189366624191050371987989447int, 82518582123118661117240347562701340015861560991404089628996595362848484int, 0int, 82518582123118661117240347562701340015861560991404089628996595362848484int);
    lemma_pow_mod_step(10int, 294325995219166806808195043833nat, m, 147162997609583403404097521916nat, 82518582123118661117240347562701340015861560991404089628996595362848484int, 33197508876484415346265004056803339963835945063520815777456868042252139int, 126440242094314335034199778898670036185283748193793370396152454821371687int, 6int, 33710728814409354959309585423105945480012493728717084880699524481332644int);
    lemma_pow_mod_step(10int, 588651990438333613616390087667nat, m, 294325995219166806808195043833nat, 33710728814409354959309585423105945480012493728717084880699524481332644int, 5540363575054232013903102941310870739984821308649000588049513532946078int, 125384061347563752387760123276826505257138958559982021172835187374069798int, 6int, 23148921346903528494913029204670636198564597390603592647526850008313754int);
    lemma_pow_mod_step(10int, 1177303980876667227232780175334nat, m, 588651990438333613616390087667nat, 23148921346903528494913029204670636198564597390603592647526850008313754int, 2612543318293914420589030981871998017644681317900895435477799591067812int, 84713681227580449725732571543770631195242188225410591263134419838050264int, 0int, 84713681227580449725732571543770631195242188225410591263134419838050264int);
    lemma_pow_mod_step(10int, 2354607961753334454465560350668nat, m, 1177303980876667227232780175334nat, 84713681227580449725732571543770631195242188225410591263134419838050264int, 34987192160442939526684022645207286207816182751199807507453411350964286int, 14368432792200403204957162719475534704665546404860275091290781831177590int, 0int, 14368432792200403204957162719475534704665546404860275091290781831177590int);
    lemma_pow_mod_step(10int, 4709215923506668908931120701337nat, m, 2354607961753334454465560350668nat, 14368432792200403204957162719475534704665546404860275091290781831177590int, 1006516232575905286380981254558867747183983281338023469279698697708063int, 23933217845053013177237524528265431704045047504240069681202670002505727int, 1int, 34216896429074465875260544688721914311646310340864593631889196069659899int);
    lemma_pow_mod_step(10int, 9418431847013337817862241402675nat, m, 4709215923506668908931120701337nat, 34216896429074465875260544688721914311646310340864593631889196069659899int, 5707990110242201288415866296714776555252587715870666840485289199441512int, 16553945889399088362318919856017778860553172866728784518409258295625249int, 0int, 165539458893990883623189198560177788605531728667287845184092582956252490int);
    lemma_pow_mod_step(10int, 18836863694026675635724482805351nat, m, 9418431847013337817862241402675nat, 165539458893990883623189198560177788605531728667287845184092582956252490int, 133599564990232321317906705847113765572154255952223026197269664270181689int, 195184493236152305377212015480699874631149104978640426335910398268260481int, 9int, 105807394168422060698087849461607121752253567472579334737866447084028471int);
    lemma_pow_mod_step(10int, 37673727388053351271448965610703nat, m, 18836863694026675635724482805351nat, 105807394168422060698087849461607121752253567472579334737866447084028471int, 54580061272766517407525273768511031327644581307920678057281496508426150int, 139301317532610518193345501493875550198585116480955331402286384880946191int, 6int, 162321483197371186550766811375161085613026176600336694942038825077077684int);
    lemma_pow_mod_step(10int, 75347454776106702542897931221406nat, m, 37673727388053351271448965610703nat, 162321483197371186550766811375161085613026176600336694942038825077077684int, 128455879287621046272019551411318047804775674162368130394654241714294317int, 11131096832278482303008798055305709143831518832838435084797794788763249int, 0int, 11131096832278482303008798055305709143831518832838435084797794788763249int);
    lemma_pow_mod_step(10int, 150694909552213405085795862442813nat, m, 75347454776106702542897931221406nat, 11131096832278482303008798055305709143831518832838435084797794788763249int, 604056974538833330600540116308300295928326958698567426339622393570040int, 100006155816434627470165195039182047433653898738702011979933211452671161int, 4int, 179600430078523611113193148016090863421322328580875707078782098705122126int);
    lemma_pow_mod_step(10int, 301389819104426810171591724885627nat, m, 150694909552213405085795862442813nat, 179600430078523611113193148016090863421322328580875707078782098705122126int, 157259440479020683764778825382250722868296461159264234752177165289463220int, 10515986774951557695204616254642816706795819133519032457272634185565256int, 0int, 105159867749515576952046162546428167067958191335190324572726341855652560int);
}

proof fn lemma_certificate_2_9()
    requires
        pow_mod(10int, 301389819104426810171591724885627nat, 205115282021455665897114700593932402728804164701536103180137503955397371int) == 105159867749515576952046162546428167067958191335190324572726341855652560int,
    ensures
        pow_mod(10int, 1234492699051732214462839705131529501nat, 205115282021455665897114700593932402728804164701536103180137503955397371int) == 85231555930974178722950936478201032907995486183677535468913579999720464int,
{
    let m: int = 205115282021455665897114700593932402728804164701536103180137503955397371int;
    lemma_pow_mod_step(10int, 602779638208853620343183449771254nat, m, 301389819104426810171591724885627nat, 105159867749515576952046162546428167067958191335190324572726341855652560int, 53914060796010529627863359236490733042738293287034119045083590753572189int, 160634084451061065765783564532127839399766957303180938906400378205238481int, 0int, 160634084451061065765783564532127839399766957303180938906400378205238481int);
    lemma_pow_mod_step(10int, 1205559276417707240686366899542509nat, m, 602779638208853620343183449771254nat, 160634084451061065765783564532127839399766957303180938906400378205238481int, 125799057160116991758602281405504146308717227159741725386229418987821567int, 62560070996116794738977442388148251048454543810001801566465062954287004int, 3int, 10254863896800949698430322099685302298132943995409706124238117676677927int);
    lemma_pow_mod_step(10int, 2411118552835414481372733799085018nat, m, 1205559276417707240686366899542509nat, 10254863896800949698430322099685302298132943995409706124238117676677927int, 512698188577247394303670594899953911655699398452907703814697730060500int, 65602350184460687951111423256740414104909766791808420998388965518071829int, 0int, 65602350184460687951111423256740414104909766791808420998388965518071829int);
    lemma_pow_mod_step(10int, 4822237105670828962745467598170037nat, m, 2411118552835414481372733799085018nat, 65602350184460687951111423256740414104909766791808420998388965518071829int, 20981705055376774924186135356373303147050879012866445274398056836853702int, 86700794162368667316554157055787228687680553544124492206307681200987799int, 4int, 46546813537864009577082768182142675961588876635100509342526796188288506int);
    lemma_pow_mod_step(10int, 9644474211341657925490935196340074nat, m, 4822237105670828962745467598170037nat, 46546813537864009577082768182142675961588876635100509342526796188288506int, 10562868983609163006682946483158785419362688412604437759144943105207762int, 195912083791681562014970275507873654846034829183011553009507755268118334int, 0int, 195912083791681562014970275507873654846034829183011553009507755268118334int);
    lemma_pow_mod_step(10int, 19288948422683315850981870392680148nat, m, 9644474211341657925490935196340074nat, 195912083791681562014970275507873654846034829183011553009507755268118334int, 187121818507818613831457049142540651161646867646996626480326908519634960int, 33277225867581030485384580278116355528533755065893176147126158363245396int, 0int, 33277225867581030485384580278116355528533755065893176147126158363245396int);
    lemma_pow_mod_step(10int, 38577896845366631701963740785360296nat, m, 19288948422683315850981870392680148nat, 33277225867581030485384580278116355528533755065893176147126158363245396int, 5398787211409091851221691085528324520824567731271507006372209221320773int, 73063071714412955434813855831412512168228529352176148833522711043309033int, 0int, 73063071714412955434813855831412512168228529352176148833522711043309033int);
    lemma_pow_mod_step(10int, 77155793690733263403927481570720593nat, m, 38577896845366631701963740785360296nat, 73063071714412955434813855831412512168228529352176148833522711043309033int, 26025425291261611862803688827074242134380075400124508299673324075587917int, 177801651024268673624449386186794353645267227313148198589773646158228882int, 8int, 137094254071041409067576257116484314622238955519193160456636429939109852int);
    lemma_pow_mod_step(10int, 154311587381466526807854963141441187nat, m, 77155793690733263403927481570720593nat, 137094254071041409067576257116484314622238955519193160456636429939109852int, 91630590924616034307329352909898461746088152288423399417568449152700751int, 126600930467907230025633765619323596210769967359469060869522102068336283int, 6int, 35317612550338304873649452629641545734874685385473989614395996950978604int);
    lemma_pow_mod_step(10int, 308623174762933053615709926282882375nat, m, 154311587381466526807854963141441187nat, 35317612550338304873649452629641545734874685385473989614395996950978604int, 6081135174147282399129451906618856634245109793557420492986402779007524int, 163821608808630366862736651266416068233411084463707240717516018846969412int, 7int, 202409113936114007347563608506633863232481691726319684914197660781912523int);
    lemma_pow_mod_step(10int, 617246349525866107231419852565764750nat, m, 308623174762933053615709926282882375nat, 202409113936114007347563608506633863232481691726319684914197660781912523int, 199738649410419141446565745885275736791417938939804734515102608711700724int, 103518775393531578713122891428523421801094359472693882850926812975828925int, 0int, 103518775393531578713122891428523421801094359472693882850926812975828925int);
    lemma_pow_mod_step(10int, 1234492699051732214462839705131529501nat, m, 617246349525866107231419852565764750nat, 103518775393531578713122891428523421801094359472693882850926812975828925int, 52244458595998222163928476613139238649969375076292945900415467708033836int, 131592324805970817410563914004179544928082047439289415454973860373210469int, 6int, 85231555930974178722950936478201032907995486183677535468913579999720464int);
}

proof fn lemma_certificate_2_10()
    requires
        pow_mod(10int, 1234492699051732214462839705131529501nat, 205115282021455665897114700593932402728804164701536103180137503955397371int) == 85231555930974178722950936478201032907995486183677535468913579999720464int,
    ensures
        pow_mod(10int, 5056482095315895150439791432218744836809nat, 205115282021455665897114700593932402728804164701536103180137503955397371int) == 48824741319028935502930194482950692211882713508094565608933622262017409int,
{
    let m: int = 205115282021455665897114700593932402728804164701536103180137503955397371int;
    lemma_pow_mod_step(10int, 2468985398103464428925679410263059002nat, m, 1234492699051732214462839705131529501nat, 85231555930974178722950936478201032907995486183677535468913579999720464int, 35416269596406278756647357179005001104088062964335230008863238113433090int, 192798016473563838591034729251461576421497545536061941564707074169968906int, 0int, 192798016473563838591034729251461576421497545536061941564707074169968906int);
    lemma_pow_mod_step(10int, 4937970796206928857851358820526118004nat, m, 2468985398103464428925679410263059002nat, 192798016473563838591034729251461576421497545536061941564707074169968906int, 181220408298258287500333736042887790793435594560774385691845931226685883int, 191660228522809556656524616873016277475868773646671365425378870345823243int, 0int, 191660228522809556656524616873016277475868773646671365425378870345823243int);
    lemma_pow_mod_step(10int, 9875941592413857715702717641052236009nat, m, 4937970796206928857851358820526118004nat, 191660228522809556656524616873016277475868773646671365425378870345823243int, 179087793144409074678836725536315556181505458549220260386630908010108277int, 178648451221043758269772707678181306184551648056251342935131915127897282int, 8int, 145562256038792255520809472030353840015083162950224603910219119635793852int);
    lemma_pow_mod_step(10int, 19751883184827715431405435282104472018nat, m, 9875941592413857715702717641052236009nat, 145562256038792255520809472030353840015083162950224603910219119635793852int, 103299813520898682591778551962625484185399619991267260858429354530028027int, 53941581282420516965436674513881145470153758011826736259334299688880887int, 0int, 53941581282420516965436674513881145470153758011826736259334299688880887int);
    lemma_pow_mod_step(10int, 39503766369655430862810870564208944037nat, m, 19751883184827715431405435282104472018nat, 53941581282420516965436674513881145470153758011826736259334299688880887int, 14185652880528018555585973523221106101338794187617005346334140943947925int, 176493578340594974066516027941355451015016205011602249406920721568001594int, 8int, 124013527234304413488242674662095288319728732503733668628107184036836972int);
    lemma_pow_mod_step(10int, 79007532739310861725621741128417888075nat, m, 39503766369655430862810870564208944037nat, 124013527234304413488242674662095288319728732503733668628107184036836972int, 74979079011211053514029943352264854249761534618157027733732792102979330int, 9566245591271826162443488017567270400999011627449378542881655356787354int, 0int, 95662455912718261624434880175672704009990116274493785428816553567873540int);
    lemma_pow_mod_step(10int, 158015065478621723451243482256835776150nat, m, 79007532739310861725621741128417888075nat, 95662455912718261624434880175672704009990116274493785428816553567873540int, 44615424950616363348820896344660862958169104752637082670834853931300545int, 46795558352015332845990866202351509272116611731271130707922907128264405int, 0int, 46795558352015332845990866202351509272116611731271130707922907128264405int);
    lemma_pow_mod_step(10int, 316030130957243446902486964513671552300nat, m, 158015065478621723451243482256835776150nat, 46795558352015332845990866202351509272116611731271130707922907128264405int, 10676065965907941806220259637203257260092703364072386651554829306528540int, 76649812875413796202782143116786225567007668713848700145255687337535685int, 0int, 76649812875413796202782143116786225567007668713848700145255687337535685int);
    lemma_pow_mod_step(10int, 632060261914486893804973929027343104601nat, m, 316030130957243446902486964513671552300nat, 76649812875413796202782143116786225567007668713848700145255687337535685int, 28643374379200999259539974393077875300758232765586260981277902659711748int, 83519670562160743653012809315250200356229903640950559331343772991404717int, 4int, 14735577535784772941669290776772392647082377603361180592887714092457686int);
    lemma_pow_mod_step(10int, 1264120523828973787609947858054686209202nat, m, 632060261914486893804973929027343104601nat, 14735577535784772941669290776772392647082377603361180592887714092457686int, 1058610763533512058973875347452032616378293598772479011095552975310870int, 133440835026732280940213939072770929648466542136769106284127188594751826int, 0int, 133440835026732280940213939072770929648466542136769106284127188594751826int);
    lemma_pow_mod_step(10int, 2528241047657947575219895716109372418404nat, m, 1264120523828973787609947858054686209202nat, 133440835026732280940213939072770929648466542136769106284127188594751826int, 86811944371697144957878078312180621038930830392010399246064576001822349int, 6644075190674193459069247452424452386615052608694357705395000086689797int, 0int, 6644075190674193459069247452424452386615052608694357705395000086689797int);
    lemma_pow_mod_step(10int, 5056482095315895150439791432218744836809nat, m, 2528241047657947575219895716109372418404nat, 6644075190674193459069247452424452386615052608694357705395000086689797int, 215214267334380062201120086220628283858254053468076169464046258173161int, 25394002334048460140004489507688309494068687820963066878907112621741478int, 1int, 48824741319028935502930194482950692211882713508094565608933622262017409int);
}

proof fn lemma_certificate_2_11()
    requires
        pow_mod(10int, 5056482095315895150439791432218744836809nat, 205115282021455665897114700593932402728804164701536103180137503955397371int) == 48824741319028935502930194482950692211882713508094565608933622262017409int,
    ensures
        pow_mod(10int, 20711350662413906536201385706367978851572587nat, 205115282021455665897114700593932402728804164701536103180137503955397371int) == 176261691597511668808421740010041922733951783355325099451027911459559357int,
{
    let m: int = 205115282021455665897114700593932402728804164701536103180137503955397371int;
    lemma_pow_mod_step(10int, 10112964190631790300879582864437489673619nat, m, 5056482095315895150439791432218744836809nat, 48824741319028935502930194482950692211882713508094565608933622262017409int, 11622027093138448193706068973118759719349247017448099974551565084966598int, 154395334945112397583751891213361262990907501847838281859266645267059423int, 7int, 108146375300934314557716007976085810807445865567630096331703924982812633int);
    lemma_pow_mod_step(10int, 20225928381263580601759165728874979347238nat, m, 10112964190631790300879582864437489673619nat, 108146375300934314557716007976085810807445865567630096331703924982812633int, 57019829899885943826324099951715630457929822292524935385684705073309083int, 198961532679924560605521460424829594164749753949660009390874846415771896int, 0int, 198961532679924560605521460424829594164749753949660009390874846415771896int);
    lemma_pow_mod_step(10int, 40451856762527161203518331457749958694477nat, m, 20225928381263580601759165728874979347238nat, 198961532679924560605521460424829594164749753949660009390874846415771896int, 192992404545478519512220524673262284485074475405773075544267155851282271int, 51810730583191891424208167800008333317584572587298420345050639811125275int, 2int, 107876741789007582447852276812218527718237396469911997090231390200458008int);
    lemma_pow_mod_step(10int, 80903713525054322407036662915499917388955nat, m, 40451856762527161203518331457749958694477nat, 107876741789007582447852276812218527718237396469911997090231390200458008int, 56735857534958849416216596659014490124406299559241260323122294937897080int, 165158140780995160406068481980743450242535098725892050279780934470751384int, 8int, 10659151638306276883767215055975280594917669646631677356709313064334872int);
    lemma_pow_mod_step(10int, 161807427050108644814073325830999834777910nat, m, 80903713525054322407036662915499917388955nat, 10659151638306276883767215055975280594917669646631677356709313064334872int, 553920276093921944641661448986708426039903733691762678921692037500462int, 166602354262281303490824906254003477914576293872562749716738886949170982int, 0int, 166602354262281303490824906254003477914576293872562749716738886949170982int);
    lemma_pow_mod_step(10int, 323614854100217289628146651661999669555821nat, m, 161807427050108644814073325830999834777910nat, 166602354262281303490824906254003477914576293872562749716738886949170982int, 135320704397009703985911275536186202875019137210827019854706626038585917int, 203547361400575766960857540747974812010094832955076925192447276411420117int, 9int, 189436075812656676534543102134356495541710847236944323303235228515624831int);
    lemma_pow_mod_step(10int, 647229708200434579256293303323999339111643nat, m, 323614854100217289628146651661999669555821nat, 189436075812656676534543102134356495541710847236944323303235228515624831int, 174955402959906338125040071483447510486941412212704150951901162708807607int, 55112311084162595074488934891026125549568611254561678911138555071177364int, 2int, 140892546798714618950659947722396450038077783142544582751110542800978898int);
    lemma_pow_mod_step(10int, 1294459416400869158512586606647998678223286nat, m, 647229708200434579256293303323999339111643nat, 140892546798714618950659947722396450038077783142544582751110542800978898int, 96778307046627301024898196782829233796086324022512991809772324047489677int, 46005888251080296584166125845217986550151590343111039719664379485855237int, 0int, 46005888251080296584166125845217986550151590343111039719664379485855237int);
    lemma_pow_mod_step(10int, 2588918832801738317025173213295997356446573nat, m, 1294459416400869158512586606647998678223286nat, 46005888251080296584166125845217986550151590343111039719664379485855237int, 10318791134974972441609894474927624815394751594383610921097164759019783int, 158549450989330110100267818892156529407944413256785352991517759105135676int, 7int, 149687535743111439722875284764038474977814979657100807654215063363575163int);
    lemma_pow_mod_step(10int, 5177837665603476634050346426591994712893146nat, m, 2588918832801738317025173213295997356446573nat, 149687535743111439722875284764038474977814979657100807654215063363575163int, 109237878991880738569698297138519043344367542844083831691756591781544312int, 108546084094304257687936283676539608937358805365195167459206859145672817int, 0int, 108546084094304257687936283676539608937358805365195167459206859145672817int);
    lemma_pow_mod_step(10int, 10355675331206953268100692853183989425786293nat, m, 5177837665603476634050346426591994712893146nat, 108546084094304257687936283676539608937358805365195167459206859145672817int, 57442099175113209135084782868736748724090069553712743744216865620314431int, 204248604209467584843155383919064211913150089865630801951009691041954588int, 9int, 196448503901574855357521533845250494572263416342483090888859374820969541int);
    lemma_pow_mod_step(10int, 20711350662413906536201385706367978851572587nat, m, 10355675331206953268100692853183989425786293nat, 196448503901574855357521533845250494572263416342483090888859374820969541int, 188147924936817882496978991752232651007215776036708272896622467985992554int, 79160753766187866649976584179183913092036427745993340899144042332575147int, 3int, 176261691597511668808421740010041922733951783355325099451027911459559357int);
}

proof fn lemma_certificate_2_12()
    requires
        pow_mod(10int, 20711350662413906536201385706367978851572587nat, 205115282021455665897114700593932402728804164701536103180137503955397371int) == 176261691597511668808421740010041922733951783355325099451027911459559357int,
    ensures
        pow_mod(10int, 84833692313247361172280875853283241376041319148nat, 205115282021455665897114700593932402728804164701536103180137503955397371int) == 121941447820132259025243881822730881650985381577547260597125448799290822int,
{
    let m: int = 205115282021455665897114700593932402728804164701536103180137503955397371int;
    lemma_pow_mod_step(10int, 41422701324827813072402771412735957703145175nat, m, 20711350662413906536201385706367978851572587nat, 176261691597511668808421740010041922733951783355325099451027911459559357int, 151466939072664959164901270085549912127259387591622055179249718477252682int, 201474881064422266825085225839348539748684781439979179526430874920754427int, 9int, 168711272451121675176819953048093772927610332085966866643071213608967931int);
    lemma_pow_mod_step(10int, 82845402649655626144805542825471915406290350nat, m, 41422701324827813072402771412735957703145175nat, 168711272451121675176819953048093772927610332085966866643071213608967931int, 138768273000249887731924528225881154880946301341859996757957612648693367int, 108965527928257729539839664441671705084344381215532486705341956569482604int, 0int, 108965527928257729539839664441671705084344381215532486705341956569482604int);
    lemma_pow_mod_step(10int, 165690805299311252289611085650943830812580701nat, m, 82845402649655626144805542825471915406290350nat, 108965527928257729539839664441671705084344381215532486705341956569482604int, 57886892481477384113299884880312988389551046061925430133084069513457457int, 50731907646722201304193162409170478875311578886517549615128909720475269int, 2int, 97088512424310681247702222903839983295507459462103289791014089293957948int);
    lemma_pow_mod_step(10int, 331381610598622504579222171301887661625161402nat, m, 165690805299311252289611085650943830812580701nat, 97088512424310681247702222903839983295507459462103289791014089293957948int, 45955519022612480204440867618269758985742837760435573182840250566400509int, 103123206764903915889527829947329915445780953218765793876160684960708865int, 0int, 103123206764903915889527829947329915445780953218765793876160684960708865int);
    lemma_pow_mod_step(10int, 662763221197245009158444342603775323250322805nat, m, 331381610598622504579222171301887661625161402nat, 103123206764903915889527829947329915445780953218765793876160684960708865int, 51845945697818534423147262556648708963347048165144717312794688383517163int, 192630576971538973039183304149019217364363459421640512444648317026009752int, 9int, 80268231522288737317800736144800549084397111902580195825245634661521181int);
    lemma_pow_mod_step(10int, 1325526442394490018316888685207550646500645611nat, m, 662763221197245009158444342603775323250322805nat, 80268231522288737317800736144800549084397111902580195825245634661521181int, 31411550266848432952922058896892008660190148878787678359834847201306591int, 145960443564913523684826449691651691639385495817352893624660483105262500int, 7int, 23797461498945575568461592758990097292225805262776213985642303364843403int);
    lemma_pow_mod_step(10int, 2651052884788980036633777370415101293001291223nat, m, 1325526442394490018316888685207550646500645611nat, 23797461498945575568461592758990097292225805262776213985642303364843403int, 2760979914380822867118810092397028713253510148409633621094681112336843int, 21152216846962134184521513895695142549789019902732152197931922243980656int, 1int, 6406886448165675948100438363019022769086034325785418799181718484409189int);
    lemma_pow_mod_step(10int, 5302105769577960073267554740830202586002582446nat, m, 2651052884788980036633777370415101293001291223nat, 6406886448165675948100438363019022769086034325785418799181718484409189int, 200122553303440491748244293539551349910088811975896141386961164387450int, 204691772833171727446749518512952766885773838717637239236993447832243771int, 0int, 204691772833171727446749518512952766885773838717637239236993447832243771int);
    lemma_pow_mod_step(10int, 10604211539155920146535109481660405172005164893nat, m, 5302105769577960073267554740830202586002582446nat, 204691772833171727446749518512952766885773838717637239236993447832243771int, 204269138080136071271318181142502312624237171505129703130825606765974724int, 107376235760930185199061569208818213900777684918246569853600732806249837int, 5int, 48185947502023522505042189118520125363756025674785182635319808285511515int);
    lemma_pow_mod_step(10int, 21208423078311840293070218963320810344010329787nat, m, 10604211539155920146535109481660405172005164893nat, 48185947502023522505042189118520125363756025674785182635319808285511515int, 11319905146925575470143142331896633165091699157415446466012422824131289int, 104039842001044640411989117372282907931723000256315070700548269328154006int, 5int, 14822009903168074634317670753167065673209179055470191104795173504553205int);
    lemma_pow_mod_step(10int, 42416846156623680586140437926641620688020659574nat, m, 21208423078311840293070218963320810344010329787nat, 14822009903168074634317670753167065673209179055470191104795173504553205int, 1071065867957278998748288975503146844973352501085261784299204954887734int, 152557119467397025425025989200055218476778104837988184526554750012024711int, 0int, 152557119467397025425025989200055218476778104837988184526554750012024711int);
    lemma_pow_mod_step(10int, 84833692313247361172280875853283241376041319148nat, m, 42416846156623680586140437926641620688020659574nat, 152557119467397025425025989200055218476778104837988184526554750012024711int, 113466312557614079587057059417975139220935470913315770444455266214297169int, 121941447820132259025243881822730881650985381577547260597125448799290822int, 0int, 121941447820132259025243881822730881650985381577547260597125448799290822int);
}

proof fn lemma_certificate_2_13()
    requires
        pow_mod(10int, 84833692313247361172280875853283241376041319148nat, 205115282021455665897114700593932402728804164701536103180137503955397371int) == 121941447820132259025243881822730881650985381577547260597125448799290822int,
    ensures
        pow_mod(10int, 347478803715061191361662467495048156676265243231443nat, 205115282021455665897114700593932402728804164701536103180137503955397371int) == 169331083694116842872289357264651847166128550683047008513356214246361926int,
{
    let m: int = 205115282021455665897114700593932402728804164701536103180137503955397371int;
    lemma_pow_mod_step(10int, 169667384626494722344561751706566482752082638296nat, m, 84833692313247361172280875853283241376041319148nat, 121941447820132259025243881822730881650985381577547260597125448799290822int, 72494436055303875734859548500743290678197302988847969390161230735940514int, 69202914473075195460194408256723078837030878604645293317203825845446990int, 0int, 69202914473075195460194408256723078837030878604645293317203825845446990int);
    lemma_pow_mod_step(10int, 339334769252989444689123503413132965504165276593nat, m, 169667384626494722344561751706566482752082638296nat, 69202914473075195460194408256723078837030878604645293317203825845446990int, 23348057367401870327285251864951628226402953543684546252467867640796102int, 204528096141382719485103924074616330629123695477871084087848238702212258int, 9int, 199243423220726201777006935400771681731999472464885912257244851423546241int);
    lemma_pow_mod_step(10int, 678669538505978889378247006826265931008330553186nat, m, 339334769252989444689123503413132965504165276593nat, 199243423220726201777006935400771681731999472464885912257244851423546241int, 193539658798123558474716819997406856645519902241053817795802886015190782int, 28529525499644447351540614597004082405124893062440238823478315078995959int, 0int, 28529525499644447351540614597004082405124893062440238823478315078995959int);
    lemma_pow_mod_step(10int, 1357339077011957778756494013652531862016661106372nat, m, 678669538505978889378247006826265931008330553186nat, 28529525499644447351540614597004082405124893062440238823478315078995959int, 3968177393772750998227551706669951639116470504893259892266174699778930int, 3051006228944355514536510620878889612712735995158039781891237535136651int, 0int, 3051006228944355514536510620878889612712735995158039781891237535136651int);
    lemma_pow_mod_step(10int, 2714678154023915557512988027305063724033322212745nat, m, 1357339077011957778756494013652531862016661106372nat, 3051006228944355514536510620878889612712735995158039781891237535136651int, 45382474271632017608172870423827023595549339596048093874410342962433int, 182640283072543681236650133773557111782709376598727865165959493403532158int, 8int, 185480574553791485189583732984111895996660448374989826218494902392142612int);
    lemma_pow_mod_step(10int, 5429356308047831115025976054610127448066644425491nat, m, 2714678154023915557512988027305063724033322212745nat, 185480574553791485189583732984111895996660448374989826218494902392142612int, 167725403966760220114991648055977489195712495745431749726293292270889802int, 72327164228386262920897908857096899082048291952203475780716733484672002int, 3int, 107925796219495631517634986789171782634070425417426448266754822980527907int);
    lemma_pow_mod_step(10int, 10858712616095662230051952109220254896133288850982nat, m, 5429356308047831115025976054610127448066644425491nat, 107925796219495631517634986789171782634070425417426448266754822980527907int, 56787467880592556776516018361768592268096645296027092632580614144204182int, 150937770096207880950126608999391920425308061150474294590494448035795127int, 0int, 150937770096207880950126608999391920425308061150474294590494448035795127int);
    lemma_pow_mod_step(10int, 21717425232191324460103904218440509792266577701965nat, m, 10858712616095662230051952109220254896133288850982nat, 150937770096207880950126608999391920425308061150474294590494448035795127int, 111070273346247401240990182539991304423475854538211048218673025131780905int, 1837727685369381550530736481463748219364435313546113029890462931945374int, 0int, 18377276853693815505307364814637482193644353135461130298904629319453740int);
    lemma_pow_mod_step(10int, 43434850464382648920207808436881019584533155403930nat, m, 21717425232191324460103904218440509792266577701965nat, 18377276853693815505307364814637482193644353135461130298904629319453740int, 1646509715068346299611632485312994524772337249882564210950313539987767int, 113814991984823674849292278395618107852099219261959337411119795036027043int, 0int, 113814991984823674849292278395618107852099219261959337411119795036027043int);
    lemma_pow_mod_step(10int, 86869700928765297840415616873762039169066310807860nat, m, 43434850464382648920207808436881019584533155403930nat, 113814991984823674849292278395618107852099219261959337411119795036027043int, 63154009164224370314372804707098141104442896614762843380681941065469862int, 11103903021262297953842149821774727597009283960622902922968886792791047int, 0int, 11103903021262297953842149821774727597009283960622902922968886792791047int);
    lemma_pow_mod_step(10int, 173739401857530595680831233747524078338132621615721nat, m, 86869700928765297840415616873762039169066310807860nat, 11103903021262297953842149821774727597009283960622902922968886792791047int, 601109098700411764228161960465826771626991993605222800670403609942797int, 15795458407244697252872690734627469563887962716813590518380779489169522int, 0int, 157954584072446972528726907346274695638879627168135905183807794891695220int);
    lemma_pow_mod_step(10int, 347478803715061191361662467495048156676265243231443nat, m, 173739401857530595680831233747524078338132621615721nat, 157954584072446972528726907346274695638879627168135905183807794891695220int, 121637209980726406738011289548809281991485183353872789764914003490164529int, 98979221177993950646074815964038145808134520948919142123390623006795141int, 4int, 169331083694116842872289357264651847166128550683047008513356214246361926int);
}

proof fn lemma_certificate_2_14()
    requires
        pow_mod(10int, 347478803715061191361662467495048156676265243231443nat, 205115282021455665897114700593932402728804164701536103180137503955397371int) == 169331083694116842872289357264651847166128550683047008513356214246361926int,
    ensures
        pow_mod(10int, 1423273180016890639817369466859717249745982436275993526nat, 205115282021455665897114700593932402728804164701536103180137503955397371int) == 156894353484063468832072892109927324183227292469666902125490849128737921int,
{
    let m: int = 205115282021455665897114700593932402728804164701536103180137503955397371int;
    lemma_pow_mod_step(10int, 694957607430122382723324934990096313352530486462887nat, m, 347478803715061191361662467495048156676265243231443nat, 169331083694116842872289357264651847166128550683047008513356214246361926int, 139789759312154618369048185681448415090881678089724085968355601857799578int, 202117998470716525541667397256502677011407502494755821007472359916320038int, 9int, 175142446514064262342641667219635145554837542633733281453486063564624041int);
    lemma_pow_mod_step(10int, 1389915214860244765446649869980192626705060972925774nat, m, 694957607430122382723324934990096313352530486462887nat, 175142446514064262342641667219635145554837542633733281453486063564624041int, 149549444920067818031764385211377040290564671354259142753896177537834028int, 38888294004305443458152110990289386120185145269546176316333506289629293int, 0int, 38888294004305443458152110990289386120185145269546176316333506289629293int);
    lemma_pow_mod_step(10int, 2779830429720489530893299739960385253410121945851549nat, m, 1389915214860244765446649869980192626705060972925774nat, 38888294004305443458152110990289386120185145269546176316333506289629293int, 7372924121797554340092820004629551771162356531085778125777364665705874int, 58634719871302500783580792350573966955052786781131362066151335484822595int, 2int, 176116634670113676041578522317874864092919538408241414301238346937431208int);
    lemma_pow_mod_step(10int, 5559660859440979061786599479920770506820243891703099nat, m, 2779830429720489530893299739960385253410121945851549nat, 176116634670113676041578522317874864092919538408241414301238346937431208int, 151217738151181778962630946840315287251390038900620486174192541324740755int, 88197936534456451082034238516022841140112804485886115294680266148784159int, 4int, 61518237258741847231883582784498800485911386052716740226252645666252106int);
    lemma_pow_mod_step(10int, 11119321718881958123573198959841541013640487783406199nat, m, 5559660859440979061786599479920770506820243891703099nat, 61518237258741847231883582784498800485911386052716740226252645666252106int, 18450568276170589756737580487647610643624324338213771360208448943432594int, 27000794241055858492947526134600951209354768780235144018016598726124862int, 1int, 64892660389102919032360560752077109364743523100815337000028483305851249int);
    lemma_pow_mod_step(10int, 22238643437763916247146397919683082027280975566812398nat, m, 11119321718881958123573198959841541013640487783406199nat, 64892660389102919032360560752077109364743523100815337000028483305851249int, 20530198095795504597288458297819176055160235781966154894837242389738860int, 134098357314309138672349222054573254547502341225848364301282676294322941int, 0int, 134098357314309138672349222054573254547502341225848364301282676294322941int);
    lemma_pow_mod_step(10int, 44477286875527832494292795839366164054561951133624797nat, m, 22238643437763916247146397919683082027280975566812398nat, 134098357314309138672349222054573254547502341225848364301282676294322941int, 87669574188602476619716971222642952690849652693417529197108721250645621int, 108184490148185312452943588258328531958801855003904115243103204242827090int, 5int, 56268491374574795043862379613623305943997726531360636530344522651284045int);
    lemma_pow_mod_step(10int, 88954573751055664988585591678732328109123902267249595nat, m, 44477286875527832494292795839366164054561951133624797nat, 56268491374574795043862379613623305943997726531360636530344522651284045int, 15435920182872625558698557635015775052033769139914881187861412855320356int, 76631317656406841587529694950526411857057478604641247338444147786377949int, 3int, 150967330499701418183952847723466910384162291941804163844028965997587377int);
    lemma_pow_mod_step(10int, 177909147502111329977171183357464656218247804534499190nat, m, 88954573751055664988585591678732328109123902267249595nat, 150967330499701418183952847723466910384162291941804163844028965997587377int, 111113782715722068198107233312974069262379647970273778029248633003487038int, 80709240793379032101166861667315108587572911228331246212868720811963031int, 0int, 80709240793379032101166861667315108587572911228331246212868720811963031int);
    lemma_pow_mod_step(10int, 355818295004222659954342366714929312436495609068998381nat, m, 177909147502111329977171183357464656218247804534499190nat, 80709240793379032101166861667315108587572911228331246212868720811963031int, 31757660790785234107963063389087883366476513387248553328010838641670490int, 48645410788861475789720420003798917687609401280772955136720936516425171int, 2int, 76223543845703426102974798850124371418485683404657345006934357253456968int);
    lemma_pow_mod_step(10int, 711636590008445319908684733429858624872991218137996763nat, m, 355818295004222659954342366714929312436495609068998381nat, 76223543845703426102974798850124371418485683404657345006934357253456968int, 28325674124028098718229268460179113750809135557794492845877239556424528int, 191925402256656885695360686294088572344103880007587542321920802416637136int, 9int, 73216484373467863879574557595494098881801317762050494597970488567795021int);
    lemma_pow_mod_step(10int, 1423273180016890639817369466859717249745982436275993526nat, m, 711636590008445319908684733429858624872991218137996763nat, 73216484373467863879574557595494098881801317762050494597970488567795021int, 26134832720311515652258212483337506194033966485265918658283912927008120int, 156894353484063468832072892109927324183227292469666902125490849128737921int, 0int, 156894353484063468832072892109927324183227292469666902125490849128737921int);
}

proof fn lemma_certificate_2_15()
    requires
        pow_mod(10int, 1423273180016890639817369466859717249745982436275993526nat, 205115282021455665897114700593932402728804164701536103180137503955397371int) == 156894353484063468832072892109927324183227292469666902125490849128737921int,
    ensures
        pow_mod(10int, 5829726945349184060691945336257401854959544058986469485152nat, 205115282021455665897114700593932402728804164701536103180137503955397371int) == 70386338051231711838976684798136873336923113779702627237962992860312690int,
{
    let m: int = 205115282021455665897114700593932402728804164701536103180137503955397371int;
    lemma_pow_mod_step(10int, 2846546360033781279634738933719434499491964872551987053nat, m, 1423273180016890639817369466859717249745982436275993526nat, 156894353484063468832072892109927324183227292469666902125490849128737921int, 120009771639576660974081580318951684162165066058288421610898098617783542int, 32984315219272782550338656357634047182488341875569414007438554429534159int, 1int, 124727870171272159606271862982408069096079254054158036894248040339944219int);
    lemma_pow_mod_step(10int, 5693092720067562559269477867438868998983929745103974106nat, m, 2846546360033781279634738933719434499491964872551987053nat, 124727870171272159606271862982408069096079254054158036894248040339944219int, 75845356056085624697275021239692724856989323806807656170288953962404310int, 17923570697666368557358974375756113599096602442178878009864551418450951int, 0int, 17923570697666368557358974375756113599096602442178878009864551418450951int);
    lemma_pow_mod_step(10int, 11386185440135125118538955734877737997967859490207948213nat, m, 5693092720067562559269477867438868998983929745103974106nat, 17923570697666368557358974375756113599096602442178878009864551418450951int, 1566213806149462396260731883656836513833000380126558530534198571881940int, 77316075589310177377988909300496530115369137379238423445813420394424661int, 3int, 157814909828734776088544991223168092967278879687775924917721692078054497int);
    lemma_pow_mod_step(10int, 22772370880270250237077911469755475995935718980415896426nat, m, 11386185440135125118538955734877737997967859490207948213nat, 157814909828734776088544991223168092967278879687775924917721692078054497int, 121422185216050817683132796806271789001660648809977763887695123794678999int, 65320512004489323283828611398780948354972134396855013026834996068411380int, 0int, 65320512004489323283828611398780948354972134396855013026834996068411380int);
    lemma_pow_mod_step(10int, 45544741760540500474155822939510951991871437960831792852nat, m, 22772370880270250237077911469755475995935718980415896426nat, 65320512004489323283828611398780948354972134396855013026834996068411380int, 20801810798682065475428843728773866377453647593472269572486712574601588int, 15690317882142580384012272832279508864884607374531439813627314365879252int, 0int, 15690317882142580384012272832279508864884607374531439813627314365879252int);
    lemma_pow_mod_step(10int, 91089483521081000948311645879021903983742875921663585705nat, m, 45544741760540500474155822939510951991871437960831792852nat, 15690317882142580384012272832279508864884607374531439813627314365879252int, 1200232731644692551639574381946934274933919569789738674128578346947060int, 126086746918586658640157249041186294025765709609734997709813956043900244int, 6int, 30175777057132591018884286848268523884832107888133358017314536706618214int);
    lemma_pow_mod_step(10int, 182178967042162001896623291758043807967485751843327171411nat, m, 91089483521081000948311645879021903983742875921663585705nat, 30175777057132591018884286848268523884832107888133358017314536706618214int, 4439345094270062969543095176707570176514179825205832950673561678694571int, 89413717068160450414552366108296207859432258258478018681799355511176955int, 4int, 73676042595781840557064858707232467679105923778635774097443539290180066int);
    lemma_pow_mod_step(10int, 364357934084324003793246583516087615934971503686654342822nat, m, 182178967042162001896623291758043807967485751843327171411nat, 73676042595781840557064858707232467679105923778635774097443539290180066int, 26463943588599403521957715179174643564997359335690361815691785521890905int, 177213660267548510530907113202640988925000882632840121341770970117953601int, 0int, 177213660267548510530907113202640988925000882632840121341770970117953601int);
    lemma_pow_mod_step(10int, 728715868168648007586493167032175231869943007373308685644nat, m, 364357934084324003793246583516087615934971503686654342822nat, 177213660267548510530907113202640988925000882632840121341770970117953601int, 153107467546650565797477364314745697448701426837866834881864312071964990int, 198980371137990637499473539504890075917486153181103816337140107738825911int, 0int, 198980371137990637499473539504890075917486153181103816337140107738825911int);
    lemma_pow_mod_step(10int, 1457431736337296015172986334064350463739886014746617371288nat, m, 728715868168648007586493167032175231869943007373308685644nat, 198980371137990637499473539504890075917486153181103816337140107738825911int, 193028952830881381071234012863094674091174815068101341706479922455587155int, 74683716915268878916672990966919642290610742655416259844762883616610416int, 0int, 74683716915268878916672990966919642290610742655416259844762883616610416int);
    lemma_pow_mod_step(10int, 2914863472674592030345972668128700927479772029493234742576nat, m, 1457431736337296015172986334064350463739886014746617371288nat, 74683716915268878916672990966919642290610742655416259844762883616610416int, 27192793814829357142289386109016950659633264899613326772848614765651419int, 82143083551423194510981324172334389384130832048641348281025157304673607int, 0int, 82143083551423194510981324172334389384130832048641348281025157304673607int);
    lemma_pow_mod_step(10int, 5829726945349184060691945336257401854959544058986469485152nat, m, 2914863472674592030345972668128700927479772029493234742576nat, 82143083551423194510981324172334389384130832048641348281025157304673607int, 32896067561803048584229561611819915338197887053604927334332015383174029int, 70386338051231711838976684798136873336923113779702627237962992860312690int, 0int, 70386338051231711838976684798136873336923113779702627237962992860312690int);
}

proof fn lemma_certificate_2_16()
    requires
        pow_mod(10int, 5829726945349184060691945336257401854959544058986469485152nat, 205115282021455665897114700593932402728804164701536103180137503955397371int) == 70386338051231711838976684798136873336923113779702627237962992860312690int,
    ensures
        pow_mod(10int, 23878561568150257912594208097310317997914292465608579011184338nat, 205115282021455665897114700593932402728804164701536103180137503955397371int) == 174710012674542220243093334383153920725048802449754536058296524642921551int,
{
    let m: int = 205115282021455665897114700593932402728804164701536103180137503955397371int;
    lemma_pow_mod_step(10int, 11659453890698368121383890672514803709919088117972938970304nat, m, 5829726945349184060691945336257401854959544058986469485152nat, 70386338051231711838976684798136873336923113779702627237962992860312690int, 24153425017566664568710171460984860163145682243421278208667841211833901int, 151330312972308877806738021574948685307690097330761587393154118470961829int, 0int, 151330312972308877806738021574948685307690097330761587393154118470961829int);
    lemma_pow_mod_step(10int, 23318907781396736242767781345029607419838176235945877940609nat, m, 11659453890698368121383890672514803709919088117972938970304nat, 151330312972308877806738021574948685307690097330761587393154118470961829int, 111648744055557296178561315319229970487772940542763694898240431895097460int, 83141184877451090210134183991124627233202048254756519661605647302247581int, 4int, 10950720688688238512883037535516661416803823741420783895506457200886326int);
    lemma_pow_mod_step(10int, 46637815562793472485535562690059214839676352471891755881219nat, m, 23318907781396736242767781345029607419838176235945877940609nat, 10950720688688238512883037535516661416803823741420783895506457200886326int, 584638464866410105973045992881423572327965238523391456847262951638236int, 57719376179925857515900572875875018472738763252706804587463701156300720int, 2int, 166963197756347243364776327570885379269779303123995839514362003652212458int);
    lemma_pow_mod_step(10int, 93275631125586944971071125380118429679352704943783511762438nat, m, 46637815562793472485535562690059214839676352471891755881219nat, 166963197756347243364776327570885379269779303123995839514362003652212458int, 135907520543053105165632359492923308325341226218429725327929815815750664int, 188161272291462478340483551587126412041628567323965262395813441593297420int, 0int, 188161272291462478340483551587126412041628567323965262395813441593297420int);
    lemma_pow_mod_step(10int, 186551262251173889942142250760236859358705409887567023524877nat, m, 93275631125586944971071125380118429679352704943783511762438nat, 188161272291462478340483551587126412041628567323965262395813441593297420int, 172608613270650661111085254353392763830404105658878483055691502406989700int, 162654651565898384002093381006175294807146875973450325753849037174577700int, 7int, 190739541508794178741130905904226128969839606823750535277527844057995403int);
    lemma_pow_mod_step(10int, 373102524502347779884284501520473718717410819775134047049755nat, m, 186551262251173889942142250760236859358705409887567023524877nat, 190739541508794178741130905904226128969839606823750535277527844057995403int, 177371341308344822660005917919743163751159437960485763940916509348339103int, 177542971124847552371638332514480314328353092606360419742785819546434196int, 8int, 134507455076830196539465720393343921453097608451315371986758163821162992int);
    lemma_pow_mod_step(10int, 746205049004695559768569003040947437434821639550268094099510nat, m, 373102524502347779884284501520473718717410819775134047049755nat, 134507455076830196539465720393343921453097608451315371986758163821162992int, 88205302369196410803082450896375812036890742532484830831807793157848253int, 122087018603718190840159069525073148500086275055150967784663783497249201int, 0int, 122087018603718190840159069525073148500086275055150967784663783497249201int);
    lemma_pow_mod_step(10int, 1492410098009391119537138006081894874869643279100536188199021nat, m, 746205049004695559768569003040947437434821639550268094099510nat, 122087018603718190840159069525073148500086275055150967784663783497249201int, 72667623614633937293480924454676225167862432446727549631063142500566469int, 37553713463056003191197288923664809160958797531567428456805056401785402int, 1int, 170421852609104366014858188642715688880783810614138181387913060062456649int);
    lemma_pow_mod_step(10int, 2984820196018782239074276012163789749739286558201072376398042nat, m, 1492410098009391119537138006081894874869643279100536188199021nat, 170421852609104366014858188642715688880783810614138181387913060062456649int, 141596508853402962047107026580394626982251636451256803793203122247405520int, 4444383678771799173252873475960421453873858618621008400393307625421281int, 0int, 4444383678771799173252873475960421453873858618621008400393307625421281int);
    lemma_pow_mod_step(10int, 5969640392037564478148552024327579499478573116402144752796084nat, m, 2984820196018782239074276012163789749739286558201072376398042nat, 4444383678771799173252873475960421453873858618621008400393307625421281int, 96299730032143466266163391623548338407596736847790448913993688024202int, 81942890311127698400366221749220192269455997197433149200187789952508019int, 0int, 81942890311127698400366221749220192269455997197433149200187789952508019int);
    lemma_pow_mod_step(10int, 11939280784075128956297104048655158998957146232804289505592169nat, m, 5969640392037564478148552024327579499478573116402144752796084nat, 81942890311127698400366221749220192269455997197433149200187789952508019int, 32735919071301253342597799255233588297569662026914539525457641270815320int, 114151512949627858952543767435309325809627820563322936003087492504780641int, 5int, 115938719389000260039864171383431244452257382125548844130187405270819555int);
    lemma_pow_mod_step(10int, 23878561568150257912594208097310317997914292465608579011184338nat, m, 11939280784075128956297104048655158998957146232804289505592169nat, 115938719389000260039864171383431244452257382125548844130187405270819555int, 65532838514466679972888205849665081280671992651500553920942470059231694int, 174710012674542220243093334383153920725048802449754536058296524642921551int, 0int, 174710012674542220243093334383153920725048802449754536058296524642921551int);
}

proof fn lemma_certificate_2_17()
    requires
        pow_mod(10int, 23878561568150257912594208097310317997914292465608579011184338nat, 205115282021455665897114700593932402728804164701536103180137503955397371int) == 174710012674542220243093334383153920725048802449754536058296524642921551int,
    ensures
        pow_mod(10int, 97806588183143456409985876366583062519456941939132739629811050393nat, 205115282021455665897114700593932402728804164701536103180137503955397371int) == 118328817684342725313737295797682613092925082191817581182799049338978764int,
{
    let m: int = 205115282021455665897114700593932402728804164701536103180137503955397371int;
    lemma_pow_mod_step(10int, 47757123136300515825188416194620635995828584931217158022368676nat, m, 23878561568150257912594208097310317997914292465608579011184338nat, 174710012674542220243093334383153920725048802449754536058296524642921551int, 148811869247001525187544939345978553187028051869156717396125413269992812int, 67495347382768274012022882625930068244018714717214040263257486966548349int, 0int, 67495347382768274012022882625930068244018714717214040263257486966548349int);
    lemma_pow_mod_step(10int, 95514246272601031650376832389241271991657169862434316044737353nat, m, 47757123136300515825188416194620635995828584931217158022368676nat, 67495347382768274012022882625930068244018714717214040263257486966548349int, 22210056088575752993304640062234371785730231293989370568039063253463016int, 47160439558431155188860307057971145244390658224328464381846618822494865int, 2int, 61373831541400220094373669391846646986298252840212437458191180314153908int);
    lemma_pow_mod_step(10int, 191028492545202063300753664778482543983314339724868632089474707nat, m, 95514246272601031650376832389241271991657169862434316044737353nat, 61373831541400220094373669391846646986298252840212437458191180314153908int, 18364049528392329172161501807568555981246240475651545485893764620419536int, 105555508675048680145773300204478934772452750923374945383855312300232608int, 5int, 29978676643208471972159499075127334080506685726068937937865603225339225int);
    lemma_pow_mod_step(10int, 382056985090404126601507329556965087966628679449737264178949415nat, m, 191028492545202063300753664778482543983314339724868632089474707nat, 29978676643208471972159499075127334080506685726068937937865603225339225int, 4381541172461466296905436132269395933167189402118323322740016459896512int, 117693487816206303706706136523923505539146204405025885766761725826730673int, 5int, 151358468054784707581487862269573041747441220542578341766929738490319875int);
    lemma_pow_mod_step(10int, 764113970180808253203014659113930175933257358899474528357898831nat, m, 382056985090404126601507329556965087966628679449737264178949415nat, 151358468054784707581487862269573041747441220542578341766929738490319875int, 111690292532639733889715819085238039161138707657900809259457061923415568int, 85334753866665703430167759968762782213177759614375485280436938812343897int, 4int, 32886410580834370713218797311898211216560937337610440083819372301849486int);
    lemma_pow_mod_step(10int, 1528227940361616506406029318227860351866514717798949056715797662nat, m, 764113970180808253203014659113930175933257358899474528357898831nat, 32886410580834370713218797311898211216560937337610440083819372301849486int, 5272722686640603774075107547170160250710312833615175805206639445033519int, 158224771845313274103226296434222130666937435295260400499705716138985647int, 0int, 158224771845313274103226296434222130666937435295260400499705716138985647int);
    lemma_pow_mod_step(10int, 3056455880723233012812058636455720703733029435597898113431595324nat, m, 1528227940361616506406029318227860351866514717798949056715797662nat, 158224771845313274103226296434222130666937435295260400499705716138985647int, 122053696724960243638026170495042938699556031685855521391271533531530323int, 164412576415726886393585372628243795207409022704777101877867628871027776int, 0int, 164412576415726886393585372628243795207409022704777101877867628871027776int);
    lemma_pow_mod_step(10int, 6112911761446466025624117272911441407466058871195796226863190649nat, m, 3056455880723233012812058636455720703733029435597898113431595324nat, 164412576415726886393585372628243795207409022704777101877867628871027776int, 131786842098043471612197353372283165899416969583782394699404917115650108int, 117827654424428610035150306565965917856130644974275222283594702424440108int, 5int, 152700134137007770865929562689997164917285626235071706935259504467414225int);
    lemma_pow_mod_step(10int, 12225823522892932051248234545822882814932117742391592453726381299nat, m, 6112911761446466025624117272911441407466058871195796226863190649nat, 152700134137007770865929562689997164917285626235071706935259504467414225int, 113679150259614025696390732011520973214767627951563324416933658266516279int, 129315592649763863766887008654335377304823009895004095693411450447048116int, 6int, 62464234368904642286181882979759356675405110740824337853289480738096934int);
    lemma_pow_mod_step(10int, 24451647045785864102496469091645765629864235484783184907452762598nat, m, 12225823522892932051248234545822882814932117742391592453726381299nat, 62464234368904642286181882979759356675405110740824337853289480738096934int, 19022378717180663957876827785589974116983973915419121164669259722033009int, 156626735827521172912991058890223367132796928120591718401912669406381017int, 0int, 156626735827521172912991058890223367132796928120591718401912669406381017int);
    lemma_pow_mod_step(10int, 48903294091571728204992938183291531259728470969566369814905525196nat, m, 24451647045785864102496469091645765629864235484783184907452762598nat, 156626735827521172912991058890223367132796928120591718401912669406381017int, 119600714945354445200880600569373492381984937692798647558833985419445102int, 43012501567569914692562627200343641102683301320017019696903788248327447int, 0int, 43012501567569914692562627200343641102683301320017019696903788248327447int);
    lemma_pow_mod_step(10int, 97806588183143456409985876366583062519456941939132739629811050393nat, m, 48903294091571728204992938183291531259728470969566369814905525196nat, 43012501567569914692562627200343641102683301320017019696903788248327447int, 9019685285597983941139137168728559399298264590109871349055787811961810int, 134902050981307672069642549936127702946575007040103420026362407307136299int, 6int, 118328817684342725313737295797682613092925082191817581182799049338978764int);
}

proof fn lemma_certificate_2_18()
    requires
        pow_mod(10int, 97806588183143456409985876366583062519456941939132739629811050393nat, 205115282021455665897114700593932402728804164701536103180137503955397371int) == 118328817684342725313737295797682613092925082191817581182799049338978764int,
    ensures
        pow_mod(10int, 400615785198155597455302149597524224079695634182687701523706062412885nat, 205115282021455665897114700593932402728804164701536103180137503955397371int) == 8086585477736310995102411749293770909655888454922527927550137658910517int,
{
    let m: int = 205115282021455665897114700593932402728804164701536103180137503955397371int;
    lemma_pow_mod_step(10int, 195613176366286912819971752733166125038913883878265479259622100787nat, m, 97806588183143456409985876366583062519456941939132739629811050393nat, 118328817684342725313737295797682613092925082191817581182799049338978764int, 68262632391816614874797894194666061666452092583095986073068870253450696int, 168462059363581249784644968513492320628357425937106274442558487806447480int, 8int, 43698337464167170669532080383463984453140941758773918984484846421295832int);
    lemma_pow_mod_step(10int, 391226352732573825639943505466332250077827767756530958519244201575nat, m, 195613176366286912819971752733166125038913883878265479259622100787nat, 43698337464167170669532080383463984453140941758773918984484846421295832int, 9309616905738364643152069852634965894051839989955956525720877578481212int, 85528808029142919089876155744023685358205015442964844371026489942878572int, 4int, 34826952205606527310302755064507242666833495623504030989714883607196236int);
    lemma_pow_mod_step(10int, 782452705465147651279887010932664500155655535513061917038488403150nat, m, 391226352732573825639943505466332250077827767756530958519244201575nat, 34826952205606527310302755064507242666833495623504030989714883607196236int, 5913340966007236307321448748932471553042133169638249717658894836676031int, 19640235133812257411110247909103132866385353743109746264231697616453195int, 0int, 19640235133812257411110247909103132866385353743109746264231697616453195int);
    lemma_pow_mod_step(10int, 1564905410930295302559774021865329000311311071026123834076976806300nat, m, 782452705465147651279887010932664500155655535513061917038488403150nat, 19640235133812257411110247909103132866385353743109746264231697616453195int, 1880595303820823824568329746458322127505448930720405933583085828960344int, 55432893862610660734375108892174655417903880179388582786621271304852401int, 0int, 55432893862610660734375108892174655417903880179388582786621271304852401int);
    lemma_pow_mod_step(10int, 3129810821860590605119548043730658000622622142052247668153953612600nat, m, 1564905410930295302559774021865329000311311071026123834076976806300nat, 55432893862610660734375108892174655417903880179388582786621271304852401int, 14980871691764215211068228430741557226171703677258692423000327151844025int, 202090102619967959943792666339507436287716175847149979374997054108406526int, 0int, 202090102619967959943792666339507436287716175847149979374997054108406526int);
    lemma_pow_mod_step(10int, 6259621643721181210239096087461316001245244284104495336307907225201nat, m, 3129810821860590605119548043730658000622622142052247668153953612600nat, 202090102619967959943792666339507436287716175847149979374997054108406526int, 199109540617637417808226509066879765763399051585698981165202807817122872int, 67234448914137594629023175575510640678600618652282589703934726186619164int, 3int, 56998643077008948598887653973309198599593692418217587498934749999999527int);
    lemma_pow_mod_step(10int, 12519243287442362420478192174922632002490488568208990672615814450402nat, m, 6259621643721181210239096087461316001245244284104495336307907225201nat, 56998643077008948598887653973309198599593692418217587498934749999999527int, 15839118765809079518381053552144360071356926432590117047828359727278066int, 131376834293459725743774700510275944057765197062772800069133560757859243int, 0int, 131376834293459725743774700510275944057765197062772800069133560757859243int);
    lemma_pow_mod_step(10int, 25038486574884724840956384349845264004980977136417981345231628900805nat, m, 12519243287442362420478192174922632002490488568208990672615814450402nat, 131376834293459725743774700510275944057765197062772800069133560757859243int, 84147180155819602227209261965941139799262551284505485689170477714062998int, 103094291311934563374436297330797008753878690628384567446096920182954791int, 5int, 5366503012067304258789470338308073894766082776165158560281682052561055int);
    lemma_pow_mod_step(10int, 50076973149769449681912768699690528009961954272835962690463257801610nat, m, 25038486574884724840956384349845264004980977136417981345231628900805nat, 5366503012067304258789470338308073894766082776165158560281682052561055int, 140405699149783249148760251716857406419547922860492084297304131560090int, 149117041527850106998345012668520885447850982699166453752216466388189635int, 0int, 149117041527850106998345012668520885447850982699166453752216466388189635int);
    lemma_pow_mod_step(10int, 100153946299538899363825537399381056019923908545671925380926515603221nat, m, 50076973149769449681912768699690528009961954272835962690463257801610nat, 149117041527850106998345012668520885447850982699166453752216466388189635int, 108406803505224116923168525098389524735677394322574498523067457807864483int, 50268912774505791435795117129328927175327342947585394130457913538959032int, 2int, 92458563702146582563721770105424466295665100072781734944304127478795578int);
    lemma_pow_mod_step(10int, 200307892599077798727651074798762112039847817091343850761853031206442nat, m, 100153946299538899363825537399381056019923908545671925380926515603221nat, 92458563702146582563721770105424466295665100072781734944304127478795578int, 41676982415038632573061872269319696926149417045581991786538899889984444int, 57679174344219842336436866138469809682216585839500551223619358483857360int, 0int, 57679174344219842336436866138469809682216585839500551223619358483857360int);
    lemma_pow_mod_step(10int, 400615785198155597455302149597524224079695634182687701523706062412885nat, m, 200307892599077798727651074798762112039847817091343850761853031206442nat, 57679174344219842336436866138469809682216585839500551223619358483857360int, 16219596707976669584701290308035696827635506546258186341033744381319947int, 62343243154210330868644651353109097909606838255953083746796264952510263int, 3int, 8086585477736310995102411749293770909655888454922527927550137658910517int);
}

proof fn lemma_certificate_2_19()
    requires
        pow_mod(10int, 400615785198155597455302149597524224079695634182687701523706062412885nat, 205115282021455665897114700593932402728804164701536103180137503955397371int) == 8086585477736310995102411749293770909655888454922527927550137658910517int,
    ensures
        pow_mod(10int, 102557641010727832948557350296966201364402082350768051590068751977698685nat, 205115282021455665897114700593932402728804164701536103180137503955397371int) == 205115282021455665897114700593932402728804164701536103180137503955397370int,
{
    let m: int = 205115282021455665897114700593932402728804164701536103180137503955397371int;
    lemma_pow_mod_step(10int, 801231570396311194910604299195048448159391268365375403047412124825770nat, m, 400615785198155597455302149597524224079695634182687701523706062412885nat, 8086585477736310995102411749293770909655888454922527927550137658910517int, 318810300452871735990728103565242324935999514742927618648721424586299int, 43374721378697035570117318471538406664214620505176113330912205585987360int, 0int, 43374721378697035570117318471538406664214620505176113330912205585987360int);
    lemma_pow_mod_step(10int, 1602463140792622389821208598390096896318782536730750806094824249651541nat, m, 801231570396311194910604299195048448159391268365375403047412124825770nat, 43374721378697035570117318471538406664214620505176113330912205585987360int, 9172239318973810853435060200317983521566131203143935936767938862041953int, 62642455003619178746445545770133040871203667333871555222291813491864037int, 3int, 11078703971824789773111355919533200525624179234107242682505623052448257int);
    lemma_pow_mod_step(10int, 3204926281585244779642417196780193792637565073461501612189648499303083nat, m, 1602463140792622389821208598390096896318782536730750806094824249651541nat, 11078703971824789773111355919533200525624179234107242682505623052448257int, 598383896537205098879869375367258121357599661889945486513762456705665int, 128848213530051102825565387767831019588905586490806813935339453000531334int, 6int, 57790443171777032872965674114715779516230876698851520272569506272929114int);
    lemma_pow_mod_step(10int, 6409852563170489559284834393560387585275130146923003224379296998606167nat, m, 3204926281585244779642417196780193792637565073461501612189648499303083nat, 57790443171777032872965674114715779516230876698851520272569506272929114int, 16282235477905758767129566762199471960682327940785748236235097041477597int, 106454219819787241008044037006121794012846433289809052221107804139627509int, 5int, 38965788090594080594866867091555926484443509390410006310390521619288235int);
    lemma_pow_mod_step(10int, 12819705126340979118569668787120775170550260293846006448758593997212335nat, m, 6409852563170489559284834393560387585275130146923003224379296998606167nat, 38965788090594080594866867091555926484443509390410006310390521619288235int, 7402337975784083190692404300448283075011601008092465205045134336360718int, 164045576700148475872909625898082993964778959203790024076050774324542847int, 7int, 204648792851295097449293354823303120546160439127147518499545215557646873int);
    lemma_pow_mod_step(10int, 25639410252681958237139337574241550341100520587692012897517187994424671nat, m, 12819705126340979118569668787120775170550260293846006448758593997212335nat, 204648792851295097449293354823303120546160439127147518499545215557646873int, 204183364607184175233628751828860721899397100507368529092341416895206197int, 184124963666953416904060377502159541745113967120583553510894350849970042int, 8int, 200327380497888841863686170270136195620706353593546709667843476856521452int);
    lemma_pow_mod_step(10int, 51278820505363916474278675148483100682201041175384025795034375988849342nat, m, 25639410252681958237139337574241550341100520587692012897517187994424671nat, 200327380497888841863686170270136195620706353593546709667843476856521452int, 195651240520187603781317762044073353475170103668095877822676675902329733int, 193723128387713915503461738990293310580207034693851090952741723052856361int, 0int, 193723128387713915503461738990293310580207034693851090952741723052856361int);
    lemma_pow_mod_step(10int, 102557641010727832948557350296966201364402082350768051590068751977698685nat, m, 51278820505363916474278675148483100682201041175384025795034375988849342nat, 193723128387713915503461738990293310580207034693851090952741723052856361int, 182963697792137599674849771306576236389617768341832530133063471324176104int, 20511528202145566589711470059393240272880416470153610318013750395539737int, 0int, 205115282021455665897114700593932402728804164701536103180137503955397370int);
}

proof fn lemma_certificate_2()
    ensures
        pow_mod(10int, 102557641010727832948557350296966201364402082350768051590068751977698685nat, 205115282021455665897114700593932402728804164701536103180137503955397371int) == 205115282021455665897114700593932402728804164701536103180137503955397370int,
{
    lemma_pow_mod_zero(10int, 205115282021455665897114700593932402728804164701536103180137503955397371int);
    lemma_certificate_2_0();
    lemma_certificate_2_1();
    lemma_certificate_2_2();
    lemma_certificate_2_3();
    lemma_certificate_2_4();
    lemma_certificate_2_5();
    lemma_certificate_2_6();
    lemma_certificate_2_7();
    lemma_certificate_2_8();
    lemma_certificate_2_9();
    lemma_certificate_2_10();
    lemma_certificate_2_11();
    lemma_certificate_2_12();
    lemma_certificate_2_13();
    lemma_certificate_2_14();
    lemma_certificate_2_15();
    lemma_certificate_2_16();
    lemma_certificate_2_17();
    lemma_certificate_2_18();
    lemma_certificate_2_19();
}

proof fn lemma_certificate_3_0()
    requires
        pow_mod(10int, 0nat, 205115282021455665897114700593932402728804164701536103180137503955397371int) == 1int,
    ensures
        pow_mod(10int, 2536nat, 205115282021455665897114700593932402728804164701536103180137503955397371int) == 196692075285628494056718670844750636442573627036402745348342464984873133int,
{
    let m: int = 205115282021455665897114700593932402728804164701536103180137503955397371int;
    lemma_pow_mod_step(10int, 1nat, m, 0nat, 1int, 0int, 1int, 0int, 10int);
    lemma_pow_mod_step(10int, 2nat, m, 1nat, 10int, 0int, 100int, 0int, 100int);
    lemma_pow_mod_step(10int, 4nat, m, 2nat, 100int, 0int, 10000int, 0int, 10000int);
    lemma_pow_mod_step(10int, 9nat, m, 4nat, 10000int, 0int, 100000000int, 0int, 1000000000int);
    lemma_pow_mod_step(10int, 19nat, m, 9nat, 1000000000int, 0int, 1000000000000000000int, 0int, 10000000000000000000int);
    lemma_pow_mod_step(10int, 39nat, m, 19nat, 10000000000000000000int, 0int, 100000000000000000000000000000000000000int, 0int, 1000000000000000000000000000000000000000int);
    lemma_pow_mod_step(10int, 79nat, m, 39nat, 1000000000000000000000000000000000000000int, 4875307int, 29753823041862135420391497199449441954201448125413153366003723509382103int, 1int, 92422948397165688306800271400562016813210316552595430479899731138423659int);
    lemma_pow_mod_step(10int, 158nat, m, 79nat, 92422948397165688306800271400562016813210316552595430479899731138423659int, 41644880411843877302257685230175593543182474856576553796641373201410112int, 4747000719602401491799498907998409033368222291470148214345156873332729int, 0int, 4747000719602401491799498907998409033368222291470148214345156873332729int);
    lemma_pow_mod_step(10int, 317nat, m, 158nat, 4747000719602401491799498907998409033368222291470148214345156873332729int, 109860248392163158305700450949720142950020238136105095267301224737661int, 58290984589461105483717403205084447747257490421155149622551579058498210int, 2int, 172679281851699723042944630862979672014966574808479289865240782674187358int);
    lemma_pow_mod_step(10int, 634nat, m, 317nat, 172679281851699723042944630862979672014966574808479289865240782674187358int, 145372563599135866317907618832979444476010613840436238380041861799001369int, 113964472440947861989351777805068360379866616338607747017443660319019265int, 0int, 113964472440947861989351777805068360379866616338607747017443660319019265int);
    lemma_pow_mod_step(10int, 1268nat, m, 634nat, 113964472440947861989351777805068360379866616338607747017443660319019265int, 63320006440987619020628242169910991059919655793520366715439796586460772int, 143676779218843759890966510845362112768380676177765667442981379677709813int, 0int, 143676779218843759890966510845362112768380676177765667442981379677709813int);
    lemma_pow_mod_step(10int, 2536nat, m, 1268nat, 143676779218843759890966510845362112768380676177765667442981379677709813int, 100641047723304465452616609492646336716629162358382964415318499431530916int, 196692075285628494056718670844750636442573627036402745348342464984873133int, 0int, 196692075285628494056718670844750636442573627036402745348342464984873133int);
}

proof fn lemma_certificate_3_1()
    requires
        pow_mod(10int, 2536nat, 205115282021455665897114700593932402728804164701536103180137503955397371int) == 196692075285628494056718670844750636442573627036402745348342464984873133int,
    ensures
        pow_mod(10int, 10387658nat, 205115282021455665897114700593932402728804164701536103180137503955397371int) == 39642644432328370124705861513433514776090984885743699958178478854072644int,
{
    let m: int = 205115282021455665897114700593932402728804164701536103180137503955397371int;
    lemma_pow_mod_step(10int, 5072nat, m, 2536nat, 196692075285628494056718670844750636442573627036402745348342464984873133int, 188614773598977826850884586923762513150045563001474281708329566093563777int, 178278933588017574837554187705261273624093232243677204315824108538605422int, 0int, 178278933588017574837554187705261273624093232243677204315824108538605422int);
    lemma_pow_mod_step(10int, 10144nat, m, 5072nat, 178278933588017574837554187705261273624093232243677204315824108538605422int, 154953730643805201828566326604902982847793063368744707804231124719731799int, 15882529200602922449780224291119326701659911594746036889160183018097655int, 0int, 15882529200602922449780224291119326701659911594746036889160183018097655int);
    lemma_pow_mod_step(10int, 20288nat, m, 10144nat, 15882529200602922449780224291119326701659911594746036889160183018097655int, 1229819306109127035608222236458094382099902874150661661304834048788314int, 54629450367165162171930548416367999547747101997068497524325672185376531int, 0int, 54629450367165162171930548416367999547747101997068497524325672185376531int);
    lemma_pow_mod_step(10int, 40576nat, m, 20288nat, 54629450367165162171930548416367999547747101997068497524325672185376531int, 14549753767768445533524280989868404044487601860894626945110060147958263int, 204967759518698116404051608274391422002163384980848732597523637757667388int, 0int, 204967759518698116404051608274391422002163384980848732597523637757667388int);
    lemma_pow_mod_step(10int, 81153nat, m, 40576nat, 204967759518698116404051608274391422002163384980848732597523637757667388int, 204820343116707927456728686421126814427770138800347758132123949306274363int, 90842606431252070211555490571654459961480346886726821405072793623842871int, 4int, 87964936226698038527096103340814988699586810061123801330177920416839226int);
    lemma_pow_mod_step(10int, 162307nat, m, 81153nat, 87964936226698038527096103340814988699586810061123801330177920416839226int, 37724297912418115291395119043554564664896048063124483273436308332257462int, 187248674489101084908328622839484024819110061666988606729553220642346674int, 9int, 26449206697909856009253923049448623631863134356061138674294670824890401int);
    lemma_pow_mod_step(10int, 324614nat, m, 162307nat, 26449206697909856009253923049448623631863134356061138674294670824890401int, 3410572474437002141980532016734368871405037462937021989984341739751452int, 62212376113791330704573847037962147368368508010950691304141054227708109int, 0int, 62212376113791330704573847037962147368368508010950691304141054227708109int);
    lemma_pow_mod_step(10int, 649228nat, m, 324614nat, 62212376113791330704573847037962147368368508010950691304141054227708109int, 18869290008917916381617757002374821389738586422294175153095295497060419int, 79929072528635402339096466496175482040622964863872790053911335363597432int, 0int, 79929072528635402339096466496175482040622964863872790053911335363597432int);
    lemma_pow_mod_step(10int, 1298457nat, m, 649228nat, 79929072528635402339096466496175482040622964863872790053911335363597432int, 31146663341347653207110833036487928719330537311046458882860599655422920int, 137706813071035256405875582946949486671827192009800911967543208895851304int, 6int, 146376438581618568676067625905900450345446931888792500594607065226128814int);
    lemma_pow_mod_step(10int, 2596914nat, m, 1298457nat, 146376438581618568676067625905900450345446931888792500594607065226128814int, 104458632046719578621832844431095393924165812822333823031460417586407481int, 191395862933119084771665043961940899849746569184243999239600244838914145int, 0int, 191395862933119084771665043961940899849746569184243999239600244838914145int);
    lemma_pow_mod_step(10int, 5193829nat, m, 2596914nat, 191395862933119084771665043961940899849746569184243999239600244838914145int, 178594086149473021635391465816080885145294795929087638710280783013734451int, 37891262474915253784526844795707251410680813747035831906520498303552704int, 1int, 173797342727696871948153747363140111378003972768822215885067479080129669int);
    lemma_pow_mod_step(10int, 10387658nat, m, 5193829nat, 173797342727696871948153747363140111378003972768822215885067479080129669int, 147261169628740496902503408142747351111847262548405835145055395916034927int, 39642644432328370124705861513433514776090984885743699958178478854072644int, 0int, 39642644432328370124705861513433514776090984885743699958178478854072644int);
}

proof fn lemma_certificate_3_2()
    requires
        pow_mod(10int, 10387658nat, 205115282021455665897114700593932402728804164701536103180137503955397371int) == 39642644432328370124705861513433514776090984885743699958178478854072644int,
    ensures
        pow_mod(10int, 42547851124nat, 205115282021455665897114700593932402728804164701536103180137503955397371int) == 105299124848764567476804552473669985379526717566867017856975954035751068int,
{
    let m: int = 205115282021455665897114700593932402728804164701536103180137503955397371int;
    lemma_pow_mod_step(10int, 20775317nat, m, 10387658nat, 39642644432328370124705861513433514776090984885743699958178478854072644int, 7661736571259609329114095185330278556230386794356753971079541860453008int, 62731037108510602064484178684490216600078510849507841352831468516908768int, 3int, 11964525020739022953497685063104957814372614390470103987902173302895567int);
    lemma_pow_mod_step(10int, 41550635nat, m, 20775317nat, 11964525020739022953497685063104957814372614390470103987902173302895567int, 697899530259847818089401393092587593299204715742800446120921104762026int, 159725426088582910296111162388178688535681491421353042810030773287217843int, 7int, 161447286735639441681308719724260066255185761302777705839345205184396833int);
    lemma_pow_mod_step(10int, 83101271nat, m, 41550635nat, 161447286735639441681308719724260066255185761302777705839345205184396833int, 127075984477710828697151050586378610580325536164423414519633798688162552int, 16228488572148447693807746734432659444458821382447257300672315018979097int, 0int, 162284885721484476938077467344326594444588213824472573006723150189790970int);
    lemma_pow_mod_step(10int, 166202543nat, m, 83101271nat, 162284885721484476938077467344326594444588213824472573006723150189790970int, 128397961741731230391214134286813991890152923716763204659340320759278453int, 138883938827013188006834502047206788868320075105253269703097395440393837int, 6int, 158147696141397884685656816908473472310375762843316077950148930671554144int);
    lemma_pow_mod_step(10int, 332405086nat, m, 166202543nat, 158147696141397884685656816908473472310375762843316077950148930671554144int, 121934814160827484081622433944246468941994828506130203923578352582639564int, 112070412548230680364928936732289592380302176225093951990383216637386492int, 0int, 112070412548230680364928936732289592380302176225093951990383216637386492int);
    lemma_pow_mod_step(10int, 664810173nat, m, 332405086nat, 112070412548230680364928936732289592380302176225093951990383216637386492int, 61232772346123049155450889576943588369915672054823892623152097445151026int, 127573664068159791469907824731899129105697194664016537056336899245713418int, 6int, 45044948552863919316390043755396874684146958430948751482543968724749954int);
    lemma_pow_mod_step(10int, 1329620347nat, m, 664810173nat, 45044948552863919316390043755396874684146958430948751482543968724749954int, 9892229238764925050781315757146669055991511853306790384006516736690789int, 20982631744273216249780522535154823543964937198789008996555693772486397int, 1int, 4711035421276496600690524757615832710845207286353986785419433769466599int);
    lemma_pow_mod_step(10int, 2659240695nat, m, 1329620347nat, 4711035421276496600690524757615832710845207286353986785419433769466599int, 108201858592868155347583181291440975338278684672753613608250222115101int, 43060888103801214639755943022834599767221824191802272631263844421827330int, 2int, 20378316995100814603330029040481192214609912514950519952363436307478558int);
    lemma_pow_mod_step(10int, 5318481390nat, m, 2659240695nat, 20378316995100814603330029040481192214609912514950519952363436307478558int, 2024597092231165960255449804760303494137276597862162968655269186543895int, 101239848842921660480134440971021586771476234545907129049638108770659319int, 0int, 101239848842921660480134440971021586771476234545907129049638108770659319int);
    lemma_pow_mod_step(10int, 10636962781nat, m, 5318481390nat, 101239848842921660480134440971021586771476234545907129049638108770659319int, 49969494679901507745532798047472834285977791474844674837192069827822713int, 90611263268441161168502537407275828541510845371201888627316808307256238int, 4int, 85651504598588948096566571697028674499891794905874473552618067250972896int);
    lemma_pow_mod_step(10int, 21273925562nat, m, 10636962781nat, 85651504598588948096566571697028674499891794905874473552618067250972896int, 35766131941523096974495615986003806851101781420427398811341402877717740int, 177395067177589590072617623760584669698315198285568009061584875250565276int, 0int, 177395067177589590072617623760584669698315198285568009061584875250565276int);
    lemma_pow_mod_step(10int, 42547851124nat, m, 21273925562nat, 177395067177589590072617623760584669698315198285568009061584875250565276int, 153421088613230543551357796347326538423951987137697741768896267090520348int, 105299124848764567476804552473669985379526717566867017856975954035751068int, 0int, 105299124848764567476804552473669985379526717566867017856975954035751068int);
}

proof fn lemma_certificate_3_3()
    requires
        pow_mod(10int, 42547851124nat, 205115282021455665897114700593932402728804164701536103180137503955397371int) == 105299124848764567476804552473669985379526717566867017856975954035751068int,
    ensures
        pow_mod(10int, 174275998206950nat, 205115282021455665897114700593932402728804164701536103180137503955397371int) == 140558619168582121334031782623078866707523700349934237287022387871561085int,
{
    let m: int = 205115282021455665897114700593932402728804164701536103180137503955397371int;
    lemma_pow_mod_step(10int, 85095702249nat, m, 42547851124nat, 105299124848764567476804552473669985379526717566867017856975954035751068int, 54056945853287907752517167891870508963125887576257768174472642569389298int, 29354488442639428241700921536978519635547185223628420814055768478405066int, 1int, 88429602404938616519894514775852793626667687534748104960420180828653289int);
    lemma_pow_mod_step(10int, 170191404498nat, m, 85095702249nat, 88429602404938616519894514775852793626667687534748104960420180828653289int, 38123900396058992235168302327424897831813291893120200834032755940459411int, 53008989227523908545472728136843411009219769913406184320820026568909040int, 0int, 53008989227523908545472728136843411009219769913406184320820026568909040int);
    lemma_pow_mod_step(10int, 340382808997nat, m, 170191404498nat, 53008989227523908545472728136843411009219769913406184320820026568909040int, 13699383640414546898704189279973715874488227752375721410282488309737932int, 62832369745612587824181187515799621296674265011768042979201925861944828int, 3int, 12977851391758880550467773376199004780330156013072120251606746753256167int);
    lemma_pow_mod_step(10int, 680765617995nat, m, 340382808997nat, 12977851391758880550467773376199004780330156013072120251606746753256167int, 821121786181490846651815315955548591397178809263474566735195780953367int, 52161671964139535870870269302002103972911235235795217140884277418133732int, 2int, 111386155598484026914473291832156234271504022954879965048567766270542578int);
    lemma_pow_mod_step(10int, 1361531235991nat, m, 680765617995nat, 111386155598484026914473291832156234271504022954879965048567766270542578int, 60487329548228876472631841601195412992923775582541227879966504133201127int, 162731042154947556578422609927199139946906842799195580284387910960848967int, 7int, 191503447399285904504423195114464580367439275081203080582916581920708073int);
    lemma_pow_mod_step(10int, 2723062471983nat, m, 1361531235991nat, 191503447399285904504423195114464580367439275081203080582916581920708073int, 178794919639263637127571306527406758983263604188720879465017094945390647int, 96432053510689158029773607853484319480088382356560793381202127975584292int, 4int, 143859407021068916709277276159113583885667164759463521091471263934253436int);
    lemma_pow_mod_step(10int, 5446124943967nat, m, 2723062471983nat, 143859407021068916709277276159113583885667164759463521091471263934253436int, 100897060348183901341248121699256415207748171678849550037173261744782407int, 35915965044409109058213922559286169018599010798687431761079113062954099int, 1int, 154044368422635424685024524998929287457185943285338214430653626674143619int);
    lemma_pow_mod_step(10int, 10892249887934nat, m, 5446124943967nat, 154044368422635424685024524998929287457185943285338214430653626674143619int, 115689417233409475919308483354373604289585038185576324881154876075138750int, 29538027774116783184040599351386418178605764714467155539134996828190911int, 0int, 29538027774116783184040599351386418178605764714467155539134996828190911int);
    lemma_pow_mod_step(10int, 21784499775868nat, m, 10892249887934nat, 29538027774116783184040599351386418178605764714467155539134996828190911int, 4253681520878726702570916695031106048851647371595638304943835944272079int, 129584559632547711874323321942528586470093537215768640036851313277705612int, 0int, 129584559632547711874323321942528586470093537215768640036851313277705612int);
    lemma_pow_mod_step(10int, 43568999551737nat, m, 21784499775868nat, 129584559632547711874323321942528586470093537215768640036851313277705612int, 81866928342300719051092816802161725083549531386945521662962494275628061int, 120222696639543835652957330736739293331208143523639331168648237083066913int, 5int, 176650556288160027043999804397730919668060611728712795785794851053682275int);
    lemma_pow_mod_step(10int, 87137999103475nat, m, 43568999551737nat, 176650556288160027043999804397730919668060611728712795785794851053682275int, 152136002395239447996451603143542058443560785960190844648363432991578149int, 141775564061409697601564879989360067931385661296556063449903460953529346int, 6int, 187063948485362980632960596330006262941031624756344015418209585802909234int);
    lemma_pow_mod_step(10int, 174275998206950nat, m, 87137999103475nat, 187063948485362980632960596330006262941031624756344015418209585802909234int, 170601236914537512788553175891097114774686213232100675019909290805707301int, 140558619168582121334031782623078866707523700349934237287022387871561085int, 0int, 140558619168582121334031782623078866707523700349934237287022387871561085int);
}

proof fn lemma_certificate_3_4()
    requires
        pow_mod(10int, 174275998206950nat, 205115282021455665897114700593932402728804164701536103180137503955397371int) == 140558619168582121334031782623078866707523700349934237287022387871561085int,
    ensures
        pow_mod(10int, 713834488655670446nat, 205115282021455665897114700593932402728804164701536103180137503955397371int) == 126795308418733304035206311151455420272286657153365623667263290198522443int,
{
    let m: int = 205115282021455665897114700593932402728804164701536103180137503955397371int;
    lemma_pow_mod_step(10int, 348551996413901nat, m, 174275998206950nat, 140558619168582121334031782623078866707523700349934237287022387871561085int, 96320104615666273808964417544449124639637343344892990321179398273137673int, 74607815836557051055551981492495220796428576948170051706670323181119542int, 3int, 130732312301203512864175713143154999777873275377092207526290719945003307int);
    lemma_pow_mod_step(10int, 697103992827803nat, m, 348551996413901nat, 130732312301203512864175713143154999777873275377092207526290719945003307int, 83323569610145599284621602626019886642780724219689869918768776222308181int, 149005344525054300561575268234999173612510827915552315708354125561744098int, 7int, 54246471100353344335949778192464917023479126244770434822578727929659383int);
    lemma_pow_mod_step(10int, 1394207985655606nat, m, 697103992827803nat, 54246471100353344335949778192464917023479126244770434822578727929659383int, 14346467010359850094634892148588199941106806094320644306717934136264424int, 189972880381864553415456852777597426156824369567751798488325991949511385int, 0int, 189972880381864553415456852777597426156824369567751798488325991949511385int);
    lemma_pow_mod_step(10int, 2788415971311212nat, m, 1394207985655606nat, 189972880381864553415456852777597426156824369567751798488325991949511385int, 175948349264425500550224854544792013079612270213642341295525359620494750int, 18535115007204233783484146556012799515801962113712853458527448375315975int, 0int, 18535115007204233783484146556012799515801962113712853458527448375315975int);
    lemma_pow_mod_step(10int, 5576831942622425nat, m, 2788415971311212nat, 18535115007204233783484146556012799515801962113712853458527448375315975int, 1674914150445168707425355324524464484000667270188962856555761991986490int, 127049739541398457074601458868907651434146046145914159121245595476682835int, 6int, 39805703285250575363326385125482097968635473249924972131630931034444124int);
    lemma_pow_mod_step(10int, 11153663885244850nat, m, 5576831942622425nat, 39805703285250575363326385125482097968635473249924972131630931034444124int, 7724894987920332929655385392547147525701132431013291904720710847104394int, 9527377220478985882791445801028556708379261340378909272322382687979202int, 0int, 9527377220478985882791445801028556708379261340378909272322382687979202int);
    lemma_pow_mod_step(10int, 22307327770489701nat, m, 11153663885244850nat, 9527377220478985882791445801028556708379261340378909272322382687979202int, 442536098757414769781490009319895154971446136781726022326534577588996int, 183491264487434240701700865915504202270371349474213742644827600087627288int, 8int, 193990388702697079840091054403582800873280177129848601007175969233093912int);
    lemma_pow_mod_step(10int, 44614655540979402nat, m, 22307327770489701nat, 193990388702697079840091054403582800873280177129848601007175969233093912int, 183468879247559213298509654640344078401998571284919768892222087269001852int, 204403434145894961639506292150334774740005315264563130980941732616532652int, 0int, 204403434145894961639506292150334774740005315264563130980941732616532652int);
    lemma_pow_mod_step(10int, 89229311081958805nat, m, 44614655540979402nat, 204403434145894961639506292150334774740005315264563130980941732616532652int, 203694056722038032835876525930057987871458318133176312498836969027051616int, 116791238939974222889960779139314942781538403995389413030570649174451568int, 5int, 142335979292463899414034288423487414171363216446213614405018971967528825int);
    lemma_pow_mod_step(10int, 178458622163917611nat, m, 89229311081958805nat, 142335979292463899414034288423487414171363216446213614405018971967528825int, 98771436245425657946750685652254173215105469334071347955923037118687218int, 42878221305941473813768979575555454399573275036597822534724340157376747int, 2int, 18551649016503406343460394567689738538124420962906018986968393662972728int);
    lemma_pow_mod_step(10int, 356917244327835223nat, m, 178458622163917611nat, 18551649016503406343460394567689738538124420962906018986968393662972728int, 1677903654177904031730189650762903862851795634099539589613142586557686int, 12942289276950885381396193555670703966149079672932977097761634927518478int, 0int, 129422892769508853813961935556707039661490796729329770977616349275184780int);
    lemma_pow_mod_step(10int, 713834488655670446nat, m, 356917244327835223nat, 129422892769508853813961935556707039661490796729329770977616349275184780int, 81662784984863574044654047944820583727415628588724049565173564229215167int, 126795308418733304035206311151455420272286657153365623667263290198522443int, 0int, 126795308418733304035206311151455420272286657153365623667263290198522443int);
}

proof fn lemma_certificate_3_5()
    requires
        pow_mod(10int, 713834488655670446nat, 205115282021455665897114700593932402728804164701536103180137503955397371int) == 126795308418733304035206311151455420272286657153365623667263290198522443int,
    ensures
        pow_mod(10int, 2923866065533626147192nat, 205115282021455665897114700593932402728804164701536103180137503955397371int) == 156750745903083849702880979979300080915570247613240124797002063466091968int,
{
    let m: int = 205115282021455665897114700593932402728804164701536103180137503955397371int;
    lemma_pow_mod_step(10int, 1427668977311340892nat, m, 713834488655670446nat, 126795308418733304035206311151455420272286657153365623667263290198522443int, 78380557891927299801982501555969522329109168110027288926437145794086913int, 189289356587852290745181764326711169765261422649222285788233517348982526int, 0int, 189289356587852290745181764326711169765261422649222285788233517348982526int);
    lemma_pow_mod_step(10int, 2855337954622681784nat, m, 1427668977311340892nat, 189289356587852290745181764326711169765261422649222285788233517348982526int, 174684500171445670971740342229958632805072958199780279571375242539152173int, 57470792296425421399469995580393085163385747064371572045199317800203493int, 0int, 57470792296425421399469995580393085163385747064371572045199317800203493int);
    lemma_pow_mod_step(10int, 5710675909245363568nat, m, 2855337954622681784nat, 57470792296425421399469995580393085163385747064371572045199317800203493int, 16102612806945214744819411536270424785710855515243237692784902950448256int, 183894964643939985266648117417671781520458232990013532815661017155466073int, 0int, 183894964643939985266648117417671781520458232990013532815661017155466073int);
    lemma_pow_mod_step(10int, 11421351818490727137nat, m, 5710675909245363568nat, 183894964643939985266648117417671781520458232990013532815661017155466073int, 164870007188730781363740464620406433769836785892812444339935194881442356int, 137711893072889826704765365889256147681771579227291200900142430243595253int, 6int, 146427238600164271664965455328967060444890804063695389920599278703568304int);
    lemma_pow_mod_step(10int, 22842703636981454274nat, m, 11421351818490727137nat, 146427238600164271664965455328967060444890804063695389920599278703568304int, 104531149472454481639451506173387867801096818265129365734010416539953046int, 170785104241661743703894968014194027586345538269742925174607187781594350int, 0int, 170785104241661743703894968014194027586345538269742925174607187781594350int);
    lemma_pow_mod_step(10int, 45685407273962908549nat, m, 22842703636981454274nat, 170785104241661743703894968014194027586345538269742925174607187781594350int, 142200773844750659909671460682577502583798801699842247341477425479793829int, 69983010921030033754526466508548861406718142268258155397964203103298941int, 3int, 84484263145933339853920563303691405880768928577973244439229519166797297int);
    lemma_pow_mod_step(10int, 91370814547925817099nat, m, 45685407273962908549nat, 84484263145933339853920563303691405880768928577973244439229519166797297int, 34797947032365424752889090141657920536127383741556231067051204333807199int, 156785685697583560236993362741393029303212778510769340437254322941032380int, 7int, 132049882825645941090130723256403473930498632196940682111580701722542203int);
    lemma_pow_mod_step(10int, 182741629095851634199nat, m, 91370814547925817099nat, 132049882825645941090130723256403473930498632196940682111580701722542203int, 85011567068137044468234890670992335631827240450578997995277196632249114int, 15780593454826469112173960994549246956092183794661613799092641783413915int, 0int, 157805934548264691121739609945492469560921837946616137990926417834139150int);
    lemma_pow_mod_step(10int, 365483258191703268399nat, m, 182741629095851634199nat, 157805934548264691121739609945492469560921837946616137990926417834139150int, 121408374516172335239451622012578617722353766372259627072439609048946776int, 29606972391175319985913026704121093837211235532249394023467333453396604int, 1int, 90954441890297533962015566447278535643308190620957837054535830578568669int);
    lemma_pow_mod_step(10int, 730966516383406536798nat, m, 365483258191703268399nat, 90954441890297533962015566447278535643308190620957837054535830578568669int, 40332004607585313059198290081877601809473725812754503174094580765858496int, 73984743776286276622459190062771530330961363934096468596738383112017545int, 0int, 73984743776286276622459190062771530330961363934096468596738383112017545int);
    lemma_pow_mod_step(10int, 1461933032766813073596nat, m, 730966516383406536798nat, 73984743776286276622459190062771530330961363934096468596738383112017545int, 26686175002163716345528690601404175654052682330570175979886105676123607int, 145833905807454214945018621880568463690671598392042057827677407788989828int, 0int, 145833905807454214945018621880568463690671598392042057827677407788989828int);
    lemma_pow_mod_step(10int, 2923866065533626147192nat, m, 1461933032766813073596nat, 145833905807454214945018621880568463690671598392042057827677407788989828int, 103685731621073371726176452334353314483746960770096689315502313695130096int, 156750745903083849702880979979300080915570247613240124797002063466091968int, 0int, 156750745903083849702880979979300080915570247613240124797002063466091968int);
}

proof fn lemma_certificate_3_6()
    requires
        pow_mod(10int, 2923866065533626147192nat, 205115282021455665897114700593932402728804164701536103180137503955397371int) == 156750745903083849702880979979300080915570247613240124797002063466091968int,
    ensures
        pow_mod(10int, 11976155404425732698901165nat, 205115282021455665897114700593932402728804164701536103180137503955397371int) == 148773740589860748097084269214519116634281984642858178581934283320307566int,
{
    let m: int = 205115282021455665897114700593932402728804164701536103180137503955397371int;
    lemma_pow_mod_step(10int, 5847732131067252294385nat, m, 2923866065533626147192nat, 156750745903083849702880979979300080915570247613240124797002063466091968int, 119790178961911673820516839616831751510158499746299887490414412477739075int, 133967369125060689741616465971459516001769484561442150866930457355141199int, 6int, 108981999121872902033476456151000743644869857405204889588479549819027764int);
    lemma_pow_mod_step(10int, 11695464262134504588770nat, m, 5847732131067252294385nat, 108981999121872902033476456151000743644869857405204889588479549819027764int, 57904394131674346212135518043328811364770951951605441920516044652649933int, 72578791804546318781652599648156623592286429138931791737005697031313553int, 0int, 72578791804546318781652599648156623592286429138931791737005697031313553int);
    lemma_pow_mod_step(10int, 23390928524269009177541nat, m, 11695464262134504588770nat, 72578791804546318781652599648156623592286429138931791737005697031313553int, 25681562913760198789319296327856124717996164726823794495901826941992667int, 81968137401216265610964215137299012505950805516484927297436156048405352int, 3int, 204335527947795658418298049591192916873095561060240963433949048617861407int);
    lemma_pow_mod_step(10int, 46781857048538018355082nat, m, 23390928524269009177541nat, 204335527947795658418298049591192916873095561060240963433949048617861407int, 203558738140909911942869398891328848691765117170028568201970346644270999int, 200023382739821411479876524193653692151146779218799954889863108603876020int, 0int, 200023382739821411479876524193653692151146779218799954889863108603876020int);
    lemma_pow_mod_step(10int, 93563714097076036710165nat, m, 46781857048538018355082nat, 200023382739821411479876524193653692151146779218799954889863108603876020int, 195057887683356471113847843282469381855557732254549191762793643672157826int, 13042279992580853416737426774323015367725976120845566194967716673564954int, 0int, 130422799925808534167374267743230153677259761208455661949677166735649540int);
    lemma_pow_mod_step(10int, 187127428194152073420330nat, m, 93563714097076036710165nat, 130422799925808534167374267743230153677259761208455661949677166735649540int, 82929494930115324363187103098919083143370683366388421818195797975084812int, 51700121888529263281897770692111770996845778181907401578439936815382348int, 0int, 51700121888529263281897770692111770996845778181907401578439936815382348int);
    lemma_pow_mod_step(10int, 374254856388304146840661nat, m, 187127428194152073420330nat, 51700121888529263281897770692111770996845778181907401578439936815382348int, 13031221159860673421090161835420100689214440840185665543055559671032513int, 86641582496957796176981428310248250155875261317453912709874702654269781int, 4int, 45954696883755298181355480726752890643535954368394714378197010721108326int);
    lemma_pow_mod_step(10int, 748509712776608293681322nat, m, 374254856388304146840661nat, 45954696883755298181355480726752890643535954368394714378197010721108326int, 10295840197108886339591523967787293664640038506965710856965340662127492int, 136250564464034939441037097051507211889113677566805121495359256702898744int, 0int, 136250564464034939441037097051507211889113677566805121495359256702898744int);
    lemma_pow_mod_step(10int, 1497019425553216587362645nat, m, 748509712776608293681322nat, 136250564464034939441037097051507211889113677566805121495359256702898744int, 90506256451561072101879991613445449333298982965477159475981173836511160int, 106548775709961199776017015797916328557508799132356700513485346240617176int, 5int, 39911346992333668274596655009501271931067167815886489234165942629184905int);
    lemma_pow_mod_step(10int, 2994038851106433174725291nat, m, 1497019425553216587362645nat, 39911346992333668274596655009501271931067167815886489234165942629184905int, 7765952897531243224955072914593629331747887589180512888854358870991314int, 80716443345430357617871906272947449086549807865373120233000093120423531int, 3int, 191818587389936578487374960947677282679085584549122892789588419338043197int);
    lemma_pow_mod_step(10int, 5988077702212866349450582nat, m, 2994038851106433174725291nat, 191818587389936578487374960947677282679085584549122892789588419338043197int, 179383857241909142849035197818180751368232329098888809912381242319634953int, 10703568090129504694668452939839163636521128770568089493308754262072246int, 0int, 10703568090129504694668452939839163636521128770568089493308754262072246int);
    lemma_pow_mod_step(10int, 11976155404425732698901165nat, m, 5988077702212866349450582nat, 10703568090129504694668452939839163636521128770568089493308754262072246int, 558546241562121106060189469895636926126333776145967485041400656980641int, 96923486867568341168554307159024872754949864344900259130248429914189705int, 4int, 148773740589860748097084269214519116634281984642858178581934283320307566int);
}

proof fn lemma_certificate_3_7()
    requires
        pow_mod(10int, 11976155404425732698901165nat, 205115282021455665897114700593932402728804164701536103180137503955397371int) == 148773740589860748097084269214519116634281984642858178581934283320307566int,
    ensures
        pow_mod(10int, 49054332536527801134699173972nat, 205115282021455665897114700593932402728804164701536103180137503955397371int) == 131768808189994607799659655652691277534465388740264006148399430724684600int,
{
    let m: int = 205115282021455665897114700593932402728804164701536103180137503955397371int;
    lemma_pow_mod_step(10int, 23952310808851465397802331nat, m, 11976155404425732698901165nat, 148773740589860748097084269214519116634281984642858178581934283320307566int, 107908224443188668331080273851032797238221171697215790100485673154287408int, 75213605571287821418919887813005319833996222578999163245733601855239988int, 3int, 136790209648511216497854776348255990153549731685383322916923506686207767int);
    lemma_pow_mod_step(10int, 47904621617702930795604662nat, m, 23952310808851465397802331nat, 136790209648511216497854776348255990153549731685383322916923506686207767int, 91224609260105575019313980880054567732761263354890834728737267460160417int, 10923135858788883341435818844289676843666861078873563616043442851062582int, 0int, 10923135858788883341435818844289676843666861078873563616043442851062582int);
    lemma_pow_mod_step(10int, 95809243235405861591209324nat, m, 47904621617702930795604662nat, 10923135858788883341435818844289676843666861078873563616043442851062582int, 581696769805181383059914699453243070861375573312747185546368373996216int, 187292322284948993735778639525222356741199703015574995444879828950158588int, 0int, 187292322284948993735778639525222356741199703015574995444879828950158588int);
    lemma_pow_mod_step(10int, 191618486470811723182418648nat, m, 95809243235405861591209324nat, 187292322284948993735778639525222356741199703015574995444879828950158588int, 171018042347619401068720298991259089364481188943820631086175067812311637int, 116295000445153458577982945306947853658221379306947847126475399927647417int, 0int, 116295000445153458577982945306947853658221379306947847126475399927647417int);
    lemma_pow_mod_step(10int, 383236972941623446364837296nat, m, 191618486470811723182418648nat, 116295000445153458577982945306947853658221379306947847126475399927647417int, 65936223743307129800600891073529358392841342023714958259987085852372563int, 171253549404958410843564510109176357528338171249579348811480266464040016int, 0int, 171253549404958410843564510109176357528338171249579348811480266464040016int);
    lemma_pow_mod_step(10int, 766473945883246892729674593nat, m, 383236972941623446364837296nat, 171253549404958410843564510109176357528338171249579348811480266464040016int, 142981926528169455593260582778649746809897928551670798619857765154570744int, 138118949473286873367098174459705392246310529066370571368357118998166232int, 6int, 150497802604134738288293541033459506090280302454489094602746166249278094int);
    lemma_pow_mod_step(10int, 1532947891766493785459349186nat, m, 766473945883246892729674593nat, 150497802604134738288293541033459506090280302454489094602746166249278094int, 110423701079005370140931865000771752205511650394204840877033631207409638int, 149572249929066296342450645405670597733213713971138432093118138283011138int, 0int, 149572249929066296342450645405670597733213713971138432093118138283011138int);
    lemma_pow_mod_step(10int, 3065895783532987570918698373nat, m, 1532947891766493785459349186nat, 149572249929066296342450645405670597733213713971138432093118138283011138int, 109069678906240199602133735413673969184612177847543905972272694671649263int, 6792037622174822849874536981299788071158295694950292974747689127767471int, 0int, 67920376221748228498745369812997880711582956949502929747476891277674710int);
    lemma_pow_mod_step(10int, 6131791567065975141837396746nat, m, 3065895783532987570918698373nat, 67920376221748228498745369812997880711582956949502929747476891277674710int, 22490657256933543036536861531252525355971569644549134913959230798013602int, 98472066544079119740785772739501096056629447757639085027436231200543758int, 0int, 98472066544079119740785772739501096056629447757639085027436231200543758int);
    lemma_pow_mod_step(10int, 12263583134131950283674793493nat, m, 6131791567065975141837396746nat, 98472066544079119740785772739501096056629447757639085027436231200543758int, 47274624269327907654198470639503270836778370160660396850543622557846010int, 100956530440557597580089921005737694395367642345182610567914591495922854int, 4int, 189104176319753312212440407681647333038459764645681692958595899137639056int);
    lemma_pow_mod_step(10int, 24527166268263900567349586986nat, m, 12263583134131950283674793493nat, 189104176319753312212440407681647333038459764645681692958595899137639056int, 174342882447109458783893135788342171719072039782821413694223940051617866int, 62765875111926779226400765266334215023061782721722892564601286263540850int, 0int, 62765875111926779226400765266334215023061782721722892564601286263540850int);
    lemma_pow_mod_step(10int, 49054332536527801134699173972nat, m, 24527166268263900567349586986nat, 62765875111926779226400765266334215023061782721722892564601286263540850int, 19206541022886341318318062725449959334435601433984712591736656234524900int, 131768808189994607799659655652691277534465388740264006148399430724684600int, 0int, 131768808189994607799659655652691277534465388740264006148399430724684600int);
}

proof fn lemma_certificate_3_8()
    requires
        pow_mod(10int, 49054332536527801134699173972nat, 205115282021455665897114700593932402728804164701536103180137503955397371int) == 131768808189994607799659655652691277534465388740264006148399430724684600int,
    ensures
        pow_mod(10int, 200926546069617873447727816590418nat, 205115282021455665897114700593932402728804164701536103180137503955397371int) == 4077452594372502920674754255892021639067739880310032012032897474279568int,
{
    let m: int = 205115282021455665897114700593932402728804164701536103180137503955397371int;
    lemma_pow_mod_step(10int, 98108665073055602269398347944nat, m, 49054332536527801134699173972nat, 131768808189994607799659655652691277534465388740264006148399430724684600int, 84650049673019326002812389620600317336113657241274905776032114096536484int, 80449556767258888538934312745668244816202194473888831869161320457976436int, 0int, 80449556767258888538934312745668244816202194473888831869161320457976436int);
    lemma_pow_mod_step(10int, 196217330146111204538796695889nat, m, 98108665073055602269398347944nat, 80449556767258888538934312745668244816202194473888831869161320457976436int, 31553627405350549849603438039134886694106756922691804656738589105852835int, 201825478739861200311629956288559879789988590408458896646701411659365311int, 9int, 172217249205511010042267257540207173340648421770764037845776580995076771int);
    lemma_pow_mod_step(10int, 392434660292222409077593391778nat, m, 196217330146111204538796695889nat, 172217249205511010042267257540207173340648421770764037845776580995076771int, 144595666552093794298094908775204284083847099072093795324067543947713632int, 81906340554496888344245327872923521818891445400124494676210678710124969int, 0int, 81906340554496888344245327872923521818891445400124494676210678710124969int);
    lemma_pow_mod_step(10int, 784869320584444818155186783556nat, m, 392434660292222409077593391778nat, 81906340554496888344245327872923521818891445400124494676210678710124969int, 32706722565544760954683222308352955450233759089809966246930240779830232int, 108160339237790996940651369066366093801504024207340054390877946118130889int, 0int, 108160339237790996940651369066366093801504024207340054390877946118130889int);
    lemma_pow_mod_step(10int, 1569738641168889636310373567112nat, m, 784869320584444818155186783556nat, 108160339237790996940651369066366093801504024207340054390877946118130889int, 57034555732470076825655253535692395117371716020518729899325457051939989int, 30465411008622836470555162763025268433480788277516732251798551995561402int, 0int, 30465411008622836470555162763025268433480788277516732251798551995561402int);
    lemma_pow_mod_step(10int, 3139477282337779272620747134225nat, m, 1569738641168889636310373567112nat, 30465411008622836470555162763025268433480788277516732251798551995561402int, 4524973755135569026560667957157610682722429635087437913471516386795561int, 197060746681609919640906352976015779760868101280981837132047428058335473int, 9int, 124569928622998203335031224414766173049443530495993442699236744984778391int);
    lemma_pow_mod_step(10int, 6278954564675558545241494268450nat, m, 3139477282337779272620747134225nat, 124569928622998203335031224414766173049443530495993442699236744984778391int, 75653393370834617398851542913176117866452125179968580018380884054082937int, 17374742756849712010779691759153241588987866425157895810573316554790254int, 0int, 17374742756849712010779691759153241588987866425157895810573316554790254int);
    lemma_pow_mod_step(10int, 12557909129351117090482988536901nat, m, 6278954564675558545241494268450nat, 17374742756849712010779691759153241588987866425157895810573316554790254int, 1471765940068394379585149045816672731991323586303628877808598910529814int, 79791338280668946652456196572054544834371043488778649304988663420665522int, 3int, 182567536742322468833217863938748240157297940783178183509474122340463107int);
    lemma_pow_mod_step(10int, 25115818258702234180965977073802nat, m, 12557909129351117090482988536901nat, 182567536742322468833217863938748240157297940783178183509474122340463107int, 162498401599705053873747777811946157302888189237265512574366806492409868int, 139134578931658081023792643791851954854284074226565536153755511886436421int, 0int, 139134578931658081023792643791851954854284074226565536153755511886436421int);
    lemma_pow_mod_step(10int, 50231636517404468361931954147604nat, m, 25115818258702234180965977073802nat, 139134578931658081023792643791851954854284074226565536153755511886436421int, 94378297237086623031821006958111012249917702394308096738034440587278122int, 109509245897905959388184928714069038236330279815068922837351210670671979int, 0int, 109509245897905959388184928714069038236330279815068922837351210670671979int);
    lemma_pow_mod_step(10int, 100463273034808936723863908295209nat, m, 50231636517404468361931954147604nat, 109509245897905959388184928714069038236330279815068922837351210670671979int, 58466023686492582853414693964229743783831934493207534485514469805661274int, 44400673818195051930210656811620873157758970323925061510343599319665787int, 2int, 33776174139039187507877166928343926119981373836178408743160985285863128int);
    lemma_pow_mod_step(10int, 200926546069617873447727816590418nat, m, 100463273034808936723863908295209nat, 33776174139039187507877166928343926119981373836178408743160985285863128int, 5561896355198757982107555698065503513061523919062408639856185708833296int, 4077452594372502920674754255892021639067739880310032012032897474279568int, 0int, 4077452594372502920674754255892021639067739880310032012032897474279568int);
}

proof fn lemma_certificate_3_9()
    requires
        pow_mod(10int, 200926546069617873447727816590418nat, 205115282021455665897114700593932402728804164701536103180137503955397371int) == 4077452594372502920674754255892021639067739880310032012032897474279568int,
    ensures
        pow_mod(10int, 822995132701154809641893136754353000nat, 205115282021455665897114700593932402728804164701536103180137503955397371int) == 70471675530223269678420336373756267322752872153828901942505411000072119int,
{
    let m: int = 205115282021455665897114700593932402728804164701536103180137503955397371int;
    lemma_pow_mod_step(10int, 401853092139235746895455633180836nat, m, 200926546069617873447727816590418nat, 4077452594372502920674754255892021639067739880310032012032897474279568int, 81055002316287509906289387921178177993487456385900810946301107234099int, 113172883344092556175833628466179195830265886521714528676497456356112895int, 0int, 113172883344092556175833628466179195830265886521714528676497456356112895int);
    lemma_pow_mod_step(10int, 803706184278471493790911266361672nat, m, 401853092139235746895455633180836nat, 113172883344092556175833628466179195830265886521714528676497456356112895int, 62443428876624692320437035059576464005033631022558398663470411159336143int, 204558727941040406728262656452362301649028551530621569663816891857800972int, 0int, 204558727941040406728262656452362301649028551530621569663816891857800972int);
    lemma_pow_mod_step(10int, 1607412368556942987581822532723345nat, m, 803706184278471493790911266361672nat, 204558727941040406728262656452362301649028551530621569663816891857800972int, 204003683998930661400873653218855194000061271996792401197270442653637854int, 26099627794051631064268010381745606035091339860058154222328180266462950int, 1int, 55880995919060644745565403223523657622109233899045439043144298709232129int);
    lemma_pow_mod_step(10int, 3214824737113885975163645065446691nat, m, 1607412368556942987581822532723345nat, 55880995919060644745565403223523657622109233899045439043144298709232129int, 15224051928902256343498825415036272669997700044901871869786130394837298int, 119328952789125523797438398782022344007785083681830098888033456323929083int, 5int, 167713117783976908488810484850561426433830013310620472979647043462303975int);
    lemma_pow_mod_step(10int, 6429649474227771950327290130893382nat, m, 3214824737113885975163645065446691nat, 167713117783976908488810484850561426433830013310620472979647043462303975int, 137131127430475277399083245524604941661417966516282213842630684448201358int, 48746943583535680832492969849861458151828249310768730248445578188970807int, 0int, 48746943583535680832492969849861458151828249310768730248445578188970807int);
    lemma_pow_mod_step(10int, 12859298948455543900654580261786765nat, m, 6429649474227771950327290130893382nat, 48746943583535680832492969849861458151828249310768730248445578188970807int, 11585019337992798509287860331044603469798196170142676379612581123727996int, 204859283480968671386158156388785350257639491393743685521424916800732733int, 9int, 202555296616585720787549258542461878017157431623611926593011632408750991int);
    lemma_pow_mod_step(10int, 25718597896911087801309160523573531nat, m, 12859298948455543900654580261786765nat, 202555296616585720787549258542461878017157431623611926593011632408750991int, 200027261660305274819408564141663204214019292058830747628137969412206273int, 114201516801006430822487213061076575303104306316062104335275389109573798int, 5int, 116438757902785978739298627641103739387022239652940527452066371318751125int);
    lemma_pow_mod_step(10int, 51437195793822175602618321047147062nat, m, 25718597896911087801309160523573531nat, 116438757902785978739298627641103739387022239652940527452066371318751125int, 66099337934876051347242190281134502307006320505703804512760906292983636int, 103613463107635723602218905902379770856337936281953447330642200108344669int, 0int, 103613463107635723602218905902379770856337936281953447330642200108344669int);
    lemma_pow_mod_step(10int, 102874391587644351205236642094294125nat, m, 51437195793822175602618321047147062nat, 103613463107635723602218905902379770856337936281953447330642200108344669int, 52340077401128980373637751443314013036664359452321779862058468203852865int, 47035408116625034395039534345644962849649404543751277193857953008901646int, 2int, 60123517123339012156165942268584823038885716034440565578304522178221718int);
    lemma_pow_mod_step(10int, 205748783175288702410473284188588250nat, m, 102874391587644351205236642094294125nat, 60123517123339012156165942268584823038885716034440565578304522178221718int, 17623442171911484958413566722260569544282241795808173323859966617610835int, 199712808569904706878376567657131622247143741019598754586522413706756739int, 0int, 199712808569904706878376567657131622247143741019598754586522413706756739int);
    lemma_pow_mod_step(10int, 411497566350577404820946568377176500nat, m, 205748783175288702410473284188588250nat, 199712808569904706878376567657131622247143741019598754586522413706756739int, 194452629339959624671226180836449976172091139806802898156321152487940917int, 190285636400202318539311162500894868995006500415989975905508389816784914int, 0int, 190285636400202318539311162500894868995006500415989975905508389816784914int);
    lemma_pow_mod_step(10int, 822995132701154809641893136754353000nat, m, 411497566350577404820946568377176500nat, 190285636400202318539311162500894868995006500415989975905508389816784914int, 176528160473398916963521179654383289258963701886341350173481157684664087int, 70471675530223269678420336373756267322752872153828901942505411000072119int, 0int, 70471675530223269678420336373756267322752872153828901942505411000072119int);
}

proof fn lemma_certificate_3_10()
    requires
        pow_mod(10int, 822995132701154809641893136754353000nat, 205115282021455665897114700593932402728804164701536103180137503955397371int) == 70471675530223269678420336373756267322752872153828901942505411000072119int,
    ensures
        pow_mod(10int, 3370988063543930100293194288145829891206nat, 205115282021455665897114700593932402728804164701536103180137503955397371int) == 97394117783244194807631057126017718229650239244747769394177734440134047int,
{
    let m: int = 205115282021455665897114700593932402728804164701536103180137503955397371int;
    lemma_pow_mod_step(10int, 1645990265402309619283786273508706001nat, m, 822995132701154809641893136754353000nat, 70471675530223269678420336373756267322752872153828901942505411000072119int, 24212028489996098699237445362781565693704395607307365086518157336542303int, 102872310722758359487806688775175148398728192176809598916085535684664748int, 5int, 3146697120305265392493384782089470343261098260415473260167837069660625int);
    lemma_pow_mod_step(10int, 3291980530804619238567572547017412003nat, m, 1645990265402309619283786273508706001nat, 3146697120305265392493384782089470343261098260415473260167837069660625int, 48273842247900877673470532859893805111818958295658753205795900707394int, 145614402649620523556227676381017947613874542200954124151193249407529451int, 7int, 20337052346015574282473859652652657037116269098788519250969966387512913int);
    lemma_pow_mod_step(10int, 6583961061609238477135145094034824006nat, m, 3291980530804619238567572547017412003nat, 20337052346015574282473859652652657037116269098788519250969966387512913int, 2016406062232429073362116040158478694550155774817351540681627579121521int, 191725460428591790198441062015354080903673242582839480086912315088824278int, 0int, 191725460428591790198441062015354080903673242582839480086912315088824278int);
    lemma_pow_mod_step(10int, 13167922123218476954270290188069648012nat, m, 6583961061609238477135145094034824006nat, 191725460428591790198441062015354080903673242582839480086912315088824278int, 179209719599100629520604023405316845407435091640313930441673661758402640int, 38341477112658367176297332278180712148123631616700906144127852946761844int, 0int, 38341477112658367176297332278180712148123631616700906144127852946761844int);
    lemma_pow_mod_step(10int, 26335844246436953908540580376139296025nat, m, 13167922123218476954270290188069648012nat, 38341477112658367176297332278180712148123631616700906144127852946761844int, 7167037251893946370306110633981056875917732858228514106118970803113136int, 24747468815740884077701865923132281425056103703930542094856708504314880int, 1int, 42359406135953174879903958637390411521756872337769317768429581087751429int);
    lemma_pow_mod_step(10int, 52671688492873907817081160752278592050nat, m, 26335844246436953908540580376139296025nat, 42359406135953174879903958637390411521756872337769317768429581087751429int, 8747857646232991898496751356254821296123947464445061558969976338546249int, 181328199379135111668824233125287156900922184783209606838287272035030662int, 0int, 181328199379135111668824233125287156900922184783209606838287272035030662int);
    lemma_pow_mod_step(10int, 105343376985747815634162321504557184100nat, m, 52671688492873907817081160752278592050nat, 181328199379135111668824233125287156900922184783209606838287272035030662int, 160299688867843784204860490552102162133284914302932768601420752112363106int, 143984672188026701828905884426183398360750915668144127392736549210363918int, 0int, 143984672188026701828905884426183398360750915668144127392736549210363918int);
    lemma_pow_mod_step(10int, 210686753971495631268324643009114368200nat, m, 105343376985747815634162321504557184100nat, 143984672188026701828905884426183398360750915668144127392736549210363918int, 101072848501482813683234791356870150706699120057353400398303546566274028int, 9896029653695421135279331156299539415760296668308498756064574379530336int, 0int, 9896029653695421135279331156299539415760296668308498756064574379530336int);
    lemma_pow_mod_step(10int, 421373507942991262536649286018228736400nat, m, 210686753971495631268324643009114368200nat, 9896029653695421135279331156299539415760296668308498756064574379530336int, 477445668317269514897178677638576240443069225600371497995408662642762int, 131155764266017811006273363517405892127524278044493348025814197217294194int, 0int, 131155764266017811006273363517405892127524278044493348025814197217294194int);
    lemma_pow_mod_step(10int, 842747015885982525073298572036457472801nat, m, 421373507942991262536649286018228736400nat, 131155764266017811006273363517405892127524278044493348025814197217294194int, 83864226646963690025685665699116932004004416038161518667258652014688061int, 71706897304442908923063682430624714843848664050311933764672692881622005int, 3int, 101723126980062091539292722524449940252074146398511028106314416950027937int);
    lemma_pow_mod_step(10int, 1685494031771965050146597144072914945603nat, m, 842747015885982525073298572036457472801nat, 101723126980062091539292722524449940252074146398511028106314416950027937int, 50447701705226659700602277066351184419908305844743702060295220072222446int, 8810791859296168499034398431082750254779814036775953690372572044886503int, 0int, 88107918592961684990343984310827502547798140367759536903725720448865030int);
    lemma_pow_mod_step(10int, 3370988063543930100293194288145829891206nat, m, 1685494031771965050146597144072914945603nat, 88107918592961684990343984310827502547798140367759536903725720448865030int, 37847035297798679103782240631126535385935565196734157660461716907426943int, 97394117783244194807631057126017718229650239244747769394177734440134047int, 0int, 97394117783244194807631057126017718229650239244747769394177734440134047int);
}

proof fn lemma_certificate_3_11()
    requires
        pow_mod(10int, 3370988063543930100293194288145829891206nat, 205115282021455665897114700593932402728804164701536103180137503955397371int) == 97394117783244194807631057126017718229650239244747769394177734440134047int,
    ensures
        pow_mod(10int, 13807567108275937690800923804245319234381725nat, 205115282021455665897114700593932402728804164701536103180137503955397371int) == 937378461702345515219280597018850565906374026045387497910365626667881int,
{
    let m: int = 205115282021455665897114700593932402728804164701536103180137503955397371int;
    lemma_pow_mod_step(10int, 6741976127087860200586388576291659782412nat, m, 3370988063543930100293194288145829891206nat, 97394117783244194807631057126017718229650239244747769394177734440134047int, 46245282581061998971022391253327396611240589969650501789753815319245902int, 62086688808631404509210851728144045987367354993845524276647208855274567int, 0int, 62086688808631404509210851728144045987367354993845524276647208855274567int);
    lemma_pow_mod_step(10int, 13483952254175720401172777152583319564825nat, m, 6741976127087860200586388576291659782412nat, 62086688808631404509210851728144045987367354993845524276647208855274567int, 18793123989740643029845803680509220628511088686007636152065281713976032int, 152352375746335722215625807607589548253578436244151897823177286027225617int, 7int, 87716783313167560876455171918368663434155209530766255970810332584474573int);
    lemma_pow_mod_step(10int, 26967904508351440802345554305166639129651nat, m, 13483952254175720401172777152583319564825nat, 87716783313167560876455171918368663434155209530766255970810332584474573int, 37511754360673874067439223450052285519772603062919845390994179019358535int, 197891310485031666166628662149949468932921490190592716992950391038120844int, 9int, 132875566657215668592254316154103064769977419592102241308266374782632101int);
    lemma_pow_mod_step(10int, 53935809016702881604691108610333278259303nat, m, 26967904508351440802345554305166639129651nat, 132875566657215668592254316154103064769977419592102241308266374782632101int, 86078014472999155708160215878896294536367992147825177665326478648532333int, 73415975849552119182447950486425357266984714367994314876176630558977658int, 3int, 118813912431154194133135403082456364483434649575334839221353793723584467int);
    lemma_pow_mod_step(10int, 107871618033405763209382217220666556518607nat, m, 53935809016702881604691108610333278259303nat, 118813912431154194133135403082456364483434649575334839221353793723584467int, 68823471601308203518776532479657465757737985235688988710316292442340858int, 171991446450018875701940757762795689421960515477252514163363944064589771int, 8int, 78992208328543429842489972876497672389171837160236316192539409002718742int);
    lemma_pow_mod_step(10int, 215743236066811526418764434441333113037214nat, m, 107871618033405763209382217220666556518607nat, 78992208328543429842489972876497672389171837160236316192539409002718742int, 30420790275233162245667960312124122885357847040210679496260530998119756int, 45839408405966384707895827852022900653412600103727980768337458732501088int, 0int, 45839408405966384707895827852022900653412600103727980768337458732501088int);
    lemma_pow_mod_step(10int, 431486472133623052837528868882666226074428nat, m, 215743236066811526418764434441333113037214nat, 45839408405966384707895827852022900653412600103727980768337458732501088int, 10244245783642705548030970226182776997181614238516643208164009159985982int, 13426635447807395239470763513459756702813987871320244008112980321530422int, 0int, 13426635447807395239470763513459756702813987871320244008112980321530422int);
    lemma_pow_mod_step(10int, 862972944267246105675057737765332452148857nat, m, 431486472133623052837528868882666226074428nat, 13426635447807395239470763513459756702813987871320244008112980321530422int, 878893750244610453887954420353604394562367838807037769466854221404742int, 64992106725185679227812002422460517233488305640267853898527363837764802int, 3int, 34575221187489794586775922442807964148470562298070229444861126511455907int);
    lemma_pow_mod_step(10int, 1725945888534492211350115475530664904297715nat, m, 862972944267246105675057737765332452148857nat, 34575221187489794586775922442807964148470562298070229444861126511455907int, 5828166036106446803186386719964003154866524951164574313475199650776774int, 101292318070964490670473416249253702974880422167009525937522138817731495int, 4int, 192462052623822243116275360116807418833587562863950846654671372355725466int);
    lemma_pow_mod_step(10int, 3451891777068984422700230951061329808595431nat, m, 1725945888534492211350115475530664904297715nat, 192462052623822243116275360116807418833587562863950846654671372355725466int, 180589380445579169301238931872836359016340560888628336114320695812372533int, 25630012104259031672420062752859518636095401581368822059222784860106413int, 1int, 51184839021134650827085926934662783632149851112152117412090344645666759int);
    lemma_pow_mod_step(10int, 6903783554137968845400461902122659617190862nat, m, 3451891777068984422700230951061329808595431nat, 51184839021134650827085926934662783632149851112152117412090344645666759int, 12772757445471178417232606010739023966682774652323610589350759064255239int, 79600210946432981402641132233126983849996390254265367953263663263987412int, 0int, 79600210946432981402641132233126983849996390254265367953263663263987412int);
    lemma_pow_mod_step(10int, 13807567108275937690800923804245319234381725nat, m, 6903783554137968845400461902122659617190862nat, 79600210946432981402641132233126983849996390254265367953263663263987412int, 30890889846295530652276585882417915473814934508377459996428395720665982int, 184697491665480333858925158594241047512514385633987031611914790122524422int, 9int, 937378461702345515219280597018850565906374026045387497910365626667881int);
}

proof fn lemma_certificate_3_12()
    requires
        pow_mod(10int, 13807567108275937690800923804245319234381725nat, 205115282021455665897114700593932402728804164701536103180137503955397371int) == 937378461702345515219280597018850565906374026045387497910365626667881int,
    ensures
        pow_mod(10int, 56555794875498240781520583902188827584027546098nat, 205115282021455665897114700593932402728804164701536103180137503955397371int) == 78272568769135025338802615522793715392632275407262695877103655592099068int,
{
    let m: int = 205115282021455665897114700593932402728804164701536103180137503955397371int;
    lemma_pow_mod_step(10int, 27615134216551875381601847608490638468763450nat, m, 13807567108275937690800923804245319234381725nat, 937378461702345515219280597018850565906374026045387497910365626667881int, 4283826986482378612839204548276563344978708141622216514895083162647int, 8904890976547030485614238401467977672758152145245924999440902767829124int, 0int, 8904890976547030485614238401467977672758152145245924999440902767829124int);
    lemma_pow_mod_step(10int, 55230268433103750763203695216981276937526900nat, m, 27615134216551875381601847608490638468763450nat, 8904890976547030485614238401467977672758152145245924999440902767829124int, 386597636815252100592209223621824622832714434849982376449425946219181int, 152802867321465509862017959986766996465630405944171328714899223745434225int, 0int, 152802867321465509862017959986766996465630405944171328714899223745434225int);
    lemma_pow_mod_step(10int, 110460536866207501526407390433962553875053800nat, m, 55230268433103750763203695216981276937526900nat, 152802867321465509862017959986766996465630405944171328714899223745434225int, 113832163218433657898029119066497697189301097941163693607911902659121072int, 187347074336085309235273619404301186632368123422921943370991136441848913int, 0int, 187347074336085309235273619404301186632368123422921943370991136441848913int);
    lemma_pow_mod_step(10int, 220921073732415003052814780867925107750107601nat, m, 110460536866207501526407390433962553875053800nat, 187347074336085309235273619404301186632368123422921943370991136441848913int, 171118045990445622127963173359793111481058190337507188093138797764181317int, 24104403139832994571309658207673816627650532142173907738069838690163962int, 1int, 35928749376874279815981881482805763547701156720202974200560882946242249int);
    lemma_pow_mod_step(10int, 441842147464830006105629561735850215500215203nat, m, 220921073732415003052814780867925107750107601nat, 35928749376874279815981881482805763547701156720202974200560882946242249int, 6293412265845772521395020708541314580981907416104624041816953021076563int, 22044097741015346279448855093678840994296560234238998575372384912662128int, 1int, 15325695388697796897373850342856007214161437640853882573586345171223909int);
    lemma_pow_mod_step(10int, 883684294929660012211259123471700431000430407nat, m, 441842147464830006105629561735850215500215203nat, 15325695388697796897373850342856007214161437640853882573586345171223909int, 1145097219633708679804741950180405402303400027263338211476291908457834int, 57668439162491913017810747282330241720498090490414001193445147745285867int, 2int, 166453827582007798383878071635437611747372575501067805574176469542063928int);
    lemma_pow_mod_step(10int, 1767368589859320024422518246943400862000860815nat, m, 883684294929660012211259123471700431000430407nat, 166453827582007798383878071635437611747372575501067805574176469542063928int, 135079534024200882101284515155178974759328617407436270250837337755075590int, 2243913772223648795630851739011742556714745311976530197763735446515294int, 0int, 22439137722236487956308517390117425567147453119765301977637354465152940int);
    lemma_pow_mod_step(10int, 3534737179718640048845036493886801724001721631nat, m, 1767368589859320024422518246943400862000860815nat, 22439137722236487956308517390117425567147453119765301977637354465152940int, 2454789797987004065222226392723071743221186729432913566199737709813164int, 121907538339204302218566489434711127735014200762914937321874227803851756int, 5int, 193498973284764692700091391377449263706121184121468857318054758261530705int);
    lemma_pow_mod_step(10int, 7069474359437280097690072987773603448003443262nat, m, 3534737179718640048845036493886801724001721631nat, 193498973284764692700091391377449263706121184121468857318054758261530705int, 182540531808554135845331682654353823702421283443747445555359385552620314int, 176482289527127978925841400178266926733126876491493471856902317501002531int, 0int, 176482289527127978925841400178266926733126876491493471856902317501002531int);
    lemma_pow_mod_step(10int, 14138948718874560195380145975547206896006886524nat, m, 7069474359437280097690072987773603448003443262nat, 176482289527127978925841400178266926733126876491493471856902317501002531int, 151846309108645850363656956452197069207261956051478602415932481008453420int, 109006905790299811230988843651652775896682609340323028684938103824447141int, 0int, 109006905790299811230988843651652775896682609340323028684938103824447141int);
    lemma_pow_mod_step(10int, 28277897437749120390760291951094413792013773049nat, m, 14138948718874560195380145975547206896006886524nat, 109006905790299811230988843651652775896682609340323028684938103824447141int, 57930864013985819203403843537578216644698759299886100190147483457283545int, 81180390871792880588382348639186809931015388254591521483697309608513686int, 3int, 196458062653561808192479384610070891123741388441306905296560584218944747int);
    lemma_pow_mod_step(10int, 56555794875498240781520583902188827584027546098nat, m, 28277897437749120390760291951094413792013773049nat, 196458062653561808192479384610070891123741388441306905296560584218944747int, 188166235110427242680612272857905211652848920082801562660185095693429671int, 78272568769135025338802615522793715392632275407262695877103655592099068int, 0int, 78272568769135025338802615522793715392632275407262695877103655592099068int);
}

proof fn lemma_certificate_3_13()
    requires
        pow_mod(10int, 56555794875498240781520583902188827584027546098nat, 205115282021455665897114700593932402728804164701536103180137503955397371int) == 78272568769135025338802615522793715392632275407262695877103655592099068int,
    ensures
        pow_mod(10int, 231652535810040794241108311663365437784176828820962nat, 205115282021455665897114700593932402728804164701536103180137503955397371int) == 166166043492331001887912016723571620937865366105693363893053360571291906int,
{
    let m: int = 205115282021455665897114700593932402728804164701536103180137503955397371int;
    lemma_pow_mod_step(10int, 113111589750996481563041167804377655168055092197nat, m, 56555794875498240781520583902188827584027546098nat, 78272568769135025338802615522793715392632275407262695877103655592099068int, 29869032484269561903936709615953615349733312769916223780541957540601906int, 27238490212402284297469392582977534176653751216474225027002981576479498int, 1int, 67269620102567177077579225235842939037733347463206147089892311809397609int);
    lemma_pow_mod_step(10int, 226223179501992963126082335608755310336110184395nat, m, 113111589750996481563041167804377655168055092197nat, 67269620102567177077579225235842939037733347463206147089892311809397609int, 22061748613496095118479032288960551091371870923932948624425301908281791int, 71363806059336474790259831463834164636902269558409521156731708206345420int, 3int, 98292214528997750211254212856544438182610201479486902026904570197262087int);
    lemma_pow_mod_step(10int, 452446359003985926252164671217510620672220368790nat, m, 226223179501992963126082335608755310336110184395nat, 98292214528997750211254212856544438182610201479486902026904570197262087int, 47102094694260321430319364830031960503128786544534025253340831389638486int, 27394301931478748877333073091720313559209779884045357077632166802775263int, 0int, 27394301931478748877333073091720313559209779884045357077632166802775263int);
    lemma_pow_mod_step(10int, 904892718007971852504329342435021241344440737581nat, m, 452446359003985926252164671217510620672220368790nat, 27394301931478748877333073091720313559209779884045357077632166802775263int, 3658663415603139952661502299500519453886551030767689737105591084274470int, 121551108333983218209838407346593249142466264483676665136502160804300799int, 5int, 189934673232553852612810570496270477780641821329086135464334088266021135int);
    lemma_pow_mod_step(10int, 1809785436015943705008658684870042482688881475163nat, m, 904892718007971852504329342435021241344440737581nat, 189934673232553852612810570496270477780641821329086135464334088266021135int, 175877583281110367438241713570451677358201191981840278854040008815051189int, 7590801247267314484973329900409281337152704131089062134309206065664106int, 0int, 75908012472673144849733299004092813371527041310890621343092060656641060int);
    lemma_pow_mod_step(10int, 3619570872031887410017317369740084965377762950327nat, m, 1809785436015943705008658684870042482688881475163nat, 75908012472673144849733299004092813371527041310890621343092060656641060int, 28091648270989270834929223537300244148436311296986458841276594058603941int, 52505519222504554067016642326838559491790107545417951498020933516284489int, 2int, 114824628182134208875937022080520789460292746051107308619934327252050148int);
    lemma_pow_mod_step(10int, 7239141744063774820034634739480169930755525900655nat, m, 3619570872031887410017317369740084965377762950327nat, 114824628182134208875937022080520789460292746051107308619934327252050148int, 64279438895178036654974658679454968444906542077722419878441183681755817int, 110086773317627031394290692079161047833453035159837337807007509881064797int, 5int, 75291323068991984457333417821948464690509528090692862169387579033661115int);
    lemma_pow_mod_step(10int, 14478283488127549640069269478960339861511051801310nat, m, 7239141744063774820034634739480169930755525900655nat, 75291323068991984457333417821948464690509528090692862169387579033661115int, 27637059870002046235573583129193877541168435328473105564960691258133950int, 150409905307516248912959551025761462206208025593447108214823532467197775int, 0int, 150409905307516248912959551025761462206208025593447108214823532467197775int);
    lemma_pow_mod_step(10int, 28956566976255099280138538957920679723022103602620nat, m, 14478283488127549640069269478960339861511051801310nat, 150409905307516248912959551025761462206208025593447108214823532467197775int, 110294754206805308967714269071379479924747000493710165007452995961393629int, 43162725849446691188562980369650495883754215273115469078598883322201266int, 0int, 43162725849446691188562980369650495883754215273115469078598883322201266int);
    lemma_pow_mod_step(10int, 57913133952510198560277077915841359446044207205240nat, m, 28956566976255099280138538957920679723022103602620nat, 43162725849446691188562980369650495883754215273115469078598883322201266int, 9082799118593299577377513910156198319108564654497223916927696496086217int, 180967987687289394294352797501268526624132645049894301288842577300867249int, 0int, 180967987687289394294352797501268526624132645049894301288842577300867249int);
    lemma_pow_mod_step(10int, 115826267905020397120554155831682718892088414410481nat, m, 57913133952510198560277077915841359446044207205240nat, 180967987687289394294352797501268526624132645049894301288842577300867249int, 159663445087242403919904619516391475905693323470497406121518799275124551int, 112802986372046685082482943312179178540034125339141103176975592797872580int, 5int, 102453453613188521339255930152129771756320429883730515869068408201738945int);
    lemma_pow_mod_step(10int, 231652535810040794241108311663365437784176828820962nat, m, 115826267905020397120554155831682718892088414410481nat, 102453453613188521339255930152129771756320429883730515869068408201738945int, 51174686029350973042108943943157448671540245172214989838464634164858189int, 166166043492331001887912016723571620937865366105693363893053360571291906int, 0int, 166166043492331001887912016723571620937865366105693363893053360571291906int);
}

proof fn lemma_certificate_3_14()
    requires
        pow_mod(10int, 231652535810040794241108311663365437784176828820962nat, 205115282021455665897114700593932402728804164701536103180137503955397371int) == 166166043492331001887912016723571620937865366105693363893053360571291906int,
    ensures
        pow_mod(10int, 948848786677927093211579644573144833163988290850662351nat, 205115282021455665897114700593932402728804164701536103180137503955397371int) == 149538422508162463750249253145849133781309192175910251570514100934080811int,
{
    let m: int = 205115282021455665897114700593932402728804164701536103180137503955397371int;
    lemma_pow_mod_step(10int, 463305071620081588482216623326730875568353657641924nat, m, 231652535810040794241108311663365437784176828820962nat, 166166043492331001887912016723571620937865366105693363893053360571291906int, 134612856427767432898047581816481086826145298525386755378470474890137942int, 16132887618923061274703741738206310641770995311453192805984632246962354int, 0int, 16132887618923061274703741738206310641770995311453192805984632246962354int);
    lemma_pow_mod_step(10int, 926610143240163176964433246653461751136707315283849nat, m, 463305071620081588482216623326730875568353657641924nat, 16132887618923061274703741738206310641770995311453192805984632246962354int, 1268896497422244639172169919714924001056913418456207538143934743297821int, 15034935205279390072284520186446592278415990399981808140454599239792725int, 0int, 150349352052793900722845201864465922784159903999818081404545992397927250int);
    lemma_pow_mod_step(10int, 1853220286480326353928866493306923502273414630567699nat, m, 926610143240163176964433246653461751136707315283849nat, 150349352052793900722845201864465922784159903999818081404545992397927250int, 110205965347479175914776052364174151494161391570578728499633420958190580int, 134664430121175397647586112191809088826629338462099709021996775243597320int, 6int, 115952609083019981093172918354496471893468396411780471139142728703588974int);
    lemma_pow_mod_step(10int, 3706440572960652707857732986613847004546829261135399nat, m, 1853220286480326353928866493306923502273414630567699nat, 115952609083019981093172918354496471893468396411780471139142728703588974int, 65548541389291804286765047474915090608193633792465031593723132536857931int, 115309327408804126893328198983548794788618534018348513877514667456473275int, 5int, 127516863980762939447708486865825934242164516675804622874459154787745895int);
    lemma_pow_mod_step(10int, 7412881145921305415715465973227694009093658522270799nat, m, 3706440572960652707857732986613847004546829261135399nat, 127516863980762939447708486865825934242164516675804622874459154787745895int, 79275178520279610310518832494494155944256902933273264491410589539214002int, 103919519429101817768572856302379395667376844484004848207647090172162283int, 5int, 13618784183739848200155060054131943029747621332367966175783381944635975int);
    lemma_pow_mod_step(10int, 14825762291842610831430931946455388018187317044541599nat, m, 7412881145921305415715465973227694009093658522270799nat, 13618784183739848200155060054131943029747621332367966175783381944635975int, 904229469474057998420479518461315440724204494470322306014853432789613int, 13976354498525648606678067053412387886912337540366386225006214807893202int, 0int, 139763544985256486066780670534123878869123375403663862250062148078932020int);
    lemma_pow_mod_step(10int, 29651524583685221662861863892910776036374634089083198nat, m, 14825762291842610831430931946455388018187317044541599nat, 139763544985256486066780670534123878869123375403663862250062148078932020int, 95233511195925982032197862212092626034093040563084693834484123815334296int, 159379680035180476938237897749877844903762638804040522714476419896744584int, 0int, 159379680035180476938237897749877844903762638804040522714476419896744584int);
    lemma_pow_mod_step(10int, 59303049167370443325723727785821552072749268178166396nat, m, 29651524583685221662861863892910776036374634089083198nat, 159379680035180476938237897749877844903762638804040522714476419896744584int, 123841978802239582486821846391679327129791835457037983322183270680085353int, 118167910856856047116565317951730959656277599575696186967851753621526093int, 0int, 118167910856856047116565317951730959656277599575696186967851753621526093int);
    lemma_pow_mod_step(10int, 118606098334740886651447455571643104145498536356332793nat, m, 59303049167370443325723727785821552072749268178166396nat, 118167910856856047116565317951730959656277599575696186967851753621526093int, 68077107754522345010994732571116515989582621870124508509373555993838771int, 201493617317416959031760006515484315666569698706293005830913075268573608int, 9int, 168898634981068597243567759809451532106459504749105129687893217087159741int);
    lemma_pow_mod_step(10int, 237212196669481773302894911143286208290997072712665587nat, m, 118606098334740886651447455571643104145498536356332793nat, 168898634981068597243567759809451532106459504749105129687893217087159741int, 139076662730006954929591150681311911320151015064163697186154306813539056int, 139844102450872931238211815455177083455346533573427953795550645142965305int, 6int, 167749332379995316999429950988176418180640347525062918874681427697268824int);
    lemma_pow_mod_step(10int, 474424393338963546605789822286572416581994145425331175nat, m, 237212196669481773302894911143286208290997072712665587nat, 167749332379995316999429950988176418180640347525062918874681427697268824int, 137190355767790304801870719464690247059398816355490002400400868863570106int, 121252570472690420469198008153641293199115871421491809425391553975751650int, 5int, 186949294619625875206406578566750918347137890707237578353228019980529645int);
    lemma_pow_mod_step(10int, 948848786677927093211579644573144833163988290850662351nat, m, 474424393338963546605789822286572416581994145425331175nat, 186949294619625875206406578566750918347137890707237578353228019980529645int, 170392173680748949080734819308060353462505519134419270562788985369084610int, 199557596070126345682428155849124075834054667448973518019175163653265715int, 9int, 149538422508162463750249253145849133781309192175910251570514100934080811int);
}

proof fn lemma_certificate_3_15()
    requires
        pow_mod(10int, 948848786677927093211579644573144833163988290850662351nat, 205115282021455665897114700593932402728804164701536103180137503955397371int) == 149538422508162463750249253145849133781309192175910251570514100934080811int,
    ensures
        pow_mod(10int, 3886484630232789373794630224171601236639696039324312990101nat, 205115282021455665897114700593932402728804164701536103180137503955397371int) == 15165723853320822981465646878989755555230377031868493456192438623618835int,
{
    let m: int = 205115282021455665897114700593932402728804164701536103180137503955397371int;
    lemma_pow_mod_step(10int, 1897697573355854186423159289146289666327976581701324702nat, m, 948848786677927093211579644573144833163988290850662351nat, 149538422508162463750249253145849133781309192175910251570514100934080811int, 109020349853262547026992759738046831814937563221445852084466368206660655int, 76757341917406195499211626213649363164072734090501727819771122002279716int, 0int, 76757341917406195499211626213649363164072734090501727819771122002279716int);
    lemma_pow_mod_step(10int, 3795395146711708372846318578292579332655953163402649404nat, m, 1897697573355854186423159289146289666327976581701324702nat, 76757341917406195499211626213649363164072734090501727819771122002279716int, 28723796102180792341256147843685808914650379675841916704912780031359952int, 167706219408630724281514314212404476034675022963556486412585449409554464int, 0int, 167706219408630724281514314212404476034675022963556486412585449409554464int);
    lemma_pow_mod_step(10int, 7590790293423416745692637156585158665311906326805298808nat, m, 3795395146711708372846318578292579332655953163402649404nat, 167706219408630724281514314212404476034675022963556486412585449409554464int, 137119846708417323196368168690180228787543077803843670349448590029704742int, 112418283000977454777898173373927979514050407654415065741347582569294014int, 0int, 112418283000977454777898173373927979514050407654415065741347582569294014int);
    lemma_pow_mod_step(10int, 15181580586846833491385274313170317330623812653610597617nat, m, 7590790293423416745692637156585158665311906326805298808nat, 112418283000977454777898173373927979514050407654415065741347582569294014int, 61613499629763802352257990078054052014846537401589389249571540994079959int, 147302431127304779798902843061102817248193041100846234037278873983844407int, 7int, 37217337122858136709225526453501353380301258097709618111826212150662473int);
    lemma_pow_mod_step(10int, 30363161173693666982770548626340634661247625307221195235nat, m, 15181580586846833491385274313170317330623812653610597617nat, 37217337122858136709225526453501353380301258097709618111826212150662473int, 6752935075659480362289630942513655959620251464521803727019172534789452int, 105231622080695352622821745542287184179120236583394771694632128291145037int, 5int, 26739810699675196742643952453209828147181542326267201045633763134463515int);
    lemma_pow_mod_step(10int, 60726322347387333965541097252681269322495250614442390470nat, m, 30363161173693666982770548626340634661247625307221195235nat, 26739810699675196742643952453209828147181542326267201045633763134463515int, 3485929810825461505132289242585983551568258607454173266019169111370244int, 76596582712104219645313726827003647346654939708046056902126057540926701int, 0int, 76596582712104219645313726827003647346654939708046056902126057540926701int);
    lemma_pow_mod_step(10int, 121452644694774667931082194505362538644990501228884780940nat, m, 60726322347387333965541097252681269322495250614442390470nat, 76596582712104219645313726827003647346654939708046056902126057540926701int, 28603604886731519216623744138193250721939835944623517084804483483950607int, 47009931642781893216369763637679296667863071565753993601003958233089204int, 0int, 47009931642781893216369763637679296667863071565753993601003958233089204int);
    lemma_pow_mod_step(10int, 242905289389549335862164389010725077289981002457769561881nat, m, 121452644694774667931082194505362538644990501228884780940nat, 47009931642781893216369763637679296667863071565753993601003958233089204int, 10774105426371208670360662753470431084033057511336792890651012034465366int, 93023275285032367315170207762522489263305651060504270049030770954400830int, 4int, 109771624764501009563243275249495281717839851798898287769757693722418816int);
    lemma_pow_mod_step(10int, 485810578779098671724328778021450154579962004915539123762nat, m, 242905289389549335862164389010725077289981002457769561881nat, 109771624764501009563243275249495281717839851798898287769757693722418816int, 58746522856244156182543710464615556219974737288868461530604411986993085int, 114804100424809221171289852289592489251479042136671466826251087106662321int, 0int, 114804100424809221171289852289592489251479042136671466826251087106662321int);
    lemma_pow_mod_step(10int, 971621157558197343448657556042900309159924009831078247525nat, m, 485810578779098671724328778021450154579962004915539123762nat, 114804100424809221171289852289592489251479042136671466826251087106662321int, 64256457853642595511556479477786525027926401389139515122889645931794030int, 200160626815929094904596191398056287603842071232810373826898753145611911int, 9int, 155568729966189955971929608635171251479183230014278809647749995857542771int);
    lemma_pow_mod_step(10int, 1943242315116394686897315112085800618319848019662156495050nat, m, 971621157558197343448657556042900309159924009831078247525nat, 155568729966189955971929608635171251479183230014278809647749995857542771int, 117990378409551008693402311018125120699447751299146969340703867569976591int, 66304815601977660729090879872971292837128824537736942753371827521416180int, 0int, 66304815601977660729090879872971292837128824537736942753371827521416180int);
    lemma_pow_mod_step(10int, 3886484630232789373794630224171601236639696039324312990101nat, m, 1943242315116394686897315112085800618319848019662156495050nat, 66304815601977660729090879872971292837128824537736942753371827521416180int, 21433452099158517270624521005272513145509320322713971410797298854558261int, 104074213396059915246703914984865176919925120053954900935687995840060569int, 5int, 15165723853320822981465646878989755555230377031868493456192438623618835int);
}

proof fn lemma_certificate_3_16()
    requires
        pow_mod(10int, 3886484630232789373794630224171601236639696039324312990101nat, 205115282021455665897114700593932402728804164701536103180137503955397371int) == 15165723853320822981465646878989755555230377031868493456192438623618835int,
    ensures
        pow_mod(10int, 15919041045433505275062805398206878665276194977072386007456225nat, 205115282021455665897114700593932402728804164701536103180137503955397371int) == 54150278512764761287109749281931225307522873916117927377257560885237546int,
{
    let m: int = 205115282021455665897114700593932402728804164701536103180137503955397371int;
    lemma_pow_mod_step(10int, 7772969260465578747589260448343202473279392078648625980203nat, m, 3886484630232789373794630224171601236639696039324312990101nat, 15165723853320822981465646878989755555230377031868493456192438623618835int, 1121316645588238499858321541151811878268149147031348729881924676662356int, 156855277839871417945664831704618599490984161310855460671199603389691149int, 7int, 132745804248524518176845412888659175808212460197801884451033506209129893int);
    lemma_pow_mod_step(10int, 15545938520931157495178520896686404946558784157297251960406nat, m, 7772969260465578747589260448343202473279392078648625980203nat, 132745804248524518176845412888659175808212460197801884451033506209129893int, 85909974000593160682068613053448301649726709137915393242932839708476878int, 147772943624754937870192829565910541529328411071298131618926178490703711int, 0int, 147772943624754937870192829565910541529328411071298131618926178490703711int);
    lemma_pow_mod_step(10int, 31091877041862314990357041793372809893117568314594503920812nat, m, 15545938520931157495178520896686404946558784157297251960406nat, 147772943624754937870192829565910541529328411071298131618926178490703711int, 106461316057575869006880457404284657311191756807616794685984519608704940int, 7863858741237621481333920799915916490201739997382865463863779598458781int, 0int, 7863858741237621481333920799915916490201739997382865463863779598458781int);
    lemma_pow_mod_step(10int, 62183754083724629980714083586745619786235136629189007841625nat, m, 31091877041862314990357041793372809893117568314594503920812nat, 7863858741237621481333920799915916490201739997382865463863779598458781int, 301490331157630043336323064610221850537095224456778576891276641122402int, 43115434960934628316345832980880519858011044502558205149535451196000819int, 2int, 20923785566434951369228928620940393122502115622509845135079504049213448int);
    lemma_pow_mod_step(10int, 124367508167449259961428167173491239572470273258378015683251nat, m, 62183754083724629980714083586745619786235136629189007841625nat, 20923785566434951369228928620940393122502115622509845135079504049213448int, 2134432881428873349062327915112294647270148110830020624164890622604968int, 78475827844969626853852666715747405001003516038585798432107303865309576int, 3int, 169412432385329270847182565375676841823622666281249674780660526786903647int);
    lemma_pow_mod_step(10int, 248735016334898519922856334346982479144940546516756031366503nat, m, 124367508167449259961428167173491239572470273258378015683251nat, 169412432385329270847182565375676841823622666281249674780660526786903647int, 139924104941686388300959483238922817409046445359558441598139903402237731int, 187251122515239485930208402919200111673134778706965557900476416947495408int, 9int, 26473686959293866228051723846609492172110304755830650383526633876377741int);
    lemma_pow_mod_step(10int, 497470032669797039845712668693964958289881093033512062733007nat, m, 248735016334898519922856334346982479144940546516756031366503nat, 26473686959293866228051723846609492172110304755830650383526633876377741int, 3416888757929672393409804351122403528629669124792420078883273876286710int, 183583794326125618102818836486183626228292454450945156923027618944023671int, 8int, 194915687089610853851270760110377040452491226897162743789176157797057742int);
    lemma_pow_mod_step(10int, 994940065339594079691425337387929916579762186067024125466014nat, m, 497470032669797039845712668693964958289881093033512062733007nat, 194915687089610853851270760110377040452491226897162743789176157797057742int, 185223278827371831335784956364125209982739677866950076243924392748481421int, 108178876576230517781442466379337837453801405401099160337113655216394373int, 0int, 108178876576230517781442466379337837453801405401099160337113655216394373int);
    lemma_pow_mod_step(10int, 1989880130679188159382850674775859833159524372134048250932028nat, m, 994940065339594079691425337387929916579762186067024125466014nat, 108178876576230517781442466379337837453801405401099160337113655216394373int, 57054107436379030626384499041142746015408406782792201892738633322583128int, 21873810919044903653579975509086053290660598534754764599374855245906641int, 0int, 21873810919044903653579975509086053290660598534754764599374855245906641int);
    lemma_pow_mod_step(10int, 3979760261358376318765701349551719666319048744268096501864056nat, m, 1989880130679188159382850674775859833159524372134048250932028nat, 21873810919044903653579975509086053290660598534754764599374855245906641int, 2332657027827304173149537012552191666426743344530810335492944859872338int, 87141889449699337099789534740681139539167860786804498272032176967079483int, 0int, 87141889449699337099789534740681139539167860786804498272032176967079483int);
    lemma_pow_mod_step(10int, 7959520522716752637531402699103439332638097488536193003728112nat, m, 3979760261358376318765701349551719666319048744268096501864056nat, 87141889449699337099789534740681139539167860786804498272032176967079483int, 37021663242377504561519862917261687812308987635025245579105437576632745int, 34557764491596811754751172405296447683767186168101080761277471834033894int, 0int, 34557764491596811754751172405296447683767186168101080761277471834033894int);
    lemma_pow_mod_step(10int, 15919041045433505275062805398206878665276194977072386007456225nat, m, 7959520522716752637531402699103439332638097488536193003728112nat, 34557764491596811754751172405296447683767186168101080761277471834033894int, 5822282352086025966161966437347609528970159915961969574053690921911023int, 87461140659858742487556855165766083622273953272226234009780757670682703int, 4int, 54150278512764761287109749281931225307522873916117927377257560885237546int);
}

proof fn lemma_certificate_3_17()
    requires
        pow_mod(10int, 15919041045433505275062805398206878665276194977072386007456225nat, 205115282021455665897114700593932402728804164701536103180137503955397371int) == 54150278512764761287109749281931225307522873916117927377257560885237546int,
    ensures
        pow_mod(10int, 65204392122095637606657250911055375012971294626088493086540700262nat, 205115282021455665897114700593932402728804164701536103180137503955397371int) == 48526706224215342693155850401093093396532483341095491919787039008566009int,
{
    let m: int = 205115282021455665897114700593932402728804164701536103180137503955397371int;
    lemma_pow_mod_step(10int, 31838082090867010550125610796413757330552389954144772014912451nat, m, 15919041045433505275062805398206878665276194977072386007456225nat, 54150278512764761287109749281931225307522873916117927377257560885237546int, 14295632359090975463468023218212360374375080356642833376886463098644103int, 198528478131210747958194001578549857631494122959342618622313134177248903int, 9int, 139247243119006486507907710440106951755703747279601257601893806173912691int);
    lemma_pow_mod_step(10int, 63676164181734021100251221592827514661104779908289544029824902nat, m, 31838082090867010550125610796413757330552389954144772014912451nat, 139247243119006486507907710440106951755703747279601257601893806173912691int, 94531204721330658139336562010936991562368210097647427110222805876431836int, 91946039924565328225401708811381083024342564991394491580297681115758325int, 0int, 91946039924565328225401708811381083024342564991394491580297681115758325int);
    lemma_pow_mod_step(10int, 127352328363468042200502443185655029322209559816579088059649805nat, m, 63676164181734021100251221592827514661104779908289544029824902nat, 91946039924565328225401708811381083024342564991394491580297681115758325int, 41216208633959512129116782193455314315068584016615863008430055306455281int, 181691175330044421221536095984492929655859805568384563343613322010339374int, 8int, 175989497128798885038443355093470074728164738071556807995033188460214772int);
    lemma_pow_mod_step(10int, 254704656726936084401004886371310058644419119633158176119299610nat, m, 127352328363468042200502443185655029322209559816579088059649805nat, 175989497128798885038443355093470074728164738071556807995033188460214772int, 150999490600645330657420925080055329089963513449519297917561454158569255int, 112326443904821179541122518185240864142224811520716411025199560018583379int, 0int, 112326443904821179541122518185240864142224811520716411025199560018583379int);
    lemma_pow_mod_step(10int, 509409313453872168802009772742620117288838239266316352238599220nat, m, 254704656726936084401004886371310058644419119633158176119299610nat, 112326443904821179541122518185240864142224811520716411025199560018583379int, 61512871571330016725580274074336998181910104853578306196339090453360980int, 178143354408734539163629904669818798005022326319759822210066603569074061int, 0int, 178143354408734539163629904669818798005022326319759822210066603569074061int);
    lemma_pow_mod_step(10int, 1018818626907744337604019545485240234577676478532632704477198441nat, m, 509409313453872168802009772742620117288838239266316352238599220nat, 178143354408734539163629904669818798005022326319759822210066603569074061int, 154718139025235666606361858467649350428471576947140919956925081652608021int, 4152270413759657311156999326660951196070255336179061427641251346118930int, 0int, 41522704137596573111569993266609511960702553361790614276412513461189300int);
    lemma_pow_mod_step(10int, 2037637253815488675208039090970480469155352957065265408954396883nat, m, 1018818626907744337604019545485240234577676478532632704477198441nat, 41522704137596573111569993266609511960702553361790614276412513461189300int, 8405687484163320166896241938718415007033228493004881456020320821373608int, 14739824184600612047586890863513647061685989025753314565579640742505432int, 0int, 147398241846006120475868908635136470616859890257533145655796407425054320int);
    lemma_pow_mod_step(10int, 4075274507630977350416078181940960938310705914130530817908793766nat, m, 2037637253815488675208039090970480469155352957065265408954396883nat, 147398241846006120475868908635136470616859890257533145655796407425054320int, 105922101391845979393660783888129437697655862518676037352736605777690681int, 128368065702363702989627971189950070589008394085333572655149024872062749int, 0int, 128368065702363702989627971189950070589008394085333572655149024872062749int);
    lemma_pow_mod_step(10int, 8150549015261954700832156363881921876621411828261061635817587532nat, m, 4075274507630977350416078181940960938310705914130530817908793766nat, 128368065702363702989627971189950070589008394085333572655149024872062749int, 80337067671255616966818355752060795087482206473460234583585602060740742int, 147549258758485220542788502784414561677595409579250668952176276974047719int, 0int, 147549258758485220542788502784414561677595409579250668952176276974047719int);
    lemma_pow_mod_step(10int, 16301098030523909401664312727763843753242823656522123271635175065nat, m, 8150549015261954700832156363881921876621411828261061635817587532nat, 147549258758485220542788502784414561677595409579250668952176276974047719int, 106139257619532898164832729602623363108547773912283436693517380158308845int, 133445817702145293836512678129358971160237256857029047609027977570056466int, 6int, 103766484892718942982438577729995295229547580361073857009454751968180434int);
    lemma_pow_mod_step(10int, 32602196061047818803328625455527687506485647313044246543270350131nat, m, 16301098030523909401664312727763843753242823656522123271635175065nat, 103766484892718942982438577729995295229547580361073857009454751968180434int, 52494788690900944067267280603776139945416617845944131778645638390587687int, 194605566079575344133196780300797354543403707133926925292747512475657479int, 9int, 100018122602652448257935497662581920874799589025444324306237589157998451int);
    lemma_pow_mod_step(10int, 65204392122095637606657250911055375012971294626088493086540700262nat, m, 32602196061047818803328625455527687506485647313044246543270350131nat, 100018122602652448257935497662581920874799589025444324306237589157998451int, 48770743702620888909069627435277702516819771591841628184382085996923152int, 48526706224215342693155850401093093396532483341095491919787039008566009int, 0int, 48526706224215342693155850401093093396532483341095491919787039008566009int);
}

proof fn lemma_certificate_3_18()
    requires
        pow_mod(10int, 65204392122095637606657250911055375012971294626088493086540700262nat, 205115282021455665897114700593932402728804164701536103180137503955397371int) == 48526706224215342693155850401093093396532483341095491919787039008566009int,
    ensures
        pow_mod(10int, 267077190132103731636868099731682816053130422788458467682470708275256nat, 205115282021455665897114700593932402728804164701536103180137503955397371int) == 54698760945594146256939205822894792510004499395964164376972718642091889int,
{
    let m: int = 205115282021455665897114700593932402728804164701536103180137503955397371int;
    lemma_pow_mod_step(10int, 130408784244191275213314501822110750025942589252176986173081400525nat, m, 65204392122095637606657250911055375012971294626088493086540700262nat, 48526706224215342693155850401093093396532483341095491919787039008566009int, 11480574210579671566467365623621436938561519707515165061837554103341645int, 127019213354892490484830697518725979319958171078252712602772773562372786int, 6int, 39500441420190909465618771623665376826756722573310506946902711891343634int);
    lemma_pow_mod_step(10int, 260817568488382550426629003644221500051885178504353972346162801050nat, m, 130408784244191275213314501822110750025942589252176986173081400525nat, 39500441420190909465618771623665376826756722573310506946902711891343634int, 7606867986690154147951543313267375609137891344348399326096647710228907int, 119352156512340816446876514569728442679546455509886903949211933316322459int, 0int, 119352156512340816446876514569728442679546455509886903949211933316322459int);
    lemma_pow_mod_step(10int, 521635136976765100853258007288443000103770357008707944692325602100nat, m, 260817568488382550426629003644221500051885178504353972346162801050nat, 119352156512340816446876514569728442679546455509886903949211933316322459int, 69448444424810023376561445966222775200646843729661459702427749204553672int, 115045434477256454727138598079323608024262348279258884006427456610610369int, 0int, 115045434477256454727138598079323608024262348279258884006427456610610369int);
    lemma_pow_mod_step(10int, 1043270273953530201706516014576886000207540714017415889384651204200nat, m, 521635136976765100853258007288443000103770357008707944692325602100nat, 115045434477256454727138598079323608024262348279258884006427456610610369int, 64526893674729904729770929825044856789671642611198416399843817742044950int, 154696882432781355240989823686920538235908154030374677244514799336489711int, 0int, 154696882432781355240989823686920538235908154030374677244514799336489711int);
    lemma_pow_mod_step(10int, 2086540547907060403413032029153772000415081428034831778769302408400nat, m, 1043270273953530201706516014576886000207540714017415889384651204200nat, 154696882432781355240989823686920538235908154030374677244514799336489711int, 116671586819740277020607911759831150885696030951802780135622286239450662int, 188676440454804125442629448136842192941818539538819879148133878649853919int, 0int, 188676440454804125442629448136842192941818539538819879148133878649853919int);
    lemma_pow_mod_step(10int, 4173081095814120806826064058307544000830162856069663557538604816800nat, m, 2086540547907060403413032029153772000415081428034831778769302408400nat, 188676440454804125442629448136842192941818539538819879148133878649853919int, 173555080010915554146975140707788459093584536498951709696859802306439528int, 29784804443119872362851384659184157966052462303191145258675234617977673int, 0int, 29784804443119872362851384659184157966052462303191145258675234617977673int);
    lemma_pow_mod_step(10int, 8346162191628241613652128116615088001660325712139327115077209633601nat, m, 4173081095814120806826064058307544000830162856069663557538604816800nat, 29784804443119872362851384659184157966052462303191145258675234617977673int, 4325053535611726806260550304559106196887869653333018927874662692851077int, 26625683203268358812825036051784283533040320503701893406094937866176362int, 1int, 61141550011227922231135659923910432601599040335482830880811874706366249int);
    lemma_pow_mod_step(10int, 16692324383256483227304256233230176003320651424278654230154419267203nat, m, 8346162191628241613652128116615088001660325712139327115077209633601nat, 61141550011227922231135659923910432601599040335482830880811874706366249int, 18225307743693368606671973736252072504062481056735613591542067573238099int, 134013072341427189319737453328241800852193698982633038549331702984692272int, 6int, 109439031285537897814686329718823592149112001617113766412492006114538494int);
    lemma_pow_mod_step(10int, 33384648766512966454608512466460352006641302848557308460308838534407nat, m, 16692324383256483227304256233230176003320651424278654230154419267203nat, 109439031285537897814686329718823592149112001617113766412492006114538494int, 58391073793634369047521682156646237074614926547139293752828459631797483int, 79393467747340189599939937527503265867342158040327189186173102345170843int, 3int, 178588831409034898308055273493235450487009086298663582321318511585516317int);
    lemma_pow_mod_step(10int, 66769297533025932909217024932920704013282605697114616920617677068814nat, m, 33384648766512966454608512466460352006641302848557308460308838534407nat, 178588831409034898308055273493235450487009086298663582321318511585516317int, 155492903257732332395000209944805185131019553133940985804649133210123898int, 193108646612411009578429347245251546770996274092280882879389474739772331int, 0int, 193108646612411009578429347245251546770996274092280882879389474739772331int);
    lemma_pow_mod_step(10int, 133538595066051865818434049865841408026565211394229233841235354137628nat, m, 66769297533025932909217024932920704013282605697114616920617677068814nat, 193108646612411009578429347245251546770996274092280882879389474739772331int, 181804832038679079751411871499147810014593329716602126216856429930195563int, 175369624777077020232142643297635205173901569118218871562697146307108688int, 0int, 175369624777077020232142643297635205173901569118218871562697146307108688int);
    lemma_pow_mod_step(10int, 267077190132103731636868099731682816053130422788458467682470708275256nat, m, 133538595066051865818434049865841408026565211394229233841235354137628nat, 175369624777077020232142643297635205173901569118218871562697146307108688int, 149937659404801315547841026633810373155737130258578840431096222084980605int, 54698760945594146256939205822894792510004499395964164376972718642091889int, 0int, 54698760945594146256939205822894792510004499395964164376972718642091889int);
}

proof fn lemma_certificate_3_19()
    requires
        pow_mod(10int, 267077190132103731636868099731682816053130422788458467682470708275256nat, 205115282021455665897114700593932402728804164701536103180137503955397371int) == 54698760945594146256939205822894792510004499395964164376972718642091889int,
    ensures
        pow_mod(10int, 68371760673818555299038233531310800909601388233845367726712501318465790nat, 205115282021455665897114700593932402728804164701536103180137503955397371int) == 178616112238072933217230078226700686412819640559154366246118991325153614int,
{
    let m: int = 205115282021455665897114700593932402728804164701536103180137503955397371int;
    lemma_pow_mod_step(10int, 534154380264207463273736199463365632106260845576916935364941416550513nat, m, 267077190132103731636868099731682816053130422788458467682470708275256nat, 54698760945594146256939205822894792510004499395964164376972718642091889int, 14586696902819206449402217965469176836749972479608460608979403280653807int, 67289689362147782498944775319551522268828594163064278728541254550646924int, 3int, 57551047557110827298103651413718014501873447526034477745000033640277127int);
    lemma_pow_mod_step(10int, 1068308760528414926547472398926731264212521691153833870729882833101027nat, m, 534154380264207463273736199463365632106260845576916935364941416550513nat, 57551047557110827298103651413718014501873447526034477745000033640277127int, 16147617292476404760493276098031312010287217693109412396825187225024583int, 157865597003159303790878807833142370097694263586504139781637660350802836int, 7int, 142848995881403376628985174173896881875313482954288675555414075820246763int);
    lemma_pow_mod_step(10int, 2136617521056829853094944797853462528425043382307667741459765666202055nat, m, 1068308760528414926547472398926731264212521691153833870729882833101027nat, 142848995881403376628985174173896881875313482954288675555414075820246763int, 99484716220172654058495067281658986068281280873945907554073077985740036int, 193145483599830016632808663891394089186726848244111223217959088328132813int, 9int, 85417297805199173254054333568549267308031000127287303558353347682751791int);
    lemma_pow_mod_step(10int, 4273235042113659706189889595706925056850086764615335482919531332404111nat, m, 2136617521056829853094944797853462528425043382307667741459765666202055nat, 85417297805199173254054333568549267308031000127287303558353347682751791int, 35570800441767611885526080214089349917038026554528446964809473895154630int, 138513156383452141452466737744750703996218307472439621093926208973229951int, 6int, 154439871705787419141979173883912623589358086515179591858437065999915284int);
    lemma_pow_mod_step(10int, 8546470084227319412379779191413850113700173529230670965839062664808223nat, m, 4273235042113659706189889595706925056850086764615335482919531332404111nat, 154439871705787419141979173883912623589358086515179591858437065999915284int, 116284236539748031554559540917764144827873961220449026344039171922027793int, 198907028439439925837219279047956501714413932042343354588090245755668453int, 9int, 143032746201298265298160485134173392584901838109608617259664921958108191int);
    lemma_pow_mod_step(10int, 17092940168454638824759558382827700227400347058461341931678125329616447nat, m, 8546470084227319412379779191413850113700173529230670965839062664808223nat, 143032746201298265298160485134173392584901838109608617259664921958108191int, 99740820304871275388541383226908967125948250420380502037616175828740086int, 7758099607853703721822836338867801631619343414352421147009845254578575int, 0int, 77580996078537037218228363388678016316193434143524211470098452545785750int);
    lemma_pow_mod_step(10int, 34185880336909277649519116765655400454800694116922683863356250659232895nat, m, 17092940168454638824759558382827700227400347058461341931678125329616447nat, 77580996078537037218228363388678016316193434143524211470098452545785750int, 29343552041667932367349852981527831788920474444851641791278922988356543int, 120419252234535126270280358119636270005684046406683488214680651110214047int, 5int, 178616112238072933217230078226700686412819640559154366246118991325153615int);
    lemma_pow_mod_step(10int, 68371760673818555299038233531310800909601388233845367726712501318465790nat, m, 34185880336909277649519116765655400454800694116922683863356250659232895nat, 178616112238072933217230078226700686412819640559154366246118991325153615int, 155540412379934930165515265846267677498952823010010215186822066968394441int, 178616112238072933217230078226700686412819640559154366246118991325153614int, 0int, 178616112238072933217230078226700686412819640559154366246118991325153614int);
}

proof fn lemma_certificate_3()
    ensures
        pow_mod(10int, 68371760673818555299038233531310800909601388233845367726712501318465790nat, 205115282021455665897114700593932402728804164701536103180137503955397371int) == 178616112238072933217230078226700686412819640559154366246118991325153614int,
{
    lemma_pow_mod_zero(10int, 205115282021455665897114700593932402728804164701536103180137503955397371int);
    lemma_certificate_3_0();
    lemma_certificate_3_1();
    lemma_certificate_3_2();
    lemma_certificate_3_3();
    lemma_certificate_3_4();
    lemma_certificate_3_5();
    lemma_certificate_3_6();
    lemma_certificate_3_7();
    lemma_certificate_3_8();
    lemma_certificate_3_9();
    lemma_certificate_3_10();
    lemma_certificate_3_11();
    lemma_certificate_3_12();
    lemma_certificate_3_13();
    lemma_certificate_3_14();
    lemma_certificate_3_15();
    lemma_certificate_3_16();
    lemma_certificate_3_17();
    lemma_certificate_3_18();
    lemma_certificate_3_19();
}

proof fn lemma_certificate_5_0()
    requires
        pow_mod(10int, 0nat, 205115282021455665897114700593932402728804164701536103180137503955397371int) == 1int,
    ensures
        pow_mod(10int, 3043nat, 205115282021455665897114700593932402728804164701536103180137503955397371int) == 171208516019667231985513796763020377462533296714672141312048642184971273int,
{
    let m: int = 205115282021455665897114700593932402728804164701536103180137503955397371int;
    lemma_pow_mod_step(10int, 1nat, m, 0nat, 1int, 0int, 1int, 0int, 10int);
    lemma_pow_mod_step(10int, 2nat, m, 1nat, 10int, 0int, 100int, 0int, 100int);
    lemma_pow_mod_step(10int, 5nat, m, 2nat, 100int, 0int, 10000int, 0int, 100000int);
    lemma_pow_mod_step(10int, 11nat, m, 5nat, 100000int, 0int, 10000000000int, 0int, 100000000000int);
    lemma_pow_mod_step(10int, 23nat, m, 11nat, 100000000000int, 0int, 10000000000000000000000int, 0int, 100000000000000000000000int);
    lemma_pow_mod_step(10int, 47nat, m, 23nat, 100000000000000000000000int, 0int, 10000000000000000000000000000000000000000000000int, 0int, 100000000000000000000000000000000000000000000000int);
    lemma_pow_mod_step(10int, 95nat, m, 47nat, 100000000000000000000000000000000000000000000000int, 48753071450590260688123int, 111021296088025999601928415191727694547121659618466784369563493634875367int, 5int, 84636550772981666533710648947614931827195772676987327794947416571766815int);
    lemma_pow_mod_step(10int, 190nat, m, 95nat, 84636550772981666533710648947614931827195772676987327794947416571766815int, 34923510604140145732053935934460638578413180341608126978258884810967383int, 36687648227385985731667384772196244586219055867829717510662652050294132int, 0int, 36687648227385985731667384772196244586219055867829717510662652050294132int);
    lemma_pow_mod_step(10int, 380nat, m, 190nat, 36687648227385985731667384772196244586219055867829717510662652050294132int, 6562083132916562490591549173596932152630949452589361131159248912692036int, 144035667994832607791661585506507756069674407343338412690298939986596068int, 0int, 144035667994832607791661585506507756069674407343338412690298939986596068int);
    lemma_pow_mod_step(10int, 760nat, m, 380nat, 144035667994832607791661585506507756069674407343338412690298939986596068int, 101144456182194775539660355222180834206218620577450921253735782608282825int, 69501593545833589181014510674938984286944455171261131051448596563607549int, 0int, 69501593545833589181014510674938984286944455171261131051448596563607549int);
    lemma_pow_mod_step(10int, 1521nat, m, 760nat, 69501593545833589181014510674938984286944455171261131051448596563607549int, 23550032244330656923991738091142335421793715904467366607517360921254597int, 204557131782259642799031428940653054109324717164285339307879806294322914int, 9int, 199533779629495434916281984061138916534009689329028464457560527344652801int);
    lemma_pow_mod_step(10int, 3043nat, m, 1521nat, 199533779629495434916281984061138916534009689329028464457560527344652801int, 194104158504715477057118143747402017671132642161721289976962953934200734int, 160701549016985689326531670092054719656416244962542486357301116987275287int, 7int, 171208516019667231985513796763020377462533296714672141312048642184971273int);
}

proof fn lemma_certificate_5_1()
    requires
        pow_mod(10int, 3043nat, 205115282021455665897114700593932402728804164701536103180137503955397371int) == 171208516019667231985513796763020377462533296714672141312048642184971273int,
    ensures
        pow_mod(10int, 12465190nat, 205115282021455665897114700593932402728804164701536103180137503955397371int) == 49560160186180356863917333633998430626370343394091170851039292949836107int,
{
    let m: int = 205115282021455665897114700593932402728804164701536103180137503955397371int;
    lemma_pow_mod_step(10int, 6086nat, m, 3043nat, 171208516019667231985513796763020377462533296714672141312048642184971273int, 142906738438876982213987341628566985504082989233472267410482272257792506int, 151011822064242574684826502802233992240673634408782446051383191339338803int, 0int, 151011822064242574684826502802233992240673634408782446051383191339338803int);
    lemma_pow_mod_step(10int, 12173nat, m, 6086nat, 151011822064242574684826502802233992240673634408782446051383191339338803int, 111179285026539538463891933907075060386199599278018936362689581784200146int, 46148436459858199050399855665902327598683205265598312093281822395256643int, 2int, 51253800555670658709769155471158470529223723252910914572543216041771688int);
    lemma_pow_mod_step(10int, 24346nat, m, 12173nat, 51253800555670658709769155471158470529223723252910914572543216041771688int, 12807198203426300327035463396646760322704864356077867994774935151221080int, 123936460911779807111934651033640650768269212844988365639946742646588664int, 0int, 123936460911779807111934651033640650768269212844988365639946742646588664int);
    lemma_pow_mod_step(10int, 48692nat, m, 24346nat, 123936460911779807111934651033640650768269212844988365639946742646588664int, 74885918747538258822513119359326010530271569077022429982436496756795099int, 5872431807347947544109599131916435630403846448720632707552415443020167int, 0int, 5872431807347947544109599131916435630403846448720632707552415443020167int);
    lemma_pow_mod_step(10int, 97384nat, m, 48692nat, 5872431807347947544109599131916435630403846448720632707552415443020167int, 168127186780478896505287225711279005582764687531283695242312143177874int, 77899967515797030724829218219908256376665615475329958368611339963738635int, 0int, 77899967515797030724829218219908256376665615475329958368611339963738635int);
    lemma_pow_mod_step(10int, 194768nat, m, 97384nat, 77899967515797030724829218219908256376665615475329958368611339963738635int, 29585337958034055618001865430779941284308090005332400000887341094375104int, 78702009498123921523402372367607740372724867713519665386885137342211641int, 0int, 78702009498123921523402372367607740372724867713519665386885137342211641int);
    lemma_pow_mod_step(10int, 389537nat, m, 194768nat, 78702009498123921523402372367607740372724867713519665386885137342211641int, 30197683166263918633548582709329246701611428518455778572340048703236068int, 119528828253491224138715800995185829455106380685308341181526538676335653int, 5int, 169711872427633911901584506982196280907042983345402895914577866986369675int);
    lemma_pow_mod_step(10int, 779074nat, m, 389537nat, 169711872427633911901584506982196280907042983345402895914577866986369675int, 140419179687843544572868293121474763410536769330122306820128120076759828int, 177541773691655993756033799091349192716267772014568208319014093889993437int, 0int, 177541773691655993756033799091349192716267772014568208319014093889993437int);
    lemma_pow_mod_step(10int, 1558148nat, m, 779074nat, 177541773691655993756033799091349192716267772014568208319014093889993437int, 153674953396607444864113404759183784209964081017842822446308375829538238int, 193736168105142834143749055019889721622271568295807443193943109173900671int, 0int, 193736168105142834143749055019889721622271568295807443193943109173900671int);
    lemma_pow_mod_step(10int, 3116297nat, m, 1558148nat, 193736168105142834143749055019889721622271568295807443193943109173900671int, 182988329597684618679338554817587081956666028205047447810876708951832271int, 162248815225522220471059216752680389437662587977836022101621691027890700int, 7int, 186681178105032543430789263369277075274996726867607498755254382591125403int);
    lemma_pow_mod_step(10int, 6232595nat, m, 3116297nat, 186681178105032543430789263369277075274996726867607498755254382591125403int, 169903782474079542701278272844809825074427755650178352595793416376162505int, 87743673103902073249623391933314641476981640291854121166142114726138054int, 4int, 56975602953198068907775116957416803854599744112396798940871131439791056int);
    lemma_pow_mod_step(10int, 12465190nat, m, 6232595nat, 56975602953198068907775116957416803854599744112396798940871131439791056int, 15826316303145605485017671860939249772111465526328644859122521622448399int, 49560160186180356863917333633998430626370343394091170851039292949836107int, 0int, 49560160186180356863917333633998430626370343394091170851039292949836107int);
}

proof fn lemma_certificate_5_2()
    requires
        pow_mod(10int, 12465190nat, 205115282021455665897114700593932402728804164701536103180137503955397371int) == 49560160186180356863917333633998430626370343394091170851039292949836107int,
    ensures
        pow_mod(10int, 51057421349nat, 205115282021455665897114700593932402728804164701536103180137503955397371int) == 162817108144482660163779158925649371396766058052380634645490527648279038int,
{
    let m: int = 205115282021455665897114700593932402728804164701536103180137503955397371int;
    lemma_pow_mod_step(10int, 24930381nat, m, 12465190nat, 49560160186180356863917333633998430626370343394091170851039292949836107int, 11974775616294303219750742376872328898803460750209678092433190506607933int, 157391054838745961766583505802618029418012536230151618683054441844971306int, 7int, 138103574237269956386032153868653475078496209390763464569581890761931463int);
    lemma_pow_mod_step(10int, 49860763nat, m, 24930381nat, 138103574237269956386032153868653475078496209390763464569581890761931463int, 92984769487405057747600552663648736306330822925175763248924833528200410int, 115948556432177161053424495160755740788110302807068353602118138234198259int, 5int, 133909154214493281048671448637895394237082204563003020120493862564995735int);
    lemma_pow_mod_step(10int, 99721526nat, m, 49860763nat, 133909154214493281048671448637895394237082204563003020120493862564995735int, 87422357835654774626549787558723205006118692094191711727369014980989383int, 193848641862120297776281210708308321776917701393313785983749800071078132int, 0int, 193848641862120297776281210708308321776917701393313785983749800071078132int);
    lemma_pow_mod_step(10int, 199443052nat, m, 99721526nat, 193848641862120297776281210708308321776917701393313785983749800071078132int, 183200859445752469656619453956832942739010172191043394906339556552241601int, 130032813630226870683775454744142281877405402887284838663619548096378453int, 0int, 130032813630226870683775454744142281877405402887284838663619548096378453int);
    lemma_pow_mod_step(10int, 398886104nat, m, 199443052nat, 130032813630226870683775454744142281877405402887284838663619548096378453int, 82434289897642207181195360304734509593593417678428861597696630609291498int, 98176205080226139535311070150154692859965780260847129254362574840821451int, 0int, 98176205080226139535311070150154692859965780260847129254362574840821451int);
    lemma_pow_mod_step(10int, 797772208nat, m, 398886104nat, 98176205080226139535311070150154692859965780260847129254362574840821451int, 46990975752583847815220248301005647180247017041691987446187257188866796int, 55465331154822969307451304281746527000582561839371290285535885094152085int, 0int, 55465331154822969307451304281746527000582561839371290285535885094152085int);
    lemma_pow_mod_step(10int, 1595544417nat, m, 797772208nat, 55465331154822969307451304281746527000582561839371290285535885094152085int, 14998409332525377813753413720824145445180669363012818123036474918251793int, 89289077844045344187934064272983605949657238884051234048706983161611022int, 4int, 72429650354630778290881840354106448581355730034367927766519815794520736int);
    lemma_pow_mod_step(10int, 3191088834nat, m, 1595544417nat, 72429650354630778290881840354106448581355730034367927766519815794520736int, 25576125770800995792963087591782087482415670666657183694399107619709416int, 62686169101207469704362475283451058040082024630352994147586188103636360int, 0int, 62686169101207469704362475283451058040082024630352994147586188103636360int);
    lemma_pow_mod_step(10int, 6382177668nat, m, 3191088834nat, 62686169101207469704362475283451058040082024630352994147586188103636360int, 19157791451999831672329202359447837147669558263997753971392221926616089int, 184078804022148628072712818948543357360041981105669038081308521757147581int, 0int, 184078804022148628072712818948543357360041981105669038081308521757147581int);
    lemma_pow_mod_step(10int, 12764355337nat, m, 6382177668nat, 184078804022148628072712818948543357360041981105669038081308521757147581int, 165199812302040615156132154082177399109987845373828528370053785629527073int, 160089323387331905945926980216691683715442473072961586632781396896626478int, 7int, 165086259723129398179466898009390018052795577818863144066851441278483183int);
    lemma_pow_mod_step(10int, 25528710674nat, m, 12764355337nat, 165086259723129398179466898009390018052795577818863144066851441278483183int, 132869052372810241237306132765950928210179644869951629001778988849817090int, 65765485222292580937762338594810489378520368329887026363706457596941099int, 0int, 65765485222292580937762338594810489378520368329887026363706457596941099int);
    lemma_pow_mod_step(10int, 51057421349nat, m, 25528710674nat, 65765485222292580937762338594810489378520368329887026363706457596941099int, 21086186284604409319411836927657754529765463216992502058586510533792613int, 57304767218739399195800856011351417685437438745545284100576553555907378int, 2int, 162817108144482660163779158925649371396766058052380634645490527648279038int);
}

proof fn lemma_certificate_5_3()
    requires
        pow_mod(10int, 51057421349nat, 205115282021455665897114700593932402728804164701536103180137503955397371int) == 162817108144482660163779158925649371396766058052380634645490527648279038int,
    ensures
        pow_mod(10int, 209131197848340nat, 205115282021455665897114700593932402728804164701536103180137503955397371int) == 37593267675199025123702419918707908470336911561604657953981762937478592int,
{
    let m: int = 205115282021455665897114700593932402728804164701536103180137503955397371int;
    lemma_pow_mod_step(10int, 102114842699nat, m, 51057421349nat, 162817108144482660163779158925649371396766058052380634645490527648279038int, 129241519419109878552150073106254736871474497239431048217070026341830540int, 29794357030082339339770109258653656342746718880643730768984497866695104int, 1int, 92828288279367727500586391992604160698663024104901204509707474711553669int);
    lemma_pow_mod_step(10int, 204229685398nat, m, 102114842699nat, 92828288279367727500586391992604160698663024104901204509707474711553669int, 42010965833233364658676571569641126683422649151113509927240611435946736int, 42733049465167811330053345883150109875746811133921496074776581396930505int, 0int, 42733049465167811330053345883150109875746811133921496074776581396930505int);
    lemma_pow_mod_step(10int, 408459370797nat, m, 204229685398nat, 42733049465167811330053345883150109875746811133921496074776581396930505int, 8902864275132177058101151438225777299091385299581138994622173963211462int, 20091342636493802398623050128982077457193814341458012506144368287688623int, 0int, 200913426364938023986230501289820774571938143414580125061443682876886230int);
    lemma_pow_mod_step(10int, 816918741595nat, m, 408459370797nat, 200913426364938023986230501289820774571938143414580125061443682876886230int, 196797647137169179429321515787560236006891650756449610548522599385876639int, 127049474855969553249527099438916173397618484686561534498682007932696831int, 6int, 39803056430961537112582790825567317603359858656398725905995055594584084int);
    lemma_pow_mod_step(10int, 1633837483190nat, m, 816918741595nat, 39803056430961537112582790825567317603359858656398725905995055594584084int, 7723867698363829624526260758996174988878775899520145822288229860544781int, 143100509302227972595939626420804769781479909974371479042909449550948305int, 0int, 143100509302227972595939626420804769781479909974371479042909449550948305int);
    lemma_pow_mod_step(10int, 3267674966380nat, m, 1633837483190nat, 143100509302227972595939626420804769781479909974371479042909449550948305int, 99835348983967955268461689442563282668739653782484627377897743299641845int, 149405266553868567590007825141884090625572845502430942485688205827783530int, 0int, 149405266553868567590007825141884090625572845502430942485688205827783530int);
    lemma_pow_mod_step(10int, 6535349932760nat, m, 3267674966380nat, 149405266553868567590007825141884090625572845502430942485688205827783530int, 108826282732544410236991365494608809570571623703217717566234468202579037int, 169870775513803151497129214792086709720244084795762713138101154169749173int, 0int, 169870775513803151497129214792086709720244084795762713138101154169749173int);
    lemma_pow_mod_step(10int, 13070699865521nat, m, 6535349932760nat, 169870775513803151497129214792086709720244084795762713138101154169749173int, 140682254824106537763258399040995986002552033506707661573871339616265929int, 138145957048578056868344315936700289060247006517681317596842161330711270int, 6int, 150767878357046573300754955803408474229645076967596556887596589574728474int);
    lemma_pow_mod_step(10int, 26141399731042nat, m, 13070699865521nat, 150767878357046573300754955803408474229645076967596556887596589574728474int, 110820378278335533887733348035823466624283169169192718776300288050944283int, 35792877902163256174976004467970569460351049034913454335302959780688683int, 0int, 35792877902163256174976004467970569460351049034913454335302959780688683int);
    lemma_pow_mod_step(10int, 52282799462085nat, m, 26141399731042nat, 35792877902163256174976004467970569460351049034913454335302959780688683int, 6245902771813739042522710626769091193557094803934930799735537459777019int, 27206531507344543317016610026401161498449906404453884421114274565457440int, 1int, 66950033051989767273051399670079212255694899343002741031005241699177029int);
    lemma_pow_mod_step(10int, 104565598924170nat, m, 52282799462085nat, 66950033051989767273051399670079212255694899343002741031005241699177029int, 21852622981030051647895093805898064097371909845788931882539788419032678int, 196367451839599167801046438601416350985204428116094071111703394956977303int, 0int, 196367451839599167801046438601416350985204428116094071111703394956977303int);
    lemma_pow_mod_step(10int, 209131197848340nat, m, 104565598924170nat, 196367451839599167801046438601416350985204428116094071111703394956977303int, 187992702259716513856690862341203448458997432641652098570944374686632227int, 37593267675199025123702419918707908470336911561604657953981762937478592int, 0int, 37593267675199025123702419918707908470336911561604657953981762937478592int);
}

proof fn lemma_certificate_5_4()
    requires
        pow_mod(10int, 209131197848340nat, 205115282021455665897114700593932402728804164701536103180137503955397371int) == 37593267675199025123702419918707908470336911561604657953981762937478592int,
    ensures
        pow_mod(10int, 856601386386804535nat, 205115282021455665897114700593932402728804164701536103180137503955397371int) == 57755945540248676718250285954240017784120649913002663109299583505716099int,
{
    let m: int = 205115282021455665897114700593932402728804164701536103180137503955397371int;
    lemma_pow_mod_step(10int, 418262395696681nat, m, 209131197848340nat, 37593267675199025123702419918707908470336911561604657953981762937478592int, 6890046224597411446472287488445668900859764638310318537506882390701668int, 48208612758856846971986203922045635783616512770903377723806746005787636int, 2int, 71855563545657137925632638032591552378556798305961570877792452147081618int);
    lemma_pow_mod_step(10int, 836524791393363nat, m, 418262395696681nat, 71855563545657137925632638032591552378556798305961570877792452147081618int, 25172293168891641564160592924682307708901491336165656488111501735455288int, 199746490994258082205428847584111812904275470357528524576945890710250076int, 9int, 151427371749479828980256170495726504483517221261460317148221371503924421int);
    lemma_pow_mod_step(10int, 1673049582786727nat, m, 836524791393363nat, 151427371749479828980256170495726504483517221261460317148221371503924421int, 111792006373062880136990793067020634701325500896551943533295831414925300int, 164819103855195666376620232752967662957429699441756503603337462298798941int, 8int, 7268782380311336589284722778217407743863676805276210592274591344810442int);
    lemma_pow_mod_step(10int, 3346099165573455nat, m, 1673049582786727nat, 7268782380311336589284722778217407743863676805276210592274591344810442int, 257587814869873138628282596078197655157190898046220217227364159837262int, 147692467364439873697299506424383623474423274664311012244447755009597162int, 7int, 41117699494209075693192160086309415642603593732357400183515022408190023int);
    lemma_pow_mod_step(10int, 6692198331146910nat, m, 3346099165573455nat, 41117699494209075693192160086309415642603593732357400183515022408190023int, 8242512186484635949545109680303133222572902793607846895323791031021463int, 110593677857397543252165954134851428413748105465955333239651932681966756int, 0int, 110593677857397543252165954134851428413748105465955333239651932681966756int);
    lemma_pow_mod_step(10int, 13384396662293820nat, m, 6692198331146910nat, 110593677857397543252165954134851428413748105465955333239651932681966756int, 59629694391792947210829106742537501689961059606674789584780407748097479int, 194212326322847067206486038451257731882368610053895568692928541600835827int, 0int, 194212326322847067206486038451257731882368610053895568692928541600835827int);
    lemma_pow_mod_step(10int, 26768793324587641nat, m, 13384396662293820nat, 194212326322847067206486038451257731882368610053895568692928541600835827int, 183888920045394650811317679208574567820780494362896575980823372513542328int, 161801787203813615931723883820297089114559657750614210162761518938354241int, 7int, 182210897887946498037435934045444072043967424595389379366652661695760813int);
    lemma_pow_mod_step(10int, 53537586649175283nat, m, 26768793324587641nat, 182210897887946498037435934045444072043967424595389379366652661695760813int, 161864152597166126317318855218906950812035131672147325704844655726908834int, 76073462672139346519577618435574228654993981268533067185739598946145555int, 3int, 145388780657026467504432082573945078363527318580722362316983477595263437int);
    lemma_pow_mod_step(10int, 107075173298350566nat, m, 53537586649175283nat, 145388780657026467504432082573945078363527318580722362316983477595263437int, 103053742912855546427088980342482535859552060953441231568485781989507191int, 104619454658637049865587599373068530059702289395400872185861064562058108int, 0int, 104619454658637049865587599373068530059702289395400872185861064562058108int);
    lemma_pow_mod_step(10int, 214150346596701133nat, m, 107075173298350566nat, 104619454658637049865587599373068530059702289395400872185861064562058108int, 53361359452123659980631042066926157390620454841421951848787954923672411int, 204578300742843826157304134073866082760177047219880045903250280633908183int, 9int, 199745469235337268499009035393269203042532989884975530411265270740505491int);
    lemma_pow_mod_step(10int, 428300693193402267nat, m, 214150346596701133nat, 199745469235337268499009035393269203042532989884975530411265270740505491int, 194516235391332723011294928683492800825487880312814848500581239788977871int, 133666421984807119628836858098653603625202115222505699863037356470573940int, 6int, 105972527719337200905680377422941619879196164015840379549548540973355174int);
    lemma_pow_mod_step(10int, 856601386386804535nat, m, 428300693193402267nat, 105972527719337200905680377422941619879196164015840379549548540973355174int, 54750560370489516605692273957625073140809549152495943501262916964495299int, 26287122756170434261536498654817242051292481461453876628943708746111347int, 1int, 57755945540248676718250285954240017784120649913002663109299583505716099int);
}

proof fn lemma_certificate_5_5()
    requires
        pow_mod(10int, 856601386386804535nat, 205115282021455665897114700593932402728804164701536103180137503955397371int) == 57755945540248676718250285954240017784120649913002663109299583505716099int,
    ensures
        pow_mod(10int, 3508639278640351376631nat, 205115282021455665897114700593932402728804164701536103180137503955397371int) == 150066370755336610183253327558912079349407002014579508400366119866036859int,
{
    let m: int = 205115282021455665897114700593932402728804164701536103180137503955397371int;
    lemma_pow_mod_step(10int, 1713202772773609070nat, m, 856601386386804535nat, 57755945540248676718250285954240017784120649913002663109299583505716099int, 16262802129483661585740031745992082004248643901685684959784909123395407int, 124348527910484589377916372982799766840025546392104249329307599346502804int, 0int, 124348527910484589377916372982799766840025546392104249329307599346502804int);
    lemma_pow_mod_step(10int, 3426405545547218141nat, m, 1713202772773609070nat, 124348527910484589377916372982799766840025546392104249329307599346502804int, 75384711666130930860679858946124750649121358104819058079210206767653262int, 81365604120271247964435241754624267203330971207454718895412264825488214int, 3int, 198310195138345481953008315764445463846897217969938879413710136388690027int);
    lemma_pow_mod_step(10int, 6852811091094436282nat, m, 3426405545547218141nat, 198310195138345481953008315764445463846897217969938879413710136388690027int, 191730879865377121561952779045547191701153170626823151157327190382176930int, 183326835575595860429827014606970724131990276028667207062753166910409699int, 0int, 183326835575595860429827014606970724131990276028667207062753166910409699int);
    lemma_pow_mod_step(10int, 13705622182188872564nat, m, 6852811091094436282nat, 183326835575595860429827014606970724131990276028667207062753166910409699int, 163852874885480192816105470577282141405121113306407415244221847534521041int, 89071376758262544749584035447205002058008544702573699065615030717687390int, 0int, 89071376758262544749584035447205002058008544702573699065615030717687390int);
    lemma_pow_mod_step(10int, 27411244364377745129nat, m, 13705622182188872564nat, 89071376758262544749584035447205002058008544702573699065615030717687390int, 38679273818234876614357160113282492236661620290369359780561995902077787int, 10748587362482446737046441385611899335925263765351625916714837627714123int, 0int, 107485873624824467370464413856118993359252637653516259167148376277141230int);
    lemma_pow_mod_step(10int, 54822488728755490259nat, m, 27411244364377745129nat, 107485873624824467370464413856118993359252637653516259167148376277141230int, 56325462028144913111729437458138955843363846746190174544499260765057099int, 160241950546105282793003840781925354835112519330247760398429423316426171int, 7int, 166612531310863166650235503661726729249496040391724881723331705476480113int);
    lemma_pow_mod_step(10int, 109644977457510980519nat, m, 54822488728755490259nat, 166612531310863166650235503661726729249496040391724881723331705476480113int, 135337237265966406788548549920897362314650650049356740532210501736592437int, 135652244080803915920432917489074940233557037524033485789202468276209642int, 6int, 125830748679305163821640971327154985962745387031118238811199659029712194int);
    lemma_pow_mod_step(10int, 219289954915021961039nat, m, 109644977457510980519nat, 125830748679305163821640971327154985962745387031118238811199659029712194int, 77192577545432426998700336171274726162054834828321753455811830728315671int, 69806932309738092536414363420069860528132233852489311164527186140792695int, 3int, 82723477033013927672799532418901397094909844420284802104859349541734837int);
    lemma_pow_mod_step(10int, 438579909830043922078nat, m, 219289954915021961039nat, 82723477033013927672799532418901397094909844420284802104859349541734837int, 33362573402579367761282665481845296966861865081647494993826719315851470int, 122362883783203363661390825501514507865963507711802981760036554931199int, 0int, 122362883783203363661390825501514507865963507711802981760036554931199int);
    lemma_pow_mod_step(10int, 877159819660087844157nat, m, 438579909830043922078nat, 122362883783203363661390825501514507865963507711802981760036554931199int, 72996391005988264404883837909112423907036227986653438974578024330int, 78665837039335809672424632020189254457870204080890584223246694367541171int, 3int, 171312524328991099032902218420095336392289546704297532692054431809219597int);
    lemma_pow_mod_step(10int, 1754319639320175688315nat, m, 877159819660087844157nat, 171312524328991099032902218420095336392289546704297532692054431809219597int, 143080421423213515058722819004077168577812449196445248373581381834453481int, 61191290950705497021857874339355878993417590285016754670423014199643958int, 2int, 201682345464143638424349342205693984476567573447095340343955134085644838int);
    lemma_pow_mod_step(10int, 3508639278640351376631nat, m, 1754319639320175688315nat, 201682345464143638424349342205693984476567573447095340343955134085644838int, 198306864661909365732431427668509781693457450519832558239025632770593951int, 35518165277679227608036802815284448207821116671611561158050362382143423int, 1int, 150066370755336610183253327558912079349407002014579508400366119866036859int);
}

proof fn lemma_certificate_5_6()
    requires
        pow_mod(10int, 3508639278640351376631nat, 205115282021455665897114700593932402728804164701536103180137503955397371int) == 150066370755336610183253327558912079349407002014579508400366119866036859int,
    ensures
        pow_mod(10int, 14371386485310879238681398nat, 205115282021455665897114700593932402728804164701536103180137503955397371int) == 195274904199847537127833718353943577105722718471982115723013534774081617int,
{
    let m: int = 205115282021455665897114700593932402728804164701536103180137503955397371int;
    lemma_pow_mod_step(10int, 7017278557280702753262nat, m, 3508639278640351376631nat, 150066370755336610183253327558912079349407002014579508400366119866036859int, 109791505585246920534018803471583416411202839049329148568813294189268118int, 20788655731313388776496165223318385029955842296120582015274592795268103int, 0int, 20788655731313388776496165223318385029955842296120582015274592795268103int);
    lemma_pow_mod_step(10int, 14034557114561405506524nat, m, 7017278557280702753262nat, 20788655731313388776496165223318385029955842296120582015274592795268103int, 2106952748015444957961480868687080174095278128479599766551147778085975int, 74017973180548342253044976922503018090879799970774137260293050722246884int, 0int, 74017973180548342253044976922503018090879799970774137260293050722246884int);
    lemma_pow_mod_step(10int, 28069114229122811013049nat, m, 14034557114561405506524nat, 74017973180548342253044976922503018090879799970774137260293050722246884int, 26710151968020059958633356846772965082259378032674831339040371818842242int, 12657374079404903697970897426944396849287133907084088376966869177163674int, 0int, 126573740794049036979708974269443968492871339070840883769668691771636740int);
    lemma_pow_mod_step(10int, 56138228458245622026099nat, m, 28069114229122811013049nat, 126573740794049036979708974269443968492871339070840883769668691771636740int, 78106866054589138394944444349905283566147206777630741522157427496443870int, 7912623672152410717934359625245752133478167987944306202355743270761830int, 0int, 79126236721524107179343596252457521334781679879443062023557432707618300int);
    lemma_pow_mod_step(10int, 112276456916491244052198nat, m, 56138228458245622026099nat, 79126236721524107179343596252457521334781679879443062023557432707618300int, 30524109544679147763956188126880146892999079653258101073499853777000413int, 25484839802922958513901016977275809075349232348504614173915504648775777int, 0int, 25484839802922958513901016977275809075349232348504614173915504648775777int);
    lemma_pow_mod_step(10int, 224552913832982488104396nat, m, 112276456916491244052198nat, 25484839802922958513901016977275809075349232348504614173915504648775777int, 3166400150100513111592729690669509682258221088985649314889066939029219int, 90671639661315222247861610627556734472474709676145405435911534697170480int, 0int, 90671639661315222247861610627556734472474709676145405435911534697170480int);
    lemma_pow_mod_step(10int, 449105827665964976208793nat, m, 224552913832982488104396nat, 90671639661315222247861610627556734472474709676145405435911534697170480int, 40081588060373846103843268242793028085679198422162844005164277818171911int, 185210913911838947815721555708822250416381668754947592755806025387984419int, 9int, 6071600925288485083183251742830879604579205235650998936822718281267851int);
    lemma_pow_mod_step(10int, 898211655331929952417587nat, m, 449105827665964976208793nat, 6071600925288485083183251742830879604579205235650998936822718281267851int, 179724969454532740875474557349491560074413841495621000507189409393056int, 86513267882865030889464942892079158292790629127680509117077303598102425int, 4int, 44671550742827645306190626545061972012689632470660678450223020159434766int);
    lemma_pow_mod_step(10int, 1796423310663859904835174nat, m, 898211655331929952417587nat, 44671550742827645306190626545061972012689632470660678450223020159434766int, 9728906720662017650180313375570508378896377329378818515350555976425443int, 175734070095731534798455526808932459955800004257969820217492049389764403int, 0int, 175734070095731534798455526808932459955800004257969820217492049389764403int);
    lemma_pow_mod_step(10int, 3592846621327719809670349nat, m, 1796423310663859904835174nat, 175734070095731534798455526808932459955800004257969820217492049389764403int, 150561494434047519494796820953529139431937475976162408425099090464097085int, 105960113900754568098942402436002068483781474529693401938011503948182874int, 5int, 34024728900267351503850521390358671193793921789253503479427519704841885int);
    lemma_pow_mod_step(10int, 7185693242655439619340699nat, m, 3592846621327719809670349nat, 34024728900267351503850521390358671193793921789253503479427519704841885int, 5644056187951862850501193212174972245822827708179533790736698518191631int, 160331142887367040973441609496716158494271253644922524521131439918751124int, 7int, 167504454723480748454613190809634765841083383538472522950351871499729643int);
    lemma_pow_mod_step(10int, 14371386485310879238681398nat, m, 7185693242655439619340699nat, 167504454723480748454613190809634765841083383538472522950351871499729643int, 136790111763957641567587302485735935890249848721822397611732630629348792int, 195274904199847537127833718353943577105722718471982115723013534774081617int, 0int, 195274904199847537127833718353943577105722718471982115723013534774081617int);
}

proof fn lemma_certificate_5_7()
    requires
        pow_mod(10int, 14371386485310879238681398nat, 205115282021455665897114700593932402728804164701536103180137503955397371int) == 195274904199847537127833718353943577105722718471982115723013534774081617int,
    ensures
        pow_mod(10int, 58865199043833361361639008766nat, 205115282021455665897114700593932402728804164701536103180137503955397371int) == 8072841115955394190729441821400229787142864625198870574688512296086364int,
{
    let m: int = 205115282021455665897114700593932402728804164701536103180137503955397371int;
    lemma_pow_mod_step(10int, 28742772970621758477362797nat, m, 14371386485310879238681398nat, 195274904199847537127833718353943577105722718471982115723013534774081617int, 185906617168928851573565460651479168756382105206841640276727132630931227int, 174320468144124320053922414681487251124060133746285069825945117219730472int, 8int, 102282425269597873362306542063413289410168019850561872818351140554125752int);
    lemma_pow_mod_step(10int, 57485545941243516954725594nat, m, 28742772970621758477362797nat, 102282425269597873362306542063413289410168019850561872818351140554125752int, 51003974038056069225386159096283418294341726310453627898555887107736412int, 97181278580147285313215951068449517876418966788381455533006511243792652int, 0int, 97181278580147285313215951068449517876418966788381455533006511243792652int);
    lemma_pow_mod_step(10int, 114971091882487033909451188nat, m, 57485545941243516954725594nat, 97181278580147285313215951068449517876418966788381455533006511243792652int, 46043380158696816091206439498288259350144186061609551193862957367836142int, 2579079780616531289836434156516517835889882527637920822800045143610422int, 0int, 2579079780616531289836434156516517835889882527637920822800045143610422int);
    lemma_pow_mod_step(10int, 229942183764974067818902377nat, m, 114971091882487033909451188nat, 2579079780616531289836434156516517835889882527637920822800045143610422int, 32428849031781223482096156238711430253999631588641177089203802706652int, 170686796355436258942375468508936676644780611185543620710402839302006192int, 8int, 65945707382717262246837080337907544617372794243147381662928361376882952int);
    lemma_pow_mod_step(10int, 459884367529948135637804755nat, m, 229942183764974067818902377nat, 65945707382717262246837080337907544617372794243147381662928361376882952int, 21201912794347857850598246478204348470137300665638086253053855127441105int, 162368136037333329256996505235426714144407329368002844114011186833899349int, 7int, 187874386223143631290162148196740322342444140769275718879149340651211893int);
    lemma_pow_mod_step(10int, 919768735059896271275609511nat, m, 459884367529948135637804755nat, 187874386223143631290162148196740322342444140769275718879149340651211893int, 172082668101886202965677299171617845087977249900607539911816400977917518int, 100915693460815905410440973203261685156576338048600825124816389832598271int, 4int, 188695806522336390515950929656887240650546721679863838527613882504393226int);
    lemma_pow_mod_step(10int, 1839537470119792542551219023nat, m, 919768735059896271275609511nat, 188695806522336390515950929656887240650546721679863838527613882504393226int, 173590709810644457117394886986826648319263247189331211057028592004213115int, 24545994839656206416411704177676714528223174256515627414530514439966411int, 1int, 40344666375106398267002341182834742553427577863620170965167640444266739int);
    lemma_pow_mod_step(10int, 3679074940239585085102438047nat, m, 1839537470119792542551219023nat, 40344666375106398267002341182834742553427577863620170965167640444266739int, 7935498949066015625384369534319563069130259024822732485861760895384724int, 83575458250065183344118595811264261837462904752207778785039512038533517int, 4int, 15293454414829169852727155736913007459412388715933375129845104563745686int);
    lemma_pow_mod_step(10int, 7358149880479170170204876095nat, m, 3679074940239585085102438047nat, 15293454414829169852727155736913007459412388715933375129845104563745686int, 1140284359280418052149586153091784502154956760302200096408172516951240int, 80055441781913172217904859760412809235835029464271694662288498852420556int, 3int, 185208571754764724487704495822330884171937800538108637082472476658013447int);
    lemma_pow_mod_step(10int, 14716299760958340340409752191nat, m, 7358149880479170170204876095nat, 185208571754764724487704495822330884171937800538108637082472476658013447int, 167233834131635888665773943887277955711769587812208179320975999769394357int, 154448515586346119387989834654885375443864219362474969237704694492786362int, 7int, 108678181713271532600095442391326935337013040713996970116084417240082023int);
    lemma_pow_mod_step(10int, 29432599521916680680819504383nat, m, 14716299760958340340409752191nat, 108678181713271532600095442391326935337013040713996970116084417240082023int, 57581995179020385729363132677945907671430878408812636650958627318812817int, 51758355058579290218684495367450887411114589678855278452972064564868422int, 2int, 107352986542881570392615552486644068653537567385480578169445637737889478int);
    lemma_pow_mod_step(10int, 58865199043833361361639008766nat, m, 29432599521916680680819504383nat, 107352986542881570392615552486644068653537567385480578169445637737889478int, 56186275376939479303460419323771056156189208446358166708561988891989720int, 8072841115955394190729441821400229787142864625198870574688512296086364int, 0int, 8072841115955394190729441821400229787142864625198870574688512296086364int);
}

proof fn lemma_certificate_5_8()
    requires
        pow_mod(10int, 58865199043833361361639008766nat, 205115282021455665897114700593932402728804164701536103180137503955397371int) == 8072841115955394190729441821400229787142864625198870574688512296086364int,
    ensures
        pow_mod(10int, 241111855283541448137273379908501nat, 205115282021455665897114700593932402728804164701536103180137503955397371int) == 146368232431855286600280960698758782804783396546456224632099937787317876int,
{
    let m: int = 205115282021455665897114700593932402728804164701536103180137503955397371int;
    lemma_pow_mod_step(10int, 117730398087666722723278017533nat, m, 58865199043833361361639008766nat, 8072841115955394190729441821400229787142864625198870574688512296086364int, 317727489834925509673098314849397385759331251522021112766428467732962int, 105966949574615271750700035141953792538543762583230209848362354721897594int, 5int, 34093085638874388021426848449875911741416802324621582582936027441989085int);
    lemma_pow_mod_step(10int, 235460796175333445446556035066nat, m, 117730398087666722723278017533nat, 34093085638874388021426848449875911741416802324621582582936027441989085int, 5666757137374283943289343268845240993327363453951318337319945473030856int, 128771352668817352423187745316435939925338133980650724237295342034857649int, 0int, 128771352668817352423187745316435939925338133980650724237295342034857649int);
    lemma_pow_mod_step(10int, 470921592350666890893112070133nat, m, 235460796175333445446556035066nat, 128771352668817352423187745316435939925338133980650724237295342034857649int, 80842641780452034579382877733236638896356415663987122657469915284663689int, 119184298588376891057584329625048335290417319560549722776967999604045582int, 5int, 166266575776490581090269793280821339260152372097816711868992476263468965int);
    lemma_pow_mod_step(10int, 941843184701333781786224140267nat, m, 470921592350666890893112070133nat, 166266575776490581090269793280821339260152372097816711868992476263468965int, 134775790219023174256984375682359470155717990931378939518775253564883438int, 64677145176753211243178639365383627792371598256125955155307246931529727int, 3int, 31425605703165114740442291872039069737303488456651242012659957449105157int);
    lemma_pow_mod_step(10int, 1883686369402667563572448280535nat, m, 941843184701333781786224140267nat, 31425605703165114740442291872039069737303488456651242012659957449105157int, 4814700709172421272132263085389415338017364171096234801364515854611747int, 34482798908212600634408804000850828112262560623445163354660317734477512int, 1int, 139712707060670340446973339414575878393821441532915530366465673389377749int);
    lemma_pow_mod_step(10int, 3767372738805335127144896561070nat, m, 1883686369402667563572448280535nat, 139712707060670340446973339414575878393821441532915530366465673389377749int, 95164242867963742459084302088920330962728046607578737580998005555330561int, 3149470689251972024098331613341155363649594559968474166699789400951870int, 0int, 3149470689251972024098331613341155363649594559968474166699789400951870int);
    lemma_pow_mod_step(10int, 7534745477610670254289793122140nat, m, 3767372738805335127144896561070nat, 3149470689251972024098331613341155363649594559968474166699789400951870int, 48358979032189896180015696815090649400905021657065083947970355720380int, 122816944853970128883607405336218597728798515419558049219020936193375920int, 0int, 122816944853970128883607405336218597728798515419558049219020936193375920int);
    lemma_pow_mod_step(10int, 15069490955221340508579586244281nat, m, 7534745477610670254289793122140nat, 122816944853970128883607405336218597728798515419558049219020936193375920int, 73539142450075019042400911256024279209586793143079140943527918416996716int, 83963921794538144088728960041480496773122295485334724133775194253812764int, 4int, 19178089859558777298830798039075356816006296047202828617201926716538156int);
    lemma_pow_mod_step(10int, 30138981910442681017159172488562nat, m, 15069490955221340508579586244281nat, 19178089859558777298830798039075356816006296047202828617201926716538156int, 1793133729659588816815616801433836737233971318672486027933444486154604int, 91460517171094126052278301599958159948759071362102206523243474442734252int, 0int, 91460517171094126052278301599958159948759071362102206523243474442734252int);
    lemma_pow_mod_step(10int, 60277963820885362034318344977125nat, m, 30138981910442681017159172488562nat, 91460517171094126052278301599958159948759071362102206523243474442734252int, 40782072007335840371468827476521728153646936421623503838107598735291362int, 37753311017324871964701073689940857873014643321544076971587135720190202int, 1int, 172417828151793053749896036305476176001342268513904666535733853246504649int);
    lemma_pow_mod_step(10int, 120555927641770724068636689954250nat, m, 60277963820885362034318344977125nat, 172417828151793053749896036305476176001342268513904666535733853246504649int, 144932679669726481601515148046666566120969483971569266904977458415343801int, 20355322571815993289656309118674129897095296603545205060179539442066030int, 0int, 20355322571815993289656309118674129897095296603545205060179539442066030int);
    lemma_pow_mod_step(10int, 241111855283541448137273379908501nat, m, 120555927641770724068636689954250nat, 20355322571815993289656309118674129897095296603545205060179539442066030int, 2020030652612907508816061557159007950412571388409158249658010397921084int, 96682936051767795018873976307448839372000005535260063735264995360890736int, 4int, 146368232431855286600280960698758782804783396546456224632099937787317876int);
}

proof fn lemma_certificate_5_9()
    requires
        pow_mod(10int, 241111855283541448137273379908501nat, 205115282021455665897114700593932402728804164701536103180137503955397371int) == 146368232431855286600280960698758782804783396546456224632099937787317876int,
    ensures
        pow_mod(10int, 987594159241385771570271764105223600nat, 205115282021455665897114700593932402728804164701536103180137503955397371int) == 124350278295657589033648698215420882825554130989637890513492275325839543int,
{
    let m: int = 205115282021455665897114700593932402728804164701536103180137503955397371int;
    lemma_pow_mod_step(10int, 482223710567082896274546759817003nat, m, 241111855283541448137273379908501nat, 146368232431855286600280960698758782804783396546456224632099937787317876int, 104446920064125868128603347264979817919421263931417551057559203078051179int, 121170838552173755324142961453160770165981244913035754468125820649100967int, 5int, 186131975414459223755856111561945688015791625622677028780570686714022815int);
    lemma_pow_mod_step(10int, 964447421134165792549093519634007nat, m, 482223710567082896274546759817003nat, 186131975414459223755856111561945688015791625622677028780570686714022815int, 168905563399536810643884120617735490612481373451713818044035276762907303int, 111142843659739169797933237782046974512681399393500874324807323737623812int, 5int, 85852026490113368493758874850807731482793170427328227347385717599251265int);
    lemma_pow_mod_step(10int, 1928894842268331585098187039268014nat, m, 964447421134165792549093519634007nat, 85852026490113368493758874850807731482793170427328227347385717599251265int, 35933794790034923163492904907889921720368814345154379900207935178199710int, 110257167195527449576613458807319313479350713113150270652151539157137815int, 0int, 110257167195527449576613458807319313479350713113150270652151539157137815int);
    lemma_pow_mod_step(10int, 3857789684536663170196374078536029nat, m, 1928894842268331585098187039268014nat, 110257167195527449576613458807319313479350713113150270652151539157137815int, 59267368077971262581274709333637704222469838526295260023073122416644266int, 105348020649371985404843815202779462029569947252655474585255966524349539int, 5int, 27903796386441524562864649058132606651678649018874229951872145466508535int);
    lemma_pow_mod_step(10int, 7715579369073326340392748157072059nat, m, 3857789684536663170196374078536029nat, 27903796386441524562864649058132606651678649018874229951872145466508535int, 3796020682137866902110653454674377717492291462122805224111431047932842int, 106043898552791784476075301880633946276932636199715866456329024996487843int, 5int, 34862575420639515275179515836677449125305538489478148662602730187891575int);
    lemma_pow_mod_step(10int, 15431158738146652680785496314144118nat, m, 7715579369073326340392748157072059nat, 34862575420639515275179515836677449125305538489478148662602730187891575int, 5925444233027181873610804632319899124015718570334792391457699891178413int, 120597503802853715868058509566389413292845910601159761734241163083828402int, 0int, 120597503802853715868058509566389413292845910601159761734241163083828402int);
    lemma_pow_mod_step(10int, 30862317476293305361570992628288237nat, m, 15431158738146652680785496314144118nat, 120597503802853715868058509566389413292845910601159761734241163083828402int, 70905286920347535655537956707147484069373361295893889270214764752374185int, 120155430080181097196414410183373981788680495146702490903488435624605969int, 5int, 175977890694532642478570598864077804242784127959344393134196836469072835int);
    lemma_pow_mod_step(10int, 61724634952586610723141985256576475nat, m, 30862317476293305361570992628288237nat, 175977890694532642478570598864077804242784127959344393134196836469072835int, 150979574549971908443902883020482062126546219253542270655244444296322852int, 7495461426792830475979597123427667642066350556556450756948090766915133int, 0int, 74954614267928304759795971234276676420663505565564507569480907669151330int);
    lemma_pow_mod_step(10int, 123449269905173221446283970513152950nat, m, 61724634952586610723141985256576475nat, 74954614267928304759795971234276676420663505565564507569480907669151330int, 27390422325852062292808405980140322629614948969597622963111166863117990int, 40156205285472847979962909273703567018956062568632055790331907931964610int, 0int, 40156205285472847979962909273703567018956062568632055790331907931964610int);
    lemma_pow_mod_step(10int, 246898539810346442892567941026305900nat, m, 123449269905173221446283970513152950nat, 40156205285472847979962909273703567018956062568632055790331907931964610int, 7861534289582397079380994177380084890099849222400856241237276600409717int, 90920792995703013948554703193492676798221107372668462775632662147798093int, 0int, 90920792995703013948554703193492676798221107372668462775632662147798093int);
    lemma_pow_mod_step(10int, 493797079620692885785135882052611800nat, m, 246898539810346442892567941026305900nat, 90920792995703013948554703193492676798221107372668462775632662147798093int, 40302168212423920638486066958235515935274291064311841279190599064895070int, 104180469188790194743902326007255533525283535629521714424745390025575679int, 0int, 104180469188790194743902326007255533525283535629521714424745390025575679int);
    lemma_pow_mod_step(10int, 987594159241385771570271764105223600nat, m, 493797079620692885785135882052611800nat, 104180469188790194743902326007255533525283535629521714424745390025575679int, 52914488152380316152014406448947876707992550218311445077377355318613438int, 124350278295657589033648698215420882825554130989637890513492275325839543int, 0int, 124350278295657589033648698215420882825554130989637890513492275325839543int);
}

proof fn lemma_certificate_5_10()
    requires
        pow_mod(10int, 987594159241385771570271764105223600nat, 205115282021455665897114700593932402728804164701536103180137503955397371int) == 124350278295657589033648698215420882825554130989637890513492275325839543int,
    ensures
        pow_mod(10int, 4045185676252716120351833145774995869447nat, 205115282021455665897114700593932402728804164701536103180137503955397371int) == 197381501970827613944514632618157799420648087978451482101502092132633354int,
{
    let m: int = 205115282021455665897114700593932402728804164701536103180137503955397371int;
    lemma_pow_mod_step(10int, 1975188318482771543140543528210447201nat, m, 987594159241385771570271764105223600nat, 124350278295657589033648698215420882825554130989637890513492275325839543int, 75386833978513683552925618299151953811905241815278041553936951044446103int, 14593049288920778715831626566926698844037570838079851806111737825053636int, 0int, 145930492889207787158316265669266988440375708380798518061117378250536360int);
    lemma_pow_mod_step(10int, 3950376636965543086281087056420894403nat, m, 1975188318482771543140543528210447201nat, 145930492889207787158316265669266988440375708380798518061117378250536360int, 103823121051797253865736733065326977359048772556690151029837442389260812int, 58755095064496177423861764645501781119403729885945027191000453263924348int, 2int, 177320386602050442444388245267153005736428969456378065549729524728448738int);
    lemma_pow_mod_step(10int, 7900753273931086172562174112841788807nat, m, 3950376636965543086281087056420894403nat, 177320386602050442444388245267153005736428969456378065549729524728448738int, 153291939999924771107621375798658272938842850948848289373461221554763497int, 109674125039042821847069910539951720237281822522940919179921419333226257int, 5int, 71164840283149888985125602429855188728797401721728675898526673555275715int);
    lemma_pow_mod_step(10int, 15801506547862172345124348225683577615nat, m, 7900753273931086172562174112841788807nat, 71164840283149888985125602429855188728797401721728675898526673555275715int, 24690673667096527339617729986376602804325808706270071597880210924777614int, 75997608776843987738728502670779972485733066806666735994907656493508431int, 3int, 144630241704072879695940924926002516670918173962059050408664053068892197int);
    lemma_pow_mod_step(10int, 31603013095724344690248696451367155230nat, m, 15801506547862172345124348225683577615nat, 144630241704072879695940924926002516670918173962059050408664053068892197int, 101981220556693903692900440542781373796159046224560986275649249630159458int, 172144505787747572722141563899346214032089356584124891226204574323501891int, 0int, 172144505787747572722141563899346214032089356584124891226204574323501891int);
    lemma_pow_mod_step(10int, 63206026191448689380497392902734310460nat, m, 31603013095724344690248696451367155230nat, 172144505787747572722141563899346214032089356584124891226204574323501891int, 144473539859443927540989607951439789468885141696862156499529285614067760int, 134292056032797855599704800739663717070562075298942342815960602960716921int, 0int, 134292056032797855599704800739663717070562075298942342815960602960716921int);
    lemma_pow_mod_step(10int, 126412052382897378760994785805468620920nat, m, 63206026191448689380497392902734310460nat, 134292056032797855599704800739663717070562075298942342815960602960716921int, 87923026191825491813874540525595128240067792753284056153677502487866278int, 50615871433369686341345676649956830710963762425439672368892650894965103int, 0int, 50615871433369686341345676649956830710963762425439672368892650894965103int);
    lemma_pow_mod_step(10int, 252824104765794757521989571610937241840nat, m, 126412052382897378760994785805468620920nat, 50615871433369686341345676649956830710963762425439672368892650894965103int, 12490373295010852432678897084908985286087603352795674501691580220844349int, 141067242603328619707610570299838116675206156204620122430997598152994130int, 0int, 141067242603328619707610570299838116675206156204620122430997598152994130int);
    lemma_pow_mod_step(10int, 505648209531589515043979143221874483680nat, m, 252824104765794757521989571610937241840nat, 141067242603328619707610570299838116675206156204620122430997598152994130int, 97018450988087653543963419495191136864632557046834951110216877786936439int, 5346545119566062235666716749681377729350924666050679680967494849755031int, 0int, 5346545119566062235666716749681377729350924666050679680967494849755031int);
    lemma_pow_mod_step(10int, 1011296419063179030087958286443748967361nat, m, 505648209531589515043979143221874483680nat, 5346545119566062235666716749681377729350924666050679680967494849755031int, 139363310397152885475551485271142086420677846933197166924480578847752int, 147942415242001235187208223188938036833252968529042861106993284239750969int, 7int, 43617178269822690592279327731853549230900532379675888808970314709728093int);
    lemma_pow_mod_step(10int, 2022592838126358060175916572887497934723nat, m, 1011296419063179030087958286443748967361nat, 43617178269822690592279327731853549230900532379675888808970314709728093int, 9275068251728264475325698521120475520600688643006226376389687400249802int, 117087466324692673112281600572796607209486615996732950279141478419346107int, 5int, 145298253139648401637242502758304058450845336459648986890727264416474215int);
    lemma_pow_mod_step(10int, 4045185676252716120351833145774995869447nat, m, 2022592838126358060175916572887497934723nat, 145298253139648401637242502758304058450845336459648986890727264416474215int, 102925448349699329432056371174428177328264472489289532988978380828623977int, 142807319409956160932720283618175221579347307618766810118232711586501758int, 6int, 197381501970827613944514632618157799420648087978451482101502092132633354int);
}

proof fn lemma_certificate_5_11()
    requires
        pow_mod(10int, 4045185676252716120351833145774995869447nat, 205115282021455665897114700593932402728804164701536103180137503955397371int) == 197381501970827613944514632618157799420648087978451482101502092132633354int,
    ensures
        pow_mod(10int, 16569080529931125228961108565094383081258070nat, 205115282021455665897114700593932402728804164701536103180137503955397371int) == 82465961140160603619998193294408469298927459020178525579485278525924829int,
{
    let m: int = 205115282021455665897114700593932402728804164701536103180137503955397371int;
    lemma_pow_mod_step(10int, 8090371352505432240703666291549991738895nat, m, 4045185676252716120351833145774995869447nat, 197381501970827613944514632618157799420648087978451482101502092132633354int, 189939320641084902895435426997813039548325433925430017340877643294590532int, 75009882419650515428091307633990256798732744371614906739295573798997944int, 3int, 134752978132138156589568974558105359800914949611540757852543226123787327int);
    lemma_pow_mod_step(10int, 16180742705010864481407332583099983477791nat, m, 8090371352505432240703666291549991738895nat, 134752978132138156589568974558105359800914949611540757852543226123787327int, 88527607190092669305197557600344810770524778162990266219768737015351244int, 155797467117906311768857418098562926072683875470399910877756409166625405int, 7int, 122167697028873456408771276828102441625209601793246386516601563978472453int);
    lemma_pow_mod_step(10int, 32361485410021728962814665166199966955582nat, m, 16180742705010864481407332583099983477791nat, 122167697028873456408771276828102441625209601793246386516601563978472453int, 72763696835506497170069765232651717807601235638752548402065038700218965int, 65644807755731156154867984305730817126145407659881089248349567994496194int, 0int, 65644807755731156154867984305730817126145407659881089248349567994496194int);
    lemma_pow_mod_step(10int, 64722970820043457925629330332399933911164nat, m, 32361485410021728962814665166199966955582nat, 65644807755731156154867984305730817126145407659881089248349567994496194int, 21008872390288998572006760534079616990859029878779650706824469844694422int, 182260712102761985470156228551435462843217592862765513089920580803321074int, 0int, 182260712102761985470156228551435462843217592862765513089920580803321074int);
    lemma_pow_mod_step(10int, 129445941640086915851258660664799867822328nat, m, 64722970820043457925629330332399933911164nat, 182260712102761985470156228551435462843217592862765513089920580803321074int, 161952668025637831075425514080992658789855346489223988873127406187574838int, 194824952370914975414528225766611530077665439456256547083322940841562578int, 0int, 194824952370914975414528225766611530077665439456256547083322940841562578int);
    lemma_pow_mod_step(10int, 258891883280173831702517321329599735644657nat, m, 129445941640086915851258660664799867822328nat, 194824952370914975414528225766611530077665439456256547083322940841562578int, 185050873305280583571553681846008524039815669507850473077178401257650266int, 194142146201330637474526636982832088027672688442201767870038256916155398int, 9int, 95383923820205381671234064482929255717489402108192750079145033562977641int);
    lemma_pow_mod_step(10int, 517783766560347663405034642659199471289314nat, m, 258891883280173831702517321329599735644657nat, 95383923820205381671234064482929255717489402108192750079145033562977641int, 44355997435564338644720415667658795649573878055769466127755862749994962int, 76383109874937058740066425828558943516917142333250964148916227307879979int, 0int, 76383109874937058740066425828558943516917142333250964148916227307879979int);
    lemma_pow_mod_step(10int, 1035567533120695326810069285318398942578629nat, m, 517783766560347663405034642659199471289314nat, 76383109874937058740066425828558943516917142333250964148916227307879979int, 28444391937390671101841218878805581173449404197353741906511636086983037int, 148995171572260369219538986638147569166768421807979319790879615597644714int, 7int, 54144741572414030915586962223948872566055065169040475647833628288665543int);
    lemma_pow_mod_step(10int, 2071135066241390653620138570636797885157258nat, m, 1035567533120695326810069285318398942578629nat, 54144741572414030915586962223948872566055065169040475647833628288665543int, 14292709012470560997510034911451260030964829757402900460523884483145175int, 24455340840927326302141963160989447512879764188196275154985184709149924int, 0int, 24455340840927326302141963160989447512879764188196275154985184709149924int);
    lemma_pow_mod_step(10int, 4142270132482781307240277141273595770314517nat, m, 2071135066241390653620138570636797885157258nat, 24455340840927326302141963160989447512879764188196275154985184709149924int, 2915744208582999844924343737337458769127425870230343765881198278474067int, 156317058254125666528718700452692152634295320705373264999127096205727919int, 7int, 127363608391067004007384100369394707241324054142979927730308434369497593int);
    lemma_pow_mod_step(10int, 8284540264965562614480554282547191540629035nat, m, 4142270132482781307240277141273595770314517nat, 127363608391067004007384100369394707241324054142979927730308434369497593int, 79084739969283505628088973629947254705928855783558165794163081064748445int, 147525919679999393020140499709577649237392706255132459157773815103455554int, 7int, 39452222649804268921602092938249673272297909640571869316775623346773943int);
    lemma_pow_mod_step(10int, 16569080529931125228961108565094383081258070nat, m, 8284540264965562614480554282547191540629035nat, 39452222649804268921602092938249673272297909640571869316775623346773943int, 7588307690535299928546763246611994941217384572819577552773263174245020int, 82465961140160603619998193294408469298927459020178525579485278525924829int, 0int, 82465961140160603619998193294408469298927459020178525579485278525924829int);
}

proof fn lemma_certificate_5_12()
    requires
        pow_mod(10int, 16569080529931125228961108565094383081258070nat, 205115282021455665897114700593932402728804164701536103180137503955397371int) == 82465961140160603619998193294408469298927459020178525579485278525924829int,
    ensures
        pow_mod(10int, 67866953850597888937824700682626593100833055318nat, 205115282021455665897114700593932402728804164701536103180137503955397371int) == 145036260263091430816059745412177354737457338278331649410667342897995129int,
{
    let m: int = 205115282021455665897114700593932402728804164701536103180137503955397371int;
    lemma_pow_mod_step(10int, 33138161059862250457922217130188766162516140nat, m, 16569080529931125228961108565094383081258070nat, 82465961140160603619998193294408469298927459020178525579485278525924829int, 33155183171866795524666176993723696800888830075054428601865833972210286int, 22212841882955291381990290809946402722951940070611311974203797455121135int, 0int, 22212841882955291381990290809946402722951940070611311974203797455121135int);
    lemma_pow_mod_step(10int, 66276322119724500915844434260377532325032280nat, m, 33138161059862250457922217130188766162516140nat, 22212841882955291381990290809946402722951940070611311974203797455121135int, 2405526978070608076953080649143144546676484677942598713789252919867104int, 130798494695616759572606829858037975817578829380956389936938020692704641int, 0int, 130798494695616759572606829858037975817578829380956389936938020692704641int);
    lemma_pow_mod_step(10int, 132552644239449001831688868520755064650064561nat, m, 66276322119724500915844434260377532325032280nat, 130798494695616759572606829858037975817578829380956389936938020692704641int, 83407955009659945154881010107186122449215630017052612572777019670867370int, 32239430830046523950771603181362798506473183277701977407802279075254611int, 1int, 117279026279009573610601331219695582335927668075483670897885286797148739int);
    lemma_pow_mod_step(10int, 265105288478898003663377737041510129300129122nat, m, 132552644239449001831688868520755064650064561nat, 117279026279009573610601331219695582335927668075483670897885286797148739int, 67056778360931051059621143217279496674694963990211348436071448233056528int, 179924201556567475366325014659239776012430194681667731416760433943702233int, 0int, 179924201556567475366325014659239776012430194681667731416760433943702233int);
    lemma_pow_mod_step(10int, 530210576957796007326755474083020258600258244nat, m, 265105288478898003663377737041510129300129122nat, 179924201556567475366325014659239776012430194681667731416760433943702233int, 157826944861095409395248125645069327989693530151045331579507965156411127int, 35548550650365806370243758473819383737114600112239465143677007038239172int, 0int, 35548550650365806370243758473819383737114600112239465143677007038239172int);
    lemma_pow_mod_step(10int, 1060421153915592014653510948166040517200516489nat, m, 530210576957796007326755474083020258600258244nat, 35548550650365806370243758473819383737114600112239465143677007038239172int, 6160922974083600899672329748848375613727004956718579559320782643551969int, 155908408880811324498052530777410441789269692496630776537993253990772085int, 7int, 123277114657923583700722403616577598791067772055555043118970012219939253int);
    lemma_pow_mod_step(10int, 2120842307831184029307021896332081034401032978nat, m, 1060421153915592014653510948166040517200516489nat, 123277114657923583700722403616577598791067772055555043118970012219939253int, 74091246876442685807812407848809088173172798974263039506570029759788211int, 135501953894398159379542966294813681415628263610326438387464795704004728int, 0int, 135501953894398159379542966294813681415628263610326438387464795704004728int);
    lemma_pow_mod_step(10int, 4241684615662368058614043792664162068802065957nat, m, 2120842307831184029307021896332081034401032978nat, 135501953894398159379542966294813681415628263610326438387464795704004728int, 89514439530054189738482908930801355496536138935430886362751679851907732int, 96047614784751902040789789875431286750558449037144676837504664558981412int, 4int, 140015019761696356819439096378583256590367831565302355654496629768224636int);
    lemma_pow_mod_step(10int, 8483369231324736117228087585328324137604131914nat, m, 4241684615662368058614043792664162068802065957nat, 140015019761696356819439096378583256590367831565302355654496629768224636int, 95576524409417545736326650218985240256447414242157718806738830945627070int, 146126211393289207750132200428027521903397838103491935415601422732899526int, 0int, 146126211393289207750132200428027521903397838103491935415601422732899526int);
    lemma_pow_mod_step(10int, 16966738462649472234456175170656648275208263829nat, m, 8483369231324736117228087585328324137604131914nat, 146126211393289207750132200428027521903397838103491935415601422732899526int, 104101798002172608810737803608308312153432512795187880261334095285331275int, 57802017175443644398697372781288913903218489436529513920018339211946651int, 2int, 167789607711525112192744326625024333574576564962222932839908384208671768int);
    lemma_pow_mod_step(10int, 33933476925298944468912350341313296550416527659nat, m, 16966738462649472234456175170656648275208263829nat, 167789607711525112192744326625024333574576564962222932839908384208671768int, 137256240386040877057390527243410896266916197466735633531496503560847201int, 25913183635382705237281911291623909511967425724498811387745073392137253int, 1int, 54016554332371386475704412322306692390870092543452010697313229965975159int);
    lemma_pow_mod_step(10int, 67866953850597888937824700682626593100833055318nat, m, 33933476925298944468912350341313296550416527659nat, 54016554332371386475704412322306692390870092543452010697313229965975159int, 14225113376178478606788498361094012191465791795030420928133863816712712int, 145036260263091430816059745412177354737457338278331649410667342897995129int, 0int, 145036260263091430816059745412177354737457338278331649410667342897995129int);
}

proof fn lemma_certificate_5_13()
    requires
        pow_mod(10int, 67866953850597888937824700682626593100833055318nat, 205115282021455665897114700593932402728804164701536103180137503955397371int) == 145036260263091430816059745412177354737457338278331649410667342897995129int,
    ensures
        pow_mod(10int, 277983042972048953089329973996038525341012194585154nat, 205115282021455665897114700593932402728804164701536103180137503955397371int) == 77636773548513347311595928475891107989585851876083016444197806924777901int,
{
    let m: int = 205115282021455665897114700593932402728804164701536103180137503955397371int;
    lemma_pow_mod_step(10int, 135733907701195777875649401365253186201666110637nat, m, 67866953850597888937824700682626593100833055318nat, 145036260263091430816059745412177354737457338278331649410667342897995129int, 102554605311674519934889369499244189405140124429599855746694073604498522int, 160099344689513350939374342081614239820592804540451853133860540015540979int, 7int, 165186472744943848113940516658615579104298892493765809077642872467628193int);
    lemma_pow_mod_step(10int, 271467815402391555751298802730506372403332221274nat, m, 135733907701195777875649401365253186201666110637nat, 165186472744943848113940516658615579104298892493765809077642872467628193int, 133030413477733076296574759216581739022094014101797700510840786196383720int, 134292987296791399124767026168227290427540808981411415001807463093245129int, 0int, 134292987296791399124767026168227290427540808981411415001807463093245129int);
    lemma_pow_mod_step(10int, 542935630804783111502597605461012744806664442549nat, m, 271467815402391555751298802730506372403332221274nat, 134292987296791399124767026168227290427540808981411415001807463093245129int, 87924245621102492297630015447546281546283458013284249829318928726996568int, 67328972513216175619869992551570311837712270327079375574491506289003913int, 3int, 57943879067794758507355823733905910190710209166185446204502551023847017int);
    lemma_pow_mod_step(10int, 1085871261609566223005195210922025489613328885098nat, m, 542935630804783111502597605461012744806664442549nat, 57943879067794758507355823733905910190710209166185446204502551023847017int, 16368810204361174070330688702230180557524111513460670655392051620360743int, 74385023910122620863685641391003663512990529067688486325415741285991636int, 0int, 74385023910122620863685641391003663512990529067688486325415741285991636int);
    lemma_pow_mod_step(10int, 2171742523219132446010390421844050979226657770196nat, m, 1085871261609566223005195210922025489613328885098nat, 74385023910122620863685641391003663512990529067688486325415741285991636int, 26975716911871695793285610861701162102669216952045075563291529539786956int, 33304613247918076669848807194079517778792764954232132544583602199463820int, 0int, 33304613247918076669848807194079517778792764954232132544583602199463820int);
    lemma_pow_mod_step(10int, 4343485046438264892020780843688101958453315540393nat, m, 2171742523219132446010390421844050979226657770196nat, 33304613247918076669848807194079517778792764954232132544583602199463820int, 5407677344476824215702114976801143275882532177593947584321862630377394int, 200035136290703036092810007499188987103072899298649090652206523561226int, 0int, 2000351362907030360928100074991889871030728992986490906522065235612260int);
    lemma_pow_mod_step(10int, 8686970092876529784041561687376203916906631080786nat, m, 4343485046438264892020780843688101958453315540393nat, 2000351362907030360928100074991889871030728992986490906522065235612260int, 19508081190486114087889363340676918509447603638757478405222443207512int, 20727415689982601642023539078989039225858979965314814687113747290056648int, 0int, 20727415689982601642023539078989039225858979965314814687113747290056648int);
    lemma_pow_mod_step(10int, 17373940185753059568083123374752407833813262161572nat, m, 8686970092876529784041561687376203916906631080786nat, 20727415689982601642023539078989039225858979965314814687113747290056648int, 2094557543208295924310693980316116880836355434769873511538886061322168int, 68645287508089534838160806109063415833374479610504599453890722957775576int, 0int, 68645287508089534838160806109063415833374479610504599453890722957775576int);
    lemma_pow_mod_step(10int, 34747880371506119136166246749504815667626524323144nat, m, 17373940185753059568083123374752407833813262161572nat, 68645287508089534838160806109063415833374479610504599453890722957775576int, 22973302869629019784859730435645247704818358346470701217738003478560977int, 135250874242362664334589421542211311342545602123640921806319354693140309int, 0int, 135250874242362664334589421542211311342545602123640921806319354693140309int);
    lemma_pow_mod_step(10int, 69495760743012238272332493499009631335253048646288nat, m, 34747880371506119136166246749504815667626524323144nat, 135250874242362664334589421542211311342545602123640921806319354693140309int, 89183013586525061881898364253793441756724234643642517591492907582676029int, 125717227620375383646215853209547303922701280845669798057274029709295722int, 0int, 125717227620375383646215853209547303922701280845669798057274029709295722int);
    lemma_pow_mod_step(10int, 138991521486024476544664986998019262670506097292577nat, m, 69495760743012238272332493499009631335253048646288nat, 125717227620375383646215853209547303922701280845669798057274029709295722int, 77053358310474614635647767380839013626498761037616063560082041057722762int, 82818825884999099739600468674094713709340977279320175222102625185842582int, 4int, 7727130764168333807545884365217526178193113987057339500476236036836336int);
    lemma_pow_mod_step(10int, 277983042972048953089329973996038525341012194585154nat, m, 138991521486024476544664986998019262670506097292577nat, 7727130764168333807545884365217526178193113987057339500476236036836336int, 291097519688030886240554683231677437414446293426897484481691805054345int, 77636773548513347311595928475891107989585851876083016444197806924777901int, 0int, 77636773548513347311595928475891107989585851876083016444197806924777901int);
}

proof fn lemma_certificate_5_14()
    requires
        pow_mod(10int, 277983042972048953089329973996038525341012194585154nat, 205115282021455665897114700593932402728804164701536103180137503955397371int) == 77636773548513347311595928475891107989585851876083016444197806924777901int,
    ensures
        pow_mod(10int, 1138618544013512511853895573487773799796785949020794821nat, 205115282021455665897114700593932402728804164701536103180137503955397371int) == 134442515706966908382566040369014891914064353678018723714131882372389166int,
{
    let m: int = 205115282021455665897114700593932402728804164701536103180137503955397371int;
    lemma_pow_mod_step(10int, 555966085944097906178659947992077050682024389170309nat, m, 277983042972048953089329973996038525341012194585154nat, 77636773548513347311595928475891107989585851876083016444197806924777901int, 29385760766438898010196552308573219127624770264307033395147179786197935int, 181464777744290949979815868371546938892971058319983203577730423993336916int, 8int, 173725521271264172621241078964010167099277265587543210336204208290190192int);
    lemma_pow_mod_step(10int, 1111932171888195812357319895984154101364048778340619nat, m, 555966085944097906178659947992077050682024389170309nat, 173725521271264172621241078964010167099277265587543210336204208290190192int, 147139483921122390582369445624037770109286267767703133668210444554841885int, 76858029184912507189603308559038022942414185148653067699515862283312529int, 3int, 153234445784758074204688983808583021237729357381922367454746110966933177int);
    lemma_pow_mod_step(10int, 2223864343776391624714639791968308202728097556681239nat, m, 1111932171888195812357319895984154101364048778340619nat, 153234445784758074204688983808583021237729357381922367454746110966933177int, 114476089463220984222730019258543878732205308658238942413972544995487313int, 84027150988436671758756905543777628959383475034756987689475484079259206int, 4int, 19810381798544053999110253062046678678618091541425464174204824971002576int);
    lemma_pow_mod_step(10int, 4447728687552783249429279583936616405456195113362479nat, m, 2223864343776391624714639791968308202728097556681239nat, 19810381798544053999110253062046678678618091541425464174204824971002576int, 1913320271100200067957876046630184545702597675046260203018178011664920int, 150353062343693941687426756891472639776419412084585093555049818697710456int, 7int, 67723649286749755594464664757199578662564967935098213289535659289322963int);
    lemma_pow_mod_step(10int, 8895457375105566498858559167873232810912390226724959nat, m, 4447728687552783249429279583936616405456195113362479nat, 67723649286749755594464664757199578662564967935098213289535659289322963int, 22360560498046751896027586730406180621619360237043260753290204092027937int, 102197348566309402881845603955532905626176580535864402228784766850745742int, 4int, 201512357577271365229997237179599445346549146552499609567297652685867936int);
    lemma_pow_mod_step(10int, 17790914750211132997717118335746465621824780453449919nat, m, 8895457375105566498858559167873232810912390226724959nat, 201512357577271365229997237179599445346549146552499609567297652685867936int, 197972719809840593313122174476029010383901037708374996728479082291538550int, 61854615772593457848207669123981374928712416004647253345118133417748046int, 3int, 3200311661567580790732589458016541100711665941864223910768822311288347int);
    lemma_pow_mod_step(10int, 35581829500422265995434236671492931243649560906899838nat, m, 17790914750211132997717118335746465621824780453449919nat, 3200311661567580790732589458016541100711665941864223910768822311288347int, 49932870092507816114917673414316823180643324378659637418349230412943int, 94157110449056239455878457137825172328665588310686896003137174991419556int, 0int, 94157110449056239455878457137825172328665588310686896003137174991419556int);
    lemma_pow_mod_step(10int, 71163659000844531990868473342985862487299121813799676nat, m, 35581829500422265995434236671492931243649560906899838nat, 94157110449056239455878457137825172328665588310686896003137174991419556int, 43222335072958687155742680969850203494304334362146871003418574312921015int, 44818088174358363605047915871061164353745654518606825101803809957585571int, 0int, 44818088174358363605047915871061164353745654518606825101803809957585571int);
    lemma_pow_mod_step(10int, 142327318001689063981736946685971724974598243627599352nat, m, 71163659000844531990868473342985862487299121813799676nat, 44818088174358363605047915871061164353745654518606825101803809957585571int, 9792839459882121830101359531998651272882506240746929475056861932004456int, 3060943231201826122137284777181564661697764577010606605389597764710865int, 0int, 3060943231201826122137284777181564661697764577010606605389597764710865int);
    lemma_pow_mod_step(10int, 284654636003378127963473893371943449949196487255198705nat, m, 142327318001689063981736946685971724974598243627599352nat, 3060943231201826122137284777181564661697764577010606605389597764710865int, 45678573396887179553839839698706781274663039999775165211093395320513int, 186112746643947997766009655761777829327044893347039356966101796226476902int, 9int, 15089928246378984586064252272386668711211451156568641039780426666192681int);
    lemma_pow_mod_step(10int, 569309272006756255926947786743886899898392974510397410nat, m, 284654636003378127963473893371943449949196487255198705nat, 15089928246378984586064252272386668711211451156568641039780426666192681int, 1110136369346910104412890880543471279781756302133502334913169294030815int, 58062030388289389346165938679712458229510384785122043464386988573980396int, 0int, 58062030388289389346165938679712458229510384785122043464386988573980396int);
    lemma_pow_mod_step(10int, 1138618544013512511853895573487773799796785949020794821nat, m, 569309272006756255926947786743886899898392974510397410nat, 58062030388289389346165938679712458229510384785122043464386988573980396int, 16435632389682222991095151304834284790415871190391630965100832668038981int, 95490364379278957197102484274474450282928101248416313643468189819397865int, 4int, 134442515706966908382566040369014891914064353678018723714131882372389166int);
}

proof fn lemma_certificate_5_15()
    requires
        pow_mod(10int, 1138618544013512511853895573487773799796785949020794821nat, 205115282021455665897114700593932402728804164701536103180137503955397371int) == 134442515706966908382566040369014891914064353678018723714131882372389166int,
    ensures
        pow_mod(10int, 4663781556279347248553556269005921483967635247189175588121nat, 205115282021455665897114700593932402728804164701536103180137503955397371int) == 72899167633884791626328346638026597312740094184085819989337319060914122int,
{
    let m: int = 205115282021455665897114700593932402728804164701536103180137503955397371int;
    lemma_pow_mod_step(10int, 2277237088027025023707791146975547599593571898041589642nat, m, 1138618544013512511853895573487773799796785949020794821nat, 134442515706966908382566040369014891914064353678018723714131882372389166int, 88120152976838494696762997084640894799551648713209879182989730108437040int, 61277258676514715945848837686181518214009616939953008358743102019153716int, 0int, 61277258676514715945848837686181518214009616939953008358743102019153716int);
    lemma_pow_mod_step(10int, 4554474176054050047415582293951095199187143796083179285nat, m, 2277237088027025023707791146975547599593571898041589642nat, 61277258676514715945848837686181518214009616939953008358743102019153716int, 18306302650407706451704238784297651076080815518190455828961314271553942int, 118344102819723376049919247046722588072156768545755104628266686565122174int, 5int, 157864618089955431013618967497563867077546861949870530381979345874234885int);
    lemma_pow_mod_step(10int, 9108948352108100094831164587902190398374287592166358570nat, m, 4554474176054050047415582293951095199187143796083179285nat, 157864618089955431013618967497563867077546861949870530381979345874234885int, 121498687952858862366082831231308509175551040130046417323009191438424501int, 96374676839004345422815079963299683361485679491988253087919804513576354int, 0int, 96374676839004345422815079963299683361485679491988253087919804513576354int);
    lemma_pow_mod_step(10int, 18217896704216200189662329175804380796748575184332717141nat, m, 9108948352108100094831164587902190398374287592166358570nat, 96374676839004345422815079963299683361485679491988253087919804513576354int, 45282234674503482929707671141764068322421677210624759769500328481409030int, 115209850755237969744690789333454224742707842062026530628563203750273186int, 5int, 126522097445101367961334390364880233783057597112584790384944517725745005int);
    lemma_pow_mod_step(10int, 36435793408432400379324658351608761593497150368665434282nat, m, 18217896704216200189662329175804380796748575184332717141nat, 126522097445101367961334390364880233783057597112584790384944517725745005int, 78043142296112575929482130295864299504576796593890478093017166234401292int, 8032288731839705364357138924936813146574823268606578837410142146646693int, 0int, 8032288731839705364357138924936813146574823268606578837410142146646693int);
    lemma_pow_mod_step(10int, 72871586816864800758649316703217523186994300737330868564nat, m, 36435793408432400379324658351608761593497150368665434282nat, 8032288731839705364357138924936813146574823268606578837410142146646693int, 314543419855427269949215072760813893442319517187441158697278343004178int, 104338281574225336939175984226248114328880443535880470382177102664620211int, 0int, 104338281574225336939175984226248114328880443535880470382177102664620211int);
    lemma_pow_mod_step(10int, 145743173633729601517298633406435046373988601474661737128nat, m, 72871586816864800758649316703217523186994300737330868564nat, 104338281574225336939175984226248114328880443535880470382177102664620211int, 53074919111700183916655016420061985338660074240957670767874598260995389int, 166454150515758034806045676854937195507230265863678135677727235375962202int, 0int, 166454150515758034806045676854937195507230265863678135677727235375962202int);
    lemma_pow_mod_step(10int, 291486347267459203034597266812870092747977202949323474257nat, m, 145743173633729601517298633406435046373988601474661737128nat, 166454150515758034806045676854937195507230265863678135677727235375962202int, 135080058154927716441395592162997298830987812952045941088896402453761458int, 79778004713410401754729646472299772338929479389877076195849497298361886int, 3int, 182434201069737019855952362941200515202882299794162452418082461117426747int);
    lemma_pow_mod_step(10int, 582972694534918406069194533625740185495954405898646948515nat, m, 291486347267459203034597266812870092747977202949323474257nat, 182434201069737019855952362941200515202882299794162452418082461117426747int, 162261131359641040190299237852778038636336832341325638340857752345987196int, 154723128019510579993980535096033352600515643868523923726020937452940293int, 7int, 111424306044916138660002446802806706903527285774486514999246846841621333int);
    lemma_pow_mod_step(10int, 1165945389069836812138389067251480370991908811797293897030nat, m, 582972694534918406069194533625740185495954405898646948515nat, 111424306044916138660002446802806706903527285774486514999246846841621333int, 60528771212144251965135797310279923023652459801385131917140710263199403int, 177085486950954563853565231679944298911137530398198819091413767485727376int, 0int, 177085486950954563853565231679944298911137530398198819091413767485727376int);
    lemma_pow_mod_step(10int, 2331890778139673624276778134502960741983817623594587794060nat, m, 1165945389069836812138389067251480370991908811797293897030nat, 177085486950954563853565231679944298911137530398198819091413767485727376int, 152886071576940945044214878704325694543650170252211028762782322322481372int, 151415041145949607040870753615276535840223408148418631078034434790572364int, 0int, 151415041145949607040870753615276535840223408148418631078034434790572364int);
    lemma_pow_mod_step(10int, 4663781556279347248553556269005921483967635247189175588121nat, m, 2331890778139673624276778134502960741983817623594587794060nat, 151415041145949607040870753615276535840223408148418631078034434790572364int, 111773800856200617768376136630877709167648572060943516938037317490720297int, 171382142380553011880324595138948581914317341179637464543043735070409309int, 8int, 72899167633884791626328346638026597312740094184085819989337319060914122int);
}

proof fn lemma_certificate_5_16()
    requires
        pow_mod(10int, 4663781556279347248553556269005921483967635247189175588121nat, 205115282021455665897114700593932402728804164701536103180137503955397371int) == 72899167633884791626328346638026597312740094184085819989337319060914122int,
    ensures
        pow_mod(10int, 19102849254520206330075366477848254398331433972486863208947470nat, 205115282021455665897114700593932402728804164701536103180137503955397371int) == 38812516036419078467442623368589047693149785220565303311706991720400764int,
{
    let m: int = 205115282021455665897114700593932402728804164701536103180137503955397371int;
    lemma_pow_mod_step(10int, 9327563112558694497107112538011842967935270494378351176243nat, m, 4663781556279347248553556269005921483967635247189175588121nat, 72899167633884791626328346638026597312740094184085819989337319060914122int, 25908789385850565927136678274029544681459185224846845933324856379561627int, 148750615373782499244704973199606727531145895708400783504765228690748267int, 7int, 51699179587635331167246827838540456209829804173255112786689759219701073int);
    lemma_pow_mod_step(10int, 18655126225117388994214225076023685935870540988756702352487nat, m, 9327563112558694497107112538011842967935270494378351176243nat, 51699179587635331167246827838540456209829804173255112786689759219701073int, 13030746142820242692420941158321982525270255298613412181620773322985137int, 90279875587558742299434554306057696770900001398529073952031530715476502int, 4int, 82337627789764759405886740684847356793783355179146326799765291333175536int);
    lemma_pow_mod_step(10int, 37310252450234777988428450152047371871741081977513404704975nat, m, 18655126225117388994214225076023685935870540988756702352487nat, 82337627789764759405886740684847356793783355179146326799765291333175536int, 33052071416778627823624017181379764847484542346292073917901148890444261int, 130784719170893807871338497518834179005371555814289451892217592807449465int, 6int, 77155499580204083330696771624747373680890569933677899841350904342110424int);
    lemma_pow_mod_step(10int, 74620504900469555976856900304094743743482163955026809409951nat, m, 37310252450234777988428450152047371871741081977513404704975nat, 77155499580204083330696771624747373680890569933677899841350904342110424int, 29022562613585145119302160461138854490169104013687900793500826066926520int, 7771456777752676539880578736644138305379478153020879809536706951280856int, 0int, 77714567777526765398805787366441383053794781530208798095367069512808560int);
    lemma_pow_mod_step(10int, 149241009800939111953713800608189487486964327910053618819902nat, m, 74620504900469555976856900304094743743482163955026809409951nat, 77714567777526765398805787366441383053794781530208798095367069512808560int, 29444680987816627795600818568957870013767345024192281820007516167195368int, 29661611819724587142217191396457720756435168591594735662529344178696072int, 0int, 29661611819724587142217191396457720756435168591594735662529344178696072int);
    lemma_pow_mod_step(10int, 298482019601878223907427601216378974973928655820107237639804nat, m, 149241009800939111953713800608189487486964327910053618819902nat, 29661611819724587142217191396457720756435168591594735662529344178696072int, 4289349906419914998515463515438308830182819790668546933162050981969624int, 115234030066331133915332560901660747697062065502695844432655202976770680int, 0int, 115234030066331133915332560901660747697062065502695844432655202976770680int);
    lemma_pow_mod_step(10int, 596964039203756447814855202432757949947857311640214475279608nat, m, 298482019601878223907427601216378974973928655820107237639804nat, 115234030066331133915332560901660747697062065502695844432655202976770680int, 64738626758873565593666093245792186835834033792393307195475287903425825int, 164648701546131822753701306690351226431106753043236795260619571209156325int, 0int, 164648701546131822753701306690351226431106753043236795260619571209156325int);
    lemma_pow_mod_step(10int, 1193928078407512895629710404865515899895714623280428950559216nat, m, 596964039203756447814855202432757949947857311640214475279608nat, 164648701546131822753701306690351226431106753043236795260619571209156325int, 132165651694306666115452181263794010036806328779587151318682244358606369int, 61691855732000492180788205752950900966603656987517860114470805121049726int, 0int, 61691855732000492180788205752950900966603656987517860114470805121049726int);
    lemma_pow_mod_step(10int, 2387856156815025791259420809731031799791429246560857901118433nat, m, 1193928078407512895629710404865515899895714623280428950559216nat, 61691855732000492180788205752950900966603656987517860114470805121049726int, 18554858644125088325109883975746940439453043266619102601409100611629336int, 386368879367869279316432549818772180363962763936259206738728523799420int, 0int, 3863688793678692793164325498187721803639627639362592067387285237994200int);
    lemma_pow_mod_step(10int, 4775712313630051582518841619462063599582858493121715802236867nat, m, 2387856156815025791259420809731031799791429246560857901118433nat, 3863688793678692793164325498187721803639627639362592067387285237994200int, 72779029174612108096614302552226811897660538692321749426703969366867int, 6322226474869998241678396234399419327112606033329960382293768967333343int, 0int, 63222264748699982416783962343994193271126060333299603822937689673333430int);
    lemma_pow_mod_step(10int, 9551424627260103165037683238924127199165716986243431604473735nat, m, 4775712313630051582518841619462063599582858493121715802236867nat, 63222264748699982416783962343994193271126060333299603822937689673333430int, 19486869630399399917358329803198739422972258808152982738456256988349446int, 109337447882745717971070656290870834166101608864354219255621671617858434int, 5int, 67798068720178850225133059939046328016995265135861676655529196401597485int);
    lemma_pow_mod_step(10int, 19102849254520206330075366477848254398331433972486863208947470nat, m, 9551424627260103165037683238924127199165716986243431604473735nat, 67798068720178850225133059939046328016995265135861676655529196401597485int, 22409730161915864245111626637156924547182702889854876852714269482724791int, 38812516036419078467442623368589047693149785220565303311706991720400764int, 0int, 38812516036419078467442623368589047693149785220565303311706991720400764int);
}

proof fn lemma_certificate_5_17()
    requires
        pow_mod(10int, 19102849254520206330075366477848254398331433972486863208947470nat, 205115282021455665897114700593932402728804164701536103180137503955397371int) == 38812516036419078467442623368589047693149785220565303311706991720400764int,
    ensures
        pow_mod(10int, 78245270546514765127988701093266450015565553551306191703848840315nat, 205115282021455665897114700593932402728804164701536103180137503955397371int) == 178058551064886014476978352031302857410547481323853210651992303962976561int,
{
    let m: int = 205115282021455665897114700593932402728804164701536103180137503955397371int;
    lemma_pow_mod_step(10int, 38205698509040412660150732955696508796662867944973726417894941nat, m, 19102849254520206330075366477848254398331433972486863208947470nat, 38812516036419078467442623368589047693149785220565303311706991720400764int, 7344218267070481073947200718557579182045159747485889604007016747506534int, 152602647313071773372278248981437301592958529865528429062994193382861582int, 7int, 90219498980528072442979585656846196827956145744531568368979406140834223int);
    lemma_pow_mod_step(10int, 76411397018080825320301465911393017593325735889947452835789883nat, m, 38205698509040412660150732955696508796662867944973726417894941nat, 90219498980528072442979585656846196827956145744531568368979406140834223int, 39682845256971560184293435444256272581261532944935795283951800594436893int, 150716424998855311653687904208623315902666144608380514539117930570405426int, 7int, 71357275838363455257076137928706339925032293173052423130216778016272663int);
    lemma_pow_mod_step(10int, 152822794036161650640602931822786035186651471779894905671579766nat, m, 76411397018080825320301465911393017593325735889947452835789883nat, 71357275838363455257076137928706339925032293173052423130216778016272663int, 24824385413368006567066060405260146992878261746405363990485697726073413int, 98189783772467566920895230952325631740412164348238843257845471627914346int, 0int, 98189783772467566920895230952325631740412164348238843257845471627914346int);
    lemma_pow_mod_step(10int, 305645588072323301281205863645572070373302943559789811343159532nat, m, 152822794036161650640602931822786035186651471779894905671579766nat, 98189783772467566920895230952325631740412164348238843257845471627914346int, 47003975239033791490692256676324441381734557103111825022995926849920987int, 41358776763258768830759323114864924679147891481513531576732074375082539int, 0int, 41358776763258768830759323114864924679147891481513531576732074375082539int);
    lemma_pow_mod_step(10int, 611291176144646602562411727291144140746605887119579622686319064nat, m, 305645588072323301281205863645572070373302943559789811343159532nat, 41358776763258768830759323114864924679147891481513531576732074375082539int, 8339448911340233796770387570169287109111368592046178440090689470514091int, 57080245011332774695790608230010463161625832059902456217237365502831760int, 0int, 57080245011332774695790608230010463161625832059902456217237365502831760int);
    lemma_pow_mod_step(10int, 1222582352289293205124823454582288281493211774239159245372638129nat, m, 611291176144646602562411727291144140746605887119579622686319064nat, 57080245011332774695790608230010463161625832059902456217237365502831760int, 15884503282466137833110227846005128144540894163534277333702162989984750int, 69172469568273932860477417900831823893623080164067985323540399384605350int, 3int, 76378849618372330913430077226521030749818307536071543694991481979861387int);
    lemma_pow_mod_step(10int, 2445164704578586410249646909164576562986423548478318490745276259nat, m, 1222582352289293205124823454582288281493211774239159245372638129nat, 76378849618372330913430077226521030749818307536071543694991481979861387int, 28441219062437823943824135750164278777116378914515966114883354522575277int, 13004823319344766222352561591477121628714355600613637600973920938167002int, 0int, 130048233193447662223525615914771216287143556006136376009739209381670020int);
    lemma_pow_mod_step(10int, 4890329409157172820499293818329153125972847096956636981490552519nat, m, 2445164704578586410249646909164576562986423548478318490745276259nat, 130048233193447662223525615914771216287143556006136376009739209381670020int, 82453841518099271911766818127381901706141369680230857354767475930319635int, 112369891684449961303265197087447092795762855368871402472395800698120815int, 5int, 98122506737221283547078467904808914313607730181033508823270487204221295int);
    lemma_pow_mod_step(10int, 9780658818314345640998587636658306251945694193913273962981105039nat, m, 4890329409157172820499293818329153125972847096956636981490552519nat, 98122506737221283547078467904808914313607730181033508823270487204221295int, 46939585551645616121873828188605436499048622942488203728169669528008265int, 185133798226691059338354442017636261397030065336374025693087465084205710int, 9int, 5300444073809600309512114830970989411063171049915328309637115243480761int);
    lemma_pow_mod_step(10int, 19561317636628691281997175273316612503891388387826547925962210078nat, m, 9780658818314345640998587636658306251945694193913273962981105039nat, 5300444073809600309512114830970989411063171049915328309637115243480761int, 136970327626025066559389895912377653412601557337902914090647346902465int, 100618876897134341228407255892804590434176333881619878686808275922719606int, 0int, 100618876897134341228407255892804590434176333881619878686808275922719606int);
    lemma_pow_mod_step(10int, 39122635273257382563994350546633225007782776775653095851924420157nat, m, 19561317636628691281997175273316612503891388387826547925962210078nat, 100618876897134341228407255892804590434176333881619878686808275922719606int, 49358381726923974041585496371887279312651616977879659251537448204709170int, 35440545041475609143424097351380925540324103011747325214660450459203166int, 1int, 149290168393300425537126272919876852674436865415937148966467000636634289int);
    lemma_pow_mod_step(10int, 78245270546514765127988701093266450015565553551306191703848840315nat, m, 39122635273257382563994350546633225007782776775653095851924420157nat, 149290168393300425537126272919876852674436865415937148966467000636634289int, 108658673109342741090571245462276776655262051355009939935567962485258661int, 202409608925798700755101065737669448196978496363767813927322983956155290int, 9int, 178058551064886014476978352031302857410547481323853210651992303962976561int);
}

proof fn lemma_certificate_5_18()
    requires
        pow_mod(10int, 78245270546514765127988701093266450015565553551306191703848840315nat, 205115282021455665897114700593932402728804164701536103180137503955397371int) == 178058551064886014476978352031302857410547481323853210651992303962976561int,
    ensures
        pow_mod(10int, 320492628158524477964241719678019379263756507346150161218964849930308nat, 205115282021455665897114700593932402728804164701536103180137503955397371int) == 47508283868522985256616536615065119022005638569895785623037845537994589int,
{
    let m: int = 205115282021455665897114700593932402728804164701536103180137503955397371int;
    lemma_pow_mod_step(10int, 156490541093029530255977402186532900031131107102612383407697680630nat, m, 78245270546514765127988701093266450015565553551306191703848840315nat, 178058551064886014476978352031302857410547481323853210651992303962976561int, 154570870073007039496788966258768675860702198898170251674301423306255894int, 136666812075715244897022824675532184256603073074860090297596132054532047int, 0int, 136666812075715244897022824675532184256603073074860090297596132054532047int);
    lemma_pow_mod_step(10int, 312981082186059060511954804373065800062262214205224766815395361260nat, m, 156490541093029530255977402186532900031131107102612383407697680630nat, 136666812075715244897022824675532184256603073074860090297596132054532047int, 91060097223692534342191162784066107828187876252287749199299127129095120int, 98261113188480363409335466729919857392144936873677081849440536893080689int, 0int, 98261113188480363409335466729919857392144936873677081849440536893080689int);
    lemma_pow_mod_step(10int, 625962164372118121023909608746131600124524428410449533630790722520nat, m, 312981082186059060511954804373065800062262214205224766815395361260nat, 98261113188480363409335466729919857392144936873677081849440536893080689int, 47072291590781530596208975341165414394554658425806294622432508215901325int, 60374296467346493277319406043359857576468274216583412554112223764298146int, 0int, 60374296467346493277319406043359857576468274216583412554112223764298146int);
    lemma_pow_mod_step(10int, 1251924328744236242047819217492263200249048856820899067261581445040nat, m, 625962164372118121023909608746131600124524428410449533630790722520nat, 60374296467346493277319406043359857576468274216583412554112223764298146int, 17770765971234477011673399468100191505916277459655411598082597538518645int, 182891393338476192421776531394838342372933996895709770655433552311555021int, 0int, 182891393338476192421776531394838342372933996895709770655433552311555021int);
    lemma_pow_mod_step(10int, 2503848657488472484095638434984526400498097713641798134523162890080nat, m, 1251924328744236242047819217492263200249048856820899067261581445040nat, 182891393338476192421776531394838342372933996895709770655433552311555021int, 163075424842261738166491334036008149631194256645163199775701888228088745int, 114949387359377626724878817554302245023930373445347162532440144782621046int, 0int, 114949387359377626724878817554302245023930373445347162532440144782621046int);
    lemma_pow_mod_step(10int, 5007697314976944968191276869969052800996195427283596269046325780161nat, m, 2503848657488472484095638434984526400498097713641798134523162890080nat, 114949387359377626724878817554302245023930373445347162532440144782621046int, 64419196483439435581022633415252423336848222876956052371796834261218782int, 134780849249733081374721402857447536878352468670921008346364452063511994int, 6int, 117116800368596818364525825010880952410699698499993464382819496902735714int);
    lemma_pow_mod_step(10int, 10015394629953889936382553739938105601992390854567192538092651560322nat, m, 5007697314976944968191276869969052800996195427283596269046325780161nat, 117116800368596818364525825010880952410699698499993464382819496902735714int, 66871394434389289204078800567688520286762814204768597345387620166616291int, 140383563133854314432633423275050241702475857132088684021298897943918835int, 0int, 140383563133854314432633423275050241702475857132088684021298897943918835int);
    lemma_pow_mod_step(10int, 20030789259907779872765107479876211203984781709134385076185303120644nat, m, 10015394629953889936382553739938105601992390854567192538092651560322nat, 140383563133854314432633423275050241702475857132088684021298897943918835int, 96080333966024982180555181249318922301202365455384859909684181949746018int, 8935718940799255636851981326703813620933980176123411935246703352838547int, 0int, 8935718940799255636851981326703813620933980176123411935246703352838547int);
    lemma_pow_mod_step(10int, 40061578519815559745530214959752422407969563418268770152370606241288nat, m, 20030789259907779872765107479876211203984781709134385076185303120644nat, 8935718940799255636851981326703813620933980176123411935246703352838547int, 389279005455119286446305362253519321052198387471291716259941476466325int, 132149970554003025582821791083967312477656925340782940582299861974039634int, 0int, 132149970554003025582821791083967312477656925340782940582299861974039634int);
    lemma_pow_mod_step(10int, 80123157039631119491060429919504844815939126836537540304741212482577nat, m, 40061578519815559745530214959752422407969563418268770152370606241288nat, 132149970554003025582821791083967312477656925340782940582299861974039634int, 85140485610414541977922739995989143251017062452674642249582405864188242int, 105804519791561606080613689981644489091965992497248619475794801146942174int, 5int, 32468787808337731320563396846782877275639101464805678857260491692434885int);
    lemma_pow_mod_step(10int, 160246314079262238982120859839009689631878253673075080609482424965154nat, m, 80123157039631119491060429919504844815939126836537540304741212482577nat, 32468787808337731320563396846782877275639101464805678857260491692434885int, 5139656935130684879955159471659906935348313958254498963782915543287321int, 181896870484525501588317274447939076958931996120711129339451933783930134int, 0int, 181896870484525501588317274447939076958931996120711129339451933783930134int);
    lemma_pow_mod_step(10int, 320492628158524477964241719678019379263756507346150161218964849930308nat, m, 160246314079262238982120859839009689631878253673075080609482424965154nat, 181896870484525501588317274447939076958931996120711129339451933783930134int, 161306710870052586757355869796206243659251694832003254168792370253339877int, 47508283868522985256616536615065119022005638569895785623037845537994589int, 0int, 47508283868522985256616536615065119022005638569895785623037845537994589int);
}

proof fn lemma_certificate_5_19()
    requires
        pow_mod(10int, 320492628158524477964241719678019379263756507346150161218964849930308nat, 205115282021455665897114700593932402728804164701536103180137503955397371int) == 47508283868522985256616536615065119022005638569895785623037845537994589int,
    ensures
        pow_mod(10int, 41023056404291133179422940118786480545760832940307220636027500791079474nat, 205115282021455665897114700593932402728804164701536103180137503955397371int) == 148667663605783182964533161827581554934625546150551877457291286907751879int,
{
    let m: int = 205115282021455665897114700593932402728804164701536103180137503955397371int;
    lemma_pow_mod_step(10int, 640985256317048955928483439356038758527513014692300322437929699860616nat, m, 320492628158524477964241719678019379263756507346150161218964849930308nat, 47508283868522985256616536615065119022005638569895785623037845537994589int, 11003748788917973200327918333239986423385122224173724551375378325316971int, 100016075912296709994293924428081436908785485194471609268277957958195680int, 0int, 100016075912296709994293924428081436908785485194471609268277957958195680int);
    lemma_pow_mod_step(10int, 1281970512634097911856966878712077517055026029384600644875859399721233nat, m, 640985256317048955928483439356038758527513014692300322437929699860616nat, 100016075912296709994293924428081436908785485194471609268277957958195680int, 48768747712556747542726212522974290833517325206520774327993677004739049int, 154974439060051617928452883647916519496633355186459939622984992215022221int, 7int, 113937416450326518004725932321638375864704398953846673968887394462440613int);
    lemma_pow_mod_step(10int, 2563941025268195823713933757424155034110052058769201289751718799442467nat, m, 1281970512634097911856966878712077517055026029384600644875859399721233nat, 113937416450326518004725932321638375864704398953846673968887394462440613int, 63289944754175887923228581335007996141934757038772103051675997010894854int, 123178113794920582372802948171126295046660848680273745549394000682786935int, 6int, 1089445820471828345341278147668534093783498593520836413114983095485124int);
    lemma_pow_mod_step(10int, 5127882050536391647427867514848310068220104117538402579503437598884934nat, m, 2563941025268195823713933757424155034110052058769201289751718799442467nat, 1089445820471828345341278147668534093783498593520836413114983095485124int, 5786464002323253510882904474937035959271117618545195163327701628801int, 146110815071556217576657309093639233061709551306321918318371661012013205int, 0int, 146110815071556217576657309093639233061709551306321918318371661012013205int);
    lemma_pow_mod_step(10int, 10255764101072783294855735029696620136440208235076805159006875197769868nat, m, 5127882050536391647427867514848310068220104117538402579503437598884934nat, 146110815071556217576657309093639233061709551306321918318371661012013205int, 104079862165713214838670331157148478286061693741839077891032907130857403int, 33626544394620178942864950106927365976851749276541509286918302292284512int, 0int, 33626544394620178942864950106927365976851749276541509286918302292284512int);
    lemma_pow_mod_step(10int, 20511528202145566589711470059393240272880416470153610318013750395539737nat, m, 10255764101072783294855735029696620136440208235076805159006875197769868nat, 33626544394620178942864950106927365976851749276541509286918302292284512int, 5512726681208875284539752242130851713341849146127769603521947933772295int, 10637980487547195089454227091118687053107416662453254864703166199441699int, 0int, 106379804875471950894542270911186870531074166624532548647031661994416990int);
    lemma_pow_mod_step(10int, 41023056404291133179422940118786480545760832940307220636027500791079474nat, m, 20511528202145566589711470059393240272880416470153610318013750395539737nat, 106379804875471950894542270911186870531074166624532548647031661994416990int, 55172207423139390484283903076216146941064800900914261620610803972861351int, 148667663605783182964533161827581554934625546150551877457291286907751879int, 0int, 148667663605783182964533161827581554934625546150551877457291286907751879int);
}

proof fn lemma_certificate_5()
    ensures
        pow_mod(10int, 41023056404291133179422940118786480545760832940307220636027500791079474nat, 205115282021455665897114700593932402728804164701536103180137503955397371int) == 148667663605783182964533161827581554934625546150551877457291286907751879int,
{
    lemma_pow_mod_zero(10int, 205115282021455665897114700593932402728804164701536103180137503955397371int);
    lemma_certificate_5_0();
    lemma_certificate_5_1();
    lemma_certificate_5_2();
    lemma_certificate_5_3();
    lemma_certificate_5_4();
    lemma_certificate_5_5();
    lemma_certificate_5_6();
    lemma_certificate_5_7();
    lemma_certificate_5_8();
    lemma_certificate_5_9();
    lemma_certificate_5_10();
    lemma_certificate_5_11();
    lemma_certificate_5_12();
    lemma_certificate_5_13();
    lemma_certificate_5_14();
    lemma_certificate_5_15();
    lemma_certificate_5_16();
    lemma_certificate_5_17();
    lemma_certificate_5_18();
    lemma_certificate_5_19();
}

proof fn lemma_certificate_29_0()
    requires
        pow_mod(10int, 0nat, 205115282021455665897114700593932402728804164701536103180137503955397371int) == 1int,
    ensures
        pow_mod(10int, 2098nat, 205115282021455665897114700593932402728804164701536103180137503955397371int) == 8785457230301806755786736182478852041287069222740427809187210257889576int,
{
    let m: int = 205115282021455665897114700593932402728804164701536103180137503955397371int;
    lemma_pow_mod_step(10int, 1nat, m, 0nat, 1int, 0int, 1int, 0int, 10int);
    lemma_pow_mod_step(10int, 2nat, m, 1nat, 10int, 0int, 100int, 0int, 100int);
    lemma_pow_mod_step(10int, 4nat, m, 2nat, 100int, 0int, 10000int, 0int, 10000int);
    lemma_pow_mod_step(10int, 8nat, m, 4nat, 10000int, 0int, 100000000int, 0int, 100000000int);
    lemma_pow_mod_step(10int, 16nat, m, 8nat, 100000000int, 0int, 10000000000000000int, 0int, 10000000000000000int);
    lemma_pow_mod_step(10int, 32nat, m, 16nat, 10000000000000000int, 0int, 100000000000000000000000000000000int, 0int, 100000000000000000000000000000000int);
    lemma_pow_mod_step(10int, 65nat, m, 32nat, 100000000000000000000000000000000int, 0int, 10000000000000000000000000000000000000000000000000000000000000000int, 0int, 100000000000000000000000000000000000000000000000000000000000000000int);
    lemma_pow_mod_step(10int, 131nat, m, 65nat, 100000000000000000000000000000000000000000000000000000000000000000int, 48753071450590260688123541262918071666855467577322984400363int, 104876236867324787450608965981576300047589727825799871538372430178354327int, 5int, 23185958565969545020516156846100986831876454750318199483036782006556415int);
    lemma_pow_mod_step(10int, 262nat, m, 131nat, 23185958565969545020516156846100986831876454750318199483036782006556415int, 2620909906491624321151248837002336408652627774628446737601676500395424int, 179080975991265443454876465784454826675158103320336822440499506027621921int, 0int, 179080975991265443454876465784454826675158103320336822440499506027621921int);
    lemma_pow_mod_step(10int, 524nat, m, 262nat, 179080975991265443454876465784454826675158103320336822440499506027621921int, 156351080455475636540406023860459796553094064216574370859495778337924407int, 116878820382939511594110416789450524400492126102586654221917573475196244int, 0int, 116878820382939511594110416789450524400492126102586654221917573475196244int);
    lemma_pow_mod_step(10int, 1049nat, m, 524nat, 116878820382939511594110416789450524400492126102586654221917573475196244int, 66599906742582404424584579548149511831977110179396944585050377599676037int, 191974703428797785874540733361349033538509152316307872984799707110208809int, 9int, 73709496094876865671375028268098710825854040849253801226759535503511751int);
    lemma_pow_mod_step(10int, 2098nat, m, 1049nat, 73709496094876865671375028268098710825854040849253801226759535503511751int, 26487981592675043232779553224929675054825237568020593394461598144601675int, 8785457230301806755786736182478852041287069222740427809187210257889576int, 0int, 8785457230301806755786736182478852041287069222740427809187210257889576int);
}

proof fn lemma_certificate_29_1()
    requires
        pow_mod(10int, 2098nat, 205115282021455665897114700593932402728804164701536103180137503955397371int) == 8785457230301806755786736182478852041287069222740427809187210257889576int,
    ensures
        pow_mod(10int, 8596683nat, 205115282021455665897114700593932402728804164701536103180137503955397371int) == 201576446996603417340631641782395063626536007947688690393883076148206279int,
{
    let m: int = 205115282021455665897114700593932402728804164701536103180137503955397371int;
    lemma_pow_mod_step(10int, 4197nat, m, 2098nat, 8785457230301806755786736182478852041287069222740427809187210257889576int, 376296968147836939632770692419807946894287403880949542054780036017231int, 5606794378988394935670726666851021075831009968167919207844612601360075int, 0int, 56067943789883949356707266668510210758310099681679192078446126013600750int);
    lemma_pow_mod_step(10int, 8395nat, m, 4197nat, 56067943789883949356707266668510210758310099681679192078446126013600750int, 15326085359630857515644554269048863011943701330270581854606626367602747int, 153958430498262321439597382314722677005126127301609393285266295344384363int, 7int, 103777330832433553116170918989699950949632120105341210591700425756062033int);
    lemma_pow_mod_step(10int, 16790nat, m, 8395nat, 103777330832433553116170918989699950949632120105341210591700425756062033int, 52505763044890129995288120277404511192925187155470908985539795796837823int, 200064125907350883736424047614061039390387157918303910425206172536529756int, 0int, 200064125907350883736424047614061039390387157918303910425206172536529756int);
    lemma_pow_mod_step(10int, 33580nat, m, 16790nat, 200064125907350883736424047614061039390387157918303910425206172536529756int, 195137359247983995091230947416759248148536387604812395130338783232422774int, 80445379430845296319518841314093079539177569363761526725283320833292382int, 0int, 80445379430845296319518841314093079539177569363761526725283320833292382int);
    lemma_pow_mod_step(10int, 67161nat, m, 33580nat, 80445379430845296319518841314093079539177569363761526725283320833292382int, 31550350651570338424090495857734917168884833782292624440176819322594187int, 6352665162152226254102151330739397843679589787435586105269125739551547int, 0int, 63526651621522262541021513307393978436795897874355861052691257395515470int);
    lemma_pow_mod_step(10int, 134323nat, m, 67161nat, 63526651621522262541021513307393978436795897874355861052691257395515470int, 19674962423424490079400005491668132929073815776771307766951980787765371int, 41830845173379868824518539949847676178253142728780760701241909591081259int, 2int, 8077887690887356450955998310611956324923097884735400652144088000017848int);
    lemma_pow_mod_step(10int, 268646nat, m, 134323nat, 8077887690887356450955998310611956324923097884735400652144088000017848int, 318124855951805126746025801224906593201044914334665730885720840380168int, 34033843282660902517223738186512630493988981347014962708785621170812776int, 0int, 34033843282660902517223738186512630493988981347014962708785621170812776int);
    lemma_pow_mod_step(10int, 537292nat, m, 268646nat, 34033843282660902517223738186512630493988981347014962708785621170812776int, 5647080398756250480577656063431543489849536837557899116095100517286220int, 180055625599188090787792022295576993856911462416084853225660141802298556int, 0int, 180055625599188090787792022295576993856911462416084853225660141802298556int);
    lemma_pow_mod_step(10int, 1074585nat, m, 537292nat, 180055625599188090787792022295576993856911462416084853225660141802298556int, 158057595662344489537835259585712350375716953765967067243118187444614901int, 162125690364042723079126572032008558320249023548893011996193277436859865int, 7int, 185449929490237569511462816162558764100861082578177397700970246680817053int);
    lemma_pow_mod_step(10int, 2149170nat, m, 1074585nat, 185449929490237569511462816162558764100861082578177397700970246680817053int, 167669985429640561691776357785510585861013608157125984252168786487843526int, 69251033110804779693254634024409243923038969898678682421220329455834663int, 0int, 69251033110804779693254634024409243923038969898678682421220329455834663int);
    lemma_pow_mod_step(10int, 4298341nat, m, 2149170nat, 69251033110804779693254634024409243923038969898678682421220329455834663int, 23380537713480241402944272797336452126687414015985373942601322037502572int, 65936254760858673255391074908492338515992176327485516992801457297785357int, 3int, 44016701544219734862566647303126176973509269170246860387602061111661457int);
    lemma_pow_mod_step(10int, 8596683nat, m, 4298341nat, 44016701544219734862566647303126176973509269170246860387602061111661457int, 9445761406652532553765873483891163504047406048164116184105364064303004int, 40669172901805908323774634237632746635534017264922479357402058010360365int, 1int, 201576446996603417340631641782395063626536007947688690393883076148206279int);
}

proof fn lemma_certificate_29_2()
    requires
        pow_mod(10int, 8596683nat, 205115282021455665897114700593932402728804164701536103180137503955397371int) == 201576446996603417340631641782395063626536007947688690393883076148206279int,
    ensures
        pow_mod(10int, 35212014723nat, 205115282021455665897114700593932402728804164701536103180137503955397371int) == 66009299511080449003714028954333991279518214778755058869191708854237919int,
{
    let m: int = 205115282021455665897114700593932402728804164701536103180137503955397371int;
    lemma_pow_mod_step(10int, 17193366nat, m, 8596683nat, 201576446996603417340631641782395063626536007947688690393883076148206279int, 198098667165736232436377921282053590137017436256706855725288699489844937int, 93266950073895399230727293558465090601133347931447012615054304127565214int, 0int, 93266950073895399230727293558465090601133347931447012615054304127565214int);
    lemma_pow_mod_step(10int, 34386733nat, m, 17193366nat, 93266950073895399230727293558465090601133347931447012615054304127565214int, 42408951153510759520240466454506270551924144633203480845846634373738367int, 133766905027531294036065404722762883643350130784750889882489527549232639int, 6int, 106977358146578944977965843664034420060676319638292279744070251759942164int);
    lemma_pow_mod_step(10int, 68773466nat, m, 34386733nat, 106977358146578944977965843664034420060676319638292279744070251759942164int, 55793771401315324947358533493172140136553602054800043018840992498318397int, 56101273878861256895206035561794207843613273431443940568971611210268609int, 0int, 56101273878861256895206035561794207843613273431443940568971611210268609int);
    lemma_pow_mod_step(10int, 137546932nat, m, 68773466nat, 56101273878861256895206035561794207843613273431443940568971611210268609int, 15344312231702842795179223203350832101270397935217622845135884045512929int, 95155407901967826755491752847335369538301472740223691316010902217685222int, 0int, 95155407901967826755491752847335369538301472740223691316010902217685222int);
    lemma_pow_mod_step(10int, 275093865nat, m, 137546932nat, 95155407901967826755491752847335369538301472740223691316010902217685222int, 44143720369127582651296146325215338291378918581725360275572961496124341int, 62163484377841446104537693005998877149649932512303865862625398796681773int, 3int, 6288997714047463354032828278191563310086831018430349085841476100625617int);
    lemma_pow_mod_step(10int, 550187730nat, m, 275093865nat, 6288997714047463354032828278191563310086831018430349085841476100625617int, 192825672750980185060483729661175215730610327574335347098044589566967int, 98064901121637362268745695981903428285451110165488246416730443496386932int, 0int, 98064901121637362268745695981903428285451110165488246416730443496386932int);
    lemma_pow_mod_step(10int, 1100375460nat, m, 550187730nat, 98064901121637362268745695981903428285451110165488246416730443496386932int, 46884487285499160893393696104226051499756890066244452418118035838041552int, 35357276759308692477058099937795759616407065803812147595068401690812832int, 0int, 35357276759308692477058099937795759616407065803812147595068401690812832int);
    lemma_pow_mod_step(10int, 2200750920nat, m, 1100375460nat, 35357276759308692477058099937795759616407065803812147595068401690812832int, 6094801945101206844877837912505471494018732653500475119380752760490601int, 32093146639098416872716209655625396023235231842488864879782616990250253int, 0int, 32093146639098416872716209655625396023235231842488864879782616990250253int);
    lemma_pow_mod_step(10int, 4401501840nat, m, 2200750920nat, 32093146639098416872716209655625396023235231842488864879782616990250253int, 5021420398558777751997251183047948471159389197543682397748906325277373int, 8241354444433604864222562280606626581487523334196484962684367556577626int, 0int, 8241354444433604864222562280606626581487523334196484962684367556577626int);
    lemma_pow_mod_step(10int, 8803003680nat, m, 4401501840nat, 8241354444433604864222562280606626581487523334196484962684367556577626int, 331130486277862547577816902493894913313846077516823563557090355158406int, 148364140228480315172123330862093385169257545313993084494096122382845250int, 0int, 148364140228480315172123330862093385169257545313993084494096122382845250int);
    lemma_pow_mod_step(10int, 17606007361nat, m, 8803003680nat, 148364140228480315172123330862093385169257545313993084494096122382845250int, 107314861617349696891079822625103995058647505566082820704005548510904241int, 194955993612645562867999304469153721337679102125181839386230385763412089int, 9int, 103522397933354635605960739346145588817553538937993465241066322035544551int);
    lemma_pow_mod_step(10int, 35212014723nat, m, 17606007361nat, 103522397933354635605960739346145588817553538937993465241066322035544551int, 52248115148976613194240996500419163892437679118223432248147028558778232int, 27112458153253611490082872954826639400832237948029116204932921280963529int, 1int, 66009299511080449003714028954333991279518214778755058869191708854237919int);
}

proof fn lemma_certificate_29_3()
    requires
        pow_mod(10int, 35212014723nat, 205115282021455665897114700593932402728804164701536103180137503955397371int) == 66009299511080449003714028954333991279518214778755058869191708854237919int,
    ensures
        pow_mod(10int, 144228412309200nat, 205115282021455665897114700593932402728804164701536103180137503955397371int) == 68624190176883571835104836838069891748569853158264848381383562584771553int,
{
    let m: int = 205115282021455665897114700593932402728804164701536103180137503955397371int;
    lemma_pow_mod_step(10int, 70424029447nat, m, 35212014723nat, 66009299511080449003714028954333991279518214778755058869191708854237919int, 21242822957909819180550268853770114008892038000056838189578572955085193int, 40277142105058971152295136790693777605222448912687875419160552784222958int, 1int, 197656139029134045625836667313005373323420324425342651011468023886832209int);
    lemma_pow_mod_step(10int, 140848058895nat, m, 70424029447nat, 197656139029134045625836667313005373323420324425342651011468023886832209int, 190468252345126306864984626683889723137363455765596938628115951605784336int, 62509473368789320769526432466727102277203219244793306635494389912439025int, 3int, 9748887623526210003920222885473814585619698343324756814531387258198137int);
    lemma_pow_mod_step(10int, 281696117791nat, m, 140848058895nat, 9748887623526210003920222885473814585619698343324756814531387258198137int, 463353139558860194352345314411802353538796702216760082723737104784800int, 83088489864354374626627747169337658901343680457433102195957366509509969int, 4int, 10423770557721082677818669317646978098220145768186609239023649273510206int);
    lemma_pow_mod_step(10int, 563392235582nat, m, 281696117791nat, 10423770557721082677818669317646978098220145768186609239023649273510206int, 529726461964190737563735352891489226046450749777642006741212264443451int, 46847901430010151457076703411221070434814045029347933605886137922595115int, 0int, 46847901430010151457076703411221070434814045029347933605886137922595115int);
    lemma_pow_mod_step(10int, 1126784471165nat, m, 563392235582nat, 46847901430010151457076703411221070434814045029347933605886137922595115int, 10699962707636637083210417203126366398683765208606730984666823824030330int, 128426301183825843495164638742869776756193857620791890501158522315600795int, 6int, 53571319709524439568958183865103351189113587998702285930760199423623724int);
    lemma_pow_mod_step(10int, 2253568942331nat, m, 1126784471165nat, 53571319709524439568958183865103351189113587998702285930760199423623724int, 13991577161568503117980155389163714379402406991649030035780052500689460int, 31175590457212183167064112420101325507756466961980701285960145764218516int, 1int, 106640622550666165773526423607080852348760504918270909679463953686787789int);
    lemma_pow_mod_step(10int, 4507137884662nat, m, 2253568942331nat, 106640622550666165773526423607080852348760504918270909679463953686787789int, 55443077014632586134597263793002237421875344420532428738367368070708052int, 161639483360770746298788690847305992799272802881320041227599330130177229int, 0int, 161639483360770746298788690847305992799272802881320041227599330130177229int);
    lemma_pow_mod_step(10int, 9014275769325nat, m, 4507137884662nat, 161639483360770746298788690847305992799272802881320041227599330130177229int, 127378722461078680842269286581454415146874107254656582968477842130444751int, 185369121705426054089077426310668368306143987333319201252482543783968820int, 9int, 7653678861159547816741957761292058502202391019367083903587902241111861int);
    lemma_pow_mod_step(10int, 18028551538650nat, m, 9014275769325nat, 7653678861159547816741957761292058502202391019367083903587902241111861int, 285589642724099888704021878100770546471239933207081220943554347196066int, 64440381287729038915586598455722543725514712625343616971376232836940835int, 0int, 64440381287729038915586598455722543725514712625343616971376232836940835int);
    lemma_pow_mod_step(10int, 36057103077300nat, m, 18028551538650nat, 64440381287729038915586598455722543725514712625343616971376232836940835int, 20245018799104049732979288942292394936344323162780021760607602905617481int, 202549235892397209152552074019377192395816662373348098239808555811454774int, 0int, 202549235892397209152552074019377192395816662373348098239808555811454774int);
    lemma_pow_mod_step(10int, 72114206154600nat, m, 36057103077300nat, 202549235892397209152552074019377192395816662373348098239808555811454774int, 200015291675354099573337865003518795916624312933134052943954165614274746int, 147069828188481566246678214258032410954375366618627951187266059847298310int, 0int, 147069828188481566246678214258032410954375366618627951187266059847298310int);
    lemma_pow_mod_step(10int, 144228412309200nat, m, 72114206154600nat, 147069828188481566246678214258032410954375366618627951187266059847298310int, 105450623426132499229340143889898195168263142422609466374038397231066457int, 68624190176883571835104836838069891748569853158264848381383562584771553int, 0int, 68624190176883571835104836838069891748569853158264848381383562584771553int);
}

proof fn lemma_certificate_29_4()
    requires
        pow_mod(10int, 144228412309200nat, 205115282021455665897114700593932402728804164701536103180137503955397371int) == 68624190176883571835104836838069891748569853158264848381383562584771553int,
    ensures
        pow_mod(10int, 590759576818485886nat, 205115282021455665897114700593932402728804164701536103180137503955397371int) == 199187093416337232014405197105282873229740975714103713486132184412650440int,
{
    let m: int = 205115282021455665897114700593932402728804164701536103180137503955397371int;
    lemma_pow_mod_step(10int, 288456824618401nat, m, 144228412309200nat, 68624190176883571835104836838069891748569853158264848381383562584771553int, 22959183884409349546053115965602011031633424697589611508888012443334543int, 125731529123469613961990151408325800581287344348206155229338103342345356int, 6int, 26623599105962144237213310519663589440048455272844933212556009691069334int);
    lemma_pow_mod_step(10int, 576913649236802nat, m, 288456824618401nat, 26623599105962144237213310519663589440048455272844933212556009691069334int, 3455695852446742755516821179169909834686340606981860166834349209414790int, 76784115783700850819915661201639099711783064306498671643192647580686466int, 0int, 76784115783700850819915661201639099711783064306498671643192647580686466int);
    lemma_pow_mod_step(10int, 1153827298473605nat, m, 576913649236802nat, 76784115783700850819915661201639099711783064306498671643192647580686466int, 28743837994811424823422250566660897919930270630045175390000842113126508int, 108264221940458980153715957819486898993068119481911630707531101461958688int, 5int, 57065809297311472051586075225206976286660371311435791174623494842600025int);
    lemma_pow_mod_step(10int, 2307654596947210nat, m, 1153827298473605nat, 57065809297311472051586075225206976286660371311435791174623494842600025int, 15876469849849999040439187118709531551799614919310296827218188320418303int, 30477570245345809756627544114797363681085628297362083147321540823519212int, 0int, 30477570245345809756627544114797363681085628297362083147321540823519212int);
    lemma_pow_mod_step(10int, 4615309193894420nat, m, 2307654596947210nat, 30477570245345809756627544114797363681085628297362083147321540823519212int, 4528586455897637136267719853878362119923787055138487493367312947996259int, 127329764745526824230551099860155327454140051926503227063585689966665855int, 0int, 127329764745526824230551099860155327454140051926503227063585689966665855int);
    lemma_pow_mod_step(10int, 9230618387788841nat, m, 4615309193894420nat, 127329764745526824230551099860155327454140051926503227063585689966665855int, 79042716029590089825535058562460171921578122978952863522294223045054765int, 115574792610265094546987473220984439824341130572501403329256333190858210int, 5int, 130171515995372615984301229240182384599390482217333517391875812131595245int);
    lemma_pow_mod_step(10int, 18461236775577683nat, m, 9230618387788841nat, 130171515995372615984301229240182384599390482217333517391875812131595245int, 82610244393009639387915773508482567171875150488553336889190701331116155int, 136438974607420071061639843570310842694197170661590541262689648523981520int, 6int, 133698053945466715233710232139514010569146718406688793546071461507430974int);
    lemma_pow_mod_step(10int, 36922473551155367nat, m, 18461236775577683nat, 133698053945466715233710232139514010569146718406688793546071461507430974int, 87146942210454763794682181422455526107949272961929138261335268853039319int, 12199414147411818415149731596427894920816853649381171217899813642358327int, 0int, 121994141474118184151497315964278949208168536493811712178998136423583270int);
    lemma_pow_mod_step(10int, 73844947102310735nat, m, 36922473551155367nat, 121994141474118184151497315964278949208168536493811712178998136423583270int, 72557102558796187062782056687295689205072056590445457733279344955794152int, 60310039032154823080130548194790622675334936406283442418341926585918508int, 2int, 192869826278636899007076080760041421295741034659762217823144257948390338int);
    lemma_pow_mod_step(10int, 147689894204621471nat, m, 73844947102310735nat, 192869826278636899007076080760041421295741034659762217823144257948390338int, 181355428626037113362225788634233922982233628761152299814837441644466875int, 49743640756902186971250712735661657371361439091394781969219271140168619int, 2int, 87205843526110537918277726168751768256006061510875613331917703490891448int);
    lemma_pow_mod_step(10int, 295379788409242943nat, m, 147689894204621471nat, 87205843526110537918277726168751768256006061510875613331917703490891448int, 37076024127275823509912112886915947722371666198009091341276047673884982int, 86464075420300325485070310597068672018196462211840836226401978560354382int, 4int, 44179626117180591262244303594957109266747963312263949543469769781954336int);
    lemma_pow_mod_step(10int, 590759576818485886nat, m, 295379788409242943nat, 44179626117180591262244303594957109266747963312263949543469769781954336int, 9515816396604214157173854756416858817095774399715132146806640779748136int, 199187093416337232014405197105282873229740975714103713486132184412650440int, 0int, 199187093416337232014405197105282873229740975714103713486132184412650440int);
}

proof fn lemma_certificate_29_5()
    requires
        pow_mod(10int, 590759576818485886nat, 205115282021455665897114700593932402728804164701536103180137503955397371int) == 199187093416337232014405197105282873229740975714103713486132184412650440int,
    ensures
        pow_mod(10int, 2419751226648518190780nat, 205115282021455665897114700593932402728804164701536103180137503955397371int) == 2882100704844047138303924351158499211882144330074884287472593491206532int,
{
    let m: int = 205115282021455665897114700593932402728804164701536103180137503955397371int;
    lemma_pow_mod_step(10int, 1181519153636971772nat, m, 590759576818485886nat, 199187093416337232014405197105282873229740975714103713486132184412650440int, 193430239778518698960138028070284683533170595689958442595657288881143287int, 98936747077278221091445073294306457620520977907447849102378116758095123int, 0int, 98936747077278221091445073294306457620520977907447849102378116758095123int);
    lemma_pow_mod_step(10int, 2363038307273943545nat, m, 1181519153636971772nat, 98936747077278221091445073294306457620520977907447849102378116758095123int, 47721846104130927881994163811823694802689992470547918980038033511289693int, 81454375690489888595018532151579985658623301542325246154412101004788026int, 3int, 199197910840531888258841219734002648399820521318644152003708498181688147int);
    lemma_pow_mod_step(10int, 4726076614547887091nat, m, 2363038307273943545nat, 199197910840531888258841219734002648399820521318644152003708498181688147int, 193451249912631405884319318088039923202752131846436336781777876370218014int, 5533981151333939381505637959288370824282048785181869894908639487852415int, 0int, 55339811513339393815056379592883708242820487851818698949086394878524150int);
    lemma_pow_mod_step(10int, 9452153229095774182nat, m, 4726076614547887091nat, 55339811513339393815056379592883708242820487851818698949086394878524150int, 14930602479495337213510141809150209623462688880770804161539156659477973int, 137824034600761473054617875150243303655446425913013499976891065496613517int, 0int, 137824034600761473054617875150243303655446425913013499976891065496613517int);
    lemma_pow_mod_step(10int, 18904306458191548365nat, m, 9452153229095774182nat, 137824034600761473054617875150243303655446425913013499976891065496613517int, 92608723867024758783232874450930502685489167377375149152354967139915336int, 140747294707637420193642232081006517476602826162340983954963686090127633int, 6int, 176781254947640206553734117246470758393203273414193220468811837168892104int);
    lemma_pow_mod_step(10int, 37808612916383096730nat, m, 18904306458191548365nat, 176781254947640206553734117246470758393203273414193220468811837168892104int, 152361207769948383656783522635497846492668816156962250276058394956853501int, 117414994691337070821180069757152183170017232003189363899389142506000945int, 0int, 117414994691337070821180069757152183170017232003189363899389142506000945int);
    lemma_pow_mod_step(10int, 75617225832766193461nat, m, 37808612916383096730nat, 117414994691337070821180069757152183170017232003189363899389142506000945int, 67212354157622573962457430640469904816255898313121171768546564090779938int, 164628695873131521919636171281633418134123340799822760628286364236150027int, 8int, 5364702559669892019444108064874959510800090385938780841763610718321302int);
    lemma_pow_mod_step(10int, 151234451665532386923nat, m, 75617225832766193461nat, 5364702559669892019444108064874959510800090385938780841763610718321302int, 140311503219532002538843066797927668297263481348475337724039283560658int, 150352766775552424126642192624446851365490731223758501002654382734745086int, 7int, 67720693605334579986619022086941694553278159326832287765581299659669263int);
    lemma_pow_mod_step(10int, 302468903331064773847nat, m, 151234451665532386923nat, 67720693605334579986619022086941694553278159326832287765581299659669263int, 22358608764742770526307611881074005646338095789445014652815736227602684int, 147314910043739415654225461687325343856869355011173194679849696620819405int, 7int, 37342126287204495262451712715726619467064397200979224537534438520412453int);
    lemma_pow_mod_step(10int, 604937806662129547695nat, m, 302468903331064773847nat, 37342126287204495262451712715726619467064397200979224537534438520412453int, 6798295972426213543396998661440113678645519574272013660729662916075481int, 73264004587052073284437152445156869271067015802546734575343298052516758int, 3int, 117294199806153735153027422669771484524257663920859036213020468658975467int);
    lemma_pow_mod_step(10int, 1209875613324259095390nat, m, 604937806662129547695nat, 117294199806153735153027422669771484524257663920859036213020468658975467int, 67074131057318268342598320247659077747599873857596833652784559662104779int, 29452616680101225454772117646302162226207322384612162451971386924732080int, 0int, 29452616680101225454772117646302162226207322384612162451971386924732080int);
    lemma_pow_mod_step(10int, 2419751226648518190780nat, m, 1209875613324259095390nat, 29452616680101225454772117646302162226207322384612162451971386924732080int, 4229117502879372972579947104514520560484395919453760282907069747817908int, 2882100704844047138303924351158499211882144330074884287472593491206532int, 0int, 2882100704844047138303924351158499211882144330074884287472593491206532int);
}

proof fn lemma_certificate_29_6()
    requires
        pow_mod(10int, 2419751226648518190780nat, 205115282021455665897114700593932402728804164701536103180137503955397371int) == 2882100704844047138303924351158499211882144330074884287472593491206532int,
    ensures
        pow_mod(10int, 9911301024352330509435447nat, 205115282021455665897114700593932402728804164701536103180137503955397371int) == 188893192187882969656282371341759118810816645195450343980464910289141437int,
{
    let m: int = 205115282021455665897114700593932402728804164701536103180137503955397371int;
    lemma_pow_mod_step(10int, 4839502453297036381560nat, m, 2419751226648518190780nat, 2882100704844047138303924351158499211882144330074884287472593491206532int, 40496760607011565107288256510801322165635783201258353759609686560367int, 75198620417158511896940359556156055510751055862749938915769299414871867int, 0int, 75198620417158511896940359556156055510751055862749938915769299414871867int);
    lemma_pow_mod_step(10int, 9679004906594072763120nat, m, 4839502453297036381560nat, 75198620417158511896940359556156055510751055862749938915769299414871867int, 27569045353004837443714916213946191839577374224854925021881652959581210int, 133306075029512110938541409898210427038916060691809733001104244733066779int, 0int, 133306075029512110938541409898210427038916060691809733001104244733066779int);
    lemma_pow_mod_step(10int, 19358009813188145526241nat, m, 9679004906594072763120nat, 133306075029512110938541409898210427038916060691809733001104244733066779int, 86636692618130054385652191030550844639002982048190795590511908651979200int, 172115799507134001856006433141968246351591690323787820555776372846751641int, 8int, 80235738899694691383146726668223241685483585625589380116663696824337442int);
    lemma_pow_mod_step(10int, 38716019626376291052482nat, m, 19358009813188145526241nat, 80235738899694691383146726668223241685483585625589380116663696824337442int, 31386124589715210405758205242149125540252173883012251772412991253029900int, 131327242907155302576141855961419929242798166238138032609613020038710464int, 0int, 131327242907155302576141855961419929242798166238138032609613020038710464int);
    lemma_pow_mod_step(10int, 77432039252752582104964nat, m, 38716019626376291052482nat, 131327242907155302576141855961419929242798166238138032609613020038710464int, 84083665339917976945243257805065779804611484003396631684044955288085674int, 60413095389906417767636065152693675194248587395628227838299437460732242int, 0int, 60413095389906417767636065152693675194248587395628227838299437460732242int);
    lemma_pow_mod_step(10int, 154864078505505164209928nat, m, 77432039252752582104964nat, 60413095389906417767636065152693675194248587395628227838299437460732242int, 17793613711376991581471544466083011055104176016653056104858882061670015int, 33858844931460377943636688321274346911900997696660045605178569617815999int, 0int, 33858844931460377943636688321274346911900997696660045605178569617815999int);
    lemma_pow_mod_step(10int, 309728157011010328419857nat, m, 154864078505505164209928nat, 33858844931460377943636688321274346911900997696660045605178569617815999int, 5589156345614272925649041319681286445784405674950695531255570794642240int, 19000985298454187956304683711619344963149458083025356183715173638816961int, 0int, 190009852984541879563046837116193449631494580830253561837151736388169610int);
    lemma_pow_mod_step(10int, 619456314022020656839715nat, m, 309728157011010328419857nat, 190009852984541879563046837116193449631494580830253561837151736388169610int, 176016842213788146987854505290907144168272514258124366665433924599613988int, 134568182904313514614422238996495225716478020348820731199686170377526552int, 6int, 114990136914401150761534186401357840791955215278990692916036680042881294int);
    lemma_pow_mod_step(10int, 1238912628044041313679430nat, m, 619456314022020656839715nat, 114990136914401150761534186401357840791955215278990692916036680042881294int, 64464877786188477782466314234740877754705348632631998429563489981887692int, 65932518519083037954360237695901753441532638353086845311973230821056704int, 0int, 65932518519083037954360237695901753441532638353086845311973230821056704int);
    lemma_pow_mod_step(10int, 2477825256088082627358861nat, m, 1238912628044041313679430nat, 65932518519083037954360237695901753441532638353086845311973230821056704int, 21193433055926610760418384706607816076138352323712508799705698778216991int, 79466528078289421795277402385016363945361026377488661856862052914412955int, 3int, 179319434718527220261429922068366431267197769670278309028208017277937437int);
    lemma_pow_mod_step(10int, 4955650512176165254717723nat, m, 2477825256088082627358861nat, 179319434718527220261429922068366431267197769670278309028208017277937437int, 156767742270946877163530097036555597086758268864045143813537577581931966int, 54195630974401931923295440584858332941887592513243266870306841468867583int, 2int, 131725745701107987438725004660718523961267595729360462342793406777881088int);
    lemma_pow_mod_step(10int, 9911301024352330509435447nat, m, 4955650512176165254717723nat, 131725745701107987438725004660718523961267595729360462342793406777881088int, 84594730872846096133011074886645072213873629868721755135968386447400559int, 80423903825224996734762647312355632699722913930005865352087742215533355int, 3int, 188893192187882969656282371341759118810816645195450343980464910289141437int);
}

proof fn lemma_certificate_29_7()
    requires
        pow_mod(10int, 9911301024352330509435447nat, 205115282021455665897114700593932402728804164701536103180137503955397371int) == 188893192187882969656282371341759118810816645195450343980464910289141437int,
    ensures
        pow_mod(10int, 40596688995747145766647592252nat, 205115282021455665897114700593932402728804164701536103180137503955397371int) == 45505974819851233678695999078490380914420846469818782107952492530858811int,
{
    let m: int = 205115282021455665897114700593932402728804164701536103180137503955397371int;
    lemma_pow_mod_step(10int, 19822602048704661018870894nat, m, 9911301024352330509435447nat, 188893192187882969656282371341759118810816645195450343980464910289141437int, 173954069649457866123726762207688361037503813824344284049813959929314933int, 104937768481380660501158180283133753517004051689815510207754978771183826int, 0int, 104937768481380660501158180283133753517004051689815510207754978771183826int);
    lemma_pow_mod_step(10int, 39645204097409322037741789nat, m, 19822602048704661018870894nat, 104937768481380660501158180283133753517004051689815510207754978771183826int, 53686566624031296399424482785942985192664931789404055126901020493499883int, 132672086173400338058458980108268448818915957040490410192777089676990683int, 6int, 96029169605269385201901597519090071816334582195687482846945873037522604int);
    lemma_pow_mod_step(10int, 79290408194818644075483578nat, m, 39645204097409322037741789nat, 96029169605269385201901597519090071816334582195687482846945873037522604int, 44958139267814217348387864847533075472590307092567373622988171597100145int, 78354063652158249726752148280082516172745970791127892736230245054222021int, 0int, 78354063652158249726752148280082516172745970791127892736230245054222021int);
    lemma_pow_mod_step(10int, 158580816389637288150967157nat, m, 79290408194818644075483578nat, 78354063652158249726752148280082516172745970791127892736230245054222021int, 29931262216553281648865265449096538650815047039152087308507919356003019int, 147661700516053390193365961401368247033966310942297631624863463140661392int, 7int, 40810031010344240653856709856155651238033956512223593987672103718832323int);
    lemma_pow_mod_step(10int, 317161632779274576301934314nat, m, 158580816389637288150967157nat, 40810031010344240653856709856155651238033956512223593987672103718832323int, 8119622363832679512239238413975496852869637670603659702671244944558512int, 104688841913972074051306470859672196456147450446493322953886667469104377int, 0int, 104688841913972074051306470859672196456147450446493322953886667469104377int);
    lemma_pow_mod_step(10int, 634323265558549152603868628nat, m, 317161632779274576301934314nat, 104688841913972074051306470859672196456147450446493322953886667469104377int, 53432165137955022920137308438976720765209034946655550563557732480592606int, 81782071107152544673183420655503966320802350758023506499559532226119303int, 0int, 81782071107152544673183420655503966320802350758023506499559532226119303int);
    lemma_pow_mod_step(10int, 1268646531117098305207737257nat, m, 634323265558549152603868628nat, 81782071107152544673183420655503966320802350758023506499559532226119303int, 32607551659050632365598609606749434447929701956127617533973203791636703int, 38926400051215191870457407778704802732961941559876287368272784355897996int, 1int, 184148718490696252807459377193115624600815250897226770502590339603582589int);
    lemma_pow_mod_step(10int, 2537293062234196610415474515nat, m, 1268646531117098305207737257nat, 184148718490696252807459377193115624600815250897226770502590339603582589int, 165325324313078394040792917861010962012426412540687499694980615992103844int, 131225997365872336879811738553377387933464759945812368814649182427348797int, 6int, 81568281529989373415429181970179462961822611248907069065666800541103744int);
    lemma_pow_mod_step(10int, 5074586124468393220830949031nat, m, 2537293062234196610415474515nat, 81568281529989373415429181970179462961822611248907069065666800541103744int, 32437293243999449197383851562727333319283648230141971880074888323221250int, 100110225900761662652212603910776419794753601722920616487128731269483786int, 4int, 180641130921793962933667236732034587032319358423061752150737296873248376int);
    lemma_pow_mod_step(10int, 10149172248936786441661898063nat, m, 5074586124468393220830949031nat, 180641130921793962933667236732034587032319358423061752150737296873248376int, 159087211148369651861593029091110070815485882131044127229893899299455941int, 179135681365366745069187090578796835919352202947577809161931047424906265int, 8int, 150434557482022123514953301036509137363088711863489266178210442605883682int);
    lemma_pow_mod_step(10int, 20298344497873572883323796126nat, m, 10149172248936786441661898063nat, 150434557482022123514953301036509137363088711863489266178210442605883682int, 110330911776942077292309142388911947328852473674588010330301313428238067int, 129506237558301348580734113542859883635640551461192993340597576739955267int, 0int, 129506237558301348580734113542859883635640551461192993340597576739955267int);
    lemma_pow_mod_step(10int, 40596688995747145766647592252nat, m, 20298344497873572883323796126nat, 129506237558301348580734113542859883635640551461192993340597576739955267int, 81767996032361918509737219633196265145228268282443255111123361643623818int, 45505974819851233678695999078490380914420846469818782107952492530858811int, 0int, 45505974819851233678695999078490380914420846469818782107952492530858811int);
}

proof fn lemma_certificate_29_8()
    requires
        pow_mod(10int, 40596688995747145766647592252nat, 205115282021455665897114700593932402728804164701536103180137503955397371int) == 45505974819851233678695999078490380914420846469818782107952492530858811int,
    ensures
        pow_mod(10int, 166284038126580309060188537867932nat, 205115282021455665897114700593932402728804164701536103180137503955397371int) == 85030322433125093615184582381711334025823240653279455659359161209769072int,
{
    let m: int = 205115282021455665897114700593932402728804164701536103180137503955397371int;
    lemma_pow_mod_step(10int, 81193377991494291533295184505nat, m, 40596688995747145766647592252nat, 45505974819851233678695999078490380914420846469818782107952492530858811int, 10095755537553381135515214165352811925324813454674687705933282093506006int, 178625707629127745354557056773147942997426207567853450127145068911223495int, 8int, 145334820119632126368652962980020208143828758066245675830350657469055982int);
    lemma_pow_mod_step(10int, 162386755982988583066590369011nat, m, 81193377991494291533295184505nat, 145334820119632126368652962980020208143828758066245675830350657469055982int, 102977261036046945592934020404045063306451722295122483075593045919208034int, 31731399122726823224400104005283881308911705631933667547581126164305710int, 1int, 112198709205812566346886339458906410360312891617800572295673757687659729int);
    lemma_pow_mod_step(10int, 324773511965977166133180738023nat, m, 162386755982988583066590369011nat, 112198709205812566346886339458906410360312891617800572295673757687659729int, 61373049454860656742110573805851125088501298264294707689076421795576033int, 192402730967131703415759580796925291661933966095464555862093568529544198int, 9int, 77989771478216041083563502623861292060102178640820629999698149696865641int);
    lemma_pow_mod_step(10int, 649547023931954332266361476046nat, m, 324773511965977166133180738023nat, 77989771478216041083563502623861292060102178640820629999698149696865641int, 29653589899694176743106384115113848082581801106798695851812100655146203int, 166720824664572341441711411327446499370765225067433665644153570639508568int, 0int, 166720824664572341441711411327446499370765225067433665644153570639508568int);
    lemma_pow_mod_step(10int, 1299094047863908664532722952093nat, m, 649547023931954332266361476046nat, 166720824664572341441711411327446499370765225067433665644153570639508568int, 135513225064954188569748690406131577896396414069267093444734814769836633int, 28094928928851478990532506914281036623941099180733729044725440277718781int, 1int, 75834007267059124008210368548877963510606827105801187267116898821790439int);
    lemma_pow_mod_step(10int, 2598188095727817329065445904186nat, m, 1299094047863908664532722952093nat, 75834007267059124008210368548877963510606827105801187267116898821790439int, 28036900037408356878217029446045788412670637112351697228878189143271427int, 19541505188402699621633546222689440595266650246955004121066924936594304int, 0int, 19541505188402699621633546222689440595266650246955004121066924936594304int);
    lemma_pow_mod_step(10int, 5196376191455634658130891808372nat, m, 2598188095727817329065445904186nat, 19541505188402699621633546222689440595266650246955004121066924936594304int, 1861735611627537589144802925890291711888933128963504539919839154393980int, 66015359195582594130496627690973667126299144601317309805327870695017836int, 0int, 66015359195582594130496627690973667126299144601317309805327870695017836int);
    lemma_pow_mod_step(10int, 10392752382911269316261783616745nat, m, 5196376191455634658130891808372nat, 66015359195582594130496627690973667126299144601317309805327870695017836int, 21246723339053443966371294654080086711739805105185087882459022057411218int, 192144778785145125454331195395142215442086919710465275295238089615015018int, 9int, 75410249658350261469279648606030529861631714790827824331143360551573841int);
    lemma_pow_mod_step(10int, 20785504765822538632523567233491nat, m, 10392752382911269316261783616745nat, 75410249658350261469279648606030529861631714790827824331143360551573841int, 27724437192056072472814283812438302401047810617328167230051049780988048int, 105517894358403566146072100279983186804005762774681645301814971233871473int, 5int, 29602533476757331975147499830169854396036804239135937117462192561727875int);
    lemma_pow_mod_step(10int, 41571009531645077265047134466983nat, m, 20785504765822538632523567233491nat, 29602533476757331975147499830169854396036804239135937117462192561727875int, 4272280346965439235906235129260109726552413881989159943219573801368989int, 138456422069836935005477697764087556416467782062033004579879330260487706int, 6int, 153872528569635354672088774077281147791852832411113426717968278872492834int);
    lemma_pow_mod_step(10int, 83142019063290154530094268933966nat, m, 41571009531645077265047134466983nat, 153872528569635354672088774077281147791852832411113426717968278872492834int, 115431453059341476842113350723410612002069934017133871977926804518813830int, 75795204194674736278114890526649120754779977353253639024111306160910626int, 0int, 75795204194674736278114890526649120754779977353253639024111306160910626int);
    lemma_pow_mod_step(10int, 166284038126580309060188537867932nat, m, 83142019063290154530094268933966nat, 75795204194674736278114890526649120754779977353253639024111306160910626int, 28008215293834146535562021066949603549969351503450092913026146103932924int, 85030322433125093615184582381711334025823240653279455659359161209769072int, 0int, 85030322433125093615184582381711334025823240653279455659359161209769072int);
}

proof fn lemma_certificate_29_9()
    requires
        pow_mod(10int, 166284038126580309060188537867932nat, 205115282021455665897114700593932402728804164701536103180137503955397371int) == 85030322433125093615184582381711334025823240653279455659359161209769072int,
    ensures
        pow_mod(10int, 681099420166472945910532251107050759nat, 205115282021455665897114700593932402728804164701536103180137503955397371int) == 197510553087610122815740219634120065095126771905349029758049462883149517int,
{
    let m: int = 205115282021455665897114700593932402728804164701536103180137503955397371int;
    lemma_pow_mod_step(10int, 332568076253160618120377075735864nat, m, 166284038126580309060188537867932nat, 85030322433125093615184582381711334025823240653279455659359161209769072int, 35249229905380335534314310468215039270219520245371733341460870039645158int, 135547774560648606056500243867371743671509155435848535375930123841661566int, 0int, 135547774560648606056500243867371743671509155435848535375930123841661566int);
    lemma_pow_mod_step(10int, 665136152506321236240754151471729nat, m, 332568076253160618120377075735864nat, 135547774560648606056500243867371743671509155435848535375930123841661566int, 89574989280528236632847607566922704370389891751284328205437241054381225int, 116562862985486134860128412708851481106215764694831237679469162284812881int, 5int, 140052219747583019115710624118852797418136823440631860894004103071141955int);
    lemma_pow_mod_step(10int, 1330272305012642472481508302943458nat, m, 665136152506321236240754151471729nat, 140052219747583019115710624118852797418136823440631860894004103071141955int, 95627317784023207035439392394022727841384266661213578415726312875966197int, 18227096485076012361726191751189012777600859595538753518736263062553938int, 0int, 18227096485076012361726191751189012777600859595538753518736263062553938int);
    lemma_pow_mod_step(10int, 2660544610025284944963016605886917nat, m, 1330272305012642472481508302943458nat, 18227096485076012361726191751189012777600859595538753518736263062553938int, 1619708892492556413615109627659458682249880014625009379057408827437284int, 194236357361853792366808743071018426762597575753931035991352757358327480int, 9int, 96326035425436930594055125364792643066738275225485431292290037984698461int);
    lemma_pow_mod_step(10int, 5321089220050569889926033211773834nat, m, 2660544610025284944963016605886917nat, 96326035425436930594055125364792643066738275225485431292290037984698461int, 45236537274740701593742876069722123993366329882902220352979507000186163int, 123950358679127318430477039951270021307055644830313193225872227454991048int, 0int, 123950358679127318430477039951270021307055644830313193225872227454991048int);
    lemma_pow_mod_step(10int, 10642178440101139779852066423547668nat, m, 5321089220050569889926033211773834nat, 123950358679127318430477039951270021307055644830313193225872227454991048int, 74902714538243061467110334187530518091344216389025295297247909433131758int, 75104023854469948358879646743913719050649582688468849196884189870330086int, 0int, 75104023854469948358879646743913719050649582688468849196884189870330086int);
    lemma_pow_mod_step(10int, 21284356880202279559704132847095336nat, m, 10642178440101139779852066423547668nat, 75104023854469948358879646743913719050649582688468849196884189870330086int, 27499727682614921249052954983018627763091363028179257800951055478931849int, 137914882441992343253899250347992212142827175408884636956015285173998417int, 0int, 137914882441992343253899250347992212142827175408884636956015285173998417int);
    lemma_pow_mod_step(10int, 42568713760404559119408265694190672nat, m, 21284356880202279559704132847095336nat, 137914882441992343253899250347992212142827175408884636956015285173998417int, 92730851702209910192892150985167151305632935130710584778885632604496833int, 62955405194410772122654248512139409932848494747332746697846983092479846int, 0int, 62955405194410772122654248512139409932848494747332746697846983092479846int);
    lemma_pow_mod_step(10int, 85137427520809118238816531388381344nat, m, 42568713760404559119408265694190672nat, 62955405194410772122654248512139409932848494747332746697846983092479846int, 19322709669081903051951024441681207095843056466541985336982344756092559int, 132427172784402580465577188092820770195918619593271368178835113814921327int, 0int, 132427172784402580465577188092820770195918619593271368178835113814921327int);
    lemma_pow_mod_step(10int, 170274855041618236477633062776762689nat, m, 85137427520809118238816531388381344nat, 132427172784402580465577188092820770195918619593271368178835113814921327int, 85498047336305239108910501798710126623419211066310212027720209832260123int, 142285980163095297501520510277817085774445781901250012863404129697104296int, 6int, 192168109502218979632516899214576441371632830803283509553216273238658734int);
    lemma_pow_mod_step(10int, 340549710083236472955266125553525379nat, m, 170274855041618236477633062776762689nat, 192168109502218979632516899214576441371632830803283509553216273238658734int, 180038181191170267984432915757670454760612103069036028806465407918628992int, 47561991138730254443554291327139834667994035163291783411527058433302724int, 2int, 65389347344391212641313512083533541222332022229845627754995576422232498int);
    lemma_pow_mod_step(10int, 681099420166472945910532251107050759nat, m, 340549710083236472955266125553525379nat, 65389347344391212641313512083533541222332022229845627754995576422232498int, 20845676167991150799055111411726470301154680414530744202334099030597571int, 81285639915197712050708432141591727328153926600995733929846197474934163int, 3int, 197510553087610122815740219634120065095126771905349029758049462883149517int);
}

proof fn lemma_certificate_29_10()
    requires
        pow_mod(10int, 681099420166472945910532251107050759nat, 205115282021455665897114700593932402728804164701536103180137503955397371int) == 197510553087610122815740219634120065095126771905349029758049462883149517int,
    ensures
        pow_mod(10int, 2789783225001873186449540100534479909963nat, 205115282021455665897114700593932402728804164701536103180137503955397371int) == 142159766293313309326900190963384025458463685259287459251812612346154507int,
{
    let m: int = 205115282021455665897114700593932402728804164701536103180137503955397371int;
    lemma_pow_mod_step(10int, 1362198840332945891821064502214101518nat, m, 681099420166472945910532251107050759nat, 197510553087610122815740219634120065095126771905349029758049462883149517int, 190187772439564260823653789644939902723579237335833490126600128054383530int, 185480112992937839005791887695239683622326738321480756424825817789633659int, 0int, 185480112992937839005791887695239683622326738321480756424825817789633659int);
    lemma_pow_mod_step(10int, 2724397680665891783642129004428203037nat, m, 1362198840332945891821064502214101518nat, 185480112992937839005791887695239683622326738321480756424825817789633659int, 167724569212128942405359727756714905496855014271896340213631605336519690int, 5252220849045648285254413897602196334220501300168010486315569309993291int, 0int, 52522208490456482852544138976021963342205013001680104863155693099932910int);
    lemma_pow_mod_step(10int, 5448795361331783567284258008856406074nat, m, 2724397680665891783642129004428203037nat, 52522208490456482852544138976021963342205013001680104863155693099932910int, 13448936410434904450041135353853112929385354740493273179630309768786177int, 38069231076824554244178877507045751638630101337753360408389884134127433int, 0int, 38069231076824554244178877507045751638630101337753360408389884134127433int);
    lemma_pow_mod_step(10int, 10897590722663567134568516017712812148nat, m, 5448795361331783567284258008856406074nat, 38069231076824554244178877507045751638630101337753360408389884134127433int, 7065618614555822600965539660061666748477679987281291125775107946080665int, 125351952960559517517396861138885501977900356079173696527559540188237774int, 0int, 125351952960559517517396861138885501977900356079173696527559540188237774int);
    lemma_pow_mod_step(10int, 21795181445327134269137032035425624296nat, m, 10897590722663567134568516017712812148nat, 125351952960559517517396861138885501977900356079173696527559540188237774int, 76606247746000163612248999016229218367432866793866110827181939464036307int, 151983920169154309733574984944434437059393809257085735012618521804126179int, 0int, 151983920169154309733574984944434437059393809257085735012618521804126179int);
    lemma_pow_mod_step(10int, 43590362890654268538274064070851248593nat, m, 21795181445327134269137032035425624296nat, 151983920169154309733574984944434437059393809257085735012618521804126179int, 112615265729286980521600392568829012743720043437202090067639209267872735int, 154795677903489622172824890914260090239337688293845867483616278971560356int, 7int, 112149804884706560448446004985074083291747730027705952575200262027821963int);
    lemma_pow_mod_step(10int, 87180725781308537076548128141702497186nat, m, 43590362890654268538274064070851248593nat, 112149804884706560448446004985074083291747730027705952575200262027821963int, 61319559477592213266737333847637776041603535376799367406909152938189206int, 127565057445382120469310725397303804250001988152663769951307162712195943int, 0int, 127565057445382120469310725397303804250001988152663769951307162712195943int);
    lemma_pow_mod_step(10int, 174361451562617074153096256283404994372nat, m, 87180725781308537076548128141702497186nat, 127565057445382120469310725397303804250001988152663769951307162712195943int, 79335112043682111942019064468351060188811628151406388085872923616527083int, 110823199718715760788780479183753485634284836310089600426903056977160456int, 0int, 110823199718715760788780479183753485634284836310089600426903056977160456int);
    lemma_pow_mod_step(10int, 348722903125234148306192512566809988745nat, m, 174361451562617074153096256283404994372nat, 110823199718715760788780479183753485634284836310089600426903056977160456int, 59877457568518226530075841917317129996173378860023491378201888869273354int, 141308619456566585524936535045755730899886543171490797945416641678175602int, 6int, 182394502436931859866677146893962892626040443505691360373341393049371794int);
    lemma_pow_mod_step(10int, 697445806250468296612385025133619977490nat, m, 348722903125234148306192512566809988745nat, 182394502436931859866677146893962892626040443505691360373341393049371794int, 162190521307603187414808919344271039864924507180377699914116202766756941int, 106879366123469957149084127895109351617309528230485442024654827415376325int, 0int, 106879366123469957149084127895109351617309528230485442024654827415376325int);
    lemma_pow_mod_step(10int, 1394891612500936593224770050267239954981nat, m, 697445806250468296612385025133619977490nat, 106879366123469957149084127895109351617309528230485442024654827415376325int, 55691603231005659848047096995911325502346499591561687242914824375544059int, 32358992674626310725632968633039759376144015906242112398012853707236736int, 1int, 118474644724807441359214985736465191032635994360885020799991033116969989int);
    lemma_pow_mod_step(10int, 2789783225001873186449540100534479909963nat, m, 1394891612500936593224770050267239954981nat, 118474644724807441359214985736465191032635994360885020799991033116969989int, 68430988195219463329833909040924218239280391407174714440195003406002729int, 75750561235768030701824429274518123364487617936389576879222512421234662int, 3int, 142159766293313309326900190963384025458463685259287459251812612346154507int);
}

proof fn lemma_certificate_29_11()
    requires
        pow_mod(10int, 2789783225001873186449540100534479909963nat, 205115282021455665897114700593932402728804164701536103180137503955397371int) == 142159766293313309326900190963384025458463685259287459251812612346154507int,
    ensures
        pow_mod(10int, 11426952089607672571697316251789229711212462nat, 205115282021455665897114700593932402728804164701536103180137503955397371int) == 99855832726729290438396782480691519772032510011088248933777767176885212int,
{
    let m: int = 205115282021455665897114700593932402728804164701536103180137503955397371int;
    lemma_pow_mod_step(10int, 5579566450003746372899080201068959819927nat, m, 2789783225001873186449540100534479909963nat, 142159766293313309326900190963384025458463685259287459251812612346154507int, 98527028085871709582234320299339435746799200428897254396344191141682870int, 100444405128327765395733928571742208450461317137591597598748598202678279int, 4int, 183982923197454990368880483341692473589396512569771563266935966205193306int);
    lemma_pow_mod_step(10int, 11159132900007492745798160402137919639855nat, m, 5579566450003746372899080201068959819927nat, 183982923197454990368880483341692473589396512569771563266935966205193306int, 165027762410895552301943223139131165887673282495056962386455933743859929int, 109802542211243030502548602510515446249231605355479717451740234268362977int, 5int, 72449012005151975539912522135492448848295230047116658616714822906642915int);
    lemma_pow_mod_step(10int, 22318265800014985491596320804275839279711nat, m, 11159132900007492745798160402137919639855nat, 72449012005151975539912522135492448848295230047116658616714822906642915int, 25589801446259907856362186088291374743625259961341127523671836858373241int, 128620322167609038010136498456269728777747649737125716228585718531547814int, 6int, 55511529547356384718676780999102871404651509162040543205032161583093914int);
    lemma_pow_mod_step(10int, 44636531600029970983192641608551678559423nat, m, 22318265800014985491596320804275839279711nat, 55511529547356384718676780999102871404651509162040543205032161583093914int, 15023404801036149967815841463409786438868023297229114326610540987772383int, 122229423747610520862303171450356023924724177232384470040149693679234303int, 5int, 196717827368826879137458211533898225603220948816164184500809417015356175int);
    lemma_pow_mod_step(10int, 89273063200059941966385283217103357118847nat, m, 44636531600029970983192641608551678559423nat, 196717827368826879137458211533898225603220948816164184500809417015356175int, 188664165942855775275829397862828589045211560763787152104172102614617318int, 179106022838096594062808378193619702258282996570541489163811196322359647int, 8int, 150137972209320613451166177184737800752396648093126066197011931580417502int);
    lemma_pow_mod_step(10int, 178546126400119883932770566434206714237694nat, m, 89273063200059941966385283217103357118847nat, 150137972209320613451166177184737800752396648093126066197011931580417502int, 109896300641162517264986067413150550883834915185052762296121020331473359int, 74138858803865607136827627368243763412695543079155604523507427882780815int, 0int, 74138858803865607136827627368243763412695543079155604523507427882780815int);
    lemma_pow_mod_step(10int, 357092252800239767865541132868413428475389nat, m, 178546126400119883932770566434206714237694nat, 74138858803865607136827627368243763412695543079155604523507427882780815int, 26797468870040425873475849709250828570373561935681913233977016005101815int, 44536501237419670441637432536243720142738169438450705729960835693735860int, 2int, 35134448331285372622144924174572395969773364981434850939333349026563858int);
    lemma_pow_mod_step(10int, 714184505600479535731082265736826856950778nat, m, 357092252800239767865541132868413428475389nat, 35134448331285372622144924174572395969773364981434850939333349026563858int, 6018222764185052423027078456050653375332533670590252093701782063680781int, 66264649583831707708058667852956506892437591721875022275621106801217413int, 0int, 66264649583831707708058667852956506892437591721875022275621106801217413int);
    lemma_pow_mod_step(10int, 1428369011200959071462164531473653713901557nat, m, 714184505600479535731082265736826856950778nat, 66264649583831707708058667852956506892437591721875022275621106801217413int, 21407492124398101721321121426050476935859795952551999025710133099216040int, 35793762664963683897591900533984546068057129941703696402787692117381729int, 1int, 152822344628181173078804304745913057951767134715500860847739417218419919int);
    lemma_pow_mod_step(10int, 2856738022401918142924329062947307427803115nat, m, 1428369011200959071462164531473653713901557nat, 152822344628181173078804304745913057951767134715500860847739417218419919int, 113861184732260015172792922952420352257932835062522430704648946835010173int, 199413509705175867212699082638913356227918795847121332808296197973511378int, 9int, 148097558858657679052958521043741937719950476157388399461724444136537441int);
    lemma_pow_mod_step(10int, 5713476044803836285848658125894614855606231nat, m, 2856738022401918142924329062947307427803115nat, 148097558858657679052958521043741937719950476157388399461724444136537441int, 106929560409834946700831716609673775142124790275340782005238332736065872int, 122376157296696675711195566168116819623116521968264710530399893803205969int, 5int, 198185162859688427626382158711506182587144396174966589403311418255072835int);
    lemma_pow_mod_step(10int, 11426952089607672571697316251789229711212462nat, m, 5713476044803836285848658125894614855606231nat, 198185162859688427626382158711506182587144396174966589403311418255072835int, 191489187888071144782608457000371556862933485386427309798229890970006903int, 99855832726729290438396782480691519772032510011088248933777767176885212int, 0int, 99855832726729290438396782480691519772032510011088248933777767176885212int);
}

proof fn lemma_certificate_29_12()
    requires
        pow_mod(10int, 11426952089607672571697316251789229711212462nat, 205115282021455665897114700593932402728804164701536103180137503955397371int) == 99855832726729290438396782480691519772032510011088248933777767176885212int,
    ensures
        pow_mod(10int, 46804795759033026853672207367328684897126245047nat, 205115282021455665897114700593932402728804164701536103180137503955397371int) == 171699335221900639009010520307780573397458320396606340083085397027268235int,
{
    let m: int = 205115282021455665897114700593932402728804164701536103180137503955397371int;
    lemma_pow_mod_step(10int, 22853904179215345143394632503578459422424924nat, m, 11426952089607672571697316251789229711212462nat, 99855832726729290438396782480691519772032510011088248933777767176885212int, 48612600832470028621639686530039262269086320434254858070621878108744680int, 28747264156143881887560108280677878529903119116714453784740426842048664int, 0int, 28747264156143881887560108280677878529903119116714453784740426842048664int);
    lemma_pow_mod_step(10int, 45707808358430690286789265007156918844849848nat, m, 22853904179215345143394632503578459422424924nat, 28747264156143881887560108280677878529903119116714453784740426842048664int, 4028979159030531829663145725440531272186747222002949741158025458540306int, 183608769369458302472009404571697749750352811045395408542891284694249370int, 0int, 183608769369458302472009404571697749750352811045395408542891284694249370int);
    lemma_pow_mod_step(10int, 91415616716861380573578530014313837689699697nat, m, 45707808358430690286789265007156918844849848nat, 183608769369458302472009404571697749750352811045395408542891284694249370int, 164357232952737941222350506261471249527511834196086297160847987667260530int, 87712072942614084054106603046337608974639472247289812000366624611330270int, 4int, 56659601340318176952607228087646478831178063666753707283116230291713216int);
    lemma_pow_mod_step(10int, 182831233433722761147157060028627675379399394nat, m, 91415616716861380573578530014313837689699697nat, 56659601340318176952607228087646478831178063666753707283116230291713216int, 15651249348198138534082170355934570047553931581029800374868558813142197int, 104551203165087087718801301214536894244593551195523210483138934126098569int, 0int, 104551203165087087718801301214536894244593551195523210483138934126098569int);
    lemma_pow_mod_step(10int, 365662466867445522294314120057255350758798789nat, m, 182831233433722761147157060028627675379399394nat, 104551203165087087718801301214536894244593551195523210483138934126098569int, 53291758544465283198101228362862218092277742877561668352350594915337751int, 538930105622461311746679350357750067131163694928140507896333221395140int, 0int, 5389301056224613117466793503577500671311636949281405078963332213951400int);
    lemma_pow_mod_step(10int, 731324933734891044588628240114510701517597578nat, m, 365662466867445522294314120057255350758798789nat, 5389301056224613117466793503577500671311636949281405078963332213951400int, 141601179533690634321672401548845261022602486297930721010114848662386int, 34501297892821548632808585225063234535673891724468633611022537110972794int, 0int, 34501297892821548632808585225063234535673891724468633611022537110972794int);
    lemma_pow_mod_step(10int, 1462649867469782089177256480229021403035195157nat, m, 731324933734891044588628240114510701517597578nat, 34501297892821548632808585225063234535673891724468633611022537110972794int, 5803270943823189095243326381665803897517625790581380514165049988300616int, 64213593165275125267918228162724614870792478115585312069523879724085900int, 3int, 26790085588384254987838179845448940521512287051244811154826285374666887int);
    lemma_pow_mod_step(10int, 2925299734939564178354512960458042806070390315nat, m, 1462649867469782089177256480229021403035195157nat, 26790085588384254987838179845448940521512287051244811154826285374666887int, 3499050284112323234475678162868129975950198488928947240227599898944282int, 53007363099768129157728295867544770937503011062461427913125787515988147int, 2int, 119843066954769959783053557487582903917421781221542072770982867249086728int);
    lemma_pow_mod_step(10int, 5850599469879128356709025920916085612140780630nat, m, 2925299734939564178354512960458042806070390315nat, 119843066954769959783053557487582903917421781221542072770982867249086728int, 70020919726610765463679560658672041539299556547517715833165803084378512int, 37523667328730454181007945353941475386768381128303658099768092532054032int, 0int, 37523667328730454181007945353941475386768381128303658099768092532054032int);
    lemma_pow_mod_step(10int, 11701198939758256713418051841832171224281561261nat, m, 5850599469879128356709025920916085612140780630nat, 37523667328730454181007945353941475386768381128303658099768092532054032int, 6864557315870543720172923961451995434218400549252331972272939183567885int, 105470200594513243455077440424242169884505783246202864084860582238426689int, 5int, 29125595837854105065200901272759685201037008954348124947918302607280035int);
    lemma_pow_mod_step(10int, 23402397879516513426836103683664342448563122523nat, m, 11701198939758256713418051841832171224281561261nat, 29125595837854105065200901272759685201037008954348124947918302607280035int, 4135724674192192279366879337790771856864580455559257829202866311283421int, 87200233316888433455407897026304395523105786528338238916487769850315034int, 4int, 51541205083061670965620167887314344315841206477237976444327682681560856int);
    lemma_pow_mod_step(10int, 46804795759033026853672207367328684897126245047nat, m, 23402397879516513426836103683664342448563122523nat, 51541205083061670965620167887314344315841206477237976444327682681560856int, 12951233058960204141170126356718938546467941964068082551729175865309537int, 119727574532917896849458402327744258704147914390428685598377291680425509int, 5int, 171699335221900639009010520307780573397458320396606340083085397027268235int);
}

proof fn lemma_certificate_29_13()
    requires
        pow_mod(10int, 46804795759033026853672207367328684897126245047nat, 205115282021455665897114700593932402728804164701536103180137503955397371int) == 171699335221900639009010520307780573397458320396606340083085397027268235int,
    ensures
        pow_mod(10int, 191712443428999277992641361376578293338629099713899nat, 205115282021455665897114700593932402728804164701536103180137503955397371int) == 69290832062856054245181495307443207634779030223566078526857012121328377int,
{
    let m: int = 205115282021455665897114700593932402728804164701536103180137503955397371int;
    lemma_pow_mod_step(10int, 93609591518066053707344414734657369794252490094nat, m, 46804795759033026853672207367328684897126245047nat, 171699335221900639009010520307780573397458320396606340083085397027268235int, 143727280703340499232097829524437884520346434935771610449950108736090295int, 44007760936847417986605470279810861061964162409361955570213960978400780int, 0int, 44007760936847417986605470279810861061964162409361955570213960978400780int);
    lemma_pow_mod_step(10int, 187219183036132107414688829469314739588504980189nat, m, 93609591518066053707344414734657369794252490094nat, 44007760936847417986605470279810861061964162409361955570213960978400780int, 9441924578160542680855684993504935581536885971339524354099279264630747int, 96635931404313365567502567400595628594312430561840842955017916335042263int, 4int, 145898185957310992086566871630226675027907646812264016829629147528833146int);
    lemma_pow_mod_step(10int, 374438366072264214829377658938629479177009960378nat, m, 187219183036132107414688829469314739588504980189nat, 145898185957310992086566871630226675027907646812264016829629147528833146int, 103777156220897721198438127768683417495201815579872328744413816968956074int, 73510292463055337947949147123830399758106582639479975567018376594175862int, 0int, 73510292463055337947949147123830399758106582639479975567018376594175862int);
    lemma_pow_mod_step(10int, 748876732144528429658755317877258958354019920757nat, m, 374438366072264214829377658938629479177009960378nat, 73510292463055337947949147123830399758106582639479975567018376594175862int, 26345004841904860125923291483040318491490906238641648003530875896125185int, 82261755969488419858598827708339680111344186784155810262526853147554409int, 4int, 2156431609061534997529474707667190198225209035413689904718515653954606int);
    lemma_pow_mod_step(10int, 1497753464289056859317510635754517916708039841514nat, m, 748876732144528429658755317877258958354019920757nat, 2156431609061534997529474707667190198225209035413689904718515653954606int, 22671140047348088389171223014537948807363962047949960307163283628152int, 179161107012188505920233815717355790206956918510983243227686286946226844int, 0int, 179161107012188505920233815717355790206956918510983243227686286946226844int);
    lemma_pow_mod_step(10int, 2995506928578113718635021271509035833416079683029nat, m, 1497753464289056859317510635754517916708039841514nat, 179161107012188505920233815717355790206956918510983243227686286946226844int, 156491032503737298898792647827554385101734987700552391790101422572395782int, 128588782570359727738490242815044460649475066964028090696828675011911214int, 6int, 55196133574863282002214224586850190121925681431064287887461726386727914int);
    lemma_pow_mod_step(10int, 5991013857156227437270042543018071666832159366059nat, m, 2995506928578113718635021271509035833416079683029nat, 55196133574863282002214224586850190121925681431064287887461726386727914int, 14853174915048333221707762373046186923043348570249190187260072268798692int, 152457256842856007494680870555217369883812384997060668325771255801752664int, 7int, 88765594278370413667005801394646879736494697059853960996750030329745043int);
    lemma_pow_mod_step(10int, 11982027714312454874540085086036143333664318732118nat, m, 5991013857156227437270042543018071666832159366059nat, 88765594278370413667005801394646879736494697059853960996750030329745043int, 38414157394513710553605650935999777833993484049508379363491254581231907int, 67732474434554107189037744144658842734389397765199177714625482493955352int, 0int, 67732474434554107189037744144658842734389397765199177714625482493955352int);
    lemma_pow_mod_step(10int, 23964055428624909749080170172072286667328637464237nat, m, 11982027714312454874540085086036143333664318732118nat, 67732474434554107189037744144658842734389397765199177714625482493955352int, 22366388539239314029091807118837627368816105328282763682542003706731479int, 25870442365335151895536166296484865966176995627660496405910770729902195int, 1int, 53589141631895853058246962370916256932965791575068860878970203343624579int);
    lemma_pow_mod_step(10int, 47928110857249819498160340344144573334657274928474nat, m, 23964055428624909749080170172072286667328637464237nat, 53589141631895853058246962370916256932965791575068860878970203343624579int, 14000888049594446876682353400345893458848878671333068106900076779371106int, 147124306919503913955258649534095472134433662462672229777019305587164915int, 0int, 147124306919503913955258649534095472134433662462672229777019305587164915int);
    lemma_pow_mod_step(10int, 95856221714499638996320680688289146669314549856949nat, m, 47928110857249819498160340344144573334657274928474nat, 147124306919503913955258649534095472134433662462672229777019305587164915int, 105528761549225753959440542308463458847697998732612659461472918013993050int, 193408465252676848081769443864777988047274044552392964947509136224685675int, 9int, 88047114333667487743662133302388255913502963210104720853853826648280411int);
    lemma_pow_mod_step(10int, 191712443428999277992641361376578293338629099713899nat, m, 95856221714499638996320680688289146669314549856949nat, 88047114333667487743662133302388255913502963210104720853853826648280411int, 37794815998522244820093018790570267527472967734748840850981006427191032int, 68463667812722305193652559708924041582119152432817438806726952398752049int, 3int, 69290832062856054245181495307443207634779030223566078526857012121328377int);
}

proof fn lemma_certificate_29_14()
    requires
        pow_mod(10int, 191712443428999277992641361376578293338629099713899nat, 205115282021455665897114700593932402728804164701536103180137503955397371int) == 69290832062856054245181495307443207634779030223566078526857012121328377int,
    ensures
        pow_mod(10int, 785254168285181042657859016198464689515024792428134359nat, 205115282021455665897114700593932402728804164701536103180137503955397371int) == 159832978227348762028415072956380543945315129137032929242144712695158670int,
{
    let m: int = 205115282021455665897114700593932402728804164701536103180137503955397371int;
    lemma_pow_mod_step(10int, 383424886857998555985282722753156586677258199427799nat, m, 191712443428999277992641361376578293338629099713899nat, 69290832062856054245181495307443207634779030223566078526857012121328377int, 23407419284637693772800084246334708608820180925106751915743006548803709int, 192945178619353087122081415127737620870445362425534111624018149291805090int, 9int, 83414248000429878146781845931984584145216141941516187618943957319474561int);
    lemma_pow_mod_step(10int, 766849773715997111970565445506313173354516398855599nat, m, 383424886857998555985282722753156586677258199427799nat, 83414248000429878146781845931984584145216141941516187618943957319474561int, 33922078847101207868129894127551452339138241099509348680579570668290543int, 372842629892577413907332852030581662736648554409491727092122279780268int, 0int, 3728426298925774139073328520305816627366485544094917270921222797802680int);
    lemma_pow_mod_step(10int, 1533699547431994223941130891012626346709032797711199nat, m, 766849773715997111970565445506313173354516398855599nat, 3728426298925774139073328520305816627366485544094917270921222797802680int, 67772437672719301906411719510786511667911537997422305419410445820223int, 157480986698235910723479969502779777001650979153384154047009288222348667int, 7int, 139002892832169445954996790870270950914880638623088818209130354535705073int);
    lemma_pow_mod_step(10int, 3067399094863988447882261782025252693418065595422399nat, m, 1533699547431994223941130891012626346709032797711199nat, 139002892832169445954996790870270950914880638623088818209130354535705073int, 94199730148290296568007149806095650534622152202795412756036331819163463int, 158471909936734323582825899953816862058505380910411908824986300268479556int, 7int, 148912125217153574548456095380641801483424656193366365988900474997013963int);
    lemma_pow_mod_step(10int, 6134798189727976895764523564050505386836131190844799nat, m, 3067399094863988447882261782025252693418065595422399nat, 148912125217153574548456095380641801483424656193366365988900474997013963int, 108109063440576180843696083945102068428710059710564832007297936922516309int, 111129878057951952022014011927797629440951187279522307055141427093741730int, 5int, 85722370472241190734566616308314280765491049287542554650726751160430445int);
    lemma_pow_mod_step(10int, 12269596379455953791529047128101010773672262381689599nat, m, 6134798189727976895764523564050505386836131190844799nat, 85722370472241190734566616308314280765491049287542554650726751160430445int, 35825340398632569227808478859336734461359785420722818938507733208336525int, 103027515155973543304357440626166963803787385864160531130795131414622250int, 5int, 4698741452457103558000903292007624393853035133924795407263794369235645int);
    lemma_pow_mod_step(10int, 24539192758911907583058094256202021547344524763379198nat, m, 12269596379455953791529047128101010773672262381689599nat, 4698741452457103558000903292007624393853035133924795407263794369235645int, 107637865981771407385904622307366069232969044345387272469820686666306int, 33137370452221135151365421311489675111119516400568746343852900031884499int, 0int, 33137370452221135151365421311489675111119516400568746343852900031884499int);
    lemma_pow_mod_step(10int, 49078385517823815166116188512404043094689049526758397nat, m, 24539192758911907583058094256202021547344524763379198nat, 33137370452221135151365421311489675111119516400568746343852900031884499int, 5353503208858301367019371306793057123601328648329862137400659922625317int, 139312703066722984229353425033748365978616686389675082820706078996639394int, 6int, 162435338538495846910846046773889243413341875687534209126235766234009714int);
    lemma_pow_mod_step(10int, 98156771035647630332232377024808086189378099053516794nat, m, 49078385517823815166116188512404043094689049526758397nat, 162435338538495846910846046773889243413341875687534209126235766234009714int, 128636145225667680601400494486789353990539045845166363370824167346211988int, 75445034268340930074994594947968638962369736849980363438401450102478248int, 0int, 75445034268340930074994594947968638962369736849980363438401450102478248int);
    lemma_pow_mod_step(10int, 196313542071295260664464754049616172378756198107033589nat, m, 98156771035647630332232377024808086189378099053516794nat, 75445034268340930074994594947968638962369736849980363438401450102478248int, 27750020084587076737816694435126238930377744912396969738675954255318404int, 109749140222230545180516852835081262826041649032511315560868313363633620int, 5int, 71914992115027122319595025381150614616395666817432639707995613859349345int);
    lemma_pow_mod_step(10int, 392627084142590521328929508099232344757512396214067179nat, m, 196313542071295260664464754049616172378756198107033589nat, 71914992115027122319595025381150614616395666817432639707995613859349345int, 25213948175560274090268165682944608128087871157367924861368098902498462int, 60853078842738402614484185576916581392753519869216491766592864825585623int, 2int, 198300224384472694350612454581301008469926869289092711305653640345061488int);
    lemma_pow_mod_step(10int, 785254168285181042657859016198464689515024792428134359nat, m, 392627084142590521328929508099232344757512396214067179nat, 198300224384472694350612454581301008469926869289092711305653640345061488int, 191711600439497818224037584278257571506514012825137732785994641117797087int, 15983297822734876202841507295638054394531512913703292924214471269515867int, 0int, 159832978227348762028415072956380543945315129137032929242144712695158670int);
}

proof fn lemma_certificate_29_15()
    requires
        pow_mod(10int, 785254168285181042657859016198464689515024792428134359nat, 205115282021455665897114700593932402728804164701536103180137503955397371int) == 159832978227348762028415072956380543945315129137032929242144712695158670int,
    ensures
        pow_mod(10int, 3216401073296101550726590530348911368253541549785638336635nat, 205115282021455665897114700593932402728804164701536103180137503955397371int) == 51103910664262271294682336050641328977135717028045246302231594756651096int,
{
    let m: int = 205115282021455665897114700593932402728804164701536103180137503955397371int;
    lemma_pow_mod_step(10int, 1570508336570362085315718032396929379030049584856268719nat, m, 785254168285181042657859016198464689515024792428134359nat, 159832978227348762028415072956380543945315129137032929242144712695158670int, 124547428535100058492586556279878825095451500969532802668540679116607187int, 191753717024977692073363683643664702720670073318362121633556486576663523int, 9int, 71499632056675927659604531091255402647463250869796287714327330168058891int);
    lemma_pow_mod_step(10int, 3141016673140724170631436064793858758060099169712537438nat, m, 1570508336570362085315718032396929379030049584856268719nat, 71499632056675927659604531091255402647463250869796287714327330168058891int, 24923532434337530053786062482931053090534726284190691508726008841404434int, 147058284741417879724135039573977612127425274254066379649536996652806867int, 0int, 147058284741417879724135039573977612127425274254066379649536996652806867int);
    lemma_pow_mod_step(10int, 6282033346281448341262872129587717516120198339425074876nat, m, 3141016673140724170631436064793858758060099169712537438nat, 147058284741417879724135039573977612127425274254066379649536996652806867int, 105434070528327482671774962578144122403749586399483686189784805316569460int, 162991266581227074292201458534312932265740199013405888039204204779466029int, 0int, 162991266581227074292201458534312932265740199013405888039204204779466029int);
    lemma_pow_mod_step(10int, 12564066692562896682525744259175435032240396678850149752nat, m, 6282033346281448341262872129587717516120198339425074876nat, 162991266581227074292201458534312932265740199013405888039204204779466029int, 129518155448669745687849953527378595871575569386497786941329148152558775int, 68608856300483273929357507310866503094421742959210985851676136807048316int, 0int, 68608856300483273929357507310866503094421742959210985851676136807048316int);
    lemma_pow_mod_step(10int, 25128133385125793365051488518350870064480793357700299504nat, m, 12564066692562896682525744259175435032240396678850149752nat, 68608856300483273929357507310866503094421742959210985851676136807048316int, 22948924704537514527987661531804675378866114016602451495511564113699177int, 104984732970628681447196149634367004881231827347560423831439766567772189int, 0int, 104984732970628681447196149634367004881231827347560423831439766567772189int);
    lemma_pow_mod_step(10int, 50256266770251586730102977036701740128961586715400599009nat, m, 25128133385125793365051488518350870064480793357700299504nat, 104984732970628681447196149634367004881231827347560423831439766567772189int, 53734631804573667122038965858414829256944837156126584908068897795173958int, 81909895674797364615113330041285537912706797515655584364177036640987303int, 3int, 203753110683606648459789198631058170940655481051947534101357854543680917int);
    lemma_pow_mod_step(10int, 100512533540503173460205954073403480257923173430801198019nat, m, 50256266770251586730102977036701740128961586715400599009nat, 203753110683606648459789198631058170940655481051947534101357854543680917int, 202399985530592670715341054576225760789134678856234921395186973908117230int, 188868182685132595300095422826268278661020056361072968142595688408158559int, 9int, 42644288658224959926921922917291162050963081296904752804719348483009251int);
    lemma_pow_mod_step(10int, 201025067081006346920411908146806960515846346861602396039nat, m, 100512533540503173460205954073403480257923173430801198019nat, 42644288658224959926921922917291162050963081296904752804719348483009251int, 8865918410583321479653470183367719983957143148420134308722671818504860int, 166566847043801962895835937783734286546888712472785329621414720156857941int, 8int, 24746214266374301781441773085883643638453807115564470773047169925400442int);
    lemma_pow_mod_step(10int, 402050134162012693840823816293613921031692693723204792079nat, m, 201025067081006346920411908146806960515846346861602396039nat, 24746214266374301781441773085883643638453807115564470773047169925400442int, 2985516800514409121020477351906177544147805981445661782664025057780719int, 10183005350572621165890195079392266123978360520513936256576895026705615int, 0int, 101830053505726211658901950793922661239783605205139362565768950267056150int);
    lemma_pow_mod_step(10int, 804100268324025387681647632587227842063385387446409584158nat, m, 402050134162012693840823816293613921031692693723204792079nat, 101830053505726211658901950793922661239783605205139362565768950267056150int, 50553813907899838434059724941895452589909408366471582777994402303773343int, 90858100871044627268236353284765891921141566589853020124680062970741247int, 0int, 90858100871044627268236353284765891921141566589853020124680062970741247int);
    lemma_pow_mod_step(10int, 1608200536648050775363295265174455684126770774892819168317nat, m, 804100268324025387681647632587227842063385387446409584158nat, 90858100871044627268236353284765891921141566589853020124680062970741247int, 40246608699928085643864734906503762078232171320370263283395872203924424int, 135748965598044401505788791719304611039298954679083913870218554054825705int, 6int, 126797963851710019675199713629451694020164558581622519621360516815872824int);
    lemma_pow_mod_step(10int, 3216401073296101550726590530348911368253541549785638336635nat, m, 1608200536648050775363295265174455684126770774892819168317nat, 126797963851710019675199713629451694020164558581622519621360516815872824int, 78383840923455831759206480178080086544966256327550003232191818166865458int, 87156503875008493488314113842637093989235237583418965902278161057824058int, 4int, 51103910664262271294682336050641328977135717028045246302231594756651096int);
}

proof fn lemma_certificate_29_16()
    requires
        pow_mod(10int, 3216401073296101550726590530348911368253541549785638336635nat, 205115282021455665897114700593932402728804164701536103180137503955397371int) == 51103910664262271294682336050641328977135717028045246302231594756651096int,
    ensures
        pow_mod(10int, 13174378796220831951776114812309140964366506187921974626860324nat, 205115282021455665897114700593932402728804164701536103180137503955397371int) == 4977091581409243376037115560488111037601272822929878336732702593912234int,
{
    let m: int = 205115282021455665897114700593932402728804164701536103180137503955397371int;
    lemma_pow_mod_step(10int, 6432802146592203101453181060697822736507083099571276673271nat, m, 3216401073296101550726590530348911368253541549785638336635nat, 51103910664262271294682336050641328977135717028045246302231594756651096int, 12732399358267791045538932017341091942627890978326587457340226767213833int, 88307023364634691486342939462205573301528461438170913814756005034968173int, 4int, 62609105560524251274970592246326122100067955575564725427010034528092246int);
    lemma_pow_mod_step(10int, 12865604293184406202906362121395645473014166199142553346543nat, m, 6432802146592203101453181060697822736507083099571276673271nat, 62609105560524251274970592246326122100067955575564725427010034528092246int, 19110716961005545955663183834915418281466739850757618696412110062254516int, 100161748645205294487125983383970191959056967899787803969319989366047080int, 4int, 181156358366230281282801031463972308675353020191733626972649877838881316int);
    lemma_pow_mod_step(10int, 25731208586368812405812724242791290946028332398285106693086nat, m, 12865604293184406202906362121395645473014166199142553346543nat, 181156358366230281282801031463972308675353020191733626972649877838881316int, 159996007382235084501771504000066164134057227918682257895541371835698007int, 40975818603605965044669942251884052597655569211586273837102285496152259int, 0int, 40975818603605965044669942251884052597655569211586273837102285496152259int);
    lemma_pow_mod_step(10int, 51462417172737624811625448485582581892056664796570213386173nat, m, 25731208586368812405812724242791290946028332398285106693086nat, 40975818603605965044669942251884052597655569211586273837102285496152259int, 8185727039392367042780826989573835024125155490241622662091435867931014int, 14534693315440014360494665109524243723361134332094666851736258125838887int, 0int, 145346933154400143604946651095242437233611343320946668517362581258388870int);
    lemma_pow_mod_step(10int, 102924834345475249623250896971165163784113329593140426772346nat, m, 51462417172737624811625448485582581892056664796570213386173nat, 145346933154400143604946651095242437233611343320946668517362581258388870int, 102994427178662629635301517149530116489700195863980124214694342268920582int, 24293241674723826943376714289291186264400440127618278117424103089286978int, 0int, 24293241674723826943376714289291186264400440127618278117424103089286978int);
    lemma_pow_mod_step(10int, 205849668690950499246501793942330327568226659186280853544692nat, m, 102924834345475249623250896971165163784113329593140426772346nat, 24293241674723826943376714289291186264400440127618278117424103089286978int, 2877219021666098374698572500326094451918179111211234077401196153257272int, 22693638805290098607123189346490169460642433523924563998684505684940572int, 0int, 22693638805290098607123189346490169460642433523924563998684505684940572int);
    lemma_pow_mod_step(10int, 411699337381900998493003587884660655136453318372561707089385nat, m, 205849668690950499246501793942330327568226659186280853544692nat, 22693638805290098607123189346490169460642433523924563998684505684940572int, 2510789235933663680196164475670543064324676991826997011111900842856281int, 129244837037198037586985899398810538723501346362844332974333389173449933int, 6int, 61756678243246380487170790424510970862188475419226710662508868002115104int);
    lemma_pow_mod_step(10int, 823398674763801996986007175769321310272906636745123414178770nat, m, 411699337381900998493003587884660655136453318372561707089385nat, 61756678243246380487170790424510970862188475419226710662508868002115104int, 18593872041386545453685352837637665535624532010712308381442117177639800int, 200684840516560088590679540037571699633735954541815749367878612759965016int, 0int, 200684840516560088590679540037571699633735954541815749367878612759965016int);
    lemma_pow_mod_step(10int, 1646797349527603993972014351538642620545813273490246828357540nat, m, 823398674763801996986007175769321310272906636745123414178770nat, 200684840516560088590679540037571699633735954541815749367878612759965016int, 196350095498707578879277206717001732577506161527375975931863734977948885int, 158744038535052676343377666337200767568625431436731748353115146842498921int, 0int, 158744038535052676343377666337200767568625431436731748353115146842498921int);
    lemma_pow_mod_step(10int, 3293594699055207987944028703077285241091626546980493656715081nat, m, 1646797349527603993972014351538642620545813273490246828357540nat, 158744038535052676343377666337200767568625431436731748353115146842498921int, 122856130084848231721116184293526304832551975649776681141818381162817080int, 111396207490474361021943694056838390983393245075277486937936762700267561int, 5int, 88385664797465280733863437598721896189911627245094353478680107225688755int);
    lemma_pow_mod_step(10int, 6587189398110415975888057406154570482183253093960987313430162nat, m, 3293594699055207987944028703077285241091626546980493656715081nat, 88385664797465280733863437598721896189911627245094353478680107225688755int, 38086024915845774568981922277742316736567818621444734101201715324522335int, 51024620592590766398959137342549598721038747113478953978760428443668740int, 0int, 51024620592590766398959137342549598721038747113478953978760428443668740int);
    lemma_pow_mod_step(10int, 13174378796220831951776114812309140964366506187921974626860324nat, m, 6587189398110415975888057406154570482183253093960987313430162nat, 51024620592590766398959137342549598721038747113478953978760428443668740int, 12692920200580191963038358440634107603476407422770046976227904997835346int, 4977091581409243376037115560488111037601272822929878336732702593912234int, 0int, 4977091581409243376037115560488111037601272822929878336732702593912234int);
}

proof fn lemma_certificate_29_17()
    requires
        pow_mod(10int, 13174378796220831951776114812309140964366506187921974626860324nat, 205115282021455665897114700593932402728804164701536103180137503955397371int) == 4977091581409243376037115560488111037601272822929878336732702593912234int,
    ensures
        pow_mod(10int, 53962255549320527674474966271218241390045209345728408071619889872nat, 205115282021455665897114700593932402728804164701536103180137503955397371int) == 70588237941871892795920891919163042042251033326276256915662085013128863int,
{
    let m: int = 205115282021455665897114700593932402728804164701536103180137503955397371int;
    lemma_pow_mod_step(10int, 26348757592441663903552229624618281928733012375843949253720649nat, m, 13174378796220831951776114812309140964366506187921974626860324nat, 4977091581409243376037115560488111037601272822929878336732702593912234int, 120768381398045207776690135589487588281138511277237401095342450382882int, 40037209814564065475549893137009839452603788717574968509220128288667534int, 1int, 195256816124184988858384230776165991797233722474213581912063778931277969int);
    lemma_pow_mod_step(10int, 52697515184883327807104459249236563857466024751687898507441298nat, m, 26348757592441663903552229624618281928733012375843949253720649nat, 195256816124184988858384230776165991797233722474213581912063778931277969int, 185872178158650196040722563781035944159702972298567604533168241454543617int, 20580777718111164143976587170434032356750437165213322058559880858134054int, 0int, 20580777718111164143976587170434032356750437165213322058559880858134054int);
    lemma_pow_mod_step(10int, 105395030369766655614208918498473127714932049503375797014882597nat, m, 52697515184883327807104459249236563857466024751687898507441298nat, 20580777718111164143976587170434032356750437165213322058559880858134054int, 2065026102920963570455501925416363815792306809612388347346228963597229int, 139665458764314231931062574752809425430969926599140739480337060344989957int, 6int, 165962895514408323927937543964499837936874277782190775722545579717515344int);
    lemma_pow_mod_step(10int, 210790060739533311228417836996946255429864099006751594029765194nat, m, 105395030369766655614208918498473127714932049503375797014882597nat, 165962895514408323927937543964499837936874277782190775722545579717515344int, 134283913007736126624252672327271334045084589694938395522497742909274567int, 103504867747124379534333114735832784947847597654665928888815607046474979int, 0int, 103504867747124379534333114735832784947847597654665928888815607046474979int);
    lemma_pow_mod_step(10int, 421580121479066622456835673993892510859728198013503188059530389nat, m, 210790060739533311228417836996946255429864099006751594029765194nat, 103504867747124379534333114735832784947847597654665928888815607046474979int, 52230421554982286283101141302583876395720713397139320034792869807259893int, 124546005079191361374390755627601860108049107426355242602085872187109138int, 6int, 14768358663179618361219352712424184707666086054335806940033698138707154int);
    lemma_pow_mod_step(10int, 843160242958133244913671347987785021719456396027006376119060779nat, m, 421580121479066622456835673993892510859728198013503188059530389nat, 14768358663179618361219352712424184707666086054335806940033698138707154int, 1063326025515242284033062659121423669264557704167389976819082500054811int, 54614935091379544712370349594272963520828856730009143466729251785477835int, 2int, 135918786870884115329474094754864829750680237897019228307017509943983608int);
    lemma_pow_mod_step(10int, 1686320485916266489827342695975570043438912792054012752238121558nat, m, 843160242958133244913671347987785021719456396027006376119060779nat, 135918786870884115329474094754864829750680237897019228307017509943983608int, 90066017716419558529842982268105110310106563262132427707123348346502274int, 125345764169052293348707962924449276235277586445863796215942704547576010int, 0int, 125345764169052293348707962924449276235277586445863796215942704547576010int);
    lemma_pow_mod_step(10int, 3372640971832532979654685391951140086877825584108025504476243117nat, m, 1686320485916266489827342695975570043438912792054012752238121558nat, 125345764169052293348707962924449276235277586445863796215942704547576010int, 76598683629434290497958033820263974858778143117164373189937580426740434int, 29583863829849467915026203528027372485844551836236978585996395984521086int, 1int, 90723356277039013253147334686341322129641353660833682679826455889813489int);
    lemma_pow_mod_step(10int, 6745281943665065959309370783902280173755651168216051008952486234nat, m, 3372640971832532979654685391951140086877825584108025504476243117nat, 90723356277039013253147334686341322129641353660833682679826455889813489int, 40127323976326618465596718939932969824353336665256200379825446150238455int, 58103753491929559110708575552639522332582966014837305638753279276251316int, 0int, 58103753491929559110708575552639522332582966014837305638753279276251316int);
    lemma_pow_mod_step(10int, 13490563887330131918618741567804560347511302336432102017904972468nat, m, 6745281943665065959309370783902280173755651168216051008952486234nat, 58103753491929559110708575552639522332582966014837305638753279276251316int, 16459262013923331208670752971617854448392262344445165200441244633972566int, 123614140125538477963484516613805616726309316897162950749437172749207870int, 0int, 123614140125538477963484516613805616726309316897162950749437172749207870int);
    lemma_pow_mod_step(10int, 26981127774660263837237483135609120695022604672864204035809944936nat, m, 13490563887330131918618741567804560347511302336432102017904972468nat, 123614140125538477963484516613805616726309316897162950749437172749207870int, 74496914556458455822910434759357504789961630476850649421659350312516082int, 143669140729067951660491606004301570721845292933055662822230573331916478int, 0int, 143669140729067951660491606004301570721845292933055662822230573331916478int);
    lemma_pow_mod_step(10int, 53962255549320527674474966271218241390045209345728408071619889872nat, m, 26981127774660263837237483135609120695022604672864204035809944936nat, 143669140729067951660491606004301570721845292933055662822230573331916478int, 100630346965905937038751078364516190470214806506094468510249322197470751int, 70588237941871892795920891919163042042251033326276256915662085013128863int, 0int, 70588237941871892795920891919163042042251033326276256915662085013128863int);
}

proof fn lemma_certificate_29_18()
    requires
        pow_mod(10int, 53962255549320527674474966271218241390045209345728408071619889872nat, 205115282021455665897114700593932402728804164701536103180137503955397371int) == 70588237941871892795920891919163042042251033326276256915662085013128863int,
    ensures
        pow_mod(10int, 221029398730016881354649461846909916733625177480103559461355068917454nat, 205115282021455665897114700593932402728804164701536103180137503955397371int) == 148611330607984697476523758280096356994046382397238146280555637497694866int,
{
    let m: int = 205115282021455665897114700593932402728804164701536103180137503955397371int;
    lemma_pow_mod_step(10int, 107924511098641055348949932542436482780090418691456816143239779744nat, m, 53962255549320527674474966271218241390045209345728408071619889872nat, 70588237941871892795920891919163042042251033326276256915662085013128863int, 24292189673205907525793858936896190912773664011655855203202969230680322int, 132881400266677302213609511648871527659653757428981747357989238863439307int, 0int, 132881400266677302213609511648871527659653757428981747357989238863439307int);
    lemma_pow_mod_step(10int, 215849022197282110697899865084872965560180837382913632286479559489nat, m, 107924511098641055348949932542436482780090418691456816143239779744nat, 132881400266677302213609511648871527659653757428981747357989238863439307int, 86085572770662126071731526037991473848716495592223961920520723002870599int, 47704348977939964645615166952466882345061987233386183645947476134845020int, 2int, 66812925736488314661922268336804017993011542930789630099199753437655458int);
    lemma_pow_mod_step(10int, 431698044394564221395799730169745931120361674765827264572959118979nat, m, 215849022197282110697899865084872965560180837382913632286479559489nat, 66812925736488314661922268336804017993011542930789630099199753437655458int, 21763210432085496351765909388296151583122806940655597633501902299336033int, 148865224637054923048834291999211495703367161820959426334115947943420521int, 7int, 52845272220359569208540015834588137932042465298841541080196951746423613int);
    lemma_pow_mod_step(10int, 863396088789128442791599460339491862240723349531654529145918237958nat, m, 431698044394564221395799730169745931120361674765827264572959118979nat, 52845272220359569208540015834588137932042465298841541080196951746423613int, 13614893871007574070924516978037762968639073771998028254845978515785783int, 86388425750298988999050666892922477006711522544920951474732067966597276int, 0int, 86388425750298988999050666892922477006711522544920951474732067966597276int);
    lemma_pow_mod_step(10int, 1726792177578256885583198920678983724481446699063309058291836475917nat, m, 863396088789128442791599460339491862240723349531654529145918237958nat, 86388425750298988999050666892922477006711522544920951474732067966597276int, 36384222716444276023562986706280746113914402666050911000817737766843297int, 78624282865793797607847590072789634524449481348885103291932390047847989int, 3int, 170896982593570978387131798946099137058082319384242723378911388612287777int);
    lemma_pow_mod_step(10int, 3453584355156513771166397841357967448962893398126618116583672951835nat, m, 1726792177578256885583198920678983724481446699063309058291836475917nat, 170896982593570978387131798946099137058082319384242723378911388612287777int, 142387141376098398349528176986962206443987275456529123557433966493225281int, 97376278094442553829382494061864457373401555031283918622362408085465478int, 4int, 153301652858602874705366138242914962818798891506694773503074065033065296int);
    lemma_pow_mod_step(10int, 6907168710313027542332795682715934897925786796253236233167345903670nat, m, 3453584355156513771166397841357967448962893398126618116583672951835nat, 153301652858602874705366138242914962818798891506694773503074065033065296int, 114576527587648331586478539346976470680722475183413208417083682370966704int, 55468232572573600726047026526375541723798505131066031360469046069432432int, 0int, 55468232572573600726047026526375541723798505131066031360469046069432432int);
    lemma_pow_mod_step(10int, 13814337420626055084665591365431869795851573592506472466334691807340nat, m, 6907168710313027542332795682715934897925786796253236233167345903670nat, 55468232572573600726047026526375541723798505131066031360469046069432432int, 14999978521362832655822107627840286531957242270023551392330132107129922int, 111982611527354879044412078488456239164816163291713308628921222779199562int, 0int, 111982611527354879044412078488456239164816163291713308628921222779199562int);
    lemma_pow_mod_step(10int, 27628674841252110169331182730863739591703147185012944932669383614681nat, m, 13814337420626055084665591365431869795851573592506472466334691807340nat, 111982611527354879044412078488456239164816163291713308628921222779199562int, 61136864893249356666274472265010580886219476470852165906669991387806310int, 49450865084660187392716901203726392755895810941696553569414765389780834int, 2int, 84278086803690542132939610849399122101349780013893329333872645987013598int);
    lemma_pow_mod_step(10int, 55257349682504220338662365461727479183406294370025889865338767229363nat, m, 27628674841252110169331182730863739591703147185012944932669383614681nat, 84278086803690542132939610849399122101349780013893329333872645987013598int, 34628311675711341754420252214412074530571080519797897279731414496555091int, 25424893889090888126311769383217802043028619531943937013851467138839843int, 1int, 49133656869453215366002993238245617701482030617903266958377167433001059int);
    lemma_pow_mod_step(10int, 110514699365008440677324730923454958366812588740051779730677534458727nat, m, 55257349682504220338662365461727479183406294370025889865338767229363nat, 49133656869453215366002993238245617701482030617903266958377167433001059int, 11769558141029411121559000229801658272233006291374882153628736605807237int, 141573693062498112645751494218006125958320426531615998616580714532547554int, 6int, 185045238496247131074826738616466843210379277106943367084982121593091314int);
    lemma_pow_mod_step(10int, 221029398730016881354649461846909916733625177480103559461355068917454nat, m, 110514699365008440677324730923454958366812588740051779730677534458727nat, 185045238496247131074826738616466843210379277106943367084982121593091314int, 166939001095740851560099523880176490518669485450233343346042299982448630int, 148611330607984697476523758280096356994046382397238146280555637497694866int, 0int, 148611330607984697476523758280096356994046382397238146280555637497694866int);
}

proof fn lemma_certificate_29_19()
    requires
        pow_mod(10int, 221029398730016881354649461846909916733625177480103559461355068917454nat, 205115282021455665897114700593932402728804164701536103180137503955397371int) == 148611330607984697476523758280096356994046382397238146280555637497694866int,
    ensures
        pow_mod(10int, 7072940759360540203348782779101117335476005679363313902763362205358530nat, 205115282021455665897114700593932402728804164701536103180137503955397371int) == 90719238424619861502781386762050866835022444605988461034414193158222234int,
{
    let m: int = 205115282021455665897114700593932402728804164701536103180137503955397371int;
    lemma_pow_mod_step(10int, 442058797460033762709298923693819833467250354960207118922710137834908nat, m, 221029398730016881354649461846909916733625177480103559461355068917454nat, 148611330607984697476523758280096356994046382397238146280555637497694866int, 107672755376488908941135671922622978857525771929835693461173677279076789int, 85355445555666566017622891881291246081753423756893625809669199125036237int, 0int, 85355445555666566017622891881291246081753423756893625809669199125036237int);
    lemma_pow_mod_step(10int, 884117594920067525418597847387639666934500709920414237845420275669816nat, m, 442058797460033762709298923693819833467250354960207118922710137834908nat, 85355445555666566017622891881291246081753423756893625809669199125036237int, 35519304140606495689280900969183211056645702611753341287766216845698237int, 117576519028183489975863132351835905097088777154267204989484167273985242int, 0int, 117576519028183489975863132351835905097088777154267204989484167273985242int);
    lemma_pow_mod_step(10int, 1768235189840135050837195694775279333869001419840828475690840551339632nat, m, 884117594920067525418597847387639666934500709920414237845420275669816nat, 117576519028183489975863132351835905097088777154267204989484167273985242int, 67397405451919170392932091779075107468808605845760850916158546642754553int, 179234515347448611784382950221636190333321330025616128875425005699318401int, 0int, 179234515347448611784382950221636190333321330025616128875425005699318401int);
    lemma_pow_mod_step(10int, 3536470379680270101674391389550558667738002839681656951381681102679265nat, m, 1768235189840135050837195694775279333869001419840828475690840551339632nat, 179234515347448611784382950221636190333321330025616128875425005699318401int, 156619298061245483550426807692056787189295898051750634023870892655723845int, 74960077375271924934585532614690995786372610392345741690519431362185306int, 3int, 134254927688352251654511224365112749677313609818849107364781801755660947int);
    lemma_pow_mod_step(10int, 7072940759360540203348782779101117335476005679363313902763362205358530nat, m, 3536470379680270101674391389550558667738002839681656951381681102679265nat, 134254927688352251654511224365112749677313609818849107364781801755660947int, 87874415942929537335873901552015041030599450714755205669459625644139325int, 90719238424619861502781386762050866835022444605988461034414193158222234int, 0int, 90719238424619861502781386762050866835022444605988461034414193158222234int);
}

proof fn lemma_certificate_29()
    ensures
        pow_mod(10int, 7072940759360540203348782779101117335476005679363313902763362205358530nat, 205115282021455665897114700593932402728804164701536103180137503955397371int) == 90719238424619861502781386762050866835022444605988461034414193158222234int,
{
    lemma_pow_mod_zero(10int, 205115282021455665897114700593932402728804164701536103180137503955397371int);
    lemma_certificate_29_0();
    lemma_certificate_29_1();
    lemma_certificate_29_2();
    lemma_certificate_29_3();
    lemma_certificate_29_4();
    lemma_certificate_29_5();
    lemma_certificate_29_6();
    lemma_certificate_29_7();
    lemma_certificate_29_8();
    lemma_certificate_29_9();
    lemma_certificate_29_10();
    lemma_certificate_29_11();
    lemma_certificate_29_12();
    lemma_certificate_29_13();
    lemma_certificate_29_14();
    lemma_certificate_29_15();
    lemma_certificate_29_16();
    lemma_certificate_29_17();
    lemma_certificate_29_18();
    lemma_certificate_29_19();
}

proof fn lemma_certificate_31_0()
    requires
        pow_mod(10int, 0nat, 205115282021455665897114700593932402728804164701536103180137503955397371int) == 1int,
    ensures
        pow_mod(10int, 3926nat, 205115282021455665897114700593932402728804164701536103180137503955397371int) == 54133562503870985497856774960077293504120309095950193478643251423382585int,
{
    let m: int = 205115282021455665897114700593932402728804164701536103180137503955397371int;
    lemma_pow_mod_step(10int, 1nat, m, 0nat, 1int, 0int, 1int, 0int, 10int);
    lemma_pow_mod_step(10int, 3nat, m, 1nat, 10int, 0int, 100int, 0int, 1000int);
    lemma_pow_mod_step(10int, 7nat, m, 3nat, 1000int, 0int, 1000000int, 0int, 10000000int);
    lemma_pow_mod_step(10int, 15nat, m, 7nat, 10000000int, 0int, 100000000000000int, 0int, 1000000000000000int);
    lemma_pow_mod_step(10int, 30nat, m, 15nat, 1000000000000000int, 0int, 1000000000000000000000000000000int, 0int, 1000000000000000000000000000000int);
    lemma_pow_mod_step(10int, 61nat, m, 30nat, 1000000000000000000000000000000int, 0int, 1000000000000000000000000000000000000000000000000000000000000int, 0int, 10000000000000000000000000000000000000000000000000000000000000int);
    lemma_pow_mod_step(10int, 122nat, m, 61nat, 10000000000000000000000000000000000000000000000000000000000000int, 487530714505902606881235412629180716668554675773229int, 173118043643344688574479888333731763693495621043111615918089312621219041int, 0int, 173118043643344688574479888333731763693495621043111615918089312621219041int);
    lemma_pow_mod_step(10int, 245nat, m, 122nat, 173118043643344688574479888333731763693495621043111615918089312621219041int, 146112258138640594028062587191167111947761947317161893634425447651926860int, 66673116158926331180052020361211371288285899057011292810713055772674621int, 3int, 51385315524896314109176101830316504696446496465504618566718045860554097int);
    lemma_pow_mod_step(10int, 490nat, m, 245nat, 51385315524896314109176101830316504696446496465504618566718045860554097int, 12873007927887846035783852011372139761158266575077965713078856282646872int, 69487207129237420527774521803363661375384536605469623316745813433311897int, 0int, 69487207129237420527774521803363661375384536605469623316745813433311897int);
    lemma_pow_mod_step(10int, 981nat, m, 490nat, 69487207129237420527774521803363661375384536605469623316745813433311897int, 23540283820083533983851961396525537467877368325341888656034181089401338int, 199399371215392973038637673121520438060110196537789918692302753792656211int, 9int, 147956173960828737312344425869812756041864483064074258301790002327985771int);
    lemma_pow_mod_step(10int, 1963nat, m, 981nat, 147956173960828737312344425869812756041864483064074258301790002327985771int, 106725492110515437772584229749158756349921538510098629545558440296775456int, 161335777979163953320445489606709607872348702665438356897771651538738265int, 7int, 177550805641449871924651991909569259621857873743630846716753987699601053int);
    lemma_pow_mod_step(10int, 3926nat, m, 1963nat, 177550805641449871924651991909569259621857873743630846716753987699601053int, 153690589376126415237119410603936743154883069995977159572036589558448944int, 54133562503870985497856774960077293504120309095950193478643251423382585int, 0int, 54133562503870985497856774960077293504120309095950193478643251423382585int);
}

proof fn lemma_certificate_31_1()
    requires
        pow_mod(10int, 3926nat, 205115282021455665897114700593932402728804164701536103180137503955397371int) == 54133562503870985497856774960077293504120309095950193478643251423382585int,
    ensures
        pow_mod(10int, 16084117nat, 205115282021455665897114700593932402728804164701536103180137503955397371int) == 18579395418916666391415890269769560355951126878737222634044497846294366int,
{
    let m: int = 205115282021455665897114700593932402728804164701536103180137503955397371int;
    lemma_pow_mod_step(10int, 7853nat, m, 3926nat, 54133562503870985497856774960077293504120309095950193478643251423382585int, 14286807694094551902592079046291264669856773714355018036814483860547662int, 162872878865053794517299317742864629398921076985181063841363330386285623int, 7int, 192921814500348283893190273271119474887581616941057916152670776175074633int);
    lemma_pow_mod_step(10int, 15707nat, m, 7853nat, 192921814500348283893190273271119474887581616941057916152670776175074633int, 181453210815435945450696313115542340191166336464706690163534043894317897int, 44480096028462289143570251955578883093328872753287193727280431488035902int, 2int, 34570396241711559641473118367924025475680398129799730912529306969564278int);
    lemma_pow_mod_step(10int, 31414nat, m, 15707nat, 34570396241711559641473118367924025475680398129799730912529306969564278int, 5826539517342898138475710199854260487842339054290089705577260248002773int, 186815452484079000404802304518085060889512625368110474647896548848751501int, 0int, 186815452484079000404802304518085060889512625368110474647896548848751501int);
    lemma_pow_mod_step(10int, 62828nat, m, 31414nat, 186815452484079000404802304518085060889512625368110474647896548848751501int, 170148284139942990817822987457494346317345097680262620863187115085552920int, 125328377705436178376284885656129710928244801500150973118845746600379681int, 0int, 125328377705436178376284885656129710928244801500150973118845746600379681int);
    lemma_pow_mod_step(10int, 125657nat, m, 62828nat, 125328377705436178376284885656129710928244801500150973118845746600379681int, 76577435398662554330950209435261561751271529845697541941443273358459425int, 193818420353484073701624305436688689868084074919083665445207563102490086int, 9int, 92146665341739743942210749021495274121603266877011725830838095426324521int);
    lemma_pow_mod_step(10int, 251314nat, m, 125657nat, 92146665341739743942210749021495274121603266877011725830838095426324521int, 41396271647445537224230838595059198209228685822199369668290167405969292int, 65640696436007900754827423104411024506906885653405841380236759922348109int, 0int, 65640696436007900754827423104411024506906885653405841380236759922348109int);
    lemma_pow_mod_step(10int, 502628nat, m, 251314nat, 65640696436007900754827423104411024506906885653405841380236759922348109int, 21006240910676940382534234890859554424060969061145226477924095434222779int, 16678955144886413783377663532813379292185129293301631652413112690961872int, 0int, 16678955144886413783377663532813379292185129293301631652413112690961872int);
    lemma_pow_mod_step(10int, 1005257nat, m, 502628nat, 16678955144886413783377663532813379292185129293301631652413112690961872int, 1356249724464868157603061551471322098582326170278411660493319082267684int, 150953036863847987269797671537847440980716051121587713059543906545885620int, 7int, 73723394488290211418173811220947590705531358305124408334476537771074603int);
    lemma_pow_mod_step(10int, 2010514nat, m, 1005257nat, 73723394488290211418173811220947590705531358305124408334476537771074603int, 26497971488577471768621289455730202431696044824305431067518207599990290int, 47610954013031787183606696261032565503363206896278780854226852700080019int, 0int, 47610954013031787183606696261032565503363206896278780854226852700080019int);
    lemma_pow_mod_step(10int, 4021029nat, m, 2010514nat, 47610954013031787183606696261032565503363206896278780854226852700080019int, 11051360579724690333583660680579570951672538352184949827896846208308712int, 152714036413055040459966942223728001604204415710969211487616811201844209int, 7int, 91333389980360743319866518079753196940415004198939392615205584330660493int);
    lemma_pow_mod_step(10int, 8042058nat, m, 4021029nat, 91333389980360743319866518079753196940415004198939392615205584330660493int, 40668779249866348237298008383261666898330722109562956670194006202539681int, 112999936851357303483348378838550291995251339787124510533301537880424398int, 0int, 112999936851357303483348378838550291995251339787124510533301537880424398int);
    lemma_pow_mod_step(10int, 16084117nat, m, 8042058nat, 112999936851357303483348378838550291995251339787124510533301537880424398int, 62252727356877605145762897068914181749972507133886795791736160353748089int, 83904052350473932997987469264549917127116778568488163535459451366788385int, 4int, 18579395418916666391415890269769560355951126878737222634044497846294366int);
}

proof fn lemma_certificate_31_2()
    requires
        pow_mod(10int, 16084117nat, 205115282021455665897114700593932402728804164701536103180137503955397371int) == 18579395418916666391415890269769560355951126878737222634044497846294366int,
    ensures
        pow_mod(10int, 65880543677nat, 205115282021455665897114700593932402728804164701536103180137503955397371int) == 37267623279927063622882819098412856158005403049631637194837905722265710int,
{
    let m: int = 205115282021455665897114700593932402728804164701536103180137503955397371int;
    lemma_pow_mod_step(10int, 32168234nat, m, 16084117nat, 18579395418916666391415890269769560355951126878737222634044497846294366int, 1682926453507024901801277716571975759733560682315255920348013760717732int, 82079490315779397930621827255940626051629285615705679442657217697459384int, 0int, 82079490315779397930621827255940626051629285615705679442657217697459384int);
    lemma_pow_mod_step(10int, 64336468nat, m, 32168234nat, 82079490315779397930621827255940626051629285615705679442657217697459384int, 32845152560565474343069005712079071167012205264911576416344206520799407int, 185816562755861867598609305446572301088194020742634521188484717063500459int, 0int, 185816562755861867598609305446572301088194020742634521188484717063500459int);
    lemma_pow_mod_step(10int, 128672936nat, m, 64336468nat, 185816562755861867598609305446572301088194020742634521188484717063500459int, 168333605639346960689249013137309425442827852844168891691096677155800316int, 101968561102461516096520291799458380268332692383089030739664186985841445int, 0int, 101968561102461516096520291799458380268332692383089030739664186985841445int);
    lemma_pow_mod_step(10int, 257345873nat, m, 128672936nat, 101968561102461516096520291799458380268332692383089030739664186985841445int, 50691432402480909645267581945970633503489512354911068279458953891182559int, 64057657596132653749342230788545125625901365086748602108404680730035636int, 3int, 25230729896959539802078206103654048072601156762877711543634295434164247int);
    lemma_pow_mod_step(10int, 514691747nat, m, 257345873nat, 25230729896959539802078206103654048072601156762877711543634295434164247int, 3103570464665518091335083314616690226528034784531197247968908615931255int, 161491737111450701355224434795583909605386650384497170175844088629346404int, 7int, 179110396964317352272441443798312276952237350934218979497478358605682443int);
    lemma_pow_mod_step(10int, 1029383494nat, m, 514691747nat, 179110396964317352272441443798312276952237350934218979497478358605682443int, 156402458093588676215463107304357411749744183623967907375898614390915128int, 20443762480921875467933500968975146813964688702664826798519946183119761int, 0int, 20443762480921875467933500968975146813964688702664826798519946183119761int);
    lemma_pow_mod_step(10int, 2058766989nat, m, 1029383494nat, 20443762480921875467933500968975146813964688702664826798519946183119761int, 2037622064321031030585674998432003182355509718463470407331035509393503int, 183315143514913296791610196909414761468778677046839993236813451298016508int, 8int, 192229178977487640739184364342688392857353452856111106927034481336986112int);
    lemma_pow_mod_step(10int, 4117533979nat, m, 2058766989nat, 192229178977487640739184364342688392857353452856111106927034481336986112int, 180152628737305305763190116960162295582951471745773964967598622099908746int, 61437572610618530592093037608018321793873335183589756228038830412569778int, 2int, 204145162063273974126700974892318412481125022432825355920113296214903038int);
    lemma_pow_mod_step(10int, 8235067959nat, m, 4117533979nat, 204145162063273974126700974892318412481125022432825355920113296214903038int, 203179630416231205696570445063533431484622139970595870089853573949566009int, 37289000351312729985011721377203907389051024767983647154064833152067105int, 1int, 167774721491671633953002513178106671161706082978300368360510827565273679int);
    lemma_pow_mod_step(10int, 16470135919nat, m, 8235067959nat, 167774721491671633953002513178106671161706082978300368360510827565273679int, 137231886840413880753266699035892825906858885572908457915902706968707513int, 168529876655553894192411084602948314310422970406983141455932821982046718int, 8int, 44376510383893614747193241278023921273796386457542589118228188177288212int);
    lemma_pow_mod_step(10int, 32940271838nat, m, 16470135919nat, 44376510383893614747193241278023921273796386457542589118228188177288212int, 9600818888013550606650152528498714109397587174150835882852330126260404int, 142173314374905610843314054461633323802817522703034592060286322071159060int, 0int, 142173314374905610843314054461633323802817522703034592060286322071159060int);
    lemma_pow_mod_step(10int, 65880543677nat, m, 32940271838nat, 142173314374905610843314054461633323802817522703034592060286322071159060int, 98545808586955390566793911424666463631817139580379573837145490582486399int, 3726762327992706362288281909841285615800540304963163719483790572226571int, 0int, 37267623279927063622882819098412856158005403049631637194837905722265710int);
}

proof fn lemma_certificate_31_3()
    requires
        pow_mod(10int, 65880543677nat, 205115282021455665897114700593932402728804164701536103180137503955397371int) == 37267623279927063622882819098412856158005403049631637194837905722265710int,
    ensures
        pow_mod(10int, 269846706901085nat, 205115282021455665897114700593932402728804164701536103180137503955397371int) == 16456438787382476924632416964034675721622876651134482498923997715900425int,
{
    let m: int = 205115282021455665897114700593932402728804164701536103180137503955397371int;
    lemma_pow_mod_step(10int, 131761087354nat, m, 65880543677nat, 37267623279927063622882819098412856158005403049631637194837905722265710int, 6771195842878645735521777989224597256299563900154893639459313620511583int, 126505577306697396619468038037626578825402094872975095862444348768555807int, 0int, 126505577306697396619468038037626578825402094872975095862444348768555807int);
    lemma_pow_mod_step(10int, 263522174708nat, m, 131761087354nat, 126505577306697396619468038037626578825402094872975095862444348768555807int, 78022763257721387140346049973470605991547085886417321732080846802922270int, 64002440297404664612145056535749084125262877143462690114278198598069079int, 0int, 64002440297404664612145056535749084125262877143462690114278198598069079int);
    lemma_pow_mod_step(10int, 527044349416nat, m, 263522174708nat, 64002440297404664612145056535749084125262877143462690114278198598069079int, 19970780936714223419417385479959976663493586299948282595020382658675490int, 167752059789566870651411361294208475557272629443443432273551883767771451int, 0int, 167752059789566870651411361294208475557272629443443432273551883767771451int);
    lemma_pow_mod_step(10int, 1054088698832nat, m, 527044349416nat, 167752059789566870651411361294208475557272629443443432273551883767771451int, 137194816916171131553077110433884314274653142356558354436312868133066867int, 107526296412210559524233244050593884605601545216618266557642603071638744int, 0int, 107526296412210559524233244050593884605601545216618266557642603071638744int);
    lemma_pow_mod_step(10int, 2108177397664nat, m, 1054088698832nat, 107526296412210559524233244050593884605601545216618266557642603071638744int, 56367835229932580086047154168597014232519898160613298689661714536710735int, 39803781989930645690226976985277497739423995810660922780832749435419851int, 0int, 39803781989930645690226976985277497739423995810660922780832749435419851int);
    lemma_pow_mod_step(10int, 4216354795329nat, m, 2108177397664nat, 39803781989930645690226976985277497739423995810660922780832749435419851int, 7724149293450501976092408345664813483993673494594604703240064294265007int, 174227015770727582667657516636793612311935088832566534450721965579765604int, 8int, 101347901535630499499657561616476901288917570713376519066119624154477072int);
    lemma_pow_mod_step(10int, 8432709590658nat, m, 4216354795329nat, 101347901535630499499657561616476901288917570713376519066119624154477072int, 50076215894052381728579089236161477122442964593468196867793781888182424int, 95472194479152369631681104884141258644096820941755951004420845915685880int, 0int, 95472194479152369631681104884141258644096820941755951004420845915685880int);
    lemma_pow_mod_step(10int, 16865419181317nat, m, 8432709590658nat, 95472194479152369631681104884141258644096820941755951004420845915685880int, 44438131712251661972939091032458118129525915131677047499029795580552913int, 121834711183355048266987193099776961931666749880539528671293920024782677int, 5int, 192770701726272153184298428028107605672646675297714770812251680470839915int);
    lemma_pow_mod_step(10int, 33730838362635nat, m, 16865419181317nat, 192770701726272153184298428028107605672646675297714770812251680470839915int, 181169062967001565557612130985467882561839838227821512729236750963353348int, 202936188389619710307649101156903791031190365128742536838925075533959117int, 9int, 183324345703096110002458706223646285752666168973600439768013219741014831int);
    lemma_pow_mod_step(10int, 67461676725271nat, m, 33730838362635nat, 183324345703096110002458706223646285752666168973600439768013219741014831int, 163848424145953279700520835259822692888410531203325545622509596929656174int, 2252947323135353855528064445990036570468087664001071753448255188440007int, 0int, 22529473231353538555280644459900365704680876640010717534482551884400070int);
    lemma_pow_mod_step(10int, 134923353450542nat, m, 67461676725271nat, 22529473231353538555280644459900365704680876640010717534482551884400070int, 2474594574719116149374878754406951897985830277102198426727067766394544int, 138587713718375433030786044897033136278912075016573283670984802329661076int, 0int, 138587713718375433030786044897033136278912075016573283670984802329661076int);
    lemma_pow_mod_step(10int, 269846706901085nat, m, 134923353450542nat, 138587713718375433030786044897033136278912075016573283670984802329661076int, 93637851867504068903618652658224585056673605918929940836980299842432488int, 104203284889466080641020591993369668936564370015881499839961151749288728int, 5int, 16456438787382476924632416964034675721622876651134482498923997715900425int);
}

proof fn lemma_certificate_31_4()
    requires
        pow_mod(10int, 269846706901085nat, 205115282021455665897114700593932402728804164701536103180137503955397371int) == 16456438787382476924632416964034675721622876651134482498923997715900425int,
    ensures
        pow_mod(10int, 1105292111466844561nat, 205115282021455665897114700593932402728804164701536103180137503955397371int) == 77323317663153369940980846966537495767328447924769567454586527332415313int,
{
    let m: int = 205115282021455665897114700593932402728804164701536103180137503955397371int;
    lemma_pow_mod_step(10int, 539693413802170nat, m, 269846706901085nat, 16456438787382476924632416964034675721622876651134482498923997715900425int, 1320303269916955586577146424012682950437712787358026412185297330648336int, 162056365468011541033997047800982534864489279483444952449811122575255969int, 0int, 162056365468011541033997047800982534864489279483444952449811122575255969int);
    lemma_pow_mod_step(10int, 1079386827604340nat, m, 539693413802170nat, 162056365468011541033997047800982534864489279483444952449811122575255969int, 128036611070035301930126851953383475573660859152903806482160800788160808int, 88367623869564145429933384050613130534296806425188794649247877981693193int, 0int, 88367623869564145429933384050613130534296806425188794649247877981693193int);
    lemma_pow_mod_step(10int, 2158773655208680nat, m, 1079386827604340nat, 88367623869564145429933384050613130534296806425188794649247877981693193int, 38070478568905145949891540504524106850070857269469075646192280261601711int, 174691119384606605690295170224956816906073817547644474082426947244033468int, 0int, 174691119384606605690295170224956816906073817547644474082426947244033468int);
    lemma_pow_mod_step(10int, 4317547310417361nat, m, 2158773655208680nat, 174691119384606605690295170224956816906073817547644474082426947244033468int, 148779685702085866838919467936962260476506686626077817805763602993018872int, 196973554392323825680716153842030027716738424781657243544702147841921512int, 9int, 123698005730137263733129233074908652608146765502747506825783942820638781int);
    lemma_pow_mod_step(10int, 8635094620834723nat, m, 4317547310417361nat, 123698005730137263733129233074908652608146765502747506825783942820638781int, 74598033217303237579840483388399400534831383148958956388225654526146243int, 71828812110962928156885654851908059600828799920254284622071812557438808int, 3int, 102942275045262283877512446737283387821875505097934536680305613708195967int);
    lemma_pow_mod_step(10int, 17270189241669446nat, m, 8635094620834723nat, 102942275045262283877512446737283387821875505097934536680305613708195967int, 51664175809123479425254285183374769858117720116161615103683974895326084int, 96253036652994771426008924058166334785057211989774835237314276833739925int, 0int, 96253036652994771426008924058166334785057211989774835237314276833739925int);
    lemma_pow_mod_step(10int, 34540378483338892nat, m, 17270189241669446nat, 96253036652994771426008924058166334785057211989774835237314276833739925int, 45168000032068041581768003685408514557780587052191234012403622403766884int, 118189680834391957087291008084056362581824636734217021529174629068543661int, 0int, 118189680834391957087291008084056362581824636734217021529174629068543661int);
    lemma_pow_mod_step(10int, 69080756966677785nat, m, 34540378483338892nat, 118189680834391957087291008084056362581824636734217021529174629068543661int, 68102193644812187070232789097946445886143359078971206852017406566066359int, 63978478502564447886061657538096919755442183150817944042632257263140732int, 3int, 24438938961277481169272473599171989368009337403571130885910060765215207int);
    lemma_pow_mod_step(10int, 138161513933355570nat, m, 69080756966677785nat, 24438938961277481169272473599171989368009337403571130885910060765215207int, 2911834416562736187784100835608814355638819317860643903228259522852374int, 124307796824835574919094340388195677038237670590122542827098158483344095int, 0int, 124307796824835574919094340388195677038237670590122542827098158483344095int);
    lemma_pow_mod_step(10int, 276323027866711140nat, m, 138161513933355570nat, 124307796824835574919094340388195677038237670590122542827098158483344095int, 75335334350310532578733094293628315095939966666137364895821779577245377int, 55230227617056259100994751979604721093144426862974939619260178563665158int, 0int, 55230227617056259100994751979604721093144426862974939619260178563665158int);
    lemma_pow_mod_step(10int, 552646055733422280nat, m, 276323027866711140nat, 55230227617056259100994751979604721093144426862974939619260178563665158int, 14871529866374195016849361300277500266575412255759590663418036338722808int, 105254364012924779749643006531862913363961249677029429834407998082227196int, 0int, 105254364012924779749643006531862913363961249677029429834407998082227196int);
    lemma_pow_mod_step(10int, 1105292111466844561nat, m, 552646055733422280nat, 105254364012924779749643006531862913363961249677029429834407998082227196int, 54010998276600536332305940503432412278652701494115178826850481773546975int, 151313029181334303122078375112406431486895760083552228971554905502019691int, 7int, 77323317663153369940980846966537495767328447924769567454586527332415313int);
}

proof fn lemma_certificate_31_5()
    requires
        pow_mod(10int, 1105292111466844561nat, 205115282021455665897114700593932402728804164701536103180137503955397371int) == 77323317663153369940980846966537495767328447924769567454586527332415313int,
    ensures
        pow_mod(10int, 4527276488568195324685nat, 205115282021455665897114700593932402728804164701536103180137503955397371int) == 120586840936940835471235704985787069459310486211924953375268549548998304int,
{
    let m: int = 205115282021455665897114700593932402728804164701536103180137503955397371int;
    lemma_pow_mod_step(10int, 2210584222933689123nat, m, 1105292111466844561nat, 77323317663153369940980846966537495767328447924769567454586527332415313int, 29148951728577277617775844747320897119986587685180341030320310829772231int, 106661427341508658409226598776916852070519868088837439421329431290683268int, 5int, 41037863307808254606692484799506507061177857380693878312606793129845825int);
    lemma_pow_mod_step(10int, 4421168445867378246nat, m, 2210584222933689123nat, 41037863307808254606692484799506507061177857380693878312606793129845825int, 8210535111148824894488910156620238318469239096308737708129214092423752int, 72878664574799539738131722455506659567243494392289624516869328591174633int, 0int, 72878664574799539738131722455506659567243494392289624516869328591174633int);
    lemma_pow_mod_step(10int, 8842336891734756493nat, m, 4421168445867378246nat, 72878664574799539738131722455506659567243494392289624516869328591174633int, 25894217621730221428822581928025450964577851609935098171543573276830521int, 85642513144697583871858336852345525733604096720802561200441896726724398int, 4int, 35964003361153175130124566147725646420824308401881199283868951445654496int);
    lemma_pow_mod_step(10int, 17684673783469512987nat, m, 8842336891734756493nat, 35964003361153175130124566147725646420824308401881199283868951445654496int, 6305768760933875274837914379109801141323140049186536939165912542970419int, 140205731349060404033988118816762129923108699721279029516621701961645567int, 6int, 171365621361870044957192984604026882858262009003573676085391995884071444int);
    lemma_pow_mod_step(10int, 35369347566939025974nat, m, 17684673783469512987nat, 171365621361870044957192984604026882858262009003573676085391995884071444int, 143169128576524210868917888011534379304741363416992441755036581850424297int, 21642691186718171717540031848654732168464513442763842772131798507921949int, 0int, 21642691186718171717540031848654732168464513442763842772131798507921949int);
    lemma_pow_mod_step(10int, 70738695133878051948nat, m, 35369347566939025974nat, 21642691186718171717540031848654732168464513442763842772131798507921949int, 2283623517406429818206942636722510934449916554079879364599712516620102int, 30777824050497313440727294544558209876501735453074282728433365019406759int, 0int, 30777824050497313440727294544558209876501735453074282728433365019406759int);
    lemma_pow_mod_step(10int, 141477390267756103896nat, m, 70738695133878051948nat, 30777824050497313440727294544558209876501735453074282728433365019406759int, 4618253910424300519563186899862855651216130953033944348874178945787474int, 20458470580061408431743956879493717361330524935922515214978366110553227int, 0int, 20458470580061408431743956879493717361330524935922515214978366110553227int);
    lemma_pow_mod_step(10int, 282954780535512207792nat, m, 141477390267756103896nat, 20458470580061408431743956879493717361330524935922515214978366110553227int, 2040555020329771015440592419031554879560070615763944351160420351499209int, 162445408707804314550027326186404775632513944252293926986383812812933990int, 0int, 162445408707804314550027326186404775632513944252293926986383812812933990int);
    lemma_pow_mod_step(10int, 565909561071024415585nat, m, 282954780535512207792nat, 162445408707804314550027326186404775632513944252293926986383812812933990int, 128652095300657653824795597950867983178653685224677539430484316793766053int, 59795733708058045240628614466837188990243850093435685306920536872073437int, 2int, 187726773037669120612056743480507084444830171531284646708930360809939628int);
    lemma_pow_mod_step(10int, 1131819122142048831171nat, m, 565909561071024415585nat, 187726773037669120612056743480507084444830171531284646708930360809939628int, 171812363115148998259061786115671007742498809642013021958799195434877099int, 149766111724905013700550675009268748435426874977159582407473781912071655int, 7int, 61854143098860475725703845935160665252639596860843101813775291432934953int);
    lemma_pow_mod_step(10int, 2263638244284097662342nat, m, 1131819122142048831171nat, 61854143098860475725703845935160665252639596860843101813775291432934953int, 18652608332196841786071645769936629856886722638953424879015574432241468int, 181343582080299949178574918303259469850801021877465424291532599364731581int, 0int, 181343582080299949178574918303259469850801021877465424291532599364731581int);
    lemma_pow_mod_step(10int, 4527276488568195324685nat, m, 2263638244284097662342nat, 181343582080299949178574918303259469850801021877465424291532599364731581int, 160326887580587801883607036113991043053221608542007300479107825621722548int, 135127853306567483085392390854938148583213547442114157245609357328138253int, 6int, 120586840936940835471235704985787069459310486211924953375268549548998304int);
}

proof fn lemma_certificate_31_6()
    requires
        pow_mod(10int, 4527276488568195324685nat, 205115282021455665897114700593932402728804164701536103180137503955397371int) == 120586840936940835471235704985787069459310486211924953375268549548998304int,
    ensures
        pow_mod(10int, 18543724497175328049911482nat, 205115282021455665897114700593932402728804164701536103180137503955397371int) == 121747549410103492149598445794007712996476960034120395241522709154419170int,
{
    let m: int = 205115282021455665897114700593932402728804164701536103180137503955397371int;
    lemma_pow_mod_step(10int, 9054552977136390649370nat, m, 4527276488568195324685nat, 120586840936940835471235704985787069459310486211924953375268549548998304int, 70892749013357371262917283285879768132579269626368137027461238723194798int, 196171121077843703189313137593366801862774619159288783817627829064800358int, 0int, 196171121077843703189313137593366801862774619159288783817627829064800358int);
    lemma_pow_mod_step(10int, 18109105954272781298741nat, m, 9054552977136390649370nat, 196171121077843703189313137593366801862774619159288783817627829064800358int, 187616975028279789060784002970917273072782556092393046958854282741767221int, 156932359538030889150823005919383568952780745238180390162360412559552173int, 7int, 133516621230119230228427155036308870426178299471051179362641597907740133int);
    lemma_pow_mod_step(10int, 36218211908545562597483nat, m, 18109105954272781298741nat, 133516621230119230228427155036308870426178299471051179362641597907740133int, 86910580084629680484635556245405104814926969914421659109075958784951487int, 78856005138505481713590530460397154966390263098456077701452985016517012int, 3int, 173214205320687819444561202822174341477490136879952467474117338298978007int);
    lemma_pow_mod_step(10int, 72436423817091125194966nat, m, 36218211908545562597483nat, 173214205320687819444561202822174341477490136879952467474117338298978007int, 146274624831410548043799855561547175949074266397081613381725538020935651int, 85553946064423142682293198629920959334026583388424134324576663744118528int, 0int, 85553946064423142682293198629920959334026583388424134324576663744118528int);
    lemma_pow_mod_step(10int, 144872847634182250389933nat, m, 72436423817091125194966nat, 85553946064423142682293198629920959334026583388424134324576663744118528int, 35684701866478115968206876169235981238789933118430655715486612168553291int, 93345146163013225192850875727286103769888636532452479728431715618088823int, 4int, 112990333544309588340049954897131426783669706518380384563767140359298746int);
    lemma_pow_mod_step(10int, 289745695268364500779866nat, m, 144872847634182250389933nat, 112990333544309588340049954897131426783669706518380384563767140359298746int, 62242146702257347529963262534127908185026481331844579010015508938139475int, 108330106098848652610214452323603092438307873893171029604152087830852291int, 0int, 108330106098848652610214452323603092438307873893171029604152087830852291int);
    lemma_pow_mod_step(10int, 579491390536729001559733nat, m, 289745695268364500779866nat, 108330106098848652610214452323603092438307873893171029604152087830852291int, 57213737424792401403338047479039342161802045078850391133030426812453838int, 150338726638397921680054364900891693717883665951580760163365342575888783int, 7int, 67580292233789555520740744851390118077207506605054879372690898071106233int);
    lemma_pow_mod_step(10int, 1158982781073458003119467nat, m, 579491390536729001559733nat, 67580292233789555520740744851390118077207506605054879372690898071106233int, 22265995265660728080975191286594452000322151935540803713497035125466720int, 192299904727473849403675784913494268483260484471470178439824844935457169int, 9int, 76961509081637500962725543789551060273367362400876855777010913755995351int);
    lemma_pow_mod_step(10int, 2317965562146916006238935nat, m, 1158982781073458003119467nat, 76961509081637500962725543789551060273367362400876855777010913755995351int, 28876804408476012378544825080700003958800712506932199983394200375933136int, 157354787717395904453919135996860881308106704425136728270246758927427745int, 7int, 137740903023769383259388455811081993979437891340614560441505061586495853int);
    lemma_pow_mod_step(10int, 4635931124293832012477870nat, m, 2317965562146916006238935nat, 137740903023769383259388455811081993979437891340614560441505061586495853int, 92497039610236628053964600184698835928998848872362491656167954383078614int, 167855176269449984493125980427408743973755834282635627523299374884273815int, 0int, 167855176269449984493125980427408743973755834282635627523299374884273815int);
    lemma_pow_mod_step(10int, 9271862248587664024955741nat, m, 4635931124293832012477870nat, 167855176269449984493125980427408743973755834282635627523299374884273815int, 137363534899856457803700766781699772494012603263278366687466099042023855int, 85677236659168698963807454406950254005978854715988730467614525308369020int, 4int, 36311238505864326049615741693772929144571888353742891955595237262100716int);
    lemma_pow_mod_step(10int, 18543724497175328049911482nat, m, 9271862248587664024955741nat, 36311238505864326049615741693772929144571888353742891955595237262100716int, 6428121926536144183013304598737651725816581031108327711153980854577066int, 121747549410103492149598445794007712996476960034120395241522709154419170int, 0int, 121747549410103492149598445794007712996476960034120395241522709154419170int);
}

proof fn lemma_certificate_31_7()
    requires
        pow_mod(10int, 18543724497175328049911482nat, 205115282021455665897114700593932402728804164701536103180137503955397371int) == 121747549410103492149598445794007712996476960034120395241522709154419170int,
    ensures
        pow_mod(10int, 75955095540430143692437430666nat, 205115282021455665897114700593932402728804164701536103180137503955397371int) == 57525318546124245764698385055272377332225040347971069810408275041955451int,
{
    let m: int = 205115282021455665897114700593932402728804164701536103180137503955397371int;
    lemma_pow_mod_step(10int, 37087448994350656099822964nat, m, 18543724497175328049911482nat, 121747549410103492149598445794007712996476960034120395241522709154419170int, 72264073360536429289092765447368188270298309447806219812276813219537673int, 125225136348784282075123378003814296871022502606863846440853482443831217int, 0int, 125225136348784282075123378003814296871022502606863846440853482443831217int);
    lemma_pow_mod_step(10int, 74174897988701312199645928nat, m, 37087448994350656099822964nat, 125225136348784282075123378003814296871022502606863846440853482443831217int, 76451323465656256577793574981332020238323361660097711130816283308166607int, 121618160921222113359740486514165161559788645635929015816905457025910892int, 0int, 121618160921222113359740486514165161559788645635929015816905457025910892int);
    lemma_pow_mod_step(10int, 148349795977402624399291856nat, m, 74174897988701312199645928nat, 121618160921222113359740486514165161559788645635929015816905457025910892int, 72110556171592800208925810756834059588642367332791989310362090837230860int, 129331935281401766087931478660566917279480839191378535942850529760166604int, 0int, 129331935281401766087931478660566917279480839191378535942850529760166604int);
    lemma_pow_mod_step(10int, 296699591954805248798583713nat, m, 148349795977402624399291856nat, 129331935281401766087931478660566917279480839191378535942850529760166604int, 81548041271166852366698809648335796221860510777966744200489262014868707int, 12474484303206786448559033750558904053862477590240134402365951258923519int, 0int, 124744843032067864485590337505589040538624775902401344023659512589235190int);
    lemma_pow_mod_step(10int, 593399183909610497597167427nat, m, 296699591954805248798583713nat, 124744843032067864485590337505589040538624775902401344023659512589235190int, 75865999401582837236465723688321003778369518039412569236655434337643080int, 187691081776753188502367842540364734370760581718014096308976104165993420int, 9int, 30873279574430891949646120058255719148368334866316034468523506061357861int);
    lemma_pow_mod_step(10int, 1186798367819220995194334854nat, m, 593399183909610497597167427nat, 30873279574430891949646120058255719148368334866316034468523506061357861int, 4646944792642356222966046535038575553020486232223802729801492639728001int, 185925510264226822846010972717904720979388959341525231197332633796009950int, 0int, 185925510264226822846010972717904720979388959341525231197332633796009950int);
    lemma_pow_mod_step(10int, 2373596735638441990388669708nat, m, 1186798367819220995194334854nat, 185925510264226822846010972717904720979388959341525231197332633796009950int, 168531057395309860899116561217618207585745878955778243452921700601663931int, 158084347803665484084633096887742110217862752740749482089845409596077099int, 0int, 158084347803665484084633096887742110217862752740749482089845409596077099int);
    lemma_pow_mod_step(10int, 4747193471276883980777339416nat, m, 2373596735638441990388669708nat, 158084347803665484084633096887742110217862752740749482089845409596077099int, 121837148233041841394582474761248432643785356510276406521644039687975008int, 35629103332837527355873494005295413506398653146067787682448882995351833int, 0int, 35629103332837527355873494005295413506398653146067787682448882995351833int);
    lemma_pow_mod_step(10int, 9494386942553767961554678833nat, m, 4747193471276883980777339416nat, 35629103332837527355873494005295413506398653146067787682448882995351833int, 6188875796047355205242857175006526440153615993258774930382353394641760int, 36974508449784176904029532313062814028168818308606929561767740465646929int, 1int, 164629802476386103143180622536695737552884018384533192437539900701071919int);
    lemma_pow_mod_step(10int, 18988773885107535923109357666nat, m, 9494386942553767961554678833nat, 164629802476386103143180622536695737552884018384533192437539900701071919int, 132135312378035551653223532065164146450878872800848804422581408776618912int, 51633507619442497939012459232056283203972371229124968586723264816662209int, 0int, 51633507619442497939012459232056283203972371229124968586723264816662209int);
    lemma_pow_mod_step(10int, 37977547770215071846218715333nat, m, 18988773885107535923109357666nat, 51633507619442497939012459232056283203972371229124968586723264816662209int, 12997662011395879303677866352834457309556531599159208093466281230791942int, 120295066345116904727868236592383687892917926151959493857351423973975199int, 5int, 177374253343890717793108862954174865285158438011914422672826719962765135int);
    lemma_pow_mod_step(10int, 75955095540430143692437430666nat, m, 37977547770215071846218715333nat, 177374253343890717793108862954174865285158438011914422672826719962765135int, 153385088810748622150499362365943779141136455807526037288340049092406994int, 57525318546124245764698385055272377332225040347971069810408275041955451int, 0int, 57525318546124245764698385055272377332225040347971069810408275041955451int);
}

proof fn lemma_certificate_31_8()
    requires
        pow_mod(10int, 75955095540430143692437430666nat, 205115282021455665897114700593932402728804164701536103180137503955397371int) == 57525318546124245764698385055272377332225040347971069810408275041955451int,
    ensures
        pow_mod(10int, 311112071333601868564223716010970nat, 205115282021455665897114700593932402728804164701536103180137503955397371int) == 42885917622143309752120013754169158604858250805901598501818252085930009int,
{
    let m: int = 205115282021455665897114700593932402728804164701536103180137503955397371int;
    lemma_pow_mod_step(10int, 151910191080860287384874861333nat, m, 75955095540430143692437430666nat, 57525318546124245764698385055272377332225040347971069810408275041955451int, 16133182477778120576116580593213452706457879320526119578079804163230886int, 40470159994628997166435949666432294117712062434072204003011008518212695int, 1int, 199586317924834305767244796070390538448316459639185936849972581226729579int);
    lemma_pow_mod_step(10int, 303820382161720574769749722666nat, m, 151910191080860287384874861333nat, 199586317924834305767244796070390538448316459639185936849972581226729579int, 194206389256877546057296788682729456203594490955238112659988489351108634int, 151507011459034106575183424320052419436114747360412378727941513134516027int, 0int, 151507011459034106575183424320052419436114747360412378727941513134516027int);
    lemma_pow_mod_step(10int, 607640764323441149539499445333nat, m, 303820382161720574769749722666nat, 151507011459034106575183424320052419436114747360412378727941513134516027int, 111909626113800709060120421330727090428649695900088766452423723280255216int, 174969603388502660567028114877269485734173385861923167839399285944427593int, 8int, 108773777713381278493363544021235635511300541006942852952892827801096962int);
    lemma_pow_mod_step(10int, 1215281528646882299078998890667nat, m, 607640764323441149539499445333nat, 108773777713381278493363544021235635511300541006942852952892827801096962int, 57683340809303751566902116747976279537463138488288680772682775570803041int, 153655975050991189550875675808179652234184032898999820376464617795424233int, 7int, 100752776359722234228953853924269703240211176079245481503683650266460733int);
    lemma_pow_mod_step(10int, 2430563057293764598157997781335nat, m, 1215281528646882299078998890667nat, 100752776359722234228953853924269703240211176079245481503683650266460733int, 49489837344885721820592131177443369116504030078825414072603424498585849int, 60873611370985817145282147141862868929541706964359031467691261878494310int, 2int, 198505549666946839658592070230763883837808740240518108316637610874148358int);
    lemma_pow_mod_step(10int, 4861126114587529196315995562671nat, m, 2430563057293764598157997781335nat, 198505549666946839658592070230763883837808740240518108316637610874148358int, 192108812469930329564909660715044384440115354361848961490968219172624199int, 82439078529104601645182314846539908962790641563400899481912059898515335int, 4int, 3929657205223352863364346089669478712689756827864582098570583163563866int);
    lemma_pow_mod_step(10int, 9722252229175058392631991125342nat, m, 4861126114587529196315995562671nat, 3929657205223352863364346089669478712689756827864582098570583163563866int, 75285496031195335084102465432686775087070833021244032404597804855153int, 50851594774451889776707960767415327963561804592909645196286951048863193int, 0int, 50851594774451889776707960767415327963561804592909645196286951048863193int);
    lemma_pow_mod_step(10int, 19444504458350116785263982250685nat, m, 9722252229175058392631991125342nat, 50851594774451889776707960767415327963561804592909645196286951048863193int, 12606982110843264942835329021741760277231447484239693404239399030588768int, 24388457939364775436778988683907689286813021916313437966765936100826321int, 1int, 38769297372192088470675186245144490139326054461598276487521857052865839int);
    lemma_pow_mod_step(10int, 38889008916700233570527964501371nat, m, 19444504458350116785263982250685nat, 38769297372192088470675186245144490139326054461598276487521857052865839int, 7327871448292360853615714383678287161054047543231084952120566274933997int, 91041025888275175492497010537672340875657005777622118401588148000852034int, 4int, 89949130796929091336511303000993797841353398970076771295331464186930856int);
    lemma_pow_mod_step(10int, 77778017833400467141055929002742nat, m, 38889008916700233570527964501371nat, 89949130796929091336511303000993797841353398970076771295331464186930856int, 39445359952637419992822464905801730409368768747121088785077464643376400int, 110056027524527526124502923993733405925582325511769970836693047801448336int, 0int, 110056027524527526124502923993733405925582325511769970836693047801448336int);
    lemma_pow_mod_step(10int, 155556035666800934282111858005485nat, m, 77778017833400467141055929002742nat, 110056027524527526124502923993733405925582325511769970836693047801448336int, 59051325065153238697018592319754359126884323391263319410818321252028866int, 64313815663044305323003197230563182565257759173845945476175614284657610int, 3int, 27792310566076055538687870523834617466165097633851145221343630980383987int);
    lemma_pow_mod_step(10int, 311112071333601868564223716010970nat, m, 155556035666800934282111858005485nat, 27792310566076055538687870523834617466165097633851145221343630980383987int, 3765748309872036355973332418359931099227542419454449446507815321910960int, 42885917622143309752120013754169158604858250805901598501818252085930009int, 0int, 42885917622143309752120013754169158604858250805901598501818252085930009int);
}

proof fn lemma_certificate_31_9()
    requires
        pow_mod(10int, 311112071333601868564223716010970nat, 205115282021455665897114700593932402728804164701536103180137503955397371int) == 42885917622143309752120013754169158604858250805901598501818252085930009int,
    ensures
        pow_mod(10int, 1274315044182433253639060340780933678nat, 205115282021455665897114700593932402728804164701536103180137503955397371int) == 34646339166817849670411686009384877926941529108587389490560426853609499int,
{
    let m: int = 205115282021455665897114700593932402728804164701536103180137503955397371int;
    lemma_pow_mod_step(10int, 622224142667203737128447432021940nat, m, 311112071333601868564223716010970nat, 42885917622143309752120013754169158604858250805901598501818252085930009int, 8966674311965093400919551965498862709785225773087096241346515295753636int, 2266194974865179677806906191856970462666810091431445123047283148649125int, 0int, 2266194974865179677806906191856970462666810091431445123047283148649125int);
    lemma_pow_mod_step(10int, 1244448285334407474256894864043880nat, m, 622224142667203737128447432021940nat, 2266194974865179677806906191856970462666810091431445123047283148649125int, 25037820748855705616684094587146009515294544375091700354612635096105int, 162049562884460400078060997984812127867800368535086726231296313925670int, 0int, 162049562884460400078060997984812127867800368535086726231296313925670int);
    lemma_pow_mod_step(10int, 2488896570668814948513789728087761nat, m, 1244448285334407474256894864043880nat, 162049562884460400078060997984812127867800368535086726231296313925670int, 128025862199276821971371058554381372843952455159817970945416603301int, 83766718743617096032971283403512673974372970728073652252981269759627229int, 4int, 17206059350348296741254031659397128828513048474592109809262681774682806int);
    lemma_pow_mod_step(10int, 4977793141337629897027579456175522nat, m, 2488896570668814948513789728087761nat, 17206059350348296741254031659397128828513048474592109809262681774682806int, 1443327261869939577647361415991158372607920850840391017419877782602572int, 49241410205323197774538340106009584187152878960672152018361699085395424int, 0int, 49241410205323197774538340106009584187152878960672152018361699085395424int);
    lemma_pow_mod_step(10int, 9955586282675259794055158912351044nat, m, 4977793141337629897027579456175522nat, 49241410205323197774538340106009584187152878960672152018361699085395424int, 11821237574854491078414035889250992756859025813486186305028187152401477int, 103980337281800288382256217174823127125877163498452959543630851977822809int, 0int, 103980337281800288382256217174823127125877163498452959543630851977822809int);
    lemma_pow_mod_step(10int, 19911172565350519588110317824702088nat, m, 9955586282675259794055158912351044nat, 103980337281800288382256217174823127125877163498452959543630851977822809int, 52711384713431489348483112758490436789515165257374793685395065773702933int, 196856791179670645701292822040909504417950901807437600172934201677461338int, 0int, 196856791179670645701292822040909504417950901807437600172934201677461338int);
    lemma_pow_mod_step(10int, 39822345130701039176220635649404177nat, m, 19911172565350519588110317824702088nat, 196856791179670645701292822040909504417950901807437600172934201677461338int, 188930809307045284950669778593796555064437010231434380919506719023458819int, 5929998129399513428533650817348976797009152896478362799958540485385395int, 0int, 59299981293995134285336508173489767970091528964783627999585404853853950int);
    lemma_pow_mod_step(10int, 79644690261402078352441271298808354nat, m, 39822345130701039176220635649404177nat, 59299981293995134285336508173489767970091528964783627999585404853853950int, 17143958006504546090901310289195847111415759501367049355669412450328880int, 113808424772257382340573663140472067317029298959128611292412647893228020int, 0int, 113808424772257382340573663140472067317029298959128611292412647893228020int);
    lemma_pow_mod_step(10int, 159289380522804156704882542597616709nat, m, 79644690261402078352441271298808354nat, 113808424772257382340573663140472067317029298959128611292412647893228020int, 63146721304693976213152052890269873936892458745529557683796434960937428int, 127886576558421715004141561900777820953195167671669171123379785306418612int, 6int, 48174073455483154658727415444183793159126688507475092152972829331801894int);
    lemma_pow_mod_step(10int, 318578761045608313409765085195233419nat, m, 159289380522804156704882542597616709nat, 48174073455483154658727415444183793159126688507475092152972829331801894int, 11314326901549589441191263421522152777327155124116173710591439983663514int, 200080451332636262865006357993093213593407820892269261075906802637765542int, 9int, 154766975133261635576031274585540511374840726608867682137830490779079081int);
    lemma_pow_mod_step(10int, 637157522091216626819530170390466839nat, m, 318578761045608313409765085195233419nat, 154766975133261635576031274585540511374840726608867682137830490779079081int, 116777337874776633733572632367265427678416444701472454832563656503671895int, 74001642951671052918169483402253278948504034718728374462590229122216516int, 3int, 124670583452343531490350732240735581298627853082675435085489779355973047int);
    lemma_pow_mod_step(10int, 1274315044182433253639060340780933678nat, m, 637157522091216626819530170390466839nat, 124670583452343531490350732240735581298627853082675435085489779355973047int, 75775701474656260107507315614200473350942833009672501569218415465811010int, 34646339166817849670411686009384877926941529108587389490560426853609499int, 0int, 34646339166817849670411686009384877926941529108587389490560426853609499int);
}

proof fn lemma_certificate_31_10()
    requires
        pow_mod(10int, 1274315044182433253639060340780933678nat, 205115282021455665897114700593932402728804164701536103180137503955397371int) == 34646339166817849670411686009384877926941529108587389490560426853609499int,
    ensures
        pow_mod(10int, 5219594420971246606905591155838704347674nat, 205115282021455665897114700593932402728804164701536103180137503955397371int) == 184985265801940713824437702014001293040772907176854762848521437160654206int,
{
    let m: int = 205115282021455665897114700593932402728804164701536103180137503955397371int;
    lemma_pow_mod_step(10int, 2548630088364866507278120681561867357nat, m, 1274315044182433253639060340780933678nat, 34646339166817849670411686009384877926941529108587389490560426853609499int, 5852166673454464678904665498101116889652033004290034729341420888414007int, 11211397883851379254585804486154808977038672222194625733422577135655404int, 0int, 112113978838513792545858044861548089770386722221946257334225771356554040int);
    lemma_pow_mod_step(10int, 5097260176729733014556241363123734714nat, m, 2548630088364866507278120681561867357nat, 112113978838513792545858044861548089770386722221946257334225771356554040int, 61280388897049157620790156449677057557882312586250658293142200985439950int, 85378091076381241461153327726025649460213519378096550871372675931950150int, 0int, 85378091076381241461153327726025649460213519378096550871372675931950150int);
    lemma_pow_mod_step(10int, 10194520353459466029112482726247469429nat, m, 5097260176729733014556241363123734714nat, 85378091076381241461153327726025649460213519378096550871372675931950150int, 35538153783609138494026677390755365174667352791527470664149864479566934int, 56528719181791921697351907511979929026935562576808227726923248122891986int, 2int, 155056627775007885179289673931934484811747296365010070908957473318125118int);
    lemma_pow_mod_step(10int, 20389040706918932058224965452494938858nat, m, 10194520353459466029112482726247469429nat, 155056627775007885179289673931934484811747296365010070908957473318125118int, 117214853910506892438965965716093354959731116524380255322821989690021447int, 59911266393223054119452176360864054560917210089960522081554782305098087int, 0int, 59911266393223054119452176360864054560917210089960522081554782305098087int);
    lemma_pow_mod_step(10int, 40778081413837864116449930904989877716nat, m, 20389040706918932058224965452494938858nat, 59911266393223054119452176360864054560917210089960522081554782305098087int, 17499231678233903954780746628914149311273350272379203112831486880584809int, 182402845319337313645670633685394429868217411709895415436165266229922430int, 0int, 182402845319337313645670633685394429868217411709895415436165266229922430int);
    lemma_pow_mod_step(10int, 81556162827675728232899861809979755432nat, m, 40778081413837864116449930904989877716nat, 182402845319337313645670633685394429868217411709895415436165266229922430int, 162205359116586301733015812583827212454587049890018539978883426101398435int, 118597501000471110833197386367001370898231970907462647031740434594590515int, 0int, 118597501000471110833197386367001370898231970907462647031740434594590515int);
    lemma_pow_mod_step(10int, 163112325655351456465799723619959510864nat, m, 81556162827675728232899861809979755432nat, 118597501000471110833197386367001370898231970907462647031740434594590515int, 68572985420391382979816504870586223469647704729488421301990546185925919int, 109185322467525600376271674705118155900478727965885197665776943314606276int, 0int, 109185322467525600376271674705118155900478727965885197665776943314606276int);
    lemma_pow_mod_step(10int, 326224651310702912931599447239919021729nat, m, 163112325655351456465799723619959510864nat, 109185322467525600376271674705118155900478727965885197665776943314606276int, 58120655491142455652300044062518849044101378701022750740625808077546881int, 135260560454277591677263149488336098292611964502959734025948647661938325int, 6int, 121913912414041921389943291319766566553294656820380721178661452886999024int);
    lemma_pow_mod_step(10int, 652449302621405825863198894479838043459nat, m, 326224651310702912931599447239919021729nat, 121913912414041921389943291319766566553294656820380721178661452886999024int, 72461700043119999621761562694178828492899157648851644181503487177820933int, 85955176104018381510727366594263110934907088063840822558840336679985433int, 4int, 39090632954361151518814863566901498433854221832263812867853350978264846int);
    lemma_pow_mod_step(10int, 1304898605242811651726397788959676086918nat, m, 652449302621405825863198894479838043459nat, 39090632954361151518814863566901498433854221832263812867853350978264846int, 7449847567246328377689593016545118873561061520038641023404304795460780int, 56720798413907504178783834946887805039485345391290459618372046973794336int, 0int, 56720798413907504178783834946887805039485345391290459618372046973794336int);
    lemma_pow_mod_step(10int, 2609797210485623303452795577919352173837nat, m, 1304898605242811651726397788959676086918nat, 56720798413907504178783834946887805039485345391290459618372046973794336int, 15685076904092393623370164070206467228402979869022984942441378431965989int, 52578247287066323709083644368815639727430582549846601904436445573665977int, 2int, 115551908827751905296607042500291591816697496095393812684089447825865028int);
    lemma_pow_mod_step(10int, 5219594420971246606905591155838704347674nat, m, 2609797210485623303452795577919352173837nat, 115551908827751905296607042500291591816697496095393812684089447825865028int, 65096288790127322044520560586943995135408751049590320596346392998000918int, 184985265801940713824437702014001293040772907176854762848521437160654206int, 0int, 184985265801940713824437702014001293040772907176854762848521437160654206int);
}

proof fn lemma_certificate_31_11()
    requires
        pow_mod(10int, 5219594420971246606905591155838704347674nat, 205115282021455665897114700593932402728804164701536103180137503955397371int) == 184985265801940713824437702014001293040772907176854762848521437160654206int,
    ensures
        pow_mod(10int, 21379458748298226101885301374315333008074929nat, 205115282021455665897114700593932402728804164701536103180137503955397371int) == 196410316884735287924940871124027996724134262078631009166021413565625235int,
{
    let m: int = 205115282021455665897114700593932402728804164701536103180137503955397371int;
    lemma_pow_mod_step(10int, 10439188841942493213811182311677408695349nat, m, 5219594420971246606905591155838704347674nat, 184985265801940713824437702014001293040772907176854762848521437160654206int, 166830809613859929036854125010690369710675063901785719723586062405142155int, 147880909372606763978066863959696195902833847157796570620384101137215931int, 7int, 43002119575877978500865735439435139926709318667212983942878483684377713int);
    lemma_pow_mod_step(10int, 20878377683884986427622364623354817390698nat, m, 10439188841942493213811182311677408695349nat, 43002119575877978500865735439435139926709318667212983942878483684377713int, 9015331621291280043993342918188554331996819381133595913102829345051434int, 76861838539231303972443625233707565512753437235317906797018518147730355int, 0int, 76861838539231303972443625233707565512753437235317906797018518147730355int);
    lemma_pow_mod_step(10int, 41756755367769972855244729246709634781396nat, m, 20878377683884986427622364623354817390698nat, 76861838539231303972443625233707565512753437235317906797018518147730355int, 28802057874034442839774323725564306334432983249694277344674547203341610int, 80461766280767129650357381775354689316202645786018897103164231179518715int, 0int, 80461766280767129650357381775354689316202645786018897103164231179518715int);
    lemma_pow_mod_step(10int, 83513510735539945710489458493419269562792nat, m, 41756755367769972855244729246709634781396nat, 80461766280767129650357381775354689316202645786018897103164231179518715int, 31563205672523145574867717105409014159412747732216974101324453232677507int, 98616710044550189138214467070163805947529783732485396046635736556617128int, 0int, 98616710044550189138214467070163805947529783732485396046635736556617128int);
    lemma_pow_mod_step(10int, 167027021471079891420978916986838539125585nat, m, 83513510735539945710489458493419269562792nat, 98616710044550189138214467070163805947529783732485396046635736556617128int, 47413607626727664509881097791095316998697840892917633460378126645781825int, 100507997595943010132628809895130203479138979174999797877227064338386309int, 4int, 184618847873607437737829296575572423876173132943853566051720627562273606int);
    lemma_pow_mod_step(10int, 334054042942159782841957833973677078251170nat, m, 167027021471079891420978916986838539125585nat, 184618847873607437737829296575572423876173132943853566051720627562273606int, 166170548845857841819790475860166076510957498088959171754366807614462565int, 61856161024288296622689294829939469467172330317299034301298020825326621int, 0int, 61856161024288296622689294829939469467172330317299034301298020825326621int);
    lemma_pow_mod_step(10int, 668108085884319565683915667947354156502341nat, m, 334054042942159782841957833973677078251170nat, 61856161024288296622689294829939469467172330317299034301298020825326621int, 18653825394942792842858805904426830837620585015921653834780907393796966int, 111487623166690606810166099836008588077614414182249113773100890307101255int, 5int, 89299821559627738616087495390423867132123318314810621830321383294025695int);
    lemma_pow_mod_step(10int, 1336216171768639131367831335894708313004683nat, m, 668108085884319565683915667947354156502341nat, 89299821559627738616087495390423867132123318314810621830321383294025695int, 38877932701997324355683276529473976191481393753801125249600308318279065int, 143271921221688131794533444157574940959406822285739054111975534374894910int, 6int, 202027520088147322562646238012154993221243234648173922038930320016564874int);
    lemma_pow_mod_step(10int, 2672432343537278262735662671789416626009366nat, m, 1336216171768639131367831335894708313004683nat, 202027520088147322562646238012154993221243234648173922038930320016564874int, 198986240667808396908337252577546042322875011126013675561734809504291545int, 94375815350886704087113367377632418314330841983462540791535664740107681int, 0int, 94375815350886704087113367377632418314330841983462540791535664740107681int);
    lemma_pow_mod_step(10int, 5344864687074556525471325343578833252018732nat, m, 2672432343537278262735662671789416626009366nat, 94375815350886704087113367377632418314330841983462540791535664740107681int, 43423358978259773850120887205108821558745675259496250979774213886770038int, 21528930544996329778529010965087544992145971135638574469882847488427663int, 0int, 21528930544996329778529010965087544992145971135638574469882847488427663int);
    lemma_pow_mod_step(10int, 10689729374149113050942650687157666504037464nat, m, 5344864687074556525471325343578833252018732nat, 21528930544996329778529010965087544992145971135638574469882847488427663int, 2259679755908158180342181875050163147060495289568955767585574000752761int, 37319643773005686730401324991042321051655663065463845021813781103250238int, 0int, 37319643773005686730401324991042321051655663065463845021813781103250238int);
    lemma_pow_mod_step(10int, 21379458748298226101885301374315333008074929nat, m, 10689729374149113050942650687157666504037464nat, 37319643773005686730401324991042321051655663065463845021813781103250238int, 6790112358368089545222699774148748439398355017701247358203727090435985int, 122198672699201361741051437409369001036815508558631152506670893334261209int, 5int, 196410316884735287924940871124027996724134262078631009166021413565625235int);
}

proof fn lemma_certificate_31_12()
    requires
        pow_mod(10int, 21379458748298226101885301374315333008074929nat, 205115282021455665897114700593932402728804164701536103180137503955397371int) == 196410316884735287924940871124027996724134262078631009166021413565625235int,
    ensures
        pow_mod(10int, 87570263033029534113322194429195604001074910088nat, 205115282021455665897114700593932402728804164701536103180137503955397371int) == 158349779996379459743879426252073339596743835036038344580700790580290596int,
{
    let m: int = 205115282021455665897114700593932402728804164701536103180137503955397371int;
    lemma_pow_mod_step(10int, 42758917496596452203770602748630666016149858nat, m, 21379458748298226101885301374315333008074929nat, 196410316884735287924940871124027996724134262078631009166021413565625235int, 188074785060270945517403908268187554853531448551929788326734848485315625int, 51647394625726252017961857414866039198930732869466173694907761238583350int, 0int, 51647394625726252017961857414866039198930732869466173694907761238583350int);
    lemma_pow_mod_step(10int, 85517834993192904407541205497261332032299716nat, m, 42758917496596452203770602748630666016149858nat, 51647394625726252017961857414866039198930732869466173694907761238583350int, 13004654481797574780870889201344560742403750377885868059038427471222401int, 106570887954030009258370674857273949527136481530444967109895951825514729int, 0int, 106570887954030009258370674857273949527136481530444967109895951825514729int);
    lemma_pow_mod_step(10int, 171035669986385808815082410994522664064599433nat, m, 85517834993192904407541205497261332032299716nat, 106570887954030009258370674857273949527136481530444967109895951825514729int, 55370589881851931713735662875492597659108230274348173146693664811462516int, 15852038819647358056055177945901808799401748539198843983835079344498005int, 0int, 158520388196473580560551779459018087994017485391988439838350793444980050int);
    lemma_pow_mod_step(10int, 342071339972771617630164821989045328129198867nat, m, 171035669986385808815082410994522664064599433nat, 158520388196473580560551779459018087994017485391988439838350793444980050int, 122510196345741526178598270066786488582814214789574710616391160272567672int, 104561950111217521000711575184535673548573835608690244906712731649612188int, 5int, 20043091004896880521542248875694721841717532579221933166439796719135025int);
    lemma_pow_mod_step(10int, 684142679945543235260329643978090656258397735nat, m, 342071339972771617630164821989045328129198867nat, 20043091004896880521542248875694721841717532579221933166439796719135025int, 1958535186025566672519646785693421368657013305861409927909633603707880int, 64541673212173660942951481192796355391067246640827007716885579777767145int, 3int, 30070886057369611738170710146166345724259972303661767628443285911479337int);
    lemma_pow_mod_step(10int, 1368285359891086470520659287956181312516795470nat, m, 684142679945543235260329643978090656258397735nat, 30070886057369611738170710146166345724259972303661767628443285911479337int, 4408536406276729921803284579279620901024019593353035428992672166192783int, 93268317589430319347497437203705145450503015496444647226512362820586076int, 0int, 93268317589430319347497437203705145450503015496444647226512362820586076int);
    lemma_pow_mod_step(10int, 2736570719782172941041318575912362625033590940nat, m, 1368285359891086470520659287956181312516795470nat, 93268317589430319347497437203705145450503015496444647226512362820586076int, 42410194795007512535814447792305848336526876350474388170262077969453021int, 158828969249050914083706677734676074403468964140807539119745534553669985int, 0int, 158828969249050914083706677734676074403468964140807539119745534553669985int);
    lemma_pow_mod_step(10int, 5473141439564345882082637151824725250067181880nat, m, 2736570719782172941041318575912362625033590940nat, 158828969249050914083706677734676074403468964140807539119745534553669985int, 122987625417774476142779646681138688265127196169433159422409256884096373int, 148458403824577819809534017080755614129590040015143219777038486815064842int, 0int, 148458403824577819809534017080755614129590040015143219777038486815064842int);
    lemma_pow_mod_step(10int, 10946282879128691764165274303649450500134363761nat, m, 5473141439564345882082637151824725250067181880nat, 148458403824577819809534017080755614129590040015143219777038486815064842int, 107451270568109028924959029574284804666243096267428193546809513772058146int, 123255420686720015163865664053592284845056214287369815816487036716950798int, 6int, 1862514738466156255968436972328432077737154664481539084045343437123754int);
    lemma_pow_mod_step(10int, 21892565758257383528330548607298901000268727522nat, m, 10946282879128691764165274303649450500134363761nat, 1862514738466156255968436972328432077737154664481539084045343437123754int, 16912251085420299542891381942433454711723869916901322391615133311552int, 61077725153399761921326998980734997979031618611125909238688093006322724int, 0int, 61077725153399761921326998980734997979031618611125909238688093006322724int);
    lemma_pow_mod_step(10int, 43785131516514767056661097214597802000537455044nat, m, 21892565758257383528330548607298901000268727522nat, 61077725153399761921326998980734997979031618611125909238688093006322724int, 18187277286945503289594803108947012886802805887803737950304452123777040int, 92578676469625664823124180333721726069553532067178033745307570232618336int, 0int, 92578676469625664823124180333721726069553532067178033745307570232618336int);
    lemma_pow_mod_step(10int, 87570263033029534113322194429195604001074910088nat, m, 43785131516514767056661097214597802000537455044nat, 92578676469625664823124180333721726069553532067178033745307570232618336int, 41785337749583614663505793625754582210974435565887094887371107846617300int, 158349779996379459743879426252073339596743835036038344580700790580290596int, 0int, 158349779996379459743879426252073339596743835036038344580700790580290596int);
}

proof fn lemma_certificate_31_13()
    requires
        pow_mod(10int, 87570263033029534113322194429195604001074910088nat, 205115282021455665897114700593932402728804164701536103180137503955397371int) == 158349779996379459743879426252073339596743835036038344580700790580290596int,
    ensures
        pow_mod(10int, 358687797383288971728167708381985193988402831722780nat, 205115282021455665897114700593932402728804164701536103180137503955397371int) == 126800186407248989242216257489642753082239186726669759752925275313320870int,
{
    let m: int = 205115282021455665897114700593932402728804164701536103180137503955397371int;
    lemma_pow_mod_step(10int, 175140526066059068226644388858391208002149820177nat, m, 87570263033029534113322194429195604001074910088nat, 158349779996379459743879426252073339596743835036038344580700790580290596int, 122246634077118123047174769535657832609476166391988200554207157387744027int, 191427674356623878002818057283634519780577464005627309405700403789282199int, 9int, 68239205373137786954148267490953573246537157742448165435766502294245651int);
    lemma_pow_mod_step(10int, 350281052132118136453288777716782416004299640354nat, m, 175140526066059068226644388858391208002149820177nat, 68239205373137786954148267490953573246537157742448165435766502294245651int, 22702302354391049221001542410294915118432531352507111308971501078118854int, 10867009415686232702795440939289599895349394298365789075806126395280967int, 0int, 10867009415686232702795440939289599895349394298365789075806126395280967int);
    lemma_pow_mod_step(10int, 700562104264236272906577555433564832008599280708nat, m, 350281052132118136453288777716782416004299640354nat, 10867009415686232702795440939289599895349394298365789075806126395280967int, 575734252839632275353021778523546139140223422046112147840205382241140int, 44821052939091019638314886549208449472408612801074044682088071628412149int, 0int, 44821052939091019638314886549208449472408612801074044682088071628412149int);
    lemma_pow_mod_step(10int, 1401124208528472545813155110867129664017198561417nat, m, 700562104264236272906577555433564832008599280708nat, 44821052939091019638314886549208449472408612801074044682088071628412149int, 9794135116459338407393060389097011262729882647588125454997589075979256int, 101421498978018097324904335717332673696628023173317790533484318577862225int, 4int, 193753861694358309660584554797597126051063572927033492614293169957032766int);
    lemma_pow_mod_step(10int, 2802248417056945091626310221734259328034397122834nat, m, 1401124208528472545813155110867129664017198561417nat, 193753861694358309660584554797597126051063572927033492614293169957032766int, 183021755139383884036017463712846334573769079520145836739654568645653223int, 7668242640243636686332357047782199960389121713816468514544334365734023int, 0int, 7668242640243636686332357047782199960389121713816468514544334365734023int);
    lemma_pow_mod_step(10int, 5604496834113890183252620443468518656068794245668nat, m, 2802248417056945091626310221734259328034397122834nat, 7668242640243636686332357047782199960389121713816468514544334365734023int, 286677543526473285688942288605271408989644248877592657549083738717697int, 55800491807006323406815199704743369468046059937481223438192409954789942int, 0int, 55800491807006323406815199704743369468046059937481223438192409954789942int);
    lemma_pow_mod_step(10int, 11208993668227780366505240886937037312137588491336nat, m, 5604496834113890183252620443468518656068794245668nat, 55800491807006323406815199704743369468046059937481223438192409954789942int, 15180218924780446725438140581912231737773105307380307011815529072634635int, 12509833714871126998262210182469025190578864309747687266338786021818779int, 0int, 12509833714871126998262210182469025190578864309747687266338786021818779int);
    lemma_pow_mod_step(10int, 22417987336455560733010481773874074624275176982673nat, m, 11208993668227780366505240886937037312137588491336nat, 12509833714871126998262210182469025190578864309747687266338786021818779int, 762965772376513627481870191634728270343961607743581425708670145116722int, 36065855001473917939198633752763737024987529182751681009024776430112979int, 1int, 155543267993283513494871636933704967521071127125980706910110260345732419int);
    lemma_pow_mod_step(10int, 44835974672911121466020963547748149248550353965347nat, m, 22417987336455560733010481773874074624275176982673nat, 155543267993283513494871636933704967521071127125980706910110260345732419int, 117951758540836961898551465645186139733035427820938804160805537070368817int, 104693136489973174235414151090167223968390183637544675269851424785411454int, 5int, 21354954792453412868568007932010226039881012867766236797826728077127685int);
    lemma_pow_mod_step(10int, 89671949345822242932041927095496298497100707930695nat, m, 44835974672911121466020963547748149248550353965347nat, 21354954792453412868568007932010226039881012867766236797826728077127685int, 2223306277783955996032889590411638111721372037973672567099390924747994int, 161883035178013358072842538665765591419493012702288435400853565488335451int, 7int, 183023377629943919448622482500129095093300974112131631747573127195572913int);
    lemma_pow_mod_step(10int, 179343898691644485864083854190992596994201415861390nat, m, 89671949345822242932041927095496298497100707930695nat, 183023377629943919448622482500129095093300974112131631747573127195572913int, 163310877809529144110234023261575941537242585564782433629771201431651855int, 200150582631983287336489868315429308262641016759696194789736982845032364int, 0int, 200150582631983287336489868315429308262641016759696194789736982845032364int);
    lemma_pow_mod_step(10int, 358687797383288971728167708381985193988402831722780nat, m, 179343898691644485864083854190992596994201415861390nat, 200150582631983287336489868315429308262641016759696194789736982845032364int, 195306050983231705627692625497196205802844902925353375967388148373525406int, 126800186407248989242216257489642753082239186726669759752925275313320870int, 0int, 126800186407248989242216257489642753082239186726669759752925275313320870int);
}

proof fn lemma_certificate_31_14()
    requires
        pow_mod(10int, 358687797383288971728167708381985193988402831722780nat, 205115282021455665897114700593932402728804164701536103180137503955397371int) == 126800186407248989242216257489642753082239186726669759752925275313320870int,
    ensures
        pow_mod(10int, 1469185218081951628198574933532611354576497998736509446nat, 205115282021455665897114700593932402728804164701536103180137503955397371int) == 12525483770142874929461636691366855689461333407276739168774890095702628int,
{
    let m: int = 205115282021455665897114700593932402728804164701536103180137503955397371int;
    lemma_pow_mod_step(10int, 717375594766577943456335416763970387976805663445561nat, m, 358687797383288971728167708381985193988402831722780nat, 126800186407248989242216257489642753082239186726669759752925275313320870int, 78386588821944797237114818500148638405828391870905169712330782380903828int, 20274366544420268842096990896425164551227971296276339285998345702520712int, 0int, 202743665444202688420969908964251645512279712962763392859983457025207120int);
    lemma_pow_mod_step(10int, 1434751189533155886912670833527940775953611326891122nat, m, 717375594766577943456335416763970387976805663445561nat, 202743665444202688420969908964251645512279712962763392859983457025207120int, 200399470349805936069516521812874918274117098611032211456314313107861184int, 101251261216669810197208299303611483209002389008113329948558112272147136int, 0int, 101251261216669810197208299303611483209002389008113329948558112272147136int);
    lemma_pow_mod_step(10int, 2869502379066311773825341667055881551907222653782245nat, m, 1434751189533155886912670833527940775953611326891122nat, 101251261216669810197208299303611483209002389008113329948558112272147136int, 49980761047799127628221782454365706042891583207999878242039656410361870int, 201053895882077185563555801059146470689557236585752849094384889876358726int, 9int, 164501420627670862561525705246073082336334883543703562322611363165010921int);
    lemma_pow_mod_step(10int, 5739004758132623547650683334111763103814445307564490nat, m, 2869502379066311773825341667055881551907222653782245nat, 164501420627670862561525705246073082336334883543703562322611363165010921int, 131929308834683832039233938657719013543358636794023925296354908627903291int, 177970258801738476132747602659747697207434329866111265742352855585620280int, 0int, 177970258801738476132747602659747697207434329866111265742352855585620280int);
    lemma_pow_mod_step(10int, 11478009516265247095301366668223526207628890615128980nat, m, 5739004758132623547650683334111763103814445307564490nat, 177970258801738476132747602659747697207434329866111265742352855585620280int, 154417616794855093926884256356628204295049233676561649719089912141984865int, 85698032938163540208926494313834864983732317693164178332784498604488485int, 0int, 85698032938163540208926494313834864983732317693164178332784498604488485int);
    lemma_pow_mod_step(10int, 22956019032530494190602733336447052415257781230257960nat, m, 11478009516265247095301366668223526207628890615128980nat, 85698032938163540208926494313834864983732317693164178332784498604488485int, 35805000861429442026351955634561745039474736589919704361555903024879507int, 24950988532988545673842131924706248263427118543140552934065538918019128int, 0int, 24950988532988545673842131924706248263427118543140552934065538918019128int);
    lemma_pow_mod_step(10int, 45912038065060988381205466672894104830515562460515920nat, m, 22956019032530494190602733336447052415257781230257960nat, 24950988532988545673842131924706248263427118543140552934065538918019128int, 3035131378988159125785394942533192258528678479925130579212134316277825int, 148993538949475093261394362984104936255795044420104963195139155863282309int, 0int, 148993538949475093261394362984104936255795044420104963195139155863282309int);
    lemma_pow_mod_step(10int, 91824076130121976762410933345788209661031124921031840nat, m, 45912038065060988381205466672894104830515562460515920nat, 148993538949475093261394362984104936255795044420104963195139155863282309int, 108227307248450960041222178298714599642526078853712201316989342046652184int, 196583762456944113165729690359051678743335681470463379393026327087363217int, 0int, 196583762456944113165729690359051678743335681470463379393026327087363217int);
    lemma_pow_mod_step(10int, 183648152260243953524821866691576419322062249842063680nat, m, 91824076130121976762410933345788209661031124921031840nat, 196583762456944113165729690359051678743335681470463379393026327087363217int, 188407101025684814534163460165342785719478649886024311553192539493685387int, 17171510398635310868504754718678240926673162177390193821610898843671512int, 0int, 17171510398635310868504754718678240926673162177390193821610898843671512int);
    lemma_pow_mod_step(10int, 367296304520487907049643733383152838644124499684127361nat, m, 183648152260243953524821866691576419322062249842063680nat, 17171510398635310868504754718678240926673162177390193821610898843671512int, 1437536815709310743315196348562663856480827345445743641693930019622506int, 121907896370623901705713423350303786432358775850529449933609333515534418int, 5int, 193502553598960687571560730533375850679566934997613983435405815378357325int);
    lemma_pow_mod_step(10int, 734592609040975814099287466766305677288248999368254723nat, m, 367296304520487907049643733383152838644124499684127361nat, 193502553598960687571560730533375850679566934997613983435405815378357325int, 182547286971050651128681217413072733287097480508463493641591795206373815int, 33000153265766292800876433496696725556711015101484622934820125086915260int, 1int, 124886250636207262111649634373034852838305986313310126168063746913755229int);
    lemma_pow_mod_step(10int, 1469185218081951628198574933532611354576497998736509446nat, m, 734592609040975814099287466766305677288248999368254723nat, 124886250636207262111649634373034852838305986313310126168063746913755229int, 76038096451234339465898117281099858937829390684404468639282192010428703int, 12525483770142874929461636691366855689461333407276739168774890095702628int, 0int, 12525483770142874929461636691366855689461333407276739168774890095702628int);
}

proof fn lemma_certificate_31_15()
    requires
        pow_mod(10int, 1469185218081951628198574933532611354576497998736509446nat, 205115282021455665897114700593932402728804164701536103180137503955397371int) == 12525483770142874929461636691366855689461333407276739168774890095702628int,
    ensures
        pow_mod(10int, 6017782653263673869101362927749576108345335802824742694350nat, 205115282021455665897114700593932402728804164701536103180137503955397371int) == 144735740547839862035346956313696906055805199616599286363457453358399072int,
{
    let m: int = 205115282021455665897114700593932402728804164701536103180137503955397371int;
    lemma_pow_mod_step(10int, 2938370436163903256397149867065222709152995997473018893nat, m, 1469185218081951628198574933532611354576497998736509446nat, 12525483770142874929461636691366855689461333407276739168774890095702628int, 764875937716340635934964349022843615949023396757712908908405127089803int, 22988421055664620318856415218133894232148612497848768528574405338998471int, 1int, 24768928535190537291449451587406539592681960276951582105606549434587339int);
    lemma_pow_mod_step(10int, 5876740872327806512794299734130445418305991994946037787nat, m, 2938370436163903256397149867065222709152995997473018893nat, 24768928535190537291449451587406539592681960276951582105606549434587339int, 2991000059747874648146224737835457340206902733222594859383170531005943int, 150824041639729434173696696315547467967725457521729015953484296291525068int, 7int, 72433442247104680457164058997947860575625422306537437273880435227469083int);
    lemma_pow_mod_step(10int, 11753481744655613025588599468260890836611983989892075574nat, m, 5876740872327806512794299734130445418305991994946037787nat, 72433442247104680457164058997947860575625422306537437273880435227469083int, 25578803802711486276614685157580942991563137153048507793267399227448447int, 203561488525799523434720223698188626572619413568429011828204875419028052int, 0int, 203561488525799523434720223698188626572619413568429011828204875419028052int);
    lemma_pow_mod_step(10int, 23506963489311226051177198936521781673223967979784151149nat, m, 11753481744655613025588599468260890836611983989892075574nat, 203561488525799523434720223698188626572619413568429011828204875419028052int, 202019465358533104730557105334529425761017844693473777571069152022859063int, 40397962244312725290118050716121543954072524017265967000312938669191331int, 1int, 198864340421671587004065806567283036811921075471123566822991882736515939int);
    lemma_pow_mod_step(10int, 47013926978622452102354397873043563346447935959568302299nat, m, 23506963489311226051177198936521781673223967979784151149nat, 198864340421671587004065806567283036811921075471123566822991882736515939int, 192803897893915811955765932806990686148147246184976771294799453892913017int, 108986316254472185724673192630903920590077941479926754563568761427573414int, 5int, 64286752437443527761158423339377192256758591291587029735000094498747285int);
    lemma_pow_mod_step(10int, 94027853957244904204708795746087126692895871919136604599nat, m, 47013926978622452102354397873043563346447935959568302299nat, 64286752437443527761158423339377192256758591291587029735000094498747285int, 20148603742362061777243775761523770506228071583601076616136789469672576int, 43610193797878319885736060376839577890787093296758464059315042953673529int, 2int, 25871373935871867063131202580530973450262603564512434232875421625940548int);
    lemma_pow_mod_step(10int, 188055707914489808409417591492174253385791743838273209198nat, m, 94027853957244904204708795746087126692895871919136604599nat, 25871373935871867063131202580530973450262603564512434232875421625940548int, 3263179528767127610306401553624486864030015679064406980701054329202922int, 50276194517663438836717741361715075836142046297548487272310579426222242int, 0int, 50276194517663438836717741361715075836142046297548487272310579426222242int);
    lemma_pow_mod_step(10int, 376111415828979616818835182984348506771583487676546418396nat, m, 188055707914489808409417591492174253385791743838273209198nat, 50276194517663438836717741361715075836142046297548487272310579426222242int, 12323293078248195881671202959063800017414806961669253887948599710926440int, 121827304100737418651436742010730311861953001415526848719831834825117324int, 0int, 121827304100737418651436742010730311861953001415526848719831834825117324int);
    lemma_pow_mod_step(10int, 752222831657959233637670365968697013543166975353092836793nat, m, 376111415828979616818835182984348506771583487676546418396nat, 121827304100737418651436742010730311861953001415526848719831834825117324int, 72358782233012976606404830932809824547233596745358289044185296580199122int, 122695680851617813186615612060145430028134395358478683611553132549612714int, 5int, 201380398408899802380582617631792286637323130077106320214843805719140285int);
    lemma_pow_mod_step(10int, 1504445663315918467275340731937394027086333950706185673587nat, m, 752222831657959233637670365968697013543166975353092836793nat, 201380398408899802380582617631792286637323130077106320214843805719140285int, 197713522189366362194350686733463119939840553100816681909620800029491557int, 53434937094193535550361424166623800467812024323333817440876472485384578int, 2int, 124118806899024023709384840478373199220511913830265968048489716943051038int);
    lemma_pow_mod_step(10int, 3008891326631836934550681463874788054172667901412371347175nat, m, 1504445663315918467275340731937394027086333950706185673587nat, 124118806899024023709384840478373199220511913830265968048489716943051038int, 75106438068450477242228396159730329146229554524296948693975061371337905int, 53588242699867722853444669060510038773982293651032340751904572083229689int, 2int, 125651862955765896740217289417235582282214607107251201158770712921502148int);
    lemma_pow_mod_step(10int, 6017782653263673869101362927749576108345335802824742694350nat, m, 3008891326631836934550681463874788054172667901412371347175nat, 125651862955765896740217289417235582282214607107251201158770712921502148int, 76973253814423547532886571649616302132929052906004411253540688920907792int, 144735740547839862035346956313696906055805199616599286363457453358399072int, 0int, 144735740547839862035346956313696906055805199616599286363457453358399072int);
}

proof fn lemma_certificate_31_16()
    requires
        pow_mod(10int, 6017782653263673869101362927749576108345335802824742694350nat, 205115282021455665897114700593932402728804164701536103180137503955397371int) == 144735740547839862035346956313696906055805199616599286363457453358399072int,
    ensures
        pow_mod(10int, 24648837747768008167839182552062263739782495448370146076061252nat, 205115282021455665897114700593932402728804164701536103180137503955397371int) == 40775956539205421439890452964309249654487943541968833477108743858381036int,
{
    let m: int = 205115282021455665897114700593932402728804164701536103180137503955397371int;
    lemma_pow_mod_step(10int, 12035565306527347738202725855499152216690671605649485388701nat, m, 6017782653263673869101362927749576108345335802824742694350nat, 144735740547839862035346956313696906055805199616599286363457453358399072int, 102130052843845870414589509262557281440568131857707397699082386052573800int, 48934457607028837665026521822692449671243299162649189059559650506981384int, 2int, 79114012027377044856035817039059691254824662223419684235321497159019098int);
    lemma_pow_mod_step(10int, 24071130613054695476405451710998304433381343211298970777403nat, m, 12035565306527347738202725855499152216690671605649485388701nat, 79114012027377044856035817039059691254824662223419684235321497159019098int, 30514678562142663573415426913581871993043658473330061153550210987263039int, 68746374652671391915043424368648462599509908625675452867808446582663135int, 3int, 72117900462346921459090141904687417808686592152146219137671953960439237int);
    lemma_pow_mod_step(10int, 48142261226109390952810903421996608866762686422597941554807nat, m, 24071130613054695476405451710998304433381343211298970777403nat, 72117900462346921459090141904687417808686592152146219137671953960439237int, 25356431348459639338808670859813899514707776271725910274611102304682836int, 189317793558195475859547404146352579930995761892258552440378719465918013int, 9int, 47140397388853765521441736118134174750720136608760595782549659060603791int);
    lemma_pow_mod_step(10int, 96284522452218781905621806843993217733525372845195883109614nat, m, 48142261226109390952810903421996608866762686422597941554807nat, 47140397388853765521441736118134174750720136608760595782549659060603791int, 10833990739639772081031272633719351400880447346816960422145638480796792int, 129243000461189746051872178891732371294560830414316506221027292421537849int, 0int, 129243000461189746051872178891732371294560830414316506221027292421537849int);
    lemma_pow_mod_step(10int, 192569044904437563811243613687986435467050745690391766219228nat, m, 96284522452218781905621806843993217733525372845195883109614nat, 129243000461189746051872178891732371294560830414316506221027292421537849int, 81435927170281885019531993695595868587137353943702789487068246780209615int, 89569157910004512304166102436813150065913422806950654323561148139624636int, 0int, 89569157910004512304166102436813150065913422806950654323561148139624636int);
    lemma_pow_mod_step(10int, 385138089808875127622487227375972870934101491380783532438457nat, m, 192569044904437563811243613687986435467050745690391766219228nat, 89569157910004512304166102436813150065913422806950654323561148139624636int, 39112805099856638746923279733484061244756031130180772721887712027568892int, 64346138167747896266937835882384047812969135292878769452278220039949564int, 3int, 28115535613111964978034257042043269943278858824179384982369688533303527int);
    lemma_pow_mod_step(10int, 770276179617750255244974454751945741868202982761567064876914nat, m, 385138089808875127622487227375972870934101491380783532438457nat, 28115535613111964978034257042043269943278858824179384982369688533303527int, 3853849089262302249846808797533791831351802787169399800614422193879586int, 111663926066198327626752288915522192088263869490152967487561437155671323int, 0int, 111663926066198327626752288915522192088263869490152967487561437155671323int);
    lemma_pow_mod_step(10int, 1540552359235500510489948909503891483736405965523134129753828nat, m, 770276179617750255244974454751945741868202982761567064876914nat, 111663926066198327626752288915522192088263869490152967487561437155671323int, 60789387614781084563480354097225554103696311014728832532266610382276889int, 100327117169844083091446461887735592642540600712046725437999051059911510int, 0int, 100327117169844083091446461887735592642540600712046725437999051059911510int);
    lemma_pow_mod_step(10int, 3081104718471001020979897819007782967472811931046268259507656nat, m, 1540552359235500510489948909503891483736405965523134129753828nat, 100327117169844083091446461887735592642540600712046725437999051059911510int, 49072552471047667381780579154746121035001838497939997680323311726613262int, 105813537559803678990228043962296507918067574181744761934558841781945898int, 0int, 105813537559803678990228043962296507918067574181744761934558841781945898int);
    lemma_pow_mod_step(10int, 6162209436942002041959795638015565934945623862092536519015313nat, m, 3081104718471001020979897819007782967472811931046268259507656nat, 105813537559803678990228043962296507918067574181744761934558841781945898int, 54586399514341385650686240065293541204458832566422004438837898422075568int, 111236636858416415788477916936334291481462439139525046586165073368494676int, 5int, 86789958476885828399205666393680901170603567887569949960963213907959905int);
    lemma_pow_mod_step(10int, 12324418873884004083919591276031131869891247724185073038030626nat, m, 6162209436942002041959795638015565934945623862092536519015313nat, 86789958476885828399205666393680901170603567887569949960963213907959905int, 36723235919748021417485568619915418482910439799182881608277696045320949int, 131450966205213922694351160061798178294803228355433594766253640561783946int, 0int, 131450966205213922694351160061798178294803228355433594766253640561783946int);
    lemma_pow_mod_step(10int, 24648837747768008167839182552062263739782495448370146076061252nat, m, 12324418873884004083919591276031131869891247724185073038030626nat, 131450966205213922694351160061798178294803228355433594766253640561783946int, 84242170285863053985684978063761433151913023574213423336601186803266280int, 40775956539205421439890452964309249654487943541968833477108743858381036int, 0int, 40775956539205421439890452964309249654487943541968833477108743858381036int);
}

proof fn lemma_certificate_31_17()
    requires
        pow_mod(10int, 24648837747768008167839182552062263739782495448370146076061252nat, 205115282021455665897114700593932402728804164701536103180137503955397371int) == 40775956539205421439890452964309249654487943541968833477108743858381036int,
    ensures
        pow_mod(10int, 100961639414857761455469291733247032278149101356524118327546890729nat, 205115282021455665897114700593932402728804164701536103180137503955397371int) == 43202129508590452225986528060351683339462165069832498380220739999634623int,
{
    let m: int = 205115282021455665897114700593932402728804164701536103180137503955397371int;
    lemma_pow_mod_step(10int, 49297675495536016335678365104124527479564990896740292152122505nat, m, 24648837747768008167839182552062263739782495448370146076061252nat, 40775956539205421439890452964309249654487943541968833477108743858381036int, 8106069013001421617378237071661061796405801470450995517084422391571069int, 95376152213404058741565234247042472811327403381649969584152260082173697int, 4int, 133300394048217923827193540094695117198057375010355283120972585000147486int);
    lemma_pow_mod_step(10int, 98595350991072032671356730208249054959129981793480584304245010nat, m, 49297675495536016335678365104124527479564990896740292152122505nat, 133300394048217923827193540094695117198057375010355283120972585000147486int, 86629308544409104482774892558960922340078539874677084505511049732521474int, 143520486067976271220983676058526738913151081358143834379201950291475342int, 0int, 143520486067976271220983676058526738913151081358143834379201950291475342int);
    lemma_pow_mod_step(10int, 197190701982144065342713460416498109918259963586961168608490020nat, m, 98595350991072032671356730208249054959129981793480584304245010nat, 143520486067976271220983676058526738913151081358143834379201950291475342int, 100422209979622803447940412772809396277987370463247939905759144387329813int, 160550940359900894582627174740163740041265663021323921553450426943895341int, 0int, 160550940359900894582627174740163740041265663021323921553450426943895341int);
    lemma_pow_mod_step(10int, 394381403964288130685426920832996219836519927173922337216980041nat, m, 197190701982144065342713460416498109918259963586961168608490020nat, 160550940359900894582627174740163740041265663021323921553450426943895341int, 125668863852631637837691665073255165382209591247679286512948646273622551int, 64673862344210620550503990226002190022088785837837887833210861889792860int, 3int, 31392777377739207813695800478224692034475364273770568791696107031736487int);
    lemma_pow_mod_step(10int, 788762807928576261370853841665992439673039854347844674433960083nat, m, 394381403964288130685426920832996219836519927173922337216980041nat, 31392777377739207813695800478224692034475364273770568791696107031736487int, 4804646741948791887393425863625463119086237100178701202397068553742066int, 30998273064077012997376455990768104169774666682271574146866282538592683int, 1int, 104867448619314464076649859313748638968942502121179638288525321430529459int);
    lemma_pow_mod_step(10int, 1577525615857152522741707683331984879346079708695689348867920167nat, m, 788762807928576261370853841665992439673039854347844674433960083nat, 104867448619314464076649859313748638968942502121179638288525321430529459int, 53614638907179140939754148657118424113111513193796037064684026176566236int, 183950425167641832818654278889335328256972952680432763479283021385067125int, 8int, 198581995504773001009625184141894060739296209192038809351730182207492282int);
    lemma_pow_mod_step(10int, 3155051231714305045483415366663969758692159417391378697735840335nat, m, 1577525615857152522741707683331984879346079708695689348867920167nat, 198581995504773001009625184141894060739296209192038809351730182207492282int, 192256805782675357113240334104870703992829512803311657030313162139662398int, 15116450155515116723868840611381441377972636514817218212321311212811866int, 0int, 151164501555151167238688406113814413779726365148172182123213112128118660int);
    lemma_pow_mod_step(10int, 6310102463428610090966830733327939517384318834782757395471680670nat, m, 3155051231714305045483415366663969758692159417391378697735840335nat, 151164501555151167238688406113814413779726365148172182123213112128118660int, 111404212817390408233256790179078277494033197431163076159118251085420553int, 122664997713312888425858269305204683028407586079854569736726379274629437int, 0int, 122664997713312888425858269305204683028407586079854569736726379274629437int);
    lemma_pow_mod_step(10int, 12620204926857220181933661466655879034768637669565514790943361341nat, m, 6310102463428610090966830733327939517384318834782757395471680670nat, 122664997713312888425858269305204683028407586079854569736726379274629437int, 73357292132105137809040804179829125737748270658824993305490654182681950int, 156446160677177267443548813949746388876836270092896395263683234907783519int, 7int, 128654632621583013155685235339937069666733548018211230375869821390053593int);
    lemma_pow_mod_step(10int, 25240409853714440363867322933311758069537275339131029581886722682nat, m, 12620204926857220181933661466655879034768637669565514790943361341nat, 128654632621583013155685235339937069666733548018211230375869821390053593int, 80696154532567214009555988706627349589543646186960300844871273379901606int, 145701393186072620157041538692421000180369279372363212403665414801131823int, 0int, 145701393186072620157041538692421000180369279372363212403665414801131823int);
    lemma_pow_mod_step(10int, 50480819707428880727734645866623516139074550678262059163773445364nat, m, 25240409853714440363867322933311758069537275339131029581886722682nat, 145701393186072620157041538692421000180369279372363212403665414801131823int, 103497388235275046758849741969713238423968875465325080091963577740016172int, 16359466401399484754664120174232076074152561898843713837287553597019517int, 0int, 16359466401399484754664120174232076074152561898843713837287553597019517int);
    lemma_pow_mod_step(10int, 100961639414857761455469291733247032278149101356524118327546890729nat, m, 50480819707428880727734645866623516139074550678262059163773445364nat, 16359466401399484754664120174232076074152561898843713837287553597019517int, 1304788888965004046731816769839262196436270186619573400988771580447177int, 147900910365878011350578943221787850244109131798058522064118326768741622int, 7int, 43202129508590452225986528060351683339462165069832498380220739999634623int);
}

proof fn lemma_certificate_31_18()
    requires
        pow_mod(10int, 100961639414857761455469291733247032278149101356524118327546890729nat, 205115282021455665897114700593932402728804164701536103180137503955397371int) == 43202129508590452225986528060351683339462165069832498380220739999634623int,
    ensures
        pow_mod(10int, 413538875043257390921602218939379844211298719156322788669632064426204nat, 205115282021455665897114700593932402728804164701536103180137503955397371int) == 32952472309088964466605768016065886197747907703363858640616340498493027int,
{
    let m: int = 205115282021455665897114700593932402728804164701536103180137503955397371int;
    lemma_pow_mod_step(10int, 201923278829715522910938583466494064556298202713048236655093781458nat, m, 100961639414857761455469291733247032278149101356524118327546890729nat, 43202129508590452225986528060351683339462165069832498380220739999634623int, 9099390234033310265035129470287595580911152162183214326303140688020957int, 103103134560360377312441754477813531027426618220238335205333448989648082int, 0int, 103103134560360377312441754477813531027426618220238335205333448989648082int);
    lemma_pow_mod_step(10int, 403846557659431045821877166932988129112596405426096473310187562916nat, m, 201923278829715522910938583466494064556298202713048236655093781458nat, 103103134560360377312441754477813531027426618220238335205333448989648082int, 51825764767053398590602724670052522120682641266370628343452131347159076int, 92764001270167449892013194819554957686550544235253009498847100677089528int, 0int, 92764001270167449892013194819554957686550544235253009498847100677089528int);
    lemma_pow_mod_step(10int, 807693115318862091643754333865976258225192810852192946620375125832nat, m, 403846557659431045821877166932988129112596405426096473310187562916nat, 92764001270167449892013194819554957686550544235253009498847100677089528int, 41952797699156823653970471278301369404384615822685176187247857477331689int, 10087422121265315594684959227125598744053402585215016106329874161673165int, 0int, 10087422121265315594684959227125598744053402585215016106329874161673165int);
    lemma_pow_mod_step(10int, 1615386230637724183287508667731952516450385621704385893240750251664nat, m, 807693115318862091643754333865976258225192810852192946620375125832nat, 10087422121265315594684959227125598744053402585215016106329874161673165int, 496092168510139832570273146500171857184458957891515405057905494079609int, 191972250294692122895954445804830823712892905166792998493114190777809286int, 0int, 191972250294692122895954445804830823712892905166792998493114190777809286int);
    lemma_pow_mod_step(10int, 3230772461275448366575017335463905032900771243408771786481500503329nat, m, 1615386230637724183287508667731952516450385621704385893240750251664nat, 191972250294692122895954445804830823712892905166792998493114190777809286int, 179671375628428070314676404797434028204873635839614977169574207319885686int, 333739093283336167469660203139620510130975833046142101414166962898290int, 0int, 3337390932833361674696602031396205101309758330461421014141669628982900int);
    lemma_pow_mod_step(10int, 6461544922550896733150034670927810065801542486817543572963001006659nat, m, 3230772461275448366575017335463905032900771243408771786481500503329nat, 3337390932833361674696602031396205101309758330461421014141669628982900int, 54302039949384412958690573776687179696287129502166084743097430735102int, 60710314615349837381313997280178524872432492791082336128088211444193158int, 2int, 196872582110587042018910571613920443266716598507751154920607106531136838int);
    lemma_pow_mod_step(10int, 12923089845101793466300069341855620131603084973635087145926002013318nat, m, 6461544922550896733150034670927810065801542486817543572963001006659nat, 196872582110587042018910571613920443266716598507751154920607106531136838int, 188961120814174881092024460472532925510574825118674165330189474584539228int, 12379616074176814946314278134335112229006876356082321037040217003068656int, 0int, 12379616074176814946314278134335112229006876356082321037040217003068656int);
    lemma_pow_mod_step(10int, 25846179690203586932600138683711240263206169947270174291852004026637nat, m, 12923089845101793466300069341855620131603084973635087145926002013318nat, 12379616074176814946314278134335112229006876356082321037040217003068656int, 747164680435590654944530788629035229870539388271115999119335398559956int, 200116562552505599698404637077982850682198624894693348743604833501370660int, 9int, 155128087331955003910014065434436882262748766633108558814810799415130261int);
    lemma_pow_mod_step(10int, 51692359380407173865200277367422480526412339894540348583704008053275nat, m, 25846179690203586932600138683711240263206169947270174291852004026637nat, 155128087331955003910014065434436882262748766633108558814810799415130261int, 117322918322357947107379059069715285770347062482533872271401748502056836int, 180917949720332507420888315497086421048752228207779270676521414390949965int, 8int, 168257241031679747031965550219404988657088964465503881324114112266320682int);
    lemma_pow_mod_step(10int, 103384718760814347730400554734844961052824679789080697167408016106551nat, m, 51692359380407173865200277367422480526412339894540348583704008053275nat, 168257241031679747031965550219404988657088964465503881324114112266320682int, 138022378832950207078143281782406036865363364794329690380093396146317767int, 202826079180372099680737090584453761019686360647504083173686146738554567int, 9int, 182223253610620003733338600499145985637626124161215903115623931786969331int);
    lemma_pow_mod_step(10int, 206769437521628695460801109469689922105649359578161394334816032213102nat, m, 103384718760814347730400554734844961052824679789080697167408016106551nat, 182223253610620003733338600499145985637626124161215903115623931786969331int, 161886105360823198132901994214576306039704472115739515917291955337308490int, 176017666368902249598850955696853190223840433094761391174626630372607771int, 0int, 176017666368902249598850955696853190223840433094761391174626630372607771int);
    lemma_pow_mod_step(10int, 413538875043257390921602218939379844211298719156322788669632064426204nat, m, 206769437521628695460801109469689922105649359578161394334816032213102nat, 176017666368902249598850955696853190223840433094761391174626630372607771int, 151047833045971436730149187528124812429786784485312182522654600532328834int, 32952472309088964466605768016065886197747907703363858640616340498493027int, 0int, 32952472309088964466605768016065886197747907703363858640616340498493027int);
}

proof fn lemma_certificate_31_19()
    requires
        pow_mod(10int, 413538875043257390921602218939379844211298719156322788669632064426204nat, 205115282021455665897114700593932402728804164701536103180137503955397371int) == 32952472309088964466605768016065886197747907703363858640616340498493027int,
    ensures
        pow_mod(10int, 6616622000692118254745635503030077507380779506501164618714113030819270nat, 205115282021455665897114700593932402728804164701536103180137503955397371int) == 178914599646525377090000213924526954283063588893967770896141456545640969int,
{
    let m: int = 205115282021455665897114700593932402728804164701536103180137503955397371int;
    lemma_pow_mod_step(10int, 827077750086514781843204437878759688422597438312645577339264128852408nat, m, 413538875043257390921602218939379844211298719156322788669632064426204nat, 32952472309088964466605768016065886197747907703363858640616340498493027int, 5293927495698200829786935367588008878560206524458613135368602290892255int, 190696807600210366492411016440362247384009318872616583990615355296361124int, 0int, 190696807600210366492411016440362247384009318872616583990615355296361124int);
    lemma_pow_mod_step(10int, 1654155500173029563686408875757519376845194876625291154678528257704817nat, m, 827077750086514781843204437878759688422597438312645577339264128852408nat, 190696807600210366492411016440362247384009318872616583990615355296361124int, 177291872504690971852224641351629192626998292341549779334063571827660408int, 64816261263384594393923752109650107424687148717373985706650312934556008int, 3int, 32816766569478946247893419314703866060458993069131547526090617479367967int);
    lemma_pow_mod_step(10int, 3308311000346059127372817751515038753690389753250582309357056515409635nat, m, 1654155500173029563686408875757519376845194876625291154678528257704817nat, 32816766569478946247893419314703866060458993069131547526090617479367967int, 5250414096220387106620640908351383113702429701367676296015367269174433int, 162823000190171511219984460321578239795648810180588856391295424157097446int, 7int, 192423027751525450920041699058255578854858948895135841651991713883192863int);
    lemma_pow_mod_step(10int, 6616622000692118254745635503030077507380779506501164618714113030819270nat, m, 3308311000346059127372817751515038753690389753250582309357056515409635nat, 192423027751525450920041699058255578854858948895135841651991713883192863int, 180516152888068279410504141899534845339047900318357624550174025132069800int, 178914599646525377090000213924526954283063588893967770896141456545640969int, 0int, 178914599646525377090000213924526954283063588893967770896141456545640969int);
}

proof fn lemma_certificate_31()
    ensures
        pow_mod(10int, 6616622000692118254745635503030077507380779506501164618714113030819270nat, 205115282021455665897114700593932402728804164701536103180137503955397371int) == 178914599646525377090000213924526954283063588893967770896141456545640969int,
{
    lemma_pow_mod_zero(10int, 205115282021455665897114700593932402728804164701536103180137503955397371int);
    lemma_certificate_31_0();
    lemma_certificate_31_1();
    lemma_certificate_31_2();
    lemma_certificate_31_3();
    lemma_certificate_31_4();
    lemma_certificate_31_5();
    lemma_certificate_31_6();
    lemma_certificate_31_7();
    lemma_certificate_31_8();
    lemma_certificate_31_9();
    lemma_certificate_31_10();
    lemma_certificate_31_11();
    lemma_certificate_31_12();
    lemma_certificate_31_13();
    lemma_certificate_31_14();
    lemma_certificate_31_15();
    lemma_certificate_31_16();
    lemma_certificate_31_17();
    lemma_certificate_31_18();
    lemma_certificate_31_19();
}

proof fn lemma_certificate_7723_0()
    requires
        pow_mod(10int, 0nat, 205115282021455665897114700593932402728804164701536103180137503955397371int) == 1int,
    ensures
        pow_mod(10int, 4035nat, 205115282021455665897114700593932402728804164701536103180137503955397371int) == 70514888818203051948196042309664893941932166770163313459673175825513468int,
{
    let m: int = 205115282021455665897114700593932402728804164701536103180137503955397371int;
    lemma_pow_mod_step(10int, 1nat, m, 0nat, 1int, 0int, 1int, 0int, 10int);
    lemma_pow_mod_step(10int, 3nat, m, 1nat, 10int, 0int, 100int, 0int, 1000int);
    lemma_pow_mod_step(10int, 7nat, m, 3nat, 1000int, 0int, 1000000int, 0int, 10000000int);
    lemma_pow_mod_step(10int, 15nat, m, 7nat, 10000000int, 0int, 100000000000000int, 0int, 1000000000000000int);
    lemma_pow_mod_step(10int, 31nat, m, 15nat, 1000000000000000int, 0int, 1000000000000000000000000000000int, 0int, 10000000000000000000000000000000int);
    lemma_pow_mod_step(10int, 63nat, m, 31nat, 10000000000000000000000000000000int, 0int, 100000000000000000000000000000000000000000000000000000000000000int, 0int, 1000000000000000000000000000000000000000000000000000000000000000int);
    lemma_pow_mod_step(10int, 126nat, m, 63nat, 1000000000000000000000000000000000000000000000000000000000000000int, 4875307145059026068812354126291807166685546757732298440int, 7456172361065573150810324528157903849060350151448340532592828636598760int, 0int, 7456172361065573150810324528157903849060350151448340532592828636598760int);
    lemma_pow_mod_step(10int, 252nat, m, 126nat, 7456172361065573150810324528157903849060350151448340532592828636598760int, 271040293682763304610732686336678246322290755961711696488106078570791int, 196766350599987302344407550937039889330482240253805228604934015074747139int, 0int, 196766350599987302344407550937039889330482240253805228604934015074747139int);
    lemma_pow_mod_step(10int, 504nat, m, 252nat, 196766350599987302344407550937039889330482240253805228604934015074747139int, 188757250785376444592689431974316518522818719561693966963286581017842187int, 157761753026458489575963084441571017330894076848716378777389314235994944int, 0int, 157761753026458489575963084441571017330894076848716378777389314235994944int);
    lemma_pow_mod_step(10int, 1008nat, m, 504nat, 157761753026458489575963084441571017330894076848716378777389314235994944int, 121340401713110022081115362752448122430788760562149108203145505726786606int, 196172503446338972738122968694939757439413935563884447782428259943150310int, 0int, 196172503446338972738122968694939757439413935563884447782428259943150310int);
    lemma_pow_mod_step(10int, 2017nat, m, 1008nat, 196172503446338972738122968694939757439413935563884447782428259943150310int, 187619619216760125510943085209831976733414655586714315491069791292177811int, 104381667387170260129185376141855480453089199479775892063141780759161219int, 5int, 18240263764424271806280258448892790886871171290078404730730287814625335int);
    lemma_pow_mod_step(10int, 4035nat, m, 2017nat, 18240263764424271806280258448892790886871171290078404730730287814625335int, 1622049897583774115541204204937703020853695931819805396408561970779524int, 48074545286111438374242544349752969939954049617323551981994818373630821int, 2int, 70514888818203051948196042309664893941932166770163313459673175825513468int);
}

proof fn lemma_certificate_7723_1()
    requires
        pow_mod(10int, 4035nat, 205115282021455665897114700593932402728804164701536103180137503955397371int) == 70514888818203051948196042309664893941932166770163313459673175825513468int,
    ensures
        pow_mod(10int, 16527716nat, 205115282021455665897114700593932402728804164701536103180137503955397371int) == 117907643833513717742767701606771091684637977223039088559131704618758593int,
{
    let m: int = 205115282021455665897114700593932402728804164701536103180137503955397371int;
    lemma_pow_mod_step(10int, 8070nat, m, 4035nat, 70514888818203051948196042309664893941932166770163313459673175825513468int, 24241731264681757458930018014539527069528109698104072580253369934457205int, 177625255026110221385537314101951753478996792644644621644784314880378969int, 0int, 177625255026110221385537314101951753478996792644644621644784314880378969int);
    lemma_pow_mod_step(10int, 16140nat, m, 8070nat, 177625255026110221385537314101951753478996792644644621644784314880378969int, 153819505363770967336125977233301858582673434302795972054529036518198475int, 25575037411776767349888760381421754045330153468797671470893919386293736int, 0int, 25575037411776767349888760381421754045330153468797671470893919386293736int);
    lemma_pow_mod_step(10int, 32280nat, m, 16140nat, 25575037411776767349888760381421754045330153468797671470893919386293736int, 3188853273962114244352834804260656707416102739326749961568892963241748int, 177299601454913387154324309671352133710200353129405060967068808796193188int, 0int, 177299601454913387154324309671352133710200353129405060967068808796193188int);
    lemma_pow_mod_step(10int, 64561nat, m, 32280nat, 177299601454913387154324309671352133710200353129405060967068808796193188int, 153256004946442340810711588388047101094517869983214811460285113384695413int, 49243939385246761282113504171615719613145742607347101796134752401644121int, 2int, 82208829809556281026905640528292390673849096670398811601072516105646468int);
    lemma_pow_mod_step(10int, 129122nat, m, 64561nat, 82208829809556281026905640528292390673849096670398811601072516105646468int, 32948747806853572598958723959627112399043393051277584734787837793881805int, 180131681876232311627025253068307140344423660980560884164826120819140369int, 0int, 180131681876232311627025253068307140344423660980560884164826120819140369int);
    lemma_pow_mod_step(10int, 258245nat, m, 129122nat, 180131681876232311627025253068307140344423660980560884164826120819140369int, 158191152291451710244202541599498655732689877360070126909387096516324085int, 142909625483466833740827617007974750305532565870062088542588459732475626int, 6int, 198404562705934342025587966516153086682500670491404266345059573592372034int);
    lemma_pow_mod_step(10int, 516491nat, m, 258245nat, 198404562705934342025587966516153086682500670491404266345059573592372034int, 191913396771750057300548486929859142069925742598263752336280960396917918int, 60686579411447709155650691707018422283023146397529525444218341305303578int, 2int, 196635230071565759762277515882319417372623134572223048081908405142241038int);
    lemma_pow_mod_step(10int, 1032982nat, m, 516491nat, 196635230071565759762277515882319417372623134572223048081908405142241038int, 188505767704100577428178807366239804709649789420600992593117278157461098int, 88261388418766837152166404323742534688123457361115848856808941827344086int, 0int, 88261388418766837152166404323742534688123457361115848856808941827344086int);
    lemma_pow_mod_step(10int, 2065964nat, m, 1032982nat, 88261388418766837152166404323742534688123457361115848856808941827344086int, 37978997024675928802501668291074329851464194942207855286044880937487896int, 69830020256607013239045082431007612044686678559286569107196449456453980int, 0int, 69830020256607013239045082431007612044686678559286569107196449456453980int);
    lemma_pow_mod_step(10int, 4131929nat, m, 2065964nat, 69830020256607013239045082431007612044686678559286569107196449456453980int, 23773127389543200981451686930104590552672633518293685152665968052742045int, 141410354324193558124846578108141910261199860344851173976010901723676705int, 6int, 183411851113201585865777577517824686239173615239295120679283993504382824int);
    lemma_pow_mod_step(10int, 8263858nat, m, 4131929nat, 183411851113201585865777577517824686239173615239295120679283993504382824int, 164004879584020423746479967919613603695767036571528812015756444803825032int, 160850329770949207786512242275678481669007777104444586573818354829424104int, 0int, 160850329770949207786512242275678481669007777104444586573818354829424104int);
    lemma_pow_mod_step(10int, 16527716nat, m, 8263858nat, 160850329770949207786512242275678481669007777104444586573818354829424104int, 126137986075151311922721778806986235940147161303745699983426477293230413int, 117907643833513717742767701606771091684637977223039088559131704618758593int, 0int, 117907643833513717742767701606771091684637977223039088559131704618758593int);
}

proof fn lemma_certificate_7723_2()
    requires
        pow_mod(10int, 16527716nat, 205115282021455665897114700593932402728804164701536103180137503955397371int) == 117907643833513717742767701606771091684637977223039088559131704618758593int,
    ensures
        pow_mod(10int, 67697526171nat, 205115282021455665897114700593932402728804164701536103180137503955397371int) == 135929400605579500415863403301433673097466220126550600491413305290009278int,
{
    let m: int = 205115282021455665897114700593932402728804164701536103180137503955397371int;
    lemma_pow_mod_step(10int, 33055432nat, m, 16527716nat, 117907643833513717742767701606771091684637977223039088559131704618758593int, 67777555808428320013866513147160717783716364979654261387316330820426121int, 97461577371982310774844606209345866226460586410396276276209888308211758int, 0int, 97461577371982310774844606209345866226460586410396276276209888308211758int);
    lemma_pow_mod_step(10int, 66110865nat, m, 33055432nat, 97461577371982310774844606209345866226460586410396276276209888308211758int, 46309367933108446110477531631138811811001029398222331047160070352612038int, 6696236078070215330599789183816459583630735324481046125798997681298466int, 0int, 66962360780702153305997891838164595836307353244810461257989976812984660int);
    lemma_pow_mod_step(10int, 132221730nat, m, 66110865nat, 66962360780702153305997891838164595836307353244810461257989976812984660int, 21860671311930247276471963088164721837393040878967848083306055140250071int, 163750665520794016734783220638679624302939661672144612849591710279352259int, 0int, 163750665520794016734783220638679624302939661672144612849591710279352259int);
    lemma_pow_mod_step(10int, 264443461nat, m, 132221730nat, 163750665520794016734783220638679624302939661672144612849591710279352259int, 130727853108956090693219633946380625707383320858021245119345240767500090int, 997340487957585092625699611476298696401490942442278874876586380139691int, 0int, 9973404879575850926256996114762986964014909424422788748765863801396910int);
    lemma_pow_mod_step(10int, 528886923nat, m, 264443461nat, 9973404879575850926256996114762986964014909424422788748765863801396910int, 484940975200193333096612757231750777639649089996280551837111619833539int, 171703681211251348463195833493365206470896185820131005832668035739322131int, 8int, 76114555940868157455040730182192842878528540589021232885580325750042342int);
    lemma_pow_mod_step(10int, 1057773846nat, m, 528886923nat, 76114555940868157455040730182192842878528540589021232885580325750042342int, 28244729349174181208415733305188620299386713483730792851970209822657667int, 5437651694028281945162741358808013861180620228952538954734802508051507int, 0int, 5437651694028281945162741358808013861180620228952538954734802508051507int);
    lemma_pow_mod_step(10int, 2115547692nat, m, 1057773846nat, 5437651694028281945162741358808013861180620228952538954734802508051507int, 144153354416935829090151616866941917184685659146008093897062177703159int, 113725083621811546534323928443892932065090990831407105454336451837976060int, 0int, 113725083621811546534323928443892932065090990831407105454336451837976060int);
    lemma_pow_mod_step(10int, 4231095385nat, m, 2115547692nat, 113725083621811546534323928443892932065090990831407105454336451837976060int, 63054271321603221586073542304970949367284100425921179446315737879510406int, 147139506355592702470287194666785348795996509235899510943564422473580974int, 7int, 35588089405737363423069042510326668858335939448242387174681697048028143int);
    lemma_pow_mod_step(10int, 8462190771nat, m, 4231095385nat, 35588089405737363423069042510326668858335939448242387174681697048028143int, 6174635527245966236512867076546390944239661035458392834050230889417545int, 89627358505733952851354592650794433063417649484916655493921395305754254int, 4int, 75812456971516864925087124132214719718959836043022142218663937235953056int);
    lemma_pow_mod_step(10int, 16924381542nat, m, 8462190771nat, 75812456971516864925087124132214719718959836043022142218663937235953056int, 28020967406304165965769619079992580728298814784481135374246682094430401int, 9972137516429346715811213612815027656192747532217534578036506777863365int, 0int, 9972137516429346715811213612815027656192747532217534578036506777863365int);
    lemma_pow_mod_step(10int, 33848763085nat, m, 16924381542nat, 9972137516429346715811213612815027656192747532217534578036506777863365int, 484817735989927712338925948241489969719408781004679992826459796435980int, 75293664626114218448894086864381868486164371904350195619766724147314645int, 3int, 137590800196775186797596766862021476675231224938893646657254729606954337int);
    lemma_pow_mod_step(10int, 67697526171nat, m, 33848763085nat, 137590800196775186797596766862021476675231224938893646657254729606954337int, 92295552589829207566431221280773046881808925672720529825981550837779677int, 54615996464849083221009280448929847855507454952962280685168831320080402int, 2int, 135929400605579500415863403301433673097466220126550600491413305290009278int);
}

proof fn lemma_certificate_7723_3()
    requires
        pow_mod(10int, 67697526171nat, 205115282021455665897114700593932402728804164701536103180137503955397371int) == 135929400605579500415863403301433673097466220126550600491413305290009278int,
    ensures
        pow_mod(10int, 277289067197593nat, 205115282021455665897114700593932402728804164701536103180137503955397371int) == 112645384951789796216594419865489955067543834238312751434416575595132324int,
{
    let m: int = 205115282021455665897114700593932402728804164701536103180137503955397371int;
    lemma_pow_mod_step(10int, 135395052342nat, m, 67697526171nat, 135929400605579500415863403301433673097466220126550600491413305290009278int, 90080084559761804857058711282444821488108909938972772423609135518708248int, 182497007268793033970877524610366718592248347858681736663011635870865276int, 0int, 182497007268793033970877524610366718592248347858681736663011635870865276int);
    lemma_pow_mod_step(10int, 270790104685nat, m, 135395052342nat, 182497007268793033970877524610366718592248347858681736663011635870865276int, 162372873117187237956076209622586742402281655406889176401869006197882634int, 114512492874341742984738452106335860357508439695744827185716172652400962int, 5int, 119548518636139100361811018093696589931063573449767755956474206747022765int);
    lemma_pow_mod_step(10int, 541580209370nat, m, 270790104685nat, 119548518636139100361811018093696589931063573449767755956474206747022765int, 69677150172556758253258922529330923653314919347557552878574241226679482int, 80379795446960996538866312178801314803970103329815941427539353265803403int, 0int, 80379795446960996538866312178801314803970103329815941427539353265803403int);
    lemma_pow_mod_step(10int, 1083160418740nat, m, 541580209370nat, 80379795446960996538866312178801314803970103329815941427539353265803403int, 31498928078013520574223213865871381049599497570855914856874443446598146int, 68986825727971163592057452831023287069380773700928258547450481464506243int, 0int, 68986825727971163592057452831023287069380773700928258547450481464506243int);
    lemma_pow_mod_step(10int, 2166320837481nat, m, 1083160418740nat, 68986825727971163592057452831023287069380773700928258547450481464506243int, 23202474613879035703364212479937794878594800244631903777820731971064618int, 22087771759912118826074131823428193453667103084090683558852177677655771int, 1int, 15762435577665522363626617640349531807866866139370732408384272821160339int);
    lemma_pow_mod_step(10int, 4332641674962nat, m, 2166320837481nat, 15762435577665522363626617640349531807866866139370732408384272821160339int, 1211291391316551276256141803718455844876765079645063391467401518343966int, 107355096003452079805952304153597991210895624045310527176696586956481535int, 0int, 107355096003452079805952304153597991210895624045310527176696586956481535int);
    lemma_pow_mod_step(10int, 8665283349924nat, m, 4332641674962nat, 107355096003452079805952304153597991210895624045310527176696586956481535int, 56188483492443295321446848127019004060459714363141635130844996518024147int, 37023033546877716736986879918712805433811081871577074511826581637638688int, 0int, 37023033546877716736986879918712805433811081871577074511826581637638688int);
    lemma_pow_mod_step(10int, 17330566699849nat, m, 8665283349924nat, 37023033546877716736986879918712805433811081871577074511826581637638688int, 6682607943711639209553340852314456139463277209467220325338946432300382int, 70993310479647724013949470633171403596321402221184955126558791989265622int, 3int, 94587258732110242448150604549916827776801528107241241725175408026464107int);
    lemma_pow_mod_step(10int, 34661133399699nat, m, 17330566699849nat, 94587258732110242448150604549916827776801528107241241725175408026464107int, 43618151832876639669301336695360038146407508537185212773612490650762538int, 79982305724062908578915253529429861412751924493288662801098439008819851int, 3int, 184477211176262088097808433512501405941106750828278318470571878222006397int);
    lemma_pow_mod_step(10int, 69322266799398nat, m, 34661133399699nat, 184477211176262088097808433512501405941106750828278318470571878222006397int, 165915679748383479656744045826730419062783596697755992750292017743256036int, 177269274237477980628363756775764088666017309061293711728983694534640253int, 0int, 177269274237477980628363756775764088666017309061293711728983694534640253int);
    lemma_pow_mod_step(10int, 138644533598796nat, m, 69322266799398nat, 177269274237477980628363756775764088666017309061293711728983694534640253int, 153203580342663544963334554901459053141110317555015679416478979885296001int, 121775884483623149970639471085864472036268363200240072976710180215690638int, 0int, 121775884483623149970639471085864472036268363200240072976710180215690638int);
    lemma_pow_mod_step(10int, 277289067197593nat, m, 138644533598796nat, 121775884483623149970639471085864472036268363200240072976710180215690638int, 72297714220130774329810969738673477499274119864216117888965000772415559int, 134333707708052379159928262342908437144036882244752937051524159932751655int, 6int, 112645384951789796216594419865489955067543834238312751434416575595132324int);
}

proof fn lemma_certificate_7723_4()
    requires
        pow_mod(10int, 277289067197593nat, 205115282021455665897114700593932402728804164701536103180137503955397371int) == 112645384951789796216594419865489955067543834238312751434416575595132324int,
    ensures
        pow_mod(10int, 1135776019241341245nat, 205115282021455665897114700593932402728804164701536103180137503955397371int) == 117517794645891148809257258244136184067075620264752103373243709687698242int,
{
    let m: int = 205115282021455665897114700593932402728804164701536103180137503955397371int;
    lemma_pow_mod_step(10int, 554578134395186nat, m, 277289067197593nat, 112645384951789796216594419865489955067543834238312751434416575595132324int, 61862688269173458753322557192979379824528154692077525854291505908974140int, 92100366892402816312994353624475130629644738493424564397685804406655036int, 0int, 92100366892402816312994353624475130629644738493424564397685804406655036int);
    lemma_pow_mod_step(10int, 1109156268790372nat, m, 554578134395186nat, 92100366892402816312994353624475130629644738493424564397685804406655036int, 41354683561939166123721681314331905576995276825338753025434017910920344int, 56714062036653505977338938762000584406188289124149038003864965456145672int, 0int, 56714062036653505977338938762000584406188289124149038003864965456145672int);
    lemma_pow_mod_step(10int, 2218312537580744nat, m, 1109156268790372nat, 56714062036653505977338938762000584406188289124149038003864965456145672int, 15681351486823534601674941118312540697235207674120317399419662905128501int, 179394656655115885981046921654374982237144627679609991392892838811760713int, 0int, 179394656655115885981046921654374982237144627679609991392892838811760713int);
    lemma_pow_mod_step(10int, 4436625075161489nat, m, 2218312537580744nat, 179394656655115885981046921654374982237144627679609991392892838811760713int, 156899293505788299185009345621283576690591882118162433209947587361849310int, 26599135967922068380995621029363366030203993503107513094925856698104359int, 1int, 60876077657765017912841509699701257573235770329539027769121063025646219int);
    lemma_pow_mod_step(10int, 8873250150322978nat, m, 4436625075161489nat, 60876077657765017912841509699701257573235770329539027769121063025646219int, 18067385298997806544624588871195504491987828321894467869095074101141955int, 121848514232041392343872350461628781498306922880419437271559745644195656int, 0int, 121848514232041392343872350461628781498306922880419437271559745644195656int);
    lemma_pow_mod_step(10int, 17746500300645956nat, m, 8873250150322978nat, 121848514232041392343872350461628781498306922880419437271559745644195656int, 72383979751459704768248416374562401814979847703499087741732335190466482int, 46320866437727520066633991493743259806740588781752878062586576042851514int, 0int, 46320866437727520066633991493743259806740588781752878062586576042851514int);
    lemma_pow_mod_step(10int, 35493000601291913nat, m, 17746500300645956nat, 46320866437727520066633991493743259806740588781752878062586576042851514int, 10460569521667104793745596533817540828076151052978658890712725215074016int, 177572803704129408541637452884538502499775669618021285888039207795280260int, 8int, 134805780869648758239456924093925803167323378567924033439292046309623632int);
    lemma_pow_mod_step(10int, 70986001202583827nat, m, 35493000601291913nat, 134805780869648758239456924093925803167323378567924033439292046309623632int, 88596999583750427209690003499004564427063058744798292211324971885612054int, 139791363982765869947167786143599098372062758351997652077905106375361390int, 6int, 167221947698924704088989657872396567347802595310759901698226040021229674int);
    lemma_pow_mod_step(10int, 141972002405167655nat, m, 70986001202583827nat, 167221947698924704088989657872396567347802595310759901698226040021229674int, 136329090239589645614883680603278985508639525994752990139131128304672095int, 59323144864343475410449501287375850334190296909895526781846427478084031int, 2int, 183000884600523422310265611685893697884294639695883061458189266870045568int);
    lemma_pow_mod_step(10int, 283944004810335311nat, m, 141972002405167655nat, 183000884600523422310265611685893697884294639695883061458189266870045568int, 163270739432623105164611807092719992173352756861044295823068748268742212int, 150270884338150905742937475482183419347586663641104338865331719574917972int, 7int, 66901869231319396149571850664307374374237483500290666392354668061398123int);
    lemma_pow_mod_step(10int, 567888009620670622nat, m, 283944004810335311nat, 66901869231319396149571850664307374374237483500290666392354668061398123int, 21821192758208882305159082036694358714059018053212990093424097064451910int, 156243869867762650146866980703721031448005640067376586480339155137994519int, 0int, 156243869867762650146866980703721031448005640067376586480339155137994519int);
    lemma_pow_mod_step(10int, 1135776019241341245nat, m, 567888009620670622nat, 156243869867762650146866980703721031448005640067376586480339155137994519int, 119016714067656677892404792903521774380709549705485869535250190315022840int, 175844005081753647598617486299559540589750893787704092881434374133087721int, 8int, 117517794645891148809257258244136184067075620264752103373243709687698242int);
}

proof fn lemma_certificate_7723_5()
    requires
        pow_mod(10int, 1135776019241341245nat, 205115282021455665897114700593932402728804164701536103180137503955397371int) == 117517794645891148809257258244136184067075620264752103373243709687698242int,
    ensures
        pow_mod(10int, 4652138574812533742937nat, 205115282021455665897114700593932402728804164701536103180137503955397371int) == 166992110830476274478306649867868762444769051453477813889522139982536567int,
{
    let m: int = 205115282021455665897114700593932402728804164701536103180137503955397371int;
    lemma_pow_mod_step(10int, 2271552038482682491nat, m, 1135776019241341245nat, 117517794645891148809257258244136184067075620264752103373243709687698242int, 67330098090834744688100543394483756347156811961595872427000247639220711int, 122234869447517035299060703031461965764459236996093095750362971271739783int, 5int, 196772284367892023505033527344957644000571546453250441602942192940410975int);
    lemma_pow_mod_step(10int, 4543104076965364983nat, m, 2271552038482682491nat, 196772284367892023505033527344957644000571546453250441602942192940410975int, 188768635441353447386698772273323716998685801221860573753849059232334110int, 55575304030019942649330035964348500537408941122407638420564585012825815int, 2int, 145522476257288094699070958455620199916481081821004177845370842217463408int);
    lemma_pow_mod_step(10int, 9086208153930729966nat, m, 4543104076965364983nat, 145522476257288094699070958455620199916481081821004177845370842217463408int, 103243360940009443955695415507024665425417908881915872772537456483837015int, 180378895014277768465284210735984609575366636831498973032831072695486899int, 0int, 180378895014277768465284210735984609575366636831498973032831072695486899int);
    lemma_pow_mod_step(10int, 18172416307861459933nat, m, 9086208153930729966nat, 180378895014277768465284210735984609575366636831498973032831072695486899int, 158625654051307703937122155583739782812333228680715502973607167228661347int, 54187070158467396296140916593041480571587444612733603357736534907517464int, 2int, 131640137541762631167179764742550000258266116724263827217090341164379898int);
    lemma_pow_mod_step(10int, 36344832615722919866nat, m, 18172416307861459933nat, 131640137541762631167179764742550000258266116724263827217090341164379898int, 84484810888939544711001942292734598699132805704637071893298285508345578int, 74373459334237277214971169713800158018252174892513982672258689085814966int, 0int, 74373459334237277214971169713800158018252174892513982672258689085814966int);
    lemma_pow_mod_step(10int, 72689665231445839733nat, m, 36344832615722919866nat, 74373459334237277214971169713800158018252174892513982672258689085814966int, 26967329780736883174995905147865809428487610286158409741030067761721377int, 99353878637060294903744037464187037819099112288075621680841267369281289int, 4int, 173077658284780285448981572266140767275774464074611804087862657871223406int);
    lemma_pow_mod_step(10int, 145379330462891679466nat, m, 72689665231445839733nat, 173077658284780285448981572266140767275774464074611804087862657871223406int, 146044095311287924738912723898968684845423637327172166372114558687874701int, 52510405269251720885410264050326606096019755525460739246297405249429765int, 0int, 52510405269251720885410264050326606096019755525460739246297405249429765int);
    lemma_pow_mod_step(10int, 290758660925783358933nat, m, 145379330462891679466nat, 52510405269251720885410264050326606096019755525460739246297405249429765int, 13442892379187196233372228628438232126566071361936107686132018073448532int, 13256888770797481453038505273120695477802273995838394380942049291345853int, 0int, 132568887707974814530385052731206954778022739958383943809420492913458530int);
    lemma_pow_mod_step(10int, 581517321851566717867nat, m, 290758660925783358933nat, 132568887707974814530385052731206954778022739958383943809420492913458530int, 85681134116039633198065972371955698484774642314235757432552940799503104int, 177062415720586930643077788095639305441498617732285936129326790361821316int, 8int, 129701901034223979253860276204933832584552859710570535852167871975034192int);
    lemma_pow_mod_step(10int, 1163034643703133435734nat, m, 581517321851566717867nat, 129701901034223979253860276204933832584552859710570535852167871975034192int, 82015259741260718583212087229089275265206490554433052327042483485496160int, 129628352349904871559747943394151017368552526885301389142539711674497504int, 0int, 129628352349904871559747943394151017368552526885301389142539711674497504int);
    lemma_pow_mod_step(10int, 2326069287406266871468nat, m, 1163034643703133435734nat, 129628352349904871559747943394151017368552526885301389142539711674497504int, 81922271063125325586875216351804050132089842010117687617568615307601067int, 160705828511286580897498440504444044272013879475789949429201454173635159int, 0int, 160705828511286580897498440504444044272013879475789949429201454173635159int);
    lemma_pow_mod_step(10int, 4652138574812533742937nat, m, 2326069287406266871468nat, 160705828511286580897498440504444044272013879475789949429201454173635159int, 125911453612693455170848271046272004071299213192395643781264443034549303int, 78233795689484327216965075164966597063118154555808612342993465184872868int, 3int, 166992110830476274478306649867868762444769051453477813889522139982536567int);
}

proof fn lemma_certificate_7723_6()
    requires
        pow_mod(10int, 4652138574812533742937nat, 205115282021455665897114700593932402728804164701536103180137503955397371int) == 166992110830476274478306649867868762444769051453477813889522139982536567int,
    ensures
        pow_mod(10int, 19055159602432138211070506nat, 205115282021455665897114700593932402728804164701536103180137503955397371int) == 7399335794798943461592017968734855347427454504273375543920838006297221int,
{
    let m: int = 205115282021455665897114700593932402728804164701536103180137503955397371int;
    lemma_pow_mod_step(10int, 9304277149625067485874nat, m, 4652138574812533742937nat, 166992110830476274478306649867868762444769051453477813889522139982536567int, 135954594922386500114612154462256348066372996331461988510937969752494194int, 47770046946174406912060422577260658756579602852715166237723675851781515int, 0int, 47770046946174406912060422577260658756579602852715166237723675851781515int);
    lemma_pow_mod_step(10int, 18608554299250134971748nat, m, 9304277149625067485874nat, 47770046946174406912060422577260658756579602852715166237723675851781515int, 11125340651122256154798009290410026035999823824249251957635658824053011int, 69375152358019312047353954675521807613771971242673199253742268021661144int, 0int, 69375152358019312047353954675521807613771971242673199253742268021661144int);
    lemma_pow_mod_step(10int, 37217108598500269943497nat, m, 18608554299250134971748nat, 69375152358019312047353954675521807613771971242673199253742268021661144int, 23464423114972719047797040028761615524987109126641260248362576940158077int, 56258916795936066591707393663250605003173458705124031133064407069173169int, 2int, 152358603916449334122844535444641244574126257648168104970369062780936948int);
    lemma_pow_mod_step(10int, 74434217197000539886994nat, m, 37217108598500269943497nat, 152358603916449334122844535444641244574126257648168104970369062780936948int, 113171207715967875823246819838975979837464230508669715331801162526800805int, 115755935736601562023888905264222220645471121417407930069728947613871049int, 0int, 115755935736601562023888905264222220645471121417407930069728947613871049int);
    lemma_pow_mod_step(10int, 148868434394001079773988nat, m, 74434217197000539886994nat, 115755935736601562023888905264222220645471121417407930069728947613871049int, 65326369279762440411998389703800517226054740801570407474400522555803314int, 192319358536992839298926260849805889460783492369791174864022841811672907int, 0int, 192319358536992839298926260849805889460783492369791174864022841811672907int);
    lemma_pow_mod_step(10int, 297736868788002159547976nat, m, 148868434394001079773988nat, 192319358536992839298926260849805889460783492369791174864022841811672907int, 180321696675001906584585671705575084163072463103674569218928410409922086int, 114319021368069348537803759733913202094976496734969624057110630678594743int, 0int, 114319021368069348537803759733913202094976496734969624057110630678594743int);
    lemma_pow_mod_step(10int, 595473737576004319095953nat, m, 297736868788002159547976nat, 114319021368069348537803759733913202094976496734969624057110630678594743int, 63714602431163842208712252346003357156487199078504715177384980831897520int, 224763375359100633919978886645371562732242074177259688954161677816129int, 0int, 2247633753591006339199788866453715627322420741772596889541616778161290int);
    lemma_pow_mod_step(10int, 1190947475152008638191906nat, m, 595473737576004319095953nat, 2247633753591006339199788866453715627322420741772596889541616778161290int, 24629356918189827262586129144523798213114832389925688215332341310291int, 123772937214729798333902863704287894915834081754701792666301773537819139int, 0int, 123772937214729798333902863704287894915834081754701792666301773537819139int);
    lemma_pow_mod_step(10int, 2381894950304017276383813nat, m, 1190947475152008638191906nat, 123772937214729798333902863704287894915834081754701792666301773537819139int, 74688437817904540532090769155006141501550561821083155644140453803950983int, 178081973928553089717337482725208018858950991548871965296259152703635628int, 8int, 139897483113885569996457222500620966759076597876430827521491495393177312int);
    lemma_pow_mod_step(10int, 4763789900608034552767626nat, m, 2381894950304017276383813nat, 139897483113885569996457222500620966759076597876430827521491495393177312int, 95416126915169010457888417633032255604011463913302881605849212069417008int, 47499847921689098386342070401610794479472133651111659704117775725659376int, 0int, 47499847921689098386342070401610794479472133651111659704117775725659376int);
    lemma_pow_mod_step(10int, 9527579801216069105535253nat, m, 4763789900608034552767626nat, 47499847921689098386342070401610794479472133651111659704117775725659376int, 10999841310446986779224736942373425899524384570654625330019763472522997int, 204533111829330021954824009789950837317966125630237041811251536905868489int, 9int, 199293580100199226474207792554116748620423773988545489491277833460108551int);
    lemma_pow_mod_step(10int, 19055159602432138211070506nat, m, 9527579801216069105535253nat, 199293580100199226474207792554116748620423773988545489491277833460108551int, 193637113128410938781373659019456516033560689295401572556628866583763780int, 7399335794798943461592017968734855347427454504273375543920838006297221int, 0int, 7399335794798943461592017968734855347427454504273375543920838006297221int);
}

proof fn lemma_certificate_7723_7()
    requires
        pow_mod(10int, 19055159602432138211070506nat, 205115282021455665897114700593932402728804164701536103180137503955397371int) == 7399335794798943461592017968734855347427454504273375543920838006297221int,
    ensures
        pow_mod(10int, 78049933731562038112544794739nat, 205115282021455665897114700593932402728804164701536103180137503955397371int) == 153135593291285587781535043271992613846735756976968517046791507674346143int,
{
    let m: int = 205115282021455665897114700593932402728804164701536103180137503955397371int;
    lemma_pow_mod_step(10int, 38110319204864276422141013nat, m, 19055159602432138211070506nat, 7399335794798943461592017968734855347427454504273375543920838006297221int, 266923895989699501813849682943528989312829601289554534819610102406054int, 68844310125512757346590385805177103558230108012678027136095104226238807int, 3int, 73097255190760575774559756269973827395888586022171961820538530396195957int);
    lemma_pow_mod_step(10int, 76220638409728552844282026nat, m, 38110319204864276422141013nat, 73097255190760575774559756269973827395888586022171961820538530396195957int, 26049783632719567354096382653494546380399289728336788444443346066345359int, 50172797981659897989392973797717132999379897405915695758289531776494660int, 0int, 50172797981659897989392973797717132999379897405915695758289531776494660int);
    lemma_pow_mod_step(10int, 152441276819457105688564052nat, m, 76220638409728552844282026nat, 50172797981659897989392973797717132999379897405915695758289531776494660int, 12272657758602001623862437855472398911474807660079585073009516096110013int, 85929216275688857698215799981743834555290255023577865222429648261539777int, 0int, 85929216275688857698215799981743834555290255023577865222429648261539777int);
    lemma_pow_mod_step(10int, 304882553638914211377128104nat, m, 152441276819457105688564052nat, 85929216275688857698215799981743834555290255023577865222429648261539777int, 35998440179516903935913748275728986643013813811099802961822995463266815int, 203415299104776202248421288764843851163589775390825654630807059830666364int, 0int, 203415299104776202248421288764843851163589775390825654630807059830666364int);
    lemma_pow_mod_step(10int, 609765107277828422754256208nat, m, 304882553638914211377128104nat, 203415299104776202248421288764843851163589775390825654630807059830666364int, 201729405542573504108422376960630152232974275325192218385474914082489467int, 30365070500489459828617511210705543547109341439587118750091345373989239int, 0int, 30365070500489459828617511210705543547109341439587118750091345373989239int);
    lemma_pow_mod_step(10int, 1219530214555656845508512417nat, m, 609765107277828422754256208nat, 30365070500489459828617511210705543547109341439587118750091345373989239int, 4495216043450372268422183362122574854331046304972734779955790286231122int, 160957686602755467321874337840796226503316598441806690600279943430618859int, 7int, 173769891877365011938940474250435445931536831507314183741836906618406993int);
    lemma_pow_mod_step(10int, 2439060429111313691017024835nat, m, 1219530214555656845508512417nat, 173769891877365011938940474250435445931536831507314183741836906618406993int, 147214654244594697321601086526564057796991077351109053237959617991923871int, 202464443725020381147429196445332315230060089119971125332512046405758908int, 9int, 178606899057102818400259659107931527741363408885886324703882928459012741int);
    lemma_pow_mod_step(10int, 4878120858222627382034049671nat, m, 2439060429111313691017024835nat, 178606899057102818400259659107931527741363408885886324703882928459012741int, 155524366962853780851426344803062922978215715469221718368438860214566562int, 45100290558598412957189466195875315939742187391228969330255917161024579int, 2int, 40772341543072797777665260770888353939813544509217486942284163699451048int);
    lemma_pow_mod_step(10int, 9756241716445254764068099342nat, m, 4878120858222627382034049671nat, 40772341543072797777665260770888353939813544509217486942284163699451048int, 8104631788142872848901406117768384150012622004723596573281153654716352int, 76564701336501142913227707703681405705197971207470909269425316096787712int, 0int, 76564701336501142913227707703681405705197971207470909269425316096787712int);
    lemma_pow_mod_step(10int, 19512483432890509528136198684nat, m, 9756241716445254764068099342nat, 76564701336501142913227707703681405705197971207470909269425316096787712int, 28579798798874582564826656306335396397393944108124600897557786314799323int, 191544865155229206761051448554262527663127639983829651433352324607415111int, 0int, 191544865155229206761051448554262527663127639983829651433352324607415111int);
    lemma_pow_mod_step(10int, 39024966865781019056272397369nat, m, 19512483432890509528136198684nat, 191544865155229206761051448554262527663127639983829651433352324607415111int, 178872266394549365387023341603653618207641034172108030899078482958297446int, 130388366788108731591347577890998293332362873625367956343346024526727855int, 6int, 73191975752353320530787575346388516950803748044462944352635221534894324int);
    lemma_pow_mod_step(10int, 78049933731562038112544794739nat, m, 39024966865781019056272397369nat, 73191975752353320530787575346388516950803748044462944352635221534894324int, 26117338804490986319768183454664319087589175633059813020845158924383262int, 158894256744147524906133794742951943294836490988772123930775403536212774int, 7int, 153135593291285587781535043271992613846735756976968517046791507674346143int);
}

proof fn lemma_certificate_7723_8()
    requires
        pow_mod(10int, 78049933731562038112544794739nat, 205115282021455665897114700593932402728804164701536103180137503955397371int) == 153135593291285587781535043271992613846735756976968517046791507674346143int,
    ensures
        pow_mod(10int, 319692528564478108108983479251982nat, 205115282021455665897114700593932402728804164701536103180137503955397371int) == 196485498267779365992134270336372162803966449570546065161516122561010898int,
{
    let m: int = 205115282021455665897114700593932402728804164701536103180137503955397371int;
    lemma_pow_mod_step(10int, 156099867463124076225089589478nat, m, 78049933731562038112544794739nat, 153135593291285587781535043271992613846735756976968517046791507674346143int, 114328438630043366235481897737511899593387056177061107886770860727426685int, 164019135614894316969287445255022554889846797354122048326099565134731314int, 0int, 164019135614894316969287445255022554889846797354122048326099565134731314int);
    lemma_pow_mod_step(10int, 312199734926248152450179178957nat, m, 156099867463124076225089589478nat, 164019135614894316969287445255022554889846797354122048326099565134731314int, 131156862534713700790334579831876984274137856226281830924722204120379723int, 30660759405381268710023337331646464311222753124795938357721523096258363int, 1int, 101492312032357021203118672722532240383423366546423280397077727007186259int);
    lemma_pow_mod_step(10int, 624399469852496304900358357914nat, m, 312199734926248152450179178957nat, 101492312032357021203118672722532240383423366546423280397077727007186259int, 50219024639011729849502102779614415467672735952122684620117351290563826int, 109663625308338443850783233837223791701753638563824251566503613850313635int, 0int, 109663625308338443850783233837223791701753638563824251566503613850313635int);
    lemma_pow_mod_step(10int, 1248798939704992609800716715828nat, m, 624399469852496304900358357914nat, 109663625308338443850783233837223791701753638563824251566503613850313635int, 58630983499852932756868908955553035867481397487518162666842277259106022int, 291838933352397730226333084085219165319212658737263164013742637845063int, 0int, 291838933352397730226333084085219165319212658737263164013742637845063int);
    lemma_pow_mod_step(10int, 2497597879409985219601433431656nat, m, 1248798939704992609800716715828nat, 291838933352397730226333084085219165319212658737263164013742637845063int, 415229729257112173360364050756076859813901167170819051183356335301int, 106441859465679414671924694290706151700704128555531592958582710623580298int, 0int, 106441859465679414671924694290706151700704128555531592958582710623580298int);
    lemma_pow_mod_step(10int, 4995195758819970439202866863312nat, m, 2497597879409985219601433431656nat, 106441859465679414671924694290706151700704128555531592958582710623580298int, 55236593465163207652158776856843271422254297937813140971877009240389664int, 169005433053526356473159108261118240005749687356504723924167564052595460int, 0int, 169005433053526356473159108261118240005749687356504723924167564052595460int);
    lemma_pow_mod_step(10int, 9990391517639940878405733726624nat, m, 4995195758819970439202866863312nat, 169005433053526356473159108261118240005749687356504723924167564052595460int, 139252600391921172596339274629283448447606928747441138251181228534460034int, 66315644215525553614400499409827155841304101010919726929656761024440986int, 0int, 66315644215525553614400499409827155841304101010919726929656761024440986int);
    lemma_pow_mod_step(10int, 19980783035279881756811467453248nat, m, 9990391517639940878405733726624nat, 66315644215525553614400499409827155841304101010919726929656761024440986int, 21440453506824267789648238464380609249729345261141209493096643751761052int, 64744559121785248415178004188901131358555394099186328912120812095657904int, 0int, 64744559121785248415178004188901131358555394099186328912120812095657904int);
    lemma_pow_mod_step(10int, 39961566070559763513622934906497nat, m, 19980783035279881756811467453248nat, 64744559121785248415178004188901131358555394099186328912120812095657904int, 20436594945840576931227025731448683601602903203504138579687539277035941int, 188665636756131567629640762904503693715089545069604746470811828893762105int, 9int, 40618829368214683222375323699645312591657968382222536086880753339044711int);
    lemma_pow_mod_step(10int, 79923132141119527027245869812995nat, m, 39961566070559763513622934906497nat, 40618829368214683222375323699645312591657968382222536086880753339044711int, 8043717089161383574256348241737684834283691596675778659149172059103603int, 122184160154815171716730101003903232368341465260921696154828534134245808int, 5int, 196265191440873387681727507069370310039393829101536445647597821565471225int);
    lemma_pow_mod_step(10int, 159846264282239054054491739625991nat, m, 79923132141119527027245869812995nat, 196265191440873387681727507069370310039393829101536445647597821565471225int, 187796954920664427887136416327786256440906610318365487018856372735747561int, 108462153383304233390119382106908068503489197418034524200949675803938494int, 5int, 59045123725764004415620318099418671390871150672664726108809238262398085int);
    lemma_pow_mod_step(10int, 319692528564478108108983479251982nat, m, 159846264282239054054491739625991nat, 59045123725764004415620318099418671390871150672664726108809238262398085int, 16996913157480383427159306946112311384252751068427768485609374159961637int, 196485498267779365992134270336372162803966449570546065161516122561010898int, 0int, 196485498267779365992134270336372162803966449570546065161516122561010898int);
}

proof fn lemma_certificate_7723_9()
    requires
        pow_mod(10int, 319692528564478108108983479251982nat, 205115282021455665897114700593932402728804164701536103180137503955397371int) == 196485498267779365992134270336372162803966449570546065161516122561010898int,
    ensures
        pow_mod(10int, 1309460597000102330814396331016119341nat, 205115282021455665897114700593932402728804164701536103180137503955397371int) == 136092129606163120871846286968299221263980504500917979761142721348390696int,
{
    let m: int = 205115282021455665897114700593932402728804164701536103180137503955397371int;
    lemma_pow_mod_step(10int, 639385057128956216217966958503964nat, m, 319692528564478108108983479251982nat, 196485498267779365992134270336372162803966449570546065161516122561010898int, 188218794080390210381967730274487875070583925256048527800644046043310721int, 79941169416701698783108316998600444547952460415501213773476661695251913int, 0int, 79941169416701698783108316998600444547952460415501213773476661695251913int);
    lemma_pow_mod_step(10int, 1278770114257912432435933917007929nat, m, 639385057128956216217966958503964nat, 79941169416701698783108316998600444547952460415501213773476661695251913int, 31156091855902420406371085386980087404713218624149962076742980929011149int, 71461786560191936703728095609570646701837195623161136063278872145870290int, 3int, 99272019537552369345936854313909258831959462127003051092376209592510787int);
    lemma_pow_mod_step(10int, 2557540228515824864871867834015858nat, m, 1278770114257912432435933917007929nat, 99272019537552369345936854313909258831959462127003051092376209592510787int, 48045829476680943111644212764627279256971396037527813405821471520279211int, 134359574511465012922182300486543307228169962529897922022225734336005088int, 0int, 134359574511465012922182300486543307228169962529897922022225734336005088int);
    lemma_pow_mod_step(10int, 5115080457031649729743735668031716nat, m, 2557540228515824864871867834015858nat, 134359574511465012922182300486543307228169962529897922022225734336005088int, 88011459141369945821001686826353750259544569337758951484395996155459266int, 115149535867710044399308712028935030017366735956598035284663915127898058int, 0int, 115149535867710044399308712028935030017366735956598035284663915127898058int);
    lemma_pow_mod_step(10int, 10230160914063299459487471336063432nat, m, 5115080457031649729743735668031716nat, 115149535867710044399308712028935030017366735956598035284663915127898058int, 64643723665416933051480940227332401476308159601562437083525602809856990int, 3043503734725130737257461415884623898681569341574548537288502108198074int, 0int, 3043503734725130737257461415884623898681569341574548537288502108198074int);
    lemma_pow_mod_step(10int, 20460321828126598918974942672126864nat, m, 10230160914063299459487471336063432nat, 3043503734725130737257461415884623898681569341574548537288502108198074int, 45159555602087662256329397623333816202207523157872241159285475031155int, 17273737485040224501669601114744213424800574389529564765207902587215971int, 0int, 17273737485040224501669601114744213424800574389529564765207902587215971int);
    lemma_pow_mod_step(10int, 40920643656253197837949885344253729nat, m, 20460321828126598918974942672126864nat, 17273737485040224501669601114744213424800574389529564765207902587215971int, 1454703929231719256806994663900341079027026586304603148859918098397162int, 177323898197901129592889417114650900125207891524470948260977826708811739int, 8int, 132316725807365968751976566395049779421645597632420657168678235444938422int);
    lemma_pow_mod_step(10int, 81841287312506395675899770688507458nat, m, 40920643656253197837949885344253729nat, 132316725807365968751976566395049779421645597632420657168678235444938422int, 85355492559302862886791139102288590384259716073912823137893455599510176int, 171121705132093877871910338259513446119065237183631951525652760333702788int, 0int, 171121705132093877871910338259513446119065237183631951525652760333702788int);
    lemma_pow_mod_step(10int, 163682574625012791351799541377014917nat, m, 81841287312506395675899770688507458nat, 171121705132093877871910338259513446119065237183631951525652760333702788int, 142761854108228920631355680667967527562028084401690800430699420690887773int, 195290451083955015754723064512711018206970079721652387674399309738728161int, 9int, 106866972646449164473198339781718557510463314902698948122755561788705271int);
    lemma_pow_mod_step(10int, 327365149250025582703599082754029835nat, m, 163682574625012791351799541377014917nat, 106866972646449164473198339781718557510463314902698948122755561788705271int, 55678688248212976172173370783915671492787716153534033034036301356115220int, 193471138258783273675501642697641184574421381262391248287288190542096821int, 9int, 88673844394731743680984121631020221184976330310087554251644369822391871int);
    lemma_pow_mod_step(10int, 654730298500051165407198165508059670nat, m, 327365149250025582703599082754029835nat, 88673844394731743680984121631020221184976330310087554251644369822391871int, 38334787160903008154618902840983714842330245443294954374042466528075868int, 46597167614055695437927320726826987519669264831139603154020401511137613int, 0int, 46597167614055695437927320726826987519669264831139603154020401511137613int);
    lemma_pow_mod_step(10int, 1309460597000102330814396331016119341nat, m, 654730298500051165407198165508059670nat, 46597167614055695437927320726826987519669264831139603154020401511137613int, 10585735047402645298054502297158869340349871498929349197771400135283781int, 95655325769198578446030508934402883217919716330706239248169273716998018int, 4int, 136092129606163120871846286968299221263980504500917979761142721348390696int);
}

proof fn lemma_certificate_7723_10()
    requires
        pow_mod(10int, 1309460597000102330814396331016119341nat, 205115282021455665897114700593932402728804164701536103180137503955397371int) == 136092129606163120871846286968299221263980504500917979761142721348390696int,
    ensures
        pow_mod(10int, 5363550605312419147015767371842024822367nat, 205115282021455665897114700593932402728804164701536103180137503955397371int) == 127427279290701566643223630912617885528889596317330765182584808078389199int,
{
    let m: int = 205115282021455665897114700593932402728804164701536103180137503955397371int;
    lemma_pow_mod_step(10int, 2618921194000204661628792662032238682nat, m, 1309460597000102330814396331016119341nat, 136092129606163120871846286968299221263980504500917979761142721348390696int, 90295893890555371284838968219310584183877131605808949790477157777626144int, 43926889210617249966502902518145675840296445955712381546449056460896992int, 0int, 43926889210617249966502902518145675840296445955712381546449056460896992int);
    lemma_pow_mod_step(10int, 5237842388000409323257585324064477365nat, m, 2618921194000204661628792662032238682nat, 43926889210617249966502902518145675840296445955712381546449056460896992int, 9407254187525643569699970021947008343914093828419554947403563307782580int, 44138175148523735057869848958244284927053403693328970507319860463050884int, 2int, 31151187442326018784469088394578043812925707530217498712923596719714098int);
    lemma_pow_mod_step(10int, 10475684776000818646515170648128954731nat, m, 5237842388000409323257585324064477365nat, 31151187442326018784469088394578043812925707530217498712923596719714098int, 4730980887935126660119621453505003218222804922287879266806124822772529int, 99007669249098307819460331507314131895072472476080123060671396722332345int, 4int, 169615564405160414606144512697411708035508065954656817886163951401733966int);
    lemma_pow_mod_step(10int, 20951369552001637293030341296257909462nat, m, 10475684776000818646515170648128954731nat, 169615564405160414606144512697411708035508065954656817886163951401733966int, 140259854872596728541273728888326728497180816172196526783964413000952303int, 38222178309273096758235672748655551088955080569548983661122051655493743int, 0int, 38222178309273096758235672748655551088955080569548983661122051655493743int);
    lemma_pow_mod_step(10int, 41902739104003274586060682592515818924nat, m, 20951369552001637293030341296257909462nat, 38222178309273096758235672748655551088955080569548983661122051655493743int, 7122506428131711254877714492348761920378634016527627340919642577481283int, 113647510213479962378299866865609374495640135882993616419684202532243056int, 0int, 113647510213479962378299866865609374495640135882993616419684202532243056int);
    lemma_pow_mod_step(10int, 83805478208006549172121365185031637849nat, m, 41902739104003274586060682592515818924nat, 113647510213479962378299866865609374495640135882993616419684202532243056int, 62968280327216213851545194582936319952479092379391511278062190678269259int, 155807281591812873703244722423672545372249590165957356111645860781501047int, 7int, 122265841767939075752644320079198634620866748748820838855496080127228873int);
    lemma_pow_mod_step(10int, 167610956416013098344242730370063275698nat, m, 83805478208006549172121365185031637849nat, 122265841767939075752644320079198634620866748748820838855496080127228873int, 72880654800060253322796855377082747458024714201609072260365968557791684int, 98827087775416886407427375463888418707478446379717921236914977665587365int, 0int, 98827087775416886407427375463888418707478446379717921236914977665587365int);
    lemma_pow_mod_step(10int, 335221912832026196688485460740126551397nat, m, 167610956416013098344242730370063275698nat, 98827087775416886407427375463888418707478446379717921236914977665587365int, 47616117053376443647763321703687719525903894344125743849903408896685400int, 107944716707986777453518374026082218944894304635171861587550308673559825int, 5int, 53870756972589445049610237291160175804922222844038099974815566958611395int);
    lemma_pow_mod_step(10int, 670443825664052393376970921480253102795nat, m, 335221912832026196688485460740126551397nat, 53870756972589445049610237291160175804922222844038099974815566958611395int, 14148426329815008140220868676966935950060357745142406615333562888643877int, 114976123381709053001835148860041215955978027358767385769992289782798658int, 5int, 124184823709812200532777985630750145915759450079993341799235378050999725int);
    lemma_pow_mod_step(10int, 1340887651328104786753941842960506205591nat, m, 670443825664052393376970921480253102795nat, 124184823709812200532777985630750145915759450079993341799235378050999725int, 75186355145512566736088008023663034504255680868155410774901937061309215int, 162144929194509604919155437453256730099580556459043974626970637121001860int, 7int, 185642317794906387911751470375040481894176411679687024008743843522237003int);
    lemma_pow_mod_step(10int, 2681775302656209573507883685921012411183nat, m, 1340887651328104786753941842960506205591nat, 185642317794906387911751470375040481894176411679687024008743843522237003int, 168018052173509323112424319700256116851899965419578905218824126387098899int, 195457492225531342220870362345349674078401301806337755857261331880827480int, 9int, 108537384062212429134671318108105116224775535749552629951375783209698461int);
    lemma_pow_mod_step(10int, 5363550605312419147015767371842024822367nat, m, 2681775302656209573507883685921012411183nat, 108537384062212429134671318108105116224775535749552629951375783209698461int, 57432891508473482211259912402974318924070381250783855981845795537881784int, 33254256131215723254033833150655028825769376101886686836272231203378657int, 1int, 127427279290701566643223630912617885528889596317330765182584808078389199int);
}

proof fn lemma_certificate_7723_11()
    requires
        pow_mod(10int, 5363550605312419147015767371842024822367nat, 205115282021455665897114700593932402728804164701536103180137503955397371int) == 127427279290701566643223630912617885528889596317330765182584808078389199int,
    ensures
        pow_mod(10int, 21969103279359668826176583155064933672417795nat, 205115282021455665897114700593932402728804164701536103180137503955397371int) == 181669089644969136061060723164174161732786385501997034309653053097429429int,
{
    let m: int = 205115282021455665897114700593932402728804164701536103180137503955397371int;
    lemma_pow_mod_step(10int, 10727101210624838294031534743684049644735nat, m, 5363550605312419147015767371842024822367nat, 127427279290701566643223630912617885528889596317330765182584808078389199int, 79163830931582892266749710340708861384388826415316725485781211899601437int, 71474306859086934471546899020369222648109938570304519417057510662239474int, 3int, 99397222526502347024124888421895018294686891598436884630162594756202627int);
    lemma_pow_mod_step(10int, 21454202421249676588063069487368099289470nat, m, 10727101210624838294031534743684049644735nat, 99397222526502347024124888421895018294686891598436884630162594756202627int, 48167097783331270564656773699938909723367346113951367774294894546199434int, 117020005906864266354205193205090035503751255907076740802776809796413115int, 0int, 117020005906864266354205193205090035503751255907076740802776809796413115int);
    lemma_pow_mod_step(10int, 42908404842499353176126138974736198578941nat, m, 21454202421249676588063069487368099289470nat, 117020005906864266354205193205090035503751255907076740802776809796413115int, 66760904636106772988870725636331498937234628376232768958444979340931569int, 17217893000145101916228693796363521778559267447550292801166379030498126int, 0int, 172178930001451019162286937963635217785592674475502928011663790304981260int);
    lemma_pow_mod_step(10int, 85816809684998706352252277949472397157882nat, m, 42908404842499353176126138974736198578941nat, 172178930001451019162286937963635217785592674475502928011663790304981260int, 144531327184795299580860526835375451253048263962445222701496695914127989int, 107516566349044386684913225823649661561227422523009488431748579503070681int, 0int, 107516566349044386684913225823649661561227422523009488431748579503070681int);
    lemma_pow_mod_step(10int, 171633619369997412704504555898944794315764nat, m, 85816809684998706352252277949472397157882nat, 107516566349044386684913225823649661561227422523009488431748579503070681int, 56357634231657459958940236143810202987598779474185010437946254373308673int, 58069365587064809748806171253258615761514440774608617299684830326105078int, 0int, 58069365587064809748806171253258615761514440774608617299684830326105078int);
    lemma_pow_mod_step(10int, 343267238739994825409009111797889588631528nat, m, 171633619369997412704504555898944794315764nat, 58069365587064809748806171253258615761514440774608617299684830326105078int, 16439785404831319362624259560931792814868988979268923576457740840205297int, 39860649214915749631788875614937981147570756575839703531193139043311897int, 0int, 39860649214915749631788875614937981147570756575839703531193139043311897int);
    lemma_pow_mod_step(10int, 686534477479989650818018223595779177263056nat, m, 343267238739994825409009111797889588631528nat, 39860649214915749631788875614937981147570756575839703531193139043311897int, 7746235873679870028465704377192961530553763465889757684320560712815281int, 194153610119284531633674006190666323162142359658997168602972337945712358int, 0int, 194153610119284531633674006190666323162142359658997168602972337945712358int);
    lemma_pow_mod_step(10int, 1373068954959979301636036447191558354526112nat, m, 686534477479989650818018223595779177263056nat, 194153610119284531633674006190666323162142359658997168602972337945712358int, 183777746596219344356846705282009969160628826892528889276348345918187472int, 139166842198451422994622460963401302882131775378565187498055848239984052int, 0int, 139166842198451422994622460963401302882131775378565187498055848239984052int);
    lemma_pow_mod_step(10int, 2746137909919958603272072894383116709052224nat, m, 1373068954959979301636036447191558354526112nat, 139166842198451422994622460963401302882131775378565187498055848239984052int, 94422072195784959904511373748106786361038927504610550461697547042738420int, 88574792451049662845244588263368655333797625840195607205518166105644884int, 0int, 88574792451049662845244588263368655333797625840195607205518166105644884int);
    lemma_pow_mod_step(10int, 5492275819839917206544145788766233418104448nat, m, 2746137909919958603272072894383116709052224nat, 88574792451049662845244588263368655333797625840195607205518166105644884int, 38249192261188332373160628359484885171358328226257463755807124289097906int, 160221037962822073631914850805402883296460429955901640186843228161368330int, 0int, 160221037962822073631914850805402883296460429955901640186843228161368330int);
    lemma_pow_mod_step(10int, 10984551639679834413088291577532466836208897nat, m, 5492275819839917206544145788766233418104448nat, 160221037962822073631914850805402883296460429955901640186843228161368330int, 125152942057232149010705720589931274955003785824583165020652881211935926int, 3896731977321606304329612168814923351579387397282490455286562406138354int, 0int, 38967319773216063043296121688149233515793873972824904552865624061383540int);
    lemma_pow_mod_step(10int, 21969103279359668826176583155064933672417795nat, m, 10984551639679834413088291577532466836208897nat, 38967319773216063043296121688149233515793873972824904552865624061383540int, 7402919935284202715490471764192329095116109903232682077051138125496520int, 38678437166642480195817542375810656446159055020353313748979055705282680int, 1int, 181669089644969136061060723164174161732786385501997034309653053097429429int);
}

proof fn lemma_certificate_7723_12()
    requires
        pow_mod(10int, 21969103279359668826176583155064933672417795nat, 205115282021455665897114700593932402728804164701536103180137503955397371int) == 181669089644969136061060723164174161732786385501997034309653053097429429int,
    ensures
        pow_mod(10int, 89985447032257203512019284603145968322223292303nat, 205115282021455665897114700593932402728804164701536103180137503955397371int) == 113349281079460911038716064487941903623406897719380531834428960530706147int,
{
    let m: int = 205115282021455665897114700593932402728804164701536103180137503955397371int;
    lemma_pow_mod_step(10int, 43938206558719337652353166310129867344835591nat, m, 21969103279359668826176583155064933672417795nat, 181669089644969136061060723164174161732786385501997034309653053097429429int, 160902970306130343841973638212474952844971424412647702491391715102535940int, 38578020107834010845462630521657487592213030629220793353784315126252301int, 1int, 180664919056884442557511604622642473193326141590671830357705647307125639int);
    lemma_pow_mod_step(10int, 87876413117438675304706332620259734689671183nat, m, 43938206558719337652353166310129867344835591nat, 180664919056884442557511604622642473193326141590671830357705647307125639int, 159129113424207886787918314793739377125249144076566098371352662519911605int, 194064818839181055333114052123882633815844998844876905121096926561767866int, 9int, 94610650198709560257108215893434713599212506134944122589731730019102321int);
    lemma_pow_mod_step(10int, 175752826234877350609412665240519469379342367nat, m, 87876413117438675304706332620259734689671183nat, 94610650198709560257108215893434713599212506134944122589731730019102321int, 43639728072949054709583794568411918123464560692269165269890369829958352int, 191460619278457878912715147965254180962782221519822460704020576127294449int, 9int, 68568654591477796053119174307150185068584732884399678418968225674368151int);
    lemma_pow_mod_step(10int, 351505652469754701218825330481038938758684735nat, m, 175752826234877350609412665240519469379342367nat, 68568654591477796053119174307150185068584732884399678418968225674368151int, 22922038505125042036102460644327844714848092781536744283937007365115369int, 116208049526609208615243992116292152706256420861954842651953885428863902int, 5int, 136504085158813756666866418193259513418543385111867910618851334511652165int);
    lemma_pow_mod_step(10int, 703011304939509402437650660962077877517369471nat, m, 351505652469754701218825330481038938758684735nat, 136504085158813756666866418193259513418543385111867910618851334511652165int, 90843378813166992203379417694242472973746197152979827869352217193880971int, 120775340191601434868386117620096538778665194081476068195053867968859984int, 5int, 182176991808736019198287673231303374142631117307080166049851159911612985int);
    lemma_pow_mod_step(10int, 1406022609879018804875301321924155755034738942nat, m, 703011304939509402437650660962077877517369471nat, 182176991808736019198287673231303374142631117307080166049851159911612985int, 161803918349724228850109766127538426857392626988564662329304505029825921int, 41077068627237974424397245248046245424294527565274324256870239909556534int, 0int, 41077068627237974424397245248046245424294527565274324256870239909556534int);
    lemma_pow_mod_step(10int, 2812045219758037609750602643848311510069477884nat, m, 1406022609879018804875301321924155755034738942nat, 41077068627237974424397245248046245424294527565274324256870239909556534int, 8226230392869113466405878333611840746445846267329878265195793957484544int, 198838121131868142892441571821625528930316596250045274107984289431359332int, 0int, 198838121131868142892441571821625528930316596250045274107984289431359332int);
    lemma_pow_mod_step(10int, 5624090439516075219501205287696623020138955768nat, m, 2812045219758037609750602643848311510069477884nat, 198838121131868142892441571821625528930316596250045274107984289431359332int, 192753060745204851437539459242638942000540527367699328079943488761001035int, 83647611757362270443968891686192296363848450203363136508996728136207239int, 0int, 83647611757362270443968891686192296363848450203363136508996728136207239int);
    lemma_pow_mod_step(10int, 11248180879032150439002410575393246040277911537nat, m, 5624090439516075219501205287696623020138955768nat, 83647611757362270443968891686192296363848450203363136508996728136207239int, 34112148464776563461772696613108218353143259054065471147068562339457108int, 163106794526119623595757620655453839367163258523861645353792141405540053int, 7int, 195260971111006574677773302397011574570003432327863731276958886367618933int);
    lemma_pow_mod_step(10int, 22496361758064300878004821150786492080555823075nat, m, 11248180879032150439002410575393246040277911537nat, 195260971111006574677773302397011574570003432327863731276958886367618933int, 185880088813787960702703135601085846848350913769320690154470299723427304int, 18306083979572598937373618220292120234218822095947097049594570548840705int, 0int, 183060839795725989373736182202921202342188220959470970495945705488407050int);
    lemma_pow_mod_step(10int, 44992723516128601756009642301572984161111646151nat, m, 22496361758064300878004821150786492080555823075nat, 183060839795725989373736182202921202342188220959470970495945705488407050int, 163377739271572548661028260413385361461191575549712433636474544836775924int, 105365777664241843134921505010241480059947652889628503351626832584006696int, 5int, 28081366535140101863641547132752786955455705388604517615580806063080105int);
    lemma_pow_mod_step(10int, 89985447032257203512019284603145968322223292303nat, m, 44992723516128601756009642301572984161111646151nat, 28081366535140101863641547132752786955455705388604517615580806063080105int, 3844487542368492902155634593517375591614741497660322585898078054680669int, 72869512714382790873006016626973911180981939182398884137484147239689826int, 3int, 113349281079460911038716064487941903623406897719380531834428960530706147int);
}

proof fn lemma_certificate_7723_13()
    requires
        pow_mod(10int, 89985447032257203512019284603145968322223292303nat, 205115282021455665897114700593932402728804164701536103180137503955397371int) == 113349281079460911038716064487941903623406897719380531834428960530706147int,
    ensures
        pow_mod(10int, 368580391044125505585230989734485886247826605276704nat, 205115282021455665897114700593932402728804164701536103180137503955397371int) == 29504103042855223596456853981584340283305561317348633851875781620961502int,
{
    let m: int = 205115282021455665897114700593932402728804164701536103180137503955397371int;
    lemma_pow_mod_step(10int, 179970894064514407024038569206291936644446584607nat, m, 89985447032257203512019284603145968322223292303nat, 113349281079460911038716064487941903623406897719380531834428960530706147int, 62638236383999365789630974921020792839968244077305376673329743476591440int, 134951635888817703942847641869100301844512532975876867208869072646481369int, 6int, 118824666759443044045788215127408602072300341549552053007865702732429464int);
    lemma_pow_mod_step(10int, 359941788129028814048077138412583873288893169215nat, m, 179970894064514407024038569206291936644446584607nat, 118824666759443044045788215127408602072300341549552053007865702732429464int, 68835931147323132880309363496710241170976983256182949602825798738396631int, 85062483620617302083222819605489396032880296862904557718548724722670195int, 4int, 30163708120350357243769393679164349413586309822901164464937231405112466int);
    lemma_pow_mod_step(10int, 719883576258057628096154276825167746577786338431nat, m, 359941788129028814048077138412583873288893169215nat, 30163708120350357243769393679164349413586309822901164464937231405112466int, 4435794732615374567295875083758166606172165670229251438864822141275591int, 36893349506230874134184651295574341814622161225052156039612838880729895int, 1int, 163818213040853075444731812361811015417417447548985457215990884851901579int);
    lemma_pow_mod_step(10int, 1439767152516115256192308553650335493155572676862nat, m, 719883576258057628096154276825167746577786338431nat, 163818213040853075444731812361811015417417447548985457215990884851901579int, 130835726423793020931195466361745221786909684118810801534274178464811189int, 3006788860224747551936044555691993055974648651648368532761479320709122int, 0int, 3006788860224747551936044555691993055974648651648368532761479320709122int);
    lemma_pow_mod_step(10int, 2879534305032230512384617107300670986311145353724nat, m, 1439767152516115256192308553650335493155572676862nat, 3006788860224747551936044555691993055974648651648368532761479320709122int, 44076575674288101992523566567096257084191628265576686382938682272920int, 69374632367036177528063334189426758715990844344789500144260704861517564int, 0int, 69374632367036177528063334189426758715990844344789500144260704861517564int);
    lemma_pow_mod_step(10int, 5759068610064461024769234214601341972622290707448nat, m, 2879534305032230512384617107300670986311145353724nat, 69374632367036177528063334189426758715990844344789500144260704861517564int, 23464071368207398375345673309285752680288469139452696065327954577014918int, 166454032048499439225003459628154556164167151472836062746265401395513518int, 0int, 166454032048499439225003459628154556164167151472836062746265401395513518int);
    lemma_pow_mod_step(10int, 11518137220128922049538468429202683945244581414897nat, m, 5759068610064461024769234214601341972622290707448nat, 166454032048499439225003459628154556164167151472836062746265401395513518int, 135079865879055515464253310256473842476412898192415232617258788024626456int, 198469065319034141107329092189385470269390703822393165781858611601289148int, 9int, 138653114997240417999258616548463078134669555910106729197348580414315141int);
    lemma_pow_mod_step(10int, 23036274440257844099076936858405367890489162829794nat, m, 11518137220128922049538468429202683945244581414897nat, 138653114997240417999258616548463078134669555910106729197348580414315141int, 93726250472293023018554790222418694021370077489067668635954126341258829int, 138195723963189320706268733841180139828328560484358980953552075004711322int, 0int, 138195723963189320706268733841180139828328560484358980953552075004711322int);
    lemma_pow_mod_step(10int, 46072548880515688198153873716810735780978325659588nat, m, 23036274440257844099076936858405367890489162829794nat, 138195723963189320706268733841180139828328560484358980953552075004711322int, 93108899217525418782973344594593345984003385830252755316532303709531878int, 71700337323632541657792911283239387823455473832148347135727558673094946int, 0int, 71700337323632541657792911283239387823455473832148347135727558673094946int);
    lemma_pow_mod_step(10int, 92145097761031376396307747433621471561956651319176nat, m, 46072548880515688198153873716810735780978325659588nat, 71700337323632541657792911283239387823455473832148347135727558673094946int, 25063653578892948256526554688640116981336497878974125404511027646084361int, 185454795849606008983568408499327813628088904689458020227032642387127985int, 0int, 185454795849606008983568408499327813628088904689458020227032642387127985int);
    lemma_pow_mod_step(10int, 184290195522062752792615494867242943123913302638352nat, m, 92145097761031376396307747433621471561956651319176nat, 185454795849606008983568408499327813628088904689458020227032642387127985int, 167678785142987942670210287441909527882569340797799762231737731084941593int, 9849827699658548188989210580259732411070351973674683099320362129408222int, 0int, 9849827699658548188989210580259732411070351973674683099320362129408222int);
    lemma_pow_mod_step(10int, 368580391044125505585230989734485886247826605276704nat, m, 184290195522062752792615494867242943123913302638352nat, 9849827699658548188989210580259732411070351973674683099320362129408222int, 472997939289634797821041755468198511254413270425863083719719530356242int, 29504103042855223596456853981584340283305561317348633851875781620961502int, 0int, 29504103042855223596456853981584340283305561317348633851875781620961502int);
}

proof fn lemma_certificate_7723_14()
    requires
        pow_mod(10int, 368580391044125505585230989734485886247826605276704nat, 205115282021455665897114700593932402728804164701536103180137503955397371int) == 29504103042855223596456853981584340283305561317348633851875781620961502int,
    ensures
        pow_mod(10int, 1509705281716738070877106133952454190071097775213380677nat, 205115282021455665897114700593932402728804164701536103180137503955397371int) == 22331689029700378934191927604435773887535777803705667551447169715185366int,
{
    let m: int = 205115282021455665897114700593932402728804164701536103180137503955397371int;
    lemma_pow_mod_step(10int, 737160782088251011170461979468971772495653210553408nat, m, 368580391044125505585230989734485886247826605276704nat, 29504103042855223596456853981584340283305561317348633851875781620961502int, 4243916337117986230630279352862868435413181880421462157395995310894858int, 130725229822088798034639895744397528356412931904262817818342461975477686int, 0int, 130725229822088798034639895744397528356412931904262817818342461975477686int);
    lemma_pow_mod_step(10int, 1474321564176502022340923958937943544991306421106817nat, m, 737160782088251011170461979468971772495653210553408nat, 130725229822088798034639895744397528356412931904262817818342461975477686int, 83314541674424655829000580604737275435812037550637955102848942438827909int, 120314030169351411748874608637806348077615570075391335385049468303887357int, 5int, 177563891586235788003172583408401467132134877246232837949807163261886715int);
    lemma_pow_mod_step(10int, 2948643128353004044681847917875887089982612842213634nat, m, 1474321564176502022340923958937943544991306421106817nat, 177563891586235788003172583408401467132134877246232837949807163261886715int, 153713244983620851994496326248987257624967007659849496260559821635671469int, 97651516312157136019403181872114694372841718212579508938712393191183226int, 0int, 97651516312157136019403181872114694372841718212579508938712393191183226int);
    lemma_pow_mod_step(10int, 5897286256706008089363695835751774179965225684427268nat, m, 2948643128353004044681847917875887089982612842213634nat, 97651516312157136019403181872114694372841718212579508938712393191183226int, 46490044740137969607655147414019539563207478920535416214140494609215195int, 62232812060977311274769390290249891187782301030429519605148707227514731int, 0int, 62232812060977311274769390290249891187782301030429519605148707227514731int);
    lemma_pow_mod_step(10int, 11794572513412016178727391671503548359930451368854536nat, m, 5897286256706008089363695835751774179965225684427268nat, 62232812060977311274769390290249891187782301030429519605148707227514731int, 18881688672089307795471605040939076868155646091351798922228778115782149int, 40692362708356582060881978544508244703408968101259721342774041058672082int, 0int, 40692362708356582060881978544508244703408968101259721342774041058672082int);
    lemma_pow_mod_step(10int, 23589145026824032357454783343007096719860902737709073nat, m, 11794572513412016178727391671503548359930451368854536nat, 40692362708356582060881978544508244703408968101259721342774041058672082int, 8072866957885861912994969258769541844092917462278096891550348133002970int, 179337366739198534757511923206113064438140418317554206657699431333022854int, 8int, 152451411220340020398201627309671422550970865563253241135894281687049572int);
    lemma_pow_mod_step(10int, 47178290053648064714909566686014193439721805475418146nat, m, 23589145026824032357454783343007096719860902737709073nat, 152451411220340020398201627309671422550970865563253241135894281687049572int, 113309123308725930887450741477117571847739752851561512022062924842077059int, 156153106966397961111085972902499574255405229691411560536097889037371295int, 0int, 156153106966397961111085972902499574255405229691411560536097889037371295int);
    lemma_pow_mod_step(10int, 94356580107296129429819133372028386879443610950836292nat, m, 47178290053648064714909566686014193439721805475418146nat, 156153106966397961111085972902499574255405229691411560536097889037371295int, 118878479335872724091148174888196678175032279372904616519440242311800777int, 61787521462007806365516012460795987167648655907514917420251868068419758int, 0int, 61787521462007806365516012460795987167648655907514917420251868068419758int);
    lemma_pow_mod_step(10int, 188713160214592258859638266744056773758887221901672584nat, m, 94356580107296129429819133372028386879443610950836292nat, 61787521462007806365516012460795987167648655907514917420251868068419758int, 18612449403056827299093114369490457494608265625319592120624802513067840int, 77130832555052709908660235689877295681740611500419721454314423804129924int, 0int, 77130832555052709908660235689877295681740611500419721454314423804129924int);
    lemma_pow_mod_step(10int, 377426320429184517719276533488113547517774443803345169nat, m, 188713160214592258859638266744056773758887221901672584nat, 77130832555052709908660235689877295681740611500419721454314423804129924int, 29004008243585081270303422203806394520705010685989189854576469648224805int, 185622990272480534778125759057428794695446886654037331349075450158258121int, 9int, 10192364531704354707225285228896322395231384226548384869516965984004871int);
    lemma_pow_mod_step(10int, 754852640858369035438553066976227095035548887606690338nat, m, 377426320429184517719276533488113547517774443803345169nat, 10192364531704354707225285228896322395231384226548384869516965984004871int, 506467844440173526289902009314777274632340748401094940969764224045004int, 176438534996215562241354599848314854719828417591664487412211152344442157int, 0int, 176438534996215562241354599848314854719828417591664487412211152344442157int);
    lemma_pow_mod_step(10int, 1509705281716738070877106133952454190071097775213380677nat, m, 754852640858369035438553066976227095035548887606690338nat, 176438534996215562241354599848314854719828417591664487412211152344442157int, 151771025175756700971274028659243788070266282318825959960438164198436084int, 84279281711552304252265072998016538480275243660985008027199718553677485int, 4int, 22331689029700378934191927604435773887535777803705667551447169715185366int);
}

proof fn lemma_certificate_7723_15()
    requires
        pow_mod(10int, 1509705281716738070877106133952454190071097775213380677nat, 205115282021455665897114700593932402728804164701536103180137503955397371int) == 22331689029700378934191927604435773887535777803705667551447169715185366int,
    ensures
        pow_mod(10int, 6183752833911759138312626724669252362531216487274007253964nat, 205115282021455665897114700593932402728804164701536103180137503955397371int) == 200011894891626256650326035411657177300777306270877740498014749432094938int,
{
    let m: int = 205115282021455665897114700593932402728804164701536103180137503955397371int;
    lemma_pow_mod_step(10int, 3019410563433476141754212267904908380142195550426761354nat, m, 1509705281716738070877106133952454190071097775213380677nat, 22331689029700378934191927604435773887535777803705667551447169715185366int, 2431336807303681554757574617708560552158484550551882955472602822309435int, 82347018615794874523203704250097452415977671284115082180145396393058571int, 0int, 82347018615794874523203704250097452415977671284115082180145396393058571int);
    lemma_pow_mod_step(10int, 6038821126866952283508424535809816760284391100853522708nat, m, 3019410563433476141754212267904908380142195550426761354nat, 82347018615794874523203704250097452415977671284115082180145396393058571int, 33059611200499198494322326274045053941265433889337482788577536688165199int, 151473004907093654878423488066386727053530579807006651021586097298270212int, 0int, 151473004907093654878423488066386727053530579807006651021586097298270212int);
    lemma_pow_mod_step(10int, 12077642253733904567016849071619633520568782201707045417nat, m, 6038821126866952283508424535809816760284391100853522708nat, 151473004907093654878423488066386727053530579807006651021586097298270212int, 111859394334081848948150798796129560781146396755736451652663773465844170int, 35023829612978273885299427077250202240794226199342503658735659052847874int, 1int, 145123014108327072955879570178569619679138097291888933407219086573081369int);
    lemma_pow_mod_step(10int, 24155284507467809134033698143239267041137564403414090835nat, m, 12077642253733904567016849071619633520568782201707045417nat, 145123014108327072955879570178569619679138097291888933407219086573081369int, 102677328653077581041749704810550948637828200993457678826371403840079686int, 54609868648249560989859168650981939749570853193855464248584229060008655int, 2int, 135868122439584278104362285321954592038100202535482436125567282689291808int);
    lemma_pow_mod_step(10int, 48310569014935618268067396286478534082275128806828181671nat, m, 24155284507467809134033698143239267041137564403414090835nat, 135868122439584278104362285321954592038100202535482436125567282689291808int, 89998885082228435993999078843307814983976689527927027017885174656334450int, 188084175714260769514098783085274806511973672693648311343558796549177914int, 9int, 34804218949506702066955525507356440560499244622658184814350429893202801int);
    lemma_pow_mod_step(10int, 96621138029871236536134792572957068164550257613656363343nat, m, 48310569014935618268067396286478534082275128806828181671nat, 34804218949506702066955525507356440560499244622658184814350429893202801int, 5905623631487839684272819644756182841562960134302166044296202733220385int, 31085130800761685199142529425854248052527931451861166215314076521637766int, 1int, 105736025986161186094310593664610077796475149817075558973003261260980289int);
    lemma_pow_mod_step(10int, 193242276059742473072269585145914136329100515227312726686nat, m, 96621138029871236536134792572957068164550257613656363343nat, 105736025986161186094310593664610077796475149817075558973003261260980289int, 54506456472495702719018988783446879435857156366313489051342587166354568int, 69167680756549676476869767184863936408400113745690536284318371325482793int, 0int, 69167680756549676476869767184863936408400113745690536284318371325482793int);
    lemma_pow_mod_step(10int, 386484552119484946144539170291828272658201030454625453372nat, m, 193242276059742473072269585145914136329100515227312726686nat, 69167680756549676476869767184863936408400113745690536284318371325482793int, 23324288732126425759707081516505317444053027855579180576159086247431851int, 73213533269488544326977736327413404384363428574281889014152755592017128int, 0int, 73213533269488544326977736327413404384363428574281889014152755592017128int);
    lemma_pow_mod_step(10int, 772969104238969892289078340583656545316402060909250906745nat, m, 386484552119484946144539170291828272658201030454625453372nat, 73213533269488544326977736327413404384363428574281889014152755592017128int, 26132725952822037423860802545005667050317527474717719034119513925895719int, 158403311653289326529791065486533643663639219401094874323611244092613635int, 7int, 148226142382703604018107750707809617534763041100196020975149913238354753int);
    lemma_pow_mod_step(10int, 1545938208477939784578156681167313090632804121818501813491nat, m, 772969104238969892289078340583656545316402060909250906745nat, 148226142382703604018107750707809617534763041100196020975149913238354753int, 107115321048381422461664357217317457509590247354394302021756991234687253int, 160120899660959288302214904994418001151577691069965800391146461754279146int, 7int, 165402022459403221742346145786653192414147757788905281650502089855009863int);
    lemma_pow_mod_step(10int, 3091876416955879569156313362334626181265608243637003626982nat, m, 1545938208477939784578156681167313090632804121818501813491nat, 165402022459403221742346145786653192414147757788905281650502089855009863int, 133377819361110391861248301057733378223682607707811542553739050434706227int, 67259916362531128237164913426328339260225391143698991449563562394149552int, 0int, 67259916362531128237164913426328339260225391143698991449563562394149552int);
    lemma_pow_mod_step(10int, 6183752833911759138312626724669252362531216487274007253964nat, m, 3091876416955879569156313362334626181265608243637003626982nat, 67259916362531128237164913426328339260225391143698991449563562394149552int, 22055384194247748162218431154419307683835360845289853940504365206777746int, 200011894891626256650326035411657177300777306270877740498014749432094938int, 0int, 200011894891626256650326035411657177300777306270877740498014749432094938int);
}

proof fn lemma_certificate_7723_16()
    requires
        pow_mod(10int, 6183752833911759138312626724669252362531216487274007253964nat, 205115282021455665897114700593932402728804164701536103180137503955397371int) == 200011894891626256650326035411657177300777306270877740498014749432094938int,
    ensures
        pow_mod(10int, 25328651607702565430528519064245257676927862731874333712239039nat, 205115282021455665897114700593932402728804164701536103180137503955397371int) == 30650441445051496229206581143281015603038681484779605751836148082557524int,
{
    let m: int = 205115282021455665897114700593932402728804164701536103180137503955397371int;
    lemma_pow_mod_step(10int, 12367505667823518276625253449338504725062432974548014507929nat, m, 6183752833911759138312626724669252362531216487274007253964nat, 200011894891626256650326035411657177300777306270877740498014749432094938int, 195035482992214755111994226471982692674654211000313382316965928209642880int, 160963344389773378272056926096149842260672831651266439938190975044355364int, 7int, 173826469747544121440766356803971603505099163601911677120947222755772043int);
    lemma_pow_mod_step(10int, 24735011335647036553250506898677009450124865949096029015858nat, m, 12367505667823518276625253449338504725062432974548014507929nat, 173826469747544121440766356803971603505099163601911677120947222755772043int, 147310533311375727121486575236685121624197717784468642023303431419494490int, 187753901193012681608612488652593360582690556443210392639098169085408059int, 0int, 187753901193012681608612488652593360582690556443210392639098169085408059int);
    lemma_pow_mod_step(10int, 49470022671294073106501013797354018900249731898192058031716nat, m, 24735011335647036553250506898677009450124865949096029015858nat, 187753901193012681608612488652593360582690556443210392639098169085408059int, 171862023471796483258701538981810231082370243557117664894903548084314275int, 174113256911056332313343056265425325710237412480250112152701208869376456int, 0int, 174113256911056332313343056265425325710237412480250112152701208869376456int);
    lemma_pow_mod_step(10int, 98940045342588146213002027594708037800499463796384116063433nat, m, 49470022671294073106501013797354018900249731898192058031716nat, 174113256911056332313343056265425325710237412480250112152701208869376456int, 147797014115235072107227754102298174161104040388445221755986785566922659int, 53497573105514125446051832609977607718497513525033536203973988278190447int, 2int, 124745167012229922666288924911911271727366805847263155679464874871109728int);
    lemma_pow_mod_step(10int, 197880090685176292426004055189416075600998927592768232126867nat, m, 98940045342588146213002027594708037800499463796384116063433nat, 124745167012229922666288924911911271727366805847263155679464874871109728int, 75866393471752009681108063307785072455976138189564792319623196922128859int, 50430025541151047509786700047584587780049736159101430755704421604404295int, 2int, 94069691368599143303637599287981072342889032187942101196769208133248208int);
    lemma_pow_mod_step(10int, 395760181370352584852008110378832151201997855185536464253734nat, m, 197880090685176292426004055189416075600998927592768232126867nat, 94069691368599143303637599287981072342889032187942101196769208133248208int, 43142113776085457072214373888749947587350282667400877681667094724861036int, 21919955347600256015380916674608535872874967928254604484540302800474908int, 0int, 21919955347600256015380916674608535872874967928254604484540302800474908int);
    lemma_pow_mod_step(10int, 791520362740705169704016220757664302403995710371072928507469nat, m, 395760181370352584852008110378832151201997855185536464253734nat, 21919955347600256015380916674608535872874967928254604484540302800474908int, 2342509235321281253940098600023391652653289923830045523598427435459980int, 154781806053121093910304381420212022876542268094264125487041833269895884int, 7int, 112011086381021277823240910044593409663793528031888532609455805011177243int);
    lemma_pow_mod_step(10int, 1583040725481410339408032441515328604807991420742145857014939nat, m, 791520362740705169704016220757664302403995710371072928507469nat, 112011086381021277823240910044593409663793528031888532609455805011177243int, 61167960517657631462488053866260728210639254794239186667917794758788110int, 201829802178999142927830389784517664229323415667019829662463091321022239int, 9int, 172260483596890436204271592499785017733996674356373368003393377611646051int);
    lemma_pow_mod_step(10int, 3166081450962820678816064883030657209615982841484291714029879nat, m, 1583040725481410339408032441515328604807991420742145857014939nat, 172260483596890436204271592499785017733996674356373368003393377611646051int, 144668275891459929543896381087221855376093972388897003290354580139858085int, 178940919713060507371785755215453084092407240940821459927628363981800066int, 8int, 148486940958959746540939947403071619093639091795925773835183608174821692int);
    lemma_pow_mod_step(10int, 6332162901925641357632129766061314419231965682968583428059759nat, m, 3166081450962820678816064883030657209615982841484291714029879nat, 148486940958959746540939947403071619093639091795925773835183608174821692int, 107492583770736656520213695740522660455430780030851532897938800358898920int, 88958834846090964411503590112359050115112019575262862533029451371003544int, 4int, 69127220375086980526577098747860890235903536946484212609744497888445956int);
    lemma_pow_mod_step(10int, 12664325803851282715264259532122628838463931365937166856119519nat, m, 6332162901925641357632129766061314419231965682968583428059759nat, 69127220375086980526577098747860890235903536946484212609744497888445956int, 23297009124293272992259034470211283003634749280528106612224419747417834int, 138335381439434199691597316868464906901546935468814850492032496090639522int, 6int, 152662122265608001533284965121054652642644366478931885839499937174010994int);
    lemma_pow_mod_step(10int, 25328651607702565430528519064245257676927862731874333712239039nat, m, 12664325803851282715264259532122628838463931365937166856119519nat, 152662122265608001533284965121054652642644366478931885839499937174010994int, 113622560664210278779046509896952155444294776025403545740580484698756191int, 126134213357378549161189478470687543197586366969399622483266117181494175int, 6int, 30650441445051496229206581143281015603038681484779605751836148082557524int);
}

proof fn lemma_certificate_7723_17()
    requires
        pow_mod(10int, 25328651607702565430528519064245257676927862731874333712239039nat, 205115282021455665897114700593932402728804164701536103180137503955397371int) == 30650441445051496229206581143281015603038681484779605751836148082557524int,
    ensures
        pow_mod(10int, 103746156985149708003444814087148575444696525749757270885331105117nat, 205115282021455665897114700593932402728804164701536103180137503955397371int) == 29650566833566780202112346456464977488155574143059182641656622522890759int,
{
    let m: int = 205115282021455665897114700593932402728804164701536103180137503955397371int;
    lemma_pow_mod_step(10int, 50657303215405130861057038128490515353855725463748667424478078nat, m, 25328651607702565430528519064245257676927862731874333712239039nat, 30650441445051496229206581143281015603038681484779605751836148082557524int, 4580105156076382677027665999215384959400270191033444344091761954923179int, 196553473297191898735416393627457409666381761351731619895597386045448167int, 0int, 196553473297191898735416393627457409666381761351731619895597386045448167int);
    lemma_pow_mod_step(10int, 101314606430810261722114076256981030707711450927497334848956157nat, m, 50657303215405130861057038128490515353855725463748667424478078nat, 196553473297191898735416393627457409666381761351731619895597386045448167int, 188349046860139726471831906731004003555735588912826494475545979375879560int, 74792377993156082298681786145301453388645747603126486276974227447023129int, 3int, 132577933867193825295473759671217325700044981926656553229329762604039177int);
    lemma_pow_mod_step(10int, 202629212861620523444228152513962061415422901854994669697912314nat, m, 101314606430810261722114076256981030707711450927497334848956157nat, 132577933867193825295473759671217325700044981926656553229329762604039177int, 85692827834521968013591044327156827963419529529381908580209316216904322int, 51424344451838692954526869918918673541227816354696687466709054353499867int, 0int, 51424344451838692954526869918918673541227816354696687466709054353499867int);
    lemma_pow_mod_step(10int, 405258425723241046888456305027924122830845803709989339395824629nat, m, 202629212861620523444228152513962061415422901854994669697912314nat, 51424344451838692954526869918918673541227816354696687466709054353499867int, 12892570345025458806566258857172572481678551208352684807949636569716186int, 102261887668543865702147634369885496916814349445023311314517931648470683int, 4int, 202157748599615993433017541323125358252926835644088700424629300663117346int);
    lemma_pow_mod_step(10int, 810516851446482093776912610055848245661691607419978678791649258nat, m, 405258425723241046888456305027924122830845803709989339395824629nat, 202157748599615993433017541323125358252926835644088700424629300663117346int, 199242859508589193895072708220076957388070393799653625943152608125702013int, 82294255420780916398488328454865111609310079595146302340417734816475893int, 0int, 82294255420780916398488328454865111609310079595146302340417734816475893int);
    lemma_pow_mod_step(10int, 1621033702892964187553825220111696491323383214839957357583298517nat, m, 810516851446482093776912610055848245661691607419978678791649258nat, 82294255420780916398488328454865111609310079595146302340417734816475893int, 33017259409039653889853113251595914524219404449613320252238985247015851int, 197553216847827479381171708507275210687426395372785765418739025209419728int, 9int, 129494630285173800737684779727360482315026471414032725566152716495620941int);
    lemma_pow_mod_step(10int, 3242067405785928375107650440223392982646766429679914715166597034nat, m, 1621033702892964187553825220111696491323383214839957357583298517nat, 129494630285173800737684779727360482315026471414032725566152716495620941int, 81753339426653638460018969634369057846966687163637467839187755769826943int, 6421908456680891343339296642759861687672515914128760060865557690558628int, 0int, 6421908456680891343339296642759861687672515914128760060865557690558628int);
    lemma_pow_mod_step(10int, 6484134811571856750215300880446785965293532859359829430333194069nat, m, 3242067405785928375107650440223392982646766429679914715166597034nat, 6421908456680891343339296642759861687672515914128760060865557690558628int, 201062094542890405221942090024808730660422071050234768423550884733869int, 145436920405729933671943339807650893184572812895038719234674241227983985int, 7int, 18562229907109675439630493918982112744098976039634470085779884592058253int);
    lemma_pow_mod_step(10int, 12968269623143713500430601760893571930587065718719658860666388139nat, m, 6484134811571856750215300880446785965293532859359829430333194069nat, 18562229907109675439630493918982112744098976039634470085779884592058253int, 1679818177020838713158864919813328189949520192883097394050902007894344int, 170549316443071179219203372116751128403627284705474264643194369442042385int, 8int, 64570908259066465015116116416052062205839529442453820990843662777244882int);
    lemma_pow_mod_step(10int, 25936539246287427000861203521787143861174131437439317721332776279nat, m, 12968269623143713500430601760893571930587065718719658860666388139nat, 64570908259066465015116116416052062205839529442453820990843662777244882int, 20327116304111587394035247073492094923147168542903644087786411022042667int, 11803173398244468323167909144079676208435887444985079614559886493565467int, 0int, 118031733982444683231679091440796762084358874449850796145598864935654670int);
    lemma_pow_mod_step(10int, 51873078492574854001722407043574287722348262874878635442665552558nat, m, 25936539246287427000861203521787143861174131437439317721332776279nat, 118031733982444683231679091440796762084358874449850796145598864935654670int, 67920293844538174926320388443384656817681591402266317384745748901932671int, 154612380863844248350824518302276921126848221881767710739646297800400959int, 0int, 154612380863844248350824518302276921126848221881767710739646297800400959int);
    lemma_pow_mod_step(10int, 103746156985149708003444814087148575444696525749757270885331105117nat, m, 51873078492574854001722407043574287722348262874878635442665552558nat, 154612380863844248350824518302276921126848221881767710739646297800400959int, 116544160341431305705176456118666601961805167528687382250242186070818908int, 23476584885502244609922704705039738021695973884459528582179412647828813int, 1int, 29650566833566780202112346456464977488155574143059182641656622522890759int);
}

proof fn lemma_certificate_7723_18()
    requires
        pow_mod(10int, 103746156985149708003444814087148575444696525749757270885331105117nat, 205115282021455665897114700593932402728804164701536103180137503955397371int) == 29650566833566780202112346456464977488155574143059182641656622522890759int,
    ensures
        pow_mod(10int, 26559016188198325248881872406310035313842310591937861346644762910190nat, 205115282021455665897114700593932402728804164701536103180137503955397371int) == 123665784261542600597161422878187596862401757469595512553658861111742805int,
{
    let m: int = 205115282021455665897114700593932402728804164701536103180137503955397371int;
    lemma_pow_mod_step(10int, 207492313970299416006889628174297150889393051499514541770662210235nat, m, 103746156985149708003444814087148575444696525749757270885331105117nat, 29650566833566780202112346456464977488155574143059182641656622522890759int, 4286156082021465497316232516601140985595580751000928299798131907754115int, 78376700784660035343327973788612057956906809021853863793872600862164416int, 3int, 168421161782233355741935636104323371382655596113930328398313496755452047int);
    lemma_pow_mod_step(10int, 414984627940598832013779256348594301778786102999029083541324420471nat, m, 207492313970299416006889628174297150889393051499514541770662210235nat, 168421161782233355741935636104323371382655596113930328398313496755452047int, 138291440094210467315460303802140007491161611865311014067052553863456405int, 168411318461066354391376413604448808576700349669686557946521562006378954int, 8int, 43190928439018216736846531293028863936570179084576754024115588420610572int);
    lemma_pow_mod_step(10int, 829969255881197664027558512697188603557572205998058167082648840943nat, m, 414984627940598832013779256348594301778786102999029083541324420471nat, 43190928439018216736846531293028863936570179084576754024115588420610572int, 9094672425379111046798675646911978960624305373409001599800345736817033int, 44449493380724479301108877354955143892924925389965503768171275041946941int, 2int, 34264369764333461216859372361686633471640924496582831321437742508674668int);
    lemma_pow_mod_step(10int, 1659938511762395328055117025394377207115144411996116334165297681886nat, m, 829969255881197664027558512697188603557572205998058167082648840943nat, 34264369764333461216859372361686633471640924496582831321437742508674668int, 5723839900062445352192933252107230245266942302074463861195728772489736int, 141143613142701949781691737750982902059573808900421981325954270966026168int, 0int, 141143613142701949781691737750982902059573808900421981325954270966026168int);
    lemma_pow_mod_step(10int, 3319877023524790656110234050788754414230288823992232668330595363773nat, m, 1659938511762395328055117025394377207115144411996116334165297681886nat, 141143613142701949781691737750982902059573808900421981325954270966026168int, 97123526509803675347237181619907055104337162564800478731974881142073539int, 6198269912203002178381387804349170602634394780587578076873623611498255int, 0int, 61982699122030021783813878043491706026343947805875780768736236114982550int);
    lemma_pow_mod_step(10int, 6639754047049581312220468101577508828460577647984465336661190727547nat, m, 3319877023524790656110234050788754414230288823992232668330595363773nat, 61982699122030021783813878043491706026343947805875780768736236114982550int, 18730223085231805519860412079868492532324403665914877594493068767202481int, 172800645714580817916664591713280622234690973996740033197932182432425049int, 8int, 87084200974162851989728312381347000516476422355111506538221792681071522int);
    lemma_pow_mod_step(10int, 13279508094099162624440936203155017656921155295968930673322381455095nat, m, 6639754047049581312220468101577508828460577647984465336661190727547nat, 87084200974162851989728312381347000516476422355111506538221792681071522int, 36972662322230642616713644909369883506053658971822091701779471537122064int, 43472527750227646768718835722880467855949945094256243022371325227702740int, 2int, 24494713459365135892958956040939873101891121539490223863438244366232658int);
    lemma_pow_mod_step(10int, 26559016188198325248881872406310035313842310591937861346644762910190nat, m, 13279508094099162624440936203155017656921155295968930673322381455095nat, 24494713459365135892958956040939873101891121539490223863438244366232658int, 2925140348117224677647430535925519138427285725601002778582166609430429int, 123665784261542600597161422878187596862401757469595512553658861111742805int, 0int, 123665784261542600597161422878187596862401757469595512553658861111742805int);
}

proof fn lemma_certificate_7723()
    ensures
        pow_mod(10int, 26559016188198325248881872406310035313842310591937861346644762910190nat, 205115282021455665897114700593932402728804164701536103180137503955397371int) == 123665784261542600597161422878187596862401757469595512553658861111742805int,
{
    lemma_pow_mod_zero(10int, 205115282021455665897114700593932402728804164701536103180137503955397371int);
    lemma_certificate_7723_0();
    lemma_certificate_7723_1();
    lemma_certificate_7723_2();
    lemma_certificate_7723_3();
    lemma_certificate_7723_4();
    lemma_certificate_7723_5();
    lemma_certificate_7723_6();
    lemma_certificate_7723_7();
    lemma_certificate_7723_8();
    lemma_certificate_7723_9();
    lemma_certificate_7723_10();
    lemma_certificate_7723_11();
    lemma_certificate_7723_12();
    lemma_certificate_7723_13();
    lemma_certificate_7723_14();
    lemma_certificate_7723_15();
    lemma_certificate_7723_16();
    lemma_certificate_7723_17();
    lemma_certificate_7723_18();
}

proof fn lemma_certificate_132896956044521568488119_0()
    requires
        pow_mod(10int, 0nat, 205115282021455665897114700593932402728804164701536103180137503955397371int) == 1int,
    ensures
        pow_mod(10int, 2162nat, 205115282021455665897114700593932402728804164701536103180137503955397371int) == 92312270234619530827154254428543778219020224570127648970308978306326208int,
{
    let m: int = 205115282021455665897114700593932402728804164701536103180137503955397371int;
    lemma_pow_mod_step(10int, 1nat, m, 0nat, 1int, 0int, 1int, 0int, 10int);
    lemma_pow_mod_step(10int, 2nat, m, 1nat, 10int, 0int, 100int, 0int, 100int);
    lemma_pow_mod_step(10int, 4nat, m, 2nat, 100int, 0int, 10000int, 0int, 10000int);
    lemma_pow_mod_step(10int, 8nat, m, 4nat, 10000int, 0int, 100000000int, 0int, 100000000int);
    lemma_pow_mod_step(10int, 16nat, m, 8nat, 100000000int, 0int, 10000000000000000int, 0int, 10000000000000000int);
    lemma_pow_mod_step(10int, 33nat, m, 16nat, 10000000000000000int, 0int, 100000000000000000000000000000000int, 0int, 1000000000000000000000000000000000int);
    lemma_pow_mod_step(10int, 67nat, m, 33nat, 1000000000000000000000000000000000int, 0int, 1000000000000000000000000000000000000000000000000000000000000000000int, 0int, 10000000000000000000000000000000000000000000000000000000000000000000int);
    lemma_pow_mod_step(10int, 135nat, m, 67nat, 10000000000000000000000000000000000000000000000000000000000000000000int, 487530714505902606881235412629180716668554675773229844003635113int, 7931697545054774142195678986625323521584139044619823681244059596512077int, 0int, 79316975450547741421956789866253235215841390446198236812440595965120770int);
    lemma_pow_mod_step(10int, 270nat, m, 135nat, 79316975450547741421956789866253235215841390446198236812440595965120770int, 30671447454435485500166743623509264938013044815594253955492014411337376int, 36805072310111286387093543670648406213654271752516571799476431060954404int, 0int, 36805072310111286387093543670648406213654271752516571799476431060954404int);
    lemma_pow_mod_step(10int, 540nat, m, 270nat, 36805072310111286387093543670648406213654271752516571799476431060954404int, 6604156133090190596448300422044289761550622046342333137800130716865851int, 70297534085194622201270321712323709840164326802229454735559654961917495int, 0int, 70297534085194622201270321712323709840164326802229454735559654961917495int);
    lemma_pow_mod_step(10int, 1081nat, m, 540nat, 70297534085194622201270321712323709840164326802229454735559654961917495int, 24092516412025207980958087452596780700249421000038834720830821284207418int, 96685251989098585873858410044469631597219332332316859319478862211176947int, 4int, 146391391805163195150125298068966705056976664517024180474238606290179986int);
    lemma_pow_mod_step(10int, 2162nat, m, 1081nat, 146391391805163195150125298068966705056976664517024180474238606290179986int, 104479975277566663442736992928587669640819302066515337842866726354135628int, 92312270234619530827154254428543778219020224570127648970308978306326208int, 0int, 92312270234619530827154254428543778219020224570127648970308978306326208int);
}

proof fn lemma_certificate_132896956044521568488119_1()
    requires
        pow_mod(10int, 2162nat, 205115282021455665897114700593932402728804164701536103180137503955397371int) == 92312270234619530827154254428543778219020224570127648970308978306326208int,
    ensures
        pow_mod(10int, 8858773nat, 205115282021455665897114700593932402728804164701536103180137503955397371int) == 125140819139393831006166078339185061782516646258316868929572267298478055int,
{
    let m: int = 205115282021455665897114700593932402728804164701536103180137503955397371int;
    lemma_pow_mod_step(10int, 4325nat, m, 2162nat, 92312270234619530827154254428543778219020224570127648970308978306326208int, 41545199128449352188670114941536041448860639292173108326255364277681973int, 85218069358437310993627092125042019666990633912553358182148503729366281int, 4int, 31719565498550446347812118874690585754689680319389169100935021472073326int);
    lemma_pow_mod_step(10int, 8651nat, m, 4325nat, 31719565498550446347812118874690585754689680319389169100935021472073326int, 4905196850771887202337683308764744410709133129049156301112944835504191int, 153825965627630499230075952766086237802537871298176555786869112579820415int, 7int, 102452682126115331020956623503335558923749560071012835607728598110422553int);
    lemma_pow_mod_step(10int, 17302nat, m, 8651nat, 102452682126115331020956623503335558923749560071012835607728598110422553int, 51173915328926400495064058164522367276891775396471703759336367398721959int, 195940885692098926016768162219839470150593865128952062453777082822468020int, 0int, 195940885692098926016768162219839470150593865128952062453777082822468020int);
    lemma_pow_mod_step(10int, 34604nat, m, 17302nat, 195940885692098926016768162219839470150593865128952062453777082822468020int, 187176841761542535095158427116343258127191012404970264451341178931790590int, 19710541486851603307898002779008158330610226826477627007318835914181510int, 0int, 19710541486851603307898002779008158330610226826477627007318835914181510int);
    lemma_pow_mod_step(10int, 69209nat, m, 34604nat, 19710541486851603307898002779008158330610226826477627007318835914181510int, 1894083375339431767809674508749321911989274852730632279530834329204289int, 192634480998436093116833799094857614311357172668745449270300839993355881int, 9int, 80307271791259938094305685603184518554334244373629564081770864334982471int);
    lemma_pow_mod_step(10int, 138418nat, m, 69209nat, 80307271791259938094305685603184518554334244373629564081770864334982471int, 31442113132656213843608180987293244572183961295854594642135790696300926int, 49325848001097510671903467996222302667426398445174517866783201752000295int, 0int, 49325848001097510671903467996222302667426398445174517866783201752000295int);
    lemma_pow_mod_step(10int, 276836nat, m, 138418nat, 49325848001097510671903467996222302667426398445174517866783201752000295int, 11861813791002038431875855633500618935205616031795345419671022929295426int, 97538467893027092807814930128399956437278336792719388691102186797361979int, 0int, 97538467893027092807814930128399956437278336792719388691102186797361979int);
    lemma_pow_mod_step(10int, 553673nat, m, 276836nat, 97538467893027092807814930128399956437278336792719388691102186797361979int, 46382466606870912399292972525253129243182309677483078872909426953270806int, 111186152475140557337381285192633572356438958297198085768249427651345415int, 5int, 86285114644127243888239348956673709920368759464300341781806756736467295int);
    lemma_pow_mod_step(10int, 1107346nat, m, 553673nat, 86285114644127243888239348956673709920368759464300341781806756736467295int, 36297251651738947706888908012715449099497268185578862701533198187534976int, 179524489917470610758443933655285196026519214915928960631076307563668929int, 0int, 179524489917470610758443933655285196026519214915928960631076307563668929int);
    lemma_pow_mod_step(10int, 2214693nat, m, 1107346nat, 179524489917470610758443933655285196026519214915928960631076307563668929int, 157126481081778946621478248221799820481520463715182956770435983336641152int, 186668875107696602585109631912988729590436678989158150953702846928795649int, 9int, 20651212883865032777064013784495671345129307577756580915790933689380151int);
    lemma_pow_mod_step(10int, 4429386nat, m, 2214693nat, 20651212883865032777064013784495671345129307577756580915790933689380151int, 2079184882626652984196576969395756385784729885673168247830864994126123int, 184619182853306370730167796128660132152154922035444889494851861236160168int, 0int, 184619182853306370730167796128660132152154922035444889494851861236160168int);
    lemma_pow_mod_step(10int, 8858773nat, m, 4429386nat, 184619182853306370730167796128660132152154922035444889494851861236160168int, 166171151859164059415560613520641339828263329006337709198505414289468223int, 115071722924667216049173958130884707542653746976599738483025978707546491int, 5int, 125140819139393831006166078339185061782516646258316868929572267298478055int);
}

proof fn lemma_certificate_132896956044521568488119_2()
    requires
        pow_mod(10int, 8858773nat, 205115282021455665897114700593932402728804164701536103180137503955397371int) == 125140819139393831006166078339185061782516646258316868929572267298478055int,
    ensures
        pow_mod(10int, 36285534666nat, 205115282021455665897114700593932402728804164701536103180137503955397371int) == 77483110082154507442714737154736212026024028380630872333145107299870799int,
{
    let m: int = 205115282021455665897114700593932402728804164701536103180137503955397371int;
    lemma_pow_mod_step(10int, 17717546nat, m, 8858773nat, 125140819139393831006166078339185061782516646258316868929572267298478055int, 76348404958146275528068514884051926134903547540614128706112122196888069int, 71069180094202545901257144010203603300215121323788062263001206812716426int, 0int, 71069180094202545901257144010203603300215121323788062263001206812716426int);
    lemma_pow_mod_step(10int, 35435092nat, m, 17717546nat, 71069180094202545901257144010203603300215121323788062263001206812716426int, 24624339588377738660926319233763514528672560389702283535152228041573969int, 140022310298310282125570725131342560645985351400178514287355845405577977int, 0int, 140022310298310282125570725131342560645985351400178514287355845405577977int);
    lemma_pow_mod_step(10int, 70870184nat, m, 35435092nat, 140022310298310282125570725131342560645985351400178514287355845405577977int, 95586477945731114046644954119967417486711242256606379267981412001907307int, 71867773385977592822946140346638545711046269919826005729020116333922632int, 0int, 71867773385977592822946140346638545711046269919826005729020116333922632int);
    lemma_pow_mod_step(10int, 141740369nat, m, 70870184nat, 71867773385977592822946140346638545711046269919826005729020116333922632int, 25180848547978776752964064889958818259928688385928691065246598700017916int, 100617582784623134474890521678030267194760851135722996634642065562508588int, 4int, 185714699760408681160446414404573061032391852551085553625870639803496396int);
    lemma_pow_mod_step(10int, 283480739nat, m, 141740369nat, 185714699760408681160446414404573061032391852551085553625870639803496396int, 168149098239744951733468743715524624785945114704963484048142117128277408int, 34005041403767067616636223847500282960495685223894040135878017023094448int, 1int, 134935132016215010269247537881070426876152687537404298178642666275547109int);
    lemma_pow_mod_step(10int, 566961479nat, m, 283480739nat, 134935132016215010269247537881070426876152687537404298178642666275547109int, 88767105370183074642438618943986259857228037583191256615683805189633996int, 77318757982532129900304164996513135761736320354818098027826933047633365int, 3int, 157841733760954301311697548183334149430950709443572670737856818610141537int);
    lemma_pow_mod_step(10int, 1133922958nat, m, 566961479nat, 157841733760954301311697548183334149430950709443572670737856818610141537int, 121463465184704771812310055614512367366767083809534062158317612253752598int, 4765297235254983340905337186963665706052142259100868499455816159102511int, 0int, 4765297235254983340905337186963665706052142259100868499455816159102511int);
    lemma_pow_mod_step(10int, 2267845916nat, m, 1133922958nat, 4765297235254983340905337186963665706052142259100868499455816159102511int, 110708756151837862378097078860839172907176621749900579174101323946438int, 132047320813909780007858716331126278135677460154444167740371200796490623int, 0int, 132047320813909780007858716331126278135677460154444167740371200796490623int);
    lemma_pow_mod_step(10int, 4535691833nat, m, 2267845916nat, 132047320813909780007858716331126278135677460154444167740371200796490623int, 85008268337157355258246688751193942035674756126557726551022195784308939int, 97149399276063507336982943918939022025385683267058760245897152154528760int, 4int, 151032864674812409781370636813660609338640173864443189738421505723698116int);
    lemma_pow_mod_step(10int, 9071383666nat, m, 4535691833nat, 151032864674812409781370636813660609338640173864443189738421505723698116int, 111210271546193753855908678578732681251277383251725381360899891797522882int, 71636505887682252404691510258836667475075536052756419122126651326806234int, 0int, 71636505887682252404691510258836667475075536052756419122126651326806234int);
    lemma_pow_mod_step(10int, 18142767333nat, m, 9071383666nat, 71636505887682252404691510258836667475075536052756419122126651326806234int, 25019047460633058487569313181988800325653207837591147609714052820982779int, 29183255129675561643723185998142179204295901361585473933504064888388747int, 1int, 86717269275299950540117159387489389314154848914318636154903144928490099int);
    lemma_pow_mod_step(10int, 36285534666nat, m, 18142767333nat, 86717269275299950540117159387489389314154848914318636154903144928490099int, 36661748049461661231973377845405238433268810118306975588936376135182062int, 77483110082154507442714737154736212026024028380630872333145107299870799int, 0int, 77483110082154507442714737154736212026024028380630872333145107299870799int);
}

proof fn lemma_certificate_132896956044521568488119_3()
    requires
        pow_mod(10int, 36285534666nat, 205115282021455665897114700593932402728804164701536103180137503955397371int) == 77483110082154507442714737154736212026024028380630872333145107299870799int,
    ensures
        pow_mod(10int, 148625549995371nat, 205115282021455665897114700593932402728804164701536103180137503955397371int) == 5341892304369957617846699468611541713109464223395345940694743560638925int,
{
    let m: int = 205115282021455665897114700593932402728804164701536103180137503955397371int;
    lemma_pow_mod_step(10int, 72571069333nat, m, 36285534666nat, 77483110082154507442714737154736212026024028380630872333145107299870799int, 29269551682527856501935742222536512390738307625200909632767589420518316int, 98947006622659783534753053019019550523745307344997219131607921529151165int, 4int, 169008938140775171759071727814465894322236414643827778595529199469922166int);
    lemma_pow_mod_step(10int, 145142138667nat, m, 72571069333nat, 169008938140775171759071727814465894322236414643827778595529199469922166int, 139258376508896530545221725240714461438718503993394662376249725562117259int, 70123045326487952137202264742435865534776371183942287370494306655805467int, 3int, 85884607200512523680678545642561447161351217734814564164530554691862557int);
    lemma_pow_mod_step(10int, 290284277334nat, m, 145142138667nat, 85884607200512523680678545642561447161351217734814564164530554691862557int, 35961073603549241394176128774444801328083353853525448375183417755602842int, 100867911761065486148867383468740243645489727073820926884725752011649867int, 0int, 100867911761065486148867383468740243645489727073820926884725752011649867int);
    lemma_pow_mod_step(10int, 580568554669nat, m, 290284277334nat, 100867911761065486148867383468740243645489727073820926884725752011649867int, 49603011159226192558235816035616893955109031423366353890159545417125315int, 73364808335908247647531979986877728754443444004695517540420618072570824int, 3int, 118302237294715478783975698086980079358021945942346865863793668859516127int);
    lemma_pow_mod_step(10int, 1161137109338nat, m, 580568554669nat, 118302237294715478783975698086980079358021945942346865863793668859516127int, 68231967949960976658779340160979013050714825570034575574947781301817388int, 198786658482118728012242659729588700401132465994902749477394190555793181int, 0int, 198786658482118728012242659729588700401132465994902749477394190555793181int);
    lemma_pow_mod_step(10int, 2322274218677nat, m, 1161137109338nat, 198786658482118728012242659729588700401132465994902749477394190555793181int, 192653298189420137081928687285113611375515832424773308752871599913120910int, 54644827280131312877680715393533734805333960170486946288895564226971151int, 2int, 136217708758401796982577752747472542595731272301797256528680634358916768int);
    lemma_pow_mod_step(10int, 4644548437355nat, m, 2322274218677nat, 136217708758401796982577752747472542595731272301797256528680634358916768int, 90462612032231894117599314992836286049492231798358467982959442547135044int, 52115151525724189855230951834091099129239033036010338208649573731996500int, 2int, 110920951214330566758080117153046185834782000957031175726220729409170258int);
    lemma_pow_mod_step(10int, 9289096874710nat, m, 4644548437355nat, 110920951214330566758080117153046185834782000957031175726220729409170258int, 59983133860327986447733102906069265739755889785588440491418412832659130int, 60542454903368816962817516173713172350147730664213725057508878290639334int, 0int, 60542454903368816962817516173713172350147730664213725057508878290639334int);
    lemma_pow_mod_step(10int, 18578193749421nat, m, 9289096874710nat, 60542454903368816962817516173713172350147730664213725057508878290639334int, 17869896428989802820690705752526542634068188125321248950649098368690436int, 119399669443128390971943308330890720038638392145531034240497187200719800int, 5int, 168420284324005580233859580339245186742363097947629826504284352230211145int);
    lemma_pow_mod_step(10int, 37156387498842nat, m, 18578193749421nat, 168420284324005580233859580339245186742363097947629826504284352230211145int, 138289999127474937571599683038638687269573667406836728893451235243076990int, 2844569244891785173356829450283579422984930389898693928708979085617735int, 0int, 2844569244891785173356829450283579422984930389898693928708979085617735int);
    lemma_pow_mod_step(10int, 74312774997685nat, m, 37156387498842nat, 2844569244891785173356829450283579422984930389898693928708979085617735int, 39448909458329966210045312795115758277030181325298722635475016727146int, 56048898634267062927724414082363080042685794219211329184541792233797059int, 2int, 150258422299759297483014739635765994969249612789041085485142914427175848int);
    lemma_pow_mod_step(10int, 148625549995371nat, m, 74312774997685nat, 150258422299759297483014739635765994969249612789041085485142914427175848int, 110072702772342038337409631707370659359849341629716966678287661920491306int, 103091830241164828710342020243827355535713028773107586184138226333762578int, 5int, 5341892304369957617846699468611541713109464223395345940694743560638925int);
}

proof fn lemma_certificate_132896956044521568488119_4()
    requires
        pow_mod(10int, 148625549995371nat, 205115282021455665897114700593932402728804164701536103180137503955397371int) == 5341892304369957617846699468611541713109464223395345940694743560638925int,
    ensures
        pow_mod(10int, 608770252781041244nat, 205115282021455665897114700593932402728804164701536103180137503955397371int) == 11117987883472570476986807119322597344120209861727820140353227796074358int,
{
    let m: int = 205115282021455665897114700593932402728804164701536103180137503955397371int;
    lemma_pow_mod_step(10int, 297251099990742nat, m, 148625549995371nat, 5341892304369957617846699468611541713109464223395345940694743560638925int, 139120854917587492758667579760211448566289199041448821648443458038232int, 65372126931156142667307481789520071231719950529332919094591982554867553int, 0int, 65372126931156142667307481789520071231719950529332919094591982554867553int);
    lemma_pow_mod_step(10int, 594502199981485nat, m, 297251099990742nat, 65372126931156142667307481789520071231719950529332919094591982554867553int, 20834698114088680693674648356003149488178295189022328301530331498806436int, 57333102099040725337743368238859055446934476362117660627310626779928053int, 2int, 163100456947495921583204281200725749011736434218104399912831259888485788int);
    lemma_pow_mod_step(10int, 1189004399962971nat, m, 594502199981485nat, 163100456947495921583204281200725749011736434218104399912831259888485788int, 129691745999205207258510522643609317164937552996100035557939359238414106int, 187565565525041139042567573893959743452805873606004507988078462396265618int, 9int, 29618117057310397351643433594205809968821253746220151259547088364079841int);
    lemma_pow_mod_step(10int, 2378008799925942nat, m, 1189004399962971nat, 29618117057310397351643433594205809968821253746220151259547088364079841int, 4276779620588094244408786857853487723354439294513842555391456865985687int, 88838519508672852355660821462688948768716404692765903139117960939156404int, 0int, 88838519508672852355660821462688948768716404692765903139117960939156404int);
    lemma_pow_mod_step(10int, 4756017599851884nat, m, 2378008799925942nat, 88838519508672852355660821462688948768716404692765903139117960939156404int, 38477301499491836257805309164725734767962206981675001645023318231204763int, 99969045706354383289585220220124690880736158505376125812530241441333143int, 0int, 99969045706354383289585220220124690880736158505376125812530241441333143int);
    lemma_pow_mod_step(10int, 9512035199703769nat, m, 4756017599851884nat, 99969045706354383289585220220124690880736158505376125812530241441333143int, 48722893784158849882333885567556572624649169766704546640863369196162869int, 72308530496410477221422462463603170424058068586381733777737373779841050int, 3int, 107739458899737774522880522854234496054168191759209028236961225932218387int);
    lemma_pow_mod_step(10int, 19024070399407538nat, m, 9512035199703769nat, 107739458899737774522880522854234496054168191759209028236961225932218387int, 56591546420193478491661320646640930278775358521362529865473228333063494int, 183582218323547078407391133557106472287165240282322621601212214517207495int, 0int, 183582218323547078407391133557106472287165240282322621601212214517207495int);
    lemma_pow_mod_step(10int, 38048140798815077nat, m, 19024070399407538nat, 183582218323547078407391133557106472287165240282322621601212214517207495int, 164309702097521581038127554800784957935011307110313485946132880546227515int, 150120402598903611592375146288212311647861762772123965287673596085311960int, 7int, 65397051838846454643948558724596297376988474810486930615773433165338003int);
    lemma_pow_mod_step(10int, 76096281597630155nat, m, 38048140798815077nat, 65397051838846454643948558724596297376988474810486930615773433165338003int, 20850588737534471902447881546576297214435084220699561782907745884388972int, 84444375046768932969572289736457303980086615435557963202387043445835397int, 4int, 23982622381866666107264094988843428885649495549435219303320418636764486int);
    lemma_pow_mod_step(10int, 152192563195260311nat, m, 76096281597630155nat, 23982622381866666107264094988843428885649495549435219303320418636764486int, 2804111768966331215976848977827886694412378602861640893209422014260246int, 203141387007194636222744469097899733994150182865145149876159805092630930int, 9int, 185376331878845369153412385633605715382264346337626570140360515327732961int);
    lemma_pow_mod_step(10int, 304385126390520622nat, m, 152192563195260311nat, 185376331878845369153412385633605715382264346337626570140360515327732961int, 167536928902553469908729982069483632096367402352319068713113193907994747int, 42534818470271536639467118870736969014792925796345674337470585560217384int, 0int, 42534818470271536639467118870736969014792925796345674337470585560217384int);
    lemma_pow_mod_step(10int, 608770252781041244nat, m, 304385126390520622nat, 42534818470271536639467118870736969014792925796345674337470585560217384int, 8820458253859914050095902514214042517040210820408951305988561591999038int, 11117987883472570476986807119322597344120209861727820140353227796074358int, 0int, 11117987883472570476986807119322597344120209861727820140353227796074358int);
}

proof fn lemma_certificate_132896956044521568488119_5()
    requires
        pow_mod(10int, 608770252781041244nat, 205115282021455665897114700593932402728804164701536103180137503955397371int) == 11117987883472570476986807119322597344120209861727820140353227796074358int,
    ensures
        pow_mod(10int, 2493522955391144937466nat, 205115282021455665897114700593932402728804164701536103180137503955397371int) == 116592662294950629593471670702816297599812974396536139929873676131416451int,
{
    let m: int = 205115282021455665897114700593932402728804164701536103180137503955397371int;
    lemma_pow_mod_step(10int, 1217540505562082488nat, m, 608770252781041244nat, 11117987883472570476986807119322597344120209861727820140353227796074358int, 602635032157735333710316541613607148576375397505799079553189498088624int, 84866852813252320190016802303672207690413309167932742687036362570504660int, 0int, 84866852813252320190016802303672207690413309167932742687036362570504660int);
    lemma_pow_mod_step(10int, 2435081011124164977nat, m, 1217540505562082488nat, 84866852813252320190016802303672207690413309167932742687036362570504660int, 35113827870089380735051421093981658071568667054068573863413249071093355int, 38364531001072510411609044549578163708809696965761653847686058619145895int, 1int, 178530027989269438218975744901849234359292804956080435296723082236061579int);
    lemma_pow_mod_step(10int, 4870162022248329955nat, m, 2435081011124164977nat, 178530027989269438218975744901849234359292804956080435296723082236061579int, 155390522733042006447540114029039014104922983712523736152389744954576015int, 203119572430283904039490781274129004582521730791497758118305040929316676int, 9int, 185158186109738047320875507395898421265979825601152652561812873694590421int);
    lemma_pow_mod_step(10int, 9740324044496659911nat, m, 4870162022248329955nat, 185158186109738047320875507395898421265979825601152652561812873694590421int, 167142855205992064052466810195059705647897418249316434348496945252803536int, 44366417567536474765610239103012559858368432410190773422364882271053385int, 2int, 33433611632453415861872989842260793126075994698835527863373814799739108int);
    lemma_pow_mod_step(10int, 19480648088993319823nat, m, 9740324044496659911nat, 33433611632453415861872989842260793126075994698835527863373814799739108int, 5449649464308556516666131635024855916017263347814347674707362660584725int, 159562240501011058030231256133725227024191859477518815035710578276877689int, 7int, 159815430859920919022509657179725451140289441864435428096143255080995293int);
    lemma_pow_mod_step(10int, 38961296177986639647nat, m, 19480648088993319823nat, 159815430859920919022509657179725451140289441864435428096143255080995293int, 124520082995427431488933250614485833401333854452579256377355674677400701int, 130219848434515007353114644045061021842809656398114043896648161639198778int, 6int, 71506792216416078148458236887015802055271575771923819885656592659603554int);
    lemma_pow_mod_step(10int, 77922592355973279295nat, m, 38961296177986639647nat, 71506792216416078148458236887015802055271575771923819885656592659603554int, 24928524499441464947028963259378601831444773527244383646278260411195184int, 183158352779994384394029362669272891972530279941170338225837974687969652int, 8int, 190661271628298516763376021941269697894869481799414556817279715236517552int);
    lemma_pow_mod_step(10int, 155845184711946558591nat, m, 77922592355973279295nat, 190661271628298516763376021941269697894869481799414556817279715236517552int, 177225802683572505977748053663254041828445479967398366411295105573548392int, 103751953621934907319379393154521902444981041474874229283375155545995272int, 5int, 11943126112070743708220428575557010805789591241061776933064035682965865int);
    lemma_pow_mod_step(10int, 311690369423893117183nat, m, 155845184711946558591nat, 11943126112070743708220428575557010805789591241061776933064035682965865int, 695405334615222156285964908147491759453342658301989755824241009897044int, 159443589007801604958343192455711694951200369915379481402605769936926901int, 7int, 158628915927826388303629020399590130410374546243042091765095171681487413int);
    lemma_pow_mod_step(10int, 623380738847786234366nat, m, 311690369423893117183nat, 158628915927826388303629020399590130410374546243042091765095171681487413int, 122678001953093257127362052620055983433398704293407316207587702256706320int, 17840703350484814573699959638826562100190413198529382554483394830347849int, 0int, 17840703350484814573699959638826562100190413198529382554483394830347849int);
    lemma_pow_mod_step(10int, 1246761477695572468733nat, m, 623380738847786234366nat, 17840703350484814573699959638826562100190413198529382554483394830347849int, 1551764904609623085686703208801542430951688262684082880917766914199206int, 188749207198742811630777726122702725482320082345417040927277240356239375int, 9int, 41454533794327123233744955881635630263963341140345480651534867963817411int);
    lemma_pow_mod_step(10int, 2493522955391144937466nat, m, 1246761477695572468733nat, 41454533794327123233744955881635630263963341140345480651534867963817411int, 8378109886152956609862258636169036293292791105545647126371651316075570int, 116592662294950629593471670702816297599812974396536139929873676131416451int, 0int, 116592662294950629593471670702816297599812974396536139929873676131416451int);
}

proof fn lemma_certificate_132896956044521568488119_6()
    requires
        pow_mod(10int, 2493522955391144937466nat, 205115282021455665897114700593932402728804164701536103180137503955397371int) == 116592662294950629593471670702816297599812974396536139929873676131416451int,
    ensures
        pow_mod(10int, 10213470025282129663861865nat, 205115282021455665897114700593932402728804164701536103180137503955397371int) == 192203606424527133172719250316285251534344043151719082422633818699145251int,
{
    let m: int = 205115282021455665897114700593932402728804164701536103180137503955397371int;
    lemma_pow_mod_step(10int, 4987045910782289874932nat, m, 2493522955391144937466nat, 116592662294950629593471670702816297599812974396536139929873676131416451int, 66274188676017057387847821433668637498999715744958294319116832029291509int, 67556800870292590493589346511409667057268798464394872120762305902212562int, 0int, 67556800870292590493589346511409667057268798464394872120762305902212562int);
    lemma_pow_mod_step(10int, 9974091821564579749865nat, m, 4987045910782289874932nat, 67556800870292590493589346511409667057268798464394872120762305902212562int, 22250518337053823346260351191941020012375880728565763461381781472123311int, 148696235570083228825262855939074852870308940230294686590742772913388463int, 7int, 51155381550642626972825655233221709601460249392194143646465201446103033int);
    lemma_pow_mod_step(10int, 19948183643129159499730nat, m, 9974091821564579749865nat, 51155381550642626972825655233221709601460249392194143646465201446103033int, 12758059934891128136520124054803851507365781588004592941408194409528326int, 179079754953060476411087132076947749061928327548050896958986944041368143int, 0int, 179079754953060476411087132076947749061928327548050896958986944041368143int);
    lemma_pow_mod_step(10int, 39896367286258318999460nat, m, 19948183643129159499730nat, 179079754953060476411087132076947749061928327548050896958986944041368143int, 156348948347464512346068892641268675079161153788675014030052155569839991int, 75806865934216776254395531288268070281548648654300874558170699963204788int, 0int, 75806865934216776254395531288268070281548648654300874558170699963204788int);
    lemma_pow_mod_step(10int, 79792734572516637998920nat, m, 39896367286258318999460nat, 75806865934216776254395531288268070281548648654300874558170699963204788int, 28016834563146767910660639514272346361201749783240429957626837855925854int, 162972063817195737822694559497465085710004923464497764144679687943595110int, 0int, 162972063817195737822694559497465085710004923464497764144679687943595110int);
    lemma_pow_mod_step(10int, 159585469145033275997841nat, m, 79792734572516637998920nat, 162972063817195737822694559497465085710004923464497764144679687943595110int, 129487638966158926587869149352628958955567802338605669004281344381638865int, 111402479592862529359799419424065793458463665771902956874015384323488185int, 5int, 88448385821346964112420691270995920940615834211349052839466323457894995int);
    lemma_pow_mod_step(10int, 319170938290066551995683nat, m, 159585469145033275997841nat, 88448385821346964112420691270995920940615834211349052839466323457894995int, 38140097984427749638697681369355708122713675753245879668993423278764450int, 24271452964486135145722630294398769071116111584368946990184490787789075int, 1int, 37599247623405685560111602350055287982356951142153366721707403922493379int);
    lemma_pow_mod_step(10int, 638341876580133103991366nat, m, 319170938290066551995683nat, 37599247623405685560111602350055287982356951142153366721707403922493379int, 6892238393521066507067636243113945540714901558317109425550528872780866int, 167275201934650618058658963008885264775762407044104796156431477463334355int, 0int, 167275201934650618058658963008885264775762407044104796156431477463334355int);
    lemma_pow_mod_step(10int, 1276683753160266207982733nat, m, 638341876580133103991366nat, 167275201934650618058658963008885264775762407044104796156431477463334355int, 136415935987408520487793642258415980518012212999421686348545038492607830int, 52830945638141477946595442957911674573144889615124576304283580807251095int, 2int, 118078892338503447671725028391251940273840566748173556682560800161716208int);
    lemma_pow_mod_step(10int, 2553367506320532415965466nat, m, 1276683753160266207982733nat, 118078892338503447671725028391251940273840566748173556682560800161716208int, 67974578385775509158584744658833449369246831728924272753222517321504317int, 191402921861078804135446957135706239291565683755751172941977294702948657int, 0int, 191402921861078804135446957135706239291565683755751172941977294702948657int);
    lemma_pow_mod_step(10int, 5106735012641064831930932nat, m, 2553367506320532415965466nat, 191402921861078804135446957135706239291565683755751172941977294702948657int, 178607259956018785038474651923616252539422166198159269100258277452130171int, 44785016899283181388042824357404079480918137797997954244068373654923208int, 0int, 44785016899283181388042824357404079480918137797997954244068373654923208int);
    lemma_pow_mod_step(10int, 10213470025282129663861865nat, m, 5106735012641064831930932nat, 44785016899283181388042824357404079480918137797997954244068373654923208int, 9778392516162097663017716031908799115176322795555926030604100624944755int, 203824114461762812624675155566167687609358152546554401104387135429772159int, 9int, 192203606424527133172719250316285251534344043151719082422633818699145251int);
}

proof fn lemma_certificate_132896956044521568488119_7()
    requires
        pow_mod(10int, 10213470025282129663861865nat, 205115282021455665897114700593932402728804164701536103180137503955397371int) == 192203606424527133172719250316285251534344043151719082422633818699145251int,
    ensures
        pow_mod(10int, 41834373223555603103178202750nat, 205115282021455665897114700593932402728804164701536103180137503955397371int) == 137902757093262182877714748313246092589194366144071222239023519853970129int,
{
    let m: int = 205115282021455665897114700593932402728804164701536103180137503955397371int;
    lemma_pow_mod_step(10int, 20426940050564259327723731nat, m, 10213470025282129663861865nat, 192203606424527133172719250316285251534344043151719082422633818699145251int, 180104699944932731014076460581954793415545949073600970098832313195517280int, 186063415298168577317011388955962106401964275910392866212803059698782121int, 9int, 14596614788584780096081584214229439460405276790103733506793061389244871int);
    lemma_pow_mod_step(10int, 40853880101128518655447463nat, m, 20426940050564259327723731nat, 14596614788584780096081584214229439460405276790103733506793061389244871int, 1038738611704441777934243501752355851442104792912151318102054166499192int, 197273398396423693565219525278739909726647000480368232498021331289382409int, 9int, 126696445771135942578162947442007472707232522489857396358975777295247751int);
    lemma_pow_mod_step(10int, 81707760202257037310894927nat, m, 40853880101128518655447463nat, 126696445771135942578162947442007472707232522489857396358975777295247751int, 78258378473035007919292964447027699254196657245315246455805202896892158int, 51340720910135910610837642136972829053535040675231950394412462646841383int, 2int, 103176645058447774314147020181863485077742077349247297583849618557619088int);
    lemma_pow_mod_step(10int, 163415520404514074621789854nat, m, 81707760202257037310894927nat, 103176645058447774314147020181863485077742077349247297583849618557619088int, 51899692605075486582323102324280501412704067400607499810787755801611407int, 158513551853781275817558542242558643173058596066774996782409558490540747int, 0int, 158513551853781275817558542242558643173058596066774996782409558490540747int);
    lemma_pow_mod_step(10int, 326831040809028149243579708nat, m, 163415520404514074621789854nat, 158513551853781275817558542242558643173058596066774996782409558490540747int, 122499629835835899408839822590243108474290333153164454519446232171756688int, 200756782869833073120326734246610543186728575106473546830527852300450761int, 0int, 200756782869833073120326734246610543186728575106473546830527852300450761int);
    lemma_pow_mod_step(10int, 653662081618056298487159417nat, m, 326831040809028149243579708nat, 200756782869833073120326734246610543186728575106473546830527852300450761int, 196490897562812794125659844793130341995033709145069408770806119281068656int, 152128156366783618751480077104458589797639228308684427645210031772575745int, 7int, 85474589517646526234997866887059078874763130176091554191137790037975853int);
    lemma_pow_mod_step(10int, 1307324163236112596974318835nat, m, 653662081618056298487159417nat, 85474589517646526234997866887059078874763130176091554191137790037975853int, 35618533057161241049637926252325426421136797564688611193432590845169661int, 105116747042456003006033993308568585242191505885805190129921660242716378int, 5int, 25591060317281700574766430116023838777894235350371385398529082650176925int);
    lemma_pow_mod_step(10int, 2614648326472225193948637671nat, m, 1307324163236112596974318835nat, 25591060317281700574766430116023838777894235350371385398529082650176925int, 3192850194819932754936552502733940554719779178687741294693484818408560int, 101266295410207852907421421504333938332929376519897302459834103174559865int, 4int, 192201826016255865485755412667609772414077106392828611877791015924009166int);
    lemma_pow_mod_step(10int, 5229296652944450387897275343nat, m, 2614648326472225193948637671nat, 192201826016255865485755412667609772414077106392828611877791015924009166int, 180101363291492319821456553397708419309152933425964368973495955922645221int, 3116913525445812792808439933935329797745906369631826005229632342901565int, 0int, 31169135254458127928084399339353297977459063696318260052296323429015650int);
    lemma_pow_mod_step(10int, 10458593305888900775794550687nat, m, 5229296652944450387897275343nat, 31169135254458127928084399339353297977459063696318260052296323429015650int, 4736433984519404078867300885211134318322623535183459689629303476740529int, 121400350585610406082755862190595381905217988314826154213766179889173241int, 5int, 188427095748825731341985118936291805408159059640581026236974279114745555int);
    lemma_pow_mod_step(10int, 20917186611777801551589101375nat, m, 10458593305888900775794550687nat, 188427095748825731341985118936291805408159059640581026236974279114745555int, 173096660874947561796699038911854342502779025919930655267580928169756836int, 3038738308054168894380610532288350003992790682705606484980201568579869int, 0int, 30387383080541688943806105322883500039927906827056064849802015685798690int);
    lemma_pow_mod_step(10int, 41834373223555603103178202750nat, m, 20917186611777801551589101375nat, 30387383080541688943806105322883500039927906827056064849802015685798690int, 4501824736720502657686546260488349503198567678144009783197375034706601int, 137902757093262182877714748313246092589194366144071222239023519853970129int, 0int, 137902757093262182877714748313246092589194366144071222239023519853970129int);
}

proof fn lemma_certificate_132896956044521568488119_8()
    requires
        pow_mod(10int, 41834373223555603103178202750nat, 205115282021455665897114700593932402728804164701536103180137503955397371int) == 137902757093262182877714748313246092589194366144071222239023519853970129int,
    ensures
        pow_mod(10int, 171353592723683750310617918465449nat, 205115282021455665897114700593932402728804164701536103180137503955397371int) == 203321325941209148572613282714228126672744240092413131677860141076491588int,
{
    let m: int = 205115282021455665897114700593932402728804164701536103180137503955397371int;
    lemma_pow_mod_step(10int, 83668746447111206206356405500nat, m, 41834373223555603103178202750nat, 137902757093262182877714748313246092589194366144071222239023519853970129int, 92714546797805250581728157027782920183128075556858564740780874792921653int, 53400932225811724919826660027478223888323723858970376527902907539102378int, 0int, 53400932225811724919826660027478223888323723858970376527902907539102378int);
    lemma_pow_mod_step(10int, 167337492894222412412712811001nat, m, 83668746447111206206356405500nat, 53400932225811724919826660027478223888323723858970376527902907539102378int, 13902716240750141429051334449712620030595401806312689895261286788142537int, 195516148718331070175288203658863201108991611574579233945523541142184657int, 9int, 109123948990209708678849731243240386530678633431967410833997875823270231int);
    lemma_pow_mod_step(10int, 334674985788444824825425622002nat, m, 167337492894222412412712811001nat, 109123948990209708678849731243240386530678633431967410833997875823270231int, 58055334180182023905619240115807104358311333003498571346803891438035895int, 173559598836558729415712674467096254758990005054329874605153034764161316int, 0int, 173559598836558729415712674467096254758990005054329874605153034764161316int);
    lemma_pow_mod_step(10int, 669349971576889649650851244005nat, m, 334674985788444824825425622002nat, 173559598836558729415712674467096254758990005054329874605153034764161316int, 146858557058446040734380127629601887910239535448105165873762651440342593int, 91162019379229236870987646332434230115768432181613100037950049179328853int, 4int, 91159065706469705121417660948612690242467663009986587658950475971699046int);
    lemma_pow_mod_step(10int, 1338699943153779299301702488011nat, m, 669349971576889649650851244005nat, 91159065706469705121417660948612690242467663009986587658950475971699046int, 40513681762664631776807219153205970605583006477035933160740416399682285int, 175966038081129183469507982522529851542128370591963239726756640673037381int, 8int, 118738124639646507518162220473839293590850388307343571826466375087194842int);
    lemma_pow_mod_step(10int, 2677399886307558598603404976022nat, m, 1338699943153779299301702488011nat, 118738124639646507518162220473839293590850388307343571826466375087194842int, 68735698793352017878169309626952943783795977124938142454727706627690471int, 117221585256776248003839622278346891040658391004615836444689775676253223int, 0int, 117221585256776248003839622278346891040658391004615836444689775676253223int);
    lemma_pow_mod_step(10int, 5354799772615117197206809952045nat, m, 2677399886307558598603404976022nat, 117221585256776248003839622278346891040658391004615836444689775676253223int, 66991108193851318173238978094043400542023905266352770506173039660768029int, 33122871677102740085524418012964829492741180332449500445839977870435970int, 1int, 126113434749571734958129479535715892198607638622958901278262274748962329int);
    lemma_pow_mod_step(10int, 10709599545230234394413619904090nat, m, 5354799772615117197206809952045nat, 126113434749571734958129479535715892198607638622958901278262274748962329int, 77539802337452455244130479847338265304901686314548725983744020785798715int, 172496285809054028186317111425179189201116057661637906600266770814925976int, 0int, 172496285809054028186317111425179189201116057661637906600266770814925976int);
    lemma_pow_mod_step(10int, 21419199090460468788827239808181nat, m, 10709599545230234394413619904090nat, 172496285809054028186317111425179189201116057661637906600266770814925976int, 145064611103946883285260237056348346941189120483237209411651859380028110int, 58568049334878971200995053088654626196243431940722014445189510159453766int, 2int, 175449929305878380215721129698681456504825990004147938091620093683742918int);
    lemma_pow_mod_step(10int, 42838398180920937577654479616362nat, m, 21419199090460468788827239808181nat, 175449929305878380215721129698681456504825990004147938091620093683742918int, 150075008502866022603737521720646021281587511904748168783167474393846744int, 177453065378272128041466773261375258378077107924598899820575896120644700int, 0int, 177453065378272128041466773261375258378077107924598899820575896120644700int);
    lemma_pow_mod_step(10int, 85676796361841875155308959232724nat, m, 42838398180920937577654479616362nat, 177453065378272128041466773261375258378077107924598899820575896120644700int, 153521425131314290797137519477038329531058258714333380731841207401184258int, 110180839758041225053730724412273965018497509269805510595272587258304282int, 0int, 110180839758041225053730724412273965018497509269805510595272587258304282int);
    lemma_pow_mod_step(10int, 171353592723683750310617918465449nat, m, 85676796361841875155308959232724nat, 110180839758041225053730724412273965018497509269805510595272587258304282int, 59185338752659575439911017006921356313242772574316688865097205491975121int, 61355188998412048036684268390209293213035256949548533803813514898728633int, 2int, 203321325941209148572613282714228126672744240092413131677860141076491588int);
}

proof fn lemma_certificate_132896956044521568488119_9()
    requires
        pow_mod(10int, 171353592723683750310617918465449nat, 205115282021455665897114700593932402728804164701536103180137503955397371int) == 203321325941209148572613282714228126672744240092413131677860141076491588int,
    ensures
        pow_mod(10int, 701864315796208641272290994034483031nat, 205115282021455665897114700593932402728804164701536103180137503955397371int) == 53112206246790679189999972200718462398836939529159067554665060526278126int,
{
    let m: int = 205115282021455665897114700593932402728804164701536103180137503955397371int;
    lemma_pow_mod_step(10int, 342707185447367500621235836930899nat, m, 171353592723683750310617918465449nat, 203321325941209148572613282714228126672744240092413131677860141076491588int, 201543059956727981425450942799283256633996052183135807990164424012066195int, 135853405957060823961943798554363971812678254335656318462970379053788399int, 6int, 127842367441874244236749781980045301753957555147346565548878766805499764int);
    lemma_pow_mod_step(10int, 685414370894735001242471673861799nat, m, 342707185447367500621235836930899nat, 127842367441874244236749781980045301753957555147346565548878766805499764int, 79680415579340360505969852057485020387892403899566521112129923465346078int, 182671077259497581286310745702602561621666962476120000993066231277694758int, 8int, 185788516423330485686189852274566394386236307148911184489562281133768612int);
    lemma_pow_mod_step(10int, 1370828741789470002484943347723599nat, m, 685414370894735001242471673861799nat, 185788516423330485686189852274566394386236307148911184489562281133768612int, 168282794410079704312358829151858414842711393076469906121003086310358389int, 172145171199897204202525329783973893216241557054529643878376823638011225int, 8int, 80529455827326714848335693088279710331982252933007613342668204736933282int);
    lemma_pow_mod_step(10int, 2741657483578940004969886695447199nat, m, 1370828741789470002484943347723599nat, 80529455827326714848335693088279710331982252933007613342668204736933282int, 31616333955882502667813105302025761426144066688487619370911287447092958int, 150035785615449142411345948780901953465702793193469995000419930453478106int, 7int, 64550882004301762833656583651492715555398779023947227743236776846999463int);
    lemma_pow_mod_step(10int, 5483314967157880009939773390894398nat, m, 2741657483578940004969886695447199nat, 64550882004301762833656583651492715555398779023947227743236776846999463int, 20314509608783941506237522425872216037766489921995544317860510702856984int, 1794296950571986984982398499679438374247916939585974691012789619699305int, 0int, 1794296950571986984982398499679438374247916939585974691012789619699305int);
    lemma_pow_mod_step(10int, 10966629934315760019879546781788797nat, m, 5483314967157880009939773390894398nat, 1794296950571986984982398499679438374247916939585974691012789619699305int, 15696058894798302302829723733690829842250573865118083243708669936685int, 163471502258211195539106921599471278728619279371858952543305548032027890int, 7int, 198908048431922294111266311837185968184563640807836803172092952632497303int);
    lemma_pow_mod_step(10int, 21933259868631520039759093563577594nat, m, 10966629934315760019879546781788797nat, 198908048431922294111266311837185968184563640807836803172092952632497303int, 192888659202181680339547751449813679313314012250429024039031899081072805int, 93450645163060737549163599341040037524450953963277335989569561545678154int, 0int, 93450645163060737549163599341040037524450953963277335989569561545678154int);
    lemma_pow_mod_step(10int, 43866519737263040079518187127155189nat, m, 21933259868631520039759093563577594nat, 93450645163060737549163599341040037524450953963277335989569561545678154int, 42576169826677210466935940592430987730856388160219119287703531791311907int, 164548520882720722969443830730824736593318868376531071977922898164051219int, 8int, 4562952655561902517520702556788144102755366153021894338128949997333222int);
    lemma_pow_mod_step(10int, 87733039474526080159036374254310378nat, m, 43866519737263040079518187127155189nat, 4562952655561902517520702556788144102755366153021894338128949997333222int, 101506512492431102111842552090514302229326811036112235744170602754166int, 30814230330448669096799114869479048131007179647491855101426598149203698int, 0int, 30814230330448669096799114869479048131007179647491855101426598149203698int);
    lemma_pow_mod_step(10int, 175466078949052160318072748508620757nat, m, 87733039474526080159036374254310378nat, 30814230330448669096799114869479048131007179647491855101426598149203698int, 4629185994823244942817635602448252684948053029607375003444450551251784int, 43002664850492410692075970712579706769027651912710465121319744304215340int, 2int, 19796084462012775126530305937932262232668189724032444852922435131358658int);
    lemma_pow_mod_step(10int, 350932157898104320636145497017241515nat, m, 175466078949052160318072748508620757nat, 19796084462012775126530305937932262232668189724032444852922435131358658int, 1910559545661504134652224591542913042200876194560737821117491250973110int, 188322810521848910936323400300330241160827655230126130117800016545867154int, 9int, 37190567025388116289201697657910787049039069987436372556762629860095201int);
    lemma_pow_mod_step(10int, 701864315796208641272290994034483031nat, m, 350932157898104320636145497017241515nat, 37190567025388116289201697657910787049039069987436372556762629860095201int, 6743223917978015508886761498816099616618436101736315251321447532212840int, 87357333433261334277845877457644807331405359833530348027521507634786761int, 4int, 53112206246790679189999972200718462398836939529159067554665060526278126int);
}

proof fn lemma_certificate_132896956044521568488119_10()
    requires
        pow_mod(10int, 701864315796208641272290994034483031nat, 205115282021455665897114700593932402728804164701536103180137503955397371int) == 53112206246790679189999972200718462398836939529159067554665060526278126int,
    ensures
        pow_mod(10int, 2874836237501270594651303911565242496514nat, 205115282021455665897114700593932402728804164701536103180137503955397371int) == 43948179785152115103732383289403976051391252363131247747353873129883874int,
{
    let m: int = 205115282021455665897114700593932402728804164701536103180137503955397371int;
    lemma_pow_mod_step(10int, 1403728631592417282544581988068966062nat, m, 701864315796208641272290994034483031nat, 53112206246790679189999972200718462398836939529159067554665060526278126int, 13752785382936780286380653231630118082819806902382772612078983326155485int, 170733566351571868990965046502138319371720194438558358774108044999841941int, 0int, 170733566351571868990965046502138319371720194438558358774108044999841941int);
    lemma_pow_mod_step(10int, 2807457263184834565089163976137932125nat, m, 1403728631592417282544581988068966062nat, 170733566351571868990965046502138319371720194438558358774108044999841941int, 142114962824064092691510679209099591621552419972572409349511247703362372int, 12087179748565933879200246678445886943998028261389706926071400913523469int, 0int, 120871797485659338792002466784458869439980282613897069260714009135234690int);
    lemma_pow_mod_step(10int, 5614914526369669130178327952275864251nat, m, 2807457263184834565089163976137932125nat, 120871797485659338792002466784458869439980282613897069260714009135234690int, 71228195595323779375735076585181568651829835789754814754714983295613847int, 123777574139082049283035422113772719611847239659590922244090415124399863int, 6int, 7084049262086497447666017574132779745647408386692603360079127511614404int);
    lemma_pow_mod_step(10int, 11229829052739338260356655904551728502nat, m, 5614914526369669130178327952275864251nat, 7084049262086497447666017574132779745647408386692603360079127511614404int, 244661214186951120175611830460024637517790859455326635359651881690042int, 47455500311183256264262293624518885828209949424760580534552919216595634int, 0int, 47455500311183256264262293624518885828209949424760580534552919216595634int);
    lemma_pow_mod_step(10int, 22459658105478676520713311809103457004nat, m, 11229829052739338260356655904551728502nat, 47455500311183256264262293624518885828209949424760580534552919216595634int, 10979311183401467373849309872092750123197358167591305195055654274214189int, 135234856250768036632490772045866265588999894258431155255725744406364837int, 0int, 135234856250768036632490772045866265588999894258431155255725744406364837int);
    lemma_pow_mod_step(10int, 44919316210957353041426623618206914008nat, m, 22459658105478676520713311809103457004nat, 135234856250768036632490772045866265588999894258431155255725744406364837int, 89161890644758818961381995412826056590751316654500309679571650802413835int, 8384461104108489359245642155856878725079477435914519527349613337008784int, 0int, 8384461104108489359245642155856878725079477435914519527349613337008784int);
    lemma_pow_mod_step(10int, 89838632421914706082853247236413828016nat, m, 44919316210957353041426623618206914008nat, 8384461104108489359245642155856878725079477435914519527349613337008784int, 342730133579001905877754889655269802100979200756804096719456577990383int, 129735513353768902041744891258498096318098042533821104862781787111675563int, 0int, 129735513353768902041744891258498096318098042533821104862781787111675563int);
    lemma_pow_mod_step(10int, 179677264843829412165706494472827656032nat, m, 89838632421914706082853247236413828016nat, 129735513353768902041744891258498096318098042533821104862781787111675563int, 82057773849368010155598460533170356915282549397273644336586323860926972int, 200318733796745677628346162760115514044745288637089323698498478699576357int, 0int, 200318733796745677628346162760115514044745288637089323698498478699576357int);
    lemma_pow_mod_step(10int, 359354529687658824331412988945655312064nat, m, 179677264843829412165706494472827656032nat, 200318733796745677628346162760115514044745288637089323698498478699576357int, 195634351153484476548798506227395164118422261378191087041442316476203061int, 123150996370430999497395026424496786222843930727298729168965299731838818int, 0int, 123150996370430999497395026424496786222843930727298729168965299731838818int);
    lemma_pow_mod_step(10int, 718709059375317648662825977891310624128nat, m, 359354529687658824331412988945655312064nat, 123150996370430999497395026424496786222843930727298729168965299731838818int, 73939726760307811380360258459212997074387985776529982666610112981127670int, 62264709167242626863201930660216202848173114515401668919750860998281554int, 0int, 62264709167242626863201930660216202848173114515401668919750860998281554int);
    lemma_pow_mod_step(10int, 1437418118750635297325651955782621248257nat, m, 718709059375317648662825977891310624128nat, 62264709167242626863201930660216202848173114515401668919750860998281554int, 18901049056285203666000702192156796519833109817555356351348178626660277int, 107528229010999900281915388867415550004978575119613095930220990900723149int, 5int, 49705880002720673333580385704493486405764927688450443401522389230244635int);
    lemma_pow_mod_step(10int, 2874836237501270594651303911565242496514nat, m, 1437418118750635297325651955782621248257nat, 49705880002720673333580385704493486405764927688450443401522389230244635int, 12045297076335965326963489380774367839720383511672573327499158986531381int, 43948179785152115103732383289403976051391252363131247747353873129883874int, 0int, 43948179785152115103732383289403976051391252363131247747353873129883874int);
}

proof fn lemma_certificate_132896956044521568488119_11()
    requires
        pow_mod(10int, 2874836237501270594651303911565242496514nat, 205115282021455665897114700593932402728804164701536103180137503955397371int) == 43948179785152115103732383289403976051391252363131247747353873129883874int,
    ensures
        pow_mod(10int, 11775329228805204355691740821771233265723184nat, 205115282021455665897114700593932402728804164701536103180137503955397371int) == 52743278483941845634201771160332192985627073342981305616058127290792305int,
{
    let m: int = 205115282021455665897114700593932402728804164701536103180137503955397371int;
    lemma_pow_mod_step(10int, 5749672475002541189302607823130484993028nat, m, 2874836237501270594651303911565242496514nat, 43948179785152115103732383289403976051391252363131247747353873129883874int, 9416375451859400726767032289647358228460370479155507320266578869701017int, 162186677681093192108838909756194547900478146896649118534940770527421569int, 0int, 162186677681093192108838909756194547900478146896649118534940770527421569int);
    lemma_pow_mod_step(10int, 11499344950005082378605215646260969986057nat, m, 5749672475002541189302607823130484993028nat, 162186677681093192108838909756194547900478146896649118534940770527421569int, 128242606586862123974241528213338195341500288239975724810985529938088780int, 24348472152232706443179115677884943908412006378885340105701618269824381int, 1int, 38369439500871398534676456184917036355315899087317297876878678742846439int);
    lemma_pow_mod_step(10int, 22998689900010164757210431292521939972115nat, m, 11499344950005082378605215646260969986057nat, 38369439500871398534676456184917036355315899087317297876878678742846439int, 7177494885325182472148937710453503198937419704912889208638215731664188int, 46933665497145072434378867523686058263396033012506966665470745264930973int, 2int, 59106090928539392549559274048995777176352000721997460294432444738514988int);
    lemma_pow_mod_step(10int, 45997379800020329514420862585043879944231nat, m, 22998689900010164757210431292521939972115nat, 59106090928539392549559274048995777176352000721997460294432444738514988int, 17032031696630644467107958286619576775255367608969993331369855004278510int, 193801128548886646198922487912335894196858496401892035832646319294842934int, 9int, 91973747295765468915192573777967317409347481705095429705225657349853001int);
    lemma_pow_mod_step(10int, 91994759600040659028841725170087759888462nat, m, 45997379800020329514420862585043879944231nat, 91973747295765468915192573777967317409347481705095429705225657349853001int, 41241052876501282115090441637001433834136276843024616403943702998301823int, 66284274495052396768772296973609908596325194702082371577540088149998668int, 0int, 66284274495052396768772296973609908596325194702082371577540088149998668int);
    lemma_pow_mod_step(10int, 183989519200081318057683450340175519776924nat, m, 91994759600040659028841725170087759888462nat, 66284274495052396768772296973609908596325194702082371577540088149998668int, 21420174070091323426242768671532736350246388306839284315255919489263902int, 103640218968424377827186675584963760426911338528135906569158067705772582int, 0int, 103640218968424377827186675584963760426911338528135906569158067705772582int);
    lemma_pow_mod_step(10int, 367979038400162636115366900680351039553849nat, m, 183989519200081318057683450340175519776924nat, 103640218968424377827186675584963760426911338528135906569158067705772582int, 52367112201319943306347709839384179912278840461414939785167487131634694int, 12945962275427658302772442903005331290350270855720280437983725922957250int, 0int, 129459622754276583027724429030053312903502708557202804379837259229572500int);
    lemma_pow_mod_step(10int, 735958076800325272230733801360702079107699nat, m, 367979038400162636115366900680351039553849nat, 129459622754276583027724429030053312903502708557202804379837259229572500int, 81709143065832038487579708114705013758977734859816751237012349250459625int, 55683821502275489670491697506978506213789237212527769518019211489604125int, 2int, 146607650979843564910687573881920256680284042722205488819917106985246508int);
    lemma_pow_mod_step(10int, 1471916153600650544461467602721404158215398nat, m, 735958076800325272230733801360702079107699nat, 146607650979843564910687573881920256680284042722205488819917106985246508int, 104788892928900881807719814046779020690496209059314122956710894119818894int, 82548149603232055067715153602717548014841108889744000616126365202466390int, 0int, 82548149603232055067715153602717548014841108889744000616126365202466390int);
    lemma_pow_mod_step(10int, 2943832307201301088922935205442808316430796nat, m, 1471916153600650544461467602721404158215398nat, 82548149603232055067715153602717548014841108889744000616126365202466390int, 33221303336163881272646419500232138700744236044402657557595315409942806int, 94844489911704022229864148133309102504132104633413604981508776966869074int, 0int, 94844489911704022229864148133309102504132104633413604981508776966869074int);
    lemma_pow_mod_step(10int, 5887664614402602177845870410885616632861592nat, m, 2943832307201301088922935205442808316430796nat, 94844489911704022229864148133309102504132104633413604981508776966869074int, 43855714591126235472450135346821501221582238837928320534232679415468128int, 139492805516615215889207485854181651143964394926386202112994204032125988int, 0int, 139492805516615215889207485854181651143964394926386202112994204032125988int);
    lemma_pow_mod_step(10int, 11775329228805204355691740821771233265723184nat, m, 5887664614402602177845870410885616632861592nat, 139492805516615215889207485854181651143964394926386202112994204032125988int, 94864910108749705886713850304008716737443568711835127243116534157582509int, 52743278483941845634201771160332192985627073342981305616058127290792305int, 0int, 52743278483941845634201771160332192985627073342981305616058127290792305int);
}

proof fn lemma_certificate_132896956044521568488119_12()
    requires
        pow_mod(10int, 11775329228805204355691740821771233265723184nat, 205115282021455665897114700593932402728804164701536103180137503955397371int) == 52743278483941845634201771160332192985627073342981305616058127290792305int,
    ensures
        pow_mod(10int, 48231748521186117040913370405974971456402164694nat, 205115282021455665897114700593932402728804164701536103180137503955397371int) == 94737818901995665820440528006648160366422528420070809696117526421372164int,
{
    let m: int = 205115282021455665897114700593932402728804164701536103180137503955397371int;
    lemma_pow_mod_step(10int, 23550658457610408711383481643542466531446369nat, m, 11775329228805204355691740821771233265723184nat, 52743278483941845634201771160332192985627073342981305616058127290792305int, 13562389880553379383949207377587782914986464430549292835025093963987654int, 158937981979200282864332754446917111390033269749976523206575899339155391int, 7int, 153572845641813167363524640311644294798703544589012509804796465703772313int);
    lemma_pow_mod_step(10int, 47101316915220817422766963287084933062892738nat, m, 23550658457610408711383481643542466531446369nat, 153572845641813167363524640311644294798703544589012509804796465703772313int, 114982261126975183516770922589436507062979525474454311330714380551505867int, 65322469867185880771149482416358900695061379758473437327810222122494312int, 0int, 65322469867185880771149482416358900695061379758473437327810222122494312int);
    lemma_pow_mod_step(10int, 94202633830441634845533926574169866125785477nat, m, 47101316915220817422766963287084933062892738nat, 65322469867185880771149482416358900695061379758473437327810222122494312int, 20803057809720213444797587076159907503440448888967528276425666519233886int, 138496239569623890900190245046030571477016549717642752469493950853839638int, 6int, 154270703567504913619214246896711298397340508967210905614114484806012154int);
    lemma_pow_mod_step(10int, 188405267660883269691067853148339732251570955nat, m, 94202633830441634845533926574169866125785477nat, 154270703567504913619214246896711298397340508967210905614114484806012154int, 116029628532131898090806272215324656597014733168068548526137004331750214int, 201777348743445596555560971561300564856415491366377544858487256111432322int, 9int, 171735949241354972481577410267614024004917431349950519963635025515746881int);
    lemma_pow_mod_step(10int, 376810535321766539382135706296679464503141911nat, m, 188405267660883269691067853148339732251570955nat, 171735949241354972481577410267614024004917431349950519963635025515746881int, 143788585478210110636213790918767358180031245405836614572786230639765951int, 139957813238619648318745470712170254838777792702657883582416504620513340int, 6int, 168886440257462487804766503558108132014952938817362216743340022472749174int);
    lemma_pow_mod_step(10int, 753621070643533078764271412593358929006283823nat, m, 376810535321766539382135706296679464503141911nat, 168886440257462487804766503558108132014952938817362216743340022472749174int, 139056580386116206273250814190409616969936067053793796279131504159130823int, 162710774507600461557092464375332529033573291811751883684311314578415943int, 7int, 191300770925814954291121739595798471234103765206766114582150618096377833int);
    lemma_pow_mod_step(10int, 1507242141287066157528542825186717858012567646nat, m, 753621070643533078764271412593358929006283823nat, 191300770925814954291121739595798471234103765206766114582150618096377833int, 178416666940413926484501552520598725518274976158066253493579744419613139int, 150959929753347278548513525379259212325969221135926412811388043856118320int, 0int, 150959929753347278548513525379259212325969221135926412811388043856118320int);
    lemma_pow_mod_step(10int, 3014484282574132315057085650373435716025135293nat, m, 1507242141287066157528542825186717858012567646nat, 150959929753347278548513525379259212325969221135926412811388043856118320int, 111102888904941556071073699927047427734858896366194053631976574601988001int, 198400085073725336867398353957502618229590417189375004971007887310677029int, 9int, 137963312544152375599951234229634557736666689579925121088841337508193951int);
    lemma_pow_mod_step(10int, 6028968565148264630114171300746871432050270586nat, m, 3014484282574132315057085650373435716025135293nat, 137963312544152375599951234229634557736666689579925121088841337508193951int, 92795989750605088919192591413591479635270850937830541898826872692459385int, 162496718664891552590432413462722100679419742212091253685223022879713566int, 0int, 162496718664891552590432413462722100679419742212091253685223022879713566int);
    lemma_pow_mod_step(10int, 12057937130296529260228342601493742864100541173nat, m, 6028968565148264630114171300746871432050270586nat, 162496718664891552590432413462722100679419742212091253685223022879713566int, 128733380158845766993244599503880717462339941048162396321249572700356525int, 150754019731892400993845598518665885550073747120925677335677792456740581int, 7int, 71733223168734348658653081029132036399108318298504051095815396879624213int);
    lemma_pow_mod_step(10int, 24115874260593058520456685202987485728201082347nat, m, 12057937130296529260228342601493742864100541173nat, 71733223168734348658653081029132036399108318298504051095815396879624213int, 25086650080208044011339611454383725187576477439589386076022587440848504int, 33961172271896712771921301025440078585806785796304119483855661364986385int, 1int, 134496440697511461822098309660468383129263693261505091658419109694466479int);
    lemma_pow_mod_step(10int, 48231748521186117040913370405974971456402164694nat, m, 24115874260593058520456685202987485728201082347nat, 134496440697511461822098309660468383129263693261505091658419109694466479int, 88190857268289857926480360951211231058168436193595327928412027646134087int, 94737818901995665820440528006648160366422528420070809696117526421372164int, 0int, 94737818901995665820440528006648160366422528420070809696117526421372164int);
}

proof fn lemma_certificate_132896956044521568488119_13()
    requires
        pow_mod(10int, 48231748521186117040913370405974971456402164694nat, 205115282021455665897114700593932402728804164701536103180137503955397371int) == 94737818901995665820440528006648160366422528420070809696117526421372164int,
    ensures
        pow_mod(10int, 1543415952677955745309227852991199086604869270230nat, 205115282021455665897114700593932402728804164701536103180137503955397371int) == 23464812984708083251961214877810561828785050182618072726888556255391050int,
{
    let m: int = 205115282021455665897114700593932402728804164701536103180137503955397371int;
    lemma_pow_mod_step(10int, 96463497042372234081826740811949942912804329389nat, m, 48231748521186117040913370405974971456402164694nat, 94737818901995665820440528006648160366422528420070809696117526421372164int, 43757121565269276636558760926014844605153239929544854117482402798291234int, 196121393817519355977719800324669104691680323337764414503647838338097082int, 9int, 115176399982092566703165697901299422357565751063819216415240847782394481int);
    lemma_pow_mod_step(10int, 192926994084744468163653481623899885825608658778nat, m, 96463497042372234081826740811949942912804329389nat, 115176399982092566703165697901299422357565751063819216415240847782394481int, 64673889639521599522795284473096028829101540349354753272651771759173457int, 147637937355799574401760085560822557286369461726248851744207700948477814int, 0int, 147637937355799574401760085560822557286369461726248851744207700948477814int);
    lemma_pow_mod_step(10int, 385853988169488936327306963247799771651217317557nat, m, 192926994084744468163653481623899885825608658778nat, 147637937355799574401760085560822557286369461726248851744207700948477814int, 106266877493774319591969915601474227749177796723609778973908536788930401int, 5138258227783282721102797857238171659109741899130256696016173632842825int, 0int, 51382582277832827211027978572381716591097418991302566960161736328428250int);
    lemma_pow_mod_step(10int, 771707976338977872654613926495599543302434635115nat, m, 385853988169488936327306963247799771651217317557nat, 51382582277832827211027978572381716591097418991302566960161736328428250int, 12871638502596264645244177841232417105491917597131509296516868728350013int, 132807139704046198234654419630959166396552963659723801958693860810046677int, 6int, 97379704911727986963855992745997247592704648388021400506113584368082544int);
    lemma_pow_mod_step(10int, 1543415952677955745309227852991199086604869270230nat, m, 771707976338977872654613926495599543302434635115nat, 97379704911727986963855992745997247592704648388021400506113584368082544int, 46231596374683043575733056076403129390156007684807026965991333704326466int, 23464812984708083251961214877810561828785050182618072726888556255391050int, 0int, 23464812984708083251961214877810561828785050182618072726888556255391050int);
}

proof fn lemma_certificate_132896956044521568488119()
    ensures
        pow_mod(10int, 1543415952677955745309227852991199086604869270230nat, 205115282021455665897114700593932402728804164701536103180137503955397371int) == 23464812984708083251961214877810561828785050182618072726888556255391050int,
{
    lemma_pow_mod_zero(10int, 205115282021455665897114700593932402728804164701536103180137503955397371int);
    lemma_certificate_132896956044521568488119_0();
    lemma_certificate_132896956044521568488119_1();
    lemma_certificate_132896956044521568488119_2();
    lemma_certificate_132896956044521568488119_3();
    lemma_certificate_132896956044521568488119_4();
    lemma_certificate_132896956044521568488119_5();
    lemma_certificate_132896956044521568488119_6();
    lemma_certificate_132896956044521568488119_7();
    lemma_certificate_132896956044521568488119_8();
    lemma_certificate_132896956044521568488119_9();
    lemma_certificate_132896956044521568488119_10();
    lemma_certificate_132896956044521568488119_11();
    lemma_certificate_132896956044521568488119_12();
    lemma_certificate_132896956044521568488119_13();
}

proof fn lemma_certificate_255515944373312847190720520512484175977_0()
    requires
        pow_mod(10int, 0nat, 205115282021455665897114700593932402728804164701536103180137503955397371int) == 1int,
    ensures
        pow_mod(10int, 2533nat, 205115282021455665897114700593932402728804164701536103180137503955397371int) == 77525153397374414537268960794757266465201743719515513644260181456169682int,
{
    let m: int = 205115282021455665897114700593932402728804164701536103180137503955397371int;
    lemma_pow_mod_step(10int, 1nat, m, 0nat, 1int, 0int, 1int, 0int, 10int);
    lemma_pow_mod_step(10int, 2nat, m, 1nat, 10int, 0int, 100int, 0int, 100int);
    lemma_pow_mod_step(10int, 4nat, m, 2nat, 100int, 0int, 10000int, 0int, 10000int);
    lemma_pow_mod_step(10int, 9nat, m, 4nat, 10000int, 0int, 100000000int, 0int, 1000000000int);
    lemma_pow_mod_step(10int, 19nat, m, 9nat, 1000000000int, 0int, 1000000000000000000int, 0int, 10000000000000000000int);
    lemma_pow_mod_step(10int, 39nat, m, 19nat, 10000000000000000000int, 0int, 100000000000000000000000000000000000000int, 0int, 1000000000000000000000000000000000000000int);
    lemma_pow_mod_step(10int, 79nat, m, 39nat, 1000000000000000000000000000000000000000int, 4875307int, 29753823041862135420391497199449441954201448125413153366003723509382103int, 1int, 92422948397165688306800271400562016813210316552595430479899731138423659int);
    lemma_pow_mod_step(10int, 158nat, m, 79nat, 92422948397165688306800271400562016813210316552595430479899731138423659int, 41644880411843877302257685230175593543182474856576553796641373201410112int, 4747000719602401491799498907998409033368222291470148214345156873332729int, 0int, 4747000719602401491799498907998409033368222291470148214345156873332729int);
    lemma_pow_mod_step(10int, 316nat, m, 158nat, 4747000719602401491799498907998409033368222291470148214345156873332729int, 109860248392163158305700450949720142950020238136105095267301224737661int, 58290984589461105483717403205084447747257490421155149622551579058498210int, 0int, 58290984589461105483717403205084447747257490421155149622551579058498210int);
    lemma_pow_mod_step(10int, 633nat, m, 316nat, 58290984589461105483717403205084447747257490421155149622551579058498210int, 16565508190917574220781449446606277434510935718804978105615550083173402int, 175487634442646794632441013282893225923282206159691765173291314965277958int, 8int, 113954088254822619147492528077473037402388743984628826291813118009600612int);
    lemma_pow_mod_step(10int, 1266nat, m, 633nat, 113954088254822619147492528077473037402388743984628826291813118009600612int, 63308467813868578863420135350689046630786899367180004163933139986615876int, 200398591353000433519110924684568051774623846522267676759163192633512548int, 0int, 200398591353000433519110924684568051774623846522267676759163192633512548int);
    lemma_pow_mod_step(10int, 2533nat, m, 1266nat, 200398591353000433519110924684568051774623846522267676759163192633512548int, 195790362475605535431025233760180287348910086601759811727026748087324109int, 171844740956901974171418656554621648829563506133180433908536021309934865int, 8int, 77525153397374414537268960794757266465201743719515513644260181456169682int);
}

proof fn lemma_certificate_255515944373312847190720520512484175977_1()
    requires
        pow_mod(10int, 2533nat, 205115282021455665897114700593932402728804164701536103180137503955397371int) == 77525153397374414537268960794757266465201743719515513644260181456169682int,
    ensures
        pow_mod(10int, 10375293nat, 205115282021455665897114700593932402728804164701536103180137503955397371int) == 139116044687621053349902989850872399032716175651415161688844687018769046int,
{
    let m: int = 205115282021455665897114700593932402728804164701536103180137503955397371int;
    lemma_pow_mod_step(10int, 5066nat, m, 2533nat, 77525153397374414537268960794757266465201743719515513644260181456169682int, 29301324357966435200636632043118884209833057685213073953164121847841360int, 174126233262023688999621654952987612721004597983330869316680285406916564int, 0int, 174126233262023688999621654952987612721004597983330869316680285406916564int);
    lemma_pow_mod_step(10int, 10132nat, m, 5066nat, 174126233262023688999621654952987612721004597983330869316680285406916564int, 147819045032681323421528217228034822917484566711639597819911272615643599int, 36573975729055038685151135367456356423605275676104789111019085099987867int, 0int, 36573975729055038685151135367456356423605275676104789111019085099987867int);
    lemma_pow_mod_step(10int, 20264nat, m, 10132nat, 36573975729055038685151135367456356423605275676104789111019085099987867int, 6521482394907973268864918207737244210948367033301624626768782529546342int, 4603684796483089988056879022397396974853380511376995196617632577742807int, 0int, 4603684796483089988056879022397396974853380511376995196617632577742807int);
    lemma_pow_mod_step(10int, 40528nat, m, 20264nat, 4603684796483089988056879022397396974853380511376995196617632577742807int, 103326838919552583841144604059259540830933682816560288744272845050854int, 30473481680639816954020550347279594115430857650556791653486960767334415int, 0int, 30473481680639816954020550347279594115430857650556791653486960767334415int);
    lemma_pow_mod_step(10int, 81056nat, m, 40528nat, 30473481680639816954020550347279594115430857650556791653486960767334415int, 4527371518047849560867234623688246444266043477028681456518324121294336int, 61696921768857154814105047397027525301369120255930902418365402711801569int, 0int, 61696921768857154814105047397027525301369120255930902418365402711801569int);
    lemma_pow_mod_step(10int, 162113nat, m, 81056nat, 61696921768857154814105047397027525301369120255930902418365402711801569int, 18557906160079811305926307653949260222004896865556292068452200420568100int, 17993678947183370503864826419942088442560401111140007928062792564396661int, 0int, 179936789471833705038648264199420884425604011111400079280627925643966610int);
    lemma_pow_mod_step(10int, 324227nat, m, 162113nat, 179936789471833705038648264199420884425604011111400079280627925643966610int, 157849029513287307556445911040867336390203725025625154043289183757205583int, 26338713735201585897364023196355819106819302964937305148212129490169807int, 1int, 58271855330560193076525531369625788339388864947836948301983790946300699int);
    lemma_pow_mod_step(10int, 648455nat, m, 324227nat, 58271855330560193076525531369625788339388864947836948301983790946300699int, 16554637422435182665429088916812678874596558137765391718738235472679779int, 142993324531796914718739792580405115116349468617048869307394392746427592int, 6int, 199241553189235151804709722240456734790669697961272073993118903731891694int);
    lemma_pow_mod_step(10int, 1296911nat, m, 648455nat, 199241553189235151804709722240456734790669697961272073993118903731891694int, 193536025819404210858826584751668023720740423062268950261744246492071779int, 161258868855980558809443705440266873731055981156721914517119628746296627int, 7int, 176781714409615926814634150245141918208930658656466422910233759775184673int);
    lemma_pow_mod_step(10int, 2593823nat, m, 1296911nat, 176781714409615926814634150245141918208930658656466422910233759775184673int, 152361999757453368362637103303400948407409320203298487911119826005137567int, 138378138234645870212192409555789608614556551780568100326701826248980572int, 6int, 153089690217724706739235891994301669772740529596464384186193238757421494int);
    lemma_pow_mod_step(10int, 5187646nat, m, 2593823nat, 153089690217724706739235891994301669772740529596464384186193238757421494int, 114259907989241841845079467559996592610794588786979337189445076516271609int, 38074319399030726032502604266380189686599559364314369003410402612652097int, 0int, 38074319399030726032502604266380189686599559364314369003410402612652097int);
    lemma_pow_mod_step(10int, 10375293nat, m, 5187646nat, 38074319399030726032502604266380189686599559364314369003410402612652097int, 7067507517785873149738190826595137626517807514763772936006713994142236int, 95957717277344371693836179222660200994793283445755957440939470284035853int, 4int, 139116044687621053349902989850872399032716175651415161688844687018769046int);
}

proof fn lemma_certificate_255515944373312847190720520512484175977_2()
    requires
        pow_mod(10int, 10375293nat, 205115282021455665897114700593932402728804164701536103180137503955397371int) == 139116044687621053349902989850872399032716175651415161688844687018769046int,
    ensures
        pow_mod(10int, 42497201662nat, 205115282021455665897114700593932402728804164701536103180137503955397371int) == 123108490255988405266997562099522253563836716099168943601395229650417462int,
{
    let m: int = 205115282021455665897114700593932402728804164701536103180137503955397371int;
    lemma_pow_mod_step(10int, 20750586nat, m, 10375293nat, 139116044687621053349902989850872399032716175651415161688844687018769046int, 94353154473901014066785833864671105788167693577895341298877449605799865int, 143860033223915483572799164986807153096160262322680238631266208714595201int, 0int, 143860033223915483572799164986807153096160262322680238631266208714595201int);
    lemma_pow_mod_step(10int, 41501173nat, m, 20750586nat, 143860033223915483572799164986807153096160262322680238631266208714595201int, 100897938735843360022789684747697725063855269828597149351103031184137039int, 202568261002209099433180950347017464427468380130175757732452756327905932int, 9int, 179645071828990001257777198124783019715446318987932648703290027680482981int);
    lemma_pow_mod_step(10int, 83002346nat, m, 41501173nat, 179645071828990001257777198124783019715446318987932648703290027680482981int, 157337627476567998417248274140894505136822691366039432565250711523310581int, 190879085223552368337576101982598028763391074759981240524048484126763810int, 0int, 190879085223552368337576101982598028763391074759981240524048484126763810int);
    lemma_pow_mod_step(10int, 166004693nat, m, 83002346nat, 190879085223552368337576101982598028763391074759981240524048484126763810int, 177630963508457538915479822961960862276828629688158383327435072586282727int, 94196190196198319024203948595043352579349050548656516913257774487205383int, 4int, 121500773876160526653580683574703914878273846680420756412027729050464346int);
    lemma_pow_mod_step(10int, 332009387nat, m, 166004693nat, 121500773876160526653580683574703914878273846680420756412027729050464346int, 71971419715873230513788783149625285166556485035730120613955927859719453int, 23213020381155977133591520102866447553233252591517957827259637023449653int, 1int, 27014921790104105438800500434732072803528361213643475092458866279099159int);
    lemma_pow_mod_step(10int, 664018775nat, m, 332009387nat, 27014921790104105438800500434732072803528361213643475092458866279099159int, 3558028403018268214684387105217378706805721106389759589390876502654595int, 180571770159147712805083182331869633631732249221752450046485568970437536int, 8int, 164795445419831800873914218567237114486889174605235675023755658061196392int);
    lemma_pow_mod_step(10int, 1328037551nat, m, 664018775nat, 164795445419831800873914218567237114486889174605235675023755658061196392int, 132401343105581002465688096358409657862389825882007649904005041430330411int, 89650708462060449426211435984666337593917057211115264466329383063068183int, 4int, 76045956534781830673655557470933765023953913305008231942743814809092346int);
    lemma_pow_mod_step(10int, 2656075103nat, m, 1328037551nat, 76045956534781830673655557470933765023953913305008231942743814809092346int, 28193840304327055446224042090371822734081878152383967259329616323139741int, 74385905269950131828433705954269463633729877832918709225752594338762805int, 3int, 128513206635134320592992957760897428150886284224578782717113431521435937int);
    lemma_pow_mod_step(10int, 5312150207nat, m, 2656075103nat, 128513206635134320592992957760897428150886284224578782717113431521435937int, 80518838561805193358847292992830642129738599185322487942756173268372035int, 140089252692196754197861518363901710994401087567258718234883405706147984int, 6int, 170200834793233546595926980075422693571185887463370563268009033329095614int);
    lemma_pow_mod_step(10int, 10624300415nat, m, 5312150207nat, 170200834793233546595926980075422693571185887463370563268009033329095614int, 141229477778664032034364583218656046400733986391001715010126741344346771int, 1843700730528962610383330625001008875694549541580417102427723428297955int, 0int, 18437007305289626103833306250010088756945495415804171024277234282979550int);
    lemma_pow_mod_step(10int, 21248600831nat, m, 10624300415nat, 18437007305289626103833306250010088756945495415804171024277234282979550int, 1657230192822717435931738118874587972432992461508728591453922977228911int, 163766637835996174132824631104757141450207859723462991618176598283609519int, 7int, 201859404209772080048443406890044595400449444323877193920803455148313593int);
    lemma_pow_mod_step(10int, 42497201662nat, m, 21248600831nat, 201859404209772080048443406890044595400449444323877193920803455148313593int, 198655208263135997714821144112216050118802106649076784105902961493623297int, 123108490255988405266997562099522253563836716099168943601395229650417462int, 0int, 123108490255988405266997562099522253563836716099168943601395229650417462int);
}

proof fn lemma_certificate_255515944373312847190720520512484175977_3()
    requires
        pow_mod(10int, 42497201662nat, 205115282021455665897114700593932402728804164701536103180137503955397371int) == 123108490255988405266997562099522253563836716099168943601395229650417462int,
    ensures
        pow_mod(10int, 174068538010864nat, 205115282021455665897114700593932402728804164701536103180137503955397371int) == 53961232622732438089861876916797103086911525535004653959420943268254841int,
{
    let m: int = 205115282021455665897114700593932402728804164701536103180137503955397371int;
    lemma_pow_mod_step(10int, 84994403325nat, m, 42497201662nat, 123108490255988405266997562099522253563836716099168943601395229650417462int, 73888694317391041524338090507938202971955093159718703203875764260817801int, 162238703313034069923770294554985493785090352733601645837728482489120273int, 7int, 186580058980151037957900041392328118749274374425263736116322297203421133int);
    lemma_pow_mod_step(10int, 169988806651nat, m, 84994403325nat, 186580058980151037957900041392328118749274374425263736116322297203421133int, 169719769614217185970611961962721933419346022906641128347888428401634893int, 17206718183529398022490875030924830997307043885593864300249271476937386int, 0int, 172067181835293980224908750309248309973070438855938643002492714769373860int);
    lemma_pow_mod_step(10int, 339977613302nat, m, 169988806651nat, 172067181835293980224908750309248309973070438855938643002492714769373860int, 144343779619712249207293694695736004768275052670404198506666288119913590int, 118633172850877788817950379669982965818869381620894748253588469818127710int, 0int, 118633172850877788817950379669982965818869381620894748253588469818127710int);
    lemma_pow_mod_step(10int, 679955226604nat, m, 339977613302nat, 118633172850877788817950379669982965818869381620894748253588469818127710int, 68614242498002087454465913898287746346519496488535430988045179128609813int, 130249251860006562623038785358284316714377192843909105376270104644842477int, 0int, 130249251860006562623038785358284316714377192843909105376270104644842477int);
    lemma_pow_mod_step(10int, 1359910453209nat, m, 679955226604nat, 130249251860006562623038785358284316714377192843909105376270104644842477int, 82708940274459158161842237010706798426192115515555334193884905143896302int, 49328239769724717541912904237710184511437060394478394000360226516073487int, 2int, 83051833654335843624899641189237039656762274541711733643327257249940128int);
    lemma_pow_mod_step(10int, 2719820906419nat, m, 1359910453209nat, 83051833654335843624899641189237039656762274541711733643327257249940128int, 33627953048500607205081222201399605123003886342204259955013015650398652int, 43981234816384590358193386383263330204506563692658387434389176361912492int, 2int, 29581784120934571787704462644768496587457307523511667983616755708330178int);
    lemma_pow_mod_step(10int, 5439641812839nat, m, 2719820906419nat, 29581784120934571787704462644768496587457307523511667983616755708330178int, 4266293292013418154993267095104554307360638005339422141573613448417901int, 77788752724624731424464361010837350378521407775570696729366511340773413int, 3int, 162541681181880316553299508326576295598801583651098657753252601541542017int);
    lemma_pow_mod_step(10int, 10879283625679nat, m, 5439641812839nat, 162541681181880316553299508326576295598801583651098657753252601541542017int, 128804630552434589933269705570250045930237506984132993169125450874578639int, 188177421510104870092566491633378331978563825711100411663979690743070220int, 9int, 35736676907947707851632610988391695226400774797179188018559371832125861int);
    lemma_pow_mod_step(10int, 21758567251358nat, m, 10879283625679nat, 35736676907947707851632610988391695226400774797179188018559371832125861int, 6226303880612140100831778873927480464461301605695839247739360427330983int, 160677451886652393783469977810372156090413155924260374960771403839945628int, 0int, 160677451886652393783469977810372156090413155924260374960771403839945628int);
    lemma_pow_mod_step(10int, 43517134502716nat, m, 21758567251358nat, 160677451886652393783469977810372156090413155924260374960771403839945628int, 125866991919631491779351781109340693738951549456305661711250362266936176int, 153116296728116285082562006551467298372700964487752245182423875221121088int, 0int, 153116296728116285082562006551467298372700964487752245182423875221121088int);
    lemma_pow_mod_step(10int, 87034269005432nat, m, 43517134502716nat, 153116296728116285082562006551467298372700964487752245182423875221121088int, 114299627471346475145656571424046710242613864744361862531011976289897201int, 16316530114412501326953223269908718208172985761479039451535312862645173int, 0int, 16316530114412501326953223269908718208172985761479039451535312862645173int);
    lemma_pow_mod_step(10int, 174068538010864nat, m, 87034269005432nat, 16316530114412501326953223269908718208172985761479039451535312862645173int, 1297948901470353026457042191299051102936066127675682274200238395929728int, 53961232622732438089861876916797103086911525535004653959420943268254841int, 0int, 53961232622732438089861876916797103086911525535004653959420943268254841int);
}

proof fn lemma_certificate_255515944373312847190720520512484175977_4()
    requires
        pow_mod(10int, 174068538010864nat, 205115282021455665897114700593932402728804164701536103180137503955397371int) == 53961232622732438089861876916797103086911525535004653959420943268254841int,
    ensures
        pow_mod(10int, 712984731692499164nat, 205115282021455665897114700593932402728804164701536103180137503955397371int) == 75945886649738417066839667121914008961814825896318246356396064712431362int,
{
    let m: int = 205115282021455665897114700593932402728804164701536103180137503955397371int;
    lemma_pow_mod_step(10int, 348137076021728nat, m, 174068538010864nat, 53961232622732438089861876916797103086911525535004653959420943268254841int, 14195990652027863465934065864727044381530531181135259489041542178613911int, 100394952061105459682413388942672434642180842584211604469193209726507300int, 0int, 100394952061105459682413388942672434642180842584211604469193209726507300int);
    lemma_pow_mod_step(10int, 696274152043456nat, m, 348137076021728nat, 100394952061105459682413388942672434642180842584211604469193209726507300int, 49138934456855120268391465684810071294373132204740768660857461047360761int, 128272364143708093689978155712465284647937078460732540308561096405330669int, 0int, 128272364143708093689978155712465284647937078460732540308561096405330669int);
    lemma_pow_mod_step(10int, 1392548304086912nat, m, 696274152043456nat, 128272364143708093689978155712465284647937078460732540308561096405330669int, 80217325792892085370673084705617961685616998485639885358749735546704945int, 72916830596828074600361716932077906075596345657484294244079912066287966int, 0int, 72916830596828074600361716932077906075596345657484294244079912066287966int);
    lemma_pow_mod_step(10int, 2785096608173824nat, m, 1392548304086912nat, 72916830596828074600361716932077906075596345657484294244079912066287966int, 25921345946960515246670036237010622922485851368905101121499651302216228int, 180739182967107990777784434854200105054987221111297541710719283731680568int, 0int, 180739182967107990777784434854200105054987221111297541710719283731680568int);
    lemma_pow_mod_step(10int, 5570193216347649nat, m, 2785096608173824nat, 180739182967107990777784434854200105054987221111297541710719283731680568int, 159259963166472943212938341708601264449933734334277058296776690225645312int, 162721923641801682809372415330202975740635564850934066200343077725527872int, 7int, 191412262267827166813921249144502938304726495598587939742468249567497123int);
    lemma_pow_mod_step(10int, 11140386432695299nat, m, 5570193216347649nat, 191412262267827166813921249144502938304726495598587939742468249567497123int, 178624692345716785751706150926508540927587397913292945075642236179814864int, 151240205794932497315501868179871025346478432928903096588747442280954585int, 7int, 76595083799135311875215777641183434363155176378278243626511895121764253int);
    lemma_pow_mod_step(10int, 22280772865390598nat, m, 11140386432695299nat, 76595083799135311875215777641183434363155176378278243626511895121764253int, 28602485413948217424260731239868275291026424277779747393169669259502923int, 105785344601480605226960061480667009491907079928409298857515524907632576int, 0int, 105785344601480605226960061480667009491907079928409298857515524907632576int);
    lemma_pow_mod_step(10int, 44561545730781197nat, m, 22280772865390598nat, 105785344601480605226960061480667009491907079928409298857515524907632576int, 54557315389515630030249493010034060480214138637281499920443483515722501int, 186876552083571648442132182359653166943826710944769991963958423395450905int, 9int, 22727982642615491347289518251140044879029627133874991018346698355932711int);
    lemma_pow_mod_step(10int, 89123091461562395nat, m, 44561545730781197nat, 22727982642615491347289518251140044879029627133874991018346698355932711int, 2518394484858506168326907810360953038528323526530818609380338977252039int, 70073915613623720338251212373760200055019111724625161135690606894820052int, 3int, 85393310071870205691168021955804792363778623141643301816493557082008407int);
    lemma_pow_mod_step(10int, 178246182923124791nat, m, 89123091461562395nat, 85393310071870205691168021955804792363778623141643301816493557082008407int, 35550824556640313615493853673865805187399227574776777195370262848413556int, 177530849864357306500820532245613252726741356748005278891248825895516373int, 8int, 134386242471927737831287717704673305436980249867763963471388227311984762int);
    lemma_pow_mod_step(10int, 356492365846249582nat, m, 178246182923124791nat, 134386242471927737831287717704673305436980249867763963471388227311984762int, 88046399993905185701467192803572396570863042074834366755446397319352924int, 204064815649457420873140903536257541712868308079126439482288436709433840int, 0int, 204064815649457420873140903536257541712868308079126439482288436709433840int);
    lemma_pow_mod_step(10int, 712984731692499164nat, m, 356492365846249582nat, 204064815649457420873140903536257541712868308079126439482288436709433840int, 203019729079431140707756719033552699088181775904240491534174345281748378int, 75945886649738417066839667121914008961814825896318246356396064712431362int, 0int, 75945886649738417066839667121914008961814825896318246356396064712431362int);
}

proof fn lemma_certificate_255515944373312847190720520512484175977_5()
    requires
        pow_mod(10int, 712984731692499164nat, 205115282021455665897114700593932402728804164701536103180137503955397371int) == 75945886649738417066839667121914008961814825896318246356396064712431362int,
    ensures
        pow_mod(10int, 2920385461012476577287nat, 205115282021455665897114700593932402728804164701536103180137503955397371int) == 167863996488342670087390283103545708089116006893147805510404450157880935int,
{
    let m: int = 205115282021455665897114700593932402728804164701536103180137503955397371int;
    lemma_pow_mod_step(10int, 1425969463384998328nat, m, 712984731692499164nat, 75945886649738417066839667121914008961814825896318246356396064712431362int, 28119687827119528323430773193551825568059071959329804757189271746928916int, 76500269897190011415487804319434380236163551462473172658319569890895208int, 0int, 76500269897190011415487804319434380236163551462473172658319569890895208int);
    lemma_pow_mod_step(10int, 2851938926769996657nat, m, 1425969463384998328nat, 76500269897190011415487804319434380236163551462473172658319569890895208int, 28531717562276755372418532024177526267166418032409482178933795320489551int, 3089206231192861846093750647975112215634488806722287416166003178992843int, 0int, 30892062311928618460937506479751122156344888067222874161660031789928430int);
    lemma_pow_mod_step(10int, 5703877853539993315nat, m, 2851938926769996657nat, 30892062311928618460937506479751122156344888067222874161660031789928430int, 4652600744708314284976515954864800558303506981938494936809035562690612int, 44221548907720044840529796463207663253300495378545824074287632131083848int, 2int, 31984925034289116611068563444211827075396624382386034382601313400043738int);
    lemma_pow_mod_step(10int, 11407755707079986630nat, m, 5703877853539993315nat, 31984925034289116611068563444211827075396624382386034382601313400043738int, 4987611938841700307995870635215376822495682148165818692098721105307186int, 159426420487208428801286007243327324066154144831915300842021722661204638int, 0int, 159426420487208428801286007243327324066154144831915300842021722661204638int);
    lemma_pow_mod_step(10int, 22815511414159973260nat, m, 11407755707079986630nat, 159426420487208428801286007243327324066154144831915300842021722661204638int, 123914626442633955513275521271998554654037986700643592111307030950169172int, 117691800149028961512105424424415680417742560351202435388220070378664232int, 0int, 117691800149028961512105424424415680417742560351202435388220070378664232int);
    lemma_pow_mod_step(10int, 45631022828319946520nat, m, 22815511414159973260nat, 117691800149028961512105424424415680417742560351202435388220070378664232int, 67529633510535213229182042594723928919784440083534209824788269176301425int, 146198036565561267470653985397624802796036911280302185972938588647596149int, 0int, 146198036565561267470653985397624802796036911280302185972938588647596149int);
    lemma_pow_mod_step(10int, 91262045656639893040nat, m, 45631022828319946520nat, 146198036565561267470653985397624802796036911280302185972938588647596149int, 104204161118474925420588797236750043758794996063319007482801450869150599int, 34685419509612377370415668136018702207971158173827940513789551911954972int, 0int, 34685419509612377370415668136018702207971158173827940513789551911954972int);
    lemma_pow_mod_step(10int, 182524091313279786080nat, m, 91262045656639893040nat, 34685419509612377370415668136018702207971158173827940513789551911954972int, 5865376361532893377924237116606902266743549118961246547611682424197762int, 186461982919306311900201456039631798793585904822126347682023280356637082int, 0int, 186461982919306311900201456039631798793585904822126347682023280356637082int);
    lemma_pow_mod_step(10int, 365048182626559572160nat, m, 182524091313279786080nat, 186461982919306311900201456039631798793585904822126347682023280356637082int, 169505025327965741810738394179664786281218794839362615235079165398955775int, 149511177737542814422662297701767982252422510370810994282761589677207199int, 0int, 149511177737542814422662297701767982252422510370810994282761589677207199int);
    lemma_pow_mod_step(10int, 730096365253119144321nat, m, 365048182626559572160nat, 149511177737542814422662297701767982252422510370810994282761589677207199int, 108980628104193943689469907021702819016068031774844301239019017269734597int, 105109448483784479976119674716649278929135159504842730306768689535881114int, 5int, 25518074730566470275623244196830775647330771540746787166999375581824285int);
    lemma_pow_mod_step(10int, 1460192730506238288643nat, m, 730096365253119144321nat, 25518074730566470275623244196830775647330771540746787166999375581824285int, 3174664176834276544241015028393350168302917942350348586308222081880821int, 59094090254740935233925471762643978920804479080091321636920202497039634int, 2int, 180710338504498020545025316438574983750436461397841010008927017059601598int);
    lemma_pow_mod_step(10int, 2920385461012476577287nat, m, 1460192730506238288643nat, 180710338504498020545025316438574983750436461397841010008927017059601598int, 159209134105348239686158098275719105592116799425154557119075196707784075int, 119344040659562099957296378607320772173313683040082832141109196993486779int, 5int, 167863996488342670087390283103545708089116006893147805510404450157880935int);
}

proof fn lemma_certificate_255515944373312847190720520512484175977_6()
    requires
        pow_mod(10int, 2920385461012476577287nat, 205115282021455665897114700593932402728804164701536103180137503955397371int) == 167863996488342670087390283103545708089116006893147805510404450157880935int,
    ensures
        pow_mod(10int, 11961898848307104060571393nat, 205115282021455665897114700593932402728804164701536103180137503955397371int) == 199263984682917049471826909772444248792820778585715393665243537392466671int,
{
    let m: int = 205115282021455665897114700593932402728804164701536103180137503955397371int;
    lemma_pow_mod_step(10int, 5840770922024953154575nat, m, 2920385461012476577287nat, 167863996488342670087390283103545708089116006893147805510404450157880935int, 137377971252725988607785211234495210093017762464716000027682973859176818int, 86936755994263580152705563722898492867975627671813233536723179495128747int, 4int, 48906431856813137938596834853255317764539617911987922646681779129697986int);
    lemma_pow_mod_step(10int, 11681541844049906309151nat, m, 5840770922024953154575nat, 48906431856813137938596834853255317764539617911987922646681779129697986int, 11660950141759371711851234176681337933743339135588180919662010199439107int, 115600023058969525689095309088315595285347686316616713166566626070068499int, 5int, 130423820482416927405379587913493939209456039658486615764978740923698135int);
    lemma_pow_mod_step(10int, 23363083688099812618303nat, m, 11681541844049906309151nat, 130423820482416927405379587913493939209456039658486615764978740923698135int, 82930792779498418162772047360796697756979493939983005088508082491686560int, 186445367834018955960319076385405417682076426439646162256649895822444465int, 9int, 18416140147088566529158458508662552261526782082636693945261422625868311int);
    lemma_pow_mod_step(10int, 46726167376199625236607nat, m, 23363083688099812618303nat, 18416140147088566529158458508662552261526782082636693945261422625868311int, 1653480981888666653911250341329088536276896196162366121050548579783384int, 140839125256509025119095159307940924365928165819105380727024645890909257int, 6int, 177699560436356255808263389515814827286456669981837188189421435176708344int);
    lemma_pow_mod_step(10int, 93452334752399250473214nat, m, 46726167376199625236607nat, 177699560436356255808263389515814827286456669981837188189421435176708344int, 153948225934580378121473144162552551311902418168289723641410369231757753int, 203467758140554198518973016897311982566847660517903822802661712914154973int, 0int, 203467758140554198518973016897311982566847660517903822802661712914154973int);
    lemma_pow_mod_step(10int, 186904669504798500946428nat, m, 93452334752399250473214nat, 203467758140554198518973016897311982566847660517903822802661712914154973int, 201833467476170731515827853819134760443727490183200444861806535997729959int, 48898972969345483282190535536422933353828431078378059873266424864092940int, 0int, 48898972969345483282190535536422933353828431078378059873266424864092940int);
    lemma_pow_mod_step(10int, 373809339009597001892856nat, m, 186904669504798500946428nat, 48898972969345483282190535536422933353828431078378059873266424864092940int, 11657393510087966482827113454226425948145385437583953860529752184394188int, 131923672312731217978635362936080939631835513669311045683265450514963852int, 0int, 131923672312731217978635362936080939631835513669311045683265450514963852int);
    lemma_pow_mod_step(10int, 747618678019194003785712nat, m, 373809339009597001892856nat, 131923672312731217978635362936080939631835513669311045683265450514963852int, 84849140175993276522786050556670234925313148830594967005218254201087757int, 113102717358043236212229891691029635616852124174895753631434849488591057int, 0int, 113102717358043236212229891691029635616852124174895753631434849488591057int);
    lemma_pow_mod_step(10int, 1495237356038388007571424nat, m, 747618678019194003785712nat, 113102717358043236212229891691029635616852124174895753631434849488591057int, 62366024353247897855276975080940469409782216684875398555552157570205802int, 24541279207031330358994359868760712763104781858260728673467229820630707int, 0int, 24541279207031330358994359868760712763104781858260728673467229820630707int);
    lemma_pow_mod_step(10int, 2990474712076776015142848nat, m, 1495237356038388007571424nat, 24541279207031330358994359868760712763104781858260728673467229820630707int, 2936272613049224868852244352679671047291468865967433127402281734731220int, 121604353652749118482523074083856535341319218939252511848929376291697229int, 0int, 121604353652749118482523074083856535341319218939252511848929376291697229int);
    lemma_pow_mod_step(10int, 5980949424153552030285696nat, m, 2990474712076776015142848nat, 121604353652749118482523074083856535341319218939252511848929376291697229int, 72094183727159096588821710104082551096755809609527719170871451007017110int, 90518568330373466754433680100562697286746329541403995532149701960260631int, 0int, 90518568330373466754433680100562697286746329541403995532149701960260631int);
    lemma_pow_mod_step(10int, 11961898848307104060571393nat, m, 5980949424153552030285696nat, 90518568330373466754433680100562697286746329541403995532149701960260631int, 39946371288529415105168682122979972956133748728473952030908120300119660int, 204530152287601804254585921511783587335205826089954032228648107299104301int, 9int, 199263984682917049471826909772444248792820778585715393665243537392466671int);
}

proof fn lemma_certificate_255515944373312847190720520512484175977_7()
    requires
        pow_mod(10int, 11961898848307104060571393nat, 205115282021455665897114700593932402728804164701536103180137503955397371int) == 199263984682917049471826909772444248792820778585715393665243537392466671int,
    ensures
        pow_mod(10int, 48995937682665898232100429780nat, 205115282021455665897114700593932402728804164701536103180137503955397371int) == 158128351054032004896218075832699782984898253546572115600301336146677513int,
{
    let m: int = 205115282021455665897114700593932402728804164701536103180137503955397371int;
    lemma_pow_mod_step(10int, 23923797696614208121142787nat, m, 11961898848307104060571393nat, 199263984682917049471826909772444248792820778585715393665243537392466671int, 193579606552964791488539698186944592645616472647060359367061348274528129int, 79947506710537350744044576547471955765479299204641829096819294133673382int, 3int, 184129221041006509749101663692922349468380497941809981427780429470541707int);
    lemma_pow_mod_step(10int, 47847595393228416242285575nat, m, 23923797696614208121142787nat, 184129221041006509749101663692922349468380497941809981427780429470541707int, 165290317264714681622228983404015267572648774071605380953153694037706686int, 89195336974657874981574596893538574031061103411996600082105703352951343int, 4int, 71492241660756086227287166559656129395394375313821588100507017707923946int);
    lemma_pow_mod_step(10int, 95695190786456832484571151nat, m, 47847595393228416242285575nat, 71492241660756086227287166559656129395394375313821588100507017707923946int, 24918380372776455096988254509114114926688191038325225344489883155362862int, 16921725810093959334035889470224057408472409786549616929470028414375114int, 0int, 169217258100939593340358894702240574084724097865496169294700284143751140int);
    lemma_pow_mod_step(10int, 191390381572913664969142303nat, m, 95695190786456832484571151nat, 169217258100939593340358894702240574084724097865496169294700284143751140int, 139601887080284710233188111848252460135160185717414027005362349192509963int, 150206641337449596090286075502466022263011311648279788228961529709792327int, 7int, 66259439224306299623057850867133403528483963572045160028652769410141673int);
    lemma_pow_mod_step(10int, 382780763145827329938284607nat, m, 191390381572913664969142303nat, 66259439224306299623057850867133403528483963572045160028652769410141673int, 21404125733841228047199491334018080793611899669105245964598701638961712int, 82945867068473177370123142908323340361868138272917245467538719116779777int, 4int, 8997542598909110112772626707503792703464723923028041954837175346208286int);
    lemma_pow_mod_step(10int, 765561526291654659876569215nat, m, 382780763145827329938284607nat, 8997542598909110112772626707503792703464723923028041954837175346208286int, 394684257659143554060149202600790066302324458499214147645763512965474int, 152483459821434969851705357052950401760234395858732461740377917021688942int, 7int, 89027624064160037237250666371977198500714805676571895142816642529107823int);
    lemma_pow_mod_step(10int, 1531123052583309319753138430nat, m, 765561526291654659876569215nat, 89027624064160037237250666371977198500714805676571895142816642529107823int, 38641283908238162716289954514225944774974990695965227960458680030093546int, 114682037842981054902161602092754411645689026873729970265798607627331763int, 0int, 114682037842981054902161602092754411645689026873729970265798607627331763int);
    lemma_pow_mod_step(10int, 3062246105166618639506276861nat, m, 1531123052583309319753138430nat, 114682037842981054902161602092754411645689026873729970265798607627331763int, 64119892356159029535604317033142642724366828440557100514632343118979752int, 157533598122459862105093807048990890361777863335161298777770971605656177int, 7int, 139529007074408959771135166332382084516149480440860265516747188368780173int);
    lemma_pow_mod_step(10int, 6124492210333237279012553722nat, m, 3062246105166618639506276861nat, 139529007074408959771135166332382084516149480440860265516747188368780173int, 94914155704566269856829439471609137150088018797084563412826587904875634int, 113584653784932844571563979551688349962800149235585358914285383192351715int, 0int, 113584653784932844571563979551688349962800149235585358914285383192351715int);
    lemma_pow_mod_step(10int, 12248984420666474558025107445nat, m, 6124492210333237279012553722nat, 113584653784932844571563979551688349962800149235585358914285383192351715int, 62898646304147766198937065194344499046222698153660486693900951100263214int, 6873390060075996983014725824935236546370416101288341447657198199830831int, 0int, 68733900600759969830147258249352365463704161012883414476571981998308310int);
    lemma_pow_mod_step(10int, 24497968841332949116050214890nat, m, 12248984420666474558025107445nat, 68733900600759969830147258249352365463704161012883414476571981998308310int, 23032652882982023916422671113879364034225153681647708120588465316761491int, 127398634951579144965585700329936998555893319244577917115688118079615939int, 0int, 127398634951579144965585700329936998555893319244577917115688118079615939int);
    lemma_pow_mod_step(10int, 48995937682665898232100429780nat, m, 24497968841332949116050214890nat, 127398634951579144965585700329936998555893319244577917115688118079615939int, 79128244505097256241412040168324042215640168668618770986688195150712448int, 158128351054032004896218075832699782984898253546572115600301336146677513int, 0int, 158128351054032004896218075832699782984898253546572115600301336146677513int);
}

proof fn lemma_certificate_255515944373312847190720520512484175977_8()
    requires
        pow_mod(10int, 48995937682665898232100429780nat, 205115282021455665897114700593932402728804164701536103180137503955397371int) == 158128351054032004896218075832699782984898253546572115600301336146677513int,
    ensures
        pow_mod(10int, 200687360748199519158683360382202nat, 205115282021455665897114700593932402728804164701536103180137503955397371int) == 204118197507184595507614027253592691908981910872095590286471756400681150int,
{
    let m: int = 205115282021455665897114700593932402728804164701536103180137503955397371int;
    lemma_pow_mod_step(10int, 97991875365331796464200859561nat, m, 48995937682665898232100429780nat, 158128351054032004896218075832699782984898253546572115600301336146677513int, 121904985141241850724033431159618039701213729295703791138417566461848936int, 42912047441626658609182023474753198946874573007898639859513975566317913int, 2int, 18889910373355254297590833559667184011137400675914192234864747752384388int);
    lemma_pow_mod_step(10int, 195983750730663592928401719123nat, m, 97991875365331796464200859561nat, 18889910373355254297590833559667184011137400675914192234864747752384388int, 1739649578504195034463164069075298493036267061155264064311236940417546int, 173255453040919003663247505482161257346173263552854994222361294215462978int, 8int, 91632274237544709455557450070153351631299317916261116782512910511450812int);
    lemma_pow_mod_step(10int, 391967501461327185856803438246nat, m, 195983750730663592928401719123nat, 91632274237544709455557450070153351631299317916261116782512910511450812int, 40935388134884576047340804269290229970105140579308118924179872897421767int, 168362936202208957705095558752401661469961791067284478559009063225484787int, 0int, 168362936202208957705095558752401661469961791067284478559009063225484787int);
    lemma_pow_mod_step(10int, 783935002922654371713606876492nat, m, 391967501461327185856803438246nat, 168362936202208957705095558752401661469961791067284478559009063225484787int, 138195838005205287052850663315318842589635573585711897276409606570579998int, 96393895849604330734086458648214374861398971747898153515951101134050111int, 0int, 96393895849604330734086458648214374861398971747898153515951101134050111int);
    lemma_pow_mod_step(10int, 1567870005845308743427213752985nat, m, 783935002922654371713606876492nat, 96393895849604330734086458648214374861398971747898153515951101134050111int, 45300296815975023182121729346271064106207689265798611461516327396753964int, 122842540386026649887640004497945033661251015443001563488467951119683677int, 5int, 202848993752988169390826542009788322968489330922335118983991991419849915int);
    lemma_pow_mod_step(10int, 3135740011690617486854427505971nat, m, 1567870005845308743427213752985nat, 202848993752988169390826542009788322968489330922335118983991991419849915int, 200607745366801390301639290035227699937535720649062752704282118808546346int, 127099635653368669996758082062896937678142460460887140160126611825450859int, 6int, 40304664404952704584892617065374960408599616399654782520441094522124364int);
    lemma_pow_mod_step(10int, 6271480023381234973708855011943nat, m, 3135740011690617486854427505971nat, 40304664404952704584892617065374960408599616399654782520441094522124364int, 7919770564076925292932428227072922875791824344645037694602755387391611int, 18975569305935403266728529682511366513493940620148253805884918785549815int, 0int, 189755693059354032667285296825113665134939406201482538058849187855498150int);
    lemma_pow_mod_step(10int, 12542960046762469947417710023887nat, m, 6271480023381234973708855011943nat, 189755693059354032667285296825113665134939406201482538058849187855498150int, 175546271801773005136256458830376134153535235220898650849816657306585076int, 60641345793291507627677979773269773343917505554485591676460634055187304int, 2int, 196182893890003744482550396544832927981566726141783710404331332641078298int);
    lemma_pow_mod_step(10int, 25085920093524939894835420047775nat, m, 12542960046762469947417710023887nat, 196182893890003744482550396544832927981566726141783710404331332641078298int, 187639494608844104719193476009242475277774228044354689057420278394218521int, 161620870506768978635388624193632983033848224695916629675029716603668513int, 7int, 180401730917500125074083337778803011236853094048413574489334638348903533int);
    lemma_pow_mod_step(10int, 50171840187049879789670840095550nat, m, 25085920093524939894835420047775nat, 180401730917500125074083337778803011236853094048413574489334638348903533int, 158665820495158618581782739229254777556649300989310812600446090793841514int, 76620902956743746861864219014714725522265757242332387475322755873622395int, 0int, 76620902956743746861864219014714725522265757242332387475322755873622395int);
    lemma_pow_mod_step(10int, 100343680374099759579341680191101nat, m, 50171840187049879789670840095550nat, 76620902956743746861864219014714725522265757242332387475322755873622395int, 28621771679072861473385108026427818273743739504741349611336083131714883int, 167858981024615591775706266388602604187079186195578109252377544105763432int, 8int, 37667554074510590580145059134566820040358544343492267082675409414455352int);
    lemma_pow_mod_step(10int, 200687360748199519158683360382202nat, m, 100343680374099759579341680191101nat, 37667554074510590580145059134566820040358544343492267082675409414455352int, 6917303362153991257479657438110279075045699454437857062606374515526374int, 204118197507184595507614027253592691908981910872095590286471756400681150int, 0int, 204118197507184595507614027253592691908981910872095590286471756400681150int);
}

proof fn lemma_certificate_255515944373312847190720520512484175977_9()
    requires
        pow_mod(10int, 200687360748199519158683360382202nat, 205115282021455665897114700593932402728804164701536103180137503955397371int) == 204118197507184595507614027253592691908981910872095590286471756400681150int,
    ensures
        pow_mod(10int, 802749442992798076634733441528810nat, 205115282021455665897114700593932402728804164701536103180137503955397371int) == 178266113035923784558209165568976194333480695760850831337861960477148809int,
{
    let m: int = 205115282021455665897114700593932402728804164701536103180137503955397371int;
    lemma_pow_mod_step(10int, 401374721496399038317366720764405nat, m, 200687360748199519158683360382202nat, 204118197507184595507614027253592691908981910872095590286471756400681150int, 203125959913722161806908310383171094540909859393666074842912072270125122int, 42433250640606728355615409786574794553888205723165322628054274565468238int, 2int, 14101942363155951761924696677883140081273727828581019920267737743887638int);
    lemma_pow_mod_step(10int, 802749442992798076634733441528810nat, m, 401374721496399038317366720764405nat, 14101942363155951761924696677883140081273727828581019920267737743887638int, 969526875101244892005263158244485858965016932243689061869747610154785int, 178266113035923784558209165568976194333480695760850831337861960477148809int, 0int, 178266113035923784558209165568976194333480695760850831337861960477148809int);
}

proof fn lemma_certificate_255515944373312847190720520512484175977()
    ensures
        pow_mod(10int, 802749442992798076634733441528810nat, 205115282021455665897114700593932402728804164701536103180137503955397371int) == 178266113035923784558209165568976194333480695760850831337861960477148809int,
{
    lemma_pow_mod_zero(10int, 205115282021455665897114700593932402728804164701536103180137503955397371int);
    lemma_certificate_255515944373312847190720520512484175977_0();
    lemma_certificate_255515944373312847190720520512484175977_1();
    lemma_certificate_255515944373312847190720520512484175977_2();
    lemma_certificate_255515944373312847190720520512484175977_3();
    lemma_certificate_255515944373312847190720520512484175977_4();
    lemma_certificate_255515944373312847190720520512484175977_5();
    lemma_certificate_255515944373312847190720520512484175977_6();
    lemma_certificate_255515944373312847190720520512484175977_7();
    lemma_certificate_255515944373312847190720520512484175977_8();
    lemma_certificate_255515944373312847190720520512484175977_9();
}

/// 205115282021455665897114700593932402728804164701536103180137503955397371 is prime, by a Lucas certificate with witness 10.
pub proof fn lemma_prime_205115282021455665897114700593932402728804164701536103180137503955397371()
    ensures
        is_prime(205115282021455665897114700593932402728804164701536103180137503955397371int),
        forall|x: int| 1 <= x < 205115282021455665897114700593932402728804164701536103180137503955397371int ==> #[trigger] power_of(10, 205115282021455665897114700593932402728804164701536103180137503955397371int, x),
{
    lemma_small_primes();
    lemma_prime_7723();
    lemma_prime_132896956044521568488119();
    lemma_prime_255515944373312847190720520512484175977();
    let fs: Seq<int> = Seq::empty().push(2int).push(3int).push(5int).push(29int).push(29int).push(31int).push(7723int).push(132896956044521568488119int).push(255515944373312847190720520512484175977int);
    assert(product(Seq::<int>::empty()) == 1);
    lemma_product_push(Seq::<int>::empty(), 2int);
    lemma_product_push(Seq::<int>::empty().push(2int), 3int);
    lemma_product_push(Seq::<int>::empty().push(2int).push(3int), 5int);
    lemma_product_push(Seq::<int>::empty().push(2int).push(3int).push(5int), 29int);
    lemma_product_push(Seq::<int>::empty().push(2int).push(3int).push(5int).push(29int), 29int);
    lemma_product_push(Seq::<int>::empty().push(2int).push(3int).push(5int).push(29int).push(29int), 31int);
    lemma_product_push(Seq::<int>::empty().push(2int).push(3int).push(5int).push(29int).push(29int).push(31int), 7723int);
    lemma_product_push(Seq::<int>::empty().push(2int).push(3int).push(5int).push(29int).push(29int).push(31int).push(7723int), 132896956044521568488119int);
    lemma_product_push(Seq::<int>::empty().push(2int).push(3int).push(5int).push(29int).push(29int).push(31int).push(7723int).push(132896956044521568488119int), 255515944373312847190720520512484175977int);
    lemma_certificate_full();
    lemma_certificate_2();
    lemma_certificate_3();
    lemma_certificate_5();
    lemma_certificate_29();
    lemma_certificate_31();
    lemma_certificate_7723();
    lemma_certificate_132896956044521568488119();
    lemma_certificate_255515944373312847190720520512484175977();
    assert forall|i: int| 0 <= i < fs.len() implies is_prime(#[trigger] fs[i])
        && pow_mod(10, ((205115282021455665897114700593932402728804164701536103180137503955397371int - 1) / fs[i]) as nat, 205115282021455665897114700593932402728804164701536103180137503955397371int) != 1 by {
        if i == 0 { assert(fs[0] == 2int); } else if i == 1 { assert(fs[1] == 3int); } else if i == 2 { assert(fs[2] == 5int); } else if i == 3 { assert(fs[3] == 29int); } else if i == 4 { assert(fs[4] == 29int); } else if i == 5 { assert(fs[5] == 31int); } else if i == 6 { assert(fs[6] == 7723int); } else if i == 7 { assert(fs[7] == 132896956044521568488119int); } else if i == 8 { assert(fs[8] == 255515944373312847190720520512484175977int); }
    }
    lemma_lucas(205115282021455665897114700593932402728804164701536103180137503955397371int, 10, fs);
}

} // verus!
