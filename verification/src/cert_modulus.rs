//! A Lucas certificate that the field modulus is prime.
use vstd::prelude::*;
use crate::prime::{is_prime, pow_mod, power_of, product, lucas_certificate, lemma_lucas, lemma_pow_mod_step, lemma_pow_mod_zero, lemma_product_push};
use crate::cert_13441::lemma_prime_13441;
use crate::cert_205115282021455665897114700593932402728804164701536103180137503955397371::lemma_prime_205115282021455665897114700593932402728804164701536103180137503955397371;
use crate::cert_small::lemma_small_primes;
verus! {

proof fn lemma_certificate_full_0()
    requires
        pow_mod(3int, 0nat, 115792089237316195423570985008687907853269984665640564039457584007908834671663int) == 1int,
    ensures
        pow_mod(3int, 4095nat, 115792089237316195423570985008687907853269984665640564039457584007908834671663int) == 71794643963318715608036218650039624470150179724278081743813392558837613215256int,
{
    let m: int = 115792089237316195423570985008687907853269984665640564039457584007908834671663int;
    lemma_pow_mod_step(3int, 1nat, m, 0nat, 1int, 0int, 1int, 0int, 3int);
    lemma_pow_mod_step(3int, 3nat, m, 1nat, 3int, 0int, 9int, 0int, 27int);
    lemma_pow_mod_step(3int, 7nat, m, 3nat, 27int, 0int, 729int, 0int, 2187int);
    lemma_pow_mod_step(3int, 15nat, m, 7nat, 2187int, 0int, 4782969int, 0int, 14348907int);
    lemma_pow_mod_step(3int, 31nat, m, 15nat, 14348907int, 0int, 205891132094649int, 0int, 617673396283947int);
    lemma_pow_mod_step(3int, 63nat, m, 31nat, 617673396283947int, 0int, 381520424476945831628649898809int, 0int, 1144561273430837494885949696427int);
    lemma_pow_mod_step(3int, 127nat, m, 63nat, 1144561273430837494885949696427int, 0int, 1310020508637620352391208095712502073964245732475093456566329int, 0int, 3930061525912861057173624287137506221892737197425280369698987int);
    lemma_pow_mod_step(3int, 255nat, m, 127nat, 3930061525912861057173624287137506221892737197425280369698987int, 133388936145760104777638573390988643975295825int, 48632648522209772227535623232429807907145229312589679828706064700863819119194int, 1int, 30105856329313121259035884688601515868165703272128475446660610094682622685919int);
    lemma_pow_mod_step(3int, 511nat, m, 255nat, 30105856329313121259035884688601515868165703272128475446660610094682622685919int, 7827500058865423784431055736725571792703013582103854479767514463954614458397int, 100535628316737939349233454235156387533659299282276579718710327493279652570350int, 2int, 70022706475581427200558392688093346894437928515548611077215814464021288367724int);
    lemma_pow_mod_step(3int, 1023nat, m, 511nat, 70022706475581427200558392688093346894437928515548611077215814464021288367724int, 42344683945691262618320013676395269283138749779292983567346718747241969089484int, 76652050534173032939976926645341549149912954782833867693741167829566038848284int, 1int, 114164062365202903396359794927336739596468879682861039041765919480789281873189int);
    lemma_pow_mod_step(3int, 2047nat, m, 1023nat, 114164062365202903396359794927336739596468879682861039041765919480789281873189int, 112558925411682330090367978592981142608936078028717296281102128158231794507543int, 59658399785745313184189224723958963060551671566665259697397982073607495175712int, 1int, 63183110119919744128996689163188981328385030034355215052736362212913650855473int);
    lemma_pow_mod_step(3int, 4095nat, m, 2047nat, 63183110119919744128996689163188981328385030034355215052736362212913650855473int, 34476495162325589616635983996507021265700851669899055016530280992218106476279int, 23931547987772905202678739550013208156716726574759360581271130852945871071752int, 0int, 71794643963318715608036218650039624470150179724278081743813392558837613215256int);
}

proof fn lemma_certificate_full_1()
    requires
        pow_mod(3int, 4095nat, 115792089237316195423570985008687907853269984665640564039457584007908834671663int) == 71794643963318715608036218650039624470150179724278081743813392558837613215256int,
    ensures
        pow_mod(3int, 16777215nat, 115792089237316195423570985008687907853269984665640564039457584007908834671663int) == 86834616403750454157707013149197216848520551420916026383321092385081804250890int,
{
    let m: int = 115792089237316195423570985008687907853269984665640564039457584007908834671663int;
    lemma_pow_mod_step(3int, 8191nat, m, 4095nat, 71794643963318715608036218650039624470150179724278081743813392558837613215256int, 44514879520444567202232473549572599027653725417818497880462169761355019667409int, 19791980669162483800481038152285247170205410879138586979486934797928214214369int, 0int, 59375942007487451401443114456855741510616232637415760938460804393784642643107int);
    lemma_pow_mod_step(3int, 16383nat, m, 8191nat, 59375942007487451401443114456855741510616232637415760938460804393784642643107int, 30446833738797010690000992015999181851684192788268774421909400340637870724929int, 86851571143676277961433159851353748533052845762100569496491408706651470626522int, 2int, 28970534956396443037157509536685429892618567955020580410559058104136742536240int);
    lemma_pow_mod_step(3int, 32767nat, m, 16383nat, 28970534956396443037157509536685429892618567955020580410559058104136742536240int, 7248266277842670920235624063782673617252984437239717685489195864607180534870int, 19985685592159712473153202903383702066649925103808665719287751166606540948790int, 0int, 59957056776479137419459608710151106199949775311425997157863253499819622846370int);
    lemma_pow_mod_step(3int, 65535nat, m, 32767nat, 59957056776479137419459608710151106199949775311425997157863253499819622846370int, 31045718934479979468891113670100180502855734806888103666267304818852009433119int, 102469889729389362531460773485342167410455133529291993947571293982175499170003int, 2int, 75825490713535696747240350438650686524825431256594853763798713930708828166683int);
    lemma_pow_mod_step(3int, 131071nat, m, 65535nat, 75825490713535696747240350438650686524825431256594853763798713930708828166683int, 49653694650632499450141006669276592821070265078344534530181379333183052719844int, 31344596135185847498747667066577448702759243121837050108245824039741966641917int, 0int, 94033788405557542496243001199732346108277729365511150324737472119225899925751int);
    lemma_pow_mod_step(3int, 262143nat, m, 131071nat, 94033788405557542496243001199732346108277729365511150324737472119225899925751int, 76364054057084515802414817287977828331060162732928711068159544216741379659288int, 6013235248750741379483204310314786507238003831203628190915951741671024558057int, 0int, 18039705746252224138449612930944359521714011493610884572747855225013073674171int);
    lemma_pow_mod_step(3int, 524287nat, m, 262143nat, 18039705746252224138449612930944359521714011493610884572747855225013073674171int, 2810476825790696697532073514608142463076069431403681828142639417109182455384int, 106688359649307371013707629297449618575359452391180947518295722757051685953649int, 2int, 88480900473289722193980917874973040019538387842261714475972000255337388517621int);
    lemma_pow_mod_step(3int, 1048575nat, m, 524287nat, 88480900473289722193980917874973040019538387842261714475972000255337388517621int, 67611438744480307069994100323437035928028916028804534170923318154932715240078int, 55132174819467071152129618117507866148401265662430216511579546913130478989927int, 1int, 49604435221085018032817869343835690591933812321650085495281056731482602298118int);
    lemma_pow_mod_step(3int, 2097151nat, m, 1048575nat, 49604435221085018032817869343835690591933812321650085495281056731482602298118int, 21250156291418264494808670535556113132121388835713109800952788740433406413448int, 20175744568412475537416602523453252934716426055687947344137266446123438617900int, 0int, 60527233705237426612249807570359758804149278167063842032411799338370315853700int);
    lemma_pow_mod_step(3int, 4194303nat, m, 2097151nat, 60527233705237426612249807570359758804149278167063842032411799338370315853700int, 31639000938138202597572671756945581680979984344015422226967980810572197891330int, 106778504205035081797508965023107734577897840563156067974063503668398299308210int, 2int, 88751334140472854545384925051947388027153552358187075843275342989377228581304int);
    lemma_pow_mod_step(3int, 8388607nat, m, 4194303nat, 88751334140472854545384925051947388027153552358187075843275342989377228581304int, 68025366530612823694504866420495517264837603202986776620881485665765701984783int, 4726836644495083502529471698338833190841957203870979327576269556663311036287int, 0int, 14180509933485250507588415095016499572525871611612937982728808669989933108861int);
    lemma_pow_mod_step(3int, 16777215nat, m, 8388607nat, 14180509933485250507588415095016499572525871611612937982728808669989933108861int, 1736620034219659033507685985410179594713837015785573593561672765815111283690int, 67542235213688883193759332719295041567263512028852196807592892130996879640851int, 1int, 86834616403750454157707013149197216848520551420916026383321092385081804250890int);
}

proof fn lemma_certificate_full_2()
    requires
        pow_mod(3int, 16777215nat, 115792089237316195423570985008687907853269984665640564039457584007908834671663int) == 86834616403750454157707013149197216848520551420916026383321092385081804250890int,
    ensures
        pow_mod(3int, 68719476735nat, 115792089237316195423570985008687907853269984665640564039457584007908834671663int) == 86162957004982090191697274328588457603873929354743341831586593709543990342057int,
{
    let m: int = 115792089237316195423570985008687907853269984665640564039457584007908834671663int;
    lemma_pow_mod_step(3int, 33554431nat, m, 16777215nat, 86834616403750454157707013149197216848520551420916026383321092385081804250890int, 65118875180952333868236910676654769786552180917929092484410725296056948356385int, 36940341760565670264029775485154745558888579534734892190191418043765081173845int, 0int, 110821025281697010792089326455464236676665738604204676570574254131295243521535int);
    lemma_pow_mod_step(3int, 67108863nat, m, 33554431nat, 110821025281697010792089326455464236676665738604204676570574254131295243521535int, 106063373805407135239582287101649650650104166796618658830647714098671785869786int, 13827189500739414953714847551564037513786440779656508487564551307585826682107int, 0int, 41481568502218244861144542654692112541359322338969525462693653922757480046321int);
    lemma_pow_mod_step(3int, 134217727nat, m, 67108863nat, 41481568502218244861144542654692112541359322338969525462693653922757480046321int, 14860432493601557707360040193886020134295087287813468407325506744758651963160int, 109179987943055513608774671651380418811610719432998462313392077261455333699961int, 2int, 95955785354534149979182044936765440728292188967714258861261063768548331756557int);
    lemma_pow_mod_step(3int, 268435455nat, m, 134217727nat, 95955785354534149979182044936765440728292188967714258861261063768548331756557int, 79517632021774894883497784894338647870277306664048147915202888283050305530567int, 35295965588086219758984220705768573774271130896501730296922891847192657271328int, 0int, 105887896764258659276952662117305721322813392689505190890768675541577971813984int);
    lemma_pow_mod_step(3int, 536870911nat, m, 268435455nat, 105887896764258659276952662117305721322813392689505190890768675541577971813984int, 96830852219781353084540531488881623339289240261938813838150828632591894944297int, 39643621652471597755524293669088461296066288224385503157359387993801828596345int, 1int, 3138775720098597843001895998577476034928880007515945432620579973496651117372int);
    lemma_pow_mod_step(3int, 1073741823nat, m, 536870911nat, 3138775720098597843001895998577476034928880007515945432620579973496651117372int, 85082781440180679734418394630248658495012074766089117617740936882969284416int, 47001557516258140860381776420528884732176730622649828112110183128126697482576int, 1int, 25212583311458227157574344252898746343260207202308920296872965376471257776065int);
    lemma_pow_mod_step(3int, 2147483647nat, m, 1073741823nat, 25212583311458227157574344252898746343260207202308920296872965376471257776065int, 5489790895251968505037203893643162202502398033436563083303418338543392118662int, 4070610888617576403718644553805236102472148104092822089902749905288982009319int, 0int, 12211832665852729211155933661415708307416444312278466269708249715866946027957int);
    lemma_pow_mod_step(3int, 4294967295nat, m, 2147483647nat, 12211832665852729211155933661415708307416444312278466269708249715866946027957int, 1287901945988277188742688806685965672586062702253686747987667259509935581192int, 24838778409961679863161855571355241647442228726669811247733465337507027431553int, 0int, 74516335229885039589485566714065724942326686180009433743200396012521082294659int);
    lemma_pow_mod_step(3int, 8589934591nat, m, 4294967295nat, 74516335229885039589485566714065724942326686180009433743200396012521082294659int, 47953916823388212641530320306023478084498763156259501294366189176213031963735int, 65907739664734391549600822720986960954560738411475900190416416975266051784976int, 1int, 81931129756886979225231483154272975010412230568787136531791666917889320683265int);
    lemma_pow_mod_step(3int, 17179869183nat, m, 8589934591nat, 81931129756886979225231483154272975010412230568787136531791666917889320683265int, 57972095222171300153888325272790331384744109951781541657134249865982947667696int, 90027692899338059074410883394468319367278137597667454248309231493520659361777int, 2int, 38498900223381786376090680166029142395294443461721234666012526464744308742005int);
    lemma_pow_mod_step(3int, 34359738367nat, m, 17179869183nat, 38498900223381786376090680166029142395294443461721234666012526464744308742005int, 12800229516303176735768289524152399513116298598612306243986020074916898711101int, 48851670856301231524524564527513207608906468361798376210260080244360423189062int, 1int, 30762923331587499150002708573851714973449420419754564591322656725172434895523int);
    lemma_pow_mod_step(3int, 68719476735nat, m, 34359738367nat, 30762923331587499150002708573851714973449420419754564591322656725172434895523int, 8172902468022391399290496343063645573106686221666957204531847457089710657103int, 67318348747432761871756086445758788485714638006794635290348059239150941671240int, 1int, 86162957004982090191697274328588457603873929354743341831586593709543990342057int);
}

proof fn lemma_certificate_full_3()
    requires
        pow_mod(3int, 68719476735nat, 115792089237316195423570985008687907853269984665640564039457584007908834671663int) == 86162957004982090191697274328588457603873929354743341831586593709543990342057int,
    ensures
        pow_mod(3int, 281474976710655nat, 115792089237316195423570985008687907853269984665640564039457584007908834671663int) == 9268648008456855242032908117486629602634535701776722809744351795517031050940int,
{
    let m: int = 115792089237316195423570985008687907853269984665640564039457584007908834671663int;
    lemma_pow_mod_step(3int, 137438953471nat, m, 68719476735nat, 86162957004982090191697274328588457603873929354743341831586593709543990342057int, 64115391722717528778777370679176251423899724560444374043818961801517673434388int, 61686600721631662462250106160561756130747484011772490792147787527616309644005int, 1int, 69267712927578791963179333472997360538972467369676908336985778574940094260352int);
    lemma_pow_mod_step(3int, 274877906943nat, m, 137438953471nat, 69267712927578791963179333472997360538972467369676908336985778574940094260352int, 41436475374271202679871551872261274290209322689174621793332324874569620851942int, 78012590824431215370072498150155920341856427707653480554232697439668053244358int, 2int, 2453593998661255263075524433091945319029313791679313583782924303186490389748int);
    lemma_pow_mod_step(3int, 549755813887nat, m, 274877906943nat, 2453593998661255263075524433091945319029313791679313583782924303186490389748int, 51990801357148576174251100805679406560495777122812535744011595867075586460int, 5935494275173543241065557434284768689903310843170591709521123123983675020524int, 0int, 17806482825520629723196672302854306069709932529511775128563369371951025061572int);
    lemma_pow_mod_step(3int, 1099511627775nat, m, 549755813887nat, 17806482825520629723196672302854306069709932529511775128563369371951025061572int, 2738277137099786125129617719452764444882644606554843370695853445070968424323int, 41145933332972687912114600509213772846866249253035772666720894247992223052035int, 1int, 7645710761601868312772816518953410687328763093466753960705098736067834484442int);
    lemma_pow_mod_step(3int, 2199023255551nat, m, 1099511627775nat, 7645710761601868312772816518953410687328763093466753960705098736067834484442int, 504843581587573423313351244990407925382323143032341517699064604302767606706int, 55826114571303002535818737901611201896249522555380324025070882078672113079286int, 1int, 51686254476592812183885228696145697835478583000500408035755062228107504566195int);
    lemma_pow_mod_step(3int, 4398046511103nat, m, 2199023255551nat, 51686254476592812183885228696145697835478583000500408035755062228107504566195int, 23071255725802890427774060716110991352828467164653296862272551289126398841606int, 104071323164005463737832327275850604197415042221528011277547728114202583167247int, 2int, 80629791017384000366355011810175996885705157333302905753728016326790080158415int);
    lemma_pow_mod_step(3int, 8796093022207nat, m, 4398046511103nat, 80629791017384000366355011810175996885705157333302905753728016326790080158415int, 56145141195119697105762101681150170231226352850445352666375354417204554765722int, 113634188093023435752824526845116626553268775896350716380421966434015738176539int, 2int, 109318385804437916411331610517974063953266358357771021062350731286229545186291int);
    lemma_pow_mod_step(3int, 17592186044415nat, m, 8796093022207nat, 109318385804437916411331610517974063953266358357771021062350731286229545186291int, 103206614144385393595669965402401125625864177403349753454269909267235255119150int, 200376946755221219908721355615909754264957476895304696121548960639700690231int, 0int, 601130840265663659726164066847729262794872430685914088364646881919102070693int);
    lemma_pow_mod_step(3int, 35184372088831nat, m, 17592186044415nat, 601130840265663659726164066847729262794872430685914088364646881919102070693int, 3120751076335604115648382610496589560792550310144479603547896624952095519int, 25015001365399555827581766845522034057813126155110564279773165201046190922152int, 0int, 75045004096198667482745300536566102173439378465331692839319495603138572766456int);
    lemma_pow_mod_step(3int, 70368744177663nat, m, 35184372088831nat, 75045004096198667482745300536566102173439378465331692839319495603138572766456int, 48636765057897718211806352129405410377693375011358515719602890947087649626943int, 23782194090870905631711289185852886040354224029469039416045942153143275383727int, 0int, 71346582272612716895133867557558658121062672088407118248137826459429826151181int);
    lemma_pow_mod_step(3int, 140737488355327nat, m, 70368744177663nat, 71346582272612716895133867557558658121062672088407118248137826459429826151181int, 43960989351785858658260023143834573900557568313952040665157488492390924393565int, 72190797107640352520226877157092686152327580539264834122177956375367702646166int, 1int, 100780302085604862137109646462590150603712756952153938327076285118194273266835int);
    lemma_pow_mod_step(3int, 281474976710655nat, m, 140737488355327nat, 100780302085604862137109646462590150603712756952153938327076285118194273266835int, 87714707933541564791554467135509025962708933876702640765402151597886580759781int, 80284275494363082029724959378287481769724835011019283629553173270444900131422int, 2int, 9268648008456855242032908117486629602634535701776722809744351795517031050940int);
}

proof fn lemma_certificate_full_4()
    requires
        pow_mod(3int, 281474976710655nat, 115792089237316195423570985008687907853269984665640564039457584007908834671663int) == 9268648008456855242032908117486629602634535701776722809744351795517031050940int,
    ensures
        pow_mod(3int, 1152921504606846975nat, 115792089237316195423570985008687907853269984665640564039457584007908834671663int) == 84239174201391406898242033883099101104077176184154066192966987209607966276529int,
{
    let m: int = 115792089237316195423570985008687907853269984665640564039457584007908834671663int;
    lemma_pow_mod_step(3int, 562949953421311nat, m, 281474976710655nat, 9268648008456855242032908117486629602634535701776722809744351795517031050940int, 741914551076135178211173192574773434577969141546541647038588157865943072345int, 9133776265108009797773074973597379587975036713206081785481612896603344423865int, 0int, 27401328795324029393319224920792138763925110139618245356444838689810033271595int);
    lemma_pow_mod_step(3int, 1125899906842623nat, m, 562949953421311nat, 27401328795324029393319224920792138763925110139618245356444838689810033271595int, 6484318788053128216919247130032225351330824142889876326939112963217689884557int, 47691550927164108208511239161917537533239358698642956361179716877181564635734int, 1int, 27282563544176129201962732477064704746448091430288305044081566623635859235539int);
    lemma_pow_mod_step(3int, 2251799813685247nat, m, 1125899906842623nat, 27282563544176129201962732477064704746448091430288305044081566623635859235539int, 6428230792316779752438615077408214639802887629091253301711518001773921555048int, 39231038354523186497050175105111501858947667469905436706821831640274020415697int, 1int, 1901025826253364067579540306646597723573017744075746081007910912913226575428int);
    lemma_pow_mod_step(3int, 4503599627370495nat, m, 2251799813685247nat, 1901025826253364067579540306646597723573017744075746081007910912913226575428int, 31210242563942252775497049728919624591002289102529600642253230302847342564int, 66542618928805439644894267355270941951436016528240555316001158158787548819252int, 1int, 83835767549100123511111817057124918001038064919081101908545890468453811786093int);
    lemma_pow_mod_step(3int, 9007199254740991nat, m, 4503599627370495nat, 83835767549100123511111817057124918001038064919081101908545890468453811786093int, 60698757288522112970582235668729011520619628882045354750135401935214241580383int, 10863750258330658972942548132410527195914543901352276344756681294972761417720int, 0int, 32591250774991976918827644397231581587743631704056829034270043884918284253160int);
    lemma_pow_mod_step(3int, 18014398509481983nat, m, 9007199254740991nat, 32591250774991976918827644397231581587743631704056829034270043884918284253160int, 9173248656922103419249230880361713648203768030828776925879981482674806770456int, 49439728011804207032956325730473138727757322350764194490713685060270801197272int, 1int, 32527094798096425675297992182731508330001982386652019432683471172903568920153int);
    lemma_pow_mod_step(3int, 36028797018963967nat, m, 18014398509481983nat, 32527094798096425675297992182731508330001982386652019432683471172903568920153int, 9137169067188634579341783941470961042152761773339945994012334005252221940622int, 10029896044951303439174275073458392094022982952936035551103774838058437549023int, 0int, 30089688134853910317522825220375176282068948858808106653311324514175312647069int);
    lemma_pow_mod_step(3int, 72057594037927935nat, m, 36028797018963967nat, 30089688134853910317522825220375176282068948858808106653311324514175312647069int, 7819094879592079418943253157641027376326770480116647639573499891647642790835int, 79713170128298810824856427609166069168540909345754403157060735412903543682156int, 2int, 7555331910264041627427312810122391799082758705982081392267038222892961703142int);
    lemma_pow_mod_step(3int, 144115188075855871nat, m, 72057594037927935nat, 7555331910264041627427312810122391799082758705982081392267038222892961703142int, 492978757445702954931194747653186880717977252548278507016499904509221908385int, 90754236531376584218887029063401022192082724746552134423538845368573591077909int, 2int, 40678531119497361809519117172827250869708204908375275191701368089903103890401int);
    lemma_pow_mod_step(3int, 288230376151711743nat, m, 144115188075855871nat, 40678531119497361809519117172827250869708204908375275191701368089903103890401int, 14290638548273494896559030133323285360992889871629335191576326154374795699407int, 66203096862712417126020073751856612847197459276546099826586779873156131136960int, 1int, 82817201350821055954489236246881930688322393163997735440302755611559558739217int);
    lemma_pow_mod_step(3int, 576460752303423487nat, m, 288230376151711743nat, 82817201350821055954489236246881930688322393163997735440302755611559558739217int, 59232792885579047487327003949594576997810111936307268345353133727262297179039int, 101619979471016195551990257053455428679682270214336273702147697944077922901232int, 2int, 73275759938416195808828801142990470332506841311727693027527925816416099360370int);
    lemma_pow_mod_step(3int, 1152921504606846975nat, m, 576460752303423487nat, 73275759938416195808828801142990470332506841311727693027527925816416099360370int, 46370499314058747269775270982538796085239949910582452476493543933657452053105int, 105274450892007932581794667966824972270205715171811731423960718408475211873285int, 2int, 84239174201391406898242033883099101104077176184154066192966987209607966276529int);
}

proof fn lemma_certificate_full_5()
    requires
        pow_mod(3int, 1152921504606846975nat, 115792089237316195423570985008687907853269984665640564039457584007908834671663int) == 84239174201391406898242033883099101104077176184154066192966987209607966276529int,
    ensures
        pow_mod(3int, 4722366482869645213695nat, 115792089237316195423570985008687907853269984665640564039457584007908834671663int) == 84376783951569068957142144184186127646328438962291275054413926906067607473971int,
{
    let m: int = 115792089237316195423570985008687907853269984665640564039457584007908834671663int;
    lemma_pow_mod_step(3int, 2305843009213693951nat, m, 1152921504606846975nat, 84239174201391406898242033883099101104077176184154066192966987209607966276529int, 61284311535208661132985834218481336418784071630583915752069111869481843180672int, 51474323499234501508274095113492657758865036870674052969357058768443788590305int, 1int, 38630881260387309101251300331790065423325125946381594868613592297422531099252int);
    lemma_pow_mod_step(3int, 4611686018427387903nat, m, 2305843009213693951nat, 38630881260387309101251300331790065423325125946381594868613592297422531099252int, 12888142849686202174311172532981562551900846125415122167848153107663968711126int, 62740108034322810268912009472368750027992005625998527020075199129399969936966int, 1int, 72428234865652235383165043408418342230706032212355017020768013380291075139235int);
    lemma_pow_mod_step(3int, 9223372036854775807nat, m, 4611686018427387903nat, 72428234865652235383165043408418342230706032212355017020768013380291075139235int, 45304037955500571013441657988924542174225635746694417836800510595018150137463int, 83637180172590663432064878543115242547884779726126526781417067332850715574256int, 2int, 19327362043139599449052665611969911937114369847098452265336033982734477379442int);
    lemma_pow_mod_step(3int, 18446744073709551615nat, m, 9223372036854775807nat, 19327362043139599449052665611969911937114369847098452265336033982734477379442int, 3226014194985357738026029584763701679988848956775219235189472822975439255173int, 74699403055987284586308549697443734934572070894315524427995540600632914968665int, 1int, 108306119930645658335354664083643296950446228017306009244529037793989910234332int);
    lemma_pow_mod_step(3int, 36893488147419103231nat, m, 18446744073709551615nat, 108306119930645658335354664083643296950446228017306009244529037793989910234332int, 101304119233830322776173911528337454566313753380123659850113633238384509027263int, 88109188140119188104155936064340879016222303434469131147286037408207030937855int, 2int, 32743385945725173465325838175646821342126940972126265362942944208803423470239int);
    lemma_pow_mod_step(3int, 73786976294838206463nat, m, 36893488147419103231nat, 32743385945725173465325838175646821342126940972126265362942944208803423470239int, 9259089547934323110174430959416407226204424939763793018473867226849005171493int, 24272154323145753934548892161217313707597226353783078326079058391847656214262int, 0int, 72816462969437261803646676483651941122791679061349234978237175175542968642786int);
    lemma_pow_mod_step(3int, 147573952589676412927nat, m, 73786976294838206463nat, 72816462969437261803646676483651941122791679061349234978237175175542968642786int, 45791014863826133914552464978571265855704992125647421991910585812553853808649int, 19382049196812413470738164429993782101760938407012527084190555917054925228509int, 0int, 58146147590437240412214493289981346305282815221037581252571667751164775685527int);
    lemma_pow_mod_step(3int, 295147905179352825855nat, m, 147573952589676412927nat, 58146147590437240412214493289981346305282815221037581252571667751164775685527int, 29198665486375276419012973049429775067620215622642583251181254876727383674413int, 9091666461211449300657389421531976296843275477999436502424511507727448008910int, 0int, 27274999383634347901972168264595928890529826433998309507273534523182344026730int);
    lemma_pow_mod_step(3int, 590295810358705651711nat, m, 295147905179352825855nat, 27274999383634347901972168264595928890529826433998309507273534523182344026730int, 6424666799582280411386325742476847950209283281630191158558342382886168940966int, 84858685716406974462376762903189046479950384144222943460171833135327914446442int, 2int, 22991878674588532539988318692191323733311183101387702301600331390166073996000int);
    lemma_pow_mod_step(3int, 1180591620717411303423nat, m, 590295810358705651711nat, 22991878674588532539988318692191323733311183101387702301600331390166073996000int, 4565307427034825723402352531564182651819640566071993783802888546295019155935int, 30901526382722212719489138170106370109109230596211047288137210885926893230095int, 0int, 92704579148166638158467414510319110327327691788633141864411632657780679690285int);
    lemma_pow_mod_step(3int, 2361183241434822606847nat, m, 1180591620717411303423nat, 92704579148166638158467414510319110327327691788633141864411632657780679690285int, 74220432947064128680828525576506693822992648786453727248339868428242641139146int, 25270588489072643144914439741649138541035713355058086223372179499792317161427int, 0int, 75811765467217929434743319224947415623107140065174258670116538499376951484281int);
    lemma_pow_mod_step(3int, 4722366482869645213695nat, m, 2361183241434822606847nat, 75811765467217929434743319224947415623107140065174258670116538499376951484281int, 49635720549761362371675966301562021937193034211598676205847790122242201303008int, 28125594650523022985714048061395375882109479654097091684804642302022535824657int, 0int, 84376783951569068957142144184186127646328438962291275054413926906067607473971int);
}

proof fn lemma_certificate_full_6()
    requires
        pow_mod(3int, 4722366482869645213695nat, 115792089237316195423570985008687907853269984665640564039457584007908834671663int) == 84376783951569068957142144184186127646328438962291275054413926906067607473971int,
    ensures
        pow_mod(3int, 19342813113834066795298815nat, 115792089237316195423570985008687907853269984665640564039457584007908834671663int) == 46693271806322274590839439492310917093233799406525488735137315241636083216621int,
{
    let m: int = 115792089237316195423570985008687907853269984665640564039457584007908834671663int;
    lemma_pow_mod_step(3int, 9444732965739290427391nat, m, 4722366482869645213695nat, 84376783951569068957142144184186127646328438962291275054413926906067607473971int, 61484698280367399837119807476345118538651036797799549371180941655097517387322int, 58145657810402247468162317533960698337674517189084260844470133781515973652355int, 1int, 58644884193890546980915967593194187159753566901612218493952817336639086285402int);
    lemma_pow_mod_step(3int, 18889465931478580854783nat, m, 9444732965739290427391nat, 58644884193890546980915967593194187159753566901612218493952817336639086285402int, 29701704708567247209321313357379116767450144465419666363345651902735510762179int, 115789193956452523499694674147555832334238048396073796710359932004372254867927int, 2int, 115783403394725179651942052425291681296174175856940262052164627997299095260455int);
    lemma_pow_mod_step(3int, 37778931862957161709567nat, m, 18889465931478580854783nat, 115783403394725179651942052425291681296174175856940262052164627997299095260455int, 115774718203680068378859457098321235862863292642874732871458255543750995905008int, 91161805250145146389395144579852708360021341017970238809419990283441069418721int, 2int, 41901237275803048321043463722182309373524053722629588349344802834505538912837int);
    lemma_pow_mod_step(3int, 75557863725914323419135nat, m, 37778931862957161709567nat, 41901237275803048321043463722182309373524053722629588349344802834505538912837int, 15162639320245850181109732659706506623640788316598669955813446382524964551966int, 48753900351057971703091783902469416291126448728846859130429485259682372249111int, 1int, 30469611815857719685704366698720341020109361520900013351830871771138282075670int);
    lemma_pow_mod_step(3int, 151115727451828646838271nat, m, 75557863725914323419135nat, 30469611815857719685704366698720341020109361520900013351830871771138282075670int, 8017795087074590563906196760479574586472894373875261941693099297466901124941int, 108996043561328107370254868956770526568828931837042413929602285508764530702017int, 2int, 95403952209351931263622636852935763999946826179846113709891688510475922762725int);
    lemma_pow_mod_step(3int, 302231454903657293676543nat, m, 151115727451828646838271nat, 95403952209351931263622636852935763999946826179846113709891688510475922762725int, 78605664317101231778583090344860651546149910044276875753548592407657227631454int, 77514118150503828505923862158165151748346420296393139868368377920449388137623int, 2int, 958175976879094670629616457119639538499291557898291526189965745530495069543int);
    lemma_pow_mod_step(3int, 604462909807314587353087nat, m, 302231454903657293676543nat, 958175976879094670629616457119639538499291557898291526189965745530495069543int, 7928876736877564266488258489742583213460394123765694786828438959185665695int, 2788719408977303829987519443745390085164041416749669157287746074660998528064int, 0int, 8366158226931911489962558331236170255492124250249007471863238223982995584192int);
    lemma_pow_mod_step(3int, 1208925819614629174706175nat, m, 604462909807314587353087nat, 8366158226931911489962558331236170255492124250249007471863238223982995584192int, 604467921246420191161605493694235337372013629662758616304948196601855142080int, 36723688194990547032258437645083210585500056092435336252386555224006345413824int, 0int, 110171064584971641096775312935249631756500168277306008757159665672019036241472int);
    lemma_pow_mod_step(3int, 2417851639229258349412351nat, m, 1208925819614629174706175nat, 110171064584971641096775312935249631756500168277306008757159665672019036241472int, 104822907607356655725359350810946579412926815637483649838925744226141015045812int, 23414319320412508872996332924715370406471405860121436401593717475288369501428int, 0int, 70242957961237526618988998774146111219414217580364309204781152425865108504284int);
    lemma_pow_mod_step(3int, 4835703278458516698824703nat, m, 2417851639229258349412351nat, 70242957961237526618988998774146111219414217580364309204781152425865108504284int, 42611487327357798754950521406411623666399485776369848643135283139009380679755int, 113079746517355857193712095371965441408189477361873234631744546137388470070091int, 2int, 107655061077435180733994316098520508518028462754338575816318470396347740866947int);
    lemma_pow_mod_step(3int, 9671406556917033397649407nat, m, 4835703278458516698824703nat, 107655061077435180733994316098520508518028462754338575816318470396347740866947int, 100089844236538112566321471257226301878865019853808675840061326421030008824529int, 40177884107705694954346964828037713508861467768387749383497836555244861479082int, 1int, 4741563085800889439469909475425232673314418639522684111035925657825749765583int);
    lemma_pow_mod_step(3int, 19342813113834066795298815nat, m, 9671406556917033397649407nat, 4741563085800889439469909475425232673314418639522684111035925657825749765583int, 194161972935403835018390214254957399231011899992404546389659997051504615480int, 92759150093651555145993803169895577599924589579268872271350827752484584186649int, 2int, 46693271806322274590839439492310917093233799406525488735137315241636083216621int);
}

proof fn lemma_certificate_full_7()
    requires
        pow_mod(3int, 19342813113834066795298815nat, 115792089237316195423570985008687907853269984665640564039457584007908834671663int) == 46693271806322274590839439492310917093233799406525488735137315241636083216621int,
    ensures
        pow_mod(3int, 79228162514264337593543950335nat, 115792089237316195423570985008687907853269984665640564039457584007908834671663int) == 1840184273345405825971375496254062951331585539363278706738379791196566184967int,
{
    let m: int = 115792089237316195423570985008687907853269984665640564039457584007908834671663int;
    lemma_pow_mod_step(3int, 38685626227668133590597631nat, m, 19342813113834066795298815nat, 46693271806322274590839439492310917093233799406525488735137315241636083216621int, 18829106947976718751927943999430847791895692762381953133968406975229003485746int, 66496565008081238960567045670215002456874292247971599381305078364269600042043int, 1int, 83697605786927521458130152001957099517352892078274234104457651084899965454466int);
    lemma_pow_mod_step(3int, 77371252455336267181195263nat, m, 38685626227668133590597631nat, 83697605786927521458130152001957099517352892078274234104457651084899965454466int, 60498858433295597747262279755678148057047028787608017176339223613248637263710int, 55417375100451531173651596067426168971675878416949889372673671204129324095426int, 1int, 50460036064038398097383803193590599061757650585209104078563429604479137614615int);
    lemma_pow_mod_step(3int, 154742504910672534362390527nat, m, 77371252455336267181195263nat, 50460036064038398097383803193590599061757650585209104078563429604479137614615int, 21989543986598089899343903928830160013252782782684546729903648219155395350487int, 5975287868711162535148288833249827567245919811619479077681716715142809448344int, 0int, 17925863606133487605444866499749482701737759434858437233045150145428428345032int);
    lemma_pow_mod_step(3int, 309485009821345068724781055nat, m, 154742504910672534362390527nat, 17925863606133487605444866499749482701737759434858437233045150145428428345032int, 2775116919836560640869158670833764007426343151423393218253028246758573372199int, 71039862493751857178201192386415232100701638351340639782547109961085581784087int, 1int, 97327498243939376111032592150557788448834930388381355308183745875347910680598int);
    lemma_pow_mod_step(3int, 618970019642690137449562111nat, m, 309485009821345068724781055nat, 97327498243939376111032592150557788448834930388381355308183745875347910680598int, 81807332235018382791896459726451684429336143959075597922122434922600006377285int, 16432379390652076333674019568635087057794676255218340919806212997644497262649int, 0int, 49297138171956229001022058705905261173384028765655022759418638992933491787947int);
    lemma_pow_mod_step(3int, 1237940039285380274899124223nat, m, 618970019642690137449562111nat, 49297138171956229001022058705905261173384028765655022759418638992933491787947int, 20987684460587169341749842308855819917614431052233785836736577399141268831432int, 14732826005529711634097746271091772119298258266602689940422912420769400363393int, 0int, 44198478016589134902293238813275316357894774799808069821268737262308201090179int);
    lemma_pow_mod_step(3int, 2475880078570760549798248447nat, m, 1237940039285380274899124223nat, 44198478016589134902293238813275316357894774799808069821268737262308201090179int, 16870802417073573868665528126287925607901726061065745769930639643043985357078int, 6709150193523355532038207104196209850844849275804221000698006370560147171327int, 0int, 20127450580570066596114621312588629552534547827412663002094019111680441513981int);
    lemma_pow_mod_step(3int, 4951760157141521099596496895nat, m, 2475880078570760549798248447nat, 20127450580570066596114621312588629552534547827412663002094019111680441513981int, 3498635092791248817394816029367528070758226517881138886427239848268301325477int, 12265686357366916731305738297126832776922406675944168012527615121118426610110int, 0int, 36797059072100750193917214891380498330767220027832504037582845363355279830330int);
    lemma_pow_mod_step(3int, 9903520314283042199192993791nat, m, 4951760157141521099596496895nat, 36797059072100750193917214891380498330767220027832504037582845363355279830330int, 11693575660256006230862257681355845446260810720545288686037458219988410383525int, 106113825813037674277513061187059717063591095154448848685734618168070308356825int, 2int, 86757298964480631985397213543803335484233316132065417978288686488393255727149int);
    lemma_pow_mod_step(3int, 19807040628566084398385987583nat, m, 9903520314283042199192993791nat, 86757298964480631985397213543803335484233316132065417978288686488393255727149int, 65002963269675670196918260682751412124332055711419559558064500454672318929454int, 89580535269207072101344082041177755904902109981728416185969361676342985806199int, 2int, 37157427332988825456890276106157452008166360613904120478992917013211288075271int);
    lemma_pow_mod_step(3int, 39614081257132168796771975167nat, m, 19807040628566084398385987583nat, 37157427332988825456890276106157452008166360613904120478992917013211288075271int, 11923736889975697600387249819304575333473746013573513850050985984384287966943int, 27684893553056956883303731049261040422781496991078875821872941544040558887232int, 0int, 83054680659170870649911193147783121268344490973236627465618824632121676661696int);
    lemma_pow_mod_step(3int, 79228162514264337593543950335nat, m, 39614081257132168796771975167nat, 83054680659170870649911193147783121268344490973236627465618824632121676661696int, 59572981408593626727635968745511356794011445635100426263116289140271949499762int, 39210757836887200416514120168313990268200523401667947582065321266368466952210int, 1int, 1840184273345405825971375496254062951331585539363278706738379791196566184967int);
}

proof fn lemma_certificate_full_8()
    requires
        pow_mod(3int, 79228162514264337593543950335nat, 115792089237316195423570985008687907853269984665640564039457584007908834671663int) == 1840184273345405825971375496254062951331585539363278706738379791196566184967int,
    ensures
        pow_mod(3int, 324518553658426726783156020576255nat, 115792089237316195423570985008687907853269984665640564039457584007908834671663int) == 43348839093928966773442853408861392902993633165608112870133768807549217413494int,
{
    let m: int = 115792089237316195423570985008687907853269984665640564039457584007908834671663int;
    lemma_pow_mod_step(3int, 158456325028528675187087900671nat, m, 79228162514264337593543950335nat, 1840184273345405825971375496254062951331585539363278706738379791196566184967int, 29244468963053021309038291314809129553478370495863023627926222141021915222int, 32716296798697396183396707149598967849478619471331935712619161108407065036903int, 0int, 98148890396092188550190121448796903548435858413995807137857483325221195110709int);
    lemma_pow_mod_step(3int, 316912650057057350374175801343nat, m, 158456325028528675187087900671nat, 98148890396092188550190121448796903548435858413995807137857483325221195110709int, 83193979393884488712602225522964975479797175104891477651319915313749700072694int, 114541188162134310923568629751294602257657416729502685201734032061988044612559int, 2int, 112039386011770541923563919236507991066432280857226927526286928170146464494351int);
    lemma_pow_mod_step(3int, 633825300114114700748351602687nat, m, 316912650057057350374175801343nat, 112039386011770541923563919236507991066432280857226927526286928170146464494351int, 108408304060974997247635976858706644806543239643615353155765004021184951699069int, 50275611824111222008224101171834679987330829906472698509715920342605513129454int, 1int, 35034746235017470601101318506816132108722505053777531489690177019907704716699int);
    lemma_pow_mod_step(3int, 1267650600228229401496703205375nat, m, 633825300114114700748351602687nat, 35034746235017470601101318506816132108722505053777531489690177019907704716699int, 10600322110402919821855323720058337237452770233040117048895951052778540518854int, 2246973358469466570148564069958608333640418358286365215862108996595098422399int, 0int, 6740920075408399710445692209875825000921255074859095647586326989785295267197int);
    lemma_pow_mod_step(3int, 2535301200456458802993406410751nat, m, 1267650600228229401496703205375nat, 6740920075408399710445692209875825000921255074859095647586326989785295267197int, 392427529050923134004983220649689799152248634560147172482534207049931645969int, 109606047476913730946037411532900233493649486318557038421832511254178351760362int, 2int, 97233963956108801990970264581324884774408489624389987186582365746717385937760int);
    lemma_pow_mod_step(3int, 5070602400912917605986812821503nat, m, 2535301200456458802993406410751nat, 97233963956108801990970264581324884774408489624389987186582365746717385937760int, 81650169790450520478254707240605760036310068263151213720867040295042251578313int, 69560900140436078239060499613287490462850892752352700924814321536455707373081int, 1int, 92890611183992039293610513831174563535282693591417538734985380601458287447580int);
    lemma_pow_mod_step(3int, 10141204801825835211973625643007nat, m, 5070602400912917605986812821503nat, 92890611183992039293610513831174563535282693591417538734985380601458287447580int, 74518610925579844223935629521986331519919779335268265742631352557040739182577int, 5816446535647518087068011682202142351856959481310240968096255818204442640849int, 0int, 17449339606942554261204035046606427055570878443930722904288767454613327922547int);
    lemma_pow_mod_step(3int, 20282409603651670423947251286015nat, m, 10141204801825835211973625643007nat, 17449339606942554261204035046606427055570878443930722904288767454613327922547int, 2629535875239133861701127272706403060558614179537415095823736123463469809086int, 42338897864179803881129187979016064061150594865869040665212009334430726837191int, 1int, 11224604355223216219816578928360284330181799931966557956178443995383345839910int);
    lemma_pow_mod_step(3int, 40564819207303340847894502572031nat, m, 20282409603651670423947251286015nat, 11224604355223216219816578928360284330181799931966557956178443995383345839910int, 1088085928504801227694288758043986143728911058050333272474172823214196104194int, 102385302155337267570121515302828292830692754113180073707024027842655621553478int, 2int, 75571727991379411863222575891109062785538293008259093042156915512149195317108int);
    lemma_pow_mod_step(3int, 81129638414606681695789005144063nat, m, 40564819207303340847894502572031nat, 75571727991379411863222575891109062785538293008259093042156915512149195317108int, 49321901947016021061757627022453779502607582493787221027341641955595623072802int, 7248574495505877577623085257362054383376393468724831204822402655043862073938int, 0int, 21745723486517632732869255772086163150129180406174493614467207965131586221814int);
    lemma_pow_mod_step(3int, 162259276829213363391578010288127nat, m, 81129638414606681695789005144063nat, 21745723486517632732869255772086163150129180406174493614467207965131586221814int, 4083841072967627025000226335141684003540484490270111054295033448304868095126int, 77906062634364322768642320168029362087011849590969314030860301750920748836058int, 2int, 2134009428460577458784990486712270554495579441626814013665737236944577164848int);
    lemma_pow_mod_step(3int, 324518553658426726783156020576255nat, m, 162259276829213363391578010288127nat, 2134009428460577458784990486712270554495579441626814013665737236944577164848int, 39329079134458080579692210095341091608032814958633123760920886547517568562int, 14449613031309655591147617802953797634331211055202704290044589602516405804498int, 0int, 43348839093928966773442853408861392902993633165608112870133768807549217413494int);
}

proof fn lemma_certificate_full_9()
    requires
        pow_mod(3int, 324518553658426726783156020576255nat, 115792089237316195423570985008687907853269984665640564039457584007908834671663int) == 43348839093928966773442853408861392902993633165608112870133768807549217413494int,
    ensures
        pow_mod(3int, 1329227995784915872903807060280344575nat, 115792089237316195423570985008687907853269984665640564039457584007908834671663int) == 18650602826337153272426497699720977096950246259664366890335458508273525569050int,
{
    let m: int = 115792089237316195423570985008687907853269984665640564039457584007908834671663int;
    lemma_pow_mod_step(3int, 649037107316853453566312041152511nat, m, 324518553658426726783156020576255nat, 43348839093928966773442853408861392902993633165608112870133768807549217413494int, 16228413038995082685162660056690331991387644757034649579245672164274788864011int, 29802626038491749117250150413561178407633967917436102700528122791953431067743int, 0int, 89407878115475247351750451240683535222901903752308308101584368375860293203229int);
    lemma_pow_mod_step(3int, 1298074214633706907132624082305023nat, m, 649037107316853453566312041152511nat, 89407878115475247351750451240683535222901903752308308101584368375860293203229int, 69035533616881438945543574928576013723440896885878830398692302261711034261707int, 66452799718723166470125833987631418971136990434778425640179521500388537117700int, 1int, 83566309918853303986806516954206349060140986638694712881080980493256776681437int);
    lemma_pow_mod_step(3int, 2596148429267413814265248164610047nat, m, 1298074214633706907132624082305023nat, 83566309918853303986806516954206349060140986638694712881080980493256776681437int, 60309199008763806305915941200650687512904883601057827485588762596349842101171int, 11170187111345843945378816666134670494595398765559202931088960515158767567596int, 0int, 33510561334037531836136449998404011483786196296677608793266881545476302702788int);
    lemma_pow_mod_step(3int, 5192296858534827628530496329220095nat, m, 2596148429267413814265248164610047nat, 33510561334037531836136449998404011483786196296677608793266881545476302702788int, 9698052158129614918364463263476703094613988916395355025057627123212075841228int, 23263652904127085091020130087101713155438085190288199123004525928049964250780int, 0int, 69790958712381255273060390261305139466314255570864597369013577784149892752340int);
    lemma_pow_mod_step(3int, 10384593717069655257060992658440191nat, m, 5192296858534827628530496329220095nat, 69790958712381255273060390261305139466314255570864597369013577784149892752340int, 42064859094222168491290627022098327734480421956715597785949995310583393090264int, 10538609900139722448402820482376562799587781136294588945782290305515213486568int, 0int, 31615829700419167345208461447129688398763343408883766837346870916545640459704int);
    lemma_pow_mod_step(3int, 20769187434139310514121985316880383nat, m, 10384593717069655257060992658440191nat, 31615829700419167345208461447129688398763343408883766837346870916545640459704int, 8632374579556159869545002377559209202758124253868153284689813364676129596289int, 105174752959210448562637222569109944066869856687674357643706174994042389509009int, 2int, 83940080402998954840769697689954016494069600731741944852203356966309499183701int);
    lemma_pow_mod_step(3int, 41538374868278621028243970633760767nat, m, 20769187434139310514121985316880383nat, 83940080402998954840769697689954016494069600731741944852203356966309499183701int, 60849900407455835124528483966868980980259245967524489481747673659441945856803int, 6596309665965973508231937781395079627011257579233002510654274845207624184012int, 0int, 19788928997897920524695813344185238881033772737699007531962824535622872552036int);
    lemma_pow_mod_step(3int, 83076749736557242056487941267521535nat, m, 41538374868278621028243970633760767nat, 19788928997897920524695813344185238881033772737699007531962824535622872552036int, 3381938381656249824929794244169677980938182620346138562460875457664664421380int, 1420438788478839021794837868710649220191667405147616261023206777869350390356int, 0int, 4261316365436517065384513606131947660575002215442848783069620333608051171068int);
    lemma_pow_mod_step(3int, 166153499473114484112975882535043071nat, m, 83076749736557242056487941267521535nat, 4261316365436517065384513606131947660575002215442848783069620333608051171068int, 156822605809629565338340725704581485662611262551721146727338847495760798292int, 101845001920123417544831164133570666321475955572938748445787766981069609061028int, 2int, 73950827285737861787351522383336183257887897387535117258448132927391157839758int);
    lemma_pow_mod_step(3int, 332306998946228968225951765070086143nat, m, 166153499473114484112975882535043071nat, 73950827285737861787351522383336183257887897387535117258448132927391157839758int, 47228829639966727657482079566229369600943167691429418484521786706407598374374int, 95932931706777113815738582248220452588728641491631386713694595495578362334602int, 2int, 56214616645698950600073776727285542059645955143613032062168618470917417660480int);
    lemma_pow_mod_step(3int, 664613997892457936451903530140172287nat, m, 332306998946228968225951765070086143nat, 56214616645698950600073776727285542059645955143613032062168618470917417660480int, 27291010512352832256468866484017757623556608701479944641023507833929513748484int, 48125415869355214618954083462142248255797914508753878901152440883896049821508int, 1int, 28584158370749448433291265377738836914123758860621072663999738643779314792861int);
    lemma_pow_mod_step(3int, 1329227995784915872903807060280344575nat, m, 664613997892457936451903530140172287nat, 28584158370749448433291265377738836914123758860621072663999738643779314792861int, 7056217010555282298147244506496576003397696631714383885121997257837115238917int, 6216867608779051090808832566573659032316748753221455630111819502757841856350int, 0int, 18650602826337153272426497699720977096950246259664366890335458508273525569050int);
}

proof fn lemma_certificate_full_10()
    requires
        pow_mod(3int, 1329227995784915872903807060280344575nat, 115792089237316195423570985008687907853269984665640564039457584007908834671663int) == 18650602826337153272426497699720977096950246259664366890335458508273525569050int,
    ensures
        pow_mod(3int, 5444517870735015415413993718908291383295nat, 115792089237316195423570985008687907853269984665640564039457584007908834671663int) == 83751946124124607537372183656136817762194659752037429802739448384835377120282int,
{
    let m: int = 115792089237316195423570985008687907853269984665640564039457584007908834671663int;
    lemma_pow_mod_step(3int, 2658455991569831745807614120560689151nat, m, 1329227995784915872903807060280344575nat, 18650602826337153272426497699720977096950246259664366890335458508273525569050int, 3004047928290387650016436372473985541219556783813147714060990763583842705730int, 3775572555837388043623379668340032538899880948635313467691588980164239173510int, 0int, 11326717667512164130870139005020097616699642845905940403074766940492717520530int);
    lemma_pow_mod_step(3int, 5316911983139663491615228241121378303nat, m, 2658455991569831745807614120560689151nat, 11326717667512164130870139005020097616699642845905940403074766940492717520530int, 1107973212717426770277826862691197589097900811195714877313762554650001339959int, 24629515685998874881372252862910120822310799944988561130314614040083164599083int, 0int, 73888547057996624644116758588730362466932399834965683390943842120249493797249int);
    lemma_pow_mod_step(3int, 10633823966279326983230456482242756607nat, m, 5316911983139663491615228241121378303nat, 73888547057996624644116758588730362466932399834965683390943842120249493797249int, 47149312377916303286620793586421215666884622826065252323798149278499348075805int, 109004478861188095428795932781821557641156940530075520905332806156937110554286int, 2int, 95429258108931895439245828328088857216930852258945434637083250454993662319532int);
    lemma_pow_mod_step(3int, 21267647932558653966460912964485513215nat, m, 10633823966279326983230456482242756607nat, 95429258108931895439245828328088857216930852258945434637083250454993662319532int, 78647370154595356296835693430812969836602524016755730057162094953315624858958int, 110350154276077989263739897991737864922068714742924496704182223708939854391870int, 2int, 99466284353601576944077723957837779059666174897492362033631503111001893832284int);
    lemma_pow_mod_step(3int, 42535295865117307932921825928971026431nat, m, 21267647932558653966460912964485513215nat, 99466284353601576944077723957837779059666174897492362033631503111001893832284int, 85442293927650668364714542199930062539827833730382163251953754619719203253907int, 11753470966091158651789712975814015397875714401553176486345077779190353719315int, 0int, 35260412898273475955369138927442046193627143204659529459035233337571061157945int);
    lemma_pow_mod_step(3int, 85070591730234615865843651857942052863nat, m, 42535295865117307932921825928971026431nat, 35260412898273475955369138927442046193627143204659529459035233337571061157945int, 10737320018542808850837214350404689185697954739283791418658144235198598437796int, 92864142117914537173320219350822010753724653873382533254835283659371847248277int, 2int, 47008247879111220672818688035090216554633992288866471685590682962297872401505int);
    lemma_pow_mod_step(3int, 170141183460469231731687303715884105727nat, m, 85070591730234615865843651857942052863nat, 47008247879111220672818688035090216554633992288866471685590682962297872401505int, 19083992552677964644561989950487880081057046016281064628095695806101906106156int, 74630400898934541280101944642643162897926783416367247417999488199612843207597int, 1int, 108099113459487428416734848919241580840510365583461178214540880590929694951128int);
    lemma_pow_mod_step(3int, 340282366920938463463374607431768211455nat, m, 170141183460469231731687303715884105727nat, 108099113459487428416734848919241580840510365583461178214540880590929694951128int, 100917242340949908064410335593649969766410868220224340349746178012997304396467int, 104627265853790848905689857276361050042485818191218903041958922256741986257763int, 2int, 82297619086740155869927601811707334420917485242375581046961598754408289429963int);
    lemma_pow_mod_step(3int, 680564733841876926926749214863536422911nat, m, 340282366920938463463374607431768211455nat, 82297619086740155869927601811707334420917485242375581046961598754408289429963int, 58491889661521737374338598907987208965584499728794302210584717854632975760050int, 18359131709150748687170330651879576773358632917987753781878582215831859718219int, 0int, 55077395127452246061510991955638730320075898753963261345635746647495579154657int);
    lemma_pow_mod_step(3int, 1361129467683753853853498429727072845823nat, m, 680564733841876926926749214863536422911nat, 55077395127452246061510991955638730320075898753963261345635746647495579154657int, 26197985320122294470774761839972214001461758383376929470981667257791252991833int, 32541747019908241897434274547287750899069224827661992800449662431635749259370int, 0int, 97625241059724725692302823641863252697207674482985978401348987294907247778110int);
    lemma_pow_mod_step(3int, 2722258935367507707706996859454145691647nat, m, 1361129467683753853853498429727072845823nat, 97625241059724725692302823641863252697207674482985978401348987294907247778110int, 82308625353811456521838411085752191968907533921430491510754538246093041405035int, 89927706064569295682459917292824524512310569176309417610370746426483375148895int, 2int, 38198939719075496200237781861097757830391738197647124752197071263632456103359int);
    lemma_pow_mod_step(3int, 5444517870735015415413993718908291383295nat, m, 2722258935367507707706996859454145691647nat, 38198939719075496200237781861097757830391738197647124752197071263632456103359int, 12601543035215586264973913132178077063769483921340843682595856285893411555149int, 27917315374708202512457394552045605920731553250679143267579816128278459040094int, 0int, 83751946124124607537372183656136817762194659752037429802739448384835377120282int);
}

proof fn lemma_certificate_full_11()
    requires
        pow_mod(3int, 5444517870735015415413993718908291383295nat, 115792089237316195423570985008687907853269984665640564039457584007908834671663int) == 83751946124124607537372183656136817762194659752037429802739448384835377120282int,
    ensures
        pow_mod(3int, 22300745198530623141535718272648361505980415nat, 115792089237316195423570985008687907853269984665640564039457584007908834671663int) == 106733920956904001927318414601459334210177592682673757443461320907472238900886int,
{
    let m: int = 115792089237316195423570985008687907853269984665640564039457584007908834671663int;
    lemma_pow_mod_step(3int, 10889035741470030830827987437816582766591nat, m, 5444517870735015415413993718908291383295nat, 83751946124124607537372183656136817762194659752037429802739448384835377120282int, 60577441220550593848714701286600772100130794834059142608726944872520156573541int, 107929765718444296410255750072079274050204031992271721346813132016161247490841int, 2int, 92205118680700498383625280198862006444072126645534035961524228032666073129197int);
    lemma_pow_mod_step(3int, 21778071482940061661655974875633165533183nat, m, 10889035741470030830827987437816582766591nat, 92205118680700498383625280198862006444072126645534035961524228032666073129197int, 73422838873712998103762395554105680491727515493793350640261034743989327660913int, 75678149283269956293865566800288755677959303507957778362019828173293300056490int, 1int, 111242358612493673458025715392178359180607925858232771046601900511971065497807int);
    lemma_pow_mod_step(3int, 43556142965880123323311949751266331066367nat, m, 21778071482940061661655974875633165533183nat, 111242358612493673458025715392178359180607925858232771046601900511971065497807int, 106871397097847781357422337694476229736424442942821229251427781810628014992584int, 83679379560502302854590429267968842211272912222659223518795906082635701862057int, 2int, 19453960206874517716629317786530710927278767336696542477472550232089436242845int);
    lemma_pow_mod_step(3int, 87112285931760246646623899502532662132735nat, m, 43556142965880123323311949751266331066367nat, 19453960206874517716629317786530710927278767336696542477472550232089436242845int, 3268414709704472852033626725993904858097506294214946766906503270687961113502int, 20583770093246446035953235157171089464659847359162970959669308383727767600199int, 0int, 61751310279739338107859705471513268393979542077488912879007925151183302800597int);
    lemma_pow_mod_step(3int, 174224571863520493293247799005065324265471nat, m, 87112285931760246646623899502532662132735nat, 61751310279739338107859705471513268393979542077488912879007925151183302800597int, 32931647976827051153310473385670343003634954426032920258788302889447549068447int, 94458265617404047122064641309117468590500726798449040048355174789592785239048int, 2int, 51790618377579750519051953909976590064962211064065992066150356352960686373818int);
    lemma_pow_mod_step(3int, 348449143727040986586495598010130648530943nat, m, 174224571863520493293247799005065324265471nat, 51790618377579750519051953909976590064962211064065992066150356352960686373818int, 23164519870047302329334192932804205471722061758637252369094286927209938343755int, 110737493483807773554646167425716638838499891113845465882370071109528584382559int, 2int, 100628301976790929816796532259774100808959704010255269568195045312768083804351int);
    lemma_pow_mod_step(3int, 696898287454081973172991196020261297061887nat, m, 348449143727040986586495598010130648530943nat, 100628301976790929816796532259774100808959704010255269568195045312768083804351int, 87450319148995129748914825204852161397812728214204131088710725384148673618426int, 6495041774792488120575602206548371241753860078061644691650789769161389668763int, 0int, 19485125324377464361726806619645113725261580234184934074952369307484169006289int);
    lemma_pow_mod_step(3int, 1393796574908163946345982392040522594123775nat, m, 696898287454081973172991196020261297061887nat, 19485125324377464361726806619645113725261580234184934074952369307484169006289int, 3278895055849291102400030152296829213146979570823395470327471533657626456002int, 36100587245021597947200236695906226599833452241730391681774416486397735880195int, 0int, 108301761735064793841600710087718679799500356725191175045323249459193207640585int);
    lemma_pow_mod_step(3int, 2787593149816327892691964784081045188247551nat, m, 1393796574908163946345982392040522594123775nat, 108301761735064793841600710087718679799500356725191175045323249459193207640585int, 101295966522199728150798110534984312690370449942327190786532913004507413165584int, 90083051695472452185042935320442758716238603156090890391945680929404447496033int, 2int, 38664976611784965707986835943952460442175840136991543096921874772395673144773int);
    lemma_pow_mod_step(3int, 5575186299632655785383929568162090376495103nat, m, 2787593149816327892691964784081045188247551nat, 38664976611784965707986835943952460442175840136991543096921874772395673144773int, 12910902862508267382475138629070096080789448502625515911679110612634280289365int, 29265098041451671279111033534593587480734409079108892567730879168203011457534int, 0int, 87795294124355013837333100603780762442203227237326677703192637504609034372602int);
    lemma_pow_mod_step(3int, 11150372599265311570767859136324180752990207nat, m, 5575186299632655785383929568162090376495103nat, 87795294124355013837333100603780762442203227237326677703192637504609034372602int, 66567705282391195655991640349051695535002070565041831265930792896651362068955int, 57836655131314244015235643929078828569164613723792478484800857021261977728239int, 1int, 57717876156626536622135946778548577854223856505736871414944987055877098513054int);
    lemma_pow_mod_step(3int, 22300745198530623141535718272648361505980415nat, m, 11150372599265311570767859136324180752990207nat, 57717876156626536622135946778548577854223856505736871414944987055877098513054int, 28770127993839551036310414014871831114177141868424563305429764498170374004558int, 35577973652301333975772804867153111403392530894224585814487106969157412966962int, 0int, 106733920956904001927318414601459334210177592682673757443461320907472238900886int);
}

proof fn lemma_certificate_full_12()
    requires
        pow_mod(3int, 22300745198530623141535718272648361505980415nat, 115792089237316195423570985008687907853269984665640564039457584007908834671663int) == 106733920956904001927318414601459334210177592682673757443461320907472238900886int,
    ensures
        pow_mod(3int, 91343852333181432387730302044767688728495783935nat, 115792089237316195423570985008687907853269984665640564039457584007908834671663int) == 105107247854697488662747615000098216251462523960291293884383133422624199233728int,
{
    let m: int = 115792089237316195423570985008687907853269984665640564039457584007908834671663int;
    lemma_pow_mod_step(3int, 44601490397061246283071436545296723011960831nat, m, 22300745198530623141535718272648361505980415nat, 106733920956904001927318414601459334210177592682673757443461320907472238900886int, 98384353869688202489248467851290483894014618040655475605885407382945197891810int, 69888844910140915726896591561506166658743541291657651759467512118316184804966int, 1int, 93874445493106551757118789675830592122960639209332391238944952347039719743235int);
    lemma_pow_mod_step(3int, 89202980794122492566142873090593446023921663nat, m, 44601490397061246283071436545296723011960831nat, 93874445493106551757118789675830592122960639209332391238944952347039719743235int, 76105471234543251939956340341127013388943988146309240708507167491463610962637int, 113927340172021036008008396174380598290660006760285220243834932093089072609894int, 2int, 110197842041430717176883218505765979165440050949574532652589628263449548486356int);
    lemma_pow_mod_step(3int, 178405961588244985132285746181186892047843327nat, m, 89202980794122492566142873090593446023921663nat, 110197842041430717176883218505765979165440050949574532652589628263449548486356int, 104873868936761713290307050851615962134764069059787854707387027092797965500088int, 60357250773381913174877672777852060786222564281611408756078500958091640552392int, 1int, 65279663082829544101062033324868274505397708179193662228777918866366086985513int);
    lemma_pow_mod_step(3int, 356811923176489970264571492362373784095686655nat, m, 178405961588244985132285746181186892047843327nat, 65279663082829544101062033324868274505397708179193662228777918866366086985513int, 36802465870305848571709109957899314307778415937744727720031219421930583403559int, 61712829578703335730957799900001672897616803142552571428266747413414681224552int, 1int, 69346399498793811769302414691317110839580424762017150245342658232335209001993int);
    lemma_pow_mod_step(3int, 713623846352979940529142984724747568191373311nat, m, 356811923176489970264571492362373784095686655nat, 69346399498793811769302414691317110839580424762017150245342658232335209001993int, 41530670662573588020627809589605721981062442069842425819353397133126159524698int, 37073107135678332601088630701785774208488287753330867126291790498076108739275int, 0int, 111219321407034997803265892105357322625464863259992601378875371494228326217825int);
    lemma_pow_mod_step(3int, 1427247692705959881058285969449495136382746623nat, m, 713623846352979940529142984724747568191373311nat, 111219321407034997803265892105357322625464863259992601378875371494228326217825int, 106827137637093182173125979903243204613521071322299912503700061026701723409906int, 113034289599564033543456243497007338247138968893957088705797778426109076036947int, 2int, 107518690324059709783226760473646199034876937350590138038478167262509558767515int);
    lemma_pow_mod_step(3int, 2854495385411919762116571938898990272765493247nat, m, 1427247692705959881058285969449495136382746623nat, 107518690324059709783226760473646199034876937350590138038478167262509558767515int, 99836429631287241182685547323811251232970712882492168228507149307675288776761int, 101661916259740396175874304959686295044006165173900368060518622838113479651682int, 2int, 73401570304588797680480944861683069425478526190419976102640700498522769611720int);
    lemma_pow_mod_step(3int, 5708990770823839524233143877797980545530986495nat, m, 2854495385411919762116571938898990272765493247nat, 73401570304588797680480944861683069425478526190419976102640700498522769611720int, 46529867097718575298340873518359731701542497263614631846419942104258394420183int, 106174631377596161247190487156665415484079775335018730639903319798311495984071int, 2int, 86939715658156092894429491452620430745699356673775063840794791379116818608887int);
    lemma_pow_mod_step(3int, 11417981541647679048466287755595961091061972991nat, m, 5708990770823839524233143877797980545530986495nat, 86939715658156092894429491452620430745699356673775063840794791379116818608887int, 65276602300782714166946403226192610044564247270500758345909492582871690354529int, 113277551391159456458769509649975321800115099051440687085210419009126095367042int, 2int, 108248475698845978529166558932550149693805327823040933176716089011560616757800int);
    lemma_pow_mod_step(3int, 22835963083295358096932575511191922182123945983nat, m, 11417981541647679048466287755595961091061972991nat, 108248475698845978529166558932550149693805327823040933176716089011560616757800int, 101196312876850545436556126093446876123322280780958607873566931644076538852979int, 39916892447214251332913285281614300931406238710949843583367546584551766405923int, 1int, 3958588104326558575168870836154994940948731467208966710645055745746464546106int);
    lemma_pow_mod_step(3int, 45671926166590716193865151022383844364247891967nat, m, 22835963083295358096932575511191922182123945983nat, 3958588104326558575168870836154994940948731467208966710645055745746464546106int, 135332386546711058171637907891652626359081101406888265771906289437216206274int, 51435760908067260205620141047458066202265760231704094797722180733463329149574int, 1int, 38515193486885585193289438133686290753527296029471720353708958192481152777059int);
    lemma_pow_mod_step(3int, 91343852333181432387730302044767688728495783935nat, m, 45671926166590716193865151022383844364247891967nat, 38515193486885585193289438133686290753527296029471720353708958192481152777059int, 12811066274933171770017750809779660278528328766514412956959422892106322714268int, 73633112364004561362106200002928708034910836208643952641280239143511011301797int, 1int, 105107247854697488662747615000098216251462523960291293884383133422624199233728int);
}

proof fn lemma_certificate_full_13()
    requires
        pow_mod(3int, 91343852333181432387730302044767688728495783935nat, 115792089237316195423570985008687907853269984665640564039457584007908834671663int) == 105107247854697488662747615000098216251462523960291293884383133422624199233728int,
    ensures
        pow_mod(3int, 374144419156711147060143317175368453031918731001855nat, 115792089237316195423570985008687907853269984665640564039457584007908834671663int) == 73229120056850801965621575172857525490635316926307050269201519791139348539768int,
{
    let m: int = 115792089237316195423570985008687907853269984665640564039457584007908834671663int;
    lemma_pow_mod_step(3int, 182687704666362864775460604089535377456991567871nat, m, 91343852333181432387730302044767688728495783935nat, 105107247854697488662747615000098216251462523960291293884383133422624199233728int, 95408361869582129935780781464618982502573031953061039348009209769802752764594int, 70214718778877701934111709196572426524098901424525301691570728577268851278162int, 1int, 94852067099316910378764142581029371719026719607935341035254601723897719162823int);
    lemma_pow_mod_step(3int, 365375409332725729550921208179070754913983135743nat, m, 182687704666362864775460604089535377456991567871nat, 94852067099316910378764142581029371719026719607935341035254601723897719162823int, 77698871246498687590807255461842544973372391219333581296137558332859805766971int, 115767868859059541883817801628628247561760688069325059177156712525585310286556int, 2int, 115719428102546234804311434868508926978742094876694049452554969560938261516342int);
    lemma_pow_mod_step(3int, 730750818665451459101842416358141509827966271487nat, m, 365375409332725729550921208179070754913983135743nat, 115719428102546234804311434868508926978742094876694049452554969560938261516342int, 115646812563641594809354373869554124597335902989212138970523729683037440369079int, 21820861955145976911153737743423509906269729398847505005612874167534630352587int, 0int, 65462585865437930733461213230270529718809188196542515016838622502603891057761int);
    lemma_pow_mod_step(3int, 1461501637330902918203684832716283019655932542975nat, m, 730750818665451459101842416358141509827966271487nat, 65462585865437930733461213230270529718809188196542515016838622502603891057761int, 37009006197366362459728147867251940149442255209916664756691309890183815427377int, 27031187858106829268324119719952566210463244247792010505419445391929622015170int, 0int, 81093563574320487804972359159857698631389732743376031516258336175788866045510int);
    lemma_pow_mod_step(3int, 2923003274661805836407369665432566039311865085951nat, m, 1461501637330902918203684832716283019655932542975nat, 81093563574320487804972359159857698631389732743376031516258336175788866045510int, 56792878481573026991942724980458321196399266611582686705791886583300048754551int, 57360928123101247565992940399359229711808102172468378276527511547335229171787int, 1int, 56290695131987547274407836189389781282154321851764570790124950634096852843698int);
    lemma_pow_mod_step(3int, 5846006549323611672814739330865132078623730171903nat, m, 2923003274661805836407369665432566039311865085951nat, 56290695131987547274407836189389781282154321851764570790124950634096852843698int, 27364929498320266038974767011534094791219515734841398558813337317745068908875int, 51037584153692660664316241392006460238637383444503769281671314936668926606079int, 1int, 37320663223761786569377739167331472862642165667870743805556360802097945146574int);
    lemma_pow_mod_step(3int, 11692013098647223345629478661730264157247460343807nat, m, 5846006549323611672814739330865132078623730171903nat, 37320663223761786569377739167331472862642165667870743805556360802097945146574int, 12028731087206076836110122898082585346141675201477451072063852075116800611590int, 18378117614702108799433491254865723472739497213054251408248099093967101563306int, 0int, 55134352844106326398300473764597170418218491639162754224744297281901304689918int);
    lemma_pow_mod_step(3int, 23384026197294446691258957323460528314494920687615nat, m, 11692013098647223345629478661730264157247460343807nat, 55134352844106326398300473764597170418218491639162754224744297281901304689918int, 26252198086765181265535413490690520248598683880864225583396513288202207641836int, 55708963046702063871218792826704239882263906115619335969773579412411568353456int, 1int, 51334799902789996190085393471424811793521733681217443869863154229325870388705int);
    lemma_pow_mod_step(3int, 46768052394588893382517914646921056628989841375231nat, m, 23384026197294446691258957323460528314494920687615nat, 51334799902789996190085393471424811793521733681217443869863154229325870388705int, 22758564064411273944782966204650340799956917269089352628232034465314762675968int, 60943980010124226770967769344609149987791319984406364891058534788603250882241int, 1int, 67039850793056484889332323025139542110103975287578530633718020357900917975060int);
    lemma_pow_mod_step(3int, 93536104789177786765035829293842113257979682750463nat, m, 46768052394588893382517914646921056628989841375231nat, 67039850793056484889332323025139542110103975287578530633718020357900917975060int, 38813891553024068276443724861177353052412636719741085056661359835068542827168int, 82351538730023110936402347344954640430908696408323693189992935021127745863216int, 2int, 15470437715436941962065072017488105586186119893689951491063637047565568246322int);
    lemma_pow_mod_step(3int, 187072209578355573530071658587684226515959365500927nat, m, 93536104789177786765035829293842113257979682750463nat, 15470437715436941962065072017488105586186119893689951491063637047565568246322int, 2066932591713560061785765170361992888530069983642489434039985529343912999659int, 60529106706368411210279409602823742792267101877045329350767547050017770564767int, 1int, 65795230881789038207267243799783320523531320965495424012845057142144477022638int);
    lemma_pow_mod_step(3int, 374144419156711147060143317175368453031918731001855nat, m, 187072209578355573530071658587684226515959365500927nat, 65795230881789038207267243799783320523531320965495424012845057142144477022638int, 37386080822115606496236311910747535723886910561669085870068272195332431870542int, 101604432843827730937587848396744447065725095419196059449372229268985672627698int, 2int, 73229120056850801965621575172857525490635316926307050269201519791139348539768int);
}

proof fn lemma_certificate_full_14()
    requires
        pow_mod(3int, 374144419156711147060143317175368453031918731001855nat, 115792089237316195423570985008687907853269984665640564039457584007908834671663int) == 73229120056850801965621575172857525490635316926307050269201519791139348539768int,
    ensures
        pow_mod(3int, 1532495540865888858358347027150309183618739122183602175nat, 115792089237316195423570985008687907853269984665640564039457584007908834671663int) == 46940955751518376016629290785470970651078625766736484003699282320597557794732int,
{
    let m: int = 115792089237316195423570985008687907853269984665640564039457584007908834671663int;
    lemma_pow_mod_step(3int, 748288838313422294120286634350736906063837462003711nat, m, 374144419156711147060143317175368453031918731001855nat, 73229120056850801965621575172857525490635316926307050269201519791139348539768int, 46311488631232847999998942819450063277040751141702782043511610199674987354639int, 107965005407133861779735068102770946249036574263529379742720452271461372599167int, 2int, 92310837746769194492063234290937023040569753459307011149246188798566448454175int);
    lemma_pow_mod_step(3int, 1496577676626844588240573268701473812127674924007423nat, m, 748288838313422294120286634350736906063837462003711nat, 92310837746769194492063234290937023040569753459307011149246188798566448454175int, 73591303357917138944248293854086313403835452215607397965869308307969555470783int, 47553024593809892749422235577946955037754560322661431286380914567113880408496int, 1int, 26866984544113482824695721725152957259993696302343729819685159693432806553825int);
    lemma_pow_mod_step(3int, 2993155353253689176481146537402947624255349848014847nat, m, 1496577676626844588240573268701473812127674924007423nat, 26866984544113482824695721725152957259993696302343729819685159693432806553825int, 6233887506893759423371959246787136811290462883357355679234440694939882451691int, 91887483802934425709087220507369245386980921238692843141686145140467177998492int, 2int, 44078272934170886280119691504731920454402794384797401346143267405583864652150int);
    lemma_pow_mod_step(3int, 5986310706507378352962293074805895248510699696029695nat, m, 2993155353253689176481146537402947624255349848014847nat, 44078272934170886280119691504731920454402794384797401346143267405583864652150int, 16779161319710666812095711013718611231307883596061481350182111062795645354888int, 30357978465376814936782440476960511470531084369332631025745876338413907483756int, 0int, 91073935396130444810347321430881534411593253107997893077237629015241722451268int);
    lemma_pow_mod_step(3int, 11972621413014756705924586149611790497021399392059391nat, m, 5986310706507378352962293074805895248510699696029695nat, 91073935396130444810347321430881534411593253107997893077237629015241722451268int, 71632369388715498074923034364887246960949434476479665258720420136518660373320int, 112006595627905753110938011677911082447536323888241238664598595988119429576664int, 2int, 104435608409084868485672065016357431636069002333442587914880619948540619386666int);
    lemma_pow_mod_step(3int, 23945242826029513411849172299223580994042798784118783nat, m, 11972621413014756705924586149611790497021399392059391nat, 104435608409084868485672065016357431636069002333442587914880619948540619386666int, 94192931275488172676978734123360686992066707620873908807463987284822550132474int, 106002726600027969868051076735433103143621606059991802327135991791757074711294int, 2int, 86424001325451518757011260188923493724324848848694278902492807359453554790556int);
    lemma_pow_mod_step(3int, 47890485652059026823698344598447161988085597568237567nat, m, 23945242826029513411849172299223580994042798784118783nat, 86424001325451518757011260188923493724324848848694278902492807359453554790556int, 64504475688263030756814465565787550742329444160298661389334449678019027080422int, 60027168337760243318038740235784470638771087758214095844884395388263161307350int, 1int, 64289415775964534530545235698665504063043278609001723495195602156880649250387int);
    lemma_pow_mod_step(3int, 95780971304118053647396689196894323976171195136475135nat, m, 47890485652059026823698344598447161988085597568237567nat, 64289415775964534530545235698665504063043278609001723495195602156880649250387int, 35694398538262650348418007019182512438227689815194065718320315131410612474177int, 52277078523225757664862359436176794193343213605063820537154797709799158503418int, 1int, 41039146332361077571016093299842474726759656149550897572006809121488640838591int);
    lemma_pow_mod_step(3int, 191561942608236107294793378393788647952342390272950271nat, m, 95780971304118053647396689196894323976171195136475135nat, 41039146332361077571016093299842474726759656149550897572006809121488640838591int, 14545134670099523491116040934435891269798044376822066451872740493990687579646int, 75425841973439985911807224750200109724772529905574980644205753611731143093983int, 1int, 110485436683003762311850689241912421321047605051084377893159676827284594610286int);
    lemma_pow_mod_step(3int, 383123885216472214589586756787577295904684780545900543nat, m, 191561942608236107294793378393788647952342390272950271nat, 110485436683003762311850689241912421321047605051084377893159676827284594610286int, 105421983482962202794712438310202601496789819643608896713681001682018092580483int, 33904783178357454493261214286143628311319869273197288471289140258036510048567int, 0int, 101714349535072363479783642858430884933959607819591865413867420774109530145701int);
    lemma_pow_mod_step(3int, 766247770432944429179173513575154591809369561091801087nat, m, 383123885216472214589586756787577295904684780545900543nat, 101714349535072363479783642858430884933959607819591865413867420774109530145701int, 89348149510793544926369285372780908079665639115653122545204434629500884802083int, 96042960203018560338836089911288411634565481238169009825060458715192245307372int, 2int, 56544702134423290169366299716489419197156474383225901396266208129759066578790int);
    lemma_pow_mod_step(3int, 1532495540865888858358347027150309183618739122183602175nat, m, 766247770432944429179173513575154591809369561091801087nat, 56544702134423290169366299716489419197156474383225901396266208129759066578790int, 27612450561434918697089343508108929061954702615025833608824650963657891989312int, 15646985250506125338876430261823656883692875255578828001233094106865852598244int, 0int, 46940955751518376016629290785470970651078625766736484003699282320597557794732int);
}

proof fn lemma_certificate_full_15()
    requires
        pow_mod(3int, 1532495540865888858358347027150309183618739122183602175nat, 115792089237316195423570985008687907853269984665640564039457584007908834671663int) == 46940955751518376016629290785470970651078625766736484003699282320597557794732int,
    ensures
        pow_mod(3int, 6277101735386680763835789423207666416102355444464034512895nat, 115792089237316195423570985008687907853269984665640564039457584007908834671663int) == 89994863652766099535261099050774427114615173697201384799264826138602368212595int,
{
    let m: int = 115792089237316195423570985008687907853269984665640564039457584007908834671663int;
    lemma_pow_mod_step(3int, 3064991081731777716716694054300618367237478244367204351nat, m, 1532495540865888858358347027150309183618739122183602175nat, 46940955751518376016629290785470970651078625766736484003699282320597557794732int, 19029394334098442949208028652231814991889362200516183269120017709681530429126int, 55997588940456158822094429510239226537856180512440497132565242792899344895286int, 1int, 52200677584052281042712303522029771760298556871680927358238144370789200014195int);
    lemma_pow_mod_step(3int, 6129982163463555433433388108601236734474956488734408703nat, m, 3064991081731777716716694054300618367237478244367204351nat, 52200677584052281042712303522029771760298556871680927358238144370789200014195int, 23532788450249537047766622422655281031099801657773896465639331069585330078587int, 17228569196206976974202791185624501305017818122506761935752901062294069517844int, 0int, 51685707588620930922608373556873503915053454367520285807258703186882208553532int);
    lemma_pow_mod_step(3int, 12259964326927110866866776217202473468949912977468817407nat, m, 6129982163463555433433388108601236734474956488734408703nat, 51685707588620930922608373556873503915053454367520285807258703186882208553532int, 23070767498299132661323914916723894747556237540937128686668919359704194327639int, 46004722026136316548208590405796729737198375888037083924141723792286098681367int, 1int, 22222076841092754221054786208702281358325142998470687732967587368949461372438int);
    lemma_pow_mod_step(3int, 24519928653854221733733552434404946937899825954937634815nat, m, 12259964326927110866866776217202473468949912977468817407nat, 22222076841092754221054786208702281358325142998470687732967587368949461372438int, 4264718793693618252844985826010554849646277019584011979992804428712277015495int, 51469249228919071686452543657703766020205338381568857662883464380350657645659int, 1int, 38615658449441019635786645964423390207346030479066008949192809133143138265314int);
    lemma_pow_mod_step(3int, 49039857307708443467467104868809893875799651909875269631nat, m, 24519928653854221733733552434404946937899825954937634815nat, 38615658449441019635786645964423390207346030479066008949192809133143138265314int, 12877987497295524353830295046962948541129024464923815390465550126342887763956int, 52384693061485821970030308478017385690153356827875801607357968918889549539768int, 1int, 41361989947141270486519940425364249217190085817986840782616322748759813947641int);
    lemma_pow_mod_step(3int, 98079714615416886934934209737619787751599303819750539263nat, m, 49039857307708443467467104868809893875799651909875269631nat, 41361989947141270486519940425364249217190085817986840782616322748759813947641int, 14774879904628866596307932269372514103853661482278036743213406808734770179933int, 48840756816331240153403889866694730902796044465771346358009081503628803126302int, 1int, 30730181211677525036640684591396284855118148731673475034569660502977574707243int);
    lemma_pow_mod_step(3int, 196159429230833773869868419475239575503198607639501078527nat, m, 98079714615416886934934209737619787751599303819750539263nat, 30730181211677525036640684591396284855118148731673475034569660502977574707243int, 8155514280143117032262942748391968468407162333478231852761926864359117639345int, 60352633305488692002212797000879949412287004057659332092849368123732431280314int, 1int, 65265810679149880583067405993951940383591027507337432239090520363288459169279int);
    lemma_pow_mod_step(3int, 392318858461667547739736838950479151006397215279002157055nat, m, 196159429230833773869868419475239575503198607639501078527nat, 65265810679149880583067405993951940383591027507337432239090520363288459169279int, 36786848494256975278151402832755031995229378079158731149782037817145657814834int, 114216806008575994465990786011699691778694381216787224223606837066322336530899int, 2int, 111066239551095592550830388017723259629543174319080544591905343183149340249371int);
    lemma_pow_mod_step(3int, 784637716923335095479473677900958302012794430558004314111nat, m, 392318858461667547739736838950479151006397215279002157055nat, 111066239551095592550830388017723259629543174319080544591905343183149340249371int, 106533267076123665610280186181958152037309404005289755010046592666466037951993int, 99766398839439168179999917869837815213657837631157579401816437277137354421282int, 2int, 67715018043685113692857783592137629934433543562191610126534143815594393920520int);
    lemma_pow_mod_step(3int, 1569275433846670190958947355801916604025588861116008628223nat, m, 784637716923335095479473677900958302012794430558004314111nat, 67715018043685113692857783592137629934433543562191610126534143815594393920520int, 39599628082182431697421714829707364723301187168591249622324995711145242138452int, 107938981186480815354453143526152985144240539282605252889339034582480669984724int, 2int, 92232765084810055216217460561083139726181648516534630589101935731624340610846int);
    lemma_pow_mod_step(3int, 3138550867693340381917894711603833208051177722232017256447nat, m, 1569275433846670190958947355801916604025588861116008628223nat, 92232765084810055216217460561083139726181648516534630589101935731624340610846int, 73466875079478681038917296955689621821859968190057496827387506708173300455597int, 4031591184368724156447442014278932299664754201761336736055959959008607187905int, 0int, 12094773553106172469342326042836796898994262605284010208167879877025821563715int);
    lemma_pow_mod_step(3int, 6277101735386680763835789423207666416102355444464034512895nat, m, 3138550867693340381917894711603833208051177722232017256447nat, 12094773553106172469342326042836796898994262605284010208167879877025821563715int, 1263329371327845961800996973477068969150346500264288471883872319410170625053int, 68595650963360764986277361353154111655961719454280649612907470048837067628086int, 1int, 89994863652766099535261099050774427114615173697201384799264826138602368212595int);
}

proof fn lemma_certificate_full_16()
    requires
        pow_mod(3int, 6277101735386680763835789423207666416102355444464034512895nat, 115792089237316195423570985008687907853269984665640564039457584007908834671663int) == 89994863652766099535261099050774427114615173697201384799264826138602368212595int,
    ensures
        pow_mod(3int, 25711008708143844408671393477458601640355247900524685364822015nat, 115792089237316195423570985008687907853269984665640564039457584007908834671663int) == 99031372822903997511896044043919084898956607342378265397076678746352404526515int,
{
    let m: int = 115792089237316195423570985008687907853269984665640564039457584007908834671663int;
    lemma_pow_mod_step(3int, 12554203470773361527671578846415332832204710888928069025791nat, m, 6277101735386680763835789423207666416102355444464034512895nat, 89994863652766099535261099050774427114615173697201384799264826138602368212595int, 69944981019220441208973022141661943944212705859666285635271330418512417363709int, 59775428197676913593512371014217689068964512109246495944583266167006049755958int, 1int, 63534195355714545356966128033965159353623551662098923794292214493109314596211int);
    lemma_pow_mod_step(3int, 25108406941546723055343157692830665664409421777856138051583nat, m, 12554203470773361527671578846415332832204710888928069025791nat, 63534195355714545356966128033965159353623551662098923794292214493109314596211int, 34860705995425037957563387252845580095873449481148553752078679813659246706415int, 22282759477140772144770469915317101054113716805089233801108045097183294738376int, 0int, 66848278431422316434311409745951303162341150415267701403324135291549884215128int);
    lemma_pow_mod_step(3int, 50216813883093446110686315385661331328818843555712276103167nat, m, 25108406941546723055343157692830665664409421777856138051583nat, 66848278431422316434311409745951303162341150415267701403324135291549884215128int, 38592380176217092336722317011665757392863324320553550164993474910949927979534int, 28805690562294803923483083232278693270173996566078444350826743091656710311342int, 0int, 86417071686884411770449249696836079810521989698235333052480229274970130934026int);
    lemma_pow_mod_step(3int, 100433627766186892221372630771322662657637687111424552206335nat, m, 50216813883093446110686315385661331328818843555712276103167nat, 86417071686884411770449249696836079810521989698235333052480229274970130934026int, 64494131923214697492566223553703516923167055356895105976396648129613192075661int, 115623201571244824608353393581144462093589569981535804358293742498440775874433int, 2int, 115285426239102082977918210726057570574228740613326284995966059479504658279973int);
    lemma_pow_mod_step(3int, 200867255532373784442745261542645325315275374222849104412671nat, m, 100433627766186892221372630771322662657637687111424552206335nat, 115285426239102082977918210726057570574228740613326284995966059479504658279973int, 114780980209209814965210922363843790585976082308166315445550445945822996818503int, 29236028516989041505256204305888858829618127834860575521057726299439244700240int, 0int, 87708085550967124515768612917666576488854383504581726563173178898317734100720int);
    lemma_pow_mod_step(3int, 401734511064747568885490523085290650630550748445698208825343nat, m, 200867255532373784442745261542645325315275374222849104412671nat, 87708085550967124515768612917666576488854383504581726563173178898317734100720int, 66435525273661329170097326289533962364924312473545675013240712311145737740509int, 6959345095050471386624160685938745671799959161224594651763277579942595021933int, 0int, 20878035285151414159872482057816237015399877483673783955289832739827785065799int);
    lemma_pow_mod_step(3int, 803469022129495137770981046170581301261101496891396417650687nat, m, 401734511064747568885490523085290650630550748445698208825343nat, 20878035285151414159872482057816237015399877483673783955289832739827785065799int, 3764439870107749275472374864904770380766835408521579126490372268093225777119int, 20821422649903250895211494526564323961170466462862707528918506026380376429504int, 0int, 62464267949709752685634483579692971883511399388588122586755518079141129288512int);
    lemma_pow_mod_step(3int, 1606938044258990275541962092341162602522202993782792835301375nat, m, 803469022129495137770981046170581301261101496891396417650687nat, 62464267949709752685634483579692971883511399388588122586755518079141129288512int, 33696470943679224466816839272330718723112717477710170354775506882854675695401int, 18597703682230495071846385925776366960735101944022352998636651390789301052281int, 0int, 55793111046691485215539157777329100882205305832067058995909954172367903156843int);
    lemma_pow_mod_step(3int, 3213876088517980551083924184682325205044405987565585670602751nat, m, 1606938044258990275541962092341162602522202993782792835301375nat, 55793111046691485215539157777329100882205305832067058995909954172367903156843int, 26883280721264209471829371902587628616095175208861332889400223703852719738022int, 46875248534531094985667426280017990077485961579895085308035825438261310656063int, 1int, 24833656366277089533431293831366062379187900074044691884649892306875097296526int);
    lemma_pow_mod_step(3int, 6427752177035961102167848369364650410088811975131171341205503nat, m, 3213876088517980551083924184682325205044405987565585670602751nat, 24833656366277089533431293831366062379187900074044691884649892306875097296526int, 5326015728538974964039250059581385028677856290113312667749371997906391352597int, 41592978975435242215131716096098015262274582379474092554904511773437014309865int, 1int, 8986847688989531221824163279606137933553762472781713625255951312402208257932int);
    lemma_pow_mod_step(3int, 12855504354071922204335696738729300820177623950262342682411007nat, m, 6427752177035961102167848369364650410088811975131171341205503nat, 8986847688989531221824163279606137933553762472781713625255951312402208257932int, 697486606529497971753580358912489286643114198190473603807293672210876124843int, 70965218955097452262568217095894808040961397094562595419949760196440538492715int, 1int, 97103567627976161364133666278996516269614206618047222220391696581412780806482int);
    lemma_pow_mod_step(3int, 25711008708143844408671393477458601640355247900524685364822015nat, m, 12855504354071922204335696738729300820177623950262342682411007nat, 97103567627976161364133666278996516269614206618047222220391696581412780806482int, 81431321502075746349284217318146492407837212986530157636009472888220671188413int, 33010457607634665837298681347973028299652202447459421799025559582117468175505int, 0int, 99031372822903997511896044043919084898956607342378265397076678746352404526515int);
}

proof fn lemma_certificate_full_17()
    requires
        pow_mod(3int, 25711008708143844408671393477458601640355247900524685364822015nat, 115792089237316195423570985008687907853269984665640564039457584007908834671663int) == 99031372822903997511896044043919084898956607342378265397076678746352404526515int,
    ensures
        pow_mod(3int, 105312291668557186697918027683670432318895095400549111254310977535nat, 115792089237316195423570985008687907853269984665640564039457584007908834671663int) == 32310664088876457754287274480568114921628078877469460108441446429534343690319int,
{
    let m: int = 115792089237316195423570985008687907853269984665640564039457584007908834671663int;
    lemma_pow_mod_step(3int, 51422017416287688817342786954917203280710495801049370729644031nat, m, 25711008708143844408671393477458601640355247900524685364822015nat, 99031372822903997511896044043919084898956607342378265397076678746352404526515int, 84696742824020557234968756953349966646783524890620743424114072434511374144602int, 107560425050860270049574796945919547298043807035697180071852479925955184232099int, 2int, 91097096677948419301582420820382826187591451775810412136642271762047883352971int);
    lemma_pow_mod_step(3int, 102844034832575377634685573909834406561420991602098741459288063nat, m, 51422017416287688817342786954917203280710495801049370729644031nat, 91097096677948419301582420820382826187591451775810412136642271762047883352971int, 71668808100899812446561228449376377607694797505343147105914577539463877671965int, 57686938393660052522212558338923561463459556842350000146013072491637779499046int, 1int, 57268725943663962143066690008082776537108685861409436398581633467004503825475int);
    lemma_pow_mod_step(3int, 205688069665150755269371147819668813122841983204197482918576127nat, m, 102844034832575377634685573909834406561420991602098741459288063nat, 57268725943663962143066690008082776537108685861409436398581633467004503825475int, 28324102214692072745021498195286006293416557085570657691196768131716794014315int, 21630575545317156720960213481457480122012777706793495287147143385932512119780int, 0int, 64891726635951470162880640444372440366038333120380485861441430157797536359340int);
    lemma_pow_mod_step(3int, 411376139330301510538742295639337626245683966408394965837152255nat, m, 205688069665150755269371147819668813122841983204197482918576127nat, 64891726635951470162880640444372440366038333120380485861441430157797536359340int, 36366354675272579059248533481528986337037032433842451433371361987432493271481int, 15075578629829896569392872672873689553245812676606155830249518098410248492697int, 0int, 45226735889489689708178618018621068659737438029818467490748554295230745478091int);
    lemma_pow_mod_step(3int, 822752278660603021077484591278675252491367932816789931674304511nat, m, 411376139330301510538742295639337626245683966408394965837152255nat, 45226735889489689708178618018621068659737438029818467490748554295230745478091int, 17664916944589227272311012129414819786532106756785379034194159861969314211719int, 17340559810644212889005033595289812295470290557216776560494917127527129185584int, 0int, 52021679431932638667015100785869436886410871671650329681484751382581387556752int);
    lemma_pow_mod_step(3int, 1645504557321206042154969182557350504982735865633579863348609023nat, m, 822752278660603021077484591278675252491367932816789931674304511nat, 52021679431932638667015100785869436886410871671650329681484751382581387556752int, 23371675463703623496784233117054899060968025220675318986210250218525308152187int, 60536753548722094499516651385356840391111585273211559269266645816290640412523int, 1int, 65818171408850088074978969147382613320064771153994113768342353440963086565906int);
    lemma_pow_mod_step(3int, 3291009114642412084309938365114701009965471731267159726697218047nat, m, 1645504557321206042154969182557350504982735865633579863348609023nat, 65818171408850088074978969147382613320064771153994113768342353440963086565906int, 37412155840165045309310788227379573955613965756596103424310529359022731296537int, 96842827793784613666149661152163685508431441903593240397095838507933397669805int, 2int, 58944304906721450151307013439115240818754356379498593112372347507982523666089int);
    lemma_pow_mod_step(3int, 6582018229284824168619876730229402019930943462534319453394436095nat, m, 3291009114642412084309938365114701009965471731267159726697218047nat, 58944304906721450151307013439115240818754356379498593112372347507982523666089int, 30005772448027003521040051663991861122460996371979428732988412428464282761281int, 79648830348924861806526364037651203007817104550372840720882603032360124275618int, 2int, 7362312572142194572437122095577793316911344319837394083732641081262703483528int);
    lemma_pow_mod_step(3int, 13164036458569648337239753460458804039861886925068638906788872191nat, m, 6582018229284824168619876730229402019930943462534319453394436095nat, 7362312572142194572437122095577793316911344319837394083732641081262703483528int, 468111826696835042126213807194729206187844528949457137539104166112415658363int, 105026925350908047124192220965671621217539755197049874833635051236629082259115int, 2int, 83496597578091750525434692879639047946079296259868496421989985694069577434019int);
    lemma_pow_mod_step(3int, 26328072917139296674479506920917608079723773850137277813577744383nat, m, 13164036458569648337239753460458804039861886925068638906788872191nat, 83496597578091750525434692879639047946079296259868496421989985694069577434019int, 60208619198754733058909952821825710845164435379680328327418187460842155808011int, 13137245549749845127182676262069467931347659639862929564858444376902648400068int, 0int, 39411736649249535381548028786208403794042978919588788694575333130707945200204int);
    lemma_pow_mod_step(3int, 52656145834278593348959013841835216159447547700274555627155488767nat, m, 26328072917139296674479506920917608079723773850137277813577744383nat, 39411736649249535381548028786208403794042978919588788694575333130707945200204int, 13414430950687289851866439366338538199024210618151360233991876379829267224493int, 110653695333391482245105177779471956516779820741241242301181686110898674999757int, 2int, 100376907525542055888173563321040053843799492892442598824629890316878355655945int);
    lemma_pow_mod_step(3int, 105312291668557186697918027683670432318895095400549111254310977535nat, m, 52656145834278593348959013841835216159447547700274555627155488767nat, 100376907525542055888173563321040053843799492892442598824629890316878355655945int, 87013919782908563134868349165370690865855333982223011932930618557398253595870int, 87964947521169616200476414832647976876056016069583529395785538148450671011215int, 2int, 32310664088876457754287274480568114921628078877469460108441446429534343690319int);
}

proof fn lemma_certificate_full_18()
    requires
        pow_mod(3int, 105312291668557186697918027683670432318895095400549111254310977535nat, 115792089237316195423570985008687907853269984665640564039457584007908834671663int) == 32310664088876457754287274480568114921628078877469460108441446429534343690319int,
    ensures
        pow_mod(3int, 431359146674410236714672241392314090778194310760649159697657763987439nat, 115792089237316195423570985008687907853269984665640564039457584007908834671663int) == 41590534959420003194111581758072708719459440916836390782199886857485422985903int,
{
    let m: int = 115792089237316195423570985008687907853269984665640564039457584007908834671663int;
    lemma_pow_mod_step(3int, 210624583337114373395836055367340864637790190801098222508621955071nat, m, 105312291668557186697918027683670432318895095400549111254310977535nat, 32310664088876457754287274480568114921628078877469460108441446429534343690319int, 9015978731712604004295130260016813444840684920337184110864498259389262660333int, 66959150254657885112842642961194773455217354204000245556602389943319425077982int, 1int, 85085361526657459914956943874896412512382077946360172630349585822049440562283int);
    lemma_pow_mod_step(3int, 421249166674228746791672110734681729275580381602196445017243910143nat, m, 210624583337114373395836055367340864637790190801098222508621955071nat, 85085361526657459914956943874896412512382077946360172630349585822049440562283int, 62521704149275590992042528489496724460717374500930433149991696587233180960508int, 84330423275381774958838463820343565539991581413914593682388821032508052487285int, 2int, 21407091351512934029373421443654880913434774910462652968251295081706488118529int);
    lemma_pow_mod_step(3int, 842498333348457493583344221469363458551160763204392890034487820287nat, m, 421249166674228746791672110734681729275580381602196445017243910143nat, 21407091351512934029373421443654880913434774910462652968251295081706488118529int, 3957641347957782063164746061839143607124437833501328142504019263880506759357int, 100256797278304830050029503208033966462968042674010190178862653915375105123150int, 2int, 69186213360282099302946539606726083682364158690749442457672793730307646026124int);
    lemma_pow_mod_step(3int, 1684996666696914987166688442938726917102321526408785780068975640575nat, m, 842498333348457493583344221469363458551160763204392890034487820287nat, 69186213360282099302946539606726083682364158690749442457672793730307646026124int, 41339025408929767405433626619983649688172990437734860077999219453382927099101int, 97841743665067447342937022487584528366248978873924530081856320001566492988413int, 2int, 61941052520569951181669097445377769392206967290492462166653791988881809621913int);
    lemma_pow_mod_step(3int, 3369993333393829974333376885877453834204643052817571560137951281151nat, m, 1684996666696914987166688442938726917102321526408785780068975640575nat, 61941052520569951181669097445377769392206967290492462166653791988881809621913int, 33134335969123853983467508401692968976259440244957231316387839895158842870233int, 59201309269941270621322454060048869729042112403936047975549008556130938472090int, 1int, 61811838572507616440396377171458701333856352546167579887189441660483980744607int);
    lemma_pow_mod_step(3int, 6739986666787659948666753771754907668409286105635143120275902562303nat, m, 3369993333393829974333376885877453834204643052817571560137951281151nat, 61811838572507616440396377171458701333856352546167579887189441660483980744607int, 32996238455316223171517642248832599139442290348642956346407584708788871407177int, 111195598278190481845421931554770176997147396071329728593235982421308582859098int, 2int, 102002616359939054689123824646934715284902218882708057700792779248108079233968int);
    lemma_pow_mod_step(3int, 13479973333575319897333507543509815336818572211270286240551805124607nat, m, 6739986666787659948666753771754907668409286105635143120275902562303nat, 102002616359939054689123824646934715284902218882708057700792779248108079233968int, 89855307152708738635627292803549862400717639494769001545871109875629595783308int, 66013505324472191907425608264854152513233568311986434407216508658974209023820int, 1int, 82248426736100380298705839785874549686430720270318739182191941969013792399797int);
    lemma_pow_mod_step(3int, 26959946667150639794667015087019630673637144422540572481103610249214nat, m, 13479973333575319897333507543509815336818572211270286240551805124607nat, 82248426736100380298705839785874549686430720270318739182191941969013792399797int, 58421985000194518017933031557294826108787820297292708785764372621504614423290int, 94954889311071594046208559263246233213951223233604228799367845417979035409939int, 0int, 94954889311071594046208559263246233213951223233604228799367845417979035409939int);
    lemma_pow_mod_step(3int, 53919893334301279589334030174039261347274288845081144962207220498429nat, m, 26959946667150639794667015087019630673637144422540572481103610249214nat, 94954889311071594046208559263246233213951223233604228799367845417979035409939int, 77867417916595831488655471662382399379923943433904105974021916878334849492016int, 52697058212439615309134194380173137429060977113975769124138488681542080041113int, 1int, 42299085400002650503831598131831504433912946676286743332957882036717405451676int);
    lemma_pow_mod_step(3int, 107839786668602559178668060348078522694548577690162289924414440996859nat, m, 53919893334301279589334030174039261347274288845081144962207220498429nat, 42299085400002650503831598131831504433912946676286743332957882036717405451676int, 15451941816247233816100119553951808408811768326091217364984841492292819331292int, 16716829400782643508586712889840457770343744308114388808786317715101529630380int, 0int, 50150488202347930525760138669521373311031232924343166426358953145304588891140int);
    lemma_pow_mod_step(3int, 215679573337205118357336120696157045389097155380324579848828881993719nat, m, 107839786668602559178668060348078522694548577690162289924414440996859nat, 50150488202347930525760138669521373311031232924343166426358953145304588891140int, 21720581116549277311078532131355836877693490256903689180780174437512860509207int, 105970969318397198437765072894357200568290215807597319181439919531831936998359int, 2int, 86328729480559204466153248665695785998330678091510829465404590579678141651751int);
    lemma_pow_mod_step(3int, 431359146674410236714672241392314090778194310760649159697657763987439nat, m, 215679573337205118357336120696157045389097155380324579848828881993719nat, 86328729480559204466153248665695785998330678091510829465404590579678141651751int, 64362337555317331008423953919346744309783871372204954803769514479843938398900int, 13863511653140001064703860586024236239819813638945463594066628952495140995301int, 0int, 41590534959420003194111581758072708719459440916836390782199886857485422985903int);
}

proof fn lemma_certificate_full_19()
    requires
        pow_mod(3int, 431359146674410236714672241392314090778194310760649159697657763987439nat, 115792089237316195423570985008687907853269984665640564039457584007908834671663int) == 41590534959420003194111581758072708719459440916836390782199886857485422985903int,
    ensures
        pow_mod(3int, 1766847064778384329583297500742918515827483896875618958121606201292554239nat, 115792089237316195423570985008687907853269984665640564039457584007908834671663int) == 86863675978851922042085250430643621153089980560023508434018614284414697133860int,
{
    let m: int = 115792089237316195423570985008687907853269984665640564039457584007908834671663int;
    lemma_pow_mod_step(3int, 862718293348820473429344482784628181556388621521298319395315527974879nat, m, 431359146674410236714672241392314090778194310760649159697657763987439nat, 41590534959420003194111581758072708719459440916836390782199886857485422985903int, 14938607720131587725907087881447445571051376820955420824511190781303648571011int, 82045374733379182947408474122299277518177062198378604995756119769262811764116int, 2int, 14551945725505157995083452349522016847991217263854686908353191291970765949022int);
    lemma_pow_mod_step(3int, 1725436586697640946858688965569256363112777243042596638790631055949759nat, m, 862718293348820473429344482784628181556388621521298319395315527974879nat, 14551945725505157995083452349522016847991217263854686908353191291970765949022int, 1828787491380753562417952099562660497063043707347290136018118950353363065572int, 86768778905622386878215293634380945505392411736202598240710836053624543470248int, 2int, 28722158242234769787503910885767020809637265877326666643217340145055961067418int);
    lemma_pow_mod_step(3int, 3450873173395281893717377931138512726225554486085193277581262111899519nat, m, 1725436586697640946858688965569256363112777243042596638790631055949759nat, 28722158242234769787503910885767020809637265877326666643217340145055961067418int, 7124514114269172021746827894884518631551907898128129798316774460828010905691int, 103570964754602818142759783286151682173584238630322732378461401862498698052591int, 2int, 79128715789176063581137379841079230814212746559687069056469037571678424814447int);
    lemma_pow_mod_step(3int, 6901746346790563787434755862277025452451108972170386555162524223799039nat, m, 3450873173395281893717377931138512726225554486085193277581262111899519nat, 79128715789176063581137379841079230814212746559687069056469037571678424814447int, 54074105611926046587790633649314807866939787257039857120715410194187129442211int, 4223313417281633470054485782709426139291378502031971950946228062131862148916int, 0int, 12669940251844900410163457348128278417874135506095915852838684186395586446748int);
    lemma_pow_mod_step(3int, 13803492693581127574869511724554050904902217944340773110325048447598079nat, m, 6901746346790563787434755862277025452451108972170386555162524223799039nat, 12669940251844900410163457348128278417874135506095915852838684186395586446748int, 1386341563077925929155028205437478399602321933054664972783816368867544176872int, 49370196736649517204339722275470227772400031827894685525020197878096521397368int, 1int, 32318500972632356189448181817722775463930110818043492535603009626380729520441int);
    lemma_pow_mod_step(3int, 27606985387162255149739023449108101809804435888681546220650096895196159nat, m, 13803492693581127574869511724554050904902217944340773110325048447598079nat, 32318500972632356189448181817722775463930110818043492535603009626380729520441int, 9020352875552342157216908990019873497401169100866144508107617165982569247793int, 46634474156131564074369663277362916299100796690992890469360756217121794444722int, 1int, 24111333231078496799538004823400841044032405407338107368624684643456548662503int);
    lemma_pow_mod_step(3int, 55213970774324510299478046898216203619608871777363092441300193790392319nat, m, 27606985387162255149739023449108101809804435888681546220650096895196159nat, 24111333231078496799538004823400841044032405407338107368624684643456548662503int, 5020691776176684692395523014228679702252740053035528815695017190588657959843int, 80710598591200936205697479225022905022861960867325696463876082564553854196100int, 2int, 10547617298970417769950467657692899362045913270695961312713079677843893244974int);
    lemma_pow_mod_step(3int, 110427941548649020598956093796432407239217743554726184882600387580784639nat, m, 55213970774324510299478046898216203619608871777363092441300193790392319nat, 10547617298970417769950467657692899362045913270695961312713079677843893244974int, 960793016330573914190850096750041071616557928210050375430385666215174666574int, 79168213537972706996029327936877627453106888659847146795289733686770785168114int, 2int, 5920462139285730140946013793257066652780696648260312306954033044494686161016int);
    lemma_pow_mod_step(3int, 220855883097298041197912187592864814478435487109452369765200775161569279nat, m, 110427941548649020598956093796432407239217743554726184882600387580784639nat, 5920462139285730140946013793257066652780696648260312306954033044494686161016int, 302713874268879105726696476988319611274525153482173505237848291093728974460int, 70132747160397732753974573548608568253963354159890327072069342427084065425276int, 1int, 94606152243877002838352735637137796908620077814030417176750443273343361604165int);
    lemma_pow_mod_step(3int, 441711766194596082395824375185729628956870974218904739530401550323138559nat, m, 220855883097298041197912187592864814478435487109452369765200775161569279nat, 94606152243877002838352735637137796908620077814030417176750443273343361604165int, 77296507052808423603373598384893041596073490917521315956200727462231901423239int, 59835299036017659561278750458281037220345844222149666447141353478163182370768int, 1int, 63713807870736783260265266366155203807767548000808435301966476426580712440641int);
    lemma_pow_mod_step(3int, 883423532389192164791648750371459257913741948437809479060803100646277119nat, m, 441711766194596082395824375185729628956870974218904739530401550323138559nat, 63713807870736783260265266366155203807767548000808435301966476426580712440641int, 35058088511291201307810053482581989601557119519462663961898257455992494685321int, 102177621147098040189783413099121985343792279814294971764960756474243407732058int, 2int, 74948684966661729722208269279990140324836870111603787215967101406912553852848int);
    lemma_pow_mod_step(3int, 1766847064778384329583297500742918515827483896875618958121606201292554239nat, m, 883423532389192164791648750371459257913741948437809479060803100646277119nat, 74948684966661729722208269279990140324836870111603787215967101406912553852848int, 48511996071849292104461435581080790299798649948576941552152040504636044001868int, 28954558659617307347361750143547873717696660186674502811339538094804899044620int, 0int, 86863675978851922042085250430643621153089980560023508434018614284414697133860int);
}

proof fn lemma_certificate_full_20()
    requires
        pow_mod(3int, 1766847064778384329583297500742918515827483896875618958121606201292554239nat, 115792089237316195423570985008687907853269984665640564039457584007908834671663int) == 86863675978851922042085250430643621153089980560023508434018614284414697133860int,
    ensures
        pow_mod(3int, 7237005577332262213973186563042994240829374041602535252466099000494302166978nat, 115792089237316195423570985008687907853269984665640564039457584007908834671663int) == 6099752907902598855186509798543082205652571479031389638685532441804606467364int,
{
    let m: int = 115792089237316195423570985008687907853269984665640564039457584007908834671663int;
    lemma_pow_mod_step(3int, 3533694129556768659166595001485837031654967793751237916243212402585108479nat, m, 1766847064778384329583297500742918515827483896875618958121606201292554239nat, 86863675978851922042085250430643621153089980560023508434018614284414697133860int, 65162467093022802637227931647349733076314345989480564680805124461541604930800int, 67761723037701422155442251938342408205010793326097015959849921614018922579200int, 1int, 87493079875788071042755770806339316761762395312650483840092180834147933065937int);
    lemma_pow_mod_step(3int, 7067388259113537318333190002971674063309935587502475832486424805170216959nat, m, 3533694129556768659166595001485837031654967793751237916243212402585108479nat, 87493079875788071042755770806339316761762395312650483840092180834147933065937int, 66110207325666338568406037668289876788417591924510961244924735711548691591972int, 18285373381535449283908584140549908904255272578493984248220902882399402998533int, 0int, 54856120144606347851725752421649726712765817735481952744662708647198208995599int);
    lemma_pow_mod_step(3int, 14134776518227074636666380005943348126619871175004951664972849610340433919nat, m, 7067388259113537318333190002971674063309935587502475832486424805170216959nat, 54856120144606347851725752421649726712765817735481952744662708647198208995599int, 25987905884936020199999751076055100357385837419367923655077077618661860516165int, 88210915229443209077946260189174316924215562362508182933584398257842922436406int, 2int, 33048567213697236386696810550147135066106717756243420721838026757711097965892int);
    lemma_pow_mod_step(3int, 28269553036454149273332760011886696253239742350009903329945699220680867839nat, m, 14134776518227074636666380005943348126619871175004951664972849610340433919nat, 33048567213697236386696810550147135066106717756243420721838026757711097965892int, 9432490613756706027839244466890648500826265407751177752950577039739195557908int, 23246285686604295867693294992755948261562299347049368167297586204674712194660int, 0int, 69738857059812887603079884978267844784686898041148104501892758614024136583980int);
    lemma_pow_mod_step(3int, 56539106072908298546665520023773392506479484700019806659891398441361735679nat, m, 28269553036454149273332760011886696253239742350009903329945699220680867839nat, 69738857059812887603079884978267844784686898041148104501892758614024136583980int, 42002076446183131319929285918828717751484852528041841041913640994786585356207int, 46025773423067233780787045975261335094892088273959058570497003711910848578159int, 1int, 22285231031885505918790152917096097431406280156236611672033427127823711062814int);
    lemma_pow_mod_step(3int, 113078212145816597093331040047546785012958969400039613319782796882723471359nat, m, 56539106072908298546665520023773392506479484700019806659891398441361735679nat, 22285231031885505918790152917096097431406280156236611672033427127823711062814int, 4288993535013131190640219805887254606848257072558061504077144738092183153136int, 48297368605167258802382513061977708339982027199727695550074124798952844813428int, 1int, 29100016578185580983576554177245217166676096933542522610764790388949699768621int);
    lemma_pow_mod_step(3int, 226156424291633194186662080095093570025917938800079226639565593765446942718nat, m, 113078212145816597093331040047546785012958969400039613319782796882723471359nat, 29100016578185580983576554177245217166676096933542522610764790388949699768621int, 7313202226752592058903094496567409926530456306981804771866753869583030286968int, 37288097280282374642102299771586338196871719912357661262953906065633988453857int, 0int, 37288097280282374642102299771586338196871719912357661262953906065633988453857int);
    lemma_pow_mod_step(3int, 452312848583266388373324160190187140051835877600158453279131187530893885436nat, m, 226156424291633194186662080095093570025917938800079226639565593765446942718nat, 37288097280282374642102299771586338196871719912357661262953906065633988453857int, 12007747748070844576179865310022636824805897535987215380156966728836084367881int, 99801777202535964693565402352400197264468006384428118010463275237293880120346int, 0int, 99801777202535964693565402352400197264468006384428118010463275237293880120346int);
    lemma_pow_mod_step(3int, 904625697166532776746648320380374280103671755200316906558262375061787770872nat, m, 452312848583266388373324160190187140051835877600158453279131187530893885436nat, 99801777202535964693565402352400197264468006384428118010463275237293880120346int, 86019647787602932546155801448071971760171006852775220930653415981037475540455int, 108638533178553463383225978502730686309224034993671618925688249045766044533051int, 0int, 108638533178553463383225978502730686309224034993671618925688249045766044533051int);
    lemma_pow_mod_step(3int, 1809251394333065553493296640760748560207343510400633813116524750123575541744nat, m, 904625697166532776746648320380374280103671755200316906558262375061787770872nat, 108638533178553463383225978502730686309224034993671618925688249045766044533051int, 101926918919294677123868999425867242161873812180128571810609873929837250699643int, 54172588657466400436840403351024541918683221249145878643808951069661695052292int, 0int, 54172588657466400436840403351024541918683221249145878643808951069661695052292int);
    lemma_pow_mod_step(3int, 3618502788666131106986593281521497120414687020801267626233049500247151083489nat, m, 1809251394333065553493296640760748560207343510400633813116524750123575541744nat, 54172588657466400436840403351024541918683221249145878643808951069661695052292int, 25344299262417181410767675936724778035950409095126834832498721003081280348366int, 95739366898864289606809246183444307633197385209092277284601323252844745900606int, 2int, 55633922221960477973285768532957107193052186295995703774888801742716568358492int);
    lemma_pow_mod_step(3int, 7237005577332262213973186563042994240829374041602535252466099000494302166978nat, m, 3618502788666131106986593281521497120414687020801267626233049500247151083489nat, 55633922221960477973285768532957107193052186295995703774888801742716568358492int, 26730092894823444608943224044026805420730834756199138294767720267003808850900int, 6099752907902598855186509798543082205652571479031389638685532441804606467364int, 0int, 6099752907902598855186509798543082205652571479031389638685532441804606467364int);
}

proof fn lemma_certificate_full_21()
    requires
        pow_mod(3int, 7237005577332262213973186563042994240829374041602535252466099000494302166978nat, 115792089237316195423570985008687907853269984665640564039457584007908834671663int) == 6099752907902598855186509798543082205652571479031389638685532441804606467364int,
    ensures
        pow_mod(3int, 115792089237316195423570985008687907853269984665640564039457584007908834671662nat, 115792089237316195423570985008687907853269984665640564039457584007908834671663int) == 1int,
{
    let m: int = 115792089237316195423570985008687907853269984665640564039457584007908834671663int;
    lemma_pow_mod_step(3int, 14474011154664524427946373126085988481658748083205070504932198000988604333957nat, m, 7237005577332262213973186563042994240829374041602535252466099000494302166978nat, 6099752907902598855186509798543082205652571479031389638685532441804606467364int, 321325798528519462440505173318222183104498120955455654454636890109403518017int, 34513450244938382395125510360409891999709452806720679176668365807218297256225int, 0int, 103540350734815147185376531081229675999128358420162037530005097421654891768675int);
    lemma_pow_mod_step(3int, 28948022309329048855892746252171976963317496166410141009864396001977208667915nat, m, 14474011154664524427946373126085988481658748083205070504932198000988604333957nat, 103540350734815147185376531081229675999128358420162037530005097421654891768675int, 92584945145230333087245890295243102926709396523910541322040425434135539241157int, 51974588321102354597742679897314874864175335433202930194858988452895440021534int, 1int, 40131675725990868369657054683256716739256021633968226545119381350777485392939int);
    lemma_pow_mod_step(3int, 57896044618658097711785492504343953926634992332820282019728792003954417335831nat, m, 28948022309329048855892746252171976963317496166410141009864396001977208667915nat, 40131675725990868369657054683256716739256021633968226545119381350777485392939int, 13908993327473825203831769132986956383156013575794157097530737311096806239409int, 38597363079105398474523661669562635951089994888546854679819194669302944890554int, 0int, 115792089237316195423570985008687907853269984665640564039457584007908834671662int);
    lemma_pow_mod_step(3int, 115792089237316195423570985008687907853269984665640564039457584007908834671662nat, m, 57896044618658097711785492504343953926634992332820282019728792003954417335831nat, 115792089237316195423570985008687907853269984665640564039457584007908834671662int, 115792089237316195423570985008687907853269984665640564039457584007908834671661int, 1int, 0int, 1int);
}

proof fn lemma_certificate_full()
    ensures
        pow_mod(3int, 115792089237316195423570985008687907853269984665640564039457584007908834671662nat, 115792089237316195423570985008687907853269984665640564039457584007908834671663int) == 1int,
{
    lemma_pow_mod_zero(3int, 115792089237316195423570985008687907853269984665640564039457584007908834671663int);
    lemma_certificate_full_0();
    lemma_certificate_full_1();
    lemma_certificate_full_2();
    lemma_certificate_full_3();
    lemma_certificate_full_4();
    lemma_certificate_full_5();
    lemma_certificate_full_6();
    lemma_certificate_full_7();
    lemma_certificate_full_8();
    lemma_certificate_full_9();
    lemma_certificate_full_10();
    lemma_certificate_full_11();
    lemma_certificate_full_12();
    lemma_certificate_full_13();
    lemma_certificate_full_14();
    lemma_certificate_full_15();
    lemma_certificate_full_16();
    lemma_certificate_full_17();
    lemma_certificate_full_18();
    lemma_certificate_full_19();
    lemma_certificate_full_20();
    lemma_certificate_full_21();
}

proof fn lemma_certificate_2_0()
    requires
        pow_mod(3int, 0nat, 115792089237316195423570985008687907853269984665640564039457584007908834671663int) == 1int,
    ensures
        pow_mod(3int, 4095nat, 115792089237316195423570985008687907853269984665640564039457584007908834671663int) == 71794643963318715608036218650039624470150179724278081743813392558837613215256int,
{
    let m: int = 115792089237316195423570985008687907853269984665640564039457584007908834671663int;
    lemma_pow_mod_step(3int, 1nat, m, 0nat, 1int, 0int, 1int, 0int, 3int);
    lemma_pow_mod_step(3int, 3nat, m, 1nat, 3int, 0int, 9int, 0int, 27int);
    lemma_pow_mod_step(3int, 7nat, m, 3nat, 27int, 0int, 729int, 0int, 2187int);
    lemma_pow_mod_step(3int, 15nat, m, 7nat, 2187int, 0int, 4782969int, 0int, 14348907int);
    lemma_pow_mod_step(3int, 31nat, m, 15nat, 14348907int, 0int, 205891132094649int, 0int, 617673396283947int);
    lemma_pow_mod_step(3int, 63nat, m, 31nat, 617673396283947int, 0int, 381520424476945831628649898809int, 0int, 1144561273430837494885949696427int);
    lemma_pow_mod_step(3int, 127nat, m, 63nat, 1144561273430837494885949696427int, 0int, 1310020508637620352391208095712502073964245732475093456566329int, 0int, 3930061525912861057173624287137506221892737197425280369698987int);
    lemma_pow_mod_step(3int, 255nat, m, 127nat, 3930061525912861057173624287137506221892737197425280369698987int, 133388936145760104777638573390988643975295825int, 48632648522209772227535623232429807907145229312589679828706064700863819119194int, 1int, 30105856329313121259035884688601515868165703272128475446660610094682622685919int);
    lemma_pow_mod_step(3int, 511nat, m, 255nat, 30105856329313121259035884688601515868165703272128475446660610094682622685919int, 7827500058865423784431055736725571792703013582103854479767514463954614458397int, 100535628316737939349233454235156387533659299282276579718710327493279652570350int, 2int, 70022706475581427200558392688093346894437928515548611077215814464021288367724int);
    lemma_pow_mod_step(3int, 1023nat, m, 511nat, 70022706475581427200558392688093346894437928515548611077215814464021288367724int, 42344683945691262618320013676395269283138749779292983567346718747241969089484int, 76652050534173032939976926645341549149912954782833867693741167829566038848284int, 1int, 114164062365202903396359794927336739596468879682861039041765919480789281873189int);
    lemma_pow_mod_step(3int, 2047nat, m, 1023nat, 114164062365202903396359794927336739596468879682861039041765919480789281873189int, 112558925411682330090367978592981142608936078028717296281102128158231794507543int, 59658399785745313184189224723958963060551671566665259697397982073607495175712int, 1int, 63183110119919744128996689163188981328385030034355215052736362212913650855473int);
    lemma_pow_mod_step(3int, 4095nat, m, 2047nat, 63183110119919744128996689163188981328385030034355215052736362212913650855473int, 34476495162325589616635983996507021265700851669899055016530280992218106476279int, 23931547987772905202678739550013208156716726574759360581271130852945871071752int, 0int, 71794643963318715608036218650039624470150179724278081743813392558837613215256int);
}

proof fn lemma_certificate_2_1()
    requires
        pow_mod(3int, 4095nat, 115792089237316195423570985008687907853269984665640564039457584007908834671663int) == 71794643963318715608036218650039624470150179724278081743813392558837613215256int,
    ensures
        pow_mod(3int, 16777215nat, 115792089237316195423570985008687907853269984665640564039457584007908834671663int) == 86834616403750454157707013149197216848520551420916026383321092385081804250890int,
{
    let m: int = 115792089237316195423570985008687907853269984665640564039457584007908834671663int;
    lemma_pow_mod_step(3int, 8191nat, m, 4095nat, 71794643963318715608036218650039624470150179724278081743813392558837613215256int, 44514879520444567202232473549572599027653725417818497880462169761355019667409int, 19791980669162483800481038152285247170205410879138586979486934797928214214369int, 0int, 59375942007487451401443114456855741510616232637415760938460804393784642643107int);
    lemma_pow_mod_step(3int, 16383nat, m, 8191nat, 59375942007487451401443114456855741510616232637415760938460804393784642643107int, 30446833738797010690000992015999181851684192788268774421909400340637870724929int, 86851571143676277961433159851353748533052845762100569496491408706651470626522int, 2int, 28970534956396443037157509536685429892618567955020580410559058104136742536240int);
    lemma_pow_mod_step(3int, 32767nat, m, 16383nat, 28970534956396443037157509536685429892618567955020580410559058104136742536240int, 7248266277842670920235624063782673617252984437239717685489195864607180534870int, 19985685592159712473153202903383702066649925103808665719287751166606540948790int, 0int, 59957056776479137419459608710151106199949775311425997157863253499819622846370int);
    lemma_pow_mod_step(3int, 65535nat, m, 32767nat, 59957056776479137419459608710151106199949775311425997157863253499819622846370int, 31045718934479979468891113670100180502855734806888103666267304818852009433119int, 102469889729389362531460773485342167410455133529291993947571293982175499170003int, 2int, 75825490713535696747240350438650686524825431256594853763798713930708828166683int);
    lemma_pow_mod_step(3int, 131071nat, m, 65535nat, 75825490713535696747240350438650686524825431256594853763798713930708828166683int, 49653694650632499450141006669276592821070265078344534530181379333183052719844int, 31344596135185847498747667066577448702759243121837050108245824039741966641917int, 0int, 94033788405557542496243001199732346108277729365511150324737472119225899925751int);
    lemma_pow_mod_step(3int, 262143nat, m, 131071nat, 94033788405557542496243001199732346108277729365511150324737472119225899925751int, 76364054057084515802414817287977828331060162732928711068159544216741379659288int, 6013235248750741379483204310314786507238003831203628190915951741671024558057int, 0int, 18039705746252224138449612930944359521714011493610884572747855225013073674171int);
    lemma_pow_mod_step(3int, 524287nat, m, 262143nat, 18039705746252224138449612930944359521714011493610884572747855225013073674171int, 2810476825790696697532073514608142463076069431403681828142639417109182455384int, 106688359649307371013707629297449618575359452391180947518295722757051685953649int, 2int, 88480900473289722193980917874973040019538387842261714475972000255337388517621int);
    lemma_pow_mod_step(3int, 1048575nat, m, 524287nat, 88480900473289722193980917874973040019538387842261714475972000255337388517621int, 67611438744480307069994100323437035928028916028804534170923318154932715240078int, 55132174819467071152129618117507866148401265662430216511579546913130478989927int, 1int, 49604435221085018032817869343835690591933812321650085495281056731482602298118int);
    lemma_pow_mod_step(3int, 2097151nat, m, 1048575nat, 49604435221085018032817869343835690591933812321650085495281056731482602298118int, 21250156291418264494808670535556113132121388835713109800952788740433406413448int, 20175744568412475537416602523453252934716426055687947344137266446123438617900int, 0int, 60527233705237426612249807570359758804149278167063842032411799338370315853700int);
    lemma_pow_mod_step(3int, 4194303nat, m, 2097151nat, 60527233705237426612249807570359758804149278167063842032411799338370315853700int, 31639000938138202597572671756945581680979984344015422226967980810572197891330int, 106778504205035081797508965023107734577897840563156067974063503668398299308210int, 2int, 88751334140472854545384925051947388027153552358187075843275342989377228581304int);
    lemma_pow_mod_step(3int, 8388607nat, m, 4194303nat, 88751334140472854545384925051947388027153552358187075843275342989377228581304int, 68025366530612823694504866420495517264837603202986776620881485665765701984783int, 4726836644495083502529471698338833190841957203870979327576269556663311036287int, 0int, 14180509933485250507588415095016499572525871611612937982728808669989933108861int);
    lemma_pow_mod_step(3int, 16777215nat, m, 8388607nat, 14180509933485250507588415095016499572525871611612937982728808669989933108861int, 1736620034219659033507685985410179594713837015785573593561672765815111283690int, 67542235213688883193759332719295041567263512028852196807592892130996879640851int, 1int, 86834616403750454157707013149197216848520551420916026383321092385081804250890int);
}

proof fn lemma_certificate_2_2()
    requires
        pow_mod(3int, 16777215nat, 115792089237316195423570985008687907853269984665640564039457584007908834671663int) == 86834616403750454157707013149197216848520551420916026383321092385081804250890int,
    ensures
        pow_mod(3int, 68719476735nat, 115792089237316195423570985008687907853269984665640564039457584007908834671663int) == 86162957004982090191697274328588457603873929354743341831586593709543990342057int,
{
    let m: int = 115792089237316195423570985008687907853269984665640564039457584007908834671663int;
    lemma_pow_mod_step(3int, 33554431nat, m, 16777215nat, 86834616403750454157707013149197216848520551420916026383321092385081804250890int, 65118875180952333868236910676654769786552180917929092484410725296056948356385int, 36940341760565670264029775485154745558888579534734892190191418043765081173845int, 0int, 110821025281697010792089326455464236676665738604204676570574254131295243521535int);
    lemma_pow_mod_step(3int, 67108863nat, m, 33554431nat, 110821025281697010792089326455464236676665738604204676570574254131295243521535int, 106063373805407135239582287101649650650104166796618658830647714098671785869786int, 13827189500739414953714847551564037513786440779656508487564551307585826682107int, 0int, 41481568502218244861144542654692112541359322338969525462693653922757480046321int);
    lemma_pow_mod_step(3int, 134217727nat, m, 67108863nat, 41481568502218244861144542654692112541359322338969525462693653922757480046321int, 14860432493601557707360040193886020134295087287813468407325506744758651963160int, 109179987943055513608774671651380418811610719432998462313392077261455333699961int, 2int, 95955785354534149979182044936765440728292188967714258861261063768548331756557int);
    lemma_pow_mod_step(3int, 268435455nat, m, 134217727nat, 95955785354534149979182044936765440728292188967714258861261063768548331756557int, 79517632021774894883497784894338647870277306664048147915202888283050305530567int, 35295965588086219758984220705768573774271130896501730296922891847192657271328int, 0int, 105887896764258659276952662117305721322813392689505190890768675541577971813984int);
    lemma_pow_mod_step(3int, 536870911nat, m, 268435455nat, 105887896764258659276952662117305721322813392689505190890768675541577971813984int, 96830852219781353084540531488881623339289240261938813838150828632591894944297int, 39643621652471597755524293669088461296066288224385503157359387993801828596345int, 1int, 3138775720098597843001895998577476034928880007515945432620579973496651117372int);
    lemma_pow_mod_step(3int, 1073741823nat, m, 536870911nat, 3138775720098597843001895998577476034928880007515945432620579973496651117372int, 85082781440180679734418394630248658495012074766089117617740936882969284416int, 47001557516258140860381776420528884732176730622649828112110183128126697482576int, 1int, 25212583311458227157574344252898746343260207202308920296872965376471257776065int);
    lemma_pow_mod_step(3int, 2147483647nat, m, 1073741823nat, 25212583311458227157574344252898746343260207202308920296872965376471257776065int, 5489790895251968505037203893643162202502398033436563083303418338543392118662int, 4070610888617576403718644553805236102472148104092822089902749905288982009319int, 0int, 12211832665852729211155933661415708307416444312278466269708249715866946027957int);
    lemma_pow_mod_step(3int, 4294967295nat, m, 2147483647nat, 12211832665852729211155933661415708307416444312278466269708249715866946027957int, 1287901945988277188742688806685965672586062702253686747987667259509935581192int, 24838778409961679863161855571355241647442228726669811247733465337507027431553int, 0int, 74516335229885039589485566714065724942326686180009433743200396012521082294659int);
    lemma_pow_mod_step(3int, 8589934591nat, m, 4294967295nat, 74516335229885039589485566714065724942326686180009433743200396012521082294659int, 47953916823388212641530320306023478084498763156259501294366189176213031963735int, 65907739664734391549600822720986960954560738411475900190416416975266051784976int, 1int, 81931129756886979225231483154272975010412230568787136531791666917889320683265int);
    lemma_pow_mod_step(3int, 17179869183nat, m, 8589934591nat, 81931129756886979225231483154272975010412230568787136531791666917889320683265int, 57972095222171300153888325272790331384744109951781541657134249865982947667696int, 90027692899338059074410883394468319367278137597667454248309231493520659361777int, 2int, 38498900223381786376090680166029142395294443461721234666012526464744308742005int);
    lemma_pow_mod_step(3int, 34359738367nat, m, 17179869183nat, 38498900223381786376090680166029142395294443461721234666012526464744308742005int, 12800229516303176735768289524152399513116298598612306243986020074916898711101int, 48851670856301231524524564527513207608906468361798376210260080244360423189062int, 1int, 30762923331587499150002708573851714973449420419754564591322656725172434895523int);
    lemma_pow_mod_step(3int, 68719476735nat, m, 34359738367nat, 30762923331587499150002708573851714973449420419754564591322656725172434895523int, 8172902468022391399290496343063645573106686221666957204531847457089710657103int, 67318348747432761871756086445758788485714638006794635290348059239150941671240int, 1int, 86162957004982090191697274328588457603873929354743341831586593709543990342057int);
}

proof fn lemma_certificate_2_3()
    requires
        pow_mod(3int, 68719476735nat, 115792089237316195423570985008687907853269984665640564039457584007908834671663int) == 86162957004982090191697274328588457603873929354743341831586593709543990342057int,
    ensures
        pow_mod(3int, 281474976710655nat, 115792089237316195423570985008687907853269984665640564039457584007908834671663int) == 9268648008456855242032908117486629602634535701776722809744351795517031050940int,
{
    let m: int = 115792089237316195423570985008687907853269984665640564039457584007908834671663int;
    lemma_pow_mod_step(3int, 137438953471nat, m, 68719476735nat, 86162957004982090191697274328588457603873929354743341831586593709543990342057int, 64115391722717528778777370679176251423899724560444374043818961801517673434388int, 61686600721631662462250106160561756130747484011772490792147787527616309644005int, 1int, 69267712927578791963179333472997360538972467369676908336985778574940094260352int);
    lemma_pow_mod_step(3int, 274877906943nat, m, 137438953471nat, 69267712927578791963179333472997360538972467369676908336985778574940094260352int, 41436475374271202679871551872261274290209322689174621793332324874569620851942int, 78012590824431215370072498150155920341856427707653480554232697439668053244358int, 2int, 2453593998661255263075524433091945319029313791679313583782924303186490389748int);
    lemma_pow_mod_step(3int, 549755813887nat, m, 274877906943nat, 2453593998661255263075524433091945319029313791679313583782924303186490389748int, 51990801357148576174251100805679406560495777122812535744011595867075586460int, 5935494275173543241065557434284768689903310843170591709521123123983675020524int, 0int, 17806482825520629723196672302854306069709932529511775128563369371951025061572int);
    lemma_pow_mod_step(3int, 1099511627775nat, m, 549755813887nat, 17806482825520629723196672302854306069709932529511775128563369371951025061572int, 2738277137099786125129617719452764444882644606554843370695853445070968424323int, 41145933332972687912114600509213772846866249253035772666720894247992223052035int, 1int, 7645710761601868312772816518953410687328763093466753960705098736067834484442int);
    lemma_pow_mod_step(3int, 2199023255551nat, m, 1099511627775nat, 7645710761601868312772816518953410687328763093466753960705098736067834484442int, 504843581587573423313351244990407925382323143032341517699064604302767606706int, 55826114571303002535818737901611201896249522555380324025070882078672113079286int, 1int, 51686254476592812183885228696145697835478583000500408035755062228107504566195int);
    lemma_pow_mod_step(3int, 4398046511103nat, m, 2199023255551nat, 51686254476592812183885228696145697835478583000500408035755062228107504566195int, 23071255725802890427774060716110991352828467164653296862272551289126398841606int, 104071323164005463737832327275850604197415042221528011277547728114202583167247int, 2int, 80629791017384000366355011810175996885705157333302905753728016326790080158415int);
    lemma_pow_mod_step(3int, 8796093022207nat, m, 4398046511103nat, 80629791017384000366355011810175996885705157333302905753728016326790080158415int, 56145141195119697105762101681150170231226352850445352666375354417204554765722int, 113634188093023435752824526845116626553268775896350716380421966434015738176539int, 2int, 109318385804437916411331610517974063953266358357771021062350731286229545186291int);
    lemma_pow_mod_step(3int, 17592186044415nat, m, 8796093022207nat, 109318385804437916411331610517974063953266358357771021062350731286229545186291int, 103206614144385393595669965402401125625864177403349753454269909267235255119150int, 200376946755221219908721355615909754264957476895304696121548960639700690231int, 0int, 601130840265663659726164066847729262794872430685914088364646881919102070693int);
    lemma_pow_mod_step(3int, 35184372088831nat, m, 17592186044415nat, 601130840265663659726164066847729262794872430685914088364646881919102070693int, 3120751076335604115648382610496589560792550310144479603547896624952095519int, 25015001365399555827581766845522034057813126155110564279773165201046190922152int, 0int, 75045004096198667482745300536566102173439378465331692839319495603138572766456int);
    lemma_pow_mod_step(3int, 70368744177663nat, m, 35184372088831nat, 75045004096198667482745300536566102173439378465331692839319495603138572766456int, 48636765057897718211806352129405410377693375011358515719602890947087649626943int, 23782194090870905631711289185852886040354224029469039416045942153143275383727int, 0int, 71346582272612716895133867557558658121062672088407118248137826459429826151181int);
    lemma_pow_mod_step(3int, 140737488355327nat, m, 70368744177663nat, 71346582272612716895133867557558658121062672088407118248137826459429826151181int, 43960989351785858658260023143834573900557568313952040665157488492390924393565int, 72190797107640352520226877157092686152327580539264834122177956375367702646166int, 1int, 100780302085604862137109646462590150603712756952153938327076285118194273266835int);
    lemma_pow_mod_step(3int, 281474976710655nat, m, 140737488355327nat, 100780302085604862137109646462590150603712756952153938327076285118194273266835int, 87714707933541564791554467135509025962708933876702640765402151597886580759781int, 80284275494363082029724959378287481769724835011019283629553173270444900131422int, 2int, 9268648008456855242032908117486629602634535701776722809744351795517031050940int);
}

proof fn lemma_certificate_2_4()
    requires
        pow_mod(3int, 281474976710655nat, 115792089237316195423570985008687907853269984665640564039457584007908834671663int) == 9268648008456855242032908117486629602634535701776722809744351795517031050940int,
    ensures
        pow_mod(3int, 1152921504606846975nat, 115792089237316195423570985008687907853269984665640564039457584007908834671663int) == 84239174201391406898242033883099101104077176184154066192966987209607966276529int,
{
    let m: int = 115792089237316195423570985008687907853269984665640564039457584007908834671663int;
    lemma_pow_mod_step(3int, 562949953421311nat, m, 281474976710655nat, 9268648008456855242032908117486629602634535701776722809744351795517031050940int, 741914551076135178211173192574773434577969141546541647038588157865943072345int, 9133776265108009797773074973597379587975036713206081785481612896603344423865int, 0int, 27401328795324029393319224920792138763925110139618245356444838689810033271595int);
    lemma_pow_mod_step(3int, 1125899906842623nat, m, 562949953421311nat, 27401328795324029393319224920792138763925110139618245356444838689810033271595int, 6484318788053128216919247130032225351330824142889876326939112963217689884557int, 47691550927164108208511239161917537533239358698642956361179716877181564635734int, 1int, 27282563544176129201962732477064704746448091430288305044081566623635859235539int);
    lemma_pow_mod_step(3int, 2251799813685247nat, m, 1125899906842623nat, 27282563544176129201962732477064704746448091430288305044081566623635859235539int, 6428230792316779752438615077408214639802887629091253301711518001773921555048int, 39231038354523186497050175105111501858947667469905436706821831640274020415697int, 1int, 1901025826253364067579540306646597723573017744075746081007910912913226575428int);
    lemma_pow_mod_step(3int, 4503599627370495nat, m, 2251799813685247nat, 1901025826253364067579540306646597723573017744075746081007910912913226575428int, 31210242563942252775497049728919624591002289102529600642253230302847342564int, 66542618928805439644894267355270941951436016528240555316001158158787548819252int, 1int, 83835767549100123511111817057124918001038064919081101908545890468453811786093int);
    lemma_pow_mod_step(3int, 9007199254740991nat, m, 4503599627370495nat, 83835767549100123511111817057124918001038064919081101908545890468453811786093int, 60698757288522112970582235668729011520619628882045354750135401935214241580383int, 10863750258330658972942548132410527195914543901352276344756681294972761417720int, 0int, 32591250774991976918827644397231581587743631704056829034270043884918284253160int);
    lemma_pow_mod_step(3int, 18014398509481983nat, m, 9007199254740991nat, 32591250774991976918827644397231581587743631704056829034270043884918284253160int, 9173248656922103419249230880361713648203768030828776925879981482674806770456int, 49439728011804207032956325730473138727757322350764194490713685060270801197272int, 1int, 32527094798096425675297992182731508330001982386652019432683471172903568920153int);
    lemma_pow_mod_step(3int, 36028797018963967nat, m, 18014398509481983nat, 32527094798096425675297992182731508330001982386652019432683471172903568920153int, 9137169067188634579341783941470961042152761773339945994012334005252221940622int, 10029896044951303439174275073458392094022982952936035551103774838058437549023int, 0int, 30089688134853910317522825220375176282068948858808106653311324514175312647069int);
    lemma_pow_mod_step(3int, 72057594037927935nat, m, 36028797018963967nat, 30089688134853910317522825220375176282068948858808106653311324514175312647069int, 7819094879592079418943253157641027376326770480116647639573499891647642790835int, 79713170128298810824856427609166069168540909345754403157060735412903543682156int, 2int, 7555331910264041627427312810122391799082758705982081392267038222892961703142int);
    lemma_pow_mod_step(3int, 144115188075855871nat, m, 72057594037927935nat, 7555331910264041627427312810122391799082758705982081392267038222892961703142int, 492978757445702954931194747653186880717977252548278507016499904509221908385int, 90754236531376584218887029063401022192082724746552134423538845368573591077909int, 2int, 40678531119497361809519117172827250869708204908375275191701368089903103890401int);
    lemma_pow_mod_step(3int, 288230376151711743nat, m, 144115188075855871nat, 40678531119497361809519117172827250869708204908375275191701368089903103890401int, 14290638548273494896559030133323285360992889871629335191576326154374795699407int, 66203096862712417126020073751856612847197459276546099826586779873156131136960int, 1int, 82817201350821055954489236246881930688322393163997735440302755611559558739217int);
    lemma_pow_mod_step(3int, 576460752303423487nat, m, 288230376151711743nat, 82817201350821055954489236246881930688322393163997735440302755611559558739217int, 59232792885579047487327003949594576997810111936307268345353133727262297179039int, 101619979471016195551990257053455428679682270214336273702147697944077922901232int, 2int, 73275759938416195808828801142990470332506841311727693027527925816416099360370int);
    lemma_pow_mod_step(3int, 1152921504606846975nat, m, 576460752303423487nat, 73275759938416195808828801142990470332506841311727693027527925816416099360370int, 46370499314058747269775270982538796085239949910582452476493543933657452053105int, 105274450892007932581794667966824972270205715171811731423960718408475211873285int, 2int, 84239174201391406898242033883099101104077176184154066192966987209607966276529int);
}

proof fn lemma_certificate_2_5()
    requires
        pow_mod(3int, 1152921504606846975nat, 115792089237316195423570985008687907853269984665640564039457584007908834671663int) == 84239174201391406898242033883099101104077176184154066192966987209607966276529int,
    ensures
        pow_mod(3int, 4722366482869645213695nat, 115792089237316195423570985008687907853269984665640564039457584007908834671663int) == 84376783951569068957142144184186127646328438962291275054413926906067607473971int,
{
    let m: int = 115792089237316195423570985008687907853269984665640564039457584007908834671663int;
    lemma_pow_mod_step(3int, 2305843009213693951nat, m, 1152921504606846975nat, 84239174201391406898242033883099101104077176184154066192966987209607966276529int, 61284311535208661132985834218481336418784071630583915752069111869481843180672int, 51474323499234501508274095113492657758865036870674052969357058768443788590305int, 1int, 38630881260387309101251300331790065423325125946381594868613592297422531099252int);
    lemma_pow_mod_step(3int, 4611686018427387903nat, m, 2305843009213693951nat, 38630881260387309101251300331790065423325125946381594868613592297422531099252int, 12888142849686202174311172532981562551900846125415122167848153107663968711126int, 62740108034322810268912009472368750027992005625998527020075199129399969936966int, 1int, 72428234865652235383165043408418342230706032212355017020768013380291075139235int);
    lemma_pow_mod_step(3int, 9223372036854775807nat, m, 4611686018427387903nat, 72428234865652235383165043408418342230706032212355017020768013380291075139235int, 45304037955500571013441657988924542174225635746694417836800510595018150137463int, 83637180172590663432064878543115242547884779726126526781417067332850715574256int, 2int, 19327362043139599449052665611969911937114369847098452265336033982734477379442int);
    lemma_pow_mod_step(3int, 18446744073709551615nat, m, 9223372036854775807nat, 19327362043139599449052665611969911937114369847098452265336033982734477379442int, 3226014194985357738026029584763701679988848956775219235189472822975439255173int, 74699403055987284586308549697443734934572070894315524427995540600632914968665int, 1int, 108306119930645658335354664083643296950446228017306009244529037793989910234332int);
    lemma_pow_mod_step(3int, 36893488147419103231nat, m, 18446744073709551615nat, 108306119930645658335354664083643296950446228017306009244529037793989910234332int, 101304119233830322776173911528337454566313753380123659850113633238384509027263int, 88109188140119188104155936064340879016222303434469131147286037408207030937855int, 2int, 32743385945725173465325838175646821342126940972126265362942944208803423470239int);
    lemma_pow_mod_step(3int, 73786976294838206463nat, m, 36893488147419103231nat, 32743385945725173465325838175646821342126940972126265362942944208803423470239int, 9259089547934323110174430959416407226204424939763793018473867226849005171493int, 24272154323145753934548892161217313707597226353783078326079058391847656214262int, 0int, 72816462969437261803646676483651941122791679061349234978237175175542968642786int);
    lemma_pow_mod_step(3int, 147573952589676412927nat, m, 73786976294838206463nat, 72816462969437261803646676483651941122791679061349234978237175175542968642786int, 45791014863826133914552464978571265855704992125647421991910585812553853808649int, 19382049196812413470738164429993782101760938407012527084190555917054925228509int, 0int, 58146147590437240412214493289981346305282815221037581252571667751164775685527int);
    lemma_pow_mod_step(3int, 295147905179352825855nat, m, 147573952589676412927nat, 58146147590437240412214493289981346305282815221037581252571667751164775685527int, 29198665486375276419012973049429775067620215622642583251181254876727383674413int, 9091666461211449300657389421531976296843275477999436502424511507727448008910int, 0int, 27274999383634347901972168264595928890529826433998309507273534523182344026730int);
    lemma_pow_mod_step(3int, 590295810358705651711nat, m, 295147905179352825855nat, 27274999383634347901972168264595928890529826433998309507273534523182344026730int, 6424666799582280411386325742476847950209283281630191158558342382886168940966int, 84858685716406974462376762903189046479950384144222943460171833135327914446442int, 2int, 22991878674588532539988318692191323733311183101387702301600331390166073996000int);
    lemma_pow_mod_step(3int, 1180591620717411303423nat, m, 590295810358705651711nat, 22991878674588532539988318692191323733311183101387702301600331390166073996000int, 4565307427034825723402352531564182651819640566071993783802888546295019155935int, 30901526382722212719489138170106370109109230596211047288137210885926893230095int, 0int, 92704579148166638158467414510319110327327691788633141864411632657780679690285int);
    lemma_pow_mod_step(3int, 2361183241434822606847nat, m, 1180591620717411303423nat, 92704579148166638158467414510319110327327691788633141864411632657780679690285int, 74220432947064128680828525576506693822992648786453727248339868428242641139146int, 25270588489072643144914439741649138541035713355058086223372179499792317161427int, 0int, 75811765467217929434743319224947415623107140065174258670116538499376951484281int);
    lemma_pow_mod_step(3int, 4722366482869645213695nat, m, 2361183241434822606847nat, 75811765467217929434743319224947415623107140065174258670116538499376951484281int, 49635720549761362371675966301562021937193034211598676205847790122242201303008int, 28125594650523022985714048061395375882109479654097091684804642302022535824657int, 0int, 84376783951569068957142144184186127646328438962291275054413926906067607473971int);
}

proof fn lemma_certificate_2_6()
    requires
        pow_mod(3int, 4722366482869645213695nat, 115792089237316195423570985008687907853269984665640564039457584007908834671663int) == 84376783951569068957142144184186127646328438962291275054413926906067607473971int,
    ensures
        pow_mod(3int, 19342813113834066795298815nat, 115792089237316195423570985008687907853269984665640564039457584007908834671663int) == 46693271806322274590839439492310917093233799406525488735137315241636083216621int,
{
    let m: int = 115792089237316195423570985008687907853269984665640564039457584007908834671663int;
    lemma_pow_mod_step(3int, 9444732965739290427391nat, m, 4722366482869645213695nat, 84376783951569068957142144184186127646328438962291275054413926906067607473971int, 61484698280367399837119807476345118538651036797799549371180941655097517387322int, 58145657810402247468162317533960698337674517189084260844470133781515973652355int, 1int, 58644884193890546980915967593194187159753566901612218493952817336639086285402int);
    lemma_pow_mod_step(3int, 18889465931478580854783nat, m, 9444732965739290427391nat, 58644884193890546980915967593194187159753566901612218493952817336639086285402int, 29701704708567247209321313357379116767450144465419666363345651902735510762179int, 115789193956452523499694674147555832334238048396073796710359932004372254867927int, 2int, 115783403394725179651942052425291681296174175856940262052164627997299095260455int);
    lemma_pow_mod_step(3int, 37778931862957161709567nat, m, 18889465931478580854783nat, 115783403394725179651942052425291681296174175856940262052164627997299095260455int, 115774718203680068378859457098321235862863292642874732871458255543750995905008int, 91161805250145146389395144579852708360021341017970238809419990283441069418721int, 2int, 41901237275803048321043463722182309373524053722629588349344802834505538912837int);
    lemma_pow_mod_step(3int, 75557863725914323419135nat, m, 37778931862957161709567nat, 41901237275803048321043463722182309373524053722629588349344802834505538912837int, 15162639320245850181109732659706506623640788316598669955813446382524964551966int, 48753900351057971703091783902469416291126448728846859130429485259682372249111int, 1int, 30469611815857719685704366698720341020109361520900013351830871771138282075670int);
    lemma_pow_mod_step(3int, 151115727451828646838271nat, m, 75557863725914323419135nat, 30469611815857719685704366698720341020109361520900013351830871771138282075670int, 8017795087074590563906196760479574586472894373875261941693099297466901124941int, 108996043561328107370254868956770526568828931837042413929602285508764530702017int, 2int, 95403952209351931263622636852935763999946826179846113709891688510475922762725int);
    lemma_pow_mod_step(3int, 302231454903657293676543nat, m, 151115727451828646838271nat, 95403952209351931263622636852935763999946826179846113709891688510475922762725int, 78605664317101231778583090344860651546149910044276875753548592407657227631454int, 77514118150503828505923862158165151748346420296393139868368377920449388137623int, 2int, 958175976879094670629616457119639538499291557898291526189965745530495069543int);
    lemma_pow_mod_step(3int, 604462909807314587353087nat, m, 302231454903657293676543nat, 958175976879094670629616457119639538499291557898291526189965745530495069543int, 7928876736877564266488258489742583213460394123765694786828438959185665695int, 2788719408977303829987519443745390085164041416749669157287746074660998528064int, 0int, 8366158226931911489962558331236170255492124250249007471863238223982995584192int);
    lemma_pow_mod_step(3int, 1208925819614629174706175nat, m, 604462909807314587353087nat, 8366158226931911489962558331236170255492124250249007471863238223982995584192int, 604467921246420191161605493694235337372013629662758616304948196601855142080int, 36723688194990547032258437645083210585500056092435336252386555224006345413824int, 0int, 110171064584971641096775312935249631756500168277306008757159665672019036241472int);
    lemma_pow_mod_step(3int, 2417851639229258349412351nat, m, 1208925819614629174706175nat, 110171064584971641096775312935249631756500168277306008757159665672019036241472int, 104822907607356655725359350810946579412926815637483649838925744226141015045812int, 23414319320412508872996332924715370406471405860121436401593717475288369501428int, 0int, 70242957961237526618988998774146111219414217580364309204781152425865108504284int);
    lemma_pow_mod_step(3int, 4835703278458516698824703nat, m, 2417851639229258349412351nat, 70242957961237526618988998774146111219414217580364309204781152425865108504284int, 42611487327357798754950521406411623666399485776369848643135283139009380679755int, 113079746517355857193712095371965441408189477361873234631744546137388470070091int, 2int, 107655061077435180733994316098520508518028462754338575816318470396347740866947int);
    lemma_pow_mod_step(3int, 9671406556917033397649407nat, m, 4835703278458516698824703nat, 107655061077435180733994316098520508518028462754338575816318470396347740866947int, 100089844236538112566321471257226301878865019853808675840061326421030008824529int, 40177884107705694954346964828037713508861467768387749383497836555244861479082int, 1int, 4741563085800889439469909475425232673314418639522684111035925657825749765583int);
    lemma_pow_mod_step(3int, 19342813113834066795298815nat, m, 9671406556917033397649407nat, 4741563085800889439469909475425232673314418639522684111035925657825749765583int, 194161972935403835018390214254957399231011899992404546389659997051504615480int, 92759150093651555145993803169895577599924589579268872271350827752484584186649int, 2int, 46693271806322274590839439492310917093233799406525488735137315241636083216621int);
}

proof fn lemma_certificate_2_7()
    requires
        pow_mod(3int, 19342813113834066795298815nat, 115792089237316195423570985008687907853269984665640564039457584007908834671663int) == 46693271806322274590839439492310917093233799406525488735137315241636083216621int,
    ensures
        pow_mod(3int, 79228162514264337593543950335nat, 115792089237316195423570985008687907853269984665640564039457584007908834671663int) == 1840184273345405825971375496254062951331585539363278706738379791196566184967int,
{
    let m: int = 115792089237316195423570985008687907853269984665640564039457584007908834671663int;
    lemma_pow_mod_step(3int, 38685626227668133590597631nat, m, 19342813113834066795298815nat, 46693271806322274590839439492310917093233799406525488735137315241636083216621int, 18829106947976718751927943999430847791895692762381953133968406975229003485746int, 66496565008081238960567045670215002456874292247971599381305078364269600042043int, 1int, 83697605786927521458130152001957099517352892078274234104457651084899965454466int);
    lemma_pow_mod_step(3int, 77371252455336267181195263nat, m, 38685626227668133590597631nat, 83697605786927521458130152001957099517352892078274234104457651084899965454466int, 60498858433295597747262279755678148057047028787608017176339223613248637263710int, 55417375100451531173651596067426168971675878416949889372673671204129324095426int, 1int, 50460036064038398097383803193590599061757650585209104078563429604479137614615int);
    lemma_pow_mod_step(3int, 154742504910672534362390527nat, m, 77371252455336267181195263nat, 50460036064038398097383803193590599061757650585209104078563429604479137614615int, 21989543986598089899343903928830160013252782782684546729903648219155395350487int, 5975287868711162535148288833249827567245919811619479077681716715142809448344int, 0int, 17925863606133487605444866499749482701737759434858437233045150145428428345032int);
    lemma_pow_mod_step(3int, 309485009821345068724781055nat, m, 154742504910672534362390527nat, 17925863606133487605444866499749482701737759434858437233045150145428428345032int, 2775116919836560640869158670833764007426343151423393218253028246758573372199int, 71039862493751857178201192386415232100701638351340639782547109961085581784087int, 1int, 97327498243939376111032592150557788448834930388381355308183745875347910680598int);
    lemma_pow_mod_step(3int, 618970019642690137449562111nat, m, 309485009821345068724781055nat, 97327498243939376111032592150557788448834930388381355308183745875347910680598int, 81807332235018382791896459726451684429336143959075597922122434922600006377285int, 16432379390652076333674019568635087057794676255218340919806212997644497262649int, 0int, 49297138171956229001022058705905261173384028765655022759418638992933491787947int);
    lemma_pow_mod_step(3int, 1237940039285380274899124223nat, m, 618970019642690137449562111nat, 49297138171956229001022058705905261173384028765655022759418638992933491787947int, 20987684460587169341749842308855819917614431052233785836736577399141268831432int, 14732826005529711634097746271091772119298258266602689940422912420769400363393int, 0int, 44198478016589134902293238813275316357894774799808069821268737262308201090179int);
    lemma_pow_mod_step(3int, 2475880078570760549798248447nat, m, 1237940039285380274899124223nat, 44198478016589134902293238813275316357894774799808069821268737262308201090179int, 16870802417073573868665528126287925607901726061065745769930639643043985357078int, 6709150193523355532038207104196209850844849275804221000698006370560147171327int, 0int, 20127450580570066596114621312588629552534547827412663002094019111680441513981int);
    lemma_pow_mod_step(3int, 4951760157141521099596496895nat, m, 2475880078570760549798248447nat, 20127450580570066596114621312588629552534547827412663002094019111680441513981int, 3498635092791248817394816029367528070758226517881138886427239848268301325477int, 12265686357366916731305738297126832776922406675944168012527615121118426610110int, 0int, 36797059072100750193917214891380498330767220027832504037582845363355279830330int);
    lemma_pow_mod_step(3int, 9903520314283042199192993791nat, m, 4951760157141521099596496895nat, 36797059072100750193917214891380498330767220027832504037582845363355279830330int, 11693575660256006230862257681355845446260810720545288686037458219988410383525int, 106113825813037674277513061187059717063591095154448848685734618168070308356825int, 2int, 86757298964480631985397213543803335484233316132065417978288686488393255727149int);
    lemma_pow_mod_step(3int, 19807040628566084398385987583nat, m, 9903520314283042199192993791nat, 86757298964480631985397213543803335484233316132065417978288686488393255727149int, 65002963269675670196918260682751412124332055711419559558064500454672318929454int, 89580535269207072101344082041177755904902109981728416185969361676342985806199int, 2int, 37157427332988825456890276106157452008166360613904120478992917013211288075271int);
    lemma_pow_mod_step(3int, 39614081257132168796771975167nat, m, 19807040628566084398385987583nat, 37157427332988825456890276106157452008166360613904120478992917013211288075271int, 11923736889975697600387249819304575333473746013573513850050985984384287966943int, 27684893553056956883303731049261040422781496991078875821872941544040558887232int, 0int, 83054680659170870649911193147783121268344490973236627465618824632121676661696int);
    lemma_pow_mod_step(3int, 79228162514264337593543950335nat, m, 39614081257132168796771975167nat, 83054680659170870649911193147783121268344490973236627465618824632121676661696int, 59572981408593626727635968745511356794011445635100426263116289140271949499762int, 39210757836887200416514120168313990268200523401667947582065321266368466952210int, 1int, 1840184273345405825971375496254062951331585539363278706738379791196566184967int);
}

proof fn lemma_certificate_2_8()
    requires
        pow_mod(3int, 79228162514264337593543950335nat, 115792089237316195423570985008687907853269984665640564039457584007908834671663int) == 1840184273345405825971375496254062951331585539363278706738379791196566184967int,
    ensures
        pow_mod(3int, 324518553658426726783156020576255nat, 115792089237316195423570985008687907853269984665640564039457584007908834671663int) == 43348839093928966773442853408861392902993633165608112870133768807549217413494int,
{
    let m: int = 115792089237316195423570985008687907853269984665640564039457584007908834671663int;
    lemma_pow_mod_step(3int, 158456325028528675187087900671nat, m, 79228162514264337593543950335nat, 1840184273345405825971375496254062951331585539363278706738379791196566184967int, 29244468963053021309038291314809129553478370495863023627926222141021915222int, 32716296798697396183396707149598967849478619471331935712619161108407065036903int, 0int, 98148890396092188550190121448796903548435858413995807137857483325221195110709int);
    lemma_pow_mod_step(3int, 316912650057057350374175801343nat, m, 158456325028528675187087900671nat, 98148890396092188550190121448796903548435858413995807137857483325221195110709int, 83193979393884488712602225522964975479797175104891477651319915313749700072694int, 114541188162134310923568629751294602257657416729502685201734032061988044612559int, 2int, 112039386011770541923563919236507991066432280857226927526286928170146464494351int);
    lemma_pow_mod_step(3int, 633825300114114700748351602687nat, m, 316912650057057350374175801343nat, 112039386011770541923563919236507991066432280857226927526286928170146464494351int, 108408304060974997247635976858706644806543239643615353155765004021184951699069int, 50275611824111222008224101171834679987330829906472698509715920342605513129454int, 1int, 35034746235017470601101318506816132108722505053777531489690177019907704716699int);
    lemma_pow_mod_step(3int, 1267650600228229401496703205375nat, m, 633825300114114700748351602687nat, 35034746235017470601101318506816132108722505053777531489690177019907704716699int, 10600322110402919821855323720058337237452770233040117048895951052778540518854int, 2246973358469466570148564069958608333640418358286365215862108996595098422399int, 0int, 6740920075408399710445692209875825000921255074859095647586326989785295267197int);
    lemma_pow_mod_step(3int, 2535301200456458802993406410751nat, m, 1267650600228229401496703205375nat, 6740920075408399710445692209875825000921255074859095647586326989785295267197int, 392427529050923134004983220649689799152248634560147172482534207049931645969int, 109606047476913730946037411532900233493649486318557038421832511254178351760362int, 2int, 97233963956108801990970264581324884774408489624389987186582365746717385937760int);
    lemma_pow_mod_step(3int, 5070602400912917605986812821503nat, m, 2535301200456458802993406410751nat, 97233963956108801990970264581324884774408489624389987186582365746717385937760int, 81650169790450520478254707240605760036310068263151213720867040295042251578313int, 69560900140436078239060499613287490462850892752352700924814321536455707373081int, 1int, 92890611183992039293610513831174563535282693591417538734985380601458287447580int);
    lemma_pow_mod_step(3int, 10141204801825835211973625643007nat, m, 5070602400912917605986812821503nat, 92890611183992039293610513831174563535282693591417538734985380601458287447580int, 74518610925579844223935629521986331519919779335268265742631352557040739182577int, 5816446535647518087068011682202142351856959481310240968096255818204442640849int, 0int, 17449339606942554261204035046606427055570878443930722904288767454613327922547int);
    lemma_pow_mod_step(3int, 20282409603651670423947251286015nat, m, 10141204801825835211973625643007nat, 17449339606942554261204035046606427055570878443930722904288767454613327922547int, 2629535875239133861701127272706403060558614179537415095823736123463469809086int, 42338897864179803881129187979016064061150594865869040665212009334430726837191int, 1int, 11224604355223216219816578928360284330181799931966557956178443995383345839910int);
    lemma_pow_mod_step(3int, 40564819207303340847894502572031nat, m, 20282409603651670423947251286015nat, 11224604355223216219816578928360284330181799931966557956178443995383345839910int, 1088085928504801227694288758043986143728911058050333272474172823214196104194int, 102385302155337267570121515302828292830692754113180073707024027842655621553478int, 2int, 75571727991379411863222575891109062785538293008259093042156915512149195317108int);
    lemma_pow_mod_step(3int, 81129638414606681695789005144063nat, m, 40564819207303340847894502572031nat, 75571727991379411863222575891109062785538293008259093042156915512149195317108int, 49321901947016021061757627022453779502607582493787221027341641955595623072802int, 7248574495505877577623085257362054383376393468724831204822402655043862073938int, 0int, 21745723486517632732869255772086163150129180406174493614467207965131586221814int);
    lemma_pow_mod_step(3int, 162259276829213363391578010288127nat, m, 81129638414606681695789005144063nat, 21745723486517632732869255772086163150129180406174493614467207965131586221814int, 4083841072967627025000226335141684003540484490270111054295033448304868095126int, 77906062634364322768642320168029362087011849590969314030860301750920748836058int, 2int, 2134009428460577458784990486712270554495579441626814013665737236944577164848int);
    lemma_pow_mod_step(3int, 324518553658426726783156020576255nat, m, 162259276829213363391578010288127nat, 2134009428460577458784990486712270554495579441626814013665737236944577164848int, 39329079134458080579692210095341091608032814958633123760920886547517568562int, 14449613031309655591147617802953797634331211055202704290044589602516405804498int, 0int, 43348839093928966773442853408861392902993633165608112870133768807549217413494int);
}

proof fn lemma_certificate_2_9()
    requires
        pow_mod(3int, 324518553658426726783156020576255nat, 115792089237316195423570985008687907853269984665640564039457584007908834671663int) == 43348839093928966773442853408861392902993633165608112870133768807549217413494int,
    ensures
        pow_mod(3int, 1329227995784915872903807060280344575nat, 115792089237316195423570985008687907853269984665640564039457584007908834671663int) == 18650602826337153272426497699720977096950246259664366890335458508273525569050int,
{
    let m: int = 115792089237316195423570985008687907853269984665640564039457584007908834671663int;
    lemma_pow_mod_step(3int, 649037107316853453566312041152511nat, m, 324518553658426726783156020576255nat, 43348839093928966773442853408861392902993633165608112870133768807549217413494int, 16228413038995082685162660056690331991387644757034649579245672164274788864011int, 29802626038491749117250150413561178407633967917436102700528122791953431067743int, 0int, 89407878115475247351750451240683535222901903752308308101584368375860293203229int);
    lemma_pow_mod_step(3int, 1298074214633706907132624082305023nat, m, 649037107316853453566312041152511nat, 89407878115475247351750451240683535222901903752308308101584368375860293203229int, 69035533616881438945543574928576013723440896885878830398692302261711034261707int, 66452799718723166470125833987631418971136990434778425640179521500388537117700int, 1int, 83566309918853303986806516954206349060140986638694712881080980493256776681437int);
    lemma_pow_mod_step(3int, 2596148429267413814265248164610047nat, m, 1298074214633706907132624082305023nat, 83566309918853303986806516954206349060140986638694712881080980493256776681437int, 60309199008763806305915941200650687512904883601057827485588762596349842101171int, 11170187111345843945378816666134670494595398765559202931088960515158767567596int, 0int, 33510561334037531836136449998404011483786196296677608793266881545476302702788int);
    lemma_pow_mod_step(3int, 5192296858534827628530496329220095nat, m, 2596148429267413814265248164610047nat, 33510561334037531836136449998404011483786196296677608793266881545476302702788int, 9698052158129614918364463263476703094613988916395355025057627123212075841228int, 23263652904127085091020130087101713155438085190288199123004525928049964250780int, 0int, 69790958712381255273060390261305139466314255570864597369013577784149892752340int);
    lemma_pow_mod_step(3int, 10384593717069655257060992658440191nat, m, 5192296858534827628530496329220095nat, 69790958712381255273060390261305139466314255570864597369013577784149892752340int, 42064859094222168491290627022098327734480421956715597785949995310583393090264int, 10538609900139722448402820482376562799587781136294588945782290305515213486568int, 0int, 31615829700419167345208461447129688398763343408883766837346870916545640459704int);
    lemma_pow_mod_step(3int, 20769187434139310514121985316880383nat, m, 10384593717069655257060992658440191nat, 31615829700419167345208461447129688398763343408883766837346870916545640459704int, 8632374579556159869545002377559209202758124253868153284689813364676129596289int, 105174752959210448562637222569109944066869856687674357643706174994042389509009int, 2int, 83940080402998954840769697689954016494069600731741944852203356966309499183701int);
    lemma_pow_mod_step(3int, 41538374868278621028243970633760767nat, m, 20769187434139310514121985316880383nat, 83940080402998954840769697689954016494069600731741944852203356966309499183701int, 60849900407455835124528483966868980980259245967524489481747673659441945856803int, 6596309665965973508231937781395079627011257579233002510654274845207624184012int, 0int, 19788928997897920524695813344185238881033772737699007531962824535622872552036int);
    lemma_pow_mod_step(3int, 83076749736557242056487941267521535nat, m, 41538374868278621028243970633760767nat, 19788928997897920524695813344185238881033772737699007531962824535622872552036int, 3381938381656249824929794244169677980938182620346138562460875457664664421380int, 1420438788478839021794837868710649220191667405147616261023206777869350390356int, 0int, 4261316365436517065384513606131947660575002215442848783069620333608051171068int);
    lemma_pow_mod_step(3int, 166153499473114484112975882535043071nat, m, 83076749736557242056487941267521535nat, 4261316365436517065384513606131947660575002215442848783069620333608051171068int, 156822605809629565338340725704581485662611262551721146727338847495760798292int, 101845001920123417544831164133570666321475955572938748445787766981069609061028int, 2int, 73950827285737861787351522383336183257887897387535117258448132927391157839758int);
    lemma_pow_mod_step(3int, 332306998946228968225951765070086143nat, m, 166153499473114484112975882535043071nat, 73950827285737861787351522383336183257887897387535117258448132927391157839758int, 47228829639966727657482079566229369600943167691429418484521786706407598374374int, 95932931706777113815738582248220452588728641491631386713694595495578362334602int, 2int, 56214616645698950600073776727285542059645955143613032062168618470917417660480int);
    lemma_pow_mod_step(3int, 664613997892457936451903530140172287nat, m, 332306998946228968225951765070086143nat, 56214616645698950600073776727285542059645955143613032062168618470917417660480int, 27291010512352832256468866484017757623556608701479944641023507833929513748484int, 48125415869355214618954083462142248255797914508753878901152440883896049821508int, 1int, 28584158370749448433291265377738836914123758860621072663999738643779314792861int);
    lemma_pow_mod_step(3int, 1329227995784915872903807060280344575nat, m, 664613997892457936451903530140172287nat, 28584158370749448433291265377738836914123758860621072663999738643779314792861int, 7056217010555282298147244506496576003397696631714383885121997257837115238917int, 6216867608779051090808832566573659032316748753221455630111819502757841856350int, 0int, 18650602826337153272426497699720977096950246259664366890335458508273525569050int);
}

proof fn lemma_certificate_2_10()
    requires
        pow_mod(3int, 1329227995784915872903807060280344575nat, 115792089237316195423570985008687907853269984665640564039457584007908834671663int) == 18650602826337153272426497699720977096950246259664366890335458508273525569050int,
    ensures
        pow_mod(3int, 5444517870735015415413993718908291383295nat, 115792089237316195423570985008687907853269984665640564039457584007908834671663int) == 83751946124124607537372183656136817762194659752037429802739448384835377120282int,
{
    let m: int = 115792089237316195423570985008687907853269984665640564039457584007908834671663int;
    lemma_pow_mod_step(3int, 2658455991569831745807614120560689151nat, m, 1329227995784915872903807060280344575nat, 18650602826337153272426497699720977096950246259664366890335458508273525569050int, 3004047928290387650016436372473985541219556783813147714060990763583842705730int, 3775572555837388043623379668340032538899880948635313467691588980164239173510int, 0int, 11326717667512164130870139005020097616699642845905940403074766940492717520530int);
    lemma_pow_mod_step(3int, 5316911983139663491615228241121378303nat, m, 2658455991569831745807614120560689151nat, 11326717667512164130870139005020097616699642845905940403074766940492717520530int, 1107973212717426770277826862691197589097900811195714877313762554650001339959int, 24629515685998874881372252862910120822310799944988561130314614040083164599083int, 0int, 73888547057996624644116758588730362466932399834965683390943842120249493797249int);
    lemma_pow_mod_step(3int, 10633823966279326983230456482242756607nat, m, 5316911983139663491615228241121378303nat, 73888547057996624644116758588730362466932399834965683390943842120249493797249int, 47149312377916303286620793586421215666884622826065252323798149278499348075805int, 109004478861188095428795932781821557641156940530075520905332806156937110554286int, 2int, 95429258108931895439245828328088857216930852258945434637083250454993662319532int);
    lemma_pow_mod_step(3int, 21267647932558653966460912964485513215nat, m, 10633823966279326983230456482242756607nat, 95429258108931895439245828328088857216930852258945434637083250454993662319532int, 78647370154595356296835693430812969836602524016755730057162094953315624858958int, 110350154276077989263739897991737864922068714742924496704182223708939854391870int, 2int, 99466284353601576944077723957837779059666174897492362033631503111001893832284int);
    lemma_pow_mod_step(3int, 42535295865117307932921825928971026431nat, m, 21267647932558653966460912964485513215nat, 99466284353601576944077723957837779059666174897492362033631503111001893832284int, 85442293927650668364714542199930062539827833730382163251953754619719203253907int, 11753470966091158651789712975814015397875714401553176486345077779190353719315int, 0int, 35260412898273475955369138927442046193627143204659529459035233337571061157945int);
    lemma_pow_mod_step(3int, 85070591730234615865843651857942052863nat, m, 42535295865117307932921825928971026431nat, 35260412898273475955369138927442046193627143204659529459035233337571061157945int, 10737320018542808850837214350404689185697954739283791418658144235198598437796int, 92864142117914537173320219350822010753724653873382533254835283659371847248277int, 2int, 47008247879111220672818688035090216554633992288866471685590682962297872401505int);
    lemma_pow_mod_step(3int, 170141183460469231731687303715884105727nat, m, 85070591730234615865843651857942052863nat, 47008247879111220672818688035090216554633992288866471685590682962297872401505int, 19083992552677964644561989950487880081057046016281064628095695806101906106156int, 74630400898934541280101944642643162897926783416367247417999488199612843207597int, 1int, 108099113459487428416734848919241580840510365583461178214540880590929694951128int);
    lemma_pow_mod_step(3int, 340282366920938463463374607431768211455nat, m, 170141183460469231731687303715884105727nat, 108099113459487428416734848919241580840510365583461178214540880590929694951128int, 100917242340949908064410335593649969766410868220224340349746178012997304396467int, 104627265853790848905689857276361050042485818191218903041958922256741986257763int, 2int, 82297619086740155869927601811707334420917485242375581046961598754408289429963int);
    lemma_pow_mod_step(3int, 680564733841876926926749214863536422911nat, m, 340282366920938463463374607431768211455nat, 82297619086740155869927601811707334420917485242375581046961598754408289429963int, 58491889661521737374338598907987208965584499728794302210584717854632975760050int, 18359131709150748687170330651879576773358632917987753781878582215831859718219int, 0int, 55077395127452246061510991955638730320075898753963261345635746647495579154657int);
    lemma_pow_mod_step(3int, 1361129467683753853853498429727072845823nat, m, 680564733841876926926749214863536422911nat, 55077395127452246061510991955638730320075898753963261345635746647495579154657int, 26197985320122294470774761839972214001461758383376929470981667257791252991833int, 32541747019908241897434274547287750899069224827661992800449662431635749259370int, 0int, 97625241059724725692302823641863252697207674482985978401348987294907247778110int);
    lemma_pow_mod_step(3int, 2722258935367507707706996859454145691647nat, m, 1361129467683753853853498429727072845823nat, 97625241059724725692302823641863252697207674482985978401348987294907247778110int, 82308625353811456521838411085752191968907533921430491510754538246093041405035int, 89927706064569295682459917292824524512310569176309417610370746426483375148895int, 2int, 38198939719075496200237781861097757830391738197647124752197071263632456103359int);
    lemma_pow_mod_step(3int, 5444517870735015415413993718908291383295nat, m, 2722258935367507707706996859454145691647nat, 38198939719075496200237781861097757830391738197647124752197071263632456103359int, 12601543035215586264973913132178077063769483921340843682595856285893411555149int, 27917315374708202512457394552045605920731553250679143267579816128278459040094int, 0int, 83751946124124607537372183656136817762194659752037429802739448384835377120282int);
}

proof fn lemma_certificate_2_11()
    requires
        pow_mod(3int, 5444517870735015415413993718908291383295nat, 115792089237316195423570985008687907853269984665640564039457584007908834671663int) == 83751946124124607537372183656136817762194659752037429802739448384835377120282int,
    ensures
        pow_mod(3int, 22300745198530623141535718272648361505980415nat, 115792089237316195423570985008687907853269984665640564039457584007908834671663int) == 106733920956904001927318414601459334210177592682673757443461320907472238900886int,
{
    let m: int = 115792089237316195423570985008687907853269984665640564039457584007908834671663int;
    lemma_pow_mod_step(3int, 10889035741470030830827987437816582766591nat, m, 5444517870735015415413993718908291383295nat, 83751946124124607537372183656136817762194659752037429802739448384835377120282int, 60577441220550593848714701286600772100130794834059142608726944872520156573541int, 107929765718444296410255750072079274050204031992271721346813132016161247490841int, 2int, 92205118680700498383625280198862006444072126645534035961524228032666073129197int);
    lemma_pow_mod_step(3int, 21778071482940061661655974875633165533183nat, m, 10889035741470030830827987437816582766591nat, 92205118680700498383625280198862006444072126645534035961524228032666073129197int, 73422838873712998103762395554105680491727515493793350640261034743989327660913int, 75678149283269956293865566800288755677959303507957778362019828173293300056490int, 1int, 111242358612493673458025715392178359180607925858232771046601900511971065497807int);
    lemma_pow_mod_step(3int, 43556142965880123323311949751266331066367nat, m, 21778071482940061661655974875633165533183nat, 111242358612493673458025715392178359180607925858232771046601900511971065497807int, 106871397097847781357422337694476229736424442942821229251427781810628014992584int, 83679379560502302854590429267968842211272912222659223518795906082635701862057int, 2int, 19453960206874517716629317786530710927278767336696542477472550232089436242845int);
    lemma_pow_mod_step(3int, 87112285931760246646623899502532662132735nat, m, 43556142965880123323311949751266331066367nat, 19453960206874517716629317786530710927278767336696542477472550232089436242845int, 3268414709704472852033626725993904858097506294214946766906503270687961113502int, 20583770093246446035953235157171089464659847359162970959669308383727767600199int, 0int, 61751310279739338107859705471513268393979542077488912879007925151183302800597int);
    lemma_pow_mod_step(3int, 174224571863520493293247799005065324265471nat, m, 87112285931760246646623899502532662132735nat, 61751310279739338107859705471513268393979542077488912879007925151183302800597int, 32931647976827051153310473385670343003634954426032920258788302889447549068447int, 94458265617404047122064641309117468590500726798449040048355174789592785239048int, 2int, 51790618377579750519051953909976590064962211064065992066150356352960686373818int);
    lemma_pow_mod_step(3int, 348449143727040986586495598010130648530943nat, m, 174224571863520493293247799005065324265471nat, 51790618377579750519051953909976590064962211064065992066150356352960686373818int, 23164519870047302329334192932804205471722061758637252369094286927209938343755int, 110737493483807773554646167425716638838499891113845465882370071109528584382559int, 2int, 100628301976790929816796532259774100808959704010255269568195045312768083804351int);
    lemma_pow_mod_step(3int, 696898287454081973172991196020261297061887nat, m, 348449143727040986586495598010130648530943nat, 100628301976790929816796532259774100808959704010255269568195045312768083804351int, 87450319148995129748914825204852161397812728214204131088710725384148673618426int, 6495041774792488120575602206548371241753860078061644691650789769161389668763int, 0int, 19485125324377464361726806619645113725261580234184934074952369307484169006289int);
    lemma_pow_mod_step(3int, 1393796574908163946345982392040522594123775nat, m, 696898287454081973172991196020261297061887nat, 19485125324377464361726806619645113725261580234184934074952369307484169006289int, 3278895055849291102400030152296829213146979570823395470327471533657626456002int, 36100587245021597947200236695906226599833452241730391681774416486397735880195int, 0int, 108301761735064793841600710087718679799500356725191175045323249459193207640585int);
    lemma_pow_mod_step(3int, 2787593149816327892691964784081045188247551nat, m, 1393796574908163946345982392040522594123775nat, 108301761735064793841600710087718679799500356725191175045323249459193207640585int, 101295966522199728150798110534984312690370449942327190786532913004507413165584int, 90083051695472452185042935320442758716238603156090890391945680929404447496033int, 2int, 38664976611784965707986835943952460442175840136991543096921874772395673144773int);
    lemma_pow_mod_step(3int, 5575186299632655785383929568162090376495103nat, m, 2787593149816327892691964784081045188247551nat, 38664976611784965707986835943952460442175840136991543096921874772395673144773int, 12910902862508267382475138629070096080789448502625515911679110612634280289365int, 29265098041451671279111033534593587480734409079108892567730879168203011457534int, 0int, 87795294124355013837333100603780762442203227237326677703192637504609034372602int);
    lemma_pow_mod_step(3int, 11150372599265311570767859136324180752990207nat, m, 5575186299632655785383929568162090376495103nat, 87795294124355013837333100603780762442203227237326677703192637504609034372602int, 66567705282391195655991640349051695535002070565041831265930792896651362068955int, 57836655131314244015235643929078828569164613723792478484800857021261977728239int, 1int, 57717876156626536622135946778548577854223856505736871414944987055877098513054int);
    lemma_pow_mod_step(3int, 22300745198530623141535718272648361505980415nat, m, 11150372599265311570767859136324180752990207nat, 57717876156626536622135946778548577854223856505736871414944987055877098513054int, 28770127993839551036310414014871831114177141868424563305429764498170374004558int, 35577973652301333975772804867153111403392530894224585814487106969157412966962int, 0int, 106733920956904001927318414601459334210177592682673757443461320907472238900886int);
}

proof fn lemma_certificate_2_12()
    requires
        pow_mod(3int, 22300745198530623141535718272648361505980415nat, 115792089237316195423570985008687907853269984665640564039457584007908834671663int) == 106733920956904001927318414601459334210177592682673757443461320907472238900886int,
    ensures
        pow_mod(3int, 91343852333181432387730302044767688728495783935nat, 115792089237316195423570985008687907853269984665640564039457584007908834671663int) == 105107247854697488662747615000098216251462523960291293884383133422624199233728int,
{
    let m: int = 115792089237316195423570985008687907853269984665640564039457584007908834671663int;
    lemma_pow_mod_step(3int, 44601490397061246283071436545296723011960831nat, m, 22300745198530623141535718272648361505980415nat, 106733920956904001927318414601459334210177592682673757443461320907472238900886int, 98384353869688202489248467851290483894014618040655475605885407382945197891810int, 69888844910140915726896591561506166658743541291657651759467512118316184804966int, 1int, 93874445493106551757118789675830592122960639209332391238944952347039719743235int);
    lemma_pow_mod_step(3int, 89202980794122492566142873090593446023921663nat, m, 44601490397061246283071436545296723011960831nat, 93874445493106551757118789675830592122960639209332391238944952347039719743235int, 76105471234543251939956340341127013388943988146309240708507167491463610962637int, 113927340172021036008008396174380598290660006760285220243834932093089072609894int, 2int, 110197842041430717176883218505765979165440050949574532652589628263449548486356int);
    lemma_pow_mod_step(3int, 178405961588244985132285746181186892047843327nat, m, 89202980794122492566142873090593446023921663nat, 110197842041430717176883218505765979165440050949574532652589628263449548486356int, 104873868936761713290307050851615962134764069059787854707387027092797965500088int, 60357250773381913174877672777852060786222564281611408756078500958091640552392int, 1int, 65279663082829544101062033324868274505397708179193662228777918866366086985513int);
    lemma_pow_mod_step(3int, 356811923176489970264571492362373784095686655nat, m, 178405961588244985132285746181186892047843327nat, 65279663082829544101062033324868274505397708179193662228777918866366086985513int, 36802465870305848571709109957899314307778415937744727720031219421930583403559int, 61712829578703335730957799900001672897616803142552571428266747413414681224552int, 1int, 69346399498793811769302414691317110839580424762017150245342658232335209001993int);
    lemma_pow_mod_step(3int, 713623846352979940529142984724747568191373311nat, m, 356811923176489970264571492362373784095686655nat, 69346399498793811769302414691317110839580424762017150245342658232335209001993int, 41530670662573588020627809589605721981062442069842425819353397133126159524698int, 37073107135678332601088630701785774208488287753330867126291790498076108739275int, 0int, 111219321407034997803265892105357322625464863259992601378875371494228326217825int);
    lemma_pow_mod_step(3int, 1427247692705959881058285969449495136382746623nat, m, 713623846352979940529142984724747568191373311nat, 111219321407034997803265892105357322625464863259992601378875371494228326217825int, 106827137637093182173125979903243204613521071322299912503700061026701723409906int, 113034289599564033543456243497007338247138968893957088705797778426109076036947int, 2int, 107518690324059709783226760473646199034876937350590138038478167262509558767515int);
    lemma_pow_mod_step(3int, 2854495385411919762116571938898990272765493247nat, m, 1427247692705959881058285969449495136382746623nat, 107518690324059709783226760473646199034876937350590138038478167262509558767515int, 99836429631287241182685547323811251232970712882492168228507149307675288776761int, 101661916259740396175874304959686295044006165173900368060518622838113479651682int, 2int, 73401570304588797680480944861683069425478526190419976102640700498522769611720int);
    lemma_pow_mod_step(3int, 5708990770823839524233143877797980545530986495nat, m, 2854495385411919762116571938898990272765493247nat, 73401570304588797680480944861683069425478526190419976102640700498522769611720int, 46529867097718575298340873518359731701542497263614631846419942104258394420183int, 106174631377596161247190487156665415484079775335018730639903319798311495984071int, 2int, 86939715658156092894429491452620430745699356673775063840794791379116818608887int);
    lemma_pow_mod_step(3int, 11417981541647679048466287755595961091061972991nat, m, 5708990770823839524233143877797980545530986495nat, 86939715658156092894429491452620430745699356673775063840794791379116818608887int, 65276602300782714166946403226192610044564247270500758345909492582871690354529int, 113277551391159456458769509649975321800115099051440687085210419009126095367042int, 2int, 108248475698845978529166558932550149693805327823040933176716089011560616757800int);
    lemma_pow_mod_step(3int, 22835963083295358096932575511191922182123945983nat, m, 11417981541647679048466287755595961091061972991nat, 108248475698845978529166558932550149693805327823040933176716089011560616757800int, 101196312876850545436556126093446876123322280780958607873566931644076538852979int, 39916892447214251332913285281614300931406238710949843583367546584551766405923int, 1int, 3958588104326558575168870836154994940948731467208966710645055745746464546106int);
    lemma_pow_mod_step(3int, 45671926166590716193865151022383844364247891967nat, m, 22835963083295358096932575511191922182123945983nat, 3958588104326558575168870836154994940948731467208966710645055745746464546106int, 135332386546711058171637907891652626359081101406888265771906289437216206274int, 51435760908067260205620141047458066202265760231704094797722180733463329149574int, 1int, 38515193486885585193289438133686290753527296029471720353708958192481152777059int);
    lemma_pow_mod_step(3int, 91343852333181432387730302044767688728495783935nat, m, 45671926166590716193865151022383844364247891967nat, 38515193486885585193289438133686290753527296029471720353708958192481152777059int, 12811066274933171770017750809779660278528328766514412956959422892106322714268int, 73633112364004561362106200002928708034910836208643952641280239143511011301797int, 1int, 105107247854697488662747615000098216251462523960291293884383133422624199233728int);
}

proof fn lemma_certificate_2_13()
    requires
        pow_mod(3int, 91343852333181432387730302044767688728495783935nat, 115792089237316195423570985008687907853269984665640564039457584007908834671663int) == 105107247854697488662747615000098216251462523960291293884383133422624199233728int,
    ensures
        pow_mod(3int, 374144419156711147060143317175368453031918731001855nat, 115792089237316195423570985008687907853269984665640564039457584007908834671663int) == 73229120056850801965621575172857525490635316926307050269201519791139348539768int,
{
    let m: int = 115792089237316195423570985008687907853269984665640564039457584007908834671663int;
    lemma_pow_mod_step(3int, 182687704666362864775460604089535377456991567871nat, m, 91343852333181432387730302044767688728495783935nat, 105107247854697488662747615000098216251462523960291293884383133422624199233728int, 95408361869582129935780781464618982502573031953061039348009209769802752764594int, 70214718778877701934111709196572426524098901424525301691570728577268851278162int, 1int, 94852067099316910378764142581029371719026719607935341035254601723897719162823int);
    lemma_pow_mod_step(3int, 365375409332725729550921208179070754913983135743nat, m, 182687704666362864775460604089535377456991567871nat, 94852067099316910378764142581029371719026719607935341035254601723897719162823int, 77698871246498687590807255461842544973372391219333581296137558332859805766971int, 115767868859059541883817801628628247561760688069325059177156712525585310286556int, 2int, 115719428102546234804311434868508926978742094876694049452554969560938261516342int);
    lemma_pow_mod_step(3int, 730750818665451459101842416358141509827966271487nat, m, 365375409332725729550921208179070754913983135743nat, 115719428102546234804311434868508926978742094876694049452554969560938261516342int, 115646812563641594809354373869554124597335902989212138970523729683037440369079int, 21820861955145976911153737743423509906269729398847505005612874167534630352587int, 0int, 65462585865437930733461213230270529718809188196542515016838622502603891057761int);
    lemma_pow_mod_step(3int, 1461501637330902918203684832716283019655932542975nat, m, 730750818665451459101842416358141509827966271487nat, 65462585865437930733461213230270529718809188196542515016838622502603891057761int, 37009006197366362459728147867251940149442255209916664756691309890183815427377int, 27031187858106829268324119719952566210463244247792010505419445391929622015170int, 0int, 81093563574320487804972359159857698631389732743376031516258336175788866045510int);
    lemma_pow_mod_step(3int, 2923003274661805836407369665432566039311865085951nat, m, 1461501637330902918203684832716283019655932542975nat, 81093563574320487804972359159857698631389732743376031516258336175788866045510int, 56792878481573026991942724980458321196399266611582686705791886583300048754551int, 57360928123101247565992940399359229711808102172468378276527511547335229171787int, 1int, 56290695131987547274407836189389781282154321851764570790124950634096852843698int);
    lemma_pow_mod_step(3int, 5846006549323611672814739330865132078623730171903nat, m, 2923003274661805836407369665432566039311865085951nat, 56290695131987547274407836189389781282154321851764570790124950634096852843698int, 27364929498320266038974767011534094791219515734841398558813337317745068908875int, 51037584153692660664316241392006460238637383444503769281671314936668926606079int, 1int, 37320663223761786569377739167331472862642165667870743805556360802097945146574int);
    lemma_pow_mod_step(3int, 11692013098647223345629478661730264157247460343807nat, m, 5846006549323611672814739330865132078623730171903nat, 37320663223761786569377739167331472862642165667870743805556360802097945146574int, 12028731087206076836110122898082585346141675201477451072063852075116800611590int, 18378117614702108799433491254865723472739497213054251408248099093967101563306int, 0int, 55134352844106326398300473764597170418218491639162754224744297281901304689918int);
    lemma_pow_mod_step(3int, 23384026197294446691258957323460528314494920687615nat, m, 11692013098647223345629478661730264157247460343807nat, 55134352844106326398300473764597170418218491639162754224744297281901304689918int, 26252198086765181265535413490690520248598683880864225583396513288202207641836int, 55708963046702063871218792826704239882263906115619335969773579412411568353456int, 1int, 51334799902789996190085393471424811793521733681217443869863154229325870388705int);
    lemma_pow_mod_step(3int, 46768052394588893382517914646921056628989841375231nat, m, 23384026197294446691258957323460528314494920687615nat, 51334799902789996190085393471424811793521733681217443869863154229325870388705int, 22758564064411273944782966204650340799956917269089352628232034465314762675968int, 60943980010124226770967769344609149987791319984406364891058534788603250882241int, 1int, 67039850793056484889332323025139542110103975287578530633718020357900917975060int);
    lemma_pow_mod_step(3int, 93536104789177786765035829293842113257979682750463nat, m, 46768052394588893382517914646921056628989841375231nat, 67039850793056484889332323025139542110103975287578530633718020357900917975060int, 38813891553024068276443724861177353052412636719741085056661359835068542827168int, 82351538730023110936402347344954640430908696408323693189992935021127745863216int, 2int, 15470437715436941962065072017488105586186119893689951491063637047565568246322int);
    lemma_pow_mod_step(3int, 187072209578355573530071658587684226515959365500927nat, m, 93536104789177786765035829293842113257979682750463nat, 15470437715436941962065072017488105586186119893689951491063637047565568246322int, 2066932591713560061785765170361992888530069983642489434039985529343912999659int, 60529106706368411210279409602823742792267101877045329350767547050017770564767int, 1int, 65795230881789038207267243799783320523531320965495424012845057142144477022638int);
    lemma_pow_mod_step(3int, 374144419156711147060143317175368453031918731001855nat, m, 187072209578355573530071658587684226515959365500927nat, 65795230881789038207267243799783320523531320965495424012845057142144477022638int, 37386080822115606496236311910747535723886910561669085870068272195332431870542int, 101604432843827730937587848396744447065725095419196059449372229268985672627698int, 2int, 73229120056850801965621575172857525490635316926307050269201519791139348539768int);
}

proof fn lemma_certificate_2_14()
    requires
        pow_mod(3int, 374144419156711147060143317175368453031918731001855nat, 115792089237316195423570985008687907853269984665640564039457584007908834671663int) == 73229120056850801965621575172857525490635316926307050269201519791139348539768int,
    ensures
        pow_mod(3int, 1532495540865888858358347027150309183618739122183602175nat, 115792089237316195423570985008687907853269984665640564039457584007908834671663int) == 46940955751518376016629290785470970651078625766736484003699282320597557794732int,
{
    let m: int = 115792089237316195423570985008687907853269984665640564039457584007908834671663int;
    lemma_pow_mod_step(3int, 748288838313422294120286634350736906063837462003711nat, m, 374144419156711147060143317175368453031918731001855nat, 73229120056850801965621575172857525490635316926307050269201519791139348539768int, 46311488631232847999998942819450063277040751141702782043511610199674987354639int, 107965005407133861779735068102770946249036574263529379742720452271461372599167int, 2int, 92310837746769194492063234290937023040569753459307011149246188798566448454175int);
    lemma_pow_mod_step(3int, 1496577676626844588240573268701473812127674924007423nat, m, 748288838313422294120286634350736906063837462003711nat, 92310837746769194492063234290937023040569753459307011149246188798566448454175int, 73591303357917138944248293854086313403835452215607397965869308307969555470783int, 47553024593809892749422235577946955037754560322661431286380914567113880408496int, 1int, 26866984544113482824695721725152957259993696302343729819685159693432806553825int);
    lemma_pow_mod_step(3int, 2993155353253689176481146537402947624255349848014847nat, m, 1496577676626844588240573268701473812127674924007423nat, 26866984544113482824695721725152957259993696302343729819685159693432806553825int, 6233887506893759423371959246787136811290462883357355679234440694939882451691int, 91887483802934425709087220507369245386980921238692843141686145140467177998492int, 2int, 44078272934170886280119691504731920454402794384797401346143267405583864652150int);
    lemma_pow_mod_step(3int, 5986310706507378352962293074805895248510699696029695nat, m, 2993155353253689176481146537402947624255349848014847nat, 44078272934170886280119691504731920454402794384797401346143267405583864652150int, 16779161319710666812095711013718611231307883596061481350182111062795645354888int, 30357978465376814936782440476960511470531084369332631025745876338413907483756int, 0int, 91073935396130444810347321430881534411593253107997893077237629015241722451268int);
    lemma_pow_mod_step(3int, 11972621413014756705924586149611790497021399392059391nat, m, 5986310706507378352962293074805895248510699696029695nat, 91073935396130444810347321430881534411593253107997893077237629015241722451268int, 71632369388715498074923034364887246960949434476479665258720420136518660373320int, 112006595627905753110938011677911082447536323888241238664598595988119429576664int, 2int, 104435608409084868485672065016357431636069002333442587914880619948540619386666int);
    lemma_pow_mod_step(3int, 23945242826029513411849172299223580994042798784118783nat, m, 11972621413014756705924586149611790497021399392059391nat, 104435608409084868485672065016357431636069002333442587914880619948540619386666int, 94192931275488172676978734123360686992066707620873908807463987284822550132474int, 106002726600027969868051076735433103143621606059991802327135991791757074711294int, 2int, 86424001325451518757011260188923493724324848848694278902492807359453554790556int);
    lemma_pow_mod_step(3int, 47890485652059026823698344598447161988085597568237567nat, m, 23945242826029513411849172299223580994042798784118783nat, 86424001325451518757011260188923493724324848848694278902492807359453554790556int, 64504475688263030756814465565787550742329444160298661389334449678019027080422int, 60027168337760243318038740235784470638771087758214095844884395388263161307350int, 1int, 64289415775964534530545235698665504063043278609001723495195602156880649250387int);
    lemma_pow_mod_step(3int, 95780971304118053647396689196894323976171195136475135nat, m, 47890485652059026823698344598447161988085597568237567nat, 64289415775964534530545235698665504063043278609001723495195602156880649250387int, 35694398538262650348418007019182512438227689815194065718320315131410612474177int, 52277078523225757664862359436176794193343213605063820537154797709799158503418int, 1int, 41039146332361077571016093299842474726759656149550897572006809121488640838591int);
    lemma_pow_mod_step(3int, 191561942608236107294793378393788647952342390272950271nat, m, 95780971304118053647396689196894323976171195136475135nat, 41039146332361077571016093299842474726759656149550897572006809121488640838591int, 14545134670099523491116040934435891269798044376822066451872740493990687579646int, 75425841973439985911807224750200109724772529905574980644205753611731143093983int, 1int, 110485436683003762311850689241912421321047605051084377893159676827284594610286int);
    lemma_pow_mod_step(3int, 383123885216472214589586756787577295904684780545900543nat, m, 191561942608236107294793378393788647952342390272950271nat, 110485436683003762311850689241912421321047605051084377893159676827284594610286int, 105421983482962202794712438310202601496789819643608896713681001682018092580483int, 33904783178357454493261214286143628311319869273197288471289140258036510048567int, 0int, 101714349535072363479783642858430884933959607819591865413867420774109530145701int);
    lemma_pow_mod_step(3int, 766247770432944429179173513575154591809369561091801087nat, m, 383123885216472214589586756787577295904684780545900543nat, 101714349535072363479783642858430884933959607819591865413867420774109530145701int, 89348149510793544926369285372780908079665639115653122545204434629500884802083int, 96042960203018560338836089911288411634565481238169009825060458715192245307372int, 2int, 56544702134423290169366299716489419197156474383225901396266208129759066578790int);
    lemma_pow_mod_step(3int, 1532495540865888858358347027150309183618739122183602175nat, m, 766247770432944429179173513575154591809369561091801087nat, 56544702134423290169366299716489419197156474383225901396266208129759066578790int, 27612450561434918697089343508108929061954702615025833608824650963657891989312int, 15646985250506125338876430261823656883692875255578828001233094106865852598244int, 0int, 46940955751518376016629290785470970651078625766736484003699282320597557794732int);
}

proof fn lemma_certificate_2_15()
    requires
        pow_mod(3int, 1532495540865888858358347027150309183618739122183602175nat, 115792089237316195423570985008687907853269984665640564039457584007908834671663int) == 46940955751518376016629290785470970651078625766736484003699282320597557794732int,
    ensures
        pow_mod(3int, 6277101735386680763835789423207666416102355444464034512895nat, 115792089237316195423570985008687907853269984665640564039457584007908834671663int) == 89994863652766099535261099050774427114615173697201384799264826138602368212595int,
{
    let m: int = 115792089237316195423570985008687907853269984665640564039457584007908834671663int;
    lemma_pow_mod_step(3int, 3064991081731777716716694054300618367237478244367204351nat, m, 1532495540865888858358347027150309183618739122183602175nat, 46940955751518376016629290785470970651078625766736484003699282320597557794732int, 19029394334098442949208028652231814991889362200516183269120017709681530429126int, 55997588940456158822094429510239226537856180512440497132565242792899344895286int, 1int, 52200677584052281042712303522029771760298556871680927358238144370789200014195int);
    lemma_pow_mod_step(3int, 6129982163463555433433388108601236734474956488734408703nat, m, 3064991081731777716716694054300618367237478244367204351nat, 52200677584052281042712303522029771760298556871680927358238144370789200014195int, 23532788450249537047766622422655281031099801657773896465639331069585330078587int, 17228569196206976974202791185624501305017818122506761935752901062294069517844int, 0int, 51685707588620930922608373556873503915053454367520285807258703186882208553532int);
    lemma_pow_mod_step(3int, 12259964326927110866866776217202473468949912977468817407nat, m, 6129982163463555433433388108601236734474956488734408703nat, 51685707588620930922608373556873503915053454367520285807258703186882208553532int, 23070767498299132661323914916723894747556237540937128686668919359704194327639int, 46004722026136316548208590405796729737198375888037083924141723792286098681367int, 1int, 22222076841092754221054786208702281358325142998470687732967587368949461372438int);
    lemma_pow_mod_step(3int, 24519928653854221733733552434404946937899825954937634815nat, m, 12259964326927110866866776217202473468949912977468817407nat, 22222076841092754221054786208702281358325142998470687732967587368949461372438int, 4264718793693618252844985826010554849646277019584011979992804428712277015495int, 51469249228919071686452543657703766020205338381568857662883464380350657645659int, 1int, 38615658449441019635786645964423390207346030479066008949192809133143138265314int);
    lemma_pow_mod_step(3int, 49039857307708443467467104868809893875799651909875269631nat, m, 24519928653854221733733552434404946937899825954937634815nat, 38615658449441019635786645964423390207346030479066008949192809133143138265314int, 12877987497295524353830295046962948541129024464923815390465550126342887763956int, 52384693061485821970030308478017385690153356827875801607357968918889549539768int, 1int, 41361989947141270486519940425364249217190085817986840782616322748759813947641int);
    lemma_pow_mod_step(3int, 98079714615416886934934209737619787751599303819750539263nat, m, 49039857307708443467467104868809893875799651909875269631nat, 41361989947141270486519940425364249217190085817986840782616322748759813947641int, 14774879904628866596307932269372514103853661482278036743213406808734770179933int, 48840756816331240153403889866694730902796044465771346358009081503628803126302int, 1int, 30730181211677525036640684591396284855118148731673475034569660502977574707243int);
    lemma_pow_mod_step(3int, 196159429230833773869868419475239575503198607639501078527nat, m, 98079714615416886934934209737619787751599303819750539263nat, 30730181211677525036640684591396284855118148731673475034569660502977574707243int, 8155514280143117032262942748391968468407162333478231852761926864359117639345int, 60352633305488692002212797000879949412287004057659332092849368123732431280314int, 1int, 65265810679149880583067405993951940383591027507337432239090520363288459169279int);
    lemma_pow_mod_step(3int, 392318858461667547739736838950479151006397215279002157055nat, m, 196159429230833773869868419475239575503198607639501078527nat, 65265810679149880583067405993951940383591027507337432239090520363288459169279int, 36786848494256975278151402832755031995229378079158731149782037817145657814834int, 114216806008575994465990786011699691778694381216787224223606837066322336530899int, 2int, 111066239551095592550830388017723259629543174319080544591905343183149340249371int);
    lemma_pow_mod_step(3int, 784637716923335095479473677900958302012794430558004314111nat, m, 392318858461667547739736838950479151006397215279002157055nat, 111066239551095592550830388017723259629543174319080544591905343183149340249371int, 106533267076123665610280186181958152037309404005289755010046592666466037951993int, 99766398839439168179999917869837815213657837631157579401816437277137354421282int, 2int, 67715018043685113692857783592137629934433543562191610126534143815594393920520int);
    lemma_pow_mod_step(3int, 1569275433846670190958947355801916604025588861116008628223nat, m, 784637716923335095479473677900958302012794430558004314111nat, 67715018043685113692857783592137629934433543562191610126534143815594393920520int, 39599628082182431697421714829707364723301187168591249622324995711145242138452int, 107938981186480815354453143526152985144240539282605252889339034582480669984724int, 2int, 92232765084810055216217460561083139726181648516534630589101935731624340610846int);
    lemma_pow_mod_step(3int, 3138550867693340381917894711603833208051177722232017256447nat, m, 1569275433846670190958947355801916604025588861116008628223nat, 92232765084810055216217460561083139726181648516534630589101935731624340610846int, 73466875079478681038917296955689621821859968190057496827387506708173300455597int, 4031591184368724156447442014278932299664754201761336736055959959008607187905int, 0int, 12094773553106172469342326042836796898994262605284010208167879877025821563715int);
    lemma_pow_mod_step(3int, 6277101735386680763835789423207666416102355444464034512895nat, m, 3138550867693340381917894711603833208051177722232017256447nat, 12094773553106172469342326042836796898994262605284010208167879877025821563715int, 1263329371327845961800996973477068969150346500264288471883872319410170625053int, 68595650963360764986277361353154111655961719454280649612907470048837067628086int, 1int, 89994863652766099535261099050774427114615173697201384799264826138602368212595int);
}

proof fn lemma_certificate_2_16()
    requires
        pow_mod(3int, 6277101735386680763835789423207666416102355444464034512895nat, 115792089237316195423570985008687907853269984665640564039457584007908834671663int) == 89994863652766099535261099050774427114615173697201384799264826138602368212595int,
    ensures
        pow_mod(3int, 25711008708143844408671393477458601640355247900524685364822015nat, 115792089237316195423570985008687907853269984665640564039457584007908834671663int) == 99031372822903997511896044043919084898956607342378265397076678746352404526515int,
{
    let m: int = 115792089237316195423570985008687907853269984665640564039457584007908834671663int;
    lemma_pow_mod_step(3int, 12554203470773361527671578846415332832204710888928069025791nat, m, 6277101735386680763835789423207666416102355444464034512895nat, 89994863652766099535261099050774427114615173697201384799264826138602368212595int, 69944981019220441208973022141661943944212705859666285635271330418512417363709int, 59775428197676913593512371014217689068964512109246495944583266167006049755958int, 1int, 63534195355714545356966128033965159353623551662098923794292214493109314596211int);
    lemma_pow_mod_step(3int, 25108406941546723055343157692830665664409421777856138051583nat, m, 12554203470773361527671578846415332832204710888928069025791nat, 63534195355714545356966128033965159353623551662098923794292214493109314596211int, 34860705995425037957563387252845580095873449481148553752078679813659246706415int, 22282759477140772144770469915317101054113716805089233801108045097183294738376int, 0int, 66848278431422316434311409745951303162341150415267701403324135291549884215128int);
    lemma_pow_mod_step(3int, 50216813883093446110686315385661331328818843555712276103167nat, m, 25108406941546723055343157692830665664409421777856138051583nat, 66848278431422316434311409745951303162341150415267701403324135291549884215128int, 38592380176217092336722317011665757392863324320553550164993474910949927979534int, 28805690562294803923483083232278693270173996566078444350826743091656710311342int, 0int, 86417071686884411770449249696836079810521989698235333052480229274970130934026int);
    lemma_pow_mod_step(3int, 100433627766186892221372630771322662657637687111424552206335nat, m, 50216813883093446110686315385661331328818843555712276103167nat, 86417071686884411770449249696836079810521989698235333052480229274970130934026int, 64494131923214697492566223553703516923167055356895105976396648129613192075661int, 115623201571244824608353393581144462093589569981535804358293742498440775874433int, 2int, 115285426239102082977918210726057570574228740613326284995966059479504658279973int);
    lemma_pow_mod_step(3int, 200867255532373784442745261542645325315275374222849104412671nat, m, 100433627766186892221372630771322662657637687111424552206335nat, 115285426239102082977918210726057570574228740613326284995966059479504658279973int, 114780980209209814965210922363843790585976082308166315445550445945822996818503int, 29236028516989041505256204305888858829618127834860575521057726299439244700240int, 0int, 87708085550967124515768612917666576488854383504581726563173178898317734100720int);
    lemma_pow_mod_step(3int, 401734511064747568885490523085290650630550748445698208825343nat, m, 200867255532373784442745261542645325315275374222849104412671nat, 87708085550967124515768612917666576488854383504581726563173178898317734100720int, 66435525273661329170097326289533962364924312473545675013240712311145737740509int, 6959345095050471386624160685938745671799959161224594651763277579942595021933int, 0int, 20878035285151414159872482057816237015399877483673783955289832739827785065799int);
    lemma_pow_mod_step(3int, 803469022129495137770981046170581301261101496891396417650687nat, m, 401734511064747568885490523085290650630550748445698208825343nat, 20878035285151414159872482057816237015399877483673783955289832739827785065799int, 3764439870107749275472374864904770380766835408521579126490372268093225777119int, 20821422649903250895211494526564323961170466462862707528918506026380376429504int, 0int, 62464267949709752685634483579692971883511399388588122586755518079141129288512int);
    lemma_pow_mod_step(3int, 1606938044258990275541962092341162602522202993782792835301375nat, m, 803469022129495137770981046170581301261101496891396417650687nat, 62464267949709752685634483579692971883511399388588122586755518079141129288512int, 33696470943679224466816839272330718723112717477710170354775506882854675695401int, 18597703682230495071846385925776366960735101944022352998636651390789301052281int, 0int, 55793111046691485215539157777329100882205305832067058995909954172367903156843int);
    lemma_pow_mod_step(3int, 3213876088517980551083924184682325205044405987565585670602751nat, m, 1606938044258990275541962092341162602522202993782792835301375nat, 55793111046691485215539157777329100882205305832067058995909954172367903156843int, 26883280721264209471829371902587628616095175208861332889400223703852719738022int, 46875248534531094985667426280017990077485961579895085308035825438261310656063int, 1int, 24833656366277089533431293831366062379187900074044691884649892306875097296526int);
    lemma_pow_mod_step(3int, 6427752177035961102167848369364650410088811975131171341205503nat, m, 3213876088517980551083924184682325205044405987565585670602751nat, 24833656366277089533431293831366062379187900074044691884649892306875097296526int, 5326015728538974964039250059581385028677856290113312667749371997906391352597int, 41592978975435242215131716096098015262274582379474092554904511773437014309865int, 1int, 8986847688989531221824163279606137933553762472781713625255951312402208257932int);
    lemma_pow_mod_step(3int, 12855504354071922204335696738729300820177623950262342682411007nat, m, 6427752177035961102167848369364650410088811975131171341205503nat, 8986847688989531221824163279606137933553762472781713625255951312402208257932int, 697486606529497971753580358912489286643114198190473603807293672210876124843int, 70965218955097452262568217095894808040961397094562595419949760196440538492715int, 1int, 97103567627976161364133666278996516269614206618047222220391696581412780806482int);
    lemma_pow_mod_step(3int, 25711008708143844408671393477458601640355247900524685364822015nat, m, 12855504354071922204335696738729300820177623950262342682411007nat, 97103567627976161364133666278996516269614206618047222220391696581412780806482int, 81431321502075746349284217318146492407837212986530157636009472888220671188413int, 33010457607634665837298681347973028299652202447459421799025559582117468175505int, 0int, 99031372822903997511896044043919084898956607342378265397076678746352404526515int);
}

proof fn lemma_certificate_2_17()
    requires
        pow_mod(3int, 25711008708143844408671393477458601640355247900524685364822015nat, 115792089237316195423570985008687907853269984665640564039457584007908834671663int) == 99031372822903997511896044043919084898956607342378265397076678746352404526515int,
    ensures
        pow_mod(3int, 105312291668557186697918027683670432318895095400549111254310977535nat, 115792089237316195423570985008687907853269984665640564039457584007908834671663int) == 32310664088876457754287274480568114921628078877469460108441446429534343690319int,
{
    let m: int = 115792089237316195423570985008687907853269984665640564039457584007908834671663int;
    lemma_pow_mod_step(3int, 51422017416287688817342786954917203280710495801049370729644031nat, m, 25711008708143844408671393477458601640355247900524685364822015nat, 99031372822903997511896044043919084898956607342378265397076678746352404526515int, 84696742824020557234968756953349966646783524890620743424114072434511374144602int, 107560425050860270049574796945919547298043807035697180071852479925955184232099int, 2int, 91097096677948419301582420820382826187591451775810412136642271762047883352971int);
    lemma_pow_mod_step(3int, 102844034832575377634685573909834406561420991602098741459288063nat, m, 51422017416287688817342786954917203280710495801049370729644031nat, 91097096677948419301582420820382826187591451775810412136642271762047883352971int, 71668808100899812446561228449376377607694797505343147105914577539463877671965int, 57686938393660052522212558338923561463459556842350000146013072491637779499046int, 1int, 57268725943663962143066690008082776537108685861409436398581633467004503825475int);
    lemma_pow_mod_step(3int, 205688069665150755269371147819668813122841983204197482918576127nat, m, 102844034832575377634685573909834406561420991602098741459288063nat, 57268725943663962143066690008082776537108685861409436398581633467004503825475int, 28324102214692072745021498195286006293416557085570657691196768131716794014315int, 21630575545317156720960213481457480122012777706793495287147143385932512119780int, 0int, 64891726635951470162880640444372440366038333120380485861441430157797536359340int);
    lemma_pow_mod_step(3int, 411376139330301510538742295639337626245683966408394965837152255nat, m, 205688069665150755269371147819668813122841983204197482918576127nat, 64891726635951470162880640444372440366038333120380485861441430157797536359340int, 36366354675272579059248533481528986337037032433842451433371361987432493271481int, 15075578629829896569392872672873689553245812676606155830249518098410248492697int, 0int, 45226735889489689708178618018621068659737438029818467490748554295230745478091int);
    lemma_pow_mod_step(3int, 822752278660603021077484591278675252491367932816789931674304511nat, m, 411376139330301510538742295639337626245683966408394965837152255nat, 45226735889489689708178618018621068659737438029818467490748554295230745478091int, 17664916944589227272311012129414819786532106756785379034194159861969314211719int, 17340559810644212889005033595289812295470290557216776560494917127527129185584int, 0int, 52021679431932638667015100785869436886410871671650329681484751382581387556752int);
    lemma_pow_mod_step(3int, 1645504557321206042154969182557350504982735865633579863348609023nat, m, 822752278660603021077484591278675252491367932816789931674304511nat, 52021679431932638667015100785869436886410871671650329681484751382581387556752int, 23371675463703623496784233117054899060968025220675318986210250218525308152187int, 60536753548722094499516651385356840391111585273211559269266645816290640412523int, 1int, 65818171408850088074978969147382613320064771153994113768342353440963086565906int);
    lemma_pow_mod_step(3int, 3291009114642412084309938365114701009965471731267159726697218047nat, m, 1645504557321206042154969182557350504982735865633579863348609023nat, 65818171408850088074978969147382613320064771153994113768342353440963086565906int, 37412155840165045309310788227379573955613965756596103424310529359022731296537int, 96842827793784613666149661152163685508431441903593240397095838507933397669805int, 2int, 58944304906721450151307013439115240818754356379498593112372347507982523666089int);
    lemma_pow_mod_step(3int, 6582018229284824168619876730229402019930943462534319453394436095nat, m, 3291009114642412084309938365114701009965471731267159726697218047nat, 58944304906721450151307013439115240818754356379498593112372347507982523666089int, 30005772448027003521040051663991861122460996371979428732988412428464282761281int, 79648830348924861806526364037651203007817104550372840720882603032360124275618int, 2int, 7362312572142194572437122095577793316911344319837394083732641081262703483528int);
    lemma_pow_mod_step(3int, 13164036458569648337239753460458804039861886925068638906788872191nat, m, 6582018229284824168619876730229402019930943462534319453394436095nat, 7362312572142194572437122095577793316911344319837394083732641081262703483528int, 468111826696835042126213807194729206187844528949457137539104166112415658363int, 105026925350908047124192220965671621217539755197049874833635051236629082259115int, 2int, 83496597578091750525434692879639047946079296259868496421989985694069577434019int);
    lemma_pow_mod_step(3int, 26328072917139296674479506920917608079723773850137277813577744383nat, m, 13164036458569648337239753460458804039861886925068638906788872191nat, 83496597578091750525434692879639047946079296259868496421989985694069577434019int, 60208619198754733058909952821825710845164435379680328327418187460842155808011int, 13137245549749845127182676262069467931347659639862929564858444376902648400068int, 0int, 39411736649249535381548028786208403794042978919588788694575333130707945200204int);
    lemma_pow_mod_step(3int, 52656145834278593348959013841835216159447547700274555627155488767nat, m, 26328072917139296674479506920917608079723773850137277813577744383nat, 39411736649249535381548028786208403794042978919588788694575333130707945200204int, 13414430950687289851866439366338538199024210618151360233991876379829267224493int, 110653695333391482245105177779471956516779820741241242301181686110898674999757int, 2int, 100376907525542055888173563321040053843799492892442598824629890316878355655945int);
    lemma_pow_mod_step(3int, 105312291668557186697918027683670432318895095400549111254310977535nat, m, 52656145834278593348959013841835216159447547700274555627155488767nat, 100376907525542055888173563321040053843799492892442598824629890316878355655945int, 87013919782908563134868349165370690865855333982223011932930618557398253595870int, 87964947521169616200476414832647976876056016069583529395785538148450671011215int, 2int, 32310664088876457754287274480568114921628078877469460108441446429534343690319int);
}

proof fn lemma_certificate_2_18()
    requires
        pow_mod(3int, 105312291668557186697918027683670432318895095400549111254310977535nat, 115792089237316195423570985008687907853269984665640564039457584007908834671663int) == 32310664088876457754287274480568114921628078877469460108441446429534343690319int,
    ensures
        pow_mod(3int, 431359146674410236714672241392314090778194310760649159697657763987439nat, 115792089237316195423570985008687907853269984665640564039457584007908834671663int) == 41590534959420003194111581758072708719459440916836390782199886857485422985903int,
{
    let m: int = 115792089237316195423570985008687907853269984665640564039457584007908834671663int;
    lemma_pow_mod_step(3int, 210624583337114373395836055367340864637790190801098222508621955071nat, m, 105312291668557186697918027683670432318895095400549111254310977535nat, 32310664088876457754287274480568114921628078877469460108441446429534343690319int, 9015978731712604004295130260016813444840684920337184110864498259389262660333int, 66959150254657885112842642961194773455217354204000245556602389943319425077982int, 1int, 85085361526657459914956943874896412512382077946360172630349585822049440562283int);
    lemma_pow_mod_step(3int, 421249166674228746791672110734681729275580381602196445017243910143nat, m, 210624583337114373395836055367340864637790190801098222508621955071nat, 85085361526657459914956943874896412512382077946360172630349585822049440562283int, 62521704149275590992042528489496724460717374500930433149991696587233180960508int, 84330423275381774958838463820343565539991581413914593682388821032508052487285int, 2int, 21407091351512934029373421443654880913434774910462652968251295081706488118529int);
    lemma_pow_mod_step(3int, 842498333348457493583344221469363458551160763204392890034487820287nat, m, 421249166674228746791672110734681729275580381602196445017243910143nat, 21407091351512934029373421443654880913434774910462652968251295081706488118529int, 3957641347957782063164746061839143607124437833501328142504019263880506759357int, 100256797278304830050029503208033966462968042674010190178862653915375105123150int, 2int, 69186213360282099302946539606726083682364158690749442457672793730307646026124int);
    lemma_pow_mod_step(3int, 1684996666696914987166688442938726917102321526408785780068975640575nat, m, 842498333348457493583344221469363458551160763204392890034487820287nat, 69186213360282099302946539606726083682364158690749442457672793730307646026124int, 41339025408929767405433626619983649688172990437734860077999219453382927099101int, 97841743665067447342937022487584528366248978873924530081856320001566492988413int, 2int, 61941052520569951181669097445377769392206967290492462166653791988881809621913int);
    lemma_pow_mod_step(3int, 3369993333393829974333376885877453834204643052817571560137951281151nat, m, 1684996666696914987166688442938726917102321526408785780068975640575nat, 61941052520569951181669097445377769392206967290492462166653791988881809621913int, 33134335969123853983467508401692968976259440244957231316387839895158842870233int, 59201309269941270621322454060048869729042112403936047975549008556130938472090int, 1int, 61811838572507616440396377171458701333856352546167579887189441660483980744607int);
    lemma_pow_mod_step(3int, 6739986666787659948666753771754907668409286105635143120275902562303nat, m, 3369993333393829974333376885877453834204643052817571560137951281151nat, 61811838572507616440396377171458701333856352546167579887189441660483980744607int, 32996238455316223171517642248832599139442290348642956346407584708788871407177int, 111195598278190481845421931554770176997147396071329728593235982421308582859098int, 2int, 102002616359939054689123824646934715284902218882708057700792779248108079233968int);
    lemma_pow_mod_step(3int, 13479973333575319897333507543509815336818572211270286240551805124607nat, m, 6739986666787659948666753771754907668409286105635143120275902562303nat, 102002616359939054689123824646934715284902218882708057700792779248108079233968int, 89855307152708738635627292803549862400717639494769001545871109875629595783308int, 66013505324472191907425608264854152513233568311986434407216508658974209023820int, 1int, 82248426736100380298705839785874549686430720270318739182191941969013792399797int);
    lemma_pow_mod_step(3int, 26959946667150639794667015087019630673637144422540572481103610249214nat, m, 13479973333575319897333507543509815336818572211270286240551805124607nat, 82248426736100380298705839785874549686430720270318739182191941969013792399797int, 58421985000194518017933031557294826108787820297292708785764372621504614423290int, 94954889311071594046208559263246233213951223233604228799367845417979035409939int, 0int, 94954889311071594046208559263246233213951223233604228799367845417979035409939int);
    lemma_pow_mod_step(3int, 53919893334301279589334030174039261347274288845081144962207220498429nat, m, 26959946667150639794667015087019630673637144422540572481103610249214nat, 94954889311071594046208559263246233213951223233604228799367845417979035409939int, 77867417916595831488655471662382399379923943433904105974021916878334849492016int, 52697058212439615309134194380173137429060977113975769124138488681542080041113int, 1int, 42299085400002650503831598131831504433912946676286743332957882036717405451676int);
    lemma_pow_mod_step(3int, 107839786668602559178668060348078522694548577690162289924414440996859nat, m, 53919893334301279589334030174039261347274288845081144962207220498429nat, 42299085400002650503831598131831504433912946676286743332957882036717405451676int, 15451941816247233816100119553951808408811768326091217364984841492292819331292int, 16716829400782643508586712889840457770343744308114388808786317715101529630380int, 0int, 50150488202347930525760138669521373311031232924343166426358953145304588891140int);
    lemma_pow_mod_step(3int, 215679573337205118357336120696157045389097155380324579848828881993719nat, m, 107839786668602559178668060348078522694548577690162289924414440996859nat, 50150488202347930525760138669521373311031232924343166426358953145304588891140int, 21720581116549277311078532131355836877693490256903689180780174437512860509207int, 105970969318397198437765072894357200568290215807597319181439919531831936998359int, 2int, 86328729480559204466153248665695785998330678091510829465404590579678141651751int);
    lemma_pow_mod_step(3int, 431359146674410236714672241392314090778194310760649159697657763987439nat, m, 215679573337205118357336120696157045389097155380324579848828881993719nat, 86328729480559204466153248665695785998330678091510829465404590579678141651751int, 64362337555317331008423953919346744309783871372204954803769514479843938398900int, 13863511653140001064703860586024236239819813638945463594066628952495140995301int, 0int, 41590534959420003194111581758072708719459440916836390782199886857485422985903int);
}

proof fn lemma_certificate_2_19()
    requires
        pow_mod(3int, 431359146674410236714672241392314090778194310760649159697657763987439nat, 115792089237316195423570985008687907853269984665640564039457584007908834671663int) == 41590534959420003194111581758072708719459440916836390782199886857485422985903int,
    ensures
        pow_mod(3int, 1766847064778384329583297500742918515827483896875618958121606201292554239nat, 115792089237316195423570985008687907853269984665640564039457584007908834671663int) == 86863675978851922042085250430643621153089980560023508434018614284414697133860int,
{
    let m: int = 115792089237316195423570985008687907853269984665640564039457584007908834671663int;
    lemma_pow_mod_step(3int, 862718293348820473429344482784628181556388621521298319395315527974879nat, m, 431359146674410236714672241392314090778194310760649159697657763987439nat, 41590534959420003194111581758072708719459440916836390782199886857485422985903int, 14938607720131587725907087881447445571051376820955420824511190781303648571011int, 82045374733379182947408474122299277518177062198378604995756119769262811764116int, 2int, 14551945725505157995083452349522016847991217263854686908353191291970765949022int);
    lemma_pow_mod_step(3int, 1725436586697640946858688965569256363112777243042596638790631055949759nat, m, 862718293348820473429344482784628181556388621521298319395315527974879nat, 14551945725505157995083452349522016847991217263854686908353191291970765949022int, 1828787491380753562417952099562660497063043707347290136018118950353363065572int, 86768778905622386878215293634380945505392411736202598240710836053624543470248int, 2int, 28722158242234769787503910885767020809637265877326666643217340145055961067418int);
    lemma_pow_mod_step(3int, 3450873173395281893717377931138512726225554486085193277581262111899519nat, m, 1725436586697640946858688965569256363112777243042596638790631055949759nat, 28722158242234769787503910885767020809637265877326666643217340145055961067418int, 7124514114269172021746827894884518631551907898128129798316774460828010905691int, 103570964754602818142759783286151682173584238630322732378461401862498698052591int, 2int, 79128715789176063581137379841079230814212746559687069056469037571678424814447int);
    lemma_pow_mod_step(3int, 6901746346790563787434755862277025452451108972170386555162524223799039nat, m, 3450873173395281893717377931138512726225554486085193277581262111899519nat, 79128715789176063581137379841079230814212746559687069056469037571678424814447int, 54074105611926046587790633649314807866939787257039857120715410194187129442211int, 4223313417281633470054485782709426139291378502031971950946228062131862148916int, 0int, 12669940251844900410163457348128278417874135506095915852838684186395586446748int);
    lemma_pow_mod_step(3int, 13803492693581127574869511724554050904902217944340773110325048447598079nat, m, 6901746346790563787434755862277025452451108972170386555162524223799039nat, 12669940251844900410163457348128278417874135506095915852838684186395586446748int, 1386341563077925929155028205437478399602321933054664972783816368867544176872int, 49370196736649517204339722275470227772400031827894685525020197878096521397368int, 1int, 32318500972632356189448181817722775463930110818043492535603009626380729520441int);
    lemma_pow_mod_step(3int, 27606985387162255149739023449108101809804435888681546220650096895196159nat, m, 13803492693581127574869511724554050904902217944340773110325048447598079nat, 32318500972632356189448181817722775463930110818043492535603009626380729520441int, 9020352875552342157216908990019873497401169100866144508107617165982569247793int, 46634474156131564074369663277362916299100796690992890469360756217121794444722int, 1int, 24111333231078496799538004823400841044032405407338107368624684643456548662503int);
    lemma_pow_mod_step(3int, 55213970774324510299478046898216203619608871777363092441300193790392319nat, m, 27606985387162255149739023449108101809804435888681546220650096895196159nat, 24111333231078496799538004823400841044032405407338107368624684643456548662503int, 5020691776176684692395523014228679702252740053035528815695017190588657959843int, 80710598591200936205697479225022905022861960867325696463876082564553854196100int, 2int, 10547617298970417769950467657692899362045913270695961312713079677843893244974int);
    lemma_pow_mod_step(3int, 110427941548649020598956093796432407239217743554726184882600387580784639nat, m, 55213970774324510299478046898216203619608871777363092441300193790392319nat, 10547617298970417769950467657692899362045913270695961312713079677843893244974int, 960793016330573914190850096750041071616557928210050375430385666215174666574int, 79168213537972706996029327936877627453106888659847146795289733686770785168114int, 2int, 5920462139285730140946013793257066652780696648260312306954033044494686161016int);
    lemma_pow_mod_step(3int, 220855883097298041197912187592864814478435487109452369765200775161569279nat, m, 110427941548649020598956093796432407239217743554726184882600387580784639nat, 5920462139285730140946013793257066652780696648260312306954033044494686161016int, 302713874268879105726696476988319611274525153482173505237848291093728974460int, 70132747160397732753974573548608568253963354159890327072069342427084065425276int, 1int, 94606152243877002838352735637137796908620077814030417176750443273343361604165int);
    lemma_pow_mod_step(3int, 441711766194596082395824375185729628956870974218904739530401550323138559nat, m, 220855883097298041197912187592864814478435487109452369765200775161569279nat, 94606152243877002838352735637137796908620077814030417176750443273343361604165int, 77296507052808423603373598384893041596073490917521315956200727462231901423239int, 59835299036017659561278750458281037220345844222149666447141353478163182370768int, 1int, 63713807870736783260265266366155203807767548000808435301966476426580712440641int);
    lemma_pow_mod_step(3int, 883423532389192164791648750371459257913741948437809479060803100646277119nat, m, 441711766194596082395824375185729628956870974218904739530401550323138559nat, 63713807870736783260265266366155203807767548000808435301966476426580712440641int, 35058088511291201307810053482581989601557119519462663961898257455992494685321int, 102177621147098040189783413099121985343792279814294971764960756474243407732058int, 2int, 74948684966661729722208269279990140324836870111603787215967101406912553852848int);
    lemma_pow_mod_step(3int, 1766847064778384329583297500742918515827483896875618958121606201292554239nat, m, 883423532389192164791648750371459257913741948437809479060803100646277119nat, 74948684966661729722208269279990140324836870111603787215967101406912553852848int, 48511996071849292104461435581080790299798649948576941552152040504636044001868int, 28954558659617307347361750143547873717696660186674502811339538094804899044620int, 0int, 86863675978851922042085250430643621153089980560023508434018614284414697133860int);
}

proof fn lemma_certificate_2_20()
    requires
        pow_mod(3int, 1766847064778384329583297500742918515827483896875618958121606201292554239nat, 115792089237316195423570985008687907853269984665640564039457584007908834671663int) == 86863675978851922042085250430643621153089980560023508434018614284414697133860int,
    ensures
        pow_mod(3int, 7237005577332262213973186563042994240829374041602535252466099000494302166978nat, 115792089237316195423570985008687907853269984665640564039457584007908834671663int) == 6099752907902598855186509798543082205652571479031389638685532441804606467364int,
{
    let m: int = 115792089237316195423570985008687907853269984665640564039457584007908834671663int;
    lemma_pow_mod_step(3int, 3533694129556768659166595001485837031654967793751237916243212402585108479nat, m, 1766847064778384329583297500742918515827483896875618958121606201292554239nat, 86863675978851922042085250430643621153089980560023508434018614284414697133860int, 65162467093022802637227931647349733076314345989480564680805124461541604930800int, 67761723037701422155442251938342408205010793326097015959849921614018922579200int, 1int, 87493079875788071042755770806339316761762395312650483840092180834147933065937int);
    lemma_pow_mod_step(3int, 7067388259113537318333190002971674063309935587502475832486424805170216959nat, m, 3533694129556768659166595001485837031654967793751237916243212402585108479nat, 87493079875788071042755770806339316761762395312650483840092180834147933065937int, 66110207325666338568406037668289876788417591924510961244924735711548691591972int, 18285373381535449283908584140549908904255272578493984248220902882399402998533int, 0int, 54856120144606347851725752421649726712765817735481952744662708647198208995599int);
    lemma_pow_mod_step(3int, 14134776518227074636666380005943348126619871175004951664972849610340433919nat, m, 7067388259113537318333190002971674063309935587502475832486424805170216959nat, 54856120144606347851725752421649726712765817735481952744662708647198208995599int, 25987905884936020199999751076055100357385837419367923655077077618661860516165int, 88210915229443209077946260189174316924215562362508182933584398257842922436406int, 2int, 33048567213697236386696810550147135066106717756243420721838026757711097965892int);
    lemma_pow_mod_step(3int, 28269553036454149273332760011886696253239742350009903329945699220680867839nat, m, 14134776518227074636666380005943348126619871175004951664972849610340433919nat, 33048567213697236386696810550147135066106717756243420721838026757711097965892int, 9432490613756706027839244466890648500826265407751177752950577039739195557908int, 23246285686604295867693294992755948261562299347049368167297586204674712194660int, 0int, 69738857059812887603079884978267844784686898041148104501892758614024136583980int);
    lemma_pow_mod_step(3int, 56539106072908298546665520023773392506479484700019806659891398441361735679nat, m, 28269553036454149273332760011886696253239742350009903329945699220680867839nat, 69738857059812887603079884978267844784686898041148104501892758614024136583980int, 42002076446183131319929285918828717751484852528041841041913640994786585356207int, 46025773423067233780787045975261335094892088273959058570497003711910848578159int, 1int, 22285231031885505918790152917096097431406280156236611672033427127823711062814int);
    lemma_pow_mod_step(3int, 113078212145816597093331040047546785012958969400039613319782796882723471359nat, m, 56539106072908298546665520023773392506479484700019806659891398441361735679nat, 22285231031885505918790152917096097431406280156236611672033427127823711062814int, 4288993535013131190640219805887254606848257072558061504077144738092183153136int, 48297368605167258802382513061977708339982027199727695550074124798952844813428int, 1int, 29100016578185580983576554177245217166676096933542522610764790388949699768621int);
    lemma_pow_mod_step(3int, 226156424291633194186662080095093570025917938800079226639565593765446942718nat, m, 113078212145816597093331040047546785012958969400039613319782796882723471359nat, 29100016578185580983576554177245217166676096933542522610764790388949699768621int, 7313202226752592058903094496567409926530456306981804771866753869583030286968int, 37288097280282374642102299771586338196871719912357661262953906065633988453857int, 0int, 37288097280282374642102299771586338196871719912357661262953906065633988453857int);
    lemma_pow_mod_step(3int, 452312848583266388373324160190187140051835877600158453279131187530893885436nat, m, 226156424291633194186662080095093570025917938800079226639565593765446942718nat, 37288097280282374642102299771586338196871719912357661262953906065633988453857int, 12007747748070844576179865310022636824805897535987215380156966728836084367881int, 99801777202535964693565402352400197264468006384428118010463275237293880120346int, 0int, 99801777202535964693565402352400197264468006384428118010463275237293880120346int);
    lemma_pow_mod_step(3int, 904625697166532776746648320380374280103671755200316906558262375061787770872nat, m, 452312848583266388373324160190187140051835877600158453279131187530893885436nat, 99801777202535964693565402352400197264468006384428118010463275237293880120346int, 86019647787602932546155801448071971760171006852775220930653415981037475540455int, 108638533178553463383225978502730686309224034993671618925688249045766044533051int, 0int, 108638533178553463383225978502730686309224034993671618925688249045766044533051int);
    lemma_pow_mod_step(3int, 1809251394333065553493296640760748560207343510400633813116524750123575541744nat, m, 904625697166532776746648320380374280103671755200316906558262375061787770872nat, 108638533178553463383225978502730686309224034993671618925688249045766044533051int, 101926918919294677123868999425867242161873812180128571810609873929837250699643int, 54172588657466400436840403351024541918683221249145878643808951069661695052292int, 0int, 54172588657466400436840403351024541918683221249145878643808951069661695052292int);
    lemma_pow_mod_step(3int, 3618502788666131106986593281521497120414687020801267626233049500247151083489nat, m, 1809251394333065553493296640760748560207343510400633813116524750123575541744nat, 54172588657466400436840403351024541918683221249145878643808951069661695052292int, 25344299262417181410767675936724778035950409095126834832498721003081280348366int, 95739366898864289606809246183444307633197385209092277284601323252844745900606int, 2int, 55633922221960477973285768532957107193052186295995703774888801742716568358492int);
    lemma_pow_mod_step(3int, 7237005577332262213973186563042994240829374041602535252466099000494302166978nat, m, 3618502788666131106986593281521497120414687020801267626233049500247151083489nat, 55633922221960477973285768532957107193052186295995703774888801742716568358492int, 26730092894823444608943224044026805420730834756199138294767720267003808850900int, 6099752907902598855186509798543082205652571479031389638685532441804606467364int, 0int, 6099752907902598855186509798543082205652571479031389638685532441804606467364int);
}

proof fn lemma_certificate_2_21()
    requires
        pow_mod(3int, 7237005577332262213973186563042994240829374041602535252466099000494302166978nat, 115792089237316195423570985008687907853269984665640564039457584007908834671663int) == 6099752907902598855186509798543082205652571479031389638685532441804606467364int,
    ensures
        pow_mod(3int, 57896044618658097711785492504343953926634992332820282019728792003954417335831nat, 115792089237316195423570985008687907853269984665640564039457584007908834671663int) == 115792089237316195423570985008687907853269984665640564039457584007908834671662int,
{
    let m: int = 115792089237316195423570985008687907853269984665640564039457584007908834671663int;
    lemma_pow_mod_step(3int, 14474011154664524427946373126085988481658748083205070504932198000988604333957nat, m, 7237005577332262213973186563042994240829374041602535252466099000494302166978nat, 6099752907902598855186509798543082205652571479031389638685532441804606467364int, 321325798528519462440505173318222183104498120955455654454636890109403518017int, 34513450244938382395125510360409891999709452806720679176668365807218297256225int, 0int, 103540350734815147185376531081229675999128358420162037530005097421654891768675int);
    lemma_pow_mod_step(3int, 28948022309329048855892746252171976963317496166410141009864396001977208667915nat, m, 14474011154664524427946373126085988481658748083205070504932198000988604333957nat, 103540350734815147185376531081229675999128358420162037530005097421654891768675int, 92584945145230333087245890295243102926709396523910541322040425434135539241157int, 51974588321102354597742679897314874864175335433202930194858988452895440021534int, 1int, 40131675725990868369657054683256716739256021633968226545119381350777485392939int);
    lemma_pow_mod_step(3int, 57896044618658097711785492504343953926634992332820282019728792003954417335831nat, m, 28948022309329048855892746252171976963317496166410141009864396001977208667915nat, 40131675725990868369657054683256716739256021633968226545119381350777485392939int, 13908993327473825203831769132986956383156013575794157097530737311096806239409int, 38597363079105398474523661669562635951089994888546854679819194669302944890554int, 0int, 115792089237316195423570985008687907853269984665640564039457584007908834671662int);
}

proof fn lemma_certificate_2()
    ensures
        pow_mod(3int, 57896044618658097711785492504343953926634992332820282019728792003954417335831nat, 115792089237316195423570985008687907853269984665640564039457584007908834671663int) == 115792089237316195423570985008687907853269984665640564039457584007908834671662int,
{
    lemma_pow_mod_zero(3int, 115792089237316195423570985008687907853269984665640564039457584007908834671663int);
    lemma_certificate_2_0();
    lemma_certificate_2_1();
    lemma_certificate_2_2();
    lemma_certificate_2_3();
    lemma_certificate_2_4();
    lemma_certificate_2_5();
    lemma_certificate_2_6();
    lemma_certificate_2_7();
    lemma_certificate_2_8();
    lemma_certificate_2_9();
    lemma_certificate_2_10();
    lemma_certificate_2_11();
    lemma_certificate_2_12();
    lemma_certificate_2_13();
    lemma_certificate_2_14();
    lemma_certificate_2_15();
    lemma_certificate_2_16();
    lemma_certificate_2_17();
    lemma_certificate_2_18();
    lemma_certificate_2_19();
    lemma_certificate_2_20();
    lemma_certificate_2_21();
}

proof fn lemma_certificate_3_0()
    requires
        pow_mod(3int, 0nat, 115792089237316195423570985008687907853269984665640564039457584007908834671663int) == 1int,
    ensures
        pow_mod(3int, 2730nat, 115792089237316195423570985008687907853269984665640564039457584007908834671663int) == 43516967950524586371858638578002080993994743992674176641629362079977633669458int,
{
    let m: int = 115792089237316195423570985008687907853269984665640564039457584007908834671663int;
    lemma_pow_mod_step(3int, 1nat, m, 0nat, 1int, 0int, 1int, 0int, 3int);
    lemma_pow_mod_step(3int, 2nat, m, 1nat, 3int, 0int, 9int, 0int, 9int);
    lemma_pow_mod_step(3int, 5nat, m, 2nat, 9int, 0int, 81int, 0int, 243int);
    lemma_pow_mod_step(3int, 10nat, m, 5nat, 243int, 0int, 59049int, 0int, 59049int);
    lemma_pow_mod_step(3int, 21nat, m, 10nat, 59049int, 0int, 3486784401int, 0int, 10460353203int);
    lemma_pow_mod_step(3int, 42nat, m, 21nat, 10460353203int, 0int, 109418989131512359209int, 0int, 109418989131512359209int);
    lemma_pow_mod_step(3int, 85nat, m, 42nat, 109418989131512359209int, 0int, 11972515182562019788602740026717047105681int, 0int, 35917545547686059365808220080151141317043int);
    lemma_pow_mod_step(3int, 170nat, m, 85nat, 35917545547686059365808220080151141317043int, 11141int, 30411977162933034191691863278413540160842485091561846519497912485165565266366int, 0int, 30411977162933034191691863278413540160842485091561846519497912485165565266366int);
    lemma_pow_mod_step(3int, 341nat, m, 170nat, 30411977162933034191691863278413540160842485091561846519497912485165565266366int, 7987491728067875650993342169500019885956544848009071999507387615405551754417int, 103637562559294805957630872837748511450791797430878578062387858214916725860485int, 2int, 79328509203252027025750648495869718645835422961354606108248406628932508238129int);
    lemma_pow_mod_step(3int, 682nat, m, 341nat, 79328509203252027025750648495869718645835422961354606108248406628932508238129int, 54347515567431346078282514751929840066129346172271929274886254841149210547865int, 101277521611167260637087493806899110911942458081518058423944467286908148771146int, 0int, 101277521611167260637087493806899110911942458081518058423944467286908148771146int);
    lemma_pow_mod_step(3int, 1365nat, m, 682nat, 101277521611167260637087493806899110911942458081518058423944467286908148771146int, 88582358702228985367356027097716215209588942579112786391978970637723999749184int, 36775126242696980028253078074609500880444337673563376866510916093254889980324int, 0int, 110325378728090940084759234223828502641333013020690130599532748279764669940972int);
    lemma_pow_mod_step(3int, 2730nat, m, 1365nat, 110325378728090940084759234223828502641333013020690130599532748279764669940972int, 105116759457986732295201644817511421075654810709052624166692987548436843284002int, 43516967950524586371858638578002080993994743992674176641629362079977633669458int, 0int, 43516967950524586371858638578002080993994743992674176641629362079977633669458int);
}

proof fn lemma_certificate_3_1()
    requires
        pow_mod(3int, 2730nat, 115792089237316195423570985008687907853269984665640564039457584007908834671663int) == 43516967950524586371858638578002080993994743992674176641629362079977633669458int,
    ensures
        pow_mod(3int, 11184810nat, 115792089237316195423570985008687907853269984665640564039457584007908834671663int) == 111902884691622565074132420027819637558186225147329622202267356577935094499143int,
{
    let m: int = 115792089237316195423570985008687907853269984665640564039457584007908834671663int;
    lemma_pow_mod_step(3int, 5461nat, m, 2730nat, 43516967950524586371858638578002080993994743992674176641629362079977633669458int, 16354541247854907534519441918286282051061053748183618221586202225785285738752int, 69414334390502979156864917906938687657872988091301032303953662042603686629188int, 1int, 92450913934192742047023768712128155120348979608262532872403402119902225215901int);
    lemma_pow_mod_step(3int, 10922nat, m, 5461nat, 92450913934192742047023768712128155120348979608262532872403402119902225215901int, 73814813633339519211832155754815889203565973551354235515185235736350129020461int, 2674897942619559066445263239615825229407841191181719777849219100245319345158int, 0int, 2674897942619559066445263239615825229407841191181719777849219100245319345158int);
    lemma_pow_mod_step(3int, 21845nat, m, 10922nat, 2674897942619559066445263239615825229407841191181719777849219100245319345158int, 61792468298641683763752984064626877410250061376756422788947156355351804948int, 13224642668705678908929038875522114358368469744177667241051868669979939256440int, 0int, 39673928006117036726787116626566343075105409232533001723155606009939817769320int);
    lemma_pow_mod_step(3int, 43690nat, m, 21845nat, 39673928006117036726787116626566343075105409232533001723155606009939817769320int, 13593506895005568218001771714368536818335768358586926297650809107020843656536int, 93528104360954890625891718887412704001910532905772058357739834852468829323032int, 0int, 93528104360954890625891718887412704001910532905772058357739834852468829323032int);
    lemma_pow_mod_step(3int, 87381nat, m, 43690nat, 93528104360954890625891718887412704001910532905772058357739834852468829323032int, 75544938889785741312537888049652296016151086578947004375658016203088130503155int, 108552933321174278683348943426259067605943634510951768379954702090273995076259int, 2int, 94074621488890445202904860261401387111290934201574177060948938255004315885451int);
    lemma_pow_mod_step(3int, 174762nat, m, 87381nat, 94074621488890445202904860261401387111290934201574177060948938255004315885451int, 76430388868274401924124718821914612063012365293357750019984718652608183284949int, 92321445371422952561003541901758727070252865370183628288346057870676968773214int, 0int, 92321445371422952561003541901758727070252865370183628288346057870676968773214int);
    lemma_pow_mod_step(3int, 349525nat, m, 174762nat, 92321445371422952561003541901758727070252865370183628288346057870676968773214int, 73608217380033712066554307577571726827249439209689551677353918006828025675909int, 56088712119951149877472829274248220273300295522557429637690813632578499823129int, 1int, 52474047122537254208847502814056752966630901902031724873614856889826664797724int);
    lemma_pow_mod_step(3int, 699050nat, m, 349525nat, 52474047122537254208847502814056752966630901902031724873614856889826664797724int, 23779911387339269699801295380795516382976096216285015420163415844585066583202int, 68334355038238182008367650062488862294388435572611870036789654036678894375250int, 0int, 68334355038238182008367650062488862294388435572611870036789654036678894375250int);
    lemma_pow_mod_step(3int, 1398101nat, m, 699050nat, 68334355038238182008367650062488862294388435572611870036789654036678894375250int, 40327315184042175784279010729049264581919381655881886220705574385526467961010int, 74191493595187773319463845181472785307469346463603898918773534935475376702870int, 1int, 106782391548247124534820550535730448069138054725171132716863020798517295436947int);
    lemma_pow_mod_step(3int, 2796202nat, m, 1398101nat, 106782391548247124534820550535730448069138054725171132716863020798517295436947int, 98473731840123788979414390929609249052479513789552409887637115073928982539709int, 108988675109806529536388484748387070975185415330651772252236164679098778114742int, 0int, 108988675109806529536388484748387070975185415330651772252236164679098778114742int);
    lemma_pow_mod_step(3int, 5592405nat, m, 2796202nat, 108988675109806529536388484748387070975185415330651772252236164679098778114742int, 102584998512686646309081455541225406538174630312617133501493626096370266648084int, 94785188531309593935020133837217348283674868302493709351601033812802009682872int, 2int, 52771387119296390957918431494276229144484635576199999975887933422588359705290int);
    lemma_pow_mod_step(3int, 11184810nat, m, 5592405nat, 52771387119296390957918431494276229144484635576199999975887933422588359705290int, 24050168857279589036646653705120699833976110175120727216786031616152892602739int, 111902884691622565074132420027819637558186225147329622202267356577935094499143int, 0int, 111902884691622565074132420027819637558186225147329622202267356577935094499143int);
}

proof fn lemma_certificate_3_2()
    requires
        pow_mod(3int, 11184810nat, 115792089237316195423570985008687907853269984665640564039457584007908834671663int) == 111902884691622565074132420027819637558186225147329622202267356577935094499143int,
    ensures
        pow_mod(3int, 45812984490nat, 115792089237316195423570985008687907853269984665640564039457584007908834671663int) == 28637492044930379387966712291617490387259764992553659278111261174909761116471int,
{
    let m: int = 115792089237316195423570985008687907853269984665640564039457584007908834671663int;
    lemma_pow_mod_step(3int, 22369621nat, m, 11184810nat, 111902884691622565074132420027819637558186225147329622202267356577935094499143int, 108144310071495295313427865814693310798101085669931896047003089857340365019835int, 48403586763079760559981396819249538037101382711583716745055617266185320298844int, 1int, 29418671051923086256373205449060706258034163469110586195709267790647126224869int);
    lemma_pow_mod_step(3int, 44739242nat, m, 22369621nat, 29418671051923086256373205449060706258034163469110586195709267790647126224869int, 7474242948389146742784567285004354761136915197500123347207015835564820241864int, 4602186722905445783938683853583301898133492548956773848096418217118866967329int, 0int, 4602186722905445783938683853583301898133492548956773848096418217118866967329int);
    lemma_pow_mod_step(3int, 89478485nat, m, 44739242nat, 4602186722905445783938683853583301898133492548956773848096418217118866967329int, 182915109071729836768869206612575572445711563246665871905829903469807053440int, 17314194901313941098489289823861155393354416473940899532800808780889658723521int, 0int, 51942584703941823295467869471583466180063249421822698598402426342668976170563int);
    lemma_pow_mod_step(3int, 178956970nat, m, 89478485nat, 51942584703941823295467869471583466180063249421822698598402426342668976170563int, 23300660032107608673786382773013655736099221133011507525819159480714584290883int, 78805840046628147329610983847773182843312222600212810836831955071947078388540int, 0int, 78805840046628147329610983847773182843312222600212810836831955071947078388540int);
    lemma_pow_mod_step(3int, 357913941nat, m, 178956970nat, 78805840046628147329610983847773182843312222600212810836831955071947078388540int, 53633719422115187838177981565914261246420281351729506289169470501137813230430int, 52226617637212068540336743581742822957245275036682416904757758517856793026510int, 1int, 40887763674320010197439245736540561018465840444406686674815691545661544407867int);
    lemma_pow_mod_step(3int, 715827882nat, m, 357913941nat, 40887763674320010197439245736540561018465840444406686674815691545661544407867int, 14438026201087584951166178752483679010500597737545528455672768216597927698290int, 92644113971482326419697932478531517111798402282255505140022838018494174933419int, 0int, 92644113971482326419697932478531517111798402282255505140022838018494174933419int);
    lemma_pow_mod_step(3int, 1431655765nat, m, 715827882nat, 92644113971482326419697932478531517111798402282255505140022838018494174933419int, 74123646184242043453153827914974493361293706830033461732269803611312731724024int, 86546915809576563832492690963076340810149110957665561465534418920717113897649int, 2int, 28056568954097300650336102871853206723907363541715556317688088746333672349621int);
    lemma_pow_mod_step(3int, 2863311530nat, m, 1431655765nat, 28056568954097300650336102871853206723907363541715556317688088746333672349621int, 6798141968599489650709395541687742894407343180329031997192987654155699599282int, 20834467896411929355571518769246545103433818629758388240152441666081718297675int, 0int, 20834467896411929355571518769246545103433818629758388240152441666081718297675int);
    lemma_pow_mod_step(3int, 5726623061nat, m, 2863311530nat, 20834467896411929355571518769246545103433818629758388240152441666081718297675int, 3748745319181359168019490681945733391696362169256022535041980412289113937749int, 95829531932536341216320312741426029345233645935182800637409517188590474099038int, 2int, 55904417322976632801818968206902272329160968474267273833313383549953752953788int);
    lemma_pow_mod_step(3int, 11453246122nat, m, 5726623061nat, 55904417322976632801818968206902272329160968474267273833313383549953752953788int, 26990651060939156260875360008822922056395764380155848994263066042726283029810int, 40987316795024139843857702088632687695678259704938438596891148635554672274914int, 0int, 40987316795024139843857702088632687695678259704938438596891148635554672274914int);
    lemma_pow_mod_step(3int, 22906492245nat, m, 11453246122nat, 40987316795024139843857702088632687695678259704938438596891148635554672274914int, 14508418918088481395547109901214006931521837011651713819799635252104051215326int, 8006187817895444606586189144973059123516342316645217570336509863330670200258int, 0int, 24018563453686333819758567434919177370549026949935652711009529589992010600774int);
    lemma_pow_mod_step(3int, 45812984490nat, m, 22906492245nat, 24018563453686333819758567434919177370549026949935652711009529589992010600774int, 4982131285293733203849864139050464934483487391572563131456696289907429788835int, 28637492044930379387966712291617490387259764992553659278111261174909761116471int, 0int, 28637492044930379387966712291617490387259764992553659278111261174909761116471int);
}

proof fn lemma_certificate_3_3()
    requires
        pow_mod(3int, 45812984490nat, 115792089237316195423570985008687907853269984665640564039457584007908834671663int) == 28637492044930379387966712291617490387259764992553659278111261174909761116471int,
    ensures
        pow_mod(3int, 187649984473770nat, 115792089237316195423570985008687907853269984665640564039457584007908834671663int) == 98552441698903519521826063740074172630723497660326809585144082579678437085936int,
{
    let m: int = 115792089237316195423570985008687907853269984665640564039457584007908834671663int;
    lemma_pow_mod_step(3int, 91625968981nat, m, 45812984490nat, 28637492044930379387966712291617490387259764992553659278111261174909761116471int, 7082573222620082720654636024653355196738062367075186365191610923230520659124int, 91059657679695955032512333229175802536350119480261197229398110587061542290629int, 2int, 41594794564455474250395029670151591902510389109502463609279163745366957528561int);
    lemma_pow_mod_step(3int, 183251937962nat, m, 91625968981nat, 41594794564455474250395029670151591902510389109502463609279163745366957528561int, 14941667831153429686140841724660314974184782704777723389749535877697679671260int, 10011984549682896765530796658782069303435508648949937359121502431065253225341int, 0int, 10011984549682896765530796658782069303435508648949937359121502431065253225341int);
    lemma_pow_mod_step(3int, 366503875925nat, m, 183251937962nat, 10011984549682896765530796658782069303435508648949937359121502431065253225341int, 865688107739788933070738948755292394600342949011505847464480135843760701928int, 97213494655252280071490153401486932664631109466736960417405830859527033500017int, 2int, 60056305491124449367328490187084982287353359068929753173302324562763431156725int);
    lemma_pow_mod_step(3int, 733007751850nat, m, 366503875925nat, 60056305491124449367328490187084982287353359068929753173302324562763431156725int, 31148585823088491038156824598885593797860280303632137415028983823921615090764int, 7430564581909784921119275493969387704689829300219303399106022547305628905093int, 0int, 7430564581909784921119275493969387704689829300219303399106022547305628905093int);
    lemma_pow_mod_step(3int, 1466015503701nat, m, 733007751850nat, 7430564581909784921119275493969387704689829300219303399106022547305628905093int, 476831278972541481650808587657938936056435430137163518345773405233943056600int, 114389235630228076019626705661783569138495921013654047918527411622446376212849int, 2int, 111583528416051837211738146967974891708947793709681015676667066851521459295221int);
    lemma_pow_mod_step(3int, 2932031007402nat, m, 1466015503701nat, 111583528416051837211738146967974891708947793709681015676667066851521459295221int, 107527931275665371879817007488678190768635885936285876976065972470426469289011int, 78570200535356641936468094292266038903794419449871698895491793774716794443548int, 0int, 78570200535356641936468094292266038903794419449871698895491793774716794443548int);
    lemma_pow_mod_step(3int, 5864062014805nat, m, 2932031007402nat, 78570200535356641936468094292266038903794419449871698895491793774716794443548int, 53313455632655618533101367034047481371058530903333625064149544477775845334134int, 38047451350412567725310438800731615086449140048584193761481224907342542383462int, 0int, 114142354051237703175931316402194845259347420145752581284443674722027627150386int);
    lemma_pow_mod_step(3int, 11728124029610nat, m, 5864062014805nat, 114142354051237703175931316402194845259347420145752581284443674722027627150386int, 112516123287629794884378472166470877957836960902625176025614044447741291139426int, 49940637933419437265218970165052558896706716022094007612495490172530795663558int, 0int, 49940637933419437265218970165052558896706716022094007612495490172530795663558int);
    lemma_pow_mod_step(3int, 23456248059221nat, m, 11728124029610nat, 49940637933419437265218970165052558896706716022094007612495490172530795663558int, 21539185739064564502058107500162051569540727138730098492658778972156122940032int, 111522555269868304421201927346429952867351018723498183753697260800932570506148int, 2int, 102983487334972522416463812021914042895513086839213423182176614386980042175118int);
    lemma_pow_mod_step(3int, 46912496118442nat, m, 23456248059221nat, 102983487334972522416463812021914042895513086839213423182176614386980042175118int, 91591737687159640131567029698431730260622183906741454560403753810647861009433int, 101045749614672130515608898321209901206759654696738980162371988253720277516845int, 0int, 101045749614672130515608898321209901206759654696738980162371988253720277516845int);
    lemma_pow_mod_step(3int, 93824992236885nat, m, 46912496118442nat, 101045749614672130515608898321209901206759654696738980162371988253720277516845int, 88177383985749594021672183581639029713033238860091553103376816326066302669198int, 78196703377014583124980976280113408734629960852426561596356493727454425217751int, 2int, 3005931656411358527800958822964410497349913225998556710154313166545606309927int);
    lemma_pow_mod_step(3int, 187649984473770nat, m, 93824992236885nat, 3005931656411358527800958822964410497349913225998556710154313166545606309927int, 78033181563011578556143676470875351457257036752832650424962465246796789711int, 98552441698903519521826063740074172630723497660326809585144082579678437085936int, 0int, 98552441698903519521826063740074172630723497660326809585144082579678437085936int);
}

proof fn lemma_certificate_3_4()
    requires
        pow_mod(3int, 187649984473770nat, 115792089237316195423570985008687907853269984665640564039457584007908834671663int) == 98552441698903519521826063740074172630723497660326809585144082579678437085936int,
    ensures
        pow_mod(3int, 768614336404564650nat, 115792089237316195423570985008687907853269984665640564039457584007908834671663int) == 94638936548757277480478292171315830809106855036274364979546707427588342004966int,
{
    let m: int = 115792089237316195423570985008687907853269984665640564039457584007908834671663int;
    lemma_pow_mod_step(3int, 375299968947541nat, m, 187649984473770nat, 98552441698903519521826063740074172630723497660326809585144082579678437085936int, 83879510498422832044451373808710679529149078275700598168030046889976103021067int, 80001630864235090161842322810711477784237942436280231634514746924642132071675int, 2int, 8420714118072879638384998414758617646173857977559566824629072758108726871699int);
    lemma_pow_mod_step(3int, 750599937895082nat, m, 375299968947541nat, 8420714118072879638384998414758617646173857977559566824629072758108726871699int, 612377121143266588528104334686143784778253639533716528423176388953048658380int, 62041659549395330203488880348482593816836971472706360699453197891800853660661int, 0int, 62041659549395330203488880348482593816836971472706360699453197891800853660661int);
    lemma_pow_mod_step(3int, 1501199875790165nat, m, 750599937895082nat, 62041659549395330203488880348482593816836971472706360699453197891800853660661int, 33242059496432417584697128995337477291564274221719273772361041105746743824060int, 19257474470444867492355246750256533527073919139124843551690123505180999345141int, 0int, 57772423411334602477065740250769600581221757417374530655070370515542998035423int);
    lemma_pow_mod_step(3int, 3002399751580330nat, m, 1501199875790165nat, 57772423411334602477065740250769600581221757417374530655070370515542998035423int, 28824533081685692198483664594793041970800148719480742628071915327515993355416int, 32373722394561151658865399689259949970347889534098137403093009700447540012121int, 0int, 32373722394561151658865399689259949970347889534098137403093009700447540012121int);
    lemma_pow_mod_step(3int, 6004799503160661nat, m, 3002399751580330nat, 32373722394561151658865399689259949970347889534098137403093009700447540012121int, 9051204694408033049732068479789042522186252591910421768857227106698618462770int, 91364356165287350862471884654774065580434807780329666427493911951982087432131int, 2int, 42508890021229661740273683946946381034764454009707871203566567840128592953067int);
    lemma_pow_mod_step(3int, 12009599006321322nat, m, 6004799503160661nat, 42508890021229661740273683946946381034764454009707871203566567840128592953067int, 15605606071529944084394553458230519631158618377984802314250386260410620090723int, 81867961733493611820696615499343024505358893628477862919373085367022687424140int, 0int, 81867961733493611820696615499343024505358893628477862919373085367022687424140int);
    lemma_pow_mod_step(3int, 24019198012642645nat, m, 12009599006321322nat, 81867961733493611820696615499343024505358893628477862919373085367022687424140int, 57882737953369709037648526194693306358980630789459678920912601048693516567705int, 23129252772799348205770582991887103706268206908597205368605539112083870296185int, 0int, 69387758318398044617311748975661311118804620725791616105816617336251610888555int);
    lemma_pow_mod_step(3int, 48038396025285290nat, m, 24019198012642645nat, 69387758318398044617311748975661311118804620725791616105816617336251610888555int, 41580223970091397859604333996613527385157785001659684179681774800929620196786int, 80320989145475619969011890447152908017431267298093669338617057980138872112907int, 0int, 80320989145475619969011890447152908017431267298093669338617057980138872112907int);
    lemma_pow_mod_step(3int, 96076792050570581nat, m, 48038396025285290nat, 80320989145475619969011890447152908017431267298093669338617057980138872112907int, 55715907190216813903465266979612668902903442567797143002357334804168443003539int, 36727752145835202912218922836424107285660379798308583811056057822957943975292int, 0int, 110183256437505608736656768509272321856981139394925751433168173468873831925876int);
    lemma_pow_mod_step(3int, 192153584101141162nat, m, 96076792050570581nat, 110183256437505608736656768509272321856981139394925751433168173468873831925876int, 104846108910699775849905437632502308154984487559305459816732604770709196479073int, 85146774574888126753441935461994590024475079066344053481198983392293552758977int, 0int, 85146774574888126753441935461994590024475079066344053481198983392293552758977int);
    lemma_pow_mod_step(3int, 384307168202282325nat, m, 192153584101141162nat, 85146774574888126753441935461994590024475079066344053481198983392293552758977int, 62611990752217759066438275369105578995804184025258104273244217268332094618047int, 115409967687709975345972025756110444707131448191963498644462288104214014784368int, 2int, 114645724588497535190774107250955518414854375244609367854471696296824375009778int);
    lemma_pow_mod_step(3int, 768614336404564650nat, m, 384307168202282325nat, 114645724588497535190774107250955518414854375244609367854471696296824375009778int, 113510709177063889856246342618001806034877951171952261550048138678201623725186int, 94638936548757277480478292171315830809106855036274364979546707427588342004966int, 0int, 94638936548757277480478292171315830809106855036274364979546707427588342004966int);
}

proof fn lemma_certificate_3_5()
    requires
        pow_mod(3int, 768614336404564650nat, 115792089237316195423570985008687907853269984665640564039457584007908834671663int) == 94638936548757277480478292171315830809106855036274364979546707427588342004966int,
    ensures
        pow_mod(3int, 3148244321913096809130nat, 115792089237316195423570985008687907853269984665640564039457584007908834671663int) == 80236427278331968199293170646947516530030642748012648117202303134587398290460int,
{
    let m: int = 115792089237316195423570985008687907853269984665640564039457584007908834671663int;
    lemma_pow_mod_step(3int, 1537228672809129301nat, m, 768614336404564650nat, 94638936548757277480478292171315830809106855036274364979546707427588342004966int, 77350088162959711251444911974791965752883048936959538312476480176410188114590int, 87773177589321025235766960401701171875341716711854248590563484509945098797986int, 2int, 31735354293330684860158911187727699919485180804281617692775285514017627050632int);
    lemma_pow_mod_step(3int, 3074457345618258602nat, m, 1537228672809129301nat, 31735354293330684860158911187727699919485180804281617692775285514017627050632int, 8697767859245558262693440214670388584644063136237443249372638060171779053497int, 51092715681703589130376843642787957920192938820155648554198326667456184643913int, 0int, 51092715681703589130376843642787957920192938820155648554198326667456184643913int);
    lemma_pow_mod_step(3int, 6148914691236517205nat, m, 3074457345618258602nat, 51092715681703589130376843642787957920192938820155648554198326667456184643913int, 22544420892011402078002521065772773155456833857888937717440451745925530018565int, 24290681347970466556163270826097171741865654535061787948417422857258538527974int, 0int, 72872044043911399668489812478291515225596963605185363845252268571775615583922int);
    lemma_pow_mod_step(3int, 12297829382473034410nat, m, 6148914691236517205nat, 72872044043911399668489812478291515225596963605185363845252268571775615583922int, 45860946443881995866138476275024034462918893602114933835292487443676133020823int, 54494486495205272625866354016526672192450782604932222310095227496481477863435int, 0int, 54494486495205272625866354016526672192450782604932222310095227496481477863435int);
    lemma_pow_mod_step(3int, 24595658764946068821nat, m, 12297829382473034410nat, 54494486495205272625866354016526672192450782604932222310095227496481477863435int, 25646389817613586536428318829416449792036662121091953608711803625904393308961int, 63343473564097785807902874984793114156427672455695981121795389392147959327082int, 1int, 74238331454977162000137639945691434616013032701447379325928584168535043309583int);
    lemma_pow_mod_step(3int, 49191317529892137642nat, m, 24595658764946068821nat, 74238331454977162000137639945691434616013032701447379325928584168535043309583int, 47596773609668327855579004206516744170753291950637978868190732937376773741681int, 30951717053802098669737196878095502839317414366809529172549707207638366948386int, 0int, 30951717053802098669737196878095502839317414366809529172549707207638366948386int);
    lemma_pow_mod_step(3int, 98382635059784275285nat, m, 49191317529892137642nat, 30951717053802098669737196878095502839317414366809529172549707207638366948386int, 8273525375426831638917600902241875886374991212523247943686608436165935247660int, 42862934970468098360019957926022920720803153530615348548560967583259298946416int, 1int, 12796715674088099656488888769380854309139475926205481606225318741869062167585int);
    lemma_pow_mod_step(3int, 196765270119568550570nat, m, 98382635059784275285nat, 12796715674088099656488888769380854309139475926205481606225318741869062167585int, 1414223831023843327761475009259137897487899969880860723967365275748137340547int, 35580103880914217448989165902447541215931425929160660158669783688675862912564int, 0int, 35580103880914217448989165902447541215931425929160660158669783688675862912564int);
    lemma_pow_mod_step(3int, 393530540239137101141nat, m, 196765270119568550570nat, 35580103880914217448989165902447541215931425929160660158669783688675862912564int, 10932903970512975051303631805540943594067660141874242493603720200845994681393int, 31640161075476991853992206803851130772439284014237414089178315800041658587537int, 0int, 94920483226430975561976620411553392317317852042712242267534947400124975762611int);
    lemma_pow_mod_step(3int, 787061080478274202282nat, m, 393530540239137101141nat, 94920483226430975561976620411553392317317852042712242267534947400124975762611int, 77810998966201861575470672393357915289635521980443516610026995792738943326859int, 100254794276616288741903706442486881393444499504198926021930362087736871440804int, 0int, 100254794276616288741903706442486881393444499504198926021930362087736871440804int);
    lemma_pow_mod_step(3int, 1574122160956548404565nat, m, 787061080478274202282nat, 100254794276616288741903706442486881393444499504198926021930362087736871440804int, 86802335476019040965703783301105539173446082220775701352771362711051787188640int, 8093102460575811757195369897560184102945732533803946488203684711578632658096int, 0int, 24279307381727435271586109692680552308837197601411839464611054134735897974288int);
    lemma_pow_mod_step(3int, 3148244321913096809130nat, m, 1574122160956548404565nat, 24279307381727435271586109692680552308837197601411839464611054134735897974288int, 5090889807923352412631279591380263722434045726375907595483363262839247051868int, 80236427278331968199293170646947516530030642748012648117202303134587398290460int, 0int, 80236427278331968199293170646947516530030642748012648117202303134587398290460int);
}

proof fn lemma_certificate_3_6()
    requires
        pow_mod(3int, 3148244321913096809130nat, 115792089237316195423570985008687907853269984665640564039457584007908834671663int) == 80236427278331968199293170646947516530030642748012648117202303134587398290460int,
    ensures
        pow_mod(3int, 12895208742556044530199210nat, 115792089237316195423570985008687907853269984665640564039457584007908834671663int) == 75452495402296792964722427998847847350601259048760841121521975585191097009962int,
{
    let m: int = 115792089237316195423570985008687907853269984665640564039457584007908834671663int;
    lemma_pow_mod_step(3int, 6296488643826193618261nat, m, 3148244321913096809130nat, 80236427278331968199293170646947516530030642748012648117202303134587398290460int, 55598653628199016464150574445974057881721887752457347277045001720176126509162int, 67211461530896837303211525993573263049181417831535939766827044295933895735194int, 1int, 85842295355374316486063592972031881294274268828967255261023548879892852533919int);
    lemma_pow_mod_step(3int, 12592977287652387236522nat, m, 6296488643826193618261nat, 85842295355374316486063592972031881294274268828967255261023548879892852533919int, 63639059631929945028866343858207313042390371864366730557978510629615388818831int, 48237954799961051114876888823990006132117608235359794018446163976225769012608int, 0int, 48237954799961051114876888823990006132117608235359794018446163976225769012608int);
    lemma_pow_mod_step(3int, 25185954575304774473045nat, m, 12592977287652387236522nat, 48237954799961051114876888823990006132117608235359794018446163976225769012608int, 20095503057329737614385825987606844893882157674689516661626652690422552103527int, 69466177713332562820908419990309462593455041517128584943451247441520233706263int, 1int, 92606443902681493039154274962240479927095139885745190790896158316651866447126int);
    lemma_pow_mod_step(3int, 50371909150609548946090nat, m, 25185954575304774473045nat, 92606443902681493039154274962240479927095139885745190790896158316651866447126int, 74063379534711173817884288479820036598449407595534759773505872216390884406361int, 76447471827931497324648501326602348403454672291320231330082079672388050011533int, 0int, 76447471827931497324648501326602348403454672291320231330082079672388050011533int);
    lemma_pow_mod_step(3int, 100743818301219097892181nat, m, 50371909150609548946090nat, 76447471827931497324648501326602348403454672291320231330082079672388050011533int, 50471634006919451894186003645116124113070681654911310955793026053089335267991int, 45957659605671606367169878200959415795827326399260799975641080774234834371056int, 1int, 22080889579698623677938649594190339534211994532141835887465658314795668441505int);
    lemma_pow_mod_step(3int, 201487636602438195784362nat, m, 100743818301219097892181nat, 22080889579698623677938649594190339534211994532141835887465658314795668441505int, 4210699434151983319309772493640830703613624120712206357054385679308003434422int, 112860748715357813410652779028872708099458879875655324612901110622000884481239int, 0int, 112860748715357813410652779028872708099458879875655324612901110622000884481239int);
    lemma_pow_mod_step(3int, 402975273204876391568725nat, m, 201487636602438195784362nat, 112860748715357813410652779028872708099458879875655324612901110622000884481239int, 110003616693412453536137028415366960244419709278042284541811831370845778641315int, 68847900619742196400447834727219906396045723258799623350566152328965871418276int, 1int, 90751612621910393777772519172971811334867185110758306012240872978988779583165int);
    lemma_pow_mod_step(3int, 805950546409752783137450nat, m, 402975273204876391568725nat, 90751612621910393777772519172971811334867185110758306012240872978988779583165int, 71126233646219809824995206801575107958470001572078627524964146322849951343902int, 24704929721379035228196076391343067118287647772872231452652995459251384168199int, 0int, 24704929721379035228196076391343067118287647772872231452652995459251384168199int);
    lemma_pow_mod_step(3int, 1611901092819505566274901nat, m, 805950546409752783137450nat, 24704929721379035228196076391343067118287647772872231452652995459251384168199int, 5270943434550152843425993337494731078043941850027483531326211627206317821971int, 43215757741585828017538405208898426581755538834496966836362783215864050395828int, 1int, 13855183987441288629044230618007371891996631837850336469630765639683316515821int);
    lemma_pow_mod_step(3int, 3223802185639011132549802nat, m, 1611901092819505566274901nat, 13855183987441288629044230618007371891996631837850336469630765639683316515821int, 1657851797910083522256900100726413316040090448629317648866896155372470552744int, 77839950107204941541376392207313097494689583438161513659134136551521579610769int, 0int, 77839950107204941541376392207313097494689583438161513659134136551521579610769int);
    lemma_pow_mod_step(3int, 6447604371278022265099605nat, m, 3223802185639011132549802nat, 77839950107204941541376392207313097494689583438161513659134136551521579610769int, 52327044728194681913943474004668298382242123951374071242708849522306534148267int, 8020271295010140097525103108305968252547432892033582365718202859205235313340int, 0int, 24060813885030420292575309324917904757642298676100747097154608577615705940020int);
    lemma_pow_mod_step(3int, 12895208742556044530199210nat, m, 6447604371278022265099605nat, 24060813885030420292575309324917904757642298676100747097154608577615705940020int, 4999674577281086259568790864555668707115471994043879804387748782256599874426int, 75452495402296792964722427998847847350601259048760841121521975585191097009962int, 0int, 75452495402296792964722427998847847350601259048760841121521975585191097009962int);
}

proof fn lemma_certificate_3_7()
    requires
        pow_mod(3int, 12895208742556044530199210nat, 115792089237316195423570985008687907853269984665640564039457584007908834671663int) == 75452495402296792964722427998847847350601259048760841121521975585191097009962int,
    ensures
        pow_mod(3int, 52818775009509558395695966890nat, 115792089237316195423570985008687907853269984665640564039457584007908834671663int) == 61456761036521626858828201131623951199980451925656097969537944050685779091792int,
{
    let m: int = 115792089237316195423570985008687907853269984665640564039457584007908834671663int;
    lemma_pow_mod_step(3int, 25790417485112089060398421nat, m, 12895208742556044530199210nat, 75452495402296792964722427998847847350601259048760841121521975585191097009962int, 49166390380655780148926497276396652403314986044246639408064234211062743092643int, 115598531540170231757223121541004992062030642704520715528953501361094631366135int, 2int, 115211416145878304424527394605639160479551958782281018507945336067466224755079int);
    lemma_pow_mod_step(3int, 51580834970224178120796842nat, m, 25790417485112089060398421nat, 115211416145878304424527394605639160479551958782281018507945336067466224755079int, 114633655008455069672622212542896297406021302094393744057565410879826336980051int, 104735099453674736869963619909425522213611154183409842366533226752827970301428int, 0int, 104735099453674736869963619909425522213611154183409842366533226752827970301428int);
    lemma_pow_mod_step(3int, 103161669940448356241593685nat, m, 51580834970224178120796842nat, 104735099453674736869963619909425522213611154183409842366533226752827970301428int, 94733941928357812852435529928494335389008179996386698254181165915712261883896int, 66132806935073579933264596513353554847199668332423621411980910453082191600136int, 1int, 82606331567904544376222804531372756688329020331630300196485147351337740128745int);
    lemma_pow_mod_step(3int, 206323339880896712483187370nat, m, 103161669940448356241593685nat, 82606331567904544376222804531372756688329020331630300196485147351337740128745int, 58931538933727797678821931088869074248344759165301565364897100065904450296315int, 99839810679610830570427799985613055709442741410107740545858023167743091453180int, 0int, 99839810679610830570427799985613055709442741410107740545858023167743091453180int);
    lemma_pow_mod_step(3int, 412646679761793424966374741nat, m, 206323339880896712483187370nat, 99839810679610830570427799985613055709442741410107740545858023167743091453180int, 86085222766048510525007257294324093857796767360347497014260686357154892243458int, 88070602629807459306725281117794322169867754218919386437835330785867242381746int, 2int, 32627629414789987073033873336007150803063293325477031234590824341784057801912int);
    lemma_pow_mod_step(3int, 825293359523586849932749482nat, m, 412646679761793424966374741nat, 32627629414789987073033873336007150803063293325477031234590824341784057801912int, 9193738607194881218007336161209340353614487879862515245683445053476840585377int, 5039437632637356754229807352980679283179271131859971000519361098378516783793int, 0int, 5039437632637356754229807352980679283179271131859971000519361098378516783793int);
    lemma_pow_mod_step(3int, 1650586719047173699865498965nat, m, 825293359523586849932749482nat, 5039437632637356754229807352980679283179271131859971000519361098378516783793int, 219323546371052836410723607211791198651341471192210480204009738422294166772int, 34507371475706830199015328842226352434062295418133508080258874939565922885013int, 0int, 103522114427120490597045986526679057302186886254400524240776624818697768655039int);
    lemma_pow_mod_step(3int, 3301173438094347399730997930nat, m, 1650586719047173699865498965nat, 103522114427120490597045986526679057302186886254400524240776624818697768655039int, 92552334499273612035285342230460155784442894685210113183538768630943336099905int, 42083152518584341964460149648341250647744280903842640686424306108919339599506int, 0int, 42083152518584341964460149648341250647744280903842640686424306108919339599506int);
    lemma_pow_mod_step(3int, 6602346876188694799461995861nat, m, 3301173438094347399730997930nat, 42083152518584341964460149648341250647744280903842640686424306108919339599506int, 15294583054571019815091309842341821876266763920922407558767152449200471122649int, 95183761616116691376554699271567003924597171423134966731430130355235557648749int, 2int, 53967106373717683282522127797325196067251544938123772115375223049889003602921int);
    lemma_pow_mod_step(3int, 13204693752377389598923991722nat, m, 6602346876188694799461995861nat, 53967106373717683282522127797325196067251544938123772115375223049889003602921int, 25152396761605092814080224802934053584338999271525487158640984597391251520452int, 94241262555862549222359053686179217496344928071513509573946325161876090380565int, 0int, 94241262555862549222359053686179217496344928071513509573946325161876090380565int);
    lemma_pow_mod_step(3int, 26409387504754779197847983445nat, m, 13204693752377389598923991722nat, 94241262555862549222359053686179217496344928071513509573946325161876090380565int, 76701401854150292700965646661431455905742129957424142254298150312101641379199int, 94702867155616184166277763015966626872983041558014192395983058107828886781288int, 2int, 52524422992216161651691319030524064912409155342761449109034006307668991000538int);
    lemma_pow_mod_step(3int, 52818775009509558395695966890nat, m, 26409387504754779197847983445nat, 52524422992216161651691319030524064912409155342761449109034006307668991000538int, 23825591444429740349634472789087495084156519114321939587718333268878714497004int, 61456761036521626858828201131623951199980451925656097969537944050685779091792int, 0int, 61456761036521626858828201131623951199980451925656097969537944050685779091792int);
}

proof fn lemma_certificate_3_8()
    requires
        pow_mod(3int, 52818775009509558395695966890nat, 115792089237316195423570985008687907853269984665640564039457584007908834671663int) == 61456761036521626858828201131623951199980451925656097969537944050685779091792int,
    ensures
        pow_mod(3int, 216345702438951151188770680384170nat, 115792089237316195423570985008687907853269984665640564039457584007908834671663int) == 94732469830723512073096489906589259618518364206031862243711224974706479232528int,
{
    let m: int = 115792089237316195423570985008687907853269984665640564039457584007908834671663int;
    lemma_pow_mod_step(3int, 105637550019019116791391933781nat, m, 52818775009509558395695966890nat, 61456761036521626858828201131623951199980451925656097969537944050685779091792int, 32618234129615604073319298105035886618966822982117254330379664519131313393160int, 50037087093782311637089079850808373672896587688149161222396256164537331746184int, 1int, 34319172044030739487696254543737213165419778398806919627731184485703160566889int);
    lemma_pow_mod_step(3int, 211275100038038233582783867562nat, m, 105637550019019116791391933781nat, 34319172044030739487696254543737213165419778398806919627731184485703160566889int, 10171727425816330093926023521093459155252837172812165057108915506320591386199int, 53539730266885030790968687891428127189568296083763081162010824072505648559384int, 0int, 53539730266885030790968687891428127189568296083763081162010824072505648559384int);
    lemma_pow_mod_step(3int, 422550200076076467165567735125nat, m, 211275100038038233582783867562nat, 53539730266885030790968687891428127189568296083763081162010824072505648559384int, 24755600628086950689048888542124617545491135146847172486812346603635445936498int, 112756373862930001749114949574613134172087806330674248212421751571367196403282int, 2int, 106684943114157614400202878706463586809723449660741616558350086698283919866520int);
    lemma_pow_mod_step(3int, 845100400152152934331135470250nat, m, 422550200076076467165567735125nat, 106684943114157614400202878706463586809723449660741616558350086698283919866520int, 98294081765329138041838873253521202652559185021722254666674504223838048706758int, 82786652446126588196734785143996833441465501229037141307132319125725917711846int, 0int, 82786652446126588196734785143996833441465501229037141307132319125725917711846int);
    lemma_pow_mod_step(3int, 1690200800304305868662270940501nat, m, 845100400152152934331135470250nat, 82786652446126588196734785143996833441465501229037141307132319125725917711846int, 59189102367686144988490187870545803352469050210912926213374171003793880528206int, 19971143572874609365167680665186392506773135230925442070281695248983268301138int, 0int, 59913430718623828095503041995559177520319405692776326210845085746949804903414int);
    lemma_pow_mod_step(3int, 3380401600608611737324541881002nat, m, 1690200800304305868662270940501nat, 59913430718623828095503041995559177520319405692776326210845085746949804903414int, 31000556291184998685409707533950414778938108886675677237551747376889400486526int, 92844441403906881674786054144403676314035998432367159280769233118508203342658int, 0int, 92844441403906881674786054144403676314035998432367159280769233118508203342658int);
    lemma_pow_mod_step(3int, 6760803201217223474649083762005nat, m, 3380401600608611737324541881002nat, 92844441403906881674786054144403676314035998432367159280769233118508203342658int, 74444552787510383510715647914639419486477949920517559955480840040588087356326int, 50376937509864015806524606565071198575628382182964175176956288579062666514826int, 1int, 35338723292275851996002834686525687873615161883251961491411281729279164872815int);
    lemma_pow_mod_step(3int, 13521606402434446949298167524010nat, m, 6760803201217223474649083762005nat, 35338723292275851996002834686525687873615161883251961491411281729279164872815int, 10785066338759713723373440233731664985819550935517147935893906456314156680571int, 68623058990420370345935956221405492742096782819314300925559952521332369664652int, 0int, 68623058990420370345935956221405492742096782819314300925559952521332369664652int);
    lemma_pow_mod_step(3int, 27043212804868893898596335048021nat, m, 13521606402434446949298167524010nat, 68623058990420370345935956221405492742096782819314300925559952521332369664652int, 40668790555729168777930026917654914163527156711626489457701429580774570898826int, 39654853374344955659490426798992944948842425290193797028728013528640436113466int, 1int, 3172470885718671554900295388290926993257291204940827046726456578012473668735int);
    lemma_pow_mod_step(3int, 54086425609737787797192670096042nat, m, 27043212804868893898596335048021nat, 3172470885718671554900295388290926993257291204940827046726456578012473668735int, 86919336087850062399366072894378029599909432772660077564505575294694556362int, 24393909955221594978790122462268217268597374976870510743725015940578798730219int, 0int, 24393909955221594978790122462268217268597374976870510743725015940578798730219int);
    lemma_pow_mod_step(3int, 108172851219475575594385340192085nat, m, 54086425609737787797192670096042nat, 24393909955221594978790122462268217268597374976870510743725015940578798730219int, 5139063012187960058728870334716316858565848371813597946389917644805796914441int, 51514284304534809733025775785350848227767355812881141662241710601082005602578int, 1int, 38750763676288233775506342347364636830032082773002860947267547795337182136071int);
    lemma_pow_mod_step(3int, 216345702438951151188770680384170nat, m, 108172851219475575594385340192085nat, 38750763676288233775506342347364636830032082773002860947267547795337182136071int, 12968257981924498704489038803944470477102189026432331204043649730364822091951int, 94732469830723512073096489906589259618518364206031862243711224974706479232528int, 0int, 94732469830723512073096489906589259618518364206031862243711224974706479232528int);
}

proof fn lemma_certificate_3_9()
    requires
        pow_mod(3int, 216345702438951151188770680384170nat, 115792089237316195423570985008687907853269984665640564039457584007908834671663int) == 94732469830723512073096489906589259618518364206031862243711224974706479232528int,
    ensures
        pow_mod(3int, 886151997189943915269204706853563050nat, 115792089237316195423570985008687907853269984665640564039457584007908834671663int) == 115770117142427805839061769252862673012783596160029192089343812494738197934212int,
{
    let m: int = 115792089237316195423570985008687907853269984665640564039457584007908834671663int;
    lemma_pow_mod_step(3int, 432691404877902302377541360768341nat, m, 216345702438951151188770680384170nat, 94732469830723512073096489906589259618518364206031862243711224974706479232528int, 77503056550229522899225772530585058393117819635685212486073218197045365590655int, 73924613544120802958836598917184246872672739794090681093328086653616907161519int, 1int, 105981751395046213452938811742864832764748234716631479240526675952941886812894int);
    lemma_pow_mod_step(3int, 865382809755804604755082721536682nat, m, 432691404877902302377541360768341nat, 105981751395046213452938811742864832764748234716631479240526675952941886812894int, 97002581978990778116705303522664281626359428176533469216056833272348857174070int, 21760944017590237264674987589036787381031503155847502787182853400426477276826int, 0int, 21760944017590237264674987589036787381031503155847502787182853400426477276826int);
    lemma_pow_mod_step(3int, 1730765619511609209510165443073365nat, m, 865382809755804604755082721536682nat, 21760944017590237264674987589036787381031503155847502787182853400426477276826int, 4089559897016604827979536580024261681062854249764538710569972549893664668627int, 46876927858704342665381697666476252573611606567764071079432021384477394617575int, 1int, 24838694338796832572574107990740849867564835037651649198838480145523349181062int);
    lemma_pow_mod_step(3int, 3461531239023218419020330886146730nat, m, 1730765619511609209510165443073365nat, 24838694338796832572574107990740849867564835037651649198838480145523349181062int, 5328176911910753647286944659782837450960394312357356342715358745324210856703int, 76732202911898417339885158700783150498584400516202607756842033941015111740755int, 0int, 76732202911898417339885158700783150498584400516202607756842033941015111740755int);
    lemma_pow_mod_step(3int, 6923062478046436838040661772293461nat, m, 3461531239023218419020330886146730nat, 76732202911898417339885158700783150498584400516202607756842033941015111740755int, 50848300626527488494710380780688653320797217521595517389521843514875100649813int, 101722484909848310381230732598650489545364122165745207822119999400770530621006int, 2int, 73583276254912540296550227778575652929552397165954495387444830186493922519692int);
    lemma_pow_mod_step(3int, 13846124956092873676081323544586922nat, m, 6923062478046436838040661772293461nat, 73583276254912540296550227778575652929552397165954495387444830186493922519692int, 46760522070810437560376889964050547676961937084412142381246075876667365923927int, 52419448953705389295109263671401575843871994060757905523377273254624447194263int, 0int, 52419448953705389295109263671401575843871994060757905523377273254624447194263int);
    lemma_pow_mod_step(3int, 27692249912185747352162647089173845nat, m, 13846124956092873676081323544586922nat, 52419448953705389295109263671401575843871994060757905523377273254624447194263int, 23730452112134399972440801783207634450563096253998415378662137274236055986761int, 115380198569402990037755260344400062159477055830043799531881518815913950259626int, 2int, 114556417233576579266123811015824370771891198158850270516729388431924181435552int);
    lemma_pow_mod_step(3int, 55384499824371494704325294178347690nat, m, 27692249912185747352162647089173845nat, 114556417233576579266123811015824370771891198158850270516729388431924181435552int, 113333931668659191477615709768689553624695818994528333957123644454142928100563int, 37736735544516628041468446029752544702520172204492653690857707353365179098435int, 0int, 37736735544516628041468446029752544702520172204492653690857707353365179098435int);
    lemma_pow_mod_step(3int, 110768999648742989408650588356695381nat, m, 55384499824371494704325294178347690nat, 37736735544516628041468446029752544702520172204492653690857707353365179098435int, 12298432638504064332447024639639609239100872489764196707383343239815192220481int, 21473204573364502817567794531344562660090712450080235497982021176717880519322int, 0int, 64419613720093508452703383594033687980272137350240706493946063530153641557966int);
    lemma_pow_mod_step(3int, 221537999297485978817301176713390762nat, m, 110768999648742989408650588356695381nat, 64419613720093508452703383594033687980272137350240706493946063530153641557966int, 35839120437155737692343339868269778722633778316851208319022594689912187427158int, 61952884128625853794092857825862179980221324354872421566984467524962078833402int, 0int, 61952884128625853794092857825862179980221324354872421566984467524962078833402int);
    lemma_pow_mod_step(3int, 443075998594971957634602353426781525nat, m, 221537999297485978817301176713390762nat, 61952884128625853794092857825862179980221324354872421566984467524962078833402int, 33146995422015595316551667569639744536790416871919256673979656185549218950143int, 53382148576900829272710792775055631827353106321804130574727982095842298995795int, 1int, 44354356493386292394561393316478987628789334299771827684726362279618062315722int);
    lemma_pow_mod_step(3int, 886151997189943915269204706853563050nat, m, 443075998594971957634602353426781525nat, 44354356493386292394561393316478987628789334299771827684726362279618062315722int, 16990011605286729440022505019500327830229068880992269932815636051796893165344int, 115770117142427805839061769252862673012783596160029192089343812494738197934212int, 0int, 115770117142427805839061769252862673012783596160029192089343812494738197934212int);
}

proof fn lemma_certificate_3_10()
    requires
        pow_mod(3int, 886151997189943915269204706853563050nat, 115792089237316195423570985008687907853269984665640564039457584007908834671663int) == 115770117142427805839061769252862673012783596160029192089343812494738197934212int,
    ensures
        pow_mod(3int, 3629678580490010276942662479272194255530nat, 115792089237316195423570985008687907853269984665640564039457584007908834671663int) == 36888428929346249612055097978234826633384228864288467457600717397304494333479int,
{
    let m: int = 115792089237316195423570985008687907853269984665640564039457584007908834671663int;
    lemma_pow_mod_step(3int, 1772303994379887830538409413707126101nat, m, 886151997189943915269204706853563050nat, 115770117142427805839061769252862673012783596160029192089343812494738197934212int, 115748149216848018977414328673789136181711502980902502080245548734190274914334int, 29679652756526691843552912182923329140544141992501386921470259256417937743502int, 0int, 89038958269580075530658736548769987421632425977504160764410777769253813230506int);
    lemma_pow_mod_step(3int, 3544607988759775661076818827414252202nat, m, 1772303994379887830538409413707126101nat, 89038958269580075530658736548769987421632425977504160764410777769253813230506int, 68466992364942098748671658976320933576361693555388999277011877414165772575934int, 87758941302128063157606859621948826829327996009841150945149126568185263457794int, 0int, 87758941302128063157606859621948826829327996009841150945149126568185263457794int);
    lemma_pow_mod_step(3int, 7089215977519551322153637654828504405nat, m, 3544607988759775661076818827414252202nat, 87758941302128063157606859621948826829327996009841150945149126568185263457794int, 66512590188141816650788650574042515909491877315233208304447780533147973012076int, 96755427856240520972164504080696391329904258745767748837370082021712625344048int, 2int, 58682105094089172069351542224713358283172806906022118433195078049320206688818int);
    lemma_pow_mod_step(3int, 14178431955039102644307275309657008810nat, m, 7089215977519551322153637654828504405nat, 58682105094089172069351542224713358283172806906022118433195078049320206688818int, 29739418996198268674823145136268003545938997013564465605949253443068218831305int, 85048056633100634552646188953386133261313743581884077305987571733474225426909int, 0int, 85048056633100634552646188953386133261313743581884077305987571733474225426909int);
    lemma_pow_mod_step(3int, 28356863910078205288614550619314017621nat, m, 14178431955039102644307275309657008810nat, 85048056633100634552646188953386133261313743581884077305987571733474225426909int, 62466892036490400349539626737752147954690004556318242244587022469722489247530int, 4366514079563455602466615373801791896858242410569856215027555405047817551891int, 0int, 13099542238690366807399846121405375690574727231709568645082666215143452655673int);
    lemma_pow_mod_step(3int, 56713727820156410577229101238628035242nat, m, 28356863910078205288614550619314017621nat, 13099542238690366807399846121405375690574727231709568645082666215143452655673int, 1481949310989133762466691109870356913853354460193890184268562223276126320237int, 58660926642356211781420849322506526339657220303091925043493829711530011738798int, 0int, 58660926642356211781420849322506526339657220303091925043493829711530011738798int);
    lemma_pow_mod_step(3int, 113427455640312821154458202477256070485nat, m, 56713727820156410577229101238628035242nat, 58660926642356211781420849322506526339657220303091925043493829711530011738798int, 29717956876029280039511130454821844102824909212270394258923496037155388264278int, 38709131447014125987881481741909913004439031073242174288058954397299776730490int, 1int, 335305103726182540073460217041831160047108554085958824719279183990495519807int);
    lemma_pow_mod_step(3int, 226854911280625642308916404954512140970nat, m, 113427455640312821154458202477256070485nat, 335305103726182540073460217041831160047108554085958824719279183990495519807int, 970960221249669713662451966115586699724217315334024299323620824791852124int, 65958054344249145367613728395342262302728061090944644383828537076305940155037int, 0int, 65958054344249145367613728395342262302728061090944644383828537076305940155037int);
    lemma_pow_mod_step(3int, 453709822561251284617832809909024281941nat, m, 226854911280625642308916404954512140970nat, 65958054344249145367613728395342262302728061090944644383828537076305940155037int, 37571348453370023282352773328816362646252902437325530040933023204376332482705int, 2297095035930166017568062745533118686504584418576020387548306545743295382954int, 0int, 6891285107790498052704188236599356059513753255728061162644919637229886148862int);
    lemma_pow_mod_step(3int, 907419645122502569235665619818048563882nat, m, 453709822561251284617832809909024281941nat, 6891285107790498052704188236599356059513753255728061162644919637229886148862int, 410130007582163953675722729801134988810878868536070940911699744346400057853int, 18030383296513819707560665741001765357573133773460553898956553540726164175505int, 0int, 18030383296513819707560665741001765357573133773460553898956553540726164175505int);
    lemma_pow_mod_step(3int, 1814839290245005138471331239636097127765nat, m, 907419645122502569235665619818048563882nat, 18030383296513819707560665741001765357573133773460553898956553540726164175505int, 2807572814002190232247472327445575656167908260854973787624294300404046392436int, 107773782077799175198668735218035518509983322755003683329739322828664735263957int, 2int, 91737167758765134748864235636730739823409998933729921910302800470176536448545int);
    lemma_pow_mod_step(3int, 3629678580490010276942662479272194255530nat, m, 1814839290245005138471331239636097127765nat, 91737167758765134748864235636730739823409998933729921910302800470176536448545int, 72679472352828883431118414350045470296916091869146171905166546800610377479942int, 36888428929346249612055097978234826633384228864288467457600717397304494333479int, 0int, 36888428929346249612055097978234826633384228864288467457600717397304494333479int);
}

proof fn lemma_certificate_3_11()
    requires
        pow_mod(3int, 3629678580490010276942662479272194255530nat, 115792089237316195423570985008687907853269984665640564039457584007908834671663int) == 36888428929346249612055097978234826633384228864288467457600717397304494333479int,
    ensures
        pow_mod(3int, 14867163465687082094357145515098907670653610nat, 115792089237316195423570985008687907853269984665640564039457584007908834671663int) == 87354795388468162564750469034735689890937891456952037324107013427854697109707int,
{
    let m: int = 115792089237316195423570985008687907853269984665640564039457584007908834671663int;
    lemma_pow_mod_step(3int, 7259357160980020553885324958544388511061nat, m, 3629678580490010276942662479272194255530nat, 36888428929346249612055097978234826633384228864288467457600717397304494333479int, 11751719809516139402018336212579375946787224332451207989118885218868460848507int, 70733529842077032214632066447758678166772034665981996397871932258790731486300int, 1int, 96408500288914901220325214334588126647046119332305425154158212768463359787237int);
    lemma_pow_mod_step(3int, 14518714321960041107770649917088777022122nat, m, 7259357160980020553885324958544388511061nat, 96408500288914901220325214334588126647046119332305425154158212768463359787237int, 80269722993842863681892331415971169548156224091110264697596963892284264577145int, 48595689668723665663817557736138233447733466680441491185010160414320299152034int, 0int, 48595689668723665663817557736138233447733466680441491185010160414320299152034int);
    lemma_pow_mod_step(3int, 29037428643920082215541299834177554044245nat, m, 14518714321960041107770649917088777022122nat, 48595689668723665663817557736138233447733466680441491185010160414320299152034int, 20394666595391601674260542382978645685421079471161085356885634949787523990774int, 9821530665206087618993334859379859700700763810647362335200501758875715099994int, 0int, 29464591995618262856980004578139579102102291431942087005601505276627145299982int);
    lemma_pow_mod_step(3int, 58074857287840164431082599668355108088490nat, m, 29037428643920082215541299834177554044245nat, 29464591995618262856980004578139579102102291431942087005601505276627145299982int, 7497594932318313227026344605996984118210970945422308590356420173789097249590int, 83945811887250905526207890439840261079169913412781974549107732783208757832154int, 0int, 83945811887250905526207890439840261079169913412781974549107732783208757832154int);
    lemma_pow_mod_step(3int, 116149714575680328862165199336710216176981nat, m, 58074857287840164431082599668355108088490nat, 83945811887250905526207890439840261079169913412781974549107732783208757832154int, 60858210434108987156006490267310668134047735747424722585763246460386363887769int, 76659881884095762226004748030638255535754676200375960602949171203658339689869int, 1int, 114187556414971091254443259083226858753994043935487317769389929603066184397944int);
    lemma_pow_mod_step(3int, 232299429151360657724330398673420432353962nat, m, 116149714575680328862165199336710216176981nat, 114187556414971091254443259083226858753994043935487317769389929603066184397944int, 112605257629466848023448253229476443013183181955990896778595888949514336502689int, 92140851468896821232683798398735924709298283334198513595305353439556719825329int, 0int, 92140851468896821232683798398735924709298283334198513595305353439556719825329int);
    lemma_pow_mod_step(3int, 464598858302721315448660797346840864707925nat, m, 232299429151360657724330398673420432353962nat, 92140851468896821232683798398735924709298283334198513595305353439556719825329int, 73320522717343479322369564550099611165990965338104347505433323082456633225717int, 104441412072999768553452184666823771183806228147457924967922235626426007200870int, 2int, 81740057744366914813214583983095497844878715111092646824851538863460352259284int);
    lemma_pow_mod_step(3int, 929197716605442630897321594693681729415850nat, m, 464598858302721315448660797346840864707925nat, 81740057744366914813214583983095497844878715111092646824851538863460352259284int, 57702016468144163364100817380851670644761830029126669146628959294388522120324int, 1246262587454891306240385915745532886176277743982057279304592963408045013844int, 0int, 1246262587454891306240385915745532886176277743982057279304592963408045013844int);
    lemma_pow_mod_step(3int, 1858395433210885261794643189387363458831701nat, m, 929197716605442630897321594693681729415850nat, 1246262587454891306240385915745532886176277743982057279304592963408045013844int, 13413441687769651107748949460184315699491825369576669566737721822431615189int, 79427858406938664192304002910214787407306667855696278515549743565384572967029int, 2int, 6699396746183601729770038713268546515380034235807707467734062680336049557761int);
    lemma_pow_mod_step(3int, 3716790866421770523589286378774726917663402nat, m, 1858395433210885261794643189387363458831701nat, 6699396746183601729770038713268546515380034235807707467734062680336049557761int, 387607798239047420445092719774219744541498535291162565669802901422035275636int, 70879646804716592468494304100430174712836427792492931939947685253515911830453int, 0int, 70879646804716592468494304100430174712836427792492931939947685253515911830453int);
    lemma_pow_mod_step(3int, 7433581732843541047178572757549453835326805nat, m, 3716790866421770523589286378774726917663402nat, 70879646804716592468494304100430174712836427792492931939947685253515911830453int, 43387457331949722000734014339926769751886098445966977656791957428215467592966int, 4983285924478137071029624577770885723817930518857951723948159386093479862751int, 0int, 14949857773434411213088873733312657171453791556573855171844478158280439588253int);
    lemma_pow_mod_step(3int, 14867163465687082094357145515098907670653610nat, m, 7433581732843541047178572757549453835326805nat, 14949857773434411213088873733312657171453791556573855171844478158280439588253int, 1930168536711148181910492527740233799817010319272334483726537608888053987554int, 87354795388468162564750469034735689890937891456952037324107013427854697109707int, 0int, 87354795388468162564750469034735689890937891456952037324107013427854697109707int);
}

proof fn lemma_certificate_3_12()
    requires
        pow_mod(3int, 14867163465687082094357145515098907670653610nat, 115792089237316195423570985008687907853269984665640564039457584007908834671663int) == 87354795388468162564750469034735689890937891456952037324107013427854697109707int,
    ensures
        pow_mod(3int, 60895901555454288258486868029845125818997189290nat, 115792089237316195423570985008687907853269984665640564039457584007908834671663int) == 78452609776563622342354863063036248811050105712861858624376641746882643845188int,
{
    let m: int = 115792089237316195423570985008687907853269984665640564039457584007908834671663int;
    lemma_pow_mod_step(3int, 29734326931374164188714291030197815341307221nat, m, 14867163465687082094357145515098907670653610nat, 87354795388468162564750469034735689890937891456952037324107013427854697109707int, 65901395575665536956740778406392909476330217435574700107441130300262628964337int, 100843563940425196042808586634500745278829985318852800840617665288088462143418int, 2int, 70946513346643197281283789886126420129949986625277274442937827848447717086928int);
    lemma_pow_mod_step(3int, 59468653862748328377428582060395630682614442nat, m, 29734326931374164188714291030197815341307221nat, 70946513346643197281283789886126420129949986625277274442937827848447717086928int, 43469357787727957106191090150158848027755619171784873331920744844427659503068int, 54339979631095289337478426970772739666450944781721610324184758712926787315100int, 0int, 54339979631095289337478426970772739666450944781721610324184758712926787315100int);
    lemma_pow_mod_step(3int, 118937307725496656754857164120791261365228885nat, m, 59468653862748328377428582060395630682614442nat, 54339979631095289337478426970772739666450944781721610324184758712926787315100int, 25501166839264909058857970177891254448911686840206888742237821620005435697043int, 52453981971065136846162710242377902534995555135720474341786134531932243017491int, 1int, 41569856675879215114917145718445799751716680741520858985900819587887894380810int);
    lemma_pow_mod_step(3int, 237874615450993313509714328241582522730457770nat, m, 118937307725496656754857164120791261365228885nat, 41569856675879215114917145718445799751716680741520858985900819587887894380810int, 14923756842416847259609597698256272574640339063986668076838120994321111529405int, 31548767109204722786733505541331638235622449369366150140393572162976351505585int, 0int, 31548767109204722786733505541331638235622449369366150140393572162976351505585int);
    lemma_pow_mod_step(3int, 475749230901986627019428656483165045460915541nat, m, 237874615450993313509714328241582522730457770nat, 31548767109204722786733505541331638235622449369366150140393572162976351505585int, 8595791929023036139142273662287254241657288936617084986679382057320852808145int, 106918758420840190371504440538170708586537132085645123623227267649483679097090int, 2int, 89172096787888180267371351597136310053071426925654242790766634932633367947944int);
    lemma_pow_mod_step(3int, 951498461803973254038857312966330090921831082nat, m, 475749230901986627019428656483165045460915541nat, 89172096787888180267371351597136310053071426925654242790766634932633367947944int, 68671900627438747801615112536247299674537989010635129186519676006098314133186int, 36430688080398914892122364908933211717246585581854115373728849864862731718818int, 0int, 36430688080398914892122364908933211717246585581854115373728849864862731718818int);
    lemma_pow_mod_step(3int, 1902996923607946508077714625932660181843662165nat, m, 951498461803973254038857312966330090921831082nat, 36430688080398914892122364908933211717246585581854115373728849864862731718818int, 11461880019206060060385331498865153395557993192276194951321675864988345314162int, 45563926030733141723237328397065556006848101112450436706760962106574761325718int, 1int, 20899688854883229746141000182508760167274318671710746080825302311815449305491int);
    lemma_pow_mod_step(3int, 3805993847215893016155429251865320363687324330nat, m, 1902996923607946508077714625932660181843662165nat, 20899688854883229746141000182508760167274318671710746080825302311815449305491int, 3772252466536929682155946290369979424478883918775893810977180055456214198356int, 91354956205610217222642394178148130487505092239824118170880294099880228365053int, 0int, 91354956205610217222642394178148130487505092239824118170880294099880228365053int);
    lemma_pow_mod_step(3int, 7611987694431786032310858503730640727374648661nat, m, 3805993847215893016155429251865320363687324330nat, 91354956205610217222642394178148130487505092239824118170880294099880228365053int, 72075113924444086297259242159398012226438279111984005881519666143860956851624int, 101273805340900054286568994247722736846596789907567203162484998399169183362097int, 2int, 72237237548067772012565012725792394833250400391420481408539827181689880742965int);
    lemma_pow_mod_step(3int, 15223975388863572064621717007461281454749297322nat, m, 7611987694431786032310858503730640727374648661nat, 72237237548067772012565012725792394833250400391420481408539827181689880742965int, 45065414424652272071890342519847151738658020460697035162208540866488925566954int, 60920577535442943814731581214103353329170415606219170730560210897655683966723int, 0int, 60920577535442943814731581214103353329170415606219170730560210897655683966723int);
    lemma_pow_mod_step(3int, 30447950777727144129243434014922562909498594645nat, m, 15223975388863572064621717007461281454749297322nat, 60920577535442943814731581214103353329170415606219170730560210897655683966723int, 32051557163335760000316242907684567479696944036462140590900786134691158373469int, 67944402928412229122174808593222443704082914193682641877572100735776426049782int, 1int, 88041119547920491942953440770979423258978757915407361593258718199420443477683int);
    lemma_pow_mod_step(3int, 60895901555454288258486868029845125818997189290nat, m, 30447950777727144129243434014922562909498594645nat, 88041119547920491942953440770979423258978757915407361593258718199420443477683int, 66941004193862011889883371662341175486534977837604693625479419565989789526827int, 78452609776563622342354863063036248811050105712861858624376641746882643845188int, 0int, 78452609776563622342354863063036248811050105712861858624376641746882643845188int);
}

proof fn lemma_certificate_3_13()
    requires
        pow_mod(3int, 60895901555454288258486868029845125818997189290nat, 115792089237316195423570985008687907853269984665640564039457584007908834671663int) == 78452609776563622342354863063036248811050105712861858624376641746882643845188int,
    ensures
        pow_mod(3int, 249429612771140764706762211450245635354612487334570nat, 115792089237316195423570985008687907853269984665640564039457584007908834671663int) == 81034418625214375497008121151415433693516526873701512626931157741138839409183int,
{
    let m: int = 115792089237316195423570985008687907853269984665640564039457584007908834671663int;
    lemma_pow_mod_step(3int, 121791803110908576516973736059690251637994378581nat, m, 60895901555454288258486868029845125818997189290nat, 78452609776563622342354863063036248811050105712861858624376641746882643845188int, 53153993690704228535867386557692708969188960636813397392674580615474328227918int, 47559911164903963876257346645815646673698537997328245261820934492909950667710int, 1int, 26887644257395696205201054928759032167825629326344171746005219470821017331467int);
    lemma_pow_mod_step(3int, 243583606221817153033947472119380503275988757162nat, m, 121791803110908576516973736059690251637994378581nat, 26887644257395696205201054928759032167825629326344171746005219470821017331467int, 6243478448951596407708710881811162230326072009307610761543915980899428856994int, 106997108864051459389632413753214081774587336408871287483478083920824377211067int, 0int, 106997108864051459389632413753214081774587336408871287483478083920824377211067int);
    lemma_pow_mod_step(3int, 487167212443634306067894944238761006551977514325nat, m, 243583606221817153033947472119380503275988757162nat, 106997108864051459389632413753214081774587336408871287483478083920824377211067int, 98870150635266554286004226214517881285077881276346918148053531043471167663661int, 10023673397921677914111525681892205447625094784583042926030158369037315740246int, 0int, 30071020193765033742334577045676616342875284353749128778090475107111947220738int);
    lemma_pow_mod_step(3int, 974334424887268612135789888477522013103955028650nat, m, 487167212443634306067894944238761006551977514325nat, 30071020193765033742334577045676616342875284353749128778090475107111947220738int, 7809395801128765777747003562603182444171002997264987952966700008806441454725int, 113105122935913767613552611884695783874811190961417027074582507063535042306969int, 0int, 113105122935913767613552611884695783874811190961417027074582507063535042306969int);
    lemma_pow_mod_step(3int, 1948668849774537224271579776955044026207910057301nat, m, 974334424887268612135789888477522013103955028650nat, 113105122935913767613552611884695783874811190961417027074582507063535042306969int, 110480507939789848665922772086180474691967514450610720184689021947725135660718int, 114458877761764201303458606880644058927949202215919760451474159333933529132927int, 2int, 111792454810660213063233850624556361077307637316478153275507309985982918055455int);
    lemma_pow_mod_step(3int, 3897337699549074448543159553910088052415820114602nat, m, 1948668849774537224271579776955044026207910057301nat, 111792454810660213063233850624556361077307637316478153275507309985982918055455int, 107930973824815767316428813600905894145529454734573190346758428881091507695954int, 15555924533375295741606734128597568259489808580013592237832466501447231705523int, 0int, 15555924533375295741606734128597568259489808580013592237832466501447231705523int);
    lemma_pow_mod_step(3int, 7794675399098148897086319107820176104831640229205nat, m, 3897337699549074448543159553910088052415820114602nat, 15555924533375295741606734128597568259489808580013592237832466501447231705523int, 2089838690034470710595454021968293748420629887753911754136368300376396954140int, 80833554638834403474706229802438274292093802142929312810204044360231220168709int, 2int, 10916485441870819576976719389939007169741437097506810351696965064875991162801int);
    lemma_pow_mod_step(3int, 15589350798196297794172638215640352209663280458410nat, m, 7794675399098148897086319107820176104831640229205nat, 10916485441870819576976719389939007169741437097506810351696965064875991162801int, 1029169222073012420735954230493089746312598799328426853903949932460987803818int, 102655197934717374761545208257766515150945808029356198801284070867868598356267int, 0int, 102655197934717374761545208257766515150945808029356198801284070867868598356267int);
    lemma_pow_mod_step(3int, 31178701596392595588345276431280704419326560916821nat, m, 15589350798196297794172638215640352209663280458410nat, 102655197934717374761545208257766515150945808029356198801284070867868598356267int, 91008718578504612013778398553567826546981318747890489223343272263283319164066int, 67707761911267788170316419410221957532001834710387633299225296206975520113531int, 1int, 87331196496487169087378273221977964742735519465522335858218304613017725668930int);
    lemma_pow_mod_step(3int, 62357403192785191176690552862561408838653121833642nat, m, 31178701596392595588345276431280704419326560916821nat, 87331196496487169087378273221977964742735519465522335858218304613017725668930int, 65865793870227465943497315157556649760366761434357237503043296679207689982704int, 95330190057216691748877768653950992545224050114742693795897568175531978428148int, 0int, 95330190057216691748877768653950992545224050114742693795897568175531978428148int);
    lemma_pow_mod_step(3int, 124714806385570382353381105725122817677306243667285nat, m, 62357403192785191176690552862561408838653121833642nat, 95330190057216691748877768653950992545224050114742693795897568175531978428148int, 78484162400071160065754408734950169843489084352640294237213607666045819880882int, 91136302430366071073022874342624026644467405319373254128638308685786557863138int, 2int, 41824728816465822371926653010496264226862246626838634306999758041542004246088int);
    lemma_pow_mod_step(3int, 249429612771140764706762211450245635354612487334570nat, m, 124714806385570382353381105725122817677306243667285nat, 41824728816465822371926653010496264226862246626838634306999758041542004246088int, 15107318229535484633446882573131776425493145627349618192672673263253728092847int, 81034418625214375497008121151415433693516526873701512626931157741138839409183int, 0int, 81034418625214375497008121151415433693516526873701512626931157741138839409183int);
}

proof fn lemma_certificate_3_14()
    requires
        pow_mod(3int, 249429612771140764706762211450245635354612487334570nat, 115792089237316195423570985008687907853269984665640564039457584007908834671663int) == 81034418625214375497008121151415433693516526873701512626931157741138839409183int,
    ensures
        pow_mod(3int, 1021663693910592572238898018100206122412492748122401450nat, 115792089237316195423570985008687907853269984665640564039457584007908834671663int) == 6191879723310784715457501771149143936840908111775741993955622876798623942197int,
{
    let m: int = 115792089237316195423570985008687907853269984665640564039457584007908834671663int;
    lemma_pow_mod_step(3int, 498859225542281529413524422900491270709224974669141nat, m, 249429612771140764706762211450245635354612487334570nat, 81034418625214375497008121151415433693516526873701512626931157741138839409183int, 56710065818643909394010258590713859192938736605180360695190485762488805140197int, 86545663710116043015730827612639085954161344778310675798980802065157326589878int, 2int, 28052812655715738200050512820541442155944065003650899318027238179654310426308int);
    lemma_pow_mod_step(3int, 997718451084563058827048845800982541418449949338282nat, m, 498859225542281529413524422900491270709224974669141nat, 28052812655715738200050512820541442155944065003650899318027238179654310426308int, 6796321778803108568821917415664875553250157636414788323789331289787142767356int, 54166923568004528456623471420522012387356649540014696154951882618461243877836int, 0int, 54166923568004528456623471420522012387356649540014696154951882618461243877836int);
    lemma_pow_mod_step(3int, 1995436902169126117654097691601965082836899898676565nat, m, 997718451084563058827048845800982541418449949338282nat, 54166923568004528456623471420522012387356649540014696154951882618461243877836int, 25338998787807426529688687520216527616644352972588356018688384559257685781502int, 69023712443352797497335594244077975264957891023642784793304161382597163065070int, 1int, 91279048092742197068435797723546017941603688405287790340454900139882654523547int);
    lemma_pow_mod_step(3int, 3990873804338252235308195383203930165673799797353130nat, m, 1995436902169126117654097691601965082836899898676565nat, 91279048092742197068435797723546017941603688405287790340454900139882654523547int, 71955387242741291104908015108343510058268867018231382911806662122527807882108int, 19875254778947617200274364425269603179772125668744654543395955125213985155605int, 0int, 19875254778947617200274364425269603179772125668744654543395955125213985155605int);
    lemma_pow_mod_step(3int, 7981747608676504470616390766407860331347599594706261nat, m, 3990873804338252235308195383203930165673799797353130nat, 19875254778947617200274364425269603179772125668744654543395955125213985155605int, 3411508982435525137601560921213761096248478334288764222884842725172175491379int, 58349837960968322941906774266114783046614358880679855322589064565446910822748int, 1int, 59257424645588773402149337789656441286573091976399001928309609688431897796581int);
    lemma_pow_mod_step(3int, 15963495217353008941232781532815720662695199189412522nat, m, 7981747608676504470616390766407860331347599594706261nat, 59257424645588773402149337789656441286573091976399001928309609688431897796581int, 30325408227421488715422610498671401356569097412327582393810723754934063622607int, 41839902270799987235146125244704804726162319086963274534856425232137666204120int, 0int, 41839902270799987235146125244704804726162319086963274534856425232137666204120int);
    lemma_pow_mod_step(3int, 31926990434706017882465563065631441325390398378825045nat, m, 15963495217353008941232781532815720662695199189412522nat, 41839902270799987235146125244704804726162319086963274534856425232137666204120int, 15118281685394594076737532159121602519286613954678540268457119493652939833702int, 63414501290788701774765083375041858935742583015524416360911505285558513187974int, 1int, 74451414635049909900724265116437668953957764380932685043276931848766704892259int);
    lemma_pow_mod_step(3int, 63853980869412035764931126131262882650780796757650090nat, m, 31926990434706017882465563065631441325390398378825045nat, 74451414635049909900724265116437668953957764380932685043276931848766704892259int, 47870395790162346119427669001177821124957651835311927892102608322429631666603int, 10346431272089848021553993154405182156292113539113025753173568717719810552292int, 0int, 10346431272089848021553993154405182156292113539113025753173568717719810552292int);
    lemma_pow_mod_step(3int, 127707961738824071529862252262525765301561593515300181nat, m, 63853980869412035764931126131262882650780796757650090nat, 10346431272089848021553993154405182156292113539113025753173568717719810552292int, 924490099221564935147285994406466014059515039674221019513057161553581729271int, 43637958553340945406468599460991885779569103735584649346181363118269025105591int, 1int, 15121786422706640795834813374287749485437326541113383999086505346898240645110int);
    lemma_pow_mod_step(3int, 255415923477648143059724504525051530603123187030600362nat, m, 127707961738824071529862252262525765301561593515300181nat, 15121786422706640795834813374287749485437326541113383999086505346898240645110int, 1974819058194021863853814375185757075635430118395159896839022618855965276565int, 43640953968887112770452365249209143983500927118755275667576281876748203434505int, 0int, 43640953968887112770452365249209143983500927118755275667576281876748203434505int);
    lemma_pow_mod_step(3int, 510831846955296286119449009050103061206246374061200725nat, m, 255415923477648143059724504525051530603123187030600362nat, 43640953968887112770452365249209143983500927118755275667576281876748203434505int, 16447866826300876756208889745196649038698190931207248708000245205047822270308int, 71564306180544625789575274406314068036095588651395706625678014760527410712821int, 1int, 98900829304317681945154838210254296255016781288546555837576460273673397466800int);
    lemma_pow_mod_step(3int, 1021663693910592572238898018100206122412492748122401450nat, m, 510831846955296286119449009050103061206246374061200725nat, 98900829304317681945154838210254296255016781288546555837576460273673397466800int, 84473594884662897724362819562232826336668354250379516212162876436595085983781int, 6191879723310784715457501771149143936840908111775741993955622876798623942197int, 0int, 6191879723310784715457501771149143936840908111775741993955622876798623942197int);
}

proof fn lemma_certificate_3_15()
    requires
        pow_mod(3int, 1021663693910592572238898018100206122412492748122401450nat, 115792089237316195423570985008687907853269984665640564039457584007908834671663int) == 6191879723310784715457501771149143936840908111775741993955622876798623942197int,
    ensures
        pow_mod(3int, 4184734490257787175890526282138444277401570296309356341930nat, 115792089237316195423570985008687907853269984665640564039457584007908834671663int) == 41702983751452996266223003746518375273876549665927371532244243632905072190457int,
{
    let m: int = 115792089237316195423570985008687907853269984665640564039457584007908834671663int;
    lemma_pow_mod_step(3int, 2043327387821185144477796036200412244824985496244802901nat, m, 1021663693910592572238898018100206122412492748122401450nat, 6191879723310784715457501771149143936840908111775741993955622876798623942197int, 331105300547523498555238564395038667010541782526862787551511287462481190389int, 42040739021909175916361504044940657896449252762965639777578988372776990939902int, 1int, 10330127828411332325513527126134065836077773623256355293279381110422138148043int);
    lemma_pow_mod_step(3int, 4086654775642370288955592072400824489649970992489605802nat, m, 2043327387821185144477796036200412244824985496244802901nat, 10330127828411332325513527126134065836077773623256355293279381110422138148043int, 921578854429447603046925010165479863523010673276597140144470394813311019163int, 53993939706557931613931896614707812064849556504859132025357127069268778651780int, 0int, 53993939706557931613931896614707812064849556504859132025357127069268778651780int);
    lemma_pow_mod_step(3int, 8173309551284740577911184144801648979299941984979211605nat, m, 4086654775642370288955592072400824489649970992489605802nat, 53993939706557931613931896614707812064849556504859132025357127069268778651780int, 25177415350546139613139787412960041038893667489200198272940215058785977679913int, 77385790147360174930479653544459465660062335348480852937651809789496631763081int, 2int, 573191967448133944296990616002581273647036714161430734040261352672225945917int);
    lemma_pow_mod_step(3int, 16346619102569481155822368289603297958599883969958423210nat, m, 8173309551284740577911184144801648979299941984979211605nat, 573191967448133944296990616002581273647036714161430734040261352672225945917int, 2837404815053475092222692484381579002145840170434234820817907703476218917int, 88059165078454147315089952016069478668528853798701354843032813729845004521918int, 0int, 88059165078454147315089952016069478668528853798701354843032813729845004521918int);
    lemma_pow_mod_step(3int, 32693238205138962311644736579206595917199767939916846421nat, m, 16346619102569481155822368289603297958599883969958423210nat, 88059165078454147315089952016069478668528853798701354843032813729845004521918int, 66968448409474165570210731741451163535056259379764438904429243839806227732154int, 31786092770588765140599043878847619703414017541167377428807854933082044646622int, 0int, 95358278311766295421797131636542859110242052623502132286423564799246133939866int);
    lemma_pow_mod_step(3int, 65386476410277924623289473158413191834399535879833692842nat, m, 32693238205138962311644736579206595917199767939916846421nat, 95358278311766295421797131636542859110242052623502132286423564799246133939866int, 78530418636352074631994673059798668866200781239766402116079908602838442404947int, 2593329431129830794150436339566869512609374166997875986332914658616872181095int, 0int, 2593329431129830794150436339566869512609374166997875986332914658616872181095int);
    lemma_pow_mod_step(3int, 130772952820555849246578946316826383668799071759667385685nat, m, 65386476410277924623289473158413191834399535879833692842nat, 2593329431129830794150436339566869512609374166997875986332914658616872181095int, 58081321294588040511576262337085992875986871107354335620595292247889683204int, 98547838179426545013882647707479136382367225604222588857282000961550049550773int, 2int, 64059336063647244194505973105061593440561707481386638492930834868832479308993int);
    lemma_pow_mod_step(3int, 261545905641111698493157892633652767337598143519334771370nat, m, 130772952820555849246578946316826383668799071759667385685nat, 64059336063647244194505973105061593440561707481386638492930834868832479308993int, 35439368647239452352695133530414575295035964062197912761361822261849777044966int, 25222647539880806976001326858953821074296704042770879145714945296033773675591int, 0int, 25222647539880806976001326858953821074296704042770879145714945296033773675591int);
    lemma_pow_mod_step(3int, 523091811282223396986315785267305534675196287038669542741nat, m, 261545905641111698493157892633652767337598143519334771370nat, 25222647539880806976001326858953821074296704042770879145714945296033773675591int, 5494174542590718135262729614072087952104773539408359976027365927133620722689int, 31704458549580528074007499181722940980681718603036537309465393978496019737474int, 0int, 95113375648741584222022497545168822942045155809109611928396181935488059212422int);
    lemma_pow_mod_step(3int, 1046183622564446793972631570534611069350392574077339085482nat, m, 523091811282223396986315785267305534675196287038669542741nat, 95113375648741584222022497545168822942045155809109611928396181935488059212422int, 78127567149753137138697626957725073316972035707050401864477266439113979264077int, 91502144291340818617969017417166401628416139031332295119862446330172253356033int, 0int, 91502144291340818617969017417166401628416139031332295119862446330172253356033int);
    lemma_pow_mod_step(3int, 2092367245128893587945263141069222138700785148154678170965nat, m, 1046183622564446793972631570534611069350392574077339085482nat, 91502144291340818617969017417166401628416139031332295119862446330172253356033int, 72307551103543889195310822897836819790492646031274888650359022375654318612526int, 46524107265700202727861237841517988270859944232837437429569263759574528446351int, 1int, 23780232559784412760012728515866056959309848032871748249250207270814750667390int);
    lemma_pow_mod_step(3int, 4184734490257787175890526282138444277401570296309356341930nat, m, 2092367245128893587945263141069222138700785148154678170965nat, 23780232559784412760012728515866056959309848032871748249250207270814750667390int, 4883748659534401118772855093996618164510781532299493013580834537339251295461int, 41702983751452996266223003746518375273876549665927371532244243632905072190457int, 0int, 41702983751452996266223003746518375273876549665927371532244243632905072190457int);
}

proof fn lemma_certificate_3_16()
    requires
        pow_mod(3int, 4184734490257787175890526282138444277401570296309356341930nat, 115792089237316195423570985008687907853269984665640564039457584007908834671663int) == 41702983751452996266223003746518375273876549665927371532244243632905072190457int,
    ensures
        pow_mod(3int, 17140672472095896272447595651639067760236831933683123576548010nat, 115792089237316195423570985008687907853269984665640564039457584007908834671663int) == 88971572730568533147286153270463621847879202946770944347007002180823885126021int,
{
    let m: int = 115792089237316195423570985008687907853269984665640564039457584007908834671663int;
    lemma_pow_mod_step(3int, 8369468980515574351781052564276888554803140592618712683861nat, m, 4184734490257787175890526282138444277401570296309356341930nat, 41702983751452996266223003746518375273876549665927371532244243632905072190457int, 15019496281905605028509504024789837076667912070452259299127325399675167574251int, 97757507373457751080050159687614768656138607799861484249598736630720323719436int, 2int, 61688343645740862393008509045468490261875854068303324669881041876343301814982int);
    lemma_pow_mod_step(3int, 16738937961031148703562105128553777109606281185237425367722nat, m, 8369468980515574351781052564276888554803140592618712683861nat, 61688343645740862393008509045468490261875854068303324669881041876343301814982int, 32864522670074063085078338306452863259010980271280595206287763043492896993407int, 52534128994045205350990208469787933792257297295064456363708239109204638934483int, 0int, 52534128994045205350990208469787933792257297295064456363708239109204638934483int);
    lemma_pow_mod_step(3int, 33477875922062297407124210257107554219212562370474850735445nat, m, 16738937961031148703562105128553777109606281185237425367722nat, 52534128994045205350990208469787933792257297295064456363708239109204638934483int, 23834397732531559296936966599386191614868377349582702154208937927684366908009int, 99860708631645442720133467060220745378577899380841180566847835998955526428322int, 2int, 67997947420303937313258431163286420429193728811242413621628339981048909941640int);
    lemma_pow_mod_step(3int, 66955751844124594814248420514215108438425124740949701470890nat, m, 33477875922062297407124210257107554219212562370474850735445nat, 67997947420303937313258431163286420429193728811242413621628339981048909941640int, 39931232641446607585172061018747899474472760313430094108376809463714604726192int, 59112142597429427128590629050029871858575305026331750125322490060693869592304int, 0int, 59112142597429427128590629050029871858575305026331750125322490060693869592304int);
    lemma_pow_mod_step(3int, 133911503688249189628496841028430216876850249481899402941781nat, m, 66955751844124594814248420514215108438425124740949701470890nat, 59112142597429427128590629050029871858575305026331750125322490060693869592304int, 30176892268498285378224206794405277344564228949189129593787384746191843399273int, 47113881747004395251126591675042878102626579104979151950481195306128408127417int, 1int, 25549556003696990329808790016440726454609752649296891811986001910476389710588int);
    lemma_pow_mod_step(3int, 267823007376498379256993682056860433753700498963798805883562nat, m, 133911503688249189628496841028430216876850249481899402941781nat, 25549556003696990329808790016440726454609752649296891811986001910476389710588int, 5637516485674379351784385801532916938439954905612231945567757305324297946815int, 72366992901951607550962719217593068207299546876854145597019048579522837702399int, 0int, 72366992901951607550962719217593068207299546876854145597019048579522837702399int);
    lemma_pow_mod_step(3int, 535646014752996758513987364113720867507400997927597611767125nat, m, 267823007376498379256993682056860433753700498963798805883562nat, 72366992901951607550962719217593068207299546876854145597019048579522837702399int, 45227456350130331268774877575135201351803147591437570604936418781263527254613int, 42314389292020926799094476138672742468714240022365810148780762077407633223782int, 1int, 11151078638746584973712443407330319552872735401456866406884702224314064999683int);
    lemma_pow_mod_step(3int, 1071292029505993517027974728227441735014801995855195223534250nat, m, 535646014752996758513987364113720867507400997927597611767125nat, 11151078638746584973712443407330319552872735401456866406884702224314064999683int, 1073877806562949176474931899253077452784229328965002013781866464789693125251int, 93883190300673615571712506706039257671849673276098831322698851418861870638076int, 0int, 93883190300673615571712506706039257671849673276098831322698851418861870638076int);
    lemma_pow_mod_step(3int, 2142584059011987034055949456454883470029603991710390447068501nat, m, 1071292029505993517027974728227441735014801995855195223534250nat, 93883190300673615571712506706039257671849673276098831322698851418861870638076int, 76119650997643461429268584154069428415289352478624013903222664213177240818044int, 17289090499411416347304621650965749320299138519729130587206461114231115094604int, 0int, 51867271498234249041913864952897247960897415559187391761619383342693345283812int);
    lemma_pow_mod_step(3int, 4285168118023974068111898912909766940059207983420780894137002nat, m, 2142584059011987034055949456454883470029603991710390447068501nat, 51867271498234249041913864952897247960897415559187391761619383342693345283812int, 23233140280921457614464879152020365348444324936648896533330502921442602462752int, 46144262626584139563432180584313809135089321659765959225479503192893721854768int, 0int, 46144262626584139563432180584313809135089321659765959225479503192893721854768int);
    lemma_pow_mod_step(3int, 8570336236047948136223797825819533880118415966841561788274005nat, m, 4285168118023974068111898912909766940059207983420780894137002nat, 46144262626584139563432180584313809135089321659765959225479503192893721854768int, 18388933021038925830891719853329138247458200892842551238019077210570088120747int, 45990790719599834484768351149967166216773273124609605675347549104877641041563int, 1int, 22180282921483308030734068441213590797049834708188252986585063306724088453026int);
    lemma_pow_mod_step(3int, 17140672472095896272447595651639067760236831933683123576548010nat, m, 8570336236047948136223797825819533880118415966841561788274005nat, 22180282921483308030734068441213590797049834708188252986585063306724088453026int, 4248692235518444037240539316083045887371104945545577767521657199481639771185int, 88971572730568533147286153270463621847879202946770944347007002180823885126021int, 0int, 88971572730568533147286153270463621847879202946770944347007002180823885126021int);
}

proof fn lemma_certificate_3_17()
    requires
        pow_mod(3int, 17140672472095896272447595651639067760236831933683123576548010nat, 115792089237316195423570985008687907853269984665640564039457584007908834671663int) == 88971572730568533147286153270463621847879202946770944347007002180823885126021int,
    ensures
        pow_mod(3int, 70208194445704791131945351789113621545930063600366074169540651690nat, 115792089237316195423570985008687907853269984665640564039457584007908834671663int) == 25691109360963992200766661303720069355818437053087117938283441013910922919607int,
{
    let m: int = 115792089237316195423570985008687907853269984665640564039457584007908834671663int;
    lemma_pow_mod_step(3int, 34281344944191792544895191303278135520473663867366247153096021nat, m, 17140672472095896272447595651639067760236831933683123576548010nat, 88971572730568533147286153270463621847879202946770944347007002180823885126021int, 68363398624988141992321469679368750805161280874965464822294741331431497320478int, 101876849657508245616039830253609160209651730242412930437083428059551635077527int, 2int, 74046370497892346000977520743451664922415221395957663232335116162837235889255int);
    lemma_pow_mod_step(3int, 68562689888383585089790382606556271040947327734732494306192042nat, m, 34281344944191792544895191303278135520473663867366247153096021nat, 74046370497892346000977520743451664922415221395957663232335116162837235889255int, 47350946165881812516709966748391711826855446130441628908358210608245950344375int, 113026785864291487765266286670860803834368140398423959549995000672155720509400int, 0int, 113026785864291487765266286670860803834368140398423959549995000672155720509400int);
    lemma_pow_mod_step(3int, 137125379776767170179580765213112542081894655469464988612384085nat, m, 68562689888383585089790382606556271040947327734732494306192042nat, 113026785864291487765266286670860803834368140398423959549995000672155720509400int, 110327522432295821200776636598245052756175408379721749246343525963759126028846int, 79463997387719368935308919012779768562119518517186065548522303079704011569102int, 2int, 6807813688525715958784787020963489979818586220277068566651741223294365363980int);
    lemma_pow_mod_step(3int, 274250759553534340359161530426225084163789310938929977224768170nat, m, 137125379776767170179580765213112542081894655469464988612384085nat, 6807813688525715958784787020963489979818586220277068566651741223294365363980int, 400254693761429529273089136388850550820222668021326344094771874028462884196int, 46138613343032049808675677523697815074781827809082657772253746744224229702452int, 0int, 46138613343032049808675677523697815074781827809082657772253746744224229702452int);
    lemma_pow_mod_step(3int, 548501519107068680718323060852450168327578621877859954449536341nat, m, 274250759553534340359161530426225084163789310938929977224768170nat, 46138613343032049808675677523697815074781827809082657772253746744224229702452int, 18384430708862087739465470609450294780833495507639774932824113887088994011801int, 80992342570477249017997857076558537657573770640196068089495197854577472517241int, 2int, 11392849236799356206851601212299797266181342589307076189570425547914748208397int);
    lemma_pow_mod_step(3int, 1097003038214137361436646121704900336655157243755719908899072682nat, m, 548501519107068680718323060852450168327578621877859954449536341nat, 11392849236799356206851601212299797266181342589307076189570425547914748208397int, 1120948888541257319442518250011646211352311053808211077318580321202765869908int, 103435907395438539185171278848146413695468055262940664870069563102221589292605int, 0int, 103435907395438539185171278848146413695468055262940664870069563102221589292605int);
    lemma_pow_mod_step(3int, 2194006076428274722873292243409800673310314487511439817798145365nat, m, 1097003038214137361436646121704900336655157243755719908899072682nat, 103435907395438539185171278848146413695468055262940664870069563102221589292605int, 92398254571520294831422647468639927837981266496891837651197523683809317606190int, 22166329463695455184845953778390179753339720983490922356705136965410521292055int, 0int, 66498988391086365554537861335170539260019162950472767070115410896231563876165int);
    lemma_pow_mod_step(3int, 4388012152856549445746584486819601346620628975022879635596290730nat, m, 2194006076428274722873292243409800673310314487511439817798145365nat, 66498988391086365554537861335170539260019162950472767070115410896231563876165int, 38190134457067285493332507143500678798144484543665558831603846289881992573510int, 19733181726887816957281475067119614450020849429765301638723922292394213660095int, 0int, 19733181726887816957281475067119614450020849429765301638723922292394213660095int);
    lemma_pow_mod_step(3int, 8776024305713098891493168973639202693241257950045759271192581461nat, m, 4388012152856549445746584486819601346620628975022879635596290730nat, 19733181726887816957281475067119614450020849429765301638723922292394213660095int, 3362910744863632801992397983864353042478573545863396826445406760869995007732int, 38578362776595525604375915779790545171720163681834127917000274080934829110709int, 0int, 115735088329786576813127747339371635515160491045502383751000822242804487332127int);
    lemma_pow_mod_step(3int, 17552048611426197782986337947278405386482515900091518542385162922nat, m, 8776024305713098891493168973639202693241257950045759271192581461nat, 115735088329786576813127747339371635515160491045502383751000822242804487332127int, 115678115482062084795446837453120890404702742122665773962432708050895528564687int, 64257943449932377171421407249433398913009256089101559974074848009670704979648int, 0int, 64257943449932377171421407249433398913009256089101559974074848009670704979648int);
    lemma_pow_mod_step(3int, 35104097222852395565972675894556810772965031800183037084770325845nat, m, 17552048611426197782986337947278405386482515900091518542385162922nat, 64257943449932377171421407249433398913009256089101559974074848009670704979648int, 35659459325862409103227213784094874242979899733704949987984738617668272790665int, 79971567964154843466892212730541486573320828949699891559937724377282087778009int, 2int, 8330525417832139553534668174248644013422517517818546600898005116028593990701int);
    lemma_pow_mod_step(3int, 70208194445704791131945351789113621545930063600366074169540651690nat, m, 35104097222852395565972675894556810772965031800183037084770325845nat, 8330525417832139553534668174248644013422517517818546600898005116028593990701int, 599329835002084356951055800120005351309529185548343117986995156004270992238int, 25691109360963992200766661303720069355818437053087117938283441013910922919607int, 0int, 25691109360963992200766661303720069355818437053087117938283441013910922919607int);
}

proof fn lemma_certificate_3_18()
    requires
        pow_mod(3int, 70208194445704791131945351789113621545930063600366074169540651690nat, 115792089237316195423570985008687907853269984665640564039457584007908834671663int) == 25691109360963992200766661303720069355818437053087117938283441013910922919607int,
    ensures
        pow_mod(3int, 287572764449606824476448160928209393852129540507099439798438509324959nat, 115792089237316195423570985008687907853269984665640564039457584007908834671663int) == 65587931396740086402007012675074615281366619803729659037903884137756941990876int,
{
    let m: int = 115792089237316195423570985008687907853269984665640564039457584007908834671663int;
    lemma_pow_mod_step(3int, 140416388891409582263890703578227243091860127200732148339081303381nat, m, 70208194445704791131945351789113621545930063600366074169540651690nat, 25691109360963992200766661303720069355818437053087117938283441013910922919607int, 5700157105242933048493558504456913828732191789279895209835891724037471686304int, 97158930826763058224430814211457091142816672946570343405985924388586211030897int, 2int, 59892614005656783826150472616995457721910049508429902139042605149940963749365int);
    lemma_pow_mod_step(3int, 280832777782819164527781407156454486183720254401464296678162606762nat, m, 140416388891409582263890703578227243091860127200732148339081303381nat, 59892614005656783826150472616995457721910049508429902139042605149940963749365int, 30979017962779585568309678773873786488102806297282747801277391298383581791307int, 20360914235356122367414895981017481194829476237306706142891091307635805269684int, 0int, 20360914235356122367414895981017481194829476237306706142891091307635805269684int);
    lemma_pow_mod_step(3int, 561665555565638329055562814312908972367440508802928593356325213525nat, m, 280832777782819164527781407156454486183720254401464296678162606762nat, 20360914235356122367414895981017481194829476237306706142891091307635805269684int, 3580269008272851606892520947824688084126947122356171797304247508415503514994int, 10703697014016013102579017479604184401676223257775352275025347547549582044834int, 0int, 32111091042048039307737052438812553205028669773326056825076042642648746134502int);
    lemma_pow_mod_step(3int, 1123331111131276658111125628625817944734881017605857186712650427050nat, m, 561665555565638329055562814312908972367440508802928593356325213525nat, 32111091042048039307737052438812553205028669773326056825076042642648746134502int, 8904944842971182637028085596063933501513475060424249713915600159330052642297int, 13613177899836556635896663034401956154363124203416422765992592309787493658093int, 0int, 13613177899836556635896663034401956154363124203416422765992592309787493658093int);
    lemma_pow_mod_step(3int, 2246662222262553316222251257251635889469762035211714373425300854101nat, m, 1123331111131276658111125628625817944734881017605857186712650427050nat, 13613177899836556635896663034401956154363124203416422765992592309787493658093int, 1600442774227757931225540076329388237404368997878922971023063102568035059045int, 113749811624955480854626903464308174756842325928158979516678146689459391054814int, 2int, 109665256400234051716738740375548708563987008453195810471119272052560503821116int);
    lemma_pow_mod_step(3int, 4493324444525106632444502514503271778939524070423428746850601708202nat, m, 2246662222262553316222251257251635889469762035211714373425300854101nat, 109665256400234051716738740375548708563987008453195810471119272052560503821116int, 103862608754565231884311076247883558612757841756623504022551986135368433346917int, 62203695857681171605112005251338506852618566954675060739056684750625059172485int, 0int, 62203695857681171605112005251338506852618566954675060739056684750625059172485int);
    lemma_pow_mod_step(3int, 8986648889050213264889005029006543557879048140846857493701203416404nat, m, 4493324444525106632444502514503271778939524070423428746850601708202nat, 62203695857681171605112005251338506852618566954675060739056684750625059172485int, 33415925076062506666935004455265053491153159770016115732238084934904618299614int, 79558716608483296698579572878682682520264682815076147828891002757601931437143int, 0int, 79558716608483296698579572878682682520264682815076147828891002757601931437143int);
    lemma_pow_mod_step(3int, 17973297778100426529778010058013087115758096281693714987402406832809nat, m, 8986648889050213264889005029006543557879048140846857493701203416404nat, 79558716608483296698579572878682682520264682815076147828891002757601931437143int, 54663400842664179233602865804725219656078380208184597213659701410885420937981int, 107071650303294054106630708532668294606373480630860553890377999372529738870046int, 2int, 89630772435249771472750155580629068112580472561300533592218830101771547266812int);
    lemma_pow_mod_step(3int, 35946595556200853059556020116026174231516192563387429974804813665619nat, m, 17973297778100426529778010058013087115758096281693714987402406832809nat, 89630772435249771472750155580629068112580472561300533592218830101771547266812int, 69380174589254462607974233360325202809895038253773799752561264886865076834334int, 93409129067225132261467369066711626427942409623558973659353158497859181365902int, 2int, 48643208727043005937260137182759063577287259539395792899144307477759874754380int);
    lemma_pow_mod_step(3int, 71893191112401706119112040232052348463032385126774859949609627331239nat, m, 35946595556200853059556020116026174231516192563387429974804813665619nat, 48643208727043005937260137182759063577287259539395792899144307477759874754380int, 20434571747066572328360524255429423947754068782284612149097922771391525147445int, 79262844122960863648386779550774821807910839208332825361457961750081090833365int, 2int, 6204353894250200098018368634948649717192548293717348005458717234425603156769int);
    lemma_pow_mod_step(3int, 143786382224803412238224080464104696926064770253549719899219254662479nat, m, 71893191112401706119112040232052348463032385126774859949609627331239nat, 6204353894250200098018368634948649717192548293717348005458717234425603156769int, 332440734929689822968576579253903978817322583200848024266153842506006086277int, 47062716100135323828706878370404461542321976614347590274816934477701045450710int, 1int, 25396059063089776062549650102525476773695945177402206784993219425194301680467int);
    lemma_pow_mod_step(3int, 287572764449606824476448160928209393852129540507099439798438509324959nat, m, 143786382224803412238224080464104696926064770253549719899219254662479nat, 25396059063089776062549650102525476773695945177402206784993219425194301680467int, 5569981681685503515411398650562520611260540862875786440887929400744280720752int, 60460006878018760608525999227920841044878868156456741025787156048555258887513int, 1int, 65587931396740086402007012675074615281366619803729659037903884137756941990876int);
}

proof fn lemma_certificate_3_19()
    requires
        pow_mod(3int, 287572764449606824476448160928209393852129540507099439798438509324959nat, 115792089237316195423570985008687907853269984665640564039457584007908834671663int) == 65587931396740086402007012675074615281366619803729659037903884137756941990876int,
    ensures
        pow_mod(3int, 1177898043185589553055531667161945677218322597917079305414404134195036159nat, 115792089237316195423570985008687907853269984665640564039457584007908834671663int) == 37722026166626486680724241049689624880164869724741402951207680157253191331640int,
{
    let m: int = 115792089237316195423570985008687907853269984665640564039457584007908834671663int;
    lemma_pow_mod_step(3int, 575145528899213648952896321856418787704259081014198879596877018649919nat, m, 287572764449606824476448160928209393852129540507099439798438509324959nat, 65587931396740086402007012675074615281366619803729659037903884137756941990876int, 37150869055372004561039450150248156445045640073791052654419756189439396937056int, 24571973961935032460227546786767449719807413661226193245713838857304829403248int, 0int, 73715921885805097380682640360302349159422240983678579737141516571914488209744int);
    lemma_pow_mod_step(3int, 1150291057798427297905792643712837575408518162028397759193754037299839nat, m, 575145528899213648952896321856418787704259081014198879596877018649919nat, 73715921885805097380682640360302349159422240983678579737141516571914488209744int, 46929260671141750866570061119168731055005875085067036549496296417087094026592int, 48053013795479350170752533242990567715869129422909547798483704732237225683040int, 1int, 28366952149121855088686614720283795294337403603088079355993530188802842377457int);
    lemma_pow_mod_step(3int, 2300582115596854595811585287425675150817036324056795518387508074599679nat, m, 1150291057798427297905792643712837575408518162028397759193754037299839nat, 28366952149121855088686614720283795294337403603088079355993530188802842377457int, 6949386435038468680267811969380141902804252999170564299241097404550101623580int, 96175623462115732886435307157741700190539248503359408997961050513195543173309int, 2int, 56942691911714807812163951455849284865077776178797098914967983523768960176601int);
    lemma_pow_mod_step(3int, 4601164231193709191623170574851350301634072648113591036775016149199359nat, m, 2300582115596854595811585287425675150817036324056795518387508074599679nat, 56942691911714807812163951455849284865077776178797098914967983523768960176601int, 28002518855213154993453570830139000438713571740310374145087285051170003998410int, 87825068022666892829303517706483698043338945753667034060527877084891583857371int, 2int, 31891025593368287640768583102075278423476867929719974102668463238857082228787int);
    lemma_pow_mod_step(3int, 9202328462387418383246341149702700603268145296227182073550032298398719nat, m, 4601164231193709191623170574851350301634072648113591036775016149199359nat, 31891025593368287640768583102075278423476867929719974102668463238857082228787int, 8783307392549503525825800532877995748790811581387650730251709659680910201033int, 101090771312653585062091484479764729092550187427825903673658440378677533063490int, 2int, 71688135463328364339132483421918371571110592952196582942060153120214929847144int);
    lemma_pow_mod_step(3int, 18404656924774836766492682299405401206536290592454364147100064596797439nat, m, 9202328462387418383246341149702700603268145296227182073550032298398719nat, 71688135463328364339132483421918371571110592952196582942060153120214929847144int, 44382900421424617436026291673117976151611464475643664400156039189203604284359int, 42573956489660367845354530131511668207781677769449761349087137008751353537719int, 1int, 11929780231664908112492605385847096770075048642708720007803827018345225941494int);
    lemma_pow_mod_step(3int, 36809313849549673532985364598810802413072581184908728294200129193594879nat, m, 18404656924774836766492682299405401206536290592454364147100064596797439nat, 11929780231664908112492605385847096770075048642708720007803827018345225941494int, 1229096541164727701869598703749800521089167635107598099160436246811546700264int, 59184721537921200641438338131330299114932951532858031608664766644795195533004int, 1int, 61762075376447406500744029385302989491528869932933530786536715926476751927349int);
    lemma_pow_mod_step(3int, 73618627699099347065970729197621604826145162369817456588400258387189759nat, m, 36809313849549673532985364598810802413072581184908728294200129193594879nat, 61762075376447406500744029385302989491528869932933530786536715926476751927349int, 32943130916206482422532249195655478946533535256117312655752842589869111428895int, 44396256978885288716473285764428715093177834177394549863212782688638078265416int, 1int, 17396681699339670725848872284598237426263517866543085550180764058005400124585int);
    lemma_pow_mod_step(3int, 147237255398198694131941458395243209652290324739634913176800516774379519nat, m, 73618627699099347065970729197621604826145162369817456588400258387189759nat, 17396681699339670725848872284598237426263517866543085550180764058005400124585int, 2613689209181371919619417695668806516254271843719132969938082460648363188115int, 38819441998272502339754848179072009988175060389731889710278740231661592536980int, 1int, 666236757501311595693559528528122111255196503555105091378636687075942939277int);
    lemma_pow_mod_step(3int, 294474510796397388263882916790486419304580649479269826353601033548759039nat, m, 147237255398198694131941458395243209652290324739634913176800516774379519nat, 666236757501311595693559528528122111255196503555105091378636687075942939277int, 3833348374396681113759912551127336878216186555543754668375033839077301559int, 45350460875961061123458586704030513079337703494016184317539339969780306260112int, 1int, 20259293390566987946804775103403631384743125816407988913160435901432084108673int);
    lemma_pow_mod_step(3int, 588949021592794776527765833580972838609161298958539652707202067097518079nat, m, 294474510796397388263882916790486419304580649479269826353601033548759039nat, 20259293390566987946804775103403631384743125816407988913160435901432084108673int, 3544620115143405716416875607652802123841287592694349697091897528076444056137int, 74628272350419956296699163375694081837929813384375765921668257030882538675098int, 1int, 108092727813943673466526505118394337660519455487486733725547187084738781353631int);
    lemma_pow_mod_step(3int, 1177898043185589553055531667161945677218322597917079305414404134195036159nat, m, 588949021592794776527765833580972838609161298958539652707202067097518079nat, 108092727813943673466526505118394337660519455487486733725547187084738781353631int, 100905319898951349127794088600445629089375578903690570775405294795711958604620int, 51171371801314227368098408686125844244478284796793988996888421388387342001101int, 1int, 37722026166626486680724241049689624880164869724741402951207680157253191331640int);
}

proof fn lemma_certificate_3_20()
    requires
        pow_mod(3int, 1177898043185589553055531667161945677218322597917079305414404134195036159nat, 115792089237316195423570985008687907853269984665640564039457584007908834671663int) == 37722026166626486680724241049689624880164869724741402951207680157253191331640int,
    ensures
        pow_mod(3int, 4824670384888174809315457708695329493886249361068356834977399333662868111319nat, 115792089237316195423570985008687907853269984665640564039457584007908834671663int) == 63370049994216355474662952533698481021018368286700606164854327518172444342403int,
{
    let m: int = 115792089237316195423570985008687907853269984665640564039457584007908834671663int;
    lemma_pow_mod_step(3int, 2355796086371179106111063334323891354436645195834158610828808268390072319nat, m, 1177898043185589553055531667161945677218322597917079305414404134195036159nat, 37722026166626486680724241049689624880164869724741402951207680157253191331640int, 12288846910770484143139504955309714049296310310979730784280777729275733876717int, 34667562082510947166382415353816436289030678145466415030771219719175649719229int, 0int, 104002686247532841499147246061449308867092034436399245092313659157526949157687int);
    lemma_pow_mod_step(3int, 4711592172742358212222126668647782708873290391668317221657616536780144639nat, m, 2355796086371179106111063334323891354436645195834158610828808268390072319nat, 104002686247532841499147246061449308867092034436399245092313659157526949157687int, 93413624522606124388072749466357095140571822581143587509322964978599229007253int, 51511366349465431367229650783641791608328732506161891982266475262313090618230int, 1int, 38742009811080098678117967342237466971716212852845111907341841779030437183027int);
    lemma_pow_mod_step(3int, 9423184345484716424444253337295565417746580783336634443315233073560289279nat, m, 4711592172742358212222126668647782708873290391668317221657616536780144639nat, 38742009811080098678117967342237466971716212852845111907341841779030437183027int, 12962399539450741587409279185915509097955518684439824072347004338338791053119int, 109961867281911079198129230021733697856975560527615080667609394725850739815832int, 2int, 98301423371100846747245720047825277864386712251564113923913016161734550104170int);
    lemma_pow_mod_step(3int, 18846368690969432848888506674591130835493161566673268886630466147120578559nat, m, 9423184345484716424444253337295565417746580783336634443315233073560289279nat, 98301423371100846747245720047825277864386712251564113923913016161734550104170int, 83452763486974653621822675540430185248928014685661818475699662349626179821562int, 73747471205342076710912043282513122686151164658238772209093630423861653591294int, 1int, 105450324378710034709165144838851460205183509309075752587823307263676126102219int);
    lemma_pow_mod_step(3int, 37692737381938865697777013349182261670986323133346537773260932294241157119nat, m, 18846368690969432848888506674591130835493161566673268886630466147120578559nat, 105450324378710034709165144838851460205183509309075752587823307263676126102219int, 96032215886399352855888143007367271729466859864057753114660051214293122782078int, 94756332683034879670026099633136632691602691152655086471619016461053405868247int, 2int, 52684819574472248162936328882034082368268104126684131335941881367342548261415int);
    lemma_pow_mod_step(3int, 75385474763877731395554026698364523341972646266693075546521864588482314239nat, m, 37692737381938865697777013349182261670986323133346537773260932294241157119nat, 52684819574472248162936328882034082368268104126684131335941881367342548261415int, 23971328541329880241786321341199718709970879337751913876341192191117687690186int, 17415024445029072391051624494818390352128896315347064737098727804469000402907int, 0int, 52245073335087217173154873484455171056386688946041194211296183413407001208721int);
    lemma_pow_mod_step(3int, 150770949527755462791108053396729046683945292533386151093043729176964628478nat, m, 75385474763877731395554026698364523341972646266693075546521864588482314239nat, 52245073335087217173154873484455171056386688946041194211296183413407001208721int, 23572833910911013086144115040204522468005451415981415550961658972696601912839int, 89469627384560135851469024648056426821960577787546339981643826402504697274584int, 0int, 89469627384560135851469024648056426821960577787546339981643826402504697274584int);
    lemma_pow_mod_step(3int, 301541899055510925582216106793458093367890585066772302186087458353929256957nat, m, 150770949527755462791108053396729046683945292533386151093043729176964628478nat, 89469627384560135851469024648056426821960577787546339981643826402504697274584int, 69130924893549030741101235228537762783172354231592833179177684310673716808443int, 5883214506034345320389591684135596973087558277656393956551599482379321122347int, 0int, 17649643518103035961168775052406790919262674832969181869654798447137963367041int);
    lemma_pow_mod_step(3int, 603083798111021851164432213586916186735781170133544604372174916707858513914nat, m, 301541899055510925582216106793458093367890585066772302186087458353929256957nat, 17649643518103035961168775052406790919262674832969181869654798447137963367041int, 2690252143889347300525964292097957178141530137606610014834177931075225895183int, 8854696220874763066580636769411945523204223749454498175436752016092626796352int, 0int, 8854696220874763066580636769411945523204223749454498175436752016092626796352int);
    lemma_pow_mod_step(3int, 1206167596222043702328864427173832373471562340267089208744349833415717027829nat, m, 603083798111021851164432213586916186735781170133544604372174916707858513914nat, 8854696220874763066580636769411945523204223749454498175436752016092626796352int, 677124367307003435795763805666153847226766334261194427820133936653173440628int, 91752875280786439545993842590355189469942472236377223433887253250294475983540int, 2int, 43674447367726927790839557753689752703287447377850542222746591735065758607294int);
    lemma_pow_mod_step(3int, 2412335192444087404657728854347664746943124680534178417488699666831434055659nat, m, 1206167596222043702328864427173832373471562340267089208744349833415717027829nat, 43674447367726927790839557753689752703287447377850542222746591735065758607294int, 16473123211094418070047479814511340610109277194679290050554612312114200712927int, 28390658473214953646478929383701222119420558296735237254986183831555945314835int, 0int, 85171975419644860939436788151103666358261674890205711764958551494667835944505int);
    lemma_pow_mod_step(3int, 4824670384888174809315457708695329493886249361068356834977399333662868111319nat, m, 2412335192444087404657728854347664746943124680534178417488699666831434055659nat, 85171975419644860939436788151103666358261674890205711764958551494667835944505int, 62649058710884403558788608921278183264146371580929753973956908984257259088848int, 21123349998072118491554317511232827007006122762233535388284775839390814780801int, 0int, 63370049994216355474662952533698481021018368286700606164854327518172444342403int);
}

proof fn lemma_certificate_3_21()
    requires
        pow_mod(3int, 4824670384888174809315457708695329493886249361068356834977399333662868111319nat, 115792089237316195423570985008687907853269984665640564039457584007908834671663int) == 63370049994216355474662952533698481021018368286700606164854327518172444342403int,
    ensures
        pow_mod(3int, 38597363079105398474523661669562635951089994888546854679819194669302944890554nat, 115792089237316195423570985008687907853269984665640564039457584007908834671663int) == 60197513588986302554485582024885075108884032450952339817679072026166228089408int,
{
    let m: int = 115792089237316195423570985008687907853269984665640564039457584007908834671663int;
    lemma_pow_mod_step(3int, 9649340769776349618630915417390658987772498722136713669954798667325736222638nat, m, 4824670384888174809315457708695329493886249361068356834977399333662868111319nat, 63370049994216355474662952533698481021018368286700606164854327518172444342403int, 34680808185774788653006083690269091514547175535652185482480424836349313494653int, 20065837862995434184828527341628358369628010816984113272559690675388742696470int, 0int, 20065837862995434184828527341628358369628010816984113272559690675388742696470int);
    lemma_pow_mod_step(3int, 19298681539552699237261830834781317975544997444273427339909597334651472445277nat, m, 9649340769776349618630915417390658987772498722136713669954798667325736222638nat, 20065837862995434184828527341628358369628010816984113272559690675388742696470int, 3477248331868456300957942283246739095789003393948539274382684327774201559852int, 58663200942100832659352189011190994320718005705530967952378885344691687587024int, 1int, 60197513588986302554485582024885075108884032450952339817679072026166228089409int);
    lemma_pow_mod_step(3int, 38597363079105398474523661669562635951089994888546854679819194669302944890554nat, m, 19298681539552699237261830834781317975544997444273427339909597334651472445277nat, 60197513588986302554485582024885075108884032450952339817679072026166228089409int, 31295234986816106708621480549220651862101030545536853469444158949967814038671int, 60197513588986302554485582024885075108884032450952339817679072026166228089408int, 0int, 60197513588986302554485582024885075108884032450952339817679072026166228089408int);
}

proof fn lemma_certificate_3()
    ensures
        pow_mod(3int, 38597363079105398474523661669562635951089994888546854679819194669302944890554nat, 115792089237316195423570985008687907853269984665640564039457584007908834671663int) == 60197513588986302554485582024885075108884032450952339817679072026166228089408int,
{
    lemma_pow_mod_zero(3int, 115792089237316195423570985008687907853269984665640564039457584007908834671663int);
    lemma_certificate_3_0();
    lemma_certificate_3_1();
    lemma_certificate_3_2();
    lemma_certificate_3_3();
    lemma_certificate_3_4();
    lemma_certificate_3_5();
    lemma_certificate_3_6();
    lemma_certificate_3_7();
    lemma_certificate_3_8();
    lemma_certificate_3_9();
    lemma_certificate_3_10();
    lemma_certificate_3_11();
    lemma_certificate_3_12();
    lemma_certificate_3_13();
    lemma_certificate_3_14();
    lemma_certificate_3_15();
    lemma_certificate_3_16();
    lemma_certificate_3_17();
    lemma_certificate_3_18();
    lemma_certificate_3_19();
    lemma_certificate_3_20();
    lemma_certificate_3_21();
}

proof fn lemma_certificate_7_0()
    requires
        pow_mod(3int, 0nat, 115792089237316195423570985008687907853269984665640564039457584007908834671663int) == 1int,
    ensures
        pow_mod(3int, 2340nat, 115792089237316195423570985008687907853269984665640564039457584007908834671663int) == 84255828848027035795876112806106135194496583917653051077688578663108829853157int,
{
    let m: int = 115792089237316195423570985008687907853269984665640564039457584007908834671663int;
    lemma_pow_mod_step(3int, 1nat, m, 0nat, 1int, 0int, 1int, 0int, 3int);
    lemma_pow_mod_step(3int, 2nat, m, 1nat, 3int, 0int, 9int, 0int, 9int);
    lemma_pow_mod_step(3int, 4nat, m, 2nat, 9int, 0int, 81int, 0int, 81int);
    lemma_pow_mod_step(3int, 9nat, m, 4nat, 81int, 0int, 6561int, 0int, 19683int);
    lemma_pow_mod_step(3int, 18nat, m, 9nat, 19683int, 0int, 387420489int, 0int, 387420489int);
    lemma_pow_mod_step(3int, 36nat, m, 18nat, 387420489int, 0int, 150094635296999121int, 0int, 150094635296999121int);
    lemma_pow_mod_step(3int, 73nat, m, 36nat, 150094635296999121int, 0int, 22528399544939174411840147874772641int, 0int, 67585198634817523235520443624317923int);
    lemma_pow_mod_step(3int, 146nat, m, 73nat, 67585198634817523235520443624317923int, 0int, 4567759074507740406477787437675267212178680251724974985372646979033929int, 0int, 4567759074507740406477787437675267212178680251724974985372646979033929int);
    lemma_pow_mod_step(3int, 292nat, m, 146nat, 4567759074507740406477787437675267212178680251724974985372646979033929int, 180188673511073098595195671477809386034911332635750510259318509int, 78938404711975532349758848662694514402130914708781478238710645506588979466574int, 0int, 78938404711975532349758848662694514402130914708781478238710645506588979466574int);
    lemma_pow_mod_step(3int, 585nat, m, 292nat, 78938404711975532349758848662694514402130914708781478238710645506588979466574int, 53814313046037479270031731348352305698534653587146905615415949582655836159484int, 40377584433228836244946179867748868827129730556006193870518937010429539795584int, 1int, 5340664062370313311267554594558698628119207002378017572099227023379784715089int);
    lemma_pow_mod_step(3int, 1170nat, m, 585nat, 5340664062370313311267554594558698628119207002378017572099227023379784715089int, 246326781172731440155844225748951221621428430580603256308815552233070208094int, 27696905421395114103575339375884008914859013190243219134458988227695329237599int, 0int, 27696905421395114103575339375884008914859013190243219134458988227695329237599int);
    lemma_pow_mod_step(3int, 2340nat, m, 1170nat, 27696905421395114103575339375884008914859013190243219134458988227695329237599int, 6624965271586856940540534626382824429448710376863502915420573109129577593188int, 84255828848027035795876112806106135194496583917653051077688578663108829853157int, 0int, 84255828848027035795876112806106135194496583917653051077688578663108829853157int);
}

proof fn lemma_certificate_7_1()
    requires
        pow_mod(3int, 2340nat, 115792089237316195423570985008687907853269984665640564039457584007908834671663int) == 84255828848027035795876112806106135194496583917653051077688578663108829853157int,
    ensures
        pow_mod(3int, 9586980nat, 115792089237316195423570985008687907853269984665640564039457584007908834671663int) == 41637995394693235723360683739048125891352311122904432720023947240596174370758int,
{
    let m: int = 115792089237316195423570985008687907853269984665640564039457584007908834671663int;
    lemma_pow_mod_step(3int, 4681nat, m, 2340nat, 84255828848027035795876112806106135194496583917653051077688578663108829853157int, 61308546565029272734881107926813642747915589911938447348411479323050744823473int, 37434952276598814319905538998072578936102714028630855461290539680493332521050int, 0int, 112304856829796442959716616994217736808308142085892566383871619041479997563150int);
    lemma_pow_mod_step(3int, 9362nat, m, 4681nat, 112304856829796442959716616994217736808308142085892566383871619041479997563150int, 108922647053305762246102625571783896647056570200522419130281667185386262127084int, 70364140332093473186806964356584101276906691782603869202472701242699118301808int, 0int, 70364140332093473186806964356584101276906691782603869202472701242699118301808int);
    lemma_pow_mod_step(3int, 18724nat, m, 9362nat, 70364140332093473186806964356584101276906691782603869202472701242699118301808int, 42758639880201363784321872113432026479434093104046288388733539119854627923552int, 49194656967254670579088650835400869923149562678633394389850684938488391361888int, 0int, 49194656967254670579088650835400869923149562678633394389850684938488391361888int);
    lemma_pow_mod_step(3int, 37449nat, m, 18724nat, 49194656967254670579088650835400869923149562678633394389850684938488391361888int, 20900514793940956098932141255744829174535705833798155482855767746039235639304int, 54879571005781017886541231132506458576019555695299370954098506164476641081992int, 1int, 48846623780026858236052708388831467874788682420257548822837934485521088574313int);
    lemma_pow_mod_step(3int, 74898nat, m, 37449nat, 48846623780026858236052708388831467874788682420257548822837934485521088574313int, 20605834737271101943136085626792038699150249608816136503820011741416160902971int, 1792708736463785113845404042308784434930457283741879490259232198928537211196int, 0int, 1792708736463785113845404042308784434930457283741879490259232198928537211196int);
    lemma_pow_mod_step(3int, 149796nat, m, 74898nat, 1792708736463785113845404042308784434930457283741879490259232198928537211196int, 27754958347861569605119813153422083453528342172582796937502827350053078297int, 68965153211664153687264712797884274830501622422192604469794268332968681552505int, 0int, 68965153211664153687264712797884274830501622422192604469794268332968681552505int);
    lemma_pow_mod_step(3int, 299593nat, m, 149796nat, 68965153211664153687264712797884274830501622422192604469794268332968681552505int, 41075278879893786374115872235875448957942336680729199581044898531483820776885int, 70287013713919910380497230727008495529764280958397355928837091331480516865270int, 1int, 95068951904443535717920707172337578736022858209551503747053689986532715924147int);
    lemma_pow_mod_step(3int, 599186nat, m, 299593nat, 95068951904443535717920707172337578736022858209551503747053689986532715924147int, 78054603520330103329819067365474492477984170968918976446056390883764381756115int, 79415101365900450443214392593544590856238797144354738566058496145828890208364int, 0int, 79415101365900450443214392593544590856238797144354738566058496145828890208364int);
    lemma_pow_mod_step(3int, 1198372nat, m, 599186nat, 79415101365900450443214392593544590856238797144354738566058496145828890208364int, 54466227930567222067430012360055024655179694893294585985919199312606610860307int, 26313942971855760496265964430490534280415674204715960727461703022393031175955int, 0int, 26313942971855760496265964430490534280415674204715960727461703022393031175955int);
    lemma_pow_mod_step(3int, 2396745nat, m, 1198372nat, 26313942971855760496265964430490534280415674204715960727461703022393031175955int, 5979886875578807203808019186834992263120821944592943110689030938478673750777int, 66440608868627397450020702498622652377325025635733460184574742838458684029874int, 1int, 83529737368565996926491122487180049278705092241559816514266644507467217417959int);
    lemma_pow_mod_step(3int, 4793490nat, m, 2396745nat, 83529737368565996926491122487180049278705092241559816514266644507467217417959int, 60256422272179456346075271227298223341285068466848038671272715978857495037751int, 50188050130801140951713071531737042225679545084768200596349117312193020775768int, 0int, 50188050130801140951713071531737042225679545084768200596349117312193020775768int);
    lemma_pow_mod_step(3int, 9586980nat, m, 4793490nat, 50188050130801140951713071531737042225679545084768200596349117312193020775768int, 21753130049924553648824274017249368053887832208508917507689987107003953442982int, 41637995394693235723360683739048125891352311122904432720023947240596174370758int, 0int, 41637995394693235723360683739048125891352311122904432720023947240596174370758int);
}

proof fn lemma_certificate_7_2()
    requires
        pow_mod(3int, 9586980nat, 115792089237316195423570985008687907853269984665640564039457584007908834671663int) == 41637995394693235723360683739048125891352311122904432720023947240596174370758int,
    ensures
        pow_mod(3int, 39268272420nat, 115792089237316195423570985008687907853269984665640564039457584007908834671663int) == 81334277360230037751905800900596932308667533575405212702805690244920906745787int,
{
    let m: int = 115792089237316195423570985008687907853269984665640564039457584007908834671663int;
    lemma_pow_mod_step(3int, 19173961nat, m, 9586980nat, 41637995394693235723360683739048125891352311122904432720023947240596174370758int, 14972721123765423169097785752130783462398988487545372393854941442378599862191int, 101545324911729246373580604630440263600001464518974155277953477359682712700931int, 2int, 73051796260555348273599843873944975093464424225641337754945264063230468759467int);
    lemma_pow_mod_step(3int, 38347922nat, m, 19173961nat, 73051796260555348273599843873944975093464424225641337754945264063230468759467int, 46087474300220840716182355171317988813707936603464448765448897446342498015486int, 111615104554655140532714230755029195672925364903740821504132841382810002750871int, 0int, 111615104554655140532714230755029195672925364903740821504132841382810002750871int);
    lemma_pow_mod_step(3int, 76695844nat, m, 38347922nat, 111615104554655140532714230755029195672925364903740821504132841382810002750871int, 107588796840983106890210175023894345363873972576578314219963062243853345518394int, 34432855860705675912364272712725081486337863727648723914409104970883774189419int, 0int, 34432855860705675912364272712725081486337863727648723914409104970883774189419int);
    lemma_pow_mod_step(3int, 153391689nat, m, 76695844nat, 34432855860705675912364272712725081486337863727648723914409104970883774189419int, 10239227658240094982825506188627287340562116538666294737807355988544617839789int, 49404322634303107881839286570997976037074208806633729630686244569762339358454int, 1int, 32420878665593128221946874704306020257952641754260624852601149701378183403699int);
    lemma_pow_mod_step(3int, 306783378nat, m, 153391689nat, 32420878665593128221946874704306020257952641754260624852601149701378183403699int, 9077592263620462006256366674068771276836478884579588062976681145339755583038int, 21545408088002160108190287814875941986923877928153254633206153674348944830407int, 0int, 21545408088002160108190287814875941986923877928153254633206153674348944830407int);
    lemma_pow_mod_step(3int, 613566756nat, m, 306783378nat, 21545408088002160108190287814875941986923877928153254633206153674348944830407int, 4008949253235774269042404075415281377688367077364957094113135673811308411190int, 27786866208903596914201511857049819812521484777957933608385839273476146676679int, 0int, 27786866208903596914201511857049819812521484777957933608385839273476146676679int);
    lemma_pow_mod_step(3int, 1227133513nat, m, 613566756nat, 27786866208903596914201511857049819812521484777957933608385839273476146676679int, 6668071530595386235180970311525275599574338609235977044184266457273987868264int, 105866576197607068178064658644280572491375833773722086740360250314098424666009int, 2int, 86015550118188813687052005915465901767587531989885132142165582926477604654701int);
    lemma_pow_mod_step(3int, 2454267026nat, m, 1227133513nat, 86015550118188813687052005915465901767587531989885132142165582926477604654701int, 63896203193735003747091835979750008141856210931528079604769562113850023307266int, 59535879492458785974139328515725249069614620215218165831990024298068969196043int, 0int, 59535879492458785974139328515725249069614620215218165831990024298068969196043int);
    lemma_pow_mod_step(3int, 4908534052nat, m, 2454267026nat, 59535879492458785974139328515725249069614620215218165831990024298068969196043int, 30611080344841775034899533458257551862626988664291810921008969105987737475712int, 103195901886352211105796897133412291054126813527517383376109481603861809708793int, 0int, 103195901886352211105796897133412291054126813527517383376109481603861809708793int);
    lemma_pow_mod_step(3int, 9817068105nat, m, 4908534052nat, 103195901886352211105796897133412291054126813527517383376109481603861809708793int, 91969963028404039962373810009218687169031343048842173976740461457372189824781int, 82867046679842062586295190410050473208105261663066428453079156868725825636046int, 2int, 17016961564893796911743601212775603917775815657918157280322302590359807564812int);
    lemma_pow_mod_step(3int, 19634136210nat, m, 9817068105nat, 17016961564893796911743601212775603917775815657918157280322302590359807564812int, 2500835616737028965245915564040597617859510836734423356570989210044446521843int, 41570903445249104105471026016917409791542308552071539229469148639196317960435int, 0int, 41570903445249104105471026016917409791542308552071539229469148639196317960435int);
    lemma_pow_mod_step(3int, 39268272420nat, m, 19634136210nat, 41570903445249104105471026016917409791542308552071539229469148639196317960435int, 14924508441266624627605390313751839230042641153479018587557121264039075405426int, 81334277360230037751905800900596932308667533575405212702805690244920906745787int, 0int, 81334277360230037751905800900596932308667533575405212702805690244920906745787int);
}

proof fn lemma_certificate_7_3()
    requires
        pow_mod(3int, 39268272420nat, 115792089237316195423570985008687907853269984665640564039457584007908834671663int) == 81334277360230037751905800900596932308667533575405212702805690244920906745787int,
    ensures
        pow_mod(3int, 160842843834660nat, 115792089237316195423570985008687907853269984665640564039457584007908834671663int) == 93562160687967908498127597592213701910629574237901233218604464229405411683519int,
{
    let m: int = 115792089237316195423570985008687907853269984665640564039457584007908834671663int;
    lemma_pow_mod_step(3int, 78536544841nat, m, 39268272420nat, 81334277360230037751905800900596932308667533575405212702805690244920906745787int, 57130540758728568260659769207378949189891919666323978450634175192834899297238int, 29611732169354600281092458149012826127019306801041671564243752853035069482575int, 0int, 88835196508063800843277374447038478381057920403125014692731258559105208447725int);
    lemma_pow_mod_step(3int, 157073089682nat, m, 78536544841nat, 88835196508063800843277374447038478381057920403125014692731258559105208447725int, 68153983494090575127161037872425155581574106195468621846771392383361960225986int, 82533512928879725751027186059670711015873885708325685777683922052652467240907int, 0int, 82533512928879725751027186059670711015873885708325685777683922052652467240907int);
    lemma_pow_mod_step(3int, 314146179364nat, m, 157073089682nat, 82533512928879725751027186059670711015873885708325685777683922052652467240907int, 58827686772459852901229402161444341239494586254864775658188212735792810508445int, 110964771890679373862396233342118525279925769097730729639476717231205510488614int, 0int, 110964771890679373862396233342118525279925769097730729639476717231205510488614int);
    lemma_pow_mod_step(3int, 628292358729nat, m, 314146179364nat, 110964771890679373862396233342118525279925769097730729639476717231205510488614int, 106338703117400454303402461125933280291320041460814410930494376597611065427229int, 44982519288076434077000789196796745339094232414909970861944332264085988729169int, 1int, 19155468626913106807431382581702328164012712579089348546375412784349131515844int);
    lemma_pow_mod_step(3int, 1256584717458nat, m, 628292358729nat, 19155468626913106807431382581702328164012712579089348546375412784349131515844int, 3168886412996869226695164108312794366462474901454821620119306559173632563528int, 106572433797138081022180840738240742205712799738805392109530186570554354125272int, 0int, 106572433797138081022180840738240742205712799738805392109530186570554354125272int);
    lemma_pow_mod_step(3int, 2513169434916nat, m, 1256584717458nat, 106572433797138081022180840738240742205712799738805392109530186570554354125272int, 98086870357505824116798466077924800274088394833181109191403592369194715951685int, 67400153936308602636632236708995100980174374971270445000319840826898722471829int, 0int, 67400153936308602636632236708995100980174374971270445000319840826898722471829int);
    lemma_pow_mod_step(3int, 5026338869833nat, m, 2513169434916nat, 67400153936308602636632236708995100980174374971270445000319840826898722471829int, 39232220271349062281000686734666448414702000401670039815047812900049054023914int, 36427839076501465718927647708522344040758038195439013146420469062798558456259int, 0int, 109283517229504397156782943125567032122274114586317039439261407188395675368777int);
    lemma_pow_mod_step(3int, 10052677739666nat, m, 5026338869833nat, 109283517229504397156782943125567032122274114586317039439261407188395675368777int, 103140786358681251683357788244023826131402835845678459483486135732441854679437int, 23346158647780953706253164923340798103142959416679043610348156724928933781998int, 0int, 23346158647780953706253164923340798103142959416679043610348156724928933781998int);
    lemma_pow_mod_step(3int, 20105355479332nat, m, 10052677739666nat, 23346158647780953706253164923340798103142959416679043610348156724928933781998int, 4707084285268314614618902259802785850319395783878594173089342470653301079027int, 11099005948860169581905561610924731323382099516902846877273259987520628360103int, 0int, 11099005948860169581905561610924731323382099516902846877273259987520628360103int);
    lemma_pow_mod_step(3int, 40210710958665nat, m, 20105355479332nat, 11099005948860169581905561610924731323382099516902846877273259987520628360103int, 1063871753797959688649568244206056062756074508541132098610761902423809156436int, 29779581599870090407321506035573390175647035511945320723321529050253978897541int, 0int, 89338744799610271221964518106720170526941106535835962169964587150761936692623int);
    lemma_pow_mod_step(3int, 80421421917330nat, m, 40210710958665nat, 89338744799610271221964518106720170526941106535835962169964587150761936692623int, 68928813487525624556228446271738601963938120606104650836274372319731115954742int, 114417363813270770948907887513975592318288559384646483315119276098749644744183int, 0int, 114417363813270770948907887513975592318288559384646483315119276098749644744183int);
    lemma_pow_mod_step(3int, 160842843834660nat, m, 80421421917330nat, 114417363813270770948907887513975592318288559384646483315119276098749644744183int, 113058959625019301090204366980691309923241826073841113432090639828930804626190int, 93562160687967908498127597592213701910629574237901233218604464229405411683519int, 0int, 93562160687967908498127597592213701910629574237901233218604464229405411683519int);
}

proof fn lemma_certificate_7_4()
    requires
        pow_mod(3int, 160842843834660nat, 115792089237316195423570985008687907853269984665640564039457584007908834671663int) == 93562160687967908498127597592213701910629574237901233218604464229405411683519int,
    ensures
        pow_mod(3int, 658812288346769700nat, 115792089237316195423570985008687907853269984665640564039457584007908834671663int) == 56503363125026835737315402201542842103707286689912480172042768916353404138484int,
{
    let m: int = 115792089237316195423570985008687907853269984665640564039457584007908834671663int;
    lemma_pow_mod_step(3int, 321685687669321nat, m, 160842843834660nat, 93562160687967908498127597592213701910629574237901233218604464229405411683519int, 75599965163941652576740844474507688264549453898957521978121932262712458470361int, 379042105105490093175321412637153364012329157630069730886348618647164143018int, 0int, 1137126315316470279525964237911460092036987472890209192659045855941492429054int);
    lemma_pow_mod_step(3int, 643371375338642nat, m, 321685687669321nat, 1137126315316470279525964237911460092036987472890209192659045855941492429054int, 11167051786543814288973950771921955987008184005357576398466971190216447482int, 95021615304149650533773370179182477152242077367527451533919470566795470232350int, 0int, 95021615304149650533773370179182477152242077367527451533919470566795470232350int);
    lemma_pow_mod_step(3int, 1286742750677284nat, m, 643371375338642nat, 95021615304149650533773370179182477152242077367527451533919470566795470232350int, 77976893192631039413160388761167853935994984629821130748033637315369953906333int, 59203379431075901087645958546724776678448978831185964036751252586366675180721int, 0int, 59203379431075901087645958546724776678448978831185964036751252586366675180721int);
    lemma_pow_mod_step(3int, 2573485501354569nat, m, 1286742750677284nat, 59203379431075901087645958546724776678448978831185964036751252586366675180721int, 30270117407384817000735613154759556284179285060025968782381374007880784972728int, 49771159987222725280351299437050717171908693818476211306388330936821720673177int, 1int, 33521390724351980417482913302464243662456096789788069879707408802556327347868int);
    lemma_pow_mod_step(3int, 5146971002709138nat, m, 2573485501354569nat, 33521390724351980417482913302464243662456096789788069879707408802556327347868int, 9704321283914986490249074119517552259468216163986447667579102937917023321817int, 91395234316562177536796461719546759636161287946803972969408441716975904573753int, 0int, 91395234316562177536796461719546759636161287946803972969408441716975904573753int);
    lemma_pow_mod_step(3int, 10293942005418276nat, m, 5146971002709138nat, 91395234316562177536796461719546759636161287946803972969408441716975904573753int, 72138683314191065473152128688102631391669000913835989254943309017828544545703int, 55564460101779745056000316384828613148370507335630822263511830023869113990920int, 0int, 55564460101779745056000316384828613148370507335630822263511830023869113990920int);
    lemma_pow_mod_step(3int, 20587884010836553nat, m, 10293942005418276nat, 55564460101779745056000316384828613148370507335630822263511830023869113990920int, 26663386477763776420827702487459635389823124548019395902792540161113155688404int, 20463694066883033118121195864653168538745739487548735398008186044439765950548int, 0int, 61391082200649099354363587593959505616237218462646206194024558133319297851644int);
    lemma_pow_mod_step(3int, 41175768021673106nat, m, 20587884010836553nat, 61391082200649099354363587593959505616237218462646206194024558133319297851644int, 32548553174842159187960513661348171738297494870656405465323590443792113188846int, 100844898657505510155641483697551720054550379449789183212736326832687509631838int, 0int, 100844898657505510155641483697551720054550379449789183212736326832687509631838int);
    lemma_pow_mod_step(3int, 82351536043346212nat, m, 41175768021673106nat, 100844898657505510155641483697551720054550379449789183212736326832687509631838int, 87827187955817452641823229327764717281930130663401681783242809409154331145456int, 26202627384285205812372675102440821854178303478900201645071353035143848844916int, 0int, 26202627384285205812372675102440821854178303478900201645071353035143848844916int);
    lemma_pow_mod_step(3int, 164703072086692425nat, m, 82351536043346212nat, 26202627384285205812372675102440821854178303478900201645071353035143848844916int, 5929400586533594521956874351647089613032865361222512449169741796034783651378int, 81804080672836661165148840880634964820029588171760629521297503530302531545442int, 2int, 13828063543877592648304552624529078753548795184000760484977342575089925293000int);
    lemma_pow_mod_step(3int, 329406144173384850nat, m, 164703072086692425nat, 13828063543877592648304552624529078753548795184000760484977342575089925293000int, 1651367918421613198606866767901208162354727627719154494438681823983437516894int, 113968534791237947030354882749004113346305553795138313377585399646701343425278int, 0int, 113968534791237947030354882749004113346305553795138313377585399646701343425278int);
    lemma_pow_mod_step(3int, 658812288346769700nat, m, 329406144173384850nat, 113968534791237947030354882749004113346305553795138313377585399646701343425278int, 112173698635327142044823406206681515298851141752579179841069983924736456207600int, 56503363125026835737315402201542842103707286689912480172042768916353404138484int, 0int, 56503363125026835737315402201542842103707286689912480172042768916353404138484int);
}

proof fn lemma_certificate_7_5()
    requires
        pow_mod(3int, 658812288346769700nat, 115792089237316195423570985008687907853269984665640564039457584007908834671663int) == 56503363125026835737315402201542842103707286689912480172042768916353404138484int,
    ensures
        pow_mod(3int, 2698495133068368693540nat, 115792089237316195423570985008687907853269984665640564039457584007908834671663int) == 75648821608159351163351945120453338023374250154355004564062564524084493458780int,
{
    let m: int = 115792089237316195423570985008687907853269984665640564039457584007908834671663int;
    lemma_pow_mod_step(3int, 1317624576693539401nat, m, 658812288346769700nat, 56503363125026835737315402201542842103707286689912480172042768916353404138484int, 27572091197830782735982834254467094392735549205692782785292058393191599345552int, 49609005438976801822095770166234716417058125606002891304671279057020650325280int, 1int, 33034927079614210042716325490016241397904392152368109874556253163153116304177int);
    lemma_pow_mod_step(3int, 2635249153387078802nat, m, 1317624576693539401nat, 33034927079614210042716325490016241397904392152368109874556253163153116304177int, 9424706077448804390259046344950865003240603258792078440474933986123833386674int, 112032778457143065916487399065970115036029263795379698808974089552041478028467int, 0int, 112032778457143065916487399065970115036029263795379698808974089552041478028467int);
    lemma_pow_mod_step(3int, 5270498306774157604nat, m, 2635249153387078802nat, 112032778457143065916487399065970115036029263795379698808974089552041478028467int, 108395517616952982023480343281321268352961573629565806488312306526099225453951int, 19647309176592982406098578635321650905386458209282387454352713156340051279576int, 0int, 19647309176592982406098578635321650905386458209282387454352713156340051279576int);
    lemma_pow_mod_step(3int, 10540996613548315209nat, m, 5270498306774157604nat, 19647309176592982406098578635321650905386458209282387454352713156340051279576int, 3333705786148244052175273605582643004889632530385041989886485250667263376332int, 7577739329587789487562123838735855149108601369498421320193391837836889459660int, 0int, 22733217988763368462686371516207565447325804108495263960580175513510668378980int);
    lemma_pow_mod_step(3int, 21081993227096630418nat, m, 10540996613548315209nat, 22733217988763368462686371516207565447325804108495263960580175513510668378980int, 4463165001414328692145150670134664956856821085948203108365543196892087585860int, 24246823522431878124480991989047042329358113576252135753142902612349484355220int, 0int, 24246823522431878124480991989047042329358113576252135753142902612349484355220int);
    lemma_pow_mod_step(3int, 42163986454193260836nat, m, 21081993227096630418nat, 24246823522431878124480991989047042329358113576252135753142902612349484355220int, 5077276477178297501319347833229578341438466447027070990962307677152278580758int, 90673479312907664888281977895171724084927322950980277971292935722034581587846int, 0int, 90673479312907664888281977895171724084927322950980277971292935722034581587846int);
    lemma_pow_mod_step(3int, 84327972908386521673nat, m, 42163986454193260836nat, 90673479312907664888281977895171724084927322950980277971292935722034581587846int, 71003812996740558841903106579361242007319590968152567847938580610720510528358int, 28799320631132930499944354222370135407418080404578626392170781435973034400362int, 0int, 86397961893398791499833062667110406222254241213735879176512344307919103201086int);
    lemma_pow_mod_step(3int, 168655945816773043346nat, m, 84327972908386521673nat, 86397961893398791499833062667110406222254241213735879176512344307919103201086int, 64465611325437405949670216106563762486098469345770530647725185290415286724336int, 9782085877380510707211196693728446697438963145329967610541623670620799888628int, 0int, 9782085877380510707211196693728446697438963145329967610541623670620799888628int);
    lemma_pow_mod_step(3int, 337311891633546086692nat, m, 168655945816773043346nat, 9782085877380510707211196693728446697438963145329967610541623670620799888628int, 826388095617930834323950298806739878539578507862081181682979263755142660971int, 8661395896537592954142517157451606035551372076962430110674503732234293957611int, 0int, 8661395896537592954142517157451606035551372076962430110674503732234293957611int);
    lemma_pow_mod_step(3int, 674623783267092173385nat, m, 337311891633546086692nat, 8661395896537592954142517157451606035551372076962430110674503732234293957611int, 647883455343870831535490815226083449555717564393548927838657167933598244803int, 11510842902182228936022707721061805883232967022552354502355388454337463709932int, 0int, 34532528706546686808068123163185417649698901067657063507066165363012391129796int);
    lemma_pow_mod_step(3int, 1349247566534184346770nat, m, 674623783267092173385nat, 34532528706546686808068123163185417649698901067657063507066165363012391129796int, 10298592474866294241127472669584897862446659904253065033247989223927129810860int, 84879064360256968560588117772119461047744554572958942160772330882693927341436int, 0int, 84879064360256968560588117772119461047744554572958942160772330882693927341436int);
    lemma_pow_mod_step(3int, 2698495133068368693540nat, m, 1349247566534184346770nat, 84879064360256968560588117772119461047744554572958942160772330882693927341436int, 62218892621473422343987690993058119991378301622570287434090271417279834702732int, 75648821608159351163351945120453338023374250154355004564062564524084493458780int, 0int, 75648821608159351163351945120453338023374250154355004564062564524084493458780int);
}

proof fn lemma_certificate_7_6()
    requires
        pow_mod(3int, 2698495133068368693540nat, 115792089237316195423570985008687907853269984665640564039457584007908834671663int) == 75648821608159351163351945120453338023374250154355004564062564524084493458780int,
    ensures
        pow_mod(3int, 11053036065048038168742180nat, 115792089237316195423570985008687907853269984665640564039457584007908834671663int) == 27107094341063503845109120198885195973720202113764718763970847640295678412577int,
{
    let m: int = 115792089237316195423570985008687907853269984665640564039457584007908834671663int;
    lemma_pow_mod_step(3int, 5396990266136737387081nat, m, 2698495133068368693540nat, 75648821608159351163351945120453338023374250154355004564062564524084493458780int, 49422583601323037300532249008610709358921164017095220335903417689120280837569int, 47754814559224137357342297930022248923699969221747728124191984707234808981153int, 1int, 27472354440356216648455908781378838917829922999602620333118370113795592271796int);
    lemma_pow_mod_step(3int, 10793980532273474774162nat, m, 5396990266136737387081nat, 27472354440356216648455908781378838917829922999602620333118370113795592271796int, 6517977726006292691173003421802612696423029602882713246850802496728344593079int, 113981765815349099527677583188723135780627632291559768676766551328046029845239int, 0int, 113981765815349099527677583188723135780627632291559768676766551328046029845239int);
    lemma_pow_mod_step(3int, 21587961064546949548324nat, m, 10793980532273474774162nat, 113981765815349099527677583188723135780627632291559768676766551328046029845239int, 112199745457207079630866600049612563257561527494036410311142711775644724067280int, 44398675899125913111063347461159181129793053061455411132462092652073569480481int, 0int, 44398675899125913111063347461159181129793053061455411132462092652073569480481int);
    lemma_pow_mod_step(3int, 43175922129093899096649nat, m, 21587961064546949548324nat, 44398675899125913111063347461159181129793053061455411132462092652073569480481int, 17023981815852355971589320035584816561015797776143457800941550211601560459162int, 41204811310845533467089514170109108511729131881338169183627324267304449864955int, 1int, 7822344695220404977697557501639417681917410978373943511424388794004514923202int);
    lemma_pow_mod_step(3int, 86351844258187798193298nat, m, 43175922129093899096649nat, 7822344695220404977697557501639417681917410978373943511424388794004514923202int, 528439178650932146590263080741778278769740741989530304288275641888283317615int, 83906771143731132305246822337597231293499446556763638362915259711171088689059int, 0int, 83906771143731132305246822337597231293499446556763638362915259711171088689059int);
    lemma_pow_mod_step(3int, 172703688516375596386596nat, m, 86351844258187798193298nat, 83906771143731132305246822337597231293499446556763638362915259711171088689059int, 60801616847393288177464880847599346832789169760917795209907950407390221171319int, 75527445980630762040604131356819711328189723600593165369129501236272548671984int, 0int, 75527445980630762040604131356819711328189723600593165369129501236272548671984int);
    lemma_pow_mod_step(3int, 345407377032751192773193nat, m, 172703688516375596386596nat, 75527445980630762040604131356819711328189723600593165369129501236272548671984int, 49264117556994112980990736998771095394704635189521027930579978742599442587346int, 99317947100219169791986670722595315438715793646471196780341752628820917919858int, 2int, 66369662826025118528818042150410130609607411608132462262110089870645084416248int);
    lemma_pow_mod_step(3int, 690814754065502385546386nat, m, 345407377032751192773193nat, 66369662826025118528818042150410130609607411608132462262110089870645084416248int, 38041736466230783325626559837325383015366715187182328746254919603688996065435int, 68098364539213633512158227819038404880479493358639693104537998865305838129099int, 0int, 68098364539213633512158227819038404880479493358639693104537998865305838129099int);
    lemma_pow_mod_step(3int, 1381629508131004771092772nat, m, 690814754065502385546386nat, 68098364539213633512158227819038404880479493358639693104537998865305838129099int, 40049257971425762400595062300918945173980655105121573837437800505311279437199int, 81393033249782644805674718616439495636655493586760750982812495170579997159864int, 0int, 81393033249782644805674718616439495636655493586760750982812495170579997159864int);
    lemma_pow_mod_step(3int, 2763259016262009542185545nat, m, 1381629508131004771092772nat, 81393033249782644805674718616439495636655493586760750982812495170579997159864int, 57213112788928308478607486993313655740556334780550941288282761231994078605355int, 102162430681939788198428222752883234369196550524470204500156061667281993943131int, 2int, 74903113571186973748142698241273887401049682242129485421553016986028312486067int);
    lemma_pow_mod_step(3int, 5526518032524019084371090nat, m, 2763259016262009542185545nat, 74903113571186973748142698241273887401049682242129485421553016986028312486067int, 48453020060458947470019392357619045534531262764325621592417694794683341196499int, 5514212173640072826659841335404361655704649522666506456114879122323839020652int, 0int, 5514212173640072826659841335404361655704649522666506456114879122323839020652int);
    lemma_pow_mod_step(3int, 11053036065048038168742180nat, m, 5526518032524019084371090nat, 5514212173640072826659841335404361655704649522666506456114879122323839020652int, 262595969173698043709106743320743681447391613900695487036127482066458696129int, 27107094341063503845109120198885195973720202113764718763970847640295678412577int, 0int, 27107094341063503845109120198885195973720202113764718763970847640295678412577int);
}

proof fn lemma_certificate_7_7()
    requires
        pow_mod(3int, 11053036065048038168742180nat, 115792089237316195423570985008687907853269984665640564039457584007908834671663int) == 27107094341063503845109120198885195973720202113764718763970847640295678412577int,
    ensures
        pow_mod(3int, 45273235722436764339167971620nat, 115792089237316195423570985008687907853269984665640564039457584007908834671663int) == 25017349959659944358660601731432925645602389041628266250534101432659352961113int,
{
    let m: int = 115792089237316195423570985008687907853269984665640564039457584007908834671663int;
    lemma_pow_mod_step(3int, 22106072130096076337484361nat, m, 11053036065048038168742180nat, 27107094341063503845109120198885195973720202113764718763970847640295678412577int, 6345809704748945480280508102059575792736670272226080091746694301158036409612int, 38132942204789273165830064327290635940352675446833127899329723936533234556173int, 0int, 114398826614367819497490192981871907821058026340499383697989171809599703668519int);
    lemma_pow_mod_step(3int, 44212144260192152674968722nat, m, 22106072130096076337484361nat, 114398826614367819497490192981871907821058026340499383697989171809599703668519int, 113022328355455803026431590391135100331680940013089994994562152026522403289591int, 9504865691026879376759334936969633813195511030917778110186019231039041093528int, 0int, 9504865691026879376759334936969633813195511030917778110186019231039041093528int);
    lemma_pow_mod_step(3int, 88424288520384305349937444nat, m, 44212144260192152674968722nat, 9504865691026879376759334936969633813195511030917778110186019231039041093528int, 780212814187182861251354474575597230147828875328583582184301577659364947643int, 89065656284454270732553852701966820959340102869938688972628497170644952746475int, 0int, 89065656284454270732553852701966820959340102869938688972628497170644952746475int);
    lemma_pow_mod_step(3int, 176848577040768610699874889nat, m, 88424288520384305349937444nat, 89065656284454270732553852701966820959340102869938688972628497170644952746475int, 68508057688832929889838161931736088507110902469357368076642659898345123297718int, 109867600585151704778707906099313050861979460235514221130170511320855297760591int, 2int, 98018623280822723488981748280563336879398411375261535311596365946748223938447int);
    lemma_pow_mod_step(3int, 353697154081537221399749778nat, m, 176848577040768610699874889nat, 98018623280822723488981748280563336879398411375261535311596365946748223938447int, 82973289221657768744438872584011191348792012238964696992023049304593063097597int, 85464510452077058238227444548403547492860062438272898584256604478128825477998int, 0int, 85464510452077058238227444548403547492860062438272898584256604478128825477998int);
    lemma_pow_mod_step(3int, 707394308163074442799499556nat, m, 353697154081537221399749778nat, 85464510452077058238227444548403547492860062438272898584256604478128825477998int, 63080151631457716784065452066217262758767258184020698181893701360243517815952int, 108258890243568612544027652384698782611177467847687327318251878220586398319828int, 0int, 108258890243568612544027652384698782611177467847687327318251878220586398319828int);
    lemma_pow_mod_step(3int, 1414788616326148885598999113nat, m, 707394308163074442799499556nat, 108258890243568612544027652384698782611177467847687327318251878220586398319828int, 101215785931186456883448373067668564818376260348691482445247368388847096169839int, 4631739321896006163829749922401846676688599238532633047459558317488929377327int, 0int, 13895217965688018491489249767205540030065797715597899142378674952466788131981int);
    lemma_pow_mod_step(3int, 2829577232652297771197998226nat, m, 1414788616326148885598999113nat, 13895217965688018491489249767205540030065797715597899142378674952466788131981int, 1667446226989367817427973846136897559129324834882442158587552155832941842353int, 2543693596456614951560010040179403521756244944397737791873281937048412641322int, 0int, 2543693596456614951560010040179403521756244944397737791873281937048412641322int);
    lemma_pow_mod_step(3int, 5659154465304595542395996452nat, m, 2829577232652297771197998226nat, 2543693596456614951560010040179403521756244944397737791873281937048412641322int, 55879267359908612923811650274148977678626920652683359895765184635867475561int, 44773425772299539206238181066339420801144844496168499034406442976110510179741int, 0int, 44773425772299539206238181066339420801144844496168499034406442976110510179741int);
    lemma_pow_mod_step(3int, 11318308930609191084791992905nat, m, 5659154465304595542395996452nat, 44773425772299539206238181066339420801144844496168499034406442976110510179741int, 17312578679525000050915432561228695989712323306102007376158946365491093176978int, 110616930121634063265906140623905199903493717712127902009588146162647946252667int, 2int, 100266611890269798950576451854339784003941183805102577949849270472126169414675int);
    lemma_pow_mod_step(3int, 22636617861218382169583985810nat, m, 11318308930609191084791992905nat, 100266611890269798950576451854339784003941183805102577949849270472126169414675int, 86822800470846815292108909284277532294451249378571771442006096383372851292824int, 46317797749396018813358211079511761209830268197629425523387331409606997309313int, 0int, 46317797749396018813358211079511761209830268197629425523387331409606997309313int);
    lemma_pow_mod_step(3int, 45273235722436764339167971620nat, m, 22636617861218382169583985810nat, 46317797749396018813358211079511761209830268197629425523387331409606997309313int, 18527503929539419246088995460304117884021416254213761915704789781854434724312int, 25017349959659944358660601731432925645602389041628266250534101432659352961113int, 0int, 25017349959659944358660601731432925645602389041628266250534101432659352961113int);
}

proof fn lemma_certificate_7_8()
    requires
        pow_mod(3int, 45273235722436764339167971620nat, 115792089237316195423570985008687907853269984665640564039457584007908834671663int) == 25017349959659944358660601731432925645602389041628266250534101432659352961113int,
    ensures
        pow_mod(3int, 185439173519100986733232011757860nat, 115792089237316195423570985008687907853269984665640564039457584007908834671663int) == 36766478319335371360769259852052971047641977508018231219578570118053324258721int,
{
    let m: int = 115792089237316195423570985008687907853269984665640564039457584007908834671663int;
    lemma_pow_mod_step(3int, 90546471444873528678335943241nat, m, 45273235722436764339167971620nat, 25017349959659944358660601731432925645602389041628266250534101432659352961113int, 5405099805405356301380076663868448484264649203345972080900204715690229257252int, 42943497113093518312944963235951743172028625738849557018715814764663508548693int, 1int, 13038402101964359515263904699167321662815892550908107016689860286081690974416int);
    lemma_pow_mod_step(3int, 181092942889747057356671886482nat, m, 90546471444873528678335943241nat, 13038402101964359515263904699167321662815892550908107016689860286081690974416int, 1468148044415135478233289297142973523845059029391943530529126911477889238834int, 55611566998837279852207602283044397322418803831199105682247840955056187580114int, 0int, 55611566998837279852207602283044397322418803831199105682247840955056187580114int);
    lemma_pow_mod_step(3int, 362185885779494114713343772964nat, m, 181092942889747057356671886482nat, 55611566998837279852207602283044397322418803831199105682247840955056187580114int, 26708615454098773678753006891249172660966397413586121235094841134974998946538int, 31398781396788714328482556155635049509791856761672222198556330842433047700302int, 0int, 31398781396788714328482556155635049509791856761672222198556330842433047700302int);
    lemma_pow_mod_step(3int, 724371771558988229426687545929nat, m, 362185885779494114713343772964nat, 31398781396788714328482556155635049509791856761672222198556330842433047700302int, 8514255850265852282330634568344727545824360671855439479113761369686172634890int, 86167894444697348952505656351843485763067848067834967129500867093462082769134int, 2int, 26919504859459656010374999038154641582663574872223773309587433264568578964076int);
    lemma_pow_mod_step(3int, 1448743543117976458853375091858nat, m, 724371771558988229426687545929nat, 26919504859459656010374999038154641582663574872223773309587433264568578964076int, 6258283675953717031842749313350750821247844571037061567127566257964280046112int, 46267677567803569523297536970267391034388987517257577877771141243355278809520int, 0int, 46267677567803569523297536970267391034388987517257577877771141243355278809520int);
    lemma_pow_mod_step(3int, 2897487086235952917706750183716nat, m, 1448743543117976458853375091858nat, 46267677567803569523297536970267391034388987517257577877771141243355278809520int, 18487428645758929190115846945599995753297311552137642030952008284778703699127int, 47076301217069107197765159138608917636005159100458139103285060314097857892199int, 0int, 47076301217069107197765159138608917636005159100458139103285060314097857892199int);
    lemma_pow_mod_step(3int, 5794974172471905835413500367433nat, m, 2897487086235952917706750183716nat, 47076301217069107197765159138608917636005159100458139103285060314097857892199int, 19139287933031066640678026141863332202051746951636751123326264779754402855594int, 6970781654030615808958591528817420488682401282919723705587733837228512222779int, 0int, 20912344962091847426875774586452261466047203848759171116763201511685536668337int);
    lemma_pow_mod_step(3int, 11589948344943811670827000734866nat, m, 5794974172471905835413500367433nat, 20912344962091847426875774586452261466047203848759171116763201511685536668337int, 3776822533335823289207039794060947670807976302929428793432488464514290937257int, 83603789913693131109163987352157031772665758103212710634644758516371809497178int, 0int, 83603789913693131109163987352157031772665758103212710634644758516371809497178int);
    lemma_pow_mod_step(3int, 23179896689887623341654001469732nat, m, 11589948344943811670827000734866nat, 83603789913693131109163987352157031772665758103212710634644758516371809497178int, 60363309220613045813712297920584020279278277061642932268287305937094300033236int, 109387755076773306125276116594302467710007450414456452150338478260907142572216int, 0int, 109387755076773306125276116594302467710007450414456452150338478260907142572216int);
    lemma_pow_mod_step(3int, 46359793379775246683308002939465nat, m, 23179896689887623341654001469732nat, 109387755076773306125276116594302467710007450414456452150338478260907142572216int, 103337637653401772515501334492607040475189078353188221175814762575052200994577int, 112935397279076842473769752582890525202303125806052485277303278615790936579105int, 2int, 107222013362598136574167287731295759900369408086876327752994667831555140393989int);
    lemma_pow_mod_step(3int, 92719586759550493366616005878930nat, m, 46359793379775246683308002939465nat, 107222013362598136574167287731295759900369408086876327752994667831555140393989int, 99286231255115733330718150671307835439739610050639355439523452563010491821964int, 93927898838280704175066012869219254805796754980414863120415109169463555525989int, 0int, 93927898838280704175066012869219254805796754980414863120415109169463555525989int);
    lemma_pow_mod_step(3int, 185439173519100986733232011757860nat, m, 92719586759550493366616005878930nat, 93927898838280704175066012869219254805796754980414863120415109169463555525989int, 76192166824908552301848256534451639469157731021748581654687344974687646953800int, 36766478319335371360769259852052971047641977508018231219578570118053324258721int, 0int, 36766478319335371360769259852052971047641977508018231219578570118053324258721int);
}

proof fn lemma_certificate_7_9()
    requires
        pow_mod(3int, 185439173519100986733232011757860nat, 115792089237316195423570985008687907853269984665640564039457584007908834671663int) == 36766478319335371360769259852052971047641977508018231219578570118053324258721int,
    ensures
        pow_mod(3int, 759558854734237641659318320160196900nat, 115792089237316195423570985008687907853269984665640564039457584007908834671663int) == 1837140241562870467319110760554078609061145782233425340193979690966026527020int,
{
    let m: int = 115792089237316195423570985008687907853269984665640564039457584007908834671663int;
    lemma_pow_mod_step(3int, 370878347038201973466464023515721nat, m, 185439173519100986733232011757860nat, 36766478319335371360769259852052971047641977508018231219578570118053324258721int, 11674147490643282601085929385263069206590010092362420246017109691574550989062int, 96904438582234112714253591506217464753372355604547698880571097659329470205735int, 2int, 59129137272069947295618804501276578553577097482361968562798124962170741273879int);
    lemma_pow_mod_step(3int, 741756694076403946932928047031442nat, m, 370878347038201973466464023515721nat, 59129137272069947295618804501276578553577097482361968562798124962170741273879int, 30194246408091901401163164611318643126565366756977393867144167376921540899844int, 851522640087022468434820831781035032728093618502452507161735472076379786069int, 0int, 851522640087022468434820831781035032728093618502452507161735472076379786069int);
    lemma_pow_mod_step(3int, 1483513388152807893865856094062884nat, m, 741756694076403946932928047031442nat, 851522640087022468434820831781035032728093618502452507161735472076379786069int, 6262006423380938088220483039334414521519926106007580913710361655720187629int, 26634580703722922836045557970652248432228525618940341946564259683343237015734int, 0int, 26634580703722922836045557970652248432228525618940341946564259683343237015734int);
    lemma_pow_mod_step(3int, 2967026776305615787731712188125769nat, m, 1483513388152807893865856094062884nat, 26634580703722922836045557970652248432228525618940341946564259683343237015734int, 6126505652810274928894159450596667451593670576504946088913535046002754373528int, 79771112137764798047487884756185056140504361649565798431403515259025024621692int, 2int, 7729157938662003295321684251179352714973115617416267215295377761257404521750int);
    lemma_pow_mod_step(3int, 5934053552611231575463424376251538nat, m, 2967026776305615787731712188125769nat, 7729157938662003295321684251179352714973115617416267215295377761257404521750int, 515923694220119127942162657675107178917783390694032847245746977372245497239int, 53941755356561081351148168711881401273108687959962014589230207632109485024043int, 0int, 53941755356561081351148168711881401273108687959962014589230207632109485024043int);
    lemma_pow_mod_step(3int, 11868107105222463150926848752503076nat, m, 5934053552611231575463424376251538nat, 53941755356561081351148168711881401273108687959962014589230207632109485024043int, 25128771664043660406841207758061610598994581850891273003222883987051666404183int, 66128502596659876463383447835658717901792547241747213344410881698031633299520int, 0int, 66128502596659876463383447835658717901792547241747213344410881698031633299520int);
    lemma_pow_mod_step(3int, 23736214210444926301853697505006153nat, m, 11868107105222463150926848752503076nat, 66128502596659876463383447835658717901792547241747213344410881698031633299520int, 37765782485485862574001764281827564127583359683470205202727936344787714397346int, 111185820967427494312280924503084580535835261063764942765361414388352203624002int, 2int, 101973284427650092089700803491877925900965813860013700217169075149238941528680int);
    lemma_pow_mod_step(3int, 47472428420889852603707395010012306nat, m, 23736214210444926301853697505006153nat, 101973284427650092089700803491877925900965813860013700217169075149238941528680int, 89803636893109056239503118389753374854167924424541636852275296893587945607218int, 91571227389394839543843467340580031268496063841931119184105642291261069678866int, 0int, 91571227389394839543843467340580031268496063841931119184105642291261069678866int);
    lemma_pow_mod_step(3int, 94944856841779705207414790020024612nat, m, 47472428420889852603707395010012306nat, 91571227389394839543843467340580031268496063841931119184105642291261069678866int, 72416775108138709606631567068762232458923178030867461544898636154678479245414int, 8025932884800532396949179633525626976884702169447490545643360999203678542474int, 0int, 8025932884800532396949179633525626976884702169447490545643360999203678542474int);
    lemma_pow_mod_step(3int, 189889713683559410414829580040049225nat, m, 94944856841779705207414790020024612nat, 8025932884800532396949179633525626976884702169447490545643360999203678542474int, 556303967702859691227477588805885957955195428517285536944566044946869622491int, 62274192304925542168990798555980020200645279545143236017042236643056276868143int, 1int, 71030487677460431083401410659252152748665853969789144011669125921259995932766int);
    lemma_pow_mod_step(3int, 379779427367118820829659160080098450nat, m, 189889713683559410414829580040049225nat, 71030487677460431083401410659252152748665853969789144011669125921259995932766int, 43572321847975646232512440587429599117263814697770885811692616488049116173599int, 32779496634380768675003698093515461492116288001426255773768847783672318385619int, 0int, 32779496634380768675003698093515461492116288001426255773768847783672318385619int);
    lemma_pow_mod_step(3int, 759558854734237641659318320160196900nat, m, 379779427367118820829659160080098450nat, 32779496634380768675003698093515461492116288001426255773768847783672318385619int, 9279523382648351360542472642195980801914505974832618243206558685391083831507int, 1837140241562870467319110760554078609061145782233425340193979690966026527020int, 0int, 1837140241562870467319110760554078609061145782233425340193979690966026527020int);
}

proof fn lemma_certificate_7_10()
    requires
        pow_mod(3int, 759558854734237641659318320160196900nat, 115792089237316195423570985008687907853269984665640564039457584007908834671663int) == 1837140241562870467319110760554078609061145782233425340193979690966026527020int,
    ensures
        pow_mod(3int, 3111153068991437380236567839376166504740nat, 115792089237316195423570985008687907853269984665640564039457584007908834671663int) == 94966469089403170885369064730307852364521448441341908137277393510880393027255int,
{
    let m: int = 115792089237316195423570985008687907853269984665640564039457584007908834671663int;
    lemma_pow_mod_step(3int, 1519117709468475283318636640320393801nat, m, 759558854734237641659318320160196900nat, 1837140241562870467319110760554078609061145782233425340193979690966026527020int, 29147796618924785567159036826601225401540336271133152190198358621679488162int, 60487554437357403949224904677277831482251300015432888853787070514989624726994int, 1int, 65670574074756016424103729023145586593483915380658102521903627537060039509319int);
    lemma_pow_mod_step(3int, 3038235418936950566637273280640787602nat, m, 1519117709468475283318636640320393801nat, 65670574074756016424103729023145586593483915380658102521903627537060039509319int, 37244550363620109056683475518265411804605975489919341885538902006378948499295int, 79839315132618446451574544633995576096030327245662863218851411308308375866176int, 0int, 79839315132618446451574544633995576096030327245662863218851411308308375866176int);
    lemma_pow_mod_step(3int, 6076470837873901133274546561281575204nat, m, 3038235418936950566637273280640787602nat, 79839315132618446451574544633995576096030327245662863218851411308308375866176int, 55049669479418224672696166233603007862041294665831695413706081831437833690400int, 108478969993531933869666429578667103927447579202989823670335185245114665727776int, 0int, 108478969993531933869666429578667103927447579202989823670335185245114665727776int);
    lemma_pow_mod_step(3int, 12152941675747802266549093122563150409nat, m, 6076470837873901133274546561281575204nat, 108478969993531933869666429578667103927447579202989823670335185245114665727776int, 101627727838468273738920720148119121125795321982513404452349456476160199588495int, 76563169585643951068766995849567884055821670819181222592694779902998700588991int, 1int, 113897419519615657782730002540015744314195027791903103738626755701087267095310int);
    lemma_pow_mod_step(3int, 24305883351495604533098186245126300818nat, m, 12152941675747802266549093122563150409nat, 113897419519615657782730002540015744314195027791903103738626755701087267095310int, 112033751689546788873361980472318494157962887472577511825201686479909179132185int, 3605729105912676216241525646437851092513145501937978235001242589638873222445int, 0int, 3605729105912676216241525646437851092513145501937978235001242589638873222445int);
    lemma_pow_mod_step(3int, 48611766702991209066196372490252601636nat, m, 24305883351495604533098186245126300818nat, 3605729105912676216241525646437851092513145501937978235001242589638873222445int, 112281266111190588570091169679291415060841108276097625680385228860173544076int, 42234059610024454155636883833570810634077950988573481807190287367747933059637int, 0int, 42234059610024454155636883833570810634077950988573481807190287367747933059637int);
    lemma_pow_mod_step(3int, 97223533405982418132392744980505203273nat, m, 48611766702991209066196372490252601636nat, 42234059610024454155636883833570810634077950988573481807190287367747933059637int, 15404470226695441015134680087445215962430549042711371856761553420534586462804int, 72143153264929339901024083869204102461096361250357432371365047770006296248717int, 1int, 100637370557471824279501266598924399530019099085431733074637559302110054074488int);
    lemma_pow_mod_step(3int, 194447066811964836264785489961010406546nat, m, 97223533405982418132392744980505203273nat, 100637370557471824279501266598924399530019099085431733074637559302110054074488int, 87466081831935677669615587332405719623784174978461451917603461149154392002501int, 33584313883963292427409015126844148518494051424284275045492346869020842632981int, 0int, 33584313883963292427409015126844148518494051424284275045492346869020842632981int);
    lemma_pow_mod_step(3int, 388894133623929672529570979922020813092nat, m, 194447066811964836264785489961010406546nat, 33584313883963292427409015126844148518494051424284275045492346869020842632981int, 9740787531218328143628865064542130535242141465232776061974310532951028598033int, 25991726645158100403289566755954016510342821393819500768374311745135906307482int, 0int, 25991726645158100403289566755954016510342821393819500768374311745135906307482int);
    lemma_pow_mod_step(3int, 777788267247859345059141959844041626185nat, m, 388894133623929672529570979922020813092nat, 25991726645158100403289566755954016510342821393819500768374311745135906307482int, 5834335129855368142733795965616977996560509137109406202094758344780831948756int, 20212091223761161583280862466898742979571312807203443109052577457752227879096int, 0int, 60636273671283484749842587400696228938713938421610329327157732373256683637288int);
    lemma_pow_mod_step(3int, 1555576534495718690118283919688083252370nat, m, 777788267247859345059141959844041626185nat, 60636273671283484749842587400696228938713938421610329327157732373256683637288int, 31753099101642963383082092845249010905013578593376228103590884993138509739202int, 113872087224812562799662937400138288860633109958008394488093889376620114362018int, 0int, 113872087224812562799662937400138288860633109958008394488093889376620114362018int);
    lemma_pow_mod_step(3int, 3111153068991437380236567839376166504740nat, m, 1555576534495718690118283919688083252370nat, 113872087224812562799662937400138288860633109958008394488093889376620114362018int, 111983921650810896376447193709348788583952468594954175744731930218799460948163int, 94966469089403170885369064730307852364521448441341908137277393510880393027255int, 0int, 94966469089403170885369064730307852364521448441341908137277393510880393027255int);
}

proof fn lemma_certificate_7_11()
    requires
        pow_mod(3int, 3111153068991437380236567839376166504740nat, 115792089237316195423570985008687907853269984665640564039457584007908834671663int) == 94966469089403170885369064730307852364521448441341908137277393510880393027255int,
    ensures
        pow_mod(3int, 12743282970588927509448981870084778003417380nat, 115792089237316195423570985008687907853269984665640564039457584007908834671663int) == 78392462403193057394074025227173588529512666847920935065546363102790699594494int,
{
    let m: int = 115792089237316195423570985008687907853269984665640564039457584007908834671663int;
    lemma_pow_mod_step(3int, 6222306137982874760473135678752333009481nat, m, 3111153068991437380236567839376166504740nat, 94966469089403170885369064730307852364521448441341908137277393510880393027255int, 77886410986374563034993717734512283430560870609383487113974465426873776318747int, 69048186373896307480352964827388523760999357872672737178936996116888596268764int, 1int, 91352469884372727017487909473477663429728088952377647497353404342756954134629int);
    lemma_pow_mod_step(3int, 12444612275965749520946271357504666018962nat, m, 6222306137982874760473135678752333009481nat, 91352469884372727017487909473477663429728088952377647497353404342756954134629int, 72071190777735819635463636975064817060900761180147128035540145947686383609548int, 69977689666920163522030116632662281478203217693196094555710159052516885129317int, 0int, 69977689666920163522030116632662281478203217693196094555710159052516885129317int);
    lemma_pow_mod_step(3int, 24889224551931499041892542715009332037924nat, m, 12444612275965749520946271357504666018962nat, 69977689666920163522030116632662281478203217693196094555710159052516885129317int, 42290255607044298701407377018246442828860116857611830663560287983637789776610int, 15955268436328747524649977946434738581472007036439790384472827662684345684059int, 0int, 15955268436328747524649977946434738581472007036439790384472827662684345684059int);
    lemma_pow_mod_step(3int, 49778449103862998083785085430018664075849nat, m, 24889224551931499041892542715009332037924nat, 15955268436328747524649977946434738581472007036439790384472827662684345684059int, 2198514531969151120442072324502832926436910713632777713384125383522222051128int, 7331424565673976918697319985783958917347065483590122146392557209086367929617int, 0int, 21994273697021930756091959957351876752041196450770366439177671627259103788851int);
    lemma_pow_mod_step(3int, 99556898207725996167570170860037328151698nat, m, 49778449103862998083785085430018664075849nat, 21994273697021930756091959957351876752041196450770366439177671627259103788851int, 4177729917870881319848998347619496836554994231732223941583723490855234692957int, 87338655460338475882283125117091124898639991099945503611101890613561878322710int, 0int, 87338655460338475882283125117091124898639991099945503611101890613561878322710int);
    lemma_pow_mod_step(3int, 199113796415451992335140341720074656303396nat, m, 99556898207725996167570170860037328151698nat, 87338655460338475882283125117091124898639991099945503611101890613561878322710int, 65877045555210788637043360310176885434634629689722375315209567345345136631918int, 104033424734526706140197719206627296882497352581298551259818374282333685804466int, 0int, 104033424734526706140197719206627296882497352581298551259818374282333685804466int);
    lemma_pow_mod_step(3int, 398227592830903984670280683440149312606793nat, m, 199113796415451992335140341720074656303396nat, 104033424734526706140197719206627296882497352581298551259818374282333685804466int, 93468850361726880145348942833381375511274078269984360356716660047331913614732int, 52207968733571169669305011700256263880298305056253726592443962575684885805840int, 1int, 40831816963397313584344050092080883787624930503120615737874303719145822745857int);
    lemma_pow_mod_step(3int, 796455185661807969340561366880298625213586nat, m, 398227592830903984670280683440149312606793nat, 40831816963397313584344050092080883787624930503120615737874303719145822745857int, 14398542141470246502031602577913156414979260741555795877032732680220549208174int, 55986878973798583295910996325518485560860388410978668939569270320923284891087int, 0int, 55986878973798583295910996325518485560860388410978668939569270320923284891087int);
    lemma_pow_mod_step(3int, 1592910371323615938681122733760597250427172nat, m, 796455185661807969340561366880298625213586nat, 55986878973798583295910996325518485560860388410978668939569270320923284891087int, 27070334751474611148463353289523012879799722446331842951755944760599658518719int, 14148848494715484557259568663664422589089066800747445362897949906630147681872int, 0int, 14148848494715484557259568663664422589089066800747445362897949906630147681872int);
    lemma_pow_mod_step(3int, 3185820742647231877362245467521194500854345nat, m, 1592910371323615938681122733760597250427172nat, 14148848494715484557259568663664422589089066800747445362897949906630147681872int, 1728873837971114517527914330533165591237708680788627714662821290565156873164int, 60762763455775142609316502464050465783018727973461130765242554354563641472652int, 1int, 66496201130009232404378522383463489495786199254742828256270079055782089746293int);
    lemma_pow_mod_step(3int, 6371641485294463754724490935042389001708690nat, m, 3185820742647231877362245467521194500854345nat, 66496201130009232404378522383463489495786199254742828256270079055782089746293int, 38186933095751156535044665424327179879135315921397718513578587731900098378466int, 69023269920450861239857503387882501304019020977855942480330183314103287632891int, 0int, 69023269920450861239857503387882501304019020977855942480330183314103287632891int);
    lemma_pow_mod_step(3int, 12743282970588927509448981870084778003417380nat, m, 6371641485294463754724490935042389001708690nat, 69023269920450861239857503387882501304019020977855942480330183314103287632891int, 41144536055024897957096644445390768125222502855359526831732289309307255451349int, 78392462403193057394074025227173588529512666847920935065546363102790699594494int, 0int, 78392462403193057394074025227173588529512666847920935065546363102790699594494int);
}

proof fn lemma_certificate_7_12()
    requires
        pow_mod(3int, 12743282970588927509448981870084778003417380nat, 115792089237316195423570985008687907853269984665640564039457584007908834671663int) == 78392462403193057394074025227173588529512666847920935065546363102790699594494int,
    ensures
        pow_mod(3int, 52196487047532247078703029739867250701997590820nat, 115792089237316195423570985008687907853269984665640564039457584007908834671663int) == 33944389429659134617089719408190858439105014857986879692697663782862596302076int,
{
    let m: int = 115792089237316195423570985008687907853269984665640564039457584007908834671663int;
    lemma_pow_mod_step(3int, 25486565941177855018897963740169556006834761nat, m, 12743282970588927509448981870084778003417380nat, 78392462403193057394074025227173588529512666847920935065546363102790699594494int, 53072521638685248234827574837906278554462111043977985718784411769824907486506int, 14563784578084499018022286042538206427436342075093499115847333468944922036558int, 0int, 43691353734253497054066858127614619282309026225280497347542000406834766109674int);
    lemma_pow_mod_step(3int, 50973131882355710037795927480339112013669522nat, m, 25486565941177855018897963740169556006834761nat, 43691353734253497054066858127614619282309026225280497347542000406834766109674int, 16485879162429662018059401997741087179538007861780199748328053212406351703927int, 46666440798616337781890101463067697746583464001774766573018168685068963665675int, 0int, 46666440798616337781890101463067697746583464001774766573018168685068963665675int);
    lemma_pow_mod_step(3int, 101946263764711420075591854960678224027339044nat, m, 50973131882355710037795927480339112013669522nat, 46666440798616337781890101463067697746583464001774766573018168685068963665675int, 18807473905643461577148628947717678367219758655987934381136003778478131172031int, 40302856169034600364942247783484287965414113864736235051293724157693919348072int, 0int, 40302856169034600364942247783484287965414113864736235051293724157693919348072int);
    lemma_pow_mod_step(3int, 203892527529422840151183709921356448054678089nat, m, 101946263764711420075591854960678224027339044nat, 40302856169034600364942247783484287965414113864736235051293724157693919348072int, 14027903167485317016315768576079897920355332299527383225028154417950097528234int, 12836655138106946997677784176427740332030333948471049397750498007294227884042int, 0int, 38509965414320840993033352529283220996091001845413148193251494021882683652126int);
    lemma_pow_mod_step(3int, 407785055058845680302367419842712896109356178nat, m, 203892527529422840151183709921356448054678089nat, 38509965414320840993033352529283220996091001845413148193251494021882683652126int, 12807588549272473661153848046916735166800282306619467853995287779472199282852int, 106977701188253085712189627717512200019966180480530336319639172391191898097000int, 0int, 106977701188253085712189627717512200019966180480530336319639172391191898097000int);
    lemma_pow_mod_step(3int, 815570110117691360604734839685425792218712356nat, m, 407785055058845680302367419842712896109356178nat, 106977701188253085712189627717512200019966180480530336319639172391191898097000int, 98834286753978406563464103561285634624894454258807109322239636213038781554122int, 108760596994890515589669997263127950083320889844655727840006853552172674755114int, 0int, 108760596994890515589669997263127950083320889844655727840006853552172674755114int);
    lemma_pow_mod_step(3int, 1631140220235382721209469679370851584437424713nat, m, 815570110117691360604734839685425792218712356nat, 108760596994890515589669997263127950083320889844655727840006853552172674755114int, 102156093189075226679774585640727436591880282358028953540614493538325948930001int, 52492555839381172728693787419739570141524765747428734706619704432314863891333int, 1int, 41685578280827322762510377250530802571304312576645640080401529289035757002336int);
    lemma_pow_mod_step(3int, 3262280440470765442418939358741703168874849426nat, m, 1631140220235382721209469679370851584437424713nat, 41685578280827322762510377250530802571304312576645640080401529289035757002336int, 15006961598607894383098421560244451751947027835623281235218619184593900738094int, 58397276684735366729081293602811764503248088792364534392828773467982863026574int, 0int, 58397276684735366729081293602811764503248088792364534392828773467982863026574int);
    lemma_pow_mod_step(3int, 6524560880941530884837878717483406337749698852nat, m, 3262280440470765442418939358741703168874849426nat, 58397276684735366729081293602811764503248088792364534392828773467982863026574int, 29451424070984995824791965646669553830683473508637860155480128180985691414052int, 88400252213757580187570732928093453197398161392690763799019390767215825769000int, 0int, 88400252213757580187570732928093453197398161392690763799019390767215825769000int);
    lemma_pow_mod_step(3int, 13049121761883061769675757434966812675499397705nat, m, 6524560880941530884837878717483406337749698852nat, 88400252213757580187570732928093453197398161392690763799019390767215825769000int, 67488242443228561359011807617996071633045691687615395799572810211620264760896int, 61367101787642814704466770658020273128558640945117150469324947086395999309952int, 1int, 68309216125612248689829326965372911532405938169710887368517257251279163258193int);
    lemma_pow_mod_step(3int, 26098243523766123539351514869933625350998795410nat, m, 13049121761883061769675757434966812675499397705nat, 68309216125612248689829326965372911532405938169710887368517257251279163258193int, 40297649333645925045906396831680687082967945413738868931926362139461438391260int, 91581496022609811807115578957280682206637464721815318844305784820446552759869int, 0int, 91581496022609811807115578957280682206637464721815318844305784820446552759869int);
    lemma_pow_mod_step(3int, 52196487047532247078703029739867250701997590820nat, m, 26098243523766123539351514869933625350998795410nat, 91581496022609811807115578957280682206637464721815318844305784820446552759869int, 72433017393353777984084547581389208841497962871922301639068802406369905921795int, 33944389429659134617089719408190858439105014857986879692697663782862596302076int, 0int, 33944389429659134617089719408190858439105014857986879692697663782862596302076int);
}

proof fn lemma_certificate_7_13()
    requires
        pow_mod(3int, 52196487047532247078703029739867250701997590820nat, 115792089237316195423570985008687907853269984665640564039457584007908834671663int) == 33944389429659134617089719408190858439105014857986879692697663782862596302076int,
    ensures
        pow_mod(3int, 213796810946692084034367609814496258875382132001060nat, 115792089237316195423570985008687907853269984665640564039457584007908834671663int) == 41423182246324172413474045516860404705667448572814225334914277952087650643619int,
{
    let m: int = 115792089237316195423570985008687907853269984665640564039457584007908834671663int;
    lemma_pow_mod_step(3int, 104392974095064494157406059479734501403995181641nat, m, 52196487047532247078703029739867250701997590820nat, 33944389429659134617089719408190858439105014857986879692697663782862596302076int, 9950779723741520932076287582897933991408449984584985407498967250457076072650int, 104837943428404572448263381993830933589809409561518559561428875507313557592826int, 2int, 82929651810581326497648175964116985062888259353274550605371458506123003435152int);
    lemma_pow_mod_step(3int, 208785948190128988314812118959469002807990363282nat, m, 104392974095064494157406059479734501403995181641nat, 82929651810581326497648175964116985062888259353274550605371458506123003435152int, 59393756470955061244080006980985833565959962865370842309122389323160953067030int, 13663643130602664573985461298842718039089828852076319726420879696829388692214int, 0int, 13663643130602664573985461298842718039089828852076319726420879696829388692214int);
    lemma_pow_mod_step(3int, 417571896380257976629624237918938005615980726564nat, m, 208785948190128988314812118959469002807990363282nat, 13663643130602664573985461298842718039089828852076319726420879696829388692214int, 1612330728551180987572857460072522638454714203878211731296624375709790679135int, 60174935562564211184595423335163428088657501823749254592322818269333714370291int, 0int, 60174935562564211184595423335163428088657501823749254592322818269333714370291int);
    lemma_pow_mod_step(3int, 835143792760515953259248475837876011231961453129nat, m, 417571896380257976629624237918938005615980726564nat, 60174935562564211184595423335163428088657501823749254592322818269333714370291int, 31271763846815640219483685865589264571732127501911049289511679301664243546310int, 78883824853159033550919728422322219572324482441794840004700796448803078211151int, 2int, 5067296084844709805617215249590843010433477994103391935187221330591565290127int);
    lemma_pow_mod_step(3int, 1670287585521031906518496951675752022463922906258nat, m, 835143792760515953259248475837876011231961453129nat, 5067296084844709805617215249590843010433477994103391935187221330591565290127int, 221755128356449645361664517816760164029965768550416808503546408024657677596int, 106449048264999186780925001590995035359382267548859701368910514305108912513981int, 0int, 106449048264999186780925001590995035359382267548859701368910514305108912513981int);
    lemma_pow_mod_step(3int, 3340575171042063813036993903351504044927845812516nat, m, 1670287585521031906518496951675752022463922906258nat, 106449048264999186780925001590995035359382267548859701368910514305108912513981int, 97859879298838732736064460440697324832549506665828837903531662517940015890311int, 80714748581500229867328501534675370607966468126990725496569887134861212511168int, 0int, 80714748581500229867328501534675370607966468126990725496569887134861212511168int);
    lemma_pow_mod_step(3int, 6681150342084127626073987806703008089855691625033nat, m, 3340575171042063813036993903351504044927845812516nat, 80714748581500229867328501534675370607966468126990725496569887134861212511168int, 56263520949367695030281215289642007280989756037335324291748938565290633195614int, 48840916989218343143018324928990923523944484607191911729696160613074383038142int, 1int, 30730661730338834005483989778284862718563469155935171149630897831314314442763int);
    lemma_pow_mod_step(3int, 13362300684168255252147975613406016179711383250066nat, m, 6681150342084127626073987806703008089855691625033nat, 30730661730338834005483989778284862718563469155935171149630897831314314442763int, 8155769332816990895587431345179187746623805175351713832923778849101369899008int, 40345517760548766244195719601621282546640290754186500337560763210968053663865int, 0int, 40345517760548766244195719601621282546640290754186500337560763210968053663865int);
    lemma_pow_mod_step(3int, 26724601368336510504295951226812032359422766500132nat, m, 13362300684168255252147975613406016179711383250066nat, 40345517760548766244195719601621282546640290754186500337560763210968053663865int, 14057616665251248989751461186409055855049858638513438262973043017537312229075int, 10881424927133486104203796124227749714195079659219869170786395334558139536500int, 0int, 10881424927133486104203796124227749714195079659219869170786395334558139536500int);
    lemma_pow_mod_step(3int, 53449202736673021008591902453624064718845533000265nat, m, 26724601368336510504295951226812032359422766500132nat, 10881424927133486104203796124227749714195079659219869170786395334558139536500int, 1022569065164458629550534099418837915892285011508524173421504312358520461479int, 73527682740715581631066354163952237435349353385532710698620621102700627880423int, 1int, 104790958984830549469628077483168804452778075490957568056404279300193048969606int);
    lemma_pow_mod_step(3int, 106898405473346042017183804907248129437691066000530nat, m, 53449202736673021008591902453624064718845533000265nat, 104790958984830549469628077483168804452778075490957568056404279300193048969606int, 94835019881665252207628249566716024639503076676096499432351127986801137289298int, 29729232975559497846067308538231039739271675250373264877138953185804638032662int, 0int, 29729232975559497846067308538231039739271675250373264877138953185804638032662int);
    lemma_pow_mod_step(3int, 213796810946692084034367609814496258875382132001060nat, m, 106898405473346042017183804907248129437691066000530nat, 29729232975559497846067308538231039739271675250373264877138953185804638032662int, 7632881478662051270356523399633344303637971597012806682198203540029015103375int, 41423182246324172413474045516860404705667448572814225334914277952087650643619int, 0int, 41423182246324172413474045516860404705667448572814225334914277952087650643619int);
}

proof fn lemma_certificate_7_14()
    requires
        pow_mod(3int, 213796810946692084034367609814496258875382132001060nat, 115792089237316195423570985008687907853269984665640564039457584007908834671663int) == 41423182246324172413474045516860404705667448572814225334914277952087650643619int,
    ensures
        pow_mod(3int, 875711737637650776204769729800176676353565212676344100nat, 115792089237316195423570985008687907853269984665640564039457584007908834671663int) == 85681934064976398442587013665916856626087577267279033669014938157292406004322int,
{
    let m: int = 115792089237316195423570985008687907853269984665640564039457584007908834671663int;
    lemma_pow_mod_step(3int, 427593621893384168068735219628992517750764264002121nat, m, 213796810946692084034367609814496258875382132001060nat, 41423182246324172413474045516860404705667448572814225334914277952087650643619int, 14818629137051715357195423322686159662083747212715076814633380760312319759165int, 82090635975845610942657625102997956301545271988768862061500908093234935375766int, 2int, 14687729452904441980830905291618053198095846635025458105587556263887136783972int);
    lemma_pow_mod_step(3int, 855187243786768336137470439257985035501528528004242nat, m, 427593621893384168068735219628992517750764264002121nat, 14687729452904441980830905291618053198095846635025458105587556263887136783972int, 1863075430304903175524164028556276717476808188894379256978562499674834721062int, 97943500949944418123602092585871372888064477950083794061884693334008035430678int, 0int, 97943500949944418123602092585871372888064477950083794061884693334008035430678int);
    lemma_pow_mod_step(3int, 1710374487573536672274940878515970071003057056008484nat, m, 855187243786768336137470439257985035501528528004242nat, 97943500949944418123602092585871372888064477950083794061884693334008035430678int, 82846155048390471768905952651710350413962862871164774280913498343231783697259int, 18151320389333079484428966724251245452211278400075169103555217432961485467967int, 0int, 18151320389333079484428966724251245452211278400075169103555217432961485467967int);
    lemma_pow_mod_step(3int, 3420748975147073344549881757031940142006114112016969nat, m, 1710374487573536672274940878515970071003057056008484nat, 18151320389333079484428966724251245452211278400075169103555217432961485467967int, 2845362183602786958789037048296245571679828850803861212534170232576734441558int, 36199126095924992580063265486179727529712258280071179989324551047612390942135int, 0int, 108597378287774977740189796458539182589136774840213539967973653142837172826405int);
    lemma_pow_mod_step(3int, 6841497950294146689099763514063880284012228224033938nat, m, 3420748975147073344549881757031940142006114112016969nat, 108597378287774977740189796458539182589136774840213539967973653142837172826405int, 101849708807028386515402141348388836527599743900672242061256783011250692040538int, 102208487758648817881751293770949643943269776664187448047312358881055549349331int, 0int, 102208487758648817881751293770949643943269776664187448047312358881055549349331int);
    lemma_pow_mod_step(3int, 13682995900588293378199527028127760568024456448067876nat, m, 6841497950294146689099763514063880284012228224033938nat, 102208487758648817881751293770949643943269776664187448047312358881055549349331int, 90218382263572272364413171096026980958897291844002202874996764864005928710158int, 35524262064352828810562835311524497324896956380797072833221938145266447294807int, 0int, 35524262064352828810562835311524497324896956380797072833221938145266447294807int);
    lemma_pow_mod_step(3int, 27365991801176586756399054056255521136048912896135753nat, m, 13682995900588293378199527028127760568024456448067876nat, 35524262064352828810562835311524497324896956380797072833221938145266447294807int, 10898613225903542341238970041309132802262161418787887612781964976728291681744int, 70095375594124363136323219944642469588812937501239334586450912191266037946977int, 1int, 94494037545056893985398674825239500913168827838077439719895152565889279169268int);
    lemma_pow_mod_step(3int, 54731983602353173512798108112511042272097825792271506nat, m, 27365991801176586756399054056255521136048912896135753nat, 94494037545056893985398674825239500913168827838077439719895152565889279169268int, 77113412413402095731534310094578731328283108622971421693285296170092713922452int, 10988134511973087487987111635790897907126666388073857617259702589731931778148int, 0int, 10988134511973087487987111635790897907126666388073857617259702589731931778148int);
    lemma_pow_mod_step(3int, 109463967204706347025596216225022084544195651584543012nat, m, 54731983602353173512798108112511042272097825792271506nat, 10988134511973087487987111635790897907126666388073857617259702589731931778148int, 1042723219249969091305306169498695436382873568109284430951487133583462031330int, 97801995714034729331307548263162484202809088301013212850306903046265521108114int, 0int, 97801995714034729331307548263162484202809088301013212850306903046265521108114int);
    lemma_pow_mod_step(3int, 218927934409412694051192432450044169088391303169086025nat, m, 109463967204706347025596216225022084544195651584543012nat, 97801995714034729331307548263162484202809088301013212850306903046265521108114int, 82606941706044377905335304176134694579383940049604897260590842490507938782508int, 105762519350507706840339884109394335852137112655269112117421402290524328966192int, 2int, 85703379576890729673877682310807191849871368634526208273349038855755317555250int);
    lemma_pow_mod_step(3int, 437855868818825388102384864900088338176782606338172050nat, m, 218927934409412694051192432450044169088391303169086025nat, 85703379576890729673877682310807191849871368634526208273349038855755317555250int, 63433256272342335792698507130209328668756077990903919300952244480851875460862int, 59467155498723204937206512333868599112821371638983856900099327724554225608994int, 0int, 59467155498723204937206512333868599112821371638983856900099327724554225608994int);
    lemma_pow_mod_step(3int, 875711737637650776204769729800176676353565212676344100nat, m, 437855868818825388102384864900088338176782606338172050nat, 59467155498723204937206512333868599112821371638983856900099327724554225608994int, 30540450616290219637894574338695810508143164650286271436077624204252063646078int, 85681934064976398442587013665916856626087577267279033669014938157292406004322int, 0int, 85681934064976398442587013665916856626087577267279033669014938157292406004322int);
}

proof fn lemma_certificate_7_15()
    requires
        pow_mod(3int, 875711737637650776204769729800176676353565212676344100nat, 115792089237316195423570985008687907853269984665640564039457584007908834671663int) == 85681934064976398442587013665916856626087577267279033669014938157292406004322int,
    ensures
        pow_mod(3int, 3586915277363817579334736813261523666344203111122305435940nat, 115792089237316195423570985008687907853269984665640564039457584007908834671663int) == 22045538174068830172050588696352497818131767332040818876735563566340863179590int,
{
    let m: int = 115792089237316195423570985008687907853269984665640564039457584007908834671663int;
    lemma_pow_mod_step(3int, 1751423475275301552409539459600353352707130425352688201nat, m, 875711737637650776204769729800176676353565212676344100nat, 85681934064976398442587013665916856626087577267279033669014938157292406004322int, 63401514503022367651586221083522143312937237466889579222100960098359295531235int, 51890595961118422324903214541986240430744374432231840447971202692613096785879int, 1int, 39879698646039071551138658617270813438963138631054957304456024069930455685974int);
    lemma_pow_mod_step(3int, 3502846950550603104819078919200706705414260850705376402nat, m, 1751423475275301552409539459600353352707130425352688201nat, 39879698646039071551138658617270813438963138631054957304456024069930455685974int, 13734879252756043358194191376355895771553234041016435736924424616560651142622int, 20381585736401224277543001013176405330629103541716875476649900088995745408290int, 0int, 20381585736401224277543001013176405330629103541716875476649900088995745408290int);
    lemma_pow_mod_step(3int, 7005693901101206209638157838401413410828521701410752804nat, m, 3502846950550603104819078919200706705414260850705376402nat, 20381585736401224277543001013176405330629103541716875476649900088995745408290int, 3587542463966531489481417805842140560368045223205102289417294242467932916340int, 85230049037552703324812554713175044311948093294891971444785679962444853050680int, 0int, 85230049037552703324812554713175044311948093294891971444785679962444853050680int);
    lemma_pow_mod_step(3int, 14011387802202412419276315676802826821657043402821505609nat, m, 7005693901101206209638157838401413410828521701410752804nat, 85230049037552703324812554713175044311948093294891971444785679962444853050680int, 62734521043624324236259378007663343038048978938549840470847187933532611163168int, 79215107986711594083299338638848959301940754586317898159276796662464849554016int, 2int, 6061145485502391402756045899171062199282294427672566398915221971576879318722int);
    lemma_pow_mod_step(3int, 28022775604404824838552631353605653643314086805643011218nat, m, 14011387802202412419276315676802826821657043402821505609nat, 6061145485502391402756045899171062199282294427672566398915221971576879318722int, 317271109264920917194269896343214575726902080651673041230672460329030908020int, 15654569172028883925111294788999155338747238894627041238090596115823406276024int, 0int, 15654569172028883925111294788999155338747238894627041238090596115823406276024int);
    lemma_pow_mod_step(3int, 56045551208809649677105262707211307286628173611286022436nat, m, 28022775604404824838552631353605653643314086805643011218nat, 15654569172028883925111294788999155338747238894627041238090596115823406276024int, 2116427275610984334625449326673377986372694594119633217438302299649787437791int, 85939783056608638937377987813185796893792583582949013656760574466186154232143int, 0int, 85939783056608638937377987813185796893792583582949013656760574466186154232143int);
    lemma_pow_mod_step(3int, 112091102417619299354210525414422614573256347222572044873nat, m, 56045551208809649677105262707211307286628173611286022436nat, 85939783056608638937377987813185796893792583582949013656760574466186154232143int, 63783686437162866111295831730996365291102474953762105772170099500266126667906int, 61768697093676310592113193412235569941324624166515455347866528731632184624771int, 1int, 69514002043712736352768595228018801970703887833905802004142002186987719202650int);
    lemma_pow_mod_step(3int, 224182204835238598708421050828845229146512694445144089746nat, m, 112091102417619299354210525414422614573256347222572044873nat, 69514002043712736352768595228018801970703887833905802004142002186987719202650int, 41731663293765249583161100117900590423978560414892027369368138386134046295900int, 39167592980388339042862267222573410068509655400074432799430860543633923940800int, 0int, 39167592980388339042862267222573410068509655400074432799430860543633923940800int);
    lemma_pow_mod_step(3int, 448364409670477197416842101657690458293025388890288179492nat, m, 224182204835238598708421050828845229146512694445144089746nat, 39167592980388339042862267222573410068509655400074432799430860543633923940800int, 13248749115608607400637356064629712574882868083919959250853884348390182786587int, 57807885254187797840768666206850131008577639141692056510163481950051359255819int, 0int, 57807885254187797840768666206850131008577639141692056510163481950051359255819int);
    lemma_pow_mod_step(3int, 896728819340954394833684203315380916586050777780576358985nat, m, 448364409670477197416842101657690458293025388890288179492nat, 57807885254187797840768666206850131008577639141692056510163481950051359255819int, 28859930065795895893813891216094956454524788883419781441255229088422289043865int, 18027763216406901147704241563243016412030961092925835269252382331352005863266int, 0int, 54083289649220703443112724689729049236092883278777505807757146994056017589798int);
    lemma_pow_mod_step(3int, 1793457638681908789667368406630761833172101555561152717970nat, m, 896728819340954394833684203315380916586050777780576358985nat, 54083289649220703443112724689729049236092883278777505807757146994056017589798int, 25260812189740384055971991262585101919646264799349811370547842954838819344210int, 92737463675215637883843577243187529911573674937052310271949339539108663559574int, 0int, 92737463675215637883843577243187529911573674937052310271949339539108663559574int);
    lemma_pow_mod_step(3int, 3586915277363817579334736813261523666344203111122305435940nat, m, 1793457638681908789667368406630761833172101555561152717970nat, 92737463675215637883843577243187529911573674937052310271949339539108663559574int, 74273097804511765334636345916419263242714622062742368407123079491626466653122int, 22045538174068830172050588696352497818131767332040818876735563566340863179590int, 0int, 22045538174068830172050588696352497818131767332040818876735563566340863179590int);
}

proof fn lemma_certificate_7_16()
    requires
        pow_mod(3int, 3586915277363817579334736813261523666344203111122305435940nat, 115792089237316195423570985008687907853269984665640564039457584007908834671663int) == 22045538174068830172050588696352497818131767332040818876735563566340863179590int,
    ensures
        pow_mod(3int, 14692004976082196804955081987119200937345855943156963065612580nat, 115792089237316195423570985008687907853269984665640564039457584007908834671663int) == 58044153346842395818236313153100167925593363387144586523249971745353536365920int,
{
    let m: int = 115792089237316195423570985008687907853269984665640564039457584007908834671663int;
    lemma_pow_mod_step(3int, 7173830554727635158669473626523047332688406222244610871881nat, m, 3586915277363817579334736813261523666344203111122305435940nat, 22045538174068830172050588696352497818131767332040818876735563566340863179590int, 4197227604972702099778376460501979422715998107733867929666949023492727865348int, 22408960801124382407603345872705256686258596155819544323359250672444137334376int, 0int, 67226882403373147222810037618115770058775788467458632970077752017332412003128int);
    lemma_pow_mod_step(3int, 14347661109455270317338947253046094665376812444489221743762nat, m, 7173830554727635158669473626523047332688406222244610871881nat, 67226882403373147222810037618115770058775788467458632970077752017332412003128int, 39030764082806465878133155740718131567063938008282347395439882240633694779360int, 96568885770388196624194595858617924958581039496879245850683910801366652508704int, 0int, 96568885770388196624194595858617924958581039496879245850683910801366652508704int);
    lemma_pow_mod_step(3int, 28695322218910540634677894506092189330753624888978443487524nat, m, 14347661109455270317338947253046094665376812444489221743762nat, 96568885770388196624194595858617924958581039496879245850683910801366652508704int, 80537019068906727882143259549384797844993865795989332067006863447085686179697int, 98552335207426121448563040614855560934418535087787853034387006715956983933505int, 0int, 98552335207426121448563040614855560934418535087787853034387006715956983933505int);
    lemma_pow_mod_step(3int, 57390644437821081269355789012184378661507249777956886975049nat, m, 28695322218910540634677894506092189330753624888978443487524nat, 98552335207426121448563040614855560934418535087787853034387006715956983933505int, 83879329225427127185390210711905120971813245522884222666269242061319169170895int, 79526447833767629748505880816689573272883208727210037094036918793393000736640int, 2int, 6995165026670498398375672432692904112109656850348983203195588364361332866594int);
    lemma_pow_mod_step(3int, 114781288875642162538711578024368757323014499555913773950098nat, m, 57390644437821081269355789012184378661507249777956886975049nat, 6995165026670498398375672432692904112109656850348983203195588364361332866594int, 422587882062194474839795787311629771607193339938904244151815931519320355716int, 81426016322543781413773718939323428294432350122714422510896222672974175885128int, 0int, 81426016322543781413773718939323428294432350122714422510896222672974175885128int);
    lemma_pow_mod_step(3int, 229562577751284325077423156048737514646028999111827547900196nat, m, 114781288875642162538711578024368757323014499555913773950098nat, 81426016322543781413773718939323428294432350122714422510896222672974175885128int, 57259491367934139895381277694886708644418877100235257974185743153260529411814int, 13964215399789316054325883827992910606066745867370748629394304615391048349702int, 0int, 13964215399789316054325883827992910606066745867370748629394304615391048349702int);
    lemma_pow_mod_step(3int, 459125155502568650154846312097475029292057998223655095800393nat, m, 229562577751284325077423156048737514646028999111827547900196nat, 13964215399789316054325883827992910606066745867370748629394304615391048349702int, 1684046924242479803837219794442693972283611351197636918662957691975421118590int, 35527172491731225800557273581549743469367985276111163306407228954758847973634int, 0int, 106581517475193677401671820744649230408103955828333489919221686864276543920902int);
    lemma_pow_mod_step(3int, 918250311005137300309692624194950058584115996447310191600786nat, m, 459125155502568650154846312097475029292057998223655095800393nat, 106581517475193677401671820744649230408103955828333489919221686864276543920902int, 98103591895932061923827672357135540638193419229992987731910397597807941780013int, 38974460122050444275127911233669033554055132649585141950907654580917001621985int, 0int, 38974460122050444275127911233669033554055132649585141950907654580917001621985int);
    lemma_pow_mod_step(3int, 1836500622010274600619385248389900117168231992894620383201572nat, m, 918250311005137300309692624194950058584115996447310191600786nat, 38974460122050444275127911233669033554055132649585141950907654580917001621985int, 13118413803658799849326075939440980650829947061882505352836281468671207704655int, 100183917242364707175764003507716034828897778952605463521163929576318033648960int, 0int, 100183917242364707175764003507716034828897778952605463521163929576318033648960int);
    lemma_pow_mod_step(3int, 3673001244020549201238770496779800234336463985789240766403145nat, m, 1836500622010274600619385248389900117168231992894620383201572nat, 100183917242364707175764003507716034828897778952605463521163929576318033648960int, 86679645735163278098047200583803902627120288361236734689310993341926814911089int, 90870778069362994709943418271532282729662461062421449035747408672868656310593int, 2int, 41028155733456593282688284797221032482447413855983219028327058002788299588453int);
    lemma_pow_mod_step(3int, 7346002488041098402477540993559600468672927971578481532806290nat, m, 3673001244020549201238770496779800234336463985789240766403145nat, 41028155733456593282688284797221032482447413855983219028327058002788299588453int, 14537345115509745173822332201615670111075129670308390774714336926606864362611int, 94461071821882141136573309807946414537968489610489490853588679014625212541116int, 0int, 94461071821882141136573309807946414537968489610489490853588679014625212541116int);
    lemma_pow_mod_step(3int, 14692004976082196804955081987119200937345855943156963065612580nat, m, 7346002488041098402477540993559600468672927971578481532806290nat, 94461071821882141136573309807946414537968489610489490853588679014625212541116int, 77059617358240087008917256635188108757905274407357570891987281117203195054672int, 58044153346842395818236313153100167925593363387144586523249971745353536365920int, 0int, 58044153346842395818236313153100167925593363387144586523249971745353536365920int);
}

proof fn lemma_certificate_7_17()
    requires
        pow_mod(3int, 14692004976082196804955081987119200937345855943156963065612580nat, 115792089237316195423570985008687907853269984665640564039457584007908834671663int) == 58044153346842395818236313153100167925593363387144586523249971745353536365920int,
    ensures
        pow_mod(3int, 60178452382032678113096015819240247039368625943170920716749130020nat, 115792089237316195423570985008687907853269984665640564039457584007908834671663int) == 96206618991020148532783576244516847648892952381263633149858318980622730166293int,
{
    let m: int = 115792089237316195423570985008687907853269984665640564039457584007908834671663int;
    lemma_pow_mod_step(3int, 29384009952164393609910163974238401874691711886313926131225161nat, m, 14692004976082196804955081987119200937345855943156963065612580nat, 58044153346842395818236313153100167925593363387144586523249971745353536365920int, 29096320482193971145653909288788199188251710974065062648716400340996296393149int, 81188806420594861273230440955850322470544516243348365204552784018317559809613int, 2int, 11982240787152192972549352850175151705093579398763967534743184039135010085513int);
    lemma_pow_mod_step(3int, 58768019904328787219820327948476803749383423772627852262450322nat, m, 29384009952164393609910163974238401874691711886313926131225161nat, 11982240787152192972549352850175151705093579398763967534743184039135010085513int, 1239930078358272958251395110669538180481230397180558190021837006060278440918int, 4132363653658831345062560307722813330743698223455433680933880740159498166535int, 0int, 4132363653658831345062560307722813330743698223455433680933880740159498166535int);
    lemma_pow_mod_step(3int, 117536039808657574439640655896953607498766847545255704524900644nat, m, 58768019904328787219820327948476803749383423772627852262450322nat, 4132363653658831345062560307722813330743698223455433680933880740159498166535int, 147474922324636343079983291286534012953125697048009727100937146265376709965int, 38285998603695478161611387906949963795131045890049376079182358306978638684430int, 0int, 38285998603695478161611387906949963795131045890049376079182358306978638684430int);
    lemma_pow_mod_step(3int, 235072079617315148879281311793907214997533695090511409049801289nat, m, 117536039808657574439640655896953607498766847545255704524900644nat, 38285998603695478161611387906949963795131045890049376079182358306978638684430int, 12659048633952660133505546212004963386640471318531199854945249777006346727588int, 88731040068084544300216465654328226598473474866637006355038845472306640486056int, 2int, 34608941729621242053507426945608864088880455268629890986201368401102252114842int);
    lemma_pow_mod_step(3int, 470144159234630297758562623587814429995067390181022818099602578nat, m, 235072079617315148879281311793907214997533695090511409049801289nat, 34608941729621242053507426945608864088880455268629890986201368401102252114842int, 10344220019983123628882291719565322127513921069819409168634802674230535282537int, 16832074036482538983102418500865759257173800522809169493398839841410224035933int, 0int, 16832074036482538983102418500865759257173800522809169493398839841410224035933int);
    lemma_pow_mod_step(3int, 940288318469260595517125247175628859990134780362045636199205156nat, m, 470144159234630297758562623587814429995067390181022818099602578nat, 16832074036482538983102418500865759257173800522809169493398839841410224035933int, 2446788189381116778734775602510230134069190720854576911093052466249569058228int, 85454678890817472378197376046338232546075706793072428454531729317270766587325int, 0int, 85454678890817472378197376046338232546075706793072428454531729317270766587325int);
    lemma_pow_mod_step(3int, 1880576636938521191034250494351257719980269560724091272398410313nat, m, 940288318469260595517125247175628859990134780362045636199205156nat, 85454678890817472378197376046338232546075706793072428454531729317270766587325int, 63065639392396035869971712073221497582495686240834787500106113794886611516287int, 58351762600867978544470827634830685769298236023623725360161031133296628780344int, 1int, 59263198565287740209841497895804149454624723405230612041025509391981051669369int);
    lemma_pow_mod_step(3int, 3761153273877042382068500988702515439960539121448182544796820626nat, m, 1880576636938521191034250494351257719980269560724091272398410313nat, 59263198565287740209841497895804149454624723405230612041025509391981051669369int, 30331318204222136722996067184995588392097595584947123871390646498016693950312int, 13364004887586630120717222283343404887007842095303437392008779321136736449305int, 0int, 13364004887586630120717222283343404887007842095303437392008779321136736449305int);
    lemma_pow_mod_step(3int, 7522306547754084764137001977405030879921078242896365089593641252nat, m, 3761153273877042382068500988702515439960539121448182544796820626nat, 13364004887586630120717222283343404887007842095303437392008779321136736449305int, 1542390570994924154135367520491268535587521935086557401894761696445665420702int, 111656349971084418884855795468025506336668465603260115667407380721283902015599int, 0int, 111656349971084418884855795468025506336668465603260115667407380721283902015599int);
    lemma_pow_mod_step(3int, 15044613095508169528274003954810061759842156485792730179187282505nat, m, 7522306547754084764137001977405030879921078242896365089593641252nat, 111656349971084418884855795468025506336668465603260115667407380721283902015599int, 107668326661883143492850442494959473318848052833141201008590484030104603967107int, 37807541960937968311874238027688049999074900823075462246468076479837242339860int, 0int, 113422625882813904935622714083064149997224702469226386739404229439511727019580int);
    lemma_pow_mod_step(3int, 30089226191016339056548007909620123519684312971585460358374565010nat, m, 15044613095508169528274003954810061759842156485792730179187282505nat, 113422625882813904935622714083064149997224702469226386739404229439511727019580int, 111101649058136830817484930450862345018206891138671681000112006737039384602774int, 7617591913658571428673153266760674071454931073903595975132052228543734383238int, 0int, 7617591913658571428673153266760674071454931073903595975132052228543734383238int);
    lemma_pow_mod_step(3int, 60178452382032678113096015819240247039368625943170920716749130020nat, m, 30089226191016339056548007909620123519684312971585460358374565010nat, 7617591913658571428673153266760674071454931073903595975132052228543734383238int, 501137054743942974638054001051027971248940422373264012606168042970982278177int, 96206618991020148532783576244516847648892952381263633149858318980622730166293int, 0int, 96206618991020148532783576244516847648892952381263633149858318980622730166293int);
}

proof fn lemma_certificate_7_18()
    requires
        pow_mod(3int, 60178452382032678113096015819240247039368625943170920716749130020nat, 115792089237316195423570985008687907853269984665640564039457584007908834671663int) == 96206618991020148532783576244516847648892952381263633149858318980622730166293int,
    ensures
        pow_mod(3int, 246490940956805849551241280795608051873253891863228091255804436564251nat, 115792089237316195423570985008687907853269984665640564039457584007908834671663int) == 75350263791653155620451860233434053144296841791773853083324269302554641469475int,
{
    let m: int = 115792089237316195423570985008687907853269984665640564039457584007908834671663int;
    lemma_pow_mod_step(3int, 120356904764065356226192031638480494078737251886341841433498260041nat, m, 60178452382032678113096015819240247039368625943170920716749130020nat, 96206618991020148532783576244516847648892952381263633149858318980622730166293int, 79933902209102636924448793191097942992782258203318072762430074433662373637435int, 92886594730293875153224046981642736129803702539427221969602620870842202857444int, 2int, 47075605716249234612530170927552392682871138287000537829892694596708939229006int);
    lemma_pow_mod_step(3int, 240713809528130712452384063276960988157474503772683682866996520082nat, m, 120356904764065356226192031638480494078737251886341841433498260041nat, 47075605716249234612530170927552392682871138287000537829892694596708939229006int, 19138722413150598094830445896746073099063391709908116335239407844896778760778int, 43645625464194034927017552883960423116553282715942735396118100951596059314222int, 0int, 43645625464194034927017552883960423116553282715942735396118100951596059314222int);
    lemma_pow_mod_step(3int, 481427619056261424904768126553921976314949007545367365733993040164nat, m, 240713809528130712452384063276960988157474503772683682866996520082nat, 43645625464194034927017552883960423116553282715942735396118100951596059314222int, 16451388300426308794775295890586422404725005079527157610766407262301946253103int, 58896212652195603172344413268863520184099737998888077468503792089062831544995int, 0int, 58896212652195603172344413268863520184099737998888077468503792089062831544995int);
    lemma_pow_mod_step(3int, 962855238112522849809536253107843952629898015090734731467986080329nat, m, 481427619056261424904768126553921976314949007545367365733993040164nat, 58896212652195603172344413268863520184099737998888077468503792089062831544995int, 29956829413997398921517486436915367673978325332555500321207782061087486697619int, 60140974189687852542392793546122128641318133536372428054598131275014680679628int, 1int, 64630833331747362203607395629678478070684415943476720124336809817135207367221int);
    lemma_pow_mod_step(3int, 1925710476225045699619072506215687905259796030181469462935972160658nat, m, 962855238112522849809536253107843952629898015090734731467986080329nat, 64630833331747362203607395629678478070684415943476720124336809817135207367221int, 36074524992765583636757624931777558298770362154337882130743674574886233902348int, 38381426053600597002876689315295762181423236714815875019298606609770560498117int, 0int, 38381426053600597002876689315295762181423236714815875019298606609770560498117int);
    lemma_pow_mod_step(3int, 3851420952450091399238145012431375810519592060362938925871944321316nat, m, 1925710476225045699619072506215687905259796030181469462935972160658nat, 38381426053600597002876689315295762181423236714815875019298606609770560498117int, 12722232370199478086332399169650785208117436633822477427662162337987808786663int, 71726614255392616005377741031138650558429136019320859042081662399625142115120int, 0int, 71726614255392616005377741031138650558429136019320859042081662399625142115120int);
    lemma_pow_mod_step(3int, 7702841904900182798476290024862751621039184120725877851743888642632nat, m, 3851420952450091399238145012431375810519592060362938925871944321316nat, 71726614255392616005377741031138650558429136019320859042081662399625142115120int, 44430558481398501578215110417773304475148504329656307933491907012130425484506int, 101778074036622990777883955544567427228286987727377911157614910971209128860922int, 0int, 101778074036622990777883955544567427228286987727377911157614910971209128860922int);
    lemma_pow_mod_step(3int, 15405683809800365596952580049725503242078368241451755703487777285265nat, m, 7702841904900182798476290024862751621039184120725877851743888642632nat, 101778074036622990777883955544567427228286987727377911157614910971209128860922int, 89460138622889610293475263062063428982780653156467698547863487801548272012872int, 92634399599743683737993405594425106732018870930802068569021995026996989043948int, 2int, 46319020324598660366838246765899504489516643461125077628150817065173297788518int);
    lemma_pow_mod_step(3int, 30811367619600731193905160099451006484156736482903511406975554570531nat, m, 15405683809800365596952580049725503242078368241451755703487777285265nat, 46319020324598660366838246765899504489516643461125077628150817065173297788518int, 18528482022925373837233272647877172567228577361216692980191546229794923621325int, 7873475607249653840526119585950895103049077494627552124783936359160132622849int, 0int, 23620426821748961521578358757852685309147232483882656374351809077480397868547int);
    lemma_pow_mod_step(3int, 61622735239201462387810320198902012968313472965807022813951109141062nat, m, 30811367619600731193905160099451006484156736482903511406975554570531nat, 23620426821748961521578358757852685309147232483882656374351809077480397868547int, 4818330569181888312720558929543409161865765980220720269450719625268784054447int, 21454774811976636996488349149988086293973065547647376764566730966911531855848int, 0int, 21454774811976636996488349149988086293973065547647376764566730966911531855848int);
    lemma_pow_mod_step(3int, 123245470478402924775620640397804025936626945931614045627902218282125nat, m, 61622735239201462387810320198902012968313472965807022813951109141062nat, 21454774811976636996488349149988086293973065547647376764566730966911531855848int, 3975291967391882652588880040802965357945538309751673490504559141469897926975int, 73474636442233712554825087179463195554486817886464276110336164076250575989679int, 1int, 104631820089384942240904276529701678810190468993752264291550908220842893297374int);
    lemma_pow_mod_step(3int, 246490940956805849551241280795608051873253891863228091255804436564251nat, m, 123245470478402924775620640397804025936626945931614045627902218282125nat, 104631820089384942240904276529701678810190468993752264291550908220842893297374int, 94547199617236689471899377046630798507290991269303337211700017766940688309410int, 63714117676323117014674281747373986999188942152471472374260617770154492047046int, 1int, 75350263791653155620451860233434053144296841791773853083324269302554641469475int);
}

proof fn lemma_certificate_7_19()
    requires
        pow_mod(3int, 246490940956805849551241280795608051873253891863228091255804436564251nat, 115792089237316195423570985008687907853269984665640564039457584007908834671663int) == 75350263791653155620451860233434053144296841791773853083324269302554641469475int,
    ensures
        pow_mod(3int, 1009626894159076759761884286138810580472847941071782261783774972167173851nat, 115792089237316195423570985008687907853269984665640564039457584007908834671663int) == 80982846155415409779101713812239146191832015728543953346574044236556221573370int,
{
    let m: int = 115792089237316195423570985008687907853269984665640564039457584007908834671663int;
    lemma_pow_mod_step(3int, 492981881913611699102482561591216103746507783726456182511608873128502nat, m, 246490940956805849551241280795608051873253891863228091255804436564251nat, 75350263791653155620451860233434053144296841791773853083324269302554641469475int, 49033248219879103066146230010031377104284274012701522216586275210535911299512int, 112069390019953314883918217151882440193248606840608129016613023814907184647169int, 0int, 112069390019953314883918217151882440193248606840608129016613023814907184647169int);
    lemma_pow_mod_step(3int, 985963763827223398204965123182432207493015567452912365023217746257005nat, m, 492981881913611699102482561591216103746507783726456182511608873128502nat, 112069390019953314883918217151882440193248606840608129016613023814907184647169int, 108466375053511507131976209566796895448262081212054068105835328104777607088175int, 52677003580484226359219973898666765143001320544189306495401932349795404829536int, 1int, 42238921504136483654088936687312387575733976966927355446748213041477379816945int);
    lemma_pow_mod_step(3int, 1971927527654446796409930246364864414986031134905824730046435492514011nat, m, 985963763827223398204965123182432207493015567452912365023217746257005nat, 42238921504136483654088936687312387575733976966927355446748213041477379816945int, 15408017089803358431039332071244792288790492548486669713336756834920002260854int, 25025225652554236092570230323524494006992047913849236774351139523978941152823int, 0int, 75075676957662708277710690970573482020976143741547710323053418571936823458469int);
    lemma_pow_mod_step(3int, 3943855055308893592819860492729728829972062269811649460092870985028022nat, m, 1971927527654446796409930246364864414986031134905824730046435492514011nat, 75075676957662708277710690970573482020976143741547710323053418571936823458469int, 48676531426076941064127833002111043830973937173792919791164085771410673856224int, 3123514738401152919486779723450856984170986404796398658312191912901058843449int, 0int, 3123514738401152919486779723450856984170986404796398658312191912901058843449int);
    lemma_pow_mod_step(3int, 7887710110617787185639720985459457659944124539623298920185741970056045nat, m, 3943855055308893592819860492729728829972062269811649460092870985028022nat, 3123514738401152919486779723450856984170986404796398658312191912901058843449int, 84257434037774109719889836961211565856870938087130190224413631004221069906int, 107346749538196647431102698037552848854887372379694377981773521956563409941923int, 2int, 90456070139957551446166124095282730858122147807802005866405397853872560482443int);
    lemma_pow_mod_step(3int, 15775420221235574371279441970918915319888249079246597840371483940112091nat, m, 7887710110617787185639720985459457659944124539623298920185741970056045nat, 90456070139957551446166124095282730858122147807802005866405397853872560482443int, 70663727367378899499768868963326082109350493099105238760667442606698142113590int, 24070530494810225348029938953406789314487137667545585433070397792480411048079int, 0int, 72211591484430676044089816860220367943461413002636756299211193377441233144237int);
    lemma_pow_mod_step(3int, 31550840442471148742558883941837830639776498158493195680742967880224182nat, m, 15775420221235574371279441970918915319888249079246597840371483940112091nat, 72211591484430676044089816860220367943461413002636756299211193377441233144237int, 45033421359443136943855294944837624661701256303363511108991636181324531307980int, 81246461790212049639115957507537931902605769730459752082495904675902014541429int, 0int, 81246461790212049639115957507537931902605769730459752082495904675902014541429int);
    lemma_pow_mod_step(3int, 63101680884942297485117767883675661279552996316986391361485935760448365nat, m, 31550840442471148742558883941837830639776498158493195680742967880224182nat, 81246461790212049639115957507537931902605769730459752082495904675902014541429int, 57007241141488042336053447476548540916646743930979759802511261885061194722213int, 19572173981520582651367040732780230888275235676152454521000996583408809611822int, 0int, 58716521944561747954101122198340692664825707028457363563002989750226428835466int);
    lemma_pow_mod_step(3int, 126203361769884594970235535767351322559105992633972782722971871520896731nat, m, 63101680884942297485117767883675661279552996316986391361485935760448365nat, 58716521944561747954101122198340692664825707028457363563002989750226428835466int, 29774313357454623207842165727345545447498415052183143304202642063347601036878int, 95407369048282489482680044872378997397930138046969607795319119394753414849042int, 2int, 54637928670215077600898164599761176487250444809627695307042190168442575203800int);
    lemma_pow_mod_step(3int, 252406723539769189940471071534702645118211985267945565445943743041793462nat, m, 126203361769884594970235535767351322559105992633972782722971871520896731nat, 54637928670215077600898164599761176487250444809627695307042190168442575203800int, 25781582049643510569282452538286483747289939587428383895761830380211100701418int, 6610217136375996610403045535367662786240351184073998813372107291554505921866int, 0int, 6610217136375996610403045535367662786240351184073998813372107291554505921866int);
    lemma_pow_mod_step(3int, 504813447079538379880942143069405290236423970535891130891887486083586925nat, m, 252406723539769189940471071534702645118211985267945565445943743041793462nat, 6610217136375996610403045535367662786240351184073998813372107291554505921866int, 377357131025470335193201572328914938813804419656673250742681793510554221098int, 72877837013510126771057287574440697889342719963999593473467378053702959575982int, 1int, 102841421803214184889600877714634185814758175226358216380944550153200044056283int);
    lemma_pow_mod_step(3int, 1009626894159076759761884286138810580472847941071782261783774972167173851nat, m, 504813447079538379880942143069405290236423970535891130891887486083586925nat, 102841421803214184889600877714634185814758175226358216380944550153200044056283int, 91339210719571213081742568850347908661721382934705991142780159564234013076373int, 26994282051805136593033904604079715397277338576181317782191348078852073857790int, 0int, 80982846155415409779101713812239146191832015728543953346574044236556221573370int);
}

proof fn lemma_certificate_7_20()
    requires
        pow_mod(3int, 1009626894159076759761884286138810580472847941071782261783774972167173851nat, 115792089237316195423570985008687907853269984665640564039457584007908834671663int) == 80982846155415409779101713812239146191832015728543953346574044236556221573370int,
    ensures
        pow_mod(3int, 4135431758475578407984678036024568137616785166630020144266342285996744095416nat, 115792089237316195423570985008687907853269984665640564039457584007908834671663int) == 97159124722701363621209999070987597441029454589982655960642605300381886011150int,
{
    let m: int = 115792089237316195423570985008687907853269984665640564039457584007908834671663int;
    lemma_pow_mod_step(3int, 2019253788318153519523768572277621160945695882143564523567549944334347702nat, m, 1009626894159076759761884286138810580472847941071782261783774972167173851nat, 80982846155415409779101713812239146191832015728543953346574044236556221573370int, 56637905185306642504323505358565935055378189178062032540732326298718485596890int, 6478377244625009849187546289050940101662077388253976240473775974080569228830int, 0int, 6478377244625009849187546289050940101662077388253976240473775974080569228830int);
    lemma_pow_mod_step(3int, 4038507576636307039047537144555242321891391764287129047135099888668695405nat, m, 2019253788318153519523768572277621160945695882143564523567549944334347702nat, 6478377244625009849187546289050940101662077388253976240473775974080569228830int, 362454568357073128963951466525285934998877757985397935490808098754907793135int, 27918095912707790025147714411834025870644852927237079783517366245573252735395int, 0int, 83754287738123370075443143235502077611934558781711239350552098736719758206185int);
    lemma_pow_mod_step(3int, 8077015153272614078095074289110484643782783528574258094270199777337390811nat, m, 4038507576636307039047537144555242321891391764287129047135099888668695405nat, 83754287738123370075443143235502077611934558781711239350552098736719758206185int, 60580828627623696613011740089660803756237640260843006398718745222835714151771int, 46588464856456789609059366272445778795798270236400021916557272378729637289052int, 1int, 23973305332054173403607113808649428534124826043559501710214233128280077195493int);
    lemma_pow_mod_step(3int, 16154030306545228156190148578220969287565567057148516188540399554674781622nat, m, 8077015153272614078095074289110484643782783528574258094270199777337390811nat, 23973305332054173403607113808649428534124826043559501710214233128280077195493int, 4963373338622539093550756311472085458003687384730778955191859071187420094337int, 23137775574590816493034218426593550191955518582812487447079466311408258840618int, 0int, 23137775574590816493034218426593550191955518582812487447079466311408258840618int);
    lemma_pow_mod_step(3int, 32308060613090456312380297156441938575131134114297032377080799109349563245nat, m, 16154030306545228156190148578220969287565567057148516188540399554674781622nat, 23137775574590816493034218426593550191955518582812487447079466311408258840618int, 4623430340244716460431537788928628215398393904095729882527160686352231837799int, 45501842337168851415825781353173254459976015337877402698161293272444289032187int, 1int, 20713437774190358823906359050831855526658061347991644055026295809424032424898int);
    lemma_pow_mod_step(3int, 64616121226180912624760594312883877150262268228594064754161598218699126490nat, m, 32308060613090456312380297156441938575131134114297032377080799109349563245nat, 20713437774190358823906359050831855526658061347991644055026295809424032424898int, 3705317930190585751984300232662239650917140167832003936498554170849942825261int, 25837442243664888030223285406769590996799320351612590648196608263474493031361int, 0int, 25837442243664888030223285406769590996799320351612590648196608263474493031361int);
    lemma_pow_mod_step(3int, 129232242452361825249521188625767754300524536457188129508323196437398252981nat, m, 64616121226180912624760594312883877150262268228594064754161598218699126490nat, 25837442243664888030223285406769590996799320351612590648196608263474493031361int, 5765276592656734750449914665368624226895104286240479581736649382469899636116int, 52510073027341620683422354180224382857275559307263516727540968114102892931413int, 1int, 41738129844708666626696077531985240718556693256149986143165320334399844122576int);
    lemma_pow_mod_step(3int, 258464484904723650499042377251535508601049072914376259016646392874796505963nat, m, 129232242452361825249521188625767754300524536457188129508323196437398252981nat, 41738129844708666626696077531985240718556693256149986143165320334399844122576int, 15044822961639289171312777508619301274844309802692772286559244031032361853373int, 111700644157604267874163564496198947362240872890811778652124869577914708806477int, 2int, 103517753998180412775348723471221026380182649341154207877459440717926457076105int);
    lemma_pow_mod_step(3int, 516928969809447300998084754503071017202098145828752518033292785749593011927nat, m, 258464484904723650499042377251535508601049072914376259016646392874796505963nat, 103517753998180412775348723471221026380182649341154207877459440717926457076105int, 92544537916277503112271660057945639069957311820225019367913796343711475059770int, 2168638912891018476516982626890333467375879037102736574142819293544511673515int, 0int, 6505916738673055429550947880671000402127637111308209722428457880633535020545int);
    lemma_pow_mod_step(3int, 1033857939618894601996169509006142034404196291657505036066585571499186023854nat, m, 516928969809447300998084754503071017202098145828752518033292785749593011927nat, 6505916738673055429550947880671000402127637111308209722428457880633535020545int, 365542697168172202654245268444587676789788826365055075512740249163990872909int, 73931739806335891604656979877981700066352554097963002087812489870973795419358int, 0int, 73931739806335891604656979877981700066352554097963002087812489870973795419358int);
    lemma_pow_mod_step(3int, 2067715879237789203992339018012284068808392583315010072133171142998372047708nat, m, 1033857939618894601996169509006142034404196291657505036066585571499186023854nat, 73931739806335891604656979877981700066352554097963002087812489870973795419358int, 47204452279890813585338743539687469140936969282877143463862043377003628464027int, 34738055411970501051665129839382288881126368061563138972744909630003529365263int, 0int, 34738055411970501051665129839382288881126368061563138972744909630003529365263int);
    lemma_pow_mod_step(3int, 4135431758475578407984678036024568137616785166630020144266342285996744095416nat, m, 2067715879237789203992339018012284068808392583315010072133171142998372047708nat, 34738055411970501051665129839382288881126368061563138972744909630003529365263int, 10421545217410591461992731551241286582397779545255025237349350691460430822813int, 97159124722701363621209999070987597441029454589982655960642605300381886011150int, 0int, 97159124722701363621209999070987597441029454589982655960642605300381886011150int);
}

proof fn lemma_certificate_7_21()
    requires
        pow_mod(3int, 4135431758475578407984678036024568137616785166630020144266342285996744095416nat, 115792089237316195423570985008687907853269984665640564039457584007908834671663int) == 97159124722701363621209999070987597441029454589982655960642605300381886011150int,
    ensures
        pow_mod(3int, 16541727033902313631938712144098272550467140666520080577065369143986976381666nat, 115792089237316195423570985008687907853269984665640564039457584007908834671663int) == 73577166854750709961935200508434814177540983658115200205126683779095497532107int,
{
    let m: int = 115792089237316195423570985008687907853269984665640564039457584007908834671663int;
    lemma_pow_mod_step(3int, 8270863516951156815969356072049136275233570333260040288532684571993488190833nat, m, 4135431758475578407984678036024568137616785166630020144266342285996744095416nat, 97159124722701363621209999070987597441029454589982655960642605300381886011150int, 81524528826268505386688730656674114600970309582344424821677659753436355385977int, 74311138763173685449291855107894575106324051439368032736588262491269494852749int, 1int, 107141327052204860924304580314995817465702169652463534170307203465899649886584int);
    lemma_pow_mod_step(3int, 16541727033902313631938712144098272550467140666520080577065369143986976381666nat, m, 8270863516951156815969356072049136275233570333260040288532684571993488190833nat, 107141327052204860924304580314995817465702169652463534170307203465899649886584int, 99136858468636342464332132860993975009270050953508982808245280365288442624923int, 73577166854750709961935200508434814177540983658115200205126683779095497532107int, 0int, 73577166854750709961935200508434814177540983658115200205126683779095497532107int);
}

proof fn lemma_certificate_7()
    ensures
        pow_mod(3int, 16541727033902313631938712144098272550467140666520080577065369143986976381666nat, 115792089237316195423570985008687907853269984665640564039457584007908834671663int) == 73577166854750709961935200508434814177540983658115200205126683779095497532107int,
{
    lemma_pow_mod_zero(3int, 115792089237316195423570985008687907853269984665640564039457584007908834671663int);
    lemma_certificate_7_0();
    lemma_certificate_7_1();
    lemma_certificate_7_2();
    lemma_certificate_7_3();
    lemma_certificate_7_4();
    lemma_certificate_7_5();
    lemma_certificate_7_6();
    lemma_certificate_7_7();
    lemma_certificate_7_8();
    lemma_certificate_7_9();
    lemma_certificate_7_10();
    lemma_certificate_7_11();
    lemma_certificate_7_12();
    lemma_certificate_7_13();
    lemma_certificate_7_14();
    lemma_certificate_7_15();
    lemma_certificate_7_16();
    lemma_certificate_7_17();
    lemma_certificate_7_18();
    lemma_certificate_7_19();
    lemma_certificate_7_20();
    lemma_certificate_7_21();
}

proof fn lemma_certificate_13441_0()
    requires
        pow_mod(3int, 0nat, 115792089237316195423570985008687907853269984665640564039457584007908834671663int) == 1int,
    ensures
        pow_mod(3int, 2496nat, 115792089237316195423570985008687907853269984665640564039457584007908834671663int) == 58808921152402173952317179872164339523096435892106583897581993850967318817348int,
{
    let m: int = 115792089237316195423570985008687907853269984665640564039457584007908834671663int;
    lemma_pow_mod_step(3int, 1nat, m, 0nat, 1int, 0int, 1int, 0int, 3int);
    lemma_pow_mod_step(3int, 2nat, m, 1nat, 3int, 0int, 9int, 0int, 9int);
    lemma_pow_mod_step(3int, 4nat, m, 2nat, 9int, 0int, 81int, 0int, 81int);
    lemma_pow_mod_step(3int, 9nat, m, 4nat, 81int, 0int, 6561int, 0int, 19683int);
    lemma_pow_mod_step(3int, 19nat, m, 9nat, 19683int, 0int, 387420489int, 0int, 1162261467int);
    lemma_pow_mod_step(3int, 39nat, m, 19nat, 1162261467int, 0int, 1350851717672992089int, 0int, 4052555153018976267int);
    lemma_pow_mod_step(3int, 78nat, m, 39nat, 4052555153018976267int, 0int, 16423203268260658146231467800709255289int, 0int, 16423203268260658146231467800709255289int);
    lemma_pow_mod_step(3int, 156nat, m, 78nat, 16423203268260658146231467800709255289int, 0int, 269721605590607563262106870407286853611938890184108047911269431464974473521int, 0int, 269721605590607563262106870407286853611938890184108047911269431464974473521int);
    lemma_pow_mod_step(3int, 312nat, m, 156nat, 269721605590607563262106870407286853611938890184108047911269431464974473521int, 628279056035291580952463280851546384877916076052457094099982244448807489int, 100858795219160253747612231227664431944063618798895076654397743946453919653234int, 0int, 100858795219160253747612231227664431944063618798895076654397743946453919653234int);
    lemma_pow_mod_step(3int, 624nat, m, 312nat, 100858795219160253747612231227664431944063618798895076654397743946453919653234int, 87851395031071115975470642170420143514444230037300831315313069236663154587172int, 97910637208239845789609957059696720818686314997263305644389995153797874951720int, 0int, 97910637208239845789609957059696720818686314997263305644389995153797874951720int);
    lemma_pow_mod_step(3int, 1248nat, m, 624nat, 97910637208239845789609957059696720818686314997263305644389995153797874951720int, 82790568351142004575119670849304119106404357139402633167950778293824860528591int, 101172913124326555202011679363038859183578508223927051586990161836422221941567int, 0int, 101172913124326555202011679363038859183578508223927051586990161836422221941567int);
    lemma_pow_mod_step(3int, 2496nat, m, 1248nat, 101172913124326555202011679363038859183578508223927051586990161836422221941567int, 88399461634066422353380028250580962058012507103913312851019973026254257255507int, 58808921152402173952317179872164339523096435892106583897581993850967318817348int, 0int, 58808921152402173952317179872164339523096435892106583897581993850967318817348int);
}

proof fn lemma_certificate_13441_1()
    requires
        pow_mod(3int, 2496nat, 115792089237316195423570985008687907853269984665640564039457584007908834671663int) == 58808921152402173952317179872164339523096435892106583897581993850967318817348int,
    ensures
        pow_mod(3int, 10225351nat, 115792089237316195423570985008687907853269984665640564039457584007908834671663int) == 46467179224223486749765033912402633130130442181682246421345940539004428214514int,
{
    let m: int = 115792089237316195423570985008687907853269984665640564039457584007908834671663int;
    lemma_pow_mod_step(3int, 4992nat, m, 2496nat, 58808921152402173952317179872164339523096435892106583897581993850967318817348int, 29868095738572200682739665318216603184710105401626330365394660045898934209586int, 59205307577509001521193594673950477526349803952590205885522240842802648591586int, 0int, 59205307577509001521193594673950477526349803952590205885522240842802648591586int);
    lemma_pow_mod_step(3int, 9985nat, m, 4992nat, 59205307577509001521193594673950477526349803952590205885522240842802648591586int, 30272089124874392546192556344008757928545298913390650089534119920140977957671int, 31186395500217363861627644199025283301170268674059162268452221870345832818523int, 0int, 93559186500652091584882932597075849903510806022177486805356665611037498455569int);
    lemma_pow_mod_step(3int, 19971nat, m, 9985nat, 93559186500652091584882932597075849903510806022177486805356665611037498455569int, 75595158843052266526921618929716315467050604396430092791900888110091934428429int, 29251623947034557997770689852147721073726883058476884179253251479264479206334int, 0int, 87754871841103673993312069556443163221180649175430652537759754437793437619002int);
    lemma_pow_mod_step(3int, 39942nat, m, 19971nat, 87754871841103673993312069556443163221180649175430652537759754437793437619002int, 66506421833925800616752997159326232470002228734467861882127955886059192409984int, 4948876134705763320165795175745549265115253286634225836093380196812588392612int, 0int, 4948876134705763320165795175745549265115253286634225836093380196812588392612int);
    lemma_pow_mod_step(3int, 79885nat, m, 39942nat, 4948876134705763320165795175745549265115253286634225836093380196812588392612int, 211511642617183615589146674162907691266558847294128686668497019548036711715int, 94893813970627092171340164899990759547245175617421712161879340158981645550499int, 2int, 53097263437248885666878524682596462935195557520984008406722852461127267308171int);
    lemma_pow_mod_step(3int, 159771nat, m, 79885nat, 53097263437248885666878524682596462935195557520984008406722852461127267308171int, 24348117415399637170894416376315653519562306202390445378283970721860680794140int, 114070656373560737581644566897122998231503100731473359332022240439215288910421int, 2int, 110627790646049821897791730673993178987969332863138949917151553301828197387937int);
    lemma_pow_mod_step(3int, 319542nat, m, 159771nat, 110627790646049821897791730673993178987969332863138949917151553301828197387937int, 105693818496904167475536531244775334617168454791161121374739412712175119303223int, 83407580169437066548891826187768092251244100903549891562819544396141130446120int, 0int, 83407580169437066548891826187768092251244100903549891562819544396141130446120int);
    lemma_pow_mod_step(3int, 639084nat, m, 319542nat, 83407580169437066548891826187768092251244100903549891562819544396141130446120int, 60080308383269958879491790050384879741837438458359440721329179567361558799890int, 84809516454548745795947602438471535803464773786820985171181647526133752537330int, 0int, 84809516454548745795947602438471535803464773786820985171181647526133752537330int);
    lemma_pow_mod_step(3int, 1278168nat, m, 639084nat, 84809516454548745795947602438471535803464773786820985171181647526133752537330int, 62116973004200751233978302376656330436475052555353880460783416797027239228481int, 20061643704050721571400648792197661472720182409709416325869450351329970294997int, 0int, 20061643704050721571400648792197661472720182409709416325869450351329970294997int);
    lemma_pow_mod_step(3int, 2556337nat, m, 1278168nat, 20061643704050721571400648792197661472720182409709416325869450351329970294997int, 3475794855755780902806879781194898720270420821552224889617759667149513798567int, 4194938743012684354612489594841857170377567874220281937759525254679838323088int, 0int, 12584816229038053063837468784525571511132703622660845813278575764039514969264int);
    lemma_pow_mod_step(3int, 5112675nat, m, 2556337nat, 12584816229038053063837468784525571511132703622660845813278575764039514969264int, 1367775644794388758769740942084253890695811529074397131772083415541821404225int, 106827116309891237002002939436704167872148935396434949457830991459121388725521int, 2int, 88897170455041320158866848292736687909906836858023720294577806361546496833237int);
    lemma_pow_mod_step(3int, 10225351nat, m, 5112675nat, 88897170455041320158866848292736687909906836858023720294577806361546496833237int, 68249108958696241487710641387139539224013513333175679202369729012766740188637int, 15489059741407828916588344637467544376710147393894082140448646846334809404838int, 0int, 46467179224223486749765033912402633130130442181682246421345940539004428214514int);
}

proof fn lemma_certificate_13441_2()
    requires
        pow_mod(3int, 10225351nat, 115792089237316195423570985008687907853269984665640564039457584007908834671663int) == 46467179224223486749765033912402633130130442181682246421345940539004428214514int,
    ensures
        pow_mod(3int, 41883040950nat, 115792089237316195423570985008687907853269984665640564039457584007908834671663int) == 56961828298792416543845640886153111715284843411833775784318300493842907947568int,
{
    let m: int = 115792089237316195423570985008687907853269984665640564039457584007908834671663int;
    lemma_pow_mod_step(3int, 20450703nat, m, 10225351nat, 46467179224223486749765033912402633130130442181682246421345940539004428214514int, 18647204306252936317964829510113563180121550667382658664024399611558546080449int, 17846555210369660956114255506544247744374684232016972331067429306259501639509int, 0int, 53539665631108982868342766519632743233124052696050916993202287918778504918527int);
    lemma_pow_mod_step(3int, 40901407nat, m, 20450703nat, 53539665631108982868342766519632743233124052696050916993202287918778504918527int, 24755540855783866800043395626989299808983453523164565649513388690142017197950int, 79928666191432411183206425792266781955807166190459566992651791153343381158879int, 2int, 8201820099664842702477307359424530160881529240097572899040205444212474133311int);
    lemma_pow_mod_step(3int, 81802814nat, m, 40901407nat, 8201820099664842702477307359424530160881529240097572899040205444212474133311int, 580953788729007794505447989189010661928752533316965009882822666889345633966int, 50532071558504094250541369327220621036819355123211608921563104933848409317263int, 0int, 50532071558504094250541369327220621036819355123211608921563104933848409317263int);
    lemma_pow_mod_step(3int, 163605628nat, m, 81802814nat, 50532071558504094250541369327220621036819355123211608921563104933848409317263int, 22052372254553532731670114111602730434749961522622665516295769278314365304022int, 49985396507707604695945078322193128705543051448243045286714453045596246482583int, 0int, 49985396507707604695945078322193128705543051448243045286714453045596246482583int);
    lemma_pow_mod_step(3int, 327211257nat, m, 163605628nat, 49985396507707604695945078322193128705543051448243045286714453045596246482583int, 21577811407409564006309560281887642592924036909519790070775350188042068271839int, 29761577443092742397596018120794851418346461597274960835724192921372328153632int, 0int, 89284732329278227192788054362384554255039384791824882507172578764116984460896int);
    lemma_pow_mod_step(3int, 654422514nat, m, 327211257nat, 89284732329278227192788054362384554255039384791824882507172578764116984460896int, 68845492637866739412832752259782002561228245312149803550233114695849768229386int, 13866003780140225533258917092821796106629761281055267704776141948453575033898int, 0int, 13866003780140225533258917092821796106629761281055267704776141948453575033898int);
    lemma_pow_mod_step(3int, 1308845029nat, m, 654422514nat, 13866003780140225533258917092821796106629761281055267704776141948453575033898int, 1660442108759374917025591083443184929943805216960158705313486342866489428727int, 20633032645074371670540887766639745311185650780093804259307686692008364011403int, 0int, 61899097935223115011622663299919235933556952340281412777923060076025092034209int);
    lemma_pow_mod_step(3int, 2617690059nat, m, 1308845029nat, 61899097935223115011622663299919235933556952340281412777923060076025092034209int, 33089465354940409387561267131484182955970158053072662460672640242445881725927int, 67559143612842062127038749099776222512598344260543237973161806030348826949080int, 1int, 86885341601209990957545262290640759684525048115989149880027834083137646175577int);
    lemma_pow_mod_step(3int, 5235380118nat, m, 2617690059nat, 86885341601209990957545262290640759684525048115989149880027834083137646175577int, 65194976918389715141594458890944576113809196990714440555451693245257693649321int, 10307853719013563688013256799186514993744752597780810325305102580683013392106int, 0int, 10307853719013563688013256799186514993744752597780810325305102580683013392106int);
    lemma_pow_mod_step(3int, 10470760237nat, m, 5235380118nat, 10307853719013563688013256799186514993744752597780810325305102580683013392106int, 917608871145059916811746851745826333150003251745033417017325645417004275691int, 29163470649594930774049563521977695445047989411136697487958645304447385671103int, 0int, 87490411948784792322148690565933086335143968233410092463875935913342157013309int);
    lemma_pow_mod_step(3int, 20941520475nat, m, 10470760237nat, 87490411948784792322148690565933086335143968233410092463875935913342157013309int, 66106175589249440667559169336986140135357657065940403585901742421633282718342int, 76289217602614141016731754500881963633954193706172197229947790079331525386735int, 1int, 113075563570526227626624278493957983048592596452876027650385786230085741488542int);
    lemma_pow_mod_step(3int, 41883040950nat, m, 20941520475nat, 113075563570526227626624278493957983048592596452876027650385786230085741488542int, 110422768610617317569808636025675711644250295636814340343122915832232849760492int, 56961828298792416543845640886153111715284843411833775784318300493842907947568int, 0int, 56961828298792416543845640886153111715284843411833775784318300493842907947568int);
}

proof fn lemma_certificate_13441_3()
    requires
        pow_mod(3int, 41883040950nat, 115792089237316195423570985008687907853269984665640564039457584007908834671663int) == 56961828298792416543845640886153111715284843411833775784318300493842907947568int,
    ensures
        pow_mod(3int, 171552935734967nat, 115792089237316195423570985008687907853269984665640564039457584007908834671663int) == 109248312973010892169088355160441375158217113071750289053504764282046675325054int,
{
    let m: int = 115792089237316195423570985008687907853269984665640564039457584007908834671663int;
    lemma_pow_mod_step(3int, 83766081901nat, m, 41883040950nat, 56961828298792416543845640886153111715284843411833775784318300493842907947568int, 28021343293074106177120124179040166492239039558911422201093743934664955035262int, 19738464442521390174569140099603656411811406465167267790884521902299879933918int, 0int, 59215393327564170523707420298810969235434219395501803372653565706899639801754int);
    lemma_pow_mod_step(3int, 167532163803nat, m, 83766081901nat, 59215393327564170523707420298810969235434219395501803372653565706899639801754int, 30282403832887291824901886442671855303148952510431254675471465610312985852422int, 85493166543154655142440919267629714456371453054109399525690050742863878158730int, 2int, 24895321154831574580180787785513327662574389831047070498154984212773965132864int);
    lemma_pow_mod_step(3int, 335064327607nat, m, 167532163803nat, 24895321154831574580180787785513327662574389831047070498154984212773965132864int, 5352498771586803997538905900894622119241262604176912002935514288597963984750int, 7879261228145268252887532347461866006498259320707991534259197284623783703246int, 0int, 23637783684435804758662597042385598019494777962123974602777591853871351109738int);
    lemma_pow_mod_step(3int, 670128655214nat, m, 335064327607nat, 23637783684435804758662597042385598019494777962123974602777591853871351109738int, 4825414423320668623563330227903640707578130015719996675526625706095466289454int, 63242895115382358315943604454370050030816443382080851199456480382833108886642int, 0int, 63242895115382358315943604454370050030816443382080851199456480382833108886642int);
    lemma_pow_mod_step(3int, 1340257310429nat, m, 670128655214nat, 63242895115382358315943604454370050030816443382080851199456480382833108886642int, 34541770590026510164691794110668296619327568335301487754089251491190556617596int, 15004785637758320933752943698338544168445808126290725376393083798800297654016int, 0int, 45014356913274962801258831095015632505337424378872176129179251396400892962048int);
    lemma_pow_mod_step(3int, 2680514620858nat, m, 1340257310429nat, 45014356913274962801258831095015632505337424378872176129179251396400892962048int, 17499402089229203826810984528436842660702612256756343050532030550113713455824int, 19392341189906851803808916778244440115462136762820542353027762330149073238992int, 0int, 19392341189906851803808916778244440115462136762820542353027762330149073238992int);
    lemma_pow_mod_step(3int, 5361029241717nat, m, 2680514620858nat, 19392341189906851803808916778244440115462136762820542353027762330149073238992int, 3247742564304336748087946249683623747226688036150500847623040462532115404308int, 46932002466969612785853805717162671393114647278241811623533914080480273451860int, 1int, 25003918163592642933990432142800106326073957169084870831144158233531985683917int);
    lemma_pow_mod_step(3int, 10722058483435nat, m, 5361029241717nat, 25003918163592642933990432142800106326073957169084870831144158233531985683917int, 5399297375577163775667446801422600656976221784040183858971470924643226650909int, 861688381025086970591625278136725113959914956896939221142924155866096971222int, 0int, 2585065143075260911774875834410175341879744870690817663428772467598290913666int);
    lemma_pow_mod_step(3int, 21444116966870nat, m, 10722058483435nat, 2585065143075260911774875834410175341879744870690817663428772467598290913666int, 57711730032323632797933526267802013946415106201498943139368330002606689961int, 100981039443389543848461357911021028423833762443249871782960948687464392284413int, 0int, 100981039443389543848461357911021028423833762443249871782960948687464392284413int);
    lemma_pow_mod_step(3int, 42888233933741nat, m, 21444116966870nat, 100981039443389543848461357911021028423833762443249871782960948687464392284413int, 88064481729561568577396775327793111563676472680390073760654010514342829146820int, 74448347387078816917314870476637064842800424088787316421664237675663562192909int, 1int, 107552952923920255328373626421223286675131287600721385225535129019081851907064int);
    lemma_pow_mod_step(3int, 85776467867483nat, m, 42888233933741nat, 107552952923920255328373626421223286675131287600721385225535129019081851907064int, 99900068811670738119342697538030363858949185864227855786453175124850527355281int, 45047479448691766771476399161212928192332100606289500098614063265806308997793int, 1int, 19350349108759104890858212474950876723726317153227936256384605789510092321716int);
    lemma_pow_mod_step(3int, 171552935734967nat, m, 85776467867483nat, 19350349108759104890858212474950876723726317153227936256384605789510092321716int, 3233692500905192957313489458503080143070071219530367956680399524725157832826int, 36416104324336964056362785053480458386072371023916763017834921427348891775018int, 0int, 109248312973010892169088355160441375158217113071750289053504764282046675325054int);
}

proof fn lemma_certificate_13441_4()
    requires
        pow_mod(3int, 171552935734967nat, 115792089237316195423570985008687907853269984665640564039457584007908834671663int) == 109248312973010892169088355160441375158217113071750289053504764282046675325054int,
    ensures
        pow_mod(3int, 702680824770425595nat, 115792089237316195423570985008687907853269984665640564039457584007908834671663int) == 82516334755068159972914703175102555714554730462291778421946859612147922125941int,
{
    let m: int = 115792089237316195423570985008687907853269984665640564039457584007908834671663int;
    lemma_pow_mod_step(3int, 343105871469934nat, m, 171552935734967nat, 109248312973010892169088355160441375158217113071750289053504764282046675325054int, 103074346149741959719675448636783826505183507373037822734793424349118655632945int, 12826084895284533019969008496027531385177559072750693308399242214362039365381int, 0int, 12826084895284533019969008496027531385177559072750693308399242214362039365381int);
    lemma_pow_mod_step(3int, 686211742939868nat, m, 343105871469934nat, 12826084895284533019969008496027531385177559072750693308399242214362039365381int, 1420722735245630952248602831264311279620566733599927729440845376016563353206int, 62600227408357694389341758119897550582335057209872209950280382750863912873583int, 0int, 62600227408357694389341758119897550582335057209872209950280382750863912873583int);
    lemma_pow_mod_step(3int, 1372423485879737nat, m, 686211742939868nat, 62600227408357694389341758119897550582335057209872209950280382750863912873583int, 33843317772309388808586564883028691974465209972155515316346260793003443279712int, 84549060365960030772184517004461570565065982545024414834660092912937150056833int, 2int, 22063002623247701469411580996008895988657978303792116425065110722993780827173int);
    lemma_pow_mod_step(3int, 2744846971759474nat, m, 1372423485879737nat, 22063002623247701469411580996008895988657978303792116425065110722993780827173int, 4203880316519603284256224678051687973743517371492993958507633622986497516852int, 87264432500082087402738737330883512045351133077007717260862044094099865807053int, 0int, 87264432500082087402738737330883512045351133077007717260862044094099865807053int);
    lemma_pow_mod_step(3int, 5489693943518949nat, m, 2744846971759474nat, 87264432500082087402738737330883512045351133077007717260862044094099865807053int, 65765124627419526934129351771787409599354230272176992791991271890695859563945int, 51609198788313512025003685029061978951003369745163307718578990375834596554274int, 1int, 39035507127624340651440070078498028999740124569849359116279387119594954991159int);
    lemma_pow_mod_step(3int, 10979387887037899nat, m, 5489693943518949nat, 39035507127624340651440070078498028999740124569849359116279387119594954991159int, 13159541612448483877364716406762093604774084808706079741525538517809285489837int, 14813731908454425117258111541858373171399983986403200619104510279365749774350int, 0int, 44441195725363275351774334625575119514199951959209601857313530838097249323050int);
    lemma_pow_mod_step(3int, 21958775774075799nat, m, 10979387887037899nat, 44441195725363275351774334625575119514199951959209601857313530838097249323050int, 17056604561752388422720939799847121174647722414280782264064229326443453161513int, 7877432784857230806519324691804656421915273540908763800747742463096597996381int, 0int, 23632298354571692419557974075413969265745820622726291402243227389289793989143int);
    lemma_pow_mod_step(3int, 43917551548151599nat, m, 21958775774075799nat, 23632298354571692419557974075413969265745820622726291402243227389289793989143int, 4823175133966832123679660968577677229059475148000788250303620498603305564763int, 93483184158790312015228356945002696754759112725532471275329923018571314463580int, 2int, 48865374001738545198543100817632274557737368845316285747074601039896274047414int);
    lemma_pow_mod_step(3int, 87835103096303199nat, m, 43917551548151599nat, 48865374001738545198543100817632274557737368845316285747074601039896274047414int, 20621657248414717530191221207405992660255772755381825270579282280360898001188int, 19725045812706955448749972902711073186649661675498951735060045990344156151752int, 0int, 59175137438120866346249918708133219559948985026496855205180137971032468455256int);
    lemma_pow_mod_step(3int, 175670206192606398nat, m, 87835103096303199nat, 59175137438120866346249918708133219559948985026496855205180137971032468455256int, 30241244577975932889741779603122067712069398287053298103801348853064951549198int, 68605540511022307274320791535738676502544145400748630347009102924343353049262int, 0int, 68605540511022307274320791535738676502544145400748630347009102924343353049262int);
    lemma_pow_mod_step(3int, 351340412385212797nat, m, 175670206192606398nat, 68605540511022307274320791535738676502544145400748630347009102924343353049262int, 40648028892224989378807954705855920817700273722434111655459358337372723241557int, 38429781556184287370645821184120466901216285006358679287610312421888266845353int, 0int, 115289344668552862111937463552361400703648855019076037862830937265664800536059int);
    lemma_pow_mod_step(3int, 702680824770425595nat, m, 351340412385212797nat, 115289344668552862111937463552361400703648855019076037862830937265664800536059int, 114788782909540055141280903834918164302277837085592602938861979912797602224984int, 104700171076566850273352224397492790473698233264524302166954009209321863823089int, 2int, 82516334755068159972914703175102555714554730462291778421946859612147922125941int);
}

proof fn lemma_certificate_13441_5()
    requires
        pow_mod(3int, 702680824770425595nat, 115792089237316195423570985008687907853269984665640564039457584007908834671663int) == 82516334755068159972914703175102555714554730462291778421946859612147922125941int,
    ensures
        pow_mod(3int, 2878180658259663238642nat, 115792089237316195423570985008687907853269984665640564039457584007908834671663int) == 7258719843885201370754846776508308719477640721042314291536227831786817206089int,
{
    let m: int = 115792089237316195423570985008687907853269984665640564039457584007908834671663int;
    lemma_pow_mod_step(3int, 1405361649540851190nat, m, 702680824770425595nat, 82516334755068159972914703175102555714554730462291778421946859612147922125941int, 58803201032632873429868022062796336530638867999354838322612606197482502244233int, 12757507793072351094360382098022903239770435620360507669944099170745874866002int, 0int, 12757507793072351094360382098022903239770435620360507669944099170745874866002int);
    lemma_pow_mod_step(3int, 2810723299081702381nat, m, 1405361649540851190nat, 12757507793072351094360382098022903239770435620360507669944099170745874866002int, 1405571020976545323864884398565997069465881807835042139730838465067023902286int, 112895706106256229750149409018490599489527474308179965543344248888831650342386int, 2int, 107102939844136298403306257038095982762042453593258768551117578650677281683832int);
    lemma_pow_mod_step(3int, 5621446598163404762nat, m, 2810723299081702381nat, 107102939844136298403306257038095982762042453593258768551117578650677281683832int, 99065832552228608518781112543014963695368285983452770701688091887301476991338int, 89233927433689946099318488127713792090344850016221104302739080970688885149130int, 0int, 89233927433689946099318488127713792090344850016221104302739080970688885149130int);
    lemma_pow_mod_step(3int, 11242893196326809525nat, m, 5621446598163404762nat, 89233927433689946099318488127713792090344850016221104302739080970688885149130int, 68767165854668024851995683081153629728231404396552758686188180279669177371266int, 51422335242132354712365444994585049370509618843873426653541587554017779121542int, 1int, 38474916489080868713525349975067240258258871865979715921167178654144502692963int);
    lemma_pow_mod_step(3int, 22485786392653619051nat, m, 11242893196326809525nat, 38474916489080868713525349975067240258258871865979715921167178654144502692963int, 12784286116539695373630820447107279870558571533592367873430817647463393717972int, 25700670618746972929488698686198888976436028681827785110465063588779607491933int, 0int, 77102011856240918788466096058596666929308086045483355331395190766338822475799int);
    lemma_pow_mod_step(3int, 44971572785307238103nat, m, 22485786392653619051nat, 77102011856240918788466096058596666929308086045483355331395190766338822475799int, 51339605938849546581305789387420172490277255704927059259843438450174943867947int, 91357310375519096565674462022891576159780777711307243872885395410496965802540int, 2int, 42487752651924898849881416051298912772802363802640603539741018215673228064294int);
    lemma_pow_mod_step(3int, 89943145570614476207nat, m, 44971572785307238103nat, 42487752651924898849881416051298912772802363802640603539741018215673228064294int, 15590090284245328386438280186427411135176106453787822471528595345377773407032int, 21322199546502897647594208615750183483728228103103092359582940671105622384220int, 0int, 63966598639508692942782625847250550451184684309309277078748822013316867152660int);
    lemma_pow_mod_step(3int, 179886291141228952415nat, m, 89943145570614476207nat, 63966598639508692942782625847250550451184684309309277078748822013316867152660int, 35336833184881849373756833682705245860031707428316255751901098784871438526716int, 984441125759720061181886745248257388250530243371333246837865488431431426892int, 0int, 2953323377279160183545660235744772164751590730113999740513596465294294280676int);
    lemma_pow_mod_step(3int, 359772582282457904830nat, m, 179886291141228952415nat, 2953323377279160183545660235744772164751590730113999740513596465294294280676int, 75325689589273915337001768005145474970574275034803368424786792435295515493int, 105034261272929736571810030023510137954609486832784785567303691872147282442117int, 0int, 105034261272929736571810030023510137954609486832784785567303691872147282442117int);
    lemma_pow_mod_step(3int, 719545164564915809660nat, m, 359772582282457904830nat, 105034261272929736571810030023510137954609486832784785567303691872147282442117int, 95275904544217630135397894116359437640031105868459129567717154986675784257371int, 8170727604758670568379581412962499539595404624874467225867872826150382863716int, 0int, 8170727604758670568379581412962499539595404624874467225867872826150382863716int);
    lemma_pow_mod_step(3int, 1439090329129831619321nat, m, 719545164564915809660nat, 8170727604758670568379581412962499539595404624874467225867872826150382863716int, 576557431780498802245854305199145136713601246513896587711867179522573182780int, 89912074535813348579904688353217938020257646528599773155691093402674843765516int, 2int, 38152045132807654892572095042277998354232970254518191388158112192206861953222int);
    lemma_pow_mod_step(3int, 2878180658259663238642nat, m, 1439090329129831619321nat, 38152045132807654892572095042277998354232970254518191388158112192206861953222int, 12570621684116780698774660932695524402921725829511325929330824340555067231765int, 7258719843885201370754846776508308719477640721042314291536227831786817206089int, 0int, 7258719843885201370754846776508308719477640721042314291536227831786817206089int);
}

proof fn lemma_certificate_13441_6()
    requires
        pow_mod(3int, 2878180658259663238642nat, 115792089237316195423570985008687907853269984665640564039457584007908834671663int) == 7258719843885201370754846776508308719477640721042314291536227831786817206089int,
    ensures
        pow_mod(3int, 11789027976231580625480834nat, 115792089237316195423570985008687907853269984665640564039457584007908834671663int) == 62626526641334364037461066330326534292985323821301443442462300043307087355170int,
{
    let m: int = 115792089237316195423570985008687907853269984665640564039457584007908834671663int;
    lemma_pow_mod_step(3int, 5756361316519326477285nat, m, 2878180658259663238642nat, 7258719843885201370754846776508308719477640721042314291536227831786817206089int, 455031203936795095236552352721769088611537302377366948959592231295727896820int, 46626992260555121286097104474704201065682589370781451073653667814705656864261int, 1int, 24088887544349168434720328415424695343777783446703789181503419436208135921120int);
    lemma_pow_mod_step(3int, 11512722633038652954571nat, m, 5756361316519326477285nat, 24088887544349168434720328415424695343777783446703789181503419436208135921120int, 5011348417205137131076799620377866167475590180027675508986254665105438314410int, 21380041656938591239633792649627615303463239477728029596205643677958350490570int, 0int, 64140124970815773718901377948882845910389718433184088788616931033875051471710int);
    lemma_pow_mod_step(3int, 23025445266077305909142nat, m, 11512722633038652954571nat, 64140124970815773718901377948882845910389718433184088788616931033875051471710int, 35528814259843797527471599346055704590681265278509645529019399760210446242536int, 101958480345369232508237181311810242436550986239529244216237666631919305866732int, 0int, 101958480345369232508237181311810242436550986239529244216237666631919305866732int);
    lemma_pow_mod_step(3int, 46050890532154611818284nat, m, 23025445266077305909142nat, 101958480345369232508237181311810242436550986239529244216237666631919305866732int, 89777564104844624939233361780452229887163504914015812496095643531747003492604int, 95604013674767860018206383086574253755501827020215367913871296179003155479372int, 0int, 95604013674767860018206383086574253755501827020215367913871296179003155479372int);
    lemma_pow_mod_step(3int, 92101781064309223636569nat, m, 46050890532154611818284nat, 95604013674767860018206383086574253755501827020215367913871296179003155479372int, 78935681106785148804135721989560643287205190430510865797545140587684230854524int, 74317486258760239717894252323073110266710551240228591520184988364053659360972int, 1int, 107160369538964523730111771960531422946861669055045210521097381084252143411253int);
    lemma_pow_mod_step(3int, 184203562128618447273138nat, m, 92101781064309223636569nat, 107160369538964523730111771960531422946861669055045210521097381084252143411253int, 99172101266713393583920040417429222711798054342279038576631138131874733565338int, 58225915444923932205397759576497356225865717673667863300995152476732899412915int, 0int, 58225915444923932205397759576497356225865717673667863300995152476732899412915int);
    lemma_pow_mod_step(3int, 368407124257236894546276nat, m, 184203562128618447273138nat, 58225915444923932205397759576497356225865717673667863300995152476732899412915int, 29278832878220981823463298706487918207288385929376085489585336952582388781926int, 5279182371030684165544895204346704987088569704437415480774238471220950034287int, 0int, 5279182371030684165544895204346704987088569704437415480774238471220950034287int);
    lemma_pow_mod_step(3int, 736814248514473789092552nat, m, 368407124257236894546276nat, 5279182371030684165544895204346704987088569704437415480774238471220950034287int, 240688001142133255212907353524277902098860808763603911885274982751394128775int, 112578770164387513946926730100751335203258946490807795216878055199693410195544int, 0int, 112578770164387513946926730100751335203258946490807795216878055199693410195544int);
    lemma_pow_mod_step(3int, 1473628497028947578185104nat, m, 736814248514473789092552nat, 112578770164387513946926730100751335203258946490807795216878055199693410195544int, 109454623154355851853718062468212650639021757059485868604543051700689807343577int, 111007761567338069078830035251578309415810581354174972583405185046839290497385int, 0int, 111007761567338069078830035251578309415810581354174972583405185046839290497385int);
    lemma_pow_mod_step(3int, 2947256994057895156370208nat, m, 1473628497028947578185104nat, 111007761567338069078830035251578309415810581354174972583405185046839290497385int, 106421113992817980798042925380839258114669993168906212118841688789466403110029int, 106798010192461800327483923007893524222773846144902884248558638744952414429998int, 0int, 106798010192461800327483923007893524222773846144902884248558638744952414429998int);
    lemma_pow_mod_step(3int, 5894513988115790312740417nat, m, 2947256994057895156370208nat, 106798010192461800327483923007893524222773846144902884248558638744952414429998int, 98502540684734743788671478151239899164224941902046359088783384931285327103267int, 90678729686228133430447378093370672146195206212311720012151806156196402656983int, 2int, 40452010584052009444200164262736200732045649305654031957540250452771538627623int);
    lemma_pow_mod_step(3int, 11789027976231580625480834nat, m, 5894513988115790312740417nat, 40452010584052009444200164262736200732045649305654031957540250452771538627623int, 14131925341968059994709149453906366192941213597124182558115031683552689188193int, 62626526641334364037461066330326534292985323821301443442462300043307087355170int, 0int, 62626526641334364037461066330326534292985323821301443442462300043307087355170int);
}

proof fn lemma_certificate_13441_7()
    requires
        pow_mod(3int, 11789027976231580625480834nat, 115792089237316195423570985008687907853269984665640564039457584007908834671663int) == 62626526641334364037461066330326534292985323821301443442462300043307087355170int,
    ensures
        pow_mod(3int, 48287858590644554241969499378nat, 115792089237316195423570985008687907853269984665640564039457584007908834671663int) == 76575954108123183722889933453847433821510540298150739170022466926934627194199int,
{
    let m: int = 115792089237316195423570985008687907853269984665640564039457584007908834671663int;
    lemma_pow_mod_step(3int, 23578055952463161250961669nat, m, 11789027976231580625480834nat, 62626526641334364037461066330326534292985323821301443442462300043307087355170int, 33871759849841258841228901212732521721467572129017548173643846365094691821573int, 50020725413986461651400982082066280825906421332604781360244539750836890543001int, 1int, 34270087004643189530631961237510934624449279332173780041276035244601836957340int);
    lemma_pow_mod_step(3int, 47156111904926322501923339nat, m, 23578055952463161250961669nat, 34270087004643189530631961237510934624449279332173780041276035244601836957340int, 10142651981162533812575182670528599046842856799599067147488849386176274382363int, 100480864158155018380101073247179029966500941557294749768051617263793756795931int, 2int, 69858413999832664293161249724161274192962855340603121225239683775563601044467int);
    lemma_pow_mod_step(3int, 94312223809852645003846678nat, m, 47156111904926322501923339nat, 69858413999832664293161249724161274192962855340603121225239683775563601044467int, 42146212566991839726786353546289504822227545051241006368655703642562760243990int, 89205896081911390096510892393479658748664338392733889615231797026651892258719int, 0int, 89205896081911390096510892393479658748664338392733889615231797026651892258719int);
    lemma_pow_mod_step(3int, 188624447619705290007693356nat, m, 94312223809852645003846678nat, 89205896081911390096510892393479658748664338392733889615231797026651892258719int, 68723968521437273276262322390207957986830906686693999619700387985239705578527int, 18253712164878325474843791178726516920817132735815550807261328865384123340560int, 0int, 18253712164878325474843791178726516920817132735815550807261328865384123340560int);
    lemma_pow_mod_step(3int, 377248895239410580015386713nat, m, 188624447619705290007693356nat, 18253712164878325474843791178726516920817132735815550807261328865384123340560int, 2877554157567161249728107211575265764282689312516928710840428372550765298421int, 85060994081127273144019336089970758871580230428738254864181094826149993769477int, 2int, 23598803768749428584916038252536460908200721954933636513628116462632311965105int);
    lemma_pow_mod_step(3int, 754497790478821160030773427nat, m, 377248895239410580015386713nat, 23598803768749428584916038252536460908200721954933636513628116462632311965105int, 4809512834461143078060671543964362901770200291170758305995933625344359816322int, 44397253544436192145406230323193368349567060597176526170471267005010879377539int, 1int, 17399671395992381012647705960892197195431197125889014471956217007123803460954int);
    lemma_pow_mod_step(3int, 1508995580957642320061546855nat, m, 754497790478821160030773427nat, 17399671395992381012647705960892197195431197125889014471956217007123803460954int, 2614587634462933500155973166685248654987849321626252157613614009932763404590int, 61526847761926055977561429435981285009969931400835496861363544653373925456946int, 1int, 68788454048461972509113303299255947176639809536865926544633049952212941699175int);
    lemma_pow_mod_step(3int, 3017991161915284640123093711nat, m, 1508995580957642320061546855nat, 68788454048461972509113303299255947176639809536865926544633049952212941699175int, 40865066357680292493875988525866731141944323909248727944325589124694975209952int, 82309993530623329992352635089376691114156818710163309753704748820885785690449int, 2int, 15345802117237599129915935250754257635930486799208801182199078446839687728021int);
    lemma_pow_mod_step(3int, 6035982323830569280246187422nat, m, 3017991161915284640123093711nat, 15345802117237599129915935250754257635930486799208801182199078446839687728021int, 2033762791331704293873799384230606302988323778367468275755948556551701072684int, 26811586271673144151192247867657803840190492348345674694731154656180830422949int, 0int, 26811586271673144151192247867657803840190492348345674694731154656180830422949int);
    lemma_pow_mod_step(3int, 12071964647661138560492374844nat, m, 6035982323830569280246187422nat, 26811586271673144151192247867657803840190492348345674694731154656180830422949int, 6208206131681966207816010717084039730439333217318175455698393420726740744679int, 80691499173540369664835524049043182331037875143578985251753250664451146525424int, 0int, 80691499173540369664835524049043182331037875143578985251753250664451146525424int);
    lemma_pow_mod_step(3int, 24143929295322277120984749689nat, m, 12071964647661138560492374844nat, 80691499173540369664835524049043182331037875143578985251753250664451146525424int, 56231112865827236184538814805813186568430616214558189001278129792695740785118int, 7646088782232280149311374399617237381221486806358229348422710546872511668542int, 0int, 22938266346696840447934123198851712143664460419074688045268131640617535005626int);
    lemma_pow_mod_step(3int, 48287858590644554241969499378nat, m, 24143929295322277120984749689nat, 22938266346696840447934123198851712143664460419074688045268131640617535005626int, 4544041535632284570186038105612159961963013998998476310376410113284063210179int, 76575954108123183722889933453847433821510540298150739170022466926934627194199int, 0int, 76575954108123183722889933453847433821510540298150739170022466926934627194199int);
}

proof fn lemma_certificate_13441_8()
    requires
        pow_mod(3int, 48287858590644554241969499378nat, 115792089237316195423570985008687907853269984665640564039457584007908834671663int) == 76575954108123183722889933453847433821510540298150739170022466926934627194199int,
    ensures
        pow_mod(3int, 197787068787280094175107069456192nat, 115792089237316195423570985008687907853269984665640564039457584007908834671663int) == 82047796579504286185614745081828888152304938932121583893475752300754625331974int,
{
    let m: int = 115792089237316195423570985008687907853269984665640564039457584007908834671663int;
    lemma_pow_mod_step(3int, 96575717181289108483938998757nat, m, 48287858590644554241969499378nat, 76575954108123183722889933453847433821510540298150739170022466926934627194199int, 50641427978308232087054476871285682679491333464925732206183586130554895113788int, 46540696639457064928753326604730269459107658570793997926268375431375255062157int, 1int, 23830000681054999362688994805502900524052991046741429739347542286216930514808int);
    lemma_pow_mod_step(3int, 193151434362578216967877997515nat, m, 96575717181289108483938998757nat, 23830000681054999362688994805502900524052991046741429739347542286216930514808int, 4904211817918172659291208245493403602288244829072611636638210007753296615138int, 101514359827426204372506848073667071148494084642271991797226278940070401842370int, 2int, 72958901007646222270378574203625397738942284595534847312763668804393536183784int);
    lemma_pow_mod_step(3int, 386302868725156433935755995031nat, m, 193151434362578216967877997515nat, 72958901007646222270378574203625397738942284595534847312763668804393536183784int, 45970335895175150785723970066522398113059500537926291079973057133720561864961int, 28403411017104366356130158919657754451448697422814498022459669758564845258513int, 0int, 85210233051313099068390476758973263354346092268443494067379009275694535775539int);
    lemma_pow_mod_step(3int, 772605737450312867871511990063nat, m, 386302868725156433935755995031nat, 85210233051313099068390476758973263354346092268443494067379009275694535775539int, 62705352882769871082824234247473241114254639796389071984176871547541253582560int, 97375984327631708634830396938982925918092491951346725026486179380220127743241int, 2int, 60543774508262735057349220799572962047737506522759047000543370124842713886397int);
    lemma_pow_mod_step(3int, 1545211474900625735743023980126nat, m, 772605737450312867871511990063nat, 60543774508262735057349220799572962047737506522759047000543370124842713886397int, 31656295830320609368610003419947447743129022085212715933747506087876422778828int, 69335336496650314767303645859255543882773513890595613831832975871216373690645int, 0int, 69335336496650314767303645859255543882773513890595613831832975871216373690645int);
    lemma_pow_mod_step(3int, 3090422949801251471486047960253nat, m, 1545211474900625735743023980126nat, 69335336496650314767303645859255543882773513890595613831832975871216373690645int, 41517420738915702703108824378832315161676355544780772312543417115387354672119int, 44059747832209206296232455014449458605241971203679242755320158262937775052128int, 1int, 16387154259311423465126380034660467962455928945397164226502890780904490484721int);
    lemma_pow_mod_step(3int, 6180845899602502942972095920506nat, m, 3090422949801251471486047960253nat, 16387154259311423465126380034660467962455928945397164226502890780904490484721int, 2319146553855656676305264393734639763418922901091508156744368492317533510137int, 27106730880346580369731971129445228564846288558225492429995097128469257300010int, 0int, 27106730880346580369731971129445228564846288558225492429995097128469257300010int);
    lemma_pow_mod_step(3int, 12361691799205005885944191841012nat, m, 6180845899602502942972095920506nat, 27106730880346580369731971129445228564846288558225492429995097128469257300010int, 6345639532538460936048195558694899885815863454118511411996853468186549067365int, 69619279784460599701723340321943570308284327693100341935738386945966502422105int, 0int, 69619279784460599701723340321943570308284327693100341935738386945966502422105int);
    lemma_pow_mod_step(3int, 24723383598410011771888383682024nat, m, 12361691799205005885944191841012nat, 69619279784460599701723340321943570308284327693100341935738386945966502422105int, 41858162760785707837530747719161081843198674160645508598710999966602139805953int, 109042545813476382593753200442916373355072771907385402848113880417314304821186int, 0int, 109042545813476382593753200442916373355072771907385402848113880417314304821186int);
    lemma_pow_mod_step(3int, 49446767196820023543776767364048nat, m, 24723383598410011771888383682024nat, 109042545813476382593753200442916373355072771907385402848113880417314304821186int, 102686434589801223761615689639360975607601896205973333520178970977965911512681int, 34147570650566438901947220967161946779354165177771841062473259743815138588093int, 0int, 34147570650566438901947220967161946779354165177771841062473259743815138588093int);
    lemma_pow_mod_step(3int, 98893534393640047087553534728096nat, m, 49446767196820023543776767364048nat, 34147570650566438901947220967161946779354165177771841062473259743815138588093int, 10070261181189937569093784551447427564407025587205230346418518904219998112814int, 90419921517601206938997847223033505391173251151426138577594302320458198386967int, 0int, 90419921517601206938997847223033505391173251151426138577594302320458198386967int);
    lemma_pow_mod_step(3int, 197787068787280094175107069456192nat, m, 98893534393640047087553534728096nat, 90419921517601206938997847223033505391173251151426138577594302320458198386967int, 70607260488174760552372625489073159480066867234467329381493639757692048517605int, 82047796579504286185614745081828888152304938932121583893475752300754625331974int, 0int, 82047796579504286185614745081828888152304938932121583893475752300754625331974int);
}

proof fn lemma_certificate_13441_9()
    requires
        pow_mod(3int, 197787068787280094175107069456192nat, 115792089237316195423570985008687907853269984665640564039457584007908834671663int) == 82047796579504286185614745081828888152304938932121583893475752300754625331974int,
    ensures
        pow_mod(3int, 810135833752699265741238556492566235nat, 115792089237316195423570985008687907853269984665640564039457584007908834671663int) == 39139972650091586316465104140400820131665951642388540963395357680840065420073int,
{
    let m: int = 115792089237316195423570985008687907853269984665640564039457584007908834671663int;
    lemma_pow_mod_step(3int, 395574137574560188350214138912385nat, m, 197787068787280094175107069456192nat, 82047796579504286185614745081828888152304938932121583893475752300754625331974int, 58137312901875268300655369092697005923833694764619261490131827602637731030828int, 84185561445340111699030548438435490312107132684458482187347990122997795709712int, 2int, 20972505861387944249949675297930655229781428722094318483128802353175717785810int);
    lemma_pow_mod_step(3int, 791148275149120376700428277824771nat, m, 395574137574560188350214138912385nat, 20972505861387944249949675297930655229781428722094318483128802353175717785810int, 3798584212471424745890990925849864641575358527676409682991984931384430466944int, 92124807372828368165628007298773238679886822091531672174903750046665022348228int, 2int, 44790243643852713649742051878943900333120496943313888445796082124177397701358int);
    lemma_pow_mod_step(3int, 1582296550298240753400856555649543nat, m, 791148275149120376700428277824771nat, 44790243643852713649742051878943900333120496943313888445796082124177397701358int, 17325587083622319013037515058354446678166950620249514374912239358288617927861int, 75106205069187882606902938580736199571643348743640684299083382146494800141321int, 1int, 109526525970247452397137830733520690861660061565281488857792562431575565752300int);
    lemma_pow_mod_step(3int, 3164593100596481506801713111299086nat, m, 1582296550298240753400856555649543nat, 109526525970247452397137830733520690861660061565281488857792562431575565752300int, 103599995216645007008973007005428491290825977137296502327178167428354166775959int, 6938548201307287866251381055757606091698252426142204276848891801023908340183int, 0int, 6938548201307287866251381055757606091698252426142204276848891801023908340183int);
    lemma_pow_mod_step(3int, 6329186201192963013603426222598173nat, m, 3164593100596481506801713111299086nat, 6938548201307287866251381055757606091698252426142204276848891801023908340183int, 415774958885096790586677313365345035716046656638426463803329523972426575444int, 82575902728155745319646417353962254796913590056063723583678969629282814030117int, 2int, 16143529709834845111797282044510948684200800836910042672121740872030772747025int);
    lemma_pow_mod_step(3int, 12658372402385926027206852445196347nat, m, 6329186201192963013603426222598173nat, 16143529709834845111797282044510948684200800836910042672121740872030772747025int, 2250702558429463607091024031368521609330163520840252050178651201830120884655int, 113432364730150260887954908379240245900829805582705652966966802065438626319360int, 2int, 108712915715818391816722755120344921995949447416835830821985238180498209614754int);
    lemma_pow_mod_step(3int, 25316744804771852054413704890392694nat, m, 12658372402385926027206852445196347nat, 108712915715818391816722755120344921995949447416835830821985238180498209614754int, 102066541171155399499099238393390891354752699158458096905056788355214713292157int, 115544237954406888623869032182151196702482367061996209628469533830140206433425int, 0int, 115544237954406888623869032182151196702482367061996209628469533830140206433425int);
    lemma_pow_mod_step(3int, 50633489609543704108827409780785389nat, m, 25316744804771852054413704890392694nat, 115544237954406888623869032182151196702482367061996209628469533830140206433425int, 115296917193563850857093383265835216816409529267788505663888784643776496322667int, 48768506597248264409516779782320578306250097170867259938559141037169107745404int, 1int, 30513430554428597804979354338273827065480306846961215776219839103598488564549int);
    lemma_pow_mod_step(3int, 101266979219087408217654819561570779nat, m, 50633489609543704108827409780785389nat, 30513430554428597804979354338273827065480306846961215776219839103598488564549int, 8040872656608755187757608274546678920632503268470041759220544988477897569797int, 53862093565965053146483289451827275495876984692134399365104488431920419010990int, 1int, 45794191460578964015878883346793918634360969410762634055855881287852422361307int);
    lemma_pow_mod_step(3int, 202533958438174816435309639123141558nat, m, 101266979219087408217654819561570779nat, 45794191460578964015878883346793918634360969410762634055855881287852422361307int, 18110977920349419847895905752997670266255083390173668912408597060492993339624int, 68162524328994418323967232462157674324187049052994999745573862176977762873537int, 0int, 68162524328994418323967232462157674324187049052994999745573862176977762873537int);
    lemma_pow_mod_step(3int, 405067916876349632870619278246283117nat, m, 202533958438174816435309639123141558nat, 68162524328994418323967232462157674324187049052994999745573862176977762873537int, 40124759415805174143971520766046664391943960230977728520381798178597690653296int, 52833907120843780777113109508469873384949423190612029852936454161017326139121int, 1int, 42709632125215146907768343516721712301578284906195525519351778475143143745700int);
    lemma_pow_mod_step(3int, 810135833752699265741238556492566235nat, m, 405067916876349632870619278246283117nat, 42709632125215146907768343516721712301578284906195525519351778475143143745700int, 15753344535762593554801494365304531382583506473263768609851803407352996508643int, 13046657550030528772155034713466940043888650547462846987798452560280021806691int, 0int, 39139972650091586316465104140400820131665951642388540963395357680840065420073int);
}

proof fn lemma_certificate_13441_10()
    requires
        pow_mod(3int, 810135833752699265741238556492566235nat, 115792089237316195423570985008687907853269984665640564039457584007908834671663int) == 39139972650091586316465104140400820131665951642388540963395357680840065420073int,
    ensures
        pow_mod(3int, 3318316375051056192476113127393551299156nat, 115792089237316195423570985008687907853269984665640564039457584007908834671663int) == 60428183846257004208758938312763690252282930466031739939833262488027871776252int,
{
    let m: int = 115792089237316195423570985008687907853269984665640564039457584007908834671663int;
    lemma_pow_mod_step(3int, 1620271667505398531482477112985132470nat, m, 810135833752699265741238556492566235nat, 39139972650091586316465104140400820131665951642388540963395357680840065420073int, 13230070112218180035808922183218833921486271284923366144491091574802359475721int, 10678150473398175086761353686337395669240168517499425672480959000834096131306int, 0int, 10678150473398175086761353686337395669240168517499425672480959000834096131306int);
    lemma_pow_mod_step(3int, 3240543335010797062964954225970264940nat, m, 1620271667505398531482477112985132470nat, 10678150473398175086761353686337395669240168517499425672480959000834096131306int, 984720962231223226318007260505420143070852003625043186038260868256612996913int, 31093143078638038748958312124235723856783266604606525453051921590751205689317int, 0int, 31093143078638038748958312124235723856783266604606525453051921590751205689317int);
    lemma_pow_mod_step(3int, 6481086670021594125929908451940529881nat, m, 3240543335010797062964954225970264940nat, 31093143078638038748958312124235723856783266604606525453051921590751205689317int, 8349305663940747452192994143954636490643102542614893149587439362342135202138int, 26647695384671334888703500362527957206502852455710816483881755650785762310995int, 0int, 79943086154014004666110501087583871619508557367132449451645266952357286932985int);
    lemma_pow_mod_step(3int, 12962173340043188251859816903881059762nat, m, 6481086670021594125929908451940529881nat, 79943086154014004666110501087583871619508557367132449451645266952357286932985int, 55192863916030957737462510537867717651860248008051663339232090316817948021308int, 108980369700990756297111497112194146489264085592557609312734917874971173215021int, 0int, 108980369700990756297111497112194146489264085592557609312734917874971173215021int);
    lemma_pow_mod_step(3int, 25924346680086376503719633807762119524nat, m, 12962173340043188251859816903881059762nat, 108980369700990756297111497112194146489264085592557609312734917874971173215021int, 102569364266528197538069852413006363885841914294833932604469225367158698820740int, 108690016556792181109638144930682091451612680255386873875123213140682305339821int, 0int, 108690016556792181109638144930682091451612680255386873875123213140682305339821int);
    lemma_pow_mod_step(3int, 51848693360172753007439267615524239049nat, m, 25924346680086376503719633807762119524nat, 108690016556792181109638144930682091451612680255386873875123213140682305339821int, 102023547350492297933627317411443055855486445517976763437850903905947931829224int, 92483192607403446401669518884050774626308541103642906706654995273549260232529int, 2int, 45865399347577948357866586634776508172385653979647592041049817804830111354261int);
    lemma_pow_mod_step(3int, 103697386720345506014878535231048478098nat, m, 51848693360172753007439267615524239049nat, 45865399347577948357866586634776508172385653979647592041049817804830111354261int, 18167345206125424040117154500031646198692689178267869947944660345430732278509int, 6347720033846833071070443825354051418115181189134298051599047949648556665654int, 0int, 6347720033846833071070443825354051418115181189134298051599047949648556665654int);
    lemma_pow_mod_step(3int, 207394773440691012029757070462096956197nat, m, 103697386720345506014878535231048478098nat, 6347720033846833071070443825354051418115181189134298051599047949648556665654int, 347981886271338469963754179415562258697676441483119524115577156570576364689int, 93740969748834023941528074833936611052838030725002457188791793544438881139909int, 2int, 49638730771869680977442254484434017451974122843726243487460212617498974076401int);
    lemma_pow_mod_step(3int, 414789546881382024059514140924193912394nat, m, 207394773440691012029757070462096956197nat, 49638730771869680977442254484434017451974122843726243487460212617498974076401int, 21279550346415980505350553375104466742052740398932509792314316600919781180434int, 109097420457463294215096642818942752963752454672391900930960179794690035271059int, 0int, 109097420457463294215096642818942752963752454672391900930960179794690035271059int);
    lemma_pow_mod_step(3int, 829579093762764048119028281848387824789nat, m, 414789546881382024059514140924193912394nat, 109097420457463294215096642818942752963752454672391900930960179794690035271059int, 102789812575873324537744670757478584116901183116767108017955137668698259065333int, 100426264254312993031910169664177603325117618529675186230983759404837282222702int, 2int, 69694614288306588248588538975156994268812886257744430614036110198694177324780int);
    lemma_pow_mod_step(3int, 1659158187525528096238056563696775649578nat, m, 829579093762764048119028281848387824789nat, 69694614288306588248588538975156994268812886257744430614036110198694177324780int, 41948800585510630945347807940482522288987365912403567225411778009412024563599int, 16674158602183926273600971119659485867094167631951688299636541983129575453263int, 0int, 16674158602183926273600971119659485867094167631951688299636541983129575453263int);
    lemma_pow_mod_step(3int, 3318316375051056192476113127393551299156nat, m, 1659158187525528096238056563696775649578nat, 16674158602183926273600971119659485867094167631951688299636541983129575453263int, 2401092915086504663124335130113868790342660074591648671628316529616754015659int, 60428183846257004208758938312763690252282930466031739939833262488027871776252int, 0int, 60428183846257004208758938312763690252282930466031739939833262488027871776252int);
}

proof fn lemma_certificate_13441_11()
    requires
        pow_mod(3int, 3318316375051056192476113127393551299156nat, 115792089237316195423570985008687907853269984665640564039457584007908834671663int) == 60428183846257004208758938312763690252282930466031739939833262488027871776252int,
    ensures
        pow_mod(3int, 13591823872209126164382159369803986121344510nat, 115792089237316195423570985008687907853269984665640564039457584007908834671663int) == 65647366438661487193852298438458026772528983668609469305347707010204582992021int,
{
    let m: int = 115792089237316195423570985008687907853269984665640564039457584007908834671663int;
    lemma_pow_mod_step(3int, 6636632750102112384952226254787102598312nat, m, 3318316375051056192476113127393551299156nat, 60428183846257004208758938312763690252282930466031739939833262488027871776252int, 31535534309888328586904080133779769105910115327849753390785177418877146285882int, 3380369114600707764958769792064415513266070320607127636752353825454148805738int, 0int, 3380369114600707764958769792064415513266070320607127636752353825454148805738int);
    lemma_pow_mod_step(3int, 13273265500204224769904452509574205196625nat, m, 6636632750102112384952226254787102598312nat, 3380369114600707764958769792064415513266070320607127636752353825454148805738int, 98684594312197964384981859886415932336847021003936493709739588230323016145int, 18605586244301871832835490159211675330044039113702860393090402839678738725509int, 0int, 55816758732905615498506470477635025990132117341108581179271208519036216176527int);
    lemma_pow_mod_step(3int, 26546531000408449539808905019148410393250nat, m, 13273265500204224769904452509574205196625nat, 55816758732905615498506470477635025990132117341108581179271208519036216176527int, 26906074292019622399479840402950092052195297910776850904227207823876383634591int, 87048574403765655834014943003700171759615722526509152268440639887896771486896int, 0int, 87048574403765655834014943003700171759615722526509152268440639887896771486896int);
    lemma_pow_mod_step(3int, 53093062000816899079617810038296820786501nat, m, 26546531000408449539808905019148410393250nat, 87048574403765655834014943003700171759615722526509152268440639887896771486896int, 65440172602792514729756222454440571797155372855875368724922580351453053967118int, 19824010601808671771749571785834006182269003165832448290877812223355571337582int, 0int, 59472031805426015315248715357502018546807009497497344872633436670066714012746int);
    lemma_pow_mod_step(3int, 106186124001633798159235620076593641573003nat, m, 53093062000816899079617810038296820786501nat, 59472031805426015315248715357502018546807009497497344872633436670066714012746int, 30545459455495887334217907771658826149537471344769167239618517422226251982833int, 74619861742394699904970503133083014950919204662242868993518139988541182899237int, 1int, 108067495989867904291340524390561136999487629321088042941096835957714714026048int);
    lemma_pow_mod_step(3int, 212372248003267596318471240153187283146007nat, m, 106186124001633798159235620076593641573003nat, 108067495989867904291340524390561136999487629321088042941096835957714714026048int, 100858217227472484631834177675087741027946631195628166186632081078849550450922int, 56216316506737085600390263393936597689996779798664910716006552608891756875018int, 1int, 52856860282895061377599805173121885216720354730354168108562073818766435953391int);
    lemma_pow_mod_step(3int, 424744496006535192636942480306374566292015nat, m, 212372248003267596318471240153187283146007nat, 52856860282895061377599805173121885216720354730354168108562073818766435953391int, 24128139472805358279256559768896093697327671040154098845872520220603500313148int, 89463934110879879638192304407204079253192406841697124458795745481990862473757int, 2int, 36807623858007248067434943204236422053037251193810245297472068430154918077945int);
    lemma_pow_mod_step(3int, 849488992013070385273884960612749132584031nat, m, 424744496006535192636942480306374566292015nat, 36807623858007248067434943204236422053037251193810245297472068430154918077945int, 11700291297930342687498637818275745682829339003833130001048945952125704087058int, 97814655537535674825805765043369034886956081529656525915553491304118497785571int, 2int, 61859788137974633630275325112731288954328275257688449667745305896537824013387int);
    lemma_pow_mod_step(3int, 1698977984026140770547769921225498265168063nat, m, 849488992013070385273884960612749132584031nat, 61859788137974633630275325112731288954328275257688449667745305896537824013387int, 33047450941423225075975047869410662244776825512462787753752762627010255896638int, 31603748137949237085006010899468679070158499455064574563645607259093559642775int, 0int, 94811244413847711255018032698406037210475498365193723690936821777280678928325int);
    lemma_pow_mod_step(3int, 3397955968052281541095539842450996530336127nat, m, 1698977984026140770547769921225498265168063nat, 94811244413847711255018032698406037210475498365193723690936821777280678928325int, 77632005143970040377127904591362971272515888156289199663754108383062932737583int, 84405168282132619564131657086067325021943663256322665118519987947570942095096int, 2int, 21631326371765467845253001240826159359291020437686867276644795826895156941962int);
    lemma_pow_mod_step(3int, 6795911936104563082191079684901993060672255nat, m, 3397955968052281541095539842450996530336127nat, 21631326371765467845253001240826159359291020437686867276644795826895156941962int, 4040986596613216247873725527530112581520597995678215399799347205631249992270int, 89442505422061512607307788216965019860074730372646959286110394699782698364434int, 2int, 36743337791552146974781394633519243873684221786659749779416016083530425749976int);
    lemma_pow_mod_step(3int, 13591823872209126164382159369803986121344510nat, m, 6795911936104563082191079684901993060672255nat, 36743337791552146974781394633519243873684221786659749779416016083530425749976int, 11659456884806061808620728920128418244589324279691742279383671001964642204485int, 65647366438661487193852298438458026772528983668609469305347707010204582992021int, 0int, 65647366438661487193852298438458026772528983668609469305347707010204582992021int);
}

proof fn lemma_certificate_13441_12()
    requires
        pow_mod(3int, 13591823872209126164382159369803986121344510nat, 115792089237316195423570985008687907853269984665640564039457584007908834671663int) == 65647366438661487193852298438458026772528983668609469305347707010204582992021int,
    ensures
        pow_mod(3int, 55672110580568580769309324778717127153027115691nat, 115792089237316195423570985008687907853269984665640564039457584007908834671663int) == 75515340124211933311832876971262523996518070571889421482679318102084798635133int,
{
    let m: int = 115792089237316195423570985008687907853269984665640564039457584007908834671663int;
    lemma_pow_mod_step(3int, 27183647744418252328764318739607972242689021nat, m, 13591823872209126164382159369803986121344510nat, 65647366438661487193852298438458026772528983668609469305347707010204582992021int, 37218230957897388144868807195349902137337611158259110927419913361959397819298int, 47429641699089891290349040739183424681140774459614777629089176519368514511867int, 1int, 26496835859953478447476137208862366190152338713203768847809945550196708863938int);
    lemma_pow_mod_step(3int, 54367295488836504657528637479215944485378042nat, m, 27183647744418252328764318739607972242689021nat, 26496835859953478447476137208862366190152338713203768847809945550196708863938int, 6063301173799507369145716074992531388321584652930001202854887663222626668552int, 11413309218965393145211303343351739775861794002225383766201252301894149225868int, 0int, 11413309218965393145211303343351739775861794002225383766201252301894149225868int);
    lemma_pow_mod_step(3int, 108734590977673009315057274958431888970756085nat, m, 54367295488836504657528637479215944485378042nat, 11413309218965393145211303343351739775861794002225383766201252301894149225868int, 1124978642200200578397665878928514136966074157761183122920133883566326851859int, 89088872657813608700198021221411757796397023313678860372769927751128974181907int, 2int, 35682439498808435253452093646859457682651100609755453039394615237569253202395int);
    lemma_pow_mod_step(3int, 217469181955346018630114549916863777941512170nat, m, 108734590977673009315057274958431888970756085nat, 35682439498808435253452093646859457682651100609755453039394615237569253202395int, 10995884925926354088897435905430200811089880142902023958470368074727963150835int, 63788695700371882270042224799010477746502386160900647903702459588072664447420int, 0int, 63788695700371882270042224799010477746502386160900647903702459588072664447420int);
    lemma_pow_mod_step(3int, 434938363910692037260229099833727555883024341nat, m, 217469181955346018630114549916863777941512170nat, 63788695700371882270042224799010477746502386160900647903702459588072664447420int, 35140549980190966530790137008556224512760582422177402784933932898230207304495int, 72133412689363760844362805092504108192708512283716709272266187004716355631215int, 1int, 100608148830775087109517430268824416724855552185509563777340977006240232221982int);
    lemma_pow_mod_step(3int, 869876727821384074520458199667455111766048682nat, m, 434938363910692037260229099833727555883024341nat, 100608148830775087109517430268824416724855552185509563777340977006240232221982int, 87415294756538379353273149459461868373075303308765315570271536847484873932911int, 43744114143676120177043464532301475590676538268176587499424949709292749207331int, 0int, 43744114143676120177043464532301475590676538268176587499424949709292749207331int);
    lemma_pow_mod_step(3int, 1739753455642768149040916399334910223532097365nat, m, 869876727821384074520458199667455111766048682nat, 43744114143676120177043464532301475590676538268176587499424949709292749207331int, 16525718940031770524148834474607303237347772348461613973697038766190978375351int, 35643072956870278393389319258348504327006116054120012115259263379069566764848int, 0int, 106929218870610835180167957775045512981018348162360036345777790137208700294544int);
    lemma_pow_mod_step(3int, 3479506911285536298081832798669820447064194730nat, m, 1739753455642768149040916399334910223532097365nat, 106929218870610835180167957775045512981018348162360036345777790137208700294544int, 98744723612726895429991972573643542092188024394838843051862423916015710238667int, 115395323629208231689585767153355232408666341740756651441563137421082044374715int, 0int, 115395323629208231689585767153355232408666341740756651441563137421082044374715int);
    lemma_pow_mod_step(3int, 6959013822571072596163665597339640894128389461nat, m, 3479506911285536298081832798669820447064194730nat, 115395323629208231689585767153355232408666341740756651441563137421082044374715int, 114999917552211712395524220363754922285596520312274608971544842381881880978126int, 63268706681671993945706920282665209509338305244765739205176109766386836287687int, 1int, 74014030807699786413549775839307720674744931068656653576070745291251674191398int);
    lemma_pow_mod_step(3int, 13918027645142145192327331194679281788256778922nat, m, 6959013822571072596163665597339640894128389461nat, 74014030807699786413549775839307720674744931068656653576070745291251674191398int, 47309594226042507867991972242991008211814287439381250421801824050147720735455int, 83574760122030430309393479311702088151231859624785171112635822811775329282739int, 0int, 83574760122030430309393479311702088151231859624785171112635822811775329282739int);
    lemma_pow_mod_step(3int, 27836055290284290384654662389358563576513557845nat, m, 13918027645142145192327331194679281788256778922nat, 83574760122030430309393479311702088151231859624785171112635822811775329282739int, 60321396525972370533185755772185322265216720287894580437532288382607260192792int, 49965742689342715219690378643567940692896052441030253775330500590444804089025int, 1int, 34105138830711950235500150922015914225418172657450197286533917763425577595412int);
    lemma_pow_mod_step(3int, 55672110580568580769309324778717127153027115691nat, m, 27836055290284290384654662389358563576513557845nat, 34105138830711950235500150922015914225418172657450197286533917763425577595412int, 10045250088529239325287808383194727247547418582972518126656437305170589740991int, 25171780041403977770610958990420841332172690190629807160893106034028266211711int, 0int, 75515340124211933311832876971262523996518070571889421482679318102084798635133int);
}

proof fn lemma_certificate_13441_13()
    requires
        pow_mod(3int, 55672110580568580769309324778717127153027115691nat, 115792089237316195423570985008687907853269984665640564039457584007908834671663int) == 75515340124211933311832876971262523996518070571889421482679318102084798635133int,
    ensures
        pow_mod(3int, 228032964938008906831090994293625352818799065870634nat, 115792089237316195423570985008687907853269984665640564039457584007908834671663int) == 48182888811342249456093943315438476579394049373917669198887833196828250188261int,
{
    let m: int = 115792089237316195423570985008687907853269984665640564039457584007908834671663int;
    lemma_pow_mod_step(3int, 111344221161137161538618649557434254306054231382nat, m, 55672110580568580769309324778717127153027115691nat, 75515340124211933311832876971262523996518070571889421482679318102084798635133int, 49248326303086105808164514264881080441180598152602797401936729448666545756541int, 3085911321655861561868305974419164213513684175803761955870598047113992330006int, 0int, 3085911321655861561868305974419164213513684175803761955870598047113992330006int);
    lemma_pow_mod_step(3int, 222688442322274323077237299114868508612108462764nat, m, 111344221161137161538618649557434254306054231382nat, 3085911321655861561868305974419164213513684175803761955870598047113992330006int, 82240926369388866668542861507494423533428702667136950863441010546706760639int, 93813925457797223880292571483905265707551243569106875946631788459908910887379int, 0int, 93813925457797223880292571483905265707551243569106875946631788459908910887379int);
    lemma_pow_mod_step(3int, 445376884644548646154474598229737017224216925528nat, m, 222688442322274323077237299114868508612108462764nat, 93813925457797223880292571483905265707551243569106875946631788459908910887379int, 76007373800496450908103279161704980997858955992019999531552328835332733052112int, 92647373149910699372349870386250808338879002922103716327740509561443832787385int, 0int, 92647373149910699372349870386250808338879002922103716327740509561443832787385int);
    lemma_pow_mod_step(3int, 890753769289097292308949196459474034448433851057nat, m, 445376884644548646154474598229737017224216925528nat, 92647373149910699372349870386250808338879002922103716327740509561443832787385int, 74128861549313741039695463598458628566948322491517298984501228417109635054355int, 86235706668604323067843543936113565258182672453531075466308832544457031895860int, 2int, 27122941531180578356388661790964880068008048029312098320011329617553426344254int);
    lemma_pow_mod_step(3int, 1781507538578194584617898392918948068896867702114nat, m, 890753769289097292308949196459474034448433851057nat, 27122941531180578356388661790964880068008048029312098320011329617553426344254int, 6353231573498216365176001048162363119478870013794307641852855804167401444277int, 115195704602995827365673123065867655349840212285349604710275663313947633393865int, 0int, 115195704602995827365673123065867655349840212285349604710275663313947633393865int);
    lemma_pow_mod_step(3int, 3563015077156389169235796785837896137793735404228nat, m, 1781507538578194584617898392918948068896867702114nat, 115195704602995827365673123065867655349840212285349604710275663313947633393865int, 114602391634748644005426861462494462819693660732319754020380133931597178741154int, 113823317715417223981591680897787623987162117497023748472978232186278963919123int, 0int, 113823317715417223981591680897787623987162117497023748472978232186278963919123int);
    lemma_pow_mod_step(3int, 7126030154312778338471593571675792275587470808457nat, m, 3563015077156389169235796785837896137793735404228nat, 113823317715417223981591680897787623987162117497023748472978232186278963919123int, 111888020512281915178212343607038137449786183213999918390592075609891891501288int, 65491644503771061064610120500111672161673040800067267741083465413364063487185int, 1int, 80682844273996987770259376491647108631749137734561239183792812232183355789892int);
    lemma_pow_mod_step(3int, 14252060308625556676943187143351584551174941616914nat, m, 7126030154312778338471593571675792275587470808457nat, 80682844273996987770259376491647108631749137734561239183792812232183355789892int, 56219050912885397927140269959608976751079355796028848836142794485421460268510int, 55040117267354725739521932558817938625562262277025427687016860699633581139534int, 0int, 55040117267354725739521932558817938625562262277025427687016860699633581139534int);
    lemma_pow_mod_step(3int, 28504120617251113353886374286703169102349883233829nat, m, 14252060308625556676943187143351584551174941616914nat, 55040117267354725739521932558817938625562262277025427687016860699633581139534int, 26162534321281367798156354156622407290096612677993409073007674991342473120439int, 53729025378647546914929144597596420459851605788987649391920463831620358317099int, 1int, 45394986898626445321216448784101353526284832701322384136303807486952240279634int);
    lemma_pow_mod_step(3int, 57008241234502226707772748573406338204699766467658nat, m, 28504120617251113353886374286703169102349883233829nat, 45394986898626445321216448784101353526284832701322384136303807486952240279634int, 17796594301904740361644441947558572842706821500576272733094446148237026740773int, 6322110815873859705595839386503679405325726532842477143953788744658045358457int, 0int, 6322110815873859705595839386503679405325726532842477143953788744658045358457int);
    lemma_pow_mod_step(3int, 114016482469004453415545497146812676409399532935317nat, m, 57008241234502226707772748573406338204699766467658nat, 6322110815873859705595839386503679405325726532842477143953788744658045358457int, 345179756505407666198560434122341040748684864320234671037856565648108535432int, 72386609413811284369588315609949734117799419411882772264523748182472099557433int, 1int, 101367739004117657685193961821161294500128273570007752754113660539507464000636int);
    lemma_pow_mod_step(3int, 228032964938008906831090994293625352818799065870634nat, m, 114016482469004453415545497146812676409399532935317nat, 101367739004117657685193961821161294500128273570007752754113660539507464000636int, 88740246233466076270444365920671330145730737675215996080954763872981747547845int, 48182888811342249456093943315438476579394049373917669198887833196828250188261int, 0int, 48182888811342249456093943315438476579394049373917669198887833196828250188261int);
}

proof fn lemma_certificate_13441_14()
    requires
        pow_mod(3int, 228032964938008906831090994293625352818799065870634nat, 115792089237316195423570985008687907853269984665640564039457584007908834671663int) == 48182888811342249456093943315438476579394049373917669198887833196828250188261int,
    ensures
        pow_mod(3int, 934023024386084482380148712626689445145800973806120751nat, 115792089237316195423570985008687907853269984665640564039457584007908834671663int) == 18740438138661460217629336012181803055214566760135583874726820158604369820759int,
{
    let m: int = 115792089237316195423570985008687907853269984665640564039457584007908834671663int;
    lemma_pow_mod_step(3int, 456065929876017813662181988587250705637598131741269nat, m, 228032964938008906831090994293625352818799065870634nat, 48182888811342249456093943315438476579394049373917669198887833196828250188261int, 20049649241996693323415016619665837625729558670148385393762232718764413164772int, 85789574937376596081315711774814528556878974886579369208754739607946603948285int, 2int, 25784546337497397396805165307067769964096955328456979547349050808022142501529int);
    lemma_pow_mod_step(3int, 912131859752035627324363977174501411275196263482539nat, m, 456065929876017813662181988587250705637598131741269nat, 25784546337497397396805165307067769964096955328456979547349050808022142501529int, 5741694741062606606815738263517747216612544975675043544433111601198821714542int, 41981497591282753680298323308035717352034902860482902328461801325708484914495int, 1int, 10152403536532065617323984915419244202834723915808142945927819969216620071822int);
    lemma_pow_mod_step(3int, 1824263719504071254648727954349002822550392526965079nat, m, 912131859752035627324363977174501411275196263482539nat, 10152403536532065617323984915419244202834723915808142945927819969216620071822int, 890141098994629019968104745857756461248467104505856805081492452119310455199int, 98318221816952781463534893528103705366086223613872917664437214106422202073747int, 2int, 63370486976225953543462710566935300391718701510337624914396474303448936877915int);
    lemma_pow_mod_step(3int, 3648527439008142509297455908698005645100785053930159nat, m, 1824263719504071254648727954349002822550392526965079nat, 63370486976225953543462710566935300391718701510337624914396474303448936877915int, 34681286485587044168345509454050606536973576638690122533951577972195850857855int, 19433807395642489421805753984908160608488604030634792388197974327501805284360int, 0int, 58301422186927468265417261954724481825465812091904377164593922982505415853080int);
    lemma_pow_mod_step(3int, 7297054878016285018594911817396011290201570107860318nat, m, 3648527439008142509297455908698005645100785053930159nat, 58301422186927468265417261954724481825465812091904377164593922982505415853080int, 29354819067578826373399079258562781847056929581460037430013235054553698470779int, 89406489237418815649096561724654637890404569383757153858560479518846480650923int, 0int, 89406489237418815649096561724654637890404569383757153858560479518846480650923int);
    lemma_pow_mod_step(3int, 14594109756032570037189823634792022580403140215720636nat, m, 7297054878016285018594911817396011290201570107860318nat, 89406489237418815649096561724654637890404569383757153858560479518846480650923int, 69033388812753393935028754994334868176571477189531742711976135808965146503961int, 64809344483259207754104453426623195511902408135313396099976516149938016794786int, 0int, 64809344483259207754104453426623195511902408135313396099976516149938016794786int);
    lemma_pow_mod_step(3int, 29188219512065140074379647269584045160806280431441273nat, m, 14594109756032570037189823634792022580403140215720636nat, 64809344483259207754104453426623195511902408135313396099976516149938016794786int, 36274076752698837820369724518633239800614761696838783483176803871171503214735int, 111295145292323968881284130815483902715725533366357007480648287057768128231491int, 2int, 102301257402339515796710422429075892440636630767789894363029693157486715351147int);
    lemma_pow_mod_step(3int, 58376439024130280148759294539168090321612560862882546nat, m, 29188219512065140074379647269584045160806280431441273nat, 102301257402339515796710422429075892440636630767789894363029693157486715351147int, 90382230211345082199639738022518530673169627736708024609693994231576878698414int, 23377753191155780184070870145808075566624107265158856753316631686681025373127int, 0int, 23377753191155780184070870145808075566624107265158856753316631686681025373127int);
    lemma_pow_mod_step(3int, 116752878048260560297518589078336180643225121725765093nat, m, 58376439024130280148759294539168090321612560862882546nat, 23377753191155780184070870145808075566624107265158856753316631686681025373127int, 4719833175705996733326410585462758740644279217879926831061459222874797068238int, 6844711373082463624343783911429634437358548749355416256481960950931837818335int, 0int, 20534134119247390873031351734288903312075646248066248769445882852795513455005int);
    lemma_pow_mod_step(3int, 233505756096521120595037178156672361286450243451530187nat, m, 116752878048260560297518589078336180643225121725765093nat, 20534134119247390873031351734288903312075646248066248769445882852795513455005int, 3641446205906740843659539964695886189183270419989217567389845264177019281011int, 37624024376037366808238761667165856523895846239703998627878600369339643858732int, 0int, 112872073128112100424716285001497569571687538719111995883635801108018931576196int);
    lemma_pow_mod_step(3int, 467011512193042241190074356313344722572900486903060375nat, m, 233505756096521120595037178156672361286450243451530187nat, 112872073128112100424716285001497569571687538719111995883635801108018931576196int, 110025693258949726660529764065869810259089601983615351237879140123242639383378int, 115767895756329590932611171208286141059120633912175871951456900393407544012802int, 2int, 115719508794356381950691543607482607470821932405246487775455533164404962695080int);
    lemma_pow_mod_step(3int, 934023024386084482380148712626689445145800973806120751nat, m, 467011512193042241190074356313344722572900486903060375nat, 115719508794356381950691543607482607470821932405246487775455533164404962695080int, 115646973846047670645246078136153500972520940227408630985397348149355125324535int, 83441538871097950354923768676519206253918178697138903984547329391474013054695int, 2int, 18740438138661460217629336012181803055214566760135583874726820158604369820759int);
}

proof fn lemma_certificate_13441_15()
    requires
        pow_mod(3int, 934023024386084482380148712626689445145800973806120751nat, 115792089237316195423570985008687907853269984665640564039457584007908834671663int) == 18740438138661460217629336012181803055214566760135583874726820158604369820759int,
    ensures
        pow_mod(3int, 3825758307885402039829089126918919967317200788709870599631nat, 115792089237316195423570985008687907853269984665640564039457584007908834671663int) == 115273669182900026216279190351706534638929066549657635755190171792701472456180int,
{
    let m: int = 115792089237316195423570985008687907853269984665640564039457584007908834671663int;
    lemma_pow_mod_step(3int, 1868046048772168964760297425253378890291601947612241503nat, m, 934023024386084482380148712626689445145800973806120751nat, 18740438138661460217629336012181803055214566760135583874726820158604369820759int, 3033057128015053234768252389172477573771593700280264918391177123600668453583int, 6724856586850484742315573994469388888958739617421390396546070667838026417552int, 0int, 20174569760551454226946721983408166666876218852264171189638212003514079252656int);
    lemma_pow_mod_step(3int, 3736092097544337929520594850506757780583203895224483007nat, m, 1868046048772168964760297425253378890291601947612241503nat, 20174569760551454226946721983408166666876218852264171189638212003514079252656int, 3515035160901038670933356736510890571010132684497620480302686810752786821234int, 33095931104235047727675548978664685701866275705579353598659104770915616562194int, 0int, 99287793312705143183026646935994057105598827116738060795977314312746849686582int);
    lemma_pow_mod_step(3int, 7472184195088675859041189701013515561166407790448966014nat, m, 3736092097544337929520594850506757780583203895224483007nat, 99287793312705143183026646935994057105598827116738060795977314312746849686582int, 85135918747457123945066166811109142689477825297460058717909389413390718072896int, 114847611345018999271212056402862171533266170597127540505559167931395371296676int, 0int, 114847611345018999271212056402862171533266170597127540505559167931395371296676int);
    lemma_pow_mod_step(3int, 14944368390177351718082379402027031122332815580897932029nat, m, 7472184195088675859041189701013515561166407790448966014nat, 114847611345018999271212056402862171533266170597127540505559167931395371296676int, 113910837247470768385339690172011106887493008361151717513428858015667712327799int, 37280177328803444895667762250807067574334502317139408177555703208720016189239int, 0int, 111840531986410334687003286752421202723003506951418224532667109626160048567717int);
    lemma_pow_mod_step(3int, 29888736780354703436164758804054062244665631161795864059nat, m, 14944368390177351718082379402027031122332815580897932029nat, 111840531986410334687003286752421202723003506951418224532667109626160048567717int, 108023826820910620304436061939589036384887582978453718428583044410209115538793int, 70929591201277090735045441247002482157533115253757481241448742292695640269330int, 1int, 96996684366515076781565338732319538619329361095631879684888642870178086136327int);
    lemma_pow_mod_step(3int, 59777473560709406872329517608108124489331262323591728119nat, m, 29888736780354703436164758804054062244665631161795864059nat, 96996684366515076781565338732319538619329361095631879684888642870178086136327int, 81252154962114018138082288409775529191389401727989679893857774772143041365767int, 52193053523134215786396553809732713560332272160304088265545622035800295890408int, 1int, 40787071332086451935618676420510232827726831815271700757179282099492052999561int);
    lemma_pow_mod_step(3int, 119554947121418813744659035216216248978662524647183456238nat, m, 59777473560709406872329517608108124489331262323591728119nat, 40787071332086451935618676420510232827726831815271700757179282099492052999561int, 14367002088019901096890661405476874252363434149330211822098323268679382469519int, 796857393341336794420429446084032889379929755462074235081590519078995652624int, 0int, 796857393341336794420429446084032889379929755462074235081590519078995652624int);
    lemma_pow_mod_step(3int, 239109894242837627489318070432432497957325049294366912476nat, m, 119554947121418813744659035216216248978662524647183456238nat, 796857393341336794420429446084032889379929755462074235081590519078995652624int, 5483809036568579813793133162465317041928483485185197658203947911328176229int, 34394476319831210067348756095541052111832203901022640878761789561167861586549int, 0int, 34394476319831210067348756095541052111832203901022640878761789561167861586549int);
    lemma_pow_mod_step(3int, 478219788485675254978636140864864995914650098588733824953nat, m, 239109894242837627489318070432432497957325049294366912476nat, 34394476319831210067348756095541052111832203901022640878761789561167861586549int, 10216414688665900093857840443663821345078492285662089032848026794184891900415int, 81147736700141464134617609239852351501536358461392865614836571282932799289256int, 2int, 11859031625792001556710857702181238798069106052897468765594545832980728524442int);
    lemma_pow_mod_step(3int, 956439576971350509957272281729729991829300197177467649907nat, m, 478219788485675254978636140864864995914650098588733824953nat, 11859031625792001556710857702181238798069106052897468765594545832980728524442int, 1214561651213492948282826966735411207870149950118434972341576272834618296847int, 44106314670007447424283115919145920134577142567338314457543538098307078264803int, 1int, 16526854772706146849278362748749852550461443036374379333173030287012400122746int);
    lemma_pow_mod_step(3int, 1912879153942701019914544563459459983658600394354935299815nat, m, 956439576971350509957272281729729991829300197177467649907nat, 16526854772706146849278362748749852550461443036374379333173030287012400122746int, 2358856554685053499018804968213897599047370737752942797203946076284962039739int, 96148642010082751467562175132398941301867226421962702935239498864503043364559int, 2int, 56861747555615863555544555379821008199061709934606980726803328577691460750351int);
    lemma_pow_mod_step(3int, 3825758307885402039829089126918919967317200788709870599631nat, m, 1912879153942701019914544563459459983658600394354935299815nat, 56861747555615863555544555379821008199061709934606980726803328577691460750351int, 27922963963902707215256411584103839568141884162444823076186032188246035593173int, 115619282552510805687807053456360783448489678626979587944701779936173047266502int, 2int, 115273669182900026216279190351706534638929066549657635755190171792701472456180int);
}

proof fn lemma_certificate_13441_16()
    requires
        pow_mod(3int, 3825758307885402039829089126918919967317200788709870599631nat, 115792089237316195423570985008687907853269984665640564039457584007908834671663int) == 115273669182900026216279190351706534638929066549657635755190171792701472456180int,
    ensures
        pow_mod(3int, 15670306029098606755139949063859896186131254430555629976089722nat, 115792089237316195423570985008687907853269984665640564039457584007908834671663int) == 41437578854070804930103120956301902448054647628521886783357511686963184283803int,
{
    let m: int = 115792089237316195423570985008687907853269984665640564039457584007908834671663int;
    lemma_pow_mod_step(3int, 7651516615770804079658178253837839934634401577419741199262nat, m, 3825758307885402039829089126918919967317200788709870599631nat, 115273669182900026216279190351706534638929066549657635755190171792701472456180int, 114757570179555576086724077015352120035653710093239401446653708120203556250438int, 80525737692188641847136054002816241925182552952957491058896229241430890254006int, 0int, 80525737692188641847136054002816241925182552952957491058896229241430890254006int);
    lemma_pow_mod_step(3int, 15303033231541608159316356507675679869268803154839482398525nat, m, 7651516615770804079658178253837839934634401577419741199262nat, 80525737692188641847136054002816241925182552952957491058896229241430890254006int, 56000323282719140430392721592596684843616243757843699375523364005157630481798int, 58929508361749472410427302650576856077637523813281579464718447819389371157962int, 1int, 60996435847932221807710922943042660379642586774204174354697759450259278802223int);
    lemma_pow_mod_step(3int, 30606066463083216318632713015351359738537606309678964797050nat, m, 15303033231541608159316356507675679869268803154839482398525nat, 60996435847932221807710922943042660379642586774204174354697759450259278802223int, 32131428067815606644838699066405143759773726939728091690484627152946896735975int, 34767176313129744825918122905883206838661995877020337237655082242588024565304int, 0int, 34767176313129744825918122905883206838661995877020337237655082242588024565304int);
    lemma_pow_mod_step(3int, 61212132926166432637265426030702719477075212619357929594100nat, m, 30606066463083216318632713015351359738537606309678964797050nat, 34767176313129744825918122905883206838661995877020337237655082242588024565304int, 10439025297409568532217742333412013447434073810129611838341997480739642700317int, 32322116631189176208046385022308735122060049132112069988672982387422759595245int, 0int, 32322116631189176208046385022308735122060049132112069988672982387422759595245int);
    lemma_pow_mod_step(3int, 122424265852332865274530852061405438954150425238715859188200nat, m, 61212132926166432637265426030702719477075212619357929594100nat, 32322116631189176208046385022308735122060049132112069988672982387422759595245int, 9022371307067800709506891867961484941648246329489580076120267900207370346059int, 83918091452308715912926090232215398339092591766965656200775818515542275583908int, 0int, 83918091452308715912926090232215398339092591766965656200775818515542275583908int);
    lemma_pow_mod_step(3int, 244848531704665730549061704122810877908300850477431718376401nat, m, 122424265852332865274530852061405438954150425238715859188200nat, 83918091452308715912926090232215398339092591766965656200775818515542275583908int, 60818024092863089099584243541950132271747401157122193817563267625359224430575int, 107470878168732423308997565351493041648156703820774284148037480327804085256239int, 2int, 90828456031564879079850726037103309237930142131041724365197272967594586425391int);
    lemma_pow_mod_step(3int, 489697063409331461098123408245621755816601700954863436752803nat, m, 244848531704665730549061704122810877908300850477431718376401nat, 90828456031564879079850726037103309237930142131041724365197272967594586425391int, 71246736106211108370471143393993277228508668562455041218275578295661163964509int, 48777927813379645169851265046856122644426551646072920929449330705302809494414int, 1int, 30541694202822740085982810131880460080009670272578198748890408107999593811579int);
    lemma_pow_mod_step(3int, 979394126818662922196246816491243511633203401909726873505607nat, m, 489697063409331461098123408245621755816601700954863436752803nat, 30541694202822740085982810131880460080009670272578198748890408107999593811579int, 8055775579512777917982117431212631652481695925458357987284057740309480119667int, 41514135227638561024523034676678947218071316312773389471566479820249460577020int, 1int, 8750316445599487649998119021348933800943964272679604375241855452839547059397int);
    lemma_pow_mod_step(3int, 1958788253637325844392493632982487023266406803819453747011215nat, m, 979394126818662922196246816491243511633203401909726873505607nat, 8750316445599487649998119021348933800943964272679604375241855452839547059397int, 661254481221100118678113059992254834150246164490863137047641783196947801169int, 114500339513448763721427530438951276457651442053362597666315640307971923429562int, 2int, 111916840065713900317140621299478013666414356828806664920031752908098100945360int);
    lemma_pow_mod_step(3int, 3917576507274651688784987265964974046532813607638907494022430nat, m, 1958788253637325844392493632982487023266406803819453747011215nat, 111916840065713900317140621299478013666414356828806664920031752908098100945360int, 108171285040239547967985791079453262545862212895447701690447735172021072886635int, 106071717412113642038067633290040059134317494848604989798833361753613859605595int, 0int, 106071717412113642038067633290040059134317494848604989798833361753613859605595int);
    lemma_pow_mod_step(3int, 7835153014549303377569974531929948093065627215277814988044861nat, m, 3917576507274651688784987265964974046532813607638907494022430nat, 106071717412113642038067633290040059134317494848604989798833361753613859605595int, 97167339399981885500014863780282477747604224207598050520242335229603694455427int, 32853603400828476959742620926528137423606270597047488865678307452477821838924int, 0int, 98560810202485430879227862779584412270818811791142466597034922357433465516772int);
    lemma_pow_mod_step(3int, 15670306029098606755139949063859896186131254430555629976089722nat, m, 7835153014549303377569974531929948093065627215277814988044861nat, 98560810202485430879227862779584412270818811791142466597034922357433465516772int, 83893756229417444521222122661789284213377662096376522621212331060618647250587int, 41437578854070804930103120956301902448054647628521886783357511686963184283803int, 0int, 41437578854070804930103120956301902448054647628521886783357511686963184283803int);
}

proof fn lemma_certificate_13441_17()
    requires
        pow_mod(3int, 15670306029098606755139949063859896186131254430555629976089722nat, 115792089237316195423570985008687907853269984665640564039457584007908834671663int) == 41437578854070804930103120956301902448054647628521886783357511686963184283803int,
    ensures
        pow_mod(3int, 64185573495187893269053231365570134778393618147555860382063501820nat, 115792089237316195423570985008687907853269984665640564039457584007908834671663int) == 7630443400213681361989176983280442711906478044384325621535093387538070241038int,
{
    let m: int = 115792089237316195423570985008687907853269984665640564039457584007908834671663int;
    lemma_pow_mod_step(3int, 31340612058197213510279898127719792372262508861111259952179444nat, m, 15670306029098606755139949063859896186131254430555629976089722nat, 41437578854070804930103120956301902448054647628521886783357511686963184283803int, 14828931342349220029195092640942118426186953937834476711923907509248277355929int, 43895477383961856552071100074943557150167656910353757075954694054007546802882int, 0int, 43895477383961856552071100074943557150167656910353757075954694054007546802882int);
    lemma_pow_mod_step(3int, 62681224116394427020559796255439584744525017722222519904358888nat, m, 31340612058197213510279898127719792372262508861111259952179444nat, 43895477383961856552071100074943557150167656910353757075954694054007546802882int, 16640281278774568009454642134293983150346028808764351213459533472974968960387int, 62182457214613056751012410886372721915354996565289511040496151849804165092343int, 0int, 62182457214613056751012410886372721915354996565289511040496151849804165092343int);
    lemma_pow_mod_step(3int, 125362448232788854041119592510879169489050035444445039808717776nat, m, 62681224116394427020559796255439584744525017722222519904358888nat, 62182457214613056751012410886372721915354996565289511040496151849804165092343int, 33393110105496564178738465323562983028235083206761363404743669554017222251080int, 53053207368822288558399686550530052703767303217913617439393575389436170083609int, 0int, 53053207368822288558399686550530052703767303217913617439393575389436170083609int);
    lemma_pow_mod_step(3int, 250724896465577708082239185021758338978100070888890079617435553nat, m, 125362448232788854041119592510879169489050035444445039808717776nat, 53053207368822288558399686550530052703767303217913617439393575389436170083609int, 24307729747846950365421804596339375818675547178697012283411609550999878789137int, 68963504190393089227781920672442473217907153781884351589447515000358644340050int, 1int, 91098423333863072259774777008639511800451476680012490728884960993167098348487int);
    lemma_pow_mod_step(3int, 501449792931155416164478370043516677956200141777780159234871107nat, m, 250724896465577708082239185021758338978100070888890079617435553nat, 91098423333863072259774777008639511800451476680012490728884960993167098348487int, 71670895555801429726021185738329529147071936204658630831425939475769207431559int, 10735796867052786378328764841214307411998475124372890801389535909419585976552int, 0int, 32207390601158359134986294523642922235995425373118672404168607728258757929656int);
    lemma_pow_mod_step(3int, 1002899585862310832328956740087033355912400283555560318469742215nat, m, 501449792931155416164478370043516677956200141777780159234871107nat, 32207390601158359134986294523642922235995425373118672404168607728258757929656int, 8958435901520024266406013527138732789520381882256099657831461006860817644372int, 93175457396145424415967235577311605216302031647976105079540276529315724447700int, 2int, 47942193713803882400759736714558999942366125612647187159705661572129503999774int);
    lemma_pow_mod_step(3int, 2005799171724621664657913480174066711824800567111120636939484431nat, m, 1002899585862310832328956740087033355912400283555560318469742215nat, 47942193713803882400759736714558999942366125612647187159705661572129503999774int, 19849835625482229856880236100572620447110255054887354700871404722456415531959int, 113797963223194181601340871836607779457438264155623764979288422884612943873259int, 2int, 109809711194950153956880645492447522665774823135590166858950100638021162276451int);
    lemma_pow_mod_step(3int, 4011598343449243329315826960348133423649601134222241273878968863nat, m, 2005799171724621664657913480174066711824800567111120636939484431nat, 109809711194950153956880645492447522665774823135590166858950100638021162276451int, 104136411668029446698273047910576780378039658332517918084821467464284778877427int, 2703021781049567463150842194690538490633585028516028259600093236663281904300int, 0int, 8109065343148702389452526584071615471900755085548084778800279709989845712900int);
    lemma_pow_mod_step(3int, 8023196686898486658631653920696266847299202268444482547757937727nat, m, 4011598343449243329315826960348133423649601134222241273878968863nat, 8109065343148702389452526584071615471900755085548084778800279709989845712900int, 567888023893293411240877505065278291307548306952603984041040452179199078953int, 20982342367679660529900272729576201712902652799259973490607075116947457601161int, 0int, 62947027103038981589700818188728605138707958397779920471821225350842372803483int);
    lemma_pow_mod_step(3int, 16046393373796973317263307841392533694598404536888965095515875455nat, m, 8023196686898486658631653920696266847299202268444482547757937727nat, 62947027103038981589700818188728605138707958397779920471821225350842372803483int, 34219334388119743448624408902558241238443776415845433051946977434177001667313int, 84266860143639456502113713867212942633076989405961915779918760018595022479770int, 2int, 21216401956285978659199171584263012192690998886604619260841112039967398095984int);
    lemma_pow_mod_step(3int, 32092786747593946634526615682785067389196809073777930191031750910nat, m, 16046393373796973317263307841392533694598404536888965095515875455nat, 21216401956285978659199171584263012192690998886604619260841112039967398095984int, 3887447881246370477175571805672226276122124704348886257723787524826067252108int, 91268869911736059224716281909068954119163212884041187338366849856337652312652int, 0int, 91268869911736059224716281909068954119163212884041187338366849856337652312652int);
    lemma_pow_mod_step(3int, 64185573495187893269053231365570134778393618147555860382063501820nat, m, 32092786747593946634526615682785067389196809073777930191031750910nat, 91268869911736059224716281909068954119163212884041187338366849856337652312652int, 71939341191892901960151867817581979936200215210348421762350176561053333693982int, 7630443400213681361989176983280442711906478044384325621535093387538070241038int, 0int, 7630443400213681361989176983280442711906478044384325621535093387538070241038int);
}

proof fn lemma_certificate_13441_18()
    requires
        pow_mod(3int, 64185573495187893269053231365570134778393618147555860382063501820nat, 115792089237316195423570985008687907853269984665640564039457584007908834671663int) == 7630443400213681361989176983280442711906478044384325621535093387538070241038int,
    ensures
        pow_mod(3int, 262904109036289610830042035673375272052300259932388804124932103458456nat, 115792089237316195423570985008687907853269984665640564039457584007908834671663int) == 112842412514978399569432075639441348696925562783612984543736149500744012404322int,
{
    let m: int = 115792089237316195423570985008687907853269984665640564039457584007908834671663int;
    lemma_pow_mod_step(3int, 128371146990375786538106462731140269556787236295111720764127003641nat, m, 64185573495187893269053231365570134778393618147555860382063501820nat, 7630443400213681361989176983280442711906478044384325621535093387538070241038int, 502829397650257155988846528251431006729639839953500658965967460707082380913int, 102857172954854640637788474300178679239446792938946722940245287835932766149125int, 2int, 76987340389931531066223452883160222011800409485559040741820695491980629104049int);
    lemma_pow_mod_step(3int, 256742293980751573076212925462280539113574472590223441528254007283nat, m, 128371146990375786538106462731140269556787236295111720764127003641nat, 76987340389931531066223452883160222011800409485559040741820695491980629104049int, 51187007846172262361622441534639597112734558208707716335510082666447277678573int, 27425126327648029673495082081622146661539131916463032115711188108863162817502int, 0int, 82275378982944089020485246244866439984617395749389096347133564326589488452506int);
    lemma_pow_mod_step(3int, 513484587961503146152425850924561078227148945180446883056508014567nat, m, 256742293980751573076212925462280539113574472590223441528254007283nat, 82275378982944089020485246244866439984617395749389096347133564326589488452506int, 58460280243441385960848905562080945168699794397357334397784665402862629143157int, 54836292742514749189458038953646194088568220266408262208260569836891499419945int, 1int, 48716788990228052144803131852250674412434676133584222585324125502765663588172int);
    lemma_pow_mod_step(3int, 1026969175923006292304851701849122156454297890360893766113016029134nat, m, 513484587961503146152425850924561078227148945180446883056508014567nat, 48716788990228052144803131852250674412434676133584222585324125502765663588172int, 20496439309029722747166037183216687805065103795806542970181570882004122802367int, 11866116685795315610048250424561515661949383434292968805043047869878134075263int, 0int, 11866116685795315610048250424561515661949383434292968805043047869878134075263int);
    lemma_pow_mod_step(3int, 2053938351846012584609703403698244312908595780721787532226032058269nat, m, 1026969175923006292304851701849122156454297890360893766113016029134nat, 11866116685795315610048250424561515661949383434292968805043047869878134075263int, 1216013340188813291106474492028429338434922330289069023172070712433306324811int, 97419000323457296254585952199673952907850683208916979793231640059897732988476int, 2int, 60672822495739497916615886581646043017012080295469811300779752163875529622102int);
    lemma_pow_mod_step(3int, 4107876703692025169219406807396488625817191561443575064452064116538nat, m, 2053938351846012584609703403698244312908595780721787532226032058269nat, 60672822495739497916615886581646043017012080295469811300779752163875529622102int, 31791389324143735890719958658025083816017160730241699664004352839157218022618int, 96808724777171674527161925456324400942300065253450315933353170881534789224670int, 0int, 96808724777171674527161925456324400942300065253450315933353170881534789224670int);
    lemma_pow_mod_step(3int, 8215753407384050338438813614792977251634383122887150128904128233076nat, m, 4107876703692025169219406807396488625817191561443575064452064116538nat, 96808724777171674527161925456324400942300065253450315933353170881534789224670int, 80937560197004296476697974087208350244673335427053038884170194898627729780809int, 98115330957322505434243584753579994439190044468471367886156897091505263093533int, 0int, 98115330957322505434243584753579994439190044468471367886156897091505263093533int);
    lemma_pow_mod_step(3int, 16431506814768100676877627229585954503268766245774300257808256466153nat, m, 8215753407384050338438813614792977251634383122887150128904128233076nat, 98115330957322505434243584753579994439190044468471367886156897091505263093533int, 83137097121852153502159531015145466693820237665416477090789899241253853865437int, 111258914802957529642348185331749498523089915893266968637367650405717827410358int, 2int, 102192565934240198079902585977872679862729778348519777833187783201335812887748int);
    lemma_pow_mod_step(3int, 32863013629536201353755254459171909006537532491548600515616512932307nat, m, 16431506814768100676877627229585954503268766245774300257808256466153nat, 102192565934240198079902585977872679862729778348519777833187783201335812887748int, 90190276391165349398262532309494678528029404026539500716968746846314460238040int, 65617205478313946375712545092784776924933428790949945250230319905498625850984int, 1int, 81059527197625643703566650269666422921530301707209271711233375708587042881289int);
    lemma_pow_mod_step(3int, 65726027259072402707510508918343818013075064983097201031233025864614nat, m, 32863013629536201353755254459171909006537532491548600515616512932307nat, 81059527197625643703566650269666422921530301707209271711233375708587042881289int, 56745214571921688119095437718181093394775704353718456879780354996520694973964int, 90401193706392821613401197445599513557802982061949449369304881900944672719389int, 0int, 90401193706392821613401197445599513557802982061949449369304881900944672719389int);
    lemma_pow_mod_step(3int, 131452054518144805415021017836687636026150129966194402062466051729228nat, m, 65726027259072402707510508918343818013075064983097201031233025864614nat, 90401193706392821613401197445599513557802982061949449369304881900944672719389int, 70578015107676752200791221574710481198562522995875242095608400403666604468383int, 30948306062654001317113346243631765331211142431496180350603780935855867002392int, 0int, 30948306062654001317113346243631765331211142431496180350603780935855867002392int);
    lemma_pow_mod_step(3int, 262904109036289610830042035673375272052300259932388804124932103458456nat, m, 131452054518144805415021017836687636026150129966194402062466051729228nat, 30948306062654001317113346243631765331211142431496180350603780935855867002392int, 8271701931076634965428989155421605352033830178034185171432261939743045141634int, 112842412514978399569432075639441348696925562783612984543736149500744012404322int, 0int, 112842412514978399569432075639441348696925562783612984543736149500744012404322int);
}

proof fn lemma_certificate_13441_19()
    requires
        pow_mod(3int, 262904109036289610830042035673375272052300259932388804124932103458456nat, 115792089237316195423570985008687907853269984665640564039457584007908834671663int) == 112842412514978399569432075639441348696925562783612984543736149500744012404322int,
    ensures
        pow_mod(3int, 1076855230612642245959852178118145114326221864683064541695721895765836197nat, 115792089237316195423570985008687907853269984665640564039457584007908834671663int) == 115253921217215271930155479855654357128428229597512507195442665219178606095856int,
{
    let m: int = 115792089237316195423570985008687907853269984665640564039457584007908834671663int;
    lemma_pow_mod_step(3int, 525808218072579221660084071346750544104600519864777608249864206916912nat, m, 262904109036289610830042035673375272052300259932388804124932103458456nat, 112842412514978399569432075639441348696925562783612984543736149500744012404322int, 109967875578299618420192889017576619680952768297104315774641923989052822670839int, 114108759000099968991738914821262588033774802871386928027053765496677914544427int, 0int, 114108759000099968991738914821262588033774802871386928027053765496677914544427int);
    lemma_pow_mod_step(3int, 1051616436145158443320168142693501088209201039729555216499728413833824nat, m, 525808218072579221660084071346750544104600519864777608249864206916912nat, 114108759000099968991738914821262588033774802871386928027053765496677914544427int, 112449900216039052375512862182860510888611651238971502821524463055426326354813int, 57896825437453317425064662258264239678875097311041404438236152275910461994310int, 0int, 57896825437453317425064662258264239678875097311041404438236152275910461994310int);
    lemma_pow_mod_step(3int, 2103232872290316886640336285387002176418402079459110432999456827667648nat, m, 1051616436145158443320168142693501088209201039729555216499728413833824nat, 57896825437453317425064662258264239678875097311041404438236152275910461994310int, 28948803133389550463506060662778901568542127283437395025328716944263186692428int, 41333971829863700196774792193431463790755531909091405216849405516070124108336int, 0int, 41333971829863700196774792193431463790755531909091405216849405516070124108336int);
    lemma_pow_mod_step(3int, 4206465744580633773280672570774004352836804158918220865998913655335297nat, m, 2103232872290316886640336285387002176418402079459110432999456827667648nat, 41333971829863700196774792193431463790755531909091405216849405516070124108336int, 14754870030286752188132700428194660797694829607047686707255392270248541095502int, 95504820155121744672209214176941898259394326545328619227701506872596568529070int, 2int, 54930281990732843169485672513449879071643010304704729604189352601972036243884int);
    lemma_pow_mod_step(3int, 8412931489161267546561345141548008705673608317836441731997827310670595nat, m, 4206465744580633773280672570774004352836804158918220865998913655335297nat, 54930281990732843169485672513449879071643010304704729604189352601972036243884int, 26058221243399374192306945767493476301198144307433359222989882932875713182105int, 2157853025768442590680735195968215160895958472572618492033091011756525214841int, 0int, 6473559077305327772042205587904645482687875417717855476099273035269575644523int);
    lemma_pow_mod_step(3int, 16825862978322535093122690283096017411347216635672883463995654621341190nat, m, 8412931489161267546561345141548008705673608317836441731997827310670595nat, 6473559077305327772042205587904645482687875417717855476099273035269575644523int, 361915631744702057145288867110802455215030074906442206978902093122867807450int, 99805505659039669781039671128675276321664779839513469570609236479217404608179int, 0int, 99805505659039669781039671128675276321664779839513469570609236479217404608179int);
    lemma_pow_mod_step(3int, 33651725956645070186245380566192034822694433271345766927991309242682381nat, m, 16825862978322535093122690283096017411347216635672883463995654621341190nat, 99805505659039669781039671128675276321664779839513469570609236479217404608179int, 86026075058039748375180858488907280848093278887518908585092205005896420510581int, 23625611502150899293034656278869697356606853361461949155763695351602561329838int, 0int, 70876834506452697879103968836609092069820560084385847467291086054807683989514int);
    lemma_pow_mod_step(3int, 67303451913290140372490761132384069645388866542691533855982618485364762nat, m, 33651725956645070186245380566192034822694433271345766927991309242682381nat, 70876834506452697879103968836609092069820560084385847467291086054807683989514int, 43384014423984997835661270247306581844532415555049979288852559874260402463859int, 94761346016310619913738455411013902194984218375534752814793361212720773028679int, 0int, 94761346016310619913738455411013902194984218375534752814793361212720773028679int);
    lemma_pow_mod_step(3int, 134606903826580280744981522264768139290777733085383067711965236970729524nat, m, 67303451913290140372490761132384069645388866542691533855982618485364762nat, 94761346016310619913738455411013902194984218375534752814793361212720773028679int, 77550312443357019766176366233229959096174205295145173075203985288863921750112int, 94661028847775182557659156560217849502712733101152385878451963933534703008785int, 0int, 94661028847775182557659156560217849502712733101152385878451963933534703008785int);
    lemma_pow_mod_step(3int, 269213807653160561489963044529536278581555466170766135423930473941459049nat, m, 134606903826580280744981522264768139290777733085383067711965236970729524nat, 94661028847775182557659156560217849502712733101152385878451963933534703008785int, 77386205236821709825478465808289576673165728514687893612470943641100152670259int, 87023813640843330099755878659735535192096901922426325963813698426720817005508int, 2int, 29487262447897599452125665961830789869750736435997849812525927264344781673198int);
    lemma_pow_mod_step(3int, 538427615306321122979926089059072557163110932341532270847860947882918098nat, m, 269213807653160561489963044529536278581555466170766135423930473941459049nat, 29487262447897599452125665961830789869750736435997849812525927264344781673198int, 7509136871078922635938656979843298068374947899379377674063941132783495998734int, 89974218085515020174587143049441291990054665972769678319387424304523317872562int, 0int, 89974218085515020174587143049441291990054665972769678319387424304523317872562int);
    lemma_pow_mod_step(3int, 1076855230612642245959852178118145114326221864683064541695721895765836197nat, m, 538427615306321122979926089059072557163110932341532270847860947882918098nat, 89974218085515020174587143049441291990054665972769678319387424304523317872562int, 69912892784137925136237764939229865439105601183963329159180674240937769729484int, 38417973739071757310051826618551452376142743199170835731814221739726202031952int, 0int, 115253921217215271930155479855654357128428229597512507195442665219178606095856int);
}

proof fn lemma_certificate_13441_20()
    requires
        pow_mod(3int, 1076855230612642245959852178118145114326221864683064541695721895765836197nat, 115792089237316195423570985008687907853269984665640564039457584007908834671663int) == 115253921217215271930155479855654357128428229597512507195442665219178606095856int,
    ensures
        pow_mod(3int, 8614841844901137967678817424945160914609774917464516333565775166126689582nat, 115792089237316195423570985008687907853269984665640564039457584007908834671663int) == 47069427835566023893842355796053529714200560266804286213968496489326012498751int,
{
    let m: int = 115792089237316195423570985008687907853269984665640564039457584007908834671663int;
    lemma_pow_mod_step(3int, 2153710461225284491919704356236290228652443729366129083391443791531672395nat, m, 1076855230612642245959852178118145114326221864683064541695721895765836197nat, 115253921217215271930155479855654357128428229597512507195442665219178606095856int, 114718254445859120293799559807674913600517336524060717281297414460400821179475int, 29970100279725483026096193398059319136809142858156579256717314056184640655811int, 0int, 89910300839176449078288580194177957410427428574469737770151942168553921967433int);
    lemma_pow_mod_step(3int, 4307420922450568983839408712472580457304887458732258166782887583063344791nat, m, 2153710461225284491919704356236290228652443729366129083391443791531672395nat, 89910300839176449078288580194177957410427428574469737770151942168553921967433int, 69813596509372209105787043941378819750300705221138037831351319952618616242824int, 96960984578198959662537691109316586285645173771976316333528649616496792713177int, 2int, 59298775259964488140471103310573943150395551984647820921670780833672708796205int);
    lemma_pow_mod_step(3int, 8614841844901137967678817424945160914609774917464516333565775166126689582nat, m, 4307420922450568983839408712472580457304887458732258166782887583063344791nat, 59298775259964488140471103310573943150395551984647820921670780833672708796205int, 30367745935778207775290841336367183093602487855093462922496316927314030478198int, 47069427835566023893842355796053529714200560266804286213968496489326012498751int, 0int, 47069427835566023893842355796053529714200560266804286213968496489326012498751int);
}

proof fn lemma_certificate_13441()
    ensures
        pow_mod(3int, 8614841844901137967678817424945160914609774917464516333565775166126689582nat, 115792089237316195423570985008687907853269984665640564039457584007908834671663int) == 47069427835566023893842355796053529714200560266804286213968496489326012498751int,
{
    lemma_pow_mod_zero(3int, 115792089237316195423570985008687907853269984665640564039457584007908834671663int);
    lemma_certificate_13441_0();
    lemma_certificate_13441_1();
    lemma_certificate_13441_2();
    lemma_certificate_13441_3();
    lemma_certificate_13441_4();
    lemma_certificate_13441_5();
    lemma_certificate_13441_6();
    lemma_certificate_13441_7();
    lemma_certificate_13441_8();
    lemma_certificate_13441_9();
    lemma_certificate_13441_10();
    lemma_certificate_13441_11();
    lemma_certificate_13441_12();
    lemma_certificate_13441_13();
    lemma_certificate_13441_14();
    lemma_certificate_13441_15();
    lemma_certificate_13441_16();
    lemma_certificate_13441_17();
    lemma_certificate_13441_18();
    lemma_certificate_13441_19();
    lemma_certificate_13441_20();
}

proof fn lemma_certificate_205115282021455665897114700593932402728804164701536103180137503955397371_0()
    requires
        pow_mod(3int, 0nat, 115792089237316195423570985008687907853269984665640564039457584007908834671663int) == 1int,
    ensures
        pow_mod(3int, 2205nat, 115792089237316195423570985008687907853269984665640564039457584007908834671663int) == 9142784874946772297449215251484186516344005825986418939695239808468231669128int,
{
    let m: int = 115792089237316195423570985008687907853269984665640564039457584007908834671663int;
    lemma_pow_mod_step(3int, 1nat, m, 0nat, 1int, 0int, 1int, 0int, 3int);
    lemma_pow_mod_step(3int, 2nat, m, 1nat, 3int, 0int, 9int, 0int, 9int);
    lemma_pow_mod_step(3int, 4nat, m, 2nat, 9int, 0int, 81int, 0int, 81int);
    lemma_pow_mod_step(3int, 8nat, m, 4nat, 81int, 0int, 6561int, 0int, 6561int);
    lemma_pow_mod_step(3int, 17nat, m, 8nat, 6561int, 0int, 43046721int, 0int, 129140163int);
    lemma_pow_mod_step(3int, 34nat, m, 17nat, 129140163int, 0int, 16677181699666569int, 0int, 16677181699666569int);
    lemma_pow_mod_step(3int, 68nat, m, 34nat, 16677181699666569int, 0int, 278128389443693511257285776231761int, 0int, 278128389443693511257285776231761int);
    lemma_pow_mod_step(3int, 137nat, m, 68nat, 278128389443693511257285776231761int, 0int, 77355401014542844188348446843727534965514746256921793516785161121int, 0int, 232066203043628532565045340531182604896544238770765380550355483363int);
    lemma_pow_mod_step(3int, 275nat, m, 137nat, 232066203043628532565045340531182604896544238770765380550355483363int, 465098461819021395626795751315592877781204113434874401int, 50904107402947987927759097253919996021566488404896191700286230057354890990906int, 1int, 36920232971527768359706306753072080211429480549048011061401106164155838301055int);
    lemma_pow_mod_step(3int, 551nat, m, 275nat, 36920232971527768359706306753072080211429480549048011061401106164155838301055int, 11771992470730894946740774184640019916266310923868434893387013710633963621827int, 12694948730239752252995007647762914763962422921507961702253041507280968924724int, 0int, 38084846190719256758985022943288744291887268764523885106759124521842906774172int);
    lemma_pow_mod_step(3int, 1102nat, m, 551nat, 38084846190719256758985022943288744291887268764523885106759124521842906774172int, 12526378260591106970482517103564936312537536283011898000407867170480583472445int, 36071528606196624801829982132157668907514793723252302216246059957831023459549int, 0int, 36071528606196624801829982132157668907514793723252302216246059957831023459549int);
    lemma_pow_mod_step(3int, 2205nat, m, 1102nat, 36071528606196624801829982132157668907514793723252302216246059957831023459549int, 11236995416163019715516512263728490298213274767056712831599263348441737555508int, 41644958037420989240340066753390698123204663497208994326384274605459022113597int, 1int, 9142784874946772297449215251484186516344005825986418939695239808468231669128int);
}

proof fn lemma_certificate_205115282021455665897114700593932402728804164701536103180137503955397371_1()
    requires
        pow_mod(3int, 2205nat, 115792089237316195423570985008687907853269984665640564039457584007908834671663int) == 9142784874946772297449215251484186516344005825986418939695239808468231669128int,
    ensures
        pow_mod(3int, 564522nat, 115792089237316195423570985008687907853269984665640564039457584007908834671663int) == 15008666919421193757556023654256545850754027412553468855825889464239117716646int,
{
    let m: int = 115792089237316195423570985008687907853269984665640564039457584007908834671663int;
    lemma_pow_mod_step(3int, 4410nat, m, 2205nat, 9142784874946772297449215251484186516344005825986418939695239808468231669128int, 721901779475076945738902766020016354315761732202080449855890219472212357014int, 114008133778893018492861530259372888499919604240733587787399589085362843186102int, 0int, 114008133778893018492861530259372888499919604240733587787399589085362843186102int);
    lemma_pow_mod_step(3int, 8820nat, m, 4410nat, 114008133778893018492861530259372888499919604240733587787399589085362843186102int, 112251662901658417502898542456397186117205282735289264348299449716821751694282int, 26681202100976490806635062985061022428589793434078625327749394097355181423438int, 0int, 26681202100976490806635062985061022428589793434078625327749394097355181423438int);
    lemma_pow_mod_step(3int, 17641nat, m, 8820nat, 26681202100976490806635062985061022428589793434078625327749394097355181423438int, 6147972199500942894006778825193374613614320550642433687336307186650033644747int, 6579408352113412631638891719125790174343255743271663736005788886900926035583int, 0int, 19738225056340237894916675157377370523029767229814991208017366660702778106749int);
    lemma_pow_mod_step(3int, 35282nat, m, 17641nat, 19738225056340237894916675157377370523029767229814991208017366660702778106749int, 3364629923692424401480654406533825823954511303013204692242866756873425142140int, 38950123304404524672521110684256172849797493578065399096721501518692834170181int, 0int, 38950123304404524672521110684256172849797493578065399096721501518692834170181int);
    lemma_pow_mod_step(3int, 70565nat, m, 35282nat, 38950123304404524672521110684256172849797493578065399096721501518692834170181int, 13102035859453154400694498100576203458313340617944297043417778309367893356173int, 11659918740387977024354905458750166151625454014934301303130736243907300347062int, 0int, 34979756221163931073064716376250498454876362044802903909392208731721901041186int);
    lemma_pow_mod_step(3int, 141130nat, m, 70565nat, 34979756221163931073064716376250498454876362044802903909392208731721901041186int, 10567072011148528569460879399274383706584935914456898745432304137413898477792int, 23339497088641307454173893662352547417243487304590579644039973656523051078500int, 0int, 23339497088641307454173893662352547417243487304590579644039973656523051078500int);
    lemma_pow_mod_step(3int, 282261nat, m, 141130nat, 23339497088641307454173893662352547417243487304590579644039973656523051078500int, 4704398443267278184695841657372581631868526852133109372295639233887367871880int, 85220394593713825390297693919900973802406636584060359523718556596658311713560int, 2int, 24077005306509085323751111742327105700679940420899950492240501774157265797354int);
    lemma_pow_mod_step(3int, 564522nat, m, 282261nat, 24077005306509085323751111742327105700679940420899950492240501774157265797354int, 5006405777354664375130060196758834188918660205416317484920433393075200845090int, 15008666919421193757556023654256545850754027412553468855825889464239117716646int, 0int, 15008666919421193757556023654256545850754027412553468855825889464239117716646int);
}

proof fn lemma_certificate_205115282021455665897114700593932402728804164701536103180137503955397371()
    ensures
        pow_mod(3int, 564522nat, 115792089237316195423570985008687907853269984665640564039457584007908834671663int) == 15008666919421193757556023654256545850754027412553468855825889464239117716646int,
{
    lemma_pow_mod_zero(3int, 115792089237316195423570985008687907853269984665640564039457584007908834671663int);
    lemma_certificate_205115282021455665897114700593932402728804164701536103180137503955397371_0();
    lemma_certificate_205115282021455665897114700593932402728804164701536103180137503955397371_1();
}

/// The field modulus p is prime, by a Lucas certificate with witness 3.
pub proof fn lemma_prime_modulus()
    ensures
        is_prime(115792089237316195423570985008687907853269984665640564039457584007908834671663int),
        forall|x: int| 1 <= x < 115792089237316195423570985008687907853269984665640564039457584007908834671663int ==> #[trigger] power_of(3, 115792089237316195423570985008687907853269984665640564039457584007908834671663int, x),
        pow_mod(3, 115792089237316195423570985008687907853269984665640564039457584007908834671662nat, 115792089237316195423570985008687907853269984665640564039457584007908834671663int) == 1,
{
    lemma_small_primes();
    lemma_prime_13441();
    lemma_prime_205115282021455665897114700593932402728804164701536103180137503955397371();
    let fs: Seq<int> = Seq::empty().push(2int).push(3int).push(7int).push(13441int).push(205115282021455665897114700593932402728804164701536103180137503955397371int);
    assert(product(Seq::<int>::empty()) == 1);
    lemma_product_push(Seq::<int>::empty(), 2int);
    lemma_product_push(Seq::<int>::empty().push(2int), 3int);
    lemma_product_push(Seq::<int>::empty().push(2int).push(3int), 7int);
    lemma_product_push(Seq::<int>::empty().push(2int).push(3int).push(7int), 13441int);
    lemma_product_push(Seq::<int>::empty().push(2int).push(3int).push(7int).push(13441int), 205115282021455665897114700593932402728804164701536103180137503955397371int);
    lemma_certificate_full();
    lemma_certificate_2();
    lemma_certificate_3();
    lemma_certificate_7();
    lemma_certificate_13441();
    lemma_certificate_205115282021455665897114700593932402728804164701536103180137503955397371();
    assert forall|i: int| 0 <= i < fs.len() implies is_prime(#[trigger] fs[i])
        && pow_mod(3, ((115792089237316195423570985008687907853269984665640564039457584007908834671663int - 1) / fs[i]) as nat, 115792089237316195423570985008687907853269984665640564039457584007908834671663int) != 1 by {
        if i == 0 { assert(fs[0] == 2int); } else if i == 1 { assert(fs[1] == 3int); } else if i == 2 { assert(fs[2] == 7int); } else if i == 3 { assert(fs[3] == 13441int); } else if i == 4 { assert(fs[4] == 205115282021455665897114700593932402728804164701536103180137503955397371int); }
    }
    lemma_lucas(115792089237316195423570985008687907853269984665640564039457584007908834671663int, 3, fs);
}

proof fn lemma_minus_seven_chain_0()
    requires
        pow_mod(115792089237316195423570985008687907853269984665640564039457584007908834671656int, 0nat, 115792089237316195423570985008687907853269984665640564039457584007908834671663int) == 1int,
    ensures
        pow_mod(115792089237316195423570985008687907853269984665640564039457584007908834671656int, 2730nat, 115792089237316195423570985008687907853269984665640564039457584007908834671663int) == 63715549478547472247427046846895688580574588172528502549461527261681585309996int,
{
    let m: int = 115792089237316195423570985008687907853269984665640564039457584007908834671663int;
    lemma_pow_mod_step(115792089237316195423570985008687907853269984665640564039457584007908834671656int, 1nat, m, 0nat, 1int, 0int, 1int, 0int, 115792089237316195423570985008687907853269984665640564039457584007908834671656int);
    lemma_pow_mod_step(115792089237316195423570985008687907853269984665640564039457584007908834671656int, 2nat, m, 1nat, 115792089237316195423570985008687907853269984665640564039457584007908834671656int, 115792089237316195423570985008687907853269984665640564039457584007908834671649int, 49int, 0int, 49int);
    lemma_pow_mod_step(115792089237316195423570985008687907853269984665640564039457584007908834671656int, 5nat, m, 2nat, 49int, 0int, 2401int, 2400int, 115792089237316195423570985008687907853269984665640564039457584007908834654856int);
    lemma_pow_mod_step(115792089237316195423570985008687907853269984665640564039457584007908834671656int, 10nat, m, 5nat, 115792089237316195423570985008687907853269984665640564039457584007908834654856int, 115792089237316195423570985008687907853269984665640564039457584007908834638049int, 282475249int, 0int, 282475249int);
    lemma_pow_mod_step(115792089237316195423570985008687907853269984665640564039457584007908834671656int, 21nat, m, 10nat, 282475249int, 0int, 79792266297612001int, 79792266297612000int, 115792089237316195423570985008687907853269984665640564039457025462044751387656int);
    lemma_pow_mod_step(115792089237316195423570985008687907853269984665640564039457584007908834671656int, 42nat, m, 21nat, 115792089237316195423570985008687907853269984665640564039457025462044751387656int, 115792089237316195423570985008687907853269984665640564039456466916180668103649int, 311973482284542371301330321821976049int, 0int, 311973482284542371301330321821976049int);
    lemma_pow_mod_step(115792089237316195423570985008687907853269984665640564039457584007908834671656int, 85nat, m, 42nat, 311973482284542371301330321821976049int, 0int, 97327453648743672783790144527749033795901408624680013074608083129650401int, 97327453648743672783790144527749033795901408624680013074608083129650400int, 115791407945140654217861498477676213610033413355780191279366061751326927118856int);
    lemma_pow_mod_step(115792089237316195423570985008687907853269984665640564039457584007908834671656int, 170nat, m, 85nat, 115791407945140654217861498477676213610033413355780191279366061751326927118856int, 115790726656973668618246776240861346526973158951810757726436585396823088396116int, 87148117373801171930577940919474928790314434041307146863971672161775006287828int, 0int, 87148117373801171930577940919474928790314434041307146863971672161775006287828int);
    lemma_pow_mod_step(115792089237316195423570985008687907853269984665640564039457584007908834671656int, 341nat, m, 170nat, 87148117373801171930577940919474928790314434041307146863971672161775006287828int, 65589924249766962844401629219710146759796441441570562685625339364176552705483int, 31416272023241395634231333427579640550715729341032598560527785957080136129355int, 31416272023241395634231333427579640550715729341032598560527785957080136129353int, 11670274311942621407522636024318331851529863944052938155220666316256716437841int);
    lemma_pow_mod_step(115792089237316195423570985008687907853269984665640564039457584007908834671656int, 682nat, m, 341nat, 11670274311942621407522636024318331851529863944052938155220666316256716437841int, 1176205588940149357812275151209381462649705096200160391155953360775017390918int, 6290206582281333064583891106380535924855300648875041265288094855696568584647int, 0int, 6290206582281333064583891106380535924855300648875041265288094855696568584647int);
    lemma_pow_mod_step(115792089237316195423570985008687907853269984665640564039457584007908834671656int, 1365nat, m, 682nat, 6290206582281333064583891106380535924855300648875041265288094855696568584647int, 341704680418049580209232345630502330830618463297085180969282344142715405553int, 80008044964552276214929176270142246677390206156477534149813657797112162169970int, 80008044964552276214929176270142246677390206156477534149813657797112162169965int, 18904131434715043613350691152443812524618480232860081148592315459759038168525int);
    lemma_pow_mod_step(115792089237316195423570985008687907853269984665640564039457584007908834671656int, 2730nat, m, 1365nat, 18904131434715043613350691152443812524618480232860081148592315459759038168525int, 3086274612150390552710996875796093980391295824124405257167220795028583195283int, 63715549478547472247427046846895688580574588172528502549461527261681585309996int, 0int, 63715549478547472247427046846895688580574588172528502549461527261681585309996int);
}

proof fn lemma_minus_seven_chain_1()
    requires
        pow_mod(115792089237316195423570985008687907853269984665640564039457584007908834671656int, 2730nat, 115792089237316195423570985008687907853269984665640564039457584007908834671663int) == 63715549478547472247427046846895688580574588172528502549461527261681585309996int,
    ensures
        pow_mod(115792089237316195423570985008687907853269984665640564039457584007908834671656int, 11184810nat, 115792089237316195423570985008687907853269984665640564039457584007908834671663int) == 67045383516225953069918313113051530471537395933067066524800453062504333393649int,
{
    let m: int = 115792089237316195423570985008687907853269984665640564039457584007908834671663int;
    lemma_pow_mod_step(115792089237316195423570985008687907853269984665640564039457584007908834671656int, 5461nat, m, 2730nat, 63715549478547472247427046846895688580574588172528502549461527261681585309996int, 35060005153140678100623096153953521171847375145621293029161829226752510890050int, 91917973772744407817554628161189333951744429588144691874827295844919773866866int, 91917973772744407817554628161189333951744429588144691874827295844919773866860int, 51326719014686317818543512923802109457408900876830541112954433133014590961916int);
    lemma_pow_mod_step(115792089237316195423570985008687907853269984665640564039457584007908834671656int, 10922nat, m, 5461nat, 51326719014686317818543512923802109457408900876830541112954433133014590961916int, 22751399531390149101625705450183048231314095231271245105419609412520171676453int, 45616462631252662483532343888479175542028943577518925198410187721079638939717int, 0int, 45616462631252662483532343888479175542028943577518925198410187721079638939717int);
    lemma_pow_mod_step(115792089237316195423570985008687907853269984665640564039457584007908834671656int, 21845nat, m, 10922nat, 45616462631252662483532343888479175542028943577518925198410187721079638939717int, 17970672061402563147651335302394087038851332035513150787077291321705449700639int, 8359093992468886045549424575449269829408920592851698867171826282240753747432int, 8359093992468886045549424575449269829408920592851698867171826282240753747431int, 57278431290033993104725012980543019047407540515678671969254800032223558439639int);
    lemma_pow_mod_step(115792089237316195423570985008687907853269984665640564039457584007908834671656int, 43690nat, m, 21845nat, 57278431290033993104725012980543019047407540515678671969254800032223558439639int, 28333703214587471155997110366251565774092852475362676877495981673576405652740int, 106264381190160609101552613149668150170531843904815863574855309298169310143701int, 0int, 106264381190160609101552613149668150170531843904815863574855309298169310143701int);
    lemma_pow_mod_step(115792089237316195423570985008687907853269984665640564039457584007908834671656int, 87381nat, m, 43690nat, 106264381190160609101552613149668150170531843904815863574855309298169310143701int, 97520640521344532318479477006907113620150536519102395931596219494228403399946int, 37845492052400274551292463100337247093947700181415284700163597415417488047203int, 37845492052400274551292463100337247093947700181415284700163597415417488047200int, 82457823345146664411665713323702993902176052727014699217227570115804087684568int);
    lemma_pow_mod_step(115792089237316195423570985008687907853269984665640564039457584007908834671656int, 174762nat, m, 87381nat, 82457823345146664411665713323702993902176052727014699217227570115804087684568int, 58719837215168005834372625268023659606740335930345264917335532252245715727469int, 8946746289730628007270778589115420543442579651984516130737039258203660335677int, 0int, 8946746289730628007270778589115420543442579651984516130737039258203660335677int);
    lemma_pow_mod_step(115792089237316195423570985008687907853269984665640564039457584007908834671656int, 349525nat, m, 174762nat, 8946746289730628007270778589115420543442579651984516130737039258203660335677int, 691275800445726610880549093416420249082655085048337646277098020564510500346int, 54397788026763906516213069318924001872431206548413441372179858745795561152931int, 54397788026763906516213069318924001872431206548413441372179858745795561152927int, 82383840761917436080792454802283618306061492823668166552571324811066410616135int);
    lemma_pow_mod_step(115792089237316195423570985008687907853269984665640564039457584007908834671656int, 699050nat, m, 349525nat, 82383840761917436080792454802283618306061492823668166552571324811066410616135int, 58614515580376091504560090786379848155991963478479813693629205609562732594334int, 59741106052438371505500988119956228571605064461268211022534154194821258180783int, 0int, 59741106052438371505500988119956228571605064461268211022534154194821258180783int);
    lemma_pow_mod_step(115792089237316195423570985008687907853269984665640564039457584007908834671656int, 1398101nat, m, 699050nat, 59741106052438371505500988119956228571605064461268211022534154194821258180783int, 30822483434546328304969393734369359063821832820481633239724176061856659755050int, 89085328337056607510865276907938881626272593660347623208445075306229954344939int, 89085328337056607510865276907938881626272593660347623208445075306229954344933int, 71155237064500919965368971696555275735711752371410021777629976903843327615405int);
    lemma_pow_mod_step(115792089237316195423570985008687907853269984665640564039457584007908834671656int, 2796202nat, m, 1398101nat, 71155237064500919965368971696555275735711752371410021777629976903843327615405int, 43725506595951944778788098268137691678333141827025457839078022627814539448291int, 36339241279265304517380107137055602084857002579201191268958955552571441836092int, 0int, 36339241279265304517380107137055602084857002579201191268958955552571441836092int);
    lemma_pow_mod_step(115792089237316195423570985008687907853269984665640564039457584007908834671656int, 5592405nat, m, 2796202nat, 36339241279265304517380107137055602084857002579201191268958955552571441836092int, 11404409968337373210734336613493887445952225967051419170914275254471963071875int, 17303997128612180089540691916104073686665004194412771242316703612619699054339int, 17303997128612180089540691916104073686665004194412771242316703612619699054337int, 110456198574347130220357126604647299899884939970391729382698242727479775962953int);
    lemma_pow_mod_step(115792089237316195423570985008687907853269984665640564039457584007908834671656int, 11184810nat, m, 5592405nat, 110456198574347130220357126604647299899884939970391729382698242727479775962953int, 105366194563520661437442887934798085978037533100481873271856296026342721049120int, 67045383516225953069918313113051530471537395933067066524800453062504333393649int, 0int, 67045383516225953069918313113051530471537395933067066524800453062504333393649int);
}

proof fn lemma_minus_seven_chain_2()
    requires
        pow_mod(115792089237316195423570985008687907853269984665640564039457584007908834671656int, 11184810nat, 115792089237316195423570985008687907853269984665640564039457584007908834671663int) == 67045383516225953069918313113051530471537395933067066524800453062504333393649int,
    ensures
        pow_mod(115792089237316195423570985008687907853269984665640564039457584007908834671656int, 45812984490nat, 115792089237316195423570985008687907853269984665640564039457584007908834671663int) == 38429792057460019363190176914530812591771258756951974985126372919240417495412int,
{
    let m: int = 115792089237316195423570985008687907853269984665640564039457584007908834671663int;
    lemma_pow_mod_step(115792089237316195423570985008687907853269984665640564039457584007908834671656int, 22369621nat, m, 11184810nat, 67045383516225953069918313113051530471537395933067066524800453062504333393649int, 38820298350651029647890734971681966699840983552666229179131509756880815879428int, 18972802207956621852941256921135751280242003885738552214588615626014217286437int, 18972802207956621852941256921135751280242003885738552214588615626014217286435int, 98774563018936037876553171569425556744845942131111262576794858633718148338267int);
    lemma_pow_mod_step(115792089237316195423570985008687907853269984665640564039457584007908834671656int, 44739242nat, m, 22369621nat, 98774563018936037876553171569425556744845942131111262576794858633718148338267int, 84258038384521844402570689825782887594242657959368775201647273019798866133960int, 109265180444758137226230957020464527071382209745848938229758874900426682587809int, 0int, 109265180444758137226230957020464527071382209745848938229758874900426682587809int);
    lemma_pow_mod_step(115792089237316195423570985008687907853269984665640564039457584007908834671656int, 89478485nat, m, 44739242nat, 109265180444758137226230957020464527071382209745848938229758874900426682587809int, 103106177082242556043363745301136297817405757972889315734420528535310433742808int, 112110907649158851823668750893893196265567045154036611604777794860360127770777int, 112110907649158851823668750893893196265567045154036611604777794860360127770770int, 25768271117101405199315638803562981113920576581227667042758524032840948306202int);
    lemma_pow_mod_step(115792089237316195423570985008687907853269984665640564039457584007908834671656int, 178956970nat, m, 89478485nat, 25768271117101405199315638803562981113920576581227667042758524032840948306202int, 5734448706625933237271537943929006702952030066587491338167677950427275948750int, 18630464392908229227090407106585547139665925939739831433567577940309686393554int, 0int, 18630464392908229227090407106585547139665925939739831433567577940309686393554int);
    lemma_pow_mod_step(115792089237316195423570985008687907853269984665640564039457584007908834671656int, 357913941nat, m, 178956970nat, 18630464392908229227090407106585547139665925939739831433567577940309686393554int, 2997564045882710513216636692967478375975049892597818600749342686643569150642int, 113947842661602125883117004354701127489963984651889834309591412844325117093270int, 113947842661602125883117004354701127489963984651889834309591412844325117093263int, 12909726029998486783177864577907462543142000096255108109063198145086023048751int);
    lemma_pow_mod_step(115792089237316195423570985008687907853269984665640564039457584007908834671656int, 715827882nat, m, 357913941nat, 12909726029998486783177864577907462543142000096255108109063198145086023048751int, 1439312713565848814270733684091948081412161691829625810195533976066695315309int, 23353503594186287250092159609746168004389456068718269296258898465101650271134int, 0int, 23353503594186287250092159609746168004389456068718269296258898465101650271134int);
    lemma_pow_mod_step(115792089237316195423570985008687907853269984665640564039457584007908834671656int, 1431655765nat, m, 715827882nat, 23353503594186287250092159609746168004389456068718269296258898465101650271134int, 4710046547358701766560481490346010011347419676701959899605290617332900121380int, 41444211775073469201374617897541000271874832647423140871897967999650567191016int, 41444211775073469201374617897541000271874832647423140871897967999650567191013int, 57266785286434301861090629743276721656686125464959706015086976026172533677877int);
    lemma_pow_mod_step(115792089237316195423570985008687907853269984665640564039457584007908834671656int, 2863311530nat, m, 1431655765nat, 57266785286434301861090629743276721656686125464959706015086976026172533677877int, 28322182617512459074585926670054368363445776263815976038796990942656244055150int, 3126471454098042949711442365070970076405764838111181588740610616718485012679int, 0int, 3126471454098042949711442365070970076405764838111181588740610616718485012679int);
    lemma_pow_mod_step(115792089237316195423570985008687907853269984665640564039457584007908834671656int, 5726623061nat, m, 2863311530nat, 3126471454098042949711442365070970076405764838111181588740610616718485012679int, 84417025529752760185471648326552196790955686440859304375255385467449081936int, 47638030832202622994039164539960330095287136646082594596316928264867446377473int, 47638030832202622994039164539960330095287136646082594596316928264867446377470int, 13910051886530225312438803246341412892799997474343529944154254169654379372678int);
    lemma_pow_mod_step(115792089237316195423570985008687907853269984665640564039457584007908834671656int, 11453246122nat, m, 5726623061nat, 13910051886530225312438803246341412892799997474343529944154254169654379372678int, 1671008311193053484658764277533716875156028802279415722690424168297946726804int, 87970157137084166613430101996368831136032452938770851709811861910473911536632int, 0int, 87970157137084166613430101996368831136032452938770851709811861910473911536632int);
    lemma_pow_mod_step(115792089237316195423570985008687907853269984665640564039457584007908834671656int, 22906492245nat, m, 11453246122nat, 87970157137084166613430101996368831136032452938770851709811861910473911536632int, 66833136854994425141921018184656477366043739335322952525884800714799266414673int, 37266581773680076708593476418468348474087320395988521872399187149304317392225int, 37266581773680076708593476418468348474087320395988521872399187149304317392222int, 86510195296188049310558620096785284241198711225002039011578441978596282269414int);
    lemma_pow_mod_step(115792089237316195423570985008687907853269984665640564039457584007908834671656int, 45812984490nat, m, 22906492245nat, 86510195296188049310558620096785284241198711225002039011578441978596282269414int, 64633205424302263719017280013639119586569133608863745510977108148472824572368int, 38429792057460019363190176914530812591771258756951974985126372919240417495412int, 0int, 38429792057460019363190176914530812591771258756951974985126372919240417495412int);
}

proof fn lemma_minus_seven_chain_3()
    requires
        pow_mod(115792089237316195423570985008687907853269984665640564039457584007908834671656int, 45812984490nat, 115792089237316195423570985008687907853269984665640564039457584007908834671663int) == 38429792057460019363190176914530812591771258756951974985126372919240417495412int,
    ensures
        pow_mod(115792089237316195423570985008687907853269984665640564039457584007908834671656int, 187649984473770nat, 115792089237316195423570985008687907853269984665640564039457584007908834671663int) == 38794470726003736958038452252290654557410798609867798086230836169510970690630int,
{
    let m: int = 115792089237316195423570985008687907853269984665640564039457584007908834671663int;
    lemma_pow_mod_step(115792089237316195423570985008687907853269984665640564039457584007908834671656int, 91625968981nat, m, 45812984490nat, 38429792057460019363190176914530812591771258756951974985126372919240417495412int, 12754316182626357112343186852390796269257318580575890292826131243472019744795int, 71544708204080194168327191042981192970109210519497892826715196902962162805659int, 71544708204080194168327191042981192970109210519497892826715196902962162805654int, 78147488758019617939564587742571188475585449691717570410281541718809033718702int);
    lemma_pow_mod_step(115792089237316195423570985008687907853269984665640564039457584007908834671656int, 183251937962nat, m, 91625968981nat, 78147488758019617939564587742571188475585449691717570410281541718809033718702int, 52741340443978243732030163866515214373832889097248338942824560643770340788368int, 56432906178872135595847772930535997378872438271104099918897170718739014948820int, 0int, 56432906178872135595847772930535997378872438271104099918897170718739014948820int);
    lemma_pow_mod_step(115792089237316195423570985008687907853269984665640564039457584007908834671656int, 366503875925nat, m, 183251937962nat, 56432906178872135595847772930535997378872438271104099918897170718739014948820int, 27503371955457071565625623636392606814699780741944955739406859354671512253567int, 115250416837652262107768423398835305407657072471758227734596592940181573820479int, 115250416837652262107768423398835305407657072471758227734596592940181573820472int, 3791706797647533210617931268968217119290385357176354134026937474090825958288int);
    lemma_pow_mod_step(115792089237316195423570985008687907853269984665640564039457584007908834671656int, 733007751850nat, m, 366503875925nat, 3791706797647533210617931268968217119290385357176354134026937474090825958288int, 124162544557432836995506776295387376269284803288572620817007960816035157488int, 20633019071260931739967835216741822645615008671823084849531947405862540028400int, 0int, 20633019071260931739967835216741822645615008671823084849531947405862540028400int);
    lemma_pow_mod_step(115792089237316195423570985008687907853269984665640564039457584007908834671656int, 1466015503701nat, m, 733007751850nat, 20633019071260931739967835216741822645615008671823084849531947405862540028400int, 3676602424216563039767651936861845953489190502693010289193298882499667500455int, 20357403463510228232434846961305632343899126977643672788704551924580978453335int, 20357403463510228232434846961305632343899126977643672788704551924580978453333int, 89082354230060793220098041288236389299246080487775418557983304543750820169981int);
    lemma_pow_mod_step(115792089237316195423570985008687907853269984665640564039457584007908834671656int, 2932031007402nat, m, 1466015503701nat, 89082354230060793220098041288236389299246080487775418557983304543750820169981int, 68533747749432708008411741504074827782554087923871975099994776633958322030392int, 107727322279893299870510498874501721220064377783066138544746895754564906358465int, 0int, 107727322279893299870510498874501721220064377783066138544746895754564906358465int);
    lemma_pow_mod_step(115792089237316195423570985008687907853269984665640564039457584007908834671656int, 5864062014805nat, m, 2932031007402nat, 107727322279893299870510498874501721220064377783066138544746895754564906358465int, 100224255750417943457935215371597381144214178678196908021840627908270542472142int, 58516933153498385508351823158686452686411588807389523398104926216116182844079int, 58516933153498385508351823158686452686411588807389523398104926216116182844075int, 53549824874776083135821177923946462608198817010835592371095852518822058778099int);
    lemma_pow_mod_step(115792089237316195423570985008687907853269984665640564039457584007908834671656int, 11728124029610nat, m, 5864062014805nat, 53549824874776083135821177923946462608198817010835592371095852518822058778099int, 24764936560062119818551163384342519404667110144719140816672122503377676171821int, 111873817380072923692494794364622016754743982547929724031527842365743614245478int, 0int, 111873817380072923692494794364622016754743982547929724031527842365743614245478int);
    lemma_pow_mod_step(115792089237316195423570985008687907853269984665640564039457584007908834671656int, 23456248059221nat, m, 11728124029610nat, 111873817380072923692494794364622016754743982547929724031527842365743614245478int, 108088135360774443872989802307367093740581309989294403276330177260966133339250int, 54392696634968017212269639515177076003429777602721467181508462727863702775734int, 54392696634968017212269639515177076003429777602721467181508462727863702775730int, 82419480504488661208396463428512099389071495443511985887271096936589419256514int);
    lemma_pow_mod_step(115792089237316195423570985008687907853269984665640564039457584007908834671656int, 46912496118442nat, m, 23456248059221nat, 82419480504488661208396463428512099389071495443511985887271096936589419256514int, 58665240530443965076056175282060135695717944609249105729475386627784850645918int, 114155628388819053091842418049705075753529166283431698743579778943137530210562int, 0int, 114155628388819053091842418049705075753529166283431698743579778943137530210562int);
    lemma_pow_mod_step(115792089237316195423570985008687907853269984665640564039457584007908834671656int, 93824992236885nat, m, 46912496118442nat, 114155628388819053091842418049705075753529166283431698743579778943137530210562int, 112542295235195568411038759670031898236350208934833128583722909798407707867425int, 63632601140632233926847630898496126008426339793286288327731178874606248078069int, 63632601140632233926847630898496126008426339793286288327731178874606248078065int, 17740148964839144206350523745278749354095560109558237863712083909391602140169int);
    lemma_pow_mod_step(115792089237316195423570985008687907853269984665640564039457584007908834671656int, 187649984473770nat, m, 93824992236885nat, 17740148964839144206350523745278749354095560109558237863712083909391602140169int, 2717913523864989280646500788232932345422904318408443357507390873766562052837int, 38794470726003736958038452252290654557410798609867798086230836169510970690630int, 0int, 38794470726003736958038452252290654557410798609867798086230836169510970690630int);
}

proof fn lemma_minus_seven_chain_4()
    requires
        pow_mod(115792089237316195423570985008687907853269984665640564039457584007908834671656int, 187649984473770nat, 115792089237316195423570985008687907853269984665640564039457584007908834671663int) == 38794470726003736958038452252290654557410798609867798086230836169510970690630int,
    ensures
        pow_mod(115792089237316195423570985008687907853269984665640564039457584007908834671656int, 768614336404564650nat, 115792089237316195423570985008687907853269984665640564039457584007908834671663int) == 2761165657123386019536889101935211447971311113845005878633619212301644173087int,
{
    let m: int = 115792089237316195423570985008687907853269984665640564039457584007908834671663int;
    lemma_pow_mod_step(115792089237316195423570985008687907853269984665640564039457584007908834671656int, 375299968947541nat, m, 187649984473770nat, 38794470726003736958038452252290654557410798609867798086230836169510970690630int, 12997528318417650650187794097748853327421862927067118586813631385208294392268int, 62982302299307836056078480934391543741575716849058293563604472885767263895216int, 62982302299307836056078480934391543741575716849058293563604472885767263895212int, 22292240854109929301734573494010825222049920719154201212599025831264491420140int);
    lemma_pow_mod_step(115792089237316195423570985008687907853269984665640564039457584007908834671656int, 750599937895082nat, m, 375299968947541nat, 22292240854109929301734573494010825222049920719154201212599025831264491420140int, 4291692166285727286829569404525597483606750928094582750426595759720099537102int, 87260780461196222333384727897123749802793553847534915841399952709899541078974int, 0int, 87260780461196222333384727897123749802793553847534915841399952709899541078974int);
    lemma_pow_mod_step(115792089237316195423570985008687907853269984665640564039457584007908834671656int, 1501199875790165nat, m, 750599937895082nat, 87260780461196222333384727897123749802793553847534915841399952709899541078974int, 65759620167931002002033012647166458157137321794260887219866831353876869509559int, 99243190329663120980886017144060144199714353673816071176032148130358499966059int, 99243190329663120980886017144060144199714353673816071176032148130358499966053int, 50203116255325675223790043706437721619432277130886004520467134943508267565int);
    lemma_pow_mod_step(115792089237316195423570985008687907853269984665640564039457584007908834671656int, 3002399751580330nat, m, 1501199875790165nat, 50203116255325675223790043706437721619432277130886004520467134943508267565int, 21766192305074270666018322329037717794086497071098836030137766549345141int, 7880995578728594602473907165513419281459664616281629116649978160799231589742int, 0int, 7880995578728594602473907165513419281459664616281629116649978160799231589742int);
    lemma_pow_mod_step(115792089237316195423570985008687907853269984665640564039457584007908834671656int, 6004799503160661nat, m, 3002399751580330nat, 7880995578728594602473907165513419281459664616281629116649978160799231589742int, 536393217542217915482178575161061197910442889933440975864987450292076290842int, 107733704042605637429922192493223578511823457635282015856536750349588635816318int, 107733704042605637429922192493223578511823457635282015856536750349588635816311int, 56408696362973905955541547608250305390125689212509837280445835608241391987415int);
    lemma_pow_mod_step(115792089237316195423570985008687907853269984665640564039457584007908834671656int, 12009599006321322nat, m, 6004799503160661nat, 56408696362973905955541547608250305390125689212509837280445835608241391987415int, 27479779027466971045220737198348065427689232333356792840396236717775897334258int, 104230609484671125887923010162470258586316976466603874896183377026597126651171int, 0int, 104230609484671125887923010162470258586316976466603874896183377026597126651171int);
    lemma_pow_mod_step(115792089237316195423570985008687907853269984665640564039457584007908834671656int, 24019198012642645nat, m, 12009599006321322nat, 104230609484671125887923010162470258586316976466603874896183377026597126651171int, 93823507504732699179611815328999662040281603279743750719615333177068922051275int, 27521198765495412691343707698337118431664131748196832902856660313838040150916int, 27521198765495412691343707698337118431664131748196832902856660313838040150914int, 38935787116164502007736016129015986684891047093903297758918545818951388286914int);
    lemma_pow_mod_step(115792089237316195423570985008687907853269984665640564039457584007908834671656int, 48038396025285290nat, m, 24019198012642645nat, 38935787116164502007736016129015986684891047093903297758918545818951388286914int, 13092392825283986140672375024668979564867106992389208210069873020787131602031int, 31607132951957223821076381449443975973195041457945554169368282216740514695843int, 0int, 31607132951957223821076381449443975973195041457945554169368282216740514695843int);
    lemma_pow_mod_step(115792089237316195423570985008687907853269984665640564039457584007908834671656int, 96076792050570581nat, m, 48038396025285290nat, 31607132951957223821076381449443975973195041457945554169368282216740514695843int, 8627626118699911904415798154096712032303225262847924605144413764442025187193int, 77382518045359509450177828004992225017766715979721320630630263183124533868690int, 77382518045359509450177828004992225017766715979721320630630263183124533868685int, 37282819869064410966610129008493964141982911470153575782876077757672436277485int);
    lemma_pow_mod_step(115792089237316195423570985008687907853269984665640564039457584007908834671656int, 192153584101141162nat, m, 96076792050570581nat, 37282819869064410966610129008493964141982911470153575782876077757672436277485int, 12004349058252827402149580991319235819195874904294905324105018808838232345128int, 87857953242140456237243911609150062306008050857365325667535925806171540217361int, 0int, 87857953242140456237243911609150062306008050857365325667535925806171540217361int);
    lemma_pow_mod_step(115792089237316195423570985008687907853269984665640564039457584007908834671656int, 384307168202282325nat, m, 192153584101141162nat, 87857953242140456237243911609150062306008050857365325667535925806171540217361int, 66662757350184663779769520078217663736380897729507342238681493725498211209539int, 47298576553775431964982075316919608912783374133006451442910603616055967210964int, 47298576553775431964982075316919608912783374133006451442910603616055967210961int, 16286231835520562515838427807626461170326335065876532017998526711334733538241int);
    lemma_pow_mod_step(115792089237316195423570985008687907853269984665640564039457584007908834671656int, 768614336404564650nat, m, 384307168202282325nat, 16286231835520562515838427807626461170326335065876532017998526711334733538241int, 2290668983929555175565084368822225101748097460976577725133184448588442360638int, 2761165657123386019536889101935211447971311113845005878633619212301644173087int, 0int, 2761165657123386019536889101935211447971311113845005878633619212301644173087int);
}

proof fn lemma_minus_seven_chain_5()
    requires
        pow_mod(115792089237316195423570985008687907853269984665640564039457584007908834671656int, 768614336404564650nat, 115792089237316195423570985008687907853269984665640564039457584007908834671663int) == 2761165657123386019536889101935211447971311113845005878633619212301644173087int,
    ensures
        pow_mod(115792089237316195423570985008687907853269984665640564039457584007908834671656int, 3148244321913096809130nat, 115792089237316195423570985008687907853269984665640564039457584007908834671663int) == 37197434818240401096632559295813222360871770928658765135697485689707177075353int,
{
    let m: int = 115792089237316195423570985008687907853269984665640564039457584007908834671663int;
    lemma_pow_mod_step(115792089237316195423570985008687907853269984665640564039457584007908834671656int, 1537228672809129301nat, m, 768614336404564650nat, 2761165657123386019536889101935211447971311113845005878633619212301644173087int, 65842458118638298945988858079413552107606701420877838490222936321090785975int, 80115764298389920799786945910260033793147192938248821925272098606736284783144int, 80115764298389920799786945910260033793147192938248821925272098606736284783139int, 18150096097851531519346303671619302714319572760461066720383229792390179876307int);
    lemma_pow_mod_step(115792089237316195423570985008687907853269984665640564039457584007908834671656int, 3074457345618258602nat, m, 1537228672809129301nat, 18150096097851531519346303671619302714319572760461066720383229792390179876307int, 2844978361916295942366893560664316476531168358908251103937993067771607489450int, 2515794628051404484441580330863594643174472080228955448554786264943333502899int, 0int, 2515794628051404484441580330863594643174472080228955448554786264943333502899int);
    lemma_pow_mod_step(115792089237316195423570985008687907853269984665640564039457584007908834671656int, 6148914691236517205nat, m, 3074457345618258602nat, 2515794628051404484441580330863594643174472080228955448554786264943333502899int, 54660233287271862164339465883156942275575727343206736240336845949004844453int, 51200363148729867647227532113470449853295354267090163453816563742658999568862int, 51200363148729867647227532113470449853295354267090163453816563742658999568858int, 104765814908155708163691215240458482440012458792931111981114389833022341704618int);
    lemma_pow_mod_step(115792089237316195423570985008687907853269984665640564039457584007908834671656int, 12297829382473034410nat, m, 6148914691236517205nat, 104765814908155708163691215240458482440012458792931111981114389833022341704618int, 94789514945834112905475175414589001338349267568496765827350556763534568235670int, 99694589728260684704920004031300956481483404073924784426893665847624307706714int, 0int, 99694589728260684704920004031300956481483404073924784426893665847624307706714int);
    lemma_pow_mod_step(115792089237316195423570985008687907853269984665640564039457584007908834671656int, 24595658764946068821nat, m, 12297829382473034410nat, 99694589728260684704920004031300956481483404073924784426893665847624307706714int, 85834976176275659410274590321036857283842716469262535465354964048283590374814int, 105985295049700744519030663560070601345747398676139900367140769475625045982114int, 105985295049700744519030663560070601345747398676139900367140769475625045982107int, 68647559313308156331782250140321145552658101926504645706217701725986520826843int);
    lemma_pow_mod_step(115792089237316195423570985008687907853269984665640564039457584007908834671656int, 49191317529892137642nat, m, 24595658764946068821nat, 68647559313308156331782250140321145552658101926504645706217701725986520826843int, 40697835497344778967518879379764305962551535428909433159368815005476692034823int, 111797722323278646824335603533305635191266854938786215473429322116267822026000int, 0int, 111797722323278646824335603533305635191266854938786215473429322116267822026000int);
    lemma_pow_mod_step(115792089237316195423570985008687907853269984665640564039457584007908834671656int, 98382635059784275285nat, m, 49191317529892137642nat, 111797722323278646824335603533305635191266854938786215473429322116267822026000int, 107941145193923695165654599424334178552498245878995137917609327968534396326739int, 114209435806022122277576604291809812996361204158786232373828925503992343503043int, 114209435806022122277576604291809812996361204158786232373828925503992343503036int, 11078574019058512021960665018146663998361463547980321659400609527415438180340int);
    lemma_pow_mod_step(115792089237316195423570985008687907853269984665640564039457584007908834671656int, 196765270119568550570nat, m, 98382635059784275285nat, 11078574019058512021960665018146663998361463547980321659400609527415438180340int, 1059958440202361040033240896578000475916248230408544094876820821640477929964int, 66873744855872365428699150311793129121923865169106542091186949786980513105468int, 0int, 66873744855872365428699150311793129121923865169106542091186949786980513105468int);
    lemma_pow_mod_step(115792089237316195423570985008687907853269984665640564039457584007908834671656int, 393530540239137101141nat, m, 196765270119568550570nat, 66873744855872365428699150311793129121923865169106542091186949786980513105468int, 38621789972912047561421493552058507069744237283830894158079118143924029703446int, 64090591831811740907887627886365171817959030172945383818658107621296621848326int, 64090591831811740907887627886365171817959030172945383818658107621296621848322int, 14534214126582595339070544830195428687366727451944569427223582682558985748370int);
    lemma_pow_mod_step(115792089237316195423570985008687907853269984665640564039457584007908834671656int, 787061080478274202282nat, m, 393530540239137101141nat, 14534214126582595339070544830195428687366727451944569427223582682558985748370int, 1824333438223134604186513859693455488583755605102651623683846055679915306445int, 7216468390216749462989334423941514590146588808431606703519054689179354888865int, 0int, 7216468390216749462989334423941514590146588808431606703519054689179354888865int);
    lemma_pow_mod_step(115792089237316195423570985008687907853269984665640564039457584007908834671656int, 1574122160956548404565nat, m, 787061080478274202282nat, 7216468390216749462989334423941514590146588808431606703519054689179354888865int, 449749342722927474667238573021888055482550851437976609248218398056258012480int, 13470872022207549147110578896401833221173098529801460781442956595102744633985int, 13470872022207549147110578896401833221173098529801460781442956595102744633984int, 21495985081863351393796932733875075305058294957030338569356887842189622233768int);
    lemma_pow_mod_step(115792089237316195423570985008687907853269984665640564039457584007908834671656int, 3148244321913096809130nat, m, 1574122160956548404565nat, 21495985081863351393796932733875075305058294957030338569356887842189622233768int, 3990578092883901104671556095141989856002284565200229679569614770183752913417int, 37197434818240401096632559295813222360871770928658765135697485689707177075353int, 0int, 37197434818240401096632559295813222360871770928658765135697485689707177075353int);
}

proof fn lemma_minus_seven_chain_6()
    requires
        pow_mod(115792089237316195423570985008687907853269984665640564039457584007908834671656int, 3148244321913096809130nat, 115792089237316195423570985008687907853269984665640564039457584007908834671663int) == 37197434818240401096632559295813222360871770928658765135697485689707177075353int,
    ensures
        pow_mod(115792089237316195423570985008687907853269984665640564039457584007908834671656int, 12895208742556044530199210nat, 115792089237316195423570985008687907853269984665640564039457584007908834671663int) == 105556572277707243496999695154759207193206802556623582361690931584356439086880int,
{
    let m: int = 115792089237316195423570985008687907853269984665640564039457584007908834671663int;
    lemma_pow_mod_step(115792089237316195423570985008687907853269984665640564039457584007908834671656int, 6296488643826193618261nat, m, 3148244321913096809130nat, 37197434818240401096632559295813222360871770928658765135697485689707177075353int, 11949427341460699160566477939220364012048723770087784511271555256462868086768int, 95355893972772711350256136530731337902265891274859730158766066573746365219425int, 95355893972772711350256136530731337902265891274859730158766066573746365219419int, 27261277614488193089632954337008081803758669069825273125383038031228451494003int);
    lemma_pow_mod_step(115792089237316195423570985008687907853269984665640564039457584007908834671656int, 12592977287652387236522nat, m, 6296488643826193618261nat, 27261277614488193089632954337008081803758669069825273125383038031228451494003int, 6418204059269120698649903613107569652485088868757853171369771586325724431521int, 52311248902545033863250739187017611852338642793565623192202232359197382274586int, 0int, 52311248902545033863250739187017611852338642793565623192202232359197382274586int);
    lemma_pow_mod_step(115792089237316195423570985008687907853269984665640564039457584007908834671656int, 25185954575304774473045nat, m, 12592977287652387236522nat, 52311248902545033863250739187017611852338642793565623192202232359197382274586int, 23632588199834818509652898130822146663416907939372757989357013212298052141655int, 66932605641706980071795799056579050411671335968194170987905175628267211049131int, 66932605641706980071795799056579050411671335968194170987905175628267211049126int, 110432206694632116615284331647386186384650571550843623281951690641673696014398int);
    lemma_pow_mod_step(115792089237316195423570985008687907853269984665640564039457584007908834671656int, 50371909150609548946090nat, m, 25185954575304774473045nat, 110432206694632116615284331647386186384650571550843623281951690641673696014398int, 105320426946021394016373924784442284766618153622521938359327293303323186928927int, 79067011711656134237514482838270134380594726362498394711353888236606861406803int, 0int, 79067011711656134237514482838270134380594726362498394711353888236606861406803int);
    lemma_pow_mod_step(115792089237316195423570985008687907853269984665640564039457584007908834671656int, 100743818301219097892181nat, m, 50371909150609548946090nat, 79067011711656134237514482838270134380594726362498394711353888236606861406803int, 53989805194709917824664300327860922682960111362916485218141773868977973157793int, 647139645210157019426078445111827769866197592808816328911273289887809961050int, 647139645210157019426078445111827769866197592808816328911273289887809961049int, 111262111720845096287588435892905113464206601515978849737078670978694164944313int);
    lemma_pow_mod_step(115792089237316195423570985008687907853269984665640564039457584007908834671656int, 201487636602438195784362nat, m, 100743818301219097892181nat, 111262111720845096287588435892905113464206601515978849737078670978694164944313int, 106909354396486399973006648458717633277419589629171343058374577716050073079205int, 72283782183776327376101422325261305561811906974081203715606579499638822974054int, 0int, 72283782183776327376101422325261305561811906974081203715606579499638822974054int);
    lemma_pow_mod_step(115792089237316195423570985008687907853269984665640564039457584007908834671656int, 402975273204876391568725nat, m, 201487636602438195784362nat, 72283782183776327376101422325261305561811906974081203715606579499638822974054int, 45123507151538486899841857659159270403005600106014306153819339026361929831066int, 107934416833784866046456005774466870736905880041597184361485469189284389912158int, 107934416833784866046456005774466870736905880041597184361485469189284389912151int, 55003706824719305639804854639547259814548732368303657745804803730371113316535int);
    lemma_pow_mod_step(115792089237316195423570985008687907853269984665640564039457584007908834671656int, 805950546409752783137450nat, m, 402975273204876391568725nat, 55003706824719305639804854639547259814548732368303657745804803730371113316535int, 26127931401765209067770597000859962065656527054834727066500140655234304372895int, 31555166125647732967298197218793456950868266925661949432699457470374662631840int, 0int, 31555166125647732967298197218793456950868266925661949432699457470374662631840int);
    lemma_pow_mod_step(115792089237316195423570985008687907853269984665640564039457584007908834671656int, 1611901092819505566274901nat, m, 805950546409752783137450nat, 31555166125647732967298197218793456950868266925661949432699457470374662631840int, 8599279240712877419544722388070211375374827314889259029811836193147769926808int, 25484989759555961829130946651893674750429919207700844035573085770061160143896int, 25484989759555961829130946651893674750429919207700844035573085770061160143894int, 53189250157740658043225343454120092453530534877375219829903567625389548336054int);
    lemma_pow_mod_step(115792089237316195423570985008687907853269984665640564039457584007908834671656int, 3223802185639011132549802nat, m, 1611901092819505566274901nat, 53189250157740658043225343454120092453530534877375219829903567625389548336054int, 24432552784711174397934317146206815924009404031094575161400796128849240563498int, 36349159474008570932271003179876595239318733902933559061923443582834183533742int, 0int, 36349159474008570932271003179876595239318733902933559061923443582834183533742int);
    lemma_pow_mod_step(115792089237316195423570985008687907853269984665640564039457584007908834671656int, 6447604371278022265099605nat, m, 3223802185639011132549802nat, 36349159474008570932271003179876595239318733902933559061923443582834183533742int, 11410636107955339682498813450010391554141564936672871448133114465872690391842int, 84989609696450220196610009302675934370887873157359246991658193732111568749318int, 84989609696450220196610009302675934370887873157359246991658193732111568749312int, 99825267548745631165155844933395906523404795892328655295138147922672026784752int);
    lemma_pow_mod_step(115792089237316195423570985008687907853269984665640564039457584007908834671656int, 12895208742556044530199210nat, m, 6447604371278022265099605nat, 99825267548745631165155844933395906523404795892328655295138147922672026784752int, 86060145445300510112865276048503224760763001803784050844412810628089844079648int, 105556572277707243496999695154759207193206802556623582361690931584356439086880int, 0int, 105556572277707243496999695154759207193206802556623582361690931584356439086880int);
}

proof fn lemma_minus_seven_chain_7()
    requires
        pow_mod(115792089237316195423570985008687907853269984665640564039457584007908834671656int, 12895208742556044530199210nat, 115792089237316195423570985008687907853269984665640564039457584007908834671663int) == 105556572277707243496999695154759207193206802556623582361690931584356439086880int,
    ensures
        pow_mod(115792089237316195423570985008687907853269984665640564039457584007908834671656int, 52818775009509558395695966890nat, 115792089237316195423570985008687907853269984665640564039457584007908834671663int) == 84640006329275225471412150425949081727759455521127057108645724701379152378646int,
{
    let m: int = 115792089237316195423570985008687907853269984665640564039457584007908834671663int;
    lemma_pow_mod_step(115792089237316195423570985008687907853269984665640564039457584007908834671656int, 25790417485112089060398421nat, m, 12895208742556044530199210nat, 105556572277707243496999695154759207193206802556623582361690931584356439086880int, 96225830489878158861225250227901384677555478301762361872836525112744054761793int, 29529947112069409419618237528740326549205887727296784711804347555415355962641int, 29529947112069409419618237528740326549205887727296784711804347555415355962639int, 24874548690146524909814307316193529862098755240203635096284735127910177604839int);
    lemma_pow_mod_step(115792089237316195423570985008687907853269984665640564039457584007908834671656int, 51580834970224178120796842nat, m, 25790417485112089060398421nat, 24874548690146524909814307316193529862098755240203635096284735127910177604839int, 5343570330356112819836786295937965672601521036859534353615156833096148095586int, 30906294687459664771907444567801968235505584981712969564350692192533786636403int, 0int, 30906294687459664771907444567801968235505584981712969564350692192533786636403int);
    lemma_pow_mod_step(115792089237316195423570985008687907853269984665640564039457584007908834671656int, 103161669940448356241593685nat, m, 51580834970224178120796842nat, 30906294687459664771907444567801968235505584981712969564350692192533786636403int, 8249260010763036643640909200969958542220447265827029358962582773911896574080int, 20219785702963776713843491569479014978631088238552861942101280400817168483369int, 20219785702963776713843491569479014978631088238552861942101280400817168483367int, 90045678553885953850237529031022710856122351661411094484206205210097489959743int);
    lemma_pow_mod_step(115792089237316195423570985008687907853269984665640564039457584007908834671656int, 206323339880896712483187370nat, m, 103161669940448356241593685nat, 90045678553885953850237529031022710856122351661411094484206205210097489959743int, 70023991100220410124512436434452628405908887941897908889816922146557762947715int, 43972388463218012299204134280299126233125454068948759772279166055342699526004int, 0int, 43972388463218012299204134280299126233125454068948759772279166055342699526004int);
    lemma_pow_mod_step(115792089237316195423570985008687907853269984665640564039457584007908834671656int, 412646679761793424966374741nat, m, 206323339880896712483187370nat, 43972388463218012299204134280299126233125454068948759772279166055342699526004int, 16698644612908656800585813979958696311881378472410540409678920425514086245918int, 55971510663734804898440730174249672914286249650332282416111498847016468186382int, 55971510663734804898440730174249672914286249650332282416111498847016468186378int, 71367782303121147405198828815003921013076191110236279245049844102520061381978int);
    lemma_pow_mod_step(115792089237316195423570985008687907853269984665640564039457584007908834671656int, 825293359523586849932749482nat, m, 412646679761793424966374741nat, 71367782303121147405198828815003921013076191110236279245049844102520061381978int, 43987118501911097022969440355964335627783216294909253862272162202877085371485int, 550063334528049305474300730952148730298745814741443152544110601876865462929int, 0int, 550063334528049305474300730952148730298745814741443152544110601876865462929int);
    lemma_pow_mod_step(115792089237316195423570985008687907853269984665640564039457584007908834671656int, 1650586719047173699865498965nat, m, 825293359523586849932749482nat, 550063334528049305474300730952148730298745814741443152544110601876865462929int, 2613042686983558352554374687895959128918641616381287524667874888400628238int, 47585019448978457250804751998498302389171651385260117585990923337803817039247int, 47585019448978457250804751998498302389171651385260117585990923337803817039244int, 14281131569099385515079691036575606835608394300100869016436288659099784740260int);
    lemma_pow_mod_step(115792089237316195423570985008687907853269984665640564039457584007908834671656int, 3301173438094347399730997930nat, m, 1650586719047173699865498965nat, 14281131569099385515079691036575606835608394300100869016436288659099784740260int, 1761352785300639452048956987573553922370804212611795330484309091624005694039int, 14993685592828940183755108071085350984882568881645395913663784404978663550743int, 0int, 14993685592828940183755108071085350984882568881645395913663784404978663550743int);
    lemma_pow_mod_step(115792089237316195423570985008687907853269984665640564039457584007908834671656int, 6602346876188694799461995861nat, m, 3301173438094347399730997930nat, 14993685592828940183755108071085350984882568881645395913663784404978663550743int, 1941502300695656229477660630182917629031788521418905297322879121998030387203int, 49583654241455608589803025722854777187228032101760623828686439989561273923460int, 49583654241455608589803025722854777187228032101760623828686439989561273923457int, 290688021759326142091774966080283249213729284597325317567672096797586550769int);
    lemma_pow_mod_step(115792089237316195423570985008687907853269984665640564039457584007908834671656int, 13204693752377389598923991722nat, m, 6602346876188694799461995861nat, 290688021759326142091774966080283249213729284597325317567672096797586550769int, 729752149312795151108601847801939202854090804056657062179828710978692240int, 48883022263437020073640603710263996923448302710736285166638683650261088496241int, 0int, 48883022263437020073640603710263996923448302710736285166638683650261088496241int);
    lemma_pow_mod_step(115792089237316195423570985008687907853269984665640564039457584007908834671656int, 26409387504754779197847983445nat, m, 13204693752377389598923991722nat, 48883022263437020073640603710263996923448302710736285166638683650261088496241int, 20636555410191196641708475749287752372978568844032234581356636938600666396115int, 82820984932468960330652937952692845754871754515260925496008454578213147340836int, 82820984932468960330652937952692845754871754515260925496008454578213147340830int, 115005640896614450226855344383277526835517626387016905764686321999960976644126int);
    lemma_pow_mod_step(115792089237316195423570985008687907853269984665640564039457584007908834671656int, 52818775009509558395695966890nat, m, 26409387504754779197847983445nat, 115005640896614450226855344383277526835517626387016905764686321999960976644126int, 114224534034736227324985585166982405080365990138409445180977349550174320852210int, 84640006329275225471412150425949081727759455521127057108645724701379152378646int, 0int, 84640006329275225471412150425949081727759455521127057108645724701379152378646int);
}

proof fn lemma_minus_seven_chain_8()
    requires
        pow_mod(115792089237316195423570985008687907853269984665640564039457584007908834671656int, 52818775009509558395695966890nat, 115792089237316195423570985008687907853269984665640564039457584007908834671663int) == 84640006329275225471412150425949081727759455521127057108645724701379152378646int,
    ensures
        pow_mod(115792089237316195423570985008687907853269984665640564039457584007908834671656int, 216345702438951151188770680384170nat, 115792089237316195423570985008687907853269984665640564039457584007908834671663int) == 82534086113414329682985725419380956781306943824724345309793160537432881231589int,
{
    let m: int = 115792089237316195423570985008687907853269984665640564039457584007908834671663int;
    lemma_pow_mod_step(115792089237316195423570985008687907853269984665640564039457584007908834671656int, 105637550019019116791391933781nat, m, 52818775009509558395695966890nat, 84640006329275225471412150425949081727759455521127057108645724701379152378646int, 61868912795391878869466099959008643121721259351039398817076010011088848065529int, 97650737668407877503682743162096287020018640909430346737018180465978333388589int, 97650737668407877503682743162096287020018640909430346737018180465978333388583int, 11197371745042030015646707917453437979489421627830957077618240785604674309855int);
    lemma_pow_mod_step(115792089237316195423570985008687907853269984665640564039457584007908834671656int, 211275100038038233582783867562nat, m, 105637550019019116791391933781nat, 11197371745042030015646707917453437979489421627830957077618240785604674309855int, 1082812606824086473093332293182431444942715649580314123605023560272589623309int, 41920215069285921727067143122242626322678798368078710574736793106844683528158int, 0int, 41920215069285921727067143122242626322678798368078710574736793106844683528158int);
    lemma_pow_mod_step(115792089237316195423570985008687907853269984665640564039457584007908834671656int, 422550200076076467165567735125nat, m, 211275100038038233582783867562nat, 41920215069285921727067143122242626322678798368078710574736793106844683528158int, 15176377272661402288747345106064829703829286781495068778468600340424562925677int, 29281383746032535415393837839691362056853642608699534191780299920507811882113int, 29281383746032535415393837839691362056853642608699534191780299920507811882111int, 26614492252404642939385105139536281308564471070384388736453068572262986168535int);
    lemma_pow_mod_step(115792089237316195423570985008687907853269984665640564039457584007908834671656int, 845100400152152934331135470250nat, m, 422550200076076467165567735125nat, 26614492252404642939385105139536281308564471070384388736453068572262986168535int, 6117267617493109454852906780373050456877230936624221752699538854651909543517int, 108082061671180633206629724164853790953242644435429040110840266123470518787454int, 0int, 108082061671180633206629724164853790953242644435429040110840266123470518787454int);
    lemma_pow_mod_step(115792089237316195423570985008687907853269984665640564039457584007908834671656int, 1690200800304305868662270940501nat, m, 845100400152152934331135470250nat, 108082061671180633206629724164853790953242644435429040110840266123470518787454int, 100885407043232053251413735880377134195825152995631367605914461649307160357482int, 61375123282638209572702831784905316694933603902757553889010645730139252369550int, 61375123282638209572702831784905316694933603902757553889010645730139252369546int, 33542493970797314685364117540414414548544711343259378934755815920660572099802int);
    lemma_pow_mod_step(115792089237316195423570985008687907853269984665640564039457584007908834671656int, 3380401600608611737324541881002nat, m, 1690200800304305868662270940501nat, 33542493970797314685364117540414414548544711343259378934755815920660572099802int, 9716543756932142487652032014413017578378742648970094672607603834376457810002int, 20940459371718519869340610013645750045802309543680221150848690612683741065878int, 0int, 20940459371718519869340610013645750045802309543680221150848690612683741065878int);
    lemma_pow_mod_step(115792089237316195423570985008687907853269984665640564039457584007908834671656int, 6760803201217223474649083762005nat, m, 3380401600608611737324541881002nat, 20940459371718519869340610013645750045802309543680221150848690612683741065878int, 3786984426888448757379303722911590167695386356520589837296828796728989269688int, 60302878831467698779073935401388171002353989255018687304413108713239897459740int, 60302878831467698779073935401388171002353989255018687304413108713239897459736int, 41048205128990890240766392225034434396602013877431445026938575038956056468472int);
    lemma_pow_mod_step(115792089237316195423570985008687907853269984665640564039457584007908834671656int, 13521606402434446949298167524010nat, m, 6760803201217223474649083762005nat, 41048205128990890240766392225034434396602013877431445026938575038956056468472int, 14551556634049446765109893564384279248878168678078729020215418543033169511038int, 104168503235771234091070672623441175398732407346897755569879156830709345698590int, 0int, 104168503235771234091070672623441175398732407346897755569879156830709345698590int);
    lemma_pow_mod_step(115792089237316195423570985008687907853269984665640564039457584007908834671656int, 27043212804868893898596335048021nat, m, 13521606402434446949298167524010nat, 104168503235771234091070672623441175398732407346897755569879156830709345698590int, 93711730549585047269166357565499627068241857294024691763293198586644061424897int, 40773203407279485680683036542077657455082697941838585781001015084066199394389int, 40773203407279485680683036542077657455082697941838585781001015084066199394386int, 61963843860992186505931699231520121374231068404051591651365646435263108254266int);
    lemma_pow_mod_step(115792089237316195423570985008687907853269984665640564039457584007908834671656int, 54086425609737787797192670096042nat, m, 27043212804868893898596335048021nat, 61963843860992186505931699231520121374231068404051591651365646435263108254266int, 33158724152220077989641786514302164779185902477312967381059986204187160981873int, 32564908920831625350634667010459209849362748035902349907849005011229457433957int, 0int, 32564908920831625350634667010459209849362748035902349907849005011229457433957int);
    lemma_pow_mod_step(115792089237316195423570985008687907853269984665640564039457584007908834671656int, 108172851219475575594385340192085nat, m, 54086425609737787797192670096042nat, 32564908920831625350634667010459209849362748035902349907849005011229457433957int, 9158426106714564362728145086910644047477122928309423106879189768068402388002int, 81348302570086989964704465322525417570325693204406063193800341013368216090523int, 81348302570086989964704465322525417570325693204406063193800341013368216090518int, 9522328195972047364923667785761616274070070897360377840685532945966660724654int);
    lemma_pow_mod_step(115792089237316195423570985008687907853269984665640564039457584007908834671656int, 216345702438951151188770680384170nat, m, 108172851219475575594385340192085nat, 9522328195972047364923667785761616274070070897360377840685532945966660724654int, 783082288859700567194664773315008173293888607744764363594417908131655397329int, 82534086113414329682985725419380956781306943824724345309793160537432881231589int, 0int, 82534086113414329682985725419380956781306943824724345309793160537432881231589int);
}

proof fn lemma_minus_seven_chain_9()
    requires
        pow_mod(115792089237316195423570985008687907853269984665640564039457584007908834671656int, 216345702438951151188770680384170nat, 115792089237316195423570985008687907853269984665640564039457584007908834671663int) == 82534086113414329682985725419380956781306943824724345309793160537432881231589int,
    ensures
        pow_mod(115792089237316195423570985008687907853269984665640564039457584007908834671656int, 886151997189943915269204706853563050nat, 115792089237316195423570985008687907853269984665640564039457584007908834671663int) == 71013954711409468511419299414945954043602821310966129742837982661895117391803int,
{
    let m: int = 115792089237316195423570985008687907853269984665640564039457584007908834671663int;
    lemma_pow_mod_step(115792089237316195423570985008687907853269984665640564039457584007908834671656int, 432691404877902302377541360768341nat, m, 216345702438951151188770680384170nat, 82534086113414329682985725419380956781306943824724345309793160537432881231589int, 58828503876595018246749799588131831726804056643221480669190667629945078303209int, 13024371240004266062095887282724336645688539976198764931058562365232777198354int, 13024371240004266062095887282724336645688539976198764931058562365232777198353int, 24621490557286332988899774029617551333450204832249209522047647451279394283185int);
    lemma_pow_mod_step(115792089237316195423570985008687907853269984665640564039457584007908834671656int, 865382809755804604755082721536682nat, m, 432691404877902302377541360768341nat, 24621490557286332988899774029617551333450204832249209522047647451279394283185int, 5235399078257367560211128811771144599149648520284247121830196346809710007786int, 27082922526434902397978725105952427321720099911785591037192037378025490176107int, 0int, 27082922526434902397978725105952427321720099911785591037192037378025490176107int);
    lemma_pow_mod_step(115792089237316195423570985008687907853269984665640564039457584007908834671656int, 1730765619511609209510165443073365nat, m, 865382809755804604755082721536682nat, 27082922526434902397978725105952427321720099911785591037192037378025490176107int, 6334497437640979469301496575063425545240054414723937497131403169531461985443int, 109283406951099426409520425570080548446179992871339746995555414780510883073740int, 109283406951099426409520425570080548446179992871339746995555414780510883073733int, 45560776003517383098353916070251515849629942560105719307315184591785661185461int);
    lemma_pow_mod_step(115792089237316195423570985008687907853269984665640564039457584007908834671656int, 3461531239023218419020330886146730nat, m, 1730765619511609209510165443073365nat, 45560776003517383098353916070251515849629942560105719307315184591785661185461int, 17926823185549057090483842053567669707324962601711861255129904991480043362357int, 70599706375645959209257353271105055400441236785686811931245315098257208992830int, 0int, 70599706375645959209257353271105055400441236785686811931245315098257208992830int);
    lemma_pow_mod_step(115792089237316195423570985008687907853269984665640564039457584007908834671656int, 6923062478046436838040661772293461nat, m, 3461531239023218419020330886146730nat, 70599706375645959209257353271105055400441236785686811931245315098257208992830int, 43045415046549946709720729080383897679432977942042588031368371681381146125579int, 62249985457881443825966109465569056863350435836973798464356756220407960641023int, 62249985457881443825966109465569056863350435836973798464356756220407960641019int, 27418458744094674912521173775768233369626887803745666907333042488779614199491int);
    lemma_pow_mod_step(115792089237316195423570985008687907853269984665640564039457584007908834671656int, 13846124956092873676081323544586922nat, m, 6923062478046436838040661772293461nat, 27418458744094674912521173775768233369626887803745666907333042488779614199491int, 6492428669810622959948009656591849870219313641833783622600295595126508600265int, 28809592468768867445241427692392117304752426605640637591254658739605754868386int, 0int, 28809592468768867445241427692392117304752426605640637591254658739605754868386int);
    lemma_pow_mod_step(115792089237316195423570985008687907853269984665640564039457584007908834671656int, 27692249912185747352162647089173845nat, m, 13846124956092873676081323544586922nat, 28809592468768867445241427692392117304752426605640637591254658739605754868386int, 7167956150402224490196259865825730947808513620850632346677096602076741284528int, 69010145838937185792329981908217364576323203798379892972320938132338440314932int, 69010145838937185792329981908217364576323203798379892972320938132338440314927int, 95889425314020676571545051685917987232087496739543569391041353113175091153791int);
    lemma_pow_mod_step(115792089237316195423570985008687907853269984665640564039457584007908834671656int, 55384499824371494704325294178347690nat, m, 27692249912185747352162647089173845nat, 95889425314020676571545051685917987232087496739543569391041353113175091153791int, 79407686203920367568622675707357984527839814523027550002443904365810530075147int, 54748927645115882258045891438182958182688618709661654938735397158653152212220int, 0int, 54748927645115882258045891438182958182688618709661654938735397158653152212220int);
    lemma_pow_mod_step(115792089237316195423570985008687907853269984665640564039457584007908834671656int, 110768999648742989408650588356695381nat, m, 55384499824371494704325294178347690nat, 54748927645115882258045891438182958182688618709661654938735397158653152212220int, 25886440930751861899686128375904607100251871080201220286120655597328954550548int, 91673192771245223945691658385253989851947672509484400829208119261538600607076int, 91673192771245223945691658385253989851947672509484400829208119261538600607070int, 53040186025180604921584301355349518155986200427452578432288669216682803780446int);
    lemma_pow_mod_step(115792089237316195423570985008687907853269984665640564039457584007908834671656int, 221537999297485978817301176713390762nat, m, 110768999648742989408650588356695381nat, 53040186025180604921584301355349518155986200427452578432288669216682803780446int, 24295799066376437328915901108580776063399662975620959062478348980945264717955int, 37305459626504707996167055577362779816020823913683305070292854261098646149751int, 0int, 37305459626504707996167055577362779816020823913683305070292854261098646149751int);
    lemma_pow_mod_step(115792089237316195423570985008687907853269984665640564039457584007908834671656int, 443075998594971957634602353426781525nat, m, 221537999297485978817301176713390762nat, 37305459626504707996167055577362779816020823913683305070292854261098646149751int, 12018932615443922305216314348732523801725930191631497122562913950680877592439int, 94038084016656399070204210596430364956562246656635869148051855792704221005944int, 94038084016656399070204210596430364956562246656635869148051855792704221005938int, 36485947307302379049996435877114892423684181397392300200382513498523460988370int);
    lemma_pow_mod_step(115792089237316195423570985008687907853269984665640564039457584007908834671656int, 886151997189943915269204706853563050nat, m, 443075998594971957634602353426781525nat, 36485947307302379049996435877114892423684181397392300200382513498523460988370int, 11496677879115712906231812294070904335212492873437344166884079582587842744519int, 71013954711409468511419299414945954043602821310966129742837982661895117391803int, 0int, 71013954711409468511419299414945954043602821310966129742837982661895117391803int);
}

proof fn lemma_minus_seven_chain_10()
    requires
        pow_mod(115792089237316195423570985008687907853269984665640564039457584007908834671656int, 886151997189943915269204706853563050nat, 115792089237316195423570985008687907853269984665640564039457584007908834671663int) == 71013954711409468511419299414945954043602821310966129742837982661895117391803int,
    ensures
        pow_mod(115792089237316195423570985008687907853269984665640564039457584007908834671656int, 3629678580490010276942662479272194255530nat, 115792089237316195423570985008687907853269984665640564039457584007908834671663int) == 21087251873606971364007228793177358291454416192763879037053352805105664674838int,
{
    let m: int = 115792089237316195423570985008687907853269984665640564039457584007908834671663int;
    lemma_pow_mod_step(115792089237316195423570985008687907853269984665640564039457584007908834671656int, 1772303994379887830538409413707126101nat, m, 886151997189943915269204706853563050nat, 71013954711409468511419299414945954043602821310966129742837982661895117391803int, 43552040532048009671657268179449699914700441325181721914244191247419337973348int, 60259601834275108330482640902912054807743954558087532376980732153647986753085int, 60259601834275108330482640902912054807743954558087532376980732153647986753081int, 41351144109339023380905453714367247758872256755949529518965210956099431415057int);
    lemma_pow_mod_step(115792089237316195423570985008687907853269984665640564039457584007908834671656int, 3544607988759775661076818827414252202nat, m, 1772303994379887830538409413707126101nat, 41351144109339023380905453714367247758872256755949529518965210956099431415057int, 14767132456232340029830593657229719841740657703780441951274227385140439911995int, 2272027923591210979224239241343326390313126782280832902571918757880966015564int, 0int, 2272027923591210979224239241343326390313126782280832902571918757880966015564int);
    lemma_pow_mod_step(115792089237316195423570985008687907853269984665640564039457584007908834671656int, 7089215977519551322153637654828504405nat, m, 3544607988759775661076818827414252202nat, 2272027923591210979224239241343326390313126782280832902571918757880966015564int, 44580859707941097954561196160460905663788687022096319283016670333248895020int, 25405603182633309853741780954253020672412480033812088747264471037150634419836int, 25405603182633309853741780954253020672412480033812088747264471037150634419834int, 53744956196199221870949503337604670999652609094596506848063870755763228404474int);
    lemma_pow_mod_step(115792089237316195423570985008687907853269984665640564039457584007908834671656int, 14178431955039102644307275309657008810nat, m, 7089215977519551322153637654828504405nat, 53744956196199221870949503337604670999652609094596506848063870755763228404474int, 24945748328379696531651629893230638208057364202846983038607145823180747589291int, 35952703341953888321856868750276804216698496589704149780514454482762983255743int, 0int, 35952703341953888321856868750276804216698496589704149780514454482762983255743int);
    lemma_pow_mod_step(115792089237316195423570985008687907853269984665640564039457584007908834671656int, 28356863910078205288614550619314017621nat, m, 14178431955039102644307275309657008810nat, 35952703341953888321856868750276804216698496589704149780514454482762983255743int, 11163084508695248992345918841570744156480023447054312275604230891442252640228int, 40684138398433036751285419082095123422438970349931928606601520393478897022885int, 40684138398433036751285419082095123422438970349931928606601520393478897022882int, 62587298922917329011715021451397859602737161547398191872162109269374224854794int);
    lemma_pow_mod_step(115792089237316195423570985008687907853269984665640564039457584007908834671656int, 56713727820156410577229101238628035242nat, m, 28356863910078205288614550619314017621nat, 62587298922917329011715021451397859602737161547398191872162109269374224854794int, 33829340262082656851713050887998562248635500169802464825469089430359102694666int, 107191021377031068639704768314789668771281152002338196860852604765517733332878int, 0int, 107191021377031068639704768314789668771281152002338196860852604765517733332878int);
    lemma_pow_mod_step(115792089237316195423570985008687907853269984665640564039457584007908834671656int, 113427455640312821154458202477256070485nat, m, 56713727820156410577229101238628035242nat, 107191021377031068639704768314789668771281152002338196860852604765517733332878int, 99228843175137120083987589527846006145101645908586752476839133337738689635818int, 48643866864705481940279556768096939461471787302580934188085286526448881337550int, 48643866864705481940279556768096939461471787302580934188085286526448881337547int, 6869199659010212688756057649385147329507442878855152801775746338584334652139int);
    lemma_pow_mod_step(115792089237316195423570985008687907853269984665640564039457584007908834671656int, 226854911280625642308916404954512140970nat, m, 113427455640312821154458202477256070485nat, 6869199659010212688756057649385147329507442878855152801775746338584334652139int, 407505419982865896757619607548409772843274401189715045744402046674450412045int, 54483357038393815160253239932889160087931558429354006815121714057513501894486int, 0int, 54483357038393815160253239932889160087931558429354006815121714057513501894486int);
    lemma_pow_mod_step(115792089237316195423570985008687907853269984665640564039457584007908834671656int, 453709822561251284617832809909024281941nat, m, 226854911280625642308916404954512140970nat, 54483357038393815160253239932889160087931558429354006815121714057513501894486int, 25635915317921926324001178014902262647370209920843615738492011987402285692738int, 55290412379393414931731155152794583299062590819445248810996924023448343720902int, 55290412379393414931731155152794583299062590819445248810996924023448343720898int, 76135470293510877172165853965189548319641802926445514480851867867496932640338int);
    lemma_pow_mod_step(115792089237316195423570985008687907853269984665640564039457584007908834671656int, 907419645122502569235665619818048563882nat, m, 453709822561251284617832809909024281941nat, 76135470293510877172165853965189548319641802926445514480851867867496932640338int, 50060499598844874001520124739708608540783612987190840282532602686846503805216int, 76804524280316274113098701929627705678710553739382024913303811920332597960036int, 0int, 76804524280316274113098701929627705678710553739382024913303811920332597960036int);
    lemma_pow_mod_step(115792089237316195423570985008687907853269984665640564039457584007908834671656int, 1814839290245005138471331239636097127765nat, m, 907419645122502569235665619818048563882nat, 76804524280316274113098701929627705678710553739382024913303811920332597960036int, 50944196523095884263954518435623049467928431864107614653345879343787161105979int, 42641102702329077974240242573486564612476054172636762505621320699800241948219int, 42641102702329077974240242573486564612476054172636762505621320699800241948216int, 48888548795645040451031257011657771272477574788464354579023507125124810377456int);
    lemma_pow_mod_step(115792089237316195423570985008687907853269984665640564039457584007908834671656int, 3629678580490010276942662479272194255530nat, m, 1814839290245005138471331239636097127765nat, 48888548795645040451031257011657771272477574788464354579023507125124810377456int, 20641221857960174593019348152900365544153019980824186891036130220224022056246int, 21087251873606971364007228793177358291454416192763879037053352805105664674838int, 0int, 21087251873606971364007228793177358291454416192763879037053352805105664674838int);
}

proof fn lemma_minus_seven_chain_11()
    requires
        pow_mod(115792089237316195423570985008687907853269984665640564039457584007908834671656int, 3629678580490010276942662479272194255530nat, 115792089237316195423570985008687907853269984665640564039457584007908834671663int) == 21087251873606971364007228793177358291454416192763879037053352805105664674838int,
    ensures
        pow_mod(115792089237316195423570985008687907853269984665640564039457584007908834671656int, 14867163465687082094357145515098907670653610nat, 115792089237316195423570985008687907853269984665640564039457584007908834671663int) == 16404779462004460048636370103417842325539313766650706669931643808380510933107int,
{
    let m: int = 115792089237316195423570985008687907853269984665640564039457584007908834671663int;
    lemma_pow_mod_step(115792089237316195423570985008687907853269984665640564039457584007908834671656int, 7259357160980020553885324958544388511061nat, m, 3629678580490010276942662479272194255530nat, 21087251873606971364007228793177358291454416192763879037053352805105664674838int, 3840263998256252918160246963118723526019613248264152790134582832046902319750int, 34082331611925890473926155616193321561320797321194201203582082452395980081994int, 34082331611925890473926155616193321561320797321194201203582082452395980081991int, 108799946428467352953229865712710472630564372748562283693298174856954643441031int);
    lemma_pow_mod_step(115792089237316195423570985008687907853269984665640564039457584007908834671656int, 14518714321960041107770649917088777022122nat, m, 7259357160980020553885324958544388511061nat, 108799946428467352953229865712710472630564372748562283693298174856954643441031int, 102230026427595800451314260549542612600116773684688159806075052134804383738310int, 36393860264704856578973794199491090097449141794838427096791414865483009833431int, 0int, 36393860264704856578973794199491090097449141794838427096791414865483009833431int);
    lemma_pow_mod_step(115792089237316195423570985008687907853269984665640564039457584007908834671656int, 29037428643920082215541299834177554044245nat, m, 14518714321960041107770649917088777022122nat, 36393860264704856578973794199491090097449141794838427096791414865483009833431int, 11438718082478587958824542557756818794481113148682930111490963446311822891693int, 19535155894056525282820950125613354142398164077397976819682762883227500036302int, 19535155894056525282820950125613354142398164077397976819682762883227500036300int, 94838087216236713867395319138082336709752820789495290341135827833225169089212int);
    lemma_pow_mod_step(115792089237316195423570985008687907853269984665640564039457584007908834671656int, 58074857287840164431082599668355108088490nat, m, 29037428643920082215541299834177554044245nat, 94838087216236713867395319138082336709752820789495290341135827833225169089212int, 77675969455916423308875714230971867582462238716009585023788331604679310870609int, 68736847097148343803659342534993881876485028603229304254988234166524422928177int, 0int, 68736847097148343803659342534993881876485028603229304254988234166524422928177int);
    lemma_pow_mod_step(115792089237316195423570985008687907853269984665640564039457584007908834671656int, 116149714575680328862165199336710216176981nat, m, 58074857287840164431082599668355108088490nat, 68736847097148343803659342534993881876485028603229304254988234166524422928177int, 40803773210908687214113432970163227311572368290636301909909485151663559079529int, 68312369888457007136342231654817681741341583470906715322934431372997680856602int, 68312369888457007136342231654817681741341583470906715322934431372997680856597int, 100773856967381927163459303459715767076958839031855812936746900428560407362101int);
    lemma_pow_mod_step(115792089237316195423570985008687907853269984665640564039457584007908834671656int, 232299429151360657724330398673420432353962nat, m, 116149714575680328862165199336710216176981nat, 100773856967381927163459303459715767076958839031855812936746900428560407362101int, 87703489201830468772551624194477144261381159848947122432316264558678179992969int, 62799089563126392353426359649915826547394516371987351399318011977604567596754int, 0int, 62799089563126392353426359649915826547394516371987351399318011977604567596754int);
    lemma_pow_mod_step(115792089237316195423570985008687907853269984665640564039457584007908834671656int, 464598858302721315448660797346840864707925nat, m, 232299429151360657724330398673420432353962nat, 62799089563126392353426359649915826547394516371987351399318011977604567596754int, 34058679448082968367940905659647246102856925280092635123015226153539188051752int, 32075280427590432872048645001121456174821224369761798028576695679265579432940int, 32075280427590432872048645001121456174821224369761798028576695679265579432938int, 7057215481499360742801455009525622482791398742948541878878298260958613312746int);
    lemma_pow_mod_step(115792089237316195423570985008687907853269984665640564039457584007908834671656int, 929197716605442630897321594693681729415850nat, m, 464598858302721315448660797346840864707925nat, 7057215481499360742801455009525622482791398742948541878878298260958613312746int, 430118246249449980200939608044798613894930513365255643612699831797594729731int, 34618392853918106716507644447139930162063293309130816420099381908647796747863int, 0int, 34618392853918106716507644447139930162063293309130816420099381908647796747863int);
    lemma_pow_mod_step(115792089237316195423570985008687907853269984665640564039457584007908834671656int, 1858395433210885261794643189387363458831701nat, m, 929197716605442630897321594693681729415850nat, 34618392853918106716507644447139930162063293309130816420099381908647796747863int, 10349870459043332028744643073221956387075380430651837425101745841470444322066int, 43207440183213224117415130866062596520596199883792633201054638724303459251011int, 43207440183213224117415130866062596520596199883792633201054638724303459251008int, 44924186429456017448807038963625547915636554810373259710990280953602289257912int);
    lemma_pow_mod_step(115792089237316195423570985008687907853269984665640564039457584007908834671656int, 3716790866421770523589286378774726917663402nat, m, 1858395433210885261794643189387363458831701nat, 44924186429456017448807038963625547915636554810373259710990280953602289257912int, 17429364472492155595783258603998457696547779436317869885369798460753511793797int, 70426463516621331026916903048894611182390395498774157590478963199492999525333int, 0int, 70426463516621331026916903048894611182390395498774157590478963199492999525333int);
    lemma_pow_mod_step(115792089237316195423570985008687907853269984665640564039457584007908834671656int, 7433581732843541047178572757549453835326805nat, m, 3716790866421770523589286378774726917663402nat, 70426463516621331026916903048894611182390395498774157590478963199492999525333int, 42834418103405097377341549678665304999512426778821887295814190703623923638786int, 37106225736498296835400976307047452859283465088446736965164892522704786839771int, 37106225736498296835400976307047452859283465088446736965164892522704786839768int, 87632687556460508422906120876731553544825698377794533362218504364792996136592int);
    lemma_pow_mod_step(115792089237316195423570985008687907853269984665640564039457584007908834671656int, 14867163465687082094357145515098907670653610nat, m, 7433581732843541047178572757549453835326805nat, 87632687556460508422906120876731553544825698377794533362218504364792996136592int, 66321352166201073228667997421991560830466381331010510468444510916504000705539int, 16404779462004460048636370103417842325539313766650706669931643808380510933107int, 0int, 16404779462004460048636370103417842325539313766650706669931643808380510933107int);
}

proof fn lemma_minus_seven_chain_12()
    requires
        pow_mod(115792089237316195423570985008687907853269984665640564039457584007908834671656int, 14867163465687082094357145515098907670653610nat, 115792089237316195423570985008687907853269984665640564039457584007908834671663int) == 16404779462004460048636370103417842325539313766650706669931643808380510933107int,
    ensures
        pow_mod(115792089237316195423570985008687907853269984665640564039457584007908834671656int, 60895901555454288258486868029845125818997189290nat, 115792089237316195423570985008687907853269984665640564039457584007908834671663int) == 18076938912679138970022450901967808010661276639992019336902850101581481720482int,
{
    let m: int = 115792089237316195423570985008687907853269984665640564039457584007908834671663int;
    lemma_pow_mod_step(115792089237316195423570985008687907853269984665640564039457584007908834671656int, 29734326931374164188714291030197815341307221nat, m, 14867163465687082094357145515098907670653610nat, 16404779462004460048636370103417842325539313766650706669931643808380510933107int, 2324137952511140593923190451711108596442159383948715303512613777629160101171int, 109442133808541743080618816145076598966224601209765592743786685806754181856076int, 109442133808541743080618816145076598966224601209765592743786685806754181856069int, 44449688001421166400665182045279162209317684191124799069696287408082569709109int);
    lemma_pow_mod_step(115792089237316195423570985008687907853269984665640564039457584007908834671656int, 59468653862748328377428582060395630682614442nat, m, 29734326931374164188714291030197815341307221nat, 44449688001421166400665182045279162209317684191124799069696287408082569709109int, 17063123883828792173030103999092589765399351064654762785091492088877776503273int, 30563714579994482523175988397361939302314261245030651243352978405731677720882int, 0int, 30563714579994482523175988397361939302314261245030651243352978405731677720882int);
    lemma_pow_mod_step(115792089237316195423570985008687907853269984665640564039457584007908834671656int, 118937307725496656754857164120791261365228885nat, m, 59468653862748328377428582060395630682614442nat, 30563714579994482523175988397361939302314261245030651243352978405731677720882int, 8067396098302048581248890652582448550957048703617031915161177809765641434118int, 5775962824008573462324232344361170905800369257232080555620235073856922859690int, 5775962824008573462324232344361170905800369257232080555620235073856922859689int, 75360349469256181187301358598159711512667399865016000150115938490910374653833int);
    lemma_pow_mod_step(115792089237316195423570985008687907853269984665640564039457584007908834671656int, 237874615450993313509714328241582522730457770nat, m, 118937307725496656754857164120791261365228885nat, 75360349469256181187301358598159711512667399865016000150115938490910374653833int, 49046375357205285332381795241857125959335671596854980464448134116693448799008int, 113542226404550688622607577902572428149383434324370396278626143156017221481585int, 0int, 113542226404550688622607577902572428149383434324370396278626143156017221481585int);
    lemma_pow_mod_step(115792089237316195423570985008687907853269984665640564039457584007908834671656int, 475749230901986627019428656483165045460915541nat, m, 237874615450993313509714328241582522730457770nat, 113542226404550688622607577902572428149383434324370396278626143156017221481585int, 111336078844560727727943964894326915213764126424608687669862682513305496033443int, 24383483418176016418884345148296236340510262688811194262686081479464721686516int, 24383483418176016418884345148296236340510262688811194262686081479464721686514int, 60899794547400275914951553979302161322968130509602768240112597659564617537714int);
    lemma_pow_mod_step(115792089237316195423570985008687907853269984665640564039457584007908834671656int, 951498461803973254038857312966330090921831082nat, m, 475749230901986627019428656483165045460915541nat, 60899794547400275914951553979302161322968130509602768240112597659564617537714int, 32029692186608704216921317299636150693506306490766323292013140749750175960682int, 66320495699608858931358487788748648061703517608123390770123355669319144791630int, 0int, 66320495699608858931358487788748648061703517608123390770123355669319144791630int);
    lemma_pow_mod_step(115792089237316195423570985008687907853269984665640564039457584007908834671656int, 1902996923607946508077714625932660181843662165nat, m, 951498461803973254038857312966330090921831082nat, 66320495699608858931358487788748648061703517608123390770123355669319144791630int, 37985394156135208235853945235559434976603520080644221578122244252777677162228int, 100616195377522876199477430284923536298476420210098835374055611899258152511736int, 100616195377522876199477430284923536298476420210098835374055611899258152511729int, 106231257018553234568654883066350600883554951188792100657813804760554775119489int);
    lemma_pow_mod_step(115792089237316195423570985008687907853269984665640564039457584007908834671656int, 3805993847215893016155429251865320363687324330nat, m, 1902996923607946508077714625932660181843662165nat, 106231257018553234568654883066350600883554951188792100657813804760554775119489int, 97459852759138963252421057023272441233285547930106742636281121623480950737169int, 4713518186954206388714244490935135103992822974838680677135137950968302479074int, 0int, 4713518186954206388714244490935135103992822974838680677135137950968302479074int);
    lemma_pow_mod_step(115792089237316195423570985008687907853269984665640564039457584007908834671656int, 7611987694431786032310858503730640727374648661nat, m, 3805993847215893016155429251865320363687324330nat, 4713518186954206388714244490935135103992822974838680677135137950968302479074int, 191871947773683815960464351860486561830515671680024439402237619100927687016int, 54079344424629798796477250983822030776713724348845318528444582780961819669868int, 54079344424629798796477250983822030776713724348845318528444582780961819669864int, 84612945976856190118943183147997415976083868220645026458718256564902600997576int);
    lemma_pow_mod_step(115792089237316195423570985008687907853269984665640564039457584007908834671656int, 15223975388863572064621717007461281454749297322nat, m, 7611987694431786032310858503730640727374648661nat, 84612945976856190118943183147997415976083868220645026458718256564902600997576int, 61829358758777345687435497244522610600899865344144465306671276037461941838220int, 115109932429464443046148764948985069703061418747623022900891792616113993515916int, 0int, 115109932429464443046148764948985069703061418747623022900891792616113993515916int);
    lemma_pow_mod_step(115792089237316195423570985008687907853269984665640564039457584007908834671656int, 30447950777727144129243434014922562909498594645nat, m, 15223975388863572064621717007461281454749297322nat, 115109932429464443046148764948985069703061418747623022900891792616113993515916int, 114431794358242831103679102076453247377404077181138105380826701165659168422037int, 43206834549379859831545808061326296670532009572106620662701808116276636681525int, 43206834549379859831545808061326296670532009572106620662701808116276636681522int, 44928425866289567449892298596779646866085886992175347479460095209790047244314int);
    lemma_pow_mod_step(115792089237316195423570985008687907853269984665640564039457584007908834671656int, 60895901555454288258486868029845125818997189290nat, m, 30447950777727144129243434014922562909498594645nat, 44928425866289567449892298596779646866085886992175347479460095209790047244314int, 17432654200457738510789844986717529622192164757110059782935791159978164030878int, 18076938912679138970022450901967808010661276639992019336902850101581481720482int, 0int, 18076938912679138970022450901967808010661276639992019336902850101581481720482int);
}

proof fn lemma_minus_seven_chain_13()
    requires
        pow_mod(115792089237316195423570985008687907853269984665640564039457584007908834671656int, 60895901555454288258486868029845125818997189290nat, 115792089237316195423570985008687907853269984665640564039457584007908834671663int) == 18076938912679138970022450901967808010661276639992019336902850101581481720482int,
    ensures
        pow_mod(115792089237316195423570985008687907853269984665640564039457584007908834671656int, 249429612771140764706762211450245635354612487334570nat, 115792089237316195423570985008687907853269984665640564039457584007908834671663int) == 100556213281901405356619926930785698037693303774351613818917765167590532018720int,
{
    let m: int = 115792089237316195423570985008687907853269984665640564039457584007908834671663int;
    lemma_pow_mod_step(115792089237316195423570985008687907853269984665640564039457584007908834671656int, 121791803110908576516973736059690251637994378581nat, m, 60895901555454288258486868029845125818997189290nat, 18076938912679138970022450901967808010661276639992019336902850101581481720482int, 2822090201542227477388632611839822567260970558318219658537520993775249175706int, 61514782075138858353604736350626091436377646691457862455079343257932872093246int, 61514782075138858353604736350626091436377646691457862455079343257932872093242int, 32564882423292773219050785580368991358436411822357218972274933226105234033930int);
    lemma_pow_mod_step(115792089237316195423570985008687907853269984665640564039457584007908834671656int, 243583606221817153033947472119380503275988757162nat, m, 121791803110908576516973736059690251637994378581nat, 32564882423292773219050785580368991358436411822357218972274933226105234033930int, 9158411202594706613460291518649597598202729304305824578834571608684450209881int, 32552367010794342621130455638503334697097512701776238637477919219310317942797int, 0int, 32552367010794342621130455638503334697097512701776238637477919219310317942797int);
    lemma_pow_mod_step(115792089237316195423570985008687907853269984665640564039457584007908834671656int, 487167212443634306067894944238761006551977514325nat, m, 243583606221817153033947472119380503275988757162nat, 32552367010794342621130455638503334697097512701776238637477919219310317942797int, 9151372990893037468814622994148845470883623327787096317464124289157393557027int, 68004462437733769898582460859499304083207177900835713529174345189256952757308int, 68004462437733769898582460859499304083207177900835713529174345189256952757303int, 102929209122444587827777699026944410683899678022352825493067503714745504057159int);
    lemma_pow_mod_step(115792089237316195423570985008687907853269984665640564039457584007908834671656int, 974334424887268612135789888477522013103955028650nat, m, 487167212443634306067894944238761006551977514325nat, 102929209122444587827777699026944410683899678022352825493067503714745504057159int, 91495214917995251420677471878591944209817313009506010363290174126177454962351int, 86526498128133317626630141702813837074367111932637409868187941854288427591568int, 0int, 86526498128133317626630141702813837074367111932637409868187941854288427591568int);
    lemma_pow_mod_step(115792089237316195423570985008687907853269984665640564039457584007908834671656int, 1948668849774537224271579776955044026207910057301nat, m, 974334424887268612135789888477522013103955028650nat, 86526498128133317626630141702813837074367111932637409868187941854288427591568int, 64657567953313032353227915797878416730543061813455751789348509590599450776147int, 53543874723349301189527883808016390691975772581995284406817171205027767476163int, 53543874723349301189527883808016390691975772581995284406817171205027767476159int, 88361233885819673367588753378636896569249530588595265310110137596440966353511int);
    lemma_pow_mod_step(115792089237316195423570985008687907853269984665640564039457584007908834671656int, 3897337699549074448543159553910088052415820114602nat, m, 1948668849774537224271579776955044026207910057301nat, 88361233885819673367588753378636896569249530588595265310110137596440966353511int, 67428679327329600669985755534799541549724491403225715147560647752631053263778int, 97295057363833635958625727837300621710348386114506051145619388231245061104307int, 0int, 97295057363833635958625727837300621710348386114506051145619388231245061104307int);
    lemma_pow_mod_step(115792089237316195423570985008687907853269984665640564039457584007908834671656int, 7794675399098148897086319107820176104831640229205nat, m, 3897337699549074448543159553910088052415820114602nat, 97295057363833635958625727837300621710348386114506051145619388231245061104307int, 81752805824501646110950717898107540419266147102088343797271962262192299913137int, 94012779547696136476715308485624787908828753396679315040047356596477518613418int, 94012779547696136476715308485624787908828753396679315040047356596477518613412int, 36663078590024217204418750652753931757818634217088178956414007872110377736052int);
    lemma_pow_mod_step(115792089237316195423570985008687907853269984665640564039457584007908834671656int, 15589350798196297794172638215640352209663280458410nat, m, 7794675399098148897086319107820176104831640229205nat, 36663078590024217204418750652753931757818634217088178956414007872110377736052int, 11608576549157766051774593943056183198667092124552627139573199496182616261826int, 31202990417790643235432813288641803388915616814742264563088358317007829710066int, 0int, 31202990417790643235432813288641803388915616814742264563088358317007829710066int);
    lemma_pow_mod_step(115792089237316195423570985008687907853269984665640564039457584007908834671656int, 31178701596392595588345276431280704419326560916821nat, m, 15589350798196297794172638215640352209663280458410nat, 31202990417790643235432813288641803388915616814742264563088358317007829710066int, 8408403522431349925442800648885689429697190130177057325759319531591861733433int, 18019950538175275103686556009834034429518138260017516206290121945243036915277int, 18019950538175275103686556009834034429518138260017516206290121945243036915275int, 105444524707405465121336077948537574699913001511158514634884314399116410936387int);
    lemma_pow_mod_step(115792089237316195423570985008687907853269984665640564039457584007908834671656int, 62357403192785191176690552862561408838653121833642nat, m, 31178701596392595588345276431280704419326560916821nat, 105444524707405465121336077948537574699913001511158514634884314399116410936387int, 96021652808968221196448712981059066873093696522239794297621808782845285742905int, 11884417450457523770287002322943211174420363265326718726939123521017453812754int, 0int, 11884417450457523770287002322943211174420363265326718726939123521017453812754int);
    lemma_pow_mod_step(115792089237316195423570985008687907853269984665640564039457584007908834671656int, 124714806385570382353381105725122817677306243667285nat, m, 62357403192785191176690552862561408838653121833642nat, 11884417450457523770287002322943211174420363265326718726939123521017453812754int, 1219767076205601814740039878903610390800358934028881662415441677435090290580int, 51859936785729264434427531859302292031489620862300781381890014953618131229976int, 51859936785729264434427531859302292031489620862300781381890014953618131229972int, 100148799449159930653291217019635587192652592626456786484600231356308420076820int);
    lemma_pow_mod_step(115792089237316195423570985008687907853269984665640564039457584007908834671656int, 249429612771140764706762211450245635354612487334570nat, m, 124714806385570382353381105725122817677306243667285nat, 100148799449159930653291217019635587192652592626456786484600231356308420076820int, 86618888191506687749777090752158357125874279905342263487411796160265173865360int, 100556213281901405356619926930785698037693303774351613818917765167590532018720int, 0int, 100556213281901405356619926930785698037693303774351613818917765167590532018720int);
}

proof fn lemma_minus_seven_chain_14()
    requires
        pow_mod(115792089237316195423570985008687907853269984665640564039457584007908834671656int, 249429612771140764706762211450245635354612487334570nat, 115792089237316195423570985008687907853269984665640564039457584007908834671663int) == 100556213281901405356619926930785698037693303774351613818917765167590532018720int,
    ensures
        pow_mod(115792089237316195423570985008687907853269984665640564039457584007908834671656int, 1021663693910592572238898018100206122412492748122401450nat, 115792089237316195423570985008687907853269984665640564039457584007908834671663int) == 84006688438946083716829264011931749034497470460454721854088340049671270108866int,
{
    let m: int = 115792089237316195423570985008687907853269984665640564039457584007908834671663int;
    lemma_pow_mod_step(115792089237316195423570985008687907853269984665640564039457584007908834671656int, 498859225542281529413524422900491270709224974669141nat, m, 249429612771140764706762211450245635354612487334570nat, 100556213281901405356619926930785698037693303774351613818917765167590532018720int, 87325067681191862566201221088461432936931466930573608309771246639025667932563int, 70612843272812605748601528694772182835802812024148724619875399952356299376131int, 70612843272812605748601528694772182835802812024148724619875399952356299376126int, 84670543276892736877644224180034259415730239159161747858160120373050077725398int);
    lemma_pow_mod_step(115792089237316195423570985008687907853269984665640564039457584007908834671656int, 997718451084563058827048845800982541418449949338282nat, m, 498859225542281529413524422900491270709224974669141nat, 84670543276892736877644224180034259415730239159161747858160120373050077725398int, 61913563750551857222702189010273264906019656669456293512792604786039285656428int, 12063297397266672965241161667724755939078649295629608397460352714230688858640int, 0int, 12063297397266672965241161667724755939078649295629608397460352714230688858640int);
    lemma_pow_mod_step(115792089237316195423570985008687907853269984665640564039457584007908834671656int, 1995436902169126117654097691601965082836899898676565nat, m, 997718451084563058827048845800982541418449949338282nat, 12063297397266672965241161667724755939078649295629608397460352714230688858640int, 1256762401070860847932628269346775417120061369645236531476446748150144530248int, 100277105551696579158736482341255611171698387421293312117236846910689450687176int, 100277105551696579158736482341255611171698387421293312117236846910689450687169int, 108604885799337313853841518672026076771001180710430763455545159680535687891409int);
    lemma_pow_mod_step(115792089237316195423570985008687907853269984665640564039457584007908834671656int, 3990873804338252235308195383203930165673799797353130nat, m, 1995436902169126117654097691601965082836899898676565nat, 108604885799337313853841518672026076771001180710430763455545159680535687891409int, 101863791362406220307539442651089588198379170157760095414663692246645554381225int, 42639796339947200859994826751723476010210938070819166578039597467986569278106int, 0int, 42639796339947200859994826751723476010210938070819166578039597467986569278106int);
    lemma_pow_mod_step(115792089237316195423570985008687907853269984665640564039457584007908834671656int, 7981747608676504470616390766407860331347599594706261nat, m, 3990873804338252235308195383203930165673799797353130nat, 42639796339947200859994826751723476010210938070819166578039597467986569278106int, 15701869133614705427917987181674333013129392813450120228479298944573246257499int, 75632309007529622825214326120800868917106798756243457326556338925446754396399int, 75632309007529622825214326120800868917106798756243457326556338925446754396394int, 49534283133873617341354642197833456846602332034498618911393547561416892583522int);
    lemma_pow_mod_step(115792089237316195423570985008687907853269984665640564039457584007908834671656int, 15963495217353008941232781532815720662695199189412522nat, m, 7981747608676504470616390766407860331347599594706261nat, 49534283133873617341354642197833456846602332034498618911393547561416892583522int, 21190093569846588798457676386304060284633481908665308906741324061988427104642int, 110046373041040105685241540769040406061660660669158436787314938832525932764838int, 0int, 110046373041040105685241540769040406061660660669158436787314938832525932764838int);
    lemma_pow_mod_step(115792089237316195423570985008687907853269984665640564039457584007908834671656int, 31926990434706017882465563065631441325390398378825045nat, m, 15963495217353008941232781532815720662695199189412522nat, 110046373041040105685241540769040406061660660669158436787314938832525932764838int, 104585764876112242367578440162103354488763048629630167827452989324830486285082int, 101773608868380061303644325121213187489335061751502649741301111953018924134878int, 101773608868380061303644325121213187489335061751502649741301111953018924134871int, 98129362582552938839486619212323042547544460398965400087095304384229373757495int);
    lemma_pow_mod_step(115792089237316195423570985008687907853269984665640564039457584007908834671656int, 63853980869412035764931126131262882650780796757650090nat, m, 31926990434706017882465563065631441325390398378825045nat, 98129362582552938839486619212323042547544460398965400087095304384229373757495int, 83160877951884239819099518876492268152046299092528420106536438473475711295269int, 66127419070458723933494103035893381332902000753136946168216864463193008412678int, 0int, 66127419070458723933494103035893381332902000753136946168216864463193008412678int);
    lemma_pow_mod_step(115792089237316195423570985008687907853269984665640564039457584007908834671656int, 127707961738824071529862252262525765301561593515300181nat, m, 63853980869412035764931126131262882650780796757650090nat, 66127419070458723933494103035893381332902000753136946168216864463193008412678int, 37764544898727321580724080105905562258029384762398698577113632210051817667945int, 56862573776229492561921119546602217121259182755261484534592657114344716189149int, 56862573776229492561921119546602217121259182755261484534592657114344716189145int, 65130340515658333760836103208536111564265659375731864415681736231222325362609int);
    lemma_pow_mod_step(115792089237316195423570985008687907853269984665640564039457584007908834671656int, 255415923477648143059724504525051530603123187030600362nat, m, 127707961738824071529862252262525765301561593515300181nat, 65130340515658333760836103208536111564265659375731864415681736231222325362609int, 36634292408280971361429841848915690856748346381214487549981895071459430247413int, 87280494561911244935264608446634960929635147117022267521373405193578625129062int, 0int, 87280494561911244935264608446634960929635147117022267521373405193578625129062int);
    lemma_pow_mod_step(115792089237316195423570985008687907853269984665640564039457584007908834671656int, 510831846955296286119449009050103061206246374061200725nat, m, 255415923477648143059724504525051530603123187030600362nat, 87280494561911244935264608446634960929635147117022267521373405193578625129062int, 65789336569952920926506478859356584478893819587060124070208013496227640201818int, 58304050194538467293034795268787845908306233537742779363209881263455071316510int, 58304050194538467293034795268787845908306233537742779363209881263455071316506int, 55040005587495510643040373153236710054936303898362800615361167187449839471082int);
    lemma_pow_mod_step(115792089237316195423570985008687907853269984665640564039457584007908834671656int, 1021663693910592572238898018100206122412492748122401450nat, m, 510831846955296286119449009050103061206246374061200725nat, 55040005587495510643040373153236710054936303898362800615361167187449839471082int, 26162428150534265945963208760176220331327721533270680804315270869939162096766int, 84006688438946083716829264011931749034497470460454721854088340049671270108866int, 0int, 84006688438946083716829264011931749034497470460454721854088340049671270108866int);
}

proof fn lemma_minus_seven_chain_15()
    requires
        pow_mod(115792089237316195423570985008687907853269984665640564039457584007908834671656int, 1021663693910592572238898018100206122412492748122401450nat, 115792089237316195423570985008687907853269984665640564039457584007908834671663int) == 84006688438946083716829264011931749034497470460454721854088340049671270108866int,
    ensures
        pow_mod(115792089237316195423570985008687907853269984665640564039457584007908834671656int, 4184734490257787175890526282138444277401570296309356341930nat, 115792089237316195423570985008687907853269984665640564039457584007908834671663int) == 81138277857917790009130749792060046992338312805118569845547311026363257725179int,
{
    let m: int = 115792089237316195423570985008687907853269984665640564039457584007908834671663int;
    lemma_pow_mod_step(115792089237316195423570985008687907853269984665640564039457584007908834671656int, 2043327387821185144477796036200412244824985496244802901nat, m, 1021663693910592572238898018100206122412492748122401450nat, 84006688438946083716829264011931749034497470460454721854088340049671270108866int, 60946509808753547643121234824854859949553759462992253124662645722899410810182int, 54548153768086821375044522427309077043251470481051450425145844603060704533290int, 54548153768086821375044522427309077043251470481051450425145844603060704533286int, 81331280572657032068972283043588092110319645295202103181809423810210406953622int);
    lemma_pow_mod_step(115792089237316195423570985008687907853269984665640564039457584007908834671656int, 4086654775642370288955592072400824489649970992489605802nat, m, 2043327387821185144477796036200412244824985496244802901nat, 81331280572657032068972283043588092110319645295202103181809423810210406953622int, 57126330850039812913623004760732368782156362685026967246793428608720902619132int, 60366262703844161198300037241384471858893526474605100850588313584662496862368int, 0int, 60366262703844161198300037241384471858893526474605100850588313584662496862368int);
    lemma_pow_mod_step(115792089237316195423570985008687907853269984665640564039457584007908834671656int, 8173309551284740577911184144801648979299941984979211605nat, m, 4086654775642370288955592072400824489649970992489605802nat, 60366262703844161198300037241384471858893526474605100850588313584662496862368int, 31470938099760539627921846480175059709560529089564760370405165210667369265784int, 103569865406433070878684308361674536423930997683166388137608218206665714288632int, 103569865406433070878684308361674536423930997683166388137608218206665714288625int, 85555566816181871814206736529093600005372908877319231312945560608701842681217int);
    lemma_pow_mod_step(115792089237316195423570985008687907853269984665640564039457584007908834671656int, 16346619102569481155822368289603297958599883969958423210nat, m, 8173309551284740577911184144801648979299941984979211605nat, 85555566816181871814206736529093600005372908877319231312945560608701842681217int, 63214638076322323425824335389005746511524788360916159078853541632780214243012int, 97442264923044366100228621716191438771295332692678317247966910575260372432133int, 0int, 97442264923044366100228621716191438771295332692678317247966910575260372432133int);
    lemma_pow_mod_step(115792089237316195423570985008687907853269984665640564039457584007908834671656int, 32693238205138962311644736579206595917199767939916846421nat, m, 16346619102569481155822368289603297958599883969958423210nat, 97442264923044366100228621716191438771295332692678317247966910575260372432133int, 82000377192199589075231095678238133630800808172540719992010963212303841598939int, 114714197024160854893293621548594856962522336020574907798200606426566696764132int, 114714197024160854893293621548594856962522336020574907798200606426566696764125int, 7545245492087383711941544220651356235233540515459593688798843069394965352717int);
    lemma_pow_mod_step(115792089237316195423570985008687907853269984665640564039457584007908834671656int, 65386476410277924623289473158413191834399535879833692842nat, m, 32693238205138962311644736579206595917199767939916846421nat, 7545245492087383711941544220651356235233540515459593688798843069394965352717int, 491663376236223731171492937609004356335595310794430075725402459700825747346int, 50551371773477419817527402587000496480142510001407602590144314071685715625691int, 0int, 50551371773477419817527402587000496480142510001407602590144314071685715625691int);
    lemma_pow_mod_step(115792089237316195423570985008687907853269984665640564039457584007908834671656int, 130772952820555849246578946316826383668799071759667385685nat, m, 65386476410277924623289473158413191834399535879833692842nat, 50551371773477419817527402587000496480142510001407602590144314071685715625691int, 22069220833756147992760203357554839752925205063973790903567956917713372016729int, 54562947228050051878709683333799475441030159515996073988477896767326760977154int, 54562947228050051878709683333799475441030159515996073988477896767326760977150int, 81227726352914418543316156698155303325868822050589738238485058660348011846574int);
    lemma_pow_mod_step(115792089237316195423570985008687907853269984665640564039457584007908834671656int, 261545905641111698493157892633652767337598143519334771370nat, m, 130772952820555849246578946316826383668799071759667385685nat, 81227726352914418543316156698155303325868822050589738238485058660348011846574int, 56980952428809231210119210755442298201438416547876882958083277738998109017236int, 24632732923219529134154976588509848579822841936798531804867943126285647754008int, 0int, 24632732923219529134154976588509848579822841936798531804867943126285647754008int);
    lemma_pow_mod_step(115792089237316195423570985008687907853269984665640564039457584007908834671656int, 523091811282223396986315785267305534675196287038669542741nat, m, 261545905641111698493157892633652767337598143519334771370nat, 24632732923219529134154976588509848579822841936798531804867943126285647754008int, 5240181218451663471560314085171418231836173359661282358932062533700402986698int, 37919994318407409436584149147569953862853154299924568513731577673353493525290int, 37919994318407409436584149147569953862853154299924568513731577673353493525287int, 81936307483096720214623910993074046519837873897449712522251708310252049337959int);
    lemma_pow_mod_step(115792089237316195423570985008687907853269984665640564039457584007908834671656int, 1046183622564446793972631570534611069350392574077339085482nat, m, 523091811282223396986315785267305534675196287038669542741nat, 81936307483096720214623910993074046519837873897449712522251708310252049337959int, 57979422672002364413727496343732828895557349046663686637218711196970294002948int, 96932837235087638730128035762894017843515115406816208020551824175746664223157int, 0int, 96932837235087638730128035762894017843515115406816208020551824175746664223157int);
    lemma_pow_mod_step(115792089237316195423570985008687907853269984665640564039457584007908834671656int, 2092367245128893587945263141069222138700785148154678170965nat, m, 1046183622564446793972631570534611069350392574077339085482nat, 96932837235087638730128035762894017843515115406816208020551824175746664223157int, 81145223273300794519174983074943597763475695215040962347291202477311921739236int, 14185794318119532217872771242617111601902401308533148298511703726544330577181int, 14185794318119532217872771242617111601902401308533148298511703726544330577180int, 16491529010479469898461586310368126639953175505908525949875657922098520631396int);
    lemma_pow_mod_step(115792089237316195423570985008687907853269984665640564039457584007908834671656int, 4184734490257787175890526282138444277401570296309356341930nat, m, 2092367245128893587945263141069222138700785148154678170965nat, 16491529010479469898461586310368126639953175505908525949875657922098520631396int, 2348783331355923974291053371333456875955715075346719358102954274884973903099int, 81138277857917790009130749792060046992338312805118569845547311026363257725179int, 0int, 81138277857917790009130749792060046992338312805118569845547311026363257725179int);
}

proof fn lemma_minus_seven_chain_16()
    requires
        pow_mod(115792089237316195423570985008687907853269984665640564039457584007908834671656int, 4184734490257787175890526282138444277401570296309356341930nat, 115792089237316195423570985008687907853269984665640564039457584007908834671663int) == 81138277857917790009130749792060046992338312805118569845547311026363257725179int,
    ensures
        pow_mod(115792089237316195423570985008687907853269984665640564039457584007908834671656int, 17140672472095896272447595651639067760236831933683123576548010nat, 115792089237316195423570985008687907853269984665640564039457584007908834671663int) == 62720256307150072992340190508170823678542083920663867449474328766212241782989int,
{
    let m: int = 115792089237316195423570985008687907853269984665640564039457584007908834671663int;
    lemma_pow_mod_step(115792089237316195423570985008687907853269984665640564039457584007908834671656int, 8369468980515574351781052564276888554803140592618712683861nat, m, 4184734490257787175890526282138444277401570296309356341930nat, 81138277857917790009130749792060046992338312805118569845547311026363257725179int, 56855525944055946759461345813131946173429107828587109612668414037767476235583int, 76409247975007889705726500445832505718377395350913559984555755022990848197512int, 76409247975007889705726500445832505718377395350913559984555755022990848197507int, 44095710361525749177769421922611999237708155871807900305397634878608235975731int);
    lemma_pow_mod_step(115792089237316195423570985008687907853269984665640564039457584007908834671656int, 16738937961031148703562105128553777109606281185237425367722nat, m, 8369468980515574351781052564276888554803140592618712683861nat, 44095710361525749177769421922611999237708155871807900305397634878608235975731int, 16792439665739612175914696885740563954528792555234266462344360910229154149949int, 66780749579750956991657381445018314603354909259725027036937898207328337789174int, 0int, 66780749579750956991657381445018314603354909259725027036937898207328337789174int);
    lemma_pow_mod_step(115792089237316195423570985008687907853269984665640564039457584007908834671656int, 33477875922062297407124210257107554219212562370474850735445nat, m, 16738937961031148703562105128553777109606281185237425367722nat, 66780749579750956991657381445018314603354909259725027036937898207328337789174int, 38514448990494550241607132364210476842693363277802464210096127229992983750796int, 25860039395043198110033450710334545396545697576668160791412733315293196708528int, 25860039395043198110033450710334545396545697576668160791412733315293196708526int, 50563902709330004076907815045033997930720086294604002539026034808765292383630int);
    lemma_pow_mod_step(115792089237316195423570985008687907853269984665640564039457584007908834671656int, 66955751844124594814248420514215108438425124740949701470890nat, m, 33477875922062297407124210257107554219212562370474850735445nat, 50563902709330004076907815045033997930720086294604002539026034808765292383630int, 22080163455368783796612395975992879873814636356718236695308335143975816173209int, 14957638267340832524584291279090351014419402205683968363206225868240439900333int, 0int, 14957638267340832524584291279090351014419402205683968363206225868240439900333int);
    lemma_pow_mod_step(115792089237316195423570985008687907853269984665640564039457584007908834671656int, 133911503688249189628496841028430216876850249481899402941781nat, m, 66955751844124594814248420514215108438425124740949701470890nat, 14957638267340832524584291279090351014419402205683968363206225868240439900333int, 1932178130736389941517070227576991392752726323645981679719804495577769544197int, 104705649081548950502524479446619032713589667195242963695623797198981311521278int, 104705649081548950502524479446619032713589667195242963695623797198981311521271int, 77605081090370714447325538934482125977762222292783202406836507662492662052695int);
    lemma_pow_mod_step(115792089237316195423570985008687907853269984665640564039457584007908834671656int, 267823007376498379256993682056860433753700498963798805883562nat, m, 133911503688249189628496841028430216876850249481899402941781nat, 77605081090370714447325538934482125977762222292783202406836507662492662052695int, 52011744936217402658550409848068488519533683304296892819323434831926655272244int, 71558377608622861846853183637022701189597744193635015922221660589987339541253int, 0int, 71558377608622861846853183637022701189597744193635015922221660589987339541253int);
    lemma_pow_mod_step(115792089237316195423570985008687907853269984665640564039457584007908834671656int, 535646014752996758513987364113720867507400997927597611767125nat, m, 267823007376498379256993682056860433753700498963798805883562nat, 71558377608622861846853183637022701189597744193635015922221660589987339541253int, 44222376845481832032382572180125869714868654231820204214161576369273162761676int, 95455742157116695304977650937969613273938203263953453207334289558318709222821int, 95455742157116695304977650937969613273938203263953453207334289558318709222815int, 26562340324080305406582353486340154202052485146169211785405477139222043470231int);
    lemma_pow_mod_step(115792089237316195423570985008687907853269984665640564039457584007908834671656int, 1071292029505993517027974728227441735014801995855195223534250nat, m, 535646014752996758513987364113720867507400997927597611767125nat, 26562340324080305406582353486340154202052485146169211785405477139222043470231int, 6093317152661610413438191971989174670338675441603889930598820593557987201860int, 32398553090938844410539515942181354799069850286953113461965676316635780300181int, 0int, 32398553090938844410539515942181354799069850286953113461965676316635780300181int);
    lemma_pow_mod_step(115792089237316195423570985008687907853269984665640564039457584007908834671656int, 2142584059011987034055949456454883470029603991710390447068501nat, m, 1071292029505993517027974728227441735014801995855195223534250nat, 32398553090938844410539515942181354799069850286953113461965676316635780300181int, 9065094595841423919878061438321553506914126019706979057247285938965240490390int, 64687756776260553693480338724845175179914361455525825955888824706813711814191int, 64687756776260553693480338724845175179914361455525825955888824706813711814187int, 10354059515440905839921568960835405153679408473881474466608563083939355987315int);
    lemma_pow_mod_step(115792089237316195423570985008687907853269984665640564039457584007908834671656int, 4285168118023974068111898912909766940059207983420780894137002nat, m, 2142584059011987034055949456454883470029603991710390447068501nat, 10354059515440905839921568960835405153679408473881474466608563083939355987315int, 925853822617987824170282904700244567130478678058130775340623576840236176654int, 27290498843891043091898394866958579276463611983721779323270385999825884953623int, 0int, 27290498843891043091898394866958579276463611983721779323270385999825884953623int);
    lemma_pow_mod_step(115792089237316195423570985008687907853269984665640564039457584007908834671656int, 8570336236047948136223797825819533880118415966841561788274005nat, m, 4285168118023974068111898912909766940059207983420780894137002nat, 27290498843891043091898394866958579276463611983721779323270385999825884953623int, 6431970716255128104039462580667064949411009679019719017776917186248377203017int, 71746020307078851557432052263193827652538593044042498017575942185335372818858int, 71746020307078851557432052263193827652538593044042498017575942185335372818853int, 76738304037029016215830559201082745698579772019905334074256324742196563626309int);
    lemma_pow_mod_step(115792089237316195423570985008687907853269984665640564039457584007908834671656int, 17140672472095896272447595651639067760236831933683123576548010nat, m, 8570336236047948136223797825819533880118415966841561788274005nat, 76738304037029016215830559201082745698579772019905334074256324742196563626309int, 50856387040486500958774142693941234106559324076332900125361894652024308701684int, 62720256307150072992340190508170823678542083920663867449474328766212241782989int, 0int, 62720256307150072992340190508170823678542083920663867449474328766212241782989int);
}

proof fn lemma_minus_seven_chain_17()
    requires
        pow_mod(115792089237316195423570985008687907853269984665640564039457584007908834671656int, 17140672472095896272447595651639067760236831933683123576548010nat, 115792089237316195423570985008687907853269984665640564039457584007908834671663int) == 62720256307150072992340190508170823678542083920663867449474328766212241782989int,
    ensures
        pow_mod(115792089237316195423570985008687907853269984665640564039457584007908834671656int, 70208194445704791131945351789113621545930063600366074169540651690nat, 115792089237316195423570985008687907853269984665640564039457584007908834671663int) == 107733786724976900454515759094762723494403940245205900852953293741293467002063int,
{
    let m: int = 115792089237316195423570985008687907853269984665640564039457584007908834671663int;
    lemma_pow_mod_step(115792089237316195423570985008687907853269984665640564039457584007908834671656int, 34281344944191792544895191303278135520473663867366247153096021nat, m, 17140672472095896272447595651639067760236831933683123576548010nat, 62720256307150072992340190508170823678542083920663867449474328766212241782989int, 33973223707642085244409132241211302599255413489164596755709070159259403332342int, 77841887882545625696060461987164158380618209222920994682914896406020130949375int, 77841887882545625696060461987164158380618209222920994682914896406020130949370int, 34067231008761597245431691133290430602022458767755857416883645197403256712690int);
    lemma_pow_mod_step(115792089237316195423570985008687907853269984665640564039457584007908834671656int, 68562689888383585089790382606556271040947327734732494306192042nat, m, 34281344944191792544895191303278135520473663867366247153096021nat, 34067231008761597245431691133290430602022458767755857416883645197403256712690int, 10022931931262796733360810191345969451853509167354323339794317705143620088067int, 55742143337033258325325824284345113329299925525974415391970522722962117690679int, 0int, 55742143337033258325325824284345113329299925525974415391970522722962117690679int);
    lemma_pow_mod_step(115792089237316195423570985008687907853269984665640564039457584007908834671656int, 137125379776767170179580765213112542081894655469464988612384085nat, m, 68562689888383585089790382606556271040947327734732494306192042nat, 55742143337033258325325824284345113329299925525974415391970522722962117690679int, 26834186724433084332002736789102239273614265762062223213718367562599388005682int, 65811040478838040401478566505254787151687592851375695894871942470751075091875int, 65811040478838040401478566505254787151687592851375695894871942470751075091871int, 2491073597398498883933974497968121351266788702932384893726738736377813043527int);
    lemma_pow_mod_step(115792089237316195423570985008687907853269984665640564039457584007908834671656int, 274250759553534340359161530426225084163789310938929977224768170nat, m, 137125379776767170179580765213112542081894655469464988612384085nat, 2491073597398498883933974497968121351266788702932384893726738736377813043527int, 53591292017694032414337453504409398064431551108562901545923144846429790235int, 106288369319057783908781584461272290922343276320876160071354438992126607988924int, 0int, 106288369319057783908781584461272290922343276320876160071354438992126607988924int);
    lemma_pow_mod_step(115792089237316195423570985008687907853269984665640564039457584007908834671656int, 548501519107068680718323060852450168327578621877859954449536341nat, m, 274250759553534340359161530426225084163789310938929977224768170nat, 106288369319057783908781584461272290922343276320876160071354438992126607988924int, 97564674123382874351060363565785981135094523652911249087451907923485330023860int, 18247706444201330623944261187028838451654601500605987651806586223380650798596int, 18247706444201330623944261187028838451654601500605987651806586223380650798594int, 103850233365223076479532141708173946544957758827039214516269064452153113753154int);
    lemma_pow_mod_step(115792089237316195423570985008687907853269984665640564039457584007908834671656int, 1097003038214137361436646121704900336655157243755719908899072682nat, m, 548501519107068680718323060852450168327578621877859954449536341nat, 103850233365223076479532141708173946544957758827039214516269064452153113753154int, 93139963541962443759622687184290157268181535963306822294660913614652571879961int, 97444625851781361183753331129117330505570250373951668064078330551041960702573int, 0int, 97444625851781361183753331129117330505570250373951668064078330551041960702573int);
    lemma_pow_mod_step(115792089237316195423570985008687907853269984665640564039457584007908834671656int, 2194006076428274722873292243409800673310314487511439817798145365nat, m, 1097003038214137361436646121704900336655157243755719908899072682nat, 97444625851781361183753331129117330505570250373951668064078330551041960702573int, 82004350814784037854847967107134755256317723065393247200047728520658791721501int, 96799930639994444923963183145337884407922890934543342007791794834755896294166int, 96799930639994444923963183145337884407922890934543342007791794834755896294160int, 17153020943936058073683628034762256264159671452039990182202940204161733970816int);
    lemma_pow_mod_step(115792089237316195423570985008687907853269984665640564039457584007908834671656int, 4388012152856549445746584486819601346620628975022879635596290730nat, m, 2194006076428274722873292243409800673310314487511439817798145365nat, 17153020943936058073683628034762256264159671452039990182202940204161733970816int, 2540986430429559176887566971637057050682580539119596349945790861102392801406int, 113956565367746925387003256365315248327978958763793663824244136512433964947678int, 0int, 113956565367746925387003256365315248327978958763793663824244136512433964947678int);
    lemma_pow_mod_step(115792089237316195423570985008687907853269984665640564039457584007908834671656int, 8776024305713098891493168973639202693241257950045759271192581461nat, m, 4388012152856549445746584486819601346620628975022879635596290730nat, 113956565367746925387003256365315248327978958763793663824244136512433964947678int, 112150138027119744555621287648469102190323058974170612161227719506321742624897int, 94098169850914865588339997893851030538537650748223945836815780469912513397973int, 94098169850914865588339997893851030538537650748223945836815780469912513397967int, 36065346467493113423045924795170233349856352756275763379035040758065414244167int);
    lemma_pow_mod_step(115792089237316195423570985008687907853269984665640564039457584007908834671656int, 17552048611426197782986337947278405386482515900091518542385162922nat, m, 8776024305713098891493168973639202693241257950045759271192581461nat, 36065346467493113423045924795170233349856352756275763379035040758065414244167int, 11233144028988983793045941069798074743568454523626331983027980101249715454749int, 72178040321360069057126347549882656397681138120123153523239299979955744446302int, 0int, 72178040321360069057126347549882656397681138120123153523239299979955744446302int);
    lemma_pow_mod_step(115792089237316195423570985008687907853269984665640564039457584007908834671656int, 35104097222852395565972675894556810772965031800183037084770325845nat, m, 17552048611426197782986337947278405386482515900091518542385162922nat, 72178040321360069057126347549882656397681138120123153523239299979955744446302int, 44991583958336293680786882602655234289100996279882839659754662934745875576865int, 43709720442070222522000904622026526041642959956670583310990879654563567598709int, 43709720442070222522000904622026526041642959956670583310990879654563567598706int, 41408224617457028616706622671878041268309234300227608941436594441781530824026int);
    lemma_pow_mod_step(115792089237316195423570985008687907853269984665640564039457584007908834671656int, 70208194445704791131945351789113621545930063600366074169540651690nat, m, 35104097222852395565972675894556810772965031800183037084770325845nat, 41408224617457028616706622671878041268309234300227608941436594441781530824026int, 14807929257201783884412563416665129725356969079836352424913111979059849838651int, 107733786724976900454515759094762723494403940245205900852953293741293467002063int, 0int, 107733786724976900454515759094762723494403940245205900852953293741293467002063int);
}

proof fn lemma_minus_seven_chain_18()
    requires
        pow_mod(115792089237316195423570985008687907853269984665640564039457584007908834671656int, 70208194445704791131945351789113621545930063600366074169540651690nat, 115792089237316195423570985008687907853269984665640564039457584007908834671663int) == 107733786724976900454515759094762723494403940245205900852953293741293467002063int,
    ensures
        pow_mod(115792089237316195423570985008687907853269984665640564039457584007908834671656int, 287572764449606824476448160928209393852129540507099439798438509324959nat, 115792089237316195423570985008687907853269984665640564039457584007908834671663int) == 25143339960338629168068068292193125033883758918712054259943725014154214625149int,
{
    let m: int = 115792089237316195423570985008687907853269984665640564039457584007908834671663int;
    lemma_pow_mod_step(115792089237316195423570985008687907853269984665640564039457584007908834671656int, 140416388891409582263890703578227243091860127200732148339081303381nat, m, 70208194445704791131945351789113621545930063600366074169540651690nat, 107733786724976900454515759094762723494403940245205900852953293741293467002063int, 100236284521260475200785080349476391312194382409202676581645320893262783078242int, 109292815314089658256575023385146195788003839826653958250982653280184336999523int, 109292815314089658256575023385146195788003839826653958250982653280184336999516int, 45494917462585760168971731364791984456863013872906240519324515094071483704980int);
    lemma_pow_mod_step(115792089237316195423570985008687907853269984665640564039457584007908834671656int, 280832777782819164527781407156454486183720254401464296678162606762nat, m, 140416388891409582263890703578227243091860127200732148339081303381nat, 45494917462585760168971731364791984456863013872906240519324515094071483704980int, 17875033852143868962117213622391541936545557961976137335526667042434210747169int, 25218770006344711906654714933791456087072877227418337872741717452783655028353int, 0int, 25218770006344711906654714933791456087072877227418337872741717452783655028353int);
    lemma_pow_mod_step(115792089237316195423570985008687907853269984665640564039457584007908834671656int, 561665555565638329055562814312908972367440508802928593356325213525nat, m, 280832777782819164527781407156454486183720254401464296678162606762nat, 25218770006344711906654714933791456087072877227418337872741717452783655028353int, 5492485409166907075125511017821878467384905914851999054545664351037372821337int, 82097677177934768519508396653759683945172230221075845401530777694008878219178int, 82097677177934768519508396653759683945172230221075845401530777694008878219173int, 4276705941037597481296148467121751650144311780671902386572476181482025824069int);
    lemma_pow_mod_step(115792089237316195423570985008687907853269984665640564039457584007908834671656int, 1123331111131276658111125628625817944734881017605857186712650427050nat, m, 561665555565638329055562814312908972367440508802928593356325213525nat, 4276705941037597481296148467121751650144311780671902386572476181482025824069int, 157957368474632498414760147636686364086898723197855238434579985784839871564int, 65873599361807677953706524750899848350300395192192789547450267063499509425829int, 0int, 65873599361807677953706524750899848350300395192192789547450267063499509425829int);
    lemma_pow_mod_step(115792089237316195423570985008687907853269984665640564039457584007908834671656int, 2246662222262553316222251257251635889469762035211714373425300854101nat, m, 1123331111131276658111125628625817944734881017605857186712650427050nat, 65873599361807677953706524750899848350300395192192789547450267063499509425829int, 37475194734473425719518112407983574170108173488971761762755033943607389170519int, 79888898594061554235949774645738519433774597747556358258858122743719968034144int, 79888898594061554235949774645738519433774597747556358258858122743719968034139int, 19738156028150097466206502523269903229927739095308312385281060833504397119307int);
    lemma_pow_mod_step(115792089237316195423570985008687907853269984665640564039457584007908834671656int, 4493324444525106632444502514503271778939524070423428746850601708202nat, m, 2246662222262553316222251257251635889469762035211714373425300854101nat, 19738156028150097466206502523269903229927739095308312385281060833504397119307int, 3364606390278721403497820490605963799992100536455962679363019558372108900090int, 51682805713523334951665757530306101513439611805278395303960343807024771010579int, 0int, 51682805713523334951665757530306101513439611805278395303960343807024771010579int);
    lemma_pow_mod_step(115792089237316195423570985008687907853269984665640564039457584007908834671656int, 8986648889050213264889005029006543557879048140846857493701203416404nat, m, 4493324444525106632444502514503271778939524070423428746850601708202nat, 51682805713523334951665757530306101513439611805278395303960343807024771010579int, 23068176971462603817465128372187359990301664033112719046169943287261661665474int, 5301293233194660667164003282273788026743876831882006050292227044248396651979int, 0int, 5301293233194660667164003282273788026743876831882006050292227044248396651979int);
    lemma_pow_mod_step(115792089237316195423570985008687907853269984665640564039457584007908834671656int, 17973297778100426529778010058013087115758096281693714987402406832809nat, m, 8986648889050213264889005029006543557879048140846857493701203416404nat, 5301293233194660667164003282273788026743876831882006050292227044248396651979int, 242708376102592556474847461338993085854723211662581652115369328057094299121int, 24994860522586346819204713226533248284801244304314904107946747959913300108218int, 24994860522586346819204713226533248284801244304314904107946747959913300108216int, 56620154816527963112708977431643077712931259201076799323287932296424568585800int);
    lemma_pow_mod_step(115792089237316195423570985008687907853269984665640564039457584007908834671656int, 35946595556200853059556020116026174231516192563387429974804813665619nat, m, 17973297778100426529778010058013087115758096281693714987402406832809nat, 56620154816527963112708977431643077712931259201076799323287932296424568585800int, 27686191280970957520633788784918488966832176759096648853928405914643743301719int, 672885681953254242761522009454931704021701085210100752768822380169053151303int, 672885681953254242761522009454931704021701085210100752768822380169053151302int, 111081889463643415724240330942503385925118077069169858770075827346725462612542int);
    lemma_pow_mod_step(115792089237316195423570985008687907853269984665640564039457584007908834671656int, 71893191112401706119112040232052348463032385126774859949609627331239nat, m, 35946595556200853059556020116026174231516192563387429974804813665619nat, 111081889463643415724240330942503385925118077069169858770075827346725462612542int, 106563291569287597618616459569058506912926888147014627257608970381161855927284int, 52851107194904943195058096266849626205192810541297506622827710139399472348472int, 52851107194904943195058096266849626205192810541297506622827710139399472348468int, 93210606584930179328877266166804247976730264873479709798036365055839032247348int);
    lemma_pow_mod_step(115792089237316195423570985008687907853269984665640564039457584007908834671656int, 143786382224803412238224080464104696926064770253549719899219254662479nat, m, 71893191112401706119112040232052348463032385126774859949609627331239nat, 93210606584930179328877266166804247976730264873479709798036365055839032247348int, 75032908009148233328030851657690585132866666437632265584947865544120369097837int, 54423343945255133119094531187374229044851627782769482241606378327774034540173int, 54423343945255133119094531187374229044851627782769482241606378327774034540169int, 82204949332478849860622221723132028099118544183175880466585687737217096905441int);
    lemma_pow_mod_step(115792089237316195423570985008687907853269984665640564039457584007908834671656int, 287572764449606824476448160928209393852129540507099439798438509324959nat, m, 143786382224803412238224080464104696926064770253549719899219254662479nat, 82204949332478849860622221723132028099118544183175880466585687737217096905441int, 58360236344864506675414967131131272191879324427430090345145351010725776202733int, 12949821325282509465071845245213540402769460820989787111359122713393517149502int, 12949821325282509465071845245213540402769460820989787111359122713393517149501int, 25143339960338629168068068292193125033883758918712054259943725014154214625149int);
}

proof fn lemma_minus_seven_chain_19()
    requires
        pow_mod(115792089237316195423570985008687907853269984665640564039457584007908834671656int, 287572764449606824476448160928209393852129540507099439798438509324959nat, 115792089237316195423570985008687907853269984665640564039457584007908834671663int) == 25143339960338629168068068292193125033883758918712054259943725014154214625149int,
    ensures
        pow_mod(115792089237316195423570985008687907853269984665640564039457584007908834671656int, 1177898043185589553055531667161945677218322597917079305414404134195036159nat, 115792089237316195423570985008687907853269984665640564039457584007908834671663int) == 61547749146004792929610850923191947556819905493331265236297821891210712137617int,
{
    let m: int = 115792089237316195423570985008687907853269984665640564039457584007908834671663int;
    lemma_pow_mod_step(115792089237316195423570985008687907853269984665640564039457584007908834671656int, 575145528899213648952896321856418787704259081014198879596877018649919nat, m, 287572764449606824476448160928209393852129540507099439798438509324959nat, 25143339960338629168068068292193125033883758918712054259943725014154214625149int, 5459678191534235827927607181874234963448589328371376957929354123252864744553int, 87890092382825132665431663975771059696894683615721541196505977270872460570562int, 87890092382825132665431663975771059696894683615721541196505977270872460570556int, 79521888744121243883404262221730029241357122683792595861203663151345784036044int);
    lemma_pow_mod_step(115792089237316195423570985008687907853269984665640564039457584007908834671656int, 1150291057798427297905792643712837575408518162028397759193754037299839nat, m, 575145528899213648952896321856418787704259081014198879596877018649919nat, 79521888744121243883404262221730029241357122683792595861203663151345784036044int, 54612804994578635506154018730670487407665142746303230807691298982041111082036int, 17165662042662381690660465944079710392579222778533005120565906808979573624068int, 17165662042662381690660465944079710392579222778533005120565906808979573624066int, 111424544175995719012518708408817842958485409881550092234953820352960653974850int);
    lemma_pow_mod_step(115792089237316195423570985008687907853269984665640564039457584007908834671656int, 2300582115596854595811585287425675150817036324056795518387508074599679nat, m, 1150291057798427297905792643712837575408518162028397759193754037299839nat, 111424544175995719012518708408817842958485409881550092234953820352960653974850int, 107221737914953469715349376628845166648255653674227037956722501882232373636536int, 6235376275142355741735842238912546158973651005935995232245086612771571843132int, 6235376275142355741735842238912546158973651005935995232245086612771571843131int, 72144455311319705231420089336300084740454427624088597413741977718507831769739int);
    lemma_pow_mod_step(115792089237316195423570985008687907853269984665640564039457584007908834671656int, 4601164231193709191623170574851350301634072648113591036775016149199359nat, m, 2300582115596854595811585287425675150817036324056795518387508074599679nat, 72144455311319705231420089336300084740454427624088597413741977718507831769739int, 44949723823530885457488044025721794726652703984046589972690526330580546552553int, 64622771443427677289492536404717147694503993623350206251517415424652386722482int, 64622771443427677289492536404717147694503993623350206251517415424652386722478int, 10808956845271040667836185201731597551551983299110812397208428059068631629278int);
    lemma_pow_mod_step(115792089237316195423570985008687907853269984665640564039457584007908834671656int, 9202328462387418383246341149702700603268145296227182073550032298398719nat, m, 4601164231193709191623170574851350301634072648113591036775016149199359nat, 10808956845271040667836185201731597551551983299110812397208428059068631629278int, 1008994214133929474976274391638425034389945643135690260047571889588263844565int, 112009060134308184795847628053048960663482114648952081050936391952906984739689int, 112009060134308184795847628053048960663482114648952081050936391952906984739682int, 26481203721056074394063498689472630328515090116819380919648344385012949523818int);
    lemma_pow_mod_step(115792089237316195423570985008687907853269984665640564039457584007908834671656int, 18404656924774836766492682299405401206536290592454364147100064596797439nat, m, 9202328462387418383246341149702700603268145296227182073550032298398719nat, 26481203721056074394063498689472630328515090116819380919648344385012949523818int, 6056149043816385683739201587280815626637748486009322684333499420408235012218int, 37958873937104057982440778188994457633285417453622263666890347750626125918590int, 37958873937104057982440778188994457633285417453622263666890347750626125918587int, 81664150152220180393627507703102520126812031821565846450140317769343622584859int);
    lemma_pow_mod_step(115792089237316195423570985008687907853269984665640564039457584007908834671656int, 36809313849549673532985364598810802413072581184908728294200129193594879nat, m, 18404656924774836766492682299405401206536290592454364147100064596797439nat, 81664150152220180393627507703102520126812031821565846450140317769343622584859int, 57594896715406538250136331132176361987262361036142309227827743087680372749911int, 66813817433321669568041779381464429672490516869841570687738938135364558577888int, 66813817433321669568041779381464429672490516869841570687738938135364558577883int, 111263724153329290141562469373188531558916305239311825383115353091992263313099int);
    lemma_pow_mod_step(115792089237316195423570985008687907853269984665640564039457584007908834671656int, 73618627699099347065970729197621604826145162369817456588400258387189759nat, m, 36809313849549673532985364598810802413072581184908728294200129193594879nat, 111263724153329290141562469373188531558916305239311825383115353091992263313099int, 106912453121871694050530960441578527135870933506838790345657699702832267885194int, 27958722084014227176469407137971041815171593069599632740424013580255735926179int, 27958722084014227176469407137971041815171593069599632740424013580255735926177int, 35873123886532800611856120051578523000338817844083698895947072954027517860073int);
    lemma_pow_mod_step(115792089237316195423570985008687907853269984665640564039457584007908834671656int, 147237255398198694131941458395243209652290324739634913176800516774379519nat, m, 73618627699099347065970729197621604826145162369817456588400258387189759nat, 35873123886532800611856120051578523000338817844083698895947072954027517860073int, 11113721376432409917529289584638402538833681884486084738778092249069362402564int, 96733826541638947641597168404458065558549249430435138628085373511987438221397int, 96733826541638947641597168404458065558549249430435138628085373511987438221391int, 17615749632424539050245731220920988209775161980797413840147889463540940480199int);
    lemma_pow_mod_step(115792089237316195423570985008687907853269984665640564039457584007908834671656int, 294474510796397388263882916790486419304580649479269826353601033548759039nat, m, 147237255398198694131941458395243209652290324739634913176800516774379519nat, 17615749632424539050245731220920988209775161980797413840147889463540940480199int, 2679929493942151878395462426957143263335944906756699151996563490203841577259int, 16164183483268283261841104374195728882305429132282296535686115769473398567884int, 16164183483268283261841104374195728882305429132282296535686115769473398567883int, 2642804854438212590683254389317805677131980739664488289654773621595044696475int);
    lemma_pow_mod_step(115792089237316195423570985008687907853269984665640564039457584007908834671656int, 588949021592794776527765833580972838609161298958539652707202067097518079nat, m, 294474510796397388263882916790486419304580649479269826353601033548759039nat, 2642804854438212590683254389317805677131980739664488289654773621595044696475int, 60318606777425008421830471028705106425179364973211438572531674606262080948int, 67178313750117194914289855695091080154645788013992847873847610974922169649101int, 67178313750117194914289855695091080154645788013992847873847610974922169649096int, 108712249935760612717825935177801978183829407230252885080354643215088985814608int);
    lemma_pow_mod_step(115792089237316195423570985008687907853269984665640564039457584007908834671656int, 1177898043185589553055531667161945677218322597917079305414404134195036159nat, m, 588949021592794776527765833580972838609161298958539652707202067097518079nat, 108712249935760612717825935177801978183829407230252885080354643215088985814608int, 102065291022373184698001985311346245840084786316381652967039253941790390822664int, 106999553645029796433626577733946201059438569595164669005700752309164447223432int, 106999553645029796433626577733946201059438569595164669005700752309164447223425int, 61547749146004792929610850923191947556819905493331265236297821891210712137617int);
}

proof fn lemma_minus_seven_chain_20()
    requires
        pow_mod(115792089237316195423570985008687907853269984665640564039457584007908834671656int, 1177898043185589553055531667161945677218322597917079305414404134195036159nat, 115792089237316195423570985008687907853269984665640564039457584007908834671663int) == 61547749146004792929610850923191947556819905493331265236297821891210712137617int,
    ensures
        pow_mod(115792089237316195423570985008687907853269984665640564039457584007908834671656int, 4824670384888174809315457708695329493886249361068356834977399333662868111319nat, 115792089237316195423570985008687907853269984665640564039457584007908834671663int) == 87217155786056462017332245134470873361821475905372260434560935159578659505550int,
{
    let m: int = 115792089237316195423570985008687907853269984665640564039457584007908834671663int;
    lemma_pow_mod_step(115792089237316195423570985008687907853269984665640564039457584007908834671656int, 2355796086371179106111063334323891354436645195834158610828808268390072319nat, m, 1177898043185589553055531667161945677218322597917079305414404134195036159nat, 61547749146004792929610850923191947556819905493331265236297821891210712137617int, 32714889677616581953028796775706675996445888880398891893749427274246173377170int, 14972878994459622574932900035138368326122729584114694075904995168656736304979int, 14972878994459622574932900035138368326122729584114694075904995168656736304978int, 10981936276098837399040684762719329570410877576837705508122617827311680536810int);
    lemma_pow_mod_step(115792089237316195423570985008687907853269984665640564039457584007908834671656int, 4711592172742358212222126668647782708873290391668317221657616536780144639nat, m, 2355796086371179106111063334323891354436645195834158610828808268390072319nat, 10981936276098837399040684762719329570410877576837705508122617827311680536810int, 1041547183116452673727793090513363365680428394718782902980073237782467902425int, 37956109715330147453374995773401962600400781801850411333577121472908568493325int, 37956109715330147453374995773401962600400781801850411333577121472908568493322int, 81683499704637554097087984612249985357004481383968812783332901713366524561714int);
    lemma_pow_mod_step(115792089237316195423570985008687907853269984665640564039457584007908834671656int, 9423184345484716424444253337295565417746580783336634443315233073560289279nat, m, 4711592172742358212222126668647782708873290391668317221657616536780144639nat, 81683499704637554097087984612249985357004481383968812783332901713366524561714int, 57622193087153335250841922752810419772416791181526114711836505700671307176507int, 112050001330341336109219543079162541235905906698825180426905346508884862396655int, 112050001330341336109219543079162541235905906698825180426905346508884862396648int, 26194615348824015200460093506677566321548545767707685287865662493167805925056int);
    lemma_pow_mod_step(115792089237316195423570985008687907853269984665640564039457584007908834671656int, 18846368690969432848888506674591130835493161566673268886630466147120578559nat, m, 9423184345484716424444253337295565417746580783336634443315233073560289279nat, 26194615348824015200460093506677566321548545767707685287865662493167805925056int, 5925775048989437387009187430736544525879903755066208655724343191464655938051int, 48177625833046005744414934046318794265758895665283481170624603815056035454323int, 48177625833046005744414934046318794265758895665283481170624603815056035454320int, 10132886880626546059808416701832163699497684339937323924000525318334255834728int);
    lemma_pow_mod_step(115792089237316195423570985008687907853269984665640564039457584007908834671656int, 37692737381938865697777013349182261670986323133346537773260932294241157119nat, m, 18846368690969432848888506674591130835493161566673268886630466147120578559nat, 10132886880626546059808416701832163699497684339937323924000525318334255834728int, 886722030942373587518429464163643064539775368380784166909418093492916367739int, 102057056660631727945387043437031386041597734404158752719979015994319420154027int, 102057056660631727945387043437031386041597734404158752719979015994319420154020int, 96145228036791272347287591001595652681705751830372679236349976095125901623452int);
    lemma_pow_mod_step(115792089237316195423570985008687907853269984665640564039457584007908834671656int, 75385474763877731395554026698364523341972646266693075546521864588482314239nat, m, 37692737381938865697777013349182261670986323133346537773260932294241157119nat, 96145228036791272347287591001595652681705751830372679236349976095125901623452int, 79831920601252706196429613128173562941330712927596065497409797796944069186180int, 109823122272801242163660062315132922468363963248656555557276691810793279178964int, 109823122272801242163660062315132922468363963248656555557276691810793279178957int, 41782768751604672819376458854884897694342149918888059375266245379808888448893int);
    lemma_pow_mod_step(115792089237316195423570985008687907853269984665640564039457584007908834671656int, 150770949527755462791108053396729046683945292533386151093043729176964628478nat, m, 75385474763877731395554026698364523341972646266693075546521864588482314239nat, 41782768751604672819376458854884897694342149918888059375266245379808888448893int, 15077021030098616149685635827744827800269885933761043376868065131048857156520int, 48182855768544207673659395879916164314193685121842011314843417349281473232689int, 0int, 48182855768544207673659395879916164314193685121842011314843417349281473232689int);
    lemma_pow_mod_step(115792089237316195423570985008687907853269984665640564039457584007908834671656int, 301541899055510925582216106793458093367890585066772302186087458353929256957nat, m, 150770949527755462791108053396729046683945292533386151093043729176964628478nat, 48182855768544207673659395879916164314193685121842011314843417349281473232689int, 20049621742762010950902249209981290630194846029909897864009906788922934864400int, 66435064313908294819001144011446229714148149474422181087096419945086510673521int, 66435064313908294819001144011446229714148149474422181087096419945086510673516int, 113914995989222913384846916963315931267312877007247552587612980423938598643668int);
    lemma_pow_mod_step(115792089237316195423570985008687907853269984665640564039457584007908834671656int, 603083798111021851164432213586916186735781170133544604372174916707858513914nat, m, 301541899055510925582216106793458093367890585066772302186087458353929256957nat, 113914995989222913384846916963315931267312877007247552587612980423938598643668int, 112068332100209732301448378059510855016606894312813681841222810530639645871874int, 16917694604137855099959345955774822495829732572303578119586360570209079987762int, 0int, 16917694604137855099959345955774822495829732572303578119586360570209079987762int);
    lemma_pow_mod_step(115792089237316195423570985008687907853269984665640564039457584007908834671656int, 1206167596222043702328864427173832373471562340267089208744349833415717027829nat, m, 603083798111021851164432213586916186735781170133544604372174916707858513914nat, 16917694604137855099959345955774822495829732572303578119586360570209079987762int, 2471743904130533808642049393130538818250093211639837150580473489581963826356int, 65413269020823465191679701981445502844682162053303492758822496217559664018616int, 65413269020823465191679701981445502844682162053303492758822496217559664018612int, 5275473803500525352526026164633111500304804289437806846072862508717690556340int);
    lemma_pow_mod_step(115792089237316195423570985008687907853269984665640564039457584007908834671656int, 2412335192444087404657728854347664746943124680534178417488699666831434055659nat, m, 1206167596222043702328864427173832373471562340267089208744349833415717027829nat, 5275473803500525352526026164633111500304804289437806846072862508717690556340int, 240349958574297436158718463015166879758217002967147568895057546261430894209int, 9822709401371578637942869451478690471865162881836474564029840737617711096033int, 9822709401371578637942869451478690471865162881836474564029840737617711096032int, 47033123427715144957970898848337074550213844492785242091248698844584856999432int);
    lemma_pow_mod_step(115792089237316195423570985008687907853269984665640564039457584007908834671656int, 4824670384888174809315457708695329493886249361068356834977399333662868111319nat, m, 2412335192444087404657728854347664746943124680534178417488699666831434055659nat, 47033123427715144957970898848337074550213844492785242091248698844584856999432int, 19104195406932784983960756065703046847434201256813528132262036119004070993483int, 70249041485789216442931811415566952272075492488975794251818140697137930550395int, 70249041485789216442931811415566952272075492488975794251818140697137930550390int, 87217155786056462017332245134470873361821475905372260434560935159578659505550int);
}

proof fn lemma_minus_seven_chain_21()
    requires
        pow_mod(115792089237316195423570985008687907853269984665640564039457584007908834671656int, 4824670384888174809315457708695329493886249361068356834977399333662868111319nat, 115792089237316195423570985008687907853269984665640564039457584007908834671663int) == 87217155786056462017332245134470873361821475905372260434560935159578659505550int,
    ensures
        pow_mod(115792089237316195423570985008687907853269984665640564039457584007908834671656int, 38597363079105398474523661669562635951089994888546854679819194669302944890554nat, 115792089237316195423570985008687907853269984665640564039457584007908834671663int) == 55594575648329892869085402983802832744385952214688224221778511981742606582254int,
{
    let m: int = 115792089237316195423570985008687907853269984665640564039457584007908834671663int;
    lemma_pow_mod_step(115792089237316195423570985008687907853269984665640564039457584007908834671656int, 9649340769776349618630915417390658987772498722136713669954798667325736222638nat, m, 4824670384888174809315457708695329493886249361068356834977399333662868111319nat, 87217155786056462017332245134470873361821475905372260434560935159578659505550int, 65693885597132798929091236250262074039905790892468210746146044390129717021590int, 92918902052465737461182286990515267478741849099176759764925929837520548598330int, 0int, 92918902052465737461182286990515267478741849099176759764925929837520548598330int);
    lemma_pow_mod_step(115792089237316195423570985008687907853269984665640564039457584007908834671656int, 19298681539552699237261830834781317975544997444273427339909597334651472445277nat, m, 9649340769776349618630915417390658987772498722136713669954798667325736222638nat, 92918902052465737461182286990515267478741849099176759764925929837520548598330int, 74564008780776677743465221644549899226843788775427399560025213107788627803959int, 41025536303280326245175339000168378350132274506567050328670525713937182275083int, 41025536303280326245175339000168378350132274506567050328670525713937182275080int, 60197513588986302554485582024885075108884032450952339817679072026166228089408int);
    lemma_pow_mod_step(115792089237316195423570985008687907853269984665640564039457584007908834671656int, 38597363079105398474523661669562635951089994888546854679819194669302944890554nat, m, 19298681539552699237261830834781317975544997444273427339909597334651472445277nat, 60197513588986302554485582024885075108884032450952339817679072026166228089408int, 31295234986816106708621480549220651862101030545536853469444158949967814038670int, 55594575648329892869085402983802832744385952214688224221778511981742606582254int, 0int, 55594575648329892869085402983802832744385952214688224221778511981742606582254int);
}

proof fn lemma_minus_seven_chain()
    ensures
        pow_mod(115792089237316195423570985008687907853269984665640564039457584007908834671656int, 38597363079105398474523661669562635951089994888546854679819194669302944890554nat, 115792089237316195423570985008687907853269984665640564039457584007908834671663int) == 55594575648329892869085402983802832744385952214688224221778511981742606582254int,
{
    lemma_pow_mod_zero(115792089237316195423570985008687907853269984665640564039457584007908834671656int, 115792089237316195423570985008687907853269984665640564039457584007908834671663int);
    lemma_minus_seven_chain_0();
    lemma_minus_seven_chain_1();
    lemma_minus_seven_chain_2();
    lemma_minus_seven_chain_3();
    lemma_minus_seven_chain_4();
    lemma_minus_seven_chain_5();
    lemma_minus_seven_chain_6();
    lemma_minus_seven_chain_7();
    lemma_minus_seven_chain_8();
    lemma_minus_seven_chain_9();
    lemma_minus_seven_chain_10();
    lemma_minus_seven_chain_11();
    lemma_minus_seven_chain_12();
    lemma_minus_seven_chain_13();
    lemma_minus_seven_chain_14();
    lemma_minus_seven_chain_15();
    lemma_minus_seven_chain_16();
    lemma_minus_seven_chain_17();
    lemma_minus_seven_chain_18();
    lemma_minus_seven_chain_19();
    lemma_minus_seven_chain_20();
    lemma_minus_seven_chain_21();
}

/// `(-7)^((p-1)/3)` modulo p is not one: -7 is not a cube.
pub proof fn lemma_minus_seven_power()
    ensures
        pow_mod(115792089237316195423570985008687907853269984665640564039457584007908834671656int, 38597363079105398474523661669562635951089994888546854679819194669302944890554nat, 115792089237316195423570985008687907853269984665640564039457584007908834671663int) == 55594575648329892869085402983802832744385952214688224221778511981742606582254int,
{
    lemma_minus_seven_chain();
}

} // verus!
