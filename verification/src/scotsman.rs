//! The Scotsman accent: a fixed dictionary of word-for-word rules.

use vstd::prelude::*;

use crate::accent::{build_accent, Accent};
use crate::error::{MatchError, PatternError};
use crate::pattern::pattern_compiles;
use crate::replacement::Replacement;
use crate::source::Source;
use crate::target::{DirectTarget, Target};

verus! {

/// The dictionary: the pattern of each rule and the fragment that replaces
/// its matches, in the order in which the rules are applied.
pub const RULES: [(&'static str, &'static str); 631] = [
    (r"$(?<!```)\z", " ye daft cunt"),
    (r"\babout\b", "aboot"),
    (r"\babove\b", "`boon"),
    (r"\baccounts\b", "accoonts"),
    (r"\bacross\b", "o`er"),
    (r"\bafter\b", "efter"),
    (r"\bagree\b", "gree"),
    (r"\ball\b", "aw"),
    (r"\balmost\b", "a`maist"),
    (r"\balong\b", "alang"),
    (r"\balready\b", "awready"),
    (r"\balso\b", "an` a`"),
    (r"\balthough\b", "althoogh"),
    (r"\band\b", "`n`"),
    (r"\banother\b", "anither"),
    (r"\bany\b", "ony"),
    (r"\banyone\b", "a`body"),
    (r"\banybody\b", "a`body"),
    (r"\banything\b", "anythin`"),
    (r"\barrested\b", "liftit"),
    (r"\barrest\b", "lift"),
    (r"\barrests\b", "lifts"),
    (r"\bargues\b", "argies"),
    (r"\bargued\b", "argied"),
    (r"\bargue\b", "argie"),
    (r"\baround\b", "aroond"),
    (r"\bavailable\b", "free"),
    (r"\bavoiding\b", "jookin"),
    (r"\bavoided\b", "jooked"),
    (r"\bavoid\b", "jook"),
    (r"\bask\b", "spir"),
    (r"\bassistant\b", "servand"),
    (r"\bassistants\b", "servands"),
    (r"\basking\b", "spirin"),
    (r"\basked\b", "spire'd"),
    (r"\baway\b", "awa`"),
    (r"\bbabies\b", "bairns"),
    (r"\bbaby\b", "bairn"),
    (r"\bbad\b", "ill"),
    (r"\bballs\b", "baws"),
    (r"\bball\b", "baw"),
    (r"\bbars\b", "boozers"),
    (r"\bbar\b", "boozer"),
    (r"\bbeen\b", "buin"),
    (r"\bbeautiful\b", "bonny"),
    (r"\bbecause\b", "fur"),
    (r"\bbreakdown\b", "breakdoon"),
    (r"\bnap\b", "kip"),
    (r"\bnapping\b", "kipin'"),
    (r"\bbefore\b", "afore"),
    (r"\bbelieves\b", "hawps"),
    (r"\bbelieving\b", "hawpin"),
    (r"\bbelieve\b", "hawp"),
    (r"\bbetween\b", "atween"),
    (r"\bboards\b", "boords"),
    (r"\bboard\b", "boord"),
    (r"\bboth\b", "baith"),
    (r"\bboxes\b", "kists"),
    (r"\bbox\b", "kist"),
    (r"\bboy\b", "laddie"),
    (r"\bbrother\b", "brither"),
    (r"\bbrothers\b", "brithers"),
    (r"\bbut\b", "bit"),
    (r"\bbitch\b", "cunt"),
    (r"\bcaptain\b", "caiptain"),
    (r"\bcap\b", "caip"),
    (r"\bcalling\b", "ca`ing"),
    (r"\bcalled\b", "cawed"),
    (r"\bcall\b", "caw"),
    (r"\bcars\b", "motors"),
    (r"\bcar\b", "motor"),
    (r"\bcared\b", "car'd"),
    (r"\bcards\b", "cairds"),
    (r"\bcard\b", "caird"),
    (r"\bcareers\b", "joabs"),
    (r"\bcareer\b", "joab"),
    (r"\bcargo\b", "cargae"),
    (r"\bcentury\b", "hunner years"),
    (r"\bchanged\b", "chaynged"),
    (r"\bchange\b", "chaynge"),
    (r"\bchaplain\b", "priestheid"),
    (r"\bchief\b", "heid"),
    (r"\bchild\b", "wee'un"),
    (r"\bchilderen\b", "wee'uns"),
    (r"\bchoosing\b", "walin"),
    (r"\bchoose\b", "wale"),
    (r"\bchurches\b", "kirks"),
    (r"\bchurch\b", "kirk"),
    (r"\bcity\b", "toon"),
    (r"\bcities\b", "toons"),
    (r"\bcloser\b", "claiser"),
    (r"\bclosest\b", "claisest"),
    (r"\bclose\b", "claise"),
    (r"\bclowns\b", "clouns"),
    (r"\bclown\b", "cloun"),
    (r"\bcoats\b", "coaties"),
    (r"\bcoat\b", "coatie"),
    (r"\bcoldest\b", "cauldest"),
    (r"\bcolder\b", "caulder"),
    (r"\bcold\b", "cauld"),
    (r"\bcooks\b", "keuks"),
    (r"\bcook\b", "keuk"),
    (r"\bconsumer\b", "punter"),
    (r"\bconsumers\b", "punters"),
    (r"\bcould\b", "cuid"),
    (r"\bcountries\b", "lands"),
    (r"\bcountry\b", "land"),
    (r"\bcourse\b", "coorse"),
    (r"\bcourses\b", "coorses"),
    (r"\bcultures\b", "culchurs"),
    (r"\bculture\b", "culchur"),
    (r"\bcustomer\b", "punter"),
    (r"\bcustomers\b", "punters"),
    (r"\bdaddy\b", "daddie"),
    (r"\bdark\b", "mirk"),
    (r"\bdad\b", "da"),
    (r"\bdead\b", "deid"),
    (r"\bdeaf\b", "deav"),
    (r"\bdeafen\b", "deave"),
    (r"\bdeafened\b", "deaved"),
    (r"\bdebate\b", "argie"),
    (r"\bdebating\b", "argiein"),
    (r"\bdebates\b", "argies"),
    (r"\bdegrees\b", "grees"),
    (r"\bdegree\b", "gree"),
    (r"\bdetectives\b", "snoots"),
    (r"\bdetective\b", "snoot"),
    (r"\bdifficult\b", "pernicketie"),
    (r"\bdinner\b", "tea"),
    (r"\bdirectors\b", "guiders"),
    (r"\bdirector\b", "guider"),
    (r"\bdid\b", "daed"),
    (r"\bdo\b", "dae"),
    (r"\bdogs\b", "dugs"),
    (r"\bdog\b", "dug"),
    (r"\bdown\b", "doon"),
    (r"\bdownricht\b", "doun"),
    (r"\bdroped\b", "draped"),
    (r"\bdrops\b", "draps"),
    (r"\bdrop\b", "drap"),
    (r"\bdrink\b", "drappie"),
    (r"\bdrinking\b", "swillin'"),
    (r"\bdrank\b", "swilled"),
    (r"\bdrunk\b", "fou"),
    (r"\bduring\b", "while"),
    (r"\bdying\b", "deein'"),
    (r"\beach\b", "ilk"),
    (r"\bearly\b", "earlie"),
    (r"\beating\b", "slochin"),
    (r"\bate\b", "sloched"),
    (r"\beat\b", "sloch"),
    (r"\bedges\b", "lips"),
    (r"\bedge\b", "lip"),
    (r"\benjoys\b", "gilravages"),
    (r"\benjoy\b", "gilravage"),
    (r"\bengineer\b", "navvy"),
    (r"\bengineering\b", "ingineerin"),
    (r"\bengineers\b", "Navvies"),
    (r"\bevenings\b", "forenichts"),
    (r"\bevening\b", "forenicht"),
    (r"\bevery\b", "ilka"),
    (r"\beverybody\b", "a`body"),
    (r"\beveryone\b", "a`body"),
    (r"\beye\b", "ee"),
    (r"\beyes\b", "e'ens"),
    (r"\bface\b", "physog"),
    (r"\bfamililies\b", "fowks"),
    (r"\bfamily\b", "fowk"),
    (r"\bfast\b", "fleet"),
    (r"\bfathers\b", "faithers"),
    (r"\bfather\b", "faither"),
    (r"\bfight\b", "rammy"),
    (r"\bfighting\b", "ramming"),
    (r"\bfights\b", "rammies"),
    (r"\bfilms\b", "pictures"),
    (r"\bfilm\b", "picture"),
    (r"\bfinding\b", "fin`ing"),
    (r"\bfound\b", "fund"),
    (r"\bfine\b", "braw"),
    (r"\bfloors\b", "flairs"),
    (r"\bfloor\b", "flair"),
    (r"\bfoods\b", "fairns"),
    (r"\bfood\b", "fairn"),
    (r"\bfor\b", "fer"),
    (r"\bforget\b", "forgoat"),
    (r"\bfriends\b", "mukkers"),
    (r"\bfriend\b", "pal"),
    (r"\bfrom\b", "fae"),
    (r"\bfull\b", "stowed oot"),
    (r"\bgames\b", "gams"),
    (r"\bgame\b", "gam"),
    (r"\bgardens\b", "back greens"),
    (r"\bgarden\b", "back green"),
    (r"\bget\b", "git"),
    (r"\bgirl\b", "lassie"),
    (r"\bgive\b", "gie"),
    (r"\bglasses\b", "glesses"),
    (r"\bglass\b", "gless"),
    (r"\bgo\b", "gae"),
    (r"\bgood\b", "guid"),
    (r"\bgreat\b", "stoatin"),
    (r"\bgrowing\b", "grawing"),
    (r"\bgrown\b", "grawn"),
    (r"\bgrow\b", "graw"),
    (r"\bglared\b", "glower'd"),
    (r"\bglaring\b", "glowrin'"),
    (r"\bguess\b", "jalouse"),
    (r"\bhad\b", "haed"),
    (r"\bhas\b", "haes"),
    (r"\bhadnt\b", "haedna"),
    (r"\bhadn't\b", "haedna"),
    (r"\bhairs\b", "locks"),
    (r"\bhair\b", "locks"),
    (r"\bhalfs\b", "haufs"),
    (r"\bhalf\b", "hauf"),
    (r"\bhands\b", "hauns"),
    (r"\bhand\b", "haun"),
    (r"\bhangs\b", "hings"),
    (r"\bhanging\b", "hinging"),
    (r"\bhang\b", "hing"),
    (r"\bhave\b", "hae"),
    (r"\bheads\b", "heids"),
    (r"\bhead\b", "heid"),
    (r"\bhearts\b", "herts"),
    (r"\bheart\b", "hert"),
    (r"\bhelp\b", "hulp"),
    (r"\bhere\b", "`ere"),
    (r"\bhigh\b", "heich"),
    (r"\bhimself\b", "his-sel"),
    (r"\bholding\b", "hauding"),
    (r"\bhold\b", "haud"),
    (r"\bhomes\b", "hames"),
    (r"\bhome\b", "hame"),
    (r"\bhopes\b", "hawps"),
    (r"\bhope\b", "hawp"),
    (r"\bhoter\b", "heter"),
    (r"\bhotest\b", "hetest"),
    (r"\bhot\b", "het"),
    (r"\bhotels\b", "change-hooses"),
    (r"\bhotel\b", "change-hoose"),
    (r"\bhours\b", "oors"),
    (r"\bhour\b", "oor"),
    (r"\bhouse\b", "hoose"),
    (r"\bhouses\b", "hooses"),
    (r"\bhow\b", "hou"),
    (r"\bhusband\b", "guidman"),
    (r"\bimages\b", "photies"),
    (r"\bimage\b", "photie"),
    (r"\bimagine\b", "jalouse"),
    (r"\bincluding\b", "anaw"),
    (r"\bindicates\b", "shows"),
    (r"\bindicate\b", "show"),
    (r"\binformations\b", "speirins"),
    (r"\binformation\b", "speirins"),
    (r"\binto\b", "intae"),
    (r"\bits\b", "tis"),
    (r"\bisn't\b", "isna"),
    (r"\bisnt\b", "isna"),
    (r"\bjanitors\b", "jannies"),
    (r"\bjanitor\b", "jannie"),
    (r"\bjobs\b", "jabs"),
    (r"\bjoined\b", "jyneed"),
    (r"\bjoins\b", "jynes"),
    (r"\bjoin\b", "jyne"),
    (r"\bjust\b", "juist"),
    (r"\bkids\b", "bairns"),
    (r"\bkid\b", "bairn"),
    (r"\bkills\b", "murdurrs"),
    (r"\bkiller\b", "murdurrur"),
    (r"\bkilled\b", "murdurred"),
    (r"\bkill\b", "murdurr"),
    (r"\bkitchens\b", "sculleries"),
    (r"\bkitchen\b", "scullery"),
    (r"\bknows\b", "kens"),
    (r"\bknow\b", "ken"),
    (r"\bknown\b", "kent"),
    (r"\blanguages\b", "leids"),
    (r"\blanguage\b", "leid"),
    (r"\blarger\b", "lairger"),
    (r"\blargest\b", "lairgest"),
    (r"\blarge\b", "lairge"),
    (r"\blast\b", "lest"),
    (r"\blater\b", "efter"),
    (r"\blaughing\b", "roarin"),
    (r"\blaugh\b", "roar"),
    (r"\blawyers\b", "advocates"),
    (r"\blawyer\b", "advocate"),
    (r"\blead\b", "leid"),
    (r"\bleading\b", "leidin"),
    (r"\bleaving\b", "leaing"),
    (r"\bleave\b", "lea"),
    (r"\blet\b", "loot"),
    (r"\blegs\b", "shanks"),
    (r"\bleg\b", "shank"),
    (r"\bdevil\b", "deuce"),
    (r"\bdevils\b", "deuces"),
    (r"\blying\b", "liein"),
    (r"\blike\b", "lik`"),
    (r"\blikely\b", "likelie"),
    (r"\blittle\b", "wee"),
    (r"\blonger\b", "langer"),
    (r"\blongest\b", "langest"),
    (r"\blong\b", "lang"),
    (r"\blooking\b", "keeking"),
    (r"\blooked\b", "keeked"),
    (r"\blook\b", "keek"),
    (r"\bloved\b", "loued"),
    (r"\bloving\b", "louing"),
    (r"\blove\b", "loue"),
    (r"\bmakes\b", "mak`s"),
    (r"\bmake\b", "mak`"),
    (r"\bmen\b", "jimmies"),
    (r"\bmanage\b", "guide"),
    (r"\bmanagers\b", "high heid yins"),
    (r"\bmanager\b", "high heid yin"),
    (r"\bmany\b", "mony"),
    (r"\bmay\b", "mey"),
    (r"\bmarkets\b", "merkats"),
    (r"\bmarket\b", "merkat"),
    (r"\bmarriages\b", "mairriages"),
    (r"\bmarriage\b", "mairriage"),
    (r"\bmatters\b", "maiters"),
    (r"\bmatter\b", "maiter"),
    (r"\bmaybe\b", "mibbie"),
    (r"\bmeetings\b", "meetins"),
    (r"\bmeeting\b", "meetin"),
    (r"\bmethods\b", "ways"),
    (r"\bmethod\b", "way"),
    (r"\bmight\b", "micht"),
    (r"\bmind\b", "mynd"),
    (r"\bminer\b", "pickman"),
    (r"\bminers\b", "pickmen"),
    (r"\bmoney\b", "dosh"),
    (r"\bmonths\b", "munths"),
    (r"\bmonth\b", "munth"),
    (r"\bmore\b", "mair"),
    (r"\bmornings\b", "mornin`s"),
    (r"\bmorning\b", "mornin`"),
    (r"\bmost\b", "maist"),
    (r"\bmothers\b", "mithers"),
    (r"\bmother\b", "mither"),
    (r"\bmouths\b", "geggies"),
    (r"\bmouth\b", "geggy"),
    (r"\bmoves\b", "shifts"),
    (r"\bmove\b", "shift"),
    (r"\bmuch\b", "muckle"),
    (r"\bmust\b", "mist"),
    (r"\bmy\b", "ma"),
    (r"\bmyself\b", "masell"),
    (r"\bnasty\b", "mingin"),
    (r"\bnetworks\b", "netwurks"),
    (r"\bnetwork\b", "netwurk"),
    (r"\bnever\b", "ne`er"),
    (r"\bnew\b", "freish"),
    (r"\bnews\b", "speirins"),
    (r"\bnext\b", "neist"),
    (r"\bnice\b", "crakin`"),
    (r"\bnights\b", "nichts"),
    (r"\bnight\b", "nicht"),
    (r"\bFalse\b", "na"),
    (r"\bnot\b", "nae"),
    (r"\bnothing\b", "neithin'"),
    (r"\bnow\b", "noo"),
    (r"\bnumbers\b", "nummers"),
    (r"\bnumber\b", "nummer"),
    (r"\bof\b", "o`"),
    (r"\boffices\b", "affices"),
    (r"\boffice\b", "affice"),
    (r"\bofficers\b", "boabies"),
    (r"\bofficer\b", "boaby"),
    (r"\boften\b", "aften"),
    (r"\boh\b", "och"),
    (r"\bok\b", "a`richt"),
    (r"\bold\b", "auld"),
    (r"\boil\b", "ile"),
    (r"\bonce\b", "wance"),
    (r"\bone\b", "wan"),
    (r"\bonly\b", "ainlie"),
    (r"\bother\b", "ither"),
    (r"\bothers\b", "ithers"),
    (r"\bours\b", "oors"),
    (r"\bour\b", "oor"),
    (r"\bout\b", "oot"),
    (r"\boutside\b", "ootdoors"),
    (r"\bover\b", "ower"),
    (r"\bowns\b", "ains"),
    (r"\bown\b", "ain"),
    (r"\bowners\b", "gaffers"),
    (r"\bowner\b", "gaffer"),
    (r"\bpaintings\b", "pentins"),
    (r"\bpainting\b", "pentin"),
    (r"\bparts\b", "pairts"),
    (r"\bpart\b", "pairt"),
    (r"\bpartners\b", "bidies"),
    (r"\bpartner\b", "bidie"),
    (r"\bparty\b", "pairtie"),
    (r"\bpass\b", "bygae"),
    (r"\bpast\b", "bygane"),
    (r"\bpeoples\b", "fowks"),
    (r"\bpeople\b", "fowk"),
    (r"\bperhaps\b", "mibbie"),
    (r"\bperson\b", "body"),
    (r"\bphones\b", "phanes"),
    (r"\bphone\b", "phane"),
    (r"\bplaces\b", "steids"),
    (r"\bplace\b", "steid"),
    (r"\bplays\b", "speils"),
    (r"\bplay\b", "speil"),
    (r"\bpolice\b", "polis"),
    (r"\bpoor\b", "brassic"),
    (r"\bpopular\b", "weel-kent"),
    (r"\bproblems\b", "kinches"),
    (r"\bproblem\b", "kinch"),
    (r"\bprofessionals\b", "perfaissionals"),
    (r"\bprofessional\b", "perfaissional"),
    (r"\bprograms\b", "progrums"),
    (r"\bprogram\b", "progrum"),
    (r"\bprovides\b", "gies"),
    (r"\bprovide\b", "gie"),
    (r"\bprison\b", "preeson"),
    (r"\bImprisonment\b", "impreesonment"),
    (r"\bprisoner\b", "preesoner"),
    (r"\bput\b", "pat"),
    (r"\bquestions\b", "quaistions"),
    (r"\bquestion\b", "quaistion"),
    (r"\bquite\b", "ferr"),
    (r"\bradios\b", "trannies"),
    (r"\bradio\b", "tranny"),
    (r"\brather\b", "ower"),
    (r"\bready\b", "duin"),
    (r"\breally\b", "pure"),
    (r"\bred\b", "rid"),
    (r"\brelationships\b", "kinships"),
    (r"\brelationship\b", "kinship"),
    (r"\bremember\b", "mind"),
    (r"\bremembered\b", "minded"),
    (r"\brights\b", "richts"),
    (r"\bright\b", "richt"),
    (r"\broles\b", "parts"),
    (r"\brole\b", "part"),
    (r"\bround\b", "ruund"),
    (r"\bsame\b", "identical"),
    (r"\bschools\b", "schuils"),
    (r"\bschool\b", "schuil"),
    (r"\bscores\b", "hampden roars"),
    (r"\bscore\b", "hampden roar"),
    (r"\bscuffed\b", "scotched"),
    (r"\bseasons\b", "seezins"),
    (r"\bseason\b", "seezin"),
    (r"\bsecurity\b", "polis"),
    (r"\bseconds\b", "seiconts"),
    (r"\bsecond\b", "seicont"),
    (r"\bseveral\b", "loads"),
    (r"\bshaked\b", "shoogled"),
    (r"\bshakes\b", "shoogles"),
    (r"\bshake\b", "shoogle"),
    (r"\bshould\b", "shuid"),
    (r"\bshows\b", "shaws"),
    (r"\bshowed\b", "shawed"),
    (r"\bshow\b", "shaw"),
    (r"\bsince\b", "sin"),
    (r"\bsmall\b", "wee"),
    (r"\bspoke\b", "spak"),
    (r"\bso\b", "sae"),
    (r"\bsoldiers\b", "fighters"),
    (r"\bsoldier\b", "fighter"),
    (r"\bsometimes\b", "whiles"),
    (r"\bsomewhat\b", "somewhit"),
    (r"\bsouth\b", "sooth"),
    (r"\bsore\b", "sair"),
    (r"\bstands\b", "stauns"),
    (r"\bstand\b", "staun"),
    (r"\bstars\b", "starns"),
    (r"\bstar\b", "starn"),
    (r"\bstarts\b", "stairts"),
    (r"\bstart\b", "stairt"),
    (r"\bstays\b", "bides"),
    (r"\bstay\b", "bade"),
    (r"\bstops\b", "stoaps"),
    (r"\bstop\b", "stoap"),
    (r"\bstores\b", "hains"),
    (r"\bstore\b", "hain"),
    (r"\bstruck\b", "strak"),
    (r"\bstreets\b", "wynds"),
    (r"\bstreet\b", "wynd"),
    (r"\bstrong\b", "pure tough"),
    (r"\bstyles\b", "pure classes"),
    (r"\bstyle\b", "pure class"),
    (r"\bsuch\b", "sic"),
    (r"\btable\b", "buird"),
    (r"\btables\b", "buirds"),
    (r"\btakes\b", "tak`s"),
    (r"\btake\b", "tak`"),
    (r"\btalks\b", "blethers"),
    (r"\btalk\b", "blether"),
    (r"\btasks\b", "hings"),
    (r"\btask\b", "hing"),
    (r"\bteams\b", "gangs"),
    (r"\bteam\b", "gang"),
    (r"\btelevisions\b", "tellyboxes"),
    (r"\btelevision\b", "tellybox"),
    (r"\bterminal\b", "terminus"),
    (r"\bthe\b", "th`"),
    (r"\btheir\b", "thair"),
    (r"\bthem\b", "thaim"),
    (r"\bthere\b", "thare"),
    (r"\bthese\b", "thae"),
    (r"\bthey\b", "thay"),
    (r"\bthings\b", "hings"),
    (r"\bthing\b", "hing"),
    (r"\bthose\b", "they"),
    (r"\bthrough\b", "thro`"),
    (r"\bthroughout\b", "throo`oot"),
    (r"\bthrow\b", "chuck"),
    (r"\bthrew\b", "chucked"),
    (r"\bto\b", "tae"),
    (r"\btoday\b", "th`day"),
    (r"\btogether\b", "th`gither"),
    (r"\btonight\b", "th`nicht"),
    (r"\btoo\b", "tae"),
    (r"\btold\b", "telt"),
    (r"\btops\b", "taps"),
    (r"\btop\b", "tap"),
    (r"\btotal\b", "tot"),
    (r"\btowns\b", "touns"),
    (r"\btown\b", "toun"),
    (r"\btough\b", "hard"),
    (r"\btraitors\b", "quislings"),
    (r"\btraitor\b", "quisling"),
    (r"\btroubles\b", "trauchles"),
    (r"\btrouble\b", "trauchle"),
    (r"\bturds\b", "jobbies"),
    (r"\bturd\b", "jobbie"),
    (r"\bturn\b", "caw"),
    (r"\bTVs\b", "tellies"),
    (r"\bTV\b", "telly"),
    (r"\btwo\b", "twa"),
    (r"\bunderstand\b", "ken"),
    (r"\buntil\b", "`til"),
    (r"\buses\b", "uises"),
    (r"\buse\b", "uise"),
    (r"\busually\b", "forordinar"),
    (r"\bvery\b", "gey"),
    (r"\bvictims\b", "sittin` ducks"),
    (r"\bvictim\b", "sittin` duck"),
    (r"\bviews\b", "sichts"),
    (r"\bview\b", "sicht"),
    (r"\bwas\b", "wis"),
    (r"\bwasn't\b", "wisna"),
    (r"\bwasnt\b", "wisna"),
    (r"\bwalks\b", "daunders"),
    (r"\bwalk\b", "daunder"),
    (r"\bwalked\b", "daundered"),
    (r"\bwalking\b", "daunderin"),
    (r"\bwall\b", "dyke"),
    (r"\bwant\b", "waant"),
    (r"\bwater\b", "watter"),
    (r"\bway\b", "wey"),
    (r"\bwarden\b", "screw"),
    (r"\bwell\b", "weel"),
    (r"\bwere\b", "war"),
    (r"\bwest\b", "wast"),
    (r"\bwhat\b", "whit"),
    (r"\bwhatever\b", "whitevur"),
    (r"\bwhen\b", "whin"),
    (r"\bwhere\b", "whaur"),
    (r"\bwhether\b", "whither"),
    (r"\bwhich\b", "whilk"),
    (r"\bwho\b", "wha"),
    (r"\bwhole\b", "hail"),
    (r"\bwhom\b", "wham"),
    (r"\bwhose\b", "wha`s"),
    (r"\bwife\b", "guidwife"),
    (r"\bwives\b", "guidwives"),
    (r"\bwind\b", "win`"),
    (r"\bwindow\b", "windae"),
    (r"\bwindows\b", "windaes"),
    (r"\bwith\b", "wi`"),
    (r"\bwithin\b", "wi`in"),
    (r"\bwithout\b", "wi`oot"),
    (r"\bwoman\b", "wifie"),
    (r"\bwomen\b", "Wummin"),
    (r"\bwork\b", "wirk"),
    (r"\bwords\b", "Wurds"),
    (r"\bworld\b", "warl"),
    (r"\bworldly\b", "war'ly"),
    (r"\bworking\b", "wirkin"),
    (r"\bwould\b", "wid"),
    (r"\bworse\b", "waur"),
    (r"\bruined\b", "clapped"),
    (r"\bwrong\b", "wrang"),
    (r"\byard\b", "yaird"),
    (r"\byeah\b", "aye"),
    (r"\bTrue\b", "aye"),
    (r"\byet\b", "yit"),
    (r"\byou\b", "ye"),
    (r"\byour\b", "yer"),
    (r"\byoure\b", "yer'r"),
    (r"\byourself\b", "yersel`"),
    (r"\bquiet\b", "cannie"),
    (r"\bi\b", "a"),
    (r"\bive\b", "a've"),
    (r"\bim\b", "a'm"),
    (r"\bit\b", "et"),
    (r"\bshit\b", "shite"),
    (r"\bshitsec\b", "shitesec"),
    (r"\balright\b", "awricht"),
    (r"\bcrazy\b", "doolally"),
    (r"\bidiot\b", "eejit"),
    (r"\bidiots\b", "eejits"),
    (r"\bugly\b", "hackit"),
    (r"\btired\b", "knackert"),
    (r"\bgay\b", "bufty"),
    (r"\btesting\b", "testin`"),
    (r"\bfuck\b", "fook"),
    (r"\bfucking\b", "fookin`,feckin"),
    (r"\bfucker\b", "fooker"),
    (r"\bfuckers\b", "fookers"),
    (r"\bmom\b", "maw"),
    (r"\bmoms\b", "maws"),
    (r"\bthrowing\b", "chuckin"),
    (r"\bfucked\b", "fooked"),
    (r"\bass\b", "arse"),
    (r"\basses\b", "arses"),
    (r"\bbothered\b", "arsed"),
    (r"\bdick\b", "boaby"),
    (r"\bdicks\b", "boabys"),
    (r"\bsomething\b", "suhin"),
    (r"\bsomethings\b", "suhins"),
    (r"\bboys\b", "lads"),
    (r"\bgirls\b", "lasses"),
];

/// The accent that applies the rules of [`RULES`] in their order.
#[derive(Debug)]
pub struct Scotsman {
    accent: Accent,
}

impl Scotsman {
    /// The accent inside.
    pub closed spec fn accent(self) -> Accent {
        self.accent
    }

    /// The accent inside is made of the rules of [`RULES`].
    #[verifier::type_invariant]
    pub open spec fn well_formed(self) -> bool {
        Self::holds_rules(self.accent())
    }

    /// Whether `accent` is made of the rules of [`RULES`]: one rule for each
    /// entry, in the same order, with the entry's pattern and a `Fixed`
    /// target that holds the entry's fragment.
    pub open spec fn holds_rules(accent: Accent) -> bool {
        &&& accent.rules().len() == RULES@.len()
        &&& forall|i: int|
            0 <= i < RULES@.len() ==> {
                &&& (#[trigger] accent.rules()[i]).pattern() == RULES@[i].0@
                &&& accent.rules()[i].spec_target() == Target::Fixed(
                    DirectTarget { replacement: RULES@[i].1 },
                )
            }
    }

    /// Compiles the dictionary. Fails exactly where the engine does not
    /// accept one of its patterns.
    pub fn new() -> (r: Result<Self, PatternError>)
        ensures
            r is Ok <==> forall|i: int|
                0 <= i < RULES@.len() ==> pattern_compiles(#[trigger] RULES@[i].0@),
            r matches Ok(scotsman) ==> scotsman.well_formed(),
    {
        let mut rules: Vec<(Source, Target)> = Vec::with_capacity(RULES.len());
        for index in 0..RULES.len()
            invariant
                rules@.len() == index,
                forall|i: int|
                    0 <= i < index ==> {
                        &&& (#[trigger] rules@[i]).0 == Source::Raw(RULES@[i].0)
                        &&& rules@[i].1 == Target::Fixed(DirectTarget { replacement: RULES@[i].1 })
                    },
        {
            let (pattern, replacement) = RULES[index];
            rules.push((Source::Raw(pattern), Target::Fixed(DirectTarget { replacement })));
        }
        let ghost given = rules@;
        let built = build_accent(rules);
        proof {
            assert forall|i: int| 0 <= i < given.len() implies (#[trigger] given[i]).0.text()
                == RULES@[i].0@ by {}
            if forall|i: int| 0 <= i < RULES@.len() ==> pattern_compiles(#[trigger] RULES@[i].0@) {
                assert forall|i: int| 0 <= i < given.len() implies pattern_compiles(
                    #[trigger] given[i].0.text(),
                ) by {
                    assert(pattern_compiles(RULES@[i].0@));
                }
            }
            if built is Ok {
                assert forall|i: int| 0 <= i < RULES@.len() implies pattern_compiles(
                    #[trigger] RULES@[i].0@,
                ) by {
                    assert(pattern_compiles(given[i].0.text()));
                }
            }
        }
        match built {
            Ok(accent) => Ok(Self { accent }),
            Err(error) => Err(error),
        }
    }

    /// An accent made of the rules of [`RULES`] has `Fixed` targets alone.
    pub proof fn lemma_rules_are_fixed(accent: Accent)
        requires
            Self::holds_rules(accent),
        ensures
            accent.fixed_only(),
    {
    }

    /// The rules, in the order they are applied.
    pub fn replacements(&self) -> (rules: &[Replacement])
        ensures
            rules@ == self.accent().rules(),
            self.well_formed(),
    {
        proof {
            use_type_invariant(self);
        }
        self.accent.replacements()
    }

    /// Applies the accent to `text`. Every target is `Fixed`, so the result
    /// depends on the text alone, not on `severity`.
    pub fn apply(&self, text: &str, severity: i32) -> (r: Result<String, MatchError>)
        ensures
            match r {
                Ok(out) => self.accent().fixed_result(text@) == Some(out@),
                Err(error) => self.accent().fixed_result(text@) is None
                    && self.accent().fails_with(text@, severity, error),
            },
    {
        proof {
            use_type_invariant(self);
            Self::lemma_rules_are_fixed(self.accent());
        }
        self.accent.apply(text, severity)
    }

    /// Hands out the accent.
    pub fn into_accent(self) -> (accent: Accent)
        ensures
            accent == self.accent(),
            self.well_formed(),
    {
        proof {
            use_type_invariant(&self);
        }
        self.accent
    }
}

} // verus!
