use vstd::prelude::*;

verus! {

/// The built-in list of solutions: one lower-case word per line.
pub const SOLUTIONS: &'static str = "aback\nabase\nabate\nabbey\nabide\nabort\nabout\nabove\nabuse\nacorn\nacrid\nactor\n\
     acute\nadage\nadapt\nadept\nadmin\nadmit\nadobe\nadopt\nadore\nadult\naffix\nafter\n\
     again\nagent\nagile\naging\nagony\nagree\nahead\naisle\nalarm\nalbum\nalert\nalien\n\
     align\nalike\nalive\nallow\nalloy\naloft\nalone\nalong\naloud\nalpha\naltar\nalter\n\
     amber\namble\namend\namiss\namong\nample\nangel\nanger\nangle\nangry\nanime\nankle\n\
     annex\nannoy\napple\napply\napron\narena\nargue\narise\narmor\naroma\narose\narray\n\
     arrow\narson\naside\nasset\natoll\nattic\naudio\naudit\navail\navoid\nawake\naward\n\
     aware\nawful\nbacon\nbadge\nbadly\nbagel\nbaker\nbasic\nbasin\nbatch\nbeach\nbeard\n\
     beast\nbegan\nbegin\nbeing\nbelly\nbelow\nbench\nberry\nbirth\nblack\nblade\nblame\n\
     bland\nblank\nblast\nblaze\nbleak\nbleed\nblend\nbless\nblind\nblink\nbliss\nblock\n\
     blond\nblood\nbloom\nblown\nbluff\nblunt\nblurt\nblush\nboard\nboast\nbonus\nboost\n\
     booth\nbored\nbound\nbrain\nbrake\nbrand\nbrave\nbread\nbreak\nbreed\nbrick\nbride\n\
     brief\nbring\nbrink\nbrisk\nbroad\nbroke\nbrook\nbroom\nbrown\nbrush\nbuddy\nbuild\n\
     built\nbulky\nbunch\nburst\ncabin\ncable\ncamel\ncandy\ncanoe\ncargo\ncarry\ncatch\n\
     cause\ncease\nchain\nchair\nchalk\nchamp\nchant\nchaos\ncharm\nchart\nchase\ncheap\n\
     cheat\ncheck\ncheek\ncheer\nchess\nchest\nchief\nchild\nchill\nchose\ncider\ncigar\n\
     civic\nclaim\nclamp\nclash\nclass\nclean\nclear\nclerk\nclick\ncliff\nclimb\ncling\n\
     clock\nclose\ncloth\ncloud\nclown\ncoach\ncoast\ncocoa\ncolor\ncomet\ncomic\ncoral\n\
     couch\ncough\ncould\ncount\ncourt\ncover\ncrack\ncraft\ncrane\ncrash\ncrate\ncrazy\n\
     cream\ncreek\ncrime\ncrisp\ncross\ncrowd\ncrown\ncrude\ncruel\ncrumb\ncrush\ncurve\n\
     cycle\ndaily\ndairy\ndance\ndatum\ndealt\ndeath\ndebut\ndecay\ndecoy\ndelta\ndense\n\
     depot\ndepth\ndevil\ndiary\ndigit\ndiner\ndirty\nditch\ndizzy\ndodge\ndoing\ndonor\n\
     doubt\ndough\ndozen\ndraft\ndrain\ndrama\ndrank\ndread\ndream\ndress\ndried\ndrift\n\
     drill\ndrink\ndrive\ndroll\ndrone\ndrown\ndusty\ndwarf\neager\neagle\nearly\nearth\n\
     eaten\nebony\neight\nelbow\nelder\nelect\nelite\nempty\nenemy\nenjoy\nenter\nentry\n\
     equal\nerror\nessay\nevent\nevery\nexact\nexile\nexist\nextra\nfable\nfacet\nfaint\n\
     fairy\nfaith\nfalse\nfamed\nfancy\nfatal\nfault\nfeast\nfence\nferry\nfetch\nfever\n\
     fiber\nfield\nfiery\nfifth\nfifty\nfight\nfinal\nfirst\nflame\nflash\nfleet\nflesh\n\
     float\nflock\nflood\nfloor\nflour\nfluid\nflute\nfocus\nfoggy\nforce\nforge\nforth\n\
     forty\nforum\nfound\nframe\nfrank\nfraud\nfresh\nfried\nfront\nfrost\nfruit\nfunky\n\
     funny\nfuzzy\ngiant\ngiven\nglass\nglobe\nglory\nglove\ngoose\ngrace\ngrade\ngrain\n\
     grand\ngrape\ngraph\ngrasp\ngrass\ngrave\ngreat\ngreed\ngreen\ngreet\ngrief\ngrill\n\
     grind\ngroan\ngroom\ngross\ngroup\ngrove\ngrown\nguard\nguess\nguest\nguide\nguilt\n\
     habit\nhappy\nharsh\nhaste\nhasty\nhatch\nhaunt\nhaven\nheart\nheavy\nhedge\nhello\n\
     hence\nhinge\nhobby\nhoney\nhonor\nhorse\nhotel\nhouse\nhuman\nhumor\nhunky\nhurry\n\
     ideal\nimage\nimply\ninbox\nindex\ninner\ninput\nirony\nissue\nivory\njelly\njewel\n\
     joint\njoker\njolly\njudge\njuice\njuicy\njumbo\njunky\nkarma\nkayak\nknife\nknock\n\
     known\nlabel\nlabor\nlager\nlarge\nlaser\nlatch\nlater\nlaugh\nlayer\nlearn\nlease\n\
     least\nleave\nlegal\nlemon\nlevel\nlever\nlight\nlimit\nlinen\nliver\nlocal\nlodge\n\
     logic\nloose\nlorry\nlover\nlower\nloyal\nlucky\nlunar\nlunch\nlying\nmagic\nmajor\n\
     maker\nmango\nmanor\nmaple\nmarch\nmarry\nmatch\nmayor\nmedal\nmedia\nmelon\nmercy\n\
     merit\nmetal\nmeter\nmidst\nmight\nminor\nminus\nmirth\nmodel\nmoney\nmonth\nmoral\n\
     motor\nmound\nmount\nmouse\nmouth\nmovie\nmuddy\nmusic\nnaive\nnasty\nnaval\nnerve\n\
     never\nnewly\nnight\nninja\nnoble\nnoise\nnorth\nnovel\nnurse\nnylon\nocean\noffer\n\
     often\nolive\nonion\nopera\norbit\norder\norgan\nother\nought\nounce\nouter\nowner\n\
     oxide\npaint\npanel\npanic\npaper\nparty\npasta\npatch\npause\npeace\npeach\npearl\n\
     pedal\npenny\nperch\nphase\nphone\nphoto\npiano\npiece\npilot\npinch\npitch\npixel\n\
     pizza\nplace\nplain\nplane\nplant\nplate\nplaza\nplead\npluck\nplumb\npoint\npolar\n\
     porch\npound\npower\npress\nprice\npride\nprime\nprint\nprior\nprize\nprobe\nprone\n\
     proof\nproud\nprove\nproxy\npulse\npunch\npupil\npuppy\npurse\nqueen\nquery\nquest\n\
     quick\nquiet\nquilt\nquite\nquota\nquote\nradar\nradio\nrainy\nraise\nrally\nranch\n\
     range\nrapid\nratio\nreach\nreact\nready\nrealm\nrebel\nrefer\nrelax\nreply\nrider\n\
     ridge\nrifle\nright\nrigid\nrinse\nrisky\nrival\nriver\nroast\nrobin\nrobot\nrocky\n\
     rouge\nrough\nround\nroute\nroyal\nrugby\nruler\nrural\nrusty\nsaint\nsalad\nsalty\n\
     sauce\nscale\nscare\nscarf\nscene\nscent\nscold\nscope\nscore\nscout\nscrap\nscrew\n\
     sense\nserve\nseven\nshade\nshake\nshall\nshame\nshape\nshare\nshark\nsharp\nsheep\n\
     sheer\nshelf\nshell\nshift\nshine\nshirt\nshock\nshore\nshort\nshout\nshrug\nsight\n\
     silly\nsince\nskill\nskirt\nskull\nslate\nsleep\nslice\nslide\nslope\nsmall\nsmart\n\
     smell\nsmile\nsmoke\nsnack\nsnake\nsneak\nsolar\nsolid\nsolve\nsorry\nsound\nsouth\n\
     space\nspare\nspark\nspeak\nspeed\nspell\nspend\nspice\nspill\nspine\nspoke\nspoon\n\
     sport\nspray\nsquad\nstack\nstaff\nstage\nstain\nstair\nstake\nstale\nstamp\nstand\n\
     stare\nstart\nstate\nsteak\nsteam\nsteel\nsteep\nsteer\nstick\nstiff\nstill\nsting\n\
     stock\nstone\nstood\nstool\nstore\nstorm\nstory\nstove\nstraw\nstrip\nstuck\nstudy\n\
     stuff\nstyle\nsugar\nsuite\nsunny\nsuper\nsurge\nswamp\nswear\nsweat\nsweep\nsweet\n\
     swift\nswing\nsword\ntable\ntaken\ntaste\nteach\nteeth\ntempo\ntenth\nthank\ntheft\n\
     their\ntheme\nthere\nthick\nthief\nthing\nthink\nthird\nthorn\nthose\nthree\nthrew\n\
     throw\nthumb\ntiger\ntight\ntimer\ntired\ntitle\ntoast\ntoday\ntoken\ntooth\ntopic\n\
     torch\ntotal\ntouch\ntough\ntowel\ntower\ntoxic\ntrace\ntrack\ntrade\ntrail\ntrain\n\
     trait\ntrash\ntreat\ntrend\ntrial\ntribe\ntrick\ntried\ntroop\ntruck\ntruly\ntrunk\n\
     truss\ntrust\ntruth\ntulip\ntumor\ntwice\ntwist\nultra\nuncle\nunder\nunion\nunite\n\
     unity\nuntil\nupper\nupset\nurban\nusage\nusual\nutter\nvalid\nvalue\nvalve\nvapor\n\
     vault\nvenue\nverse\nvideo\nvigor\nviral\nvirus\nvisit\nvital\nvivid\nvocal\nvoice\n\
     voter\nwagon\nwaist\nwaste\nwatch\nwater\nweary\nweave\nwedge\nweigh\nweird\nwhale\n\
     wheat\nwheel\nwhere\nwhich\nwhile\nwhole\nwhose\nwidow\nwidth\nwitch\nwoman\nworld\n\
     worry\nworse\nworst\nworth\nwould\nwound\nwoven\nwrist\nwrite\nwrong\nyacht\nyield\n\
     young\nyouth\nzebra\n";

/// The built-in list of words that are accepted as guesses but never chosen as solutions.
pub const ADDITIONAL_GUESSES: &'static str = "aahed\nadieu\nadios\naeons\naloes\narles\nbelay\nboxes\nbunks\ncares\ncourd\ndunks\n\
     fames\nferns\ngimpy\nhacks\njived\nkudzu\nlares\nlumpy\nnerds\noases\npares\nquips\n\
     rales\nsalet\nsoare\ntares\nvozhd\nwonks\nxylyl\nyurts\nzooms\n";

} // verus!
