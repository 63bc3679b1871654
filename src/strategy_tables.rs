use vstd::prelude::*;

verus! {

// The decision tables, each split in three parts at line boundaries.
//
// Each line is one path through a decision tree, one field of thirteen bytes per guess: the
// guessed word, a space, the placements it received (`B` incorrect, `Y` misplaced, `G`
// correct), the number of the guess, and a space. Lines that share their first guesses and
// placements stand together, so the lines that match a history of feedback are contiguous.

/// Part 1 of the decision table of the normal rules: a guess may be any accepted word.
pub const NORMAL_FIRST: &'static str = "\
salet BBBBB1 courd BBBBG2 vivid GGGGG3\n\
salet BBBBB1 courd BBBBY2 dizzy GGGGG3\n\
salet BBBBB1 courd BBBYB2 bring GGGGB3 brink GGGGG4\n\
salet BBBBB1 courd BBBYB2 bring GGGGG3\n\
salet BBBBB1 courd BBBYG2 grind GGGGG3\n\
salet BBBBB1 courd BBBYG2 grind YYYBG3 rigid GGGGG4\n\
salet BBBBB1 courd BBBYY2 drink GGGGG3\n\
salet BBBBB1 courd BBYBB2 gimpy BBBBG3 funky BGGGG4 hunky BGGGG5 junky GGGGG6\n\
salet BBBBB1 courd BBYBB2 gimpy BBBBG3 funky BGGGG4 hunky GGGGG5\n\
salet BBBBB1 courd BBYBB2 gimpy BBBBG3 funky GGBBG4 fuzzy GGGGG5\n\
salet BBBBB1 courd BBYBB2 gimpy BBBBG3 funky GGGBG4 funny GGGGG5\n\
salet BBBBB1 courd BBYBB2 gimpy BBBBG3 funky GGGGG4\n\
salet BBBBB1 courd BBYBB2 gimpy BBBGG3 puppy GGGGG4\n\
salet BBBBB1 courd BBYBY2 buddy BGGGG3 muddy GGGGG4\n\
salet BBBBB1 courd BBYBY2 buddy GGGGG3\n\
salet BBBBB1 courd BBYGB2 hurry GGGGG3\n\
salet BBBBB1 courd BBYYB2 rugby GGGGG3\n\
salet BBBBB1 courd BGBBB2 foggy BGBBG3 hobby GGGGG4\n\
salet BBBBB1 courd BGBBB2 foggy GGGGG3\n\
salet BBBBB1 courd BGBBY2 doing GGGGG3\n\
salet BBBBB1 courd BGBGB2 worry GGGGG3\n\
salet BBBBB1 courd BGBYB2 honor BGYBY3 robin GGGGG4\n\
salet BBBBB1 courd BGBYB2 honor GGGGG3\n\
salet BBBBB1 courd BGBYY2 donor GGGGG3\n\
salet BBBBB1 courd BGGBB2 young GGGGG3\n\
salet BBBBB1 courd BGGBG2 plumb BBGBB3 found BGGGG4 wound GGGGG5\n\
salet BBBBB1 courd BGGBG2 plumb BBGBB3 found GGGGG4\n\
salet BBBBB1 courd BGGBG2 plumb BBGBY3 bound GGGGG4\n\
salet BBBBB1 courd BGGBG2 plumb BBGYB3 mound GGGGG4\n\
salet BBBBB1 courd BGGBG2 plumb GBGBB3 pound GGGGG4\n\
salet BBBBB1 courd BGGBY2 dough GGGGG3\n\
salet BBBBB1 courd BGGYB2 rough GGGGG3\n\
salet BBBBB1 courd BGGYG2 round GGGGG3\n\
salet BBBBB1 courd BGYYB2 forum GGGGG3\n\
salet BBBBB1 courd BYBBB2 inbox BGBYB3 known GGGGG4\n\
salet BBBBB1 courd BYBBB2 inbox GGGGG3\n\
salet BBBBB1 courd BYBBB2 inbox YGBGB3 onion GGGGG4\n\
salet BBBBB1 courd BYBBY2 widow GGGGG3\n\
salet BBBBB1 courd BYBGB2 ivory GGGGG3\n\
salet BBBBB1 courd BYBYB2 gimpy BBBBB3 brook GGGBB4 brown GGGGG5\n\
salet BBBBB1 courd BYBYB2 gimpy BBBBB3 brook GGGGG4\n\
salet BBBBB1 courd BYBYB2 gimpy BBBYB3 proof GGGGG4\n\
salet BBBBB1 courd BYBYB2 gimpy BBBYG3 proxy GGGGG4\n\
salet BBBBB1 courd BYBYB2 gimpy BBYBB3 broom GGGGG4\n\
salet BBBBB1 courd BYBYB2 gimpy BGYBB3 minor GGGGG4\n\
salet BBBBB1 courd BYBYB2 gimpy BYBBG3 irony GGGGG4\n\
salet BBBBB1 courd BYBYB2 gimpy BYBYB3 prior GGGGG4\n\
salet BBBBB1 courd BYBYB2 gimpy GBBBB3 grown GGGGG4\n\
salet BBBBB1 courd BYBYB2 gimpy GBYBB3 groom GGGGG4\n\
salet BBBBB1 courd BYBYB2 gimpy YBBBB3 wrong GGGGG4\n\
salet BBBBB1 courd BYBYB2 gimpy YGBBB3 vigor GGGGG4\n\
salet BBBBB1 courd BYBYY2 drown GGGGG3\n\
salet BBBBB1 courd BYYBB2 jumbo BYBBY3 union GGGGG4\n\
salet BBBBB1 courd BYYBB2 jumbo GGGGG3\n\
salet BBBBB1 courd BYYYB2 group BYYYB3 humor GGGGG4\n\
salet BBBBB1 courd BYYYB2 group GGGGG3\n\
salet BBBBB1 courd BYYYG2 proud GGGGG3\n\
salet BBBBB1 courd GBBBB2 civic GGGGG3\n\
salet BBBBB1 courd GBGYB2 crumb GGGGG3\n\
salet BBBBB1 courd GGBBB2 comic GGGGG3\n\
salet BBBBB1 courd GGGBB2 couch GGGBG3 cough GGGGG4\n\
salet BBBBB1 courd GGGBB2 couch GGGGG3\n\
salet BBBBB1 courd GYBYB2 crown GGGGG3\n\
salet BBBBB1 courd GYBYG2 crowd GGGGG3\n\
salet BBBBB1 courd YBBBB2 pinch BYBGG3 which GGGGG4\n\
salet BBBBB1 courd YBBBB2 pinch GGGGG3\n\
salet BBBBB1 courd YBBYB2 brick GGGGG3\n\
salet BBBBB1 courd YBYBB2 blank BBBBB3 juicy GGGGG4\n\
salet BBBBB1 courd YBYBB2 blank BBBBG3 quick GGGGG4\n\
salet BBBBB1 courd YBYBB2 blank BBBYB3 punch GGGGG4\n\
salet BBBBB1 courd YBYBB2 blank GBBYB3 bunch GGGGG4\n\
salet BBBBB1 courd YGBYB2 porch BGYYB3 rocky GGGGG4\n\
salet BBBBB1 courd YGBYB2 porch GGGGG3\n\
salet BBBBB1 courd YYBBB2 knock GGGGG3\n\
salet BBBBG1 found BBBBB2 alarm BBBBB3 tight GGGGG4\n\
salet BBBBG1 found BBBBB2 alarm BBBBY3 might GGGGG4\n\
salet BBBBG1 found BBBBB2 alarm BBBYB3 right GGGGG4\n\
salet BBBBG1 found BBBBY2 digit GGGGG3\n\
salet BBBBG1 found BBBGB2 print GGGGG3\n\
salet BBBBG1 found BBBYB2 night GGGGG3\n\
salet BBBBG1 found BBYYB2 input GGGGG3\n\
salet BBBBG1 found BGBBB2 robot GGGGG3\n\
salet BBBBG1 found BGBGB2 joint BGGGG3 point GGGGG4\n\
salet BBBBG1 found BGBGB2 joint GGGGG3\n\
salet BBBBG1 found BGGBB2 court GGGGG3\n\
salet BBBBG1 found BGGBY2 doubt GGGGG3\n\
salet BBBBG1 found BGGGB2 count BGGGG3 mount GGGGG4\n\
salet BBBBG1 found BGGGB2 count GGGGG3\n\
salet BBBBG1 found BYBBB2 orbit GGGGG3\n\
salet BBBBG1 found BYYBB2 ought GGGGG3\n\
salet BBBBG1 found GBBBB2 fight GGGGG3\n\
salet BBBBG1 found GBGBB2 fruit GGGGG3\n\
salet BBBBG1 found GYBGB2 front GGGGG3\n\
salet BBBBG1 found YBBBY2 drift GGGGG3\n\
salet BBBBY1 mirth BBBGG2 booth BGBGG3 youth GGGGG4\n\
salet BBBBY1 mirth BBBGG2 booth BGGGG3 tooth GGGGG4\n\
salet BBBBY1 mirth BBBGG2 booth GGGGG3\n\
salet BBBBY1 mirth BBBGY2 photo GGGGG3\n\
salet BBBBY1 mirth BBBYG2 touch GGGBG3 tough GGGGG4\n\
salet BBBBY1 mirth BBBYG2 touch GGGGG3\n\
salet BBBBY1 mirth BBGGB2 forty GGGGG3\n\
salet BBBBY1 mirth BBGGG2 awful BBBBB3 north GGGGG4\n\
salet BBBBY1 mirth BBGGG2 awful BBYBB3 forth GGGGG4\n\
salet BBBBY1 mirth BBGGG2 awful BYBBB3 worth GGGGG4\n\
salet BBBBY1 mirth BBGYG2 torch GGGGG3\n\
salet BBBBY1 mirth BBGYY2 throw GGGGG3\n\
salet BBBBY1 mirth BBYGG2 truth GGGGG3\n\
salet BBBBY1 mirth BBYYB2 truck GGBBB3 troop GGGGG4\n\
salet BBBBY1 mirth BBYYB2 truck GGGBG3 trunk GGGGG4\n\
salet BBBBY1 mirth BBYYB2 truck GGGGG3\n\
salet BBBBY1 mirth BBYYY2 thorn GGGGG3\n\
salet BBBBY1 mirth BGBGB2 fifty GGGGG3\n\
salet BBBBY1 mirth BGBGG2 fifth BGBGG3 width GGGGG4\n\
salet BBBBY1 mirth BGBGG2 fifth GGGGG3\n\
salet BBBBY1 mirth BGBYG2 adapt BBBBY3 witch GGGGG4\n\
salet BBBBY1 mirth BGBYG2 adapt BBBYY3 pitch GGGGG4\n\
salet BBBBY1 mirth BGBYG2 adapt BYBBY3 ditch GGGGG4\n\
salet BBBBY1 mirth BGGGB2 dirty GGGGG3\n\
salet BBBBY1 mirth BGGGG2 birth GGGGG3\n\
salet BBBBY1 mirth BYBGB2 unity GGGGG3\n\
salet BBBBY1 mirth BYBYB2 topic GGBGG3 toxic GGGGG4\n\
salet BBBBY1 mirth BYBYB2 topic GGGGG3\n\
salet BBBBY1 mirth BYBYY2 thick GGGBB3 thing GGGGG4\n\
salet BBBBY1 mirth BYBYY2 thick GGGBG3 think GGGGG4\n\
salet BBBBY1 mirth BYBYY2 thick GGGGG3\n\
salet BBBBY1 mirth BYYYB2 trick GGGGG3\n\
salet BBBBY1 mirth BYYYY2 third GGGGG3\n\
salet BBBBY1 mirth GBBGG2 month GGBGG3 mouth GGGGG4\n\
salet BBBBY1 mirth GBBGG2 month GGGGG3\n\
salet BBBBY1 mirth GBYYB2 motor GGGGG3\n\
salet BBBBY1 mirth GGGGG2\n\
salet BBBBY1 mirth YBBYY2 thumb GGGGG3\n\
salet BBBBY1 mirth YBYYB2 tumor GGGGG3\n\
salet BBBGB1 found BBBBB2 cheek BBBGB3 river GGGGG4\n\
salet BBBGB1 found BBBBB2 cheek GBGGG3 creek GGGGG4\n\
salet BBBGB1 found BBBBB2 cheek GGGGB3 cheer GGGGG4\n\
salet BBBGB1 found BBBBB2 cheek GGGGG3\n\
salet BBBGB1 found BBBBG2 breed BGBGG3 dried GGGGG4\n\
salet BBBGB1 found BBBBG2 breed BGGGG3 greed GGGGG4\n\
salet BBBGB1 found BBBBG2 breed GGGGG3\n\
salet BBBGB1 found BBBBY2 cider BGGGG3 rider GGGGG4\n\
salet BBBGB1 found BBBBY2 cider GGGGG3\n\
salet BBBGB1 found BBBYB2 given BBGGY3 never GGGGG4\n\
salet BBBGB1 found BBBYB2 given BYBGY3 inner GGGGG4\n\
salet BBBGB1 found BBBYB2 given GBBGG3 green GGGGG4\n\
salet BBBGB1 found BBBYB2 given GGGGG3\n\
salet BBBGB1 found BBBYY2 diner GGGGG3\n\
salet BBBGB1 found BBBYY2 diner YYYGB3 index GGGGG4\n\
salet BBBGB1 found BBYBB2 upper GGGGG3\n\
salet BBBGB1 found BBYYB2 queen GGGGG3\n\
salet BBBGB1 found BBYYY2 under GGGGG3\n\
salet BBBGB1 found BGBBB2 aback BBBBB3 power GGGGG4\n\
salet BBBGB1 found BGBBB2 aback BBBBY3 joker GGGGG4\n\
salet BBBGB1 found BGBBB2 aback BBBYB3 cover GGGGG4\n\
salet BBBGB1 found BGBBG2 bored GGGGG3\n\
salet BBBGB1 found BGBYB2 honey BGGGG3 money GGGGG4\n\
salet BBBGB1 found BGBYB2 honey BGYGB3 woven GGGGG4\n\
salet BBBGB1 found BGBYB2 honey GGGGG3\n\
salet BBBGB1 found BGBYY2 dozen GGGGG3\n\
salet BBBGB1 found BYBBY2 order GGGGG3\n\
salet BBBGB1 found BYBBY2 order YBGGB3 video GGGGG4\n\
salet BBBGB1 found BYBYB2 owner GGGGG3\n\
salet BBBGB1 found GBBBB2 fever GBBGG3 fiber GGGGG4\n\
salet BBBGB1 found GBBBB2 fever GGGGG3\n\
salet BBBGB1 found GBBBG2 fried GGGGG3\n\
salet BBBGB1 found YBBBB2 brief BBGGG3 chief GGGGG4\n\
salet BBBGB1 found YBBBB2 brief BGGGG3 grief GGGGG4\n\
salet BBBGB1 found YBBBB2 brief BYBGY3 refer GGGGG4\n\
salet BBBGB1 found YBBBB2 brief GGGGG3\n\
salet BBBGB1 found YYBBB2 offer GGGGG3\n\
salet BBBGG1 abort BBBBG2 quiet GGGGG3\n\
salet BBBGG1 abort BBBYG2 greet GGGGG3\n\
salet BBBGG1 abort BBYBG2 comet GGGGG3\n\
salet BBBGY1 humor BBBBG2 enter BBYGG3 tiger GGGGG4\n\
salet BBBGY1 humor BBBBG2 enter GGGGG3\n\
salet BBBGY1 humor BBBBY2 tired GGGGG3\n\
salet BBBGY1 humor BBBBY2 tired GYYGG3 tried GGGGG4\n\
salet BBBGY1 humor BBBYB2 often GGGGG3\n\
salet BBBGY1 humor BBBYB2 often YBYGG3 token GGGGG4\n\
salet BBBGY1 humor BBBYG2 tower GGGGG3\n\
salet BBBGY1 humor BBBYG2 tower YGBGG3 voter GGGGG4\n\
salet BBBGY1 humor BBGBG2 timer GGGGG3\n\
salet BBBGY1 humor BBYBG2 meter GGGGG3\n\
salet BBBGY1 humor BGBYG2 outer GGGGG3\n\
salet BBBGY1 humor BYBBG2 utter GGGGG3\n\
salet BBBGY1 humor YBBBB2 thief GGGGG3\n\
salet BBBGY1 humor YBBBY2 three GGGGB3 threw GGGGG4\n\
salet BBBGY1 humor YBBBY2 three GGGGG3\n\
salet BBBGY1 humor YBBYG2 other GGGGG3\n\
salet BBBYB1 price BBBBG2 cough BBBGB3 wedge GGGGG4\n\
salet BBBYB1 price BBBBG2 cough BBBGY3 hedge GGGGG4\n\
salet BBBYB1 price BBBBG2 cough BBYBB3 venue GGGGG4\n\
salet BBBYB1 price BBBBG2 cough BBYGB3 judge GGGGG4\n\
salet BBBYB1 price BBBBG2 cough BGBGB3 dodge GGGGG4\n\
salet BBBYB1 price BBBBY2 ebony GBBYG3 enemy GGGGG4\n\
salet BBBYB1 price BBBBY2 ebony GBYYG3 enjoy GGGGG4\n\
salet BBBYB1 price BBBBY2 ebony GGGGG3\n\
salet BBBYB1 price BBBGG2 fence BBGGG3 ounce GGGGG4\n\
salet BBBYB1 price BBBGG2 fence BGGGG3 hence GGGGG4\n\
salet BBBYB1 price BBBGG2 fence GGGGG3\n\
salet BBBYB1 price BBBGY2 bench BYBGY3 check GGGGG4\n\
salet BBBYB1 price BBBGY2 bench GGGGG3\n\
salet BBBYB1 price BBBYY2 decoy GGGGG3\n\
salet BBBYB1 price BBGBG2 guide BBGBG3 knife GGGGG4\n\
salet BBBYB1 price BBGBG2 guide BBGGG3 oxide GGGGG4\n\
salet BBBYB1 price BBGBG2 guide GGGGG3\n\
salet BBBYB1 price BBGBY2 being BGGBY3 weigh GGGGG4\n\
salet BBBYB1 price BBGBY2 being GGGGG3\n\
salet BBBYB1 price BBGGG2 juice BBGGG3 voice GGGGG4\n\
salet BBBYB1 price BBGGG2 juice GGGGG3\n\
salet BBBYB1 price BBYBG2 hinge BYBBG3 movie GGGGG4\n\
salet BBBYB1 price BBYBG2 hinge GGGGG3\n\
salet BBBYB1 price BBYBY2 begin GGGGG3\n\
salet BBBYB1 price BGBBG2 abide BBBBG3 grove GGGGG4\n\
salet BBBYB1 price BGBBG2 abide BBBYG3 drone GGGGG4\n\
salet BBBYB1 price BGBBG2 abide BYBBG3 broke GGGGG4\n\
salet BBBYB1 price BGBBY2 error GGGGG3\n\
salet BBBYB1 price BGBYG2 crude GGGGG3\n\
salet BBBYB1 price BGGBG2 bride BGGYG3 drive GGGGG4\n\
salet BBBYB1 price BGGBG2 bride GGGGG3\n\
salet BBBYB1 price BGGYG2 crime GGGGG3\n\
salet BBBYB1 price BYBBG2 forge BBGBG3 nerve GGGGG4\n\
salet BBBYB1 price BYBBG2 forge BBYBG3 where GGGGG4\n\
salet BBBYB1 price BYBBG2 forge BGYGG3 rouge GGGGG4\n\
salet BBBYB1 price BYBBG2 forge GGGGG3\n\
salet BBBYB1 price BYBBY2 bleed BBGBB3 query GGGGG4\n\
salet BBBYB1 price BYBBY2 bleed BBGYB3 every GGGGG4\n\
salet BBBYB1 price BYBBY2 bleed BBYBB3 ferry GGGGG4\n\
salet BBBYB1 price BYBBY2 bleed GBYBB3 berry GGGGG4\n\
salet BBBYB1 price BYBGG2 force GGGGG3\n\
salet BBBYB1 price BYBGY2 mercy GGGGG3\n\
salet BBBYB1 price BYBYG2 curve GGGGG3\n\
salet BBBYB1 price BYGBY2 weird GGGGG3\n\
salet BBBYB1 price BYYBG2 ridge GGGGG3\n\
salet BBBYB1 price BYYBY2 fiery GGGGG3\n\
salet BBBYB1 price GBBBG2 phone GGGGG3\n\
salet BBBYB1 price GBBBY2 penny GGGGG3\n\
salet BBBYB1 price GBYGG2 piece GGGGG3\n\
salet BBBYB1 price GGBBG2 above BBGBG3 prone GGGGG4\n\
salet BBBYB1 price GGBBG2 above BBGGG3 prove GGGGG4\n\
salet BBBYB1 price GGBBG2 above BYGBG3 probe GGGGG4\n\
salet BBBYB1 price GGGBG2 admin BBBYB3 prize GGGGG4\n\
salet BBBYB1 price GGGBG2 admin BBYYB3 prime GGGGG4\n\
salet BBBYB1 price GGGBG2 admin BYBYB3 pride GGGGG4\n\
salet BBBYB1 price GGGGG2\n\
salet BBBYB1 price GYBGY2 perch GGGGG3\n\
salet BBBYG1 avoid BBBBB2 theft GGGGG3\n\
salet BBBYG1 avoid BBBBY2 debut GGGGG3\n\
salet BBBYG1 avoid BBBGB2 merit GGGGG3\n\
salet BBBYG1 avoid BBBYB2 eight GGGGG3\n\
salet BBBYG1 avoid BBYBY2 depot GGGGG3\n\
salet BBBYG1 avoid BGBBB2 event GGGGG3\n\
salet BBBYY1 thorn GBBBB2 twice GGGGG3\n\
salet BBBYY1 thorn GBBYB2 tribe GGGGG3\n\
salet BBBYY1 thorn GBBYY2 trend GGGGG3\n\
salet BBBYY1 thorn GBYBB2 tempo GGGGG3\n\
salet BBBYY1 thorn GGBBB2 theme GGGGG3\n\
salet BBBYY1 thorn GGBGB2 there GGGGG3\n\
salet BBBYY1 thorn GGBYB2 their GGGGG3\n\
salet BBBYY1 thorn GYBBB2 teeth GGGGG3\n\
salet BBBYY1 thorn GYBBY2 tenth GGGGG3\n\
salet BBBYY1 thorn YBBBB2 empty GGGGG3\n\
salet BBBYY1 thorn YBBBB2 empty YBBGB3 quite GGGGG4\n\
salet BBBYY1 thorn YBBBY2 unite GGGGG3\n\
salet BBBYY1 thorn YBBGY2 entry GGGGG3\n\
salet BBBYY1 thorn YBBYB2 write GGGGG3\n\
salet BBBYY1 thorn YBGBB2 quote GGGGG3\n\
salet BBBYY1 thorn YBYYB2 route GGGGG3\n\
salet BBBYY1 thorn YYBBB2 depth BGBYG3 fetch GGGGG4\n\
salet BBBYY1 thorn YYBBB2 depth GGGGG3\n\
salet BBGBB1 bulky BBGBB2 color GGGGG3\n\
salet BBGBB1 bulky BBGBG2 jolly GGGGG3\n\
salet BBGBB1 bulky BBGBY2 nylon GGGGG3\n\
salet BBGBB1 bulky GGGGG2\n\
salet BBGBG1 pilot GGGGG2\n\
salet BBGBY1 tulip GGGGG2\n\
salet BBGGB1 ruler GGGGG2\n\
salet BBGYB1 belly BGGBB2 melon GGGGG3\n\
salet BBGYB1 belly BGGGB2 hello GGGGG3\n\
salet BBGYB1 belly BGGGG2 jelly GGGGG3\n\
salet BBGYB1 belly GGGBB2 below GGGGG3\n\
salet BBGYB1 belly GGGGG2\n\
salet BBYBB1 cloud BGBBB2 blink GGGGG3\n\
salet BBYBB1 cloud BGBBG2 blind GGGGG3\n\
salet BBYBB1 cloud BGBYB2 bluff GGGGG3\n\
salet BBYBB1 cloud BGBYB2 bluff YGGBB3 plumb GGGGG4\n\
salet BBYBB1 cloud BGBYG2 fluid GGGGG3\n\
salet BBYBB1 cloud BGGBB2 bloom BGGBB3 glory GGGGG4\n\
salet BBYBB1 cloud BGGBB2 bloom BGGGB3 floor GGGGG4\n\
salet BBYBB1 cloud BGGBB2 bloom GGGBB3 blown GGGGG4\n\
salet BBYBB1 cloud BGGBB2 bloom GGGGG3\n\
salet BBYBB1 cloud BGGBG2 blond BGGBG3 flood GGGGG4\n\
salet BBYBB1 cloud BGGBG2 blond GGGBG3 blood GGGGG4\n\
salet BBYBB1 cloud BGGBG2 blond GGGGG3\n\
salet BBYBB1 cloud BGGGB2 flour GGGGG3\n\
salet BBYBB1 cloud BYBBB2 grill BBYGB3 imply GGGGG4\n\
salet BBYBB1 cloud BYBBB2 grill GGGGG3\n\
salet BBYBB1 cloud BYBBB2 grill YBGYB3 lying GGGGG4\n\
salet BBYBB1 cloud BYBBY2 drill GGGGG3\n\
salet BBYBB1 cloud BYBYB2 pupil GGGGG3\n\
salet BBYBB1 cloud BYBYG2 build GGGGG3\n";

/// Part 2 of the decision table of the normal rules: a guess may be any accepted word.
pub const NORMAL_SECOND: &'static str = "\
salet BBYBB1 cloud BYGBY2 droll GGGGG3\n\
salet BBYBB1 cloud BYYBB2 lorry GGGGG3\n\
salet BBYBB1 cloud BYYBG2 world GGGGG3\n\
salet BBYBB1 cloud BYYYG2 would GGGGG3\n\
salet BBYBB1 cloud GGBBB2 bench BBBGB3 click GGGGG4\n\
salet BBYBB1 cloud GGBBB2 bench BBBYB3 cliff GGGGG4\n\
salet BBYBB1 cloud GGBBB2 bench BBYYB3 cling GGGGG4\n\
salet BBYBB1 cloud GGBBB2 bench YBBYB3 climb GGGGG4\n\
salet BBYBB1 cloud GGGBB2 clock GGGBB3 clown GGGGG4\n\
salet BBYBB1 cloud GGGBB2 clock GGGGG3\n\
salet BBYBB1 cloud GGGGG2\n\
salet BBYBB1 cloud GYBBB2 chill GGGGG3\n\
salet BBYBB1 cloud GYBBG2 child GGGGG3\n\
salet BBYBB1 cloud GYYYG2 could GGGGG3\n\
salet BBYBB1 cloud YGBYB2 pluck GGGGG3\n\
salet BBYBB1 cloud YGGBB2 block BGGGG3 flock GGGGG4\n\
salet BBYBB1 cloud YGGBB2 block GGGGG3\n\
salet BBYBB1 cloud YYBYB2 lucky GGGGG3\n\
salet BBYBB1 cloud YYBYB2 lucky GGYBB3 lunch GGGGG4\n\
salet BBYBB1 cloud YYYBB2 logic GGGGG3\n\
salet BBYBG1 begin BBBGB2 limit GGGGG3\n\
salet BBYBG1 begin BBBYB2 quilt GGGGG3\n\
salet BBYBG1 begin BBGYB2 light GGGGG3\n\
salet BBYBG1 begin BBYYB2 guilt GGGGG3\n\
salet BBYBG1 begin GBBBB2 blurt GGGGG3\n\
salet BBYBG1 begin GBBBY2 blunt GGGGG3\n\
salet BBYBG1 begin GBBYB2 built GGGGG3\n\
salet BBYBY1 truly GGGGG2\n\
salet BBYBY1 truly YBBYB2 cloth GGGGG3\n\
salet BBYBY1 truly YBYYB2 until GGGGG3\n\
salet BBYGB1 lever GBBGB2 linen GGGGG3\n\
salet BBYGB1 lever GBBGG2 lower GGGGG3\n\
salet BBYGB1 lever GBGGG2 liver GBGGG3 lover GGGGG4\n\
salet BBYGB1 lever GBGGG2 liver GGGGG3\n\
salet BBYGB1 lever GGGGB2 level GGGGG3\n\
salet BBYGB1 lever GGGGG2\n\
salet BBYGB1 lever YBBGB2 model BBBGG3 pixel GGGGG4\n\
salet BBYGB1 lever YBBGB2 model GGGGG3\n\
salet BBYGB1 lever YBBGY2 cruel GGGGG3\n\
salet BBYGB1 lever YBGGB2 novel GGGGG3\n\
salet BBYGB1 lever YGBGB2 jewel GGGGG3\n\
salet BBYGB1 lever YGBGY2 rebel GGGGG3\n\
salet BBYGB1 lever YYBGB2 bleed BYGGB3 wheel GGGGG4\n\
salet BBYGB1 lever YYBGB2 bleed GGGGG3\n\
salet BBYGB1 lever YYBGG2 elder GGGGG3\n\
salet BBYGG1 fleet GGGGG2\n\
salet BBYGY1 hotel BGYGG2 towel GGGGG3\n\
salet BBYGY1 hotel GGGGG2\n\
salet BBYYB1 drown BBBBB2 cycle BBBGG3 exile GGGGG4\n\
salet BBYYB1 drown BBBBB2 cycle GGGGG3\n\
salet BBYYB1 drown BBBBY2 uncle GGGGG3\n\
salet BBYYB1 drown BBBYB2 while GGGGG3\n\
salet BBYYB1 drown BBBYY2 newly GGGGG3\n\
salet BBYYB1 drown BBGBB2 globe GGGBG3 glove GGGGG4\n\
salet BBYYB1 drown BBGBB2 globe GGGGG3\n\
salet BBYYB1 drown BBGYB2 whole GGGGG3\n\
salet BBYYB1 drown BBYBB2 olive GGGGG3\n\
salet BBYYB1 drown BBYBG2 lemon GGGGG3\n\
salet BBYYB1 drown BBYBY2 noble GGGGG3\n\
salet BBYYB1 drown BBYYB2 elbow GGGGG3\n\
salet BBYYB1 drown BYBBB2 reply GGGGG3\n\
salet BBYYB1 drown BYBBB2 reply GYBGB3 rifle GGGGG4\n\
salet BBYYB1 drown BYBBB2 reply YYBYB3 clerk GGGGG4\n\
salet BBYYB1 drown GBBBB2 devil GGGGG3\n\
salet BBYYB1 drown YBBBB2 field BGGGG3 yield GGGGG4\n\
salet BBYYB1 drown YBBBB2 field GGGGG3\n\
salet BBYYB1 drown YBBBY2 blend GGGGG3\n\
salet BBYYB1 drown YBYBB2 lodge GGGGG3\n\
salet BBYYG1 elect GGGGG2\n\
salet BBYYY1 elite BGBGG2 flute GGGGG3\n\
salet BBYYY1 elite BYYYG2 title GGGGG3\n\
salet BBYYY1 elite GGGGG2\n\
salet BGBBB1 minor BBBBB2 happy BGBBY3 kayak GGGGG4\n\
salet BGBBB1 minor BBBBB2 happy GGGGG3\n\
salet BGBBB1 minor BBBBG2 radar GGGGG3\n\
salet BGBBB1 minor BBBBY2 carry GGGGG3\n\
salet BGBBB1 minor BBBGG2 vapor GGGGG3\n\
salet BGBBB1 minor BBBYY2 cargo GGGGG3\n\
salet BGBBB1 minor BBGBB2 candy GGGGG3\n\
salet BGBBB1 minor BBGBB2 candy YGGBG3 fancy GGGGG4\n\
salet BGBBB1 minor BBGBY2 ranch GGGGG3\n\
salet BGBBB1 minor BBYGB2 bacon BGBGG3 wagon GGGGG4\n\
salet BGBBB1 minor BBYGB2 bacon GGGGG3\n\
salet BGBBB1 minor BYBBY2 dairy BGGGG3 fairy GGGGG4\n\
salet BGBBB1 minor BYBBY2 dairy GGGGG3\n\
salet BGBBB1 minor BYBBY2 dairy YGYYB3 rapid GGGGG4\n\
salet BGBBB1 minor BYBYY2 radio GGGGG3\n\
salet BGBBB1 minor BYGBB2 panic GGGGG3\n\
salet BGBBB1 minor BYYBB2 cabin GGGGG3\n\
salet BGBBB1 minor BYYBY2 rainy GGGGG3\n\
salet BGBBB1 minor GBBBY2 march GGGBB3 marry GGGGG4\n\
salet BGBBB1 minor GBBBY2 march GGGGG3\n\
salet BGBBB1 minor GBBGG2 major GGBGG3 mayor GGGGG4\n\
salet BGBBB1 minor GBBGG2 major GGGGG3\n\
salet BGBBB1 minor GBGGG2 manor GGGGG3\n\
salet BGBBB1 minor GBGYB2 mango GGGGG3\n\
salet BGBBB1 minor GYBBB2 magic GGGGG3\n\
salet BGBBB1 minor YBBBY2 karma GGGGG3\n\
salet BGBBG1 faint BGBBG2 yacht GGGGG3\n\
salet BGBBG1 faint BGBGG2 haunt GGGGG3\n\
salet BGBBG1 faint BGGGG2 paint GGGGG3\n\
salet BGBBG1 faint BGYBG2 habit GGGGG3\n\
salet BGBBG1 faint GGGGG2\n\
salet BGBBY1 champ BBYBB2 ratio GGGGG3\n\
salet BGBBY1 champ BBYBY2 party GGGGG3\n\
salet BGBBY1 champ BBYYB2 datum GGGGG3\n\
salet BGBBY1 champ BYYBB2 faith GGGGG3\n\
salet BGBBY1 champ GYYBB2 catch GGGGG3\n\
salet BGBBY1 champ YYYBB2 below BBBBB3 hatch GGGGG4\n\
salet BGBBY1 champ YYYBB2 below BBBBY3 watch GGGGG4\n\
salet BGBBY1 champ YYYBB2 below GBBBB3 batch GGGGG4\n\
salet BGBBY1 champ YYYBY2 patch GGGGG3\n\
salet BGBBY1 champ YYYYB2 match GGGGG3\n\
salet BGBGB1 maker BGBGB2 haven GGGGG3\n\
salet BGBGB1 maker BGBGG2 eager BGBGG3 paper GGGGG4\n\
salet BGBGB1 maker BGBGG2 eager GGGGG3\n\
salet BGBGB1 maker BGGGG2 baker GGGGG3\n\
salet BGBGB1 maker GGGGG2\n\
salet BGBGB1 maker YGBGB2 famed GGGGG3\n\
salet BGBGG1 facet GGGGG2\n\
salet BGBGY1 eaten BGGGB2 water GGGGG3\n\
salet BGBGY1 eaten BGYGG2 taken GGGGG3\n\
salet BGBGY1 eaten GGGGG2\n\
salet BGBYB1 canoe BGBBG2 badge GGGGG3\n\
salet BGBYB1 canoe BGGBG2 range GGGGG3\n\
salet BGBYB1 canoe BGYBG2 naive GGGGG3\n\
salet BGBYB1 canoe GGGGG2\n\
salet BGBYB1 canoe YGGBG2 dance GGGGG3\n\
salet BGBYY1 earth GGGGG2\n\
salet BGGBB1 rally BGGBB2 valid GGGGG3\n\
salet BGGBB1 rally GGGGG2\n\
salet BGGYB1 value GGGBG2 valve GGGGG3\n\
salet BGGYB1 value GGGGG2\n\
salet BGYBB1 audio YBBBB2 naval GGGGG3\n\
salet BGYBB1 audio YBBBY2 labor GGGGG3\n\
salet BGYBB1 audio YBGBB2 badly GGGGG3\n\
salet BGYBB1 audio YBYYB2 daily GGGGG3\n\
salet BGYBB1 audio YYBBB2 laugh GGGGG3\n\
salet BGYBG1 fault BGGGG2 vault GGGGG3\n\
salet BGYBG1 fault GGGGG2\n\
salet BGYBY1 fatal BGGBY2 latch GGGGG3\n\
salet BGYBY1 fatal GGGGG2\n\
salet BGYGB1 bring BBBBB2 camel GGGGG3\n\
salet BGYGB1 bring BBBYB2 panel GGGGG3\n\
salet BGYGB1 bring BYBBB2 layer GGGGG3\n\
salet BGYGB1 bring BYBBY2 lager GGGGG3\n\
salet BGYGB1 bring GBBBY2 bagel GGGGG3\n\
salet BGYGB1 bring YBBBB2 label GGGGG3\n\
salet BGYGY1 later GGGGG2\n\
salet BGYYB1 cable BGBGG2 eagle BGBGG3 maple GGGGG4\n\
salet BGYYB1 cable BGBGG2 eagle GGGGG3\n\
salet BGYYB1 cable BGBGY2 early GGGGG3\n\
salet BGYYB1 cable BGBYG2 large GGGGG3\n\
salet BGYYB1 cable BGGGG2 fable GGGGG3\n\
salet BGYYB1 cable GGGGG2\n\
salet BGYYY1 table GGGGG2\n\
salet BYBBB1 acorn GBBBB2 affix GGGGG3\n\
salet BYBBB1 acorn GBBBG2 admin GBBGG3 again GGGGG4\n\
salet BYBBB1 acorn GBBBG2 admin GGGGG3\n\
salet BYBBB1 acorn GBBBY2 aging GGGGG3\n\
salet BYBBB1 acorn GBBGB2 award GGGGG3\n\
salet BYBBB1 acorn GBBGY2 angry GGGGG3\n\
salet BYBBB1 acorn GBBYB2 array GGGGG3\n\
salet BYBBB1 acorn GBGBB2 avoid GGGGG3\n\
salet BYBBB1 acorn GBGBY2 agony GGGGG3\n\
salet BYBBB1 acorn GBGBY2 agony GYGGB3 among GGGGG4\n\
salet BYBBB1 acorn GBGYB2 aroma GGGGG3\n\
salet BYBBB1 acorn GBYBB2 audio GGGGG3\n\
salet BYBBB1 acorn GBYBY2 annoy GGGGG3\n\
salet BYBBB1 acorn GBYYB2 armor GGBGY3 arrow GGGGG4\n\
salet BYBBB1 acorn GBYYB2 armor GGGGG3\n\
salet BYBBB1 acorn GBYYG2 apron GGGGG3\n\
salet BYBBB1 acorn GGBYB2 acrid GGGGG3\n\
salet BYBBB1 acorn GGGGG2\n\
salet BYBBB1 acorn GYBBB2 aback GGGGG3\n\
salet BYBBB1 acorn YBBBB2 pizza GGGGG3\n\
salet BYBBB1 acorn YBBBG2 human GGGGG3\n\
salet BYBBB1 acorn YBBBY2 ninja GGGGG3\n\
salet BYBBB1 acorn YBBGB2 diary GBGGB3 dwarf GGGGG4\n\
salet BYBBB1 acorn YBBGB2 diary GGGGG3\n\
salet BYBBB1 acorn YBBGB2 diary YBGGB3 guard GGGGG4\n\
salet BYBBB1 acorn YBBYB2 drama BGGBB3 graph GGGGG4\n\
salet BYBBB1 acorn YBBYB2 drama GGGGG3\n\
salet BYBBB1 acorn YBBYB2 drama YGGBB3 fraud GGGGG4\n\
salet BYBBB1 acorn YBBYG2 abide YBYBB3 grain GGGGG4\n\
salet BYBBB1 acorn YBBYG2 abide YBYYB3 drain GGGGG4\n\
salet BYBBB1 acorn YBBYG2 abide YYBBB3 urban GGGGG4\n\
salet BYBBB1 acorn YBBYG2 abide YYYBB3 brain GGGGG4\n\
salet BYBBB1 acorn YBBYY2 brand BGGGB3 frank GGGGG4\n\
salet BYBBB1 acorn YBBYY2 brand BGGGG3 grand GGGGG4\n\
salet BYBBB1 acorn YBBYY2 brand BGGGY3 drank GGGGG4\n\
salet BYBBB1 acorn YBBYY2 brand GGGGG3\n\
salet BYBBB1 acorn YBGYB2 broad GGGGG3\n\
salet BYBBB1 acorn YBGYG2 groan GGGGG3\n\
salet BYBBB1 acorn YBYBG2 woman GGGGG3\n\
salet BYBBB1 acorn YBYBY2 piano GGGGG3\n\
salet BYBBB1 acorn YBYGB2 board GGGGG3\n\
salet BYBBB1 acorn YBYYG2 organ GGGGG3\n\
salet BYBBB1 acorn YYBBB2 champ GGGGG3\n\
salet BYBBB1 acorn YYBBG2 chain GGGGG3\n\
salet BYBBB1 acorn YYBGB2 charm GGGGG3\n\
salet BYBBB1 acorn YYBYB2 crack GGGBB3 crazy GGGGG4\n\
salet BYBBB1 acorn YYBYB2 crack GGGGG3\n\
salet BYBBB1 acorn YYBYB2 crack GYGBB3 chair GGGGG4\n\
salet BYBBB1 acorn YYBYB2 crack GYYBB3 cigar GGGGG4\n\
salet BYBBB1 acorn YYYBB2 coach GGGGG3\n\
salet BYBBB1 acorn YYYBB2 coach GGYYB3 cocoa GGGGG4\n\
salet BYBBG1 courd BBBBB2 giant GGGGG3\n\
salet BYBBG1 courd BBBBY2 adapt GGBBG3 admit GGGGG4\n\
salet BYBBG1 courd BBBBY2 adapt GGGGG3\n\
salet BYBBG1 courd BBBYB2 trait GGGGG3\n\
salet BYBBG1 courd BBBYY2 draft GGGGG3\n\
salet BYBBG1 courd BBYBY2 audit GGGGG3\n\
salet BYBBG1 courd BYBBY2 adopt GGGGG3\n\
salet BYBBG1 courd BYBGB2 abort GGGGG3\n\
salet BYBBG1 courd BYYBB2 about GGGGG3\n\
salet BYBBG1 courd GBBBB2 chant GGGGG3\n\
salet BYBBG1 courd GBBGB2 chart GGGGG3\n\
salet BYBBG1 courd GBBYB2 craft GGGGG3\n\
salet BYBBY1 track GBGBG2 thank GGGGG3\n\
salet BYBBY1 track GBYBB2 today GGGGG3\n\
salet BYBBY1 track GGGBB2 train GGGGG3\n\
salet BYBBY1 track GGGGG2\n\
salet BYBBY1 track YBYBB2 quota GGGGG3\n\
salet BYBBY1 track YBYYB2 attic GGGGG3\n\
salet BYBBY1 track YYYYB2 actor GGGGG3\n\
salet BYBGB1 amber GBBGB2 annex GGGGG3\n\
salet BYBGB1 amber GBBGG2 anger GGGGG3\n\
salet BYBGB1 amber GBBGY2 agree GGGGG3\n\
salet BYBGB1 amber GBGGB2 abbey GGGGG3\n\
salet BYBGB1 amber GGGGG2\n\
salet BYBGY1 after GGGGG2\n\
salet BYBYB1 grade BBGBG2 awake BBGBG3 peace GGGGG4\n\
salet BYBYB1 grade BBGBG2 awake BYGBG3 weave GGGGG4\n\
salet BYBYB1 grade BBGBG2 awake GGGGG3\n\
salet BYBYB1 grade BBGBY2 beach BGGBY3 heavy GGGGG4\n\
salet BYBYB1 grade BBGBY2 beach BGGGG3 peach GGGGG4\n\
salet BYBYB1 grade BBGBY2 beach GGGGG3\n\
salet BYBYB1 grade BBYBG2 above GBBBG3 anime GGGGG4\n\
salet BYBYB1 grade BBYBG2 above GGGGG3\n\
salet BYBYB1 grade BBYBY2 cheap GGGGG3\n\
salet BYBYB1 grade BBYBY2 cheap YBGGB3 ocean GGGGG4\n\
salet BYBYB1 grade BBYGG2 abide GGGGG3\n\
salet BYBYB1 grade BBYYG2 adobe GGGGG3\n\
salet BYBYB1 grade BBYYY2 ahead BBYGY3 decay GGGGG4\n\
salet BYBYB1 grade BBYYY2 ahead GBGBG3 amend GGGGG4\n\
salet BYBYB1 grade BBYYY2 ahead GGGGG3\n\
salet BYBYB1 grade BBYYY2 ahead YBYBY3 media GGGGG4\n\
salet BYBYB1 grade BGGBG2 aback BBGBB3 frame GGGGG4\n\
salet BYBYB1 grade BGGBG2 aback BBGYB3 crane GGGGG4\n\
salet BYBYB1 grade BGGBG2 aback BYGBB3 brave GGGGG4\n\
salet BYBYB1 grade BGGBG2 aback BYGBY3 brake GGGGG4\n\
salet BYBYB1 grade BGYBY2 break BGGGB3 cream GGGGG4\n\
salet BYBYB1 grade BGYBY2 break BGGYB3 arena GGGGG4\n\
salet BYBYB1 grade BGYBY2 break GGGGG3\n\
salet BYBYB1 grade BGYYY2 bread BGGGG3 dread GGGGG4\n\
salet BYBYB1 grade BGYYY2 bread BGGGY3 dream GGGGG4\n\
salet BYBYB1 grade BGYYY2 bread GGGGG3\n\
salet BYBYB1 grade BYGBG2 aware GGGGG3\n\
salet BYBYB1 grade BYGBY2 reach GGGGG3\n\
salet BYBYB1 grade BYGBY2 reach YGGBB3 weary GGGGG4\n\
salet BYBYB1 grade BYGGY2 ready GGGGG3\n\
salet BYBYB1 grade BYGYY2 beard GGGGG3\n\
salet BYBYB1 grade BYYBY2 opera BBYGG3 zebra GGGGG4\n\
salet BYBYB1 grade BYYBY2 opera GGGGG3\n\
salet BYBYB1 grade BYYYG2 adore GGGGG3\n\
salet BYBYB1 grade GGGBG2 champ BBGBB3 grave GGGGG4\n\
salet BYBYB1 grade GGGBG2 champ BBGBY3 grape GGGGG4\n\
salet BYBYB1 grade GGGBG2 champ YBGBB3 grace GGGGG4\n\
salet BYBYB1 grade GGGGG2\n\
salet BYBYB1 grade YBGBG2 image GGGGG3\n\
salet BYBYB1 grade YBGYG2 adage GGGGG3\n\
salet BYBYB1 grade YBYBY2 began GGGGG3\n\
salet BYBYB1 grade YGYBG2 argue GGGGG3\n\
salet BYBYG1 cigar BBBGB2 wheat GGGGG3\n\
salet BYBYG1 cigar BBBGY2 treat GGGGG3\n\
salet BYBYG1 cigar BBBYB2 adept GGGGG3\n\
salet BYBYG1 cigar BBBYY2 heart GGGGG3\n\
salet BYBYG1 cigar BBYGY2 great GGGGG3\n\
salet BYBYG1 cigar BBYYB2 agent GGGGG3\n\
salet BYBYG1 cigar GBBGB2 cheat GGGGG3\n\
salet BYBYG1 cigar YBBYB2 exact GGGGG3\n\
salet BYBYG1 cigar YBBYY2 react GGGGG3\n\
salet BYBYY1 acute GBBGG2 abate GGGGG3\n\
salet BYBYY1 acute GGGGG2\n\
salet BYBYY1 acute YBBGY2 death GGGGG3\n\
salet BYBYY1 acute YBBYG2 trade GGGGG3\n\
salet BYBYY1 acute YBBYY2 extra GGGGG3\n\
salet BYBYY1 acute YYBGG2 crate GGGGG3\n\
salet BYBYY1 acute YYBYG2 trace GGGGG3\n\
salet BYBYY1 acute YYBYY2 teach GGGGG3\n\
salet BYGBB1 allow GGGGB2 alloy GGGGG3\n\
salet BYGBB1 allow GGGGG2\n\
salet BYGBB1 allow YBGYB2 polar GGGGG3\n\
salet BYGYB1 relax GGGGG2\n\
salet BYGYY1 delta GGGGG2\n\
salet BYYBB1 apron GBBBB2 album GGGGG3\n\
salet BYYBB1 apron GBBBB2 album GYBBB3 avail GGGGG4\n\
salet BYYBB1 apron GBBBB2 album GYBGB3 awful GGGGG4\n\
salet BYYBB1 apron GBBBG2 align GGGGG3\n\
salet BYYBB1 apron GBBYB2 aloud GGGGG3\n";

/// Part 3 of the decision table of the normal rules: a guess may be any accepted word.
pub const NORMAL_THIRD: &'static str = "\
salet BYYBB1 apron GBBYY2 along GGGGG3\n\
salet BYYBB1 apron GBYBB2 alarm GGGGG3\n\
salet BYYBB1 apron GGBBB2 apply GGGGG3\n\
salet BYYBB1 apron GYBBB2 alpha GGGGG3\n\
salet BYYBB1 apron YBBBB2 black BGGYB3 claim GGGGG4\n\
salet BYYBB1 apron YBBBB2 black BYGYG3 chalk GGGGG4\n\
salet BYYBB1 apron YBBBB2 black GGGGG3\n\
salet BYYBB1 apron YBBBY2 bland BYYYB3 final GGGGG4\n\
salet BYYBB1 apron YBBBY2 bland GGGGB3 blank GGGGG4\n\
salet BYYBB1 apron YBBBY2 bland GGGGG3\n\
salet BYYBB1 apron YBBYB2 local BGGGG3 vocal GGGGG4\n\
salet BYYBB1 apron YBBYB2 local GGBGG3 loyal GGGGG4\n\
salet BYYBB1 apron YBBYB2 local GGGGG3\n\
salet BYYBB1 apron YBGBB2 rural BBGGG3 viral GGGGG4\n\
salet BYYBB1 apron YBGBB2 rural GGGGG3\n\
salet BYYBB1 apron YBGYB2 coral BGGGG3 moral GGGGG4\n\
salet BYYBB1 apron YBGYB2 coral GGGGG3\n\
salet BYYBB1 apron YBYBB2 rival GGGGG3\n\
salet BYYBB1 apron YBYBY2 lunar GGGGG3\n\
salet BYYBB1 apron YBYYB2 royal GGGGG3\n\
salet BYYBB1 apron YYBBB2 clamp BGGBY3 plaza GGGGG4\n\
salet BYYBB1 apron YYBBB2 clamp GGGGG3\n\
salet BYYBB1 apron YYBBG2 plain GGGGG3\n\
salet BYYBG1 aloft GGGGG2\n\
salet BYYBG1 aloft GYBBG2 adult GGGGG3\n\
salet BYYBG1 aloft YGBBG2 plant GGGGG3\n\
salet BYYBG1 aloft YGGYG2 float GGGGG3\n\
salet BYYBY1 total BBGGG2 vital GGGGG3\n\
salet BYYBY1 total BBGGY2 altar GGGGG3\n\
salet BYYBY1 total BBGYY2 ultra GGGGG3\n\
salet BYYBY1 total GBBGG2 trial GGGGG3\n\
salet BYYBY1 total GBBYG2 trail GGGGG3\n\
salet BYYBY1 total GGGGG2\n\
salet BYYBY1 total YYBYG2 atoll GGGGG3\n\
salet BYYGB1 alien GGGGG2\n\
salet BYYGB1 alien GYBGY2 angel GGGGG3\n\
salet BYYGY1 alter GGGGG2\n\
salet BYYYB1 plane BGGBG2 famed BYBYB3 blaze GGGGG4\n\
salet BYYYB1 plane BGGBG2 famed BYBYY3 blade GGGGG4\n\
salet BYYYB1 plane BGGBG2 famed BYYYB3 blame GGGGG4\n\
salet BYYYB1 plane BGGBG2 famed GYYYB3 flame GGGGG4\n\
salet BYYYB1 plane BGYBG2 alike GGGBG3 alive GGGGG4\n\
salet BYYYB1 plane BGYBG2 alike GGGGG3\n\
salet BYYYB1 plane BGYBY2 bleak BGGGB3 clear GGGGG4\n\
salet BYYYB1 plane BGYBY2 bleak GGGGG3\n\
salet BYYYB1 plane BGYGG2 alone GGGGG3\n\
salet BYYYB1 plane BGYYY2 clean GGGGG3\n\
salet BYYYB1 plane BYGBG2 leave GGGGG3\n\
salet BYYYB1 plane BYGBG2 leave YBGBG3 whale GGGGG4\n\
salet BYYYB1 plane BYGBY2 realm GGGGG3\n\
salet BYYYB1 plane BYGYY2 learn GGGGG3\n\
salet BYYYB1 plane BYYBG2 agile GBBGG3 amble GGGGG4\n\
salet BYYYB1 plane BYYBG2 agile GGGGG3\n\
salet BYYYB1 plane BYYBY2 medal BGBGG3 legal GGGGG4\n\
salet BYYYB1 plane BYYBY2 medal BYBGG3 equal GGGGG4\n\
salet BYYYB1 plane BYYBY2 medal BYYGG3 ideal GGGGG4\n\
salet BYYYB1 plane BYYBY2 medal GGGGG3\n\
salet BYYYB1 plane BYYYG2 angle GGBGG3 ankle GGGGG4\n\
salet BYYYB1 plane BYYYG2 angle GGGGG3\n\
salet BYYYB1 plane GGGBG2 place GGGGG3\n\
salet BYYYB1 plane GGGGG2\n\
salet BYYYB1 plane GGYBY2 plead GGGGG3\n\
salet BYYYB1 plane GYGBY2 pearl GGGGG3\n\
salet BYYYB1 plane GYYBY2 pedal GGGGG3\n\
salet BYYYB1 plane YYYBG2 ample GBGGG3 apple GGGGG4\n\
salet BYYYB1 plane YYYBG2 ample GGGGG3\n\
salet BYYYG1 alert GGGGG2\n\
salet BYYYG1 alert YYYBG2 dealt GGGGG3\n\
salet BYYYY1 metal BYYYY2 plate GGGGG3\n\
salet BYYYY1 metal GGGGG2\n\
salet GBBBB1 sound GBBGB2 swing GGGGG3\n\
salet GBBBB1 sound GBYBB2 shrug GGGGG3\n\
salet GBBBB1 sound GBYGB2 sunny GGGGG3\n\
salet GBBBB1 sound GGBBB2 sorry GGGGG3\n\
salet GBBBB1 sound GGGGG2\n\
salet GBBBB1 sound GYBBB2 shock GGGGG3\n\
salet GBBBB1 sound GYBBG2 sword GGGGG3\n\
salet GBBBB1 sound GYBYB2 spoon GGGGG3\n\
salet GBBBG1 shirt GBBBG2 scout GGGGG3\n\
salet GBBBG1 shirt GBBGG2 sport GGGGG3\n\
salet GBBBG1 shirt GBGBG2 swift GGGGG3\n\
salet GBBBG1 shirt GBGGG2 skirt GGGGG3\n\
salet GBBBG1 shirt GGBBG2 shout GGGGG3\n\
salet GBBBG1 shirt GGBGG2 short GGGGG3\n\
salet GBBBG1 shirt GGGBG2 shift GGGGG3\n\
salet GBBBG1 shirt GGGGG2\n\
salet GBBBG1 shirt GYYBG2 sight GGGGG3\n\
salet GBBBY1 courd BBBBB2 stiff GGGBB3 sting GGGGG4\n\
salet GBBBY1 courd BBBBB2 stiff GGGGG3\n\
salet GBBBY1 courd BBBYB2 strip GGGGG3\n\
salet GBBBY1 courd BBGBB2 stuff GGGGG3\n\
salet GBBBY1 courd BBGBY2 study GGGGG3\n\
salet GBBBY1 courd BGGBB2 south GGGGG3\n\
salet GBBBY1 courd BYBBG2 stood GGGGG3\n\
salet GBBBY1 courd BYBGB2 storm GGGGB3 story GGGGG4\n\
salet GBBBY1 courd BYBGB2 storm GGGGG3\n\
salet GBBBY1 courd YBBBB2 stick GGGGG3\n\
salet GBBBY1 courd YBGBB2 stuck GGGGG3\n\
salet GBBBY1 courd YYBBB2 stock GGGGG3\n\
salet GBBGB1 sheep GBBGB2 screw GGGGG3\n\
salet GBBGB1 sheep GBBGY2 super GGGGG3\n\
salet GBBGB1 sheep GBGGG2 sweep GGGGG3\n\
salet GBBGB1 sheep GBGGY2 speed GGGGG3\n\
salet GBBGB1 sheep GBYGB2 seven GGGGG3\n\
salet GBBGB1 sheep GGGGB2 sheer GGGGG3\n\
salet GBBGB1 sheep GGGGG2\n\
salet GBBGG1 sweet GGGGG2\n\
salet GBBGY1 steep GGGGB2 steer GGGGG3\n\
salet GBBGY1 steep GGGGG2\n\
salet GBBYB1 porch BBBBB2 sense GGGGG3\n\
salet GBBYB1 porch BBBBY2 shine GGGGG3\n\
salet GBBYB1 porch BBBGB2 since GGGGG3\n\
salet GBBYB1 porch BBBYB2 scene GGGGG3\n\
salet GBBYB1 porch BBGBB2 serve GBGBG3 surge GGGGG4\n\
salet GBBYB1 porch BBGBB2 serve GGGGG3\n\
salet GBBYB1 porch BYBBB2 smoke GGGGG3\n\
salet GBBYB1 porch BYYBY2 shore GGGGG3\n\
salet GBBYB1 porch BYYYB2 score GGGGG3\n\
salet GBBYB1 porch YBBBB2 spend GGGGG3\n\
salet GBBYB1 porch YBBBB2 spend GGYGB3 spine GGGGG4\n\
salet GBBYB1 porch YBBGB2 spice GGGGG3\n\
salet GBBYB1 porch YYBBB2 spoke GGGGG3\n\
salet GBBYB1 porch YYBYB2 scope GGGGG3\n\
salet GBBYG1 scent GGGGG2\n\
salet GBBYY1 acorn BBBBB2 suite GGGGG3\n\
salet GBBYY1 acorn BBGBB2 stove GGGGG3\n\
salet GBBYY1 acorn BBGBY2 stone GGGGG3\n\
salet GBBYY1 acorn BBGGB2 store GGGGG3\n\
salet GBGBB1 silly GGGGG2\n\
salet GBGBB1 silly GYGBB2 solid GGGGG3\n\
salet GBGYB1 solve GGGGG2\n\
salet GBYBB1 skill GBBGB2 scold GGGGG3\n\
salet GBYBB1 skill GBGGG2 spill GGGGG3\n\
salet GBYBB1 skill GGBGG2 skull GGGGG3\n\
salet GBYBB1 skill GGGGG2\n\
salet GBYBY1 still GGBBG2 stool GGGGG3\n\
salet GBYBY1 still GGGGG2\n\
salet GBYGB1 sleep GGGGG2\n\
salet GBYGY1 steel GGGGG2\n\
salet GBYYB1 chill BBBGG2 smell GBGGG3 spell GGGGG4\n\
salet GBYYB1 chill BBBGG2 smell GGGGG3\n\
salet GBYYB1 chill BBBYB2 slope GGGGG3\n\
salet GBYYB1 chill BBGGB2 smile GGGGG3\n\
salet GBYYB1 chill BBGYB2 slide GGGGG3\n\
salet GBYYB1 chill BGBGB2 shelf GGGGG3\n\
salet GBYYB1 chill BGBGG2 shell GGGGG3\n\
salet GBYYB1 chill YBGYB2 slice GGGGG3\n\
salet GBYYY1 style GGGGG2\n\
salet GGBBG1 saint GGGGG2\n\
salet GGBYB1 sauce GGGGG2\n\
salet GGGBB1 salad GGGGG2\n\
salet GGGBY1 salty GGGGG2\n\
salet GYBBB1 scrap GBBGB2 squad GGGGG3\n\
salet GYBBB1 scrap GBBYG2 swamp GGGGG3\n\
salet GYBBB1 scrap GBGGY2 spray GGGGG3\n\
salet GYBBB1 scrap GBYGB2 sugar GGGGG3\n\
salet GYBBB1 scrap GBYYB2 shark GGGGG3\n\
salet GYBBB1 scrap GBYYG2 sharp GGGGG3\n\
salet GYBBB1 scrap GBYYY2 spark GGGGG3\n\
salet GYBBB1 scrap GGGGG2\n\
salet GYBBB1 scrap GGYYB2 scarf GGGGG3\n\
salet GYBBB1 scrap GYBYB2 snack GGGGG3\n\
salet GYBBG1 smart GBGGG2 start GGGGG3\n\
salet GYBBG1 smart GGGGG2\n\
salet GYBBY1 frank BBGBB2 stamp GGGGG3\n\
salet GYBBY1 frank BBGBG2 stack GGGGG3\n\
salet GYBBY1 frank BBGGB2 stand GGGGG3\n\
salet GYBBY1 frank BBGYB2 stain GGGGG3\n\
salet GYBBY1 frank BYGBB2 stair GGGGG3\n\
salet GYBBY1 frank BYYBB2 straw GGGGG3\n\
salet GYBBY1 frank YBGBB2 staff GGGGG3\n\
salet GYBYB1 spark GBGBB2 shade GGGBG3 shame GGGGG4\n\
salet GYBYB1 spark GBGBB2 shade GGGGG3\n\
salet GYBYB1 spark GBGBY2 shake GBGGG3 snake GGGGG4\n\
salet GYBYB1 spark GBGBY2 shake GGGGG3\n\
salet GYBYB1 spark GBGGB2 scare GBGGG3 share GGGGG4\n\
salet GYBYB1 spark GBGGB2 scare GGGGG3\n\
salet GYBYB1 spark GBYBG2 sneak GGGGG3\n\
salet GYBYB1 spark GBYYB2 swear GGGGG3\n\
salet GYBYB1 spark GGGBB2 space GGGGG3\n\
salet GYBYB1 spark GGGGB2 spare GGGGG3\n\
salet GYBYB1 spark GGYBG2 speak GGGGG3\n\
salet GYBYB1 spark GYGBB2 shape GGGGG3\n\
salet GYBYG1 sweat GGGGG2\n\
salet GYBYY1 brake BBGBG2 stage GGGBG3 state GGGGG4\n\
salet GYBYY1 brake BBGBG2 stage GGGGG3\n\
salet GYBYY1 brake BBGGG2 stake GGGGG3\n\
salet GYBYY1 brake BBYBY2 steam GGGGG3\n\
salet GYBYY1 brake BBYYY2 steak GGGGG3\n\
salet GYBYY1 brake BYGBG2 stare GGGGG3\n\
salet GYGBB1 solar GGGGG2\n\
salet GYYBB1 shall GBGGG2 small GGGGG3\n\
salet GYYBB1 shall GGGGG2\n\
salet GYYYB1 scale GGGGG2\n\
salet GYYYY1 slate GGGGG2\n\
salet GYYYY1 slate GYGYG2 stale GGGGG3\n\
salet YBBBB1 birth BBBBB2 focus GGGGG3\n\
salet YBBBB1 birth BBYBB2 cross BGGGG3 gross GGGGG4\n\
salet YBBBB1 birth BBYBB2 cross GGGGG3\n\
salet YBBBB1 birth BBYBG2 crush GGGGG3\n\
salet YBBBB1 birth BGBBB2 minus GGGGG3\n\
salet YBBBB1 birth BGGBB2 virus GGGGG3\n\
salet YBBBB1 birth BGYBB2 risky GGGGG3\n\
salet YBBBB1 birth BYBBB2 music GGGGG3\n\
salet YBBBB1 birth BYYBB2 crisp GGGGG3\n\
salet YBBBB1 birth GBBBB2 bonus GGGGG3\n\
salet YBBBB1 birth GBYBG2 brush GGGGG3\n\
salet YBBBB1 birth GYYBB2 brisk GGGGG3\n\
salet YBBBG1 virus BBBBY2 boost GGGGG3\n\
salet YBBBG1 virus BBGBY2 worst GGGGG3\n\
salet YBBBG1 virus BBGYY2 burst GGGGG3\n\
salet YBBBG1 virus BBYBY2 frost GGGGG3\n\
salet YBBBG1 virus BBYYY2 trust GGGGG3\n\
salet YBBBG1 virus BGBBY2 midst GGGGG3\n\
salet YBBBG1 virus BGGBY2 first GGGGG3\n\
salet YBBBG1 virus BYBBY2 twist GGGGG3\n\
salet YBBBG1 virus BYYBY2 wrist GGGGG3\n\
salet YBBBG1 virus GGBBY2 visit GGGGG3\n\
salet YBBBY1 dusty BGGGG2 rusty GGGGG3\n\
salet YBBBY1 dusty BYYYB2 truss GGGGG3\n\
salet YBBBY1 dusty GGGGG2\n\
salet YBBGG1 upset GGGGG2\n\
salet YBBYB1 north BBBBB2 guess BYYYY3 issue GGGGG4\n\
salet YBBYB1 north BBBBB2 guess GGGGG3\n\
salet YBBYB1 north BBBBY2 chess GGGGG3\n\
salet YBBYB1 north BBGBB2 purse BBGGG3 verse GGGGG4\n\
salet YBBYB1 north BBGBB2 purse GGGGG3\n\
salet YBBYB1 north BBYBB2 dress BGGGG3 press GGGGG4\n\
salet YBBYB1 north BBYBB2 dress GGGGG3\n\
salet YBBYB1 north BBYBG2 fresh GGGGG3\n\
salet YBBYB1 north BGBBB2 goose BGBGG3 mouse GGGGG4\n\
salet YBBYB1 north BGBBB2 goose GGGGG3\n\
salet YBBYB1 north BGBBY2 house GGGGG3\n\
salet YBBYB1 north BGGBB2 worse GGGGG3\n\
salet YBBYB1 north BGGBY2 horse GGGGG3\n\
salet YBBYB1 north BYBBY2 chose BGGGG3 whose GGGGG4\n\
salet YBBYB1 north BYBBY2 chose GGGGG3\n\
salet YBBYB1 north GBGBB2 nurse GGGGG3\n\
salet YBBYB1 north GGBBB2 noise GGGGG3\n\
salet YBBYB1 north YBBBB2 dense GGGGG3\n\
salet YBBYB1 north YBYBB2 rinse GGGGG3\n\
salet YBBYG1 guest BBGGG2 chest GGGGG3\n\
salet YBBYG1 guest BBYGG2 exist GGGGG3\n\
salet YBBYG1 guest BGGGG2 quest GGGGG3\n\
salet YBBYG1 guest GGGGG2\n\
salet YBBYY1 those GGGGG2\n\
salet YBGYB1 pulse GGGGG2\n\
salet YBYBB1 bliss GGBGB2 blush GGGGG3\n\
salet YBYBB1 bliss GGGGG2\n\
salet YBYYB1 bless BGGGB2 flesh GGGGG3\n\
salet YBYYB1 bless BGYGB2 close GGGGG3\n\
salet YBYYB1 bless BYYGB2 loose GGGGG3\n\
salet YBYYB1 bless GGGGG2\n\
salet YGBBB1 basic BGYBB2 harsh GGGGG3\n\
salet YGBBB1 basic GGGGB2 basin GGGGG3\n\
salet YGBBB1 basic GGGGG2\n\
salet YGBBG1 waist GGGGG2\n\
salet YGBBY1 hasty BGGGB2 pasta GGGGG3\n\
salet YGBBY1 hasty BGGGG2 nasty GGGGG3\n\
salet YGBBY1 hasty GGGGG2\n\
salet YGBYB1 cause BGBGG2 raise GGGGG3\n\
salet YGBYB1 cause BGGGG2 pause GGGGG3\n\
salet YGBYB1 cause GGGGG2\n\
salet YGBYY1 teach GYYBB2 taste GGGGG3\n\
salet YGBYY1 teach YYYBB2 waste GGGGG3\n\
salet YGBYY1 teach YYYBY2 haste GGGGG3\n\
salet YGGYB1 false GGGGG2\n\
salet YGYGB1 laser GGGGG2\n\
salet YYBBB1 chaos BBGBG2 grass GGGGG3\n\
salet YYBBB1 chaos BBGBY2 grasp GGGGG3\n\
salet YYBBB1 chaos BBYBG2 amiss GGGGG3\n\
salet YYBBB1 chaos BBYGY2 arson GGGGG3\n\
salet YYBBB1 chaos GGGGG2\n\
salet YYBBB1 chaos GYGBY2 crash GGGGG3\n\
salet YYBBG1 brick BBBBB2 toast GGGGG3\n\
salet YYBBG1 brick BBBYB2 coast GGGGG3\n\
salet YYBBG1 brick BYBBB2 roast GGGGG3\n\
salet YYBBG1 brick GBBBB2 boast GGGGG3\n\
salet YYBBY1 trash GGGGG2\n\
salet YYBGG1 asset GGGGG2\n\
salet YYBYB1 chair BBGBB2 abase BBGYG3 usage GGGGG4\n\
salet YYBYB1 chair BBGBB2 abase GGGGG3\n\
salet YYBYB1 chair BBYBB2 abuse GGGGG3\n\
salet YYBYB1 chair BBYBB2 abuse YBBYY3 essay GGGGG4\n\
salet YYBYB1 chair BBYBY2 arose GGGGG3\n\
salet YYBYB1 chair BBYYB2 aside GGGGG3\n\
salet YYBYB1 chair BBYYY2 arise GGGGG3\n\
salet YYBYB1 chair BGGBB2 phase GGGGG3\n\
salet YYBYB1 chair GBGBB2 cease GGGGG3\n\
salet YYBYB1 chair GGGBB2 chase GGGGG3\n\
salet YYBYG1 beast BGGGG2 feast GGGGG3\n\
salet YYBYG1 beast GGGGG2\n\
salet YYYBB1 clash BGGGB2 glass GGGGG3\n\
salet YYYBB1 clash BGGGG2 flash GGGGG3\n\
salet YYYBB1 clash BYYYB2 usual GGGGG3\n\
salet YYYBB1 clash GGGGB2 class GGGGG3\n\
salet YYYBB1 clash GGGGG2\n\
salet YYYBG1 blast GGGGG2\n\
salet YYYYB1 aisle GGGGG2\n\
salet YYYYB1 aisle YBYYG2 lease GGGGG3\n\
salet YYYYG1 least GGGGG2\n";

/// Part 1 of the decision table of the hard rules: every guess agrees with all placements seen so far.
pub const HARD_FIRST: &'static str = "\
salet BBBBB1 robin BBBBB2 fuzzy BGBBG3 muddy BGBBG4 puppy GGGGG5\n\
salet BBBBB1 robin BBBBB2 fuzzy BGBBG3 muddy GGGGG4\n\
salet BBBBB1 robin BBBBB2 fuzzy GGGGG3\n\
salet BBBBB1 robin BBBBY2 funky BGGBB3 punch GGGGG4\n\
salet BBBBB1 robin BBBBY2 funky BGGGG3 hunky BGGGG4 junky GGGGG5\n\
salet BBBBB1 robin BBBBY2 funky BGGGG3 hunky GGGGG4\n\
salet BBBBB1 robin BBBBY2 funky GGGBG3 funny GGGGG4\n\
salet BBBBB1 robin BBBBY2 funky GGGGG3\n\
salet BBBBB1 robin BBBGB2 civic BGGGB3 vivid GGGGG4\n\
salet BBBBB1 robin BBBGB2 civic GGGGG3\n\
salet BBBBB1 robin BBBYB2 juicy BBGGB3 which GGGGG4\n\
salet BBBBB1 robin BBBYB2 juicy BBYBG3 dizzy GGGGG4\n\
salet BBBBB1 robin BBBYB2 juicy BGGGB3 quick GGGGG4\n\
salet BBBBB1 robin BBBYB2 juicy GGGGG3\n\
salet BBBBB1 robin BBBYY2 pinch GGGGG3\n\
salet BBBBB1 robin BBYBB2 buddy GGGGG3\n\
salet BBBBB1 robin BBYBY2 bunch GGGGG3\n\
salet BBBBB1 robin BGBBB2 couch BGBBB3 foggy GGGGG4\n\
salet BBBBB1 robin BGBBB2 couch BGGBG3 dough GGGGG4\n\
salet BBBBB1 robin BGBBB2 couch GGGBG3 cough GGGGG4\n\
salet BBBBB1 robin BGBBB2 couch GGGGG3\n\
salet BBBBB1 robin BGBBY2 found BGGGB3 young GGGGG4\n\
salet BBBBB1 robin BGBBY2 found BGGGG3 mound BGGGG4 pound BGGGG5 wound GGGGG6\n\
salet BBBBB1 robin BGBBY2 found BGGGG3 mound BGGGG4 pound GGGGG5\n\
salet BBBBB1 robin BGBBY2 found BGGGG3 mound GGGGG4\n\
salet BBBBB1 robin BGBBY2 found GGGGG3\n\
salet BBBBB1 robin BGBGB2 comic GGGGG3\n\
salet BBBBB1 robin BGBYY2 doing GGGGG3\n\
salet BBBBB1 robin BGGBB2 hobby GGGGG3\n\
salet BBBBB1 robin BGYBY2 bound GGGGG3\n\
salet BBBBB1 robin BYBBG2 known GGGGG3\n\
salet BBBBB1 robin BYBBY2 knock GGGGG3\n\
salet BBBBB1 robin BYBYB2 widow GGGGG3\n\
salet BBBBB1 robin BYBYG2 onion BGGGG3 union GGGGG4\n\
salet BBBBB1 robin BYBYG2 onion GGGGG3\n\
salet BBBBB1 robin BYGYY2 inbox GGGGG3\n\
salet BBBBB1 robin BYYBB2 jumbo GGGGG3\n\
salet BBBBB1 robin GBBGB2 rigid GGGGG3\n\
salet BBBBB1 robin GBYBB2 rugby GGGGG3\n\
salet BBBBB1 robin GGBBB2 rocky GGBBB3 rough GGGGG4\n\
salet BBBBB1 robin GGBBB2 rocky GGGGG3\n\
salet BBBBB1 robin GGBBY2 round GGGGG3\n\
salet BBBBB1 robin GGGGG2\n\
salet BBBBB1 robin YBBBB2 hurry GGGGG3\n\
salet BBBBB1 robin YBBYY2 drink GGGGG3\n\
salet BBBBB1 robin YBBYY2 drink YGGGB3 grind GGGGG4\n\
salet BBBBB1 robin YBYBB2 crumb GGGGG3\n\
salet BBBBB1 robin YBYYB2 brick GGGGG3\n\
salet BBBBB1 robin YBYYY2 bring GGGGB3 brink GGGGG4\n\
salet BBBBB1 robin YBYYY2 bring GGGGG3\n\
salet BBBBB1 robin YGBBB2 forum BGGBB3 porch BGGBB4 worry GGGGG5\n\
salet BBBBB1 robin YGBBB2 forum BGGBB3 porch GGGGG4\n\
salet BBBBB1 robin YGBBB2 forum GGGGG3\n\
salet BBBBB1 robin YGBBY2 donor BGGGG3 honor GGGGG4\n\
salet BBBBB1 robin YGBBY2 donor GGGGG3\n\
salet BBBBB1 robin YYBBB2 group BGGBB3 crowd GGGGG4\n\
salet BBBBB1 robin YYBBB2 group BGGBY3 proof GGGBB4 proxy GGGGG5\n\
salet BBBBB1 robin YYBBB2 group BGGBY3 proof GGGGG4\n\
salet BBBBB1 robin YYBBB2 group BGGGY3 proud GGGGG4\n\
salet BBBBB1 robin YYBBB2 group BYYYB3 humor GGGGG4\n\
salet BBBBB1 robin YYBBB2 group GGGBB3 groom GGGGG4\n\
salet BBBBB1 robin YYBBB2 group GGGGG3\n\
salet BBBBB1 robin YYBBG2 crown BGGGG3 drown BGGGG4 grown GGGGG5\n\
salet BBBBB1 robin YYBBG2 crown BGGGG3 drown GGGGG4\n\
salet BBBBB1 robin YYBBG2 crown GGGGG3\n\
salet BBBBB1 robin YYBBY2 wrong GGGGG3\n\
salet BBBBB1 robin YYBYB2 ivory GGGGG3\n\
salet BBBBB1 robin YYBYB2 ivory YBYYB3 prior GGGGG4\n\
salet BBBBB1 robin YYBYB2 ivory YYYYB3 vigor GGGGG4\n\
salet BBBBB1 robin YYBYY2 irony GGGGG3\n\
salet BBBBB1 robin YYBYY2 irony YYYYB3 minor GGGGG4\n\
salet BBBBB1 robin YYYBB2 brook GGGGB3 broom GGGGG4\n\
salet BBBBB1 robin YYYBB2 brook GGGGG3\n\
salet BBBBB1 robin YYYBG2 brown GGGGG3\n\
salet BBBBG1 print BBBBG2 doubt BYYBG3 ought GGGGG4\n\
salet BBBBG1 print BBBBG2 doubt GGGGG3\n\
salet BBBBG1 print BBBGG2 count BGGGG3 mount GGGGG4\n\
salet BBBBG1 print BBBGG2 count GGGGG3\n\
salet BBBBG1 print BBGGG2 joint GGGGG3\n\
salet BBBBG1 print BBYBG2 fight BGGBG3 digit GGGGG4\n\
salet BBBBG1 print BBYBG2 fight BGGGG3 might BGGGG4 tight GGGGG5\n\
salet BBBBG1 print BBYBG2 fight BGGGG3 might GGGGG4\n\
salet BBBBG1 print BBYBG2 fight GGGGG3\n\
salet BBBBG1 print BBYYG2 night GGGGG3\n\
salet BBBBG1 print BGBGG2 front GGGGG3\n\
salet BBBBG1 print BGGBG2 drift GGGGG3\n\
salet BBBBG1 print BGYBG2 fruit BGBGG3 orbit GGGGG4\n\
salet BBBBG1 print BGYBG2 fruit GGGGG3\n\
salet BBBBG1 print BYBBG2 court BGBYG3 robot GGGGG4\n\
salet BBBBG1 print BYBBG2 court GGGGG3\n\
salet BBBBG1 print BYYBG2 right GGGGG3\n\
salet BBBBG1 print GBGGG2 point GGGGG3\n\
salet BBBBG1 print GGGGG2\n\
salet BBBBG1 print YBYYG2 input GGGGG3\n\
salet BBBBY1 north BBBGB2 fifty GGGGG3\n\
salet BBBBY1 north BBBGG2 fifth BGBGG3 width GGGGG4\n\
salet BBBBY1 north BBBGG2 fifth GGGGG3\n\
salet BBBBY1 north BBBYG2 ditch BGGGG3 pitch BGGGG4 witch GGGGG5\n\
salet BBBBY1 north BBBYG2 ditch BGGGG3 pitch GGGGG4\n\
salet BBBBY1 north BBBYG2 ditch GGGGG3\n\
salet BBBBY1 north BBBYY2 thick GGBBB3 thumb GGGGG4\n\
salet BBBBY1 north BBBYY2 thick GGGGG3\n\
salet BBBBY1 north BBGGB2 dirty GGGGG3\n\
salet BBBBY1 north BBGGG2 birth BGGGG3 mirth GGGGG4\n\
salet BBBBY1 north BBGGG2 birth GGGGG3\n\
salet BBBBY1 north BBYGG2 truth GGGGG3\n\
salet BBBBY1 north BBYYB2 trick GGBGG3 truck GGGGG4\n\
salet BBBBY1 north BBYYB2 trick GGGGG3\n\
salet BBBBY1 north BBYYY2 third GGGGG3\n\
salet BBBBY1 north BGBGG2 booth BGBGG3 mouth BGGGG4 youth GGGGG5\n\
salet BBBBY1 north BGBGG2 booth BGBGG3 mouth GGGGG4\n\
salet BBBBY1 north BGBGG2 booth BGGGG3 tooth GGGGG4\n\
salet BBBBY1 north BGBGG2 booth GGGGG3\n\
salet BBBBY1 north BGBYB2 topic GGBGG3 toxic GGGGG4\n\
salet BBBBY1 north BGBYB2 topic GGGGG3\n\
salet BBBBY1 north BGBYG2 touch GGGBG3 tough GGGGG4\n\
salet BBBBY1 north BGBYG2 touch GGGGG3\n\
salet BBBBY1 north BGGGB2 forty GGGGG3\n\
salet BBBBY1 north BGGGG2 forth BGGGG3 worth GGGGG4\n\
salet BBBBY1 north BGGGG2 forth GGGGG3\n\
salet BBBBY1 north BGGYG2 torch GGGGG3\n\
salet BBBBY1 north BGYYB2 motor GGGGG3\n\
salet BBBBY1 north BYBGY2 photo GGGGG3\n\
salet BBBBY1 north BYGYY2 throw GGGGG3\n\
salet BBBBY1 north BYYYB2 troop GGGGG3\n\
salet BBBBY1 north BYYYB2 troop GYBGB3 tumor GGGGG4\n\
salet BBBBY1 north GGGGG2\n\
salet BBBBY1 north YBBGB2 unity GGGGG3\n\
salet BBBBY1 north YBBYY2 thing GGGGB3 think GGGGG4\n\
salet BBBBY1 north YBBYY2 thing GGGGG3\n\
salet BBBBY1 north YBYYB2 trunk GGGGG3\n\
salet BBBBY1 north YGBGG2 month GGGGG3\n\
salet BBBBY1 north YYYYY2 thorn GGGGG3\n\
salet BBBGB1 diner BBBGB2 cheek GGGGG3\n\
salet BBBGB1 diner BBBGG2 cover BBBGG3 refer BBBGG4 upper GGGGG5\n\
salet BBBGB1 diner BBBGG2 cover BBBGG3 refer GGGGG4\n\
salet BBBGB1 diner BBBGG2 cover BBGGG3 fever GGGGG4\n\
salet BBBGB1 diner BBBGG2 cover BGBGG3 joker BGBGG4 power GGGGG5\n\
salet BBBGB1 diner BBBGG2 cover BGBGG3 joker GGGGG4\n\
salet BBBGB1 diner BBBGG2 cover BYBGG3 offer GGGGG4\n\
salet BBBGB1 diner BBBGG2 cover GBBGG3 cheer GGGGG4\n\
salet BBBGB1 diner BBBGG2 cover GGGGG3\n\
salet BBBGB1 diner BBBGY2 creek GGGGG3\n\
salet BBBGB1 diner BBGGB2 honey BGGGG3 money GGGGG4\n\
salet BBBGB1 diner BBGGB2 honey GGGGG3\n\
salet BBBGB1 diner BBGGG2 owner GGGGG3\n\
salet BBBGB1 diner BBYGB2 queen BBBGG3 woven GGGGG4\n\
salet BBBGB1 diner BBYGB2 queen GGGGG3\n\
salet BBBGB1 diner BBYGG2 never GGGGG3\n\
salet BBBGB1 diner BBYGY2 green GGGGG3\n\
salet BBBGB1 diner BGBGG2 fiber BGBGG3 river GGGGG4\n\
salet BBBGB1 diner BGBGG2 fiber GGGGG3\n\
salet BBBGB1 diner BGYGB2 given GGGGG3\n\
salet BBBGB1 diner BYBGB2 chief GGGGG3\n\
salet BBBGB1 diner BYBGY2 brief BGGGG3 grief GGGGG4\n\
salet BBBGB1 diner BYBGY2 brief GGGGG3\n\
salet BBBGB1 diner BYGGG2 inner GGGGG3\n\
salet BBBGB1 diner GBYGB2 dozen GGGGG3\n\
salet BBBGB1 diner GGGGG2\n\
salet BBBGB1 diner GYBGY2 dried GGGGG3\n\
salet BBBGB1 diner YBBGG2 order GGGGG3\n\
salet BBBGB1 diner YBBGY2 bored BBYGG3 greed GGGGG4\n\
salet BBBGB1 diner YBBGY2 bored GBYGG3 breed GGGGG4\n\
salet BBBGB1 diner YBBGY2 bored GGGGG3\n\
salet BBBGB1 diner YBYGG2 under GGGGG3\n\
salet BBBGB1 diner YGBGB2 video GGGGG3\n\
salet BBBGB1 diner YGBGG2 cider BGGGG3 rider GGGGG4\n\
salet BBBGB1 diner YGBGG2 cider GGGGG3\n\
salet BBBGB1 diner YYBGY2 fried GGGGG3\n\
salet BBBGB1 diner YYYGB2 index GGGGG3\n\
salet BBBGG1 comet BBBGG2 greet BBBGG3 quiet GGGGG4\n\
salet BBBGG1 comet BBBGG2 greet GGGGG3\n\
salet BBBGG1 comet GGGGG2\n\
salet BBBGY1 tower GBBGB2 thief GGGGG3\n\
salet BBBGY1 tower GBBGG2 tiger GGBGG3 timer GGGGG4\n\
salet BBBGY1 tower GBBGG2 tiger GGGGG3\n\
salet BBBGY1 tower GBBGY2 three GBGGB3 tired GGGGG4\n\
salet BBBGY1 tower GBBGY2 three GBYGB3 tried GGGGG4\n\
salet BBBGY1 tower GBBGY2 three GGGGG3\n\
salet BBBGY1 tower GBYGY2 threw GGGGG3\n\
salet BBBGY1 tower GGBGB2 token GGGGG3\n\
salet BBBGY1 tower GGGGG2\n\
salet BBBGY1 tower YBBGG2 enter BBGGG3 utter GGGGG4\n\
salet BBBGY1 tower YBBGG2 enter GGGGG3\n\
salet BBBGY1 tower YBBGG2 enter YBGGG3 meter GGGGG4\n\
salet BBBGY1 tower YGBGG2 voter GGGGG3\n\
salet BBBGY1 tower YYBGB2 often GGGGG3\n\
salet BBBGY1 tower YYBGG2 other GGGGG3\n\
salet BBBGY1 tower YYBGG2 other GYBGG3 outer GGGGG4\n\
salet BBBYB1 price BBBBG2 hedge BBGGG3 dodge BBGGG4 judge GGGGG5\n\
salet BBBYB1 price BBBBG2 hedge BBGGG3 dodge GGGGG4\n\
salet BBBYB1 price BBBBG2 hedge BGBBG3 venue GGGGG4\n\
salet BBBYB1 price BBBBG2 hedge BGGGG3 wedge GGGGG4\n\
salet BBBYB1 price BBBBG2 hedge GGGGG3\n\
salet BBBYB1 price BBBBY2 ebony GBBYG3 enemy GGGGG4\n\
salet BBBYB1 price BBBBY2 ebony GBYYG3 enjoy GGGGG4\n\
salet BBBYB1 price BBBBY2 ebony GGGGG3\n\
salet BBBYB1 price BBBGG2 fence BBGGG3 ounce GGGGG4\n\
salet BBBYB1 price BBBGG2 fence BGGGG3 hence GGGGG4\n\
salet BBBYB1 price BBBGG2 fence GGGGG3\n\
salet BBBYB1 price BBBGY2 bench BYBGY3 check GGGGG4\n\
salet BBBYB1 price BBBGY2 bench GGGGG3\n\
salet BBBYB1 price BBBYY2 decoy GGGGG3\n\
salet BBBYB1 price BBGBG2 guide BBGBG3 knife GGGGG4\n\
salet BBBYB1 price BBGBG2 guide BBGGG3 oxide GGGGG4\n\
salet BBBYB1 price BBGBG2 guide GGGGG3\n\
salet BBBYB1 price BBGBY2 being BGGBY3 weigh GGGGG4\n\
salet BBBYB1 price BBGBY2 being GGGGG3\n\
salet BBBYB1 price BBGGG2 juice BBGGG3 voice GGGGG4\n\
salet BBBYB1 price BBGGG2 juice GGGGG3\n\
salet BBBYB1 price BBYBG2 hinge BYBBG3 movie GGGGG4\n\
salet BBBYB1 price BBYBG2 hinge GGGGG3\n\
salet BBBYB1 price BBYBY2 begin GGGGG3\n\
salet BBBYB1 price BGBBG2 broke BGGBG3 drone BGGBG4 grove GGGGG5\n\
salet BBBYB1 price BGBBG2 broke BGGBG3 drone GGGGG4\n\
salet BBBYB1 price BGBBG2 broke GGGGG3\n\
salet BBBYB1 price BGBBY2 error GGGGG3\n\
salet BBBYB1 price BGBYG2 crude GGGGG3\n\
salet BBBYB1 price BGGBG2 bride BGGYG3 drive GGGGG4\n\
salet BBBYB1 price BGGBG2 bride GGGGG3\n\
salet BBBYB1 price BGGYG2 crime GGGGG3\n\
salet BBBYB1 price BYBBG2 forge BBGBG3 nerve GGGGG4\n\
salet BBBYB1 price BYBBG2 forge BBYBG3 where GGGGG4\n\
salet BBBYB1 price BYBBG2 forge BGYGG3 rouge GGGGG4\n\
salet BBBYB1 price BYBBG2 forge GGGGG3\n\
salet BBBYB1 price BYBBY2 berry BGGGG3 ferry GGGGG4\n\
salet BBBYB1 price BYBBY2 berry BYBGG3 every BBGGG4 query GGGGG5\n\
salet BBBYB1 price BYBBY2 berry BYBGG3 every GGGGG4\n\
salet BBBYB1 price BYBBY2 berry GGGGG3\n\
salet BBBYB1 price BYBGG2 force GGGGG3\n\
salet BBBYB1 price BYBGY2 mercy GGGGG3\n\
salet BBBYB1 price BYBYG2 curve GGGGG3\n\
salet BBBYB1 price BYGBY2 weird GGGGG3\n\
salet BBBYB1 price BYYBG2 ridge GGGGG3\n\
salet BBBYB1 price BYYBY2 fiery GGGGG3\n\
salet BBBYB1 price GBBBG2 phone GGGGG3\n\
salet BBBYB1 price GBBBY2 penny GGGGG3\n\
salet BBBYB1 price GBYGG2 piece GGGGG3\n\
salet BBBYB1 price GGBBG2 probe GGGBG3 prone GGGBG4 prove GGGGG5\n\
salet BBBYB1 price GGBBG2 probe GGGBG3 prone GGGGG4\n\
salet BBBYB1 price GGBBG2 probe GGGGG3\n\
salet BBBYB1 price GGGBG2 pride GGGBG3 prime GGGBG4 prize GGGGG5\n\
salet BBBYB1 price GGGBG2 pride GGGBG3 prime GGGGG4\n\
salet BBBYB1 price GGGBG2 pride GGGGG3\n\
salet BBBYB1 price GGGGG2\n\
salet BBBYB1 price GYBGY2 perch GGGGG3\n\
salet BBBYG1 eight GBBBG2 event GGGGG3\n\
salet BBBYG1 eight GGGGG2\n\
salet BBBYG1 eight YBBBG2 debut GGBBG3 depot GGGGG4\n\
salet BBBYG1 eight YBBBG2 debut GGGGG3\n\
salet BBBYG1 eight YBBYG2 theft GGGGG3\n\
salet BBBYG1 eight YYBBG2 merit GGGGG3\n\
salet BBBYY1 their GBGBY2 trend GGGGG3\n\
salet BBBYY1 their GBYBB2 tempo GGGGG3\n\
salet BBBYY1 their GBYYB2 twice GGGGG3\n\
salet BBBYY1 their GBYYY2 tribe GGGGG3\n\
salet BBBYY1 their GGGBB2 theme GGGGG3\n\
salet BBBYY1 their GGGBY2 there GGGGG3\n\
salet BBBYY1 their GGGGG2\n\
salet BBBYY1 their GYGBB2 teeth GGGGG3\n\
salet BBBYY1 their GYYBB2 tenth GGGGG3\n\
salet BBBYY1 their YBYBB2 empty GGGGG3\n\
salet BBBYY1 their YBYBB2 empty YBBGB3 quote GGGGG4\n\
salet BBBYY1 their YBYBY2 entry GGGGG3\n\
salet BBBYY1 their YBYBY2 entry YBYYB3 route GGGGG4\n\
salet BBBYY1 their YBYYB2 quite BYGGG3 unite GGGGG4\n\
salet BBBYY1 their YBYYB2 quite GGGGG3\n\
salet BBBYY1 their YBYYY2 write GGGGG3\n\
salet BBBYY1 their YYYBB2 depth BGBYG3 fetch GGGGG4\n\
salet BBBYY1 their YYYBB2 depth GGGGG3\n\
salet BBGBB1 bulky BBGBB2 color GGGGG3\n\
salet BBGBB1 bulky BBGBG2 jolly GGGGG3\n\
salet BBGBB1 bulky BBGBY2 nylon GGGGG3\n\
salet BBGBB1 bulky GGGGG2\n\
salet BBGBG1 pilot GGGGG2\n\
salet BBGBY1 tulip GGGGG2\n\
salet BBGGB1 ruler GGGGG2\n\
salet BBGYB1 belly BGGBB2 melon GGGGG3\n\
salet BBGYB1 belly BGGGB2 hello GGGGG3\n\
salet BBGYB1 belly BGGGG2 jelly GGGGG3\n\
salet BBGYB1 belly GGGBB2 below GGGGG3\n\
salet BBGYB1 belly GGGGG2\n\
salet BBYBB1 could BBBGB2 grill BBYGB3 imply GGGGG4\n\
salet BBYBB1 could BBBGB2 grill GGGGG3\n\
salet BBYBB1 could BBBGY2 drill GGGGG3\n\
salet BBYBB1 could BBBYB2 blink BYGGB3 lying GGGGG4\n\
salet BBYBB1 could BBBYB2 blink GGGGG3\n\
salet BBYBB1 could BBBYG2 blind GGGGG3\n\
salet BBYBB1 could BBGYB2 bluff GGGGG3\n\
salet BBYBB1 could BBGYB2 bluff YGGBB3 plumb GGGGG4\n\
salet BBYBB1 could BBGYG2 fluid GGGGG3\n\
salet BBYBB1 could BBYGG2 build GGGGG3\n\
salet BBYBB1 could BBYYB2 pupil GGGGG3\n\
salet BBYBB1 could BGBGG2 world GGGGG3\n\
salet BBYBB1 could BGBYB2 lorry GGGGG3\n\
salet BBYBB1 could BGGGG2 would GGGGG3\n\
salet BBYBB1 could BYBGY2 droll GGGGG3\n\
salet BBYBB1 could BYBYB2 bloom BGGBB3 glory GGGGG4\n\
salet BBYBB1 could BYBYB2 bloom BGGGB3 floor GGGGG4\n\
salet BBYBB1 could BYBYB2 bloom GGGBB3 blown GGGGG4\n\
salet BBYBB1 could BYBYB2 bloom GGGGG3\n";

/// Part 2 of the decision table of the hard rules: every guess agrees with all placements seen so far.
pub const HARD_SECOND: &'static str = "\
salet BBYBB1 could BYBYG2 blond BGGBG3 flood GGGGG4\n\
salet BBYBB1 could BYBYG2 blond GGGBG3 blood GGGGG4\n\
salet BBYBB1 could BYBYG2 blond GGGGG3\n\
salet BBYBB1 could BYYYB2 flour GGGGG3\n\
salet BBYBB1 could GBBGB2 chill GGGGG3\n\
salet BBYBB1 could GBBGG2 child GGGGG3\n\
salet BBYBB1 could GBBYB2 click GGGBB3 cliff GGGBB4 climb GGGBB5 cling GGGGG6\n\
salet BBYBB1 could GBBYB2 click GGGBB3 cliff GGGBB4 climb GGGGG5\n\
salet BBYBB1 could GBBYB2 click GGGBB3 cliff GGGGG4\n\
salet BBYBB1 could GBBYB2 click GGGGG3\n\
salet BBYBB1 could GGGGG2\n\
salet BBYBB1 could GYBYB2 clock GGGBB3 clown GGGGG4\n\
salet BBYBB1 could GYBYB2 clock GGGGG3\n\
salet BBYBB1 could GYYYG2 cloud GGGGG3\n\
salet BBYBB1 could YBGYB2 pluck GGGGG3\n\
salet BBYBB1 could YBYYB2 lucky GGGGG3\n\
salet BBYBB1 could YBYYB2 lucky GGYBB3 lunch GGGGG4\n\
salet BBYBB1 could YGBYB2 logic GGGGG3\n\
salet BBYBB1 could YYBYB2 block BGGGG3 flock GGGGG4\n\
salet BBYBB1 could YYBYB2 block GGGGG3\n\
salet BBYBG1 blunt BYBBG2 light GGBBG3 limit GGGGG4\n\
salet BBYBG1 blunt BYBBG2 light GGGGG3\n\
salet BBYBG1 blunt BYYBG2 guilt BGGGG3 quilt GGGGG4\n\
salet BBYBG1 blunt BYYBG2 guilt GGGGG3\n\
salet BBYBG1 blunt GGGBG2 blurt GGGGG3\n\
salet BBYBG1 blunt GGGGG2\n\
salet BBYBG1 blunt GYYBG2 built GGGGG3\n\
salet BBYBY1 truly GGGGG2\n\
salet BBYBY1 truly YBBYB2 cloth GGGGG3\n\
salet BBYBY1 truly YBYYB2 until GGGGG3\n\
salet BBYGB1 lever GBBGB2 linen GGGGG3\n\
salet BBYGB1 lever GBBGG2 lower GGGGG3\n\
salet BBYGB1 lever GBGGG2 liver GBGGG3 lover GGGGG4\n\
salet BBYGB1 lever GBGGG2 liver GGGGG3\n\
salet BBYGB1 lever GGGGB2 level GGGGG3\n\
salet BBYGB1 lever GGGGG2\n\
salet BBYGB1 lever YBBGB2 model BBBGG3 pixel GGGGG4\n\
salet BBYGB1 lever YBBGB2 model GGGGG3\n\
salet BBYGB1 lever YBBGY2 cruel GGGGG3\n\
salet BBYGB1 lever YBGGB2 novel GGGGG3\n\
salet BBYGB1 lever YGBGB2 jewel GGGGG3\n\
salet BBYGB1 lever YGBGY2 rebel GGGGG3\n\
salet BBYGB1 lever YYBGB2 bleed BYGGB3 wheel GGGGG4\n\
salet BBYGB1 lever YYBGB2 bleed GGGGG3\n\
salet BBYGB1 lever YYBGG2 elder GGGGG3\n\
salet BBYGG1 fleet GGGGG2\n\
salet BBYGY1 hotel BGYGG2 towel GGGGG3\n\
salet BBYGY1 hotel GGGGG2\n\
salet BBYYB1 olive BGBBY2 blend BGGBB3 clerk GGGGG4\n\
salet BBYYB1 olive BGBBY2 blend GGGGG3\n\
salet BBYYB1 olive BYBBG2 cycle BBGGG3 uncle GGGGG4\n\
salet BBYYB1 olive BYBBG2 cycle GGGGG3\n\
salet BBYYB1 olive BYBBY2 newly BGBGG3 reply GGGGG4\n\
salet BBYYB1 olive BYBBY2 newly GGGGG3\n\
salet BBYYB1 olive BYGBG2 exile BBGGG3 while GGGGG4\n\
salet BBYYB1 olive BYGBG2 exile GGGGG3\n\
salet BBYYB1 olive BYYBG2 rifle GGGGG3\n\
salet BBYYB1 olive BYYBY2 field BGGGG3 yield GGGGG4\n\
salet BBYYB1 olive BYYBY2 field GGGGG3\n\
salet BBYYB1 olive BYYYY2 devil GGGGG3\n\
salet BBYYB1 olive GGGGG2\n\
salet BBYYB1 olive YGBBG2 globe GGGGG3\n\
salet BBYYB1 olive YGBBY2 elbow GGGGG3\n\
salet BBYYB1 olive YGBGG2 glove GGGGG3\n\
salet BBYYB1 olive YYBBG2 lodge GGGGG3\n\
salet BBYYB1 olive YYBBG2 lodge YGBBG3 noble GGGGG4\n\
salet BBYYB1 olive YYBBG2 lodge YYBBG3 whole GGGGG4\n\
salet BBYYB1 olive YYBBY2 lemon GGGGG3\n\
salet BBYYG1 elect GGGGG2\n\
salet BBYYY1 elite BGBGG2 flute GGGGG3\n\
salet BBYYY1 elite BYYYG2 title GGGGG3\n\
salet BBYYY1 elite GGGGG2\n\
salet BGBBB1 candy BGBBB2 karma BGYBB3 vapor GGGGG4\n\
salet BGBBB1 candy BGBBB2 karma BGYYB3 major GGGGG4\n\
salet BGBBB1 candy BGBBB2 karma GGGGG3\n\
salet BGBBB1 candy BGBBG2 fairy BGBBG3 happy GGGGG4\n\
salet BGBBB1 candy BGBBG2 fairy BGBGG3 marry GGGGG4\n\
salet BGBBB1 candy BGBBG2 fairy GGGGG3\n\
salet BGBBB1 candy BGBBY2 kayak BGGBB3 mayor GGGGG4\n\
salet BGBBB1 candy BGBBY2 kayak GGGGG3\n\
salet BGBBB1 candy BGBYB2 radar GGGBB3 radio GGGGG4\n\
salet BGBBB1 candy BGBYB2 radar GGGGG3\n\
salet BGBBB1 candy BGBYB2 radar GGYBB3 rapid GGGGG4\n\
salet BGBBB1 candy BGBYG2 dairy GGGGG3\n\
salet BGBBB1 candy BGGBB2 mango GGGBY3 manor GGGGG4\n\
salet BGBBB1 candy BGGBB2 mango GGGGG3\n\
salet BGBBB1 candy BGYBB2 wagon GGGGG3\n\
salet BGBBB1 candy BGYBG2 rainy GGGGG3\n\
salet BGBBB1 candy GGBBB2 cargo GGGGG3\n\
salet BGBBB1 candy GGBBG2 carry GGGGG3\n\
salet BGBBB1 candy GGGGG2\n\
salet BGBBB1 candy GGYBB2 cabin GGGGG3\n\
salet BGBBB1 candy YGBBB2 magic GGBBY3 march GGGGG4\n\
salet BGBBB1 candy YGBBB2 magic GGGGG3\n\
salet BGBBB1 candy YGGBB2 panic BGGBY3 ranch GGGGG4\n\
salet BGBBB1 candy YGGBB2 panic GGGGG3\n\
salet BGBBB1 candy YGGBG2 fancy GGGGG3\n\
salet BGBBB1 candy YGYBB2 bacon GGGGG3\n\
salet BGBBG1 faint BGBBG2 yacht GGGGG3\n\
salet BGBBG1 faint BGBGG2 haunt GGGGG3\n\
salet BGBBG1 faint BGGGG2 paint GGGGG3\n\
salet BGBBG1 faint BGYBG2 habit GGGGG3\n\
salet BGBBG1 faint GGGGG2\n\
salet BGBBY1 match BGGBB2 ratio GGGGG3\n\
salet BGBBY1 match BGGGG2 batch BGGGG3 catch BGGGG4 hatch BGGGG5 patch BGGGG6 watch GGGGG7\n\
salet BGBBY1 match BGGGG2 batch BGGGG3 catch BGGGG4 hatch BGGGG5 patch GGGGG6\n\
salet BGBBY1 match BGGGG2 batch BGGGG3 catch BGGGG4 hatch GGGGG5\n\
salet BGBBY1 match BGGGG2 batch BGGGG3 catch GGGGG4\n\
salet BGBBY1 match BGGGG2 batch GGGGG3\n\
salet BGBBY1 match BGYBB2 party GGGGG3\n\
salet BGBBY1 match BGYBG2 faith GGGGG3\n\
salet BGBBY1 match GGGGG2\n\
salet BGBBY1 match YGGBB2 datum GGGGG3\n\
salet BGBGB1 maker BGBGB2 haven GGGGG3\n\
salet BGBGB1 maker BGBGG2 eager BGBGG3 paper GGGGG4\n\
salet BGBGB1 maker BGBGG2 eager GGGGG3\n\
salet BGBGB1 maker BGGGG2 baker GGGGG3\n\
salet BGBGB1 maker GGGGG2\n\
salet BGBGB1 maker YGBGB2 famed GGGGG3\n\
salet BGBGG1 facet GGGGG2\n\
salet BGBGY1 eaten BGGGB2 water GGGGG3\n\
salet BGBGY1 eaten BGYGG2 taken GGGGG3\n\
salet BGBGY1 eaten GGGGG2\n\
salet BGBYB1 canoe BGBBG2 badge GGGGG3\n\
salet BGBYB1 canoe BGGBG2 range GGGGG3\n\
salet BGBYB1 canoe BGYBG2 naive GGGGG3\n\
salet BGBYB1 canoe GGGGG2\n\
salet BGBYB1 canoe YGGBG2 dance GGGGG3\n\
salet BGBYY1 earth GGGGG2\n\
salet BGGBB1 rally BGGBB2 valid GGGGG3\n\
salet BGGBB1 rally GGGGG2\n\
salet BGGYB1 value GGGBG2 valve GGGGG3\n\
salet BGGYB1 value GGGGG2\n\
salet BGYBB1 badly BGBYB2 laugh GGGGG3\n\
salet BGYBB1 badly BGBYB2 laugh YGBBB3 naval GGGGG4\n\
salet BGYBB1 badly BGYGG2 daily GGGGG3\n\
salet BGYBB1 badly GGGGG2\n\
salet BGYBB1 badly YGBYB2 labor GGGGG3\n\
salet BGYBG1 fault BGGGG2 vault GGGGG3\n\
salet BGYBG1 fault GGGGG2\n\
salet BGYBY1 fatal BGGBY2 latch GGGGG3\n\
salet BGYBY1 fatal GGGGG2\n\
salet BGYGB1 bagel BGBGG2 camel BGBGG3 panel GGGGG4\n\
salet BGYGB1 bagel BGBGG2 camel GGGGG3\n\
salet BGYGB1 bagel BGBGY2 layer GGGGG3\n\
salet BGYGB1 bagel BGGGY2 lager GGGGG3\n\
salet BGYGB1 bagel GGGGG2\n\
salet BGYGB1 bagel YGBGG2 label GGGGG3\n\
salet BGYGY1 later GGGGG2\n\
salet BGYYB1 cable BGBGG2 eagle BGBGG3 maple GGGGG4\n\
salet BGYYB1 cable BGBGG2 eagle GGGGG3\n\
salet BGYYB1 cable BGBGY2 early GGGGG3\n\
salet BGYYB1 cable BGBYG2 large GGGGG3\n\
salet BGYYB1 cable BGGGG2 fable GGGGG3\n\
salet BGYYB1 cable GGGGG2\n\
salet BGYYY1 table GGGGG2\n\
salet BYBBB1 grand BBGBB2 aback BBGGB3 coach GGGGG4\n\
salet BYBBB1 grand BBGBB2 aback BBGYB3 champ GGGGG4\n\
salet BYBBB1 grand BBGBB2 aback GGGGG3\n\
salet BYBBB1 grand BBGGB2 piano GGGGG3\n\
salet BYBBB1 grand BBGYB2 chain GGGGG3\n\
salet BYBBB1 grand BBYBB2 affix GGGGG3\n\
salet BYBBB1 grand BBYBB2 affix YBBBB3 cocoa GGGGG4\n\
salet BYBBB1 grand BBYBB2 affix YBBYB3 pizza GGGGG4\n\
salet BYBBB1 grand BBYBG2 avoid GGGGG3\n\
salet BYBBB1 grand BBYBY2 audio GGGGG3\n\
salet BYBBB1 grand BBYYB2 annoy GGGGG3\n\
salet BYBBB1 grand BBYYB2 annoy YYBBB3 human GGGGG4\n\
salet BYBBB1 grand BBYYB2 annoy YYBYB3 woman GGGGG4\n\
salet BYBBB1 grand BBYYB2 annoy YYGBB3 ninja GGGGG4\n\
salet BYBBB1 grand BBYYY2 admin GGGGG3\n\
salet BYBBB1 grand BGGBB2 crack GGGBB3 crazy GGGGG4\n\
salet BYBBB1 grand BGGBB2 crack GGGGG3\n\
salet BYBBB1 grand BGGBG2 fraud GGGGG3\n\
salet BYBBB1 grand BGGBY2 drama GGGGG3\n\
salet BYBBB1 grand BGGGB2 frank GGGGG3\n\
salet BYBBB1 grand BGGGG2 brand GGGGG3\n\
salet BYBBB1 grand BGGGY2 drank GGGGG3\n\
salet BYBBB1 grand BGGYB2 brain GGGGG3\n\
salet BYBBB1 grand BGGYY2 drain GGGGG3\n\
salet BYBBB1 grand BGYBB2 armor GGBBY3 array GGGGG4\n\
salet BYBBB1 grand BGYBB2 armor GGBGY3 arrow GGGGG4\n\
salet BYBBB1 grand BGYBB2 armor GGGGG3\n\
salet BYBBB1 grand BGYBB2 armor GGYYB3 aroma GGGGG4\n\
salet BYBBB1 grand BGYBG2 broad GGGGG3\n\
salet BYBBB1 grand BGYYB2 urban GGGGG3\n\
salet BYBBB1 grand BYGBB2 chair GGGBY3 charm GGGGG4\n\
salet BYBBB1 grand BYGBB2 chair GGGGG3\n\
salet BYBBB1 grand BYGBG2 award BBGGG3 board GGGGG4\n\
salet BYBBB1 grand BYGBG2 award GGGGG3\n\
salet BYBBB1 grand BYGBY2 diary GBGGB3 dwarf GGGGG4\n\
salet BYBBB1 grand BYGBY2 diary GGGGG3\n\
salet BYBBB1 grand BYYBG2 acrid GGGGG3\n\
salet BYBBB1 grand BYYYB2 acorn GBYYG3 apron GGGGG4\n\
salet BYBBB1 grand BYYYB2 acorn GGGGG3\n\
salet BYBBB1 grand GGGBB2 graph GGGGG3\n\
salet BYBBB1 grand GGGGG2\n\
salet BYBBB1 grand GGGYB2 grain GGGGG3\n\
salet BYBBB1 grand GGYYB2 groan GGGGG3\n\
salet BYBBB1 grand GYGBG2 guard GGGGG3\n\
salet BYBBB1 grand YBGYB2 again GGGGG3\n\
salet BYBBB1 grand YBYGB2 aging GBBGG3 among GGGGG4\n\
salet BYBBB1 grand YBYGB2 aging GGBGB3 agony GGGGG4\n\
salet BYBBB1 grand YBYGB2 aging GGGGG3\n\
salet BYBBB1 grand YGYYB2 organ GGGGG3\n\
salet BYBBB1 grand YYYBB2 cigar GGGGG3\n\
salet BYBBB1 grand YYYYB2 angry GGGGG3\n\
salet BYBBG1 trait BBGBG2 adapt BBGBG3 chant GGGGG4\n\
salet BYBBG1 trait BBGBG2 adapt GGGGG3\n\
salet BYBBG1 trait BBGYG2 giant GGGGG3\n\
salet BYBBG1 trait BBYBG2 about GBGBG3 adopt GGGGG4\n\
salet BYBBG1 trait BBYBG2 about GGGGG3\n\
salet BYBBG1 trait BBYGG2 admit GGGGG3\n\
salet BYBBG1 trait BBYGG2 admit GYBGG3 audit GGGGG4\n\
salet BYBBG1 trait BGGBG2 craft BGGGG3 draft GGGGG4\n\
salet BYBBG1 trait BGGBG2 craft GGGGG3\n\
salet BYBBG1 trait BYGBG2 chart GGGGG3\n\
salet BYBBG1 trait BYYBG2 abort GGGGG3\n\
salet BYBBG1 trait GGGGG2\n\
salet BYBBY1 track GBGBG2 thank GGGGG3\n\
salet BYBBY1 track GBYBB2 today GGGGG3\n\
salet BYBBY1 track GGGBB2 train GGGGG3\n\
salet BYBBY1 track GGGGG2\n\
salet BYBBY1 track YBYBB2 quota GGGGG3\n\
salet BYBBY1 track YBYYB2 attic GGGGG3\n\
salet BYBBY1 track YYYYB2 actor GGGGG3\n\
salet BYBGB1 amber GBBGB2 annex GGGGG3\n\
salet BYBGB1 amber GBBGG2 anger GGGGG3\n\
salet BYBGB1 amber GBBGY2 agree GGGGG3\n\
salet BYBGB1 amber GBGGB2 abbey GGGGG3\n\
salet BYBGB1 amber GGGGG2\n\
salet BYBGY1 after GGGGG2\n\
salet BYBYB1 beard BGGBB2 heavy BGGBB3 peace GGGGG4\n\
salet BYBYB1 beard BGGBB2 heavy BGGGB3 weave GGGGG4\n\
salet BYBYB1 beard BGGBB2 heavy GGGGG3\n\
salet BYBYB1 beard BGGBB2 heavy YGGBB3 peach GGGGG4\n\
salet BYBYB1 beard BGGGB2 weary GGGGG3\n\
salet BYBYB1 beard BGGYB2 reach GGGGG3\n\
salet BYBYB1 beard BGGYY2 ready GGGGG3\n\
salet BYBYB1 beard BGYBY2 decay GGGGG3\n\
salet BYBYB1 beard BGYBY2 decay YGBYB3 media GGGGG4\n\
salet BYBYB1 beard BYGBB2 awake BBGBG3 image GGGGG4\n\
salet BYBYB1 beard BYGBB2 awake GGGGG3\n\
salet BYBYB1 beard BYGBY2 adage GGGGG3\n\
salet BYBYB1 beard BYGGB2 aware GGGGG3\n\
salet BYBYB1 beard BYGYB2 grace BGGBG3 frame GGGGG4\n\
salet BYBYB1 beard BYGYB2 grace BGGYG3 crane GGGGG4\n\
salet BYBYB1 beard BYGYB2 grace GGGBG3 grape GGGBG4 grave GGGGG5\n\
salet BYBYB1 beard BYGYB2 grace GGGBG3 grape GGGGG4\n\
salet BYBYB1 beard BYGYB2 grace GGGGG3\n\
salet BYBYB1 beard BYGYY2 grade GGGGG3\n\
salet BYBYB1 beard BYYBB2 anime GGGGG3\n\
salet BYBYB1 beard BYYBB2 anime YBBBY3 cheap GGGGG4\n\
salet BYBYB1 beard BYYBB2 anime YYBBY3 ocean GGGGG4\n\
salet BYBYB1 beard BYYBG2 ahead GBGBG3 amend GGGGG4\n\
salet BYBYB1 beard BYYBG2 ahead GGGGG3\n\
salet BYBYB1 beard BYYGB2 opera GGGGG3\n\
salet BYBYB1 beard BYYGY2 adore GGGGG3\n\
salet BYBYB1 beard BYYYB2 arena GGGGG3\n\
salet BYBYB1 beard BYYYB2 arena GGYBB3 argue GGGGG4\n\
salet BYBYB1 beard BYYYB2 arena YGGBB3 cream GGGGG4\n\
salet BYBYB1 beard BYYYG2 dread GGGGG3\n\
salet BYBYB1 beard BYYYY2 dream GGGGG3\n\
salet BYBYB1 beard GGGBB2 beach GGGGG3\n\
salet BYBYB1 beard GGGGG2\n\
salet BYBYB1 beard GGYBB2 began GGGGG3\n\
salet BYBYB1 beard GYGYB2 brake GGGBG3 brave GGGGG4\n\
salet BYBYB1 beard GYGYB2 brake GGGGG3\n\
salet BYBYB1 beard GYYYB2 break GGGGG3\n\
salet BYBYB1 beard GYYYG2 bread GGGGG3\n\
salet BYBYB1 beard YGYGB2 zebra GGGGG3\n\
salet BYBYB1 beard YYYBB2 above GGGGG3\n\
salet BYBYB1 beard YYYBY2 abide GGGGG3\n\
salet BYBYB1 beard YYYBY2 abide GYBYG3 adobe GGGGG4\n\
salet BYBYG1 great BBGGG2 cheat BGGGG3 wheat GGGGG4\n\
salet BYBYG1 great BBGGG2 cheat GGGGG3\n\
salet BYBYG1 great BBGYG2 adept GGGGG3\n\
salet BYBYG1 great BBYYG2 exact GGGGG3\n\
salet BYBYG1 great BGGGG2 treat GGGGG3\n\
salet BYBYG1 great BYYYG2 heart BGGYG3 react GGGGG4\n\
salet BYBYG1 great BYYYG2 heart GGGGG3\n\
salet BYBYG1 great GGGGG2\n\
salet BYBYG1 great YBGYG2 agent GGGGG3\n\
salet BYBYY1 acute GBBGG2 abate GGGGG3\n\
salet BYBYY1 acute GGGGG2\n\
salet BYBYY1 acute YBBGY2 death GGGGG3\n\
salet BYBYY1 acute YBBYG2 trade GGGGG3\n\
salet BYBYY1 acute YBBYY2 extra GGGGG3\n\
salet BYBYY1 acute YYBGG2 crate GGGGG3\n\
salet BYBYY1 acute YYBYG2 trace GGGGG3\n\
salet BYBYY1 acute YYBYY2 teach GGGGG3\n\
salet BYGBB1 allow GGGGB2 alloy GGGGG3\n\
salet BYGBB1 allow GGGGG2\n\
salet BYGBB1 allow YBGYB2 polar GGGGG3\n\
salet BYGYB1 relax GGGGG2\n\
salet BYGYY1 delta GGGGG2\n\
salet BYYBB1 claim BGGBB2 bland BGGBB3 plaza GGGGG4\n\
salet BYYBB1 claim BGGBB2 bland GGGGB3 blank GGGGG4\n\
salet BYYBB1 claim BGGBB2 bland GGGGG3\n\
salet BYYBB1 claim BGGBG2 alarm GGGGG3\n\
salet BYYBB1 claim BGGGB2 plain GGGGG3\n";

/// Part 3 of the decision table of the hard rules: every guess agrees with all placements seen so far.
pub const HARD_THIRD: &'static str = "\
salet BYYBB1 claim BGYBB2 along GGBBB3 alpha GGGGG4\n\
salet BYYBB1 claim BGYBB2 along GGGBB3 aloud GGGGG4\n\
salet BYYBB1 claim BGYBB2 along GGGGG3\n\
salet BYYBB1 claim BGYBG2 album GGGGG3\n\
salet BYYBB1 claim BGYYB2 align GGGGG3\n\
salet BYYBB1 claim BYGGB2 avail GGGGG3\n\
salet BYYBB1 claim BYYBB2 loyal BBBGG3 rural GGGGG4\n\
salet BYYBB1 claim BYYBB2 loyal BBBYG3 awful GGGGG4\n\
salet BYYBB1 claim BYYBB2 loyal BGGGG3 royal GGGGG4\n\
salet BYYBB1 claim BYYBB2 loyal GBBGB3 lunar GGGGG4\n\
salet BYYBB1 claim BYYBB2 loyal GGGGG3\n\
salet BYYBB1 claim BYYBB2 loyal YBYYB3 apply GGGGG4\n\
salet BYYBB1 claim BYYBY2 moral GGGGG3\n\
salet BYYBB1 claim BYYYB2 rival BGBGG3 final GGGGG4\n\
salet BYYBB1 claim BYYYB2 rival GGGGG3\n\
salet BYYBB1 claim BYYYB2 rival YGYGG3 viral GGGGG4\n\
salet BYYBB1 claim GGGBY2 clamp GGGGG3\n\
salet BYYBB1 claim GGGGG2\n\
salet BYYBB1 claim GYGBB2 chalk GGGGG3\n\
salet BYYBB1 claim GYYBB2 coral GGGGG3\n\
salet BYYBB1 claim YGGBB2 black GGGGG3\n\
salet BYYBB1 claim YYYBB2 local BGGGG3 vocal GGGGG4\n\
salet BYYBB1 claim YYYBB2 local GGGGG3\n\
salet BYYBG1 aloft GGGGG2\n\
salet BYYBG1 aloft GYBBG2 adult GGGGG3\n\
salet BYYBG1 aloft YGBBG2 plant GGGGG3\n\
salet BYYBG1 aloft YGGYG2 float GGGGG3\n\
salet BYYBY1 total BBGGG2 vital GGGGG3\n\
salet BYYBY1 total BBGGY2 altar GGGGG3\n\
salet BYYBY1 total BBGYY2 ultra GGGGG3\n\
salet BYYBY1 total GBBGG2 trial GGGGG3\n\
salet BYYBY1 total GBBYG2 trail GGGGG3\n\
salet BYYBY1 total GGGGG2\n\
salet BYYBY1 total YYBYG2 atoll GGGGG3\n\
salet BYYGB1 alien GGGGG2\n\
salet BYYGB1 alien GYBGY2 angel GGGGG3\n\
salet BYYGY1 alter GGGGG2\n\
salet BYYYB1 plane BGGBG2 blade BGGBG3 flame GGGGG4\n\
salet BYYYB1 plane BGGBG2 blade GGGBG3 blame GGGBG4 blaze GGGGG5\n\
salet BYYYB1 plane BGGBG2 blade GGGBG3 blame GGGGG4\n\
salet BYYYB1 plane BGGBG2 blade GGGGG3\n\
salet BYYYB1 plane BGYBG2 alike GGGBG3 alive GGGGG4\n\
salet BYYYB1 plane BGYBG2 alike GGGGG3\n\
salet BYYYB1 plane BGYBY2 bleak BGGGB3 clear GGGGG4\n\
salet BYYYB1 plane BGYBY2 bleak GGGGG3\n\
salet BYYYB1 plane BGYGG2 alone GGGGG3\n\
salet BYYYB1 plane BGYYY2 clean GGGGG3\n\
salet BYYYB1 plane BYGBG2 leave GGGGG3\n\
salet BYYYB1 plane BYGBG2 leave YBGBG3 whale GGGGG4\n\
salet BYYYB1 plane BYGBY2 realm GGGGG3\n\
salet BYYYB1 plane BYGYY2 learn GGGGG3\n\
salet BYYYB1 plane BYYBG2 agile GBBGG3 amble GGGGG4\n\
salet BYYYB1 plane BYYBG2 agile GGGGG3\n\
salet BYYYB1 plane BYYBY2 medal BGBGG3 legal GGGGG4\n\
salet BYYYB1 plane BYYBY2 medal BYBGG3 equal GGGGG4\n\
salet BYYYB1 plane BYYBY2 medal BYYGG3 ideal GGGGG4\n\
salet BYYYB1 plane BYYBY2 medal GGGGG3\n\
salet BYYYB1 plane BYYYG2 angle GGBGG3 ankle GGGGG4\n\
salet BYYYB1 plane BYYYG2 angle GGGGG3\n\
salet BYYYB1 plane GGGBG2 place GGGGG3\n\
salet BYYYB1 plane GGGGG2\n\
salet BYYYB1 plane GGYBY2 plead GGGGG3\n\
salet BYYYB1 plane GYGBY2 pearl GGGGG3\n\
salet BYYYB1 plane GYYBY2 pedal GGGGG3\n\
salet BYYYB1 plane YYYBG2 ample GBGGG3 apple GGGGG4\n\
salet BYYYB1 plane YYYBG2 ample GGGGG3\n\
salet BYYYG1 alert GGGGG2\n\
salet BYYYG1 alert YYYBG2 dealt GGGGG3\n\
salet BYYYY1 metal BYYYY2 plate GGGGG3\n\
salet BYYYY1 metal GGGGG2\n\
salet GBBBB1 sound GBBGB2 swing GGGGG3\n\
salet GBBBB1 sound GBYBB2 shrug GGGGG3\n\
salet GBBBB1 sound GBYGB2 sunny GGGGG3\n\
salet GBBBB1 sound GGBBB2 sorry GGGGG3\n\
salet GBBBB1 sound GGGGG2\n\
salet GBBBB1 sound GYBBB2 shock GGGGG3\n\
salet GBBBB1 sound GYBBG2 sword GGGGG3\n\
salet GBBBB1 sound GYBYB2 spoon GGGGG3\n\
salet GBBBG1 shirt GBBBG2 scout GGGGG3\n\
salet GBBBG1 shirt GBBGG2 sport GGGGG3\n\
salet GBBBG1 shirt GBGBG2 swift GGGGG3\n\
salet GBBBG1 shirt GBGGG2 skirt GGGGG3\n\
salet GBBBG1 shirt GGBBG2 shout GGGGG3\n\
salet GBBBG1 shirt GGBGG2 short GGGGG3\n\
salet GBBBG1 shirt GGGBG2 shift GGGGG3\n\
salet GBBBG1 shirt GGGGG2\n\
salet GBBBG1 shirt GYYBG2 sight GGGGG3\n\
salet GBBBY1 story GGBBB2 stick GGBBB3 stuff GGGGG4\n\
salet GBBBY1 story GGBBB2 stick GGBGG3 stuck GGGGG4\n\
salet GBBBY1 story GGBBB2 stick GGGBB3 stiff GGGBB4 sting GGGGG5\n\
salet GBBBY1 story GGBBB2 stick GGGBB3 stiff GGGGG4\n\
salet GBBBY1 story GGBBB2 stick GGGGG3\n\
salet GBBBY1 story GGBBG2 study GGGGG3\n\
salet GBBBY1 story GGBYB2 strip GGGGG3\n\
salet GBBBY1 story GGGBB2 stock GGGBB3 stood GGGGG4\n\
salet GBBBY1 story GGGBB2 stock GGGGG3\n\
salet GBBBY1 story GGGGB2 storm GGGGG3\n\
salet GBBBY1 story GGGGG2\n\
salet GBBBY1 story GYYBB2 south GGGGG3\n\
salet GBBGB1 sheep GBBGB2 screw GGGGG3\n\
salet GBBGB1 sheep GBBGY2 super GGGGG3\n\
salet GBBGB1 sheep GBGGG2 sweep GGGGG3\n\
salet GBBGB1 sheep GBGGY2 speed GGGGG3\n\
salet GBBGB1 sheep GBYGB2 seven GGGGG3\n\
salet GBBGB1 sheep GGGGB2 sheer GGGGG3\n\
salet GBBGB1 sheep GGGGG2\n\
salet GBBGG1 sweet GGGGG2\n\
salet GBBGY1 steep GGGGB2 steer GGGGG3\n\
salet GBBGY1 steep GGGGG2\n\
salet GBBYB1 score GBBBG2 shine GBBYG3 sense GGGGG4\n\
salet GBBYB1 score GBBBG2 shine GBGGG3 spine GGGGG4\n\
salet GBBYB1 score GBBBG2 shine GGGGG3\n\
salet GBBYB1 score GBBBY2 spend GGGGG3\n\
salet GBBYB1 score GBBYG2 serve GBGBG3 surge GGGGG4\n\
salet GBBYB1 score GBBYG2 serve GGGGG3\n\
salet GBBYB1 score GBGBG2 smoke GBGGG3 spoke GGGGG4\n\
salet GBBYB1 score GBGBG2 smoke GGGGG3\n\
salet GBBYB1 score GBGGG2 shore GGGGG3\n\
salet GBBYB1 score GGBBG2 scene GGGGG3\n\
salet GBBYB1 score GGGBG2 scope GGGGG3\n\
salet GBBYB1 score GGGGG2\n\
salet GBBYB1 score GYBBG2 since GGGGG3\n\
salet GBBYB1 score GYBBG2 since GYBGG3 spice GGGGG4\n\
salet GBBYG1 scent GGGGG2\n\
salet GBBYY1 stone GGGBG2 store GGGBG3 stove GGGGG4\n\
salet GBBYY1 stone GGGBG2 store GGGGG3\n\
salet GBBYY1 stone GGGGG2\n\
salet GBBYY1 stone GYBBG2 suite GGGGG3\n\
salet GBGBB1 silly GGGGG2\n\
salet GBGBB1 silly GYGBB2 solid GGGGG3\n\
salet GBGYB1 solve GGGGG2\n\
salet GBYBB1 skill GBBGB2 scold GGGGG3\n\
salet GBYBB1 skill GBGGG2 spill GGGGG3\n\
salet GBYBB1 skill GGBGG2 skull GGGGG3\n\
salet GBYBB1 skill GGGGG2\n\
salet GBYBY1 still GGBBG2 stool GGGGG3\n\
salet GBYBY1 still GGGGG2\n\
salet GBYGB1 sleep GGGGG2\n\
salet GBYGY1 steel GGGGG2\n\
salet GBYYB1 spell GBGGB2 shelf GGGGG3\n\
salet GBYYB1 spell GBGGG2 shell GBGGG3 smell GGGGG4\n\
salet GBYYB1 spell GBGGG2 shell GGGGG3\n\
salet GBYYB1 spell GBYGB2 smile GGGGG3\n\
salet GBYYB1 spell GBYYB2 slice GGGBG3 slide GGGGG4\n\
salet GBYYB1 spell GBYYB2 slice GGGGG3\n\
salet GBYYB1 spell GGGGG2\n\
salet GBYYB1 spell GYYYB2 slope GGGGG3\n\
salet GBYYY1 style GGGGG2\n\
salet GGBBG1 saint GGGGG2\n\
salet GGBYB1 sauce GGGGG2\n\
salet GGGBB1 salad GGGGG2\n\
salet GGGBY1 salty GGGGG2\n\
salet GYBBB1 scrap GBBGB2 squad GGGGG3\n\
salet GYBBB1 scrap GBBYG2 swamp GGGGG3\n\
salet GYBBB1 scrap GBGGY2 spray GGGGG3\n\
salet GYBBB1 scrap GBYGB2 sugar GGGGG3\n\
salet GYBBB1 scrap GBYYB2 shark GGGGG3\n\
salet GYBBB1 scrap GBYYG2 sharp GGGGG3\n\
salet GYBBB1 scrap GBYYY2 spark GGGGG3\n\
salet GYBBB1 scrap GGGGG2\n\
salet GYBBB1 scrap GGYYB2 scarf GGGGG3\n\
salet GYBBB1 scrap GYBYB2 snack GGGGG3\n\
salet GYBBG1 smart GBGGG2 start GGGGG3\n\
salet GYBBG1 smart GGGGG2\n\
salet GYBBY1 stain GGGBB2 stack GGGBB3 staff GGGBB4 stamp GGGGG5\n\
salet GYBBY1 stain GGGBB2 stack GGGBB3 staff GGGGG4\n\
salet GYBBY1 stain GGGBB2 stack GGGGG3\n\
salet GYBBY1 stain GGGBY2 stand GGGGG3\n\
salet GYBBY1 stain GGGGB2 stair GGGGG3\n\
salet GYBBY1 stain GGGGG2\n\
salet GYBBY1 stain GGYBB2 straw GGGGG3\n\
salet GYBYB1 spare GBGBG2 shade GBGBG3 snake GGGGG4\n\
salet GYBYB1 spare GBGBG2 shade GGGBG3 shake GGGBG4 shame GGGGG5\n\
salet GYBYB1 spare GBGBG2 shade GGGBG3 shake GGGGG4\n\
salet GYBYB1 spare GBGBG2 shade GGGGG3\n\
salet GYBYB1 spare GBGGG2 scare GBGGG3 share GGGGG4\n\
salet GYBYB1 spare GBGGG2 scare GGGGG3\n\
salet GYBYB1 spare GBYBY2 sneak GGGGG3\n\
salet GYBYB1 spare GBYYY2 swear GGGGG3\n\
salet GYBYB1 spare GGGBG2 space GGGGG3\n\
salet GYBYB1 spare GGGGG2\n\
salet GYBYB1 spare GGYBY2 speak GGGGG3\n\
salet GYBYB1 spare GYGBG2 shape GGGGG3\n\
salet GYBYG1 sweat GGGGG2\n\
salet GYBYY1 stake GGGBG2 stage GGGBG3 stare GGGBG4 state GGGGG5\n\
salet GYBYY1 stake GGGBG2 stage GGGBG3 stare GGGGG4\n\
salet GYBYY1 stake GGGBG2 stage GGGGG3\n\
salet GYBYY1 stake GGGGG2\n\
salet GYBYY1 stake GGYBY2 steam GGGGG3\n\
salet GYBYY1 stake GGYYY2 steak GGGGG3\n\
salet GYGBB1 solar GGGGG2\n\
salet GYYBB1 shall GBGGG2 small GGGGG3\n\
salet GYYBB1 shall GGGGG2\n\
salet GYYYB1 scale GGGGG2\n\
salet GYYYY1 slate GGGGG2\n\
salet GYYYY1 slate GYGYG2 stale GGGGG3\n\
salet YBBBB1 cross BBBBG2 minus GGGGG3\n\
salet YBBBB1 cross BBYBG2 bonus GGGGG3\n\
salet YBBBB1 cross BGBGB2 brisk GGBGB3 brush GGGGG4\n\
salet YBBBB1 cross BGBGB2 brisk GGGGG3\n\
salet YBBBB1 cross BGGGG2 gross GGGGG3\n\
salet YBBBB1 cross BYBBG2 virus GGGGG3\n\
salet YBBBB1 cross BYBYB2 risky GGGGG3\n\
salet YBBBB1 cross GGBGB2 crisp GGBGB3 crush GGGGG4\n\
salet YBBBB1 cross GGBGB2 crisp GGGGG3\n\
salet YBBBB1 cross GGGGG2\n\
salet YBBBB1 cross YBBYB2 music GGGGG3\n\
salet YBBBB1 cross YBYBG2 focus GGGGG3\n\
salet YBBBG1 first BBBGG2 boost GGGGG3\n\
salet YBBBG1 first BBGGG2 burst BBGGG3 worst GGGGG4\n\
salet YBBBG1 first BBGGG2 burst GGGGG3\n\
salet YBBBG1 first BBYGG2 trust GGGGG3\n\
salet YBBBG1 first BGBGG2 midst GGGGG3\n\
salet YBBBG1 first BGBYG2 visit GGGGG3\n\
salet YBBBG1 first BYBGG2 twist GGGGG3\n\
salet YBBBG1 first BYYGG2 wrist GGGGG3\n\
salet YBBBG1 first GBYGG2 frost GGGGG3\n\
salet YBBBG1 first GGGGG2\n\
salet YBBBY1 dusty BGGGG2 rusty GGGGG3\n\
salet YBBBY1 dusty BYYYB2 truss GGGGG3\n\
salet YBBBY1 dusty GGGGG2\n\
salet YBBGG1 upset GGGGG2\n\
salet YBBYB1 horse BBBGG2 dense GGGGG3\n\
salet YBBYB1 horse BBBGY2 guess GGGGG3\n\
salet YBBYB1 horse BBBYG2 issue GGGGG3\n\
salet YBBYB1 horse BBGGG2 nurse BBGGG3 verse GGGGG4\n\
salet YBBYB1 horse BBGGG2 nurse BGGGG3 purse GGGGG4\n\
salet YBBYB1 horse BBGGG2 nurse GGGGG3\n\
salet YBBYB1 horse BBYGG2 rinse GGGGG3\n\
salet YBBYB1 horse BBYGY2 dress BGGGG3 press GGGGG4\n\
salet YBBYB1 horse BBYGY2 dress GGGGG3\n\
salet YBBYB1 horse BGBGG2 goose BGBGG3 mouse BGBGG4 noise GGGGG5\n\
salet YBBYB1 horse BGBGG2 goose BGBGG3 mouse GGGGG4\n\
salet YBBYB1 horse BGBGG2 goose GGGGG3\n\
salet YBBYB1 horse BGGGG2 worse GGGGG3\n\
salet YBBYB1 horse GGBGG2 house GGGGG3\n\
salet YBBYB1 horse GGGGG2\n\
salet YBBYB1 horse YBBGY2 chess GGGGG3\n\
salet YBBYB1 horse YBYGY2 fresh GGGGG3\n\
salet YBBYB1 horse YYBGG2 chose BGGGG3 whose GGGGG4\n\
salet YBBYB1 horse YYBGG2 chose GGGGG3\n\
salet YBBYG1 guest BBGGG2 chest GGGGG3\n\
salet YBBYG1 guest BBYGG2 exist GGGGG3\n\
salet YBBYG1 guest BGGGG2 quest GGGGG3\n\
salet YBBYG1 guest GGGGG2\n\
salet YBBYY1 those GGGGG2\n\
salet YBGYB1 pulse GGGGG2\n\
salet YBYBB1 bliss GGBGB2 blush GGGGG3\n\
salet YBYBB1 bliss GGGGG2\n\
salet YBYYB1 bless BGGGB2 flesh GGGGG3\n\
salet YBYYB1 bless BGYGB2 close GGGGG3\n\
salet YBYYB1 bless BYYGB2 loose GGGGG3\n\
salet YBYYB1 bless GGGGG2\n\
salet YGBBB1 basic BGYBB2 harsh GGGGG3\n\
salet YGBBB1 basic GGGGB2 basin GGGGG3\n\
salet YGBBB1 basic GGGGG2\n\
salet YGBBG1 waist GGGGG2\n\
salet YGBBY1 hasty BGGGB2 pasta GGGGG3\n\
salet YGBBY1 hasty BGGGG2 nasty GGGGG3\n\
salet YGBBY1 hasty GGGGG2\n\
salet YGBYB1 cause BGBGG2 raise GGGGG3\n\
salet YGBYB1 cause BGGGG2 pause GGGGG3\n\
salet YGBYB1 cause GGGGG2\n\
salet YGBYY1 haste BGGGG2 taste BGGGG3 waste GGGGG4\n\
salet YGBYY1 haste BGGGG2 taste GGGGG3\n\
salet YGBYY1 haste GGGGG2\n\
salet YGGYB1 false GGGGG2\n\
salet YGYGB1 laser GGGGG2\n\
salet YYBBB1 chaos BBGBG2 grass GGGGG3\n\
salet YYBBB1 chaos BBGBY2 grasp GGGGG3\n\
salet YYBBB1 chaos BBYBG2 amiss GGGGG3\n\
salet YYBBB1 chaos BBYGY2 arson GGGGG3\n\
salet YYBBB1 chaos GGGGG2\n\
salet YYBBB1 chaos GYGBY2 crash GGGGG3\n\
salet YYBBG1 boast BGGGG2 coast BGGGG3 roast BGGGG4 toast GGGGG5\n\
salet YYBBG1 boast BGGGG2 coast BGGGG3 roast GGGGG4\n\
salet YYBBG1 boast BGGGG2 coast GGGGG3\n\
salet YYBBG1 boast GGGGG2\n\
salet YYBBY1 trash GGGGG2\n\
salet YYBGG1 asset GGGGG2\n\
salet YYBYB1 chase BBGGG2 abase GGGGG3\n\
salet YYBYB1 chase BBGYG2 usage GGGGG3\n\
salet YYBYB1 chase BBYGG2 arise GBBGG3 abuse GGGGG4\n\
salet YYBYB1 chase BBYGG2 arise GGBGG3 arose GGGGG4\n\
salet YYBYB1 chase BBYGG2 arise GGGGG3\n\
salet YYBYB1 chase BBYYG2 aside GGGGG3\n\
salet YYBYB1 chase BBYYY2 essay GGGGG3\n\
salet YYBYB1 chase BGGGG2 phase GGGGG3\n\
salet YYBYB1 chase GBGGG2 cease GGGGG3\n\
salet YYBYB1 chase GGGGG2\n\
salet YYBYG1 beast BGGGG2 feast GGGGG3\n\
salet YYBYG1 beast GGGGG2\n\
salet YYYBB1 clash BGGGB2 glass GGGGG3\n\
salet YYYBB1 clash BGGGG2 flash GGGGG3\n\
salet YYYBB1 clash BYYYB2 usual GGGGG3\n\
salet YYYBB1 clash GGGGB2 class GGGGG3\n\
salet YYYBB1 clash GGGGG2\n\
salet YYYBG1 blast GGGGG2\n\
salet YYYYB1 aisle GGGGG2\n\
salet YYYYB1 aisle YBYYG2 lease GGGGG3\n\
salet YYYYG1 least GGGGG2\n";

} // verus!
