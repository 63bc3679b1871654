use vstd::prelude::*;

use crate::alphabet::Alphabet;
use crate::dict::Dictionary;
use crate::guess::{score, Guess};
use crate::letter_bank::{reported, LetterBank, ALPHABET_LENGTH};
use crate::placement::Placement;
use crate::word::Word;

verus! {

/// The number of guesses a player may make in one game.
pub const MAX_GUESSES: usize = 6;

/// Whether `g` is what guessing `w` against the solution `sol` gives.
pub open spec fn is_scored(g: Guess, sol: Seq<u8>, w: Word) -> bool {
    &&& g.spec_word() == w
    &&& g.spec_placements() == score(sol, w@)
    &&& (g is Correct <==> sol == w@)
}

/// A tracker that knows nothing yet.
pub open spec fn nothing_known() -> Seq<Option<Placement>> {
    Seq::new(ALPHABET_LENGTH as nat, |k: int| None::<Placement>)
}

/// Errors that may occur when making a guess.
#[derive(Debug, Clone, Copy, PartialEq, Eq)]
pub enum GameError {
    /// The word is not in the game's dictionary; no guess was spent on it.
    InvalidWord(Word),
}

/// The states a game may be in.
#[derive(Debug, Clone)]
pub enum Game {
    /// The game is in progress: the solution was not guessed and guesses are left.
    Playing(PlayingGame),
    /// The last word submitted was not accepted; the game is unchanged and in progress.
    Rejected(PlayingGame, GameError),
    /// The game is over: the solution was guessed or no guesses are left.
    Over(GameOutcome),
}

impl Game {
    /// The guesses made in the game so far.
    pub open spec fn spec_guesses(self) -> Seq<Guess> {
        match self {
            Game::Playing(p) => p.spec_guesses(),
            Game::Rejected(p, _) => p.spec_guesses(),
            Game::Over(o) => o.spec_guesses(),
        }
    }

    /// Starts a game whose solution is picked at random from `dict`.
    pub fn new<D: Dictionary>(dict: &D) -> (r: Game)
        ensures
            r matches Game::Playing(p) && dict.spec_is_solution(p.spec_solution()@)
                && dict.spec_contains(p.spec_solution()@) && p.spec_guesses().len() == 0,
    {
        Game::Playing(PlayingGame::new(dict))
    }
}

/// A game in progress: the player has not guessed the solution and has guesses left.
#[derive(Debug)]
pub struct PlayingGame {
    solution: Word,
    guesses: Vec<Guess>,
    letter_bank: LetterBank,
    alphabet: Alphabet,
}

impl PlayingGame {
    #[verifier::type_invariant]
    spec fn inv(self) -> bool {
        &&& self.guesses@.len() < MAX_GUESSES
        &&& forall|k: int|
            0 <= k < self.guesses@.len() ==> !(#[trigger] self.guesses@[k] is Correct)
    }

    /// The solution of the game.
    pub closed spec fn spec_solution(self) -> Word {
        self.solution
    }

    /// The guesses made so far, oldest first.
    pub closed spec fn spec_guesses(self) -> Seq<Guess> {
        self.guesses@
    }

    /// What the letter bank knows of each letter.
    pub closed spec fn spec_letter_bank(self) -> Seq<Option<Placement>> {
        self.letter_bank@
    }

    /// What the keyboard shows of each letter.
    pub closed spec fn spec_alphabet(self) -> Seq<Option<Placement>> {
        self.alphabet@
    }

    /// Starts a game whose solution is picked at random from `dict`.
    pub fn new<D: Dictionary>(dict: &D) -> (r: PlayingGame)
        ensures
            dict.spec_is_solution(r.spec_solution()@),
            dict.spec_contains(r.spec_solution()@),
            r.spec_guesses().len() == 0,
            r.spec_letter_bank() == nothing_known(),
            r.spec_alphabet() == nothing_known(),
    {
        PlayingGame::with_solution(Word::random(dict))
    }

    /// Starts a game with the given solution.
    pub fn with_solution(solution: Word) -> (r: PlayingGame)
        ensures
            r.spec_solution() == solution,
            r.spec_guesses().len() == 0,
            r.spec_letter_bank() == nothing_known(),
            r.spec_alphabet() == nothing_known(),
    {
        PlayingGame {
            solution,
            guesses: Vec::new(),
            letter_bank: LetterBank::new(),
            alphabet: Alphabet::new(),
        }
    }

    /// Returns the guesses the player has made already, oldest first; none of them is
    /// correct and fewer than the maximum were made.
    pub fn guesses(&self) -> (r: &[Guess])
        ensures
            r@ == self.spec_guesses(),
            r@.len() < MAX_GUESSES,
            forall|k: int| 0 <= k < r@.len() ==> !(#[trigger] r@[k] is Correct),
    {
        proof {
            use_type_invariant(self);
        }
        self.guesses.as_slice()
    }

    /// Returns the best placement known of each letter.
    pub fn letter_bank(&self) -> (r: &LetterBank)
        ensures
            r@ == self.spec_letter_bank(),
    {
        &self.letter_bank
    }

    /// Returns the keyboard state of the game: the best placement observed of each letter.
    pub fn alphabet(&self) -> (r: &Alphabet)
        ensures
            r@ == self.spec_alphabet(),
    {
        &self.alphabet
    }

    /// Submits `word` as a guess.
    ///
    /// A word that `dict` does not hold is rejected: the game comes back unchanged and no
    /// guess is spent. Otherwise the word is scored against the solution, the letter
    /// trackers learn from it and it joins the guesses; the game is over when the guess is
    /// correct or the last guess was spent.
    pub fn guess<D: Dictionary>(self, dict: &D, word: Word) -> (r: Game)
        ensures
            (r is Rejected) <==> !dict.spec_contains(word@),
            r is Rejected ==> r == Game::Rejected(self, GameError::InvalidWord(word)),
            !(r is Rejected) ==> {
                let gs = r.spec_guesses();
                let g = gs.last();
                &&& gs.len() == self.spec_guesses().len() + 1
                &&& gs.drop_last() == self.spec_guesses()
                &&& is_scored(g, self.spec_solution()@, word)
                &&& (r is Over <==> (g is Correct || gs.len() == MAX_GUESSES))
                &&& r matches Game::Over(o) ==> o.spec_solution() == self.spec_solution()
                &&& r matches Game::Playing(p) ==> {
                    &&& p.spec_solution() == self.spec_solution()
                    &&& p.spec_letter_bank() == reported(self.spec_letter_bank(), g)
                    &&& p.spec_alphabet() == reported(self.spec_alphabet(), g)
                }
            },
    {
        proof {
            use_type_invariant(&self);
        }
        if !dict.contains(&word) {
            return Game::Rejected(self, GameError::InvalidWord(word));
        }
        let PlayingGame { solution, guesses, letter_bank, alphabet } = self;
        let mut guesses = guesses;
        let mut letter_bank = letter_bank;
        let mut alphabet = alphabet;
        let guess = Guess::new(&solution, word);
        letter_bank.report_guess(&guess);
        alphabet.report_guess(&guess);
        guesses.push(guess);
        proof {
            assert(guesses@.drop_last() =~= self.guesses@);
        }
        if guess.is_correct() || guesses.len() >= MAX_GUESSES {
            return Game::Over(GameOutcome::new(solution, guesses));
        }
        Game::Playing(PlayingGame { solution, guesses, letter_bank, alphabet })
    }
}

impl Clone for PlayingGame {
    fn clone(&self) -> (r: PlayingGame)
        ensures
            r.spec_solution() == self.spec_solution(),
            r.spec_guesses() == self.spec_guesses(),
            r.spec_letter_bank() == self.spec_letter_bank(),
            r.spec_alphabet() == self.spec_alphabet(),
    {
        proof {
            use_type_invariant(self);
        }
        let guesses = self.guesses.clone();
        proof {
            assert(guesses@ =~= self.guesses@);
        }
        PlayingGame {
            solution: self.solution,
            guesses,
            letter_bank: self.letter_bank,
            alphabet: self.alphabet,
        }
    }
}

/// Whether `gs` can be the guesses of a finished game: one to six of them, the last one
/// correct or six in all.
pub open spec fn is_finished(gs: Seq<Guess>) -> bool {
    &&& 1 <= gs.len() <= MAX_GUESSES
    &&& (gs.last() is Correct || gs.len() == MAX_GUESSES)
}

/// The outcome of a finished game.
#[derive(Debug)]
pub struct GameOutcome {
    solution: Word,
    guesses: Vec<Guess>,
}

impl GameOutcome {
    #[verifier::type_invariant]
    spec fn inv(self) -> bool {
        is_finished(self.guesses@)
    }

    /// The solution of the game.
    pub closed spec fn spec_solution(self) -> Word {
        self.solution
    }

    /// The guesses made in the game, oldest first.
    pub closed spec fn spec_guesses(self) -> Seq<Guess> {
        self.guesses@
    }

    /// An outcome of the given solution and guesses, which must be those of a finished game.
    pub fn new(solution: Word, guesses: Vec<Guess>) -> (r: GameOutcome)
        requires
            is_finished(guesses@),
        ensures
            r.spec_solution() == solution,
            r.spec_guesses() == guesses@,
    {
        GameOutcome { solution, guesses }
    }

    /// Whether the player won: the last guess is correct.
    pub fn won(&self) -> (r: bool)
        ensures
            is_finished(self.spec_guesses()),
            r == (self.spec_guesses().last() is Correct),
    {
        proof {
            use_type_invariant(self);
        }
        let n = self.guesses.len();
        self.guesses[n - 1].is_correct()
    }

    /// The solution of the game.
    pub fn solution(&self) -> (r: &Word)
        ensures
            *r == self.spec_solution(),
    {
        &self.solution
    }

    /// The guesses made in the game, oldest first: one to six of them, the last one correct
    /// or six in all.
    pub fn guesses(&self) -> (r: &[Guess])
        ensures
            r@ == self.spec_guesses(),
            is_finished(r@),
    {
        proof {
            use_type_invariant(self);
        }
        self.guesses.as_slice()
    }
}

impl Clone for GameOutcome {
    fn clone(&self) -> (r: GameOutcome)
        ensures
            r.spec_solution() == self.spec_solution(),
            r.spec_guesses() == self.spec_guesses(),
    {
        proof {
            use_type_invariant(self);
        }
        let guesses = self.guesses.clone();
        proof {
            assert(guesses@ =~= self.guesses@);
        }
        GameOutcome { solution: self.solution, guesses }
    }
}

} // verus!
