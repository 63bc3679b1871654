use vstd::prelude::*;

use crate::guess::Guess;
use crate::strategy::{letters_of, is_suggestion, reports_to, table_of, Cursor, Strategy};
use crate::word::Word;

verus! {

/// What reporting a guess to a solver gives.
#[derive(Debug)]
pub enum SolverResult {
    /// The solution is not known yet; the solver can suggest the next guess.
    Solving(Solver),
    /// The session is over, with the last word guessed and all the guesses reported.
    Solved { solution: Word, guesses: Vec<Guess> },
}

/// A solving session: a cursor into a decision table and the guesses reported so far.
#[derive(Debug)]
pub struct Solver {
    cursor: Cursor,
    guesses: Vec<Guess>,
}

impl Solver {
    /// The solver's position in its decision table.
    pub closed spec fn spec_cursor(self) -> Cursor {
        self.cursor
    }

    /// The guesses reported so far, oldest first.
    pub closed spec fn spec_guesses(self) -> Seq<Guess> {
        self.guesses@
    }

    /// Starts a session under `strategy`.
    pub fn new(strategy: Strategy) -> (r: Solver)
        ensures
            r.spec_cursor().spec_strategy() == strategy,
            r.spec_cursor().spec_row() == 0,
            r.spec_cursor().spec_num_guesses() == 0,
            r.spec_guesses().len() == 0,
    {
        Solver { cursor: Cursor::new(strategy), guesses: Vec::new() }
    }

    /// The number of guesses reported so far to the solver's cursor.
    pub fn num_guesses(&self) -> (r: usize)
        ensures
            r == self.spec_cursor().spec_num_guesses(),
    {
        self.cursor.num_guesses()
    }

    /// Suggests the next word to guess, as the cursor does.
    pub fn suggest(&self) -> (r: Option<Word>)
        ensures
            is_suggestion(
                table_of(self.spec_cursor().spec_strategy()),
                self.spec_cursor().spec_row(),
                self.spec_cursor().spec_num_guesses(),
                letters_of(r),
            ),
    {
        self.cursor.suggest()
    }

    /// Reports the outcome of the last guess.
    ///
    /// A correct guess ends the session, and so do placements that are all correct. Otherwise
    /// the placements move the cursor; when the table has no line left the session ends as
    /// well, with the last word guessed.
    pub fn report(self, guess: Guess) -> (r: SolverResult)
        requires
            self.spec_cursor().spec_num_guesses() < usize::MAX,
        ensures
            match guess {
                Guess::Correct(w) => r matches SolverResult::Solved { solution, guesses }
                    && solution == w && guesses@ == self.spec_guesses().push(guess),
                Guess::Incorrect(w, p) => match r {
                    SolverResult::Solving(s) => {
                        &&& reports_to(self.spec_cursor(), p@, Some(s.spec_cursor()))
                        &&& s.spec_guesses() == self.spec_guesses().push(guess)
                    },
                    SolverResult::Solved { solution, guesses } => {
                        &&& reports_to(self.spec_cursor(), p@, None)
                        &&& solution == w
                        &&& guesses@ == self.spec_guesses().push(guess)
                    },
                },
            },
    {
        let Solver { cursor, guesses } = self;
        let mut guesses = guesses;
        match guess {
            Guess::Correct(word) => {
                guesses.push(guess);
                SolverResult::Solved { solution: word, guesses }
            },
            Guess::Incorrect(word, placements) => {
                let next = cursor.report(placements);
                guesses.push(guess);
                match next {
                    Some(c) => SolverResult::Solving(Solver { cursor: c, guesses }),
                    None => SolverResult::Solved { solution: word, guesses },
                }
            },
        }
    }
}

} // verus!
