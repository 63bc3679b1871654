use vstd::prelude::*;

use crate::placement::Placement;
use crate::word::{Word, WORD_LENGTH};

verus! {

/// The number of positions before `n` where the solution holds `c` and the guess does not
/// hold the same letter: the occurrences of `c` left for misplaced credit.
pub open spec fn unmatched_upto(sol: Seq<u8>, g: Seq<u8>, c: u8, n: int) -> nat
    decreases n,
{
    if n <= 0 {
        0
    } else {
        unmatched_upto(sol, g, c, n - 1) + if sol[n - 1] == c && sol[n - 1] != g[n - 1] {
            1nat
        } else {
            0nat
        }
    }
}

/// The number of positions before `n` where the guess holds `c` and the solution does not
/// hold the same letter: the earlier claims on misplaced credit for `c`.
pub open spec fn claimed_upto(sol: Seq<u8>, g: Seq<u8>, c: u8, n: int) -> nat
    decreases n,
{
    if n <= 0 {
        0
    } else {
        claimed_upto(sol, g, c, n - 1) + if g[n - 1] == c && sol[n - 1] != g[n - 1] {
            1nat
        } else {
            0nat
        }
    }
}

/// The placement of the guessed letter at `i`: correct on an exact match; otherwise
/// misplaced while the solution still holds an unmatched occurrence of that letter that no
/// earlier position of the guess has claimed; otherwise incorrect.
pub open spec fn placement_at(sol: Seq<u8>, g: Seq<u8>, i: int) -> Placement {
    if sol[i] == g[i] {
        Placement::Correct
    } else if claimed_upto(sol, g, g[i], i) < unmatched_upto(sol, g, g[i], WORD_LENGTH as int) {
        Placement::Misplaced
    } else {
        Placement::Incorrect
    }
}

/// The placements of every letter of the guess `g` against the solution `sol`.
pub open spec fn score(sol: Seq<u8>, g: Seq<u8>) -> Seq<Placement> {
    Seq::new(WORD_LENGTH as nat, |i: int| placement_at(sol, g, i))
}

/// Five correct placements.
pub open spec fn all_correct() -> Seq<Placement> {
    Seq::new(WORD_LENGTH as nat, |i: int| Placement::Correct)
}

/// A guess scores five correct placements exactly when it is the solution.
pub proof fn lemma_all_correct_iff_solution(sol: Seq<u8>, g: Seq<u8>)
    requires
        sol.len() == WORD_LENGTH,
        g.len() == WORD_LENGTH,
    ensures
        score(sol, g) == all_correct() <==> sol == g,
{
    if sol == g {
        assert(score(sol, g) =~= all_correct());
    }
    if score(sol, g) == all_correct() {
        assert forall|i: int| 0 <= i < WORD_LENGTH implies sol[i] == g[i] by {
            assert(score(sol, g)[i] == Placement::Correct);
        }
        assert(sol =~= g);
    }
}

/// The unmatched occurrences of a letter never outnumber the positions counted.
proof fn lemma_unmatched_bound(sol: Seq<u8>, g: Seq<u8>, c: u8, n: int)
    requires
        0 <= n,
    ensures
        unmatched_upto(sol, g, c, n) <= n,
    decreases n,
{
    if n > 0 {
        lemma_unmatched_bound(sol, g, c, n - 1);
    }
}

/// A guess that was submitted, with its outcome against the solution.
#[derive(Debug, Clone, Copy, PartialEq, Eq)]
pub enum Guess {
    /// The guessed word is the solution.
    Correct(Word),
    /// The guessed word is not the solution; the placement of each of its letters.
    Incorrect(Word, [Placement; WORD_LENGTH]),
}

impl Guess {
    /// The guessed word.
    pub open spec fn spec_word(self) -> Word {
        match self {
            Guess::Correct(w) => w,
            Guess::Incorrect(w, _) => w,
        }
    }

    /// The placement of each letter of the guessed word.
    pub open spec fn spec_placements(self) -> Seq<Placement> {
        match self {
            Guess::Correct(_) => all_correct(),
            Guess::Incorrect(_, p) => p@,
        }
    }

    /// Whether the guessed word is the solution.
    pub fn is_correct(&self) -> (r: bool)
        ensures
            r == (*self is Correct),
    {
        matches!(self, Guess::Correct(_))
    }

    /// The guessed word.
    pub fn word(&self) -> (r: &Word)
        ensures
            *r == self.spec_word(),
    {
        match self {
            Guess::Correct(w) => w,
            Guess::Incorrect(w, _) => w,
        }
    }

    /// The placement of each letter of the guessed word.
    pub fn placements(&self) -> (r: [Placement; WORD_LENGTH])
        ensures
            r@ == self.spec_placements(),
    {
        match self {
            Guess::Correct(_) => {
                let r = [Placement::Correct; WORD_LENGTH];
                proof {
                    assert(r@ =~= all_correct());
                }
                r
            },
            Guess::Incorrect(_, p) => *p,
        }
    }

    /// The placement of each letter of the guessed word.
    pub fn result(&self) -> (r: [Placement; WORD_LENGTH])
        ensures
            r@ == self.spec_placements(),
    {
        self.placements()
    }

    /// Scores `guess` against `solution`.
    ///
    /// The guess is `Correct` exactly when it equals the solution. Otherwise each letter is
    /// placed by two passes: exact matches first, then, from left to right, a letter is
    /// misplaced while the solution holds an occurrence of it that is neither matched exactly
    /// nor claimed by an earlier letter of the guess.
    pub fn new(solution: &Word, guess: Word) -> (r: Guess)
        ensures
            (r is Correct) <==> solution@ == guess@,
            r.spec_word() == guess,
            r.spec_placements() == score(solution@, guess@),
            r.spec_placements().len() == WORD_LENGTH,
    {
        let ghost sol = solution@;
        let ghost g = guess@;
        let _ = solution.as_bytes();
        let _ = guess.as_bytes();
        if *solution == guess {
            proof {
                assert(score(sol, g) =~= all_correct());
            }
            return Guess::Correct(guess);
        }
        let mut placements = [Placement::Incorrect; WORD_LENGTH];
        let mut counts: Vec<u8> = vec![0u8; 26];
        let mut i: usize = 0;
        while i < WORD_LENGTH
            invariant
                i <= WORD_LENGTH,
                sol == solution@,
                g == guess@,
                sol.len() == WORD_LENGTH,
                g.len() == WORD_LENGTH,
                counts@.len() == 26,
                forall|k: int|
                    0 <= k < 26 ==> #[trigger] counts@[k] == unmatched_upto(
                        sol,
                        g,
                        (k + 97) as u8,
                        i as int,
                    ),
                forall|j: int|
                    0 <= j < i ==> #[trigger] placements@[j] == if sol[j] == g[j] {
                        Placement::Correct
                    } else {
                        Placement::Incorrect
                    },
                forall|j: int| i <= j < WORD_LENGTH ==> #[trigger] placements@[j] == Placement::Incorrect,
            decreases WORD_LENGTH - i,
        {
            let s = solution.letter(i);
            let l = guess.letter(i);
            if s == l {
                placements[i] = Placement::Correct;
            } else {
                let idx = (s - 97) as usize;
                proof {
                    lemma_unmatched_bound(sol, g, s, i as int);
                    assert(counts@[idx as int] == unmatched_upto(sol, g, s, i as int));
                }
                counts[idx] = counts[idx] + 1;
            }
            i = i + 1;
        }
        let ghost first = placements@;
        let mut i: usize = 0;
        while i < WORD_LENGTH
            invariant
                i <= WORD_LENGTH,
                sol == solution@,
                g == guess@,
                sol.len() == WORD_LENGTH,
                g.len() == WORD_LENGTH,
                counts@.len() == 26,
                forall|k: int|
                    0 <= k < 26 ==> #[trigger] counts@[k] == if claimed_upto(
                        sol,
                        g,
                        (k + 97) as u8,
                        i as int,
                    ) <= unmatched_upto(sol, g, (k + 97) as u8, WORD_LENGTH as int) {
                        unmatched_upto(sol, g, (k + 97) as u8, WORD_LENGTH as int) - claimed_upto(
                            sol,
                            g,
                            (k + 97) as u8,
                            i as int,
                        )
                    } else {
                        0
                    },
                forall|j: int| 0 <= j < i ==> #[trigger] placements@[j] == placement_at(sol, g, j),
                forall|j: int| i <= j < WORD_LENGTH ==> #[trigger] placements@[j] == first[j],
                forall|j: int|
                    0 <= j < WORD_LENGTH ==> #[trigger] first[j] == if sol[j] == g[j] {
                        Placement::Correct
                    } else {
                        Placement::Incorrect
                    },
            decreases WORD_LENGTH - i,
        {
            let s = solution.letter(i);
            let l = guess.letter(i);
            let idx = (l - 97) as usize;
            proof {
                assert(((idx as int) + 97) as u8 == l);
            }
            if s != l && counts[idx] > 0 {
                placements[i] = Placement::Misplaced;
                counts[idx] = counts[idx] - 1;
            }
            i = i + 1;
        }
        proof {
            assert(placements@ =~= score(sol, g));
        }
        Guess::Incorrect(guess, placements)
    }
}

} // verus!
