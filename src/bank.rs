use vstd::prelude::*;

use crate::dict::{
    builtin_solution, builtin_word, choose_word, holds_word, into_sorted, sorted_by_code,
    sorted_contains, str_to_words, DictionaryErr,
};
use crate::word::Word;
use crate::word_list::{ADDITIONAL_GUESSES, SOLUTIONS};

verus! {

/// The built-in word lists, sorted for lookup.
///
/// Build it once and pass it to whatever checks words against the lists.
pub struct WordBank {
    solutions: Vec<Word>,
    additional_guesses: Vec<Word>,
}

impl WordBank {
    #[verifier::type_invariant]
    spec fn inv(self) -> bool {
        &&& sorted_by_code(self.solutions@)
        &&& sorted_by_code(self.additional_guesses@)
        &&& forall|w: Seq<u8>| #[trigger] builtin_solution(w) <==> holds_word(self.solutions@, w)
        &&& forall|w: Seq<u8>|
            #[trigger] builtin_word(w) <==> holds_word(self.solutions@, w) || holds_word(
                self.additional_guesses@,
                w,
            )
    }

    /// Parses and sorts the built-in word lists.
    pub fn new() -> (r: WordBank) {
        let solution_words = str_to_words(SOLUTIONS);
        let guess_words = str_to_words(ADDITIONAL_GUESSES);
        let solutions = into_sorted(solution_words);
        let additional_guesses = into_sorted(guess_words);
        proof {
            assert forall|w: Seq<u8>| #[trigger] builtin_solution(w) <==> holds_word(solutions@, w) by {
                if builtin_solution(w) {
                    let k = choose|k: int| 0 <= k < solution_words@.len() && #[trigger] solution_words@[k]@ == w;
                }
                if holds_word(solution_words@, w) {
                    let k = choose|k: int| 0 <= k < solution_words@.len() && #[trigger] solution_words@[k]@ == w;
                    assert(builtin_solution(solution_words@[k]@));
                }
            }
            assert forall|w: Seq<u8>| #[trigger] builtin_word(w) <==> holds_word(solutions@, w) || holds_word(additional_guesses@, w) by {
                if builtin_word(w) && !builtin_solution(w) {
                    let k = choose|k: int| 0 <= k < guess_words@.len() && #[trigger] guess_words@[k]@ == w;
                }
                if holds_word(guess_words@, w) {
                    let k = choose|k: int| 0 <= k < guess_words@.len() && #[trigger] guess_words@[k]@ == w;
                    assert(builtin_word(guess_words@[k]@));
                }
            }
        }
        WordBank { solutions, additional_guesses }
    }
}

/// Returns whether `word` is in the built-in word lists, as a solution or as an additional
/// guess.
pub fn contains(bank: &WordBank, word: Word) -> (r: bool)
    ensures
        r == builtin_word(word@),
{
    proof {
        use_type_invariant(bank);
    }
    sorted_contains(&bank.solutions, &word) || sorted_contains(&bank.additional_guesses, &word)
}

/// Returns a random word of the built-in solution list.
///
/// Fails with `NoSolutions` only if that list held no word.
pub fn random_solution(bank: &WordBank) -> (r: Result<Word, DictionaryErr>)
    ensures
        r is Err <==> forall|w: Seq<u8>| !builtin_solution(w),
        r matches Err(e) ==> e == DictionaryErr::NoSolutions,
        r matches Ok(w) ==> builtin_solution(w@),
{
    proof {
        use_type_invariant(bank);
    }
    match choose_word(bank.solutions.as_slice()) {
        Some(w) => {
            proof {
                let k = choose|k: int| 0 <= k < bank.solutions@.len() && bank.solutions@[k] == w;
                assert(bank.solutions@[k]@ == w@);
                assert(builtin_solution(w@));
            }
            Ok(w)
        },
        None => {
            proof {
                assert forall|w: Seq<u8>| !builtin_solution(w) by {
                    if builtin_solution(w) {
                        let k = choose|k: int| 0 <= k < bank.solutions@.len() && #[trigger] bank.solutions@[k]@ == w;
                    }
                }
            }
            Err(DictionaryErr::NoSolutions)
        },
    }
}

} // verus!
