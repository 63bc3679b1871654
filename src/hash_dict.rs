use vstd::prelude::*;
use vstd::std_specs::iter::IteratorSpec;

use std::collections::HashSet;

use rand::Rng;

use crate::dict::{builtin_solution, builtin_word, holds_word, str_to_words, Dictionary, DictionaryErr};
use crate::word_list::{ADDITIONAL_GUESSES, SOLUTIONS};
use crate::word::{
    code_letters, is_word, lemma_code_injective, lemma_code_letters, lemma_word_len, word_code,
    Word, WORD_LENGTH,
};

verus! {

broadcast use vstd::std_specs::hash::group_hash_axioms;

/// Relies on `rand::rng` and `Rng::random_range`: a number below `n`, picked at random.
#[verifier::external_body]
fn random_below(n: usize) -> (r: usize)
    requires
        n > 0,
    ensures
        r < n,
{
    rand::rng().random_range(0..n)
}

/// Whether every element of `s` is the code of a word.
pub open spec fn all_word_codes(s: Set<u64>) -> bool {
    forall|c: u64| #[trigger] s.contains(c) ==> is_word(code_letters(c)) && word_code(code_letters(c)) == c
}

/// Whether `s` holds exactly the codes of the words of `v`.
pub open spec fn codes_of(s: Set<u64>, v: Seq<Word>) -> bool {
    forall|c: u64| #[trigger] s.contains(c) <==> exists|k: int| 0 <= k < v.len() && word_code(#[trigger] v[k]@) == c
}

/// Whether the word with the letters `w` has its code in `s`.
pub open spec fn has_code_of(s: Set<u64>, w: Seq<u8>) -> bool {
    w.len() == WORD_LENGTH && s.contains(word_code(w))
}

/// The codes of the words of `v`, in a hash set.
fn code_set(v: &Vec<Word>) -> (r: HashSet<u64>)
    ensures
        codes_of(r@, v@),
        all_word_codes(r@),
        forall|w: Seq<u8>| has_code_of(r@, w) <==> holds_word(v@, w),
{
    let mut r: HashSet<u64> = HashSet::new();
    let mut i: usize = 0;
    while i < v.len()
        invariant
            i <= v@.len(),
            all_word_codes(r@),
            forall|c: u64| #[trigger] r@.contains(c) <==> exists|k: int| 0 <= k < i && word_code(#[trigger] v@[k]@) == c,
        decreases v@.len() - i,
    {
        let w = &v[i];
        let _ = w.as_bytes();
        let c = w.code();
        proof {
            lemma_code_letters(w@);
        }
        r.insert(c);
        proof {
            assert forall|d: u64| #[trigger] r@.contains(d) <==> exists|k: int| 0 <= k < i + 1 && word_code(#[trigger] v@[k]@) == d by {
                if d == c {
                    assert(word_code(v@[i as int]@) == d);
                }
            }
        }
        i = i + 1;
    }
    proof {
        assert forall|w: Seq<u8>| has_code_of(r@, w) <==> holds_word(v@, w) by {
            if has_code_of(r@, w) {
                let k = choose|k: int| 0 <= k < v@.len() && word_code(#[trigger] v@[k]@) == word_code(w);
                lemma_word_len(v@[k]);
                lemma_code_injective(v@[k]@, w);
            }
            if holds_word(v@, w) {
                let k = choose|k: int| 0 <= k < v@.len() && #[trigger] v@[k]@ == w;
                lemma_word_len(v@[k]);
                assert(word_code(v@[k]@) == word_code(w));
            }
        }
    }
    r
}

/// A [`Dictionary`] backed by hash sets of word codes.
///
/// Lookups take constant time and picking a random solution takes linear time.
pub struct HashDict {
    solutions: HashSet<u64>,
    additional_guesses: HashSet<u64>,
}

impl HashDict {
    #[verifier::type_invariant]
    spec fn inv(self) -> bool {
        &&& !self.solutions@.is_empty()
        &&& all_word_codes(self.solutions@)
        &&& all_word_codes(self.additional_guesses@)
    }

    /// Creates a dictionary of the given solutions and of the additional words that are
    /// accepted as guesses.
    ///
    /// Fails with `NoSolutions` when `solutions` is empty.
    pub fn new(solutions: Vec<Word>, additional_guesses: Vec<Word>) -> (r: Result<
        HashDict,
        DictionaryErr,
    >)
        ensures
            r is Err <==> solutions@.len() == 0,
            r matches Err(e) ==> e == DictionaryErr::NoSolutions,
            r matches Ok(d) ==> forall|w: Seq<u8>|
                #![trigger d.spec_is_solution(w)]
                #![trigger d.spec_contains(w)]
                (d.spec_is_solution(w) <==> holds_word(solutions@, w)) && (d.spec_contains(w)
                    <==> holds_word(solutions@, w) || holds_word(additional_guesses@, w)),
    {
        let s = code_set(&solutions);
        if s.is_empty() {
            proof {
                if solutions@.len() > 0 {
                    lemma_word_len(solutions@[0]);
                    assert(holds_word(solutions@, solutions@[0]@));
                    assert(s@.contains(word_code(solutions@[0]@)));
                }
            }
            return Err(DictionaryErr::NoSolutions);
        }
        let a = code_set(&additional_guesses);
        proof {
            assert(solutions@.len() > 0) by {
                let c = s@.choose();
                assert(s@.contains(c));
            }
        }
        Ok(HashDict { solutions: s, additional_guesses: a })
    }

    /// The dictionary of the built-in word lists.
    ///
    /// Fails with `NoSolutions` only if the built-in solution list held no word.
    pub fn default() -> (r: Result<HashDict, DictionaryErr>)
        ensures
            r is Err <==> forall|w: Seq<u8>| !builtin_solution(w),
            r matches Err(e) ==> e == DictionaryErr::NoSolutions,
            r matches Ok(d) ==> forall|w: Seq<u8>|
                #![trigger d.spec_is_solution(w)]
                #![trigger d.spec_contains(w)]
                (d.spec_is_solution(w) <==> builtin_solution(w)) && (d.spec_contains(w)
                    <==> builtin_word(w)),
    {
        let solutions = str_to_words(SOLUTIONS);
        let additional_guesses = str_to_words(ADDITIONAL_GUESSES);
        let r = HashDict::new(solutions, additional_guesses);
        proof {
            if solutions@.len() > 0 {
                assert(builtin_solution(solutions@[0]@));
            }
            assert forall|w: Seq<u8>| builtin_solution(w) implies holds_word(solutions@, w) by {
                let k = choose|k: int| 0 <= k < solutions@.len() && #[trigger] solutions@[k]@ == w;
            }
        }
        r
    }
}

impl Dictionary for HashDict {
    closed spec fn spec_contains(&self, w: Seq<u8>) -> bool {
        has_code_of(self.solutions@, w) || has_code_of(self.additional_guesses@, w)
    }

    closed spec fn spec_is_solution(&self, w: Seq<u8>) -> bool {
        has_code_of(self.solutions@, w)
    }

    fn contains(&self, word: &Word) -> (r: bool) {
        let c = word.code();
        proof {
            lemma_word_len(*word);
        }
        self.solutions.contains(&c) || self.additional_guesses.contains(&c)
    }

    fn random_solution(&self) -> (r: Word) {
        proof {
            use_type_invariant(self);
        }
        let n = self.solutions.len();
        let keys = self.solutions.iter();
        let ghost all = keys.remaining();
        proof {
            assert(all.unref().to_set() == self.solutions@);
            assert(all.len() == self.solutions@.len());
            assert forall|j: int| 0 <= j < all.len() implies self.solutions@.contains(*#[trigger] all[j]) by {
                assert(all.unref()[j] == *all[j]);
                assert(all.unref().contains(*all[j]));
            }
            if n == 0 {
                let c = self.solutions@.choose();
                assert(self.solutions@.contains(c));
                assert(all.unref().to_set().contains(c));
                assert(all.unref().contains(c));
            }
        }
        let target = random_below(n);
        let mut i: usize = 0;
        for c in it: keys
            invariant
                i == it.index(),
                i <= target,
                target < n,
                n == all.len(),
                it.seq() == all,
                all_word_codes(self.solutions@),
                forall|j: int| 0 <= j < all.len() ==> self.solutions@.contains(*#[trigger] all[j]),
        {
            if i == target {
                let code = *c;
                proof {
                    assert(self.solutions@.contains(*all[i as int]));
                    lemma_code_letters(code_letters(code));
                }
                return Word::from_code(code);
            }
            i = i + 1;
        }
        proof {
            assert(false);
        }
        Word::from_code(0)
    }
}

} // verus!
