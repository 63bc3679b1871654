use vstd::prelude::*;
use vstd::string::StringSliceAdditionalSpecFns;
use vstd::utf8::encode_utf8;

use rand::seq::IndexedRandom;

use crate::word::{lemma_code_injective, lemma_word_len, parse_bytes, word_code, Word, WordError};
use crate::word_list::{ADDITIONAL_GUESSES, SOLUTIONS};

verus! {

/// A dictionary that can tell whether a word is a valid guess and can produce a random
/// solution.
pub trait Dictionary {
    /// Whether the dictionary accepts the word with the letters `w` as a guess.
    spec fn spec_contains(&self, w: Seq<u8>) -> bool;

    /// Whether the word with the letters `w` may be chosen as a solution.
    spec fn spec_is_solution(&self, w: Seq<u8>) -> bool;

    /// Checks whether `word` is a valid guess.
    fn contains(&self, word: &Word) -> (r: bool)
        ensures
            r == self.spec_contains(word@),
    ;

    /// Returns a solution chosen at random; it is always a valid guess as well.
    fn random_solution(&self) -> (r: Word)
        ensures
            self.spec_is_solution(r@),
            self.spec_contains(r@),
    ;
}

/// Errors that may occur when constructing a dictionary.
#[derive(Debug, Clone, Copy, PartialEq, Eq, Structural)]
pub enum DictionaryErr {
    /// The dictionary has no solutions, so no game could be played with it.
    NoSolutions,
}

/// Whether some word of `v` has the letters `w`.
pub open spec fn holds_word(v: Seq<Word>, w: Seq<u8>) -> bool {
    exists|k: int| 0 <= k < v.len() && #[trigger] v[k]@ == w
}

/// Whether the codes of the words of `v` ascend.
pub open spec fn sorted_by_code(v: Seq<Word>) -> bool {
    forall|i: int, j: int| 0 <= i < j < v.len() ==> word_code(v[i]@) <= word_code(v[j]@)
}

/// Whether `w` is a word of the built-in solution list.
pub open spec fn builtin_solution(w: Seq<u8>) -> bool {
    is_listed(SOLUTIONS.spec_bytes(), w)
}

/// Whether `w` is a word of the built-in lists, solutions or additional guesses.
pub open spec fn builtin_word(w: Seq<u8>) -> bool {
    builtin_solution(w) || is_listed(ADDITIONAL_GUESSES.spec_bytes(), w)
}

/// Sequences with the same elements hold the same words.
proof fn lemma_same_words(a: Seq<Word>, b: Seq<Word>)
    requires
        a.to_multiset() == b.to_multiset(),
    ensures
        forall|w: Seq<u8>| holds_word(a, w) <==> holds_word(b, w),
{
    broadcast use vstd::seq_lib::to_multiset_contains;

    assert forall|w: Seq<u8>| holds_word(a, w) implies holds_word(b, w) by {
        let k = choose|k: int| 0 <= k < a.len() && #[trigger] a[k]@ == w;
        assert(a.contains(a[k]));
        assert(a.to_multiset().count(a[k]) > 0);
        assert(b.contains(a[k]));
    }
    assert forall|w: Seq<u8>| holds_word(b, w) implies holds_word(a, w) by {
        let k = choose|k: int| 0 <= k < b.len() && #[trigger] b[k]@ == w;
        assert(b.contains(b[k]));
        assert(b.to_multiset().count(b[k]) > 0);
        assert(a.contains(b[k]));
    }
}

/// Relies on `slice::sort_unstable_by_key`: the words are reordered so that their codes
/// ascend.
#[verifier::external_body]
fn sort_by_code(v: &mut Vec<Word>)
    ensures
        final(v)@.to_multiset() == old(v)@.to_multiset(),
        sorted_by_code(final(v)@),
{
    v.sort_unstable_by_key(|w| w.code());
}

/// Relies on `rand::rng` and `IndexedRandom::choose`: an element of the slice picked at
/// random, or `None` when the slice is empty.
#[verifier::external_body]
pub(crate) fn choose_word(words: &[Word]) -> (r: Option<Word>)
    ensures
        r is None <==> words@.len() == 0,
        r matches Some(w) ==> words@.contains(w),
{
    words.choose(&mut rand::rng()).copied()
}

/// Sorts `v` so that its words can be searched.
pub(crate) fn into_sorted(v: Vec<Word>) -> (r: Vec<Word>)
    ensures
        sorted_by_code(r@),
        r@.len() == v@.len(),
        forall|w: Seq<u8>| holds_word(r@, w) <==> holds_word(v@, w),
{
    let mut r = v;
    sort_by_code(&mut r);
    proof {
        broadcast use vstd::seq_lib::to_multiset_len;

        lemma_same_words(r@, v@);
        assert(r@.len() == r@.to_multiset().len());
        assert(v@.len() == v@.to_multiset().len());
    }
    r
}

/// Searches the sorted words `v` for `word` by bisection.
pub(crate) fn sorted_contains(v: &Vec<Word>, word: &Word) -> (r: bool)
    requires
        sorted_by_code(v@),
    ensures
        r == holds_word(v@, word@),
{
    let key = word.code();
    let mut lo: usize = 0;
    let mut hi: usize = v.len();
    while lo < hi
        invariant
            0 <= lo <= hi <= v@.len(),
            key == word_code(word@),
            sorted_by_code(v@),
            forall|k: int| 0 <= k < lo ==> word_code(#[trigger] v@[k]@) < key,
            forall|k: int| hi <= k < v@.len() ==> word_code(#[trigger] v@[k]@) > key,
        decreases hi - lo,
    {
        let mid = lo + (hi - lo) / 2;
        let c = v[mid].code();
        if c == key {
            proof {
                lemma_word_len(v@[mid as int]);
                lemma_word_len(*word);
                lemma_code_injective(v@[mid as int]@, word@);
            }
            return true;
        } else if c < key {
            proof {
                assert forall|k: int| 0 <= k < mid + 1 implies word_code(#[trigger] v@[k]@) < key by {
                    if k < mid {
                        assert(word_code(v@[k]@) <= word_code(v@[mid as int]@));
                    }
                }
            }
            lo = mid + 1;
        } else {
            proof {
                assert forall|k: int| mid <= k < v@.len() implies word_code(#[trigger] v@[k]@) > key by {
                    if k > mid {
                        assert(word_code(v@[mid as int]@) <= word_code(v@[k]@));
                    }
                }
            }
            hi = mid;
        }
    }
    proof {
        if holds_word(v@, word@) {
            let k = choose|k: int| 0 <= k < v@.len() && #[trigger] v@[k]@ == word@;
            assert(word_code(v@[k]@) == key);
        }
    }
    false
}

/// A [`Dictionary`] backed by sorted sequences of words.
///
/// Lookups are two binary searches and picking a random solution takes constant time.
pub struct SliceDict {
    solutions: Vec<Word>,
    additional_guesses: Vec<Word>,
}

impl SliceDict {
    #[verifier::type_invariant]
    spec fn inv(self) -> bool {
        &&& self.solutions@.len() > 0
        &&& sorted_by_code(self.solutions@)
        &&& sorted_by_code(self.additional_guesses@)
    }

    /// Creates a dictionary of the given solutions and of the additional words that are
    /// accepted as guesses.
    ///
    /// Fails with `NoSolutions` when `solutions` is empty.
    pub fn new(solutions: Vec<Word>, additional_guesses: Vec<Word>) -> (r: Result<
        SliceDict,
        DictionaryErr,
    >)
        ensures
            r is Err <==> solutions@.len() == 0,
            r matches Err(e) ==> e == DictionaryErr::NoSolutions,
            r matches Ok(d) ==> forall|w: Seq<u8>|
                #![trigger d.spec_is_solution(w)]
                #![trigger d.spec_contains(w)]
                (d.spec_is_solution(w) <==> holds_word(solutions@, w)) && (d.spec_contains(w)
                    <==> holds_word(solutions@, w) || holds_word(additional_guesses@, w)),
    {
        let solutions = into_sorted(solutions);
        if solutions.len() == 0 {
            return Err(DictionaryErr::NoSolutions);
        }
        let additional_guesses = into_sorted(additional_guesses);
        Ok(SliceDict { solutions, additional_guesses })
    }

    /// The dictionary of the built-in word lists.
    ///
    /// Fails with `NoSolutions` only if the built-in solution list held no word.
    pub fn default() -> (r: Result<SliceDict, DictionaryErr>)
        ensures
            r is Err <==> forall|w: Seq<u8>| !builtin_solution(w),
            r matches Err(e) ==> e == DictionaryErr::NoSolutions,
            r matches Ok(d) ==> forall|w: Seq<u8>|
                #![trigger d.spec_is_solution(w)]
                #![trigger d.spec_contains(w)]
                (d.spec_is_solution(w) <==> builtin_solution(w)) && (d.spec_contains(w)
                    <==> builtin_word(w)),
    {
        let solutions = str_to_words(SOLUTIONS);
        let additional_guesses = str_to_words(ADDITIONAL_GUESSES);
        let r = SliceDict::new(solutions, additional_guesses);
        proof {
            if solutions@.len() > 0 {
                assert(builtin_solution(solutions@[0]@));
            }
            assert forall|w: Seq<u8>| builtin_solution(w) implies holds_word(solutions@, w) by {
                let k = choose|k: int| 0 <= k < solutions@.len() && #[trigger] solutions@[k]@ == w;
            }
        }
        r
    }
}

impl Dictionary for SliceDict {
    closed spec fn spec_contains(&self, w: Seq<u8>) -> bool {
        holds_word(self.solutions@, w) || holds_word(self.additional_guesses@, w)
    }

    closed spec fn spec_is_solution(&self, w: Seq<u8>) -> bool {
        holds_word(self.solutions@, w)
    }

    fn contains(&self, word: &Word) -> (r: bool) {
        proof {
            use_type_invariant(self);
        }
        sorted_contains(&self.solutions, word) || sorted_contains(&self.additional_guesses, word)
    }

    fn random_solution(&self) -> (r: Word) {
        proof {
            use_type_invariant(self);
        }
        match choose_word(self.solutions.as_slice()) {
            Some(w) => {
                proof {
                    let k = choose|k: int| 0 <= k < self.solutions@.len() && self.solutions@[k] == w;
                    assert(self.solutions@[k]@ == w@);
                }
                w
            },
            None => {
                proof {
                    assert(false);
                }
                self.solutions[0]
            },
        }
    }
}

/// Returns the dictionary of the built-in word lists.
pub fn default() -> (r: Result<SliceDict, DictionaryErr>)
    ensures
        r is Err <==> forall|w: Seq<u8>| !builtin_solution(w),
        r matches Ok(d) ==> forall|w: Seq<u8>|
            #![trigger d.spec_is_solution(w)]
            #![trigger d.spec_contains(w)]
            (d.spec_is_solution(w) <==> builtin_solution(w)) && (d.spec_contains(w) <==> builtin_word(w)),
{
    SliceDict::default()
}

/// Whether a line of the text `b` starts at `i`.
pub open spec fn is_line_start(b: Seq<u8>, i: int) -> bool {
    0 <= i <= b.len() && (i == 0 || b[i - 1] == 10)
}

/// Where the line of `b` that holds `i` ends: the next line feed, or the end of the text.
pub open spec fn line_end(b: Seq<u8>, i: int) -> int
    decreases b.len() - i,
{
    if i >= b.len() || b[i] == 10 {
        i
    } else {
        line_end(b, i + 1)
    }
}

/// Whether `w` is the word that one of the lines of the text `b` spells.
pub open spec fn is_listed(b: Seq<u8>, w: Seq<u8>) -> bool {
    exists|i: int| is_line_start(b, i) && #[trigger] parse_bytes(b.subrange(i, line_end(b, i))) == Ok::<Seq<u8>, WordError>(w)
}

/// A line ends at or after its start, and within the text when it starts within it.
pub proof fn lemma_line_end_bounds(b: Seq<u8>, i: int)
    requires
        0 <= i,
    ensures
        i <= line_end(b, i),
        0 <= i <= b.len() ==> line_end(b, i) <= b.len(),
    decreases b.len() - i,
{
    if 0 <= i < b.len() && b[i] != 10 {
        lemma_line_end_bounds(b, i + 1);
    }
}

/// A line that holds no line feed between `i` and `j` and stops at `j` ends there.
proof fn lemma_line_end(b: Seq<u8>, i: int, j: int)
    requires
        0 <= i <= j <= b.len(),
        forall|k: int| i <= k < j ==> b[k] != 10,
        j == b.len() || b[j] == 10,
    ensures
        line_end(b, i) == j,
    decreases j - i,
{
    if i < j {
        lemma_line_end(b, i + 1, j);
    }
}

/// The words of the well-formed lines of the text `b` from position `i` on, in order.
pub open spec fn words_from(b: Seq<u8>, i: int) -> Seq<Seq<u8>>
    decreases b.len() + 1 - i,
{
    if i < 0 || i > b.len() {
        seq![]
    } else {
        let e = line_end(b, i);
        proof {
            lemma_line_end_bounds(b, i);
        }
        let rest = words_from(b, e + 1);
        match parse_bytes(b.subrange(i, e)) {
            Ok(w) => seq![w] + rest,
            Err(_) => rest,
        }
    }
}

/// Parses text that holds one word per line into the word of each of its well-formed lines,
/// in order.
pub fn str_to_words(s: &str) -> (r: Vec<Word>)
    ensures
        r@.map_values(|w: Word| w@) == words_from(s.spec_bytes(), 0),
        forall|k: int| 0 <= k < r@.len() ==> is_listed(s.spec_bytes(), #[trigger] r@[k]@),
        forall|w: Seq<u8>| is_listed(s.spec_bytes(), w) ==> exists|k: int| 0 <= k < r@.len() && #[trigger] r@[k]@ == w,
{
    let b = s.as_bytes();
    let ghost bs = b@;
    let n = b.len();
    let mut r: Vec<Word> = Vec::new();
    let mut start: usize = 0;
    let mut i: usize = 0;
    while i < n
        invariant
            bs == b@,
            n == b@.len(),
            start <= i <= n,
            is_line_start(bs, start as int),
            r@.map_values(|w: Word| w@) + words_from(bs, start as int) == words_from(bs, 0),
            forall|k: int| start <= k < i ==> bs[k] != 10,
            forall|k: int| 0 <= k < r@.len() ==> is_listed(bs, #[trigger] r@[k]@),
            forall|l: int|
                #![trigger is_line_start(bs, l)]
                is_line_start(bs, l) && l < start && parse_bytes(bs.subrange(l, line_end(bs, l))) is Ok
                    ==> exists|k: int| 0 <= k < r@.len() && #[trigger] r@[k]@ == parse_bytes(bs.subrange(l, line_end(bs, l)))->Ok_0,
        decreases n - i,
    {
        if b[i] == 10 {
            proof {
                lemma_line_end(bs, start as int, i as int);
            }
            let ghost before = r@;
            let parsed = crate::word::word_from_bytes(b, start, i);
            if let Ok(w) = parsed {
                r.push(w);
            }
            proof {
                lemma_line_end_bounds(bs, start as int);
                assert(r@.map_values(|w: Word| w@) + words_from(bs, i + 1) =~= before.map_values(
                    |w: Word| w@,
                ) + words_from(bs, start as int));
                assert forall|l: int|
                    #![trigger is_line_start(bs, l)]
                    is_line_start(bs, l) && l < i + 1 && parse_bytes(bs.subrange(l, line_end(bs, l))) is Ok
                    implies exists|k: int| 0 <= k < r@.len() && #[trigger] r@[k]@ == parse_bytes(bs.subrange(l, line_end(bs, l)))->Ok_0 by {
                    lemma_line_end_bounds(bs, l);
                    if l > start {
                        assert(bs[l - 1] != 10);
                    } else if l == start {
                        assert(r@[r@.len() - 1]@ == parse_bytes(bs.subrange(l, line_end(bs, l)))->Ok_0);
                    } else {
                        let k = choose|k: int| 0 <= k < before.len() && #[trigger] before[k]@ == parse_bytes(bs.subrange(l, line_end(bs, l)))->Ok_0;
                        assert(r@[k] == before[k]);
                    }
                }
                assert forall|k: int| 0 <= k < r@.len() implies is_listed(bs, #[trigger] r@[k]@) by {
                    if k < before.len() {
                        assert(r@[k] == before[k]);
                    } else {
                        lemma_line_end_bounds(bs, start as int);
                        assert(parse_bytes(bs.subrange(start as int, line_end(bs, start as int))) == Ok::<Seq<u8>, WordError>(r@[k]@));
                    }
                }
            }
            start = i + 1;
        }
        i = i + 1;
    }
    proof {
        lemma_line_end(bs, start as int, n as int);
    }
    let ghost before = r@;
    let parsed = crate::word::word_from_bytes(b, start, n);
    if let Ok(w) = parsed {
        r.push(w);
    }
    proof {
        lemma_line_end_bounds(bs, start as int);
        assert(words_from(bs, n + 1) =~= Seq::<Seq<u8>>::empty());
        assert(r@.map_values(|w: Word| w@) =~= before.map_values(|w: Word| w@) + words_from(
            bs,
            start as int,
        ));
        assert forall|w: Seq<u8>| is_listed(bs, w) implies exists|k: int| 0 <= k < r@.len() && #[trigger] r@[k]@ == w by {
            let l = choose|l: int| is_line_start(bs, l) && #[trigger] parse_bytes(bs.subrange(l, line_end(bs, l))) == Ok::<Seq<u8>, WordError>(w);
            lemma_line_end_bounds(bs, l);
            if l > start {
                assert(bs[l - 1] != 10);
            } else if l == start {
                assert(r@[r@.len() - 1]@ == w);
            } else {
                let k = choose|k: int| 0 <= k < before.len() && #[trigger] before[k]@ == parse_bytes(bs.subrange(l, line_end(bs, l)))->Ok_0;
                assert(r@[k] == before[k]);
            }
        }
        assert forall|k: int| 0 <= k < r@.len() implies is_listed(bs, #[trigger] r@[k]@) by {
            if k < before.len() {
                assert(r@[k] == before[k]);
            } else {
                lemma_line_end_bounds(bs, start as int);
                assert(parse_bytes(bs.subrange(start as int, line_end(bs, start as int))) == Ok::<Seq<u8>, WordError>(r@[k]@));
            }
        }
    }
    r
}

} // verus!
