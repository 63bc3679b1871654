use vstd::prelude::*;

use crate::guess::Guess;
use crate::letter_bank::{
    byte_to_index, fill_unseen, index_to_byte, record_upto, reported, ALPHABET_LENGTH,
};
use crate::placement::Placement;
use crate::word::WORD_LENGTH;

verus! {

/// The keyboard of a game: each letter of the alphabet with the best placement known of it.
///
/// It learns from guesses as a [`LetterBank`](crate::letter_bank::LetterBank) does.
#[derive(Debug, Clone, Copy)]
pub struct Alphabet([Option<Placement>; ALPHABET_LENGTH]);

impl View for Alphabet {
    type V = Seq<Option<Placement>>;

    closed spec fn view(&self) -> Seq<Option<Placement>> {
        self.0@
    }
}

impl Alphabet {
    /// A keyboard on which no letter was observed.
    pub fn new() -> (r: Alphabet)
        ensures
            r@ == Seq::new(ALPHABET_LENGTH as nat, |k: int| None::<Placement>),
    {
        let slots: [Option<Placement>; ALPHABET_LENGTH] = [None; ALPHABET_LENGTH];
        proof {
            assert(slots@ =~= Seq::new(ALPHABET_LENGTH as nat, |k: int| None::<Placement>));
        }
        Alphabet(slots)
    }

    /// Every keyboard shows the twenty-six letters.
    pub fn len(&self) -> (r: usize)
        ensures
            r == self@.len(),
            r == ALPHABET_LENGTH,
    {
        ALPHABET_LENGTH
    }

    /// Each letter from `a` to `z` with the best placement known of it.
    pub fn letters(&self) -> (r: Vec<(u8, Option<Placement>)>)
        ensures
            self@.len() == ALPHABET_LENGTH,
            r@.len() == ALPHABET_LENGTH,
            forall|k: int| 0 <= k < ALPHABET_LENGTH ==> #[trigger] r@[k] == ((k + 97) as u8, self@[k]),
    {
        let mut r: Vec<(u8, Option<Placement>)> = Vec::new();
        let mut k: usize = 0;
        while k < ALPHABET_LENGTH
            invariant
                k <= ALPHABET_LENGTH,
                self@.len() == ALPHABET_LENGTH,
                r@.len() == k,
                forall|j: int| 0 <= j < k ==> #[trigger] r@[j] == ((j + 97) as u8, self@[j]),
            decreases ALPHABET_LENGTH - k,
        {
            r.push((index_to_byte(k), self.0[k]));
            k = k + 1;
        }
        r
    }

    /// Merges the outcome of `guess` into the keyboard.
    ///
    /// Each letter of the guess keeps the larger of what was known and what was observed. A
    /// correct guess reveals the solution, so every letter never observed becomes incorrect.
    pub fn report_guess(&mut self, guess: &Guess)
        ensures
            final(self)@ == reported(old(self)@, *guess),
    {
        let word = guess.word();
        let placements = guess.result();
        let _ = word.as_bytes();
        let mut i: usize = 0;
        while i < WORD_LENGTH
            invariant
                i <= WORD_LENGTH,
                word@.len() == WORD_LENGTH,
                *word == guess.spec_word(),
                placements@ == guess.spec_placements(),
                self.0@ == record_upto(old(self)@, word@, placements@, i as int),
            decreases WORD_LENGTH - i,
        {
            let k = byte_to_index(word.letter(i));
            let p = placements[i];
            let next = match self.0[k] {
                Some(e) => Some(e.merge(p)),
                None => Some(p),
            };
            self.0[k] = next;
            i = i + 1;
        }
        if guess.is_correct() {
            let ghost recorded = self.0@;
            let mut k: usize = 0;
            while k < ALPHABET_LENGTH
                invariant
                    k <= ALPHABET_LENGTH,
                    recorded.len() == ALPHABET_LENGTH,
                    self.0@.len() == ALPHABET_LENGTH,
                    forall|j: int| 0 <= j < k ==> #[trigger] self.0@[j] == fill_unseen(recorded)[j],
                    forall|j: int| k <= j < ALPHABET_LENGTH ==> #[trigger] self.0@[j] == recorded[j],
                decreases ALPHABET_LENGTH - k,
            {
                if self.0[k].is_none() {
                    self.0[k] = Some(Placement::Incorrect);
                }
                k = k + 1;
            }
            proof {
                assert(self.0@ =~= fill_unseen(recorded));
            }
        }
    }
}

} // verus!
