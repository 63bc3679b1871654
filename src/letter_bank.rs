use vstd::prelude::*;

use crate::guess::{all_correct, Guess};
use crate::placement::Placement;
use crate::word::{is_lower_letter, WORD_LENGTH};

verus! {

/// The number of letters in the alphabet.
pub const ALPHABET_LENGTH: usize = 26;

/// The slot of a lower-case letter in a tracker: `a` is 0, `z` is 25.
pub open spec fn slot_of(b: u8) -> int {
    b as int - 97
}

/// The slot of a lower-case letter in a tracker.
pub fn byte_to_index(byte: u8) -> (r: usize)
    requires
        is_lower_letter(byte),
    ensures
        r == slot_of(byte),
        r < ALPHABET_LENGTH,
{
    (byte - 97) as usize
}

/// The lower-case letter of a slot of a tracker.
pub fn index_to_byte(index: usize) -> (r: u8)
    requires
        index < ALPHABET_LENGTH,
    ensures
        is_lower_letter(r),
        slot_of(r) == index,
{
    index as u8 + 97
}

/// `o` merged with the observation `p`: the larger of the two, or `p` where nothing was known.
pub open spec fn merged(o: Option<Placement>, p: Placement) -> Option<Placement> {
    match o {
        Some(e) => Some(e.spec_max(p)),
        None => Some(p),
    }
}

/// `slots` after recording the observations of the first `n` letters of `word`.
pub open spec fn record_upto(
    slots: Seq<Option<Placement>>,
    word: Seq<u8>,
    ps: Seq<Placement>,
    n: int,
) -> Seq<Option<Placement>>
    decreases n,
{
    if n <= 0 {
        slots
    } else {
        let prev = record_upto(slots, word, ps, n - 1);
        let k = slot_of(word[n - 1]);
        prev.update(k, merged(prev[k], ps[n - 1]))
    }
}

/// `slots` with every letter never observed marked incorrect.
pub open spec fn fill_unseen(slots: Seq<Option<Placement>>) -> Seq<Option<Placement>> {
    Seq::new(
        slots.len(),
        |k: int|
            if slots[k] is None {
                Some(Placement::Incorrect)
            } else {
                slots[k]
            },
    )
}

/// What a tracker knows after a guess is reported to it.
///
/// Each letter of the guess is merged with what was known of it. A correct guess reveals the
/// whole solution, so every letter still unseen is then known to be incorrect.
pub open spec fn reported(slots: Seq<Option<Placement>>, guess: Guess) -> Seq<Option<Placement>> {
    match guess {
        Guess::Correct(w) => fill_unseen(record_upto(slots, w@, all_correct(), WORD_LENGTH as int)),
        Guess::Incorrect(w, p) => record_upto(slots, w@, p@, WORD_LENGTH as int),
    }
}

/// Whether `new` knows at least as much as `old` of every letter.
pub open spec fn no_downgrade(old: Seq<Option<Placement>>, new: Seq<Option<Placement>>) -> bool {
    &&& new.len() == old.len()
    &&& forall|k: int|
        0 <= k < old.len() && (#[trigger] old[k]) is Some ==> new[k] is Some && old[k]->0.rank()
            <= new[k]->0.rank()
}

/// Recording observations never downgrades what is known of a letter.
proof fn lemma_record_no_downgrade(
    slots: Seq<Option<Placement>>,
    word: Seq<u8>,
    ps: Seq<Placement>,
    n: int,
)
    requires
        slots.len() == ALPHABET_LENGTH,
        0 <= n <= word.len(),
        forall|i: int| 0 <= i < word.len() ==> is_lower_letter(#[trigger] word[i]),
    ensures
        no_downgrade(slots, record_upto(slots, word, ps, n)),
    decreases n,
{
    if n > 0 {
        lemma_record_no_downgrade(slots, word, ps, n - 1);
        assert(is_lower_letter(word[n - 1]));
    }
}

/// Reporting a guess never downgrades what a tracker knows of any letter.
pub proof fn lemma_report_no_downgrade(slots: Seq<Option<Placement>>, guess: Guess)
    requires
        slots.len() == ALPHABET_LENGTH,
        guess.spec_word()@.len() == WORD_LENGTH,
        forall|i: int|
            0 <= i < WORD_LENGTH ==> is_lower_letter(#[trigger] guess.spec_word()@[i]),
    ensures
        no_downgrade(slots, reported(slots, guess)),
{
    let w = guess.spec_word()@;
    lemma_record_no_downgrade(slots, w, guess.spec_placements(), WORD_LENGTH as int);
}

/// Once a letter is known to be correct, no reported guess changes that.
pub proof fn lemma_correct_is_kept(slots: Seq<Option<Placement>>, guess: Guess, letter: u8)
    requires
        slots.len() == ALPHABET_LENGTH,
        guess.spec_word()@.len() == WORD_LENGTH,
        forall|i: int|
            0 <= i < WORD_LENGTH ==> is_lower_letter(#[trigger] guess.spec_word()@[i]),
        is_lower_letter(letter),
        slots[slot_of(letter)] == Some(Placement::Correct),
    ensures
        reported(slots, guess)[slot_of(letter)] == Some(Placement::Correct),
{
    lemma_report_no_downgrade(slots, guess);
    let k = slot_of(letter);
    assert(slots[k] is Some);
}

/// The best placement known so far of each letter of the alphabet.
#[derive(Debug, Clone, Copy)]
pub struct LetterBank {
    slots: [Option<Placement>; ALPHABET_LENGTH],
}

impl View for LetterBank {
    type V = Seq<Option<Placement>>;

    closed spec fn view(&self) -> Seq<Option<Placement>> {
        self.slots@
    }
}

impl LetterBank {
    /// A bank that knows nothing of any letter.
    pub fn new() -> (r: LetterBank)
        ensures
            r@ == Seq::new(ALPHABET_LENGTH as nat, |k: int| None::<Placement>),
    {
        let slots: [Option<Placement>; ALPHABET_LENGTH] = [None; ALPHABET_LENGTH];
        proof {
            assert(slots@ =~= Seq::new(ALPHABET_LENGTH as nat, |k: int| None::<Placement>));
        }
        LetterBank { slots }
    }

    /// Every bank tracks the twenty-six letters.
    pub fn len(&self) -> (r: usize)
        ensures
            r == self@.len(),
            r == ALPHABET_LENGTH,
    {
        self.slots.len()
    }

    /// The best placement known of `letter`, or `None` if it was never observed.
    pub fn get(&self, letter: &u8) -> (r: Option<Placement>)
        requires
            is_lower_letter(*letter),
        ensures
            self@.len() == ALPHABET_LENGTH,
            r == self@[slot_of(*letter)],
    {
        self.slots[byte_to_index(*letter)]
    }

    /// Merges the outcome of `guess` into the bank.
    ///
    /// Each letter of the guess keeps the larger of what was known and what was observed. A
    /// correct guess reveals the solution, so every letter never observed becomes incorrect.
    pub fn report_guess(&mut self, guess: &Guess)
        ensures
            final(self)@ == reported(old(self)@, *guess),
    {
        let word = guess.word();
        let placements = guess.placements();
        let _ = word.as_bytes();
        let mut i: usize = 0;
        while i < WORD_LENGTH
            invariant
                i <= WORD_LENGTH,
                self.slots@.len() == ALPHABET_LENGTH,
                word@.len() == WORD_LENGTH,
                *word == guess.spec_word(),
                placements@ == guess.spec_placements(),
                self.slots@ == record_upto(old(self)@, word@, placements@, i as int),
            decreases WORD_LENGTH - i,
        {
            let k = byte_to_index(word.letter(i));
            let p = placements[i];
            let next = match self.slots[k] {
                Some(e) => Some(e.merge(p)),
                None => Some(p),
            };
            self.slots[k] = next;
            i = i + 1;
        }
        if guess.is_correct() {
            let ghost recorded = self.slots@;
            let mut k: usize = 0;
            while k < ALPHABET_LENGTH
                invariant
                    k <= ALPHABET_LENGTH,
                    recorded.len() == ALPHABET_LENGTH,
                    self.slots@.len() == ALPHABET_LENGTH,
                    forall|j: int| 0 <= j < k ==> #[trigger] self.slots@[j] == fill_unseen(recorded)[j],
                    forall|j: int| k <= j < ALPHABET_LENGTH ==> #[trigger] self.slots@[j] == recorded[j],
                decreases ALPHABET_LENGTH - k,
            {
                if self.slots[k].is_none() {
                    self.slots[k] = Some(Placement::Incorrect);
                }
                k = k + 1;
            }
            proof {
                assert(self.slots@ =~= fill_unseen(recorded));
            }
        }
    }
}

} // verus!
