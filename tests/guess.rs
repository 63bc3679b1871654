use swordle::{Guess, Placement, Word};

fn word(s: &str) -> Word {
    Word::new_no_dict(s).unwrap()
}

#[test]
fn duplicate_letters_are_scored_once() {
    let guess = Guess::new(&word("famed"), word("frame"));
    assert_eq!(
        guess.placements(),
        [
            Placement::Correct,
            Placement::Incorrect,
            Placement::Misplaced,
            Placement::Misplaced,
            Placement::Misplaced
        ]
    );
    assert!(!guess.is_correct());
    assert_eq!(*guess.word(), word("frame"));
}

#[test]
fn equal_words_are_correct() {
    let guess = Guess::new(&word("crane"), word("crane"));
    assert_eq!(guess, Guess::Correct(word("crane")));
    assert!(guess.is_correct());
    assert_eq!(guess.result(), [Placement::Correct; 5]);
}

#[test]
fn earlier_letters_claim_misplaced_credit_first() {
    // Two unmatched "e"s in the solution: the first two "e"s of the guess are misplaced and
    // the third is not.
    let guess = Guess::new(&word("speed"), word("eerie"));
    assert_eq!(
        guess.placements(),
        [
            Placement::Misplaced,
            Placement::Misplaced,
            Placement::Incorrect,
            Placement::Incorrect,
            Placement::Incorrect
        ]
    );
    // The only "e" of the solution is matched exactly, so no other "e" is misplaced.
    let guess = Guess::new(&word("abide"), word("eerie"));
    assert_eq!(
        guess.placements(),
        [
            Placement::Incorrect,
            Placement::Incorrect,
            Placement::Incorrect,
            Placement::Misplaced,
            Placement::Correct
        ]
    );
}

#[test]
fn exact_match_beats_misplaced() {
    let guess = Guess::new(&word("lever"), word("eeeee"));
    assert_eq!(
        guess.placements(),
        [
            Placement::Incorrect,
            Placement::Correct,
            Placement::Incorrect,
            Placement::Correct,
            Placement::Incorrect
        ]
    );
}
