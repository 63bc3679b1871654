use swordle::bank::WordBank;
use swordle::alphabet::Alphabet;
use swordle::letter_bank::LetterBank;
use swordle::{Guess, Placement, Word};

#[test]
fn report_guess_works_for_correct_guess() {
    let bank = WordBank::new();
    let mut letter_bank = LetterBank::new();
    let word = Word::new("crane", &bank).unwrap();
    let guess = Guess::Correct(word);

    letter_bank.report_guess(&guess);

    for letter in word.as_bytes() {
        assert_eq!(letter_bank.get(letter), Some(Placement::Correct));
    }

    for letter in b'a'..=b'z' {
        if !"crane".as_bytes().contains(&letter) {
            assert_eq!(letter_bank.get(&letter), Some(Placement::Incorrect));
        }
    }
}

#[test]
fn report_guess_works_for_incorrect_guesses() {
    let bank = WordBank::new();
    let mut letter_bank = LetterBank::new();
    let solution = Word::new("famed", &bank).unwrap();

    let guess = Guess::new(&solution, Word::new("frame", &bank).unwrap());
    letter_bank.report_guess(&guess);

    assert_eq!(letter_bank.get(&b'f'), Some(Placement::Correct));
    assert_eq!(letter_bank.get(&b'r'), Some(Placement::Incorrect));
    assert_eq!(letter_bank.get(&b'a'), Some(Placement::Misplaced));
    assert_eq!(letter_bank.get(&b'm'), Some(Placement::Misplaced));
    assert_eq!(letter_bank.get(&b'e'), Some(Placement::Misplaced));

    let guess = Guess::new(&solution, Word::new("fames", &bank).unwrap());
    letter_bank.report_guess(&guess);

    assert_eq!(letter_bank.get(&b'f'), Some(Placement::Correct));
    assert_eq!(letter_bank.get(&b'a'), Some(Placement::Correct));
    assert_eq!(letter_bank.get(&b'm'), Some(Placement::Correct));
    assert_eq!(letter_bank.get(&b'e'), Some(Placement::Correct));
    assert_eq!(letter_bank.get(&b's'), Some(Placement::Incorrect));
}

#[test]
fn correct_letter_is_never_downgraded() {
    let bank = WordBank::new();
    let mut letter_bank = LetterBank::new();
    let solution = Word::new("crane", &bank).unwrap();
    letter_bank.report_guess(&Guess::new(&solution, Word::new("cabin", &bank).unwrap()));
    assert_eq!(letter_bank.get(&b'c'), Some(Placement::Correct));
    // "acorn" has its c in the wrong place: still known correct.
    letter_bank.report_guess(&Guess::new(&solution, Word::new("acorn", &bank).unwrap()));
    assert_eq!(letter_bank.get(&b'c'), Some(Placement::Correct));
    assert_eq!(letter_bank.get(&b'o'), Some(Placement::Incorrect));
    assert_eq!(letter_bank.get(&b'z'), None);
    assert_eq!(letter_bank.len(), 26);
}

#[test]
fn alphabet_merges_observations() {
    let bank = WordBank::new();
    let mut alphabet = Alphabet::new();
    let letters = alphabet.letters();
    assert_eq!(letters.len(), 26);
    assert_eq!(letters[0], (b'a', None));
    assert_eq!(letters[25], (b'z', None));

    let solution = Word::new("famed", &bank).unwrap();
    alphabet.report_guess(&Guess::new(&solution, Word::new("frame", &bank).unwrap()));
    alphabet.report_guess(&Guess::Correct(solution));
    let letters = alphabet.letters();
    assert_eq!(letters[(b'f' - b'a') as usize], (b'f', Some(Placement::Correct)));
    assert_eq!(letters[(b'r' - b'a') as usize], (b'r', Some(Placement::Incorrect)));
    assert_eq!(letters[(b'a' - b'a') as usize], (b'a', Some(Placement::Correct)));
    // A correct guess reveals the solution: letters never seen are incorrect.
    assert_eq!(letters[(b'z' - b'a') as usize], (b'z', Some(Placement::Incorrect)));
    assert_eq!(alphabet.len(), 26);
}
