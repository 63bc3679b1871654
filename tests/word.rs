use swordle::bank::WordBank;
use swordle::word::WordError;
use swordle::Word;

fn run_constructor_tests(cases: &[&str], expected: &WordError) {
    let bank = WordBank::new();
    for input in cases {
        assert_eq!(Word::new(input, &bank).as_ref(), Err(expected));
    }
}

#[test]
fn constructor_returns_letter_error_when_invalid_letter() {
    let test_cases = ["cr√•ne", "sh-me", "cr4bs"];
    run_constructor_tests(&test_cases, &WordError::Letter);
}

#[test]
fn constructor_returns_length_error_when_invalid_len() {
    let test_cases = ["automobile", "ego", "", " base", "some\t"];
    run_constructor_tests(&test_cases, &WordError::Length);
}

#[test]
fn constructor_returns_bank_error_when_invalid_word() {
    let test_cases = ["asdfg", "crune", "falst"];
    run_constructor_tests(&test_cases, &WordError::Bank);
}

#[test]
fn construction_trims_and_lowercases() {
    let bank = WordBank::new();
    let word = Word::new("  CrAnE\t\n", &bank).unwrap();
    assert_eq!(word.as_str(), "crane");
    assert_eq!(word.as_bytes(), b"crane");
    let word = Word::new_no_dict("\u{3000}ZZYZX ").unwrap();
    assert_eq!(word.as_str(), "zzyzx");
}

#[test]
fn letters_are_checked_before_length() {
    assert_eq!(Word::new_no_dict("ab1defgh"), Err(WordError::Letter));
    assert_eq!(Word::new_no_dict("abcdefgh"), Err(WordError::Length));
    assert_eq!(Word::new_no_dict("ab"), Err(WordError::Length));
}

#[test]
fn word_accessors() {
    let bank = WordBank::new();
    let word = Word::new("Hunky", &bank).unwrap();
    assert_eq!(word.chars(), vec!['h', 'u', 'n', 'k', 'y']);
    assert_eq!(word.len(), 5);
    assert!(!word.is_empty());
    assert_eq!(word.letter(1), b'u');
    assert!(Word::new("aback", &bank).unwrap().code() < Word::new("abase", &bank).unwrap().code());
}
