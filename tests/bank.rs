use swordle::bank::{contains, random_solution, WordBank};
use swordle::Word;

#[test]
fn contains_works_for_solution_words() {
    let bank = WordBank::new();
    let cases: &[&str] = &["crane", "audio", "skill"];

    for input in cases {
        let word = Word::new_no_dict(input).unwrap();
        assert!(contains(&bank, word));
    }
}

#[test]
fn contains_works_for_guess_words() {
    let bank = WordBank::new();
    let cases: &[&str] = &["adieu", "adios"];

    for input in cases {
        let word = Word::new_no_dict(input).unwrap();
        assert!(contains(&bank, word));
    }
}

#[test]
fn contains_works_for_invalid_words() {
    let bank = WordBank::new();
    let cases: &[&str] = &["scxla", "zzyzx"];

    for input in cases {
        let word = Word::new_no_dict(input).unwrap();
        assert!(!contains(&bank, word));
    }
}

#[test]
fn random_solution_is_in_the_bank() {
    let bank = WordBank::new();
    for _ in 0..10 {
        let word = random_solution(&bank).unwrap();
        assert!(contains(&bank, word));
    }
}
