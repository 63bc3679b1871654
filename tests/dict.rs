use swordle::bank::WordBank;
use swordle::dict::{str_to_words, Dictionary, DictionaryErr, SliceDict};
use swordle::hash_dict::HashDict;
use swordle::Word;

#[test]
fn default_has_words_from_assets_files() {
    let bank = WordBank::new();
    let dict = SliceDict::default().unwrap();

    for word in ["berry", "fifth", "truss"] {
        assert!(
            dict.contains(&Word::new(word, &bank).unwrap()),
            "dict should contain word from solutions: {word}",
        );
    }

    for word in ["belay", "boxes"] {
        assert!(
            dict.contains(&Word::new(word, &bank).unwrap()),
            "dict should contain word from additional_guesses: {word}",
        );
    }
}

#[test]
fn empty_solutions_are_refused() {
    let result = SliceDict::new(vec![], vec![]);
    assert!(matches!(result, Err(DictionaryErr::NoSolutions)));
    let guesses = vec![Word::new_no_dict("adieu").unwrap()];
    assert!(matches!(SliceDict::new(vec![], guesses), Err(DictionaryErr::NoSolutions)));
}

#[test]
fn random_solution_is_contained() {
    let words = str_to_words("zebra\ncrane\nABACK\n bad line\nhunky\n");
    assert_eq!(words.len(), 4);
    let extra = str_to_words("adieu\n");
    let dict = SliceDict::new(words.clone(), extra).unwrap();
    for _ in 0..20 {
        let w = dict.random_solution();
        assert!(dict.contains(&w));
        assert!(words.contains(&w));
    }
    assert!(dict.contains(&Word::new_no_dict("adieu").unwrap()));
    assert!(dict.contains(&Word::new_no_dict("aback").unwrap()));
    assert!(!dict.contains(&Word::new_no_dict("funky").unwrap()));
}

#[test]
fn default_dictionary_is_built_in() {
    let dict = swordle::dict::default().unwrap();
    assert!(dict.contains(&Word::new_no_dict("salet").unwrap()));
    assert!(!dict.contains(&Word::new_no_dict("zzyzx").unwrap()));
    let solution = Word::random(&dict);
    assert!(dict.contains(&solution));
}

#[test]
fn text_lines_become_words() {
    let words = str_to_words("one\ncrane\r\nfrAme\n\nlast5");
    let texts: Vec<&str> = words.iter().map(|w| w.as_str()).collect();
    assert_eq!(texts, vec!["frame"]);
    assert!(str_to_words("").is_empty());
    assert_eq!(str_to_words("crane").len(), 1);
}

#[test]
fn hash_dict_agrees_with_slice_dict() {
    let solutions = str_to_words("zebra\ncrane\nhunky\n");
    let extra = str_to_words("adieu\n");
    let dict = HashDict::new(solutions.clone(), extra).unwrap();
    for _ in 0..20 {
        let w = dict.random_solution();
        assert!(dict.contains(&w));
        assert!(solutions.contains(&w));
    }
    assert!(dict.contains(&Word::new_no_dict("adieu").unwrap()));
    assert!(!dict.contains(&Word::new_no_dict("funky").unwrap()));
    assert!(matches!(HashDict::new(vec![], vec![]), Err(DictionaryErr::NoSolutions)));
    let built_in = HashDict::default().unwrap();
    assert!(built_in.contains(&Word::new_no_dict("belay").unwrap()));
    assert!(built_in.contains(&Word::new_no_dict("truss").unwrap()));
}
