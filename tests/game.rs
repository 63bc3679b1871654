use swordle::dict::{Dictionary, SliceDict};
use swordle::game::{Game, GameError, GameOutcome, PlayingGame};
use swordle::{Guess, Word};

fn word(s: &str) -> Word {
    Word::new_no_dict(s).unwrap()
}

fn dict() -> SliceDict {
    let solutions = ["crane", "famed", "frame", "audio", "skill", "berry", "fifth"];
    SliceDict::new(solutions.iter().map(|s| word(s)).collect(), vec![word("adieu")]).unwrap()
}

#[test]
fn correct_guess_ends_the_game() {
    let d = dict();
    let game = PlayingGame::with_solution(word("famed"));
    let Game::Playing(game) = game.guess(&d, word("frame")) else {
        panic!();
    };
    assert_eq!(game.guesses().len(), 1);
    let Game::Over(outcome) = game.guess(&d, word("famed")) else {
        panic!();
    };
    assert!(outcome.won());
    assert_eq!(outcome.guesses().len(), 2);
    assert_eq!(*outcome.solution(), word("famed"));
}

#[test]
fn six_guesses_end_the_game() {
    let d = dict();
    let mut game = PlayingGame::with_solution(word("famed"));
    for i in 0..6 {
        match game.guess(&d, word("adieu")) {
            Game::Playing(g) => {
                assert!(i < 5);
                assert_eq!(g.guesses().len(), i + 1);
                game = g;
            }
            Game::Over(outcome) => {
                assert_eq!(i, 5);
                assert_eq!(outcome.guesses().len(), 6);
                assert!(!outcome.won());
                return;
            }
            Game::Rejected(..) => panic!(),
        }
    }
    panic!("the game did not end");
}

#[test]
fn rejected_word_spends_no_guess() {
    let d = dict();
    let game = PlayingGame::with_solution(word("famed"));
    let Game::Playing(game) = game.guess(&d, word("crane")) else {
        panic!();
    };
    let Game::Rejected(game, GameError::InvalidWord(w)) = game.guess(&d, word("zzyzx")) else {
        panic!();
    };
    assert_eq!(w, word("zzyzx"));
    assert_eq!(game.guesses().len(), 1);
    assert_eq!(game.letter_bank().get(&b'z'), None);
    assert_eq!(game.alphabet().letters()[(b'c' - b'a') as usize].1, Some(swordle::Placement::Incorrect));
}

#[test]
fn new_game_picks_a_solution_of_the_dictionary() {
    let d = dict();
    let Game::Playing(game) = Game::new(&d) else {
        panic!();
    };
    assert!(game.guesses().is_empty());
    let game = PlayingGame::new(&d);
    assert!(game.clone().guesses().is_empty());
}

#[test]
fn outcome_won_looks_at_the_last_guess() {
    let solution = word("crane");
    let lost = GameOutcome::new(solution, vec![Guess::new(&solution, word("frame")); 6]);
    assert!(!lost.won());
    let won = GameOutcome::new(solution, vec![Guess::new(&solution, word("frame")), Guess::Correct(solution)]);
    assert!(won.won());
    assert_eq!(won.clone().guesses().len(), 2);
    assert!(dict().contains(&solution));
}

#[test]
fn game_over_on_correct_guess_is_won() {
    let d = dict();
    let game = PlayingGame::with_solution(word("skill"));
    let Game::Over(outcome) = game.guess(&d, word("skill")) else {
        panic!();
    };
    assert!(outcome.won());
    assert_eq!(outcome.guesses(), &[Guess::Correct(word("skill"))]);
}
