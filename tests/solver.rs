use swordle::bank::WordBank;
use swordle::solver::{Solver, SolverResult};
use swordle::strategy::{Cursor, Strategy};
use swordle::{Guess, Placement, Word};

const B: Placement = Placement::Incorrect;
const Y: Placement = Placement::Misplaced;
const G: Placement = Placement::Correct;

#[test]
fn suggest_works() {
    let bank = WordBank::new();
    let mut solver = Solver::new(Strategy::Normal);

    let suggestions = ["salet", "courd", "gimpy", "funky"];
    let solution = Word::new("hunky", &bank).unwrap();

    for suggestion in suggestions {
        let word = solver.suggest().unwrap();
        assert_eq!(word.as_str(), suggestion);

        let guess = Guess::new(&solution, word);
        let SolverResult::Solving(s) = solver.report(guess) else {
            panic!();
        };

        solver = s;
    }

    assert_eq!(Some(solution), solver.suggest());

    let guess = Guess::Correct(solution);
    let SolverResult::Solved { solution: s, .. } = solver.report(guess) else {
        panic!();
    };

    assert_eq!(solution, s);
}

#[test]
fn solver_reports_each_step_of_the_scenario() {
    let mut cursor = Cursor::new(Strategy::Normal);
    assert_eq!(cursor.suggest().unwrap().as_str(), "salet");
    cursor = cursor.report([B, B, B, B, B]).unwrap();
    assert_eq!(cursor.suggest().unwrap().as_str(), "courd");
    cursor = cursor.report([B, B, Y, B, B]).unwrap();
    assert_eq!(cursor.suggest().unwrap().as_str(), "gimpy");
    cursor = cursor.report([B, B, B, B, G]).unwrap();
    assert_eq!(cursor.suggest().unwrap().as_str(), "funky");
    cursor = cursor.report([B, G, G, G, G]).unwrap();
    assert_eq!(cursor.suggest().unwrap().as_str(), "hunky");
    assert_eq!(cursor.num_guesses(), 4);
}

#[test]
fn solver_solves_every_listed_solution_of_the_normal_table() {
    let bank = WordBank::new();
    for text in ["crane", "famed", "zebra", "aback", "vivid"] {
        let solution = Word::new(text, &bank).unwrap();
        let mut solver = Solver::new(Strategy::Normal);
        let mut solved = false;
        for _ in 0..6 {
            let word = solver.suggest().unwrap();
            match solver.report(Guess::new(&solution, word)) {
                SolverResult::Solving(s) => solver = s,
                SolverResult::Solved { solution: s, guesses } => {
                    assert_eq!(s, solution);
                    assert!(guesses.last().unwrap().is_correct());
                    solved = true;
                    break;
                }
            }
        }
        assert!(solved, "{text} was not solved");
    }
}

#[test]
fn hard_strategy_starts_with_salet() {
    let solver = Solver::new(Strategy::Hard);
    assert_eq!(solver.suggest().unwrap().as_str(), "salet");
    assert_eq!(Strategy::default(), Strategy::Normal);
}

#[test]
fn cursor_past_the_last_guess_suggests_nothing() {
    let mut cursor = Cursor::new(Strategy::Normal);
    for _ in 0..7 {
        cursor = cursor.report([Placement::Incorrect; 5]).unwrap();
    }
    assert_eq!(cursor.suggest(), None);
}

#[test]
fn unknown_feedback_keeps_the_row() {
    let cursor = Cursor::new(Strategy::Normal)
        .report([B, B, B, B, B])
        .unwrap()
        .report([Y, Y, Y, Y, Y])
        .unwrap();
    // No line holds that feedback: the cursor stays on the row it was on.
    assert_eq!(cursor.suggest().unwrap().as_str(), "vivid");
}

#[test]
fn all_correct_feedback_ends_the_session() {
    let cursor = Cursor::new(Strategy::Normal);
    assert_eq!(cursor.report([G; 5]), None);

    let solution = Word::new_no_dict("salet").unwrap();
    let solver = Solver::new(Strategy::Normal);
    let SolverResult::Solved { solution: s, guesses } = solver.report(Guess::Incorrect(solution, [G; 5])) else {
        panic!();
    };
    assert_eq!(s, solution);
    assert_eq!(guesses.len(), 1);
}
