use swordle::Placement;

#[test]
fn ord_works() {
    let assertions = [
        Placement::Incorrect < Placement::Misplaced,
        Placement::Incorrect < Placement::Correct,
        Placement::Misplaced < Placement::Correct,
        Placement::Correct > Placement::Misplaced,
        Placement::Correct > Placement::Incorrect,
        Placement::Misplaced > Placement::Incorrect,
        Placement::Incorrect == Placement::Incorrect,
        Placement::Misplaced == Placement::Misplaced,
        Placement::Correct == Placement::Correct,
    ];

    for assertion in assertions {
        assert!(assertion);
    }
}

#[test]
fn merge_keeps_the_larger() {
    assert_eq!(Placement::Incorrect.merge(Placement::Misplaced), Placement::Misplaced);
    assert_eq!(Placement::Correct.merge(Placement::Incorrect), Placement::Correct);
    assert_eq!(Placement::Misplaced.merge(Placement::Correct), Placement::Correct);
    assert_eq!(Placement::Incorrect.merge(Placement::Incorrect), Placement::Incorrect);
}
