use itrivia::status::{player_won, question_mark, status_summary, GameStatus, QuestionMark, QuestionResult};

fn status(allowed: u8, results: Vec<QuestionResult>) -> GameStatus {
    GameStatus { game_over: false, min_guess_delta: 3, allowed_questions: allowed, trivia_results: results }
}

#[test]
fn summary_one_correct_of_three() {
    let s = status(3, vec![QuestionResult { index: 1, correct: true }]);
    assert_eq!(
        status_summary(&s),
        vec![QuestionMark::Correct, QuestionMark::Unanswered, QuestionMark::Unanswered]
    );
}

#[test]
fn summary_mixed_and_out_of_range() {
    let s = status(
        3,
        vec![
            QuestionResult { index: 3, correct: false },
            QuestionResult { index: 7, correct: true },
            QuestionResult { index: 2, correct: true },
        ],
    );
    assert_eq!(
        status_summary(&s),
        vec![QuestionMark::Unanswered, QuestionMark::Correct, QuestionMark::Incorrect]
    );
}

#[test]
fn summary_empty_game() {
    assert_eq!(status_summary(&status(0, vec![])), vec![]);
}

#[test]
fn summary_first_entry_for_an_index_wins() {
    let r = vec![QuestionResult { index: 1, correct: false }, QuestionResult { index: 1, correct: true }];
    assert_eq!(question_mark(&r, 1), QuestionMark::Incorrect);
    assert_eq!(question_mark(&r, 2), QuestionMark::Unanswered);
}

#[test]
fn won_when_any_correct() {
    assert!(player_won(&status(2, vec![QuestionResult { index: 2, correct: true }])));
    assert!(!player_won(&status(2, vec![QuestionResult { index: 1, correct: false }])));
    assert!(!player_won(&status(2, vec![])));
}
