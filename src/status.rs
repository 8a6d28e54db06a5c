//! The game status the server reports, and the per-question summary shown
//! beside the current question.
use vstd::prelude::*;

verus! {

/// How one question of the game went.
#[derive(Clone, Copy, Debug, PartialEq, Eq, Structural)]
pub struct QuestionResult {
    pub correct: bool,
    pub index: u8,
}

/// The server's view of the game as a whole.
#[derive(Clone, Debug, PartialEq, Eq)]
pub struct GameStatus {
    pub game_over: bool,
    pub min_guess_delta: u64,
    pub allowed_questions: u8,
    pub trivia_results: Vec<QuestionResult>,
}

/// How a question stands in the summary.
#[derive(Clone, Copy, Debug, PartialEq, Eq, Structural)]
pub enum QuestionMark {
    Unanswered,
    Correct,
    Incorrect,
}

/// The mark of question `index`: taken from the first result with that
/// index, unanswered where there is none.
pub open spec fn mark_of(results: Seq<QuestionResult>, index: u8) -> QuestionMark
    decreases results.len(),
{
    if results.len() == 0 {
        QuestionMark::Unanswered
    } else if results[0].index == index {
        if results[0].correct {
            QuestionMark::Correct
        } else {
            QuestionMark::Incorrect
        }
    } else {
        mark_of(results.subrange(1, results.len() as int), index)
    }
}

/// The summary of `status`: one mark for each question from 1 to
/// `allowed_questions`, in order.
pub open spec fn summary_of(status: GameStatus) -> Seq<QuestionMark> {
    Seq::new(
        status.allowed_questions as nat,
        |i: int| mark_of(status.trivia_results@, (i + 1) as u8),
    )
}

/// The mark of question `index` in `results`.
pub fn question_mark(results: &Vec<QuestionResult>, index: u8) -> (r: QuestionMark)
    ensures
        r == mark_of(results@, index),
{
    let mut j: usize = 0;
    assert(results@.subrange(0, results@.len() as int) =~= results@);
    while j < results.len()
        invariant
            j <= results@.len(),
            mark_of(results@, index) == mark_of(
                results@.subrange(j as int, results@.len() as int),
                index,
            ),
        decreases results@.len() - j,
    {
        let ghost rest = results@.subrange(j as int, results@.len() as int);
        assert(rest[0] == results@[j as int]);
        assert(rest.subrange(1, rest.len() as int) =~= results@.subrange(
            j + 1,
            results@.len() as int,
        ));
        let r = results[j];
        if r.index == index {
            return if r.correct {
                QuestionMark::Correct
            } else {
                QuestionMark::Incorrect
            };
        }
        j = j + 1;
    }
    QuestionMark::Unanswered
}

/// Classifies every question of the game as unanswered, correct or
/// incorrect.
pub fn status_summary(status: &GameStatus) -> (r: Vec<QuestionMark>)
    ensures
        r@ == summary_of(*status),
{
    let n = status.allowed_questions;
    let mut out: Vec<QuestionMark> = Vec::new();
    let mut i: u8 = 0;
    while i < n
        invariant
            i <= n,
            n == status.allowed_questions,
            out@ =~= summary_of(*status).subrange(0, i as int),
        decreases n - i,
    {
        let m = question_mark(&status.trivia_results, i + 1);
        out.push(m);
        i = i + 1;
    }
    out
}

/// At least one question was answered correctly.
pub open spec fn any_correct(results: Seq<QuestionResult>) -> bool {
    exists|i: int| 0 <= i < results.len() && (#[trigger] results[i]).correct
}

/// Whether the player answered at least one question correctly.
pub fn player_won(status: &GameStatus) -> (r: bool)
    ensures
        r == any_correct(status.trivia_results@),
{
    let mut j: usize = 0;
    while j < status.trivia_results.len()
        invariant
            j <= status.trivia_results@.len(),
            forall|k: int| 0 <= k < j ==> !(#[trigger] status.trivia_results@[k]).correct,
        decreases status.trivia_results@.len() - j,
    {
        if status.trivia_results[j].correct {
            assert(status.trivia_results@[j as int].correct);
            return true;
        }
        j = j + 1;
    }
    false
}

} // verus!
