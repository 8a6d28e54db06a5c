use itrivia::answer::{parse_outcome, AnswerOutcome};
use itrivia::session::{Countdown, Effect, Endpoint, Load, Request, ResourceError, Session};
use itrivia::status::{status_summary, GameStatus, QuestionMark, QuestionResult};

fn open_status(results: Vec<QuestionResult>) -> GameStatus {
    GameStatus { game_over: false, min_guess_delta: 8, allowed_questions: 3, trivia_results: results }
}

fn fetch(gen: u64, request: Request) -> Effect {
    Effect::Fetch { gen, request }
}

fn tok() -> Option<String> {
    Some("tok".to_string())
}

/// A session with the game started, token, question and an open status in.
fn armed_session() -> Session {
    let (mut s, _) = Session::new();
    s.start();
    s.token_loaded(2, Ok("tok".to_string()));
    s.question_loaded(3, Ok("How many?".to_string()));
    let fx = s.status_loaded(4, Ok(open_status(vec![])));
    assert_eq!(fx, vec![Effect::ArmTimer { gen: 5 }]);
    s
}

#[test]
fn new_session_fetches_question_without_token() {
    let (s, fx) = Session::new();
    assert!(!s.started);
    assert_eq!(s.token, Load::Failed(ResourceError::NotStarted));
    assert_eq!(fx, vec![fetch(1, Request::NextQuestion { token: None }), Effect::CancelTimer]);
    assert_eq!(s.answer, Load::Failed(ResourceError::NotSubmitted));
    assert_eq!(s.status, Load::Failed(ResourceError::Uninitialized));
}

#[test]
fn no_token_request_before_start() {
    let (mut s, fx) = Session::new();
    assert!(!fx.iter().any(|e| matches!(e, Effect::Fetch { request: Request::NewToken, .. })));
    let fx = s.set_answer("12");
    assert!(fx.is_empty());
    let fx = s.submit();
    assert!(!fx.iter().any(|e| matches!(e, Effect::Fetch { request: Request::NewToken, .. })));
    assert_eq!(s.token, Load::Failed(ResourceError::NotStarted));
}

#[test]
fn start_requests_token() {
    let (mut s, _) = Session::new();
    let fx = s.start();
    assert_eq!(
        fx,
        vec![
            fetch(2, Request::NewToken),
            fetch(2, Request::NextQuestion { token: None }),
            Effect::CancelTimer
        ]
    );
    assert_eq!(s.token, Load::Pending);
    assert_eq!(s.user_answer, "");
    assert!(!s.submitted);
}

#[test]
fn question_request_carries_token() {
    let (mut s, _) = Session::new();
    s.start();
    let fx = s.token_loaded(2, Ok("tok".to_string()));
    assert_eq!(
        fx,
        vec![
            fetch(3, Request::NextQuestion { token: tok() }),
            fetch(3, Request::FetchStatus { token: tok() }),
            Effect::CancelTimer
        ]
    );
    let r = Request::NextQuestion { token: tok() };
    assert_eq!(r.user_header(), Some("tok".to_string()));
    assert_eq!(Request::NextQuestion { token: None }.user_header(), Some(String::new()));
    assert_eq!(Request::NewToken.user_header(), None);
}

#[test]
fn stale_responses_are_discarded() {
    let (mut s, _) = Session::new();
    s.start();
    assert!(s.token_loaded(1, Ok("old".to_string())).is_empty());
    assert_eq!(s.token, Load::Pending);
    s.token_loaded(2, Ok("tok".to_string()));
    assert!(s.token_loaded(2, Ok("again".to_string())).is_empty());
    assert_eq!(s.token, Load::Ready("tok".to_string()));
    assert!(s.question_loaded(2, Ok("stale".to_string())).is_empty());
    assert_eq!(s.question, Load::Pending);
}

#[test]
fn countdown_arms_and_fires_once() {
    let mut s = armed_session();
    assert_eq!(s.countdown, Countdown::Armed { gen: 5 });
    s.set_answer("007");
    let fx = s.countdown_elapsed(5);
    assert!(s.submitted);
    assert_eq!(s.user_answer, "7");
    assert_eq!(s.countdown, Countdown::Idle);
    assert_eq!(
        fx,
        vec![
            fetch(4, Request::SubmitAnswer { token: tok(), body: "7".to_string() }),
            fetch(5, Request::FetchStatus { token: tok() }),
            Effect::CancelTimer
        ]
    );
    assert!(s.countdown_elapsed(5).is_empty());
    assert_eq!(s.answer_gen, 4);
}

#[test]
fn countdown_does_not_fire_after_manual_submit() {
    let mut s = armed_session();
    s.set_answer("3");
    let fx = s.submit();
    assert_eq!(fx.last(), Some(&Effect::CancelTimer));
    assert_eq!(s.countdown, Countdown::Idle);
    let answer_gen = s.answer_gen;
    assert!(s.countdown_elapsed(5).is_empty());
    assert_eq!(s.answer_gen, answer_gen);
}

#[test]
fn countdown_with_empty_answer_submits_zero() {
    let mut s = armed_session();
    s.countdown_elapsed(5);
    assert_eq!(s.user_answer, "0");
}

#[test]
fn countdown_idle_when_game_over() {
    let (mut s, _) = Session::new();
    s.start();
    s.token_loaded(2, Ok("tok".to_string()));
    s.question_loaded(3, Ok("Q".to_string()));
    let mut over = open_status(vec![]);
    over.game_over = true;
    assert_eq!(s.status_loaded(4, Ok(over)), vec![Effect::CancelTimer]);
    assert_eq!(s.countdown, Countdown::Idle);
}

#[test]
fn failed_status_keeps_countdown_idle() {
    let (mut s, _) = Session::new();
    s.start();
    s.token_loaded(2, Ok("tok".to_string()));
    s.question_loaded(3, Ok("Q".to_string()));
    let fx = s.status_loaded(4, Err(ResourceError::Decode("bad json".to_string())));
    assert_eq!(fx, vec![Effect::CancelTimer]);
    assert_eq!(s.status, Load::Failed(ResourceError::Decode("bad json".to_string())));
}

#[test]
fn token_failure_leaves_status_uninitialized() {
    let (mut s, _) = Session::new();
    s.start();
    let fx = s.token_loaded(2, Err(ResourceError::Transport("offline".to_string())));
    assert_eq!(fx, vec![fetch(3, Request::NextQuestion { token: None }), Effect::CancelTimer]);
    assert_eq!(s.status, Load::Failed(ResourceError::Uninitialized));
}

#[test]
fn end_to_end_round() {
    let (mut s, _) = Session::new();
    s.start();
    s.token_loaded(2, Ok("tok".to_string()));
    s.question_loaded(3, Ok("What is the answer?".to_string()));
    s.status_loaded(4, Ok(open_status(vec![])));
    s.set_answer("42");
    let fx = s.submit();
    assert_eq!(fx[0], fetch(4, Request::SubmitAnswer { token: tok(), body: "42".to_string() }));
    let fx = s.answer_loaded(4, Ok("FALSE:50:8".to_string()));
    assert_eq!(fx, vec![fetch(6, Request::FetchStatus { token: tok() }), Effect::CancelTimer]);
    assert_eq!(s.answer, Load::Ready("FALSE:50:8".to_string()));
    assert_eq!(
        parse_outcome("FALSE:50:8"),
        AnswerOutcome::Incorrect { correct_answer: "50".to_string(), difference: "8".to_string() }
    );
    assert!(s.status_loaded(5, Ok(open_status(vec![]))).is_empty());
    s.status_loaded(6, Ok(open_status(vec![QuestionResult { index: 1, correct: false }])));
    match &s.status {
        Load::Ready(st) => assert_eq!(status_summary(st)[0], QuestionMark::Incorrect),
        other => panic!("status not ready: {:?}", other),
    }
    let fx = s.advance();
    assert!(!s.submitted);
    assert_eq!(s.user_answer, "0");
    assert_eq!(s.question, Load::Pending);
    assert_eq!(fx[0], fetch(4, Request::NextQuestion { token: tok() }));
}

#[test]
fn endpoints_and_methods() {
    assert_eq!(Endpoint::New.path(), "new");
    assert_eq!(Endpoint::Next.path(), "next");
    assert_eq!(Endpoint::Answer.path(), "answer");
    assert_eq!(Endpoint::Status.path(), "status");
    let a = Request::SubmitAnswer { token: None, body: "1".to_string() };
    assert_eq!(a.endpoint(), Endpoint::Answer);
    assert!(a.is_post());
    assert!(!Request::FetchStatus { token: None }.is_post());
}

#[test]
fn typing_after_submit_resubmits() {
    let mut s = armed_session();
    s.submit();
    let fx = s.set_answer("9x9");
    assert_eq!(s.user_answer, "99");
    assert_eq!(fx[0], fetch(5, Request::SubmitAnswer { token: tok(), body: "99".to_string() }));
}
