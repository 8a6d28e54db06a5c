//! The game session as an explicit state machine.
//!
//! Every input (a player intent, a response that arrived, the countdown
//! running out) is a method of `Session`. Each one updates the signals,
//! recomputes the resources that depend on what changed, in the order
//! token, question, answer, status, countdown, and returns the effects the
//! caller must carry out: requests to send and the countdown to arm or
//! cancel. Each resource carries a generation; a response is applied only
//! when it answers the latest recomputation of its resource.
use vstd::prelude::*;
use crate::answer::{answer_input, filter_answer_input, normalized, user_answer_normalize};
use crate::status::GameStatus;

verus! {

/// Seconds the player has to answer before the countdown submits for them.
pub const COUNTDOWN_SECS: u64 = 5;

/// Why a resource holds no value.
#[derive(Debug, PartialEq, Eq)]
pub enum ResourceError {
    /// The game has not been started.
    NotStarted,
    /// No answer has been submitted for the current question.
    NotSubmitted,
    /// The game or its token is not there yet.
    Uninitialized,
    /// The request failed on its way.
    Transport(String),
    /// The response could not be read.
    Decode(String),
}

/// The state of a derived value that is fetched from the server.
#[derive(Debug, PartialEq, Eq)]
pub enum Load<T> {
    Pending,
    Ready(T),
    Failed(ResourceError),
}

/// The server's endpoints.
#[derive(Clone, Copy, Debug, PartialEq, Eq, Structural)]
pub enum Endpoint {
    New,
    Next,
    Answer,
    Status,
}

/// A request to the server, with what it carries.
#[derive(Debug, PartialEq, Eq)]
pub enum Request {
    NewToken,
    NextQuestion { token: Option<String> },
    SubmitAnswer { token: Option<String>, body: String },
    FetchStatus { token: Option<String> },
}

/// Work the caller carries out on behalf of the session.
#[derive(Debug, PartialEq, Eq)]
pub enum Effect {
    /// Send `request`; hand its response back with `gen`.
    Fetch { gen: u64, request: Request },
    /// Start the countdown, replacing any running one; when it runs out,
    /// hand `gen` back to `countdown_elapsed`.
    ArmTimer { gen: u64 },
    /// Stop the running countdown, if any.
    CancelTimer,
}

/// The answer countdown.
#[derive(Clone, Copy, Debug, PartialEq, Eq, Structural)]
pub enum Countdown {
    Idle,
    Armed { gen: u64 },
}

/// The signals of one game and the resources derived from them.
#[derive(Debug, PartialEq, Eq)]
pub struct Session {
    pub started: bool,
    pub submitted: bool,
    pub user_answer: String,
    pub token: Load<String>,
    pub token_gen: u64,
    pub question: Load<String>,
    pub question_gen: u64,
    pub answer: Load<String>,
    pub answer_gen: u64,
    pub status: Load<GameStatus>,
    pub status_gen: u64,
    pub countdown: Countdown,
    pub countdown_gen: u64,
}

pub open spec fn endpoint_path(e: Endpoint) -> Seq<char> {
    match e {
        Endpoint::New => "new"@,
        Endpoint::Next => "next"@,
        Endpoint::Answer => "answer"@,
        Endpoint::Status => "status"@,
    }
}

pub open spec fn request_endpoint(r: Request) -> Endpoint {
    match r {
        Request::NewToken => Endpoint::New,
        Request::NextQuestion { .. } => Endpoint::Next,
        Request::SubmitAnswer { .. } => Endpoint::Answer,
        Request::FetchStatus { .. } => Endpoint::Status,
    }
}

pub open spec fn token_text(t: Option<String>) -> Seq<char> {
    match t {
        Some(v) => v@,
        None => Seq::empty(),
    }
}

/// The `User` header a request carries: none for a new token, otherwise the
/// token, or the empty text where there is no token.
pub open spec fn header_of(r: Request) -> Option<Seq<char>> {
    match r {
        Request::NewToken => None,
        Request::NextQuestion { token } => Some(token_text(token)),
        Request::SubmitAnswer { token, .. } => Some(token_text(token)),
        Request::FetchStatus { token } => Some(token_text(token)),
    }
}

impl Endpoint {
    /// The path of the endpoint below the server's origin.
    pub fn path(&self) -> (r: &'static str)
        ensures
            r@ == endpoint_path(*self),
    {
        match self {
            Endpoint::New => "new",
            Endpoint::Next => "next",
            Endpoint::Answer => "answer",
            Endpoint::Status => "status",
        }
    }
}

impl Request {
    pub fn endpoint(&self) -> (r: Endpoint)
        ensures
            r == request_endpoint(*self),
    {
        match self {
            Request::NewToken => Endpoint::New,
            Request::NextQuestion { .. } => Endpoint::Next,
            Request::SubmitAnswer { .. } => Endpoint::Answer,
            Request::FetchStatus { .. } => Endpoint::Status,
        }
    }

    /// Only an answer is posted; every other request is a plain get.
    pub fn is_post(&self) -> (r: bool)
        ensures
            r == (*self is SubmitAnswer),
    {
        match self {
            Request::SubmitAnswer { .. } => true,
            _ => false,
        }
    }

    /// The value of the `User` header to send, if the request carries one.
    pub fn user_header(&self) -> (r: Option<String>)
        ensures
            r is Some <==> header_of(*self) is Some,
            r is Some ==> header_of(*self) == Some(r->0@),
    {
        let t = match self {
            Request::NewToken => {
                return None;
            },
            Request::NextQuestion { token } => token,
            Request::SubmitAnswer { token, .. } => token,
            Request::FetchStatus { token } => token,
        };
        match t {
            Some(v) => Some(v.clone()),
            None => Some(String::new()),
        }
    }
}

pub open spec fn next_gen(g: u64) -> u64 {
    if g == u64::MAX {
        0
    } else {
        (g + 1) as u64
    }
}

fn bump(g: u64) -> (r: u64)
    ensures
        r == next_gen(g),
{
    if g == u64::MAX {
        0
    } else {
        g + 1
    }
}

pub open spec fn load_of<T>(r: Result<T, ResourceError>) -> Load<T> {
    match r {
        Ok(v) => Load::Ready(v),
        Err(e) => Load::Failed(e),
    }
}

fn into_load<T>(r: Result<T, ResourceError>) -> (l: Load<T>)
    ensures
        l == load_of(r),
{
    match r {
        Ok(v) => Load::Ready(v),
        Err(e) => Load::Failed(e),
    }
}

/// The token, where one has arrived.
pub open spec fn token_of(t: Load<String>) -> Option<String> {
    match t {
        Load::Ready(v) => Some(v),
        _ => None,
    }
}

/// The countdown may run: the game is on, the question is shown and not yet
/// answered, and the status says the game is not over.
pub open spec fn armed(s: Session) -> bool {
    &&& s.started
    &&& !s.submitted
    &&& s.token is Ready
    &&& s.question is Ready
    &&& match s.status {
        Load::Ready(st) => !st.game_over,
        _ => false,
    }
}

/// Recomputing the token: fetched once the game is started, refused before.
pub open spec fn token_refreshed(s: Session) -> (Session, Seq<Effect>) {
    let g = next_gen(s.token_gen);
    if s.started {
        (
            Session { token: Load::Pending, token_gen: g, ..s },
            seq![Effect::Fetch { gen: g, request: Request::NewToken }],
        )
    } else {
        (Session { token: Load::Failed(ResourceError::NotStarted), token_gen: g, ..s }, seq![])
    }
}

/// Recomputing the question: always fetched, with whatever token there is.
pub open spec fn question_refreshed(s: Session) -> (Session, Seq<Effect>) {
    let g = next_gen(s.question_gen);
    (
        Session { question: Load::Pending, question_gen: g, ..s },
        seq![Effect::Fetch { gen: g, request: Request::NextQuestion { token: token_of(s.token) } }],
    )
}

/// Recomputing the answer: the answer text is posted once submitted.
pub open spec fn answer_refreshed(s: Session) -> (Session, Seq<Effect>) {
    let g = next_gen(s.answer_gen);
    if s.submitted {
        (
            Session { answer: Load::Pending, answer_gen: g, ..s },
            seq![
                Effect::Fetch {
                    gen: g,
                    request: Request::SubmitAnswer { token: token_of(s.token), body: s.user_answer },
                },
            ],
        )
    } else {
        (Session { answer: Load::Failed(ResourceError::NotSubmitted), answer_gen: g, ..s }, seq![])
    }
}

/// Recomputing the status: fetched once the game is started and a token is
/// there, refused before.
pub open spec fn status_refreshed(s: Session) -> (Session, Seq<Effect>) {
    let g = next_gen(s.status_gen);
    if s.started && s.token is Ready {
        (
            Session { status: Load::Pending, status_gen: g, ..s },
            seq![Effect::Fetch { gen: g, request: Request::FetchStatus { token: token_of(s.token) } }],
        )
    } else {
        (Session { status: Load::Failed(ResourceError::Uninitialized), status_gen: g, ..s }, seq![])
    }
}

/// Re-evaluating the countdown: any running one is superseded; a new one
/// runs only where `armed` holds.
pub open spec fn countdown_refreshed(s: Session) -> (Session, Seq<Effect>) {
    let g = next_gen(s.countdown_gen);
    if armed(s) {
        (Session { countdown: Countdown::Armed { gen: g }, countdown_gen: g, ..s }, seq![Effect::ArmTimer { gen: g }])
    } else {
        (Session { countdown: Countdown::Idle, countdown_gen: g, ..s }, seq![Effect::CancelTimer])
    }
}

/// The status changed or must be refetched: status, then countdown.
pub open spec fn settle_from_status(s: Session) -> (Session, Seq<Effect>) {
    let (a, fa) = status_refreshed(s);
    let (b, fb) = countdown_refreshed(a);
    (b, fa + fb)
}

/// The answer must be recomputed: answer, then all that follows it.
pub open spec fn settle_from_answer(s: Session) -> (Session, Seq<Effect>) {
    let (a, fa) = answer_refreshed(s);
    let (b, fb) = settle_from_status(a);
    (b, fa + fb)
}

/// The question must be recomputed: question, then all that follows it.
pub open spec fn settle_from_question(s: Session) -> (Session, Seq<Effect>) {
    let (a, fa) = question_refreshed(s);
    let (b, fb) = settle_from_answer(a);
    (b, fa + fb)
}

/// The token must be recomputed: every resource in turn.
pub open spec fn settle_from_token(s: Session) -> (Session, Seq<Effect>) {
    let (a, fa) = token_refreshed(s);
    let (b, fb) = settle_from_question(a);
    (b, fa + fb)
}

/// A session before its resources were first computed, with answer text `u`.
pub open spec fn unsettled(u: String) -> Session {
    Session {
        started: false,
        submitted: false,
        user_answer: u,
        token: Load::Pending,
        token_gen: 0,
        question: Load::Pending,
        question_gen: 0,
        answer: Load::Pending,
        answer_gen: 0,
        status: Load::Pending,
        status_gen: 0,
        countdown: Countdown::Idle,
        countdown_gen: 0,
    }
}


impl Session {
    fn current_token(&self) -> (r: Option<String>)
        ensures
            r == token_of(self.token),
    {
        match &self.token {
            Load::Ready(t) => Some(t.clone()),
            _ => None,
        }
    }

    /// Whether the countdown may run in this state.
    pub fn countdown_condition(&self) -> (r: bool)
        ensures
            r == armed(*self),
    {
        if !self.started || self.submitted {
            return false;
        }
        match (&self.token, &self.question, &self.status) {
            (Load::Ready(_), Load::Ready(_), Load::Ready(st)) => !st.game_over,
            _ => false,
        }
    }

    fn refresh_token(&mut self, fx: &mut Vec<Effect>)
        ensures
            *final(self) == token_refreshed(*old(self)).0,
            final(fx)@ == old(fx)@ + token_refreshed(*old(self)).1,
    {
        let g = bump(self.token_gen);
        self.token_gen = g;
        if self.started {
            self.token = Load::Pending;
            fx.push(Effect::Fetch { gen: g, request: Request::NewToken });
        } else {
            self.token = Load::Failed(ResourceError::NotStarted);
        }
        assert(final(fx)@ =~= old(fx)@ + token_refreshed(*old(self)).1);
    }

    fn refresh_question(&mut self, fx: &mut Vec<Effect>)
        ensures
            *final(self) == question_refreshed(*old(self)).0,
            final(fx)@ == old(fx)@ + question_refreshed(*old(self)).1,
    {
        let g = bump(self.question_gen);
        let token = self.current_token();
        self.question_gen = g;
        self.question = Load::Pending;
        fx.push(Effect::Fetch { gen: g, request: Request::NextQuestion { token } });
        assert(final(fx)@ =~= old(fx)@ + question_refreshed(*old(self)).1);
    }

    fn refresh_answer(&mut self, fx: &mut Vec<Effect>)
        ensures
            *final(self) == answer_refreshed(*old(self)).0,
            final(fx)@ == old(fx)@ + answer_refreshed(*old(self)).1,
    {
        let g = bump(self.answer_gen);
        self.answer_gen = g;
        if self.submitted {
            let token = self.current_token();
            let body = self.user_answer.clone();
            self.answer = Load::Pending;
            fx.push(Effect::Fetch { gen: g, request: Request::SubmitAnswer { token, body } });
        } else {
            self.answer = Load::Failed(ResourceError::NotSubmitted);
        }
        assert(final(fx)@ =~= old(fx)@ + answer_refreshed(*old(self)).1);
    }

    fn refresh_status(&mut self, fx: &mut Vec<Effect>)
        ensures
            *final(self) == status_refreshed(*old(self)).0,
            final(fx)@ == old(fx)@ + status_refreshed(*old(self)).1,
    {
        let g = bump(self.status_gen);
        self.status_gen = g;
        let token = self.current_token();
        if self.started && token.is_some() {
            self.status = Load::Pending;
            fx.push(Effect::Fetch { gen: g, request: Request::FetchStatus { token } });
        } else {
            self.status = Load::Failed(ResourceError::Uninitialized);
        }
        assert(final(fx)@ =~= old(fx)@ + status_refreshed(*old(self)).1);
    }

    fn refresh_countdown(&mut self, fx: &mut Vec<Effect>)
        ensures
            *final(self) == countdown_refreshed(*old(self)).0,
            final(fx)@ == old(fx)@ + countdown_refreshed(*old(self)).1,
    {
        let g = bump(self.countdown_gen);
        let on = self.countdown_condition();
        self.countdown_gen = g;
        if on {
            self.countdown = Countdown::Armed { gen: g };
            fx.push(Effect::ArmTimer { gen: g });
        } else {
            self.countdown = Countdown::Idle;
            fx.push(Effect::CancelTimer);
        }
        assert(final(fx)@ =~= old(fx)@ + countdown_refreshed(*old(self)).1);
    }

    fn settle_status(&mut self, fx: &mut Vec<Effect>)
        ensures
            *final(self) == settle_from_status(*old(self)).0,
            final(fx)@ == old(fx)@ + settle_from_status(*old(self)).1,
    {
        self.refresh_status(fx);
        self.refresh_countdown(fx);
        assert(final(fx)@ =~= old(fx)@ + settle_from_status(*old(self)).1);
    }

    fn settle_answer(&mut self, fx: &mut Vec<Effect>)
        ensures
            *final(self) == settle_from_answer(*old(self)).0,
            final(fx)@ == old(fx)@ + settle_from_answer(*old(self)).1,
    {
        self.refresh_answer(fx);
        self.settle_status(fx);
        assert(final(fx)@ =~= old(fx)@ + settle_from_answer(*old(self)).1);
    }

    fn settle_question(&mut self, fx: &mut Vec<Effect>)
        ensures
            *final(self) == settle_from_question(*old(self)).0,
            final(fx)@ == old(fx)@ + settle_from_question(*old(self)).1,
    {
        self.refresh_question(fx);
        self.settle_answer(fx);
        assert(final(fx)@ =~= old(fx)@ + settle_from_question(*old(self)).1);
    }

    fn settle_token(&mut self, fx: &mut Vec<Effect>)
        ensures
            *final(self) == settle_from_token(*old(self)).0,
            final(fx)@ == old(fx)@ + settle_from_token(*old(self)).1,
    {
        self.refresh_token(fx);
        self.settle_question(fx);
        assert(final(fx)@ =~= old(fx)@ + settle_from_token(*old(self)).1);
    }

    /// A new session, not started, with every resource computed once: the
    /// question is fetched right away, everything else waits.
    pub fn new() -> (r: (Session, Vec<Effect>))
        ensures
            r.0.user_answer@ == Seq::<char>::empty(),
            (r.0, r.1@) == settle_from_token(unsettled(r.0.user_answer)),
    {
        let mut s = Session {
            started: false,
            submitted: false,
            user_answer: String::new(),
            token: Load::Pending,
            token_gen: 0,
            question: Load::Pending,
            question_gen: 0,
            answer: Load::Pending,
            answer_gen: 0,
            status: Load::Pending,
            status_gen: 0,
            countdown: Countdown::Idle,
            countdown_gen: 0,
        };
        let mut fx: Vec<Effect> = Vec::new();
        s.settle_token(&mut fx);
        assert(fx@ =~= settle_from_token(unsettled(s.user_answer)).1);
        (s, fx)
    }

    /// The player starts the game: the answer is cleared and every resource
    /// is recomputed, beginning with a fresh token.
    pub fn start(&mut self) -> (r: Vec<Effect>)
        ensures
            final(self).user_answer@ == Seq::<char>::empty(),
            (*final(self), r@) == settle_from_token(
                Session {
                    started: true,
                    submitted: false,
                    user_answer: final(self).user_answer,
                    ..*old(self)
                },
            ),
    {
        self.started = true;
        self.submitted = false;
        self.user_answer = String::new();
        let mut fx: Vec<Effect> = Vec::new();
        self.settle_token(&mut fx);
        assert(fx@ =~= Seq::<Effect>::empty() + fx@);
        fx
    }

    /// The player typed `text` into the answer field. Only its digits are
    /// kept, at most `MAX_ANSWER_LEN` of them. Once an answer is submitted,
    /// the new text is submitted again.
    pub fn set_answer(&mut self, text: &str) -> (r: Vec<Effect>)
        ensures
            final(self).user_answer@ == answer_input(text@),
            old(self).submitted ==> (*final(self), r@) == settle_from_answer(
                Session { user_answer: final(self).user_answer, ..*old(self) },
            ),
            !old(self).submitted ==> *final(self) == (Session {
                user_answer: final(self).user_answer,
                ..*old(self)
            }) && r@ == Seq::<Effect>::empty(),
    {
        self.user_answer = filter_answer_input(text);
        let mut fx: Vec<Effect> = Vec::new();
        if self.submitted {
            self.settle_answer(&mut fx);
            assert(fx@ =~= Seq::<Effect>::empty() + fx@);
        }
        fx
    }

    /// The player submits: the answer is normalized and posted.
    pub fn submit(&mut self) -> (r: Vec<Effect>)
        ensures
            final(self).user_answer@ == normalized(old(self).user_answer@),
            (*final(self), r@) == settle_from_answer(
                Session { submitted: true, user_answer: final(self).user_answer, ..*old(self) },
            ),
    {
        self.user_answer = user_answer_normalize(self.user_answer.as_str());
        self.submitted = true;
        let mut fx: Vec<Effect> = Vec::new();
        self.settle_answer(&mut fx);
        assert(fx@ =~= Seq::<Effect>::empty() + fx@);
        fx
    }

    /// The player moves on: a new question is fetched, and the answer is
    /// reset to `"0"` and no longer submitted.
    pub fn advance(&mut self) -> (r: Vec<Effect>)
        ensures
            final(self).user_answer@ == seq!['0'],
            (*final(self), r@) == settle_from_question(
                Session { submitted: false, user_answer: final(self).user_answer, ..*old(self) },
            ),
    {
        self.user_answer = user_answer_normalize("");
        proof {
            reveal_strlit("");
            assert(!crate::answer::parses_as_count(""@));
        }
        self.submitted = false;
        let mut fx: Vec<Effect> = Vec::new();
        self.settle_question(&mut fx);
        assert(fx@ =~= Seq::<Effect>::empty() + fx@);
        fx
    }

    /// The response to token request `gen` arrived. It is applied only if
    /// `gen` is the token's latest recomputation and still pending; then
    /// everything that reads the token is recomputed.
    pub fn token_loaded(&mut self, gen: u64, result: Result<String, ResourceError>) -> (r: Vec<
        Effect,
    >)
        ensures
            gen == old(self).token_gen && old(self).token is Pending ==> (*final(self), r@)
                == settle_from_question(Session { token: load_of(result), ..*old(self) }),
            !(gen == old(self).token_gen && old(self).token is Pending) ==> *final(self)
                == *old(self) && r@ == Seq::<Effect>::empty(),
    {
        let mut fx: Vec<Effect> = Vec::new();
        if gen == self.token_gen && matches!(self.token, Load::Pending) {
            self.token = into_load(result);
            self.settle_question(&mut fx);
            assert(fx@ =~= Seq::<Effect>::empty() + fx@);
        }
        fx
    }

    /// The response to question request `gen` arrived. It is applied only
    /// if it answers the latest recomputation; then the status and the
    /// countdown are recomputed.
    pub fn question_loaded(&mut self, gen: u64, result: Result<String, ResourceError>) -> (r: Vec<
        Effect,
    >)
        ensures
            gen == old(self).question_gen && old(self).question is Pending ==> (
            *final(self),
            r@,
            ) == settle_from_status(Session { question: load_of(result), ..*old(self) }),
            !(gen == old(self).question_gen && old(self).question is Pending) ==> *final(self)
                == *old(self) && r@ == Seq::<Effect>::empty(),
    {
        let mut fx: Vec<Effect> = Vec::new();
        if gen == self.question_gen && matches!(self.question, Load::Pending) {
            self.question = into_load(result);
            self.settle_status(&mut fx);
            assert(fx@ =~= Seq::<Effect>::empty() + fx@);
        }
        fx
    }

    /// The outcome of answer request `gen` arrived. It is applied only if it
    /// answers the latest recomputation; then the status is fetched again,
    /// so that it counts this answer, and the countdown re-evaluated.
    pub fn answer_loaded(&mut self, gen: u64, result: Result<String, ResourceError>) -> (r: Vec<
        Effect,
    >)
        ensures
            gen == old(self).answer_gen && old(self).answer is Pending ==> (*final(self), r@)
                == settle_from_status(Session { answer: load_of(result), ..*old(self) }),
            !(gen == old(self).answer_gen && old(self).answer is Pending) ==> *final(self)
                == *old(self) && r@ == Seq::<Effect>::empty(),
    {
        let mut fx: Vec<Effect> = Vec::new();
        if gen == self.answer_gen && matches!(self.answer, Load::Pending) {
            self.answer = into_load(result);
            self.settle_status(&mut fx);
            assert(fx@ =~= Seq::<Effect>::empty() + fx@);
        }
        fx
    }

    /// The status for request `gen` arrived. It is applied only if it
    /// answers the latest recomputation; then the countdown is re-evaluated.
    pub fn status_loaded(&mut self, gen: u64, result: Result<GameStatus, ResourceError>) -> (r:
        Vec<Effect>)
        ensures
            gen == old(self).status_gen && old(self).status is Pending ==> (*final(self), r@)
                == countdown_refreshed(Session { status: load_of(result), ..*old(self) }),
            !(gen == old(self).status_gen && old(self).status is Pending) ==> *final(self)
                == *old(self) && r@ == Seq::<Effect>::empty(),
    {
        let mut fx: Vec<Effect> = Vec::new();
        if gen == self.status_gen && matches!(self.status, Load::Pending) {
            self.status = into_load(result);
            self.refresh_countdown(&mut fx);
            assert(fx@ =~= Seq::<Effect>::empty() + fx@);
        }
        fx
    }

    /// Countdown `gen` ran out. If it is the one armed now, the answer as
    /// typed so far is normalized and submitted, as by `submit`; a countdown
    /// that was cancelled or superseded changes nothing.
    pub fn countdown_elapsed(&mut self, gen: u64) -> (r: Vec<Effect>)
        ensures
            old(self).countdown == (Countdown::Armed { gen }) ==> final(self).user_answer@
                == normalized(old(self).user_answer@) && (*final(self), r@) == settle_from_answer(
                Session { submitted: true, user_answer: final(self).user_answer, ..*old(self) },
            ),
            old(self).countdown != (Countdown::Armed { gen }) ==> *final(self) == *old(self)
                && r@ == Seq::<Effect>::empty(),
    {
        let fires = match self.countdown {
            Countdown::Armed { gen: g } => g == gen,
            Countdown::Idle => false,
        };
        if fires {
            self.submit()
        } else {
            Vec::new()
        }
    }
}


/// Some effect in `fx` asks the server for a new token.
pub open spec fn requests_token(fx: Seq<Effect>) -> bool {
    exists|i: int|
        0 <= i < fx.len() && (#[trigger] fx[i]) is Fetch && fx[i]->Fetch_request is NewToken
}

/// Before the game is started, recomputing the token sends no request and
/// leaves the token refused as not started.
pub proof fn lemma_no_token_before_start(s: Session)
    requires
        !s.started,
    ensures
        settle_from_token(s).0.token == Load::<String>::Failed(ResourceError::NotStarted),
        !requests_token(settle_from_token(s).1),
{
    lemma_token_untouched_downstream(token_refreshed(s).0);
    let fx = settle_from_token(s).1;
    assert(fx =~= settle_from_question(token_refreshed(s).0).1);
}

/// Recomputing the question and what follows it never touches the token and
/// never asks for a new one: only a recomputation of the token does.
pub proof fn lemma_token_untouched_downstream(s: Session)
    ensures
        settle_from_question(s).0.token == s.token,
        !requests_token(settle_from_question(s).1),
{
    let (a, fa) = question_refreshed(s);
    let (b, fb) = answer_refreshed(a);
    let (c, fc) = status_refreshed(b);
    let (d, fd) = countdown_refreshed(c);
    let fx = settle_from_question(s).1;
    assert(fx =~= fa + (fb + (fc + fd)));
    assert forall|i: int| 0 <= i < fx.len() implies !((#[trigger] fx[i]) is Fetch
        && fx[i]->Fetch_request is NewToken) by {
        if i < fa.len() {
            assert(fx[i] == fa[i]);
        } else if i < fa.len() + fb.len() {
            assert(fx[i] == fb[i - fa.len()]);
        } else if i < fa.len() + fb.len() + fc.len() {
            assert(fx[i] == fc[i - fa.len() - fb.len()]);
        } else {
            assert(fx[i] == fd[i - fa.len() - fb.len() - fc.len()]);
        }
    }
}

/// A question request carries exactly the token the session holds; where it
/// holds none, the request's `User` header is the empty text.
pub proof fn lemma_question_carries_token(s: Session)
    ensures
        settle_from_question(s).1.len() > 0,
        settle_from_question(s).1[0] == (Effect::Fetch {
            gen: next_gen(s.question_gen),
            request: Request::NextQuestion { token: token_of(s.token) },
        }),
        header_of(settle_from_question(s).1[0]->Fetch_request) == Some(
            match s.token {
                Load::Ready(t) => t@,
                _ => Seq::<char>::empty(),
            },
        ),
{
    let (a, fa) = question_refreshed(s);
    let (b, fb) = settle_from_answer(a);
    assert((fa + fb)[0] == fa[0]);
}

/// Once an answer goes in, by the player or by the countdown, the countdown
/// is idle, so a countdown armed for that question never fires afterwards.
pub proof fn lemma_submission_disarms(s: Session, u: String)
    ensures
        settle_from_answer(Session { submitted: true, user_answer: u, ..s }).0.submitted,
        settle_from_answer(Session { submitted: true, user_answer: u, ..s }).0.countdown
            == Countdown::Idle,
{
}

/// The countdown is only ever armed while its condition holds, in particular
/// while the current answer is not yet submitted.
pub proof fn lemma_armed_only_unsubmitted(s: Session)
    ensures
        countdown_refreshed(s).0.countdown is Armed ==> armed(s) && !s.submitted,
{
}

} // verus!
