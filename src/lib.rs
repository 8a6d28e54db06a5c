//! Client-side orchestration of a turn-based trivia game: answer
//! normalization, outcome parsing, the status summary, and the event-driven
//! session state machine that decides which requests to send and when the
//! answer countdown runs.
pub mod answer;
pub mod status;
pub mod session;
pub mod response;
