//! Live room coordination: presence registry, event relay, room timer and
//! time-decayed scoring for multiplayer quiz and word-search rooms.
//!
//! - `registry`: who is connected to which room, one entry per session token.
//! - `session`: the per-connection state machine, event re-stamping and
//!   fan-out, and how presence transitions drive the room timer.
//! - `timer`: the room timer that runs only while someone is present.
//! - `scoring` and `ledger`: the time-decay score and first-claim crediting.
//! - `identity` and `colors`: who a connection belongs to.
//! - `protocol`: the wire events.
//! - `models`, `kahoot`, `open_question`, `quiz`: bodies of the game and room
//!   endpoints that surround the live rooms.

pub mod scoring;
pub mod timer;
pub mod protocol;
pub mod registry;
pub mod colors;
pub mod identity;
pub mod ledger;
pub mod session;
pub mod models;
pub mod kahoot;
pub mod open_question;
pub mod quiz;
