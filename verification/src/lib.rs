//! Game-session orchestration for an interactive chess client.
//!
//! The crate is the authoritative core of a match: the session state machine
//! with its two clocks, the initialization handshake driven against external
//! decision-making processes, the input bridge that turns board presses into
//! move intents, and the replay cursor that lets a presentation layer scrub
//! through history without touching live state.
//!
//! The chess rules engine itself (legal-move generation, check detection,
//! draw flags) is an external collaborator: each tick the caller hands the
//! session the oracle's answers about the current position as plain values,
//! and every decision taken on those answers is verified here.

pub mod board;
pub mod clock;
pub mod config;
pub mod digits;
pub mod handshake;
pub mod input;
pub mod marks;
pub mod moves;
pub mod replay;
pub mod session;
pub mod startup;
