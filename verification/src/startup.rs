//! The client's match flow, and the decision taken each frame while a
//! match is starting: keep waiting for the handshake, begin play, or
//! give up.
//!
//! The whole handshake across both slots must finish within a bounded
//! window. Exceeding it fails this attempt with a distinct
//! handshake-timeout reason — surfaced to the caller, who may retry with
//! fresh processes — rather than being silently retried; and play never
//! begins before every slot is ready.

use vstd::prelude::*;

verus! {

/// Where the client stands.
#[derive(Clone, Debug)]
pub enum State {
    /// Loading the piece images found on disk.
    AssetLoading { piece_paths: Vec<String> },
    Home,
    GameSelection,
    /// Driving the handshake; how long it has run and how long it may.
    TryStartGame { timer_ms: u64, max_time_ms: u64 },
    /// This attempt failed, with a human-readable reason.
    TryStartFailed { reason: String },
    InGame,
    /// The match ended, with the outcome message to show.
    GameFinish { message: String },
}

/// The reason reported when the handshake does not finish in time.
pub open spec fn timeout_reason() -> Seq<char> {
    "Couldn't Initialize Engines"@
}

/// One frame of the starting phase. A process error fails the attempt
/// with its reason; otherwise play begins exactly when every slot is
/// ready; otherwise the window timer grows by the frame time and the
/// attempt fails with the handshake-timeout reason once the window is
/// spent.
pub fn startup_poll(
    timer_ms: u64,
    max_time_ms: u64,
    all_ready: bool,
    io_failure: Option<String>,
    frame_ms: u64,
) -> (r: State)
    ensures
        io_failure is Some ==> (r matches State::TryStartFailed { reason } && reason@
            == io_failure->Some_0@),
        io_failure is None && all_ready ==> r is InGame,
        io_failure is None && !all_ready && timer_ms.saturating_add(frame_ms) < max_time_ms ==> (r
            matches State::TryStartGame { timer_ms: t, max_time_ms: m } && t
            == timer_ms.saturating_add(frame_ms) && m == max_time_ms),
        io_failure is None && !all_ready && timer_ms.saturating_add(frame_ms) >= max_time_ms ==> (r
            matches State::TryStartFailed { reason } && reason@ == timeout_reason()),
{
    match io_failure {
        Some(reason) => State::TryStartFailed { reason },
        _ => {
            if all_ready {
                State::InGame
            } else {
                let grown = timer_ms.saturating_add(frame_ms);
                if grown >= max_time_ms {
                    State::TryStartFailed { reason: String::from_str("Couldn't Initialize Engines") }
                } else {
                    State::TryStartGame { timer_ms: grown, max_time_ms }
                }
            }
        },
    }
}

} // verus!
