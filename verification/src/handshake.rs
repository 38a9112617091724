//! The initialization handshake driven against an external decision-making
//! process before it may be asked for moves.
//!
//! Each side slot that owns a process walks a fixed sequence of phases:
//! send the greeting, await its acknowledgement, send the new-game command
//! with a readiness probe, await the ready acknowledgement, done. The final
//! phase is terminal: a slot never re-enters an earlier phase during a
//! match, and each tick advances a slot by at most one phase.

use vstd::prelude::*;

verus! {

/// The handshake phase of one side slot. In protocol terms the phases are:
/// awaiting-greeting, awaiting-greeting-ack, awaiting-ready-signal,
/// awaiting-ready-ack, and ready (`End`).
#[derive(Clone, Copy, PartialEq, Eq, Structural, Debug)]
pub enum EngineInitPhase {
    SendUci,
    WaitUciOk,
    SendNewGame,
    WaitIsReady,
    End,
}

/// What the session asks of the process adapter for one slot on one tick.
#[derive(Clone, Copy, PartialEq, Eq, Structural, Debug)]
pub enum HandshakeAction {
    /// Write the greeting command to the process.
    SendGreeting,
    /// Write the new-game command followed by the readiness probe.
    SendNewGameProbe,
    /// Nothing to write; the slot is waiting or done.
    Idle,
}

impl EngineInitPhase {
    /// The phase that follows this one in the fixed sequence; the final
    /// phase follows itself.
    pub open spec fn next(self) -> EngineInitPhase {
        match self {
            EngineInitPhase::SendUci => EngineInitPhase::WaitUciOk,
            EngineInitPhase::WaitUciOk => EngineInitPhase::SendNewGame,
            EngineInitPhase::SendNewGame => EngineInitPhase::WaitIsReady,
            EngineInitPhase::WaitIsReady => EngineInitPhase::End,
            EngineInitPhase::End => EngineInitPhase::End,
        }
    }

    /// How far along the fixed sequence a phase lies.
    pub open spec fn rank(self) -> nat {
        match self {
            EngineInitPhase::SendUci => 0,
            EngineInitPhase::WaitUciOk => 1,
            EngineInitPhase::SendNewGame => 2,
            EngineInitPhase::WaitIsReady => 3,
            EngineInitPhase::End => 4,
        }
    }

    /// Steps this phase to the one that follows it.
    pub fn cycle(&mut self)
        ensures
            *final(self) == old(self).next(),
    {
        *self = match *self {
            EngineInitPhase::SendUci => EngineInitPhase::WaitUciOk,
            EngineInitPhase::WaitUciOk => EngineInitPhase::SendNewGame,
            EngineInitPhase::SendNewGame => EngineInitPhase::WaitIsReady,
            EngineInitPhase::WaitIsReady => EngineInitPhase::End,
            _ => EngineInitPhase::End,
        }
    }
}

/// The phase a slot reaches after one tick, given whether the line the
/// slot is waiting for has arrived.
pub open spec fn step_phase(p: EngineInitPhase, ack_received: bool) -> EngineInitPhase {
    match p {
        EngineInitPhase::SendUci => EngineInitPhase::WaitUciOk,
        EngineInitPhase::WaitUciOk => if ack_received {
            EngineInitPhase::SendNewGame
        } else {
            EngineInitPhase::WaitUciOk
        },
        EngineInitPhase::SendNewGame => EngineInitPhase::WaitIsReady,
        EngineInitPhase::WaitIsReady => if ack_received {
            EngineInitPhase::End
        } else {
            EngineInitPhase::WaitIsReady
        },
        EngineInitPhase::End => EngineInitPhase::End,
    }
}

/// The command a slot issues on one tick.
pub open spec fn step_action(p: EngineInitPhase) -> HandshakeAction {
    match p {
        EngineInitPhase::SendUci => HandshakeAction::SendGreeting,
        EngineInitPhase::SendNewGame => HandshakeAction::SendNewGameProbe,
        _ => HandshakeAction::Idle,
    }
}

/// Advances one slot's handshake by one tick. `ack_received` says whether
/// the acknowledgement line the slot is waiting for has been read from the
/// process; it only matters in the two waiting phases. The result pairs
/// the command to write with the phase the slot moves to.
pub fn handshake_step(p: EngineInitPhase, ack_received: bool) -> (r: (
    HandshakeAction,
    EngineInitPhase,
))
    ensures
        r.0 == step_action(p),
        r.1 == step_phase(p, ack_received),
{
    match p {
        EngineInitPhase::SendUci => (HandshakeAction::SendGreeting, EngineInitPhase::WaitUciOk),
        EngineInitPhase::WaitUciOk => (
            HandshakeAction::Idle,
            if ack_received {
                EngineInitPhase::SendNewGame
            } else {
                EngineInitPhase::WaitUciOk
            },
        ),
        EngineInitPhase::SendNewGame => (
            HandshakeAction::SendNewGameProbe,
            EngineInitPhase::WaitIsReady,
        ),
        EngineInitPhase::WaitIsReady => (
            HandshakeAction::Idle,
            if ack_received {
                EngineInitPhase::End
            } else {
                EngineInitPhase::WaitIsReady
            },
        ),
        EngineInitPhase::End => (HandshakeAction::Idle, EngineInitPhase::End),
    }
}

/// A sequence of handshake ticks starting from `p`, fed by an arbitrary
/// pattern of acknowledgement arrivals.
pub open spec fn phase_after(p: EngineInitPhase, acks: Seq<bool>) -> EngineInitPhase
    decreases acks.len(),
{
    if acks.len() == 0 {
        p
    } else {
        step_phase(phase_after(p, acks.drop_last()), acks.last())
    }
}

/// Over time a slot's observed phases form a non-decreasing sequence:
/// one tick never moves a slot backward, advances it by at most one
/// phase, and once the final phase is reached it is never left.
pub proof fn lemma_phase_monotonic(p: EngineInitPhase, ack: bool)
    ensures
        step_phase(p, ack).rank() >= p.rank(),
        step_phase(p, ack).rank() <= p.rank() + 1,
        p == EngineInitPhase::End ==> step_phase(p, ack) == EngineInitPhase::End,
{
}

/// Monotonicity over any run: after any pattern of acknowledgement
/// arrivals the phase ranks at least as high as where it started, and a
/// slot that has reached the final phase stays there. With
/// `lemma_phase_monotonic` this says the observed phases of a slot form a
/// non-decreasing sequence that ends in the final phase or never
/// reaches it.
pub proof fn lemma_phase_run_monotonic(p: EngineInitPhase, acks: Seq<bool>)
    ensures
        phase_after(p, acks).rank() >= p.rank(),
        p == EngineInitPhase::End ==> phase_after(p, acks) == EngineInitPhase::End,
    decreases acks.len(),
{
    if acks.len() > 0 {
        lemma_phase_run_monotonic(p, acks.drop_last());
        lemma_phase_monotonic(phase_after(p, acks.drop_last()), acks.last());
    }
}

} // verus!
