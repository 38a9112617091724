use chess_tail::handshake::{handshake_step, EngineInitPhase, HandshakeAction};
use chess_tail::moves::Color;
use chess_tail::session::{Outcome, Session, SideSlot};
use chess_tail::startup::{startup_poll, State};

fn session_with_engines(white_engine: bool, black_engine: bool) -> Session {
    Session {
        start_fen: "8/8/8/8/8/8/8/8 w - - 0 1".to_string(),
        white: SideSlot {
            engine: white_engine,
            phase: EngineInitPhase::SendUci,
            clock_ms: 60_000,
            increment_ms: 0,
            ticked: false,
        },
        black: SideSlot {
            engine: black_engine,
            phase: EngineInitPhase::SendUci,
            clock_ms: 60_000,
            increment_ms: 0,
            ticked: false,
        },
        turn: Color::White,
        history: Vec::new(),
        outcome: Outcome::Ongoing,
    }
}

#[test]
fn cycle_walks_the_fixed_sequence() {
    let mut p = EngineInitPhase::SendUci;
    p.cycle();
    assert_eq!(p, EngineInitPhase::WaitUciOk);
    p.cycle();
    assert_eq!(p, EngineInitPhase::SendNewGame);
    p.cycle();
    assert_eq!(p, EngineInitPhase::WaitIsReady);
    p.cycle();
    assert_eq!(p, EngineInitPhase::End);
    // the final phase is terminal
    p.cycle();
    assert_eq!(p, EngineInitPhase::End);
}

#[test]
fn step_sends_then_waits_for_each_ack() {
    // the greeting goes out whether or not anything was received
    assert_eq!(
        handshake_step(EngineInitPhase::SendUci, false),
        (HandshakeAction::SendGreeting, EngineInitPhase::WaitUciOk)
    );
    // waiting holds until the ack arrives
    assert_eq!(
        handshake_step(EngineInitPhase::WaitUciOk, false),
        (HandshakeAction::Idle, EngineInitPhase::WaitUciOk)
    );
    assert_eq!(
        handshake_step(EngineInitPhase::WaitUciOk, true),
        (HandshakeAction::Idle, EngineInitPhase::SendNewGame)
    );
    assert_eq!(
        handshake_step(EngineInitPhase::SendNewGame, false),
        (HandshakeAction::SendNewGameProbe, EngineInitPhase::WaitIsReady)
    );
    assert_eq!(
        handshake_step(EngineInitPhase::WaitIsReady, false),
        (HandshakeAction::Idle, EngineInitPhase::WaitIsReady)
    );
    assert_eq!(
        handshake_step(EngineInitPhase::WaitIsReady, true),
        (HandshakeAction::Idle, EngineInitPhase::End)
    );
    assert_eq!(
        handshake_step(EngineInitPhase::End, true),
        (HandshakeAction::Idle, EngineInitPhase::End)
    );
}

// Observed phases form a non-decreasing sequence under any ack pattern.
#[test]
fn phases_are_monotonic() {
    let rank = |p: EngineInitPhase| match p {
        EngineInitPhase::SendUci => 0,
        EngineInitPhase::WaitUciOk => 1,
        EngineInitPhase::SendNewGame => 2,
        EngineInitPhase::WaitIsReady => 3,
        EngineInitPhase::End => 4,
    };
    for acks in 0u32..32 {
        let mut p = EngineInitPhase::SendUci;
        let mut last = rank(p);
        for i in 0..5 {
            let (_, next) = handshake_step(p, acks & (1 << i) != 0);
            assert!(rank(next) >= last);
            assert!(rank(next) <= last + 1);
            p = next;
            last = rank(p);
        }
    }
}

#[test]
fn handshake_tick_drives_engine_slots_only() {
    let mut s = session_with_engines(true, false);
    let (wa, ba) = s.handshake_tick(false, false);
    assert_eq!(wa, HandshakeAction::SendGreeting);
    assert_eq!(ba, HandshakeAction::Idle);
    assert_eq!(s.white.phase, EngineInitPhase::WaitUciOk);
    assert_eq!(s.black.phase, EngineInitPhase::SendUci); // human slot never moves
    assert!(!s.all_ready()); // white's engine is still initializing

    // the ack arrives; white walks on to readiness
    s.handshake_tick(true, false);
    assert_eq!(s.white.phase, EngineInitPhase::SendNewGame);
    let (wa, _) = s.handshake_tick(false, false);
    assert_eq!(wa, HandshakeAction::SendNewGameProbe);
    s.handshake_tick(true, false);
    assert_eq!(s.white.phase, EngineInitPhase::End);
    assert!(s.all_ready());
}

#[test]
fn all_ready_without_engines() {
    let s = session_with_engines(false, false);
    assert!(s.all_ready());
}

#[test]
fn startup_poll_decisions() {
    // a process error fails the attempt with its reason
    match startup_poll(0, 15_000, false, Some("broken pipe".to_string()), 16) {
        State::TryStartFailed { reason } => assert_eq!(reason, "broken pipe"),
        _ => panic!("expected a failed start"),
    }
    // play begins exactly when every slot is ready
    assert!(matches!(
        startup_poll(14_999, 15_000, true, None, 16),
        State::InGame
    ));
    // otherwise the window timer grows by the frame time
    match startup_poll(100, 15_000, false, None, 16) {
        State::TryStartGame {
            timer_ms,
            max_time_ms,
        } => {
            assert_eq!(timer_ms, 116);
            assert_eq!(max_time_ms, 15_000);
        }
        _ => panic!("expected to keep waiting"),
    }
}

// End-to-end scenario: a slot stuck awaiting its greeting ack for longer
// than the window yields the handshake-timeout failure, and the match
// never reaches play.
#[test]
fn scenario_stuck_handshake_times_out() {
    let mut s = session_with_engines(true, true);
    // the greetings go out; both slots now await their acks
    s.handshake_tick(false, false);
    assert_eq!(s.white.phase, EngineInitPhase::WaitUciOk);

    let mut state = State::TryStartGame {
        timer_ms: 0,
        max_time_ms: 15_000,
    };
    let mut frames = 0u32;
    loop {
        frames += 1;
        assert!(frames < 10_000, "the window must run out");
        // no ack ever arrives; the slots stay where they are
        s.handshake_tick(false, false);
        assert_eq!(s.white.phase, EngineInitPhase::WaitUciOk);
        let (timer_ms, max_time_ms) = match &state {
            State::TryStartGame {
                timer_ms,
                max_time_ms,
            } => (*timer_ms, *max_time_ms),
            _ => unreachable!(),
        };
        state = startup_poll(timer_ms, max_time_ms, s.all_ready(), None, 16);
        match &state {
            State::InGame => panic!("the match must never reach play"),
            State::TryStartFailed { reason } => {
                assert_eq!(reason, "Couldn't Initialize Engines");
                break;
            }
            State::TryStartGame { .. } => continue,
            _ => unreachable!(),
        }
    }
}
