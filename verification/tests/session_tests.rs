use chess_tail::config::{ConfigError, Settings, TimeField};
use chess_tail::handshake::EngineInitPhase;
use chess_tail::moves::{Color, MoveIntent, Promotion};
use chess_tail::session::{Outcome, Session, SideSlot, TickFacts};

fn mi(from: u8, to: u8) -> MoveIntent {
    MoveIntent {
        from,
        to,
        promotion: Promotion::Unspecified,
    }
}

fn quiet_facts(legal: Vec<MoveIntent>) -> TickFacts {
    TickFacts {
        legal,
        in_check: false,
        threefold: false,
        fifty: false,
        insufficient_white: false,
        insufficient_black: false,
    }
}

/// The twenty legal first moves of the standard starting position, as
/// plain square codes (square = rank * 8 + file).
fn opening_moves() -> Vec<MoveIntent> {
    let mut v = Vec::new();
    for file in 0u8..8 {
        let from = 8 + file; // second rank
        v.push(mi(from, from + 8));
        v.push(mi(from, from + 16));
    }
    v.push(mi(1, 16)); // b1a3
    v.push(mi(1, 18)); // b1c3
    v.push(mi(6, 21)); // g1f3
    v.push(mi(6, 23)); // g1h3
    v
}

fn human_settings() -> Settings {
    Settings {
        position_fen: String::new(),
        white_engine_path: None,
        black_engine_path: None,
        wtime_s: "60".to_string(),
        btime_s: "60".to_string(),
        wincrement_ms: "500".to_string(),
        bincrement_ms: "0".to_string(),
    }
}

fn session_with_clocks(wclock: u64, bclock: u64, turn: Color) -> Session {
    Session {
        start_fen: "8/8/8/8/8/8/8/8 w - - 0 1".to_string(),
        white: SideSlot {
            engine: false,
            phase: EngineInitPhase::SendUci,
            clock_ms: wclock,
            increment_ms: 0,
            ticked: false,
        },
        black: SideSlot {
            engine: false,
            phase: EngineInitPhase::SendUci,
            clock_ms: bclock,
            increment_ms: 0,
            ticked: false,
        },
        turn,
        history: Vec::new(),
        outcome: Outcome::Ongoing,
    }
}

#[test]
fn new_session_reads_settings() {
    let s = Session::new(&human_settings()).unwrap();
    assert_eq!(s.white.clock_ms, 60_000);
    assert_eq!(s.black.clock_ms, 60_000);
    assert_eq!(s.white.increment_ms, 500);
    assert_eq!(s.black.increment_ms, 0);
    assert_eq!(s.turn, Color::White);
    assert_eq!(s.outcome, Outcome::Ongoing);
    assert!(s.history.is_empty());
    assert!(!s.white.ticked && !s.black.ticked);
    // a blank record falls back to the standard starting position
    assert_eq!(
        s.start_fen,
        "rnbqkbnr/pppppppp/8/8/8/8/PPPPPPPP/RNBQKBNR w KQkq - 0 1"
    );
}

#[test]
fn new_session_reads_black_to_move() {
    let mut settings = human_settings();
    settings.position_fen = "8/8/8/8/8/8/8/8 b - - 0 1".to_string();
    let s = Session::new(&settings).unwrap();
    assert_eq!(s.turn, Color::Black);
}

#[test]
fn new_session_rejects_bad_time_fields_in_order() {
    let mut settings = human_settings();
    settings.wtime_s = "6x".to_string();
    settings.btime_s = "".to_string();
    assert_eq!(
        Session::new(&settings).unwrap_err(),
        ConfigError::InvalidNumber(TimeField::WhiteTime)
    );
    settings.wtime_s = "60".to_string();
    assert_eq!(
        Session::new(&settings).unwrap_err(),
        ConfigError::InvalidNumber(TimeField::BlackTime)
    );
    settings.btime_s = "60".to_string();
    settings.wincrement_ms = "-1".to_string();
    assert_eq!(
        Session::new(&settings).unwrap_err(),
        ConfigError::InvalidNumber(TimeField::WhiteIncrement)
    );
    settings.wincrement_ms = "0".to_string();
    settings.bincrement_ms = "1 000".to_string();
    assert_eq!(
        Session::new(&settings).unwrap_err(),
        ConfigError::InvalidNumber(TimeField::BlackIncrement)
    );
}

#[test]
fn new_session_rejects_oversized_seconds() {
    let mut settings = human_settings();
    // fits in a u64 as seconds, but not as milliseconds
    settings.wtime_s = "18446744073709551615".to_string();
    assert_eq!(
        Session::new(&settings).unwrap_err(),
        ConfigError::InvalidNumber(TimeField::WhiteTime)
    );
}

#[test]
fn new_session_rejects_unreadable_position() {
    let mut settings = human_settings();
    settings.position_fen = "nonsense".to_string();
    assert_eq!(
        Session::new(&settings).unwrap_err(),
        ConfigError::UnreadablePosition
    );
}

#[test]
fn config_error_messages() {
    assert_eq!(
        ConfigError::InvalidNumber(TimeField::WhiteTime).message(),
        "White Time Is Not A Number"
    );
    assert_eq!(
        ConfigError::UnreadablePosition.message(),
        "Couldn't Read The Starting Position"
    );
    assert_eq!(
        ConfigError::MissingEngineBinary(Color::Black).message(),
        "Couldn't Start The Black Engine"
    );
}

// End-to-end scenario: from the starting position white plays a legal
// pawn move via intent; the next snapshot shows the move applied, the
// outcome ongoing, black's clock unchanged and white's clock grown by
// white's configured increment.
#[test]
fn scenario_white_plays_a_pawn_move() {
    let mut s = Session::new(&human_settings()).unwrap();
    let facts = quiet_facts(opening_moves());
    let e2e4 = mi(12, 28);
    let snap = s.tick(Some(e2e4), &facts, 0);
    assert_eq!(snap.history, vec![e2e4]);
    assert_eq!(snap.outcome, Outcome::Ongoing);
    assert_eq!(snap.white_clock_ms, 60_500); // incremented by white's 500
    assert_eq!(snap.black_clock_ms, 60_000); // untouched
    assert_eq!(snap.turn, Color::Black);
}

// End-to-end scenario: both sides have bare kings; the oracle reports
// insufficient material for both; the next tick reports the draw
// whichever side is to move.
#[test]
fn scenario_insufficient_material_draw() {
    for turn in [Color::White, Color::Black] {
        let mut s = session_with_clocks(60_000, 60_000, turn);
        let facts = TickFacts {
            legal: vec![mi(4, 5)],
            in_check: false,
            threefold: false,
            fifty: false,
            insufficient_white: true,
            insufficient_black: true,
        };
        let snap = s.tick(None, &facts, 0);
        assert_eq!(snap.outcome, Outcome::InsufficientMaterialDraw);
    }
}

// End-to-end scenario: white has one millisecond, ten elapse. The clock
// floors at zero, and the following tick reports the forfeiture,
// announced as a black win.
#[test]
fn scenario_white_flags() {
    let mut s = session_with_clocks(1, 60_000, Color::White);
    let facts = quiet_facts(vec![mi(4, 5)]);
    let snap = s.tick(None, &facts, 10);
    assert_eq!(snap.white_clock_ms, 0);
    assert_eq!(snap.outcome, Outcome::Ongoing);
    let snap = s.tick(None, &facts, 0);
    assert_eq!(snap.outcome, Outcome::TimeForfeitFor(Color::White));
    assert_eq!(
        snap.outcome.message().unwrap(),
        "Black Wins On Time"
    );
}

// Both clocks at zero and no elapsed time before the first tick: no
// forfeiture yet, because forfeiture requires a preceding decrement.
#[test]
fn zero_clocks_do_not_flag_before_first_decrement() {
    let mut s = session_with_clocks(0, 0, Color::White);
    let facts = quiet_facts(vec![mi(4, 5)]);
    let snap = s.tick(None, &facts, 0);
    assert_eq!(snap.outcome, Outcome::Ongoing);
    // white's clock has now been decremented (by zero) and stands at
    // zero, so the next tick reports white's forfeiture first
    let snap = s.tick(None, &facts, 0);
    assert_eq!(snap.outcome, Outcome::TimeForfeitFor(Color::White));
}

// An intent absent from the legal-move set never mutates the position:
// ticking with it many times leaves the history exactly empty.
#[test]
fn illegal_intent_is_discarded_silently() {
    let mut s = session_with_clocks(60_000, 60_000, Color::White);
    let facts = quiet_facts(opening_moves());
    let illegal = mi(0, 63);
    for _ in 0..5 {
        let snap = s.tick(Some(illegal), &facts, 7);
        assert!(snap.history.is_empty());
        assert_eq!(snap.outcome, Outcome::Ongoing);
        assert_eq!(snap.turn, Color::White);
    }
    assert_eq!(s.white.clock_ms, 60_000 - 5 * 7);
    assert_eq!(s.black.clock_ms, 60_000);
}

// Checkmate and stalemate from an empty legal-move set.
#[test]
fn dead_position_outcomes() {
    let mut s = session_with_clocks(60_000, 60_000, Color::White);
    let mut facts = quiet_facts(Vec::new());
    facts.in_check = true;
    let snap = s.tick(None, &facts, 0);
    // white is mated, black wins
    assert_eq!(snap.outcome, Outcome::CheckmateFor(Color::Black));
    assert_eq!(snap.outcome.message().unwrap(), "Black Wins By Checkmate");

    let mut s = session_with_clocks(60_000, 60_000, Color::Black);
    let mut facts = quiet_facts(Vec::new());
    facts.in_check = true;
    let snap = s.tick(None, &facts, 0);
    assert_eq!(snap.outcome, Outcome::CheckmateFor(Color::White));

    let mut s = session_with_clocks(60_000, 60_000, Color::White);
    let facts = quiet_facts(Vec::new());
    let snap = s.tick(None, &facts, 0);
    assert_eq!(snap.outcome, Outcome::StalemateDraw);
    assert_eq!(snap.outcome.message().unwrap(), "Draw By Stalemate");
}

// The documented priority order among simultaneous terminal conditions.
#[test]
fn terminal_conditions_resolve_in_documented_order() {
    // dead position beats every flag
    let mut s = session_with_clocks(0, 0, Color::White);
    s.white.ticked = true;
    s.black.ticked = true;
    let facts = TickFacts {
        legal: Vec::new(),
        in_check: false,
        threefold: true,
        fifty: true,
        insufficient_white: true,
        insufficient_black: true,
    };
    let snap = s.tick(None, &facts, 0);
    assert_eq!(snap.outcome, Outcome::StalemateDraw);

    // repetition beats fifty-move, insufficient material and the clocks
    let mut s = session_with_clocks(0, 0, Color::White);
    s.white.ticked = true;
    s.black.ticked = true;
    let facts = TickFacts {
        legal: vec![mi(4, 5)],
        in_check: false,
        threefold: true,
        fifty: true,
        insufficient_white: true,
        insufficient_black: true,
    };
    let snap = s.tick(None, &facts, 0);
    assert_eq!(snap.outcome, Outcome::RepetitionDraw);

    // fifty-move beats insufficient material
    let facts = TickFacts {
        threefold: false,
        ..facts
    };
    let mut s = session_with_clocks(0, 0, Color::White);
    s.white.ticked = true;
    let snap = s.tick(None, &facts, 0);
    assert_eq!(snap.outcome, Outcome::FiftyMoveDraw);

    // insufficient material beats the clocks
    let facts = TickFacts {
        fifty: false,
        ..facts
    };
    let mut s = session_with_clocks(0, 0, Color::White);
    s.white.ticked = true;
    let snap = s.tick(None, &facts, 0);
    assert_eq!(snap.outcome, Outcome::InsufficientMaterialDraw);

    // insufficient material on one side alone is no draw
    let facts = TickFacts {
        insufficient_black: false,
        ..facts
    };
    let mut s = session_with_clocks(60_000, 60_000, Color::White);
    let snap = s.tick(None, &facts, 0);
    assert_eq!(snap.outcome, Outcome::Ongoing);

    // with both clocks flagged, white's loss is checked first
    let mut s = session_with_clocks(0, 0, Color::White);
    s.white.ticked = true;
    s.black.ticked = true;
    let facts = quiet_facts(vec![mi(4, 5)]);
    let snap = s.tick(None, &facts, 0);
    assert_eq!(snap.outcome, Outcome::TimeForfeitFor(Color::White));
}

// Time accounting across a move: the mover's clock reads what it held
// before its last decrement, less that elapsed time, plus the mover's
// own increment; the move leaves the opponent's clock untouched.
#[test]
fn time_accounting_across_a_move() {
    let mut s = session_with_clocks(10_000, 20_000, Color::White);
    s.white.increment_ms = 300;
    let facts = quiet_facts(opening_moves());
    // time passes while white thinks
    s.tick(None, &facts, 1_500);
    assert_eq!(s.white.clock_ms, 8_500);
    // white moves; no time passes in the same tick
    let snap = s.tick(Some(mi(12, 28)), &facts, 0);
    assert_eq!(snap.white_clock_ms, 10_000 - 1_500 + 300);
    assert_eq!(snap.black_clock_ms, 20_000);
}

// A session whose outcome is terminal never changes again.
#[test]
fn terminal_session_is_frozen() {
    let mut s = session_with_clocks(60_000, 60_000, Color::White);
    s.outcome = Outcome::StalemateDraw;
    let facts = quiet_facts(opening_moves());
    let snap = s.tick(Some(mi(12, 28)), &facts, 1_000);
    assert_eq!(snap.outcome, Outcome::StalemateDraw);
    assert!(snap.history.is_empty());
    assert_eq!(snap.white_clock_ms, 60_000);
}

// A dead process ends the match with a distinct outcome.
#[test]
fn process_failure_ends_the_match() {
    let mut s = session_with_clocks(60_000, 60_000, Color::White);
    s.process_failed(Color::Black);
    assert_eq!(s.outcome, Outcome::ProcessFailureFor(Color::Black));
    assert_eq!(
        s.outcome.message().unwrap(),
        "Black Engine Failed"
    );
    // and it does not overwrite a terminal outcome
    s.process_failed(Color::White);
    assert_eq!(s.outcome, Outcome::ProcessFailureFor(Color::Black));
}

// The worker polls the cancellation flag once per tick and exits
// promptly without touching anything.
#[test]
fn worker_exits_on_cancellation() {
    let mut s = session_with_clocks(60_000, 60_000, Color::White);
    let facts = quiet_facts(opening_moves());
    assert!(s.worker_step(true, Some(mi(12, 28)), &facts, 1_000).is_none());
    assert_eq!(s.white.clock_ms, 60_000);
    assert!(s.history.is_empty());
    let snap = s.worker_step(false, None, &facts, 1_000).unwrap();
    assert_eq!(snap.white_clock_ms, 59_000);
}

// The snapshot is a clone: mutating the session afterward does not
// change what was published.
#[test]
fn snapshot_is_immutable() {
    let mut s = session_with_clocks(60_000, 60_000, Color::White);
    let facts = quiet_facts(opening_moves());
    let snap = s.tick(None, &facts, 0);
    s.tick(Some(mi(12, 28)), &facts, 500);
    assert!(snap.history.is_empty());
    assert_eq!(snap.white_clock_ms, 60_000);
}
