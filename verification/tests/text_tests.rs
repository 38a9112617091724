use chess_tail::clock::to_clock;
use chess_tail::config::side_to_move_of_fen;
use chess_tail::digits::{parse_u64, u64_to_string};
use chess_tail::moves::{parse_uci, to_uci, Color, MoveIntent, Promotion};

#[test]
fn parse_u64_reads_decimal_fields() {
    assert_eq!(parse_u64("0"), Some(0));
    assert_eq!(parse_u64("42"), Some(42));
    assert_eq!(parse_u64("007"), Some(7));
    assert_eq!(parse_u64("18446744073709551615"), Some(u64::MAX));
}

#[test]
fn parse_u64_rejects_what_is_not_a_number() {
    assert_eq!(parse_u64(""), None);
    assert_eq!(parse_u64("12a"), None);
    assert_eq!(parse_u64("-3"), None);
    assert_eq!(parse_u64(" 5"), None);
    // one past the largest value that fits
    assert_eq!(parse_u64("18446744073709551616"), None);
}

#[test]
fn numbers_render_in_decimal() {
    assert_eq!(u64_to_string(0), "0");
    assert_eq!(u64_to_string(7), "7");
    assert_eq!(u64_to_string(120), "120");
    assert_eq!(u64_to_string(98765), "98765");
}

#[test]
fn clock_shows_minutes_and_padded_seconds() {
    assert_eq!(to_clock(60_000), "1:00");
    assert_eq!(to_clock(61_000), "1:01");
    assert_eq!(to_clock(90_000), "1:30");
    assert_eq!(to_clock(3_599_000), "59:59");
    assert_eq!(to_clock(600_000), "10:00");
}

#[test]
fn clock_narrows_under_a_minute() {
    assert_eq!(to_clock(59_990), "59.9s");
    assert_eq!(to_clock(5_250), "5.25s");
    assert_eq!(to_clock(5_000), "5s");
    assert_eq!(to_clock(999), "0.99s");
    assert_eq!(to_clock(5_001), "5.00s");
    assert_eq!(to_clock(5_100), "5.1s");
    assert_eq!(to_clock(0), "0s");
}

#[test]
fn moves_write_in_wire_notation() {
    let e2e4 = MoveIntent {
        from: 12,
        to: 28,
        promotion: Promotion::Unspecified,
    };
    assert_eq!(to_uci(&e2e4), "e2e4");
    let promo = MoveIntent {
        from: 52,
        to: 60,
        promotion: Promotion::Queen,
    };
    assert_eq!(to_uci(&promo), "e7e8q");
    let rook = MoveIntent {
        from: 8,
        to: 0,
        promotion: Promotion::Rook,
    };
    assert_eq!(to_uci(&rook), "a2a1r");
}

#[test]
fn replies_parse_back_to_the_same_move() {
    for text in ["e2e4", "a7a8q", "h2h1n", "g1f3", "b7b8b"] {
        let m = parse_uci(text).unwrap();
        assert_eq!(to_uci(&m), text);
    }
    assert_eq!(
        parse_uci("e2e4"),
        Some(MoveIntent {
            from: 12,
            to: 28,
            promotion: Promotion::Unspecified,
        })
    );
}

#[test]
fn malformed_replies_are_rejected() {
    for text in ["", "e2e", "e2e4x", "e9e4", "i2e4", "e2e4qq", "22e4", "resign"] {
        assert_eq!(parse_uci(text), None, "{text:?} must be rejected");
    }
}

#[test]
fn fen_turn_field_reads_w_or_b() {
    assert_eq!(
        side_to_move_of_fen("rnbqkbnr/pppppppp/8/8/8/8/PPPPPPPP/RNBQKBNR w KQkq - 0 1"),
        Some(Color::White)
    );
    assert_eq!(
        side_to_move_of_fen("8/8/8/8/8/8/8/8   b - - 0 1"),
        Some(Color::Black)
    );
    assert_eq!(side_to_move_of_fen("nonsense"), None);
    assert_eq!(side_to_move_of_fen("8/8 x - - 0 1"), None);
    assert_eq!(side_to_move_of_fen("trailing "), None);
    assert_eq!(side_to_move_of_fen(""), None);
}
