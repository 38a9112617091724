//! Match configuration: the settings a match starts from, the errors that
//! make starting impossible, and the little that the session reads out of
//! a starting-position record itself (whose turn it is).
//!
//! The time and increment fields arrive as text typed by the user; a field
//! that does not read as a whole number is a configuration error, reported
//! before anything is spawned and never retried automatically.

use vstd::prelude::*;

use crate::digits::{all_digits, dec_value, parse_u64};
use crate::moves::Color;

verus! {

/// Where an external decision-making process lives, and the name shown
/// for it.
#[derive(Default, Clone)]
pub struct EnginePath {
    pub path: String,
    pub name: String,
}

/// The raw per-match configuration: a starting-position record, an
/// optional process per side, and the four time-control text fields
/// (initial time in seconds, increment in milliseconds).
#[derive(Default, Clone)]
pub struct Settings {
    pub position_fen: String,
    pub white_engine_path: Option<EnginePath>,
    pub black_engine_path: Option<EnginePath>,
    pub wtime_s: String,
    pub btime_s: String,
    pub wincrement_ms: String,
    pub bincrement_ms: String,
}

/// One of the four time-control fields.
#[derive(Clone, Copy, PartialEq, Eq, Structural, Debug)]
pub enum TimeField {
    WhiteTime,
    BlackTime,
    WhiteIncrement,
    BlackIncrement,
}

/// Why a match could not be started. Fatal to this attempt; reported to
/// the caller before any thread is spawned.
#[derive(Clone, Copy, PartialEq, Eq, Structural, Debug)]
pub enum ConfigError {
    /// A time-control field does not read as a whole number that fits.
    InvalidNumber(TimeField),
    /// The starting-position record does not say whose turn it is.
    UnreadablePosition,
    /// The process for this side could not be started.
    MissingEngineBinary(Color),
}

impl ConfigError {
    /// The reason string of each error.
    pub open spec fn message_spec(self) -> Seq<char> {
        match self {
            ConfigError::InvalidNumber(TimeField::WhiteTime) => "White Time Is Not A Number"@,
            ConfigError::InvalidNumber(TimeField::BlackTime) => "Black Time Is Not A Number"@,
            ConfigError::InvalidNumber(TimeField::WhiteIncrement) => "White Increment Is Not A Number"@,
            ConfigError::InvalidNumber(TimeField::BlackIncrement) => "Black Increment Is Not A Number"@,
            ConfigError::UnreadablePosition => "Couldn't Read The Starting Position"@,
            ConfigError::MissingEngineBinary(Color::White) => "Couldn't Start The White Engine"@,
            ConfigError::MissingEngineBinary(Color::Black) => "Couldn't Start The Black Engine"@,
        }
    }

    /// A human-readable reason, surfaced by the presentation layer.
    pub fn message(&self) -> (r: String)
        ensures
            r@ == self.message_spec(),
    {
        match self {
            ConfigError::InvalidNumber(TimeField::WhiteTime) => String::from_str(
                "White Time Is Not A Number",
            ),
            ConfigError::InvalidNumber(TimeField::BlackTime) => String::from_str(
                "Black Time Is Not A Number",
            ),
            ConfigError::InvalidNumber(TimeField::WhiteIncrement) => String::from_str(
                "White Increment Is Not A Number",
            ),
            ConfigError::InvalidNumber(TimeField::BlackIncrement) => String::from_str(
                "Black Increment Is Not A Number",
            ),
            ConfigError::UnreadablePosition => String::from_str(
                "Couldn't Read The Starting Position",
            ),
            ConfigError::MissingEngineBinary(Color::White) => String::from_str(
                "Couldn't Start The White Engine",
            ),
            ConfigError::MissingEngineBinary(Color::Black) => String::from_str(
                "Couldn't Start The Black Engine",
            ),
        }
    }
}

/// The standard starting position.
pub open spec fn start_fen_spec() -> Seq<char> {
    "rnbqkbnr/pppppppp/8/8/8/8/PPPPPPPP/RNBQKBNR w KQkq - 0 1"@
}

/// Hands back the standard starting-position record.
pub fn start_fen() -> (r: &'static str)
    ensures
        r@ == start_fen_spec(),
{
    "rnbqkbnr/pppppppp/8/8/8/8/PPPPPPPP/RNBQKBNR w KQkq - 0 1"
}

/// Whether a text holds nothing but spaces.
pub open spec fn is_blank(s: Seq<char>) -> bool {
    forall|i: int| 0 <= i < s.len() ==> s[i] == ' '
}

/// The starting-position record a match actually uses: a blank field
/// falls back to the standard starting position.
pub open spec fn effective_fen(s: Seq<char>) -> Seq<char> {
    if is_blank(s) {
        start_fen_spec()
    } else {
        s
    }
}

/// Tells whether the text holds nothing but spaces.
pub fn text_is_blank(s: &str) -> (r: bool)
    ensures
        r == is_blank(s@),
{
    let n = s.unicode_len();
    let mut i: usize = 0;
    while i < n
        invariant
            0 <= i <= n == s@.len(),
            forall|j: int| 0 <= j < i ==> s@[j] == ' ',
        decreases n - i,
    {
        if s.get_char(i) != ' ' {
            return false;
        }
        i = i + 1;
    }
    true
}

/// Everything after the first space of `s`; everything was after it if
/// there is none.
pub open spec fn after_first_space(s: Seq<char>) -> Seq<char>
    decreases s.len(),
{
    if s.len() == 0 {
        s
    } else if s[0] == ' ' {
        s.subrange(1, s.len() as int)
    } else {
        after_first_space(s.subrange(1, s.len() as int))
    }
}

/// `s` with its leading spaces dropped.
pub open spec fn skip_spaces(s: Seq<char>) -> Seq<char>
    decreases s.len(),
{
    if s.len() > 0 && s[0] == ' ' {
        skip_spaces(s.subrange(1, s.len() as int))
    } else {
        s
    }
}

/// The side to move a starting-position record names: the first letter of
/// its second field, which must be "w" or "b".
pub open spec fn fen_turn(s: Seq<char>) -> Option<Color> {
    let t = skip_spaces(after_first_space(s));
    if t.len() > 0 && t[0] == 'w' {
        Some(Color::White)
    } else if t.len() > 0 && t[0] == 'b' {
        Some(Color::Black)
    } else {
        None
    }
}

proof fn lemma_after_first_space_step(s: Seq<char>, i: int)
    requires
        0 <= i < s.len(),
        forall|j: int| 0 <= j < i ==> s[j] != ' ',
    ensures
        s[i] != ' ' ==> after_first_space(s) == after_first_space(s.subrange(i + 1, s.len() as int)),
        s[i] == ' ' ==> after_first_space(s) == s.subrange(i + 1, s.len() as int),
    decreases i,
{
    if i == 0 {
        if s[0] != ' ' {
            assert(s.subrange(1, s.len() as int) =~= s.subrange(0int + 1, s.len() as int));
        }
    } else {
        let tail = s.subrange(1, s.len() as int);
        lemma_after_first_space_step(tail, i - 1);
        assert(after_first_space(s) == after_first_space(tail));
        assert(tail.subrange(i, tail.len() as int) =~= s.subrange(i + 1, s.len() as int));
        assert(tail[i - 1] == s[i]);
    }
}

proof fn lemma_skip_spaces_step(s: Seq<char>, i: int)
    requires
        0 <= i < s.len(),
        forall|j: int| 0 <= j < i ==> s[j] == ' ',
    ensures
        s[i] == ' ' ==> skip_spaces(s) == skip_spaces(s.subrange(i + 1, s.len() as int)),
        s[i] != ' ' ==> skip_spaces(s) == s.subrange(i, s.len() as int),
    decreases i,
{
    if i == 0 {
        if s[0] == ' ' {
            assert(s.subrange(1, s.len() as int) =~= s.subrange(0int + 1, s.len() as int));
        } else {
            assert(s.subrange(0, s.len() as int) =~= s);
        }
    } else {
        let tail = s.subrange(1, s.len() as int);
        assert(s[0] == ' ');
        assert(skip_spaces(s) == skip_spaces(tail));
        lemma_skip_spaces_step(tail, i - 1);
        assert(tail.subrange(i, tail.len() as int) =~= s.subrange(i + 1, s.len() as int));
        assert(tail.subrange(i - 1, tail.len() as int) =~= s.subrange(i, s.len() as int));
        assert(tail[i - 1] == s[i]);
    }
}

proof fn lemma_skip_spaces_all(s: Seq<char>)
    requires
        forall|j: int| 0 <= j < s.len() ==> s[j] == ' ',
    ensures
        skip_spaces(s).len() == 0,
    decreases s.len(),
{
    if s.len() > 0 {
        lemma_skip_spaces_all(s.subrange(1, s.len() as int));
    }
}

proof fn lemma_after_first_space_none(s: Seq<char>)
    requires
        forall|j: int| 0 <= j < s.len() ==> s[j] != ' ',
    ensures
        after_first_space(s).len() == 0,
    decreases s.len(),
{
    if s.len() > 0 {
        lemma_after_first_space_none(s.subrange(1, s.len() as int));
    }
}

/// Reads whose turn it is out of a starting-position record: the first
/// letter of the record's second field, "w" or "b". Anything else is
/// unreadable.
pub fn side_to_move_of_fen(s: &str) -> (r: Option<Color>)
    ensures
        r == fen_turn(s@),
{
    let n = s.unicode_len();
    // find the first space
    let mut i: usize = 0;
    while i < n && s.get_char(i) != ' '
        invariant
            0 <= i <= n == s@.len(),
            forall|j: int| 0 <= j < i ==> s@[j] != ' ',
        decreases n - i,
    {
        i = i + 1;
    }
    if i == n {
        proof {
            lemma_after_first_space_none(s@);
            lemma_skip_spaces_all(after_first_space(s@));
        }
        return None;
    }
    proof {
        lemma_after_first_space_step(s@, i as int);
    }
    let ghost rest = s@.subrange(i + 1, n as int);
    // skip further spaces
    let mut k: usize = i + 1;
    while k < n && s.get_char(k) == ' '
        invariant
            i < k <= n == s@.len(),
            i < n,
            rest == s@.subrange(i + 1, n as int),
            after_first_space(s@) == rest,
            forall|j: int| i + 1 <= j < k ==> s@[j] == ' ',
        decreases n - k,
    {
        k = k + 1;
    }
    proof {
        assert(forall|j: int| 0 <= j < k - i - 1 ==> rest[j] == ' ');
    }
    if k == n {
        proof {
            lemma_skip_spaces_all(rest);
        }
        return None;
    }
    proof {
        lemma_skip_spaces_step(rest, k - i - 1);
        assert(rest[k - i - 1] == s@[k as int]);
        assert(rest.subrange(k - i - 1, rest.len() as int)[0] == s@[k as int]);
    }
    let c = s.get_char(k);
    if c == 'w' {
        Some(Color::White)
    } else if c == 'b' {
        Some(Color::Black)
    } else {
        None
    }
}

/// Whether a time field reads as a whole number of seconds whose
/// millisecond equivalent still fits.
pub open spec fn seconds_field_ok(s: Seq<char>) -> bool {
    s.len() > 0 && all_digits(s) && dec_value(s) * 1000 <= u64::MAX
}

/// Whether an increment field reads as a whole number of milliseconds.
pub open spec fn millis_field_ok(s: Seq<char>) -> bool {
    s.len() > 0 && all_digits(s) && dec_value(s) <= u64::MAX
}

/// Reads a whole number of seconds as milliseconds.
pub fn parse_seconds_as_ms(s: &str) -> (r: Option<u64>)
    ensures
        r is Some <==> seconds_field_ok(s@),
        r is Some ==> r->Some_0 == dec_value(s@) * 1000,
{
    match parse_u64(s) {
        Some(v) => {
            if v <= u64::MAX / 1000 {
                Some(v * 1000)
            } else {
                None
            }
        },
        _ => None,
    }
}

/// Reads a whole number of milliseconds.
pub fn parse_ms(s: &str) -> (r: Option<u64>)
    ensures
        r is Some <==> millis_field_ok(s@),
        r is Some ==> r->Some_0 == dec_value(s@),
{
    parse_u64(s)
}

impl Settings {
    /// Whether every field a match needs can be read.
    pub open spec fn parses(self) -> bool {
        &&& seconds_field_ok(self.wtime_s@)
        &&& seconds_field_ok(self.btime_s@)
        &&& millis_field_ok(self.wincrement_ms@)
        &&& millis_field_ok(self.bincrement_ms@)
        &&& fen_turn(effective_fen(self.position_fen@)) is Some
    }

    /// The error reported when some field cannot be read: the first
    /// failing field in a fixed order, the position record last.
    pub open spec fn first_error(self) -> ConfigError {
        if !seconds_field_ok(self.wtime_s@) {
            ConfigError::InvalidNumber(TimeField::WhiteTime)
        } else if !seconds_field_ok(self.btime_s@) {
            ConfigError::InvalidNumber(TimeField::BlackTime)
        } else if !millis_field_ok(self.wincrement_ms@) {
            ConfigError::InvalidNumber(TimeField::WhiteIncrement)
        } else if !millis_field_ok(self.bincrement_ms@) {
            ConfigError::InvalidNumber(TimeField::BlackIncrement)
        } else {
            ConfigError::UnreadablePosition
        }
    }
}

} // verus!
