//! Sides, candidate moves, and the text form a move takes on the wire.
//!
//! A square is a number below 64: file (0 = "a") plus eight times the rank
//! (0 = rank "1"). A `MoveIntent` is an unvalidated candidate move proposed
//! by a human or an external process; the session checks it against the
//! oracle's legal-move set before it can affect state.

use vstd::prelude::*;

verus! {

/// One of the two sides of a match.
#[derive(Clone, Copy, PartialEq, Eq, Structural, Debug)]
pub enum Color {
    White,
    Black,
}

impl Color {
    /// The other side.
    pub open spec fn flip(self) -> Color {
        match self {
            Color::White => Color::Black,
            Color::Black => Color::White,
        }
    }

    /// Hands back the other side.
    pub fn other(self) -> (r: Color)
        ensures
            r == self.flip(),
    {
        match self {
            Color::White => Color::Black,
            Color::Black => Color::White,
        }
    }
}

/// The piece a pawn turns into on reaching the farthest rank.
/// `Unspecified` leaves the choice to the oracle's default.
#[derive(Clone, Copy, PartialEq, Eq, Structural, Debug)]
pub enum Promotion {
    Unspecified,
    Queen,
    Rook,
    Bishop,
    Knight,
}

/// A candidate move: from-square, to-square, optional promotion piece.
/// Never trusted until found in the oracle's legal-move set.
#[derive(Clone, Copy, PartialEq, Eq, Structural, Debug)]
pub struct MoveIntent {
    pub from: u8,
    pub to: u8,
    pub promotion: Promotion,
}

impl MoveIntent {
    /// Both squares are on the board.
    pub open spec fn wf(self) -> bool {
        self.from < 64 && self.to < 64
    }
}

/// The file of a square: 0 is the "a" file.
pub open spec fn file_of(sq: u8) -> u8 {
    sq % 8
}

/// The rank of a square: 0 is the rank written "1".
pub open spec fn rank_of(sq: u8) -> u8 {
    sq / 8
}

/// Whether a square lies on one of the two farthest ranks, where a pawn
/// arriving there promotes.
pub open spec fn is_back_rank(sq: u8) -> bool {
    rank_of(sq) == 0 || rank_of(sq) == 7
}

/// Tells whether `sq` lies on one of the two farthest ranks.
pub fn on_back_rank(sq: u8) -> (r: bool)
    ensures
        r == is_back_rank(sq),
{
    sq / 8 == 0 || sq / 8 == 7
}

/// The eight file letters, by file number.
pub open spec fn file_char(f: nat) -> char {
    if f == 0 {
        'a'
    } else if f == 1 {
        'b'
    } else if f == 2 {
        'c'
    } else if f == 3 {
        'd'
    } else if f == 4 {
        'e'
    } else if f == 5 {
        'f'
    } else if f == 6 {
        'g'
    } else {
        'h'
    }
}

/// The two characters of a square in algebraic notation: file letter, then
/// rank digit counted from one.
pub open spec fn square_chars(sq: u8) -> Seq<char> {
    seq![file_char(file_of(sq) as nat), crate::digits::digit_char((rank_of(sq) + 1) as nat)]
}

/// The promotion suffix of a move in wire notation.
pub open spec fn promo_chars(p: Promotion) -> Seq<char> {
    match p {
        Promotion::Unspecified => Seq::<char>::empty(),
        Promotion::Queen => seq!['q'],
        Promotion::Rook => seq!['r'],
        Promotion::Bishop => seq!['b'],
        Promotion::Knight => seq!['n'],
    }
}

/// The wire form of a move: from-square, to-square, promotion suffix.
pub open spec fn uci_chars(m: MoveIntent) -> Seq<char> {
    square_chars(m.from) + square_chars(m.to) + promo_chars(m.promotion)
}

/// Hands back the one-character string of a file letter.
fn file_str(f: u8) -> (r: &'static str)
    requires
        f < 8,
    ensures
        r@ =~= seq![file_char(f as nat)],
{
    proof {
        reveal_strlit("a");
        reveal_strlit("b");
        reveal_strlit("c");
        reveal_strlit("d");
        reveal_strlit("e");
        reveal_strlit("f");
        reveal_strlit("g");
        reveal_strlit("h");
    }
    match f {
        0 => "a",
        1 => "b",
        2 => "c",
        3 => "d",
        4 => "e",
        5 => "f",
        6 => "g",
        _ => "h",
    }
}

/// Hands back the promotion suffix as a string.
fn promo_str(p: Promotion) -> (r: &'static str)
    ensures
        r@ =~= promo_chars(p),
{
    proof {
        reveal_strlit("");
        reveal_strlit("q");
        reveal_strlit("r");
        reveal_strlit("b");
        reveal_strlit("n");
    }
    match p {
        Promotion::Unspecified => "",
        Promotion::Queen => "q",
        Promotion::Rook => "r",
        Promotion::Bishop => "b",
        Promotion::Knight => "n",
    }
}

/// Writes a move in the wire notation the external process speaks:
/// "e2e4", with a trailing letter for a chosen promotion piece.
pub fn to_uci(m: &MoveIntent) -> (r: String)
    requires
        m.wf(),
    ensures
        r@ == uci_chars(*m),
{
    let mut s = String::from_str(file_str(m.from % 8));
    s.append(crate::digits::digit_str(m.from / 8 + 1));
    s.append(file_str(m.to % 8));
    s.append(crate::digits::digit_str(m.to / 8 + 1));
    s.append(promo_str(m.promotion));
    proof {
        assert(s@ =~= uci_chars(*m));
    }
    s
}

/// The file number of a file letter, if it is one.
pub open spec fn file_val(c: char) -> nat {
    if c == 'b' {
        1
    } else if c == 'c' {
        2
    } else if c == 'd' {
        3
    } else if c == 'e' {
        4
    } else if c == 'f' {
        5
    } else if c == 'g' {
        6
    } else if c == 'h' {
        7
    } else {
        0
    }
}

/// Whether `c` is one of the eight file letters.
pub open spec fn is_file_char(c: char) -> bool {
    c == 'a' || c == 'b' || c == 'c' || c == 'd' || c == 'e' || c == 'f' || c == 'g' || c == 'h'
}

/// Whether `c` writes a rank: a digit between '1' and '8'.
pub open spec fn is_rank_char(c: char) -> bool {
    c == '1' || c == '2' || c == '3' || c == '4' || c == '5' || c == '6' || c == '7' || c == '8'
}

/// Whether `c` names a promotion piece on the wire.
pub open spec fn is_promo_char(c: char) -> bool {
    c == 'q' || c == 'r' || c == 'b' || c == 'n'
}

/// Whether a line of text is a well-formed wire move: two squares, then
/// at most one promotion letter.
pub open spec fn wf_uci(s: Seq<char>) -> bool {
    &&& (s.len() == 4 || s.len() == 5)
    &&& is_file_char(s[0])
    &&& is_rank_char(s[1])
    &&& is_file_char(s[2])
    &&& is_rank_char(s[3])
    &&& s.len() == 5 ==> is_promo_char(s[4])
}

/// Reads the file number of a file letter.
fn file_of_char(c: char) -> (r: Option<u8>)
    ensures
        r is Some <==> is_file_char(c),
        r is Some ==> r->Some_0 == file_val(c) && r->Some_0 < 8,
{
    match c {
        'a' => Some(0),
        'b' => Some(1),
        'c' => Some(2),
        'd' => Some(3),
        'e' => Some(4),
        'f' => Some(5),
        'g' => Some(6),
        'h' => Some(7),
        _ => None,
    }
}

/// Reads the rank number of a rank digit, counted from zero.
fn rank_of_char(c: char) -> (r: Option<u8>)
    ensures
        r is Some <==> is_rank_char(c),
        r is Some ==> r->Some_0 + 1 == crate::digits::digit_val(c) && r->Some_0 < 8,
{
    match c {
        '1' => Some(0),
        '2' => Some(1),
        '3' => Some(2),
        '4' => Some(3),
        '5' => Some(4),
        '6' => Some(5),
        '7' => Some(6),
        '8' => Some(7),
        _ => None,
    }
}

/// Reads a reply line from an external process as a move, or rejects it.
/// Succeeds exactly on well-formed wire moves, and the move read writes
/// back to the same text.
pub fn parse_uci(s: &str) -> (r: Option<MoveIntent>)
    ensures
        r is Some <==> wf_uci(s@),
        r is Some ==> r->Some_0.wf() && uci_chars(r->Some_0) == s@,
{
    let n = s.unicode_len();
    if n != 4 && n != 5 {
        return None;
    }
    let ff = match file_of_char(s.get_char(0)) {
        Some(v) => v,
        _ => {
            return None;
        },
    };
    let fr = match rank_of_char(s.get_char(1)) {
        Some(v) => v,
        _ => {
            return None;
        },
    };
    let tf = match file_of_char(s.get_char(2)) {
        Some(v) => v,
        _ => {
            return None;
        },
    };
    let tr = match rank_of_char(s.get_char(3)) {
        Some(v) => v,
        _ => {
            return None;
        },
    };
    let promotion = if n == 5 {
        match s.get_char(4) {
            'q' => Promotion::Queen,
            'r' => Promotion::Rook,
            'b' => Promotion::Bishop,
            'n' => Promotion::Knight,
            _ => {
                return None;
            },
        }
    } else {
        Promotion::Unspecified
    };
    let m = MoveIntent { from: fr * 8 + ff, to: tr * 8 + tf, promotion };
    proof {
        assert(uci_chars(m) =~= s@);
    }
    Some(m)
}

} // verus!
