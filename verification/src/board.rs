//! The displayed board: which piece image stands on which square.
//!
//! The presentation layer keeps a layout of placed pieces that lags
//! behind the authoritative position while the user scrubs through
//! history. Synchronizing it from the oracle's per-square piece codes and
//! replaying a move across it — removing the captured piece, sliding the
//! castled rook, moving the mover — are decisions taken here; pixels and
//! textures are not.

use vstd::prelude::*;

use crate::moves::{Color, MoveIntent};

verus! {

/// A piece image on a square: the square it stands on and the piece code
/// (an index below 12, white pawn through black king).
#[derive(Clone, Copy, PartialEq, Eq, Structural, Debug)]
pub struct PlacedPiece {
    pub square: u8,
    pub piece: u8,
}

/// How a move changes the displayed layout; capture covers promotion
/// captures as well.
#[derive(Clone, Copy, PartialEq, Eq, Structural, Debug)]
pub enum MoveKind {
    Quiet,
    Capture,
    KingSideCastle,
    QueenSideCastle,
}

/// A move as the displayed board sees it.
#[derive(Clone, Copy, PartialEq, Eq, Structural, Debug)]
pub struct LayoutMove {
    pub from: u8,
    pub to: u8,
    pub kind: MoveKind,
    pub mover: Color,
}

/// The home square of the rook a castle slides, by mover and wing.
pub open spec fn rook_home(m: LayoutMove) -> u8 {
    match (m.kind, m.mover) {
        (MoveKind::KingSideCastle, Color::White) => 7,
        (MoveKind::KingSideCastle, Color::Black) => 63,
        (MoveKind::QueenSideCastle, Color::White) => 0,
        _ => 56,
    }
}

/// Where that rook lands: two files inward on the king's wing, three on
/// the queen's.
pub open spec fn rook_dest(m: LayoutMove) -> u8 {
    match (m.kind, m.mover) {
        (MoveKind::KingSideCastle, Color::White) => 5,
        (MoveKind::KingSideCastle, Color::Black) => 61,
        (MoveKind::QueenSideCastle, Color::White) => 3,
        _ => 59,
    }
}

/// Whether the move slides a rook.
pub open spec fn is_castle(m: LayoutMove) -> bool {
    m.kind == MoveKind::KingSideCastle || m.kind == MoveKind::QueenSideCastle
}

/// The layout with the first piece standing on `sq` taken off.
pub open spec fn remove_first_at(s: Seq<PlacedPiece>, sq: u8) -> Seq<PlacedPiece>
    decreases s.len(),
{
    if s.len() == 0 {
        s
    } else if s[0].square == sq {
        s.subrange(1, s.len() as int)
    } else {
        seq![s[0]] + remove_first_at(s.subrange(1, s.len() as int), sq)
    }
}

/// A piece after every piece on `src` is sent to `dst`.
pub open spec fn sent(p: PlacedPiece, src: u8, dst: u8) -> PlacedPiece {
    if p.square == src {
        PlacedPiece { square: dst, ..p }
    } else {
        p
    }
}

/// The layout with every piece on `src` sent to `dst`.
pub open spec fn send_all(s: Seq<PlacedPiece>, src: u8, dst: u8) -> Seq<PlacedPiece> {
    s.map_values(|p: PlacedPiece| sent(p, src, dst))
}

/// A move replayed across the layout, as the presentation does it: a
/// capture takes the first piece off the target square, a castle slides
/// the rook from its home square, and then whatever stands on the
/// from-square moves to the to-square.
pub open spec fn apply_layout_move(s: Seq<PlacedPiece>, m: LayoutMove) -> Seq<PlacedPiece> {
    let after_capture = if m.kind == MoveKind::Capture {
        remove_first_at(s, m.to)
    } else {
        s
    };
    let after_castle = if is_castle(m) {
        send_all(after_capture, rook_home(m), rook_dest(m))
    } else {
        after_capture
    };
    send_all(after_castle, m.from, m.to)
}

/// The same move read backward, as stepping the replay cursor back
/// replays it: the squares swap, the kind and mover stay.
pub open spec fn reverse_of(m: LayoutMove) -> LayoutMove {
    LayoutMove { from: m.to, to: m.from, kind: m.kind, mover: m.mover }
}

/// The layout a sequence of per-square piece codes denotes, up to square
/// `n`: one placed piece for each square whose code is below 12, in
/// square order.
pub open spec fn layout_of_prefix(codes: Seq<u8>, n: int) -> Seq<PlacedPiece>
    decreases n,
{
    if n <= 0 {
        Seq::<PlacedPiece>::empty()
    } else {
        layout_of_prefix(codes, n - 1) + if codes[n - 1] < 12 {
            seq![PlacedPiece { square: (n - 1) as u8, piece: codes[n - 1] }]
        } else {
            Seq::<PlacedPiece>::empty()
        }
    }
}

/// The layout a full board of 64 per-square piece codes denotes.
pub open spec fn layout_of(codes: Seq<u8>) -> Seq<PlacedPiece> {
    layout_of_prefix(codes, 64)
}

/// The displayed pieces.
#[derive(Clone, Debug)]
pub struct BoardLayout {
    pub pieces: Vec<PlacedPiece>,
}

impl BoardLayout {
    /// An empty board.
    pub fn empty() -> (r: BoardLayout)
        ensures
            r.pieces@ == Seq::<PlacedPiece>::empty(),
    {
        BoardLayout { pieces: Vec::new() }
    }

    /// Rebuilds the layout from the oracle's per-square piece codes for
    /// the displayed ply: square order, one piece wherever the code is
    /// below 12.
    pub fn sync_from(codes: &Vec<u8>) -> (r: BoardLayout)
        requires
            codes@.len() == 64,
        ensures
            r.pieces@ == layout_of(codes@),
    {
        let mut pieces: Vec<PlacedPiece> = Vec::new();
        let mut i: usize = 0;
        while i < 64
            invariant
                0 <= i <= 64,
                codes@.len() == 64,
                pieces@ == layout_of_prefix(codes@, i as int),
            decreases 64 - i,
        {
            let code = codes[i];
            if code < 12 {
                pieces.push(PlacedPiece { square: i as u8, piece: code });
            }
            proof {
                assert(pieces@ =~= layout_of_prefix(codes@, i + 1));
            }
            i = i + 1;
        }
        BoardLayout { pieces }
    }

    /// Replays a move across the displayed pieces, exactly as
    /// [`apply_layout_move`] says.
    pub fn make_move(&mut self, m: LayoutMove)
        ensures
            final(self).pieces@ == apply_layout_move(old(self).pieces@, m),
    {
        if matches!(m.kind, MoveKind::Capture) {
            self.remove_at(m.to);
        }
        if matches!(m.kind, MoveKind::KingSideCastle | MoveKind::QueenSideCastle) {
            let (home, dest) = match (m.kind, m.mover) {
                (MoveKind::KingSideCastle, Color::White) => (7u8, 5u8),
                (MoveKind::KingSideCastle, Color::Black) => (63u8, 61u8),
                (MoveKind::QueenSideCastle, Color::White) => (0u8, 3u8),
                _ => (56u8, 59u8),
            };
            proof {
                assert(home == rook_home(m) && dest == rook_dest(m));
            }
            self.send(home, dest);
        }
        self.send(m.from, m.to);
    }

    /// Takes the first piece standing on `sq` off the board.
    fn remove_at(&mut self, sq: u8)
        ensures
            final(self).pieces@ == remove_first_at(old(self).pieces@, sq),
    {
        let n = self.pieces.len();
        let mut i: usize = 0;
        while i < n && self.pieces[i].square != sq
            invariant
                0 <= i <= n == self.pieces@.len(),
                self.pieces@ == old(self).pieces@,
                forall|j: int| 0 <= j < i ==> old(self).pieces@[j].square != sq,
            decreases n - i,
        {
            i = i + 1;
        }
        if i < n {
            self.pieces.remove(i);
            proof {
                lemma_remove_first_at_index(old(self).pieces@, sq, i as int);
                assert(self.pieces@ =~= remove_first_at(old(self).pieces@, sq));
            }
        } else {
            proof {
                lemma_remove_first_at_none(self.pieces@, sq);
            }
        }
    }

    /// Sends every piece on `src` to `dst`.
    fn send(&mut self, src: u8, dst: u8)
        ensures
            final(self).pieces@ == send_all(old(self).pieces@, src, dst),
    {
        let n = self.pieces.len();
        let mut out: Vec<PlacedPiece> = Vec::new();
        let mut i: usize = 0;
        while i < n
            invariant
                0 <= i <= n == self.pieces@.len(),
                self.pieces@ == old(self).pieces@,
                out@ == send_all(self.pieces@.subrange(0, i as int), src, dst),
            decreases n - i,
        {
            let p = self.pieces[i];
            if p.square == src {
                out.push(PlacedPiece { square: dst, piece: p.piece });
            } else {
                out.push(p);
            }
            proof {
                assert(out@ =~= send_all(self.pieces@.subrange(0, i + 1), src, dst));
            }
            i = i + 1;
        }
        proof {
            assert(self.pieces@.subrange(0, n as int) =~= self.pieces@);
        }
        self.pieces = out;
    }
}

proof fn lemma_remove_first_at_none(s: Seq<PlacedPiece>, sq: u8)
    requires
        forall|j: int| 0 <= j < s.len() ==> s[j].square != sq,
    ensures
        remove_first_at(s, sq) == s,
    decreases s.len(),
{
    if s.len() > 0 {
        lemma_remove_first_at_none(s.subrange(1, s.len() as int), sq);
        assert(remove_first_at(s, sq) =~= s);
    }
}

proof fn lemma_remove_first_at_index(s: Seq<PlacedPiece>, sq: u8, i: int)
    requires
        0 <= i < s.len(),
        s[i].square == sq,
        forall|j: int| 0 <= j < i ==> s[j].square != sq,
    ensures
        remove_first_at(s, sq) == s.subrange(0, i) + s.subrange(i + 1, s.len() as int),
    decreases i,
{
    if i == 0 {
        assert(remove_first_at(s, sq) =~= s.subrange(0, 0) + s.subrange(1, s.len() as int));
    } else {
        let tail = s.subrange(1, s.len() as int);
        lemma_remove_first_at_index(tail, sq, i - 1);
        assert(tail.subrange(0, i - 1) =~= s.subrange(1, i));
        assert(tail.subrange(i, tail.len() as int) =~= s.subrange(i + 1, s.len() as int));
        assert(remove_first_at(s, sq) =~= s.subrange(0, i) + s.subrange(i + 1, s.len() as int));
    }
}

/// Stepping a move backward and then forward across the layout restores
/// it piece for piece: replaying the reversed move and then the move
/// itself is the identity, provided the layout stands just after the
/// move — nothing on the from-square, and for a castle nothing on the
/// rook's home square, which the move does not touch.
pub proof fn lemma_layout_back_then_forward(s: Seq<PlacedPiece>, m: LayoutMove)
    requires
        forall|j: int| 0 <= j < s.len() ==> s[j].square != m.from,
        is_castle(m) ==> forall|j: int| 0 <= j < s.len() ==> s[j].square != rook_home(m),
        is_castle(m) ==> m.from != rook_home(m) && m.to != rook_home(m),
    ensures
        apply_layout_move(apply_layout_move(s, reverse_of(m)), m) == s,
{
    let r = reverse_of(m);
    let back = apply_layout_move(s, r);
    if m.kind == MoveKind::Capture {
        lemma_remove_first_at_none(s, m.from);
        assert(back == send_all(s, m.to, m.from));
        assert(forall|j: int|
            0 <= j < back.len() ==> #[trigger] back[j] == sent(s[j], m.to, m.from));
        assert(forall|j: int| 0 <= j < back.len() ==> back[j].square != m.to);
        lemma_remove_first_at_none(back, m.to);
        assert(apply_layout_move(back, m) =~= s);
    } else if is_castle(m) {
        let home = rook_home(m);
        let dest = rook_dest(m);
        assert(rook_home(r) == home && rook_dest(r) == dest);
        assert(send_all(s, home, dest) =~= s);
        assert(back =~= send_all(s, m.to, m.from));
        assert(forall|j: int|
            0 <= j < back.len() ==> #[trigger] back[j] == sent(s[j], m.to, m.from));
        assert(forall|j: int| 0 <= j < back.len() ==> back[j].square != home);
        assert(send_all(back, home, dest) =~= back);
        assert(apply_layout_move(back, m) =~= s);
    } else {
        assert(back == send_all(s, m.to, m.from));
        assert(forall|j: int|
            0 <= j < back.len() ==> #[trigger] back[j] == sent(s[j], m.to, m.from));
        assert(apply_layout_move(back, m) =~= s);
    }
}

/// The target squares the legal-move set offers from one square, in
/// order; what the presentation highlights for a selected piece.
pub open spec fn targets_of_prefix(legal: Seq<MoveIntent>, from: u8, n: int) -> Seq<u8>
    decreases n,
{
    if n <= 0 {
        Seq::<u8>::empty()
    } else {
        targets_of_prefix(legal, from, n - 1) + if legal[n - 1].from == from {
            seq![legal[n - 1].to]
        } else {
            Seq::<u8>::empty()
        }
    }
}

/// Collects the target squares the legal-move set offers from `from`.
pub fn targets_from(legal: &Vec<MoveIntent>, from: u8) -> (r: Vec<u8>)
    ensures
        r@ == targets_of_prefix(legal@, from, legal@.len() as int),
{
    let n = legal.len();
    let mut r: Vec<u8> = Vec::new();
    let mut i: usize = 0;
    while i < n
        invariant
            0 <= i <= n == legal@.len(),
            r@ == targets_of_prefix(legal@, from, i as int),
        decreases n - i,
    {
        if legal[i].from == from {
            r.push(legal[i].to);
        }
        proof {
            assert(r@ =~= targets_of_prefix(legal@, from, i + 1));
        }
        i = i + 1;
    }
    r
}

} // verus!
