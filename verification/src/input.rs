//! The input bridge: turns pointer presses and releases on board squares
//! into at most one pending move intent, respecting whose turn it is and
//! which side a human controls.
//!
//! The presentation layer resolves pointer pixels to squares and supplies
//! the oracle facts the rules need (is there a piece on the pressed
//! square, does a process control it, is the pressed target legal, is the
//! moving piece a pawn); every decision taken on those facts lives here.
//! The bridge holds at most one pending press/release pair, yields exactly
//! one intent per completed pair, and clears itself once consumed — a
//! stale intent is never replayed.

use vstd::prelude::*;

use crate::moves::{is_back_rank, MoveIntent, Promotion};

verus! {

/// Which of the fixed promotion-piece keys are currently held.
#[derive(Clone, Copy, PartialEq, Eq, Structural, Default, Debug)]
pub struct PromoKeys {
    pub queen: bool,
    pub rook: bool,
    pub bishop: bool,
    pub knight: bool,
}

/// The promotion piece the held keys select, queen first; no key held
/// leaves the choice to the oracle's default.
pub open spec fn promo_choice(k: PromoKeys) -> Promotion {
    if k.queen {
        Promotion::Queen
    } else if k.rook {
        Promotion::Rook
    } else if k.bishop {
        Promotion::Bishop
    } else if k.knight {
        Promotion::Knight
    } else {
        Promotion::Unspecified
    }
}

/// The pending pointer state: the held promotion keys, at most one
/// pressed square, at most one released square, and the square a
/// right-button drag started from (used for board annotations only).
#[derive(Clone, Copy, PartialEq, Eq, Structural, Debug)]
pub struct MouseInputSquares {
    pub keys_down: PromoKeys,
    pub up_left: Option<u8>,
    pub down_left: Option<u8>,
    pub down_right: Option<u8>,
}

/// The bridge after a press on `sq` at the live ply, on a square a human
/// may touch. A first press selects the square only if a piece stands on
/// it; a second press on the same square or on an illegal target clears
/// the selection; any other second press records the release.
pub open spec fn press_model(
    s: MouseInputSquares,
    sq: u8,
    has_piece: bool,
    legal_target: bool,
) -> MouseInputSquares {
    if s.down_left is Some {
        if s.down_left->Some_0 == sq || !legal_target {
            MouseInputSquares { down_left: Option::<u8>::None, up_left: Option::<u8>::None, ..s }
        } else {
            MouseInputSquares { up_left: Some(sq), ..s }
        }
    } else {
        if has_piece {
            MouseInputSquares { down_left: Some(sq), up_left: Option::<u8>::None, ..s }
        } else {
            s
        }
    }
}

/// The bridge after the pointer is released on `sq`: a release away from
/// the pressed square records the release; letting go on the pressed
/// square itself keeps the selection waiting for a second press.
pub open spec fn release_model(s: MouseInputSquares, sq: u8) -> MouseInputSquares {
    if s.down_left is Some && s.down_left->Some_0 == sq {
        s
    } else {
        MouseInputSquares { up_left: Some(sq), ..s }
    }
}

/// The intent a completed press/release pair denotes: the promotion piece
/// is read from the held keys only when a pawn is moving to the farthest
/// rank.
pub open spec fn pair_intent(s: MouseInputSquares, is_pawn_move: bool) -> MoveIntent {
    MoveIntent {
        from: s.down_left->Some_0,
        to: s.up_left->Some_0,
        promotion: if is_pawn_move && is_back_rank(s.up_left->Some_0) {
            promo_choice(s.keys_down)
        } else {
            Promotion::Unspecified
        },
    }
}

impl MouseInputSquares {
    /// An empty bridge: nothing pressed, nothing released, no keys.
    pub fn empty() -> (r: MouseInputSquares)
        ensures
            r.keys_down == (PromoKeys { queen: false, rook: false, bishop: false, knight: false }),
            r.up_left is None,
            r.down_left is None,
            r.down_right is None,
    {
        MouseInputSquares {
            keys_down: PromoKeys { queen: false, rook: false, bishop: false, knight: false },
            up_left: None,
            down_left: None,
            down_right: None,
        }
    }

    /// Whether a completed press/release pair is pending.
    pub open spec fn has_pair(self) -> bool {
        self.down_left is Some && self.up_left is Some
    }

    /// Records the held promotion keys, as read each frame.
    pub fn set_keys(&mut self, keys: PromoKeys)
        ensures
            *final(self) == (MouseInputSquares { keys_down: keys, ..*old(self) }),
    {
        self.keys_down = keys;
    }

    /// A press on square `sq`. The caller says whether the session is at
    /// the live ply (input is only honored there), whether a process
    /// controls the side whose piece stands on the square (such a press
    /// is ignored), whether any piece stands on it, and whether the
    /// square is a legal target of the pending selection.
    pub fn on_left_press(
        &mut self,
        sq: u8,
        has_piece: bool,
        engine_controlled: bool,
        legal_target: bool,
        at_live_ply: bool,
    )
        ensures
            *final(self) == if at_live_ply && !engine_controlled {
                press_model(*old(self), sq, has_piece, legal_target)
            } else {
                *old(self)
            },
    {
        if !at_live_ply || engine_controlled {
            return ;
        }
        match self.down_left {
            Some(pressed) => {
                if pressed == sq || !legal_target {
                    self.down_left = None;
                    self.up_left = None;
                } else {
                    self.up_left = Some(sq);
                }
            },
            _ => {
                if has_piece {
                    self.down_left = Some(sq);
                    self.up_left = None;
                }
            },
        }
    }

    /// A release of the pointer on square `sq`, honored only at the live
    /// ply.
    pub fn on_left_release(&mut self, sq: u8, at_live_ply: bool)
        ensures
            *final(self) == if at_live_ply {
                release_model(*old(self), sq)
            } else {
                *old(self)
            },
    {
        if !at_live_ply {
            return ;
        }
        let keep = match self.down_left {
            Some(pressed) => pressed == sq,
            _ => false,
        };
        if !keep {
            self.up_left = Some(sq);
        }
    }

    /// Consumes the pending pair, if complete, as exactly one move
    /// intent, and clears it; the same pair is never handed out twice.
    /// `is_pawn_move` is the oracle's word on whether the piece on the
    /// pressed square is a pawn, which decides whether the held keys
    /// choose a promotion piece.
    pub fn take_intent(&mut self, is_pawn_move: bool) -> (r: Option<MoveIntent>)
        ensures
            r is Some <==> old(self).has_pair(),
            old(self).has_pair() ==> {
                &&& r->Some_0 == pair_intent(*old(self), is_pawn_move)
                &&& *final(self) == (MouseInputSquares {
                    down_left: Option::<u8>::None,
                    up_left: Option::<u8>::None,
                    ..*old(self)
                })
            },
            !old(self).has_pair() ==> *final(self) == *old(self),
    {
        match (self.down_left, self.up_left) {
            (Some(from), Some(to)) => {
                self.down_left = None;
                self.up_left = None;
                let promotion = if is_pawn_move && crate::moves::on_back_rank(to) {
                    if self.keys_down.queen {
                        Promotion::Queen
                    } else if self.keys_down.rook {
                        Promotion::Rook
                    } else if self.keys_down.bishop {
                        Promotion::Bishop
                    } else if self.keys_down.knight {
                        Promotion::Knight
                    } else {
                        Promotion::Unspecified
                    }
                } else {
                    Promotion::Unspecified
                };
                Some(MoveIntent { from, to, promotion })
            },
            _ => None,
        }
    }

    /// A right-button press starts an annotation drag on `sq`.
    pub fn on_right_press(&mut self, sq: u8)
        ensures
            *final(self) == (MouseInputSquares { down_right: Some(sq), ..*old(self) }),
    {
        self.down_right = Some(sq);
    }

    /// A right-button release on `sq` completes the annotation drag, if
    /// one is pending, handing back its start and end squares.
    pub fn take_right_drag(&mut self, sq: u8) -> (r: Option<(u8, u8)>)
        ensures
            r is Some <==> old(self).down_right is Some,
            old(self).down_right is Some ==> {
                &&& r->Some_0 == (old(self).down_right->Some_0, sq)
                &&& *final(self) == (MouseInputSquares {
                    down_right: Option::<u8>::None,
                    ..*old(self)
                })
            },
            old(self).down_right is None ==> *final(self) == *old(self),
    {
        match self.down_right {
            Some(start) => {
                self.down_right = None;
                Some((start, sq))
            },
            _ => None,
        }
    }
}

/// Tells whether the legal-move set lets the pending selection move from
/// `from` to `to` with any promotion choice.
pub fn has_move_from_to(legal: &Vec<MoveIntent>, from: u8, to: u8) -> (r: bool)
    ensures
        r == exists|i: int|
            0 <= i < legal@.len() && legal@[i].from == from && legal@[i].to == to,
{
    let n = legal.len();
    let mut i: usize = 0;
    while i < n
        invariant
            0 <= i <= n == legal@.len(),
            forall|j: int| 0 <= j < i ==> !(legal@[j].from == from && legal@[j].to == to),
        decreases n - i,
    {
        if legal[i].from == from && legal[i].to == to {
            return true;
        }
        i = i + 1;
    }
    false
}

} // verus!
