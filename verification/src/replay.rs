//! The replay cursor: lets the presentation layer display any historical
//! ply without mutating the authoritative session.
//!
//! The cursor holds a displayed ply that never exceeds the authoritative
//! ply. Stepping moves it one ply at a time; jumping to the latest ply or
//! to the initial position are the two boundary operations. While the
//! cursor sits behind the live ply the user is reviewing history, and the
//! input bridge must not accept new move intents.

use vstd::prelude::*;

verus! {

/// The presentation layer's position in history.
#[derive(Clone, Copy, PartialEq, Eq, Structural, Debug)]
pub struct ReplayCursor {
    pub displayed_ply: usize,
}

/// The ply shown after one step backward: one less, floored at the
/// initial position.
pub open spec fn back_model(d: nat) -> nat {
    if d > 0 {
        (d - 1) as nat
    } else {
        0
    }
}

/// The ply shown after one step forward toward the authoritative ply
/// `auth`: one more, capped at `auth`.
pub open spec fn forward_model(d: nat, auth: nat) -> nat {
    if d < auth {
        d + 1
    } else {
        d
    }
}

/// `n` steps backward in a row.
pub open spec fn back_n(d: nat, n: nat) -> nat
    decreases n,
{
    if n == 0 {
        d
    } else {
        back_model(back_n(d, (n - 1) as nat))
    }
}

/// `n` steps forward in a row toward `auth`.
pub open spec fn forward_n(d: nat, auth: nat, n: nat) -> nat
    decreases n,
{
    if n == 0 {
        d
    } else {
        forward_model(forward_n(d, auth, (n - 1) as nat), auth)
    }
}

impl ReplayCursor {
    /// A cursor at the initial position.
    pub fn start() -> (r: ReplayCursor)
        ensures
            r.displayed_ply == 0,
    {
        ReplayCursor { displayed_ply: 0 }
    }

    /// Whether the cursor sits at the live ply, where alone the input
    /// bridge may accept new move intents.
    pub open spec fn live_spec(self, authoritative_ply: nat) -> bool {
        self.displayed_ply == authoritative_ply
    }

    /// Tells whether the cursor sits at the live ply.
    pub fn at_live_ply(&self, authoritative_ply: usize) -> (r: bool)
        ensures
            r == self.live_spec(authoritative_ply as nat),
    {
        self.displayed_ply == authoritative_ply
    }

    /// Steps one ply backward, stopping at the initial position.
    pub fn step_back(&mut self)
        ensures
            final(self).displayed_ply == back_model(old(self).displayed_ply as nat),
    {
        if self.displayed_ply > 0 {
            self.displayed_ply = self.displayed_ply - 1;
        }
    }

    /// Steps one ply forward, stopping at the authoritative ply.
    pub fn step_forward(&mut self, authoritative_ply: usize)
        ensures
            final(self).displayed_ply == forward_model(
                old(self).displayed_ply as nat,
                authoritative_ply as nat,
            ),
    {
        if self.displayed_ply < authoritative_ply {
            self.displayed_ply = self.displayed_ply + 1;
        }
    }

    /// Jumps to the latest ply.
    pub fn jump_latest(&mut self, authoritative_ply: usize)
        ensures
            final(self).displayed_ply == authoritative_ply,
    {
        self.displayed_ply = authoritative_ply;
    }

    /// Jumps to the initial position.
    pub fn jump_start(&mut self)
        ensures
            final(self).displayed_ply == 0,
    {
        self.displayed_ply = 0;
    }

    /// Reconciles with an authoritative session that has advanced: a
    /// cursor that was at the live ply follows it, one that is reviewing
    /// history stays put.
    pub fn reconcile(&mut self, old_authoritative: usize, new_authoritative: usize)
        ensures
            final(self).displayed_ply == if old(self).displayed_ply == old_authoritative {
                new_authoritative as int
            } else {
                old(self).displayed_ply as int
            },
    {
        if self.displayed_ply == old_authoritative {
            self.displayed_ply = new_authoritative;
        }
    }
}

/// Stepping backward never leaves the board, and stays within history.
proof fn lemma_back_n_bounds(d: nat, n: nat)
    ensures
        back_n(d, n) <= d,
        n <= d ==> back_n(d, n) == d - n,
    decreases n,
{
    if n > 0 {
        lemma_back_n_bounds(d, (n - 1) as nat);
    }
}

/// Stepping forward stops at the authoritative ply.
proof fn lemma_forward_n_bounds(d: nat, auth: nat, n: nat)
    ensures
        d <= auth ==> forward_n(d, auth, n) <= auth,
        d + n <= auth ==> forward_n(d, auth, n) == d + n,
    decreases n,
{
    if n > 0 {
        lemma_forward_n_bounds(d, auth, (n - 1) as nat);
    }
}

/// Stepping the cursor backward and then forward the same number of
/// steps returns it to the original displayed ply, for any number of
/// steps within the displayed history and any authoritative ply at or
/// beyond the starting point.
pub proof fn lemma_back_then_forward(d: nat, auth: nat, n: nat)
    requires
        n <= d,
        d <= auth,
    ensures
        forward_n(back_n(d, n), auth, n) == d,
{
    lemma_back_n_bounds(d, n);
    lemma_forward_n_bounds((d - n) as nat, auth, n);
}

} // verus!
