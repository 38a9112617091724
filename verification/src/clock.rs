//! The clock display: remaining time rendered as text for the
//! presentation layer.
//!
//! A minute or more reads as minutes and zero-padded seconds, "3:07".
//! Under a minute the display narrows to at most four characters plus a
//! trailing "s": whole seconds, then a dot and up to two fraction
//! digits — the hundredths only fit while the seconds part is a single
//! digit — with all-zero fractions dropped, "59.3s", "5.25s", "7s".

use vstd::prelude::*;

use crate::digits::{dec_digits, digit_char, digit_str, u64_to_string};

verus! {

/// The under-a-minute clock text.
pub open spec fn small_clock_chars(ms: u64) -> Seq<char> {
    let secs = ms / 1000;
    let frac = ms % 1000;
    let d1 = digit_char((frac / 100) as nat);
    let d2 = digit_char(((frac / 10) % 10) as nat);
    let base = dec_digits(secs as nat);
    if frac == 0 {
        base.push('s')
    } else if secs >= 10 || frac % 100 == 0 {
        base + seq!['.', d1, 's']
    } else {
        base + seq!['.', d1, d2, 's']
    }
}

/// The clock text of a remaining time: "M:SS" from one minute up, the
/// narrow seconds form below it.
pub open spec fn clock_chars(ms: u64) -> Seq<char> {
    if ms >= 60000 {
        let secs = (ms / 1000) % 60;
        dec_digits((ms / 60000) as nat) + seq![
            ':',
            digit_char((secs / 10) as nat),
            digit_char((secs % 10) as nat),
        ]
    } else {
        small_clock_chars(ms)
    }
}

/// Renders a remaining time in milliseconds as the clock text the
/// presentation layer shows beside the board.
pub fn to_clock(ms: u64) -> (r: String)
    ensures
        r@ == clock_chars(ms),
{
    proof {
        reveal_strlit(":");
        reveal_strlit(".");
        reveal_strlit("s");
    }
    if ms >= 60000 {
        let secs = (ms / 1000) % 60;
        let mut s = u64_to_string(ms / 60000);
        s.append(":");
        s.append(digit_str((secs / 10) as u8));
        s.append(digit_str((secs % 10) as u8));
        proof {
            assert(s@ =~= clock_chars(ms));
        }
        s
    } else {
        let secs = ms / 1000;
        let frac = ms % 1000;
        let mut s = u64_to_string(secs);
        if frac != 0 {
            s.append(".");
            s.append(digit_str((frac / 100) as u8));
            if secs < 10 && frac % 100 != 0 {
                s.append(digit_str(((frac / 10) % 10) as u8));
            }
        }
        s.append("s");
        proof {
            assert(s@ =~= clock_chars(ms));
        }
        s
    }
}

} // verus!
