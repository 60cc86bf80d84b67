//! The textual form of locations and traces.
//!
//! A location is shown as `origin:line`; a trace as one indexed line per
//! location, in recorded order. The spec functions here define those forms
//! over sequences of characters, and the executable functions are proved to
//! produce exactly them.

use vstd::prelude::*;
use vstd::string::StringExecFns;

use crate::trace::CodeLocation;

verus! {

/// The character for a single decimal digit.
pub open spec fn dec_digit(n: nat) -> char
    recommends
        n < 10,
{
    if n == 0 {
        '0'
    } else if n == 1 {
        '1'
    } else if n == 2 {
        '2'
    } else if n == 3 {
        '3'
    } else if n == 4 {
        '4'
    } else if n == 5 {
        '5'
    } else if n == 6 {
        '6'
    } else if n == 7 {
        '7'
    } else if n == 8 {
        '8'
    } else {
        '9'
    }
}

/// The decimal numeral for `n`, most significant digit first, without
/// leading zeros (`0` itself is the one-character numeral `"0"`).
pub open spec fn dec_rep(n: nat) -> Seq<char>
    decreases n,
{
    if n < 10 {
        seq![dec_digit(n)]
    } else {
        dec_rep(n / 10) + seq![dec_digit(n % 10)]
    }
}

/// The textual form of a location: its origin, a colon, its line number.
pub open spec fn location_text(loc: CodeLocation) -> Seq<char> {
    loc.file@ + seq![':'] + dec_rep(loc.line as nat)
}

/// One line of a displayed trace: a newline, three spaces, the entry's
/// index, a colon and a space, and the location's textual form.
pub open spec fn entry_text(index: nat, loc: CodeLocation) -> Seq<char> {
    seq!['\n', ' ', ' ', ' '] + dec_rep(index) + seq![':', ' '] + location_text(loc)
}

/// The full displayed trace: every location on a line of its own, indexed,
/// in recorded order.
pub open spec fn trace_text(locs: Seq<CodeLocation>) -> Seq<char>
    decreases locs.len(),
{
    if locs.len() == 0 {
        Seq::<char>::empty()
    } else {
        trace_text(locs.drop_last()) + entry_text((locs.len() - 1) as nat, locs.last())
    }
}

fn digit_str(d: u64) -> (r: &'static str)
    requires
        d < 10,
    ensures
        r@ == seq![dec_digit(d as nat)],
{
    proof {
        reveal_strlit("0");
        reveal_strlit("1");
        reveal_strlit("2");
        reveal_strlit("3");
        reveal_strlit("4");
        reveal_strlit("5");
        reveal_strlit("6");
        reveal_strlit("7");
        reveal_strlit("8");
        reveal_strlit("9");
    }
    let r = if d == 0 {
        "0"
    } else if d == 1 {
        "1"
    } else if d == 2 {
        "2"
    } else if d == 3 {
        "3"
    } else if d == 4 {
        "4"
    } else if d == 5 {
        "5"
    } else if d == 6 {
        "6"
    } else if d == 7 {
        "7"
    } else if d == 8 {
        "8"
    } else {
        "9"
    };
    proof {
        assert(r@ =~= seq![dec_digit(d as nat)]);
    }
    r
}

/// Renders `n` as its decimal numeral.
pub fn u64_to_dec(n: u64) -> (r: String)
    ensures
        r@ == dec_rep(n as nat),
    decreases n,
{
    if n < 10 {
        digit_str(n).to_owned()
    } else {
        let mut s = u64_to_dec(n / 10);
        s.append(digit_str(n % 10));
        proof {
            assert(s@ =~= dec_rep(n as nat));
        }
        s
    }
}

} // verus!
