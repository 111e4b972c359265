//! Status-line composition.
//!
//! After a background computation completes, the status line shows the
//! move description, the numeric evaluation score, and — when the score
//! signals an unavoidable end of the game — how many full moves remain
//! until it.

use vstd::prelude::*;
use vstd::string::StringExecFns;

verus! {

/// The decimal digit character for a value below ten.
pub open spec fn spec_digit_char(d: nat) -> char {
    if d == 0 {
        '0'
    } else if d == 1 {
        '1'
    } else if d == 2 {
        '2'
    } else if d == 3 {
        '3'
    } else if d == 4 {
        '4'
    } else if d == 5 {
        '5'
    } else if d == 6 {
        '6'
    } else if d == 7 {
        '7'
    } else if d == 8 {
        '8'
    } else {
        '9'
    }
}

/// The decimal digits of a natural number, most significant first.
pub open spec fn spec_decimal_nat(n: nat) -> Seq<char>
    decreases n,
{
    if n < 10 {
        seq![spec_digit_char(n)]
    } else {
        spec_decimal_nat(n / 10).push(spec_digit_char(n % 10))
    }
}

/// The decimal rendering of an integer: its digits, preceded by a minus
/// sign when negative.
pub open spec fn spec_decimal(n: int) -> Seq<char> {
    if n < 0 {
        seq!['-'] + spec_decimal_nat((-n) as nat)
    } else {
        spec_decimal_nat(n as nat)
    }
}

/// Relies on std's `format!` with the `Display` implementation of `i64`:
/// the canonical decimal digits of the value, preceded by '-' when the
/// value is negative, and nothing else.
#[verifier::external_body]
fn i64_to_string(n: i64) -> (r: String)
    ensures
        r@ == spec_decimal(n as int),
{
    format!("{}", n)
}

/// Number of full moves until the forced end, derived from the ply
/// distance and the side the score favours.
pub open spec fn spec_mate_in(score: int, ply_distance: int) -> int {
    if score > 0 {
        ply_distance / 2 - 1
    } else {
        ply_distance / 2 + 1
    }
}

/// The status line after a computed move: the move description, the
/// score in parentheses, and — when the score's magnitude exceeds half
/// the canonical maximal value — the forced-end annotation.
pub open spec fn spec_engine_title(
    desc: Seq<char>,
    score: int,
    ply_distance: int,
    half_max: int,
) -> Seq<char> {
    let base = desc + " (scr: "@ + spec_decimal(score) + ")"@;
    if score > half_max || score < -half_max {
        base + " Checkmate in "@ + spec_decimal(spec_mate_in(score, ply_distance))
    } else {
        base
    }
}

/// Compose the status line for a completed computed move.
pub fn compose_engine_title(desc: String, score: i64, ply_distance: i64, half_max: i64) -> (r:
    String)
    requires
        0 <= ply_distance,
        0 <= half_max,
    ensures
        r@ == spec_engine_title(desc@, score as int, ply_distance as int, half_max as int),
{
    let ghost orig = desc@;
    let mut t = desc;
    t.append(" (scr: ");
    let s = i64_to_string(score);
    t.append(s.as_str());
    t.append(")");
    proof {
        assert(t@ =~= orig + " (scr: "@ + spec_decimal(score as int) + ")"@);
    }
    if score > half_max || score < -half_max {
        t.append(" Checkmate in ");
        let half_plies = (ply_distance as u64) / 2;
        let n: i64 = if score > 0 {
            (half_plies as i64) - 1
        } else {
            (half_plies as i64) + 1
        };
        assert(n == spec_mate_in(score as int, ply_distance as int));
        let ns = i64_to_string(n);
        t.append(ns.as_str());
        proof {
            assert(t@ =~= spec_engine_title(
                orig,
                score as int,
                ply_distance as int,
                half_max as int,
            ));
        }
    }
    t
}

} // verus!
