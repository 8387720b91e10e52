//! Text helpers: decimal rendering of integers and UTF-8 decoding of
//! byte buffers.
//!
//! Error messages and telemetry snapshots cross the boundary as text, so
//! numbers are rendered here with a verified decimal formatter rather
//! than an opaque formatting macro.

use vstd::prelude::*;
use vstd::string::StringExecFns;
use vstd::utf8::{decode_utf8, valid_utf8};

verus! {

/// The decimal digit character for `d`.
pub open spec fn spec_digit(d: nat) -> char
    recommends
        d < 10,
{
    if d == 0 {
        '0'
    } else if d == 1 {
        '1'
    } else if d == 2 {
        '2'
    } else if d == 3 {
        '3'
    } else if d == 4 {
        '4'
    } else if d == 5 {
        '5'
    } else if d == 6 {
        '6'
    } else if d == 7 {
        '7'
    } else if d == 8 {
        '8'
    } else {
        '9'
    }
}

/// The decimal rendering of a non-negative integer, without leading
/// zeros (a single `'0'` for zero).
pub open spec fn spec_udecimal(n: nat) -> Seq<char>
    decreases n,
{
    if n < 10 {
        seq![spec_digit(n)]
    } else {
        spec_udecimal(n / 10).push(spec_digit(n % 10))
    }
}

/// The decimal rendering of an integer: a leading `'-'` for negative
/// values, then the digits of the magnitude.
pub open spec fn spec_idecimal(v: int) -> Seq<char> {
    if v >= 0 {
        spec_udecimal(v as nat)
    } else {
        seq!['-'] + spec_udecimal((-v) as nat)
    }
}

/// The one-character string for a single decimal digit.
fn digit_str(d: u64) -> (r: &'static str)
    requires
        d < 10,
    ensures
        r@ == seq![spec_digit(d as nat)],
{
    proof {
        reveal_strlit("0");
        reveal_strlit("1");
        reveal_strlit("2");
        reveal_strlit("3");
        reveal_strlit("4");
        reveal_strlit("5");
        reveal_strlit("6");
        reveal_strlit("7");
        reveal_strlit("8");
        reveal_strlit("9");
    }
    let r = match d {
        0 => "0",
        1 => "1",
        2 => "2",
        3 => "3",
        4 => "4",
        5 => "5",
        6 => "6",
        7 => "7",
        8 => "8",
        _ => "9",
    };
    proof {
        assert(r@ =~= seq![spec_digit(d as nat)]);
    }
    r
}

/// Renders `n` in decimal.
pub fn u64_to_decimal(n: u64) -> (s: String)
    ensures
        s@ == spec_udecimal(n as nat),
    decreases n,
{
    if n < 10 {
        digit_str(n).to_owned()
    } else {
        let mut s = u64_to_decimal(n / 10);
        s.append(digit_str(n % 10));
        proof {
            assert((n / 10) as nat == n as nat / 10);
            assert((n % 10) as nat == n as nat % 10);
            assert(s@ =~= spec_udecimal(n as nat));
        }
        s
    }
}

/// Renders `v` in decimal, with a sign for negative values.
pub fn i64_to_decimal(v: i64) -> (s: String)
    ensures
        s@ == spec_idecimal(v as int),
{
    if v >= 0 {
        u64_to_decimal(v as u64)
    } else {
        let neg: i64 = -(v + 1);
        let mag: u64 = (neg as u64) + 1;
        assert(mag as int == -(v as int));
        let mut s = "-".to_owned();
        s.append(u64_to_decimal(mag).as_str());
        proof {
            reveal_strlit("-");
            assert(s@ =~= spec_idecimal(v as int));
        }
        s
    }
}

/// Relies on `String::from_utf8` of std: it succeeds exactly when the
/// bytes are a valid UTF-8 encoding, and then returns the string whose
/// characters the bytes encode.
#[verifier::external_body]
pub fn string_from_utf8(bytes: Vec<u8>) -> (r: Option<String>)
    ensures
        r is Some <==> valid_utf8(bytes@),
        r matches Some(s) ==> s@ == decode_utf8(bytes@),
{
    String::from_utf8(bytes).ok()
}

} // verus!
