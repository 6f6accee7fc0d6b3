//! Numbers as text: lower-case hexadecimal and decimal, without leading
//! zeros.

use vstd::prelude::*;
use vstd::string::StringExecFns;

verus! {

/// The character for one hexadecimal digit.
pub open spec fn hex_digit(d: nat) -> char {
    if d == 0 {
        '0'
    } else if d == 1 {
        '1'
    } else if d == 2 {
        '2'
    } else if d == 3 {
        '3'
    } else if d == 4 {
        '4'
    } else if d == 5 {
        '5'
    } else if d == 6 {
        '6'
    } else if d == 7 {
        '7'
    } else if d == 8 {
        '8'
    } else if d == 9 {
        '9'
    } else if d == 10 {
        'a'
    } else if d == 11 {
        'b'
    } else if d == 12 {
        'c'
    } else if d == 13 {
        'd'
    } else if d == 14 {
        'e'
    } else {
        'f'
    }
}

/// The digits of `v` in base 16, most significant first; `0` is "0".
pub open spec fn hex_text(v: nat) -> Seq<char>
    decreases v,
{
    if v < 16 {
        seq![hex_digit(v)]
    } else {
        hex_text(v / 16).push(hex_digit(v % 16))
    }
}

fn digit_str(d: u64) -> (s: &'static str)
    requires
        d < 16,
    ensures
        s@ == seq![hex_digit(d as nat)],
{
    let s = if d == 0 {
        proof { reveal_strlit("0"); }
        "0"
    } else if d == 1 {
        proof { reveal_strlit("1"); }
        "1"
    } else if d == 2 {
        proof { reveal_strlit("2"); }
        "2"
    } else if d == 3 {
        proof { reveal_strlit("3"); }
        "3"
    } else if d == 4 {
        proof { reveal_strlit("4"); }
        "4"
    } else if d == 5 {
        proof { reveal_strlit("5"); }
        "5"
    } else if d == 6 {
        proof { reveal_strlit("6"); }
        "6"
    } else if d == 7 {
        proof { reveal_strlit("7"); }
        "7"
    } else if d == 8 {
        proof { reveal_strlit("8"); }
        "8"
    } else if d == 9 {
        proof { reveal_strlit("9"); }
        "9"
    } else if d == 10 {
        proof { reveal_strlit("a"); }
        "a"
    } else if d == 11 {
        proof { reveal_strlit("b"); }
        "b"
    } else if d == 12 {
        proof { reveal_strlit("c"); }
        "c"
    } else if d == 13 {
        proof { reveal_strlit("d"); }
        "d"
    } else if d == 14 {
        proof { reveal_strlit("e"); }
        "e"
    } else {
        proof { reveal_strlit("f"); }
        "f"
    };
    assert(s@ =~= seq![hex_digit(d as nat)]);
    s
}

/// Writes `v` in lower-case hexadecimal.
pub fn to_hex(v: u64) -> (s: String)
    ensures
        s@ == hex_text(v as nat),
    decreases v,
{
    if v < 16 {
        String::from_str(digit_str(v))
    } else {
        let mut s = to_hex(v / 16);
        s.append(digit_str(v % 16));
        assert(s@ =~= hex_text((v / 16) as nat).push(hex_digit((v % 16) as nat)));
        s
    }
}

/// The digits of `v` in base 10, most significant first; `0` is "0".
pub open spec fn dec_text(v: nat) -> Seq<char>
    decreases v,
{
    if v < 10 {
        seq![hex_digit(v)]
    } else {
        dec_text(v / 10).push(hex_digit(v % 10))
    }
}

/// A whole number in base 10, with a minus sign where it is negative.
pub open spec fn int_text(v: int) -> Seq<char> {
    if v < 0 {
        seq!['-'] + dec_text((-v) as nat)
    } else {
        dec_text(v as nat)
    }
}

/// Writes `v` in decimal.
pub fn to_dec(v: u64) -> (s: String)
    ensures
        s@ == dec_text(v as nat),
    decreases v,
{
    if v < 10 {
        String::from_str(digit_str(v))
    } else {
        let mut s = to_dec(v / 10);
        s.append(digit_str(v % 10));
        assert(s@ =~= dec_text((v / 10) as nat).push(hex_digit((v % 10) as nat)));
        s
    }
}

/// Writes a signed byte in decimal.
pub fn signed_to_dec(v: i8) -> (s: String)
    ensures
        s@ == int_text(v as int),
{
    if v < 0 {
        let size: u64 = (0 - (v as i64)) as u64;
        let digits = to_dec(size);
        let mut s = String::from_str("-");
        proof {
            reveal_strlit("-");
        }
        s.append(digits.as_str());
        assert(s@ =~= seq!['-'] + dec_text((-v) as nat));
        s
    } else {
        to_dec(v as u64)
    }
}

} // verus!
