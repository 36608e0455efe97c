//! Numbers as they appear in messages.

use vstd::prelude::*;
use vstd::string::*;

verus! {

/// The character for a digit below 16: `0` to `9`, which start at code
/// point 48, then `a` to `f`, which start at code point 97.
pub open spec fn digit_char(d: int) -> char {
    if d < 10 {
        (48 + d) as char
    } else {
        (87 + d) as char
    }
}

/// The `digits` lowest hexadecimal digits of `value`, most significant
/// first, in lower case.
pub open spec fn hex(value: nat, digits: nat) -> Seq<char>
    decreases digits,
{
    if digits == 0 {
        Seq::empty()
    } else {
        hex(value / 16, (digits - 1) as nat).push(digit_char((value % 16) as int))
    }
}

/// `value` in decimal, without leading zeros.
pub open spec fn decimal(value: nat) -> Seq<char>
    decreases value,
{
    if value < 10 {
        seq![digit_char(value as int)]
    } else {
        decimal(value / 10).push(digit_char((value % 10) as int))
    }
}

/// `value` in decimal, with a minus sign where it is negative.
pub open spec fn signed_decimal(value: int) -> Seq<char> {
    if value < 0 {
        seq!['-'] + decimal((-value) as nat)
    } else {
        decimal(value as nat)
    }
}

/// The one-character string for a digit below 16.
fn digit_str(d: u8) -> (s: &'static str)
    requires
        d < 16,
    ensures
        s@ == seq![digit_char(d as int)],
{
    proof {
        reveal_strlit("0");
        reveal_strlit("1");
        reveal_strlit("2");
        reveal_strlit("3");
        reveal_strlit("4");
        reveal_strlit("5");
        reveal_strlit("6");
        reveal_strlit("7");
        reveal_strlit("8");
        reveal_strlit("9");
        reveal_strlit("a");
        reveal_strlit("b");
        reveal_strlit("c");
        reveal_strlit("d");
        reveal_strlit("e");
        reveal_strlit("f");
    }
    let s = match d {
        0 => "0",
        1 => "1",
        2 => "2",
        3 => "3",
        4 => "4",
        5 => "5",
        6 => "6",
        7 => "7",
        8 => "8",
        9 => "9",
        10 => "a",
        11 => "b",
        12 => "c",
        13 => "d",
        14 => "e",
        _ => "f",
    };
    assert(s@ =~= seq![digit_char(d as int)]);
    s
}

/// Renders the `digits` lowest hexadecimal digits of `value`.
pub fn to_hex(value: u32, digits: usize) -> (s: String)
    ensures
        s@ == hex(value as nat, digits as nat),
{
    let mut s = String::new();
    let mut rest: u32 = value;
    let mut left: usize = digits;
    while left > 0
        invariant
            hex(value as nat, digits as nat) == hex(rest as nat, left as nat) + s@,
        decreases left,
    {
        let d = digit_str((rest % 16) as u8);
        let longer = String::from_str(d).concat(s.as_str());
        assert(hex(rest as nat, left as nat) + s@ =~= hex((rest / 16) as nat, (left - 1) as nat)
            + longer@);
        s = longer;
        rest = rest / 16;
        left = left - 1;
    }
    assert(hex(rest as nat, 0) + s@ =~= s@);
    s
}

/// Renders `value` in decimal.
pub fn to_decimal(value: i32) -> (s: String)
    ensures
        s@ == signed_decimal(value as int),
{
    let magnitude: u32 = if value < 0 {
        (-(value as i64)) as u32
    } else {
        value as u32
    };
    let mut s = String::new();
    let mut rest: u32 = magnitude;
    while rest >= 10
        invariant
            decimal(magnitude as nat) == decimal(rest as nat) + s@,
        decreases rest,
    {
        let d = digit_str((rest % 10) as u8);
        let longer = String::from_str(d).concat(s.as_str());
        assert(decimal(rest as nat) + s@ =~= decimal((rest / 10) as nat) + longer@);
        s = longer;
        rest = rest / 10;
    }
    let d = digit_str(rest as u8);
    let digits = String::from_str(d).concat(s.as_str());
    assert(digits@ =~= decimal(magnitude as nat));
    if value < 0 {
        proof {
            reveal_strlit("-");
        }
        let signed = String::from_str("-").concat(digits.as_str());
        assert(signed@ =~= signed_decimal(value as int));
        signed
    } else {
        digits
    }
}

} // verus!
