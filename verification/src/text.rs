//! Numbers written out as text.

use vstd::prelude::*;
use vstd::string::*;

verus! {

/// The character of one decimal digit, `0..=9`.
pub open spec fn digit_char(d: nat) -> char
    recommends
        d < 10,
{
    if d == 0 {
        '0'
    } else if d == 1 {
        '1'
    } else if d == 2 {
        '2'
    } else if d == 3 {
        '3'
    } else if d == 4 {
        '4'
    } else if d == 5 {
        '5'
    } else if d == 6 {
        '6'
    } else if d == 7 {
        '7'
    } else if d == 8 {
        '8'
    } else {
        '9'
    }
}

/// A number in decimal, without leading zeros (zero is `"0"`).
pub open spec fn decimal(n: nat) -> Seq<char>
    decreases n,
{
    if n < 10 {
        seq![digit_char(n)]
    } else {
        decimal(n / 10).push(digit_char(n % 10))
    }
}

/// A number in decimal, with a leading zero where it has one digit only.
pub open spec fn decimal_padded(n: nat) -> Seq<char> {
    if n < 10 {
        seq!['0', digit_char(n)]
    } else {
        decimal(n)
    }
}

/// A whole number in decimal, with a minus sign where it is negative.
pub open spec fn signed_decimal(n: int) -> Seq<char> {
    if n < 0 {
        seq!['-'] + decimal((-n) as nat)
    } else {
        decimal(n as nat)
    }
}

/// The character of one hexadecimal digit, `0..=15`, in upper case.
pub open spec fn hex_char(d: nat) -> char
    recommends
        d < 16,
{
    if d < 10 {
        digit_char(d)
    } else if d == 10 {
        'A'
    } else if d == 11 {
        'B'
    } else if d == 12 {
        'C'
    } else if d == 13 {
        'D'
    } else if d == 14 {
        'E'
    } else {
        'F'
    }
}

/// A byte as two hexadecimal digits in upper case.
pub open spec fn hex_byte(n: u8) -> Seq<char> {
    seq![hex_char(n as nat / 16), hex_char(n as nat % 16)]
}

/// `true` or `false`.
pub open spec fn bool_text(b: bool) -> Seq<char> {
    if b {
        "true"@
    } else {
        "false"@
    }
}

/// One decimal digit as a string.
fn digit_str(d: u8) -> (s: &'static str)
    requires
        d < 10,
    ensures
        s@ == seq![digit_char(d as nat)],
{
    proof {
        reveal_strlit("0");
        reveal_strlit("1");
        reveal_strlit("2");
        reveal_strlit("3");
        reveal_strlit("4");
        reveal_strlit("5");
        reveal_strlit("6");
        reveal_strlit("7");
        reveal_strlit("8");
        reveal_strlit("9");
    }
    let s: &'static str = match d {
        0 => "0",
        1 => "1",
        2 => "2",
        3 => "3",
        4 => "4",
        5 => "5",
        6 => "6",
        7 => "7",
        8 => "8",
        _ => "9",
    };
    assert(s@ =~= seq![digit_char(d as nat)]);
    s
}

/// One hexadecimal digit as a string.
fn hex_str(d: u8) -> (s: &'static str)
    requires
        d < 16,
    ensures
        s@ == seq![hex_char(d as nat)],
{
    if d < 10 {
        digit_str(d)
    } else {
        proof {
            reveal_strlit("A");
            reveal_strlit("B");
            reveal_strlit("C");
            reveal_strlit("D");
            reveal_strlit("E");
            reveal_strlit("F");
        }
        let s: &'static str = match d {
            10 => "A",
            11 => "B",
            12 => "C",
            13 => "D",
            14 => "E",
            _ => "F",
        };
        assert(s@ =~= seq![hex_char(d as nat)]);
        s
    }
}

/// Appends `n` in decimal.
pub fn push_decimal(text: &mut String, n: u16)
    ensures
        final(text)@ == old(text)@ + decimal(n as nat),
    decreases n,
{
    if n >= 10 {
        push_decimal(text, n / 10);
    }
    text.append(digit_str((n % 10) as u8));
    assert(final(text)@ =~= old(text)@ + decimal(n as nat));
}

/// Appends `n` in decimal, at least two digits wide.
pub fn push_decimal_padded(text: &mut String, n: u8)
    ensures
        final(text)@ == old(text)@ + decimal_padded(n as nat),
{
    if n < 10 {
        proof {
            reveal_strlit("0");
        }
        text.append("0");
    }
    push_decimal(text, n as u16);
    assert(final(text)@ =~= old(text)@ + decimal_padded(n as nat));
}

/// Appends `n` in decimal, with a minus sign where it is negative.
pub fn push_signed_decimal(text: &mut String, n: i16)
    ensures
        final(text)@ == old(text)@ + signed_decimal(n as int),
{
    if n < 0 {
        proof {
            reveal_strlit("-");
        }
        text.append("-");
        let magnitude: i32 = -(n as i32);
        push_decimal(text, magnitude as u16);
    } else {
        push_decimal(text, n as u16);
    }
    assert(final(text)@ =~= old(text)@ + signed_decimal(n as int));
}

/// Appends `n` as two hexadecimal digits in upper case.
pub fn push_hex_byte(text: &mut String, n: u8)
    ensures
        final(text)@ == old(text)@ + hex_byte(n),
{
    text.append(hex_str(n / 16));
    text.append(hex_str(n % 16));
    assert(final(text)@ =~= old(text)@ + hex_byte(n));
}

/// Appends `true` or `false`.
pub fn push_bool(text: &mut String, b: bool)
    ensures
        final(text)@ == old(text)@ + bool_text(b),
{
    if b {
        text.append("true");
    } else {
        text.append("false");
    }
}

} // verus!
