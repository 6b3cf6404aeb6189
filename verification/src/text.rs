//! Text forms of the machine's values, as the debugger shows them.
use vstd::prelude::*;
use vstd::string::*;

verus! {

/// The text of a hexadecimal digit (upper case).
pub open spec fn hex_digit_text(d: int) -> Seq<char> {
    if d == 0 {
        "0"@
    } else if d == 1 {
        "1"@
    } else if d == 2 {
        "2"@
    } else if d == 3 {
        "3"@
    } else if d == 4 {
        "4"@
    } else if d == 5 {
        "5"@
    } else if d == 6 {
        "6"@
    } else if d == 7 {
        "7"@
    } else if d == 8 {
        "8"@
    } else if d == 9 {
        "9"@
    } else if d == 10 {
        "A"@
    } else if d == 11 {
        "B"@
    } else if d == 12 {
        "C"@
    } else if d == 13 {
        "D"@
    } else if d == 14 {
        "E"@
    } else {
        "F"@
    }
}

/// The text of a decimal digit.
pub open spec fn dec_digit_text(d: int) -> Seq<char> {
    hex_digit_text(d)
}

/// The text of a hexadecimal digit.
pub fn hex_digit(d: u8) -> (r: &'static str)
    requires
        d < 16,
    ensures
        r@ == hex_digit_text(d as int),
{
    match d {
        0 => "0",
        1 => "1",
        2 => "2",
        3 => "3",
        4 => "4",
        5 => "5",
        6 => "6",
        7 => "7",
        8 => "8",
        9 => "9",
        10 => "A",
        11 => "B",
        12 => "C",
        13 => "D",
        14 => "E",
        _ => "F",
    }
}

/// What `format!("{:#04X}", v)` writes: `0x` and two upper-case digits.
pub open spec fn hex8_text(v: u8) -> Seq<char> {
    "0x"@ + hex_digit_text(v as int / 16) + hex_digit_text(v as int % 16)
}

/// What `format!("{:#06X}", v)` writes: `0x` and four upper-case digits.
pub open spec fn hex16_text(v: u16) -> Seq<char> {
    "0x"@ + hex_digit_text(v as int / 4096) + hex_digit_text((v as int / 256) % 16) + hex_digit_text(
        (v as int / 16) % 16,
    ) + hex_digit_text(v as int % 16)
}

/// What `format!("{:02X}", v)` writes: two upper-case digits.
pub open spec fn hex2_text(v: u8) -> Seq<char> {
    hex_digit_text(v as int / 16) + hex_digit_text(v as int % 16)
}

/// The decimal digits of `v`, without leading zeros.
pub open spec fn dec_text(v: nat) -> Seq<char>
    decreases v,
{
    if v < 10 {
        dec_digit_text(v as int)
    } else {
        dec_text(v / 10) + dec_digit_text((v % 10) as int)
    }
}

/// What `format!("{}", v)` writes for a signed byte.
pub open spec fn dec_i8_text(v: i8) -> Seq<char> {
    if v < 0 {
        "-"@ + dec_text((-v) as nat)
    } else {
        dec_text(v as nat)
    }
}

/// What `format!("{}", b)` writes for a flag.
pub open spec fn bool_text(b: bool) -> Seq<char> {
    if b {
        "true"@
    } else {
        "false"@
    }
}

/// Appends `0x` and the two hexadecimal digits of `v`.
pub fn push_hex8(s: &mut String, v: u8)
    ensures
        final(s)@ == old(s)@ + hex8_text(v),
{
    s.append("0x");
    s.append(hex_digit(v / 16));
    s.append(hex_digit(v % 16));
    proof {
        assert(final(s)@ =~= old(s)@ + hex8_text(v));
    }
}

/// Appends the two hexadecimal digits of `v`.
pub fn push_hex2(s: &mut String, v: u8)
    ensures
        final(s)@ == old(s)@ + hex2_text(v),
{
    s.append(hex_digit(v / 16));
    s.append(hex_digit(v % 16));
    proof {
        assert(final(s)@ =~= old(s)@ + hex2_text(v));
    }
}

/// Appends `0x` and the four hexadecimal digits of `v`.
pub fn push_hex16(s: &mut String, v: u16)
    ensures
        final(s)@ == old(s)@ + hex16_text(v),
{
    s.append("0x");
    s.append(hex_digit((v / 4096) as u8));
    s.append(hex_digit(((v / 256) % 16) as u8));
    s.append(hex_digit(((v / 16) % 16) as u8));
    s.append(hex_digit((v % 16) as u8));
    proof {
        assert(final(s)@ =~= old(s)@ + hex16_text(v));
    }
}

/// Appends the decimal digits of `v`.
pub fn push_dec(s: &mut String, v: u8)
    ensures
        final(s)@ == old(s)@ + dec_text(v as nat),
{
    if v >= 100 {
        s.append(hex_digit(v / 100));
        s.append(hex_digit((v / 10) % 10));
        s.append(hex_digit(v % 10));
        proof {
            assert(dec_text((v / 10) as nat) == dec_text((v / 100) as nat) + dec_digit_text(((v / 10) % 10) as int));
            assert(final(s)@ =~= old(s)@ + dec_text(v as nat));
        }
    } else if v >= 10 {
        s.append(hex_digit(v / 10));
        s.append(hex_digit(v % 10));
        proof {
            assert(dec_text((v / 10) as nat) == dec_digit_text((v / 10) as int));
            assert(final(s)@ =~= old(s)@ + dec_text(v as nat));
        }
    } else {
        s.append(hex_digit(v));
    }
}

/// Appends a signed byte in decimal, with a minus sign when negative.
pub fn push_dec_i8(s: &mut String, v: i8)
    ensures
        final(s)@ == old(s)@ + dec_i8_text(v),
{
    if v < 0 {
        s.append("-");
        let m: u8 = if v == -128 { 128 } else { (-v) as u8 };
        push_dec(s, m);
        proof {
            assert(final(s)@ =~= old(s)@ + dec_i8_text(v));
        }
    } else {
        push_dec(s, v as u8);
    }
}

/// Appends `true` or `false`.
pub fn push_bool(s: &mut String, b: bool)
    ensures
        final(s)@ == old(s)@ + bool_text(b),
{
    if b {
        s.append("true");
    } else {
        s.append("false");
    }
}

} // verus!
