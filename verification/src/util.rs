//! Small helpers over std.

use vstd::prelude::*;
use vstd::string::StringExecFns;

verus! {

/// `v` restricted to `min..=max`.
pub open spec fn clamped(v: int, min: int, max: int) -> int {
    if v < min {
        min
    } else if v > max {
        max
    } else {
        v
    }
}

/// Calls std's `Ord::clamp` on `usize`, which (by its documentation) returns `max` when the
/// value is greater than `max`, `min` when it is less than `min`, and the value otherwise, and
/// panics when `min > max`.
#[verifier::external_body]
pub(crate) fn clamp_usize(v: usize, min: usize, max: usize) -> (r: usize)
    requires
        min <= max,
    ensures
        r == clamped(v as int, min as int, max as int),
{
    v.clamp(min, max)
}

/// Calls std's `Ord::clamp` on `u8`, with the same documented behaviour as for `usize`.
#[verifier::external_body]
pub(crate) fn clamp_u8(v: u8, min: u8, max: u8) -> (r: u8)
    requires
        min <= max,
    ensures
        r == clamped(v as int, min as int, max as int),
{
    v.clamp(min, max)
}

} // verus!

verus! {

/// The upper-case hexadecimal digit for `d` in 0..16.
pub open spec fn hex_char(d: int) -> char {
    if d == 0 { '0' } else if d == 1 { '1' } else if d == 2 { '2' } else if d == 3 { '3' }
    else if d == 4 { '4' } else if d == 5 { '5' } else if d == 6 { '6' } else if d == 7 { '7' }
    else if d == 8 { '8' } else if d == 9 { '9' } else if d == 10 { 'A' } else if d == 11 { 'B' }
    else if d == 12 { 'C' } else if d == 13 { 'D' } else if d == 14 { 'E' } else { 'F' }
}

/// The upper-case hexadecimal digits of `v`, most significant first, padded with zeros to at
/// least `min` digits (there is always at least one).
pub open spec fn hex_digits(v: nat, min: nat) -> Seq<char>
    decreases v, min,
{
    if v < 16 && min <= 1 {
        seq![hex_char(v as int)]
    } else {
        hex_digits(v / 16, if min > 0 { (min - 1) as nat } else { 0 }).push(hex_char((v % 16) as int))
    }
}

/// `v` as Rust's `{:#0wX}` formats it: "0x" and upper-case digits padded with zeros to a width
/// of `width` characters (the "0x" included).
pub open spec fn hex_text(v: nat, width: nat) -> Seq<char> {
    seq!['0', 'x'] + hex_digits(v, if width > 2 { (width - 2) as nat } else { 0 })
}

fn hex_digit_str(d: usize) -> (r: &'static str)
    requires
        d < 16,
    ensures
        r@ == seq![hex_char(d as int)],
{
    proof {
        reveal_strlit("0");
        reveal_strlit("1");
        reveal_strlit("2");
        reveal_strlit("3");
        reveal_strlit("4");
        reveal_strlit("5");
        reveal_strlit("6");
        reveal_strlit("7");
        reveal_strlit("8");
        reveal_strlit("9");
        reveal_strlit("A");
        reveal_strlit("B");
        reveal_strlit("C");
        reveal_strlit("D");
        reveal_strlit("E");
        reveal_strlit("F");
    }
    let r = match d {
        0 => "0",
        1 => "1",
        2 => "2",
        3 => "3",
        4 => "4",
        5 => "5",
        6 => "6",
        7 => "7",
        8 => "8",
        9 => "9",
        10 => "A",
        11 => "B",
        12 => "C",
        13 => "D",
        14 => "E",
        _ => "F",
    };
    assert(r@ =~= seq![hex_char(d as int)]);
    r
}

fn push_hex_digits(s: &mut String, v: usize, min: usize)
    ensures
        final(s)@ == old(s)@ + hex_digits(v as nat, min as nat),
    decreases v, min,
{
    if v < 16 && min <= 1 {
        s.append(hex_digit_str(v));
    } else {
        let next_min = if min > 0 {
            min - 1
        } else {
            0
        };
        push_hex_digits(s, v / 16, next_min);
        s.append(hex_digit_str(v % 16));
        assert(final(s)@ =~= old(s)@ + hex_digits(v as nat, min as nat));
    }
}

/// Append `v` to `s` as Rust's `{:#0wX}` formats it, `w` being `width`.
pub(crate) fn push_hex(s: &mut String, v: usize, width: usize)
    ensures
        final(s)@ == old(s)@ + hex_text(v as nat, width as nat),
{
    proof {
        reveal_strlit("0x");
    }
    s.append("0x");
    let min = if width > 2 {
        width - 2
    } else {
        0
    };
    push_hex_digits(s, v, min);
    assert(final(s)@ =~= old(s)@ + hex_text(v as nat, width as nat));
}

} // verus!
