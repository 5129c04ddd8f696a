//! Number formatting used by the diagnostics, stated digit by digit.
use vstd::prelude::*;

verus! {

/// The lowercase hexadecimal digit for `d < 16`.
pub open spec fn hex_digit(d: nat) -> char {
    if d == 0 { '0' } else if d == 1 { '1' } else if d == 2 { '2' } else if d == 3 { '3' }
    else if d == 4 { '4' } else if d == 5 { '5' } else if d == 6 { '6' } else if d == 7 { '7' }
    else if d == 8 { '8' } else if d == 9 { '9' } else if d == 10 { 'a' } else if d == 11 { 'b' }
    else if d == 12 { 'c' } else if d == 13 { 'd' } else if d == 14 { 'e' } else { 'f' }
}

/// The hexadecimal digits of `v`, most significant first, without leading zeros.
pub open spec fn hex_digits(v: nat) -> Seq<char>
    decreases v,
{
    if v < 16 {
        seq![hex_digit(v)]
    } else {
        hex_digits(v / 16).push(hex_digit(v % 16))
    }
}

/// The decimal digits of `v`, most significant first, without leading zeros.
pub open spec fn dec_digits(v: nat) -> Seq<char>
    decreases v,
{
    if v < 10 {
        seq![hex_digit(v)]
    } else {
        dec_digits(v / 10).push(hex_digit(v % 10))
    }
}

/// `s` preceded by zeros up to `width` characters.
pub open spec fn zero_padded(s: Seq<char>, width: nat) -> Seq<char> {
    if s.len() < width {
        Seq::new((width - s.len()) as nat, |_i: int| '0') + s
    } else {
        s
    }
}

/// `s` followed by spaces up to `width` characters.
pub open spec fn space_filled(s: Seq<char>, width: nat) -> Seq<char> {
    if s.len() < width {
        s + Seq::new((width - s.len()) as nat, |_i: int| ' ')
    } else {
        s
    }
}

/// `0x` and the hexadecimal digits of `v`.
pub open spec fn hex_text(v: u64) -> Seq<char> {
    seq!['0', 'x'] + hex_digits(v as nat)
}

/// `0x` and the hexadecimal digits of `v`, zero-padded to 16 characters in all.
pub open spec fn hex_text_padded(v: u64) -> Seq<char> {
    seq!['0', 'x'] + zero_padded(hex_digits(v as nat), 14)
}

/// The decimal digits of `v`, left-aligned in 2 characters.
pub open spec fn index_text(v: usize) -> Seq<char> {
    space_filled(dec_digits(v as nat), 2)
}

/// Relies on `format!` with `{:#x}`: the alternate form prefixes `0x` to the
/// lowercase hexadecimal digits.
#[verifier::external_body]
pub(crate) fn fmt_hex(v: u64) -> (r: String)
    ensures
        r@ == hex_text(v),
{
    format!("{:#x}", v)
}

/// Relies on `format!` with `{:#016x}`: as `{:#x}`, with zeros inserted
/// after the prefix until the whole is 16 characters wide.
#[verifier::external_body]
pub(crate) fn fmt_hex_padded(v: u64) -> (r: String)
    ensures
        r@ == hex_text_padded(v),
{
    format!("{:#016x}", v)
}

/// Relies on `format!` with `{:<2}`: the decimal digits, left-aligned and
/// filled with spaces to a width of 2.
#[verifier::external_body]
pub(crate) fn fmt_index(v: usize) -> (r: String)
    ensures
        r@ == index_text(v),
{
    format!("{:<2}", v)
}

} // verus!
