//! The size of a file as a short text: bytes below one kibibyte, and above
//! that a number with one decimal in the largest binary unit that it reaches.

use vstd::prelude::*;
use num_format::{Locale, ToFormattedString};
use crate::text::{decimal, digit, digit_char, push_char, right_align, right_aligned};

verus! {

/// The bytes of a kibibyte.
pub const KILOBYTE: u64 = 1024;

/// The bytes of a mebibyte.
pub const MEGABYTE: u64 = 1048576;

/// The bytes of a gibibyte.
pub const GIGABYTE: u64 = 1073741824;

/// `n` in three decimal digits.
pub open spec fn three_digits(n: nat) -> Seq<char>
    recommends
        n < 1000,
{
    seq![digit_char(n / 100), digit_char(n / 10 % 10), digit_char(n % 10)]
}

/// The decimal digits of `n` in groups of three, with a comma between the
/// groups: `1,234,567`.
pub open spec fn grouped(n: nat) -> Seq<char>
    decreases n,
{
    if n < 1000 {
        decimal(n)
    } else {
        grouped(n / 1000) + seq![','] + three_digits(n % 1000)
    }
}

/// `size` in tenths of `unit`, rounded to the nearest tenth, and to the even
/// tenth where it lies halfway between two.
pub open spec fn rounded_tenths(size: nat, unit: nat) -> nat {
    let below = size * 10 / unit;
    let rest = size * 10 % unit;
    if 2 * rest > unit || (2 * rest == unit && below % 2 == 1) {
        below + 1
    } else {
        below
    }
}

/// `size` as a number of `unit`s with one decimal, and the letter of the
/// unit. The whole part is grouped by thousands and set to the right of five
/// characters.
pub open spec fn scaled_text(size: nat, unit: nat, letter: char) -> Seq<char> {
    let tenths = rounded_tenths(size, unit);
    right_aligned(grouped(tenths / 10), 5) + seq!['.', digit_char(tenths % 10), letter]
}

/// The text of a size of `size` bytes.
///
/// From one gibibyte on it is given in `G`, from one mebibyte on in `M`, from
/// one kibibyte on in `K`, each with one decimal. Below that it is the number
/// of bytes and a space where the letter would stand, set to the right of
/// eight characters.
pub open spec fn size_text(size: nat) -> Seq<char> {
    if size >= GIGABYTE {
        scaled_text(size, GIGABYTE as nat, 'G')
    } else if size >= MEGABYTE {
        scaled_text(size, MEGABYTE as nat, 'M')
    } else if size >= KILOBYTE {
        scaled_text(size, KILOBYTE as nat, 'K')
    } else {
        right_aligned(grouped(size).push(' '), 8)
    }
}

/// `ToFormattedString::to_formatted_string` of the `num-format` crate with
/// `Locale::en`, whose separator is the comma and whose groups are of three
/// digits: the decimal digits of `n`, a comma before every group of three
/// counted from the right.
#[verifier::external_body]
fn group_thousands(n: u64) -> (text: String)
    ensures
        text@ == grouped(n as nat),
{
    n.to_formatted_string(&Locale::en)
}

/// The whole units and the tenth that `size` rounds to, as `scaled_text`
/// writes them.
fn round_to_tenths(size: u64, unit: u64) -> (parts: (u64, u8))
    requires
        unit == KILOBYTE || unit == MEGABYTE || unit == GIGABYTE,
    ensures
        parts.0 == rounded_tenths(size as nat, unit as nat) / 10,
        parts.1 == rounded_tenths(size as nat, unit as nat) % 10,
{
    let whole: u64 = size / unit;
    let rest: u64 = size % unit;
    let scaled: u64 = rest * 10;
    let below: u64 = scaled / unit;
    let part: u64 = scaled % unit;
    let up: bool = part * 2 > unit || (part * 2 == unit && below % 2 == 1);
    let tenth: u64 = if up {
        below + 1
    } else {
        below
    };
    proof {
        // ten times the size, divided by the unit: the unit is one of three numbers
        let s: int = size as int;
        if unit == KILOBYTE {
            assert(s * 10 / 1024 == whole * 10 + below && s * 10 % 1024 == part);
        } else if unit == MEGABYTE {
            assert(s * 10 / 1048576 == whole * 10 + below && s * 10 % 1048576 == part);
        } else {
            assert(s * 10 / 1073741824 == whole * 10 + below && s * 10 % 1073741824 == part);
        }
    }
    if tenth == 10 {
        (whole + 1, 0)
    } else {
        (whole, tenth as u8)
    }
}

/// Writes `size` in `unit`s with one decimal and the letter of the unit.
fn format_scaled(size: u64, unit: u64, letter: char) -> (text: String)
    requires
        unit == KILOBYTE || unit == MEGABYTE || unit == GIGABYTE,
    ensures
        text@ == scaled_text(size as nat, unit as nat, letter),
{
    let (whole, tenth) = round_to_tenths(size, unit);
    let digits = group_thousands(whole);
    let mut text = right_align(digits.as_str(), 5);
    push_char(&mut text, '.');
    push_char(&mut text, digit(tenth));
    push_char(&mut text, letter);
    text
}

/// Writes a size of `size` bytes.
pub fn format_size(size: u64) -> (text: String)
    ensures
        text@ == size_text(size as nat),
{
    if size >= GIGABYTE {
        format_scaled(size, GIGABYTE, 'G')
    } else if size >= MEGABYTE {
        format_scaled(size, MEGABYTE, 'M')
    } else if size >= KILOBYTE {
        format_scaled(size, KILOBYTE, 'K')
    } else {
        let mut digits = group_thousands(size);
        push_char(&mut digits, ' ');
        right_align(digits.as_str(), 8)
    }
}

} // verus!
