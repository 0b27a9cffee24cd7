//! Building blocks for fixed-width text: runs of spaces, decimal digits and
//! right alignment. Texts are described by their characters, a `Seq<char>`.

use vstd::prelude::*;
use vstd::string::StringExecFns;
use vstd::string::StrSliceExecFns;

verus! {

/// `count` spaces.
pub open spec fn spaces(count: nat) -> Seq<char> {
    Seq::new(count, |i: int| ' ')
}

/// The character of the decimal digit `d`.
pub open spec fn digit_char(d: nat) -> char
    recommends
        d < 10,
{
    ((d + 48) as u8) as char
}

/// The decimal digits of `n`, without leading zeros.
pub open spec fn decimal(n: nat) -> Seq<char>
    decreases n,
{
    if n < 10 {
        seq![digit_char(n)]
    } else {
        decimal(n / 10).push(digit_char(n % 10))
    }
}

/// `text` moved to the right edge of a field of `width` characters; a text
/// that is longer than the field is left as it is.
pub open spec fn right_aligned(text: Seq<char>, width: nat) -> Seq<char> {
    if text.len() < width {
        spaces((width - text.len()) as nat) + text
    } else {
        text
    }
}

/// `String::push` of the standard library: appends one character to the end
/// of the string and leaves the rest of it as it was.
#[verifier::external_body]
pub(crate) fn push_char(text: &mut String, c: char)
    ensures
        final(text)@ == old(text)@.push(c),
{
    text.push(c);
}

/// Appends `count` spaces to `text`.
pub fn push_spaces(text: &mut String, count: usize)
    ensures
        final(text)@ == old(text)@ + spaces(count as nat),
{
    let mut done: usize = 0;
    while done < count
        invariant
            done <= count,
            text@ == old(text)@ + spaces(done as nat),
        decreases count - done,
    {
        push_char(text, ' ');
        done = done + 1;
    }
}

/// The decimal digit `d` as a character.
pub fn digit(d: u8) -> (c: char)
    requires
        d < 10,
    ensures
        c == digit_char(d as nat),
{
    (d + 48) as char
}

/// Writes `n` in decimal digits.
pub fn decimal_string(n: u64) -> (text: String)
    ensures
        text@ == decimal(n as nat),
    decreases n,
{
    if n < 10 {
        let mut text = String::new();
        push_char(&mut text, digit(n as u8));
        text
    } else {
        let mut text = decimal_string(n / 10);
        push_char(&mut text, digit((n % 10) as u8));
        text
    }
}

/// Moves `text` to the right edge of a field of `width` characters.
pub fn right_align(text: &str, width: usize) -> (field: String)
    ensures
        field@ == right_aligned(text@, width as nat),
{
    let len: usize = text.unicode_len();
    let mut field = String::new();
    if len < width {
        push_spaces(&mut field, width - len);
    }
    field.append(text);
    field
}

} // verus!
