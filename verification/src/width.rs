//! Display width: the number of terminal columns that a text takes, and the
//! layout of a name in a field of so many columns.
//!
//! A text is measured as a whole. Its width need not be the sum of the widths
//! of its characters: an emoji and the marks joined to it, or the letters of
//! a ligature, are drawn as one glyph.

use vstd::prelude::*;
use unicode_width::UnicodeWidthStr;
use vstd::string::StringExecFns;
use crate::text::{push_char, push_spaces, spaces};

verus! {

/// The mark that stands for the part of a name that was cut off.
pub const ELLIPSIS: char = '\u{2026}';

/// The columns of a text that ends in neither a space nor an ellipsis, as the
/// `unicode-width` crate measures it by its tables and its rules for
/// sequences of characters.
pub uninterp spec fn unicode_columns(text: Seq<char>) -> nat;

/// The columns that a text takes on a terminal.
///
/// The empty text takes none. A space or an ellipsis at the end takes one
/// column and leaves the width of what stands before it as it is. Every other
/// text has the width that `unicode_columns` names.
pub open spec fn display_columns(text: Seq<char>) -> nat
    decreases text.len(),
{
    if text.len() == 0 {
        0
    } else if text.last() == ' ' || text.last() == ELLIPSIS {
        display_columns(text.drop_last()) + 1
    } else {
        unicode_columns(text)
    }
}

/// The columns that one character takes when it stands alone.
pub open spec fn char_columns(c: char) -> nat {
    display_columns(seq![c])
}

/// The sum of the columns that the characters of a text take one by one.
pub open spec fn summed_columns(text: Seq<char>) -> nat
    decreases text.len(),
{
    if text.len() == 0 {
        0
    } else {
        summed_columns(text.drop_last()) + char_columns(text.last())
    }
}

/// `UnicodeWidthStr::width` of the `unicode-width` crate. The crate goes
/// through the text from its end and keeps a state for the sequences that it
/// knows. The empty text has no width. A space at the end counts one column
/// and leaves the state as it was at the start, and so does the ellipsis,
/// for which the crate's table holds one column and no sequence: the rest is
/// then measured as if it stood alone. The width of any other text is
/// `unicode_columns` of it.
#[verifier::external_body]
pub(crate) fn str_width(text: &str) -> (columns: usize)
    ensures
        text@.len() == 0 ==> columns == 0,
        text@.len() > 0 && (text@.last() == ' ' || text@.last() == ELLIPSIS) ==> columns
            == display_columns(text@.drop_last()) + 1,
        text@.len() > 0 && text@.last() != ' ' && text@.last() != ELLIPSIS ==> columns
            == unicode_columns(text@),
{
    UnicodeWidthStr::width(text)
}

/// A text and the spaces behind it take the columns of the text and one for
/// each space.
pub proof fn lemma_columns_padded(text: Seq<char>, count: nat)
    ensures
        display_columns(text + spaces(count)) == display_columns(text) + count,
    decreases count,
{
    if count == 0 {
        assert(text + spaces(count) =~= text);
    } else {
        lemma_columns_padded(text, (count - 1) as nat);
        assert((text + spaces(count)).drop_last() =~= text + spaces((count - 1) as nat));
    }
}

/// A text and the ellipsis behind it take the columns of the text and one
/// more.
pub proof fn lemma_columns_marked(text: Seq<char>)
    ensures
        display_columns(text.push(ELLIPSIS)) == display_columns(text) + 1,
{
    assert(text.push(ELLIPSIS).drop_last() =~= text);
}

/// The summed columns of a text and of one more character add up.
pub proof fn lemma_summed_push(text: Seq<char>, c: char)
    ensures
        summed_columns(text.push(c)) == summed_columns(text) + char_columns(c),
{
    assert(text.push(c).drop_last() =~= text);
}

/// A longer prefix of a text has at least the summed columns of a shorter.
pub proof fn lemma_summed_prefix(text: Seq<char>, n: int)
    requires
        0 <= n <= text.len(),
    ensures
        summed_columns(text.take(n)) <= summed_columns(text),
    decreases text.len() - n,
{
    if n < text.len() {
        lemma_summed_prefix(text, n + 1);
        assert(text.take(n + 1) =~= text.take(n).push(text[n]));
        lemma_summed_push(text.take(n), text[n]);
    } else {
        assert(text.take(n) =~= text);
    }
}

/// The columns that a cut name may fill before the ellipsis: the width of the
/// field less two, and none where the field is narrower than that.
pub open spec fn name_budget(width: nat) -> nat {
    if width >= 2 {
        (width - 2) as nat
    } else {
        0
    }
}

/// How many leading characters of `text` are kept within `budget` columns:
/// characters are taken whole, one after the other, each with the columns
/// that it takes alone, up to the first that would run over the budget.
pub open spec fn kept_len(text: Seq<char>, budget: nat) -> nat
    decreases text.len(),
{
    if text.len() > 0 && char_columns(text.first()) <= budget {
        1 + kept_len(text.drop_first(), (budget - char_columns(text.first())) as nat)
    } else {
        0
    }
}

/// How many of the first `kept` characters of `name` stay before the
/// ellipsis in a field of `width` columns: as many as leave the cut name, as
/// a whole and with its ellipsis, no wider than the field.
pub open spec fn cut_len(name: Seq<char>, kept: nat, width: nat) -> nat
    decreases kept,
{
    if kept > 0 && display_columns(name.take(kept as int).push(ELLIPSIS)) > width {
        cut_len(name, (kept - 1) as nat, width)
    } else {
        kept
    }
}

/// `name` laid out in a field of `width` columns.
///
/// A name that fits is followed by spaces up to the width. A wider name is cut
/// to the characters that fit the budget, and further where characters that
/// are drawn together make the cut name wider than the field; then come the
/// ellipsis and, where there is still room, spaces up to the width.
pub open spec fn formatted_name(name: Seq<char>, width: nat) -> Seq<char> {
    if display_columns(name) <= width {
        name + spaces((width - display_columns(name)) as nat)
    } else {
        let kept = cut_len(name, kept_len(name, name_budget(width)), width);
        let cut = name.take(kept as int).push(ELLIPSIS);
        if display_columns(cut) < width {
            cut + spaces((width - display_columns(cut)) as nat)
        } else {
            cut
        }
    }
}

/// What is kept of a text is a prefix of it whose characters, one by one,
/// stay within the budget.
pub proof fn lemma_kept_within_budget(text: Seq<char>, budget: nat)
    ensures
        kept_len(text, budget) <= text.len(),
        summed_columns(text.take(kept_len(text, budget) as int)) <= budget,
    decreases text.len(),
{
    if text.len() > 0 && char_columns(text.first()) <= budget {
        let rest = text.drop_first();
        let left = (budget - char_columns(text.first())) as nat;
        let n: int = kept_len(rest, left) as int;
        lemma_kept_within_budget(rest, left);
        lemma_summed_first(text.take(n + 1));
        assert(text.take(n + 1).drop_first() =~= rest.take(n));
    } else {
        assert(text.take(0) =~= Seq::<char>::empty());
    }
}

/// The summed columns of a text are those of its first character and of the
/// rest.
pub proof fn lemma_summed_first(text: Seq<char>)
    requires
        text.len() > 0,
    ensures
        summed_columns(text) == char_columns(text.first()) + summed_columns(text.drop_first()),
    decreases text.len(),
{
    if text.len() == 1 {
        assert(text.drop_last() =~= Seq::<char>::empty());
        assert(text.drop_first() =~= Seq::<char>::empty());
    } else {
        lemma_summed_first(text.drop_last());
        assert(text.drop_last().drop_first() =~= text.drop_first().drop_last());
    }
}

/// The cut leaves at most what was kept, and a cut name that is no wider than
/// the field unless nothing is left before the ellipsis.
pub proof fn lemma_cut_fits(name: Seq<char>, kept: nat, width: nat)
    ensures
        cut_len(name, kept, width) <= kept,
        cut_len(name, kept, width) == 0 || display_columns(
            name.take(cut_len(name, kept, width) as int).push(ELLIPSIS),
        ) <= width,
    decreases kept,
{
    if kept > 0 && display_columns(name.take(kept as int).push(ELLIPSIS)) > width {
        lemma_cut_fits(name, (kept - 1) as nat, width);
    }
}

/// A formatted name is exactly as wide as its field, if the field has room
/// for the ellipsis or the name takes no column at all.
pub proof fn lemma_formatted_name_width(name: Seq<char>, width: nat)
    requires
        width >= 1 || display_columns(name) == 0,
    ensures
        display_columns(formatted_name(name, width)) == width,
{
    if display_columns(name) <= width {
        lemma_columns_padded(name, (width - display_columns(name)) as nat);
    } else {
        let kept = cut_len(name, kept_len(name, name_budget(width)), width);
        let cut = name.take(kept as int).push(ELLIPSIS);
        lemma_cut_fits(name, kept_len(name, name_budget(width)), width);
        if kept == 0 {
            // the ellipsis alone takes one column
            assert(name.take(0) =~= Seq::<char>::empty());
            lemma_columns_marked(Seq::<char>::empty());
        }
        if display_columns(cut) < width {
            lemma_columns_padded(cut, (width - display_columns(cut)) as nat);
        }
    }
}

/// A name that does not fit its field is cut between characters: what stands
/// in the field is a proper prefix of the name whose characters stay within
/// the budget, one ellipsis behind it, and then nothing but spaces.
pub proof fn lemma_cut_name_shape(name: Seq<char>, width: nat)
    requires
        display_columns(name) > width,
    ensures
        ({
            let n = cut_len(name, kept_len(name, name_budget(width)), width) as int;
            let field = formatted_name(name, width);
            &&& n < name.len()
            &&& field.len() >= n + 1
            &&& field.take(n) == name.take(n)
            &&& summed_columns(name.take(n)) <= name_budget(width)
            &&& field[n] == ELLIPSIS
            &&& forall|i: int| n < i < field.len() ==> field[i] == ' '
        }),
{
    let kept = kept_len(name, name_budget(width));
    let n = cut_len(name, kept, width) as int;
    lemma_kept_within_budget(name, name_budget(width));
    lemma_cut_fits(name, kept, width);
    if n == name.len() {
        // the whole name with an ellipsis is wider than the name, which does not fit
        assert(name.take(n) =~= name);
        lemma_columns_marked(name);
    }
    lemma_summed_prefix(name.take(kept as int), n);
    assert(name.take(kept as int).take(n) =~= name.take(n));
    assert(formatted_name(name, width).take(n) =~= name.take(n));
}

/// The columns that `text` takes.
pub fn columns_of(text: &str) -> (columns: usize)
    ensures
        columns == display_columns(text@),
{
    str_width(text)
}

/// The columns that `c` takes when it stands alone.
pub fn char_width(c: char) -> (columns: usize)
    ensures
        columns == char_columns(c),
{
    let mut alone = String::new();
    push_char(&mut alone, c);
    assert(alone@ =~= seq![c]);
    str_width(alone.as_str())
}

/// The leading characters of `text` that fit `budget` columns.
pub fn keep_within(text: &str, budget: usize) -> (kept: Vec<char>)
    ensures
        kept@ == text@.take(kept_len(text@, budget as nat) as int),
{
    broadcast use vstd::string::group_string_axioms;

    let mut kept: Vec<char> = Vec::new();
    let mut total: usize = 0;
    let chars = text.chars();
    assert(text@.skip(0) =~= text@);
    assert(text@.take(0) =~= kept@);
    for c in it: chars
        invariant
            it.seq() == text@,
            kept@ == text@.take(it.index() as int),
            total <= budget,
            kept_len(text@, budget as nat) == it.index() + kept_len(
                text@.skip(it.index() as int),
                (budget - total) as nat,
            ),
    {
        let w: usize = char_width(c);
        proof {
            let i: int = it.index();
            assert(text@.skip(i).first() == text@[i]);
            assert(text@.skip(i).drop_first() =~= text@.skip(i + 1));
            assert(text@.take(i + 1) =~= text@.take(i).push(text@[i]));
        }
        if w > budget - total {
            return kept;
        }
        kept.push(c);
        total = total + w;
    }
    assert(text@.take(text@.len() as int) =~= text@);
    kept
}

/// The characters of `kept` and an ellipsis behind them.
fn marked(kept: &Vec<char>) -> (cut: String)
    ensures
        cut@ == kept@.push(ELLIPSIS),
{
    let mut cut = String::new();
    let mut i: usize = 0;
    while i < kept.len()
        invariant
            i <= kept@.len(),
            cut@ == kept@.take(i as int),
        decreases kept@.len() - i,
    {
        push_char(&mut cut, kept[i]);
        i = i + 1;
        assert(cut@ =~= kept@.take(i as int));
    }
    assert(kept@.take(kept@.len() as int) =~= kept@);
    push_char(&mut cut, ELLIPSIS);
    cut
}

/// Lays `name` out in a field of `width` columns: padded with spaces where it
/// fits, cut and marked with an ellipsis where it does not. The field is
/// exactly `width` columns wide, if it has room for the ellipsis or the name
/// takes no column at all.
pub fn fit_name(name: &str, width: usize) -> (field: String)
    ensures
        field@ == formatted_name(name@, width as nat),
        width >= 1 || display_columns(name@) == 0 ==> display_columns(field@) == width,
{
    proof {
        if width >= 1 || display_columns(name@) == 0 {
            lemma_formatted_name_width(name@, width as nat);
        }
    }
    let columns: usize = columns_of(name);
    if columns <= width {
        let mut field = String::from_str(name);
        push_spaces(&mut field, width - columns);
        return field;
    }
    let budget: usize = if width >= 2 {
        width - 2
    } else {
        0
    };
    let mut kept = keep_within(name, budget);
    let ghost first_cut = kept@.len();
    proof {
        lemma_kept_within_budget(name@, budget as nat);
    }
    loop
        invariant
            kept@.len() <= name@.len(),
            kept@ == name@.take(kept@.len() as int),
            first_cut == kept_len(name@, name_budget(width as nat)),
            cut_len(name@, first_cut, width as nat) == cut_len(name@, kept@.len(), width as nat),
            display_columns(name@) > width,
            width >= 1 ==> display_columns(formatted_name(name@, width as nat)) == width,
        decreases kept@.len(),
    {
        let mut field = marked(&kept);
        let cut_columns: usize = columns_of(field.as_str());
        if cut_columns <= width || kept.len() == 0 {
            if cut_columns < width {
                push_spaces(&mut field, width - cut_columns);
            }
            return field;
        }
        let ghost before = kept@;
        kept.pop();
        assert(kept@ =~= before.drop_last());
        assert(kept@ =~= name@.take(kept@.len() as int));
    }
}

} // verus!
