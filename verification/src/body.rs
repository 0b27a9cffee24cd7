//! The body of the screen: which entries the current page shows in its two
//! columns, and the text of the row of an entry.

use vstd::prelude::*;
use crate::app::{App, NavigationState};
use crate::fms::{modified_text, EntryView, PathKind};
use crate::paging::{column_top, lemma_column_top_shift, page_capacity, page_number};
use crate::size::size_text;
use crate::text::{right_align, right_aligned};
use crate::width::formatted_name;

verus! {

/// The entries that one page shows: `left` of them from `offset` on in the
/// left column, and the `right` that follow in the right column.
#[derive(Clone, Copy, Debug, PartialEq, Eq, Structural)]
pub struct PageWindow {
    pub offset: usize,
    pub left: usize,
    pub right: usize,
}

/// The index of the first entry of the page that holds `focus`.
pub open spec fn page_offset(focus: int, capacity: int) -> int {
    (page_number(focus, capacity) - 1) * capacity
}

/// The smaller of two numbers.
pub open spec fn least(a: int, b: int) -> int {
    if a <= b {
        a
    } else {
        b
    }
}

/// The page that holds `focus` in a listing of `count` entries, on a
/// viewport of `rows` rows: the entries of the page fill the left column from
/// the top, and what is left of them the right.
pub open spec fn page_window(focus: int, count: int, rows: int) -> (int, int, int) {
    let offset = page_offset(focus, page_capacity(rows));
    let left = least(rows, count - offset);
    let right = least(rows, count - offset - left);
    (offset, left, right)
}

/// On a viewport with rows, the page of the focus starts at a multiple of
/// its capacity and shows the entry that has the focus.
pub proof fn lemma_focus_on_page(focus: int, count: int, rows: int)
    requires
        0 <= focus < count,
        rows >= 1,
    ensures
        ({
            let (offset, left, right) = page_window(focus, count, rows);
            &&& offset == column_top(focus, 2 * rows)
            &&& 0 <= offset <= focus < offset + left + right <= count
            &&& left >= 1
            &&& left <= rows
            &&& 0 <= right <= rows
        }),
{
    lemma_column_top_shift(focus, 2 * rows);
}

/// The columns that the name of an entry has in a row of `area_width`
/// columns: what is left beside the time, the size and the gaps between them.
pub open spec fn name_columns(area_width: int) -> int {
    if area_width >= 31 {
        area_width - 31
    } else {
        0
    }
}

/// The text that stands where a directory has no size.
pub open spec fn directory_mark() -> Seq<char> {
    "<DIR>"@
}

/// The text of the size of an entry: the mark of a directory, or the size of
/// a file, in eight characters.
pub open spec fn size_cell(entry: EntryView) -> Seq<char> {
    if entry.is_dir {
        right_aligned(directory_mark(), 8)
    } else {
        size_text(entry.info.size as nat)
    }
}

/// The texts of the row of an entry, from left to right, and whether the
/// entry has the focus.
#[derive(Debug)]
pub struct FileInfoLine {
    pub name: String,
    pub modified: String,
    pub size: String,
    pub focused: bool,
}

/// Lays out the page that holds the focus on a viewport of `rows` rows, and
/// keeps the capacity of that page for the steps of the focus. The page lies
/// within the listing, and on a viewport with rows it shows the entry that
/// has the focus.
pub fn lay_out_page(app: &mut App, rows: u16) -> (window: PageWindow)
    ensures
        final(app)@ == (NavigationState {
            capacity: page_capacity(rows as int) as nat,
            ..old(app)@
        }),
        final(app)@.valid(),
        (window.offset as int, window.left as int, window.right as int) == page_window(
            old(app)@.focus as int,
            old(app)@.listing.len() as int,
            rows as int,
        ),
        window.offset + window.left + window.right <= old(app)@.listing.len(),
        rows > 0 ==> window.offset <= old(app)@.focus < window.offset + window.left
            + window.right,
{
    let height: usize = rows as usize;
    let capacity: usize = height * 2;
    app.set_max_files_per_page(capacity);
    let focus: usize = app.focus_file_no();
    let count: usize = app.count_file_list();
    if height == 0 {
        assert(page_offset(focus as int, 0) == 0);
        return PageWindow { offset: 0, left: 0, right: 0 };
    }
    proof {
        lemma_column_top_shift(focus as int, capacity as int);
        lemma_focus_on_page(focus as int, count as int, rows as int);
    }
    let offset: usize = focus / capacity * capacity;
    let rest: usize = count - offset;
    let left: usize = if height <= rest {
        height
    } else {
        rest
    };
    let right: usize = if height <= rest - left {
        height
    } else {
        rest - left
    };
    PageWindow { offset, left, right }
}

/// The texts of the row of `file_info`, which is shown at `index` of the page
/// that starts at `offset`, in a column of `area_width` columns.
pub fn get_file_info_line(
    app: &App,
    index: usize,
    offset: usize,
    file_info: &PathKind,
    area_width: u16,
) -> (line: FileInfoLine)
    ensures
        line.focused == (index + offset == app@.focus),
        line.name@ == formatted_name(
            file_info@.info.name,
            name_columns(area_width as int) as nat,
        ),
        line.modified@ == modified_text(file_info@.info.modified),
        line.size@ == size_cell(file_info@),
{
    let focus: usize = app.focus_file_no();
    let focused: bool = match index.checked_add(offset) {
        Some(place) => place == focus,
        None => false,
    };
    let name_max_len: u16 = if area_width >= 31 {
        area_width - 31
    } else {
        0
    };
    let info = file_info.info();
    let size = match file_info {
        PathKind::FILE(_) => info.format_file_size(),
        PathKind::DIR(_) => right_align("<DIR>", 8),
    };
    FileInfoLine {
        name: info.format_file_name(name_max_len as usize),
        modified: info.formatted_modified(),
        size,
        focused,
    }
}

} // verus!
