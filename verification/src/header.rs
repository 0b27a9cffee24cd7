//! The line at the head of the screen: the path of the directory that is
//! shown on the left, the page on the right.

use vstd::prelude::*;
use vstd::utf8::encode_utf8;
use crate::app::App;
use crate::paging::{page_count, page_number};
use crate::text::{decimal, decimal_string, push_char};

verus! {

/// The label in front of the path.
pub const PATH_LABEL: &'static str = "PATH=";

/// The label in front of the page.
pub const PAGE_LABEL: &'static str = "PAGE=";

/// The parts of the line: the path, the number of spaces that part it from
/// the page, and the page.
#[derive(Debug)]
pub struct HeaderLine {
    pub path: String,
    pub gap: usize,
    pub page: String,
}

/// The page of the focus and the number of pages, as `3/7`.
pub open spec fn page_text(focus: nat, count: nat, capacity: nat) -> Seq<char> {
    decimal(page_number(focus as int, capacity as int) as nat).push('/') + decimal(
        page_count(count as int, capacity as int) as nat,
    )
}

/// The spaces between the path and the page on a line of `area_width`
/// columns with a border at either end. Either of the two is measured in
/// bytes, with five more for its label.
pub open spec fn header_gap(area_width: int, path: Seq<char>, page: Seq<char>) -> int {
    let inner = if area_width >= 2 {
        area_width - 2
    } else {
        0
    };
    let taken = 5 + encode_utf8(path).len() + 5 + encode_utf8(page).len();
    if inner >= taken {
        inner - taken
    } else {
        0
    }
}

/// The parts of the line at the head of a screen of `area_width` columns.
pub fn header_line(app: &App, area_width: u16) -> (line: HeaderLine)
    ensures
        line.path@ == app@.path,
        line.page@ == page_text(app@.focus, app@.listing.len(), app@.capacity),
        line.gap == header_gap(area_width as int, line.path@, line.page@),
{
    let path = app.dir_path();
    let mut page = decimal_string(app.current_page_no() as u64);
    push_char(&mut page, '/');
    let total = decimal_string(app.total_pages() as u64);
    page.append(total.as_str());
    let inner_width: usize = if area_width >= 2 {
        (area_width - 2) as usize
    } else {
        0
    };
    let path_len: usize = path.as_str().as_bytes().len();
    let page_len: usize = page.as_str().as_bytes().len();
    let gap: usize = match path_len.checked_add(page_len) {
        Some(both) => match both.checked_add(10) {
            Some(taken) => if inner_width >= taken {
                inner_width - taken
            } else {
                0
            },
            None => 0,
        },
        None => 0,
    };
    HeaderLine { path, gap, page }
}

} // verus!
