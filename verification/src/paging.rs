//! The two-column paged grid: how a flat listing is cut into pages, and where
//! the focus lands when it is moved.
//!
//! Everything here is arithmetic on the number of entries, the focus index and
//! the page capacity. A page shows two columns of equal height, so its
//! capacity is twice the number of rows of the viewport.

use vstd::prelude::*;
use crate::utils::{ceil_div, div_cell};

verus! {

/// One step of the focus over the grid.
#[derive(Clone, Copy, Debug, PartialEq, Eq, Structural)]
pub enum Direction {
    Up,
    Down,
    Left,
    Right,
}

/// Entries that one page shows: two columns of `rows` entries.
pub open spec fn page_capacity(rows: int) -> int {
    rows * 2
}

/// Rows of one column of a page that shows `capacity` entries.
pub open spec fn column_height(capacity: int) -> int {
    capacity / 2
}

/// The 1-based page that holds `focus`. Without capacity there is one page.
pub open spec fn page_number(focus: int, capacity: int) -> int {
    if capacity <= 0 {
        1
    } else {
        focus / capacity + 1
    }
}

/// The number of pages that `count` entries fill. An empty listing still has
/// one page, and without capacity there is one page.
pub open spec fn page_count(count: int, capacity: int) -> int {
    if count <= 0 || capacity <= 0 {
        1
    } else {
        ceil_div(count, capacity)
    }
}

/// The greatest multiple of `height` that is not above `index`.
pub open spec fn column_top(index: int, height: int) -> int {
    (index / height) * height
}

/// The focus after one step from `focus`, in a listing of `count` entries
/// shown in columns of `height` rows.
///
/// Up and down move by one entry and stop at the ends. Left and right move by
/// a whole column and land on the top row of the column they reach; a step
/// that would leave the listing, or a grid without rows, changes nothing.
pub open spec fn focus_after(dir: Direction, focus: int, count: int, height: int) -> int {
    match dir {
        Direction::Down => if focus + 1 < count {
            focus + 1
        } else {
            focus
        },
        Direction::Up => if focus > 0 {
            focus - 1
        } else {
            focus
        },
        Direction::Right => if height <= 0 {
            focus
        } else if column_top(focus + height, height) < count {
            column_top(focus + height, height)
        } else {
            focus
        },
        Direction::Left => if height <= 0 || focus < height {
            focus
        } else {
            column_top(focus - height, height)
        },
    }
}

/// A focus index that a listing of `count` entries admits: an index into it,
/// or zero where it is empty.
pub open spec fn focus_valid(focus: int, count: int) -> bool {
    0 <= focus && (focus < count || focus == 0)
}

/// A step of the focus, and the column height of the viewport at that step.
pub struct Step {
    pub dir: Direction,
    pub height: nat,
}

/// The focus after the steps of `steps`, taken in order from `focus`.
pub open spec fn focus_after_all(steps: Seq<Step>, focus: int, count: int) -> int
    decreases steps.len(),
{
    if steps.len() == 0 {
        focus
    } else {
        focus_after(
            steps.last().dir,
            focus_after_all(steps.drop_last(), focus, count),
            count,
            steps.last().height as int,
        )
    }
}

/// Moving by a column to the right or left of `focus` lands on the top of the
/// column of `focus`, one column further or back.
pub proof fn lemma_column_top_shift(focus: int, height: int)
    requires
        0 <= focus,
        0 < height,
    ensures
        column_top(focus + height, height) == column_top(focus, height) + height,
        column_top(focus - height, height) == column_top(focus, height) - height,
        0 <= column_top(focus, height) <= focus,
        focus < column_top(focus, height) + height,
{
    assert((focus + height) / height == focus / height + 1 && (focus - height) / height == focus
        / height - 1) by (nonlinear_arith)
        requires
            0 < height,
    ;
    assert((focus / height + 1) * height == (focus / height) * height + height && (focus / height
        - 1) * height == (focus / height) * height - height) by (nonlinear_arith);
    assert(0 <= (focus / height) * height <= focus && focus < (focus / height) * height + height)
        by (nonlinear_arith)
        requires
            0 <= focus,
            0 < height,
    ;
}

/// On a listing that is not empty, a step down takes the focus to the
/// smaller of the next index and the last, and a step up to the greater of
/// the index before and the first.
pub proof fn lemma_step_up_down(focus: int, count: int, height: int)
    requires
        count >= 1,
        0 <= focus <= count - 1,
    ensures
        focus_after(Direction::Down, focus, count, height) == if focus + 1 <= count - 1 {
            focus + 1
        } else {
            count - 1
        },
        focus_after(Direction::Up, focus, count, height) == if focus - 1 >= 0 {
            focus - 1
        } else {
            0
        },
{
}

/// One step leaves a valid focus valid.
pub proof fn lemma_step_keeps_focus_valid(dir: Direction, focus: int, count: int, height: int)
    requires
        focus_valid(focus, count),
    ensures
        focus_valid(focus_after(dir, focus, count, height), count),
{
    if height > 0 {
        lemma_column_top_shift(focus, height);
    }
}

/// After any sequence of steps from a valid focus, whatever the height of the
/// viewport at each of them, the focus is valid: in a listing that is not
/// empty it is the index of an entry.
pub proof fn lemma_steps_keep_focus_valid(steps: Seq<Step>, focus: int, count: int)
    requires
        focus_valid(focus, count),
    ensures
        focus_valid(focus_after_all(steps, focus, count), count),
        count >= 1 ==> 0 <= focus_after_all(steps, focus, count) <= count - 1,
    decreases steps.len(),
{
    if steps.len() > 0 {
        lemma_steps_keep_focus_valid(steps.drop_last(), focus, count);
        lemma_step_keeps_focus_valid(
            steps.last().dir,
            focus_after_all(steps.drop_last(), focus, count),
            count,
            steps.last().height as int,
        );
    }
}

/// With at least one entry and at least one row, the page of the focus is the
/// quotient of the focus by the capacity, counted from one, and lies between
/// the first page and the last.
pub proof fn lemma_page_number_in_range(count: int, rows: int, focus: int)
    requires
        count >= 1,
        rows >= 1,
        0 <= focus <= count - 1,
    ensures
        page_number(focus, page_capacity(rows)) == focus / (2 * rows) + 1,
        1 <= page_number(focus, page_capacity(rows)) <= ceil_div(count, 2 * rows),
        page_count(count, page_capacity(rows)) == ceil_div(count, 2 * rows),
{
    let cap: int = 2 * rows;
    assert(focus / cap >= 0 && focus / cap <= (count - 1) / cap) by (nonlinear_arith)
        requires
            cap > 0,
            0 <= focus <= count - 1,
    ;
    assert((count - 1) / cap + 1 == (count + cap - 1) / cap) by (nonlinear_arith)
        requires
            cap > 0,
    ;
}

/// Whatever the capacity, the page of a valid focus is one of the pages of
/// the listing.
pub proof fn lemma_page_among_pages(focus: int, count: int, capacity: int)
    requires
        focus_valid(focus, count),
    ensures
        1 <= page_number(focus, capacity) <= page_count(count, capacity),
{
    if capacity > 0 {
        assert(focus / capacity >= 0) by (nonlinear_arith)
            requires
                capacity > 0,
                focus >= 0,
        ;
        if count > 0 {
            assert(focus / capacity <= (count - 1) / capacity) by (nonlinear_arith)
                requires
                    capacity > 0,
                    0 <= focus <= count - 1,
            ;
            assert((count - 1) / capacity + 1 == (count + capacity - 1) / capacity)
                by (nonlinear_arith)
                requires
                    capacity > 0,
            ;
        } else {
            assert(0int / capacity == 0) by (nonlinear_arith)
                requires
                    capacity > 0,
            ;
        }
    }
}

/// The page that holds `focus`, counted from one.
pub fn current_page(focus: usize, capacity: usize) -> (page: usize)
    requires
        focus < usize::MAX,
    ensures
        page == page_number(focus as int, capacity as int),
{
    if capacity == 0 {
        1
    } else {
        assert(focus as int / capacity as int <= focus) by (nonlinear_arith)
            requires
                capacity > 0,
                focus >= 0,
        ;
        focus / capacity + 1
    }
}

/// The number of pages of a listing of `count` entries.
pub fn total_pages(count: usize, capacity: usize) -> (pages: usize)
    ensures
        pages == page_count(count as int, capacity as int),
{
    if count == 0 || capacity == 0 {
        1
    } else {
        div_cell(count, capacity)
    }
}

/// Moves the focus by one step and returns its new place.
pub fn next_focus(dir: Direction, focus: usize, count: usize, height: usize) -> (next: usize)
    ensures
        next == focus_after(dir, focus as int, count as int, height as int),
{
    match dir {
        Direction::Down => {
            if focus < count && focus + 1 < count {
                focus + 1
            } else {
                focus
            }
        },
        Direction::Up => {
            if focus > 0 {
                focus - 1
            } else {
                focus
            }
        },
        Direction::Right => {
            if height == 0 {
                focus
            } else {
                proof {
                    lemma_column_top_shift(focus as int, height as int);
                }
                let top: usize = focus / height * height;
                if top < count && height < count - top {
                    top + height
                } else {
                    focus
                }
            }
        },
        Direction::Left => {
            if height == 0 || focus < height {
                focus
            } else {
                proof {
                    lemma_column_top_shift(focus as int, height as int);
                }
                let top: usize = focus / height * height;
                top - height
            }
        },
    }
}

} // verus!
