//! Where each region of the screen goes, from the terminal width and the
//! lengths of what is shown. Terminal coordinates start at 1; a position that
//! would fall left of the first column or above the first row is moved onto it.
use vstd::prelude::*;

verus! {

/// Row of the meeting header.
pub const HEADER_ROW: u16 = 3;

/// Row of the status line.
pub const STATUS_ROW: u16 = 1;

/// How far the status line starts left of the right edge.
pub const STATUS_OFFSET: u16 = 40;

/// Row of the first attendee line.
pub const ROSTER_ROW: u16 = 6;

/// Half the width of an attendee line.
pub const ROSTER_HALF_WIDTH: u16 = 41;

/// Rows between the top of the roster block and the big-digit total, beyond one
/// row per attendee.
pub const TOTAL_MARGIN: u16 = 8;

/// Width of a big digit as the centring counts it.
pub const DIGIT_WIDTH: u16 = 6;

/// Row of a menu's title; its entries follow on the rows below.
pub const MENU_ROW: u16 = 2;

/// Half the width of a menu.
pub const MENU_HALF_WIDTH: u16 = 20;

/// `v`, or the first column or row when `v` is before it.
pub open spec fn at_least_one(v: int) -> int {
    if v < 1 {
        1
    } else {
        v
    }
}

/// The column at which a text of `len` columns is centred on a screen `width`
/// columns wide.
pub open spec fn centred(width: int, len: int) -> int {
    at_least_one(width / 2 - len / 2)
}

/// Screen positions of the regions of one frame.
#[derive(Debug, Clone, Copy, PartialEq, Eq, Structural)]
pub struct Layout {
    pub header_x: u16,
    pub header_y: u16,
    pub status_x: u16,
    pub status_y: u16,
    pub roster_x: u16,
    pub roster_y: u16,
    pub total_x: u16,
    pub total_y: u16,
}

/// The column of a text of `len` columns centred on a screen `width` wide.
pub fn centre(width: u16, len: usize) -> (r: u16)
    ensures
        r == centred(width as int, len as int),
{
    let half = len / 2;
    if half >= (width / 2) as usize || width / 2 - (half as u16) < 1 {
        1
    } else {
        width / 2 - (half as u16)
    }
}

/// Positions of the regions for a screen `width` columns wide, a header of
/// `header_len` columns, `attendee_count` attendee lines and a total of
/// `total_len` big digits. The header is centred on its row; the status line
/// starts a fixed distance left of the right edge; the roster block is centred
/// and starts below the header; the big-digit total is centred and stands a
/// fixed margin below the roster.
pub fn layout(width: u16, header_len: u16, attendee_count: usize, total_len: usize) -> (r: Layout)
    ensures
        r.header_x == centred(width as int, header_len as int),
        r.header_y == HEADER_ROW,
        r.status_x == at_least_one(width - STATUS_OFFSET),
        r.status_y == STATUS_ROW,
        r.roster_x == at_least_one(width / 2 - ROSTER_HALF_WIDTH),
        r.roster_y == ROSTER_ROW,
        r.total_x == centred(width as int, DIGIT_WIDTH * total_len),
        r.total_y == if attendee_count + TOTAL_MARGIN <= u16::MAX {
            attendee_count + TOTAL_MARGIN
        } else {
            u16::MAX as int
        },
{
    let status_x: u16 = if width > STATUS_OFFSET {
        width - STATUS_OFFSET
    } else {
        1
    };
    let roster_x: u16 = if width / 2 > ROSTER_HALF_WIDTH {
        width / 2 - ROSTER_HALF_WIDTH
    } else {
        1
    };
    let digits_len: usize = if total_len <= usize::MAX / 6 {
        total_len * 6
    } else {
        usize::MAX
    };
    let total_x: u16 = if total_len <= usize::MAX / 6 {
        centre(width, digits_len)
    } else {
        1
    };
    assert(total_len > usize::MAX / 6 ==> centred(width as int, DIGIT_WIDTH * total_len) == 1);
    let total_y: u16 = if attendee_count <= (u16::MAX - TOTAL_MARGIN) as usize {
        attendee_count as u16 + TOTAL_MARGIN
    } else {
        u16::MAX
    };
    Layout {
        header_x: centre(width, header_len as usize),
        header_y: HEADER_ROW,
        status_x: status_x,
        status_y: STATUS_ROW,
        roster_x: roster_x,
        roster_y: ROSTER_ROW,
        total_x: total_x,
        total_y: total_y,
    }
}

/// The column of the add and remove menus on a screen `width` columns wide.
pub fn menu_column(width: u16) -> (r: u16)
    ensures
        r == at_least_one(width / 2 - MENU_HALF_WIDTH),
{
    if width / 2 > MENU_HALF_WIDTH {
        width / 2 - MENU_HALF_WIDTH
    } else {
        1
    }
}

} // verus!
