//! The text of each screen region and the composition of a whole frame.
use vstd::prelude::*;
use crate::cost::{attendee_cost, calculate_total, fits_i128, total_cost};
use crate::glyph::{Cell, glyphs_of, paint, painted, text_glyphs, Glyph, glyph_view};
use crate::layout::{
    at_least_one, centred, layout, menu_column, Layout, DIGIT_WIDTH, HEADER_ROW, MENU_HALF_WIDTH,
    MENU_ROW, ROSTER_HALF_WIDTH, ROSTER_ROW, STATUS_OFFSET, STATUS_ROW, TOTAL_MARGIN,
};
use crate::meeting::{Attendee, AttendeeView, Meeting, MeetingView};
use crate::role::{Roles, daily_salary, role_order, role_title};
use crate::text::{
    clock_of, clock_text, cost_of, cost_text, decimal, push_decimal, push_padded_right,
    push_signed, pad_right, signed_decimal,
};

verus! {

/// The header line of a meeting.
pub open spec fn header_of(name: Seq<char>, id: int) -> Seq<char> {
    "Meeting: "@ + name + " (ID: "@ + signed_decimal(id) + ")"@
}

/// The header line: the meeting's name and id.
pub fn header_text(meeting: &Meeting) -> (r: String)
    ensures
        r@ == header_of(meeting.name@, meeting.id as int),
{
    let mut r = String::new();
    r.append("Meeting: ");
    r.append(meeting.name.as_str());
    r.append(" (ID: ");
    push_signed(&mut r, meeting.id as i128);
    r.append(")");
    r
}

/// The length of the header line in characters, or the largest `u16` when it is
/// longer.
pub fn header_len(meeting: &Meeting) -> (r: u16)
    ensures
        header_of(meeting.name@, meeting.id as int).len() <= u16::MAX ==> r == header_of(
            meeting.name@,
            meeting.id as int,
        ).len(),
        header_of(meeting.name@, meeting.id as int).len() > u16::MAX ==> r == u16::MAX,
{
    let header = header_text(meeting);
    let len = header.as_str().unicode_len();
    if len <= u16::MAX as usize {
        len as u16
    } else {
        u16::MAX
    }
}

/// The text of a total: the amount, or a dash when it could not be computed.
pub open spec fn total_of(total: Option<i128>) -> Seq<char> {
    match total {
        Some(t) => cost_of(t as int),
        None => "-"@,
    }
}

/// The text of a total given in salary-seconds, or a dash for none.
pub fn total_text(total: Option<i128>) -> (r: String)
    ensures
        r@ == total_of(total),
{
    match total {
        Some(t) => cost_text(t),
        None => {
            let mut r = String::new();
            r.append("-");
            r
        },
    }
}

/// Whole seconds as the clock shows them: a negative count shows as zero.
pub open spec fn shown_seconds(seconds: int) -> nat {
    if seconds < 0 {
        0
    } else {
        seconds as nat
    }
}

/// The status line: the running time, the number of attendees and the total.
pub open spec fn status_of(seconds: int, count: nat, total: Option<i128>) -> Seq<char> {
    "Time "@ + clock_of(shown_seconds(seconds)) + " Attendees: "@ + decimal(count) + " Costs "@
        + total_of(total) + " \u{20ac}"@
}

/// The status line for a meeting that has run `seconds` seconds, with `count`
/// attendees and the given total.
pub fn status_text(seconds: i64, count: usize, total: Option<i128>) -> (r: String)
    ensures
        r@ == status_of(seconds as int, count as nat, total),
{
    let shown: u64 = if seconds < 0 {
        0
    } else {
        seconds as u64
    };
    let mut r = String::new();
    r.append("Time ");
    let clock = clock_text(shown);
    r.append(clock.as_str());
    r.append(" Attendees: ");
    push_decimal(&mut r, count as u128);
    r.append(" Costs ");
    let t = total_text(total);
    r.append(t.as_str());
    r.append(" \u{20ac}");
    r
}

/// Width to which the name column of an attendee line is padded.
pub const NAME_COLUMN: usize = 6;

/// Width to which the cost column of an attendee line is padded.
pub const COST_COLUMN: usize = 4;

/// The roster line of an attendee after `seconds` seconds: name, what the
/// attendee has cost so far, and role.
pub open spec fn attendee_line_of(a: AttendeeView, seconds: int) -> Seq<char> {
    "Attendee: "@ + pad_right(a.name, 6) + "\t Salary: "@ + pad_right(cost_of(a.salary * seconds), 4)
        + " \u{20ac} \t Role: "@ + role_title(a.role)
}

/// The roster line of an attendee after `seconds` seconds.
pub fn attendee_line(attendee: &Attendee, seconds: i64) -> (r: String)
    ensures
        r@ == attendee_line_of(attendee@, seconds as int),
{
    let mut r = String::new();
    r.append("Attendee: ");
    push_padded_right(&mut r, attendee.name.as_str(), NAME_COLUMN);
    r.append("\t Salary: ");
    let cost = cost_text(attendee_cost(attendee, seconds));
    push_padded_right(&mut r, cost.as_str(), COST_COLUMN);
    r.append(" \u{20ac} \t Role: ");
    r.append(attendee.role.title());
    r
}

/// An entry of the add menu: its number and the role with its salary.
pub open spec fn add_entry_of(number: nat, role: Roles) -> Seq<char> {
    "("@ + decimal(number) + ") "@ + role_title(role) + " (Salary "@ + signed_decimal(
        daily_salary(role),
    ) + " \u{20ac})"@
}

/// The add-menu entry numbered `number` for `role`.
pub fn add_entry(number: usize, role: Roles) -> (r: String)
    ensures
        r@ == add_entry_of(number as nat, role),
{
    let mut r = String::new();
    r.append("(");
    push_decimal(&mut r, number as u128);
    r.append(") ");
    r.append(role.title());
    r.append(" (Salary ");
    push_signed(&mut r, role.salary() as i128);
    r.append(" \u{20ac})");
    r
}

/// An entry of the remove menu: its number and the attendee's name.
pub open spec fn remove_entry_of(number: nat, name: Seq<char>) -> Seq<char> {
    "("@ + decimal(number) + ") "@ + name
}

/// The remove-menu entry numbered `number` for the attendee called `name`.
pub fn remove_entry(number: usize, name: &str) -> (r: String)
    ensures
        r@ == remove_entry_of(number as nat, name@),
{
    let mut r = String::new();
    r.append("(");
    push_decimal(&mut r, number as u128);
    r.append(") ");
    r.append(name);
    r
}

/// A line of text to write with its first character at column `x`, row `y`.
#[derive(Debug)]
pub struct Placed {
    pub x: u16,
    pub y: u16,
    pub text: String,
}

impl View for Placed {
    type V = (int, int, Seq<char>);

    open spec fn view(&self) -> (int, int, Seq<char>) {
        (self.x as int, self.y as int, self.text@)
    }
}

/// Placed lines as plain values.
pub open spec fn placed_views(lines: Seq<Placed>) -> Seq<(int, int, Seq<char>)> {
    lines.map_values(|p: Placed| p@)
}

/// Painted cells as plain values.
pub open spec fn cell_views(cells: Seq<Cell>) -> Seq<(int, int, bool)> {
    cells.map_values(|c: Cell| c@)
}

/// How many of `count` lines, one per row from `row` down, fit on a terminal
/// whose rows are numbered by `u16`.
pub open spec fn rows_that_fit(row: int, count: int) -> int {
    if count <= u16::MAX - row + 1 {
        count
    } else {
        u16::MAX - row + 1
    }
}

/// The roster block: one line per attendee, in roster order, starting at row
/// `ROSTER_ROW` in column `x`.
pub open spec fn roster_block(attendees: Seq<AttendeeView>, seconds: int, x: int) -> Seq<
    (int, int, Seq<char>),
> {
    Seq::new(
        rows_that_fit(ROSTER_ROW as int, attendees.len() as int) as nat,
        |k: int| (x, ROSTER_ROW + k, attendee_line_of(attendees[k], seconds)),
    )
}

/// The total cost of a meeting so far in salary-seconds, when it fits in an `i128`.
pub open spec fn meeting_total(m: MeetingView) -> Option<i128> {
    let t = total_cost(m.attendees, m.duration_seconds);
    if fits_i128(t) {
        Some(t as i128)
    } else {
        None
    }
}

/// The header length as the layout counts it.
pub open spec fn header_width(m: MeetingView) -> int {
    let h = header_of(m.name, m.id);
    if h.len() <= u16::MAX {
        h.len() as int
    } else {
        u16::MAX as int
    }
}

/// The lines of a frame: header, status line, then the roster block.
pub open spec fn frame_texts(m: MeetingView, width: int) -> Seq<(int, int, Seq<char>)> {
    seq![
        (centred(width, header_width(m)), HEADER_ROW as int, header_of(m.name, m.id)),
        (
            at_least_one(width - STATUS_OFFSET),
            STATUS_ROW as int,
            status_of(m.duration_seconds, m.attendees.len(), meeting_total(m)),
        ),
    ] + roster_block(m.attendees, m.duration_seconds, at_least_one(width / 2 - ROSTER_HALF_WIDTH))
}

/// The big-digit cells of a frame: the total, centred, a fixed margin below the
/// roster; nothing when it would run past the last column or row.
pub open spec fn frame_digits(m: MeetingView, width: int) -> Seq<(int, int, bool)> {
    let text = total_of(meeting_total(m));
    let x = centred(width, DIGIT_WIDTH * text.len());
    let y: int = if m.attendees.len() + TOTAL_MARGIN <= u16::MAX {
        m.attendees.len() + TOTAL_MARGIN
    } else {
        u16::MAX as int
    };
    if x + 7 * text.len() <= u16::MAX && y + 4 <= u16::MAX {
        painted(glyphs_of(text), x, y)
    } else {
        seq![]
    }
}

/// One repaint of the dashboard: the lines to write and the big-digit cells to
/// paint.
#[derive(Debug)]
pub struct Frame {
    pub texts: Vec<Placed>,
    pub digits: Vec<Cell>,
}

/// The frame for a meeting on a screen `width` columns wide.
pub fn frame(meeting: &Meeting, width: u16) -> (r: Frame)
    ensures
        placed_views(r.texts@) == frame_texts(meeting@, width as int),
        cell_views(r.digits@) == frame_digits(meeting@, width as int),
{
    let seconds = meeting.duration_seconds;
    let total = calculate_total(&meeting.attendees, seconds);
    let total_str = total_text(total);
    let total_len = total_str.as_str().unicode_len();
    let count = meeting.attendees.len();
    let at: Layout = layout(width, header_len(meeting), count, total_len);
    let mut texts: Vec<Placed> = Vec::new();
    texts.push(Placed { x: at.header_x, y: at.header_y, text: header_text(meeting) });
    texts.push(
        Placed { x: at.status_x, y: at.status_y, text: status_text(seconds, count, total) },
    );
    let ghost start = placed_views(texts@);
    let room: usize = (u16::MAX - ROSTER_ROW + 1) as usize;
    let rows: usize = if count <= room {
        count
    } else {
        room
    };
    let mut k: usize = 0;
    while k < rows
        invariant
            rows == rows_that_fit(ROSTER_ROW as int, count as int),
            count == meeting.attendees@.len(),
            at.roster_x == at_least_one(width / 2 - ROSTER_HALF_WIDTH),
            k <= rows,
            texts@.len() == 2 + k,
            placed_views(texts@) == start + roster_block(
                meeting@.attendees,
                seconds as int,
                at.roster_x as int,
            ).take(k as int),
        decreases rows - k,
    {
        let ghost before = texts@;
        let line = attendee_line(&meeting.attendees[k], seconds);
        texts.push(Placed { x: at.roster_x, y: ROSTER_ROW + k as u16, text: line });
        assert(meeting@.attendees[k as int] == meeting.attendees@[k as int]@);
        assert(placed_views(texts@) =~= placed_views(before).push(texts@[2 + k as int]@));
        k = k + 1;
        assert(placed_views(texts@) =~= start + roster_block(
            meeting@.attendees,
            seconds as int,
            at.roster_x as int,
        ).take(k as int));
    }
    assert(roster_block(meeting@.attendees, seconds as int, at.roster_x as int).take(k as int)
        =~= roster_block(meeting@.attendees, seconds as int, at.roster_x as int));
    assert(placed_views(texts@) =~= frame_texts(meeting@, width as int));
    let glyphs = text_glyphs(total_str.as_str());
    assert(glyphs@.map_values(|g: Glyph| glyph_view(g)).len() == glyphs@.len());
    let digits = if total_len <= 65535 && (at.total_x as usize) + 7 * total_len <= 65535
        && at.total_y <= 65531 {
        paint(&glyphs, at.total_x, at.total_y)
    } else {
        Vec::new()
    };
    assert(cell_views(digits@) =~= frame_digits(meeting@, width as int));
    Frame { texts: texts, digits: digits }
}

/// Title of the add menu.
pub open spec fn add_menu_title() -> Seq<char> {
    "Add Attendant"@
}

/// The add menu: its title, then one numbered entry per role in menu order,
/// numbered from 1.
pub open spec fn add_menu_of(width: int) -> Seq<(int, int, Seq<char>)> {
    let x = at_least_one(width / 2 - MENU_HALF_WIDTH);
    seq![(x, MENU_ROW as int, add_menu_title())] + Seq::new(
        6,
        |k: int| (x, MENU_ROW + 1 + k, add_entry_of((k + 1) as nat, role_order()[k])),
    )
}

/// The lines of the add menu on a screen `width` columns wide.
pub fn add_menu(width: u16) -> (r: Vec<Placed>)
    ensures
        placed_views(r@) == add_menu_of(width as int),
{
    let x = menu_column(width);
    let mut title = String::new();
    title.append("Add Attendant");
    let mut r: Vec<Placed> = Vec::new();
    r.push(Placed { x: x, y: MENU_ROW, text: title });
    let roles = Roles::Iterator();
    let mut k: usize = 0;
    while k < roles.len()
        invariant
            roles@ == role_order(),
            x == at_least_one(width / 2 - MENU_HALF_WIDTH),
            k <= 6,
            r@.len() == 1 + k,
            placed_views(r@) == add_menu_of(width as int).take(1 + k),
        decreases 6 - k,
    {
        let entry = add_entry(k + 1, roles[k]);
        r.push(Placed { x: x, y: MENU_ROW + 1 + k as u16, text: entry });
        k = k + 1;
        assert(placed_views(r@) =~= add_menu_of(width as int).take(1 + k));
    }
    assert(add_menu_of(width as int).take(7) =~= add_menu_of(width as int));
    r
}

/// The remove menu: one numbered entry per attendee in roster order, numbered
/// from 1, as many as fit below the menu's top row.
pub open spec fn remove_menu_of(m: MeetingView, width: int) -> Seq<(int, int, Seq<char>)> {
    let x = at_least_one(width / 2 - MENU_HALF_WIDTH);
    Seq::new(
        rows_that_fit(MENU_ROW + 1, m.attendees.len() as int) as nat,
        |k: int| (x, MENU_ROW + 1 + k, remove_entry_of((k + 1) as nat, m.attendees[k].name)),
    )
}

/// The lines of the remove menu for a meeting on a screen `width` columns wide.
pub fn remove_menu(meeting: &Meeting, width: u16) -> (r: Vec<Placed>)
    ensures
        placed_views(r@) == remove_menu_of(meeting@, width as int),
{
    let x = menu_column(width);
    let count = meeting.attendees.len();
    let room: usize = (u16::MAX - MENU_ROW) as usize;
    let rows: usize = if count <= room {
        count
    } else {
        room
    };
    let mut r: Vec<Placed> = Vec::new();
    let mut k: usize = 0;
    while k < rows
        invariant
            rows == rows_that_fit(MENU_ROW + 1, count as int),
            count == meeting.attendees@.len(),
            x == at_least_one(width / 2 - MENU_HALF_WIDTH),
            k <= rows,
            r@.len() == k,
            placed_views(r@) == remove_menu_of(meeting@, width as int).take(k as int),
        decreases rows - k,
    {
        let entry = remove_entry(k + 1, meeting.attendees[k].name.as_str());
        r.push(Placed { x: x, y: MENU_ROW + 1 + k as u16, text: entry });
        k = k + 1;
        assert(placed_views(r@) =~= remove_menu_of(meeting@, width as int).take(k as int));
    }
    assert(remove_menu_of(meeting@, width as int).take(k as int) =~= remove_menu_of(
        meeting@,
        width as int,
    ));
    r
}

} // verus!
