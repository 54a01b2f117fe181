//! Big-digit glyphs: each character of the running total is drawn as a
//! 5-row by 6-column grid of cells, set cells in the fill colour and clear
//! cells blank.
use vstd::prelude::*;

verus! {

/// A glyph: five rows of six cells, `true` where the cell is set.
pub type Glyph = [[bool; 6]; 5];

/// Horizontal distance between the left edges of two neighbouring glyphs: the
/// glyph width and one blank column.
pub const GLYPH_STRIDE: u16 = 7;

/// The cells of a glyph as a sequence of rows.
pub open spec fn glyph_view(g: Glyph) -> Seq<Seq<bool>> {
    Seq::new(5, |j: int| g[j]@)
}

/// Cells of the digit 1.
pub open spec fn one_glyph() -> Seq<Seq<bool>> {
    seq![
        seq![false, false, true, true, false, false],
        seq![false, false, true, true, false, false],
        seq![false, false, true, true, false, false],
        seq![false, false, true, true, false, false],
        seq![false, false, true, true, false, false],
    ]
}

/// Cells of the digit 2.
pub open spec fn two_glyph() -> Seq<Seq<bool>> {
    seq![
        seq![true, true, true, true, true, true],
        seq![false, false, false, false, true, true],
        seq![true, true, true, true, true, true],
        seq![true, true, false, false, false, false],
        seq![true, true, true, true, true, true],
    ]
}

/// Cells of the digit 3.
pub open spec fn three_glyph() -> Seq<Seq<bool>> {
    seq![
        seq![true, true, true, true, true, true],
        seq![false, false, false, false, true, true],
        seq![true, true, true, true, true, true],
        seq![false, false, false, false, true, true],
        seq![true, true, true, true, true, true],
    ]
}

/// Cells of the digit 4.
pub open spec fn four_glyph() -> Seq<Seq<bool>> {
    seq![
        seq![true, true, false, false, true, true],
        seq![true, true, false, false, true, true],
        seq![true, true, true, true, true, true],
        seq![false, false, false, false, true, true],
        seq![false, false, false, false, true, true],
    ]
}

/// Cells of the digit 5.
pub open spec fn five_glyph() -> Seq<Seq<bool>> {
    seq![
        seq![true, true, true, true, true, true],
        seq![true, true, false, false, false, false],
        seq![true, true, true, true, true, true],
        seq![false, false, false, false, true, true],
        seq![true, true, true, true, true, true],
    ]
}

/// Cells of the digit 6.
pub open spec fn six_glyph() -> Seq<Seq<bool>> {
    seq![
        seq![true, true, true, true, true, true],
        seq![true, true, false, false, false, false],
        seq![true, true, true, true, true, true],
        seq![true, true, false, false, true, true],
        seq![true, true, true, true, true, true],
    ]
}

/// Cells of the digit 7.
pub open spec fn seven_glyph() -> Seq<Seq<bool>> {
    seq![
        seq![true, true, true, true, true, true],
        seq![false, false, false, false, true, true],
        seq![false, false, false, false, true, true],
        seq![false, false, false, false, true, true],
        seq![false, false, false, false, true, true],
    ]
}

/// Cells of the digit 8.
pub open spec fn eight_glyph() -> Seq<Seq<bool>> {
    seq![
        seq![true, true, true, true, true, true],
        seq![true, true, false, false, true, true],
        seq![true, true, true, true, true, true],
        seq![true, true, false, false, true, true],
        seq![true, true, true, true, true, true],
    ]
}

/// Cells of the digit 9.
pub open spec fn nine_glyph() -> Seq<Seq<bool>> {
    seq![
        seq![true, true, true, true, true, true],
        seq![true, true, false, false, true, true],
        seq![true, true, true, true, true, true],
        seq![false, false, false, false, true, true],
        seq![true, true, true, true, true, true],
    ]
}

/// Cells of the digit 0.
pub open spec fn zero_glyph() -> Seq<Seq<bool>> {
    seq![
        seq![true, true, true, true, true, true],
        seq![true, true, false, false, true, true],
        seq![true, true, false, false, true, true],
        seq![true, true, false, false, true, true],
        seq![true, true, true, true, true, true],
    ]
}

/// Cells of the colon.
pub open spec fn colon_glyph() -> Seq<Seq<bool>> {
    seq![
        seq![false, false, false, false, false, false],
        seq![false, false, true, true, false, false],
        seq![false, false, false, false, false, false],
        seq![false, false, true, true, false, false],
        seq![false, false, false, false, false, false],
    ]
}

/// Cells of the dash.
pub open spec fn dash_glyph() -> Seq<Seq<bool>> {
    seq![
        seq![false, false, false, false, false, false],
        seq![false, false, false, false, false, false],
        seq![false, true, true, true, true, false],
        seq![false, false, false, false, false, false],
        seq![false, false, false, false, false, false],
    ]
}

/// Cells of the space.
pub open spec fn space_glyph() -> Seq<Seq<bool>> {
    seq![
        seq![false, false, false, false, false, false],
        seq![false, false, false, false, false, false],
        seq![false, false, false, false, false, false],
        seq![false, false, false, false, false, false],
        seq![false, false, false, false, false, false],
    ]
}

/// Cells of the full stop.
pub open spec fn dot_glyph() -> Seq<Seq<bool>> {
    seq![
        seq![false, false, false, false, false, false],
        seq![false, false, false, false, false, false],
        seq![false, false, false, false, false, false],
        seq![false, false, false, false, false, false],
        seq![true, false, false, false, false, false],
    ]
}

/// Cells of the comma.
pub open spec fn comma_glyph() -> Seq<Seq<bool>> {
    seq![
        seq![false, false, false, false, false, false],
        seq![false, false, false, false, false, false],
        seq![true, false, false, false, false, false],
        seq![true, false, false, false, false, false],
        seq![true, false, false, false, false, false],
    ]
}

/// Cells of the euro sign.
pub open spec fn currency_glyph() -> Seq<Seq<bool>> {
    seq![
        seq![true, true, true, true, true, true],
        seq![true, true, false, false, false, false],
        seq![true, true, true, true, true, true],
        seq![true, true, false, false, false, false],
        seq![true, true, true, true, true, true],
    ]
}

/// Cells of the fallback for characters without a glyph of their own.
pub open spec fn error_glyph() -> Seq<Seq<bool>> {
    seq![
        seq![true, true, true, true, true, true],
        seq![true, true, false, false, false, false],
        seq![true, true, true, true, true, true],
        seq![true, true, false, false, false, false],
        seq![true, true, true, true, true, true],
    ]
}

/// The glyph of a character; characters without a glyph of their own get the
/// fallback glyph.
pub open spec fn glyph_of(ch: char) -> Seq<Seq<bool>> {
    if ch == '1' {
        one_glyph()
    }     else if ch == '2' {
        two_glyph()
    }     else if ch == '3' {
        three_glyph()
    }     else if ch == '4' {
        four_glyph()
    }     else if ch == '5' {
        five_glyph()
    }     else if ch == '6' {
        six_glyph()
    }     else if ch == '7' {
        seven_glyph()
    }     else if ch == '8' {
        eight_glyph()
    }     else if ch == '9' {
        nine_glyph()
    }     else if ch == '0' {
        zero_glyph()
    }     else if ch == ':' {
        colon_glyph()
    }     else if ch == '-' {
        dash_glyph()
    }     else if ch == ' ' {
        space_glyph()
    }     else if ch == '.' {
        dot_glyph()
    }     else if ch == ',' {
        comma_glyph()
    }     else if ch == '\u{20ac}' {
        currency_glyph()
    } else {
        error_glyph()
    }
}

/// Whether a character has a glyph of its own: a digit, one of `: - . ,`, the
/// space or the euro sign.
pub open spec fn has_own_glyph(ch: char) -> bool {
    ||| '0' <= ch <= '9'
    ||| ch == ':' || ch == '-' || ch == ' ' || ch == '.' || ch == ','
    ||| ch == '\u{20ac}'
}

/// The glyph of a character; one without a glyph of its own gets the fallback.
pub fn symbol(ch: char) -> (r: Glyph)
    ensures
        glyph_view(r) == glyph_of(ch),
{
    let r: Glyph = match ch {
        '1' => [
            [false, false, true, true, false, false],
            [false, false, true, true, false, false],
            [false, false, true, true, false, false],
            [false, false, true, true, false, false],
            [false, false, true, true, false, false],
        ],
        '2' => [
            [true, true, true, true, true, true],
            [false, false, false, false, true, true],
            [true, true, true, true, true, true],
            [true, true, false, false, false, false],
            [true, true, true, true, true, true],
        ],
        '3' => [
            [true, true, true, true, true, true],
            [false, false, false, false, true, true],
            [true, true, true, true, true, true],
            [false, false, false, false, true, true],
            [true, true, true, true, true, true],
        ],
        '4' => [
            [true, true, false, false, true, true],
            [true, true, false, false, true, true],
            [true, true, true, true, true, true],
            [false, false, false, false, true, true],
            [false, false, false, false, true, true],
        ],
        '5' => [
            [true, true, true, true, true, true],
            [true, true, false, false, false, false],
            [true, true, true, true, true, true],
            [false, false, false, false, true, true],
            [true, true, true, true, true, true],
        ],
        '6' => [
            [true, true, true, true, true, true],
            [true, true, false, false, false, false],
            [true, true, true, true, true, true],
            [true, true, false, false, true, true],
            [true, true, true, true, true, true],
        ],
        '7' => [
            [true, true, true, true, true, true],
            [false, false, false, false, true, true],
            [false, false, false, false, true, true],
            [false, false, false, false, true, true],
            [false, false, false, false, true, true],
        ],
        '8' => [
            [true, true, true, true, true, true],
            [true, true, false, false, true, true],
            [true, true, true, true, true, true],
            [true, true, false, false, true, true],
            [true, true, true, true, true, true],
        ],
        '9' => [
            [true, true, true, true, true, true],
            [true, true, false, false, true, true],
            [true, true, true, true, true, true],
            [false, false, false, false, true, true],
            [true, true, true, true, true, true],
        ],
        '0' => [
            [true, true, true, true, true, true],
            [true, true, false, false, true, true],
            [true, true, false, false, true, true],
            [true, true, false, false, true, true],
            [true, true, true, true, true, true],
        ],
        ':' => [
            [false, false, false, false, false, false],
            [false, false, true, true, false, false],
            [false, false, false, false, false, false],
            [false, false, true, true, false, false],
            [false, false, false, false, false, false],
        ],
        '-' => [
            [false, false, false, false, false, false],
            [false, false, false, false, false, false],
            [false, true, true, true, true, false],
            [false, false, false, false, false, false],
            [false, false, false, false, false, false],
        ],
        ' ' => [
            [false, false, false, false, false, false],
            [false, false, false, false, false, false],
            [false, false, false, false, false, false],
            [false, false, false, false, false, false],
            [false, false, false, false, false, false],
        ],
        '.' => [
            [false, false, false, false, false, false],
            [false, false, false, false, false, false],
            [false, false, false, false, false, false],
            [false, false, false, false, false, false],
            [true, false, false, false, false, false],
        ],
        ',' => [
            [false, false, false, false, false, false],
            [false, false, false, false, false, false],
            [true, false, false, false, false, false],
            [true, false, false, false, false, false],
            [true, false, false, false, false, false],
        ],
        '\u{20ac}' => [
            [true, true, true, true, true, true],
            [true, true, false, false, false, false],
            [true, true, true, true, true, true],
            [true, true, false, false, false, false],
            [true, true, true, true, true, true],
        ],
        _ => [
            [true, true, true, true, true, true],
            [true, true, false, false, false, false],
            [true, true, true, true, true, true],
            [true, true, false, false, false, false],
            [true, true, true, true, true, true],
        ],
    };
    assert(glyph_view(r) =~~= glyph_of(ch));
    r
}

/// Every character without a glyph of its own is drawn with the one fallback
/// glyph, so any two such characters look the same.
pub proof fn lemma_fallback_glyph(a: char, b: char)
    requires
        !has_own_glyph(a),
        !has_own_glyph(b),
    ensures
        glyph_of(a) == error_glyph(),
        glyph_of(a) == glyph_of(b),
{
}

/// Every glyph has five rows of six cells.
pub proof fn lemma_glyph_shape(ch: char)
    ensures
        glyph_of(ch).len() == 5,
        forall|j: int| 0 <= j < 5 ==> #[trigger] glyph_of(ch)[j].len() == 6,
{
}

/// The glyphs of a text, one for each character, in order.
pub open spec fn glyphs_of(text: Seq<char>) -> Seq<Seq<Seq<bool>>> {
    text.map_values(|ch: char| glyph_of(ch))
}

/// The glyphs of the characters of `text`, in order.
pub fn text_glyphs(text: &str) -> (r: Vec<Glyph>)
    ensures
        r@.map_values(|g: Glyph| glyph_view(g)) == glyphs_of(text@),
{
    let n = text.unicode_len();
    let mut r: Vec<Glyph> = Vec::new();
    let mut i: usize = 0;
    while i < n
        invariant
            n == text@.len(),
            i <= n,
            r@.len() == i,
            r@.map_values(|g: Glyph| glyph_view(g)) == glyphs_of(text@.take(i as int)),
        decreases n - i,
    {
        let ghost before = r@;
        let g = symbol(text.get_char(i));
        r.push(g);
        assert forall|m: int| 0 <= m < i implies #[trigger] glyph_view(before[m])
            == glyphs_of(text@.take(i as int))[m] by {
            assert(before.map_values(|g: Glyph| glyph_view(g))[m] == glyph_view(before[m]));
        }
        assert(r@.map_values(|g: Glyph| glyph_view(g)) =~= glyphs_of(text@.take(i + 1)));
        i = i + 1;
    }
    assert(text@.take(n as int) =~= text@);
    r
}

/// One terminal cell to paint: its column and row, and whether it is set (drawn
/// with the fill character in colour) or clear (a blank in the terminal's own
/// colours).
#[derive(Debug, Clone, Copy, PartialEq, Eq, Structural)]
pub struct Cell {
    pub x: u16,
    pub y: u16,
    pub filled: bool,
}

impl View for Cell {
    type V = (int, int, bool);

    open spec fn view(&self) -> (int, int, bool) {
        (self.x as int, self.y as int, self.filled)
    }
}

/// The 30 cells of one glyph with its top-left corner at `(x, y)`, row by row.
pub open spec fn glyph_cells(g: Seq<Seq<bool>>, x: int, y: int) -> Seq<(int, int, bool)> {
    Seq::new(30, |c: int| (x + c % 6, y + c / 6, g[c / 6][c % 6]))
}

/// The cells of a row of glyphs whose first glyph has its top-left corner at
/// `(x, y)`; each further glyph stands one stride to the right.
pub open spec fn painted(gs: Seq<Seq<Seq<bool>>>, x: int, y: int) -> Seq<(int, int, bool)>
    decreases gs.len(),
{
    if gs.len() == 0 {
        seq![]
    } else {
        painted(gs.drop_last(), x, y) + glyph_cells(gs.last(), x + 7 * (gs.len() - 1), y)
    }
}

/// Every cell of a row of glyphs, in painting order. Each call lists every cell,
/// clear ones included, so that painting it overwrites what an earlier frame left.
pub fn paint(glyphs: &Vec<Glyph>, origin_x: u16, origin_y: u16) -> (r: Vec<Cell>)
    requires
        origin_x + 7 * glyphs@.len() <= u16::MAX,
        origin_y + 4 <= u16::MAX,
    ensures
        r@.map_values(|c: Cell| c@) == painted(
            glyphs@.map_values(|g: Glyph| glyph_view(g)),
            origin_x as int,
            origin_y as int,
        ),
{
    let ghost gs = glyphs@.map_values(|g: Glyph| glyph_view(g));
    let mut r: Vec<Cell> = Vec::new();
    let mut k: usize = 0;
    let mut x: u16 = origin_x;
    while k < glyphs.len()
        invariant
            gs == glyphs@.map_values(|g: Glyph| glyph_view(g)),
            k <= glyphs@.len(),
            x == origin_x + 7 * k,
            origin_x + 7 * glyphs@.len() <= u16::MAX,
            origin_y + 4 <= u16::MAX,
            r@.map_values(|c: Cell| c@) == painted(gs.take(k as int), origin_x as int, origin_y as int),
        decreases glyphs@.len() - k,
    {
        let g = &glyphs[k];
        let ghost before = r@.map_values(|c: Cell| c@);
        let mut c: usize = 0;
        while c < 30
            invariant
                c <= 30,
                k < glyphs@.len(),
                x == origin_x + 7 * k,
                origin_x + 7 * glyphs@.len() <= u16::MAX,
                origin_y + 4 <= u16::MAX,
                r@.len() == before.len() + c,
                forall|m: int| 0 <= m < before.len() ==> r@[m]@ == before[m],
                forall|m: int|
                    0 <= m < c ==> r@[before.len() + m]@ == glyph_cells(
                        glyph_view(*g),
                        x as int,
                        origin_y as int,
                    )[m],
            decreases 30 - c,
        {
            let row = c / 6;
            let col = c % 6;
            r.push(Cell { x: x + col as u16, y: origin_y + row as u16, filled: g[row][col] });
            c = c + 1;
        }
        assert(gs.take(k + 1).drop_last() =~= gs.take(k as int));
        assert(r@.map_values(|c: Cell| c@) =~= painted(
            gs.take(k + 1),
            origin_x as int,
            origin_y as int,
        ));
        k = k + 1;
        x = x + GLYPH_STRIDE;
    }
    assert(gs.take(k as int) =~= gs);
    r
}

} // verus!
