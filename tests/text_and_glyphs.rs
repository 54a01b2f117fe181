use meeting_cost::glyph::{paint, symbol, text_glyphs, Cell, Glyph};
use meeting_cost::text::{clock_text, cost_text, push_decimal, push_padded_right, push_signed, push_two_digits};

const EIGHT: Glyph = [
    [true, true, true, true, true, true],
    [true, true, false, false, true, true],
    [true, true, true, true, true, true],
    [true, true, false, false, true, true],
    [true, true, true, true, true, true],
];

const ONE: Glyph = [
    [false, false, true, true, false, false],
    [false, false, true, true, false, false],
    [false, false, true, true, false, false],
    [false, false, true, true, false, false],
    [false, false, true, true, false, false],
];

const FALLBACK: Glyph = [
    [true, true, true, true, true, true],
    [true, true, false, false, false, false],
    [true, true, true, true, true, true],
    [true, true, false, false, false, false],
    [true, true, true, true, true, true],
];

const DOT: Glyph = [
    [false, false, false, false, false, false],
    [false, false, false, false, false, false],
    [false, false, false, false, false, false],
    [false, false, false, false, false, false],
    [true, false, false, false, false, false],
];

#[test]
fn glyphs_of_known_characters() {
    assert_eq!(symbol('8'), EIGHT);
    assert_eq!(symbol('1'), ONE);
    assert_eq!(symbol('.'), DOT);
    assert_eq!(symbol(' '), [[false; 6]; 5]);
    assert_eq!(symbol('8'), symbol('8'));
    let supported = "0123456789:-., \u{20ac}";
    for a in supported.chars() {
        for b in supported.chars() {
            if a != b && !(a == '\u{20ac}' || b == '\u{20ac}') {
                assert_ne!(symbol(a), symbol(b), "{} {}", a, b);
            }
        }
    }
}

#[test]
fn unknown_characters_share_fallback_glyph() {
    for ch in ['x', '?', 'A', '$', '\u{0}', '\u{1F600}'] {
        assert_eq!(symbol(ch), FALLBACK);
    }
    assert_eq!(symbol('\u{20ac}'), FALLBACK);
}

#[test]
fn glyphs_of_text() {
    let g = text_glyphs("8.1");
    assert_eq!(g, vec![EIGHT, DOT, ONE]);
    assert!(text_glyphs("").is_empty());
}

#[test]
fn paint_lists_every_cell() {
    let cells = paint(&vec![ONE, EIGHT], 10, 4);
    assert_eq!(cells.len(), 60);
    assert_eq!(cells[0], Cell { x: 10, y: 4, filled: false });
    assert_eq!(cells[2], Cell { x: 12, y: 4, filled: true });
    assert_eq!(cells[7], Cell { x: 11, y: 5, filled: false });
    assert_eq!(cells[29], Cell { x: 15, y: 8, filled: false });
    assert_eq!(cells[30], Cell { x: 17, y: 4, filled: true });
    assert_eq!(cells[30 + 6 + 2], Cell { x: 19, y: 5, filled: false });
    assert_eq!(cells[59], Cell { x: 22, y: 8, filled: true });
    assert!(paint(&vec![], 1, 1).is_empty());
}

#[test]
fn decimal_text() {
    let mut s = String::from("n=");
    push_decimal(&mut s, 0);
    assert_eq!(s, "n=0");
    let mut s = String::new();
    push_decimal(&mut s, 1234567890);
    assert_eq!(s, "1234567890");
    let mut s = String::new();
    push_decimal(&mut s, u128::MAX);
    assert_eq!(s, u128::MAX.to_string());
    let mut s = String::new();
    push_signed(&mut s, -42);
    assert_eq!(s, "-42");
    let mut s = String::new();
    push_signed(&mut s, i128::MIN);
    assert_eq!(s, i128::MIN.to_string());
    let mut s = String::new();
    push_two_digits(&mut s, 7);
    push_two_digits(&mut s, 42);
    push_two_digits(&mut s, 123);
    assert_eq!(s, "0742123");
}

#[test]
fn right_padding() {
    let mut s = String::new();
    push_padded_right(&mut s, "ab", 6);
    assert_eq!(s, "ab    ");
    let mut s = String::new();
    push_padded_right(&mut s, "abcdefgh", 6);
    assert_eq!(s, "abcdefgh");
    let mut s = String::from("|");
    push_padded_right(&mut s, "\u{e9}", 2);
    assert_eq!(s, "|\u{e9} ");
}

#[test]
fn clock_text_values() {
    assert_eq!(clock_text(0), "00:00:00");
    assert_eq!(clock_text(3661), "01:01:01");
    assert_eq!(clock_text(86399), "23:59:59");
    assert_eq!(clock_text(360000), "100:00:00");
}

#[test]
fn cost_text_rounding() {
    assert_eq!(cost_text(143), "0.00");
    assert_eq!(cost_text(144), "0.01");
    assert_eq!(cost_text(288), "0.01");
    assert_eq!(cost_text(28800), "1.00");
    assert_eq!(cost_text(-288), "-0.01");
    assert_eq!(cost_text(-100), "0.00");
    assert_eq!(cost_text(1000 * 3601), "125.03");
}
