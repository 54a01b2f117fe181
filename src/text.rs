//! Decimal rendering of numbers and the other small text pieces of the screen.
use vstd::prelude::*;

verus! {

/// The character of a decimal digit.
pub open spec fn digit_char(d: nat) -> char {
    if d == 0 {
        '0'
    } else if d == 1 {
        '1'
    } else if d == 2 {
        '2'
    } else if d == 3 {
        '3'
    } else if d == 4 {
        '4'
    } else if d == 5 {
        '5'
    } else if d == 6 {
        '6'
    } else if d == 7 {
        '7'
    } else if d == 8 {
        '8'
    } else {
        '9'
    }
}

/// The decimal notation of `n`, most significant digit first, without leading zeros.
pub open spec fn decimal(n: nat) -> Seq<char>
    decreases n,
{
    if n < 10 {
        seq![digit_char(n)]
    } else {
        decimal(n / 10) + seq![digit_char(n % 10)]
    }
}

/// The decimal notation of `n` in at least two digits: a single digit gets a
/// leading zero.
pub open spec fn two_digits(n: nat) -> Seq<char> {
    if n < 10 {
        seq!['0'] + decimal(n)
    } else {
        decimal(n)
    }
}

/// The decimal notation of a signed integer, with a leading minus when negative.
pub open spec fn signed_decimal(n: int) -> Seq<char> {
    if n < 0 {
        seq!['-'] + decimal((-n) as nat)
    } else {
        decimal(n as nat)
    }
}

fn digit_str(d: u128) -> (r: &'static str)
    requires
        d < 10,
    ensures
        r@ == seq![digit_char(d as nat)],
{
    if d == 0 {
        proof { reveal_strlit("0"); }
        "0"
    } else if d == 1 {
        proof { reveal_strlit("1"); }
        "1"
    } else if d == 2 {
        proof { reveal_strlit("2"); }
        "2"
    } else if d == 3 {
        proof { reveal_strlit("3"); }
        "3"
    } else if d == 4 {
        proof { reveal_strlit("4"); }
        "4"
    } else if d == 5 {
        proof { reveal_strlit("5"); }
        "5"
    } else if d == 6 {
        proof { reveal_strlit("6"); }
        "6"
    } else if d == 7 {
        proof { reveal_strlit("7"); }
        "7"
    } else if d == 8 {
        proof { reveal_strlit("8"); }
        "8"
    } else {
        proof { reveal_strlit("9"); }
        "9"
    }
}

/// Appends the decimal notation of `n` to `s`.
pub fn push_decimal(s: &mut String, n: u128)
    ensures
        final(s)@ == old(s)@ + decimal(n as nat),
    decreases n,
{
    if n >= 10 {
        push_decimal(s, n / 10);
    }
    s.append(digit_str(n % 10));
    assert(s@ =~= old(s)@ + decimal(n as nat));
}

/// Appends the decimal notation of `n`, with a leading zero when it has a
/// single digit.
pub fn push_two_digits(s: &mut String, n: u128)
    ensures
        final(s)@ == old(s)@ + two_digits(n as nat),
{
    let ghost start = s@;
    if n < 10 {
        proof {
            reveal_strlit("0");
        }
        s.append("0");
    }
    push_decimal(s, n);
    assert(s@ =~= start + two_digits(n as nat));
}

/// Appends the decimal notation of a signed integer.
pub fn push_signed(s: &mut String, n: i128)
    ensures
        final(s)@ == old(s)@ + signed_decimal(n as int),
{
    if n < 0 {
        let ghost start = s@;
        proof {
            reveal_strlit("-");
        }
        s.append("-");
        let magnitude: u128 = (-(n + 1)) as u128 + 1;
        push_decimal(s, magnitude);
        assert(s@ =~= start + signed_decimal(n as int));
    } else {
        push_decimal(s, n as u128);
    }
}

/// Appends the text of `t`, then spaces up to `width` characters in all.
pub open spec fn pad_right(t: Seq<char>, width: nat) -> Seq<char> {
    if t.len() < width {
        t + Seq::new((width - t.len()) as nat, |i: int| ' ')
    } else {
        t
    }
}

/// Appends `t` padded on the right with spaces to at least `width` characters.
pub fn push_padded_right(s: &mut String, t: &str, width: usize)
    ensures
        final(s)@ == old(s)@ + pad_right(t@, width as nat),
{
    let ghost start = s@;
    let len = t.unicode_len();
    s.append(t);
    if len < width {
        let mut k: usize = 0;
        while k < width - len
            invariant
                len == t@.len(),
                len < width,
                k <= width - len,
                s@ == start + t@ + Seq::new(k as nat, |i: int| ' '),
            decreases width - len - k,
        {
            proof {
                reveal_strlit(" ");
            }
            s.append(" ");
            k = k + 1;
            assert(s@ =~= start + t@ + Seq::new(k as nat, |i: int| ' '));
        }
        assert(s@ =~= start + pad_right(t@, width as nat));
    } else {
        assert(s@ =~= start + pad_right(t@, width as nat));
    }
}

/// A duration as hours, minutes and seconds, each at least two digits:
/// `HH:MM:SS`.
pub open spec fn clock_of(seconds: nat) -> Seq<char> {
    two_digits(seconds / 3600) + ":"@ + two_digits((seconds / 60) % 60) + ":"@
        + two_digits(seconds % 60)
}

/// The `HH:MM:SS` text of a duration in seconds.
pub fn clock_text(seconds: u64) -> (r: String)
    ensures
        r@ == clock_of(seconds as nat),
{
    let mut r = String::new();
    push_two_digits(&mut r, (seconds / 3600) as u128);
    r.append(":");
    push_two_digits(&mut r, ((seconds / 60) % 60) as u128);
    r.append(":");
    push_two_digits(&mut r, (seconds % 60) as u128);
    r
}

/// A cost in salary-seconds rounded to whole cents, halves away from zero.
pub open spec fn cents_of(scaled: int) -> int {
    if scaled >= 0 {
        (scaled + 144) / 288
    } else {
        -((-scaled + 144) / 288)
    }
}

/// A cost in salary-seconds as a currency amount with two decimals, rounded to
/// the nearest cent: `212.50`, `-0.07`.
pub open spec fn cost_of(scaled: int) -> Seq<char> {
    let c = cents_of(scaled);
    let a = if c < 0 { -c } else { c };
    (if c < 0 { "-"@ } else { ""@ }) + decimal((a / 100) as nat) + "."@ + two_digits((a % 100) as nat)
}

/// The text of a cost given in salary-seconds, in currency units with two
/// decimals.
pub fn cost_text(scaled: i128) -> (r: String)
    ensures
        r@ == cost_of(scaled as int),
{
    let magnitude: u128 = if scaled < 0 {
        (-(scaled + 1)) as u128 + 1
    } else {
        scaled as u128
    };
    let cents: u128 = magnitude / 288 + if magnitude % 288 >= 144 {
        1
    } else {
        0
    };
    assert(cents == (magnitude + 144) / 288);
    let mut r = String::new();
    if scaled < 0 && cents > 0 {
        r.append("-");
    } else {
        r.append("");
    }
    push_decimal(&mut r, cents / 100);
    r.append(".");
    push_two_digits(&mut r, cents % 100);
    r
}

} // verus!
