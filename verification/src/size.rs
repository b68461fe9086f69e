//! The size field of a line: a byte count in decimal, right-aligned in a
//! field of five characters and never cut short.

use vstd::prelude::*;

verus! {

/// The width that a size is padded to.
pub const SIZE_WIDTH: usize = 5;

/// The character of a single decimal digit.
pub open spec fn digit_char(d: nat) -> char
    recommends
        d < 10,
{
    if d == 0 {
        '0'
    } else if d == 1 {
        '1'
    } else if d == 2 {
        '2'
    } else if d == 3 {
        '3'
    } else if d == 4 {
        '4'
    } else if d == 5 {
        '5'
    } else if d == 6 {
        '6'
    } else if d == 7 {
        '7'
    } else if d == 8 {
        '8'
    } else {
        '9'
    }
}

/// The digit that a character stands for; 0 for a character that is no digit.
pub open spec fn digit_value(c: char) -> nat {
    if c == '1' {
        1
    } else if c == '2' {
        2
    } else if c == '3' {
        3
    } else if c == '4' {
        4
    } else if c == '5' {
        5
    } else if c == '6' {
        6
    } else if c == '7' {
        7
    } else if c == '8' {
        8
    } else if c == '9' {
        9
    } else {
        0
    }
}

/// Whether `c` is a decimal digit.
pub open spec fn is_digit(c: char) -> bool {
    '0' <= c && c <= '9'
}

/// The decimal numeral of `n`, most significant digit first, without
/// leading zeros.
pub open spec fn decimal_text(n: nat) -> Seq<char>
    decreases n,
{
    if n < 10 {
        seq![digit_char(n)]
    } else {
        decimal_text(n / 10).push(digit_char(n % 10))
    }
}

/// The number that a sequence of digits denotes.
pub open spec fn decimal_value(text: Seq<char>) -> nat
    decreases text.len(),
{
    if text.len() == 0 {
        0
    } else {
        10 * decimal_value(text.drop_last()) + digit_value(text.last())
    }
}

/// `count` spaces.
pub open spec fn spaces(count: nat) -> Seq<char> {
    Seq::new(count, |i: int| ' ')
}

/// `text` with as many spaces in front as bring it to `width` characters; a
/// text that is at least that long stays as it is.
pub open spec fn right_aligned(text: Seq<char>, width: nat) -> Seq<char> {
    if text.len() >= width {
        text
    } else {
        spaces((width - text.len()) as nat) + text
    }
}

/// The size field of a byte count.
pub open spec fn size_text(size: u64) -> Seq<char> {
    right_aligned(decimal_text(size as nat), SIZE_WIDTH as nat)
}

fn digit(d: u64) -> (text: &'static str)
    requires
        d < 10,
    ensures
        text@ == seq![digit_char(d as nat)],
{
    let text = if d == 0 {
        "0"
    } else if d == 1 {
        "1"
    } else if d == 2 {
        "2"
    } else if d == 3 {
        "3"
    } else if d == 4 {
        "4"
    } else if d == 5 {
        "5"
    } else if d == 6 {
        "6"
    } else if d == 7 {
        "7"
    } else if d == 8 {
        "8"
    } else {
        "9"
    };
    proof {
        reveal_strlit("0");
        reveal_strlit("1");
        reveal_strlit("2");
        reveal_strlit("3");
        reveal_strlit("4");
        reveal_strlit("5");
        reveal_strlit("6");
        reveal_strlit("7");
        reveal_strlit("8");
        reveal_strlit("9");
        assert(text@ =~= seq![digit_char(d as nat)]);
    }
    text
}

/// Writes `n` in decimal.
pub fn decimal(n: u64) -> (text: String)
    ensures
        text@ == decimal_text(n as nat),
    decreases n,
{
    if n < 10 {
        String::from_str(digit(n))
    } else {
        let mut text = decimal(n / 10);
        text.append(digit(n % 10));
        assert(text@ =~= decimal_text(n as nat));
        text
    }
}

/// Pads `text` on the left with spaces to `width` characters.
pub fn right_align(text: &str, width: usize) -> (padded: String)
    ensures
        padded@ == right_aligned(text@, width as nat),
{
    let len = text.unicode_len();
    let mut padded = String::new();
    let mut at: usize = len;
    while at < width
        invariant
            len == text@.len(),
            len <= at,
            at <= width || at == len,
            padded@ == spaces((at - len) as nat),
        decreases width - at,
    {
        proof {
            reveal_strlit(" ");
        }
        padded.append(" ");
        at = at + 1;
        assert(padded@ =~= spaces((at - len) as nat));
    }
    padded.append(text);
    assert(padded@ =~= right_aligned(text@, width as nat));
    padded
}

/// Renders a byte count as the size field of a line.
pub fn size_field(size: u64) -> (text: String)
    ensures
        text@ == size_text(size),
{
    let digits = decimal(size);
    right_align(digits.as_str(), SIZE_WIDTH)
}

/// A decimal numeral is not empty and holds digits only.
pub proof fn decimal_text_is_digits(n: nat)
    ensures
        decimal_text(n).len() >= 1,
        forall|i: int| 0 <= i < decimal_text(n).len() ==> is_digit(#[trigger] decimal_text(n)[i]),
    decreases n,
{
    if n >= 10 {
        decimal_text_is_digits(n / 10);
    }
}

/// A decimal numeral denotes the number it was written for.
pub proof fn decimal_text_denotes(n: nat)
    ensures
        decimal_value(decimal_text(n)) == n,
    decreases n,
{
    if n < 10 {
        let text = decimal_text(n);
        assert(text.drop_last().len() == 0);
        assert(decimal_value(text.drop_last()) == 0);
    } else {
        decimal_text_denotes(n / 10);
        let text = decimal_text(n);
        assert(text.drop_last() =~= decimal_text(n / 10));
        assert(text.last() == digit_char(n % 10));
    }
}

/// A numeral begins with the digit zero only where the number is zero.
pub proof fn decimal_text_leading(n: nat)
    ensures
        decimal_text(n)[0] == '0' <==> n == 0,
    decreases n,
{
    if n >= 10 {
        decimal_text_leading(n / 10);
        decimal_text_is_digits(n / 10);
    }
}

/// The size field is the numeral with nothing but spaces in front: five
/// characters wide where the numeral has at most five digits, and as wide as
/// the numeral where it has more.
pub proof fn size_text_layout(size: u64)
    ensures
        size_text(size).len() == if decimal_text(size as nat).len() <= 5 {
            5
        } else {
            decimal_text(size as nat).len()
        },
        size_text(size).len() >= 5,
        forall|i: int|
            0 <= i < size_text(size).len() - decimal_text(size as nat).len() ==> #[trigger] size_text(
                size,
            )[i] == ' ',
        size_text(size).skip(size_text(size).len() - decimal_text(size as nat).len())
            == decimal_text(size as nat),
{
    let numeral = decimal_text(size as nat);
    let field = size_text(size);
    decimal_text_is_digits(size as nat);
    assert(field.skip(field.len() - numeral.len()) =~= numeral);
}

/// The size field of an empty file: four spaces and the digit zero.
pub proof fn size_text_of_zero()
    ensures
        size_text(0) == seq![' ', ' ', ' ', ' ', '0'],
{
    assert(decimal_text(0) =~= seq!['0']);
    assert(size_text(0) =~= seq![' ', ' ', ' ', ' ', '0']);
}

} // verus!
