//! Building blocks for fixed-width text: decimal numbers, runs of one
//! character, and centring.

use vstd::prelude::*;
use vstd::string::*;
use crate::error::LayoutError;

verus! {

/// `String::push` of the standard library: appends one character to the end
/// of the string and leaves the rest as it was.
pub assume_specification[ String::push ](s: &mut String, c: char)
    ensures
        final(s)@ == old(s)@.push(c),
;

/// The character that shows the digit `d`.
pub open spec fn digit_char(d: nat) -> char
    recommends
        d < 10,
{
    seq!['0', '1', '2', '3', '4', '5', '6', '7', '8', '9'][d as int]
}

/// Whether `c` is one of the ten decimal digits.
pub open spec fn is_digit(c: char) -> bool {
    c == '0' || c == '1' || c == '2' || c == '3' || c == '4' || c == '5' || c == '6' || c == '7'
        || c == '8' || c == '9'
}

/// Whether `text` is a numeral: at least one character, and digits only.
pub open spec fn is_numeral(text: Seq<char>) -> bool {
    text.len() > 0 && forall|i: int| 0 <= i < text.len() ==> is_digit(#[trigger] text[i])
}

/// The decimal numeral of `n`: most significant digit first, no leading
/// zero, and `"0"` for zero.
pub open spec fn decimal(n: nat) -> Seq<char>
    decreases n,
{
    if n < 10 {
        seq![digit_char(n)]
    } else {
        decimal(n / 10).push(digit_char(n % 10))
    }
}

/// `count` copies of the character `c`.
pub open spec fn run(c: char, count: nat) -> Seq<char> {
    Seq::new(count, |i: int| c)
}

/// `text` between spaces, so that the whole is `width` long; where the space
/// left over is odd, the extra space stands on the right.
pub open spec fn centered(text: Seq<char>, width: nat) -> Seq<char>
    recommends
        text.len() <= width,
{
    let left = (width - text.len()) / 2;
    let right = (width - text.len()) - left;
    run(' ', left as nat) + text + run(' ', right as nat)
}

/// The decimal numeral of any number is a numeral.
pub proof fn lemma_decimal_is_numeral(n: nat)
    ensures
        is_numeral(decimal(n)),
    decreases n,
{
    if n >= 10 {
        lemma_decimal_is_numeral(n / 10);
    }
}

/// The character that shows the digit `d`.
pub(crate) fn digit(d: u8) -> (c: char)
    requires
        d < 10,
    ensures
        c == digit_char(d as nat),
{
    match d {
        0 => '0',
        1 => '1',
        2 => '2',
        3 => '3',
        4 => '4',
        5 => '5',
        6 => '6',
        7 => '7',
        8 => '8',
        _ => '9',
    }
}

/// Appends the decimal numeral of `n` to `out`.
pub fn push_decimal(out: &mut String, n: u128)
    ensures
        final(out)@ == old(out)@ + decimal(n as nat),
    decreases n,
{
    if n >= 10 {
        push_decimal(out, n / 10);
    }
    out.push(digit((n % 10) as u8));
}

/// Appends `count` copies of `c` to `out`.
pub fn push_run(out: &mut String, c: char, count: usize)
    ensures
        final(out)@ == old(out)@ + run(c, count as nat),
{
    let mut done: usize = 0;
    while done < count
        invariant
            done <= count,
            out@ == old(out)@ + run(c, done as nat),
        decreases count - done,
    {
        out.push(c);
        done += 1;
    }
}

/// Centres `text` in a line of `width` characters. A text longer than the
/// line is refused: nothing is cut off.
pub fn center_string(text: &str, width: usize) -> (result: Result<String, LayoutError>)
    ensures
        text@.len() > width ==> result == Err::<String, LayoutError>(LayoutError::HeaderOverflow),
        text@.len() <= width ==> result is Ok && result->Ok_0@ == centered(text@, width as nat),
        result is Ok ==> result->Ok_0@.len() == width,
{
    let length = text.unicode_len();
    if length > width {
        return Err(LayoutError::HeaderOverflow);
    }
    let left = (width - length) / 2;
    let right = (width - length) - left;
    let mut line = String::new();
    push_run(&mut line, ' ', left);
    line.append(text);
    push_run(&mut line, ' ', right);
    Ok(line)
}

} // verus!
