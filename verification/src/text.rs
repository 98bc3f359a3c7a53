//! Text building blocks for messages: decimal numerals and the flattening of
//! a multi-line text into one line.

use vstd::prelude::*;

verus! {

/// `String::push` appends one character at the end and touches nothing else,
/// as the standard library documents.
pub assume_specification[ String::push ](s: &mut String, c: char)
    ensures
        final(s)@ == old(s)@.push(c),
;

/// The character that writes the digit `d`.
pub open spec fn digit(d: int) -> char {
    if d == 0 {
        '0'
    } else if d == 1 {
        '1'
    } else if d == 2 {
        '2'
    } else if d == 3 {
        '3'
    } else if d == 4 {
        '4'
    } else if d == 5 {
        '5'
    } else if d == 6 {
        '6'
    } else if d == 7 {
        '7'
    } else if d == 8 {
        '8'
    } else {
        '9'
    }
}

/// The decimal numeral of a natural number, without leading zeros.
pub open spec fn digits(n: nat) -> Seq<char>
    decreases n,
{
    if n < 10 {
        seq![digit(n as int)]
    } else {
        digits(n / 10).push(digit((n % 10) as int))
    }
}

/// The decimal numeral of an integer: a minus sign before the numeral of the
/// magnitude where the integer is negative.
pub open spec fn decimal_text(n: int) -> Seq<char> {
    if n < 0 {
        seq!['-'] + digits((-n) as nat)
    } else {
        digits(n as nat)
    }
}

fn digit_char(d: u32) -> (res: char)
    requires
        d < 10,
    ensures
        res == digit(d as int),
{
    match d {
        0 => '0',
        1 => '1',
        2 => '2',
        3 => '3',
        4 => '4',
        5 => '5',
        6 => '6',
        7 => '7',
        8 => '8',
        _ => '9',
    }
}

fn push_digits(out: &mut String, n: u32)
    ensures
        final(out)@ == old(out)@ + digits(n as nat),
    decreases n,
{
    if n >= 10 {
        push_digits(out, n / 10);
    }
    out.push(digit_char(n % 10));
}

/// Writes `n` in decimal.
pub fn decimal(n: i32) -> (res: String)
    ensures
        res@ == decimal_text(n as int),
{
    let mut out = String::new();
    let wide: i64 = n as i64;
    if wide < 0 {
        out.push('-');
        push_digits(&mut out, (0 - wide) as u32);
    } else {
        push_digits(&mut out, wide as u32);
    }
    out
}

/// `s` with every line feed replaced by a comma and a space.
pub open spec fn newlines_spread(s: Seq<char>) -> Seq<char>
    decreases s.len(),
{
    if s.len() == 0 {
        Seq::empty()
    } else if s.last() == '\n' {
        newlines_spread(s.drop_last()).push(',').push(' ')
    } else {
        newlines_spread(s.drop_last()).push(s.last())
    }
}

/// Puts a text of several lines on one line: each line feed becomes `", "`.
pub fn spread_newlines(text: &str) -> (res: String)
    ensures
        res@ == newlines_spread(text@),
{
    let mut out = String::new();
    for c in it: text.chars()
        invariant
            it.seq() == text@,
            out@ == newlines_spread(text@.take(it.index())),
    {
        proof {
            let k = it.index();
            assert(text@.take(k + 1).drop_last() == text@.take(k));
            assert(text@.take(k + 1).last() == c);
        }
        if c == '\n' {
            out.push(',');
            out.push(' ');
        } else {
            out.push(c);
        }
    }
    proof {
        assert(text@.take(text@.len() as int) == text@);
    }
    out
}

} // verus!
