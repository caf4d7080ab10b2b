//! Text helpers: decimal rendering and line-ending normalisation.

use vstd::prelude::*;

verus! {

/// `String::push` appends one character to the end of the string.
pub assume_specification[ String::push ](s: &mut String, c: char)
    ensures
        final(s)@ == old(s)@.push(c),
;

/// `String::push_str` appends a string slice to the end of the string.
pub assume_specification[ String::push_str ](s: &mut String, tail: &str)
    ensures
        final(s)@ == old(s)@ + tail@,
;

/// The text with every line feed preceded by a carriage return.
pub open spec fn with_crlf(text: Seq<char>) -> Seq<char>
    decreases text.len(),
{
    if text.len() == 0 {
        Seq::empty()
    } else if text.last() == '\n' {
        with_crlf(text.drop_last()).push('\r').push('\n')
    } else {
        with_crlf(text.drop_last()).push(text.last())
    }
}

/// Rewrites every line feed as a carriage return followed by a line feed.
pub fn to_crlf(text: &str) -> (out: String)
    ensures
        out@ == with_crlf(text@),
{
    let mut out = String::new();
    let ghost mut done: Seq<char> = Seq::empty();
    for c in it: text.chars()
        invariant
            it.seq() == text@,
            done == text@.take(it.index() as int),
            out@ == with_crlf(done),
    {
        proof {
            let next = text@.take(it.index() + 1);
            assert(next.drop_last() == done);
            assert(next.last() == c);
            done = next;
        }
        if c == '\n' {
            out.push('\r');
            out.push('\n');
        } else {
            out.push(c);
        }
    }
    proof {
        assert(text@.take(text@.len() as int) == text@);
    }
    out
}

/// The character that writes the decimal digit `d`.
pub open spec fn digit_char(d: nat) -> char
    recommends
        d < 10,
{
    ((48 + d) as u8) as char
}

/// The decimal numeral of a natural number, without leading zeros.
pub open spec fn decimal_nat(n: nat) -> Seq<char>
    decreases n,
{
    if n < 10 {
        seq![digit_char(n)]
    } else {
        decimal_nat(n / 10).push(digit_char(n % 10))
    }
}

/// The decimal numeral of an integer: a minus sign before the magnitude of a negative one.
pub open spec fn decimal(v: int) -> Seq<char> {
    if v < 0 {
        seq!['-'] + decimal_nat((-v) as nat)
    } else {
        decimal_nat(v as nat)
    }
}

/// Appends the decimal numeral of `n` to `out`.
pub fn push_decimal_nat(out: &mut String, n: u64)
    ensures
        final(out)@ == old(out)@ + decimal_nat(n as nat),
    decreases n,
{
    if n >= 10 {
        push_decimal_nat(out, n / 10);
    }
    let d: u8 = (n % 10) as u8;
    out.push((48u8 + d) as char);
    proof {
        let head = old(out)@;
        if n >= 10 {
            assert(head + decimal_nat(n as nat / 10).push(digit_char(n as nat % 10)) == (head
                + decimal_nat(n as nat / 10)).push(digit_char(n as nat % 10)));
        } else {
            assert(head + seq![digit_char(n as nat)] == head.push(digit_char(n as nat)));
        }
    }
}

/// Appends the decimal numeral of `v` to `out`.
pub fn push_decimal(out: &mut String, v: i32)
    ensures
        final(out)@ == old(out)@ + decimal(v as int),
{
    let wide: i64 = v as i64;
    if wide < 0 {
        out.push('-');
        push_decimal_nat(out, (-wide) as u64);
        proof {
            let head = old(out)@;
            assert(head.push('-') + decimal_nat((-v) as nat) == head + (seq!['-'] + decimal_nat(
                (-v) as nat,
            )));
        }
    } else {
        push_decimal_nat(out, wide as u64);
    }
}

} // verus!
