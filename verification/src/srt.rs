//! Rendering of timestamps and subtitle blocks as text.

use vstd::prelude::*;
use vstd::string::StringExecFns;

verus! {

/// `String::push` of std: appends one character to the end of the string.
pub assume_specification[ String::push ](s: &mut String, ch: char)
    ensures
        final(s)@ == old(s)@.push(ch),
;

/// The character that stands for a decimal digit.
pub open spec fn spec_digit(d: nat) -> char
    recommends
        d < 10,
{
    if d == 0 {
        '0'
    } else if d == 1 {
        '1'
    } else if d == 2 {
        '2'
    } else if d == 3 {
        '3'
    } else if d == 4 {
        '4'
    } else if d == 5 {
        '5'
    } else if d == 6 {
        '6'
    } else if d == 7 {
        '7'
    } else if d == 8 {
        '8'
    } else {
        '9'
    }
}

/// The decimal numeral of `n`, without leading zeros.
pub open spec fn spec_decimal(n: nat) -> Seq<char>
    decreases n,
{
    if n < 10 {
        seq![spec_digit(n)]
    } else {
        spec_decimal(n / 10).push(spec_digit(n % 10))
    }
}

/// The decimal numeral of `n`, filled with zeros on the left to at least two digits.
pub open spec fn spec_pad2(n: nat) -> Seq<char> {
    if n < 10 {
        seq!['0'] + spec_decimal(n)
    } else {
        spec_decimal(n)
    }
}

/// The decimal numeral of `n`, filled with zeros on the left to at least three digits.
pub open spec fn spec_pad3(n: nat) -> Seq<char> {
    if n < 10 {
        seq!['0', '0'] + spec_decimal(n)
    } else if n < 100 {
        seq!['0'] + spec_decimal(n)
    } else {
        spec_decimal(n)
    }
}

/// The text of a time given in milliseconds: hours, minutes and seconds,
/// each of two digits or more, then the separator and three digits of
/// milliseconds.
pub open spec fn spec_timestamp(millis: nat, comma: bool) -> Seq<char> {
    spec_pad2(millis / 3_600_000) + seq![':'] + spec_pad2((millis % 3_600_000) / 60_000)
        + seq![':'] + spec_pad2((millis % 60_000) / 1000) + seq![if comma {
        ','
    } else {
        '.'
    }] + spec_pad3(millis % 1000)
}

/// The text of one subtitle block: its number, the line with the two times,
/// the text, and an empty line.
pub open spec fn spec_srt(text: Seq<char>, idx: nat, start: nat, end: nat) -> Seq<char> {
    spec_decimal(idx) + seq!['\n'] + spec_timestamp(start, true) + seq![' ', '-', '-', '>', ' ']
        + spec_timestamp(end, true) + seq!['\n'] + text + seq!['\n', '\n']
}

fn digit_char(d: u64) -> (c: char)
    requires
        d < 10,
    ensures
        c == spec_digit(d as nat),
{
    if d == 0 {
        '0'
    } else if d == 1 {
        '1'
    } else if d == 2 {
        '2'
    } else if d == 3 {
        '3'
    } else if d == 4 {
        '4'
    } else if d == 5 {
        '5'
    } else if d == 6 {
        '6'
    } else if d == 7 {
        '7'
    } else if d == 8 {
        '8'
    } else {
        '9'
    }
}

/// Appends the decimal numeral of `n` to `out`.
pub fn push_decimal(out: &mut String, n: u64)
    ensures
        final(out)@ == old(out)@ + spec_decimal(n as nat),
    decreases n,
{
    if n >= 10 {
        push_decimal(out, n / 10);
    }
    out.push(digit_char(n % 10));
}

fn push_pad2(out: &mut String, n: u64)
    ensures
        final(out)@ == old(out)@ + spec_pad2(n as nat),
{
    if n < 10 {
        out.push('0');
    }
    push_decimal(out, n);
}

fn push_pad3(out: &mut String, n: u64)
    ensures
        final(out)@ == old(out)@ + spec_pad3(n as nat),
{
    if n < 100 {
        out.push('0');
    }
    if n < 10 {
        out.push('0');
    }
    push_decimal(out, n);
}

fn push_timestamp(out: &mut String, millis: u64, comma: bool)
    ensures
        final(out)@ == old(out)@ + spec_timestamp(millis as nat, comma),
{
    let hr: u64 = millis / 3_600_000;
    let min: u64 = (millis % 3_600_000) / 60_000;
    let sec: u64 = (millis % 60_000) / 1000;
    let msec: u64 = millis % 1000;
    push_pad2(out, hr);
    out.push(':');
    push_pad2(out, min);
    out.push(':');
    push_pad2(out, sec);
    out.push(if comma { ',' } else { '.' });
    push_pad3(out, msec);
}

/// Renders a time given in milliseconds as `HH:MM:SS,mmm`, or with a full
/// stop before the milliseconds where `comma` is false.
pub fn to_timestamp(millis: u64, comma: bool) -> (text: String)
    ensures
        text@ == spec_timestamp(millis as nat, comma),
{
    let mut out = String::new();
    push_timestamp(&mut out, millis, comma);
    out
}

/// Renders one subtitle block: the block's number, the line with its start
/// and end times in milliseconds, the text, and an empty line.
pub fn format_srt(text: &str, idx: usize, start_millis: u64, end_millis: u64) -> (block: String)
    ensures
        block@ == spec_srt(text@, idx as nat, start_millis as nat, end_millis as nat),
{
    let mut out = String::new();
    push_decimal(&mut out, idx as u64);
    out.push('\n');
    push_timestamp(&mut out, start_millis, true);
    out.push(' ');
    out.push('-');
    out.push('-');
    out.push('>');
    out.push(' ');
    push_timestamp(&mut out, end_millis, true);
    out.push('\n');
    out.append(text);
    out.push('\n');
    out.push('\n');
    out
}

} // verus!
