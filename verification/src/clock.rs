//! Timestamps that name the captured files, formatted as `%Y%m%d-%H%M%S`
//! from the fields of a local date and time.

use vstd::prelude::*;

use crate::text::{chars_of, digit_char, string_from_chars};

verus! {

/// Two decimal digits (`%m`, `%d`, `%H`, `%M`, `%S`).
pub open spec fn two_digits(v: nat) -> Seq<char> {
    seq![digit_char(v / 10), digit_char(v % 10)]
}

/// Four decimal digits, zero-padded.
pub open spec fn four_digits(v: nat) -> Seq<char> {
    seq![digit_char(v / 1000), digit_char((v / 100) % 10), digit_char((v / 10) % 10), digit_char(v % 10)]
}

/// The decimal digits of `v`, zero-padded to at least four.
pub open spec fn padded_digits(v: nat) -> Seq<char>
    decreases v,
{
    if v < 10000 {
        four_digits(v)
    } else {
        padded_digits(v / 10).push(digit_char(v % 10))
    }
}

/// The year as `%Y` writes it: four digits, zero-padded, for years 0 to
/// 9999; other years carry their sign (`+` or `-`) before at least four
/// digits.
pub open spec fn year_text(year: int) -> Seq<char> {
    if 0 <= year <= 9999 {
        four_digits(year as nat)
    } else if year > 9999 {
        seq!['+'] + padded_digits(year as nat)
    } else {
        seq!['-'] + padded_digits((-year) as nat)
    }
}

/// `%Y%m%d-%H%M%S` for the given date and time.
pub open spec fn timestamp_text(year: int, month: nat, day: nat, hour: nat, minute: nat, second: nat) -> Seq<char> {
    year_text(year) + two_digits(month) + two_digits(day) + seq!['-'] + two_digits(hour)
        + two_digits(minute) + two_digits(second)
}

fn digit(d: u64) -> (c: char)
    requires
        d < 10,
    ensures
        c == digit_char(d as nat),
{
    if d == 0 { '0' } else if d == 1 { '1' } else if d == 2 { '2' } else if d == 3 { '3' }
    else if d == 4 { '4' } else if d == 5 { '5' } else if d == 6 { '6' } else if d == 7 { '7' }
    else if d == 8 { '8' } else { '9' }
}

fn push_two(out: &mut Vec<char>, v: u32)
    requires
        v < 100,
    ensures
        final(out)@ == old(out)@ + two_digits(v as nat),
{
    out.push(digit((v / 10) as u64));
    out.push(digit((v % 10) as u64));
    assert(out@ =~= old(out)@ + two_digits(v as nat));
}

fn padded_digits_exec(v: u64) -> (r: Vec<char>)
    ensures
        r@ == padded_digits(v as nat),
    decreases v,
{
    if v < 10000 {
        let mut r: Vec<char> = Vec::new();
        r.push(digit(v / 1000));
        r.push(digit((v / 100) % 10));
        r.push(digit((v / 10) % 10));
        r.push(digit(v % 10));
        assert(r@ =~= four_digits(v as nat));
        r
    } else {
        let mut r = padded_digits_exec(v / 10);
        r.push(digit(v % 10));
        r
    }
}

/// Formats a date and time as `%Y%m%d-%H%M%S` (see `timestamp_text`).
pub fn format_timestamp(year: i32, month: u32, day: u32, hour: u32, minute: u32, second: u32) -> (r: String)
    requires
        month < 100,
        day < 100,
        hour < 100,
        minute < 100,
        second < 100,
    ensures
        r@ == timestamp_text(year as int, month as nat, day as nat, hour as nat, minute as nat, second as nat),
{
    let mut out: Vec<char> = Vec::new();
    if 0 <= year && year <= 9999 {
        out = padded_digits_exec(year as u64);
    } else if year > 9999 {
        out.push('+');
        let d = padded_digits_exec(year as u64);
        crate::text::append_chars(&mut out, &d);
    } else {
        out.push('-');
        let magnitude: i64 = -(year as i64);
        let d = padded_digits_exec(magnitude as u64);
        crate::text::append_chars(&mut out, &d);
    }
    assert(out@ =~= year_text(year as int));
    push_two(&mut out, month);
    push_two(&mut out, day);
    out.push('-');
    push_two(&mut out, hour);
    push_two(&mut out, minute);
    push_two(&mut out, second);
    assert(out@ =~= timestamp_text(year as int, month as nat, day as nat, hour as nat, minute as nat, second as nat));
    string_from_chars(&out)
}

/// For years 0 to 9999 the timestamp has a fixed shape: fifteen
/// characters, the date's eight digits, `-`, then the time's six digits.
pub proof fn lemma_timestamp_shape(year: int, month: nat, day: nat, hour: nat, minute: nat, second: nat)
    requires
        0 <= year <= 9999,
    ensures
        timestamp_text(year, month, day, hour, minute, second).len() == 15,
        timestamp_text(year, month, day, hour, minute, second)[8] == '-',
{
    let t = timestamp_text(year, month, day, hour, minute, second);
    assert(year_text(year).len() == 4);
    assert(t[8] == seq!['-'][0]);
}

} // verus!
