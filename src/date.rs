//! Calendar dates and their `YYYY-MM-DD` text.
use vstd::prelude::*;
use vstd::string::*;
use chrono::Datelike;
use crate::text::push_char;

verus! {

/// A calendar date in the local time zone.
#[derive(Debug, Clone, Copy, PartialEq, Eq)]
pub struct LocalDate {
    pub year: i32,
    /// 1 to 12.
    pub month: u32,
    /// 1 to 31.
    pub day: u32,
}

impl LocalDate {
    /// Month and day lie in their calendar ranges.
    pub open spec fn wf(self) -> bool {
        1 <= self.month <= 12 && 1 <= self.day <= 31
    }
}

/// The decimal digit character for `d < 10`.
pub open spec fn digit_char(d: nat) -> char {
    if d == 0 { '0' }
    else if d == 1 { '1' }
    else if d == 2 { '2' }
    else if d == 3 { '3' }
    else if d == 4 { '4' }
    else if d == 5 { '5' }
    else if d == 6 { '6' }
    else if d == 7 { '7' }
    else if d == 8 { '8' }
    else { '9' }
}

/// The decimal digits of `n`, left-padded with zeros to at least `width` characters.
pub open spec fn padded(n: nat, width: nat) -> Seq<char>
    decreases n + width,
{
    if n < 10 && width <= 1 {
        seq![digit_char(n)]
    } else {
        padded(n / 10, if width > 0 { (width - 1) as nat } else { 0 }).push(digit_char(n % 10))
    }
}

/// The year as a calendar shows it: four digits within 0..=9999, else signed.
pub open spec fn year_text(y: int) -> Seq<char> {
    if 0 <= y <= 9999 {
        padded(y as nat, 4)
    } else if y > 9999 {
        seq!['+'] + padded(y as nat, 4)
    } else {
        seq!['-'] + padded((-y) as nat, 4)
    }
}

/// `YYYY-MM-DD`.
pub open spec fn date_text(d: LocalDate) -> Seq<char> {
    year_text(d.year as int) + seq!['-'] + padded(d.month as nat, 2) + seq!['-'] + padded(
        d.day as nat,
        2,
    )
}

fn digit(d: u64) -> (c: char)
    requires
        d < 10,
    ensures
        c == digit_char(d as nat),
{
    match d {
        0 => '0',
        1 => '1',
        2 => '2',
        3 => '3',
        4 => '4',
        5 => '5',
        6 => '6',
        7 => '7',
        8 => '8',
        _ => '9',
    }
}

/// Appends the digits of `n`, zero-padded to `width`.
pub fn push_padded(s: &mut String, n: u64, width: u64)
    ensures
        final(s)@ == old(s)@ + padded(n as nat, width as nat),
    decreases n + width,
{
    if n < 10 && width <= 1 {
        push_char(s, digit(n));
    } else {
        let w: u64 = if width > 0 { width - 1 } else { 0 };
        push_padded(s, n / 10, w);
        push_char(s, digit(n % 10));
        assert(final(s)@ =~= old(s)@ + padded(n as nat, width as nat));
    }
}

/// Renders `d` as `YYYY-MM-DD`.
pub fn format_date(d: &LocalDate) -> (r: String)
    ensures
        r@ == date_text(*d),
{
    let mut r = String::new();
    let y = d.year;
    if 0 <= y && y <= 9999 {
        push_padded(&mut r, y as u64, 4);
    } else if y > 9999 {
        push_char(&mut r, '+');
        push_padded(&mut r, y as u64, 4);
    } else {
        push_char(&mut r, '-');
        let a: i64 = -(y as i64);
        push_padded(&mut r, a as u64, 4);
    }
    push_char(&mut r, '-');
    push_padded(&mut r, d.month as u64, 2);
    push_char(&mut r, '-');
    push_padded(&mut r, d.day as u64, 2);
    assert(r@ =~= date_text(*d));
    r
}

/// Relies on `chrono::Local::now` and `chrono::Datelike`: today's date in the machine's time
/// zone, whose month lies in 1..=12 and day in 1..=31.
#[verifier::external_body]
pub(crate) fn local_today() -> (r: LocalDate)
    ensures
        r.wf(),
{
    let now = chrono::Local::now();
    LocalDate { year: now.year(), month: now.month(), day: now.day() }
}

} // verus!
