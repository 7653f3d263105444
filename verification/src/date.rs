//! Calendar dates as plain values, and the fixed-width decimal formatting
//! used to stamp a date into a cache file name.

use vstd::prelude::*;
use vstd::string::StringExecFns;
use chrono::Datelike;

verus! {

/// A calendar date (proleptic Gregorian, UTC).
#[derive(Clone, Copy, PartialEq, Eq, Structural, Debug)]
pub struct UtcDate {
    pub year: u32,
    pub month: u32,
    pub day: u32,
}

impl UtcDate {
    /// Dates the library can stamp into a file name: a four-digit year and
    /// the field ranges a calendar guarantees.
    pub open spec fn wf(self) -> bool {
        &&& self.year <= 9999
        &&& 1 <= self.month <= 12
        &&& 1 <= self.day <= 31
    }

    pub fn new(year: u32, month: u32, day: u32) -> (r: UtcDate)
        requires
            year <= 9999,
            1 <= month <= 12,
            1 <= day <= 31,
        ensures
            r.wf(),
            r == (UtcDate { year, month, day }),
    {
        UtcDate { year, month, day }
    }
}

/// The character for one decimal digit.
pub open spec fn digit_char(d: int) -> char {
    if d == 0 {
        '0'
    } else if d == 1 {
        '1'
    } else if d == 2 {
        '2'
    } else if d == 3 {
        '3'
    } else if d == 4 {
        '4'
    } else if d == 5 {
        '5'
    } else if d == 6 {
        '6'
    } else if d == 7 {
        '7'
    } else if d == 8 {
        '8'
    } else {
        '9'
    }
}

/// A value below 100 written as exactly two decimal digits, zero padded.
pub open spec fn two_digits(v: int) -> Seq<char> {
    seq![digit_char(v / 10), digit_char(v % 10)]
}

/// A value below 10000 written as exactly four decimal digits, zero padded.
pub open spec fn four_digits(v: int) -> Seq<char> {
    seq![
        digit_char(v / 1000),
        digit_char(v / 100 % 10),
        digit_char(v / 10 % 10),
        digit_char(v % 10),
    ]
}

/// The `YYYYMMDD` stamp for a date.
pub open spec fn date_code(d: UtcDate) -> Seq<char> {
    four_digits(d.year as int) + two_digits(d.month as int) + two_digits(d.day as int)
}

proof fn lemma_digit_char_inj(a: int, b: int)
    requires
        0 <= a < 10,
        0 <= b < 10,
        digit_char(a) == digit_char(b),
    ensures
        a == b,
{
}

/// Two-digit stamps of distinct values below 100 are distinct.
proof fn lemma_two_digits_inj(a: u32, b: u32)
    requires
        a < 100,
        b < 100,
        two_digits(a as int) == two_digits(b as int),
    ensures
        a == b,
{
    lemma_digit_char_inj(a as int / 10, b as int / 10);
    lemma_digit_char_inj(a as int % 10, b as int % 10);
    assert(a == b) by (bit_vector)
        requires
            a < 100,
            b < 100,
            a / 10 == b / 10,
            a % 10 == b % 10,
    ;
}

/// Four-digit stamps of distinct values below 10000 are distinct.
proof fn lemma_four_digits_inj(a: u32, b: u32)
    requires
        a < 10000,
        b < 10000,
        four_digits(a as int) == four_digits(b as int),
    ensures
        a == b,
{
    lemma_digit_char_inj(a as int / 1000, b as int / 1000);
    lemma_digit_char_inj(a as int / 100 % 10, b as int / 100 % 10);
    lemma_digit_char_inj(a as int / 10 % 10, b as int / 10 % 10);
    lemma_digit_char_inj(a as int % 10, b as int % 10);
    assert(a == b) by (bit_vector)
        requires
            a < 10000,
            b < 10000,
            a / 1000 == b / 1000,
            a / 100 % 10 == b / 100 % 10,
            a / 10 % 10 == b / 10 % 10,
            a % 10 == b % 10,
    ;
}

/// Distinct dates have distinct `YYYYMMDD` stamps.
pub proof fn lemma_date_code_inj(d1: UtcDate, d2: UtcDate)
    requires
        d1.wf(),
        d2.wf(),
        date_code(d1) == date_code(d2),
    ensures
        d1 == d2,
{
    let c1 = date_code(d1);
    let c2 = date_code(d2);
    assert(four_digits(d1.year as int) =~= c1.subrange(0, 4));
    assert(two_digits(d1.month as int) =~= c1.subrange(4, 6));
    assert(two_digits(d1.day as int) =~= c1.subrange(6, 8));
    assert(four_digits(d2.year as int) =~= c2.subrange(0, 4));
    assert(two_digits(d2.month as int) =~= c2.subrange(4, 6));
    assert(two_digits(d2.day as int) =~= c2.subrange(6, 8));
    lemma_four_digits_inj(d1.year, d2.year);
    lemma_two_digits_inj(d1.month, d2.month);
    lemma_two_digits_inj(d1.day, d2.day);
}

fn digit_str(d: u32) -> (r: &'static str)
    requires
        d < 10,
    ensures
        r@ == seq![digit_char(d as int)],
{
    proof {
        reveal_strlit("0");
        reveal_strlit("1");
        reveal_strlit("2");
        reveal_strlit("3");
        reveal_strlit("4");
        reveal_strlit("5");
        reveal_strlit("6");
        reveal_strlit("7");
        reveal_strlit("8");
        reveal_strlit("9");
    }
    let r: &'static str = match d {
        0 => "0",
        1 => "1",
        2 => "2",
        3 => "3",
        4 => "4",
        5 => "5",
        6 => "6",
        7 => "7",
        8 => "8",
        _ => "9",
    };
    proof {
        assert(r@ =~= seq![digit_char(d as int)]);
    }
    r
}

/// Appends a value below 100 as exactly two decimal digits.
pub fn push_two_digits(s: &mut String, v: u32)
    requires
        v < 100,
    ensures
        final(s)@ == old(s)@ + two_digits(v as int),
{
    s.append(digit_str(v / 10));
    s.append(digit_str(v % 10));
    proof {
        assert(s@ =~= old(s)@ + two_digits(v as int));
    }
}

/// Appends a value below 10000 as exactly four decimal digits.
pub fn push_four_digits(s: &mut String, v: u32)
    requires
        v < 10000,
    ensures
        final(s)@ == old(s)@ + four_digits(v as int),
{
    s.append(digit_str(v / 1000));
    s.append(digit_str(v / 100 % 10));
    s.append(digit_str(v / 10 % 10));
    s.append(digit_str(v % 10));
    proof {
        assert(s@ =~= old(s)@ + four_digits(v as int));
    }
}

/// Appends the `YYYYMMDD` stamp of a date.
pub fn push_date_code(s: &mut String, d: &UtcDate)
    requires
        d.wf(),
    ensures
        final(s)@ == old(s)@ + date_code(*d),
{
    push_four_digits(s, d.year);
    push_two_digits(s, d.month);
    push_two_digits(s, d.day);
    proof {
        assert(s@ =~= old(s)@ + date_code(*d));
    }
}

/// Relies on chrono's `Utc::now` and `Datelike`: the month number ranges
/// from 1 to 12 and the day of month from 1 to 31. Nothing is promised of
/// the year, which follows the system clock.
#[verifier::external_body]
fn utc_today_fields() -> (r: (i32, u32, u32))
    ensures
        1 <= r.1 <= 12,
        1 <= r.2 <= 31,
{
    let d = chrono::Utc::now().date_naive();
    (d.year(), d.month(), d.day())
}

/// Today's UTC date, with the year clamped into the four-digit range the
/// file-name stamp can hold.
pub fn today_utc() -> (r: UtcDate)
    ensures
        r.wf(),
{
    let (y, m, d) = utc_today_fields();
    let year: u32 = if y < 0 {
        0
    } else if y > 9999 {
        9999
    } else {
        y as u32
    };
    UtcDate { year, month: m, day: d }
}

} // verus!
