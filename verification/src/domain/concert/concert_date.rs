//! The validated concert date: a calendar date written as a four-digit
//! year, two-digit month and two-digit day separated by dashes.

use vstd::prelude::*;
use vstd::string::StrSliceExecFns;
use vstd::string::StringExecFns;

verus! {

/// A calendar date as plain values, in the proleptic Gregorian calendar.
#[derive(Clone, Copy, Debug, PartialEq, Eq, Structural)]
pub struct DateYmd {
    pub year: u16,
    pub month: u8,
    pub day: u8,
}

pub open spec fn is_leap_year(y: int) -> bool {
    (y % 4 == 0 && y % 100 != 0) || y % 400 == 0
}

pub open spec fn days_in_month(y: int, m: int) -> int {
    if m == 2 {
        if is_leap_year(y) {
            29
        } else {
            28
        }
    } else if m == 4 || m == 6 || m == 9 || m == 11 {
        30
    } else {
        31
    }
}

impl DateYmd {
    /// An actual calendar date with a four-digit year: months and days
    /// start at 1, and the day exists in its month.
    pub open spec fn wf(self) -> bool {
        &&& self.year <= 9999
        &&& 1 <= self.month <= 12
        &&& 1 <= self.day <= days_in_month(self.year as int, self.month as int)
    }
}

pub open spec fn is_digit_char(c: char) -> bool {
    0x30 <= c as u32 <= 0x39
}

pub open spec fn digit_value(c: char) -> int {
    c as u32 - 0x30
}

pub open spec fn digit_char(d: int) -> char {
    (0x30 + d) as char
}

/// The shape `YYYY-MM-DD`: ten characters, digits in the year, month and
/// day positions, dashes between them.
pub open spec fn is_date_shaped(s: Seq<char>) -> bool {
    &&& s.len() == 10
    &&& is_digit_char(s[0]) && is_digit_char(s[1]) && is_digit_char(s[2]) && is_digit_char(s[3])
    &&& s[4] == '-'
    &&& is_digit_char(s[5]) && is_digit_char(s[6])
    &&& s[7] == '-'
    &&& is_digit_char(s[8]) && is_digit_char(s[9])
}

/// The date a `YYYY-MM-DD` string spells, meaningful when the string is
/// date-shaped.
pub open spec fn date_of_chars(s: Seq<char>) -> DateYmd
    recommends
        is_date_shaped(s),
{
    DateYmd {
        year: (digit_value(s[0]) * 1000 + digit_value(s[1]) * 100 + digit_value(s[2]) * 10
            + digit_value(s[3])) as u16,
        month: (digit_value(s[5]) * 10 + digit_value(s[6])) as u8,
        day: (digit_value(s[8]) * 10 + digit_value(s[9])) as u8,
    }
}

/// A date string is valid when it has the `YYYY-MM-DD` shape and spells
/// an actual calendar date; impossible dates such as month 13 fail.
pub open spec fn is_valid_date_string(s: Seq<char>) -> bool {
    is_date_shaped(s) && date_of_chars(s).wf()
}

/// The canonical `YYYY-MM-DD` spelling of a date.
pub open spec fn date_chars_of(d: DateYmd) -> Seq<char>
    recommends
        d.wf(),
{
    seq![
        digit_char(d.year as int / 1000),
        digit_char((d.year as int / 100) % 10),
        digit_char((d.year as int / 10) % 10),
        digit_char(d.year as int % 10),
        '-',
        digit_char(d.month as int / 10),
        digit_char(d.month as int % 10),
        '-',
        digit_char(d.day as int / 10),
        digit_char(d.day as int % 10),
    ]
}

proof fn lemma_digit_char_of_value(c: char)
    requires
        is_digit_char(c),
    ensures
        digit_char(digit_value(c)) == c,
{
    assert(0 <= digit_value(c) <= 9);
    assert(0x30 + digit_value(c) == c as u32 as int);
    assert(digit_char(digit_value(c)) as u32 == 0x30 + digit_value(c));
    assert(digit_char(digit_value(c)) as u32 == c as u32);
    assert(((c as u32) as char) == c);
    assert((digit_char(digit_value(c)) as u32) as char == digit_char(digit_value(c)));
}

/// Parsing is left inverse to spelling: a date-shaped string is the
/// canonical spelling of the date it spells. In particular a parsed date,
/// written back out, reproduces the input exactly.
#[verifier::rlimit(60)]
pub proof fn lemma_date_string_round_trip(s: Seq<char>)
    requires
        is_date_shaped(s),
    ensures
        date_chars_of(date_of_chars(s)) == s,
{
    let d = date_of_chars(s);
    let y = digit_value(s[0]) * 1000 + digit_value(s[1]) * 100 + digit_value(s[2]) * 10
        + digit_value(s[3]);
    assert(0 <= y <= 9999);
    assert(d.year == y);
    assert(y / 1000 == digit_value(s[0]));
    assert((y / 100) % 10 == digit_value(s[1]));
    assert((y / 10) % 10 == digit_value(s[2]));
    assert(y % 10 == digit_value(s[3]));
    let m = digit_value(s[5]) * 10 + digit_value(s[6]);
    assert(0 <= m <= 99);
    assert(d.month == m);
    assert(m / 10 == digit_value(s[5]));
    assert(m % 10 == digit_value(s[6]));
    let dy = digit_value(s[8]) * 10 + digit_value(s[9]);
    assert(0 <= dy <= 99);
    assert(d.day == dy);
    assert(dy / 10 == digit_value(s[8]));
    assert(dy % 10 == digit_value(s[9]));
    lemma_digit_char_of_value(s[0]);
    lemma_digit_char_of_value(s[1]);
    lemma_digit_char_of_value(s[2]);
    lemma_digit_char_of_value(s[3]);
    lemma_digit_char_of_value(s[5]);
    lemma_digit_char_of_value(s[6]);
    lemma_digit_char_of_value(s[8]);
    lemma_digit_char_of_value(s[9]);
    assert(date_chars_of(d) =~= s);
}

/// Spelling is left inverse to parsing: the canonical spelling of an
/// actual calendar date is a valid date string, and it spells that same
/// date back.
pub proof fn lemma_date_round_trip(d: DateYmd)
    requires
        d.wf(),
    ensures
        is_valid_date_string(date_chars_of(d)),
        date_of_chars(date_chars_of(d)) == d,
{
    let s = date_chars_of(d);
    let y = d.year as int;
    assert(y == (y / 1000) * 1000 + ((y / 100) % 10) * 100 + ((y / 10) % 10) * 10 + y % 10);
    let m = d.month as int;
    assert(m == (m / 10) * 10 + m % 10);
    let dy = d.day as int;
    assert(dy == (dy / 10) * 10 + dy % 10);
    assert(is_date_shaped(s));
    assert(date_of_chars(s) == d);
}

fn digit_of(c: char) -> (r: Option<u8>)
    ensures
        r is Some <==> is_digit_char(c),
        r matches Some(d) ==> d == digit_value(c) && d <= 9,
{
    let u = c as u32;
    if 0x30 <= u && u <= 0x39 {
        Some((u - 0x30) as u8)
    } else {
        None
    }
}

fn days_in_month_of(year: u16, month: u8) -> (d: u8)
    requires
        1 <= month <= 12,
    ensures
        d == days_in_month(year as int, month as int),
{
    if month == 2 {
        if (year % 4 == 0 && year % 100 != 0) || year % 400 == 0 {
            29
        } else {
            28
        }
    } else if month == 4 || month == 6 || month == 9 || month == 11 {
        30
    } else {
        31
    }
}

/// The date a concert takes place on. There is no other constructor than
/// `parse`, so every value in circulation holds an actual calendar date
/// together with its canonical `YYYY-MM-DD` spelling.
#[derive(Debug)]
pub struct ConcertDate {
    text: String,
    date: DateYmd,
}

impl View for ConcertDate {
    type V = Seq<char>;

    closed spec fn view(&self) -> Seq<char> {
        self.text@
    }
}

impl ConcertDate {
    #[verifier::type_invariant]
    spec fn inv(self) -> bool {
        self.date.wf() && self.text@ == date_chars_of(self.date)
    }

    pub closed spec fn spec_date(self) -> DateYmd {
        self.date
    }

    pub fn parse(s: String) -> (r: Result<ConcertDate, String>)
        ensures
            r is Ok <==> is_valid_date_string(s@),
            r matches Ok(date) ==> date@ == s@ && date.spec_date() == date_of_chars(s@),
    {
        if s.as_str().unicode_len() != 10 {
            return Err(s.concat(" is not a valid concert date"));
        }
        if s.as_str().get_char(4) != '-' || s.as_str().get_char(7) != '-' {
            return Err(s.concat(" is not a valid concert date"));
        }
        let d0 = digit_of(s.as_str().get_char(0));
        let d1 = digit_of(s.as_str().get_char(1));
        let d2 = digit_of(s.as_str().get_char(2));
        let d3 = digit_of(s.as_str().get_char(3));
        let d5 = digit_of(s.as_str().get_char(5));
        let d6 = digit_of(s.as_str().get_char(6));
        let d8 = digit_of(s.as_str().get_char(8));
        let d9 = digit_of(s.as_str().get_char(9));
        match (d0, d1, d2, d3, d5, d6, d8, d9) {
            (
                Some(d0),
                Some(d1),
                Some(d2),
                Some(d3),
                Some(d5),
                Some(d6),
                Some(d8),
                Some(d9),
            ) => {
                let year: u16 = (d0 as u16) * 1000 + (d1 as u16) * 100 + (d2 as u16) * 10
                    + (d3 as u16);
                let month: u8 = d5 * 10 + d6;
                let day: u8 = d8 * 10 + d9;
                let ghost spelled = date_of_chars(s@);
                proof {
                    assert(is_date_shaped(s@));
                    assert(spelled.year == year && spelled.month == month && spelled.day == day);
                }
                if month < 1 || month > 12 {
                    return Err(s.concat(" is not a valid concert date"));
                }
                let most = days_in_month_of(year, month);
                if day < 1 || day > most {
                    return Err(s.concat(" is not a valid concert date"));
                }
                let date = DateYmd { year, month, day };
                proof {
                    lemma_date_string_round_trip(s@);
                }
                Ok(ConcertDate { text: s, date })
            },
            _ => Err(s.concat(" is not a valid concert date")),
        }
    }

    /// The date itself, as plain year, month and day.
    pub fn date(&self) -> (d: DateYmd)
        ensures
            d == self.spec_date(),
            d.wf(),
    {
        proof {
            use_type_invariant(self);
        }
        self.date
    }

    /// The canonical `YYYY-MM-DD` spelling.
    pub fn as_str(&self) -> (r: &str)
        ensures
            r@ == self@,
            self@ == date_chars_of(self.spec_date()),
            self.spec_date().wf(),
    {
        proof {
            use_type_invariant(self);
        }
        self.text.as_str()
    }
}

} // verus!
