use vstd::prelude::*;
use vstd::string::StringExecFns;

verus! {

/// A calendar day of the proleptic Gregorian calendar.
#[derive(Clone, Copy, Debug, PartialEq, Eq)]
pub struct Day {
    pub year: u32,
    pub month: u32,
    pub day: u32,
}

pub open spec fn is_leap_year(year: int) -> bool {
    (year % 4 == 0 && year % 100 != 0) || year % 400 == 0
}

pub open spec fn days_in_month(year: int, month: int) -> int {
    if month == 2 {
        if is_leap_year(year) {
            29
        } else {
            28
        }
    } else if month == 4 || month == 6 || month == 9 || month == 11 {
        30
    } else {
        31
    }
}

/// The decimal digit of a number below ten.
pub open spec fn digit_char(n: int) -> char {
    if n == 0 {
        '0'
    } else if n == 1 {
        '1'
    } else if n == 2 {
        '2'
    } else if n == 3 {
        '3'
    } else if n == 4 {
        '4'
    } else if n == 5 {
        '5'
    } else if n == 6 {
        '6'
    } else if n == 7 {
        '7'
    } else if n == 8 {
        '8'
    } else {
        '9'
    }
}

/// A number below 100 as two digits, zero-padded.
pub open spec fn two_digits(n: int) -> Seq<char> {
    seq![digit_char(n / 10), digit_char(n % 10)]
}

/// A number below 10000 as four digits, zero-padded.
pub open spec fn four_digits(n: int) -> Seq<char> {
    seq![digit_char(n / 1000), digit_char((n / 100) % 10), digit_char((n / 10) % 10), digit_char(n % 10)]
}

/// A day written `DD.MM.YYYY`.
pub open spec fn day_text(d: Day) -> Seq<char> {
    two_digits(d.day as int) + seq!['.'] + two_digits(d.month as int) + seq!['.'] + four_digits(
        d.year as int,
    )
}

impl Day {
    /// A real day whose year has at most four digits.
    pub open spec fn wf(self) -> bool {
        &&& self.year <= 9999
        &&& 1 <= self.month <= 12
        &&& 1 <= self.day <= days_in_month(self.year as int, self.month as int)
    }

    /// The day with these numbers, if there is one with a year of at most four digits.
    pub fn new(year: u32, month: u32, day: u32) -> (r: Option<Day>)
        ensures
            (Day { year, month, day }).wf() ==> r == Some(Day { year, month, day }),
            !(Day { year, month, day }).wf() ==> r.is_none(),
    {
        if year > 9999 || month < 1 || month > 12 || day < 1 {
            return None;
        }
        let leap = (year % 4 == 0 && year % 100 != 0) || year % 400 == 0;
        let last: u32 = if month == 2 {
            if leap {
                29
            } else {
                28
            }
        } else if month == 4 || month == 6 || month == 9 || month == 11 {
            30
        } else {
            31
        };
        if day > last {
            None
        } else {
            Some(Day { year, month, day })
        }
    }
}

fn digit(n: u32) -> (r: &'static str)
    requires
        n < 10,
    ensures
        r@ == seq![digit_char(n as int)],
{
    if n == 0 {
        proof { reveal_strlit("0"); }
        "0"
    } else if n == 1 {
        proof { reveal_strlit("1"); }
        "1"
    } else if n == 2 {
        proof { reveal_strlit("2"); }
        "2"
    } else if n == 3 {
        proof { reveal_strlit("3"); }
        "3"
    } else if n == 4 {
        proof { reveal_strlit("4"); }
        "4"
    } else if n == 5 {
        proof { reveal_strlit("5"); }
        "5"
    } else if n == 6 {
        proof { reveal_strlit("6"); }
        "6"
    } else if n == 7 {
        proof { reveal_strlit("7"); }
        "7"
    } else if n == 8 {
        proof { reveal_strlit("8"); }
        "8"
    } else {
        proof { reveal_strlit("9"); }
        "9"
    }
}

/// Writes a day as `DD.MM.YYYY`.
pub fn format_day(d: &Day) -> (r: String)
    requires
        d.wf(),
    ensures
        r@ == day_text(*d),
{
    proof { reveal_strlit("."); }
    let mut r = String::new();
    r.append(digit(d.day / 10));
    r.append(digit(d.day % 10));
    r.append(".");
    r.append(digit(d.month / 10));
    r.append(digit(d.month % 10));
    r.append(".");
    r.append(digit(d.year / 1000));
    r.append(digit((d.year / 100) % 10));
    r.append(digit((d.year / 10) % 10));
    r.append(digit(d.year % 10));
    assert(r@ =~= day_text(*d));
    r
}

} // verus!
