//! Calendar days and their labels, the key of the daily record log.

use vstd::prelude::*;

verus! {

/// Gregorian leap-year rule.
pub open spec fn is_leap_year(y: int) -> bool {
    (y % 4 == 0 && y % 100 != 0) || y % 400 == 0
}

pub open spec fn days_in_month(y: int, m: int) -> int {
    if m == 2 {
        if is_leap_year(y) {
            29
        } else {
            28
        }
    } else if m == 4 || m == 6 || m == 9 || m == 11 {
        30
    } else {
        31
    }
}

/// A day of the proleptic Gregorian calendar with a four-digit year.
pub open spec fn is_valid_date(y: int, m: int, d: int) -> bool {
    1 <= y <= 9999 && 1 <= m <= 12 && 1 <= d <= days_in_month(y, m)
}

/// The decimal digit `n`, for `0 <= n < 10`.
pub open spec fn digit_char(n: int) -> char {
    seq!['0', '1', '2', '3', '4', '5', '6', '7', '8', '9'][n]
}

/// The English three-letter name of month `m`, for `1 <= m <= 12`.
pub open spec fn month_abbrev(m: int) -> Seq<char> {
    seq![
        seq!['J', 'a', 'n'],
        seq!['F', 'e', 'b'],
        seq!['M', 'a', 'r'],
        seq!['A', 'p', 'r'],
        seq!['M', 'a', 'y'],
        seq!['J', 'u', 'n'],
        seq!['J', 'u', 'l'],
        seq!['A', 'u', 'g'],
        seq!['S', 'e', 'p'],
        seq!['O', 'c', 't'],
        seq!['N', 'o', 'v'],
        seq!['D', 'e', 'c'],
    ][m - 1]
}

/// The label `"DD Mon YYYY"` of a day: two-digit day, English month
/// abbreviation, four-digit year.
pub open spec fn day_label_chars(y: int, m: int, d: int) -> Seq<char> {
    seq![digit_char(d / 10), digit_char(d % 10), ' '] + month_abbrev(m) + seq![
        ' ',
        digit_char(y / 1000),
        digit_char((y / 100) % 10),
        digit_char((y / 10) % 10),
        digit_char(y % 10),
    ]
}

/// Relies on chrono's `NaiveDate::from_ymd_opt`, which gives a date for every
/// valid year, month and day, and on its `format("%d %b %Y")`: the day
/// zero-padded to two digits, the English month abbreviation, and the year
/// zero-padded to four digits.
#[verifier::external_body]
fn chrono_day_label(year: i32, month: u32, day: u32) -> (r: String)
    requires
        is_valid_date(year as int, month as int, day as int),
    ensures
        r@ == day_label_chars(year as int, month as int, day as int),
{
    chrono::NaiveDate::from_ymd_opt(year, month, day).unwrap().format("%d %b %Y").to_string()
}

/// A valid calendar day.
pub struct CalendarDate {
    year: i32,
    month: u32,
    day: u32,
}

impl CalendarDate {
    #[verifier::type_invariant]
    spec fn valid(&self) -> bool {
        is_valid_date(self.year as int, self.month as int, self.day as int)
    }

    pub closed spec fn year_spec(&self) -> int {
        self.year as int
    }

    pub closed spec fn month_spec(&self) -> int {
        self.month as int
    }

    pub closed spec fn day_spec(&self) -> int {
        self.day as int
    }

    /// The day `year`-`month`-`day`, or `None` where no such day exists.
    pub fn new(year: i32, month: u32, day: u32) -> (r: Option<CalendarDate>)
        ensures
            r is Some <==> is_valid_date(year as int, month as int, day as int),
            r is Some ==> r->0.year_spec() == year && r->0.month_spec() == month
                && r->0.day_spec() == day,
    {
        if year < 1 || year > 9999 || month < 1 || month > 12 || day < 1 {
            return None;
        }
        let leap: bool = (year % 4 == 0 && year % 100 != 0) || year % 400 == 0;
        let last: u32 = if month == 2 {
            if leap {
                29
            } else {
                28
            }
        } else if month == 4 || month == 6 || month == 9 || month == 11 {
            30
        } else {
            31
        };
        if day > last {
            None
        } else {
            Some(CalendarDate { year, month, day })
        }
    }

    pub fn year(&self) -> (r: i32)
        ensures
            r == self.year_spec(),
    {
        self.year
    }

    pub fn month(&self) -> (r: u32)
        ensures
            r == self.month_spec(),
    {
        self.month
    }

    pub fn day(&self) -> (r: u32)
        ensures
            r == self.day_spec(),
    {
        self.day
    }

    /// The day's record label, `"DD Mon YYYY"` (e.g. `"07 Mar 2025"`).
    pub fn label(&self) -> (r: String)
        ensures
            r@ == day_label_chars(self.year_spec(), self.month_spec(), self.day_spec()),
            is_valid_date(self.year_spec(), self.month_spec(), self.day_spec()),
    {
        proof {
            use_type_invariant(self);
        }
        chrono_day_label(self.year, self.month, self.day)
    }
}

} // verus!
