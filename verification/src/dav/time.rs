//! Points in time, and numbers, as they are written in responses.

use vstd::prelude::*;
use vstd::string::*;

verus! {

/// The character of a decimal digit.
pub open spec fn digit(d: int) -> char
    recommends
        0 <= d <= 9,
{
    if d == 0 {
        '0'
    } else if d == 1 {
        '1'
    } else if d == 2 {
        '2'
    } else if d == 3 {
        '3'
    } else if d == 4 {
        '4'
    } else if d == 5 {
        '5'
    } else if d == 6 {
        '6'
    } else if d == 7 {
        '7'
    } else if d == 8 {
        '8'
    } else {
        '9'
    }
}

/// A natural number in decimal, without leading zeros.
pub open spec fn decimal(n: nat) -> Seq<char>
    decreases n,
{
    if n < 10 {
        seq![digit(n as int)]
    } else {
        decimal(n / 10).push(digit((n % 10) as int))
    }
}

/// An integer in decimal, with a minus sign where it is negative.
pub open spec fn signed_decimal(n: int) -> Seq<char> {
    if n < 0 {
        seq!['-'] + decimal((-n) as nat)
    } else {
        decimal(n as nat)
    }
}

/// A number below a hundred in two digits.
pub open spec fn two_digits(n: int) -> Seq<char> {
    seq![digit(n / 10), digit(n % 10)]
}

/// A number below ten thousand in four digits.
pub open spec fn four_digits(n: int) -> Seq<char> {
    seq![digit(n / 1000), digit(n / 100 % 10), digit(n / 10 % 10), digit(n % 10)]
}

/// The decimal digit `d` as text.
pub(crate) fn digit_str(d: u8) -> (s: &'static str)
    requires
        d <= 9,
    ensures
        s@ == seq![digit(d as int)],
{
    proof {
        reveal_strlit("0");
        reveal_strlit("1");
        reveal_strlit("2");
        reveal_strlit("3");
        reveal_strlit("4");
        reveal_strlit("5");
        reveal_strlit("6");
        reveal_strlit("7");
        reveal_strlit("8");
        reveal_strlit("9");
    }
    let s = match d {
        0 => "0",
        1 => "1",
        2 => "2",
        3 => "3",
        4 => "4",
        5 => "5",
        6 => "6",
        7 => "7",
        8 => "8",
        _ => "9",
    };
    assert(s@ =~= seq![digit(d as int)]);
    s
}

/// Appends `n` in decimal to `s`.
pub(crate) fn push_decimal(s: &mut String, n: u64)
    ensures
        final(s)@ == old(s)@ + decimal(n as nat),
    decreases n,
{
    if n >= 10 {
        push_decimal(s, n / 10);
    }
    let ghost before = s@;
    s.append(digit_str((n % 10) as u8));
    assert(before + seq![digit((n % 10) as int)] =~= old(s)@ + decimal(n as nat));
}

/// The integer `n` in decimal.
pub fn decimal_string(n: i64) -> (s: String)
    ensures
        s@ == signed_decimal(n as int),
{
    let mut s = String::new();
    if n < 0 {
        proof {
            reveal_strlit("-");
            assert("-"@ =~= seq!['-']);
        }
        s.append("-");
        let magnitude: u64 = (-(n as i128)) as u64;
        push_decimal(&mut s, magnitude);
    } else {
        push_decimal(&mut s, n as u64);
        assert(Seq::<char>::empty() + decimal(n as nat) =~= decimal(n as nat));
    }
    s
}

/// Appends `n` in two digits to `s`.
pub(crate) fn push_two_digits(s: &mut String, n: u8)
    requires
        n < 100,
    ensures
        final(s)@ == old(s)@ + two_digits(n as int),
{
    s.append(digit_str(n / 10));
    s.append(digit_str(n % 10));
    assert(old(s)@ + seq![digit(n as int / 10)] + seq![digit(n as int % 10)] =~= old(s)@
        + two_digits(n as int));
}

/// Appends `n` in four digits to `s`.
pub(crate) fn push_four_digits(s: &mut String, n: u16)
    requires
        n < 10000,
    ensures
        final(s)@ == old(s)@ + four_digits(n as int),
{
    s.append(digit_str((n / 1000) as u8));
    s.append(digit_str((n / 100 % 10) as u8));
    s.append(digit_str((n / 10 % 10) as u8));
    s.append(digit_str((n % 10) as u8));
    assert(old(s)@ + seq![digit(n as int / 1000)] + seq![digit(n as int / 100 % 10)] + seq![
        digit(n as int / 10 % 10),
    ] + seq![digit(n as int % 10)] =~= old(s)@ + four_digits(n as int));
}

/// Whether `year` is a leap year of the Gregorian calendar.
pub open spec fn is_leap_year(year: int) -> bool {
    year % 4 == 0 && (year % 100 != 0 || year % 400 == 0)
}

/// The number of days of the month `month` of the year `year`.
pub open spec fn days_in_month(year: int, month: int) -> int {
    if month == 2 {
        if is_leap_year(year) {
            29
        } else {
            28
        }
    } else if month == 4 || month == 6 || month == 9 || month == 11 {
        30
    } else {
        31
    }
}

/// Whether the numbers name a date of the Gregorian calendar in the years 0
/// to 9999 and a time of day.  A second of 60 stands for a leap second.
pub open spec fn is_date_time(
    year: int,
    month: int,
    day: int,
    hour: int,
    minute: int,
    second: int,
) -> bool {
    &&& 0 <= year <= 9999
    &&& 1 <= month <= 12
    &&& 1 <= day <= days_in_month(year, month)
    &&& 0 <= hour <= 23
    &&& 0 <= minute <= 59
    &&& 0 <= second <= 60
}

/// The day of the week of a date, by Zeller's congruence: 0 for Saturday, 1
/// for Sunday, and so on to 6 for Friday.
pub open spec fn zeller(year: int, month: int, day: int) -> int {
    let m = if month < 3 {
        month + 12
    } else {
        month
    };
    let y = if month < 3 {
        year - 1 + 400
    } else {
        year + 400
    };
    (day + 13 * (m + 1) / 5 + y % 100 + y % 100 / 4 + y / 100 / 4 + 5 * (y / 100)) % 7
}

/// The English name of a day of the week, in three letters.
pub open spec fn weekday_name(zeller_day: int) -> Seq<char> {
    if zeller_day == 0 {
        "Sat"@
    } else if zeller_day == 1 {
        "Sun"@
    } else if zeller_day == 2 {
        "Mon"@
    } else if zeller_day == 3 {
        "Tue"@
    } else if zeller_day == 4 {
        "Wed"@
    } else if zeller_day == 5 {
        "Thu"@
    } else {
        "Fri"@
    }
}

/// The English name of a month, in three letters.
pub open spec fn month_name(month: int) -> Seq<char> {
    if month == 1 {
        "Jan"@
    } else if month == 2 {
        "Feb"@
    } else if month == 3 {
        "Mar"@
    } else if month == 4 {
        "Apr"@
    } else if month == 5 {
        "May"@
    } else if month == 6 {
        "Jun"@
    } else if month == 7 {
        "Jul"@
    } else if month == 8 {
        "Aug"@
    } else if month == 9 {
        "Sep"@
    } else if month == 10 {
        "Oct"@
    } else if month == 11 {
        "Nov"@
    } else {
        "Dec"@
    }
}

/// A point in time, in UTC, to the second.
#[derive(Clone, Copy, Debug, PartialEq, Eq, Structural)]
pub struct Timestamp {
    year: u16,
    month: u8,
    day: u8,
    hour: u8,
    minute: u8,
    second: u8,
}

impl Timestamp {
    /// Every timestamp names a date and a time of day.
    #[verifier::type_invariant]
    pub closed spec fn inv(&self) -> bool {
        is_date_time(
            self.year as int,
            self.month as int,
            self.day as int,
            self.hour as int,
            self.minute as int,
            self.second as int,
        )
    }

    pub closed spec fn year(&self) -> int {
        self.year as int
    }

    pub closed spec fn month(&self) -> int {
        self.month as int
    }

    pub closed spec fn day(&self) -> int {
        self.day as int
    }

    pub closed spec fn hour(&self) -> int {
        self.hour as int
    }

    pub closed spec fn minute(&self) -> int {
        self.minute as int
    }

    pub closed spec fn second(&self) -> int {
        self.second as int
    }

    /// The timestamp as RFC 3339 writes it: `1997-12-01T17:42:21Z`.
    pub open spec fn rfc3339(&self) -> Seq<char> {
        four_digits(self.year()) + seq!['-'] + two_digits(self.month()) + seq!['-'] + two_digits(
            self.day(),
        ) + seq!['T'] + two_digits(self.hour()) + seq![':'] + two_digits(self.minute()) + seq![
            ':',
        ] + two_digits(self.second()) + seq!['Z']
    }

    /// The timestamp as an HTTP date: `Sun, 06 Nov 1994 08:49:37 GMT`.
    pub open spec fn http_date(&self) -> Seq<char> {
        weekday_name(zeller(self.year(), self.month(), self.day())) + seq![',', ' '] + two_digits(
            self.day(),
        ) + seq![' '] + month_name(self.month()) + seq![' '] + four_digits(self.year()) + seq![
            ' ',
        ] + two_digits(self.hour()) + seq![':'] + two_digits(self.minute()) + seq![':']
            + two_digits(self.second()) + seq![' ', 'G', 'M', 'T']
    }

    /// The timestamp of the given date and time of day in UTC, or `None`
    /// where the numbers name none.
    pub fn new(year: u16, month: u8, day: u8, hour: u8, minute: u8, second: u8) -> (r: Option<
        Timestamp,
    >)
        ensures
            match r {
                Some(t) => {
                    &&& is_date_time(
                        year as int,
                        month as int,
                        day as int,
                        hour as int,
                        minute as int,
                        second as int,
                    )
                    &&& t.year() == year
                    &&& t.month() == month
                    &&& t.day() == day
                    &&& t.hour() == hour
                    &&& t.minute() == minute
                    &&& t.second() == second
                },
                None => !is_date_time(
                    year as int,
                    month as int,
                    day as int,
                    hour as int,
                    minute as int,
                    second as int,
                ),
            },
    {
        if year > 9999 || month < 1 || month > 12 || hour > 23 || minute > 59 || second > 60 {
            return None;
        }
        let leap = year % 4 == 0 && (year % 100 != 0 || year % 400 == 0);
        let days: u8 = if month == 2 {
            if leap {
                29
            } else {
                28
            }
        } else if month == 4 || month == 6 || month == 9 || month == 11 {
            30
        } else {
            31
        };
        if day < 1 || day > days {
            return None;
        }
        Some(Timestamp { year, month, day, hour, minute, second })
    }

    /// The timestamp as RFC 3339 writes it.
    pub fn to_rfc3339(&self) -> (s: String)
        ensures
            s@ == self.rfc3339(),
    {
        proof {
            use_type_invariant(self);
            reveal_strlit("-");
            reveal_strlit("T");
            reveal_strlit(":");
            reveal_strlit("Z");
            assert("-"@ =~= seq!['-']);
            assert("T"@ =~= seq!['T']);
            assert(":"@ =~= seq![':']);
            assert("Z"@ =~= seq!['Z']);
        }
        let mut s = String::new();
        push_four_digits(&mut s, self.year);
        s.append("-");
        push_two_digits(&mut s, self.month);
        s.append("-");
        push_two_digits(&mut s, self.day);
        s.append("T");
        push_two_digits(&mut s, self.hour);
        s.append(":");
        push_two_digits(&mut s, self.minute);
        s.append(":");
        push_two_digits(&mut s, self.second);
        s.append("Z");
        assert(s@ =~= self.rfc3339());
        s
    }

    /// The day of the week of the timestamp, as Zeller's congruence counts
    /// it: 0 for Saturday to 6 for Friday.
    pub fn weekday(&self) -> (w: u8)
        ensures
            w == zeller(self.year(), self.month(), self.day()),
            w < 7,
    {
        proof {
            use_type_invariant(self);
        }
        let m: u32 = if self.month < 3 {
            self.month as u32 + 12
        } else {
            self.month as u32
        };
        let y: u32 = if self.month < 3 {
            self.year as u32 + 399
        } else {
            self.year as u32 + 400
        };
        let h = (self.day as u32 + 13 * (m + 1) / 5 + y % 100 + y % 100 / 4 + y / 100 / 4 + 5 * (y
            / 100)) % 7;
        h as u8
    }

    /// The timestamp as an HTTP date.
    pub fn to_http_date(&self) -> (s: String)
        ensures
            s@ == self.http_date(),
    {
        proof {
            use_type_invariant(self);
            reveal_strlit(", ");
            reveal_strlit(" ");
            reveal_strlit(":");
            reveal_strlit(" GMT");
            assert(", "@ =~= seq![',', ' ']);
            assert(" "@ =~= seq![' ']);
            assert(":"@ =~= seq![':']);
            assert(" GMT"@ =~= seq![' ', 'G', 'M', 'T']);
        }
        let day_name = match self.weekday() {
            0 => "Sat",
            1 => "Sun",
            2 => "Mon",
            3 => "Tue",
            4 => "Wed",
            5 => "Thu",
            _ => "Fri",
        };
        let month = match self.month {
            1 => "Jan",
            2 => "Feb",
            3 => "Mar",
            4 => "Apr",
            5 => "May",
            6 => "Jun",
            7 => "Jul",
            8 => "Aug",
            9 => "Sep",
            10 => "Oct",
            11 => "Nov",
            _ => "Dec",
        };
        let mut s = String::new();
        s.append(day_name);
        s.append(", ");
        push_two_digits(&mut s, self.day);
        s.append(" ");
        s.append(month);
        s.append(" ");
        push_four_digits(&mut s, self.year);
        s.append(" ");
        push_two_digits(&mut s, self.hour);
        s.append(":");
        push_two_digits(&mut s, self.minute);
        s.append(":");
        push_two_digits(&mut s, self.second);
        s.append(" GMT");
        assert(s@ =~= self.http_date());
        s
    }
}

} // verus!
