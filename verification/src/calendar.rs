//! Dates of the Gregorian calendar, as the names of the import directories show them.

use vstd::prelude::*;

use crate::text::decimal_of;

verus! {

/// Whether a year has 366 days.
pub open spec fn is_leap(y: int) -> bool {
    y % 4 == 0 && (y % 100 != 0 || y % 400 == 0)
}

/// The number of days of a month.
pub open spec fn days_in_month(y: int, m: int) -> int {
    if m == 2 {
        if is_leap(y) {
            29
        } else {
            28
        }
    } else if m == 4 || m == 6 || m == 9 || m == 11 {
        30
    } else {
        31
    }
}

/// Whether year, month and day make a date.
pub open spec fn is_date(y: int, m: int, d: int) -> bool {
    1 <= m <= 12 && 1 <= d <= days_in_month(y, m)
}

/// The number of leap years from year 1 up to a year, that year left out.
pub open spec fn leaps_before(y: int) -> int {
    (y - 1) / 4 - (y - 1) / 100 + (y - 1) / 400
}

/// The number of days of a year before a month.
pub open spec fn days_before_month(y: int, m: int) -> int
    decreases m,
{
    if m <= 1 {
        0
    } else {
        days_before_month(y, m - 1) + days_in_month(y, m - 1)
    }
}

/// The number of days from 1 January 1970 to a date.
pub open spec fn day_number(y: int, m: int, d: int) -> int {
    365 * (y - 1970) + leaps_before(y) - leaps_before(1970) + days_before_month(y, m) + d - 1
}

/// A number in decimal, filled up with zeros to the given width.
pub open spec fn padded(n: nat, width: nat) -> Seq<char> {
    let s = decimal_of(n);
    Seq::new(
        if s.len() < width {
            (width - s.len()) as nat
        } else {
            0
        },
        |i: int| '0',
    ) + s
}

/// A year as text: four digits at least, with a sign where four are not enough.
pub open spec fn year_text(y: int) -> Seq<char> {
    if y < 0 {
        "-"@ + padded((-y) as nat, 4)
    } else if y <= 9999 {
        padded(y as nat, 4)
    } else {
        "+"@ + padded(y as nat, 4)
    }
}

/// A date in the form `YYYY/MM/DD`.
pub open spec fn date_text(y: int, m: int, d: int) -> Seq<char> {
    year_text(y) + "/"@ + padded(m as nat, 2) + "/"@ + padded(d as nat, 2)
}

/// Whether a text shows the day that lies so many days after 1 January 1970.
pub open spec fn shows_day(s: Seq<char>, day: int) -> bool {
    exists|y: int, m: int, d: int|
        is_date(y, m, d) && day_number(y, m, d) == day && s == #[trigger] date_text(y, m, d)
}

/// Whether a text shows the day of a moment, given in seconds since 1970, somewhere on
/// earth: local time differs from UTC by less than a day.
pub open spec fn shows_day_of(s: Seq<char>, seconds: int) -> bool {
    exists|offset: int|
        -86400 < offset < 86400 && #[trigger] shows_day(s, (seconds + offset) / 86400)
}

/// Whether a text shows some day.
pub open spec fn shows_a_day(s: Seq<char>) -> bool {
    exists|day: int| #[trigger] shows_day(s, day)
}

// ── Moments ──────────────────────────────────────────────────────────────────

/// Whether a moment, given in seconds since 1970, lies in the years from -262143 to 262142.
pub open spec fn is_representable(seconds: i64) -> bool {
    day_number(-262143, 1, 1) <= seconds as int / 86400 <= day_number(262142, 12, 31)
}

/// A moment in UTC in RFC 3339: a date, the second of the day and a fraction of a second.
pub open spec fn moment_text(y: int, m: int, d: int, second: int, fraction: Seq<char>) -> Seq<
    char,
> {
    year_text(y) + "-"@ + padded(m as nat, 2) + "-"@ + padded(d as nat, 2) + "T"@ + padded(
        (second / 3600) as nat,
        2,
    ) + ":"@ + padded((second / 60 % 60) as nat, 2) + ":"@ + padded((second % 60) as nat, 2)
        + fraction + "+00:00"@
}

/// Whether a text writes the moment so many seconds after the beginning of 1970.
pub open spec fn writes_moment(s: Seq<char>, seconds: int) -> bool {
    exists|y: int, m: int, d: int|
        is_date(y, m, d) && day_number(y, m, d) == seconds / 86400 && s == #[trigger] moment_text(
            y,
            m,
            d,
            seconds % 86400,
            Seq::empty(),
        )
}

/// Whether a text writes some moment.
pub open spec fn writes_a_moment(s: Seq<char>) -> bool {
    exists|y: int, m: int, d: int, second: int, fraction: Seq<char>|
        is_date(y, m, d) && 0 <= second < 86400 && s == #[trigger] moment_text(
            y,
            m,
            d,
            second,
            fraction,
        )
}

} // verus!
