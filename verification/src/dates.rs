//! Air dates: parsing the timestamp form the metadata API serves, the
//! civil-calendar day count and weekday, and the long display form of a
//! date. The clock itself is read through a trusted wrapper; everything
//! computed from its reading is verified.
use chrono::Datelike;
use vstd::prelude::*;
use vstd::string::*;

verus! {

use crate::text::{is_dec_digit, spec_u64_dec, u64_to_string};

/// Whether a year is a leap year under the Gregorian rule.
pub open spec fn spec_is_leap(y: int) -> bool {
    y % 4 == 0 && (y % 100 != 0 || y % 400 == 0)
}

/// Whether a year, nonnegative, is a leap year.
pub fn is_leap_year(y: u16) -> (r: bool)
    ensures
        r == spec_is_leap(y as int),
{
    (y % 4 == 0) && (y % 100 != 0 || y % 400 == 0)
}

/// How many days a month of a year has.
pub open spec fn spec_days_in_month(y: int, m: int) -> int {
    if m == 2 {
        if spec_is_leap(y) {
            29
        } else {
            28
        }
    } else if m == 4 || m == 6 || m == 9 || m == 11 {
        30
    } else {
        31
    }
}

/// How many days a month of a year has.
pub fn days_in_month(y: u16, m: u8) -> (r: u8)
    ensures
        r == spec_days_in_month(y as int, m as int),
{
    if m == 2 {
        if is_leap_year(y) {
            29
        } else {
            28
        }
    } else if m == 4 || m == 6 || m == 9 || m == 11 {
        30
    } else {
        31
    }
}

/// The day count of a date since 1970-01-01, by the standard
/// civil-calendar formula: years are shifted to start in March, whole
/// 400-year eras are counted at once, and the day of year follows from
/// the shifted month.
pub open spec fn spec_days_from_civil(y: int, m: int, d: int) -> int {
    let yy = if m <= 2 {
        y - 1
    } else {
        y
    };
    let era = yy / 400;
    let yoe = yy - era * 400;
    let mp = (m + 9) % 12;
    let doy = (153 * mp + 2) / 5 + d - 1;
    let doe = yoe * 365 + yoe / 4 - yoe / 100 + doy;
    era * 146097 + doe - 719468
}

/// The weekday of a date, Sunday counted as zero.
pub open spec fn spec_weekday(y: int, m: int, d: int) -> int {
    (spec_days_from_civil(y, m, d) + 4) % 7
}

/// Computes the civil day count of a date.
pub fn days_from_civil(y: u16, m: u8, d: u8) -> (r: i64)
    requires
        y <= 9999,
        1 <= m <= 12,
        1 <= d <= 31,
    ensures
        r == spec_days_from_civil(y as int, m as int, d as int),
{
    let yy: i64 = if m <= 2 {
        y as i64 - 1
    } else {
        y as i64
    };
    let era: i64 = if yy >= 0 {
        yy / 400
    } else {
        -1
    };
    assert(era == yy as int / 400) by {
        if yy < 0 {
            assert(yy == -1);
        }
    };
    let yoe: i64 = yy - era * 400;
    let mp: i64 = ((m as i64) + 9) % 12;
    let doy: i64 = (153 * mp + 2) / 5 + (d as i64) - 1;
    let doe: i64 = yoe * 365 + yoe / 4 - yoe / 100 + doy;
    era * 146097 + doe - 719468
}

/// Computes the weekday of a date, Sunday counted as zero.
pub fn weekday(y: u16, m: u8, d: u8) -> (r: u8)
    requires
        y <= 9999,
        1 <= m <= 12,
        1 <= d <= 31,
    ensures
        r == spec_weekday(y as int, m as int, d as int),
        r < 7,
{
    let days = days_from_civil(y, m, d);
    let shifted = days + 4;
    let r: i64 = if shifted >= 0 {
        shifted % 7
    } else {
        (shifted % 7 + 7) % 7
    };
    assert(r == (days as int + 4) % 7);
    r as u8
}

/// A timestamp of the metadata API, held as plain fields.
#[derive(Clone, Copy, Debug, PartialEq, Eq, Structural)]
pub struct DateTime {
    pub year: u16,
    pub month: u8,
    pub day: u8,
    pub hour: u8,
    pub minute: u8,
    pub second: u8,
}

/// Whether a timestamp's fields name a real moment: a four-digit year, a
/// real month and day, and a time of day in range.
pub open spec fn dt_wf(dt: DateTime) -> bool {
    &&& dt.year <= 9999
    &&& 1 <= dt.month <= 12
    &&& 1 <= dt.day <= spec_days_in_month(dt.year as int, dt.month as int)
    &&& dt.hour < 24
    &&& dt.minute < 60
    &&& dt.second < 60
}

/// The value of two digit characters read in base ten.
pub open spec fn two_val(s: Seq<char>, i: int) -> int {
    (s[i] as int - 48) * 10 + s[i + 1] as int - 48
}

/// The value of four digit characters read in base ten.
pub open spec fn four_val(s: Seq<char>, i: int) -> int {
    two_val(s, i) * 100 + two_val(s, i + 2)
}

/// Whether the text is a well-formed timestamp
/// `YYYY-MM-DDTHH:MM:SS+hh:mm` (the offset colon may be left out), its
/// date real and its time of day and offset minutes in range.
pub open spec fn datetime_text_ok(s: Seq<char>) -> bool {
    &&& (s.len() == 24 || s.len() == 25)
    &&& (forall|i: int| 0 <= i < 4 ==> is_dec_digit(#[trigger] s[i]))
    &&& s[4] == '-'
    &&& is_dec_digit(s[5]) && is_dec_digit(s[6])
    &&& s[7] == '-'
    &&& is_dec_digit(s[8]) && is_dec_digit(s[9])
    &&& s[10] == 'T'
    &&& is_dec_digit(s[11]) && is_dec_digit(s[12])
    &&& s[13] == ':'
    &&& is_dec_digit(s[14]) && is_dec_digit(s[15])
    &&& s[16] == ':'
    &&& is_dec_digit(s[17]) && is_dec_digit(s[18])
    &&& (s[19] == '+' || s[19] == '-')
    &&& is_dec_digit(s[20]) && is_dec_digit(s[21])
    &&& (s.len() == 25 ==> s[22] == ':' && is_dec_digit(s[23]) && is_dec_digit(s[24]))
    &&& (s.len() == 24 ==> is_dec_digit(s[22]) && is_dec_digit(s[23]))
    &&& 1 <= two_val(s, 5) <= 12
    &&& 1 <= two_val(s, 8) <= spec_days_in_month(four_val(s, 0), two_val(s, 5))
    &&& two_val(s, 11) < 24
    &&& two_val(s, 14) < 60
    &&& two_val(s, 17) < 60
    &&& (if s.len() == 25 {
        two_val(s, 23)
    } else {
        two_val(s, 22)
    }) < 60
}

/// Reads the digit at a position.
fn digit_at(s: &str, i: usize) -> (r: Option<u8>)
    requires
        i < s@.len(),
    ensures
        r is Some <==> is_dec_digit(s@[i as int]),
        r is Some ==> r->0 == s@[i as int] as int - 48,
{
    let c = s.get_char(i);
    let cv = c as u32;
    if 48 <= cv && cv <= 57 {
        Some((cv - 48) as u8)
    } else {
        None
    }
}

/// Reads the two-digit value at a position.
fn two_at(s: &str, i: usize) -> (r: Option<u8>)
    requires
        i + 1 < s@.len() <= usize::MAX,
    ensures
        r is Some <==> is_dec_digit(s@[i as int]) && is_dec_digit(s@[i + 1]),
        r is Some ==> r->0 == two_val(s@, i as int),
{
    match (digit_at(s, i), digit_at(s, i + 1)) {
        (Some(a), Some(b)) => Some(a * 10 + b),
        _ => None,
    }
}

/// Whether a separator stands at a position.
fn sep_at(s: &str, i: usize, c: char) -> (r: bool)
    requires
        i < s@.len(),
    ensures
        r == (s@[i as int] == c),
{
    s.get_char(i) == c
}

/// Reads a timestamp of the form `YYYY-MM-DDTHH:MM:SS+hh:mm` (with or
/// without the offset colon). Returns `None` exactly when the text is not
/// such a timestamp with a real date and in-range time and offset.
pub fn parse_datetime(s: &str) -> (r: Option<DateTime>)
    ensures
        r is Some <==> datetime_text_ok(s@),
        r is Some ==> {
            &&& dt_wf(r->0)
            &&& r->0.year == four_val(s@, 0)
            &&& r->0.month == two_val(s@, 5)
            &&& r->0.day == two_val(s@, 8)
            &&& r->0.hour == two_val(s@, 11)
            &&& r->0.minute == two_val(s@, 14)
            &&& r->0.second == two_val(s@, 17)
        },
{
    let n = s.unicode_len();
    if n != 24 && n != 25 {
        return None;
    }
    let y_hi = two_at(s, 0);
    let y_lo = two_at(s, 2);
    let (y_hi, y_lo) = match (y_hi, y_lo) {
        (Some(a), Some(b)) => (a, b),
        _ => {
            return None;
        },
    };
    let year: u16 = (y_hi as u16) * 100 + (y_lo as u16);
    if !sep_at(s, 4, '-') {
        return None;
    }
    let month = match two_at(s, 5) {
        Some(m) => m,
        None => {
            return None;
        },
    };
    if !sep_at(s, 7, '-') {
        return None;
    }
    let day = match two_at(s, 8) {
        Some(d) => d,
        None => {
            return None;
        },
    };
    if !sep_at(s, 10, 'T') {
        return None;
    }
    let hour = match two_at(s, 11) {
        Some(h) => h,
        None => {
            return None;
        },
    };
    if !sep_at(s, 13, ':') {
        return None;
    }
    let minute = match two_at(s, 14) {
        Some(m) => m,
        None => {
            return None;
        },
    };
    if !sep_at(s, 16, ':') {
        return None;
    }
    let second = match two_at(s, 17) {
        Some(x) => x,
        None => {
            return None;
        },
    };
    if !(sep_at(s, 19, '+') || sep_at(s, 19, '-')) {
        return None;
    }
    match two_at(s, 20) {
        Some(_) => {},
        None => {
            return None;
        },
    }
    let off_m = if n == 25 {
        if !sep_at(s, 22, ':') {
            return None;
        }
        match two_at(s, 23) {
            Some(x) => x,
            None => {
                return None;
            },
        }
    } else {
        match two_at(s, 22) {
            Some(x) => x,
            None => {
                return None;
            },
        }
    };
    if month < 1 || month > 12 {
        return None;
    }
    if day < 1 || day > days_in_month(year, month) {
        return None;
    }
    if hour >= 24 || minute >= 60 || second >= 60 || off_m >= 60 {
        return None;
    }
    Some(DateTime { year, month, day, hour, minute, second })
}

/// The English name of a weekday, Sunday counted as zero.
pub open spec fn weekday_name_text(w: int) -> Seq<char> {
    if w == 0 {
        "Sunday"@
    } else if w == 1 {
        "Monday"@
    } else if w == 2 {
        "Tuesday"@
    } else if w == 3 {
        "Wednesday"@
    } else if w == 4 {
        "Thursday"@
    } else if w == 5 {
        "Friday"@
    } else {
        "Saturday"@
    }
}

/// Names a weekday, Sunday counted as zero.
pub fn weekday_name(w: u8) -> (r: &'static str)
    requires
        w < 7,
    ensures
        r@ == weekday_name_text(w as int),
{
    if w == 0 {
        "Sunday"
    } else if w == 1 {
        "Monday"
    } else if w == 2 {
        "Tuesday"
    } else if w == 3 {
        "Wednesday"
    } else if w == 4 {
        "Thursday"
    } else if w == 5 {
        "Friday"
    } else {
        "Saturday"
    }
}

/// The English name of a month.
pub open spec fn month_name_text(m: int) -> Seq<char> {
    if m == 1 {
        "January"@
    } else if m == 2 {
        "February"@
    } else if m == 3 {
        "March"@
    } else if m == 4 {
        "April"@
    } else if m == 5 {
        "May"@
    } else if m == 6 {
        "June"@
    } else if m == 7 {
        "July"@
    } else if m == 8 {
        "August"@
    } else if m == 9 {
        "September"@
    } else if m == 10 {
        "October"@
    } else if m == 11 {
        "November"@
    } else {
        "December"@
    }
}

/// Names a month.
pub fn month_name(m: u8) -> (r: &'static str)
    requires
        1 <= m <= 12,
    ensures
        r@ == month_name_text(m as int),
{
    if m == 1 {
        "January"
    } else if m == 2 {
        "February"
    } else if m == 3 {
        "March"
    } else if m == 4 {
        "April"
    } else if m == 5 {
        "May"
    } else if m == 6 {
        "June"
    } else if m == 7 {
        "July"
    } else if m == 8 {
        "August"
    } else if m == 9 {
        "September"
    } else if m == 10 {
        "October"
    } else if m == 11 {
        "November"
    } else {
        "December"
    }
}

/// A day of the month padded with a space to two characters.
pub open spec fn padded_day_text(d: int) -> Seq<char> {
    if d < 10 {
        " "@ + spec_u64_dec(d as nat)
    } else {
        spec_u64_dec(d as nat)
    }
}

/// A year padded with zeros to four digits.
pub open spec fn padded_year_text(y: int) -> Seq<char> {
    if y < 10 {
        "000"@ + spec_u64_dec(y as nat)
    } else if y < 100 {
        "00"@ + spec_u64_dec(y as nat)
    } else if y < 1000 {
        "0"@ + spec_u64_dec(y as nat)
    } else {
        spec_u64_dec(y as nat)
    }
}

/// The long display form of a date: the weekday's name, the space-padded
/// day, the month's name and the four-digit year.
pub open spec fn long_date_text(y: int, m: int, d: int) -> Seq<char> {
    weekday_name_text(spec_weekday(y, m, d)) + ", "@ + padded_day_text(d) + " "@ + month_name_text(
        m,
    ) + " "@ + padded_year_text(y)
}

/// Renders a date in its long display form.
pub fn format_long_date(dt: &DateTime) -> (r: String)
    requires
        dt_wf(*dt),
    ensures
        r@ == long_date_text(dt.year as int, dt.month as int, dt.day as int),
{
    let w = weekday(dt.year, dt.month, dt.day);
    let mut out = weekday_name(w).to_owned();
    out.append(", ");
    if dt.day < 10 {
        out.append(" ");
    }
    let day_num = u64_to_string(dt.day as u64);
    out.append(day_num.as_str());
    out.append(" ");
    out.append(month_name(dt.month));
    out.append(" ");
    if dt.year < 10 {
        out.append("000");
    } else if dt.year < 100 {
        out.append("00");
    } else if dt.year < 1000 {
        out.append("0");
    }
    let year_num = u64_to_string(dt.year as u64);
    out.append(year_num.as_str());
    assert(out@ =~= long_date_text(dt.year as int, dt.month as int, dt.day as int));
    out
}

/// The air-date line the detail view shows.
#[derive(Clone, Debug, PartialEq)]
pub enum DateLine {
    Missing,
    Unparsable,
    Airing(String),
}

/// The air-date line for a listed first-air timestamp: a note when none
/// is listed or it does not read as a timestamp, otherwise the date in
/// its long display form.
pub fn handle_date(date: Option<String>) -> (r: DateLine)
    ensures
        date is None ==> r is Missing,
        date is Some && !datetime_text_ok(date->0@) ==> r is Unparsable,
        date is Some && datetime_text_ok(date->0@) ==> (r matches DateLine::Airing(t) && t@
            == long_date_text(
            four_val(date->0@, 0),
            two_val(date->0@, 5),
            two_val(date->0@, 8),
        )),
{
    match date {
        None => DateLine::Missing,
        Some(d) => match parse_datetime(d.as_str()) {
            None => DateLine::Unparsable,
            Some(dt) => DateLine::Airing(format_long_date(&dt)),
        },
    }
}

/// The clock's reading, handed out as plain values.
pub struct ClockReading {
    pub year: i32,
    pub month: u8,
    pub day: u8,
}

/// Relies on chrono::Utc::now and the Datelike methods: the month is
/// counted from one up to twelve and the day from one up to thirty-one.
/// What moment comes back depends on the system clock.
#[verifier::external_body]
pub(crate) fn now_utc() -> (r: ClockReading)
    ensures
        1 <= r.month <= 12,
        1 <= r.day <= 31,
{
    let now = chrono::Utc::now();
    ClockReading { year: now.year(), month: now.month() as u8, day: now.day() as u8 }
}

/// The current year by the system clock, zero for a clock set before the
/// common era.
pub fn cur_year() -> u32 {
    let now = now_utc();
    if now.year < 0 {
        0
    } else {
        now.year as u32
    }
}

/// The label of a season in a year, as the header and the canned result
/// views show it.
pub fn season_year_label(year: u32, month: u8) -> (r: String)
    requires
        1 <= month <= 12,
    ensures
        r@ == crate::display::season_of_month_num(month as int) + " "@ + spec_u64_dec(
            year as nat,
        ),
{
    let season: &'static str = if month <= 3 {
        "Winter"
    } else if month <= 6 {
        "Spring"
    } else if month <= 9 {
        "Summer"
    } else {
        "Fall"
    };
    let mut out = season.to_owned();
    out.append(" ");
    let num = u64_to_string(year as u64);
    out.append(num.as_str());
    assert(out@ =~= crate::display::season_of_month_num(month as int) + " "@ + spec_u64_dec(
        year as nat,
    ));
    out
}

} // verus!
