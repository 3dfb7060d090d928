//! Calendar dates in the proleptic Gregorian calendar, as the `time` crate
//! counts them, and the month-by-month navigation of the calendar tab.
use vstd::prelude::*;

verus! {

/// The first year that `time::Date` represents.
pub const MIN_YEAR: i32 = -9999;

/// The last year that `time::Date` represents.
pub const MAX_YEAR: i32 = 9999;

/// Largest number of days that a `time::Duration` can hold without overflow
/// of its seconds (`i64::MAX / 86400`).
pub const MAX_SHIFT_DAYS: i64 = 106751991167300;

/// Days that one press of a month key moves the calendar before it is put
/// back on the 15th.
pub const MONTH_STEP_DAYS: i64 = 20;

/// The day of the month the calendar always shows.
pub const SHOWN_DAY: u8 = 15;

/// A calendar date: year, month (1 to 12) and day of the month.
#[derive(Clone, Copy, Debug, PartialEq, Eq, Structural)]
pub struct CalendarDate {
    pub year: i32,
    pub month: u8,
    pub day: u8,
}

#[verifier::external_type_specification]
#[verifier::external_body]
pub struct ExComponentRange(time::error::ComponentRange);

/// Gregorian leap year rule.
pub open spec fn is_leap_year(y: int) -> bool {
    y % 4 == 0 && (y % 100 != 0 || y % 400 == 0)
}

/// Number of days of month `m` (1 to 12) of year `y`.
pub open spec fn days_in_month(y: int, m: int) -> int {
    if m == 2 {
        if is_leap_year(y) {
            29
        } else {
            28
        }
    } else if m == 4 || m == 6 || m == 9 || m == 11 {
        30
    } else {
        31
    }
}

/// Number of days of year `y`.
pub open spec fn days_in_year(y: int) -> int {
    if is_leap_year(y) {
        366
    } else {
        365
    }
}

/// Days of year `y` that come before the first day of month `m`.
pub open spec fn month_start(y: int, m: int) -> int
    decreases m,
{
    if m <= 1 {
        0
    } else {
        month_start(y, m - 1) + days_in_month(y, m - 1)
    }
}

/// Days from the first day of `MIN_YEAR` to the first day of year `y`.
pub open spec fn year_start(y: int) -> int
    decreases y - MIN_YEAR,
{
    if y <= MIN_YEAR {
        0
    } else {
        year_start(y - 1) + days_in_year(y - 1)
    }
}

/// Year, month and day name an existing date that `time::Date` can hold.
pub open spec fn valid_ymd(y: int, m: int, d: int) -> bool {
    &&& MIN_YEAR <= y <= MAX_YEAR
    &&& 1 <= m <= 12
    &&& 1 <= d <= days_in_month(y, m)
}

/// The first date `time::Date` represents.
pub open spec fn first_date() -> CalendarDate {
    CalendarDate { year: MIN_YEAR, month: 1, day: 1 }
}

/// The last date `time::Date` represents.
pub open spec fn last_date() -> CalendarDate {
    CalendarDate { year: MAX_YEAR, month: 12, day: 31 }
}

/// `n` held between the numbers of the first and the last date.
pub open spec fn clamp_day_number(n: int) -> int {
    if n < first_date().day_number() {
        first_date().day_number()
    } else if n > last_date().day_number() {
        last_date().day_number()
    } else {
        n
    }
}

/// The valid date whose day number is `n`.
pub open spec fn date_with_number(n: int) -> CalendarDate {
    choose|r: CalendarDate| r.valid() && r.day_number() == n
}

/// Where the calendar goes when moved by `days`: that many days later
/// (earlier when negative), held within the dates `time::Date` represents,
/// then put on the 15th of the month reached.
pub open spec fn calendar_shift(d: CalendarDate, days: int) -> CalendarDate {
    let r = date_with_number(clamp_day_number(d.day_number() + days));
    CalendarDate { year: r.year, month: r.month, day: SHOWN_DAY }
}

/// The 15th of the month after that of `d`.
pub open spec fn next_month(d: CalendarDate) -> CalendarDate {
    if d.month == 12 {
        CalendarDate { year: (d.year + 1) as i32, month: 1, day: SHOWN_DAY }
    } else {
        CalendarDate { year: d.year, month: (d.month + 1) as u8, day: SHOWN_DAY }
    }
}

/// The 15th of the month before that of `d`.
pub open spec fn previous_month(d: CalendarDate) -> CalendarDate {
    if d.month == 1 {
        CalendarDate { year: (d.year - 1) as i32, month: 12, day: SHOWN_DAY }
    } else {
        CalendarDate { year: d.year, month: (d.month - 1) as u8, day: SHOWN_DAY }
    }
}

/// French names of the months.
pub open spec fn spec_month_name(m: int) -> Seq<char> {
    if m == 1 {
        "Janvier"@
    } else if m == 2 {
        "Février"@
    } else if m == 3 {
        "Mars"@
    } else if m == 4 {
        "Avril"@
    } else if m == 5 {
        "Mai"@
    } else if m == 6 {
        "Juin"@
    } else if m == 7 {
        "Juillet"@
    } else if m == 8 {
        "Août"@
    } else if m == 9 {
        "Septembre"@
    } else if m == 10 {
        "Octobre"@
    } else if m == 11 {
        "Novembre"@
    } else {
        "Décembre"@
    }
}

/// The French names of the twelve calendar months, January first.
pub open spec fn french_month_names() -> Seq<Seq<char>> {
    seq![
        "Janvier"@,
        "Février"@,
        "Mars"@,
        "Avril"@,
        "Mai"@,
        "Juin"@,
        "Juillet"@,
        "Août"@,
        "Septembre"@,
        "Octobre"@,
        "Novembre"@,
        "Décembre"@,
    ]
}

/// The decimal digit `n` (0 to 9).
pub open spec fn digit_char(n: int) -> char {
    seq!['0', '1', '2', '3', '4', '5', '6', '7', '8', '9'][n]
}

/// Decimal representation of a natural number, without leading zeros.
pub open spec fn nat_decimal(n: nat) -> Seq<char>
    decreases n,
{
    if n < 10 {
        seq![digit_char(n as int)]
    } else {
        nat_decimal(n / 10) + seq![digit_char((n % 10) as int)]
    }
}

/// Decimal representation of an integer, with a leading `-` when negative.
pub open spec fn int_decimal(i: int) -> Seq<char> {
    if i < 0 {
        seq!['-'] + nat_decimal((-i) as nat)
    } else {
        nat_decimal(i as nat)
    }
}

/// The calendar's title: the French name of the month, a space and the year.
pub open spec fn spec_calendar_title(d: CalendarDate) -> Seq<char> {
    spec_month_name(d.month as int) + " "@ + int_decimal(d.year as int)
}

impl CalendarDate {
    /// The date exists and `time::Date` can hold it.
    pub open spec fn valid(self) -> bool {
        valid_ymd(self.year as int, self.month as int, self.day as int)
    }

    /// Position of the date among all dates: 1 for the first date
    /// `time::Date` represents, one more for each following day.
    pub open spec fn day_number(self) -> int {
        year_start(self.year as int) + month_start(self.year as int, self.month as int)
            + self.day
    }

    /// `time::Date::from_calendar_date` (with `time::Month::try_from` for the
    /// month number), read back with `to_calendar_date`: succeeds exactly when
    /// the year is one `time` represents, the month is 1 to 12 and the day
    /// exists in that month, and then gives back the same year, month and day.
    #[verifier::external_body]
    pub(crate) fn from_calendar_date(year: i32, month: u8, day: u8) -> (r: Result<
        CalendarDate,
        time::error::ComponentRange,
    >)
        ensures
            r is Ok <==> valid_ymd(year as int, month as int, day as int),
            r matches Ok(d) ==> d == (CalendarDate { year, month, day }),
    {
        let month = time::Month::try_from(month)?;
        let date = time::Date::from_calendar_date(year, month, day)?;
        let (year, month, day) = date.to_calendar_date();
        Ok(CalendarDate { year, month: u8::from(month), day })
    }

    /// `time::Date::saturating_add` with `time::Duration::days(days)`: the
    /// date `days` days later (earlier when negative), or the first or last
    /// date `time::Date` represents when that would fall outside them.
    #[verifier::external_body]
    pub(crate) fn saturating_add_days(self, days: i64) -> (r: CalendarDate)
        requires
            self.valid(),
            -MAX_SHIFT_DAYS <= days <= MAX_SHIFT_DAYS,
        ensures
            r.valid(),
            r.day_number() == clamp_day_number(self.day_number() + days),
    {
        let month = time::Month::try_from(self.month).unwrap();
        let date = time::Date::from_calendar_date(self.year, month, self.day).unwrap();
        let (year, month, day) = date.saturating_add(time::Duration::days(days)).to_calendar_date();
        CalendarDate { year, month: u8::from(month), day }
    }

    /// `time::Date::replace_day`: the same year and month on day `day`;
    /// fails exactly when that day does not exist in the month.
    #[verifier::external_body]
    pub(crate) fn replace_day(self, day: u8) -> (r: Result<CalendarDate, time::error::ComponentRange>)
        requires
            self.valid(),
        ensures
            r is Ok <==> 1 <= day <= days_in_month(self.year as int, self.month as int),
            r matches Ok(d) ==> d == (CalendarDate { day, ..self }),
    {
        let month = time::Month::try_from(self.month).unwrap();
        let date = time::Date::from_calendar_date(self.year, month, self.day).unwrap();
        let (year, month, day) = date.replace_day(day)?.to_calendar_date();
        Ok(CalendarDate { year, month: u8::from(month), day })
    }

    /// The date `year`-`month`-`day`, or `None` when it does not exist or
    /// lies outside the years `time::Date` represents.
    pub fn new(year: i32, month: u8, day: u8) -> (r: Option<CalendarDate>)
        ensures
            r is Some <==> valid_ymd(year as int, month as int, day as int),
            r matches Some(d) ==> d == (CalendarDate { year, month, day }),
    {
        match Self::from_calendar_date(year, month, day) {
            Ok(d) => Some(d),
            Err(_) => None,
        }
    }

    /// The calendar moved `days` days, then put on the 15th of the month
    /// reached; this is what the month keys do with 20 days forward or back.
    pub fn shifted(self, days: i64) -> (r: CalendarDate)
        requires
            self.valid(),
            -MAX_SHIFT_DAYS <= days <= MAX_SHIFT_DAYS,
        ensures
            r.valid(),
            r == calendar_shift(self, days as int),
    {
        let moved = self.saturating_add_days(days);
        proof {
            lemma_date_with_number(moved);
        }
        let r = moved.replace_day(SHOWN_DAY).unwrap();
        r
    }
}

/// The date with a given valid date's number is that date.
pub proof fn lemma_date_with_number(d: CalendarDate)
    requires
        d.valid(),
    ensures
        date_with_number(d.day_number()) == d,
{
    let r = date_with_number(d.day_number());
    assert(r.valid() && r.day_number() == d.day_number());
    lemma_day_number_injective(r, d);
}

/// Each month starts where the one before it ends.
proof fn lemma_month_start_step(y: int, m: int)
    requires
        1 <= m,
    ensures
        month_start(y, m + 1) == month_start(y, m) + days_in_month(y, m),
{
}

/// The twelve months fill the year.
proof fn lemma_month_start_end(y: int)
    ensures
        month_start(y, 12) + 31 == days_in_year(y),
        month_start(y, 13) == days_in_year(y),
{
    assert(month_start(y, 1) == 0);
    assert(month_start(y, 2) == 31);
    assert(month_start(y, 3) == 31 + days_in_month(y, 2));
    assert(month_start(y, 4) == 62 + days_in_month(y, 2));
    assert(month_start(y, 5) == 92 + days_in_month(y, 2));
    assert(month_start(y, 6) == 123 + days_in_month(y, 2));
    assert(month_start(y, 7) == 153 + days_in_month(y, 2));
    assert(month_start(y, 8) == 184 + days_in_month(y, 2));
    assert(month_start(y, 9) == 215 + days_in_month(y, 2));
    assert(month_start(y, 10) == 245 + days_in_month(y, 2));
    assert(month_start(y, 11) == 276 + days_in_month(y, 2));
    assert(month_start(y, 12) == 306 + days_in_month(y, 2));
    assert(month_start(y, 13) == 337 + days_in_month(y, 2));
}

/// A month starts after every day of an earlier month.
proof fn lemma_month_start_mono(y: int, m1: int, m2: int)
    requires
        1 <= m1 < m2,
    ensures
        month_start(y, m1) + days_in_month(y, m1) <= month_start(y, m2),
    decreases m2,
{
    if m2 > m1 + 1 {
        lemma_month_start_mono(y, m1, m2 - 1);
        lemma_month_start_step(y, m2 - 1);
    } else {
        lemma_month_start_step(y, m1);
    }
}

/// Month starts are never negative.
proof fn lemma_month_start_nonneg(y: int, m: int)
    requires
        1 <= m,
    ensures
        month_start(y, m) >= 0,
{
    if m > 1 {
        lemma_month_start_mono(y, 1, m);
    }
}

/// Each year starts where the one before it ends.
proof fn lemma_year_start_step(y: int)
    requires
        MIN_YEAR <= y,
    ensures
        year_start(y + 1) == year_start(y) + days_in_year(y),
{
}

/// A year starts after every day of an earlier year.
proof fn lemma_year_start_mono(y1: int, y2: int)
    requires
        MIN_YEAR <= y1 < y2,
    ensures
        year_start(y1) + days_in_year(y1) <= year_start(y2),
    decreases y2 - y1,
{
    if y2 > y1 + 1 {
        lemma_year_start_mono(y1, y2 - 1);
        lemma_year_start_step(y2 - 1);
    } else {
        lemma_year_start_step(y1);
    }
}

/// Year starts are never negative.
proof fn lemma_year_start_nonneg(y: int)
    requires
        MIN_YEAR <= y,
    ensures
        year_start(y) >= 0,
{
    if y > MIN_YEAR {
        lemma_year_start_mono(MIN_YEAR as int, y);
    }
}

/// Day numbers follow the order of dates: an earlier date has a smaller number.
pub proof fn lemma_day_number_order(a: CalendarDate, b: CalendarDate)
    requires
        a.valid(),
        b.valid(),
        a.year < b.year || (a.year == b.year && a.month < b.month) || (a.year == b.year
            && a.month == b.month && a.day < b.day),
    ensures
        a.day_number() < b.day_number(),
{
    let ya = a.year as int;
    let yb = b.year as int;
    lemma_month_start_end(ya);
    lemma_month_start_nonneg(yb, b.month as int);
    if a.year < b.year {
        if a.month < 12 {
            lemma_month_start_mono(ya, a.month as int, 12);
        }
        lemma_year_start_mono(ya, yb);
    } else if a.month < b.month {
        lemma_month_start_mono(ya, a.month as int, b.month as int);
    }
}

/// Two valid dates with the same number are the same date.
pub proof fn lemma_day_number_injective(a: CalendarDate, b: CalendarDate)
    requires
        a.valid(),
        b.valid(),
        a.day_number() == b.day_number(),
    ensures
        a == b,
{
    if a.year < b.year || (a.year == b.year && a.month < b.month) || (a.year == b.year
        && a.month == b.month && a.day < b.day) {
        lemma_day_number_order(a, b);
    } else if b.year < a.year || (a.year == b.year && b.month < a.month) || (a.year == b.year
        && a.month == b.month && b.day < a.day) {
        lemma_day_number_order(b, a);
    }
}

/// Every valid date lies between the first and the last date.
proof fn lemma_day_number_range(d: CalendarDate)
    requires
        d.valid(),
    ensures
        first_date().day_number() <= d.day_number() <= last_date().day_number(),
{
    lemma_year_start_nonneg(d.year as int);
    lemma_month_start_nonneg(d.year as int, d.month as int);
    assert(first_date().day_number() == 1);
    if d != last_date() {
        lemma_day_number_order(d, last_date());
    }
}

/// Twenty days after the 15th of a month is a day early in the next month,
/// so the forward month key always shows the next month, except in the last
/// month `time::Date` represents, where it stays.
pub proof fn lemma_shift_forward_is_next_month(d: CalendarDate)
    requires
        d.valid(),
        d.day == SHOWN_DAY,
    ensures
        !(d.year == MAX_YEAR && d.month == 12) ==> calendar_shift(d, MONTH_STEP_DAYS as int)
            == next_month(d),
        (d.year == MAX_YEAR && d.month == 12) ==> calendar_shift(d, MONTH_STEP_DAYS as int)
            == d,
{
    let y = d.year as int;
    let m = d.month as int;
    lemma_month_start_end(y);
    if d.year == MAX_YEAR && d.month == 12 {
        lemma_day_number_range(d);
        assert(d.day_number() + 20 > last_date().day_number());
        lemma_date_with_number(last_date());
    } else {
        let t = if m == 12 {
            CalendarDate { year: (y + 1) as i32, month: 1, day: 4 }
        } else {
            CalendarDate {
                year: d.year,
                month: (m + 1) as u8,
                day: (35 - days_in_month(y, m)) as u8,
            }
        };
        if m == 12 {
            lemma_year_start_step(y);
        } else {
            lemma_month_start_step(y, m);
        }
        assert(t.valid());
        assert(t.day_number() == d.day_number() + 20);
        lemma_day_number_range(t);
        lemma_date_with_number(t);
    }
}

/// Twenty days before the 15th of a month is a day late in the previous
/// month, so the backward month key always shows the previous month, except
/// in the first month `time::Date` represents, where it stays.
pub proof fn lemma_shift_backward_is_previous_month(d: CalendarDate)
    requires
        d.valid(),
        d.day == SHOWN_DAY,
    ensures
        !(d.year == MIN_YEAR && d.month == 1) ==> calendar_shift(d, -MONTH_STEP_DAYS as int)
            == previous_month(d),
        (d.year == MIN_YEAR && d.month == 1) ==> calendar_shift(d, -MONTH_STEP_DAYS as int)
            == d,
{
    let y = d.year as int;
    let m = d.month as int;
    if d.year == MIN_YEAR && d.month == 1 {
        assert(d.day_number() == 15);
        lemma_date_with_number(first_date());
    } else {
        let t = if m == 1 {
            CalendarDate { year: (y - 1) as i32, month: 12, day: 26 }
        } else {
            CalendarDate {
                year: d.year,
                month: (m - 1) as u8,
                day: (days_in_month(y, m - 1) - 5) as u8,
            }
        };
        if m == 1 {
            lemma_year_start_step(y - 1);
            lemma_month_start_end(y - 1);
        } else {
            lemma_month_start_step(y, m - 1);
        }
        assert(t.valid());
        assert(t.day_number() == d.day_number() - 20);
        lemma_day_number_range(t);
        lemma_date_with_number(t);
    }
}

/// One month forward then one month back comes back to the same date, and
/// so does one month back then one forward, away from the ends of the range
/// of `time::Date`.
pub proof fn lemma_month_keys_inverse(d: CalendarDate)
    requires
        d.valid(),
        d.day == SHOWN_DAY,
    ensures
        !(d.year == MAX_YEAR && d.month == 12) ==> calendar_shift(
            calendar_shift(d, MONTH_STEP_DAYS as int),
            -MONTH_STEP_DAYS as int,
        ) == d,
        !(d.year == MIN_YEAR && d.month == 1) ==> calendar_shift(
            calendar_shift(d, -MONTH_STEP_DAYS as int),
            MONTH_STEP_DAYS as int,
        ) == d,
{
    lemma_shift_forward_is_next_month(d);
    lemma_shift_backward_is_previous_month(d);
    if !(d.year == MAX_YEAR && d.month == 12) {
        let n = next_month(d);
        assert(n.valid());
        lemma_shift_backward_is_previous_month(n);
    }
    if !(d.year == MIN_YEAR && d.month == 1) {
        let p = previous_month(d);
        assert(p.valid());
        lemma_shift_forward_is_next_month(p);
    }
}

/// Month `m` of the calendar (1 for January, 12 for December) is named by
/// the `m`-th French month name.
pub proof fn lemma_month_names_follow_calendar(m: int)
    requires
        1 <= m <= 12,
    ensures
        spec_month_name(m) == french_month_names()[m - 1],
{
}

/// The title of the calendar starts with the French name of the month shown
/// and ends with the year.
pub proof fn lemma_calendar_title_names_month(d: CalendarDate)
    requires
        d.valid(),
    ensures
        spec_calendar_title(d) == french_month_names()[d.month - 1] + " "@ + int_decimal(
            d.year as int,
        ),
{
}

/// The French name of month `month` (1 to 12).
pub fn month_name(month: u8) -> (r: &'static str)
    requires
        1 <= month <= 12,
    ensures
        r@ == spec_month_name(month as int),
        r@ == french_month_names()[month - 1],
{
    match month {
        1 => "Janvier",
        2 => "Février",
        3 => "Mars",
        4 => "Avril",
        5 => "Mai",
        6 => "Juin",
        7 => "Juillet",
        8 => "Août",
        9 => "Septembre",
        10 => "Octobre",
        11 => "Novembre",
        _ => "Décembre",
    }
}

/// `i32::to_string`: the decimal representation of `n`.
#[verifier::external_body]
fn i32_to_decimal(n: i32) -> (r: String)
    ensures
        r@ == int_decimal(n as int),
{
    n.to_string()
}

/// The title of the calendar: month name in French, a space, the year.
pub fn calendar_title(date: &CalendarDate) -> (r: String)
    requires
        date.valid(),
    ensures
        r@ == spec_calendar_title(*date),
{
    let mut s = String::from_str(month_name(date.month));
    s.append(" ");
    let year = i32_to_decimal(date.year);
    s.append(year.as_str());
    s
}

} // verus!
