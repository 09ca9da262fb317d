//! Calendar dates, clock times, signed durations and work periods.
//!
//! `Duration` is a signed count of minutes and is the unit of all worked-time
//! bookkeeping; `Time` is an hour/minute wall-clock value; `Period` is a
//! from/to pair of times; `Date` is a Gregorian year/month/day value with
//! weekday counting between two dates.

use vstd::prelude::*;

verus! {

use crate::text::{dec_chars, int_chars, pad2_chars, push_int, push_pad2, push_uint};
use vstd::string::StringExecFns;

/// Mathematical value of a `Time`: hours and minutes as unbounded integers.
pub struct TimeView {
    pub hours: int,
    pub minutes: int,
}

/// Mathematical value of a `Date`: year, month and day as unbounded integers.
pub struct DateView {
    pub year: int,
    pub month: int,
    pub day: int,
}

/// Mathematical value of a `Period`: its two endpoints.
pub struct PeriodView {
    pub from: TimeView,
    pub to: TimeView,
}

/// A wall-clock time of day. Neither field is normalized: minutes may exceed
/// 59 and hours may exceed 23; ordering is lexicographic.
#[derive(Debug, PartialEq, Eq, Structural, Clone, Copy)]
pub struct Time {
    hours: usize,
    minutes: usize,
}

/// A signed count of minutes. Negative values are valid and represent a
/// deficit; zero is the additive identity.
#[derive(Debug, PartialEq, Eq, Structural, Clone, Copy)]
pub struct Duration {
    minutes: i32,
}

/// A closed from/to pair of clock times within one day. The endpoints are
/// stored verbatim; `to` is expected, but not required, to be the later one.
#[derive(Debug, PartialEq, Eq, Structural, Clone, Copy)]
pub struct Period {
    from: Time,
    to: Time,
}

/// A Gregorian calendar date. The constructor does not validate calendar
/// legality; the weekday computations require a `valid_date` value.
#[derive(Debug, PartialEq, Eq, Structural, Clone, Copy)]
pub struct Date {
    year: usize,
    month: usize,
    day: usize,
}

impl View for Time {
    type V = TimeView;

    closed spec fn view(&self) -> TimeView {
        TimeView { hours: self.hours as int, minutes: self.minutes as int }
    }
}

impl View for Duration {
    type V = int;

    closed spec fn view(&self) -> int {
        self.minutes as int
    }
}

impl View for Period {
    type V = PeriodView;

    closed spec fn view(&self) -> PeriodView {
        PeriodView { from: self.from@, to: self.to@ }
    }
}

impl View for Date {
    type V = DateView;

    closed spec fn view(&self) -> DateView {
        DateView { year: self.year as int, month: self.month as int, day: self.day as int }
    }
}

/// Total minutes a clock time lies after midnight.
pub open spec fn time_minutes(t: TimeView) -> int {
    t.hours * 60 + t.minutes
}

/// Elapsed minutes of a period: plain signed subtraction of its endpoints,
/// with no wrap across midnight, so a reversed period is negative.
pub open spec fn period_minutes(p: PeriodView) -> int {
    time_minutes(p.to) - time_minutes(p.from)
}

/// Hour/minute decomposition of a signed minute count, truncating toward
/// zero, so both components of a negative count are non-positive
/// (for example `-90` decomposes into `(-1, -30)`).
pub open spec fn hm_of(m: int) -> (int, int) {
    if m >= 0 {
        (m / 60, m % 60)
    } else {
        (-((-m) / 60), -((-m) % 60))
    }
}

/// Sum of a sequence of minute counts, folded from the left starting at zero.
pub open spec fn sum_minutes(s: Seq<int>) -> int
    decreases s.len(),
{
    if s.len() == 0 {
        0
    } else {
        sum_minutes(s.drop_last()) + s.last()
    }
}

/// The minute counts of a sequence of durations.
pub open spec fn duration_views(s: Seq<Duration>) -> Seq<int> {
    s.map_values(|d: Duration| d@)
}

impl Duration {
    /// A duration of `minutes` minutes.
    pub fn from_m(minutes: i32) -> (r: Duration)
        ensures
            r@ == minutes,
    {
        Duration { minutes }
    }

    /// A duration of `hours * 60 + minutes` minutes; a negative hour count
    /// expresses a negative duration directly.
    pub fn from_hm(hours: i32, minutes: i32) -> (r: Duration)
        requires
            i32::MIN <= hours * 60 + minutes <= i32::MAX,
        ensures
            r@ == hours * 60 + minutes,
    {
        let total = (hours as i64) * 60 + (minutes as i64);
        Duration { minutes: total as i32 }
    }

    /// The hour/minute decomposition of this duration, truncating toward zero.
    pub fn to_hm(&self) -> (r: (i32, i32))
        ensures
            (r.0 as int, r.1 as int) == hm_of(self@),
    {
        let m = self.minutes as i64;
        if m >= 0 {
            let mag = m as u64;
            ((mag / 60) as i32, (mag % 60) as i32)
        } else {
            let mag = (-m) as u64;
            (-((mag / 60) as i32), -((mag % 60) as i32))
        }
    }

    /// The sum of two durations.
    pub fn add(self, other: Duration) -> (r: Duration)
        requires
            i32::MIN <= self@ + other@ <= i32::MAX,
        ensures
            r@ == self@ + other@,
    {
        Duration { minutes: self.minutes + other.minutes }
    }

    /// The difference of two durations.
    pub fn sub(self, other: Duration) -> (r: Duration)
        requires
            i32::MIN <= self@ - other@ <= i32::MAX,
        ensures
            r@ == self@ - other@,
    {
        Duration { minutes: self.minutes - other.minutes }
    }

    /// Sums a sequence of durations, starting from the zero duration and
    /// folding with addition. Every prefix sum must fit the minute counter.
    pub fn sum(durations: &Vec<Duration>) -> (r: Duration)
        requires
            forall|k: int|
                0 <= k <= durations@.len() ==> i32::MIN <= sum_minutes(
                    #[trigger] duration_views(durations@).take(k),
                ) <= i32::MAX,
        ensures
            r@ == sum_minutes(duration_views(durations@)),
    {
        let ghost views = duration_views(durations@);
        let mut acc = Duration::from_m(0);
        let mut i: usize = 0;
        proof {
            assert(views.take(0) =~= Seq::<int>::empty());
        }
        while i < durations.len()
            invariant
                0 <= i <= durations@.len(),
                views == duration_views(durations@),
                acc@ == sum_minutes(views.take(i as int)),
                forall|k: int|
                    0 <= k <= durations@.len() ==> i32::MIN <= sum_minutes(
                        #[trigger] duration_views(durations@).take(k),
                    ) <= i32::MAX,
            decreases durations@.len() - i,
        {
            proof {
                assert(views.take(i + 1).drop_last() =~= views.take(i as int));
                assert(views.take(i + 1).last() == durations@[i as int]@);
            }
            acc = acc.add(durations[i]);
            i = i + 1;
        }
        proof {
            assert(views.take(durations@.len() as int) =~= views);
        }
        acc
    }
}

impl Time {
    /// A clock time of `hours` hours and `minutes` minutes, stored verbatim
    /// with no normalization.
    pub fn new(hours: usize, minutes: usize) -> (r: Time)
        ensures
            r@.hours == hours,
            r@.minutes == minutes,
    {
        Time { hours, minutes }
    }

    /// The signed number of minutes from `earlier` to `self`: plain
    /// subtraction with no wrap across midnight, negative when `self` is the
    /// earlier wall-clock time.
    pub fn time_since(&self, earlier: &Time) -> (d: Duration)
        requires
            time_minutes(self@) <= i32::MAX,
            time_minutes(earlier@) <= i32::MAX,
        ensures
            d@ == time_minutes(self@) - time_minutes(earlier@),
    {
        let hours_diff = self.hours as i64 - earlier.hours as i64;
        let minutes_diff = self.minutes as i64 - earlier.minutes as i64;
        Duration::from_m((hours_diff * 60 + minutes_diff) as i32)
    }

    /// The hour and minute components.
    pub fn into_hm(&self) -> (r: (usize, usize))
        ensures
            r.0 == self@.hours,
            r.1 == self@.minutes,
    {
        (self.hours, self.minutes)
    }
}

impl PartialOrd for Time {
    /// Lexicographic order: hours first, then minutes.
    fn partial_cmp(&self, other: &Self) -> (r: Option<core::cmp::Ordering>) {
        if self.hours < other.hours {
            Some(core::cmp::Ordering::Less)
        } else if self.hours > other.hours {
            Some(core::cmp::Ordering::Greater)
        } else if self.minutes < other.minutes {
            Some(core::cmp::Ordering::Less)
        } else if self.minutes > other.minutes {
            Some(core::cmp::Ordering::Greater)
        } else {
            Some(core::cmp::Ordering::Equal)
        }
    }
}

impl vstd::std_specs::cmp::PartialOrdSpecImpl for Time {
    open spec fn obeys_partial_cmp_spec() -> bool {
        true
    }

    open spec fn partial_cmp_spec(&self, other: &Self) -> Option<core::cmp::Ordering> {
        if self@.hours < other@.hours {
            Some(core::cmp::Ordering::Less)
        } else if self@.hours > other@.hours {
            Some(core::cmp::Ordering::Greater)
        } else if self@.minutes < other@.minutes {
            Some(core::cmp::Ordering::Less)
        } else if self@.minutes > other@.minutes {
            Some(core::cmp::Ordering::Greater)
        } else {
            Some(core::cmp::Ordering::Equal)
        }
    }
}

impl PartialOrd for Duration {
    /// Total order by the signed minute count.
    fn partial_cmp(&self, other: &Self) -> (r: Option<core::cmp::Ordering>) {
        if self.minutes < other.minutes {
            Some(core::cmp::Ordering::Less)
        } else if self.minutes > other.minutes {
            Some(core::cmp::Ordering::Greater)
        } else {
            Some(core::cmp::Ordering::Equal)
        }
    }
}

impl vstd::std_specs::cmp::PartialOrdSpecImpl for Duration {
    open spec fn obeys_partial_cmp_spec() -> bool {
        true
    }

    open spec fn partial_cmp_spec(&self, other: &Self) -> Option<core::cmp::Ordering> {
        if self@ < other@ {
            Some(core::cmp::Ordering::Less)
        } else if self@ > other@ {
            Some(core::cmp::Ordering::Greater)
        } else {
            Some(core::cmp::Ordering::Equal)
        }
    }
}

impl PartialOrd for Date {
    /// Lexicographic order: year, then month, then day.
    fn partial_cmp(&self, other: &Self) -> (r: Option<core::cmp::Ordering>) {
        if self.year < other.year {
            Some(core::cmp::Ordering::Less)
        } else if self.year > other.year {
            Some(core::cmp::Ordering::Greater)
        } else if self.month < other.month {
            Some(core::cmp::Ordering::Less)
        } else if self.month > other.month {
            Some(core::cmp::Ordering::Greater)
        } else if self.day < other.day {
            Some(core::cmp::Ordering::Less)
        } else if self.day > other.day {
            Some(core::cmp::Ordering::Greater)
        } else {
            Some(core::cmp::Ordering::Equal)
        }
    }
}

impl vstd::std_specs::cmp::PartialOrdSpecImpl for Date {
    open spec fn obeys_partial_cmp_spec() -> bool {
        true
    }

    open spec fn partial_cmp_spec(&self, other: &Self) -> Option<core::cmp::Ordering> {
        if self@.year < other@.year {
            Some(core::cmp::Ordering::Less)
        } else if self@.year > other@.year {
            Some(core::cmp::Ordering::Greater)
        } else if self@.month < other@.month {
            Some(core::cmp::Ordering::Less)
        } else if self@.month > other@.month {
            Some(core::cmp::Ordering::Greater)
        } else if self@.day < other@.day {
            Some(core::cmp::Ordering::Less)
        } else if self@.day > other@.day {
            Some(core::cmp::Ordering::Greater)
        } else {
            Some(core::cmp::Ordering::Equal)
        }
    }
}

impl Period {
    /// A period with the given endpoints, stored verbatim.
    pub fn new(from: Time, to: Time) -> (r: Period)
        ensures
            r@.from == from@,
            r@.to == to@,
    {
        Period { from, to }
    }

    /// The elapsed duration of the period: `to - from`, possibly negative.
    pub fn duration(&self) -> (d: Duration)
        requires
            time_minutes(self@.from) <= i32::MAX,
            time_minutes(self@.to) <= i32::MAX,
        ensures
            d@ == period_minutes(self@),
    {
        self.to.time_since(&self.from)
    }

    /// The two endpoints of the period.
    pub fn into_times(&self) -> (r: (Time, Time))
        ensures
            r.0@ == self@.from,
            r.1@ == self@.to,
    {
        (self.from, self.to)
    }
}

/// Rendering of a clock time: hours and minutes separated by a colon, with
/// no zero padding.
pub open spec fn time_chars(t: TimeView) -> Seq<char> {
    dec_chars(t.hours) + ":"@ + dec_chars(t.minutes)
}

/// Rendering of a period: the two endpoint times separated by a dash.
pub open spec fn period_chars(p: PeriodView) -> Seq<char> {
    time_chars(p.from) + "-"@ + time_chars(p.to)
}

/// Rendering of a date: year, then month and day zero-padded to two digits,
/// separated by dashes.
pub open spec fn date_chars(d: DateView) -> Seq<char> {
    dec_chars(d.year) + "-"@ + pad2_chars(d.month) + "-"@ + pad2_chars(d.day)
}

/// Rendering of one component of a duration: nothing when the value is zero,
/// otherwise the signed value, a space and the unit word, with a plural `s`
/// unless the value is exactly one or minus one.
pub open spec fn unit_chars(v: int, word: Seq<char>) -> Seq<char> {
    if v == 0 {
        Seq::empty()
    } else {
        int_chars(v) + " "@ + word + (if v == 1 || v == -1 {
            Seq::<char>::empty()
        } else {
            "s"@
        })
    }
}

/// Rendering of a duration from its hour/minute decomposition: each non-zero
/// component with its unit word, joined by ` and ` only when both are
/// non-zero, and empty for the zero duration.
pub open spec fn duration_chars(m: int) -> Seq<char> {
    let (h, mi) = hm_of(m);
    if h != 0 && mi != 0 {
        unit_chars(h, "hour"@) + " and "@ + unit_chars(mi, "minute"@)
    } else {
        unit_chars(h, "hour"@) + unit_chars(mi, "minute"@)
    }
}

/// Appends one duration component with its unit word and pluralization.
fn push_unit(s: &mut String, v: i32, word: &str)
    ensures
        final(s)@ == old(s)@ + unit_chars(v as int, word@),
{
    if v != 0 {
        push_int(s, v as i64);
        s.append(" ");
        s.append(word);
        if !(v == 1 || v == -1) {
            s.append("s");
        }
        proof {
            assert(s@ =~= old(s)@ + unit_chars(v as int, word@));
        }
    } else {
        proof {
            assert(s@ =~= old(s)@ + unit_chars(v as int, word@));
        }
    }
}

impl Duration {
    /// The human-readable form of this duration, per the pluralization rules
    /// of `duration_chars`.
    pub fn render(&self) -> (r: String)
        ensures
            r@ == duration_chars(self@),
    {
        let (h, mi) = self.to_hm();
        let mut s = String::new();
        if h != 0 && mi != 0 {
            push_unit(&mut s, h, "hour");
            s.append(" and ");
            push_unit(&mut s, mi, "minute");
        } else {
            push_unit(&mut s, h, "hour");
            push_unit(&mut s, mi, "minute");
        }
        proof {
            assert(s@ =~= duration_chars(self@));
        }
        s
    }
}

impl Time {
    /// The human-readable `hours:minutes` form of this time.
    pub fn render(&self) -> (r: String)
        ensures
            r@ == time_chars(self@),
    {
        let mut s = String::new();
        push_uint(&mut s, self.hours as u64);
        s.append(":");
        push_uint(&mut s, self.minutes as u64);
        proof {
            assert(s@ =~= time_chars(self@));
        }
        s
    }
}

impl Period {
    /// The human-readable `from-to` form of this period.
    pub fn render(&self) -> (r: String)
        ensures
            r@ == period_chars(self@),
    {
        let mut s = self.from.render();
        s.append("-");
        let to_str = self.to.render();
        s.append(to_str.as_str());
        proof {
            assert(s@ =~= period_chars(self@));
        }
        s
    }
}

impl Date {
    /// The human-readable `year-month-day` form of this date, with month and
    /// day zero-padded to two digits.
    pub fn render(&self) -> (r: String)
        ensures
            r@ == date_chars(self@),
    {
        let mut s = String::new();
        push_uint(&mut s, self.year as u64);
        s.append("-");
        push_pad2(&mut s, self.month as u64);
        s.append("-");
        push_pad2(&mut s, self.day as u64);
        proof {
            assert(s@ =~= date_chars(self@));
        }
        s
    }
}

/// Whether `y` is a Gregorian leap year.
pub open spec fn is_leap_year(y: int) -> bool {
    (y % 4 == 0 && y % 100 != 0) || y % 400 == 0
}

/// Number of days in year `y`.
pub open spec fn days_in_year(y: int) -> int {
    if is_leap_year(y) {
        366
    } else {
        365
    }
}

/// Number of days in month `m` of year `y`, for `m` in `1..=12`.
pub open spec fn days_in_month(y: int, m: int) -> int {
    if m == 2 {
        if is_leap_year(y) {
            29
        } else {
            28
        }
    } else if m == 4 || m == 6 || m == 9 || m == 11 {
        30
    } else {
        31
    }
}

/// Number of days in all years before `y`, counting from year 1.
pub open spec fn days_before_year(y: int) -> int
    decreases y,
{
    if y <= 1 {
        0
    } else {
        days_before_year(y - 1) + days_in_year(y - 1)
    }
}

/// Number of days in the months of year `y` before month `m`.
pub open spec fn days_before_month(y: int, m: int) -> int
    decreases m,
{
    if m <= 1 {
        0
    } else {
        days_before_month(y, m - 1) + days_in_month(y, m - 1)
    }
}

/// The ordinal of a date when the days of the Gregorian calendar are counted
/// from 1 at January 1 of year 1: consecutive calendar days have consecutive
/// day numbers.
pub open spec fn day_number(d: DateView) -> int {
    days_before_year(d.year) + days_before_month(d.year, d.month) + d.day
}

/// A calendar-legal date within the years this engine covers.
pub open spec fn valid_date(d: DateView) -> bool {
    &&& 1 <= d.year <= 9999
    &&& 1 <= d.month <= 12
    &&& 1 <= d.day <= days_in_month(d.year, d.month)
}

/// Day of the week of day number `n`, as 0 for Monday through 6 for Sunday.
/// The offset anchors the cycle to the calendar: day number 1 (January 1 of
/// year 1) falls on a Monday, as does 2024-01-01 (day number 738886).
pub open spec fn weekday_index(n: int) -> int {
    (n + 6) % 7
}

/// Whether day number `n` is a weekday, that is, not a Saturday or Sunday.
pub open spec fn is_weekday(n: int) -> bool {
    weekday_index(n) <= 4
}

/// Number of weekdays among the day numbers in the inclusive range
/// `[a, b]`; zero when the range is reversed.
pub open spec fn weekday_count(a: int, b: int) -> int
    decreases b - a + 1,
{
    if b < a {
        0
    } else {
        weekday_count(a, b - 1) + if is_weekday(b) {
            1int
        } else {
            0int
        }
    }
}

/// Whether `year` is a Gregorian leap year.
fn leap_year(year: usize) -> (r: bool)
    ensures
        r == is_leap_year(year as int),
{
    (year % 4 == 0 && year % 100 != 0) || year % 400 == 0
}

/// Number of days in `year`.
fn year_length(year: usize) -> (r: usize)
    ensures
        r == days_in_year(year as int),
{
    if leap_year(year) {
        366
    } else {
        365
    }
}

/// Number of days in month `month` of year `year`.
fn month_length(year: usize, month: usize) -> (r: usize)
    requires
        1 <= month <= 12,
    ensures
        r == days_in_month(year as int, month as int),
{
    if month == 2 {
        if leap_year(year) {
            29
        } else {
            28
        }
    } else if month == 4 || month == 6 || month == 9 || month == 11 {
        30
    } else {
        31
    }
}

/// Computes the day number of a valid date by summing whole years, then
/// whole months, then the day of the month.
fn day_number_of(date: &Date) -> (n: usize)
    requires
        valid_date(date@),
    ensures
        n == day_number(date@),
        1 <= n <= 3_660_000,
{
    let mut acc: usize = 0;
    let mut y: usize = 1;
    while y < date.year
        invariant
            1 <= y <= date.year <= 9999,
            acc == days_before_year(y as int),
            acc <= 366 * (y - 1),
        decreases date.year - y,
    {
        acc = acc + year_length(y);
        y = y + 1;
    }
    let mut m: usize = 1;
    while m < date.month
        invariant
            1 <= m <= date.month <= 12,
            acc == days_before_year(date.year as int) + days_before_month(
                date.year as int,
                m as int,
            ),
            acc <= 366 * 9998 + 31 * (m - 1),
        decreases date.month - m,
    {
        acc = acc + month_length(date.year, m);
        m = m + 1;
    }
    acc + date.day
}

impl Date {
    /// A date with the given components, stored verbatim; calendar legality
    /// is not checked here.
    pub fn new(year: usize, month: usize, day: usize) -> (r: Date)
        ensures
            r@.year == year,
            r@.month == month,
            r@.day == day,
    {
        Date { year, month, day }
    }

    /// The year, month and day components.
    pub fn into_ymd(&self) -> (r: (usize, usize, usize))
        ensures
            r.0 == self@.year,
            r.1 == self@.month,
            r.2 == self@.day,
    {
        (self.year, self.month, self.day)
    }

    /// The same month with the day set to 1.
    pub fn start_of_month(&self) -> (r: Date)
        ensures
            r@.year == self@.year,
            r@.month == self@.month,
            r@.day == 1,
    {
        Date { year: self.year, month: self.month, day: 1 }
    }

    /// Number of weekdays in the inclusive calendar range from `self` to
    /// `to`, counting both endpoints and skipping Saturdays and Sundays;
    /// zero when `self` lies after `to`. The count walks the range day by
    /// day.
    pub fn weekdays_since(&self, to: &Date) -> (count: usize)
        requires
            valid_date(self@),
            valid_date(to@),
        ensures
            count == weekday_count(day_number(self@), day_number(to@)),
            count <= 3_660_000,
    {
        let a = day_number_of(self);
        let b = day_number_of(to);
        if b < a {
            return 0;
        }
        let mut count: usize = 0;
        let mut n: usize = a;
        while n <= b
            invariant
                a <= n <= b + 1,
                b <= 3_660_000,
                count == weekday_count(a as int, n - 1),
                count <= n - a,
            decreases b + 1 - n,
        {
            if (n + 6) % 7 < 5 {
                count = count + 1;
            }
            n = n + 1;
        }
        count
    }
}

/// Two dates are equal exactly when their views are: the view exposes every
/// field of the date and nothing else.
pub proof fn lemma_date_eq_view(a: Date, b: Date)
    ensures
        (a == b) <==> (a@ == b@),
{
}

/// Day-of-week indices advance cyclically: the index of day `n + 1` is one
/// more than that of day `n`, wrapping from Sunday back to Monday.
pub proof fn lemma_weekday_index_step(n: int)
    ensures
        weekday_index(n + 1) == if weekday_index(n) == 6 {
            0int
        } else {
            weekday_index(n) + 1
        },
{
    let w = weekday_index(n);
    vstd::arithmetic::div_mod::lemma_add_mod_noop(n + 6, 1, 7);
    assert((n + 7) % 7 == (w + 1int % 7) % 7);
    if w == 6 {
        vstd::arithmetic::div_mod::lemma_fundamental_div_mod_converse(w + 1, 7, 1, 0);
    } else {
        vstd::arithmetic::div_mod::lemma_fundamental_div_mod_converse(w + 1, 7, 0, w + 1);
    }
}

/// Any seven consecutive calendar days contain exactly five weekdays,
/// whatever day of the week the range starts on.
pub proof fn lemma_full_week(n: int)
    ensures
        weekday_count(n, n + 6) == 5,
{
    lemma_weekday_index_step(n);
    lemma_weekday_index_step(n + 1);
    lemma_weekday_index_step(n + 2);
    lemma_weekday_index_step(n + 3);
    lemma_weekday_index_step(n + 4);
    lemma_weekday_index_step(n + 5);
    assert(weekday_count(n, n - 1) == 0);
    assert(0 <= weekday_index(n) < 7);
    assert(weekday_count(n, n + 6) == 5) by {
        reveal_with_fuel(weekday_count, 9);
    }
}

/// A Monday-to-Friday inclusive range counts every one of its five calendar
/// days as a weekday.
pub proof fn lemma_monday_to_friday(n: int)
    requires
        weekday_index(n) == 0,
    ensures
        weekday_count(n, n + 4) == 5,
{
    lemma_weekday_index_step(n);
    lemma_weekday_index_step(n + 1);
    lemma_weekday_index_step(n + 2);
    lemma_weekday_index_step(n + 3);
    assert(weekday_count(n, n - 1) == 0);
    assert(weekday_count(n, n + 4) == 5) by {
        reveal_with_fuel(weekday_count, 7);
    }
}

/// Composing and decomposing a duration are inverse to each other: for
/// non-negative hours and minutes with the minutes below one hour, the
/// hour/minute decomposition of `hours * 60 + minutes` gives them back.
pub proof fn lemma_from_hm_to_hm(h: int, m: int)
    requires
        0 <= h,
        0 <= m < 60,
    ensures
        hm_of(h * 60 + m) == (h, m),
{
    vstd::arithmetic::div_mod::lemma_fundamental_div_mod_converse(h * 60 + m, 60, h, m);
}

/// Subtracting a duration undoes adding it: `(d1 + d2) - d2 == d1` over the
/// minute counts.
pub proof fn lemma_add_sub_cancel(d1: Duration, d2: Duration)
    ensures
        (d1@ + d2@) - d2@ == d1@,
{
}

/// Addition of durations is commutative over the minute counts.
pub proof fn lemma_add_commutative(d1: Duration, d2: Duration)
    ensures
        d1@ + d2@ == d2@ + d1@,
{
}

/// Addition of durations is associative over the minute counts.
pub proof fn lemma_add_associative(d1: Duration, d2: Duration, d3: Duration)
    ensures
        (d1@ + d2@) + d3@ == d1@ + (d2@ + d3@),
{
}

/// The zero duration is the identity for summation: an empty sequence sums
/// to zero minutes.
pub proof fn lemma_sum_empty()
    ensures
        sum_minutes(Seq::<int>::empty()) == 0,
{
}

} // verus!
