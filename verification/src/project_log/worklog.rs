//! Logged work entries: either a plain duration or a from/to period with
//! breaks, each carrying a date and an optional free-text description.
//!
//! A period entry stores its *effective* duration — the period's elapsed
//! time minus the sum of its breaks — computed once at construction; the
//! period and the raw breaks are retained for display.

use vstd::prelude::*;

verus! {

use crate::time::{
    date_chars, duration_chars, duration_views, period_chars, period_minutes, sum_minutes,
    time_minutes, Date, DateView, Duration, Period, PeriodView,
};
use vstd::string::StringExecFns;

/// Mathematical value of a `PeriodLog`.
pub struct PeriodLogView {
    pub duration: int,
    pub period: PeriodView,
    pub breaks: Seq<int>,
    pub date: DateView,
    pub description: Option<Seq<char>>,
}

/// Mathematical value of a `DurationLog`.
pub struct DurationLogView {
    pub duration: int,
    pub date: DateView,
    pub description: Option<Seq<char>>,
}

/// Mathematical value of a `WorkLog`.
pub enum WorkLogView {
    Period(PeriodLogView),
    Duration(DurationLogView),
}

impl WorkLogView {
    /// The effective worked minutes of the entry, whichever variant it is.
    pub open spec fn duration(&self) -> int {
        match self {
            WorkLogView::Period(p) => p.duration,
            WorkLogView::Duration(d) => d.duration,
        }
    }

    /// The date of the entry, whichever variant it is.
    pub open spec fn date(&self) -> DateView {
        match self {
            WorkLogView::Period(p) => p.date,
            WorkLogView::Duration(d) => d.date,
        }
    }
}

/// A work entry logged as a period with breaks. The stored duration is the
/// period's elapsed time minus the sum of the breaks; it may be negative and
/// is then kept as a correction signal, not rejected.
#[derive(Debug)]
pub struct PeriodLog {
    duration: Duration,
    period: Period,
    breaks: Vec<Duration>,
    date: Date,
    description: Option<String>,
}

/// A work entry logged directly as a duration.
#[derive(Debug)]
pub struct DurationLog {
    duration: Duration,
    date: Date,
    description: Option<String>,
}

/// A logged work entry: either period-based or duration-based.
#[derive(Debug)]
pub enum WorkLog {
    Period(PeriodLog),
    Duration(DurationLog),
}

/// The view of an optional description text.
pub open spec fn description_view(o: Option<String>) -> Option<Seq<char>> {
    match o {
        Some(s) => Some(s@),
        None => None,
    }
}

impl View for PeriodLog {
    type V = PeriodLogView;

    closed spec fn view(&self) -> PeriodLogView {
        PeriodLogView {
            duration: self.duration@,
            period: self.period@,
            breaks: duration_views(self.breaks@),
            date: self.date@,
            description: description_view(self.description),
        }
    }
}

impl View for DurationLog {
    type V = DurationLogView;

    closed spec fn view(&self) -> DurationLogView {
        DurationLogView {
            duration: self.duration@,
            date: self.date@,
            description: description_view(self.description),
        }
    }
}

impl View for WorkLog {
    type V = WorkLogView;

    closed spec fn view(&self) -> WorkLogView {
        match self {
            WorkLog::Period(p) => WorkLogView::Period(p@),
            WorkLog::Duration(d) => WorkLogView::Duration(d@),
        }
    }
}

impl PeriodLog {
    /// A period entry for `date`: the effective duration is the period's
    /// elapsed time minus the sum of the breaks, and may be negative.
    pub fn new(period: Period, date: Date, description: String, breaks: Vec<Duration>) -> (r:
        PeriodLog)
        requires
            time_minutes(period@.from) <= i32::MAX,
            time_minutes(period@.to) <= i32::MAX,
            forall|k: int|
                0 <= k <= breaks@.len() ==> i32::MIN <= sum_minutes(
                    #[trigger] duration_views(breaks@).take(k),
                ) <= i32::MAX,
            i32::MIN <= period_minutes(period@) - sum_minutes(duration_views(breaks@))
                <= i32::MAX,
        ensures
            r@ == (PeriodLogView {
                duration: period_minutes(period@) - sum_minutes(duration_views(breaks@)),
                period: period@,
                breaks: duration_views(breaks@),
                date: date@,
                description: Some(description@),
            }),
    {
        let break_total = Duration::sum(&breaks);
        let duration = period.duration().sub(break_total);
        PeriodLog { duration, period, breaks, date, description: Some(description) }
    }
}

impl PeriodLog {
    /// The stored effective duration of the entry.
    pub fn duration(&self) -> (r: Duration)
        ensures
            r@ == self@.duration,
    {
        self.duration
    }

    /// The raw period the entry was logged with.
    pub fn period(&self) -> (r: Period)
        ensures
            r@ == self@.period,
    {
        self.period
    }

    /// The declared breaks, in their stored order.
    pub fn breaks(&self) -> (r: &Vec<Duration>)
        ensures
            duration_views(r@) == self@.breaks,
    {
        &self.breaks
    }

    /// The date the entry was logged for.
    pub fn date(&self) -> (r: &Date)
        ensures
            r@ == self@.date,
    {
        &self.date
    }

    /// The optional free-text description.
    pub fn description(&self) -> (r: &Option<String>)
        ensures
            description_view(*r) == self@.description,
    {
        &self.description
    }

    /// Reassembles a period entry from stored parts, verbatim: the path by
    /// which the persistence collaborator rebuilds a loaded entry, which
    /// this engine then treats as trusted input.
    pub fn from_parts(
        duration: Duration,
        period: Period,
        breaks: Vec<Duration>,
        date: Date,
        description: Option<String>,
    ) -> (r: PeriodLog)
        ensures
            r@ == (PeriodLogView {
                duration: duration@,
                period: period@,
                breaks: duration_views(breaks@),
                date: date@,
                description: description_view(description),
            }),
    {
        PeriodLog { duration, period, breaks, date, description }
    }
}

impl DurationLog {
    /// The stored duration of the entry.
    pub fn duration(&self) -> (r: Duration)
        ensures
            r@ == self@.duration,
    {
        self.duration
    }

    /// The date the entry was logged for.
    pub fn date(&self) -> (r: &Date)
        ensures
            r@ == self@.date,
    {
        &self.date
    }

    /// The optional free-text description.
    pub fn description(&self) -> (r: &Option<String>)
        ensures
            description_view(*r) == self@.description,
    {
        &self.description
    }

    /// Reassembles a duration entry from stored parts, verbatim; see
    /// `PeriodLog::from_parts`.
    pub fn from_parts(duration: Duration, date: Date, description: Option<String>) -> (r:
        DurationLog)
        ensures
            r@ == (DurationLogView {
                duration: duration@,
                date: date@,
                description: description_view(description),
            }),
    {
        DurationLog { duration, date, description }
    }
}

impl DurationLog {
    /// A duration entry for `date`, storing the duration verbatim.
    pub fn new(duration: Duration, date: Date, description: String) -> (r: DurationLog)
        ensures
            r@ == (DurationLogView {
                duration: duration@,
                date: date@,
                description: Some(description@),
            }),
    {
        DurationLog { duration, date, description: Some(description) }
    }
}

impl WorkLog {
    /// The effective worked duration stored in the entry.
    pub fn get_duration(&self) -> (d: Duration)
        ensures
            d@ == self@.duration(),
    {
        match self {
            WorkLog::Period(period_log) => period_log.duration,
            WorkLog::Duration(duration_log) => duration_log.duration,
        }
    }

    /// The date the entry was logged for.
    pub fn get_date(&self) -> (d: Date)
        ensures
            d@ == self@.date(),
    {
        match self {
            WorkLog::Period(period_log) => period_log.date,
            WorkLog::Duration(duration_log) => duration_log.date,
        }
    }

    /// A period-based entry; see `PeriodLog::new`.
    pub fn new_period(period: Period, date: Date, desc: String, breaks: Vec<Duration>) -> (r:
        WorkLog)
        requires
            time_minutes(period@.from) <= i32::MAX,
            time_minutes(period@.to) <= i32::MAX,
            forall|k: int|
                0 <= k <= breaks@.len() ==> i32::MIN <= sum_minutes(
                    #[trigger] duration_views(breaks@).take(k),
                ) <= i32::MAX,
            i32::MIN <= period_minutes(period@) - sum_minutes(duration_views(breaks@))
                <= i32::MAX,
        ensures
            r@ == WorkLogView::Period(
                PeriodLogView {
                    duration: period_minutes(period@) - sum_minutes(duration_views(breaks@)),
                    period: period@,
                    breaks: duration_views(breaks@),
                    date: date@,
                    description: Some(desc@),
                },
            ),
    {
        WorkLog::Period(PeriodLog::new(period, date, desc, breaks))
    }

    /// A duration-based entry; see `DurationLog::new`.
    pub fn new_duration(duration: Duration, date: Date, desc: String) -> (r: WorkLog)
        ensures
            r@ == WorkLogView::Duration(
                DurationLogView { duration: duration@, date: date@, description: Some(desc@) },
            ),
    {
        WorkLog::Duration(DurationLog::new(duration, date, desc))
    }
}

/// Rendering of a description: the text itself, or `Work` when absent.
pub open spec fn description_chars(o: Option<Seq<char>>) -> Seq<char> {
    match o {
        Some(s) => s,
        None => "Work"@,
    }
}

/// The break durations joined by commas, in their stored order.
pub open spec fn breaks_joined_chars(bs: Seq<int>) -> Seq<char>
    decreases bs.len(),
{
    if bs.len() == 0 {
        Seq::empty()
    } else if bs.len() == 1 {
        duration_chars(bs[0])
    } else {
        breaks_joined_chars(bs.drop_last()) + ", "@ + duration_chars(bs.last())
    }
}

/// The trailing break list of a period entry: empty when there are no
/// breaks, otherwise a ` | Breaks: ` header followed by the joined list.
pub open spec fn breaks_chars(bs: Seq<int>) -> Seq<char> {
    if bs.len() == 0 {
        Seq::empty()
    } else {
        " | Breaks: "@ + breaks_joined_chars(bs)
    }
}

/// Rendering of a period entry: date, effective duration, period and
/// description, followed by the break list when non-empty.
pub open spec fn period_log_chars(v: PeriodLogView) -> Seq<char> {
    date_chars(v.date) + ": "@ + duration_chars(v.duration) + ", "@ + period_chars(v.period)
        + ", "@ + description_chars(v.description) + breaks_chars(v.breaks)
}

/// Rendering of a duration entry: date, duration and description.
pub open spec fn duration_log_chars(v: DurationLogView) -> Seq<char> {
    date_chars(v.date) + ": "@ + duration_chars(v.duration) + ", "@ + description_chars(
        v.description,
    )
}

/// Rendering of a work entry, whichever variant it is.
pub open spec fn work_log_chars(v: WorkLogView) -> Seq<char> {
    match v {
        WorkLogView::Period(p) => period_log_chars(p),
        WorkLogView::Duration(d) => duration_log_chars(d),
    }
}

/// Appends the trailing break list of a period entry.
fn push_breaks(s: &mut String, breaks: &Vec<Duration>)
    ensures
        final(s)@ == old(s)@ + breaks_chars(duration_views(breaks@)),
{
    let ghost views = duration_views(breaks@);
    if breaks.len() > 0 {
        s.append(" | Breaks: ");
        let first = breaks[0].render();
        s.append(first.as_str());
        proof {
            assert(views.take(1) =~= seq![views[0]]);
        }
        let mut i: usize = 1;
        while i < breaks.len()
            invariant
                1 <= i <= breaks@.len(),
                views == duration_views(breaks@),
                s@ == old(s)@ + " | Breaks: "@ + breaks_joined_chars(views.take(i as int)),
            decreases breaks@.len() - i,
        {
            s.append(", ");
            let next = breaks[i].render();
            s.append(next.as_str());
            proof {
                assert(views.take(i + 1).drop_last() =~= views.take(i as int));
                assert(s@ =~= old(s)@ + " | Breaks: "@ + breaks_joined_chars(views.take(i + 1)));
            }
            i = i + 1;
        }
        proof {
            assert(views.take(breaks@.len() as int) =~= views);
        }
    }
    proof {
        assert(s@ =~= old(s)@ + breaks_chars(views));
    }
}

impl PeriodLog {
    /// The human-readable log line of this entry.
    pub fn render(&self) -> (r: String)
        ensures
            r@ == period_log_chars(self@),
    {
        let mut s = self.date.render();
        s.append(": ");
        let dur = self.duration.render();
        s.append(dur.as_str());
        s.append(", ");
        let per = self.period.render();
        s.append(per.as_str());
        s.append(", ");
        match &self.description {
            Some(text) => s.append(text.as_str()),
            None => s.append("Work"),
        }
        push_breaks(&mut s, &self.breaks);
        proof {
            assert(s@ =~= period_log_chars(self@));
        }
        s
    }
}

impl DurationLog {
    /// The human-readable log line of this entry.
    pub fn render(&self) -> (r: String)
        ensures
            r@ == duration_log_chars(self@),
    {
        let mut s = self.date.render();
        s.append(": ");
        let dur = self.duration.render();
        s.append(dur.as_str());
        s.append(", ");
        match &self.description {
            Some(text) => s.append(text.as_str()),
            None => s.append("Work"),
        }
        proof {
            assert(s@ =~= duration_log_chars(self@));
        }
        s
    }
}

impl WorkLog {
    /// The human-readable log line of this entry.
    pub fn render(&self) -> (r: String)
        ensures
            r@ == work_log_chars(self@),
    {
        match self {
            WorkLog::Period(period_log) => period_log.render(),
            WorkLog::Duration(duration_log) => duration_log.render(),
        }
    }
}

} // verus!
