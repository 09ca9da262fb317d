//! The per-project flex-time ledger: an append-only sequence of work
//! entries plus the project's start date, with the flex-balance computation
//! that compares worked time against an eight-hour weekday baseline.
//!
//! Persistence is an external collaborator: it loads a ledger, hands it to
//! this module, and stores the mutated value back verbatim. The ledger-state
//! decisions it must enforce — refusing to initialize a project twice and
//! refusing to log to one never initialized — are taken here, as
//! distinguishable error kinds.

mod worklog;

pub use self::worklog::{
    description_chars, description_view, duration_log_chars, period_log_chars, work_log_chars,
    DurationLog, DurationLogView, PeriodLog, PeriodLogView, WorkLog, WorkLogView,
};

use vstd::prelude::*;

verus! {

use crate::time::{
    day_number, sum_minutes, valid_date, weekday_count, Date, DateView, Duration,
};

/// A ledger-state error: the distinguishable reasons an operation on a
/// project's ledger is refused.
#[derive(Debug, PartialEq, Eq, Structural, Clone, Copy)]
pub enum LedgerError {
    /// The project was already initialized.
    AlreadyExists,
    /// The project was never initialized.
    NotInitialized,
}

/// Mathematical value of a `ProjectLog`.
pub struct ProjectLogView {
    pub name: Seq<char>,
    pub logs: Seq<WorkLogView>,
    pub start_date: DateView,
}

/// The views of a sequence of work entries.
pub open spec fn work_log_views(s: Seq<WorkLog>) -> Seq<WorkLogView> {
    s.map_values(|l: WorkLog| l@)
}

/// The effective worked minutes of each entry in a sequence.
pub open spec fn log_minutes(s: Seq<WorkLogView>) -> Seq<int> {
    s.map_values(|l: WorkLogView| l.duration())
}

/// One project's ledger: its name, its logged work entries in insertion
/// order, and the project's start date.
#[derive(Debug)]
pub struct ProjectLog {
    name: String,
    logs: Vec<WorkLog>,
    start_date: Date,
}

impl View for ProjectLog {
    type V = ProjectLogView;

    closed spec fn view(&self) -> ProjectLogView {
        ProjectLogView {
            name: self.name@,
            logs: work_log_views(self.logs@),
            start_date: self.start_date@,
        }
    }
}

/// Appending one element to a sequence appends it to the filtered sequence
/// exactly when it satisfies the predicate.
proof fn lemma_filter_push<A>(s: Seq<A>, x: A, pred: spec_fn(A) -> bool)
    ensures
        (s.push(x)).filter(pred) == if pred(x) {
            s.filter(pred).push(x)
        } else {
            s.filter(pred)
        },
{
    reveal(Seq::filter);
    assert(s.push(x).drop_last() =~= s);
    assert(s.push(x).last() == x);
}

impl ProjectLog {
    /// Begins a fresh, empty ledger for a project. The persistence
    /// collaborator reports through `already_exists` whether a ledger for
    /// the same project identity is already stored; initialization is then
    /// refused with `AlreadyExists`.
    pub fn init(name: String, start_date: Date, already_exists: bool) -> (r: Result<
        ProjectLog,
        LedgerError,
    >)
        ensures
            already_exists ==> r == Err::<ProjectLog, LedgerError>(LedgerError::AlreadyExists),
            !already_exists ==> match r {
                Ok(p) => {
                    &&& p@.name == name@
                    &&& p@.logs == Seq::<WorkLogView>::empty()
                    &&& p@.start_date == start_date@
                },
                Err(_) => false,
            },
    {
        if already_exists {
            Err(LedgerError::AlreadyExists)
        } else {
            let project = ProjectLog { name, logs: Vec::new(), start_date };
            proof {
                assert(project@.logs =~= Seq::<WorkLogView>::empty());
            }
            Ok(project)
        }
    }

    /// Accepts a ledger loaded by the persistence collaborator, or refuses
    /// with `NotInitialized` when none was stored for the project.
    pub fn open(loaded: Option<ProjectLog>) -> (r: Result<ProjectLog, LedgerError>)
        ensures
            match loaded {
                Some(p) => r == Ok::<ProjectLog, LedgerError>(p),
                None => r == Err::<ProjectLog, LedgerError>(LedgerError::NotInitialized),
            },
    {
        match loaded {
            Some(p) => Ok(p),
            None => Err(LedgerError::NotInitialized),
        }
    }

    /// Appends an entry at the end of the ledger, in call order; nothing is
    /// sorted, deduplicated or validated against the start date.
    pub fn log(&mut self, worklog: WorkLog)
        ensures
            final(self)@.name == old(self)@.name,
            final(self)@.start_date == old(self)@.start_date,
            final(self)@.logs == old(self)@.logs.push(worklog@),
    {
        let ghost entry_view = worklog@;
        self.logs.push(worklog);
        proof {
            assert(self@.logs =~= old(self)@.logs.push(entry_view));
        }
    }

    /// Removes every entry logged for `date` and keeps all others in their
    /// original relative order.
    pub fn delete_by_date(&mut self, date: &Date)
        ensures
            final(self)@.name == old(self)@.name,
            final(self)@.start_date == old(self)@.start_date,
            final(self)@.logs == old(self)@.logs.filter(
                |l: WorkLogView| l.date() != date@,
            ),
    {
        let ghost orig = old(self)@.logs;
        let ghost pred = |l: WorkLogView| l.date() != date@;
        let mut i: usize = 0;
        let ghost j: int = 0;
        proof {
            reveal(Seq::filter);
            assert(orig.take(0) =~= Seq::<WorkLogView>::empty());
            assert(self@.logs =~= orig.take(0).filter(pred) + orig.skip(0));
        }
        while i < self.logs.len()
            invariant
                0 <= i as int <= j <= orig.len(),
                self@.name == old(self)@.name,
                self@.start_date == old(self)@.start_date,
                orig == old(self)@.logs,
                pred == (|l: WorkLogView| l.date() != date@),
                self@.logs == orig.take(j).filter(pred) + orig.skip(j),
                i as int == orig.take(j).filter(pred).len(),
            decreases orig.len() - j,
        {
            let ghost current = orig[j];
            proof {
                assert(orig.take(j + 1).drop_last() =~= orig.take(j));
                lemma_filter_push(orig.take(j), current, pred);
                assert(orig.take(j + 1) =~= orig.take(j).push(current));
                assert(self@.logs[i as int] == orig.skip(j)[0]);
                assert(orig.skip(j)[0] == current);
            }
            let entry_date = self.logs[i].get_date();
            proof {
                crate::time::lemma_date_eq_view(entry_date, *date);
                assert(entry_date@ == current.date());
            }
            if entry_date == *date {
                proof {
                    assert(!pred(current));
                }
                let ghost prev = self.logs@;
                self.logs.remove(i);
                proof {
                    assert(work_log_views(self.logs@) =~= work_log_views(prev).remove(i as int));
                    assert(orig.skip(j).subrange(1, orig.skip(j).len() as int) =~= orig.skip(
                        j + 1,
                    ));
                    assert((orig.take(j).filter(pred) + orig.skip(j)).remove(i as int) =~= orig.take(
                        j,
                    ).filter(pred) + orig.skip(j + 1));
                    assert(self@.logs =~= orig.take(j + 1).filter(pred) + orig.skip(j + 1));
                }
            } else {
                proof {
                    assert(pred(current));
                }
                i = i + 1;
                proof {
                    assert(orig.skip(j).subrange(1, orig.skip(j).len() as int) =~= orig.skip(
                        j + 1,
                    ));
                    assert(self@.logs =~= orig.take(j + 1).filter(pred) + orig.skip(j + 1));
                }
            }
            proof {
                j = j + 1;
            }
        }
        proof {
            assert(j == orig.len());
            assert(orig.take(j) =~= orig);
            assert(self@.logs =~= orig.filter(pred));
            assert(pred =~= (|l: WorkLogView| l.date() != date@));
        }
    }

    /// The flex balance as of `today`: the sum of all entries' effective
    /// durations, minus eight hours for every weekday from the project's
    /// start date through `today` inclusive.
    pub fn get_flex_time(&self, today: &Date) -> (flex: Duration)
        requires
            valid_date(self@.start_date),
            valid_date(today@),
            forall|k: int|
                0 <= k <= self@.logs.len() ==> i32::MIN <= sum_minutes(
                    #[trigger] log_minutes(self@.logs).take(k),
                ) <= i32::MAX,
            i32::MIN <= sum_minutes(log_minutes(self@.logs)) - 480 * weekday_count(
                day_number(self@.start_date),
                day_number(today@),
            ),
        ensures
            flex@ == sum_minutes(log_minutes(self@.logs)) - 480 * weekday_count(
                day_number(self@.start_date),
                day_number(today@),
            ),
    {
        let ghost minutes = log_minutes(self@.logs);
        let mut worked = Duration::from_m(0);
        let mut i: usize = 0;
        proof {
            assert(minutes.take(0) =~= Seq::<int>::empty());
        }
        while i < self.logs.len()
            invariant
                0 <= i <= self.logs@.len(),
                minutes == log_minutes(self@.logs),
                self@.logs.len() == self.logs@.len(),
                worked@ == sum_minutes(minutes.take(i as int)),
                forall|k: int|
                    0 <= k <= self@.logs.len() ==> i32::MIN <= sum_minutes(
                        #[trigger] log_minutes(self@.logs).take(k),
                    ) <= i32::MAX,
            decreases self.logs@.len() - i,
        {
            proof {
                assert(minutes.take(i + 1).drop_last() =~= minutes.take(i as int));
                assert(minutes.take(i + 1).last() == self@.logs[i as int].duration());
            }
            worked = worked.add(self.logs[i].get_duration());
            i = i + 1;
        }
        proof {
            assert(minutes.take(self.logs@.len() as int) =~= minutes);
        }
        let weekdays = self.start_date.weekdays_since(today);
        let expected = Duration::from_hm((weekdays * 8) as i32, 0);
        worked.sub(expected)
    }

    /// The project's name.
    pub fn name(&self) -> (r: &String)
        ensures
            r@ == self@.name,
    {
        &self.name
    }

    /// The logged entries, in insertion order.
    pub fn logs(&self) -> (r: &Vec<WorkLog>)
        ensures
            work_log_views(r@) == self@.logs,
    {
        &self.logs
    }

    /// The project's start date.
    pub fn start_date(&self) -> (r: Date)
        ensures
            r@ == self@.start_date,
    {
        self.start_date
    }

    /// Reassembles a ledger from its parts, stored verbatim: the path by
    /// which the persistence collaborator rebuilds a loaded ledger, which
    /// this engine then treats as trusted input.
    pub fn from_parts(name: String, logs: Vec<WorkLog>, start_date: Date) -> (r: ProjectLog)
        ensures
            r@.name == name@,
            r@.logs == work_log_views(logs@),
            r@.start_date == start_date@,
    {
        ProjectLog { name, logs, start_date }
    }
}

} // verus!
