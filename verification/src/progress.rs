//! Milestone detection for the progress observer: the feed is consumed
//! most-recent-first, and a milestone fires whenever the calendar month of
//! the current record differs from the previous record's (the first record
//! always fires one). The month-tracking state is an explicit value, never
//! a hidden global.

use vstd::prelude::*;

verus! {

/// The UTC calendar year of a unix second.
pub uninterp spec fn spec_year_of(ts: i64) -> i32;

/// The UTC calendar month of a unix second, numbered from 1.
pub uninterp spec fn spec_month_of(ts: i64) -> u32;

/// Whether a unix second has a calendar position at all: false only for
/// seconds beyond the representable range of dates.
pub uninterp spec fn spec_ts_in_calendar(ts: i64) -> bool;

/// Relies on `chrono::DateTime::<Utc>::from_timestamp` and on
/// `chrono::Datelike::year` and `chrono::Datelike::month`: the UTC
/// calendar year and month of a unix second are functions of that second
/// alone; the month is numbered from 1 to 12; `None` comes exactly for
/// the seconds that fall outside the representable range of dates, a
/// fixed condition on the second alone.
#[verifier::external_body]
pub(crate) fn year_month_of(ts: i64) -> (r: Option<(i32, u32)>)
    ensures
        r is Some <==> spec_ts_in_calendar(ts),
        r matches Some(p) ==> p.0 == spec_year_of(ts) && p.1 == spec_month_of(ts) && 1 <= p.1
            <= 12,
{
    chrono::DateTime::from_timestamp(ts, 0).map(|d| (chrono::Datelike::year(&d),
        chrono::Datelike::month(&d)))
}

/// Whether two dates, each given as its (year, month) pair, fall in the
/// same calendar month of the same year.
pub fn same_month(a: (i32, u32), b: (i32, u32)) -> (r: bool)
    ensures
        r == (a == b),
{
    a.0 == b.0 && a.1 == b.1
}

/// The month-tracking state of a run: the (year, month) of the previous
/// record, absent before the first record.
pub struct MonthTracker {
    pub prev: Option<(i32, u32)>,
}

impl MonthTracker {
    /// Before the first record no month has been seen.
    pub fn new() -> (r: MonthTracker)
        ensures
            r.prev is None,
    {
        MonthTracker { prev: None }
    }

    /// Observe a record's (year, month): a milestone fires for the first
    /// record and whenever the month differs from the previous record's;
    /// ties inside a month do not fire.
    pub fn observe(&mut self, ym: (i32, u32)) -> (fires: bool)
        ensures
            final(self).prev == Some(ym),
            fires == (old(self).prev != Some(ym)),
    {
        let fires = match self.prev {
            Some(p) => !(p.0 == ym.0 && p.1 == ym.1),
            None => true,
        };
        self.prev = Some(ym);
        fires
    }

    /// Observe a record by its unix-second timestamp. Every timestamp
    /// with a calendar position is observed, and its milestone decided;
    /// only a timestamp without one is skipped, with the state unchanged.
    pub fn observe_timestamp(&mut self, ts: i64) -> (r: Option<bool>)
        ensures
            r is Some <==> spec_ts_in_calendar(ts),
            match r {
                Some(fires) => final(self).prev == Some((spec_year_of(ts), spec_month_of(ts)))
                    && fires == (old(self).prev != Some((spec_year_of(ts), spec_month_of(ts)))),
                None => *final(self) == *old(self),
            },
    {
        match year_month_of(ts) {
            Some(ym) => Some(self.observe(ym)),
            None => None,
        }
    }
}

/// Whether the total-record count has been delivered to the observer yet.
/// The count is delivered once, when first known: the feed's leaner
/// variant leaves it out (reported as 0, "unknown"), and only a known,
/// nonzero count is worth delivering.
pub struct TotalTracker {
    pub delivered: bool,
}

impl TotalTracker {
    /// Before the first page nothing has been delivered.
    pub fn new() -> (r: TotalTracker)
        ensures
            !r.delivered,
    {
        TotalTracker { delivered: false }
    }

    /// Observe the total a page reports: the count to hand to the
    /// observer on the first call that carries a known total, and nothing
    /// on any later call or while the total stays unknown.
    pub fn observe_total(&mut self, total: u64) -> (r: Option<u64>)
        ensures
            r == (if !old(self).delivered && total > 0 {
                Some(total)
            } else {
                None::<u64>
            }),
            final(self).delivered == (old(self).delivered || total > 0),
    {
        if !self.delivered && total > 0 {
            self.delivered = true;
            Some(total)
        } else {
            None
        }
    }
}

} // verus!
