//! A week of work days, keyed by week number and year.

use vstd::prelude::*;

use crate::date::Date;
use crate::day::{days_wf, Day};

verus! {

/// True when some day in `days` falls on `date`.
pub open spec fn has_date(days: Seq<Day>, date: Date) -> bool {
    exists|i: int| 0 <= i < days.len() && days[i].date == date
}

/// True when `i` is the position of the first day falling on `date`.
pub open spec fn first_day_on_date(days: Seq<Day>, date: Date, i: int) -> bool {
    &&& 0 <= i < days.len()
    &&& days[i].date == date
    &&& forall|j: int| 0 <= j < i ==> days[j].date != date
}

/// Among days holding some day on `date`, there is a first one.
pub proof fn lemma_first_day_on_date_exists(days: Seq<Day>, date: Date)
    requires
        has_date(days, date),
    ensures
        exists|k: int| first_day_on_date(days, date, k),
    decreases days.len(),
{
    if days[0].date == date {
        assert(first_day_on_date(days, date, 0));
    } else {
        let sub = days.subrange(1, days.len() as int);
        let i = choose|i: int| 0 <= i < days.len() && days[i].date == date;
        assert(sub[i - 1] == days[i]);
        assert(has_date(sub, date));
        lemma_first_day_on_date_exists(sub, date);
        let k = choose|k: int| first_day_on_date(sub, date, k);
        assert(forall|j: int| 1 <= j < k + 1 ==> days[j] == sub[j - 1]);
        assert(first_day_on_date(days, date, k + 1));
    }
}

/// The days with every one falling on `date` removed, in their original
/// order.
pub open spec fn days_without_date(days: Seq<Day>, date: Date) -> Seq<Day>
    decreases days.len(),
{
    if days.len() == 0 {
        Seq::empty()
    } else {
        days_without_date(days.drop_last(), date) + if days.last().date == date {
            Seq::empty()
        } else {
            seq![days.last()]
        }
    }
}

/// A day, merged field by field with an incoming day for the same date.
/// Only fields still unset on `d` are adopted from `incoming`: each boundary
/// time only if unset (re-triggering the closing transition), and the note
/// only if empty. The pause is never merged.
pub open spec fn merged_day(d: Day, incoming: Day) -> Day {
    let d1 = if !d.start_time_set && incoming.start_time_set {
        d.with_starting_time(time_or_zero(incoming.starting_time))
    } else {
        d
    };
    let d2 = if !d1.ending_time_set && incoming.ending_time_set {
        d1.with_ending_time(time_or_zero(incoming.ending_time))
    } else {
        d1
    };
    if d2.extra_info@.len() == 0 && incoming.extra_info@.len() > 0 {
        Day { extra_info: incoming.extra_info, ..d2 }
    } else {
        d2
    }
}

/// The stored time, or zero when unset.
pub open spec fn time_or_zero(t: Option<i64>) -> i64 {
    match t {
        Some(v) => v,
        None => 0,
    }
}

/// Merging never changes a field that was already set on the target day:
/// a set starting or ending time stays as it was, a non-empty note stays as
/// it was, and the pause, date, week number and creation time are never
/// merged at all.
pub proof fn lemma_merge_preserves_set_fields(d: Day, incoming: Day)
    requires
        d.wf(),
        incoming.wf(),
    ensures
        d.start_time_set ==> merged_day(d, incoming).starting_time == d.starting_time,
        d.ending_time_set ==> merged_day(d, incoming).ending_time == d.ending_time,
        d.extra_info@.len() > 0 ==> merged_day(d, incoming).extra_info == d.extra_info,
        merged_day(d, incoming).hours_paused == d.hours_paused,
        merged_day(d, incoming).date == d.date,
        merged_day(d, incoming).week == d.week,
        merged_day(d, incoming).created == d.created,
{
}

/// Once a day is closed its worked minutes are fixed: they were computed
/// from the boundary times and the pause at the moment of closing, and no
/// operation short of an explicit re-set of a boundary time recomputes
/// them — not a merge, not a change of the pause, not a change of the note.
pub proof fn lemma_closed_day_hours_stable(d: Day, incoming: Day, paused: u32, info: String)
    requires
        d.wf(),
        d.closed,
    ensures
        merged_day(d, incoming).hours == d.hours,
        merged_day(d, incoming).closed,
        (Day { hours_paused: paused, ..d }).hours == d.hours,
        (Day { extra_info: info, ..d }).hours == d.hours,
{
}

/// An ISO-style week: a (number, year)-keyed list of days and the hour
/// target, in minutes, that was configured when the week was created.
pub struct Week {
    /// Week number.
    pub number: u32,
    /// Work days, in insertion order; at most one per date, enforced by the
    /// caller that admits days, not here.
    pub entries: Vec<Day>,
    /// Year.
    pub year: i32,
    /// Target minutes for the week, captured once at creation.
    pub target_hours: u32,
}

impl Week {
    /// Well-formedness: every stored day is well-formed.
    pub open spec fn wf(self) -> bool {
        days_wf(self.entries@)
    }

    /// Create a new, empty week.
    pub fn new(number: u32, year: i32, target_hours: u32) -> (r: Week)
        ensures
            r.number == number,
            r.year == year,
            r.target_hours == target_hours,
            r.entries@.len() == 0,
            r.wf(),
    {
        Week { number, entries: Vec::new(), year, target_hours }
    }

    /// Getter for `number`.
    pub fn number(&self) -> (r: u32)
        ensures
            r == self.number,
    {
        self.number
    }

    /// Getter for `entries`.
    pub fn entries(&self) -> (r: &Vec<Day>)
        ensures
            r == &self.entries,
    {
        &self.entries
    }

    /// Getter for `year`.
    pub fn year(&self) -> (r: i32)
        ensures
            r == self.year,
    {
        self.year
    }

    /// Getter for `target_hours`: the week's target in minutes.
    pub fn target_hours(&self) -> (r: u32)
        ensures
            r == self.target_hours,
    {
        self.target_hours
    }

    /// Append a day unconditionally; the caller is expected to have checked
    /// that no stored day falls on the same date.
    pub fn add_entry(&mut self, entry: Day)
        requires
            old(self).wf(),
            entry.wf(),
        ensures
            final(self).entries@ == old(self).entries@.push(entry),
            final(self).number == old(self).number,
            final(self).year == old(self).year,
            final(self).target_hours == old(self).target_hours,
            final(self).wf(),
    {
        self.entries.push(entry);
    }

    /// Check whether a day with the same date as `entry` is stored.
    pub fn contains_day(&self, entry: &Day) -> (r: bool)
        ensures
            r == has_date(self.entries@, entry.date),
    {
        self.exist(&entry.date())
    }

    /// Check whether a day on the given date is stored.
    pub fn exist(&self, date: &Date) -> (r: bool)
        ensures
            r == has_date(self.entries@, *date),
    {
        let n = self.entries.len();
        let mut i: usize = 0;
        while i < n
            invariant
                n == self.entries@.len(),
                0 <= i <= n,
                forall|j: int| 0 <= j < i ==> self.entries@[j].date != *date,
            decreases n - i,
        {
            if self.entries[i].date == *date {
                return true;
            }
            i += 1;
        }
        false
    }

    /// Position of the first stored day on the given date, if any.
    pub(crate) fn find_day(&self, date: &Date) -> (r: Option<usize>)
        ensures
            r is Some <==> has_date(self.entries@, *date),
            (r matches Some(k) ==> first_day_on_date(self.entries@, *date, k as int)),
    {
        let n = self.entries.len();
        let mut i: usize = 0;
        while i < n
            invariant
                n == self.entries@.len(),
                0 <= i <= n,
                forall|j: int| 0 <= j < i ==> self.entries@[j].date != *date,
            decreases n - i,
        {
            if self.entries[i].date == *date {
                proof {
                    assert(first_day_on_date(self.entries@, *date, i as int));
                }
                return Some(i);
            }
            i += 1;
        }
        None
    }

    /// Merge `entry` into the stored day with the same date, field by field:
    /// already-set fields of the stored day are never overwritten. Fails,
    /// changing nothing, when no day has that date or the stored day is
    /// already closed.
    pub fn merge_day(&mut self, entry: &Day) -> (r: bool)
        requires
            old(self).wf(),
            entry.wf(),
        ensures
            final(self).wf(),
            final(self).number == old(self).number,
            final(self).year == old(self).year,
            final(self).target_hours == old(self).target_hours,
            (!has_date(old(self).entries@, entry.date) ==> !r && *final(self) == *old(self)),
            r == (exists|i: int|
                #[trigger] first_day_on_date(old(self).entries@, entry.date, i)
                    && !old(self).entries@[i].closed),
            (r ==> exists|i: int|
                #[trigger] first_day_on_date(old(self).entries@, entry.date, i) && !old(
                    self,
                ).entries@[i].closed && final(self).entries@ == old(self).entries@.update(
                    i,
                    merged_day(old(self).entries@[i], *entry),
                )),
            (!r ==> *final(self) == *old(self)),
    {
        let n = self.entries.len();
        let mut i: usize = 0;
        while i < n
            invariant
                *self == *old(self),
                old(self).wf(),
                entry.wf(),
                n == self.entries@.len(),
                0 <= i <= n,
                forall|j: int| 0 <= j < i ==> self.entries@[j].date != entry.date,
            decreases n - i,
        {
            if self.entries[i].date == entry.date {
                proof {
                    assert(first_day_on_date(self.entries@, entry.date, i as int));
                }
                if self.entries[i].closed {
                    return false;
                }
                let ghost old_entries = self.entries@;
                proof {
                    assert(old(self).entries@[i as int].wf());
                }
                let mut day = self.entries.remove(i);
                if !day.start_time_set() && entry.start_time_set() {
                    day.set_starting_time(entry.starting_time());
                }
                if !day.ending_time_set() && entry.ending_time_set() {
                    day.set_ending_time(entry.ending_time());
                }
                if day.extra_info().is_empty() && !entry.extra_info().is_empty() {
                    day.set_extra_info(entry.extra_info.clone());
                }
                proof {
                    assert(day == merged_day(old_entries[i as int], *entry));
                    assert(day.wf());
                }
                self.entries.insert(i, day);
                proof {
                    assert(self.entries@ =~= old_entries.update(
                        i as int,
                        merged_day(old_entries[i as int], *entry),
                    ));
                    assert forall|k: int| 0 <= k < self.entries@.len() implies #[trigger] self
                        .entries@[k].wf() by {
                        if k != i as int {
                            assert(self.entries@[k] == old_entries[k]);
                        }
                    }
                }
                return true;
            }
            i += 1;
        }
        false
    }

    /// Return a copy of the first stored day on the given date, if any.
    pub fn get_day_copy(&self, date: &Date) -> (r: Option<Day>)
        ensures
            r is Some <==> has_date(self.entries@, *date),
            (r matches Some(d) ==> exists|i: int|
                first_day_on_date(self.entries@, *date, i) && d == self.entries@[i]),
    {
        let n = self.entries.len();
        let mut i: usize = 0;
        while i < n
            invariant
                n == self.entries@.len(),
                0 <= i <= n,
                forall|j: int| 0 <= j < i ==> self.entries@[j].date != *date,
            decreases n - i,
        {
            if self.entries[i].date == *date {
                let d = self.entries[i].clone();
                proof {
                    assert(first_day_on_date(self.entries@, *date, i as int));
                }
                return Some(d);
            }
            i += 1;
        }
        None
    }

    /// Remove every stored day on the given date. Reports `false`, and
    /// changes nothing, when no day falls on it.
    pub fn remove_listed_day(&mut self, date: &Date) -> (r: bool)
        requires
            old(self).wf(),
        ensures
            final(self).wf(),
            final(self).number == old(self).number,
            final(self).year == old(self).year,
            final(self).target_hours == old(self).target_hours,
            r == has_date(old(self).entries@, *date),
            (r ==> final(self).entries@ == days_without_date(old(self).entries@, *date)),
            (!r ==> *final(self) == *old(self)),
    {
        if self.exist(date) {
            let n = self.entries.len();
            let mut kept: Vec<Day> = Vec::new();
            let mut i: usize = 0;
            while i < n
                invariant
                    n == self.entries@.len(),
                    0 <= i <= n,
                    kept@ == days_without_date(self.entries@.take(i as int), *date),
                    forall|j: int| 0 <= j < kept@.len() ==> #[trigger] kept@[j].wf(),
                    forall|j: int| 0 <= j < n ==> #[trigger] self.entries@[j].wf(),
                decreases n - i,
            {
                proof {
                    assert(self.entries@.take(i + 1 as int).drop_last() =~= self.entries@.take(
                        i as int,
                    ));
                    assert(self.entries@.take(i + 1 as int).last() == self.entries@[i as int]);
                }
                if self.entries[i].date != *date {
                    let d = self.entries[i].clone();
                    kept.push(d);
                }
                i += 1;
            }
            proof {
                assert(self.entries@.take(n as int) =~= self.entries@);
            }
            self.entries = kept;
            true
        } else {
            false
        }
    }
}

} // verus!
