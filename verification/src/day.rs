//! A single calendar day's work session, with a start/end/closing lifecycle.
//!
//! A day stores optional start and end points in time (seconds), the worked
//! time in whole minutes, the paused time in whole minutes, and the calendar
//! date it belongs to. When both boundary times are set the day closes and
//! the worked minutes are computed from the two times and the pause.

use vstd::arithmetic::div_mod::{lemma_div_is_ordered, lemma_div_pos_is_pos};
use vstd::prelude::*;

use crate::clock::{current_week_number, now_seconds, today};
use crate::date::Date;

verus! {

/// Lowest point in time the library stores, in seconds.
pub const TIME_MIN_SECONDS: i64 = -8_400_000_000_000;

/// Highest point in time the library stores, in seconds.
pub const TIME_MAX_SECONDS: i64 = 8_400_000_000_000;

/// Bound on the worked minutes a single day can record; it follows from the
/// two bounds above together with the largest possible pause.
pub const DAY_MINUTES_LIMIT: i64 = 300_000_000_000;

/// A full work day in minutes; shorter closed days are flagged to the caller.
pub const WORK_DAY_MINUTES: i64 = 480;

/// Minutes of a duration given in seconds, truncated toward zero.
pub open spec fn minutes_of_seconds(diff: int) -> int {
    if diff >= 0 {
        diff / 60
    } else {
        -((-diff) / 60)
    }
}

/// Net worked minutes: the pause is subtracted, unless that would make the
/// result negative, in which case the pause is discounted entirely.
pub open spec fn net_minutes(worked: int, paused: int) -> int {
    if worked - paused < 0 {
        worked
    } else {
        worked - paused
    }
}

/// The worked minutes of a day from its boundary times and pause. With a
/// boundary missing the duration counts as zero.
pub open spec fn day_minutes(start: Option<i64>, end: Option<i64>, paused: u32) -> int {
    let diff: int = match (start, end) {
        (Some(s), Some(e)) => e - s,
        _ => 0,
    };
    net_minutes(minutes_of_seconds(diff), paused as int)
}

/// True when every day in the list is well-formed.
pub open spec fn days_wf(days: Seq<Day>) -> bool {
    forall|i: int| 0 <= i < days.len() ==> #[trigger] days[i].wf()
}

/// A day's work session.
pub struct Day {
    /// Start of the work day, in seconds, once set.
    pub starting_time: Option<i64>,
    /// End of the work day, in seconds, once set.
    pub ending_time: Option<i64>,
    /// Worked minutes, fixed whenever the day closes.
    pub hours: i64,
    /// Free-form note on the work done.
    pub extra_info: String,
    /// When the day record was created, in seconds.
    pub created: i64,
    /// ISO week number the day was created in.
    pub week: u32,
    /// Calendar date of the day.
    pub date: Date,
    /// Whether the starting time has been set.
    pub start_time_set: bool,
    /// Whether the ending time has been set.
    pub ending_time_set: bool,
    /// Whether the day is closed: both boundary times set.
    pub closed: bool,
    /// Paused minutes.
    pub hours_paused: u32,
}

impl Day {
    /// Well-formedness: the three flags agree with the stored times, the
    /// times lie in the library's range, and the worked minutes are bounded.
    pub open spec fn wf(self) -> bool {
        &&& self.start_time_set == self.starting_time is Some
        &&& self.ending_time_set == self.ending_time is Some
        &&& self.closed == (self.start_time_set && self.ending_time_set)
        &&& (self.starting_time matches Some(t) ==> TIME_MIN_SECONDS <= t <= TIME_MAX_SECONDS)
        &&& (self.ending_time matches Some(t) ==> TIME_MIN_SECONDS <= t <= TIME_MAX_SECONDS)
        &&& -DAY_MINUTES_LIMIT <= self.hours <= DAY_MINUTES_LIMIT
    }

    /// The day after its starting time is set to `v`: the flag is raised and,
    /// if the ending time was already set, the day closes and the worked
    /// minutes are recomputed.
    pub open spec fn with_starting_time(self, v: i64) -> Day {
        let d = Day { starting_time: Some(v), start_time_set: true, ..self };
        if d.ending_time_set {
            Day {
                closed: true,
                hours: day_minutes(Some(v), d.ending_time, d.hours_paused) as i64,
                ..d
            }
        } else {
            d
        }
    }

    /// The day after its ending time is set to `v`, symmetric to
    /// [`Self::with_starting_time`].
    pub open spec fn with_ending_time(self, v: i64) -> Day {
        let d = Day { ending_time: Some(v), ending_time_set: true, ..self };
        if d.start_time_set {
            Day {
                closed: true,
                hours: day_minutes(d.starting_time, Some(v), d.hours_paused) as i64,
                ..d
            }
        } else {
            d
        }
    }

    /// Create a new, open day stamped with the current date and week number.
    pub fn new(extra_info: Option<String>) -> (r: Day)
        ensures
            r.wf(),
            r.starting_time is None,
            r.ending_time is None,
            !r.start_time_set,
            !r.ending_time_set,
            !r.closed,
            r.hours == 0,
            r.hours_paused == 0,
            (extra_info matches Some(s) ==> r.extra_info == s),
            (extra_info is None ==> r.extra_info@.len() == 0),
            1 <= r.week <= 53,
            r.date.valid(),
    {
        let info = match extra_info {
            Some(s) => s,
            None => String::new(),
        };
        Day {
            starting_time: None,
            ending_time: None,
            hours: 0,
            extra_info: info,
            created: now_seconds(),
            week: current_week_number(),
            date: today(),
            start_time_set: false,
            ending_time_set: false,
            closed: false,
            hours_paused: 0,
        }
    }

    /// Rebuild a day from stored parts. The flags are derived from the two
    /// optional times. Returns `None` when a time lies outside the library's
    /// range or the worked minutes exceed their bound.
    pub fn from_parts(
        starting_time: Option<i64>,
        ending_time: Option<i64>,
        hours: i64,
        extra_info: String,
        created: i64,
        week: u32,
        date: Date,
        hours_paused: u32,
    ) -> (r: Option<Day>)
        ensures
            r is Some <==> {
                &&& (starting_time matches Some(t) ==> TIME_MIN_SECONDS <= t <= TIME_MAX_SECONDS)
                &&& (ending_time matches Some(t) ==> TIME_MIN_SECONDS <= t <= TIME_MAX_SECONDS)
                &&& -DAY_MINUTES_LIMIT <= hours <= DAY_MINUTES_LIMIT
            },
            r matches Some(d) ==> {
                &&& d.wf()
                &&& d.starting_time == starting_time
                &&& d.ending_time == ending_time
                &&& d.hours == hours
                &&& d.extra_info == extra_info
                &&& d.created == created
                &&& d.week == week
                &&& d.date == date
                &&& d.hours_paused == hours_paused
                &&& d.start_time_set == starting_time is Some
                &&& d.ending_time_set == ending_time is Some
                &&& d.closed == (starting_time is Some && ending_time is Some)
            },
    {
        let start_ok = match starting_time {
            Some(t) => TIME_MIN_SECONDS <= t && t <= TIME_MAX_SECONDS,
            None => true,
        };
        let end_ok = match ending_time {
            Some(t) => TIME_MIN_SECONDS <= t && t <= TIME_MAX_SECONDS,
            None => true,
        };
        if !(start_ok && end_ok && -DAY_MINUTES_LIMIT <= hours && hours <= DAY_MINUTES_LIMIT) {
            return None;
        }
        let start_time_set = starting_time.is_some();
        let ending_time_set = ending_time.is_some();
        Some(
            Day {
                starting_time,
                ending_time,
                hours,
                extra_info,
                created,
                week,
                date,
                start_time_set,
                ending_time_set,
                closed: start_time_set && ending_time_set,
                hours_paused,
            },
        )
    }

    /// Getter for `hours`: the worked minutes.
    pub fn hours(&self) -> (r: i64)
        ensures
            r == self.hours,
    {
        self.hours
    }

    /// Getter for `extra_info`.
    pub fn extra_info(&self) -> (r: &str)
        ensures
            r@ == self.extra_info@,
    {
        self.extra_info.as_str()
    }

    /// Setter for `extra_info`.
    pub fn set_extra_info(&mut self, info: String)
        ensures
            *final(self) == (Day { extra_info: info, ..*old(self) }),
    {
        self.extra_info = info;
    }

    /// Getter for `starting_time`.
    pub fn starting_time(&self) -> (r: Option<i64>)
        ensures
            r == self.starting_time,
    {
        self.starting_time
    }

    /// Getter for `ending_time`.
    pub fn ending_time(&self) -> (r: Option<i64>)
        ensures
            r == self.ending_time,
    {
        self.ending_time
    }

    /// Getter for `hours_paused`: the paused minutes.
    pub fn hours_paused(&self) -> (r: u32)
        ensures
            r == self.hours_paused,
    {
        self.hours_paused
    }

    /// Set the starting time, to `t` when given, else to the current time.
    /// If the ending time is already set, the day closes and the worked
    /// minutes are recomputed.
    pub fn set_starting_time(&mut self, t: Option<i64>)
        requires
            old(self).wf(),
            t matches Some(v) ==> TIME_MIN_SECONDS <= v <= TIME_MAX_SECONDS,
        ensures
            final(self).wf(),
            (t matches Some(v) ==> *final(self) == old(self).with_starting_time(v)),
            (t is None ==> exists|v: i64|
                #![auto]
                TIME_MIN_SECONDS <= v <= TIME_MAX_SECONDS && *final(self) == old(
                    self,
                ).with_starting_time(v)),
    {
        let v = match t {
            Some(v) => v,
            None => clamp_seconds(now_seconds()),
        };
        self.starting_time = Some(v);
        self.start_time_set = true;
        if self.start_time_set && self.ending_time_set {
            self.closed = true;
            self.hours = self.calculate_hours();
        }
        proof {
            assert(TIME_MIN_SECONDS <= v <= TIME_MAX_SECONDS && *self == old(
                self,
            ).with_starting_time(v));
        }
    }

    /// Set the ending time, symmetric to [`Self::set_starting_time`].
    pub fn set_ending_time(&mut self, t: Option<i64>)
        requires
            old(self).wf(),
            t matches Some(v) ==> TIME_MIN_SECONDS <= v <= TIME_MAX_SECONDS,
        ensures
            final(self).wf(),
            (t matches Some(v) ==> *final(self) == old(self).with_ending_time(v)),
            (t is None ==> exists|v: i64|
                #![auto]
                TIME_MIN_SECONDS <= v <= TIME_MAX_SECONDS && *final(self) == old(
                    self,
                ).with_ending_time(v)),
    {
        let v = match t {
            Some(v) => v,
            None => clamp_seconds(now_seconds()),
        };
        self.ending_time = Some(v);
        self.ending_time_set = true;
        if self.start_time_set && self.ending_time_set {
            self.closed = true;
            self.hours = self.calculate_hours();
        }
        proof {
            assert(TIME_MIN_SECONDS <= v <= TIME_MAX_SECONDS && *self == old(
                self,
            ).with_ending_time(v));
        }
    }

    /// Set the paused minutes. Effective only once the starting time is set;
    /// before that the call is ignored. Never recomputes the worked minutes.
    pub fn set_paused_time(&mut self, paused: u32)
        ensures
            (old(self).start_time_set ==> *final(self) == (Day {
                hours_paused: paused,
                ..*old(self)
            })),
            (!old(self).start_time_set ==> *final(self) == *old(self)),
    {
        if self.start_time_set {
            self.hours_paused = paused;
        }
    }

    /// Getter for `week`.
    pub fn week(&self) -> (r: u32)
        ensures
            r == self.week,
    {
        self.week
    }

    /// Getter for `date`.
    pub fn date(&self) -> (r: Date)
        ensures
            r == self.date,
    {
        self.date
    }

    /// Getter for the month of `date`.
    pub fn month(&self) -> (r: u32)
        ensures
            r == self.date.month,
    {
        self.date.month
    }

    /// Getter for the year of `date`.
    pub fn year(&self) -> (r: i32)
        ensures
            r == self.date.year,
    {
        self.date.year
    }

    /// Getter for `start_time_set`.
    pub fn start_time_set(&self) -> (r: bool)
        ensures
            r == self.start_time_set,
    {
        self.start_time_set
    }

    /// Getter for `ending_time_set`.
    pub fn ending_time_set(&self) -> (r: bool)
        ensures
            r == self.ending_time_set,
    {
        self.ending_time_set
    }

    /// Getter for `closed`.
    pub fn closed(&self) -> (r: bool)
        ensures
            r == self.closed,
    {
        self.closed
    }

    /// True for a closed day whose worked minutes fall short of a full work
    /// day; callers surface this to the user as an informational notice.
    pub fn below_work_day(&self) -> (r: bool)
        ensures
            r == (self.closed && self.hours < WORK_DAY_MINUTES),
    {
        self.closed && self.hours < WORK_DAY_MINUTES
    }

    /// Compute the worked minutes from the stored times and pause.
    fn calculate_hours(&self) -> (r: i64)
        requires
            (self.starting_time matches Some(t) ==> TIME_MIN_SECONDS <= t <= TIME_MAX_SECONDS),
            (self.ending_time matches Some(t) ==> TIME_MIN_SECONDS <= t <= TIME_MAX_SECONDS),
        ensures
            r == day_minutes(self.starting_time, self.ending_time, self.hours_paused),
            -DAY_MINUTES_LIMIT <= r <= DAY_MINUTES_LIMIT,
    {
        let diff: i64 = match (self.ending_time, self.starting_time) {
            (Some(end), Some(start)) => end - start,
            _ => 0,
        };
        let worked: i64 = if diff >= 0 {
            proof {
                lemma_div_pos_is_pos(diff as int, 60);
                lemma_div_is_ordered(diff as int, 2 * TIME_MAX_SECONDS as int, 60);
            }
            diff / 60
        } else {
            proof {
                lemma_div_pos_is_pos(-diff as int, 60);
                lemma_div_is_ordered(-diff as int, 2 * TIME_MAX_SECONDS as int, 60);
            }
            -(-diff / 60)
        };
        let net: i64 = worked - self.hours_paused as i64;
        if net < 0 {
            worked
        } else {
            net
        }
    }
}

/// Clamp a point in time into the library's range; times inside the range
/// pass through unchanged.
pub(crate) fn clamp_seconds(t: i64) -> (r: i64)
    ensures
        TIME_MIN_SECONDS <= r <= TIME_MAX_SECONDS,
        (TIME_MIN_SECONDS <= t <= TIME_MAX_SECONDS ==> r == t),
{
    if t < TIME_MIN_SECONDS {
        TIME_MIN_SECONDS
    } else if t > TIME_MAX_SECONDS {
        TIME_MAX_SECONDS
    } else {
        t
    }
}

impl Clone for Day {
    /// An exact copy of the day.
    fn clone(&self) -> (r: Self)
        ensures
            r == *self,
    {
        Day {
            starting_time: self.starting_time,
            ending_time: self.ending_time,
            hours: self.hours,
            extra_info: self.extra_info.clone(),
            created: self.created,
            week: self.week,
            date: self.date,
            start_time_set: self.start_time_set,
            ending_time_set: self.ending_time_set,
            closed: self.closed,
            hours_paused: self.hours_paused,
        }
    }
}

} // verus!
