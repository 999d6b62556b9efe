//! Derived progress of logged hours against a configured or default target.
//!
//! Targets and logged time are both measured in whole minutes. A configured
//! target of zero is the sentinel for "not configured", in which case a
//! built-in default applies.

use vstd::prelude::*;

use crate::day::{days_wf, Day, DAY_MINUTES_LIMIT};
use crate::week::Week;

verus! {

/// Default weekly target in minutes, applied when none is configured.
pub const DEFAULT_WEEK_TARGET_MINUTES: u32 = 2400;

/// Default monthly target in minutes, applied when none is configured.
pub const DEFAULT_MONTH_TARGET_MINUTES: u32 = 9600;

/// Upper bound on a monthly target value; large enough for any sum of
/// stored weekly targets.
pub const MONTH_TARGET_LIMIT: i128 = 0x1_0000_0000_0000_0000_0000_0000;

/// How the logged time stands against the target.
#[derive(Clone, Copy, PartialEq, Eq, Structural, Debug)]
pub enum TargetStatus {
    /// The target is met exactly.
    Reached,
    /// The target is not yet met.
    NotReached,
    /// The target is exceeded.
    OverReached,
}

/// Where the target value came from.
#[derive(Clone, Copy, PartialEq, Eq, Structural, Debug)]
pub enum TargetSetMethod {
    /// The target was configured.
    SetFromConfig,
    /// The built-in default applied.
    SetFromDefault,
}

/// Sum of the worked minutes over a list of days.
pub open spec fn sum_day_minutes(days: Seq<Day>) -> int
    decreases days.len(),
{
    if days.len() == 0 {
        0
    } else {
        sum_day_minutes(days.drop_last()) + days.last().hours
    }
}

/// The target that applies: the configured value, or `default` when the
/// configured value is the zero sentinel.
pub open spec fn chosen_target(conf: int, default: int) -> int {
    if conf != 0 {
        conf
    } else {
        default as int
    }
}

/// How the applying target was chosen.
pub open spec fn set_method_of(conf: int) -> TargetSetMethod {
    if conf != 0 {
        TargetSetMethod::SetFromConfig
    } else {
        TargetSetMethod::SetFromDefault
    }
}

/// Percent of the target that the logged time covers, truncated to a whole
/// number and clamped into the `u32` range; zero whenever nothing positive
/// is logged.
pub open spec fn percentage_of(status: int, target: int) -> int
    recommends
        target > 0,
{
    if status <= 0 {
        0
    } else if status * 100 / target > u32::MAX {
        u32::MAX as int
    } else {
        status * 100 / target
    }
}

/// Classification of a percentage: exactly 100 reaches the target, more
/// overreaches it, anything else falls short.
pub open spec fn classify(percentage: u32) -> TargetStatus {
    if percentage == 100 {
        TargetStatus::Reached
    } else if percentage > 100 {
        TargetStatus::OverReached
    } else {
        TargetStatus::NotReached
    }
}

/// Minutes still to work; negative means overtime.
pub open spec fn remaining_of(target: int, status: int) -> int {
    target - status
}

/// Absolute gap between target and logged minutes.
pub open spec fn difference_of(target: int, status: int) -> int {
    if target - status < 0 {
        -(target - status)
    } else {
        target - status
    }
}

/// The percentage classification is an exact partition: 100 is `Reached`,
/// anything above 100 is `OverReached`, everything else is `NotReached`,
/// and no percentage is left unclassified.
pub proof fn lemma_classification_partition(p: u32)
    ensures
        classify(p) == TargetStatus::Reached <==> p == 100,
        classify(p) == TargetStatus::OverReached <==> p > 100,
        classify(p) == TargetStatus::NotReached <==> p < 100,
        classify(p) == TargetStatus::Reached || classify(p) == TargetStatus::OverReached
            || classify(p) == TargetStatus::NotReached,
{
}

/// The hours gap is never negative, and the sign of the remaining minutes
/// matches the ordering of logged minutes against the target.
pub proof fn lemma_remaining_sign(target: int, status: int)
    ensures
        difference_of(target, status) >= 0,
        remaining_of(target, status) > 0 <==> status < target,
        remaining_of(target, status) < 0 <==> status > target,
        remaining_of(target, status) == 0 <==> status == target,
{
}

/// Derived progress of a week's days against the weekly target.
pub struct WeeklyTargetStatus {
    /// The target that applied, in minutes.
    pub target_hours: i128,
    /// Minutes logged over the week's days.
    pub status_hours: i128,
    /// Absolute gap between target and logged minutes.
    pub hours_difference: i128,
    /// Percent of the target covered, truncated.
    pub percentage: u32,
    /// Minutes still to work; negative means overtime.
    pub remaining_hours: i128,
    /// Classification of the progress.
    pub target_status: TargetStatus,
    /// Where the target value came from.
    pub target_set_method: TargetSetMethod,
}

/// Derived progress of a month's days against the monthly target.
pub struct MonthlyTargetStatus {
    /// The target that applied, in minutes.
    pub target_hours: i128,
    /// Minutes logged over the month's days.
    pub status_hours: i128,
    /// Absolute gap between target and logged minutes.
    pub hours_difference: i128,
    /// Percent of the target covered, truncated.
    pub percentage: u32,
    /// Minutes still to work; negative means overtime.
    pub remaining_hours: i128,
    /// Classification of the progress.
    pub target_status: TargetStatus,
    /// Where the target value came from.
    pub target_set_method: TargetSetMethod,
}

/// The fields every target status derives from its inputs: the sum of the
/// days' minutes, the applying target, the truncated percentage with its
/// classification, and the signed and absolute gaps.
pub open spec fn status_fields_ok(
    target_hours: i128,
    status_hours: i128,
    hours_difference: i128,
    percentage: u32,
    remaining_hours: i128,
    target_status: TargetStatus,
    target_set_method: TargetSetMethod,
    days: Seq<Day>,
    conf: int,
    default: u32,
) -> bool {
    let status = sum_day_minutes(days);
    let target = chosen_target(conf, default as int);
    &&& status_hours == status
    &&& target_hours == target
    &&& hours_difference == difference_of(target, status)
    &&& remaining_hours == remaining_of(target, status)
    &&& percentage == percentage_of(status, target)
    &&& target_status == classify(percentage)
    &&& target_set_method == set_method_of(conf)
}

impl WeeklyTargetStatus {
    /// The status is exactly the one derived from the given days and the
    /// given configured target (in minutes, zero meaning "not configured").
    pub open spec fn derived_from(self, days: Seq<Day>, conf: int) -> bool {
        status_fields_ok(
            self.target_hours,
            self.status_hours,
            self.hours_difference,
            self.percentage,
            self.remaining_hours,
            self.target_status,
            self.target_set_method,
            days,
            conf,
            DEFAULT_WEEK_TARGET_MINUTES,
        )
    }
}

impl MonthlyTargetStatus {
    /// The status is exactly the one derived from the given days and the
    /// given configured target (in minutes, zero meaning "not configured").
    pub open spec fn derived_from(self, days: Seq<Day>, conf: int) -> bool {
        status_fields_ok(
            self.target_hours,
            self.status_hours,
            self.hours_difference,
            self.percentage,
            self.remaining_hours,
            self.target_status,
            self.target_set_method,
            days,
            conf,
            DEFAULT_MONTH_TARGET_MINUTES,
        )
    }
}

/// Sum the worked minutes of `days`. The per-day bound from well-formedness
/// keeps the sum far inside the `i128` range.
fn total_minutes(days: &Vec<Day>) -> (r: i128)
    requires
        days_wf(days@),
    ensures
        r == sum_day_minutes(days@),
        -0x1_0000_0000_0000_0000i128 * (DAY_MINUTES_LIMIT as i128) <= r
            <= 0x1_0000_0000_0000_0000i128 * (DAY_MINUTES_LIMIT as i128),
{
    let n = days.len();
    let mut status: i128 = 0;
    let mut i: usize = 0;
    while i < n
        invariant
            days_wf(days@),
            n == days@.len(),
            0 <= i <= n,
            status == sum_day_minutes(days@.take(i as int)),
            -((i as int) * (DAY_MINUTES_LIMIT as int)) <= status as int <= (i as int) * (
            DAY_MINUTES_LIMIT as int),
        decreases n - i,
    {
        proof {
            assert(days@[i as int].wf());
            assert(days@.take(i + 1 as int).drop_last() =~= days@.take(i as int));
            assert(days@.take(i + 1 as int).last() == days@[i as int]);
            assert((i as int + 1) * (DAY_MINUTES_LIMIT as int) == (i as int) * (
            DAY_MINUTES_LIMIT as int) + DAY_MINUTES_LIMIT as int) by (nonlinear_arith);
            assert((i as int) * (DAY_MINUTES_LIMIT as int) + DAY_MINUTES_LIMIT as int
                <= 0x1_0000_0000_0000_0000 * (DAY_MINUTES_LIMIT as int)) by (nonlinear_arith)
                requires
                    0 <= (i as int) && (i as int) < 0x1_0000_0000_0000_0000,
            ;
        }
        status = status + days[i].hours as i128;
        i += 1;
    }
    proof {
        assert(days@.take(n as int) =~= days@);
        assert((n as int) * (DAY_MINUTES_LIMIT as int) <= 0x1_0000_0000_0000_0000 * (
        DAY_MINUTES_LIMIT as int)) by (nonlinear_arith)
            requires
                0 <= (n as int) && (n as int) <= 0x1_0000_0000_0000_0000,
        ;
    }
    status
}

/// Percentage and classification from summed minutes and the target.
fn percentage_and_status(status: i128, target: i128) -> (r: (u32, TargetStatus))
    requires
        0 < target <= MONTH_TARGET_LIMIT,
        -0x1_0000_0000_0000_0000i128 * (DAY_MINUTES_LIMIT as i128) <= status
            <= 0x1_0000_0000_0000_0000i128 * (DAY_MINUTES_LIMIT as i128),
    ensures
        r.0 == percentage_of(status as int, target as int),
        r.1 == classify(r.0),
{
    let percentage: u32 = if status <= 0 {
        0
    } else {
        let p: i128 = status * 100 / target;
        proof {
            assert(status * 100 <= 0x1_0000_0000_0000_0000i128 * (DAY_MINUTES_LIMIT as i128) * 100)
                by (nonlinear_arith)
                requires
                    0 < status <= 0x1_0000_0000_0000_0000i128 * (DAY_MINUTES_LIMIT as i128),
            ;
            assert(0 <= (status as int) * 100 / (target as int) <= (status as int) * 100)
                by (nonlinear_arith)
                requires
                    0 < (status as int) * 100,
                    0 < target as int,
            ;
        }
        if p > 0xffff_ffffi128 {
            u32::MAX
        } else {
            p as u32
        }
    };
    let target_status = if percentage == 100 {
        TargetStatus::Reached
    } else if percentage > 100 {
        TargetStatus::OverReached
    } else {
        TargetStatus::NotReached
    };
    (percentage, target_status)
}

impl WeeklyTargetStatus {
    /// Compute the weekly progress of `week` against the configured target
    /// in minutes (zero meaning "not configured").
    pub fn new(week: &Week, target_hours_conf: u32) -> (r: WeeklyTargetStatus)
        requires
            week.wf(),
        ensures
            r.derived_from(week.entries@, target_hours_conf as int),
    {
        let status_hours = total_minutes(&week.entries);
        let target_set_method = if target_hours_conf != 0 {
            TargetSetMethod::SetFromConfig
        } else {
            TargetSetMethod::SetFromDefault
        };
        let target_hours: i128 = if target_hours_conf != 0 {
            target_hours_conf as i128
        } else {
            DEFAULT_WEEK_TARGET_MINUTES as i128
        };
        let remaining_hours = target_hours - status_hours;
        let hours_difference = if remaining_hours < 0 {
            -remaining_hours
        } else {
            remaining_hours
        };
        let (percentage, target_status) = percentage_and_status(status_hours, target_hours);
        WeeklyTargetStatus {
            target_hours,
            status_hours,
            hours_difference,
            percentage,
            remaining_hours,
            target_status,
            target_set_method,
        }
    }

    /// Getter for `target_hours`, in minutes.
    pub fn target_hours(&self) -> (r: i128)
        ensures
            r == self.target_hours,
    {
        self.target_hours
    }

    /// Getter for `status_hours`, in minutes.
    pub fn status_hours(&self) -> (r: i128)
        ensures
            r == self.status_hours,
    {
        self.status_hours
    }

    /// Getter for `hours_difference`, in minutes.
    pub fn hours_difference(&self) -> (r: i128)
        ensures
            r == self.hours_difference,
    {
        self.hours_difference
    }

    /// Getter for `percentage`.
    pub fn percentage(&self) -> (r: u32)
        ensures
            r == self.percentage,
    {
        self.percentage
    }

    /// Getter for `remaining_hours`, in minutes.
    pub fn remaining_hours(&self) -> (r: i128)
        ensures
            r == self.remaining_hours,
    {
        self.remaining_hours
    }

    /// Getter for `target_status`.
    pub fn target_status(&self) -> (r: TargetStatus)
        ensures
            r == self.target_status,
    {
        self.target_status
    }

    /// Getter for `target_set_method`.
    pub fn target_set_method(&self) -> (r: TargetSetMethod)
        ensures
            r == self.target_set_method,
    {
        self.target_set_method
    }

    /// Getter for `target_status` as a string.
    pub fn target_status_string(&self) -> (r: String)
        ensures
            (self.target_status == TargetStatus::Reached ==> r@ == "Reached"@),
            (self.target_status == TargetStatus::NotReached ==> r@ == "NotReached"@),
            (self.target_status == TargetStatus::OverReached ==> r@ == "OverReached"@),
    {
        match self.target_status {
            TargetStatus::Reached => "Reached".to_owned(),
            TargetStatus::NotReached => "NotReached".to_owned(),
            TargetStatus::OverReached => "OverReached".to_owned(),
        }
    }

    /// Getter for `target_set_method` as a string.
    pub fn target_set_method_string(&self) -> (r: String)
        ensures
            (self.target_set_method == TargetSetMethod::SetFromConfig ==> r@
                == "Set from config"@),
            (self.target_set_method == TargetSetMethod::SetFromDefault ==> r@
                == "Set from default"@),
    {
        match self.target_set_method {
            TargetSetMethod::SetFromConfig => "Set from config".to_owned(),
            TargetSetMethod::SetFromDefault => "Set from default".to_owned(),
        }
    }
}

impl MonthlyTargetStatus {
    /// Compute the monthly progress of the given days against the monthly
    /// target in minutes (zero meaning "not configured"). The target may be
    /// a configured value or a sum of weekly targets, so it is taken wide.
    pub fn new(days_in_month: &Vec<Day>, target_hours_conf: i128) -> (r: MonthlyTargetStatus)
        requires
            days_wf(days_in_month@),
            0 <= target_hours_conf <= MONTH_TARGET_LIMIT,
        ensures
            r.derived_from(days_in_month@, target_hours_conf as int),
    {
        let status_hours = total_minutes(days_in_month);
        let target_set_method = if target_hours_conf != 0 {
            TargetSetMethod::SetFromConfig
        } else {
            TargetSetMethod::SetFromDefault
        };
        let target_hours: i128 = if target_hours_conf != 0 {
            target_hours_conf
        } else {
            DEFAULT_MONTH_TARGET_MINUTES as i128
        };
        let remaining_hours = target_hours - status_hours;
        let hours_difference = if remaining_hours < 0 {
            -remaining_hours
        } else {
            remaining_hours
        };
        let (percentage, target_status) = percentage_and_status(status_hours, target_hours);
        MonthlyTargetStatus {
            target_hours,
            status_hours,
            hours_difference,
            percentage,
            remaining_hours,
            target_status,
            target_set_method,
        }
    }

    /// Getter for `target_hours`, in minutes.
    pub fn target_hours(&self) -> (r: i128)
        ensures
            r == self.target_hours,
    {
        self.target_hours
    }

    /// Getter for `status_hours`, in minutes.
    pub fn status_hours(&self) -> (r: i128)
        ensures
            r == self.status_hours,
    {
        self.status_hours
    }

    /// Getter for `hours_difference`, in minutes.
    pub fn hours_difference(&self) -> (r: i128)
        ensures
            r == self.hours_difference,
    {
        self.hours_difference
    }

    /// Getter for `percentage`.
    pub fn percentage(&self) -> (r: u32)
        ensures
            r == self.percentage,
    {
        self.percentage
    }

    /// Getter for `remaining_hours`, in minutes.
    pub fn remaining_hours(&self) -> (r: i128)
        ensures
            r == self.remaining_hours,
    {
        self.remaining_hours
    }

    /// Getter for `target_status`.
    pub fn target_status(&self) -> (r: TargetStatus)
        ensures
            r == self.target_status,
    {
        self.target_status
    }

    /// Getter for `target_set_method`.
    pub fn target_set_method(&self) -> (r: TargetSetMethod)
        ensures
            r == self.target_set_method,
    {
        self.target_set_method
    }

    /// Getter for `target_status` as a string.
    pub fn target_status_string(&self) -> (r: String)
        ensures
            (self.target_status == TargetStatus::Reached ==> r@ == "Reached"@),
            (self.target_status == TargetStatus::NotReached ==> r@ == "NotReached"@),
            (self.target_status == TargetStatus::OverReached ==> r@ == "OverReached"@),
    {
        match self.target_status {
            TargetStatus::Reached => "Reached".to_owned(),
            TargetStatus::NotReached => "NotReached".to_owned(),
            TargetStatus::OverReached => "OverReached".to_owned(),
        }
    }

    /// Getter for `target_set_method` as a string.
    pub fn target_set_method_string(&self) -> (r: String)
        ensures
            (self.target_set_method == TargetSetMethod::SetFromConfig ==> r@
                == "Set from config"@),
            (self.target_set_method == TargetSetMethod::SetFromDefault ==> r@
                == "Set from default"@),
    {
        match self.target_set_method {
            TargetSetMethod::SetFromConfig => "Set from config".to_owned(),
            TargetSetMethod::SetFromDefault => "Set from default".to_owned(),
        }
    }
}

} // verus!
