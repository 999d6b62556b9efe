//! The orchestrator: holds the stored projects and weeks, enforces the
//! cross-entity rules (unique project names, one day per date within a
//! week), and derives the aggregations and target statuses. Persistence,
//! rendering and prompting are the caller's concern; in particular the
//! caller obtains the user's confirmation before calling a removal.

use vstd::prelude::*;

use crate::cli_interactor::CliInteractor;
use crate::clock::{parse_date, parsed_date_of};
use crate::config::AppConfiguration;
use crate::date::Date;
use crate::day::{days_wf, Day};
use crate::entry::Entry;
use crate::project::{entries_without_id, has_entry_id, Project};
use crate::report_manager::ReportManager;
use crate::storage_handler::StorageHandler;
use crate::strutil::str_eq;
use crate::target::{MonthlyTargetStatus, WeeklyTargetStatus, MONTH_TARGET_LIMIT};
use crate::uid::{parse_uuid, parsed_uuid_of};
use crate::week::{days_without_date, first_day_on_date, has_date, merged_day, Week};

verus! {

/// True when some stored project carries the given name.
pub open spec fn has_project_named(projects: Seq<Project>, name: Seq<char>) -> bool {
    exists|i: int| 0 <= i < projects.len() && projects[i].name@ == name
}

/// True when `i` is the position of the first project with the given name.
pub open spec fn first_project_named(projects: Seq<Project>, name: Seq<char>, i: int) -> bool {
    &&& 0 <= i < projects.len()
    &&& projects[i].name@ == name
    &&& forall|j: int| 0 <= j < i ==> projects[j].name@ != name
}

/// True when some stored week carries the given number and year.
pub open spec fn has_week_for(weeks: Seq<Week>, number: u32, year: i32) -> bool {
    exists|i: int| 0 <= i < weeks.len() && weeks[i].number == number && weeks[i].year == year
}

/// True when `i` is the position of the first week with the given number
/// and year.
pub open spec fn first_week_for(weeks: Seq<Week>, number: u32, year: i32, i: int) -> bool {
    &&& 0 <= i < weeks.len()
    &&& weeks[i].number == number
    &&& weeks[i].year == year
    &&& forall|j: int| 0 <= j < i ==> !(weeks[j].number == number && weeks[j].year == year)
}

/// True when every stored week is well-formed.
pub open spec fn weeks_wf(weeks: Seq<Week>) -> bool {
    forall|i: int| 0 <= i < weeks.len() ==> (#[trigger] weeks[i]).wf()
}

/// The days falling in the given calendar month, kept in order.
pub open spec fn month_days(days: Seq<Day>, month: u32) -> Seq<Day>
    decreases days.len(),
{
    if days.len() == 0 {
        Seq::empty()
    } else {
        month_days(days.drop_last(), month) + if days.last().date.month == month {
            seq![days.last()]
        } else {
            Seq::empty()
        }
    }
}

/// All days of all weeks falling in the given calendar month, in storage
/// order; the year is deliberately ignored.
pub open spec fn month_days_of_weeks(weeks: Seq<Week>, month: u32) -> Seq<Day>
    decreases weeks.len(),
{
    if weeks.len() == 0 {
        Seq::empty()
    } else {
        month_days_of_weeks(weeks.drop_last(), month) + month_days(weeks.last().entries@, month)
    }
}

/// The days falling in the given month of the given year, kept in order.
/// The year is compared after a cast, as the caller supplies it unsigned.
pub open spec fn month_year_days(days: Seq<Day>, month: u32, year: u32) -> Seq<Day>
    decreases days.len(),
{
    if days.len() == 0 {
        Seq::empty()
    } else {
        month_year_days(days.drop_last(), month, year) + if days.last().date.month == month
            && days.last().date.year as u32 == year {
            seq![days.last()]
        } else {
            Seq::empty()
        }
    }
}

/// All days of all weeks falling in the given month of the given year.
pub open spec fn month_year_days_of_weeks(weeks: Seq<Week>, month: u32, year: u32) -> Seq<Day>
    decreases weeks.len(),
{
    if weeks.len() == 0 {
        Seq::empty()
    } else {
        month_year_days_of_weeks(weeks.drop_last(), month, year) + month_year_days(
            weeks.last().entries@,
            month,
            year,
        )
    }
}

/// The days falling in the given year, kept in order.
pub open spec fn year_days(days: Seq<Day>, year: i32) -> Seq<Day>
    decreases days.len(),
{
    if days.len() == 0 {
        Seq::empty()
    } else {
        year_days(days.drop_last(), year) + if days.last().date.year == year {
            seq![days.last()]
        } else {
            Seq::empty()
        }
    }
}

/// All days of all weeks falling in the given year.
pub open spec fn year_days_of_weeks(weeks: Seq<Week>, year: i32) -> Seq<Day>
    decreases weeks.len(),
{
    if weeks.len() == 0 {
        Seq::empty()
    } else {
        year_days_of_weeks(weeks.drop_last(), year) + year_days(weeks.last().entries@, year)
    }
}

/// True when the week holds at least one day falling in the given month.
pub open spec fn week_has_month_day(w: Week, month: u32) -> bool {
    exists|i: int| 0 <= i < w.entries@.len() && w.entries@[i].date.month == month
}

/// The weeks holding at least one day in the given month, in storage order;
/// the year is deliberately ignored.
pub open spec fn weeks_with_month(weeks: Seq<Week>, month: u32) -> Seq<Week>
    decreases weeks.len(),
{
    if weeks.len() == 0 {
        Seq::empty()
    } else {
        weeks_with_month(weeks.drop_last(), month) + if week_has_month_day(weeks.last(), month) {
            seq![weeks.last()]
        } else {
            Seq::empty()
        }
    }
}

/// Sum of the weekly targets, in minutes, over a list of weeks.
pub open spec fn sum_week_targets(weeks: Seq<Week>) -> int
    decreases weeks.len(),
{
    if weeks.len() == 0 {
        0
    } else {
        sum_week_targets(weeks.drop_last()) + weeks.last().target_hours
    }
}

/// The week that admitting a day into an empty slot creates: keyed by the
/// day's week number and year, carrying the configured target, holding just
/// that day.
pub open spec fn week_created_for(w: Week, day: Day, target: u32) -> bool {
    &&& w.number == day.week
    &&& w.year == day.date.year
    &&& w.target_hours == target
    &&& w.entries@ == seq![day]
}

/// `post` is `pre` with `day` appended; the key and target are kept.
pub open spec fn week_with_day_added(pre: Week, post: Week, day: Day) -> bool {
    &&& post.number == pre.number
    &&& post.year == pre.year
    &&& post.target_hours == pre.target_hours
    &&& post.entries@ == pre.entries@.push(day)
}

/// `post` is `pre` with the day at position `k` merged with `day`; the key
/// and target are kept.
pub open spec fn week_with_day_merged(pre: Week, post: Week, day: Day, k: int) -> bool {
    &&& post.number == pre.number
    &&& post.year == pre.year
    &&& post.target_hours == pre.target_hours
    &&& post.entries@ == pre.entries@.update(k, merged_day(pre.entries@[k], day))
}

/// What admitting `day` at the week at position `i` does: a day on a new
/// date is appended; a day on a stored date is merged into it, unless the
/// stored day is already closed, which rejects the day and changes nothing.
pub open spec fn day_admitted_at(pre: Seq<Week>, post: Seq<Week>, day: Day, i: int, r: bool) -> bool {
    let w = pre[i];
    if !has_date(w.entries@, day.date) {
        &&& r
        &&& post.len() == pre.len()
        &&& (forall|j: int| 0 <= j < pre.len() && j != i ==> post[j] == pre[j])
        &&& week_with_day_added(w, post[i], day)
    } else {
        exists|k: int|
            #[trigger] first_day_on_date(w.entries@, day.date, k) && if w.entries@[k].closed {
                !r && post == pre
            } else {
                &&& r
                &&& post.len() == pre.len()
                &&& (forall|j: int| 0 <= j < pre.len() && j != i ==> post[j] == pre[j])
                &&& week_with_day_merged(w, post[i], day, k)
            }
    }
}

/// The orchestrator over the stored projects and weeks.
pub struct Butler {
    /// Stored projects, in insertion order; names unique.
    pub projects: Vec<Project>,
    /// Stored weeks, in insertion order; (number, year) pairs unique.
    pub weeks: Vec<Week>,
    /// Report bookkeeping.
    pub report_mngr: ReportManager,
    /// Storage locations.
    pub storage_handler: StorageHandler,
    /// Interpretation of interactive answers.
    pub user_interactor: CliInteractor,
    /// The application configuration.
    pub configuration: AppConfiguration,
}

impl Butler {
    /// Well-formedness: every stored week is well-formed.
    pub open spec fn wf(self) -> bool {
        weeks_wf(self.weeks@)
    }

    /// Create a butler with no stored data. The report manager starts with
    /// empty locations; the caller, who knows the environment, fills it in.
    pub fn new(storage_handler: StorageHandler, configuration: AppConfiguration) -> (r: Butler)
        ensures
            r.projects@.len() == 0,
            r.weeks@.len() == 0,
            r.storage_handler == storage_handler,
            r.configuration == configuration,
            r.report_mngr.default_report_dir@.len() == 0,
            r.report_mngr.default_report_file_name@.len() == 0,
            r.wf(),
    {
        Butler {
            projects: Vec::new(),
            weeks: Vec::new(),
            report_mngr: ReportManager::new(String::new(), String::new()),
            storage_handler,
            user_interactor: CliInteractor::new(),
            configuration,
        }
    }

    /// Getter for the stored projects.
    pub fn projects(&self) -> (r: &Vec<Project>)
        ensures
            r == &self.projects,
    {
        &self.projects
    }

    /// Getter for the stored weeks.
    pub fn weeks(&self) -> (r: &Vec<Week>)
        ensures
            r == &self.weeks,
    {
        &self.weeks
    }

    /// Add a project. A project whose name matches a stored project is
    /// rejected and the collection is left unchanged; otherwise the project
    /// is appended.
    pub fn add_project(&mut self, project: Project) -> (r: bool)
        ensures
            r == !has_project_named(old(self).projects@, project.name@),
            (r ==> final(self).projects@ == old(self).projects@.push(project)),
            (!r ==> *final(self) == *old(self)),
            final(self).weeks == old(self).weeks,
            final(self).report_mngr == old(self).report_mngr,
            final(self).storage_handler == old(self).storage_handler,
            final(self).configuration == old(self).configuration,
    {
        let n = self.projects.len();
        let mut i: usize = 0;
        while i < n
            invariant
                *self == *old(self),
                n == self.projects@.len(),
                0 <= i <= n,
                forall|j: int| 0 <= j < i ==> self.projects@[j].name@ != project.name@,
            decreases n - i,
        {
            if str_eq(self.projects[i].name.as_str(), project.name.as_str()) {
                return false;
            }
            i += 1;
        }
        self.projects.push(project);
        true
    }

    /// Add an entry to the first project with the given name; fails when no
    /// project carries it.
    pub fn add_entry(&mut self, project_name: &str, entry: Entry) -> (r: bool)
        ensures
            r == has_project_named(old(self).projects@, project_name@),
            (!r ==> *final(self) == *old(self)),
            (r ==> exists|i: int|
                {
                    &&& #[trigger] first_project_named(old(self).projects@, project_name@, i)
                    &&& final(self).projects@.len() == old(self).projects@.len()
                    &&& (forall|j: int|
                        0 <= j < old(self).projects@.len() && j != i
                            ==> final(self).projects@[j] == old(self).projects@[j])
                    &&& final(self).projects@[i].entries@ == old(self).projects@[i].entries@.push(
                        entry,
                    )
                    &&& final(self).projects@[i].name == old(self).projects@[i].name
                    &&& final(self).projects@[i].description == old(self).projects@[i].description
                    &&& final(self).projects@[i].id == old(self).projects@[i].id
                }),
            final(self).weeks == old(self).weeks,
            final(self).report_mngr == old(self).report_mngr,
            final(self).storage_handler == old(self).storage_handler,
            final(self).configuration == old(self).configuration,
    {
        let n = self.projects.len();
        let mut i: usize = 0;
        while i < n
            invariant
                *self == *old(self),
                n == self.projects@.len(),
                0 <= i <= n,
                forall|j: int| 0 <= j < i ==> self.projects@[j].name@ != project_name@,
            decreases n - i,
        {
            if str_eq(self.projects[i].name.as_str(), project_name) {
                proof {
                    assert(first_project_named(self.projects@, project_name@, i as int));
                }
                let ghost pre = self.projects@;
                let mut p = self.projects.remove(i);
                p.add_entry(entry);
                self.projects.insert(i, p);
                proof {
                    assert(self.projects@ =~= pre.update(i as int, self.projects@[i as int]));
                }
                return true;
            }
            i += 1;
        }
        false
    }

    /// Admit a day. When no week is keyed by the day's week number and
    /// year, a week is created for it with the configured weekly target.
    /// Otherwise the day is appended to that week, or, when the week
    /// already holds a day on the same date, merged into it; a day whose
    /// date is already closed is rejected and nothing changes.
    pub fn add_day(&mut self, day: Day) -> (r: bool)
        requires
            old(self).wf(),
            day.wf(),
        ensures
            final(self).wf(),
            final(self).projects == old(self).projects,
            final(self).report_mngr == old(self).report_mngr,
            final(self).storage_handler == old(self).storage_handler,
            final(self).configuration == old(self).configuration,
            (!r ==> *final(self) == *old(self)),
            (!has_week_for(old(self).weeks@, day.week, day.date.year) ==> {
                &&& r
                &&& final(self).weeks@.len() == old(self).weeks@.len() + 1
                &&& (forall|j: int|
                    0 <= j < old(self).weeks@.len()
                        ==> final(self).weeks@[j] == old(self).weeks@[j])
                &&& week_created_for(
                    final(self).weeks@.last(),
                    day,
                    old(self).configuration.targets.week_target_hours,
                )
            }),
            (has_week_for(old(self).weeks@, day.week, day.date.year) ==> exists|i: int|
                #[trigger] first_week_for(old(self).weeks@, day.week, day.date.year, i)
                    && day_admitted_at(old(self).weeks@, final(self).weeks@, day, i, r)),
    {
        let target = self.configuration.week_target_hours();
        if self.weeks.is_empty() {
            let mut new_week = Week::new(day.week, day.date.year, target);
            new_week.add_entry(day);
            self.weeks.push(new_week);
            proof {
                assert(self.weeks@.last().entries@ =~= seq![day]);
            }
            return true;
        }
        let n = self.weeks.len();
        let mut i: usize = 0;
        while i < n
            invariant
                *self == *old(self),
                old(self).wf(),
                day.wf(),
                n == self.weeks@.len(),
                0 <= i <= n,
                forall|j: int|
                    0 <= j < i ==> !(self.weeks@[j].number == day.week && self.weeks@[j].year
                        == day.date.year),
            decreases n - i,
        {
            if self.weeks[i].number == day.week && self.weeks[i].year == day.date.year {
                proof {
                    assert(first_week_for(self.weeks@, day.week, day.date.year, i as int));
                    assert(old(self).weeks@[i as int].wf());
                }
                let ghost pre = self.weeks@;
                match self.weeks[i].find_day(&day.date) {
                    Some(k) => {
                        if self.weeks[i].entries[k].closed {
                            proof {
                                assert(day_admitted_at(pre, self.weeks@, day, i as int, false));
                            }
                            return false;
                        }
                        let mut w = self.weeks.remove(i);
                        let merged = w.merge_day(&day);
                        self.weeks.insert(i, w);
                        proof {
                            assert(first_day_on_date(pre[i as int].entries@, day.date, k as int)
                                && !pre[i as int].entries@[k as int].closed);
                            assert(merged);
                            assert(self.weeks@ =~= pre.update(i as int, self.weeks@[i as int]));
                            assert(day_admitted_at(pre, self.weeks@, day, i as int, true));
                        }
                        return true;
                    },
                    None => {
                        let mut w = self.weeks.remove(i);
                        w.add_entry(day);
                        self.weeks.insert(i, w);
                        proof {
                            assert(self.weeks@ =~= pre.update(i as int, self.weeks@[i as int]));
                            assert(day_admitted_at(pre, self.weeks@, day, i as int, true));
                        }
                        return true;
                    },
                }
            }
            i += 1;
        }
        let mut new_week = Week::new(day.week, day.date.year, target);
        new_week.add_entry(day);
        self.weeks.push(new_week);
        proof {
            assert(self.weeks@.last().entries@ =~= seq![day]);
        }
        true
    }

    /// Remove the first project with the given name, with all its entries;
    /// fails when no project carries it. The caller confirms beforehand.
    pub fn remove_project(&mut self, project_name: &str) -> (r: bool)
        ensures
            r == has_project_named(old(self).projects@, project_name@),
            (!r ==> *final(self) == *old(self)),
            (r ==> exists|i: int|
                #[trigger] first_project_named(old(self).projects@, project_name@, i)
                    && final(self).projects@ == old(self).projects@.remove(i)),
            final(self).weeks == old(self).weeks,
            final(self).report_mngr == old(self).report_mngr,
            final(self).storage_handler == old(self).storage_handler,
            final(self).configuration == old(self).configuration,
    {
        let n = self.projects.len();
        let mut i: usize = 0;
        while i < n
            invariant
                *self == *old(self),
                n == self.projects@.len(),
                0 <= i <= n,
                forall|j: int| 0 <= j < i ==> self.projects@[j].name@ != project_name@,
            decreases n - i,
        {
            if str_eq(self.projects[i].name.as_str(), project_name) {
                proof {
                    assert(first_project_named(self.projects@, project_name@, i as int));
                }
                self.projects.remove(i);
                return true;
            }
            i += 1;
        }
        false
    }

    /// Remove the entry with the given identifier from the first project
    /// with the given name. Fails when nothing is stored, the identifier
    /// does not parse, or project or entry is not found. The caller
    /// confirms beforehand.
    pub fn remove_entry(&mut self, project: &str, id: String) -> (r: bool)
        ensures
            final(self).weeks == old(self).weeks,
            final(self).report_mngr == old(self).report_mngr,
            final(self).storage_handler == old(self).storage_handler,
            final(self).configuration == old(self).configuration,
            (!r ==> *final(self) == *old(self)),
            (old(self).projects@.len() == 0 ==> !r),
            (parsed_uuid_of(id@) is None ==> !r),
            (old(self).projects@.len() > 0 ==> (parsed_uuid_of(id@) matches Some(pid) ==> {
                &&& (!has_project_named(old(self).projects@, project@) ==> !r)
                &&& (has_project_named(old(self).projects@, project@) ==> exists|i: int|
                    {
                        &&& #[trigger] first_project_named(old(self).projects@, project@, i)
                        &&& r == has_entry_id(old(self).projects@[i].entries@, pid)
                        &&& (r ==> {
                            &&& final(self).projects@.len() == old(self).projects@.len()
                            &&& (forall|j: int|
                                0 <= j < old(self).projects@.len() && j != i
                                    ==> final(self).projects@[j] == old(self).projects@[j])
                            &&& final(self).projects@[i].entries@ == entries_without_id(
                                old(self).projects@[i].entries@,
                                pid,
                            )
                            &&& final(self).projects@[i].name == old(self).projects@[i].name
                            &&& final(self).projects@[i].description
                                == old(self).projects@[i].description
                            &&& final(self).projects@[i].id == old(self).projects@[i].id
                        })
                    })
            })),
    {
        if self.projects.is_empty() {
            return false;
        }
        let parsed_id = match parse_uuid(id.as_str()) {
            Some(pid) => pid,
            None => {
                return false;
            },
        };
        let n = self.projects.len();
        let mut i: usize = 0;
        while i < n
            invariant
                *self == *old(self),
                n == self.projects@.len(),
                n > 0,
                parsed_uuid_of(id@) == Some(parsed_id),
                0 <= i <= n,
                forall|j: int| 0 <= j < i ==> self.projects@[j].name@ != project@,
            decreases n - i,
        {
            if str_eq(self.projects[i].name.as_str(), project) {
                proof {
                    assert(first_project_named(self.projects@, project@, i as int));
                }
                if !self.projects[i].entry_exists(parsed_id) {
                    return false;
                }
                let ghost pre = self.projects@;
                let mut p = self.projects.remove(i);
                let removed = p.remove_listed_entry(parsed_id);
                self.projects.insert(i, p);
                proof {
                    assert(self.projects@ =~= pre.update(i as int, self.projects@[i as int]));
                }
                return removed;
            }
            i += 1;
        }
        false
    }

    /// Remove the day on the given date (in `%Y-%m-%d` form) from the first
    /// week keyed by the given week number and the date's year. Fails when
    /// nothing is stored, the date does not parse, or week or day is not
    /// found. The caller confirms beforehand.
    pub fn remove_day(&mut self, week: u32, date: String) -> (r: bool)
        requires
            old(self).wf(),
        ensures
            final(self).wf(),
            final(self).projects == old(self).projects,
            final(self).report_mngr == old(self).report_mngr,
            final(self).storage_handler == old(self).storage_handler,
            final(self).configuration == old(self).configuration,
            (!r ==> *final(self) == *old(self)),
            (old(self).weeks@.len() == 0 ==> !r),
            (parsed_date_of(date@) is None ==> !r),
            (old(self).weeks@.len() > 0 ==> (parsed_date_of(date@) matches Some(ymd) ==> {
                let d = Date { year: ymd.0, month: ymd.1, day: ymd.2 };
                &&& (!has_week_for(old(self).weeks@, week, d.year) ==> !r)
                &&& (has_week_for(old(self).weeks@, week, d.year) ==> exists|i: int|
                    {
                        &&& #[trigger] first_week_for(old(self).weeks@, week, d.year, i)
                        &&& r == has_date(old(self).weeks@[i].entries@, d)
                        &&& (r ==> {
                            &&& final(self).weeks@.len() == old(self).weeks@.len()
                            &&& (forall|j: int|
                                0 <= j < old(self).weeks@.len() && j != i ==> final(self).weeks@[j]
                                    == old(self).weeks@[j])
                            &&& final(self).weeks@[i].entries@ == days_without_date(
                                old(self).weeks@[i].entries@,
                                d,
                            )
                            &&& final(self).weeks@[i].number == old(self).weeks@[i].number
                            &&& final(self).weeks@[i].year == old(self).weeks@[i].year
                            &&& final(self).weeks@[i].target_hours
                                == old(self).weeks@[i].target_hours
                        })
                    })
            })),
    {
        if self.weeks.is_empty() {
            return false;
        }
        let parsed_date = match parse_date(date.as_str()) {
            Some(d) => d,
            None => {
                return false;
            },
        };
        let year = parsed_date.year;
        let n = self.weeks.len();
        let mut i: usize = 0;
        while i < n
            invariant
                *self == *old(self),
                old(self).wf(),
                n == self.weeks@.len(),
                n > 0,
                parsed_date_of(date@) == Some(
                    (parsed_date.year, parsed_date.month, parsed_date.day),
                ),
                year == parsed_date.year,
                0 <= i <= n,
                forall|j: int|
                    0 <= j < i ==> !(self.weeks@[j].number == week && self.weeks@[j].year == year),
            decreases n - i,
        {
            if self.weeks[i].number == week && self.weeks[i].year == year {
                proof {
                    assert(first_week_for(self.weeks@, week, year, i as int));
                    assert(old(self).weeks@[i as int].wf());
                }
                if !self.weeks[i].exist(&parsed_date) {
                    return false;
                }
                let ghost pre = self.weeks@;
                let mut w = self.weeks.remove(i);
                w.remove_listed_day(&parsed_date);
                self.weeks.insert(i, w);
                proof {
                    assert(self.weeks@ =~= pre.update(i as int, self.weeks@[i as int]));
                }
                return true;
            }
            i += 1;
        }
        false
    }

    /// The weekly target status of the first week keyed by the given number
    /// and year (the year compared after a cast, as the caller supplies it
    /// unsigned), computed against the week's own stored target; `None`
    /// when no such week is stored.
    pub fn week_target_status(&self, week: u32, year: u32) -> (r: Option<WeeklyTargetStatus>)
        requires
            self.wf(),
        ensures
            r is Some <==> exists|i: int|
                0 <= i < self.weeks@.len() && (#[trigger] self.weeks@[i]).number == week
                    && self.weeks@[i].year as u32 == year,
            (r matches Some(st) ==> exists|i: int|
                {
                    &&& 0 <= i < self.weeks@.len()
                    &&& (#[trigger] self.weeks@[i]).number == week
                    &&& self.weeks@[i].year as u32 == year
                    &&& (forall|j: int|
                        0 <= j < i ==> !(self.weeks@[j].number == week && self.weeks@[j].year
                            as u32 == year))
                    &&& st.derived_from(
                        self.weeks@[i].entries@,
                        self.weeks@[i].target_hours as int,
                    )
                }),
    {
        let n = self.weeks.len();
        let mut i: usize = 0;
        while i < n
            invariant
                self.wf(),
                n == self.weeks@.len(),
                0 <= i <= n,
                forall|j: int|
                    0 <= j < i ==> !(self.weeks@[j].number == week && self.weeks@[j].year as u32
                        == year),
            decreases n - i,
        {
            if self.weeks[i].number == week && self.weeks[i].year as u32 == year {
                proof {
                    assert(self.weeks@[i as int].wf());
                }
                let target = self.weeks[i].target_hours;
                let status = WeeklyTargetStatus::new(&self.weeks[i], target);
                return Some(status);
            }
            i += 1;
        }
        None
    }

    /// The days of any year falling in the given calendar month, as copies,
    /// in storage order.
    pub fn get_days_in_month(&self, month: u32) -> (r: Vec<Day>)
        requires
            self.wf(),
        ensures
            r@ == month_days_of_weeks(self.weeks@, month),
            days_wf(r@),
    {
        let mut days: Vec<Day> = Vec::new();
        let n = self.weeks.len();
        let mut i: usize = 0;
        while i < n
            invariant
                self.wf(),
                n == self.weeks@.len(),
                0 <= i <= n,
                days@ == month_days_of_weeks(self.weeks@.take(i as int), month),
                days_wf(days@),
            decreases n - i,
        {
            proof {
                assert(self.weeks@.take(i + 1 as int).drop_last() =~= self.weeks@.take(i as int));
                assert(self.weeks@.take(i + 1 as int).last() == self.weeks@[i as int]);
                assert(self.weeks@[i as int].wf());
            }
            let m = self.weeks[i].entries.len();
            let mut j: usize = 0;
            while j < m
                invariant
                    self.wf(),
                    n == self.weeks@.len(),
                    0 <= i < n,
                    m == self.weeks@[i as int].entries@.len(),
                    0 <= j <= m,
                    days@ == month_days_of_weeks(self.weeks@.take(i as int), month) + month_days(
                        self.weeks@[i as int].entries@.take(j as int),
                        month,
                    ),
                    days_wf(days@),
                decreases m - j,
            {
                proof {
                    let entries = self.weeks@[i as int].entries@;
                    assert(entries.take(j + 1 as int).drop_last() =~= entries.take(j as int));
                    assert(entries.take(j + 1 as int).last() == entries[j as int]);
                    assert(self.weeks@[i as int].wf());
                    assert(self.weeks@[i as int].entries@[j as int].wf());
                }
                if self.weeks[i].entries[j].date.month == month {
                    let d = self.weeks[i].entries[j].clone();
                    days.push(d);
                }
                j += 1;
            }
            proof {
                let entries = self.weeks@[i as int].entries@;
                assert(entries.take(m as int) =~= entries);
            }
            i += 1;
        }
        proof {
            assert(self.weeks@.take(n as int) =~= self.weeks@);
        }
        days
    }

    /// The days falling in the given month of the given year, as copies, in
    /// storage order.
    pub fn get_days_in_month_for_year(&self, month: u32, year: u32) -> (r: Vec<Day>)
        requires
            self.wf(),
        ensures
            r@ == month_year_days_of_weeks(self.weeks@, month, year),
            days_wf(r@),
    {
        let mut days: Vec<Day> = Vec::new();
        let n = self.weeks.len();
        let mut i: usize = 0;
        while i < n
            invariant
                self.wf(),
                n == self.weeks@.len(),
                0 <= i <= n,
                days@ == month_year_days_of_weeks(self.weeks@.take(i as int), month, year),
                days_wf(days@),
            decreases n - i,
        {
            proof {
                assert(self.weeks@.take(i + 1 as int).drop_last() =~= self.weeks@.take(i as int));
                assert(self.weeks@.take(i + 1 as int).last() == self.weeks@[i as int]);
                assert(self.weeks@[i as int].wf());
            }
            let m = self.weeks[i].entries.len();
            let mut j: usize = 0;
            while j < m
                invariant
                    self.wf(),
                    n == self.weeks@.len(),
                    0 <= i < n,
                    m == self.weeks@[i as int].entries@.len(),
                    0 <= j <= m,
                    days@ == month_year_days_of_weeks(self.weeks@.take(i as int), month, year)
                        + month_year_days(
                        self.weeks@[i as int].entries@.take(j as int),
                        month,
                        year,
                    ),
                    days_wf(days@),
                decreases m - j,
            {
                proof {
                    let entries = self.weeks@[i as int].entries@;
                    assert(entries.take(j + 1 as int).drop_last() =~= entries.take(j as int));
                    assert(entries.take(j + 1 as int).last() == entries[j as int]);
                    assert(self.weeks@[i as int].wf());
                    assert(self.weeks@[i as int].entries@[j as int].wf());
                }
                if self.weeks[i].entries[j].date.month == month && self.weeks[i].entries[j].date.year
                    as u32 == year {
                    let d = self.weeks[i].entries[j].clone();
                    days.push(d);
                }
                j += 1;
            }
            proof {
                let entries = self.weeks@[i as int].entries@;
                assert(entries.take(m as int) =~= entries);
            }
            i += 1;
        }
        proof {
            assert(self.weeks@.take(n as int) =~= self.weeks@);
        }
        days
    }

    /// The days falling in the given year, as copies, in storage order.
    pub fn get_days_in_year(&self, year: i32) -> (r: Vec<Day>)
        requires
            self.wf(),
        ensures
            r@ == year_days_of_weeks(self.weeks@, year),
            days_wf(r@),
    {
        let mut days: Vec<Day> = Vec::new();
        let n = self.weeks.len();
        let mut i: usize = 0;
        while i < n
            invariant
                self.wf(),
                n == self.weeks@.len(),
                0 <= i <= n,
                days@ == year_days_of_weeks(self.weeks@.take(i as int), year),
                days_wf(days@),
            decreases n - i,
        {
            proof {
                assert(self.weeks@.take(i + 1 as int).drop_last() =~= self.weeks@.take(i as int));
                assert(self.weeks@.take(i + 1 as int).last() == self.weeks@[i as int]);
                assert(self.weeks@[i as int].wf());
            }
            let m = self.weeks[i].entries.len();
            let mut j: usize = 0;
            while j < m
                invariant
                    self.wf(),
                    n == self.weeks@.len(),
                    0 <= i < n,
                    m == self.weeks@[i as int].entries@.len(),
                    0 <= j <= m,
                    days@ == year_days_of_weeks(self.weeks@.take(i as int), year) + year_days(
                        self.weeks@[i as int].entries@.take(j as int),
                        year,
                    ),
                    days_wf(days@),
                decreases m - j,
            {
                proof {
                    let entries = self.weeks@[i as int].entries@;
                    assert(entries.take(j + 1 as int).drop_last() =~= entries.take(j as int));
                    assert(entries.take(j + 1 as int).last() == entries[j as int]);
                    assert(self.weeks@[i as int].wf());
                    assert(self.weeks@[i as int].entries@[j as int].wf());
                }
                if self.weeks[i].entries[j].date.year == year {
                    let d = self.weeks[i].entries[j].clone();
                    days.push(d);
                }
                j += 1;
            }
            proof {
                let entries = self.weeks@[i as int].entries@;
                assert(entries.take(m as int) =~= entries);
            }
            i += 1;
        }
        proof {
            assert(self.weeks@.take(n as int) =~= self.weeks@);
        }
        days
    }

    /// The weeks holding at least one day in the given calendar month, in
    /// storage order; the year is deliberately ignored.
    pub fn get_weeks_in_month(&self, month: u32) -> (r: Vec<&Week>)
        ensures
            r@.map_values(|w: &Week| *w) == weeks_with_month(self.weeks@, month),
    {
        let mut found: Vec<&Week> = Vec::new();
        let n = self.weeks.len();
        let mut i: usize = 0;
        while i < n
            invariant
                n == self.weeks@.len(),
                0 <= i <= n,
                found@.map_values(|w: &Week| *w) == weeks_with_month(
                    self.weeks@.take(i as int),
                    month,
                ),
            decreases n - i,
        {
            proof {
                assert(self.weeks@.take(i + 1 as int).drop_last() =~= self.weeks@.take(i as int));
                assert(self.weeks@.take(i + 1 as int).last() == self.weeks@[i as int]);
            }
            let ghost pre = found@;
            if week_contains_month(&self.weeks[i], month) {
                found.push(&self.weeks[i]);
                proof {
                    assert(found@.map_values(|w: &Week| *w) =~= pre.map_values(|w: &Week| *w)
                        + seq![self.weeks@[i as int]]);
                }
            }
            i += 1;
        }
        proof {
            assert(self.weeks@.take(n as int) =~= self.weeks@);
        }
        found
    }

    /// The monthly target status for the given month (1 to 12) of the given
    /// year. The target is the configured monthly value or, under the
    /// weekly-targets policy, the sum of the targets of every week that has
    /// a day in that month, of any year. `None` for an invalid month number
    /// and when no day or no week falls in the month.
    pub fn month_target_status(&self, month_number: u32, year: u32) -> (r: Option<
        MonthlyTargetStatus,
    >)
        requires
            self.wf(),
        ensures
            r is Some <==> {
                &&& 1 <= month_number <= 12
                &&& month_year_days_of_weeks(self.weeks@, month_number, year).len() > 0
                &&& weeks_with_month(self.weeks@, month_number).len() > 0
            },
            (r matches Some(st) ==> st.derived_from(
                month_year_days_of_weeks(self.weeks@, month_number, year),
                if self.configuration.targets.weekly_target_for_month {
                    sum_week_targets(weeks_with_month(self.weeks@, month_number))
                } else {
                    self.configuration.targets.month_target_hours as int
                },
            )),
    {
        if month_number < 1 || month_number > 12 {
            return None;
        }
        let days_vec = self.get_days_in_month_for_year(month_number, year);
        if days_vec.is_empty() {
            return None;
        }
        let weeks_in_month = self.get_weeks_in_month(month_number);
        if weeks_in_month.is_empty() {
            proof {
                assert(weeks_in_month@.map_values(|w: &Week| *w).len() == 0);
            }
            return None;
        }
        let month_target_minutes: i128 = if self.configuration.weekly_target_for_month() {
            sum_targets(&weeks_in_month)
        } else {
            self.configuration.month_target_hours() as i128
        };
        proof {
            assert(weeks_in_month@.map_values(|w: &Week| *w).len() > 0);
        }
        Some(MonthlyTargetStatus::new(&days_vec, month_target_minutes))
    }
}

/// Whether the week holds at least one day falling in the given month.
fn week_contains_month(w: &Week, month: u32) -> (r: bool)
    ensures
        r == week_has_month_day(*w, month),
{
    let m = w.entries.len();
    let mut j: usize = 0;
    while j < m
        invariant
            m == w.entries@.len(),
            0 <= j <= m,
            forall|k: int| 0 <= k < j ==> w.entries@[k].date.month != month,
        decreases m - j,
    {
        if w.entries[j].date.month == month {
            return true;
        }
        j += 1;
    }
    false
}

/// Sum the stored weekly targets of the given weeks, in minutes.
fn sum_targets(weeks: &Vec<&Week>) -> (r: i128)
    ensures
        r == sum_week_targets(weeks@.map_values(|w: &Week| *w)),
        0 <= r <= MONTH_TARGET_LIMIT,
{
    let ghost ws = weeks@.map_values(|w: &Week| *w);
    let n = weeks.len();
    let mut total: i128 = 0;
    let mut i: usize = 0;
    while i < n
        invariant
            ws == weeks@.map_values(|w: &Week| *w),
            n == weeks@.len(),
            0 <= i <= n,
            total == sum_week_targets(ws.take(i as int)),
            0 <= total <= (i as int) * 0xffff_ffff,
        decreases n - i,
    {
        proof {
            assert(ws.take(i + 1 as int).drop_last() =~= ws.take(i as int));
            assert(ws.take(i + 1 as int).last() == ws[i as int]);
            assert((i as int + 1) * 0xffff_ffff == (i as int) * 0xffff_ffff + 0xffff_ffff)
                by (nonlinear_arith);
            assert((i as int) * 0xffff_ffff + 0xffff_ffff <= 0x1_0000_0000_0000_0000 * 0xffff_ffff)
                by (nonlinear_arith)
                requires
                    0 <= (i as int) && (i as int) < 0x1_0000_0000_0000_0000,
            ;
        }
        total = total + weeks[i].target_hours as i128;
        i += 1;
    }
    proof {
        assert(ws.take(n as int) =~= ws);
        assert((n as int) * 0xffff_ffff <= 0x1_0000_0000_0000_0000 * 0xffff_ffff)
            by (nonlinear_arith)
            requires
                0 <= (n as int) && (n as int) <= 0x1_0000_0000_0000_0000,
        ;
    }
    total
}

} // verus!
