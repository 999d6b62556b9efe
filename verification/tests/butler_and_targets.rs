//! Tests of the orchestrator, the target statuses, and the supporting
//! configuration, report and interaction modules.

use time_butler::backup_organizer::BackupOrganizer;
use time_butler::butler::Butler;
use time_butler::cli_interactor::{CliCommand, CliInteractor};
use time_butler::config::{AppConfiguration, BackupConfig, FilePathsConfig, TargetsConfig};
use time_butler::date::Date;
use time_butler::day::Day;
use time_butler::entry::Entry;
use time_butler::project::Project;
use time_butler::report::{ParseReportFormatError, ReportFormat};
use time_butler::report_manager::ReportManager;
use time_butler::storage_handler::StorageHandler;
use time_butler::target::{
    MonthlyTargetStatus, TargetSetMethod, TargetStatus, WeeklyTargetStatus,
};
use time_butler::week::Week;

fn date(year: i32, month: u32, day: u32) -> Date {
    Date { year, month, day }
}

fn day_with_hours(d: Date, minutes: i64) -> Day {
    Day::from_parts(None, None, minutes, String::new(), 0, 11, d, 0).unwrap()
}

fn test_configuration() -> AppConfiguration {
    AppConfiguration {
        file_paths: FilePathsConfig {
            storage_directory: String::from("/tmp/store"),
            project_data_path: String::from("/tmp/store/prj.bin"),
            week_data_path: String::from("/tmp/store/week.bin"),
            report_directory: String::from("/tmp/reports"),
            backups_directory: String::from("/tmp/backups"),
        },
        targets: TargetsConfig {
            week_target_hours: 2400,
            month_target_hours: 9600,
            weekly_target_for_month: false,
        },
        backup: BackupConfig {
            enable_periodic_backup: false,
            periodic_backup_interval_days: 14,
            override_existing_backup: true,
        },
    }
}

fn test_butler() -> Butler {
    Butler::new(StorageHandler::new(None, false), test_configuration())
}

#[test]
fn weekly_status_overreached() {
    // 42 logged hours against a configured 40-hour target: 105 percent,
    // overreached, two hours of overtime.
    let mut week = Week::new(11, 2025, 2400);
    week.add_entry(day_with_hours(date(2025, 3, 10), 42 * 60));
    let st = WeeklyTargetStatus::new(&week, 2400);
    assert_eq!(st.status_hours(), 2520);
    assert_eq!(st.target_hours(), 2400);
    assert_eq!(st.percentage(), 105);
    assert_eq!(st.target_status(), TargetStatus::OverReached);
    assert_eq!(st.remaining_hours(), -120);
    assert_eq!(st.hours_difference(), 120);
    assert_eq!(st.target_set_method(), TargetSetMethod::SetFromConfig);
    assert_eq!(st.target_status_string(), "OverReached");
    assert_eq!(st.target_set_method_string(), "Set from config");
}

#[test]
fn weekly_status_unset_target_uses_default() {
    // Nothing logged and no configured target: the 40-hour default applies,
    // zero percent, not reached.
    let week = Week::new(11, 2025, 0);
    let st = WeeklyTargetStatus::new(&week, 0);
    assert_eq!(st.status_hours(), 0);
    assert_eq!(st.target_hours(), 2400);
    assert_eq!(st.percentage(), 0);
    assert_eq!(st.target_status(), TargetStatus::NotReached);
    assert_eq!(st.remaining_hours(), 2400);
    assert_eq!(st.hours_difference(), 2400);
    assert_eq!(st.target_set_method(), TargetSetMethod::SetFromDefault);
    assert_eq!(st.target_set_method_string(), "Set from default");
}

#[test]
fn weekly_status_reached_exactly() {
    let mut week = Week::new(11, 2025, 2400);
    week.add_entry(day_with_hours(date(2025, 3, 10), 2400));
    let st = WeeklyTargetStatus::new(&week, 2400);
    assert_eq!(st.percentage(), 100);
    assert_eq!(st.target_status(), TargetStatus::Reached);
    assert_eq!(st.remaining_hours(), 0);
    assert_eq!(st.hours_difference(), 0);
    assert_eq!(st.target_status_string(), "Reached");
}

#[test]
fn weekly_status_just_below_target() {
    let mut week = Week::new(11, 2025, 2400);
    week.add_entry(day_with_hours(date(2025, 3, 10), 2399));
    let st = WeeklyTargetStatus::new(&week, 2400);
    assert_eq!(st.percentage(), 99);
    assert_eq!(st.target_status(), TargetStatus::NotReached);
    assert_eq!(st.remaining_hours(), 1);
    assert_eq!(st.hours_difference(), 1);
    assert_eq!(st.target_status_string(), "NotReached");
}

#[test]
fn monthly_status_from_days() {
    let days = vec![
        day_with_hours(date(2025, 3, 10), 4800),
        day_with_hours(date(2025, 3, 11), 4800),
    ];
    let st = MonthlyTargetStatus::new(&days, 0);
    assert_eq!(st.status_hours(), 9600);
    assert_eq!(st.target_hours(), 9600);
    assert_eq!(st.percentage(), 100);
    assert_eq!(st.target_status(), TargetStatus::Reached);
    assert_eq!(st.target_set_method(), TargetSetMethod::SetFromDefault);
}

#[test]
fn project_uniqueness_is_enforced() {
    // Adding a project whose name matches a stored one is rejected and the
    // collection is unchanged.
    let mut butler = test_butler();
    assert!(butler.add_project(Project::new(String::from("alpha"), None)));
    assert!(butler.add_project(Project::new(String::from("beta"), None)));
    assert!(!butler.add_project(Project::new(
        String::from("alpha"),
        Some(String::from("double"))
    )));
    assert_eq!(butler.projects().len(), 2);
    assert_eq!(butler.projects()[0].name(), "alpha");
    assert_eq!(butler.projects()[1].name(), "beta");
}

#[test]
fn butler_add_entry_requires_known_project() {
    let mut butler = test_butler();
    assert!(butler.add_project(Project::new(String::from("alpha"), None)));
    assert!(butler.add_entry("alpha", Entry::new(4, None)));
    assert!(!butler.add_entry("missing", Entry::new(4, None)));
    assert_eq!(butler.projects()[0].entries().len(), 1);
}

#[test]
fn butler_add_day_creates_week_and_merges() {
    let mut butler = test_butler();
    let d = date(2025, 3, 10);
    let first = Day::from_parts(Some(9 * 3600), None, 0, String::new(), 0, 11, d, 0).unwrap();
    assert!(butler.add_day(first));
    assert_eq!(butler.weeks().len(), 1);
    assert_eq!(butler.weeks()[0].number(), 11);
    assert_eq!(butler.weeks()[0].year(), 2025);
    assert_eq!(butler.weeks()[0].target_hours(), 2400);
    assert_eq!(butler.weeks()[0].entries().len(), 1);

    // A day on the same date is merged, not appended.
    let second =
        Day::from_parts(None, Some(17 * 3600), 0, String::new(), 0, 11, d, 0).unwrap();
    assert!(butler.add_day(second));
    assert_eq!(butler.weeks().len(), 1);
    assert_eq!(butler.weeks()[0].entries().len(), 1);
    let merged = butler.weeks()[0].get_day_copy(&d).unwrap();
    assert!(merged.closed());
    assert_eq!(merged.hours(), 480);

    // Once the stored day is closed, another day on its date is rejected.
    let third = Day::from_parts(None, None, 0, String::new(), 0, 11, d, 0).unwrap();
    assert!(!butler.add_day(third));

    // A day keyed to another week lands in a new week.
    let other = date(2025, 3, 17);
    let next_week =
        Day::from_parts(None, None, 0, String::new(), 0, 12, other, 0).unwrap();
    assert!(butler.add_day(next_week));
    assert_eq!(butler.weeks().len(), 2);
    assert_eq!(butler.weeks()[1].number(), 12);
}

#[test]
fn butler_remove_project() {
    let mut butler = test_butler();
    assert!(butler.add_project(Project::new(String::from("alpha"), None)));
    assert!(!butler.remove_project("missing"));
    assert!(butler.remove_project("alpha"));
    assert_eq!(butler.projects().len(), 0);
}

#[test]
fn butler_remove_entry_parses_identifier() {
    let mut butler = test_butler();
    assert!(butler.add_project(Project::new(String::from("alpha"), None)));
    let entry = Entry::new(4, None);
    let id = entry.id();
    assert!(butler.add_entry("alpha", entry));
    let id_text = uuid::Uuid::from_u128(id).to_string();

    assert!(!butler.remove_entry("alpha", String::from("not-a-uuid")));
    assert!(!butler.remove_entry("missing", id_text.clone()));
    assert!(!butler.remove_entry(
        "alpha",
        uuid::Uuid::from_u128(id.wrapping_add(1)).to_string()
    ));
    assert_eq!(butler.projects()[0].entries().len(), 1);
    assert!(butler.remove_entry("alpha", id_text));
    assert_eq!(butler.projects()[0].entries().len(), 0);
}

#[test]
fn butler_remove_day_parses_date() {
    let mut butler = test_butler();
    let d = date(2025, 3, 10);
    let day = Day::from_parts(None, None, 0, String::new(), 0, 11, d, 0).unwrap();
    assert!(butler.add_day(day));

    assert!(!butler.remove_day(11, String::from("10.03.2025")));
    assert!(!butler.remove_day(12, String::from("2025-03-10")));
    assert!(!butler.remove_day(11, String::from("2025-03-11")));
    assert_eq!(butler.weeks()[0].entries().len(), 1);
    assert!(butler.remove_day(11, String::from("2025-03-10")));
    assert_eq!(butler.weeks()[0].entries().len(), 0);
}

#[test]
fn butler_aggregates_days_by_month_and_year() {
    let mut butler = test_butler();
    let march25 = Day::from_parts(None, None, 60, String::new(), 0, 11, date(2025, 3, 10), 0)
        .unwrap();
    let march24 = Day::from_parts(None, None, 120, String::new(), 0, 11, date(2024, 3, 11), 0)
        .unwrap();
    let april25 = Day::from_parts(None, None, 180, String::new(), 0, 15, date(2025, 4, 7), 0)
        .unwrap();
    assert!(butler.add_day(march25));
    assert!(butler.add_day(march24));
    assert!(butler.add_day(april25));

    // Month grouping ignores the year.
    let march_days = butler.get_days_in_month(3);
    assert_eq!(march_days.len(), 2);
    let march_2025 = butler.get_days_in_month_for_year(3, 2025);
    assert_eq!(march_2025.len(), 1);
    assert_eq!(march_2025[0].hours(), 60);
    let in_2025 = butler.get_days_in_year(2025);
    assert_eq!(in_2025.len(), 2);
    let weeks = butler.get_weeks_in_month(3);
    assert_eq!(weeks.len(), 2);
    let none = butler.get_days_in_month(12);
    assert!(none.is_empty());
}

#[test]
fn butler_week_target_status() {
    let mut butler = test_butler();
    let day = Day::from_parts(None, None, 2520, String::new(), 0, 11, date(2025, 3, 10), 0)
        .unwrap();
    assert!(butler.add_day(day));
    assert!(butler.week_target_status(12, 2025).is_none());
    let st = butler.week_target_status(11, 2025).unwrap();
    assert_eq!(st.percentage(), 105);
    assert_eq!(st.target_status(), TargetStatus::OverReached);
}

#[test]
fn butler_month_target_status() {
    let mut butler = test_butler();
    let day = Day::from_parts(None, None, 4800, String::new(), 0, 11, date(2025, 3, 10), 0)
        .unwrap();
    assert!(butler.add_day(day));
    assert!(butler.month_target_status(0, 2025).is_none());
    assert!(butler.month_target_status(13, 2025).is_none());
    assert!(butler.month_target_status(4, 2025).is_none());
    let st = butler.month_target_status(3, 2025).unwrap();
    assert_eq!(st.status_hours(), 4800);
    assert_eq!(st.target_hours(), 9600);
    assert_eq!(st.percentage(), 50);
    assert_eq!(st.target_status(), TargetStatus::NotReached);
}

#[test]
fn butler_month_target_from_weekly_targets() {
    let mut configuration = test_configuration();
    configuration.targets.weekly_target_for_month = true;
    configuration.targets.week_target_hours = 1000;
    let mut butler = Butler::new(StorageHandler::new(None, false), configuration);
    let day1 = Day::from_parts(None, None, 300, String::new(), 0, 11, date(2025, 3, 10), 0)
        .unwrap();
    let day2 = Day::from_parts(None, None, 700, String::new(), 0, 12, date(2025, 3, 17), 0)
        .unwrap();
    assert!(butler.add_day(day1));
    assert!(butler.add_day(day2));
    let st = butler.month_target_status(3, 2025).unwrap();
    // Two weeks contribute days to March, so the target is their summed
    // weekly targets.
    assert_eq!(st.target_hours(), 2000);
    assert_eq!(st.status_hours(), 1000);
    assert_eq!(st.percentage(), 50);
    assert_eq!(st.target_set_method(), TargetSetMethod::SetFromConfig);
}

#[test]
fn report_format_parsing() {
    assert_eq!(ReportFormat::from_str("json"), Ok(ReportFormat::Json));
    assert_eq!(ReportFormat::from_str("JSON"), Ok(ReportFormat::Json));
    assert_eq!(ReportFormat::from_str("Csv"), Ok(ReportFormat::Csv));
    assert_eq!(ReportFormat::from_str("yaml"), Ok(ReportFormat::Yaml));
    assert_eq!(ReportFormat::from_str("html"), Ok(ReportFormat::Html));
    assert_eq!(ReportFormat::from_str("pdf"), Ok(ReportFormat::Pdf));
    assert_eq!(ReportFormat::from_str("text"), Ok(ReportFormat::Text));
    assert_eq!(ReportFormat::from_str("bogus"), Err(ParseReportFormatError));
    assert_eq!(ReportFormat::from_str(""), Err(ParseReportFormatError));
}

#[test]
fn report_suffixes() {
    let mngr = ReportManager::new(String::from("/tmp/reports"), String::from("stem."));
    assert_eq!(mngr.get_report_suffix(ReportFormat::Json).unwrap(), "json");
    assert_eq!(mngr.get_report_suffix(ReportFormat::Csv).unwrap(), "csv");
    assert_eq!(mngr.get_report_suffix(ReportFormat::Yaml).unwrap(), "yaml");
    assert_eq!(mngr.get_report_suffix(ReportFormat::Html).unwrap(), "html");
    assert_eq!(mngr.get_report_suffix(ReportFormat::Pdf).unwrap(), "pdf");
    assert_eq!(mngr.get_report_suffix(ReportFormat::Text).unwrap(), "txt");
}

#[test]
fn interactor_menu_choices() {
    let ui = CliInteractor::new();
    assert_eq!(ui.start_user_interaction("1"), Some(CliCommand::AddProject));
    assert_eq!(ui.start_user_interaction("2"), Some(CliCommand::AddEntry));
    assert_eq!(ui.start_user_interaction("3"), Some(CliCommand::AddDay));
    assert_eq!(ui.start_user_interaction("4"), Some(CliCommand::ListProjects));
    assert_eq!(ui.start_user_interaction("5"), Some(CliCommand::ListWeeks));
    assert_eq!(ui.start_user_interaction("6"), Some(CliCommand::Exit));
    assert_eq!(ui.start_user_interaction("7"), None);
    assert_eq!(ui.start_user_interaction(""), None);
}

#[test]
fn interactor_hours_and_answers() {
    let ui = CliInteractor::new();
    assert_eq!(ui.get_entry_hours("42"), Some(42));
    assert_eq!(ui.get_entry_hours("+42"), Some(42));
    assert_eq!(ui.get_entry_hours("4294967295"), Some(u32::MAX));
    assert_eq!(ui.get_entry_hours("4294967296"), None);
    assert_eq!(ui.get_entry_hours(""), None);
    assert_eq!(ui.get_entry_hours("4a"), None);
    assert_eq!(ui.get_entry_hours("-4"), None);
    assert_eq!(ui.get_day_starting_time("y"), Some(true));
    assert_eq!(ui.get_day_starting_time("n"), Some(false));
    assert_eq!(ui.get_day_starting_time("maybe"), None);
    assert_eq!(ui.get_day_ending_time("y"), Some(true));
    assert_eq!(ui.get_day_ending_time("n"), Some(false));
    assert_eq!(ui.get_day_ending_time(""), None);
    assert_eq!(ui.get_project_name(String::from("alpha")), Ok(String::from("alpha")));
    assert_eq!(
        ui.get_project_description(String::from("desc")),
        Ok(String::from("desc"))
    );
    assert_eq!(ui.get_entry_project(String::from("alpha")), Ok(String::from("alpha")));
    assert_eq!(ui.get_entry_description(String::from("x")), Ok(String::from("x")));
    assert_eq!(ui.get_day_description(String::from("x")), Ok(String::from("x")));
}

#[test]
fn configuration_defaults() {
    let home = String::from("/home/user");
    let cfg = AppConfiguration::new_default(&home);
    assert_eq!(cfg.storage_directory(), "/home/user/.local/time-butler");
    assert_eq!(
        cfg.project_data_path(),
        "/home/user/.local/time-butler/.app_storage/prj_data.bin"
    );
    assert_eq!(
        cfg.week_data_path(),
        "/home/user/.local/time-butler/.app_storage/week_data.bin"
    );
    assert_eq!(
        cfg.report_directory(),
        "/home/user/.local/time-butler/generated_reports"
    );
    assert_eq!(cfg.backup_directory(), "/home/user/.local/time-butler/backups");
    assert_eq!(cfg.week_target_hours(), 2400);
    assert_eq!(cfg.month_target_hours(), 9600);
    assert!(!cfg.weekly_target_for_month());
    assert!(!cfg.periodic_backup_enabled());
    assert_eq!(cfg.periodic_backup_interval(), 14);
    assert!(cfg.override_existing_backup());
}

#[test]
fn storage_handler_paths() {
    let handler = StorageHandler::new(Some(String::from("/home/user")), true);
    assert_eq!(
        handler.startup_storage_directory(),
        "/home/user/.local/time-butler/.app_storage"
    );
    assert_eq!(handler.user_home_directory(), "/home/user");
    assert!(handler.init_success);
    assert!(!handler.first_run);
    assert_eq!(
        handler.backup_organizer.backup_dir(),
        "/home/user/.local/time-butler/.app_storage/backups"
    );

    let fresh = StorageHandler::new(Some(String::from("/home/user")), false);
    assert!(fresh.first_run);

    let homeless = StorageHandler::new(None, false);
    assert!(!homeless.init_success);
    assert_eq!(homeless.startup_storage_directory(), ".app_storage");
}

#[test]
fn storage_handler_configured_paths() {
    let mut handler = StorageHandler::new(None, false);
    let cfg = test_configuration();
    handler.set_paths_from_config(&cfg);
    assert_eq!(handler.startup_storage_directory(), "/tmp/store");
    assert_eq!(handler.project_data_file_path, "/tmp/store/prj.bin");
    assert_eq!(handler.week_data_file_path, "/tmp/store/week.bin");
    assert_eq!(handler.report_dir, "/tmp/reports");
    assert_eq!(handler.backup_organizer.backup_dir(), "/tmp/backups");
}

#[test]
fn backup_decision() {
    let org = BackupOrganizer::new("/tmp/backups", "/tmp/p.bin", "/tmp/w.bin", "/tmp/store");
    // Disabled: never due.
    assert!(!org.backup_data(false, None, 1_000_000, 14));
    // No state recorded yet: due.
    assert!(org.backup_data(true, None, 1_000_000, 14));
    // Fourteen days not yet past.
    let day_seconds = 86400;
    assert!(!org.backup_data(true, Some(0), 13 * day_seconds, 14));
    assert!(org.backup_data(true, Some(0), 14 * day_seconds, 14));
    // A zero interval makes every save due.
    assert!(org.backup_data(true, Some(0), 0, 0));
}

#[test]
fn day_new_matches_current_date() {
    let d = Day::new(None);
    let today = chrono::Datelike::day(&chrono::Local::now().date_naive());
    assert_eq!(d.date().day, today);
}
