//! The application configuration: file locations, hour targets and backup
//! policy. Reading and writing the configuration file is the caller's
//! concern. Targets are measured in whole minutes; zero is the sentinel for
//! "not configured".

use vstd::prelude::*;
use vstd::string::StringExecFns;

verus! {

/// File locations.
pub struct FilePathsConfig {
    /// Directory all data lives under.
    pub storage_directory: String,
    /// File the projects are stored in.
    pub project_data_path: String,
    /// File the weeks are stored in.
    pub week_data_path: String,
    /// Directory generated reports are placed in.
    pub report_directory: String,
    /// Directory backups are placed in.
    pub backups_directory: String,
}

/// Hour targets, in minutes; zero means "not configured".
pub struct TargetsConfig {
    /// Target minutes for a week.
    pub week_target_hours: u32,
    /// Target minutes for a month.
    pub month_target_hours: u32,
    /// Whether the month target is the sum of the weekly targets of the
    /// weeks that contributed days to the month.
    pub weekly_target_for_month: bool,
}

/// Backup policy.
pub struct BackupConfig {
    /// Whether periodic backups are made at all.
    pub enable_periodic_backup: bool,
    /// Days between periodic backups.
    pub periodic_backup_interval_days: u32,
    /// Whether an existing backup file is overwritten.
    pub override_existing_backup: bool,
}

/// The whole application configuration.
pub struct AppConfiguration {
    pub file_paths: FilePathsConfig,
    pub targets: TargetsConfig,
    pub backup: BackupConfig,
}

impl AppConfiguration {
    /// Getter for the storage directory.
    pub fn storage_directory(&self) -> (r: String)
        ensures
            r == self.file_paths.storage_directory,
    {
        self.file_paths.storage_directory.clone()
    }

    /// Getter for the project data file path.
    pub fn project_data_path(&self) -> (r: String)
        ensures
            r == self.file_paths.project_data_path,
    {
        self.file_paths.project_data_path.clone()
    }

    /// Getter for the week data file path.
    pub fn week_data_path(&self) -> (r: String)
        ensures
            r == self.file_paths.week_data_path,
    {
        self.file_paths.week_data_path.clone()
    }

    /// Getter for the report directory.
    pub fn report_directory(&self) -> (r: String)
        ensures
            r == self.file_paths.report_directory,
    {
        self.file_paths.report_directory.clone()
    }

    /// Getter for the weekly target, in minutes.
    pub fn week_target_hours(&self) -> (r: u32)
        ensures
            r == self.targets.week_target_hours,
    {
        self.targets.week_target_hours
    }

    /// Getter for the backup directory.
    pub fn backup_directory(&self) -> (r: String)
        ensures
            r == self.file_paths.backups_directory,
    {
        self.file_paths.backups_directory.clone()
    }

    /// Getter for the monthly target, in minutes.
    pub fn month_target_hours(&self) -> (r: u32)
        ensures
            r == self.targets.month_target_hours,
    {
        self.targets.month_target_hours
    }

    /// Getter for the weekly-targets-for-month policy.
    pub fn weekly_target_for_month(&self) -> (r: bool)
        ensures
            r == self.targets.weekly_target_for_month,
    {
        self.targets.weekly_target_for_month
    }

    /// Getter for whether periodic backups are enabled.
    pub fn periodic_backup_enabled(&self) -> (r: bool)
        ensures
            r == self.backup.enable_periodic_backup,
    {
        self.backup.enable_periodic_backup
    }

    /// Getter for the periodic backup interval, in days.
    pub fn periodic_backup_interval(&self) -> (r: u32)
        ensures
            r == self.backup.periodic_backup_interval_days,
    {
        self.backup.periodic_backup_interval_days
    }

    /// Getter for whether existing backups are overwritten.
    pub fn override_existing_backup(&self) -> (r: bool)
        ensures
            r == self.backup.override_existing_backup,
    {
        self.backup.override_existing_backup
    }

    /// The default configuration, rooted under the given home directory.
    pub fn new_default(user_home: &String) -> (r: AppConfiguration)
        ensures
            r.file_paths.storage_directory@ == user_home@ + "/.local/time-butler"@,
            r.file_paths.project_data_path@ == user_home@
                + "/.local/time-butler/.app_storage/prj_data.bin"@,
            r.file_paths.week_data_path@ == user_home@
                + "/.local/time-butler/.app_storage/week_data.bin"@,
            r.file_paths.report_directory@ == user_home@
                + "/.local/time-butler/generated_reports"@,
            r.file_paths.backups_directory@ == user_home@ + "/.local/time-butler/backups"@,
            r.targets.week_target_hours == 2400,
            r.targets.month_target_hours == 9600,
            !r.targets.weekly_target_for_month,
            !r.backup.enable_periodic_backup,
            r.backup.periodic_backup_interval_days == 14,
            r.backup.override_existing_backup,
    {
        let file_paths = FilePathsConfig {
            storage_directory: user_home.clone().concat("/.local/time-butler"),
            project_data_path: user_home.clone().concat(
                "/.local/time-butler/.app_storage/prj_data.bin",
            ),
            week_data_path: user_home.clone().concat(
                "/.local/time-butler/.app_storage/week_data.bin",
            ),
            report_directory: user_home.clone().concat("/.local/time-butler/generated_reports"),
            backups_directory: user_home.clone().concat("/.local/time-butler/backups"),
        };
        let targets = TargetsConfig {
            week_target_hours: 2400,
            month_target_hours: 9600,
            weekly_target_for_month: false,
        };
        let backup = BackupConfig {
            enable_periodic_backup: false,
            periodic_backup_interval_days: 14,
            override_existing_backup: true,
        };
        AppConfiguration { file_paths, targets, backup }
    }
}

} // verus!
