//! Where the stored data lives: the storage paths and their derivation from
//! the home directory or the configuration. Reading and writing the files
//! is the caller's concern.

use vstd::prelude::*;
use vstd::string::StringExecFns;

use crate::backup_organizer::BackupOrganizer;
use crate::config::AppConfiguration;

verus! {

/// Holds the storage locations of the application's data files.
pub struct StorageHandler {
    /// File the projects are stored in.
    pub project_data_file_path: String,
    /// File the weeks are stored in.
    pub week_data_file_path: String,
    /// Directory all data files live in.
    pub storage_dir: String,
    /// Directory generated reports are placed in.
    pub report_dir: String,
    /// The user's home directory.
    pub user_home_dir: String,
    /// Whether the paths were derived successfully.
    pub init_success: bool,
    /// Whether the storage directory still has to be created.
    pub first_run: bool,
    /// The backup organizer, set up for the same locations.
    pub backup_organizer: BackupOrganizer,
}

impl StorageHandler {
    /// Derive the storage locations under the given home directory; with no
    /// home directory the handler is left uninitialized. The caller reports
    /// whether the storage directory already exists on disk, and creates it
    /// when `first_run` says so.
    pub fn new(home_dir: Option<String>, storage_dir_present: bool) -> (r: StorageHandler)
        ensures
            (home_dir matches Some(home) ==> {
                &&& r.storage_dir@ == home@ + "/.local/time-butler/.app_storage"@
                &&& r.project_data_file_path@ == home@
                    + "/.local/time-butler/.app_storage/prj_data.bin"@
                &&& r.week_data_file_path@ == home@
                    + "/.local/time-butler/.app_storage/week_data.bin"@
                &&& r.report_dir@ == home@ + "/.local/time-butler/.generated_reports"@
                &&& r.user_home_dir == home
                &&& r.init_success
                &&& r.first_run == !storage_dir_present
            }),
            (home_dir is None ==> {
                &&& r.project_data_file_path@ == "prj_data.bin"@
                &&& r.week_data_file_path@ == "week_data.bin"@
                &&& r.storage_dir@ == ".app_storage"@
                &&& r.report_dir@ == ".generated_reports"@
                &&& r.user_home_dir@.len() == 0
                &&& !r.init_success
                &&& !r.first_run
            }),
            r.backup_organizer.backup_dir@ == r.storage_dir@ + "/backups"@,
            r.backup_organizer.project_data_file@ == r.project_data_file_path@,
            r.backup_organizer.week_data_file@ == r.week_data_file_path@,
            r.backup_organizer.storage_dir@ == r.storage_dir@,
    {
        let handler = match home_dir {
            Some(home) => StorageHandler {
                project_data_file_path: home.clone().concat(
                    "/.local/time-butler/.app_storage/prj_data.bin",
                ),
                week_data_file_path: home.clone().concat(
                    "/.local/time-butler/.app_storage/week_data.bin",
                ),
                storage_dir: home.clone().concat("/.local/time-butler/.app_storage"),
                report_dir: home.clone().concat("/.local/time-butler/.generated_reports"),
                user_home_dir: home,
                init_success: true,
                first_run: !storage_dir_present,
                backup_organizer: BackupOrganizer::new("", "", "", ""),
            },
            None => StorageHandler {
                project_data_file_path: String::from_str("prj_data.bin"),
                week_data_file_path: String::from_str("week_data.bin"),
                storage_dir: String::from_str(".app_storage"),
                report_dir: String::from_str(".generated_reports"),
                user_home_dir: String::new(),
                init_success: false,
                first_run: false,
                backup_organizer: BackupOrganizer::new("", "", "", ""),
            },
        };
        let backup_dir = handler.storage_dir.clone().concat("/backups");
        let backup_organizer = BackupOrganizer::new(
            backup_dir.as_str(),
            handler.project_data_file_path.as_str(),
            handler.week_data_file_path.as_str(),
            handler.storage_dir.as_str(),
        );
        StorageHandler { backup_organizer, ..handler }
    }

    /// Getter for the storage directory.
    pub fn startup_storage_directory(&self) -> (r: String)
        ensures
            r == self.storage_dir,
    {
        self.storage_dir.clone()
    }

    /// Getter for the user's home directory.
    pub fn user_home_directory(&self) -> (r: String)
        ensures
            r == self.user_home_dir,
    {
        self.user_home_dir.clone()
    }

    /// Replace the storage locations by the configured ones, and set the
    /// backup organizer up for them.
    pub fn set_paths_from_config(&mut self, config: &AppConfiguration)
        ensures
            final(self).storage_dir == config.file_paths.storage_directory,
            final(self).project_data_file_path == config.file_paths.project_data_path,
            final(self).week_data_file_path == config.file_paths.week_data_path,
            final(self).report_dir == config.file_paths.report_directory,
            final(self).user_home_dir == old(self).user_home_dir,
            final(self).init_success == old(self).init_success,
            final(self).first_run == old(self).first_run,
            final(self).backup_organizer.backup_dir@ == config.file_paths.backups_directory@,
            final(self).backup_organizer.project_data_file@
                == config.file_paths.project_data_path@,
            final(self).backup_organizer.week_data_file@ == config.file_paths.week_data_path@,
            final(self).backup_organizer.storage_dir@ == config.file_paths.storage_directory@,
    {
        self.storage_dir = config.storage_directory();
        self.project_data_file_path = config.project_data_path();
        self.week_data_file_path = config.week_data_path();
        self.report_dir = config.report_directory();
        let backup_dir = config.backup_directory();
        self.backup_organizer = BackupOrganizer::new(
            backup_dir.as_str(),
            self.project_data_file_path.as_str(),
            self.week_data_file_path.as_str(),
            self.storage_dir.as_str(),
        );
    }
}

} // verus!
