//! The backup policy: where backups go and when one is due. Copying files
//! and persisting the backup state is the caller's concern.

use vstd::prelude::*;

use crate::day::{TIME_MAX_SECONDS, TIME_MIN_SECONDS};

verus! {

/// Whole days in a span of seconds, truncated toward zero.
pub open spec fn days_of_seconds(diff: int) -> int {
    if diff >= 0 {
        diff / 86400
    } else {
        -((-diff) / 86400)
    }
}

/// Whether a backup is due: backups must be enabled, and either none was
/// ever made, or at least `duration_days` whole days have passed since the
/// last one.
pub open spec fn backup_due(
    backup_enabled: bool,
    last_backup: Option<i64>,
    now: int,
    duration_days: u32,
) -> bool {
    backup_enabled && match last_backup {
        None => true,
        Some(last) => days_of_seconds(now - last) >= duration_days,
    }
}

/// Knows the backup locations and decides when a backup is due.
pub struct BackupOrganizer {
    /// Directory the backup copies are placed in.
    pub backup_dir: String,
    /// File the projects are stored in.
    pub project_data_file: String,
    /// File the weeks are stored in.
    pub week_data_file: String,
    /// Directory the backup state lives in.
    pub storage_dir: String,
}

impl BackupOrganizer {
    /// Create a new organizer for the given locations.
    pub fn new(
        backup_dir: &str,
        project_data_file: &str,
        week_data_file: &str,
        storage_dir: &str,
    ) -> (r: BackupOrganizer)
        ensures
            r.backup_dir@ == backup_dir@,
            r.project_data_file@ == project_data_file@,
            r.week_data_file@ == week_data_file@,
            r.storage_dir@ == storage_dir@,
    {
        BackupOrganizer {
            backup_dir: backup_dir.to_owned(),
            project_data_file: project_data_file.to_owned(),
            week_data_file: week_data_file.to_owned(),
            storage_dir: storage_dir.to_owned(),
        }
    }

    /// Decide whether the data files are to be backed up now. `last_backup`
    /// is the recorded time of the last backup, if any; the caller loads it,
    /// performs the copy when this returns true, and records the new state.
    pub fn backup_data(
        &self,
        backup_enabled: bool,
        last_backup: Option<i64>,
        now: i64,
        duration_days: u32,
    ) -> (r: bool)
        requires
            last_backup matches Some(t) ==> TIME_MIN_SECONDS <= t <= TIME_MAX_SECONDS,
            TIME_MIN_SECONDS <= now <= TIME_MAX_SECONDS,
        ensures
            r == backup_due(backup_enabled, last_backup, now as int, duration_days),
    {
        if !backup_enabled {
            return false;
        }
        match last_backup {
            None => true,
            Some(last) => {
                let diff: i64 = now - last;
                let days: i64 = if diff >= 0 {
                    diff / 86400
                } else {
                    -(-diff / 86400)
                };
                proof {
                    vstd::arithmetic::div_mod::lemma_div_pos_is_pos(
                        if diff >= 0 {
                            diff as int
                        } else {
                            -diff as int
                        },
                        86400,
                    );
                }
                days >= duration_days as i64
            },
        }
    }

    /// Getter for `backup_dir`.
    pub fn backup_dir(&self) -> (r: &str)
        ensures
            r@ == self.backup_dir@,
    {
        self.backup_dir.as_str()
    }

    /// Getter for `project_data_file`.
    pub fn project_data_file(&self) -> (r: &str)
        ensures
            r@ == self.project_data_file@,
    {
        self.project_data_file.as_str()
    }

    /// Getter for `week_data_file`.
    pub fn week_data_file(&self) -> (r: &str)
        ensures
            r@ == self.week_data_file@,
    {
        self.week_data_file.as_str()
    }

    /// Getter for `storage_dir`.
    pub fn storage_dir(&self) -> (r: &str)
        ensures
            r@ == self.storage_dir@,
    {
        self.storage_dir.as_str()
    }
}

} // verus!
