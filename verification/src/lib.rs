//! A personal time-tracking library: projects with billable entries, calendar
//! days grouped into weeks, and progress computations against hour targets.
//!
//! Durations of worked time are measured in whole minutes throughout, and
//! points in time as seconds; calendar dates are plain year/month/day values.

pub mod backup_organizer;
pub mod butler;
pub mod cli;
pub mod cli_interactor;
pub mod clock;
pub mod config;
pub mod date;
pub mod day;
pub mod entry;
pub mod project;
pub mod report;
pub mod report_manager;
pub mod storage_handler;
pub mod strutil;
pub mod target;
pub mod uid;
pub mod week;
