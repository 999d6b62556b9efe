//! The command model of the command-line interface: every command the tool
//! accepts, as plain data. Argument parsing into these values is the
//! caller's concern.

use vstd::prelude::*;

verus! {

/// A full invocation: the chosen command and the global switches.
pub struct Cli {
    /// Command to be run.
    pub command: Commands,
    /// Verbose logging.
    pub verbose: bool,
    /// Log output as JSON.
    pub json: bool,
    /// Configuration file path.
    pub config: String,
}

/// The available commands.
#[allow(inconsistent_fields)]
pub enum Commands {
    /// Report time interactively.
    Interactive,
    /// Add a project, entry or day.
    Add { entity: AddSubcommands },
    /// Generate a time overview report.
    Report { entity: ReportSubcommands },
    /// List already reported items.
    List {
        project: Option<String>,
        week: Option<String>,
        month: Option<String>,
        all_weeks: bool,
        all_projects: bool,
    },
    /// Remove an already stored item.
    Remove { entity: RemoveSubcommands },
    /// Modify a project or entry.
    Modify { project: Option<String>, entry: Option<String>, day: Option<String> },
    /// Short info on the internal storage.
    Info { short: bool },
    /// Time targets for the week or month.
    Targets { entity: TargetTimesSubcommands },
}

/// What can be added.
#[allow(inconsistent_fields)]
pub enum AddSubcommands {
    /// A new project.
    Project { name: String, description: Option<String> },
    /// A new time entry on an existing project.
    Entry { project: String, hours: u32, description: String },
    /// A new work day.
    Day { extra_info: Option<String>, starting_time: bool, ending_time: bool },
}

/// What can be removed.
pub enum RemoveSubcommands {
    /// A project and all its entries.
    Project { name: String },
    /// A specific entry of a project.
    Entry { project: String, id: Option<String> },
    /// A specific day of a week.
    Day { date: String, week: u32 },
}

/// What can be modified.
pub enum ModifySubcommands {
    Project { name: Option<String>, description: Option<String> },
}

/// What can be reported on.
pub enum ReportSubcommands {
    /// A project report.
    Project { name: String, format: String },
    /// A week report.
    Week { number: u32, year: u32, format: String },
    /// A month report.
    Month { number: u32, year: u32, format: String },
    /// A year report.
    Year { number: u32, format: String },
}

/// Which target status to show.
pub enum TargetTimesSubcommands {
    /// The week's target.
    Week { number: u32, year: u32 },
    /// The month's target.
    Month { number: u32, year: u32 },
}

} // verus!
