//! The decisions of the interactive session: what each line the user typed
//! means. Printing prompts and reading lines is the caller's concern; every
//! function here takes the line already read and trimmed.

use vstd::prelude::*;

use crate::strutil::{parse_u32, parsed_u32, str_eq};

verus! {

/// A command chosen in the interactive session.
#[derive(Clone, Copy, PartialEq, Eq, Structural, Debug)]
pub enum CliCommand {
    AddProject,
    AddEntry,
    AddDay,
    ListProjects,
    ListWeeks,
    Exit,
}

/// Failure of the interaction with the user.
#[derive(Clone, Copy, PartialEq, Eq, Structural, Debug)]
pub struct UserInteractionFailure;

/// Interprets the user's answers in the interactive session.
pub struct CliInteractor {}

impl CliInteractor {
    /// Create a new interactor.
    pub fn new() -> (r: CliInteractor) {
        CliInteractor {  }
    }

    /// The main-menu choice the given line selects, if any; `None` asks the
    /// caller to prompt again.
    pub fn start_user_interaction(&self, line: &str) -> (r: Option<CliCommand>)
        ensures
            (r == Some(CliCommand::AddProject)) <==> line@ == "1"@,
            (r == Some(CliCommand::AddEntry)) <==> line@ == "2"@,
            (r == Some(CliCommand::AddDay)) <==> line@ == "3"@,
            (r == Some(CliCommand::ListProjects)) <==> line@ == "4"@,
            (r == Some(CliCommand::ListWeeks)) <==> line@ == "5"@,
            (r == Some(CliCommand::Exit)) <==> line@ == "6"@,
    {
        proof {
            reveal_strlit("1");
            reveal_strlit("2");
            reveal_strlit("3");
            reveal_strlit("4");
            reveal_strlit("5");
            reveal_strlit("6");
            assert("1"@[0] == '1' && "2"@[0] == '2' && "3"@[0] == '3' && "4"@[0] == '4' && "5"@[0]
                == '5' && "6"@[0] == '6');
        }
        if str_eq(line, "1") {
            Some(CliCommand::AddProject)
        } else if str_eq(line, "2") {
            Some(CliCommand::AddEntry)
        } else if str_eq(line, "3") {
            Some(CliCommand::AddDay)
        } else if str_eq(line, "4") {
            Some(CliCommand::ListProjects)
        } else if str_eq(line, "5") {
            Some(CliCommand::ListWeeks)
        } else if str_eq(line, "6") {
            Some(CliCommand::Exit)
        } else {
            None
        }
    }

    /// The name of the project to create: the line as the user typed it.
    pub fn get_project_name(&self, line: String) -> (r: Result<String, UserInteractionFailure>)
        ensures
            r == Ok::<String, UserInteractionFailure>(line),
    {
        Ok(line)
    }

    /// The description of the project to create: the line as typed.
    pub fn get_project_description(&self, line: String) -> (r: Result<
        String,
        UserInteractionFailure,
    >)
        ensures
            r == Ok::<String, UserInteractionFailure>(line),
    {
        Ok(line)
    }

    /// The project an entry is to be added to: the line as typed.
    pub fn get_entry_project(&self, line: String) -> (r: Result<String, UserInteractionFailure>)
        ensures
            r == Ok::<String, UserInteractionFailure>(line),
    {
        Ok(line)
    }

    /// The description of the entry to create: the line as typed.
    pub fn get_entry_description(&self, line: String) -> (r: Result<
        String,
        UserInteractionFailure,
    >)
        ensures
            r == Ok::<String, UserInteractionFailure>(line),
    {
        Ok(line)
    }

    /// The hours the entry is to log, read from the line; `None` asks the
    /// caller to prompt again.
    pub fn get_entry_hours(&self, line: &str) -> (r: Option<u32>)
        ensures
            r == parsed_u32(line@),
    {
        parse_u32(line)
    }

    /// Whether the starting time is to be set to now: yes, no, or (`None`)
    /// prompt again.
    pub fn get_day_starting_time(&self, line: &str) -> (r: Option<bool>)
        ensures
            (r == Some(true)) <==> line@ == "y"@,
            (r == Some(false)) <==> line@ == "n"@,
    {
        proof {
            reveal_strlit("y");
            reveal_strlit("n");
            assert("y"@[0] == 'y' && "n"@[0] == 'n');
        }
        if str_eq(line, "y") {
            Some(true)
        } else if str_eq(line, "n") {
            Some(false)
        } else {
            None
        }
    }

    /// Whether the ending time is to be set to now: yes, no, or (`None`)
    /// prompt again.
    pub fn get_day_ending_time(&self, line: &str) -> (r: Option<bool>)
        ensures
            (r == Some(true)) <==> line@ == "y"@,
            (r == Some(false)) <==> line@ == "n"@,
    {
        proof {
            reveal_strlit("y");
            reveal_strlit("n");
            assert("y"@[0] == 'y' && "n"@[0] == 'n');
        }
        if str_eq(line, "y") {
            Some(true)
        } else if str_eq(line, "n") {
            Some(false)
        } else {
            None
        }
    }

    /// The description of the day to create: the line as typed.
    pub fn get_day_description(&self, line: String) -> (r: Result<String, UserInteractionFailure>)
        ensures
            r == Ok::<String, UserInteractionFailure>(line),
    {
        Ok(line)
    }
}

} // verus!
