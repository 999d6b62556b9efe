//! Report formats and the column containers used by report rendering.

use vstd::prelude::*;

use crate::strutil::{eq_ignore_ascii_case_seq, str_eq_ignore_ascii_case};

verus! {

/// The closed set of report output formats.
#[derive(Clone, Copy, PartialEq, Eq, Structural, Debug)]
pub enum ReportFormat {
    Json,
    Csv,
    Yaml,
    Html,
    Pdf,
    Text,
}

/// Rejection of a string naming no report format.
#[derive(Clone, Copy, PartialEq, Eq, Structural, Debug)]
pub struct ParseReportFormatError;

/// Failure to generate a report.
#[derive(Clone, Copy, PartialEq, Eq, Structural, Debug)]
pub struct ReportGenerationFailure;

impl ReportFormat {
    /// Read a format name, ignoring ASCII case; anything but the six known
    /// names is rejected.
    pub fn from_str(input: &str) -> (r: Result<ReportFormat, ParseReportFormatError>)
        ensures
            (r matches Ok(f) && f == ReportFormat::Json) <==> eq_ignore_ascii_case_seq(
                input@,
                "json"@,
            ),
            (r matches Ok(f) && f == ReportFormat::Csv) <==> eq_ignore_ascii_case_seq(
                input@,
                "csv"@,
            ),
            (r matches Ok(f) && f == ReportFormat::Yaml) <==> eq_ignore_ascii_case_seq(
                input@,
                "yaml"@,
            ),
            (r matches Ok(f) && f == ReportFormat::Html) <==> eq_ignore_ascii_case_seq(
                input@,
                "html"@,
            ),
            (r matches Ok(f) && f == ReportFormat::Pdf) <==> eq_ignore_ascii_case_seq(
                input@,
                "pdf"@,
            ),
            (r matches Ok(f) && f == ReportFormat::Text) <==> eq_ignore_ascii_case_seq(
                input@,
                "text"@,
            ),
    {
        proof {
            reveal_strlit("json");
            reveal_strlit("csv");
            reveal_strlit("yaml");
            reveal_strlit("html");
            reveal_strlit("pdf");
            reveal_strlit("text");
            assert("json"@.len() == 4 && "json"@[0] == 'j');
            assert("csv"@.len() == 3 && "csv"@[0] == 'c');
            assert("yaml"@.len() == 4 && "yaml"@[0] == 'y');
            assert("html"@.len() == 4 && "html"@[0] == 'h');
            assert("pdf"@.len() == 3 && "pdf"@[0] == 'p');
            assert("text"@.len() == 4 && "text"@[0] == 't');
        }
        if str_eq_ignore_ascii_case(input, "json") {
            Ok(ReportFormat::Json)
        } else if str_eq_ignore_ascii_case(input, "csv") {
            Ok(ReportFormat::Csv)
        } else if str_eq_ignore_ascii_case(input, "yaml") {
            Ok(ReportFormat::Yaml)
        } else if str_eq_ignore_ascii_case(input, "html") {
            Ok(ReportFormat::Html)
        } else if str_eq_ignore_ascii_case(input, "pdf") {
            Ok(ReportFormat::Pdf)
        } else if str_eq_ignore_ascii_case(input, "text") {
            Ok(ReportFormat::Text)
        } else {
            Err(ParseReportFormatError)
        }
    }
}

/// Column headings of a project report.
#[derive(Debug)]
pub struct ProjectReportColumns {
    pub first: String,
    pub second: String,
    pub third: String,
    pub fourth: String,
}

/// Column headings of a week report.
#[derive(Debug)]
pub struct WeekReportColumns {
    pub first: String,
    pub second: String,
    pub third: String,
    pub fourth: String,
    pub fifth: String,
    pub sixth: String,
    pub seventh: String,
}

/// Column headings of a month report.
#[derive(Debug)]
pub struct MonthReportColumns {
    pub first: String,
    pub second: String,
    pub third: String,
    pub fourth: String,
    pub fifth: String,
    pub sixth: String,
    pub seventh: String,
    pub eighth: String,
}

} // verus!
