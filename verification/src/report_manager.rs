//! Report bookkeeping: where reports go and which file suffix each format
//! gets. Rendering and writing the files is the caller's concern.

use vstd::prelude::*;

use crate::report::{ParseReportFormatError, ReportFormat};

verus! {

/// Names the directory reports are written to and the common stem of their
/// file names.
pub struct ReportManager {
    /// Directory that report files are placed in.
    pub default_report_dir: String,
    /// Common stem of generated report file names.
    pub default_report_file_name: String,
}

impl ReportManager {
    /// Create a manager for the given report directory and file name stem;
    /// the caller derives both from its environment.
    pub fn new(default_report_dir: String, default_report_file_name: String) -> (r: ReportManager)
        ensures
            r.default_report_dir == default_report_dir,
            r.default_report_file_name == default_report_file_name,
    {
        ReportManager { default_report_dir, default_report_file_name }
    }

    /// The file name suffix for a report format.
    pub fn get_report_suffix(&self, format: ReportFormat) -> (r: Result<
        String,
        ParseReportFormatError,
    >)
        ensures
            r is Ok,
            (format == ReportFormat::Json ==> (r matches Ok(s) && s@ == "json"@)),
            (format == ReportFormat::Csv ==> (r matches Ok(s) && s@ == "csv"@)),
            (format == ReportFormat::Yaml ==> (r matches Ok(s) && s@ == "yaml"@)),
            (format == ReportFormat::Html ==> (r matches Ok(s) && s@ == "html"@)),
            (format == ReportFormat::Pdf ==> (r matches Ok(s) && s@ == "pdf"@)),
            (format == ReportFormat::Text ==> (r matches Ok(s) && s@ == "txt"@)),
    {
        match format {
            ReportFormat::Json => Ok("json".to_owned()),
            ReportFormat::Csv => Ok("csv".to_owned()),
            ReportFormat::Yaml => Ok("yaml".to_owned()),
            ReportFormat::Html => Ok("html".to_owned()),
            ReportFormat::Pdf => Ok("pdf".to_owned()),
            ReportFormat::Text => Ok("txt".to_owned()),
        }
    }
}

} // verus!
