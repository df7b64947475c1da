//! Diagnostic reports: appended to their collection whenever a store
//! operation fails, never read back by the service.

use vstd::prelude::*;

verus! {

/// The different kinds of report that can be recorded on the server.
#[derive(Debug, Clone, Copy, PartialEq, Eq, Structural)]
pub enum ReportType {
    Bug,
    Error,
    Other,
}

/// A report recorded on the server to help with debugging and tracking
/// issues.
#[derive(Debug, Clone)]
pub struct Report {
    /// The kind of the report.
    pub name: ReportType,
    /// The general quick description of the report.
    pub description: String,
    /// The full detail, typically an underlying error's text.
    pub message: String,
    /// The date the report was created.
    pub date: String,
    /// The name of the operation that created the report.
    pub caller: String,
}

/// Relies on chrono's `Local::now` and `DateTime::format`: the local date
/// and time, rendered as `YYYY-MM-DD hh:mm:ss`. The result depends on the
/// clock, so nothing is promised of it.
#[verifier::external_body]
pub fn get_current_date() -> String {
    let now = chrono::Local::now();
    now.format("%Y-%m-%d %H:%M:%S").to_string()
}

/// Builds the report to record for a failure; the surrounding process
/// appends it to the reports collection.
pub fn create_api_report(
    name: ReportType,
    description: String,
    message: String,
    date: String,
    caller: String,
) -> (r: Report)
    ensures
        r.name == name,
        r.description == description,
        r.message == message,
        r.date == date,
        r.caller == caller,
{
    Report { name, description, message, date, caller }
}

} // verus!
