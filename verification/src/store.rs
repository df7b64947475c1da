//! Decisions around the statistics store.
//!
//! The store itself is the external database; the surrounding process
//! performs each operation and hands its outcome back to the step
//! functions here, which decide what happens next: which document to work
//! with, which report to record, and which error to answer with.

use vstd::prelude::*;

use crate::error::{internal_error, IError, INTERNAL_SERVER_ERROR};
use crate::report::{create_api_report, get_current_date, Report, ReportType};
use crate::stats::{get_or_create, zero_stats, Statistics};

verus! {

/// The collections the service uses.
#[derive(Debug, Clone, Copy, PartialEq, Eq, Structural)]
pub enum ValidCollections {
    Statistics,
    Reports,
}

/// The name under which each collection stands in the database.
pub fn collection_name(c: ValidCollections) -> (r: &'static str)
    ensures
        c is Statistics ==> r@ == "statistics"@,
        c is Reports ==> r@ == "reports"@,
{
    match c {
        ValidCollections::Statistics => "statistics",
        ValidCollections::Reports => "reports",
    }
}

/// The handler on whose behalf a store operation ran; reports carry its
/// name.
#[derive(Debug, Clone, Copy, PartialEq, Eq, Structural)]
pub enum Caller {
    GetGlobalStatistics,
    UpdateGlobalStatistics,
}

/// The name a report carries for each handler.
pub open spec fn spec_caller_name(c: Caller) -> Seq<char> {
    match c {
        Caller::GetGlobalStatistics => "get_global_statistics"@,
        Caller::UpdateGlobalStatistics => "update_global_statistics"@,
    }
}

/// The name of the handler, as it appears in a report's `caller` field.
pub fn caller_name(c: Caller) -> (r: &'static str)
    ensures
        r@ == spec_caller_name(c),
{
    match c {
        Caller::GetGlobalStatistics => "get_global_statistics",
        Caller::UpdateGlobalStatistics => "update_global_statistics",
    }
}

/// What the store reported back for a lookup of the singleton document.
#[derive(Debug, Clone)]
pub enum FindOutcome {
    /// The document exists and holds this value.
    Found(Statistics),
    /// The collection is empty.
    Missing,
    /// The lookup failed; the store's error text.
    Failed(String),
}

/// What the store reported back for a write.
#[derive(Debug, Clone)]
pub enum WriteOutcome {
    /// The write went through.
    Done,
    /// The write failed; the store's error text.
    Failed(String),
}

/// What a handler does next once the lookup's outcome is known.
#[derive(Debug, Clone)]
pub enum FindStep {
    /// A document was found: work with it.
    Use(Statistics),
    /// The collection is empty: insert this zero document, then go on.
    CreateDefault(Statistics),
    /// The lookup failed: record the report, answer with the error.
    Fail(Report, IError),
}

/// The description a report carries when the insert of the zero document
/// fails under each handler.
pub open spec fn spec_insert_failure_description(c: Caller) -> Seq<char> {
    match c {
        Caller::GetGlobalStatistics => "Error getting global stats on the server."@,
        Caller::UpdateGlobalStatistics => "Error creating global stats on the server."@,
    }
}

/// Decides the step after the lookup of the singleton document: use the
/// found document, create the zero document when none exists, or — when
/// the lookup failed — report the failure and answer with an
/// internal-error response carrying the failure's text.
pub fn find_step(outcome: FindOutcome, caller: Caller) -> (r: FindStep)
    ensures
        outcome matches FindOutcome::Found(doc) ==> r == FindStep::Use(doc),
        outcome is Missing ==> r == FindStep::CreateDefault(zero_stats()),
        outcome matches FindOutcome::Failed(m) ==> (r matches FindStep::Fail(rep, e)
            && rep.name == ReportType::Error && rep.description@
            == "Error getting global stats on the server."@ && rep.message == m && rep.caller@
            == spec_caller_name(caller) && e.status_code.0 == INTERNAL_SERVER_ERROR
            && e.error_message == m),
{
    match outcome {
        FindOutcome::Found(doc) => FindStep::Use(doc),
        FindOutcome::Missing => FindStep::CreateDefault(get_or_create(None)),
        FindOutcome::Failed(m) => {
            let report = create_api_report(
                ReportType::Error,
                "Error getting global stats on the server.".to_owned(),
                m.clone(),
                get_current_date(),
                caller_name(caller).to_owned(),
            );
            FindStep::Fail(report, internal_error(m))
        },
    }
}

/// Decides the step after the insert of the zero document: go on with that
/// document, or — when the insert failed — report the failure and answer
/// with an internal-error response carrying the failure's text.
pub fn insert_default_step(outcome: WriteOutcome, caller: Caller) -> (r: Result<
    Statistics,
    (Report, IError),
>)
    ensures
        outcome is Done ==> r == Ok::<Statistics, (Report, IError)>(zero_stats()),
        outcome matches WriteOutcome::Failed(m) ==> (r matches Err((rep, e))
            && rep.name == ReportType::Error && rep.description@
            == spec_insert_failure_description(caller) && rep.message == m && rep.caller@
            == spec_caller_name(caller) && e.status_code.0 == INTERNAL_SERVER_ERROR
            && e.error_message == m),
{
    match outcome {
        WriteOutcome::Done => Ok(get_or_create(None)),
        WriteOutcome::Failed(m) => {
            let description: &str = match caller {
                Caller::GetGlobalStatistics => "Error getting global stats on the server.",
                Caller::UpdateGlobalStatistics => "Error creating global stats on the server.",
            };
            let report = create_api_report(
                ReportType::Error,
                description.to_owned(),
                m.clone(),
                get_current_date(),
                caller_name(caller).to_owned(),
            );
            Err((report, internal_error(m)))
        },
    }
}

/// Decides the response after the atomic update of the counters: success,
/// or — when the write failed — a report and an internal-error response
/// carrying the failure's text.
pub fn update_step(outcome: WriteOutcome) -> (r: Result<(), (Report, IError)>)
    ensures
        outcome is Done ==> r is Ok,
        outcome matches WriteOutcome::Failed(m) ==> (r matches Err((rep, e))
            && rep.name == ReportType::Error && rep.description@
            == "Updating global stats on the server."@ && rep.message == m && rep.caller@
            == spec_caller_name(Caller::UpdateGlobalStatistics) && e.status_code.0
            == INTERNAL_SERVER_ERROR && e.error_message == m),
{
    match outcome {
        WriteOutcome::Done => Ok(()),
        WriteOutcome::Failed(m) => {
            let report = create_api_report(
                ReportType::Error,
                "Updating global stats on the server.".to_owned(),
                m.clone(),
                get_current_date(),
                caller_name(Caller::UpdateGlobalStatistics).to_owned(),
            );
            Err((report, internal_error(m)))
        },
    }
}

/// The error surfaced to the caller once the report write's outcome is
/// known: the original store failure always wins; a failed report write is
/// only logged and never replaces it.
pub fn surfaced_error(original: IError, report_written: &WriteOutcome) -> (r: IError)
    ensures
        r == original,
{
    match report_written {
        WriteOutcome::Done => original,
        WriteOutcome::Failed(_) => original,
    }
}

} // verus!
