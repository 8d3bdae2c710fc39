//! Export orchestration outcomes: what one transport call came to, and how
//! it maps to the process exit status.

use vstd::prelude::*;

verus! {

/// Partial-success detail reported by the collector: how many submitted
/// items it rejected, and its message about them.
#[derive(Debug, Clone)]
pub struct ExportPartialSuccess {
    pub rejected: i64,
    pub error_message: String,
}

/// The collector's reply to one export request, reduced to what the
/// orchestrator inspects: the optional partial-success detail.
#[derive(Debug, Clone)]
pub struct ExportResponse {
    pub partial_success: Option<ExportPartialSuccess>,
}

/// Classification of one transport call.
#[derive(Debug)]
pub enum ExportOutcome {
    /// The collector accepted the whole request.
    Success,
    /// The collector accepted the request but reported rejected items.
    PartialSuccess(ExportPartialSuccess),
    /// The call failed: connection dropped, request rejected, or a
    /// protocol-level error.
    Failure(String),
}

/// Classifies a transport result: an error is a failure, a reply carrying
/// partial-success detail is a partial success, any other reply is a
/// success.
pub fn classify_response(r: Result<ExportResponse, String>) -> (o: ExportOutcome)
    ensures
        match r {
            Err(msg) => o == ExportOutcome::Failure(msg),
            Ok(resp) => match resp.partial_success {
                Some(ps) => o == ExportOutcome::PartialSuccess(ps),
                None => o == ExportOutcome::Success,
            },
        },
{
    match r {
        Err(msg) => ExportOutcome::Failure(msg),
        Ok(resp) => match resp.partial_success {
            Some(ps) => ExportOutcome::PartialSuccess(ps),
            None => ExportOutcome::Success,
        },
    }
}

/// Only a failure is an error; a partial success is reported, not treated
/// as failure.
pub fn outcome_is_error(o: &ExportOutcome) -> (r: bool)
    ensures
        r <==> (o is Failure),
{
    match o {
        ExportOutcome::Failure(_) => true,
        _ => false,
    }
}

/// The process exit status of an outcome: 0 unless the call failed, 1 on
/// failure.
pub fn exit_code(o: &ExportOutcome) -> (r: i32)
    ensures
        r == 0 <==> !(o is Failure),
        o is Failure ==> r == 1,
{
    match o {
        ExportOutcome::Failure(_) => 1,
        _ => 0,
    }
}

} // verus!
