//! The HTTP status of a GraphQL response, decided from how the query went.
use vstd::prelude::*;

verus! {

/// Why a query produced no result.
#[derive(Debug, PartialEq, Eq, Structural, Clone, Copy)]
pub enum ServerErrorKind {
    /// The request was malformed.
    Client,
    /// The query could not be parsed or validated.
    Query,
    /// The query was canceled before it finished.
    Canceled,
    /// The server failed.
    Internal,
}

/// How a query went: it produced data, with or without errors beside it, or
/// it failed.
#[derive(Debug, PartialEq, Eq, Structural, Clone, Copy)]
pub enum ResponseOutcome {
    Data { has_errors: bool },
    Failed(ServerErrorKind),
}

pub const OK: u16 = 200;
pub const BAD_REQUEST: u16 = 400;
pub const INTERNAL_SERVER_ERROR: u16 = 500;

pub open spec fn status_code_spec(outcome: ResponseOutcome) -> u16 {
    match outcome {
        ResponseOutcome::Data { has_errors } => if has_errors { BAD_REQUEST } else { OK },
        ResponseOutcome::Failed(ServerErrorKind::Client) => BAD_REQUEST,
        ResponseOutcome::Failed(ServerErrorKind::Query) => BAD_REQUEST,
        ResponseOutcome::Failed(_) => INTERNAL_SERVER_ERROR,
    }
}

/// The HTTP status for a response: 200 for data without errors, 400 for data
/// with errors and for client or query errors, 500 for anything else.
pub fn status_code_from_result(outcome: &ResponseOutcome) -> (r: u16)
    ensures
        r == status_code_spec(*outcome),
{
    match outcome {
        ResponseOutcome::Data { has_errors } => if *has_errors { BAD_REQUEST } else { OK },
        ResponseOutcome::Failed(ServerErrorKind::Client) | ResponseOutcome::Failed(ServerErrorKind::Query) =>
            BAD_REQUEST,
        ResponseOutcome::Failed(_) => INTERNAL_SERVER_ERROR,
    }
}

} // verus!
