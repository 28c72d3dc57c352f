//! Classification of the single request/response cycle.
//!
//! The socket work itself happens outside the library; what it reported
//! is handed in as a value, and the decisions — which status succeeds,
//! which failure each outcome becomes — are made and proved here.

use vstd::prelude::*;
use crate::errors::SwellDataError;
use crate::swell::parse_outcome;
use crate::swell::SwellData;

verus! {

/// What the transport reported for the single GET.
pub enum CallResult {
    /// A response arrived with this status; `cause` is the transport's
    /// description of the outcome, carried along where the status fails
    /// the fetch.
    Delivered { status: u16, cause: String },
    /// The request itself failed: DNS, connection, TLS and the like.
    TransportFailed { cause: String },
}

/// The decision taken after the call, before any body is read.
pub enum NextStep {
    /// Success status: read the body and parse it.
    ReadBody,
    /// Terminal failure, already classified.
    Fail(SwellDataError),
}

/// Classifies the outcome of the call: a 2xx response proceeds to the
/// body, 404 is the station-not-found signal, every other status and
/// every transport failure is a transport error.
pub fn on_call_result(c: CallResult) -> (n: NextStep)
    ensures
        match c {
            CallResult::Delivered { status, cause } => {
                if 200 <= status && status < 300 {
                    n == NextStep::ReadBody
                } else if status == 404 {
                    n == NextStep::Fail(SwellDataError::StationNotFound)
                } else {
                    n == NextStep::Fail(SwellDataError::TransportError(cause))
                }
            },
            CallResult::TransportFailed { cause } => n == NextStep::Fail(
                SwellDataError::TransportError(cause),
            ),
        },
{
    match c {
        CallResult::Delivered { status, cause } => {
            if 200 <= status && status < 300 {
                NextStep::ReadBody
            } else if status == 404 {
                NextStep::Fail(SwellDataError::StationNotFound)
            } else {
                NextStep::Fail(SwellDataError::TransportError(cause))
            }
        },
        CallResult::TransportFailed { cause } => {
            NextStep::Fail(SwellDataError::TransportError(cause))
        },
    }
}

/// Finishes the fetch once a success status was seen: a body that could
/// not be read is an I/O failure; one that could is parsed, and the
/// parser's verdict is passed through verbatim.
pub fn on_body(body: Option<String>) -> (r: Result<SwellData, SwellDataError>)
    ensures
        body is None ==> r == Err::<SwellData, SwellDataError>(SwellDataError::IoError),
        body matches Some(t) ==> match parse_outcome(t@) {
            Ok(v) => r matches Ok(rec) && rec@ == v && rec.well_formed(),
            Err(e) => r == Err::<SwellData, SwellDataError>(e),
        },
{
    match body {
        None => Err(SwellDataError::IoError),
        Some(t) => SwellData::from_json(t.as_str()),
    }
}

} // verus!
