//! The closed failure taxonomy surfaced to callers.

use vstd::prelude::*;

verus! {

/// Every failure of the fetch-and-parse pipeline, classified at the
/// boundary where it arises. There is no catch-all variant: each path
/// is forced into one of these.
#[derive(Debug, PartialEq, Eq)]
pub enum SwellDataError {
    /// The requested station identifier does not exist upstream (HTTP 404).
    StationNotFound,
    /// Network-level failure or a non-2xx, non-404 status; carries the
    /// transport's description of the cause.
    TransportError(String),
    /// The response body could not be read after headers were received.
    IoError,
    /// The response was not valid JSON or lacked a required string field.
    MalformedPayload,
    /// The five date fragments did not compose into a valid date and time.
    InvalidTimestamp,
}

} // verus!
