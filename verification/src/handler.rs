//! The two decisions that handling a request comes to: which object to ask
//! the store for, and what to answer once the store has replied. The fetch
//! between them belongs to the caller.

use crate::resolve::{host_view, resolution, resolve};
use crate::response::{respond, response_for, FetchOutcome, ObjectResult, OutgoingResponse, ResponseParts};
use vstd::prelude::*;
use vstd::string::*;

verus! {

/// A request as plain sequences.
pub struct RequestParts {
    pub host_header: Option<Seq<char>>,
    pub raw_path: Seq<char>,
}

/// What the gateway reads of a request: the host header, where the request
/// has one, and the path as it came, percent-encoded.
#[derive(Clone, Debug, PartialEq, Eq)]
pub struct IncomingRequest {
    pub host_header: Option<String>,
    pub raw_path: String,
}

impl View for IncomingRequest {
    type V = RequestParts;

    open spec fn view(&self) -> RequestParts {
        RequestParts {
            host_header: match self.host_header {
                Some(name) => Some(name@),
                None => None,
            },
            raw_path: self.raw_path@,
        }
    }
}

/// The one read that a request asks of the object store.
#[derive(Clone, Debug, PartialEq, Eq)]
pub struct FetchOrder {
    pub bucket: String,
    pub key: String,
}

/// The end of a request: the response to send and, where the fetch failed,
/// the line to leave for the operators.
#[derive(Clone, Debug, PartialEq, Eq)]
pub struct Handled {
    pub response: OutgoingResponse,
    pub diagnostic: Option<String>,
}

/// What stands before the cause in a diagnostic line.
pub open spec fn diagnostic_prefix() -> Seq<char> {
    "Error fetching from S3: "@
}

/// The diagnostic line that a fetch outcome calls for: none for an object,
/// the cause behind the prefix for a failure.
pub open spec fn diagnostic_for(outcome: FetchOutcome) -> Option<Seq<char>> {
    match outcome {
        FetchOutcome::Found { bytes, content_type } => None,
        FetchOutcome::Failed { cause } => Some(diagnostic_prefix() + cause),
    }
}

/// The key of the object that answers `request`, in `bucket`.
pub fn plan_fetch(request: &IncomingRequest, bucket: &str) -> (order: FetchOrder)
    ensures
        order.bucket@ == bucket@,
        order.key@ == resolution(request@.host_header, request@.raw_path).key(),
{
    let host: Option<&str> = match &request.host_header {
        Some(name) => Some(name.as_str()),
        None => None,
    };
    assert(host_view(host) == request@.host_header);
    let resolved = resolve(host, request.raw_path.as_str());
    FetchOrder { bucket: String::from_str(bucket), key: resolved.key() }
}

/// The response to the request whose fetch came to `result`, with the
/// diagnostic line of a failure. Every outcome is answered.
pub fn conclude(result: ObjectResult) -> (handled: Handled)
    ensures
        handled.response@ == response_for(result@),
        match handled.diagnostic {
            Some(line) => diagnostic_for(result@) == Some(line@),
            None => diagnostic_for(result@) is None,
        },
{
    let diagnostic = match &result {
        ObjectResult::Found { bytes, content_type } => None,
        ObjectResult::Failed { cause } => Some(
            String::from_str("Error fetching from S3: ").concat(cause.as_str()),
        ),
    };
    Handled { response: respond(result), diagnostic }
}

} // verus!
