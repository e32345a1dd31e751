//! From what the object store returned to the response that goes out.

use vstd::prelude::*;
use vstd::string::*;
use vstd::utf8::*;

verus! {

/// The status of a response that carries an object.
pub const STATUS_OK: u16 = 200;

/// The status of a response to a request whose object could not be fetched.
pub const STATUS_NOT_FOUND: u16 = 404;

/// What a fetch came to, as plain sequences.
pub enum FetchOutcome {
    Found { bytes: Seq<u8>, content_type: Option<Seq<char>> },
    Failed { cause: Seq<char> },
}

/// What a fetch from the object store came to: the object, or the cause of
/// the failure. A missing object and a failing store are not told apart.
#[derive(Clone, Debug, PartialEq, Eq)]
pub enum ObjectResult {
    Found { bytes: Vec<u8>, content_type: Option<String> },
    Failed { cause: String },
}

impl View for ObjectResult {
    type V = FetchOutcome;

    open spec fn view(&self) -> FetchOutcome {
        match self {
            ObjectResult::Found { bytes, content_type } => FetchOutcome::Found {
                bytes: bytes@,
                content_type: match content_type {
                    Some(value) => Some(value@),
                    None => None,
                },
            },
            ObjectResult::Failed { cause } => FetchOutcome::Failed { cause: cause@ },
        }
    }
}

/// A response as plain values.
pub struct ResponseParts {
    pub status_code: u16,
    pub headers: Seq<(Seq<char>, Seq<char>)>,
    pub body: Seq<u8>,
}

/// The response that answers one request.
#[derive(Clone, Debug, PartialEq, Eq)]
pub struct OutgoingResponse {
    pub status_code: u16,
    pub headers: Vec<(String, String)>,
    pub body: Vec<u8>,
}

impl View for OutgoingResponse {
    type V = ResponseParts;

    open spec fn view(&self) -> ResponseParts {
        ResponseParts {
            status_code: self.status_code,
            headers: Seq::new(
                self.headers@.len(),
                |i: int| (self.headers@[i].0@, self.headers@[i].1@),
            ),
            body: self.body@,
        }
    }
}

/// The name of the header that carries an object's media type.
pub open spec fn content_type_header() -> Seq<char> {
    "content-type"@
}

/// The body of a not-found response: the bytes of `Not Found`.
pub open spec fn not_found_body() -> Seq<u8> {
    seq![0x4e, 0x6f, 0x74, 0x20, 0x46, 0x6f, 0x75, 0x6e, 0x64]
}

/// The response that carries an object: the object's bytes under the status
/// for success, with the media type in a header that is present even where
/// the store gave none.
pub open spec fn found_response(bytes: Seq<u8>, content_type: Option<Seq<char>>) -> ResponseParts {
    ResponseParts {
        status_code: STATUS_OK,
        headers: seq![
            (
                content_type_header(),
                match content_type {
                    Some(value) => value,
                    None => Seq::empty(),
                },
            ),
        ],
        body: bytes,
    }
}

/// The response to a request whose object could not be fetched.
pub open spec fn not_found_response() -> ResponseParts {
    ResponseParts { status_code: STATUS_NOT_FOUND, headers: Seq::empty(), body: not_found_body() }
}

/// The response that a fetch outcome calls for.
pub open spec fn response_for(outcome: FetchOutcome) -> ResponseParts {
    match outcome {
        FetchOutcome::Found { bytes, content_type } => found_response(bytes, content_type),
        FetchOutcome::Failed { cause } => not_found_response(),
    }
}

impl OutgoingResponse {
    /// The response that carries an object.
    pub fn found(bytes: Vec<u8>, content_type: Option<String>) -> (response: OutgoingResponse)
        ensures
            response@ == found_response(
                bytes@,
                match content_type {
                    Some(value) => Some(value@),
                    None => None,
                },
            ),
    {
        let value = match content_type {
            Some(value) => value,
            None => String::new(),
        };
        let mut headers: Vec<(String, String)> = Vec::new();
        headers.push((String::from_str("content-type"), value));
        let response = OutgoingResponse { status_code: STATUS_OK, headers, body: bytes };
        assert(response@.headers =~= seq![(content_type_header(), value@)]);
        response
    }

    /// The response to a request whose object could not be fetched.
    pub fn not_found() -> (response: OutgoingResponse)
        ensures
            response@ == not_found_response(),
    {
        let text = "Not Found";
        let body = text.as_bytes_vec();
        proof {
            reveal_strlit("Not Found");
            is_ascii_chars_encode_utf8(text@);
            assert(body@ =~= not_found_body());
        }
        let response = OutgoingResponse {
            status_code: STATUS_NOT_FOUND,
            headers: Vec::new(),
            body,
        };
        assert(response@.headers =~= Seq::empty());
        response
    }
}

/// Turns what the object store returned into the response. Total: every
/// outcome has a response, and no outcome has a status other than these two.
pub fn respond(result: ObjectResult) -> (response: OutgoingResponse)
    ensures
        response@ == response_for(result@),
        result@ is Found ==> response@.status_code == STATUS_OK && response@.body
            == result@->bytes && response@.headers.len() == 1 && response@.headers[0].0
            == content_type_header() && response@.headers[0].1 == match result@->content_type {
            Some(value) => value,
            None => Seq::empty(),
        },
        result@ is Failed ==> response@.status_code == STATUS_NOT_FOUND && response@.body.len()
            > 0,
{
    match result {
        ObjectResult::Found { bytes, content_type } => OutgoingResponse::found(bytes, content_type),
        ObjectResult::Failed { cause } => OutgoingResponse::not_found(),
    }
}

} // verus!
