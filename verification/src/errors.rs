//! The errors this crate produces, and the responses they stand for.

use vstd::prelude::*;

verus! {

/// Status of a request that lacks valid authorization.
pub const UNAUTHORIZED: u16 = 401;

/// Status of a request that the server cannot make sense of.
pub const BAD_REQUEST: u16 = 400;

/// How a status code prints: its number, a space, and its standard reason
/// phrase. The phrases are a table of the `http` crate and are not restated
/// here.
pub uninterp spec fn status_line(code: u16) -> Seq<char>;

/// Whether `code` is a number that `http::StatusCode` accepts.
pub open spec fn is_status_code(code: u16) -> bool {
    100 <= code < 1000
}

/// Formats a status code with `<http::StatusCode as Display>::fmt`, reached
/// through `to_string`. Trusted: the text is the one that crate prints for
/// `code`; nothing about its contents is claimed.
#[verifier::external_body]
fn render_status(code: u16) -> (line: String)
    requires
        is_status_code(code),
    ensures
        line@ == status_line(code),
{
    match actix_web::http::StatusCode::from_u16(code) {
        Ok(status) => status.to_string(),
        Err(_) => String::new(),
    }
}

/// A response reduced to what this crate decides of it: the status and the
/// text of the body.
#[derive(Debug, PartialEq, Eq)]
pub struct ErrorResponse {
    pub status: u16,
    pub body: String,
}

/// The rejection a decision function can answer with when it has nothing more
/// specific to say: "unauthorized".
#[derive(Debug)]
pub struct AuthorizationError {
    status_code: u16,
    message: String,
}

impl AuthorizationError {
    #[verifier::type_invariant]
    spec fn well_formed(self) -> bool {
        is_status_code(self.status_code)
    }

    /// The status this error answers with.
    pub closed spec fn code(&self) -> u16 {
        self.status_code
    }

    /// The message this error carries.
    pub closed spec fn text(&self) -> Seq<char> {
        self.message@
    }

    /// The error: status 401, message "sup".
    pub fn new() -> (e: AuthorizationError)
        ensures
            e.code() == UNAUTHORIZED,
            e.text() == "sup"@,
    {
        AuthorizationError { status_code: UNAUTHORIZED, message: "sup".to_owned() }
    }

    /// The status this error answers with, always a valid status code.
    pub fn status_code(&self) -> (code: u16)
        ensures
            code == self.code(),
            is_status_code(code),
    {
        proof {
            use_type_invariant(self);
        }
        self.status_code
    }

    /// The message this error carries. It is not sent to the client.
    pub fn message(&self) -> (text: &str)
        ensures
            text@ == self.text(),
    {
        self.message.as_str()
    }

    /// The response for this error: its status, and no body.
    pub fn error_response(&self) -> (response: ErrorResponse)
        ensures
            response.status == self.code(),
            response.body@ == Seq::<char>::empty(),
    {
        ErrorResponse { status: self.status_code, body: String::new() }
    }

    /// The error as text: its status line. The message is not part of it.
    pub fn to_text(&self) -> (line: String)
        ensures
            line@ == status_line(self.code()),
    {
        proof {
            use_type_invariant(self);
        }
        render_status(self.status_code)
    }
}

/// No oracle could be found for a request: the middleware was built without
/// one and none was attached to the pipeline.
#[derive(Clone, Copy, Debug, PartialEq, Eq, Structural)]
pub struct OracleUnavailableError;

impl OracleUnavailableError {
    /// The status of the refusal: the middleware's rejections are all
    /// "unauthorized".
    pub fn status_code(&self) -> (code: u16)
        ensures
            code == UNAUTHORIZED,
    {
        UNAUTHORIZED
    }

    /// What the refusal tells the client.
    pub fn message(&self) -> (text: &'static str)
        ensures
            text@ == "oracle unavailable"@,
    {
        "oracle unavailable"
    }

    /// The response for this error: its status, and its message as the body.
    pub fn error_response(&self) -> (response: ErrorResponse)
        ensures
            response.status == UNAUTHORIZED,
            response.body@ == "oracle unavailable"@,
    {
        ErrorResponse { status: UNAUTHORIZED, body: "oracle unavailable".to_owned() }
    }
}

/// Why a handler could not obtain the oracle.
#[derive(Clone, Copy, Debug, PartialEq, Eq, Structural)]
pub enum ExtractionError {
    /// Nothing was published for this request: no middleware ran ahead of the
    /// handler, or it found no oracle.
    Missing,
}

impl ExtractionError {
    /// The status of the failure: a handler that asks for an oracle where
    /// none was published sits on a misconfigured route, a "bad request".
    pub fn status_code(&self) -> (code: u16)
        ensures
            code == BAD_REQUEST,
    {
        BAD_REQUEST
    }

    /// What the failure tells the client.
    pub fn message(&self) -> (text: &'static str)
        ensures
            text@ == "No Oso could be extracted"@,
    {
        "No Oso could be extracted"
    }

    /// The response for this error: its status, and its message as the body.
    pub fn error_response(&self) -> (response: ErrorResponse)
        ensures
            response.status == BAD_REQUEST,
            response.body@ == "No Oso could be extracted"@,
    {
        ErrorResponse { status: BAD_REQUEST, body: "No Oso could be extracted".to_owned() }
    }
}

/// Why the middleware answered a request itself.
pub enum Rejection<E> {
    /// The decision function declined; its error is kept as it came.
    Declined(E),
    /// No oracle could be resolved, so the decision function was not asked.
    Unavailable(OracleUnavailableError),
}

} // verus!
