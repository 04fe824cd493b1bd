//! The errors that the service reports, with the text and the HTTP status
//! each one is answered with.
use vstd::prelude::*;

verus! {

/// Every error that the service can report.
#[derive(Debug, Clone, PartialEq, Eq)]
pub enum Error {
    /// No link has the given ID.
    LinkNotFound(String),
    /// A caller-supplied ID is already taken.
    LinkIdNotUnique(String),
    /// A caller-supplied ID fails validation.
    LinkIdNotValid(String),
    /// The target URL could not be parsed.
    MalformedURL(String),
    /// The target URL has no host.
    URLWithoutHost(String),
    /// The target URL's host loops back into this service.
    URLWithMatchingHosts(String),
    /// No route matches the request.
    RouteNotFound,
    /// The request could not be read.
    InvalidRequest(String),
    /// An unexpected condition; its detail is never shown to clients.
    Internal(String),
}

/// The kind of an error, without its detail.
#[derive(Debug, Clone, Copy, PartialEq, Eq, Structural)]
pub enum ErrorKind {
    LinkNotFound,
    LinkIdNotUnique,
    LinkIdNotValid,
    MalformedURL,
    URLWithoutHost,
    URLWithMatchingHosts,
    RouteNotFound,
    InvalidRequest,
    Internal,
}

impl Error {
    /// An error as its kind and its detail text.
    pub open spec fn view(&self) -> (ErrorKind, Seq<char>) {
        match *self {
            Error::LinkNotFound(s) => (ErrorKind::LinkNotFound, s@),
            Error::LinkIdNotUnique(s) => (ErrorKind::LinkIdNotUnique, s@),
            Error::LinkIdNotValid(s) => (ErrorKind::LinkIdNotValid, s@),
            Error::MalformedURL(s) => (ErrorKind::MalformedURL, s@),
            Error::URLWithoutHost(s) => (ErrorKind::URLWithoutHost, s@),
            Error::URLWithMatchingHosts(s) => (ErrorKind::URLWithMatchingHosts, s@),
            Error::RouteNotFound => (ErrorKind::RouteNotFound, Seq::empty()),
            Error::InvalidRequest(s) => (ErrorKind::InvalidRequest, s@),
            Error::Internal(s) => (ErrorKind::Internal, s@),
        }
    }
}

/// The text that a client sees for an error.
pub open spec fn error_message(e: Error) -> Seq<char> {
    match e {
        Error::LinkNotFound(id) => "A link with the provided ID '"@ + id@ + "' could not be found"@,
        Error::LinkIdNotUnique(id) => "The provided custom link ID is already in use: "@ + id@,
        Error::LinkIdNotValid(id) => "The provided custom link ID is not valid: "@ + id@,
        Error::MalformedURL(m) => "Malformed URL: "@ + m@,
        Error::URLWithoutHost(u) => "Only URLs with valid hosts are accepted: "@ + u@,
        Error::URLWithMatchingHosts(h) => "URLs with the same host as this service are forbidden: "@
            + h@,
        Error::RouteNotFound => "Route not found"@,
        Error::InvalidRequest(m) => "Invalid request: "@ + m@,
        Error::Internal(_) => "Something went wrong"@,
    }
}

/// The HTTP status with which an error is answered.
pub open spec fn error_status(e: Error) -> u16 {
    match e {
        Error::LinkNotFound(_) => 404,
        Error::LinkIdNotUnique(_) => 422,
        Error::LinkIdNotValid(_) => 422,
        Error::MalformedURL(_) => 422,
        Error::URLWithoutHost(_) => 422,
        Error::URLWithMatchingHosts(_) => 422,
        Error::RouteNotFound => 404,
        Error::InvalidRequest(_) => 400,
        Error::Internal(_) => 500,
    }
}

fn prefixed(prefix: &str, detail: &String) -> (r: String)
    ensures
        r@ == prefix@ + detail@,
{
    let mut r = String::from_str(prefix);
    r.append(detail.as_str());
    r
}

impl Error {
    /// The text that a client sees for this error.
    pub fn message(&self) -> (r: String)
        ensures
            r@ == error_message(*self),
    {
        match self {
            Error::LinkNotFound(id) => {
                let mut r = prefixed("A link with the provided ID '", id);
                r.append("' could not be found");
                r
            },
            Error::LinkIdNotUnique(id) => prefixed(
                "The provided custom link ID is already in use: ",
                id,
            ),
            Error::LinkIdNotValid(id) => prefixed("The provided custom link ID is not valid: ", id),
            Error::MalformedURL(m) => prefixed("Malformed URL: ", m),
            Error::URLWithoutHost(u) => prefixed("Only URLs with valid hosts are accepted: ", u),
            Error::URLWithMatchingHosts(h) => prefixed(
                "URLs with the same host as this service are forbidden: ",
                h,
            ),
            Error::RouteNotFound => String::from_str("Route not found"),
            Error::InvalidRequest(m) => prefixed("Invalid request: ", m),
            Error::Internal(_) => String::from_str("Something went wrong"),
        }
    }

    /// The HTTP status with which this error is answered.
    pub fn status_code(&self) -> (r: u16)
        ensures
            r == error_status(*self),
    {
        match self {
            Error::LinkNotFound(_) => 404,
            Error::LinkIdNotUnique(_) => 422,
            Error::LinkIdNotValid(_) => 422,
            Error::MalformedURL(_) => 422,
            Error::URLWithoutHost(_) => 422,
            Error::URLWithMatchingHosts(_) => 422,
            Error::RouteNotFound => 404,
            Error::InvalidRequest(_) => 400,
            Error::Internal(_) => 500,
        }
    }
}

/// The body of every failure response: a single message.
#[derive(Debug, Clone, PartialEq, Eq)]
pub struct ErrorResponse {
    pub message: String,
}

impl ErrorResponse {
    pub fn new(message: String) -> (r: Self)
        ensures
            r.message == message,
    {
        ErrorResponse { message }
    }
}

impl From<Error> for ErrorResponse {
    fn from(e: Error) -> (r: Self)
        ensures
            r.message@ == error_message(e),
    {
        ErrorResponse::new(e.message())
    }
}

impl vstd::std_specs::convert::FromSpecImpl<Error> for ErrorResponse {
    open spec fn obeys_from_spec() -> bool {
        false
    }

    open spec fn from_spec(e: Error) -> ErrorResponse {
        arbitrary()
    }
}

} // verus!
