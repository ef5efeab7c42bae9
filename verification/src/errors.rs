//! The failure taxonomy of the gateway.

use vstd::prelude::*;
use vstd::std_specs::convert::FromSpecImpl;
use vstd::string::StringExecFns;

verus! {

#[verifier::external_type_specification]
#[verifier::external_body]
pub struct ExAnyhowError(anyhow::Error);

/// The text that an `anyhow::Error` displays.
pub uninterp spec fn anyhow_text(e: anyhow::Error) -> String;

/// `anyhow::Error`'s `Display`, through `to_string`: the result is the text
/// that the error displays, which depends on the error alone.
#[verifier::external_body]
fn failure_text(e: &anyhow::Error) -> (text: String)
    ensures
        text == anyhow_text(*e),
{
    e.to_string()
}

/// A tool-level failure.
#[derive(Debug)]
pub enum ApiError {
    /// The request is malformed or names something that cannot be used.
    BadRequest(String),
    /// The request asks for something the sandbox does not permit.
    Forbidden(String),
    /// Anything else; holds the message of the underlying failure.
    Other(String),
}

/// What a failure holds: its class and its detail.
pub enum Failure {
    BadRequest(Seq<char>),
    Forbidden(Seq<char>),
    Other(Seq<char>),
}

impl View for ApiError {
    type V = Failure;

    open spec fn view(&self) -> Failure {
        match self {
            ApiError::BadRequest(m) => Failure::BadRequest(m@),
            ApiError::Forbidden(m) => Failure::Forbidden(m@),
            ApiError::Other(m) => Failure::Other(m@),
        }
    }
}

impl Failure {
    /// The text the failure is reported with.
    pub open spec fn message(self) -> Seq<char> {
        match self {
            Failure::BadRequest(m) => "bad_request: "@ + m,
            Failure::Forbidden(m) => "forbidden: "@ + m,
            Failure::Other(m) => m,
        }
    }
}

impl ApiError {
    /// The text the failure is reported with.
    pub open spec fn message(&self) -> Seq<char> {
        self@.message()
    }

    /// The bare detail of the failure, without the class prefix.
    pub open spec fn detail(&self) -> Seq<char> {
        match self {
            ApiError::BadRequest(m) => m@,
            ApiError::Forbidden(m) => m@,
            ApiError::Other(m) => m@,
        }
    }

    /// The HTTP status the transport answers with.
    pub open spec fn status(&self) -> int {
        match self {
            ApiError::BadRequest(_) => 400,
            ApiError::Forbidden(_) => 403,
            ApiError::Other(_) => 500,
        }
    }

    /// A bad request with the given detail.
    pub fn bad_request(detail: &str) -> (e: ApiError)
        ensures
            e@ == Failure::BadRequest(detail@),
    {
        ApiError::BadRequest(detail.to_owned())
    }

    /// A refusal with the given detail.
    pub fn forbidden(detail: &str) -> (e: ApiError)
        ensures
            e@ == Failure::Forbidden(detail@),
    {
        ApiError::Forbidden(detail.to_owned())
    }

    /// The text the failure is reported with: the class, a colon and the
    /// detail, or the bare message of a failure of no class.
    pub fn to_string(&self) -> (text: String)
        ensures
            text@ == self.message(),
    {
        match self {
            ApiError::BadRequest(m) => "bad_request: ".to_owned().concat(m.as_str()),
            ApiError::Forbidden(m) => "forbidden: ".to_owned().concat(m.as_str()),
            ApiError::Other(m) => m.clone(),
        }
    }

    /// The detail of the failure, without its class.
    pub fn detail_text(&self) -> (text: String)
        ensures
            text@ == self.detail(),
    {
        match self {
            ApiError::BadRequest(m) => m.clone(),
            ApiError::Forbidden(m) => m.clone(),
            ApiError::Other(m) => m.clone(),
        }
    }

    /// The HTTP status the transport answers with.
    pub fn status_code(&self) -> (code: u16)
        ensures
            code == self.status(),
    {
        match self {
            ApiError::BadRequest(_) => 400,
            ApiError::Forbidden(_) => 403,
            ApiError::Other(_) => 500,
        }
    }
}

impl From<anyhow::Error> for ApiError {
    fn from(e: anyhow::Error) -> (err: ApiError) {
        ApiError::Other(failure_text(&e))
    }
}

impl FromSpecImpl<anyhow::Error> for ApiError {
    open spec fn obeys_from_spec() -> bool {
        true
    }

    open spec fn from_spec(e: anyhow::Error) -> ApiError {
        ApiError::Other(anyhow_text(e))
    }
}

} // verus!
