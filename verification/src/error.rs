//! The failures that a client of the authentication service reports.
//!
//! [`AuthError`] is a closed set of cases. The cases that stand for a failure of
//! another layer (transport, JSON, header construction, environment) hold the
//! error of that layer unchanged, and each of those errors converts into
//! [`AuthError`] with `From`.

use crate::decimal::{decimal, decimal_text};
use crate::payload::SupabaseHTTPError;
use vstd::prelude::*;
use vstd::std_specs::convert::FromSpec;

verus! {

/// `reqwest::Error`, carried through as an opaque value.
#[verifier::external_type_specification]
#[verifier::external_body]
pub struct ExTransportError(reqwest::Error);

/// `reqwest::header::InvalidHeaderValue`, carried through as an opaque value.
#[verifier::external_type_specification]
#[verifier::external_body]
pub struct ExInvalidHeaderValue(reqwest::header::InvalidHeaderValue);

/// An HTTP status code: a number from 100 to 999.
#[derive(Clone, Copy, Debug, PartialEq, Eq, Structural)]
pub struct StatusCode {
    code: u16,
}

impl View for StatusCode {
    type V = u16;

    closed spec fn view(&self) -> u16 {
        self.code
    }
}

impl StatusCode {
    #[verifier::type_invariant]
    spec fn in_range(self) -> bool {
        100 <= self.code <= 999
    }

    /// The status code with the given number, where there is one.
    pub fn from_u16(code: u16) -> (r: Option<StatusCode>)
        ensures
            r is Some <==> 100 <= code <= 999,
            r matches Some(status) ==> status@ == code,
    {
        if 100 <= code && code <= 999 {
            Some(StatusCode { code })
        } else {
            None
        }
    }

    /// The number of the status code.
    pub fn as_u16(&self) -> (r: u16)
        ensures
            r == self@,
            100 <= r <= 999,
    {
        proof {
            use_type_invariant(self);
        }
        self.code
    }
}

/// Why a variable of the environment could not be read.
#[derive(Debug, PartialEq, Eq)]
pub enum VarError {
    /// The variable is not set.
    NotPresent,
    /// The variable is set to a value that is no valid Unicode; the value's
    /// bytes are kept.
    NotUnicode(Vec<u8>),
}

/// A failure of an authentication operation.
#[derive(Debug)]
pub enum AuthError {
    /// Registration of an identity that exists already.
    AlreadySignedUp,
    /// Login with credentials that do not match.
    WrongCredentials,
    /// Lookup of a user that does not exist.
    UserNotFound,
    /// An operation that needs a session, attempted without one.
    NotAuthenticated,
    /// A refresh attempted without a refresh token.
    MissingRefreshToken,
    /// A token that fails validation.
    WrongToken,
    /// A failure that fits no other case.
    InternalError,
    /// A failure of the HTTP transport.
    NetworkError(reqwest::Error),
    /// A response body that is not the JSON expected.
    ParseError(serde_json::Error),
    /// A value that cannot stand in an HTTP header.
    InvalidHeaderValue(reqwest::header::InvalidHeaderValue),
    /// Configuration that could not be read from the environment.
    InvalidEnvironmentVariable(VarError),
    /// A string that is no valid URL.
    ParseUrlError,
    /// A structured error that the service returned.
    Supabase(SupabaseHTTPError),
    /// A failed remote call known only by its status and message.
    AuthError { status: StatusCode, message: String },
}

impl AuthError {
    /// The display form of each case: a fixed text for a case without
    /// parameters or with a cause, the payload's own display form for
    /// [`AuthError::Supabase`], and status and message after `Error: ` for
    /// [`AuthError::AuthError`].
    pub open spec fn rendering(&self) -> Seq<char> {
        match self {
            AuthError::AlreadySignedUp => "User Already Exists"@,
            AuthError::WrongCredentials => "Invalid Credentials"@,
            AuthError::UserNotFound => "User Not Found"@,
            AuthError::NotAuthenticated => "Supabase Client not Authenticated"@,
            AuthError::MissingRefreshToken => "Missing Refresh Token"@,
            AuthError::WrongToken => "JWT Is Invalid"@,
            AuthError::InternalError => "Internal Error"@,
            AuthError::NetworkError(_) => "Network Error"@,
            AuthError::ParseError(_) => "Failed to Parse"@,
            AuthError::InvalidHeaderValue(_) => "Header Value is Invalid"@,
            AuthError::InvalidEnvironmentVariable(_) => "Environment Variable Unreadable"@,
            AuthError::ParseUrlError => "Failed to parse URL"@,
            AuthError::Supabase(payload) => payload.rendering(),
            AuthError::AuthError { status, message } => "Error: "@ + decimal_text(status@ as int)
                + ": "@ + message@,
        }
    }

    /// Renders the error for a reader.
    pub fn to_string(&self) -> (r: String)
        ensures
            r@ == self.rendering(),
    {
        match self {
            AuthError::AlreadySignedUp => String::from_str("User Already Exists"),
            AuthError::WrongCredentials => String::from_str("Invalid Credentials"),
            AuthError::UserNotFound => String::from_str("User Not Found"),
            AuthError::NotAuthenticated => String::from_str("Supabase Client not Authenticated"),
            AuthError::MissingRefreshToken => String::from_str("Missing Refresh Token"),
            AuthError::WrongToken => String::from_str("JWT Is Invalid"),
            AuthError::InternalError => String::from_str("Internal Error"),
            AuthError::NetworkError(_) => String::from_str("Network Error"),
            AuthError::ParseError(_) => String::from_str("Failed to Parse"),
            AuthError::InvalidHeaderValue(_) => String::from_str("Header Value is Invalid"),
            AuthError::InvalidEnvironmentVariable(_) => String::from_str(
                "Environment Variable Unreadable",
            ),
            AuthError::ParseUrlError => String::from_str("Failed to parse URL"),
            AuthError::Supabase(payload) => payload.to_string(),
            AuthError::AuthError { status, message } => {
                let mut out = String::from_str("Error: ");
                let number = decimal(status.as_u16() as i64);
                out.append(number.as_str());
                out.append(": ");
                out.append(message.as_str());
                out
            },
        }
    }
}

impl From<reqwest::Error> for AuthError {
    fn from(cause: reqwest::Error) -> (r: AuthError) {
        AuthError::NetworkError(cause)
    }
}

impl vstd::std_specs::convert::FromSpecImpl<reqwest::Error> for AuthError {
    open spec fn obeys_from_spec() -> bool {
        true
    }

    open spec fn from_spec(cause: reqwest::Error) -> AuthError {
        AuthError::NetworkError(cause)
    }
}

impl From<serde_json::Error> for AuthError {
    fn from(cause: serde_json::Error) -> (r: AuthError) {
        AuthError::ParseError(cause)
    }
}

impl vstd::std_specs::convert::FromSpecImpl<serde_json::Error> for AuthError {
    open spec fn obeys_from_spec() -> bool {
        true
    }

    open spec fn from_spec(cause: serde_json::Error) -> AuthError {
        AuthError::ParseError(cause)
    }
}

impl From<reqwest::header::InvalidHeaderValue> for AuthError {
    fn from(cause: reqwest::header::InvalidHeaderValue) -> (r: AuthError) {
        AuthError::InvalidHeaderValue(cause)
    }
}

impl vstd::std_specs::convert::FromSpecImpl<reqwest::header::InvalidHeaderValue> for AuthError {
    open spec fn obeys_from_spec() -> bool {
        true
    }

    open spec fn from_spec(cause: reqwest::header::InvalidHeaderValue) -> AuthError {
        AuthError::InvalidHeaderValue(cause)
    }
}

impl From<VarError> for AuthError {
    fn from(cause: VarError) -> (r: AuthError) {
        AuthError::InvalidEnvironmentVariable(cause)
    }
}

impl vstd::std_specs::convert::FromSpecImpl<VarError> for AuthError {
    open spec fn obeys_from_spec() -> bool {
        true
    }

    open spec fn from_spec(cause: VarError) -> AuthError {
        AuthError::InvalidEnvironmentVariable(cause)
    }
}

/// Lifting keeps the cause: the error made from a transport error is the
/// network case and holds that very error, and likewise for a JSON error, a
/// header error and an environment error, each in its own case.
pub proof fn lemma_lift_keeps_cause(
    transport: reqwest::Error,
    json: serde_json::Error,
    header: reqwest::header::InvalidHeaderValue,
    environment: VarError,
)
    ensures
        AuthError::from_spec(transport) == AuthError::NetworkError(transport),
        AuthError::from_spec(json) == AuthError::ParseError(json),
        AuthError::from_spec(header) == AuthError::InvalidHeaderValue(header),
        AuthError::from_spec(environment) == AuthError::InvalidEnvironmentVariable(environment),
{
}

} // verus!
