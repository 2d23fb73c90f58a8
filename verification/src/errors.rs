//! Error taxonomy of the scraper.
//!
//! Every session operation fails fast with one of these variants; no
//! partial results survive a mid-operation failure.

use vstd::prelude::*;

use crate::text::dec_rep;
use crate::text::u64_to_dec;

verus! {

/// Result alias used by every fallible operation of the library.
pub type InstagramScraperResult<T> = Result<T, InstagramScraperError>;

/// The error taxonomy of the scraper.
#[derive(Debug, Clone)]
pub enum InstagramScraperError {
    /// The operation requires a prior successful login.
    Unauthenticated,
    /// A response that was expected to carry a csrf token did not.
    CsrfTokenIsMissing,
    /// The platform explicitly rejected the supplied credentials.
    AuthenticationFailed { status: String, message: String },
    /// The transport round-trip succeeded but the HTTP status was not 2xx.
    RequestFailed(u16),
    /// The HTTP call itself could not complete (DNS, TLS, connection reset).
    TransportError,
    /// The response payload did not match the expected shape.
    DecodeError,
}

/// A status code counts as successful exactly when it lies in the 2xx range.
pub open spec fn is_success_status(status: u16) -> bool {
    200 <= status < 300
}

impl InstagramScraperError {
    /// Wrap a non-2xx HTTP status code, as the platform handed it back.
    pub fn from_status(status: u16) -> (r: Self)
        ensures
            r == InstagramScraperError::RequestFailed(status),
    {
        InstagramScraperError::RequestFailed(status)
    }

    /// The human-readable description of this error.
    pub open spec fn spec_message(&self) -> Seq<char> {
        match self {
            InstagramScraperError::Unauthenticated =>
                "you are unauthenticated, you must call the login() method first"@,
            InstagramScraperError::CsrfTokenIsMissing =>
                "csrf token is missing in the login response"@,
            InstagramScraperError::AuthenticationFailed { status, message } =>
                "authentication failed. Status: "@ + status@ + ", message: "@ + message@,
            InstagramScraperError::RequestFailed(status) =>
                "HTTP request response has a bad status code: "@ + dec_rep(*status as nat),
            InstagramScraperError::TransportError =>
                "HTTP error: the request could not be completed"@,
            InstagramScraperError::DecodeError =>
                "the response payload did not match the expected shape"@,
        }
    }

    /// Describe this error, as a caller would print it.
    pub fn message(&self) -> (r: String)
        ensures
            r@ == self.spec_message(),
    {
        match self {
            InstagramScraperError::Unauthenticated => String::from_str(
                "you are unauthenticated, you must call the login() method first",
            ),
            InstagramScraperError::CsrfTokenIsMissing => String::from_str(
                "csrf token is missing in the login response",
            ),
            InstagramScraperError::AuthenticationFailed { status, message } => {
                let mut r = String::from_str("authentication failed. Status: ");
                r.append(status.as_str());
                r.append(", message: ");
                r.append(message.as_str());
                r
            },
            InstagramScraperError::RequestFailed(status) => {
                let mut r = String::from_str("HTTP request response has a bad status code: ");
                let status_dec = u64_to_dec(*status as u64);
                r.append(status_dec.as_str());
                r
            },
            InstagramScraperError::TransportError => String::from_str(
                "HTTP error: the request could not be completed",
            ),
            InstagramScraperError::DecodeError => String::from_str(
                "the response payload did not match the expected shape",
            ),
        }
    }
}

} // verus!
