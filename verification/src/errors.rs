//! Error taxonomy: availability-fetch failures, signing failures, and
//! construction-time configuration failures. A query either yields the whole
//! descriptor list or fails with one of these.

use vstd::prelude::*;
use vstd::string::StringExecFns;

verus! {

/// Why a query or the plugin construction failed. Each variant carries a
/// message naming the operation that failed and the underlying cause.
#[derive(Debug)]
pub enum ApiError {
    /// The availability-window request or the parsing of its response failed.
    FetchError(String),
    /// The signing request or the parsing of its response failed.
    SignError(String),
    /// The configuration handed to the plugin at construction was unusable.
    ConfigError(String),
}

impl ApiError {
    /// The human-readable message the error carries.
    pub open spec fn message_view(&self) -> Seq<char> {
        match self {
            ApiError::FetchError(m) => m@,
            ApiError::SignError(m) => m@,
            ApiError::ConfigError(m) => m@,
        }
    }

    /// Hands the carried message out.
    pub fn message(&self) -> (r: String)
        ensures
            r@ == self.message_view(),
    {
        match self {
            ApiError::FetchError(m) => m.clone(),
            ApiError::SignError(m) => m.clone(),
            ApiError::ConfigError(m) => m.clone(),
        }
    }
}

/// The message of an availability fetch that failed for the given cause.
pub open spec fn fetch_failure_message(cause: Seq<char>) -> Seq<char> {
    "Location Plugin: Unable to get timespan: "@ + cause
}

/// The message of a signing call that failed for the given cause.
pub open spec fn sign_failure_message(cause: Seq<char>) -> Seq<char> {
    "Location Plugin: Unable to sign range: "@ + cause
}

/// Wraps an underlying cause into the availability-fetch error.
pub fn fetch_error(cause: &str) -> (r: ApiError)
    ensures
        r matches ApiError::FetchError(m) && m@ == fetch_failure_message(cause@),
{
    let mut m = String::from_str("Location Plugin: Unable to get timespan: ");
    m.append(cause);
    ApiError::FetchError(m)
}

/// Wraps an underlying cause into the signing error.
pub fn sign_error(cause: &str) -> (r: ApiError)
    ensures
        r matches ApiError::SignError(m) && m@ == sign_failure_message(cause@),
{
    let mut m = String::from_str("Location Plugin: Unable to sign range: ");
    m.append(cause);
    ApiError::SignError(m)
}

} // verus!
