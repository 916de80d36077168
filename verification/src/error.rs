//! The error taxonomy of the normalization layer. Every failure is an
//! explicit value returned to the caller; absence of an *optional* token
//! field is never an error.

use vstd::prelude::*;

verus! {

/// Failures of authorization-code extraction and of mandatory-field
/// validation.
#[derive(Clone, Copy, Debug, PartialEq, Eq, Structural)]
pub enum AuthError {
    /// The redirect target is not syntactically a valid URL.
    InvalidUrl,
    /// The redirect URL has no query component at all (distinguished from
    /// "query present but parameter absent").
    MissingQuery,
    /// The record holds no redirect target; code extraction must not have
    /// been invoked on it.
    MissingRedirectTarget,
    /// The query parsed but the target key is absent from every segment.
    ParameterNotFound,
    /// `ParameterNotFound`, re-labeled at the redirect-response level for
    /// caller clarity.
    AuthorizationCodeNotFound,
    /// The scan reached a segment from which no key/value pair can be formed:
    /// one lacking a key (empty before its `=`), or a segment that matched
    /// the target key but has no `=`.
    MalformedParameter,
    /// A token-refresh response was decoded without one of its mandatory
    /// fields: a protocol-contract violation from the server.
    MissingMandatoryField,
}

} // verus!
