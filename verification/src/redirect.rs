//! The redirect-login response: wraps the raw redirect target a web login
//! ends in, and extracts the authorization code carried in that URL's query
//! string.

use vstd::prelude::*;

use crate::error::AuthError;
use crate::query::find_query_param;
use crate::query::lookup_param;

verus! {

/// What parsing a string as an absolute URL yields: `None` when the string is
/// not a syntactically valid URL, `Some(None)` when it parses but has no
/// query component at all, and `Some(Some(q))` when its raw (serialized,
/// percent-encoded) query component is `q`.
pub uninterp spec fn url_query_of(s: Seq<char>) -> Option<Option<Seq<char>>>;

/// Relies on `reqwest::Url::parse` (the `url` crate's parser, re-exported)
/// and `url::Url::query`: parsing is a pure function of the input string,
/// failing exactly on strings that are not absolute URLs, and `query` returns
/// the URL's serialized query component, if any.
#[verifier::external_body]
fn parse_url_query(s: &str) -> (r: Option<Option<String>>)
    ensures
        match r {
            None => url_query_of(s@) is None,
            Some(None) => url_query_of(s@) == Some(None::<Seq<char>>),
            Some(Some(q)) => url_query_of(s@) == Some(Some(q@)),
        },
{
    match reqwest::Url::parse(s) {
        Ok(url) => Some(url.query().map(|q| q.to_string())),
        Err(_) => None,
    }
}

/// A redirect-based login response: holds the optional raw URL string the
/// browser was sent to after a completed web login. Some response shapes omit
/// it entirely when no redirect is needed.
#[derive(Debug)]
pub struct GotoResponse {
    pub goto: Option<String>,
}

impl From<&String> for GotoResponse {
    /// Wraps a redirect target string as a redirect-login response.
    fn from(token: &String) -> (r: Self) {
        GotoResponse { goto: Some(token.clone()) }
    }
}

impl vstd::std_specs::convert::FromSpecImpl<&String> for GotoResponse {
    open spec fn obeys_from_spec() -> bool {
        true
    }

    open spec fn from_spec(token: &String) -> Self {
        GotoResponse { goto: Some(*token) }
    }
}

impl GotoResponse {
    /// Extracts the OAuth-style authorization code from the redirect target's
    /// query string: the raw value of the first `code=<v>` segment, exactly
    /// as it appeared — no decoding, no validation of its content.
    ///
    /// Fails with `MissingRedirectTarget` when the record holds no redirect
    /// target (nothing is parsed in that case), `InvalidUrl` when the target
    /// is not a valid URL, `MissingQuery` when the URL has no query component
    /// at all, `MalformedParameter` when the scan reaches a segment lacking a
    /// key (empty before its `=`) or a first `code` segment that has no `=`,
    /// and `AuthorizationCodeNotFound` when the query has no `code` segment.
    pub fn extract_authorization_code(&self) -> (r: Result<String, AuthError>)
        ensures
            self.goto is None ==> r == Err::<String, AuthError>(AuthError::MissingRedirectTarget),
            self.goto matches Some(g) ==> match url_query_of(g@) {
                None => r == Err::<String, AuthError>(AuthError::InvalidUrl),
                Some(None) => r == Err::<String, AuthError>(AuthError::MissingQuery),
                Some(Some(q)) => match lookup_param(q, "code"@) {
                    Some(Some(v)) => r matches Ok(code) && code@ == v,
                    Some(None) => r == Err::<String, AuthError>(AuthError::MalformedParameter),
                    None => r == Err::<String, AuthError>(AuthError::AuthorizationCodeNotFound),
                },
            },
    {
        let goto = match &self.goto {
            Some(g) => g,
            None => {
                return Err(AuthError::MissingRedirectTarget);
            },
        };
        let query = match parse_url_query(goto.as_str()) {
            Some(Some(q)) => q,
            Some(None) => {
                return Err(AuthError::MissingQuery);
            },
            None => {
                return Err(AuthError::InvalidUrl);
            },
        };
        proof {
            reveal_strlit("code");
        }
        match find_query_param(query.as_str(), "code") {
            Ok(code) => Ok(code),
            Err(AuthError::ParameterNotFound) => Err(AuthError::AuthorizationCodeNotFound),
            Err(e) => Err(e),
        }
    }
}

/// Round-trip law: a redirect record built from a string holds exactly that
/// string as its redirect target, unchanged.
pub proof fn lemma_goto_round_trip(token: &String)
    ensures
        <GotoResponse as vstd::std_specs::convert::FromSpec<&String>>::from_spec(token)
            == (GotoResponse { goto: Some(*token) }),
{
}

} // verus!
