//! Normalization of cloud-storage login responses: a verified query-string
//! extractor for authorization codes carried in redirect URLs, and a uniform
//! token-reading capability over the structurally different login response
//! shapes (web, mobile, token refresh, redirect).

mod error;
mod query;
mod redirect;
mod token;

pub use error::AuthError;
pub use query::find_char;
pub use query::find_query_param;
pub use query::lemma_first_match_wins;
pub use query::lemma_unique_key_value;
pub use query::lookup_param;
pub use query::lookup_segments;
pub use query::seg_key;
pub use query::seg_malformed;
pub use query::seg_value;
pub use query::split_on;
pub use redirect::lemma_goto_round_trip;
pub use redirect::url_query_of;
pub use redirect::GotoResponse;
pub use token::lemma_mobile_login_partial;
pub use token::lemma_mobile_login_pending;
pub use token::AuthorizationToken;
pub use token::MobileLoginResponse;
pub use token::PdsLoginResult;
pub use token::RefreshTokenResponse;
pub use token::UserData;
pub use token::WebLoginResponse;
