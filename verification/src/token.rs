//! The token-bearing login response shapes and the uniform token-reading
//! capability over them.
//!
//! Web and mobile logins hold their tokens at different nesting depths, and
//! every token field there is optional: absence is the normal "login not
//! complete yet" observation, never an error. The token-refresh response is
//! the one trusted, terminal shape: its fields are mandatory, and a payload
//! decoded without one of them is a protocol violation.

use vstd::prelude::*;

use crate::error::AuthError;

verus! {

/// The uniform read interface every token-bearing login response implements:
/// callers ask "is the user logged in yet" the same way whichever login
/// transport produced the response.
pub trait AuthorizationToken {
    /// The access token the response carries, if any.
    spec fn spec_access_token(&self) -> Option<Seq<char>>;

    /// The refresh token the response carries, if any.
    spec fn spec_refresh_token(&self) -> Option<Seq<char>>;

    /// Reads the access token; absent means the login is not complete.
    fn access_token(&self) -> (r: Option<String>)
        ensures
            match r {
                Some(t) => self.spec_access_token() == Some(t@),
                None => self.spec_access_token() is None,
            },
    ;

    /// Reads the refresh token; absent means the login is not complete.
    fn refresh_token(&self) -> (r: Option<String>)
        ensures
            match r {
                Some(t) => self.spec_refresh_token() == Some(t@),
                None => self.spec_refresh_token() is None,
            },
    ;
}

/// Inert profile metadata nested in login responses; preserved for downstream
/// consumers, never read by the extraction logic.
#[derive(Debug, Default)]
pub struct UserData {
    pub ding_ding_robot_url: Option<String>,
    pub feed_back_switch: bool,
    pub following_desc: Option<String>,
}

/// The nested payload a mobile/app login may carry. Every field is optional:
/// a pending login (QR code not yet scanned, profile linking required) omits
/// them as a matter of course.
#[derive(Debug, Default)]
pub struct PdsLoginResult {
    pub role: Option<String>,
    pub user_data: Option<UserData>,
    pub is_first_login: bool,
    pub need_link: bool,
    pub login_type: Option<String>,
    pub nick_name: Option<String>,
    pub need_rp_verify: bool,
    pub avatar: Option<String>,
    pub access_token: Option<String>,
    pub user_name: Option<String>,
    pub user_id: Option<String>,
    pub default_drive_id: Option<String>,
    pub expires_in: i64,
    pub expire_time: Option<String>,
    pub request_id: Option<String>,
    pub data_pin_setup: bool,
    pub state: Option<String>,
    pub token_type: Option<String>,
    pub data_pin_saved: bool,
    pub refresh_token: Option<String>,
    pub status: Option<String>,
}

/// A mobile/app login response: a record wrapping an optional nested result.
/// Tokens live two optional levels deep; if either level is absent, the read
/// is absent — no partial results, no error.
#[derive(Debug)]
pub struct MobileLoginResponse {
    pub pds_login_result: Option<PdsLoginResult>,
}

impl AuthorizationToken for MobileLoginResponse {
    open spec fn spec_access_token(&self) -> Option<Seq<char>> {
        match self.pds_login_result {
            Some(pds) => match pds.access_token {
                Some(t) => Some(t@),
                None => None,
            },
            None => None,
        }
    }

    open spec fn spec_refresh_token(&self) -> Option<Seq<char>> {
        match self.pds_login_result {
            Some(pds) => match pds.refresh_token {
                Some(t) => Some(t@),
                None => None,
            },
            None => None,
        }
    }

    fn access_token(&self) -> (r: Option<String>) {
        match &self.pds_login_result {
            Some(pds) => match &pds.access_token {
                Some(t) => Some(t.clone()),
                None => None,
            },
            None => None,
        }
    }

    fn refresh_token(&self) -> (r: Option<String>) {
        match &self.pds_login_result {
            Some(pds) => match &pds.refresh_token {
                Some(t) => Some(t.clone()),
                None => None,
            },
            None => None,
        }
    }
}

/// A web login response: a flat record whose optional token fields are read
/// directly, with no transformation. The other fields are inert passengers
/// for downstream consumers.
#[derive(Debug, Default)]
pub struct WebLoginResponse {
    pub default_sbox_drive_id: Option<String>,
    pub role: Option<String>,
    pub user_name: Option<String>,
    pub need_link: bool,
    pub expire_time: Option<String>,
    pub pin_setup: bool,
    pub need_rp_verify: bool,
    pub avatar: Option<String>,
    pub user_data: Option<UserData>,
    pub token_type: Option<String>,
    pub access_token: Option<String>,
    pub default_drive_id: Option<String>,
    pub domain_id: Option<String>,
    pub refresh_token: Option<String>,
    pub is_first_login: bool,
    pub user_id: Option<String>,
    pub nick_name: Option<String>,
    pub state: Option<String>,
    pub expires_in: i64,
    pub status: Option<String>,
}

impl WebLoginResponse {
    /// Consumes the response and yields its default drive id, if any.
    pub fn get_drive_id(self) -> (r: Option<String>)
        ensures
            r == self.default_drive_id,
    {
        self.default_drive_id
    }
}

impl AuthorizationToken for WebLoginResponse {
    open spec fn spec_access_token(&self) -> Option<Seq<char>> {
        match self.access_token {
            Some(t) => Some(t@),
            None => None,
        }
    }

    open spec fn spec_refresh_token(&self) -> Option<Seq<char>> {
        match self.refresh_token {
            Some(t) => Some(t@),
            None => None,
        }
    }

    fn access_token(&self) -> (r: Option<String>) {
        match &self.access_token {
            Some(t) => Some(t.clone()),
            None => None,
        }
    }

    fn refresh_token(&self) -> (r: Option<String>) {
        match &self.refresh_token {
            Some(t) => Some(t.clone()),
            None => None,
        }
    }
}

/// The token-refresh response: the one fully-authenticated, terminal shape.
/// Every field is mandatory by construction; its tokens are consumed directly
/// as present values.
#[derive(Debug, Clone)]
pub struct RefreshTokenResponse {
    pub access_token: String,
    pub refresh_token: String,
    pub expires_in: u64,
    pub token_type: String,
    pub user_id: String,
    pub nick_name: String,
    pub default_drive_id: String,
}

impl RefreshTokenResponse {
    /// Validates a decoded token-refresh payload. Succeeds exactly when every
    /// field is present, carrying each value over unchanged; a missing field
    /// is a protocol-contract violation surfaced as `MissingMandatoryField`,
    /// never silently defaulted.
    pub fn from_parts(
        access_token: Option<String>,
        refresh_token: Option<String>,
        expires_in: Option<u64>,
        token_type: Option<String>,
        user_id: Option<String>,
        nick_name: Option<String>,
        default_drive_id: Option<String>,
    ) -> (r: Result<RefreshTokenResponse, AuthError>)
        ensures
            r is Ok <==> (access_token is Some && refresh_token is Some && expires_in is Some
                && token_type is Some && user_id is Some && nick_name is Some
                && default_drive_id is Some),
            r matches Ok(t) ==> access_token == Some(t.access_token) && refresh_token == Some(
                t.refresh_token,
            ) && expires_in == Some(t.expires_in) && token_type == Some(t.token_type) && user_id
                == Some(t.user_id) && nick_name == Some(t.nick_name) && default_drive_id == Some(
                t.default_drive_id,
            ),
            r is Err ==> r == Err::<RefreshTokenResponse, AuthError>(
                AuthError::MissingMandatoryField,
            ),
    {
        match (access_token, refresh_token, expires_in, token_type, user_id, nick_name,
        default_drive_id) {
            (
                Some(access_token),
                Some(refresh_token),
                Some(expires_in),
                Some(token_type),
                Some(user_id),
                Some(nick_name),
                Some(default_drive_id),
            ) => Ok(
                RefreshTokenResponse {
                    access_token,
                    refresh_token,
                    expires_in,
                    token_type,
                    user_id,
                    nick_name,
                    default_drive_id,
                },
            ),
            _ => Err(AuthError::MissingMandatoryField),
        }
    }
}

/// Pending-login law: a mobile login with no nested result carries no tokens —
/// both reads are absent, and absence is not an error.
pub proof fn lemma_mobile_login_pending(m: MobileLoginResponse)
    requires
        m.pds_login_result is None,
    ensures
        m.spec_access_token() is None,
        m.spec_refresh_token() is None,
{
}

/// Partial-result law: a mobile login whose nested result is present but
/// lacks a token field reads that token as absent — no partial results.
pub proof fn lemma_mobile_login_partial(m: MobileLoginResponse)
    requires
        m.pds_login_result matches Some(pds) && pds.access_token is None,
    ensures
        m.spec_access_token() is None,
{
}

} // verus!
