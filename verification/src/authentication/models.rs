//! Tokens, accounts and the errors of verifying them.

use crate::cloudflare::common::{no_errors_message, ApiError, ApiResponse};
use crate::common::Credentials;
use crate::text::same_text;
use std::collections::HashMap;
use vstd::prelude::*;

verus! {

/// A response envelope as the service writes it in full.
#[derive(Debug, Clone)]
pub struct Envelope<T> {
    pub success: bool,
    pub result: Option<T>,
    pub messages: Vec<ResponseInfo>,
    pub errors: Vec<ResponseInfo>,
}

#[derive(Debug, PartialEq, Clone)]
pub struct Token {
    pub id: String,
    pub value: Option<String>,
    pub status: TokenStatus,
    pub policies: Option<Vec<TokenPolicy>>,
}

impl From<ApiResponse<Token>> for Token {
    fn from(api_response: ApiResponse<Token>) -> (token: Self)
    {
        api_response.result
    }
}

impl vstd::std_specs::convert::FromSpecImpl<ApiResponse<Token>> for Token {
    open spec fn obeys_from_spec() -> bool {
        true
    }

    open spec fn from_spec(api_response: ApiResponse<Token>) -> Self {
        api_response.result
    }
}

#[derive(Debug, PartialEq, Eq, Clone, Copy)]
pub enum TokenStatus {
    Active,
    Disabled,
    Expired,
}

/// The status that a lower-case word on the wire stands for, if any.
pub open spec fn token_status_of(text: Seq<char>) -> Option<TokenStatus> {
    if text == "active"@ {
        Some(TokenStatus::Active)
    } else if text == "expired"@ {
        Some(TokenStatus::Expired)
    } else if text == "disabled"@ {
        Some(TokenStatus::Disabled)
    } else {
        None
    }
}

impl TryFrom<String> for TokenStatus {
    type Error = AuthenticationError;

    /// Reads a status from its word on the wire. A word that is none of the
    /// three is an error that names it; there is no default.
    fn try_from(value: String) -> (status: Result<TokenStatus, AuthenticationError>)
        ensures
            match token_status_of(value@) {
                Some(s) => status == Ok::<TokenStatus, AuthenticationError>(s),
                None => status is Err && status->Err_0@ == AuthenticationErrorView::Unknown(
                    "Unknown token status: "@ + value@,
                ),
            },
    {
        if same_text(value.as_str(), "active") {
            Ok(TokenStatus::Active)
        } else if same_text(value.as_str(), "expired") {
            Ok(TokenStatus::Expired)
        } else if same_text(value.as_str(), "disabled") {
            Ok(TokenStatus::Disabled)
        } else {
            Err(
                AuthenticationError::Unknown(
                    String::from_str("Unknown token status: ").concat(value.as_str()),
                ),
            )
        }
    }
}

impl vstd::std_specs::convert::TryFromSpecImpl<String> for TokenStatus {
    /// The conversion is stated by the contract of `try_from`, over the
    /// text of the word and of the error.
    open spec fn obeys_try_from_spec() -> bool {
        false
    }

    open spec fn try_from_spec(value: String) -> Result<Self, AuthenticationError> {
        match token_status_of(value@) {
            Some(status) => Ok(status),
            None => Err(
                choose|error: AuthenticationError|
                    #[trigger] error@ == AuthenticationErrorView::Unknown(
                        "Unknown token status: "@ + value@,
                    ),
            ),
        }
    }
}

#[derive(Debug, PartialEq, Clone)]
pub struct TokenPolicy {
    pub id: String,
    pub effect: TokenPolicyEffect,
    pub permission_groups: Vec<PermissionGroup>,
    pub resources: HashMap<String, String>,
}

#[derive(Debug, PartialEq, Clone)]
pub struct PermissionGroup {
    pub id: String,
    pub meta: Option<PermissionGroupMeta>,
    pub name: Option<String>,
}

#[derive(Debug, PartialEq, Clone)]
pub struct PermissionGroupMeta {
    pub key: Option<String>,
    pub value: Option<String>,
}

#[derive(Debug, PartialEq, Eq, Clone, Copy)]
pub enum TokenPolicyEffect {
    Allow,
    Deny,
}

#[derive(Debug, Clone)]
pub struct ResponseInfo {
    pub code: u32,
    pub message: String,
}

/// What can go wrong with verifying credentials.
#[derive(Debug, PartialEq, Clone)]
pub enum AuthenticationError {
    InvalidAccountId(String),
    ExpiredToken,
    DisabledToken,
    InvalidToken,
    /// The request could not be sent or the response could not be read.
    Transport(String),
    Unknown(String),
}

/// An `AuthenticationError` with its texts as plain characters.
pub enum AuthenticationErrorView {
    InvalidAccountId(Seq<char>),
    ExpiredToken,
    DisabledToken,
    InvalidToken,
    Transport(Seq<char>),
    Unknown(Seq<char>),
}

impl View for AuthenticationError {
    type V = AuthenticationErrorView;

    open spec fn view(&self) -> AuthenticationErrorView {
        match self {
            AuthenticationError::InvalidAccountId(m) => AuthenticationErrorView::InvalidAccountId(
                m@,
            ),
            AuthenticationError::ExpiredToken => AuthenticationErrorView::ExpiredToken,
            AuthenticationError::DisabledToken => AuthenticationErrorView::DisabledToken,
            AuthenticationError::InvalidToken => AuthenticationErrorView::InvalidToken,
            AuthenticationError::Transport(m) => AuthenticationErrorView::Transport(m@),
            AuthenticationError::Unknown(m) => AuthenticationErrorView::Unknown(m@),
        }
    }
}

/// The authentication error that a list of wire errors stands for. Only the
/// first one counts; an empty list is an error of its own.
pub open spec fn authentication_error_for(errors: Seq<ApiError>) -> AuthenticationErrorView {
    if errors.len() == 0 {
        AuthenticationErrorView::Unknown(no_errors_message())
    } else {
        let code = errors[0].code;
        let message = errors[0].message@;
        if code == 1000 || code == 1001 || code == 6003 {
            AuthenticationErrorView::InvalidToken
        } else if code == 7003 || code == 9109 {
            AuthenticationErrorView::InvalidAccountId(message)
        } else {
            AuthenticationErrorView::Unknown(message)
        }
    }
}

/// Turns the wire errors of a failure into the one authentication error
/// that they stand for.
pub fn map_api_errors(errors: Vec<ApiError>) -> (error: AuthenticationError)
    ensures
        error@ == authentication_error_for(errors@),
{
    if errors.len() == 0 {
        return AuthenticationError::Unknown("No errors in the response.".to_string());
    }
    let error = &errors[0];
    let code = error.code;
    if code == 1000 || code == 1001 || code == 6003 {
        AuthenticationError::InvalidToken
    } else if code == 7003 || code == 9109 {
        AuthenticationError::InvalidAccountId(error.message.clone())
    } else {
        AuthenticationError::Unknown(error.message.clone())
    }
}

#[derive(Debug, PartialEq, Clone)]
pub struct Account {
    pub id: String,
    pub name: String,
}

#[derive(Debug, PartialEq, Clone)]
pub struct AccountWithCredentials {
    pub id: String,
    pub name: String,
    pub credentials: AccountCredentials,
}

/// Credentials without the account that they belong to.
#[derive(Debug, PartialEq, Clone)]
pub enum AccountCredentials {
    UserAuthKey { email: String, key: String },
    UserAuthToken { token: String },
    Service { key: String },
}

impl From<Credentials> for AccountCredentials {
    fn from(value: Credentials) -> (credentials: Self)
    {
        match value {
            Credentials::UserAuthKey { email, key, .. } => AccountCredentials::UserAuthKey {
                email,
                key,
            },
            Credentials::UserAuthToken { token, .. } => AccountCredentials::UserAuthToken { token },
            Credentials::Service { key, .. } => AccountCredentials::Service { key },
        }
    }
}

impl vstd::std_specs::convert::FromSpecImpl<Credentials> for AccountCredentials {
    open spec fn obeys_from_spec() -> bool {
        true
    }

    open spec fn from_spec(value: Credentials) -> Self {
        match value {
            Credentials::UserAuthKey { email, key, .. } => AccountCredentials::UserAuthKey {
                email,
                key,
            },
            Credentials::UserAuthToken { token, .. } => AccountCredentials::UserAuthToken { token },
            Credentials::Service { key, .. } => AccountCredentials::Service { key },
        }
    }
}

} // verus!
