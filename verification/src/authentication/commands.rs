//! Verifying an account with credentials on behalf of the user interface.

use crate::authentication::models::{Token, TokenStatus};
use crate::cloudflare::account::{Account, AccountError};
use crate::cloudflare::common::Credentials;
use crate::cloudflare::user::UserError;
use vstd::prelude::*;

verus! {

#[derive(Debug, PartialEq, Clone)]
pub struct AccountWithCredentials {
    pub id: String,
    pub name: String,
    pub credentials: Credentials,
}

/// An error as the user interface gets it: a kind and a sentence.
#[derive(Debug, PartialEq, Clone)]
pub struct AuthenticationCommandError {
    pub kind: AuthenticationCommandErrorKind,
    pub message: String,
}

#[derive(Debug, PartialEq, Eq, Clone, Copy)]
pub enum AuthenticationCommandErrorKind {
    Authentication,
    InvalidToken,
    DisabledToken,
    ExpiredToken,
    InvalidAccountId,
    Unknown,
}

/// The kind and the sentence in which the user interface is told of a
/// failed token verification. What the service itself said is not shown.
pub open spec fn told_of_user_error(value: UserError) -> (AuthenticationCommandErrorKind, Seq<char>) {
    match value {
        UserError::Token(_) => (AuthenticationCommandErrorKind::InvalidToken, "Token is invalid"@),
        UserError::Transport(_) => (
            AuthenticationCommandErrorKind::Unknown,
            "A network error occurred"@,
        ),
        UserError::Unknown(_) => (
            AuthenticationCommandErrorKind::Unknown,
            "An unknown error occurred"@,
        ),
    }
}

/// The kind and the sentence in which the user interface is told of a
/// failed account lookup. What the lookup itself said is not shown.
pub open spec fn told_of_account_error(value: AccountError) -> (
    AuthenticationCommandErrorKind,
    Seq<char>,
) {
    match value {
        AccountError::Token(_) => (
            AuthenticationCommandErrorKind::InvalidToken,
            "Token is invalid"@,
        ),
        AccountError::InvalidAccountId => (
            AuthenticationCommandErrorKind::InvalidAccountId,
            "Account ID is invalid"@,
        ),
        AccountError::Transport(_) => (
            AuthenticationCommandErrorKind::Unknown,
            "A network error occurred"@,
        ),
        AccountError::Unknown(_) => (
            AuthenticationCommandErrorKind::Unknown,
            "An unknown error occurred"@,
        ),
    }
}

impl AuthenticationCommandError {
    /// The error has this kind and this sentence.
    pub open spec fn is(self, kind: AuthenticationCommandErrorKind, message: Seq<char>) -> bool {
        self.kind == kind && self.message@ == message
    }

    /// The error has the kind and the sentence of this pair.
    pub open spec fn tells(self, told: (AuthenticationCommandErrorKind, Seq<char>)) -> bool {
        self.is(told.0, told.1)
    }
}

impl From<UserError> for AuthenticationCommandError {
    /// What the user interface is told of a failed token verification.
    fn from(value: UserError) -> (error: Self)
        ensures
            error.tells(told_of_user_error(value)),
    {
        match value {
            UserError::Token(_) => AuthenticationCommandError {
                kind: AuthenticationCommandErrorKind::InvalidToken,
                message: "Token is invalid".to_string(),
            },
            UserError::Transport(_) => AuthenticationCommandError {
                kind: AuthenticationCommandErrorKind::Unknown,
                message: "A network error occurred".to_string(),
            },
            UserError::Unknown(_) => AuthenticationCommandError {
                kind: AuthenticationCommandErrorKind::Unknown,
                message: "An unknown error occurred".to_string(),
            },
        }
    }
}

impl vstd::std_specs::convert::FromSpecImpl<UserError> for AuthenticationCommandError {
    /// The conversion is stated by the contract of `from`, over the texts
    /// of the result.
    open spec fn obeys_from_spec() -> bool {
        false
    }

    open spec fn from_spec(value: UserError) -> Self {
        choose|error: AuthenticationCommandError| error.tells(told_of_user_error(value))
    }
}

impl From<AccountError> for AuthenticationCommandError {
    /// What the user interface is told of a failed account lookup.
    fn from(value: AccountError) -> (error: Self)
        ensures
            error.tells(told_of_account_error(value)),
    {
        match value {
            AccountError::Token(_) => AuthenticationCommandError {
                kind: AuthenticationCommandErrorKind::InvalidToken,
                message: "Token is invalid".to_string(),
            },
            AccountError::InvalidAccountId => AuthenticationCommandError {
                kind: AuthenticationCommandErrorKind::InvalidAccountId,
                message: "Account ID is invalid".to_string(),
            },
            AccountError::Transport(_) => AuthenticationCommandError {
                kind: AuthenticationCommandErrorKind::Unknown,
                message: "A network error occurred".to_string(),
            },
            AccountError::Unknown(_) => AuthenticationCommandError {
                kind: AuthenticationCommandErrorKind::Unknown,
                message: "An unknown error occurred".to_string(),
            },
        }
    }
}

impl vstd::std_specs::convert::FromSpecImpl<AccountError> for AuthenticationCommandError {
    /// The conversion is stated by the contract of `from`, over the texts
    /// of the result.
    open spec fn obeys_from_spec() -> bool {
        false
    }

    open spec fn from_spec(value: AccountError) -> Self {
        choose|error: AuthenticationCommandError| error.tells(told_of_account_error(value))
    }
}

/// What the command does once the token verification has come back.
#[derive(Debug, PartialEq, Clone)]
pub enum CommandStep {
    /// The token is active: read the account.
    GetAccount,
    /// The command is over, with this error. The account is not read.
    Reject(AuthenticationCommandError),
}

/// The first step of the command: only an active token goes on to the
/// account.
pub fn verify_token_step(token: Result<Token, UserError>) -> (step: CommandStep)
    ensures
        match token {
            Ok(t) => match t.status {
                TokenStatus::Active => step is GetAccount,
                TokenStatus::Disabled => step is Reject && step->Reject_0.is(
                    AuthenticationCommandErrorKind::DisabledToken,
                    "Token is disabled"@,
                ),
                TokenStatus::Expired => step is Reject && step->Reject_0.is(
                    AuthenticationCommandErrorKind::ExpiredToken,
                    "Token is expired"@,
                ),
            },
            Err(e) => step is Reject && step->Reject_0.tells(told_of_user_error(e)),
        },
{
    match token {
        Ok(t) => match t.status {
            TokenStatus::Active => CommandStep::GetAccount,
            TokenStatus::Disabled => CommandStep::Reject(
                AuthenticationCommandError {
                    kind: AuthenticationCommandErrorKind::DisabledToken,
                    message: "Token is disabled".to_string(),
                },
            ),
            TokenStatus::Expired => CommandStep::Reject(
                AuthenticationCommandError {
                    kind: AuthenticationCommandErrorKind::ExpiredToken,
                    message: "Token is expired".to_string(),
                },
            ),
        },
        Err(e) => CommandStep::Reject(AuthenticationCommandError::from(e)),
    }
}

/// The second step of the command: joins the account that was read with
/// the credentials, or tells of the failed read.
pub fn verify_account_and_credentials(
    credentials: Credentials,
    account: Result<Account, AccountError>,
) -> (verified: Result<AccountWithCredentials, AuthenticationCommandError>)
    ensures
        match account {
            Ok(a) => verified == Ok::<AccountWithCredentials, AuthenticationCommandError>(
                AccountWithCredentials { id: a.id, name: a.name, credentials },
            ),
            Err(e) => verified is Err && verified->Err_0.tells(told_of_account_error(e)),
        },
{
    match account {
        Ok(a) => Ok(AccountWithCredentials { id: a.id, name: a.name, credentials }),
        Err(e) => Err(AuthenticationCommandError::from(e)),
    }
}

} // verus!
