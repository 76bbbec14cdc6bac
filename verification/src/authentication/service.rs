//! The two steps of verifying credentials: the token, then the account.

use crate::authentication::models::{
    authentication_error_for, map_api_errors, token_status_of, Account, AccountCredentials,
    AccountWithCredentials, AuthenticationError, AuthenticationErrorView, Token, TokenStatus,
};
use crate::cloudflare::common::ApiError;
use crate::common::Credentials;
use vstd::prelude::*;
use vstd::std_specs::convert::FromSpec;

verus! {

/// What the service answers about a token: the token's
/// id and the word for its status.
#[derive(Debug, PartialEq, Clone)]
pub struct UserTokenStatus {
    pub id: String,
    pub status: String,
}

/// What the verification does once the token's status is known.
#[derive(Debug, PartialEq, Clone)]
pub enum VerifyStep {
    /// The token is active: look the account up.
    LookUpAccount,
    /// The verification is over, with this error. The account is not
    /// looked up.
    Reject(AuthenticationError),
}

/// Verifies credentials in two steps. Neither step changes anything on the
/// server, so a failure of the second needs no undoing of the first.
pub struct AuthenticationService {
    api_url: Option<String>,
}

impl AuthenticationService {
    /// The base URL that the service was made with, if any.
    pub closed spec fn api_url(&self) -> Option<String> {
        self.api_url
    }

    pub fn new(api_url: Option<String>) -> (service: Self)
        ensures
            service.api_url() == api_url,
    {
        AuthenticationService { api_url }
    }

    /// The base URL to send to, where one was given.
    pub fn base_url(&self) -> (url: &Option<String>)
        ensures
            *url == self.api_url(),
    {
        &self.api_url
    }

    /// Makes a token of what the service answers about it. An answer that
    /// lists errors is the error that the list stands for, whatever else it
    /// holds. One that lists none and holds no result is an error too, never
    /// an empty success. Otherwise the status is read from its word.
    pub fn verify_token(&self, result: Option<UserTokenStatus>, errors: Vec<ApiError>) -> (token:
        Result<Token, AuthenticationError>)
        ensures
            match token {
                Ok(t) => {
                    &&& errors@.len() == 0
                    &&& result is Some
                    &&& t.id == result->0.id
                    &&& t.value is None
                    &&& t.policies is None
                    &&& token_status_of(result->0.status@) == Some(t.status)
                },
                Err(e) => if errors@.len() == 0 && result is Some {
                    &&& token_status_of(result->0.status@) is None
                    &&& e@ == AuthenticationErrorView::Unknown(
                        "Unknown token status: "@ + result->0.status@,
                    )
                } else {
                    e@ == authentication_error_for(errors@)
                },
            },
    {
        if errors.len() == 0 {
            match result {
                Some(found) => match TokenStatus::try_from(found.status) {
                    Ok(status) => Ok(Token { id: found.id, value: None, status, policies: None }),
                    Err(e) => Err(e),
                },
                None => Err(map_api_errors(errors)),
            }
        } else {
            Err(map_api_errors(errors))
        }
    }

    /// Makes an account of the answer to the account lookup: the account
    /// where the answer lists no error and holds one, else the error that
    /// the list stands for.
    pub fn verify_account_id(&self, result: Option<Account>, errors: Vec<ApiError>) -> (account:
        Result<Account, AuthenticationError>)
        ensures
            match account {
                Ok(a) => errors@.len() == 0 && result == Some(a),
                Err(e) => (errors@.len() > 0 || result is None) && e@ == authentication_error_for(
                    errors@,
                ),
            },
    {
        if errors.len() == 0 {
            match result {
                Some(found) => Ok(found),
                None => Err(map_api_errors(errors)),
            }
        } else {
            Err(map_api_errors(errors))
        }
    }

    /// The first step: decides from the token whether the account is
    /// looked up at all. Only an active token goes on. A disabled or an
    /// expired one is rejected as such, and a failed verification with its error.
    pub fn after_token(&self, token: Result<Token, AuthenticationError>) -> (step: VerifyStep)
        ensures
            step == match token {
                Ok(t) => match t.status {
                    TokenStatus::Active => VerifyStep::LookUpAccount,
                    TokenStatus::Disabled => VerifyStep::Reject(AuthenticationError::DisabledToken),
                    TokenStatus::Expired => VerifyStep::Reject(AuthenticationError::ExpiredToken),
                },
                Err(e) => VerifyStep::Reject(e),
            },
    {
        match token {
            Ok(t) => match t.status {
                TokenStatus::Active => VerifyStep::LookUpAccount,
                TokenStatus::Disabled => VerifyStep::Reject(AuthenticationError::DisabledToken),
                TokenStatus::Expired => VerifyStep::Reject(AuthenticationError::ExpiredToken),
            },
            Err(e) => VerifyStep::Reject(e),
        }
    }

    /// The second step: joins the account with the credentials, or fails
    /// with the lookup's error.
    pub fn after_account(
        &self,
        credentials: Credentials,
        account: Result<Account, AuthenticationError>,
    ) -> (verified: Result<AccountWithCredentials, AuthenticationError>)
        ensures
            verified == match account {
                Ok(a) => Ok::<AccountWithCredentials, AuthenticationError>(
                    AccountWithCredentials {
                        id: a.id,
                        name: a.name,
                        credentials: AccountCredentials::from_spec(credentials),
                    },
                ),
                Err(e) => Err(e),
            },
    {
        match account {
            Ok(a) => Ok(
                AccountWithCredentials {
                    id: a.id,
                    name: a.name,
                    credentials: AccountCredentials::from(credentials),
                },
            ),
            Err(e) => Err(e),
        }
    }
}

} // verus!
