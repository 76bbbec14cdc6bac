//! Accounts: reading one by its id, and verifying a token against one.

use crate::authentication::models::Token;
use crate::cloudflare::common::{
    envelope_reply_of, no_errors_message, ApiError, ApiReply, ApiRequest, ApiResponse, Credentials, HttpMethod,
    RequestBody, TokenError, TokenErrorView, API_URL,
};
use std::sync::Arc;
use vstd::prelude::*;

verus! {

/// An account. The creation date is kept as the text that the API wrote.
#[derive(Debug, Clone, PartialEq)]
pub struct Account {
    pub id: String,
    pub name: String,
    pub created_on: Option<String>,
    pub settings: Option<AccountSettings>,
}

impl From<ApiResponse<Account>> for Account {
    fn from(api_response: ApiResponse<Account>) -> (account: Self)
    {
        api_response.result
    }
}

impl vstd::std_specs::convert::FromSpecImpl<ApiResponse<Account>> for Account {
    open spec fn obeys_from_spec() -> bool {
        true
    }

    open spec fn from_spec(api_response: ApiResponse<Account>) -> Self {
        api_response.result
    }
}

#[derive(Debug, Clone, PartialEq)]
pub struct AccountSettings {
    pub abuse_contact_email: Option<String>,
    pub enforce_twofactor: Option<bool>,
}

/// What can go wrong with an account operation.
#[derive(Debug, PartialEq, Clone)]
pub enum AccountError {
    Token(TokenError),
    InvalidAccountId,
    /// The request could not be sent or the response could not be read.
    Transport(String),
    Unknown(String),
}

/// An `AccountError` with its texts as plain characters.
pub enum AccountErrorView {
    Token(TokenErrorView),
    InvalidAccountId,
    Transport(Seq<char>),
    Unknown(Seq<char>),
}

impl View for AccountError {
    type V = AccountErrorView;

    open spec fn view(&self) -> AccountErrorView {
        match self {
            AccountError::Token(e) => AccountErrorView::Token(e@),
            AccountError::InvalidAccountId => AccountErrorView::InvalidAccountId,
            AccountError::Transport(m) => AccountErrorView::Transport(m@),
            AccountError::Unknown(m) => AccountErrorView::Unknown(m@),
        }
    }
}

/// The address of an account.
pub open spec fn account_url(api: Seq<char>, account: Seq<char>) -> Seq<char> {
    api + "/accounts/"@ + account
}

/// The address at which a token is verified against an account.
pub open spec fn account_token_url(api: Seq<char>, account: Seq<char>) -> Seq<char> {
    account_url(api, account) + "/tokens/verify"@
}

/// The domain error that a list of wire errors stands for in the account
/// family. Only the first one counts; an empty list is an error of its own.
pub open spec fn account_error_for(errors: Seq<ApiError>) -> AccountErrorView {
    if errors.len() == 0 {
        AccountErrorView::Unknown(no_errors_message())
    } else {
        let code = errors[0].code;
        if code == 1000 || code == 1001 || code == 6003 {
            AccountErrorView::Token(TokenErrorView::Invalid)
        } else if code == 7003 || code == 9109 {
            AccountErrorView::InvalidAccountId
        } else {
            AccountErrorView::Unknown(errors[0].message@)
        }
    }
}

/// The error that a reply stands for, if it is one.
pub open spec fn account_reply_error<T>(reply: ApiReply<T>) -> Option<AccountErrorView> {
    match reply {
        ApiReply::Success(_) => None,
        ApiReply::Transport(message) => Some(AccountErrorView::Transport(message@)),
        ApiReply::Failure(errors) => Some(account_error_for(errors@)),
    }
}

/// An envelope without a result is an error of the account family
/// whatever its status: the error that its list stands for, and the error of
/// an empty list where it lists none.
pub proof fn lemma_envelope_without_result_is_an_error<T>(status: u16, errors: Vec<ApiError>)
    ensures
        account_reply_error(envelope_reply_of::<T>(status, None, errors)) == Some(account_error_for(errors@)),
        errors@.len() == 0 ==> account_reply_error(envelope_reply_of::<T>(status, None, errors)) == Some(
            AccountErrorView::Unknown(no_errors_message()),
        ),
{
}

/// A client for accounts, bound to one set of credentials and one base URL.
pub struct AccountClient {
    api_url: Arc<String>,
    credentials: Arc<Credentials>,
}

impl AccountClient {
    /// The base URL that the client sends to.
    pub closed spec fn api_url(&self) -> Seq<char> {
        (*self.api_url)@
    }

    /// The credentials that the client sends with.
    pub closed spec fn credentials(&self) -> Credentials {
        *self.credentials
    }

    /// Whether the credentials can travel in headers. A request is built
    /// only where they can.
    pub fn can_send(&self) -> (sendable: bool)
        ensures
            sendable == self.credentials().sendable(),
    {
        self.credentials.is_sendable()
    }

    /// Binds a client to credentials and a base URL; without one, to the
    /// production host.
    pub fn new(credentials: Arc<Credentials>, api_url: Option<Arc<String>>) -> (client: Self)
        ensures
            client.credentials() == *credentials,
            client.api_url() == match api_url {
                Some(url) => (*url)@,
                None => API_URL@,
            },
    {
        let api_url = match api_url {
            Some(url) => url,
            None => Arc::new(API_URL.to_string()),
        };
        AccountClient { api_url, credentials }
    }

    fn account_address(&self, account_id: &str) -> (url: String)
        ensures
            url@ == account_url(self.api_url(), account_id@),
    {
        String::from_str(self.api_url.as_str()).concat("/accounts/").concat(account_id)
    }

    /// The request that reads an account by its id.
    pub fn get_account_request(&self, account_id: &str) -> (request: ApiRequest)
        requires
            self.credentials().sendable(),
        ensures
            request.goes_to(
                HttpMethod::Get,
                account_url(self.api_url(), account_id@),
                self.credentials(),
            ),
            request.is_bare(),
    {
        ApiRequest {
            method: HttpMethod::Get,
            url: self.account_address(account_id),
            headers: self.credentials.headers(),
            query: Vec::new(),
            body: RequestBody::Empty,
        }
    }

    /// The request that verifies the caller's token against an account.
    pub fn verify_token_request(&self, account_id: &str) -> (request: ApiRequest)
        requires
            self.credentials().sendable(),
        ensures
            request.goes_to(
                HttpMethod::Get,
                account_token_url(self.api_url(), account_id@),
                self.credentials(),
            ),
            request.is_bare(),
    {
        ApiRequest {
            method: HttpMethod::Get,
            url: self.account_address(account_id).concat("/tokens/verify"),
            headers: self.credentials.headers(),
            query: Vec::new(),
            body: RequestBody::Empty,
        }
    }

    /// Makes of a reply what the operation returns: the converted payload
    /// of a success, or the error that the reply stands for.
    pub fn handle_api_response<T, R: From<T>>(&self, reply: ApiReply<T>) -> (result: Result<
        R,
        AccountError,
    >)
        ensures
            match reply {
                ApiReply::Success(payload) => result is Ok && call_ensures(
                    R::from,
                    (payload,),
                    result->Ok_0,
                ),
                _ => result is Err && Some(result->Err_0@) == account_reply_error(reply),
            },
    {
        match reply {
            ApiReply::Success(payload) => Ok(R::from(payload)),
            ApiReply::Transport(message) => Err(AccountError::Transport(message)),
            ApiReply::Failure(errors) => Err(self.map_api_errors(errors)),
        }
    }

    /// Turns the wire errors of a failure into the one domain error that
    /// they stand for.
    pub fn map_api_errors(&self, errors: Vec<ApiError>) -> (error: AccountError)
        ensures
            error@ == account_error_for(errors@),
    {
        if errors.len() == 0 {
            return AccountError::Unknown("No errors in the response.".to_string());
        }
        let error = &errors[0];
        let code = error.code;
        if code == 1000 || code == 1001 || code == 6003 {
            AccountError::Token(TokenError::Invalid)
        } else if code == 7003 || code == 9109 {
            AccountError::InvalidAccountId
        } else {
            AccountError::Unknown(error.message.clone())
        }
    }
}

} // verus!
