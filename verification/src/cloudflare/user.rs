//! The caller's own token.

use crate::cloudflare::common::{
    envelope_reply_of, no_errors_message, ApiError, ApiReply, ApiRequest, Credentials, HttpMethod, RequestBody,
    TokenError, TokenErrorView, API_URL,
};
use std::sync::Arc;
use vstd::prelude::*;

verus! {

/// What can go wrong with a user operation.
#[derive(Debug, PartialEq, Clone)]
pub enum UserError {
    Token(TokenError),
    /// The request could not be sent or the response could not be read.
    Transport(String),
    Unknown(String),
}

/// A `UserError` with its texts as plain characters.
pub enum UserErrorView {
    Token(TokenErrorView),
    Transport(Seq<char>),
    Unknown(Seq<char>),
}

impl View for UserError {
    type V = UserErrorView;

    open spec fn view(&self) -> UserErrorView {
        match self {
            UserError::Token(e) => UserErrorView::Token(e@),
            UserError::Transport(m) => UserErrorView::Transport(m@),
            UserError::Unknown(m) => UserErrorView::Unknown(m@),
        }
    }
}

/// The address at which the caller's own token is verified.
pub open spec fn user_token_url(api: Seq<char>) -> Seq<char> {
    api + "/user/tokens/verify"@
}

/// The domain error that a list of wire errors stands for in the user
/// family. Only the first one counts; an empty list is an error of its own.
pub open spec fn user_error_for(errors: Seq<ApiError>) -> UserErrorView {
    if errors.len() == 0 {
        UserErrorView::Unknown(no_errors_message())
    } else {
        let code = errors[0].code;
        if code == 1000 || code == 1001 || code == 6003 {
            UserErrorView::Token(TokenErrorView::Invalid)
        } else {
            UserErrorView::Unknown(errors[0].message@)
        }
    }
}

/// The error that a reply stands for, if it is one.
pub open spec fn user_reply_error<T>(reply: ApiReply<T>) -> Option<UserErrorView> {
    match reply {
        ApiReply::Success(_) => None,
        ApiReply::Transport(message) => Some(UserErrorView::Transport(message@)),
        ApiReply::Failure(errors) => Some(user_error_for(errors@)),
    }
}

/// An envelope without a result is an error of the user family
/// whatever its status: the error that its list stands for, and the error of
/// an empty list where it lists none.
pub proof fn lemma_envelope_without_result_is_an_error<T>(status: u16, errors: Vec<ApiError>)
    ensures
        user_reply_error(envelope_reply_of::<T>(status, None, errors)) == Some(user_error_for(errors@)),
        errors@.len() == 0 ==> user_reply_error(envelope_reply_of::<T>(status, None, errors)) == Some(
            UserErrorView::Unknown(no_errors_message()),
        ),
{
}

/// A client for the caller's own user, bound to one set of credentials and
/// one base URL.
pub struct UserClient {
    api_url: Arc<String>,
    credentials: Arc<Credentials>,
}

impl UserClient {
    /// The base URL that the client sends to.
    pub closed spec fn api_url(&self) -> Seq<char> {
        (*self.api_url)@
    }

    /// The credentials that the client sends with.
    pub closed spec fn credentials(&self) -> Credentials {
        *self.credentials
    }

    /// Whether the credentials can travel in headers. A request is built
    /// only where they can.
    pub fn can_send(&self) -> (sendable: bool)
        ensures
            sendable == self.credentials().sendable(),
    {
        self.credentials.is_sendable()
    }

    /// Binds a client to credentials and a base URL; without one, to the
    /// production host.
    pub fn new(credentials: Arc<Credentials>, api_url: Option<Arc<String>>) -> (client: Self)
        ensures
            client.credentials() == *credentials,
            client.api_url() == match api_url {
                Some(url) => (*url)@,
                None => API_URL@,
            },
    {
        let api_url = match api_url {
            Some(url) => url,
            None => Arc::new(API_URL.to_string()),
        };
        UserClient { api_url, credentials }
    }

    /// The request that verifies the caller's own token.
    pub fn verify_token_request(&self) -> (request: ApiRequest)
        requires
            self.credentials().sendable(),
        ensures
            request.goes_to(
                HttpMethod::Get,
                user_token_url(self.api_url()),
                self.credentials(),
            ),
            request.is_bare(),
    {
        ApiRequest {
            method: HttpMethod::Get,
            url: String::from_str(self.api_url.as_str()).concat("/user/tokens/verify"),
            headers: self.credentials.headers(),
            query: Vec::new(),
            body: RequestBody::Empty,
        }
    }

    /// Makes of a reply what the operation returns: the converted payload
    /// of a success, or the error that the reply stands for.
    pub fn handle_api_response<T, R: From<T>>(&self, reply: ApiReply<T>) -> (result: Result<
        R,
        UserError,
    >)
        ensures
            match reply {
                ApiReply::Success(payload) => result is Ok && call_ensures(
                    R::from,
                    (payload,),
                    result->Ok_0,
                ),
                _ => result is Err && Some(result->Err_0@) == user_reply_error(reply),
            },
    {
        match reply {
            ApiReply::Success(payload) => Ok(R::from(payload)),
            ApiReply::Transport(message) => Err(UserError::Transport(message)),
            ApiReply::Failure(errors) => Err(self.map_api_errors(errors)),
        }
    }

    /// Turns the wire errors of a failure into the one domain error that
    /// they stand for.
    pub fn map_api_errors(&self, errors: Vec<ApiError>) -> (error: UserError)
        ensures
            error@ == user_error_for(errors@),
    {
        if errors.len() == 0 {
            return UserError::Unknown("No errors in the response.".to_string());
        }
        let error = &errors[0];
        let code = error.code;
        if code == 1000 || code == 1001 || code == 6003 {
            UserError::Token(TokenError::Invalid)
        } else {
            UserError::Unknown(error.message.clone())
        }
    }
}

} // verus!
