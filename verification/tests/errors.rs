use cloudflare_kv::authentication::models::{map_api_errors, AuthenticationError};
use cloudflare_kv::cloudflare::account::{AccountClient, AccountError};
use cloudflare_kv::cloudflare::common::{ApiError, Credentials, TokenError};
use cloudflare_kv::cloudflare::kv::client::KvClient;
use cloudflare_kv::cloudflare::kv::models::KvError;
use cloudflare_kv::cloudflare::user::{UserClient, UserError};
use cloudflare_kv::kv::models::{map_api_errors as map_item_errors, KvError as ItemError};
use std::sync::Arc;

fn credentials() -> Arc<Credentials> {
    Arc::new(Credentials::UserAuthToken { token: "my_token".to_string() })
}

fn one(code: u16, message: &str) -> Vec<ApiError> {
    vec![ApiError { code, message: message.to_string() }]
}

#[test]
fn kv_codes_map_to_their_errors() {
    let kv = KvClient::new(credentials(), None);
    assert_eq!(kv.map_api_errors(one(10000, "m")), KvError::Token(TokenError::Invalid));
    assert_eq!(kv.map_api_errors(one(10001, "m")), KvError::Token(TokenError::Invalid));
    assert_eq!(kv.map_api_errors(one(10009, "m")), KvError::KeyNotFound);
    assert_eq!(kv.map_api_errors(one(10013, "m")), KvError::NamespaceNotFound);
    assert_eq!(
        kv.map_api_errors(one(10014, "exists")),
        KvError::NamespaceAlreadyExists("exists".to_string())
    );
    assert_eq!(
        kv.map_api_errors(one(10019, "no title")),
        KvError::NamespaceTitleMissing("no title".to_string())
    );
    assert_eq!(kv.map_api_errors(one(10029, "m")), KvError::NonTextValue);
    assert_eq!(kv.map_api_errors(one(10033, "m")), KvError::InvalidExpiration);
    assert_eq!(kv.map_api_errors(one(10147, "m")), KvError::InvalidMetadata);
}

#[test]
fn kv_unknown_code_keeps_the_message() {
    let kv = KvClient::new(credentials(), None);
    assert_eq!(kv.map_api_errors(one(12345, "odd")), KvError::Unknown("odd".to_string()));
    assert_eq!(kv.map_api_errors(one(1000, "not kv")), KvError::Unknown("not kv".to_string()));
}

#[test]
fn kv_empty_list_is_an_error_of_its_own() {
    let kv = KvClient::new(credentials(), None);
    assert_eq!(
        kv.map_api_errors(vec![]),
        KvError::Unknown("No errors in the response.".to_string())
    );
}

#[test]
fn kv_only_the_first_error_counts() {
    let kv = KvClient::new(credentials(), None);
    let errors = vec![
        ApiError { code: 10013, message: "first".to_string() },
        ApiError { code: 10009, message: "second".to_string() },
    ];
    assert_eq!(kv.map_api_errors(errors), KvError::NamespaceNotFound);
}

#[test]
fn account_codes_map_to_their_errors() {
    let accounts = AccountClient::new(credentials(), None);
    for code in [1000u16, 1001, 6003] {
        assert_eq!(
            accounts.map_api_errors(one(code, "m")),
            AccountError::Token(TokenError::Invalid)
        );
    }
    for code in [7003u16, 9109] {
        assert_eq!(accounts.map_api_errors(one(code, "m")), AccountError::InvalidAccountId);
    }
    assert_eq!(
        accounts.map_api_errors(one(10013, "other")),
        AccountError::Unknown("other".to_string())
    );
    assert_eq!(
        accounts.map_api_errors(vec![]),
        AccountError::Unknown("No errors in the response.".to_string())
    );
}

#[test]
fn user_codes_map_to_their_errors() {
    let user = UserClient::new(credentials(), None);
    for code in [1000u16, 1001, 6003] {
        assert_eq!(user.map_api_errors(one(code, "m")), UserError::Token(TokenError::Invalid));
    }
    assert_eq!(user.map_api_errors(one(7003, "acct")), UserError::Unknown("acct".to_string()));
    assert_eq!(
        user.map_api_errors(vec![]),
        UserError::Unknown("No errors in the response.".to_string())
    );
}

#[test]
fn authentication_codes_map_to_their_errors() {
    assert_eq!(map_api_errors(one(1000, "m")), AuthenticationError::InvalidToken);
    assert_eq!(map_api_errors(one(6003, "m")), AuthenticationError::InvalidToken);
    assert_eq!(
        map_api_errors(one(7003, "bad id")),
        AuthenticationError::InvalidAccountId("bad id".to_string())
    );
    assert_eq!(
        map_api_errors(one(9109, "bad id")),
        AuthenticationError::InvalidAccountId("bad id".to_string())
    );
    assert_eq!(map_api_errors(one(1001, "m")), AuthenticationError::InvalidToken);
    assert_eq!(map_api_errors(one(10000, "x")), AuthenticationError::Unknown("x".to_string()));
    assert_eq!(
        map_api_errors(vec![]),
        AuthenticationError::Unknown("No errors in the response.".to_string())
    );
}

#[test]
fn item_codes_map_to_their_errors() {
    assert_eq!(
        map_item_errors(one(10000, "m")),
        ItemError::Authentication(AuthenticationError::InvalidToken)
    );
    assert_eq!(
        map_item_errors(one(10001, "m")),
        ItemError::Authentication(AuthenticationError::InvalidToken)
    );
    assert_eq!(map_item_errors(one(10009, "m")), ItemError::KeyNotFound);
    assert_eq!(map_item_errors(one(10013, "m")), ItemError::NamespaceNotFound);
    assert_eq!(map_item_errors(one(10029, "bin")), ItemError::Unknown("bin".to_string()));
    assert_eq!(
        map_item_errors(vec![]),
        ItemError::Unknown("No errors in the response.".to_string())
    );
}
