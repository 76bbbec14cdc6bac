use cloudflare_kv::authentication::models::{Token, TokenStatus};
use cloudflare_kv::cloudflare::account::{Account, AccountClient, AccountError, AccountSettings};
use cloudflare_kv::cloudflare::common::{
    envelope_reply, is_success, ApiCursorPaginatedResponse, ApiError, ApiPaginatedResponse, ApiReply, ApiRequest,
    ApiResponse, Credentials, CursorPageInfo, HttpMethod, OrderDirection, PageInfo, RequestBody,
    TokenError, API_URL, EXPIRATION_HEADER, METADATA_PART, TITLE_MEMBER, VALUE_PART,
};
use cloudflare_kv::cloudflare::kv::client::KvClient;
use cloudflare_kv::cloudflare::kv::models::{
    KvError, KvKey, KvKeys, KvKeysListInput, KvNamespace, KvNamespaceCreateInput,
    KvNamespaceDeleteInput, KvNamespaceGetInput, KvNamespaceUpdateInput, KvNamespaces,
    KvNamespacesListInput, KvNamespacesOrderBy, KvPairMetadataGetInput, KvPairsDeleteInput,
    KvPairsDeleteResult, KvValueType, KvValuesGetInput,
};
use cloudflare_kv::cloudflare::user::{UserClient, UserError};
use cloudflare_kv::cloudflare::Cloudflare;
use reqwest::header::{HeaderMap, HeaderValue};
use std::sync::Arc;

fn token() -> Arc<Credentials> {
    Arc::new(Credentials::UserAuthToken { token: "my_token".to_string() })
}

fn kv() -> KvClient {
    KvClient::new(token(), Some(Arc::new("http://localhost:8080".to_string())))
}

fn pair(name: &str, value: &str) -> (String, String) {
    (name.to_string(), value.to_string())
}

fn bearer() -> HeaderMap {
    let mut headers = HeaderMap::new();
    headers.insert("authorization", HeaderValue::from_static("Bearer my_token"));
    headers
}

fn keys_input(limit: Option<u32>) -> KvKeysListInput {
    KvKeysListInput {
        account_id: "acc".to_string(),
        namespace_id: "ns".to_string(),
        cursor: None,
        limit,
        prefix: None,
    }
}

#[test]
fn wire_names_are_the_documented_ones() {
    assert_eq!(TITLE_MEMBER, "title");
    assert_eq!(VALUE_PART, "value");
    assert_eq!(METADATA_PART, "metadata");
    assert_eq!(EXPIRATION_HEADER, "expiration");
}

#[test]
fn only_status_200_carries_a_payload() {
    assert!(is_success(200));
    for status in [0u16, 199, 201, 204, 301, 400, 404, 500] {
        assert!(!is_success(status));
    }
}

#[test]
fn list_namespaces_without_filters_has_no_query() {
    let input = KvNamespacesListInput { account_id: "my_account_id".to_string(), ..Default::default() };
    let request = kv().list_namespaces_request(&input);
    assert_eq!(
        request,
        ApiRequest {
            method: HttpMethod::Get,
            url: "http://localhost:8080/accounts/my_account_id/storage/kv/namespaces".to_string(),
            headers: bearer(),
            query: vec![],
            body: RequestBody::Empty,
        }
    );
}

#[test]
fn list_namespaces_sends_the_filters_that_are_set() {
    let input = KvNamespacesListInput {
        account_id: "my_account_id".to_string(),
        order_by: Some(KvNamespacesOrderBy::Title),
        order_direction: Some(OrderDirection::Desc),
        page: Some(2),
        per_page: Some(50),
    };
    let request = kv().list_namespaces_request(&input);
    assert_eq!(
        request.query,
        vec![
            pair("order", "title"),
            pair("direction", "desc"),
            pair("page", "2"),
            pair("per_page", "50")
        ]
    );
    let input = KvNamespacesListInput {
        account_id: "my_account_id".to_string(),
        order_by: Some(KvNamespacesOrderBy::Id),
        order_direction: Some(OrderDirection::Asc),
        page: None,
        per_page: Some(4294967295),
    };
    assert_eq!(
        input.query_parameters(),
        vec![pair("order", "id"), pair("direction", "asc"), pair("per_page", "4294967295")]
    );
}

#[test]
fn order_words_are_lower_case() {
    assert_eq!(OrderDirection::Asc.to_string(), "asc");
    assert_eq!(OrderDirection::Desc.to_string(), "desc");
    assert_eq!(KvNamespacesOrderBy::Id.to_string(), "id");
    assert_eq!(KvNamespacesOrderBy::Title.to_string(), "title");
}

#[test]
fn list_namespaces_envelope_gives_items_and_page_info() {
    let reply = ApiReply::Success(ApiPaginatedResponse {
        result: vec![KvNamespace {
            id: "ns1".to_string(),
            title: "t1".to_string(),
            beta: None,
            supports_url_encoding: None,
        }],
        result_info: PageInfo { count: 1, page: 1, per_page: 20, total_count: 1 },
    });
    let listed: Result<KvNamespaces, KvError> = kv().handle_api_response(reply);
    assert_eq!(
        listed,
        Ok(KvNamespaces {
            items: vec![KvNamespace {
                id: "ns1".to_string(),
                title: "t1".to_string(),
                beta: None,
                supports_url_encoding: None,
            }],
            page_info: PageInfo { count: 1, page: 1, per_page: 20, total_count: 1 },
        })
    );
}

#[test]
fn a_failure_reply_becomes_the_error_of_its_first_code() {
    let reply: ApiReply<ApiPaginatedResponse<Vec<KvNamespace>>> =
        ApiReply::Failure(vec![ApiError { code: 10000, message: "Authentication error".to_string() }]);
    let listed: Result<KvNamespaces, KvError> = kv().handle_api_response(reply);
    assert_eq!(listed, Err(KvError::Token(TokenError::Invalid)));
}

#[test]
fn a_transport_failure_stays_a_transport_error() {
    let reply: ApiReply<ApiResponse<KvNamespace>> = ApiReply::Transport("connection refused".to_string());
    let got: Result<KvNamespace, KvError> = kv().handle_api_response(reply);
    assert_eq!(got, Err(KvError::Transport("connection refused".to_string())));
}

#[test]
fn namespace_requests_address_the_namespace() {
    let client = kv();
    let get = client.get_namespace_request(&KvNamespaceGetInput {
        account_id: "acc".to_string(),
        namespace_id: "ns".to_string(),
    });
    assert_eq!(get.method, HttpMethod::Get);
    assert_eq!(get.url, "http://localhost:8080/accounts/acc/storage/kv/namespaces/ns");
    assert_eq!(get.body, RequestBody::Empty);
    assert!(get.query.is_empty());

    let create = client.create_namespace_request(KvNamespaceCreateInput {
        account_id: "acc".to_string(),
        title: "My Namespace".to_string(),
    });
    assert_eq!(create.method, HttpMethod::Post);
    assert_eq!(create.url, "http://localhost:8080/accounts/acc/storage/kv/namespaces");
    assert_eq!(create.body, RequestBody::Title("My Namespace".to_string()));
    assert_eq!(create.headers, bearer());

    let update = client.update_namespace_request(KvNamespaceUpdateInput {
        account_id: "acc".to_string(),
        namespace_id: "ns".to_string(),
        title: "Renamed".to_string(),
    });
    assert_eq!(update.method, HttpMethod::Put);
    assert_eq!(update.url, "http://localhost:8080/accounts/acc/storage/kv/namespaces/ns");
    assert_eq!(update.body, RequestBody::Title("Renamed".to_string()));

    let delete = client.delete_namespace_request(&KvNamespaceDeleteInput {
        account_id: "acc".to_string(),
        namespace_id: "ns".to_string(),
    });
    assert_eq!(delete.method, HttpMethod::Delete);
    assert_eq!(delete.url, "http://localhost:8080/accounts/acc/storage/kv/namespaces/ns");
    assert_eq!(delete.body, RequestBody::Empty);
}

#[test]
fn delete_namespace_succeeds_without_a_payload() {
    let client = kv();
    assert_eq!(client.delete_namespace_response(ApiReply::Success(())), Ok(()));
    assert_eq!(
        client.delete_namespace_response(ApiReply::Failure(vec![ApiError {
            code: 10013,
            message: "not found".to_string()
        }])),
        Err(KvError::NamespaceNotFound)
    );
    assert_eq!(
        client.delete_namespace_response(ApiReply::Failure(vec![])),
        Err(KvError::Unknown("No errors in the response.".to_string()))
    );
}

#[test]
fn list_keys_limit_below_ten_is_raised_to_ten() {
    for limit in [0u32, 1, 3, 9] {
        let input = keys_input(Some(limit));
        assert_eq!(input.clamped_limit(), 10);
        let request = kv().list_keys_request(input);
        assert_eq!(request.query, vec![pair("limit", "10")]);
    }
}

#[test]
fn list_keys_limit_from_ten_on_passes_through() {
    for (limit, text) in [(10u32, "10"), (11, "11"), (1000, "1000"), (4294967295, "4294967295")] {
        let input = keys_input(Some(limit));
        assert_eq!(input.clamped_limit(), limit);
        assert_eq!(kv().list_keys_request(input).query, vec![pair("limit", text)]);
    }
}

#[test]
fn list_keys_without_limit_asks_for_a_thousand() {
    let input = keys_input(None);
    assert_eq!(input.clamped_limit(), 1000);
    let request = kv().list_keys_request(input);
    assert_eq!(request.method, HttpMethod::Get);
    assert_eq!(request.url, "http://localhost:8080/accounts/acc/storage/kv/namespaces/ns/keys");
    assert_eq!(request.query, vec![pair("limit", "1000")]);
}

#[test]
fn list_keys_passes_cursor_and_prefix_unchanged() {
    let input = KvKeysListInput {
        account_id: "acc".to_string(),
        namespace_id: "ns".to_string(),
        cursor: Some("6Ck1la0VxJ0djhidm1MdX2FyD".to_string()),
        limit: Some(25),
        prefix: Some("My Prefix/".to_string()),
    };
    assert_eq!(
        kv().list_keys_request(input).query,
        vec![
            pair("limit", "25"),
            pair("cursor", "6Ck1la0VxJ0djhidm1MdX2FyD"),
            pair("prefix", "My Prefix/")
        ]
    );
}

#[test]
fn list_keys_envelope_gives_keys_count_and_cursor() {
    let key = KvKey { name: "k1".to_string(), metadata: None, expiration: Some(1577836800) };
    let reply = ApiReply::Success(ApiCursorPaginatedResponse {
        result: vec![key.clone()],
        result_info: CursorPageInfo { count: 1, cursor: Some("next".to_string()) },
    });
    let listed: Result<KvKeys, KvError> = kv().handle_api_response(reply);
    assert_eq!(listed, Ok(KvKeys { keys: vec![key], count: 1, cursor: Some("next".to_string()) }));
}

#[test]
fn key_requests_escape_the_key() {
    let client = kv();
    let metadata = client.get_kv_pair_metadata_request(&KvPairMetadataGetInput {
        account_id: "acc".to_string(),
        namespace_id: "ns".to_string(),
        key: "dir/my key".to_string(),
    });
    assert_eq!(metadata.method, HttpMethod::Get);
    assert_eq!(
        metadata.url,
        "http://localhost:8080/accounts/acc/storage/kv/namespaces/ns/metadata/dir%2Fmy%20key"
    );
    assert!(metadata.query.is_empty());
    assert_eq!(metadata.body, RequestBody::Empty);
}

#[test]
fn bulk_requests_carry_their_input() {
    let client = kv();
    let input = KvValuesGetInput {
        account_id: "acc".to_string(),
        namespace_id: "ns".to_string(),
        keys: vec!["k1".to_string(), "k2".to_string()],
        value_type: Some(KvValueType::Text),
        with_metadata: Some(true),
    };
    let request = client.get_kv_values_request(input.clone());
    assert!(client.can_send());
    assert_eq!(request.method, HttpMethod::Post);
    assert_eq!(request.url, "http://localhost:8080/accounts/acc/storage/kv/namespaces/ns/bulk/get");
    assert_eq!(request.body, RequestBody::Values(input));

    let delete = client.delete_kv_pairs_request(KvPairsDeleteInput {
        account_id: "acc".to_string(),
        namespace_id: "ns".to_string(),
        keys: vec!["k1".to_string(), "k2".to_string()],
    });
    assert_eq!(delete.method, HttpMethod::Post);
    assert_eq!(
        delete.url,
        "http://localhost:8080/accounts/acc/storage/kv/namespaces/ns/bulk/delete"
    );
    assert_eq!(delete.body, RequestBody::Keys(vec!["k1".to_string(), "k2".to_string()]));
}

#[test]
fn bulk_delete_reports_partial_success() {
    let reply = ApiReply::Success(ApiResponse {
        result: KvPairsDeleteResult {
            successful_key_count: 1,
            unsuccessful_keys: vec!["k2".to_string()],
        },
    });
    let deleted: Result<KvPairsDeleteResult, KvError> = kv().handle_api_response(reply);
    assert_eq!(
        deleted,
        Ok(KvPairsDeleteResult { successful_key_count: 1, unsuccessful_keys: vec!["k2".to_string()] })
    );
}

#[test]
fn wants_metadata_only_when_asked() {
    let mut input = KvValuesGetInput {
        account_id: "acc".to_string(),
        namespace_id: "ns".to_string(),
        keys: vec![],
        value_type: None,
        with_metadata: None,
    };
    assert!(!input.wants_metadata());
    input.with_metadata = Some(false);
    assert!(!input.wants_metadata());
    input.with_metadata = Some(true);
    assert!(input.wants_metadata());
}

#[test]
fn clients_default_to_the_production_host() {
    assert_eq!(API_URL, "https://api.cloudflare.com/client/v4");
    let clients = Cloudflare::new(Credentials::Service { key: "svc".to_string() }, None);
    let request = clients.user.verify_token_request();
    assert_eq!(request.url, "https://api.cloudflare.com/client/v4/user/tokens/verify");
    let mut service = HeaderMap::new();
    service.insert("x-auth-user-service-key", HeaderValue::from_static("svc"));
    assert_eq!(request.headers, service);
    let request = clients.accounts.get_account_request("12345");
    assert_eq!(request.url, "https://api.cloudflare.com/client/v4/accounts/12345");
    let request = clients.kv.get_namespace_request(&KvNamespaceGetInput {
        account_id: "a".to_string(),
        namespace_id: "n".to_string(),
    });
    assert_eq!(request.url, "https://api.cloudflare.com/client/v4/accounts/a/storage/kv/namespaces/n");
}

#[test]
fn clients_share_an_overridden_host() {
    let clients = Cloudflare::new(
        Credentials::UserAuthToken { token: "my_token".to_string() },
        Some("http://127.0.0.1:9000".to_string()),
    );
    assert_eq!(clients.user.verify_token_request().url, "http://127.0.0.1:9000/user/tokens/verify");
    assert_eq!(
        clients.accounts.verify_token_request("12345").url,
        "http://127.0.0.1:9000/accounts/12345/tokens/verify"
    );
    assert_eq!(clients.accounts.verify_token_request("12345").headers, bearer());
}

#[test]
fn account_and_user_requests_are_bare_gets() {
    let accounts = AccountClient::new(token(), Some(Arc::new("http://h".to_string())));
    let request = accounts.get_account_request("12345");
    assert_eq!(
        request,
        ApiRequest {
            method: HttpMethod::Get,
            url: "http://h/accounts/12345".to_string(),
            headers: bearer(),
            query: vec![],
            body: RequestBody::Empty,
        }
    );
    let user = UserClient::new(token(), Some(Arc::new("http://h".to_string())));
    let request = user.verify_token_request();
    assert_eq!(
        request,
        ApiRequest {
            method: HttpMethod::Get,
            url: "http://h/user/tokens/verify".to_string(),
            headers: bearer(),
            query: vec![],
            body: RequestBody::Empty,
        }
    );
}

#[test]
fn account_replies_become_accounts_tokens_or_errors() {
    let accounts = AccountClient::new(token(), None);
    let account = Account {
        id: "12345".to_string(),
        name: "My Account".to_string(),
        created_on: None,
        settings: Some(AccountSettings {
            abuse_contact_email: Some("abuse@example.com".to_string()),
            enforce_twofactor: Some(false),
        }),
    };
    let got: Result<Account, AccountError> =
        accounts.handle_api_response(ApiReply::Success(ApiResponse { result: account.clone() }));
    assert_eq!(got, Ok(account));
    let reply: ApiReply<ApiResponse<Account>> =
        ApiReply::Failure(vec![ApiError { code: 7003, message: "No route".to_string() }]);
    let got: Result<Account, AccountError> = accounts.handle_api_response(reply);
    assert_eq!(got, Err(AccountError::InvalidAccountId));
    let reply: ApiReply<ApiResponse<Account>> = ApiReply::Transport("timed out".to_string());
    let got: Result<Account, AccountError> = accounts.handle_api_response(reply);
    assert_eq!(got, Err(AccountError::Transport("timed out".to_string())));
    let reply: ApiReply<ApiResponse<Account>> = ApiReply::Failure(vec![]);
    let got: Result<Account, AccountError> = accounts.handle_api_response(reply);
    assert_eq!(got, Err(AccountError::Unknown("No errors in the response.".to_string())));
}

#[test]
fn user_replies_become_tokens_or_errors() {
    let user = UserClient::new(token(), None);
    let verified = Token {
        id: "12345".to_string(),
        value: None,
        status: TokenStatus::Active,
        policies: None,
    };
    let got: Result<Token, UserError> =
        user.handle_api_response(ApiReply::Success(ApiResponse { result: verified.clone() }));
    assert_eq!(got, Ok(verified));
    let reply: ApiReply<ApiResponse<Token>> =
        ApiReply::Failure(vec![ApiError { code: 1000, message: "Invalid API Token".to_string() }]);
    let got: Result<Token, UserError> = user.handle_api_response(reply);
    assert_eq!(got, Err(UserError::Token(TokenError::Invalid)));
    let reply: ApiReply<ApiResponse<Token>> = ApiReply::Transport("dns".to_string());
    let got: Result<Token, UserError> = user.handle_api_response(reply);
    assert_eq!(got, Err(UserError::Transport("dns".to_string())));
}

#[test]
fn clients_tell_whether_their_credentials_can_travel() {
    let bad = Arc::new(Credentials::UserAuthToken { token: "a\nb".to_string() });
    assert!(!KvClient::new(bad.clone(), None).can_send());
    assert!(!AccountClient::new(bad.clone(), None).can_send());
    assert!(!UserClient::new(bad, None).can_send());
    assert!(KvClient::new(token(), None).can_send());
    assert!(AccountClient::new(token(), None).can_send());
    assert!(UserClient::new(token(), None).can_send());
}

fn namespace(id: &str) -> KvNamespace {
    KvNamespace { id: id.to_string(), title: "t".to_string(), beta: None, supports_url_encoding: None }
}

#[test]
fn an_envelope_with_a_payload_under_200_is_a_success() {
    let reply = envelope_reply(200, Some(ApiResponse { result: namespace("ns1") }), vec![]);
    assert_eq!(reply, ApiReply::Success(ApiResponse { result: namespace("ns1") }));
    let got: Result<KvNamespace, KvError> = kv().handle_api_response(reply);
    assert_eq!(got, Ok(namespace("ns1")));
}

#[test]
fn an_envelope_without_result_and_errors_is_an_error() {
    for status in [200u16, 204, 400, 500] {
        let reply = envelope_reply::<ApiResponse<KvNamespace>>(status, None, vec![]);
        assert_eq!(reply, ApiReply::Failure(vec![]));
        let got: Result<KvNamespace, KvError> = kv().handle_api_response(reply);
        assert_eq!(got, Err(KvError::Unknown("No errors in the response.".to_string())));
    }
    let reply = envelope_reply::<ApiResponse<Account>>(200, None, vec![]);
    let got: Result<Account, AccountError> = AccountClient::new(token(), None).handle_api_response(reply);
    assert_eq!(got, Err(AccountError::Unknown("No errors in the response.".to_string())));
    let reply = envelope_reply::<ApiResponse<Token>>(200, None, vec![]);
    let got: Result<Token, UserError> = UserClient::new(token(), None).handle_api_response(reply);
    assert_eq!(got, Err(UserError::Unknown("No errors in the response.".to_string())));
}

#[test]
fn an_envelope_without_result_gives_the_error_that_it_lists() {
    let errors = vec![ApiError { code: 10013, message: "gone".to_string() }];
    let reply = envelope_reply::<ApiResponse<KvNamespace>>(200, None, errors.clone());
    assert_eq!(reply, ApiReply::Failure(errors));
    let got: Result<KvNamespace, KvError> = kv().handle_api_response(reply);
    assert_eq!(got, Err(KvError::NamespaceNotFound));
}

#[test]
fn a_payload_under_another_status_does_not_count() {
    let errors = vec![ApiError { code: 10014, message: "exists".to_string() }];
    for status in [201u16, 400, 404, 500] {
        let reply = envelope_reply(status, Some(ApiResponse { result: namespace("ns1") }), errors.clone());
        assert_eq!(reply, ApiReply::Failure(errors.clone()));
    }
}

#[test]
fn no_query_parameter_is_sent_twice() {
    let input = KvNamespacesListInput {
        account_id: "acc".to_string(),
        order_by: Some(KvNamespacesOrderBy::Id),
        order_direction: Some(OrderDirection::Asc),
        page: Some(1),
        per_page: Some(20),
    };
    let mut names: Vec<String> = input.query_parameters().into_iter().map(|(name, _)| name).collect();
    names.sort();
    names.dedup();
    assert_eq!(names.len(), 4);
    let input = KvKeysListInput {
        account_id: "acc".to_string(),
        namespace_id: "ns".to_string(),
        cursor: Some("c".to_string()),
        limit: Some(10),
        prefix: Some("p".to_string()),
    };
    let mut names: Vec<String> = input.query_parameters().into_iter().map(|(name, _)| name).collect();
    names.sort();
    names.dedup();
    assert_eq!(names.len(), 3);
}
