use cloudflare_kv::cloudflare::common::Credentials;
use reqwest::header::HeaderMap;

fn value<'a>(headers: &'a HeaderMap, name: &str) -> Option<&'a str> {
    headers.get(name).map(|value| value.to_str().unwrap())
}

#[test]
fn auth_key_sends_email_and_key() {
    let credentials = Credentials::UserAuthKey {
        email: "me@example.com".to_string(),
        key: "k-123".to_string(),
    };
    let headers = credentials.headers();
    assert_eq!(headers.len(), 2);
    assert_eq!(value(&headers, "X-Auth-Email"), Some("me@example.com"));
    assert_eq!(value(&headers, "X-Auth-Key"), Some("k-123"));
    assert_eq!(value(&headers, "x-auth-email"), Some("me@example.com"));
}

#[test]
fn auth_token_sends_bearer_authorization_only() {
    let credentials = Credentials::UserAuthToken { token: "my_token".to_string() };
    let headers = credentials.headers();
    assert_eq!(headers.len(), 1);
    assert_eq!(value(&headers, "Authorization"), Some("Bearer my_token"));
}

#[test]
fn service_key_sends_service_header_only() {
    let credentials = Credentials::Service { key: "svc".to_string() };
    let headers = credentials.headers();
    assert_eq!(headers.len(), 1);
    assert_eq!(value(&headers, "X-Auth-User-Service-Key"), Some("svc"));
}

#[test]
fn header_names_are_kept_in_lower_case() {
    let credentials = Credentials::UserAuthKey { email: "e".to_string(), key: "k".to_string() };
    let mut names: Vec<String> =
        credentials.headers().keys().map(|name| name.as_str().to_string()).collect();
    names.sort();
    assert_eq!(names, vec!["x-auth-email".to_string(), "x-auth-key".to_string()]);
}

#[test]
fn no_scheme_leaks_the_header_of_another() {
    let all = [
        Credentials::UserAuthKey { email: "e".to_string(), key: "k".to_string() },
        Credentials::UserAuthToken { token: "t".to_string() },
        Credentials::Service { key: "s".to_string() },
    ];
    let names: [&[&str]; 3] =
        [&["x-auth-email", "x-auth-key"], &["authorization"], &["x-auth-user-service-key"]];
    for (credentials, own) in all.iter().zip(names.iter()) {
        let headers = credentials.headers();
        assert_eq!(headers.keys_len(), own.len());
        for name in headers.keys() {
            assert!(own.contains(&name.as_str()));
        }
    }
}

#[test]
fn secrets_that_a_header_can_carry_are_sendable() {
    assert!(Credentials::UserAuthToken { token: "my_token".to_string() }.is_sendable());
    assert!(Credentials::UserAuthToken { token: "with space and\ttab".to_string() }.is_sendable());
    assert!(Credentials::UserAuthToken { token: "caf\u{e9}".to_string() }.is_sendable());
    assert!(Credentials::UserAuthToken { token: String::new() }.is_sendable());
    assert!(Credentials::Service { key: "svc".to_string() }.is_sendable());
    assert!(Credentials::UserAuthKey { email: "e".to_string(), key: "k".to_string() }.is_sendable());
}

#[test]
fn secrets_with_control_characters_are_not_sendable() {
    assert!(!Credentials::UserAuthToken { token: "line\nbreak".to_string() }.is_sendable());
    assert!(!Credentials::UserAuthToken { token: "\u{7f}".to_string() }.is_sendable());
    assert!(!Credentials::Service { key: "\r".to_string() }.is_sendable());
    assert!(!Credentials::UserAuthKey { email: "e\u{0}".to_string(), key: "k".to_string() }
        .is_sendable());
    assert!(!Credentials::UserAuthKey { email: "e".to_string(), key: "k\u{1f}".to_string() }
        .is_sendable());
}

#[test]
fn a_value_outside_ascii_travels_as_its_bytes() {
    let credentials = Credentials::Service { key: "caf\u{e9}".to_string() };
    let headers = credentials.headers();
    assert_eq!(headers.get("x-auth-user-service-key").unwrap().as_bytes(), "caf\u{e9}".as_bytes());
}
