use cloudflare_kv::cloudflare::common::TokenError;
use cloudflare_kv::cloudflare::kv::models::KvError;
use cloudflare_kv::kv::commands::{KvCommandError, KvCommandErrorKind};

fn told(kind: KvCommandErrorKind, message: &str) -> KvCommandError {
    KvCommandError { kind, message: message.to_string() }
}

#[test]
fn namespace_errors_keep_the_words_of_the_service() {
    assert_eq!(
        KvCommandError::from(KvError::NamespaceAlreadyExists("a namespace with this title exists".to_string())),
        told(KvCommandErrorKind::NamespaceAlreadyExists, "a namespace with this title exists")
    );
    assert_eq!(
        KvCommandError::from(KvError::NamespaceTitleMissing("title is required".to_string())),
        told(KvCommandErrorKind::NamespaceTitleMissing, "title is required")
    );
    assert_eq!(
        KvCommandError::from(KvError::NamespaceNotFound),
        told(KvCommandErrorKind::NamespaceNotFound, "Namespace not found")
    );
}

#[test]
fn key_errors_have_their_sentences() {
    assert_eq!(
        KvCommandError::from(KvError::KeyNotFound),
        told(KvCommandErrorKind::KeyNotFound, "Key not found")
    );
    assert_eq!(
        KvCommandError::from(KvError::KeyAlreadyExists("my key".to_string())),
        told(KvCommandErrorKind::KeyAlreadyExists, "An item with the key my key already exists")
    );
    assert_eq!(
        KvCommandError::from(KvError::InvalidMetadata),
        told(KvCommandErrorKind::InvalidMetadata, "Metadata must be valid json")
    );
    assert_eq!(
        KvCommandError::from(KvError::InvalidExpiration),
        told(
            KvCommandErrorKind::InvalidExpiration,
            "Invalid expiration date. Please specify integer greater than the current number of seconds since the UNIX epoch."
        )
    );
}

#[test]
fn what_a_token_or_the_network_said_is_not_shown() {
    assert_eq!(
        KvCommandError::from(KvError::Token(TokenError::Unknown("secret detail".to_string()))),
        told(KvCommandErrorKind::Authentication, "Authentication error")
    );
    assert_eq!(
        KvCommandError::from(KvError::Transport("tcp reset".to_string())),
        told(KvCommandErrorKind::Unknown, "A network error occurred")
    );
    assert_eq!(
        KvCommandError::from(KvError::Unknown("odd".to_string())),
        told(KvCommandErrorKind::Unknown, "An unknown error occurred")
    );
    assert_eq!(
        KvCommandError::from(KvError::NonTextValue),
        told(KvCommandErrorKind::Unknown, "An unknown error occurred")
    );
}
