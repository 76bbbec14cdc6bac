//! What the user interface is told when a key-value operation fails.

use crate::cloudflare::common::concat3;
use crate::cloudflare::kv::models::{KvError, KvErrorView};
use vstd::prelude::*;

verus! {

/// An error as the user interface gets it: a kind and a sentence.
#[derive(Debug, PartialEq, Clone)]
pub struct KvCommandError {
    pub kind: KvCommandErrorKind,
    pub message: String,
}

#[derive(Debug, PartialEq, Eq, Clone, Copy)]
pub enum KvCommandErrorKind {
    NamespaceAlreadyExists,
    NamespaceNotFound,
    NamespaceTitleMissing,
    KeyNotFound,
    KeyAlreadyExists,
    InvalidMetadata,
    InvalidExpiration,
    Authentication,
    Unknown,
}

/// The kind under which the user interface is told of an error.
pub open spec fn told_kind(error: KvErrorView) -> KvCommandErrorKind {
    match error {
        KvErrorView::NamespaceAlreadyExists(_) => KvCommandErrorKind::NamespaceAlreadyExists,
        KvErrorView::NamespaceTitleMissing(_) => KvCommandErrorKind::NamespaceTitleMissing,
        KvErrorView::NamespaceNotFound => KvCommandErrorKind::NamespaceNotFound,
        KvErrorView::KeyNotFound => KvCommandErrorKind::KeyNotFound,
        KvErrorView::KeyAlreadyExists(_) => KvCommandErrorKind::KeyAlreadyExists,
        KvErrorView::InvalidMetadata => KvCommandErrorKind::InvalidMetadata,
        KvErrorView::InvalidExpiration => KvCommandErrorKind::InvalidExpiration,
        KvErrorView::Token(_) => KvCommandErrorKind::Authentication,
        KvErrorView::NonTextValue => KvCommandErrorKind::Unknown,
        KvErrorView::Transport(_) => KvCommandErrorKind::Unknown,
        KvErrorView::Unknown(_) => KvCommandErrorKind::Unknown,
    }
}

/// The sentence in which the user interface is told of an error. The
/// service's own words are kept for a namespace that exists already or lacks
/// a title; what a token, the network or an unknown error said is not shown.
pub open spec fn told_message(error: KvErrorView) -> Seq<char> {
    match error {
        KvErrorView::NamespaceAlreadyExists(message) => message,
        KvErrorView::NamespaceTitleMissing(message) => message,
        KvErrorView::NamespaceNotFound => "Namespace not found"@,
        KvErrorView::KeyNotFound => "Key not found"@,
        KvErrorView::KeyAlreadyExists(key) => "An item with the key "@ + key + " already exists"@,
        KvErrorView::InvalidMetadata => "Metadata must be valid json"@,
        KvErrorView::InvalidExpiration =>
            "Invalid expiration date. Please specify integer greater than the current number of seconds since the UNIX epoch."@,
        KvErrorView::Token(_) => "Authentication error"@,
        KvErrorView::NonTextValue => "An unknown error occurred"@,
        KvErrorView::Transport(_) => "A network error occurred"@,
        KvErrorView::Unknown(_) => "An unknown error occurred"@,
    }
}

impl From<KvError> for KvCommandError {
    /// Turns the error of a key-value operation into what the user
    /// interface is told.
    fn from(error: KvError) -> (told: Self)
        ensures
            told.kind == told_kind(error@),
            told.message@ == told_message(error@),
    {
        match error {
            KvError::NamespaceAlreadyExists(message) => KvCommandError {
                kind: KvCommandErrorKind::NamespaceAlreadyExists,
                message,
            },
            KvError::NamespaceTitleMissing(message) => KvCommandError {
                kind: KvCommandErrorKind::NamespaceTitleMissing,
                message,
            },
            KvError::NamespaceNotFound => KvCommandError {
                kind: KvCommandErrorKind::NamespaceNotFound,
                message: "Namespace not found".to_string(),
            },
            KvError::KeyNotFound => KvCommandError {
                kind: KvCommandErrorKind::KeyNotFound,
                message: "Key not found".to_string(),
            },
            KvError::KeyAlreadyExists(key) => KvCommandError {
                kind: KvCommandErrorKind::KeyAlreadyExists,
                message: concat3("An item with the key ", key.as_str(), " already exists"),
            },
            KvError::InvalidMetadata => KvCommandError {
                kind: KvCommandErrorKind::InvalidMetadata,
                message: "Metadata must be valid json".to_string(),
            },
            KvError::InvalidExpiration => KvCommandError {
                kind: KvCommandErrorKind::InvalidExpiration,
                message: "Invalid expiration date. Please specify integer greater than the current number of seconds since the UNIX epoch.".to_string(),
            },
            KvError::Token(_) => KvCommandError {
                kind: KvCommandErrorKind::Authentication,
                message: "Authentication error".to_string(),
            },
            KvError::NonTextValue => KvCommandError {
                kind: KvCommandErrorKind::Unknown,
                message: "An unknown error occurred".to_string(),
            },
            KvError::Transport(_) => KvCommandError {
                kind: KvCommandErrorKind::Unknown,
                message: "A network error occurred".to_string(),
            },
            KvError::Unknown(_) => KvCommandError {
                kind: KvCommandErrorKind::Unknown,
                message: "An unknown error occurred".to_string(),
            },
        }
    }
}

impl vstd::std_specs::convert::FromSpecImpl<KvError> for KvCommandError {
    /// The conversion is stated by the contract of `from`, over the texts
    /// of the error and of the result.
    open spec fn obeys_from_spec() -> bool {
        false
    }

    open spec fn from_spec(error: KvError) -> Self {
        choose|told: KvCommandError|
            told.kind == told_kind(error@) && told.message@ == told_message(error@)
    }
}

} // verus!
