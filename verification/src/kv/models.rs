//! Key-value items as the user interface lists them.

use crate::authentication::models::{
    AuthenticationError, AuthenticationErrorView, ResponseInfo,
};
use crate::cloudflare::common::{no_errors_message, ApiError};
use vstd::prelude::*;

verus! {

#[derive(Debug, PartialEq, Clone)]
pub struct KvNamespace {
    pub id: String,
    pub title: String,
    pub supports_url_encoding: Option<bool>,
}

/// What can go wrong with listing or reading items.
#[derive(Debug, PartialEq, Clone)]
pub enum KvError {
    NamespaceNotFound,
    KeyNotFound,
    Authentication(AuthenticationError),
    /// The request could not be sent or the response could not be read.
    Transport(String),
    Unknown(String),
}

/// A `KvError` with its texts as plain characters.
pub enum KvErrorView {
    NamespaceNotFound,
    KeyNotFound,
    Authentication(AuthenticationErrorView),
    Transport(Seq<char>),
    Unknown(Seq<char>),
}

impl View for KvError {
    type V = KvErrorView;

    open spec fn view(&self) -> KvErrorView {
        match self {
            KvError::NamespaceNotFound => KvErrorView::NamespaceNotFound,
            KvError::KeyNotFound => KvErrorView::KeyNotFound,
            KvError::Authentication(e) => KvErrorView::Authentication(e@),
            KvError::Transport(m) => KvErrorView::Transport(m@),
            KvError::Unknown(m) => KvErrorView::Unknown(m@),
        }
    }
}

/// The error that a list of wire errors stands for. Only the first one
/// counts; an empty list is an error of its own.
pub open spec fn item_error_for(errors: Seq<ApiError>) -> KvErrorView {
    if errors.len() == 0 {
        KvErrorView::Unknown(no_errors_message())
    } else {
        let code = errors[0].code;
        if code == 10000 || code == 10001 {
            KvErrorView::Authentication(AuthenticationErrorView::InvalidToken)
        } else if code == 10009 {
            KvErrorView::KeyNotFound
        } else if code == 10013 {
            KvErrorView::NamespaceNotFound
        } else {
            KvErrorView::Unknown(errors[0].message@)
        }
    }
}

/// Turns the wire errors of a failure into the one error that they stand
/// for.
pub fn map_api_errors(errors: Vec<ApiError>) -> (error: KvError)
    ensures
        error@ == item_error_for(errors@),
{
    if errors.len() == 0 {
        return KvError::Unknown("No errors in the response.".to_string());
    }
    let error = &errors[0];
    let code = error.code;
    if code == 10000 || code == 10001 {
        KvError::Authentication(AuthenticationError::InvalidToken)
    } else if code == 10009 {
        KvError::KeyNotFound
    } else if code == 10013 {
        KvError::NamespaceNotFound
    } else {
        KvError::Unknown(error.message.clone())
    }
}

/// A response envelope with offset pagination, every part optional.
#[derive(Debug, Clone)]
pub struct PagePaginationArray<T> {
    pub success: bool,
    pub result: Option<T>,
    pub errors: Vec<ResponseInfo>,
    pub result_info: Option<PaginationInfo>,
}

#[derive(Debug, Clone)]
pub struct PaginationInfo {
    pub total_count: Option<u32>,
    pub count: Option<u32>,
    pub page: Option<u32>,
    pub per_page: Option<u32>,
}

#[derive(Debug, Clone, PartialEq)]
pub struct KvItems {
    pub items: Vec<KvItem>,
    pub cursor: Option<String>,
}

/// A key with a text value. The expiration is in milliseconds since the
/// Unix epoch.
#[derive(Debug, Clone, PartialEq)]
pub struct KvItem {
    pub key: String,
    pub value: String,
    pub expiration: Option<i64>,
}

#[derive(Debug, Clone, PartialEq)]
pub struct KvKeys {
    pub keys: Vec<KvKey>,
    pub cursor: Option<String>,
}

/// A key of a listing. The expiration is in milliseconds since the Unix
/// epoch.
#[derive(Debug, Clone, PartialEq)]
pub struct KvKey {
    pub name: String,
    pub expiration: Option<i64>,
}

#[derive(Debug)]
pub struct GetKvItemsInput<'a> {
    pub namespace_id: &'a str,
    pub cursor: Option<String>,
}

#[derive(Debug)]
pub struct GetKvItemInput<'a> {
    pub namespace_id: &'a str,
    pub key: &'a str,
}

#[derive(Debug)]
pub struct GetKeysInput<'a> {
    pub namespace_id: &'a str,
    pub cursor: Option<String>,
}

pub struct GetKeyValueInput<'a> {
    pub namespace_id: &'a str,
    pub key: &'a str,
}

/// A text value to store under a key. The expiration is in seconds since
/// the Unix epoch.
pub struct SetKvItemInput<'a> {
    pub namespace_id: &'a str,
    pub key: &'a str,
    pub value: &'a str,
    pub expiration: Option<i64>,
}

} // verus!
