//! The values that the key-value operations take and return.

use crate::cloudflare::common::{
    has_name, lemma_new_name_keeps_names_apart, names_occur_once, optional_pair, pairs_view,
    push_optional, ApiCursorPaginatedResponse, ApiPaginatedResponse,
    ApiResponse, OrderDirection, PageInfo, Pairs, TokenError, TokenErrorView,
};
use crate::text::{
    decimal, i64_to_string, parse_i64, parsed_i64, signed_decimal, u32_to_string,
};
use std::collections::HashMap;
use vstd::prelude::*;

verus! {

/// A JSON value, carried as it came.
#[verifier::external_type_specification]
#[verifier::external_body]
pub struct ExJsonValue(serde_json::Value);

/// The failure of a JSON serialisation.
#[verifier::external_type_specification]
#[verifier::external_body]
pub struct ExJsonError(serde_json::Error);

/// `Clone` for `serde_json::Value`: the copy is the same JSON value.
pub assume_specification[ <serde_json::Value as Clone>::clone ](
    value: &serde_json::Value,
) -> (copy: serde_json::Value)
    ensures
        copy == *value,
;

/// The text of a JSON value that is a string; nothing for any other value.
pub uninterp spec fn json_text(value: serde_json::Value) -> Option<Seq<char>>;

/// The first second of the earliest date that can be held, in seconds
/// since the Unix epoch.
pub const MIN_TIMESTAMP: i64 = -8334601228800;

/// The last second of the latest date that can be held, in seconds since
/// the Unix epoch.
pub const MAX_TIMESTAMP: i64 = 8210266876799;

/// Whether a number of seconds since the Unix epoch makes a date that can
/// be held: one from the first second of the earliest date to the last second
/// of the latest.
pub open spec fn timestamp_in_range(secs: i64) -> bool {
    MIN_TIMESTAMP <= secs <= MAX_TIMESTAMP
}

/// `serde_json::Value::as_str`: the text where the value is a JSON string,
/// nothing where it is anything else.
#[verifier::external_body]
pub(crate) fn json_as_str(value: &serde_json::Value) -> (text: Option<&str>)
    ensures
        match text {
            Some(t) => json_text(*value) == Some(t@),
            None => json_text(*value) is None,
        },
{
    value.as_str()
}

/// Whether a text has the shape of a JSON object: it opens with a brace
/// and closes with one.
pub open spec fn is_object_text(text: Seq<char>) -> bool {
    text.len() >= 2 && text[0] == '{' && text[text.len() - 1] == '}'
}

/// `serde_json::to_string` on a metadata object: its JSON text, or the
/// serialiser's error. The text is that of an object, between braces. The
/// members come out in the order in which the map is walked, so nothing
/// more is said of the text.
#[verifier::external_body]
pub(crate) fn metadata_to_json(metadata: &HashMap<String, serde_json::Value>) -> (text: Result<
    String,
    serde_json::Error,
>)
    ensures
        text is Ok ==> is_object_text(text->Ok_0@),
{
    serde_json::to_string(metadata)
}

/// `chrono::DateTime::from_timestamp` with no nanoseconds: whether the
/// seconds make a date within the calendar's range, which runs from
/// `DateTime::<Utc>::MIN_UTC` to `DateTime::<Utc>::MAX_UTC`.
#[verifier::external_body]
pub(crate) fn is_timestamp_in_range(secs: i64) -> (ok: bool)
    ensures
        ok == timestamp_in_range(secs),
{
    chrono::DateTime::from_timestamp(secs, 0).is_some()
}

#[derive(Debug, PartialEq, Clone)]
pub enum KvNamespacesOrderBy {
    Id,
    Title,
}

impl KvNamespacesOrderBy {
    /// The word that stands for the ordering field in a query string.
    pub open spec fn text(self) -> Seq<char> {
        match self {
            KvNamespacesOrderBy::Id => "id"@,
            KvNamespacesOrderBy::Title => "title"@,
        }
    }

    pub fn to_string(&self) -> (text: String)
        ensures
            text@ == self.text(),
    {
        match self {
            KvNamespacesOrderBy::Id => "id".to_string(),
            KvNamespacesOrderBy::Title => "title".to_string(),
        }
    }
}

#[derive(Debug, PartialEq, Clone, Default)]
pub struct KvNamespacesListInput {
    pub account_id: String,
    pub order_by: Option<KvNamespacesOrderBy>,
    pub order_direction: Option<OrderDirection>,
    pub page: Option<u32>,
    pub per_page: Option<u32>,
}

/// The numeral of a number that is there.
pub open spec fn optional_decimal(n: Option<u32>) -> Option<Seq<char>> {
    match n {
        Some(n) => Some(decimal(n as nat)),
        None => None,
    }
}

impl KvNamespacesListInput {
    /// The query of a namespace listing: each filter that is set, under its
    /// name, and nothing for the others.
    pub open spec fn query_pairs(self) -> Pairs {
        optional_pair(
            "order"@,
            match self.order_by {
                Some(o) => Some(o.text()),
                None => None,
            },
        ) + optional_pair(
            "direction"@,
            match self.order_direction {
                Some(d) => Some(d.text()),
                None => None,
            },
        ) + optional_pair("page"@, optional_decimal(self.page)) + optional_pair(
            "per_page"@,
            optional_decimal(self.per_page),
        )
    }

    /// No filter is sent twice.
    pub proof fn lemma_query_names_occur_once(self)
        ensures
            names_occur_once(self.query_pairs()),
    {
        reveal_strlit("order");
        reveal_strlit("direction");
        reveal_strlit("page");
        reveal_strlit("per_page");
        let order = optional_pair(
            "order"@,
            match self.order_by {
                Some(o) => Some(o.text()),
                None => None,
            },
        );
        let direction = match self.order_direction {
            Some(d) => Some(d.text()),
            None => None,
        };
        let none = Seq::<(Seq<char>, Seq<char>)>::empty();
        assert(none + order =~= order);
        lemma_new_name_keeps_names_apart(
            none,
            "order"@,
            match self.order_by {
                Some(o) => Some(o.text()),
                None => None,
            },
        );
        assert("order"@.len() == 5 && "direction"@.len() == 9 && "page"@.len() == 4
            && "per_page"@.len() == 8);
        assert(!has_name(none, "order"@));
        assert(!has_name(order, "direction"@)) by {
            if has_name(none + order, "direction"@) {
                assert(has_name(none, "direction"@) || "direction"@ == "order"@);
            }
        }
        lemma_new_name_keeps_names_apart(order, "direction"@, direction);
        let two = order + optional_pair("direction"@, direction);
        assert(!has_name(two, "page"@)) by {
            if has_name(two, "page"@) {
                assert(has_name(order, "page"@) || "page"@ == "direction"@);
                assert(has_name(none + order, "page"@));
                assert(has_name(none, "page"@) || "page"@ == "order"@);
            }
        }
        lemma_new_name_keeps_names_apart(two, "page"@, optional_decimal(self.page));
        let three = two + optional_pair("page"@, optional_decimal(self.page));
        assert(!has_name(three, "per_page"@)) by {
            if has_name(three, "per_page"@) {
                assert(has_name(two, "per_page"@) || "per_page"@ == "page"@);
                assert(has_name(order, "per_page"@) || "per_page"@ == "direction"@);
                assert(has_name(none + order, "per_page"@));
                assert(has_name(none, "per_page"@) || "per_page"@ == "order"@);
            }
        }
        lemma_new_name_keeps_names_apart(three, "per_page"@, optional_decimal(self.per_page));
    }

    /// Turns the filters into query parameters.
    pub fn query_parameters(&self) -> (query: Vec<(String, String)>)
        ensures
            pairs_view(query@) == self.query_pairs(),
            names_occur_once(pairs_view(query@)),
    {
        proof {
            self.lemma_query_names_occur_once();
        }
        let mut query: Vec<(String, String)> = Vec::new();
        assert(pairs_view(query@) =~= Seq::<(Seq<char>, Seq<char>)>::empty());
        let order = match &self.order_by {
            Some(o) => Some(o.to_string()),
            None => None,
        };
        push_optional(&mut query, "order", order);
        let direction = match &self.order_direction {
            Some(d) => Some(d.to_string()),
            None => None,
        };
        push_optional(&mut query, "direction", direction);
        push_optional(&mut query, "page", optional_number(self.page));
        push_optional(&mut query, "per_page", optional_number(self.per_page));
        assert(pairs_view(query@) =~= self.query_pairs());
        query
    }
}

/// The numeral of a number that is there.
pub fn optional_number(n: Option<u32>) -> (text: Option<String>)
    ensures
        match text {
            Some(t) => optional_decimal(n) == Some(t@),
            None => optional_decimal(n) is None,
        },
{
    match n {
        Some(n) => Some(u32_to_string(n)),
        None => None,
    }
}

#[derive(Debug, PartialEq, Clone)]
pub struct KvNamespaces {
    pub items: Vec<KvNamespace>,
    pub page_info: PageInfo,
}

impl From<ApiPaginatedResponse<Vec<KvNamespace>>> for KvNamespaces {
    fn from(value: ApiPaginatedResponse<Vec<KvNamespace>>) -> (namespaces: Self)
    {
        KvNamespaces { items: value.result, page_info: value.result_info }
    }
}

impl vstd::std_specs::convert::FromSpecImpl<ApiPaginatedResponse<Vec<KvNamespace>>> for KvNamespaces {
    open spec fn obeys_from_spec() -> bool {
        true
    }

    open spec fn from_spec(value: ApiPaginatedResponse<Vec<KvNamespace>>) -> Self {
        KvNamespaces { items: value.result, page_info: value.result_info }
    }
}

#[derive(Debug, PartialEq, Clone)]
pub struct KvNamespace {
    pub id: String,
    pub title: String,
    pub beta: Option<bool>,
    pub supports_url_encoding: Option<bool>,
}


impl From<ApiResponse<KvNamespace>> for KvNamespace {
    fn from(value: ApiResponse<KvNamespace>) -> (namespace: Self)
    {
        value.result
    }
}

impl vstd::std_specs::convert::FromSpecImpl<ApiResponse<KvNamespace>> for KvNamespace {
    open spec fn obeys_from_spec() -> bool {
        true
    }

    open spec fn from_spec(value: ApiResponse<KvNamespace>) -> Self {
        value.result
    }
}

#[derive(Debug, PartialEq, Clone)]
pub struct KvNamespaceGetInput {
    pub account_id: String,
    pub namespace_id: String,
}

#[derive(Debug, PartialEq, Clone)]
pub struct KvNamespaceCreateInput {
    pub account_id: String,
    pub title: String,
}

#[derive(Debug, PartialEq, Clone)]
pub struct KvNamespaceUpdateInput {
    pub account_id: String,
    pub namespace_id: String,
    pub title: String,
}

#[derive(Debug, PartialEq, Clone)]
pub struct KvNamespaceDeleteInput {
    pub account_id: String,
    pub namespace_id: String,
}

/// One page of a key listing, with the cursor of the next page if there is
/// one.
#[derive(Debug, Clone, PartialEq)]
pub struct KvKeys {
    pub keys: Vec<KvKey>,
    pub count: usize,
    pub cursor: Option<String>,
}

impl From<ApiCursorPaginatedResponse<Vec<KvKey>>> for KvKeys {
    fn from(value: ApiCursorPaginatedResponse<Vec<KvKey>>) -> (keys: Self)
    {
        KvKeys {
            keys: value.result,
            count: value.result_info.count,
            cursor: value.result_info.cursor,
        }
    }
}

impl vstd::std_specs::convert::FromSpecImpl<ApiCursorPaginatedResponse<Vec<KvKey>>> for KvKeys {
    open spec fn obeys_from_spec() -> bool {
        true
    }

    open spec fn from_spec(value: ApiCursorPaginatedResponse<Vec<KvKey>>) -> Self {
        KvKeys {
            keys: value.result,
            count: value.result_info.count,
            cursor: value.result_info.cursor,
        }
    }
}

/// An entry of a key listing. It does not carry the value. The expiration
/// is in seconds since the Unix epoch.
#[derive(Debug, Clone, PartialEq)]
pub struct KvKey {
    pub name: String,
    pub metadata: Option<serde_json::Value>,
    pub expiration: Option<i64>,
}

#[derive(Debug, PartialEq, Clone)]
pub struct KvKeysListInput {
    pub account_id: String,
    pub namespace_id: String,
    pub cursor: Option<String>,
    pub limit: Option<u32>,
    pub prefix: Option<String>,
}

/// The page size that a key listing asks for: a thousand where none is
/// given, ten where less than ten is given, else what is given.
pub open spec fn effective_limit(limit: Option<u32>) -> u32 {
    match limit {
        None => 1000,
        Some(l) => if l < 10 {
            10
        } else {
            l
        },
    }
}

impl KvKeysListInput {
    /// The query of a key listing: the page size, always; cursor and prefix
    /// as they are given, where they are given.
    pub open spec fn query_pairs(self) -> Pairs {
        seq![("limit"@, decimal(effective_limit(self.limit) as nat))] + optional_pair(
            "cursor"@,
            match self.cursor {
                Some(c) => Some(c@),
                None => None,
            },
        ) + optional_pair(
            "prefix"@,
            match self.prefix {
                Some(p) => Some(p@),
                None => None,
            },
        )
    }

    /// The page size that the listing asks for.
    pub fn clamped_limit(&self) -> (limit: u32)
        ensures
            limit == effective_limit(self.limit),
            limit >= 10,
            self.limit is None ==> limit == 1000,
            self.limit is Some && self.limit->0 >= 10 ==> limit == self.limit->0,
            self.limit is Some && self.limit->0 < 10 ==> limit == 10,
    {
        match self.limit {
            None => 1000,
            Some(l) => if l < 10 {
                10
            } else {
                l
            },
        }
    }

    /// No parameter is sent twice.
    pub proof fn lemma_query_names_occur_once(self)
        ensures
            names_occur_once(self.query_pairs()),
    {
        reveal_strlit("limit");
        reveal_strlit("cursor");
        reveal_strlit("prefix");
        let limit = seq![("limit"@, decimal(effective_limit(self.limit) as nat))];
        let cursor = match self.cursor {
            Some(c) => Some(c@),
            None => None,
        };
        let prefix = match self.prefix {
            Some(p) => Some(p@),
            None => None,
        };
        assert("cursor"@[0] != "prefix"@[0]);
        lemma_new_name_keeps_names_apart(limit, "cursor"@, cursor);
        lemma_new_name_keeps_names_apart(limit + optional_pair("cursor"@, cursor), "prefix"@, prefix);
    }

    /// Turns the listing's filters into query parameters.
    pub fn query_parameters(self) -> (query: Vec<(String, String)>)
        ensures
            pairs_view(query@) == self.query_pairs(),
            names_occur_once(pairs_view(query@)),
    {
        proof {
            self.lemma_query_names_occur_once();
        }
        let mut query: Vec<(String, String)> = Vec::new();
        let limit = u32_to_string(self.clamped_limit());
        let ghost limit_text = limit@;
        query.push(("limit".to_string(), limit));
        assert(pairs_view(query@) =~= seq![("limit"@, limit_text)]);
        push_optional(&mut query, "cursor", self.cursor);
        push_optional(&mut query, "prefix", self.prefix);
        query
    }
}

#[derive(Debug, Clone, PartialEq)]
pub struct KvPairGetInput {
    pub account_id: String,
    pub namespace_id: String,
    pub key: String,
}

#[derive(Debug, Clone, PartialEq)]
pub struct KvPairsGetInput {
    pub account_id: String,
    pub namespace_id: String,
    pub keys: Vec<String>,
}

#[derive(Debug, Clone, PartialEq)]
pub struct KvValuesGetInput {
    pub account_id: String,
    pub namespace_id: String,
    pub keys: Vec<String>,
    pub value_type: Option<KvValueType>,
    pub with_metadata: Option<bool>,
}

impl KvValuesGetInput {
    /// Whether the read asks for values with their metadata, and so which
    /// of the two result shapes comes back.
    pub fn wants_metadata(&self) -> (wanted: bool)
        ensures
            wanted == (self.with_metadata == Some(true)),
    {
        match self.with_metadata {
            Some(with_metadata) => with_metadata,
            None => false,
        }
    }
}

impl From<KvPairsGetInput> for KvValuesGetInput {
    fn from(value: KvPairsGetInput) -> (input: Self)
    {
        KvValuesGetInput {
            account_id: value.account_id,
            namespace_id: value.namespace_id,
            keys: value.keys,
            value_type: Some(KvValueType::Text),
            with_metadata: Some(true),
        }
    }
}

impl vstd::std_specs::convert::FromSpecImpl<KvPairsGetInput> for KvValuesGetInput {
    open spec fn obeys_from_spec() -> bool {
        true
    }

    open spec fn from_spec(value: KvPairsGetInput) -> Self {
        KvValuesGetInput {
            account_id: value.account_id,
            namespace_id: value.namespace_id,
            keys: value.keys,
            value_type: Some(KvValueType::Text),
            with_metadata: Some(true),
        }
    }
}

#[derive(Debug, Clone, PartialEq)]
pub enum KvValueType {
    Text,
    Json,
}

/// What a bulk read returns: bare values, or values with their metadata.
#[derive(Debug, Clone, PartialEq)]
pub enum KvValuesResult {
    Raw(KvValuesRaw),
    WithMetadata(KvValues),
}

/// The members of a bulk read's result object, each a key and its value,
/// in the order in which they were taken out of the object.
#[derive(Debug, Clone, PartialEq)]
pub struct KvValuesRaw {
    pub values: Vec<(String, serde_json::Value)>,
}

impl From<ApiResponse<KvValuesRaw>> for KvValuesRaw {
    fn from(response: ApiResponse<KvValuesRaw>) -> (values: Self)
    {
        response.result
    }
}

impl vstd::std_specs::convert::FromSpecImpl<ApiResponse<KvValuesRaw>> for KvValuesRaw {
    open spec fn obeys_from_spec() -> bool {
        true
    }

    open spec fn from_spec(response: ApiResponse<KvValuesRaw>) -> Self {
        response.result
    }
}

/// The members of a bulk read's result object, each a key and its value
/// with metadata, in the order in which they were taken out of the object.
#[derive(Debug, Clone, PartialEq)]
pub struct KvValues {
    pub values: Vec<(String, KvValue)>,
}

impl From<ApiResponse<KvValues>> for KvValues {
    fn from(response: ApiResponse<KvValues>) -> (values: Self)
    {
        response.result
    }
}

impl vstd::std_specs::convert::FromSpecImpl<ApiResponse<KvValues>> for KvValues {
    open spec fn obeys_from_spec() -> bool {
        true
    }

    open spec fn from_spec(response: ApiResponse<KvValues>) -> Self {
        response.result
    }
}

#[derive(Debug, Clone, PartialEq)]
pub struct KvValue {
    pub value: serde_json::Value,
    pub metadata: KvPairMetadata,
    pub expiration: Option<i64>,
}

/// A key with its value. The value is any run of bytes, text or not. The
/// expiration is in seconds since the Unix epoch.
#[derive(Debug, Clone, PartialEq)]
pub struct KvPair {
    pub key: String,
    pub value: Vec<u8>,
    pub metadata: KvPairMetadata,
    pub expiration: Option<i64>,
}

/// A `KvPair` with its key and value as plain sequences.
pub struct KvPairView {
    pub key: Seq<char>,
    pub value: Seq<u8>,
    pub metadata: KvPairMetadata,
    pub expiration: Option<i64>,
}

impl KvPair {
    /// Whether the expiration, where there is one, is a date within range.
    pub open spec fn well_formed(self) -> bool {
        expiration_in_range(self.expiration)
    }

    /// Whether the expiration, where there is one, is a date within range.
    pub fn is_well_formed(&self) -> (valid: bool)
        ensures
            valid == self.well_formed(),
    {
        is_expiration_in_range(self.expiration)
    }
}

/// Whether every pair is well formed and no key stands twice.
pub open spec fn pairs_well_formed(pairs: Seq<KvPair>) -> bool {
    &&& forall|i: int| 0 <= i < pairs.len() ==> (#[trigger] pairs[i]).well_formed()
    &&& forall|i: int, j: int|
        0 <= i < j < pairs.len() ==> (#[trigger] pairs[i]).key@ != (#[trigger] pairs[j]).key@
}

impl KvValue {
    /// Whether the expiration, where there is one, is a date within range.
    pub open spec fn well_formed(self) -> bool {
        expiration_in_range(self.expiration)
    }
}

impl KvKey {
    /// Whether the expiration, where there is one, is a date within range.
    pub open spec fn well_formed(self) -> bool {
        expiration_in_range(self.expiration)
    }
}

impl KvValues {
    /// Whether no key stands twice, as in the object that the members were
    /// taken from.
    pub open spec fn keys_occur_once(self) -> bool {
        forall|i: int, j: int|
            0 <= i < j < self.values@.len() ==> (#[trigger] self.values@[i]).0@ != (
            #[trigger] self.values@[j]).0@
    }

    /// Whether no key stands twice and every value is well formed.
    pub open spec fn well_formed(self) -> bool {
        &&& self.keys_occur_once()
        &&& forall|i: int|
            0 <= i < self.values@.len() ==> (#[trigger] self.values@[i]).1.well_formed()
    }
}

impl KvValuesRaw {
    /// Whether no key stands twice, as in the object that the members were
    /// taken from.
    pub open spec fn keys_occur_once(self) -> bool {
        forall|i: int, j: int|
            0 <= i < j < self.values@.len() ==> (#[trigger] self.values@[i]).0@ != (
            #[trigger] self.values@[j]).0@
    }
}

impl KvPairCreateInput {
    /// Whether the expiration, where there is one, is a date within range.
    pub open spec fn well_formed(self) -> bool {
        expiration_in_range(self.expiration)
    }

    /// Whether the expiration, where there is one, is a date within range.
    pub fn is_well_formed(&self) -> (valid: bool)
        ensures
            valid == self.well_formed(),
    {
        is_expiration_in_range(self.expiration)
    }
}

impl View for KvPair {
    type V = KvPairView;

    open spec fn view(&self) -> KvPairView {
        KvPairView {
            key: self.key@,
            value: self.value@,
            metadata: self.metadata,
            expiration: self.expiration,
        }
    }
}

/// The metadata of a pair: a JSON object, member by member, or none.
pub type KvPairMetadata = Option<HashMap<String, serde_json::Value>>;

/// What the value endpoint answers on success: the text of the expiration
/// header, where there is one that is text, and the body.
#[derive(Debug, Clone, PartialEq)]
pub struct KvValueResponse {
    pub expiration: Option<String>,
    pub body: Vec<u8>,
}

impl From<ApiResponse<KvPairMetadata>> for KvPairMetadata {
    fn from(response: ApiResponse<KvPairMetadata>) -> (metadata: Self)
    {
        response.result
    }
}

impl vstd::std_specs::convert::FromSpecImpl<ApiResponse<KvPairMetadata>> for KvPairMetadata {
    open spec fn obeys_from_spec() -> bool {
        true
    }

    open spec fn from_spec(response: ApiResponse<KvPairMetadata>) -> Self {
        response.result
    }
}

impl From<KvPairGetInput> for KvPairMetadataGetInput {
    fn from(value: KvPairGetInput) -> (input: Self)
    {
        KvPairMetadataGetInput {
            account_id: value.account_id,
            namespace_id: value.namespace_id,
            key: value.key,
        }
    }
}

impl vstd::std_specs::convert::FromSpecImpl<KvPairGetInput> for KvPairMetadataGetInput {
    open spec fn obeys_from_spec() -> bool {
        true
    }

    open spec fn from_spec(value: KvPairGetInput) -> Self {
        KvPairMetadataGetInput {
            account_id: value.account_id,
            namespace_id: value.namespace_id,
            key: value.key,
        }
    }
}

#[derive(Debug, Clone, PartialEq)]
pub struct KvPairMetadataGetInput {
    pub account_id: String,
    pub namespace_id: String,
    pub key: String,
}

#[derive(Debug, Clone, PartialEq)]
pub struct KvPairCreateInput {
    pub account_id: String,
    pub namespace_id: String,
    pub key: String,
    pub value: Option<Vec<u8>>,
    pub expiration: Option<i64>,
    pub expiration_ttl: Option<u32>,
    pub metadata: KvPairMetadata,
}

impl From<&KvPairCreateInput> for KvPairGetInput {
    /// The read that probes whether the key is already there.
    fn from(input: &KvPairCreateInput) -> (probe: Self)
    {
        KvPairGetInput {
            account_id: input.account_id.clone(),
            namespace_id: input.namespace_id.clone(),
            key: input.key.clone(),
        }
    }
}

impl vstd::std_specs::convert::FromSpecImpl<&KvPairCreateInput> for KvPairGetInput {
    open spec fn obeys_from_spec() -> bool {
        true
    }

    open spec fn from_spec(input: &KvPairCreateInput) -> Self {
        KvPairGetInput {
            account_id: input.account_id,
            namespace_id: input.namespace_id,
            key: input.key,
        }
    }
}

impl From<KvPairCreateInput> for KvPairWriteInput {
    fn from(value: KvPairCreateInput) -> (input: Self)
    {
        KvPairWriteInput {
            account_id: value.account_id,
            namespace_id: value.namespace_id,
            key: value.key,
            value: value.value,
            expiration: value.expiration,
            expiration_ttl: value.expiration_ttl,
            metadata: value.metadata,
        }
    }
}

impl vstd::std_specs::convert::FromSpecImpl<KvPairCreateInput> for KvPairWriteInput {
    open spec fn obeys_from_spec() -> bool {
        true
    }

    open spec fn from_spec(value: KvPairCreateInput) -> Self {
        KvPairWriteInput {
            account_id: value.account_id,
            namespace_id: value.namespace_id,
            key: value.key,
            value: value.value,
            expiration: value.expiration,
            expiration_ttl: value.expiration_ttl,
            metadata: value.metadata,
        }
    }
}

#[derive(Debug, Clone, PartialEq)]
pub struct KvPairWriteInput {
    pub account_id: String,
    pub namespace_id: String,
    pub key: String,
    pub value: Option<Vec<u8>>,
    pub expiration: Option<i64>,
    pub expiration_ttl: Option<u32>,
    pub metadata: KvPairMetadata,
}

impl KvPairWriteInput {
    /// The bytes that are written: the value, or none where there is none.
    pub open spec fn written_value(self) -> Seq<u8> {
        match self.value {
            Some(v) => v@,
            None => Seq::empty(),
        }
    }

    /// The pair that a write stores.
    pub open spec fn written_pair(self) -> KvPairView {
        KvPairView {
            key: self.key@,
            value: self.written_value(),
            metadata: self.metadata,
            expiration: self.expiration,
        }
    }

    /// The query of a write: expiration and time to live, each where it
    /// is given, whether or not the other is.
    pub open spec fn query_pairs(self) -> Pairs {
        optional_pair(
            "expiration"@,
            match self.expiration {
                Some(e) => Some(signed_decimal(e as int)),
                None => None,
            },
        ) + optional_pair("expiration_ttl"@, optional_decimal(self.expiration_ttl))
    }

    /// Whether the expiration, where there is one, is a date within range.
    /// A pair that is read never holds any other.
    pub open spec fn well_formed(self) -> bool {
        expiration_in_range(self.expiration)
    }

    /// Whether the expiration, where there is one, is a date within range.
    pub fn is_well_formed(&self) -> (valid: bool)
        ensures
            valid == self.well_formed(),
    {
        is_expiration_in_range(self.expiration)
    }

    /// Neither parameter is sent twice.
    pub proof fn lemma_query_names_occur_once(self)
        ensures
            names_occur_once(self.query_pairs()),
    {
        reveal_strlit("expiration");
        reveal_strlit("expiration_ttl");
        let expiration = match self.expiration {
            Some(e) => Some(signed_decimal(e as int)),
            None => None,
        };
        let none = Seq::<(Seq<char>, Seq<char>)>::empty();
        assert(none + optional_pair("expiration"@, expiration) =~= optional_pair(
            "expiration"@,
            expiration,
        ));
        assert("expiration"@.len() == 10 && "expiration_ttl"@.len() == 14);
        assert(!has_name(none, "expiration"@));
        lemma_new_name_keeps_names_apart(none, "expiration"@, expiration);
        assert(!has_name(optional_pair("expiration"@, expiration), "expiration_ttl"@)) by {
            if has_name(none + optional_pair("expiration"@, expiration), "expiration_ttl"@) {
                assert(has_name(none, "expiration_ttl"@) || "expiration_ttl"@ == "expiration"@);
            }
        }
        lemma_new_name_keeps_names_apart(
            optional_pair("expiration"@, expiration),
            "expiration_ttl"@,
            optional_decimal(self.expiration_ttl),
        );
    }

    /// Turns expiration and time to live into query parameters.
    pub fn query_parameters(&self) -> (query: Vec<(String, String)>)
        ensures
            pairs_view(query@) == self.query_pairs(),
            names_occur_once(pairs_view(query@)),
    {
        proof {
            self.lemma_query_names_occur_once();
        }
        let mut query: Vec<(String, String)> = Vec::new();
        assert(pairs_view(query@) =~= Seq::<(Seq<char>, Seq<char>)>::empty());
        let expiration = match self.expiration {
            Some(e) => Some(i64_to_string(e)),
            None => None,
        };
        push_optional(&mut query, "expiration", expiration);
        push_optional(&mut query, "expiration_ttl", optional_number(self.expiration_ttl));
        assert(pairs_view(query@) =~= self.query_pairs());
        query
    }
}

#[derive(Debug, Clone, PartialEq)]
pub struct KvPairsDeleteInput {
    pub account_id: String,
    pub namespace_id: String,
    pub keys: Vec<String>,
}

/// The outcome of a bulk delete. It is a record of partial success, not an
/// error: the keys that could not be deleted are listed.
#[derive(Debug, Clone, PartialEq)]
pub struct KvPairsDeleteResult {
    pub successful_key_count: u32,
    pub unsuccessful_keys: Vec<String>,
}

impl From<ApiResponse<KvPairsDeleteResult>> for KvPairsDeleteResult {
    fn from(response: ApiResponse<KvPairsDeleteResult>) -> (result: Self)
    {
        response.result
    }
}

impl vstd::std_specs::convert::FromSpecImpl<ApiResponse<KvPairsDeleteResult>> for KvPairsDeleteResult {
    open spec fn obeys_from_spec() -> bool {
        true
    }

    open spec fn from_spec(response: ApiResponse<KvPairsDeleteResult>) -> Self {
        response.result
    }
}

/// What can go wrong with a key-value operation.
#[derive(Debug, PartialEq, Clone)]
pub enum KvError {
    NamespaceAlreadyExists(String),
    NamespaceNotFound,
    NamespaceTitleMissing(String),
    KeyNotFound,
    KeyAlreadyExists(String),
    InvalidMetadata,
    InvalidExpiration,
    NonTextValue,
    Token(TokenError),
    /// The request could not be sent or the response could not be read.
    Transport(String),
    Unknown(String),
}

/// A `KvError` with its texts as plain characters.
pub enum KvErrorView {
    NamespaceAlreadyExists(Seq<char>),
    NamespaceNotFound,
    NamespaceTitleMissing(Seq<char>),
    KeyNotFound,
    KeyAlreadyExists(Seq<char>),
    InvalidMetadata,
    InvalidExpiration,
    NonTextValue,
    Token(TokenErrorView),
    Transport(Seq<char>),
    Unknown(Seq<char>),
}

impl View for KvError {
    type V = KvErrorView;

    open spec fn view(&self) -> KvErrorView {
        match self {
            KvError::NamespaceAlreadyExists(m) => KvErrorView::NamespaceAlreadyExists(m@),
            KvError::NamespaceNotFound => KvErrorView::NamespaceNotFound,
            KvError::NamespaceTitleMissing(m) => KvErrorView::NamespaceTitleMissing(m@),
            KvError::KeyNotFound => KvErrorView::KeyNotFound,
            KvError::KeyAlreadyExists(k) => KvErrorView::KeyAlreadyExists(k@),
            KvError::InvalidMetadata => KvErrorView::InvalidMetadata,
            KvError::InvalidExpiration => KvErrorView::InvalidExpiration,
            KvError::NonTextValue => KvErrorView::NonTextValue,
            KvError::Token(e) => KvErrorView::Token(e@),
            KvError::Transport(m) => KvErrorView::Transport(m@),
            KvError::Unknown(m) => KvErrorView::Unknown(m@),
        }
    }
}

/// Whether an expiration, where there is one, is a date within range.
pub open spec fn expiration_in_range(expiration: Option<i64>) -> bool {
    match expiration {
        Some(secs) => timestamp_in_range(secs),
        None => true,
    }
}

/// Whether an expiration, where there is one, is a date within range.
pub fn is_expiration_in_range(expiration: Option<i64>) -> (valid: bool)
    ensures
        valid == expiration_in_range(expiration),
{
    match expiration {
        Some(secs) => is_timestamp_in_range(secs),
        None => true,
    }
}

/// The expiration that an `expiration` response header gives: the number of
/// seconds that it writes in decimal, where it is there, is such a number and
/// is a date within range; none otherwise.
pub open spec fn expiration_of(header: Option<Seq<char>>) -> Option<i64> {
    match header {
        None => None,
        Some(text) => match parsed_i64(text) {
            Some(secs) => if timestamp_in_range(secs) {
                Some(secs)
            } else {
                None
            },
            None => None,
        },
    }
}

/// The expiration for a number of seconds that a header wrote.
pub fn expiration_from_seconds(secs: i64, in_range: bool) -> (expiration: Option<i64>)
    ensures
        expiration == if in_range {
            Some(secs)
        } else {
            None::<i64>
        },
{
    if in_range {
        Some(secs)
    } else {
        None
    }
}

/// Reads the `expiration` response header.
pub fn parse_expiration(header: &Option<String>) -> (expiration: Option<i64>)
    ensures
        expiration == expiration_of(
            match header {
                Some(h) => Some(h@),
                None => None,
            },
        ),
{
    match header {
        None => None,
        Some(text) => match parse_i64(text.as_str()) {
            Some(secs) => expiration_from_seconds(secs, is_timestamp_in_range(secs)),
            None => None,
        },
    }
}

} // verus!
