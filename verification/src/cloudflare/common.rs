//! What every resource client shares: credentials and the headers they turn
//! into, the response envelopes, and the description of a request.

use crate::cloudflare::kv::models::KvValuesGetInput;
use reqwest::header::{HeaderMap, HeaderValue, InvalidHeaderValue};
use vstd::prelude::*;
use vstd::utf8::encode_utf8;

verus! {

/// The production API host, used where no other base URL is given.
pub const API_URL: &'static str = "https://api.cloudflare.com/client/v4";

/// A success envelope with offset pagination.
#[derive(Debug, PartialEq, Clone)]
pub struct ApiPaginatedResponse<T> {
    pub result: T,
    pub result_info: PageInfo,
}

/// A success envelope with cursor pagination.
#[derive(Debug, PartialEq, Clone)]
pub struct ApiCursorPaginatedResponse<T> {
    pub result: T,
    pub result_info: CursorPageInfo,
}

/// A success envelope without pagination.
#[derive(Debug, PartialEq, Clone)]
pub struct ApiResponse<T> {
    pub result: T,
}

/// A failure envelope.
#[derive(Debug, PartialEq, Clone)]
pub struct ApiErrorResponse {
    pub errors: Vec<ApiError>,
}

/// One wire-level error.
#[derive(Debug, PartialEq, Clone)]
pub struct ApiError {
    pub code: u16,
    pub message: String,
}

#[derive(Debug, PartialEq, Clone)]
pub struct PageInfo {
    pub count: usize,
    pub page: usize,
    pub per_page: usize,
    pub total_count: usize,
}

#[derive(Debug, PartialEq, Clone)]
pub struct CursorPageInfo {
    pub count: usize,
    pub cursor: Option<String>,
}

#[derive(Debug, PartialEq, Clone)]
pub enum OrderDirection {
    Asc,
    Desc,
}

impl OrderDirection {
    /// The word that stands for the direction in a query string.
    pub open spec fn text(self) -> Seq<char> {
        match self {
            OrderDirection::Asc => "asc"@,
            OrderDirection::Desc => "desc"@,
        }
    }

    pub fn to_string(&self) -> (text: String)
        ensures
            text@ == self.text(),
    {
        match self {
            OrderDirection::Asc => "asc".to_string(),
            OrderDirection::Desc => "desc".to_string(),
        }
    }
}

/// A list of name and value pairs, as plain character sequences.
pub type Pairs = Seq<(Seq<char>, Seq<char>)>;

/// The pairs that a vector of strings holds.
pub open spec fn pairs_view(pairs: Seq<(String, String)>) -> Pairs {
    Seq::new(pairs.len(), |i: int| (pairs[i].0@, pairs[i].1@))
}

/// A set of HTTP headers.
#[verifier::external_type_specification]
#[verifier::external_body]
#[verifier::reject_recursive_types(T)]
pub struct ExHeaderMap<T>(reqwest::header::HeaderMap<T>);

/// The value of one HTTP header.
#[verifier::external_type_specification]
#[verifier::external_body]
pub struct ExHeaderValue(reqwest::header::HeaderValue);

/// The refusal of a text that cannot be the value of a header.
#[verifier::external_type_specification]
#[verifier::external_body]
pub struct ExInvalidHeaderValue(reqwest::header::InvalidHeaderValue);

/// What a set of headers holds: under each name, in lower case, the bytes
/// of every value of that name, in their order.
pub uninterp spec fn header_entries(headers: HeaderMap) -> Map<Seq<char>, Seq<Seq<u8>>>;

/// The number of names in a set of headers: what `HeaderMap::keys_len`
/// gives. `HeaderMap::len` counts values, so it is this number exactly
/// where every name holds one value, and more where a name holds several.
pub uninterp spec fn header_count(headers: HeaderMap) -> nat;

/// The bytes of a header's value.
pub uninterp spec fn header_value_bytes(value: HeaderValue) -> Seq<u8>;

/// Whether a byte can stand in the value of a header: anything but the
/// control characters, the tab excepted.
pub open spec fn is_header_value_byte(byte: u8) -> bool {
    byte >= 32 && byte != 127 || byte == 9
}

/// Whether a text can be the value of a header.
pub open spec fn is_header_value(text: Seq<char>) -> bool {
    forall|i: int|
        0 <= i < encode_utf8(text).len() ==> is_header_value_byte(#[trigger] encode_utf8(text)[i])
}

/// A letter in lower case; any other character as it is.
pub open spec fn lower_char(c: char) -> char {
    if 'A' <= c <= 'Z' {
        ((c as u8) + 32) as char
    } else {
        c
    }
}

/// A text with its letters in lower case.
pub open spec fn lower_case(text: Seq<char>) -> Seq<char> {
    Seq::new(text.len(), |i: int| lower_char(text[i]))
}

/// Whether a text is a header name made of letters, digits and hyphens,
/// and short.
pub open spec fn is_plain_header_name(name: Seq<char>) -> bool {
    &&& 0 < name.len() <= 64
    &&& forall|i: int|
        0 <= i < name.len() ==> {
            let c = #[trigger] name[i];
            'a' <= c <= 'z' || 'A' <= c <= 'Z' || '0' <= c <= '9' || c == '-'
        }
}

/// No header at all.
pub open spec fn no_headers() -> Map<Seq<char>, Seq<Seq<u8>>> {
    Map::empty()
}

/// `HeaderMap::new`: a set without headers.
#[verifier::external_body]
fn header_map_new() -> (headers: HeaderMap)
    ensures
        header_entries(headers) == no_headers(),
        header_count(headers) == 0,
{
    HeaderMap::new()
}

/// `HeaderValue::from_str`: the value that holds the bytes of the text,
/// where each of them can stand in a header; a refusal where one cannot.
#[verifier::external_body]
fn header_value_from_str(text: &str) -> (value: Result<HeaderValue, InvalidHeaderValue>)
    ensures
        match value {
            Ok(v) => is_header_value(text@) && header_value_bytes(v) == encode_utf8(text@),
            Err(_) => !is_header_value(text@),
        },
{
    HeaderValue::from_str(text)
}

/// `HeaderMap::insert` with a name given as text: the value stands alone
/// under the name in lower case, in place of every value that stood there,
/// and nothing else changes. A name that was absent is one name more; one
/// that was present leaves the number of names as it was. The name is one
/// that the map accepts, and the map is far from full.
#[verifier::external_body]
fn header_map_insert(headers: &mut HeaderMap, name: &'static str, value: HeaderValue)
    requires
        is_plain_header_name(name@),
        header_count(*old(headers)) < 16,
    ensures
        header_entries(*final(headers)) == header_entries(*old(headers)).insert(
            lower_case(name@),
            seq![header_value_bytes(value)],
        ),
        header_count(*final(headers)) == (if header_entries(*old(headers)).dom().contains(
            lower_case(name@),
        ) {
            header_count(*old(headers))
        } else {
            header_count(*old(headers)) + 1
        }),
{
    headers.insert(name, value);
}

/// One of three mutually exclusive authentication schemes.
#[derive(Clone, Debug, PartialEq)]
pub enum Credentials {
    UserAuthKey { email: String, key: String },
    UserAuthToken { token: String },
    Service { key: String },
}

/// The header names of the three schemes are plain.
proof fn lemma_scheme_names_are_plain()
    ensures
        is_plain_header_name("X-Auth-Email"@),
        is_plain_header_name("X-Auth-Key"@),
        is_plain_header_name("Authorization"@),
        is_plain_header_name("X-Auth-User-Service-Key"@),
{
    reveal_strlit("X-Auth-Email");
    reveal_strlit("X-Auth-Key");
    reveal_strlit("Authorization");
    reveal_strlit("X-Auth-User-Service-Key");
}

impl Credentials {
    /// The headers that authenticate a request: under each name, in lower
    /// case, the bytes of its one value.
    pub open spec fn header_entries(self) -> Map<Seq<char>, Seq<Seq<u8>>> {
        match self {
            Credentials::UserAuthKey { email, key } => no_headers().insert(
                lower_case("X-Auth-Email"@),
                seq![encode_utf8(email@)],
            ).insert(lower_case("X-Auth-Key"@), seq![encode_utf8(key@)]),
            Credentials::UserAuthToken { token } => no_headers().insert(
                lower_case("Authorization"@),
                seq![encode_utf8("Bearer "@ + token@)],
            ),
            Credentials::Service { key } => no_headers().insert(
                lower_case("X-Auth-User-Service-Key"@),
                seq![encode_utf8(key@)],
            ),
        }
    }

    /// The number of headers that authenticate a request: two for an
    /// e-mail and a key, one for a token, one for a service key.
    pub open spec fn header_number(self) -> nat {
        if self is UserAuthKey {
            2
        } else {
            1
        }
    }

    /// Whether every secret can travel in a header.
    pub open spec fn sendable(self) -> bool {
        match self {
            Credentials::UserAuthKey { email, key } => is_header_value(email@) && is_header_value(
                key@,
            ),
            Credentials::UserAuthToken { token } => is_header_value("Bearer "@ + token@),
            Credentials::Service { key } => is_header_value(key@),
        }
    }

    /// Whether every secret can travel in a header.
    pub fn is_sendable(&self) -> (sendable: bool)
        ensures
            sendable == self.sendable(),
    {
        match self {
            Credentials::UserAuthKey { email, key } => {
                header_value_from_str(email.as_str()).is_ok() && header_value_from_str(
                    key.as_str(),
                ).is_ok()
            },
            Credentials::UserAuthToken { token } => {
                let value = String::from_str("Bearer ").concat(token.as_str());
                header_value_from_str(value.as_str()).is_ok()
            },
            Credentials::Service { key } => header_value_from_str(key.as_str()).is_ok(),
        }
    }

    /// Derives the outgoing headers from the scheme. The secrets go nowhere
    /// but into the values of the returned headers.
    pub fn headers(&self) -> (headers: HeaderMap)
        requires
            self.sendable(),
        ensures
            header_entries(headers) == self.header_entries(),
            header_count(headers) == self.header_number(),
    {
        proof {
            lemma_scheme_names_are_plain();
            reveal_strlit("X-Auth-Email");
            reveal_strlit("X-Auth-Key");
            assert(lower_case("X-Auth-Email"@).len() != lower_case("X-Auth-Key"@).len());
        }
        let mut headers = header_map_new();
        match self {
            Credentials::UserAuthKey { email, key } => {
                match header_value_from_str(email.as_str()) {
                    Ok(value) => header_map_insert(&mut headers, "X-Auth-Email", value),
                    Err(_) => {},
                }
                match header_value_from_str(key.as_str()) {
                    Ok(value) => header_map_insert(&mut headers, "X-Auth-Key", value),
                    Err(_) => {},
                }
            },
            Credentials::UserAuthToken { token } => {
                let bearer = String::from_str("Bearer ").concat(token.as_str());
                match header_value_from_str(bearer.as_str()) {
                    Ok(value) => header_map_insert(&mut headers, "Authorization", value),
                    Err(_) => {},
                }
            },
            Credentials::Service { key } => {
                match header_value_from_str(key.as_str()) {
                    Ok(value) => header_map_insert(&mut headers, "X-Auth-User-Service-Key", value),
                    Err(_) => {},
                }
            },
        }
        headers
    }
}

/// Each scheme sends its own headers and none of another scheme: an e-mail
/// and a key go together and alone, an API token goes alone as a bearer
/// authorization, and a service key goes alone.
pub proof fn lemma_headers_of_one_scheme_only(credentials: Credentials)
    ensures
        credentials.header_entries().dom().contains(lower_case("X-Auth-Email"@))
            <==> credentials is UserAuthKey,
        credentials.header_entries().dom().contains(lower_case("X-Auth-Key"@))
            <==> credentials is UserAuthKey,
        credentials.header_entries().dom().contains(lower_case("Authorization"@))
            <==> credentials is UserAuthToken,
        credentials.header_entries().dom().contains(lower_case("X-Auth-User-Service-Key"@))
            <==> credentials is Service,
        forall|name: Seq<char>| #[trigger]
            credentials.header_entries().dom().contains(name) ==> name == lower_case(
                "X-Auth-Email"@,
            ) || name == lower_case("X-Auth-Key"@) || name == lower_case("Authorization"@) || name
                == lower_case("X-Auth-User-Service-Key"@),
{
    reveal_strlit("X-Auth-Email");
    reveal_strlit("X-Auth-Key");
    reveal_strlit("Authorization");
    reveal_strlit("X-Auth-User-Service-Key");
    assert(lower_case("X-Auth-Email"@).len() == 12);
    assert(lower_case("X-Auth-Key"@).len() == 10);
    assert(lower_case("Authorization"@).len() == 13);
    assert(lower_case("X-Auth-User-Service-Key"@).len() == 23);
}

#[derive(Debug, PartialEq, Clone)]
pub enum TokenError {
    Expired,
    Disabled,
    Invalid,
    Unknown(String),
}

/// A `TokenError` with its message as plain characters.
pub enum TokenErrorView {
    Expired,
    Disabled,
    Invalid,
    Unknown(Seq<char>),
}

impl View for TokenError {
    type V = TokenErrorView;

    open spec fn view(&self) -> TokenErrorView {
        match self {
            TokenError::Expired => TokenErrorView::Expired,
            TokenError::Disabled => TokenErrorView::Disabled,
            TokenError::Invalid => TokenErrorView::Invalid,
            TokenError::Unknown(message) => TokenErrorView::Unknown(message@),
        }
    }
}

/// The message of an error-shaped response that lists no error.
pub open spec fn no_errors_message() -> Seq<char> {
    "No errors in the response."@
}

/// Whether a status is the one that carries a payload. Every other status
/// carries a list of errors.
pub fn is_success(status: u16) -> (success: bool)
    ensures
        success == (status == 200),
{
    status == 200
}

/// What came back for one request, as far as the clients look at it.
#[derive(Debug, PartialEq, Clone)]
pub enum ApiReply<T> {
    /// The request could not be sent, or the body could not be read or
    /// decoded. The text describes the failure.
    Transport(String),
    /// The status that carries a payload, with the decoded body.
    Success(T),
    /// Any other status, with the errors that the body lists.
    Failure(Vec<ApiError>),
}

/// What an envelope stands for. A payload counts only under the status
/// that carries one. An envelope without a payload is a failure whatever its
/// status, with the errors that it lists, be they none: it is never an empty
/// success.
pub open spec fn envelope_reply_of<T>(
    status: u16,
    payload: Option<T>,
    errors: Vec<ApiError>,
) -> ApiReply<T> {
    match payload {
        Some(found) => if status == 200 {
            ApiReply::Success(found)
        } else {
            ApiReply::Failure(errors)
        },
        None => ApiReply::Failure(errors),
    }
}

/// Makes the reply of a decoded envelope: its status, the payload where
/// the body held one, and the errors that the body lists.
pub fn envelope_reply<T>(status: u16, payload: Option<T>, errors: Vec<ApiError>) -> (reply:
    ApiReply<T>)
    ensures
        reply == envelope_reply_of(status, payload, errors),
{
    match payload {
        Some(found) => if is_success(status) {
            ApiReply::Success(found)
        } else {
            ApiReply::Failure(errors)
        },
        None => ApiReply::Failure(errors),
    }
}

/// Whether no name stands twice in a list of pairs.
pub open spec fn names_occur_once(pairs: Pairs) -> bool {
    forall|i: int, j: int| 0 <= i < j < pairs.len() ==> (#[trigger] pairs[i]).0 != (#[trigger] pairs[j]).0
}

/// Whether a list of pairs holds one of this name.
pub open spec fn has_name(pairs: Pairs, name: Seq<char>) -> bool {
    exists|i: int| 0 <= i < pairs.len() && (#[trigger] pairs[i]).0 == name
}

/// A pair under a new name keeps the names apart, and brings no other
/// name in.
pub proof fn lemma_new_name_keeps_names_apart(
    pairs: Pairs,
    name: Seq<char>,
    value: Option<Seq<char>>,
)
    requires
        names_occur_once(pairs),
        !has_name(pairs, name),
    ensures
        names_occur_once(pairs + optional_pair(name, value)),
        forall|other: Seq<char>| #[trigger]
            has_name(pairs + optional_pair(name, value), other) ==> has_name(pairs, other)
                || other == name,
{
    let longer = pairs + optional_pair(name, value);
    assert forall|i: int, j: int| 0 <= i < j < longer.len() implies (#[trigger] longer[i]).0 != (
    #[trigger] longer[j]).0 by {
        assert(longer[i] == pairs[i]);
        if j < pairs.len() {
            assert(longer[j] == pairs[j]);
        } else {
            assert(longer[j].0 == name);
        }
    }
    assert forall|other: Seq<char>| #[trigger] has_name(longer, other) implies has_name(
        pairs,
        other,
    ) || other == name by {
        let i = choose|i: int| 0 <= i < longer.len() && (#[trigger] longer[i]).0 == other;
        if i < pairs.len() {
            assert(longer[i] == pairs[i]);
        }
    }
}

#[derive(Debug, PartialEq, Eq, Clone, Copy)]
pub enum HttpMethod {
    Get,
    Post,
    Put,
    Delete,
}

/// The member of a JSON body that holds a namespace's title.
pub const TITLE_MEMBER: &'static str = "title";

/// The part of a form that holds a pair's value.
pub const VALUE_PART: &'static str = "value";

/// The part of a form that holds a pair's metadata.
pub const METADATA_PART: &'static str = "metadata";

/// The response header that holds a pair's expiration.
pub const EXPIRATION_HEADER: &'static str = "expiration";

/// What a request carries as its body.
#[derive(Debug, PartialEq, Clone)]
pub enum RequestBody {
    /// No body.
    Empty,
    /// A JSON object with the one member [`TITLE_MEMBER`].
    Title(String),
    /// A JSON array of keys.
    Keys(Vec<String>),
    /// The input of a bulk read, as a JSON object.
    Values(KvValuesGetInput),
    /// A multipart form with a [`VALUE_PART`] of bytes and a
    /// [`METADATA_PART`] of text.
    Form { value: Vec<u8>, metadata: String },
}

/// One request, ready to be sent by whoever owns the transport.
#[derive(Debug, PartialEq)]
pub struct ApiRequest {
    pub method: HttpMethod,
    pub url: String,
    pub headers: HeaderMap,
    pub query: Vec<(String, String)>,
    pub body: RequestBody,
}

impl ApiRequest {
    /// The request goes to `url` by `method`, authenticated by
    /// `credentials`.
    pub open spec fn goes_to(self, method: HttpMethod, url: Seq<char>, credentials: Credentials) -> bool {
        &&& self.method == method
        &&& self.url@ == url
        &&& header_entries(self.headers) == credentials.header_entries()
        &&& header_count(self.headers) == credentials.header_number()
    }

    /// The request has no query and no body.
    pub open spec fn is_bare(self) -> bool {
        &&& self.query@.len() == 0
        &&& self.body is Empty
    }
}

/// `name=value` where the value is there, nothing where it is not.
pub open spec fn optional_pair(name: Seq<char>, value: Option<Seq<char>>) -> Pairs {
    match value {
        Some(v) => seq![(name, v)],
        None => seq![],
    }
}

/// Appends `name=value` to a query if the value is there: an absent filter
/// is left out, not sent empty.
pub fn push_optional(query: &mut Vec<(String, String)>, name: &str, value: Option<String>)
    ensures
        pairs_view(final(query)@) == pairs_view(old(query)@) + optional_pair(
            name@,
            match value {
                Some(v) => Some(v@),
                None => None,
            },
        ),
{
    let ghost before = pairs_view(query@);
    match value {
        Some(v) => {
            let ghost text = v@;
            query.push((name.to_string(), v));
            assert(pairs_view(query@) =~= before + seq![(name@, text)]);
        },
        None => {
            assert(pairs_view(query@) =~= before + Seq::<(Seq<char>, Seq<char>)>::empty());
        },
    }
}

/// `a`, `b` and `c` written one after the other.
pub fn concat3(a: &str, b: &str, c: &str) -> (text: String)
    ensures
        text@ == a@ + b@ + c@,
{
    String::from_str(a).concat(b).concat(c)
}

} // verus!
