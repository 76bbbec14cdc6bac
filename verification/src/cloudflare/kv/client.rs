//! The key-value client: which request each operation sends, and what it
//! makes of the reply.

use crate::cloudflare::common::{
    envelope_reply_of, is_success, names_occur_once, no_errors_message, pairs_view, ApiError, ApiReply, ApiRequest, ApiResponse, Credentials,
    HttpMethod, RequestBody, TokenError, TokenErrorView, API_URL,
};
use crate::cloudflare::kv::models::{
    expiration_of, is_object_text, json_as_str, json_text, metadata_to_json, pairs_well_formed,
    parse_expiration, KvError, KvErrorView, KvKeysListInput, KvNamespaceCreateInput, KvNamespaceDeleteInput,
    KvNamespaceGetInput, KvNamespaceUpdateInput, KvNamespacesListInput, KvPair, KvPairCreateInput,
    KvPairGetInput, KvPairMetadata, KvPairMetadataGetInput, KvPairView, KvPairWriteInput,
    KvPairsDeleteInput, KvPairsGetInput, KvValue, KvValueResponse, KvValues, KvValuesGetInput,
    KvValuesRaw, KvValuesResult,
};
use crate::cloudflare::kv::utils::{encoded_key, url_encode_key};
use crate::text::{lemma_signed_decimal_round_trip, signed_decimal};
use std::sync::Arc;
use vstd::prelude::*;
use vstd::slice::slice_to_vec;
use vstd::std_specs::convert::FromSpec;
use vstd::utf8::encode_utf8;

verus! {

/// The address of an account's namespaces.
pub open spec fn namespaces_url(api: Seq<char>, account: Seq<char>) -> Seq<char> {
    api + "/accounts/"@ + account + "/storage/kv/namespaces"@
}

/// The address of one namespace.
pub open spec fn namespace_url(api: Seq<char>, account: Seq<char>, namespace: Seq<char>) -> Seq<
    char,
> {
    namespaces_url(api, account) + "/"@ + namespace
}

/// The address of something inside a namespace: `part` is the path from
/// the namespace on, with its slashes.
pub open spec fn namespace_part_url(
    api: Seq<char>,
    account: Seq<char>,
    namespace: Seq<char>,
    part: Seq<char>,
) -> Seq<char> {
    namespace_url(api, account, namespace) + part
}

/// The address of something kept under a key: `part` is the path between
/// the namespace and the key, with its slashes. The key is escaped.
pub open spec fn key_url(
    api: Seq<char>,
    account: Seq<char>,
    namespace: Seq<char>,
    part: Seq<char>,
    key: Seq<char>,
) -> Seq<char> {
    namespace_part_url(api, account, namespace, part) + encoded_key(key)
}

/// The domain error that a list of wire errors stands for. Only the first
/// one counts; an empty list is an error of its own.
pub open spec fn kv_error_for(errors: Seq<ApiError>) -> KvErrorView {
    if errors.len() == 0 {
        KvErrorView::Unknown(no_errors_message())
    } else {
        let code = errors[0].code;
        let message = errors[0].message@;
        if code == 10000 || code == 10001 {
            KvErrorView::Token(TokenErrorView::Invalid)
        } else if code == 10009 {
            KvErrorView::KeyNotFound
        } else if code == 10013 {
            KvErrorView::NamespaceNotFound
        } else if code == 10014 {
            KvErrorView::NamespaceAlreadyExists(message)
        } else if code == 10019 {
            KvErrorView::NamespaceTitleMissing(message)
        } else if code == 10029 {
            KvErrorView::NonTextValue
        } else if code == 10033 {
            KvErrorView::InvalidExpiration
        } else if code == 10147 {
            KvErrorView::InvalidMetadata
        } else {
            KvErrorView::Unknown(message)
        }
    }
}

/// The error that a reply stands for, if it is one.
pub open spec fn kv_reply_error<T>(reply: ApiReply<T>) -> Option<KvErrorView> {
    match reply {
        ApiReply::Success(_) => None,
        ApiReply::Transport(message) => Some(KvErrorView::Transport(message@)),
        ApiReply::Failure(errors) => Some(kv_error_for(errors@)),
    }
}

/// An envelope without a result is an error of the key-value family
/// whatever its status: the error that its list stands for, and the error of
/// an empty list where it lists none.
pub proof fn lemma_envelope_without_result_is_an_error<T>(status: u16, errors: Vec<ApiError>)
    ensures
        kv_reply_error(envelope_reply_of::<T>(status, None, errors)) == Some(kv_error_for(errors@)),
        errors@.len() == 0 ==> kv_reply_error(envelope_reply_of::<T>(status, None, errors)) == Some(
            KvErrorView::Unknown(no_errors_message()),
        ),
{
}

/// A client for key-value storage, bound to one set of credentials and one
/// base URL. It keeps nothing between calls.
pub struct KvClient {
    api_url: Arc<String>,
    credentials: Arc<Credentials>,
}

impl KvClient {
    /// The base URL that the client sends to.
    pub closed spec fn api_url(&self) -> Seq<char> {
        (*self.api_url)@
    }

    /// The credentials that the client sends with.
    pub closed spec fn credentials(&self) -> Credentials {
        *self.credentials
    }

    /// Whether the credentials can travel in headers. A request is built
    /// only where they can.
    pub fn can_send(&self) -> (sendable: bool)
        ensures
            sendable == self.credentials().sendable(),
    {
        self.credentials.is_sendable()
    }

    /// Binds a client to credentials and a base URL; without one, to the
    /// production host.
    pub fn new(credentials: Arc<Credentials>, api_url: Option<Arc<String>>) -> (client: Self)
        ensures
            client.credentials() == *credentials,
            client.api_url() == match api_url {
                Some(url) => (*url)@,
                None => API_URL@,
            },
    {
        let api_url = match api_url {
            Some(url) => url,
            None => Arc::new(API_URL.to_string()),
        };
        KvClient { api_url, credentials }
    }

    fn namespaces_address(&self, account: &str) -> (url: String)
        ensures
            url@ == namespaces_url(self.api_url(), account@),
    {
        String::from_str(self.api_url.as_str()).concat("/accounts/").concat(account).concat(
            "/storage/kv/namespaces",
        )
    }

    fn namespace_address(&self, account: &str, namespace: &str, part: &str) -> (url: String)
        ensures
            url@ == namespace_part_url(self.api_url(), account@, namespace@, part@),
    {
        self.namespaces_address(account).concat("/").concat(namespace).concat(part)
    }

    fn key_address(&self, account: &str, namespace: &str, part: &str, key: &str) -> (url: String)
        ensures
            url@ == key_url(self.api_url(), account@, namespace@, part@, key@),
    {
        let encoded = url_encode_key(key);
        self.namespace_address(account, namespace, part).concat(encoded.as_str())
    }

    fn request(&self, method: HttpMethod, url: String) -> (request: ApiRequest)
        requires
            self.credentials().sendable(),
        ensures
            request.goes_to(method, url@, self.credentials()),
            request.is_bare(),
    {
        ApiRequest {
            method,
            url,
            headers: self.credentials.headers(),
            query: Vec::new(),
            body: RequestBody::Empty,
        }
    }

    /// The request that lists an account's namespaces: a GET with the
    /// filters that are set.
    pub fn list_namespaces_request(&self, input: &KvNamespacesListInput) -> (request: ApiRequest)
        requires
            self.credentials().sendable(),
        ensures
            request.goes_to(
                HttpMethod::Get,
                namespaces_url(self.api_url(), input.account_id@),
                self.credentials(),
            ),
            pairs_view(request.query@) == input.query_pairs(),
            names_occur_once(pairs_view(request.query@)),
            request.body is Empty,
    {
        let mut request = self.request(
            HttpMethod::Get,
            self.namespaces_address(input.account_id.as_str()),
        );
        request.query = input.query_parameters();
        request
    }

    /// The request that reads one namespace.
    pub fn get_namespace_request(&self, input: &KvNamespaceGetInput) -> (request: ApiRequest)
        requires
            self.credentials().sendable(),
        ensures
            request.goes_to(
                HttpMethod::Get,
                namespace_url(self.api_url(), input.account_id@, input.namespace_id@),
                self.credentials(),
            ),
            request.is_bare(),
    {
        proof {
            lemma_empty_part(self.api_url(), input.account_id@, input.namespace_id@);
        }
        self.request(
            HttpMethod::Get,
            self.namespace_address(input.account_id.as_str(), input.namespace_id.as_str(), ""),
        )
    }

    /// The request that creates a namespace: a POST with the title as body.
    pub fn create_namespace_request(&self, input: KvNamespaceCreateInput) -> (request: ApiRequest)
        requires
            self.credentials().sendable(),
        ensures
            request.goes_to(
                HttpMethod::Post,
                namespaces_url(self.api_url(), input.account_id@),
                self.credentials(),
            ),
            request.query@.len() == 0,
            request.body == RequestBody::Title(input.title),
    {
        let mut request = self.request(
            HttpMethod::Post,
            self.namespaces_address(input.account_id.as_str()),
        );
        request.body = RequestBody::Title(input.title);
        request
    }

    /// The request that renames a namespace: a PUT with the new title as
    /// body.
    pub fn update_namespace_request(&self, input: KvNamespaceUpdateInput) -> (request: ApiRequest)
        requires
            self.credentials().sendable(),
        ensures
            request.goes_to(
                HttpMethod::Put,
                namespace_url(self.api_url(), input.account_id@, input.namespace_id@),
                self.credentials(),
            ),
            request.query@.len() == 0,
            request.body == RequestBody::Title(input.title),
    {
        proof {
            lemma_empty_part(self.api_url(), input.account_id@, input.namespace_id@);
        }
        let mut request = self.request(
            HttpMethod::Put,
            self.namespace_address(input.account_id.as_str(), input.namespace_id.as_str(), ""),
        );
        request.body = RequestBody::Title(input.title);
        request
    }

    /// The request that deletes a namespace. It has no body.
    pub fn delete_namespace_request(&self, input: &KvNamespaceDeleteInput) -> (request: ApiRequest)
        requires
            self.credentials().sendable(),
        ensures
            request.goes_to(
                HttpMethod::Delete,
                namespace_url(self.api_url(), input.account_id@, input.namespace_id@),
                self.credentials(),
            ),
            request.is_bare(),
    {
        proof {
            lemma_empty_part(self.api_url(), input.account_id@, input.namespace_id@);
        }
        self.request(
            HttpMethod::Delete,
            self.namespace_address(input.account_id.as_str(), input.namespace_id.as_str(), ""),
        )
    }

    /// The request that lists the keys of a namespace. The page size is
    /// always sent, clamped; cursor and prefix go out as they came in.
    pub fn list_keys_request(&self, input: KvKeysListInput) -> (request: ApiRequest)
        requires
            self.credentials().sendable(),
        ensures
            request.goes_to(
                HttpMethod::Get,
                namespace_part_url(
                    self.api_url(),
                    input.account_id@,
                    input.namespace_id@,
                    "/keys"@,
                ),
                self.credentials(),
            ),
            pairs_view(request.query@) == input.query_pairs(),
            names_occur_once(pairs_view(request.query@)),
            request.body is Empty,
    {
        let mut request = self.request(
            HttpMethod::Get,
            self.namespace_address(
                input.account_id.as_str(),
                input.namespace_id.as_str(),
                "/keys",
            ),
        );
        request.query = input.query_parameters();
        request
    }

    /// The request that reads the metadata of a key.
    pub fn get_kv_pair_metadata_request(&self, input: &KvPairMetadataGetInput) -> (request:
        ApiRequest)
        requires
            self.credentials().sendable(),
        ensures
            request.goes_to(
                HttpMethod::Get,
                key_url(
                    self.api_url(),
                    input.account_id@,
                    input.namespace_id@,
                    "/metadata/"@,
                    input.key@,
                ),
                self.credentials(),
            ),
            request.is_bare(),
    {
        self.request(
            HttpMethod::Get,
            self.key_address(
                input.account_id.as_str(),
                input.namespace_id.as_str(),
                "/metadata/",
                input.key.as_str(),
            ),
        )
    }

    /// The request that reads the value of a key.
    pub fn get_kv_pair_request(&self, input: &KvPairGetInput) -> (request: ApiRequest)
        requires
            self.credentials().sendable(),
        ensures
            request.goes_to(
                HttpMethod::Get,
                key_url(
                    self.api_url(),
                    input.account_id@,
                    input.namespace_id@,
                    "/values/"@,
                    input.key@,
                ),
                self.credentials(),
            ),
            request.is_bare(),
    {
        self.request(
            HttpMethod::Get,
            self.key_address(
                input.account_id.as_str(),
                input.namespace_id.as_str(),
                "/values/",
                input.key.as_str(),
            ),
        )
    }

    /// The request that reads many values at once: a POST with the whole
    /// input as body.
    pub fn get_kv_values_request(&self, input: KvValuesGetInput) -> (request: ApiRequest)
        requires
            self.credentials().sendable(),
        ensures
            request.goes_to(
                HttpMethod::Post,
                namespace_part_url(
                    self.api_url(),
                    input.account_id@,
                    input.namespace_id@,
                    "/bulk/get"@,
                ),
                self.credentials(),
            ),
            request.query@.len() == 0,
            request.body == RequestBody::Values(input),
    {
        let mut request = self.request(
            HttpMethod::Post,
            self.namespace_address(
                input.account_id.as_str(),
                input.namespace_id.as_str(),
                "/bulk/get",
            ),
        );
        request.body = RequestBody::Values(input);
        request
    }

    /// The request that deletes many keys at once: a POST with the keys as
    /// body.
    pub fn delete_kv_pairs_request(&self, input: KvPairsDeleteInput) -> (request: ApiRequest)
        requires
            self.credentials().sendable(),
        ensures
            request.goes_to(
                HttpMethod::Post,
                namespace_part_url(
                    self.api_url(),
                    input.account_id@,
                    input.namespace_id@,
                    "/bulk/delete"@,
                ),
                self.credentials(),
            ),
            request.query@.len() == 0,
            request.body == RequestBody::Keys(input.keys),
    {
        let mut request = self.request(
            HttpMethod::Post,
            self.namespace_address(
                input.account_id.as_str(),
                input.namespace_id.as_str(),
                "/bulk/delete",
            ),
        );
        request.body = RequestBody::Keys(input.keys);
        request
    }

    /// The request that writes a pair, given what the serialiser made of
    /// its metadata: a PUT with expiration and time to live in the query and
    /// a form of two parts as body, the value and the text of the metadata.
    pub fn write_kv_pair_request_with(
        &self,
        input: &KvPairWriteInput,
        serialized: Option<Result<String, serde_json::Error>>,
    ) -> (request: ApiRequest)
        requires
            self.credentials().sendable(),
        ensures
            request.goes_to(
                HttpMethod::Put,
                key_url(
                    self.api_url(),
                    input.account_id@,
                    input.namespace_id@,
                    "/values/"@,
                    input.key@,
                ),
                self.credentials(),
            ),
            pairs_view(request.query@) == input.query_pairs(),
            names_occur_once(pairs_view(request.query@)),
            request.body is Form,
            request.body->Form_value@ == input.written_value(),
            request.body->Form_metadata@ == metadata_text(serialized),
    {
        let mut request = self.request(
            HttpMethod::Put,
            self.key_address(
                input.account_id.as_str(),
                input.namespace_id.as_str(),
                "/values/",
                input.key.as_str(),
            ),
        );
        request.query = input.query_parameters();
        let value = match &input.value {
            Some(v) => slice_to_vec(v.as_slice()),
            None => Vec::new(),
        };
        request.body = RequestBody::Form { value, metadata: metadata_part(serialized) };
        request
    }

    /// The request that writes a pair. Metadata that is present is
    /// serialised and written as the serialiser gave it, an object between
    /// braces, or as nothing where it could not be serialised; metadata that
    /// is absent is written `null`.
    pub fn write_kv_pair_request(&self, input: &KvPairWriteInput) -> (request: ApiRequest)
        requires
            self.credentials().sendable(),
        ensures
            request.goes_to(
                HttpMethod::Put,
                key_url(
                    self.api_url(),
                    input.account_id@,
                    input.namespace_id@,
                    "/values/"@,
                    input.key@,
                ),
                self.credentials(),
            ),
            pairs_view(request.query@) == input.query_pairs(),
            names_occur_once(pairs_view(request.query@)),
            request.body is Form,
            request.body->Form_value@ == input.written_value(),
            input.metadata is None ==> request.body->Form_metadata@ == "null"@,
            input.metadata is Some ==> request.body->Form_metadata@.len() == 0 || is_object_text(
                request.body->Form_metadata@,
            ),
    {
        let serialized = match &input.metadata {
            Some(metadata) => Some(metadata_to_json(metadata)),
            None => None,
        };
        self.write_kv_pair_request_with(input, serialized)
    }

    /// Makes of the reply to a write what the operation returns: on
    /// success the pair as it was written, else the error.
    pub fn write_kv_pair_response(&self, input: KvPairWriteInput, reply: ApiReply<()>) -> (result:
        Result<KvPair, KvError>)
        ensures
            reply is Success <==> result is Ok,
            result is Ok ==> result->Ok_0@ == input.written_pair(),
            result is Ok ==> (result->Ok_0.well_formed() <==> input.well_formed()),
            result is Err ==> Some(result->Err_0@) == kv_reply_error(reply),
    {
        match reply {
            ApiReply::Success(_) => {
                let value = match input.value {
                    Some(v) => v,
                    None => Vec::new(),
                };
                Ok(
                    KvPair {
                        key: input.key,
                        value,
                        expiration: input.expiration,
                        metadata: input.metadata,
                    },
                )
            },
            ApiReply::Transport(message) => Err(KvError::Transport(message)),
            ApiReply::Failure(errors) => Err(self.map_api_errors(errors)),
        }
    }

    /// Joins the two reads of a pair, the value and the metadata. A failed
    /// read of the value decides; after it, a failed read of the metadata.
    pub fn get_kv_pair_response(
        &self,
        input: KvPairGetInput,
        reply: ApiReply<KvValueResponse>,
        metadata: Result<KvPairMetadata, KvError>,
    ) -> (result: Result<KvPair, KvError>)
        ensures
            match reply {
                ApiReply::Success(response) => match metadata {
                    Ok(m) => result is Ok && result->Ok_0.well_formed() && result->Ok_0@
                        == fetched_pair(input.key@, response, m),
                    Err(e) => result == Err::<KvPair, KvError>(e),
                },
                _ => result is Err && Some(result->Err_0@) == kv_reply_error(reply),
            },
    {
        match reply {
            ApiReply::Success(response) => {
                let expiration = parse_expiration(&response.expiration);
                match metadata {
                    Ok(m) => Ok(
                        KvPair { key: input.key, value: response.body, expiration, metadata: m },
                    ),
                    Err(e) => Err(e),
                }
            },
            ApiReply::Transport(message) => Err(KvError::Transport(message)),
            ApiReply::Failure(errors) => Err(self.map_api_errors(errors)),
        }
    }

    /// Makes of the answer to a read of metadata what the operation
    /// returns. Under the status that carries a payload it is the metadata,
    /// or none where the key has none: here an absent result is an answer. Under
    /// any other status it is the error that the list stands for.
    pub fn get_kv_pair_metadata_response(
        &self,
        status: u16,
        result: KvPairMetadata,
        errors: Vec<ApiError>,
    ) -> (metadata: Result<KvPairMetadata, KvError>)
        ensures
            status == 200 ==> metadata == Ok::<KvPairMetadata, KvError>(result),
            status != 200 ==> metadata is Err && metadata->Err_0@ == kv_error_for(errors@),
    {
        if is_success(status) {
            Ok(result)
        } else {
            Err(self.map_api_errors(errors))
        }
    }

    /// Makes of the reply to a bulk read with metadata what the operation
    /// returns.
    pub fn get_kv_values_response(&self, reply: ApiReply<ApiResponse<KvValues>>) -> (result: Result<
        KvValuesResult,
        KvError,
    >)
        ensures
            match reply {
                ApiReply::Success(payload) => result == Ok::<KvValuesResult, KvError>(
                    KvValuesResult::WithMetadata(payload.result),
                ),
                _ => result is Err && Some(result->Err_0@) == kv_reply_error(reply),
            },
    {
        match reply {
            ApiReply::Success(payload) => Ok(KvValuesResult::WithMetadata(payload.result)),
            ApiReply::Transport(message) => Err(KvError::Transport(message)),
            ApiReply::Failure(errors) => Err(self.map_api_errors(errors)),
        }
    }

    /// Makes of the reply to a bulk read without metadata what the
    /// operation returns.
    pub fn get_kv_raw_values_response(&self, reply: ApiReply<ApiResponse<KvValuesRaw>>) -> (result:
        Result<KvValuesResult, KvError>)
        ensures
            match reply {
                ApiReply::Success(payload) => result == Ok::<KvValuesResult, KvError>(
                    KvValuesResult::Raw(payload.result),
                ),
                _ => result is Err && Some(result->Err_0@) == kv_reply_error(reply),
            },
    {
        match reply {
            ApiReply::Success(payload) => Ok(KvValuesResult::Raw(payload.result)),
            ApiReply::Transport(message) => Err(KvError::Transport(message)),
            ApiReply::Failure(errors) => Err(self.map_api_errors(errors)),
        }
    }

    /// Makes of a reply what the operation returns: the converted payload
    /// of a success, or the error that the reply stands for.
    pub fn handle_api_response<T, R: From<T>>(&self, reply: ApiReply<T>) -> (result: Result<
        R,
        KvError,
    >)
        ensures
            match reply {
                ApiReply::Success(payload) => result is Ok && call_ensures(
                    R::from,
                    (payload,),
                    result->Ok_0,
                ),
                _ => result is Err && Some(result->Err_0@) == kv_reply_error(reply),
            },
    {
        match reply {
            ApiReply::Success(payload) => Ok(R::from(payload)),
            ApiReply::Transport(message) => Err(KvError::Transport(message)),
            ApiReply::Failure(errors) => Err(self.map_api_errors(errors)),
        }
    }

    /// Makes of the reply to a delete what the operation returns: nothing
    /// on success, the error otherwise.
    pub fn delete_namespace_response(&self, reply: ApiReply<()>) -> (result: Result<(), KvError>)
        ensures
            reply is Success <==> result is Ok,
            result is Err ==> Some(result->Err_0@) == kv_reply_error(reply),
    {
        match reply {
            ApiReply::Success(_) => Ok(()),
            ApiReply::Transport(message) => Err(KvError::Transport(message)),
            ApiReply::Failure(errors) => Err(self.map_api_errors(errors)),
        }
    }

    /// Turns the wire errors of a failure into the one domain error that
    /// they stand for.
    pub fn map_api_errors(&self, errors: Vec<ApiError>) -> (error: KvError)
        ensures
            error@ == kv_error_for(errors@),
    {
        if errors.len() == 0 {
            return KvError::Unknown("No errors in the response.".to_string());
        }
        let error = &errors[0];
        let code = error.code;
        if code == 10000 || code == 10001 {
            KvError::Token(TokenError::Invalid)
        } else if code == 10009 {
            KvError::KeyNotFound
        } else if code == 10013 {
            KvError::NamespaceNotFound
        } else if code == 10014 {
            KvError::NamespaceAlreadyExists(error.message.clone())
        } else if code == 10019 {
            KvError::NamespaceTitleMissing(error.message.clone())
        } else if code == 10029 {
            KvError::NonTextValue
        } else if code == 10033 {
            KvError::InvalidExpiration
        } else if code == 10147 {
            KvError::InvalidMetadata
        } else {
            KvError::Unknown(error.message.clone())
        }
    }
}

/// The text of a write's metadata part: `null` where there is no metadata,
/// the JSON text where there is, and nothing where it could not be
/// serialised.
pub open spec fn metadata_text(serialized: Option<Result<String, serde_json::Error>>) -> Seq<char> {
    match serialized {
        None => "null"@,
        Some(Ok(json)) => json@,
        Some(Err(_)) => Seq::<char>::empty(),
    }
}

/// The text of a write's metadata part: `null` where there is no metadata,
/// the JSON text where there is, and nothing where it could not be
/// serialised.
pub fn metadata_part(serialized: Option<Result<String, serde_json::Error>>) -> (text: String)
    ensures
        text@ == metadata_text(serialized),
{
    match serialized {
        None => "null".to_string(),
        Some(Ok(json)) => json,
        Some(Err(_)) => String::new(),
    }
}

/// The pair that the two reads of a key give: the body as it came, the
/// expiration that the header wrote, and the metadata.
pub open spec fn fetched_pair(
    key: Seq<char>,
    response: KvValueResponse,
    metadata: KvPairMetadata,
) -> KvPairView {
    KvPairView {
        key,
        value: response.body@,
        metadata,
        expiration: expiration_of(
            match response.expiration {
                Some(h) => Some(h@),
                None => None,
            },
        ),
    }
}

/// What a create does once its probe has come back.
#[derive(Debug, PartialEq, Clone)]
pub enum KvPairCreateStep {
    /// The key is free: write the pair.
    Write(KvPairWriteInput),
    /// The create is over, with this error.
    Fail(KvError),
}

/// Decides a create from its probe. A pair that is there is a refusal; a
/// key that is not found is the go-ahead to write exactly what a plain write
/// of the same input would; any other failure of the probe is the
/// create's own. Nothing is locked between the probe and the write.
pub fn create_kv_pair_step(input: KvPairCreateInput, probe: Result<KvPair, KvError>) -> (step:
    KvPairCreateStep)
    ensures
        match probe {
            Ok(_) => step is Fail && step->Fail_0@ == KvErrorView::KeyAlreadyExists(input.key@),
            Err(KvError::KeyNotFound) => step == KvPairCreateStep::Write(
                KvPairWriteInput::from_spec(input),
            ),
            Err(e) => step == KvPairCreateStep::Fail(e),
        },
{
    match probe {
        Ok(_) => KvPairCreateStep::Fail(KvError::KeyAlreadyExists(input.key)),
        Err(KvError::KeyNotFound) => KvPairCreateStep::Write(KvPairWriteInput::from(input)),
        Err(e) => KvPairCreateStep::Fail(e),
    }
}

/// The pair that one member of a bulk read's result stands for. A value
/// that is not JSON text has no bytes.
pub open spec fn pair_of_value(entry: (String, KvValue)) -> KvPairView {
    KvPairView {
        key: entry.0@,
        value: match json_text(entry.1.value) {
            Some(text) => encode_utf8(text),
            None => Seq::empty(),
        },
        metadata: entry.1.metadata,
        expiration: entry.1.expiration,
    }
}

/// The bytes of a value of a bulk read: those of its text, or none where
/// the value is not text.
pub fn text_bytes(text: Option<&str>) -> (bytes: Vec<u8>)
    ensures
        bytes@ == match text {
            Some(t) => encode_utf8(t@),
            None => Seq::<u8>::empty(),
        },
{
    match text {
        Some(t) => slice_to_vec(t.as_bytes()),
        None => Vec::new(),
    }
}

/// Turns one member of a bulk read's result into a pair.
pub fn pair_from_value(entry: (String, KvValue)) -> (pair: KvPair)
    ensures
        pair@ == pair_of_value(entry),
{
    let (key, value) = entry;
    let bytes = text_bytes(json_as_str(&value.value));
    KvPair { key, value: bytes, expiration: value.expiration, metadata: value.metadata }
}

/// Turns the result of a bulk read into pairs, member by member, in the
/// order of the members.
pub fn pairs_from_values(values: KvValues) -> (pairs: Vec<KvPair>)
    ensures
        pairs@.len() == values.values@.len(),
        forall|i: int|
            0 <= i < pairs@.len() ==> (#[trigger] pairs@[i])@ == pair_of_value(values.values@[i]),
        values.well_formed() ==> pairs_well_formed(pairs@),
{
    let mut pairs: Vec<KvPair> = Vec::new();
    let ghost entries = values.values@;
    for entry in it: values.values.into_iter()
        invariant
            it.seq() == entries,
            pairs@.len() == it.index(),
            forall|i: int|
                0 <= i < pairs@.len() ==> (#[trigger] pairs@[i])@ == pair_of_value(entries[i]),
    {
        pairs.push(pair_from_value(entry));
    }
    proof {
        if values.well_formed() {
            assert forall|i: int| 0 <= i < pairs@.len() implies (#[trigger] pairs@[i]).well_formed() by {
                assert(pairs@[i]@ == pair_of_value(entries[i]));
                assert(entries[i].1.well_formed());
            }
            assert forall|i: int, j: int| 0 <= i < j < pairs@.len() implies (#[trigger] pairs@[i]).key@
                != (#[trigger] pairs@[j]).key@ by {
                assert(pairs@[i]@ == pair_of_value(entries[i]));
                assert(pairs@[j]@ == pair_of_value(entries[j]));
                assert(entries[i].0@ != entries[j].0@);
            }
        }
    }
    pairs
}

/// The two ways of reading a key agree: where the bulk read holds a text
/// for the key, and a single read is answered with the bytes of that text,
/// a header that writes the same expiration, and the same metadata, the pair
/// of the single read is the pair of the bulk read.
pub proof fn lemma_single_read_gives_the_bulk_pair(
    entry: (String, KvValue),
    response: KvValueResponse,
)
    ensures
        ({
            &&& json_text(entry.1.value) is Some
            &&& response.body@ == encode_utf8(json_text(entry.1.value)->0)
            &&& expiration_of(
                match response.expiration {
                    Some(h) => Some(h@),
                    None => None,
                },
            ) == entry.1.expiration
        }) ==> fetched_pair(entry.0@, response, entry.1.metadata) == pair_of_value(entry),
{
}

/// What a read of many pairs does next.
#[derive(Debug, PartialEq)]
pub enum KvPairsStep {
    /// Read one pair with `read`, then go on with what it gave, the same
    /// `input`, and the pairs `fetched` so far.
    Fetch { read: KvPairGetInput, input: KvPairsGetInput, fetched: Vec<KvPair> },
    /// The read is over, with this outcome.
    Done(Result<Vec<KvPair>, KvError>),
}

impl KvPairsStep {
    /// The step reads the key at `index` and carries `input` and `fetched`
    /// along.
    pub open spec fn fetches(self, input: KvPairsGetInput, index: int, fetched: Seq<KvPair>) -> bool {
        &&& self is Fetch
        &&& self->read.account_id == input.account_id
        &&& self->read.namespace_id == input.namespace_id
        &&& self->read.key == input.keys@[index]
        &&& self->input == input
        &&& self->fetched@ == fetched
    }

    /// The step ends the read with these pairs.
    pub open spec fn gives(self, pairs: Seq<KvPair>) -> bool {
        &&& self is Done
        &&& self->Done_0 is Ok
        &&& self->Done_0->Ok_0@ == pairs
    }
}

/// Goes on with the key at `fetched.len()`, or ends the read where every
/// key has been read.
fn fetch_next(input: KvPairsGetInput, fetched: Vec<KvPair>) -> (step: KvPairsStep)
    ensures
        if fetched@.len() < input.keys@.len() {
            step.fetches(input, fetched@.len() as int, fetched@)
        } else {
            step.gives(fetched@)
        },
{
    if fetched.len() < input.keys.len() {
        let read = KvPairGetInput {
            account_id: input.account_id.clone(),
            namespace_id: input.namespace_id.clone(),
            key: input.keys[fetched.len()].clone(),
        };
        KvPairsStep::Fetch { read, input, fetched }
    } else {
        KvPairsStep::Done(Ok(fetched))
    }
}

/// Decides a read of many pairs from what the bulk read gave. Values with
/// metadata become the pairs. A bulk read that met a value that is not text
/// is replaced by one read per key, in the order of the keys. Any other
/// failure is the read's own.
pub fn get_kv_pairs_after_values(input: KvPairsGetInput, values: Result<KvValuesResult, KvError>) -> (step:
    KvPairsStep)
    ensures
        match values {
            Ok(KvValuesResult::WithMetadata(v)) => {
                &&& step is Done
                &&& step->Done_0 is Ok
                &&& step->Done_0->Ok_0@.len() == v.values@.len()
                &&& forall|i: int|
                    0 <= i < v.values@.len() ==> (#[trigger] step->Done_0->Ok_0@[i])@
                        == pair_of_value(v.values@[i])
                &&& v.well_formed() ==> pairs_well_formed(step->Done_0->Ok_0@)
            },
            Ok(KvValuesResult::Raw(_)) => {
                &&& step is Done
                &&& step->Done_0 is Err
                &&& step->Done_0->Err_0@ == KvErrorView::Unknown("Cannot handle raw KV values."@)
            },
            Err(KvError::NonTextValue) => if input.keys@.len() > 0 {
                step.fetches(input, 0, Seq::empty())
            } else {
                step.gives(Seq::empty())
            },
            Err(e) => step == KvPairsStep::Done(Err(e)),
        },
{
    match values {
        Ok(KvValuesResult::WithMetadata(v)) => KvPairsStep::Done(Ok(pairs_from_values(v))),
        Ok(KvValuesResult::Raw(_)) => KvPairsStep::Done(
            Err(KvError::Unknown("Cannot handle raw KV values.".to_string())),
        ),
        Err(KvError::NonTextValue) => fetch_next(input, Vec::new()),
        Err(e) => KvPairsStep::Done(Err(e)),
    }
}

/// Goes on with a read of many pairs after one key's read came back. A
/// failed read ends the whole with its error. A pair joins those fetched so
/// far, at the end; then the next key is read, or the read is over.
pub fn get_kv_pairs_after_pair(
    input: KvPairsGetInput,
    fetched: Vec<KvPair>,
    pair: Result<KvPair, KvError>,
) -> (step: KvPairsStep)
    ensures
        match pair {
            Err(e) => step == KvPairsStep::Done(Err(e)),
            Ok(p) => if fetched@.len() + 1 < input.keys@.len() {
                step.fetches(input, fetched@.len() as int + 1, fetched@.push(p))
            } else {
                step.gives(fetched@.push(p))
            },
        },
{
    match pair {
        Err(e) => KvPairsStep::Done(Err(e)),
        Ok(p) => {
            let mut fetched = fetched;
            fetched.push(p);
            fetch_next(input, fetched)
        },
    }
}

/// What is written is what is read back: where the server answers a read
/// with the bytes that a write sent, with the expiration that the write
/// asked for in its header, and with the metadata that the write sent, the
/// pair that the read gives is the pair that the write gave. The input is
/// well formed: its expiration is a date within range.
pub proof fn lemma_read_gives_what_was_written(input: KvPairWriteInput, response: KvValueResponse)
    requires
        input.well_formed(),
        response.body@ == input.written_value(),
        match input.expiration {
            Some(e) => response.expiration is Some && response.expiration->0@ == signed_decimal(
                e as int,
            ),
            None => response.expiration is None,
        },
    ensures
        fetched_pair(input.key@, response, input.metadata) == input.written_pair(),
{
    match input.expiration {
        Some(e) => {
            lemma_signed_decimal_round_trip(e);
        },
        None => {},
    }
}

/// A namespace's own address is the address of the empty path inside it.
pub proof fn lemma_empty_part(api: Seq<char>, account: Seq<char>, namespace: Seq<char>)
    ensures
        namespace_part_url(api, account, namespace, ""@) == namespace_url(api, account, namespace),
{
    reveal_strlit("");
    assert(namespace_url(api, account, namespace) + ""@ =~= namespace_url(
        api,
        account,
        namespace,
    ));
}

} // verus!
