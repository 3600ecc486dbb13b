//! The client: its configuration, and the requests that it prepares.

use vstd::prelude::*;
use vstd::string::StringExecFns;
use crate::credentials::{key_credentials, Credentials, CredentialsView};
use crate::endpoint::{
    build_url, check_url, endpoint_url, joins_are_single, lemma_joins_are_single,
    url_parse_error, SLASH,
};
use crate::error::MaasError;
use crate::json::encode_json;
use crate::oauth::{sign_at, sign_now, signed_header, signs, Timestamp};
use crate::request::{
    assemble, assembled, body_to_send, encoding_view, prepared_view, verb_name, HttpVerb,
    RequestView, SignedRequest,
};
use crate::text::{lemma_trim_end_is_trimmed, trim_end, trim_trailing};

verus! {

/// A client for one server, one API version and one set of credentials.
/// Nothing in it changes after construction.
#[derive(Debug)]
pub struct MaasClient {
    base_url: String,
    api_version: String,
    credentials: Credentials,
}

/// What a `MaasClient` stands for in contracts.
pub struct ClientView {
    pub base_url: Seq<char>,
    pub api_version: Seq<char>,
    pub credentials: CredentialsView,
}

impl View for MaasClient {
    type V = ClientView;

    closed spec fn view(&self) -> ClientView {
        ClientView {
            base_url: self.base_url@,
            api_version: self.api_version@,
            credentials: self.credentials@,
        }
    }
}

/// The address that `client` gives `endpoint`.
pub open spec fn client_url(client: ClientView, endpoint: Seq<char>) -> Seq<char> {
    endpoint_url(client.base_url, client.api_version, endpoint)
}

/// The outcome of preparing a request whose `Authorization` header is
/// `authorization`: the address is built and checked, the body is encoded
/// where the method carries one, and the first failure wins.
pub open spec fn prepared(
    client: ClientView,
    verb: HttpVerb,
    endpoint: Seq<char>,
    body: Option<serde_json::Value>,
    authorization: Seq<char>,
) -> Result<RequestView, MaasError> {
    let url = client_url(client, endpoint);
    assembled(verb, url, url_parse_error(url), body_to_send(verb, body), authorization)
}

/// The outcome of preparing a request that is signed with `nonce` and
/// `timestamp`. The signature covers the address that the request goes to.
pub open spec fn prepared_at(
    client: ClientView,
    verb: HttpVerb,
    endpoint: Seq<char>,
    body: Option<serde_json::Value>,
    nonce: Seq<char>,
    timestamp: u64,
) -> Result<RequestView, MaasError> {
    let header = signed_header(
        client.credentials,
        verb_name(verb),
        client_url(client, endpoint),
        nonce,
        timestamp,
    );
    prepared(client, verb, endpoint, body, header)
}

/// Whether `outcome` is what preparing the request gives under some nonce
/// and some timestamp.
pub open spec fn is_prepared(
    outcome: Result<RequestView, MaasError>,
    client: ClientView,
    verb: HttpVerb,
    endpoint: Seq<char>,
    body: Option<serde_json::Value>,
) -> bool {
    exists|nonce: Seq<char>, timestamp: u64|
        outcome == prepared_at(client, verb, endpoint, body, nonce, timestamp)
}

impl MaasClient {
    #[verifier::type_invariant]
    spec fn base_is_trimmed(&self) -> bool {
        trim_end(self.base_url@, SLASH) == self.base_url@
    }

    /// Builds a client. The base address loses its trailing slashes; the
    /// key must read `consumer:token:secret`.
    pub fn new(base_url: &str, api_key: &str, api_version: &str) -> (r: Result<
        MaasClient,
        MaasError,
    >)
        ensures
            match r {
                Ok(client) => {
                    &&& key_credentials(api_key@) == Some(client@.credentials)
                    &&& client@.base_url == trim_end(base_url@, SLASH)
                    &&& client@.api_version == api_version@
                },
                Err(e) => e is InvalidKeyFormat && key_credentials(api_key@) is None,
            },
    {
        let credentials = match Credentials::parse(api_key) {
            Ok(credentials) => credentials,
            Err(e) => {
                return Err(e);
            },
        };
        proof {
            lemma_trim_end_is_trimmed(base_url@, SLASH);
        }
        Ok(
            MaasClient {
                base_url: String::from_str(trim_trailing(base_url, SLASH)),
                api_version: String::from_str(api_version),
                credentials,
            },
        )
    }

    /// The base address, without trailing slashes.
    pub fn base_url(&self) -> (r: &str)
        ensures
            r@ == self@.base_url,
            trim_end(r@, SLASH) == r@,
    {
        proof {
            use_type_invariant(self);
        }
        self.base_url.as_str()
    }

    /// The API version that every address names.
    pub fn api_version(&self) -> (r: &str)
        ensures
            r@ == self@.api_version,
    {
        self.api_version.as_str()
    }

    /// The credentials that sign every request.
    pub fn credentials(&self) -> (r: &Credentials)
        ensures
            r@ == self@.credentials,
    {
        &self.credentials
    }

    /// The address of `endpoint`. It has a single slash where the base
    /// meets `/api/` and where the version meets the endpoint.
    pub fn url_for(&self, endpoint: &str) -> (url: String)
        ensures
            url@ == client_url(self@, endpoint@),
            joins_are_single(url@, self@.base_url.len() as int, self@.api_version.len() as int),
    {
        proof {
            use_type_invariant(self);
            lemma_joins_are_single(self.base_url@, self.api_version@, endpoint@);
        }
        build_url(self.base_url.as_str(), self.api_version.as_str(), endpoint)
    }

    /// The `Authorization` header for `method` on `url`, with a fresh nonce
    /// and the current time.
    pub fn generate_auth_header(&self, method: &str, url: &str) -> (header: String)
        ensures
            signs(header@, self@.credentials, method@, url@),
    {
        sign_now(&self.credentials, method, url)
    }

    /// The `Authorization` header for `method` on `url` under a nonce and a
    /// timestamp that the caller chose.
    pub fn generate_auth_header_at(
        &self,
        method: &str,
        url: &str,
        nonce: &str,
        timestamp: Timestamp,
    ) -> (header: String)
        ensures
            header@ == signed_header(self@.credentials, method@, url@, nonce@, timestamp@),
    {
        sign_at(&self.credentials, method, url, nonce, timestamp)
    }

    /// Prepares a request and signs it with a fresh nonce and the current time.
    pub fn request(&self, verb: HttpVerb, endpoint: &str, body: Option<serde_json::Value>) -> (r:
        Result<SignedRequest, MaasError>)
        ensures
            is_prepared(prepared_view(r), self@, verb, endpoint@, body),
    {
        let url = self.url_for(endpoint);
        let url_error = check_url(url.as_str());
        let encoded = Self::encode_body(verb, &body);
        let authorization = sign_now(&self.credentials, verb.name(), url.as_str());
        let r = assemble(verb, url, url_error, encoded, authorization);
        proof {
            let (nonce, timestamp) = choose|nonce: Seq<char>, timestamp: u64|
                authorization@ == signed_header(
                    self@.credentials,
                    verb_name(verb),
                    url@,
                    nonce,
                    timestamp,
                );
            assert(prepared_view(r) == prepared_at(
                self@,
                verb,
                endpoint@,
                body,
                nonce,
                timestamp,
            ));
        }
        r
    }

    /// Prepares a request and signs it under a nonce and a timestamp that
    /// the caller chose.
    pub fn request_at(
        &self,
        verb: HttpVerb,
        endpoint: &str,
        body: Option<serde_json::Value>,
        nonce: &str,
        timestamp: Timestamp,
    ) -> (r: Result<SignedRequest, MaasError>)
        ensures
            prepared_view(r) == prepared_at(self@, verb, endpoint@, body, nonce@, timestamp@),
    {
        let url = self.url_for(endpoint);
        let url_error = check_url(url.as_str());
        let encoded = Self::encode_body(verb, &body);
        let authorization = sign_at(&self.credentials, verb.name(), url.as_str(), nonce, timestamp);
        assemble(verb, url, url_error, encoded, authorization)
    }

    /// Prepares a signed `GET` of `endpoint`.
    pub fn get(&self, endpoint: &str) -> (r: Result<SignedRequest, MaasError>)
        ensures
            is_prepared(prepared_view(r), self@, HttpVerb::Get, endpoint@, None),
    {
        self.request(HttpVerb::Get, endpoint, None)
    }

    /// Prepares a signed `POST` to `endpoint` with `body`, if any, as JSON.
    pub fn post(&self, endpoint: &str, body: Option<serde_json::Value>) -> (r: Result<
        SignedRequest,
        MaasError,
    >)
        ensures
            is_prepared(prepared_view(r), self@, HttpVerb::Post, endpoint@, body),
    {
        self.request(HttpVerb::Post, endpoint, body)
    }

    /// Prepares a signed `PUT` to `endpoint` with `body`, if any, as JSON.
    pub fn put(&self, endpoint: &str, body: Option<serde_json::Value>) -> (r: Result<
        SignedRequest,
        MaasError,
    >)
        ensures
            is_prepared(prepared_view(r), self@, HttpVerb::Put, endpoint@, body),
    {
        self.request(HttpVerb::Put, endpoint, body)
    }

    /// Prepares a signed `DELETE` of `endpoint`.
    pub fn delete(&self, endpoint: &str) -> (r: Result<SignedRequest, MaasError>)
        ensures
            is_prepared(prepared_view(r), self@, HttpVerb::Delete, endpoint@, None),
    {
        self.request(HttpVerb::Delete, endpoint, None)
    }

    /// Encodes `body` where `verb` carries one.
    fn encode_body(verb: HttpVerb, body: &Option<serde_json::Value>) -> (encoded: Option<
        Result<String, serde_json::Error>,
    >)
        ensures
            encoding_view(encoded) == body_to_send(verb, *body),
    {
        match body {
            Some(value) => if verb.takes_body() {
                Some(encode_json(value))
            } else {
                None
            },
            None => None,
        }
    }
}

} // verus!
