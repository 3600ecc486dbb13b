//! The closed set of failures that the client reports.

use vstd::prelude::*;

verus! {

/// `serde_json::Error`, carried through without looking inside.
#[verifier::external_type_specification]
#[verifier::external_body]
pub struct ExJsonError(serde_json::Error);

/// `url::ParseError`, carried through without looking inside.
#[verifier::external_type_specification]
#[verifier::external_body]
pub struct ExUrlParseError(url::ParseError);

/// Every way in which building a client or performing a request can fail.
#[derive(Debug)]
pub enum MaasError {
    /// The API key does not consist of exactly three colon-delimited fields.
    InvalidKeyFormat,
    /// The transport could not complete the exchange; the text is its cause.
    Network(String),
    /// The server answered with a status outside 200..=299.
    ApiError { status: u16, body: String },
    /// A body could not be encoded as JSON, or a response was not JSON.
    Serialization(serde_json::Error),
    /// The address of the request is not a well-formed URL.
    UrlParseError(url::ParseError),
}

} // verus!
