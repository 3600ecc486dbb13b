//! What a transport brings back, and what the client makes of it.

use vstd::prelude::*;
use crate::error::MaasError;
use crate::json::{json_parse, parse_json};

verus! {

/// The outcome of handing one request to a transport.
#[derive(Debug)]
pub enum Delivery {
    /// No response arrived; the text is the transport's cause.
    Failed(String),
    /// A response arrived. `body` is its text, or the cause for which the
    /// text could not be read.
    Answered { status: u16, body: Result<String, String> },
}

/// Whether `status` is one of 200..=299.
pub open spec fn is_success(status: u16) -> bool {
    200 <= status < 300
}

/// Whether `status` reports success.
pub fn status_is_success(status: u16) -> (b: bool)
    ensures
        b == is_success(status),
{
    200 <= status && status < 300
}

/// Whether `r` is what a parsed body stands for: the document itself, or a
/// serialization failure that wraps the parser's error.
pub open spec fn is_decoded(
    r: Result<serde_json::Value, MaasError>,
    parsed: Result<serde_json::Value, serde_json::Error>,
) -> bool {
    match parsed {
        Ok(value) => r == Ok::<serde_json::Value, MaasError>(value),
        Err(e) => r == Err::<serde_json::Value, MaasError>(MaasError::Serialization(e)),
    }
}

/// Whether `r` is what `delivery` stands for:
/// no response is a network failure with the transport's cause;
/// a status outside 200..=299 is an API error with the body's text, empty
/// where it could not be read;
/// a successful status with an unreadable body is a network failure;
/// otherwise the body decides, by what parsing it as JSON gives.
pub open spec fn is_interpretation(
    r: Result<serde_json::Value, MaasError>,
    delivery: Delivery,
) -> bool {
    match delivery {
        Delivery::Failed(cause) => r matches Err(MaasError::Network(c)) && c@ == cause@,
        Delivery::Answered { status, body } => if !is_success(status) {
            r matches Err(MaasError::ApiError { status: s, body: b }) && s == status && b@ == (
            match body {
                Ok(text) => text@,
                Err(_) => Seq::<char>::empty(),
            })
        } else {
            match body {
                Ok(text) => is_decoded(r, json_parse(text@)),
                Err(cause) => r matches Err(MaasError::Network(c)) && c@ == cause@,
            }
        },
    }
}

/// Turns the outcome of parsing a body into the result of the request.
pub fn decoded(parsed: Result<serde_json::Value, serde_json::Error>) -> (r: Result<
    serde_json::Value,
    MaasError,
>)
    ensures
        is_decoded(r, parsed),
{
    match parsed {
        Ok(value) => Ok(value),
        Err(e) => Err(MaasError::Serialization(e)),
    }
}

/// Maps what the transport brought back to the result of the request.
pub fn interpret(delivery: Delivery) -> (r: Result<serde_json::Value, MaasError>)
    ensures
        is_interpretation(r, delivery),
{
    match delivery {
        Delivery::Failed(cause) => Err(MaasError::Network(cause)),
        Delivery::Answered { status, body } => {
            if !status_is_success(status) {
                let text = match body {
                    Ok(text) => text,
                    Err(_) => String::new(),
                };
                Err(MaasError::ApiError { status, body: text })
            } else {
                match body {
                    Ok(text) => decoded(parse_json(text.as_str())),
                    Err(cause) => Err(MaasError::Network(cause)),
                }
            }
        },
    }
}

} // verus!
