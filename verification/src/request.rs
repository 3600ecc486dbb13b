//! Requests as they are handed to a transport.

use vstd::prelude::*;
use vstd::string::StringExecFns;
use crate::error::MaasError;
use crate::json::json_encode;

verus! {

/// The request methods that the API uses.
#[derive(Debug, Clone, Copy, PartialEq, Eq, Structural)]
pub enum HttpVerb {
    Get,
    Post,
    Put,
    Delete,
}

/// The method as it is written on the wire and in the signature.
pub open spec fn verb_name(verb: HttpVerb) -> Seq<char> {
    match verb {
        HttpVerb::Get => seq!['G', 'E', 'T'],
        HttpVerb::Post => seq!['P', 'O', 'S', 'T'],
        HttpVerb::Put => seq!['P', 'U', 'T'],
        HttpVerb::Delete => seq!['D', 'E', 'L', 'E', 'T', 'E'],
    }
}

/// Whether requests of this method carry a body.
pub open spec fn accepts_body(verb: HttpVerb) -> bool {
    verb is Post || verb is Put
}

impl HttpVerb {
    /// The method in upper case.
    pub fn name(&self) -> (r: &'static str)
        ensures
            r@ == verb_name(*self),
    {
        proof {
            reveal_strlit("GET");
            reveal_strlit("POST");
            reveal_strlit("PUT");
            reveal_strlit("DELETE");
        }
        let r = match self {
            HttpVerb::Get => "GET",
            HttpVerb::Post => "POST",
            HttpVerb::Put => "PUT",
            HttpVerb::Delete => "DELETE",
        };
        assert(r@ =~= verb_name(*self));
        r
    }

    /// Whether requests of this method carry a body.
    pub fn takes_body(&self) -> (b: bool)
        ensures
            b == accepts_body(*self),
    {
        match self {
            HttpVerb::Post | HttpVerb::Put => true,
            HttpVerb::Get | HttpVerb::Delete => false,
        }
    }
}

/// A request that is ready to be sent: nothing about it is left to decide.
#[derive(Debug)]
pub struct SignedRequest {
    pub verb: HttpVerb,
    pub url: String,
    /// The value of the `Authorization` header.
    pub authorization: String,
    /// The value of the `Content-Type` header.
    pub content_type: String,
    /// The JSON text to send, if any.
    pub body: Option<String>,
}

/// What a `SignedRequest` stands for in contracts.
pub struct RequestView {
    pub verb: HttpVerb,
    pub url: Seq<char>,
    pub authorization: Seq<char>,
    pub content_type: Seq<char>,
    pub body: Option<Seq<char>>,
}

impl View for SignedRequest {
    type V = RequestView;

    open spec fn view(&self) -> RequestView {
        RequestView {
            verb: self.verb,
            url: self.url@,
            authorization: self.authorization@,
            content_type: self.content_type@,
            body: match self.body {
                Some(text) => Some(text@),
                None => None,
            },
        }
    }
}

/// The content type of every request.
pub open spec fn json_content_type() -> Seq<char> {
    "application/json"@
}

/// What becomes of the body handed to a request: it is encoded where the
/// method carries one, and left out otherwise.
pub open spec fn body_to_send(verb: HttpVerb, body: Option<serde_json::Value>) -> Option<
    Result<Seq<char>, serde_json::Error>,
> {
    match body {
        Some(value) => if accepts_body(verb) {
            Some(json_encode(value))
        } else {
            None
        },
        None => None,
    }
}

/// An encoding attempt as contracts see it.
pub open spec fn encoding_view(encoded: Option<Result<String, serde_json::Error>>) -> Option<
    Result<Seq<char>, serde_json::Error>,
> {
    match encoded {
        Some(Ok(text)) => Some(Ok(text@)),
        Some(Err(e)) => Some(Err(e)),
        None => None,
    }
}

/// The request that the parts make, or the first thing wrong with them: a
/// malformed address comes before a body that could not be encoded.
pub open spec fn assembled(
    verb: HttpVerb,
    url: Seq<char>,
    url_error: Option<url::ParseError>,
    encoded: Option<Result<Seq<char>, serde_json::Error>>,
    authorization: Seq<char>,
) -> Result<RequestView, MaasError> {
    match url_error {
        Some(e) => Err(MaasError::UrlParseError(e)),
        None => match encoded {
            Some(Err(e)) => Err(MaasError::Serialization(e)),
            Some(Ok(text)) => Ok(
                RequestView {
                    verb,
                    url,
                    authorization,
                    content_type: json_content_type(),
                    body: Some(text),
                },
            ),
            None => Ok(
                RequestView {
                    verb,
                    url,
                    authorization,
                    content_type: json_content_type(),
                    body: None,
                },
            ),
        },
    }
}

/// The outcome of preparing a request as contracts see it.
pub open spec fn prepared_view(r: Result<SignedRequest, MaasError>) -> Result<
    RequestView,
    MaasError,
> {
    match r {
        Ok(request) => Ok(request@),
        Err(e) => Err(e),
    }
}

/// Puts a request together from its parts, after what was found out about
/// the address and the body.
pub fn assemble(
    verb: HttpVerb,
    url: String,
    url_error: Option<url::ParseError>,
    encoded: Option<Result<String, serde_json::Error>>,
    authorization: String,
) -> (r: Result<SignedRequest, MaasError>)
    ensures
        prepared_view(r) == assembled(
            verb,
            url@,
            url_error,
            encoding_view(encoded),
            authorization@,
        ),
{
    if let Some(e) = url_error {
        return Err(MaasError::UrlParseError(e));
    }
    let body = match encoded {
        Some(Err(e)) => {
            return Err(MaasError::Serialization(e));
        },
        Some(Ok(text)) => Some(text),
        None => None,
    };
    let content_type = String::from_str("application/json");
    Ok(SignedRequest { verb, url, authorization, content_type, body })
}

} // verus!
