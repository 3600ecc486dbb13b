//! OAuth1 `Authorization` headers, laid out and signed by `oauth1_request`.

use vstd::prelude::*;
use crate::credentials::{Credentials, CredentialsView};
use crate::endpoint::{signed_part, strip_query_and_fragment};

verus! {

/// A time as OAuth1 writes it: whole seconds since the Unix epoch, and at
/// least one, since the protocol asks for a positive number.
#[derive(Debug, Clone, Copy)]
pub struct Timestamp {
    seconds: u64,
}

impl View for Timestamp {
    type V = u64;

    closed spec fn view(&self) -> u64 {
        self.seconds
    }
}

impl Timestamp {
    #[verifier::type_invariant]
    spec fn is_positive(&self) -> bool {
        self.seconds > 0
    }

    /// The timestamp of `seconds`, unless `seconds` is zero.
    pub fn new(seconds: u64) -> (r: Option<Timestamp>)
        ensures
            match r {
                Some(timestamp) => seconds > 0 && timestamp@ == seconds,
                None => seconds == 0,
            },
    {
        if seconds == 0 {
            None
        } else {
            Some(Timestamp { seconds })
        }
    }

    /// The seconds since the Unix epoch.
    pub fn seconds(&self) -> (seconds: u64)
        ensures
            seconds == self@,
            seconds > 0,
    {
        proof {
            use_type_invariant(self);
        }
        self.seconds
    }
}

/// The header that signs `method` on `url` for `credentials` with the given
/// nonce and timestamp. The consumer secret is empty, the address is signed
/// without its query and fragment, and `oauth_version` is included.
pub open spec fn signed_header(
    credentials: CredentialsView,
    method: Seq<char>,
    url: Seq<char>,
    nonce: Seq<char>,
    timestamp: u64,
) -> Seq<char> {
    oauth1_header(
        method,
        signed_part(url),
        credentials.consumer_key,
        Seq::<char>::empty(),
        credentials.token_key,
        credentials.token_secret,
        nonce,
        timestamp,
        true,
    )
}

/// Whether `header` signs `method` on `url` for `credentials` with some
/// nonce and some timestamp.
pub open spec fn signs(
    header: Seq<char>,
    credentials: CredentialsView,
    method: Seq<char>,
    url: Seq<char>,
) -> bool {
    exists|nonce: Seq<char>, timestamp: u64|
        header == signed_header(credentials, method, url, nonce, timestamp)
}

/// Signs `method` on `url` with a nonce and a timestamp that the caller chose.
pub fn sign_at(
    credentials: &Credentials,
    method: &str,
    url: &str,
    nonce: &str,
    timestamp: Timestamp,
) -> (header: String)
    ensures
        header@ == signed_header(credentials@, method@, url@, nonce@, timestamp@),
{
    proof {
        reveal_strlit("");
    }
    let header = authorize(
        method,
        strip_query_and_fragment(url),
        (credentials.consumer_key.as_str(), ""),
        (credentials.token_key.as_str(), credentials.token_secret.as_str()),
        Some(nonce),
        Some(timestamp.seconds()),
        true,
    );
    assert(""@ =~= Seq::<char>::empty());
    header
}

/// Signs `method` on `url` with a fresh nonce and the current time.
pub fn sign_now(credentials: &Credentials, method: &str, url: &str) -> (header: String)
    ensures
        signs(header@, credentials@, method@, url@),
{
    proof {
        reveal_strlit("");
    }
    let uri = strip_query_and_fragment(url);
    let header = authorize(
        method,
        uri,
        (credentials.consumer_key.as_str(), ""),
        (credentials.token_key.as_str(), credentials.token_secret.as_str()),
        None,
        None,
        true,
    );
    proof {
        assert(""@ =~= Seq::<char>::empty());
        let (nonce, timestamp) = choose|nonce: Seq<char>, timestamp: u64|
            header@ == oauth1_header(
                method@,
                uri@,
                credentials.consumer_key@,
                ""@,
                credentials.token_key@,
                credentials.token_secret@,
                nonce,
                timestamp,
                true,
            );
        assert(header@ == signed_header(credentials@, method@, url@, nonce, timestamp));
    }
    header
}

/// Signing is a function of its inputs: headers made for the same method,
/// address, credentials, nonce and timestamp are the same text.
pub proof fn lemma_signing_is_repeatable(
    credentials: CredentialsView,
    method: Seq<char>,
    url: Seq<char>,
    nonce: Seq<char>,
    timestamp: u64,
    first: Seq<char>,
    second: Seq<char>,
)
    requires
        first == signed_header(credentials, method, url, nonce, timestamp),
        second == signed_header(credentials, method, url, nonce, timestamp),
    ensures
        first == second,
{
}

/// Two addresses that differ only in query or fragment get the same header.
pub proof fn lemma_signing_ignores_query(
    credentials: CredentialsView,
    method: Seq<char>,
    url: Seq<char>,
    other: Seq<char>,
    nonce: Seq<char>,
    timestamp: u64,
)
    requires
        signed_part(url) == signed_part(other),
    ensures
        signed_header(credentials, method, url, nonce, timestamp) == signed_header(
            credentials,
            method,
            other,
            nonce,
            timestamp,
        ),
{
}

/// The header value that `oauth1_request` produces with HMAC-SHA1 for a
/// request without parameters of its own, given everything that goes into
/// it: the method and address, both pairs of credentials, the nonce, the
/// timestamp, and whether `oauth_version` is included.
pub uninterp spec fn oauth1_header(
    method: Seq<char>,
    uri: Seq<char>,
    consumer_key: Seq<char>,
    consumer_secret: Seq<char>,
    token_key: Seq<char>,
    token_secret: Seq<char>,
    nonce: Seq<char>,
    timestamp: u64,
    with_version: bool,
) -> Seq<char>;

/// Calls `oauth1_request::Builder::authorize` with HMAC-SHA1 and no request
/// parameters. A nonce or timestamp that is given is used; for one that is
/// not, the crate draws a nonce or reads the clock. Either way the header
/// is the one that the nonce and timestamp in use give: the contract names
/// it and says no more. Left out by `requires`: an address with a `?`, on
/// which the call panics in debug builds, and a timestamp of zero, which
/// the crate cannot take.
#[verifier::external_body]
pub(crate) fn authorize(
    method: &str,
    uri: &str,
    consumer: (&str, &str),
    token: (&str, &str),
    nonce: Option<&str>,
    timestamp: Option<u64>,
    with_version: bool,
) -> (header: String)
    requires
        !uri@.contains('?'),
        timestamp != Some(0u64),
    ensures
        match (nonce, timestamp) {
            (Some(n), Some(t)) => header@ == oauth1_header(
                method@,
                uri@,
                consumer.0@,
                consumer.1@,
                token.0@,
                token.1@,
                n@,
                t,
                with_version,
            ),
            (Some(n), None) => exists|t: u64| header@ == oauth1_header(
                method@,
                uri@,
                consumer.0@,
                consumer.1@,
                token.0@,
                token.1@,
                n@,
                t,
                with_version,
            ),
            (None, Some(t)) => exists|n: Seq<char>| header@ == oauth1_header(
                method@,
                uri@,
                consumer.0@,
                consumer.1@,
                token.0@,
                token.1@,
                n,
                t,
                with_version,
            ),
            (None, None) => exists|n: Seq<char>, t: u64| header@ == oauth1_header(
                method@,
                uri@,
                consumer.0@,
                consumer.1@,
                token.0@,
                token.1@,
                n,
                t,
                with_version,
            ),
        },
{
    let client = oauth1_request::Credentials::new(consumer.0, consumer.1);
    let method_of_signing = oauth1_request::HmacSha1::new();
    let mut builder = oauth1_request::Builder::<_, &str, &str>::new(client, method_of_signing);
    builder.token(oauth1_request::Credentials::new(token.0, token.1));
    builder.nonce(nonce).timestamp(timestamp.and_then(std::num::NonZeroU64::new));
    builder.version(with_version).authorize(method, uri, &())
}

} // verus!
