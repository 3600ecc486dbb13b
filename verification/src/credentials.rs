//! The OAuth1 credentials of a client, read from an API key.

use vstd::prelude::*;
use vstd::string::StringExecFns;
use crate::error::MaasError;
use crate::text::{
    fields, join, lemma_fields_hold_no_separator, lemma_fields_of_join, lemma_join_fields,
    split_fields,
};

verus! {

/// The character between the fields of an API key.
pub const KEY_SEPARATOR: char = ':';

/// The three secrets-bearing fields of an API key. The consumer secret of
/// this API is always empty and therefore not stored.
#[derive(Debug)]
pub struct Credentials {
    pub consumer_key: String,
    pub token_key: String,
    pub token_secret: String,
}

/// What a `Credentials` value stands for in contracts.
pub struct CredentialsView {
    pub consumer_key: Seq<char>,
    pub token_key: Seq<char>,
    pub token_secret: Seq<char>,
}

impl View for Credentials {
    type V = CredentialsView;

    open spec fn view(&self) -> CredentialsView {
        CredentialsView {
            consumer_key: self.consumer_key@,
            token_key: self.token_key@,
            token_secret: self.token_secret@,
        }
    }
}

/// The credentials that `key` spells, if it has exactly three fields.
pub open spec fn key_credentials(key: Seq<char>) -> Option<CredentialsView> {
    let parts = fields(key, KEY_SEPARATOR);
    if parts.len() == 3 {
        Some(CredentialsView { consumer_key: parts[0], token_key: parts[1], token_secret: parts[2] })
    } else {
        None
    }
}

impl Credentials {
    /// Reads `consumer:token:secret`. Fields may be empty; any other number
    /// of fields is an `InvalidKeyFormat`.
    pub fn parse(api_key: &str) -> (r: Result<Credentials, MaasError>)
        ensures
            match r {
                Ok(c) => key_credentials(api_key@) == Some(c@),
                Err(e) => e is InvalidKeyFormat && key_credentials(api_key@) is None,
            },
    {
        let parts = split_fields(api_key, KEY_SEPARATOR);
        if parts.len() != 3 {
            return Err(MaasError::InvalidKeyFormat);
        }
        Ok(
            Credentials {
                consumer_key: String::from_str(parts[0]),
                token_key: String::from_str(parts[1]),
                token_secret: String::from_str(parts[2]),
            },
        )
    }
}

/// A key written as three colon-free texts with colons between them spells
/// exactly those three fields.
pub proof fn lemma_key_of_three_fields(a: Seq<char>, b: Seq<char>, c: Seq<char>)
    requires
        !a.contains(KEY_SEPARATOR),
        !b.contains(KEY_SEPARATOR),
        !c.contains(KEY_SEPARATOR),
    ensures
        key_credentials(a + seq![KEY_SEPARATOR] + b + seq![KEY_SEPARATOR] + c) == Some(
            CredentialsView { consumer_key: a, token_key: b, token_secret: c },
        ),
{
    let parts = seq![a, b, c];
    lemma_fields_of_join(parts, KEY_SEPARATOR);
    assert(parts.drop_last() =~= seq![a, b]);
    assert(parts.drop_last().drop_last() =~= seq![a]);
    assert(join(seq![a], KEY_SEPARATOR) == a);
    assert(join(seq![a, b], KEY_SEPARATOR) =~= a + seq![KEY_SEPARATOR] + b);
    assert(join(parts, KEY_SEPARATOR) =~= a + seq![KEY_SEPARATOR] + b + seq![KEY_SEPARATOR] + c);
}

/// A key that spells credentials is their three fields with colons
/// between them, and none of the fields holds a colon.
pub proof fn lemma_key_is_its_fields(key: Seq<char>)
    requires
        key_credentials(key) is Some,
    ensures
        ({
            let c = key_credentials(key)->0;
            &&& key == c.consumer_key + seq![KEY_SEPARATOR] + c.token_key + seq![KEY_SEPARATOR]
                + c.token_secret
            &&& !c.consumer_key.contains(KEY_SEPARATOR)
            &&& !c.token_key.contains(KEY_SEPARATOR)
            &&& !c.token_secret.contains(KEY_SEPARATOR)
        }),
{
    let parts = fields(key, KEY_SEPARATOR);
    lemma_join_fields(key, KEY_SEPARATOR);
    lemma_fields_hold_no_separator(key, KEY_SEPARATOR);
    assert(!parts[0].contains(KEY_SEPARATOR));
    assert(!parts[1].contains(KEY_SEPARATOR));
    assert(!parts[2].contains(KEY_SEPARATOR));
    assert(parts.drop_last().drop_last() =~= seq![parts[0]]);
    assert(join(seq![parts[0]], KEY_SEPARATOR) == parts[0]);
    assert(join(parts.drop_last(), KEY_SEPARATOR) =~= parts[0] + seq![KEY_SEPARATOR] + parts[1]);
    assert(join(parts, KEY_SEPARATOR) =~= parts[0] + seq![KEY_SEPARATOR] + parts[1] + seq![
        KEY_SEPARATOR,
    ] + parts[2]);
}

} // verus!
