//! JSON documents, read and written by `serde_json`.

use vstd::prelude::*;

verus! {

/// `serde_json::Value`, a JSON document carried through without looking inside.
#[verifier::external_type_specification]
#[verifier::external_body]
pub struct ExJsonValue(serde_json::Value);

/// What `serde_json` makes of `text`: the document it spells, or why it
/// spells none.
pub uninterp spec fn json_parse(text: Seq<char>) -> Result<serde_json::Value, serde_json::Error>;

/// What `serde_json` writes for `value`: its compact text, or why it has none.
pub uninterp spec fn json_encode(value: serde_json::Value) -> Result<Seq<char>, serde_json::Error>;

/// Calls `serde_json::from_str`. The contract only names the outcome: the
/// same text gives the same outcome every time.
#[verifier::external_body]
pub(crate) fn parse_json(text: &str) -> (r: Result<serde_json::Value, serde_json::Error>)
    ensures
        r == json_parse(text@),
{
    serde_json::from_str(text)
}

/// Calls `serde_json::to_string`. The contract only names the outcome: the
/// same document gives the same outcome every time.
#[verifier::external_body]
pub(crate) fn encode_json(value: &serde_json::Value) -> (r: Result<String, serde_json::Error>)
    ensures
        match r {
            Ok(text) => json_encode(*value) == Ok::<Seq<char>, serde_json::Error>(text@),
            Err(e) => json_encode(*value) == Err::<Seq<char>, serde_json::Error>(e),
        },
{
    serde_json::to_string(value)
}

} // verus!
