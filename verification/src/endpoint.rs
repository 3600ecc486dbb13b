//! Addresses of API endpoints and the part of an address that is signed.

use vstd::prelude::*;
use vstd::string::StringExecFns;
use crate::text::{
    lemma_trim_end_is_trimmed, lemma_trim_start_ignores_padding, lemma_trim_start_is_trimmed,
    trim_end, trim_leading, trim_start,
};

verus! {

/// The character that separates the segments of a path.
pub const SLASH: char = '/';

/// The segment that precedes the API version: `/api/`.
pub open spec fn api_segment() -> Seq<char> {
    seq!['/', 'a', 'p', 'i', '/']
}

/// The address of `endpoint`: `{base}/api/{version}/{endpoint}`, the
/// endpoint taken without its leading slashes, however many there are.
pub open spec fn endpoint_url(base: Seq<char>, version: Seq<char>, endpoint: Seq<char>) -> Seq<
    char,
> {
    base + api_segment() + version + seq![SLASH] + trim_start(endpoint, SLASH)
}

/// Whether `url`, built from a base of length `base_len` and a version of
/// length `version_len`, has exactly one slash at each of its two joins:
/// none before the one that opens `/api/`, none after the one that closes
/// the version.
pub open spec fn joins_are_single(url: Seq<char>, base_len: int, version_len: int) -> bool {
    let after_version = base_len + api_segment().len() + version_len;
    &&& 0 <= base_len && 0 <= version_len && after_version < url.len()
    &&& url[base_len] == SLASH
    &&& base_len > 0 ==> url[base_len - 1] != SLASH
    &&& url[after_version] == SLASH
    &&& after_version + 1 < url.len() ==> url[after_version + 1] != SLASH
}

/// Under a base without trailing slashes, an address never has two slashes
/// in a row where the base meets `/api/`, nor where the version meets the
/// endpoint.
pub proof fn lemma_joins_are_single(base: Seq<char>, version: Seq<char>, endpoint: Seq<char>)
    requires
        trim_end(base, SLASH) == base,
    ensures
        joins_are_single(
            endpoint_url(base, version, endpoint),
            base.len() as int,
            version.len() as int,
        ),
{
    let url = endpoint_url(base, version, endpoint);
    let rest = trim_start(endpoint, SLASH);
    lemma_trim_start_is_trimmed(endpoint, SLASH);
    lemma_trim_end_is_trimmed(base, SLASH);
    let after_version = (base.len() + api_segment().len() + version.len()) as int;
    assert(url[base.len() as int] == api_segment()[0]);
    assert(url[after_version] == SLASH);
    if base.len() > 0 {
        assert(url[base.len() - 1] == base.last());
    }
    if after_version + 1 < url.len() {
        assert(url[after_version + 1] == rest[0]);
    }
}

/// A slash in front of an endpoint does not change its address.
pub proof fn lemma_leading_slash_is_ignored(
    base: Seq<char>,
    version: Seq<char>,
    endpoint: Seq<char>,
)
    ensures
        endpoint_url(base, version, seq![SLASH] + endpoint) == endpoint_url(
            base,
            version,
            endpoint,
        ),
{
    lemma_trim_start_ignores_padding(endpoint, SLASH);
}

/// Whether `c` ends the part of an address that takes part in a signature.
pub open spec fn ends_signed_part(c: char) -> bool {
    c == '?' || c == '#'
}

/// `url` up to, and without, its query and fragment.
pub open spec fn signed_part(url: Seq<char>) -> Seq<char>
    decreases url.len(),
{
    if url.len() == 0 || ends_signed_part(url.first()) {
        Seq::<char>::empty()
    } else {
        seq![url.first()] + signed_part(url.drop_first())
    }
}

/// The signed part is the prefix that ends before the first `?` or `#`.
pub proof fn lemma_signed_part_is_prefix(url: Seq<char>, k: int)
    requires
        0 <= k <= url.len(),
        forall|i: int| 0 <= i < k ==> !ends_signed_part(url[i]),
        k < url.len() ==> ends_signed_part(url[k]),
    ensures
        signed_part(url) == url.subrange(0, k),
    decreases k,
{
    if k == 0 {
        assert(url.subrange(0, 0) =~= Seq::<char>::empty());
    } else {
        lemma_signed_part_is_prefix(url.drop_first(), k - 1);
        assert(seq![url.first()] + url.drop_first().subrange(0, k - 1) =~= url.subrange(0, k));
    }
}

/// Builds the address of `endpoint` under `base` and `version`.
pub fn build_url(base: &str, version: &str, endpoint: &str) -> (url: String)
    ensures
        url@ == endpoint_url(base@, version@, endpoint@),
{
    proof {
        reveal_strlit("/api/");
        reveal_strlit("/");
    }
    let mut url = String::from_str(base);
    url.append("/api/");
    url.append(version);
    url.append("/");
    url.append(trim_leading(endpoint, SLASH));
    assert("/api/"@ =~= api_segment());
    assert("/"@ =~= seq![SLASH]);
    url
}

/// Borrows `url` up to its query or fragment.
pub fn strip_query_and_fragment(url: &str) -> (r: &str)
    ensures
        r@ == signed_part(url@),
        !r@.contains('?'),
        !r@.contains('#'),
{
    let total: usize = url.unicode_len();
    let mut kept: usize = 0;
    let mut open: bool = true;
    let chars = url.chars();
    for ch in it: chars
        invariant
            it.seq() == url@,
            url@.len() == total,
            kept <= it.index(),
            open ==> kept == it.index(),
            forall|i: int| 0 <= i < kept ==> !ends_signed_part(url@[i]),
            !open ==> kept < total && ends_signed_part(url@[kept as int]),
    {
        if open && ch != '?' && ch != '#' {
            kept = kept + 1;
        } else {
            open = false;
        }
    }
    proof {
        lemma_signed_part_is_prefix(url@, kept as int);
    }
    url.substring_char(0, kept)
}

/// Why `url::Url::parse` refuses `text`, or `None` where it accepts it.
pub uninterp spec fn url_parse_error(text: Seq<char>) -> Option<url::ParseError>;

/// Calls `url::Url::parse` and keeps only the error. The contract only
/// names the outcome: the same text gives the same outcome every time.
#[verifier::external_body]
pub(crate) fn check_url(text: &str) -> (r: Option<url::ParseError>)
    ensures
        r == url_parse_error(text@),
{
    url::Url::parse(text).err()
}

/// Adding a query or a fragment to an address leaves its signed part as it was.
pub proof fn lemma_signed_part_ignores_suffix(url: Seq<char>, mark: char, rest: Seq<char>)
    requires
        ends_signed_part(mark),
        forall|i: int| 0 <= i < url.len() ==> !ends_signed_part(url[i]),
    ensures
        signed_part(url + seq![mark] + rest) == url,
        signed_part(url) == url,
{
    let longer = url + seq![mark] + rest;
    lemma_signed_part_is_prefix(longer, url.len() as int);
    assert(longer.subrange(0, url.len() as int) =~= url);
    lemma_signed_part_is_prefix(url, url.len() as int);
    assert(url.subrange(0, url.len() as int) =~= url);
}

} // verus!
