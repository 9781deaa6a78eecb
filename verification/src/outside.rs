//! Calls into other crates, and into parts of the standard library that come
//! without a specification. Nothing in this file is proved: each contract
//! states what the called function is documented to do, and a result that
//! cannot be written down in a few lines is given a name.

use std::hash::Hash;
use std::collections::hash_map::DefaultHasher;
use base64::Engine;
use vstd::prelude::*;
use vstd::utf8::*;

verus! {

/// What `regex::Regex::replace_all` returns for a haystack and a replacement
/// text, the regex being compiled from `pattern`; `None` where `pattern` does
/// not compile.
pub uninterp spec fn regex_replaced(
    pattern: Seq<char>,
    text: Seq<char>,
    replacement: Seq<char>,
) -> Option<Seq<char>>;

/// What the first capture group holds in the leftmost match that
/// `regex::bytes::Regex::captures` finds in `haystack`, the regex being
/// compiled from `pattern`. The outer `None` stands for a pattern that does
/// not compile, the inner one for no match, or a match in which the group
/// took no part.
pub uninterp spec fn regex_group_one(pattern: Seq<char>, haystack: Seq<u8>) -> Option<
    Option<Seq<u8>>,
>;

/// What a search for group 1 found, as plain values.
pub open spec fn capture_view(capture: Option<Option<Vec<u8>>>) -> Option<Option<Seq<u8>>> {
    match capture {
        None => None,
        Some(None) => Some(None),
        Some(Some(bytes)) => Some(Some(bytes@)),
    }
}

/// The standard-alphabet base64 text of `bytes`, without padding.
pub uninterp spec fn base64_text(bytes: Seq<u8>) -> Seq<char>;

/// The byte chunks that hashing a `str` feeds to a hasher.
pub uninterp spec fn text_hash_writes(text: Seq<char>) -> Seq<Seq<u8>>;

/// The text that `String::from_utf8_lossy` makes of `bytes`.
pub uninterp spec fn lossy_text(bytes: Seq<u8>) -> Seq<char>;

/// `text` without leading and trailing whitespace, as `str::trim` returns it.
pub uninterp spec fn trimmed_text(text: Seq<char>) -> Seq<char>;

/// The lowercase form of `text`, as `str::to_lowercase` returns it.
pub uninterp spec fn lowercase_text(text: Seq<char>) -> Seq<char>;

/// Compiles `pattern` with `regex::Regex::new` and replaces every match in
/// `text` with `replacement` through `Regex::replace_all`. The contract only
/// names the outcome.
#[verifier::external_body]
pub(crate) fn regex_replace_all(pattern: &str, text: &str, replacement: &str) -> (r: Option<String>)
    ensures
        crate::text::opt_text(r) == regex_replaced(pattern@, text@, replacement@),
{
    match regex::Regex::new(pattern) {
        Ok(re) => Some(re.replace_all(text, replacement).into_owned()),
        Err(_) => None,
    }
}

/// Compiles `pattern` with `regex::bytes::Regex::new`, searches `haystack`
/// with `Regex::captures` and copies what group 1 matched. The contract only
/// names the outcome.
#[verifier::external_body]
pub(crate) fn regex_first_group(pattern: &str, haystack: &[u8]) -> (r: Option<Option<Vec<u8>>>)
    ensures
        capture_view(r) == regex_group_one(pattern@, haystack@),
{
    match regex::bytes::Regex::new(pattern) {
        Ok(re) => Some(re.captures(haystack).and_then(|c| c.get(1)).map(|m| m.as_bytes().to_vec())),
        Err(_) => None,
    }
}

/// `Engine::encode` of `base64::prelude::BASE64_STANDARD_NO_PAD`. It panics
/// where the length of the output does not fit in `usize`, which the bound on
/// the input rules out.
#[verifier::external_body]
pub(crate) fn base64_no_pad(bytes: &[u8]) -> (r: String)
    requires
        bytes@.len() * 2 <= usize::MAX,
    ensures
        r@ == base64_text(bytes@),
{
    base64::prelude::BASE64_STANDARD_NO_PAD.encode(bytes)
}

/// The sixteen bytes of `uuid::Uuid::new_v4()`, in the order of
/// `Uuid::to_bytes_le`. They are random: only their number is stated. The
/// call panics where the system has no random bytes to give.
#[verifier::external_body]
pub(crate) fn random_token() -> (r: Vec<u8>)
    ensures
        r@.len() == 16,
{
    uuid::Uuid::new_v4().to_bytes_le().to_vec()
}

/// `<str as Hash>::hash`: feeds `text` to the hasher. The standard library
/// documents that equal values hash alike; the contract says it in this
/// form: what is fed depends on the text alone, and is fed behind what the
/// hasher had taken before.
#[verifier::external_body]
pub(crate) fn hash_text(text: &str, state: &mut DefaultHasher)
    ensures
        final(state)@ == old(state)@ + text_hash_writes(text@),
{
    text.hash(state)
}

/// `String::from_utf8_lossy`: valid UTF-8 comes back as the text it encodes;
/// of other input the contract only names the outcome.
#[verifier::external_body]
pub(crate) fn from_utf8_lossy(bytes: &[u8]) -> (r: String)
    ensures
        r@ == lossy_text(bytes@),
        valid_utf8(bytes@) ==> r@ == decode_utf8(bytes@),
{
    String::from_utf8_lossy(bytes).into_owned()
}

/// `str::trim`. The contract only names the outcome.
#[verifier::external_body]
pub(crate) fn trim(text: &str) -> (r: String)
    ensures
        r@ == trimmed_text(text@),
{
    text.trim().to_owned()
}

/// `str::to_lowercase`. The contract only names the outcome.
#[verifier::external_body]
pub(crate) fn to_lowercase(text: &str) -> (r: String)
    ensures
        r@ == lowercase_text(text@),
{
    text.to_lowercase()
}

} // verus!
