use vstd::prelude::*;
use crate::models::Timestamp;

verus! {

/// Number of characters of a generated identifier.
pub const GENERATED_ID_LEN: usize = 8;

/// Whether `c` belongs to the URL-safe alphabet that identifiers are drawn
/// from: ASCII letters, digits, underscore and hyphen.
pub open spec fn is_safe_char(c: char) -> bool {
    ||| c == '_'
    ||| c == '-'
    ||| ('0' <= c && c <= '9')
    ||| ('a' <= c && c <= 'z')
    ||| ('A' <= c && c <= 'Z')
}

/// Whether `id` has the shape of a generated identifier: eight characters of
/// the URL-safe alphabet.
pub open spec fn is_generated_id(id: Seq<char>) -> bool {
    &&& id.len() == GENERATED_ID_LEN
    &&& forall|i: int| 0 <= i < id.len() ==> is_safe_char(#[trigger] id[i])
}

/// Whether the `url` crate parses the text as a URL.
pub uninterp spec fn url_parses(text: Seq<char>) -> bool;

/// Calls `nanoid::format` with the crate's default random source and its
/// URL-safe alphabet. Trusted: the result has exactly `size` characters, each
/// of that alphabet. Which characters is left open, as they are drawn at
/// random. A `size` of zero is excluded because the call would not return.
#[verifier::external_body]
fn random_safe_id(size: usize) -> (id: String)
    requires
        size > 0,
    ensures
        id@.len() == size,
        forall|i: int| 0 <= i < id@.len() ==> is_safe_char(#[trigger] id@[i]),
{
    nanoid::format(nanoid::rngs::default, &nanoid::alphabet::SAFE, size)
}

/// Calls `chrono::Utc::now` and reads the seconds and nanoseconds of the
/// result. Trusted, and nothing is claimed of the time returned. The call
/// panics on a machine whose clock stands before the Unix epoch.
#[verifier::external_body]
pub(crate) fn current_time() -> (now: Timestamp) {
    let now = chrono::Utc::now();
    Timestamp { secs: now.timestamp(), nanos: now.timestamp_subsec_nanos() }
}

/// Draws a random short identifier.
pub fn generate_short_id() -> (id: String)
    ensures
        is_generated_id(id@),
{
    random_safe_id(GENERATED_ID_LEN)
}

/// Calls `url::Url::parse` and reports whether it succeeded. Trusted: the
/// answer is the crate's verdict on the text, which depends on the text alone.
#[verifier::external_body]
pub fn is_valid_url(url: &str) -> (ok: bool)
    ensures
        ok == url_parses(url@),
{
    url::Url::parse(url).is_ok()
}

} // verus!
