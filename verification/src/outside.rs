//! What the library takes from outside itself: fresh identifiers, the
//! current time, and a few functions on text and bytes.
//!
//! Nothing here is proved. Each item names the function that it stands on
//! and states what that function is known to return, and no more.

use vstd::prelude::*;

verus! {

/// `str`'s `==`, as std documents it: two string slices are equal exactly
/// when they hold the same characters.
pub assume_specification[ <str as PartialEq>::eq ](a: &str, b: &str) -> (res: bool)
    ensures
        res == (a@ == b@),
;

/// A digit or one of the letters `a` to `f`.
pub open spec fn is_lower_hex(c: char) -> bool {
    ('0' <= c && c <= '9') || ('a' <= c && c <= 'f')
}

/// The shape of a hyphenated identifier: 36 characters, hyphens at places
/// 8, 13, 18 and 23, lower-case hexadecimal digits elsewhere.
pub open spec fn is_id_text(s: Seq<char>) -> bool {
    &&& s.len() == 36
    &&& forall|i: int|
        0 <= i < 36 ==> if i == 8 || i == 13 || i == 18 || i == 23 {
            #[trigger] s[i] == '-'
        } else {
            is_lower_hex(#[trigger] s[i])
        }
}

/// Calls `uuid::Uuid::new_v4` and writes the result out with `to_string`.
///
/// Trusted: the text has the hyphenated lower-case shape that the `uuid`
/// crate's `Display` produces. Which identifier comes back is left open; it
/// is drawn from the operating system's random source, and the call aborts
/// if that source gives nothing.
#[verifier::external_body]
pub(crate) fn new_id() -> (id: String)
    ensures
        is_id_text(id@),
{
    uuid::Uuid::new_v4().to_string()
}

/// Calls `chrono::Utc::now` and writes the result out with `to_rfc3339`.
///
/// Trusted, and nothing is claimed of the text: it depends on the clock.
/// The call aborts if the clock stands before 1970.
#[verifier::external_body]
pub(crate) fn now_rfc3339() -> (stamp: String) {
    chrono::Utc::now().to_rfc3339()
}

/// Calls `chrono::Utc::now` and takes the result's `timestamp_millis`.
///
/// Trusted, and nothing is claimed of the number: it depends on the clock.
/// The call aborts if the clock stands before 1970.
#[verifier::external_body]
pub(crate) fn now_millis() -> (millis: i64) {
    chrono::Utc::now().timestamp_millis()
}

/// What `str::to_lowercase` makes of a text.
pub uninterp spec fn lowercase_of(text: Seq<char>) -> Seq<char>;

/// Calls `str::to_lowercase`.
///
/// Trusted: the result is a function of the text alone. Which characters
/// have which lower-case form is left to std's tables.
#[verifier::external_body]
pub(crate) fn to_lowercase(text: &str) -> (lower: String)
    ensures
        lower@ == lowercase_of(text@),
{
    text.to_lowercase()
}

/// What `str::trim` leaves of a text.
pub uninterp spec fn trimmed_of(text: Seq<char>) -> Seq<char>;

/// Calls `str::trim`.
///
/// Trusted: the result is a function of the text alone. Which characters
/// count as white space is left to std's tables.
#[verifier::external_body]
pub(crate) fn trim(text: &str) -> (trimmed: &str)
    ensures
        trimmed@ == trimmed_of(text@),
{
    text.trim()
}

/// What the `base64` crate's standard engine, with padding, makes of
/// bytes.
pub uninterp spec fn base64_of(bytes: Seq<u8>) -> Seq<char>;

/// Whether the `base64` crate can encode as many bytes as `len`: the
/// length of the encoded text, four characters for every three bytes
/// begun, has to be a `usize`.
pub open spec fn encodable(len: nat) -> bool {
    len / 3 * 4 + 4 <= usize::MAX
}

/// Calls `encode` of `base64::engine::general_purpose::STANDARD`.
///
/// Trusted: the result is a function of the bytes alone. The crate
/// aborts where it cannot count the encoded length, so such inputs are
/// kept out.
#[verifier::external_body]
pub(crate) fn base64_standard(bytes: &[u8]) -> (encoded: String)
    requires
        encodable(bytes@.len()),
    ensures
        encoded@ == base64_of(bytes@),
{
    base64::Engine::encode(&base64::engine::general_purpose::STANDARD, bytes)
}

} // verus!
