//! The calls this library makes into other crates, each with the contract it
//! relies on.

use vstd::prelude::*;

verus! {

#[verifier::external_type_specification]
#[verifier::external_body]
pub struct ExJsonError(serde_json::Error);

/// The strings that serde_json reads from a text as a `Vec<String>` (a JSON
/// array of strings), or `None` where it refuses the text.
pub uninterp spec fn json_string_list(text: Seq<char>) -> Option<Seq<Seq<char>>>;

/// The views of a vector of strings.
pub open spec fn texts_of(v: Seq<String>) -> Seq<Seq<char>> {
    v.map_values(|s: String| s@)
}

/// Relies on `serde_json::from_str::<Vec<String>>`, whose outcome depends on
/// the text alone.
#[verifier::external_body]
pub(crate) fn parse_string_list(text: &str) -> (r: Result<Vec<String>, serde_json::Error>)
    ensures
        match r {
            Ok(v) => json_string_list(text@) == Some(texts_of(v@)),
            Err(_) => json_string_list(text@).is_none(),
        },
{
    serde_json::from_str::<Vec<String>>(text)
}

/// Whether `c` is a digit of lower-case hexadecimal.
pub open spec fn is_lower_hex(c: char) -> bool {
    ('0' <= c && c <= '9') || ('a' <= c && c <= 'f')
}

/// The shape of a UUID in its hyphenated lower-case text form: 36 characters,
/// hyphens at positions 8, 13, 18 and 23, hexadecimal digits elsewhere.
pub open spec fn is_hyphenated_uuid(t: Seq<char>) -> bool {
    &&& t.len() == 36
    &&& forall|i: int|
        0 <= i < 36 ==> if i == 8 || i == 13 || i == 18 || i == 23 {
            #[trigger] t[i] == '-'
        } else {
            is_lower_hex(t[i])
        }
}

/// Relies on `uuid::Uuid::new_v4` for a random identifier and on its
/// `Display`, which writes the hyphenated lower-case form. Nothing is known of
/// which identifier comes back.
#[verifier::external_body]
pub(crate) fn random_uuid_text() -> (r: String)
    ensures
        is_hyphenated_uuid(r@),
{
    uuid::Uuid::new_v4().to_string()
}

/// A bound, in milliseconds since the Unix epoch, above every instant that
/// chrono can represent (its calendar ends within the year 262143).
pub const CLOCK_LIMIT_MS: i64 = 10_000_000_000_000_000;

/// Relies on `chrono::Utc::now` and `DateTime::timestamp_millis`: the current
/// time in milliseconds since the Unix epoch. `Utc::now` panics on a clock set
/// before the epoch, so a returned reading is not negative, and chrono's
/// instants end within the year 262143.
#[verifier::external_body]
pub(crate) fn clock_millis() -> (r: i64)
    ensures
        0 <= r < CLOCK_LIMIT_MS,
{
    chrono::Utc::now().timestamp_millis()
}

} // verus!
