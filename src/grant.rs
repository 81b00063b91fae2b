//! License grants: a short token and an expiration time.

use vstd::prelude::*;

use crate::outside::{is_lower_hex, CLOCK_LIMIT_MS};

verus! {

/// Length of an issued license token, in characters.
pub const TOKEN_LEN: usize = 6;

/// How long an issued license lasts: three days, in milliseconds.
pub const VALIDITY_MS: i64 = 259_200_000;

/// A license handed to a caller. It is not recorded anywhere.
#[derive(Debug, Clone)]
pub struct LicenseGrant {
    /// The license token.
    pub assigned_license: String,
    /// When the license expires, in milliseconds since the Unix epoch.
    pub expires: i64,
}

/// Whether a token has the shape of an issued one: six lower-case hexadecimal
/// digits.
pub open spec fn is_token(t: Seq<char>) -> bool {
    t.len() == TOKEN_LEN && forall|i: int| 0 <= i < t.len() ==> is_lower_hex(#[trigger] t[i])
}

/// The token cut from an identifier's text: its first six characters.
pub fn license_token(id_text: &str) -> (r: String)
    requires
        id_text@.len() >= TOKEN_LEN,
    ensures
        r@ == id_text@.subrange(0, TOKEN_LEN as int),
{
    id_text.substring_char(0, TOKEN_LEN).to_owned()
}

/// The expiration time of a license issued at `now_ms`.
pub fn expiry_from(now_ms: i64) -> (r: i64)
    requires
        now_ms <= i64::MAX - VALIDITY_MS,
    ensures
        r == now_ms + VALIDITY_MS,
        now_ms < r <= now_ms + VALIDITY_MS,
{
    now_ms + VALIDITY_MS
}

/// The grant made at `now_ms` from a freshly drawn identifier's text.
pub fn grant_at(id_text: &str, now_ms: i64) -> (g: LicenseGrant)
    requires
        id_text@.len() >= TOKEN_LEN,
        now_ms <= i64::MAX - VALIDITY_MS,
    ensures
        g.assigned_license@ == id_text@.subrange(0, TOKEN_LEN as int),
        g.expires == now_ms + VALIDITY_MS,
        now_ms < g.expires <= now_ms + VALIDITY_MS,
{
    LicenseGrant { assigned_license: license_token(id_text), expires: expiry_from(now_ms) }
}

/// A grant issued now, with a random token. Two calls give two independent
/// draws.
pub fn fresh_grant() -> (g: LicenseGrant)
    ensures
        is_token(g.assigned_license@),
        VALIDITY_MS <= g.expires < CLOCK_LIMIT_MS + VALIDITY_MS,
{
    let id_text = crate::outside::random_uuid_text();
    let now_ms = crate::outside::clock_millis();
    let g = grant_at(id_text.as_str(), now_ms);
    assert(forall|i: int| 0 <= i < TOKEN_LEN ==> g.assigned_license@[i] == id_text@[i]);
    g
}

} // verus!
