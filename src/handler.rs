//! The replies of the service and the decision that produces them.

use vstd::prelude::*;

use crate::grant::{fresh_grant, is_token, LicenseGrant, VALIDITY_MS};
use crate::outside::{json_string_list, CLOCK_LIMIT_MS};
use crate::policy::{check_psk, verdict, IssueError};

verus! {

/// HTTP status of a granted license.
pub const STATUS_OK: u16 = 200;

/// HTTP status of every refusal.
pub const STATUS_REFUSED: u16 = 500;

/// The message of every refusal, whatever its cause.
pub open spec fn refusal_message() -> Seq<char> {
    "Invalid PSK; Cannot assign licenses"@
}

/// The body of a refusal.
#[derive(Debug, Clone)]
pub struct ErrorBody {
    /// A fixed message that does not tell the causes apart.
    pub error: String,
}

/// What the service answers to a license request.
#[derive(Debug, Clone)]
pub enum Reply {
    /// A license was issued.
    Granted(LicenseGrant),
    /// No license was issued.
    Refused(ErrorBody),
}

impl Reply {
    /// The HTTP status that carries this reply.
    pub fn status(&self) -> (r: u16)
        ensures
            r == if self is Granted {
                STATUS_OK
            } else {
                STATUS_REFUSED
            },
    {
        match self {
            Reply::Granted(_) => STATUS_OK,
            Reply::Refused(_) => STATUS_REFUSED,
        }
    }
}

/// The body sent for a refusal of any kind.
pub fn refusal_body(_cause: IssueError) -> (b: ErrorBody)
    ensures
        b.error@ == refusal_message(),
{
    ErrorBody { error: "Invalid PSK; Cannot assign licenses".to_owned() }
}

/// Whether `r` is the refusal that every failed request receives.
pub open spec fn is_refusal(r: Reply) -> bool {
    r is Refused && r->Refused_0.error@ == refusal_message()
}

/// Decides a license request, given its `PSK` header (`None` when absent or
/// not valid text) and the allow-list configuration text (`None` when unset).
/// A license is issued exactly when the header names a member of a well-formed
/// allow-list; otherwise the error says why not.
pub fn issue(header: &Option<String>, config: &Option<String>) -> (r: Result<
    LicenseGrant,
    IssueError,
>)
    ensures
        r is Ok <==> verdict(header.deep_view(), config.deep_view()) is Ok,
        r matches Err(e) ==> verdict(header.deep_view(), config.deep_view()) == Err::<(), _>(e),
        r matches Ok(g) ==> is_token(g.assigned_license@),
        r matches Ok(g) ==> VALIDITY_MS <= g.expires < CLOCK_LIMIT_MS + VALIDITY_MS,
{
    match check_psk(header, config) {
        Ok(()) => Ok(fresh_grant()),
        Err(e) => Err(e),
    }
}

/// The reply to a decided request: the grant itself, or the one refusal that
/// every kind of failure receives.
pub fn reply_for(outcome: Result<LicenseGrant, IssueError>) -> (r: Reply)
    ensures
        outcome matches Ok(g) ==> r == Reply::Granted(g),
        outcome is Err ==> is_refusal(r),
{
    match outcome {
        Ok(g) => Reply::Granted(g),
        Err(e) => Reply::Refused(refusal_body(e)),
    }
}

/// Handles a license request: [`issue`], answered by [`reply_for`].
pub fn newlicense(header: &Option<String>, config: &Option<String>) -> (r: Reply)
    ensures
        r is Granted <==> verdict(header.deep_view(), config.deep_view()) is Ok,
        !(r is Granted) ==> is_refusal(r),
        header.is_none() ==> is_refusal(r),
        r is Granted ==> is_token(r->Granted_0.assigned_license@),
        r is Granted ==> VALIDITY_MS <= r->Granted_0.expires < CLOCK_LIMIT_MS + VALIDITY_MS,
{
    reply_for(issue(header, config))
}

/// The greeting of the service's index page.
pub fn index() -> (r: String)
    ensures
        r@ == "Hello, World!"@,
{
    "Hello, World!".to_owned()
}

/// A request without a `PSK` header is refused, whatever the configuration.
pub proof fn missing_header_is_refused(config: Option<Seq<char>>)
    ensures
        verdict(None, config) == Err::<(), _>(IssueError::MissingHeader),
{
}

/// A PSK that is not in a well-formed allow-list, an empty one included, is
/// refused.
pub proof fn unlisted_psk_is_refused(psk: Seq<char>, config: Seq<char>)
    requires
        json_string_list(config) is Some,
        !json_string_list(config)->Some_0.contains(psk),
    ensures
        verdict(Some(psk), Some(config)) == Err::<(), _>(IssueError::Unauthorized),
{
}

/// A PSK that is in a well-formed allow-list is accepted.
pub proof fn listed_psk_is_accepted(psk: Seq<char>, config: Seq<char>)
    requires
        json_string_list(config) is Some,
        json_string_list(config)->Some_0.contains(psk),
    ensures
        verdict(Some(psk), Some(config)) == Ok::<(), IssueError>(()),
{
}

/// Configuration that is not a JSON array of strings refuses every presented
/// PSK, as does configuration that is not set.
pub proof fn bad_config_is_refused(psk: Seq<char>, config: Option<Seq<char>>)
    requires
        config is None || json_string_list(config->Some_0) is None,
    ensures
        verdict(Some(psk), config) is Err,
{
}

} // verus!
