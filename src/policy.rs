//! Validation of a presented PSK against the configured allow-list.

use vstd::prelude::*;

use crate::outside::{json_string_list, parse_string_list, texts_of};

verus! {

/// Why a license was not issued. Every kind leads to the same reply to the
/// caller; the kinds exist for the operator's diagnostics.
#[derive(Debug, Clone, Copy, PartialEq, Eq, Structural)]
pub enum IssueError {
    /// The request carries no usable `PSK` header.
    MissingHeader,
    /// The allow-list configuration is not set.
    ConfigUnavailable,
    /// The allow-list configuration is not a JSON array of strings.
    ConfigMalformed,
    /// The presented PSK is not in the allow-list.
    Unauthorized,
}

/// The allow-list that configuration text denotes.
pub open spec fn allow_list_of(config: Option<Seq<char>>) -> Result<Seq<Seq<char>>, IssueError> {
    match config {
        None => Err(IssueError::ConfigUnavailable),
        Some(text) => match json_string_list(text) {
            None => Err(IssueError::ConfigMalformed),
            Some(list) => Ok(list),
        },
    }
}

/// The decision on a PSK given an allow-list that was already loaded (or
/// failed to load).
pub open spec fn decision(
    header: Option<Seq<char>>,
    allow_list: Result<Seq<Seq<char>>, IssueError>,
) -> Result<(), IssueError> {
    match header {
        None => Err(IssueError::MissingHeader),
        Some(psk) => match allow_list {
            Err(e) => Err(e),
            Ok(list) => if list.contains(psk) {
                Ok(())
            } else {
                Err(IssueError::Unauthorized)
            },
        },
    }
}

/// The decision on a request, from its `PSK` header and the allow-list
/// configuration text.
pub open spec fn verdict(header: Option<Seq<char>>, config: Option<Seq<char>>) -> Result<
    (),
    IssueError,
> {
    decision(header, allow_list_of(config))
}

/// Whether `psk` is, character for character, one of the allowed keys.
pub fn is_allowed(psk: &String, allowed: &Vec<String>) -> (r: bool)
    ensures
        r == texts_of(allowed@).contains(psk@),
{
    let mut i: usize = 0;
    while i < allowed.len()
        invariant
            i <= allowed@.len(),
            forall|j: int| 0 <= j < i ==> allowed@[j]@ != psk@,
        decreases allowed@.len() - i,
    {
        if allowed[i] == *psk {
            assert(texts_of(allowed@)[i as int] == psk@);
            return true;
        }
        i = i + 1;
    }
    assert(!texts_of(allowed@).contains(psk@));
    false
}

/// Parses allow-list configuration text.
pub fn parse_allow_list(text: &str) -> (r: Result<Vec<String>, IssueError>)
    ensures
        match r {
            Ok(v) => json_string_list(text@) == Some(texts_of(v@)),
            Err(e) => e == IssueError::ConfigMalformed && json_string_list(text@).is_none(),
        },
{
    match parse_string_list(text) {
        Ok(v) => Ok(v),
        Err(_) => Err(IssueError::ConfigMalformed),
    }
}

/// Loads the allow-list from the configuration text, if it is set.
pub fn load_allow_list(config: &Option<String>) -> (r: Result<Vec<String>, IssueError>)
    ensures
        match r {
            Ok(v) => allow_list_of(config.deep_view()) == Ok::<_, IssueError>(texts_of(v@)),
            Err(e) => allow_list_of(config.deep_view()) == Err::<Seq<Seq<char>>, _>(e),
        },
{
    match config {
        None => Err(IssueError::ConfigUnavailable),
        Some(text) => parse_allow_list(text.as_str()),
    }
}

/// Decides on a PSK given the allow-list as loaded: a missing header is
/// refused whatever the allow-list, a failed load is passed on, and a
/// present header is accepted exactly when it is a member of the list.
pub fn authorize(header: &Option<String>, allow_list: &Result<Vec<String>, IssueError>) -> (r:
    Result<(), IssueError>)
    ensures
        r == decision(
            header.deep_view(),
            match allow_list {
                Ok(v) => Ok(texts_of(v@)),
                Err(e) => Err(*e),
            },
        ),
{
    match header {
        None => Err(IssueError::MissingHeader),
        Some(psk) => match allow_list {
            Err(e) => Err(*e),
            Ok(list) => if is_allowed(psk, list) {
                Ok(())
            } else {
                Err(IssueError::Unauthorized)
            },
        },
    }
}

/// Validates a request: its `PSK` header first, then, only when one is
/// present, the allow-list configuration and membership.
pub fn check_psk(header: &Option<String>, config: &Option<String>) -> (r: Result<(), IssueError>)
    ensures
        r == verdict(header.deep_view(), config.deep_view()),
{
    if header.is_none() {
        return Err(IssueError::MissingHeader);
    }
    let allow_list = load_allow_list(config);
    authorize(header, &allow_list)
}

} // verus!
