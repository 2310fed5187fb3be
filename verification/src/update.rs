//! Deciding whether a published release is newer than the running build.
use vstd::prelude::*;

verus! {

/// What `self_update::version::bump_is_greater(current, other)` gives: `Some(b)` where both
/// strings parse as semantic versions, `b` telling whether `other` is the greater one, and
/// `None` where either does not parse.
pub uninterp spec fn semver_is_greater(current: Seq<char>, other: Seq<char>) -> Option<bool>;

/// Calls `self_update::version::bump_is_greater`, which parses both strings as semantic versions
/// and answers whether `other` is strictly greater; a parse error becomes `None`. The contract
/// names that answer `semver_is_greater`, and states the one fact the strict comparison gives
/// outright: a version is never greater than itself. Which strings parse, and the order of
/// versions, are left unstated.
#[verifier::external_body]
fn bump_is_greater(current: &str, other: &str) -> (greater: Option<bool>)
    ensures
        greater == semver_is_greater(current@, other@),
        current@ == other@ ==> greater != Some(true),
{
    match self_update::version::bump_is_greater(current, other) {
        Ok(b) => Some(b),
        Err(_) => None,
    }
}

/// The release to offer, given how its version compares with the running one: offered only when
/// the comparison succeeded and found it greater.
pub open spec fn offered_release(comparison: Option<bool>, latest_version: String) -> Option<String> {
    if comparison == Some(true) {
        Some(latest_version)
    } else {
        None
    }
}

/// Offers `latest_version` when `comparison` (the answer of the version comparison) says it is
/// greater; an equal, older or unparseable version offers nothing.
pub fn release_if_newer(comparison: Option<bool>, latest_version: String) -> (offer: Option<String>)
    ensures
        offer == offered_release(comparison, latest_version),
{
    match comparison {
        Some(true) => Some(latest_version),
        _ => None,
    }
}

/// The version of a newer release, given the running version and the latest release's version
/// (`None` where looking it up failed); `None` when up to date or the comparison failed.
pub fn check_for_newer_version(current_version: &str, latest_release: Option<String>) -> (newer: Option<String>)
    ensures
        match latest_release {
            None => newer is None,
            Some(latest) => newer == offered_release(semver_is_greater(current_version@, latest@), latest),
        },
        latest_release matches Some(latest) && latest@ == current_version@ ==> newer is None,
{
    match latest_release {
        None => None,
        Some(latest) => {
            let comparison = bump_is_greater(current_version, latest.as_str());
            release_if_newer(comparison, latest)
        },
    }
}

} // verus!
