//! Version numbers, read and compared as semantic versioning has it.

use vstd::prelude::*;

verus! {

/// Whether a text is a version number.
pub uninterp spec fn is_version(text: Seq<char>) -> bool;

/// Whether the version that `latest` names comes after the one that
/// `current` names.
pub uninterp spec fn comes_after(latest: Seq<char>, current: Seq<char>) -> bool;

/// `Version::parse` of semver: whether it accepts `text`.
#[verifier::external_body]
pub(crate) fn parses(text: &str) -> (ok: bool)
    ensures
        ok == is_version(text@),
{
    semver::Version::parse(text).is_ok()
}

/// `Version::parse` of semver on both texts, and the order of semver's
/// versions on what it returns: whether `latest` is the greater. The answer
/// is `None` where either text is no version.
#[verifier::external_body]
pub(crate) fn greater(latest: &str, current: &str) -> (newer: Option<bool>)
    ensures
        newer == (if is_version(latest@) && is_version(current@) {
            Some(comes_after(latest@, current@))
        } else {
            None
        }),
{
    match (semver::Version::parse(latest), semver::Version::parse(current)) {
        (Ok(latest), Ok(current)) => Some(latest > current),
        _ => None,
    }
}

} // verus!
