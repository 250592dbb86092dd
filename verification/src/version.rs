//! The format version of the store and its comparison with a stored tag.

use crate::errors::Error;
use vstd::prelude::*;
use vstd::string::StringExecFns;

verus! {

/// The version that this library writes into a store.
pub const CRATE_VERSION: &'static str = "0.1.0";

/// Whether the version requirement written as `requirement` admits the
/// version written as `version`, by the rules of the `semver` crate; `None`
/// where one of the two texts does not parse.
pub uninterp spec fn semver_matches(requirement: Seq<char>, version: Seq<char>) -> Option<bool>;

/// The requirement that admits what is strictly newer than `current`.
pub open spec fn newer_requirement(current: Seq<char>) -> Seq<char> {
    seq!['>'] + current
}

/// Whether a store tagged `version` was written by a newer library than
/// this one; `None` where `version` is no semantic version.
pub open spec fn newer_than_current(version: Seq<char>) -> Option<bool> {
    semver_matches(newer_requirement(CRATE_VERSION@), version)
}

/// Parses `requirement` with `semver::VersionReq::from_str`, then `version`
/// with `semver::Version::from_str`, and asks `semver::VersionReq::matches`
/// whether the one admits the other. A text that does not parse gives
/// `None`.
///
/// Claimed: the outcome is a function of the two texts, named
/// `semver_matches`.
#[verifier::external_body]
fn requirement_matches(requirement: &str, version: &str) -> (r: Option<bool>)
    ensures
        r == semver_matches(requirement@, version@),
{
    let requirement: semver::VersionReq = requirement.parse().ok()?;
    let version: semver::Version = version.parse().ok()?;
    Some(requirement.matches(&version))
}

/// The text of the requirement "newer than `current`".
pub fn requirement_above(current: &str) -> (text: String)
    ensures
        text@ == newer_requirement(current@),
{
    let head = String::from_str(">");
    proof {
        reveal_strlit(">");
        assert(">"@ =~= seq!['>']);
    }
    head.concat(current)
}

/// Whether the tag `version` is strictly newer than this library's version.
///
/// Fails with `Error::SemVer` exactly where `version` is no semantic
/// version.
pub fn is_newer_than_current(version: &str) -> (r: Result<bool, Error>)
    ensures
        match newer_than_current(version@) {
            Some(newer) => r == Ok::<bool, Error>(newer),
            None => r == Err::<bool, Error>(Error::SemVer),
        },
{
    let requirement = requirement_above(CRATE_VERSION);
    match requirement_matches(requirement.as_str(), version) {
        Some(newer) => Ok(newer),
        None => Err(Error::SemVer),
    }
}

} // verus!
