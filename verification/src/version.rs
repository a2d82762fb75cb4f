//! Versions and version requirements. Both are semver's; what a requirement
//! admits is for semver to say.

use semver::{Version, VersionReq};
use vstd::prelude::*;

verus! {

/// semver's `Version`, taken as it is.
#[verifier::external_type_specification]
#[verifier::external_body]
pub struct ExVersion(Version);

/// semver's `VersionReq`, taken as it is.
#[verifier::external_type_specification]
#[verifier::external_body]
pub struct ExVersionReq(VersionReq);

/// Whether semver holds `version` to satisfy `requirement`.
pub uninterp spec fn requirement_admits(requirement: VersionReq, version: Version) -> bool;

/// The text that semver writes for a requirement.
pub uninterp spec fn requirement_text(requirement: VersionReq) -> Seq<char>;

/// Calls semver's `VersionReq::matches`. Taken on trust: the answer is a
/// function of the requirement and the version alone.
#[verifier::external_body]
pub(crate) fn satisfies(requirement: &VersionReq, version: &Version) -> (admitted: bool)
    ensures
        admitted == requirement_admits(*requirement, *version),
{
    requirement.matches(version)
}

/// Formats a requirement with semver's `Display` for `VersionReq`. Taken on
/// trust: the text is a function of the requirement alone.
#[verifier::external_body]
pub(crate) fn requirement_to_string(requirement: &VersionReq) -> (text: String)
    ensures
        text@ == requirement_text(*requirement),
{
    format!("{}", requirement)
}

/// What a caller asks for.
#[derive(Debug, PartialEq, Eq)]
pub enum VersionSpec {
    /// The newest version that the index lists.
    Latest,
    /// The newest version with long-term support.
    Lts,
    /// The newest version that a requirement admits.
    Semver(VersionReq),
    /// This version and no other.
    Exact(Version),
}

} // verus!
