//! Resolution of a version specifier: an exact version stands for itself,
//! and anything else is looked up in the index.

use crate::error::{ErrorDetails, ErrorModel};
use crate::index::{select_version, selected, Criterion, NodeIndex};
use crate::version::VersionSpec;
use semver::Version;
use vstd::prelude::*;

verus! {

/// The address of the index on the public Node server.
pub open spec fn public_index_url() -> Seq<char> {
    "https://nodejs.org/dist/index.json"@
}

/// Returns the URL of the index of available Node versions on the public Node server.
pub fn public_node_version_index() -> (url: String)
    ensures
        url@ == public_index_url(),
{
    "https://nodejs.org/dist/index.json".to_owned()
}

/// The address that the index is fetched from: the one that a hook names,
/// or else the public one.
pub open spec fn index_url(hook_url: Option<String>) -> Seq<char> {
    match hook_url {
        Some(url) => url@,
        None => public_index_url(),
    }
}

/// What is looked up in the index for a specifier. An exact version is not
/// looked up.
pub open spec fn criterion_of(matching: VersionSpec) -> Option<Criterion> {
    match matching {
        VersionSpec::Latest => Some(Criterion::Latest),
        VersionSpec::Lts => Some(Criterion::Lts),
        VersionSpec::Semver(requirement) => Some(Criterion::Semver(requirement)),
        VersionSpec::Exact(_) => None,
    }
}

/// How far a specifier gets without the index.
#[derive(Debug, PartialEq, Eq)]
pub enum Resolution {
    /// All the way: this is the version.
    Resolved(Version),
    /// Not at all: the index at `url` has to be searched for `criterion`.
    NeedsIndex { criterion: Criterion, url: String },
}

/// Resolves a specifier as far as that can be done without the index. An
/// exact version is resolved on the spot, whatever it is: nothing is read
/// and nothing fetched for it. For the others the index is needed, from the
/// address that the hook names or else from the public server.
pub fn resolve(matching: VersionSpec, hook_url: Option<String>) -> (resolution: Resolution)
    ensures
        match matching {
            VersionSpec::Exact(version) => resolution == Resolution::Resolved(version),
            _ => resolution matches Resolution::NeedsIndex { criterion, url } && Some(criterion)
                == criterion_of(matching) && url@ == index_url(hook_url),
        },
{
    let criterion = match matching {
        VersionSpec::Exact(version) => {
            return Resolution::Resolved(version);
        },
        VersionSpec::Latest => Criterion::Latest,
        VersionSpec::Lts => Criterion::Lts,
        VersionSpec::Semver(requirement) => Criterion::Semver(requirement),
    };
    let url = match hook_url {
        Some(url) => url,
        None => public_node_version_index(),
    };
    Resolution::NeedsIndex { criterion, url }
}

/// Completes a resolution with what the index provider handed over: a
/// failure to get the index is the resolution's failure, and an index is
/// searched for `criterion`.
pub fn conclude(criterion: Criterion, index: Result<NodeIndex, ErrorDetails>) -> (resolved: Result<
    Version,
    ErrorDetails,
>)
    ensures
        match index {
            Err(failure) => resolved == Err::<Version, ErrorDetails>(failure),
            Ok(index) => match resolved {
                Ok(version) => selected(criterion, index.entries@) == Some(version),
                Err(error) => selected(criterion, index.entries@).is_none() && error@ == (
                ErrorModel::VersionNotFound { matching: criterion.text() }),
            },
        },
{
    match index {
        Err(failure) => Err(failure),
        Ok(index) => select_version(criterion, index),
    }
}

} // verus!
