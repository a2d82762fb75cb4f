//! The index of the Node server, and the search for a version in it.

use crate::error::{ErrorDetails, ErrorModel};
use crate::version::{requirement_admits, requirement_text, requirement_to_string, satisfies};
use semver::{Version, VersionReq};
use std::collections::HashSet;
use vstd::prelude::*;

verus! {

/// The index of the public Node server, newest version first.
///
/// That order is the server's and is taken on trust: a search returns the
/// first entry that fits, and calls it the newest.
#[derive(Debug, PartialEq, Eq)]
pub struct NodeIndex {
    pub entries: Vec<NodeEntry>,
}

/// One version of Node, as the index lists it.
#[derive(Debug, PartialEq, Eq)]
pub struct NodeEntry {
    pub version: Version,
    pub npm: Version,
    pub files: NodeDistroFiles,
    pub lts: bool,
}

/// The set of available files on the public Node server for a given Node version.
#[derive(Debug, PartialEq, Eq)]
pub struct NodeDistroFiles {
    pub files: HashSet<String>,
}

/// What a search of the index looks for.
#[derive(Debug, PartialEq, Eq)]
pub enum Criterion {
    /// Any version: the first entry.
    Latest,
    /// A version with long-term support.
    Lts,
    /// A version that the requirement admits.
    Semver(VersionReq),
}

impl Criterion {
    /// Whether `entry` is what the criterion looks for.
    pub open spec fn accepts(self, entry: NodeEntry) -> bool {
        match self {
            Criterion::Latest => true,
            Criterion::Lts => entry.lts,
            Criterion::Semver(requirement) => requirement_admits(requirement, entry.version),
        }
    }

    /// How the criterion is named where no version answers to it.
    pub open spec fn text(self) -> Seq<char> {
        match self {
            Criterion::Latest => "latest"@,
            Criterion::Lts => "lts"@,
            Criterion::Semver(requirement) => requirement_text(requirement),
        }
    }
}

/// Whether `i` is the first place in `entries` at which `predicate` may
/// answer yes, every place before it being one where it may answer no.
pub open spec fn is_first_hit<F: Fn(&NodeEntry) -> bool>(
    predicate: F,
    entries: Seq<NodeEntry>,
    i: int,
) -> bool {
    &&& 0 <= i < entries.len()
    &&& call_ensures(predicate, (&entries[i],), true)
    &&& forall|j: int| 0 <= j < i ==> call_ensures(predicate, (&entries[j],), false)
}

/// The version of the first entry at which `wanted` holds.
pub open spec fn first_version(
    entries: Seq<NodeEntry>,
    wanted: spec_fn(NodeEntry) -> bool,
) -> Option<Version>
    decreases entries.len(),
{
    if entries.len() == 0 {
        None
    } else if wanted(entries[0]) {
        Some(entries[0].version)
    } else {
        first_version(entries.drop_first(), wanted)
    }
}

/// The version that a search of `entries` for `criterion` gives.
pub open spec fn selected(criterion: Criterion, entries: Seq<NodeEntry>) -> Option<Version> {
    first_version(entries, |entry: NodeEntry| criterion.accepts(entry))
}

/// `first_version` finds the entry at the least index at which `wanted`
/// holds, and finds nothing just when `wanted` holds nowhere.
pub proof fn first_version_is_earliest(entries: Seq<NodeEntry>, wanted: spec_fn(NodeEntry) -> bool)
    ensures
        match first_version(entries, wanted) {
            Some(version) => exists|i: int|
                0 <= i < entries.len() && wanted(#[trigger] entries[i]) && version
                    == entries[i].version && forall|j: int|
                    0 <= j < i ==> !wanted(#[trigger] entries[j]),
            None => forall|i: int| 0 <= i < entries.len() ==> !wanted(#[trigger] entries[i]),
        },
    decreases entries.len(),
{
    if entries.len() > 0 && !wanted(entries[0]) {
        let rest = entries.drop_first();
        first_version_is_earliest(rest, wanted);
        assert(forall|i: int| 0 <= i < rest.len() ==> rest[i] == entries[i + 1]);
        match first_version(rest, wanted) {
            Some(version) => {
                let k = choose|i: int|
                    0 <= i < rest.len() && wanted(#[trigger] rest[i]) && version == rest[i].version
                        && forall|j: int| 0 <= j < i ==> !wanted(#[trigger] rest[j]);
                assert(wanted(entries[k + 1]) && version == entries[k + 1].version);
                assert forall|j: int| 0 <= j < k + 1 implies !wanted(#[trigger] entries[j]) by {
                    if j > 0 {
                        assert(!wanted(rest[j - 1]));
                    }
                }
            },
            None => {
                assert forall|i: int| 0 <= i < entries.len() implies !wanted(
                    #[trigger] entries[i],
                ) by {
                    if i > 0 {
                        assert(!wanted(rest[i - 1]));
                    }
                }
            },
        }
    } else if entries.len() > 0 {
        assert(wanted(entries[0]));
    }
}

/// In an index that lists each entry before all that are older, the entry
/// that `first_version` finds is newer than every other entry at which
/// `wanted` holds: the first that fits is the newest that fits. `newer` is
/// any relation that the order of the index respects.
pub proof fn first_version_is_newest(
    entries: Seq<NodeEntry>,
    wanted: spec_fn(NodeEntry) -> bool,
    newer: spec_fn(NodeEntry, NodeEntry) -> bool,
)
    requires
        forall|i: int, j: int|
            0 <= i < j < entries.len() ==> #[trigger] newer(entries[i], entries[j]),
    ensures
        first_version(entries, wanted) matches Some(version) ==> exists|i: int|
            0 <= i < entries.len() && wanted(#[trigger] entries[i]) && version
                == entries[i].version && forall|j: int|
                0 <= j < entries.len() && j != i && wanted(entries[j]) ==> #[trigger] newer(
                    entries[i],
                    entries[j],
                ),
{
    first_version_is_earliest(entries, wanted);
    if let Some(version) = first_version(entries, wanted) {
        let i = choose|i: int|
            0 <= i < entries.len() && wanted(#[trigger] entries[i]) && version
                == entries[i].version && forall|j: int|
                0 <= j < i ==> !wanted(#[trigger] entries[j]);
        assert forall|j: int|
            0 <= j < entries.len() && j != i && wanted(entries[j]) implies #[trigger] newer(
            entries[i],
            entries[j],
        ) by {
            if j < i {
                assert(!wanted(entries[j]));
            }
        }
    }
}

/// An entry at which `wanted` holds, with none before it, is the one that
/// `first_version` finds.
pub proof fn first_version_at(entries: Seq<NodeEntry>, wanted: spec_fn(NodeEntry) -> bool, i: int)
    requires
        0 <= i < entries.len(),
        wanted(entries[i]),
        forall|j: int| 0 <= j < i ==> !wanted(#[trigger] entries[j]),
    ensures
        first_version(entries, wanted) == Some(entries[i].version),
    decreases i,
{
    if i > 0 {
        let rest = entries.drop_first();
        assert(!wanted(entries[0]));
        assert forall|j: int| 0 <= j < i - 1 implies !wanted(#[trigger] rest[j]) by {
            assert(!wanted(entries[j + 1]));
        }
        first_version_at(rest, wanted, i - 1);
    }
}

/// Where `wanted` holds nowhere, `first_version` finds nothing.
pub proof fn first_version_none(entries: Seq<NodeEntry>, wanted: spec_fn(NodeEntry) -> bool)
    requires
        forall|j: int| 0 <= j < entries.len() ==> !wanted(#[trigger] entries[j]),
    ensures
        first_version(entries, wanted).is_none(),
    decreases entries.len(),
{
    if entries.len() > 0 {
        let rest = entries.drop_first();
        assert(!wanted(entries[0]));
        assert forall|j: int| 0 <= j < rest.len() implies !wanted(#[trigger] rest[j]) by {
            assert(!wanted(entries[j + 1]));
        }
        first_version_none(rest, wanted);
    }
}

/// Searches the index from its first entry on and returns the version of
/// the first entry for which `predicate` answers yes. The search stops
/// there; the index is walked once and not changed.
pub fn match_node_version<F: Fn(&NodeEntry) -> bool>(index: NodeIndex, predicate: F) -> (found:
    Option<Version>)
    requires
        forall|i: int|
            0 <= i < index.entries@.len() ==> call_requires(predicate, (&index.entries@[i],)),
    ensures
        match found {
            Some(version) => exists|i: int|
                #[trigger] is_first_hit(predicate, index.entries@, i) && version
                    == index.entries@[i].version,
            None => forall|i: int|
                0 <= i < index.entries@.len() ==> call_ensures(
                    predicate,
                    (&index.entries@[i],),
                    false,
                ),
        },
{
    let ghost listed = index.entries@;
    let mut entries = index.entries;
    let mut i: usize = 0;
    while i < entries.len()
        invariant
            i <= entries.len(),
            entries@ == listed,
            listed == index.entries@,
            forall|k: int| 0 <= k < listed.len() ==> call_requires(predicate, (&listed[k],)),
            forall|j: int| 0 <= j < i ==> call_ensures(predicate, (&listed[j],), false),
        decreases entries.len() - i,
    {
        if predicate(&entries[i]) {
            let entry = entries.remove(i);
            assert(entry == listed[i as int]);
            assert(is_first_hit(predicate, listed, i as int));
            return Some(entry.version);
        }
        i += 1;
    }
    None
}

/// The first hit of a predicate that answers as `wanted` does is the entry
/// that `first_version` finds.
proof fn first_hit_is_first_version<F: Fn(&NodeEntry) -> bool>(
    predicate: F,
    entries: Seq<NodeEntry>,
    wanted: spec_fn(NodeEntry) -> bool,
    i: int,
)
    requires
        is_first_hit(predicate, entries, i),
        forall|entry: NodeEntry, yes: bool| #[trigger]
            call_ensures(predicate, (&entry,), yes) ==> yes == wanted(entry),
    ensures
        first_version(entries, wanted) == Some(entries[i].version),
{
    assert forall|j: int| 0 <= j < i implies !wanted(#[trigger] entries[j]) by {
        assert(call_ensures(predicate, (&entries[j],), false));
    }
    first_version_at(entries, wanted, i);
}

/// A predicate that answers as `wanted` does and says no to every entry
/// leaves `first_version` with nothing to find.
proof fn no_hit_is_no_version<F: Fn(&NodeEntry) -> bool>(
    predicate: F,
    entries: Seq<NodeEntry>,
    wanted: spec_fn(NodeEntry) -> bool,
)
    requires
        forall|i: int| 0 <= i < entries.len() ==> call_ensures(predicate, (&entries[i],), false),
        forall|entry: NodeEntry, yes: bool| #[trigger]
            call_ensures(predicate, (&entry,), yes) ==> yes == wanted(entry),
    ensures
        first_version(entries, wanted).is_none(),
{
    assert forall|j: int| 0 <= j < entries.len() implies !wanted(#[trigger] entries[j]) by {
        assert(call_ensures(predicate, (&entries[j],), false));
    }
    first_version_none(entries, wanted);
}

/// The error for a search that found nothing.
fn not_found(matching: String) -> (error: ErrorDetails)
    ensures
        error@ == (ErrorModel::VersionNotFound { matching: matching@ }),
{
    ErrorDetails::VersionNotFound { matching }
}

/// The newest version: that of the first entry. An empty index has none.
pub fn resolve_latest(index: NodeIndex) -> (resolved: Result<Version, ErrorDetails>)
    ensures
        match resolved {
            Ok(version) => index.entries@.len() > 0 && version == index.entries@[0].version,
            Err(error) => index.entries@.len() == 0 && error@ == (ErrorModel::VersionNotFound {
                matching: "latest"@,
            }),
        },
{
    let ghost listed = index.entries@;
    let any = |_entry: &NodeEntry| -> (yes: bool)
        ensures
            yes,
        { true };
    let found = match_node_version(index, any);
    match found {
        Some(version) => {
            proof {
                let i = choose|i: int|
                    #[trigger] is_first_hit(any, listed, i) && version == listed[i].version;
                if i > 0 {
                    assert(call_ensures(any, (&listed[0],), false));
                }
            }
            Ok(version)
        },
        None => {
            proof {
                if listed.len() > 0 {
                    assert(call_ensures(any, (&listed[0],), false));
                }
            }
            Err(not_found("latest".to_owned()))
        },
    }
}

/// The newest version with long-term support: that of the first entry that
/// the index marks so.
pub fn resolve_lts(index: NodeIndex) -> (resolved: Result<Version, ErrorDetails>)
    ensures
        match resolved {
            Ok(version) => selected(Criterion::Lts, index.entries@) == Some(version),
            Err(error) => selected(Criterion::Lts, index.entries@).is_none() && error@ == (
            ErrorModel::VersionNotFound { matching: "lts"@ }),
        },
{
    let ghost listed = index.entries@;
    let ghost wanted = |entry: NodeEntry| Criterion::Lts.accepts(entry);
    let supported = |entry: &NodeEntry| -> (yes: bool)
        ensures
            yes == entry.lts,
        { entry.lts };
    let found = match_node_version(index, supported);
    match found {
        Some(version) => {
            proof {
                let i = choose|i: int|
                    #[trigger] is_first_hit(supported, listed, i) && version == listed[i].version;
                first_hit_is_first_version(supported, listed, wanted, i);
            }
            Ok(version)
        },
        None => {
            proof {
                no_hit_is_no_version(supported, listed, wanted);
            }
            Err(not_found("lts".to_owned()))
        },
    }
}

/// The newest version that `requirement` admits: that of the first entry
/// whose version satisfies it. Where none does, the error names the
/// requirement as semver writes it.
pub fn resolve_semver(requirement: VersionReq, index: NodeIndex) -> (resolved: Result<
    Version,
    ErrorDetails,
>)
    ensures
        match resolved {
            Ok(version) => selected(Criterion::Semver(requirement), index.entries@) == Some(
                version,
            ),
            Err(error) => selected(Criterion::Semver(requirement), index.entries@).is_none()
                && error@ == (ErrorModel::VersionNotFound {
                matching: requirement_text(requirement),
            }),
        },
{
    let ghost listed = index.entries@;
    let ghost wanted = |entry: NodeEntry| Criterion::Semver(requirement).accepts(entry);
    let required = &requirement;
    let admitted = |entry: &NodeEntry| -> (yes: bool)
        ensures
            yes == requirement_admits(*required, entry.version),
        { satisfies(required, &entry.version) };
    let found = match_node_version(index, admitted);
    match found {
        Some(version) => {
            proof {
                let i = choose|i: int|
                    #[trigger] is_first_hit(admitted, listed, i) && version == listed[i].version;
                first_hit_is_first_version(admitted, listed, wanted, i);
            }
            Ok(version)
        },
        None => {
            proof {
                no_hit_is_no_version(admitted, listed, wanted);
            }
            Err(not_found(requirement_to_string(&requirement)))
        },
    }
}

/// Searches the index for what `criterion` asks and returns the version of
/// the first entry that fits, or `VersionNotFound` with the criterion's name
/// where none does.
pub fn select_version(criterion: Criterion, index: NodeIndex) -> (resolved: Result<
    Version,
    ErrorDetails,
>)
    ensures
        match resolved {
            Ok(version) => selected(criterion, index.entries@) == Some(version),
            Err(error) => selected(criterion, index.entries@).is_none() && error@ == (
            ErrorModel::VersionNotFound { matching: criterion.text() }),
        },
{
    proof {
        latest_is_first(index.entries@);
    }
    match criterion {
        Criterion::Latest => resolve_latest(index),
        Criterion::Lts => resolve_lts(index),
        Criterion::Semver(requirement) => resolve_semver(requirement, index),
    }
}

/// A search for the latest version gives the first entry's, and nothing
/// only in an empty index.
pub proof fn latest_is_first(entries: Seq<NodeEntry>)
    ensures
        selected(Criterion::Latest, entries) == if entries.len() == 0 {
            None
        } else {
            Some(entries[0].version)
        },
{
}

} // verus!
