use node_resolve::error::{CacheFile, ErrorDetails, WritePhase};
use node_resolve::index::{Criterion, NodeDistroFiles, NodeEntry, NodeIndex};
use node_resolve::resolve::{conclude, public_node_version_index, resolve, Resolution};
use node_resolve::version::VersionSpec;
use semver::{Version, VersionReq};
use std::collections::HashSet;

fn listed(text: &str, lts: bool) -> NodeEntry {
    NodeEntry {
        version: Version::parse(text).unwrap(),
        npm: Version::parse("6.9.0").unwrap(),
        files: NodeDistroFiles { files: HashSet::new() },
        lts,
    }
}

#[test]
fn public_index_is_on_the_node_server() {
    assert_eq!(public_node_version_index(), "https://nodejs.org/dist/index.json");
}

#[test]
fn exact_version_resolves_to_itself() {
    let wanted = Version::parse("11.14.0").unwrap();
    assert_eq!(resolve(VersionSpec::Exact(wanted.clone()), None), Resolution::Resolved(wanted));
}

#[test]
fn exact_version_needs_no_index_even_with_a_hook() {
    let wanted = Version::parse("0.0.1-beta.2+build.5").unwrap();
    let hook = Some("https://mirror.example/node/index.json".to_string());
    assert_eq!(resolve(VersionSpec::Exact(wanted.clone()), hook), Resolution::Resolved(wanted));
}

#[test]
fn latest_needs_the_public_index() {
    assert_eq!(
        resolve(VersionSpec::Latest, None),
        Resolution::NeedsIndex {
            criterion: Criterion::Latest,
            url: "https://nodejs.org/dist/index.json".to_string(),
        }
    );
}

#[test]
fn lts_needs_the_public_index() {
    assert_eq!(
        resolve(VersionSpec::Lts, None),
        Resolution::NeedsIndex {
            criterion: Criterion::Lts,
            url: "https://nodejs.org/dist/index.json".to_string(),
        }
    );
}

#[test]
fn hook_names_the_index_to_search() {
    let requirement = VersionReq::parse(">=10, <11").unwrap();
    let hook = Some("https://mirror.example/node/index.json".to_string());
    assert_eq!(
        resolve(VersionSpec::Semver(requirement.clone()), hook),
        Resolution::NeedsIndex {
            criterion: Criterion::Semver(requirement),
            url: "https://mirror.example/node/index.json".to_string(),
        }
    );
}

#[test]
fn conclude_hands_a_failure_on() {
    let failure = ErrorDetails::NetworkFetchError {
        tool: "Node".to_string(),
        url: "https://nodejs.org/dist/index.json".to_string(),
    };
    let same = ErrorDetails::NetworkFetchError {
        tool: "Node".to_string(),
        url: "https://nodejs.org/dist/index.json".to_string(),
    };
    assert_eq!(conclude(Criterion::Latest, Err(failure)), Err(same));
    assert_eq!(
        conclude(Criterion::Lts, Err(ErrorDetails::ParseIndexError { url: "u".to_string() })),
        Err(ErrorDetails::ParseIndexError { url: "u".to_string() })
    );
}

#[test]
fn conclude_searches_the_index() {
    let index = NodeIndex { entries: vec![listed("12.2.0", false), listed("10.16.0", true)] };
    assert_eq!(conclude(Criterion::Lts, Ok(index)), Ok(Version::parse("10.16.0").unwrap()));
    let index = NodeIndex { entries: vec![listed("12.2.0", false)] };
    assert_eq!(
        conclude(Criterion::Lts, Ok(index)),
        Err(ErrorDetails::VersionNotFound { matching: "lts".to_string() })
    );
}

#[test]
fn only_three_failures_end_a_resolution() {
    assert!(ErrorDetails::NetworkFetchError { tool: "Node".to_string(), url: "u".to_string() }.fatal());
    assert!(ErrorDetails::ParseIndexError { url: "u".to_string() }.fatal());
    assert!(ErrorDetails::VersionNotFound { matching: "lts".to_string() }.fatal());
    assert!(!ErrorDetails::ParseExpiryError.fatal());
    assert!(!ErrorDetails::ReadCacheError { file: CacheFile::Index }.fatal());
    assert!(!ErrorDetails::WriteCacheError { file: CacheFile::Expiry, phase: WritePhase::Persist }
        .fatal());
}
