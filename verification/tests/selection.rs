use node_resolve::error::ErrorDetails;
use node_resolve::index::{
    match_node_version, resolve_latest, resolve_lts, resolve_semver, select_version, Criterion,
    NodeDistroFiles, NodeEntry, NodeIndex,
};
use semver::{Version, VersionReq};
use std::cell::Cell;
use std::collections::HashSet;

fn version(text: &str) -> Version {
    Version::parse(text).unwrap()
}

fn entry(text: &str, lts: bool) -> NodeEntry {
    let mut files = HashSet::new();
    files.insert("linux-x64".to_string());
    files.insert("osx-x64-tar".to_string());
    NodeEntry { version: version(text), npm: version("6.4.1"), files: NodeDistroFiles { files }, lts }
}

/// Newest first: A without long-term support, B with it, C the oldest.
fn catalog() -> NodeIndex {
    NodeIndex { entries: vec![entry("12.1.0", false), entry("10.15.3", true), entry("8.0.0", false)] }
}

fn not_found(matching: &str) -> ErrorDetails {
    ErrorDetails::VersionNotFound { matching: matching.to_string() }
}

#[test]
fn latest_is_the_first_entry() {
    assert_eq!(resolve_latest(catalog()), Ok(version("12.1.0")));
}

#[test]
fn latest_of_an_empty_index_is_not_found() {
    assert_eq!(resolve_latest(NodeIndex { entries: vec![] }), Err(not_found("latest")));
}

#[test]
fn latest_trusts_the_order_of_the_index() {
    let index = NodeIndex { entries: vec![entry("8.0.0", false), entry("12.1.0", false)] };
    assert_eq!(resolve_latest(index), Ok(version("8.0.0")));
}

#[test]
fn lts_is_the_first_entry_marked_so() {
    assert_eq!(resolve_lts(catalog()), Ok(version("10.15.3")));
}

#[test]
fn lts_takes_the_first_of_several() {
    let index = NodeIndex {
        entries: vec![
            entry("12.1.0", false),
            entry("10.15.3", true),
            entry("10.15.2", true),
            entry("8.16.0", true),
        ],
    };
    assert_eq!(resolve_lts(index), Ok(version("10.15.3")));
}

#[test]
fn lts_without_any_is_not_found() {
    let index = NodeIndex { entries: vec![entry("12.1.0", false), entry("11.0.0", false)] };
    assert_eq!(resolve_lts(index), Err(not_found("lts")));
    assert_eq!(resolve_lts(NodeIndex { entries: vec![] }), Err(not_found("lts")));
}

#[test]
fn semver_is_the_first_entry_that_satisfies() {
    let requirement = VersionReq::parse("^10").unwrap();
    assert_eq!(resolve_semver(requirement, catalog()), Ok(version("10.15.3")));
    let requirement = VersionReq::parse("<12").unwrap();
    assert_eq!(resolve_semver(requirement, catalog()), Ok(version("10.15.3")));
    let requirement = VersionReq::parse("*").unwrap();
    assert_eq!(resolve_semver(requirement, catalog()), Ok(version("12.1.0")));
}

#[test]
fn semver_range_between_two_entries_is_not_found() {
    let requirement = VersionReq::parse(">8.0.0, <10.15.3").unwrap();
    assert_eq!(resolve_semver(requirement, catalog()), Err(not_found("> 8.0.0, < 10.15.3")));
}

#[test]
fn semver_range_that_holds_its_lower_end_finds_it() {
    let requirement = VersionReq::parse(">=8.0.0, <10.15.3").unwrap();
    assert_eq!(resolve_semver(requirement, catalog()), Ok(version("8.0.0")));
}

#[test]
fn semver_on_an_empty_index_is_not_found() {
    let requirement = VersionReq::parse("~10.15").unwrap();
    assert_eq!(resolve_semver(requirement, NodeIndex { entries: vec![] }), Err(not_found("~10.15")));
}

#[test]
fn select_version_follows_the_criterion() {
    assert_eq!(select_version(Criterion::Latest, catalog()), Ok(version("12.1.0")));
    assert_eq!(select_version(Criterion::Lts, catalog()), Ok(version("10.15.3")));
    let requirement = VersionReq::parse("8").unwrap();
    assert_eq!(select_version(Criterion::Semver(requirement), catalog()), Ok(version("8.0.0")));
    let requirement = VersionReq::parse("=9.0.0").unwrap();
    assert_eq!(
        select_version(Criterion::Semver(requirement), catalog()),
        Err(not_found("= 9.0.0"))
    );
    assert_eq!(select_version(Criterion::Latest, NodeIndex { entries: vec![] }), Err(not_found("latest")));
}

#[test]
fn match_node_version_returns_the_first_hit() {
    let found = match_node_version(catalog(), |entry: &NodeEntry| entry.version.major < 12);
    assert_eq!(found, Some(version("10.15.3")));
}

#[test]
fn match_node_version_without_a_hit_is_none() {
    let found = match_node_version(catalog(), |entry: &NodeEntry| entry.version.major > 12);
    assert_eq!(found, None);
    let found = match_node_version(NodeIndex { entries: vec![] }, |_: &NodeEntry| true);
    assert_eq!(found, None);
}

#[test]
fn match_node_version_stops_at_the_first_hit() {
    let asked = Cell::new(0);
    let found = match_node_version(catalog(), |entry: &NodeEntry| {
        asked.set(asked.get() + 1);
        entry.lts
    });
    assert_eq!(found, Some(version("10.15.3")));
    assert_eq!(asked.get(), 2);
}

#[test]
fn match_node_version_asks_each_entry_once_when_none_fits() {
    let asked = Cell::new(0);
    let found = match_node_version(catalog(), |_: &NodeEntry| {
        asked.set(asked.get() + 1);
        false
    });
    assert_eq!(found, None);
    assert_eq!(asked.get(), 3);
}
