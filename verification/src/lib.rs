//! Resolution of a requested Node version against the index that the Node
//! distribution server publishes, with that index kept in a local cache for
//! as long as the server's response allows.
//!
//! Nothing here reads a file, opens a connection or looks at the clock. The
//! caller does that work on request and reports what came of it; every
//! decision in between is made, and verified, here.

pub mod error;
pub mod expiry;
pub mod index;
pub mod provider;
pub mod resolve;
pub mod runs;
pub mod http_date;
pub mod version;

pub use crate::error::{CacheFile, ErrorDetails, WritePhase};
pub use crate::expiry::{max_age, CacheDirective, Response};
pub use crate::index::{match_node_version, Criterion, NodeDistroFiles, NodeEntry, NodeIndex};
pub use crate::provider::{resolve_node_versions, step, Action, CacheRead, Event, Provider, Step};
pub use crate::resolve::{conclude, resolve, Resolution};
pub use crate::version::VersionSpec;
