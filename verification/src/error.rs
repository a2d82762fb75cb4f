//! What can go wrong while a version is resolved.

use vstd::prelude::*;

verus! {

/// One of the two files that make up the cache.
#[derive(Clone, Copy, Debug, PartialEq, Eq, Structural)]
pub enum CacheFile {
    /// The index as the server sent it.
    Index,
    /// The marker that says until when the index may be used.
    Expiry,
}

/// The step at which writing a cache file failed.
#[derive(Clone, Copy, Debug, PartialEq, Eq, Structural)]
pub enum WritePhase {
    /// Creating the directory that holds the file.
    CreateDir,
    /// Creating the temporary file beside it.
    CreateTemp,
    /// Writing the content to the temporary file.
    Write,
    /// Moving the temporary file into place.
    Persist,
}

/// A failure, with what is needed to act on it.
///
/// The first three end a resolution. The others concern the cache alone:
/// a resolution goes on past them and hands them over to be logged.
#[derive(Debug, PartialEq, Eq)]
pub enum ErrorDetails {
    /// The index could not be fetched from `url`.
    NetworkFetchError { tool: String, url: String },
    /// What `url` sent is not an index.
    ParseIndexError { url: String },
    /// The index lists no version that answers to `matching`.
    VersionNotFound { matching: String },
    /// The expiry marker does not hold an HTTP date.
    ParseExpiryError,
    /// A cache file is there and could not be read.
    ReadCacheError { file: CacheFile },
    /// A cache file could not be written.
    WriteCacheError { file: CacheFile, phase: WritePhase },
}

/// An `ErrorDetails` with its texts as sequences of characters.
pub enum ErrorModel {
    NetworkFetchError { tool: Seq<char>, url: Seq<char> },
    ParseIndexError { url: Seq<char> },
    VersionNotFound { matching: Seq<char> },
    ParseExpiryError,
    ReadCacheError { file: CacheFile },
    WriteCacheError { file: CacheFile, phase: WritePhase },
}

impl View for ErrorDetails {
    type V = ErrorModel;

    open spec fn view(&self) -> ErrorModel {
        match *self {
            ErrorDetails::NetworkFetchError { tool, url } => ErrorModel::NetworkFetchError {
                tool: tool@,
                url: url@,
            },
            ErrorDetails::ParseIndexError { url } => ErrorModel::ParseIndexError { url: url@ },
            ErrorDetails::VersionNotFound { matching } => ErrorModel::VersionNotFound {
                matching: matching@,
            },
            ErrorDetails::ParseExpiryError => ErrorModel::ParseExpiryError,
            ErrorDetails::ReadCacheError { file } => ErrorModel::ReadCacheError { file },
            ErrorDetails::WriteCacheError { file, phase } => ErrorModel::WriteCacheError {
                file,
                phase,
            },
        }
    }
}

impl ErrorModel {
    /// Whether the failure ends the resolution. One that does not touches
    /// the cache alone.
    pub open spec fn is_fatal(self) -> bool {
        self is NetworkFetchError || self is ParseIndexError || self is VersionNotFound
    }
}

impl ErrorDetails {
    /// Whether the failure ends the resolution.
    pub open spec fn is_fatal(self) -> bool {
        self@.is_fatal()
    }

    /// Tells whether the failure ends the resolution.
    pub fn fatal(&self) -> (fatal: bool)
        ensures
            fatal == self.is_fatal(),
    {
        match self {
            ErrorDetails::NetworkFetchError { .. } => true,
            ErrorDetails::ParseIndexError { .. } => true,
            ErrorDetails::VersionNotFound { .. } => true,
            _ => false,
        }
    }
}

} // verus!
