//! Error values for the synchronization library.
//!
//! Every fallible step reports a distinguishable error; nothing in the
//! library panics.

use vstd::prelude::*;

verus! {

/// Errors raised while locating or manipulating directories.
#[derive(Debug, Clone, PartialEq, Eq)]
pub enum DirectoryError {
    /// The registry holds no path for the real manifest directory.
    ManifestDirNotFound,
    /// The registry holds no path for the shadow (temporary) directory.
    TempDirNotFound,
    /// The final path segment of the manifest directory is empty, so no
    /// project name could be derived from it.
    CantExtractProjectName { dir: String },
    /// The temporary directory could not be allocated.
    TempDirFailed,
    /// A path could not be canonicalized.
    CanonicalizeFailed,
    /// A location was expected to lie under a root but did not.
    StripPrefixFailed { path: String },
    /// Mirroring the manifest directory into the shadow tree failed.
    CopyContentsFailed,
    /// A translated span could not be rebuilt over the target file.
    SpanFromPathFailed { path: String },
}

/// Errors raised while reading, parsing or writing a document.
#[derive(Debug, Clone, PartialEq, Eq)]
pub enum DocumentError {
    /// No manifest file was found in the given directory.
    ManifestFileNotFound { dir: String },
    /// The file could not be read or parsed.
    IOError { path: String, error: String },
    /// The file could not be written.
    UnableToWriteFile { path: String, err: String },
}

/// The union of all errors this library reports to its callers.
#[derive(Debug, Clone, PartialEq, Eq)]
pub enum LanguageServerError {
    DirectoryError(DirectoryError),
    DocumentError(DocumentError),
}

} // verus!
