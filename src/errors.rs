use vstd::prelude::*;

verus! {

/// Error type of the dataset cache.
#[derive(Debug, PartialEq, Eq)]
pub enum DatalintError {
    /// The dataset root or a required path does not exist.
    NotFound(String),
    /// Reading or writing a file or its metadata failed.
    Io(String),
    /// The cache store refused a connection, a statement or a commit.
    Store(String),
    /// A file could not be turned into a record (no file name, no stem).
    Core(String),
}

/// Result alias used across the library.
pub type DatalintResult<T> = Result<T, DatalintError>;

} // verus!
