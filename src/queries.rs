//! Computations behind the image-table queries.
use crate::hashing::{hex_bytes, sha256_hex, sha256_of};
use vstd::prelude::*;

verus! {

/// Operations on the image table that need no connection.
pub struct ImageQueries;

impl ImageQueries {
    /// The SHA-256 digest of a file's bytes as 64 lowercase hex digits, for
    /// deployments that want a cryptographic content key.
    pub fn compute_file_hash(data: &Vec<u8>) -> (r: String)
        ensures
            r@ == hex_bytes(sha256_of(data@)),
            r@.len() == 64,
    {
        sha256_hex(data)
    }

    /// The corruption flag of a stored row, which keeps it as an integer.
    pub fn corrupted_from_column(v: i32) -> (r: bool)
        ensures
            r == (v != 0),
    {
        v != 0
    }
}

} // verus!
