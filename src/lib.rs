//! Core of a dataset cache: file selection, per-file metadata records, split
//! inference, content hashes, and the order and batching of the writes that
//! fill the cache store.
pub mod cache;
pub mod errors;
pub mod format;
pub mod hashing;
pub mod models;
pub mod paths;
pub mod queries;
pub mod scanner;
pub mod writer;
