//! Verified core of a backup auditor: pairs entries of a source tree with a
//! target tree by relative path, classifies each pair, compares regular files
//! by streaming SHA-256 digests, and renders the findings as report records.

pub mod audit;
pub mod bytes;
pub mod classify;
pub mod digest;
pub mod paths;
pub mod render;
