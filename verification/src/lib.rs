//! Content-addressed metadata generation for a modpack server.
//!
//! The library walks a directory of mod files (modelled as a snapshot),
//! computes and caches strong content hashes, and derives a hash-linked
//! tree of index and metadata documents: every hash stored one level up
//! is the digest of the exact serialized bytes of the document below it.

pub mod errors;
pub mod schemas;
pub mod strutil;
pub mod hashing;
pub mod cache;
pub mod render;
pub mod options;
pub mod pipeline;
pub mod headers;
pub mod bundle;
pub mod walk;
