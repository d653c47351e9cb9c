//! A probabilistic set-membership filter backed by a fixed-length bit array.
//!
//! An item is mapped to a single bit offset by hashing its bytes and reducing
//! the digest modulo the filter's capacity.  Queries may report false
//! positives (two items can share an offset) but never false negatives: once
//! an item has been inserted, querying it answers `true` until the filter is
//! cleared.

mod bits;
pub mod bloomfilter;

pub use crate::bloomfilter::BloomFilter;
