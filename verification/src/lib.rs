//! An in-memory document model (null / boolean / number / string / list /
//! hash, nested arbitrarily) together with a streaming serialization engine
//! that renders such documents to bytes in several structural styles.

use vstd::prelude::*;

pub mod items;
pub mod nulls;
pub mod booleans;
pub mod numbers;
pub mod strings;
pub mod lists;
pub mod hashes;
pub mod escape;
pub mod sink;
pub mod context;
pub mod style;
pub mod engine;
pub mod compact;
pub mod linear;
pub mod knr;
pub mod allman;
pub mod whitesmith;
pub mod yaml;
pub mod formats;

verus! {

/// Adds two unsigned numbers.
pub fn add(left: u64, right: u64) -> (r: u64)
    requires
        left + right <= u64::MAX,
    ensures
        r == left + right,
{
    left + right
}

} // verus!
