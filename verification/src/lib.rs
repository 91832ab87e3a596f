//! Runtime-code generation for a JavaScript bundler's build-time Node.js
//! chunk format: assembling a chunk's executable payload, deciding and
//! merging per-chunk runtime configurations, and emitting manifest stubs
//! for deferred dynamic-import resolution.

use vstd::prelude::*;

pub mod chunk;
pub mod content;
pub mod context;
pub mod errors;
pub mod ids;
pub mod json;
pub mod manifest;
pub mod path_set;
pub mod paths;
pub mod runtime;
pub mod text;

verus! {

/// A chunk-loading strategy: the platform flavor of the bootstrap code a
/// self-executing chunk splices in.
#[derive(Clone, Copy, PartialEq, Eq, Structural, Debug)]
pub enum ChunkLoading {
    /// No chunk loading available: the platform cannot load sibling chunks.
    NoLoading,
    /// Chunks are loaded through Node.js `require`.
    NodeJs,
    /// Chunks are loaded through DOM script tags.
    Dom,
}

} // verus!
