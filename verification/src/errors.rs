//! The fatal conditions of chunk assembly and runtime merging. None of
//! these is retried internally: each aborts the enclosing build step, and
//! no partial output is ever produced.

use vstd::prelude::*;

use crate::text::{push_str, str_to_string};

verus! {

/// A fatal condition while assembling a chunk's content or a manifest.
#[derive(Debug)]
pub enum BuildError {
    /// A chunk path cannot be expressed relative to the output root; both
    /// are named so the failure message can point at them.
    PathResolution { path: String, output_root: String },
    /// An expected embedded platform bootstrap text is absent: a
    /// packaging defect.
    MissingEmbeddedResource,
    /// An incremental version or update was requested of a format that
    /// only supports whole-file replacement.
    UnsupportedOperation,
}

impl BuildError {
    /// The message the failed build surfaces, naming the offending path
    /// where one is involved.
    pub fn message(&self) -> (r: String)
        ensures
            match self {
                BuildError::PathResolution { path, output_root } => r@ == "chunk path "@ + path@
                    + " is not in output root "@ + output_root@,
                BuildError::MissingEmbeddedResource => r@ == "embedded runtime code is not found"@,
                BuildError::UnsupportedOperation => r@
                    == "this chunk format only supports whole-file replacement"@,
            },
    {
        match self {
            BuildError::PathResolution { path, output_root } => {
                let mut r = str_to_string("chunk path ");
                push_str(&mut r, path.as_str());
                push_str(&mut r, " is not in output root ");
                push_str(&mut r, output_root.as_str());
                r
            },
            BuildError::MissingEmbeddedResource => str_to_string(
                "embedded runtime code is not found",
            ),
            BuildError::UnsupportedOperation => str_to_string(
                "this chunk format only supports whole-file replacement",
            ),
        }
    }
}

/// Why two chunk runtimes cannot be coalesced. Fatal: it signals an
/// optimizer bug or an unsupported configuration.
#[derive(Clone, Copy, PartialEq, Eq, Structural, Debug)]
pub enum IncompatibleMergeError {
    /// The runtimes were created by different chunking contexts.
    DifferentChunkingContexts,
    /// The runtimes are gated by different chunk groups.
    DifferentChunkGroups,
    /// Both runtimes export a CommonJS value, and the exported entries
    /// differ.
    ConflictingExportedEntries,
}

impl IncompatibleMergeError {
    /// The message the failed coalescing surfaces.
    pub fn message(&self) -> (r: String)
        ensures
            match self {
                IncompatibleMergeError::DifferentChunkingContexts => r@
                    == "cannot merge chunk runtimes with different chunking contexts"@,
                IncompatibleMergeError::DifferentChunkGroups => r@
                    == "cannot merge chunk runtimes with different chunk groups"@,
                IncompatibleMergeError::ConflictingExportedEntries => r@
                    == "cannot merge chunk runtimes with different exported entries"@,
            },
    {
        match self {
            IncompatibleMergeError::DifferentChunkingContexts => str_to_string(
                "cannot merge chunk runtimes with different chunking contexts",
            ),
            IncompatibleMergeError::DifferentChunkGroups => str_to_string(
                "cannot merge chunk runtimes with different chunk groups",
            ),
            IncompatibleMergeError::ConflictingExportedEntries => str_to_string(
                "cannot merge chunk runtimes with different exported entries",
            ),
        }
    }
}

} // verus!
