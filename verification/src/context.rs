//! The chunking-context capability: output-root resolution, the active
//! chunk-loading strategy, a namespacing layer tag, and module-id
//! assignment. Every other component is parameterized by one of these.

use vstd::prelude::*;
use vstd::string::StringExecFns;

use crate::chunk::{AssetIdent, ChunkPlaceable};
use crate::ids::{ModuleId, ModuleIdView};
use crate::manifest::{AvailabilityInfo, BuildManifestChunkAsset, BuildManifestChunkItem};
use crate::runtime::EcmascriptBuildNodeChunkRuntime;
use crate::text::{push_char, push_str, str_to_string};
use crate::ChunkLoading;

verus! {

/// The mathematical value of an [`EcmascriptChunkingContext`].
pub struct ChunkingContextView {
    pub output_root: Seq<char>,
    pub layer: Seq<char>,
    pub chunk_loading: ChunkLoading,
}

/// The capability that chunk runtimes, contents and manifests depend on:
/// where output paths are rooted, which platform bootstrap is active, and
/// how module ids are derived.
#[derive(Debug)]
pub struct EcmascriptChunkingContext {
    /// The root below which all served chunk paths live.
    pub output_root: String,
    /// A namespacing tag, keeping ids distinct across layered contexts;
    /// empty when unused.
    pub layer: String,
    /// The active chunk-loading strategy.
    pub chunk_loading: ChunkLoading,
}

impl View for EcmascriptChunkingContext {
    type V = ChunkingContextView;

    open spec fn view(&self) -> ChunkingContextView {
        ChunkingContextView {
            output_root: self.output_root@,
            layer: self.layer@,
            chunk_loading: self.chunk_loading,
        }
    }
}

/// The module-id string a context derives from an item's identity string:
/// the identity itself, prefixed with the layer tag and a separator when
/// the layer is non-empty.
pub open spec fn chunk_item_id_of(layer: Seq<char>, item_ident: Seq<char>) -> Seq<char> {
    if layer.len() == 0 {
        item_ident
    } else {
        layer + seq!['/'] + item_ident
    }
}

impl EcmascriptChunkingContext {
    /// A context rooted at `output_root`, tagged with `layer`, loading
    /// chunks by `chunk_loading`.
    pub fn new(output_root: String, layer: String, chunk_loading: ChunkLoading) -> (r:
        EcmascriptChunkingContext)
        ensures
            r@ == (ChunkingContextView { output_root: output_root@, layer: layer@, chunk_loading }),
    {
        EcmascriptChunkingContext { output_root, layer, chunk_loading }
    }

    /// Duplicates the context, preserving its value.
    pub fn duplicate(&self) -> (r: EcmascriptChunkingContext)
        ensures
            r@ == self@,
    {
        EcmascriptChunkingContext {
            output_root: self.output_root.clone(),
            layer: self.layer.clone(),
            chunk_loading: self.chunk_loading,
        }
    }

    /// Compares two contexts by value.
    pub fn same_context(&self, other: &EcmascriptChunkingContext) -> (r: bool)
        ensures
            r == (self@ == other@),
    {
        let r = self.output_root == other.output_root && self.layer == other.layer
            && self.chunk_loading == other.chunk_loading;
        assert(r == (self@ == other@));
        r
    }

    /// Derives the module id for a chunk item from its identity string,
    /// prefixed with the layer tag when one is set.
    pub fn chunk_item_id(&self, item_ident: &str) -> (r: ModuleId)
        ensures
            r@ == ModuleIdView::Str(chunk_item_id_of(self@.layer, item_ident@)),
    {
        if self.layer.as_str().is_empty() {
            ModuleId::Str(str_to_string(item_ident))
        } else {
            let mut s = self.layer.clone();
            push_char(&mut s, '/');
            push_str(&mut s, item_ident);
            assert(s@ =~= chunk_item_id_of(self@.layer, item_ident@));
            ModuleId::Str(s)
        }
    }

    /// A runtime that registers a chunk's contents when executed, without
    /// evaluating or exporting anything.
    pub fn ecmascript_runtime(&self) -> (r: EcmascriptBuildNodeChunkRuntime)
        ensures
            r@.chunking_context == self@,
            r@.chunk_group is None,
            r@.evaluated_entries is None,
            r@.exported_entry is None,
    {
        EcmascriptBuildNodeChunkRuntime::new(self.duplicate(), None, None)
    }

    /// A runtime that registers a chunk's contents and instantiates the
    /// given entries when executed.
    pub fn evaluated_ecmascript_runtime(&self, evaluated_entries: Vec<ChunkPlaceable>) -> (r:
        EcmascriptBuildNodeChunkRuntime)
        requires
            crate::runtime::unique_idents(evaluated_entries.deep_view()),
        ensures
            r@.chunking_context == self@,
            r@.chunk_group is None,
            r@.evaluated_entries == Some(evaluated_entries.deep_view()),
            r@.exported_entry is None,
    {
        EcmascriptBuildNodeChunkRuntime::new(self.duplicate(), Some(evaluated_entries), None)
    }

    /// The loader item used to load the given manifest asset: the cheap
    /// stub tied to the deferred manifest chunk.
    pub fn manifest_loader_item(&self, asset_ident: AssetIdent, availability_info: AvailabilityInfo)
        -> (r: BuildManifestChunkItem)
        ensures
            r@.context == self@,
            r@.manifest.asset_ident == asset_ident@,
            r@.manifest.availability_info == availability_info@,
            r@.manifest.chunk_group is None,
    {
        let manifest = BuildManifestChunkAsset::new(asset_ident, self.duplicate(),
            availability_info);
        BuildManifestChunkItem { context: self.duplicate(), manifest }
    }
}

} // verus!
