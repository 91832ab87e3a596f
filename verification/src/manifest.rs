//! Deferred dynamic-import resolution: a manifest asset that lazily owns
//! the chunk group needed to fully load a wrapped asset, and the thin stub
//! item that exports the ordered, de-duplicated list of chunk paths to
//! load before the real target may be imported. Splitting the cheap stub
//! from the expensive traversal postpones transitive chunk-set computation
//! until the dynamic import is actually reached.

use indexmap::IndexSet;
use vstd::prelude::*;

use crate::chunk::{AssetIdent, AssetIdentView, ChunkGroup, ChunkGroupView};
use crate::context::{ChunkingContextView, EcmascriptChunkingContext};
use crate::errors::BuildError;
use crate::json::{json_string_array, push_json_string_array};
use crate::path_set::{index_set_elems, path_set_insert, path_set_new, path_set_to_vec};
use crate::paths::{get_path_to, rel_path_of};
use crate::text::{clone_str_vec, push_str, views_of_strs};

verus! {

/// The modules already guaranteed loaded by an ancestor context, named by
/// their identity strings; seeding a manifest's chunk-group computation
/// with it keeps already-available modules out of the result.
#[derive(Debug)]
pub struct AvailabilityInfo {
    pub available: Vec<String>,
}

impl View for AvailabilityInfo {
    type V = Seq<Seq<char>>;

    open spec fn view(&self) -> Seq<Seq<char>> {
        views_of_strs(self.available@)
    }
}

impl AvailabilityInfo {
    /// Duplicates the record, preserving its value.
    pub fn duplicate(&self) -> (r: AvailabilityInfo)
        ensures
            r@ == self@,
    {
        AvailabilityInfo { available: clone_str_vec(&self.available) }
    }
}

/// The request a manifest hands to the shared chunking pipeline when its
/// own output chunk is produced: the manifest's identity, the chunking
/// context the chunk is produced under, and the availability the chunk is
/// computed under. The chunk's byte content is a capability of that
/// pipeline, not of this crate.
#[derive(Debug)]
pub struct ManifestChunkRequest {
    pub asset_ident: AssetIdent,
    pub chunking_context: EcmascriptChunkingContext,
    pub availability_info: AvailabilityInfo,
}

/// The exported shape of a module: a manifest stub exports a plain value.
#[derive(Clone, Copy, PartialEq, Eq, Structural, Debug)]
pub enum EcmascriptExports {
    Value,
}

/// The mathematical value of a [`BuildManifestChunkAsset`].
pub struct ManifestAssetView {
    pub asset_ident: AssetIdentView,
    pub chunking_context: ChunkingContextView,
    pub availability_info: Seq<Seq<char>>,
    pub chunk_group: Option<ChunkGroupView>,
}

/// The manifest asset: it wraps one dynamically imported asset and lazily
/// owns the chunk group required to fully load it. The group is never
/// computed at construction; the expensive traversal is external, and its
/// result is installed on first access and then reused.
#[derive(Debug)]
pub struct BuildManifestChunkAsset {
    /// The identity of the wrapped asset.
    pub asset_ident: AssetIdent,
    /// The chunking context the manifest was created under.
    pub chunking_context: EcmascriptChunkingContext,
    /// The availability the chunk group is computed under.
    pub availability_info: AvailabilityInfo,
    chunk_group: Option<ChunkGroup>,
}

impl View for BuildManifestChunkAsset {
    type V = ManifestAssetView;

    closed spec fn view(&self) -> ManifestAssetView {
        ManifestAssetView {
            asset_ident: self.asset_ident@,
            chunking_context: self.chunking_context@,
            availability_info: self.availability_info@,
            chunk_group: match self.chunk_group {
                Some(ref g) => Some(g@),
                None => None,
            },
        }
    }
}

impl BuildManifestChunkAsset {
    /// A manifest for the given asset: its chunk group starts out
    /// uncomputed.
    pub fn new(
        asset_ident: AssetIdent,
        chunking_context: EcmascriptChunkingContext,
        availability_info: AvailabilityInfo,
    ) -> (r: BuildManifestChunkAsset)
        ensures
            r@.asset_ident == asset_ident@,
            r@.chunking_context == chunking_context@,
            r@.availability_info == availability_info@,
            r@.chunk_group is None,
    {
        BuildManifestChunkAsset { asset_ident, chunking_context, availability_info, chunk_group: None }
    }

    /// Duplicates the manifest, preserving its value and its cached group.
    pub fn duplicate(&self) -> (r: BuildManifestChunkAsset)
        ensures
            r@ == self@,
    {
        BuildManifestChunkAsset {
            asset_ident: self.asset_ident.duplicate(),
            chunking_context: self.chunking_context.duplicate(),
            availability_info: self.availability_info.duplicate(),
            chunk_group: match &self.chunk_group {
                Some(g) => Some(g.duplicate()),
                None => None,
            },
        }
    }

    /// Whether the chunk group has been computed yet.
    pub fn has_chunk_group(&self) -> (r: bool)
        ensures
            r == (self@.chunk_group is Some),
    {
        self.chunk_group.is_some()
    }

    /// Installs the externally computed chunk group on first access: the
    /// traversal's result for (asset identity, availability info). It is
    /// never recomputed afterwards.
    pub fn provide_chunk_group(&mut self, group: ChunkGroup)
        requires
            old(self)@.chunk_group is None,
        ensures
            final(self)@.asset_ident == old(self)@.asset_ident,
            final(self)@.chunking_context == old(self)@.chunking_context,
            final(self)@.availability_info == old(self)@.availability_info,
            final(self)@.chunk_group == Some(group@),
    {
        self.chunk_group = Some(group);
    }

    /// The chunk group required to fully load the wrapped asset; available
    /// once installed.
    pub fn chunk_group(&self) -> (r: &ChunkGroup)
        requires
            self@.chunk_group is Some,
        ensures
            self@.chunk_group == Some(r@),
    {
        match &self.chunk_group {
            Some(g) => g,
            None => vstd::pervasive::unreached(),
        }
    }

    /// The manifest's own identity: the wrapped asset's identity tagged as
    /// a manifest chunk.
    pub fn ident(&self) -> (r: AssetIdent)
        ensures
            r@.path == self@.asset_ident.path,
            r@.modifiers == self@.asset_ident.modifiers.push("manifest chunk"@),
    {
        self.asset_ident.with_modifier(crate::text::str_to_string("manifest chunk"))
    }

    /// The manifest's graph references: exactly one per chunk of the
    /// resolved chunk group, named by the chunks' paths.
    pub fn references(&self) -> (r: Vec<String>)
        requires
            self@.chunk_group is Some,
        ensures
            self@.chunk_group matches Some(g) && views_of_strs(r@) == g.chunks,
    {
        clone_str_vec(&self.chunk_group().chunks)
    }

    /// The request producing the manifest's own output chunk through the
    /// standard chunking mechanism.
    pub fn manifest_chunk(&self) -> (r: ManifestChunkRequest)
        ensures
            r.asset_ident@.path == self@.asset_ident.path,
            r.asset_ident@.modifiers == self@.asset_ident.modifiers.push("manifest chunk"@),
            r.chunking_context@ == self@.chunking_context,
            r.availability_info@ == self@.availability_info,
    {
        ManifestChunkRequest {
            asset_ident: self.ident(),
            chunking_context: self.chunking_context.duplicate(),
            availability_info: self.availability_info.duplicate(),
        }
    }

    /// The stub item loading this manifest, tied to it one to one.
    pub fn as_chunk_item(&self, context: &EcmascriptChunkingContext) -> (r: BuildManifestChunkItem)
        ensures
            r@.context == context@,
            r@.manifest == self@,
    {
        BuildManifestChunkItem { context: context.duplicate(), manifest: self.duplicate() }
    }

    /// A manifest stub exports a plain value.
    pub fn get_exports(&self) -> (r: EcmascriptExports)
        ensures
            r == EcmascriptExports::Value,
    {
        EcmascriptExports::Value
    }
}

/// The mathematical value of a [`BuildManifestChunkItem`].
pub struct ManifestItemView {
    pub context: ChunkingContextView,
    pub manifest: ManifestAssetView,
}

/// The manifest loader stub: the cheap, eagerly computable module emitted
/// at the dynamic-import call site. It shares the manifest asset's
/// identity and exports the list of chunk paths to load.
#[derive(Debug)]
pub struct BuildManifestChunkItem {
    pub context: EcmascriptChunkingContext,
    pub manifest: BuildManifestChunkAsset,
}

impl View for BuildManifestChunkItem {
    type V = ManifestItemView;

    open spec fn view(&self) -> ManifestItemView {
        ManifestItemView { context: self.context@, manifest: self.manifest@ }
    }
}

/// The output-relative paths of the group's chunks, in group order, each
/// kept only at its first occurrence; a chunk that does not resolve under
/// the output root is skipped (the assembler treats it as fatal instead).
pub open spec fn manifest_rel_paths(chunks: Seq<Seq<char>>, root: Seq<char>) -> Seq<Seq<char>>
    decreases chunks.len(),
{
    if chunks.len() == 0 {
        Seq::empty()
    } else {
        let prev = manifest_rel_paths(chunks.drop_last(), root);
        match rel_path_of(root, chunks.last()) {
            Some(p) => if prev.contains(p) {
                prev
            } else {
                prev.push(p)
            },
            None => prev,
        }
    }
}

/// The first chunk of the group that does not resolve under the output
/// root, when there is one.
pub open spec fn first_unresolvable(chunks: Seq<Seq<char>>, root: Seq<char>) -> Option<Seq<char>>
    decreases chunks.len(),
{
    if chunks.len() == 0 {
        None
    } else if rel_path_of(root, chunks[0]) is None {
        Some(chunks[0])
    } else {
        first_unresolvable(chunks.drop_first(), root)
    }
}

/// The manifest stub's module text: a call exporting the ordered list of
/// chunk paths the dynamic-import machinery must load first.
pub open spec fn manifest_stub_text(paths: Seq<Seq<char>>) -> Seq<char> {
    "__turbopack_export_value__("@ + json_string_array(paths) + ");\n"@
}

impl BuildManifestChunkItem {
    /// The context this item is chunked under.
    pub fn chunking_context(&self) -> (r: &EcmascriptChunkingContext)
        ensures
            r@ == self@.context,
    {
        &self.context
    }

    /// The item's identity: identical to the owning manifest asset's
    /// identity — stub and lazy asset are one logical unit.
    pub fn asset_ident(&self) -> (r: AssetIdent)
        ensures
            r@.path == self@.manifest.asset_ident.path,
            r@.modifiers == self@.manifest.asset_ident.modifiers.push("manifest chunk"@),
    {
        self.manifest.ident()
    }

    /// The item's graph references: the manifest's.
    pub fn references(&self) -> (r: Vec<String>)
        requires
            self@.manifest.chunk_group is Some,
        ensures
            self@.manifest.chunk_group matches Some(g) && views_of_strs(r@) == g.chunks,
    {
        self.manifest.references()
    }

    /// The stub's module text: every chunk of the manifest's group
    /// resolved to an output-relative path, de-duplicated preserving
    /// first-seen order, exported as the module's value. Fatal when any
    /// chunk's path cannot be expressed relative to the output root.
    pub fn content(&self) -> (r: Result<String, BuildError>)
        requires
            self@.manifest.chunk_group is Some,
        ensures
            self@.manifest.chunk_group matches Some(g) ==> match r {
                Ok(code) => first_unresolvable(g.chunks, self@.context.output_root) is None && code@
                    == manifest_stub_text(
                    manifest_rel_paths(g.chunks, self@.context.output_root),
                ),
                Err(e) => e matches BuildError::PathResolution { path, output_root }
                    && first_unresolvable(g.chunks, self@.context.output_root) == Some(path@)
                    && output_root@ == self@.context.output_root,
            },
    {
        let group = self.manifest.chunk_group();
        let ghost gcs = group@.chunks;
        let ghost root = self@.context.output_root;
        let mut set: IndexSet<String> = path_set_new();
        proof {
            assert(gcs.skip(0) =~= gcs);
            assert(gcs.take(0) =~= Seq::<Seq<char>>::empty());
        }
        let mut i: usize = 0;
        while i < group.chunks.len()
            invariant
                views_of_strs(group.chunks@) == gcs,
                group.chunks@.len() == gcs.len(),
                i <= gcs.len(),
                root == self@.context.output_root,
                self@.manifest.chunk_group == Some(group@),
                group@.chunks == gcs,
                index_set_elems(set) == manifest_rel_paths(gcs.take(i as int), root),
                forall|j: int| 0 <= j < i ==> rel_path_of(root, gcs[j]) is Some,
                first_unresolvable(gcs, root) == first_unresolvable(gcs.skip(i as int), root),
            decreases group.chunks.len() - i,
        {
            proof {
                assert(group.chunks@[i as int]@ == gcs[i as int]);
                assert(gcs.take(i + 1 as int).drop_last() =~= gcs.take(i as int));
                assert(gcs.take(i + 1 as int).last() == gcs[i as int]);
                assert(gcs.skip(i as int)[0] == gcs[i as int]);
                assert(gcs.skip(i as int).drop_first() =~= gcs.skip(i + 1 as int));
            }
            match get_path_to(self.context.output_root.as_str(), group.chunks[i].as_str()) {
                Some(p) => {
                    path_set_insert(&mut set, p);
                },
                None => {
                    proof {
                        assert(rel_path_of(root, gcs[i as int]) is None);
                        assert(first_unresolvable(gcs.skip(i as int), root) == Some(
                            gcs[i as int],
                        ));
                        assert(first_unresolvable(gcs, root) == Some(gcs[i as int]));
                        assert(self@.manifest.chunk_group == Some(group@));
                        assert(group@.chunks == gcs);
                    }
                    let err_path = group.chunks[i].clone();
                    assert(err_path@ == gcs[i as int]);
                    return Err(BuildError::PathResolution {
                        path: err_path,
                        output_root: self.context.output_root.clone(),
                    });
                },
            }
            i = i + 1;
        }
        proof {
            assert(gcs.take(gcs.len() as int) =~= gcs);
            assert(gcs.skip(gcs.len() as int) =~= Seq::<Seq<char>>::empty());
        }
        let paths = path_set_to_vec(&set);
        let mut out = String::new();
        push_str(&mut out, "__turbopack_export_value__(");
        push_json_string_array(&mut out, &paths);
        push_str(&mut out, ");\n");
        proof {
            assert(out@ =~= manifest_stub_text(manifest_rel_paths(gcs, root)));
        }
        Ok(out)
    }
}

/// The generated path list never repeats a path: already-emitted paths are
/// skipped wherever the group's traversal revisits a chunk.
pub proof fn lemma_manifest_paths_unique(chunks: Seq<Seq<char>>, root: Seq<char>)
    ensures
        forall|i: int, j: int|
            0 <= i < j < manifest_rel_paths(chunks, root).len() ==> manifest_rel_paths(
                chunks,
                root,
            )[i] != manifest_rel_paths(chunks, root)[j],
    decreases chunks.len(),
{
    if chunks.len() > 0 {
        lemma_manifest_paths_unique(chunks.drop_last(), root);
        let prev = manifest_rel_paths(chunks.drop_last(), root);
        let cur = manifest_rel_paths(chunks, root);
        match rel_path_of(root, chunks.last()) {
            Some(p) => {
                if !prev.contains(p) {
                    assert forall|i: int, j: int| 0 <= i < j < cur.len() implies cur[i]
                        != cur[j] by {
                        if j == prev.len() {
                            assert(prev[i] != p);
                        }
                    }
                }
            },
            None => {},
        }
    }
}

/// Every chunk of the group that resolves under the output root appears in
/// the generated path list.
pub proof fn lemma_manifest_paths_complete(chunks: Seq<Seq<char>>, root: Seq<char>)
    ensures
        forall|i: int|
            #![trigger rel_path_of(root, chunks[i])]
            0 <= i < chunks.len() ==> match rel_path_of(root, chunks[i]) {
                Some(p) => manifest_rel_paths(chunks, root).contains(p),
                None => true,
            },
    decreases chunks.len(),
{
    if chunks.len() > 0 {
        lemma_manifest_paths_complete(chunks.drop_last(), root);
        let prev = manifest_rel_paths(chunks.drop_last(), root);
        let cur = manifest_rel_paths(chunks, root);
        assert forall|i: int|
            #![trigger rel_path_of(root, chunks[i])]
            0 <= i < chunks.len() implies match rel_path_of(root, chunks[i]) {
            Some(p) => cur.contains(p),
            None => true,
        } by {
            match rel_path_of(root, chunks[i]) {
                Some(p) => {
                    if i < chunks.len() - 1 {
                        assert(chunks.drop_last()[i] == chunks[i]);
                        assert(prev.contains(p));
                        let w = choose|w: int| 0 <= w < prev.len() && prev[w] == p;
                        assert(cur[w] == p);
                    } else {
                        if prev.contains(p) {
                            let w = choose|w: int| 0 <= w < prev.len() && prev[w] == p;
                            assert(cur[w] == p);
                        } else {
                            assert(cur.last() == p);
                        }
                    }
                },
                None => {},
            }
        }
    }
}

/// Appending chunks whose relative paths were all emitted already leaves
/// the generated list unchanged.
pub proof fn lemma_manifest_paths_absorb(
    chunks: Seq<Seq<char>>,
    extra: Seq<Seq<char>>,
    root: Seq<char>,
)
    requires
        forall|j: int|
            #![trigger rel_path_of(root, extra[j])]
            0 <= j < extra.len() ==> match rel_path_of(root, extra[j]) {
                Some(p) => manifest_rel_paths(chunks, root).contains(p),
                None => true,
            },
    ensures
        manifest_rel_paths(chunks + extra, root) == manifest_rel_paths(chunks, root),
    decreases extra.len(),
{
    if extra.len() == 0 {
        assert(chunks + extra =~= chunks);
    } else {
        assert forall|j: int|
            #![trigger rel_path_of(root, extra.drop_last()[j])]
            0 <= j < extra.drop_last().len() implies match rel_path_of(
            root,
            extra.drop_last()[j],
        ) {
            Some(p) => manifest_rel_paths(chunks, root).contains(p),
            None => true,
        } by {
            assert(extra.drop_last()[j] == extra[j]);
        }
        lemma_manifest_paths_absorb(chunks, extra.drop_last(), root);
        assert((chunks + extra).drop_last() =~= chunks + extra.drop_last());
        assert((chunks + extra).last() == extra.last());
    }
}

/// Manifest path-list generation is idempotent: resolving the same
/// chunk-group membership again — in particular a traversal that revisits
/// every chunk — yields the identical ordered list.
pub proof fn lemma_manifest_paths_idempotent(chunks: Seq<Seq<char>>, root: Seq<char>)
    ensures
        manifest_rel_paths(chunks + chunks, root) == manifest_rel_paths(chunks, root),
{
    lemma_manifest_paths_complete(chunks, root);
    lemma_manifest_paths_absorb(chunks, chunks, root);
}

} // verus!
