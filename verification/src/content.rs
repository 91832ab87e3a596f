//! The chunk content assembler: turns one chunk plus its runtime
//! configuration into the final executable text — the module registration
//! call, the optional runtime params and bootstrap, and the optional
//! source-map trailer. This format supports only whole-file replacement:
//! versioning and incremental updates fail deterministically.

use vstd::prelude::*;

use crate::chunk::{Chunk, ChunkEntry, ChunkEntryView, ChunkGroup, ChunkGroupView, ChunkPlaceable};
use crate::context::{chunk_item_id_of, ChunkingContextView, EcmascriptChunkingContext};
use crate::errors::BuildError;
use crate::ids::{module_id_array_json, module_id_json, push_module_id_array, push_module_id_json,
    ModuleId, ModuleIdView};
use crate::json::{json_string, json_string_array, push_json_string, push_json_string_array};
use crate::paths::{file_name, file_name_of, get_path_to, rel_path_of};
use crate::text::{push_char, push_str, str_vec_contains, views_of_strs};
use crate::ChunkLoading;

verus! {

/// The wire record a self-executing chunk passes to its bootstrap: the
/// sibling chunks to load first, the module ids to instantiate, and the
/// optional module id exported as the chunk's CommonJS value.
#[derive(Debug)]
pub struct EcmascriptBuildChunkRuntimeParams {
    /// Output-relative paths of the other chunks in the governing chunk
    /// group: never the chunk's own path, never a duplicate.
    pub other_chunks: Vec<String>,
    /// Module ids instantiated when the chunk executes, in entry order.
    pub runtime_module_ids: Vec<ModuleId>,
    /// The module id whose value the chunk exports, when one is set.
    pub exported_cjs_module_id: Option<ModuleId>,
}

/// The mathematical value of [`EcmascriptBuildChunkRuntimeParams`].
pub struct ParamsView {
    pub other_chunks: Seq<Seq<char>>,
    pub runtime_module_ids: Seq<ModuleIdView>,
    pub exported_cjs_module_id: Option<ModuleIdView>,
}

impl View for EcmascriptBuildChunkRuntimeParams {
    type V = ParamsView;

    open spec fn view(&self) -> ParamsView {
        ParamsView {
            other_chunks: views_of_strs(self.other_chunks@),
            runtime_module_ids: self.runtime_module_ids.deep_view(),
            exported_cjs_module_id: match self.exported_cjs_module_id {
                Some(ref id) => Some(id@),
                None => None,
            },
        }
    }
}

/// The embedded platform bootstrap texts, keyed by chunk-loading strategy,
/// and the strategy-independent shared bootstrap text. An absent text is a
/// packaging defect that fails assembly.
#[derive(Debug)]
pub struct EmbeddedRuntimeCode {
    pub none_runtime: Option<String>,
    pub nodejs_runtime: Option<String>,
    pub dom_runtime: Option<String>,
    pub shared_runtime: Option<String>,
}

/// The mathematical value of [`EmbeddedRuntimeCode`].
pub struct EmbeddedRuntimeCodeView {
    pub none_runtime: Option<Seq<char>>,
    pub nodejs_runtime: Option<Seq<char>>,
    pub dom_runtime: Option<Seq<char>>,
    pub shared_runtime: Option<Seq<char>>,
}

impl View for EmbeddedRuntimeCode {
    type V = EmbeddedRuntimeCodeView;

    open spec fn view(&self) -> EmbeddedRuntimeCodeView {
        EmbeddedRuntimeCodeView {
            none_runtime: match self.none_runtime {
                Some(ref s) => Some(s@),
                None => None,
            },
            nodejs_runtime: match self.nodejs_runtime {
                Some(ref s) => Some(s@),
                None => None,
            },
            dom_runtime: match self.dom_runtime {
                Some(ref s) => Some(s@),
                None => None,
            },
            shared_runtime: match self.shared_runtime {
                Some(ref s) => Some(s@),
                None => None,
            },
        }
    }
}

/// The embedded bootstrap text for the given strategy.
pub open spec fn platform_text(ev: EmbeddedRuntimeCodeView, loading: ChunkLoading) -> Option<
    Seq<char>,
> {
    match loading {
        ChunkLoading::NoLoading => ev.none_runtime,
        ChunkLoading::NodeJs => ev.nodejs_runtime,
        ChunkLoading::Dom => ev.dom_runtime,
    }
}

/// The mathematical value of an [`EcmascriptBuildNodeChunkContent`].
pub struct ContentView {
    pub chunking_context: ChunkingContextView,
    pub chunk: crate::chunk::ChunkView,
    pub chunk_group: Option<ChunkGroupView>,
    pub evaluated_entries: Option<Seq<Seq<char>>>,
    pub exported_entry: Option<Seq<char>>,
}

/// One chunk together with the runtime configuration that governs its
/// assembly.
#[derive(Debug)]
pub struct EcmascriptBuildNodeChunkContent {
    pub chunking_context: EcmascriptChunkingContext,
    pub chunk: Chunk,
    pub chunk_group: Option<ChunkGroup>,
    pub evaluated_entries: Option<Vec<ChunkPlaceable>>,
    pub exported_entry: Option<ChunkPlaceable>,
}

impl View for EcmascriptBuildNodeChunkContent {
    type V = ContentView;

    open spec fn view(&self) -> ContentView {
        ContentView {
            chunking_context: self.chunking_context@,
            chunk: self.chunk@,
            chunk_group: match self.chunk_group {
                Some(ref g) => Some(g@),
                None => None,
            },
            evaluated_entries: match self.evaluated_entries {
                Some(ref e) => Some(e.deep_view()),
                None => None,
            },
            exported_entry: match self.exported_entry {
                Some(ref p) => Some(p@),
                None => None,
            },
        }
    }
}

/// Whether the chunk self-executes: it has evaluated entries or an
/// exported entry, so it receives params and a bootstrap.
pub open spec fn self_executing(cv: ContentView) -> bool {
    cv.evaluated_entries is Some || cv.exported_entry is Some
}

/// The absolute paths of the chunks in the governing chunk group: the
/// supplied group's chunks, or the chunk alone when no group was supplied.
pub open spec fn group_chunk_paths(cv: ContentView) -> Seq<Seq<char>> {
    match cv.chunk_group {
        Some(g) => g.chunks,
        None => seq![cv.chunk.path],
    }
}

/// The output-relative paths of every other chunk of the group, in group
/// order: the chunk's own path and any path not expressible relative to
/// the output root are skipped, and duplicates are kept only once.
pub open spec fn other_chunks_spec(
    own: Seq<char>,
    chunks: Seq<Seq<char>>,
    root: Seq<char>,
) -> Seq<Seq<char>>
    decreases chunks.len(),
{
    if chunks.len() == 0 {
        Seq::empty()
    } else {
        let prev = other_chunks_spec(own, chunks.drop_last(), root);
        match rel_path_of(root, chunks.last()) {
            Some(p) => if p != own && !prev.contains(p) {
                prev.push(p)
            } else {
                prev
            },
            None => prev,
        }
    }
}

/// The module ids of the evaluated entries, in entry order.
pub open spec fn runtime_ids_spec(layer: Seq<char>, entries: Option<Seq<Seq<char>>>) -> Seq<
    ModuleIdView,
> {
    match entries {
        Some(e) => e.map_values(|ident: Seq<char>| ModuleIdView::Str(chunk_item_id_of(layer, ident))),
        None => Seq::empty(),
    }
}

/// The module id of the exported entry, when one is set.
pub open spec fn exported_id_spec(layer: Seq<char>, exported: Option<Seq<char>>) -> Option<
    ModuleIdView,
> {
    match exported {
        Some(ident) => Some(ModuleIdView::Str(chunk_item_id_of(layer, ident))),
        None => None,
    }
}

/// The params record of a self-executing chunk whose own output-relative
/// path is `own`.
pub open spec fn params_view_of(cv: ContentView, own: Seq<char>) -> ParamsView {
    ParamsView {
        other_chunks: other_chunks_spec(
            own,
            group_chunk_paths(cv),
            cv.chunking_context.output_root,
        ),
        runtime_module_ids: runtime_ids_spec(cv.chunking_context.layer, cv.evaluated_entries),
        exported_cjs_module_id: exported_id_spec(cv.chunking_context.layer, cv.exported_entry),
    }
}

/// The compact JSON rendering of a params record.
pub open spec fn params_json(p: ParamsView) -> Seq<char> {
    "{\"otherChunks\":"@ + json_string_array(p.other_chunks) + ",\"runtimeModuleIds\":"@
        + module_id_array_json(p.runtime_module_ids) + (match p.exported_cjs_module_id {
        Some(id) => ",\"exportedCjsModuleId\":"@ + module_id_json(id),
        None => Seq::<char>::empty(),
    }) + seq!['}']
}

/// The runtime bootstrap of a chunk whose output-relative path is `own`:
/// an immediately-invoked wrapper that no-ops unless the registration
/// queue is an array, pins the chunk's own path, and splices the platform
/// and shared bootstrap texts.
pub open spec fn runtime_code_text(
    own: Seq<char>,
    platform: Seq<char>,
    shared: Seq<char>,
) -> Seq<char> {
    "(() => {\nif (!Array.isArray(globalThis.TURBOPACK)) {\n    return;\n}\n\nconst RUNTIME_CHUNK_PATH = "@
        + json_string(own) + ";\n"@ + platform + shared + "})();\n"@
}

/// How one module entry appears in the registration object.
pub open spec fn entry_text(e: ChunkEntryView) -> Seq<char> {
    seq!['\n'] + module_id_json(e.id) + ": "@ + e.code + seq![',']
}

/// The registration object's members, in the chunk's own content order.
pub open spec fn entries_section(es: Seq<ChunkEntryView>) -> Seq<char>
    decreases es.len(),
{
    if es.len() == 0 {
        Seq::empty()
    } else {
        entries_section(es.drop_last()) + entry_text(es.last())
    }
}

/// Whether any module of the chunk carried its own source map.
pub open spec fn chunk_has_map(es: Seq<ChunkEntryView>) -> bool {
    exists|i: int| 0 <= i < es.len() && es[i].source_map is Some
}

/// The registration call opened with the chunk's own path and its module
/// members, up to and excluding any further call arguments.
pub open spec fn registration_open(cv: ContentView, own: Seq<char>) -> Seq<char> {
    "(globalThis.TURBOPACK = globalThis.TURBOPACK || []).push(["@ + json_string(own) + ", {\n"@
        + entries_section(cv.chunk.entries) + "\n}"@
}

/// The source-map trailer, present when any module carried a map.
pub open spec fn map_trailer(cv: ContentView) -> Seq<char> {
    if chunk_has_map(cv.chunk.entries) {
        "\n\n//# sourceMappingURL="@ + file_name_of(cv.chunk.path) + ".map"@
    } else {
        Seq::<char>::empty()
    }
}

/// The whole assembled payload of the chunk, given that its own path
/// resolves to `own` and that the needed bootstrap texts are present: the
/// registration call, with params and the host-module argument and the
/// bootstrap when the chunk self-executes, and the source-map trailer.
pub open spec fn assembled_code(
    cv: ContentView,
    ev: EmbeddedRuntimeCodeView,
    own: Seq<char>,
) -> Seq<char> {
    let reg = registration_open(cv, own);
    let with_params = if self_executing(cv) {
        reg + "\n, "@ + params_json(params_view_of(cv, own)) + (if cv.chunking_context.chunk_loading
            == ChunkLoading::NodeJs {
            "\n, module"@
        } else {
            Seq::<char>::empty()
        })
    } else {
        reg
    };
    let closed = with_params + "]);\n"@;
    let with_runtime = if self_executing(cv) {
        closed + seq!['\n'] + runtime_code_text(
            own,
            match platform_text(ev, cv.chunking_context.chunk_loading) {
                Some(p) => p,
                None => Seq::<char>::empty(),
            },
            match ev.shared_runtime {
                Some(s) => s,
                None => Seq::<char>::empty(),
            },
        )
    } else {
        closed
    };
    with_runtime + map_trailer(cv)
}

impl EcmascriptBuildNodeChunkContent {
    /// Content for `chunk` under the given runtime configuration.
    pub fn new(
        chunk: Chunk,
        chunking_context: EcmascriptChunkingContext,
        chunk_group: Option<ChunkGroup>,
        evaluated_entries: Option<Vec<ChunkPlaceable>>,
        exported_entry: Option<ChunkPlaceable>,
    ) -> (r: EcmascriptBuildNodeChunkContent)
        ensures
            r@.chunking_context == chunking_context@,
            r@.chunk == chunk@,
            r@.chunk_group == match chunk_group {
                Some(g) => Some(g@),
                None => None::<ChunkGroupView>,
            },
            r@.evaluated_entries == match evaluated_entries {
                Some(e) => Some(e.deep_view()),
                None => None::<Seq<Seq<char>>>,
            },
            r@.exported_entry == match exported_entry {
                Some(p) => Some(p@),
                None => None::<Seq<char>>,
            },
    {
        EcmascriptBuildNodeChunkContent {
            chunking_context,
            chunk,
            chunk_group,
            evaluated_entries,
            exported_entry,
        }
    }

    /// The module entries of the chunk, in content order.
    pub fn entries(&self) -> (r: &Vec<ChunkEntry>)
        ensures
            r.deep_view() == self@.chunk.entries,
    {
        &self.chunk.entries
    }

    /// The runtime params of this chunk: nothing for a pure module
    /// container; otherwise the other chunks of the governing group, the
    /// evaluated entries' module ids in order, and the exported entry's
    /// module id. Fatal when the chunk's own path cannot be expressed
    /// relative to the output root.
    pub fn params(&self) -> (r: Result<Option<EcmascriptBuildChunkRuntimeParams>, BuildError>)
        ensures
            !self_executing(self@) ==> r matches Ok(None),
            self_executing(self@) ==> match rel_path_of(
                self@.chunking_context.output_root,
                self@.chunk.path,
            ) {
                Some(own) => r matches Ok(Some(p)) && p@ == params_view_of(self@, own),
                None => r matches Err(BuildError::PathResolution { path, output_root }) && path@
                    == self@.chunk.path && output_root@ == self@.chunking_context.output_root,
            },
    {
        if self.evaluated_entries.is_none() && self.exported_entry.is_none() {
            return Ok(None);
        }
        let own = match get_path_to(self.chunking_context.output_root.as_str(),
            self.chunk.path.as_str()) {
            Some(own) => own,
            None => {
                return Err(BuildError::PathResolution {
                    path: self.chunk.path.clone(),
                    output_root: self.chunking_context.output_root.clone(),
                });
            },
        };
        let group: ChunkGroup = match &self.chunk_group {
            Some(g) => g.duplicate(),
            None => ChunkGroup::from_chunk(&self.chunk),
        };
        let group_chunks: Vec<String> = group.chunks;
        let ghost gcs = group_chunk_paths(self@);
        proof {
            assert(views_of_strs(group_chunks@) =~= gcs);
        }
        let ghost root = self@.chunking_context.output_root;
        let mut other_chunks: Vec<String> = Vec::new();
        let mut i: usize = 0;
        while i < group_chunks.len()
            invariant
                views_of_strs(group_chunks@) == gcs,
                group_chunks@.len() == gcs.len(),
                i <= gcs.len(),
                root == self@.chunking_context.output_root,
                rel_path_of(root, self@.chunk.path) == Some(own@),
                views_of_strs(other_chunks@) == other_chunks_spec(own@, gcs.take(i as int), root),
            decreases group_chunks.len() - i,
        {
            proof {
                assert(gcs.take(i + 1 as int).drop_last() =~= gcs.take(i as int));
                assert(gcs.take(i + 1 as int).last() == gcs[i as int]);
                assert(group_chunks@[i as int]@ == gcs[i as int]);
            }
            match get_path_to(self.chunking_context.output_root.as_str(), group_chunks[i].as_str()) {
                Some(p) => {
                    if !(p == own) && !str_vec_contains(&other_chunks, p.as_str()) {
                        let ghost before = views_of_strs(other_chunks@);
                        other_chunks.push(p);
                        assert(views_of_strs(other_chunks@) =~= before.push(p@));
                    }
                },
                None => {},
            }
            i = i + 1;
        }
        proof {
            assert(gcs.take(gcs.len() as int) =~= gcs);
        }
        let mut runtime_module_ids: Vec<ModuleId> = Vec::new();
        match &self.evaluated_entries {
            Some(entries) => {
                let ghost evs = entries.deep_view();
                let mut j: usize = 0;
                while j < entries.len()
                    invariant
                        entries.deep_view() == evs,
                        entries@.len() == evs.len(),
                        j <= evs.len(),
                        runtime_module_ids@.len() == j,
                        forall|k: int|
                            0 <= k < j ==> runtime_module_ids@[k]@ == ModuleIdView::Str(
                                chunk_item_id_of(self@.chunking_context.layer, evs[k]),
                            ),
                    decreases entries.len() - j,
                {
                    proof {
                        assert(entries@[j as int].deep_view() == evs[j as int]);
                    }
                    runtime_module_ids.push(
                        self.chunking_context.chunk_item_id(entries[j].ident.as_str()),
                    );
                    j = j + 1;
                }
                proof {
                    let expect = runtime_ids_spec(self@.chunking_context.layer,
                        self@.evaluated_entries);
                    assert(expect =~= evs.map_values(
                        |ident: Seq<char>|
                            ModuleIdView::Str(chunk_item_id_of(self@.chunking_context.layer, ident)),
                    ));
                    assert forall|k: int|
                        0 <= k < evs.len() implies runtime_module_ids.deep_view()[k]
                        == expect[k] by {
                        assert(runtime_module_ids@[k]@ == ModuleIdView::Str(
                            chunk_item_id_of(self@.chunking_context.layer, evs[k]),
                        ));
                    }
                    assert(runtime_module_ids.deep_view() =~= expect);
                }
            },
            None => {
                assert(runtime_module_ids.deep_view() =~= runtime_ids_spec(
                    self@.chunking_context.layer,
                    self@.evaluated_entries,
                ));
            },
        }
        let exported_cjs_module_id: Option<ModuleId> = match &self.exported_entry {
            Some(p) => Some(self.chunking_context.chunk_item_id(p.ident.as_str())),
            None => None,
        };
        let params = EcmascriptBuildChunkRuntimeParams {
            other_chunks,
            runtime_module_ids,
            exported_cjs_module_id,
        };
        assert(params@ == params_view_of(self@, own@));
        Ok(Some(params))
    }

    /// The runtime bootstrap of this chunk, as [`runtime_code_text`]
    /// states: fatal when the chunk's own path cannot be expressed
    /// relative to the output root, or when an embedded bootstrap text is
    /// absent.
    pub fn runtime(&self, embedded: &EmbeddedRuntimeCode) -> (r: Result<String, BuildError>)
        ensures
            match r {
                Ok(code) => {
                    &&& rel_path_of(self@.chunking_context.output_root, self@.chunk.path)
                        matches Some(own)
                    &&& platform_text(embedded@, self@.chunking_context.chunk_loading)
                        matches Some(platform)
                    &&& embedded@.shared_runtime matches Some(shared)
                    &&& code@ == runtime_code_text(own, platform, shared)
                },
                Err(e) => match e {
                    BuildError::PathResolution { path, output_root } => rel_path_of(
                        self@.chunking_context.output_root,
                        self@.chunk.path,
                    ) is None && path@ == self@.chunk.path && output_root@
                        == self@.chunking_context.output_root,
                    BuildError::MissingEmbeddedResource => rel_path_of(
                        self@.chunking_context.output_root,
                        self@.chunk.path,
                    ) is Some && (platform_text(embedded@, self@.chunking_context.chunk_loading)
                        is None || embedded@.shared_runtime is None),
                    BuildError::UnsupportedOperation => false,
                },
            },
    {
        let own = match get_path_to(self.chunking_context.output_root.as_str(),
            self.chunk.path.as_str()) {
            Some(own) => own,
            None => {
                return Err(BuildError::PathResolution {
                    path: self.chunk.path.clone(),
                    output_root: self.chunking_context.output_root.clone(),
                });
            },
        };
        let platform: &String = match self.chunking_context.chunk_loading {
            ChunkLoading::NoLoading => match &embedded.none_runtime {
                Some(s) => s,
                None => {
                    return Err(BuildError::MissingEmbeddedResource);
                },
            },
            ChunkLoading::NodeJs => match &embedded.nodejs_runtime {
                Some(s) => s,
                None => {
                    return Err(BuildError::MissingEmbeddedResource);
                },
            },
            ChunkLoading::Dom => match &embedded.dom_runtime {
                Some(s) => s,
                None => {
                    return Err(BuildError::MissingEmbeddedResource);
                },
            },
        };
        let shared: &String = match &embedded.shared_runtime {
            Some(s) => s,
            None => {
                return Err(BuildError::MissingEmbeddedResource);
            },
        };
        let mut out = String::new();
        push_str(&mut out,
            "(() => {\nif (!Array.isArray(globalThis.TURBOPACK)) {\n    return;\n}\n\nconst RUNTIME_CHUNK_PATH = ");
        push_json_string(&mut out, own.as_str());
        push_str(&mut out, ";\n");
        push_str(&mut out, platform.as_str());
        push_str(&mut out, shared.as_str());
        push_str(&mut out, "})();\n");
        proof {
            assert(out@ =~= runtime_code_text(own@, platform@, shared@));
        }
        Ok(out)
    }

    /// The whole assembled payload, as [`assembled_code`] states: the
    /// registration call carrying the module factories in content order;
    /// for a self-executing chunk also the params record, under Node.js
    /// loading the literal host-module argument, and the bootstrap; and
    /// the source-map trailer when any module carried a map.
    pub fn code(&self, embedded: &EmbeddedRuntimeCode) -> (r: Result<String, BuildError>)
        ensures
            match r {
                Ok(text) => {
                    &&& rel_path_of(self@.chunking_context.output_root, self@.chunk.path)
                        matches Some(own)
                    &&& (self_executing(self@) ==> platform_text(
                        embedded@,
                        self@.chunking_context.chunk_loading,
                    ) is Some && embedded@.shared_runtime is Some)
                    &&& text@ == assembled_code(self@, embedded@, own)
                },
                Err(e) => match e {
                    BuildError::PathResolution { path, output_root } => rel_path_of(
                        self@.chunking_context.output_root,
                        self@.chunk.path,
                    ) is None && path@ == self@.chunk.path && output_root@
                        == self@.chunking_context.output_root,
                    BuildError::MissingEmbeddedResource => rel_path_of(
                        self@.chunking_context.output_root,
                        self@.chunk.path,
                    ) is Some && self_executing(self@) && (platform_text(
                        embedded@,
                        self@.chunking_context.chunk_loading,
                    ) is None || embedded@.shared_runtime is None),
                    BuildError::UnsupportedOperation => false,
                },
            },
    {
        let own = match get_path_to(self.chunking_context.output_root.as_str(),
            self.chunk.path.as_str()) {
            Some(own) => own,
            None => {
                return Err(BuildError::PathResolution {
                    path: self.chunk.path.clone(),
                    output_root: self.chunking_context.output_root.clone(),
                });
            },
        };
        let params = match self.params() {
            Ok(p) => p,
            Err(e) => {
                // params can only fail to resolve the chunk's own path,
                // which resolved above.
                assert(false);
                return Err(e);
            },
        };
        let mut out = String::new();
        push_str(&mut out, "(globalThis.TURBOPACK = globalThis.TURBOPACK || []).push([");
        push_json_string(&mut out, own.as_str());
        push_str(&mut out, ", {\n");
        let ghost reg_prefix = "(globalThis.TURBOPACK = globalThis.TURBOPACK || []).push(["@
            + json_string(own@) + ", {\n"@;
        proof {
            assert(out@ =~= reg_prefix);
        }
        let ghost es = self@.chunk.entries;
        let mut i: usize = 0;
        while i < self.chunk.entries.len()
            invariant
                self.chunk.entries.deep_view() == es,
                self.chunk.entries@.len() == es.len(),
                i <= es.len(),
                out@ == reg_prefix + entries_section(es.take(i as int)),
            decreases self.chunk.entries.len() - i,
        {
            proof {
                assert(self.chunk.entries@[i as int].deep_view() == es[i as int]);
                assert(es.take(i + 1 as int).drop_last() =~= es.take(i as int));
                assert(es.take(i + 1 as int).last() == es[i as int]);
            }
            let ghost at_start = out@;
            push_char(&mut out, '\n');
            push_module_id_json(&mut out, &self.chunk.entries[i].id);
            push_str(&mut out, ": ");
            push_str(&mut out, self.chunk.entries[i].code.as_str());
            push_char(&mut out, ',');
            proof {
                assert(out@ =~= at_start + entry_text(es[i as int]));
                assert(at_start + entry_text(es[i as int]) =~= reg_prefix + entries_section(
                    es.take(i + 1 as int),
                ));
            }
            i = i + 1;
        }
        proof {
            assert(es.take(es.len() as int) =~= es);
        }
        push_str(&mut out, "\n}");
        proof {
            assert(out@ =~= registration_open(self@, own@));
        }
        let ghost reg = registration_open(self@, own@);
        match &params {
            Some(p) => {
                push_str(&mut out, "\n, ");
                let pjson = params_to_json(p);
                push_str(&mut out, pjson.as_str());
                proof {
                    assert(out@ =~= reg + "\n, "@ + params_json(p@));
                }
                match self.chunking_context.chunk_loading {
                    ChunkLoading::NodeJs => {
                        push_str(&mut out, "\n, module");
                        proof {
                            assert(out@ =~= reg + "\n, "@ + params_json(p@) + "\n, module"@);
                        }
                    },
                    _ => {},
                }
            },
            None => {},
        }
        let ghost with_params = out@;
        push_str(&mut out, "]);\n");
        let ghost closed = with_params + "]);\n"@;
        match &params {
            Some(_) => {
                push_char(&mut out, '\n');
                let bootstrap = match self.runtime(embedded) {
                    Ok(b) => b,
                    Err(e) => {
                        return Err(e);
                    },
                };
                push_str(&mut out, bootstrap.as_str());
                proof {
                    assert(out@ =~= closed + seq!['\n'] + bootstrap@);
                }
            },
            None => {},
        }
        let ghost with_runtime = out@;
        let mut any_map = false;
        let mut k: usize = 0;
        while k < self.chunk.entries.len()
            invariant
                self.chunk.entries.deep_view() == es,
                self.chunk.entries@.len() == es.len(),
                k <= es.len(),
                any_map == exists|j: int| 0 <= j < k && es[j].source_map is Some,
                out@ == with_runtime,
            decreases self.chunk.entries.len() - k,
        {
            if self.chunk.entries[k].source_map.is_some() {
                proof {
                    assert(self.chunk.entries@[k as int].deep_view() == es[k as int]);
                    assert(es[k as int].source_map is Some);
                }
                any_map = true;
            }
            k = k + 1;
        }
        assert(any_map == chunk_has_map(es));
        if any_map {
            push_str(&mut out, "\n\n//# sourceMappingURL=");
            let fname = file_name(self.chunk.path.as_str());
            push_str(&mut out, fname.as_str());
            push_str(&mut out, ".map");
            proof {
                assert(out@ =~= with_runtime + map_trailer(self@));
            }
        }
        proof {
            assert(out@ =~= assembled_code(self@, embedded@, own@));
        }
        Ok(out)
    }

    /// Wraps the assembled payload as a file's contents: a success is owed
    /// whenever the chunk's own path resolves under the output root and,
    /// for a self-executing chunk, the needed bootstrap texts are present.
    pub fn content(&self, embedded: &EmbeddedRuntimeCode) -> (r: Result<AssetContent, BuildError>)
        ensures
            match r {
                Ok(file) => {
                    &&& rel_path_of(self@.chunking_context.output_root, self@.chunk.path)
                        matches Some(own)
                    &&& (self_executing(self@) ==> platform_text(
                        embedded@,
                        self@.chunking_context.chunk_loading,
                    ) is Some && embedded@.shared_runtime is Some)
                    &&& file.contents@ == assembled_code(self@, embedded@, own)
                },
                Err(e) => match e {
                    BuildError::PathResolution { path, output_root } => rel_path_of(
                        self@.chunking_context.output_root,
                        self@.chunk.path,
                    ) is None && path@ == self@.chunk.path && output_root@
                        == self@.chunking_context.output_root,
                    BuildError::MissingEmbeddedResource => rel_path_of(
                        self@.chunking_context.output_root,
                        self@.chunk.path,
                    ) is Some && self_executing(self@) && (platform_text(
                        embedded@,
                        self@.chunking_context.chunk_loading,
                    ) is None || embedded@.shared_runtime is None),
                    BuildError::UnsupportedOperation => false,
                },
            },
    {
        match self.code(embedded) {
            Ok(text) => Ok(AssetContent { contents: text }),
            Err(e) => Err(e),
        }
    }

    /// This format supports only whole-file replacement: computing a
    /// version always fails.
    pub fn version(&self) -> (r: Result<(), BuildError>)
        ensures
            r matches Err(BuildError::UnsupportedOperation),
    {
        Err(BuildError::UnsupportedOperation)
    }

    /// This format supports only whole-file replacement: computing an
    /// incremental update always fails.
    pub fn update(&self) -> (r: Result<(), BuildError>)
        ensures
            r matches Err(BuildError::UnsupportedOperation),
    {
        Err(BuildError::UnsupportedOperation)
    }

    /// The source map of one module of this chunk, queried by a module-id
    /// string: the first entry whose id parses equal gives its own map,
    /// and an unknown id gives no map — never an error.
    pub fn by_section(&self, section: &str) -> (r: Option<String>)
        ensures
            match r {
                Some(m) => section_map(self@.chunk.entries, crate::ids::parse_module_id_spec(section@))
                    == Some(m@),
                None => section_map(self@.chunk.entries, crate::ids::parse_module_id_spec(section@))
                    is None,
            },
    {
        let id = crate::ids::parse_module_id(section);
        let ghost es = self@.chunk.entries;
        proof {
            assert(es.skip(0) =~= es);
        }
        let mut i: usize = 0;
        while i < self.chunk.entries.len()
            invariant
                self.chunk.entries.deep_view() == es,
                self.chunk.entries@.len() == es.len(),
                i <= es.len(),
                id@ == crate::ids::parse_module_id_spec(section@),
                section_map(es, id@) == section_map(es.skip(i as int), id@),
            decreases self.chunk.entries.len() - i,
        {
            proof {
                assert(self.chunk.entries@[i as int].deep_view() == es[i as int]);
                assert(es.skip(i as int)[0] == es[i as int]);
                assert(es.skip(i as int).drop_first() =~= es.skip(i + 1 as int));
            }
            if self.chunk.entries[i].id.same_id(&id) {
                return match &self.chunk.entries[i].source_map {
                    Some(m) => Some(m.clone()),
                    None => None,
                };
            }
            i = i + 1;
        }
        proof {
            assert(es.skip(es.len() as int) =~= Seq::<ChunkEntryView>::empty());
        }
        None
    }
}

/// The map of the first entry whose id equals `id`, when there is one.
pub open spec fn section_map(es: Seq<ChunkEntryView>, id: ModuleIdView) -> Option<Seq<char>>
    decreases es.len(),
{
    if es.len() == 0 {
        None
    } else if es[0].id == id {
        es[0].source_map
    } else {
        section_map(es.drop_first(), id)
    }
}

/// A file payload holding an assembled chunk.
#[derive(Debug)]
pub struct AssetContent {
    pub contents: String,
}

/// Renders a params record as compact JSON, as [`params_json`] states.
pub fn params_to_json(p: &EcmascriptBuildChunkRuntimeParams) -> (r: String)
    ensures
        r@ == params_json(p@),
{
    let mut out = String::new();
    push_str(&mut out, "{\"otherChunks\":");
    push_json_string_array(&mut out, &p.other_chunks);
    push_str(&mut out, ",\"runtimeModuleIds\":");
    push_module_id_array(&mut out, &p.runtime_module_ids);
    match &p.exported_cjs_module_id {
        Some(id) => {
            push_str(&mut out, ",\"exportedCjsModuleId\":");
            push_module_id_json(&mut out, id);
        },
        None => {},
    }
    push_char(&mut out, '}');
    proof {
        assert(out@ =~= params_json(p@));
    }
    out
}

/// For any chunk group, the `otherChunks` list never contains the chunk's
/// own path and never contains duplicates; every listed path resolves
/// under the output root.
pub proof fn lemma_other_chunks_exclude_self_and_unique(
    own: Seq<char>,
    chunks: Seq<Seq<char>>,
    root: Seq<char>,
)
    ensures
        forall|i: int|
            0 <= i < other_chunks_spec(own, chunks, root).len() ==> other_chunks_spec(
                own,
                chunks,
                root,
            )[i] != own,
        forall|i: int, j: int|
            0 <= i < j < other_chunks_spec(own, chunks, root).len() ==> other_chunks_spec(
                own,
                chunks,
                root,
            )[i] != other_chunks_spec(own, chunks, root)[j],
    decreases chunks.len(),
{
    if chunks.len() > 0 {
        lemma_other_chunks_exclude_self_and_unique(own, chunks.drop_last(), root);
        let prev = other_chunks_spec(own, chunks.drop_last(), root);
        let cur = other_chunks_spec(own, chunks, root);
        match rel_path_of(root, chunks.last()) {
            Some(p) => {
                if p != own && !prev.contains(p) {
                    assert forall|i: int, j: int| 0 <= i < j < cur.len() implies cur[i]
                        != cur[j] by {
                        if j == prev.len() {
                            assert(prev[i] != p);
                        }
                    }
                }
            },
            None => {},
        }
    }
}

/// A chunk with neither evaluated entries nor an exported entry assembles
/// to exactly one registration call with two arguments and no bootstrap
/// text: the registration itself, followed only by the source-map trailer
/// when one is due.
pub proof fn lemma_pure_container_has_no_bootstrap(
    cv: ContentView,
    ev: EmbeddedRuntimeCodeView,
    own: Seq<char>,
)
    requires
        cv.evaluated_entries is None,
        cv.exported_entry is None,
    ensures
        assembled_code(cv, ev, own) == registration_open(cv, own) + "]);\n"@ + map_trailer(cv),
{
}

} // verus!
