use turbopack_build::chunk::{Chunk, ChunkEntry, ChunkGroup, ChunkPlaceable};
use turbopack_build::content::{EcmascriptBuildNodeChunkContent, EmbeddedRuntimeCode, params_to_json};
use turbopack_build::context::EcmascriptChunkingContext;
use turbopack_build::errors::IncompatibleMergeError;
use turbopack_build::manifest::BuildManifestChunkItem;
use turbopack_build::runtime::EcmascriptBuildNodeChunkRuntime;
use turbopack_build::ChunkLoading;

fn ctx(loading: ChunkLoading) -> EcmascriptChunkingContext {
    EcmascriptChunkingContext {
        output_root: "out".to_string(),
        layer: String::new(),
        chunk_loading: loading,
    }
}

fn embedded() -> EmbeddedRuntimeCode {
    EmbeddedRuntimeCode {
        none_runtime: Some("none_rt();\n".to_string()),
        nodejs_runtime: Some("nodejs_rt();\n".to_string()),
        dom_runtime: Some("dom_rt();\n".to_string()),
        shared_runtime: Some("shared_rt();\n".to_string()),
    }
}

fn placeable(ident: &str) -> ChunkPlaceable {
    ChunkPlaceable { ident: ident.to_string() }
}

fn entry(id: &str, code: &str) -> ChunkEntry {
    ChunkEntry {
        id: turbopack_build::ids::ModuleId::Str(id.to_string()),
        code: code.to_string(),
        source_map: None,
    }
}

#[test]
fn evaluated_chunk_emits_params_and_bootstrap() {
    let chunk = Chunk { path: "out/self.js".to_string(), entries: vec![entry("m", "m_body")] };
    let group = ChunkGroup {
        chunks: vec!["out/self.js".to_string(), "out/X.js".to_string(), "out/Y.js".to_string()],
        entry: "out/self.js".to_string(),
    };
    let content = EcmascriptBuildNodeChunkContent::new(
        chunk,
        ctx(ChunkLoading::Dom),
        Some(group),
        Some(vec![placeable("entry-a"), placeable("entry-b")]),
        None,
    );

    let params = content.params().unwrap().unwrap();
    assert_eq!(params.other_chunks, vec!["X.js".to_string(), "Y.js".to_string()]);
    assert_eq!(params.runtime_module_ids.len(), 2);
    assert!(params.exported_cjs_module_id.is_none());
    assert_eq!(
        params_to_json(&params),
        "{\"otherChunks\":[\"X.js\",\"Y.js\"],\"runtimeModuleIds\":[\"entry-a\",\"entry-b\"]}"
    );

    let code = content.code(&embedded()).unwrap();
    let expected = [
        "(globalThis.TURBOPACK = globalThis.TURBOPACK || []).push([\"self.js\", {\n",
        "\n\"m\": m_body,",
        "\n}",
        "\n, {\"otherChunks\":[\"X.js\",\"Y.js\"],\"runtimeModuleIds\":[\"entry-a\",\"entry-b\"]}",
        "]);\n",
        "\n",
        "(() => {\nif (!Array.isArray(globalThis.TURBOPACK)) {\n    return;\n}\n\n",
        "const RUNTIME_CHUNK_PATH = \"self.js\";\n",
        "dom_rt();\n",
        "shared_rt();\n",
        "})();\n",
    ].concat();
    assert_eq!(code, expected);
}

#[test]
fn exported_chunk_under_nodejs_passes_host_module() {
    let chunk = Chunk { path: "out/self.js".to_string(), entries: vec![entry("m", "m_body")] };
    let content = EcmascriptBuildNodeChunkContent::new(
        chunk,
        ctx(ChunkLoading::NodeJs),
        None,
        None,
        Some(placeable("entry-e")),
    );

    let params = content.params().unwrap().unwrap();
    assert_eq!(
        params_to_json(&params),
        "{\"otherChunks\":[],\"runtimeModuleIds\":[],\"exportedCjsModuleId\":\"entry-e\"}"
    );

    let code = content.code(&embedded()).unwrap();
    let expected = [
        "(globalThis.TURBOPACK = globalThis.TURBOPACK || []).push([\"self.js\", {\n",
        "\n\"m\": m_body,",
        "\n}",
        "\n, {\"otherChunks\":[],\"runtimeModuleIds\":[],\"exportedCjsModuleId\":\"entry-e\"}",
        "\n, module",
        "]);\n",
        "\n",
        "(() => {\nif (!Array.isArray(globalThis.TURBOPACK)) {\n    return;\n}\n\n",
        "const RUNTIME_CHUNK_PATH = \"self.js\";\n",
        "nodejs_rt();\n",
        "shared_rt();\n",
        "})();\n",
    ].concat();
    assert_eq!(code, expected);
}

#[test]
fn pure_container_chunk_has_two_argument_push_and_no_bootstrap() {
    let chunk = Chunk {
        path: "out/self.js".to_string(),
        entries: vec![entry("m1", "b1"), entry("m2", "b2")],
    };
    let content =
        EcmascriptBuildNodeChunkContent::new(chunk, ctx(ChunkLoading::Dom), None, None, None);

    assert!(content.params().unwrap().is_none());

    let code = content.code(&embedded()).unwrap();
    let expected = [
        "(globalThis.TURBOPACK = globalThis.TURBOPACK || []).push([\"self.js\", {\n",
        "\n\"m1\": b1,",
        "\n\"m2\": b2,",
        "\n}",
        "]);\n",
    ].concat();
    assert_eq!(code, expected);
    assert!(!code.contains("RUNTIME_CHUNK_PATH"));
}

#[test]
fn merge_unites_evaluated_entries_and_takes_exported_entry() {
    let r1 = EcmascriptBuildNodeChunkRuntime::new(
        ctx(ChunkLoading::NodeJs),
        Some(vec![placeable("A")]),
        None,
    );
    let r2 = EcmascriptBuildNodeChunkRuntime::new(
        ctx(ChunkLoading::NodeJs),
        Some(vec![placeable("B")]),
        Some(placeable("E")),
    );
    let merged = r1.merge(&vec![r2]).unwrap();
    let evaluated = merged.evaluated_entries.unwrap();
    assert_eq!(evaluated.len(), 2);
    assert_eq!(evaluated[0].ident, "A");
    assert_eq!(evaluated[1].ident, "B");
    assert_eq!(merged.exported_entry.unwrap().ident, "E");
}

#[test]
fn merge_with_conflicting_exported_entries_is_fatal() {
    let r1 = EcmascriptBuildNodeChunkRuntime::new(
        ctx(ChunkLoading::NodeJs),
        None,
        Some(placeable("E1")),
    );
    let r2 = EcmascriptBuildNodeChunkRuntime::new(
        ctx(ChunkLoading::NodeJs),
        None,
        Some(placeable("E2")),
    );
    let err = r1.merge(&vec![r2]).unwrap_err();
    assert!(matches!(err, IncompatibleMergeError::ConflictingExportedEntries));
}

#[test]
fn manifest_stub_deduplicates_revisited_chunks() {
    let context = ctx(ChunkLoading::NodeJs);
    let mut item: BuildManifestChunkItem = context.manifest_loader_item(
        turbopack_build::chunk::AssetIdent::from_path("src/lazy.js".to_string()),
        turbopack_build::manifest::AvailabilityInfo { available: vec![] },
    );
    assert!(!item.manifest.has_chunk_group());
    item.manifest.provide_chunk_group(ChunkGroup {
        chunks: vec!["out/P.js".to_string(), "out/Q.js".to_string(), "out/P.js".to_string()],
        entry: "out/P.js".to_string(),
    });
    let stub = item.content().unwrap();
    assert_eq!(stub, "__turbopack_export_value__([\"P.js\",\"Q.js\"]);\n");
}
