use turbopack_build::chunk::{Chunk, ChunkEntry, ChunkPlaceable};
use turbopack_build::content::{EcmascriptBuildNodeChunkContent, EmbeddedRuntimeCode, params_to_json};
use turbopack_build::context::EcmascriptChunkingContext;
use turbopack_build::errors::BuildError;
use turbopack_build::ids::ModuleId;
use turbopack_build::ChunkLoading;

fn ctx(root: &str, loading: ChunkLoading) -> EcmascriptChunkingContext {
    EcmascriptChunkingContext {
        output_root: root.to_string(),
        layer: String::new(),
        chunk_loading: loading,
    }
}

fn embedded() -> EmbeddedRuntimeCode {
    EmbeddedRuntimeCode {
        none_runtime: Some("none_rt();\n".to_string()),
        nodejs_runtime: Some("nodejs_rt();\n".to_string()),
        dom_runtime: Some("dom_rt();\n".to_string()),
        shared_runtime: Some("shared_rt();\n".to_string()),
    }
}

#[test]
fn params_fails_when_own_path_is_outside_output_root() {
    let chunk = Chunk { path: "elsewhere/x.js".to_string(), entries: vec![] };
    let content = EcmascriptBuildNodeChunkContent::new(
        chunk,
        ctx("out", ChunkLoading::Dom),
        None,
        Some(vec![ChunkPlaceable { ident: "a".to_string() }]),
        None,
    );
    match content.params() {
        Err(BuildError::PathResolution { path, output_root }) => {
            assert_eq!(path, "elsewhere/x.js");
            assert_eq!(output_root, "out");
        },
        other => panic!("expected a path resolution error, got {:?}", other),
    }
    match content.code(&embedded()) {
        Err(BuildError::PathResolution { path, output_root }) => {
            assert_eq!(path, "elsewhere/x.js");
            assert_eq!(output_root, "out");
        },
        other => panic!("expected a path resolution error, got {:?}", other),
    }
}

#[test]
fn code_fails_when_container_chunk_path_is_outside_output_root() {
    let chunk = Chunk { path: "elsewhere/x.js".to_string(), entries: vec![] };
    let content =
        EcmascriptBuildNodeChunkContent::new(chunk, ctx("out", ChunkLoading::Dom), None, None, None);
    assert!(matches!(content.code(&embedded()), Err(BuildError::PathResolution { .. })));
}

#[test]
fn missing_platform_bootstrap_is_a_packaging_error() {
    let chunk = Chunk { path: "out/x.js".to_string(), entries: vec![] };
    let content = EcmascriptBuildNodeChunkContent::new(
        chunk,
        ctx("out", ChunkLoading::NodeJs),
        None,
        Some(vec![ChunkPlaceable { ident: "a".to_string() }]),
        None,
    );
    let partial = EmbeddedRuntimeCode {
        none_runtime: Some("none_rt();\n".to_string()),
        nodejs_runtime: None,
        dom_runtime: Some("dom_rt();\n".to_string()),
        shared_runtime: Some("shared_rt();\n".to_string()),
    };
    assert!(matches!(content.runtime(&partial), Err(BuildError::MissingEmbeddedResource)));
    assert!(matches!(content.code(&partial), Err(BuildError::MissingEmbeddedResource)));

    let no_shared = EmbeddedRuntimeCode {
        none_runtime: Some("none_rt();\n".to_string()),
        nodejs_runtime: Some("nodejs_rt();\n".to_string()),
        dom_runtime: Some("dom_rt();\n".to_string()),
        shared_runtime: None,
    };
    assert!(matches!(content.runtime(&no_shared), Err(BuildError::MissingEmbeddedResource)));
}

#[test]
fn runtime_bootstrap_text_is_exact() {
    let chunk = Chunk { path: "out/dir/x.js".to_string(), entries: vec![] };
    let content = EcmascriptBuildNodeChunkContent::new(
        chunk,
        ctx("out", ChunkLoading::NoLoading),
        None,
        None,
        None,
    );
    let bootstrap = content.runtime(&embedded()).unwrap();
    let expected = [
        "(() => {\nif (!Array.isArray(globalThis.TURBOPACK)) {\n    return;\n}\n\n",
        "const RUNTIME_CHUNK_PATH = \"dir/x.js\";\n",
        "none_rt();\n",
        "shared_rt();\n",
        "})();\n",
    ].concat();
    assert_eq!(bootstrap, expected);
}

#[test]
fn version_and_update_always_fail() {
    let chunk = Chunk { path: "out/x.js".to_string(), entries: vec![] };
    let content =
        EcmascriptBuildNodeChunkContent::new(chunk, ctx("out", ChunkLoading::Dom), None, None, None);
    assert!(matches!(content.version(), Err(BuildError::UnsupportedOperation)));
    assert!(matches!(content.update(), Err(BuildError::UnsupportedOperation)));
}

#[test]
fn source_map_trailer_uses_the_chunk_file_name() {
    let chunk = Chunk {
        path: "out/nested/chunk.js".to_string(),
        entries: vec![ChunkEntry {
            id: ModuleId::Str("m".to_string()),
            code: "b".to_string(),
            source_map: Some("{\"v\":3}".to_string()),
        }],
    };
    let content =
        EcmascriptBuildNodeChunkContent::new(chunk, ctx("out", ChunkLoading::Dom), None, None, None);
    let code = content.code(&embedded()).unwrap();
    let expected = [
        "(globalThis.TURBOPACK = globalThis.TURBOPACK || []).push([\"nested/chunk.js\", {\n",
        "\n\"m\": b,",
        "\n}",
        "]);\n",
        "\n\n//# sourceMappingURL=chunk.js.map",
    ].concat();
    assert_eq!(code, expected);
}

#[test]
fn by_section_returns_the_matching_entry_map_and_never_errs() {
    let chunk = Chunk {
        path: "out/x.js".to_string(),
        entries: vec![
            ChunkEntry {
                id: ModuleId::Num(7),
                code: "seven".to_string(),
                source_map: Some("map-seven".to_string()),
            },
            ChunkEntry {
                id: ModuleId::Str("x".to_string()),
                code: "ex".to_string(),
                source_map: None,
            },
        ],
    };
    let content =
        EcmascriptBuildNodeChunkContent::new(chunk, ctx("out", ChunkLoading::Dom), None, None, None);
    assert_eq!(content.by_section("7"), Some("map-seven".to_string()));
    assert_eq!(content.by_section("x"), None);
    assert_eq!(content.by_section("unknown"), None);
}

#[test]
fn params_json_escapes_paths_and_renders_numeric_ids() {
    let params = turbopack_build::content::EcmascriptBuildChunkRuntimeParams {
        other_chunks: vec!["a\"b\\c\nd\u{1}".to_string()],
        runtime_module_ids: vec![ModuleId::Num(0), ModuleId::Num(1234567890123)],
        exported_cjs_module_id: Some(ModuleId::Num(42)),
    };
    assert_eq!(
        params_to_json(&params),
        "{\"otherChunks\":[\"a\\\"b\\\\c\\nd\\u0001\"],\"runtimeModuleIds\":[0,1234567890123],\"exportedCjsModuleId\":42}"
    );
}

#[test]
fn other_chunks_skip_the_own_path_duplicates_and_foreign_paths() {
    let chunk = Chunk { path: "out/self.js".to_string(), entries: vec![] };
    let group = turbopack_build::chunk::ChunkGroup {
        chunks: vec![
            "out/self.js".to_string(),
            "out/X.js".to_string(),
            "out/X.js".to_string(),
            "elsewhere/Y.js".to_string(),
            "out/Z.js".to_string(),
        ],
        entry: "out/self.js".to_string(),
    };
    let content = EcmascriptBuildNodeChunkContent::new(
        chunk,
        ctx("out", ChunkLoading::Dom),
        Some(group),
        Some(vec![ChunkPlaceable { ident: "a".to_string() }]),
        None,
    );
    let params = content.params().unwrap().unwrap();
    assert_eq!(params.other_chunks, vec!["X.js".to_string(), "Z.js".to_string()]);
}

#[test]
fn content_wraps_the_assembled_code() {
    let chunk = Chunk { path: "out/x.js".to_string(), entries: vec![] };
    let content =
        EcmascriptBuildNodeChunkContent::new(chunk, ctx("out", ChunkLoading::Dom), None, None, None);
    let file = content.content(&embedded()).unwrap();
    assert_eq!(file.contents, content.code(&embedded()).unwrap());
}

#[test]
fn layered_context_prefixes_module_ids() {
    let chunk = Chunk { path: "out/x.js".to_string(), entries: vec![] };
    let layered = EcmascriptChunkingContext {
        output_root: "out".to_string(),
        layer: "server".to_string(),
        chunk_loading: ChunkLoading::NodeJs,
    };
    let content = EcmascriptBuildNodeChunkContent::new(
        chunk,
        layered,
        None,
        Some(vec![ChunkPlaceable { ident: "mod".to_string() }]),
        None,
    );
    let params = content.params().unwrap().unwrap();
    assert_eq!(
        params_to_json(&params),
        "{\"otherChunks\":[],\"runtimeModuleIds\":[\"server/mod\"]}"
    );
}
