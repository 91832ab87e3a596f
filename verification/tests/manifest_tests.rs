use turbopack_build::chunk::{AssetIdent, ChunkGroup};
use turbopack_build::context::EcmascriptChunkingContext;
use turbopack_build::errors::BuildError;
use turbopack_build::manifest::{AvailabilityInfo, BuildManifestChunkAsset, EcmascriptExports};
use turbopack_build::ChunkLoading;

fn ctx(root: &str) -> EcmascriptChunkingContext {
    EcmascriptChunkingContext {
        output_root: root.to_string(),
        layer: String::new(),
        chunk_loading: ChunkLoading::NodeJs,
    }
}

fn manifest(root: &str) -> BuildManifestChunkAsset {
    BuildManifestChunkAsset::new(
        AssetIdent::from_path("src/lazy.js".to_string()),
        ctx(root),
        AvailabilityInfo { available: vec!["already".to_string()] },
    )
}

#[test]
fn chunk_group_is_not_computed_at_construction() {
    let mut asset = manifest("out");
    assert!(!asset.has_chunk_group());
    asset.provide_chunk_group(ChunkGroup {
        chunks: vec!["out/a.js".to_string()],
        entry: "out/a.js".to_string(),
    });
    assert!(asset.has_chunk_group());
    assert_eq!(asset.chunk_group().chunks, vec!["out/a.js".to_string()]);
}

#[test]
fn manifest_identity_tags_the_wrapped_asset() {
    let asset = manifest("out");
    let ident = asset.ident();
    assert_eq!(ident.path, "src/lazy.js");
    assert_eq!(ident.modifiers, vec!["manifest chunk".to_string()]);
}

#[test]
fn references_name_every_chunk_of_the_group() {
    let mut asset = manifest("out");
    asset.provide_chunk_group(ChunkGroup {
        chunks: vec!["out/a.js".to_string(), "out/b.js".to_string()],
        entry: "out/a.js".to_string(),
    });
    assert_eq!(asset.references(), vec!["out/a.js".to_string(), "out/b.js".to_string()]);
}

#[test]
fn manifest_chunk_request_carries_identity_context_and_availability() {
    let asset = manifest("out");
    let request = asset.manifest_chunk();
    assert_eq!(request.asset_ident.path, "src/lazy.js");
    assert_eq!(request.asset_ident.modifiers, vec!["manifest chunk".to_string()]);
    assert_eq!(request.chunking_context.output_root, "out");
    assert_eq!(request.chunking_context.chunk_loading, ChunkLoading::NodeJs);
    assert_eq!(request.availability_info.available, vec!["already".to_string()]);
}

#[test]
fn manifest_stub_exports_a_value() {
    let asset = manifest("out");
    assert_eq!(asset.get_exports(), EcmascriptExports::Value);
}

#[test]
fn item_shares_the_manifest_identity() {
    let asset = manifest("out");
    let context = ctx("out");
    let item = asset.as_chunk_item(&context);
    let ident = item.asset_ident();
    assert_eq!(ident.path, "src/lazy.js");
    assert_eq!(ident.modifiers, vec!["manifest chunk".to_string()]);
    assert_eq!(item.chunking_context().output_root, "out");
}

#[test]
fn stub_content_is_fatal_for_a_chunk_outside_the_output_root() {
    let mut asset = manifest("out");
    asset.provide_chunk_group(ChunkGroup {
        chunks: vec!["out/a.js".to_string(), "elsewhere/b.js".to_string()],
        entry: "out/a.js".to_string(),
    });
    let context = ctx("out");
    let item = asset.as_chunk_item(&context);
    match item.content() {
        Err(BuildError::PathResolution { path, output_root }) => {
            assert_eq!(path, "elsewhere/b.js");
            assert_eq!(output_root, "out");
        },
        other => panic!("expected a path resolution error, got {:?}", other),
    }
}

#[test]
fn error_messages_name_the_offending_path() {
    let path_err = BuildError::PathResolution {
        path: "elsewhere/b.js".to_string(),
        output_root: "out".to_string(),
    };
    assert_eq!(path_err.message(), "chunk path elsewhere/b.js is not in output root out");
    assert_eq!(
        BuildError::MissingEmbeddedResource.message(),
        "embedded runtime code is not found"
    );
    assert_eq!(
        BuildError::UnsupportedOperation.message(),
        "this chunk format only supports whole-file replacement"
    );
    assert_eq!(
        turbopack_build::errors::IncompatibleMergeError::ConflictingExportedEntries.message(),
        "cannot merge chunk runtimes with different exported entries"
    );
}

#[test]
fn stub_content_repeats_identically_for_unchanged_membership() {
    let mut asset = manifest("out");
    asset.provide_chunk_group(ChunkGroup {
        chunks: vec!["out/a.js".to_string(), "out/b.js".to_string()],
        entry: "out/a.js".to_string(),
    });
    let context = ctx("out");
    let item = asset.as_chunk_item(&context);
    let first = item.content().unwrap();
    let second = item.content().unwrap();
    assert_eq!(first, second);
    assert_eq!(first, "__turbopack_export_value__([\"a.js\",\"b.js\"]);\n");
}
