use turbopack_build::chunk::{AssetIdent, Chunk, ChunkGroup, ChunkPlaceable};
use turbopack_build::context::EcmascriptChunkingContext;
use turbopack_build::errors::IncompatibleMergeError;
use turbopack_build::runtime::EcmascriptBuildNodeChunkRuntime;
use turbopack_build::ChunkLoading;

fn ctx(root: &str) -> EcmascriptChunkingContext {
    EcmascriptChunkingContext {
        output_root: root.to_string(),
        layer: String::new(),
        chunk_loading: ChunkLoading::NodeJs,
    }
}

fn placeable(ident: &str) -> ChunkPlaceable {
    ChunkPlaceable { ident: ident.to_string() }
}

#[test]
fn factories_configure_the_runtime() {
    let context = ctx("out");
    let plain = context.ecmascript_runtime();
    assert!(plain.chunk_group.is_none());
    assert!(plain.evaluated_entries.is_none());
    assert!(plain.exported_entry.is_none());

    let evaluated = context.evaluated_ecmascript_runtime(vec![placeable("A"), placeable("B")]);
    let entries = evaluated.evaluated_entries.as_ref().unwrap();
    assert_eq!(entries.len(), 2);
    assert_eq!(entries[0].ident, "A");
    assert_eq!(entries[1].ident, "B");
    assert!(evaluated.exported_entry.is_none());
}

#[test]
fn runtime_describes_itself() {
    let runtime = ctx("out").ecmascript_runtime();
    assert_eq!(runtime.to_string(), "Ecmascript Build Runtime");
}

#[test]
fn with_chunk_group_overrides_the_gating_group() {
    let runtime = ctx("out").ecmascript_runtime();
    let group = ChunkGroup {
        chunks: vec!["out/a.js".to_string()],
        entry: "out/a.js".to_string(),
    };
    let gated = runtime.with_chunk_group(group);
    assert_eq!(gated.chunk_group.as_ref().unwrap().chunks, vec!["out/a.js".to_string()]);
}

#[test]
fn merge_requires_identical_chunking_contexts() {
    let r1 = EcmascriptBuildNodeChunkRuntime::new(ctx("out"), None, None);
    let r2 = EcmascriptBuildNodeChunkRuntime::new(ctx("elsewhere"), None, None);
    assert!(matches!(
        r1.merge(&vec![r2]),
        Err(IncompatibleMergeError::DifferentChunkingContexts)
    ));
}

#[test]
fn merge_requires_identical_chunk_groups() {
    let group = ChunkGroup { chunks: vec!["out/a.js".to_string()], entry: "out/a.js".to_string() };
    let other = ChunkGroup { chunks: vec!["out/b.js".to_string()], entry: "out/b.js".to_string() };
    let r1 = EcmascriptBuildNodeChunkRuntime::new(ctx("out"), None, None).with_chunk_group(group);
    let r2 = EcmascriptBuildNodeChunkRuntime::new(ctx("out"), None, None).with_chunk_group(other);
    assert!(matches!(r1.merge(&vec![r2]), Err(IncompatibleMergeError::DifferentChunkGroups)));
}

#[test]
fn merge_skips_duplicate_evaluated_entries() {
    let r1 = EcmascriptBuildNodeChunkRuntime::new(
        ctx("out"),
        Some(vec![placeable("A"), placeable("B")]),
        None,
    );
    let r2 = EcmascriptBuildNodeChunkRuntime::new(
        ctx("out"),
        Some(vec![placeable("B"), placeable("C")]),
        None,
    );
    let merged = r1.merge(&vec![r2]).unwrap();
    let entries = merged.evaluated_entries.unwrap();
    let idents: Vec<&str> = entries.iter().map(|p| p.ident.as_str()).collect();
    assert_eq!(idents, vec!["A", "B", "C"]);
}

#[test]
fn merge_is_commutative_over_the_entry_set() {
    let a = EcmascriptBuildNodeChunkRuntime::new(ctx("out"), Some(vec![placeable("A")]), None);
    let b = EcmascriptBuildNodeChunkRuntime::new(ctx("out"), Some(vec![placeable("B")]), None);
    let ab = a.merge(&vec![b]).unwrap();
    let a2 = EcmascriptBuildNodeChunkRuntime::new(ctx("out"), Some(vec![placeable("A")]), None);
    let b2 = EcmascriptBuildNodeChunkRuntime::new(ctx("out"), Some(vec![placeable("B")]), None);
    let ba = b2.merge(&vec![a2]).unwrap();
    let mut ab_idents: Vec<String> =
        ab.evaluated_entries.unwrap().iter().map(|p| p.ident.clone()).collect();
    let mut ba_idents: Vec<String> =
        ba.evaluated_entries.unwrap().iter().map(|p| p.ident.clone()).collect();
    ab_idents.sort();
    ba_idents.sort();
    assert_eq!(ab_idents, ba_idents);
}

#[test]
fn merge_is_associative_over_the_entry_set() {
    let mk = |idents: &[&str]| {
        EcmascriptBuildNodeChunkRuntime::new(
            ctx("out"),
            Some(idents.iter().map(|i| placeable(i)).collect()),
            None,
        )
    };
    let left = mk(&["A", "B"]).merge(&vec![mk(&["B", "C"])]).unwrap().merge(&vec![mk(&["D"])])
        .unwrap();
    let right = mk(&["A", "B"])
        .merge(&vec![mk(&["B", "C"]).merge(&vec![mk(&["D"])]).unwrap()])
        .unwrap();
    let mut l: Vec<String> =
        left.evaluated_entries.unwrap().iter().map(|p| p.ident.clone()).collect();
    let mut r: Vec<String> =
        right.evaluated_entries.unwrap().iter().map(|p| p.ident.clone()).collect();
    l.sort();
    r.sort();
    assert_eq!(l, r);
}

#[test]
fn merge_keeps_agreeing_exported_entries() {
    let r1 = EcmascriptBuildNodeChunkRuntime::new(ctx("out"), None, Some(placeable("E")));
    let r2 = EcmascriptBuildNodeChunkRuntime::new(ctx("out"), None, Some(placeable("E")));
    let merged = r1.merge(&vec![r2]).unwrap();
    assert_eq!(merged.exported_entry.unwrap().ident, "E");
}

#[test]
fn decorate_asset_ident_extends_the_identity() {
    let origin = Chunk { path: "out/self.js".to_string(), entries: vec![] };
    let group = ChunkGroup {
        chunks: vec!["out/self.js".to_string(), "out/entry.js".to_string()],
        entry: "out/entry.js".to_string(),
    };
    let runtime = EcmascriptBuildNodeChunkRuntime::new(
        ctx("out"),
        Some(vec![placeable("A")]),
        Some(placeable("E")),
    )
    .with_chunk_group(group);
    let base = AssetIdent::from_path("base".to_string());
    let decorated = runtime.decorate_asset_ident(&origin, base);
    assert_eq!(decorated.path, "base");
    assert_eq!(
        decorated.modifiers,
        vec![
            "ecmascript dev chunk".to_string(),
            "A".to_string(),
            "out/entry.js".to_string(),
            "E".to_string(),
        ]
    );
}

#[test]
fn decorate_asset_ident_skips_the_origin_entry_chunk() {
    let origin = Chunk { path: "out/self.js".to_string(), entries: vec![] };
    let group = ChunkGroup {
        chunks: vec!["out/self.js".to_string()],
        entry: "out/self.js".to_string(),
    };
    let runtime =
        EcmascriptBuildNodeChunkRuntime::new(ctx("out"), Some(vec![placeable("A")]), None)
            .with_chunk_group(group);
    let decorated = runtime.decorate_asset_ident(&origin, AssetIdent::from_path("base".to_string()));
    assert_eq!(decorated.modifiers, vec!["ecmascript dev chunk".to_string(), "A".to_string()]);
}

#[test]
fn plain_container_runtime_adds_only_the_flavor_tag() {
    let origin = Chunk { path: "out/self.js".to_string(), entries: vec![] };
    let runtime = ctx("out").ecmascript_runtime();
    let decorated = runtime.decorate_asset_ident(&origin, AssetIdent::from_path("base".to_string()));
    assert_eq!(decorated.modifiers, vec!["ecmascript dev chunk".to_string()]);
}

#[test]
fn runtime_contributes_no_reference_edges() {
    let origin = Chunk { path: "out/self.js".to_string(), entries: vec![] };
    let runtime = ctx("out").ecmascript_runtime();
    assert!(runtime.references(&origin).is_empty());
}

#[test]
fn content_carries_the_runtime_configuration() {
    let origin = Chunk { path: "out/self.js".to_string(), entries: vec![] };
    let runtime = ctx("out").evaluated_ecmascript_runtime(vec![placeable("A")]);
    let content = runtime.content(&origin);
    assert_eq!(content.chunk.path, "out/self.js");
    assert_eq!(content.evaluated_entries.unwrap()[0].ident, "A");
    assert!(content.exported_entry.is_none());
}
