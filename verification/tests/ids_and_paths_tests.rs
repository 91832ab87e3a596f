use turbopack_build::context::EcmascriptChunkingContext;
use turbopack_build::ids::{parse_module_id, ModuleId};
use turbopack_build::paths::{file_name, get_path_to};
use turbopack_build::ChunkLoading;

#[test]
fn numeric_strings_parse_as_numeric_ids() {
    match parse_module_id("42") {
        ModuleId::Num(n) => assert_eq!(n, 42),
        other => panic!("expected a numeric id, got {:?}", other),
    }
    match parse_module_id("0") {
        ModuleId::Num(n) => assert_eq!(n, 0),
        other => panic!("expected a numeric id, got {:?}", other),
    }
    match parse_module_id("18446744073709551615") {
        ModuleId::Num(n) => assert_eq!(n, u64::MAX),
        other => panic!("expected a numeric id, got {:?}", other),
    }
}

#[test]
fn non_numeric_strings_parse_as_string_ids() {
    match parse_module_id("src/app.js") {
        ModuleId::Str(s) => assert_eq!(s, "src/app.js"),
        other => panic!("expected a string id, got {:?}", other),
    }
    match parse_module_id("") {
        ModuleId::Str(s) => assert_eq!(s, ""),
        other => panic!("expected a string id, got {:?}", other),
    }
    match parse_module_id("4x2") {
        ModuleId::Str(s) => assert_eq!(s, "4x2"),
        other => panic!("expected a string id, got {:?}", other),
    }
    // One past the numeric id range falls back to a string id.
    match parse_module_id("18446744073709551616") {
        ModuleId::Str(s) => assert_eq!(s, "18446744073709551616"),
        other => panic!("expected a string id, got {:?}", other),
    }
}

#[test]
fn ids_compare_by_value() {
    assert!(ModuleId::Num(7).same_id(&ModuleId::Num(7)));
    assert!(!ModuleId::Num(7).same_id(&ModuleId::Num(8)));
    assert!(ModuleId::Str("a".to_string()).same_id(&ModuleId::Str("a".to_string())));
    assert!(!ModuleId::Str("7".to_string()).same_id(&ModuleId::Num(7)));
}

#[test]
fn paths_resolve_only_strictly_inside_the_output_root() {
    assert_eq!(get_path_to("", "any/where.js"), Some("any/where.js".to_string()));
    assert_eq!(get_path_to("out", "out/a.js"), Some("a.js".to_string()));
    assert_eq!(get_path_to("out", "out/deep/b.js"), Some("deep/b.js".to_string()));
    assert_eq!(get_path_to("out", "out"), None);
    assert_eq!(get_path_to("out", "output/a.js"), None);
    assert_eq!(get_path_to("out", "other/a.js"), None);
    assert_eq!(get_path_to("out", "ou"), None);
}

#[test]
fn file_name_is_the_last_path_component() {
    assert_eq!(file_name("a/b/c.js"), "c.js");
    assert_eq!(file_name("c.js"), "c.js");
    assert_eq!(file_name("a/b/"), "");
    assert_eq!(file_name(""), "");
}

#[test]
fn layered_contexts_derive_distinct_module_ids() {
    let plain = EcmascriptChunkingContext {
        output_root: "out".to_string(),
        layer: String::new(),
        chunk_loading: ChunkLoading::NodeJs,
    };
    let layered = EcmascriptChunkingContext {
        output_root: "out".to_string(),
        layer: "client".to_string(),
        chunk_loading: ChunkLoading::NodeJs,
    };
    match plain.chunk_item_id("src/a.js") {
        ModuleId::Str(s) => assert_eq!(s, "src/a.js"),
        other => panic!("expected a string id, got {:?}", other),
    }
    match layered.chunk_item_id("src/a.js") {
        ModuleId::Str(s) => assert_eq!(s, "client/src/a.js"),
        other => panic!("expected a string id, got {:?}", other),
    }
}
