//! The metadata loader on raw snapshot text and on JSON trees.

use cargo_docs_rs::loader::{load_metadata, parse_doc_options};
use cargo_docs_rs::json::{JsonEntry, JsonValue};

fn snapshot_text() -> String {
    "{\"packages\": [{\"name\": \"alpha\", \"id\": \"id-alpha\", \"version\": \"1.0.0\", \"targets\": [{\"kind\": [\"lib\"], \"name\": \"alpha\"}], \"metadata\": {\"docs\": {\"rs\": {   \"features\": [\"x\", \"y\"],   \"all-features\": true,   \"default-target\": \"wasm32-unknown-unknown\",   \"rustdoc-args\": [\"--author-flag\"] }}}},{\"name\": \"beta\", \"id\": \"id-beta\", \"targets\": [{\"kind\": [\"proc-macro\"]}], \"metadata\": null}],\"workspace_members\": [\"id-alpha\", \"id-beta\"],\"resolve\": {\"root\": \"id-alpha\"}}"
    .to_string()
}

#[test]
fn loads_a_full_snapshot() {
    let m = load_metadata(&snapshot_text()).unwrap();
    assert_eq!(m.packages.len(), 2);
    assert_eq!(m.packages[0].name, "alpha");
    assert_eq!(m.packages[0].id.repr, "id-alpha");
    assert_eq!(m.packages[0].targets.len(), 1);
    assert_eq!(m.packages[0].targets[0].kind, vec!["lib".to_string()]);
    let opts = m.packages[0].metadata.as_ref().unwrap();
    assert_eq!(opts.features, vec!["x".to_string(), "y".to_string()]);
    assert!(opts.all_features);
    assert!(!opts.no_default_features);
    assert_eq!(opts.default_target.as_deref(), Some("wasm32-unknown-unknown"));
    assert!(opts.targets.is_none());
    assert!(opts.rustc_args.is_empty());
    assert_eq!(opts.rustdoc_args, vec!["--author-flag".to_string()]);
    assert_eq!(m.workspace_members.len(), 2);
    assert_eq!(m.workspace_members[1].repr, "id-beta");
    assert_eq!(m.resolve.root.as_ref().unwrap().repr, "id-alpha");
    // A package without a block gets the default options.
    let beta = m.packages[1].metadata.as_ref().unwrap();
    assert!(beta.features.is_empty());
    assert!(!beta.all_features);
    assert!(m.packages[1].is_proc_macro());
    assert!(!m.packages[0].is_proc_macro());
}

#[test]
fn malformed_block_is_deferred_not_fatal() {
    let text = "{\"packages\": [{\"name\": \"alpha\", \"id\": \"id-alpha\", \"targets\": [{\"kind\": [\"lib\"]}], \"metadata\": {\"docs\": {\"rs\": {\"features\": [\"ok\", 5]}}}},{\"name\": \"beta\", \"id\": \"id-beta\", \"targets\": [], \"metadata\": {}}],\"workspace_members\": [\"id-alpha\", \"id-beta\"],\"resolve\": {\"root\": null}}";
    let m = load_metadata(text).unwrap();
    let err = m.packages[0].metadata.as_ref().unwrap_err();
    assert_eq!(err.path, "features[1]");
    assert_eq!(err.message, "expected a string");
    assert!(m.packages[1].metadata.is_ok());
    assert!(m.resolve.root.is_none());
}

#[test]
fn block_of_wrong_type_is_deferred_too() {
    let text = "{\"packages\": [{\"name\": \"alpha\", \"id\": \"id-alpha\", \"targets\": [{\"kind\": [\"lib\"]}], \"metadata\": {\"docs\": {\"rs\": [1, 2]}}}],\"workspace_members\": [\"id-alpha\"],\"resolve\": {}}";
    let m = load_metadata(text).unwrap();
    let err = m.packages[0].metadata.as_ref().unwrap_err();
    assert_eq!(err.path, "");
    assert_eq!(err.message, "expected an object");
}

#[test]
fn bad_field_types_carry_their_path() {
    let entries = vec![JsonEntry {
        key: "all-features".to_string(),
        value: JsonValue::Num("1".to_string()),
    }];
    let err = parse_doc_options(&JsonValue::Obj(entries)).unwrap_err();
    assert_eq!(err.path, "all-features");
    assert_eq!(err.message, "expected a boolean");

    let entries = vec![JsonEntry {
        key: "targets".to_string(),
        value: JsonValue::Str("t".to_string()),
    }];
    let err = parse_doc_options(&JsonValue::Obj(entries)).unwrap_err();
    assert_eq!(err.path, "targets");
    assert_eq!(err.message, "expected an array");
}

#[test]
fn unknown_block_fields_are_ignored() {
    let entries = vec![
        JsonEntry { key: "no-default-features".to_string(), value: JsonValue::Bool(true) },
        JsonEntry { key: "unrecognized".to_string(), value: JsonValue::Num("7".to_string()) },
    ];
    let opts = parse_doc_options(&JsonValue::Obj(entries)).unwrap();
    assert!(opts.no_default_features);
    assert!(opts.features.is_empty());
}

#[test]
fn malformed_text_fails_to_load() {
    assert!(load_metadata("not json at all").is_err());
    let err = load_metadata("{}").unwrap_err();
    assert_eq!(err.path, "");
    assert_eq!(err.message, "missing field `packages`");
}

#[test]
fn missing_package_fields_are_fatal() {
    let text = "{\"packages\": [{\"id\": \"id-alpha\", \"targets\": []}],\"workspace_members\": [], \"resolve\": {}}";
    let err = load_metadata(text).unwrap_err();
    assert_eq!(err.path, "packages[0]");
    assert_eq!(err.message, "missing field `name`");
}

#[test]
fn unknown_member_id_is_a_fatal_inconsistency() {
    let text = "{\"packages\": [{\"name\": \"alpha\", \"id\": \"id-alpha\", \"targets\": []}],\"workspace_members\": [\"id-ghost\"],\"resolve\": {}}";
    let err = load_metadata(text).unwrap_err();
    assert_eq!(err.path, "workspace_members[0]");
    assert_eq!(err.message, "unknown package id");
}

#[test]
fn unknown_root_id_is_a_fatal_inconsistency() {
    let text = "{\"packages\": [{\"name\": \"alpha\", \"id\": \"id-alpha\", \"targets\": []}],\"workspace_members\": [\"id-alpha\"],\"resolve\": {\"root\": \"id-ghost\"}}";
    let err = load_metadata(text).unwrap_err();
    assert_eq!(err.path, "resolve.root");
    assert_eq!(err.message, "unknown package id");
}

#[test]
fn null_resolve_section_is_refused() {
    let text = "{\"packages\": [], \"workspace_members\": [], \"resolve\": null}";
    let err = load_metadata(text).unwrap_err();
    assert_eq!(err.path, "resolve");
    assert_eq!(err.message, "expected an object");
}

#[test]
fn target_kinds_must_be_strings() {
    let text = "{\"packages\": [{\"name\": \"alpha\", \"id\": \"id-alpha\", \"targets\": [{\"kind\": [\"lib\", 3]}]}],\"workspace_members\": [], \"resolve\": {}}";
    let err = load_metadata(text).unwrap_err();
    assert_eq!(err.path, "packages[0].targets[0].kind[1]");
    assert_eq!(err.message, "expected a string");
}

#[test]
fn duplicate_package_ids_are_a_fatal_inconsistency() {
    let text = "{\"packages\": [{\"name\": \"alpha\", \"id\": \"id-dup\", \"targets\": []},{\"name\": \"beta\", \"id\": \"id-dup\", \"targets\": []}],\"workspace_members\": [], \"resolve\": {}}";
    let err = load_metadata(text).unwrap_err();
    assert_eq!(err.path, "packages[1]");
    assert_eq!(err.message, "duplicate package id");
}
