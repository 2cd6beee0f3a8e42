use cargo_run_wasm::errors::RunError;
use cargo_run_wasm::target_dir::AncestorProbe;
use cargo_run_wasm::target_dir::join_path;
use cargo_run_wasm::target_dir::resolve_from_metadata;
use cargo_run_wasm::target_dir::resolve_local;
use cargo_run_wasm::target_dir::resolve_with_metadata;

fn probe(path: &str, has_target: bool, has_manifest: bool) -> AncestorProbe {
    AncestorProbe { path: path.to_owned(), has_target, has_manifest }
}

#[test]
fn join_path_inserts_separator() {
    assert_eq!(join_path("/w", "target"), "/w/target");
}

#[test]
fn heuristic_takes_first_qualifying_ancestor() {
    let probes = vec![
        probe("/w/member", false, true),
        probe("/w", true, true),
        probe("/", true, false),
    ];
    let cd = resolve_local(&probes).unwrap();
    assert_eq!(cd.workspace_root, "/w");
    assert_eq!(cd.target_directory, "/w/target");
}

#[test]
fn heuristic_needs_both_target_and_manifest() {
    let probes = vec![probe("/a", true, false), probe("/b", false, true)];
    assert!(resolve_local(&probes).is_none());
}

#[test]
fn heuristic_wins_regardless_of_metadata() {
    let probes = vec![probe("/w", true, true)];
    let cd = resolve_with_metadata(&probes, "this is not even json").unwrap();
    assert_eq!(cd.workspace_root, "/w");
    assert_eq!(cd.target_directory, "/w/target");
}

#[test]
fn fallback_matches_metadata_fields_exactly() {
    let metadata = "{\"workspace_root\":\"/elsewhere\",\"target_directory\":\"/var/cache/build-output\"}";
    let cd = resolve_from_metadata(metadata).unwrap();
    assert_eq!(cd.workspace_root, "/elsewhere");
    assert_eq!(cd.target_directory, "/var/cache/build-output");

    let probes = vec![probe("/w", false, true)];
    let cd = resolve_with_metadata(&probes, metadata).unwrap();
    assert_eq!(cd.workspace_root, "/elsewhere");
    assert_eq!(cd.target_directory, "/var/cache/build-output");
}

#[test]
fn malformed_metadata_is_a_resolution_error() {
    assert_eq!(resolve_from_metadata("not json").unwrap_err(), RunError::Resolution);
    assert_eq!(resolve_from_metadata("[1,2,3]").unwrap_err(), RunError::Resolution);
    assert_eq!(
        resolve_from_metadata("{\"workspace_root\":\"/w\"}").unwrap_err(),
        RunError::Resolution,
    );
    assert_eq!(
        resolve_from_metadata("{\"workspace_root\":7,\"target_directory\":\"/t\"}").unwrap_err(),
        RunError::Resolution,
    );
    assert!(!RunError::Resolution.message().is_empty());
}

#[test]
fn no_ancestors_means_no_heuristic_result() {
    assert!(resolve_local(&vec![]).is_none());
}
