use cargo_run_wasm::RunWasm;
use cargo_run_wasm::errors::ConfigFault;
use cargo_run_wasm::errors::RunError;
use cargo_run_wasm::errors::TemplateFault;
use cargo_run_wasm::page::default_template;
use cargo_run_wasm::target_dir::CargoDirectories;

fn dirs() -> CargoDirectories {
    CargoDirectories {
        workspace_root: "/w".to_owned(),
        target_directory: "/w/target".to_owned(),
    }
}

#[test]
fn plan_for_a_package() {
    let req = RunWasm::new().with_package(Some("demo".to_owned()));
    let p = req.plan(&dirs(), default_template()).unwrap();
    assert_eq!(p.binary_name, "demo");
    assert_eq!(p.workspace_root, "/w");
    assert_eq!(
        p.cargo_args,
        vec![
            "build".to_owned(),
            "--target".to_owned(),
            "wasm32-unknown-unknown".to_owned(),
            "--target-dir".to_owned(),
            "/w/target/wasm-examples-target".to_owned(),
            "--package".to_owned(),
            "demo".to_owned(),
        ],
    );
    assert_eq!(
        p.artifact_path,
        "/w/target/wasm-examples-target/wasm32-unknown-unknown/debug/demo.wasm",
    );
    assert_eq!(p.dest_dir, "/w/target/wasm-examples/demo");
    assert_eq!(p.page_path, "/w/target/wasm-examples/demo/index.html");
    assert!(p.page_content.contains("demo"));
    assert!(!p.build_only);
    assert_eq!(p.host, "localhost");
    assert_eq!(p.port, 8000);
}

#[test]
fn example_takes_precedence_and_lands_in_examples_dir() {
    let req = RunWasm::new()
        .with_package(Some("pkg".to_owned()))
        .with_bin(Some("b".to_owned()))
        .with_example(Some("ex".to_owned()));
    let p = req.plan(&dirs(), default_template()).unwrap();
    assert_eq!(p.binary_name, "ex");
    assert_eq!(
        p.artifact_path,
        "/w/target/wasm-examples-target/wasm32-unknown-unknown/debug/examples/ex.wasm",
    );
    let args = p.cargo_args.join(" ");
    assert!(args.contains("--package pkg"));
    assert!(args.contains("--example ex"));
    assert!(args.contains("--bin b"));
}

#[test]
fn dev_profile_builds_into_debug_dir() {
    let req = RunWasm::new()
        .with_bin(Some("b".to_owned()))
        .with_profile(Some("dev".to_owned()));
    let p = req.plan(&dirs(), default_template()).unwrap();
    assert_eq!(
        p.artifact_path,
        "/w/target/wasm-examples-target/wasm32-unknown-unknown/debug/b.wasm",
    );
    let args = p.cargo_args.join(" ");
    assert!(args.contains("--profile dev"));
}

#[test]
fn release_profile_builds_into_release_dir() {
    let req = RunWasm::new()
        .with_bin(Some("b".to_owned()))
        .with_profile(Some("release".to_owned()));
    let p = req.plan(&dirs(), default_template()).unwrap();
    assert_eq!(
        p.artifact_path,
        "/w/target/wasm-examples-target/wasm32-unknown-unknown/release/b.wasm",
    );
}

#[test]
fn passthrough_flags_come_last() {
    let req = RunWasm::new()
        .with_package(Some("demo".to_owned()))
        .with_cargo_build_args(vec!["--color".to_owned(), "always".to_owned()]);
    let p = req.plan(&dirs(), default_template()).unwrap();
    let n = p.cargo_args.len();
    assert_eq!(p.cargo_args[n - 2], "--color");
    assert_eq!(p.cargo_args[n - 1], "always");
}

#[test]
fn missing_selector_is_a_configuration_error() {
    let r = RunWasm::new().plan(&dirs(), default_template());
    assert_eq!(
        r.unwrap_err(),
        RunError::Configuration(ConfigFault::MissingTargetSelector),
    );
    assert!(!RunError::Configuration(ConfigFault::MissingTargetSelector).message().is_empty());
}

#[test]
fn reserved_passthrough_flag_is_rejected_before_anything_runs() {
    let req = RunWasm::new()
        .with_package(Some("demo".to_owned()))
        .with_cargo_build_args(vec!["--target-dir=/elsewhere".to_owned()]);
    let r = req.plan(&dirs(), default_template());
    assert_eq!(r.unwrap_err(), RunError::Configuration(ConfigFault::ReservedFlag));
    assert!(!RunError::Configuration(ConfigFault::ReservedFlag).message().is_empty());
}

#[test]
fn unusable_port_is_a_configuration_error() {
    let req = RunWasm::new()
        .with_package(Some("demo".to_owned()))
        .with_port(Some("eighty".to_owned()));
    let r = req.plan(&dirs(), default_template());
    assert_eq!(r.unwrap_err(), RunError::Configuration(ConfigFault::InvalidPort));
}

#[test]
fn css_rejection_happens_at_planning() {
    let req = RunWasm::new()
        .with_package(Some("demo".to_owned()))
        .with_css("</style><script>x</script>");
    let r = req.plan(&dirs(), default_template());
    assert_eq!(r.unwrap_err(), RunError::Template(TemplateFault::DisallowedStylesheet));
}

#[test]
fn host_and_port_are_taken_from_the_request() {
    let req = RunWasm::new()
        .with_package(Some("demo".to_owned()))
        .with_host(Some("0.0.0.0".to_owned()))
        .with_port(Some("9001".to_owned()));
    let p = req.plan(&dirs(), default_template()).unwrap();
    assert_eq!(p.host, "0.0.0.0");
    assert_eq!(p.port, 9001);
}

#[test]
fn identical_requests_render_identical_pages() {
    let make = || {
        RunWasm::new()
            .with_package(Some("demo".to_owned()))
            .with_css("body { margin: 0px; }")
            .plan(&dirs(), default_template())
            .unwrap()
    };
    let p1 = make();
    let p2 = make();
    assert_eq!(p1.page_content, p2.page_content);
    assert_eq!(p1.page_path, p2.page_path);
    assert_eq!(p1.cargo_args, p2.cargo_args);
    assert_eq!(p1.artifact_path, p2.artifact_path);
}
