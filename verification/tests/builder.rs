use cargo_run_wasm::RunWasm;

#[test]
fn new_has_defaults() {
    let r = RunWasm::new();
    assert_eq!(r.css, "");
    assert_eq!(r.profile, None);
    assert_eq!(r.bin, None);
    assert_eq!(r.example, None);
    assert_eq!(r.package, None);
    assert!(r.cargo_build_args.is_empty());
    assert!(!r.build_only);
    assert_eq!(r.host, None);
    assert_eq!(r.port, None);
}

#[test]
fn with_css_stores_text() {
    let r = RunWasm::new().with_css("body { margin: 0px; }");
    assert_eq!(r.css, "body { margin: 0px; }");
    assert_eq!(r.package, None);
}

#[test]
fn with_package_sets_only_package() {
    let r = RunWasm::new().with_css("x").with_package(Some("demo".to_owned()));
    assert_eq!(r.package, Some("demo".to_owned()));
    assert_eq!(r.css, "x");
    assert_eq!(r.bin, None);
    assert_eq!(r.example, None);
}

#[test]
fn with_example_and_bin_set_their_fields() {
    let r = RunWasm::new().with_example(Some("ex".to_owned())).with_bin(Some("b".to_owned()));
    assert_eq!(r.example, Some("ex".to_owned()));
    assert_eq!(r.bin, Some("b".to_owned()));
}

#[test]
fn with_profile_and_build_args() {
    let r = RunWasm::new()
        .with_profile(Some("release".to_owned()))
        .with_cargo_build_args(vec!["--locked".to_owned(), "--offline".to_owned()]);
    assert_eq!(r.profile, Some("release".to_owned()));
    assert_eq!(r.cargo_build_args, vec!["--locked".to_owned(), "--offline".to_owned()]);
}

#[test]
fn with_build_only_host_port() {
    let r = RunWasm::new()
        .with_build_only(true)
        .with_host(Some("0.0.0.0".to_owned()))
        .with_port(Some("9001".to_owned()));
    assert!(r.build_only);
    assert_eq!(r.host, Some("0.0.0.0".to_owned()));
    assert_eq!(r.port, Some("9001".to_owned()));
}
