use cargo_run_wasm::args::Args;
use cargo_run_wasm::args::has_reserved_flag;
use cargo_run_wasm::args::parse_port;
use cargo_run_wasm::args::resolve_profile;
use cargo_run_wasm::errors::ConfigFault;
use cargo_run_wasm::errors::RunError;

#[test]
fn release_and_profile_conflict() {
    let r = resolve_profile(true, Some("fast".to_owned()));
    assert_eq!(r.unwrap_err(), RunError::Configuration(ConfigFault::ProfileConflict));
}

#[test]
fn release_alone_selects_release_profile() {
    assert_eq!(resolve_profile(true, None).unwrap(), Some("release".to_owned()));
    assert_eq!(resolve_profile(false, None).unwrap(), None);
    assert_eq!(
        resolve_profile(false, Some("fast".to_owned())).unwrap(),
        Some("fast".to_owned()),
    );
}

#[test]
fn from_values_reports_conflict() {
    let r = Args::from_values(
        false,
        true,
        Some("fast".to_owned()),
        false,
        None,
        None,
        vec![],
        Some("demo".to_owned()),
        None,
        None,
    );
    assert_eq!(r.unwrap_err(), RunError::Configuration(ConfigFault::ProfileConflict));
    assert!(!RunError::Configuration(ConfigFault::ProfileConflict).message().is_empty());
}

#[test]
fn from_values_resolves_release() {
    let a = Args::from_values(
        false,
        true,
        None,
        true,
        Some("localhost".to_owned()),
        Some("8000".to_owned()),
        vec!["--locked".to_owned()],
        Some("demo".to_owned()),
        None,
        None,
    )
    .unwrap();
    assert_eq!(a.profile, Some("release".to_owned()));
    assert!(a.build_only);
    assert_eq!(a.build_args, vec!["--locked".to_owned()]);
    assert_eq!(a.package, Some("demo".to_owned()));
}

#[test]
fn reserved_flags_are_detected() {
    assert!(!has_reserved_flag(&vec!["--locked".to_owned(), "-v".to_owned()]));
    assert!(has_reserved_flag(&vec!["--target".to_owned(), "x86_64".to_owned()]));
    assert!(has_reserved_flag(&vec!["--target-dir".to_owned()]));
    assert!(has_reserved_flag(&vec!["--target=wasm32-wasi".to_owned()]));
    assert!(has_reserved_flag(&vec!["--target-dir=/tmp/out".to_owned()]));
    assert!(!has_reserved_flag(&vec!["--targetless".to_owned()]));
    assert!(!has_reserved_flag(&vec![]));
}

#[test]
fn parse_port_accepts_decimal_ports() {
    assert_eq!(parse_port("8000"), Some(8000));
    assert_eq!(parse_port("0"), Some(0));
    assert_eq!(parse_port("65535"), Some(65535));
    assert_eq!(parse_port("080"), Some(80));
}

#[test]
fn parse_port_rejects_everything_else() {
    assert_eq!(parse_port(""), None);
    assert_eq!(parse_port("65536"), None);
    assert_eq!(parse_port("999999999999999999"), None);
    assert_eq!(parse_port("8a"), None);
    assert_eq!(parse_port("-1"), None);
    assert_eq!(parse_port(" 80"), None);
    assert!(!RunError::Configuration(ConfigFault::InvalidPort).message().is_empty());
}
