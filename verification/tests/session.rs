use cargo_run_wasm::RunWasm;
use cargo_run_wasm::errors::RunError;
use cargo_run_wasm::orchestrate::Event;
use cargo_run_wasm::orchestrate::Phase;
use cargo_run_wasm::orchestrate::Session;
use cargo_run_wasm::page::default_template;
use cargo_run_wasm::target_dir::CargoDirectories;

fn start_session(build_only: bool) -> Session {
    let dirs = CargoDirectories {
        workspace_root: "/w".to_owned(),
        target_directory: "/w/target".to_owned(),
    };
    let plan = RunWasm::new()
        .with_package(Some("demo".to_owned()))
        .with_build_only(build_only)
        .plan(&dirs, default_template())
        .unwrap();
    Session::start(plan)
}

#[test]
fn successful_run_walks_every_phase() {
    let mut s = start_session(false);
    assert_eq!(s.phase, Phase::Compile);
    s.advance(Event::CompileFinished { success: true });
    assert_eq!(s.phase, Phase::Locate);
    s.advance(Event::ArtifactChecked { present: true });
    assert_eq!(s.phase, Phase::PostProcess);
    s.advance(Event::PostProcessFinished { success: true });
    assert_eq!(s.phase, Phase::WritePage);
    s.advance(Event::PageWritten);
    assert_eq!(s.phase, Phase::Serve);
    s.advance(Event::ServeEnded);
    assert_eq!(s.phase, Phase::Done);
}

#[test]
fn build_only_run_skips_serving() {
    let mut s = start_session(true);
    s.advance(Event::CompileFinished { success: true });
    s.advance(Event::ArtifactChecked { present: true });
    s.advance(Event::PostProcessFinished { success: true });
    s.advance(Event::PageWritten);
    assert_eq!(s.phase, Phase::Done);
}

#[test]
fn missing_artifact_fails_and_never_postprocesses() {
    let mut s = start_session(false);
    s.advance(Event::CompileFinished { success: true });
    s.advance(Event::ArtifactChecked { present: false });
    assert_eq!(s.phase, Phase::Failed(RunError::ArtifactMissing));
    s.advance(Event::PostProcessFinished { success: true });
    assert_eq!(s.phase, Phase::Failed(RunError::ArtifactMissing));
    s.advance(Event::PageWritten);
    assert_eq!(s.phase, Phase::Failed(RunError::ArtifactMissing));
    assert!(!RunError::ArtifactMissing.message().is_empty());
}

#[test]
fn compiler_failure_is_terminal() {
    let mut s = start_session(false);
    s.advance(Event::CompileFinished { success: false });
    assert_eq!(s.phase, Phase::Failed(RunError::Toolchain));
    s.advance(Event::ArtifactChecked { present: true });
    assert_eq!(s.phase, Phase::Failed(RunError::Toolchain));
    assert!(!RunError::Toolchain.message().is_empty());
}

#[test]
fn postprocessor_failure_is_terminal() {
    let mut s = start_session(false);
    s.advance(Event::CompileFinished { success: true });
    s.advance(Event::ArtifactChecked { present: true });
    s.advance(Event::PostProcessFinished { success: false });
    assert_eq!(s.phase, Phase::Failed(RunError::PostProcessing));
    s.advance(Event::PageWritten);
    assert_eq!(s.phase, Phase::Failed(RunError::PostProcessing));
    assert!(!RunError::PostProcessing.message().is_empty());
}

#[test]
fn mismatched_event_changes_nothing() {
    let mut s = start_session(false);
    s.advance(Event::PageWritten);
    assert_eq!(s.phase, Phase::Compile);
    s.advance(Event::ServeEnded);
    assert_eq!(s.phase, Phase::Compile);
}
