//! Planning and sequencing one build-and-serve run.
//!
//! `RunWasm::plan` turns a request and the resolved directories into a
//! `BuildPlan`: the external compiler's argument list, the deterministic
//! artifact path, the destination bundle directory and the rendered page.
//! Every configuration mistake is rejected here, before anything external
//! runs.  `Session` then decides, step by step, how the run proceeds: the
//! surrounding binary performs each phase's outside work and reports what
//! happened, and the next phase follows from that report alone.

use vstd::prelude::*;

verus! {

use crate::RunWasm;
use crate::args::spec_has_reserved_flag;
use crate::args::spec_parse_port;
use crate::args::has_reserved_flag;
use crate::args::parse_port;
use crate::errors::ConfigFault;
use crate::errors::RunError;
use crate::page::render_page;
use crate::page::spec_render;
use crate::page::spec_render_error;
use crate::target_dir::CargoDirectories;
use crate::target_dir::join_path;
use crate::target_dir::spec_join;
use crate::text::str_eq;
use vstd::string::StringExecFns;

/// The name of the selected target: the example, else the bin, else the
/// package, in that order of preference.
pub open spec fn spec_binary_name(req: RunWasm) -> Option<Seq<char>> {
    match req.example {
        Some(name) => Some(name@),
        None => match req.bin {
            Some(name) => Some(name@),
            None => match req.package {
                Some(name) => Some(name@),
                None => None,
            },
        },
    }
}

/// The profile directory under the build-output tree: `debug` for the
/// default and for the `dev` profile, else the profile's own name.
pub open spec fn spec_profile_dir(profile: Option<String>) -> Seq<char> {
    match profile {
        Some(name) => if name@ == "dev"@ {
            "debug"@
        } else {
            name@
        },
        None => "debug"@,
    }
}

/// The isolated build-output directory for the cross-compiled build, kept
/// apart from the native build's output so that differing toolchain
/// configuration between the two does not invalidate native build caches.
pub open spec fn spec_wasm_target_dir(target_directory: Seq<char>) -> Seq<char> {
    spec_join(target_directory, "wasm-examples-target"@)
}

/// A `flag value` pair when the value is present, nothing otherwise.
pub open spec fn opt_flag(flag: Seq<char>, value: Option<String>) -> Seq<Seq<char>> {
    match value {
        Some(v) => seq![flag, v@],
        None => Seq::empty(),
    }
}

/// The external compiler's argument list: the build command, the fixed
/// cross-compilation triple, the isolated output directory, the selectors
/// and profile that were supplied, then the raw passthrough flags.
pub open spec fn spec_cargo_args(req: RunWasm, wasm_target_dir: Seq<char>) -> Seq<Seq<char>> {
    seq!["build"@, "--target"@, "wasm32-unknown-unknown"@, "--target-dir"@, wasm_target_dir]
        + opt_flag("--package"@, req.package) + opt_flag("--example"@, req.example) + opt_flag(
        "--bin"@,
        req.bin,
    ) + opt_flag("--profile"@, req.profile) + req.cargo_build_args.deep_view()
}

/// Where the compiled binary must appear: under the isolated output
/// directory, the cross-compilation triple and the profile directory, in an
/// `examples` sub-directory when an example was selected, under the
/// target's name with the fixed binary extension.
pub open spec fn spec_artifact_path(req: RunWasm, target_directory: Seq<char>) -> Seq<char> {
    let profile_path = spec_join(
        spec_join(spec_wasm_target_dir(target_directory), "wasm32-unknown-unknown"@),
        spec_profile_dir(req.profile),
    );
    let base = if req.example is Some {
        spec_join(profile_path, "examples"@)
    } else {
        profile_path
    };
    spec_join(base, spec_binary_name(req)->Some_0 + ".wasm"@)
}

/// The destination bundle directory for the generated loader code and page.
pub open spec fn spec_dest_dir(req: RunWasm, target_directory: Seq<char>) -> Seq<char> {
    spec_join(spec_join(target_directory, "wasm-examples"@), spec_binary_name(req)->Some_0)
}

/// The text of the page that the run writes, given the template text.
pub open spec fn spec_page_content(req: RunWasm, template: Seq<char>) -> Seq<char> {
    spec_render(template, spec_binary_name(req)->Some_0, req.css@)
}

/// Why planning rejects the request, if it does: no target selected, a
/// passthrough flag overriding a reserved argument, an unusable port, then
/// whatever the page renderer rejects.
pub open spec fn spec_plan_error(req: RunWasm, template: Seq<char>) -> Option<RunError> {
    if spec_binary_name(req) is None {
        Some(RunError::Configuration(ConfigFault::MissingTargetSelector))
    } else if spec_has_reserved_flag(req.cargo_build_args.deep_view()) {
        Some(RunError::Configuration(ConfigFault::ReservedFlag))
    } else if req.port matches Some(p) && spec_parse_port(p@) is None {
        Some(RunError::Configuration(ConfigFault::InvalidPort))
    } else {
        spec_render_error(template, req.css@)
    }
}

/// Everything one run needs, fixed before anything external is invoked.
#[derive(Debug)]
pub struct BuildPlan {
    /// The selected target's name.
    pub binary_name: String,
    /// Where the external compiler runs.
    pub workspace_root: String,
    /// The external compiler's argument list.
    pub cargo_args: Vec<String>,
    /// Where the compiled binary must appear after the build.
    pub artifact_path: String,
    /// The destination bundle directory.
    pub dest_dir: String,
    /// Where the rendered page is written.
    pub page_path: String,
    /// The rendered page.
    pub page_content: String,
    /// Only build, do not serve.
    pub build_only: bool,
    /// Host for the dev server to listen on.
    pub host: String,
    /// Port for the dev server to listen on.
    pub port: u16,
}

/// The profile directory name for the selected profile.
pub fn profile_dir_name(profile: &Option<String>) -> (r: String)
    ensures
        r@ == spec_profile_dir(*profile),
{
    match profile {
        Some(name) => {
            if str_eq(name.as_str(), "dev") {
                "debug".to_owned()
            } else {
                name.clone()
            }
        },
        None => "debug".to_owned(),
    }
}

/// Appends `flag value` when the value is present.
fn push_opt_flag(out: &mut Vec<String>, flag: &str, value: &Option<String>)
    ensures
        final(out).deep_view() == old(out).deep_view() + opt_flag(flag@, *value),
{
    match value {
        Some(v) => {
            out.push(flag.to_owned());
            out.push(v.clone());
            proof {
                assert(out.deep_view() =~= old(out).deep_view() + opt_flag(flag@, *value));
            }
        },
        None => {
            proof {
                assert(out.deep_view() =~= old(out).deep_view() + opt_flag(flag@, *value));
            }
        },
    }
}

/// Composes the external compiler's argument list for this request.
pub fn compose_cargo_args(req: &RunWasm, wasm_target_dir: &str) -> (r: Vec<String>)
    ensures
        r.deep_view() == spec_cargo_args(*req, wasm_target_dir@),
{
    let mut out: Vec<String> = Vec::new();
    out.push("build".to_owned());
    out.push("--target".to_owned());
    out.push("wasm32-unknown-unknown".to_owned());
    out.push("--target-dir".to_owned());
    out.push(wasm_target_dir.to_owned());
    proof {
        assert(out.deep_view() =~= seq![
            "build"@,
            "--target"@,
            "wasm32-unknown-unknown"@,
            "--target-dir"@,
            wasm_target_dir@,
        ]);
    }
    push_opt_flag(&mut out, "--package", &req.package);
    push_opt_flag(&mut out, "--example", &req.example);
    push_opt_flag(&mut out, "--bin", &req.bin);
    push_opt_flag(&mut out, "--profile", &req.profile);
    let ghost base = out.deep_view();
    let n = req.cargo_build_args.len();
    let mut i: usize = 0;
    while i < n
        invariant
            n == req.cargo_build_args@.len(),
            i <= n,
            out.deep_view() == base + req.cargo_build_args.deep_view().subrange(0, i as int),
        decreases n - i,
    {
        let ghost prev = out.deep_view();
        out.push(req.cargo_build_args[i].clone());
        proof {
            let ghost item = req.cargo_build_args.deep_view()[i as int];
            let ghost deep = req.cargo_build_args.deep_view();
            assert(out.deep_view() =~= prev.push(item));
            assert(deep.subrange(0, i + 1) =~= deep.subrange(0, i as int).push(item));
            assert(base + deep.subrange(0, i as int).push(item) =~= (base + deep.subrange(
                0,
                i as int,
            )).push(item));
        }
        i += 1;
    }
    proof {
        assert(req.cargo_build_args.deep_view().subrange(0, n as int)
            =~= req.cargo_build_args.deep_view());
    }
    out
}

impl RunWasm {
    /// Plans one run: rejects every configuration mistake up front, renders
    /// the page, and fixes the compiler arguments, the artifact path and the
    /// destination bundle, all as functions of the request and the resolved
    /// directories.  Nothing external has run yet when this returns.
    pub fn plan(&self, dirs: &CargoDirectories, template: &str) -> (r: Result<BuildPlan, RunError>)
        ensures
            match r {
                Ok(p) => {
                    &&& spec_plan_error(*self, template@) is None
                    &&& p.binary_name@ == spec_binary_name(*self)->Some_0
                    &&& p.workspace_root@ == dirs.workspace_root@
                    &&& p.cargo_args.deep_view() == spec_cargo_args(
                        *self,
                        spec_wasm_target_dir(dirs.target_directory@),
                    )
                    &&& p.artifact_path@ == spec_artifact_path(*self, dirs.target_directory@)
                    &&& p.dest_dir@ == spec_dest_dir(*self, dirs.target_directory@)
                    &&& p.page_path@ == spec_join(
                        spec_dest_dir(*self, dirs.target_directory@),
                        "index.html"@,
                    )
                    &&& p.page_content@ == spec_page_content(*self, template@)
                    &&& p.build_only == self.build_only
                    &&& p.host@ == match self.host {
                        Some(h) => h@,
                        None => "localhost"@,
                    }
                    &&& p.port == match self.port {
                        Some(text) => spec_parse_port(text@)->Some_0,
                        None => 8000u16,
                    }
                },
                Err(e) => spec_plan_error(*self, template@) == Some(e),
            },
    {
        let binary_name: String = if let Some(name) = &self.example {
            name.clone()
        } else if let Some(name) = &self.bin {
            name.clone()
        } else if let Some(name) = &self.package {
            name.clone()
        } else {
            return Err(RunError::Configuration(ConfigFault::MissingTargetSelector));
        };
        if has_reserved_flag(&self.cargo_build_args) {
            return Err(RunError::Configuration(ConfigFault::ReservedFlag));
        }
        let port: u16 = match &self.port {
            Some(text) => match parse_port(text.as_str()) {
                Some(v) => v,
                None => {
                    return Err(RunError::Configuration(ConfigFault::InvalidPort));
                },
            },
            None => 8000,
        };
        let page_content = match render_page(template, binary_name.as_str(), self.css.as_str()) {
            Ok(content) => content,
            Err(e) => {
                return Err(e);
            },
        };
        let host: String = match &self.host {
            Some(h) => h.clone(),
            None => "localhost".to_owned(),
        };
        let wasm_target_dir = join_path(dirs.target_directory.as_str(), "wasm-examples-target");
        let cargo_args = compose_cargo_args(self, wasm_target_dir.as_str());
        let triple_dir = join_path(wasm_target_dir.as_str(), "wasm32-unknown-unknown");
        let profile = profile_dir_name(&self.profile);
        let profile_path = join_path(triple_dir.as_str(), profile.as_str());
        let base = if self.example.is_some() {
            join_path(profile_path.as_str(), "examples")
        } else {
            profile_path
        };
        let mut artifact_file = binary_name.clone();
        artifact_file.append(".wasm");
        let artifact_path = join_path(base.as_str(), artifact_file.as_str());
        let examples_dir = join_path(dirs.target_directory.as_str(), "wasm-examples");
        let dest_dir = join_path(examples_dir.as_str(), binary_name.as_str());
        let page_path = join_path(dest_dir.as_str(), "index.html");
        Ok(
            BuildPlan {
                binary_name,
                workspace_root: dirs.workspace_root.clone(),
                cargo_args,
                artifact_path,
                dest_dir,
                page_path,
                page_content,
                build_only: self.build_only,
                host,
                port,
            },
        )
    }
}

/// Where a run stands.  The run advances strictly forward; a failure is
/// terminal.
#[derive(Clone, Copy, Debug, PartialEq, Eq, Structural)]
pub enum Phase {
    /// The external compiler is to be invoked with the planned arguments.
    Compile,
    /// The compiled artifact is to be looked for at the planned path.
    Locate,
    /// The destination bundle is to be created and the post-processor run.
    PostProcess,
    /// The rendered page is to be written into the destination bundle.
    WritePage,
    /// The destination bundle is to be served.
    Serve,
    /// The run finished.
    Done,
    /// The run failed; the error says why.
    Failed(RunError),
}

/// What the surrounding binary reports after performing a phase's work.
#[derive(Clone, Copy, Debug, PartialEq, Eq, Structural)]
pub enum Event {
    /// The external compiler exited; `success` is its exit status.
    CompileFinished { success: bool },
    /// The artifact path was checked; `present` says whether it exists.
    ArtifactChecked { present: bool },
    /// The post-processor ran; `success` says whether it succeeded.
    PostProcessFinished { success: bool },
    /// The rendered page was written.
    PageWritten,
    /// The server stopped.
    ServeEnded,
}

/// The next phase after `event` was reported in phase `phase`.  An event
/// that does not belong to the phase changes nothing; `Done` and `Failed`
/// are absorbing.
pub open spec fn spec_advance(phase: Phase, event: Event, build_only: bool) -> Phase {
    match (phase, event) {
        (Phase::Compile, Event::CompileFinished { success }) => if success {
            Phase::Locate
        } else {
            Phase::Failed(RunError::Toolchain)
        },
        (Phase::Locate, Event::ArtifactChecked { present }) => if present {
            Phase::PostProcess
        } else {
            Phase::Failed(RunError::ArtifactMissing)
        },
        (Phase::PostProcess, Event::PostProcessFinished { success }) => if success {
            Phase::WritePage
        } else {
            Phase::Failed(RunError::PostProcessing)
        },
        (Phase::WritePage, Event::PageWritten) => if build_only {
            Phase::Done
        } else {
            Phase::Serve
        },
        (Phase::Serve, Event::ServeEnded) => Phase::Done,
        _ => phase,
    }
}

/// The phase after a whole sequence of reports.
pub open spec fn spec_run_phases(phase: Phase, events: Seq<Event>, build_only: bool) -> Phase
    decreases events.len(),
{
    if events.len() == 0 {
        phase
    } else {
        spec_run_phases(
            spec_advance(phase, events[0], build_only),
            events.subrange(1, events.len() as int),
            build_only,
        )
    }
}

/// One run in progress: the fixed plan and the phase it stands in.
#[derive(Debug)]
pub struct Session {
    /// The plan fixed before anything external ran.
    pub plan: BuildPlan,
    /// Where the run stands.
    pub phase: Phase,
}

impl Session {
    /// A fresh run: everything planned, nothing external run yet.
    pub fn start(plan: BuildPlan) -> (s: Session)
        ensures
            s.phase == Phase::Compile,
            s.plan == plan,
    {
        Session { plan, phase: Phase::Compile }
    }

    /// Advances the run by one report from the surrounding binary.
    pub fn advance(&mut self, event: Event)
        ensures
            final(self).phase == spec_advance(old(self).phase, event, old(self).plan.build_only),
            final(self).plan == old(self).plan,
    {
        let next = match (self.phase, event) {
            (Phase::Compile, Event::CompileFinished { success }) => if success {
                Phase::Locate
            } else {
                Phase::Failed(RunError::Toolchain)
            },
            (Phase::Locate, Event::ArtifactChecked { present }) => if present {
                Phase::PostProcess
            } else {
                Phase::Failed(RunError::ArtifactMissing)
            },
            (Phase::PostProcess, Event::PostProcessFinished { success }) => if success {
                Phase::WritePage
            } else {
                Phase::Failed(RunError::PostProcessing)
            },
            (Phase::WritePage, Event::PageWritten) => if self.plan.build_only {
                Phase::Done
            } else {
                Phase::Serve
            },
            (Phase::Serve, Event::ServeEnded) => Phase::Done,
            (p, _) => p,
        };
        self.phase = next;
    }
}

/// A failed run stays failed: no later report revives it.
pub proof fn lemma_failed_is_terminal(e: RunError, events: Seq<Event>, build_only: bool)
    ensures
        spec_run_phases(Phase::Failed(e), events, build_only) == Phase::Failed(e),
    decreases events.len(),
{
    if events.len() > 0 {
        lemma_failed_is_terminal(e, events.subrange(1, events.len() as int), build_only);
    }
}

/// The post-processing phase is reached only from a successful artifact
/// check: no run post-processes without the artifact present.
pub proof fn lemma_postprocess_needs_artifact(phase: Phase, event: Event, build_only: bool)
    requires
        phase != Phase::PostProcess,
        spec_advance(phase, event, build_only) == Phase::PostProcess,
    ensures
        phase == Phase::Locate,
        event == (Event::ArtifactChecked { present: true }),
{
}

/// A run whose artifact check finds nothing fails with `ArtifactMissing`
/// at once, stays failed through every later report, and never stands in
/// the post-processing phase.
pub proof fn lemma_missing_artifact_stops_run(events: Seq<Event>, build_only: bool, k: int)
    requires
        events.len() >= 1,
        events[0] == (Event::ArtifactChecked { present: false }),
        0 <= k <= events.len(),
    ensures
        spec_run_phases(Phase::Locate, events, build_only) == Phase::Failed(
            RunError::ArtifactMissing,
        ),
        spec_run_phases(Phase::Locate, events.subrange(0, k), build_only) != Phase::PostProcess,
{
    let rest = events.subrange(1, events.len() as int);
    lemma_failed_is_terminal(RunError::ArtifactMissing, rest, build_only);
    if k == 0 {
        assert(events.subrange(0, 0) =~= Seq::<Event>::empty());
    } else {
        let prefix = events.subrange(0, k);
        assert(prefix[0] == events[0]);
        let prefix_rest = prefix.subrange(1, prefix.len() as int);
        lemma_failed_is_terminal(RunError::ArtifactMissing, prefix_rest, build_only);
    }
}

/// The generated page is a function of the template text, the selected
/// target's name and the stylesheet text alone: two runs with identical
/// inputs and an unchanged source tree write byte-identical pages.
pub proof fn lemma_page_output_idempotent(req1: RunWasm, req2: RunWasm, template: Seq<char>)
    requires
        spec_binary_name(req1) == spec_binary_name(req2),
        req1.css@ == req2.css@,
    ensures
        spec_page_content(req1, template) == spec_page_content(req2, template),
{
}

} // verus!
