//! Build-and-serve helper for WebAssembly targets of a cargo workspace.
//!
//! The library plans one run of the tool: it resolves the workspace root and
//! build-output directory, composes the external compiler's argument list,
//! computes where the compiled artifact must appear, renders the host page,
//! and decides, step by step, how a run proceeds or fails.  The surrounding
//! binary performs the processes and file accesses that the plan calls for.

pub mod args;
pub mod errors;
pub mod metadata;
pub mod orchestrate;
pub mod page;
pub mod target_dir;
pub mod text;

use vstd::prelude::*;

verus! {

use crate::errors::RunError;

/// A request to build (and optionally serve) one WebAssembly target.
///
/// Built up with the `with_*` methods; exactly one of `package`, `example`
/// and `bin` is expected to name the target by the time the run is planned.
#[derive(Debug)]
pub struct RunWasm {
    /// Stylesheet text substituted into the served page.
    pub css: String,
    /// Build artifacts with the specified profile.
    pub profile: Option<String>,
    /// Name of the bin target to run.
    pub bin: Option<String>,
    /// Name of the example target to run.
    pub example: Option<String>,
    /// Package with the target to run.
    pub package: Option<String>,
    /// Raw passthrough flags for the external compiler.
    pub cargo_build_args: Vec<String>,
    /// Only build the artifacts, do not serve them.
    pub build_only: bool,
    /// Host for the dev server to listen on (default `localhost`).
    pub host: Option<String>,
    /// Port for the dev server to listen on (default `8000`).
    pub port: Option<String>,
}

impl RunWasm {
    /// An empty request: no stylesheet, no target selected, defaults everywhere.
    pub fn new() -> (r: Self)
        ensures
            r.css@ == Seq::<char>::empty(),
            r.profile is None,
            r.bin is None,
            r.example is None,
            r.package is None,
            r.cargo_build_args@ == Seq::<String>::empty(),
            !r.build_only,
            r.host is None,
            r.port is None,
    {
        RunWasm {
            css: String::new(),
            profile: None,
            bin: None,
            example: None,
            package: None,
            cargo_build_args: Vec::new(),
            build_only: false,
            host: None,
            port: None,
        }
    }

    /// css to include on the served webpage.  By default no css is included,
    /// which results in the default webpage styling.  Text containing a
    /// style-closing tag is rejected later, when the page is rendered.
    pub fn with_css(self, css: &str) -> (r: Self)
        ensures
            r.css@ == css@,
            r.profile == self.profile,
            r.bin == self.bin,
            r.example == self.example,
            r.package == self.package,
            r.cargo_build_args == self.cargo_build_args,
            r.build_only == self.build_only,
            r.host == self.host,
            r.port == self.port,
    {
        RunWasm { css: css.to_owned(), ..self }
    }

    /// Package with the target to run.
    pub fn with_package(self, package: Option<String>) -> (r: Self)
        ensures
            r.package == package,
            r.css == self.css,
            r.profile == self.profile,
            r.bin == self.bin,
            r.example == self.example,
            r.cargo_build_args == self.cargo_build_args,
            r.build_only == self.build_only,
            r.host == self.host,
            r.port == self.port,
    {
        RunWasm { package, ..self }
    }

    /// Name of the example target to run.
    pub fn with_example(self, example: Option<String>) -> (r: Self)
        ensures
            r.example == example,
            r.css == self.css,
            r.profile == self.profile,
            r.bin == self.bin,
            r.package == self.package,
            r.cargo_build_args == self.cargo_build_args,
            r.build_only == self.build_only,
            r.host == self.host,
            r.port == self.port,
    {
        RunWasm { example, ..self }
    }

    /// Name of the bin target to run.
    pub fn with_bin(self, bin: Option<String>) -> (r: Self)
        ensures
            r.bin == bin,
            r.css == self.css,
            r.profile == self.profile,
            r.example == self.example,
            r.package == self.package,
            r.cargo_build_args == self.cargo_build_args,
            r.build_only == self.build_only,
            r.host == self.host,
            r.port == self.port,
    {
        RunWasm { bin, ..self }
    }

    /// Build artifacts with the specified profile.
    pub fn with_profile(self, profile: Option<String>) -> (r: Self)
        ensures
            r.profile == profile,
            r.css == self.css,
            r.bin == self.bin,
            r.example == self.example,
            r.package == self.package,
            r.cargo_build_args == self.cargo_build_args,
            r.build_only == self.build_only,
            r.host == self.host,
            r.port == self.port,
    {
        RunWasm { profile, ..self }
    }

    /// Raw passthrough flags for anything not already handled by another
    /// `with_*` method.  Flags that would override the cross-compilation
    /// target or the build-output directory are rejected when the run is
    /// planned, since those arguments are load-bearing for correctness.
    pub fn with_cargo_build_args(self, cargo_build_args: Vec<String>) -> (r: Self)
        ensures
            r.cargo_build_args == cargo_build_args,
            r.css == self.css,
            r.profile == self.profile,
            r.bin == self.bin,
            r.example == self.example,
            r.package == self.package,
            r.build_only == self.build_only,
            r.host == self.host,
            r.port == self.port,
    {
        RunWasm { cargo_build_args, ..self }
    }

    /// Only build the WASM artifacts, do not run the dev server.
    pub fn with_build_only(self, build_only: bool) -> (r: Self)
        ensures
            r.build_only == build_only,
            r.css == self.css,
            r.profile == self.profile,
            r.bin == self.bin,
            r.example == self.example,
            r.package == self.package,
            r.cargo_build_args == self.cargo_build_args,
            r.host == self.host,
            r.port == self.port,
    {
        RunWasm { build_only, ..self }
    }

    /// Makes the dev server listen on host (default `localhost`).
    pub fn with_host(self, host: Option<String>) -> (r: Self)
        ensures
            r.host == host,
            r.css == self.css,
            r.profile == self.profile,
            r.bin == self.bin,
            r.example == self.example,
            r.package == self.package,
            r.cargo_build_args == self.cargo_build_args,
            r.build_only == self.build_only,
            r.port == self.port,
    {
        RunWasm { host, ..self }
    }

    /// Makes the dev server listen on port (default `8000`).
    pub fn with_port(self, port: Option<String>) -> (r: Self)
        ensures
            r.port == port,
            r.css == self.css,
            r.profile == self.profile,
            r.bin == self.bin,
            r.example == self.example,
            r.package == self.package,
            r.cargo_build_args == self.cargo_build_args,
            r.build_only == self.build_only,
            r.host == self.host,
    {
        RunWasm { port, ..self }
    }
}

} // verus!
