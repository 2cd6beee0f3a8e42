//! Error kinds reported by the library.
//!
//! Every failure surfaces as one of these kinds; `message` turns a value into
//! the human-readable text that a caller prints.

use vstd::prelude::*;

verus! {

/// The configuration mistakes that are detected before anything external runs.
#[derive(Clone, Copy, Debug, PartialEq, Eq, Structural)]
pub enum ConfigFault {
    /// No package, example or bin target was selected.
    MissingTargetSelector,
    /// Both `--release` and `--profile` were supplied.
    ProfileConflict,
    /// A passthrough build argument would override the cross-compilation
    /// target or the build-output directory, which the tool reserves.
    ReservedFlag,
    /// The requested port is not an unsigned decimal number below 65536.
    InvalidPort,
}

/// The ways the host-page rendering can reject its inputs.
#[derive(Clone, Copy, Debug, PartialEq, Eq, Structural)]
pub enum TemplateFault {
    /// The stylesheet text holds a style-closing tag, which could inject
    /// elements into the generated page.
    DisallowedStylesheet,
    /// The page template lacks the marker for the target's name.
    MissingNameMarker,
    /// Stylesheet text was supplied but the page template lacks the
    /// stylesheet marker.
    MissingStylesheetMarker,
}

/// A failure of one run of the tool.
#[derive(Clone, Copy, Debug, PartialEq, Eq, Structural)]
pub enum RunError {
    /// Conflicting or unsupported caller-supplied options.
    Configuration(ConfigFault),
    /// Neither the directory heuristic nor the metadata query could
    /// determine the workspace directories.
    Resolution,
    /// The external compiler exited with a failure status; it has already
    /// printed its own diagnostics.
    Toolchain,
    /// The expected binary artifact is absent after an otherwise successful
    /// build, commonly because the selector named a package with no binary
    /// target.
    ArtifactMissing,
    /// The WebAssembly post-processor failed; its error is fatal.
    PostProcessing,
    /// The stylesheet text or the page template was rejected.
    Template(TemplateFault),
}

impl ConfigFault {
    /// The text that `message` returns for this fault.
    pub open spec fn spec_message(self) -> Seq<char> {
        match self {
            ConfigFault::MissingTargetSelector => "Need to use at least one of `--package NAME`, `--example NAME` `--bin NAME`.\nRun cargo run-wasm --help for more info."@,
            ConfigFault::ProfileConflict => "conflicting usage of --profile and --release.\nThe `--release` flag is the same as `--profile=release`.\nRemove one flag or the other to continue."@,
            ConfigFault::ReservedFlag => "cargo-run-wasm does not support the --target and --target-dir options"@,
            ConfigFault::InvalidPort => "Port should be an integer"@,
        }
    }

    /// The human-readable description of this fault.
    pub fn message(&self) -> (r: String)
        ensures
            r@ == self.spec_message(),
    {
        match self {
            ConfigFault::MissingTargetSelector => "Need to use at least one of `--package NAME`, `--example NAME` `--bin NAME`.\nRun cargo run-wasm --help for more info.".to_owned(),
            ConfigFault::ProfileConflict => "conflicting usage of --profile and --release.\nThe `--release` flag is the same as `--profile=release`.\nRemove one flag or the other to continue.".to_owned(),
            ConfigFault::ReservedFlag => "cargo-run-wasm does not support the --target and --target-dir options".to_owned(),
            ConfigFault::InvalidPort => "Port should be an integer".to_owned(),
        }
    }
}

impl TemplateFault {
    /// The text that `message` returns for this fault.
    pub open spec fn spec_message(self) -> Seq<char> {
        match self {
            TemplateFault::DisallowedStylesheet => "`</style>` detected in the css. This is disallowed to prevent injecting elements into the DOM."@,
            TemplateFault::MissingNameMarker => "the page template has no {{name}} marker to substitute the target name into"@,
            TemplateFault::MissingStylesheetMarker => "css was supplied but the page template has no {{css}} marker to substitute it into"@,
        }
    }

    /// The human-readable description of this fault.
    pub fn message(&self) -> (r: String)
        ensures
            r@ == self.spec_message(),
    {
        match self {
            TemplateFault::DisallowedStylesheet => "`</style>` detected in the css. This is disallowed to prevent injecting elements into the DOM.".to_owned(),
            TemplateFault::MissingNameMarker => "the page template has no {{name}} marker to substitute the target name into".to_owned(),
            TemplateFault::MissingStylesheetMarker => "css was supplied but the page template has no {{css}} marker to substitute it into".to_owned(),
        }
    }
}

impl RunError {
    /// The text that `message` returns for this error.
    pub open spec fn spec_message(self) -> Seq<char> {
        match self {
            RunError::Configuration(fault) => fault.spec_message(),
            RunError::Resolution => "could not determine the workspace root and target directory: the metadata query failed or its output was malformed"@,
            RunError::Toolchain => "Failed due to cargo error"@,
            RunError::ArtifactMissing => "There is no binary at the expected artifact path, maybe you used `--package NAME` on a package that has no binary?"@,
            RunError::PostProcessing => "wasm-bindgen failed to generate the browser loader code"@,
            RunError::Template(fault) => fault.spec_message(),
        }
    }

    /// The human-readable description of this error.
    pub fn message(&self) -> (r: String)
        ensures
            r@ == self.spec_message(),
    {
        match self {
            RunError::Configuration(fault) => fault.message(),
            RunError::Resolution => "could not determine the workspace root and target directory: the metadata query failed or its output was malformed".to_owned(),
            RunError::Toolchain => "Failed due to cargo error".to_owned(),
            RunError::ArtifactMissing => "There is no binary at the expected artifact path, maybe you used `--package NAME` on a package that has no binary?".to_owned(),
            RunError::PostProcessing => "wasm-bindgen failed to generate the browser loader code".to_owned(),
            RunError::Template(fault) => fault.message(),
        }
    }
}

} // verus!
