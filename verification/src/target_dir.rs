//! Resolving the workspace root and the build-output directory.
//!
//! Two sources cooperate.  A cheap heuristic walks the ancestors of the
//! manifest directory, looking for one that holds both a conventionally
//! named build-output directory and a project manifest; the first such
//! ancestor wins.  When no ancestor qualifies, the authoritative metadata
//! query decides: its reported `workspace_root` and `target_directory`
//! fields are taken exactly as printed.  The surrounding binary performs the
//! directory checks and runs the query; this module makes every decision.
//!
//! A stray directory that merely happens to be named like a build-output
//! directory next to an unrelated manifest produces a false-positive match;
//! that is an accepted, documented limitation of the heuristic, not a defect
//! this module guards against.
//!
//! Paths are carried as plain strings; joining appends one `/` separator.

use vstd::prelude::*;

verus! {

use crate::errors::RunError;
use crate::metadata::json_str_field;
use crate::metadata::json_string_field;
use vstd::string::StringExecFns;

/// The two directories every run needs: the directory holding the top-level
/// project manifest, and the directory where build artifacts are written.
#[derive(Debug)]
pub struct CargoDirectories {
    /// Directory containing the top-level project manifest.
    pub workspace_root: String,
    /// Directory where build artifacts are written.
    pub target_directory: String,
}

/// What the surrounding binary observed about one ancestor of the manifest
/// directory: its path, and whether a build-output directory and a project
/// manifest sit directly in it.
#[derive(Debug)]
pub struct AncestorProbe {
    /// The ancestor directory itself.
    pub path: String,
    /// A directory named `target` sits in it.
    pub has_target: bool,
    /// A file named `Cargo.toml` sits in it.
    pub has_manifest: bool,
}

/// The ancestor satisfies the heuristic: build-output directory and
/// manifest side by side.
pub open spec fn probe_hit(p: AncestorProbe) -> bool {
    p.has_target && p.has_manifest
}

/// The index of the first ancestor, at or after `i`, that satisfies the
/// heuristic.
pub open spec fn spec_first_hit(probes: Seq<AncestorProbe>, i: int) -> Option<int>
    decreases probes.len() - i,
{
    if i < 0 || i >= probes.len() {
        None
    } else if probe_hit(probes[i]) {
        Some(i)
    } else {
        spec_first_hit(probes, i + 1)
    }
}

/// `dir` with `name` appended after one `/` separator.
pub open spec fn spec_join(dir: Seq<char>, name: Seq<char>) -> Seq<char> {
    dir + "/"@ + name
}

/// Appends `name` to `dir` after one `/` separator.
pub fn join_path(dir: &str, name: &str) -> (r: String)
    ensures
        r@ == spec_join(dir@, name@),
{
    let mut out = dir.to_owned();
    out.append("/");
    out.append(name);
    out
}

/// The workspace root and target directory that the resolution as a whole
/// yields, as a pair of path texts: the first qualifying ancestor when the
/// heuristic finds one, regardless of the metadata text; otherwise the
/// metadata query's reported fields, exactly; otherwise nothing.
pub open spec fn spec_resolution(probes: Seq<AncestorProbe>, metadata: Seq<char>) -> Option<
    (Seq<char>, Seq<char>),
> {
    match spec_first_hit(probes, 0) {
        Some(i) => Some((probes[i].path@, spec_join(probes[i].path@, "target"@))),
        None => match (
            json_str_field(metadata, "workspace_root"@),
            json_str_field(metadata, "target_directory"@),
        ) {
            (Some(root), Some(target)) => Some((root, target)),
            _ => None,
        },
    }
}

/// The heuristic alone: the first ancestor holding both a `target`
/// directory and a manifest becomes the workspace root, and that `target`
/// directory becomes the build-output directory.
pub fn resolve_local(probes: &Vec<AncestorProbe>) -> (r: Option<CargoDirectories>)
    ensures
        match r {
            Some(cd) => spec_first_hit(probes@, 0) matches Some(i) && cd.workspace_root@
                == probes@[i].path@ && cd.target_directory@ == spec_join(
                probes@[i].path@,
                "target"@,
            ),
            None => spec_first_hit(probes@, 0) is None,
        },
{
    let n = probes.len();
    let mut i: usize = 0;
    while i < n
        invariant
            n == probes@.len(),
            i <= n,
            spec_first_hit(probes@, 0) == spec_first_hit(probes@, i as int),
        decreases n - i,
    {
        if probes[i].has_target && probes[i].has_manifest {
            let target_directory = join_path(probes[i].path.as_str(), "target");
            return Some(
                CargoDirectories {
                    workspace_root: probes[i].path.clone(),
                    target_directory,
                },
            );
        }
        i += 1;
    }
    None
}

/// The fallback: reads the metadata query's output and takes its
/// `workspace_root` and `target_directory` fields exactly as printed.
/// Fails exactly when either field cannot be read from the text.
pub fn resolve_from_metadata(metadata: &str) -> (r: Result<CargoDirectories, RunError>)
    ensures
        match r {
            Ok(cd) => json_str_field(metadata@, "workspace_root"@) == Some(cd.workspace_root@)
                && json_str_field(metadata@, "target_directory"@) == Some(cd.target_directory@),
            Err(e) => e == RunError::Resolution && (json_str_field(metadata@, "workspace_root"@)
                is None || json_str_field(metadata@, "target_directory"@) is None),
        },
{
    let root = json_string_field(metadata, "workspace_root");
    let target = json_string_field(metadata, "target_directory");
    match (root, target) {
        (Some(workspace_root), Some(target_directory)) => Ok(
            CargoDirectories { workspace_root, target_directory },
        ),
        _ => Err(RunError::Resolution),
    }
}

/// The whole resolution, heuristic first: when some ancestor qualifies the
/// metadata text is never consulted; otherwise the metadata fields decide.
pub fn resolve_with_metadata(probes: &Vec<AncestorProbe>, metadata: &str) -> (r: Result<
    CargoDirectories,
    RunError,
>)
    ensures
        match r {
            Ok(cd) => spec_resolution(probes@, metadata@) == Some(
                (cd.workspace_root@, cd.target_directory@),
            ),
            Err(e) => e == RunError::Resolution && spec_resolution(probes@, metadata@) is None,
        },
{
    match resolve_local(probes) {
        Some(cd) => Ok(cd),
        None => resolve_from_metadata(metadata),
    }
}

/// When some ancestor holds both a build-output directory and a manifest,
/// the heuristic's answer stands whatever the metadata query would have
/// said: the resolution is the same for any two metadata texts, and it is
/// the first qualifying ancestor, with no earlier one qualifying.
pub proof fn lemma_heuristic_wins(probes: Seq<AncestorProbe>, m1: Seq<char>, m2: Seq<char>)
    requires
        exists|i: int| 0 <= i < probes.len() && probe_hit(probes[i]),
    ensures
        spec_first_hit(probes, 0) is Some,
        spec_resolution(probes, m1) == spec_resolution(probes, m2),
        spec_resolution(probes, m1) matches Some(pair) && {
            let i = spec_first_hit(probes, 0)->Some_0;
            &&& probe_hit(probes[i])
            &&& forall|k: int| 0 <= k < i ==> !probe_hit(probes[k])
            &&& pair.0 == probes[i].path@
            &&& pair.1 == spec_join(probes[i].path@, "target"@)
        },
{
    lemma_first_hit_least(probes, 0);
}

/// With no qualifying ancestor, the resolution is exactly what the metadata
/// query reported: its `workspace_root` and `target_directory` fields.
pub proof fn lemma_fallback_matches_metadata(probes: Seq<AncestorProbe>, metadata: Seq<char>)
    requires
        spec_first_hit(probes, 0) is None,
    ensures
        spec_resolution(probes, metadata) == match (
            json_str_field(metadata, "workspace_root"@),
            json_str_field(metadata, "target_directory"@),
        ) {
            (Some(root), Some(target)) => Some((root, target)),
            _ => None::<(Seq<char>, Seq<char>)>,
        },
{
}

/// The first hit is a hit, no earlier ancestor is one, and when there is no
/// first hit no ancestor qualifies at all.
pub proof fn lemma_first_hit_least(probes: Seq<AncestorProbe>, i: int)
    requires
        0 <= i <= probes.len(),
    ensures
        match spec_first_hit(probes, i) {
            Some(j) => i <= j < probes.len() && probe_hit(probes[j]) && forall|k: int|
                i <= k < j ==> !probe_hit(probes[k]),
            None => forall|k: int| i <= k < probes.len() ==> !probe_hit(probes[k]),
        },
    decreases probes.len() - i,
{
    if i < probes.len() && !probe_hit(probes[i]) {
        lemma_first_hit_least(probes, i + 1);
    }
}

} // verus!
