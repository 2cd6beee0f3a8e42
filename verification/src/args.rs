//! The decisions behind option handling: the release/profile conflict, the
//! flags that passthrough arguments may not override, and port parsing.
//! Reading the actual process arguments is left to the surrounding binary,
//! which hands plain values in.

use vstd::prelude::*;

verus! {

use crate::errors::ConfigFault;
use crate::errors::RunError;
use crate::text::is_prefix;
use crate::text::starts_with;
use crate::text::str_eq;
use vstd::string::StrSliceExecFns;

/// The options a caller supplies on the command line, already read from the
/// process arguments and reduced to plain values.
#[derive(Debug)]
pub struct Args {
    /// Print help and do nothing else.
    pub help: bool,
    /// The resolved profile: the `--profile` value, or `release` when the
    /// release flag stood alone.
    pub profile: Option<String>,
    /// Only build the artifacts, do not serve them.
    pub build_only: bool,
    /// Host for the dev server to listen on.
    pub host: Option<String>,
    /// Port for the dev server to listen on.
    pub port: Option<String>,
    /// Leftover arguments passed through to the external compiler.
    pub build_args: Vec<String>,
    /// Package with the target to run.
    pub package: Option<String>,
    /// Name of the example target to run.
    pub example: Option<String>,
    /// Name of the bin target to run.
    pub bin: Option<String>,
}

/// The profile that a release flag and an optional `--profile` value select
/// together, or the conflict between them.
pub fn resolve_profile(release: bool, profile: Option<String>) -> (r: Result<
    Option<String>,
    RunError,
>)
    ensures
        match r {
            Ok(p) => !(release && profile is Some) && match profile {
                Some(name) => p == Some(name),
                None => if release {
                    p matches Some(s) && s@ == "release"@
                } else {
                    p is None
                },
            },
            Err(e) => release && profile is Some && e == RunError::Configuration(
                ConfigFault::ProfileConflict,
            ),
        },
{
    match profile {
        Some(name) => {
            if release {
                Err(RunError::Configuration(ConfigFault::ProfileConflict))
            } else {
                Ok(Some(name))
            }
        },
        None => {
            if release {
                Ok(Some("release".to_owned()))
            } else {
                Ok(None)
            }
        },
    }
}

/// This argument would override the cross-compilation target or the
/// build-output directory, both of which the tool reserves.
pub open spec fn spec_reserved_flag(a: Seq<char>) -> bool {
    ||| a == "--target"@
    ||| a == "--target-dir"@
    ||| is_prefix("--target="@, a)
    ||| is_prefix("--target-dir="@, a)
}

/// Some passthrough argument would override a reserved flag.
pub open spec fn spec_has_reserved_flag(args: Seq<Seq<char>>) -> bool {
    exists|i: int| 0 <= i < args.len() && spec_reserved_flag(args[i])
}

/// True exactly when one of the passthrough arguments would override the
/// cross-compilation target or the build-output directory.
pub fn has_reserved_flag(args: &Vec<String>) -> (r: bool)
    ensures
        r == spec_has_reserved_flag(args.deep_view()),
{
    let n = args.len();
    let mut i: usize = 0;
    while i < n
        invariant
            n == args@.len(),
            i <= n,
            args.deep_view().len() == n,
            forall|k: int| 0 <= k < n ==> args.deep_view()[k] == args@[k]@,
            forall|k: int| 0 <= k < i ==> !spec_reserved_flag(args.deep_view()[k]),
        decreases n - i,
    {
        let a = args[i].as_str();
        if str_eq(a, "--target") || str_eq(a, "--target-dir") || starts_with(a, "--target=")
            || starts_with(a, "--target-dir=") {
            proof {
                assert(spec_reserved_flag(args.deep_view()[i as int]));
            }
            return true;
        }
        i += 1;
    }
    false
}

/// All characters are decimal digits and there is at least one.
pub open spec fn spec_all_digits(s: Seq<char>) -> bool {
    s.len() > 0 && forall|i: int| 0 <= i < s.len() ==> '0' <= #[trigger] s[i] <= '9'
}

/// The value of a sequence of decimal digits.
pub open spec fn spec_digits_value(s: Seq<char>) -> int
    decreases s.len(),
{
    if s.len() == 0 {
        0
    } else {
        spec_digits_value(s.drop_last()) * 10 + (s.last() as int - '0' as int)
    }
}

/// The port a string denotes: defined exactly for an unsigned decimal
/// number no larger than 65535.
pub open spec fn spec_parse_port(s: Seq<char>) -> Option<u16> {
    if spec_all_digits(s) && spec_digits_value(s) <= 0xffff {
        Some(spec_digits_value(s) as u16)
    } else {
        None
    }
}

proof fn lemma_digits_value_nonneg(s: Seq<char>)
    requires
        forall|i: int| 0 <= i < s.len() ==> '0' <= #[trigger] s[i] <= '9',
    ensures
        spec_digits_value(s) >= 0,
    decreases s.len(),
{
    if s.len() > 0 {
        lemma_digits_value_nonneg(s.drop_last());
    }
}

/// Parses a port number, or reports that the string is not an unsigned
/// decimal number below 65536.
pub fn parse_port(s: &str) -> (r: Option<u16>)
    ensures
        r == spec_parse_port(s@),
{
    let n = s.unicode_len();
    if n == 0 {
        return None;
    }
    let mut value: u32 = 0;
    let mut i: usize = 0;
    while i < n
        invariant
            n == s@.len(),
            i <= n,
            forall|k: int| 0 <= k < i ==> '0' <= #[trigger] s@[k] <= '9',
            value == if spec_digits_value(s@.subrange(0, i as int)) <= 0xffff {
                spec_digits_value(s@.subrange(0, i as int))
            } else {
                0x10000int
            },
        decreases n - i,
    {
        let c = s.get_char(i);
        if c < '0' || c > '9' {
            return None;
        }
        let d: u32 = c as u32 - '0' as u32;
        proof {
            assert(s@.subrange(0, i + 1).drop_last() =~= s@.subrange(0, i as int));
            assert(s@.subrange(0, i + 1).last() == s@[i as int]);
            lemma_digits_value_nonneg(s@.subrange(0, i as int));
        }
        if value > 0xffff || value * 10 + d > 0xffff {
            value = 0x10000;
        } else {
            value = value * 10 + d;
        }
        i += 1;
    }
    proof {
        assert(s@.subrange(0, n as int) =~= s@);
    }
    if value > 0xffff {
        None
    } else {
        Some(value as u16)
    }
}

impl Args {
    /// Combines the values read from the process arguments, resolving the
    /// release flag against an explicit profile.
    pub fn from_values(
        help: bool,
        release: bool,
        profile: Option<String>,
        build_only: bool,
        host: Option<String>,
        port: Option<String>,
        build_args: Vec<String>,
        package: Option<String>,
        example: Option<String>,
        bin: Option<String>,
    ) -> (r: Result<Args, RunError>)
        ensures
            match r {
                Ok(a) => {
                    &&& !(release && profile is Some)
                    &&& match profile {
                        Some(name) => a.profile == Some(name),
                        None => if release {
                            a.profile matches Some(s) && s@ == "release"@
                        } else {
                            a.profile is None
                        },
                    }
                    &&& a.help == help
                    &&& a.build_only == build_only
                    &&& a.host == host
                    &&& a.port == port
                    &&& a.build_args == build_args
                    &&& a.package == package
                    &&& a.example == example
                    &&& a.bin == bin
                },
                Err(e) => release && profile is Some && e == RunError::Configuration(
                    ConfigFault::ProfileConflict,
                ),
            },
    {
        let resolved = match resolve_profile(release, profile) {
            Ok(p) => p,
            Err(e) => {
                return Err(e);
            },
        };
        Ok(
            Args {
                help,
                profile: resolved,
                build_only,
                host,
                port,
                build_args,
                package,
                example,
                bin,
            },
        )
    }
}

} // verus!
