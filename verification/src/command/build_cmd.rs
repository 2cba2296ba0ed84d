//! The `build` subcommand: its parsed flags and its argument
//! compiler.

use vstd::prelude::*;

use crate::argv::{flag_tokens, push_flag, push_token, push_value, push_values, value_tokens};

verus! {

/// Parsed command-line flags of the `build` subcommand.
pub struct BuildFlags {
    /// Emits `--build-arg` when set.
    pub build_arg: bool,
    /// Emits `--memory` when set.
    pub memory: bool,
    /// Emits `--no-cache` when set.
    pub no_cache: bool,
    /// Emits `--progress <value>` when given.
    pub progress: Option<String>,
    /// Emits `--pull` when set.
    pub pull: bool,
    /// Emits `--quiet` when set.
    pub quiet: bool,
    /// Emits `--ssh` when set.
    pub ssh: bool,
    /// Emits `--dry-run` when set.
    pub dry_run: bool,
    /// Trailing positional arguments, in input order.
    pub services: Vec<String>,
}

impl BuildFlags {
    /// No optional flag is set and no optional argument was given.
    pub open spec fn is_empty(self) -> bool {
        !self.build_arg
            && !self.memory
            && !self.no_cache
            && self.progress is None
            && !self.pull
            && !self.quiet
            && !self.ssh
            && !self.dry_run
            && self.services@.len() == 0
    }
}

impl Default for BuildFlags {
    /// The flag set with nothing given.
    fn default() -> (r: Self)
        ensures
            r.is_empty(),
    {
        BuildFlags {
            build_arg: false,
            memory: false,
            no_cache: false,
            progress: None,
            pull: false,
            quiet: false,
            ssh: false,
            dry_run: false,
            services: Vec::new(),
        }
    }
}

/// The token sequence of a compiled `build` invocation: the verb,
/// then every present flag in declared order, then the positional
/// arguments in input order.
pub open spec fn build_tokens(f: BuildFlags) -> Seq<Seq<char>> {
    seq!["build"@]
        + flag_tokens(f.build_arg, "--build-arg"@)
        + flag_tokens(f.memory, "--memory"@)
        + flag_tokens(f.no_cache, "--no-cache"@)
        + value_tokens("--progress"@, f.progress.deep_view())
        + flag_tokens(f.pull, "--pull"@)
        + flag_tokens(f.quiet, "--quiet"@)
        + flag_tokens(f.ssh, "--ssh"@)
        + flag_tokens(f.dry_run, "--dry-run"@)
        + f.services.deep_view()
}

/// Compiles parsed `build` flags into the exact token sequence
/// described by [`build_tokens`].
pub fn prepare_command_build(flags: &BuildFlags) -> (args: Vec<String>)
    ensures
        args.deep_view() == build_tokens(*flags),
{
    let mut out: Vec<String> = Vec::new();
    push_token(&mut out, "build");
    proof {
        assert(out.deep_view() =~= seq!["build"@]);
    }
    push_flag(&mut out, flags.build_arg, "--build-arg");
    push_flag(&mut out, flags.memory, "--memory");
    push_flag(&mut out, flags.no_cache, "--no-cache");
    push_value(&mut out, "--progress", &flags.progress);
    push_flag(&mut out, flags.pull, "--pull");
    push_flag(&mut out, flags.quiet, "--quiet");
    push_flag(&mut out, flags.ssh, "--ssh");
    push_flag(&mut out, flags.dry_run, "--dry-run");
    push_values(&mut out, &flags.services);
    out
}

} // verus!
