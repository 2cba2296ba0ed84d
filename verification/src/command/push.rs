//! The `push` subcommand: its parsed flags and its argument
//! compiler.

use vstd::prelude::*;

use crate::argv::{flag_tokens, push_flag, push_token, push_values};

verus! {

/// Parsed command-line flags of the `push` subcommand.
pub struct PushFlags {
    /// Emits `--ignore-push-failures` when set.
    pub ignore_push_failures: bool,
    /// Emits `--include-deps` when set.
    pub include_deps: bool,
    /// Emits `--quiet` when set.
    pub quiet: bool,
    /// Trailing positional arguments, in input order.
    pub services: Vec<String>,
}

impl PushFlags {
    /// No optional flag is set and no optional argument was given.
    pub open spec fn is_empty(self) -> bool {
        !self.ignore_push_failures
            && !self.include_deps
            && !self.quiet
            && self.services@.len() == 0
    }
}

impl Default for PushFlags {
    /// The flag set with nothing given.
    fn default() -> (r: Self)
        ensures
            r.is_empty(),
    {
        PushFlags {
            ignore_push_failures: false,
            include_deps: false,
            quiet: false,
            services: Vec::new(),
        }
    }
}

/// The token sequence of a compiled `push` invocation: the verb,
/// then every present flag in declared order, then the positional
/// arguments in input order.
pub open spec fn push_tokens(f: PushFlags) -> Seq<Seq<char>> {
    seq!["push"@]
        + flag_tokens(f.ignore_push_failures, "--ignore-push-failures"@)
        + flag_tokens(f.include_deps, "--include-deps"@)
        + flag_tokens(f.quiet, "--quiet"@)
        + f.services.deep_view()
}

/// Compiles parsed `push` flags into the exact token sequence
/// described by [`push_tokens`].
pub fn prepare_command_push(flags: &PushFlags) -> (args: Vec<String>)
    ensures
        args.deep_view() == push_tokens(*flags),
{
    let mut out: Vec<String> = Vec::new();
    push_token(&mut out, "push");
    proof {
        assert(out.deep_view() =~= seq!["push"@]);
    }
    push_flag(&mut out, flags.ignore_push_failures, "--ignore-push-failures");
    push_flag(&mut out, flags.include_deps, "--include-deps");
    push_flag(&mut out, flags.quiet, "--quiet");
    push_values(&mut out, &flags.services);
    out
}

} // verus!
