//! The `restart` subcommand: its parsed flags and its argument
//! compiler.

use vstd::prelude::*;

use crate::argv::{flag_tokens, push_flag, push_token, push_value, push_values, value_tokens};

verus! {

/// Parsed command-line flags of the `restart` subcommand.
pub struct RestartFlags {
    /// Emits `--timeout <value>` when given.
    pub timeout: Option<String>,
    /// Emits `--dry-run` when set.
    pub dry_run: bool,
    /// Trailing positional arguments, in input order.
    pub services: Vec<String>,
}

impl RestartFlags {
    /// No optional flag is set and no optional argument was given.
    pub open spec fn is_empty(self) -> bool {
        self.timeout is None
            && !self.dry_run
            && self.services@.len() == 0
    }
}

impl Default for RestartFlags {
    /// The flag set with nothing given.
    fn default() -> (r: Self)
        ensures
            r.is_empty(),
    {
        RestartFlags {
            timeout: None,
            dry_run: false,
            services: Vec::new(),
        }
    }
}

/// The token sequence of a compiled `restart` invocation: the verb,
/// then every present flag in declared order, then the positional
/// arguments in input order.
pub open spec fn restart_tokens(f: RestartFlags) -> Seq<Seq<char>> {
    seq!["restart"@]
        + value_tokens("--timeout"@, f.timeout.deep_view())
        + flag_tokens(f.dry_run, "--dry-run"@)
        + f.services.deep_view()
}

/// Compiles parsed `restart` flags into the exact token sequence
/// described by [`restart_tokens`].
pub fn prepare_command_restart(flags: &RestartFlags) -> (args: Vec<String>)
    ensures
        args.deep_view() == restart_tokens(*flags),
{
    let mut out: Vec<String> = Vec::new();
    push_token(&mut out, "restart");
    proof {
        assert(out.deep_view() =~= seq!["restart"@]);
    }
    push_value(&mut out, "--timeout", &flags.timeout);
    push_flag(&mut out, flags.dry_run, "--dry-run");
    push_values(&mut out, &flags.services);
    out
}

} // verus!
