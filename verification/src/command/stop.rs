//! The `stop` subcommand: its parsed flags and its argument
//! compiler.

use vstd::prelude::*;

use crate::argv::{flag_tokens, push_flag, push_token, push_value, push_values, value_tokens};

verus! {

/// Parsed command-line flags of the `stop` subcommand.
pub struct StopFlags {
    /// Emits `--timeout <value>` when given.
    pub timeout: Option<String>,
    /// Emits `--dry-run` when set.
    pub dry_run: bool,
    /// Trailing positional arguments, in input order.
    pub services: Vec<String>,
}

impl StopFlags {
    /// No optional flag is set and no optional argument was given.
    pub open spec fn is_empty(self) -> bool {
        self.timeout is None
            && !self.dry_run
            && self.services@.len() == 0
    }
}

impl Default for StopFlags {
    /// The flag set with nothing given.
    fn default() -> (r: Self)
        ensures
            r.is_empty(),
    {
        StopFlags {
            timeout: None,
            dry_run: false,
            services: Vec::new(),
        }
    }
}

/// The token sequence of a compiled `stop` invocation: the verb,
/// then every present flag in declared order, then the positional
/// arguments in input order.
pub open spec fn stop_tokens(f: StopFlags) -> Seq<Seq<char>> {
    seq!["stop"@]
        + value_tokens("--timeout"@, f.timeout.deep_view())
        + flag_tokens(f.dry_run, "--dry-run"@)
        + f.services.deep_view()
}

/// Compiles parsed `stop` flags into the exact token sequence
/// described by [`stop_tokens`].
pub fn prepare_command_stop(flags: &StopFlags) -> (args: Vec<String>)
    ensures
        args.deep_view() == stop_tokens(*flags),
{
    let mut out: Vec<String> = Vec::new();
    push_token(&mut out, "stop");
    proof {
        assert(out.deep_view() =~= seq!["stop"@]);
    }
    push_value(&mut out, "--timeout", &flags.timeout);
    push_flag(&mut out, flags.dry_run, "--dry-run");
    push_values(&mut out, &flags.services);
    out
}

} // verus!
