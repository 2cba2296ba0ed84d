//! The `logs` subcommand: its parsed flags and its argument
//! compiler.

use vstd::prelude::*;

use crate::argv::{flag_tokens, push_flag, push_token, push_value, push_values, value_tokens};

verus! {

/// Parsed command-line flags of the `logs` subcommand.
pub struct LogsFlags {
    /// Emits `--follow` when set.
    pub follow: bool,
    /// Emits `--no-color` when set.
    pub no_color: bool,
    /// Emits `--no-log-prefix` when set.
    pub no_log_prefix: bool,
    /// Emits `--since` when set.
    pub since: bool,
    /// Emits `--tail <value>` when given.
    pub tail: Option<String>,
    /// Emits `--dry-run` when set.
    pub dry_run: bool,
    /// Trailing positional arguments, in input order.
    pub services: Vec<String>,
}

impl LogsFlags {
    /// No optional flag is set and no optional argument was given.
    pub open spec fn is_empty(self) -> bool {
        !self.follow
            && !self.no_color
            && !self.no_log_prefix
            && !self.since
            && self.tail is None
            && !self.dry_run
            && self.services@.len() == 0
    }
}

impl Default for LogsFlags {
    /// The flag set with nothing given.
    fn default() -> (r: Self)
        ensures
            r.is_empty(),
    {
        LogsFlags {
            follow: false,
            no_color: false,
            no_log_prefix: false,
            since: false,
            tail: None,
            dry_run: false,
            services: Vec::new(),
        }
    }
}

/// The token sequence of a compiled `logs` invocation: the verb,
/// then every present flag in declared order, then the positional
/// arguments in input order.
pub open spec fn logs_tokens(f: LogsFlags) -> Seq<Seq<char>> {
    seq!["logs"@]
        + flag_tokens(f.follow, "--follow"@)
        + flag_tokens(f.no_color, "--no-color"@)
        + flag_tokens(f.no_log_prefix, "--no-log-prefix"@)
        + flag_tokens(f.since, "--since"@)
        + value_tokens("--tail"@, f.tail.deep_view())
        + flag_tokens(f.dry_run, "--dry-run"@)
        + f.services.deep_view()
}

/// Compiles parsed `logs` flags into the exact token sequence
/// described by [`logs_tokens`].
pub fn prepare_command_logs(flags: &LogsFlags) -> (args: Vec<String>)
    ensures
        args.deep_view() == logs_tokens(*flags),
{
    let mut out: Vec<String> = Vec::new();
    push_token(&mut out, "logs");
    proof {
        assert(out.deep_view() =~= seq!["logs"@]);
    }
    push_flag(&mut out, flags.follow, "--follow");
    push_flag(&mut out, flags.no_color, "--no-color");
    push_flag(&mut out, flags.no_log_prefix, "--no-log-prefix");
    push_flag(&mut out, flags.since, "--since");
    push_value(&mut out, "--tail", &flags.tail);
    push_flag(&mut out, flags.dry_run, "--dry-run");
    push_values(&mut out, &flags.services);
    out
}

} // verus!
