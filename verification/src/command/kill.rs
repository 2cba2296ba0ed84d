//! The `kill` subcommand: its parsed flags and its argument
//! compiler.

use vstd::prelude::*;

use crate::argv::{flag_tokens, push_flag, push_token, push_value, push_values, value_tokens};

verus! {

/// Parsed command-line flags of the `kill` subcommand.
pub struct KillFlags {
    /// Emits `--remove-orphans` when set.
    pub remove_orphans: bool,
    /// Emits `--signal <value>` when given.
    pub signal: Option<String>,
    /// Trailing positional arguments, in input order.
    pub services: Vec<String>,
}

impl KillFlags {
    /// No optional flag is set and no optional argument was given.
    pub open spec fn is_empty(self) -> bool {
        !self.remove_orphans
            && self.signal is None
            && self.services@.len() == 0
    }
}

impl Default for KillFlags {
    /// The flag set with nothing given.
    fn default() -> (r: Self)
        ensures
            r.is_empty(),
    {
        KillFlags {
            remove_orphans: false,
            signal: None,
            services: Vec::new(),
        }
    }
}

/// The token sequence of a compiled `kill` invocation: the verb,
/// then every present flag in declared order, then the positional
/// arguments in input order.
pub open spec fn kill_tokens(f: KillFlags) -> Seq<Seq<char>> {
    seq!["kill"@]
        + flag_tokens(f.remove_orphans, "--remove-orphans"@)
        + value_tokens("--signal"@, f.signal.deep_view())
        + f.services.deep_view()
}

/// Compiles parsed `kill` flags into the exact token sequence
/// described by [`kill_tokens`].
pub fn prepare_command_kill(flags: &KillFlags) -> (args: Vec<String>)
    ensures
        args.deep_view() == kill_tokens(*flags),
{
    let mut out: Vec<String> = Vec::new();
    push_token(&mut out, "kill");
    proof {
        assert(out.deep_view() =~= seq!["kill"@]);
    }
    push_flag(&mut out, flags.remove_orphans, "--remove-orphans");
    push_value(&mut out, "--signal", &flags.signal);
    push_values(&mut out, &flags.services);
    out
}

} // verus!
