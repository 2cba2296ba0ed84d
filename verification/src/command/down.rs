//! The `down` subcommand: its parsed flags and its argument
//! compiler.

use vstd::prelude::*;

use crate::argv::{flag_tokens, push_flag, push_token, push_value, value_tokens};

verus! {

/// Parsed command-line flags of the `down` subcommand.
pub struct DownFlags {
    /// Emits `--remove-orphans` when set.
    pub remove_orphans: bool,
    /// Emits `--rmi <value>` when given.
    pub rmi: Option<String>,
    /// Emits `--timeout <value>` when given.
    pub timeout: Option<String>,
    /// Emits `--volumes` when set.
    pub volumes: bool,
    /// Emits `--dry-run` when set.
    pub dry_run: bool,
}

impl DownFlags {
    /// No optional flag is set and no optional argument was given.
    pub open spec fn is_empty(self) -> bool {
        !self.remove_orphans
            && self.rmi is None
            && self.timeout is None
            && !self.volumes
            && !self.dry_run
    }
}

impl Default for DownFlags {
    /// The flag set with nothing given.
    fn default() -> (r: Self)
        ensures
            r.is_empty(),
    {
        DownFlags {
            remove_orphans: false,
            rmi: None,
            timeout: None,
            volumes: false,
            dry_run: false,
        }
    }
}

/// The token sequence of a compiled `down` invocation: the verb,
/// then every present flag in declared order, then the positional
/// arguments in input order.
pub open spec fn down_tokens(f: DownFlags) -> Seq<Seq<char>> {
    seq!["down"@]
        + flag_tokens(f.remove_orphans, "--remove-orphans"@)
        + value_tokens("--rmi"@, f.rmi.deep_view())
        + value_tokens("--timeout"@, f.timeout.deep_view())
        + flag_tokens(f.volumes, "--volumes"@)
        + flag_tokens(f.dry_run, "--dry-run"@)
}

/// Compiles parsed `down` flags into the exact token sequence
/// described by [`down_tokens`].
pub fn prepare_command_down(flags: &DownFlags) -> (args: Vec<String>)
    ensures
        args.deep_view() == down_tokens(*flags),
{
    let mut out: Vec<String> = Vec::new();
    push_token(&mut out, "down");
    proof {
        assert(out.deep_view() =~= seq!["down"@]);
    }
    push_flag(&mut out, flags.remove_orphans, "--remove-orphans");
    push_value(&mut out, "--rmi", &flags.rmi);
    push_value(&mut out, "--timeout", &flags.timeout);
    push_flag(&mut out, flags.volumes, "--volumes");
    push_flag(&mut out, flags.dry_run, "--dry-run");
    out
}

} // verus!
