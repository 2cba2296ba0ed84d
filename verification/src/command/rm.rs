//! The `rm` subcommand: its parsed flags and its argument
//! compiler.

use vstd::prelude::*;

use crate::argv::{flag_tokens, push_flag, push_token, push_values};

verus! {

/// Parsed command-line flags of the `rm` subcommand.
pub struct RmFlags {
    /// Emits `--force` when set.
    pub force: bool,
    /// Emits `--stop` when set.
    pub stop: bool,
    /// Emits `--volumes` when set.
    pub volumes: bool,
    /// Emits `--dry-run` when set.
    pub dry_run: bool,
    /// Trailing positional arguments, in input order.
    pub services: Vec<String>,
}

impl RmFlags {
    /// No optional flag is set and no optional argument was given.
    pub open spec fn is_empty(self) -> bool {
        !self.force
            && !self.stop
            && !self.volumes
            && !self.dry_run
            && self.services@.len() == 0
    }
}

impl Default for RmFlags {
    /// The flag set with nothing given.
    fn default() -> (r: Self)
        ensures
            r.is_empty(),
    {
        RmFlags {
            force: false,
            stop: false,
            volumes: false,
            dry_run: false,
            services: Vec::new(),
        }
    }
}

/// The token sequence of a compiled `rm` invocation: the verb,
/// then every present flag in declared order, then the positional
/// arguments in input order.
pub open spec fn rm_tokens(f: RmFlags) -> Seq<Seq<char>> {
    seq!["rm"@]
        + flag_tokens(f.force, "--force"@)
        + flag_tokens(f.stop, "--stop"@)
        + flag_tokens(f.volumes, "--volumes"@)
        + flag_tokens(f.dry_run, "--dry-run"@)
        + f.services.deep_view()
}

/// Compiles parsed `rm` flags into the exact token sequence
/// described by [`rm_tokens`].
pub fn prepare_command_rm(flags: &RmFlags) -> (args: Vec<String>)
    ensures
        args.deep_view() == rm_tokens(*flags),
{
    let mut out: Vec<String> = Vec::new();
    push_token(&mut out, "rm");
    proof {
        assert(out.deep_view() =~= seq!["rm"@]);
    }
    push_flag(&mut out, flags.force, "--force");
    push_flag(&mut out, flags.stop, "--stop");
    push_flag(&mut out, flags.volumes, "--volumes");
    push_flag(&mut out, flags.dry_run, "--dry-run");
    push_values(&mut out, &flags.services);
    out
}

} // verus!
