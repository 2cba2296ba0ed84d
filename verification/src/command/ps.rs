//! The `ps` subcommand: its parsed flags and its argument
//! compiler.

use vstd::prelude::*;

use crate::argv::{flag_tokens, push_flag, push_token, push_value, value_tokens};

verus! {

/// Parsed command-line flags of the `ps` subcommand.
pub struct PsFlags {
    /// Emits `--all` when set.
    pub all: bool,
    /// Emits `--filter <value>` when given.
    pub filter: Option<String>,
    /// Emits `--format <value>` when given.
    pub format: Option<String>,
    /// Emits `--quiet` when set.
    pub quiet: bool,
    /// Emits `--status <value>` when given.
    pub status: Option<String>,
    /// Emits `--services` when set.
    pub services: bool,
}

impl PsFlags {
    /// No optional flag is set and no optional argument was given.
    pub open spec fn is_empty(self) -> bool {
        !self.all
            && self.filter is None
            && self.format is None
            && !self.quiet
            && self.status is None
            && !self.services
    }
}

impl Default for PsFlags {
    /// The flag set with nothing given.
    fn default() -> (r: Self)
        ensures
            r.is_empty(),
    {
        PsFlags {
            all: false,
            filter: None,
            format: None,
            quiet: false,
            status: None,
            services: false,
        }
    }
}

/// The token sequence of a compiled `ps` invocation: the verb,
/// then every present flag in declared order, then the positional
/// arguments in input order.
pub open spec fn ps_tokens(f: PsFlags) -> Seq<Seq<char>> {
    seq!["ps"@]
        + flag_tokens(f.all, "--all"@)
        + value_tokens("--filter"@, f.filter.deep_view())
        + value_tokens("--format"@, f.format.deep_view())
        + flag_tokens(f.quiet, "--quiet"@)
        + value_tokens("--status"@, f.status.deep_view())
        + flag_tokens(f.services, "--services"@)
}

/// Compiles parsed `ps` flags into the exact token sequence
/// described by [`ps_tokens`].
pub fn prepare_command_ps(flags: &PsFlags) -> (args: Vec<String>)
    ensures
        args.deep_view() == ps_tokens(*flags),
{
    let mut out: Vec<String> = Vec::new();
    push_token(&mut out, "ps");
    proof {
        assert(out.deep_view() =~= seq!["ps"@]);
    }
    push_flag(&mut out, flags.all, "--all");
    push_value(&mut out, "--filter", &flags.filter);
    push_value(&mut out, "--format", &flags.format);
    push_flag(&mut out, flags.quiet, "--quiet");
    push_value(&mut out, "--status", &flags.status);
    push_flag(&mut out, flags.services, "--services");
    out
}

} // verus!
