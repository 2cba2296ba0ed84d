//! The `ls` subcommand: its parsed flags and its argument
//! compiler.

use vstd::prelude::*;

use crate::argv::{flag_tokens, push_flag, push_token, push_value, value_tokens};

verus! {

/// Parsed command-line flags of the `ls` subcommand.
pub struct LsFlags {
    /// Emits `--all` when set.
    pub all: bool,
    /// Emits `--filter` when set.
    pub filter: bool,
    /// Emits `--format <value>` when given.
    pub format: Option<String>,
    /// Emits `--quiet` when set.
    pub quiet: bool,
}

impl LsFlags {
    /// No optional flag is set and no optional argument was given.
    pub open spec fn is_empty(self) -> bool {
        !self.all
            && !self.filter
            && self.format is None
            && !self.quiet
    }
}

impl Default for LsFlags {
    /// The flag set with nothing given.
    fn default() -> (r: Self)
        ensures
            r.is_empty(),
    {
        LsFlags {
            all: false,
            filter: false,
            format: None,
            quiet: false,
        }
    }
}

/// The token sequence of a compiled `ls` invocation: the verb,
/// then every present flag in declared order, then the positional
/// arguments in input order.
pub open spec fn ls_tokens(f: LsFlags) -> Seq<Seq<char>> {
    seq!["ls"@]
        + flag_tokens(f.all, "--all"@)
        + flag_tokens(f.filter, "--filter"@)
        + value_tokens("--format"@, f.format.deep_view())
        + flag_tokens(f.quiet, "--quiet"@)
}

/// Compiles parsed `ls` flags into the exact token sequence
/// described by [`ls_tokens`].
pub fn prepare_command_ls(flags: &LsFlags) -> (args: Vec<String>)
    ensures
        args.deep_view() == ls_tokens(*flags),
{
    let mut out: Vec<String> = Vec::new();
    push_token(&mut out, "ls");
    proof {
        assert(out.deep_view() =~= seq!["ls"@]);
    }
    push_flag(&mut out, flags.all, "--all");
    push_flag(&mut out, flags.filter, "--filter");
    push_value(&mut out, "--format", &flags.format);
    push_flag(&mut out, flags.quiet, "--quiet");
    out
}

} // verus!
