//! The `unpause` subcommand: its parsed flags and its argument
//! compiler.

use vstd::prelude::*;

use crate::argv::{push_token, push_values};

verus! {

/// Parsed command-line flags of the `unpause` subcommand.
pub struct UnpauseFlags {
    /// Trailing positional arguments, in input order.
    pub services: Vec<String>,
}

impl UnpauseFlags {
    /// No optional flag is set and no optional argument was given.
    pub open spec fn is_empty(self) -> bool {
        self.services@.len() == 0
    }
}

impl Default for UnpauseFlags {
    /// The flag set with nothing given.
    fn default() -> (r: Self)
        ensures
            r.is_empty(),
    {
        UnpauseFlags {
            services: Vec::new(),
        }
    }
}

/// The token sequence of a compiled `unpause` invocation: the verb,
/// then every present flag in declared order, then the positional
/// arguments in input order.
pub open spec fn unpause_tokens(f: UnpauseFlags) -> Seq<Seq<char>> {
    seq!["unpause"@]
        + f.services.deep_view()
}

/// Compiles parsed `unpause` flags into the exact token sequence
/// described by [`unpause_tokens`].
pub fn prepare_command_unpause(flags: &UnpauseFlags) -> (args: Vec<String>)
    ensures
        args.deep_view() == unpause_tokens(*flags),
{
    let mut out: Vec<String> = Vec::new();
    push_token(&mut out, "unpause");
    proof {
        assert(out.deep_view() =~= seq!["unpause"@]);
    }
    push_values(&mut out, &flags.services);
    out
}

} // verus!
