//! The `pause` subcommand: its parsed flags and its argument
//! compiler.

use vstd::prelude::*;

use crate::argv::{push_token, push_values};

verus! {

/// Parsed command-line flags of the `pause` subcommand.
pub struct PauseFlags {
    /// Trailing positional arguments, in input order.
    pub services: Vec<String>,
}

impl PauseFlags {
    /// No optional flag is set and no optional argument was given.
    pub open spec fn is_empty(self) -> bool {
        self.services@.len() == 0
    }
}

impl Default for PauseFlags {
    /// The flag set with nothing given.
    fn default() -> (r: Self)
        ensures
            r.is_empty(),
    {
        PauseFlags {
            services: Vec::new(),
        }
    }
}

/// The token sequence of a compiled `pause` invocation: the verb,
/// then every present flag in declared order, then the positional
/// arguments in input order.
pub open spec fn pause_tokens(f: PauseFlags) -> Seq<Seq<char>> {
    seq!["pause"@]
        + f.services.deep_view()
}

/// Compiles parsed `pause` flags into the exact token sequence
/// described by [`pause_tokens`].
pub fn prepare_command_pause(flags: &PauseFlags) -> (args: Vec<String>)
    ensures
        args.deep_view() == pause_tokens(*flags),
{
    let mut out: Vec<String> = Vec::new();
    push_token(&mut out, "pause");
    proof {
        assert(out.deep_view() =~= seq!["pause"@]);
    }
    push_values(&mut out, &flags.services);
    out
}

} // verus!
