//! The `start` subcommand: its parsed flags and its argument
//! compiler.

use vstd::prelude::*;

use crate::argv::{push_token, push_values};

verus! {

/// Parsed command-line flags of the `start` subcommand.
pub struct StartFlags {
    /// Trailing positional arguments, in input order.
    pub services: Vec<String>,
}

impl StartFlags {
    /// No optional flag is set and no optional argument was given.
    pub open spec fn is_empty(self) -> bool {
        self.services@.len() == 0
    }
}

impl Default for StartFlags {
    /// The flag set with nothing given.
    fn default() -> (r: Self)
        ensures
            r.is_empty(),
    {
        StartFlags {
            services: Vec::new(),
        }
    }
}

/// The token sequence of a compiled `start` invocation: the verb,
/// then every present flag in declared order, then the positional
/// arguments in input order.
pub open spec fn start_tokens(f: StartFlags) -> Seq<Seq<char>> {
    seq!["start"@]
        + f.services.deep_view()
}

/// Compiles parsed `start` flags into the exact token sequence
/// described by [`start_tokens`].
pub fn prepare_command_start(flags: &StartFlags) -> (args: Vec<String>)
    ensures
        args.deep_view() == start_tokens(*flags),
{
    let mut out: Vec<String> = Vec::new();
    push_token(&mut out, "start");
    proof {
        assert(out.deep_view() =~= seq!["start"@]);
    }
    push_values(&mut out, &flags.services);
    out
}

} // verus!
