//! The `top` subcommand: its parsed flags and its argument
//! compiler.

use vstd::prelude::*;

use crate::argv::{push_token, push_values};

verus! {

/// Parsed command-line flags of the `top` subcommand.
pub struct TopFlags {
    /// Trailing positional arguments, in input order.
    pub services: Vec<String>,
}

impl TopFlags {
    /// No optional flag is set and no optional argument was given.
    pub open spec fn is_empty(self) -> bool {
        self.services@.len() == 0
    }
}

impl Default for TopFlags {
    /// The flag set with nothing given.
    fn default() -> (r: Self)
        ensures
            r.is_empty(),
    {
        TopFlags {
            services: Vec::new(),
        }
    }
}

/// The token sequence of a compiled `top` invocation: the verb,
/// then every present flag in declared order, then the positional
/// arguments in input order.
pub open spec fn top_tokens(f: TopFlags) -> Seq<Seq<char>> {
    seq!["top"@]
        + f.services.deep_view()
}

/// Compiles parsed `top` flags into the exact token sequence
/// described by [`top_tokens`].
pub fn prepare_command_top(flags: &TopFlags) -> (args: Vec<String>)
    ensures
        args.deep_view() == top_tokens(*flags),
{
    let mut out: Vec<String> = Vec::new();
    push_token(&mut out, "top");
    proof {
        assert(out.deep_view() =~= seq!["top"@]);
    }
    push_values(&mut out, &flags.services);
    out
}

} // verus!
