//! The `events` subcommand: its parsed flags and its argument
//! compiler.

use vstd::prelude::*;

use crate::argv::{flag_tokens, push_flag, push_token, push_values};

verus! {

/// Parsed command-line flags of the `events` subcommand.
pub struct EventsFlags {
    /// Emits `--json` when set.
    pub json: bool,
    /// Trailing positional arguments, in input order.
    pub services: Vec<String>,
}

impl EventsFlags {
    /// No optional flag is set and no optional argument was given.
    pub open spec fn is_empty(self) -> bool {
        !self.json
            && self.services@.len() == 0
    }
}

impl Default for EventsFlags {
    /// The flag set with nothing given.
    fn default() -> (r: Self)
        ensures
            r.is_empty(),
    {
        EventsFlags {
            json: false,
            services: Vec::new(),
        }
    }
}

/// The token sequence of a compiled `events` invocation: the verb,
/// then every present flag in declared order, then the positional
/// arguments in input order.
pub open spec fn events_tokens(f: EventsFlags) -> Seq<Seq<char>> {
    seq!["events"@]
        + flag_tokens(f.json, "--json"@)
        + f.services.deep_view()
}

/// Compiles parsed `events` flags into the exact token sequence
/// described by [`events_tokens`].
pub fn prepare_command_events(flags: &EventsFlags) -> (args: Vec<String>)
    ensures
        args.deep_view() == events_tokens(*flags),
{
    let mut out: Vec<String> = Vec::new();
    push_token(&mut out, "events");
    proof {
        assert(out.deep_view() =~= seq!["events"@]);
    }
    push_flag(&mut out, flags.json, "--json");
    push_values(&mut out, &flags.services);
    out
}

} // verus!
