//! The `create` subcommand: its parsed flags and its argument
//! compiler.

use vstd::prelude::*;

use crate::argv::{flag_tokens, push_flag, push_token, push_value, push_values, value_tokens};

verus! {

/// Parsed command-line flags of the `create` subcommand.
pub struct CreateFlags {
    /// Emits `--build` when set.
    pub build: bool,
    /// Emits `--force-recreate` when set.
    pub force_recreate: bool,
    /// Emits `--no-recreate` when set.
    pub no_recreate: bool,
    /// Emits `--pull <value>` when given.
    pub pull: Option<String>,
    /// Trailing positional arguments, in input order.
    pub services: Vec<String>,
}

impl CreateFlags {
    /// No optional flag is set and no optional argument was given.
    pub open spec fn is_empty(self) -> bool {
        !self.build
            && !self.force_recreate
            && !self.no_recreate
            && self.pull is None
            && self.services@.len() == 0
    }
}

impl Default for CreateFlags {
    /// The flag set with nothing given.
    fn default() -> (r: Self)
        ensures
            r.is_empty(),
    {
        CreateFlags {
            build: false,
            force_recreate: false,
            no_recreate: false,
            pull: None,
            services: Vec::new(),
        }
    }
}

/// The token sequence of a compiled `create` invocation: the verb,
/// then every present flag in declared order, then the positional
/// arguments in input order.
pub open spec fn create_tokens(f: CreateFlags) -> Seq<Seq<char>> {
    seq!["create"@]
        + flag_tokens(f.build, "--build"@)
        + flag_tokens(f.force_recreate, "--force-recreate"@)
        + flag_tokens(f.no_recreate, "--no-recreate"@)
        + value_tokens("--pull"@, f.pull.deep_view())
        + f.services.deep_view()
}

/// Compiles parsed `create` flags into the exact token sequence
/// described by [`create_tokens`].
pub fn prepare_command_create(flags: &CreateFlags) -> (args: Vec<String>)
    ensures
        args.deep_view() == create_tokens(*flags),
{
    let mut out: Vec<String> = Vec::new();
    push_token(&mut out, "create");
    proof {
        assert(out.deep_view() =~= seq!["create"@]);
    }
    push_flag(&mut out, flags.build, "--build");
    push_flag(&mut out, flags.force_recreate, "--force-recreate");
    push_flag(&mut out, flags.no_recreate, "--no-recreate");
    push_value(&mut out, "--pull", &flags.pull);
    push_values(&mut out, &flags.services);
    out
}

} // verus!
