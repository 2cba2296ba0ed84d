//! The `images` subcommand: its parsed flags and its argument
//! compiler.

use vstd::prelude::*;

use crate::argv::{flag_tokens, push_flag, push_token, push_value, push_values, value_tokens};

verus! {

/// Parsed command-line flags of the `images` subcommand.
pub struct ImagesFlags {
    /// Emits `--quiet` when set.
    pub quiet: bool,
    /// Emits `--format <value>` when given.
    pub format: Option<String>,
    /// Trailing positional arguments, in input order.
    pub services: Vec<String>,
}

impl ImagesFlags {
    /// No optional flag is set and no optional argument was given.
    pub open spec fn is_empty(self) -> bool {
        !self.quiet
            && self.format is None
            && self.services@.len() == 0
    }
}

impl Default for ImagesFlags {
    /// The flag set with nothing given.
    fn default() -> (r: Self)
        ensures
            r.is_empty(),
    {
        ImagesFlags {
            quiet: false,
            format: None,
            services: Vec::new(),
        }
    }
}

/// The token sequence of a compiled `images` invocation: the verb,
/// then every present flag in declared order, then the positional
/// arguments in input order.
pub open spec fn images_tokens(f: ImagesFlags) -> Seq<Seq<char>> {
    seq!["images"@]
        + flag_tokens(f.quiet, "--quiet"@)
        + value_tokens("--format"@, f.format.deep_view())
        + f.services.deep_view()
}

/// Compiles parsed `images` flags into the exact token sequence
/// described by [`images_tokens`].
pub fn prepare_command_images(flags: &ImagesFlags) -> (args: Vec<String>)
    ensures
        args.deep_view() == images_tokens(*flags),
{
    let mut out: Vec<String> = Vec::new();
    push_token(&mut out, "images");
    proof {
        assert(out.deep_view() =~= seq!["images"@]);
    }
    push_flag(&mut out, flags.quiet, "--quiet");
    push_value(&mut out, "--format", &flags.format);
    push_values(&mut out, &flags.services);
    out
}

} // verus!
