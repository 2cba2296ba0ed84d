//! The `exec` subcommand: its parsed flags and its argument
//! compiler.

use vstd::prelude::*;

use crate::argv::{
    flag_tokens, pair_tokens, push_flag, push_pairs, push_string, push_token, push_value, push_values, value_tokens,
};

verus! {

/// Parsed command-line flags of the `exec` subcommand.
pub struct ExecFlags {
    /// Emits `--detach` when set.
    pub detach: bool,
    /// Emits `--privileged` when set.
    pub privileged: bool,
    /// Emits one `--env <value>` pair per value, in input order.
    pub env: Vec<String>,
    /// Emits `--index <value>` when given.
    pub index: Option<String>,
    /// Emits `--interactive` when set.
    pub interactive: bool,
    /// Emits `--no_TTY` when set.
    pub no_tty: bool,
    /// Emits `--tty` when set.
    pub tty: bool,
    /// Emits `--user <value>` when given.
    pub user: Option<String>,
    /// Emits `--workdir <value>` when given.
    pub workdir: Option<String>,
    /// Mandatory positional: the service.
    pub service: String,
    /// Mandatory positional: the command.
    pub command: String,
    /// Trailing positional arguments, in input order.
    pub args: Vec<String>,
}

impl ExecFlags {
    /// No optional flag is set and no optional argument was given.
    pub open spec fn is_empty(self) -> bool {
        !self.detach
            && !self.privileged
            && self.env@.len() == 0
            && self.index is None
            && !self.interactive
            && !self.no_tty
            && !self.tty
            && self.user is None
            && self.workdir is None
            && self.args@.len() == 0
    }
}

impl Default for ExecFlags {
    /// The flag set with nothing given.
    fn default() -> (r: Self)
        ensures
            r.is_empty(),
            r.service@ == Seq::<char>::empty(),
            r.command@ == Seq::<char>::empty(),
    {
        ExecFlags {
            detach: false,
            privileged: false,
            env: Vec::new(),
            index: None,
            interactive: false,
            no_tty: false,
            tty: false,
            user: None,
            workdir: None,
            service: String::new(),
            command: String::new(),
            args: Vec::new(),
        }
    }
}

/// The token sequence of a compiled `exec` invocation: the verb,
/// then every present flag in declared order, then the positional
/// arguments in input order.
pub open spec fn exec_tokens(f: ExecFlags) -> Seq<Seq<char>> {
    seq!["exec"@]
        + flag_tokens(f.detach, "--detach"@)
        + flag_tokens(f.privileged, "--privileged"@)
        + pair_tokens("--env"@, f.env.deep_view())
        + value_tokens("--index"@, f.index.deep_view())
        + flag_tokens(f.interactive, "--interactive"@)
        + flag_tokens(f.no_tty, "--no_TTY"@)
        + flag_tokens(f.tty, "--tty"@)
        + value_tokens("--user"@, f.user.deep_view())
        + value_tokens("--workdir"@, f.workdir.deep_view())
        + seq![f.service@]
        + seq![f.command@]
        + f.args.deep_view()
}

/// Compiles parsed `exec` flags into the exact token sequence
/// described by [`exec_tokens`].
pub fn prepare_command_exec(flags: &ExecFlags) -> (args: Vec<String>)
    ensures
        args.deep_view() == exec_tokens(*flags),
{
    let mut out: Vec<String> = Vec::new();
    push_token(&mut out, "exec");
    proof {
        assert(out.deep_view() =~= seq!["exec"@]);
    }
    push_flag(&mut out, flags.detach, "--detach");
    push_flag(&mut out, flags.privileged, "--privileged");
    push_pairs(&mut out, "--env", &flags.env);
    push_value(&mut out, "--index", &flags.index);
    push_flag(&mut out, flags.interactive, "--interactive");
    push_flag(&mut out, flags.no_tty, "--no_TTY");
    push_flag(&mut out, flags.tty, "--tty");
    push_value(&mut out, "--user", &flags.user);
    push_value(&mut out, "--workdir", &flags.workdir);
    push_string(&mut out, flags.service.clone());
    push_string(&mut out, flags.command.clone());
    push_values(&mut out, &flags.args);
    out
}

} // verus!
