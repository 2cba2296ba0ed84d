//! The `run` subcommand: its parsed flags and its argument
//! compiler.

use vstd::prelude::*;

use crate::argv::{
    flag_tokens, pair_tokens, push_flag, push_pairs, push_string, push_token, push_value, push_values, value_tokens,
};

verus! {

/// Parsed command-line flags of the `run` subcommand.
pub struct RunFlags {
    /// Emits `--build` when set.
    pub build: bool,
    /// Emits `--detach` when set.
    pub detach: bool,
    /// Emits `--entrypoint <value>` when given.
    pub entrypoint: Option<String>,
    /// Emits one `--env <value>` pair per value, in input order.
    pub env: Vec<String>,
    /// Emits `--interactive` when set.
    pub interactive: bool,
    /// Emits `--label <value>` when given.
    pub label: Option<String>,
    /// Emits `--name <value>` when given.
    pub name: Option<String>,
    /// Emits `--no_TTY` when set.
    pub no_tty: bool,
    /// Emits `--no-deps` when set.
    pub no_deps: bool,
    /// Emits `--publish <value>` when given.
    pub publish: Option<String>,
    /// Emits `--quiet-pull` when set.
    pub quiet_pull: bool,
    /// Emits `--rm` when set.
    pub rm: bool,
    /// Emits `--service-ports` when set.
    pub service_ports: bool,
    /// Emits `--use-aliases` when set.
    pub use_aliases: bool,
    /// Emits `--user <value>` when given.
    pub user: Option<String>,
    /// Emits one `--volume <value>` pair per value, in input order.
    pub volume: Vec<String>,
    /// Emits `--workdir <value>` when given.
    pub workdir: Option<String>,
    /// Mandatory positional: the service.
    pub service: String,
    /// Mandatory positional: the command.
    pub command: String,
    /// Trailing positional arguments, in input order.
    pub args: Vec<String>,
}

impl RunFlags {
    /// No optional flag is set and no optional argument was given.
    pub open spec fn is_empty(self) -> bool {
        !self.build
            && !self.detach
            && self.entrypoint is None
            && self.env@.len() == 0
            && !self.interactive
            && self.label is None
            && self.name is None
            && !self.no_tty
            && !self.no_deps
            && self.publish is None
            && !self.quiet_pull
            && !self.rm
            && !self.service_ports
            && !self.use_aliases
            && self.user is None
            && self.volume@.len() == 0
            && self.workdir is None
            && self.args@.len() == 0
    }
}

impl Default for RunFlags {
    /// The flag set with nothing given.
    fn default() -> (r: Self)
        ensures
            r.is_empty(),
            r.service@ == Seq::<char>::empty(),
            r.command@ == Seq::<char>::empty(),
    {
        RunFlags {
            build: false,
            detach: false,
            entrypoint: None,
            env: Vec::new(),
            interactive: false,
            label: None,
            name: None,
            no_tty: false,
            no_deps: false,
            publish: None,
            quiet_pull: false,
            rm: false,
            service_ports: false,
            use_aliases: false,
            user: None,
            volume: Vec::new(),
            workdir: None,
            service: String::new(),
            command: String::new(),
            args: Vec::new(),
        }
    }
}

/// The token sequence of a compiled `run` invocation: the verb,
/// then every present flag in declared order, then the positional
/// arguments in input order.
pub open spec fn run_tokens(f: RunFlags) -> Seq<Seq<char>> {
    seq!["run"@]
        + flag_tokens(f.build, "--build"@)
        + flag_tokens(f.detach, "--detach"@)
        + value_tokens("--entrypoint"@, f.entrypoint.deep_view())
        + pair_tokens("--env"@, f.env.deep_view())
        + flag_tokens(f.interactive, "--interactive"@)
        + value_tokens("--label"@, f.label.deep_view())
        + value_tokens("--name"@, f.name.deep_view())
        + flag_tokens(f.no_tty, "--no_TTY"@)
        + flag_tokens(f.no_deps, "--no-deps"@)
        + value_tokens("--publish"@, f.publish.deep_view())
        + flag_tokens(f.quiet_pull, "--quiet-pull"@)
        + flag_tokens(f.rm, "--rm"@)
        + flag_tokens(f.service_ports, "--service-ports"@)
        + flag_tokens(f.use_aliases, "--use-aliases"@)
        + value_tokens("--user"@, f.user.deep_view())
        + pair_tokens("--volume"@, f.volume.deep_view())
        + value_tokens("--workdir"@, f.workdir.deep_view())
        + seq![f.service@]
        + seq![f.command@]
        + f.args.deep_view()
}

/// Compiles parsed `run` flags into the exact token sequence
/// described by [`run_tokens`].
pub fn prepare_command_run(flags: &RunFlags) -> (args: Vec<String>)
    ensures
        args.deep_view() == run_tokens(*flags),
{
    let mut out: Vec<String> = Vec::new();
    push_token(&mut out, "run");
    proof {
        assert(out.deep_view() =~= seq!["run"@]);
    }
    push_flag(&mut out, flags.build, "--build");
    push_flag(&mut out, flags.detach, "--detach");
    push_value(&mut out, "--entrypoint", &flags.entrypoint);
    push_pairs(&mut out, "--env", &flags.env);
    push_flag(&mut out, flags.interactive, "--interactive");
    push_value(&mut out, "--label", &flags.label);
    push_value(&mut out, "--name", &flags.name);
    push_flag(&mut out, flags.no_tty, "--no_TTY");
    push_flag(&mut out, flags.no_deps, "--no-deps");
    push_value(&mut out, "--publish", &flags.publish);
    push_flag(&mut out, flags.quiet_pull, "--quiet-pull");
    push_flag(&mut out, flags.rm, "--rm");
    push_flag(&mut out, flags.service_ports, "--service-ports");
    push_flag(&mut out, flags.use_aliases, "--use-aliases");
    push_value(&mut out, "--user", &flags.user);
    push_pairs(&mut out, "--volume", &flags.volume);
    push_value(&mut out, "--workdir", &flags.workdir);
    push_string(&mut out, flags.service.clone());
    push_string(&mut out, flags.command.clone());
    push_values(&mut out, &flags.args);
    out
}

} // verus!
