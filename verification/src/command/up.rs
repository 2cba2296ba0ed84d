//! The `up` subcommand: its parsed flags and its argument
//! compiler.

use vstd::prelude::*;

use crate::argv::{
    flag_tokens, group_tokens, push_flag, push_group, push_token, push_value, value_tokens,
};

verus! {

/// Parsed command-line flags of the `up` subcommand.
pub struct UpFlags {
    /// Emits `--abort-on-container-exit` when set.
    pub abort_on_container_exit: bool,
    /// Emits `--always-recreate-deps` when set.
    pub always_recreate_deps: bool,
    /// Emits `--attach` when set.
    pub attach: bool,
    /// Emits `--attach-dependencies` when set.
    pub attach_dependencies: bool,
    /// Emits `--build` when set.
    pub build: bool,
    /// Emits `--detach` when set.
    pub detach: bool,
    /// Emits `--exit-code-from` when set.
    pub exit_code_from: bool,
    /// Emits `--force-recreate` when set.
    pub force_recreate: bool,
    /// Emits `--no-attach` when set.
    pub no_attach: bool,
    /// Emits `--no-build` when set.
    pub no_build: bool,
    /// Emits `--no-color` when set.
    pub no_color: bool,
    /// Emits `--no-deps` when set.
    pub no_deps: bool,
    /// Emits `--no-log-prefix` when set.
    pub no_log_prefix: bool,
    /// Emits `--no-recreate` when set.
    pub no_recreate: bool,
    /// Emits `--no-start` when set.
    pub no_start: bool,
    /// Emits `--pull <value>` when given.
    pub pull: Option<String>,
    /// Emits `--quiet-pull` when set.
    pub quiet_pull: bool,
    /// Emits `--remove-orphans` when set.
    pub remove_orphans: bool,
    /// Emits `--renew-anon-volumes` when set.
    pub renew_anon_volumes: bool,
    /// Emits `--scale` followed by every value when any is given.
    pub scale: Vec<String>,
    /// Emits `--timeout <value>` when given.
    pub timeout: Option<String>,
    /// Emits `--timestamps <value>` when given.
    pub timestamps: Option<String>,
    /// Emits `--wait` when set.
    pub wait: bool,
}

impl UpFlags {
    /// No optional flag is set and no optional argument was given.
    pub open spec fn is_empty(self) -> bool {
        !self.abort_on_container_exit
            && !self.always_recreate_deps
            && !self.attach
            && !self.attach_dependencies
            && !self.build
            && !self.detach
            && !self.exit_code_from
            && !self.force_recreate
            && !self.no_attach
            && !self.no_build
            && !self.no_color
            && !self.no_deps
            && !self.no_log_prefix
            && !self.no_recreate
            && !self.no_start
            && self.pull is None
            && !self.quiet_pull
            && !self.remove_orphans
            && !self.renew_anon_volumes
            && self.scale@.len() == 0
            && self.timeout is None
            && self.timestamps is None
            && !self.wait
    }

    /// Flag combinations the command-line parser accepts: each
    /// pair of mutually exclusive flags was rejected before the
    /// compiler runs.
    pub open spec fn wf(self) -> bool {
        !(self.abort_on_container_exit && self.detach)
            && !(self.always_recreate_deps && self.no_recreate)
            && !(self.force_recreate && self.no_recreate)
    }
}

impl Default for UpFlags {
    /// The flag set with nothing given.
    fn default() -> (r: Self)
        ensures
            r.is_empty(),
    {
        UpFlags {
            abort_on_container_exit: false,
            always_recreate_deps: false,
            attach: false,
            attach_dependencies: false,
            build: false,
            detach: false,
            exit_code_from: false,
            force_recreate: false,
            no_attach: false,
            no_build: false,
            no_color: false,
            no_deps: false,
            no_log_prefix: false,
            no_recreate: false,
            no_start: false,
            pull: None,
            quiet_pull: false,
            remove_orphans: false,
            renew_anon_volumes: false,
            scale: Vec::new(),
            timeout: None,
            timestamps: None,
            wait: false,
        }
    }
}

/// The token sequence of a compiled `up` invocation: the verb,
/// then every present flag in declared order, then the positional
/// arguments in input order.
pub open spec fn up_tokens(f: UpFlags) -> Seq<Seq<char>> {
    seq!["up"@]
        + flag_tokens(f.abort_on_container_exit, "--abort-on-container-exit"@)
        + flag_tokens(f.always_recreate_deps, "--always-recreate-deps"@)
        + flag_tokens(f.attach, "--attach"@)
        + flag_tokens(f.attach_dependencies, "--attach-dependencies"@)
        + flag_tokens(f.build, "--build"@)
        + flag_tokens(f.detach, "--detach"@)
        + flag_tokens(f.exit_code_from, "--exit-code-from"@)
        + flag_tokens(f.force_recreate, "--force-recreate"@)
        + flag_tokens(f.no_attach, "--no-attach"@)
        + flag_tokens(f.no_build, "--no-build"@)
        + flag_tokens(f.no_color, "--no-color"@)
        + flag_tokens(f.no_deps, "--no-deps"@)
        + flag_tokens(f.no_log_prefix, "--no-log-prefix"@)
        + flag_tokens(f.no_recreate, "--no-recreate"@)
        + flag_tokens(f.no_start, "--no-start"@)
        + value_tokens("--pull"@, f.pull.deep_view())
        + flag_tokens(f.quiet_pull, "--quiet-pull"@)
        + flag_tokens(f.remove_orphans, "--remove-orphans"@)
        + flag_tokens(f.renew_anon_volumes, "--renew-anon-volumes"@)
        + group_tokens("--scale"@, f.scale.deep_view())
        + value_tokens("--timeout"@, f.timeout.deep_view())
        + value_tokens("--timestamps"@, f.timestamps.deep_view())
        + flag_tokens(f.wait, "--wait"@)
}

/// Compiles parsed `up` flags into the exact token sequence
/// described by [`up_tokens`].
#[verifier::rlimit(50)]
pub fn prepare_command_up(flags: &UpFlags) -> (args: Vec<String>)
    requires
        flags.wf(),
    ensures
        args.deep_view() == up_tokens(*flags),
{
    let mut out: Vec<String> = Vec::new();
    push_token(&mut out, "up");
    proof {
        assert(out.deep_view() =~= seq!["up"@]);
    }
    push_flag(&mut out, flags.abort_on_container_exit, "--abort-on-container-exit");
    push_flag(&mut out, flags.always_recreate_deps, "--always-recreate-deps");
    push_flag(&mut out, flags.attach, "--attach");
    push_flag(&mut out, flags.attach_dependencies, "--attach-dependencies");
    push_flag(&mut out, flags.build, "--build");
    push_flag(&mut out, flags.detach, "--detach");
    push_flag(&mut out, flags.exit_code_from, "--exit-code-from");
    push_flag(&mut out, flags.force_recreate, "--force-recreate");
    push_flag(&mut out, flags.no_attach, "--no-attach");
    push_flag(&mut out, flags.no_build, "--no-build");
    push_flag(&mut out, flags.no_color, "--no-color");
    push_flag(&mut out, flags.no_deps, "--no-deps");
    push_flag(&mut out, flags.no_log_prefix, "--no-log-prefix");
    push_flag(&mut out, flags.no_recreate, "--no-recreate");
    push_flag(&mut out, flags.no_start, "--no-start");
    push_value(&mut out, "--pull", &flags.pull);
    push_flag(&mut out, flags.quiet_pull, "--quiet-pull");
    push_flag(&mut out, flags.remove_orphans, "--remove-orphans");
    push_flag(&mut out, flags.renew_anon_volumes, "--renew-anon-volumes");
    push_group(&mut out, "--scale", &flags.scale);
    push_value(&mut out, "--timeout", &flags.timeout);
    push_value(&mut out, "--timestamps", &flags.timestamps);
    push_flag(&mut out, flags.wait, "--wait");
    out
}

} // verus!
