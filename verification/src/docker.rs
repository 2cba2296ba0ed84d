//! The command dispatcher.
//!
//! [`ComposeFlags`] carries the parsed flags of whichever subcommand was
//! invoked; [`Docker::prepare_command`] and [`dispatch`] assemble the full
//! token vector handed to the external compose binary: `compose`, then the
//! project-scope tokens, then the compiled subcommand tokens, then the
//! user-configured default tokens. Token order is observable by the wrapped
//! tool and is reproduced exactly.

use vstd::prelude::*;

use crate::argv::{append_args, clone_tokens, opt_tokens, push_opt, push_token};
use crate::command::build_cmd::{build_tokens, prepare_command_build, BuildFlags};
use crate::command::create::{create_tokens, prepare_command_create, CreateFlags};
use crate::command::down::{down_tokens, prepare_command_down, DownFlags};
use crate::command::events::{events_tokens, prepare_command_events, EventsFlags};
use crate::command::exec::{exec_tokens, prepare_command_exec, ExecFlags};
use crate::command::images::{images_tokens, prepare_command_images, ImagesFlags};
use crate::command::kill::{kill_tokens, prepare_command_kill, KillFlags};
use crate::command::logs::{logs_tokens, prepare_command_logs, LogsFlags};
use crate::command::ls::{ls_tokens, prepare_command_ls, LsFlags};
use crate::command::pause::{pause_tokens, prepare_command_pause, PauseFlags};
use crate::command::ps::{prepare_command_ps, ps_tokens, PsFlags};
use crate::command::pull::{prepare_command_pull, pull_tokens, PullFlags};
use crate::command::push::{prepare_command_push, push_tokens, PushFlags};
use crate::command::restart::{prepare_command_restart, restart_tokens, RestartFlags};
use crate::command::rm::{prepare_command_rm, rm_tokens, RmFlags};
use crate::command::run::{prepare_command_run, run_tokens, RunFlags};
use crate::command::start::{prepare_command_start, start_tokens, StartFlags};
use crate::command::stop::{prepare_command_stop, stop_tokens, StopFlags};
use crate::command::top::{prepare_command_top, top_tokens, TopFlags};
use crate::command::unpause::{prepare_command_unpause, unpause_tokens, UnpauseFlags};
use crate::command::up::{prepare_command_up, up_tokens, UpFlags};
use crate::config::{
    find_default_args, find_item, scope_tokens, CliConfig, ComposeItem, DefaultCommandArgs,
};
use crate::DctlError;

verus! {

/// The closed set of supported subcommand verbs. Each variant maps to
/// exactly one argument compiler and one literal subcommand word.
#[derive(Debug, Clone, Copy, PartialEq, Eq, Structural)]
pub enum CommandType {
    Build,
    Create,
    Down,
    Exec,
    Events,
    Images,
    Kill,
    Ls,
    Logs,
    Pause,
    Pull,
    Push,
    Ps,
    Restart,
    Rm,
    Run,
    Start,
    Stop,
    Top,
    Unpause,
    Up,
}

/// How the external binary's output is consumed: only its exit status, or
/// its captured standard output.
#[derive(Debug, Clone, Copy, PartialEq, Eq, Structural)]
pub enum CommandOuput {
    Status,
    Output,
}

/// The literal subcommand word recognized by the external tool for each
/// verb.
pub open spec fn verb_word(t: CommandType) -> Seq<char> {
    match t {
        CommandType::Build => "build"@,
        CommandType::Create => "create"@,
        CommandType::Down => "down"@,
        CommandType::Exec => "exec"@,
        CommandType::Events => "events"@,
        CommandType::Images => "images"@,
        CommandType::Kill => "kill"@,
        CommandType::Ls => "ls"@,
        CommandType::Logs => "logs"@,
        CommandType::Pause => "pause"@,
        CommandType::Pull => "pull"@,
        CommandType::Push => "push"@,
        CommandType::Ps => "ps"@,
        CommandType::Restart => "restart"@,
        CommandType::Rm => "rm"@,
        CommandType::Run => "run"@,
        CommandType::Start => "start"@,
        CommandType::Stop => "stop"@,
        CommandType::Top => "top"@,
        CommandType::Unpause => "unpause"@,
        CommandType::Up => "up"@,
    }
}

/// The parsed flags of one subcommand invocation, one variant per verb.
pub enum ComposeFlags {
    Build(BuildFlags),
    Create(CreateFlags),
    Down(DownFlags),
    Exec(ExecFlags),
    Events(EventsFlags),
    Images(ImagesFlags),
    Kill(KillFlags),
    Ls(LsFlags),
    Logs(LogsFlags),
    Pause(PauseFlags),
    Pull(PullFlags),
    Push(PushFlags),
    Ps(PsFlags),
    Restart(RestartFlags),
    Rm(RmFlags),
    Run(RunFlags),
    Start(StartFlags),
    Stop(StopFlags),
    Top(TopFlags),
    Unpause(UnpauseFlags),
    Up(UpFlags),
}

impl ComposeFlags {
    /// The verb these flags belong to.
    pub open spec fn command_type(self) -> CommandType {
        match self {
            ComposeFlags::Build(_) => CommandType::Build,
            ComposeFlags::Create(_) => CommandType::Create,
            ComposeFlags::Down(_) => CommandType::Down,
            ComposeFlags::Exec(_) => CommandType::Exec,
            ComposeFlags::Events(_) => CommandType::Events,
            ComposeFlags::Images(_) => CommandType::Images,
            ComposeFlags::Kill(_) => CommandType::Kill,
            ComposeFlags::Ls(_) => CommandType::Ls,
            ComposeFlags::Logs(_) => CommandType::Logs,
            ComposeFlags::Pause(_) => CommandType::Pause,
            ComposeFlags::Pull(_) => CommandType::Pull,
            ComposeFlags::Push(_) => CommandType::Push,
            ComposeFlags::Ps(_) => CommandType::Ps,
            ComposeFlags::Restart(_) => CommandType::Restart,
            ComposeFlags::Rm(_) => CommandType::Rm,
            ComposeFlags::Run(_) => CommandType::Run,
            ComposeFlags::Start(_) => CommandType::Start,
            ComposeFlags::Stop(_) => CommandType::Stop,
            ComposeFlags::Top(_) => CommandType::Top,
            ComposeFlags::Unpause(_) => CommandType::Unpause,
            ComposeFlags::Up(_) => CommandType::Up,
        }
    }

    /// Flag combinations the command-line parser accepts; only `up`
    /// declares mutually exclusive flags.
    pub open spec fn wf(self) -> bool {
        match self {
            ComposeFlags::Up(f) => f.wf(),
            _ => true,
        }
    }

    /// No optional flag is set and no optional argument was given.
    pub open spec fn is_empty(self) -> bool {
        match self {
            ComposeFlags::Build(f) => f.is_empty(),
            ComposeFlags::Create(f) => f.is_empty(),
            ComposeFlags::Down(f) => f.is_empty(),
            ComposeFlags::Exec(f) => f.is_empty(),
            ComposeFlags::Events(f) => f.is_empty(),
            ComposeFlags::Images(f) => f.is_empty(),
            ComposeFlags::Kill(f) => f.is_empty(),
            ComposeFlags::Ls(f) => f.is_empty(),
            ComposeFlags::Logs(f) => f.is_empty(),
            ComposeFlags::Pause(f) => f.is_empty(),
            ComposeFlags::Pull(f) => f.is_empty(),
            ComposeFlags::Push(f) => f.is_empty(),
            ComposeFlags::Ps(f) => f.is_empty(),
            ComposeFlags::Restart(f) => f.is_empty(),
            ComposeFlags::Rm(f) => f.is_empty(),
            ComposeFlags::Run(f) => f.is_empty(),
            ComposeFlags::Start(f) => f.is_empty(),
            ComposeFlags::Stop(f) => f.is_empty(),
            ComposeFlags::Top(f) => f.is_empty(),
            ComposeFlags::Unpause(f) => f.is_empty(),
            ComposeFlags::Up(f) => f.is_empty(),
        }
    }

    /// The compiled token sequence of whichever verb these flags belong to.
    pub open spec fn tokens(self) -> Seq<Seq<char>> {
        match self {
            ComposeFlags::Build(f) => build_tokens(f),
            ComposeFlags::Create(f) => create_tokens(f),
            ComposeFlags::Down(f) => down_tokens(f),
            ComposeFlags::Exec(f) => exec_tokens(f),
            ComposeFlags::Events(f) => events_tokens(f),
            ComposeFlags::Images(f) => images_tokens(f),
            ComposeFlags::Kill(f) => kill_tokens(f),
            ComposeFlags::Ls(f) => ls_tokens(f),
            ComposeFlags::Logs(f) => logs_tokens(f),
            ComposeFlags::Pause(f) => pause_tokens(f),
            ComposeFlags::Pull(f) => pull_tokens(f),
            ComposeFlags::Push(f) => push_tokens(f),
            ComposeFlags::Ps(f) => ps_tokens(f),
            ComposeFlags::Restart(f) => restart_tokens(f),
            ComposeFlags::Rm(f) => rm_tokens(f),
            ComposeFlags::Run(f) => run_tokens(f),
            ComposeFlags::Start(f) => start_tokens(f),
            ComposeFlags::Stop(f) => stop_tokens(f),
            ComposeFlags::Top(f) => top_tokens(f),
            ComposeFlags::Unpause(f) => unpause_tokens(f),
            ComposeFlags::Up(f) => up_tokens(f),
        }
    }

    /// Selects the argument compiler of the invoked verb and runs it.
    pub fn compile(&self) -> (args: Vec<String>)
        requires
            self.wf(),
        ensures
            args.deep_view() == self.tokens(),
    {
        match self {
            ComposeFlags::Build(f) => prepare_command_build(f),
            ComposeFlags::Create(f) => prepare_command_create(f),
            ComposeFlags::Down(f) => prepare_command_down(f),
            ComposeFlags::Exec(f) => prepare_command_exec(f),
            ComposeFlags::Events(f) => prepare_command_events(f),
            ComposeFlags::Images(f) => prepare_command_images(f),
            ComposeFlags::Kill(f) => prepare_command_kill(f),
            ComposeFlags::Ls(f) => prepare_command_ls(f),
            ComposeFlags::Logs(f) => prepare_command_logs(f),
            ComposeFlags::Pause(f) => prepare_command_pause(f),
            ComposeFlags::Pull(f) => prepare_command_pull(f),
            ComposeFlags::Push(f) => prepare_command_push(f),
            ComposeFlags::Ps(f) => prepare_command_ps(f),
            ComposeFlags::Restart(f) => prepare_command_restart(f),
            ComposeFlags::Rm(f) => prepare_command_rm(f),
            ComposeFlags::Run(f) => prepare_command_run(f),
            ComposeFlags::Start(f) => prepare_command_start(f),
            ComposeFlags::Stop(f) => prepare_command_stop(f),
            ComposeFlags::Top(f) => prepare_command_top(f),
            ComposeFlags::Unpause(f) => prepare_command_unpause(f),
            ComposeFlags::Up(f) => prepare_command_up(f),
        }
    }
}

/// With no optional flag set, a compiled invocation holds exactly the verb
/// word; for the two verbs with mandatory positionals, the verb word is
/// followed by just the target service and the command to execute.
#[verifier::rlimit(50)]
pub proof fn lemma_empty_flags_compile_to_verb(flags: ComposeFlags)
    requires
        flags.is_empty(),
    ensures
        (match flags {
            ComposeFlags::Exec(f) => flags.tokens() == seq![
                verb_word(flags.command_type()),
                f.service@,
                f.command@,
            ],
            ComposeFlags::Run(f) => flags.tokens() == seq![
                verb_word(flags.command_type()),
                f.service@,
                f.command@,
            ],
            _ => flags.tokens() == seq![verb_word(flags.command_type())],
        }),
{
    match flags {
        ComposeFlags::Build(f) => {
            assert(build_tokens(f) =~= seq!["build"@]);
        },
        ComposeFlags::Create(f) => {
            assert(create_tokens(f) =~= seq!["create"@]);
        },
        ComposeFlags::Down(f) => {
            assert(down_tokens(f) =~= seq!["down"@]);
        },
        ComposeFlags::Exec(f) => {
            assert(exec_tokens(f) =~= seq!["exec"@, f.service@, f.command@]);
        },
        ComposeFlags::Events(f) => {
            assert(events_tokens(f) =~= seq!["events"@]);
        },
        ComposeFlags::Images(f) => {
            assert(images_tokens(f) =~= seq!["images"@]);
        },
        ComposeFlags::Kill(f) => {
            assert(kill_tokens(f) =~= seq!["kill"@]);
        },
        ComposeFlags::Ls(f) => {
            assert(ls_tokens(f) =~= seq!["ls"@]);
        },
        ComposeFlags::Logs(f) => {
            assert(logs_tokens(f) =~= seq!["logs"@]);
        },
        ComposeFlags::Pause(f) => {
            assert(pause_tokens(f) =~= seq!["pause"@]);
        },
        ComposeFlags::Pull(f) => {
            assert(pull_tokens(f) =~= seq!["pull"@]);
        },
        ComposeFlags::Push(f) => {
            assert(push_tokens(f) =~= seq!["push"@]);
        },
        ComposeFlags::Ps(f) => {
            assert(ps_tokens(f) =~= seq!["ps"@]);
        },
        ComposeFlags::Restart(f) => {
            assert(restart_tokens(f) =~= seq!["restart"@]);
        },
        ComposeFlags::Rm(f) => {
            assert(rm_tokens(f) =~= seq!["rm"@]);
        },
        ComposeFlags::Run(f) => {
            assert(run_tokens(f) =~= seq!["run"@, f.service@, f.command@]);
        },
        ComposeFlags::Start(f) => {
            assert(start_tokens(f) =~= seq!["start"@]);
        },
        ComposeFlags::Stop(f) => {
            assert(stop_tokens(f) =~= seq!["stop"@]);
        },
        ComposeFlags::Top(f) => {
            assert(top_tokens(f) =~= seq!["top"@]);
        },
        ComposeFlags::Unpause(f) => {
            assert(unpause_tokens(f) =~= seq!["unpause"@]);
        },
        ComposeFlags::Up(f) => {
            assert(up_tokens(f) =~= seq!["up"@]);
        },
    }
}

/// The verbs covered by [`Docker`]'s one-call helpers, which build each
/// verb's bare default invocation without per-invocation flags.
#[derive(Debug, Clone, Copy, PartialEq, Eq, Structural)]
pub enum DockerCommand {
    Start,
    Stop,
    Down,
    Restart,
    Build,
    Logs,
    Ps,
    Exec,
}

impl DockerCommand {
    /// The verb this helper forwards to.
    pub open spec fn command_type(self) -> CommandType {
        match self {
            DockerCommand::Start => CommandType::Start,
            DockerCommand::Stop => CommandType::Stop,
            DockerCommand::Down => CommandType::Down,
            DockerCommand::Restart => CommandType::Restart,
            DockerCommand::Build => CommandType::Build,
            DockerCommand::Logs => CommandType::Logs,
            DockerCommand::Ps => CommandType::Ps,
            DockerCommand::Exec => CommandType::Exec,
        }
    }

    /// The literal subcommand word, as [`verb_word`] gives it.
    pub fn word(&self) -> (r: &'static str)
        ensures
            r@ == verb_word(self.command_type()),
    {
        match self {
            DockerCommand::Start => "start",
            DockerCommand::Stop => "stop",
            DockerCommand::Down => "down",
            DockerCommand::Restart => "restart",
            DockerCommand::Build => "build",
            DockerCommand::Logs => "logs",
            DockerCommand::Ps => "ps",
            DockerCommand::Exec => "exec",
        }
    }
}

/// A handle on the external compose binary.
#[derive(Debug)]
pub struct Docker {
    /// Path of the binary every invocation is run through.
    pub bin_path: String,
}

impl Docker {
    /// A handle on the binary at the given path.
    pub fn init(bin_path: String) -> (r: Docker)
        ensures
            r.bin_path == bin_path,
    {
        Docker { bin_path }
    }

    /// Assembles the full token vector of one invocation: `compose`, the
    /// given project-scope tokens, the compiled subcommand tokens, and the
    /// configured default tokens, in that order.
    pub fn prepare_command(
        &self,
        flags: &ComposeFlags,
        config_args: &Vec<String>,
        default_command_args: &Vec<String>,
    ) -> (args: Vec<String>)
        requires
            flags.wf(),
        ensures
            args.deep_view() == seq!["compose"@] + config_args.deep_view() + flags.tokens()
                + default_command_args.deep_view(),
    {
        let mut args: Vec<String> = Vec::new();
        push_token(&mut args, "compose");
        proof {
            assert(args.deep_view() =~= seq!["compose"@]);
        }
        append_args(&mut args, clone_tokens(config_args));
        append_args(&mut args, flags.compile());
        append_args(&mut args, clone_tokens(default_command_args));
        args
    }

    /// The default `start` invocation for a project: scope tokens, then the
    /// bare verb.
    pub fn start(&self, item: &ComposeItem) -> (args: Vec<String>)
        ensures
            args.deep_view() == seq!["compose"@] + scope_tokens(item@) + seq!["start"@],
    {
        self.bare_verb(item, DockerCommand::Start.word())
    }

    /// The default `stop` invocation for a project.
    pub fn stop(&self, item: &ComposeItem) -> (args: Vec<String>)
        ensures
            args.deep_view() == seq!["compose"@] + scope_tokens(item@) + seq!["stop"@],
    {
        self.bare_verb(item, DockerCommand::Stop.word())
    }

    /// The default `down` invocation for a project.
    pub fn down(&self, item: &ComposeItem) -> (args: Vec<String>)
        ensures
            args.deep_view() == seq!["compose"@] + scope_tokens(item@) + seq!["down"@],
    {
        self.bare_verb(item, DockerCommand::Down.word())
    }

    /// The default `restart` invocation for a project.
    pub fn restart(&self, item: &ComposeItem) -> (args: Vec<String>)
        ensures
            args.deep_view() == seq!["compose"@] + scope_tokens(item@) + seq!["restart"@],
    {
        self.bare_verb(item, DockerCommand::Restart.word())
    }

    /// The default `ps` invocation for a project.
    pub fn ps(&self, item: &ComposeItem) -> (args: Vec<String>)
        ensures
            args.deep_view() == seq!["compose"@] + scope_tokens(item@) + seq!["ps"@],
    {
        self.bare_verb(item, DockerCommand::Ps.word())
    }

    /// The default `build` invocation for a project, restricted to one
    /// service when one is named.
    pub fn build(&self, item: &ComposeItem, service: Option<String>) -> (args: Vec<String>)
        ensures
            args.deep_view() == seq!["compose"@] + scope_tokens(item@) + seq!["build"@]
                + opt_tokens(service.deep_view()),
    {
        let mut args = self.bare_verb(item, DockerCommand::Build.word());
        push_opt(&mut args, &service);
        args
    }

    /// The default `logs` invocation for a project, restricted to one
    /// service when one is named.
    pub fn logs(&self, item: &ComposeItem, service: Option<String>) -> (args: Vec<String>)
        ensures
            args.deep_view() == seq!["compose"@] + scope_tokens(item@) + seq!["logs"@]
                + opt_tokens(service.deep_view()),
    {
        let mut args = self.bare_verb(item, DockerCommand::Logs.word());
        push_opt(&mut args, &service);
        args
    }

    /// The default `exec` invocation for a project: the target service and
    /// the command to run in it, when given.
    pub fn exec(
        &self,
        item: &ComposeItem,
        service: Option<String>,
        subcommand: Option<String>,
    ) -> (args: Vec<String>)
        ensures
            args.deep_view() == seq!["compose"@] + scope_tokens(item@) + seq!["exec"@]
                + opt_tokens(service.deep_view()) + opt_tokens(subcommand.deep_view()),
    {
        let mut args = self.bare_verb(item, DockerCommand::Exec.word());
        push_opt(&mut args, &service);
        push_opt(&mut args, &subcommand);
        args
    }

    /// `compose`, the project-scope tokens, and one bare verb word.
    fn bare_verb(&self, item: &ComposeItem, verb: &str) -> (args: Vec<String>)
        ensures
            args.deep_view() == seq!["compose"@] + scope_tokens(item@) + seq![verb@],
    {
        let mut args: Vec<String> = Vec::new();
        push_token(&mut args, "compose");
        proof {
            assert(args.deep_view() =~= seq!["compose"@]);
        }
        append_args(&mut args, ComposeItem::to_args(item));
        push_token(&mut args, verb);
        args
    }
}

/// One fully dispatched invocation for a project: `compose`, the project's
/// scope tokens, the compiled subcommand tokens, and the verb's configured
/// default tokens, in that order.
pub fn dispatch(
    item: &ComposeItem,
    flags: &ComposeFlags,
    default_args: &DefaultCommandArgs,
) -> (args: Vec<String>)
    requires
        flags.wf(),
    ensures
        args.deep_view() == seq!["compose"@] + scope_tokens(item@) + flags.tokens()
            + default_args@.command_args,
{
    let mut args: Vec<String> = Vec::new();
    push_token(&mut args, "compose");
    proof {
        assert(args.deep_view() =~= seq!["compose"@]);
    }
    append_args(&mut args, ComposeItem::to_args(item));
    append_args(&mut args, flags.compile());
    append_args(&mut args, DefaultCommandArgs::to_args(default_args));
    args
}

/// The full invocation for one command against the registry: resolves the
/// alias to its project, overlays the verb's configured defaults, and
/// assembles the token vector as [`dispatch`] does. An alias no project
/// carries is the one error, reported before anything would run.
pub fn dispatch_for_alias<C: CliConfig>(
    config: &C,
    alias: String,
    command_name: &str,
    flags: &ComposeFlags,
) -> (r: Result<Vec<String>, DctlError>)
    requires
        flags.wf(),
    ensures
        (match find_item(config.registry(), alias@) {
            Some(item) => r is Ok && r->Ok_0.deep_view() == seq!["compose"@] + scope_tokens(item)
                + flags.tokens() + (match config.configured_defaults() {
                Some(entries) => match find_default_args(entries, command_name@) {
                    Some(d) => d.command_args,
                    None => Seq::<Seq<char>>::empty(),
                },
                None => Seq::<Seq<char>>::empty(),
            }),
            None => r is Err && r->Err_0 == DctlError::AliasNotFound,
        }),
{
    let item = match config.get_compose_item_by_alias(alias) {
        Some(item) => item,
        None => {
            return Err(DctlError::AliasNotFound);
        },
    };
    let default_args = match config.get_default_command_args(command_name) {
        Some(d) => d,
        None => DefaultCommandArgs::default(command_name),
    };
    Ok(dispatch(&item, flags, &default_args))
}

} // verus!
