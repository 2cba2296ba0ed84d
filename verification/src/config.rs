//! Registered projects and their configuration.
//!
//! A [`ComposeItem`] describes one registered docker-compose project: its
//! alias, the ordered list of compose files, an optional environment file,
//! and whether the alias is passed as the project name. [`DctlConfig`] is the
//! registry of all projects together with per-verb default arguments.

use vstd::prelude::*;

use crate::argv::{
    clone_tokens, pair_tokens, push_pairs, push_string, push_token, push_value, value_tokens,
};
use crate::DctlError;

verus! {

/// Aggregate state of a project, computed from container counts.
#[derive(Debug, Clone, Copy, PartialEq, Eq, Structural)]
pub enum ComposeStatus {
    Running,
    PartialRunning,
    Stopped,
    ConfigError,
}

/// Status of a project whose running and total container counts are known.
///
/// A project runs when all of its containers do and it has at least one;
/// zero running containers always means stopped, whatever the total; the
/// `-1/-1` pair is the sentinel for a project whose configuration files
/// could not be validated, so its containers were never counted.
pub open spec fn classify(running: int, total: int) -> ComposeStatus {
    if running == total && total > 0 {
        ComposeStatus::Running
    } else if running == 0 {
        ComposeStatus::Stopped
    } else if running == total && total == -1 {
        ComposeStatus::ConfigError
    } else {
        ComposeStatus::PartialRunning
    }
}

/// Zero running containers always classify as stopped, whatever the total
/// count says: a partially running project needs at least one running
/// container.
pub proof fn lemma_zero_running_is_stopped(total: int)
    ensures
        classify(0, total) == ComposeStatus::Stopped,
{
}

/// The mathematical value of a [`ComposeItem`]: every path and name as a
/// character sequence.
#[verifier::ext_equal]
pub struct ComposeItemView {
    pub alias: Seq<char>,
    pub description: Option<Seq<char>>,
    pub status: Option<ComposeStatus>,
    pub use_project_name: Option<bool>,
    pub enviroment_file: Option<Seq<char>>,
    pub compose_files: Seq<Seq<char>>,
}

/// One registered docker-compose project.
pub struct ComposeItem {
    /// Unique short name, the registry key.
    pub alias: String,
    /// Optional human description, display only.
    pub description: Option<String>,
    /// Last computed status; never persisted, `None` until first computed.
    pub status: Option<ComposeStatus>,
    /// Whether `-p <alias>` is emitted; `None` means yes.
    pub use_project_name: Option<bool>,
    /// Optional path emitted as `--env-file <path>`.
    pub enviroment_file: Option<String>,
    /// Ordered compose file paths, each emitted as `-f <path>`.
    pub compose_files: Vec<String>,
}

impl View for ComposeItem {
    type V = ComposeItemView;

    open spec fn view(&self) -> ComposeItemView {
        ComposeItemView {
            alias: self.alias@,
            description: self.description.deep_view(),
            status: self.status,
            use_project_name: self.use_project_name,
            enviroment_file: self.enviroment_file.deep_view(),
            compose_files: self.compose_files.deep_view(),
        }
    }
}

impl DeepView for ComposeItem {
    type V = ComposeItemView;

    open spec fn deep_view(&self) -> ComposeItemView {
        self.view()
    }
}

/// A copy of an optional string, value for value.
fn clone_opt_string(value: &Option<String>) -> (r: Option<String>)
    ensures
        r == *value,
{
    match value {
        Some(s) => Some(s.clone()),
        None => None,
    }
}

impl Clone for ComposeItem {
    fn clone(&self) -> (r: Self)
        ensures
            r@ == self@,
    {
        let r = ComposeItem {
            alias: self.alias.clone(),
            description: clone_opt_string(&self.description),
            status: self.status,
            use_project_name: self.use_project_name,
            enviroment_file: clone_opt_string(&self.enviroment_file),
            compose_files: clone_tokens(&self.compose_files),
        };
        proof {
            assert(r@ =~= self@);
        }
        r
    }
}

/// Whether the alias is passed as the project name; defaults to yes.
pub open spec fn use_project_name_or_default(item: ComposeItemView) -> bool {
    match item.use_project_name {
        Some(b) => b,
        None => true,
    }
}

/// The project-scope tokens derived from a project definition:
/// `-p <alias>` unless disabled, then `--env-file <path>` when present,
/// then `-f <path>` per compose file in declared order.
pub open spec fn scope_tokens(item: ComposeItemView) -> Seq<Seq<char>> {
    (if use_project_name_or_default(item) {
        seq!["-p"@, item.alias]
    } else {
        Seq::empty()
    }) + value_tokens("--env-file"@, item.enviroment_file) + pair_tokens(
        "-f"@,
        item.compose_files,
    )
}

impl ComposeItem {
    /// Records the status classified from the given container counts,
    /// leaving every other field unchanged.
    pub fn set_status(&mut self, running_container: isize, all_container: isize)
        ensures
            final(self)@ == (ComposeItemView {
                status: Some(classify(running_container as int, all_container as int)),
                ..old(self)@
            }),
    {
        let status = if (running_container == all_container) && (all_container > 0) {
            ComposeStatus::Running
        } else if running_container == 0 {
            ComposeStatus::Stopped
        } else if (running_container == all_container) && (all_container == -1) {
            ComposeStatus::ConfigError
        } else {
            ComposeStatus::PartialRunning
        };
        self.status = Some(status);
        proof {
            assert(self@ =~= (ComposeItemView {
                status: Some(classify(running_container as int, all_container as int)),
                ..old(self)@
            }));
        }
    }

    /// The project-scope tokens of this project, ready to be spliced into a
    /// compose invocation.
    pub fn to_args(compose_item: &ComposeItem) -> (args: Vec<String>)
        ensures
            args.deep_view() == scope_tokens(compose_item@),
    {
        let mut item_args: Vec<String> = Vec::new();
        let use_name = match compose_item.use_project_name {
            Some(b) => b,
            None => true,
        };
        if use_name {
            push_token(&mut item_args, "-p");
            push_string(&mut item_args, compose_item.alias.clone());
            proof {
                assert(item_args.deep_view() =~= seq!["-p"@, compose_item.alias@]);
            }
        } else {
            proof {
                assert(item_args.deep_view() =~= Seq::<Seq<char>>::empty());
            }
        }
        push_value(&mut item_args, "--env-file", &compose_item.enviroment_file);
        push_pairs(&mut item_args, "-f", &compose_item.compose_files);
        item_args
    }
}

/// A project whose alias is not used as the project name yields no `-p`
/// tokens at all: its scope is only the environment file and the compose
/// files, in declared order.
pub proof fn lemma_scope_without_project_name(item: ComposeItemView)
    requires
        item.use_project_name == Some(false),
    ensures
        scope_tokens(item) == value_tokens("--env-file"@, item.enviroment_file) + pair_tokens(
            "-f"@,
            item.compose_files,
        ),
{
    assert(scope_tokens(item) =~= value_tokens("--env-file"@, item.enviroment_file)
        + pair_tokens("-f"@, item.compose_files));
}

/// The mathematical value of a [`DefaultCommandArgs`].
#[verifier::ext_equal]
pub struct DefaultCommandArgsView {
    pub command_name: Seq<char>,
    pub command_args: Seq<Seq<char>>,
}

/// User-configured default tokens appended to one verb's every invocation.
pub struct DefaultCommandArgs {
    /// The verb these defaults belong to.
    pub command_name: String,
    /// The pre-formed tokens, appended after the verb's own compiled tokens.
    pub command_args: Vec<String>,
}

impl View for DefaultCommandArgs {
    type V = DefaultCommandArgsView;

    open spec fn view(&self) -> DefaultCommandArgsView {
        DefaultCommandArgsView {
            command_name: self.command_name@,
            command_args: self.command_args.deep_view(),
        }
    }
}

impl DeepView for DefaultCommandArgs {
    type V = DefaultCommandArgsView;

    open spec fn deep_view(&self) -> DefaultCommandArgsView {
        self.view()
    }
}

impl Clone for DefaultCommandArgs {
    fn clone(&self) -> (r: Self)
        ensures
            r@ == self@,
    {
        let r = DefaultCommandArgs {
            command_name: self.command_name.clone(),
            command_args: clone_tokens(&self.command_args),
        };
        proof {
            assert(r@ =~= self@);
        }
        r
    }
}

impl DefaultCommandArgs {
    /// The empty default for a verb without a user-configured override.
    pub fn default(command_name: &str) -> (r: DefaultCommandArgs)
        ensures
            r@.command_name == command_name@,
            r@.command_args == Seq::<Seq<char>>::empty(),
    {
        let r = DefaultCommandArgs {
            command_name: command_name.to_owned(),
            command_args: Vec::new(),
        };
        proof {
            assert(r@.command_args =~= Seq::<Seq<char>>::empty());
        }
        r
    }

    /// The tokens contributed by these defaults: exactly the configured
    /// tokens, in configured order.
    pub fn to_args(default_command_args: &DefaultCommandArgs) -> (args: Vec<String>)
        ensures
            args.deep_view() == default_command_args@.command_args,
    {
        let args = clone_tokens(&default_command_args.command_args);
        proof {
            assert(args.deep_view() =~= default_command_args@.command_args);
        }
        args
    }
}

/// A default built without a user override contributes no tokens at all:
/// round-tripping any verb through the empty default leaves an invocation
/// unchanged.
pub proof fn lemma_default_round_trip(d: DefaultCommandArgs)
    requires
        d@.command_args == Seq::<Seq<char>>::empty(),
    ensures
        forall|rest: Seq<Seq<char>>| rest + d@.command_args == rest,
{
    assert forall|rest: Seq<Seq<char>>| rest + d@.command_args == rest by {
        assert(rest + d@.command_args =~= rest);
    }
}

/// The main section of the configuration file.
pub struct Config {
    /// Path of the external compose binary.
    pub docker_bin: String,
    /// Optional per-verb default arguments.
    pub default_command_args: Option<Vec<DefaultCommandArgs>>,
}

/// The whole parsed configuration: the main section and the registered
/// projects, in declaration order.
pub struct DctlConfig {
    pub main: Config,
    pub collections: Vec<ComposeItem>,
}

/// The first project carrying the given alias, in declaration order.
pub open spec fn find_item(items: Seq<ComposeItemView>, alias: Seq<char>) -> Option<
    ComposeItemView,
>
    decreases items.len(),
{
    if items.len() == 0 {
        None
    } else if items[0].alias == alias {
        Some(items[0])
    } else {
        find_item(items.drop_first(), alias)
    }
}

/// The first default-argument entry for the given verb, in declaration
/// order.
pub open spec fn find_default_args(
    entries: Seq<DefaultCommandArgsView>,
    command_name: Seq<char>,
) -> Option<DefaultCommandArgsView>
    decreases entries.len(),
{
    if entries.len() == 0 {
        None
    } else if entries[0].command_name == command_name {
        Some(entries[0])
    } else {
        find_default_args(entries.drop_first(), command_name)
    }
}

/// The registry interface the command flow works against: the binary path,
/// the per-verb defaults, and the projects. [`DctlConfig`] is the
/// configuration-backed implementation; a caller may supply another, such
/// as an in-memory one for tests.
pub trait CliConfig {
    /// The registered projects, in declaration order.
    spec fn registry(&self) -> Seq<ComposeItemView>;

    /// The configured per-verb default arguments, in declaration order.
    spec fn configured_defaults(&self) -> Option<Seq<DefaultCommandArgsView>>;

    /// The configured path of the external compose binary.
    spec fn bin_path(&self) -> Seq<char>;

    /// The configured path of the external compose binary.
    fn get_container_bin_path(&self) -> (r: Result<String, DctlError>)
        ensures
            r is Ok,
            r->Ok_0@ == self.bin_path(),
    ;

    /// The user-configured defaults for the given verb, or `None` when the
    /// configuration has no entry for it.
    fn get_default_command_args(&self, command_name: &str) -> (r: Option<DefaultCommandArgs>)
        ensures
            r.deep_view() == (match self.configured_defaults() {
                Some(entries) => find_default_args(entries, command_name@),
                None => None,
            }),
    ;

    /// The registered project with the given alias, or `None` when no
    /// project carries it. A missing alias is never an error here: the
    /// caller decides whether absence matters.
    fn get_compose_item_by_alias(&self, alias: String) -> (r: Option<ComposeItem>)
        ensures
            r.deep_view() == find_item(self.registry(), alias@),
    ;

    /// Every registered project, in declaration order.
    fn get_all_compose_items(&self) -> (r: Vec<ComposeItem>)
        ensures
            r.deep_view() == self.registry(),
    ;
}

impl CliConfig for DctlConfig {
    open spec fn registry(&self) -> Seq<ComposeItemView> {
        self.collections.deep_view()
    }

    open spec fn configured_defaults(&self) -> Option<Seq<DefaultCommandArgsView>> {
        match self.main.default_command_args {
            Some(entries) => Some(entries.deep_view()),
            None => None,
        }
    }

    open spec fn bin_path(&self) -> Seq<char> {
        self.main.docker_bin@
    }

    fn get_container_bin_path(&self) -> (r: Result<String, DctlError>) {
        Ok(self.main.docker_bin.clone())
    }

    fn get_default_command_args(&self, command_name: &str) -> (r: Option<DefaultCommandArgs>) {
        let needle: String = command_name.to_owned();
        match &self.main.default_command_args {
            Some(entries) => {
                let ghost all = entries.deep_view();
                let n = entries.len();
                let mut i: usize = 0;
                proof {
                    assert(all.skip(0) =~= all);
                }
                while i < n
                    invariant
                        i <= n,
                        n == entries.len(),
                        all == entries.deep_view(),
                        self.main.default_command_args matches Some(es) && all == es.deep_view(),
                        needle@ == command_name@,
                        find_default_args(all, command_name@) == find_default_args(
                            all.skip(i as int),
                            command_name@,
                        ),
                    decreases n - i,
                {
                    proof {
                        assert(all.skip(i as int)[0] == all[i as int]);
                        assert(all.skip(i as int).drop_first() =~= all.skip(i + 1));
                    }
                    if entries[i].command_name == needle {
                        return Some(entries[i].clone());
                    }
                    i = i + 1;
                }
                proof {
                    assert(all.skip(n as int) =~= Seq::<DefaultCommandArgsView>::empty());
                }
                None
            },
            None => None,
        }
    }

    fn get_compose_item_by_alias(&self, alias: String) -> (r: Option<ComposeItem>) {
        let ghost all = self.collections.deep_view();
        let n = self.collections.len();
        let mut i: usize = 0;
        proof {
            assert(all.skip(0) =~= all);
        }
        while i < n
            invariant
                i <= n,
                n == self.collections.len(),
                all == self.collections.deep_view(),
                find_item(all, alias@) == find_item(all.skip(i as int), alias@),
            decreases n - i,
        {
            proof {
                assert(all.skip(i as int)[0] == all[i as int]);
                assert(all.skip(i as int).drop_first() =~= all.skip(i + 1));
            }
            if self.collections[i].alias == alias {
                return Some(self.collections[i].clone());
            }
            i = i + 1;
        }
        proof {
            assert(all.skip(n as int) =~= Seq::<ComposeItemView>::empty());
        }
        None
    }

    fn get_all_compose_items(&self) -> (r: Vec<ComposeItem>) {
        let n = self.collections.len();
        let mut i: usize = 0;
        let mut out: Vec<ComposeItem> = Vec::new();
        while i < n
            invariant
                i <= n,
                n == self.collections.len(),
                out.deep_view() == self.collections.deep_view().take(i as int),
            decreases n - i,
        {
            let ghost prev = out.deep_view();
            let item = self.collections[i].clone();
            let ghost item_view = item@;
            out.push(item);
            proof {
                assert(out.deep_view() =~= prev.push(item_view));
                assert(prev.push(item_view) =~= self.collections.deep_view().take(i + 1));
            }
            i = i + 1;
        }
        proof {
            assert(self.collections.deep_view().take(n as int) =~= self.collections.deep_view());
        }
        out
    }
}

/// The alias column of the project table.
pub fn display_alias(alias: &String) -> (r: String)
    ensures
        r@ == alias@,
{
    alias.clone()
}

/// The status column of the project table.
pub open spec fn status_label(status: Option<ComposeStatus>) -> Seq<char> {
    match status {
        Some(ComposeStatus::Running) => "🟢 Running"@,
        Some(ComposeStatus::PartialRunning) => "🟠 Partially running"@,
        Some(ComposeStatus::Stopped) => "🔴 Stopped"@,
        Some(ComposeStatus::ConfigError) => "🟣 Error, check your config"@,
        None => "🔴 Stopped"@,
    }
}

/// The status column of the project table; a project whose status was never
/// computed renders as stopped.
pub fn display_status(status: &Option<ComposeStatus>) -> (r: String)
    ensures
        r@ == status_label(*status),
{
    match status {
        Some(s) => {
            if *s == ComposeStatus::Running {
                "🟢 Running".to_owned()
            } else if *s == ComposeStatus::PartialRunning {
                "🟠 Partially running".to_owned()
            } else if *s == ComposeStatus::Stopped {
                "🔴 Stopped".to_owned()
            } else {
                "🟣 Error, check your config".to_owned()
            }
        },
        None => "🔴 Stopped".to_owned(),
    }
}

/// The description column of the project table; a missing description
/// renders empty.
pub fn display_description(o: &Option<String>) -> (r: String)
    ensures
        r@ == (match o.deep_view() {
            Some(s) => s,
            None => Seq::<char>::empty(),
        }),
{
    match o {
        Some(s) => s.clone(),
        None => {
            let r = String::new();
            proof {
                assert(r@ =~= Seq::<char>::empty());
            }
            r
        },
    }
}

} // verus!
