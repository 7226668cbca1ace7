//! Hooks: shell commands that the user wants run before and after a
//! worktree is created, switched to, or removed.

use crate::paths::{join, path_join};
use crate::process::{CommandLine, CommandLineView, ProcessOutcome, ProcessOutcomeView};
use crate::text::{same_text, trim, trimmed};
use vstd::prelude::*;

verus! {

/// The hook configuration file, as a path from the hub root.
pub const HOOKS_FILE: &'static str = ".wtree/hooks.toml";

/// The hook configuration file of the hub at `hub_root`.
pub fn hooks_path(hub_root: &str) -> (file: String)
    ensures
        file@ == join(hub_root@, HOOKS_FILE@),
{
    path_join(hub_root, HOOKS_FILE)
}

/// When a hook runs, which decides what its failure means: a failed
/// pre-hook stops the operation, a failed post-hook is only reported.
#[derive(Debug, Clone, Copy, PartialEq, Eq, Structural)]
pub enum Phase {
    Pre,
    Post,
}

/// The hooks of one command, in the order in which they run.
#[derive(Debug, Clone)]
pub struct CommandHooks {
    pub pre: Vec<String>,
    pub post: Vec<String>,
}

/// The hook configuration of a hub: one section for each command that has
/// hooks.
#[derive(Debug, Clone)]
pub struct HooksConfig {
    pub create: CommandHooks,
    pub switch: CommandHooks,
    pub remove: CommandHooks,
}

impl Default for CommandHooks {
    /// No hooks.
    fn default() -> (hooks: Self)
        ensures
            hooks.pre@.len() == 0,
            hooks.post@.len() == 0,
    {
        CommandHooks { pre: Vec::new(), post: Vec::new() }
    }
}

impl Default for HooksConfig {
    /// No hooks for any command.
    fn default() -> (config: Self)
        ensures
            config.create.pre@.len() == 0,
            config.create.post@.len() == 0,
            config.switch.pre@.len() == 0,
            config.switch.post@.len() == 0,
            config.remove.pre@.len() == 0,
            config.remove.post@.len() == 0,
    {
        HooksConfig {
            create: CommandHooks { pre: Vec::new(), post: Vec::new() },
            switch: CommandHooks { pre: Vec::new(), post: Vec::new() },
            remove: CommandHooks { pre: Vec::new(), post: Vec::new() },
        }
    }
}

/// The hooks of one command as the configuration file gives them: a list
/// that the file leaves out is `None`.
#[derive(Debug, Clone)]
pub struct SectionEntries {
    pub pre: Option<Vec<String>>,
    pub post: Option<Vec<String>>,
}

/// The sections of the configuration file as the file gives them: a
/// section that the file leaves out is `None`.
#[derive(Debug, Clone)]
pub struct ConfigEntries {
    pub create: Option<SectionEntries>,
    pub switch: Option<SectionEntries>,
    pub remove: Option<SectionEntries>,
}

/// The hooks that a list of the file gives: none if the list is left out.
pub open spec fn listed_hooks(list: Option<Vec<String>>) -> Seq<Seq<char>> {
    match list {
        Some(hooks) => hooks.deep_view(),
        None => Seq::empty(),
    }
}

/// The pre-hooks that a section of the file gives: none if the section or
/// the list is left out.
pub open spec fn section_pre(section: Option<SectionEntries>) -> Seq<Seq<char>> {
    match section {
        Some(entries) => listed_hooks(entries.pre),
        None => Seq::empty(),
    }
}

/// The post-hooks that a section of the file gives: none if the section or
/// the list is left out.
pub open spec fn section_post(section: Option<SectionEntries>) -> Seq<Seq<char>> {
    match section {
        Some(entries) => listed_hooks(entries.post),
        None => Seq::empty(),
    }
}

/// The hooks that a list of the file gives.
fn hooks_of_list(list: Option<Vec<String>>) -> (hooks: Vec<String>)
    ensures
        hooks.deep_view() == listed_hooks(list),
{
    match list {
        Some(hooks) => hooks,
        None => {
            let hooks: Vec<String> = Vec::new();
            assert(hooks.deep_view() =~= Seq::<Seq<char>>::empty());
            hooks
        },
    }
}

/// The hooks of one command, from what the file gives for it.
pub fn command_hooks(section: Option<SectionEntries>) -> (hooks: CommandHooks)
    ensures
        hooks.pre.deep_view() == section_pre(section),
        hooks.post.deep_view() == section_post(section),
{
    match section {
        Some(entries) => CommandHooks {
            pre: hooks_of_list(entries.pre),
            post: hooks_of_list(entries.post),
        },
        None => CommandHooks { pre: hooks_of_list(None), post: hooks_of_list(None) },
    }
}

/// The hook configuration of a hub, from what was read of its file.
///
/// `None` for `entries` says that there is no file, or that the file is
/// not of the expected form; then there is no configuration, and no hooks
/// run. Where there is a file, a section or a list that it leaves out
/// holds no hooks.
pub fn load_hooks(entries: Option<ConfigEntries>) -> (config: Option<HooksConfig>)
    ensures
        entries is None <==> config is None,
        match (entries, config) {
            (Some(entries), Some(config)) => {
                &&& config.create.pre.deep_view() == section_pre(entries.create)
                &&& config.create.post.deep_view() == section_post(entries.create)
                &&& config.switch.pre.deep_view() == section_pre(entries.switch)
                &&& config.switch.post.deep_view() == section_post(entries.switch)
                &&& config.remove.pre.deep_view() == section_pre(entries.remove)
                &&& config.remove.post.deep_view() == section_post(entries.remove)
            },
            _ => true,
        },
{
    match entries {
        Some(entries) => Some(
            HooksConfig {
                create: command_hooks(entries.create),
                switch: command_hooks(entries.switch),
                remove: command_hooks(entries.remove),
            },
        ),
        None => None,
    }
}

impl CommandHooks {
    /// The hooks of `phase`.
    pub open spec fn of(self, phase: Phase) -> Seq<Seq<char>> {
        match phase {
            Phase::Pre => self.pre.deep_view(),
            Phase::Post => self.post.deep_view(),
        }
    }
}

/// What a hook is told of the operation that it belongs to. It is made once
/// for each operation and handed to the hooks through their environment.
#[derive(Debug, Clone)]
pub struct HookContext {
    pub command: String,
    pub worktree_name: String,
    pub worktree_path: String,
    pub hub_root: String,
    pub branch: Option<String>,
}

/// A hook context as plain text.
pub struct HookContextView {
    pub command: Seq<char>,
    pub worktree_name: Seq<char>,
    pub worktree_path: Seq<char>,
    pub hub_root: Seq<char>,
    pub branch: Option<Seq<char>>,
}

impl View for HookContext {
    type V = HookContextView;

    open spec fn view(&self) -> HookContextView {
        HookContextView {
            command: self.command@,
            worktree_name: self.worktree_name@,
            worktree_path: self.worktree_path@,
            hub_root: self.hub_root@,
            branch: self.branch.deep_view(),
        }
    }
}

impl HookContext {
    /// The context of `command` on the worktree `worktree_name`.
    pub fn new(
        command: &str,
        worktree_name: &str,
        worktree_path: &str,
        hub_root: &str,
        branch: Option<&str>,
    ) -> (context: Self)
        ensures
            context@ == (HookContextView {
                command: command@,
                worktree_name: worktree_name@,
                worktree_path: worktree_path@,
                hub_root: hub_root@,
                branch: match branch {
                    Some(name) => Some(name@),
                    None => None,
                },
            }),
    {
        HookContext {
            command: command.to_owned(),
            worktree_name: worktree_name.to_owned(),
            worktree_path: worktree_path.to_owned(),
            hub_root: hub_root.to_owned(),
            branch: match branch {
                Some(name) => Some(name.to_owned()),
                None => None,
            },
        }
    }
}

/// The failure of a hook.
#[derive(Debug)]
pub struct HookError {
    pub message: String,
}

impl HookError {
    /// An error that carries `message`.
    pub fn new(message: &str) -> (error: Self)
        ensures
            error.message@ == message@,
    {
        HookError { message: message.to_owned() }
    }

    /// The message, as it is shown to the user.
    pub fn to_string(&self) -> (text: String)
        ensures
            text@ == self.message@,
    {
        self.message.clone()
    }
}

/// The section of `config` that holds the hooks of `command`. A command
/// other than `create`, `switch` and `remove` has no section of its own and
/// is given that of `create`.
pub open spec fn selected_hooks(config: HooksConfig, command: Seq<char>) -> CommandHooks {
    if command == "switch"@ {
        config.switch
    } else if command == "remove"@ {
        config.remove
    } else {
        config.create
    }
}

/// The hooks of `command`.
pub fn get_command_hooks<'a>(config: &'a HooksConfig, command: &str) -> (hooks: &'a CommandHooks)
    ensures
        *hooks == selected_hooks(*config, command@),
{
    if same_text(command, "switch") {
        &config.switch
    } else if same_text(command, "remove") {
        &config.remove
    } else {
        &config.create
    }
}

/// The hooks that run in `phase` of the operation that `context` describes:
/// those of its command's section, or none where there is no configuration.
pub open spec fn hooks_to_run(
    config: Option<HooksConfig>,
    context: HookContextView,
    phase: Phase,
) -> Seq<Seq<char>> {
    match config {
        Some(config) => selected_hooks(config, context.command).of(phase),
        None => Seq::empty(),
    }
}

/// The variables that a hook finds in its environment: the command, the
/// worktree's name and path, the hub root, and the branch if there is one.
pub open spec fn hook_environment(context: HookContextView) -> Seq<(Seq<char>, Seq<char>)> {
    let always = seq![
        ("WT_COMMAND"@, context.command),
        ("WT_WORKTREE_NAME"@, context.worktree_name),
        ("WT_WORKTREE_PATH"@, context.worktree_path),
        ("WT_HUB_ROOT"@, context.hub_root),
    ];
    match context.branch {
        Some(branch) => always.push(("WT_BRANCH"@, branch)),
        None => always,
    }
}

/// The directory in which a hook runs. A pre-hook runs in the hub root. A
/// post-hook runs in the worktree if that exists by then, else in the hub
/// root.
pub open spec fn hook_working_dir(
    context: HookContextView,
    phase: Phase,
    worktree_exists: bool,
) -> Seq<char> {
    if phase == Phase::Post && worktree_exists {
        context.worktree_path
    } else {
        context.hub_root
    }
}

/// The command line that runs `hook`: the shell, told to run the hook's
/// text as it stands.
pub open spec fn hook_command_line(
    hook: Seq<char>,
    context: HookContextView,
    phase: Phase,
    worktree_exists: bool,
) -> CommandLineView {
    CommandLineView {
        program: "sh"@,
        args: seq!["-c"@, hook],
        working_dir: hook_working_dir(context, phase, worktree_exists),
        env: hook_environment(context),
    }
}

/// Whether the worktree must be looked for on disk before a hook of
/// `phase` is run: only a post-hook may run in it.
pub fn probes_worktree(phase: Phase) -> (probes: bool)
    ensures
        probes == (phase == Phase::Post),
{
    match phase {
        Phase::Pre => false,
        Phase::Post => true,
    }
}

/// The command line that runs `hook` for the operation that `context`
/// describes. `worktree_exists` says whether the worktree's path is on disk
/// now; it is read for a post-hook only.
pub fn hook_command(
    hook: &str,
    context: &HookContext,
    phase: Phase,
    worktree_exists: bool,
) -> (command: CommandLine)
    ensures
        command@ == hook_command_line(hook@, context@, phase, worktree_exists),
{
    let mut args: Vec<String> = Vec::new();
    args.push("-c".to_owned());
    args.push(hook.to_owned());
    assert(args.deep_view() =~= seq!["-c"@, hook@]);
    let mut env: Vec<(String, String)> = Vec::new();
    env.push(("WT_COMMAND".to_owned(), context.command.clone()));
    env.push(("WT_WORKTREE_NAME".to_owned(), context.worktree_name.clone()));
    env.push(("WT_WORKTREE_PATH".to_owned(), context.worktree_path.clone()));
    env.push(("WT_HUB_ROOT".to_owned(), context.hub_root.clone()));
    match &context.branch {
        Some(branch) => {
            env.push(("WT_BRANCH".to_owned(), branch.clone()));
        },
        None => {},
    }
    assert(env.deep_view() =~= hook_environment(context@));
    let in_worktree = match phase {
        Phase::Pre => false,
        Phase::Post => worktree_exists,
    };
    let working_dir = if in_worktree {
        context.worktree_path.clone()
    } else {
        context.hub_root.clone()
    };
    CommandLine { program: "sh".to_owned(), args, working_dir, env }
}

/// The name of `phase` in messages.
pub open spec fn phase_name(phase: Phase) -> Seq<char> {
    match phase {
        Phase::Pre => "Pre-hook"@,
        Phase::Post => "Post-hook"@,
    }
}

/// The message of the failure of `hook`, or `None` if it succeeded. A hook
/// fails if the shell cannot be started, or exits with a status other than
/// zero; the message then ends with what the hook wrote to its error
/// output, trimmed.
pub open spec fn hook_failure(
    hook: Seq<char>,
    phase: Phase,
    outcome: ProcessOutcomeView,
) -> Option<Seq<char>> {
    match outcome {
        ProcessOutcomeView::NotStarted(reason) => Some(
            "Failed to execute hook '"@ + hook + "': "@ + reason,
        ),
        ProcessOutcomeView::Exited { success, stdout, stderr } => if success {
            None
        } else {
            Some(phase_name(phase) + " '"@ + hook + "' failed: "@ + trim(stderr))
        },
    }
}

/// The result of the run of `hook` that ended with `outcome`.
pub fn hook_result(hook: &str, phase: Phase, outcome: &ProcessOutcome) -> (result: Result<
    (),
    HookError,
>)
    ensures
        match result {
            Ok(_) => hook_failure(hook@, phase, outcome@) is None,
            Err(error) => hook_failure(hook@, phase, outcome@) == Some(error.message@),
        },
{
    match outcome {
        ProcessOutcome::NotStarted(reason) => {
            let mut message = "Failed to execute hook '".to_owned();
            message.append(hook);
            message.append("': ");
            message.append(reason.as_str());
            Err(HookError { message })
        },
        ProcessOutcome::Exited { success, stdout, stderr } => {
            if *success {
                Ok(())
            } else {
                let mut message = match phase {
                    Phase::Pre => "Pre-hook".to_owned(),
                    Phase::Post => "Post-hook".to_owned(),
                };
                message.append(" '");
                message.append(hook);
                message.append("' failed: ");
                message.append(trimmed(stderr.as_str()).as_str());
                Err(HookError { message })
            }
        },
    }
}

/// The line that reports the failure of a post-hook. It is a warning: the
/// operation has succeeded.
pub fn post_hook_warning(error: &HookError) -> (line: String)
    ensures
        line@ == "Warning: post-hook failed: "@ + error.message@,
{
    let mut line = "Warning: post-hook failed: ".to_owned();
    line.append(error.message.as_str());
    line
}

} // verus!
