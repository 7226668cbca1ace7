use wtree::hooks::{
    command_hooks, get_command_hooks, hook_command, hook_result, load_hooks, post_hook_warning,
    probes_worktree, CommandHooks, ConfigEntries, HookContext, HookError, HooksConfig, Phase,
    SectionEntries,
};
use wtree::lifecycle::{Action, Lifecycle, Outcome};
use wtree::process::ProcessOutcome;

fn hooks_of(pre: &[&str], post: &[&str]) -> CommandHooks {
    CommandHooks {
        pre: pre.iter().map(|hook| hook.to_string()).collect(),
        post: post.iter().map(|hook| hook.to_string()).collect(),
    }
}

/// Stands for the shell: `true` succeeds, everything else fails and writes
/// a line to its error output.
fn fake_shell(hook: &str) -> ProcessOutcome {
    ProcessOutcome::Exited {
        success: hook == "true",
        stdout: String::new(),
        stderr: if hook == "true" {
            String::new()
        } else {
            format!("  {}: failed\n", hook)
        },
    }
}

/// Runs the pre-hooks of an operation against the fake shell, up to the
/// point where the command would be carried out.
fn run_pre_hooks_with_fake_shell(
    config: &Option<HooksConfig>,
    context: &HookContext,
) -> Result<(), HookError> {
    let mut lifecycle = Lifecycle::begin(config, context);
    loop {
        let outcome = match lifecycle.action() {
            Action::RunHook { phase, hook } => {
                assert_eq!(phase, Phase::Pre);
                fake_shell(hook)
            }
            Action::RunCommand => return Ok(()),
            Action::Finish(_) => break,
        };
        lifecycle = lifecycle.hook_exited(&outcome);
    }
    match lifecycle.into_outcome() {
        Some(Outcome::Aborted(error)) => Err(error),
        other => panic!("unexpected end: {:?}", other),
    }
}

/// The list `name` of a section: `None` if it is left out; fails if it is
/// no list of texts.
fn list_entry(section: &toml::Table, name: &str) -> Result<Option<Vec<String>>, String> {
    match section.get(name) {
        None => Ok(None),
        Some(value) => {
            let items = value.as_array().ok_or("not an array")?;
            let mut hooks = Vec::new();
            for item in items {
                hooks.push(item.as_str().ok_or("not a string")?.to_string());
            }
            Ok(Some(hooks))
        }
    }
}

/// The section `name` of a document: `None` if it is left out; fails if
/// it is no table.
fn section_entry(document: &toml::Table, name: &str) -> Result<Option<SectionEntries>, String> {
    match document.get(name) {
        None => Ok(None),
        Some(value) => {
            let section = value.as_table().ok_or("not a table")?;
            Ok(Some(SectionEntries {
                pre: list_entry(section, "pre")?,
                post: list_entry(section, "post")?,
            }))
        }
    }
}

/// What a configuration file with this content gives.
fn entries_of(content: &str) -> Result<ConfigEntries, String> {
    let document: toml::Table = toml::from_str(content).map_err(|error| error.to_string())?;
    Ok(ConfigEntries {
        create: section_entry(&document, "create")?,
        switch: section_entry(&document, "switch")?,
        remove: section_entry(&document, "remove")?,
    })
}

fn config_of(content: &str) -> HooksConfig {
    load_hooks(Some(entries_of(content).unwrap())).unwrap()
}

fn context_for_create() -> HookContext {
    HookContext::new("create", "test", "/tmp", "/tmp", None)
}

#[test]
fn test_hook_context_new() {
    let context = HookContext::new(
        "create",
        "feature-branch",
        "/home/user/project/feature-branch",
        "/home/user/project",
        Some("main"),
    );

    assert_eq!(context.command, "create");
    assert_eq!(context.worktree_name, "feature-branch");
    assert_eq!(context.worktree_path, "/home/user/project/feature-branch");
    assert_eq!(context.hub_root, "/home/user/project");
    assert_eq!(context.branch, Some("main".to_string()));
}

#[test]
fn test_hook_context_without_branch() {
    let context = HookContext::new(
        "switch",
        "feature-branch",
        "/home/user/project/feature-branch",
        "/home/user/project",
        None,
    );

    assert_eq!(context.command, "switch");
    assert!(context.branch.is_none());
}

#[test]
fn test_parse_empty_config() {
    let config = config_of("");
    assert!(config.create.pre.is_empty());
    assert!(config.create.post.is_empty());
    assert!(config.switch.pre.is_empty());
    assert!(config.switch.post.is_empty());
    assert!(config.remove.pre.is_empty());
    assert!(config.remove.post.is_empty());
}

#[test]
fn test_parse_full_config() {
    let toml_str = r#"
[create]
pre = ["echo 'Creating...'"]
post = ["npm install", "cp ../.env .env"]

[switch]
pre = []
post = ["npm install"]

[remove]
pre = ["echo 'Cleaning up...'"]
post = []
"#;
    let config = config_of(toml_str);

    assert_eq!(config.create.pre, vec!["echo 'Creating...'"]);
    assert_eq!(config.create.post, vec!["npm install", "cp ../.env .env"]);
    assert!(config.switch.pre.is_empty());
    assert_eq!(config.switch.post, vec!["npm install"]);
    assert_eq!(config.remove.pre, vec!["echo 'Cleaning up...'"]);
    assert!(config.remove.post.is_empty());
}

#[test]
fn test_parse_partial_config() {
    let toml_str = r#"
[create]
post = ["npm install"]
"#;
    let config = config_of(toml_str);

    assert!(config.create.pre.is_empty());
    assert_eq!(config.create.post, vec!["npm install"]);
    assert!(config.switch.pre.is_empty());
    assert!(config.switch.post.is_empty());
}

#[test]
fn test_load_hooks_missing_file() {
    let result = load_hooks(None);
    assert!(result.is_none());
}

#[test]
fn test_load_hooks_passes_over_unknown_entries() {
    let config = config_of("name = \"x\"\n[create]\npre = [\"a\"]\nother = 1\n[extra]\npre = [\"b\"]\n");
    assert_eq!(config.create.pre, vec!["a"]);
    assert!(config.create.post.is_empty());
    assert!(config.switch.pre.is_empty());
    assert!(config.remove.pre.is_empty());
}

#[test]
fn test_command_hooks_of_missing_parts() {
    let none = command_hooks(None);
    assert!(none.pre.is_empty() && none.post.is_empty());
    let half = command_hooks(Some(SectionEntries {
        pre: None,
        post: Some(vec!["x".to_string()]),
    }));
    assert!(half.pre.is_empty());
    assert_eq!(half.post, vec!["x"]);
}

#[test]
fn test_get_command_hooks() {
    let toml_str = r#"
[create]
pre = ["create-pre"]

[switch]
pre = ["switch-pre"]

[remove]
pre = ["remove-pre"]
"#;
    let config = config_of(toml_str);

    assert_eq!(get_command_hooks(&config, "create").pre, vec!["create-pre"]);
    assert_eq!(get_command_hooks(&config, "switch").pre, vec!["switch-pre"]);
    assert_eq!(get_command_hooks(&config, "remove").pre, vec!["remove-pre"]);
}

#[test]
fn test_get_command_hooks_of_unknown_command() {
    let config = HooksConfig {
        create: hooks_of(&["create-pre"], &["create-post"]),
        switch: hooks_of(&["switch-pre"], &[]),
        remove: hooks_of(&["remove-pre"], &[]),
    };
    assert_eq!(get_command_hooks(&config, "list").pre, vec!["create-pre"]);
    assert_eq!(get_command_hooks(&config, "").post, vec!["create-post"]);
    assert_eq!(get_command_hooks(&config, "Switch").pre, vec!["create-pre"]);
}

#[test]
fn test_default_config_has_no_hooks() {
    let config = HooksConfig::default();
    assert!(config.create.pre.is_empty());
    assert!(config.create.post.is_empty());
    assert!(config.switch.pre.is_empty());
    assert!(config.switch.post.is_empty());
    assert!(config.remove.pre.is_empty());
    assert!(config.remove.post.is_empty());
    let hooks = CommandHooks::default();
    assert!(hooks.pre.is_empty());
    assert!(hooks.post.is_empty());
}

#[test]
fn test_run_hooks_success() {
    let config = Some(HooksConfig {
        create: hooks_of(&["true"], &[]),
        ..HooksConfig::default()
    });
    let result = run_pre_hooks_with_fake_shell(&config, &context_for_create());
    assert!(result.is_ok());
}

#[test]
fn test_run_hooks_failure() {
    let config = Some(HooksConfig {
        create: hooks_of(&["false"], &[]),
        ..HooksConfig::default()
    });
    let result = run_pre_hooks_with_fake_shell(&config, &context_for_create());
    assert!(result.is_err());
}

#[test]
fn test_run_hooks_empty() {
    let config = Some(HooksConfig::default());
    let result = run_pre_hooks_with_fake_shell(&config, &context_for_create());
    assert!(result.is_ok());
}

#[test]
fn test_run_pre_hooks_no_config() {
    let result = run_pre_hooks_with_fake_shell(&None, &context_for_create());
    assert!(result.is_ok());
}

#[test]
fn test_run_hooks_stops_at_first_failure() {
    let config = Some(HooksConfig {
        create: hooks_of(&["true", "first", "second"], &[]),
        ..HooksConfig::default()
    });
    let error = run_pre_hooks_with_fake_shell(&config, &context_for_create()).unwrap_err();
    assert_eq!(error.message, "Pre-hook 'first' failed: first: failed");
}

#[test]
fn test_hook_error_display() {
    let error = HookError::new("test error");
    assert_eq!(error.to_string(), "test error");
}

#[test]
fn test_hook_command_of_pre_hook() {
    let context = HookContext::new("create", "topic", "/r/topic", "/r", Some("main"));
    let command = hook_command("echo $WT_BRANCH | cat", &context, Phase::Pre, true);
    assert_eq!(command.program, "sh");
    assert_eq!(command.args, vec!["-c", "echo $WT_BRANCH | cat"]);
    assert_eq!(command.working_dir, "/r");
    assert_eq!(
        command.env,
        vec![
            ("WT_COMMAND".to_string(), "create".to_string()),
            ("WT_WORKTREE_NAME".to_string(), "topic".to_string()),
            ("WT_WORKTREE_PATH".to_string(), "/r/topic".to_string()),
            ("WT_HUB_ROOT".to_string(), "/r".to_string()),
            ("WT_BRANCH".to_string(), "main".to_string()),
        ]
    );
}

#[test]
fn test_hook_command_of_post_hook() {
    let context = HookContext::new("remove", "topic", "/r/topic", "/r", None);

    let there = hook_command("ls", &context, Phase::Post, true);
    assert_eq!(there.working_dir, "/r/topic");

    let gone = hook_command("ls", &context, Phase::Post, false);
    assert_eq!(gone.working_dir, "/r");

    assert_eq!(
        gone.env,
        vec![
            ("WT_COMMAND".to_string(), "remove".to_string()),
            ("WT_WORKTREE_NAME".to_string(), "topic".to_string()),
            ("WT_WORKTREE_PATH".to_string(), "/r/topic".to_string()),
            ("WT_HUB_ROOT".to_string(), "/r".to_string()),
        ]
    );
    assert!(probes_worktree(Phase::Post));
    assert!(!probes_worktree(Phase::Pre));
}

#[test]
fn test_hook_result_of_each_outcome() {
    let ok = ProcessOutcome::Exited {
        success: true,
        stdout: "out".to_string(),
        stderr: "noise".to_string(),
    };
    assert!(hook_result("make", Phase::Pre, &ok).is_ok());

    let failed = ProcessOutcome::Exited {
        success: false,
        stdout: String::new(),
        stderr: "  no rule\n".to_string(),
    };
    assert_eq!(
        hook_result("make", Phase::Pre, &failed).unwrap_err().message,
        "Pre-hook 'make' failed: no rule"
    );
    assert_eq!(
        hook_result("make", Phase::Post, &failed).unwrap_err().message,
        "Post-hook 'make' failed: no rule"
    );

    let missing = ProcessOutcome::NotStarted("No such file or directory".to_string());
    assert_eq!(
        hook_result("make", Phase::Post, &missing).unwrap_err().message,
        "Failed to execute hook 'make': No such file or directory"
    );
}

#[test]
fn test_post_hook_warning() {
    let error = HookError::new("Post-hook 'x' failed: y");
    assert_eq!(
        post_hook_warning(&error),
        "Warning: post-hook failed: Post-hook 'x' failed: y"
    );
}

#[test]
fn test_hooks_path() {
    assert_eq!(wtree::hooks::HOOKS_FILE, ".wtree/hooks.toml");
    assert_eq!(wtree::hooks::hooks_path("/r"), "/r/.wtree/hooks.toml");
}
