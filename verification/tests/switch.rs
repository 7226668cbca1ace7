use wtree::commands::switch::{
    previous_to_save, resolve_switch_target, should_copy_env_file, switch_context, wants_previous,
};
use wtree::git::parse_worktree_list;
use wtree::state::{read_previous_worktree, StateFile};

#[test]
fn test_should_copy_env_file_basic() {
    assert!(should_copy_env_file(".env"));
}

#[test]
fn test_should_copy_env_file_local() {
    assert!(should_copy_env_file(".env.local"));
}

#[test]
fn test_should_copy_env_file_production() {
    assert!(should_copy_env_file(".env.production"));
}

#[test]
fn test_should_copy_env_file_development() {
    assert!(should_copy_env_file(".env.development"));
}

#[test]
fn test_should_copy_env_file_with_suffix() {
    assert!(should_copy_env_file(".env.staging"));
    assert!(should_copy_env_file(".env.test"));
    assert!(should_copy_env_file(".env.local.backup"));
}

#[test]
fn test_should_not_copy_env_example() {
    assert!(!should_copy_env_file(".env.example"));
}

#[test]
fn test_should_not_copy_non_env_files() {
    assert!(!should_copy_env_file("env"));
    assert!(!should_copy_env_file("config.env"));
}

#[test]
fn test_should_copy_env_prefixed_files() {
    // Files starting with ".env" are copied (current behavior)
    assert!(should_copy_env_file(".environment"));
    assert!(should_copy_env_file(".envrc"));
}

#[test]
fn test_should_not_copy_hidden_files() {
    assert!(!should_copy_env_file(".gitignore"));
    assert!(!should_copy_env_file(".dockerignore"));
}

#[test]
fn test_should_not_copy_empty_string() {
    assert!(!should_copy_env_file(""));
}

#[test]
fn test_switch_back_without_state_file_fails() {
    assert!(wants_previous("-"));
    let previous = read_previous_worktree(&StateFile::Missing).unwrap();
    let error = resolve_switch_target("-", previous).unwrap_err();
    assert_eq!(
        error.message,
        "No previous worktree. Use 'wt switch <name>' first."
    );
}

#[test]
fn test_switch_back_to_recorded_worktree() {
    let previous =
        read_previous_worktree(&StateFile::Content("previous=main\n".to_string())).unwrap();
    assert_eq!(resolve_switch_target("-", previous).unwrap(), "main");
}

#[test]
fn test_switch_to_named_worktree_ignores_state() {
    assert!(!wants_previous("feature"));
    assert!(!wants_previous("--"));
    assert_eq!(
        resolve_switch_target("feature", Some("main".to_string())).unwrap(),
        "feature"
    );
    assert_eq!(resolve_switch_target("feature", None).unwrap(), "feature");
}

#[test]
fn test_switch_context_of_known_worktree() {
    let worktrees = parse_worktree_list(
        "worktree /r/.bare\nbare\n\nworktree /r/main\nHEAD abc123\nbranch refs/heads/main\n",
    );
    let context = switch_context(&worktrees, "/r", "main").unwrap();
    assert_eq!(context.command, "switch");
    assert_eq!(context.worktree_name, "main");
    assert_eq!(context.worktree_path, "/r/main");
    assert_eq!(context.hub_root, "/r");
    assert_eq!(context.branch, None);
}

#[test]
fn test_switch_context_of_unknown_worktree() {
    let worktrees = parse_worktree_list(
        "worktree /r/.bare\nbare\n\nworktree /r/main\nHEAD abc123\nbranch refs/heads/main\n",
    );
    let error = switch_context(&worktrees, "/r", "other").unwrap_err();
    assert_eq!(
        error.message,
        "Worktree 'other' not found. Use 'wt list' to see available worktrees."
    );
}

#[test]
fn test_switch_never_targets_the_bare_entry() {
    let worktrees = parse_worktree_list(
        "worktree /r/.bare\nbare\n\nworktree /r/main\nHEAD abc123\nbranch refs/heads/main\n",
    );
    assert!(switch_context(&worktrees, "/r", ".bare").is_err());
}

#[test]
fn test_previous_to_save() {
    assert_eq!(
        previous_to_save(Some("main"), "feature"),
        Some("main".to_string())
    );
    assert_eq!(previous_to_save(Some("main"), "main"), None);
    assert_eq!(previous_to_save(None, "main"), None);
}
