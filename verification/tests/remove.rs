use wtree::commands::remove::{
    format_error_line, format_error_summary, format_failure_block, record_removal, remove_args,
    remove_context, removal_result, Failures,
};
use wtree::git::GitError;
use wtree::hooks::HookError;
use wtree::lifecycle::Outcome;

#[test]
fn test_format_error_summary_single() {
    let result = format_error_summary(1);
    assert_eq!(result, "1 worktree(s) could not be removed");
}

#[test]
fn test_format_error_summary_multiple() {
    let result = format_error_summary(3);
    assert_eq!(result, "3 worktree(s) could not be removed");
}

#[test]
fn test_format_error_line() {
    let result = format_error_line("my-worktree", "fatal: not a working tree");
    assert_eq!(result, "  - 'my-worktree': fatal: not a working tree");
}

#[test]
fn test_format_error_line_with_special_chars() {
    let result = format_error_line("feature/test-123", "some error message");
    assert_eq!(result, "  - 'feature/test-123': some error message");
}

#[test]
fn test_format_error_line_empty_name() {
    let result = format_error_line("", "error");
    assert_eq!(result, "  - '': error");
}

#[test]
fn test_format_error_summary_counts_in_decimal() {
    assert_eq!(
        format_error_summary(0),
        "0 worktree(s) could not be removed"
    );
    assert_eq!(
        format_error_summary(10),
        "10 worktree(s) could not be removed"
    );
    assert_eq!(
        format_error_summary(1234567890),
        "1234567890 worktree(s) could not be removed"
    );
    assert_eq!(
        format_error_summary(usize::MAX),
        format!("{} worktree(s) could not be removed", usize::MAX)
    );
}

#[test]
fn test_remove_args_and_context() {
    assert_eq!(remove_args("old"), vec!["worktree", "remove", "old"]);
    let context = remove_context("/r", "old");
    assert_eq!(context.command, "remove");
    assert_eq!(context.worktree_name, "old");
    assert_eq!(context.worktree_path, "/r/old");
    assert_eq!(context.hub_root, "/r");
    assert_eq!(context.branch, None);
}

#[test]
fn test_removal_of_two_where_the_second_fails() {
    let mut failures: Failures = Vec::new();

    let first = record_removal(
        &mut failures,
        "a",
        &Outcome::Completed { warning: None },
    );
    assert_eq!(first, Some("Removed worktree 'a'".to_string()));

    let second = record_removal(
        &mut failures,
        "b",
        &Outcome::Failed(GitError::new("fatal: 'b' is not a working tree")),
    );
    assert_eq!(second, None);

    assert_eq!(
        format_failure_block(&failures),
        vec![
            "",
            "Failed to remove 1 worktree(s):",
            "  - 'b': fatal: 'b' is not a working tree"
        ]
    );
    assert_eq!(
        removal_result(&failures),
        Err("1 worktree(s) could not be removed".to_string())
    );
}

#[test]
fn test_removal_aborted_by_pre_hook_is_a_failure() {
    let mut failures: Failures = Vec::new();
    let line = record_removal(
        &mut failures,
        "a",
        &Outcome::Aborted(HookError::new("Pre-hook 'false' failed: ")),
    );
    assert_eq!(line, None);
    assert_eq!(
        failures,
        vec![("a".to_string(), "Pre-hook 'false' failed: ".to_string())]
    );
}

#[test]
fn test_removal_with_post_hook_warning_is_a_success() {
    let mut failures: Failures = Vec::new();
    let line = record_removal(
        &mut failures,
        "a",
        &Outcome::Completed {
            warning: Some(HookError::new("Post-hook 'false' failed: ")),
        },
    );
    assert_eq!(line, Some("Removed worktree 'a'".to_string()));
    assert!(failures.is_empty());
    assert_eq!(removal_result(&failures), Ok(()));
    assert!(format_failure_block(&failures).is_empty());
}
