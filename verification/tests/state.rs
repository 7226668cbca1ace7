use wtree::state::{
    read_previous_worktree, save_failure, save_previous_worktree, state_dir, state_path, SaveStep,
    StateFile, STATE_DIR, STATE_FILE,
};

fn state_with(content: &str) -> StateFile {
    StateFile::Content(content.to_string())
}

fn previous_in(content: &str) -> Option<String> {
    read_previous_worktree(&state_with(content)).unwrap()
}

#[test]
fn test_read_previous_worktree_no_state_file() {
    let result = read_previous_worktree(&StateFile::Missing).unwrap();
    assert!(result.is_none());
}

#[test]
fn test_read_previous_worktree_with_value() {
    let result = read_previous_worktree(&state_with("previous=main\n")).unwrap();
    assert_eq!(result, Some("main".to_string()));
}

#[test]
fn test_read_previous_worktree_empty_value() {
    let result = read_previous_worktree(&state_with("previous=\n")).unwrap();
    assert!(result.is_none());
}

#[test]
fn test_read_previous_worktree_whitespace_value() {
    let result = read_previous_worktree(&state_with("previous=   \n")).unwrap();
    assert!(result.is_none());
}

#[test]
fn test_read_previous_worktree_no_previous_line() {
    let result = read_previous_worktree(&state_with("other=value\n")).unwrap();
    assert!(result.is_none());
}

#[test]
fn test_save_previous_worktree() {
    let content = save_previous_worktree("feature");
    assert_eq!(content, "previous=feature\n");
}

#[test]
fn test_save_previous_worktree_overwrites() {
    // What is written replaces the file: nothing of an older state is kept.
    let old = save_previous_worktree("old");
    assert_eq!(old, "previous=old\n");
    let content = save_previous_worktree("new");
    assert_eq!(content, "previous=new\n");
}

#[test]
fn test_roundtrip() {
    let content = save_previous_worktree("my-worktree");
    let result = read_previous_worktree(&StateFile::Content(content)).unwrap();

    assert_eq!(result, Some("my-worktree".to_string()));
}

#[test]
fn test_read_previous_worktree_without_final_newline() {
    assert_eq!(previous_in("previous=   "), None);
    assert_eq!(
        previous_in("previous=main"),
        Some("main".to_string())
    );
    assert_eq!(previous_in(""), None);
}

#[test]
fn test_read_previous_worktree_trims_value() {
    assert_eq!(
        previous_in("previous=  main \t\r\n"),
        Some("main".to_string())
    );
    assert_eq!(
        previous_in("previous=\u{3000}main\u{a0}\n"),
        Some("main".to_string())
    );
}

#[test]
fn test_read_previous_worktree_takes_first_line_with_a_name() {
    let content = "# state\nprevious=\nprevious= \nprevious=first\nprevious=second\n";
    assert_eq!(
        previous_in(content),
        Some("first".to_string())
    );
}

#[test]
fn test_read_previous_worktree_wants_the_key_at_line_start() {
    assert_eq!(previous_in(" previous=main\n"), None);
    assert_eq!(previous_in("Previous=main\n"), None);
    assert_eq!(
        previous_in("previous=a=b\n"),
        Some("a=b".to_string())
    );
}

#[test]
fn test_roundtrip_loses_outer_white_space() {
    // A name with white space at its ends does not come back as it was.
    let content = save_previous_worktree(" a");
    assert_eq!(content, "previous= a\n");
    assert_eq!(
        previous_in(content.as_str()),
        Some("a".to_string())
    );
}

#[test]
fn test_state_paths() {
    assert_eq!(STATE_DIR, ".wtree");
    assert_eq!(STATE_FILE, ".wtree/state");
    assert_eq!(state_dir("/r"), "/r/.wtree");
    assert_eq!(state_path("/r"), "/r/.wtree/state");
    assert_eq!(state_path("/r/"), "/r/.wtree/state");
}

#[test]
fn test_read_previous_worktree_unreadable_state_file() {
    let state = StateFile::Unreadable("Permission denied (os error 13)".to_string());
    assert_eq!(
        read_previous_worktree(&state).unwrap_err().message,
        "Failed to read state file: Permission denied (os error 13)"
    );
}

#[test]
fn test_save_failure_names_the_step() {
    assert_eq!(
        save_failure(SaveStep::CreateDirectory, "Read-only file system").message,
        "Failed to create state directory: Read-only file system"
    );
    assert_eq!(
        save_failure(SaveStep::WriteFile, "No space left on device").message,
        "Failed to write state file: No space left on device"
    );
}
