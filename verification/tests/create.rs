use wtree::commands::create::{
    create_args, create_context, created_lines, previous_to_save, resolve_base,
};
use wtree::git::parse_worktree_list;

#[test]
fn test_create_context_branch() {
    let plain = create_context("/r", "topic", None, None);
    assert_eq!(plain.command, "create");
    assert_eq!(plain.worktree_name, "topic");
    assert_eq!(plain.worktree_path, "/r/topic");
    assert_eq!(plain.hub_root, "/r");
    assert_eq!(plain.branch, None);

    let checkout = create_context("/r", "topic", Some("release"), None);
    assert_eq!(checkout.branch, Some("release".to_string()));

    let based = create_context("/r", "topic", None, Some("main"));
    assert_eq!(based.branch, Some("topic".to_string()));

    let both = create_context("/r", "topic", Some("release"), Some("main"));
    assert_eq!(both.branch, Some("release".to_string()));
}

#[test]
fn test_create_args() {
    assert_eq!(
        create_args("topic", None, None),
        vec!["worktree", "add", "topic"]
    );
    assert_eq!(
        create_args("topic", Some("release"), None),
        vec!["worktree", "add", "topic", "release"]
    );
    assert_eq!(
        create_args("topic", None, Some("abc123")),
        vec!["worktree", "add", "-b", "topic", "topic", "abc123"]
    );
    assert_eq!(
        create_args("topic", Some("release"), Some("abc123")),
        vec!["worktree", "add", "topic", "release"]
    );
}

#[test]
fn test_resolve_base() {
    let worktrees = parse_worktree_list(
        "worktree /r/.bare\nbare\n\nworktree /r/main\nHEAD abc123\nbranch refs/heads/main\n",
    );
    assert_eq!(resolve_base(&worktrees, "main").unwrap(), "abc123");
    assert_eq!(
        resolve_base(&worktrees, "other").unwrap_err().message,
        "Worktree 'other' not found"
    );
    assert_eq!(
        resolve_base(&worktrees, ".bare").unwrap_err().message,
        "Worktree '.bare' not found"
    );
}

#[test]
fn test_created_lines() {
    assert_eq!(
        created_lines("topic", "/r/topic", None, None, false),
        vec!["Created worktree 'topic' at /r/topic"]
    );
    assert_eq!(
        created_lines("topic", "/r/topic", Some("release"), None, false),
        vec![
            "Created worktree 'topic' at /r/topic",
            "Checked out branch: release"
        ]
    );
    assert_eq!(
        created_lines("topic", "/r/topic", None, Some("main"), false),
        vec![
            "Created worktree 'topic' at /r/topic",
            "Branched from worktree: main"
        ]
    );
    assert_eq!(
        created_lines("topic", "/r/topic", Some("release"), Some("main"), true),
        vec!["/r/topic"]
    );
}

#[test]
fn test_previous_to_save_on_create() {
    assert_eq!(previous_to_save(true, Some("main")), Some("main".to_string()));
    assert_eq!(previous_to_save(false, Some("main")), None);
    assert_eq!(previous_to_save(true, None), None);
    assert_eq!(previous_to_save(false, None), None);
}
