use wtree::commands::clone::{
    already_exists, clone_args, clone_failed, clone_report, cloning_line, config_warning,
    default_worktree_args, extract_repo_name, fetch_config_args, fetch_warning,
    get_default_branch, get_global_default_hooks_path, head_ref_args, hooks_file_content,
    GIT_FILE_CONTENT, HOOKS_TEMPLATE,
};
use wtree::process::ProcessOutcome;

fn clone_exited(success: bool, stdout: &str, stderr: &str) -> ProcessOutcome {
    ProcessOutcome::Exited {
        success,
        stdout: stdout.to_string(),
        stderr: stderr.to_string(),
    }
}

#[test]
fn test_extract_repo_name_https() {
    assert_eq!(
        extract_repo_name("https://github.com/user/my-repo.git").unwrap(),
        "my-repo"
    );
}

#[test]
fn test_extract_repo_name_https_no_git() {
    assert_eq!(
        extract_repo_name("https://github.com/user/my-repo").unwrap(),
        "my-repo"
    );
}

#[test]
fn test_extract_repo_name_ssh() {
    assert_eq!(
        extract_repo_name("git@github.com:user/my-repo.git").unwrap(),
        "my-repo"
    );
}

#[test]
fn test_extract_repo_name_trailing_slash() {
    assert_eq!(
        extract_repo_name("https://github.com/user/my-repo/").unwrap(),
        "my-repo"
    );
}

#[test]
fn test_extract_repo_name_ssh_no_git_suffix() {
    assert_eq!(
        extract_repo_name("git@github.com:user/my-repo").unwrap(),
        "my-repo"
    );
}

#[test]
fn test_extract_repo_name_gitlab() {
    assert_eq!(
        extract_repo_name("https://gitlab.com/user/project.git").unwrap(),
        "project"
    );
}

#[test]
fn test_extract_repo_name_bitbucket() {
    assert_eq!(
        extract_repo_name("git@bitbucket.org:team/repository.git").unwrap(),
        "repository"
    );
}

#[test]
fn test_extract_repo_name_self_hosted() {
    assert_eq!(
        extract_repo_name("https://git.company.com/team/internal-tool.git").unwrap(),
        "internal-tool"
    );
}

#[test]
fn test_extract_repo_name_with_dashes_and_underscores() {
    assert_eq!(
        extract_repo_name("https://github.com/user/my_awesome-repo.git").unwrap(),
        "my_awesome-repo"
    );
}

#[test]
fn test_extract_repo_name_nested_path() {
    assert_eq!(
        extract_repo_name("https://gitlab.com/group/subgroup/project.git").unwrap(),
        "project"
    );
}

#[test]
fn test_extract_repo_name_multiple_trailing_slashes() {
    assert_eq!(
        extract_repo_name("https://github.com/user/repo///").unwrap(),
        "repo"
    );
}

#[test]
fn test_extract_repo_name_only_git_suffix() {
    // URL ending with just ".git" should fail
    let result = extract_repo_name("https://github.com/.git");
    assert!(result.is_err());
}

#[test]
fn test_extract_repo_name_empty_string() {
    let result = extract_repo_name("");
    assert!(result.is_err());
}

#[test]
fn test_extract_repo_name_only_slashes() {
    let result = extract_repo_name("///");
    assert!(result.is_err());
}

#[test]
fn test_extract_repo_name_error_message() {
    let error = extract_repo_name("///").unwrap_err();
    assert_eq!(error.message, "Cannot extract repository name from URL");
}

#[test]
fn test_extract_repo_name_without_separator() {
    assert_eq!(extract_repo_name("host:repo.git").unwrap(), "host:repo");
    assert_eq!(extract_repo_name("repo").unwrap(), "repo");
    assert_eq!(extract_repo_name("a/.git.git").unwrap(), ".git");
}

#[test]
fn test_get_global_default_hooks_path() {
    let path = get_global_default_hooks_path(Some("/home/testuser"));
    assert!(path.is_some());
    assert_eq!(
        path.unwrap().as_str(),
        "/home/testuser/.wtree/default-hooks.toml"
    );
}

#[test]
fn test_get_global_default_hooks_path_without_home() {
    assert_eq!(get_global_default_hooks_path(None), None);
}

#[test]
fn test_get_default_branch_from_head_ref() {
    assert_eq!(
        get_default_branch(&clone_exited(true, "refs/heads/main\n", "")),
        Some("main".to_string())
    );
    assert_eq!(
        get_default_branch(&clone_exited(true, "  refs/heads/feature/x  \n", "")),
        Some("feature/x".to_string())
    );
}

#[test]
fn test_get_default_branch_absent() {
    assert_eq!(get_default_branch(&clone_exited(true, "refs/tags/v1\n", "")), None);
    assert_eq!(
        get_default_branch(&clone_exited(false, "refs/heads/main\n", "fatal")),
        None
    );
    assert_eq!(
        get_default_branch(&ProcessOutcome::NotStarted("no git".to_string())),
        None
    );
}

#[test]
fn test_hooks_file_content_prefers_own_default() {
    assert_eq!(
        hooks_file_content(Some("[create]\n".to_string())),
        "[create]\n"
    );
    assert_eq!(hooks_file_content(None), HOOKS_TEMPLATE);
}

#[test]
fn test_hooks_template_names_each_section() {
    assert!(HOOKS_TEMPLATE.starts_with("# wtree hooks configuration\n"));
    assert!(HOOKS_TEMPLATE.contains("\n[create]\n"));
    assert!(HOOKS_TEMPLATE.contains("\n[switch]\n"));
    assert!(HOOKS_TEMPLATE.contains("\n[remove]\n"));
    assert_eq!(GIT_FILE_CONTENT, "gitdir: ./.bare\n");
}

#[test]
fn test_clone_git_arguments() {
    assert_eq!(
        clone_args("https://h/u/r.git", "/w/r/.bare"),
        vec!["clone", "--bare", "https://h/u/r.git", "/w/r/.bare"]
    );
    assert_eq!(
        fetch_config_args(),
        vec![
            "config",
            "remote.origin.fetch",
            "+refs/heads/*:refs/remotes/origin/*"
        ]
    );
    assert_eq!(head_ref_args(), vec!["symbolic-ref", "HEAD"]);
    assert_eq!(
        default_worktree_args("main"),
        vec!["worktree", "add", "main", "main"]
    );
}

#[test]
fn test_clone_messages() {
    assert_eq!(
        already_exists("repo").message,
        "Directory 'repo' already exists"
    );
    assert_eq!(clone_failed().message, "Failed to clone repository");
    assert_eq!(
        cloning_line("https://h/u/repo.git", "repo", false),
        Some("Cloning https://h/u/repo.git into repo/".to_string())
    );
    assert_eq!(cloning_line("https://h/u/repo.git", "repo", true), None);
}

#[test]
fn test_clone_warnings() {
    assert_eq!(
        config_warning("File exists (os error 17)", false),
        Some("Warning: Failed to create .wtree config: File exists (os error 17)".to_string())
    );
    assert_eq!(config_warning("File exists (os error 17)", true), None);
    assert_eq!(
        fetch_warning(false, false),
        Some("Warning: Failed to configure fetch refspec".to_string())
    );
    assert_eq!(fetch_warning(false, true), None);
    assert_eq!(fetch_warning(true, false), None);
    assert_eq!(fetch_warning(true, true), None);
}

#[test]
fn test_clone_report_with_worktree() {
    let report = clone_report("repo", "/w/repo", Some("main"), true, false);
    assert_eq!(
        report.output,
        vec![
            "Created bare repository at repo/",
            "Created worktree 'main' at repo/main/",
            "Use 'cd repo/main' to start working"
        ]
    );
    assert!(report.warnings.is_empty());

    let report = clone_report("repo", "/w/repo", Some("main"), true, true);
    assert_eq!(report.output, vec!["/w/repo/main"]);
    assert!(report.warnings.is_empty());
}

#[test]
fn test_clone_report_without_worktree() {
    let report = clone_report("repo", "/w/repo", Some("main"), false, false);
    assert_eq!(
        report.output,
        vec![
            "Created bare repository at repo/",
            "Use 'cd repo' then 'wt create <name>' to create a worktree"
        ]
    );
    assert_eq!(
        report.warnings,
        vec!["Warning: Failed to create default branch worktree"]
    );

    let report = clone_report("repo", "/w/repo", None, false, false);
    assert_eq!(
        report.output,
        vec![
            "Created bare repository at repo/",
            "Use 'cd repo' then 'wt create <name>' to create a worktree"
        ]
    );
    assert!(report.warnings.is_empty());

    let report = clone_report("repo", "/w/repo", Some("main"), false, true);
    assert_eq!(report.output, vec!["/w/repo"]);
    assert!(report.warnings.is_empty());

    let report = clone_report("repo", "/w/repo", None, false, true);
    assert_eq!(report.output, vec!["/w/repo"]);
    assert!(report.warnings.is_empty());
}

/// Every text of up to `max` characters over `alphabet`.
fn urls_over(alphabet: &[char], max: usize) -> Vec<String> {
    let mut all = vec![String::new()];
    let mut last = vec![String::new()];
    for _ in 0..max {
        let mut next = Vec::new();
        for text in &last {
            for c in alphabet {
                let mut longer = text.clone();
                longer.push(*c);
                next.push(longer);
            }
        }
        all.extend(next.iter().cloned());
        last = next;
    }
    all
}

#[test]
fn test_extract_repo_name_on_every_short_url() {
    for url in urls_over(&['/', ':', '.', 'g', 'i', 't', 'a'], 6) {
        let address = url.trim_end_matches('/');
        let last = address.rsplit('/').next().unwrap_or(address);
        let name = last.strip_suffix(".git").unwrap_or(last);
        let expected = if name.is_empty() {
            None
        } else {
            Some(name.to_string())
        };
        assert_eq!(
            extract_repo_name(&url).ok(),
            expected,
            "repository name of {:?}",
            url
        );
    }
}
