//! `wt clone`: sets up a hub from a remote repository: the bare repository
//! in `.bare`, the file that points at it, the hook configuration, and a
//! worktree for the default branch.

use crate::git::GitError;
use crate::paths::{join, last_segment_start, path_join, segment_start};
use crate::process::{ProcessOutcome, ProcessOutcomeView};
use crate::text::{chars_of, strip_prefix, strip_suffix, substring, trim, trimmed, without_prefix, without_suffix};
use vstd::prelude::*;

verus! {

/// The content of the file `.git` in the hub root, which points at the
/// bare repository.
pub const GIT_FILE_CONTENT: &'static str = "gitdir: ./.bare\n";

/// The hook configuration that a new hub starts with.
pub const HOOKS_TEMPLATE: &'static str = r#"# wtree hooks configuration
# Define pre/post commands for create, switch, and remove operations.
#
# Pre-hooks run before the command executes (from hub root).
# If a pre-hook fails, the command is aborted.
#
# Post-hooks run after the command completes (from target worktree).
# If a post-hook fails, a warning is logged but the command completes.
#
# Available environment variables in hooks:
#   WT_COMMAND        - Command name (create/switch/remove)
#   WT_WORKTREE_NAME  - Name of the target worktree
#   WT_WORKTREE_PATH  - Absolute path to target worktree
#   WT_HUB_ROOT       - Path to hub root (parent of .bare)
#   WT_BRANCH         - Branch name (create only, if specified)

[create]
# pre = []
# post = ["cp \"$WT_HUB_ROOT/main/.env\" \"$WT_WORKTREE_PATH/\"", "npm install"]

[switch]
# pre = []
# post = []

[remove]
# pre = []
# post = []
"#;

/// `url` without the separators that end it.
pub open spec fn without_trailing_slashes(url: Seq<char>) -> Seq<char>
    decreases url.len(),
{
    if url.len() > 0 && url.last() == '/' {
        without_trailing_slashes(url.drop_last())
    } else {
        url
    }
}

/// The name of the repository at `url`: what follows the last separator,
/// separators at the end of the URL left aside, without a final `.git`.
/// `None` if nothing is left.
pub open spec fn repo_name(url: Seq<char>) -> Option<Seq<char>> {
    let address = without_trailing_slashes(url);
    let last = address.skip(last_segment_start(address) as int);
    let name = match strip_suffix(last, ".git"@) {
        Some(stem) => stem,
        None => last,
    };
    if name.len() == 0 {
        None
    } else {
        Some(name)
    }
}

/// The name of the repository at `url`, which becomes the name of the hub's
/// directory. Both `https://host/user/repo.git` and `git@host:user/repo`
/// name `repo`.
pub fn extract_repo_name(url: &str) -> (result: Result<String, GitError>)
    ensures
        match result {
            Ok(name) => repo_name(url@) == Some(name@),
            Err(error) => repo_name(url@) is None && error.message@
                == "Cannot extract repository name from URL"@,
        },
{
    let chars = chars_of(url);
    let mut end: usize = chars.len();
    assert(url@.take(end as int) =~= url@);
    while end > 0 && chars[end - 1] == '/'
        invariant
            end <= chars.len(),
            chars@ == url@,
            without_trailing_slashes(url@) == without_trailing_slashes(url@.take(end as int)),
        decreases end,
    {
        assert(url@.take(end as int).drop_last() =~= url@.take(end - 1));
        end -= 1;
    }
    let start = segment_start(&chars, end);
    let last = substring(url, start, end);
    assert(last@ =~= url@.take(end as int).skip(start as int));
    let name = match without_suffix(last.as_str(), ".git") {
        Some(stem) => stem,
        None => last,
    };
    if name.as_str().is_empty() {
        Err(GitError::new("Cannot extract repository name from URL"))
    } else {
        Ok(name)
    }
}

/// The default branch that the outcome of `git symbolic-ref HEAD` names:
/// what follows `refs/heads/` in its trimmed output. `None` if git could
/// not be run, failed, or named something that is no branch.
pub open spec fn default_branch(outcome: ProcessOutcomeView) -> Option<Seq<char>> {
    match outcome {
        ProcessOutcomeView::Exited { success, stdout, stderr } => if success {
            strip_prefix(trim(stdout), "refs/heads/"@)
        } else {
            None
        },
        ProcessOutcomeView::NotStarted(_) => None,
    }
}

/// The default branch of a new hub, from the outcome of asking git what
/// `HEAD` refers to.
pub fn get_default_branch(head_ref: &ProcessOutcome) -> (branch: Option<String>)
    ensures
        branch.deep_view() == default_branch(head_ref@),
{
    match head_ref {
        ProcessOutcome::Exited { success, stdout, stderr } => {
            if *success {
                without_prefix(trimmed(stdout.as_str()).as_str(), "refs/heads/")
            } else {
                None
            }
        },
        ProcessOutcome::NotStarted(_) => None,
    }
}

/// The user's own default hook configuration, which a new hub starts with
/// where it exists: `.wtree/default-hooks.toml` in the home directory.
/// `None` where the home directory is not known.
pub fn get_global_default_hooks_path(home: Option<&str>) -> (path: Option<String>)
    ensures
        path.deep_view() == match home {
            Some(dir) => Some(join(join(dir@, ".wtree"@), "default-hooks.toml"@)),
            None => None,
        },
{
    match home {
        Some(dir) => Some(path_join(path_join(dir, ".wtree").as_str(), "default-hooks.toml")),
        None => None,
    }
}

/// The content of the hook configuration of a new hub: the user's own
/// default where there is one, else the template.
pub fn hooks_file_content(global_default: Option<String>) -> (content: String)
    ensures
        content@ == match global_default {
            Some(own) => own@,
            None => HOOKS_TEMPLATE@,
        },
{
    match global_default {
        Some(own) => own,
        None => HOOKS_TEMPLATE.to_owned(),
    }
}

/// The arguments with which git clones `url` as a bare repository into
/// `bare_path`.
pub fn clone_args(url: &str, bare_path: &str) -> (args: Vec<String>)
    ensures
        args.deep_view() == seq!["clone"@, "--bare"@, url@, bare_path@],
{
    let mut args: Vec<String> = Vec::new();
    args.push("clone".to_owned());
    args.push("--bare".to_owned());
    args.push(url.to_owned());
    args.push(bare_path.to_owned());
    assert(args.deep_view() =~= seq!["clone"@, "--bare"@, url@, bare_path@]);
    args
}

/// The arguments with which git is told to fetch every branch of the
/// remote.
pub fn fetch_config_args() -> (args: Vec<String>)
    ensures
        args.deep_view() == seq![
            "config"@,
            "remote.origin.fetch"@,
            "+refs/heads/*:refs/remotes/origin/*"@,
        ],
{
    let mut args: Vec<String> = Vec::new();
    args.push("config".to_owned());
    args.push("remote.origin.fetch".to_owned());
    args.push("+refs/heads/*:refs/remotes/origin/*".to_owned());
    assert(args.deep_view() =~= seq![
        "config"@,
        "remote.origin.fetch"@,
        "+refs/heads/*:refs/remotes/origin/*"@,
    ]);
    args
}

/// The arguments with which git is asked what `HEAD` refers to.
pub fn head_ref_args() -> (args: Vec<String>)
    ensures
        args.deep_view() == seq!["symbolic-ref"@, "HEAD"@],
{
    let mut args: Vec<String> = Vec::new();
    args.push("symbolic-ref".to_owned());
    args.push("HEAD".to_owned());
    assert(args.deep_view() =~= seq!["symbolic-ref"@, "HEAD"@]);
    args
}

/// The arguments with which git adds the worktree of the default branch,
/// which is named after the branch.
pub fn default_worktree_args(branch: &str) -> (args: Vec<String>)
    ensures
        args.deep_view() == seq!["worktree"@, "add"@, branch@, branch@],
{
    let mut args: Vec<String> = Vec::new();
    args.push("worktree".to_owned());
    args.push("add".to_owned());
    args.push(branch.to_owned());
    args.push(branch.to_owned());
    assert(args.deep_view() =~= seq!["worktree"@, "add"@, branch@, branch@]);
    args
}

/// The message of a clone into a directory that exists already.
pub fn already_exists(repo_name: &str) -> (error: GitError)
    ensures
        error.message@ == "Directory '"@ + repo_name@ + "' already exists"@,
{
    let mut message = "Directory '".to_owned();
    message.append(repo_name);
    message.append("' already exists");
    GitError { message }
}

/// The failure of a clone whose repository could not be fetched.
pub fn clone_failed() -> (error: GitError)
    ensures
        error.message@ == "Failed to clone repository"@,
{
    GitError::new("Failed to clone repository")
}

/// The line that announces a clone; none with `switch`, where only a path
/// is printed.
pub fn cloning_line(url: &str, repo_name: &str, switch: bool) -> (line: Option<String>)
    ensures
        line.deep_view() == if switch {
            None
        } else {
            Some("Cloning "@ + url@ + " into "@ + repo_name@ + "/"@)
        },
{
    if switch {
        return None;
    }
    let mut line = "Cloning ".to_owned();
    line.append(url);
    line.append(" into ");
    line.append(repo_name);
    line.append("/");
    Some(line)
}

/// The warning that the hook configuration of the new hub could not be
/// written; `reason` says why. None with `switch`.
pub fn config_warning(reason: &str, switch: bool) -> (line: Option<String>)
    ensures
        line.deep_view() == if switch {
            None
        } else {
            Some("Warning: Failed to create .wtree config: "@ + reason@)
        },
{
    if switch {
        return None;
    }
    let mut line = "Warning: Failed to create .wtree config: ".to_owned();
    line.append(reason);
    Some(line)
}

/// The warning that git could not be told what to fetch, where
/// `configured` says that it could not. None with `switch`.
pub fn fetch_warning(configured: bool, switch: bool) -> (line: Option<String>)
    ensures
        line.deep_view() == if !configured && !switch {
            Some("Warning: Failed to configure fetch refspec"@)
        } else {
            None
        },
{
    if !configured && !switch {
        Some("Warning: Failed to configure fetch refspec".to_owned())
    } else {
        None
    }
}

/// What a clone tells the user at its end.
pub struct CloneReport {
    /// Lines for the output stream.
    pub output: Vec<String>,
    /// Lines for the error stream.
    pub warnings: Vec<String>,
}

/// A clone's report as plain text.
pub struct CloneReportView {
    pub output: Seq<Seq<char>>,
    pub warnings: Seq<Seq<char>>,
}

impl View for CloneReport {
    type V = CloneReportView;

    open spec fn view(&self) -> CloneReportView {
        CloneReportView { output: self.output.deep_view(), warnings: self.warnings.deep_view() }
    }
}

/// The line that says where the bare repository was made.
pub open spec fn created_bare(repo_name: Seq<char>) -> Seq<char> {
    "Created bare repository at "@ + repo_name + "/"@
}

/// The line that says how to go on where no worktree was made.
pub open spec fn create_hint(repo_name: Seq<char>) -> Seq<char> {
    "Use 'cd "@ + repo_name + "' then 'wt create <name>' to create a worktree"@
}

/// What a clone tells the user at its end.
///
/// With `switch` it prints one path for the shell to change into: that of
/// the default branch's worktree if it was made, else that of the hub.
/// Without, it says what was made and how to go on; that a default branch
/// was found but its worktree could not be made is a warning.
pub open spec fn clone_summary(
    repo_name: Seq<char>,
    repo_dir: Seq<char>,
    branch: Option<Seq<char>>,
    worktree_made: bool,
    switch: bool,
) -> CloneReportView {
    match branch {
        Some(branch) if worktree_made => if switch {
            CloneReportView { output: seq![join(repo_dir, branch)], warnings: Seq::empty() }
        } else {
            CloneReportView {
                output: seq![
                    created_bare(repo_name),
                    "Created worktree '"@ + branch + "' at "@ + repo_name + "/"@ + branch + "/"@,
                    "Use 'cd "@ + repo_name + "/"@ + branch + "' to start working"@,
                ],
                warnings: Seq::empty(),
            }
        },
        Some(_) => if switch {
            CloneReportView { output: seq![repo_dir], warnings: Seq::empty() }
        } else {
            CloneReportView {
                output: seq![created_bare(repo_name), create_hint(repo_name)],
                warnings: seq!["Warning: Failed to create default branch worktree"@],
            }
        },
        None => if switch {
            CloneReportView { output: seq![repo_dir], warnings: Seq::empty() }
        } else {
            CloneReportView {
                output: seq![created_bare(repo_name), create_hint(repo_name)],
                warnings: Seq::empty(),
            }
        },
    }
}

/// The report of a clone of the repository `repo_name` into `repo_dir`.
/// `branch` is the default branch, if one was found, and `worktree_made`
/// says whether its worktree could be added.
pub fn clone_report(
    repo_name: &str,
    repo_dir: &str,
    branch: Option<&str>,
    worktree_made: bool,
    switch: bool,
) -> (report: CloneReport)
    ensures
        report@ == clone_summary(
            repo_name@,
            repo_dir@,
            match branch {
                Some(name) => Some(name@),
                None => None,
            },
            worktree_made,
            switch,
        ),
{
    let mut output: Vec<String> = Vec::new();
    let mut warnings: Vec<String> = Vec::new();
    assert(warnings.deep_view() =~= Seq::<Seq<char>>::empty());
    match branch {
        Some(branch) if worktree_made => {
            if switch {
                output.push(path_join(repo_dir, branch));
                assert(output.deep_view() =~= seq![join(repo_dir@, branch@)]);
            } else {
                let mut first = "Created bare repository at ".to_owned();
                first.append(repo_name);
                first.append("/");
                let mut second = "Created worktree '".to_owned();
                second.append(branch);
                second.append("' at ");
                second.append(repo_name);
                second.append("/");
                second.append(branch);
                second.append("/");
                let mut third = "Use 'cd ".to_owned();
                third.append(repo_name);
                third.append("/");
                third.append(branch);
                third.append("' to start working");
                let ghost lines = seq![first@, second@, third@];
                output.push(first);
                output.push(second);
                output.push(third);
                assert(output.deep_view() =~= lines);
            }
        },
        _ => {
            if switch {
                output.push(repo_dir.to_owned());
                assert(output.deep_view() =~= seq![repo_dir@]);
            } else {
                let mut first = "Created bare repository at ".to_owned();
                first.append(repo_name);
                first.append("/");
                let mut second = "Use 'cd ".to_owned();
                second.append(repo_name);
                second.append("' then 'wt create <name>' to create a worktree");
                let ghost lines = seq![first@, second@];
                output.push(first);
                output.push(second);
                assert(output.deep_view() =~= lines);
                if branch.is_some() {
                    warnings.push("Warning: Failed to create default branch worktree".to_owned());
                    assert(warnings.deep_view() =~= seq![
                        "Warning: Failed to create default branch worktree"@,
                    ]);
                }
            }
        },
    }
    CloneReport { output, warnings }
}

} // verus!
