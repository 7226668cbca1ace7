//! `wt create`: adds a worktree to the hub, on a new branch, on an existing
//! branch, or on a new branch that starts where another worktree stands.

use crate::git::{find_worktree, is_called, GitError, Worktree};
use crate::hooks::{HookContext, HookContextView};
use crate::paths::{join, path_join};
use vstd::prelude::*;

verus! {

/// The branch that the hooks of a creation are told of: the branch that is
/// checked out, or, where the worktree starts from another, the new
/// worktree's own name; none otherwise.
pub open spec fn context_branch(
    name: Seq<char>,
    checkout: Option<Seq<char>>,
    base: Option<Seq<char>>,
) -> Option<Seq<char>> {
    match (checkout, base) {
        (Some(branch), _) => Some(branch),
        (None, Some(_)) => Some(name),
        (None, None) => None,
    }
}

/// The hook context of the creation of the worktree `name` in the hub at
/// `hub_root`.
pub fn create_context(
    hub_root: &str,
    name: &str,
    checkout: Option<&str>,
    base: Option<&str>,
) -> (context: HookContext)
    ensures
        context@ == (HookContextView {
            command: "create"@,
            worktree_name: name@,
            worktree_path: join(hub_root@, name@),
            hub_root: hub_root@,
            branch: context_branch(
                name@,
                match checkout {
                    Some(branch) => Some(branch@),
                    None => None,
                },
                match base {
                    Some(source) => Some(source@),
                    None => None,
                },
            ),
        }),
{
    let path = path_join(hub_root, name);
    let branch = match (checkout, base) {
        (Some(branch), _) => Some(branch),
        (None, Some(_)) => Some(name),
        (None, None) => None,
    };
    HookContext::new("create", name, path.as_str(), hub_root, branch)
}

/// The message of a creation from a worktree that the hub does not have.
pub open spec fn base_not_found(source: Seq<char>) -> Seq<char> {
    "Worktree '"@ + source + "' not found"@
}

/// The commit from which a worktree based on `source` starts: the head of
/// the first record that answers to that name. The creation fails if no
/// record does.
pub fn resolve_base(worktrees: &Vec<Worktree>, source: &str) -> (result: Result<String, GitError>)
    ensures
        match result {
            Ok(head) => exists|i: int|
                {
                    &&& 0 <= i < worktrees.len()
                    &&& #[trigger] is_called(worktrees[i]@, source@)
                    &&& forall|j: int| 0 <= j < i ==> !is_called(#[trigger] worktrees[j]@, source@)
                    &&& head@ == worktrees[i]@.head
                },
            Err(error) => {
                &&& forall|j: int|
                    0 <= j < worktrees.len() ==> !is_called(#[trigger] worktrees[j]@, source@)
                &&& error.message@ == base_not_found(source@)
            },
        },
{
    match find_worktree(worktrees, source) {
        Some(i) => {
            assert(is_called(worktrees[i as int]@, source@));
            Ok(worktrees[i].head.clone())
        },
        None => {
            let mut message = "Worktree '".to_owned();
            message.append(source);
            message.append("' not found");
            Err(GitError { message })
        },
    }
}

/// The arguments with which git adds the worktree `name`: on the branch
/// `checkout` if one is given; else on a new branch `name` that starts at
/// the commit `base_head` if one is given; else as git sees fit.
pub open spec fn add_args(
    name: Seq<char>,
    checkout: Option<Seq<char>>,
    base_head: Option<Seq<char>>,
) -> Seq<Seq<char>> {
    match (checkout, base_head) {
        (Some(branch), _) => seq!["worktree"@, "add"@, name, branch],
        (None, Some(head)) => seq!["worktree"@, "add"@, "-b"@, name, name, head],
        (None, None) => seq!["worktree"@, "add"@, name],
    }
}

/// The arguments with which git adds the worktree `name`.
pub fn create_args(name: &str, checkout: Option<&str>, base_head: Option<&str>) -> (args: Vec<
    String,
>)
    ensures
        args.deep_view() == add_args(
            name@,
            match checkout {
                Some(branch) => Some(branch@),
                None => None,
            },
            match base_head {
                Some(head) => Some(head@),
                None => None,
            },
        ),
{
    let mut args: Vec<String> = Vec::new();
    args.push("worktree".to_owned());
    args.push("add".to_owned());
    match (checkout, base_head) {
        (Some(branch), _) => {
            args.push(name.to_owned());
            args.push(branch.to_owned());
            assert(args.deep_view() =~= seq!["worktree"@, "add"@, name@, branch@]);
        },
        (None, Some(head)) => {
            args.push("-b".to_owned());
            args.push(name.to_owned());
            args.push(name.to_owned());
            args.push(head.to_owned());
            assert(args.deep_view() =~= seq!["worktree"@, "add"@, "-b"@, name@, name@, head@]);
        },
        (None, None) => {
            args.push(name.to_owned());
            assert(args.deep_view() =~= seq!["worktree"@, "add"@, name@]);
        },
    }
    args
}

/// The name to record as the previous worktree once a creation has
/// succeeded: that of the worktree that is left, if the creation switches
/// to the new worktree and there is one to leave.
pub fn previous_to_save(switch: bool, current: Option<&str>) -> (previous: Option<String>)
    ensures
        previous.deep_view() == match current {
            Some(name) if switch => Some(name@),
            _ => None,
        },
{
    match current {
        Some(name) => {
            if switch {
                Some(name.to_owned())
            } else {
                None
            }
        },
        None => None,
    }
}

/// What a creation prints once it has succeeded. With `switch`, only the
/// path of the new worktree, for the shell to change into. Else a line that
/// names the worktree and its path, and a second line that names the
/// worktree it was based on, or the branch that was checked out.
pub open spec fn created_output(
    name: Seq<char>,
    worktree_path: Seq<char>,
    checkout: Option<Seq<char>>,
    base: Option<Seq<char>>,
    switch: bool,
) -> Seq<Seq<char>> {
    if switch {
        seq![worktree_path]
    } else {
        let first = "Created worktree '"@ + name + "' at "@ + worktree_path;
        match (base, checkout) {
            (Some(source), _) => seq![first, "Branched from worktree: "@ + source],
            (None, Some(branch)) => seq![first, "Checked out branch: "@ + branch],
            (None, None) => seq![first],
        }
    }
}

/// The lines that a creation prints once it has succeeded.
pub fn created_lines(
    name: &str,
    worktree_path: &str,
    checkout: Option<&str>,
    base: Option<&str>,
    switch: bool,
) -> (output: Vec<String>)
    ensures
        output.deep_view() == created_output(
            name@,
            worktree_path@,
            match checkout {
                Some(branch) => Some(branch@),
                None => None,
            },
            match base {
                Some(source) => Some(source@),
                None => None,
            },
            switch,
        ),
{
    let mut output: Vec<String> = Vec::new();
    if switch {
        output.push(worktree_path.to_owned());
        assert(output.deep_view() =~= seq![worktree_path@]);
        return output;
    }
    let mut first = "Created worktree '".to_owned();
    first.append(name);
    first.append("' at ");
    first.append(worktree_path);
    let ghost first_text = first@;
    output.push(first);
    match (base, checkout) {
        (Some(source), _) => {
            let mut second = "Branched from worktree: ".to_owned();
            second.append(source);
            output.push(second);
            assert(output.deep_view() =~= seq![
                first_text,
                "Branched from worktree: "@ + source@,
            ]);
        },
        (None, Some(branch)) => {
            let mut second = "Checked out branch: ".to_owned();
            second.append(branch);
            output.push(second);
            assert(output.deep_view() =~= seq![first_text, "Checked out branch: "@ + branch@]);
        },
        (None, None) => {
            assert(output.deep_view() =~= seq![first_text]);
        },
    }
    output
}

} // verus!
