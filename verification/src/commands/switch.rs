//! `wt switch`: moves to another worktree, and remembers the one that was
//! left so that `wt switch -` can go back to it.

use crate::git::{find_worktree, is_called, GitError, Worktree};
use crate::hooks::{HookContext, HookContextView};
use crate::text::{same_text, starts_with};
use vstd::prelude::*;

verus! {

/// Whether a file of this name is one of the environment files that are
/// copied along into a worktree: its name starts with `.env`, and it is
/// not the example file `.env.example`.
pub fn should_copy_env_file(filename: &str) -> (copy: bool)
    ensures
        copy == (".env"@.is_prefix_of(filename@) && filename@ != ".env.example"@),
{
    starts_with(filename, ".env") && !same_text(filename, ".env.example")
}

/// Whether `name` asks for the previous worktree rather than naming one.
pub fn wants_previous(name: &str) -> (toggle: bool)
    ensures
        toggle == (name@ == "-"@),
{
    same_text(name, "-")
}

/// The message of a switch back when no previous worktree is recorded.
pub open spec fn no_previous_worktree() -> Seq<char> {
    "No previous worktree. Use 'wt switch <name>' first."@
}

/// The worktree to switch to: `name` itself, or, where `name` is `-`, the
/// previous worktree that the state file records. Going back fails if
/// nothing is recorded.
pub fn resolve_switch_target(name: &str, previous: Option<String>) -> (target: Result<
    String,
    GitError,
>)
    ensures
        match target {
            Ok(target) => if name@ == "-"@ {
                previous.deep_view() == Some(target@)
            } else {
                target@ == name@
            },
            Err(error) => {
                &&& name@ == "-"@
                &&& previous is None
                &&& error.message@ == no_previous_worktree()
            },
        },
{
    if same_text(name, "-") {
        match previous {
            Some(target) => Ok(target),
            None => Err(GitError::new("No previous worktree. Use 'wt switch <name>' first.")),
        }
    } else {
        Ok(name.to_owned())
    }
}

/// The message of a switch to a worktree that the hub does not have.
pub open spec fn worktree_not_found(target: Seq<char>) -> Seq<char> {
    "Worktree '"@ + target + "' not found. Use 'wt list' to see available worktrees."@
}

/// The hook context of the switch to the worktree called `target`: that of
/// the first record that answers to the name. The switch fails if no
/// record does.
pub fn switch_context(worktrees: &Vec<Worktree>, hub_root: &str, target: &str) -> (result: Result<
    HookContext,
    GitError,
>)
    ensures
        match result {
            Ok(context) => exists|i: int|
                {
                    &&& 0 <= i < worktrees.len()
                    &&& #[trigger] is_called(worktrees[i]@, target@)
                    &&& forall|j: int| 0 <= j < i ==> !is_called(#[trigger] worktrees[j]@, target@)
                    &&& context@ == (HookContextView {
                        command: "switch"@,
                        worktree_name: target@,
                        worktree_path: worktrees[i]@.path,
                        hub_root: hub_root@,
                        branch: None,
                    })
                },
            Err(error) => {
                &&& forall|j: int|
                    0 <= j < worktrees.len() ==> !is_called(#[trigger] worktrees[j]@, target@)
                &&& error.message@ == worktree_not_found(target@)
            },
        },
{
    match find_worktree(worktrees, target) {
        Some(i) => {
            assert(is_called(worktrees[i as int]@, target@));
            Ok(HookContext::new("switch", target, worktrees[i].path.as_str(), hub_root, None))
        },
        None => {
            let mut message = "Worktree '".to_owned();
            message.append(target);
            message.append("' not found. Use 'wt list' to see available worktrees.");
            Err(GitError { message })
        },
    }
}

/// The name to record as the previous worktree on a switch to `target`:
/// that of the worktree that is left, unless none is left or it is the
/// target itself.
pub fn previous_to_save(current: Option<&str>, target: &str) -> (previous: Option<String>)
    ensures
        previous.deep_view() == match current {
            Some(name) if name@ != target@ => Some(name@),
            _ => None,
        },
{
    match current {
        Some(name) => {
            if same_text(name, target) {
                None
            } else {
                Some(name.to_owned())
            }
        },
        None => None,
    }
}

} // verus!
