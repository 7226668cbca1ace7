//! `wt remove`: removes worktrees one by one. Each is tried whatever became
//! of the others; the failures are told together at the end.

use crate::hooks::{HookContext, HookContextView};
use crate::lifecycle::{Outcome, OutcomeView};
use crate::paths::{join, path_join};
use crate::text::{decimal, push_decimal};
use vstd::prelude::*;

verus! {

/// The summary of a run in which `error_count` worktrees were not removed.
pub fn format_error_summary(error_count: usize) -> (summary: String)
    ensures
        summary@ == decimal(error_count as nat) + " worktree(s) could not be removed"@,
{
    let mut summary = String::new();
    push_decimal(&mut summary, error_count);
    summary.append(" worktree(s) could not be removed");
    summary
}

/// The line that tells why the worktree `name` was not removed.
pub fn format_error_line(name: &str, err: &str) -> (line: String)
    ensures
        line@ == "  - '"@ + name@ + "': "@ + err@,
{
    let mut line = "  - '".to_owned();
    line.append(name);
    line.append("': ");
    line.append(err);
    line
}

/// The arguments with which git removes the worktree `name`.
pub fn remove_args(name: &str) -> (args: Vec<String>)
    ensures
        args.deep_view() == seq!["worktree"@, "remove"@, name@],
{
    let mut args: Vec<String> = Vec::new();
    args.push("worktree".to_owned());
    args.push("remove".to_owned());
    args.push(name.to_owned());
    assert(args.deep_view() =~= seq!["worktree"@, "remove"@, name@]);
    args
}

/// The hook context of the removal of the worktree `name` from the hub at
/// `hub_root`.
pub fn remove_context(hub_root: &str, name: &str) -> (context: HookContext)
    ensures
        context@ == (HookContextView {
            command: "remove"@,
            worktree_name: name@,
            worktree_path: join(hub_root@, name@),
            hub_root: hub_root@,
            branch: None,
        }),
{
    let path = path_join(hub_root, name);
    HookContext::new("remove", name, path.as_str(), hub_root, None)
}

/// What is printed when the worktree `name` has been removed.
pub open spec fn removed_line(name: Seq<char>) -> Seq<char> {
    "Removed worktree '"@ + name + "'"@
}

/// The failures of a run, each with the name of its worktree, in the order
/// in which they occurred.
pub type Failures = Vec<(String, String)>;

/// Takes note of how the removal of the worktree `name` ended. A success,
/// with or without a post-hook's warning, gives the line to print; a
/// failure is added to `failures`, to be told at the end.
pub fn record_removal(failures: &mut Failures, name: &str, outcome: &Outcome) -> (line: Option<
    String,
>)
    ensures
        match outcome@.failure() {
            Some(message) => {
                &&& line is None
                &&& final(failures).deep_view() == old(failures).deep_view().push((name@, message))
            },
            None => {
                &&& line.deep_view() == Some(removed_line(name@))
                &&& final(failures).deep_view() == old(failures).deep_view()
            },
        },
{
    match outcome.failure() {
        Some(message) => {
            let ghost before = failures.deep_view();
            failures.push((name.to_owned(), message));
            assert(failures.deep_view() =~= before.push((name@, message@)));
            None
        },
        None => {
            let mut line = "Removed worktree '".to_owned();
            line.append(name);
            line.append("'");
            Some(line)
        },
    }
}

/// The lines that tell each failure, in order.
pub open spec fn failure_lines(failures: Seq<(Seq<char>, Seq<char>)>) -> Seq<Seq<char>> {
    Seq::new(failures.len(), |i: int| "  - '"@ + failures[i].0 + "': "@ + failures[i].1)
}

/// What is told at the end of a run with these failures: nothing if there
/// are none, else a blank line, a heading with their number, and a line for
/// each.
pub open spec fn failure_block(failures: Seq<(Seq<char>, Seq<char>)>) -> Seq<Seq<char>> {
    if failures.len() == 0 {
        Seq::empty()
    } else {
        seq![
            Seq::empty(),
            "Failed to remove "@ + decimal(failures.len()) + " worktree(s):"@,
        ] + failure_lines(failures)
    }
}

/// The lines to print to the error stream at the end of a run.
pub fn format_failure_block(failures: &Failures) -> (block: Vec<String>)
    ensures
        block.deep_view() == failure_block(failures.deep_view()),
{
    let mut block: Vec<String> = Vec::new();
    if failures.len() == 0 {
        assert(block.deep_view() =~= Seq::<Seq<char>>::empty());
        return block;
    }
    block.push(String::new());
    let mut heading = "Failed to remove ".to_owned();
    push_decimal(&mut heading, failures.len());
    heading.append(" worktree(s):");
    block.push(heading);
    let ghost all = failures.deep_view();
    let ghost top = seq![
        Seq::<char>::empty(),
        "Failed to remove "@ + decimal(all.len()) + " worktree(s):"@,
    ];
    assert(block.deep_view() =~= top);
    let mut i: usize = 0;
    while i < failures.len()
        invariant
            i <= failures.len(),
            all == failures.deep_view(),
            block.deep_view() == top + failure_lines(all).take(i as int),
        decreases failures.len() - i,
    {
        let line = format_error_line(failures[i].0.as_str(), failures[i].1.as_str());
        let ghost before = block.deep_view();
        block.push(line);
        proof {
            assert(all[i as int] == (failures[i as int].0@, failures[i as int].1@));
            assert(block.deep_view() =~= before.push(line@));
            assert(failure_lines(all).take(i + 1) =~= failure_lines(all).take(i as int).push(
                line@,
            ));
        }
        i += 1;
    }
    assert(failure_lines(all).take(failures.len() as int) =~= failure_lines(all));
    block
}

/// The result of a run with these failures: a success if there are none,
/// else the summary that counts them. A run fails as soon as one worktree
/// was not removed, though others were.
pub fn removal_result(failures: &Failures) -> (result: Result<(), String>)
    ensures
        match result {
            Ok(_) => failures.len() == 0,
            Err(summary) => failures.len() > 0 && summary@ == decimal(failures.len() as nat)
                + " worktree(s) could not be removed"@,
        },
{
    if failures.len() == 0 {
        Ok(())
    } else {
        Err(format_error_summary(failures.len()))
    }
}

/// A removal whose post-hook failed is told like one whose post-hooks all
/// succeeded: both print the line that says that the worktree was removed,
/// and neither adds a failure to the run, so the result of the run is the
/// same.
pub proof fn law_post_hook_warning_is_no_failure(warning: Seq<char>)
    ensures
        (OutcomeView::Completed { warning: Some(warning) }).failure() is None,
        (OutcomeView::Completed { warning: None }).failure() is None,
{
}

} // verus!
