//! `wt list`: one line for each checkout of the hub.

use crate::git::{Worktree, WorktreeView};
use crate::paths::{file_name, path_file_name};
use crate::text::{strip_prefix, substring, without_prefix};
use vstd::prelude::*;

verus! {

/// What is shown of the place where a worktree stands: its branch without
/// the leading `refs/heads/`, or, where the head is detached, the first
/// seven characters of the commit.
pub open spec fn branch_info(branch: Option<Seq<char>>, head: Seq<char>) -> Seq<char> {
    match branch {
        Some(name) => match strip_prefix(name, "refs/heads/"@) {
            Some(short) => short,
            None => name,
        },
        None => if head.len() > 7 {
            head.take(7)
        } else {
            head
        },
    }
}

/// The branch of a worktree, or the short form of its commit, for display.
pub fn format_branch_info(branch: Option<&str>, head: &str) -> (info: String)
    ensures
        info@ == branch_info(
            match branch {
                Some(name) => Some(name@),
                None => None,
            },
            head@,
        ),
{
    match branch {
        Some(name) => match without_prefix(name, "refs/heads/") {
            Some(short) => short,
            None => name.to_owned(),
        },
        None => {
            let len = head.unicode_len();
            if len > 7 {
                assert(head@.subrange(0, 7) =~= head@.take(7));
                substring(head, 0, 7)
            } else {
                head.to_owned()
            }
        },
    }
}

/// The name under which a record is shown: the final segment of its path,
/// or the whole path where it has none.
pub open spec fn display_name(record: WorktreeView) -> Seq<char> {
    match file_name(record.path) {
        Some(name) => name,
        None => record.path,
    }
}

/// The line that shows a record: its name, then its branch in brackets.
pub open spec fn list_line(record: WorktreeView) -> Seq<char> {
    display_name(record) + " ["@ + branch_info(record.branch, record.head) + "]"@
}

/// The lines that show `records`: one for each checkout, in order. The
/// bare entry is not shown.
pub open spec fn checkout_lines(records: Seq<WorktreeView>) -> Seq<Seq<char>>
    decreases records.len(),
{
    if records.len() == 0 {
        Seq::empty()
    } else if records.last().is_bare() {
        checkout_lines(records.drop_last())
    } else {
        checkout_lines(records.drop_last()).push(list_line(records.last()))
    }
}

/// What `wt list` prints for `records`: the lines of the checkouts, or,
/// where the listing holds no record at all, a line that says so.
pub open spec fn list_output(records: Seq<WorktreeView>) -> Seq<Seq<char>> {
    if records.len() == 0 {
        seq!["No worktrees found."@]
    } else {
        checkout_lines(records)
    }
}

/// The line that shows `record`.
pub fn format_list_line(record: &Worktree) -> (line: String)
    ensures
        line@ == list_line(record@),
{
    let mut line = match path_file_name(record.path.as_str()) {
        Some(name) => name,
        None => record.path.clone(),
    };
    let branch = match &record.branch {
        Some(name) => Some(name.as_str()),
        None => None,
    };
    line.append(" [");
    line.append(format_branch_info(branch, record.head.as_str()).as_str());
    line.append("]");
    line
}

/// The lines that `wt list` prints for `worktrees`.
pub fn list_lines(worktrees: &Vec<Worktree>) -> (output: Vec<String>)
    ensures
        output.deep_view() == list_output(worktrees.deep_view()),
{
    let mut output: Vec<String> = Vec::new();
    if worktrees.len() == 0 {
        output.push("No worktrees found.".to_owned());
        assert(output.deep_view() =~= seq!["No worktrees found."@]);
        return output;
    }
    let ghost records = worktrees.deep_view();
    let mut i: usize = 0;
    assert(records.take(0) =~= Seq::<WorktreeView>::empty());
    assert(output.deep_view() =~= Seq::<Seq<char>>::empty());
    while i < worktrees.len()
        invariant
            i <= worktrees.len(),
            records == worktrees.deep_view(),
            output.deep_view() == checkout_lines(records.take(i as int)),
        decreases worktrees.len() - i,
    {
        proof {
            assert(records.take(i + 1).drop_last() =~= records.take(i as int));
            assert(records.take(i + 1).last() == worktrees[i as int]@);
        }
        if !worktrees[i].is_bare() {
            let line = format_list_line(&worktrees[i]);
            let ghost before = output.deep_view();
            output.push(line);
            assert(output.deep_view() =~= before.push(line@));
        }
        i += 1;
    }
    assert(records.take(worktrees.len() as int) =~= records);
    output
}

} // verus!
