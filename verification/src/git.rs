//! The worktree registry: records of the checkouts that share one bare
//! repository, read from the porcelain listing of `git worktree list`.

use crate::paths::{file_name, path_file_name, path_starts_with, starts_with};
use crate::process::{git_outcome, git_result, ProcessOutcome};
use crate::text::{
    is_single_line, lemma_lines_of_unlines, lines, same_text, split_lines, strip_prefix, unlines,
    without_prefix,
};
use vstd::prelude::*;

verus! {

/// A failure reported by git, or met while working with the repository.
#[derive(Debug)]
pub struct GitError {
    pub message: String,
}

impl GitError {
    /// An error that carries `message`.
    pub fn new(message: &str) -> (error: Self)
        ensures
            error.message@ == message@,
    {
        GitError { message: message.to_owned() }
    }

    /// The message, as it is shown to the user.
    pub fn to_string(&self) -> (text: String)
        ensures
            text@ == self.message@,
    {
        self.message.clone()
    }
}

/// One checkout registered with the repository.
#[derive(Debug)]
pub struct Worktree {
    /// Absolute path of the checkout.
    pub path: String,
    /// The commit that is checked out, or `(bare)` for the bare repository.
    pub head: String,
    /// The branch that is checked out; `None` when the head is detached.
    pub branch: Option<String>,
}

/// A worktree record as plain text.
pub struct WorktreeView {
    pub path: Seq<char>,
    pub head: Seq<char>,
    pub branch: Option<Seq<char>>,
}

impl View for Worktree {
    type V = WorktreeView;

    open spec fn view(&self) -> WorktreeView {
        WorktreeView { path: self.path@, head: self.head@, branch: self.branch.deep_view() }
    }
}

impl DeepView for Worktree {
    type V = WorktreeView;

    open spec fn deep_view(&self) -> WorktreeView {
        self@
    }
}

/// The head that stands for the bare repository itself.
pub open spec fn bare_head() -> Seq<char> {
    "(bare)"@
}

impl WorktreeView {
    /// Whether this record is the bare repository's own entry.
    pub open spec fn is_bare(self) -> bool {
        self.head == bare_head()
    }
}

impl Worktree {
    /// Whether this record is the bare repository's own entry.
    pub fn is_bare(&self) -> (bare: bool)
        ensures
            bare == self@.is_bare(),
    {
        same_text(self.head.as_str(), "(bare)")
    }
}

/// The fields read so far of the record that the parser is working on.
pub struct Pending {
    pub path: Option<Seq<char>>,
    pub head: Option<Seq<char>>,
    pub branch: Option<Seq<char>>,
}

/// The parser between two lines: the records finished so far, and the one
/// in progress.
pub struct ScanState {
    pub done: Seq<WorktreeView>,
    pub pending: Pending,
}

/// The parser before the first line.
pub open spec fn scan_start() -> ScanState {
    ScanState { done: Seq::empty(), pending: Pending { path: None, head: None, branch: None } }
}

/// The finished records, and the pending one if it has both a path and a head.
pub open spec fn flushed(state: ScanState) -> Seq<WorktreeView> {
    match (state.pending.path, state.pending.head) {
        (Some(path), Some(head)) => state.done.push(
            WorktreeView { path, head, branch: state.pending.branch },
        ),
        _ => state.done,
    }
}

/// The parser after one more line.
///
/// A `worktree ` line closes the pending record and opens the next; `HEAD `
/// and `branch ` lines fill the pending record; the line `bare` gives it the
/// head `(bare)`; every other line is passed over.
pub open spec fn scan_line(state: ScanState, line: Seq<char>) -> ScanState {
    if let Some(path) = strip_prefix(line, "worktree "@) {
        ScanState {
            done: flushed(state),
            pending: Pending { path: Some(path), head: None, branch: None },
        }
    } else if let Some(head) = strip_prefix(line, "HEAD "@) {
        ScanState { done: state.done, pending: Pending { head: Some(head), ..state.pending } }
    } else if let Some(branch) = strip_prefix(line, "branch "@) {
        ScanState { done: state.done, pending: Pending { branch: Some(branch), ..state.pending } }
    } else if line == "bare"@ {
        ScanState {
            done: state.done,
            pending: Pending { head: Some(bare_head()), ..state.pending },
        }
    } else {
        state
    }
}

/// The parser that stood at `state`, after all of `lines`.
pub open spec fn scan_from(state: ScanState, lines: Seq<Seq<char>>) -> ScanState
    decreases lines.len(),
{
    if lines.len() == 0 {
        state
    } else {
        scan_line(scan_from(state, lines.drop_last()), lines.last())
    }
}

/// The parser after all of `lines`.
pub open spec fn scan(lines: Seq<Seq<char>>) -> ScanState {
    scan_from(scan_start(), lines)
}

/// The records that a porcelain listing describes, in the order of the text.
pub open spec fn parse_listing(text: Seq<char>) -> Seq<WorktreeView> {
    flushed(scan(lines(text)))
}

/// Parses the porcelain output of `git worktree list` into records.
///
/// A record is kept only if it has both a path and a head; incomplete
/// records are dropped without an error.
pub fn parse_worktree_list(output: &str) -> (worktrees: Vec<Worktree>)
    ensures
        worktrees.deep_view() == parse_listing(output@),
{
    let all = split_lines(output);
    let mut worktrees: Vec<Worktree> = Vec::new();
    let mut current_path: Option<String> = None;
    let mut current_head: Option<String> = None;
    let mut current_branch: Option<String> = None;
    let mut i: usize = 0;
    assert(all.deep_view().take(0) =~= Seq::<Seq<char>>::empty());
    assert(worktrees.deep_view() =~= Seq::<WorktreeView>::empty());
    while i < all.len()
        invariant
            i <= all.len(),
            all.deep_view() == lines(output@),
            scan(all.deep_view().take(i as int)) == (ScanState {
                done: worktrees.deep_view(),
                pending: Pending {
                    path: current_path.deep_view(),
                    head: current_head.deep_view(),
                    branch: current_branch.deep_view(),
                },
            }),
        decreases all.len() - i,
    {
        let line = all[i].as_str();
        proof {
            let seen = all.deep_view().take(i + 1);
            assert(seen.drop_last() =~= all.deep_view().take(i as int));
            assert(seen.last() == line@);
        }
        let ghost before = worktrees.deep_view();
        if let Some(path) = without_prefix(line, "worktree ") {
            match (current_path, current_head) {
                (Some(p), Some(h)) => {
                    let record = Worktree { path: p, head: h, branch: current_branch };
                    worktrees.push(record);
                    assert(worktrees.deep_view() =~= before.push(record@));
                },
                _ => {},
            }
            current_path = Some(path);
            current_head = None;
            current_branch = None;
        } else if let Some(head) = without_prefix(line, "HEAD ") {
            current_head = Some(head);
        } else if let Some(branch) = without_prefix(line, "branch ") {
            current_branch = Some(branch);
        } else if same_text(line, "bare") {
            current_head = Some("(bare)".to_owned());
        }
        i += 1;
    }
    assert(all.deep_view().take(all.len() as int) =~= all.deep_view());
    let ghost before = worktrees.deep_view();
    match (current_path, current_head) {
        (Some(p), Some(h)) => {
            let record = Worktree { path: p, head: h, branch: current_branch };
            worktrees.push(record);
            assert(worktrees.deep_view() =~= before.push(record@));
        },
        _ => {},
    }
    worktrees
}


/// The arguments with which git lists the worktrees in porcelain form.
pub fn list_args() -> (args: Vec<String>)
    ensures
        args.deep_view() == seq!["worktree"@, "list"@, "--porcelain"@],
{
    let mut args: Vec<String> = Vec::new();
    args.push("worktree".to_owned());
    args.push("list".to_owned());
    args.push("--porcelain".to_owned());
    assert(args.deep_view() =~= seq!["worktree"@, "list"@, "--porcelain"@]);
    args
}

/// The worktrees of the hub, from the outcome of the listing command: the
/// records that its output describes, or the failure of the command.
pub fn get_worktree_list(listing: &ProcessOutcome) -> (result: Result<Vec<Worktree>, GitError>)
    ensures
        match result {
            Ok(worktrees) => git_outcome(listing@) matches Ok(output) && worktrees.deep_view()
                == parse_listing(output),
            Err(error) => git_outcome(listing@) == Err::<Seq<char>, Seq<char>>(error.message@),
        },
{
    match git_result(listing) {
        Ok(output) => Ok(parse_worktree_list(output.as_str())),
        Err(error) => Err(error),
    }
}

/// Whether `record` is the worktree that users call `name`: a checkout
/// whose path ends in that name. The bare entry answers to no name.
pub open spec fn is_called(record: WorktreeView, name: Seq<char>) -> bool {
    !record.is_bare() && file_name(record.path) == Some(name)
}

/// The position of the worktree called `name`: the first record that
/// answers to it, or `None` if none does.
pub fn find_worktree(worktrees: &Vec<Worktree>, name: &str) -> (position: Option<usize>)
    ensures
        match position {
            Some(i) => {
                &&& i < worktrees.len()
                &&& is_called(worktrees[i as int]@, name@)
                &&& forall|j: int| 0 <= j < i ==> !is_called(#[trigger] worktrees[j]@, name@)
            },
            None => forall|j: int|
                0 <= j < worktrees.len() ==> !is_called(#[trigger] worktrees[j]@, name@),
        },
{
    let mut i: usize = 0;
    while i < worktrees.len()
        invariant
            i <= worktrees.len(),
            forall|j: int| 0 <= j < i ==> !is_called(#[trigger] worktrees[j]@, name@),
        decreases worktrees.len() - i,
    {
        let record = &worktrees[i];
        if !record.is_bare() {
            match path_file_name(record.path.as_str()) {
                Some(last) => {
                    if same_text(last.as_str(), name) {
                        return Some(i);
                    }
                },
                None => {},
            }
        }
        i += 1;
    }
    None
}

/// Where the worktree `record` lies on disk: its canonical path where one
/// is known, else its path as listed.
pub open spec fn location(record: WorktreeView, canonical: Option<Seq<char>>) -> Seq<char> {
    match canonical {
        Some(path) => path,
        None => record.path,
    }
}

/// The canonical path known for the record at `position`, if any.
pub open spec fn canonical_at(canonical: Seq<Option<Seq<char>>>, position: int) -> Option<
    Seq<char>,
> {
    if 0 <= position < canonical.len() {
        canonical[position]
    } else {
        None
    }
}

/// Whether the directory `dir` belongs to the worktree `record`: the record
/// is a checkout with a name, and `dir` lies at or below its location.
pub open spec fn holds_dir(
    record: WorktreeView,
    canonical: Option<Seq<char>>,
    dir: Seq<char>,
) -> bool {
    &&& !record.is_bare()
    &&& file_name(record.path) is Some
    &&& starts_with(dir, location(record, canonical))
}

/// The name of the worktree that the current directory belongs to: that of
/// the first record that holds it. `None` if no record does, as in the hub
/// root itself, and if the current directory has no canonical path.
///
/// `canonical_dir` is the canonical path of the current directory, where
/// it could be resolved. `canonical` gives, position by position, the
/// canonical path of each record where it could be resolved; a record
/// without one is looked for under its path as listed.
pub fn get_current_worktree_name(
    canonical_dir: Option<&str>,
    worktrees: &Vec<Worktree>,
    canonical: &Vec<Option<String>>,
) -> (name: Option<String>)
    ensures
        canonical_dir is None ==> name is None,
        canonical_dir matches Some(dir) ==> match name {
            Some(name) => exists|i: int|
                {
                    &&& 0 <= i < worktrees.len()
                    &&& #[trigger] holds_dir(
                        worktrees[i]@,
                        canonical_at(canonical.deep_view(), i),
                        dir@,
                    )
                    &&& file_name(worktrees[i]@.path) == Some(name@)
                    &&& forall|j: int|
                        0 <= j < i ==> !#[trigger] holds_dir(
                            worktrees[j]@,
                            canonical_at(canonical.deep_view(), j),
                            dir@,
                        )
                },
            None => forall|j: int|
                0 <= j < worktrees.len() ==> !#[trigger] holds_dir(
                    worktrees[j]@,
                    canonical_at(canonical.deep_view(), j),
                    dir@,
                ),
        },
{
    let dir = match canonical_dir {
        Some(path) => path,
        None => {
            return None;
        },
    };
    let mut i: usize = 0;
    while i < worktrees.len()
        invariant
            i <= worktrees.len(),
            canonical_dir matches Some(given) && given@ == dir@,
            forall|j: int|
                0 <= j < i ==> !#[trigger] holds_dir(
                    worktrees[j]@,
                    canonical_at(canonical.deep_view(), j),
                    dir@,
                ),
        decreases worktrees.len() - i,
    {
        let record = &worktrees[i];
        if !record.is_bare() {
            let listed = record.path.as_str();
            let place = if i < canonical.len() {
                match &canonical[i] {
                    Some(path) => path.as_str(),
                    None => listed,
                }
            } else {
                listed
            };
            assert(place@ == location(record@, canonical_at(canonical.deep_view(), i as int)));
            if path_starts_with(dir, place) {
                match path_file_name(listed) {
                    Some(last) => {
                        assert(holds_dir(
                            worktrees[i as int]@,
                            canonical_at(canonical.deep_view(), i as int),
                            dir@,
                        ));
                        return Some(last);
                    },
                    None => {},
                }
            }
        }
        i += 1;
    }
    None
}

/// The lines that describe one record in a porcelain listing: its path, then
/// `bare` or its head, for a checkout its branch or `detached`, and the
/// blank line that closes it.
pub open spec fn record_lines(record: WorktreeView) -> Seq<Seq<char>> {
    if record.is_bare() {
        seq!["worktree "@ + record.path, "bare"@, Seq::empty()]
    } else {
        match record.branch {
            Some(branch) => seq![
                "worktree "@ + record.path,
                "HEAD "@ + record.head,
                "branch "@ + branch,
                Seq::empty(),
            ],
            None => seq![
                "worktree "@ + record.path,
                "HEAD "@ + record.head,
                "detached"@,
                Seq::empty(),
            ],
        }
    }
}

/// The lines of the porcelain listing that describes `records`.
pub open spec fn listing_lines(records: Seq<WorktreeView>) -> Seq<Seq<char>>
    decreases records.len(),
{
    if records.len() == 0 {
        Seq::empty()
    } else {
        listing_lines(records.drop_last()) + record_lines(records.last())
    }
}

/// The porcelain listing that describes `records`.
pub open spec fn render_listing(records: Seq<WorktreeView>) -> Seq<char> {
    unlines(listing_lines(records))
}

/// Whether `record` can be told by a listing: the bare entry has no branch.
pub open spec fn is_listable(record: WorktreeView) -> bool {
    record.is_bare() ==> record.branch is None
}

/// Whether each field of `record` can stand on one line of a listing.
pub open spec fn has_single_line_fields(record: WorktreeView) -> bool {
    &&& is_single_line(record.path)
    &&& is_single_line(record.head)
    &&& record.branch matches Some(branch) ==> is_single_line(branch)
}

/// The parser after the lines of `records`: all but the last are finished,
/// the last is pending.
pub open spec fn scanned(records: Seq<WorktreeView>) -> ScanState {
    if records.len() == 0 {
        scan_start()
    } else {
        ScanState {
            done: records.drop_last(),
            pending: Pending {
                path: Some(records.last().path),
                head: Some(records.last().head),
                branch: records.last().branch,
            },
        }
    }
}

/// Scanning two runs of lines in turn is scanning them as one.
pub proof fn lemma_scan_from_concat(state: ScanState, first: Seq<Seq<char>>, second: Seq<Seq<char>>)
    ensures
        scan_from(state, first + second) == scan_from(scan_from(state, first), second),
    decreases second.len(),
{
    if second.len() == 0 {
        assert(first + second =~= first);
    } else {
        lemma_scan_from_concat(state, first, second.drop_last());
        assert((first + second).drop_last() =~= first + second.drop_last());
    }
}

/// Scanning one more line is one step of the parser.
pub proof fn lemma_scan_from_push(state: ScanState, before: Seq<Seq<char>>, line: Seq<char>)
    ensures
        scan_from(state, before.push(line)) == scan_line(scan_from(state, before), line),
{
    assert(before.push(line).drop_last() =~= before);
}

/// What the parser makes of each kind of line in a listing.
pub proof fn lemma_scan_line_kinds(state: ScanState, field: Seq<char>)
    ensures
        scan_line(state, "worktree "@ + field) == (ScanState {
            done: flushed(state),
            pending: Pending { path: Some(field), head: None, branch: None },
        }),
        scan_line(state, "HEAD "@ + field) == (ScanState {
            done: state.done,
            pending: Pending { head: Some(field), ..state.pending },
        }),
        scan_line(state, "branch "@ + field) == (ScanState {
            done: state.done,
            pending: Pending { branch: Some(field), ..state.pending },
        }),
        scan_line(state, "bare"@) == (ScanState {
            done: state.done,
            pending: Pending { head: Some(bare_head()), ..state.pending },
        }),
        scan_line(state, "detached"@) == state,
        scan_line(state, Seq::empty()) == state,
{
    reveal_strlit("worktree ");
    reveal_strlit("HEAD ");
    reveal_strlit("branch ");
    reveal_strlit("bare");
    reveal_strlit("detached");
    let w = "worktree "@;
    let h = "HEAD "@;
    let b = "branch "@;
    assert((w + field).subrange(0, w.len() as int) =~= w);
    assert((w + field).skip(w.len() as int) =~= field);
    assert((h + field).subrange(0, h.len() as int) =~= h);
    assert((h + field).skip(h.len() as int) =~= field);
    assert((b + field).subrange(0, b.len() as int) =~= b);
    assert((b + field).skip(b.len() as int) =~= field);
    assert(!w.is_prefix_of(h + field)) by {
        if w.len() <= (h + field).len() {
            assert((h + field).subrange(0, w.len() as int)[0] == 'H');
        }
    }
    assert(!w.is_prefix_of(b + field)) by {
        if w.len() <= (b + field).len() {
            assert((b + field).subrange(0, w.len() as int)[0] == 'b');
        }
    }
    assert(!h.is_prefix_of(b + field)) by {
        if h.len() <= (b + field).len() {
            assert((b + field).subrange(0, h.len() as int)[0] == 'b');
        }
    }
    let d = "detached"@;
    assert(!w.is_prefix_of(d));
    assert(!h.is_prefix_of(d)) by {
        assert(d.subrange(0, h.len() as int)[0] == 'd');
    }
    assert(!b.is_prefix_of(d)) by {
        assert(d.subrange(0, b.len() as int)[0] == 'd');
    }
    assert(d != "bare"@);
}

/// Scanning the lines of one record closes the pending record and leaves
/// the new one pending.
pub proof fn lemma_scan_record(state: ScanState, record: WorktreeView)
    requires
        is_listable(record),
    ensures
        scan_from(state, record_lines(record)) == (ScanState {
            done: flushed(state),
            pending: Pending {
                path: Some(record.path),
                head: Some(record.head),
                branch: record.branch,
            },
        }),
{
    let none = Seq::<Seq<char>>::empty();
    let blank = Seq::<char>::empty();
    let l1 = "worktree "@ + record.path;
    let s1 = scan_line(state, l1);
    assert(scan_from(state, none) == state);
    lemma_scan_from_push(state, none, l1);
    lemma_scan_line_kinds(state, record.path);
    assert(scan_from(state, none.push(l1)) == s1);
    if record.is_bare() {
        let l2 = "bare"@;
        let s2 = scan_line(s1, l2);
        lemma_scan_from_push(state, none.push(l1), l2);
        lemma_scan_line_kinds(s1, record.path);
        lemma_scan_from_push(state, none.push(l1).push(l2), blank);
        lemma_scan_line_kinds(s2, record.path);
        assert(record_lines(record) =~= none.push(l1).push(l2).push(blank));
    } else {
        let l2 = "HEAD "@ + record.head;
        let s2 = scan_line(s1, l2);
        lemma_scan_from_push(state, none.push(l1), l2);
        lemma_scan_line_kinds(s1, record.head);
        match record.branch {
            Some(branch) => {
                let l3 = "branch "@ + branch;
                let s3 = scan_line(s2, l3);
                lemma_scan_from_push(state, none.push(l1).push(l2), l3);
                lemma_scan_line_kinds(s2, branch);
                lemma_scan_from_push(state, none.push(l1).push(l2).push(l3), blank);
                lemma_scan_line_kinds(s3, branch);
                assert(record_lines(record) =~= none.push(l1).push(l2).push(l3).push(blank));
            },
            None => {
                let l3 = "detached"@;
                let s3 = scan_line(s2, l3);
                lemma_scan_from_push(state, none.push(l1).push(l2), l3);
                lemma_scan_line_kinds(s2, record.head);
                lemma_scan_from_push(state, none.push(l1).push(l2).push(l3), blank);
                lemma_scan_line_kinds(s3, record.head);
                assert(record_lines(record) =~= none.push(l1).push(l2).push(l3).push(blank));
            },
        }
    }
}

/// Scanning the lines that describe `records` leaves the parser with
/// exactly those records.
pub proof fn lemma_scan_listing(records: Seq<WorktreeView>)
    requires
        forall|i: int| 0 <= i < records.len() ==> is_listable(#[trigger] records[i]),
    ensures
        scan(listing_lines(records)) == scanned(records),
        flushed(scanned(records)) == records,
    decreases records.len(),
{
    if records.len() == 0 {
    } else {
        let init = records.drop_last();
        let last = records.last();
        assert forall|i: int| 0 <= i < init.len() implies is_listable(#[trigger] init[i]) by {
            assert(init[i] == records[i]);
        }
        assert(is_listable(last));
        lemma_scan_listing(init);
        lemma_scan_from_concat(scan_start(), listing_lines(init), record_lines(last));
        lemma_scan_record(scanned(init), last);
        assert(init.push(last) =~= records);
    }
}

/// Every line of the listing of records with single-line fields is a
/// single line.
pub proof fn lemma_listing_lines_single(records: Seq<WorktreeView>)
    requires
        forall|i: int| 0 <= i < records.len() ==> has_single_line_fields(#[trigger] records[i]),
    ensures
        forall|i: int|
            0 <= i < listing_lines(records).len() ==> is_single_line(
                #[trigger] listing_lines(records)[i],
            ),
    decreases records.len(),
{
    if records.len() == 0 {
    } else {
        let init = records.drop_last();
        let last = records.last();
        assert forall|i: int| 0 <= i < init.len() implies has_single_line_fields(
            #[trigger] init[i],
        ) by {
            assert(init[i] == records[i]);
        }
        assert(has_single_line_fields(last));
        lemma_listing_lines_single(init);
        reveal_strlit("worktree ");
        reveal_strlit("HEAD ");
        reveal_strlit("branch ");
        reveal_strlit("bare");
        reveal_strlit("detached");
        let block = record_lines(last);
        assert(is_single_line("worktree "@ + last.path));
        assert(is_single_line("HEAD "@ + last.head));
        assert(is_single_line("bare"@));
        assert(is_single_line("detached"@));
        assert(is_single_line(Seq::<char>::empty()));
        if let Some(branch) = last.branch {
            assert(is_single_line("branch "@ + branch));
        }
        assert forall|i: int| 0 <= i < block.len() implies is_single_line(#[trigger] block[i]) by {}
        let all = listing_lines(records);
        assert forall|i: int| 0 <= i < all.len() implies is_single_line(#[trigger] all[i]) by {
            if i < listing_lines(init).len() {
                assert(all[i] == listing_lines(init)[i]);
            } else {
                assert(all[i] == block[i - listing_lines(init).len()]);
            }
        }
    }
}

/// Parsing recovers the records that a listing describes, field by field.
///
/// This holds of every text whose lines are those of the listing, with or
/// without the blank line that closes the last record, whatever the line
/// terminators are.
pub proof fn law_listing_lines_recovered(records: Seq<WorktreeView>, text: Seq<char>)
    requires
        forall|i: int| 0 <= i < records.len() ==> is_listable(#[trigger] records[i]),
        lines(text) == listing_lines(records) || lines(text).push(Seq::empty()) == listing_lines(
            records,
        ),
    ensures
        parse_listing(text) == records,
{
    lemma_scan_listing(records);
    if lines(text) != listing_lines(records) {
        lemma_scan_from_push(scan_start(), lines(text), Seq::empty());
        lemma_scan_line_kinds(scan(lines(text)), Seq::empty());
    }
}

/// Writing records out as a porcelain listing and parsing that listing
/// gives the same records back: path, head and branch of each, in order.
/// The bare entry comes back with the head `(bare)` and without a branch.
pub proof fn law_listing_round_trip(records: Seq<WorktreeView>)
    requires
        forall|i: int| 0 <= i < records.len() ==> is_listable(#[trigger] records[i]),
        forall|i: int| 0 <= i < records.len() ==> has_single_line_fields(#[trigger] records[i]),
    ensures
        parse_listing(render_listing(records)) == records,
        forall|i: int|
            0 <= i < records.len() && (#[trigger] records[i]).is_bare() ==> {
                &&& parse_listing(render_listing(records))[i].head == bare_head()
                &&& parse_listing(render_listing(records))[i].branch is None
            },
{
    lemma_listing_lines_single(records);
    lemma_lines_of_unlines(listing_lines(records));
    law_listing_lines_recovered(records, render_listing(records));
}


/// How many of `records` are the bare entry.
pub open spec fn bare_count(records: Seq<WorktreeView>) -> nat
    decreases records.len(),
{
    if records.len() == 0 {
        0
    } else if records.last().is_bare() {
        bare_count(records.drop_last()) + 1
    } else {
        bare_count(records.drop_last())
    }
}

/// How many of `records` are checkouts.
pub open spec fn checkout_count(records: Seq<WorktreeView>) -> nat
    decreases records.len(),
{
    if records.len() == 0 {
        0
    } else if records.last().is_bare() {
        checkout_count(records.drop_last())
    } else {
        checkout_count(records.drop_last()) + 1
    }
}

/// Every record is the bare entry or a checkout.
pub proof fn lemma_counts_add_up(records: Seq<WorktreeView>)
    ensures
        bare_count(records) + checkout_count(records) == records.len(),
    decreases records.len(),
{
    if records.len() > 0 {
        lemma_counts_add_up(records.drop_last());
    }
}

/// A listing of one bare entry and some checkouts is parsed into one record
/// more than it has checkouts, and the bare entry among them answers to no
/// name.
pub proof fn law_bare_entry_is_listed_but_never_found(
    records: Seq<WorktreeView>,
    name: Seq<char>,
)
    requires
        forall|i: int| 0 <= i < records.len() ==> is_listable(#[trigger] records[i]),
        forall|i: int| 0 <= i < records.len() ==> has_single_line_fields(#[trigger] records[i]),
        bare_count(records) == 1,
    ensures
        parse_listing(render_listing(records)).len() == checkout_count(records) + 1,
        forall|i: int|
            0 <= i < records.len() && (#[trigger] records[i]).is_bare() ==> !is_called(
                parse_listing(render_listing(records))[i],
                name,
            ),
{
    law_listing_round_trip(records);
    lemma_counts_add_up(records);
}

} // verus!
