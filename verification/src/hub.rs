//! Finding the hub root: the directory that holds the bare repository
//! `.bare` and, beside it, the worktrees.
//!
//! The search starts in some directory and walks up. A directory is the hub
//! root if `.bare` is a directory in it. A directory with a regular file
//! `.git` is a worktree: the file points at the bare repository, whose
//! parent is the hub root if `.bare` is found in it. A directory in which
//! neither marker leads to a hub root, be it that the markers are missing,
//! that the file `.git` cannot be read, or that it points elsewhere, hands
//! the search to its parent; the search fails where there is no parent
//! left.
//!
//! The library asks for one look at the disk at a time, and decides from the
//! answer what to ask next.

use crate::git::GitError;
use crate::paths::{join, law_parent_is_shorter, parent, path_join, path_parent};
use crate::text::{strip_prefix, trim, trimmed, without_prefix};
use vstd::prelude::*;

verus! {

/// The name of the bare repository inside the hub root.
pub const BARE_DIR: &'static str = ".bare";

/// The name of the file by which a worktree points at its repository.
pub const GIT_FILE: &'static str = ".git";

/// Where the search stands.
#[derive(Debug)]
pub enum HubSearch {
    /// Waiting to hear whether `.bare` is a directory in `dir`.
    CheckBare { dir: String },
    /// Waiting for the content of the file `.git` in `dir`.
    ReadGitFile { dir: String },
    /// Waiting for the canonical form of `candidate`, the directory that
    /// the file `.git` in `dir` points into.
    Resolve { dir: String, candidate: String },
    /// Waiting to hear whether `.bare` exists in `root`, found from `dir`.
    CheckCandidate { dir: String, root: String },
    /// The hub root.
    Found(String),
    /// The search has failed.
    Failed(GitError),
}

/// A state of the search as plain text.
pub enum HubSearchView {
    CheckBare { dir: Seq<char> },
    ReadGitFile { dir: Seq<char> },
    Resolve { dir: Seq<char>, candidate: Seq<char> },
    CheckCandidate { dir: Seq<char>, root: Seq<char> },
    Found(Seq<char>),
    Failed(Seq<char>),
}

impl View for HubSearch {
    type V = HubSearchView;

    open spec fn view(&self) -> HubSearchView {
        match self {
            HubSearch::CheckBare { dir } => HubSearchView::CheckBare { dir: dir@ },
            HubSearch::ReadGitFile { dir } => HubSearchView::ReadGitFile { dir: dir@ },
            HubSearch::Resolve { dir, candidate } => HubSearchView::Resolve {
                dir: dir@,
                candidate: candidate@,
            },
            HubSearch::CheckCandidate { dir, root } => HubSearchView::CheckCandidate {
                dir: dir@,
                root: root@,
            },
            HubSearch::Found(root) => HubSearchView::Found(root@),
            HubSearch::Failed(error) => HubSearchView::Failed(error.message@),
        }
    }
}

/// One look at the disk that the search asks for, or its end.
#[derive(Debug)]
pub enum Probe {
    /// Is this path a directory?
    IsDirectory(String),
    /// Read this path if it is a regular file.
    ReadFile(String),
    /// Give the canonical form of this path.
    Canonicalize(String),
    /// Does this path exist?
    Exists(String),
    /// Nothing more to look at: this is the hub root.
    Found(String),
    /// Nothing more to look at: there is no hub root.
    Failed(GitError),
}

/// A probe as plain text.
pub enum ProbeView {
    IsDirectory(Seq<char>),
    ReadFile(Seq<char>),
    Canonicalize(Seq<char>),
    Exists(Seq<char>),
    Found(Seq<char>),
    Failed(Seq<char>),
}

impl View for Probe {
    type V = ProbeView;

    open spec fn view(&self) -> ProbeView {
        match self {
            Probe::IsDirectory(path) => ProbeView::IsDirectory(path@),
            Probe::ReadFile(path) => ProbeView::ReadFile(path@),
            Probe::Canonicalize(path) => ProbeView::Canonicalize(path@),
            Probe::Exists(path) => ProbeView::Exists(path@),
            Probe::Found(root) => ProbeView::Found(root@),
            Probe::Failed(error) => ProbeView::Failed(error.message@),
        }
    }
}

/// What a look at the disk has shown.
#[derive(Debug)]
pub enum Finding {
    /// The answer to `IsDirectory` and to `Exists`.
    Flag(bool),
    /// The answer to `ReadFile`: the path is no regular file.
    NoFile,
    /// The answer to `ReadFile`: the file is there and could not be read.
    Unreadable,
    /// The answer to `ReadFile`: the content of the file.
    Content(String),
    /// The answer to `Canonicalize`: the canonical path, or `None` if the
    /// path could not be resolved.
    Canonical(Option<String>),
}

/// A finding as plain text.
pub enum FindingView {
    Flag(bool),
    NoFile,
    Unreadable,
    Content(Seq<char>),
    Canonical(Option<Seq<char>>),
}

impl View for Finding {
    type V = FindingView;

    open spec fn view(&self) -> FindingView {
        match self {
            Finding::Flag(flag) => FindingView::Flag(*flag),
            Finding::NoFile => FindingView::NoFile,
            Finding::Unreadable => FindingView::Unreadable,
            Finding::Content(content) => FindingView::Content(content@),
            Finding::Canonical(path) => FindingView::Canonical(path.deep_view()),
        }
    }
}

/// The message of the failure to learn the current directory.
pub open spec fn current_dir_unknown(reason: Seq<char>) -> Seq<char> {
    "Cannot get current dir: "@ + reason
}

/// The message of a search that has run out of directories.
pub open spec fn not_a_repository() -> Seq<char> {
    "Not inside a wtree repository (cannot find .bare directory)"@
}

/// The directory that the file `.git` of the worktree `dir` points into:
/// the parent of the path that follows `gitdir: `, taken from `dir` if it
/// is not absolute. `None` if the content does not start with `gitdir: `,
/// or if that path has no parent.
pub open spec fn gitdir_candidate(dir: Seq<char>, content: Seq<char>) -> Option<Seq<char>> {
    match strip_prefix(content, "gitdir: "@) {
        Some(rest) => parent(join(dir, trim(rest))),
        None => None,
    }
}

/// The search moved on from `dir` to its parent; failed if it has none.
pub open spec fn ascended(dir: Seq<char>) -> HubSearchView {
    match parent(dir) {
        Some(up) => HubSearchView::CheckBare { dir: up },
        None => HubSearchView::Failed(not_a_repository()),
    }
}

impl HubSearchView {
    /// What the search asks for in this state.
    pub open spec fn probe(self) -> ProbeView {
        match self {
            HubSearchView::CheckBare { dir } => ProbeView::IsDirectory(join(dir, BARE_DIR@)),
            HubSearchView::ReadGitFile { dir } => ProbeView::ReadFile(join(dir, GIT_FILE@)),
            HubSearchView::Resolve { dir, candidate } => ProbeView::Canonicalize(candidate),
            HubSearchView::CheckCandidate { dir, root } => ProbeView::Exists(join(root, BARE_DIR@)),
            HubSearchView::Found(root) => ProbeView::Found(root),
            HubSearchView::Failed(message) => ProbeView::Failed(message),
        }
    }

    /// The search after the answer to its probe. An answer of another kind
    /// than the probe asks for changes nothing.
    pub open spec fn found(self, finding: FindingView) -> HubSearchView {
        match (self, finding) {
            (HubSearchView::CheckBare { dir }, FindingView::Flag(is_dir)) => if is_dir {
                HubSearchView::Found(dir)
            } else {
                HubSearchView::ReadGitFile { dir }
            },
            (HubSearchView::ReadGitFile { dir }, FindingView::NoFile) => ascended(dir),
            (HubSearchView::ReadGitFile { dir }, FindingView::Unreadable) => ascended(dir),
            (HubSearchView::ReadGitFile { dir }, FindingView::Content(content)) => {
                match gitdir_candidate(dir, content) {
                    Some(candidate) => HubSearchView::Resolve { dir, candidate },
                    None => ascended(dir),
                }
            },
            (
                HubSearchView::Resolve { dir, candidate },
                FindingView::Canonical(resolved),
            ) => HubSearchView::CheckCandidate {
                dir,
                root: match resolved {
                    Some(path) => path,
                    None => candidate,
                },
            },
            (HubSearchView::CheckCandidate { dir, root }, FindingView::Flag(exists)) => if exists {
                HubSearchView::Found(root)
            } else {
                ascended(dir)
            },
            _ => self,
        }
    }
}

impl HubSearchView {
    /// Whether `finding` is an answer to the probe that the search asks for.
    pub open spec fn is_answered_by(self, finding: FindingView) -> bool {
        match self {
            HubSearchView::CheckBare { .. } => finding is Flag,
            HubSearchView::ReadGitFile { .. } => finding is NoFile || finding is Unreadable
                || finding is Content,
            HubSearchView::Resolve { .. } => finding is Canonical,
            HubSearchView::CheckCandidate { .. } => finding is Flag,
            _ => false,
        }
    }

    /// A bound on the number of probes that the search may still ask for.
    pub open spec fn probes_left(self) -> nat {
        match self {
            HubSearchView::CheckBare { dir } => 4 * dir.len() + 4,
            HubSearchView::ReadGitFile { dir } => 4 * dir.len() + 3,
            HubSearchView::Resolve { dir, .. } => 4 * dir.len() + 2,
            HubSearchView::CheckCandidate { dir, .. } => 4 * dir.len() + 1,
            _ => 0,
        }
    }
}

/// The search after a run of answers.
pub open spec fn after_findings(state: HubSearchView, findings: Seq<FindingView>) -> HubSearchView
    decreases findings.len(),
{
    if findings.len() == 0 {
        state
    } else {
        after_findings(state, findings.drop_last()).found(findings.last())
    }
}

/// The failure to learn the current directory; `reason` says why.
pub fn current_dir_failure(reason: &str) -> (error: GitError)
    ensures
        error.message@ == current_dir_unknown(reason@),
{
    let mut message = "Cannot get current dir: ".to_owned();
    message.append(reason);
    GitError { message }
}

/// The search moved on from `dir` to its parent.
fn ascend(dir: &str) -> (next: HubSearch)
    ensures
        next@ == ascended(dir@),
{
    match path_parent(dir) {
        Some(up) => HubSearch::CheckBare { dir: up },
        None => HubSearch::Failed(
            GitError::new("Not inside a wtree repository (cannot find .bare directory)"),
        ),
    }
}

impl HubSearch {
    /// The search that starts in `start_dir`.
    pub fn begin(start_dir: &str) -> (search: Self)
        ensures
            search@ == (HubSearchView::CheckBare { dir: start_dir@ }),
    {
        HubSearch::CheckBare { dir: start_dir.to_owned() }
    }

    /// The search that cannot start, because the current directory is not
    /// known; `reason` says why.
    pub fn without_start(reason: &str) -> (search: Self)
        ensures
            search@ == HubSearchView::Failed(current_dir_unknown(reason@)),
    {
        HubSearch::Failed(current_dir_failure(reason))
    }

    /// The probe that the search is waiting on.
    pub fn probe(&self) -> (probe: Probe)
        ensures
            probe@ == self@.probe(),
    {
        match self {
            HubSearch::CheckBare { dir } => Probe::IsDirectory(path_join(dir.as_str(), BARE_DIR)),
            HubSearch::ReadGitFile { dir } => Probe::ReadFile(path_join(dir.as_str(), GIT_FILE)),
            HubSearch::Resolve { dir, candidate } => Probe::Canonicalize(candidate.clone()),
            HubSearch::CheckCandidate { dir, root } => Probe::Exists(
                path_join(root.as_str(), BARE_DIR),
            ),
            HubSearch::Found(root) => Probe::Found(root.clone()),
            HubSearch::Failed(error) => Probe::Failed(GitError::new(error.message.as_str())),
        }
    }

    /// The search after the answer to its probe.
    pub fn found(self, finding: Finding) -> (next: Self)
        ensures
            next@ == self@.found(finding@),
    {
        match (self, finding) {
            (HubSearch::CheckBare { dir }, Finding::Flag(is_dir)) => {
                if is_dir {
                    HubSearch::Found(dir)
                } else {
                    HubSearch::ReadGitFile { dir }
                }
            },
            (HubSearch::ReadGitFile { dir }, Finding::NoFile) => ascend(dir.as_str()),
            (HubSearch::ReadGitFile { dir }, Finding::Unreadable) => ascend(dir.as_str()),
            (HubSearch::ReadGitFile { dir }, Finding::Content(content)) => {
                let candidate = match without_prefix(content.as_str(), "gitdir: ") {
                    Some(rest) => {
                        let gitdir = trimmed(rest.as_str());
                        path_parent(path_join(dir.as_str(), gitdir.as_str()).as_str())
                    },
                    None => None,
                };
                match candidate {
                    Some(candidate) => HubSearch::Resolve { dir, candidate },
                    None => ascend(dir.as_str()),
                }
            },
            (HubSearch::Resolve { dir, candidate }, Finding::Canonical(resolved)) => {
                HubSearch::CheckCandidate {
                    dir,
                    root: match resolved {
                        Some(path) => path,
                        None => candidate,
                    },
                }
            },
            (HubSearch::CheckCandidate { dir, root }, Finding::Flag(exists)) => {
                if exists {
                    HubSearch::Found(root)
                } else {
                    ascend(dir.as_str())
                }
            },
            (search, _) => search,
        }
    }
}

/// The search comes to an end: each answer to its probe brings it closer,
/// since a directory has fewer characters than those below it, and there
/// are four probes to a directory at most.
pub proof fn law_search_ends(state: HubSearchView, finding: FindingView)
    requires
        state.is_answered_by(finding),
    ensures
        state.found(finding).probes_left() < state.probes_left(),
{
    match state {
        HubSearchView::CheckBare { dir } => {},
        HubSearchView::ReadGitFile { dir } => {
            law_parent_is_shorter(dir);
        },
        HubSearchView::Resolve { dir, candidate } => {},
        HubSearchView::CheckCandidate { dir, root } => {
            law_parent_is_shorter(dir);
        },
        _ => {},
    }
}

/// A search that has started fails in one way only: by running out of
/// directories. Whatever it is told of the disk, it ends with no other
/// message.
pub proof fn law_search_fails_only_at_the_root(dir: Seq<char>, findings: Seq<FindingView>)
    ensures
        after_findings(HubSearchView::CheckBare { dir }, findings) matches HubSearchView::Failed(
            message,
        ) ==> message == not_a_repository(),
    decreases findings.len(),
{
    if findings.len() > 0 {
        law_search_fails_only_at_the_root(dir, findings.drop_last());
    }
}

/// The directory that lies `levels` above `dir`, if the path reaches that
/// far up.
pub open spec fn ancestor(dir: Seq<char>, levels: nat) -> Option<Seq<char>>
    decreases levels,
{
    if levels == 0 {
        Some(dir)
    } else {
        match ancestor(dir, (levels - 1) as nat) {
            Some(below) => parent(below),
            None => None,
        }
    }
}

/// Whether `answers` are those of a directory that is not taken for the
/// hub root and not for a worktree of one: with them the search goes on
/// from `dir` to its parent.
pub open spec fn hands_over(dir: Seq<char>, answers: Seq<FindingView>) -> bool {
    after_findings(HubSearchView::CheckBare { dir }, answers) == ascended(dir)
}

/// The answers of several directories, one after the other.
pub open spec fn in_turn(levels: Seq<Seq<FindingView>>) -> Seq<FindingView>
    decreases levels.len(),
{
    if levels.len() == 0 {
        Seq::empty()
    } else {
        in_turn(levels.drop_last()) + levels.last()
    }
}

/// Answers taken in two runs lead where they lead taken as one.
pub proof fn lemma_after_findings_concat(
    state: HubSearchView,
    first: Seq<FindingView>,
    second: Seq<FindingView>,
)
    ensures
        after_findings(state, first + second) == after_findings(
            after_findings(state, first),
            second,
        ),
    decreases second.len(),
{
    if second.len() == 0 {
        assert(first + second =~= first);
    } else {
        lemma_after_findings_concat(state, first, second.drop_last());
        assert((first + second).drop_last() =~= first + second.drop_last());
    }
}

/// Four kinds of directory hand the search over to their parent: one that
/// holds neither `.bare` nor a file `.git`; one whose file `.git` cannot be
/// read; one whose file `.git` does not point anywhere; and one whose file
/// `.git` points to a place that holds no `.bare`.
pub proof fn law_directories_that_hand_over(
    dir: Seq<char>,
    content: Seq<char>,
    canonical: Option<Seq<char>>,
)
    ensures
        hands_over(dir, seq![FindingView::Flag(false), FindingView::NoFile]),
        hands_over(dir, seq![FindingView::Flag(false), FindingView::Unreadable]),
        gitdir_candidate(dir, content) is None ==> hands_over(
            dir,
            seq![FindingView::Flag(false), FindingView::Content(content)],
        ),
        gitdir_candidate(dir, content) is Some ==> hands_over(
            dir,
            seq![
                FindingView::Flag(false),
                FindingView::Content(content),
                FindingView::Canonical(canonical),
                FindingView::Flag(false),
            ],
        ),
{
    let start = HubSearchView::CheckBare { dir };
    let none = Seq::<FindingView>::empty();
    let no = FindingView::Flag(false);
    let read = FindingView::Content(content);
    let resolved = FindingView::Canonical(canonical);
    assert(after_findings(start, none) == start);
    lemma_after_findings_push(start, none, no);
    lemma_after_findings_push(start, none.push(no), FindingView::NoFile);
    lemma_after_findings_push(start, none.push(no), FindingView::Unreadable);
    lemma_after_findings_push(start, none.push(no), read);
    lemma_after_findings_push(start, none.push(no).push(read), resolved);
    lemma_after_findings_push(start, none.push(no).push(read).push(resolved), no);
    assert(seq![no, FindingView::NoFile] =~= none.push(no).push(FindingView::NoFile));
    assert(seq![no, FindingView::Unreadable] =~= none.push(no).push(FindingView::Unreadable));
    assert(seq![no, read] =~= none.push(no).push(read));
    assert(seq![no, read, resolved, no] =~= none.push(no).push(read).push(resolved).push(no));
}

/// One more answer is one more step of the search.
pub proof fn lemma_after_findings_push(
    state: HubSearchView,
    before: Seq<FindingView>,
    finding: FindingView,
)
    ensures
        after_findings(state, before.push(finding)) == after_findings(state, before).found(
            finding,
        ),
{
    assert(before.push(finding).drop_last() =~= before);
}

/// A search that starts any number of levels below the hub root, in
/// directories that each hand it over to their parent, comes to the hub
/// root and finds there what a search that starts in the hub root finds.
pub proof fn law_search_from_below_finds_same_root(
    dir: Seq<char>,
    levels: Seq<Seq<FindingView>>,
)
    requires
        ancestor(dir, levels.len()) is Some,
        forall|i: int|
            0 <= i < levels.len() ==> hands_over(
                ancestor(dir, i as nat)->0,
                #[trigger] levels[i],
            ),
    ensures
        after_findings(HubSearchView::CheckBare { dir }, in_turn(levels))
            == (HubSearchView::CheckBare { dir: ancestor(dir, levels.len())->0 }),
        after_findings(
            HubSearchView::CheckBare { dir },
            in_turn(levels).push(FindingView::Flag(true)),
        ) == HubSearchView::Found(ancestor(dir, levels.len())->0),
        (HubSearchView::CheckBare { dir: ancestor(dir, levels.len())->0 }).found(
            FindingView::Flag(true),
        ) == HubSearchView::Found(ancestor(dir, levels.len())->0),
    decreases levels.len(),
{
    let start = HubSearchView::CheckBare { dir };
    if levels.len() > 0 {
        let below = levels.drop_last();
        assert forall|i: int| 0 <= i < below.len() implies hands_over(
            ancestor(dir, i as nat)->0,
            #[trigger] below[i],
        ) by {
            assert(below[i] == levels[i]);
        }
        law_search_from_below_finds_same_root(dir, below);
        lemma_after_findings_concat(start, in_turn(below), levels.last());
        assert(hands_over(ancestor(dir, below.len())->0, levels[levels.len() - 1]));
    }
    lemma_after_findings_push(start, in_turn(levels), FindingView::Flag(true));
}

/// A worktree whose file `.git` points into a hub ends the search at that
/// hub's root, in its canonical form where it has one.
pub proof fn law_worktree_leads_to_hub(
    dir: Seq<char>,
    content: Seq<char>,
    resolved: Option<Seq<char>>,
)
    requires
        gitdir_candidate(dir, content) is Some,
    ensures
        (HubSearchView::CheckBare { dir }).found(FindingView::Flag(false)).found(
            FindingView::Content(content),
        ).found(FindingView::Canonical(resolved)).found(FindingView::Flag(true))
            == HubSearchView::Found(
            match resolved {
                Some(path) => path,
                None => gitdir_candidate(dir, content)->0,
            },
        ),
{
}

} // verus!
