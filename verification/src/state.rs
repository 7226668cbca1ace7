//! The state file: one line that records which worktree was active before
//! the last switch.

use crate::git::GitError;
use crate::paths::{join, path_join};
use crate::text::{
    is_whitespace, lemma_first_newline_is, lemma_trim_end_is_take, lemma_trim_start_is_skip, lines,
    split_lines, strip_carriage_return, strip_prefix, trim, trimmed, without_prefix,
};
use vstd::prelude::*;

verus! {

/// The directory under the hub root that holds the state file and the hook
/// configuration.
pub const STATE_DIR: &'static str = ".wtree";

/// The state file, as a path from the hub root.
pub const STATE_FILE: &'static str = ".wtree/state";

/// The name that the first line of the form `previous=<name>` records, white
/// space around the name left out. A line whose name is blank records nothing
/// and is passed over.
pub open spec fn previous_in(all: Seq<Seq<char>>) -> Option<Seq<char>>
    decreases all.len(),
{
    if all.len() == 0 {
        None
    } else {
        match strip_prefix(all[0], "previous="@) {
            Some(value) if trim(value).len() > 0 => Some(trim(value)),
            _ => previous_in(all.drop_first()),
        }
    }
}

/// The previous worktree that a state file with this content records.
pub open spec fn recorded_previous(content: Seq<char>) -> Option<Seq<char>> {
    previous_in(lines(content))
}

/// The content of a state file that records `name`.
pub open spec fn state_content(name: Seq<char>) -> Seq<char> {
    "previous="@ + name + seq!['\n']
}

/// What was found in the place of the state file.
#[derive(Debug)]
pub enum StateFile {
    /// There is no state file.
    Missing,
    /// The state file could not be read; the text says why.
    Unreadable(String),
    /// The content of the state file.
    Content(String),
}

/// A state file as plain text.
pub enum StateFileView {
    Missing,
    Unreadable(Seq<char>),
    Content(Seq<char>),
}

impl View for StateFile {
    type V = StateFileView;

    open spec fn view(&self) -> StateFileView {
        match self {
            StateFile::Missing => StateFileView::Missing,
            StateFile::Unreadable(reason) => StateFileView::Unreadable(reason@),
            StateFile::Content(content) => StateFileView::Content(content@),
        }
    }
}

/// What reading the previous worktree yields: the name that the state file
/// records, if it records one, or the message of the failure to read it.
/// A state file that is missing is no failure: it records nothing.
pub open spec fn previous_worktree(state: StateFileView) -> Result<Option<Seq<char>>, Seq<char>> {
    match state {
        StateFileView::Missing => Ok(None),
        StateFileView::Unreadable(reason) => Err("Failed to read state file: "@ + reason),
        StateFileView::Content(content) => Ok(recorded_previous(content)),
    }
}

/// The name of the previous worktree, from what was found in the place of
/// the state file.
pub fn read_previous_worktree(state: &StateFile) -> (result: Result<Option<String>, GitError>)
    ensures
        match result {
            Ok(previous) => previous_worktree(state@) == Ok::<Option<Seq<char>>, Seq<char>>(
                previous.deep_view(),
            ),
            Err(error) => previous_worktree(state@) == Err::<Option<Seq<char>>, Seq<char>>(
                error.message@,
            ),
        },
{
    let content = match state {
        StateFile::Missing => {
            return Ok(None);
        },
        StateFile::Unreadable(reason) => {
            let mut message = "Failed to read state file: ".to_owned();
            message.append(reason.as_str());
            return Err(GitError { message });
        },
        StateFile::Content(content) => content.as_str(),
    };
    let all = split_lines(content);
    let mut i: usize = 0;
    assert(all.deep_view().skip(0) =~= all.deep_view());
    while i < all.len()
        invariant
            i <= all.len(),
            state@ == StateFileView::Content(content@),
            all.deep_view() == lines(content@),
            recorded_previous(content@) == previous_in(all.deep_view().skip(i as int)),
        decreases all.len() - i,
    {
        proof {
            let rest = all.deep_view().skip(i as int);
            assert(rest[0] == all[i as int]@);
            assert(rest.drop_first() =~= all.deep_view().skip(i + 1));
        }
        if let Some(value) = without_prefix(all[i].as_str(), "previous=") {
            let name = trimmed(value.as_str());
            if !name.as_str().is_empty() {
                return Ok(Some(name));
            }
        }
        i += 1;
    }
    Ok(None)
}

/// The content to write to the state file so that it records `name`: the
/// one line `previous=<name>`. It replaces whatever the file held.
pub fn save_previous_worktree(name: &str) -> (content: String)
    ensures
        content@ == state_content(name@),
{
    let mut content = "previous=".to_owned();
    content.append(name);
    proof {
        reveal_strlit("\n");
    }
    content.append("\n");
    assert(content@ =~= state_content(name@));
    content
}

/// A step of saving the state.
#[derive(Debug, Clone, Copy, PartialEq, Eq, Structural)]
pub enum SaveStep {
    /// Making sure that the directory of the state file exists.
    CreateDirectory,
    /// Writing the state file.
    WriteFile,
}

/// The failure of a step of saving the state; `reason` says why it failed.
pub fn save_failure(step: SaveStep, reason: &str) -> (error: GitError)
    ensures
        error.message@ == match step {
            SaveStep::CreateDirectory => "Failed to create state directory: "@ + reason@,
            SaveStep::WriteFile => "Failed to write state file: "@ + reason@,
        },
{
    let mut message = match step {
        SaveStep::CreateDirectory => "Failed to create state directory: ".to_owned(),
        SaveStep::WriteFile => "Failed to write state file: ".to_owned(),
    };
    message.append(reason);
    GitError { message }
}

/// The directory that holds the state file of the hub at `hub_root`.
pub fn state_dir(hub_root: &str) -> (dir: String)
    ensures
        dir@ == join(hub_root@, STATE_DIR@),
{
    path_join(hub_root, STATE_DIR)
}

/// The state file of the hub at `hub_root`.
pub fn state_path(hub_root: &str) -> (file: String)
    ensures
        file@ == join(hub_root@, STATE_FILE@),
{
    path_join(hub_root, STATE_FILE)
}

/// A name that was saved is the name that is read back, for every name that
/// is not blank, fits on one line and has no white space at either end.
pub proof fn law_saved_name_is_read_back(name: Seq<char>)
    requires
        name.len() > 0,
        forall|i: int| 0 <= i < name.len() ==> name[i] != '\n',
        trim(name) == name,
    ensures
        recorded_previous(state_content(name)) == Some(name),
        previous_worktree(StateFileView::Content(state_content(name))) == Ok::<
            Option<Seq<char>>,
            Seq<char>,
        >(Some(name)),
{
    reveal_strlit("previous=");
    let key = "previous="@;
    let line = key + name;
    let content = state_content(name);
    lemma_first_newline_is(content, line.len() as int);
    assert(content.take(line.len() as int) =~= line);
    assert(content.skip(line.len() as int + 1) =~= Seq::<char>::empty());
    assert(!is_whitespace(name.last())) by {
        if is_whitespace(name.last()) {
            if is_whitespace(name[0]) {
                crate::text::lemma_trim_shortens(name);
            } else {
                assert(crate::text::trim_start(name) == name);
                crate::text::lemma_trim_shortens(name);
            }
        }
    }
    assert(strip_carriage_return(line) == line);
    assert(lines(content.skip(line.len() as int + 1)) =~= Seq::<Seq<char>>::empty());
    assert(lines(content) =~= seq![line]);
    assert(seq![line].drop_first() =~= Seq::<Seq<char>>::empty());
    assert(line.subrange(0, key.len() as int) =~= key);
    assert(line.skip(key.len() as int) =~= name);
}

/// A state file whose name is blank records no previous worktree, with
/// or without a line feed at its end: it reads like a state file that is
/// missing.
pub proof fn law_blank_name_is_absent(blank: Seq<char>)
    requires
        forall|i: int| 0 <= i < blank.len() ==> is_whitespace(blank[i]) && blank[i] != '\n',
    ensures
        recorded_previous("previous="@ + blank) == None::<Seq<char>>,
        recorded_previous("previous="@ + blank + seq!['\n']) == None::<Seq<char>>,
        previous_worktree(StateFileView::Content("previous="@ + blank)) == previous_worktree(
            StateFileView::Missing,
        ),
        previous_worktree(StateFileView::Content("previous="@ + blank + seq!['\n']))
            == previous_worktree(StateFileView::Missing),
{
    reveal_strlit("previous=");
    let key = "previous="@;
    let line = key + blank;
    assert(line.subrange(0, key.len() as int) =~= key);
    assert(line.skip(key.len() as int) =~= blank);
    lemma_trim_start_is_skip(blank, blank.len() as int);
    assert(trim(blank) =~= Seq::<char>::empty());
    lemma_first_newline_is(line, line.len() as int);
    assert(lines(line) =~= seq![line]);
    assert(strip_prefix(line, key) == Some(blank));
    assert(previous_in(Seq::<Seq<char>>::empty()) == None::<Seq<char>>);
    assert(seq![line].drop_first() =~= Seq::<Seq<char>>::empty());
    assert(previous_in(seq![line]) == None::<Seq<char>>);
    let content = line + seq!['\n'];
    lemma_first_newline_is(content, line.len() as int);
    assert(content.take(line.len() as int) =~= line);
    assert(content.skip(line.len() as int + 1) =~= Seq::<char>::empty());
    let kept = strip_carriage_return(line);
    assert(lines(content.skip(line.len() as int + 1)) =~= Seq::<Seq<char>>::empty());
    assert(lines(content) =~= seq![kept]);
    if kept != line {
        let shorter = blank.drop_last();
        assert(kept =~= key + shorter);
        assert(kept.subrange(0, key.len() as int) =~= key);
        assert(kept.skip(key.len() as int) =~= shorter);
        lemma_trim_start_is_skip(shorter, shorter.len() as int);
        assert(trim(shorter) =~= Seq::<char>::empty());
    }
    assert(seq![kept].drop_first() =~= Seq::<Seq<char>>::empty());
    assert(trim(strip_prefix(kept, key)->0).len() == 0);
    assert(previous_in(seq![kept]) == None::<Seq<char>>);
}

} // verus!
