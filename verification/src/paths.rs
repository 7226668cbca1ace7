//! Paths as text: segments separated by `/`.
//!
//! Empty segments and `.` segments after the first carry no meaning and are
//! passed over, so `/r//main/.` names the same place as `/r/main`.

use crate::text::{chars_of, same_text, substring};
use vstd::prelude::*;

verus! {

/// Whether `path` starts at the root.
pub open spec fn is_absolute(path: Seq<char>) -> bool {
    path.len() > 0 && path[0] == '/'
}

/// `path` without the separators and `.` segments that end it.
pub open spec fn trim_tail(path: Seq<char>) -> Seq<char>
    decreases path.len(),
{
    if path.len() > 0 && path.last() == '/' {
        trim_tail(path.drop_last())
    } else if path.len() >= 2 && path.last() == '.' && path[path.len() - 2] == '/' {
        trim_tail(path.drop_last())
    } else {
        path
    }
}

/// Where the last segment of `path` begins: after its last separator, or at
/// the start if it has none.
pub open spec fn last_segment_start(path: Seq<char>) -> nat
    decreases path.len(),
{
    if path.len() == 0 || path.last() == '/' {
        path.len()
    } else {
        last_segment_start(path.drop_last())
    }
}

/// The final segment of `path`, by which a worktree is known: the last
/// segment that is neither empty nor `.`. There is none if no such segment
/// exists, or if it is `..`.
pub open spec fn file_name(path: Seq<char>) -> Option<Seq<char>> {
    let body = trim_tail(path);
    let name = body.skip(last_segment_start(body) as int);
    if body.len() == 0 || name == "."@ || name == ".."@ {
        None
    } else {
        Some(name)
    }
}

/// The directory that holds `path`: the path without its final segment.
/// The root and the empty path have none.
pub open spec fn parent(path: Seq<char>) -> Option<Seq<char>> {
    let body = trim_tail(path);
    let stem = trim_tail(body.take(last_segment_start(body) as int));
    if body.len() == 0 {
        None
    } else if stem.len() == 0 && is_absolute(path) {
        Some(path.take(1))
    } else {
        Some(stem)
    }
}

/// `path` as seen from `base`: `path` itself if it is absolute, else `base`
/// followed by `path`, with a separator between them where `base` does not
/// end in one.
pub open spec fn join(base: Seq<char>, path: Seq<char>) -> Seq<char> {
    if is_absolute(path) {
        path
    } else if base.len() > 0 && base.last() != '/' {
        base + seq!['/'] + path
    } else {
        base + path
    }
}

/// `trim_tail` gives a prefix of the path, which ends neither in a
/// separator nor in a `.` segment that follows one.
pub proof fn lemma_trim_tail(path: Seq<char>)
    ensures
        trim_tail(path).len() <= path.len(),
        trim_tail(path) == path.take(trim_tail(path).len() as int),
        trim_tail(path).len() > 0 ==> trim_tail(path).last() != '/',
        trim_tail(trim_tail(path)) == trim_tail(path),
    decreases path.len(),
{
    if path.len() > 0 && (path.last() == '/' || (path.len() >= 2 && path.last() == '.' && path[path.len()
        - 2] == '/')) {
        let rest = path.drop_last();
        lemma_trim_tail(rest);
        assert(rest.take(trim_tail(rest).len() as int) =~= path.take(trim_tail(rest).len() as int));
    } else {
        assert(path.take(path.len() as int) =~= path);
    }
}

/// The last segment starts within the path.
pub proof fn lemma_last_segment_start(path: Seq<char>)
    ensures
        last_segment_start(path) <= path.len(),
        path.len() > 0 && path.last() != '/' ==> last_segment_start(path) < path.len(),
    decreases path.len(),
{
    if path.len() == 0 || path.last() == '/' {
    } else {
        lemma_last_segment_start(path.drop_last());
    }
}

/// A position after which no separator comes, and which is the start of
/// the path or follows a separator, is where the last segment starts.
pub proof fn lemma_last_segment_start_is(path: Seq<char>, start: int)
    requires
        0 <= start <= path.len(),
        forall|i: int| start <= i < path.len() ==> path[i] != '/',
        start > 0 ==> path[start - 1] == '/',
    ensures
        last_segment_start(path) == start,
    decreases path.len(),
{
    if path.len() == 0 || path.last() == '/' {
    } else {
        let rest = path.drop_last();
        assert forall|i: int| start <= i < rest.len() implies rest[i] != '/' by {
            assert(rest[i] == path[i]);
        }
        lemma_last_segment_start_is(rest, start);
    }
}

/// The parent of a path is shorter than the path: a walk from parent to
/// parent comes to an end.
pub proof fn law_parent_is_shorter(path: Seq<char>)
    ensures
        parent(path) matches Some(up) ==> up.len() < path.len(),
{
    let body = trim_tail(path);
    lemma_trim_tail(path);
    if body.len() > 0 {
        lemma_last_segment_start(body);
        lemma_trim_tail(body.take(last_segment_start(body) as int));
        assert(body[0] == path[0]);
    }
}

/// A worktree that stands in `base` under the name `name` is known by
/// that name: the final segment of its path is `name`, for every name that
/// is a single segment other than `.` and `..`.
pub proof fn law_joined_name_is_file_name(base: Seq<char>, name: Seq<char>)
    requires
        name.len() > 0,
        forall|i: int| 0 <= i < name.len() ==> name[i] != '/',
        name != "."@,
        name != ".."@,
    ensures
        file_name(join(base, name)) == Some(name),
{
    reveal_strlit(".");
    let joined = join(base, name);
    let start = joined.len() - name.len();
    assert(joined.skip(start) =~= name);
    assert(joined.last() == name.last());
    if name.len() >= 2 {
        assert(joined[joined.len() - 2] == name[name.len() - 2]);
    } else {
        assert(name =~= seq![name[0]]);
        assert("."@ =~= seq!['.']);
    }
    assert(trim_tail(joined) == joined);
    assert forall|i: int| start <= i < joined.len() implies joined[i] != '/' by {
        assert(joined[i] == name[i - start]);
    }
    lemma_last_segment_start_is(joined, start);
}

/// How many characters of `chars[..len]` are left once its trailing
/// separators and `.` segments are gone.
fn body_length(chars: &Vec<char>, len: usize) -> (end: usize)
    requires
        len <= chars.len(),
    ensures
        end <= len,
        trim_tail(chars@.take(len as int)) == chars@.take(end as int),
{
    let mut end: usize = len;
    loop
        invariant
            end <= len <= chars.len(),
            trim_tail(chars@.take(len as int)) == trim_tail(chars@.take(end as int)),
        ensures
            trim_tail(chars@.take(end as int)) == chars@.take(end as int),
        decreases end,
    {
        let ghost here = chars@.take(end as int);
        if end > 0 && chars[end - 1] == '/' {
            assert(here.drop_last() =~= chars@.take(end - 1));
            end -= 1;
        } else if end >= 2 && chars[end - 1] == '.' && chars[end - 2] == '/' {
            assert(here.drop_last() =~= chars@.take(end - 1));
            end -= 1;
        } else {
            break ;
        }
    }
    end
}

/// Where the last segment of `chars[..len]` begins.
pub(crate) fn segment_start(chars: &Vec<char>, len: usize) -> (start: usize)
    requires
        len <= chars.len(),
    ensures
        start <= len,
        start == last_segment_start(chars@.take(len as int)),
{
    let mut start: usize = len;
    while start > 0 && chars[start - 1] != '/'
        invariant
            start <= len <= chars.len(),
            last_segment_start(chars@.take(len as int)) == last_segment_start(
                chars@.take(start as int),
            ),
        decreases start,
    {
        assert(chars@.take(start as int).drop_last() =~= chars@.take(start - 1));
        start -= 1;
    }
    start
}

/// Whether `path` starts at the root.
pub fn path_is_absolute(path: &str) -> (absolute: bool)
    ensures
        absolute == is_absolute(path@),
{
    path.unicode_len() > 0 && path.get_char(0) == '/'
}

/// The final segment of `path`, if it has one that names something.
pub fn path_file_name(path: &str) -> (name: Option<String>)
    ensures
        name.deep_view() == file_name(path@),
{
    let chars = chars_of(path);
    let end = body_length(&chars, chars.len());
    let start = segment_start(&chars, end);
    proof {
        assert(chars@.take(chars.len() as int) =~= path@);
        assert(chars@.take(end as int).skip(start as int) =~= path@.subrange(
            start as int,
            end as int,
        ));
    }
    if end == 0 {
        return None;
    }
    let name = substring(path, start, end);
    if same_text(name.as_str(), ".") || same_text(name.as_str(), "..") {
        None
    } else {
        Some(name)
    }
}

/// The directory that holds `path`, if it has one.
pub fn path_parent(path: &str) -> (dir: Option<String>)
    ensures
        dir.deep_view() == parent(path@),
{
    let chars = chars_of(path);
    let end = body_length(&chars, chars.len());
    if end == 0 {
        assert(chars@.take(chars.len() as int) =~= path@);
        return None;
    }
    let start = segment_start(&chars, end);
    let stem = body_length(&chars, start);
    proof {
        assert(chars@.take(chars.len() as int) =~= path@);
        assert(chars@.take(end as int).take(start as int) =~= chars@.take(start as int));
    }
    if stem == 0 && chars[0] == '/' {
        Some(substring(path, 0, 1))
    } else {
        Some(substring(path, 0, stem))
    }
}

/// `path` as seen from `base`.
pub fn path_join(base: &str, path: &str) -> (joined: String)
    ensures
        joined@ == join(base@, path@),
{
    if path_is_absolute(path) {
        return path.to_owned();
    }
    let len = base.unicode_len();
    let mut joined = base.to_owned();
    if len > 0 && base.get_char(len - 1) != '/' {
        proof {
            reveal_strlit("/");
        }
        joined.append("/");
        assert(joined@ =~= base@ + seq!['/']);
    }
    joined.append(path);
    joined
}

/// The segments of `path`: the runs of characters between its separators,
/// empty ones too.
pub open spec fn segments(path: Seq<char>) -> Seq<Seq<char>>
    decreases path.len(),
{
    if path.len() == 0 {
        seq![Seq::empty()]
    } else if path.last() == '/' {
        segments(path.drop_last()).push(Seq::empty())
    } else {
        let before = segments(path.drop_last());
        before.drop_last().push(before.last().push(path.last()))
    }
}

/// Whether a segment names something: it is neither empty nor `.`.
pub open spec fn is_named(segment: Seq<char>) -> bool {
    segment.len() > 0 && segment != "."@
}

/// Those of `all` that name something, in order.
pub open spec fn named(all: Seq<Seq<char>>) -> Seq<Seq<char>>
    decreases all.len(),
{
    if all.len() == 0 {
        Seq::empty()
    } else if is_named(all.last()) {
        named(all.drop_last()).push(all.last())
    } else {
        named(all.drop_last())
    }
}

/// What `path` starts from: the root `/` if it is absolute, the directory
/// `.` if it is `.` or begins with `./`, else nothing.
pub open spec fn anchor(path: Seq<char>) -> Seq<Seq<char>> {
    if is_absolute(path) {
        seq!["/"@]
    } else if path.len() > 0 && path[0] == '.' && (path.len() == 1 || path[1] == '/') {
        seq!["."@]
    } else {
        Seq::empty()
    }
}

/// The steps that `path` takes: where it starts from, then each segment
/// that names something.
pub open spec fn components(path: Seq<char>) -> Seq<Seq<char>> {
    anchor(path) + named(segments(path))
}

/// Whether `path` lies at or below `base`: the steps of `base` are the
/// first steps of `path`.
pub open spec fn starts_with(path: Seq<char>, base: Seq<char>) -> bool {
    components(base).is_prefix_of(components(path))
}

/// There is always a first segment.
pub proof fn lemma_segments_nonempty(path: Seq<char>)
    ensures
        segments(path).len() > 0,
    decreases path.len(),
{
    if path.len() > 0 {
        lemma_segments_nonempty(path.drop_last());
    }
}

/// The steps of `path`.
pub fn path_components(path: &str) -> (steps: Vec<String>)
    ensures
        steps.deep_view() == components(path@),
{
    let chars = chars_of(path);
    let n = chars.len();
    let mut steps: Vec<String> = Vec::new();
    proof {
        reveal_strlit("/");
        reveal_strlit(".");
        lemma_segments_nonempty(path@);
    }
    if n > 0 && chars[0] == '/' {
        steps.push("/".to_owned());
    } else if n > 0 && chars[0] == '.' && (n == 1 || chars[1] == '/') {
        steps.push(".".to_owned());
    }
    let ghost start_steps = steps.deep_view();
    assert(start_steps =~= anchor(path@));
    let mut from: usize = 0;
    let mut i: usize = 0;
    assert(path@.take(0) =~= Seq::<char>::empty());
    assert(segments(path@.take(0)).drop_last() =~= Seq::<Seq<char>>::empty());
    assert(path@.subrange(0, 0) =~= Seq::<char>::empty());
    assert(steps.deep_view() =~= start_steps + named(Seq::<Seq<char>>::empty()));
    while i < n
        invariant
            from <= i <= n,
            n == chars.len(),
            chars@ == path@,
            segments(path@.take(i as int)).len() > 0,
            segments(path@.take(i as int)).last() == path@.subrange(from as int, i as int),
            steps.deep_view() == start_steps + named(segments(path@.take(i as int)).drop_last()),
        decreases n - i,
    {
        let ghost seen = path@.take(i as int);
        let ghost next = path@.take(i + 1);
        proof {
            assert(next.drop_last() =~= seen);
            assert(next.last() == chars@[i as int]);
        }
        if chars[i] == '/' {
            let segment = substring(path, from, i);
            let ghost before = steps.deep_view();
            proof {
                assert(segments(next).drop_last() =~= segments(seen));
                assert(segments(seen) =~= segments(seen).drop_last().push(segment@));
                assert(path@.subrange(i + 1, i + 1) =~= Seq::<char>::empty());
            }
            if !segment.as_str().is_empty() && !same_text(segment.as_str(), ".") {
                steps.push(segment);
                assert(steps.deep_view() =~= before.push(segment@));
            }
            from = i + 1;
        } else {
            proof {
                assert(segments(next).drop_last() =~= segments(seen).drop_last());
                assert(path@.subrange(from as int, i + 1) =~= path@.subrange(
                    from as int,
                    i as int,
                ).push(chars@[i as int]));
            }
        }
        i += 1;
    }
    proof {
        assert(path@.take(n as int) =~= path@);
    }
    let segment = substring(path, from, n);
    let ghost before = steps.deep_view();
    proof {
        assert(segments(path@) =~= segments(path@).drop_last().push(segment@));
    }
    if !segment.as_str().is_empty() && !same_text(segment.as_str(), ".") {
        steps.push(segment);
        assert(steps.deep_view() =~= before.push(segment@));
    }
    steps
}

/// The last segment of a path is the text after its last separator.
pub proof fn lemma_last_segment(path: Seq<char>)
    ensures
        segments(path).len() > 0,
        segments(path).last() == path.skip(last_segment_start(path) as int),
    decreases path.len(),
{
    if path.len() == 0 {
        assert(path.skip(0) =~= Seq::<char>::empty());
    } else {
        let rest = path.drop_last();
        lemma_last_segment(rest);
        lemma_last_segment_start(rest);
        if path.last() == '/' {
            assert(path.skip(path.len() as int) =~= Seq::<char>::empty());
        } else {
            assert(rest.skip(last_segment_start(rest) as int).push(path.last()) =~= path.skip(
                last_segment_start(rest) as int,
            ));
        }
    }
}

/// The separators and `.` segments that end a path add no step to it.
pub proof fn lemma_named_of_trim_tail(path: Seq<char>)
    ensures
        named(segments(path)) == named(segments(trim_tail(path))),
    decreases path.len(),
{
    reveal_strlit(".");
    if path.len() > 0 && path.last() == '/' {
        let rest = path.drop_last();
        lemma_named_of_trim_tail(rest);
        assert(segments(path).drop_last() =~= segments(rest));
    } else if path.len() >= 2 && path.last() == '.' && path[path.len() - 2] == '/' {
        let rest = path.drop_last();
        let stem = rest.drop_last();
        lemma_named_of_trim_tail(rest);
        lemma_segments_nonempty(stem);
        assert(segments(rest).drop_last() =~= segments(stem));
        assert(segments(rest).last() =~= Seq::<char>::empty());
        assert(segments(path).drop_last() =~= segments(stem));
        assert(segments(path).last() =~= "."@);
    }
}

/// The final segment of a path is the last of its steps that is a named
/// segment, unless that is `..`.
pub proof fn law_file_name_is_last_named_segment(path: Seq<char>)
    ensures
        file_name(path) == if named(segments(path)).len() > 0 && named(segments(path)).last()
            != ".."@ {
            Some(named(segments(path)).last())
        } else {
            None
        },
{
    reveal_strlit(".");
    reveal_strlit("..");
    let body = trim_tail(path);
    lemma_trim_tail(path);
    lemma_named_of_trim_tail(path);
    lemma_last_segment(body);
    lemma_last_segment_start(body);
    lemma_last_segment_start_end(body);
    let last = body.skip(last_segment_start(body) as int);
    let none = Seq::<Seq<char>>::empty();
    assert(named(none) == none);
    if body.len() == 0 {
        assert(segments(body).drop_last() =~= none);
    } else if last == "."@ {
        assert(body.len() == 1) by {
            let start = last_segment_start(body) as int;
            assert(last.len() == 1);
            assert(start == body.len() - 1);
            assert(last[0] == body[start]);
            if body.len() >= 2 {
                lemma_trim_tail(body.drop_last());
                assert(trim_tail(body) == trim_tail(body.drop_last()));
            }
        }
        assert(body =~= "."@);
        assert(segments(body.drop_last()) =~= seq![Seq::<char>::empty()]);
        assert(segments(body) =~= seq!["."@]);
        assert(segments(body).drop_last() =~= none);
    } else {
        assert(is_named(last));
    }
}

/// A separator stands before the last segment, unless the path begins
/// with it.
pub proof fn lemma_last_segment_start_end(path: Seq<char>)
    ensures
        last_segment_start(path) > 0 ==> path[last_segment_start(path) - 1] == '/',
    decreases path.len(),
{
    if path.len() == 0 || path.last() == '/' {
    } else {
        lemma_last_segment_start(path.drop_last());
        lemma_last_segment_start_end(path.drop_last());
    }
}

/// Whether `path` lies at or below `base`.
pub fn path_starts_with(path: &str, base: &str) -> (below: bool)
    ensures
        below == starts_with(path@, base@),
{
    let steps = path_components(path);
    let first = path_components(base);
    if first.len() > steps.len() {
        return false;
    }
    let mut i: usize = 0;
    while i < first.len()
        invariant
            i <= first.len() <= steps.len(),
            steps.deep_view() == components(path@),
            first.deep_view() == components(base@),
            forall|j: int| 0 <= j < i ==> steps@[j]@ == first@[j]@,
        decreases first.len() - i,
    {
        if !same_text(steps[i].as_str(), first[i].as_str()) {
            assert(components(path@).subrange(0, first.len() as int)[i as int] != components(
                base@,
            )[i as int]);
            return false;
        }
        i += 1;
    }
    assert(components(path@).subrange(0, first.len() as int) =~= components(base@));
    true
}

} // verus!
