//! Projects a repository's effective time onto its mirror's files, so that
//! a repository browser orders mirrors by remote activity.
//!
//! The time goes onto the default branch's ref file; failing that, onto the
//! packed-refs file; failing that, into an age file written for the purpose.
//! Only "not found" moves on to the next target: any other error ends the
//! projection.

use vstd::prelude::*;
use vstd::string::*;
use crate::layout::{join, joined};
use crate::sync::{label, labelled};
use crate::timestamp::{parse_rfc3339, rfc3339_instant};

verus! {

/// What setting a file's times came to.
#[derive(Debug, Clone)]
pub enum TouchResult {
    Done,
    NotFound,
    Failed(String),
}

/// How far a projection has come.
#[derive(Debug, Clone)]
pub enum MtimeState {
    /// Nothing tried yet.
    Start,
    /// The default branch's ref file was touched, with this result.
    RefTouched(TouchResult),
    /// The packed-refs file was touched, with this result.
    PackedTouched(TouchResult),
}

/// The next thing to do.
#[derive(Debug, Clone)]
pub enum MtimeAction {
    /// Set the times of the default branch's ref file at this path.
    TouchRef(String),
    /// Set the times of the packed-refs file at this path.
    TouchPacked(String),
    /// Create directory `dir` if needed, then create or truncate the age
    /// file at `path` and write `contents` into it.
    WriteAgeFile { dir: String, path: String, contents: String },
    /// The projection is complete.
    Done,
    /// The projection failed with this message.
    Fail(String),
}

/// A touch result with its text as a sequence.
pub enum TouchView {
    Done,
    NotFound,
    Failed(Seq<char>),
}

/// A projection state with its texts as sequences.
pub enum StateView {
    Start,
    RefTouched(TouchView),
    PackedTouched(TouchView),
}

/// An action with its texts as sequences.
pub enum ActionView {
    TouchRef(Seq<char>),
    TouchPacked(Seq<char>),
    WriteAgeFile { dir: Seq<char>, path: Seq<char>, contents: Seq<char> },
    Done,
    Fail(Seq<char>),
}

impl View for TouchResult {
    type V = TouchView;

    open spec fn view(&self) -> TouchView {
        match self {
            TouchResult::Done => TouchView::Done,
            TouchResult::NotFound => TouchView::NotFound,
            TouchResult::Failed(e) => TouchView::Failed(e@),
        }
    }
}

impl View for MtimeState {
    type V = StateView;

    open spec fn view(&self) -> StateView {
        match self {
            MtimeState::Start => StateView::Start,
            MtimeState::RefTouched(t) => StateView::RefTouched(t@),
            MtimeState::PackedTouched(t) => StateView::PackedTouched(t@),
        }
    }
}

impl View for MtimeAction {
    type V = ActionView;

    open spec fn view(&self) -> ActionView {
        match self {
            MtimeAction::TouchRef(p) => ActionView::TouchRef(p@),
            MtimeAction::TouchPacked(p) => ActionView::TouchPacked(p@),
            MtimeAction::WriteAgeFile { dir, path, contents } => ActionView::WriteAgeFile {
                dir: dir@,
                path: path@,
                contents: contents@,
            },
            MtimeAction::Done => ActionView::Done,
            MtimeAction::Fail(e) => ActionView::Fail(e@),
        }
    }
}

pub open spec fn refs_heads() -> Seq<char> {
    seq!['r', 'e', 'f', 's', '/', 'h', 'e', 'a', 'd', 's']
}

pub open spec fn packed_refs() -> Seq<char> {
    seq!['p', 'a', 'c', 'k', 'e', 'd', '-', 'r', 'e', 'f', 's']
}

pub open spec fn info_web() -> Seq<char> {
    seq!['i', 'n', 'f', 'o', '/', 'w', 'e', 'b']
}

pub open spec fn last_modified() -> Seq<char> {
    seq!['l', 'a', 's', 't', '-', 'm', 'o', 'd', 'i', 'f', 'i', 'e', 'd']
}

/// The ref file of branch `branch` in the mirror at `repo_path`.
pub open spec fn ref_file(repo_path: Seq<char>, branch: Seq<char>) -> Seq<char> {
    joined(joined(repo_path, refs_heads()), branch)
}

/// The packed-refs file of the mirror at `repo_path`.
pub open spec fn packed_refs_file(repo_path: Seq<char>) -> Seq<char> {
    joined(repo_path, packed_refs())
}

/// The directory of the age file of the mirror at `repo_path`.
pub open spec fn age_dir(repo_path: Seq<char>) -> Seq<char> {
    joined(repo_path, info_web())
}

/// The age file of the mirror at `repo_path`.
pub open spec fn age_file(repo_path: Seq<char>) -> Seq<char> {
    joined(age_dir(repo_path), last_modified())
}

/// The next step of projecting `time` onto the mirror at `repo_path`, whose
/// default branch is `branch`, from state `state`.
pub open spec fn mtime_spec(
    repo_path: Seq<char>,
    branch: Seq<char>,
    time: Seq<char>,
    state: StateView,
) -> ActionView {
    match state {
        StateView::Start => ActionView::TouchRef(ref_file(repo_path, branch)),
        StateView::RefTouched(TouchView::Done) => ActionView::Done,
        StateView::RefTouched(TouchView::NotFound) => ActionView::TouchPacked(
            packed_refs_file(repo_path),
        ),
        StateView::RefTouched(TouchView::Failed(e)) => ActionView::Fail(
            labelled(ref_file(repo_path, branch), e),
        ),
        StateView::PackedTouched(TouchView::Done) => ActionView::Done,
        StateView::PackedTouched(TouchView::NotFound) => ActionView::WriteAgeFile {
            dir: age_dir(repo_path),
            path: age_file(repo_path),
            contents: time + seq!['\n'],
        },
        StateView::PackedTouched(TouchView::Failed(e)) => ActionView::Fail(
            labelled(packed_refs_file(repo_path), e),
        ),
    }
}

/// The default branch's ref file of the mirror at `repo_path`.
pub fn ref_file_path(repo_path: &str, branch: &str) -> (r: String)
    ensures
        r@ == ref_file(repo_path@, branch@),
{
    let heads = join(repo_path, "refs/heads");
    proof {
        reveal_strlit("refs/heads");
        assert("refs/heads"@ =~= refs_heads());
    }
    join(heads.as_str(), branch)
}

/// The packed-refs file of the mirror at `repo_path`.
pub fn packed_refs_path(repo_path: &str) -> (r: String)
    ensures
        r@ == packed_refs_file(repo_path@),
{
    proof {
        reveal_strlit("packed-refs");
        assert("packed-refs"@ =~= packed_refs());
    }
    join(repo_path, "packed-refs")
}

/// The next step of projecting `time` onto the mirror at `repo_path`.
pub fn mtime_next(repo_path: &str, branch: &str, time: &str, state: &MtimeState) -> (r: MtimeAction)
    ensures
        r@ == mtime_spec(repo_path@, branch@, time@, state@),
{
    match state {
        MtimeState::Start => MtimeAction::TouchRef(ref_file_path(repo_path, branch)),
        MtimeState::RefTouched(TouchResult::Done) => MtimeAction::Done,
        MtimeState::RefTouched(TouchResult::NotFound) => MtimeAction::TouchPacked(
            packed_refs_path(repo_path),
        ),
        MtimeState::RefTouched(TouchResult::Failed(e)) => {
            let p = ref_file_path(repo_path, branch);
            MtimeAction::Fail(label(&p, e.as_str()))
        },
        MtimeState::PackedTouched(TouchResult::Done) => MtimeAction::Done,
        MtimeState::PackedTouched(TouchResult::NotFound) => {
            proof {
                reveal_strlit("info/web");
                reveal_strlit("last-modified");
                reveal_strlit("\n");
                assert("info/web"@ =~= info_web());
                assert("last-modified"@ =~= last_modified());
            }
            let dir = join(repo_path, "info/web");
            let path = join(dir.as_str(), "last-modified");
            let mut contents = String::from_str(time);
            contents.append("\n");
            proof {
                assert(contents@ =~= time@ + seq!['\n']);
            }
            MtimeAction::WriteAgeFile { dir, path, contents }
        },
        MtimeState::PackedTouched(TouchResult::Failed(e)) => {
            let p = packed_refs_path(repo_path);
            MtimeAction::Fail(label(&p, e.as_str()))
        },
    }
}

/// The instant that `time` denotes, for setting file times; an error naming
/// the text when it is not an RFC 3339 timestamp.
pub fn update_instant(time: &String) -> (r: Result<(i64, u32), String>)
    ensures
        rfc3339_instant(time@) is Some ==> r == Ok::<(i64, u32), String>(
            rfc3339_instant(time@)->0,
        ),
        rfc3339_instant(time@) is None ==> r is Err && r->Err_0@ == labelled(
            seq![
                'u', 'n', 'a', 'b', 'l', 'e', ' ', 't', 'o', ' ', 'p', 'a', 'r', 's', 'e', ' ',
                't', 'i', 'm', 'e',
            ],
            time@,
        ),
{
    match parse_rfc3339(time.as_str()) {
        Some(t) => Ok(t),
        None => {
            let what = String::from_str("unable to parse time");
            proof {
                reveal_strlit("unable to parse time");
                assert(what@ =~= seq![
                    'u', 'n', 'a', 'b', 'l', 'e', ' ', 't', 'o', ' ', 'p', 'a', 'r', 's', 'e', ' ',
                    't', 'i', 'm', 'e',
                ]);
            }
            Err(label(&what, time.as_str()))
        },
    }
}

/// The age file is written only when neither the default branch's ref file
/// nor the packed-refs file exists, and then holds the effective time as
/// its one line; when the ref file exists, the projection ends there and no
/// age file is written.
pub proof fn lemma_age_file_fallback(repo_path: Seq<char>, branch: Seq<char>, time: Seq<char>)
    ensures
        mtime_spec(repo_path, branch, time, StateView::Start) == ActionView::TouchRef(
            ref_file(repo_path, branch),
        ),
        mtime_spec(repo_path, branch, time, StateView::RefTouched(TouchView::NotFound))
            == ActionView::TouchPacked(packed_refs_file(repo_path)),
        mtime_spec(repo_path, branch, time, StateView::PackedTouched(TouchView::NotFound))
            == (ActionView::WriteAgeFile {
            dir: age_dir(repo_path),
            path: age_file(repo_path),
            contents: time + seq!['\n'],
        }),
        mtime_spec(repo_path, branch, time, StateView::RefTouched(TouchView::Done))
            == ActionView::Done,
        forall|s: StateView|
            (#[trigger] mtime_spec(repo_path, branch, time, s) is WriteAgeFile) ==> s
                == StateView::PackedTouched(TouchView::NotFound),
{
}

} // verus!
