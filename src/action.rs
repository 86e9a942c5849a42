//! The file-system steps that the stages plan. Each stage decides which
//! steps to take; the caller carries them out in order and stops at the
//! first failure.

use vstd::prelude::*;

verus! {

/// One file-system step.
#[derive(Clone, Debug, PartialEq, Eq)]
pub enum FsAction {
    /// Create one directory; its parent must exist.
    CreateDir(String),
    /// Create a directory and every missing ancestor.
    CreateDirAll(String),
    /// Copy one file, overwriting a file of the same name.
    CopyFile { from: String, to: String },
    /// Remove a directory with everything below it.
    RemoveDirAll(String),
    /// Remove one file.
    RemoveFile(String),
    /// Write `contents` to `path`, replacing any file there, and flush it.
    WriteFile { path: String, contents: String },
    /// Fetch a remote repository into `dest` (a clone).
    Fetch { url: String, dest: String },
    /// Download a remote asset to the file `dest`.
    Download { url: String, dest: String },
}

/// An immediate entry of a listed directory.
#[derive(Clone, Debug, PartialEq, Eq)]
pub struct DirEntryInfo {
    pub name: String,
    pub is_dir: bool,
}

/// A directory entry as characters.
pub struct EntryView {
    pub name: Seq<char>,
    pub is_dir: bool,
}

impl View for DirEntryInfo {
    type V = EntryView;

    open spec fn view(&self) -> EntryView {
        EntryView { name: self.name@, is_dir: self.is_dir }
    }
}

/// The entries of a listing, as views.
pub open spec fn entries_view(v: Seq<DirEntryInfo>) -> Seq<EntryView> {
    v.map_values(|e: DirEntryInfo| e@)
}

/// A step with its text as character sequences.
pub enum ActionView {
    CreateDir(Seq<char>),
    CreateDirAll(Seq<char>),
    CopyFile(Seq<char>, Seq<char>),
    RemoveDirAll(Seq<char>),
    RemoveFile(Seq<char>),
    WriteFile(Seq<char>, Seq<char>),
    Fetch(Seq<char>, Seq<char>),
    Download(Seq<char>, Seq<char>),
}

impl View for FsAction {
    type V = ActionView;

    open spec fn view(&self) -> ActionView {
        match self {
            FsAction::CreateDir(p) => ActionView::CreateDir(p@),
            FsAction::CreateDirAll(p) => ActionView::CreateDirAll(p@),
            FsAction::CopyFile { from, to } => ActionView::CopyFile(from@, to@),
            FsAction::RemoveDirAll(p) => ActionView::RemoveDirAll(p@),
            FsAction::RemoveFile(p) => ActionView::RemoveFile(p@),
            FsAction::WriteFile { path, contents } => ActionView::WriteFile(path@, contents@),
            FsAction::Fetch { url, dest } => ActionView::Fetch(url@, dest@),
            FsAction::Download { url, dest } => ActionView::Download(url@, dest@),
        }
    }
}

/// The steps of a plan, as views.
pub open spec fn plan_view(v: Seq<FsAction>) -> Seq<ActionView> {
    v.map_values(|a: FsAction| a@)
}

/// The path that a step creates, writes or removes.
pub open spec fn target_of(a: ActionView) -> Seq<char> {
    match a {
        ActionView::CreateDir(p) => p,
        ActionView::CreateDirAll(p) => p,
        ActionView::CopyFile(_, to) => to,
        ActionView::RemoveDirAll(p) => p,
        ActionView::RemoveFile(p) => p,
        ActionView::WriteFile(p, _) => p,
        ActionView::Fetch(_, dest) => dest,
        ActionView::Download(_, dest) => dest,
    }
}

/// The step deletes something.
pub open spec fn is_removal(a: ActionView) -> bool {
    a is RemoveDirAll || a is RemoveFile
}

/// The paths that exist after a step succeeds, given those that existed
/// before: creating, copying, writing or fetching makes the target exist;
/// removing a file drops it; removing a directory drops it and everything
/// below it.
pub open spec fn exists_after(w: Set<Seq<char>>, a: ActionView) -> Set<Seq<char>> {
    match a {
        ActionView::RemoveFile(p) => w.remove(p),
        ActionView::RemoveDirAll(p) => w.filter(|q: Seq<char>| q != p && !(p + seq!['/']).is_prefix_of(q)),
        _ => w.insert(target_of(a)),
    }
}

/// The paths that exist after all the steps succeed, in order.
pub open spec fn exists_after_all(w: Set<Seq<char>>, steps: Seq<ActionView>) -> Set<Seq<char>>
    decreases steps.len(),
{
    if steps.len() == 0 {
        w
    } else {
        exists_after(exists_after_all(w, steps.drop_last()), steps.last())
    }
}

/// Steps that remove nothing keep every path that exists.
pub proof fn lemma_no_removal_keeps(w: Set<Seq<char>>, steps: Seq<ActionView>, p: Seq<char>)
    requires
        w.contains(p),
        forall|i: int| 0 <= i < steps.len() ==> !is_removal(#[trigger] steps[i]),
    ensures
        exists_after_all(w, steps).contains(p),
    decreases steps.len(),
{
    if steps.len() > 0 {
        let front = steps.drop_last();
        assert forall|i: int| 0 <= i < front.len() implies !is_removal(#[trigger] front[i]) by {
            assert(front[i] == steps[i]);
        }
        lemma_no_removal_keeps(w, front, p);
        assert(!is_removal(steps[steps.len() - 1]));
    }
}

/// Running two plans one after the other is running their concatenation.
pub proof fn lemma_exists_after_concat(w: Set<Seq<char>>, s1: Seq<ActionView>, s2: Seq<ActionView>)
    ensures
        exists_after_all(w, s1 + s2) == exists_after_all(exists_after_all(w, s1), s2),
    decreases s2.len(),
{
    if s2.len() == 0 {
        assert(s1 + s2 =~= s1);
    } else {
        assert((s1 + s2).drop_last() =~= s1 + s2.drop_last());
        lemma_exists_after_concat(w, s1, s2.drop_last());
    }
}

/// After a plan that removes nothing, the target of each of its steps exists.
pub proof fn lemma_no_removal_targets_exist(w: Set<Seq<char>>, steps: Seq<ActionView>, i: int)
    requires
        0 <= i < steps.len(),
        forall|j: int| 0 <= j < steps.len() ==> !is_removal(#[trigger] steps[j]),
    ensures
        exists_after_all(w, steps).contains(target_of(steps[i])),
{
    let head = steps.subrange(0, i + 1);
    let tail = steps.subrange(i + 1, steps.len() as int);
    assert(head + tail =~= steps);
    lemma_exists_after_concat(w, head, tail);
    assert(head.last() == steps[i]);
    assert(!is_removal(steps[i]));
    assert(exists_after_all(w, head).contains(target_of(steps[i])));
    assert forall|j: int| 0 <= j < tail.len() implies !is_removal(#[trigger] tail[j]) by {
        assert(tail[j] == steps[i + 1 + j]);
    }
    lemma_no_removal_keeps(exists_after_all(w, head), tail, target_of(steps[i]));
}

} // verus!
