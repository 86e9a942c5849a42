//! Recursive merge of one directory tree into another, one directory
//! listing at a time: directories are created, files are copied over
//! same-named files, and nothing that exists only in the destination is
//! touched.

use vstd::prelude::*;
use crate::action::{
    ActionView, DirEntryInfo, EntryView, FsAction, entries_view, exists_after_all, is_removal,
    lemma_no_removal_keeps, lemma_no_removal_targets_exist, plan_view, target_of,
};
use crate::text::{join_path, joined};

verus! {

/// The step for one entry of a source directory `from` mirrored at `to`.
pub open spec fn copy_step(from: Seq<char>, to: Seq<char>, e: EntryView) -> ActionView {
    if e.is_dir {
        ActionView::CreateDirAll(joined(to, e.name))
    } else {
        ActionView::CopyFile(joined(from, e.name), joined(to, e.name))
    }
}

/// The steps for the entries of one listed directory, in listing order.
pub open spec fn copy_steps(from: Seq<char>, to: Seq<char>, entries: Seq<EntryView>) -> Seq<
    ActionView,
> {
    entries.map_values(|e: EntryView| copy_step(from, to, e))
}

/// The pairs of directories still to be listed and mirrored that one
/// listing adds: its subdirectories, in listing order.
pub open spec fn subdirs(from: Seq<char>, to: Seq<char>, entries: Seq<EntryView>) -> Seq<
    (Seq<char>, Seq<char>),
>
    decreases entries.len(),
{
    if entries.len() == 0 {
        Seq::empty()
    } else {
        let e = entries.last();
        let front = subdirs(from, to, entries.drop_last());
        if e.is_dir {
            front.push((joined(from, e.name), joined(to, e.name)))
        } else {
            front
        }
    }
}

/// A walk over a source tree: the directories that still have to be
/// listed, each with the destination it is mirrored to.
pub struct TreeCopy {
    pending: Vec<(String, String)>,
}

impl View for TreeCopy {
    type V = Seq<(Seq<char>, Seq<char>)>;

    closed spec fn view(&self) -> Seq<(Seq<char>, Seq<char>)> {
        self.pending@.map_values(|p: (String, String)| (p.0@, p.1@))
    }
}

/// The steps for one listed directory `from`, mirrored at `to`: each
/// subdirectory is created under `to`, each file is copied to `to` under
/// its own name, in listing order.
pub fn copy_recursively(from: &str, to: &str, entries: &Vec<DirEntryInfo>) -> (r: Vec<FsAction>)
    ensures
        plan_view(r@) == copy_steps(from@, to@, entries_view(entries@)),
{
    let ghost es = entries_view(entries@);
    let mut out: Vec<FsAction> = Vec::new();
    let mut i: usize = 0;
    while i < entries.len()
        invariant
            es == entries_view(entries@),
            i <= entries@.len(),
            out@.len() == i,
            forall|j: int| 0 <= j < i ==> (#[trigger] out@[j])@ == copy_step(from@, to@, es[j]),
        decreases entries@.len() - i,
    {
        let e = &entries[i];
        assert(es[i as int] == e@);
        let dest = join_path(to, e.name.as_str());
        if e.is_dir {
            out.push(FsAction::CreateDirAll(dest));
        } else {
            let src = join_path(from, e.name.as_str());
            out.push(FsAction::CopyFile { from: src, to: dest });
        }
        i += 1;
    }
    assert(plan_view(out@) =~= copy_steps(from@, to@, es));
    out
}

impl TreeCopy {
    /// A walk that starts at `src`, mirrored at `dest`.
    pub fn new(src: &str, dest: &str) -> (r: TreeCopy)
        ensures
            r@ == seq![(src@, dest@)],
    {
        let r = TreeCopy { pending: vec![(src.to_owned(), dest.to_owned())] };
        assert(r@ =~= seq![(src@, dest@)]);
        r
    }

    /// The next directory to list and where it is mirrored; `None` once the
    /// walk is over.
    pub fn next_dir(&mut self) -> (r: Option<(String, String)>)
        ensures
            old(self)@.len() == 0 ==> r is None && final(self)@ == old(self)@,
            old(self)@.len() > 0 ==> {
                &&& r matches Some(p) && (p.0@, p.1@) == old(self)@.last()
                &&& final(self)@ == old(self)@.drop_last()
            },
    {
        let r = self.pending.pop();
        proof {
            if old(self)@.len() > 0 {
                assert(self@ =~= old(self)@.drop_last());
            } else {
                assert(self@ =~= old(self)@);
            }
        }
        r
    }

    /// The steps for the listed directory `from`, mirrored at `to`; its
    /// subdirectories join the directories still to be listed.
    pub fn visit(&mut self, from: &str, to: &str, entries: &Vec<DirEntryInfo>) -> (r: Vec<FsAction>)
        ensures
            plan_view(r@) == copy_steps(from@, to@, entries_view(entries@)),
            final(self)@ == old(self)@ + subdirs(from@, to@, entries_view(entries@)),
    {
        let ghost es = entries_view(entries@);
        let ghost start = self@;
        let mut i: usize = 0;
        while i < entries.len()
            invariant
                es == entries_view(entries@),
                i <= entries@.len(),
                self@ == start + subdirs(from@, to@, es.subrange(0, i as int)),
            decreases entries@.len() - i,
        {
            proof {
                assert(es.subrange(0, i + 1).drop_last() =~= es.subrange(0, i as int));
            }
            let e = &entries[i];
            let ghost s1 = es.subrange(0, i + 1);
            let ghost front = subdirs(from@, to@, es.subrange(0, i as int));
            assert(es[i as int] == e@);
            assert(s1.last() == es[i as int]);
            let ghost prev = self.pending@;
            let ghost before = self@;
            if e.is_dir {
                let src = join_path(from, e.name.as_str());
                let dest = join_path(to, e.name.as_str());
                self.pending.push((src, dest));
                assert(subdirs(from@, to@, s1) == front.push((joined(from@, e.name@), joined(to@, e.name@))));
                assert(self.pending@ == prev.push((src, dest)));
                assert(self@ =~= before.push((joined(from@, e.name@), joined(to@, e.name@))));
            } else {
                assert(subdirs(from@, to@, s1) == front);
            }
            assert(self@ =~= start + subdirs(from@, to@, s1));
            i += 1;
        }
        assert(es.subrange(0, i as int) =~= es);
        copy_recursively(from, to, entries)
    }
}

/// The destination directory is created, then the walk starts at `src`.
pub fn copy_config_dirs_recursively(src: &str, dest: &str) -> (r: (Vec<FsAction>, TreeCopy))
    ensures
        plan_view(r.0@) == seq![ActionView::CreateDirAll(dest@)],
        r.1@ == seq![(src@, dest@)],
{
    let first = vec![FsAction::CreateDirAll(dest.to_owned())];
    assert(plan_view(first@) =~= seq![ActionView::CreateDirAll(dest@)]);
    (first, TreeCopy::new(src, dest))
}

/// Paths one level below the same directory are equal only for equal names.
pub proof fn lemma_joined_injective(base: Seq<char>, a: Seq<char>, b: Seq<char>)
    requires
        joined(base, a) == joined(base, b),
    ensures
        a == b,
{
    let n: int = base.len() as int + 1;
    assert(joined(base, a).subrange(n, joined(base, a).len() as int) =~= a);
    assert(joined(base, b).subrange(n, joined(base, b).len() as int) =~= b);
}

/// A merge, not a mirror: the steps for a listed directory remove nothing;
/// every file of the listing is copied to the destination under its own
/// name; and no step writes a destination path whose name the listing does
/// not hold, so what exists only in the destination stays as it was.
pub proof fn lemma_copy_merges(
    from: Seq<char>,
    to: Seq<char>,
    entries: Seq<EntryView>,
    other: Seq<char>,
)
    ensures
        forall|i: int|
            0 <= i < copy_steps(from, to, entries).len() ==> !is_removal(
                #[trigger] copy_steps(from, to, entries)[i],
            ),
        forall|i: int|
            0 <= i < entries.len() && !(#[trigger] entries[i]).is_dir ==> copy_steps(
                from,
                to,
                entries,
            ).contains(ActionView::CopyFile(joined(from, entries[i].name), joined(to, entries[i].name))),
        (forall|i: int| 0 <= i < entries.len() ==> (#[trigger] entries[i]).name != other) ==> forall|
            i: int,
        |
            0 <= i < copy_steps(from, to, entries).len() ==> target_of(
                #[trigger] copy_steps(from, to, entries)[i],
            ) != joined(to, other),
{
    let steps = copy_steps(from, to, entries);
    assert forall|i: int|
        0 <= i < entries.len() && !(#[trigger] entries[i]).is_dir implies steps.contains(
        ActionView::CopyFile(joined(from, entries[i].name), joined(to, entries[i].name)),
    ) by {
        assert(steps[i] == copy_step(from, to, entries[i]));
    }
    if forall|i: int| 0 <= i < entries.len() ==> (#[trigger] entries[i]).name != other {
        assert forall|i: int| 0 <= i < steps.len() implies target_of(#[trigger] steps[i]) != joined(
            to,
            other,
        ) by {
            assert(target_of(steps[i]) == joined(to, entries[i].name));
            if joined(to, entries[i].name) == joined(to, other) {
                lemma_joined_injective(to, entries[i].name, other);
            }
        }
    }
}

/// Merge, not mirror, on what exists: after the steps for a listed
/// directory have run, whatever existed in the destination still exists,
/// and every entry of the listing exists there under its own name.
pub proof fn lemma_merge_keeps_and_adds(
    from: Seq<char>,
    to: Seq<char>,
    entries: Seq<EntryView>,
    before: Set<Seq<char>>,
    kept: Seq<char>,
)
    requires
        before.contains(kept),
    ensures
        exists_after_all(before, copy_steps(from, to, entries)).contains(kept),
        forall|i: int|
            0 <= i < entries.len() ==> exists_after_all(before, copy_steps(from, to, entries)).contains(
                joined(to, (#[trigger] entries[i]).name),
            ),
{
    let steps = copy_steps(from, to, entries);
    lemma_copy_merges(from, to, entries, Seq::empty());
    lemma_no_removal_keeps(before, steps, kept);
    assert forall|i: int| 0 <= i < entries.len() implies exists_after_all(before, steps).contains(
        joined(to, (#[trigger] entries[i]).name),
    ) by {
        assert(target_of(steps[i]) == joined(to, entries[i].name));
        lemma_no_removal_targets_exist(before, steps, i);
    }
}

} // verus!
