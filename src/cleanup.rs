//! Selective cleanup of a directory's immediate entries: salvage copies
//! first, then removal of the excluded entries.

use vstd::prelude::*;
use crate::action::{
    ActionView, DirEntryInfo, FsAction, exists_after_all, is_removal, lemma_no_removal_targets_exist,
    plan_view, target_of,
};
use crate::text::{join_path, joined};

verus! {

/// Before an entry named `entry` is handled, copy `inner` (a path inside
/// it) to `dest`.
#[derive(Clone, Debug, PartialEq, Eq)]
pub struct SalvageRule {
    pub entry: String,
    pub inner: String,
    pub dest: String,
}

/// What to clean: the directory, the names to remove, the salvage rules.
#[derive(Clone, Debug, PartialEq, Eq)]
pub struct CleanupPlan {
    pub root: String,
    pub exclusions: Vec<String>,
    pub salvage: Vec<SalvageRule>,
}

/// A salvage rule as characters: entry name, inner path, destination.
pub struct SalvageView {
    pub entry: Seq<char>,
    pub inner: Seq<char>,
    pub dest: Seq<char>,
}

impl View for SalvageRule {
    type V = SalvageView;

    open spec fn view(&self) -> SalvageView {
        SalvageView { entry: self.entry@, inner: self.inner@, dest: self.dest@ }
    }
}

/// A cleanup plan as characters.
pub struct CleanupView {
    pub root: Seq<char>,
    pub exclusions: Seq<Seq<char>>,
    pub salvage: Seq<SalvageView>,
}

impl View for CleanupPlan {
    type V = CleanupView;

    open spec fn view(&self) -> CleanupView {
        CleanupView {
            root: self.root@,
            exclusions: self.exclusions@.map_values(|s: String| s@),
            salvage: self.salvage@.map_values(|r: SalvageRule| r@),
        }
    }
}

/// The salvage copies for the entry `name` under `root`, in rule order.
pub open spec fn salvage_steps(
    root: Seq<char>,
    name: Seq<char>,
    rules: Seq<SalvageView>,
) -> Seq<ActionView>
    decreases rules.len(),
{
    if rules.len() == 0 {
        Seq::empty()
    } else {
        let rule = rules.last();
        let front = salvage_steps(root, name, rules.drop_last());
        if rule.entry == name {
            front.push(ActionView::CopyFile(joined(joined(root, name), rule.inner), rule.dest))
        } else {
            front
        }
    }
}

/// The removal of the entry, when its name is excluded.
pub open spec fn removal_steps(
    root: Seq<char>,
    name: Seq<char>,
    is_dir: bool,
    exclusions: Seq<Seq<char>>,
) -> Seq<ActionView> {
    if exclusions.contains(name) {
        if is_dir {
            seq![ActionView::RemoveDirAll(joined(root, name))]
        } else {
            seq![ActionView::RemoveFile(joined(root, name))]
        }
    } else {
        Seq::empty()
    }
}

/// Everything done for one entry: its salvage copies, then its removal.
pub open spec fn cleanup_steps(p: CleanupView, name: Seq<char>, is_dir: bool) -> Seq<ActionView> {
    salvage_steps(p.root, name, p.salvage) + removal_steps(p.root, name, is_dir, p.exclusions)
}

/// The steps for one entry of the directory: a copy for each salvage rule
/// that names it, in rule order, then its removal if it is excluded
/// (recursive for a directory). Entries that no rule names get no step.
pub fn cleanup(plan: &CleanupPlan, entry: &DirEntryInfo) -> (r: Vec<FsAction>)
    ensures
        plan_view(r@) == cleanup_steps(plan@, entry.name@, entry.is_dir),
{
    let ghost p = plan@;
    let entry_path = join_path(plan.root.as_str(), entry.name.as_str());
    let mut out: Vec<FsAction> = Vec::new();
    let mut i: usize = 0;
    while i < plan.salvage.len()
        invariant
            p == plan@,
            entry_path@ == joined(p.root, entry.name@),
            i <= plan.salvage@.len(),
            plan_view(out@) == salvage_steps(p.root, entry.name@, p.salvage.subrange(0, i as int)),
        decreases plan.salvage@.len() - i,
    {
        proof {
            assert(p.salvage.subrange(0, i + 1).drop_last() =~= p.salvage.subrange(0, i as int));
        }
        let rule = &plan.salvage[i];
        if rule.entry == entry.name {
            let from = join_path(entry_path.as_str(), rule.inner.as_str());
            out.push(FsAction::CopyFile { from, to: rule.dest.clone() });
            assert(plan_view(out@) =~= salvage_steps(
                p.root,
                entry.name@,
                p.salvage.subrange(0, i + 1),
            ));
        } else {
            assert(plan_view(out@) =~= salvage_steps(
                p.root,
                entry.name@,
                p.salvage.subrange(0, i + 1),
            ));
        }
        i += 1;
    }
    assert(p.salvage.subrange(0, i as int) =~= p.salvage);
    let ghost salvaged = out@;
    let mut excluded = false;
    let mut j: usize = 0;
    while j < plan.exclusions.len()
        invariant
            p == plan@,
            j <= plan.exclusions@.len(),
            excluded <==> exists|k: int| 0 <= k < j && (#[trigger] p.exclusions[k]) == entry.name@,
        decreases plan.exclusions@.len() - j,
    {
        proof {
            assert(p.exclusions[j as int] == plan.exclusions@[j as int]@);
        }
        if plan.exclusions[j] == entry.name {
            excluded = true;
        }
        j += 1;
    }
    proof {
        if p.exclusions.contains(entry.name@) {
            let k = choose|k: int| 0 <= k < p.exclusions.len() && p.exclusions[k] == entry.name@;
            assert(p.exclusions[k] == entry.name@);
        }
    }
    if excluded {
        if entry.is_dir {
            out.push(FsAction::RemoveDirAll(entry_path));
        } else {
            out.push(FsAction::RemoveFile(entry_path));
        }
    }
    assert(plan_view(out@) =~= cleanup_steps(p, entry.name@, entry.is_dir));
    out
}

/// The salvage steps for `name` hold the copy of every rule that names it.
proof fn lemma_salvage_step_present(
    root: Seq<char>,
    name: Seq<char>,
    rules: Seq<SalvageView>,
    k: int,
)
    requires
        0 <= k < rules.len(),
        rules[k].entry == name,
    ensures
        salvage_steps(root, name, rules).contains(
            ActionView::CopyFile(joined(joined(root, name), rules[k].inner), rules[k].dest),
        ),
        forall|i: int|
            0 <= i < salvage_steps(root, name, rules).len() ==> !is_removal(
                #[trigger] salvage_steps(root, name, rules)[i],
            ),
    decreases rules.len(),
{
    lemma_salvage_steps_copy_only(root, name, rules);
    let front = salvage_steps(root, name, rules.drop_last());
    let c = ActionView::CopyFile(joined(joined(root, name), rules[k].inner), rules[k].dest);
    if k == rules.len() - 1 {
        assert(salvage_steps(root, name, rules) == front.push(c));
        assert(front.push(c)[front.len() as int] == c);
    } else {
        lemma_salvage_step_present(root, name, rules.drop_last(), k);
        let i = choose|i: int| 0 <= i < front.len() && front[i] == c;
        if rules.last().entry == name {
            let last = ActionView::CopyFile(
                joined(joined(root, name), rules.last().inner),
                rules.last().dest,
            );
            assert(front.push(last)[i] == c);
        }
    }
}

/// Salvage steps never remove anything.
proof fn lemma_salvage_steps_copy_only(root: Seq<char>, name: Seq<char>, rules: Seq<SalvageView>)
    ensures
        forall|i: int|
            0 <= i < salvage_steps(root, name, rules).len() ==> !is_removal(
                #[trigger] salvage_steps(root, name, rules)[i],
            ),
    decreases rules.len(),
{
    if rules.len() > 0 {
        let front = salvage_steps(root, name, rules.drop_last());
        lemma_salvage_steps_copy_only(root, name, rules.drop_last());
        let all = salvage_steps(root, name, rules);
        assert forall|i: int| 0 <= i < all.len() implies !is_removal(#[trigger] all[i]) by {
            if i < front.len() {
                assert(all[i] == front[i]);
            }
        }
    }
}

/// Salvage comes before removal: for an entry that is both excluded and
/// named by a salvage rule, the rule's copy out of the entry is among the
/// steps, only the last step removes anything, and that step removes the
/// entry itself. Run in order, the copy has been made before the entry goes.
pub proof fn lemma_salvage_before_delete(p: CleanupView, name: Seq<char>, is_dir: bool, k: int)
    requires
        0 <= k < p.salvage.len(),
        p.salvage[k].entry == name,
        p.exclusions.contains(name),
    ensures
        ({
            let steps = cleanup_steps(p, name, is_dir);
            &&& steps.len() > 0
            &&& exists|i: int|
                0 <= i < steps.len() - 1 && steps[i] == ActionView::CopyFile(
                    joined(joined(p.root, name), p.salvage[k].inner),
                    p.salvage[k].dest,
                )
            &&& is_removal(steps.last())
            &&& target_of(steps.last()) == joined(p.root, name)
            &&& forall|i: int| 0 <= i < steps.len() - 1 ==> !is_removal(#[trigger] steps[i])
        }),
{
    let s = salvage_steps(p.root, name, p.salvage);
    let steps = cleanup_steps(p, name, is_dir);
    lemma_salvage_step_present(p.root, name, p.salvage, k);
    let c = ActionView::CopyFile(joined(joined(p.root, name), p.salvage[k].inner), p.salvage[k].dest);
    let i = choose|i: int| 0 <= i < s.len() && s[i] == c;
    assert(steps.len() == s.len() + 1);
    assert(steps[i] == c);
    assert forall|j: int| 0 <= j < steps.len() - 1 implies !is_removal(#[trigger] steps[j]) by {
        assert(steps[j] == s[j]);
    }
}

/// Salvage survives the deletion, on what exists: for an entry that is
/// both excluded and named by a salvage rule whose destination lies outside
/// the entry, once the entry's steps have run the salvaged copy exists and
/// the entry itself does not.
pub proof fn lemma_salvage_survives_delete(
    p: CleanupView,
    name: Seq<char>,
    is_dir: bool,
    k: int,
    before: Set<Seq<char>>,
)
    requires
        0 <= k < p.salvage.len(),
        p.salvage[k].entry == name,
        p.exclusions.contains(name),
        p.salvage[k].dest != joined(p.root, name),
        !(joined(p.root, name) + seq!['/']).is_prefix_of(p.salvage[k].dest),
    ensures
        exists_after_all(before, cleanup_steps(p, name, is_dir)).contains(p.salvage[k].dest),
        !exists_after_all(before, cleanup_steps(p, name, is_dir)).contains(joined(p.root, name)),
{
    let s = salvage_steps(p.root, name, p.salvage);
    let steps = cleanup_steps(p, name, is_dir);
    let dest = p.salvage[k].dest;
    lemma_salvage_step_present(p.root, name, p.salvage, k);
    let c = ActionView::CopyFile(joined(joined(p.root, name), p.salvage[k].inner), dest);
    let i = choose|i: int| 0 <= i < s.len() && s[i] == c;
    lemma_no_removal_targets_exist(before, s, i);
    assert(steps.drop_last() =~= s);
    let mid = exists_after_all(before, s);
    assert(mid.contains(dest));
    let target = joined(p.root, name);
    if is_dir {
        assert(steps.last() == ActionView::RemoveDirAll(target));
        let after = mid.filter(|q: Seq<char>| q != target && !(target + seq!['/']).is_prefix_of(q));
        assert(after.contains(dest));
        assert(!after.contains(target));
    } else {
        assert(steps.last() == ActionView::RemoveFile(target));
    }
}

/// The cleanup of the staged bundle: documentation, media and version
/// control data are removed, and `zsh/.zshrc` is first saved to the home
/// directory.
pub open spec fn repo_cleanup(home: Seq<char>, repo: Seq<char>) -> CleanupView {
    CleanupView {
        root: repo,
        exclusions: seq![
            "arch-everforest.png"@,
            "arch-everforest_short.mp4"@,
            ".git"@,
            "logo.png"@,
            "README.md"@,
            "zsh"@,
        ],
        salvage: seq![SalvageView { entry: "zsh"@, inner: ".zshrc"@, dest: joined(home, ".zshrc"@) }],
    }
}

/// The cleanup plan for the bundle staged at `repo`.
pub fn cleanup_repo(home: &str, repo: &str) -> (r: CleanupPlan)
    ensures
        r@ == repo_cleanup(home@, repo@),
{
    let exclusions = vec![
        "arch-everforest.png".to_owned(),
        "arch-everforest_short.mp4".to_owned(),
        ".git".to_owned(),
        "logo.png".to_owned(),
        "README.md".to_owned(),
        "zsh".to_owned(),
    ];
    let salvage = vec![
        SalvageRule {
            entry: "zsh".to_owned(),
            inner: ".zshrc".to_owned(),
            dest: join_path(home, ".zshrc"),
        },
    ];
    let r = CleanupPlan { root: repo.to_owned(), exclusions, salvage };
    assert(r@.exclusions =~= repo_cleanup(home@, repo@).exclusions);
    assert(r@.salvage =~= repo_cleanup(home@, repo@).salvage);
    r
}

} // verus!
