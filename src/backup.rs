//! The backup stage: snapshot the configuration directory once, and never
//! touch an existing snapshot.

use vstd::prelude::*;
use crate::action::{ActionView, FsAction, exists_after_all, is_removal, lemma_no_removal_keeps, plan_view};
use crate::input::{UserInput, answer_meaning, parse_input};
use crate::paths::backup_dir_of;
use crate::text::join_path;
use crate::tree::TreeCopy;

verus! {

/// How the backup stage ended.
#[derive(Clone, Copy, Debug, PartialEq, Eq, Structural)]
pub enum BackupStatus {
    /// A fresh snapshot was taken.
    Created,
    /// A snapshot was already there and was left alone.
    Existing,
    /// Taking the snapshot failed and the user chose to go on without one.
    NoBackup,
}

/// What the backup stage does first.
pub enum BackupStart {
    /// A snapshot exists already: nothing is done.
    Existing,
    /// Create the backup directory (the steps), then walk the
    /// configuration tree into it.
    Copy { actions: Vec<FsAction>, walk: TreeCopy },
}

/// The first move of the backup stage, as views.
pub enum BackupStartView {
    Existing,
    Copy(Seq<ActionView>, Seq<(Seq<char>, Seq<char>)>),
}

impl View for BackupStart {
    type V = BackupStartView;

    open spec fn view(&self) -> BackupStartView {
        match self {
            BackupStart::Existing => BackupStartView::Existing,
            BackupStart::Copy { actions, walk } => BackupStartView::Copy(
                plan_view(actions@),
                walk@,
            ),
        }
    }
}

/// The first move of the backup stage for the configuration directory
/// `config`, the documents directory `documents`, and whether the backup
/// directory already exists.
pub open spec fn backup_start(config: Seq<char>, documents: Seq<char>, exists: bool) -> BackupStartView {
    if exists {
        BackupStartView::Existing
    } else {
        BackupStartView::Copy(
            seq![ActionView::CreateDir(backup_dir_of(documents))],
            seq![(config, backup_dir_of(documents))],
        )
    }
}

/// Starts the backup of `config` into the backup directory under
/// `documents`, given whether that directory already exists.
pub fn create_backup(config: &str, documents: &str, backup_exists: bool) -> (r: BackupStart)
    ensures
        r@ == backup_start(config@, documents@, backup_exists),
{
    if backup_exists {
        return BackupStart::Existing;
    }
    let backup = join_path(documents, "config_backup");
    let actions = vec![FsAction::CreateDir(backup.clone())];
    let walk = TreeCopy::new(config, backup.as_str());
    assert(plan_view(actions@) =~= seq![ActionView::CreateDir(backup_dir_of(documents@))]);
    BackupStart::Copy { actions, walk }
}

/// The answer to "continue without a backup?" after the copy failed:
/// `Some(NoBackup)` to go on, `Some` error to stop, `None` to ask again.
pub open spec fn backup_answer(input: Seq<char>) -> Option<Result<BackupStatus, ()>> {
    match answer_meaning(input) {
        UserInput::Yes => Some(Ok(BackupStatus::NoBackup)),
        UserInput::No => Some(Err(())),
        UserInput::Other => None,
    }
}

/// One answer, normalised, to the question whether to go on without a
/// backup after the copy failed.
pub fn backup_failure_answer(input: &str) -> (r: Option<Result<BackupStatus, ()>>)
    ensures
        r == backup_answer(input@),
{
    match parse_input(input) {
        UserInput::Yes => Some(Ok(BackupStatus::NoBackup)),
        UserInput::No => Some(Err(())),
        UserInput::Other => None,
    }
}

/// The backup is taken once. Starting where no backup exists, the first
/// run creates the backup directory; once that step and the copy steps of
/// the walk (which remove nothing) have been carried out, the directory
/// exists. A second run then finds it and ends at once with `Existing`,
/// planning no step at all, so the snapshot stays as it was.
pub proof fn lemma_backup_idempotent(
    config: Seq<char>,
    documents: Seq<char>,
    before: Set<Seq<char>>,
    walked: Seq<ActionView>,
)
    requires
        !before.contains(backup_dir_of(documents)),
        forall|i: int| 0 <= i < walked.len() ==> !is_removal(#[trigger] walked[i]),
    ensures
        backup_start(config, documents, before.contains(backup_dir_of(documents))) matches
            BackupStartView::Copy(steps, _) && {
            let after = exists_after_all(exists_after_all(before, steps), walked);
            &&& after.contains(backup_dir_of(documents))
            &&& backup_start(config, documents, after.contains(backup_dir_of(documents)))
                == BackupStartView::Existing
        },
{
    let steps = seq![ActionView::CreateDir(backup_dir_of(documents))];
    let created = exists_after_all(before, steps);
    assert(steps.drop_last() =~= Seq::<ActionView>::empty());
    assert(created.contains(backup_dir_of(documents)));
    lemma_no_removal_keeps(created, walked, backup_dir_of(documents));
}

} // verus!
