//! The migration pipeline: the fixed order of the stages, how each
//! stage's outcome is classified, and whether the run goes on.

use vstd::prelude::*;
use crate::backup::BackupStatus;
use crate::settings::HyprConfig;
use crate::stages::DownloadStatus;

verus! {

/// The stages, in the order in which they run.
#[derive(Clone, Copy, Debug, PartialEq, Eq, Structural)]
pub enum Stage {
    /// Ensure the configuration root exists and fetch the bundle.
    AcquireBundle,
    /// Download the default wallpaper.
    InstallWallpaper,
    /// Salvage and remove what the bundle holds but the configuration does not need.
    CleanupBundle,
    /// Snapshot the configuration root.
    Backup,
    /// Merge the bundle into the configuration root.
    MergeConfig,
    /// Apply the chosen settings to the configuration file.
    PatchSettings,
    /// Fetch the command-line utilities.
    InstallUtilities,
    /// Remove the staged bundle.
    RemoveBundle,
}

/// The number of stages.
pub const STAGE_COUNT: usize = 8;

/// The stage at position `i` of the run.
pub open spec fn stage_at(i: int) -> Stage {
    if i == 0 {
        Stage::AcquireBundle
    } else if i == 1 {
        Stage::InstallWallpaper
    } else if i == 2 {
        Stage::CleanupBundle
    } else if i == 3 {
        Stage::Backup
    } else if i == 4 {
        Stage::MergeConfig
    } else if i == 5 {
        Stage::PatchSettings
    } else if i == 6 {
        Stage::InstallUtilities
    } else {
        Stage::RemoveBundle
    }
}

/// A stage whose failure ends the run.
pub open spec fn critical(stage: Stage) -> bool {
    stage == Stage::AcquireBundle || stage == Stage::Backup || stage == Stage::MergeConfig
}

/// How a stage ended.
#[derive(Clone, Debug, PartialEq, Eq)]
pub enum StageOutcome {
    /// Its result was already in place; nothing was done.
    AlreadySatisfied,
    Completed,
    /// Completed without a safety net, for the given reason.
    CompletedDegraded(String),
    /// Failed with the given cause.
    Failed(String),
}

/// Whether the run goes on after a stage.
#[derive(Clone, Copy, Debug, PartialEq, Eq, Structural)]
pub enum Decision {
    Continue,
    Abort,
}

/// The run stops exactly when a critical stage fails.
pub open spec fn decision(stage: Stage, failed: bool) -> Decision {
    if failed && critical(stage) {
        Decision::Abort
    } else {
        Decision::Continue
    }
}

/// Whether a failure of `stage` ends the run.
pub fn is_critical(stage: Stage) -> (r: bool)
    ensures
        r == critical(stage),
{
    match stage {
        Stage::AcquireBundle | Stage::Backup | Stage::MergeConfig => true,
        _ => false,
    }
}

/// The stage at position `i`, if there is one.
pub fn stage_at_index(i: usize) -> (r: Option<Stage>)
    ensures
        i < STAGE_COUNT ==> r == Some(stage_at(i as int)),
        i >= STAGE_COUNT ==> r is None,
{
    match i {
        0 => Some(Stage::AcquireBundle),
        1 => Some(Stage::InstallWallpaper),
        2 => Some(Stage::CleanupBundle),
        3 => Some(Stage::Backup),
        4 => Some(Stage::MergeConfig),
        5 => Some(Stage::PatchSettings),
        6 => Some(Stage::InstallUtilities),
        7 => Some(Stage::RemoveBundle),
        _ => None,
    }
}

/// Whether the run goes on after `stage` ended with `outcome`.
pub fn decide(stage: Stage, outcome: &StageOutcome) -> (r: Decision)
    ensures
        r == decision(stage, *outcome is Failed),
{
    match outcome {
        StageOutcome::Failed(_) => if is_critical(stage) {
            Decision::Abort
        } else {
            Decision::Continue
        },
        _ => Decision::Continue,
    }
}

/// Where a run stands: the position of the stage that runs next (or that
/// failed), and whether a critical failure stopped the run.
pub struct RunView {
    pub next: nat,
    pub aborted: bool,
}

/// No stage is left to run.
pub open spec fn finished(v: RunView) -> bool {
    v.aborted || v.next >= STAGE_COUNT
}

/// The run after the current stage ended, failed or not.
pub open spec fn advance(v: RunView, failed: bool) -> RunView {
    if finished(v) {
        v
    } else if decision(stage_at(v.next as int), failed) == Decision::Abort {
        RunView { next: v.next, aborted: true }
    } else {
        RunView { next: v.next + 1, aborted: false }
    }
}

/// The run after the stages ended as `failed` tells, one entry per stage
/// in order.
pub open spec fn run(failed: Seq<bool>) -> RunView
    decreases failed.len(),
{
    if failed.len() == 0 {
        RunView { next: 0, aborted: false }
    } else {
        advance(run(failed.drop_last()), failed.last())
    }
}

/// The orchestrator's state.
pub struct Pipeline {
    next: usize,
    aborted: bool,
    cause: Option<String>,
    history: Ghost<Seq<bool>>,
}

impl Pipeline {
    /// The run so far.
    pub closed spec fn view(&self) -> RunView {
        RunView { next: self.next as nat, aborted: self.aborted }
    }

    /// Whether each stage so far failed, in order.
    pub closed spec fn history(&self) -> Seq<bool> {
        self.history@
    }

    /// The state agrees with the outcomes recorded so far.
    pub closed spec fn wf(&self) -> bool {
        &&& self@ == run(self.history@)
        &&& self.next <= STAGE_COUNT
        &&& (self.cause is Some <==> self.aborted)
    }

    /// The cause of the failure that stopped the run, as characters.
    pub closed spec fn cause_view(&self) -> Option<Seq<char>> {
        match self.cause {
            Some(c) => Some(c@),
            None => None,
        }
    }

    /// A run in which no stage has run yet.
    pub fn new() -> (r: Pipeline)
        ensures
            r.wf(),
            r.history() == Seq::<bool>::empty(),
            r@ == run(r.history()),
            r@ == (RunView { next: 0, aborted: false }),
    {
        Pipeline { next: 0, aborted: false, cause: None, history: Ghost(Seq::empty()) }
    }

    /// The stage to run now; `None` once the run is over.
    pub fn current(&self) -> (r: Option<Stage>)
        requires
            self.wf(),
        ensures
            finished(self@) ==> r is None,
            !finished(self@) ==> r == Some(stage_at(self@.next as int)),
    {
        if self.aborted {
            None
        } else {
            stage_at_index(self.next)
        }
    }

    /// Whether a critical failure stopped the run.
    pub fn is_aborted(&self) -> (r: bool)
        ensures
            r == self@.aborted,
    {
        self.aborted
    }

    /// The cause of the failure that stopped the run.
    pub fn abort_cause(&self) -> (r: Option<String>)
        ensures
            match r {
                Some(c) => self.cause_view() == Some(c@),
                None => self.cause_view() is None,
            },
    {
        self.cause.clone()
    }

    /// Records how the current stage ended. A failure of a critical stage
    /// stops the run and keeps its cause; any other outcome moves on to the
    /// next stage. Once the run is over, nothing changes.
    pub fn record(&mut self, outcome: StageOutcome)
        requires
            old(self).wf(),
        ensures
            final(self).wf(),
            final(self)@ == run(final(self).history()),
            finished(old(self)@) ==> final(self)@ == old(self)@ && final(self).cause_view()
                == old(self).cause_view(),
            !finished(old(self)@) ==> final(self).history() == old(self).history().push(
                outcome is Failed,
            ),
            !finished(old(self)@) && final(self)@.aborted ==> (outcome matches StageOutcome::Failed(
                c,
            ) && final(self).cause_view() == Some(c@)),
    {
        if self.aborted || self.next >= STAGE_COUNT {
            return;
        }
        let ghost failed = outcome is Failed;
        let stage = match stage_at_index(self.next) {
            Some(s) => s,
            None => {
                return;
            },
        };
        let ghost before = self.history@;
        self.history = Ghost(before.push(failed));
        assert(self.history@.drop_last() =~= before);
        match decide(stage, &outcome) {
            Decision::Abort => {
                self.aborted = true;
                self.cause = match outcome {
                    StageOutcome::Failed(c) => Some(c),
                    _ => None,
                };
            },
            Decision::Continue => {
                self.next = self.next + 1;
            },
        }
    }
}

/// The outcome of a fetch stage.
pub fn download_outcome(r: Result<DownloadStatus, String>) -> (o: StageOutcome)
    ensures
        match r {
            Ok(DownloadStatus::Success) => o == StageOutcome::Completed,
            Ok(DownloadStatus::Existing) => o == StageOutcome::AlreadySatisfied,
            Err(c) => o == StageOutcome::Failed(c),
        },
{
    match r {
        Ok(DownloadStatus::Success) => StageOutcome::Completed,
        Ok(DownloadStatus::Existing) => StageOutcome::AlreadySatisfied,
        Err(c) => StageOutcome::Failed(c),
    }
}

/// The outcome of the backup stage: going on without a backup is a
/// degraded completion.
pub fn backup_outcome(r: Result<BackupStatus, String>) -> (o: StageOutcome)
    ensures
        match r {
            Ok(BackupStatus::Created) => o == StageOutcome::Completed,
            Ok(BackupStatus::Existing) => o == StageOutcome::AlreadySatisfied,
            Ok(BackupStatus::NoBackup) => o matches StageOutcome::CompletedDegraded(why) && why@
                == "no backup"@,
            Err(c) => o == StageOutcome::Failed(c),
        },
{
    match r {
        Ok(BackupStatus::Created) => StageOutcome::Completed,
        Ok(BackupStatus::Existing) => StageOutcome::AlreadySatisfied,
        Ok(BackupStatus::NoBackup) => StageOutcome::CompletedDegraded("no backup".to_owned()),
        Err(c) => StageOutcome::Failed(c),
    }
}

/// The outcome of the settings stage: a file left as it is counts as
/// already satisfied.
pub fn settings_outcome(r: Result<HyprConfig, String>) -> (o: StageOutcome)
    ensures
        match r {
            Ok(HyprConfig::Modified) => o == StageOutcome::Completed,
            Ok(HyprConfig::Default) => o == StageOutcome::AlreadySatisfied,
            Err(c) => o == StageOutcome::Failed(c),
        },
{
    match r {
        Ok(HyprConfig::Modified) => StageOutcome::Completed,
        Ok(HyprConfig::Default) => StageOutcome::AlreadySatisfied,
        Err(c) => StageOutcome::Failed(c),
    }
}

/// The outcome of a stage that reports only success or failure.
pub fn step_outcome(r: Result<(), String>) -> (o: StageOutcome)
    ensures
        match r {
            Ok(()) => o == StageOutcome::Completed,
            Err(c) => o == StageOutcome::Failed(c),
        },
{
    match r {
        Ok(()) => StageOutcome::Completed,
        Err(c) => StageOutcome::Failed(c),
    }
}

/// While no critical stage has failed, every stage runs in turn: after
/// `j` outcomes the run stands at position `j`.
pub proof fn lemma_run_without_critical_failure(failed: Seq<bool>)
    requires
        failed.len() <= STAGE_COUNT,
        forall|i: int| 0 <= i < failed.len() && #[trigger] failed[i] ==> !critical(stage_at(i)),
    ensures
        run(failed) == (RunView { next: failed.len(), aborted: false }),
    decreases failed.len(),
{
    if failed.len() > 0 {
        let front = failed.drop_last();
        assert forall|i: int| 0 <= i < front.len() && #[trigger] front[i] implies !critical(
            stage_at(i),
        ) by {
            assert(front[i] == failed[i]);
        }
        lemma_run_without_critical_failure(front);
    }
}

/// A failed critical stage halts the run: if the stage at position `k` is
/// critical and fails, and no critical stage before it failed, then
/// whatever is recorded afterwards the run stays aborted at `k`, so no
/// later stage ever becomes current.
pub proof fn lemma_critical_failure_halts(failed: Seq<bool>, k: int)
    requires
        0 <= k < failed.len() <= STAGE_COUNT,
        critical(stage_at(k)),
        failed[k],
        forall|i: int| 0 <= i < k && #[trigger] failed[i] ==> !critical(stage_at(i)),
    ensures
        run(failed) == (RunView { next: k as nat, aborted: true }),
    decreases failed.len(),
{
    if failed.len() == k + 1 {
        let front = failed.drop_last();
        assert forall|i: int| 0 <= i < front.len() && #[trigger] front[i] implies !critical(
            stage_at(i),
        ) by {
            assert(front[i] == failed[i]);
        }
        lemma_run_without_critical_failure(front);
    } else {
        let front = failed.drop_last();
        assert(front[k] == failed[k]);
        assert forall|i: int| 0 <= i < k && #[trigger] front[i] implies !critical(stage_at(i)) by {
            assert(front[i] == failed[i]);
        }
        lemma_critical_failure_halts(front, k);
    }
}

/// A failure of the merge stage stops the run before any later stage; a
/// failure of the utility stage, the only one of the run, does not, and
/// the final stage that removes the staged bundle still runs.
pub proof fn lemma_merge_halts_utilities_continue(failed: Seq<bool>)
    requires
        failed.len() == STAGE_COUNT,
    ensures
        failed[4] && (forall|i: int| 0 <= i < 4 ==> !#[trigger] failed[i]) ==> run(failed) == (
        RunView { next: 4, aborted: true }),
        (forall|i: int| 0 <= i < STAGE_COUNT && i != 6 ==> !#[trigger] failed[i]) ==> {
            &&& run(failed.subrange(0, 7)) == (RunView { next: 7, aborted: false })
            &&& stage_at(7) == Stage::RemoveBundle
            &&& run(failed) == (RunView { next: STAGE_COUNT as nat, aborted: false })
        },
{
    if failed[4] && (forall|i: int| 0 <= i < 4 ==> !#[trigger] failed[i]) {
        lemma_critical_failure_halts(failed, 4);
    }
    if forall|i: int| 0 <= i < STAGE_COUNT && i != 6 ==> !#[trigger] failed[i] {
        lemma_run_without_critical_failure(failed);
        let front = failed.subrange(0, 7);
        assert forall|i: int| 0 <= i < front.len() && #[trigger] front[i] implies !critical(
            stage_at(i),
        ) by {
            assert(front[i] == failed[i]);
        }
        lemma_run_without_critical_failure(front);
    }
}

} // verus!
