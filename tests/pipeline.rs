use dotfiles_installer::backup::BackupStatus;
use dotfiles_installer::pipeline::{
    backup_outcome, decide, download_outcome, is_critical, settings_outcome, stage_at_index,
    step_outcome, Decision, Pipeline, Stage, StageOutcome, STAGE_COUNT,
};
use dotfiles_installer::settings::HyprConfig;
use dotfiles_installer::stages::DownloadStatus;

fn run_with_failure(failing: Stage) -> (Vec<Stage>, Pipeline) {
    let mut p = Pipeline::new();
    let mut ran = Vec::new();
    while let Some(stage) = p.current() {
        ran.push(stage);
        let outcome = if stage == failing {
            StageOutcome::Failed("disk full".to_string())
        } else {
            StageOutcome::Completed
        };
        p.record(outcome);
    }
    (ran, p)
}

#[test]
fn merge_failure_halts_the_run() {
    let (ran, p) = run_with_failure(Stage::MergeConfig);
    assert_eq!(ran.last(), Some(&Stage::MergeConfig));
    assert_eq!(ran.len(), 5);
    assert!(!ran.contains(&Stage::PatchSettings));
    assert!(!ran.contains(&Stage::RemoveBundle));
    assert!(p.is_aborted());
    assert_eq!(p.abort_cause(), Some("disk full".to_string()));
}

#[test]
fn utility_failure_reaches_final_cleanup() {
    let (ran, p) = run_with_failure(Stage::InstallUtilities);
    assert_eq!(ran.len(), STAGE_COUNT);
    assert_eq!(ran.last(), Some(&Stage::RemoveBundle));
    assert!(!p.is_aborted());
    assert_eq!(p.abort_cause(), None);
}

#[test]
fn every_critical_stage_aborts() {
    for stage in [Stage::AcquireBundle, Stage::Backup, Stage::MergeConfig] {
        assert!(is_critical(stage));
        let (ran, p) = run_with_failure(stage);
        assert_eq!(ran.last(), Some(&stage));
        assert!(p.is_aborted());
    }
    for stage in [
        Stage::InstallWallpaper,
        Stage::CleanupBundle,
        Stage::PatchSettings,
        Stage::InstallUtilities,
        Stage::RemoveBundle,
    ] {
        assert!(!is_critical(stage));
        let (ran, p) = run_with_failure(stage);
        assert_eq!(ran.len(), STAGE_COUNT);
        assert!(!p.is_aborted());
    }
}

#[test]
fn decisions_by_outcome() {
    let failed = StageOutcome::Failed("x".to_string());
    assert_eq!(decide(Stage::Backup, &failed), Decision::Abort);
    assert_eq!(decide(Stage::PatchSettings, &failed), Decision::Continue);
    assert_eq!(decide(Stage::Backup, &StageOutcome::AlreadySatisfied), Decision::Continue);
    assert_eq!(
        decide(Stage::MergeConfig, &StageOutcome::CompletedDegraded("no backup".to_string())),
        Decision::Continue
    );
}

#[test]
fn stage_order() {
    assert_eq!(stage_at_index(0), Some(Stage::AcquireBundle));
    assert_eq!(stage_at_index(3), Some(Stage::Backup));
    assert_eq!(stage_at_index(7), Some(Stage::RemoveBundle));
    assert_eq!(stage_at_index(8), None);
}

#[test]
fn recording_after_the_end_changes_nothing() {
    let (_, mut p) = run_with_failure(Stage::AcquireBundle);
    p.record(StageOutcome::Failed("later".to_string()));
    assert_eq!(p.abort_cause(), Some("disk full".to_string()));
    assert_eq!(p.current(), None);
}

#[test]
fn outcome_classification() {
    assert_eq!(download_outcome(Ok(DownloadStatus::Success)), StageOutcome::Completed);
    assert_eq!(download_outcome(Ok(DownloadStatus::Existing)), StageOutcome::AlreadySatisfied);
    assert_eq!(download_outcome(Err("e".to_string())), StageOutcome::Failed("e".to_string()));
    assert_eq!(backup_outcome(Ok(BackupStatus::Created)), StageOutcome::Completed);
    assert_eq!(backup_outcome(Ok(BackupStatus::Existing)), StageOutcome::AlreadySatisfied);
    assert_eq!(
        backup_outcome(Ok(BackupStatus::NoBackup)),
        StageOutcome::CompletedDegraded("no backup".to_string())
    );
    assert_eq!(settings_outcome(Ok(HyprConfig::Default)), StageOutcome::AlreadySatisfied);
    assert_eq!(settings_outcome(Ok(HyprConfig::Modified)), StageOutcome::Completed);
    assert_eq!(step_outcome(Err("gone".to_string())), StageOutcome::Failed("gone".to_string()));
    assert_eq!(step_outcome(Ok(())), StageOutcome::Completed);
}
