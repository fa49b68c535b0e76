//! Runs of a restore, step by step.
use auru_pm_ui::path::Platform;
use auru_pm_ui::format::{CommitId, ProjectFormat};
use auru_pm_ui::publish::PublishStage;
use auru_pm_ui::restore::{CreateFolder, RestoreCollisionChoice, RestoreResult, TreeEntry};
use auru_pm_ui::restore_run::{RestoreRun, RestoreStage, RestoreStep};

const ON: Platform = Platform::Other;

fn begin(collision: RestoreCollisionChoice) -> RestoreRun {
    let commit = CommitId {
        text: "blake3:0123456789abcdef".to_owned(),
    };
    RestoreRun::start(
        ON,
        "/r",
        "Song.als",
        ProjectFormat::AbletonLiveSet,
        &None,
        &commit,
        collision,
        7,
    )
}

fn next(step: RestoreStep) -> RestoreRun {
    match step {
        RestoreStep::Next(run) => run,
        other => panic!("the restore should go on: {other:?}"),
    }
}

fn failure(step: RestoreStep) -> String {
    match step {
        RestoreStep::Failed(error) => error,
        other => panic!("the restore should fail: {other:?}"),
    }
}

fn result(project_file: &str, unavailable: usize) -> RestoreResult {
    RestoreResult {
        project_file: project_file.to_owned(),
        files_written: 3,
        unavailable,
        verified_files: 0,
        previous_copy: None,
    }
}

/// A run whose staging folder was made.
fn staged(collision: RestoreCollisionChoice, occupied: bool) -> RestoreRun {
    let run = next(begin(collision).destination_seen(occupied));
    let run = next(run.parent_made(Ok(())));
    let run = next(run.staging_made(CreateFolder::Created));
    assert!(matches!(run.stage, RestoreStage::Fill));
    run
}

const STAGING: &str = "/r/.Song Restored 01234567.auru-restoring-7-1";

/// A run that read its staging folder.
fn read(collision: RestoreCollisionChoice, occupied: bool, unavailable: usize) -> RestoreStep {
    let file = format!("{STAGING}/Song.als");
    let run = next(staged(collision, occupied).filled(Ok(result(&file, unavailable))));
    assert_eq!(run.project_relative, "Song.als");
    run.tree_read(Ok(vec![(
        "Song.als".to_owned(),
        TreeEntry::File(Ok("hash".to_owned())),
    )]))
}

#[test]
fn a_restore_goes_where_nothing_lies() {
    let run = begin(RestoreCollisionChoice::AbortIfExists);
    assert_eq!(run.file_name, "Song.als");
    assert_eq!(run.final_root, "/r/Song Restored 01234567");
    assert_eq!(
        failure(run.destination_seen(true)),
        "/r/Song Restored 01234567 now exists. Choose whether to delete, overwrite, duplicate, or ignore it."
    );
    let run = next(begin(RestoreCollisionChoice::Duplicate).destination_seen(true));
    assert!(matches!(run.stage, RestoreStage::LookAtDestination));
    assert_eq!(run.final_root, "/r/Song Restored 01234567 (2)");
    let run = next(next(run.destination_seen(true)).destination_seen(false));
    assert!(matches!(run.stage, RestoreStage::MakeParent));
    assert_eq!(run.final_root, "/r/Song Restored 01234567 (3)");
    assert_eq!(run.parent(), "/r");
    let run = next(begin(RestoreCollisionChoice::Overwrite).destination_seen(true));
    assert!(matches!(run.stage, RestoreStage::MakeParent));
    assert_eq!(run.final_root, "/r/Song Restored 01234567");
}

#[test]
fn a_restore_that_is_published_is_done() {
    let run = next(read(RestoreCollisionChoice::AbortIfExists, false, 1));
    assert!(matches!(run.stage, RestoreStage::LookAtQuarantine));
    let run = next(run.quarantine_seen(true));
    assert_eq!(run.quarantine, "/r/.Song Restored 01234567.auru-previous-7-2");
    let run = next(run.quarantine_seen(false));
    let run = next(run.destination_seen_again(false));
    assert!(matches!(
        run.stage,
        RestoreStage::Publish(PublishStage::MoveIn)
    ));
    let run = next(run.step_done(Ok(())));
    let RestoreStep::Done(result) = run.step_done(Ok(())) else {
        panic!("the restore should be done");
    };
    assert_eq!(result.project_file, "/r/Song Restored 01234567/Song.als");
    assert_eq!(
        (
            result.files_written,
            result.unavailable,
            result.verified_files
        ),
        (3, 1, 1)
    );
    assert!(result.previous_copy.is_none());
}

#[test]
fn an_incomplete_restore_is_not_published_over_a_project() {
    for collision in [
        RestoreCollisionChoice::Overwrite,
        RestoreCollisionChoice::DeleteAndReplace,
    ] {
        let run = next(read(collision, true, 2));
        assert!(matches!(run.stage, RestoreStage::Clean(_)));
        assert_eq!(run.staging, STAGING);
        assert_eq!(
            failure(run.cleaned()),
            "The staged restore is missing 2 referenced file(s), so the existing copy was left untouched."
        );
        let run = next(read(collision, true, 0));
        assert!(matches!(run.stage, RestoreStage::LookAtQuarantine));
    }
}

#[test]
fn every_failure_removes_the_staging_folder() {
    let choice = RestoreCollisionChoice::AbortIfExists;
    let run = next(begin(choice).destination_seen(false));
    assert_eq!(
        failure(run.parent_made(Err("full".to_owned()))),
        "create restore parent: full"
    );
    let run = next(next(begin(choice).destination_seen(false)).parent_made(Ok(())));
    assert_eq!(run.staging, STAGING);
    let run = next(run.staging_made(CreateFolder::AlreadyExists));
    assert_eq!(
        run.staging,
        "/r/.Song Restored 01234567.auru-restoring-7-2"
    );
    assert_eq!(
        failure(run.staging_made(CreateFolder::Failed("full".to_owned()))),
        "create restore staging folder: full"
    );

    let file = format!("{STAGING}/Song.als");
    let symlink = vec![("link".to_owned(), TreeEntry::Symlink)];
    let filled = || next(staged(choice, false).filled(Ok(result(&file, 0))));
    let looked = || next(next(read(choice, false, 0)).quarantine_seen(false));
    let failing = [
        (staged(choice, false).filled(Err("offline".to_owned())), "offline".to_owned()),
        (
            staged(choice, false).filled(Ok(result("/elsewhere/Song.als", 0))),
            "restored project escaped its staging folder".to_owned(),
        ),
        (filled().tree_read(Err("gone".to_owned())), "gone".to_owned()),
        (
            filled().tree_read(Ok(symlink)),
            format!("refusing a symlink in staged restore: {STAGING}/link"),
        ),
        (
            looked().destination_seen_again(true),
            "/r/Song Restored 01234567 appeared while the restore was being verified; nothing was overwritten"
                .to_owned(),
        ),
        (
            next(looked().destination_seen_again(false)).step_done(Err("busy".to_owned())),
            "publish verified restore: busy".to_owned(),
        ),
    ];
    for (step, error) in failing {
        let run = next(step);
        assert!(matches!(run.stage, RestoreStage::Clean(_)));
        assert_eq!(run.staging, STAGING);
        assert_eq!(failure(run.cleaned()), error);
    }
}
