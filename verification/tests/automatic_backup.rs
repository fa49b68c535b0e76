//! When a project is backed up by itself.
use auru_pm_ui::automatic_backup::{
    AutomaticBackupCandidate, AutomaticBackupReason, AutomaticBackupScheduler, ProjectObservation,
};
use auru_pm_ui::moment::Moment;

const SAVED_AT: i64 = 0;

fn seconds(after: i64) -> Moment {
    Moment::at_seconds(SAVED_AT + after)
}

fn linked_project() -> ProjectObservation {
    ProjectObservation {
        project_id: "project:Song.dawproject".to_owned(),
        modified_at: Some(seconds(0)),
        backed_up_at: Some(seconds(-60)),
        backup_destination_ready: true,
        backup_blocked: false,
    }
}

fn project_ids(candidates: Vec<AutomaticBackupCandidate>) -> Vec<String> {
    candidates
        .into_iter()
        .map(|candidate| candidate.project_id)
        .collect()
}

#[test]
fn a_linked_project_should_wait_for_five_quiet_minutes() {
    let scheduler = AutomaticBackupScheduler::default();

    let early = scheduler.poll(seconds(299), vec![linked_project()]);
    let ready = scheduler.poll(seconds(300), vec![linked_project()]);

    assert!(early.is_empty());
    assert_eq!(ready[0].qualified_revision, seconds(0));
    assert_eq!(project_ids(ready), ["project:Song.dawproject"]);
}

#[test]
fn one_saved_revision_should_only_be_selected_once() {
    let mut scheduler = AutomaticBackupScheduler::default();

    let first = scheduler.poll(seconds(300), vec![linked_project()]);
    scheduler.record_backup_attempt("project:Song.dawproject", Some(seconds(0)));
    let repeated = scheduler.poll(seconds(310), vec![linked_project()]);

    assert_eq!(project_ids(first), ["project:Song.dawproject"]);
    assert!(repeated.is_empty());
}

#[test]
fn a_later_save_should_begin_a_new_quiet_window() {
    let mut scheduler = AutomaticBackupScheduler::default();
    assert_eq!(
        project_ids(scheduler.poll(seconds(300), vec![linked_project()])),
        ["project:Song.dawproject"]
    );
    scheduler.record_backup_attempt("project:Song.dawproject", Some(seconds(0)));
    let changed = || ProjectObservation {
        modified_at: Some(seconds(301)),
        ..linked_project()
    };

    let early = scheduler.poll(seconds(301 + 299), vec![changed()]);
    let ready = scheduler.poll(seconds(301 + 300), vec![changed()]);

    assert!(early.is_empty());
    assert_eq!(project_ids(ready), ["project:Song.dawproject"]);
}

#[test]
fn a_project_should_need_an_existing_backup_before_it_is_automatic() {
    let scheduler = AutomaticBackupScheduler::default();
    let never_backed_up = ProjectObservation {
        backed_up_at: None,
        backup_destination_ready: false,
        ..linked_project()
    };

    let ready = scheduler.poll(seconds(600), vec![never_backed_up]);

    assert!(ready.is_empty());
}

#[test]
fn a_save_during_an_in_flight_backup_should_start_another_quiet_window() {
    let mut scheduler = AutomaticBackupScheduler::default();
    scheduler.record_backup_attempt("project:Song.dawproject", Some(seconds(0)));
    let changed = ProjectObservation {
        modified_at: Some(seconds(60)),
        backed_up_at: Some(seconds(120)),
        ..linked_project()
    };

    let ready = scheduler.poll(seconds(60 + 300), vec![changed]);

    assert_eq!(
        ready,
        [AutomaticBackupCandidate {
            project_id: "project:Song.dawproject".to_owned(),
            reason: AutomaticBackupReason::SavedDuringPreviousBackup,
            qualified_revision: seconds(60),
        }]
    );
}

#[test]
fn attempted_revisions_should_restore_after_a_restart() {
    let project_id = "project:Song.dawproject";
    let scheduler = AutomaticBackupScheduler::from_attempted_revisions(vec![(
        project_id.to_owned(),
        seconds(0),
    )]);
    let changed = ProjectObservation {
        modified_at: Some(seconds(60)),
        backed_up_at: Some(seconds(120)),
        ..linked_project()
    };

    let ready = scheduler.poll(seconds(60 + 300), vec![changed]);

    assert_eq!(
        ready,
        [AutomaticBackupCandidate {
            project_id: project_id.to_owned(),
            reason: AutomaticBackupReason::SavedDuringPreviousBackup,
            qualified_revision: seconds(60),
        }]
    );
}

#[test]
fn a_blocked_backup_is_not_due() {
    let scheduler = AutomaticBackupScheduler::default();
    let blocked = ProjectObservation {
        backup_blocked: true,
        ..linked_project()
    };
    assert!(scheduler.check(seconds(600), &blocked).is_none());
    assert_eq!(
        scheduler.check(seconds(600), &linked_project()),
        Some(AutomaticBackupReason::SavedAfterLastBackup)
    );
}

#[test]
fn recording_one_project_leaves_the_others() {
    let mut scheduler = AutomaticBackupScheduler::default();
    scheduler.record_backup_attempt("project:Other.als", Some(seconds(0)));
    let ready = scheduler.poll(seconds(300), vec![linked_project()]);
    assert_eq!(project_ids(ready), ["project:Song.dawproject"]);
}
