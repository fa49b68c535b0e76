//! Backing up, restoring, and the names of what is restored.
use auru_pm_ui::assets::{
    captured_assets, fetched_assets, native_sample_place, restore_ableton, restore_auru, restore_dawproject,
    restore_fl, restore_opaque_project, rewrite_native_project, rewrite_native_sample_paths,
    ManifestEntry,
};
use auru_pm_ui::backup::{
    conflict_value_label, load_history_after_backup, load_stable_snapshot, local_author,
    open_provider_for_backup, prepare_backup, resolve_backup, save_project_metadata,
    AccountIdentity, BackupRequest, BackupResult, BackupRun, BackupStage, BackupStep,
    BackupVerification, ConflictBackup, ConflictChoice, ConflictedField, IdentityRead,
    MetadataStep, PreparedBackup, ProjectProfile, PushOutcome, StableRead,
};
use auru_pm_ui::catalog::{
    local_provider, AuthMethod, Capabilities, ProviderListing, RegistryAvailability, RegistryEntry,
};
use auru_pm_ui::format::{
    CommitId, CommitSummary, ProjectFormat, ProjectLocation, ProjectMetadata, Sidecar,
};
use auru_pm_ui::moment::Moment;
use auru_pm_ui::names::{
    is_windows_reserved_name, persisted_project_handle, project_display_name, project_handle,
    restore_root_for, restore_target, safe_file_component, safe_native_asset_file_name,
    safe_project_file_name, safe_restore_location, staging_candidate, unique_duplicate_root,
    unique_quarantine_path, utf8_width,
};
use auru_pm_ui::path::{self, Platform};
use auru_pm_ui::publish::{
    copy_missing_entries, EntryKind, MergeStep, Publication, PublishStage,
};
use auru_pm_ui::remote::{remote_catalogue, RemoteRecord};
use auru_pm_ui::restore::{
    create_staging_root, hash_restore_tree, preserved_file_holds, project_within_staging, published,
    require_complete_recovery, require_complete_replacement, resolve_restore_collision,
    verify_restore_tree, written_file_holds, CreateFolder, RestoreCollisionChoice, RestoreResult,
    StagingStep, TreeEntry,
};
use auru_pm_ui::retention::{retention_roots, RetentionReport, RetentionRule, Stash};
use auru_pm_ui::text_map::TextMap;
use serde_json::Value;

const ON: Platform = Platform::Other;

const HASH: &str = "blake3:0123456789abcdef0123456789abcdef";
const OTHER_HASH: &str = "blake3:fedcba9876543210fedcba9876543210";

fn commit(text: &str) -> CommitId {
    CommitId {
        text: text.to_owned(),
    }
}

fn summary(id: &str) -> CommitSummary {
    CommitSummary {
        id: commit(id),
        message: "Backed up changes".to_owned(),
        timestamp: 1_750_000_000,
    }
}

fn request(rule: Option<RetentionRule>, verify_uploads: bool) -> BackupRequest {
    BackupRequest {
        provider_id: "local:/backups".to_owned(),
        provider_name: "Backups".to_owned(),
        display_name: "Jake".to_owned(),
        retention_rule: rule,
        verify_uploads,
        path_aliases: Vec::new(),
    }
}

fn prepared(location: Option<ProjectLocation>) -> PreparedBackup {
    PreparedBackup {
        project_path: "/music/Song.auru".to_owned(),
        format: ProjectFormat::Auru,
        metadata: ProjectMetadata::default(),
        location,
        source_revision: Some(Moment::at_seconds(100)),
    }
}

fn able() -> Capabilities {
    Capabilities {
        project_listing: true,
        history_retention: true,
    }
}

fn next(step: BackupStep) -> BackupRun {
    match step {
        BackupStep::Next(run) => run,
        other => panic!("the run should go on: {other:?}"),
    }
}

fn failed(step: BackupStep) -> String {
    match step {
        BackupStep::Failed(error) => error,
        other => panic!("the run should fail: {other:?}"),
    }
}

fn done(step: BackupStep) -> BackupResult {
    match step {
        BackupStep::Done(result) => result,
        other => panic!("the run should be done: {other:?}"),
    }
}

fn pushed(run: BackupRun, unavailable: &[&str]) -> BackupStep {
    run.pushed(Ok(PushOutcome::Committed {
        commit: commit("new"),
        unavailable_assets: unavailable.iter().map(|path| (*path).to_owned()).collect(),
    }))
}

#[test]
fn a_partial_remote_restore_should_not_be_treated_as_synchronized() {
    let result = RestoreResult {
        project_file: "/recover/Night Drive.als".to_owned(),
        files_written: 3,
        unavailable: 2,
        verified_files: 4,
        previous_copy: None,
    };

    let error = require_complete_recovery(result).expect_err("partial restore");

    assert!(error.contains("was not enrolled as synchronized"));
    assert!(error.contains("2 referenced file(s) could not be restored"));
}

#[test]
fn an_unverified_remote_restore_should_not_be_treated_as_synchronized() {
    let result = RestoreResult {
        project_file: "/recover/Night Drive.als".to_owned(),
        files_written: 0,
        unavailable: 0,
        verified_files: 0,
        previous_copy: None,
    };

    let error = require_complete_recovery(result).expect_err("unverified restore");

    assert!(error.contains("no output files could be hash-verified"));
    assert!(error.contains("was not enrolled as synchronized"));
}

#[test]
fn project_handles_should_be_safe_and_distinguish_equal_names() {
    let one = project_handle(ON, "/music/one/My Song.flp", HASH);
    let two = project_handle(ON, "/music/two/My Song.flp", OTHER_HASH);
    assert_ne!(one, two);
    assert!(one.starts_with("my-song-"));
    assert!(!one.contains('/'));
    assert!(!one.contains(':'));
}

#[test]
fn restored_native_asset_names_should_be_safe_path_components() {
    let name = safe_native_asset_file_name(ON, r#"C:\Users\Jake\..\CON:?<>|.wav"#, HASH);

    assert!(!name.contains(['/', '\\', ':', '?', '<', '>', '|']));
    assert!(name.ends_with(".wav"));
}

#[test]
fn restored_project_names_should_avoid_windows_devices() {
    assert_eq!(
        safe_project_file_name("CON", ProjectFormat::Auru),
        "_CON.auru"
    );
    assert_eq!(
        safe_project_file_name("lpt9.session", ProjectFormat::AbletonLiveSet),
        "_lpt9.session.als"
    );
    assert_eq!(
        safe_project_file_name("LPT10", ProjectFormat::FlStudio),
        "LPT10.flp"
    );
}

#[test]
fn a_persisted_project_handle_should_survive_a_local_move() {
    let (handle, is_new) = persisted_project_handle(ON, None, "/music/First Name.auru", HASH);
    assert!(is_new);

    assert_eq!(
        persisted_project_handle(ON, Some(&handle), "/music/Renamed.auru", OTHER_HASH),
        (handle.clone(), false)
    );
}

#[test]
fn restoring_the_same_version_again_should_choose_a_fresh_folder() {
    let first = restore_root_for(ON, "/restores", &None, "/music/My Song.flp", HASH);
    let second = unique_duplicate_root(ON, &first, &vec![first.clone()]);

    assert_ne!(second, first);
    let folder = second.strip_prefix("/restores/").expect("a folder");
    assert!(folder.starts_with("My Song Restored "), "{folder}");
    assert!(folder.ends_with(" (2)"), "{folder}");
}

#[test]
fn a_restore_location_should_recreate_only_safe_relative_parents() {
    let location = Some(ProjectLocation {
        relative_path: "Ableton/Projects/Night Drive Project".to_owned(),
    });

    let root = restore_root_for(ON, "/restores", &location, "Night Drive.als", HASH);

    let (parent, name) = root.rsplit_once('/').expect("a parent");
    assert_eq!(parent, "/restores/Ableton/Projects");
    assert!(name.starts_with("Night Drive Project Restored "), "{name}");
}

#[test]
fn a_traversal_restore_location_should_fall_back_inside_the_selected_root() {
    let location = Some(ProjectLocation {
        relative_path: "../../outside".to_owned(),
    });

    let root = restore_root_for(ON, "/restores", &location, "Night Drive.als", HASH);

    assert_eq!(root.rsplit_once('/').map(|parts| parts.0), Some("/restores"));
}

fn remote_listing() -> ProviderListing {
    ProviderListing::from_registry(RegistryEntry {
        id: "remote".to_owned(),
        name: "Remote".to_owned(),
        endpoint: "https://example.invalid".to_owned(),
        capabilities: Capabilities::default(),
        auth_methods: vec![AuthMethod::NoAuth],
        icon_url: None,
        description: String::new(),
        detail: String::new(),
        recommended: false,
        availability: RegistryAvailability::Available,
    })
}

#[test]
fn a_remote_listing_should_not_be_treated_as_a_local_folder() {
    assert!(remote_listing().local_path().is_none());
}

// ---------------------------------------------------------------------------
// Backing up
// ---------------------------------------------------------------------------

#[test]
fn a_successful_backup_should_apply_the_selected_retention_rule() {
    let rule = RetentionRule::Latest { count: 2 };
    let run = BackupRun::start(request(Some(rule), true), prepared(None), None);
    let run = next(run.opened(Ok(able())));
    assert!(matches!(run.stage, BackupStage::ReadHistory));
    let run = next(run.history_read(Ok(vec![summary("b"), summary("a")])));
    assert!(matches!(run.stage, BackupStage::Register));
    assert_eq!(run.profile(ON).display_name, "Song");
    let run = next(run.registered(Ok(())));
    assert!(matches!(run.stage, BackupStage::Push));
    let run = next(pushed(run, &[]));
    assert!(matches!(run.stage, BackupStage::Verify));
    let run = next(run.verified(Ok(())));
    assert!(matches!(run.stage, BackupStage::ReadPending));
    let stash = Stash {
        snapshot: "blob".to_owned(),
        resources: vec!["sample".to_owned()],
    };
    let run = next(run.pending_read(Ok((vec![commit("pending")], Some(stash)))));
    let BackupStage::Prune {
        rule: used,
        protected,
    } = &run.stage
    else {
        panic!("old versions should be pruned");
    };
    assert_eq!(*used, rule);
    assert_eq!(protected.commits, [commit("pending")]);
    assert_eq!(protected.blobs.len(), 2);
    let run = next(run.pruned(Ok(RetentionReport {
        versions_removed: 1,
        bytes_freed: 10,
    })));
    let run = next(run.history_reread(Ok(vec![summary("new"), summary("b")])));
    assert!(matches!(run.stage, BackupStage::RecordVerified));
    let BackupResult::Committed(receipt) = done(run.recorded(Ok(()))) else {
        panic!("the backup should commit");
    };
    assert_eq!(receipt.history.len(), 2);
    assert_eq!(
        receipt
            .retention
            .expect("local providers support retention")
            .versions_removed,
        1
    );
    assert!(receipt.retention_warning.is_none());
    assert_eq!(receipt.verification, BackupVerification::Verified);
}

#[test]
fn an_incomplete_backup_should_keep_the_last_verified_version_and_skip_retention() {
    let rule = RetentionRule::Latest { count: 1 };
    let run = BackupRun::start(request(Some(rule), true), prepared(None), None);
    let run = next(run.opened(Ok(able())));
    let run = next(run.history_read(Ok(vec![summary("verified")])));
    let run = next(run.registered(Ok(())));
    let run = next(pushed(run, &["/music/take.wav"]));
    assert!(matches!(run.stage, BackupStage::RereadHistory));
    let BackupResult::Committed(receipt) =
        done(run.history_reread(Ok(vec![summary("new"), summary("verified")])))
    else {
        panic!("incomplete backup should still preserve history");
    };
    assert!(matches!(
        receipt.verification,
        BackupVerification::Incomplete(ref unavailable) if unavailable.len() == 1
    ));
    assert_eq!(
        receipt.history.len(),
        2,
        "the verified version must not be pruned"
    );
    assert_eq!(
        receipt.retention_warning.as_deref(),
        Some("old versions were kept because this backup was not completely verified")
    );
}

#[test]
fn a_failed_verification_should_preserve_history_when_the_commit_cannot_be_re_read() {
    let mut verification = BackupVerification::Failed("re-read commit: not found".to_owned());
    let retained = load_history_after_backup(
        Err("not found".to_owned()),
        vec![summary("a")],
        &mut verification,
    )
    .expect("a committed upload with a verification warning remains successful");

    assert_eq!(retained.len(), 1);
    assert_eq!(retained[0].id, commit("a"));
    let BackupVerification::Failed(error) = verification else {
        panic!("history failure should remain a verification warning");
    };
    assert!(error.contains("re-read backup history"), "{error}");
}

#[test]
fn an_unchecked_backup_needs_its_history() {
    let mut verification = BackupVerification::Skipped;
    assert!(
        load_history_after_backup(Err("gone".to_owned()), Vec::new(), &mut verification).is_err()
    );
    let mut verification = BackupVerification::Verified;
    assert!(
        load_history_after_backup(Err("gone".to_owned()), Vec::new(), &mut verification).is_ok()
    );
    assert!(matches!(verification, BackupVerification::Failed(_)));
}

fn conflict() -> ConflictBackup {
    ConflictBackup {
        conflicts: vec![ConflictedField {
            path: "/tempo".to_owned(),
            base: Some(Value::from(120)),
            local: Some(Value::from(128)),
            remote: Some(Value::from(140)),
        }],
        request: request(None, false),
        prepared: prepared(None),
    }
}

#[test]
fn a_conflicted_backup_should_resume_with_one_choice_per_field() {
    let run = BackupRun::start(request(None, false), prepared(None), None);
    let run = next(run.opened(Ok(Capabilities::default())));
    assert!(matches!(run.stage, BackupStage::Push));
    let BackupResult::NeedsResolution(found) =
        done(run.pushed(Ok(PushOutcome::NeedsResolution(conflict().conflicts))))
    else {
        panic!("divergent tempo edits should conflict");
    };
    assert_eq!(found.conflicts().len(), 1);

    let run = resolve_backup(found, &vec![ConflictChoice::Remote]).expect("resolved backup");
    let resolutions = run.resolutions.as_ref().expect("a side for each field");
    assert_eq!(resolutions.len(), 1);
    assert_eq!(resolutions[0].choice, ConflictChoice::Remote);
    assert_eq!(resolutions[0].conflict.path, "/tempo");
    let run = next(run.opened(Ok(Capabilities::default())));
    let run = next(pushed(run, &[]));
    assert!(matches!(
        done(run.history_reread(Ok(vec![summary("new")]))),
        BackupResult::Committed(_)
    ));

    assert!(resolve_backup(conflict(), &Vec::new()).is_err());
}

#[test]
fn a_failed_step_says_what_failed() {
    let start = || BackupRun::start(request(None, false), prepared(None), None);
    assert_eq!(
        failed(start().opened(Err("open local backup destination: denied".to_owned()))),
        "open local backup destination: denied"
    );
    let location = Some(ProjectLocation {
        relative_path: "Auru/Song.auru".to_owned(),
    });
    let run = BackupRun::start(request(None, false), prepared(location), None);
    let run = next(run.opened(Ok(able())));
    assert!(matches!(run.stage, BackupStage::SaveLocation));
    assert_eq!(
        failed(run.location_saved(Err("read-only".to_owned()))),
        "save project library location: read-only"
    );
    let run = next(start().opened(Ok(able())));
    assert_eq!(
        failed(run.registered(Err("offline".to_owned()))),
        "register project with provider: offline"
    );
    let run = next(start().opened(Ok(Capabilities::default())));
    assert_eq!(failed(run.pushed(Err("boom".to_owned()))), "boom");
    let run = next(start().opened(Ok(Capabilities::default())));
    assert!(matches!(
        done(run.pushed(Ok(PushOutcome::NeedsReview(2)))),
        BackupResult::NeedsReview(2)
    ));
}

#[test]
fn a_failed_check_does_not_lose_the_backup() {
    let run = BackupRun::start(request(None, true), prepared(None), None);
    let run = next(run.opened(Ok(Capabilities::default())));
    let run = next(run.history_read(Err("offline".to_owned())));
    let run = next(pushed(run, &[]));
    let run = next(run.verified(Err("re-read commit: not found".to_owned())));
    let BackupResult::Committed(receipt) = done(run.history_reread(Ok(vec![summary("new")])))
    else {
        panic!("the backup is there");
    };
    assert!(matches!(receipt.verification, BackupVerification::Failed(_)));
}

#[test]
fn a_project_is_read_while_nobody_saves_it() {
    let at = |seconds| Some(Moment::at_seconds(seconds));
    assert_eq!(
        load_stable_snapshot("/music/Song.auru", 1, at(1), at(1)),
        StableRead::Stable(at(1))
    );
    assert_eq!(
        load_stable_snapshot("/music/Song.auru", 1, at(1), at(2)),
        StableRead::Again
    );
    assert!(matches!(
        load_stable_snapshot("/music/Song.auru", 3, at(1), at(2)),
        StableRead::GiveUp(_)
    ));
}

fn sidecar(metadata: ProjectMetadata, location: Option<ProjectLocation>) -> Sidecar {
    Sidecar {
        primary: None,
        provider_handles: TextMap::new(),
        local_head: None,
        verified_head: None,
        metadata,
        location,
    }
}

#[test]
fn a_prepared_backup_takes_the_labels_along() {
    let metadata = ProjectMetadata {
        genre: Some("Ambient".to_owned()),
        tags: Vec::new(),
    };
    let prepared = prepare_backup(
        "/music/Song.auru".to_owned(),
        ProjectFormat::Auru,
        None,
        Some(Moment::at_seconds(7)),
        Ok(sidecar(metadata.clone(), None)),
    )
    .expect("prepared");
    assert_eq!(prepared.metadata, metadata);
    assert_eq!(prepared.source_revision(), Some(Moment::at_seconds(7)));
    assert!(prepare_backup(
        "/music/Song.auru".to_owned(),
        ProjectFormat::Auru,
        None,
        None,
        Err("broken".to_owned()),
    )
    .is_err());
}

#[test]
fn a_version_is_signed_by_whoever_is_signed_in() {
    let listing = remote_listing();
    let local = open_provider_for_backup(
        &local_provider(ON, "/backups"),
        "  ",
        IdentityRead::Failed("not asked".to_owned()),
        false,
    )
    .expect("an author");
    assert_eq!(local.display_name, "Local user");
    assert_eq!(local.provider_user_id, "local-user");
    let author = local_author("local:/backups", "Jake");
    assert_eq!(author.display_name, "Jake");
    assert_eq!(author.provider_id, "local:/backups");
    let known = open_provider_for_backup(
        &listing,
        "Jake",
        IdentityRead::Known(AccountIdentity {
            display_name: "Jake Remote".to_owned(),
            user_id: "u1".to_owned(),
            provider_id: "auru-cloud".to_owned(),
            email: None,
        }),
        true,
    )
    .expect("an author");
    assert_eq!(known.provider_user_id, "u1");
    assert!(open_provider_for_backup(
        &listing,
        "Jake",
        IdentityRead::Failed("500".to_owned()),
        true
    )
    .is_err());
}

#[test]
fn labels_are_saved_in_order() {
    let marker = Moment::at_seconds(5);
    let profile = || ProjectProfile {
        display_name: "Song".to_owned(),
        format: ProjectFormat::FlStudio,
        metadata: ProjectMetadata {
            genre: Some("Techno".to_owned()),
            tags: vec!["dark".to_owned()],
        },
        location: Some(ProjectLocation {
            relative_path: "FL/Song.flp".to_owned(),
        }),
    };
    let steps = save_project_metadata(true, Some(marker), true, profile());
    assert_eq!(steps.len(), 4);
    let MetadataStep::WriteSidecar { metadata, location } = &steps[0] else {
        panic!("the sidecar comes first");
    };
    assert_eq!(*metadata, profile().metadata);
    assert_eq!(*location, profile().location);
    assert!(matches!(&steps[1], MetadataStep::RestoreMarker(at) if *at == marker));
    assert!(matches!(steps[2], MetadataStep::OpenProvider));
    let MetadataStep::UpdateProvider(told) = &steps[3] else {
        panic!("the provider comes last");
    };
    assert_eq!(told.display_name, "Song");
    assert_eq!(told.metadata, profile().metadata);
    let failures: Vec<String> = steps.iter().map(|step| step.failed("NAS", "io")).collect();
    assert_eq!(
        failures,
        [
            "save local project metadata: io",
            "restore project backup marker: io",
            "open project metadata on NAS: io",
            "update project metadata on NAS: io",
        ]
    );
    assert_eq!(save_project_metadata(true, None, false, profile()).len(), 1);
    assert!(save_project_metadata(false, None, false, profile()).is_empty());
}

#[test]
fn roots_protect_what_is_not_pushed() {
    let roots = retention_roots(vec![commit("a")], None);
    assert_eq!(roots.commits, [commit("a")]);
    assert!(roots.blobs.is_empty());
}

#[test]
fn conflicting_values_are_told_in_words() {
    assert_eq!(conflict_value_label(&None), "Not present");
    assert_eq!(conflict_value_label(&Some(Value::Null)), "None");
    assert_eq!(conflict_value_label(&Some(Value::from(true))), "true");
    assert_eq!(conflict_value_label(&Some(Value::from(128))), "128");
    assert_eq!(conflict_value_label(&Some(Value::from("C Phrygian"))), "C Phrygian");
    let long: String = "é".repeat(200);
    let label = conflict_value_label(&Some(Value::from(long)));
    assert!(label.starts_with(&"é".repeat(160)));
    assert!(label.chars().count() < 200);
    let list: Value = serde_json::from_str("[1,2,3]").expect("a list");
    assert!(conflict_value_label(&Some(list)).contains('3'));
}

// ---------------------------------------------------------------------------
// Restoring
// ---------------------------------------------------------------------------

fn entry(path: &str, hash: &str, origin: Option<&str>) -> ManifestEntry {
    ManifestEntry {
        path: path.to_owned(),
        hash: hash.to_owned(),
        origin: origin.map(str::to_owned),
    }
}

fn paths(list: &[&str]) -> TextMap<()> {
    let mut map = TextMap::new();
    for path in list {
        map.insert(path, ());
    }
    map
}

#[test]
fn an_opaque_restore_writes_one_file() {
    let restored = restore_opaque_project("/restores/Song.bwproject".to_owned());
    assert_eq!(restored.project_file, "/restores/Song.bwproject");
    assert_eq!((restored.files_written, restored.unavailable), (0, 0));
}

#[test]
fn restored_samples_are_counted() {
    let entries = vec![
        entry("/a/kick.wav", HASH, None),
        entry("/a/unused.wav", OTHER_HASH, None),
    ];
    let referenced = paths(&["/a/kick.wav", "/a/missing.wav"]);
    let restored = fetched_assets(ON, &entries, &referenced, &vec![true, true]);
    assert_eq!(restored.len(), 1);
    let place = restored.get("/a/kick.wav").expect("restored");
    assert_eq!(*place, native_sample_place(ON, &entries[0]));
    let result = restore_auru("/r/Song.auru".to_owned(), &referenced, &restored);
    assert_eq!((result.files_written, result.unavailable), (1, 1));

    let none = fetched_assets(ON, &entries, &referenced, &vec![false, true]);
    assert_eq!(none.len(), 0);

    let result = restore_dawproject("/r/Song.dawproject".to_owned(), &referenced, &restored, true);
    assert_eq!(result.unavailable, 1);
}

#[test]
fn missing_fl_samples_are_counted_once() {
    let entries = vec![
        entry("Samples/Kick.wav", HASH, Some("/a/Kick.wav")),
        entry("Samples/Hat.wav", OTHER_HASH, None),
    ];
    let (captured, written) = captured_assets(&entries, &vec![false, true]);
    assert_eq!((captured.len(), written), (0, 1));
    let (captured, written) = captured_assets(&entries, &vec![true, true]);
    assert_eq!((captured.len(), written), (1, 2));
    assert_eq!(
        captured.get("/a/Kick.wav").map(String::as_str),
        Some("Samples/Kick.wav")
    );
    let result = restore_fl("/r/Beat.flp".to_owned(), 0, &vec!["/a/Kick.wav".to_owned()]);
    assert_eq!((result.files_written, result.unavailable), (0, 1));
}

#[test]
fn a_missing_ableton_file_is_counted_once() {
    let missing = |list: &[&str]| list.iter().map(|path| (*path).to_owned()).collect::<Vec<_>>();
    let result = restore_ableton(
        "/r/Song.als".to_owned(),
        3,
        &missing(&["a.wav", "b.wav"]),
        &missing(&["b.wav", "c.wav", "c.wav"]),
    );
    assert_eq!((result.files_written, result.unavailable), (3, 3));
}

#[test]
fn clips_are_pointed_at_the_restored_samples() {
    let project = r#"{"version":8,"channels":[{"clips":[
        {"data":{"Audio":{"file_path":"/a/kick.wav"}}},
        {"data":{"Audio":{"file_path":"/a/other.wav"}}},
        {"data":{"Midi":{}}}
    ]}]}"#;
    let mut restored = TextMap::new();
    restored.insert("/a/kick.wav", "Samples/kick.wav".to_owned());
    let bytes = rewrite_native_project(project.as_bytes(), &restored).expect("rewritten");
    let value: Value = serde_json::from_slice(&bytes).expect("json");
    let path = |clip: usize| {
        value
            .pointer(&format!("/channels/0/clips/{clip}/data/Audio/file_path"))
            .and_then(Value::as_str)
            .map(str::to_owned)
    };
    assert_eq!(path(0).as_deref(), Some("Samples/kick.wav"));
    assert_eq!(path(1).as_deref(), Some("/a/other.wav"));
    assert_eq!(path(2), None);
    assert_eq!(value.get("version").and_then(Value::as_u64), Some(8));

    assert!(rewrite_native_project(b"{ not json", &restored).is_err());

    let mut plain: Value = serde_json::from_str(r#"{"version":8}"#).expect("json");
    rewrite_native_sample_paths(&mut plain, &restored);
    assert_eq!(plain.get("version").and_then(Value::as_u64), Some(8));
}

#[test]
fn an_unconfirmed_collision_should_leave_the_existing_project_untouched() {
    let taken = vec!["/r/Song Restored".to_owned()];
    resolve_restore_collision(
        ON,
        "/r/Song Restored",
        RestoreCollisionChoice::AbortIfExists,
        &taken,
    )
    .expect_err("choice required");
    assert_eq!(
        resolve_restore_collision(
            ON,
            "/r/Song Restored",
            RestoreCollisionChoice::AbortIfExists,
            &Vec::new()
        )
        .as_deref(),
        Ok("/r/Song Restored")
    );
    assert_eq!(
        resolve_restore_collision(ON, "/r/Song Restored", RestoreCollisionChoice::Duplicate, &taken)
            .as_deref(),
        Ok("/r/Song Restored (2)")
    );
    assert_eq!(
        resolve_restore_collision(ON, "/r/Song Restored", RestoreCollisionChoice::Overwrite, &taken)
            .as_deref(),
        Ok("/r/Song Restored")
    );
}

fn publication(collision: RestoreCollisionChoice) -> Publication {
    Publication {
        final_root: "/r/Song Restored".to_owned(),
        quarantine: "/r/.quarantine".to_owned(),
        collision,
    }
}

#[test]
fn delete_and_replace_should_publish_only_after_the_staged_copy_is_verified() {
    let publication = publication(RestoreCollisionChoice::DeleteAndReplace);
    let stage = publication.start(true);
    assert!(matches!(stage, PublishStage::Protect));
    let stage = publication.next(stage, Ok(()));
    assert!(matches!(stage, PublishStage::Install));
    let stage = publication.next(stage, Ok(()));
    assert!(matches!(stage, PublishStage::Check));
    let stage = publication.next(stage, Ok(()));
    assert!(matches!(stage, PublishStage::Discard));
    let stage = publication.next(stage, Ok(()));
    assert!(matches!(stage, PublishStage::Done(None)));
}

#[test]
fn overwrite_should_preserve_unrelated_files_and_replace_matching_files() {
    let publication = publication(RestoreCollisionChoice::Overwrite);
    let stage = publication.next(publication.start(true), Ok(()));
    let stage = publication.next(stage, Ok(()));
    assert!(matches!(stage, PublishStage::Merge));
    assert!(matches!(
        copy_missing_entries("/q/notes.txt", EntryKind::File, false, false),
        MergeStep::Copy
    ));
    assert!(matches!(
        copy_missing_entries("/q/Song.auru", EntryKind::File, true, false),
        MergeStep::Keep
    ));
    assert!(matches!(
        copy_missing_entries("/q/Samples", EntryKind::Folder, true, true),
        MergeStep::Enter
    ));
    assert!(matches!(
        copy_missing_entries("/q/Samples", EntryKind::Folder, false, false),
        MergeStep::CreateAndEnter
    ));
    assert!(matches!(
        copy_missing_entries("/q/link", EntryKind::Symlink, false, false),
        MergeStep::Refuse(_)
    ));
    let stage = publication.next(stage, Ok(()));
    assert!(matches!(stage, PublishStage::Check));
}

#[test]
fn a_replacement_that_fails_is_undone() {
    let publication = publication(RestoreCollisionChoice::DeleteAndReplace);
    let check = || {
        let stage = publication.next(publication.start(true), Ok(()));
        publication.next(stage, Ok(()))
    };
    let stage = publication.next(check(), Err("hash mismatch".to_owned()));
    assert!(matches!(stage, PublishStage::MoveAside(_)));
    let stage = publication.next(stage, Ok(()));
    assert!(matches!(stage, PublishStage::GiveBack(_)));
    let PublishStage::Failed(error) = publication.next(stage, Ok(())) else {
        panic!("the restore failed");
    };
    assert_eq!(
        error,
        "hash mismatch; the existing project was restored unchanged"
    );
    let stage = publication.next(check(), Err("hash mismatch".to_owned()));
    let PublishStage::Failed(error) = publication.next(stage, Err("busy".to_owned())) else {
        panic!("the rollback failed");
    };
    assert!(error.contains("The previous copy remains at /r/.quarantine"));
    let PublishStage::Failed(error) =
        publication.next(publication.start(true), Err("denied".to_owned()))
    else {
        panic!("not protected");
    };
    assert_eq!(
        error,
        "protect existing project before replacement: denied"
    );
}

#[test]
fn nothing_is_overwritten_without_leave() {
    let publication = publication(RestoreCollisionChoice::Duplicate);
    assert!(matches!(publication.start(true), PublishStage::Failed(_)));
    let stage = publication.start(false);
    assert!(matches!(stage, PublishStage::MoveIn));
    let stage = publication.next(stage, Ok(()));
    assert!(matches!(stage, PublishStage::CheckMovedIn));
    let stage = publication.next(stage, Err("hash mismatch".to_owned()));
    assert!(matches!(stage, PublishStage::Withdraw(_)));
}

#[test]
fn a_restored_tree_is_checked_file_by_file() {
    let tree = vec![
        ("Song.auru".to_owned(), TreeEntry::File(Ok("h1".to_owned()))),
        (
            "Samples".to_owned(),
            TreeEntry::Folder(vec![(
                "kick.wav".to_owned(),
                TreeEntry::File(Ok("h2".to_owned())),
            )]),
        ),
    ];
    let hashes = hash_restore_tree(ON, "/r", &tree).expect("hashes");
    assert_eq!(hashes.len(), 2);
    let good = hashes.iter().map(|(_, hash)| Ok(hash.clone())).collect();
    assert!(verify_restore_tree(ON, "/r", &hashes, &good).is_ok());
    let bad = vec![Ok("x".to_owned()), Ok("y".to_owned())];
    assert!(verify_restore_tree(ON, "/r", &hashes, &bad).is_err());
    let link = vec![("link".to_owned(), TreeEntry::Symlink)];
    assert!(hash_restore_tree(ON, "/r", &link).is_err());
    let broken = vec![(
        "Song.auru".to_owned(),
        TreeEntry::File(Err("io".to_owned())),
    )];
    assert!(hash_restore_tree(ON, "/r", &broken).is_err());
}

#[test]
fn a_written_file_holds_what_was_written() {
    assert!(written_file_holds("/r/a", "h", Ok("h".to_owned())).is_ok());
    assert!(written_file_holds("/r/a", "h", Ok("x".to_owned())).is_err());
    assert!(written_file_holds("/r/a", "h", Err("io".to_owned())).is_err());
    let hash = |text: &str| Ok(text.to_owned());
    assert!(preserved_file_holds("/r/a", hash("h"), hash("h")).is_ok());
    assert_eq!(
        preserved_file_holds("/r/a", hash("h"), hash("x")),
        Err("preserved file /r/a failed BLAKE3 verification".to_owned())
    );
    assert_eq!(
        preserved_file_holds("/r/a", Err("io".to_owned()), hash("x")),
        Err("hash existing file: io".to_owned())
    );
    assert_eq!(
        preserved_file_holds("/r/a", hash("h"), Err("io".to_owned())),
        Err("verify preserved file: io".to_owned())
    );
}

#[test]
fn staging_is_tried_until_a_folder_is_free() {
    assert!(matches!(
        create_staging_root(0, CreateFolder::Created),
        StagingStep::Ready
    ));
    assert!(matches!(
        create_staging_root(0, CreateFolder::AlreadyExists),
        StagingStep::Retry(1)
    ));
    assert!(matches!(
        create_staging_root(0, CreateFolder::Failed("denied".to_owned())),
        StagingStep::Failed(_)
    ));
    assert_ne!(
        staging_candidate(ON, "/r/Song", 7, 0),
        staging_candidate(ON, "/r/Song", 7, 1)
    );
    let first = unique_quarantine_path(ON, "/r/Song", 7, &Vec::new());
    assert_ne!(unique_quarantine_path(ON, "/r/Song", 7, &vec![first.clone()]), first);
}

#[test]
fn an_incomplete_restore_replaces_nothing() {
    assert!(require_complete_replacement(0, RestoreCollisionChoice::DeleteAndReplace).is_ok());
    assert!(require_complete_replacement(1, RestoreCollisionChoice::DeleteAndReplace).is_err());
    assert!(require_complete_replacement(1, RestoreCollisionChoice::Duplicate).is_ok());
}

#[test]
fn a_published_restore_lies_at_its_destination() {
    let relative = project_within_staging(ON, "/r/.staging/Song.auru", "/r/.staging").expect("inside");
    assert_eq!(relative, "Song.auru");
    assert!(project_within_staging(ON, "/elsewhere/Song.auru", "/r/.staging").is_err());
    let staged = restore_opaque_project("/r/.staging/Song.auru".to_owned());
    let result = published(ON, staged, "/r/Song Restored", &relative, 1, None);
    assert_eq!(result.project_file, "/r/Song Restored/Song.auru");
    assert_eq!(result.verified_files, 1);
}

#[test]
fn a_full_recovery_is_enrolled() {
    let result = RestoreResult {
        project_file: "/r/Song.auru".to_owned(),
        files_written: 1,
        unavailable: 0,
        verified_files: 2,
        previous_copy: None,
    };
    assert!(require_complete_recovery(result).is_ok());
}

#[test]
fn names_are_kept_within_a_file_system() {

    assert_eq!(safe_file_component("  ", "Restored Project", 160), "Restored Project");
    assert!(is_windows_reserved_name("nul"));
    assert!(is_windows_reserved_name("COM1.txt"));
    assert!(!is_windows_reserved_name("COM0"));
    assert_eq!(project_display_name(ON, "/music/Song.auru"), "Song");
    assert_eq!(project_display_name(ON, "/"), "Untitled Project");
    for c in ['a', 'é', '日', '🎹', '\u{7f}', '\u{80}', '\u{7ff}', '\u{800}', '\u{ffff}'] {
        assert_eq!(utf8_width(c), c.len_utf8());
    }
    let long = "é".repeat(200);
    assert!(safe_file_component(&long, "x", 160).len() <= 160);
}

#[test]
fn a_location_stays_beneath_its_root() {
    let at = |path: &str| {
        safe_restore_location(&ProjectLocation {
            relative_path: path.to_owned(),
        })
    };
    assert_eq!(
        at("Ableton/Projects").expect("safe"),
        ["Ableton", "Projects"]
    );
    assert!(at("../up").is_none());
    assert!(at("/absolute").is_none());
    assert!(at("").is_none());
    assert!(at("a/. .. ./b").is_none());
}

#[test]
fn a_restore_lands_beneath_the_folder_that_was_picked() {
    let target = |on: Platform, destination: &str, name: &str, relative: Option<&str>| {
        let location = relative.map(|path| ProjectLocation {
            relative_path: path.to_owned(),
        });
        restore_target(on, destination, name, ProjectFormat::Auru, &location, "blake3:0123456789")
    };
    assert_eq!(target(ON, "/r", "Song.auru", None), "/r/Song Restored 01234567");
    assert_eq!(
        target(ON, "/r/", "x/../Song", Some("Live/Sets/Song.als")),
        "/r/Live/Sets/Song Restored 01234567"
    );
    assert_eq!(
        target(Platform::Windows, "C:\\Music", "Song", Some("Live/con/C:\\Song")),
        "C:\\Music\\Live\\_con\\C__Song Restored 01234567"
    );
    for (on, destination) in [
        (ON, "/r"),
        (Platform::Windows, "C:\\Music\\"),
        (Platform::Windows, "\\\\nas\\music"),
    ] {
        for relative in ["../../etc/x", "/etc/x", "C:/x", "\\\\a\\b\\c", "a/../b", "a/.. /b", "a//b"] {
            let root = target(on, destination, "../../Song", Some(relative));
            assert!(path::starts_with(on, &root, destination), "{root}");
            let depth = path::components(on, destination).len();
            let behind = path::components(on, &root).split_off(depth);
            assert!(!behind.is_empty());
            assert!(behind.iter().all(|part| path::names(part)), "{root}");
        }
    }
}

#[test]
fn a_catalogue_lists_what_could_be_opened() {
    let record = |handle: &str, opened: bool, format: Option<ProjectFormat>| RemoteRecord {
        handle: handle.to_owned(),
        head: commit(handle),
        updated_at: 1,
        opened,
        profile: None,
        snapshot_format: format,
        info: None,
    };
    let catalogue = remote_catalogue(
        vec![
            record("b", true, Some(ProjectFormat::Auru)),
            record("a", true, Some(ProjectFormat::FlStudio)),
            record("broken", false, None),
        ],
        &local_provider(ON, "/backups"),
    );
    assert_eq!(catalogue.projects.len(), 2);
    assert_eq!(catalogue.unavailable, 1);
    assert_eq!(catalogue.projects[0].provider_id, "local:/backups");
}
