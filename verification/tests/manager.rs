//! The project manager: what a person does, and what the window then knows.
use auru_pm_ui::path::Platform;
use auru_pm_ui::appearance::{Appearance, Colour};
use auru_pm_ui::backup::{
    BackupReceipt, BackupRequest, BackupResult, BackupStart, BackupVerification, ConflictBackup,
    ConflictChoice, ConflictedField, PreparedBackup,
};
use auru_pm_ui::catalog::{
    local_provider, AuthMethod, Capabilities, CatalogState, ProviderAvailability, ProviderListing,
    RegistryAvailability, RegistryEntry,
};
use auru_pm_ui::detail::BpmFilter;
use auru_pm_ui::filters::{BpmFilterMode, MetadataBadgeField};
use auru_pm_ui::format::{
    CommitId, CommitSummary, ProjectFormat, ProjectLocation, ProjectMetadata, Sidecar,
};
use auru_pm_ui::inspection::{InputValue, Surface};
use auru_pm_ui::labels::{HistorySource, MetadataOutcome, ReadDetail, TypedLabels};
use auru_pm_ui::library::{Discovered, FoundProject, ReadProject, SortOrder, WatchedFolder};
use auru_pm_ui::manager::{
    path_alias_prefix, place_scan, retain_watched, CatalogueRead, PendingConflict, ProjectManager,
};
use auru_pm_ui::moment::Moment;
use auru_pm_ui::navigation::{AuthPhase, OnboardingStep, Overlay, OverlayHost, Route};
use auru_pm_ui::notice::NoticeLevel;
use auru_pm_ui::panels::{render_conflict_resolver, render_settings_provider, AuthContent};
use auru_pm_ui::project::{LoadedDetail, LocalFiles, Project, RemoteProjectSeed};
use auru_pm_ui::recovery::{
    check_destination, collision_answer, enrol_recovered, enrolment_failed, open_failed, restore_destination, restore_source,
    ActionStep, DestinationStep, RestoreOffer, RestoreSource,
};
use auru_pm_ui::remote::RemoteCatalogue;
use auru_pm_ui::restore::{RestoreCollisionChoice, RestoreResult};
use auru_pm_ui::retention::VersionRetention;
use auru_pm_ui::screens::ListQuery;
use auru_pm_ui::session::{AuthStep, SignInProgress, SignInStep};
use auru_pm_ui::state::{AppState, PathAliasState};
use auru_pm_ui::status::{ProjectStatus, SyncDirection};
use auru_pm_ui::text_map::TextMap;
use auru_pm_ui::transfers::{backup_bundle_policy, BackupContext, BackupLaunch, PreparedStep};
use auru_pm_ui::tree::{inspection_focus, root_focused, ClickAction, Entries, FocusTarget};
use serde_json::Value;

const NOW: Moment = Moment {
    nanos: 1_760_000_000_000_000_000,
};

const ON: Platform = Platform::Other;

fn commit(text: &str) -> CommitId {
    CommitId {
        text: text.to_owned(),
    }
}

fn project(name: &str, status: ProjectStatus) -> Project {
    Project {
        id: format!("project:/music/{name}.als"),
        name: name.to_owned(),
        file_name: format!("{name}.als"),
        local_path: format!("/music/{name}"),
        size: String::new(),
        format: ProjectFormat::AbletonLiveSet,
        status,
        last_activity: "saved just now".to_owned(),
        safe_version: String::new(),
        local_inventory: String::new(),
        versions: Vec::new(),
        sync_progress: 0,
        modified_at: None,
        backed_up_at: None,
        added_at: None,
        live_set: Some(format!("/music/{name}.als")),
        remote: None,
        provider_handles: TextMap::new(),
        metadata: ProjectMetadata::default(),
        location: None,
        detail: None,
        missing_plugins: Vec::new(),
    }
}

fn cloud() -> ProviderListing {
    ProviderListing::from_registry(RegistryEntry {
        id: "auru-cloud".to_owned(),
        name: "Auru Cloud".to_owned(),
        endpoint: "https://pm.auru.studio".to_owned(),
        capabilities: Capabilities::default(),
        auth_methods: vec![AuthMethod::OAuthDeviceCode],
        icon_url: None,
        description: "Hosted backup".to_owned(),
        detail: String::new(),
        recommended: true,
        availability: RegistryAvailability::Recommended,
    })
}

fn token_provider() -> ProviderListing {
    let mut listing = cloud();
    listing.entry.id = "token".to_owned();
    listing.entry.name = "Token Store".to_owned();
    listing.entry.auth_methods = vec![AuthMethod::Pat];
    listing
}

fn state() -> AppState {
    AppState {
        display_name: "Jake".to_owned(),
        onboarding_complete: true,
        ..AppState::default()
    }
}

fn manager(projects: Vec<Project>) -> ProjectManager {
    let mut state = state();
    state.add_local_provider(ON, "/backups");
    state.connect_provider("local:/backups");
    ProjectManager::new(ON, state, projects, Some(vec![cloud()]))
}

fn typed() -> TypedLabels {
    TypedLabels {
        genre: String::new(),
        tags: String::new(),
    }
}

fn no_files() -> LocalFiles {
    LocalFiles {
        modified_at: None,
        sidecar_modified_at: None,
        sidecar: None,
    }
}

fn context() -> BackupContext {
    BackupContext {
        primary: None,
        default_aliases: Vec::new(),
        now: 2_000_000_000,
    }
}

fn query(search: &str) -> ListQuery {
    ListQuery {
        search: search.to_owned(),
        genres: Vec::new(),
        tags: Vec::new(),
    }
}

fn entries() -> Entries {
    let input = |text: &str| InputValue {
        text: text.to_owned(),
        focused: false,
    };
    Entries {
        query: query(""),
        search_focused: true,
        bpm_range_min: input("1"),
        bpm_range_max: input("300"),
        labels: typed(),
        genre_focused: false,
        tags_focused: false,
        display_name: input("Jake"),
        display_name_setting: input("Jake"),
        path_alias: input(""),
        credential: input("SECRET"),
    }
}

// ---------------------------------------------------------------------------
// Launch and the library
// ---------------------------------------------------------------------------

#[test]
fn a_launch_starts_where_the_last_one_ended() {
    let manager = manager(vec![project("One", ProjectStatus::Downloaded)]);
    assert_eq!(manager.route, Route::Library);
    assert_eq!(manager.display_name, "Jake");
    assert_eq!(manager.catalog_state, CatalogState::FromFile);
    assert_eq!(manager.providers.len(), 2);
    assert!(manager.providers[1].is_connected());
    assert_eq!(
        manager.metadata_input_project_id.as_deref(),
        Some("project:/music/One.als")
    );
    let fresh = ProjectManager::new(ON, AppState::default(), Vec::new(), None);
    assert_eq!(fresh.route, Route::Onboarding);
    assert_eq!(fresh.catalog_state, CatalogState::Loading);
}

#[test]
fn another_order_keeps_the_selection() {
    let mut manager = manager(vec![
        project("Beta", ProjectStatus::NeverBackedUp),
        project("Alpha", ProjectStatus::Downloaded),
    ]);
    assert_eq!(manager.sort_order(), SortOrder::AttentionRequired);
    manager.selected_project = 0;
    assert!(manager.set_sort_order(SortOrder::NameAscending));
    assert_eq!(manager.projects[0].name, "Alpha");
    assert_eq!(manager.projects[manager.selected_project].name, "Beta");
    assert_eq!(manager.state.sort_order, SortOrder::NameAscending.key());
    assert!(!manager.set_sort_order(SortOrder::NameAscending));
}

#[test]
fn a_fetched_catalogue_keeps_own_folders() {
    let mut manager = ProjectManager::new(
        ON,
        {
            let mut state = state();
            state.add_local_provider(ON, "/backups");
            state.connect_provider("local:/backups");
            state
        },
        Vec::new(),
        None,
    );
    assert_eq!(manager.providers.len(), 1);
    let reads = manager.catalog_fetched(Ok(vec![cloud()]));
    assert_eq!(manager.catalog_state, CatalogState::Live);
    assert_eq!(manager.providers.len(), 2);
    assert_eq!(manager.providers[1].entry.id, "local:/backups");
    assert!(manager.providers[1].is_connected());
    assert_eq!(reads, [1]);
    manager.catalog_fetched(Err("offline".to_owned()));
    assert_eq!(manager.catalog_state, CatalogState::Unreachable);
    assert_eq!(manager.providers.len(), 2);
}

fn seed(handle: &str, name: &str) -> RemoteProjectSeed {
    RemoteProjectSeed {
        provider_id: "local:/backups".to_owned(),
        provider_name: "backups".to_owned(),
        handle: handle.to_owned(),
        head: commit(handle),
        name: name.to_owned(),
        file_name: format!("{name}.als"),
        format: ProjectFormat::AbletonLiveSet,
        metadata: ProjectMetadata::default(),
        location: None,
        updated_at: 1,
        info: None,
    }
}

#[test]
fn provider_projects_join_the_library() {
    let mut manager = manager(vec![project("One", ProjectStatus::Downloaded)]);
    assert_eq!(manager.refresh_remote_projects(), [1]);
    assert!(manager.remote_refreshing);
    assert!(manager.refresh_remote_projects().is_empty());
    assert!(manager.remote_refresh_pending);
    let again = manager.remote_projects_read(
        vec![CatalogueRead {
            provider_id: "local:/backups".to_owned(),
            catalogue: Ok(RemoteCatalogue {
                projects: vec![seed("two", "Two")],
                unavailable: 1,
            }),
        }],
        NOW,
    );
    assert_eq!(
        manager.remote_discovery_errors,
        ["1 project(s) on local:/backups could not be read"]
    );
    assert_eq!(again, [1]);
    assert_eq!(manager.projects.len(), 2);
    manager.remote_projects_read(
        vec![CatalogueRead {
            provider_id: "local:/backups".to_owned(),
            catalogue: Err("offline".to_owned()),
        }],
        NOW,
    );
    assert!(!manager.remote_refreshing);
    assert_eq!(manager.remote_discovery_errors.len(), 1);
    assert_eq!(manager.projects.len(), 2);
    let panel = manager.render_profile_settings();
    assert_eq!(
        panel.recovery,
        "1 project is ready to download from its provider."
    );
    assert_eq!(panel.current, "Currently saving as Jake");
    assert_eq!(panel.refresh_label, "REFRESH PROVIDER PROJECTS");
    assert!(!panel.errors.is_empty());
}

#[test]
fn a_chosen_alias_is_remembered() {
    assert_eq!(path_alias_prefix("  D:\\Packs ").unwrap(), "D:\\Packs");
    assert!(path_alias_prefix("  ").is_err());
    let mut manager = manager(Vec::new());
    let effects = manager.path_alias_chosen("D:\\Packs", "/mnt/packs");
    assert!(effects.save);
    assert_eq!(manager.render_path_aliases(), ["D:\\Packs  →  /mnt/packs"]);
}

#[test]
fn a_chosen_folder_becomes_a_destination() {
    let mut manager = manager(Vec::new());
    let before = manager.providers.len();
    let effects = manager.local_folder_chosen("/mnt/nas");
    assert!(effects.save);
    assert_eq!(manager.providers.len(), before + 1);
    assert!(manager.state.is_provider_connected("local:/mnt/nas"));
}

fn watched(path: &str, count: usize) -> WatchedFolder {
    WatchedFolder {
        path: path.to_owned(),
        projects: (0..count)
            .map(|index| {
                FoundProject::from_discovered(
                    ON,
                    path,
                    &Discovered {
                        name: format!("Song {index}"),
                        project_file: format!("{path}/Song {index}.flp"),
                        directory: path.to_owned(),
                        owns_directory: false,
                    },
                    1_024,
                )
            })
            .collect(),
    }
}

#[test]
fn a_watched_folder_is_shown_with_a_few_of_its_projects() {
    let mut manager = manager(Vec::new());
    let panel = manager.render_watched_folders(&None);
    assert!(panel.empty.is_some());
    assert!(panel.total.is_none());
    let effects = manager.record_watched_folder(
        watched("/home/jake/Music", 6),
        &None,
        vec![ReadProject {
            project: project("Song 0", ProjectStatus::NeverBackedUp),
            location: None,
        }],
        1,
    );
    assert!(effects.notice.is_some());
    assert_eq!(manager.projects.len(), 1);
    let panel = manager.render_watched_folders(&Some("/home/jake".to_owned()));
    assert_eq!(panel.folders.len(), 1);
    assert_eq!(panel.folders[0].title, "~/MUSIC");
    assert_eq!(panel.folders[0].summary, "6 PROJECTS · 6 KB");
    assert_eq!(panel.folders[0].projects.len(), 4);
    assert_eq!(
        panel.folders[0].projects[0],
        ("Song 0.flp".to_owned(), "1 KB".to_owned())
    );
    assert_eq!(panel.folders[0].more.as_deref(), Some("… and 2 more"));
    assert_eq!(
        panel.total.as_deref(),
        Some("6 PROJECTS · 6 KB — NOTHING UPLOADS UNTIL YOU CHOOSE")
    );
    manager.scanning = true;
    assert_eq!(
        manager.render_watched_folders(&None).watch_label,
        "SCANNING…"
    );
}

#[test]
fn scans_replace_each_other() {
    let mut folders = vec![watched("/a", 1), watched("/b", 1)];
    place_scan(ON, &mut folders, watched("/a", 3));
    assert_eq!(folders.len(), 2);
    assert_eq!(folders[0].projects.len(), 3);
    place_scan(ON, &mut folders, watched("/c", 1));
    assert_eq!(folders.len(), 3);
    retain_watched(ON, &mut folders, &vec!["/a".to_owned(), "/c".to_owned()]);
    assert_eq!(folders.len(), 2);
}

#[test]
fn an_imported_project_is_selected() {
    let mut manager = manager(vec![project("One", ProjectStatus::Downloaded)]);
    let effects = manager.insert_project(project("New", ProjectStatus::NeverBackedUp));
    assert!(effects.save);
    assert_eq!(manager.projects.len(), 2);
    assert_eq!(manager.projects[manager.selected_project].name, "New");
    manager.insert_project(project("New", ProjectStatus::NeverBackedUp));
    assert_eq!(manager.projects.len(), 2, "re-adding refreshes");
    let effects = manager.reload_library(
        vec![ReadProject {
            project: project("One", ProjectStatus::Downloaded),
            location: None,
        }],
        5,
    );
    assert!(effects.notice.is_some());
    assert_eq!(manager.projects.len(), 1);
}

// ---------------------------------------------------------------------------
// Backups
// ---------------------------------------------------------------------------

fn launch(manager: &mut ProjectManager, index: usize) -> auru_pm_ui::transfers::BackupJob {
    match manager.start_project_backup(index, BackupStart::Immediate, context()) {
        BackupLaunch::Prepare(job) => job,
        other => panic!("the backup should start: {other:?}"),
    }
}

fn prepared() -> PreparedBackup {
    PreparedBackup {
        project_path: "/music/One.als".to_owned(),
        format: ProjectFormat::AbletonLiveSet,
        metadata: ProjectMetadata::default(),
        location: None,
        source_revision: Some(Moment::at_seconds(100)),
    }
}

fn receipt(verification: BackupVerification) -> BackupResult {
    BackupResult::Committed(BackupReceipt {
        history: vec![CommitSummary {
            id: commit("new"),
            message: "Backed up changes".to_owned(),
            timestamp: 1_759_999_999,
        }],
        retention: None,
        retention_warning: None,
        verification,
    })
}

#[test]
fn a_backup_goes_to_the_connected_provider() {
    let mut manager = manager(vec![project("One", ProjectStatus::NeverBackedUp)]);
    let job = launch(&mut manager, 0);
    assert_eq!(job.listing.entry.id, "local:/backups");
    assert_eq!(job.project_path, "/music/One.als");
    assert_eq!(job.request.display_name, "Jake");
    assert_eq!(manager.projects[0].status, ProjectStatus::Syncing);
    assert!(matches!(
        manager.backup_prepared(&job, &Ok(prepared()), &no_files()),
        PreparedStep::Record
    ));
    assert_eq!(manager.state.backup_attempts().len(), 1);
    assert!(manager
        .revision_saved(&job, Ok(()), &no_files())
        .is_none());
    let notice = manager
        .backup_finished(
            &job.project_id,
            &job.project_name,
            Ok(receipt(BackupVerification::Verified)),
            &no_files(),
            NOW,
        )
        .expect("a notice");
    assert_eq!(notice.level, NoticeLevel::Success);
    assert_eq!(manager.projects[0].status, ProjectStatus::Downloaded);
}

#[test]
fn an_unverified_copy_leaves_work_waiting() {
    let mut manager = manager(vec![project("One", ProjectStatus::NeverBackedUp)]);
    let job = launch(&mut manager, 0);
    let notice = manager
        .backup_finished(
            &job.project_id,
            &job.project_name,
            Ok(receipt(BackupVerification::Failed("damaged".to_owned()))),
            &no_files(),
            NOW,
        )
        .expect("a notice");
    assert_ne!(notice.level, NoticeLevel::Success);
    assert_ne!(manager.projects[0].status, ProjectStatus::Downloaded);
    assert!(manager.projects[0].status.needs_attention());
}

#[test]
fn a_failed_backup_says_why() {
    let mut manager = manager(vec![project("One", ProjectStatus::NeverBackedUp)]);
    let job = launch(&mut manager, 0);
    assert!(matches!(
        manager.backup_prepared(&job, &Err("unreadable".to_owned()), &no_files()),
        PreparedStep::Failed(_)
    ));
    assert_eq!(manager.projects[0].status, ProjectStatus::NeverBackedUp);
    let job = launch(&mut manager, 0);
    let notice = manager
        .backup_finished(
            &job.project_id,
            &job.project_name,
            Err("offline".to_owned()),
            &no_files(),
            NOW,
        )
        .expect("a notice");
    assert_eq!(notice.level, NoticeLevel::Error);
    assert!(notice.message.contains("offline"));
}

#[test]
fn without_a_destination_nothing_is_backed_up() {
    let mut manager = ProjectManager::new(
        ON,
        state(),
        vec![project("One", ProjectStatus::NeverBackedUp)],
        Some(vec![cloud()]),
    );
    assert!(manager.backup_destination_for(&None).is_none());
    assert!(matches!(
        manager.start_project_backup(0, BackupStart::Immediate, context()),
        BackupLaunch::Refused(_)
    ));
    assert!(matches!(
        manager.start_project_backup(9, BackupStart::Immediate, context()),
        BackupLaunch::Nothing
    ));
}

#[test]
fn everything_that_waits_is_backed_up() {
    let mut manager = manager(vec![
        project("One", ProjectStatus::NeverBackedUp),
        project("Two", ProjectStatus::Downloaded),
        project("Three", ProjectStatus::OutOfSync(SyncDirection::LocalAhead)),
    ]);
    let launches = manager.back_up_all(vec![context(), context(), context()]);
    let started = launches
        .iter()
        .filter(|launch| matches!(launch, BackupLaunch::Prepare(_)))
        .count();
    assert_eq!(started, 2);
    assert_eq!(manager.projects[0].status, ProjectStatus::Syncing);
    assert_eq!(manager.projects[1].status, ProjectStatus::Downloaded);
}

#[test]
fn a_quiet_save_is_backed_up_by_itself() {
    let mut sidecar = Sidecar {
        primary: Some("local:/backups".to_owned()),
        provider_handles: TextMap::new(),
        local_head: Some(commit("a")),
        verified_head: Some(commit("a")),
        metadata: ProjectMetadata::default(),
        location: None,
    };
    sidecar
        .provider_handles
        .insert("local:/backups", "one".to_owned());
    let files = || LocalFiles {
        modified_at: Some(Moment::at_seconds(1_000)),
        sidecar_modified_at: Some(Moment::at_seconds(500)),
        sidecar: None,
    };
    let with_sidecar = LocalFiles {
        sidecar: Some(sidecar),
        ..files()
    };
    let mut manager = manager(vec![project("One", ProjectStatus::Downloaded)]);
    let early = manager.poll_automatic_backups(
        &vec![files()],
        Moment::at_seconds(1_299),
        &Vec::new(),
        1_299,
    );
    assert!(early.is_empty());
    let launches = manager.poll_automatic_backups(
        &vec![with_sidecar],
        Moment::at_seconds(1_300),
        &Vec::new(),
        1_300,
    );
    assert_eq!(launches.len(), 1);
    assert!(matches!(launches[0], BackupLaunch::Prepare(_)));
    manager.set_automatic_backups(false);
    assert!(!manager.state.automatic_backups);
}

#[test]
fn saved_aliases_come_before_the_defaults() {
    let alias = |from: &str, to: &str| PathAliasState {
        from: from.to_owned(),
        to: to.to_owned(),
    };
    let all = backup_bundle_policy(vec![alias("A", "/a")], &vec![alias("B", "/b")]);
    assert_eq!(all.len(), 2);
    assert!(all.contains(&alias("A", "/a")));
    assert!(all.contains(&alias("B", "/b")));
}

// ---------------------------------------------------------------------------
// Conflicts
// ---------------------------------------------------------------------------

fn conflict() -> ConflictBackup {
    ConflictBackup {
        conflicts: vec![ConflictedField {
            path: "/tempo".to_owned(),
            base: None,
            local: Some(Value::from(128)),
            remote: Some(Value::from(140)),
        }],
        request: BackupRequest {
            provider_id: "local:/backups".to_owned(),
            provider_name: "backups".to_owned(),
            display_name: "Jake".to_owned(),
            retention_rule: None,
            verify_uploads: true,
            path_aliases: Vec::new(),
        },
        prepared: prepared(),
    }
}

#[test]
fn a_conflict_waits_for_a_choice() {
    let mut manager = manager(vec![project("One", ProjectStatus::NeverBackedUp)]);
    let job = launch(&mut manager, 0);
    manager.backup_finished(
        &job.project_id,
        &job.project_name,
        Ok(BackupResult::NeedsResolution(conflict())),
        &no_files(),
        NOW,
    );
    assert_eq!(manager.projects[0].status, ProjectStatus::Conflicted);
    let pending = manager.pending_conflict.as_ref().expect("a conflict");
    let panel = render_conflict_resolver(pending);
    assert_eq!(panel.title, "Resolve One");
    assert_eq!(panel.rows.len(), 1);
    assert_eq!(panel.rows[0].path, "/tempo");
    assert_eq!(panel.rows[0].local, "128");
    assert_eq!(panel.rows[0].remote, "140");
    assert_eq!(panel.rows[0].choice, ConflictChoice::Local);
    manager.choose_side(0, ConflictChoice::Remote);
    let pending: &PendingConflict = manager.pending_conflict.as_ref().expect("a conflict");
    assert_eq!(pending.choices, [ConflictChoice::Remote]);
    let resolving = manager.resolve_pending_conflict().expect("it resumes");
    assert_eq!(resolving.1, "One");
    assert_eq!(manager.projects[0].status, ProjectStatus::Syncing);
    let notice = manager.conflict_resolved(
        &resolving.0,
        &resolving.1,
        Ok(receipt(BackupVerification::Verified)),
        &no_files(),
        NOW,
    );
    assert_eq!(notice.level, NoticeLevel::Success);
    assert!(manager.pending_conflict.is_none());
    assert_eq!(manager.projects[0].status, ProjectStatus::Downloaded);
}

// ---------------------------------------------------------------------------
// Recovery
// ---------------------------------------------------------------------------

fn restorable() -> Project {
    let mut row = Project::from_remote(seed("two", "Two"), NOW);
    row.location = Some(ProjectLocation {
        relative_path: "Ableton/Two Project".to_owned(),
    });
    row
}

#[test]
fn a_transfer_keeps_its_provider_while_the_catalogue_arrives() {
    let mut state = state();
    state.add_local_provider(ON, "/backups");
    state.connect_provider("local:/backups");
    let projects = vec![project("One", ProjectStatus::NeverBackedUp), restorable()];
    let mut manager = ProjectManager::new(ON, state, projects, Some(Vec::new()));
    assert_eq!(manager.providers[0].entry.id, "local:/backups");
    let job = launch(&mut manager, 0);
    let RestoreOffer::ChooseFolder(restore) =
        manager.restore_version(1, commit("two"), &Some("local:/backups".to_owned()))
    else {
        panic!("a folder should be chosen");
    };
    manager.catalog_fetched(Ok(vec![cloud()]));
    assert_eq!(manager.providers[0].entry.id, cloud().entry.id);
    for listing in [&job.listing, &restore.listing] {
        assert_eq!(listing.entry.id, "local:/backups");
        assert_eq!(listing.entry.name, manager.providers[1].entry.name);
        assert_eq!(listing.availability, manager.providers[1].availability);
    }
    assert_eq!(job.request.provider_id, job.listing.entry.id);
}

#[test]
fn a_provider_project_is_restored_to_a_chosen_folder() {
    let mut manager = manager(vec![restorable()]);
    let ActionStep::Restore(RestoreOffer::ChooseFolder(job)) =
        manager.handle_project_action(0, context())
    else {
        panic!("a folder should be chosen");
    };
    assert_eq!(job.listing.entry.id, "local:/backups");
    assert_eq!(job.commit, commit("two"));
    assert!(matches!(restore_source(&job), Ok(RestoreSource::Remote(handle)) if handle == "two"));
    let recovered = |unavailable: usize, verified_files: usize| RestoreResult {
        project_file: "/restores/Two.als".to_owned(),
        files_written: 2,
        unavailable,
        verified_files,
        previous_copy: None,
    };
    let partial = enrol_recovered(recovered(1, 2), "two", &job).expect_err("a partial copy");
    assert!(partial.starts_with("Restored a partial copy to /restores/Two.als"), "{partial}");
    assert!(enrol_recovered(recovered(0, 0), "two", &job).is_err());
    let enrolment = enrol_recovered(recovered(0, 2), "two", &job).expect("a complete copy");
    assert_eq!(enrolment.result.project_file, "/restores/Two.als");
    let sidecar = enrolment.sidecar;
    assert_eq!(sidecar.primary.as_deref(), Some("local:/backups"));
    assert_eq!(sidecar.provider_handles.len(), 1);
    assert_eq!(
        sidecar.provider_handles.get("local:/backups").map(String::as_str),
        Some("two")
    );
    assert_eq!(sidecar.local_head, Some(job.commit.clone()));
    assert_eq!(sidecar.verified_head, Some(job.commit.clone()));
    assert_eq!(sidecar.metadata, job.metadata);
    assert_eq!(sidecar.location, job.location);
    assert_eq!(enrolment_failed("io"), "enroll restored project: io");
    let target = restore_destination(ON, &job, "/restores");
    assert!(target.starts_with("/restores/Ableton/"), "{target}");
    assert!(matches!(
        check_destination(&target, false),
        DestinationStep::Free(RestoreCollisionChoice::AbortIfExists)
    ));
    let DestinationStep::Ask(question) = check_destination(&target, true) else {
        panic!("something lies there");
    };
    assert_eq!(question.answers.len(), 4);
    manager.restore_started(&job);
    assert_eq!(manager.projects[0].status, ProjectStatus::Syncing);
    let effects = manager.restore_finished(
        &job,
        "/restores",
        Ok(RestoreResult {
            project_file: format!("{target}/Two.als"),
            files_written: 0,
            unavailable: 0,
            verified_files: 1,
            previous_copy: None,
        }),
        None,
        Some(project("Two", ProjectStatus::Downloaded)),
    );
    let notice = effects.notice.expect("a notice");
    assert_eq!(notice.level, NoticeLevel::Success);
}

#[test]
fn a_collision_is_answered_by_the_person() {
    assert_eq!(
        collision_answer("One", Some(0)).expect("a choice"),
        RestoreCollisionChoice::Duplicate
    );
    assert!(collision_answer("One", None).is_err());
    assert!(open_failed("One", "no app").message.contains("no app"));
}

#[test]
fn a_failed_restore_leaves_the_row() {
    let mut manager = manager(vec![restorable()]);
    let ActionStep::Restore(RestoreOffer::ChooseFolder(job)) =
        manager.handle_project_action(0, context())
    else {
        panic!("a folder should be chosen");
    };
    manager.restore_started(&job);
    let effects = manager.restore_finished(
        &job,
        "/restores",
        Err("offline".to_owned()),
        None,
        None,
    );
    assert_eq!(effects.notice.expect("a notice").level, NoticeLevel::Error);
    assert_eq!(manager.projects[0].status, ProjectStatus::NotDownloaded);
}

// ---------------------------------------------------------------------------
// Settings and signing in
// ---------------------------------------------------------------------------

#[test]
fn settings_are_remembered() {
    let mut manager = manager(Vec::new());
    manager.apply_appearance(Appearance::Day);
    assert_eq!(manager.state.appearance, "day");
    manager.set_verify_uploads(false);
    assert!(!manager.state.verify_uploads);
    manager.set_version_retention("last-fifty");
    assert_eq!(manager.version_retention, VersionRetention::LastFifty);
    assert_eq!(manager.state.version_retention, "last-fifty");
    assert!(!manager.commit_display_name("   "));
    let effects = manager.save_display_name("  Jake Blues ");
    assert!(effects.save);
    assert_eq!(manager.display_name, "Jake Blues");
    assert_eq!(
        effects.notice.expect("a notice").message,
        "New versions will be saved as Jake Blues."
    );
}

#[test]
fn the_introduction_ends_in_the_library() {
    let mut manager = ProjectManager::new(ON, AppState::default(), Vec::new(), Some(vec![cloud()]));
    assert_eq!(manager.route, Route::Onboarding);
    let refused = manager.advance_onboarding("  ");
    assert_eq!(refused.notice.expect("a notice").level, NoticeLevel::Warning);
    assert!(!manager.render_onboarding(" ").can_continue);
    manager.advance_onboarding("Jake");
    assert_eq!(manager.onboarding_step, OnboardingStep::Provider);
    manager.advance_onboarding("Jake");
    assert_eq!(manager.onboarding_step, OnboardingStep::Music);
    manager.previous_onboarding_step();
    assert_eq!(manager.onboarding_step, OnboardingStep::Provider);
    manager.advance_onboarding("Jake");
    let last = manager.advance_onboarding("Jake");
    assert!(last.save);
    assert_eq!(manager.route, Route::Library);
    assert!(manager.state.onboarding_complete);
}

#[test]
fn a_provider_without_sign_in_is_added_directly() {
    let mut manager = ProjectManager::new(
        ON,
        state(),
        Vec::new(),
        Some(vec![cloud(), local_provider(ON, "/mnt/nas")]),
    );
    let (effects, _) = manager.select_provider(1, OverlayHost::Settings);
    assert!(effects.save);
    assert!(manager.providers[1].is_connected());
    let (effects, signs_in) = manager.select_provider(0, OverlayHost::Settings);
    assert!(signs_in);
    assert!(!effects.save);
    assert_eq!(
        manager.overlay.overlay,
        Overlay::Authenticate { provider_index: 0 }
    );
    let panel = manager.render_authentication(0).expect("listed");
    assert_eq!(panel.title, "Connect Auru Cloud");
    assert!(matches!(panel.content, AuthContent::Begin { .. }));
    assert!(manager.render_authentication(7).is_none());
    let picker = manager.render_provider_picker("https://pm.auru.studio/providers.json");
    assert_eq!(
        picker.source,
        "PROVIDER LIST FROM FILE · https://pm.auru.studio/providers.json"
    );
    assert_eq!(picker.rows[0].action, "SIGN-IN REQUIRED →");
    assert_eq!(picker.rows[1].action, "CONNECTED");
    assert!(picker.empty.is_none());
    let row = render_settings_provider(&manager.providers[0]);
    assert_eq!(row.hint, "Sign in with your browser");
    assert!(!row.connected);
}

#[test]
fn signing_in_with_a_code_connects_the_provider() {
    let mut manager = ProjectManager::new(ON, state(), Vec::new(), Some(vec![cloud()]));
    manager.select_provider(0, OverlayHost::Main);
    assert!(matches!(
        manager.begin_provider_auth(0, ""),
        AuthStep::Probe { .. }
    ));
    assert_eq!(manager.auth_phase, AuthPhase::Waiting);
    assert!(manager
        .sign_in_probed(AuthMethod::OAuthDeviceCode, Ok(true))
        .is_some());
    let step = manager.sign_in_reported(SignInProgress::DeviceCode {
        user_code: "ABCD".to_owned(),
        verification_uri: "https://pm.auru.studio/device".to_owned(),
        complete_uri: None,
    });
    assert!(matches!(step, SignInStep::Continue));
    assert!(matches!(
        manager.inspection_click("open-provider-sign-in"),
        Ok(ClickAction::OpenUrl(_))
    ));
    assert!(matches!(
        manager.sign_in_reported(SignInProgress::Credential),
        SignInStep::StoreCredential
    ));
    manager.issued_credential_stored(Ok(()));
    assert!(matches!(manager.auth_phase, AuthPhase::Complete { .. }));
    let effects = manager.finish_provider_auth(0);
    assert!(effects.save);
    assert!(manager.providers[0].is_connected());
}

#[test]
fn a_typed_token_is_stored() {
    let mut manager = ProjectManager::new(ON, state(), Vec::new(), Some(vec![token_provider()]));
    manager.select_provider(0, OverlayHost::Main);
    assert!(matches!(
        manager.begin_provider_auth(0, "  "),
        AuthStep::Say(_)
    ));
    let AuthStep::StoreToken { provider_id, token } = manager.begin_provider_auth(0, " tok ")
    else {
        panic!("the token should be stored");
    };
    assert_eq!((provider_id.as_str(), token.as_str()), ("token", "tok"));
    manager.typed_token_stored(Err("locked".to_owned()));
    assert!(matches!(manager.auth_phase, AuthPhase::Failed(_)));
    manager.retry_provider_auth();
    assert_eq!(manager.auth_phase, AuthPhase::Ready);
    manager.typed_token_stored(Ok(()));
    assert!(matches!(manager.auth_phase, AuthPhase::Complete { .. }));
    manager.cancel_provider_auth();
    assert!(!manager.providers[0].is_connected());
}

#[test]
fn a_refused_sign_in_says_so() {
    for progress in [
        SignInProgress::Expired,
        SignInProgress::AccessDenied,
        SignInProgress::Error("boom".to_owned()),
        SignInProgress::Disconnected,
    ] {
        let mut manager = ProjectManager::new(ON, state(), Vec::new(), Some(vec![cloud()]));
        manager.select_provider(0, OverlayHost::Main);
        manager.begin_provider_auth(0, "");
        manager.sign_in_reported(progress);
        assert!(matches!(manager.auth_phase, AuthPhase::Failed(_)));
    }
}

// ---------------------------------------------------------------------------
// Labels
// ---------------------------------------------------------------------------

#[test]
fn labels_are_edited_and_saved() {
    let mut manager = manager(vec![project("One", ProjectStatus::Downloaded)]);
    manager.add_metadata_badges(
        MetadataBadgeField::Genre,
        &vec!["Jungle".to_owned(), "jungle".to_owned()],
    );
    assert_eq!(manager.genre_values, ["Jungle"]);
    assert!(manager.commit_pending_metadata_input(MetadataBadgeField::Tag, "wip, collab"));
    assert_eq!(manager.tag_values, ["wip", "collab"]);
    manager.remove_metadata_badge(MetadataBadgeField::Tag, 0);
    assert_eq!(manager.tag_values, ["collab"]);
    let draft = manager.metadata_from_inputs(&typed());
    assert_eq!(draft.genre.as_deref(), Some("Jungle"));
    assert!(manager.edited(&manager.projects[0], &typed()));
    let step = manager.save_project_metadata(0, &typed());
    let MetadataOutcome::Save(job) = step.outcome else {
        panic!("there is something to save");
    };
    assert_eq!(job.project_name, "One");
    assert!(manager.saving(&manager.projects[0]));
    let notice = manager.metadata_saved(&job.project_id, &job.project_name, draft, Ok(()));
    assert_eq!(notice.level, NoticeLevel::Success);
    assert_eq!(manager.projects[0].metadata.tags, ["collab"]);
    assert!(manager.sync_library_filter_options());
    assert_eq!(manager.filter_options.genres, ["Jungle"]);
    assert!(!manager.sync_library_filter_options());
}

#[test]
fn selecting_a_project_reads_what_is_missing() {
    let mut second = project("Two", ProjectStatus::Downloaded);
    second
        .provider_handles
        .insert("local:/backups", "two".to_owned());
    let mut manager = manager(vec![project("One", ProjectStatus::Downloaded), second]);
    let step = manager.select_project(1, &typed(), &Some("local:/backups".to_owned()));
    assert_eq!(manager.selected_project, 1);
    assert!(step.clear_inputs);
    assert_eq!(step.detail.expect("detail").path, "/music/Two.als");
    let history = step.history.expect("history");
    assert_eq!(history.listing.entry.id, "local:/backups");
    assert!(matches!(history.source, HistorySource::Working(_)));
    manager.history_loaded(
        "project:/music/Two.als",
        vec![CommitSummary {
            id: commit("a"),
            message: "First".to_owned(),
            timestamp: 1,
        }],
        &no_files(),
        NOW,
    );
    assert_eq!(manager.projects[1].versions.len(), 1);
    manager.detail_loaded(
        "project:/music/Two.als",
        LoadedDetail {
            size: "2 KB".to_owned(),
            inventory: "ready".to_owned(),
            detail: None,
            missing_plugins: Vec::new(),
        },
    );
    assert_eq!(manager.projects[1].size, "2 KB");
}

#[test]
fn a_tempo_filter_waits_for_the_tempos() {
    let mut manager = manager(vec![project("One", ProjectStatus::Downloaded)]);
    manager.bpm_filter_mode = BpmFilterMode::Range;
    let reads = manager.apply_bpm_filter(Some(170), Some(180));
    assert_eq!(
        manager.bpm_filter,
        Some(BpmFilter::Range { min: 170, max: 180 })
    );
    assert_eq!(reads.len(), 1);
    assert!(manager.bpm_filter_loading);
    assert_eq!(manager.visible_projects(&query("")), [0]);
    manager.missing_details_loaded(vec![ReadDetail {
        project_id: "project:/music/One.als".to_owned(),
        detail: LoadedDetail {
            size: String::new(),
            inventory: String::new(),
            detail: None,
            missing_plugins: Vec::new(),
        },
    }]);
    assert!(!manager.bpm_filter_loading);
    assert!(manager.visible_projects(&query("")).is_empty());
    assert_eq!(
        manager.render_library(&query("")).empty,
        Some("Nothing matches those filters.")
    );
    manager.clear_bpm_filter();
    assert!(manager.bpm_filter.is_none());
}

// ---------------------------------------------------------------------------
// Screens and the inspected tree
// ---------------------------------------------------------------------------

#[test]
fn the_sidebar_counts_what_needs_doing() {
    let manager = manager(vec![
        project("One", ProjectStatus::NeverBackedUp),
        project("Two", ProjectStatus::Downloaded),
    ]);
    let screen = manager.render_library(&query("TWO"));
    assert_eq!(screen.owner, "JAKE · ONLINE");
    assert_eq!(screen.summary, "[ LIBRARY · 2 PROJECTS · 1 NEED YOU ]");
    assert_eq!(screen.visible, [1]);
    assert_eq!(
        manager.render_library(&query("nothing")).empty,
        Some("Nothing matches that search.")
    );
    let row = manager.render_project_row(0);
    assert_eq!(row.status, "only on this computer");
    assert!(row.selected && row.prominent);
    assert_eq!(row.colour, Colour::Amber);
    let detail = manager.render_project_detail(0, &typed());
    assert!(detail.versions.is_empty());
    let bar = manager.render_library_filters(1, 1);
    assert!(bar.active && bar.clears_all);
}

#[test]
fn a_lowercased_search_finds_a_project() {
    let mut manager = manager(vec![project("ÉTUDE", ProjectStatus::Downloaded)]);
    manager.display_name = "Jürgen".to_owned();
    let screen = manager.render_library(&query("étude"));
    assert_eq!(screen.visible, [0]);
    assert_eq!(screen.owner, "JÜRGEN · ONLINE");
}

fn ids(manager: &ProjectManager, surface: Surface) -> Vec<String> {
    manager
        .inspection_nodes(surface, &entries())
        .into_iter()
        .map(|node| node.id)
        .collect()
}

#[test]
fn the_tree_shows_the_library() {
    let manager = manager(vec![project("One", ProjectStatus::NeverBackedUp)]);
    let nodes = manager.inspection_nodes(Surface::Library, &entries());
    assert_eq!(nodes[0].id, "library");
    assert_eq!(
        nodes[0].value.as_deref(),
        Some("1 projects; 1 need attention")
    );
    assert_eq!(nodes[1].actions, ["focus", "type_text"]);
    assert!(!root_focused(true, &nodes));
    let row = nodes.iter().find(|node| node.label == "One").expect("a row");
    assert_eq!(row.value.as_deref(), Some("selected; only on this computer"));
    assert!(matches!(
        manager.inspection_click(&row.id),
        Ok(ClickAction::SelectProject(0))
    ));
    let action = nodes
        .iter()
        .find(|node| node.id.starts_with("project-primary-action-"))
        .expect("an action");
    assert!(matches!(
        manager.inspection_click(&action.id),
        Ok(ClickAction::ActOnProject(0))
    ));
}

#[test]
fn a_large_library_is_shown_page_by_page() {
    let projects = (0..150)
        .map(|index| project(&format!("Song {index:03}"), ProjectStatus::Downloaded))
        .collect();
    let manager = manager(projects);
    let rows = ids(&manager, Surface::Library)
        .into_iter()
        .filter(|id| {
            id.starts_with("project-")
                && !id.starts_with("project-primary-action-")
                && id.len() == "project-".len() + 16
        })
        .count();
    assert_eq!(rows, 100);
}

#[test]
fn a_credential_is_never_shown() {
    let mut manager = ProjectManager::new(ON, state(), Vec::new(), Some(vec![token_provider()]));
    manager.select_provider(0, OverlayHost::Main);
    let nodes = manager.inspection_nodes(Surface::Library, &entries());
    let field = nodes
        .iter()
        .find(|node| node.id == "credential-input")
        .expect("a field");
    assert_eq!(field.value.as_deref(), Some("provided"));
    assert!(nodes
        .iter()
        .all(|node| node.value.as_deref() != Some("SECRET")));
}

#[test]
fn every_enabled_button_answers() {
    let mut manager = manager(vec![
        project("One", ProjectStatus::NeverBackedUp),
        project("Two", ProjectStatus::Downloaded),
    ]);
    for surface in [Surface::Library, Surface::Settings] {
        for node in manager.inspection_nodes(surface, &entries()) {
            if node.actions == ["click"] {
                assert!(manager.inspection_click(&node.id).is_ok(), "{}", node.id);
            }
            if node.actions == ["focus", "type_text"] {
                assert!(inspection_focus(&node.id).is_ok(), "{}", node.id);
            }
        }
    }
    manager.overlay.show(OverlayHost::Settings, Overlay::ProviderPicker);
    let picker = ids(&manager, Surface::Settings);
    assert!(picker.contains(&"catalog-provider-auru-cloud".to_owned()));
    assert!(!ids(&manager, Surface::Library).contains(&"provider-picker".to_owned()));
    assert!(matches!(
        manager.inspection_click("catalog-provider-auru-cloud"),
        Ok(ClickAction::SelectProvider(0, OverlayHost::Settings))
    ));
    assert_eq!(
        manager
            .inspection_click("settings-provider-local:/backups")
            .unwrap_err(),
        "that provider is already connected"
    );
}

#[test]
fn a_click_on_nothing_is_refused() {
    let mut manager = manager(vec![project("One", ProjectStatus::Syncing)]);
    assert_eq!(
        manager.inspection_click("nowhere").unwrap_err(),
        "semantic node 'nowhere' is not clickable"
    );
    assert_eq!(
        manager.inspection_click("project-x").unwrap_err(),
        "unknown semantic project 'project-x'"
    );
    assert_eq!(
        manager
            .inspection_click("settings-provider-none")
            .unwrap_err(),
        "unknown provider 'none'"
    );
    assert_eq!(
        manager.inspection_click("begin-provider-auth").unwrap_err(),
        "provider authentication is not open"
    );
    assert_eq!(
        manager
            .inspection_click("open-provider-sign-in")
            .unwrap_err(),
        "the provider has not supplied a sign-in page"
    );
    manager.scanning = true;
    assert_eq!(
        manager.inspection_click("watch-another-folder").unwrap_err(),
        "a project-folder scan is already running"
    );
    manager.remote_refreshing = true;
    assert_eq!(
        manager
            .inspection_click("refresh-provider-projects")
            .unwrap_err(),
        "provider projects are already refreshing"
    );
    let action = auru_pm_ui::inspection::stable_id(
        "project-primary-action",
        "project:/music/One.als",
    );
    assert_eq!(
        manager.inspection_click(&action).unwrap_err(),
        "that project action is currently unavailable"
    );
    assert_eq!(
        inspection_focus("nowhere").unwrap_err(),
        "semantic node 'nowhere' cannot receive focus"
    );
    assert_eq!(inspection_focus("auru-pm").unwrap(), FocusTarget::Root);
    assert_eq!(
        inspection_focus("search-projects").unwrap(),
        FocusTarget::Search
    );
}

#[test]
fn the_introduction_is_inspected_step_by_step() {
    let mut manager = ProjectManager::new(ON, AppState::default(), Vec::new(), None);
    assert_eq!(manager.inspected_surface(false), Surface::Onboarding);
    assert_eq!(manager.inspected_surface(true), Surface::Settings);
    let nodes = manager.inspection_nodes(Surface::Onboarding, &entries());
    assert_eq!(nodes[0].value.as_deref(), Some("1/3"));
    assert_eq!(nodes[1].id, "display-name-input");
    manager.onboarding_step = OnboardingStep::Music;
    let nodes = manager.inspection_nodes(Surface::Onboarding, &entries());
    assert_eq!(nodes[0].value.as_deref(), Some("3/3"));
    assert_eq!(nodes[1].value.as_deref(), Some("0 watched"));
    assert_eq!(
        manager.providers.iter().filter(|p| p.availability == ProviderAvailability::Connected).count(),
        0
    );
}
