//! Projects and the library.
use auru_pm_ui::path::Platform;
use auru_pm_ui::detail::{
    AbletonFacts, BpmFilter, DawprojectFacts, FlStudioFacts, MissingPlugin, PluginAvailability,
    ProjectDetail, ProjectInfo, ResolvedPlugin, Tempo, TempoBounds,
};
use auru_pm_ui::format::{
    CommitId, CommitSummary, ImportKind, ProjectFormat, ProjectLocation, ProjectMetadata, Sidecar,
};
use auru_pm_ui::library::{
    library_filter_options, library_roots, load_library, replace_provider_projects, scan_order,
    shorten_home, sort_projects, Discovered, FolderBytes, FoundProject, LibraryFilterOptions,
    Measured, MeasuredEntry, ReadProject, ScannedFolder, SortOrder, WatchedFolder,
};
use auru_pm_ui::moment::{describe_epoch, describe_modified, Moment};
use auru_pm_ui::project::{
    import_project, import_target, Bundle, DiskProject, ImportRead, LocalFiles, Project,
    RemoteProjectSeed, SnapshotRead,
};
use auru_pm_ui::sizes::{format_bytes, project_weight};
use auru_pm_ui::state::AppState;
use auru_pm_ui::status::{ProjectAction, ProjectStatus, SyncDirection};
use auru_pm_ui::text_map::TextMap;

const NOW: Moment = Moment {
    nanos: 1_760_000_000_000_000_000,
};

const ON: Platform = Platform::Other;

fn commit(text: &str) -> CommitId {
    CommitId {
        text: text.to_owned(),
    }
}

fn tempo(bpm: f64) -> Tempo {
    Tempo {
        text: if bpm.fract() == 0.0 {
            format!("{bpm:.0} BPM")
        } else {
            format!("{bpm:.2} BPM")
        },
        bounds: Some(TempoBounds {
            floor: bpm.floor() as i64,
            ceiling: bpm.ceil() as i64,
            nearest: bpm.round() as i64,
        }),
    }
}

fn no_files() -> LocalFiles {
    LocalFiles {
        modified_at: None,
        sidecar_modified_at: None,
        sidecar: None,
    }
}

fn sidecar() -> Sidecar {
    Sidecar {
        primary: None,
        provider_handles: TextMap::new(),
        local_head: None,
        verified_head: None,
        metadata: ProjectMetadata::default(),
        location: None,
    }
}

fn live_set_info() -> ProjectInfo {
    ProjectInfo {
        ableton: Some(AbletonFacts {
            tempo: Some(tempo(175.0)),
            time_signature: Some((4, 4)),
            key: Some("C Phrygian".to_owned()),
            in_key: true,
            tracks_total: 6,
            tracks_midi: 2,
            tracks_audio: 2,
            tracks_return: 2,
            clip_count: 4,
            bars: Some(88),
            live_version: Some("Ableton Live 12.0.25".to_owned()),
            assets_total: 1,
            assets_vendorable: 1,
        }),
        flstudio: None,
        dawproject: None,
    }
}

fn snapshot(info: Option<ProjectInfo>) -> SnapshotRead {
    SnapshotRead {
        bytes: 2_048,
        info,
        plugins: None,
    }
}

fn project_folder(root: &str, files: LocalFiles) -> DiskProject {
    DiskProject {
        project_file: format!("{root}/Night Drive.als"),
        directory: root.to_owned(),
        format: ProjectFormat::AbletonLiveSet,
        files,
    }
}

fn read(root: &str) -> Project {
    Project::read_from_disk(ON, Some(project_folder(root, no_files())), NOW).expect("a project")
}

fn discovered(folder: &str, name: &str) -> Discovered {
    Discovered {
        name: "Night Drive".to_owned(),
        project_file: format!("{folder}/{name}/Night Drive.als"),
        directory: format!("{folder}/{name}"),
        owns_directory: true,
    }
}

fn song(folder: &str, name: &str) -> Discovered {
    Discovered {
        name: name.to_owned(),
        project_file: format!("{folder}/{name}.flp"),
        directory: folder.to_owned(),
        owns_directory: false,
    }
}

#[test]
fn downloaded_project_should_not_need_attention() {
    assert!(!ProjectStatus::Downloaded.needs_attention());
}

fn seed(name: &str, head: &str) -> RemoteProjectSeed {
    RemoteProjectSeed {
        provider_id: "studio-nas".to_owned(),
        provider_name: "Studio NAS".to_owned(),
        handle: "night-drive".to_owned(),
        head: commit(head),
        name: name.to_owned(),
        file_name: format!("{name}.als"),
        format: ProjectFormat::AbletonLiveSet,
        metadata: ProjectMetadata::default(),
        location: None,
        updated_at: 1_750_000_000,
        info: None,
    }
}

#[test]
fn a_provider_project_should_enter_the_library_as_restorable() {
    let project = Project::from_remote(
        RemoteProjectSeed {
            location: Some(ProjectLocation {
                relative_path: "Ableton/Projects/Night Drive Project".to_owned(),
            }),
            ..seed("Night Drive", "remote head")
        },
        NOW,
    );

    assert_eq!(project.status, ProjectStatus::NotDownloaded);
    assert_eq!(project.status.action(), ProjectAction::Restore);
    assert!(project.live_set.is_none());
    assert_eq!(
        project
            .provider_handles
            .get("studio-nas")
            .map(String::as_str),
        Some("night-drive")
    );
    assert_eq!(
        project.remote.as_ref().map(|remote| remote.head.clone()),
        Some(commit("remote head"))
    );
}

#[test]
fn a_provider_refresh_should_replace_stale_rows_without_duplicates() {
    let mut projects = vec![Project::from_remote(seed("Old Name", "old head"), NOW)];

    replace_provider_projects(
        &mut projects,
        "studio-nas",
        vec![seed("Night Drive", "new head")],
        NOW,
    );

    assert_eq!(projects.len(), 1);
    assert_eq!(projects[0].name, "Night Drive");
    assert_ne!(
        projects[0]
            .remote
            .as_ref()
            .map(|remote| remote.head.clone()),
        Some(commit("old head"))
    );
}

#[test]
fn a_provider_refresh_should_apply_metadata_to_a_linked_local_project() {
    let metadata = ProjectMetadata {
        genre: Some("Ambient".to_owned()),
        tags: vec!["mastered".to_owned()],
    };
    let listed = || RemoteProjectSeed {
        metadata: metadata.clone(),
        ..seed("Night Drive", "head")
    };
    let mut local = Project::from_remote(listed(), NOW);
    local.live_set = Some("/music/Night Drive.als".to_owned());
    local.metadata = ProjectMetadata::default();
    let mut projects = vec![local];

    replace_provider_projects(&mut projects, "studio-nas", vec![listed()], NOW);

    assert_eq!(projects[0].metadata, metadata);
}

fn detail() -> ProjectDetail {
    ProjectDetail {
        tempo: Some(tempo(175.0)),
        time_signature: Some((4, 4)),
        key: Some("C Phrygian".to_owned()),
        in_key: true,
        tracks_total: 16,
        tracks_midi: 9,
        tracks_audio: 4,
        tracks_return: 2,
        clip_count: 53,
        bars: Some(88),
        live_version: Some("Ableton Live 12.0.25".to_owned()),
        files_total: 11,
        files_gathered: 5,
    }
}

#[test]
fn detail_should_read_the_way_a_musician_would_say_it() {
    let detail = detail();
    assert_eq!(detail.tempo_line(), "175 BPM · 4/4");
    assert_eq!(detail.key_line(), "C Phrygian · in key");
    assert_eq!(
        detail.tracks_line(),
        "16 tracks · 9 MIDI · 4 audio · 2 returns"
    );
    assert_eq!(detail.length_line(), "88 bars · 53 clips");
    assert_eq!(detail.files_line(), "11 files · 5 gathered in");
}

#[test]
fn detail_should_omit_what_the_project_never_declared() {
    // Showing "0 BPM" or "C Major" for a project that said neither would be
    // inventing information about someone's music.
    let empty = ProjectDetail::default();
    assert_eq!(empty.tempo_line(), "—");
    assert_eq!(empty.key_line(), "—");
    assert_eq!(empty.tracks_line(), "—");
    assert_eq!(empty.length_line(), "—");
    assert_eq!(empty.files_line(), "—");
    assert_eq!(empty.made_with(), "Ableton Live");
}

#[test]
fn a_single_track_should_not_be_pluralized() {
    let detail = ProjectDetail {
        tracks_total: 1,
        tracks_midi: 1,
        clip_count: 1,
        bars: Some(1),
        ..ProjectDetail::default()
    };
    assert_eq!(detail.tracks_line(), "1 track · 1 MIDI");
    assert_eq!(detail.length_line(), "1 bar · 1 clip");
}

#[test]
fn a_fractional_tempo_should_keep_its_precision() {
    let detail = ProjectDetail {
        tempo: Some(tempo(174.5)),
        ..ProjectDetail::default()
    };
    assert_eq!(detail.tempo_line(), "174.50 BPM");
}

#[test]
fn a_plugin_used_once_should_be_described_in_the_singular() {
    let plugin = MissingPlugin {
        name: "Ozone 8 Elements".to_owned(),
        vendor: "iZotope".to_owned(),
        format: "VST2".to_owned(),
        instances: 1,
        link: None,
    };
    assert_eq!(plugin.detail_line(), "iZotope · VST2 · used once");
}

#[test]
fn only_plugins_absent_from_this_computer_should_reach_the_list() {
    // Installed and Live-bundled plugins are not the user's problem, and
    // listing them would bury the ones that are.
    let make = |availability| ResolvedPlugin {
        name: "Serum".to_owned(),
        vendor: "Xfer Records".to_owned(),
        format: "VST2".to_owned(),
        instances: 1,
        availability,
        link: None,
    };

    assert!(MissingPlugin::from_resolved(&make(PluginAvailability::NotOnThisComputer)).is_some());
    assert!(MissingPlugin::from_resolved(&make(PluginAvailability::Installed)).is_none());
    assert!(MissingPlugin::from_resolved(&make(PluginAvailability::BundledWithDaw)).is_none());
    assert!(MissingPlugin::from_resolved(&make(PluginAvailability::Unknown)).is_none());
}

#[test]
fn detail_should_be_built_from_a_real_project_summary() {
    let info = ProjectInfo {
        ableton: Some(AbletonFacts {
            tracks_total: 2,
            tracks_midi: 1,
            tracks_audio: 1,
            tracks_return: 0,
            ..live_set_info().ableton.expect("facts")
        }),
        flstudio: None,
        dawproject: None,
    };

    let detail = ProjectDetail::from_project_info(&info).expect("detail");
    assert_eq!(detail.tempo_line(), "175 BPM · 4/4");
    assert_eq!(detail.key_line(), "C Phrygian · in key");
    assert_eq!(detail.tracks_line(), "2 tracks · 1 MIDI · 1 audio");
    assert_eq!(detail.made_with(), "Ableton Live 12.0.25");
}

fn import_folder(root: &str, picked: &str) -> Project {
    let bundle = Bundle {
        live_set: format!("{root}/Night Drive.als"),
        root: root.to_owned(),
    };
    let target = import_target(ImportKind::AbletonLiveSet, picked, Some(bundle));
    import_project(
        ON,
        ImportKind::AbletonLiveSet,
        picked,
        target,
        ImportRead::Read {
            format: ProjectFormat::AbletonLiveSet,
            format_name: "Ableton Live Set".to_owned(),
            wanted_name: "Ableton Live Set".to_owned(),
            snapshot: snapshot(Some(live_set_info())),
            files: no_files(),
        },
    )
    .expect("import")
}

#[test]
fn importing_an_ableton_folder_should_read_the_project_inside_it() {
    let root = "/music/Night Drive Project";
    let project = import_folder(root, root);

    assert_eq!(project.name, "Night Drive");
    assert_eq!(project.format, ProjectFormat::AbletonLiveSet);
    let detail = project.detail.as_ref().expect("detail read from the set");
    assert_eq!(detail.tempo_line(), "175 BPM · 4/4");
    assert_eq!(detail.key_line(), "C Phrygian · in key");
}

#[test]
fn importing_the_als_inside_a_folder_should_reach_the_same_project() {
    // Someone may well pick the file rather than the folder; both are the same
    // project and should not produce two library entries.
    let root = "/music/Night Drive Project";
    let from_folder = import_folder(root, root);
    let from_file = import_folder(root, "/music/Night Drive Project/Night Drive.als");

    assert_eq!(
        from_folder.id, from_file.id,
        "both routes must identify one project, so re-adding refreshes it"
    );
}

#[test]
fn an_imported_project_should_start_as_not_backed_up() {
    // It exists only on this computer until it is pushed, and the status should
    // say so rather than implying it is safe.
    let project = import_folder("/music/Night Drive Project", "/music/Night Drive Project");
    assert_eq!(
        project.status,
        ProjectStatus::OutOfSync(SyncDirection::LocalAhead)
    );
    assert!(project.status.needs_attention());
    assert_eq!(project.safe_version, "not backed up yet");
    assert!(project.versions.is_empty(), "no history until it is pushed");
}

#[test]
fn importing_the_wrong_kind_should_explain_itself() {
    // Picking a .als from the DAWproject menu is an easy mistake; the message
    // has to name what was actually found.
    let path = "/music/Night Drive Project/Night Drive.als";
    let target = import_target(ImportKind::Dawproject, path, None);
    let error = import_project(
        ON,
        ImportKind::Dawproject,
        path,
        target,
        ImportRead::Read {
            format: ProjectFormat::AbletonLiveSet,
            format_name: "Ableton Live Set".to_owned(),
            wanted_name: "DAWproject".to_owned(),
            snapshot: snapshot(None),
            files: no_files(),
        },
    )
    .expect_err("a Live Set is not a DAWproject");

    assert!(error.contains("Ableton Live Set"), "{error}");
    assert!(error.contains("DAWproject"), "{error}");
}

#[test]
fn importing_something_unreadable_should_fail_kindly() {
    let path = "/tmp/holiday-photo.jpg";
    let target = import_target(ImportKind::AbletonLiveSet, path, None);
    let error = import_project(
        ON,
        ImportKind::AbletonLiveSet,
        path,
        target,
        ImportRead::Unreadable("It is not a project.".to_owned()),
    )
    .expect_err("a JPEG is not a project");
    assert!(
        error.starts_with("Couldn't read holiday-photo.jpg"),
        "the message should name the file the person picked: {error}"
    );
}

#[test]
fn importing_a_folder_with_no_project_should_say_so() {
    let path = "/tmp/Some Folder";
    let target = import_target(ImportKind::AbletonLiveSet, path, None);
    let error = import_project(
        ON,
        ImportKind::AbletonLiveSet,
        path,
        target,
        ImportRead::Directory,
    )
    .expect_err("nothing to import");
    assert!(error.contains("doesn't contain a project"), "{error}");
}

fn watched(path: &str, found: &[Discovered]) -> WatchedFolder {
    WatchedFolder {
        path: path.to_owned(),
        projects: found
            .iter()
            .map(|found| FoundProject::from_discovered(ON, path, found, 1_024))
            .collect(),
    }
}

#[test]
fn watching_a_folder_should_find_the_projects_inside_it() {
    let library = "/music/Ableton Projects";
    let watched = watched(
        library,
        &[
            discovered(library, "110 riddim Project"),
            discovered(library, "dunno yet-1 Project"),
        ],
    );
    assert_eq!(watched.project_count(), 2);
    assert!(watched.total_bytes() > 0, "sizes should be measured");

    let names: Vec<&str> = watched
        .projects
        .iter()
        .map(|project| project.name.as_str())
        .collect();
    assert_eq!(
        names,
        vec!["Night Drive", "Night Drive"],
        "each set's own name"
    );
}

#[test]
fn watching_a_library_root_should_keep_each_nested_project_path() {
    let found = [
        discovered("/music/Ableton/Projects", "Night Drive Project"),
        Discovered {
            name: "Broken Glass".to_owned(),
            project_file: "/music/Bitwig Projects/Broken Glass/Broken Glass.bwproject".to_owned(),
            directory: "/music/Bitwig Projects/Broken Glass".to_owned(),
            owns_directory: false,
        },
    ];

    let watched = watched("/music", &found);
    let paths = watched
        .projects
        .iter()
        .map(FoundProject::library_path)
        .collect::<Vec<_>>();

    assert_eq!(
        paths,
        [
            "Ableton/Projects/Night Drive Project",
            "Bitwig Projects/Broken Glass/Broken Glass.bwproject"
        ]
    );
}

/// Read every project that the folders and the state reach.
fn load(state: &mut AppState, scanned: Vec<ScannedFolder>, now: i64) -> Vec<Project> {
    let order = scan_order(ON, &state.watched_folders);
    assert_eq!(order.len(), scanned.len());
    let read: Vec<ReadProject> = library_roots(ON, &scanned, &state.projects)
        .into_iter()
        .map(|root| {
            let project = if root.root.ends_with(".flp") {
                Project::read_from_disk(
                    ON,
                    Some(DiskProject {
                        project_file: root.root.clone(),
                        directory: "/music".to_owned(),
                        format: ProjectFormat::FlStudio,
                        files: no_files(),
                    }),
                    NOW,
                )
                .expect("a project")
            } else {
                read(&root.root)
            };
            ReadProject {
                project,
                location: root.location,
            }
        })
        .collect();
    load_library(state, read, now).0
}

#[test]
fn loading_a_watched_library_should_attach_the_restore_location() {
    let mut state = AppState::default();
    state.watch(ON, "/music");

    let projects = load(
        &mut state,
        vec![ScannedFolder {
            path: "/music".to_owned(),
            found: vec![discovered("/music/Ableton/Projects", "Night Drive Project")],
        }],
        1,
    );

    assert_eq!(
        projects[0]
            .location
            .as_ref()
            .map(|location| location.relative_path.as_str()),
        Some("Ableton/Projects/Night Drive Project")
    );
}

#[test]
fn watching_a_folder_with_no_projects_should_find_nothing() {
    let watched = watched("/music", &[]);
    assert_eq!(watched.project_count(), 0);
    assert_eq!(watched.total_bytes(), 0);
}

#[test]
fn sizes_should_be_written_the_way_a_musician_reads_them() {
    assert_eq!(format_bytes(0), "0 B");
    assert_eq!(format_bytes(2_048), "2 KB");
    assert_eq!(format_bytes(5_242_880), "5 MB");
    assert_eq!(format_bytes(1_288_490_189), "1.2 GB");
}

#[test]
fn a_project_never_backed_up_should_say_so_and_ask_for_attention() {
    // The starting state for everything Auru finds, and the one that matters:
    // the work exists in exactly one place.
    let project = read("/music/Song Project");
    assert_eq!(project.status, ProjectStatus::NeverBackedUp);
    assert!(project.status.needs_attention());
    assert_eq!(project.status.action(), ProjectAction::Push);
    assert_eq!(project.list_status(), "only on this computer");
    assert!(
        project.status_explanation().contains("lost or stolen"),
        "it should say plainly what is at stake"
    );
}

fn backed_up(handles: &[(&str, &str)], primary: &str) -> LocalFiles {
    let mut provider_handles = TextMap::new();
    for (provider, handle) in handles {
        provider_handles.insert(provider, (*handle).to_owned());
    }
    LocalFiles {
        modified_at: Some(Moment::at_seconds(100)),
        sidecar_modified_at: Some(Moment::at_seconds(200)),
        sidecar: Some(Sidecar {
            primary: Some(primary.to_owned()),
            provider_handles,
            local_head: Some(commit("a commit")),
            ..sidecar()
        }),
    }
}

#[test]
fn a_project_with_a_recorded_backup_should_not_read_as_never_backed_up() {
    let files = backed_up(&[("studio-nas", "night-drive")], "studio-nas");
    let project =
        Project::read_from_disk(ON, Some(project_folder("/music/Song Project", files)), NOW)
            .expect("a project");
    assert_ne!(project.status, ProjectStatus::NeverBackedUp);
    assert_eq!(
        project
            .provider_handles
            .get("studio-nas")
            .map(String::as_str),
        Some("night-drive")
    );
}

#[test]
fn a_local_project_should_match_every_provider_handle_in_its_sidecar() {
    let files = backed_up(
        &[
            ("auru-cloud", "cloud-night-drive"),
            ("studio-nas", "nas-night-drive"),
        ],
        "auru-cloud",
    );
    let project = Project::read_from_disk(
        ON,
        Some(project_folder("/music/Night Drive Project", files)),
        NOW,
    )
    .expect("a project");

    assert_eq!(
        project
            .provider_handles
            .get("auru-cloud")
            .map(String::as_str),
        Some("cloud-night-drive")
    );
    assert_eq!(
        project
            .provider_handles
            .get("studio-nas")
            .map(String::as_str),
        Some("nas-night-drive")
    );
}

#[test]
fn reading_a_project_should_not_open_its_live_set() {
    // The library lists hundreds of projects; detail waits until one is
    // actually selected.
    let project = read("/music/Song Project");
    assert!(project.detail.is_none(), "detail is deferred");
    assert!(project.missing_plugins.is_empty());
    assert!(project.live_set.is_some(), "but we know where to find it");
}

#[test]
fn loading_detail_should_fill_in_what_the_project_says() {
    let mut project = read("/music/Song Project");
    project.apply_detail(Project::detail_for(Some(snapshot(Some(live_set_info())))));

    let detail = project.detail.as_ref().expect("detail");
    assert_eq!(detail.tempo_line(), "175 BPM · 4/4");
    assert_eq!(detail.key_line(), "C Phrygian · in key");
}

#[test]
fn a_folder_that_is_not_a_project_should_be_skipped() {
    assert!(Project::read_from_disk(ON, None, NOW).is_none());
}

#[test]
fn the_library_should_come_from_watched_folders_and_added_projects() {
    let library = "/music/Ableton Projects";
    let mut state = AppState::default();
    state.watch(ON, library);
    state.add_project(ON, "/elsewhere/One Off Project");

    let projects = load(
        &mut state,
        vec![ScannedFolder {
            path: library.to_owned(),
            found: vec![
                discovered(library, "Bass Thing Project"),
                discovered(library, "Another Project"),
            ],
        }],
        1,
    );
    assert_eq!(projects.len(), 3);
}

#[test]
fn a_project_reached_two_ways_should_be_listed_once() {
    let library = "/music/Projects";
    let mut state = AppState::default();
    state.watch(ON, library);
    // Adding it explicitly as well must not duplicate the row.
    state.projects.push(format!("{library}/Song Project"));

    let projects = load(
        &mut state,
        vec![ScannedFolder {
            path: library.to_owned(),
            found: vec![discovered(library, "Song Project")],
        }],
        1,
    );
    assert_eq!(projects.len(), 1);
}

#[test]
fn an_empty_library_should_simply_be_empty() {
    let projects = load(&mut AppState::default(), Vec::new(), 1);
    assert!(projects.is_empty());
}

#[test]
fn projects_needing_attention_should_sort_first() {
    let mut state = AppState::default();
    let safe = Project::read_from_disk(
        ON,
        Some(project_folder(
            "/music/Alpha Project",
            backed_up(&[], "studio-nas"),
        )),
        NOW,
    )
    .expect("a project");
    let entries = vec![
        ReadProject {
            project: safe,
            location: None,
        },
        ReadProject {
            project: read("/music/Zebra Project"),
            location: None,
        },
    ];
    let projects = load_library(&mut state, entries, 1).0;

    assert!(
        projects[0].status.needs_attention(),
        "what needs doing comes first, ahead of alphabetical order"
    );
}

#[test]
fn a_transfer_should_show_only_confirmed_completion() {
    let mut project = read("/music/Song Project");

    assert!(project.begin_transfer());
    assert_eq!(project.backup_progress(), 0);

    project.finish_transfer(Vec::new(), &no_files(), NOW);
    assert_eq!(project.status, ProjectStatus::Downloaded);
    assert_eq!(project.backup_progress(), 100);
    assert!(!project.backup_bar_is_prominent(), "backed up is quiet");
}

#[test]
fn a_project_never_backed_up_should_stand_out() {
    assert!(read("/music/Song Project").backup_bar_is_prominent());
}

#[test]
fn search_should_match_the_name_file_genre_and_tags() {
    let mut project = read("/music/Song Project");
    project.metadata = ProjectMetadata {
        genre: Some("Drum & Bass".to_owned()),
        tags: vec!["work in progress".to_owned(), "collab".to_owned()],
    };

    assert!(project.matches_search(""), "an empty box shows everything");
    assert!(project.matches_search("   "), "and so does whitespace");
    assert!(
        project.matches_search("night"),
        "case-insensitive on the name"
    );
    assert!(project.matches_search("NIGHT DRIVE"));
    assert!(project.matches_search(".als"), "and matches the file name");
    assert!(project.matches_search("drum & bass"));
    assert!(project.matches_search("COLLAB"));
    assert!(!project.matches_search("something else"));
}

#[test]
fn library_filters_should_or_values_inside_each_facet() {
    let mut project = sortable("Night Drive", ProjectStatus::Downloaded);
    project.metadata = ProjectMetadata {
        genre: Some("Drum & Bass, Jungle".to_owned()),
        tags: vec!["collab".to_owned()],
    };
    project.detail = Some(ProjectDetail {
        tempo: Some(tempo(174.5)),
        ..ProjectDetail::default()
    });

    let matches = project.matches_library_filters(
        "night",
        &vec!["Ambient".to_owned(), "jungle".to_owned()],
        &vec!["mastered".to_owned(), "COLLAB".to_owned()],
        Some(BpmFilter::Range { min: 170, max: 180 }),
    );

    assert!(matches);
}

#[test]
fn exact_bpm_should_match_fractional_tempos_that_round_to_it() {
    assert!(BpmFilter::Exact(175).matches(tempo(174.5).bounds));
}

#[test]
fn bpm_filter_should_not_guess_when_a_project_has_no_tempo() {
    assert!(!BpmFilter::Range { min: 80, max: 160 }.matches(None));
}

#[test]
fn filter_options_should_be_sorted_and_deduplicated_case_insensitively() {
    let mut first = sortable("One", ProjectStatus::Downloaded);
    first.metadata = ProjectMetadata {
        genre: Some("Drum & Bass, Jungle".to_owned()),
        tags: vec!["Collab".to_owned(), "WIP".to_owned()],
    };
    let mut second = sortable("Two", ProjectStatus::Downloaded);
    second.metadata = ProjectMetadata {
        genre: Some("drum & bass".to_owned()),
        tags: vec!["collab".to_owned(), "Club".to_owned()],
    };

    assert_eq!(
        library_filter_options(&vec![first, second]),
        LibraryFilterOptions {
            genres: vec!["Drum & Bass".to_owned(), "Jungle".to_owned()],
            tags: vec!["Club".to_owned(), "Collab".to_owned(), "WIP".to_owned()],
        }
    );
}

/// A project carrying only the fields sorting looks at.
fn sortable(name: &str, status: ProjectStatus) -> Project {
    Project {
        id: format!("test:{name}"),
        name: name.to_owned(),
        file_name: format!("{name}.als"),
        local_path: format!("/music/{name}"),
        size: String::new(),
        format: ProjectFormat::AbletonLiveSet,
        status,
        last_activity: String::new(),
        safe_version: String::new(),
        local_inventory: String::new(),
        versions: Vec::new(),
        sync_progress: 0,
        modified_at: None,
        backed_up_at: None,
        added_at: None,
        live_set: None,
        remote: None,
        provider_handles: TextMap::new(),
        metadata: ProjectMetadata::default(),
        location: None,
        detail: None,
        missing_plugins: Vec::new(),
    }
}

fn names(projects: &[Project]) -> Vec<&str> {
    projects
        .iter()
        .map(|project| project.name.as_str())
        .collect()
}

#[test]
fn sorting_by_name_should_ignore_case() {
    let mut projects = vec![
        sortable("zebra", ProjectStatus::Downloaded),
        sortable("Apple", ProjectStatus::Downloaded),
        sortable("banana", ProjectStatus::Downloaded),
    ];
    sort_projects(&mut projects, SortOrder::NameAscending);
    assert_eq!(names(&projects), ["Apple", "banana", "zebra"]);
}

#[test]
fn sorting_by_attention_should_put_what_needs_doing_first() {
    let mut projects = vec![
        sortable("safe", ProjectStatus::Downloaded),
        sortable("at risk", ProjectStatus::NeverBackedUp),
    ];
    sort_projects(&mut projects, SortOrder::AttentionRequired);
    assert_eq!(names(&projects), ["at risk", "safe"]);
}

#[test]
fn sorting_by_time_should_put_the_newest_first() {
    let mut projects = vec![
        sortable("older", ProjectStatus::Downloaded),
        sortable("newer", ProjectStatus::Downloaded),
    ];
    projects[0].modified_at = Some(Moment::at_seconds(1_000));
    projects[1].modified_at = Some(Moment::at_seconds(2_000));

    sort_projects(&mut projects, SortOrder::LastModifiedLocal);
    assert_eq!(names(&projects), ["newer", "older"]);
}

#[test]
fn a_project_with_no_time_should_sort_last_not_first() {
    // An unplugged drive gives no modification time, and a project never backed
    // up has no backup time. Treating either as 1970 would file them under
    // "oldest", which reads as information we do not have.
    let mut projects = vec![
        sortable("unknown", ProjectStatus::Downloaded),
        sortable("ancient", ProjectStatus::Downloaded),
    ];
    projects[0].backed_up_at = None;
    projects[1].backed_up_at = Some(Moment::at_seconds(0));

    sort_projects(&mut projects, SortOrder::LastModifiedRemote);
    assert_eq!(names(&projects), ["ancient", "unknown"]);
}

#[test]
fn every_order_should_be_total_so_the_list_cannot_reshuffle() {
    // Ties are the common case: a first scan stamps every project with the same
    // added-at second. If that left the order undefined, rows would move under
    // the pointer between frames.
    let ordered = |order| {
        let mut projects = vec![
            sortable("b", ProjectStatus::Downloaded),
            sortable("a", ProjectStatus::Downloaded),
            sortable("c", ProjectStatus::Downloaded),
        ];
        for project in &mut projects {
            project.added_at = Some(42);
        }
        sort_projects(&mut projects, order);
        names(&projects).join(",")
    };

    for order in SortOrder::ALL {
        assert_eq!(ordered(order), "a,b,c", "{order:?} left ties unresolved");
    }
}

#[test]
fn a_saved_sort_order_should_survive_a_restart() {
    for order in SortOrder::ALL {
        assert_eq!(SortOrder::from_key(order.key()), order);
    }
}

#[test]
fn an_unreadable_sort_order_should_fall_back_rather_than_fail() {
    // Written by a newer build, or hand-edited. A preference is not worth
    // refusing to show someone their library over.
    assert_eq!(SortOrder::from_key("by-vibes"), SortOrder::default());
    assert_eq!(SortOrder::from_key(""), SortOrder::AttentionRequired);
}

#[test]
fn a_rescan_should_not_make_old_projects_look_newly_added() {
    let mut state = AppState::default();
    state.projects.push("/music/Song Project".to_owned());

    let first = load(&mut state, Vec::new(), 100);
    let added_at = first[0].added_at.expect("stamped on the first load");

    let again = load(&mut state, Vec::new(), 200);
    assert_eq!(
        again[0].added_at,
        Some(added_at),
        "a second scan re-dated a project that was already known"
    );
}

#[test]
fn every_import_kind_should_ask_for_the_right_thing() {
    // Only Ableton keeps its project in a folder; offering directories for the
    // others would invite picking something that cannot work.
    assert!(ImportKind::AbletonLiveSet.accepts_directories());
    assert!(!ImportKind::BitwigProject.accepts_directories());
    assert!(!ImportKind::Dawproject.accepts_directories());
    assert!(!ImportKind::AuruProject.accepts_directories());

    for kind in ImportKind::ALL {
        assert!(!kind.label().is_empty());
        assert!(!kind.prompt().is_empty());
    }
}

fn file_project(path: &str, format: ProjectFormat) -> Project {
    Project::read_from_disk(
        ON,
        Some(DiskProject {
            project_file: path.to_owned(),
            directory: "/music".to_owned(),
            format,
            files: no_files(),
        }),
        NOW,
    )
    .expect("a project")
}

#[test]
fn an_fl_project_should_be_read_from_disk_like_any_other() {
    let project = file_project("/music/Doom.flp", ProjectFormat::FlStudio);
    assert_eq!(project.format, ProjectFormat::FlStudio);
    assert_eq!(project.name, "Doom");
    assert_eq!(project.file_name, "Doom.flp");
    assert_eq!(project.format_label(), "FL STUDIO PROJECT");
    assert!(project.open_label().contains("FL STUDIO"));
}

#[test]
fn a_bitwig_project_should_be_read_from_disk_like_any_other() {
    let project = file_project("/music/Song.bwproject", ProjectFormat::BitwigProject);

    assert_eq!(project.format, ProjectFormat::BitwigProject);
}

#[test]
fn two_fl_projects_in_one_folder_should_be_two_projects() {
    // The trap the whole design turns on. Keying identity on the folder — which
    // is right for Ableton — would make the second silently replace the first.
    let mut state = AppState::default();
    state.watch(ON, "/music");

    let projects = load(
        &mut state,
        vec![ScannedFolder {
            path: "/music".to_owned(),
            found: vec![song("/music", "One"), song("/music", "Two")],
        }],
        1,
    );
    assert_eq!(projects.len(), 2);
    assert_ne!(projects[0].id, projects[1].id);
}

#[test]
fn a_watched_folder_should_find_both_daws_together() {
    let folder = watched(
        "/music",
        &[
            discovered("/music", "Live Song Project"),
            song("/music", "FL Song"),
        ],
    );
    let names: Vec<&str> = folder
        .projects
        .iter()
        .map(|project| project.name.as_str())
        .collect();
    assert_eq!(names.len(), 2, "found {names:?}");
    assert!(names.contains(&"FL Song"));
}

#[test]
fn fl_detail_should_come_from_the_real_file() {
    let info = ProjectInfo {
        ableton: None,
        flstudio: Some(FlStudioFacts {
            tempo: Some(tempo(174.0)),
            time_signature: Some((4, 4)),
            channels: 12,
            patterns: 0,
            version: Some("20.5.0.1142".to_owned()),
            assets_total: 0,
            assets_vendored: 0,
        }),
        dawproject: None,
    };
    let loaded = Project::detail_for(Some(snapshot(Some(info))));
    let detail = loaded.detail.expect("detail");
    assert_eq!(detail.tempo, Some(tempo(174.0)));
    assert_eq!(detail.time_signature, Some((4, 4)));
    assert_eq!(detail.tracks_total, 12, "FL counts channels, not tracks");
    assert_eq!(
        detail.key, None,
        "FL records no project-wide key; inventing one would be a lie"
    );
}

#[test]
fn dawproject_detail_should_come_from_the_real_file() {
    let info = ProjectInfo {
        ableton: None,
        flstudio: None,
        dawproject: Some(DawprojectFacts {
            tempo: Some(tempo(123.0)),
            time_signature: Some((5, 4)),
            tracks_total: 1,
            tracks_notes: 1,
            tracks_audio: 0,
            tracks_hybrid: 0,
            tracks_effect: 0,
            clip_count: 1,
            bars: None,
            application: Some("Auru 0.0.1".to_owned()),
            assets_total: 0,
            assets_embedded: 0,
        }),
    };
    let loaded = Project::detail_for(Some(snapshot(Some(info))));
    let detail = loaded.detail.expect("detail");
    assert_eq!(detail.tempo, Some(tempo(123.0)));
    assert_eq!(detail.time_signature, Some((5, 4)));
    assert_eq!(detail.tracks_total, 1, "the master is not a song track");
    assert_eq!(detail.tracks_midi, 1);
    assert_eq!(detail.clip_count, 1);
    assert_eq!(detail.made_with(), "Auru 0.0.1");
    assert_eq!(
        detail.key, None,
        "DAWproject 1.0 has no project-wide key field"
    );
}

#[test]
fn every_import_kind_should_have_its_own_action_and_prompt() {
    // Adding a DAW means adding a variant and nothing else; this catches a
    // variant that was added without being given a menu line.
    for kind in ImportKind::ALL {
        assert!(!kind.label().is_empty());
        assert!(!kind.prompt().is_empty());
    }
    assert_eq!(ImportKind::FlStudio.format(), ProjectFormat::FlStudio);
    assert!(
        !ImportKind::FlStudio.accepts_directories(),
        "an FL project is a file; offering a folder invites picking one that cannot work"
    );
}

#[test]
fn a_format_without_readable_detail_should_yield_none() {
    let info = ProjectInfo {
        ableton: None,
        flstudio: None,
        dawproject: None,
    };
    assert!(ProjectDetail::from_project_info(&info).is_none());
}

#[test]
fn a_save_after_the_last_backup_waits_to_be_copied() {
    let files = LocalFiles {
        modified_at: Some(Moment::at_seconds(300)),
        ..backed_up(&[], "studio-nas")
    };
    assert_eq!(
        files.status(),
        ProjectStatus::OutOfSync(SyncDirection::LocalAhead)
    );
    let mut project = read("/music/Song Project");
    project.refresh_local_file_state(&files, NOW);
    assert_eq!(
        project.status,
        ProjectStatus::OutOfSync(SyncDirection::LocalAhead)
    );
}

#[test]
fn a_failed_transfer_leaves_what_the_files_show() {
    let mut project = read("/music/Song Project");
    assert!(project.begin_transfer());
    assert!(!project.begin_transfer(), "one transfer at a time");
    project.fail_transfer(&no_files());
    assert_eq!(project.status, ProjectStatus::NeverBackedUp);
}

#[test]
fn history_is_shown_newest_first() {
    let mut project = read("/music/Song Project");
    let summary = |id: &str, message: &str, timestamp| CommitSummary {
        id: commit(id),
        message: message.to_owned(),
        timestamp,
    };
    project.apply_history(
        vec![
            summary("b", "Second", 1_750_000_100),
            summary("a", "First", 1_750_000_000),
        ],
        &backed_up(&[], "studio-nas"),
        NOW,
    );
    assert_eq!(project.versions.len(), 2);
    assert_eq!(project.versions[0].summary, "Second");
    assert_eq!(project.versions[1].summary, "First");
}

#[test]
fn a_whole_disk_is_not_walked_for_one_size() {
    let mut bytes = FolderBytes::new("/music/Song Project");
    assert_eq!(bytes.next_folder().as_deref(), Some("/music/Song Project"));
    assert!(bytes.count(MeasuredEntry::File(10)));
    assert!(bytes.count(MeasuredEntry::Folder("/music/Song Project/Samples".to_owned())));
    assert!(bytes.count(MeasuredEntry::Unknown));
    assert_eq!(bytes.total, 10);
    assert_eq!(
        bytes.next_folder().as_deref(),
        Some("/music/Song Project/Samples")
    );
    assert_eq!(bytes.next_folder(), None);
}

#[test]
fn a_home_folder_is_written_short() {
    let home = Some("/home/jake".to_owned());
    assert_eq!(shorten_home("/home/jake/Music", &home), "~/Music");
    assert_eq!(shorten_home("/mnt/Music", &home), "/mnt/Music");
}

#[test]
fn times_are_told_from_now() {
    let now = Moment::at_seconds(1_000_000);
    assert_eq!(describe_modified(None, now), describe_modified(None, NOW));
    assert_ne!(
        describe_modified(Some(Moment::at_seconds(999_990)), now),
        describe_modified(Some(Moment::at_seconds(900_000)), now)
    );
    assert_eq!(
        describe_epoch(999_990, now),
        describe_modified(Some(Moment::at_seconds(999_990)), now)
    );
}

#[test]
fn weights_are_told_by_size() {
    assert_ne!(project_weight(10), project_weight(10_000_000_000));
}

#[test]
fn sizes_match_a_plain_computation() {
    let plain = |bytes: u64| {
        let kilobytes = bytes as f64 / 1_024.0;
        let megabytes = kilobytes / 1_024.0;
        let gigabytes = megabytes / 1_024.0;
        if gigabytes >= 1.0 {
            format!("{gigabytes:.1} GB")
        } else if megabytes >= 1.0 {
            format!("{megabytes:.0} MB")
        } else if kilobytes >= 1.0 {
            format!("{kilobytes:.0} KB")
        } else {
            format!("{bytes} B")
        }
    };
    for bytes in [
        0, 1, 1_023, 1_024, 1_535, 1_536, 1_537, 2_560, 1_048_575, 1_048_576, 1_572_864,
        2_621_440, 1_073_741_823, 1_073_741_824, 1_127_428_915, 1_127_428_916, 5_000_000_000,
    ] {
        assert_eq!(format_bytes(bytes), plain(bytes), "{bytes}");
    }
}

#[test]
fn an_fl_project_should_not_be_measured_by_the_folder_it_sits_in() {
    // An `.flp` saved into a downloads folder does not own it. Measuring the
    // folder would report someone's whole Downloads directory as the size of one
    // project.
    let flp: u64 = 54;
    let unrelated: u64 = 5_000_000;
    let found = song("/downloads", "Song");
    let bytes = match found.measured() {
        Measured::File(path) => {
            assert_eq!(path, "/downloads/Song.flp");
            flp
        }
        Measured::Folder(_) => flp + unrelated,
    };
    let folder = WatchedFolder {
        path: "/downloads".to_owned(),
        projects: vec![FoundProject::from_discovered(ON, "/downloads", &found, bytes)],
    };
    assert_eq!(folder.projects.len(), 1);
    assert!(
        folder.projects[0].bytes < 1_000,
        "measured {} bytes, which is the folder rather than the project",
        folder.projects[0].bytes
    );
    assert_eq!(
        discovered("/music", "Night Drive Project").measured(),
        Measured::Folder("/music/Night Drive Project".to_owned())
    );
}

#[test]
fn a_size_that_could_not_be_measured_is_left_blank() {
    let found = FoundProject {
        name: "Song".to_owned(),
        root: "/gone/Song.flp".to_owned(),
        location: None,
        file: "Song.flp".to_owned(),
        bytes: 0,
    };
    assert_eq!(found.size_label(), "");
    let measured = FoundProject {
        bytes: 2_048,
        ..found
    };
    assert_eq!(measured.size_label(), "2 KB");
}

#[test]
fn windows_projects_are_found_beneath_their_library() {
    let found = Discovered {
        name: "Song".to_owned(),
        project_file: r"C:\Music\FL\Song.flp".to_owned(),
        directory: r"C:\Music\FL".to_owned(),
        owns_directory: false,
    };
    let row = FoundProject::from_discovered(Platform::Windows, r"c:\Music\", &found, 1);
    assert_eq!(row.file, "Song.flp");
    assert_eq!(row.library_path(), "FL/Song.flp");
}

#[test]
fn a_project_reached_by_its_file_and_its_folder_is_listed_once() {
    let mut state = AppState::default();
    let location = Some(ProjectLocation {
        relative_path: "Song Project".to_owned(),
    });
    let entries = vec![
        ReadProject {
            project: read("/music/Song Project"),
            location: location.clone(),
        },
        ReadProject {
            project: read("/music/Song Project"),
            location: None,
        },
    ];
    let projects = load_library(&mut state, entries, 1).0;
    assert_eq!(projects.len(), 1);
    assert_eq!(projects[0].location, location);
}
