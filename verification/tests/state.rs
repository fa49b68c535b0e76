//! What is remembered between launches.
use auru_pm_ui::path::Platform;
use auru_pm_ui::moment::{FileRevision, Moment};
use auru_pm_ui::state::{
    config_dir, AppState, Environment, PathAliasState, StateFile, STATE_SCHEMA,
};

const ON: Platform = Platform::Other;

const FILE: &str = "/home/jake/.config/auru-pm/state.json";

fn home() -> Environment {
    Environment {
        platform: Platform::Other,
        app_data: None,
        home: Some("/home/jake".to_owned()),
        xdg_config_home: None,
    }
}

#[test]
fn state_should_survive_a_round_trip() {
    let mut state = AppState {
        display_name: "Jake".to_owned(),
        appearance: "day".to_owned(),
        automatic_backups: false,
        verify_uploads: false,
        version_retention: "last-fifty".to_owned(),
        ..AppState::default()
    };
    state.watch(ON, "/music/Ableton Projects");
    state.add_project(ON, "/elsewhere/One Off Project");
    state.connect_provider("studio-nas");
    let attempted_revision = Moment {
        nanos: 1_234_000_000_567,
    };
    state.record_backup_attempt("project:/music/Song.dawproject", Some(attempted_revision));

    let loaded = AppState::load_from(FILE, StateFile::Parsed(state)).state;
    assert_eq!(loaded.display_name, "Jake");
    assert_eq!(loaded.appearance, "day");
    assert!(!loaded.automatic_backups);
    assert!(!loaded.verify_uploads);
    assert_eq!(loaded.version_retention, "last-fifty");
    assert_eq!(loaded.watched_folders.len(), 1);
    assert_eq!(loaded.projects.len(), 1);
    assert!(loaded.is_provider_connected("studio-nas"));
    assert_eq!(loaded.connected_providers, vec!["studio-nas"]);
    assert_eq!(loaded.primary_provider.as_deref(), Some("studio-nas"));
    assert_eq!(
        loaded.backup_attempts(),
        vec![(
            "project:/music/Song.dawproject".to_owned(),
            attempted_revision
        )]
    );
}

#[test]
fn path_aliases_should_persist_and_replace_the_same_recorded_prefix() {
    let mut state = AppState::load_from(FILE, StateFile::Unreadable).state;

    state.set_path_alias(r"D:\Packs", "/mnt/old-packs");
    state.set_path_alias(r"d:\packs\\", "/mnt/current-packs");

    let loaded = AppState::load_from(FILE, StateFile::Parsed(state)).state;
    assert_eq!(
        loaded.path_aliases(),
        &[PathAliasState {
            from: r"d:\packs".to_owned(),
            to: "/mnt/current-packs".to_owned(),
        }]
    );
}

#[test]
fn a_state_built_in_memory_should_never_write_to_the_real_config() {
    let mut state = AppState {
        display_name: "should not be written".to_owned(),
        ..AppState::default()
    };
    state.note_first_seen("/somewhere", 1);

    // No origin, so nothing to write to.
    assert!(state.save_path().is_none());
}

#[test]
fn a_state_read_from_a_file_should_save_back_to_that_file() {
    let mut state = AppState::load_from(FILE, StateFile::Parsed(AppState::default())).state;
    state.display_name = "Jake".to_owned();

    assert_eq!(state.save_path().map(String::as_str), Some(FILE));
    assert_eq!(
        AppState::load_from(FILE, StateFile::Parsed(state))
            .state
            .display_name,
        "Jake"
    );
}

#[test]
fn a_missing_file_should_start_fresh() {
    let state = AppState::load_from("/tmp/nothing-here.json", StateFile::Unreadable).state;
    assert!(state.watched_folders.is_empty());
    assert_eq!(state.schema, STATE_SCHEMA);
}

#[test]
fn a_corrupt_file_should_start_fresh_rather_than_fail() {
    // Refusing to open someone's music over a broken preferences file would be
    // a far worse outcome than losing their preferences.
    let loaded = AppState::load_from(
        FILE,
        StateFile::Malformed("key must be a string".to_owned()),
    );
    assert!(loaded.state.watched_folders.is_empty());
    assert!(loaded.warning.is_some());
}

#[test]
fn a_file_from_a_newer_build_should_not_be_guessed_at() {
    let state = AppState {
        schema: STATE_SCHEMA + 1,
        display_name: "From the future".to_owned(),
        ..AppState::default()
    };

    let loaded = AppState::load_from(FILE, StateFile::Parsed(state)).state;
    assert_eq!(
        loaded.display_name, "",
        "fields we may not understand are not adopted"
    );
}

#[test]
fn watching_the_same_folder_twice_should_record_it_once() {
    let mut state = AppState::default();
    state.watch(ON, "/music");
    state.watch(ON, "/music");
    assert_eq!(state.watched_folders.len(), 1);
}

#[test]
fn a_project_inside_a_watched_folder_should_not_be_listed_separately() {
    // The scan finds it anyway. Recording it twice would leave a stray entry
    // behind when the folder is unwatched.
    let mut state = AppState::default();
    state.watch(ON, "/music/Ableton Projects");
    state.add_project(ON, "/music/Ableton Projects/Song Project");

    assert!(state.projects.is_empty());
    assert!(state.is_watched(ON, "/music/Ableton Projects/Song Project"));
}

#[test]
fn a_project_outside_every_watched_folder_should_be_kept() {
    let mut state = AppState::default();
    state.watch(ON, "/music/Ableton Projects");
    state.add_project(ON, "/elsewhere/Song Project");
    assert_eq!(state.projects.len(), 1);
}

#[test]
fn first_seen_should_keep_the_earliest_time_it_saw_a_project() {
    // Called on every library load, so it must record when a project was
    // *first* found, not when it was last scanned.
    let mut state = AppState::default();
    let first = state.note_first_seen("/music/Song Project", 10);
    let again = state.note_first_seen("/music/Song Project", 20);
    assert_eq!(first, again, "a rescan is not a re-add");
    assert_eq!(state.first_seen.len(), 1);
}

#[test]
fn the_first_run_is_not_onboarded() {
    assert!(!AppState::default().onboarding_complete);
    assert!(auru_pm_ui::state::existing_profile_completed_onboarding());
}

#[test]
fn each_platform_keeps_its_settings_in_its_own_place() {
    assert_eq!(
        config_dir(&home()).as_deref(),
        Some("/home/jake/.config/auru-pm")
    );
    let xdg = Environment {
        xdg_config_home: Some("/cfg".to_owned()),
        ..home()
    };
    assert_eq!(config_dir(&xdg).as_deref(), Some("/cfg/auru-pm"));
    let mac = Environment {
        platform: Platform::MacOs,
        ..home()
    };
    assert_eq!(
        config_dir(&mac).as_deref(),
        Some("/home/jake/Library/Application Support/studio.auru.pm")
    );
    let nowhere = Environment {
        home: None,
        ..home()
    };
    assert_eq!(config_dir(&nowhere), None);
    assert_eq!(AppState::path(&home()).as_deref(), Some(FILE));
}

#[test]
fn a_removed_alias_is_gone() {
    let mut state = AppState::default();
    state.set_path_alias("/Volumes/A", "/mnt/a");
    state.set_path_alias("/Volumes/B", "/mnt/b");
    state.remove_path_alias("/Volumes/A");
    assert_eq!(state.path_aliases().len(), 1);
    assert_eq!(state.path_aliases()[0].from, "/Volumes/B");
}

#[test]
fn an_attempt_without_a_time_is_not_recorded() {
    let mut state = AppState::default();
    state.record_backup_attempt("a", None);
    assert!(state.backup_attempts().is_empty());
}

#[test]
fn a_failed_save_says_why() {
    let state = AppState::load_from(FILE, StateFile::Unreadable).state;
    assert!(state.save_checked(Ok(())).is_ok());
    let error = state
        .save_checked(Err("disk full".to_owned()))
        .expect_err("not saved");
    assert!(error.contains("disk full"), "{error}");
}

#[test]
fn a_revision_stands_for_one_moment() {
    let moment = Moment {
        nanos: 1_234_000_000_567,
    };
    let revision = FileRevision::from_system_time(moment).expect("after the epoch");
    assert_eq!(revision.to_system_time(), Some(moment));
    let before = Moment { nanos: -1 };
    assert!(FileRevision::from_system_time(before).is_none());
}

#[test]
fn the_windows_configuration_folder_is_written_the_windows_way() {
    let environment = Environment {
        platform: Platform::Windows,
        app_data: Some(r"C:\Users\jake\AppData\Roaming".to_owned()),
        home: None,
        xdg_config_home: None,
    };
    assert_eq!(
        config_dir(&environment).as_deref(),
        Some(r"C:\Users\jake\AppData\Roaming\Auru\pm")
    );
}

#[test]
fn a_watched_folder_covers_what_the_platform_puts_beneath_it() {
    for (on, covered) in [
        (Platform::Windows, true),
        (Platform::MacOs, false),
        (Platform::Other, false),
    ] {
        let mut state = AppState::default();
        state.watch(on, r"C:\Music");
        assert_eq!(state.is_watched(on, r"C:\Music\Song"), covered);
        assert!(state.is_watched(on, r"C:\Music/Song"));
    }
}
