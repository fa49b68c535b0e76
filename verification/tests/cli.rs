//! The command line, the palettes, the settings and the windows.
use auru_pm_ui::appearance::{status_color, Appearance, Colour, ThemeMode};
use auru_pm_ui::backup::BackupStart;
use auru_pm_ui::filters::{
    commit_bpm_range_endpoint, commit_bpm_range_inputs, extend_unique_metadata_values,
    kept_selection, ordered_bpm_range, supported_bpm, BpmRange, BpmRangeEndpoint, MAX_FILTER_BPM,
    MIN_FILTER_BPM,
};
use auru_pm_ui::moment::Moment;
use auru_pm_ui::navigation::{OnboardingStep, Overlay, OverlayHost, OverlayState};
use auru_pm_ui::options::{Options, Startup, USAGE};
use auru_pm_ui::retention::{RetentionRule, VersionRetention};
use auru_pm_ui::status::{ProjectStatus, SyncDirection};

fn parse(args: &[&str]) -> Startup {
    Options::from_args(&args.iter().map(|arg| (*arg).to_owned()).collect())
}

#[test]
fn metadata_badges_should_accumulate_and_ignore_case_insensitive_duplicates() {
    let mut values = vec!["Collab".to_owned()];
    extend_unique_metadata_values(
        &mut values,
        &vec![
            "collab".to_owned(),
            "Mastered".to_owned(),
            "Club".to_owned(),
        ],
    );

    assert_eq!(values, ["Collab", "Mastered", "Club"]);
}

#[test]
fn bpm_range_should_order_reversed_typed_values() {
    assert_eq!(
        ordered_bpm_range(200, 100),
        BpmRange { min: 100, max: 200 }
    );
}

#[test]
fn settings_provider_overlays_should_only_render_in_settings() {
    let mut overlay = OverlayState::default();
    overlay.show(OverlayHost::Settings, Overlay::ProviderPicker);

    assert_eq!(
        overlay.visible_for(OverlayHost::Settings),
        Some(Overlay::ProviderPicker)
    );
    assert_eq!(overlay.visible_for(OverlayHost::Main), None);
}

#[test]
fn provider_authentication_should_stay_with_the_window_that_opened_it() {
    let mut overlay = OverlayState::default();
    overlay.show(OverlayHost::Settings, Overlay::ProviderPicker);
    overlay.replace(Overlay::Authenticate { provider_index: 2 });

    assert_eq!(
        overlay.visible_for(OverlayHost::Settings),
        Some(Overlay::Authenticate { provider_index: 2 })
    );
    assert_eq!(overlay.visible_for(OverlayHost::Main), None);

    overlay.replace(Overlay::ProviderPicker);
    assert_eq!(
        overlay.visible_for(OverlayHost::Settings),
        Some(Overlay::ProviderPicker)
    );
}

#[test]
fn clearing_an_overlay_should_hide_it_from_its_window() {
    let mut overlay = OverlayState::default();
    overlay.show(OverlayHost::Main, Overlay::ConflictResolver);
    overlay.clear();

    assert_eq!(overlay.visible_for(OverlayHost::Main), None);
    assert_eq!(overlay.visible_for(OverlayHost::Settings), None);
}

#[test]
fn a_providers_file_should_be_accepted_in_both_spellings() {
    for args in [
        vec!["--providers-file", "providers.json"],
        vec!["--providers-file=providers.json"],
    ] {
        let Startup::Run(options) = parse(&args) else {
            panic!("{args:?} should parse");
        };
        assert_eq!(options.providers_file.as_deref(), Some("providers.json"));
    }
}

#[test]
fn no_arguments_should_run_normally() {
    let Startup::Run(options) = parse(&[]) else {
        panic!("no arguments is the ordinary case");
    };
    assert!(options.providers_file.is_none());
    assert!(!options.inspect);
}

#[test]
fn inspection_should_require_an_explicit_flag() {
    let Startup::Run(options) = parse(&["--inspect"]) else {
        panic!("the inspection flag should parse");
    };
    assert!(options.inspect);
}

#[test]
fn asking_for_help_should_not_be_an_error() {
    assert!(matches!(parse(&["--help"]), Startup::ShowUsage));
    assert!(matches!(parse(&["-h"]), Startup::ShowUsage));
}

#[test]
fn a_misused_flag_should_say_what_is_wrong() {
    let Startup::Invalid(message) = parse(&["--providers-file"]) else {
        panic!("a flag with no value is a mistake");
    };
    assert!(message.contains("needs a path"), "{message}");

    let Startup::Invalid(message) = parse(&["--wat"]) else {
        panic!("an unknown flag is a mistake");
    };
    assert!(message.contains("--wat"), "{message}");
}

/// Relative luminance, for checking one tone reads against another.
fn luminance(color: u32) -> f32 {
    let channel = |shift: u32| {
        let c = ((color >> shift) & 0xff) as f32 / 255.0;
        if c <= 0.03928 {
            c / 12.92
        } else {
            ((c + 0.055) / 1.055).powf(2.4)
        }
    };
    0.2126 * channel(16) + 0.7152 * channel(8) + 0.0722 * channel(0)
}

fn contrast(a: u32, b: u32) -> f32 {
    let (x, y) = (luminance(a), luminance(b));
    let (hi, lo) = if x > y { (x, y) } else { (y, x) };
    (hi + 0.05) / (lo + 0.05)
}

#[test]
fn the_hover_tone_should_be_visible_against_a_menu() {
    // Menus draw on the panel.
    for appearance in [Appearance::Night, Appearance::Day] {
        let seen = contrast(
            Colour::Panel.tone(appearance),
            Colour::Hover.tone(appearance),
        );
        assert!(
            seen > 1.2,
            "{appearance:?} hover is only {seen:.2}:1 against the menu background"
        );
    }
}

#[test]
fn hover_should_be_a_bigger_step_than_selection() {
    // Selection marks the row you chose and can be quiet; hover has to
    // register the moment the pointer lands.
    for appearance in [Appearance::Night, Appearance::Day] {
        let panel = Colour::Panel.tone(appearance);
        assert!(
            contrast(panel, Colour::Hover.tone(appearance))
                > contrast(panel, Colour::Selection.tone(appearance)),
            "{appearance:?} hover should read more strongly than selection"
        );
    }
}

#[test]
fn appearance_should_round_trip_through_its_key() {
    for option in [Appearance::Night, Appearance::Day] {
        assert_eq!(Appearance::from_key(option.key()), option);
        assert!(!option.label().is_empty());
    }
    // An unreadable value must not leave the app in a half-applied state.
    assert_eq!(Appearance::from_key("chartreuse"), Appearance::Night);
}

#[test]
fn each_appearance_should_map_to_a_component_theme() {
    assert_eq!(Appearance::Night.theme_mode(), ThemeMode::Dark);
    assert_eq!(Appearance::Day.theme_mode(), ThemeMode::Light);
}

#[test]
fn the_palette_should_change_with_the_appearance() {
    let tones = |appearance| {
        (
            Colour::Background.tone(appearance),
            Colour::Ink.tone(appearance),
            Colour::Green.tone(appearance),
        )
    };
    let night = tones(Appearance::Night);
    let day = tones(Appearance::Day);

    assert_ne!(night.0, day.0, "background should differ");
    assert_ne!(night.1, day.1, "text should differ");
    assert_ne!(
        night.2, day.2,
        "status colours are re-picked for contrast, not reused"
    );
}

#[test]
fn retention_options_should_round_trip_through_their_keys() {
    // The dropdown stores a key and reads it back; a key that does not
    // round-trip would silently reset the setting on every render.
    for option in VersionRetention::ALL {
        assert_eq!(VersionRetention::from_key(option.key()), option);
        assert!(!option.label().is_empty());
    }
}

#[test]
fn an_unknown_retention_key_should_fall_back_to_keeping_everything() {
    // Losing history because a stored value was not understood would be the
    // worst possible way to be wrong about this.
    assert_eq!(
        VersionRetention::from_key("something-else"),
        VersionRetention::Everything
    );
}

#[test]
fn retention_options_should_translate_to_provider_rules() {
    assert_eq!(VersionRetention::Everything.rule_at(2_000_000_000), None);
    assert_eq!(
        VersionRetention::LastFifty.rule_at(2_000_000_000),
        Some(RetentionRule::Latest { count: 50 })
    );
    assert_eq!(
        VersionRetention::LastYear.rule_at(2_000_000_000),
        Some(RetentionRule::Since {
            timestamp: 1_968_464_000
        })
    );
}

#[test]
fn retention_keys_should_be_distinct() {
    let mut keys: Vec<&str> = VersionRetention::ALL.iter().map(|o| o.key()).collect();
    keys.sort_unstable();
    let count = keys.len();
    keys.dedup();
    assert_eq!(keys.len(), count, "two options share a key");
}

#[test]
fn an_automatic_backup_should_defer_a_revision_saved_during_preparation() {
    let qualified_revision = Moment::at_seconds(300);
    let saved_during_preparation = Moment::at_seconds(301);
    let start = BackupStart::AfterQuietPeriod { qualified_revision };

    assert!(start.accepts_prepared_revision(Some(qualified_revision)));
    assert!(!start.accepts_prepared_revision(Some(saved_during_preparation)));
    assert!(
        BackupStart::Immediate.accepts_prepared_revision(Some(saved_during_preparation)),
        "manual backups should still capture the latest stable save immediately"
    );
}

#[test]
fn onboarding_should_move_through_profile_provider_and_music_steps() {
    let mut step = OnboardingStep::Profile;
    assert_eq!(step.position(), (1, 3));
    step = step.next().expect("provider step");
    assert_eq!(step, OnboardingStep::Provider);
    step = step.next().expect("music step");
    assert_eq!(step, OnboardingStep::Music);
    assert!(step.next().is_none());
    assert_eq!(step.previous(), Some(OnboardingStep::Provider));
}

#[test]
fn usage_should_document_every_flag_that_exists() {
    assert!(USAGE.contains("--providers-file"));
    assert!(USAGE.contains("--inspect"));
    assert!(USAGE.contains("--help"));
}

#[test]
fn tempos_are_kept_within_what_is_supported() {
    assert_eq!(supported_bpm(0), MIN_FILTER_BPM);
    assert_eq!(supported_bpm(999), MAX_FILTER_BPM);
    assert_eq!(supported_bpm(174), 174);
}

#[test]
fn a_typed_end_of_a_range_moves_that_end() {
    let full = BpmRange::full();
    assert_eq!((full.min, full.max), (MIN_FILTER_BPM, MAX_FILTER_BPM));
    let range = commit_bpm_range_endpoint(full, BpmRangeEndpoint::Min, Some(120));
    assert_eq!((range.min, range.max), (120, MAX_FILTER_BPM));
    let range = commit_bpm_range_inputs(range, Some(180), Some(90));
    assert_eq!((range.min, range.max), (90, 180));
}

#[test]
fn selected_filter_values_stay_selected() {
    let items = vec!["Ambient".to_owned(), "Jungle".to_owned(), "Techno".to_owned()];
    let selected = vec!["TECHNO".to_owned(), "gone".to_owned(), "ambient".to_owned()];
    assert_eq!(kept_selection(&items, &selected), [0, 2]);
}

#[test]
fn colours_follow_what_needs_doing() {
    assert_eq!(
        status_color(ProjectStatus::NeverBackedUp),
        status_color(ProjectStatus::OutOfSync(SyncDirection::LocalAhead))
    );
    assert_ne!(
        status_color(ProjectStatus::Downloaded),
        status_color(ProjectStatus::Conflicted)
    );
}
