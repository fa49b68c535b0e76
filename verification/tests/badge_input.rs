//! Labels typed with commas between them.
use auru_pm_ui::badge_input::{badge_values, split_badge_input, use_badge_input};
use auru_pm_ui::input_submit::{is_submit, metadata_input_needs_parent_render, InputEvent};

#[test]
fn comma_should_commit_complete_values_and_keep_the_unfinished_value() {
    assert_eq!(
        split_badge_input("drums, synth", false),
        (vec!["drums".to_owned()], "synth".to_owned())
    );
}

#[test]
fn trailing_comma_should_commit_every_value() {
    assert_eq!(
        split_badge_input("drums, synth,", false),
        (vec!["drums".to_owned(), "synth".to_owned()], String::new())
    );
}

#[test]
fn enter_should_commit_the_trailing_value() {
    assert_eq!(
        split_badge_input("drums, synth", true),
        (vec!["drums".to_owned(), "synth".to_owned()], String::new())
    );
}

#[test]
fn empty_segments_should_not_create_badges() {
    assert_eq!(badge_values("drums, ,\n synth"), ["drums", "synth"]);
}

#[test]
fn press_enter_should_submit_the_input() {
    assert!(is_submit(InputEvent::PressEnter));
}

#[test]
fn input_changes_should_not_submit_the_input() {
    assert!(!is_submit(InputEvent::Change));
}

#[test]
fn metadata_input_changes_should_not_rerender_the_project_manager() {
    assert!(!metadata_input_needs_parent_render(InputEvent::Change));
}

#[test]
fn typing_without_a_comma_commits_nothing() {
    assert!(use_badge_input(InputEvent::Change, "dru").is_none());
    assert!(use_badge_input(InputEvent::Blur, "drums, synth").is_none());
    let entered = use_badge_input(InputEvent::PressEnter, "drums").expect("an edit");
    assert_eq!(entered.values, ["drums"]);
    assert_eq!(entered.remainder, "");
}

#[test]
fn every_committed_value_is_trimmed() {
    let (values, rest) = split_badge_input("  a\u{a0}b \t,\u{3000}, c ", false);
    assert_eq!(values, ["a\u{a0}b"]);
    assert_eq!(rest, "c");
}
