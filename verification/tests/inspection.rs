//! What an inspection tool sees and does.
use auru_pm_ui::inspection::{
    key_answer, keystrokes, node, stable_id, typing_answer, InspectionPublisher, Surface,
};

#[test]
fn surface_values_are_stable_protocol_names() {
    assert_eq!(Surface::Library.value(), "library");
    assert_eq!(Surface::Onboarding.value(), "onboarding");
    assert_eq!(Surface::Settings.value(), "settings");
}

#[test]
fn semantic_nodes_keep_the_declared_action_vocabulary() {
    let node = node(
        "save",
        "button",
        "Save",
        Some("ready".to_owned()),
        false,
        vec!["click".to_owned(), "focus".to_owned()],
    );

    assert_eq!(node.id, "save");
    assert_eq!(node.role, "button");
    assert_eq!(node.value.as_deref(), Some("ready"));
    assert_eq!(node.actions, ["click", "focus"]);
}

#[test]
fn stable_ids_do_not_expose_the_identity() {
    let id = stable_id("project", "/home/alice/Secret Project/song.als");

    assert!(id.starts_with("project-"));
    assert!(!id.contains("alice"));
    assert!(!id.contains('/'));
    assert_ne!(id, stable_id("project", "/home/alice/other.als"));
}

#[test]
fn identities_are_hashed_with_fnv() {
    assert_eq!(stable_id("p", ""), "p-cbf29ce484222325");
    assert_eq!(stable_id("p", "a"), "p-af63dc4c8601ec8c");
    assert_eq!(stable_id("p", "foobar"), "p-85944171f73967e8");
}

#[test]
fn only_a_change_makes_a_new_revision() {
    let mut publisher = InspectionPublisher::new();
    let nodes = || vec![node("a", "button", "A", None, false, Vec::new())];
    assert!(publisher.publish(Surface::Library, 1, true, (10, 10), true, nodes()));
    assert_eq!(publisher.revision, 1);
    assert_eq!(publisher.published_nodes[0].id, "auru-pm");
    assert!(!publisher.publish(Surface::Library, 1, true, (10, 10), true, nodes()));
    assert_eq!(publisher.revision, 1);
    assert!(publisher.publish(Surface::Library, 1, true, (20, 10), true, nodes()));
    assert_eq!(publisher.revision, 2);
    assert_eq!(publisher.active_window(), Some(1));
}

#[test]
fn a_window_in_the_background_is_not_published() {
    let mut publisher = InspectionPublisher::new();
    assert!(publisher.publish(Surface::Library, 1, true, (10, 10), true, Vec::new()));
    assert!(!publisher.publish(Surface::Settings, 2, false, (10, 10), true, Vec::new()));
    assert_eq!(publisher.active_window(), Some(1));
    assert!(publisher.publish(Surface::Settings, 2, true, (10, 10), true, Vec::new()));
    assert_eq!(publisher.active_window(), Some(2));
}

#[test]
fn a_text_is_typed_key_by_key() {
    assert_eq!(keystrokes("aé日"), ["a", "é", "日"]);
    assert!(keystrokes("").is_empty());
    assert!(key_answer(true).is_ok());
    assert_eq!(
        key_answer(false).unwrap_err(),
        "the active GPUI window did not handle that key"
    );
    assert!(typing_answer(true).is_ok());
    assert_eq!(
        typing_answer(false).unwrap_err(),
        "the active GPUI window has no editable focus target"
    );
}
