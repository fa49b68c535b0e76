//! Texts and paths, against std.
use auru_pm_ui::json::{whole_value, FieldValue};
use auru_pm_ui::path::{self, Platform};
use auru_pm_ui::text::{
    at_or_before, contains, control, count_text, decimal_text, equal_ignoring_case, join,
    prefix_of, split, starts_with, to_ascii_lowered, trim, white, Class,
};
use auru_pm_ui::text_map::TextMap;
use std::path::Path;

const ON: Platform = Platform::Other;
const WINDOWS: Platform = Platform::Windows;

#[test]
fn white_space_and_controls_are_those_of_std() {
    for code in 0..=0x10_ffff_u32 {
        if let Some(c) = char::from_u32(code) {
            assert_eq!(white(c), c.is_whitespace(), "{code:x}");
            assert_eq!(control(c), c.is_control(), "{code:x}");
        }
    }
}

#[test]
fn texts_are_cut_as_std_cuts_them() {
    for text in ["", "  a b \t", "\u{3000}x\u{a0}", "a,b\n c,", "é日"] {
        assert_eq!(trim(text), text.trim());
        assert_eq!(to_ascii_lowered(text), text.to_ascii_lowercase());
        assert_eq!(contains(text, "b"), text.contains("b"));
        assert_eq!(contains(text, ""), text.contains(""));
        assert_eq!(starts_with(text, "a"), text.starts_with('a'));
        assert_eq!(prefix_of(text, 1), text.chars().take(1).collect::<String>());
    }
    assert_eq!(
        join(&vec!["a".to_owned(), "b".to_owned()], " · "),
        ["a", "b"].join(" · ")
    );
    assert_eq!(split("a,b\nc", Class::Delimiter), ["a", "b", "c"]);
    assert!(equal_ignoring_case("DruM", "drum"));
    assert!(!equal_ignoring_case("É", "é"));
}

#[test]
fn numbers_are_written_out() {
    for n in [0_u128, 1, 9, 10, 12_345, u128::MAX] {
        assert_eq!(decimal_text(n), n.to_string());
    }
    assert_eq!(count_text(usize::MAX), usize::MAX.to_string());
}

#[test]
fn texts_stand_in_std_order() {
    let texts = ["", "A", "a", "ab", "b", "é", "日", "🎹", "\u{ffff}"];
    for a in texts {
        for b in texts {
            assert_eq!(at_or_before(a, b), a <= b, "{a} {b}");
        }
    }
}

#[test]
fn paths_are_taken_apart_as_std_does() {
    for text in [
        "/music/Song.als",
        "/music/.hidden",
        "/music/Song.tar.gz",
        "/music/Song.",
        "relative/a.b",
        "/",
        "",
        "..",
        "/a/./b/../c",
        "/a//b/",
        "a//b/./c//",
        "//a",
        "/./a",
        "./a",
        ".",
        "a/..",
        r"C:\Music\Song.flp",
        r"C:/Music\Song.flp",
        r"\\nas\music\Song",
        r"/music/a\b.flp",
    ] {
        let std_path = Path::new(text);
        assert_eq!(
            path::parent(ON, text),
            std_path.parent().map(|v| v.to_string_lossy().into_owned()),
            "{text}"
        );
        assert_eq!(path::components(ON, text).len(), std_path.components().count(), "{text}");
        assert_eq!(path::file_name(ON, text), std_path.file_name().map(|v| v.to_string_lossy().into_owned()), "{text}");
        assert_eq!(path::file_stem(ON, text), std_path.file_stem().map(|v| v.to_string_lossy().into_owned()), "{text}");
        assert_eq!(
            path::join_path(ON, text, "x"),
            std_path.join("x").to_string_lossy(),
            "{text}"
        );
        assert_eq!(
            path::join_path(ON, text, "/x"),
            std_path.join("/x").to_string_lossy(),
            "{text}"
        );
        for other in ["/music", "/a", "/a/b", "relative", "", "/", r"C:\Music", "C:", r"\\nas"] {
            assert_eq!(
                path::starts_with(ON, text, other),
                std_path.starts_with(other),
                "{text} {other}"
            );
            assert_eq!(path::equal(ON, text, other), std_path == Path::new(other));
        }
    }
}

#[test]
fn windows_paths_are_taken_apart_at_both_separators() {
    assert_eq!(path::file_name(WINDOWS, r"C:\Music\Song.flp").as_deref(), Some("Song.flp"));
    assert_eq!(path::file_stem(WINDOWS, r"C:/Music\Song.flp").as_deref(), Some("Song"));
    assert_eq!(path::file_name(WINDOWS, r"C:\"), None);
    assert_eq!(path::file_name(WINDOWS, r"\\nas\music"), None);
    assert_eq!(path::file_name(WINDOWS, r"\\nas\music\Song.flp").as_deref(), Some("Song.flp"));
    assert_eq!(path::parent(WINDOWS, r"C:\Music\Song.flp").as_deref(), Some(r"C:\Music"));
    assert_eq!(path::parent(WINDOWS, r"C:\Song.flp").as_deref(), Some(r"C:\"));
    assert_eq!(path::parent(WINDOWS, r"C:\"), None);
    assert_eq!(path::parent(WINDOWS, r"C:\Music/FL\\.\Song.flp\").as_deref(), Some(r"C:\Music/FL"));
    assert_eq!(path::parent(WINDOWS, r"C:Song.flp").as_deref(), Some("C:"));
    assert_eq!(path::parent(WINDOWS, r"\\nas\music\a").as_deref(), Some(r"\\nas\music\"));
    assert_eq!(path::parent(WINDOWS, r"\\nas\music"), None);
    assert_eq!(path::components(WINDOWS, r"c:\a").len(), 3);
    assert_eq!(path::components(WINDOWS, r"c:a").len(), 2);
    assert_eq!(path::components(WINDOWS, r"\a").len(), 2);
    assert_eq!(path::components(WINDOWS, "//nas/music").len(), 2);
    assert!(path::equal(WINDOWS, r"a\b", "a/b"));
    assert!(!path::equal(WINDOWS, r"C:\a", r"C:a"));
    assert_eq!(path::parent(WINDOWS, r"\\nas\music\a\b").as_deref(), Some(r"\\nas\music\a"));
    assert!(path::starts_with(WINDOWS, r"c:\Music\FL\Song.flp", r"C:/Music/"));
    assert!(!path::starts_with(WINDOWS, r"C:\Musical\Song.flp", r"C:\Music"));
    assert!(!path::starts_with(WINDOWS, r"D:\Music\Song.flp", r"C:\Music"));
    assert!(path::equal(WINDOWS, r"C:\Music\.\FL\", r"C:\Music\FL"));
    assert_eq!(path::join_path(WINDOWS, r"C:\Music", "FL"), r"C:\Music\FL");
    assert_eq!(path::join_path(WINDOWS, r"C:\", "FL"), r"C:\FL");
    assert_eq!(path::join_path(WINDOWS, r"C:\Music", r"D:\FL"), r"D:\FL");
    assert_eq!(path::join_path(WINDOWS, r"C:\Music", "D:FL"), "D:FL");
    assert_eq!(path::join_path(WINDOWS, "C:", "FL"), "C:FL");
    assert_eq!(path::join_path(WINDOWS, r"\\nas\music", r"\FL"), r"\\nas\music\FL");
    assert_eq!(path::join_path(WINDOWS, "Music", "FL"), r"Music\FL");
    assert_eq!(path::join_path(WINDOWS, r"C:\Music", r"\FL"), r"C:\FL");
    assert_eq!(
        path::portable_place(WINDOWS, r"C:\Music", r"C:\Music\FL\Song.flp").as_deref(),
        Some("FL/Song.flp")
    );
}

#[test]
fn a_map_keeps_its_keys_in_order() {
    let mut map = TextMap::new();
    map.insert("b", 1);
    map.insert("a", 2);
    map.insert("b", 3);
    assert_eq!(map.len(), 2);
    assert_eq!(map.get("b"), Some(&3));
    assert_eq!(map.get("c"), None);
    let keys: Vec<&str> = map.list().iter().map(|entry| entry.0.as_str()).collect();
    assert_eq!(keys, ["a", "b"]);
}

#[test]
fn a_whole_document_is_read() {
    let read = |text: &str| whole_value(&serde_json::from_str(text).expect("json"));
    assert!(matches!(read("null"), FieldValue::Null));
    assert!(matches!(read("true"), FieldValue::Bool(true)));
    assert!(matches!(read("1.5"), FieldValue::Number(text) if text == "1.5"));
    assert!(matches!(read("\"x\""), FieldValue::Text(text) if text == "x"));
    assert!(matches!(read("[1,2]"), FieldValue::List(2)));
    assert!(matches!(read("{\"a\":1}"), FieldValue::Record(1)));
}
