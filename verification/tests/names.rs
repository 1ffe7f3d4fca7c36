use note_store::names::{has_json_extension, note_file_name, notes_dir_name};
use note_store::protocol::DirEntry;
use std::path::Path;

fn entry(name: &str, is_file: bool) -> DirEntry {
    DirEntry { name: String::from(name), is_file }
}

#[test]
fn notes_directory_is_called_notes() {
    assert_eq!(notes_dir_name(), "notes");
}

#[test]
fn file_name_is_id_dot_json() {
    assert_eq!(note_file_name("abc"), "abc.json");
    assert_eq!(note_file_name("2024-01-01 plan"), "2024-01-01 plan.json");
    assert_eq!(note_file_name("note.v2"), "note.v2.json");
}

#[test]
fn file_name_of_empty_id_is_bare_extension() {
    assert_eq!(note_file_name(""), ".json");
}

#[test]
fn file_name_keeps_non_ascii_ids() {
    assert_eq!(note_file_name("café"), "café.json");
    assert_eq!(note_file_name("笔记"), "笔记.json");
}

#[test]
fn json_extension_is_recognised() {
    assert!(has_json_extension("abc.json"));
    assert!(has_json_extension("a.json"));
    assert!(has_json_extension("a.b.json"));
    assert!(has_json_extension("..json"));
    assert!(has_json_extension("café.json"));
    assert!(has_json_extension(".hidden.json"));
}

#[test]
fn other_extensions_are_not_json() {
    assert!(!has_json_extension("abc.txt"));
    assert!(!has_json_extension("abc.JSON"));
    assert!(!has_json_extension("abc.Json"));
    assert!(!has_json_extension("abc.json.bak"));
    assert!(!has_json_extension("abc.jso"));
    assert!(!has_json_extension("abc.jsonx"));
    assert!(!has_json_extension("abc.json "));
    assert!(!has_json_extension("abc."));
    assert!(!has_json_extension("abc.jsön"));
}

#[test]
fn names_without_extension_are_not_json() {
    assert!(!has_json_extension(""));
    assert!(!has_json_extension("abc"));
    assert!(!has_json_extension("json"));
    assert!(!has_json_extension("abcjson"));
    assert!(!has_json_extension(".json"));
    assert!(!has_json_extension("."));
    assert!(!has_json_extension(".j"));
}

#[test]
fn json_extension_agrees_with_std_paths() {
    let names = [
        "abc.json", "a.json", "a.b.json", "..json", ".json", "json", "", "abc", "abc.", "abc.JSON",
        "abc.json.bak", "abc.jsonx", ".hidden.json", "...json", "x.y.z", "café.json", "a.jsön",
        "notes", "12345", "1.json", ".a.json", "a..json",
    ];
    for name in names {
        let expected = Path::new(name).extension().map_or(false, |ext| ext == "json");
        assert_eq!(has_json_extension(name), expected, "{}", name);
    }
}

#[test]
fn note_file_names_have_the_json_extension() {
    for id in ["abc", "a", "x.y", "with space", "é", ".", ".."] {
        assert!(has_json_extension(&note_file_name(id)), "{}", id);
    }
    assert!(!has_json_extension(&note_file_name("")));
}

#[test]
fn a_regular_json_file_is_a_note() {
    assert!(entry("abc.json", true).is_note());
}

#[test]
fn a_directory_named_like_a_note_is_no_note() {
    assert!(!entry("abc.json", false).is_note());
}

#[test]
fn a_regular_file_of_another_kind_is_no_note() {
    assert!(!entry("readme.txt", true).is_note());
    assert!(!entry(".json", true).is_note());
    assert!(!entry("abc", true).is_note());
}
