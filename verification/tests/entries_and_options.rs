use pses_bootstrap::archive::{entry_action, safe_entry, EntryAction};
use pses_bootstrap::config::candidate_args;

#[test]
fn traversal_names_are_unsafe() {
    assert!(!safe_entry(""));
    assert!(!safe_entry("/etc/passwd"));
    assert!(!safe_entry(".."));
    assert!(!safe_entry("../evil"));
    assert!(!safe_entry("a/../../b"));
    assert!(!safe_entry("foo/.."));
    assert!(!safe_entry("foo/../bar"));
    assert!(!safe_entry("nul\0name"));
    assert!(!safe_entry("..\\evil"));
    assert!(!safe_entry("a\\..\\b"));
    assert!(!safe_entry("plain\\name"));
}

#[test]
fn ordinary_names_are_safe() {
    assert!(safe_entry("file.txt"));
    assert!(safe_entry("dir/"));
    assert!(safe_entry("a/b/c.ps1"));
    assert!(safe_entry("..b/c"));
    assert!(safe_entry("a/..b"));
    assert!(safe_entry("a/b..c/d"));
    assert!(safe_entry("..."));
    assert!(safe_entry("a.."));
}

#[test]
fn unsafe_entries_are_skipped() {
    assert_eq!(entry_action("PSEditorServices", "../evil"), EntryAction::Skip);
    assert_eq!(entry_action("PSEditorServices", "/abs"), EntryAction::Skip);
    assert_eq!(entry_action("PSEditorServices", "a/../../b"), EntryAction::Skip);
    assert_eq!(entry_action("PSEditorServices", "..\\evil"), EntryAction::Skip);
}

#[test]
fn safe_entries_land_under_the_install_root() {
    assert_eq!(
        entry_action("PSEditorServices", "modules/"),
        EntryAction::MakeDir("PSEditorServices/modules/".to_string())
    );
    assert_eq!(
        entry_action("PSEditorServices", "Start-EditorServices.ps1"),
        EntryAction::WriteFile("PSEditorServices/Start-EditorServices.ps1".to_string())
    );
    assert_eq!(
        entry_action("PSEditorServices", "a/..b"),
        EntryAction::WriteFile("PSEditorServices/a/..b".to_string())
    );
}

fn value(text: &str) -> Option<serde_json::Value> {
    Some(serde_json::from_str(text).unwrap())
}

#[test]
fn candidate_args_reads_a_non_empty_string() {
    let opts = value("{\"binary\":{\"args\":\"-NoProfile -Custom\"}}");
    assert_eq!(candidate_args(&opts), Some("-NoProfile -Custom".to_string()));
}

#[test]
fn candidate_args_rejects_an_empty_string() {
    let opts = value("{\"binary\":{\"args\":\"\"}}");
    assert_eq!(candidate_args(&opts), None);
}

#[test]
fn candidate_args_tolerates_absence_and_wrong_shapes() {
    assert_eq!(candidate_args(&None), None);
    assert_eq!(candidate_args(&value("{}")), None);
    assert_eq!(candidate_args(&value("{\"binary\":{}}")), None);
    assert_eq!(candidate_args(&value("{\"binary\":{\"args\":7}}")), None);
    assert_eq!(candidate_args(&value("{\"binary\":{\"args\":[\"-x\"]}}")), None);
    assert_eq!(candidate_args(&value("{\"other\":{\"args\":\"-x\"}}")), None);
}
