use desktop_entries::walk::{entry_id, has_desktop_extension, FileType};

#[test]
fn file_at_root_keeps_bare_name() {
    assert_eq!(entry_id(None, "x.desktop"), "x.desktop");
}

#[test]
fn file_in_subdirectory_gets_prefixed_id() {
    assert_eq!(entry_id(Some("sub"), "x.desktop"), "sub-x.desktop");
}

#[test]
fn nested_prefixes_accumulate() {
    let level_one = entry_id(None, "sub");
    let level_two = entry_id(Some(&level_one), "inner");
    assert_eq!(entry_id(Some(&level_two), "x.desktop"), "sub-inner-x.desktop");
}

#[test]
fn desktop_extension_recognized() {
    assert!(has_desktop_extension("a.desktop"));
    assert!(has_desktop_extension("org.gnome.Maps.desktop"));
}

#[test]
fn other_names_not_candidates() {
    assert!(!has_desktop_extension(".desktop"));
    assert!(!has_desktop_extension("desktop"));
    assert!(!has_desktop_extension("a.txt"));
    assert!(!has_desktop_extension("a.desktop.bak"));
    assert!(!has_desktop_extension("a.Desktop"));
}

#[test]
fn node_classification() {
    assert_eq!(FileType::from_path(true), FileType::File);
    assert_eq!(FileType::from_path(false), FileType::Directory);
}
