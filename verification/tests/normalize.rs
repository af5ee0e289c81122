use desktop_entries::entry::{DesktopEntry, ValidationError};
use desktop_entries::parse::{RawAttr, RawSection};

fn attr(key: &str, value: &str) -> RawAttr {
    RawAttr { key: key.to_string(), param: None, values: vec![value.to_string()] }
}

fn desktop_section(attrs: Vec<RawAttr>) -> Vec<RawSection> {
    vec![RawSection { title: "Desktop Entry".to_string(), attrs }]
}

#[test]
fn minimal_entry_defaults() {
    let sections = desktop_section(vec![
        attr("Type", "Application"),
        attr("Name", "Editor"),
        attr("Exec", "editor"),
    ]);
    let e = DesktopEntry::from_entry(&sections, "editor.desktop".to_string(), "/r/editor.desktop".to_string())
        .expect("minimal entry must normalize");
    assert_eq!(e.name, "Editor");
    assert_eq!(e.exec_cmd, "editor");
    assert!(!e.terminal);
    assert!(!e.skip);
    assert_eq!(e.id, "editor.desktop");
    assert_eq!(e.source_path, "/r/editor.desktop");
}

#[test]
fn type_link_rejected() {
    let sections = desktop_section(vec![
        attr("Type", "Link"),
        attr("Name", "Somewhere"),
        attr("Exec", "xdg-open"),
    ]);
    let r = DesktopEntry::from_entry(&sections, "x".to_string(), "p".to_string());
    assert!(matches!(r, Err(ValidationError::NotAnApplication)));
}

#[test]
fn type_directory_rejected() {
    let sections = desktop_section(vec![
        attr("Type", "Directory"),
        attr("Name", "Folder"),
        attr("Exec", "true"),
    ]);
    let r = DesktopEntry::from_entry(&sections, "x".to_string(), "p".to_string());
    assert!(matches!(r, Err(ValidationError::NotAnApplication)));
}

#[test]
fn missing_type_rejected() {
    let sections = desktop_section(vec![attr("Name", "NoType"), attr("Exec", "prog")]);
    let r = DesktopEntry::from_entry(&sections, "x".to_string(), "p".to_string());
    assert!(matches!(r, Err(ValidationError::NotAnApplication)));
}

#[test]
fn missing_name_reported() {
    let sections = desktop_section(vec![attr("Type", "Application"), attr("Exec", "prog")]);
    let r = DesktopEntry::from_entry(&sections, "x".to_string(), "p".to_string());
    assert!(matches!(r, Err(ValidationError::MissingField("Name"))));
}

#[test]
fn missing_exec_reported() {
    let sections = desktop_section(vec![attr("Type", "Application"), attr("Name", "NoExec")]);
    let r = DesktopEntry::from_entry(&sections, "x".to_string(), "p".to_string());
    assert!(matches!(r, Err(ValidationError::MissingField("Exec"))));
}

#[test]
fn missing_desktop_entry_section_rejected() {
    let sections = vec![RawSection {
        title: "Desktop Action new-window".to_string(),
        attrs: vec![attr("Type", "Application"), attr("Name", "N"), attr("Exec", "e")],
    }];
    let r = DesktopEntry::from_entry(&sections, "x".to_string(), "p".to_string());
    assert!(matches!(r, Err(ValidationError::NotAnApplication)));
}

#[test]
fn nodisplay_true_parses_but_skips() {
    let sections = desktop_section(vec![
        attr("Type", "Application"),
        attr("Name", "Hidden"),
        attr("Exec", "hidden"),
        attr("NoDisplay", "true"),
    ]);
    let e = DesktopEntry::from_entry(&sections, "h.desktop".to_string(), "p".to_string())
        .expect("NoDisplay entries still normalize");
    assert!(e.skip);
}

#[test]
fn nodisplay_other_value_not_skipped() {
    let sections = desktop_section(vec![
        attr("Type", "Application"),
        attr("Name", "Shown"),
        attr("Exec", "shown"),
        attr("NoDisplay", "True"),
    ]);
    let e = DesktopEntry::from_entry(&sections, "s.desktop".to_string(), "p".to_string()).unwrap();
    assert!(!e.skip);
}

#[test]
fn terminal_true_sets_flag() {
    let sections = desktop_section(vec![
        attr("Type", "Application"),
        attr("Name", "Top"),
        attr("Exec", "top"),
        attr("Terminal", "true"),
    ]);
    let e = DesktopEntry::from_entry(&sections, "t.desktop".to_string(), "p".to_string()).unwrap();
    assert!(e.terminal);
}

#[test]
fn terminal_other_values_do_not() {
    for v in ["false", "True", "1", "yes", ""] {
        let sections = desktop_section(vec![
            attr("Type", "Application"),
            attr("Name", "Top"),
            attr("Exec", "top"),
            attr("Terminal", v),
        ]);
        let e = DesktopEntry::from_entry(&sections, "t.desktop".to_string(), "p".to_string()).unwrap();
        assert!(!e.terminal, "value {v:?} must not set the terminal flag");
    }
}

#[test]
fn exec_field_codes_stripped_in_record() {
    let sections = desktop_section(vec![
        attr("Type", "Application"),
        attr("Name", "Editor"),
        attr("Exec", "editor %f"),
    ]);
    let e = DesktopEntry::from_entry(&sections, "e.desktop".to_string(), "p".to_string()).unwrap();
    assert_eq!(e.exec_cmd, "editor ");
}

#[test]
fn localized_name_attr_not_taken() {
    let sections = desktop_section(vec![
        attr("Type", "Application"),
        RawAttr {
            key: "Name".to_string(),
            param: Some("ca".to_string()),
            values: vec!["Editor catala".to_string()],
        },
        attr("Exec", "editor"),
    ]);
    let r = DesktopEntry::from_entry(&sections, "x".to_string(), "p".to_string());
    assert!(matches!(r, Err(ValidationError::MissingField("Name"))));
}
