use desktop_entries::output::render_lines;
use desktop_entries::roots::application_roots;
use desktop_entries::walk::process_candidate;

#[test]
fn end_to_end_single_entry() {
    let bytes = b"[Desktop Entry]\nType=Application\nName=Editor\nExec=editor %f\nTerminal=false\n";
    let e = process_candidate("app.desktop", None, bytes, "/root/app.desktop")
        .expect("a valid application entry must come through");
    assert_eq!(e.id, "app.desktop");
    assert_eq!(e.name, "Editor");
    assert_eq!(e.exec_cmd, "editor ");
    assert!(!e.terminal);
    assert!(!e.skip);
    let lines = render_lines(&vec![e], "");
    assert_eq!(lines, vec!["Editor=editor ".to_string()]);
}

#[test]
fn prefixed_candidate_gets_namespaced_id() {
    let bytes = b"[Desktop Entry]\nType=Application\nName=N\nExec=n\n";
    let e = process_candidate("x.desktop", Some("sub"), bytes, "/r/sub/x.desktop").unwrap();
    assert_eq!(e.id, "sub-x.desktop");
}

#[test]
fn wrong_extension_dropped() {
    let bytes = b"[Desktop Entry]\nType=Application\nName=N\nExec=n\n";
    assert!(process_candidate("x.txt", None, bytes, "/r/x.txt").is_none());
}

#[test]
fn non_application_type_dropped() {
    let bytes = b"[Desktop Entry]\nType=Link\nName=N\nExec=n\nURL=file:///\n";
    assert!(process_candidate("x.desktop", None, bytes, "/r/x.desktop").is_none());
}

#[test]
fn unparseable_candidate_dropped() {
    let bytes = b"\x00\xff not an entry file at all";
    assert!(process_candidate("x.desktop", None, bytes, "/r/x.desktop").is_none());
}

#[test]
fn terminal_and_nodisplay_through_parser() {
    let bytes = b"[Desktop Entry]\nType=Application\nName=Top\nExec=top\nTerminal=true\n";
    let e = process_candidate("top.desktop", None, bytes, "/r/top.desktop").unwrap();
    assert!(e.terminal);
    let bytes = b"[Desktop Entry]\nType=Application\nName=H\nExec=h\nNoDisplay=true\n";
    let e = process_candidate("h.desktop", None, bytes, "/r/h.desktop").unwrap();
    assert!(e.skip);
    let lines = render_lines(&vec![e], "xterm");
    assert!(lines.is_empty());
}

#[test]
fn fixed_roots_without_data_dirs() {
    let roots = application_roots("/home/u", None);
    assert_eq!(
        roots,
        vec![
            "/usr/share/applications/".to_string(),
            "/usr/local/share/applications/".to_string(),
            "/home/u/.local/share/applications/".to_string(),
        ]
    );
}

#[test]
fn empty_data_dirs_adds_nothing() {
    let roots = application_roots("/home/u", Some(""));
    assert_eq!(roots.len(), 3);
}

#[test]
fn data_dirs_entries_appended() {
    let roots = application_roots("/home/u", Some("/opt/share:/var/lib/flatpak/exports/share/"));
    assert_eq!(roots.len(), 5);
    assert_eq!(roots[3], "/opt/share/applications/");
    assert_eq!(roots[4], "/var/lib/flatpak/exports/share/applications/");
}

#[test]
fn empty_data_dir_segment_kept() {
    let roots = application_roots("/h", Some(":"));
    assert_eq!(roots.len(), 5);
    assert_eq!(roots[3], "applications/");
    assert_eq!(roots[4], "applications/");
}
