use desktop_entries::terminal::{find_terminal, select_terminal, terminal_candidates};

#[test]
fn candidate_list_order() {
    let cands = terminal_candidates();
    assert_eq!(cands.len(), 29);
    assert_eq!(cands[0], "x-terminal-emulator");
    assert_eq!(cands[12], "xterm");
    assert_eq!(cands[28], "wezterm");
}

#[test]
fn xterm_selected_when_only_it_is_found() {
    let cands = terminal_candidates();
    let xterm_pos = cands.iter().position(|c| c == "xterm").unwrap();
    let mut found = vec![false; cands.len()];
    found[xterm_pos] = true;
    assert_eq!(select_terminal(&found), Some("xterm".to_string()));
}

#[test]
fn higher_priority_candidate_wins() {
    let cands = terminal_candidates();
    let mut found = vec![false; cands.len()];
    found[12] = true;
    found[0] = true;
    assert_eq!(select_terminal(&found), Some("x-terminal-emulator".to_string()));
}

#[test]
fn nothing_found_selects_nothing() {
    let found = vec![false; terminal_candidates().len()];
    assert_eq!(select_terminal(&found), None);
}

#[test]
fn override_returned_verbatim() {
    assert_eq!(find_terminal(Some("my-term -e".to_string())), Some("my-term -e".to_string()));
    assert_eq!(find_terminal(Some(String::new())), Some(String::new()));
}
