use desktop_entries::fields::strip_field_codes;

#[test]
fn token_removed_space_kept() {
    assert_eq!(strip_field_codes("editor %f"), "editor ");
}

#[test]
fn all_tokens_removed() {
    assert_eq!(
        strip_field_codes("%f %F %u %U %d %D %n %N %i %c %k %v %m"),
        "            "
    );
}

#[test]
fn no_tokens_unchanged() {
    assert_eq!(strip_field_codes("plain command --flag value"), "plain command --flag value");
}

#[test]
fn stripping_is_idempotent_on_stripped() {
    for s in ["editor %f --open %U", "run %% now", "%c%k%v", "nothing here"] {
        let once = strip_field_codes(s);
        let twice = strip_field_codes(&once);
        assert_eq!(twice, once, "re-stripping {once:?} must change nothing");
    }
}

#[test]
fn escaped_sequence_stripped_naively() {
    assert_eq!(strip_field_codes("%%f"), "%");
    assert_eq!(strip_field_codes("%%"), "");
}

#[test]
fn unknown_percent_codes_kept() {
    assert_eq!(strip_field_codes("a %z b"), "a %z b");
}

#[test]
fn empty_exec_allowed() {
    assert_eq!(strip_field_codes(""), "");
    assert_eq!(strip_field_codes("%f"), "");
}
