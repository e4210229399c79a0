use mailshell::paths::is_recognized_path;

#[test]
fn extension_match_ignores_letter_case() {
    assert!(is_recognized_path("a.MSG"));
    assert!(is_recognized_path("a.Msg"));
    assert!(is_recognized_path("a.msg"));
    assert!(is_recognized_path("a.eml"));
    assert!(is_recognized_path("a.EML"));
    assert!(is_recognized_path("a.eMl"));
}

#[test]
fn unrecognized_extensions_are_rejected() {
    assert!(!is_recognized_path("a.txt"));
    assert!(!is_recognized_path("a"));
    assert!(!is_recognized_path(""));
    assert!(!is_recognized_path("a.emlx"));
    assert!(!is_recognized_path("a.ms"));
    assert!(!is_recognized_path("amsg"));
}

#[test]
fn extension_needs_a_file_name_before_the_dot() {
    assert!(!is_recognized_path(".msg"));
    assert!(!is_recognized_path("dir/.msg"));
    assert!(!is_recognized_path("dir\\.eml"));
    assert!(is_recognized_path("dir/a.msg"));
    assert!(is_recognized_path("C:\\mail\\a.eml"));
    assert!(is_recognized_path("archive.tar.msg"));
    assert!(is_recognized_path("a..msg"));
}
