use cloud_files::utils::{
    chars_of, contains_dot, has_dot_slash_prefix, has_dotdot, judge_pass, valid_pass, valid_path,
    validate_path,
};

#[test]
fn valid_path_rejects_parent_segments_whether_or_not_they_exist() {
    for path in ["..", "../x", "a/../b", "a/..", "./cloud/root/../../etc/passwd", "a..b"] {
        assert_eq!(valid_path(path, true), Err("you cant use '..' in path"));
        assert_eq!(valid_path(path, false), Err("you cant use '..' in path"));
    }
}

#[test]
fn valid_path_rejects_what_is_not_on_disk() {
    assert_eq!(valid_path("cloud/root/x", false), Err("path dont exist"));
    assert_eq!(valid_path("", false), Err("path dont exist"));
}

#[test]
fn valid_path_accepts_an_existing_path_without_dotdot() {
    assert_eq!(valid_path("cloud/root/x", true), Ok(()));
    assert_eq!(valid_path("./cloud/root", true), Ok(()));
    assert_eq!(valid_path("a.b/.c/d.", true), Ok(()));
    assert_eq!(valid_path("", true), Ok(()));
}

#[test]
fn validate_path_rejects_dotdot_first() {
    assert_eq!(validate_path("/a/../b", true), Err("you cant use '..' in path"));
    assert_eq!(validate_path("/a/../b", false), Err("you cant use '..' in path"));
    assert_eq!(validate_path("./../x", true), Err("you cant use '..' in path"));
    assert_eq!(validate_path("./../x", false), Err("you cant use '..' in path"));
}

#[test]
fn validate_path_then_rejects_dot_slash_then_missing() {
    assert_eq!(validate_path("./x", true), Err("path cant start with './'"));
    assert_eq!(validate_path("./x", false), Err("path cant start with './'"));
    assert_eq!(validate_path("./", true), Err("path cant start with './'"));
    assert_eq!(validate_path("/a/b", false), Err("path dont exist"));
    assert_eq!(validate_path("/a/b", true), Ok(()));
    assert_eq!(validate_path(".x/y", true), Ok(()));
    assert_eq!(validate_path("/", true), Ok(()));
}

#[test]
fn dotdot_is_found_at_every_place() {
    assert!(has_dotdot(".."));
    assert!(has_dotdot("..a"));
    assert!(has_dotdot("a.."));
    assert!(has_dotdot("a/b/..c/d"));
    assert!(has_dotdot("..."));
    assert!(!has_dotdot(""));
    assert!(!has_dotdot("."));
    assert!(!has_dotdot("./."));
    assert!(!has_dotdot(".a.b.c."));
    assert!(!has_dotdot("\u{e9}.\u{e9}."));
    assert!(has_dotdot("\u{e9}..\u{e9}"));
}

#[test]
fn dot_slash_prefix_is_a_prefix_only() {
    assert!(has_dot_slash_prefix("./"));
    assert!(has_dot_slash_prefix("./a"));
    assert!(!has_dot_slash_prefix("."));
    assert!(!has_dot_slash_prefix(""));
    assert!(!has_dot_slash_prefix("a./"));
    assert!(!has_dot_slash_prefix("/./"));
    assert!(!has_dot_slash_prefix(".\\"));
}

#[test]
fn contains_dot_finds_any_full_stop() {
    assert!(contains_dot("a.txt"));
    assert!(contains_dot(".hidden"));
    assert!(contains_dot("end."));
    assert!(!contains_dot("folder"));
    assert!(!contains_dot(""));
}

#[test]
fn chars_of_keeps_every_character_in_order() {
    assert_eq!(chars_of(""), Vec::<char>::new());
    assert_eq!(chars_of("a/\u{e9}."), vec!['a', '/', '\u{e9}', '.']);
}

#[test]
fn valid_pass_names_the_first_missing_kind() {
    assert_eq!(valid_pass(""), Err("pass must include lowercase"));
    assert_eq!(valid_pass("ABC123"), Err("pass must include lowercase"));
    assert_eq!(valid_pass("123"), Err("pass must include lowercase"));
    assert_eq!(valid_pass("abc123"), Err("pass must include uppercase"));
    assert_eq!(valid_pass("abc"), Err("pass must include uppercase"));
    assert_eq!(valid_pass("abcABC"), Err("pass must include number"));
    assert_eq!(valid_pass("aB3"), Ok(()));
    assert_eq!(valid_pass("Passw0rd!"), Ok(()));
}

#[test]
fn valid_pass_counts_letters_and_numbers_of_every_script() {
    // a Greek lowercase and uppercase letter, and an Arabic-Indic digit
    assert_eq!(valid_pass("\u{3b1}\u{391}\u{663}"), Ok(()));
    // a Roman numeral is a number, though no decimal digit
    assert_eq!(valid_pass("aA\u{2167}"), Ok(()));
    assert_eq!(valid_pass("aA-"), Err("pass must include number"));
}

#[test]
fn judge_pass_covers_all_eight_cases() {
    assert_eq!(judge_pass(false, false, false), Err("pass must include lowercase"));
    assert_eq!(judge_pass(false, false, true), Err("pass must include lowercase"));
    assert_eq!(judge_pass(false, true, false), Err("pass must include lowercase"));
    assert_eq!(judge_pass(false, true, true), Err("pass must include lowercase"));
    assert_eq!(judge_pass(true, false, false), Err("pass must include uppercase"));
    assert_eq!(judge_pass(true, false, true), Err("pass must include uppercase"));
    assert_eq!(judge_pass(true, true, false), Err("pass must include number"));
    assert_eq!(judge_pass(true, true, true), Ok(()));
}
