use judge_core::compare::{
    compare_string, remove_end_of_text_enters, strip_eol_spaces, CompareConfig, Diff,
};

fn full_config() -> CompareConfig {
    CompareConfig {
        ignore_end_of_text_enters: None,
        ignore_end_of_line_space: false,
        fast_compare: false,
        force_fast_compare: 30000,
    }
}

#[test]
fn default_compare_config() {
    let c = CompareConfig::default();
    assert_eq!(c.ignore_end_of_text_enters, Some(1));
    assert!(c.ignore_end_of_line_space);
    assert!(!c.fast_compare);
    assert_eq!(c.force_fast_compare, 30000);
}

#[test]
fn trim_removes_up_to_limit() {
    let mut s = String::from("abc\n\n\n");
    let n = remove_end_of_text_enters(&mut s, 2);
    assert_eq!(n, 2);
    assert_eq!(s, "abc\n");
}

#[test]
fn trim_negative_removes_all() {
    let mut s = String::from("abc\n\n\n");
    let n = remove_end_of_text_enters(&mut s, -1);
    assert_eq!(n, 3);
    assert_eq!(s, "abc");
}

#[test]
fn trim_zero_removes_nothing() {
    let mut s = String::from("abc\n");
    let n = remove_end_of_text_enters(&mut s, 0);
    assert_eq!(n, 0);
    assert_eq!(s, "abc\n");
}

#[test]
fn trim_stops_at_other_character() {
    let mut s = String::from("a\nb");
    let n = remove_end_of_text_enters(&mut s, 5);
    assert_eq!(n, 0);
    assert_eq!(s, "a\nb");
}

#[test]
fn trim_whole_string_of_newlines() {
    let mut s = String::from("\n\n");
    let n = remove_end_of_text_enters(&mut s, -3);
    assert_eq!(n, 2);
    assert_eq!(s, "");
}

#[test]
fn strip_spaces_before_newlines() {
    let s = String::from("a \nb \n");
    assert_eq!(strip_eol_spaces(&s), "a\nb\n");
}

#[test]
fn strip_spaces_single_pass() {
    // a one-pass replacement leaves one space of a doubled pair behind
    let s = String::from("a  \n");
    assert_eq!(strip_eol_spaces(&s), "a \n");
}

#[test]
fn space_before_newline_normalization() {
    // expected "a\n \n" and actual "a\n\n" agree once the space is ignored
    let config = CompareConfig {
        ignore_end_of_text_enters: None,
        ignore_end_of_line_space: true,
        fast_compare: false,
        force_fast_compare: 30000,
    };
    let outcome = compare_string(String::from("a\n \n"), String::from("a\n\n"), &config);
    assert_eq!(outcome.distance, 0);
}

#[test]
fn equal_strings_full_diff_distance_zero() {
    let outcome = compare_string(
        String::from("hello\nworld"),
        String::from("hello\nworld"),
        &full_config(),
    );
    assert_eq!(outcome.distance, 0);
}

#[test]
fn equal_strings_beyond_threshold_fast_path() {
    // both bodies are longer than the threshold, so the fast path decides
    let config = CompareConfig {
        ignore_end_of_text_enters: None,
        ignore_end_of_line_space: false,
        fast_compare: false,
        force_fast_compare: 4,
    };
    let outcome = compare_string(
        String::from("hello\nworld"),
        String::from("hello\nworld"),
        &config,
    );
    assert_eq!(outcome.distance, 0);
    assert!(outcome.diffs.is_empty());
}

#[test]
fn forced_fast_path_unequal_gives_one_and_no_segments() {
    let config = CompareConfig {
        ignore_end_of_text_enters: None,
        ignore_end_of_line_space: false,
        fast_compare: true,
        force_fast_compare: 30000,
    };
    let outcome = compare_string(String::from("abc"), String::from("abd"), &config);
    assert_eq!(outcome.distance, 1);
    assert!(outcome.diffs.is_empty());
    assert_eq!(outcome.split, "");
}

#[test]
fn full_diff_reports_line_segments() {
    let outcome = compare_string(String::from("a\nb"), String::from("a\nc"), &full_config());
    assert!(outcome.distance > 0);
    assert_eq!(outcome.split, "\n");
    // grouped segments: the shared line, then the removed and added lines
    assert_eq!(outcome.diffs.len(), 3);
    match &outcome.diffs[0] {
        Diff::Same(s) => assert_eq!(s, "a"),
        _ => panic!("first segment should be shared text"),
    }
    match &outcome.diffs[1] {
        Diff::Rem(s) => assert_eq!(s, "b"),
        _ => panic!("second segment should be removed text"),
    }
    match &outcome.diffs[2] {
        Diff::Add(s) => assert_eq!(s, "c"),
        _ => panic!("third segment should be added text"),
    }
}

#[test]
fn full_diff_agrees_with_diff_crate() {
    let ours = compare_string(String::from("x\ny\nz"), String::from("x\nq\nz"), &full_config());
    let theirs = difference::Changeset::new("x\ny\nz", "x\nq\nz", "\n");
    assert_eq!(ours.distance, theirs.distance);
    assert_eq!(ours.diffs.len(), theirs.diffs.len());
}

#[test]
fn default_config_trims_one_trailing_newline() {
    let outcome = compare_string(
        String::from("answer\n"),
        String::from("answer"),
        &CompareConfig::default(),
    );
    assert_eq!(outcome.distance, 0);
}
