use den::text::{
    chars_of, concat2, concat3, contains_text, count_text, eq_ignore_ascii_case,
    format_sidebar_column_line, int_text, natural_text, parse_int, replace_text, same_text,
};

#[test]
fn a_short_line_is_filled_with_spaces() {
    assert_eq!(format_sidebar_column_line("ab"), "ab                     │");
    assert_eq!(format_sidebar_column_line(""), "                       │");
}

#[test]
fn a_long_line_is_cut_with_an_ellipsis() {
    assert_eq!(
        format_sidebar_column_line("abcdefghijklmnopqrstuvwxyz"),
        "abcdefghijklmnopqrstuv…│"
    );
}

#[test]
fn a_line_that_just_fits_is_kept() {
    assert_eq!(format_sidebar_column_line("abcdefghijklmnopqrstuvw"), "abcdefghijklmnopqrstuvw│");
}

#[test]
fn characters_count_and_not_bytes() {
    let line = format_sidebar_column_line("äöüäöüäöüäöüäöüäöüäöüäöüäöü");
    assert_eq!(line.chars().count(), 24);
    assert_eq!(line, "äöüäöüäöüäöüäöüäöüäöüä…│");
}

#[test]
fn numbers_are_written_out() {
    assert_eq!(natural_text(0), "0");
    assert_eq!(natural_text(u64::MAX), "18446744073709551615");
    assert_eq!(count_text(1234), "1234");
    assert_eq!(int_text(-45), "-45");
    assert_eq!(int_text(i64::MIN), "-9223372036854775808");
    assert_eq!(int_text(i64::MAX), "9223372036854775807");
}

#[test]
fn numbers_are_read_like_the_standard_library_reads_them() {
    for text in [
        "0", "7", "+7", "-7", "007", "-0", "", "+", "-", "1a", " 1", "1 ", "--1",
        "9223372036854775807", "9223372036854775808", "-9223372036854775808",
        "-9223372036854775809", "99999999999999999999999",
    ] {
        assert_eq!(parse_int(text), text.parse::<i64>().ok(), "{text}");
    }
}

#[test]
fn a_text_is_found_in_another() {
    assert!(contains_text("unknown goroutine 17", "unknown goroutine 1"));
    assert!(!contains_text("unknown goroutine", "unknown goroutine 1"));
    assert!(contains_text("abc", ""));
    assert!(contains_text("", ""));
    assert!(!contains_text("", "a"));
}

#[test]
fn case_is_ignored_for_ascii_only() {
    assert!(eq_ignore_ascii_case("DLV-dap", "dlv-DAP"));
    assert!(!eq_ignore_ascii_case("dlv", "dlv-dap"));
    assert!(!eq_ignore_ascii_case("Ä", "ä"));
}

#[test]
fn texts_are_replaced_from_the_left() {
    for (text, from, to) in [
        ("${tmpDir}/x", "${tmpDir}", "/tmp"),
        ("aaa", "aa", "b"),
        ("none", "x", "y"),
        ("", "x", "y"),
        ("x.x.x", "x", "xx"),
    ] {
        assert_eq!(replace_text(text, from, to), text.replace(from, to));
    }
}

#[test]
fn texts_are_joined_and_compared() {
    assert_eq!(concat2("ab", "c"), "abc");
    assert_eq!(concat3("a", "", "ü"), "aü");
    assert_eq!(chars_of("aü"), vec!['a', 'ü']);
    assert!(same_text("ü", "ü"));
    assert!(!same_text("u", "ü"));
}

#[test]
fn a_number_reads_back() {
    for n in [i64::MIN, -1000, -10, -1, 0, 7, 10, 42, 1_000_000, i64::MAX] {
        assert_eq!(parse_int(&int_text(n)), Some(n));
    }
}
