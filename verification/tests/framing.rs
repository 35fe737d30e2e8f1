use kodegen_mcp_tool::clock::before;
use kodegen_mcp_tool::lines::{framed_line, rotate_if_needed, split_lines, MAX_DISK_ENTRIES};
use kodegen_mcp_tool::text::decimal_text;

fn numbered(from: usize, to: usize) -> String {
    (from..to).map(|n| format!("line {n}\n")).collect()
}

#[test]
fn lines_end_at_line_feeds() {
    assert!(split_lines("").is_empty());
    assert_eq!(split_lines("\n"), vec![""]);
    assert_eq!(split_lines("a"), vec!["a"]);
    assert_eq!(split_lines("a\n"), vec!["a"]);
    assert_eq!(split_lines("a\n\nb"), vec!["a", "", "b"]);
    assert_eq!(split_lines("a\nb\n"), vec!["a", "b"]);
}

#[test]
fn carriage_returns_belong_to_the_line_ending_only_before_a_line_feed() {
    assert_eq!(split_lines("a\r\nb\r\n"), vec!["a", "b"]);
    assert_eq!(split_lines("a\r"), vec!["a\r"]);
    assert_eq!(split_lines("\r"), vec!["\r"]);
    assert_eq!(split_lines("a\rb\n"), vec!["a\rb"]);
    assert_eq!(split_lines("a\r\r\nb"), vec!["a\r", "b"]);
    assert_eq!(split_lines("\r\n"), vec![""]);
}

#[test]
fn lines_agree_with_std() {
    for text in ["", "\n\n", "x\r\n\ry\r\r\n\nz\r", "žluť\nkůň\r\n", "\r\r\r\n\n\r", "a\n\r"] {
        assert_eq!(split_lines(text), text.lines().collect::<Vec<_>>());
    }
}

#[test]
fn a_framed_line_ends_in_a_line_feed() {
    assert_eq!(framed_line("{}"), "{}\n");
    assert_eq!(framed_line(""), "\n");
}

#[test]
fn short_files_are_left_alone() {
    assert_eq!(MAX_DISK_ENTRIES, 5000);
    assert_eq!(rotate_if_needed(""), None);
    assert_eq!(rotate_if_needed(&numbered(0, 5000)), None);
}

#[test]
fn long_files_keep_their_last_lines() {
    assert_eq!(rotate_if_needed(&numbered(0, 5001)), Some(numbered(1, 5001)));
    // An unfinished last line counts, and is finished.
    let unfinished = numbered(0, 5000) + "tail";
    assert_eq!(rotate_if_needed(&unfinished), Some(numbered(1, 5000) + "tail\n"));
}

#[test]
fn a_cut_file_is_not_cut_again() {
    let cut = rotate_if_needed(&numbered(0, 7000)).unwrap();
    assert_eq!(split_lines(&cut).len(), 5000);
    assert_eq!(rotate_if_needed(&cut), None);
}

#[test]
fn a_kept_carriage_return_joins_the_line_ending() {
    let long = "x\r\r\n".to_string() + &numbered(0, 4999);
    let cut = rotate_if_needed(&("first\n".to_string() + &long)).unwrap();
    assert!(cut.starts_with("x\r\nline 0\n"));
    assert_eq!(split_lines(&cut)[0], "x");
}

#[test]
fn decimal_forms() {
    for n in [0, 7, 10, 42, 1000, -1, -10, -987654321, i64::MAX, i64::MIN, i64::MIN + 1] {
        assert_eq!(decimal_text(n), n.to_string());
    }
}

#[test]
fn instants_are_ordered_by_second_then_nanosecond() {
    assert!(before((1, 9), (2, 0)));
    assert!(before((2, 0), (2, 1)));
    assert!(!before((2, 1), (2, 1)));
    assert!(!before((3, 0), (2, 1)));
    assert!(before((-5, 0), (0, 0)));
}
