use typing_tester::text::split_lines;
use typing_tester::text::trim;

#[test]
fn trim_removes_leading_and_trailing_whitespace() {
    assert_eq!(trim("  hello  "), "hello");
    assert_eq!(trim("\tword\r\n"), "word");
}

#[test]
fn trim_keeps_inner_whitespace() {
    assert_eq!(trim(" a b "), "a b");
}

#[test]
fn trim_of_empty_and_blank_input() {
    assert_eq!(trim(""), "");
    assert_eq!(trim("   "), "");
}

#[test]
fn trim_is_idempotent_on_concrete_input() {
    let once = trim("  cab  ");
    let twice = trim(once.as_str());
    assert_eq!(once, twice);
}

#[test]
fn split_lines_one_word_per_line() {
    assert_eq!(split_lines("alpha\nbeta\n"), vec!["alpha", "beta"]);
}

#[test]
fn split_lines_final_line_needs_no_newline() {
    assert_eq!(split_lines("alpha\nbeta"), vec!["alpha", "beta"]);
}

#[test]
fn split_lines_keeps_blank_lines_as_empty_words() {
    assert_eq!(split_lines("alpha\n\nbeta\n"), vec!["alpha", "", "beta"]);
    assert_eq!(split_lines("\n\n"), vec!["", ""]);
}

#[test]
fn split_lines_strips_carriage_return_before_newline() {
    assert_eq!(split_lines("alpha\r\nbeta\r\n"), vec!["alpha", "beta"]);
}

#[test]
fn split_lines_keeps_lone_trailing_carriage_return() {
    assert_eq!(split_lines("alpha\r"), vec!["alpha\r"]);
}

#[test]
fn split_lines_of_empty_input_is_empty() {
    assert_eq!(split_lines(""), Vec::<String>::new());
}
