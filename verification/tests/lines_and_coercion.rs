//! Splitting text into lines, and the string-coercion policy.

use file_api::path_ops::split_lines;
use file_api::OwnedUnwrapToString;
use file_api::UnwrapToString;

#[test]
fn two_terminated_lines() {
    assert_eq!(split_lines("x\ny\n"), vec!["x", "y"]);
}

#[test]
fn final_fragment_is_a_line() {
    assert_eq!(split_lines("x\ny"), vec!["x", "y"]);
}

#[test]
fn empty_text_has_no_lines() {
    assert_eq!(split_lines(""), Vec::<String>::new());
}

#[test]
fn lone_terminator_is_one_empty_line() {
    assert_eq!(split_lines("\n"), vec![""]);
}

#[test]
fn crlf_terminators_are_stripped() {
    assert_eq!(split_lines("a\r\nb\r\n"), vec!["a", "b"]);
}

#[test]
fn carriage_return_without_newline_stays() {
    assert_eq!(split_lines("a\rb"), vec!["a\rb"]);
    assert_eq!(split_lines("y\r"), vec!["y\r"]);
}

#[test]
fn empty_lines_between_terminators() {
    assert_eq!(split_lines("a\n\nb\n"), vec!["a", "", "b"]);
}

#[test]
fn coercion_of_absent_is_empty() {
    let v: Option<&str> = None;
    assert_eq!(v.unwrap_to_string(), "");
    let w: Option<String> = None;
    assert_eq!(w.unwrap_to_string(), "");
}

#[test]
fn coercion_of_present_is_unchanged() {
    let v: Option<&str> = Some("text");
    assert_eq!(v.unwrap_to_string(), "text");
    let w: Option<String> = Some(String::from("text"));
    assert_eq!(w.unwrap_to_string(), "text");
}

#[test]
fn coercion_of_ok_is_unchanged() {
    let v: Result<String, u8> = Ok(String::from("text"));
    assert_eq!(v.unwrap_to_string(), "text");
    let w: Result<&str, u8> = Ok("text");
    assert_eq!(w.unwrap_to_string(), "text");
}
