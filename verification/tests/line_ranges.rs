//! Tests of line-specification parsing and line extraction.

use opencode::explain::{extract_lines, parse_lines};

#[test]
fn test_parse_lines_valid() {
    assert_eq!(parse_lines("10"), Ok((10, None)));
    assert_eq!(parse_lines(" 5 "), Ok((5, None)));
    assert_eq!(parse_lines("10-20"), Ok((10, Some(20))));
    assert_eq!(parse_lines(" 5 - 15 "), Ok((5, Some(15))));
}

#[test]
fn test_parse_lines_invalid() {
    assert!(parse_lines("abc").is_err());
    assert!(parse_lines("10-").is_err());
    assert!(parse_lines("-20").is_err());
    assert!(parse_lines("10-abc").is_err());
    assert!(parse_lines("abc-20").is_err());
    assert!(parse_lines("20-10").is_err());
    assert!(parse_lines("0").is_err());
    assert!(parse_lines("0-5").is_err());
    assert!(parse_lines("5-0").is_err());
}

#[test]
fn test_extract_lines_valid() {
    let content = "Line 1\nLine 2\nLine 3\nLine 4\nLine 5";
    assert_eq!(extract_lines(content, 2, None), Ok("Line 2".to_string()));
    assert_eq!(extract_lines(content, 3, Some(3)), Ok("Line 3".to_string()));
    assert_eq!(extract_lines(content, 2, Some(4)), Ok("Line 2\nLine 3\nLine 4".to_string()));
    assert_eq!(extract_lines(content, 1, Some(5)), Ok(content.to_string()));
}

#[test]
fn test_extract_lines_invalid() {
    let content = "Line 1\nLine 2\nLine 3";
    assert!(extract_lines(content, 4, None).is_err());
    assert!(extract_lines(content, 1, Some(4)).is_err());
    assert!(extract_lines(content, 0, Some(1)).is_err());
}

#[test]
fn parse_lines_reports_each_error() {
    assert_eq!(parse_lines("abc"), Err("Invalid line number".to_string()));
    assert_eq!(parse_lines("0"), Err("Line number must be 1 or greater".to_string()));
    assert_eq!(parse_lines("x-2"), Err("Invalid start line number".to_string()));
    assert_eq!(parse_lines("2-x"), Err("Invalid end line number".to_string()));
    assert_eq!(parse_lines("0-5"), Err("Line numbers must be 1 or greater".to_string()));
    assert_eq!(
        parse_lines("9-3"),
        Err("Start line cannot be greater than end line".to_string())
    );
}

#[test]
fn extract_lines_names_the_violated_bound() {
    let content = "a\nb";
    assert_eq!(
        extract_lines(content, 5, None),
        Err("Start line 5 is out of bounds (total lines: 2)".to_string())
    );
    assert_eq!(
        extract_lines(content, 1, Some(7)),
        Err("End line 7 is out of bounds (total lines: 2)".to_string())
    );
    assert_eq!(
        extract_lines(content, 0, None),
        Err("Start line cannot be 0 (lines are 1-based)".to_string())
    );
    assert_eq!(
        extract_lines(content, 2, Some(1)),
        Err("Start index cannot be greater than or equal to end index after adjustment".to_string())
    );
}

#[test]
fn extract_lines_handles_carriage_returns() {
    let content = "a\r\nb\r\nc";
    assert_eq!(extract_lines(content, 1, Some(2)), Ok("a\nb".to_string()));
}

#[test]
fn number_fields_are_trimmed_as_unicode_whitespace() {
    // str::trim removes every White_Space character, not just the
    // ASCII blanks; the vertical tab and the no-break space are two
    // such characters.
    assert_eq!(parse_lines("\u{000B}5"), Ok((5, None)));
    assert_eq!(parse_lines("\u{00A0}7\u{00A0}"), Ok((7, None)));
    assert_eq!(parse_lines("\u{2000}3 - \u{000C}9"), Ok((3, Some(9))));
    assert_eq!(parse_lines("+5"), Ok((5, None)));
}
