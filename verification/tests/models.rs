use stayawake::models::{parse_points, ParseError};

#[test]
fn test_parse_points() {
    let result = parse_points("1000x1000").unwrap();
    assert_eq!(result.0, 1000);
    assert_eq!(result.1, 1000);

    // ----------

    let result = parse_points("512x100").unwrap();
    assert_eq!(result.0, 512);
    assert_eq!(result.1, 100);

    // ----------

    let result = parse_points("0x0").unwrap();
    assert_eq!(result.0, 0);
    assert_eq!(result.1, 0);

    // ----------

    let result = parse_points("0x0x0");
    assert!(result.is_err());
    let result_err = result.unwrap_err();
    let result_err = result_err.message();
    assert!(result_err.contains("expected format"));

    // ----------

    let result = parse_points("0");
    assert!(result.is_err());
    let result_err = result.unwrap_err();
    let result_err = result_err.message();
    assert!(result_err.contains("expected format"));

    // ----------

    let result = parse_points("testxtest");
    assert!(result.is_err());
    let result_err = result.unwrap_err();
    let result_err = result_err.message();
    assert!(result_err.contains("parsing error"));
}

#[test]
fn parse_accepts_a_leading_plus() {
    let result = parse_points("+12x+34").unwrap();
    assert_eq!(result, (12, 34));
}

#[test]
fn parse_rejects_empty_parts() {
    assert_eq!(parse_points("x12"), Err(ParseError::ParsingError));
    assert_eq!(parse_points("12x"), Err(ParseError::ParsingError));
    assert_eq!(parse_points("+x5"), Err(ParseError::ParsingError));
}

#[test]
fn parse_rejects_values_that_overflow() {
    // usize::MAX on a 64-bit machine is 18446744073709551615.
    let result = parse_points("18446744073709551616x1");
    assert_eq!(result, Err(ParseError::ParsingError));
    let result = parse_points("18446744073709551615x1");
    assert_eq!(result, Ok((usize::MAX, 1)));
}

#[test]
fn parse_rejects_the_empty_string_and_lone_separators() {
    assert_eq!(parse_points(""), Err(ParseError::ExpectedFormat));
    assert_eq!(parse_points("xx"), Err(ParseError::ExpectedFormat));
    assert_eq!(parse_points("123"), Err(ParseError::ExpectedFormat));
}

#[test]
fn error_messages_name_the_failure() {
    assert_eq!(
        ParseError::ExpectedFormat.message(),
        "expected format: \"1024x768\""
    );
    assert_eq!(ParseError::ParsingError.message(), "parsing error");
}
