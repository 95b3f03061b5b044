use interfacer_http::mime::{MimeParseError, MimeType};

#[test]
fn parse_json_with_charset() {
    let mime = MimeType::parse("application/json; charset=utf-8").unwrap();
    assert_eq!(mime.base_type(), "application/json");
    assert_eq!(mime.charset(), Some("utf-8"));
}

#[test]
fn parse_html_without_charset() {
    let mime = MimeType::parse("text/html").unwrap();
    assert_eq!(mime.base_type(), "text/html");
    assert_eq!(mime.charset(), None);
    assert_eq!(mime.parameter_count(), 0);
}

#[test]
fn base_type_is_lowered_and_trimmed() {
    let mime = MimeType::parse(" \tApplication/JSON  ;charset=UTF-8").unwrap();
    assert_eq!(mime.base_type(), "application/json");
    assert_eq!(mime.charset(), Some("UTF-8"));
}

#[test]
fn parameter_names_ignore_case_and_values_keep_it() {
    let mime = MimeType::parse("multipart/form-data; Boundary = AbC ; CHARSET=Gbk").unwrap();
    assert_eq!(mime.parameter_count(), 2);
    assert_eq!(mime.parameter("boundary"), Some("AbC"));
    assert_eq!(mime.parameter("BOUNDARY"), Some("AbC"));
    assert_eq!(mime.parameter("charset"), Some("Gbk"));
    assert_eq!(mime.parameter("Charset"), Some("Gbk"));
    assert_eq!(mime.parameter("q"), None);
}

#[test]
fn first_parameter_of_a_name_wins() {
    let mime = MimeType::parse("text/plain; charset=gbk; charset=big5").unwrap();
    assert_eq!(mime.parameter_count(), 2);
    assert_eq!(mime.charset(), Some("gbk"));
}

#[test]
fn malformed_parameters_are_passed_over() {
    let mime = MimeType::parse("text/plain; charset; =x; ; a=1;;b=").unwrap();
    assert_eq!(mime.parameter_count(), 2);
    assert_eq!(mime.charset(), None);
    assert_eq!(mime.parameter("a"), Some("1"));
    assert_eq!(mime.parameter("b"), Some(""));
}

#[test]
fn value_keeps_what_follows_the_first_equals_sign() {
    let mime = MimeType::parse("text/plain; a=b=c; q=\"x y\"").unwrap();
    assert_eq!(mime.parameter("a"), Some("b=c"));
    assert_eq!(mime.parameter("q"), Some("\"x y\""));
}

#[test]
fn base_type_needs_a_slash() {
    assert_eq!(MimeType::parse("").unwrap_err(), MimeParseError::MissingSlash);
    assert_eq!(MimeType::parse("json").unwrap_err(), MimeParseError::MissingSlash);
    assert_eq!(
        MimeType::parse("; charset=utf-8").unwrap_err(),
        MimeParseError::MissingSlash
    );
}

#[test]
fn base_type_needs_both_parts() {
    assert_eq!(MimeType::parse("/json").unwrap_err(), MimeParseError::EmptyPart);
    assert_eq!(MimeType::parse("text/").unwrap_err(), MimeParseError::EmptyPart);
    assert_eq!(MimeType::parse("/").unwrap_err(), MimeParseError::EmptyPart);
}

#[test]
fn base_type_is_made_of_tokens() {
    assert_eq!(
        MimeType::parse("text/pl ain").unwrap_err(),
        MimeParseError::InvalidCharacter
    );
    assert_eq!(
        MimeType::parse("text/a/b").unwrap_err(),
        MimeParseError::InvalidCharacter
    );
    assert_eq!(
        MimeType::parse("té/plain").unwrap_err(),
        MimeParseError::InvalidCharacter
    );
    assert!(MimeType::parse("application/vnd.api+json").is_ok());
    assert!(MimeType::parse("application/x-www-form-urlencoded").is_ok());
}

#[test]
fn equality_goes_by_base_type_alone() {
    let plain = MimeType::parse("application/json").unwrap();
    let with_charset = MimeType::parse("APPLICATION/json; charset=gbk").unwrap();
    let other = MimeType::parse("application/xml; charset=gbk").unwrap();
    assert!(plain == with_charset);
    assert!(plain != other);
    assert!(with_charset != other);
}

#[test]
fn clone_keeps_everything() {
    let mime = MimeType::parse("text/html; charset=gbk; a=B").unwrap();
    let copy = mime.clone();
    assert_eq!(copy.base_type(), "text/html");
    assert_eq!(copy.parameter_count(), 2);
    assert_eq!(copy.charset(), Some("gbk"));
    assert_eq!(copy.parameter("a"), Some("B"));
    assert!(mime.has_base("text/html"));
    assert!(!mime.has_base("TEXT/HTML"));
}

#[test]
fn parameter_name_must_be_a_token() {
    let mime = MimeType::parse("text/plain; a b=1; c/d=2; é=3; ok=4").unwrap();
    assert_eq!(mime.parameter_count(), 1);
    assert_eq!(mime.parameter("ok"), Some("4"));
    assert_eq!(mime.parameter("a b"), None);
}
