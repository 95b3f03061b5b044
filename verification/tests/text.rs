use interfacer_http::mime::token_char;
use interfacer_http::text::{blank, chars_of, same_text, to_lower, to_lowered};
use interfacer_http::{ContentInto, FromContentError, Helper, MimeParseError, MimeType, ToContent};

#[test]
fn blanks_are_space_and_tab() {
    assert!(blank(' '));
    assert!(blank('\t'));
    assert!(!blank('\n'));
    assert!(!blank('\r'));
    assert!(!blank('a'));
    assert!(!blank('\u{a0}'));
}

#[test]
fn lower_case_is_for_ascii_letters() {
    assert_eq!(to_lower('A'), 'a');
    assert_eq!(to_lower('Z'), 'z');
    assert_eq!(to_lower('a'), 'a');
    assert_eq!(to_lower('@'), '@');
    assert_eq!(to_lower('['), '[');
    assert_eq!(to_lower('É'), 'É');
    assert_eq!(to_lowered("Content-TYPE É/1"), "content-type É/1");
    assert_eq!(to_lowered(""), "");
}

#[test]
fn characters_in_order() {
    assert_eq!(chars_of("aé中"), vec!['a', 'é', '中']);
    assert_eq!(chars_of(""), Vec::<char>::new());
}

#[test]
fn same_text_is_exact() {
    assert!(same_text("utf-8", "utf-8"));
    assert!(!same_text("utf-8", "UTF-8"));
    assert!(!same_text("utf-8", "utf-8 "));
    assert!(same_text("", ""));
}

#[test]
fn token_characters() {
    for c in "abcxyzABCXYZ0189!#$%&'*+-.^_`|~".chars() {
        assert!(token_char(c), "{}", c);
    }
    for c in " \t\"(),/:;<=>?@[\\]{}\u{7f}é".chars() {
        assert!(!token_char(c), "{:?}", c);
    }
}

#[test]
fn the_main_items_are_at_the_root() {
    let content_type = MimeType::parse("application/json").unwrap();
    assert_eq!(MimeType::parse("x").unwrap_err(), MimeParseError::MissingSlash);
    let body = serde_json::Value::Null.to_content(&content_type).unwrap();
    let back: Result<serde_json::Value, FromContentError> = body.content_into(&content_type);
    assert_eq!(back.unwrap(), serde_json::Value::Null);
    assert!(Helper::new().parse_uri("https://github.com").is_ok());
}
