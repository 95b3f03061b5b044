use interfacer_http::content::{
    from_content, from_content_among, to_content, to_content_among, ContentInto, ContentTag,
    FromContent, ReadFormat, Route, ToContent, WriteFormat,
};
use interfacer_http::error::{FromContentError, ToContentError, TranscodeError};
use interfacer_http::form::Form;
use interfacer_http::helper::HttpService;
use interfacer_http::json::Json;
use interfacer_http::mime::MimeType;

fn mime(raw: &str) -> MimeType {
    MimeType::parse(raw).unwrap()
}

fn fields(pairs: &[(&str, &str)]) -> Vec<(String, String)> {
    pairs
        .iter()
        .map(|(k, v)| (k.to_string(), v.to_string()))
        .collect()
}

/// A codec that writes a number in decimal and reads it back.
struct Decimal;

impl WriteFormat<u32> for Decimal {
    fn writes() -> ContentTag {
        ContentTag::Xml
    }

    fn write_bytes(value: &u32) -> Result<Vec<u8>, String> {
        Ok(format!("<n>{}</n>", value).into_bytes())
    }

    fn write_text(value: &u32) -> Result<String, String> {
        Ok(format!("<n>{}</n>", value))
    }
}

impl ReadFormat<u32> for Decimal {
    fn reads() -> ContentTag {
        ContentTag::Xml
    }

    fn read_bytes(data: &[u8]) -> Result<u32, String> {
        let text = std::str::from_utf8(data).map_err(|e| e.to_string())?;
        Decimal::read_text(text)
    }

    fn read_text(text: &str) -> Result<u32, String> {
        text.trim_start_matches("<n>")
            .trim_end_matches("</n>")
            .parse::<u32>()
            .map_err(|e| e.to_string())
    }
}

#[test]
fn form_scenario() {
    let value = fields(&[("name", "a"), ("age", "3")]);
    let content_type = mime("application/x-www-form-urlencoded");
    let body = value.to_content(&content_type).unwrap();
    assert_eq!(body, b"name=a&age=3".to_vec());
    let back: Vec<(String, String)> = body.content_into(&content_type).unwrap();
    assert_eq!(back, value);
}

#[test]
fn form_escapes_and_round_trips() {
    let value = fields(&[("q", "a b&c=d"), ("cheese", "comté")]);
    let content_type = mime("application/x-www-form-urlencoded; charset=utf-8");
    let body = value.to_content(&content_type).unwrap();
    assert_eq!(body, b"q=a+b%26c%3Dd&cheese=comt%C3%A9".to_vec());
    let back = Vec::<(String, String)>::from_content(body, &content_type).unwrap();
    assert_eq!(back, value);
}

#[test]
fn json_round_trip_utf8() {
    let value: serde_json::Value =
        serde_json::from_str(r#"{"age":3,"name":"a","tags":["x",null,true]}"#).unwrap();
    for raw in ["application/json", "application/json; charset=utf-8"] {
        let content_type = mime(raw);
        let body = value.to_content(&content_type).unwrap();
        assert_eq!(
            body,
            br#"{"age":3,"name":"a","tags":["x",null,true]}"#.to_vec()
        );
        let back = serde_json::Value::from_content(body, &content_type).unwrap();
        assert_eq!(back, value);
    }
}

#[test]
fn json_in_another_charset() {
    let value = serde_json::Value::String("é".to_string());
    let content_type = mime("application/json; charset=windows-1252");
    let body = value.to_content(&content_type).unwrap();
    assert_eq!(body, vec![b'"', 0xe9, b'"']);
    let back: serde_json::Value = body.content_into(&content_type).unwrap();
    assert_eq!(back, value);
    let utf16 = mime("application/json; charset=utf-16le");
    let body = value.to_content(&utf16).unwrap();
    assert_eq!(body, vec![b'"', 0, 0xe9, 0, b'"', 0]);
    assert_eq!(serde_json::Value::from_content(body, &utf16).unwrap(), value);
}

#[test]
fn unregistered_content_type_is_refused() {
    let content_type = mime("application/pdf");
    let err = serde_json::Value::from_content(b"{}".to_vec(), &content_type).unwrap_err();
    assert!(matches!(err, FromContentError::UnsupportedContentType));
    let err = Vec::<(String, String)>::from_content(b"a=b".to_vec(), &content_type).unwrap_err();
    assert!(matches!(err, FromContentError::UnsupportedContentType));
    let err = serde_json::Value::Null.to_content(&content_type).unwrap_err();
    assert!(matches!(err, ToContentError::UnsupportedContentType));
    assert_eq!(ContentTag::of(&content_type), None);
}

#[test]
fn a_codec_serves_its_own_base_type_only() {
    let json = mime("application/json");
    let form = mime("application/x-www-form-urlencoded");
    let err = fields(&[("a", "b")]).to_content(&json).unwrap_err();
    assert!(matches!(err, ToContentError::UnsupportedContentType));
    let err = serde_json::Value::Null.to_content(&form).unwrap_err();
    assert!(matches!(err, ToContentError::UnsupportedContentType));
    let err = serde_json::Value::from_content(b"null".to_vec(), &form).unwrap_err();
    assert!(matches!(err, FromContentError::UnsupportedContentType));
}

#[test]
fn bogus_charset_is_unsupported_both_ways() {
    let content_type = mime("application/json; charset=bogus-charset");
    let err = serde_json::Value::Null.to_content(&content_type).unwrap_err();
    assert!(matches!(err, ToContentError::UnsupportedCharset));
    let err = serde_json::Value::from_content(b"null".to_vec(), &content_type).unwrap_err();
    assert!(matches!(err, FromContentError::UnsupportedCharset));
    let form = mime("application/x-www-form-urlencoded; charset=bogus-charset");
    let err = fields(&[("a", "b")]).to_content(&form).unwrap_err();
    assert!(matches!(err, ToContentError::UnsupportedCharset));
    let err = Vec::<(String, String)>::from_content(b"a=b".to_vec(), &form).unwrap_err();
    assert!(matches!(err, FromContentError::UnsupportedCharset));
}

#[test]
fn charset_name_is_taken_as_written() {
    let content_type = mime("application/json; charset=UTF-8");
    let err = serde_json::Value::Null.to_content(&content_type).unwrap_err();
    assert!(matches!(err, ToContentError::UnsupportedCharset));
    assert!(matches!(
        interfacer_http::content::route(&content_type),
        Route::Transcode(name) if name == "UTF-8"
    ));
    assert!(matches!(
        interfacer_http::content::route(&mime("application/json; charset=utf-8")),
        Route::Direct
    ));
    assert!(matches!(
        interfacer_http::content::route(&mime("application/json")),
        Route::Direct
    ));
}

#[test]
fn wrong_charset_is_not_wrong_shape() {
    let content_type = mime("application/json; charset=gbk");
    let err = serde_json::Value::from_content(vec![b'"', 0x81, b'"'], &content_type).unwrap_err();
    match err {
        FromContentError::Decode(message) => assert!(!message.is_empty()),
        other => panic!("{:?}", other),
    }
    let err = serde_json::Value::from_content(b"{\"a\":".to_vec(), &content_type).unwrap_err();
    match err {
        FromContentError::Codec(message) => assert!(message.contains("EOF")),
        other => panic!("{:?}", other),
    }
    let err = serde_json::Value::from_content(b"{\"a\":".to_vec(), &mime("application/json"))
        .unwrap_err();
    assert!(matches!(err, FromContentError::Codec(_)));
}

#[test]
fn text_that_the_charset_cannot_write() {
    let value = serde_json::Value::String("日本".to_string());
    let err = value
        .to_content(&mime("application/json; charset=windows-1252"))
        .unwrap_err();
    match err {
        ToContentError::Encode(message) => assert!(!message.is_empty()),
        other => panic!("{:?}", other),
    }
}

#[test]
fn form_codec_failure_keeps_its_message() {
    let err = Vec::<(String, String)>::from_content(
        vec![b'a', b'=', b'%', 0xff],
        &mime("application/x-www-form-urlencoded"),
    );
    match err {
        Ok(pairs) => assert_eq!(pairs.len(), 1),
        Err(FromContentError::Codec(message)) => assert!(!message.is_empty()),
        Err(other) => panic!("{:?}", other),
    }
}

#[test]
fn unit_reads_and_writes_nothing() {
    let content_type = mime("application/pdf");
    assert_eq!(().to_content(&content_type).unwrap(), Vec::<u8>::new());
    <()>::from_content(b"anything".to_vec(), &content_type).unwrap();
    let unit: () = b"anything".to_vec().content_into(&content_type).unwrap();
    assert_eq!(unit, ());
}

#[test]
fn content_into_keeps_the_failures() {
    let r: Result<serde_json::Value, FromContentError> =
        b"{".to_vec().content_into(&mime("application/json"));
    assert!(matches!(r, Err(FromContentError::Codec(_))));
    let r: Result<serde_json::Value, FromContentError> =
        b"{}".to_vec().content_into(&mime("text/html"));
    assert!(matches!(r, Err(FromContentError::UnsupportedContentType)));
    let r: Result<serde_json::Value, FromContentError> =
        b"{}".to_vec().content_into(&mime("application/json; charset=nope"));
    assert!(matches!(r, Err(FromContentError::UnsupportedCharset)));
}

#[test]
fn a_codec_of_ones_own() {
    for raw in ["application/xml", "text/xml", "TEXT/XML; charset=utf-8"] {
        let body = to_content::<u32, Decimal>(&42, &mime(raw)).unwrap();
        assert_eq!(body, b"<n>42</n>".to_vec());
        assert_eq!(from_content::<u32, Decimal>(&body, &mime(raw)).unwrap(), 42);
    }
    let utf16 = mime("application/xml; charset=utf-16be");
    let body = to_content::<u32, Decimal>(&7, &utf16).unwrap();
    assert_eq!(body.len(), 16);
    assert_eq!(body[..4], [0, b'<', 0, b'n']);
    assert_eq!(from_content::<u32, Decimal>(&body, &utf16).unwrap(), 7);
    let err = from_content::<u32, Decimal>(b"<n>x</n>", &mime("text/xml")).unwrap_err();
    assert!(matches!(err, FromContentError::Codec(_)));
    let err = to_content::<u32, Decimal>(&1, &mime("application/json")).unwrap_err();
    assert!(matches!(err, ToContentError::UnsupportedContentType));
}

#[test]
fn tags_by_base_type() {
    assert_eq!(ContentTag::of(&mime("application/json")), Some(ContentTag::Json));
    assert_eq!(
        ContentTag::of(&mime("application/x-www-form-urlencoded")),
        Some(ContentTag::Form)
    );
    assert_eq!(ContentTag::of(&mime("application/xml")), Some(ContentTag::Xml));
    assert_eq!(ContentTag::of(&mime("text/xml; charset=gbk")), Some(ContentTag::Xml));
    assert_eq!(ContentTag::of(&mime("Text/HTML")), Some(ContentTag::Html));
    assert_eq!(ContentTag::of(&mime("text/plain")), None);
    assert!(ContentTag::Xml.serves(&mime("text/xml")));
    assert!(!ContentTag::Xml.serves(&mime("text/html")));
}

/// A codec that can do nothing.
struct Stubborn;

impl WriteFormat<Vec<(String, String)>> for Stubborn {
    fn writes() -> ContentTag {
        ContentTag::Xml
    }

    fn write_bytes(_value: &Vec<(String, String)>) -> Result<Vec<u8>, String> {
        Err("no bytes".to_string())
    }

    fn write_text(_value: &Vec<(String, String)>) -> Result<String, String> {
        Err("no text".to_string())
    }
}

impl ReadFormat<Vec<(String, String)>> for Stubborn {
    fn reads() -> ContentTag {
        ContentTag::Xml
    }

    fn read_bytes(_data: &[u8]) -> Result<Vec<(String, String)>, String> {
        Err("no value of bytes".to_string())
    }

    fn read_text(_text: &str) -> Result<Vec<(String, String)>, String> {
        Err("no value of text".to_string())
    }
}

#[test]
fn form_in_another_charset() {
    let value = fields(&[("cheese", "comté"), ("q", "é")]);
    let content_type = mime("application/x-www-form-urlencoded; charset=utf-16be");
    let body = value.to_content(&content_type).unwrap();
    let text = "cheese=comt%C3%A9&q=%C3%A9";
    let expected: Vec<u8> = text.bytes().flat_map(|b| [0u8, b]).collect();
    assert_eq!(body, expected);
    let back = Vec::<(String, String)>::from_content(body, &content_type).unwrap();
    assert_eq!(back, value);
}

#[test]
fn codec_failures_keep_their_message() {
    let value = fields(&[("a", "b")]);
    let err = to_content::<_, Stubborn>(&value, &mime("text/xml")).unwrap_err();
    assert!(matches!(&err, ToContentError::Codec(m) if m == "no bytes"));
    assert_eq!(err.message(), "no bytes");
    let err = to_content::<_, Stubborn>(&value, &mime("text/xml; charset=gbk")).unwrap_err();
    assert!(matches!(&err, ToContentError::Codec(m) if m == "no text"));
    let err = to_content::<_, Stubborn>(&value, &mime("text/xml; charset=nope")).unwrap_err();
    assert!(matches!(&err, ToContentError::Codec(m) if m == "no text"));
    let err = from_content::<Vec<(String, String)>, Stubborn>(b"x", &mime("text/xml")).unwrap_err();
    assert!(matches!(&err, FromContentError::Codec(m) if m == "no value of bytes"));
    assert_eq!(err.message(), "no value of bytes");
    let err = from_content::<Vec<(String, String)>, Stubborn>(b"x", &mime("text/xml; charset=gbk"))
        .unwrap_err();
    assert!(matches!(&err, FromContentError::Codec(m) if m == "no value of text"));
}

#[test]
fn among_three_codecs() {
    let value = fields(&[("a", "b")]);
    let body = to_content_among::<_, Stubborn, Form, Stubborn>(
        &value,
        &mime("application/x-www-form-urlencoded"),
    )
    .unwrap();
    assert_eq!(body, b"a=b".to_vec());
    let back = from_content_among::<Vec<(String, String)>, Stubborn, Form, Stubborn>(
        &body,
        &mime("application/x-www-form-urlencoded"),
    )
    .unwrap();
    assert_eq!(back, value);
    let err = to_content_among::<_, Form, Form, Stubborn>(&value, &mime("text/xml")).unwrap_err();
    assert!(matches!(err, ToContentError::Codec(_)));
    let err =
        to_content_among::<_, Form, Form, Form>(&value, &mime("application/json")).unwrap_err();
    assert!(matches!(err, ToContentError::UnsupportedContentType));
    let err = to_content_among::<_, Form, Form, Form>(&value, &mime("text/html")).unwrap_err();
    assert!(matches!(err, ToContentError::UnsupportedDirection));
    let err =
        to_content_among::<_, Form, Form, Form>(&value, &mime("application/pdf")).unwrap_err();
    assert!(matches!(err, ToContentError::UnsupportedContentType));
    for raw in ["text/html", "application/pdf", "application/json"] {
        let err = from_content_among::<Vec<(String, String)>, Form, Form, Form>(b"a=b", &mime(raw))
            .unwrap_err();
        assert!(matches!(err, FromContentError::UnsupportedContentType), "{}", raw);
    }
    let json = serde_json::Value::Bool(true);
    let body =
        to_content_among::<_, Json, Json, Json>(&json, &mime("application/json")).unwrap();
    assert_eq!(body, b"true".to_vec());
}

#[test]
fn faults_of_transcoding_keep_their_kind() {
    assert!(matches!(
        ToContentError::from(TranscodeError::Unsupported),
        ToContentError::UnsupportedCharset
    ));
    assert!(matches!(
        ToContentError::from(TranscodeError::Disabled),
        ToContentError::TranscodingDisabled
    ));
    assert!(matches!(
        ToContentError::from(TranscodeError::Malformed("m".to_string())),
        ToContentError::Encode(m) if m == "m"
    ));
    assert!(matches!(
        FromContentError::from(TranscodeError::Unsupported),
        FromContentError::UnsupportedCharset
    ));
    assert!(matches!(
        FromContentError::from(TranscodeError::Disabled),
        FromContentError::TranscodingDisabled
    ));
    assert!(matches!(
        FromContentError::from(TranscodeError::Malformed("m".to_string())),
        FromContentError::Decode(m) if m == "m"
    ));
}

#[test]
fn every_failure_has_its_words() {
    assert_eq!(
        ToContentError::UnsupportedContentType.message(),
        "unsupported content type"
    );
    assert_eq!(ToContentError::UnsupportedCharset.message(), "unsupported encoding");
    assert_eq!(
        ToContentError::UnsupportedDirection.message(),
        "content type cannot be written"
    );
    assert_eq!(
        ToContentError::TranscodingDisabled.message(),
        "encoding support is disabled"
    );
    assert_eq!(ToContentError::Encode("e".to_string()).message(), "e");
    assert_eq!(ToContentError::Codec("c".to_string()).message(), "c");
    assert_eq!(
        FromContentError::UnsupportedContentType.message(),
        "unsupported content type"
    );
    assert_eq!(FromContentError::UnsupportedCharset.message(), "unsupported encoding");
    assert_eq!(
        FromContentError::UnsupportedDirection.message(),
        "content type cannot be read"
    );
    assert_eq!(
        FromContentError::TranscodingDisabled.message(),
        "encoding support is disabled"
    );
    assert_eq!(FromContentError::Decode("d".to_string()).message(), "d");
    assert_eq!(FromContentError::Codec("c".to_string()).message(), "c");
}

struct Github;

impl HttpService for Github {
    fn get_base_url(&self) -> &str {
        "https://api.github.com"
    }
}

#[test]
fn a_service_has_a_base_address() {
    assert_eq!(Github.get_base_url(), "https://api.github.com");
}
