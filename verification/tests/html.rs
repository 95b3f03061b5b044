use interfacer_http::content::{ContentInto, FromContent, ToContent};
use interfacer_http::error::{FromContentError, ToContentError};
use interfacer_http::html::{from_content, markup, to_content, HtmlDocument, ReadMarkup};
use interfacer_http::mime::MimeType;
use unhtml::scraper::Selector;
use unhtml::{ElemIter, FromHtml, Select, Text};

#[derive(Debug, PartialEq)]
struct Link {
    href: String,
    text: String,
}

impl FromHtml for Link {
    fn from_elements(select: ElemIter) -> unhtml::Result<Self> {
        let elements: Vec<_> = select.collect();
        let anchor = Selector::parse("a").unwrap();
        let href: String = elements
            .clone()
            .into_iter()
            .select_elements(&anchor)
            .attr("href")?;
        let text: String = elements
            .clone()
            .into_iter()
            .select_elements(&anchor)
            .inner_text()?;
        Ok(Link { href, text })
    }
}

/// The rules of `unhtml` for any type that has them.
struct Unhtml;

impl<T: FromHtml> ReadMarkup<T> for Unhtml {
    fn read_markup(markup: &str) -> Result<T, String> {
        T::from_html(markup).map_err(|e| e.to_string())
    }
}

fn mime(raw: &str) -> MimeType {
    MimeType::parse(raw).unwrap()
}

const FRAGMENT: &str = r#"<div><a href="https://github.com"> Github </a></div>"#;

#[test]
fn html_optional_value() {
    let page = r#"<ul><li><a href="/a">A</a></li><li><a href="/b"> B </a></li></ul>"#;
    let first = from_content::<Option<Link>, Unhtml>(page.as_bytes().to_vec(), &mime("text/html"))
        .unwrap();
    assert_eq!(
        first,
        Some(Link {
            href: "/a".to_string(),
            text: "A".to_string(),
        })
    );
    let none = from_content::<Option<Link>, Unhtml>(b"<p></p>".to_vec(), &mime("text/html"))
        .unwrap();
    assert_eq!(none, None);
}

#[test]
fn html_fragment_with_matching_markup() {
    let link: Link =
        from_content::<Link, Unhtml>(FRAGMENT.as_bytes().to_vec(), &mime("text/html")).unwrap();
    assert_eq!(
        link,
        Link {
            href: "https://github.com".to_string(),
            text: "Github".to_string(),
        }
    );
    let again: Link = from_content::<Link, Unhtml>(
        FRAGMENT.as_bytes().to_vec(),
        &mime("text/html; charset=utf-8"),
    )
    .unwrap();
    assert_eq!(again, link);
}

#[test]
fn html_fragment_missing_a_field() {
    let err = from_content::<Link, Unhtml>(b"<div><p>no link</p></div>".to_vec(), &mime("text/html"))
        .unwrap_err();
    match err {
        FromContentError::Codec(message) => assert_eq!(message, "source not found"),
        other => panic!("{:?}", other),
    }
    let err = from_content::<Link, Unhtml>(b"<div><a>no address</a></div>".to_vec(), &mime("text/html"))
        .unwrap_err();
    match err {
        FromContentError::Codec(message) => assert!(message.contains("href")),
        other => panic!("{:?}", other),
    }
}

#[test]
fn html_is_never_written() {
    let link = Link {
        href: "https://github.com".to_string(),
        text: "Github".to_string(),
    };
    for raw in ["text/html", "text/html; charset=gbk", "application/json"] {
        let err = to_content(&link, &mime(raw)).unwrap_err();
        assert!(matches!(err, ToContentError::UnsupportedDirection));
        assert_eq!(err.message(), "content type cannot be written");
    }
    let document = HtmlDocument::from_content(b"<p>x</p>".to_vec(), &mime("text/html")).unwrap();
    let err = document.to_content(&mime("text/html")).unwrap_err();
    assert!(matches!(err, ToContentError::UnsupportedDirection));
}

#[test]
fn html_wants_its_own_base_type() {
    for raw in ["application/json", "text/xml", "application/pdf", "text/htm"] {
        let err = from_content::<Link, Unhtml>(FRAGMENT.as_bytes().to_vec(), &mime(raw)).unwrap_err();
        assert!(matches!(err, FromContentError::UnsupportedContentType));
        let err = markup(FRAGMENT.as_bytes().to_vec(), &mime(raw)).unwrap_err();
        assert!(matches!(err, FromContentError::UnsupportedContentType));
        assert_eq!(err.message(), "unsupported content type");
    }
}

#[test]
fn html_in_another_charset() {
    let bytes = vec![b'<', b'p', b'>', 0xd6, 0xd0, b'<', b'/', b'p', b'>'];
    let text = markup(bytes.clone(), &mime("text/html; charset=gbk")).unwrap();
    assert_eq!(text, "<p>中</p>");
    let document: HtmlDocument = bytes.clone().content_into(&mime("TEXT/HTML; Charset=gbk")).unwrap();
    assert_eq!(document.as_str(), "<p>中</p>");
    assert_eq!(document.into_string(), "<p>中</p>");
    let err = markup(bytes.clone(), &mime("text/html; charset=bogus-charset")).unwrap_err();
    assert!(matches!(err, FromContentError::UnsupportedCharset));
    let err = markup(vec![b'<', 0x81], &mime("text/html; charset=gbk")).unwrap_err();
    assert!(matches!(err, FromContentError::Decode(_)));
}

#[test]
fn html_that_is_no_utf8() {
    let bytes = vec![b'<', b'p', b'>', 0xd6, 0xd0];
    for raw in ["text/html", "text/html; charset=utf-8"] {
        let err = markup(bytes.clone(), &mime(raw)).unwrap_err();
        match err {
            FromContentError::Decode(message) => {
                assert_eq!(message, "invalid utf-8 sequence of 1 bytes from index 3")
            }
            other => panic!("{:?}", other),
        }
        let err = from_content::<Link, Unhtml>(bytes.clone(), &mime(raw)).unwrap_err();
        assert!(matches!(err, FromContentError::Decode(_)));
    }
    let text = markup("<p>中</p>".as_bytes().to_vec(), &mime("text/html")).unwrap();
    assert_eq!(text, "<p>中</p>");
}

#[test]
fn a_document_is_its_text() {
    let document = HtmlDocument::read_markup("<p>x</p>").unwrap();
    assert_eq!(document.as_str(), "<p>x</p>");
    let document =
        from_content::<HtmlDocument, HtmlDocument>(b"".to_vec(), &mime("text/html")).unwrap();
    assert_eq!(document.as_str(), "");
}
