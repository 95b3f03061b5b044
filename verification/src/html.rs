//! HTML bodies: `text/html`.
//!
//! An HTML body is read and never written. Reading has two steps. The body
//! is made into the text of the document: bytes in UTF-8 are taken as they
//! are, bytes in another charset are read through the catalog. Then the
//! value is drawn from that text, by rules that belong to the value's type.

use crate::content::{
    body_text, read, route, route_of, tag_of, text_of_body, value_of, value_read,
    ContentTag, FromContent, Route, RouteView, ToContent,
};
use crate::error::{FromContentError, FromContentFault, ToContentError};
use crate::mime::{MimeType, MimeTypeView};
use vstd::prelude::*;
use vstd::string::to_string_from_display_ensures;
use vstd::utf8::{decode_utf8, valid_utf8};

verus! {

/// `std::string::FromUtf8Error`: why bytes are no UTF-8.
#[verifier::external_type_specification]
#[verifier::external_body]
pub struct ExFromUtf8Error(std::string::FromUtf8Error);

/// The failure with which `String::from_utf8` refuses `data`.
pub uninterp spec fn utf8_failure(data: Seq<u8>) -> std::string::FromUtf8Error;

/// `String::from_utf8` takes bytes that are UTF-8 for the text that they
/// spell, and refuses all others.
pub assume_specification[ String::from_utf8 ](vec: Vec<u8>) -> (r: Result<
    String,
    std::string::FromUtf8Error,
>)
    ensures
        match r {
            Ok(text) => valid_utf8(vec@) && text@ == decode_utf8(vec@),
            Err(e) => !valid_utf8(vec@) && e == utf8_failure(vec@),
        },
;

/// `message` is what the failure `e` says of itself.
pub open spec fn utf8_says(e: std::string::FromUtf8Error, message: Seq<char>) -> bool {
    exists|said: String|
        said@ == message && #[trigger] to_string_from_display_ensures::<
            std::string::FromUtf8Error,
        >(&e, said)
}

/// The rules by which values of the type `V` are drawn from the text of an
/// HTML document.
pub trait ReadMarkup<V> {
    /// Draws the value from `markup`; a failure is the message of what was
    /// not found or could not be read.
    fn read_markup(markup: &str) -> Result<V, String>;
}

/// Text or a failure, the text as characters.
pub open spec fn text_found(r: Result<String, FromContentError>) -> Result<
    Seq<char>,
    FromContentError,
> {
    match r {
        Ok(text) => Ok(text@),
        Err(e) => Err(e),
    }
}

/// What reading `data` as the text of an HTML document gives. A base type
/// other than `text/html` is refused. On the direct route the bytes must be
/// UTF-8 and are the text; on the other they are read as text of the
/// charset. Bytes that are no text are a failure to decode, with its
/// message.
pub open spec fn markup_gives(
    data: Seq<u8>,
    content_type: MimeTypeView,
    r: Result<Seq<char>, FromContentError>,
) -> bool {
    if tag_of(content_type.base) != Some(ContentTag::Html) {
        read(r) == Err::<Seq<char>, FromContentFault>(FromContentFault::UnsupportedContentType)
    } else {
        match route_of(content_type.params) {
            RouteView::Direct => if valid_utf8(data) {
                read(r) == Ok::<Seq<char>, FromContentFault>(decode_utf8(data))
            } else {
                r matches Err(FromContentError::Decode(message)) && utf8_says(
                    utf8_failure(data),
                    message@,
                )
            },
            RouteView::Transcode(charset) => read(r) == body_text(data, charset),
        }
    }
}

/// What reading `data` as a value gives: the failure to read it as the text
/// of a document or, where it is one, what comes of drawing the value from
/// that text.
pub open spec fn html_gives<V, F: ReadMarkup<V>>(
    data: Seq<u8>,
    content_type: MimeTypeView,
    r: Result<V, FromContentError>,
) -> bool {
    exists|text: Result<Seq<char>, FromContentError>| #[trigger]
        markup_gives(data, content_type, text) && match text {
            Err(e) => read(r) == Err::<V, FromContentFault>(e@),
            Ok(markup) => exists|t: &str, native: Result<V, String>|
                t@ == markup && call_ensures(F::read_markup, (t,), native) && read(r)
                    == value_read(native),
        }
}

/// Reads a body of `content_type` as the text of an HTML document.
pub fn markup(data: Vec<u8>, content_type: &MimeType) -> (r: Result<String, FromContentError>)
    ensures
        markup_gives(data@, content_type@, text_found(r)),
{
    if !ContentTag::Html.serves(content_type) {
        return Err(FromContentError::UnsupportedContentType);
    }
    match route(content_type) {
        Route::Direct => match String::from_utf8(data) {
            Ok(text) => Ok(text),
            Err(e) => Err(FromContentError::Decode(e.to_string())),
        },
        Route::Transcode(charset) => text_of_body(data.as_slice(), charset.as_str()),
    }
}

/// Reads a body of `content_type` as a value that HTML spells.
pub fn from_content<V, F: ReadMarkup<V>>(data: Vec<u8>, content_type: &MimeType) -> (r: Result<
    V,
    FromContentError,
>)
    ensures
        html_gives::<V, F>(data@, content_type@, r),
{
    let text = markup(data, content_type);
    match text {
        Err(e) => {
            let r = Err(e);
            assert(markup_gives(data@, content_type@, text_found(text)));
            r
        },
        Ok(found) => {
            let r = value_of(F::read_markup(found.as_str()));
            assert(markup_gives(data@, content_type@, text_found(text)));
            r
        },
    }
}

/// Refuses: no value is written as HTML, whatever the content type says.
pub fn to_content<T>(value: &T, content_type: &MimeType) -> (r: Result<Vec<u8>, ToContentError>)
    ensures
        r matches Err(ToContentError::UnsupportedDirection),
{
    Err(ToContentError::UnsupportedDirection)
}

/// The text of an HTML document, as it was read from a body.
#[derive(Debug)]
pub struct HtmlDocument {
    text: String,
}

impl View for HtmlDocument {
    type V = Seq<char>;

    closed spec fn view(&self) -> Seq<char> {
        self.text@
    }
}

impl HtmlDocument {
    /// The text of the document.
    pub fn as_str(&self) -> (r: &str)
        ensures
            r@ == self@,
    {
        self.text.as_str()
    }

    /// The text of the document, for keeps.
    pub fn into_string(self) -> (r: String)
        ensures
            r@ == self@,
    {
        self.text
    }
}

impl ReadMarkup<HtmlDocument> for HtmlDocument {
    /// The document is its text: nothing is drawn out and nothing fails.
    fn read_markup(markup: &str) -> (r: Result<HtmlDocument, String>)
        ensures
            r matches Ok(document) && document@ == markup@,
    {
        Ok(HtmlDocument { text: String::from_str(markup) })
    }
}

impl FromContent for HtmlDocument {
    /// Reads a body of `content_type` as an HTML document.
    fn from_content(data: Vec<u8>, content_type: &MimeType) -> (r: Result<
        HtmlDocument,
        FromContentError,
    >)
        ensures
            markup_gives(
                data@,
                content_type@,
                match r {
                    Ok(document) => Ok(document@),
                    Err(e) => Err(e),
                },
            ),
    {
        match markup(data, content_type) {
            Ok(text) => Ok(HtmlDocument { text }),
            Err(e) => Err(e),
        }
    }
}

impl ToContent for HtmlDocument {
    /// Refuses: a document is read and never written.
    fn to_content(&self, content_type: &MimeType) -> (r: Result<Vec<u8>, ToContentError>)
        ensures
            r matches Err(ToContentError::UnsupportedDirection),
    {
        to_content(self, content_type)
    }
}

} // verus!
