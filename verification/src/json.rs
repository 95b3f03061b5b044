//! JSON bodies: `application/json`.
//!
//! The value is a `serde_json::Value`, which stands for any JSON document.

use crate::content::{
    body_text, from_content, read, route_of, tag_of, text_body, to_content, written, ContentTag,
    FromContent, ReadFormat, RouteView, ToContent, WriteFormat,
};
use crate::error::{FromContentError, FromContentFault, ToContentError, ToContentFault};
use crate::mime::{MimeType, MimeTypeView};
use vstd::prelude::*;
use vstd::string::to_string_from_display_ensures;

verus! {

/// `serde_json::Value`: a JSON document, carried as it is.
#[verifier::external_type_specification]
#[verifier::external_body]
pub struct ExJsonValue(serde_json::Value);

/// `serde_json::Error`: why a document was not written or not read.
#[verifier::external_type_specification]
#[verifier::external_body]
pub struct ExJsonError(serde_json::Error);

/// What `serde_json::to_vec` returns for `value`.
pub uninterp spec fn json_bytes(value: serde_json::Value) -> Result<Seq<u8>, serde_json::Error>;

/// What `serde_json::to_string` returns for `value`.
pub uninterp spec fn json_text(value: serde_json::Value) -> Result<Seq<char>, serde_json::Error>;

/// What `serde_json::from_slice` reads from `data`.
pub uninterp spec fn json_of_bytes(data: Seq<u8>) -> Result<serde_json::Value, serde_json::Error>;

/// What `serde_json::from_str` reads from `text`.
pub uninterp spec fn json_of_text(text: Seq<char>) -> Result<serde_json::Value, serde_json::Error>;

/// `message` is what the failure `e` says of itself.
pub open spec fn json_says(e: serde_json::Error, message: Seq<char>) -> bool {
    exists|said: String|
        said@ == message && #[trigger] to_string_from_display_ensures::<serde_json::Error>(
            &e,
            said,
        )
}

/// `serde_json::to_vec`: the document as bytes.
#[verifier::external_body]
fn json_to_vec(value: &serde_json::Value) -> (r: Result<Vec<u8>, serde_json::Error>)
    ensures
        match r {
            Ok(bytes) => json_bytes(*value) == Ok::<Seq<u8>, serde_json::Error>(bytes@),
            Err(e) => json_bytes(*value) == Err::<Seq<u8>, serde_json::Error>(e),
        },
{
    serde_json::to_vec(value)
}

/// `serde_json::to_string`: the document as text.
#[verifier::external_body]
fn json_to_string(value: &serde_json::Value) -> (r: Result<String, serde_json::Error>)
    ensures
        match r {
            Ok(text) => json_text(*value) == Ok::<Seq<char>, serde_json::Error>(text@),
            Err(e) => json_text(*value) == Err::<Seq<char>, serde_json::Error>(e),
        },
{
    serde_json::to_string(value)
}

/// `serde_json::from_slice`: the document that the bytes spell.
#[verifier::external_body]
fn json_from_slice(data: &[u8]) -> (r: Result<serde_json::Value, serde_json::Error>)
    ensures
        r == json_of_bytes(data@),
{
    serde_json::from_slice(data)
}

/// `serde_json::from_str`: the document that the text spells.
#[verifier::external_body]
fn json_from_str(text: &str) -> (r: Result<serde_json::Value, serde_json::Error>)
    ensures
        r == json_of_text(text@),
{
    serde_json::from_str(text)
}

/// The codec for JSON documents.
pub struct Json;

impl WriteFormat<serde_json::Value> for Json {
    fn writes() -> (t: ContentTag)
        ensures
            t == ContentTag::Json,
    {
        ContentTag::Json
    }

    fn write_bytes(value: &serde_json::Value) -> (r: Result<Vec<u8>, String>)
        ensures
            match r {
                Ok(bytes) => json_bytes(*value) == Ok::<Seq<u8>, serde_json::Error>(bytes@),
                Err(message) => json_bytes(*value) matches Err(e) && json_says(e, message@),
            },
    {
        match json_to_vec(value) {
            Ok(bytes) => Ok(bytes),
            Err(e) => Err(e.to_string()),
        }
    }

    fn write_text(value: &serde_json::Value) -> (r: Result<String, String>)
        ensures
            match r {
                Ok(text) => json_text(*value) == Ok::<Seq<char>, serde_json::Error>(text@),
                Err(message) => json_text(*value) matches Err(e) && json_says(e, message@),
            },
    {
        match json_to_string(value) {
            Ok(text) => Ok(text),
            Err(e) => Err(e.to_string()),
        }
    }
}

impl ReadFormat<serde_json::Value> for Json {
    fn reads() -> (t: ContentTag)
        ensures
            t == ContentTag::Json,
    {
        ContentTag::Json
    }

    fn read_bytes(data: &[u8]) -> (r: Result<serde_json::Value, String>)
        ensures
            match r {
                Ok(value) => json_of_bytes(data@) == Ok::<serde_json::Value, serde_json::Error>(
                    value,
                ),
                Err(message) => json_of_bytes(data@) matches Err(e) && json_says(e, message@),
            },
    {
        match json_from_slice(data) {
            Ok(value) => Ok(value),
            Err(e) => Err(e.to_string()),
        }
    }

    fn read_text(text: &str) -> (r: Result<serde_json::Value, String>)
        ensures
            match r {
                Ok(value) => json_of_text(text@) == Ok::<serde_json::Value, serde_json::Error>(
                    value,
                ),
                Err(message) => json_of_text(text@) matches Err(e) && json_says(e, message@),
            },
    {
        match json_from_str(text) {
            Ok(value) => Ok(value),
            Err(e) => Err(e.to_string()),
        }
    }
}

/// What writing `value` as a body of `content_type` gives. A base type other
/// than `application/json` is refused. On the direct route the body is the
/// document as bytes; on the other it is the document as text, in the
/// charset. Where the document cannot be written, the failure is the
/// codec's, with its message.
pub open spec fn json_body(
    value: serde_json::Value,
    content_type: MimeTypeView,
    r: Result<Vec<u8>, ToContentError>,
) -> bool {
    if tag_of(content_type.base) != Some(ContentTag::Json) {
        written(r) == Err::<Seq<u8>, ToContentFault>(ToContentFault::UnsupportedContentType)
    } else {
        match route_of(content_type.params) {
            RouteView::Direct => match json_bytes(value) {
                Ok(bytes) => written(r) == Ok::<Seq<u8>, ToContentFault>(bytes),
                Err(e) => r matches Err(ToContentError::Codec(message)) && json_says(e, message@),
            },
            RouteView::Transcode(charset) => match json_text(value) {
                Ok(text) => written(r) == text_body(text, charset),
                Err(e) => r matches Err(ToContentError::Codec(message)) && json_says(e, message@),
            },
        }
    }
}

/// What reading `data` as a body of `content_type` gives. A base type other
/// than `application/json` is refused. On the direct route the bytes are
/// read as a document; on the other they are first read as text of the
/// charset, and a failure there is no failure of the codec.
pub open spec fn json_value(
    data: Seq<u8>,
    content_type: MimeTypeView,
    r: Result<serde_json::Value, FromContentError>,
) -> bool {
    if tag_of(content_type.base) != Some(ContentTag::Json) {
        read(r) == Err::<serde_json::Value, FromContentFault>(
            FromContentFault::UnsupportedContentType,
        )
    } else {
        match route_of(content_type.params) {
            RouteView::Direct => match json_of_bytes(data) {
                Ok(value) => r == Ok::<serde_json::Value, FromContentError>(value),
                Err(e) => r matches Err(FromContentError::Codec(message)) && json_says(e, message@),
            },
            RouteView::Transcode(charset) => match body_text(data, charset) {
                Err(fault) => read(r) == Err::<serde_json::Value, FromContentFault>(fault),
                Ok(text) => match json_of_text(text) {
                    Ok(value) => r == Ok::<serde_json::Value, FromContentError>(value),
                    Err(e) => r matches Err(FromContentError::Codec(message)) && json_says(
                        e,
                        message@,
                    ),
                },
            },
        }
    }
}

/// A document that was written comes back. Where the body is JSON in UTF-8
/// and `serde_json` reads the bytes that it writes for `value` as `value`,
/// reading the body that was made of `value` gives `value`.
pub proof fn lemma_json_round_trip(
    value: serde_json::Value,
    content_type: MimeTypeView,
    body: Vec<u8>,
    back: Result<serde_json::Value, FromContentError>,
)
    requires
        tag_of(content_type.base) == Some(ContentTag::Json),
        route_of(content_type.params) is Direct,
        json_bytes(value) matches Ok(bytes) ==> json_of_bytes(bytes) == Ok::<
            serde_json::Value,
            serde_json::Error,
        >(value),
        json_body(value, content_type, Ok::<Vec<u8>, ToContentError>(body)),
        json_value(body@, content_type, back),
    ensures
        back == Ok::<serde_json::Value, FromContentError>(value),
{
}

impl ToContent for serde_json::Value {
    /// Writes the document as a body of `content_type`.
    fn to_content(&self, content_type: &MimeType) -> (r: Result<Vec<u8>, ToContentError>)
        ensures
            json_body(*self, content_type@, r),
    {
        to_content::<serde_json::Value, Json>(self, content_type)
    }
}

impl FromContent for serde_json::Value {
    /// Reads a body of `content_type` as a document.
    fn from_content(data: Vec<u8>, content_type: &MimeType) -> (r: Result<
        serde_json::Value,
        FromContentError,
    >)
        ensures
            json_value(data@, content_type@, r),
    {
        from_content::<serde_json::Value, Json>(data.as_slice(), content_type)
    }
}

} // verus!
