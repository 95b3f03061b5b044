//! Form bodies: `application/x-www-form-urlencoded`.
//!
//! The value is the list of the form's fields, each a pair of name and
//! value, in the order in which they are written.

use crate::content::{
    body_text, from_content, read, route_of, tag_of, text_body, to_content, written, ContentTag,
    FromContent, ReadFormat, RouteView, ToContent, WriteFormat,
};
use crate::error::{FromContentError, FromContentFault, ToContentError, ToContentFault};
use crate::mime::{MimeType, MimeTypeView};
use crate::text::pairs_view;
use vstd::prelude::*;
use vstd::string::to_string_from_display_ensures;
use vstd::utf8::encode_utf8;

verus! {

/// `serde_urlencoded::ser::Error`: why fields were not written.
#[verifier::external_type_specification]
#[verifier::external_body]
pub struct ExFormWriteError(serde_urlencoded::ser::Error);

/// `serde_urlencoded::de::Error`: why fields were not read.
#[verifier::external_type_specification]
#[verifier::external_body]
pub struct ExFormReadError(serde_urlencoded::de::Error);

/// What `serde_urlencoded::to_string` returns for the fields `pairs`.
pub uninterp spec fn form_text(pairs: Seq<(Seq<char>, Seq<char>)>) -> Result<
    Seq<char>,
    serde_urlencoded::ser::Error,
>;

/// The fields that `serde_urlencoded::from_bytes` reads from `data`.
pub uninterp spec fn form_of_bytes(data: Seq<u8>) -> Result<
    Seq<(Seq<char>, Seq<char>)>,
    serde_urlencoded::de::Error,
>;

/// The fields that `serde_urlencoded::from_str` reads from `text`.
pub uninterp spec fn form_of_text(text: Seq<char>) -> Result<
    Seq<(Seq<char>, Seq<char>)>,
    serde_urlencoded::de::Error,
>;

/// `message` is what the failure `e` says of itself.
pub open spec fn form_write_says(e: serde_urlencoded::ser::Error, message: Seq<char>) -> bool {
    exists|said: String|
        said@ == message && #[trigger] to_string_from_display_ensures::<
            serde_urlencoded::ser::Error,
        >(&e, said)
}

/// `message` is what the failure `e` says of itself.
pub open spec fn form_read_says(e: serde_urlencoded::de::Error, message: Seq<char>) -> bool {
    exists|said: String|
        said@ == message && #[trigger] to_string_from_display_ensures::<
            serde_urlencoded::de::Error,
        >(&e, said)
}

/// `serde_urlencoded::to_string`: the fields as one line of text.
#[verifier::external_body]
fn form_to_string(pairs: &Vec<(String, String)>) -> (r: Result<
    String,
    serde_urlencoded::ser::Error,
>)
    ensures
        match r {
            Ok(text) => form_text(pairs_view(pairs@)) == Ok::<
                Seq<char>,
                serde_urlencoded::ser::Error,
            >(text@),
            Err(e) => form_text(pairs_view(pairs@)) == Err::<
                Seq<char>,
                serde_urlencoded::ser::Error,
            >(e),
        },
{
    serde_urlencoded::to_string(pairs)
}

/// `serde_urlencoded::from_bytes`: the fields that the bytes spell.
#[verifier::external_body]
fn form_from_bytes(data: &[u8]) -> (r: Result<Vec<(String, String)>, serde_urlencoded::de::Error>)
    ensures
        match r {
            Ok(pairs) => form_of_bytes(data@) == Ok::<
                Seq<(Seq<char>, Seq<char>)>,
                serde_urlencoded::de::Error,
            >(pairs_view(pairs@)),
            Err(e) => form_of_bytes(data@) == Err::<
                Seq<(Seq<char>, Seq<char>)>,
                serde_urlencoded::de::Error,
            >(e),
        },
{
    serde_urlencoded::from_bytes::<Vec<(String, String)>>(data)
}

/// `serde_urlencoded::from_str`: the fields that the text spells.
#[verifier::external_body]
fn form_from_str(text: &str) -> (r: Result<Vec<(String, String)>, serde_urlencoded::de::Error>)
    ensures
        match r {
            Ok(pairs) => form_of_text(text@) == Ok::<
                Seq<(Seq<char>, Seq<char>)>,
                serde_urlencoded::de::Error,
            >(pairs_view(pairs@)),
            Err(e) => form_of_text(text@) == Err::<
                Seq<(Seq<char>, Seq<char>)>,
                serde_urlencoded::de::Error,
            >(e),
        },
{
    serde_urlencoded::from_str::<Vec<(String, String)>>(text)
}

/// The codec for the fields of a form.
pub struct Form;

impl WriteFormat<Vec<(String, String)>> for Form {
    fn writes() -> (t: ContentTag)
        ensures
            t == ContentTag::Form,
    {
        ContentTag::Form
    }

    /// The line of text that the fields make, as the bytes of its UTF-8.
    fn write_bytes(value: &Vec<(String, String)>) -> (r: Result<Vec<u8>, String>)
        ensures
            match r {
                Ok(bytes) => form_text(pairs_view(value@)) matches Ok(text) && bytes@
                    == encode_utf8(text),
                Err(message) => form_text(pairs_view(value@)) matches Err(e) && form_write_says(
                    e,
                    message@,
                ),
            },
    {
        match form_to_string(value) {
            Ok(text) => Ok(text.as_str().as_bytes_vec()),
            Err(e) => Err(e.to_string()),
        }
    }

    fn write_text(value: &Vec<(String, String)>) -> (r: Result<String, String>)
        ensures
            match r {
                Ok(text) => form_text(pairs_view(value@)) == Ok::<
                    Seq<char>,
                    serde_urlencoded::ser::Error,
                >(text@),
                Err(message) => form_text(pairs_view(value@)) matches Err(e) && form_write_says(
                    e,
                    message@,
                ),
            },
    {
        match form_to_string(value) {
            Ok(text) => Ok(text),
            Err(e) => Err(e.to_string()),
        }
    }
}

impl ReadFormat<Vec<(String, String)>> for Form {
    fn reads() -> (t: ContentTag)
        ensures
            t == ContentTag::Form,
    {
        ContentTag::Form
    }

    fn read_bytes(data: &[u8]) -> (r: Result<Vec<(String, String)>, String>)
        ensures
            match r {
                Ok(pairs) => form_of_bytes(data@) == Ok::<
                    Seq<(Seq<char>, Seq<char>)>,
                    serde_urlencoded::de::Error,
                >(pairs_view(pairs@)),
                Err(message) => form_of_bytes(data@) matches Err(e) && form_read_says(e, message@),
            },
    {
        match form_from_bytes(data) {
            Ok(pairs) => Ok(pairs),
            Err(e) => Err(e.to_string()),
        }
    }

    fn read_text(text: &str) -> (r: Result<Vec<(String, String)>, String>)
        ensures
            match r {
                Ok(pairs) => form_of_text(text@) == Ok::<
                    Seq<(Seq<char>, Seq<char>)>,
                    serde_urlencoded::de::Error,
                >(pairs_view(pairs@)),
                Err(message) => form_of_text(text@) matches Err(e) && form_read_says(e, message@),
            },
    {
        match form_from_str(text) {
            Ok(pairs) => Ok(pairs),
            Err(e) => Err(e.to_string()),
        }
    }
}

/// What writing the fields `pairs` as a body of `content_type` gives. A base
/// type other than `application/x-www-form-urlencoded` is refused. On the
/// direct route the body is the line of text that the fields make, in
/// UTF-8; on the other it is that line in the charset. Where the fields
/// cannot be written, the failure is the codec's, with its message.
pub open spec fn form_body(
    pairs: Seq<(Seq<char>, Seq<char>)>,
    content_type: MimeTypeView,
    r: Result<Vec<u8>, ToContentError>,
) -> bool {
    if tag_of(content_type.base) != Some(ContentTag::Form) {
        written(r) == Err::<Seq<u8>, ToContentFault>(ToContentFault::UnsupportedContentType)
    } else {
        match form_text(pairs) {
            Err(e) => r matches Err(ToContentError::Codec(message)) && form_write_says(
                e,
                message@,
            ),
            Ok(text) => match route_of(content_type.params) {
                RouteView::Direct => written(r) == Ok::<Seq<u8>, ToContentFault>(
                    encode_utf8(text),
                ),
                RouteView::Transcode(charset) => written(r) == text_body(text, charset),
            },
        }
    }
}

/// What reading `data` as a body of `content_type` gives. A base type other
/// than `application/x-www-form-urlencoded` is refused. On the direct route
/// the bytes are read as fields; on the other they are first read as text
/// of the charset, and a failure there is no failure of the codec.
pub open spec fn form_value(
    data: Seq<u8>,
    content_type: MimeTypeView,
    r: Result<Vec<(String, String)>, FromContentError>,
) -> bool {
    if tag_of(content_type.base) != Some(ContentTag::Form) {
        r matches Err(e) && e@ == FromContentFault::UnsupportedContentType
    } else {
        match route_of(content_type.params) {
            RouteView::Direct => match form_of_bytes(data) {
                Ok(pairs) => r matches Ok(value) && pairs_view(value@) == pairs,
                Err(e) => r matches Err(FromContentError::Codec(message)) && form_read_says(
                    e,
                    message@,
                ),
            },
            RouteView::Transcode(charset) => match body_text(data, charset) {
                Err(fault) => r matches Err(e) && e@ == fault,
                Ok(text) => match form_of_text(text) {
                    Ok(pairs) => r matches Ok(value) && pairs_view(value@) == pairs,
                    Err(e) => r matches Err(FromContentError::Codec(message)) && form_read_says(
                        e,
                        message@,
                    ),
                },
            },
        }
    }
}

/// Fields that were written come back. Where the body is a form in UTF-8
/// and `serde_urlencoded` reads the line that it writes for `pairs` as
/// `pairs`, reading the body that was made of `pairs` gives `pairs`.
pub proof fn lemma_form_round_trip(
    pairs: Seq<(Seq<char>, Seq<char>)>,
    content_type: MimeTypeView,
    body: Vec<u8>,
    back: Result<Vec<(String, String)>, FromContentError>,
)
    requires
        tag_of(content_type.base) == Some(ContentTag::Form),
        route_of(content_type.params) is Direct,
        form_text(pairs) matches Ok(text) ==> form_of_bytes(encode_utf8(text)) == Ok::<
            Seq<(Seq<char>, Seq<char>)>,
            serde_urlencoded::de::Error,
        >(pairs),
        form_body(pairs, content_type, Ok::<Vec<u8>, ToContentError>(body)),
        form_value(body@, content_type, back),
    ensures
        back matches Ok(fields) && pairs_view(fields@) == pairs,
{
}

impl ToContent for Vec<(String, String)> {
    /// Writes the fields as a body of `content_type`.
    fn to_content(&self, content_type: &MimeType) -> (r: Result<Vec<u8>, ToContentError>)
        ensures
            form_body(pairs_view(self@), content_type@, r),
    {
        to_content::<Vec<(String, String)>, Form>(self, content_type)
    }
}

impl FromContent for Vec<(String, String)> {
    /// Reads a body of `content_type` as fields.
    fn from_content(data: Vec<u8>, content_type: &MimeType) -> (r: Result<
        Vec<(String, String)>,
        FromContentError,
    >)
        ensures
            form_value(data@, content_type@, r),
    {
        from_content::<Vec<(String, String)>, Form>(data.as_slice(), content_type)
    }
}

} // verus!
