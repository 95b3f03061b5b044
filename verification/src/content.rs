//! From a value to a body and back, by content type.
//!
//! The base type of the content type says which codec is meant. A codec
//! serves its own base types and refuses every other. The charset says how
//! the codec's text travels: with no charset, or with `utf-8`, the codec
//! writes and reads bytes itself; with any other, the codec writes and reads
//! text, and the text is turned into bytes of that charset, or read from
//! them, on the way.

use crate::encode::{decode_data, decoded, encode_data, encoded, supported};
use crate::error::{
    decode_fault, encode_fault, FromContentError, FromContentFault, ToContentError,
    ToContentFault,
};
use crate::mime::{lookup, MimeType, MimeTypeView};
use crate::text::same_text;
use vstd::prelude::*;

verus! {

/// The kinds of body that have a codec.
#[derive(Debug, Clone, Copy, PartialEq, Eq, Structural)]
pub enum ContentTag {
    /// `application/json`
    Json,
    /// `application/x-www-form-urlencoded`
    Form,
    /// `application/xml` and `text/xml`
    Xml,
    /// `text/html`
    Html,
}

/// How the text of a body travels.
#[derive(Debug)]
pub enum Route {
    /// As the codec's own bytes: the text is UTF-8.
    Direct,
    /// As text that is written in, or read from, the charset of this name.
    Transcode(String),
}

/// A `Route` with the name of its charset as characters.
pub enum RouteView {
    Direct,
    Transcode(Seq<char>),
}

impl View for Route {
    type V = RouteView;

    open spec fn view(&self) -> RouteView {
        match self {
            Route::Direct => RouteView::Direct,
            Route::Transcode(charset) => RouteView::Transcode(charset@),
        }
    }
}

/// The codec that serves the base type `base`, if one does.
pub open spec fn tag_of(base: Seq<char>) -> Option<ContentTag> {
    if base == "application/json"@ {
        Some(ContentTag::Json)
    } else if base == "application/x-www-form-urlencoded"@ {
        Some(ContentTag::Form)
    } else if base == "application/xml"@ || base == "text/xml"@ {
        Some(ContentTag::Xml)
    } else if base == "text/html"@ {
        Some(ContentTag::Html)
    } else {
        None
    }
}

/// The route that the parameters ask for: direct where there is no charset
/// or the charset is `utf-8`, written just so.
pub open spec fn route_of(params: Seq<(Seq<char>, Seq<char>)>) -> RouteView {
    match lookup(params, "charset"@) {
        None => RouteView::Direct,
        Some(charset) => if charset == "utf-8"@ {
            RouteView::Direct
        } else {
            RouteView::Transcode(charset)
        },
    }
}

/// A body or a failure, the failure with its message as characters.
pub open spec fn written(r: Result<Vec<u8>, ToContentError>) -> Result<Seq<u8>, ToContentFault> {
    match r {
        Ok(bytes) => Ok(bytes@),
        Err(e) => Err(e@),
    }
}

/// A value or a failure, the failure with its message as characters.
pub open spec fn read<T>(r: Result<T, FromContentError>) -> Result<T, FromContentFault> {
    match r {
        Ok(value) => Ok(value),
        Err(e) => Err(e@),
    }
}

/// Text or a failure, the failure with its message as characters.
pub open spec fn read_text(r: Result<String, FromContentError>) -> Result<
    Seq<char>,
    FromContentFault,
> {
    match r {
        Ok(text) => Ok(text@),
        Err(e) => Err(e@),
    }
}

/// The body that comes of what a codec wrote as bytes.
pub open spec fn direct_body(native: Result<Vec<u8>, String>) -> Result<Seq<u8>, ToContentFault> {
    match native {
        Ok(bytes) => Ok(bytes@),
        Err(message) => Err(ToContentFault::Codec(message@)),
    }
}

/// The body that `text` makes in `charset`.
pub open spec fn text_body(text: Seq<char>, charset: Seq<char>) -> Result<Seq<u8>, ToContentFault> {
    match encoded(text, charset) {
        Ok(bytes) => Ok(bytes),
        Err(fault) => Err(encode_fault(fault)),
    }
}

/// The body that comes of what a codec wrote as text, in `charset`.
pub open spec fn transcoded_body(native: Result<String, String>, charset: Seq<char>) -> Result<
    Seq<u8>,
    ToContentFault,
> {
    match native {
        Err(message) => Err(ToContentFault::Codec(message@)),
        Ok(text) => text_body(text@, charset),
    }
}

/// The text that a body in `charset` holds.
pub open spec fn body_text(data: Seq<u8>, charset: Seq<char>) -> Result<
    Seq<char>,
    FromContentFault,
> {
    match decoded(data, charset) {
        Ok(text) => Ok(text),
        Err(fault) => Err(decode_fault(fault)),
    }
}

/// The value that comes of what a codec read.
pub open spec fn value_read<T>(native: Result<T, String>) -> Result<T, FromContentFault> {
    match native {
        Ok(value) => Ok(value),
        Err(message) => Err(FromContentFault::Codec(message@)),
    }
}

impl ContentTag {
    /// The codec that serves the base type of `content_type`, if one does.
    pub fn of(content_type: &MimeType) -> (r: Option<ContentTag>)
        ensures
            r == tag_of(content_type@.base),
    {
        if content_type.has_base("application/json") {
            Some(ContentTag::Json)
        } else if content_type.has_base("application/x-www-form-urlencoded") {
            Some(ContentTag::Form)
        } else if content_type.has_base("application/xml") || content_type.has_base("text/xml") {
            Some(ContentTag::Xml)
        } else if content_type.has_base("text/html") {
            Some(ContentTag::Html)
        } else {
            None
        }
    }

    /// Tells whether this codec serves the base type of `content_type`.
    pub fn serves(&self, content_type: &MimeType) -> (r: bool)
        ensures
            r == (tag_of(content_type@.base) == Some(*self)),
    {
        match ContentTag::of(content_type) {
            Some(tag) => tag == *self,
            None => false,
        }
    }
}

/// The route that `content_type` asks for.
pub fn route(content_type: &MimeType) -> (r: Route)
    ensures
        r@ == route_of(content_type@.params),
{
    match content_type.charset() {
        None => Route::Direct,
        Some(charset) => if same_text(charset, "utf-8") {
            Route::Direct
        } else {
            Route::Transcode(String::from_str(charset))
        },
    }
}

/// What a codec does on its own to write the values of the type `V`. A
/// failure is the codec's message.
pub trait WriteFormat<V> {
    /// The kind of body that the codec writes.
    fn writes() -> ContentTag;

    /// Writes `value` as bytes, in UTF-8.
    fn write_bytes(value: &V) -> Result<Vec<u8>, String>;

    /// Writes `value` as text.
    fn write_text(value: &V) -> Result<String, String>;
}

/// What a codec does on its own to read the values of the type `V`. A
/// failure is the codec's message.
pub trait ReadFormat<V> {
    /// The kind of body that the codec reads.
    fn reads() -> ContentTag;

    /// Reads a value from bytes, in UTF-8.
    fn read_bytes(data: &[u8]) -> Result<V, String>;

    /// Reads a value from text.
    fn read_text(text: &str) -> Result<V, String>;
}

/// What `to_content` returns for `value` and `content_type`. The codec is
/// asked what it serves. Where that is not the base type, the result is a
/// refusal; else it is what comes of the one thing that the codec is then
/// asked to write, bytes on the direct route and text on the other.
pub open spec fn to_content_gives<V, F: WriteFormat<V>>(
    value: &V,
    content_type: MimeTypeView,
    r: Result<Vec<u8>, ToContentError>,
) -> bool {
    exists|tag: ContentTag| #[trigger]
        call_ensures(F::writes, (), tag) && if tag_of(content_type.base) != Some(tag) {
            written(r) == Err::<Seq<u8>, ToContentFault>(ToContentFault::UnsupportedContentType)
        } else {
            match route_of(content_type.params) {
                RouteView::Direct => exists|native: Result<Vec<u8>, String>|
                    call_ensures(F::write_bytes, (value,), native) && written(r) == direct_body(
                        native,
                    ),
                RouteView::Transcode(charset) => exists|native: Result<String, String>|
                    call_ensures(F::write_text, (value,), native) && written(r)
                        == transcoded_body(native, charset),
            }
        }
}

/// What `from_content` returns for `data` and `content_type`. The codec is
/// asked what it serves. Where that is not the base type, the result is a
/// refusal. On the direct route it is what comes of the bytes, which the
/// codec is asked to read; on the other route it is the failure to read the
/// bytes as text of the charset, or what comes of that text, which the codec
/// is asked to read.
pub open spec fn from_content_gives<V, F: ReadFormat<V>>(
    data: Seq<u8>,
    content_type: MimeTypeView,
    r: Result<V, FromContentError>,
) -> bool {
    exists|tag: ContentTag| #[trigger]
        call_ensures(F::reads, (), tag) && if tag_of(content_type.base) != Some(tag) {
            read(r) == Err::<V, FromContentFault>(FromContentFault::UnsupportedContentType)
        } else {
            match route_of(content_type.params) {
                RouteView::Direct => exists|bytes: &[u8], native: Result<V, String>|
                    bytes@ == data && call_ensures(F::read_bytes, (bytes,), native) && read(r)
                        == value_read(native),
                RouteView::Transcode(charset) => match body_text(data, charset) {
                    Err(fault) => read(r) == Err::<V, FromContentFault>(fault),
                    Ok(text) => exists|t: &str, native: Result<V, String>|
                        t@ == text && call_ensures(F::read_text, (t,), native) && read(r)
                            == value_read(native),
                },
            }
        }
}

/// A base type that no codec serves is refused by every codec, in both
/// directions, whatever the value, the bytes and the charset.
pub proof fn lemma_unserved_is_refused<V, W: WriteFormat<V>, R: ReadFormat<V>>(
    value: &V,
    data: Seq<u8>,
    content_type: MimeTypeView,
    body: Result<Vec<u8>, ToContentError>,
    back: Result<V, FromContentError>,
)
    requires
        tag_of(content_type.base) is None,
        to_content_gives::<V, W>(value, content_type, body),
        from_content_gives::<V, R>(data, content_type, back),
    ensures
        written(body) == Err::<Seq<u8>, ToContentFault>(ToContentFault::UnsupportedContentType),
        read(back) == Err::<V, FromContentFault>(FromContentFault::UnsupportedContentType),
{
}

/// With a charset that the catalog does not have, nothing is written and
/// nothing is read. Where the codec serves the base type, reading fails
/// with `UnsupportedCharset`, and so does writing unless the codec fails
/// on the value before the charset is looked up.
pub proof fn lemma_unknown_charset_is_refused<V, W: WriteFormat<V>, R: ReadFormat<V>>(
    value: &V,
    data: Seq<u8>,
    content_type: MimeTypeView,
    body: Result<Vec<u8>, ToContentError>,
    back: Result<V, FromContentError>,
)
    requires
        route_of(content_type.params) matches RouteView::Transcode(charset) && !supported(charset),
        to_content_gives::<V, W>(value, content_type, body),
        from_content_gives::<V, R>(data, content_type, back),
    ensures
        body is Err,
        back is Err,
        (forall|tag: ContentTag| call_ensures(R::reads, (), tag) ==> tag_of(content_type.base)
            == Some(tag)) ==> read(back) == Err::<V, FromContentFault>(
            FromContentFault::UnsupportedCharset,
        ),
        (forall|tag: ContentTag| call_ensures(W::writes, (), tag) ==> tag_of(content_type.base)
            == Some(tag)) && (forall|native: Result<String, String>|
            call_ensures(W::write_text, (value,), native) ==> native is Ok) ==> written(body)
            == Err::<Seq<u8>, ToContentFault>(ToContentFault::UnsupportedCharset),
{
}

/// The codec that writes with `W` and reads with `R` serves one kind of
/// body: whenever either is asked, it names the same.
pub open spec fn serves_one_kind<V, W: WriteFormat<V>, R: ReadFormat<V>>() -> bool {
    forall|a: ContentTag, b: ContentTag|
        call_ensures(W::writes, (), a) && call_ensures(R::reads, (), b) ==> a == b
}

/// The codec reads back what it writes for `value`: whatever bytes `W` may
/// write for it, `R` reads them as `value` and as nothing else.
pub open spec fn reads_back<V, W: WriteFormat<V>, R: ReadFormat<V>>(value: &V) -> bool {
    forall|wrote: Vec<u8>, bytes: &[u8], native: Result<V, String>|
        call_ensures(W::write_bytes, (value,), Ok::<Vec<u8>, String>(wrote)) && bytes@ == wrote@
            && call_ensures(R::read_bytes, (bytes,), native) ==> native == Ok::<V, String>(*value)
}

/// A value that was written comes back. Where a body makes no mention of a
/// charset, or names `utf-8`, and the codec serves one kind of body and
/// reads back what it writes for `value`, then reading the body that
/// `to_content` made of `value` gives `value`. The codec's part is taken for
/// granted here; what is shown is that nothing is lost or added around it.
pub proof fn lemma_round_trip<V, W: WriteFormat<V>, R: ReadFormat<V>>(
    value: &V,
    content_type: MimeTypeView,
    body: Vec<u8>,
    back: Result<V, FromContentError>,
)
    requires
        route_of(content_type.params) is Direct,
        serves_one_kind::<V, W, R>(),
        reads_back::<V, W, R>(value),
        to_content_gives::<V, W>(value, content_type, Ok::<Vec<u8>, ToContentError>(body)),
        from_content_gives::<V, R>(body@, content_type, back),
    ensures
        back == Ok::<V, FromContentError>(*value),
{
    let r = Ok::<Vec<u8>, ToContentError>(body);
    let wrote_tag = choose|tag: ContentTag| #[trigger]
        call_ensures(W::writes, (), tag) && if tag_of(content_type.base) != Some(tag) {
            written(r) == Err::<Seq<u8>, ToContentFault>(ToContentFault::UnsupportedContentType)
        } else {
            match route_of(content_type.params) {
                RouteView::Direct => exists|native: Result<Vec<u8>, String>|
                    call_ensures(W::write_bytes, (value,), native) && written(r) == direct_body(
                        native,
                    ),
                RouteView::Transcode(charset) => exists|native: Result<String, String>|
                    call_ensures(W::write_text, (value,), native) && written(r)
                        == transcoded_body(native, charset),
            }
        };
    let read_tag = choose|tag: ContentTag| #[trigger]
        call_ensures(R::reads, (), tag) && if tag_of(content_type.base) != Some(tag) {
            read(back) == Err::<V, FromContentFault>(FromContentFault::UnsupportedContentType)
        } else {
            match route_of(content_type.params) {
                RouteView::Direct => exists|bytes: &[u8], native: Result<V, String>|
                    bytes@ == body@ && call_ensures(R::read_bytes, (bytes,), native) && read(back)
                        == value_read(native),
                RouteView::Transcode(charset) => match body_text(body@, charset) {
                    Err(fault) => read(back) == Err::<V, FromContentFault>(fault),
                    Ok(text) => exists|t: &str, native: Result<V, String>|
                        t@ == text && call_ensures(R::read_text, (t,), native) && read(back)
                            == value_read(native),
                },
            }
        };
    assert(wrote_tag == read_tag);
    let wrote = choose|native: Result<Vec<u8>, String>|
        call_ensures(W::write_bytes, (value,), native) && written(r) == direct_body(native);
    let (bytes, native) = choose|bytes: &[u8], native: Result<V, String>|
        bytes@ == body@ && call_ensures(R::read_bytes, (bytes,), native) && read(back)
            == value_read(native);
    assert(wrote is Ok);
    assert(call_ensures(W::write_bytes, (value,), Ok::<Vec<u8>, String>(wrote->Ok_0)));
    assert(bytes@ == (wrote->Ok_0)@);
}

/// The body that comes of what a codec wrote as bytes: the bytes, or the
/// codec's failure.
pub fn body_of_bytes(native: Result<Vec<u8>, String>) -> (r: Result<Vec<u8>, ToContentError>)
    ensures
        written(r) == direct_body(native),
{
    match native {
        Ok(bytes) => Ok(bytes),
        Err(message) => Err(ToContentError::Codec(message)),
    }
}

/// The body that comes of what a codec wrote as text: the text in `charset`,
/// the failure to write it so, or the codec's failure.
pub fn body_of_text(native: Result<String, String>, charset: &str) -> (r: Result<
    Vec<u8>,
    ToContentError,
>)
    ensures
        written(r) == transcoded_body(native, charset@),
{
    match native {
        Err(message) => Err(ToContentError::Codec(message)),
        Ok(text) => match encode_data(text.as_str(), charset) {
            Ok(bytes) => Ok(bytes),
            Err(e) => Err(ToContentError::from(e)),
        },
    }
}

/// The text of a body in `charset`, or the failure to read it so.
pub fn text_of_body(data: &[u8], charset: &str) -> (r: Result<String, FromContentError>)
    ensures
        read_text(r) == body_text(data@, charset@),
{
    match decode_data(data, charset) {
        Ok(text) => Ok(text),
        Err(e) => Err(FromContentError::from(e)),
    }
}

/// The value that comes of what a codec read: the value, or the codec's
/// failure.
pub fn value_of<T>(native: Result<T, String>) -> (r: Result<T, FromContentError>)
    ensures
        read(r) == value_read(native),
{
    match native {
        Ok(value) => Ok(value),
        Err(message) => Err(FromContentError::Codec(message)),
    }
}

/// Writes `value` as a body of `content_type` with the codec `F`.
pub fn to_content<V, F: WriteFormat<V>>(value: &V, content_type: &MimeType) -> (r: Result<
    Vec<u8>,
    ToContentError,
>)
    ensures
        to_content_gives::<V, F>(value, content_type@, r),
{
    if !F::writes().serves(content_type) {
        return Err(ToContentError::UnsupportedContentType);
    }
    match route(content_type) {
        Route::Direct => body_of_bytes(F::write_bytes(value)),
        Route::Transcode(charset) => body_of_text(F::write_text(value), charset.as_str()),
    }
}

/// Reads a body of `content_type` as a value with the codec `F`.
pub fn from_content<V, F: ReadFormat<V>>(data: &[u8], content_type: &MimeType) -> (r: Result<
    V,
    FromContentError,
>)
    ensures
        from_content_gives::<V, F>(data@, content_type@, r),
{
    if !F::reads().serves(content_type) {
        return Err(FromContentError::UnsupportedContentType);
    }
    match route(content_type) {
        Route::Direct => value_of(F::read_bytes(data)),
        Route::Transcode(charset) => match text_of_body(data, charset.as_str()) {
            Err(e) => Err(e),
            Ok(text) => value_of(F::read_text(text.as_str())),
        },
    }
}

/// What `to_content_among` returns: what the codec for the kind of body
/// returns, a refusal of the direction for HTML, which is never written, and
/// a refusal of the content type where no codec serves the base type.
pub open spec fn to_content_among_gives<V, J: WriteFormat<V>, F: WriteFormat<V>, X: WriteFormat<V>>(
    value: &V,
    content_type: MimeTypeView,
    r: Result<Vec<u8>, ToContentError>,
) -> bool {
    match tag_of(content_type.base) {
        Some(ContentTag::Json) => to_content_gives::<V, J>(value, content_type, r),
        Some(ContentTag::Form) => to_content_gives::<V, F>(value, content_type, r),
        Some(ContentTag::Xml) => to_content_gives::<V, X>(value, content_type, r),
        Some(ContentTag::Html) => written(r) == Err::<Seq<u8>, ToContentFault>(
            ToContentFault::UnsupportedDirection,
        ),
        None => written(r) == Err::<Seq<u8>, ToContentFault>(
            ToContentFault::UnsupportedContentType,
        ),
    }
}

/// What `from_content_among` returns: what the codec for the kind of body
/// returns, and a refusal of the content type where none of the three
/// serves the base type.
pub open spec fn from_content_among_gives<V, J: ReadFormat<V>, F: ReadFormat<V>, X: ReadFormat<V>>(
    data: Seq<u8>,
    content_type: MimeTypeView,
    r: Result<V, FromContentError>,
) -> bool {
    match tag_of(content_type.base) {
        Some(ContentTag::Json) => from_content_gives::<V, J>(data, content_type, r),
        Some(ContentTag::Form) => from_content_gives::<V, F>(data, content_type, r),
        Some(ContentTag::Xml) => from_content_gives::<V, X>(data, content_type, r),
        _ => read(r) == Err::<V, FromContentFault>(FromContentFault::UnsupportedContentType),
    }
}

/// Writes `value` as a body of `content_type` with the codec that the base
/// type names: `J` for JSON, `F` for a form, `X` for XML.
pub fn to_content_among<V, J: WriteFormat<V>, F: WriteFormat<V>, X: WriteFormat<V>>(
    value: &V,
    content_type: &MimeType,
) -> (r: Result<Vec<u8>, ToContentError>)
    ensures
        to_content_among_gives::<V, J, F, X>(value, content_type@, r),
{
    match ContentTag::of(content_type) {
        Some(ContentTag::Json) => to_content::<V, J>(value, content_type),
        Some(ContentTag::Form) => to_content::<V, F>(value, content_type),
        Some(ContentTag::Xml) => to_content::<V, X>(value, content_type),
        Some(ContentTag::Html) => Err(ToContentError::UnsupportedDirection),
        None => Err(ToContentError::UnsupportedContentType),
    }
}

/// Reads a body of `content_type` as a value with the codec that the base
/// type names: `J` for JSON, `F` for a form, `X` for XML.
pub fn from_content_among<V, J: ReadFormat<V>, F: ReadFormat<V>, X: ReadFormat<V>>(
    data: &[u8],
    content_type: &MimeType,
) -> (r: Result<V, FromContentError>)
    ensures
        from_content_among_gives::<V, J, F, X>(data@, content_type@, r),
{
    match ContentTag::of(content_type) {
        Some(ContentTag::Json) => from_content::<V, J>(data, content_type),
        Some(ContentTag::Form) => from_content::<V, F>(data, content_type),
        Some(ContentTag::Xml) => from_content::<V, X>(data, content_type),
        _ => Err(FromContentError::UnsupportedContentType),
    }
}

/// A value that can be written as the body of a request.
pub trait ToContent {
    /// Writes the value as a body of `content_type`.
    fn to_content(&self, content_type: &MimeType) -> Result<Vec<u8>, ToContentError>;
}

/// A value that can be read from the body of a response.
pub trait FromContent: Sized {
    /// Reads a body of `content_type` as a value.
    fn from_content(data: Vec<u8>, content_type: &MimeType) -> Result<Self, FromContentError>;
}

/// A body that can be read as a `T`. The type of the value is found where
/// the result goes; nothing else is added to `FromContent`.
pub trait ContentInto<T: Sized> {
    /// Reads the body as a value of `content_type`.
    fn content_into(self, content_type: &MimeType) -> Result<T, FromContentError>;
}

impl<T: FromContent> ContentInto<T> for Vec<u8> {
    /// Returns what `T::from_content` returns for these bytes, the failures
    /// as they are.
    fn content_into(self, content_type: &MimeType) -> (r: Result<T, FromContentError>)
        ensures
            call_ensures(T::from_content, (self, content_type), r),
    {
        T::from_content(self, content_type)
    }
}

impl FromContent for () {
    /// Reads nothing: any body of any content type will do.
    fn from_content(data: Vec<u8>, content_type: &MimeType) -> (r: Result<(), FromContentError>)
        ensures
            r is Ok,
    {
        Ok(())
    }
}

impl ToContent for () {
    /// Writes nothing: the body is empty, whatever the content type.
    fn to_content(&self, content_type: &MimeType) -> (r: Result<Vec<u8>, ToContentError>)
        ensures
            r matches Ok(body) && body@ == Seq::<u8>::empty(),
    {
        Ok(Vec::new())
    }
}

} // verus!
