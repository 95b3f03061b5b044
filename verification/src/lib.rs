//! Content negotiation for HTTP bodies: a content type selects the codec that
//! turns a structured value into bytes and back, and its charset parameter
//! decides whether the text is transcoded on the way.
//!
//! A content type is a [`MimeType`]. A value is written with [`ToContent`]
//! and read with [`FromContent`]; [`ContentInto`] reads a body as whatever
//! type is asked for. The codecs for JSON documents, for the fields of a
//! form and for HTML documents are here; a codec for another type of value
//! is a [`content::WriteFormat`], a [`content::ReadFormat`] or an
//! [`html::ReadMarkup`].

pub mod content;
pub mod encode;
pub mod encode_disabled;
pub mod error;
pub mod form;
pub mod helper;
pub mod html;
pub mod json;
pub mod method;
pub mod mime;
pub mod text;

pub use content::{ContentInto, FromContent, ToContent};
pub use error::{FromContentError, ToContentError, TranscodeError};
pub use helper::{Helper, HttpService};
pub use mime::{MimeParseError, MimeType};
