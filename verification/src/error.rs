//! What can go wrong between a value and its bytes.
//!
//! A failure keeps the message of what caused it. The kinds stay apart: a
//! caller can tell a charset that is not known from bytes that do not fit the
//! charset, and both from a payload of the wrong shape.

use vstd::prelude::*;
use vstd::std_specs::convert::FromSpec;

verus! {

/// Why text could not be turned into bytes of a charset, or bytes into text.
#[derive(Debug)]
pub enum TranscodeError {
    /// The catalog has no charset of that name.
    Unsupported,
    /// The input does not fit the charset; the message says where.
    Malformed(String),
    /// Transcoding is not part of this build.
    Disabled,
}

/// A `TranscodeError` with its message as characters.
pub enum TranscodeFault {
    Unsupported,
    Malformed(Seq<char>),
    Disabled,
}

impl View for TranscodeError {
    type V = TranscodeFault;

    open spec fn view(&self) -> TranscodeFault {
        match self {
            TranscodeError::Unsupported => TranscodeFault::Unsupported,
            TranscodeError::Malformed(m) => TranscodeFault::Malformed(m@),
            TranscodeError::Disabled => TranscodeFault::Disabled,
        }
    }
}

/// Why a value could not be turned into a body.
#[derive(Debug)]
pub enum ToContentError {
    /// The codec does not serve the base type of the content type.
    UnsupportedContentType,
    /// The catalog has no charset of the name that the content type gives.
    UnsupportedCharset,
    /// The codec reads bodies and writes none.
    UnsupportedDirection,
    /// Transcoding is not part of this build.
    TranscodingDisabled,
    /// The text that the codec wrote cannot be written in the charset.
    Encode(String),
    /// The codec could not write the value; the message is the codec's own.
    Codec(String),
}

/// A `ToContentError` with its message as characters.
pub enum ToContentFault {
    UnsupportedContentType,
    UnsupportedCharset,
    UnsupportedDirection,
    TranscodingDisabled,
    Encode(Seq<char>),
    Codec(Seq<char>),
}

impl View for ToContentError {
    type V = ToContentFault;

    open spec fn view(&self) -> ToContentFault {
        match self {
            ToContentError::UnsupportedContentType => ToContentFault::UnsupportedContentType,
            ToContentError::UnsupportedCharset => ToContentFault::UnsupportedCharset,
            ToContentError::UnsupportedDirection => ToContentFault::UnsupportedDirection,
            ToContentError::TranscodingDisabled => ToContentFault::TranscodingDisabled,
            ToContentError::Encode(m) => ToContentFault::Encode(m@),
            ToContentError::Codec(m) => ToContentFault::Codec(m@),
        }
    }
}

/// Why a body could not be turned into a value.
#[derive(Debug)]
pub enum FromContentError {
    /// The codec does not serve the base type of the content type.
    UnsupportedContentType,
    /// The catalog has no charset of the name that the content type gives.
    UnsupportedCharset,
    /// The codec writes bodies and reads none.
    UnsupportedDirection,
    /// Transcoding is not part of this build.
    TranscodingDisabled,
    /// The bytes are no text in the charset that the content type claims.
    Decode(String),
    /// The codec could not read the payload; the message is the codec's own.
    Codec(String),
}

/// A `FromContentError` with its message as characters.
pub enum FromContentFault {
    UnsupportedContentType,
    UnsupportedCharset,
    UnsupportedDirection,
    TranscodingDisabled,
    Decode(Seq<char>),
    Codec(Seq<char>),
}

impl View for FromContentError {
    type V = FromContentFault;

    open spec fn view(&self) -> FromContentFault {
        match self {
            FromContentError::UnsupportedContentType => FromContentFault::UnsupportedContentType,
            FromContentError::UnsupportedCharset => FromContentFault::UnsupportedCharset,
            FromContentError::UnsupportedDirection => FromContentFault::UnsupportedDirection,
            FromContentError::TranscodingDisabled => FromContentFault::TranscodingDisabled,
            FromContentError::Decode(m) => FromContentFault::Decode(m@),
            FromContentError::Codec(m) => FromContentFault::Codec(m@),
        }
    }
}

/// What a failed encoding means for the body that was to be written.
pub open spec fn encode_fault(e: TranscodeFault) -> ToContentFault {
    match e {
        TranscodeFault::Unsupported => ToContentFault::UnsupportedCharset,
        TranscodeFault::Malformed(m) => ToContentFault::Encode(m),
        TranscodeFault::Disabled => ToContentFault::TranscodingDisabled,
    }
}

/// What a failed decoding means for the body that was to be read.
pub open spec fn decode_fault(e: TranscodeFault) -> FromContentFault {
    match e {
        TranscodeFault::Unsupported => FromContentFault::UnsupportedCharset,
        TranscodeFault::Malformed(m) => FromContentFault::Decode(m),
        TranscodeFault::Disabled => FromContentFault::TranscodingDisabled,
    }
}

/// The words that say what `e` is.
pub open spec fn transcode_text(e: TranscodeFault) -> Seq<char> {
    match e {
        TranscodeFault::Unsupported => "unsupported encoding"@,
        TranscodeFault::Malformed(m) => m,
        TranscodeFault::Disabled => "encoding support is disabled"@,
    }
}

/// The words that say what `e` is.
pub open spec fn to_content_text(e: ToContentFault) -> Seq<char> {
    match e {
        ToContentFault::UnsupportedContentType => "unsupported content type"@,
        ToContentFault::UnsupportedCharset => "unsupported encoding"@,
        ToContentFault::UnsupportedDirection => "content type cannot be written"@,
        ToContentFault::TranscodingDisabled => "encoding support is disabled"@,
        ToContentFault::Encode(m) => m,
        ToContentFault::Codec(m) => m,
    }
}

/// The words that say what `e` is.
pub open spec fn from_content_text(e: FromContentFault) -> Seq<char> {
    match e {
        FromContentFault::UnsupportedContentType => "unsupported content type"@,
        FromContentFault::UnsupportedCharset => "unsupported encoding"@,
        FromContentFault::UnsupportedDirection => "content type cannot be read"@,
        FromContentFault::TranscodingDisabled => "encoding support is disabled"@,
        FromContentFault::Decode(m) => m,
        FromContentFault::Codec(m) => m,
    }
}

impl TranscodeError {
    /// What went wrong, in words; for a malformed input, the cause's own.
    pub fn message(&self) -> (r: String)
        ensures
            r@ == transcode_text(self@),
    {
        match self {
            TranscodeError::Unsupported => String::from_str("unsupported encoding"),
            TranscodeError::Malformed(m) => m.clone(),
            TranscodeError::Disabled => String::from_str("encoding support is disabled"),
        }
    }
}

impl ToContentError {
    /// What went wrong, in words; where there is a cause, the cause's own.
    pub fn message(&self) -> (r: String)
        ensures
            r@ == to_content_text(self@),
    {
        match self {
            ToContentError::UnsupportedContentType => String::from_str("unsupported content type"),
            ToContentError::UnsupportedCharset => String::from_str("unsupported encoding"),
            ToContentError::UnsupportedDirection => String::from_str(
                "content type cannot be written",
            ),
            ToContentError::TranscodingDisabled => String::from_str("encoding support is disabled"),
            ToContentError::Encode(m) => m.clone(),
            ToContentError::Codec(m) => m.clone(),
        }
    }
}

impl FromContentError {
    /// What went wrong, in words; where there is a cause, the cause's own.
    pub fn message(&self) -> (r: String)
        ensures
            r@ == from_content_text(self@),
    {
        match self {
            FromContentError::UnsupportedContentType => String::from_str(
                "unsupported content type",
            ),
            FromContentError::UnsupportedCharset => String::from_str("unsupported encoding"),
            FromContentError::UnsupportedDirection => String::from_str(
                "content type cannot be read",
            ),
            FromContentError::TranscodingDisabled => String::from_str(
                "encoding support is disabled",
            ),
            FromContentError::Decode(m) => m.clone(),
            FromContentError::Codec(m) => m.clone(),
        }
    }
}

impl From<TranscodeError> for ToContentError {
    fn from(e: TranscodeError) -> (r: ToContentError) {
        match e {
            TranscodeError::Unsupported => ToContentError::UnsupportedCharset,
            TranscodeError::Malformed(m) => ToContentError::Encode(m),
            TranscodeError::Disabled => ToContentError::TranscodingDisabled,
        }
    }
}

impl vstd::std_specs::convert::FromSpecImpl<TranscodeError> for ToContentError {
    open spec fn obeys_from_spec() -> bool {
        true
    }

    open spec fn from_spec(e: TranscodeError) -> ToContentError {
        match e {
            TranscodeError::Unsupported => ToContentError::UnsupportedCharset,
            TranscodeError::Malformed(m) => ToContentError::Encode(m),
            TranscodeError::Disabled => ToContentError::TranscodingDisabled,
        }
    }
}

impl From<TranscodeError> for FromContentError {
    fn from(e: TranscodeError) -> (r: FromContentError) {
        match e {
            TranscodeError::Unsupported => FromContentError::UnsupportedCharset,
            TranscodeError::Malformed(m) => FromContentError::Decode(m),
            TranscodeError::Disabled => FromContentError::TranscodingDisabled,
        }
    }
}

impl vstd::std_specs::convert::FromSpecImpl<TranscodeError> for FromContentError {
    open spec fn obeys_from_spec() -> bool {
        true
    }

    open spec fn from_spec(e: TranscodeError) -> FromContentError {
        match e {
            TranscodeError::Unsupported => FromContentError::UnsupportedCharset,
            TranscodeError::Malformed(m) => FromContentError::Decode(m),
            TranscodeError::Disabled => FromContentError::TranscodingDisabled,
        }
    }
}

/// Turning a transcoding failure into a failure of either direction keeps its
/// kind and its message: an unknown charset stays an unknown charset, input
/// that does not fit stays apart from it, and neither is taken for a fault of
/// a codec.
pub proof fn lemma_faults_keep_their_kind(e: TranscodeError)
    ensures
        ToContentError::from_spec(e)@ == encode_fault(e@),
        FromContentError::from_spec(e)@ == decode_fault(e@),
        !(encode_fault(e@) is Codec),
        !(decode_fault(e@) is Codec),
        encode_fault(e@) is UnsupportedCharset <==> e is Unsupported,
        decode_fault(e@) is UnsupportedCharset <==> e is Unsupported,
{
}

} // verus!
