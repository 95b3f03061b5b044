//! Text in charsets other than UTF-8.
//!
//! The charsets are those of a catalog that is compiled in. Each entry is
//! known under one name: the name the WHATWG gives it where it gives one, else
//! the entry's own. A charset is looked up by that name as it is written, with
//! no regard for aliases or for the case of letters. Where two entries share
//! a name, the later one is meant.

use crate::error::{TranscodeError, TranscodeFault};
use crate::text::same_text;
use vstd::prelude::*;

verus! {

/// The name of the entry at `index` of the catalog, as `Encoding::name` gives
/// it; `None` where the catalog has no such entry.
pub uninterp spec fn catalog_name(index: nat) -> Option<Seq<char>>;

/// The name that the WHATWG gives the entry at `index`, as
/// `Encoding::whatwg_name` gives it.
pub uninterp spec fn catalog_whatwg_name(index: nat) -> Option<Seq<char>>;

/// What `Encoding::encode` makes of `text` with the entry at `index`, when it
/// is to fail on what the charset cannot write: the bytes, or the message of
/// the failure.
pub uninterp spec fn catalog_encoded(index: nat, text: Seq<char>) -> Result<Seq<u8>, Seq<char>>;

/// What `Encoding::decode` makes of `data` with the entry at `index`, when it
/// is to fail on bytes that are no text in the charset: the text, or the
/// message of the failure.
pub uninterp spec fn catalog_decoded(index: nat, data: Seq<u8>) -> Result<Seq<char>, Seq<char>>;

/// The name under which the entry at `index` is looked up.
pub open spec fn catalog_key(index: nat) -> Option<Seq<char>> {
    match catalog_name(index) {
        None => None,
        Some(name) => match catalog_whatwg_name(index) {
            Some(whatwg) => Some(whatwg),
            None => Some(name),
        },
    }
}

/// The entry at `index` goes by the name `charset`.
pub open spec fn holds(charset: Seq<char>, index: nat) -> bool {
    catalog_key(index) == Some(charset)
}

/// The catalog has a charset of that name.
pub open spec fn supported(charset: Seq<char>) -> bool {
    exists|i: nat| holds(charset, i)
}

/// The entry at `index` is the one that `charset` means: the last of that
/// name.
pub open spec fn is_slot(charset: Seq<char>, index: nat) -> bool {
    holds(charset, index) && forall|j: nat| j > index ==> !holds(charset, j)
}

/// The index of the entry that `charset` means.
pub open spec fn slot(charset: Seq<char>) -> nat {
    choose|i: nat| is_slot(charset, i)
}

/// What becomes of `text` in `charset`.
pub open spec fn encoded(text: Seq<char>, charset: Seq<char>) -> Result<Seq<u8>, TranscodeFault> {
    if !supported(charset) {
        Err(TranscodeFault::Unsupported)
    } else {
        match catalog_encoded(slot(charset), text) {
            Ok(bytes) => Ok(bytes),
            Err(message) => Err(TranscodeFault::Malformed(message)),
        }
    }
}

/// What `data` reads as in `charset`.
pub open spec fn decoded(data: Seq<u8>, charset: Seq<char>) -> Result<Seq<char>, TranscodeFault> {
    if !supported(charset) {
        Err(TranscodeFault::Unsupported)
    } else {
        match catalog_decoded(slot(charset), data) {
            Ok(text) => Ok(text),
            Err(message) => Err(TranscodeFault::Malformed(message)),
        }
    }
}

/// Bytes or a failure, the failure with its message as characters.
pub open spec fn bytes_outcome(r: Result<Vec<u8>, TranscodeError>) -> Result<
    Seq<u8>,
    TranscodeFault,
> {
    match r {
        Ok(bytes) => Ok(bytes@),
        Err(e) => Err(e@),
    }
}

/// Text or a failure, the failure with its message as characters.
pub open spec fn text_outcome(r: Result<String, TranscodeError>) -> Result<
    Seq<char>,
    TranscodeFault,
> {
    match r {
        Ok(text) => Ok(text@),
        Err(e) => Err(e@),
    }
}

/// A name means one entry at most, and it means the entry that is found to
/// be the last of that name.
pub proof fn lemma_slot(charset: Seq<char>, index: nat)
    requires
        is_slot(charset, index),
    ensures
        supported(charset),
        slot(charset) == index,
{
    assert(holds(charset, index));
    let other = slot(charset);
    assert(is_slot(charset, other));
    if other < index {
        assert(!holds(charset, index));
    } else if other > index {
        assert(!holds(charset, other));
    }
}

/// A charset that the catalog does not have is refused in both directions,
/// and in the same way: by `Unsupported`, whatever the text or the bytes.
pub proof fn lemma_unknown_charset(text: Seq<char>, data: Seq<u8>, charset: Seq<char>)
    requires
        !supported(charset),
    ensures
        encoded(text, charset) == Err::<Seq<u8>, TranscodeFault>(TranscodeFault::Unsupported),
        decoded(data, charset) == Err::<Seq<char>, TranscodeFault>(TranscodeFault::Unsupported),
{
}

/// Both directions go by the same entry of the catalog. So where the entry
/// that `charset` means reads the bytes that it writes for `text` as `text`,
/// what `encode_data` writes for `text` is read by `decode_data` as `text`.
/// Whether an entry does so is the catalog's affair; one that only writes,
/// or that refuses all text, does not.
pub proof fn lemma_transcode_round_trip(text: Seq<char>, charset: Seq<char>)
    requires
        supported(charset),
        catalog_encoded(slot(charset), text) matches Ok(bytes) && catalog_decoded(
            slot(charset),
            bytes,
        ) == Ok::<Seq<char>, Seq<char>>(text),
    ensures
        encoded(text, charset) matches Ok(bytes) && decoded(bytes, charset) == Ok::<
            Seq<char>,
            TranscodeFault,
        >(text),
{
}

/// `encoding::all::encodings`, for its length: the catalog has an entry at
/// every index below the length and none from there on.
#[verifier::external_body]
fn catalog_len() -> (n: usize)
    ensures
        forall|i: nat| i < n <==> (#[trigger] catalog_name(i)) is Some,
{
    encoding::all::encodings().len()
}

/// `Encoding::name` of the entry at `index`.
#[verifier::external_body]
fn name_at(index: usize) -> (r: &'static str)
    requires
        catalog_name(index as nat) is Some,
    ensures
        catalog_name(index as nat) == Some(r@),
{
    encoding::Encoding::name(encoding::all::encodings()[index])
}

/// `Encoding::whatwg_name` of the entry at `index`.
#[verifier::external_body]
fn whatwg_name_at(index: usize) -> (r: Option<&'static str>)
    requires
        catalog_name(index as nat) is Some,
    ensures
        match r {
            Some(name) => catalog_whatwg_name(index as nat) == Some(name@),
            None => catalog_whatwg_name(index as nat) is None,
        },
{
    encoding::Encoding::whatwg_name(encoding::all::encodings()[index])
}

/// `Encoding::encode` of the entry at `index`, with the trap `Strict`: the
/// bytes of `text` in that charset, or the message of the failure.
#[verifier::external_body]
fn encode_at(index: usize, text: &str) -> (r: Result<Vec<u8>, String>)
    requires
        catalog_name(index as nat) is Some,
    ensures
        match r {
            Ok(bytes) => catalog_encoded(index as nat, text@) == Ok::<Seq<u8>, Seq<char>>(bytes@),
            Err(message) => catalog_encoded(index as nat, text@) == Err::<Seq<u8>, Seq<char>>(
                message@,
            ),
        },
{
    let entry = encoding::all::encodings()[index];
    encoding::Encoding::encode(entry, text, encoding::EncoderTrap::Strict).map_err(
        |e| e.into_owned(),
    )
}

/// `Encoding::decode` of the entry at `index`, with the trap `Strict`: the
/// text that `data` is in that charset, or the message of the failure.
#[verifier::external_body]
fn decode_at(index: usize, data: &[u8]) -> (r: Result<String, String>)
    requires
        catalog_name(index as nat) is Some,
    ensures
        match r {
            Ok(text) => catalog_decoded(index as nat, data@) == Ok::<Seq<char>, Seq<char>>(text@),
            Err(message) => catalog_decoded(index as nat, data@) == Err::<Seq<char>, Seq<char>>(
                message@,
            ),
        },
{
    let entry = encoding::all::encodings()[index];
    encoding::Encoding::decode(entry, data, encoding::DecoderTrap::Strict).map_err(
        |e| e.into_owned(),
    )
}

/// The name under which the entry at `index` is looked up.
fn key_at(index: usize) -> (r: &'static str)
    requires
        catalog_name(index as nat) is Some,
    ensures
        catalog_key(index as nat) == Some(r@),
{
    match whatwg_name_at(index) {
        Some(name) => name,
        None => name_at(index),
    }
}

/// Looks `encoding` up in the catalog: the index of the entry that the name
/// means, or `None` if the catalog has no such charset.
pub fn find_encoder(encoding: &str) -> (r: Option<usize>)
    ensures
        match r {
            Some(index) => is_slot(encoding@, index as nat),
            None => !supported(encoding@),
        },
{
    let n = catalog_len();
    let mut found: Option<usize> = None;
    let mut i: usize = 0;
    while i < n
        invariant
            i <= n,
            forall|k: nat| k < n <==> (#[trigger] catalog_name(k)) is Some,
            match found {
                Some(index) => index < i && holds(encoding@, index as nat) && forall|j: nat|
                    index < j < i ==> !holds(encoding@, j),
                None => forall|j: nat| j < i ==> !holds(encoding@, j),
            },
        decreases n - i,
    {
        let key = key_at(i);
        if same_text(key, encoding) {
            found = Some(i);
        }
        i = i + 1;
    }
    proof {
        assert forall|j: nat| j >= n implies !holds(encoding@, j) by {
            assert(!(catalog_name(j) is Some));
        }
    }
    found
}

/// Writes `raw_data` in the charset `encode`. An unknown name gives
/// `Unsupported`; text that the charset cannot write gives `Malformed`.
pub fn encode_data(raw_data: &str, encode: &str) -> (r: Result<Vec<u8>, TranscodeError>)
    ensures
        bytes_outcome(r) == encoded(raw_data@, encode@),
{
    match find_encoder(encode) {
        Some(index) => {
            proof {
                lemma_slot(encode@, index as nat);
            }
            match encode_at(index, raw_data) {
                Ok(bytes) => Ok(bytes),
                Err(message) => Err(TranscodeError::Malformed(message)),
            }
        },
        None => Err(TranscodeError::Unsupported),
    }
}

/// Reads `raw_data` as text in the charset `encode`. An unknown name gives
/// `Unsupported`; bytes that are no text in the charset give `Malformed`.
pub fn decode_data(raw_data: &[u8], encode: &str) -> (r: Result<String, TranscodeError>)
    ensures
        text_outcome(r) == decoded(raw_data@, encode@),
{
    match find_encoder(encode) {
        Some(index) => {
            proof {
                lemma_slot(encode@, index as nat);
            }
            match decode_at(index, raw_data) {
                Ok(text) => Ok(text),
                Err(message) => Err(TranscodeError::Malformed(message)),
            }
        },
        None => Err(TranscodeError::Unsupported),
    }
}

} // verus!
