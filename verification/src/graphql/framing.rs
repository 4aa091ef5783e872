//! The framing of the internal protocol: a document is gzip-compressed, the
//! stream is written in base64, and the base64 text stands between two
//! double quotes.

use crate::graphql::error::{GraphQLError, GraphQLErrorView};
use crate::misc::{gunzip, gunzipped, gzip, gzipped, CompressError, DecompressError};
use vstd::prelude::*;
use vstd::slice::slice_subrange;

verus! {

/// The base64 text of `data`, standard alphabet, padded.
pub uninterp spec fn base64_encoded(data: Seq<u8>) -> Seq<u8>;

/// The bytes that the base64 text `text` stands for, if it is base64.
pub uninterp spec fn base64_decoded(text: Seq<u8>) -> Option<Seq<u8>>;

/// The double quote.
pub const QUOTE: u8 = 0x22;

/// `bytes` between two double quotes.
pub open spec fn quoted(bytes: Seq<u8>) -> Seq<u8> {
    seq![QUOTE] + bytes + seq![QUOTE]
}

/// `bytes` without its first and last byte where both are double quotes,
/// else `bytes`.
pub open spec fn unquoted(bytes: Seq<u8>) -> Seq<u8> {
    if bytes.len() >= 2 && bytes[0] == QUOTE && bytes[bytes.len() - 1] == QUOTE {
        bytes.subrange(1, bytes.len() - 1)
    } else {
        bytes
    }
}

/// Whether the base64 text of `len` bytes has a length that fits `usize`.
pub open spec fn encodable(len: nat) -> bool {
    len / 3 * 4 + 4 <= usize::MAX
}

/// Whether a base64 text of `len` bytes can be handed to the decoder, which
/// adds 3 to the length.
pub open spec fn decodable(len: nat) -> bool {
    len + 3 <= usize::MAX
}

/// The payload that `document` is framed as.
pub open spec fn framed(document: Seq<u8>) -> Result<Seq<u8>, GraphQLErrorView> {
    match gzipped(document) {
        Some(stream) => if encodable(stream.len()) && decodable(base64_encoded(stream).len()) {
            Ok(quoted(base64_encoded(stream)))
        } else {
            Err(GraphQLErrorView::EncodingError(CompressError::EncoderWriterError))
        },
        None => Err(GraphQLErrorView::EncodingError(CompressError::EncoderWriterError)),
    }
}

/// The compressed stream that `payload` frames.
pub open spec fn unframed_stream(payload: Seq<u8>) -> Result<Seq<u8>, GraphQLErrorView> {
    let text = unquoted(payload);
    if !decodable(text.len()) {
        Err(GraphQLErrorView::MalformedResponse)
    } else {
        match base64_decoded(text) {
            Some(stream) => Ok(stream),
            None => Err(GraphQLErrorView::MalformedResponse),
        }
    }
}

/// The bytes that `payload` frames.
pub open spec fn unframed(payload: Seq<u8>) -> Result<Seq<u8>, GraphQLErrorView> {
    match unframed_stream(payload) {
        Ok(stream) => match gunzipped(stream) {
            Some(bytes) => Ok(bytes),
            None => Err(GraphQLErrorView::DecodeError(DecompressError::DecoderWriterError)),
        },
        Err(e) => Err(e),
    }
}

/// Bytes that were put between quotes come back when the quotes are taken
/// off.
pub proof fn lemma_unquoted_quoted(bytes: Seq<u8>)
    ensures
        unquoted(quoted(bytes)) == bytes,
{
    let q = quoted(bytes);
    assert(q[0] == QUOTE);
    assert(q[q.len() - 1] == QUOTE);
    assert(q.subrange(1, q.len() - 1) =~= bytes);
}

/// Takes the quotes off `payload` where it stands between two.
pub fn strip_quotes(payload: &[u8]) -> (res: &[u8])
    ensures
        res@ == unquoted(payload@),
{
    let len = payload.len();
    if len >= 2 && payload[0] == QUOTE && payload[len - 1] == QUOTE {
        slice_subrange(payload, 1, len - 1)
    } else {
        payload
    }
}

/// Frames `document`. What comes out unframes to `document`.
pub fn frame(document: &[u8]) -> (res: Result<Vec<u8>, GraphQLError>)
    ensures
        match framed(document@) {
            Ok(payload) => res matches Ok(out) && out@ == payload,
            Err(e) => res matches Err(r) && r@ == e,
        },
        res matches Ok(out) ==> unframed(out@) == Ok::<Seq<u8>, GraphQLErrorView>(document@),
{
    let stream = match gzip(document) {
        Some(stream) => stream,
        None => {
            return Err(GraphQLError::EncodingError(CompressError::EncoderWriterError));
        },
    };
    if stream.len() / 3 > (usize::MAX - 4) / 4 {
        return Err(GraphQLError::EncodingError(CompressError::EncoderWriterError));
    }
    let mut text = base64_encode(stream.as_slice());
    if text.len() > usize::MAX - 3 {
        return Err(GraphQLError::EncodingError(CompressError::EncoderWriterError));
    }
    let mut out: Vec<u8> = Vec::new();
    out.push(QUOTE);
    out.append(&mut text);
    out.push(QUOTE);
    proof {
        assert(out@ =~= quoted(base64_encoded(stream@)));
        lemma_unquoted_quoted(base64_encoded(stream@));
    }
    Ok(out)
}

/// Unframes `payload`: takes the quotes off, reads the base64 text and
/// decompresses the stream.
pub fn unframe(payload: &[u8]) -> (res: Result<Vec<u8>, GraphQLError>)
    ensures
        match unframed(payload@) {
            Ok(bytes) => res matches Ok(out) && out@ == bytes,
            Err(e) => res matches Err(r) && r@ == e,
        },
{
    let text = strip_quotes(payload);
    if text.len() > usize::MAX - 3 {
        return Err(GraphQLError::MalformedResponse);
    }
    let stream = match base64_decode(text) {
        Some(stream) => stream,
        None => {
            return Err(GraphQLError::MalformedResponse);
        },
    };
    match gunzip(stream.as_slice()) {
        Some(bytes) => Ok(bytes),
        None => Err(GraphQLError::DecodeError(DecompressError::DecoderWriterError)),
    }
}

/// Calls `base64::encode`, which panics where the length of the text would
/// not fit `usize`. Believed: the text depends on `data` alone, and
/// `base64::decode` gives `data` back from it.
#[verifier::external_body]
fn base64_encode(data: &[u8]) -> (res: Vec<u8>)
    requires
        encodable(data@.len()),
    ensures
        res@ == base64_encoded(data@),
        base64_decoded(res@) == Some(data@),
{
    base64::encode(data).into_bytes()
}

/// Calls `base64::decode`, which panics where the length of `text` plus 3
/// does not fit `usize`. Believed: the outcome depends on `text` alone.
#[verifier::external_body]
fn base64_decode(text: &[u8]) -> (res: Option<Vec<u8>>)
    requires
        decodable(text@.len()),
    ensures
        match base64_decoded(text@) {
            Some(bytes) => res matches Some(out) && out@ == bytes,
            None => res is None,
        },
{
    base64::decode(text).ok()
}

} // verus!
