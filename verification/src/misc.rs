//! Gzip compression of JSON documents.

use crate::json::{json_document, RawJson};
use std::io::Write;
use vstd::prelude::*;

verus! {

/// The gzip stream that the encoder writes for `data` at its default level.
pub uninterp spec fn gzipped(data: Seq<u8>) -> Option<Seq<u8>>;

/// The bytes that the single-member gzip stream `data` decodes to.
pub uninterp spec fn gunzipped(data: Seq<u8>) -> Option<Seq<u8>>;

/// Why a document could not be compressed.
#[derive(Debug, Clone, Copy, PartialEq, Eq, Structural)]
pub enum CompressError {
    /// The gzip encoder failed.
    EncoderWriterError,
    /// The value could not be written as JSON.
    UnexpectedJsonResponse,
}

/// Why bytes could not be decompressed into a document.
#[derive(Debug, Clone, Copy, PartialEq, Eq, Structural)]
pub enum DecompressError {
    /// The bytes are not a gzip stream.
    DecoderWriterError,
    /// The decompressed bytes are not one JSON document.
    UnexpectedJsonResponse,
}

/// What `compress` returns for the document `text`.
pub open spec fn compress_spec(text: Seq<char>) -> Result<Seq<u8>, CompressError> {
    match gzipped(vstd::utf8::encode_utf8(text)) {
        Some(stream) => Ok(stream),
        None => Err(CompressError::EncoderWriterError),
    }
}

/// What `decompress` returns for `input`.
pub open spec fn decompress_spec(input: Seq<u8>) -> Result<Seq<char>, DecompressError> {
    match gunzipped(input) {
        None => Err(DecompressError::DecoderWriterError),
        Some(bytes) => match json_document(bytes) {
            None => Err(DecompressError::UnexpectedJsonResponse),
            Some(text) => Ok(text),
        },
    }
}

/// Gzip-compresses the text of `input`. What comes out decompresses to
/// `input`.
pub fn compress(input: &RawJson) -> (res: Result<Vec<u8>, CompressError>)
    ensures
        match compress_spec(input@) {
            Ok(stream) => res matches Ok(out) && out@ == stream,
            Err(e) => res == Err::<Vec<u8>, CompressError>(e),
        },
        res matches Ok(out) ==> decompress_spec(out@) == Ok::<Seq<char>, DecompressError>(input@),
{
    proof {
        use_type_invariant(input);
    }
    match gzip(input.as_str().as_bytes()) {
        Some(out) => Ok(out),
        None => Err(CompressError::EncoderWriterError),
    }
}

/// Gunzips `input` and reads the result as one JSON document.
pub fn decompress(input: &[u8]) -> (res: Result<RawJson, DecompressError>)
    ensures
        match decompress_spec(input@) {
            Ok(text) => res matches Ok(doc) && doc@ == text,
            Err(e) => res matches Err(r) && r == e,
        },
{
    match gunzip(input) {
        None => Err(DecompressError::DecoderWriterError),
        Some(bytes) => match RawJson::parse(bytes.as_slice()) {
            None => Err(DecompressError::UnexpectedJsonResponse),
            Some(doc) => Ok(doc),
        },
    }
}

/// A value that is stored as the gzip stream of its JSON text.
#[derive(Debug)]
pub struct GzippedJSON<T>(pub T);

impl<T: Clone> Clone for GzippedJSON<T> {
    fn clone(&self) -> (res: Self) {
        GzippedJSON(self.0.clone())
    }
}

impl GzippedJSON<RawJson> {
    /// The stored form: the gzip stream of the document.
    pub fn to_bytes(&self) -> (res: Result<Vec<u8>, CompressError>)
        ensures
            match compress_spec(self.0@) {
                Ok(stream) => res matches Ok(out) && out@ == stream,
                Err(e) => res == Err::<Vec<u8>, CompressError>(e),
            },
            res matches Ok(out) ==> decompress_spec(out@) == Ok::<Seq<char>, DecompressError>(
                self.0@,
            ),
    {
        compress(&self.0)
    }

    /// Reads the stored form back.
    pub fn from_bytes(bytes: &[u8]) -> (res: Result<GzippedJSON<RawJson>, DecompressError>)
        ensures
            match decompress_spec(bytes@) {
                Ok(text) => res matches Ok(value) && value.0@ == text,
                Err(e) => res matches Err(r) && r == e,
            },
    {
        match decompress(bytes) {
            Ok(doc) => Ok(GzippedJSON(doc)),
            Err(e) => Err(e),
        }
    }
}

/// Runs `flate2::write::GzEncoder` over `data` at `Compression::default()`,
/// writing into a vector. Believed: the stream depends on `data` alone (the
/// header carries no time and no host), and `GzDecoder` gives `data` back
/// from it.
#[verifier::external_body]
pub(crate) fn gzip(data: &[u8]) -> (res: Option<Vec<u8>>)
    ensures
        match gzipped(data@) {
            Some(stream) => res matches Some(out) && out@ == stream && gunzipped(stream) == Some(
                data@,
            ),
            None => res is None,
        },
{
    let mut encoder = flate2::write::GzEncoder::new(Vec::new(), flate2::Compression::default());
    encoder.write_all(data).ok()?;
    encoder.finish().ok()
}

/// Runs `flate2::write::GzDecoder` over `data`, writing into a vector.
/// Believed: whether it succeeds and what it yields depend on `data` alone.
#[verifier::external_body]
pub(crate) fn gunzip(data: &[u8]) -> (res: Option<Vec<u8>>)
    ensures
        match gunzipped(data@) {
            Some(bytes) => res matches Some(out) && out@ == bytes,
            None => res is None,
        },
{
    let mut decoder = flate2::write::GzDecoder::new(Vec::new());
    decoder.write_all(data).ok()?;
    decoder.finish().ok()
}

} // verus!
