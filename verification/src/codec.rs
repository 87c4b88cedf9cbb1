//! The two byte-level stages of the log-batch pipeline, base64 and gzip, as
//! the `base64` and `flate2` crates perform them.
//!
//! Neither stage is described here line by line: each gets a name for what it
//! yields, and the pipeline's contracts are stated over those names. The
//! decoders' own errors stop here: the pipeline reports the stage that failed.

use std::io::Read;
use vstd::prelude::*;

verus! {

/// The bytes that `text` stands for in base64 with the standard alphabet, or
/// `None` where `text` is no such encoding: where it holds a character from
/// outside the alphabet, has an impossible length, or is wrongly padded.
pub uninterp spec fn base64_decoded(text: Seq<char>) -> Option<Seq<u8>>;

/// The text that the first gzip member of `bytes` decompresses to, or `None`
/// where the stream is truncated or corrupt, or its content is not UTF-8.
pub uninterp spec fn gunzipped(bytes: Seq<u8>) -> Option<Seq<char>>;

/// Calls `base64::decode_config_buf` with `base64::STANDARD` on an empty
/// buffer, which is the decoding that `base64::decode` performs once it has
/// sized its buffer. Trusted: the bytes are returned exactly where
/// `base64_decoded` has a value, and are that value.
#[verifier::external_body]
pub(crate) fn base64_decode(text: &str) -> (r: Option<Vec<u8>>)
    ensures
        match r {
            Some(bytes) => base64_decoded(text@) == Some(bytes@),
            None => base64_decoded(text@) is None,
        },
{
    let mut bytes = Vec::new();
    match base64::decode_config_buf(text, base64::STANDARD, &mut bytes) {
        Ok(()) => Some(bytes),
        Err(_) => None,
    }
}

/// Reads `flate2::read::GzDecoder` over `bytes` to the end with
/// `read_to_string`. Trusted: the text is returned exactly where `gunzipped`
/// has a value, and is that value.
#[verifier::external_body]
pub(crate) fn gunzip(bytes: &Vec<u8>) -> (r: Option<String>)
    ensures
        match r {
            Some(text) => gunzipped(bytes@) == Some(text@),
            None => gunzipped(bytes@) is None,
        },
{
    let mut text = String::new();
    match flate2::read::GzDecoder::new(bytes.as_slice()).read_to_string(&mut text) {
        Ok(_) => Some(text),
        Err(_) => None,
    }
}

} // verus!
