//! Text to stored blob and back: UTF-8 bytes under Brotli compression.

use base64::alphabet::Alphabet;
use base64::engine::GeneralPurpose;
use base64::Engine;
use vstd::prelude::*;
use vstd::utf8::{decode_utf8, encode_utf8, valid_utf8};

verus! {

/// The 64 symbols under which ids and stored descriptions are written.
pub const ID_ALPHABET: &'static str =
    "abcdefghijklmnopqrstuvwxyzABCDEFGHIJKLMNOPQRSTUVWXYZ1234567890+/";

/// What `brotli::BrotliCompress` with default parameters writes for the input
/// `data`, or `None` where it reports an error. The encoder is built with
/// its table-driven cost estimates (`portable-float`), under which it writes
/// the same bytes on every target.
pub uninterp spec fn brotli_compressed(data: Seq<u8>) -> Option<Seq<u8>>;

/// What `brotli::BrotliDecompress` writes for the input `data`, or `None`
/// where it rejects the input.
pub uninterp spec fn brotli_decompressed(data: Seq<u8>) -> Option<Seq<u8>>;

/// What `String::from_utf8_lossy` makes of bytes that are not valid UTF-8.
pub uninterp spec fn utf8_lossy_text(bytes: Seq<u8>) -> Seq<char>;

/// The bytes inside an optional byte vector.
pub open spec fn bytes_of(o: Option<Vec<u8>>) -> Option<Seq<u8>> {
    match o {
        Some(v) => Some(v@),
        None => None,
    }
}

/// The text inside an optional string.
pub open spec fn text_of(o: Option<String>) -> Option<Seq<char>> {
    match o {
        Some(s) => Some(s@),
        None => None,
    }
}

/// Calls `brotli::BrotliCompress` on an in-memory reader and writer with the
/// default encoder parameters. Not proved: that the output is the named
/// function of the input, and that Brotli is lossless, so that decompressing
/// the output gives the input back.
#[verifier::external_body]
pub(crate) fn brotli_compress(data: &Vec<u8>) -> (r: Option<Vec<u8>>)
    ensures
        bytes_of(r) == brotli_compressed(data@),
        r matches Some(c) ==> brotli_decompressed(c@) == Some(data@),
{
    let mut input = std::io::Cursor::new(data);
    let mut output: Vec<u8> = Vec::new();
    match brotli::BrotliCompress(&mut input, &mut output, &Default::default()) {
        Ok(_) => Some(output),
        Err(_) => None,
    }
}

/// Calls `brotli::BrotliDecompress` on an in-memory reader and writer. Not
/// proved: that the output is the named function of the input.
#[verifier::external_body]
pub(crate) fn brotli_decompress(data: &Vec<u8>) -> (r: Option<Vec<u8>>)
    ensures
        bytes_of(r) == brotli_decompressed(data@),
{
    let mut input = std::io::Cursor::new(data);
    let mut output: Vec<u8> = Vec::new();
    match brotli::BrotliDecompress(&mut input, &mut output) {
        Ok(()) => Some(output),
        Err(_) => None,
    }
}

/// The text that lossy decoding gives for `bytes`: the decoded characters
/// where the bytes are valid UTF-8.
pub open spec fn lossy_text(bytes: Seq<u8>) -> Seq<char> {
    if valid_utf8(bytes) {
        decode_utf8(bytes)
    } else {
        utf8_lossy_text(bytes)
    }
}

/// Calls `String::from_utf8_lossy`. Not proved: that valid UTF-8 is decoded
/// as it stands, and that the result for other bytes is the named function of
/// them.
#[verifier::external_body]
pub(crate) fn text_from_utf8_lossy(bytes: &Vec<u8>) -> (s: String)
    ensures
        valid_utf8(bytes@) ==> s@ == decode_utf8(bytes@),
        !valid_utf8(bytes@) ==> s@ == utf8_lossy_text(bytes@),
{
    String::from_utf8_lossy(bytes).into_owned()
}

/// Calls `String::from_utf8`. Not proved: that it accepts exactly the valid
/// UTF-8 byte sequences and decodes them.
#[verifier::external_body]
pub(crate) fn text_from_utf8(bytes: Vec<u8>) -> (r: Option<String>)
    ensures
        r is Some <==> valid_utf8(bytes@),
        r matches Some(s) ==> s@ == decode_utf8(bytes@),
{
    String::from_utf8(bytes).ok()
}

/// The blob that stands for `text` in the object store, where the compressor
/// gives one.
pub open spec fn packed(text: Seq<char>) -> Option<Seq<u8>> {
    brotli_compressed(encode_utf8(text))
}

/// The text a blob stands for, read leniently: bytes that decompress but are
/// not UTF-8 are still turned into text.
pub open spec fn unpacked_lossy(blob: Seq<u8>) -> Option<Seq<char>> {
    match brotli_decompressed(blob) {
        Some(bytes) => Some(lossy_text(bytes)),
        None => None,
    }
}

/// The text a blob stands for, read strictly: only valid UTF-8 counts.
pub open spec fn unpacked(blob: Seq<u8>) -> Option<Seq<char>> {
    match brotli_decompressed(blob) {
        Some(bytes) => if valid_utf8(bytes) {
            Some(decode_utf8(bytes))
        } else {
            None
        },
        None => None,
    }
}

/// Compresses `text` for the object store. Whatever blob comes out, both
/// readers turn it back into exactly `text`.
pub fn pack_text(text: &str) -> (r: Option<Vec<u8>>)
    ensures
        bytes_of(r) == packed(text@),
        r matches Some(blob) ==> unpacked_lossy(blob@) == Some(text@) && unpacked(blob@) == Some(
            text@,
        ),
{
    let bytes = text.as_bytes_vec();
    proof {
        vstd::utf8::encode_utf8_valid_utf8(text@);
        vstd::utf8::encode_utf8_decode_utf8(text@);
    }
    brotli_compress(&bytes)
}

/// Reads a blob leniently: `None` exactly when it does not decompress.
pub fn unpack_text_lossy(blob: &Vec<u8>) -> (r: Option<String>)
    ensures
        text_of(r) == unpacked_lossy(blob@),
{
    match brotli_decompress(blob) {
        Some(bytes) => Some(text_from_utf8_lossy(&bytes)),
        None => None,
    }
}

/// Reads a blob strictly: `None` exactly when it does not decompress to valid
/// UTF-8.
pub fn unpack_text(blob: &Vec<u8>) -> (r: Option<String>)
    ensures
        text_of(r) == unpacked(blob@),
{
    match brotli_decompress(blob) {
        Some(bytes) => text_from_utf8(bytes),
        None => None,
    }
}


/// The text that base64 with padding gives for `bytes` under the 64 symbols
/// of `alphabet`, or `None` where the alphabet is rejected.
pub uninterp spec fn base64_text(alphabet: Seq<char>, bytes: Seq<u8>) -> Option<Seq<char>>;

/// Calls `base64::alphabet::Alphabet::new`, and with the alphabet
/// `GeneralPurpose::new` under the default configuration and `encode`. Not
/// proved: that the result is the named function of the alphabet and the
/// bytes. `encode` panics where the length of the text would not fit in
/// `usize`, which `requires` leaves out.
#[verifier::external_body]
pub(crate) fn base64_encode(alphabet: &str, bytes: &Vec<u8>) -> (r: Option<String>)
    requires
        bytes@.len() <= usize::MAX / 2,
    ensures
        text_of(r) == base64_text(alphabet@, bytes@),
{
    match Alphabet::new(alphabet) {
        Ok(symbols) => Some(GeneralPurpose::new(&symbols, Default::default()).encode(bytes)),
        Err(_) => None,
    }
}

/// The text that stands for `bytes` under `alphabet`, where there is one and
/// the bytes are few enough to encode.
pub open spec fn encoded(alphabet: Seq<char>, bytes: Seq<u8>) -> Option<Seq<char>> {
    if bytes.len() <= usize::MAX / 2 {
        base64_text(alphabet, bytes)
    } else {
        None
    }
}

/// Encodes `bytes` in base64 with padding under `alphabet`.
pub fn encode_bytes(alphabet: &str, bytes: &Vec<u8>) -> (r: Option<String>)
    ensures
        text_of(r) == encoded(alphabet@, bytes@),
{
    if bytes.len() > usize::MAX / 2 {
        None
    } else {
        base64_encode(alphabet, bytes)
    }
}

} // verus!
