//! The two outside transforms that the codec rests on: standard base64 and
//! zstd decompression. Their results are named here, and the calls are made
//! here; nothing in this file is proved.

use vstd::prelude::*;
use vstd::string::StringSliceAdditionalSpecFns;
use vstd::utf8::encode_utf8;

verus! {

/// The standard base64 text of `bytes`.
pub uninterp spec fn base64_encoding(bytes: Seq<u8>) -> Seq<char>;

/// What the base64 decoder makes of `text`: the bytes that it stands for, or
/// the decoder's diagnostic.
pub uninterp spec fn base64_decoding(text: Seq<char>) -> Result<Seq<u8>, Seq<char>>;

/// What a run of zstd frames decompresses to; `None` where `frames` is not a
/// run of whole, valid frames.
pub uninterp spec fn zstd_content(frames: Seq<u8>) -> Option<Seq<u8>>;

/// The outcome of a transform that gives `bytes`.
pub open spec fn bytes_outcome(bytes: Seq<u8>) -> Result<Seq<u8>, Seq<char>> {
    Ok(bytes)
}

/// The model of what a transform returned: the bytes, or the diagnostic.
pub open spec fn outcome_view(outcome: Result<Vec<u8>, String>) -> Result<Seq<u8>, Seq<char>> {
    match outcome {
        Ok(bytes) => Ok(bytes@),
        Err(diagnostic) => Err(diagnostic@),
    }
}

/// The longest input, in bytes, that the base64 encoder takes.
pub const ENCODER_LIMIT: usize = usize::MAX / 512;

/// The longest text, in bytes of UTF-8, that the base64 decoder takes.
pub const DECODER_LIMIT: usize = usize::MAX / 8;

/// The characters of standard base64 text: the 64 symbols and the padding.
pub open spec fn is_base64_char(c: char) -> bool {
    ||| 'A' <= c <= 'Z'
    ||| 'a' <= c <= 'z'
    ||| '0' <= c <= '9'
    ||| c == '+'
    ||| c == '/'
    ||| c == '='
}

/// Text that is plainly no base64: its length is no multiple of four, or it
/// holds a character that is none of the base64 characters.
pub open spec fn is_malformed(text: Seq<char>) -> bool {
    ||| text.len() % 4 != 0
    ||| exists|i: int| 0 <= i < text.len() && !is_base64_char(#[trigger] text[i])
}

/// `Encoding::encode` of `data_encoding`, on its constant `BASE64`. The result
/// is a function of the input alone. Decoding it gives the input back. It has
/// four bytes for every three of the input, the last group rounded up. The
/// encoder panics on an input above its limit, which is left out.
#[verifier::external_body]
pub(crate) fn base64_encode(data: &[u8]) -> (text: String)
    requires
        data@.len() <= ENCODER_LIMIT,
    ensures
        text@ == base64_encoding(data@),
        base64_decoding(text@) == bytes_outcome(data@),
        encode_utf8(text@).len() == (data@.len() + 2) / 3 * 4,
{
    data_encoding::BASE64.encode(data)
}

/// `Encoding::decode` of `data_encoding`, on its constant `BASE64`, with the
/// error rendered as text. The result is a function of the input alone, and
/// malformed text is rejected. The decoder panics on a text above its limit,
/// which is left out.
#[verifier::external_body]
pub(crate) fn base64_decode(text: &str) -> (outcome: Result<Vec<u8>, String>)
    requires
        text.spec_bytes().len() <= DECODER_LIMIT,
    ensures
        outcome_view(outcome) == base64_decoding(text@),
        is_malformed(text@) ==> outcome is Err,
{
    match data_encoding::BASE64.decode(text.as_bytes()) {
        Ok(bytes) => Ok(bytes),
        Err(error) => Err(error.to_string()),
    }
}

/// `zstd::stream::decode_all`, with the error rendered as text. Where it
/// succeeds, the result is what the frames hold. An error may come from the
/// frames or from the machine (the decompressor asks for memory), so nothing
/// is claimed of it.
#[verifier::external_body]
pub(crate) fn zstd_decompress(frames: &[u8]) -> (outcome: Result<Vec<u8>, String>)
    ensures
        outcome matches Ok(bytes) ==> zstd_content(frames@) == Some(bytes@),
{
    match zstd::stream::decode_all(frames) {
        Ok(bytes) => Ok(bytes),
        Err(error) => Err(error.to_string()),
    }
}

} // verus!
