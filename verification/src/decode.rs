//! Decoding: from a mapping to the buffer that it carries.

use vstd::prelude::*;
use vstd::utf8::encode_utf8;
use crate::buffer::Buffer;
use crate::codec::{
    base64_decode, base64_decoding, is_malformed, zstd_content, zstd_decompress, DECODER_LIMIT,
};
use crate::document::{same_text, EntryView, Mapping};
use crate::error::{fails, DecodeError, Failure, Outcome};
use crate::shape::{shape_of, Payload, PayloadView, Tagged};

verus! {

/// What the tag field of a buffer says.
pub open spec fn buffer_tag() -> Seq<char> {
    "buffer"@
}

/// The diagnostic for payload text that is longer than the base64 decoder
/// takes.
pub open spec fn too_long() -> Seq<char> {
    "payload too long"@
}

/// The bytes that base64 text stands for, or why it stands for none.
pub open spec fn text_bytes(text: Seq<char>) -> Outcome {
    if encode_utf8(text).len() > DECODER_LIMIT {
        Err(Failure::Base64(too_long()))
    } else {
        match base64_decoding(text) {
            Ok(bytes) => Ok(bytes),
            Err(diagnostic) => Err(Failure::Base64(diagnostic)),
        }
    }
}

/// The bytes that a run of zstd frames holds, or the failure to decompress it.
pub open spec fn frames_bytes(frames: Seq<u8>) -> Outcome {
    match zstd_content(frames) {
        Some(bytes) => Ok(bytes),
        None => Err(Failure::Decompression),
    }
}

/// The text of a payload, of either kind.
pub open spec fn payload_text(data: PayloadView) -> Seq<char> {
    match data {
        PayloadView::Base64(text) => text,
        PayloadView::ZBase64(text) => text,
    }
}

/// The bytes that a payload stands for: those of its text, decompressed where
/// the payload is of the compressed kind.
pub open spec fn payload_bytes(data: PayloadView) -> Outcome {
    match data {
        PayloadView::Base64(text) => text_bytes(text),
        PayloadView::ZBase64(text) => match text_bytes(text) {
            Ok(frames) => frames_bytes(frames),
            Err(failure) => Err(failure),
        },
    }
}

/// What a mapping decodes to. The shape is judged first, then the tag, then
/// the payload.
pub open spec fn decoded(mapping: Seq<EntryView>) -> Outcome {
    match shape_of(mapping) {
        None => Err(Failure::StructuralMismatch),
        Some(tagged) => if tagged.t != buffer_tag() {
            Err(Failure::UnexpectedTag)
        } else {
            payload_bytes(tagged.data)
        },
    }
}

/// Whether decoding a mapping reaches the decompressor: the mapping is a
/// buffer whose payload is of the compressed kind, and its text is base64.
pub open spec fn inflates(mapping: Seq<EntryView>) -> bool {
    &&& shape_of(mapping) matches Some(tagged)
    &&& tagged.t == buffer_tag()
    &&& tagged.data matches PayloadView::ZBase64(text)
    &&& text_bytes(text) is Ok
}

/// Whether `outcome` is a result that decoding `mapping` can have. It is
/// [`decoded`] of the mapping. Only where decoding reaches the decompressor,
/// there is a second one: the decompressor may fail for want of memory,
/// whatever the frames hold.
pub open spec fn decodes_to(mapping: Seq<EntryView>, outcome: Outcome) -> bool {
    ||| outcome == decoded(mapping)
    ||| inflates(mapping) && outcome == fails(Failure::Decompression)
}

/// Whether a mapping is a buffer whose payload text is malformed.
pub open spec fn carries_malformed_text(mapping: Seq<EntryView>) -> bool {
    &&& shape_of(mapping) matches Some(tagged)
    &&& tagged.t == buffer_tag()
    &&& is_malformed(payload_text(tagged.data))
}

/// The model of what decoding returns: the bytes, or the failure.
pub open spec fn result_view(result: Result<Buffer, DecodeError>) -> Outcome {
    match result {
        Ok(buffer) => Ok(buffer@),
        Err(error) => Err(error@),
    }
}

/// The model of decoded bytes, or the failure to decode them.
pub open spec fn bytes_view(result: Result<Vec<u8>, DecodeError>) -> Outcome {
    match result {
        Ok(bytes) => Ok(bytes@),
        Err(error) => Err(error@),
    }
}

impl Buffer {
    /// Decodes a mapping into the buffer that it carries. The mapping is read
    /// as a tagged buffer, then its tag is checked, then its payload is
    /// decoded; the first of these that fails decides the error, and no
    /// buffer comes of a mapping that fails.
    pub fn deserialize(mapping: &Mapping) -> (result: Result<Buffer, DecodeError>)
        ensures
            decodes_to(mapping@, result_view(result)),
            carries_malformed_text(mapping@) ==> result matches Err(
                DecodeError::Base64DecodeError(_),
            ),
    {
        let tagged = match Tagged::parse(mapping) {
            Some(tagged) => tagged,
            None => {
                return Err(DecodeError::StructuralMismatch);
            },
        };
        if !same_text(tagged.t, "buffer") {
            return Err(DecodeError::UnexpectedTag);
        }
        match tagged.data {
            Payload::Base64(text) => match Buffer::decode_text(text) {
                Ok(bytes) => Ok(Buffer::new(bytes)),
                Err(error) => Err(error),
            },
            Payload::ZBase64(text) => match Buffer::decode_text(text) {
                Ok(frames) => Buffer::from_inflated(zstd_decompress(frames.as_slice())),
                Err(error) => Err(error),
            },
        }
    }

    /// Decodes base64 text. Text that is longer than the decoder takes is
    /// rejected like any other that it does not accept.
    pub fn decode_text(text: &str) -> (result: Result<Vec<u8>, DecodeError>)
        ensures
            bytes_view(result) == text_bytes(text@),
            is_malformed(text@) ==> result matches Err(DecodeError::Base64DecodeError(_)),
    {
        if text.as_bytes().len() > DECODER_LIMIT {
            return Err(DecodeError::Base64DecodeError("payload too long".to_owned()));
        }
        Buffer::from_decoded(base64_decode(text))
    }

    /// What becomes of the base64 decoder's outcome: its bytes, or its
    /// diagnostic as a [`DecodeError::Base64DecodeError`].
    pub fn from_decoded(outcome: Result<Vec<u8>, String>) -> (result: Result<Vec<u8>, DecodeError>)
        ensures
            match outcome {
                Ok(bytes) => result matches Ok(kept) && kept == bytes,
                Err(diagnostic) => result matches Err(DecodeError::Base64DecodeError(kept))
                    && kept == diagnostic,
            },
    {
        match outcome {
            Ok(bytes) => Ok(bytes),
            Err(diagnostic) => Err(DecodeError::Base64DecodeError(diagnostic)),
        }
    }

    /// What becomes of the decompressor's outcome: a buffer of its bytes, or
    /// its diagnostic as a [`DecodeError::DecompressionError`].
    pub fn from_inflated(outcome: Result<Vec<u8>, String>) -> (result: Result<Buffer, DecodeError>)
        ensures
            match outcome {
                Ok(bytes) => result matches Ok(buffer) && buffer@ == bytes@,
                Err(diagnostic) => result matches Err(DecodeError::DecompressionError(kept))
                    && kept == diagnostic,
            },
    {
        match outcome {
            Ok(bytes) => Ok(Buffer::new(bytes)),
            Err(diagnostic) => Err(DecodeError::DecompressionError(diagnostic)),
        }
    }
}

} // verus!
