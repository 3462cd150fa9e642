//! Why a mapping did not decode.

use vstd::prelude::*;

verus! {

/// The ways in which decoding a mapping fails.
#[derive(Debug, PartialEq, Eq)]
pub enum DecodeError {
    /// The mapping does not have the shape of a tagged buffer.
    StructuralMismatch,
    /// The tag field is there, but it does not say `buffer`.
    UnexpectedTag,
    /// The payload text is not valid base64; the codec's diagnostic is attached.
    Base64DecodeError(String),
    /// The compressed payload did not decompress; the decompressor's diagnostic
    /// is attached.
    DecompressionError(String),
}

/// The mathematical model of a [`DecodeError`]. A decompression failure is
/// modelled without its diagnostic: the decompressor's words are its own.
#[verifier::ext_equal]
pub enum Failure {
    StructuralMismatch,
    UnexpectedTag,
    Base64(Seq<char>),
    Decompression,
}

/// The outcome of a decoding, as a model: the bytes, or the failure.
pub type Outcome = Result<Seq<u8>, Failure>;

/// The outcome that is `bytes`.
pub open spec fn gives(bytes: Seq<u8>) -> Outcome {
    Ok(bytes)
}

/// The outcome that is `failure`.
pub open spec fn fails(failure: Failure) -> Outcome {
    Err(failure)
}

impl View for DecodeError {
    type V = Failure;

    open spec fn view(&self) -> Failure {
        match self {
            DecodeError::StructuralMismatch => Failure::StructuralMismatch,
            DecodeError::UnexpectedTag => Failure::UnexpectedTag,
            DecodeError::Base64DecodeError(diagnostic) => Failure::Base64(diagnostic@),
            DecodeError::DecompressionError(_) => Failure::Decompression,
        }
    }
}

impl DecodeError {
    /// What [`DecodeError::message`] says: a fixed text for a mapping of the
    /// wrong shape and for an unexpected tag, else the attached diagnostic.
    pub open spec fn diagnostic(&self) -> Seq<char> {
        match self {
            DecodeError::StructuralMismatch => "expected a tagged buffer mapping"@,
            DecodeError::UnexpectedTag => "expected buffer"@,
            DecodeError::Base64DecodeError(diagnostic) => diagnostic@,
            DecodeError::DecompressionError(diagnostic) => diagnostic@,
        }
    }

    /// The error in words, for the user of the document format.
    pub fn message(&self) -> (text: String)
        ensures
            text@ == self.diagnostic(),
    {
        match self {
            DecodeError::StructuralMismatch => "expected a tagged buffer mapping".to_owned(),
            DecodeError::UnexpectedTag => "expected buffer".to_owned(),
            DecodeError::Base64DecodeError(diagnostic) => diagnostic.clone(),
            DecodeError::DecompressionError(diagnostic) => diagnostic.clone(),
        }
    }
}

impl Clone for DecodeError {
    fn clone(&self) -> (copy: DecodeError)
        ensures
            copy == *self,
    {
        match self {
            DecodeError::StructuralMismatch => DecodeError::StructuralMismatch,
            DecodeError::UnexpectedTag => DecodeError::UnexpectedTag,
            DecodeError::Base64DecodeError(diagnostic) => DecodeError::Base64DecodeError(
                diagnostic.clone(),
            ),
            DecodeError::DecompressionError(diagnostic) => DecodeError::DecompressionError(
                diagnostic.clone(),
            ),
        }
    }
}

} // verus!
