//! A codec for the scripting runtime's `buffer` value: an owned sequence of raw
//! bytes, and the tagged mapping that carries it through a document format.
//!
//! A buffer decodes from a mapping that names it by its tag and carries its
//! bytes as base64 text, plain or zstd-compressed. It encodes to the plain
//! form only.

pub mod buffer;
pub mod codec;
pub mod decode;
pub mod document;
pub mod encode;
pub mod error;
pub mod laws;
pub mod shape;

pub use buffer::Buffer;
pub use codec::{DECODER_LIMIT, ENCODER_LIMIT};
pub use document::{Entry, Mapping, Value};
pub use error::DecodeError;
pub use shape::{Payload, Tagged};
