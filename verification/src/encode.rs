//! Encoding: from a buffer to the mapping that carries it.

use vstd::prelude::*;
use crate::buffer::Buffer;
use crate::codec::{base64_encode, base64_encoding, ENCODER_LIMIT};
use crate::decode::{decoded, inflates};
use crate::document::{Entry, EntryView, Mapping, Value, ValueView};
use crate::error::gives;
use crate::laws::lemma_round_trip;

verus! {

/// The mapping that carries `text` as the payload of a buffer, in plain form:
/// a null marker, the tag, and the text, in this order.
pub open spec fn plain_form(text: Seq<char>) -> Seq<EntryView> {
    seq![
        EntryView { key: "m"@, value: ValueView::Null },
        EntryView { key: "t"@, value: ValueView::Text("buffer"@) },
        EntryView { key: "base64"@, value: ValueView::Text(text) },
    ]
}

/// What a buffer of `bytes` encodes to: the plain form, with the base64 text
/// of the bytes.
pub open spec fn encoded(bytes: Seq<u8>) -> Seq<EntryView> {
    plain_form(base64_encoding(bytes))
}

impl Mapping {
    /// The plain form of a buffer whose bytes have the base64 text `text`.
    pub fn plain(text: String) -> (mapping: Mapping)
        ensures
            mapping@ == plain_form(text@),
    {
        let mut entries: Vec<Entry> = Vec::new();
        entries.push(Entry { key: "m".to_owned(), value: Value::Null });
        entries.push(Entry { key: "t".to_owned(), value: Value::Text("buffer".to_owned()) });
        entries.push(Entry { key: "base64".to_owned(), value: Value::Text(text) });
        let mapping = Mapping { entries };
        assert(mapping@ =~= plain_form(text@));
        mapping
    }
}

impl Buffer {
    /// Encodes the buffer as a mapping, from which decoding gives its bytes
    /// back.
    ///
    /// The mapping is always in plain form. The compressed form, though the
    /// decoder reads it, is never written: the runtime that consumes these
    /// documents is known to reject it, for a reason that is not understood.
    ///
    /// The base64 encoder takes no more than [`ENCODER_LIMIT`] bytes.
    pub fn serialize(&self) -> (mapping: Mapping)
        requires
            self@.len() <= ENCODER_LIMIT,
        ensures
            mapping@ == encoded(self@),
            decoded(mapping@) == gives(self@),
            !inflates(mapping@),
    {
        let text = base64_encode(self.as_ref());
        proof {
            lemma_round_trip(self@);
        }
        Mapping::plain(text)
    }
}

} // verus!
