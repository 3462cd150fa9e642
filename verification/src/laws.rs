//! What holds of decoding and encoding, whatever the mapping and the bytes.
//!
//! The laws speak of [`decodes_to`], in which the contract of
//! [`Buffer::deserialize`](crate::buffer::Buffer::deserialize) is stated, and
//! of [`encoded`], in which that of
//! [`Buffer::serialize`](crate::buffer::Buffer::serialize) is.

use vstd::prelude::*;
use vstd::utf8::encode_utf8;
use crate::decode::{buffer_tag, decoded, decodes_to, inflates, payload_text, text_bytes};
use crate::encode::{encoded, plain_form};
use crate::codec::{base64_decoding, base64_encoding, bytes_outcome, zstd_content, DECODER_LIMIT};
use crate::document::EntryView;
use crate::error::{fails, gives, Failure, Outcome};
use crate::shape::{
    compressed_key, is_payload, is_tag, lemma_no_field, lemma_one_more_field, payload_entries,
    shape_of, tag_entries, PayloadView, TaggedView,
};

verus! {

/// Whether a mapping is a buffer that carries `bytes` in a payload of the
/// plain kind.
pub open spec fn carries_plain(mapping: Seq<EntryView>, bytes: Seq<u8>) -> bool {
    &&& shape_of(mapping) matches Some(tagged)
    &&& tagged.t == buffer_tag()
    &&& tagged.data matches PayloadView::Base64(text)
    &&& text_bytes(text) == gives(bytes)
}

/// Whether a mapping is a buffer that carries `bytes` in a payload of the
/// compressed kind: its text is the base64 of frames that hold `bytes`.
pub open spec fn carries_compressed(mapping: Seq<EntryView>, bytes: Seq<u8>) -> bool {
    &&& shape_of(mapping) matches Some(tagged)
    &&& tagged.t == buffer_tag()
    &&& tagged.data matches PayloadView::ZBase64(text)
    &&& text_bytes(text) matches Ok(frames)
    &&& zstd_content(frames) == Some(bytes)
}

/// Whether a mapping is a buffer whose payload, of the compressed kind, is the
/// base64 of bytes that are no run of valid zstd frames.
pub open spec fn carries_corrupt_frames(mapping: Seq<EntryView>) -> bool {
    &&& shape_of(mapping) matches Some(tagged)
    &&& tagged.t == buffer_tag()
    &&& tagged.data matches PayloadView::ZBase64(text)
    &&& text_bytes(text) matches Ok(frames)
    &&& zstd_content(frames) is None
}

/// Whether a mapping is a buffer whose payload, of either kind, is text that
/// the base64 decoder rejects.
pub open spec fn carries_rejected_text(mapping: Seq<EntryView>) -> bool {
    &&& shape_of(mapping) matches Some(tagged)
    &&& tagged.t == buffer_tag()
    &&& base64_decoding(payload_text(tagged.data)) is Err
}

/// The names of the plain form's three fields differ from each other, and
/// from the name for the compressed kind of payload.
proof fn lemma_names_differ()
    ensures
        "m"@ != "t"@,
        "m"@ != "base64"@,
        "m"@ != "zbase64"@,
        "t"@ != "base64"@,
        "t"@ != "zbase64"@,
        "base64"@ != "zbase64"@,
{
    reveal_strlit("m");
    reveal_strlit("t");
    reveal_strlit("base64");
    reveal_strlit("zbase64");
    assert("m"@.len() == 1 && "t"@.len() == 1);
    assert("base64"@.len() == 6);
    assert("zbase64"@.len() == 7);
    assert("m"@[0] != "t"@[0]);
}

/// Read as a tagged buffer, the plain form says `buffer` and carries its text
/// as a payload of the plain kind.
pub proof fn lemma_plain_form_shape(text: Seq<char>)
    ensures
        shape_of(plain_form(text)) == Some(
            TaggedView { t: buffer_tag(), data: PayloadView::Base64(text) },
        ),
{
    lemma_names_differ();
    let mapping = plain_form(text);
    lemma_no_field(mapping);
    lemma_one_more_field(mapping, 0);
    lemma_one_more_field(mapping, 1);
    lemma_one_more_field(mapping, 2);
    assert(mapping.take(3) =~= mapping);
    assert(!is_tag(mapping[0]) && !is_payload(mapping[0]));
    assert(is_tag(mapping[1]) && !is_payload(mapping[1]));
    assert(!is_tag(mapping[2]) && is_payload(mapping[2]));
    assert(tag_entries(mapping) =~= seq![mapping[1]]);
    assert(payload_entries(mapping) =~= seq![mapping[2]]);
}

/// Round trip: decoding what `bytes` encode to gives `bytes` back, and nothing
/// else. It rests on the base64 codec: that it gives back what it encoded,
/// and that its decoder takes the text.
pub proof fn lemma_round_trip(bytes: Seq<u8>)
    requires
        base64_decoding(base64_encoding(bytes)) == bytes_outcome(bytes),
        encode_utf8(base64_encoding(bytes)).len() <= DECODER_LIMIT,
    ensures
        decoded(encoded(bytes)) == gives(bytes),
        !inflates(encoded(bytes)),
        forall|outcome: Outcome| #[trigger]
            decodes_to(encoded(bytes), outcome) ==> outcome == gives(bytes),
{
    lemma_plain_form_shape(base64_encoding(bytes));
}

/// The two kinds of payload decode alike: a buffer that carries `bytes` in
/// plain form and one that carries them compressed both decode to `bytes`.
/// Where the decompressor fails for want of memory, the second decodes to
/// nothing; it never decodes to other bytes.
pub proof fn lemma_cross_variant(
    bytes: Seq<u8>,
    plain: Seq<EntryView>,
    compressed: Seq<EntryView>,
    plain_outcome: Outcome,
    compressed_outcome: Outcome,
)
    requires
        carries_plain(plain, bytes),
        carries_compressed(compressed, bytes),
        decodes_to(plain, plain_outcome),
        decodes_to(compressed, compressed_outcome),
    ensures
        decoded(plain) == decoded(compressed),
        plain_outcome == gives(bytes),
        compressed_outcome is Ok ==> compressed_outcome == plain_outcome,
{
}

/// The tag is enforced: a mapping that reads as a tagged buffer, and whose tag
/// is anything but `buffer`, fails to decode with an unexpected tag, whatever
/// its payload holds.
pub proof fn lemma_tag_enforced(mapping: Seq<EntryView>, outcome: Outcome)
    requires
        shape_of(mapping) matches Some(tagged) && tagged.t != buffer_tag(),
        decodes_to(mapping, outcome),
    ensures
        outcome == fails(Failure::UnexpectedTag),
{
}

/// Text that the base64 decoder rejects fails the decoding with a base64
/// error, and no bytes come of it.
pub proof fn lemma_rejected_text(mapping: Seq<EntryView>, outcome: Outcome)
    requires
        carries_rejected_text(mapping),
        decodes_to(mapping, outcome),
    ensures
        outcome matches Err(Failure::Base64(_)),
{
}

/// A compressed payload that is no run of valid zstd frames fails the
/// decoding with a decompression error.
pub proof fn lemma_corrupt_frames(mapping: Seq<EntryView>, outcome: Outcome)
    requires
        carries_corrupt_frames(mapping),
        decodes_to(mapping, outcome),
    ensures
        outcome == fails(Failure::Decompression),
{
}

/// The encoder emits the plain form only: no field of what `bytes` encode to
/// is named for the compressed kind of payload.
pub proof fn lemma_plain_form_only(bytes: Seq<u8>)
    ensures
        forall|i: int|
            0 <= i < encoded(bytes).len() ==> (#[trigger] encoded(bytes)[i]).key
                != compressed_key(),
{
    lemma_names_differ();
}

} // verus!
