//! The shape of a tagged buffer: one tag field and one payload field, found by
//! name among the fields of a mapping.

use vstd::prelude::*;
use crate::document::{same_text, Entry, EntryView, Mapping, Value, ValueView};

verus! {

/// The name of the tag field.
pub open spec fn tag_key() -> Seq<char> {
    "t"@
}

/// The name of the payload field that holds plain base64.
pub open spec fn plain_key() -> Seq<char> {
    "base64"@
}

/// The name of the payload field that holds compressed bytes in base64.
pub open spec fn compressed_key() -> Seq<char> {
    "zbase64"@
}

/// Whether a field is a tag field.
pub open spec fn is_tag(entry: EntryView) -> bool {
    entry.key == tag_key()
}

/// Whether a field is a payload field, of either kind.
pub open spec fn is_payload(entry: EntryView) -> bool {
    entry.key == plain_key() || entry.key == compressed_key()
}

/// The tag fields of a mapping, in document order.
pub open spec fn tag_entries(mapping: Seq<EntryView>) -> Seq<EntryView> {
    mapping.filter(|entry: EntryView| is_tag(entry))
}

/// The payload fields of a mapping, in document order.
pub open spec fn payload_entries(mapping: Seq<EntryView>) -> Seq<EntryView> {
    mapping.filter(|entry: EntryView| is_payload(entry))
}

/// The payload of a tagged buffer: the text of the payload field, under the
/// field's kind.
#[derive(Debug, Clone, Copy, PartialEq, Eq)]
pub enum Payload<'a> {
    /// Base64 text of the bytes.
    Base64(&'a str),
    /// Base64 text of zstd frames that hold the bytes.
    ZBase64(&'a str),
}

/// The mathematical model of a [`Payload`].
#[verifier::ext_equal]
pub enum PayloadView {
    Base64(Seq<char>),
    ZBase64(Seq<char>),
}

impl<'a> View for Payload<'a> {
    type V = PayloadView;

    open spec fn view(&self) -> PayloadView {
        match self {
            Payload::Base64(text) => PayloadView::Base64(text@),
            Payload::ZBase64(text) => PayloadView::ZBase64(text@),
        }
    }
}

/// A mapping read as a tagged buffer: what its tag says, and its payload.
#[derive(Debug, Clone, Copy, PartialEq, Eq)]
pub struct Tagged<'a> {
    pub t: &'a str,
    pub data: Payload<'a>,
}

/// The mathematical model of a [`Tagged`].
#[verifier::ext_equal]
pub struct TaggedView {
    pub t: Seq<char>,
    pub data: PayloadView,
}

impl<'a> View for Tagged<'a> {
    type V = TaggedView;

    open spec fn view(&self) -> TaggedView {
        TaggedView { t: self.t@, data: self.data@ }
    }
}

/// The payload that a payload field carries, where its value is a string.
pub open spec fn payload_of(entry: EntryView) -> Option<PayloadView> {
    match entry.value {
        ValueView::Text(text) => Some(
            if entry.key == plain_key() {
                PayloadView::Base64(text)
            } else {
                PayloadView::ZBase64(text)
            },
        ),
        _ => None,
    }
}

/// How a mapping reads as a tagged buffer. It does where it has exactly one
/// tag field, whose value is a string, and at least one payload field, the
/// first of which has a string for its value. That first payload field is the
/// payload; fields of other names are passed over.
pub open spec fn shape_of(mapping: Seq<EntryView>) -> Option<TaggedView> {
    let tags = tag_entries(mapping);
    let payloads = payload_entries(mapping);
    if tags.len() == 1 && payloads.len() >= 1 {
        match (tags[0].value, payload_of(payloads[0])) {
            (ValueView::Text(t), Some(data)) => Some(TaggedView { t, data }),
            _ => None,
        }
    } else {
        None
    }
}

/// The model of what [`Tagged::parse`] returns.
pub open spec fn tagged_view(tagged: Option<Tagged<'_>>) -> Option<TaggedView> {
    match tagged {
        Some(tagged) => Some(tagged@),
        None => None,
    }
}

/// Before its first field a mapping has no tag field and no payload field.
pub proof fn lemma_no_field(mapping: Seq<EntryView>)
    ensures
        tag_entries(mapping.take(0)) == Seq::<EntryView>::empty(),
        payload_entries(mapping.take(0)) == Seq::<EntryView>::empty(),
{
    reveal(Seq::filter);
    assert(mapping.take(0) =~= Seq::<EntryView>::empty());
}

/// One more field at the end of a mapping adds itself to the tag fields, or
/// to the payload fields, if it is one, and changes nothing else.
pub proof fn lemma_one_more_field(mapping: Seq<EntryView>, i: int)
    requires
        0 <= i < mapping.len(),
    ensures
        tag_entries(mapping.take(i + 1)) == if is_tag(mapping[i]) {
            tag_entries(mapping.take(i)).push(mapping[i])
        } else {
            tag_entries(mapping.take(i))
        },
        payload_entries(mapping.take(i + 1)) == if is_payload(mapping[i]) {
            payload_entries(mapping.take(i)).push(mapping[i])
        } else {
            payload_entries(mapping.take(i))
        },
        tag_entries(mapping.take(i)).len() <= i,
{
    reveal(Seq::filter);
    mapping.take(i).lemma_filter_len(|entry: EntryView| is_tag(entry));
    assert(mapping.take(i + 1).drop_last() =~= mapping.take(i));
    assert(mapping.take(i + 1).last() == mapping[i]);
}

impl<'a> Tagged<'a> {
    /// Reads a mapping as a tagged buffer, or finds that it is none.
    pub fn parse(mapping: &'a Mapping) -> (tagged: Option<Tagged<'a>>)
        ensures
            tagged_view(tagged) == shape_of(mapping@),
    {
        let n = mapping.entries.len();
        let mut tags: usize = 0;
        let mut tag: Option<&'a Value> = None;
        let mut payload: Option<&'a Entry> = None;
        let mut i: usize = 0;
        proof {
            lemma_no_field(mapping@);
        }
        while i < n
            invariant
                n == mapping.entries@.len(),
                n == mapping@.len(),
                i <= n,
                tags == tag_entries(mapping@.take(i as int)).len(),
                tags > 0 ==> (tag matches Some(value) && value@ == tag_entries(
                    mapping@.take(i as int),
                )[0].value),
                match payload {
                    Some(entry) => payload_entries(mapping@.take(i as int)).len() > 0 && entry@
                        == payload_entries(mapping@.take(i as int))[0],
                    None => payload_entries(mapping@.take(i as int)).len() == 0,
                },
            decreases n - i,
        {
            let entry = &mapping.entries[i];
            proof {
                lemma_one_more_field(mapping@, i as int);
            }
            if same_text(entry.key.as_str(), "t") {
                if tags == 0 {
                    tag = Some(&entry.value);
                }
                tags = tags + 1;
            }
            if payload.is_none() && (same_text(entry.key.as_str(), "base64") || same_text(
                entry.key.as_str(),
                "zbase64",
            )) {
                payload = Some(entry);
            }
            i = i + 1;
        }
        assert(mapping@.take(n as int) =~= mapping@);
        if tags != 1 {
            return None;
        }
        match (tag, payload) {
            (Some(Value::Text(t)), Some(entry)) => match &entry.value {
                Value::Text(text) => {
                    let data = if same_text(entry.key.as_str(), "base64") {
                        Payload::Base64(text.as_str())
                    } else {
                        Payload::ZBase64(text.as_str())
                    };
                    Some(Tagged { t: t.as_str(), data })
                },
                _ => None,
            },
            _ => None,
        }
    }
}

} // verus!
