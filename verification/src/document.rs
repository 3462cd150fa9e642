//! The structured value that the codec reads and writes: a mapping, that is a
//! sequence of named fields in document order.

use vstd::prelude::*;
use vstd::utf8::{encode_utf8, encode_utf8_decode_utf8};

verus! {

/// Whether two strings hold the same characters.
pub fn same_text(left: &str, right: &str) -> (same: bool)
    ensures
        same == (left@ == right@),
{
    let a = left.as_bytes();
    let b = right.as_bytes();
    proof {
        // Strings are equal where their bytes are: the bytes decode to the
        // characters.
        encode_utf8_decode_utf8(left@);
        encode_utf8_decode_utf8(right@);
    }
    let n = a.len();
    if b.len() != n {
        return false;
    }
    let mut i: usize = 0;
    while i < n
        invariant
            n == a@.len(),
            n == b@.len(),
            i <= n,
            a@ == encode_utf8(left@),
            b@ == encode_utf8(right@),
            forall|j: int| 0 <= j < i ==> a@[j] == b@[j],
        decreases n - i,
    {
        if a[i] != b[i] {
            return false;
        }
        i = i + 1;
    }
    assert(a@ =~= b@);
    true
}

/// The value of one field, as far as the codec tells values apart.
#[derive(Debug, PartialEq, Eq)]
pub enum Value {
    /// The document format's null.
    Null,
    /// A string.
    Text(String),
    /// Any other value: a number, a boolean, a sequence, a nested mapping.
    Other,
}

/// The mathematical model of a [`Value`].
#[verifier::ext_equal]
pub enum ValueView {
    Null,
    Text(Seq<char>),
    Other,
}

impl View for Value {
    type V = ValueView;

    open spec fn view(&self) -> ValueView {
        match self {
            Value::Null => ValueView::Null,
            Value::Text(text) => ValueView::Text(text@),
            Value::Other => ValueView::Other,
        }
    }
}

impl Clone for Value {
    fn clone(&self) -> (copy: Value)
        ensures
            copy == *self,
    {
        match self {
            Value::Null => Value::Null,
            Value::Text(text) => Value::Text(text.clone()),
            Value::Other => Value::Other,
        }
    }
}

/// One field of a mapping: its name and its value.
#[derive(Debug, PartialEq, Eq)]
pub struct Entry {
    pub key: String,
    pub value: Value,
}

/// The mathematical model of an [`Entry`].
#[verifier::ext_equal]
pub struct EntryView {
    pub key: Seq<char>,
    pub value: ValueView,
}

impl View for Entry {
    type V = EntryView;

    open spec fn view(&self) -> EntryView {
        EntryView { key: self.key@, value: self.value@ }
    }
}

impl Clone for Entry {
    fn clone(&self) -> (copy: Entry)
        ensures
            copy == *self,
    {
        Entry { key: self.key.clone(), value: self.value.clone() }
    }
}

/// A mapping: its fields in document order. A name may occur more than once.
#[derive(Debug, PartialEq, Eq)]
pub struct Mapping {
    pub entries: Vec<Entry>,
}

impl View for Mapping {
    type V = Seq<EntryView>;

    /// The fields' models, in document order.
    open spec fn view(&self) -> Seq<EntryView> {
        self.entries@.map_values(|entry: Entry| entry@)
    }
}

impl Clone for Mapping {
    fn clone(&self) -> (copy: Mapping)
        ensures
            copy@ == self@,
    {
        let n = self.entries.len();
        let mut entries: Vec<Entry> = Vec::new();
        let mut i: usize = 0;
        while i < n
            invariant
                n == self.entries@.len(),
                i <= n,
                entries@ == self.entries@.take(i as int),
            decreases n - i,
        {
            entries.push(self.entries[i].clone());
            i = i + 1;
        }
        assert(self.entries@.take(n as int) =~= self.entries@);
        Mapping { entries }
    }
}

} // verus!
