use roblox_buffer::{Buffer, Entry, Mapping, Payload, Tagged, Value};
use std::collections::hash_map::DefaultHasher;
use std::hash::{Hash, Hasher};

fn field(key: &str, value: Value) -> Entry {
    Entry { key: key.to_string(), value }
}

fn text(value: &str) -> Value {
    Value::Text(value.to_string())
}

fn hash_of(buffer: &Buffer) -> u64 {
    let mut hasher = DefaultHasher::new();
    buffer.hash(&mut hasher);
    hasher.finish()
}

#[test]
fn new_then_into_vec_gives_the_bytes_back() {
    assert_eq!(Buffer::new(vec![1, 2, 3]).into_vec(), vec![1, 2, 3]);
    assert_eq!(Buffer::new(Vec::new()).into_vec(), Vec::<u8>::new());
    assert_eq!(Buffer::new(vec![0, 0, 0]).into_vec(), vec![0, 0, 0]);
}

#[test]
fn buffers_are_equal_where_their_bytes_are() {
    assert_eq!(Buffer::new(vec![1, 2, 3]), Buffer::new(vec![1, 2, 3]));
    assert_eq!(Buffer::new(Vec::new()), Buffer::new(Vec::new()));
    assert_ne!(Buffer::new(vec![1, 2, 3]), Buffer::new(vec![1, 2]));
    assert_ne!(Buffer::new(vec![1, 2, 3]), Buffer::new(vec![1, 2, 4]));
    assert_ne!(Buffer::new(vec![1, 2, 3]), Buffer::new(vec![3, 2, 1]));
    assert_ne!(Buffer::new(Vec::new()), Buffer::new(vec![0]));
}

#[test]
fn equal_buffers_hash_alike() {
    assert_eq!(hash_of(&Buffer::new(vec![1, 2, 3])), hash_of(&Buffer::new(vec![1, 2, 3])));
    assert_eq!(
        hash_of(&Buffer::new(vec![1, 2, 3])),
        hash_of(&Buffer::from_iter(vec![1, 2, 3]))
    );
    assert_ne!(hash_of(&Buffer::new(vec![1, 2, 3])), hash_of(&Buffer::new(vec![1, 2])));
}

#[test]
fn default_buffer_is_empty() {
    assert_eq!(Buffer::default(), Buffer::new(Vec::new()));
    assert!(Buffer::default().into_vec().is_empty());
}

#[test]
fn clone_holds_the_same_bytes() {
    let buffer = Buffer::new(vec![9, 8, 7]);
    let copy = buffer.clone();
    assert_eq!(copy, buffer);
    assert_eq!(copy.into_vec(), vec![9, 8, 7]);
}

#[test]
fn buffer_converts_into_its_bytes() {
    let bytes: Vec<u8> = Buffer::new(vec![4, 5, 6]).into();
    assert_eq!(bytes, vec![4, 5, 6]);
    assert_eq!(Vec::<u8>::from(Buffer::new(Vec::new())), Vec::<u8>::new());
}

#[test]
fn bytes_can_be_viewed_and_changed_in_place() {
    let mut buffer = Buffer::new(vec![1, 2, 3]);
    let view: &[u8] = buffer.as_ref();
    assert_eq!(view, &[1, 2, 3]);
    let bytes: &mut [u8] = buffer.as_mut();
    bytes[1] = 20;
    bytes.reverse();
    assert_eq!(buffer.as_ref(), &[3, 20, 1]);
    assert_eq!(buffer.into_vec(), vec![3, 20, 1]);
}

#[test]
fn from_iter_keeps_the_order() {
    assert_eq!(Buffer::from_iter(vec![3, 1, 2]), Buffer::new(vec![3, 1, 2]));
    assert_eq!(Buffer::from_iter(Vec::new()), Buffer::default());
}

#[test]
fn extend_appends_at_the_end() {
    let mut buffer = Buffer::new(vec![1, 2]);
    buffer.extend(vec![3, 4, 5]);
    assert_eq!(buffer, Buffer::new(vec![1, 2, 3, 4, 5]));
    buffer.extend(Vec::new());
    assert_eq!(buffer, Buffer::new(vec![1, 2, 3, 4, 5]));
    let mut empty = Buffer::default();
    empty.extend(vec![1]);
    empty.extend(vec![1]);
    assert_eq!(empty.into_vec(), vec![1, 1]);
}

#[test]
fn extended_buffer_round_trips() {
    let mut buffer = Buffer::from_iter(b"hello".to_vec());
    buffer.extend(b" world".to_vec());
    let mapping = buffer.serialize();
    assert_eq!(mapping.entries[2], field("base64", text("aGVsbG8gd29ybGQ=")));
    assert_eq!(Buffer::deserialize(&mapping), Ok(buffer));
}

#[test]
fn mapping_reads_as_a_tagged_buffer() {
    let tag = "buffer".to_string();
    let payload = "aGk=".to_string();
    let mapping = Mapping {
        entries: vec![field("m", Value::Null), field("t", text("buffer")), field("base64", text("aGk="))],
    };
    assert_eq!(Tagged::parse(&mapping), Some(Tagged { t: &tag, data: Payload::Base64(&payload) }));

    let other = "anything".to_string();
    let mapping = Mapping {
        entries: vec![field("zbase64", text("aGk=")), field("t", text("anything"))],
    };
    assert_eq!(Tagged::parse(&mapping), Some(Tagged { t: &other, data: Payload::ZBase64(&payload) }));
}

#[test]
fn mapping_of_another_shape_is_no_tagged_buffer() {
    let shapes = vec![
        vec![],
        vec![field("t", text("buffer"))],
        vec![field("base64", text("aGk="))],
        vec![field("T", text("buffer")), field("base64", text("aGk="))],
        vec![field("t", text("buffer")), field("Base64", text("aGk="))],
        vec![field("t", text("buffer")), field("base64 ", text("aGk="))],
        vec![field("t", Value::Null), field("base64", text("aGk="))],
        vec![field("t", text("buffer")), field("base64", Value::Other)],
        vec![field("t", text("buffer")), field("t", text("buffer")), field("base64", text("aGk="))],
        vec![field("t", text("buffer")), field("base64", text("aGk=")), field("t", Value::Null)],
    ];
    for entries in shapes {
        assert_eq!(Tagged::parse(&Mapping { entries }), None);
    }
}

#[test]
fn mappings_clone_to_equal_mappings() {
    let mapping = Mapping {
        entries: vec![field("m", Value::Null), field("t", text("buffer")), field("x", Value::Other)],
    };
    assert_eq!(mapping.clone(), mapping);
    assert_eq!(mapping.entries[1].clone(), field("t", text("buffer")));
    assert_eq!(Value::Other.clone(), Value::Other);
    assert_eq!(Mapping { entries: Vec::new() }.clone().entries.len(), 0);
}
