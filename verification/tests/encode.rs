use roblox_buffer::{Buffer, Entry, Mapping, Value};

fn field(key: &str, value: Value) -> Entry {
    Entry { key: key.to_string(), value }
}

fn text(value: &str) -> Value {
    Value::Text(value.to_string())
}

/// The JSON object that a mapping of nulls and strings stands for, its fields
/// in the mapping's order.
fn json_of(mapping: &Mapping) -> String {
    let mut fields = Vec::new();
    for entry in &mapping.entries {
        let value = match &entry.value {
            Value::Null => serde_json::to_string(&serde_json::Value::Null).unwrap(),
            Value::Text(text) => serde_json::to_string(text).unwrap(),
            Value::Other => panic!("a value that the encoder does not write"),
        };
        fields.push(format!("{}:{}", serde_json::to_string(&entry.key).unwrap(), value));
    }
    format!("{{{}}}", fields.join(","))
}

fn sample_inputs() -> Vec<Vec<u8>> {
    vec![
        Vec::new(),
        vec![0],
        vec![0, 0],
        vec![0, 0, 0],
        b"hi".to_vec(),
        b"hello world".to_vec(),
        (0..=255u8).collect(),
        (0..=255u8).rev().cycle().take(10_000).collect(),
        vec![0xff; 4097],
    ]
}

#[test]
fn hi_encodes_to_the_plain_form() {
    let mapping = Buffer::new(b"hi".to_vec()).serialize();
    assert_eq!(
        mapping,
        Mapping {
            entries: vec![
                field("m", Value::Null),
                field("t", text("buffer")),
                field("base64", text("aGk=")),
            ],
        }
    );
    assert_eq!(json_of(&mapping), r#"{"m":null,"t":"buffer","base64":"aGk="}"#);
}

#[test]
fn empty_buffer_encodes_to_empty_text() {
    let mapping = Buffer::new(Vec::new()).serialize();
    assert_eq!(json_of(&mapping), r#"{"m":null,"t":"buffer","base64":""}"#);
}

#[test]
fn encoding_round_trips() {
    for bytes in sample_inputs() {
        let mapping = Buffer::new(bytes.clone()).serialize();
        assert_eq!(Buffer::deserialize(&mapping), Ok(Buffer::new(bytes)));
    }
}

#[test]
fn encoder_emits_the_plain_form_only() {
    for bytes in sample_inputs() {
        let mapping = Buffer::new(bytes).serialize();
        assert_eq!(mapping.entries.len(), 3);
        assert_eq!(mapping.entries[0], field("m", Value::Null));
        assert_eq!(mapping.entries[1], field("t", text("buffer")));
        assert_eq!(mapping.entries[2].key, "base64");
        assert!(mapping.entries.iter().all(|entry| entry.key != "zbase64"));
    }
}

#[test]
fn text_has_four_bytes_for_every_three() {
    for (length, expected) in [(0, 0), (1, 4), (2, 4), (3, 4), (4, 8), (5, 8), (6, 8), (7, 12), (100, 136)] {
        let mapping = Buffer::new(vec![7; length]).serialize();
        match &mapping.entries[2].value {
            Value::Text(text) => assert_eq!(text.len(), expected),
            _ => panic!("the payload is text"),
        }
    }
}

#[test]
fn text_is_standard_base64() {
    let mapping = Buffer::new(vec![0xfb, 0xff, 0xfe]).serialize();
    assert_eq!(mapping.entries[2], field("base64", text("+//+")));
    let mapping = Buffer::new(b"Hello world".to_vec()).serialize();
    assert_eq!(mapping.entries[2], field("base64", text("SGVsbG8gd29ybGQ=")));
}

#[test]
fn plain_form_carries_the_text_as_given() {
    let mapping = Mapping::plain("aGk=".to_string());
    assert_eq!(json_of(&mapping), r#"{"m":null,"t":"buffer","base64":"aGk="}"#);
    let mapping = Mapping::plain(String::new());
    assert_eq!(
        mapping.entries,
        vec![field("m", Value::Null), field("t", text("buffer")), field("base64", text(""))]
    );
}
