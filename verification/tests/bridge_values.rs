use glide_bridge::errors::BridgeError;
use glide_bridge::host::HostObject;
use glide_bridge::reply::ReplyValue;
use glide_bridge::translate::{is_supported, translate};

#[test]
fn translate_primitives() {
    assert_eq!(translate(&ReplyValue::Nil, true), Ok(HostObject::Null));
    assert_eq!(translate(&ReplyValue::Int(42), true), Ok(HostObject::Long(42)));
    assert_eq!(translate(&ReplyValue::Boolean(true), false), Ok(HostObject::Boolean(true)));
    let bits = 2.5f64.to_bits();
    assert_eq!(translate(&ReplyValue::Double(bits), true), Ok(HostObject::Double(bits)));
}

#[test]
fn translate_okay_status_text() {
    assert_eq!(
        translate(&ReplyValue::Okay, true),
        Ok(HostObject::Text(String::from("OK")))
    );
    assert_eq!(
        translate(&ReplyValue::Okay, false),
        Ok(HostObject::Text(String::from("OK")))
    );
}

#[test]
fn translate_simple_string_text_mode() {
    let value = ReplyValue::SimpleString(String::from("hello"));
    assert_eq!(translate(&value, true), Ok(HostObject::Text(String::from("hello"))));
}

#[test]
fn translate_simple_string_binary_mode() {
    let value = ReplyValue::SimpleString(String::from("héllo"));
    assert_eq!(
        translate(&value, false),
        Ok(HostObject::Blob(String::from("héllo").into_bytes()))
    );
}

#[test]
fn translate_bulk_string_valid_utf8_text_mode() {
    let value = ReplyValue::BulkString("héllo".as_bytes().to_vec());
    assert_eq!(translate(&value, true), Ok(HostObject::Text(String::from("héllo"))));
}

#[test]
fn translate_bulk_string_invalid_utf8_text_mode_fails() {
    let value = ReplyValue::BulkString(vec![0xff, 0xfe, 0x01]);
    assert_eq!(translate(&value, true), Err(BridgeError::Decoding));
}

#[test]
fn translate_bulk_string_binary_mode_bit_identical() {
    let bytes = vec![0xff, 0xfe, 0x01, 0x00];
    let value = ReplyValue::BulkString(bytes.clone());
    assert_eq!(translate(&value, false), Ok(HostObject::Blob(bytes)));
}

#[test]
fn translate_verbatim_string_both_modes() {
    let value = ReplyValue::VerbatimString {
        format: String::from("txt"),
        text: String::from("note"),
    };
    assert_eq!(translate(&value, true), Ok(HostObject::Text(String::from("note"))));
    assert_eq!(
        translate(&value, false),
        Ok(HostObject::Blob(String::from("note").into_bytes()))
    );
}

#[test]
fn translate_array_preserves_order() {
    let value = ReplyValue::Array(vec![
        ReplyValue::Int(1),
        ReplyValue::SimpleString(String::from("two")),
        ReplyValue::Nil,
    ]);
    assert_eq!(
        translate(&value, true),
        Ok(HostObject::Array(vec![
            HostObject::Long(1),
            HostObject::Text(String::from("two")),
            HostObject::Null,
        ]))
    );
}

#[test]
fn translate_empty_containers() {
    assert_eq!(translate(&ReplyValue::Array(vec![]), true), Ok(HostObject::Array(vec![])));
    assert_eq!(
        translate(&ReplyValue::Mapping(vec![]), true),
        Ok(HostObject::OrderedMap(vec![]))
    );
    assert_eq!(
        translate(&ReplyValue::Members(vec![]), true),
        Ok(HostObject::UnorderedSet(vec![]))
    );
}

#[test]
fn translate_mapping_preserves_insertion_order() {
    let value = ReplyValue::Mapping(vec![
        (ReplyValue::SimpleString(String::from("b")), ReplyValue::Int(2)),
        (ReplyValue::SimpleString(String::from("a")), ReplyValue::Int(1)),
        (ReplyValue::SimpleString(String::from("b")), ReplyValue::Int(3)),
    ]);
    assert_eq!(
        translate(&value, true),
        Ok(HostObject::OrderedMap(vec![
            (HostObject::Text(String::from("b")), HostObject::Long(2)),
            (HostObject::Text(String::from("a")), HostObject::Long(1)),
            (HostObject::Text(String::from("b")), HostObject::Long(3)),
        ]))
    );
}

#[test]
fn translate_members_keeps_every_member() {
    let value = ReplyValue::Members(vec![
        ReplyValue::Int(3),
        ReplyValue::Int(1),
        ReplyValue::Int(2),
    ]);
    let translated = translate(&value, true).unwrap();
    match translated {
        HostObject::UnorderedSet(members) => {
            assert_eq!(members.len(), 3);
            assert!(members.contains(&HostObject::Long(1)));
            assert!(members.contains(&HostObject::Long(2)));
            assert!(members.contains(&HostObject::Long(3)));
        }
        other => panic!("expected a set, got {other:?}"),
    }
}

#[test]
fn translate_push_message_two_entry_mapping() {
    let value = ReplyValue::PushMessage {
        kind: String::from("Message"),
        data: vec![
            ReplyValue::BulkString(b"channel".to_vec()),
            ReplyValue::BulkString(b"payload".to_vec()),
        ],
    };
    assert_eq!(
        translate(&value, true),
        Ok(HostObject::OrderedMap(vec![
            (
                HostObject::Text(String::from("kind")),
                HostObject::Text(String::from("Message")),
            ),
            (
                HostObject::Text(String::from("values")),
                HostObject::Array(vec![
                    HostObject::Text(String::from("channel")),
                    HostObject::Text(String::from("payload")),
                ]),
            ),
        ]))
    );
}

#[test]
fn translate_server_error_is_exception_value() {
    let value = ReplyValue::ServerError(String::from("ERR unknown command"));
    assert_eq!(
        translate(&value, true),
        Ok(HostObject::Exception(String::from("ERR unknown command")))
    );
}

#[test]
fn translate_nested_structure_round_trip() {
    let value = ReplyValue::Array(vec![
        ReplyValue::Mapping(vec![(
            ReplyValue::SimpleString(String::from("inner")),
            ReplyValue::Members(vec![ReplyValue::Boolean(false)]),
        )]),
        ReplyValue::Array(vec![ReplyValue::BulkString(b"leaf".to_vec())]),
    ]);
    assert_eq!(
        translate(&value, true),
        Ok(HostObject::Array(vec![
            HostObject::OrderedMap(vec![(
                HostObject::Text(String::from("inner")),
                HostObject::UnorderedSet(vec![HostObject::Boolean(false)]),
            )]),
            HostObject::Array(vec![HostObject::Text(String::from("leaf"))]),
        ]))
    );
}

#[test]
fn translate_decoding_failure_inside_container() {
    let value = ReplyValue::Array(vec![
        ReplyValue::Int(1),
        ReplyValue::BulkString(vec![0xff]),
    ]);
    assert_eq!(translate(&value, true), Err(BridgeError::Decoding));
    assert_eq!(
        translate(&value, false),
        Ok(HostObject::Array(vec![
            HostObject::Long(1),
            HostObject::Blob(vec![0xff]),
        ]))
    );
}

#[test]
fn unsupported_cases_detected() {
    assert!(!is_supported(&ReplyValue::BigNumber(b"123456789012345678901234567890".to_vec())));
    assert!(!is_supported(&ReplyValue::Attribute {
        data: Box::new(ReplyValue::Nil),
        attributes: vec![],
    }));
    assert!(!is_supported(&ReplyValue::Array(vec![
        ReplyValue::Int(1),
        ReplyValue::BigNumber(b"1".to_vec()),
    ])));
    assert!(!is_supported(&ReplyValue::Mapping(vec![(
        ReplyValue::Int(1),
        ReplyValue::Attribute { data: Box::new(ReplyValue::Nil), attributes: vec![] },
    )])));
    assert!(is_supported(&ReplyValue::Array(vec![
        ReplyValue::Int(1),
        ReplyValue::Members(vec![ReplyValue::Nil]),
    ])));
}
