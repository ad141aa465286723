use mcp_agent::mcp::protocol::{decode_message, encode_message};
use mcp_agent::mcp::types::{Message, MessageId, MessageType, Priority};
use mcp_agent::utils::error::McpError;

#[test]
fn test_message_id_generation() {
    let id = MessageId::new();
    assert!(!id.to_string().is_empty());
    assert_eq!(id.to_string().len(), 36);
}

#[test]
fn test_message_conversion() {
    let message = Message::new(MessageType::Request, Priority::Normal, vec![1, 2, 3], None, None);

    let envelope = message.to_envelope().unwrap();
    assert_eq!(envelope.header.id, message.id.to_string());
    assert_eq!(envelope.header.message_type, MessageType::Request);
    assert_eq!(envelope.header.priority, Priority::Normal);
    assert_eq!(envelope.header.payload_size, 3);
    assert_eq!(envelope.payload, vec![1, 2, 3]);

    let reconstructed = Message::from_envelope(envelope).unwrap();
    assert_eq!(reconstructed.id.to_string(), message.id.to_string());
    assert_eq!(reconstructed.message_type, MessageType::Request);
    assert_eq!(reconstructed.priority, Priority::Normal);
    assert_eq!(reconstructed.payload, vec![1, 2, 3]);
}

#[test]
fn message_id_text_is_hyphenated_lowercase_hex() {
    let id = MessageId::from_bytes([0x12, 0x34, 0x56, 0x78, 0x9a, 0xbc, 0xde, 0xf0, 0, 1, 2, 3, 4, 5, 6, 7]);
    assert_eq!(id.to_string(), "12345678-9abc-def0-0001-020304050607");
    assert_eq!(id.bytes()[0], 0x12);
}

#[test]
fn frame_round_trip() {
    let corr = MessageId::from_bytes([9; 16]);
    let message = Message::new(
        MessageType::Response,
        Priority::High,
        vec![7, 8],
        Some(corr),
        Some(McpError::Custom { code: 42, message: "boom".to_string() }),
    );
    let bytes = encode_message(&message);
    let (back, used) = decode_message(&bytes).unwrap();
    assert_eq!(used, bytes.len());
    assert_eq!(back.id.bytes(), message.id.bytes());
    assert_eq!(back.message_type, MessageType::Response);
    assert_eq!(back.priority, Priority::High);
    assert_eq!(back.payload, vec![7, 8]);
    assert_eq!(back.correlation_id.unwrap().bytes(), &[9u8; 16]);
    assert_eq!(back.error, Some(McpError::Custom { code: 42, message: "boom".to_string() }));
}

#[test]
fn frame_errors() {
    assert!(matches!(decode_message(&[9]), Err(McpError::InvalidMessage(_))));
    assert!(matches!(decode_message(&[0, 7]), Err(McpError::InvalidMessage(_))));
    assert!(matches!(decode_message(&[0, 1, 2]), Err(McpError::Io(_))));
}

#[test]
fn type_and_priority_codes() {
    assert_eq!(MessageType::from_u8(2), Some(MessageType::Event));
    assert_eq!(MessageType::from_u8(4), None);
    assert_eq!(MessageType::KeepAlive.as_u8(), 3);
    assert_eq!(Priority::from_u8(0), Some(Priority::Low));
    assert_eq!(Priority::from_u8(3), None);
    assert_eq!(Priority::High.as_u8(), 2);
}

#[test]
fn fresh_identifiers_are_version_4() {
    let id = mcp_agent::mcp::types::new_uuid_string();
    let chars: Vec<char> = id.chars().collect();
    assert_eq!(chars[14], '4');
    assert!(matches!(chars[19], '8' | '9' | 'a' | 'b'));
    let m = mcp_agent::mcp::types::MessageId::new();
    assert_eq!(m.bytes()[6] >> 4, 4);
    assert_eq!(m.bytes()[8] >> 6, 2);
}
