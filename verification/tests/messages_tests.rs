//! Tests for the message codec: serialization and deserialization under the
//! JSON and CBOR wire formats.

use websocket_toolkit::messages::{MessageFormat, MessageHandler};

/// Tests JSON serialization and deserialization.
#[test]
fn test_json_serialization() {
    let message = "Hello, WebSocket!";
    let serialized = MessageHandler::serialize(&message, MessageFormat::Json);
    assert!(serialized.is_ok(), "Expected successful JSON serialization");
    let serialized = serialized.unwrap();
    assert!(!serialized.is_empty(), "Expected non-empty JSON serialized data");

    let deserialized: Result<Option<String>, String> =
        MessageHandler::deserialize(&serialized, MessageFormat::Json);
    assert!(deserialized.is_ok(), "Expected successful JSON deserialization");
    assert_eq!(
        deserialized.unwrap(),
        Some(message.to_string()),
        "Expected deserialized JSON to match original message"
    );
}

/// Tests CBOR serialization and deserialization.
#[test]
fn test_cbor_serialization() {
    let message = "Hello, WebSocket!";
    let serialized = MessageHandler::serialize(&message, MessageFormat::Cbor);
    assert!(serialized.is_ok(), "Expected successful CBOR serialization");
    let serialized = serialized.unwrap();
    assert!(!serialized.is_empty(), "Expected non-empty CBOR serialized data");

    let deserialized: Result<Option<String>, String> =
        MessageHandler::deserialize(&serialized, MessageFormat::Cbor);
    assert!(deserialized.is_ok(), "Expected successful CBOR deserialization");
    assert_eq!(
        deserialized.unwrap(),
        Some(message.to_string()),
        "Expected deserialized CBOR to match original message"
    );
}

/// Tests serialization and deserialization of messages in JSON and CBOR formats.
#[test]
fn test_message_serialization_and_deserialization() {
    let message = "Hello, WebSocket!";

    let serialized_json = MessageHandler::serialize(&message, MessageFormat::Json).unwrap();
    assert!(!serialized_json.is_empty(), "Expected non-empty serialized JSON data");

    let deserialized_json: Option<String> =
        MessageHandler::deserialize(&serialized_json, MessageFormat::Json)
            .expect("Failed to deserialize JSON");
    assert_eq!(
        deserialized_json,
        Some(message.to_string()),
        "Expected deserialized JSON to match original message"
    );

    let serialized_cbor = MessageHandler::serialize(&message, MessageFormat::Cbor).unwrap();
    assert!(!serialized_cbor.is_empty(), "Expected non-empty serialized CBOR data");

    let deserialized_cbor: Option<String> =
        MessageHandler::deserialize(&serialized_cbor, MessageFormat::Cbor)
            .expect("Failed to deserialize CBOR");
    assert_eq!(
        deserialized_cbor,
        Some(message.to_string()),
        "Expected deserialized CBOR to match original message"
    );
}

/// Tests message serialization in both JSON and CBOR formats.
#[test]
fn test_message_serialization() {
    let message = "Hello, WebSocket!";

    let serialized = MessageHandler::serialize(&message, MessageFormat::Json).unwrap();
    assert!(!serialized.is_empty(), "Expected non-empty serialized JSON data");

    let serialized_cbor = MessageHandler::serialize(&message, MessageFormat::Cbor).unwrap();
    assert!(!serialized_cbor.is_empty(), "Expected non-empty serialized CBOR data");
}

/// Tests message deserialization in both JSON and CBOR formats.
#[test]
fn test_message_deserialization() {
    let message = "Hello, WebSocket!";

    let serialized_json = MessageHandler::serialize(&message, MessageFormat::Json).unwrap();
    match MessageHandler::deserialize(&serialized_json, MessageFormat::Json) {
        Ok(Some(deserialized_json)) => {
            assert_eq!(
                deserialized_json,
                message.to_string(),
                "Expected deserialized JSON to match original message"
            );
        }
        Ok(None) => panic!("Deserialization returned None, expected Some value"),
        Err(e) => panic!("Deserialization error: {:?}", e),
    }

    let serialized_cbor = MessageHandler::serialize(&message, MessageFormat::Cbor).unwrap();
    match MessageHandler::deserialize(&serialized_cbor, MessageFormat::Cbor) {
        Ok(Some(deserialized_cbor)) => {
            assert_eq!(
                deserialized_cbor,
                message.to_string(),
                "Expected deserialized CBOR to match original message"
            );
        }
        Ok(None) => panic!("Deserialization returned None, expected Some value"),
        Err(e) => panic!("Deserialization error: {:?}", e),
    }
}

/// The JSON encoding of a text payload is its quoted form, byte for byte.
#[test]
fn json_encoding_is_exact() {
    let serialized = MessageHandler::serialize("Hello, WebSocket!", MessageFormat::Json).unwrap();
    assert_eq!(serialized, b"\"Hello, WebSocket!\"".to_vec());
}

/// The CBOR encoding of a short text payload is a one-byte text-string
/// header followed by its UTF-8 bytes.
#[test]
fn cbor_encoding_is_exact() {
    let serialized = MessageHandler::serialize("Hello, WebSocket!", MessageFormat::Cbor).unwrap();
    let mut expected: Vec<u8> = vec![0x71];
    expected.extend_from_slice(b"Hello, WebSocket!");
    assert_eq!(serialized, expected);
}

/// Scenario: one greeting sent as JSON and then as CBOR gives two distinct,
/// non-empty byte sequences, each decodable back to the original value under
/// its own format.
#[test]
fn greeting_encodes_distinctly_under_each_format() {
    let greeting = "hi";
    let json_bytes = MessageHandler::serialize(&greeting, MessageFormat::Json).unwrap();
    let cbor_bytes = MessageHandler::serialize(&greeting, MessageFormat::Cbor).unwrap();

    assert!(!json_bytes.is_empty());
    assert!(!cbor_bytes.is_empty());
    assert_ne!(json_bytes, cbor_bytes, "Expected distinct encodings under the two formats");

    let back_json = MessageHandler::deserialize(&json_bytes, MessageFormat::Json).unwrap();
    assert_eq!(back_json, Some(greeting.to_string()));
    let back_cbor = MessageHandler::deserialize(&cbor_bytes, MessageFormat::Cbor).unwrap();
    assert_eq!(back_cbor, Some(greeting.to_string()));
}

/// Bytes that are no valid JSON give a decode failure, not a panic.
#[test]
fn invalid_json_is_a_decode_failure() {
    let garbage: Vec<u8> = vec![0xff, 0x00, 0x7b, 0x22];
    let r = MessageHandler::deserialize(&garbage, MessageFormat::Json);
    assert!(r.is_err(), "Expected a decode failure on malformed JSON");

    let not_a_string = b"{\"a\": 1}";
    let r = MessageHandler::deserialize(not_a_string, MessageFormat::Json);
    assert!(r.is_err(), "Expected a decode failure on a non-string JSON value");
}

/// Bytes that are no valid CBOR text string give a decode failure, not a panic.
#[test]
fn invalid_cbor_is_a_decode_failure() {
    let garbage: Vec<u8> = vec![0xff, 0xff, 0xff];
    let r = MessageHandler::deserialize(&garbage, MessageFormat::Cbor);
    assert!(r.is_err(), "Expected a decode failure on malformed CBOR");

    let empty: Vec<u8> = Vec::new();
    let r = MessageHandler::deserialize(&empty, MessageFormat::Cbor);
    assert!(r.is_err(), "Expected a decode failure on empty input");
}

/// An empty text payload round-trips under both formats.
#[test]
fn empty_payload_round_trips() {
    for format in [MessageFormat::Json, MessageFormat::Cbor] {
        let bytes = MessageHandler::serialize("", format).unwrap();
        assert!(!bytes.is_empty());
        let back = MessageHandler::deserialize(&bytes, format).unwrap();
        assert_eq!(back, Some(String::new()));
    }
}
