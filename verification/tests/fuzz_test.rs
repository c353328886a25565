//! Fuzz-style tests: the deserialization logic is fed random, arbitrary
//! input data and must handle it gracefully, never panicking.

use arbitrary::Unstructured;
use websocket_toolkit::messages::{MessageFormat, MessageHandler};

/// Attempts to deserialize the given binary data under the given format.
/// Any outcome is acceptable; reaching the end without a panic is the point.
fn fuzz_deserialization(data: &[u8], format: MessageFormat) {
    match MessageHandler::deserialize(data, format) {
        Ok(Some(_)) => {}
        Ok(None) => {}
        Err(_) => {}
    }
}

/// A fuzz test to validate the deserialization logic with random data.
#[test]
fn fuzz_test_deserialization() {
    let raw_data = b"random_test_data_for_fuzzing";
    let mut u = Unstructured::new(raw_data);

    let content: Vec<u8> = u.arbitrary().unwrap_or_default();
    let format = if u.arbitrary::<bool>().unwrap_or(true) {
        MessageFormat::Json
    } else {
        MessageFormat::Cbor
    };
    fuzz_deserialization(&content, format);
}

/// The same fuzz run with the format choice drawn first, covering the other
/// dispatch order.
#[test]
fn fuzz_test_fuzz_test_deserialization() {
    let raw_data = b"random_test_data_for_fuzzing";
    let mut u = Unstructured::new(raw_data);

    let format = if u.arbitrary::<bool>().unwrap_or(false) {
        MessageFormat::Json
    } else {
        MessageFormat::Cbor
    };
    let content: Vec<u8> = u.arbitrary().unwrap_or_default();
    fuzz_deserialization(&content, format);
}
