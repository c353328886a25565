//! Message codec: stateless dispatch that serializes and deserializes a text
//! payload to and from bytes under a named wire format (JSON or CBOR).

use vstd::prelude::*;

verus! {

/// The closed set of wire formats the codec dispatches on.
#[derive(Clone, Copy, Debug, PartialEq, Eq, Structural)]
pub enum MessageFormat {
    /// JSON format.
    Json,
    /// CBOR format.
    Cbor,
}

/// The bytes that serde_json produces for a given text payload.
pub uninterp spec fn json_bytes_of(s: Seq<char>) -> Seq<u8>;

/// The text that serde_json parses out of a byte string, or `None` where the
/// bytes are not a valid JSON string encoding.
pub uninterp spec fn json_text_of(b: Seq<u8>) -> Option<Seq<char>>;

/// The bytes that serde_cbor produces for a given text payload.
pub uninterp spec fn cbor_bytes_of(s: Seq<char>) -> Seq<u8>;

/// The text that serde_cbor parses out of a byte string, or `None` where the
/// bytes are not a valid CBOR text-string encoding.
pub uninterp spec fn cbor_text_of(b: Seq<u8>) -> Option<Seq<char>>;

/// The encoding of a text payload under the given format.
pub open spec fn encoded_bytes(format: MessageFormat, s: Seq<char>) -> Seq<u8> {
    match format {
        MessageFormat::Json => json_bytes_of(s),
        MessageFormat::Cbor => cbor_bytes_of(s),
    }
}

/// The decoding of a byte string under the given format.
pub open spec fn decoded_text(format: MessageFormat, b: Seq<u8>) -> Option<Seq<char>> {
    match format {
        MessageFormat::Json => json_text_of(b),
        MessageFormat::Cbor => cbor_text_of(b),
    }
}

/// A handler for serializing and deserializing messages.
///
/// Both operations are deterministic: identical input and format always
/// produce identical output, and neither has side effects.
pub struct MessageHandler;

impl MessageHandler {
    /// Serializes the given text payload into the specified format.
    ///
    /// Serialization of text cannot fail, so the result is always `Ok`, it is
    /// never empty, and deserializing it under the same format gives the
    /// original payload back (round-trip identity).
    pub fn serialize(data: &str, format: MessageFormat) -> (r: Result<Vec<u8>, String>)
        ensures
            r is Ok,
            r matches Ok(b) ==> b@ == encoded_bytes(format, data@)
                && b@.len() > 0
                && decoded_text(format, b@) == Some(data@),
    {
        match format {
            MessageFormat::Json => Self::private_serialize_json(data),
            MessageFormat::Cbor => Self::private_serialize_cbor(data),
        }
    }

    /// Deserializes the given byte slice under the specified format.
    ///
    /// Returns `Ok(Some(text))` exactly on the byte strings that are valid
    /// encodings of a text payload under `format`, and `Err` with the
    /// underlying cause on every other input; it never returns `Ok(None)`
    /// and never panics.
    pub fn deserialize(data: &[u8], format: MessageFormat) -> (r: Result<Option<String>, String>)
        ensures
            r is Ok <==> decoded_text(format, data@) is Some,
            r matches Ok(v) ==> v matches Some(s) && decoded_text(format, data@) == Some(s@),
    {
        match format {
            MessageFormat::Json => Self::private_deserialize_json(data),
            MessageFormat::Cbor => Self::private_deserialize_cbor(data),
        }
    }

    /// Relies on serde_json::to_vec: serializing a string slice writes its
    /// quoted, escaped JSON form to a growable buffer, which cannot fail and
    /// depends on the characters alone; and on serde_json::from_slice, which
    /// parses that form back to an equal string.
    #[verifier::external_body]
    fn private_serialize_json(data: &str) -> (r: Result<Vec<u8>, String>)
        ensures
            r is Ok,
            r matches Ok(b) ==> b@ == json_bytes_of(data@)
                && b@.len() >= 2
                && json_text_of(b@) == Some(data@),
    {
        match serde_json::to_vec(&data) {
            Ok(b) => Ok(b),
            Err(e) => Err(format!("{}", e)),
        }
    }

    /// Relies on serde_cbor::to_vec: serializing a string slice writes a CBOR
    /// text-string header followed by its bytes to a growable buffer, which
    /// cannot fail and depends on the characters alone; and on
    /// serde_cbor::from_slice, which parses that form back to an equal string.
    #[verifier::external_body]
    fn private_serialize_cbor(data: &str) -> (r: Result<Vec<u8>, String>)
        ensures
            r is Ok,
            r matches Ok(b) ==> b@ == cbor_bytes_of(data@)
                && b@.len() >= 1
                && cbor_text_of(b@) == Some(data@),
    {
        match serde_cbor::to_vec(&data) {
            Ok(b) => Ok(b),
            Err(e) => Err(format!("{}", e)),
        }
    }

    /// Relies on serde_json::from_slice: parsing depends on the input bytes
    /// alone, returns Err on a byte string that is not a valid JSON string
    /// encoding, and does not panic.
    #[verifier::external_body]
    fn private_deserialize_json(data: &[u8]) -> (r: Result<Option<String>, String>)
        ensures
            r is Ok <==> json_text_of(data@) is Some,
            r matches Ok(v) ==> v matches Some(s) && json_text_of(data@) == Some(s@),
    {
        match serde_json::from_slice::<String>(data) {
            Ok(v) => Ok(Some(v)),
            Err(e) => Err(format!("{}", e)),
        }
    }

    /// Relies on serde_cbor::from_slice: parsing depends on the input bytes
    /// alone, returns Err on a byte string that is not a valid CBOR
    /// text-string encoding, and does not panic.
    #[verifier::external_body]
    fn private_deserialize_cbor(data: &[u8]) -> (r: Result<Option<String>, String>)
        ensures
            r is Ok <==> cbor_text_of(data@) is Some,
            r matches Ok(v) ==> v matches Some(s) && cbor_text_of(data@) == Some(s@),
    {
        match serde_cbor::from_slice::<String>(data) {
            Ok(v) => Ok(Some(v)),
            Err(e) => Err(format!("{}", e)),
        }
    }
}

} // verus!
