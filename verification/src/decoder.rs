//! The message decoder: from the raw body of a broker message to an
//! envelope and its binary payload.
use vstd::prelude::*;
use crate::codec::{
    base64_standard_decoding, decode_base64, json_parsed_members, json_string_members,
    parse_json, string_member,
};
use crate::message::{DecodeFailure, InvokeMessage, InvokeMessageView};

verus! {

/// An envelope together with its decoded payload.
#[derive(Debug, PartialEq, Eq)]
pub struct DecodedMessage {
    pub message: InvokeMessage,
    pub payload: Vec<u8>,
}

/// Mathematical value of a [`DecodedMessage`].
pub struct DecodedMessageView {
    pub message: InvokeMessageView,
    pub payload: Seq<u8>,
}

impl View for DecodedMessage {
    type V = DecodedMessageView;

    open spec fn view(&self) -> DecodedMessageView {
        DecodedMessageView { message: self.message@, payload: self.payload@ }
    }
}

/// Whether `key` is one of the five fields an envelope must hold.
pub open spec fn is_required_field(key: Seq<char>) -> bool {
    key == "actor_id"@ || key == "link_name"@ || key == "contract_id"@ || key == "operation"@
        || key == "payload_b64"@
}

/// The envelope that a JSON object with string members `members` holds:
/// each required field must be among them. Other members are ignored.
pub open spec fn envelope_of(members: Map<Seq<char>, Seq<char>>) -> Option<InvokeMessageView> {
    if members.contains_key("actor_id"@) && members.contains_key("link_name"@)
        && members.contains_key("contract_id"@) && members.contains_key("operation"@)
        && members.contains_key("payload_b64"@) {
        Some(
            InvokeMessageView {
                actor_id: members["actor_id"@],
                link_name: members["link_name"@],
                contract_id: members["contract_id"@],
                operation: members["operation"@],
                payload_b64: members["payload_b64"@],
            },
        )
    } else {
        None
    }
}

/// What an envelope whose payload text decodes to `payload` (or, with
/// `None`, does not decode) comes to.
pub open spec fn payload_outcome(
    message: InvokeMessageView,
    payload: Option<Seq<u8>>,
) -> Result<DecodedMessageView, DecodeFailure> {
    match payload {
        Some(bytes) => Ok(DecodedMessageView { message: message, payload: bytes }),
        None => Err(DecodeFailure::MalformedPayload),
    }
}

/// What a body whose JSON parse gives `members` comes to: the envelope must
/// be complete, then its payload must be standard base64.
pub open spec fn members_outcome(members: Option<Map<Seq<char>, Seq<char>>>) -> Result<
    DecodedMessageView,
    DecodeFailure,
> {
    match members {
        None => Err(DecodeFailure::MalformedEnvelope),
        Some(found) => match envelope_of(found) {
            None => Err(DecodeFailure::MalformedEnvelope),
            Some(message) => payload_outcome(
                message,
                base64_standard_decoding(message.payload_b64),
            ),
        },
    }
}

/// What decoding the body `body` gives.
pub open spec fn decode_outcome(body: Seq<u8>) -> Result<DecodedMessageView, DecodeFailure> {
    members_outcome(json_parsed_members(body))
}

/// Whether a decoding result is the one that `expected` describes.
pub open spec fn decoded_as(
    got: Result<DecodedMessage, DecodeFailure>,
    expected: Result<DecodedMessageView, DecodeFailure>,
) -> bool {
    match got {
        Ok(decoded) => expected == Ok::<DecodedMessageView, DecodeFailure>(decoded@),
        Err(failure) => expected == Err::<DecodedMessageView, DecodeFailure>(failure),
    }
}

/// Whether an envelope result is the one that `expected` describes:
/// `MalformedEnvelope` stands for `None`.
pub open spec fn envelope_as(
    got: Result<InvokeMessage, DecodeFailure>,
    expected: Option<InvokeMessageView>,
) -> bool {
    match got {
        Ok(message) => expected == Some(message@),
        Err(failure) => failure == DecodeFailure::MalformedEnvelope && expected is None,
    }
}

/// Reads the envelope out of a parsed JSON document. Succeeds exactly when
/// all five required fields are string members of the document; every
/// failure is `MalformedEnvelope`.
pub fn envelope_from_json(doc: &serde_json::Value) -> (envelope: Result<
    InvokeMessage,
    DecodeFailure,
>)
    ensures
        envelope_as(envelope, envelope_of(json_string_members(*doc))),
{
    let actor_id = match string_member(doc, "actor_id") {
        Some(text) => text,
        None => { return Err(DecodeFailure::MalformedEnvelope); },
    };
    let link_name = match string_member(doc, "link_name") {
        Some(text) => text,
        None => { return Err(DecodeFailure::MalformedEnvelope); },
    };
    let contract_id = match string_member(doc, "contract_id") {
        Some(text) => text,
        None => { return Err(DecodeFailure::MalformedEnvelope); },
    };
    let operation = match string_member(doc, "operation") {
        Some(text) => text,
        None => { return Err(DecodeFailure::MalformedEnvelope); },
    };
    let payload_b64 = match string_member(doc, "payload_b64") {
        Some(text) => text,
        None => { return Err(DecodeFailure::MalformedEnvelope); },
    };
    Ok(
        InvokeMessage {
            actor_id: actor_id,
            link_name: link_name,
            contract_id: contract_id,
            operation: operation,
            payload_b64: payload_b64,
        },
    )
}

/// Structural step of the decoder: parses `body` as JSON and reads the
/// envelope. A body that is not JSON, or that lacks a required string
/// field, is `MalformedEnvelope`.
pub fn decode_envelope(body: &[u8]) -> (envelope: Result<InvokeMessage, DecodeFailure>)
    ensures
        match json_parsed_members(body@) {
            Some(members) => envelope_as(envelope, envelope_of(members)),
            None => envelope == Err::<InvokeMessage, DecodeFailure>(
                DecodeFailure::MalformedEnvelope,
            ),
        },
{
    match parse_json(body) {
        Ok(doc) => envelope_from_json(&doc),
        Err(_) => Err(DecodeFailure::MalformedEnvelope),
    }
}

/// Joins an envelope with the outcome of decoding its payload text: the
/// bytes where there are some, `MalformedPayload` where there are none.
pub fn attach_payload(message: InvokeMessage, payload: Option<Vec<u8>>) -> (decoded: Result<
    DecodedMessage,
    DecodeFailure,
>)
    ensures
        decoded_as(
            decoded,
            payload_outcome(
                message@,
                match payload {
                    Some(bytes) => Some(bytes@),
                    None => None,
                },
            ),
        ),
{
    match payload {
        Some(bytes) => Ok(DecodedMessage { message: message, payload: bytes }),
        None => Err(DecodeFailure::MalformedPayload),
    }
}

/// Payload step of the decoder: decodes the envelope's payload text as
/// standard base64.
pub fn decode_payload(message: InvokeMessage) -> (decoded: Result<DecodedMessage, DecodeFailure>)
    ensures
        decoded_as(
            decoded,
            payload_outcome(message@, base64_standard_decoding(message.payload_b64@)),
        ),
{
    let payload = match decode_base64(message.payload_b64.as_str()) {
        Ok(bytes) => Some(bytes),
        Err(_) => None,
    };
    attach_payload(message, payload)
}

/// Decodes the body of a broker message: first the envelope, then its
/// payload. Has no effect beyond its result.
pub fn decode(body: &[u8]) -> (decoded: Result<DecodedMessage, DecodeFailure>)
    ensures
        decoded_as(decoded, decode_outcome(body@)),
{
    match decode_envelope(body) {
        Ok(message) => decode_payload(message),
        Err(failure) => Err(failure),
    }
}

} // verus!
