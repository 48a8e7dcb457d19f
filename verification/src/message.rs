//! The data that travels through the bridge: the envelope received from the
//! broker, the identities used on the invocation transport, and the
//! invocation built from an envelope.
use vstd::prelude::*;

verus! {

/// Why a message body was dropped before any invocation was made.
#[derive(Debug, Clone, Copy, PartialEq, Eq, Structural)]
pub enum DecodeFailure {
    /// The body is not a JSON object holding every required field as a string.
    MalformedEnvelope,
    /// The payload field is not standard base64.
    MalformedPayload,
}

/// The envelope of an inbound message, as sent over the broker.
#[derive(Debug, PartialEq, Eq, Hash)]
pub struct InvokeMessage {
    /// Identifier of the actor to invoke.
    pub actor_id: String,
    /// Link name under which the bridge addresses itself.
    pub link_name: String,
    /// Contract identifier under which the bridge addresses itself.
    pub contract_id: String,
    /// Name of the operation to invoke.
    pub operation: String,
    /// The binary payload, in standard base64.
    pub payload_b64: String,
}

/// Mathematical value of an [`InvokeMessage`].
pub struct InvokeMessageView {
    pub actor_id: Seq<char>,
    pub link_name: Seq<char>,
    pub contract_id: Seq<char>,
    pub operation: Seq<char>,
    pub payload_b64: Seq<char>,
}

impl View for InvokeMessage {
    type V = InvokeMessageView;

    open spec fn view(&self) -> InvokeMessageView {
        InvokeMessageView {
            actor_id: self.actor_id@,
            link_name: self.link_name@,
            contract_id: self.contract_id@,
            operation: self.operation@,
            payload_b64: self.payload_b64@,
        }
    }
}

impl Clone for InvokeMessage {
    fn clone(&self) -> (copy: Self)
        ensures
            copy@ == self@,
    {
        InvokeMessage {
            actor_id: self.actor_id.clone(),
            link_name: self.link_name.clone(),
            contract_id: self.contract_id.clone(),
            operation: self.operation.clone(),
            payload_b64: self.payload_b64.clone(),
        }
    }
}

/// An addressable identity on the invocation transport.
#[derive(Debug, PartialEq, Eq, Hash)]
pub struct Entity {
    pub public_key: String,
    pub link_name: String,
    pub contract_id: String,
}

/// Mathematical value of an [`Entity`].
pub struct EntityView {
    pub public_key: Seq<char>,
    pub link_name: Seq<char>,
    pub contract_id: Seq<char>,
}

impl View for Entity {
    type V = EntityView;

    open spec fn view(&self) -> EntityView {
        EntityView {
            public_key: self.public_key@,
            link_name: self.link_name@,
            contract_id: self.contract_id@,
        }
    }
}

/// One call to make on the invocation transport.
#[derive(Debug, PartialEq, Eq)]
pub struct Invocation {
    /// The bridge itself.
    pub origin: Entity,
    /// The actor to invoke.
    pub target: Entity,
    pub operation: String,
    pub payload: Vec<u8>,
}

/// Mathematical value of an [`Invocation`].
pub struct InvocationView {
    pub origin: EntityView,
    pub target: EntityView,
    pub operation: Seq<char>,
    pub payload: Seq<u8>,
}

impl View for Invocation {
    type V = InvocationView;

    open spec fn view(&self) -> InvocationView {
        InvocationView {
            origin: self.origin@,
            target: self.target@,
            operation: self.operation@,
            payload: self.payload@,
        }
    }
}

/// The invocation that an envelope with decoded payload `payload` stands
/// for, when received by the bridge `provider_id`: the origin is the bridge
/// under the envelope's link name and contract, the target is the
/// envelope's actor with empty link name and contract.
pub open spec fn invocation_of(
    provider_id: Seq<char>,
    message: InvokeMessageView,
    payload: Seq<u8>,
) -> InvocationView {
    InvocationView {
        origin: EntityView {
            public_key: provider_id,
            link_name: message.link_name,
            contract_id: message.contract_id,
        },
        target: EntityView {
            public_key: message.actor_id,
            link_name: Seq::<char>::empty(),
            contract_id: Seq::<char>::empty(),
        },
        operation: message.operation,
        payload: payload,
    }
}

/// Builds the invocation for a decoded envelope.
pub fn build_invocation(provider_id: String, message: InvokeMessage, payload: Vec<u8>) -> (inv:
    Invocation)
    ensures
        inv@ == invocation_of(provider_id@, message@, payload@),
{
    let InvokeMessage { actor_id, link_name, contract_id, operation, payload_b64: _ } = message;
    Invocation {
        origin: Entity { public_key: provider_id, link_name: link_name, contract_id: contract_id },
        target: Entity {
            public_key: actor_id,
            link_name: String::new(),
            contract_id: String::new(),
        },
        operation: operation,
        payload: payload,
    }
}

} // verus!
