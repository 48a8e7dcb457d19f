//! What holds of the bridge as a whole, proved from the contracts of its
//! parts.
use vstd::prelude::*;
use crate::codec::{base64_standard_decoding, json_parsed_members};
use crate::decoder::{decode_outcome, envelope_of, is_required_field};
use crate::handler::{action_for, HandlerActionView};
use crate::link::LinkDefinitionView;
use crate::message::{invocation_of, DecodeFailure, InvokeMessageView};
use crate::provider::{
    after_shutdown, after_subscribed, is_active, link_step_for, listen_subject, InvokerView,
    LinkStepView,
};
use crate::subscription::{BrokerCallView, SubscribePlanView};

verus! {

/// A body that parses to a complete envelope whose payload text is standard
/// base64 is dispatched: the invocation carries the decoded payload, the
/// envelope's operation, and the envelope's actor as the target's public
/// key.
pub proof fn well_formed_message_is_dispatched(
    provider_id: Seq<char>,
    body: Seq<u8>,
    members: Map<Seq<char>, Seq<char>>,
    message: InvokeMessageView,
    payload: Seq<u8>,
)
    requires
        json_parsed_members(body) == Some(members),
        envelope_of(members) == Some(message),
        base64_standard_decoding(message.payload_b64) == Some(payload),
    ensures
        action_for(provider_id, decode_outcome(body)) == HandlerActionView::Dispatch(
            invocation_of(provider_id, message, payload),
        ),
        invocation_of(provider_id, message, payload).payload == payload,
        invocation_of(provider_id, message, payload).operation == members["operation"@],
        invocation_of(provider_id, message, payload).target.public_key == members["actor_id"@],
{
}

/// A body that is not JSON, or whose JSON lacks one of the required fields
/// as a string, is discarded as a malformed envelope: nothing is invoked.
pub proof fn incomplete_envelope_is_discarded(
    provider_id: Seq<char>,
    body: Seq<u8>,
    key: Seq<char>,
)
    requires
        is_required_field(key),
        json_parsed_members(body) matches Some(members) ==> !members.contains_key(key),
    ensures
        action_for(provider_id, decode_outcome(body)) == HandlerActionView::Discard(
            DecodeFailure::MalformedEnvelope,
        ),
{
}

/// A body with a complete envelope whose payload text is not standard
/// base64 is discarded as a malformed payload: nothing is invoked.
pub proof fn undecodable_payload_is_discarded(
    provider_id: Seq<char>,
    body: Seq<u8>,
    members: Map<Seq<char>, Seq<char>>,
    message: InvokeMessageView,
)
    requires
        json_parsed_members(body) == Some(members),
        envelope_of(members) == Some(message),
        base64_standard_decoding(message.payload_b64) is None,
    ensures
        action_for(provider_id, decode_outcome(body)) == HandlerActionView::Discard(
            DecodeFailure::MalformedPayload,
        ),
{
}

/// A message is dispatched exactly when it decodes, and discarded in every
/// other case.
pub proof fn dispatched_exactly_when_decoded(provider_id: Seq<char>, body: Seq<u8>)
    ensures
        action_for(provider_id, decode_outcome(body)) is Dispatch <==> decode_outcome(body) is Ok,
        action_for(provider_id, decode_outcome(body)) is Discard <==> decode_outcome(body) is Err,
{
}

/// Two links put in succession open one subscription: once the first
/// listener is registered the registry holds it alone, a second link is
/// accepted without a subscription being asked for, and whatever is
/// reported afterwards leaves the registry as it is.
pub proof fn second_link_opens_nothing(
    state: InvokerView,
    first: tokio::task::JoinHandle<()>,
    second_link: LinkDefinitionView,
    late: Option<tokio::task::JoinHandle<()>>,
)
    requires
        !is_active(state),
    ensures
        after_subscribed(state, Some(first)).handles == seq![first],
        link_step_for(after_subscribed(state, Some(first)), second_link) == LinkStepView::Accepted,
        after_subscribed(after_subscribed(state, Some(first)), late) == after_subscribed(
            state,
            Some(first),
        ),
{
    assert(state.handles =~= Seq::empty());
    assert(state.handles.push(first) =~= seq![first]);
}

/// A shutdown leaves the registry empty, whatever it held, and the next
/// link is treated as the first one: a plain subscription to the listening
/// subject is asked for, and its listener becomes the only one registered.
pub proof fn shutdown_makes_inactive(
    state: InvokerView,
    link: LinkDefinitionView,
    listener: tokio::task::JoinHandle<()>,
)
    ensures
        after_shutdown(state).handles.len() == 0,
        after_shutdown(state).id == state.id,
        !is_active(after_shutdown(state)),
        link_step_for(after_shutdown(state), link) == LinkStepView::Subscribe(
            SubscribePlanView {
                call: BrokerCallView::Subscribe { subject: listen_subject() },
                link: link,
            },
        ),
        after_subscribed(after_shutdown(state), Some(listener)).handles == seq![listener],
{
    assert(Seq::<tokio::task::JoinHandle<()>>::empty().push(listener) =~= seq![listener]);
}

/// A failed subscription leaves the bridge as it was, so an inactive
/// bridge stays inactive.
pub proof fn failed_subscription_changes_nothing(state: InvokerView)
    ensures
        after_subscribed(state, None) == state,
{
}

/// A registry with at most one listener keeps at most one through every
/// event.
pub proof fn registry_holds_at_most_one(
    state: InvokerView,
    reported: Option<tokio::task::JoinHandle<()>>,
)
    requires
        state.handles.len() <= 1,
    ensures
        after_subscribed(state, reported).handles.len() <= 1,
        after_shutdown(state).handles.len() <= 1,
{
}

} // verus!
