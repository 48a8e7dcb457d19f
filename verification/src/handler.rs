//! The per-message handler: decode, then decide whether to invoke.
use vstd::prelude::*;
use crate::decoder::{decode, decode_outcome, DecodedMessage, DecodedMessageView};
use crate::message::{build_invocation, invocation_of, DecodeFailure, Invocation, InvocationView};

verus! {

/// What to do with one received message.
#[derive(Debug, PartialEq, Eq)]
pub enum HandlerAction {
    /// Make this invocation, once.
    Dispatch(Invocation),
    /// Drop the message and record why; nothing is invoked.
    Discard(DecodeFailure),
}

/// Mathematical value of a [`HandlerAction`].
pub enum HandlerActionView {
    Dispatch(InvocationView),
    Discard(DecodeFailure),
}

impl View for HandlerAction {
    type V = HandlerActionView;

    open spec fn view(&self) -> HandlerActionView {
        match self {
            HandlerAction::Dispatch(invocation) => HandlerActionView::Dispatch(invocation@),
            HandlerAction::Discard(failure) => HandlerActionView::Discard(*failure),
        }
    }
}

/// The action for a message that decoded as `decoded`, received by the
/// bridge `provider_id`.
pub open spec fn action_for(
    provider_id: Seq<char>,
    decoded: Result<DecodedMessageView, DecodeFailure>,
) -> HandlerActionView {
    match decoded {
        Ok(found) => HandlerActionView::Dispatch(
            invocation_of(provider_id, found.message, found.payload),
        ),
        Err(failure) => HandlerActionView::Discard(failure),
    }
}

/// Decides on a message from the outcome of decoding it: a decoded message
/// is dispatched, a failure is discarded.
pub fn dispatch_decoded(provider_id: String, decoded: Result<DecodedMessage, DecodeFailure>) -> (action:
    HandlerAction)
    ensures
        action@ == action_for(
            provider_id@,
            match decoded {
                Ok(found) => Ok(found@),
                Err(failure) => Err(failure),
            },
        ),
{
    match decoded {
        Ok(found) => {
            let DecodedMessage { message, payload } = found;
            HandlerAction::Dispatch(build_invocation(provider_id, message, payload))
        },
        Err(failure) => HandlerAction::Discard(failure),
    }
}

/// Handles the body of one broker message on behalf of the bridge
/// `provider_id`: exactly one action comes back, a dispatch where the body
/// decodes and a discard where it does not.
pub fn handle_invoke_msg(provider_id: String, body: &[u8]) -> (action: HandlerAction)
    ensures
        action@ == action_for(provider_id@, decode_outcome(body@)),
{
    dispatch_decoded(provider_id, decode(body))
}

} // verus!
