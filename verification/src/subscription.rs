//! The subscription manager's decisions: which broker call opens a
//! subscription, and what a listener does with each thing it receives. The
//! calls themselves, and the tasks, are made by the caller.
use vstd::prelude::*;
use crate::link::{LinkDefinition, LinkDefinitionView};

verus! {

/// The broker rejected a subscription request.
#[derive(Debug, PartialEq, Eq)]
pub struct SubscribeError {
    /// The broker client's account of the failure.
    pub message: String,
}

/// The broker call that opens a subscription.
#[derive(Debug, PartialEq, Eq)]
pub enum BrokerCall {
    /// A plain subscription: every subscriber receives every message.
    Subscribe { subject: String },
    /// A queue subscription: each message goes to one member of the group.
    QueueSubscribe { subject: String, queue_group: String },
}

/// Mathematical value of a [`BrokerCall`].
pub enum BrokerCallView {
    Subscribe { subject: Seq<char> },
    QueueSubscribe { subject: Seq<char>, queue_group: Seq<char> },
}

impl View for BrokerCall {
    type V = BrokerCallView;

    open spec fn view(&self) -> BrokerCallView {
        match self {
            BrokerCall::Subscribe { subject } => BrokerCallView::Subscribe { subject: subject@ },
            BrokerCall::QueueSubscribe { subject, queue_group } => BrokerCallView::QueueSubscribe {
                subject: subject@,
                queue_group: queue_group@,
            },
        }
    }
}

/// The call for `subject`, queue-grouped exactly when a group is given.
pub open spec fn broker_call_for(subject: Seq<char>, queue: Option<Seq<char>>) -> BrokerCallView {
    match queue {
        Some(group) => BrokerCallView::QueueSubscribe { subject: subject, queue_group: group },
        None => BrokerCallView::Subscribe { subject: subject },
    }
}

/// Mathematical value of an optional queue-group name.
pub open spec fn queue_view(queue: Option<String>) -> Option<Seq<char>> {
    match queue {
        Some(group) => Some(group@),
        None => None,
    }
}

/// Chooses the broker call for a subscription to `subject`: a queue
/// subscription if a queue group is given, a plain one if not.
pub fn broker_call(subject: String, queue: Option<String>) -> (call: BrokerCall)
    ensures
        call@ == broker_call_for(subject@, queue_view(queue)),
        queue is Some <==> call is QueueSubscribe,
        queue is None <==> call is Subscribe,
{
    match queue {
        Some(group) => BrokerCall::QueueSubscribe { subject: subject, queue_group: group },
        None => BrokerCall::Subscribe { subject: subject },
    }
}

/// A subscription to open: the call to make on the broker, and the link
/// that the listener spawned for it works for.
#[derive(Debug, PartialEq, Eq)]
pub struct SubscribePlan {
    pub call: BrokerCall,
    pub link: LinkDefinition,
}

/// Mathematical value of a [`SubscribePlan`].
pub struct SubscribePlanView {
    pub call: BrokerCallView,
    pub link: LinkDefinitionView,
}

impl View for SubscribePlan {
    type V = SubscribePlanView;

    open spec fn view(&self) -> SubscribePlanView {
        SubscribePlanView { call: self.call@, link: self.link@ }
    }
}

/// What a listener does next.
#[derive(Debug, PartialEq, Eq)]
pub enum ListenerAction {
    /// Spawn an independent handler for this body on behalf of
    /// `provider_id`, and go on listening without waiting for it.
    Handle { provider_id: String, body: Vec<u8> },
    /// The stream has ended: stop listening.
    Stop,
}

/// Mathematical value of a [`ListenerAction`].
pub enum ListenerActionView {
    Handle { provider_id: Seq<char>, body: Seq<u8> },
    Stop,
}

impl View for ListenerAction {
    type V = ListenerActionView;

    open spec fn view(&self) -> ListenerActionView {
        match self {
            ListenerAction::Handle { provider_id, body } => ListenerActionView::Handle {
                provider_id: provider_id@,
                body: body@,
            },
            ListenerAction::Stop => ListenerActionView::Stop,
        }
    }
}

/// One turn of a listener's loop. `received` is what the subscription
/// yielded: the body of a message, or `None` at the end of the stream. Every
/// message gets a handler of its own, run under the provider id of the link.
pub fn listener_step(link: &LinkDefinition, received: Option<Vec<u8>>) -> (action: ListenerAction)
    ensures
        match received {
            Some(body) => action@ == (ListenerActionView::Handle {
                provider_id: link@.provider_id,
                body: body@,
            }),
            None => action@ == ListenerActionView::Stop,
        },
{
    match received {
        Some(body) => ListenerAction::Handle { provider_id: link.provider_id.clone(), body: body },
        None => ListenerAction::Stop,
    }
}

} // verus!
