//! The link lifecycle controller: the bridge's identity and its registry of
//! listener handles, driven by the host's link and shutdown events.
use vstd::prelude::*;
use crate::handler::{action_for, handle_invoke_msg, HandlerAction};
use crate::decoder::decode_outcome;
use crate::link::{HostData, LinkDefinition, LinkDefinitionView};
use crate::subscription::{
    broker_call, broker_call_for, queue_view, BrokerCallView, SubscribeError, SubscribePlan,
    SubscribePlanView,
};
use crate::task::abort_listener;

verus! {

/// The bridge: it only listens for incoming invocations.
pub struct MessagingNatsInvoker {
    /// The bridge's own host-provided ID.
    id: String,
    /// The listeners that are running, oldest first.
    sub_handles: Vec<tokio::task::JoinHandle<()>>,
}

/// Mathematical value of a [`MessagingNatsInvoker`].
pub struct InvokerView {
    pub id: Seq<char>,
    pub handles: Seq<tokio::task::JoinHandle<()>>,
}

/// What `put_link` asks of its caller.
#[derive(Debug, PartialEq, Eq)]
pub enum LinkStep {
    /// The bridge is already listening: the link is accepted as it is.
    Accepted,
    /// Open this subscription and report the outcome with `link_subscribed`.
    Subscribe(SubscribePlan),
}

/// Mathematical value of a [`LinkStep`].
pub enum LinkStepView {
    Accepted,
    Subscribe(SubscribePlanView),
}

impl View for LinkStep {
    type V = LinkStepView;

    open spec fn view(&self) -> LinkStepView {
        match self {
            LinkStep::Accepted => LinkStepView::Accepted,
            LinkStep::Subscribe(plan) => LinkStepView::Subscribe(plan@),
        }
    }
}

/// The subject that every link listens on.
pub open spec fn listen_subject() -> Seq<char> {
    "testing"@
}

/// Whether any listener is registered.
pub open spec fn is_active(state: InvokerView) -> bool {
    state.handles.len() > 0
}

/// What a link put to a bridge in state `state` asks for: nothing while
/// active, else a plain subscription to the listening subject.
pub open spec fn link_step_for(state: InvokerView, link: LinkDefinitionView) -> LinkStepView {
    if is_active(state) {
        LinkStepView::Accepted
    } else {
        LinkStepView::Subscribe(
            SubscribePlanView {
                call: BrokerCallView::Subscribe { subject: listen_subject() },
                link: link,
            },
        )
    }
}

/// The state after a subscription attempt: a handle is registered only if
/// the attempt gave one and none is registered yet.
pub open spec fn after_subscribed(
    state: InvokerView,
    handle: Option<tokio::task::JoinHandle<()>>,
) -> InvokerView {
    match handle {
        Some(listener) => if is_active(state) {
            state
        } else {
            InvokerView { id: state.id, handles: state.handles.push(listener) }
        },
        None => state,
    }
}

/// The state after a shutdown: the same bridge with no handle.
pub open spec fn after_shutdown(state: InvokerView) -> InvokerView {
    InvokerView { id: state.id, handles: Seq::empty() }
}

/// The handle that a subscription attempt gave, if any.
pub open spec fn handle_of(
    outcome: Result<tokio::task::JoinHandle<()>, SubscribeError>,
) -> Option<tokio::task::JoinHandle<()>> {
    match outcome {
        Ok(listener) => Some(listener),
        Err(_) => None,
    }
}

impl View for MessagingNatsInvoker {
    type V = InvokerView;

    closed spec fn view(&self) -> InvokerView {
        InvokerView { id: self.id@, handles: self.sub_handles@ }
    }
}

impl Default for MessagingNatsInvoker {
    /// An inactive bridge with an empty identifier.
    fn default() -> (invoker: MessagingNatsInvoker)
        ensures
            invoker@.id == Seq::<char>::empty(),
            invoker@.handles.len() == 0,
    {
        MessagingNatsInvoker { id: String::new(), sub_handles: Vec::new() }
    }
}

impl MessagingNatsInvoker {
    /// One subscription serves every link, so the registry never holds more
    /// than one listener.
    #[verifier::type_invariant]
    spec fn at_most_one_listener(self) -> bool {
        self.sub_handles@.len() <= 1
    }

    /// Builds an inactive bridge from the host's data.
    pub fn from_host_data(host_data: &HostData) -> (invoker: MessagingNatsInvoker)
        ensures
            invoker@.id == host_data.provider_key@,
            invoker@.handles.len() == 0,
    {
        MessagingNatsInvoker { id: host_data.provider_key.clone(), sub_handles: Vec::new() }
    }

    /// The bridge's own identifier.
    pub fn id(&self) -> (id: &String)
        ensures
            id@ == self@.id,
    {
        &self.id
    }

    /// The number of registered listener handles: none or one.
    pub fn handle_count(&self) -> (count: usize)
        ensures
            count == self@.handles.len(),
            count <= 1,
    {
        proof {
            use_type_invariant(self);
        }
        self.sub_handles.len()
    }

    /// Whether the bridge is listening.
    pub fn is_active(&self) -> (active: bool)
        ensures
            active == is_active(self@),
    {
        self.sub_handles.len() > 0
    }

    /// Plans a regular or queue subscription to `sub` for the link `ld`.
    pub fn subscribe(&self, ld: &LinkDefinition, sub: String, queue: Option<String>) -> (plan:
        SubscribePlan)
        ensures
            plan@.call == broker_call_for(sub@, queue_view(queue)),
            plan@.link == ld@,
    {
        SubscribePlan { call: broker_call(sub, queue), link: ld.clone() }
    }

    /// A link is put to the bridge. While a listener is registered nothing
    /// new is opened; otherwise the caller is asked to open the one plain
    /// subscription that serves every link.
    pub fn put_link(&self, ld: &LinkDefinition) -> (step: LinkStep)
        ensures
            step@ == link_step_for(self@, ld@),
    {
        if !self.sub_handles.is_empty() {
            return LinkStep::Accepted;
        }
        LinkStep::Subscribe(self.subscribe(ld, "testing".to_owned(), None))
    }

    /// Takes the outcome of the subscription that `put_link` asked for, and
    /// says whether the link is accepted. A listener is registered if the
    /// bridge is still inactive; one that arrives when another is already
    /// registered is cancelled and not kept. On failure nothing changes and
    /// the link is denied.
    pub fn link_subscribed(
        &mut self,
        outcome: Result<tokio::task::JoinHandle<()>, SubscribeError>,
    ) -> (accepted: bool)
        ensures
            final(self)@ == after_subscribed(old(self)@, handle_of(outcome)),
            accepted == (outcome is Ok),
    {
        match outcome {
            Ok(listener) => {
                if self.sub_handles.is_empty() {
                    let mut handles = Vec::new();
                    handles.push(listener);
                    self.sub_handles = handles;
                    assert(self.sub_handles@ =~= old(self).sub_handles@.push(listener));
                } else {
                    abort_listener(&listener);
                }
                true
            },
            Err(_) => false,
        }
    }

    /// A link is dropped. The listeners are shared by all links, so nothing
    /// changes.
    pub fn delete_link(&mut self, actor_id: &str)
        ensures
            final(self)@ == old(self)@,
    {
    }

    /// Shuts the bridge down: every registered listener is cancelled and the
    /// registry is left empty.
    pub fn shutdown(&mut self)
        ensures
            final(self)@ == after_shutdown(old(self)@),
    {
        let mut i: usize = 0;
        while i < self.sub_handles.len()
            invariant
                i <= self.sub_handles.len(),
                self.sub_handles@ == old(self).sub_handles@,
                self.id@ == old(self).id@,
            decreases self.sub_handles.len() - i,
        {
            abort_listener(&self.sub_handles[i]);
            i = i + 1;
        }
        self.sub_handles = Vec::new();
    }

    /// Handles a message that the host delivers directly, on behalf of the
    /// bridge itself.
    pub fn handle_message(&self, body: &[u8]) -> (action: HandlerAction)
        ensures
            action@ == action_for(self@.id, decode_outcome(body@)),
    {
        handle_invoke_msg(self.id.clone(), body)
    }
}

} // verus!
