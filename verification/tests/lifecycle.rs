use messaging_nats_invoker::handler::HandlerAction;
use messaging_nats_invoker::link::{HostData, LinkDefinition};
use messaging_nats_invoker::message::DecodeFailure;
use messaging_nats_invoker::provider::{LinkStep, MessagingNatsInvoker};
use messaging_nats_invoker::subscription::{
    broker_call, listener_step, BrokerCall, ListenerAction, SubscribeError, SubscribePlan,
};
use tokio::sync::oneshot;
use tokio::sync::oneshot::error::TryRecvError;
use tokio::task::JoinHandle;

fn runtime() -> tokio::runtime::Runtime {
    tokio::runtime::Builder::new_current_thread().build().unwrap()
}

fn host() -> HostData {
    HostData { provider_key: "VPROVIDER".to_string() }
}

fn link(actor: &str) -> LinkDefinition {
    LinkDefinition {
        actor_id: actor.to_string(),
        provider_id: "VPROVIDER".to_string(),
        link_name: "default".to_string(),
        contract_id: "wasmcloud:messaging".to_string(),
    }
}

/// A listener that never ends by itself; the receiver sees the sender go
/// when the task is cancelled.
fn listener(rt: &tokio::runtime::Runtime) -> (JoinHandle<()>, oneshot::Receiver<()>) {
    let (tx, rx) = oneshot::channel::<()>();
    let handle = rt.spawn(async move {
        let _held = tx;
        std::future::pending::<()>().await;
    });
    (handle, rx)
}

fn turn(rt: &tokio::runtime::Runtime) {
    rt.block_on(async {
        for _ in 0..16 {
            tokio::task::yield_now().await;
        }
    });
}

fn testing_plan(ld: LinkDefinition) -> LinkStep {
    LinkStep::Subscribe(SubscribePlan {
        call: BrokerCall::Subscribe { subject: "testing".to_string() },
        link: ld,
    })
}

#[test]
fn from_host_data_is_inactive() {
    let invoker = MessagingNatsInvoker::from_host_data(&host());
    assert_eq!(invoker.id(), "VPROVIDER");
    assert_eq!(invoker.handle_count(), 0);
    assert!(!invoker.is_active());
}

#[test]
fn first_link_asks_for_the_testing_subject() {
    let invoker = MessagingNatsInvoker::from_host_data(&host());
    assert_eq!(invoker.put_link(&link("A1")), testing_plan(link("A1")));
}

#[test]
fn put_link_twice_registers_one_handle() {
    let rt = runtime();
    let mut invoker = MessagingNatsInvoker::from_host_data(&host());
    assert_eq!(invoker.put_link(&link("A1")), testing_plan(link("A1")));
    let (handle, _rx) = listener(&rt);
    assert!(invoker.link_subscribed(Ok(handle)));
    assert_eq!(invoker.handle_count(), 1);
    assert!(invoker.is_active());
    assert_eq!(invoker.put_link(&link("A1")), LinkStep::Accepted);
    assert_eq!(invoker.handle_count(), 1);
}

#[test]
fn different_links_while_active_keep_one_handle() {
    let rt = runtime();
    let mut invoker = MessagingNatsInvoker::from_host_data(&host());
    let (handle, _rx) = listener(&rt);
    assert_eq!(invoker.put_link(&link("A1")), testing_plan(link("A1")));
    assert!(invoker.link_subscribed(Ok(handle)));
    assert_eq!(invoker.put_link(&link("A2")), LinkStep::Accepted);
    assert_eq!(invoker.handle_count(), 1);
    assert_eq!(invoker.put_link(&link("A3")), LinkStep::Accepted);
    assert_eq!(invoker.handle_count(), 1);
}

#[test]
fn failed_subscription_denies_the_link() {
    let mut invoker = MessagingNatsInvoker::from_host_data(&host());
    assert_eq!(invoker.put_link(&link("A1")), testing_plan(link("A1")));
    let denied = invoker.link_subscribed(Err(SubscribeError { message: "transport down".into() }));
    assert!(!denied);
    assert_eq!(invoker.handle_count(), 0);
    assert!(!invoker.is_active());
    // the next link tries again
    assert_eq!(invoker.put_link(&link("A1")), testing_plan(link("A1")));
}

#[test]
fn shutdown_empties_the_registry_and_cancels_the_listener() {
    let rt = runtime();
    let mut invoker = MessagingNatsInvoker::from_host_data(&host());
    let (handle, mut rx) = listener(&rt);
    assert!(invoker.link_subscribed(Ok(handle)));
    turn(&rt);
    assert_eq!(rx.try_recv(), Err(TryRecvError::Empty));
    invoker.shutdown();
    assert_eq!(invoker.handle_count(), 0);
    assert_eq!(invoker.id(), "VPROVIDER");
    turn(&rt);
    assert_eq!(rx.try_recv(), Err(TryRecvError::Closed));
}

#[test]
fn put_link_after_shutdown_starts_afresh() {
    let rt = runtime();
    let mut invoker = MessagingNatsInvoker::from_host_data(&host());
    let (first, _rx1) = listener(&rt);
    assert!(invoker.link_subscribed(Ok(first)));
    invoker.shutdown();
    assert_eq!(invoker.put_link(&link("A2")), testing_plan(link("A2")));
    let (second, mut rx2) = listener(&rt);
    assert!(invoker.link_subscribed(Ok(second)));
    assert_eq!(invoker.handle_count(), 1);
    turn(&rt);
    assert_eq!(rx2.try_recv(), Err(TryRecvError::Empty));
}

#[test]
fn shutdown_of_an_inactive_bridge_changes_nothing() {
    let mut invoker = MessagingNatsInvoker::from_host_data(&host());
    invoker.shutdown();
    assert_eq!(invoker.handle_count(), 0);
    assert_eq!(invoker.id(), "VPROVIDER");
}

#[test]
fn late_listener_is_cancelled_and_not_kept() {
    let rt = runtime();
    let mut invoker = MessagingNatsInvoker::from_host_data(&host());
    let (first, mut rx1) = listener(&rt);
    let (late, mut rx2) = listener(&rt);
    assert!(invoker.link_subscribed(Ok(first)));
    assert!(invoker.link_subscribed(Ok(late)));
    assert_eq!(invoker.handle_count(), 1);
    turn(&rt);
    assert_eq!(rx1.try_recv(), Err(TryRecvError::Empty));
    assert_eq!(rx2.try_recv(), Err(TryRecvError::Closed));
}

#[test]
fn delete_link_is_a_no_op() {
    let rt = runtime();
    let mut invoker = MessagingNatsInvoker::from_host_data(&host());
    invoker.delete_link("A1");
    assert_eq!(invoker.handle_count(), 0);
    let (handle, mut rx) = listener(&rt);
    assert!(invoker.link_subscribed(Ok(handle)));
    invoker.delete_link("A1");
    assert_eq!(invoker.handle_count(), 1);
    assert_eq!(invoker.id(), "VPROVIDER");
    turn(&rt);
    assert_eq!(rx.try_recv(), Err(TryRecvError::Empty));
}

#[test]
fn queue_group_selects_the_queue_subscription() {
    assert_eq!(
        broker_call("orders".to_string(), Some("workers".to_string())),
        BrokerCall::QueueSubscribe {
            subject: "orders".to_string(),
            queue_group: "workers".to_string()
        }
    );
    assert_eq!(
        broker_call("orders".to_string(), None),
        BrokerCall::Subscribe { subject: "orders".to_string() }
    );
}

#[test]
fn subscribe_plans_the_call_for_the_link() {
    let invoker = MessagingNatsInvoker::from_host_data(&host());
    let plan = invoker.subscribe(&link("A1"), "orders".to_string(), Some("workers".to_string()));
    assert_eq!(
        plan,
        SubscribePlan {
            call: BrokerCall::QueueSubscribe {
                subject: "orders".to_string(),
                queue_group: "workers".to_string()
            },
            link: link("A1"),
        }
    );
    let plan = invoker.subscribe(&link("A2"), "orders".to_string(), None);
    assert_eq!(plan.call, BrokerCall::Subscribe { subject: "orders".to_string() });
    assert_eq!(plan.link, link("A2"));
}

#[test]
fn listener_hands_each_body_to_a_handler() {
    let mut ld = link("A1");
    ld.provider_id = "VOTHER".to_string();
    assert_eq!(
        listener_step(&ld, Some(b"body".to_vec())),
        ListenerAction::Handle { provider_id: "VOTHER".to_string(), body: b"body".to_vec() }
    );
    assert_eq!(
        listener_step(&ld, Some(Vec::new())),
        ListenerAction::Handle { provider_id: "VOTHER".to_string(), body: Vec::new() }
    );
    assert_eq!(listener_step(&ld, None), ListenerAction::Stop);
}

#[test]
fn handle_message_uses_the_bridge_id() {
    let invoker = MessagingNatsInvoker::from_host_data(&host());
    let body = r#"{"actor_id":"A1","link_name":"L1","contract_id":"C1","operation":"op.test","payload_b64":"aGVsbG8="}"#;
    match invoker.handle_message(body.as_bytes()) {
        HandlerAction::Dispatch(invocation) => {
            assert_eq!(invocation.origin.public_key, "VPROVIDER");
            assert_eq!(invocation.target.public_key, "A1");
            assert_eq!(invocation.payload, b"hello".to_vec());
        }
        HandlerAction::Discard(failure) => panic!("discarded: {:?}", failure),
    }
    assert_eq!(
        invoker.handle_message(b"{"),
        HandlerAction::Discard(DecodeFailure::MalformedEnvelope)
    );
}

#[test]
fn link_definition_clone_is_equal() {
    let ld = link("A1");
    assert_eq!(ld.clone(), ld);
}

#[test]
fn default_bridge_is_inactive_and_unnamed() {
    let invoker = MessagingNatsInvoker::default();
    assert_eq!(invoker.id(), "");
    assert_eq!(invoker.handle_count(), 0);
    assert_eq!(invoker.put_link(&link("A1")), testing_plan(link("A1")));
}
