//! A bridge from a publish/subscribe broker to actor invocations: it decodes
//! each message received on a subject into an invocation request, and keeps
//! the registry of listeners that link events open and close.
//!
//! The library decides; its caller performs. Broker calls, task spawning and
//! the invocation itself are asked for as values ([`LinkStep`],
//! [`ListenerAction`], [`HandlerAction`]) and their outcomes are handed back.
pub mod codec;
pub mod decoder;
pub mod handler;
pub mod laws;
pub mod link;
pub mod message;
pub mod provider;
pub mod subscription;
pub mod task;

pub use crate::handler::{handle_invoke_msg, HandlerAction};
pub use crate::link::{HostData, LinkDefinition};
pub use crate::message::{DecodeFailure, Entity, InvokeMessage, Invocation};
pub use crate::provider::{LinkStep, MessagingNatsInvoker};
pub use crate::subscription::{BrokerCall, ListenerAction, SubscribeError, SubscribePlan};
