//! Listener tasks, as the `tokio` runtime hands them out.
use vstd::prelude::*;

verus! {

/// `tokio::task::JoinHandle`, the handle of a spawned task. Opaque to the
/// verifier.
#[verifier::external_type_specification]
#[verifier::external_body]
#[verifier::reject_recursive_types(T)]
pub struct ExJoinHandle<T>(tokio::task::JoinHandle<T>);

/// `tokio::task::JoinError`, what awaiting a cancelled or panicked task
/// gives. Opaque to the verifier.
#[verifier::external_type_specification]
#[verifier::external_body]
pub struct ExJoinError(tokio::task::JoinError);

/// Calls `tokio::task::JoinHandle::abort`, which asks the runtime to cancel
/// the task. Nothing is assumed of it.
#[verifier::external_body]
pub(crate) fn abort_listener(handle: &tokio::task::JoinHandle<()>) {
    handle.abort();
}

} // verus!
