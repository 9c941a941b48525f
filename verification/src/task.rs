//! The background task of a channel, as far as the channel touches it.

use vstd::prelude::*;
use tokio::task::JoinError;
use tokio::task::JoinHandle;

verus! {

#[verifier::external_type_specification]
#[verifier::external_body]
#[verifier::reject_recursive_types(T)]
pub struct ExJoinHandle<T>(JoinHandle<T>);

/// The error of a join. The library holds none: the type is declared
/// because the handle's `Future` impl names it, and Verus reads that impl
/// with the handle.
#[verifier::external_type_specification]
#[verifier::external_body]
pub struct ExJoinError(JoinError);

/// `tokio::task::JoinHandle::abort`: asks the runtime to cancel the task. It
/// may be called any number of times, also on a task that has ended.
#[verifier::external_body]
pub(crate) fn abort_task(handle: &JoinHandle<()>) {
    handle.abort();
}

} // verus!
