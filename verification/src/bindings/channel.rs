//! Channels that carry notifications out of the library.

use vstd::prelude::*;
use tokio::sync::mpsc::UnboundedSender;

verus! {

#[verifier::external_type_specification]
#[verifier::external_body]
#[verifier::reject_recursive_types(T)]
pub struct ExUnboundedSender<T>(UnboundedSender<T>);

/// Hands `message` to `tokio::sync::mpsc::UnboundedSender::send`, which
/// queues it without waiting. The call fails when the receiving half is
/// closed or dropped; the failure is ignored and the message is lost.
#[verifier::external_body]
pub(crate) fn send_or_drop<T>(sender: &UnboundedSender<T>, message: T) {
    let _ = sender.send(message);
}

} // verus!
