//! The mailbox: the multi-producer single-consumer channel that funnels every
//! message (command completions, subscription emissions, view sends) back to
//! the driver's update loop, in enqueue order.

use vstd::prelude::*;

use futures::channel::mpsc::{UnboundedReceiver, UnboundedSender};

verus! {

#[verifier::external_type_specification]
#[verifier::external_body]
#[verifier::reject_recursive_types(T)]
pub struct ExUnboundedSender<T>(UnboundedSender<T>);

#[verifier::external_type_specification]
#[verifier::external_body]
#[verifier::reject_recursive_types(T)]
pub struct ExUnboundedReceiver<T>(UnboundedReceiver<T>);

/// Relies on futures::channel::mpsc::unbounded: a first-in-first-out queue;
/// every value sent on the sender, or any clone of it, arrives at the
/// receiver, in send order per producer.
#[verifier::external_body]
pub(crate) fn mailbox_channel<Message: Send + 'static>() -> (
    UnboundedSender<Message>,
    UnboundedReceiver<Message>,
) {
    futures::channel::mpsc::unbounded()
}

/// Relies on UnboundedSender::clone: the clone feeds the same queue.
#[verifier::external_body]
pub(crate) fn sender_clone<Message: Send + 'static>(
    sender: &UnboundedSender<Message>,
) -> UnboundedSender<Message> {
    sender.clone()
}

/// Relies on UnboundedSender::unbounded_send: enqueues without blocking; when
/// the consumer is gone the message is silently dropped, since shutdown is
/// then already underway.
#[verifier::external_body]
pub(crate) fn mailbox_send<Message: Send + 'static>(
    sender: &UnboundedSender<Message>,
    message: Message,
) {
    let _ = sender.unbounded_send(message);
}

/// Relies on UnboundedReceiver::try_next: never blocks; yields the oldest
/// queued message, or `None` when the queue is empty or every producer is
/// gone.
#[verifier::external_body]
pub(crate) fn mailbox_try_next<Message: Send + 'static>(
    receiver: &mut UnboundedReceiver<Message>,
) -> Option<Message> {
    match receiver.try_next() {
        Ok(Some(message)) => Some(message),
        _ => None,
    }
}

} // verus!
