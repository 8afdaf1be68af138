//! The view context: the one capability handed to the rendering function,
//! letting it enqueue messages onto the mailbox without ever blocking the
//! render thread.

use vstd::prelude::*;

use futures::channel::mpsc::UnboundedSender;

use crate::mailbox::{mailbox_send, sender_clone};

verus! {

/// Passed to the view function so user interactions can send messages back
/// to the update loop.
#[verifier::reject_recursive_types(Message)]
pub struct ViewContext<Message: Send + 'static> {
    sender: UnboundedSender<Message>,
}

impl<Message: Send + 'static> ViewContext<Message> {
    pub(crate) fn new(sender: UnboundedSender<Message>) -> Self {
        ViewContext { sender }
    }

    /// Enqueues the message without blocking the caller. When the runtime has
    /// been torn down the send is silently dropped: the UI stays responsive
    /// rather than stalling.
    pub fn send(&self, message: Message) {
        mailbox_send(&self.sender, message);
    }
}

impl<Message: Send + 'static> Clone for ViewContext<Message> {
    /// The clone feeds the same mailbox.
    fn clone(&self) -> Self {
        ViewContext { sender: sender_clone(&self.sender) }
    }
}

} // verus!
