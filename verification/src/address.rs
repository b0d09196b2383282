//! The sending side of a mailbox, and the handles that a parent keeps on its
//! children.

use vstd::prelude::*;
use tokio::sync::mpsc::error::TrySendError;
use tokio::sync::mpsc::Sender;
use crate::error::{Enqueue, MailboxError};

verus! {

/// The number of envelopes that a mailbox holds unless told otherwise.
pub const DEFAULT_MAILBOX_CAPACITY: usize = 64;

/// A handle by which a parent controls a child actor, whatever the child's
/// type.
pub trait ChildHandle: Send + Sync {
    /// Fires the child's stop signal.
    fn stop(&self);

    /// Whether the child's mailbox still has a consumer.
    fn is_alive(&self) -> bool;
}

#[verifier::external_type_specification]
#[verifier::external_body]
#[verifier::reject_recursive_types(T)]
pub struct ExSender<T>(tokio::sync::mpsc::Sender<T>);

/// `Sender::try_send` of a bounded tokio channel: hands the item to the
/// channel without waiting and tells how that went. The outcome depends on
/// what other tasks have sent and received, so nothing is claimed of it.
#[verifier::external_body]
fn offer<T>(sender: &Sender<T>, item: T) -> (outcome: Enqueue) {
    match sender.try_send(item) {
        Ok(()) => Enqueue::Accepted,
        Err(TrySendError::Full(_)) => Enqueue::Full,
        Err(TrySendError::Closed(_)) => Enqueue::Closed,
    }
}

/// `Sender::is_closed` of a bounded tokio channel: whether the receiving side
/// is gone. It depends on what the receiving task has done, so nothing is
/// claimed of it.
#[verifier::external_body]
fn closed<T>(sender: &Sender<T>) -> (gone: bool) {
    sender.is_closed()
}

/// Enqueues `envelope` without waiting for room. Whatever the mailbox's
/// state, the answer is success, `MailboxFull` or `MailboxClosed`, as
/// `MailboxError::from_enqueue` maps the mailbox's own answer; a non-blocking
/// send never times out.
pub fn try_send<T>(sender: &Sender<T>, envelope: T) -> (res: Result<(), MailboxError>)
    ensures
        res != Err::<(), MailboxError>(MailboxError::Timeout),
{
    MailboxError::from_enqueue(offer(sender, envelope))
}

/// Whether the mailbox behind `sender` still has a consumer, as the channel
/// answers at the moment of the call. The consuming task may end at any time,
/// so nothing is promised of the answer.
pub fn is_alive<T>(sender: &Sender<T>) -> (alive: bool) {
    !closed(sender)
}

} // verus!
