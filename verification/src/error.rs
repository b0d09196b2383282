//! The errors a sender can observe.

use vstd::prelude::*;

verus! {

/// Why a message could not be delivered or answered.
#[derive(Clone, Copy, Debug, PartialEq, Eq, Structural)]
pub enum MailboxError {
    /// The actor's mailbox is closed: the actor has stopped.
    MailboxClosed,
    /// The reply did not arrive in time.
    Timeout,
    /// The mailbox is at capacity.
    MailboxFull,
}

/// How a non-blocking enqueue ended.
#[derive(Clone, Copy, Debug, PartialEq, Eq, Structural)]
pub enum Enqueue {
    /// The mailbox took the envelope.
    Accepted,
    /// The mailbox had no room.
    Full,
    /// The consumer is gone.
    Closed,
}

/// How waiting for a reply ended.
#[derive(Clone, Copy, Debug, PartialEq, Eq, Structural)]
pub enum ReplyWait {
    /// The handler posted its result.
    Answered,
    /// The reply slot was dropped: the handler panicked or never ran.
    Dropped,
    /// The deadline passed first.
    Expired,
}

impl MailboxError {
    /// The text shown for this error.
    pub open spec fn text(self) -> Seq<char> {
        match self {
            MailboxError::MailboxClosed => "Actor's mailbox is closed"@,
            MailboxError::Timeout => "Requested operation timed out"@,
            MailboxError::MailboxFull => "Actor's mailbox is full"@,
        }
    }

    /// The text shown for this error.
    pub fn message(&self) -> (text: &'static str)
        ensures
            text@ == self.text(),
    {
        match self {
            MailboxError::MailboxClosed => "Actor's mailbox is closed",
            MailboxError::Timeout => "Requested operation timed out",
            MailboxError::MailboxFull => "Actor's mailbox is full",
        }
    }

    /// What `try_send` reports for the outcome of its enqueue: a full mailbox
    /// is `MailboxFull`, a closed one `MailboxClosed`.
    pub fn from_enqueue(outcome: Enqueue) -> (res: Result<(), MailboxError>)
        ensures
            outcome == Enqueue::Accepted <==> res is Ok,
            outcome == Enqueue::Full <==> res == Err::<(), MailboxError>(MailboxError::MailboxFull),
            outcome == Enqueue::Closed <==> res == Err::<(), MailboxError>(
                MailboxError::MailboxClosed,
            ),
    {
        match outcome {
            Enqueue::Accepted => Ok(()),
            Enqueue::Full => Err(MailboxError::MailboxFull),
            Enqueue::Closed => Err(MailboxError::MailboxClosed),
        }
    }

    /// What `send` and `send_timeout` report once the envelope was enqueued:
    /// a dropped reply slot is `MailboxClosed`, a passed deadline `Timeout`.
    pub fn from_reply(outcome: ReplyWait) -> (res: Result<(), MailboxError>)
        ensures
            outcome == ReplyWait::Answered <==> res is Ok,
            outcome == ReplyWait::Dropped <==> res == Err::<(), MailboxError>(
                MailboxError::MailboxClosed,
            ),
            outcome == ReplyWait::Expired <==> res == Err::<(), MailboxError>(
                MailboxError::Timeout,
            ),
    {
        match outcome {
            ReplyWait::Answered => Ok(()),
            ReplyWait::Dropped => Err(MailboxError::MailboxClosed),
            ReplyWait::Expired => Err(MailboxError::Timeout),
        }
    }
}

} // verus!
