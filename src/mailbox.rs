//! A single-slot, overwrite-latest mailbox between two pipeline stages.
use vstd::prelude::*;

verus! {

/// The slot after `value` was published into `slot`: any unread value is dropped.
pub open spec fn published<T>(slot: Option<T>, value: T) -> Option<T> {
    Some(value)
}

/// Holds at most one value; a publish replaces whatever has not been read yet.
pub struct Mailbox<T> {
    slot: Option<T>,
}

impl<T> View for Mailbox<T> {
    type V = Option<T>;

    closed spec fn view(&self) -> Option<T> {
        self.slot
    }
}

impl<T> Mailbox<T> {
    /// An empty mailbox.
    pub fn new() -> (r: Self)
        ensures
            r@ is None,
    {
        Mailbox { slot: None }
    }

    /// Publishes `value`, replacing any value not yet taken.
    pub fn publish(&mut self, value: T)
        ensures
            final(self)@ == published(old(self)@, value),
    {
        self.slot = Some(value);
    }

    /// Takes the pending value, if any, leaving the mailbox empty.
    pub fn take(&mut self) -> (r: Option<T>)
        ensures
            r == old(self)@,
            final(self)@ is None,
    {
        self.slot.take()
    }

    /// Whether a value waits to be taken.
    pub fn is_pending(&self) -> (r: bool)
        ensures
            r == self@ is Some,
    {
        self.slot.is_some()
    }
}

/// Two publishes with no take between them leave only the second value for the reader.
pub proof fn lemma_latest_wins<T>(slot: Option<T>, first: T, second: T)
    ensures
        published(published(slot, first), second) == Some(second),
{
}

} // verus!
