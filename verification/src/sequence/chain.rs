//! A composition of sequences bound to one subject.

use vstd::prelude::*;

verus! {

/// One subject's composition together with its cancellation signal.
///
/// `head` is the sequence that the next update drives. Once `cancelled` is
/// set the chain is never driven again; whoever holds it drops it at its next
/// turn.
pub struct Chain<S> {
    /// The subject (for instance an object) that the composition acts for.
    pub subject: u64,
    /// The sequence that is driven next.
    pub head: S,
    /// The cancellation signal.
    pub cancelled: bool,
}

impl<S> Chain<S> {
    /// This chain with its signal raised.
    pub open spec fn raised(self) -> Self {
        Chain { subject: self.subject, head: self.head, cancelled: true }
    }

    /// This chain with another sequence at its head.
    pub open spec fn with_head(self, head: S) -> Self {
        Chain { subject: self.subject, head, cancelled: self.cancelled }
    }

    /// A live chain for `subject` whose head has not been driven yet.
    pub fn new(subject: u64, head: S) -> (c: Self)
        ensures
            c == (Chain { subject, head, cancelled: false }),
    {
        Chain { subject, head, cancelled: false }
    }

    /// Raises the cancellation signal. Raising it again changes nothing.
    pub fn cancel(&mut self)
        ensures
            *final(self) == old(self).raised(),
    {
        self.cancelled = true;
    }

    /// Whether the cancellation signal has been raised.
    pub fn is_cancelled(&self) -> (b: bool)
        ensures
            b == self.cancelled,
    {
        self.cancelled
    }
}

} // verus!
