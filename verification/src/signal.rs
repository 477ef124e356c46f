//! The shared cancellation signal: a write-once "stop" flag that any
//! session may raise and every session observes.
//!
//! [`CancellationState`] carries the signal's discipline as verified state:
//! raising is idempotent, a raised signal can never be lowered again, and a
//! holder that checks after the signal was raised sees it at once.  Between
//! tasks the service shares the signal as a cancellation token, raised
//! through the session actions and awaited in the connection loops.

use vstd::prelude::*;

verus! {

/// The cancellation flag: raised once, raised forever.
#[derive(Debug, PartialEq, Eq, Structural)]
pub struct CancellationState {
    /// Whether the signal has been raised.
    pub raised: bool,
}

/// What raising does: the signal is raised afterwards, whatever it was
/// before.  This is the only transition the signal has, so once raised it
/// remains raised for the life of the process.
pub open spec fn cancel_rel(s0: CancellationState, s1: CancellationState) -> bool {
    s1.raised
}

impl CancellationState {
    /// A fresh signal: not raised.
    pub fn new() -> (s: CancellationState)
        ensures
            !s.raised,
    {
        CancellationState { raised: false }
    }

    /// Raise the signal.  Raising an already-raised signal changes nothing.
    pub fn cancel(&mut self)
        ensures
            cancel_rel(*old(self), *final(self)),
    {
        self.raised = true;
    }

    /// Whether the signal has been raised; a holder that asks after any
    /// raise - however long ago - sees it.
    pub fn is_cancelled(&self) -> (r: bool)
        ensures
            r == self.raised,
    {
        self.raised
    }
}

/// Raising is idempotent and permanent: a second raise changes nothing,
/// and no transition lowers a raised signal.
pub proof fn lemma_cancel_write_once(
    s0: CancellationState,
    s1: CancellationState,
    s2: CancellationState,
)
    requires
        cancel_rel(s0, s1),
        cancel_rel(s1, s2),
    ensures
        s1 == s2,
        s1.raised && s2.raised,
{
}

} // verus!
