//! The cross-process file-lock discipline: an exclusive advisory lock over a
//! lock file guards every writer of a shared cache entry or tool directory.
//!
//! The protocol is modelled here and every step is checked: a free lock is
//! granted at once, a held lock refuses every other requester until it is
//! released, and a waiter announces the contention once, not on every poll.
//! The caller holds the OS-level lock accordingly and releases it on every
//! exit path of the protected operation — normal completion, an error, or an
//! abnormal termination, which is re-raised unchanged after the release.

use vstd::prelude::*;

verus! {

/// The advisory lock over one lock file: free, or held by one owner.
#[derive(Clone, Copy)]
pub struct LockState {
    pub holder: Option<u64>,
}

/// What an acquire attempt does: a free lock is taken by the requester; a
/// held lock stays exactly as it is and the attempt is refused.
pub open spec fn spec_acquire(s: LockState, requester: u64) -> (LockState, bool) {
    if s.holder is None {
        (LockState { holder: Some(requester) }, true)
    } else {
        (s, false)
    }
}

/// What a release does: the lock is free again.
pub open spec fn spec_release(s: LockState) -> LockState {
    LockState { holder: None }
}

impl LockState {
    /// A lock nobody holds yet; the lock file is created on first use and
    /// never deleted.
    pub fn new() -> (s: LockState)
        ensures
            s.holder is None,
    {
        LockState { holder: None }
    }

    /// One non-blocking acquire attempt by `requester`: granted exactly when
    /// the lock is free.
    pub fn try_acquire(self, requester: u64) -> (r: (LockState, bool))
        ensures
            r == spec_acquire(self, requester),
            r.1 <==> self.holder is None,
            r.1 ==> r.0.holder == Some(requester),
            !r.1 ==> r.0 == self,
    {
        match self.holder {
            None => (LockState { holder: Some(requester) }, true),
            Some(_) => (self, false),
        }
    }

    /// Release by the owner. The caller reaches this on every exit path of
    /// the protected operation, abnormal termination included.
    pub fn release(self, owner: u64) -> (s: LockState)
        requires
            self.holder == Some(owner),
        ensures
            s == spec_release(self),
            s.holder is None,
    {
        LockState { holder: None }
    }
}

/// A task waiting for a contended lock; the notice about other processes
/// holding the lock is logged once, not on every failed attempt.
#[derive(Clone, Copy)]
pub struct Waiter {
    pub message_displayed: bool,
}

impl Waiter {
    /// A waiter that has not announced anything yet.
    pub fn new() -> (w: Waiter)
        ensures
            !w.message_displayed,
    {
        Waiter { message_displayed: false }
    }

    /// One contended attempt: the result says whether to log the blocking
    /// notice now — on the first contention, and never again.
    pub fn note_contention(self) -> (r: (Waiter, bool))
        ensures
            r.1 <==> !self.message_displayed,
            r.0.message_displayed,
    {
        (Waiter { message_displayed: true }, !self.message_displayed)
    }
}

/// Lock mutual exclusion: once `a`'s acquire is granted, an acquire by any
/// requester — `a` itself included — is refused until the lock is released,
/// so two protected operations on the same lock path are never inside their
/// critical sections at once; and after the release that every exit path
/// (an abnormal one too) performs, a waiting `b` is granted the lock.
pub proof fn lemma_lock_mutual_exclusion(s: LockState, a: u64, b: u64)
    requires
        spec_acquire(s, a).1,
    ensures
        !spec_acquire(spec_acquire(s, a).0, b).1,
        spec_acquire(spec_release(spec_acquire(s, a).0), b).1,
{
}

} // verus!
