//! The exclusive hold on a repository's lock file.

use crate::error::SyncError;
use vstd::prelude::*;

verus! {

/// An exclusive hold on a lock file.
///
/// `H` is the resource that keeps the hold alive, an open and locked file for
/// instance; letting go of it gives the hold up. A `Lock` is made from a
/// fresh hold only, and once released it stays released.
#[derive(Debug)]
pub struct Lock<H> {
    lock: Option<H>,
}

impl<H> View for Lock<H> {
    type V = Option<H>;

    /// The resource held, if the lock has not been released.
    closed spec fn view(&self) -> Option<H> {
        self.lock
    }
}

impl<H> Lock<H> {
    /// Turns the outcome of creating and locking the lock file into a
    /// lock: a hold that was obtained is wrapped, a failure is reported as a
    /// lock error.
    pub fn acquired<E>(outcome: Result<H, E>) -> (result: Result<Lock<H>, SyncError<E>>)
        ensures
            match outcome {
                Ok(handle) => result matches Ok(lock) && lock@ == Some(handle),
                Err(error) => result == Err::<Lock<H>, SyncError<E>>(SyncError::Lock(error)),
            },
    {
        match outcome {
            Ok(handle) => Ok(Lock { lock: Some(handle) }),
            Err(error) => Err(SyncError::Lock(error)),
        }
    }

    /// Whether the hold is still in place.
    pub fn is_locked(&self) -> (held: bool)
        ensures
            held == self@.is_some(),
    {
        self.lock.is_some()
    }

    /// Gives the hold up. Releasing a released lock changes nothing.
    pub fn unlock(&mut self)
        ensures
            final(self)@ == None::<H>,
            old(self)@ is None ==> *final(self) == *old(self),
    {
        self.lock = None
    }
}

} // verus!
