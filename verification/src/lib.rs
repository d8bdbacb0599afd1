//! Mutexes for single-core targets, where the only other party is an interrupt
//! handler.
//!
//! A lock never waits: `try_lock` answers at once with a [`Guard`] or with
//! nothing. The guard gives access to the protected data and is handed back by
//! [`Guard::release`].

use vstd::prelude::*;

pub mod cortex_m_interrupt_free;
pub mod lemmas;
pub mod model;
mod private_traits;

use private_traits::{HasContent, Unlockable};

verus! {

/// A lock that is acquired by an attempt that never waits. `Params` is what an
/// attempt has to bring along.
pub trait Lockable<Params>: Unlockable + Sized {
    /// Whether a lock in this state has room for one more acquisition.
    spec fn has_room(state: Self::V) -> bool;

    /// Whether `grants` settles the attempt. Where it does not, the answer rests
    /// on a comparison of which nothing is known.
    spec fn decides(state: Self::V, params: Params) -> bool;

    /// Whether an attempt with `params` succeeds on a lock in this state.
    spec fn grants(state: Self::V, params: Params) -> bool;

    /// The state that a successful attempt with `params` leaves.
    spec fn acquired(state: Self::V, params: Params) -> Self::V;

    /// Tries to acquire the lock. On success the guard holds this very lock, in
    /// its acquired state, and what the guard leaves is what the lock is
    /// afterwards. On failure the lock is untouched.
    fn try_lock<'l>(&'l mut self, params: &Params) -> (guard: Option<Guard<'l, Self>>)
        requires
            Self::has_room(old(self)@),
        ensures
            Self::decides(old(self)@, *params) ==> (guard is Some <==> Self::grants(
                old(self)@,
                *params,
            )),
            match guard {
                Some(g) => g.lock()@ == Self::acquired(old(self)@, *params) && *final(self)
                    == *final(g.parent),
                None => *final(self) == *old(self),
            },
    ;
}

/// Access to a lock that has been acquired.
///
/// A guard borrows its lock exclusively, so while it lives the lock can only be
/// reached through `parent`: that is where a nested attempt is made. The type is
/// neither `Clone` nor `Copy`, and outside this crate it cannot be built by hand.
#[non_exhaustive]
pub struct Guard<'l, Lock: Unlockable> {
    /// The lock that was acquired.
    pub parent: &'l mut Lock,
}

impl<'l, Lock: Unlockable> Guard<'l, Lock> {
    /// The lock as it stands now.
    pub open spec fn lock(&self) -> Lock {
        *self.parent
    }

    /// Ends the guard and gives its acquisition back to the lock.
    ///
    /// Nothing else releases a lock: a guard that merely goes out of scope
    /// leaves its acquisition outstanding.
    pub fn release(self)
        requires
            Lock::releasable(self.lock()@),
        ensures
            final(self.parent)@ == Lock::released(self.lock()@),
    {
        self.parent.unlock();
    }
}

impl<'l, Lock: HasContent + Unlockable> core::ops::Deref for Guard<'l, Lock> {
    type Target = Lock::ContentType;

    /// The data of the lock that the guard holds.
    fn deref(&self) -> (content: &Self::Target)
        ensures
            *content == Lock::content(self.lock()@),
    {
        self.parent.get_content()
    }
}

impl<'l, Lock: HasContent + Unlockable> core::ops::DerefMut for Guard<'l, Lock> {
    /// The data of the lock that the guard holds, for writing. The guard keeps
    /// holding the same lock, now around whatever was written.
    fn deref_mut(&mut self) -> (content: &mut Lock::ContentType)
        ensures
            *content == Lock::content(old(self).lock()@),
            final(self).lock()@ == Lock::with_content(old(self).lock()@, *final(content)),
            *final(final(self).parent) == *final(old(self).parent),
    {
        self.parent.get_content_mut()
    }
}

} // verus!
