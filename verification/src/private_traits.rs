//! What a guard needs of the lock it holds: a way to give the lock back, and
//! a way to the data.
//!
//! The module is private, so only this crate can call `unlock` or reach the
//! data directly: everyone else goes through a guard.

use vstd::prelude::*;

verus! {

/// A lock that can be given back.
pub trait Unlockable: View + Sized {
    /// Whether a lock in this state may be released.
    spec fn releasable(state: Self::V) -> bool;

    /// The state that one release leaves.
    spec fn released(state: Self::V) -> Self::V;

    /// Gives back one acquisition.
    fn unlock(&mut self)
        requires
            Self::releasable(old(self)@),
        ensures
            final(self)@ == Self::released(old(self)@),
    ;
}

/// A lock that holds the data it protects.
pub trait HasContent: View + Sized {
    type ContentType;

    /// The protected data of a lock in this state.
    spec fn content(state: Self::V) -> Self::ContentType;

    /// The same lock around other data.
    spec fn with_content(state: Self::V, content: Self::ContentType) -> Self::V;

    /// What is put around a lock is what the lock then holds.
    proof fn lemma_content_replaced(state: Self::V, content: Self::ContentType)
        ensures
            Self::content(Self::with_content(state, content)) == content,
    ;

    /// Shared access to the protected data.
    fn get_content(&self) -> (content: &Self::ContentType)
        ensures
            *content == Self::content(self@),
    ;

    /// Exclusive access to the protected data. Whatever the caller leaves
    /// behind the reference is the lock's data afterwards; nothing else of the
    /// lock changes.
    fn get_content_mut(&mut self) -> (content: &mut Self::ContentType)
        ensures
            *content == Self::content(old(self)@),
            final(self)@ == Self::with_content(old(self)@, *final(content)),
    ;
}

} // verus!
