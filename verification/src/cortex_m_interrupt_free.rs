//! Locks for Cortex-M cores whose state is only ever changed while interrupts
//! are masked, as `cortex_m::interrupt::free` does it.
//!
//! The locks themselves take `&mut self`: whoever can call them already has the
//! lock to itself for the length of the call, which is what masking interrupts
//! provides on a single core.

use crate::model::{NonReentrantState, ReentrantState};
use crate::private_traits::{HasContent, Unlockable};
use crate::{Guard, Lockable};
use vstd::prelude::*;
use vstd::std_specs::cmp::PartialEqSpec;

verus! {

/// A mutex that one owner may acquire again while it holds it. Owners are told
/// apart by the token that they pass to `try_lock`: two tokens that compare
/// equal are the same owner. Passing tokens by hand means that the caller
/// answers for handing the same token only to code that cannot race.
pub struct ReentrantMutex<Data, Token> {
    content: Data,
    locked_by: Option<Token>,
    counter: usize,
}

impl<Data, Token> View for ReentrantMutex<Data, Token> {
    type V = ReentrantState<Data, Token>;

    closed spec fn view(&self) -> ReentrantState<Data, Token> {
        ReentrantState { content: self.content, holder: self.locked_by, depth: self.counter as nat }
    }
}

impl<Data, Token> HasContent for ReentrantMutex<Data, Token> {
    type ContentType = Data;

    open spec fn content(state: ReentrantState<Data, Token>) -> Data {
        state.content
    }

    open spec fn with_content(state: ReentrantState<Data, Token>, content: Data) -> ReentrantState<
        Data,
        Token,
    > {
        state.with_content(content)
    }

    proof fn lemma_content_replaced(state: ReentrantState<Data, Token>, content: Data) {
    }

    fn get_content(&self) -> (content: &Data) {
        &self.content
    }

    fn get_content_mut(&mut self) -> (content: &mut Data) {
        &mut self.content
    }
}

impl<Data, Token: PartialEq> ReentrantMutex<Data, Token> {
    /// A free mutex around `data`.
    pub fn new(data: Data) -> (mutex: Self)
        ensures
            mutex@ == ReentrantState::<Data, Token>::fresh(data),
    {
        ReentrantMutex { content: data, locked_by: None, counter: 0 }
    }

    /// Tries to acquire the mutex for the owner that `token` stands for.
    ///
    /// A free mutex is always granted, and records `token`. A held one is
    /// granted exactly when its holder and `token` compare equal: it then keeps
    /// the holder that it has and counts one acquisition more. Otherwise the
    /// attempt fails and changes nothing.
    pub fn try_lock<'l>(&'l mut self, token: Token) -> (guard: Option<Guard<'l, Self>>)
        requires
            old(self)@.holder is Some ==> old(self)@.depth < usize::MAX,
        ensures
            old(self)@.holder is None ==> guard is Some,
            Token::obeys_eq_spec() ==> (guard is Some <==> old(self)@.grants(token)),
            old(self)@.holder matches Some(holder) ==> call_ensures(
                Token::eq,
                (&holder, &token),
                guard is Some,
            ),
            match guard {
                Some(g) => g.lock()@ == old(self)@.acquired(token) && *final(self)
                    == *final(g.parent),
                None => *final(self) == *old(self),
            },
    {
        match &self.locked_by {
            None => {
                self.locked_by = Some(token);
                self.counter = 1;
                Some(Guard { parent: self })
            },
            Some(locker) => {
                if *locker == token {
                    self.counter = self.counter + 1;
                    Some(Guard { parent: self })
                } else {
                    None
                }
            },
        }
    }
}

impl<Data, Token> Unlockable for ReentrantMutex<Data, Token> {
    open spec fn releasable(state: ReentrantState<Data, Token>) -> bool {
        state.depth > 0
    }

    open spec fn released(state: ReentrantState<Data, Token>) -> ReentrantState<Data, Token> {
        state.released()
    }

    /// Gives back one acquisition, and forgets the holder with the last one.
    fn unlock(&mut self) {
        self.counter = self.counter - 1;
        if self.counter == 0 {
            self.locked_by = None;
        }
    }
}

impl<Data, Token: PartialEq + Copy> Lockable<Token> for ReentrantMutex<Data, Token> {
    open spec fn has_room(state: ReentrantState<Data, Token>) -> bool {
        state.holder is Some ==> state.depth < usize::MAX
    }

    open spec fn decides(state: ReentrantState<Data, Token>, params: Token) -> bool {
        state.holder is None || Token::obeys_eq_spec()
    }

    open spec fn grants(state: ReentrantState<Data, Token>, params: Token) -> bool {
        state.grants(params)
    }

    open spec fn acquired(state: ReentrantState<Data, Token>, params: Token) -> ReentrantState<
        Data,
        Token,
    > {
        state.acquired(params)
    }

    /// An attempt under a copy of the token `params`.
    fn try_lock<'l>(&'l mut self, params: &Token) -> (guard: Option<Guard<'l, Self>>) {
        ReentrantMutex::try_lock(self, *params)
    }
}

/// A mutex that knows no owners: it is locked or it is not. Simpler and cheaper
/// than the reentrant one, but whoever holds it and tries again is turned away
/// like anyone else.
pub struct NonReentrantMutex<Data> {
    content: Data,
    locked: bool,
}

impl<Data> View for NonReentrantMutex<Data> {
    type V = NonReentrantState<Data>;

    closed spec fn view(&self) -> NonReentrantState<Data> {
        NonReentrantState { content: self.content, locked: self.locked }
    }
}

impl<Data> HasContent for NonReentrantMutex<Data> {
    type ContentType = Data;

    open spec fn content(state: NonReentrantState<Data>) -> Data {
        state.content
    }

    open spec fn with_content(state: NonReentrantState<Data>, content: Data) -> NonReentrantState<
        Data,
    > {
        state.with_content(content)
    }

    proof fn lemma_content_replaced(state: NonReentrantState<Data>, content: Data) {
    }

    fn get_content(&self) -> (content: &Data) {
        &self.content
    }

    fn get_content_mut(&mut self) -> (content: &mut Data) {
        &mut self.content
    }
}

impl<Data> NonReentrantMutex<Data> {
    /// An unlocked mutex around `data`.
    pub fn new(data: Data) -> (mutex: Self)
        ensures
            mutex@ == NonReentrantState::fresh(data),
    {
        NonReentrantMutex { content: data, locked: false }
    }

    /// Tries to lock the mutex: granted exactly when it is not locked. A failed
    /// attempt changes nothing.
    pub fn try_lock<'l>(&'l mut self) -> (guard: Option<Guard<'l, Self>>)
        ensures
            guard is Some <==> old(self)@.grants(),
            match guard {
                Some(g) => g.lock()@ == old(self)@.acquired() && *final(self) == *final(g.parent),
                None => *final(self) == *old(self),
            },
    {
        match self.locked {
            false => {
                self.locked = true;
                Some(Guard { parent: self })
            },
            true => None,
        }
    }
}

impl<Data> Unlockable for NonReentrantMutex<Data> {
    open spec fn releasable(state: NonReentrantState<Data>) -> bool {
        true
    }

    open spec fn released(state: NonReentrantState<Data>) -> NonReentrantState<Data> {
        state.released()
    }

    /// Lowers the flag, whatever it was.
    fn unlock(&mut self) {
        self.locked = false;
    }
}

impl<Data> Lockable<()> for NonReentrantMutex<Data> {
    open spec fn has_room(state: NonReentrantState<Data>) -> bool {
        true
    }

    open spec fn decides(state: NonReentrantState<Data>, params: ()) -> bool {
        true
    }

    open spec fn grants(state: NonReentrantState<Data>, params: ()) -> bool {
        state.grants()
    }

    open spec fn acquired(state: NonReentrantState<Data>, params: ()) -> NonReentrantState<Data> {
        state.acquired()
    }

    fn try_lock<'l>(&'l mut self, params: &()) -> (guard: Option<Guard<'l, Self>>) {
        NonReentrantMutex::try_lock(self)
    }
}

} // verus!
