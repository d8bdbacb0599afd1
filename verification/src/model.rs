//! The two locks as plain values, and the steps that change them.
//!
//! Every contract of the executable locks is stated over these states: a lock's
//! view is one of them, and each operation is one of the steps below.

use vstd::prelude::*;
use vstd::std_specs::cmp::PartialEqSpec;

verus! {

/// A non-reentrant mutex as a value: the data it protects and its flag.
pub struct NonReentrantState<Data> {
    pub content: Data,
    pub locked: bool,
}

impl<Data> NonReentrantState<Data> {
    /// A newly built mutex around `data`: unlocked.
    pub open spec fn fresh(data: Data) -> Self {
        NonReentrantState { content: data, locked: false }
    }

    /// Whether an attempt to lock succeeds: exactly when the flag is down.
    pub open spec fn grants(self) -> bool {
        !self.locked
    }

    /// The mutex after a successful attempt.
    pub open spec fn acquired(self) -> Self {
        NonReentrantState { content: self.content, locked: true }
    }

    /// The mutex after a release, which lowers the flag whatever it was.
    pub open spec fn released(self) -> Self {
        NonReentrantState { content: self.content, locked: false }
    }

    /// The same mutex around other data.
    pub open spec fn with_content(self, content: Data) -> Self {
        NonReentrantState { content, locked: self.locked }
    }
}

/// A reentrant mutex as a value: the data it protects, the token of the owner
/// that holds it, and how many acquisitions of that owner are outstanding.
pub struct ReentrantState<Data, Token> {
    pub content: Data,
    pub holder: Option<Token>,
    pub depth: nat,
}

impl<Data, Token> ReentrantState<Data, Token> {
    /// A holder is recorded exactly while acquisitions are outstanding.
    pub open spec fn wf(self) -> bool {
        self.holder is None <==> self.depth == 0
    }

    /// A newly built mutex around `data`: no holder, depth zero.
    pub open spec fn fresh(data: Data) -> Self {
        ReentrantState { content: data, holder: None, depth: 0 }
    }

    /// The mutex after one release: one acquisition fewer, and no holder once
    /// none is left. Meant for `depth > 0`.
    pub open spec fn released(self) -> Self
        recommends
            self.depth > 0,
    {
        if self.depth <= 1 {
            ReentrantState { content: self.content, holder: None, depth: 0 }
        } else {
            ReentrantState {
                content: self.content,
                holder: self.holder,
                depth: (self.depth - 1) as nat,
            }
        }
    }

    /// The mutex after `n` releases.
    pub open spec fn released_times(self, n: nat) -> Self
        decreases n,
    {
        if n == 0 {
            self
        } else {
            self.released().released_times((n - 1) as nat)
        }
    }

    /// The same mutex around other data.
    pub open spec fn with_content(self, content: Data) -> Self {
        ReentrantState { content, holder: self.holder, depth: self.depth }
    }
}

impl<Data, Token: PartialEq> ReentrantState<Data, Token> {
    /// Whether an attempt under `token` succeeds: the mutex is free, or its
    /// holder equals `token` by the token type's own `==`.
    pub open spec fn grants(self, token: Token) -> bool {
        self.holder matches Some(holder) ==> holder.eq_spec(&token)
    }

    /// The mutex after a successful attempt under `token`: a free mutex records
    /// the token with depth one; a held one keeps its holder and goes one deeper.
    pub open spec fn acquired(self, token: Token) -> Self {
        if self.holder is None {
            ReentrantState { content: self.content, holder: Some(token), depth: 1 }
        } else {
            ReentrantState { content: self.content, holder: self.holder, depth: self.depth + 1 }
        }
    }

    /// The mutex after `n` successful attempts under `token`.
    pub open spec fn acquired_times(self, token: Token, n: nat) -> Self
        decreases n,
    {
        if n == 0 {
            self
        } else {
            self.acquired(token).acquired_times(token, (n - 1) as nat)
        }
    }
}

} // verus!
