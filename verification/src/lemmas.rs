//! What the lock protocol guarantees over whole runs of attempts and releases.

use crate::model::{NonReentrantState, ReentrantState};
use vstd::prelude::*;
use vstd::std_specs::cmp::PartialEqSpec;

verus! {

/// A newly built non-reentrant mutex grants the first attempt. A mutex that has
/// been acquired, from whatever state, turns every attempt away until it is
/// released, and a released one grants again.
pub proof fn lemma_non_reentrant_grants_once<Data>(data: Data, state: NonReentrantState<Data>)
    ensures
        NonReentrantState::fresh(data).grants(),
        !state.acquired().grants(),
        state.released().grants(),
        state.acquired().released().grants(),
{
}

/// Acquiring an unlocked non-reentrant mutex and releasing it gives back the
/// mutex as it was: same data, flag down.
pub proof fn lemma_non_reentrant_round_trip<Data>(state: NonReentrantState<Data>)
    requires
        state.grants(),
    ensures
        state.acquired().released() == state,
{
}

/// A holder is recorded exactly while acquisitions are outstanding: this holds
/// of a new reentrant mutex, and every step keeps it.
pub proof fn lemma_reentrant_wf_kept<Data, Token: PartialEq>(
    data: Data,
    state: ReentrantState<Data, Token>,
    token: Token,
    content: Data,
)
    requires
        state.wf(),
    ensures
        ReentrantState::<Data, Token>::fresh(data).wf(),
        state.acquired(token).wf(),
        state.released().wf(),
        state.with_content(content).wf(),
{
}

/// A free reentrant mutex grants any owner. While owner `a` holds it, `a` is
/// granted again and each grant counts one deeper, and an owner `b` that does
/// not compare equal to the holder is turned away.
pub proof fn lemma_reentrant_owner_nests<Data, Token: PartialEq>(
    state: ReentrantState<Data, Token>,
    a: Token,
    b: Token,
)
    requires
        state.wf(),
        state.holder is None,
        a.eq_spec(&a),
        !a.eq_spec(&b),
    ensures
        state.grants(a),
        state.grants(b),
        state.acquired(a).grants(a),
        state.acquired(a).acquired(a).depth == state.acquired(a).depth + 1,
        state.acquired(a).acquired(a).holder == Some(a),
        !state.acquired(a).grants(b),
        !state.acquired(a).acquired(a).grants(b),
{
}

/// While acquisitions are outstanding the holder stays who it is, so an owner
/// that the holder does not compare equal to is turned away after every
/// release but the last; the last release frees the mutex for it.
pub proof fn lemma_reentrant_other_owner_waits<Data, Token: PartialEq>(
    state: ReentrantState<Data, Token>,
    b: Token,
    releases: nat,
)
    requires
        state.wf(),
        state.holder matches Some(a) && !a.eq_spec(&b),
        releases <= state.depth,
    ensures
        state.released_times(releases).wf(),
        state.released_times(releases).depth == state.depth - releases,
        releases < state.depth ==> state.released_times(releases).holder == state.holder
            && !state.released_times(releases).grants(b),
        releases == state.depth ==> state.released_times(releases).holder is None
            && state.released_times(releases).grants(b),
    decreases releases,
{
    if releases > 0 {
        let next = state.released();
        if state.depth > 1 {
            lemma_reentrant_other_owner_waits(next, b, (releases - 1) as nat);
        } else {
            assert(next.released_times(0) == next);
        }
    }
}

/// One acquisition and one release cancel: they leave the reentrant mutex
/// exactly as it was, whether it was free or held.
pub proof fn lemma_reentrant_round_trip<Data, Token: PartialEq>(
    state: ReentrantState<Data, Token>,
    token: Token,
)
    requires
        state.wf(),
    ensures
        state.acquired(token).released() == state,
{
}

/// After `n` nested acquisitions by one owner the depth is `n` more than it was.
pub proof fn lemma_reentrant_nested_depth<Data, Token: PartialEq>(
    state: ReentrantState<Data, Token>,
    token: Token,
    n: nat,
)
    requires
        state.wf(),
    ensures
        state.acquired_times(token, n).wf(),
        state.acquired_times(token, n).depth == state.depth + n,
        state.acquired_times(token, n).content == state.content,
        n > 0 ==> state.acquired_times(token, n).holder == state.acquired(token).holder,
    decreases n,
{
    if n > 0 {
        let next = state.acquired(token);
        lemma_reentrant_nested_depth(next, token, (n - 1) as nat);
        if n > 1 {
            assert(next.acquired(token).holder == next.holder);
        }
    }
}

/// An owner whose token compares equal to itself is granted every one of `n`
/// nested attempts on a free mutex, and as many releases bring the mutex back
/// to exactly what it was: no holder, depth zero, the same data.
pub proof fn lemma_reentrant_nested_round_trip<Data, Token: PartialEq>(
    state: ReentrantState<Data, Token>,
    token: Token,
    n: nat,
)
    requires
        state.wf(),
        state.holder is None,
        token.eq_spec(&token),
    ensures
        forall|i: nat| i < n ==> #[trigger] state.acquired_times(token, i).grants(token),
        state.acquired_times(token, n).released_times(n) == state,
{
    assert forall|i: nat| i < n implies #[trigger] state.acquired_times(token, i).grants(
        token,
    ) by {
        lemma_reentrant_nested_depth(state, token, i);
    }
    lemma_acquired_then_released(state, token, n);
}

/// `n` acquisitions followed by `n` releases leave any well-formed reentrant
/// mutex as it was.
pub proof fn lemma_acquired_then_released<Data, Token: PartialEq>(
    state: ReentrantState<Data, Token>,
    token: Token,
    n: nat,
)
    requires
        state.wf(),
    ensures
        state.acquired_times(token, n).released_times(n) == state,
    decreases n,
{
    if n > 0 {
        let m = (n - 1) as nat;
        let inner = state.acquired(token);
        lemma_released_times_split(inner.acquired_times(token, m), m, 1);
        lemma_acquired_then_released(inner, token, m);
        assert(inner.released_times(1) == inner.released().released_times(0));
    }
}

/// Releasing `m + n` times is releasing `m` times and then `n` times.
pub proof fn lemma_released_times_split<Data, Token>(
    state: ReentrantState<Data, Token>,
    m: nat,
    n: nat,
)
    ensures
        state.released_times(m + n) == state.released_times(m).released_times(n),
    decreases m,
{
    if m > 0 {
        lemma_released_times_split(state.released(), (m - 1) as nat, n);
        assert(state.released_times(m + n) == state.released().released_times(
            (m + n - 1) as nat,
        ));
    }
}

/// No step of either protocol touches the protected data: it is what the mutex
/// was built around until something else is written in its place.
pub proof fn lemma_steps_keep_content<Data, Token: PartialEq>(
    data: Data,
    flag: NonReentrantState<Data>,
    owned: ReentrantState<Data, Token>,
    token: Token,
)
    ensures
        NonReentrantState::fresh(data).content == data,
        flag.acquired().content == flag.content,
        flag.released().content == flag.content,
        flag.with_content(data).content == data,
        flag.with_content(data).locked == flag.locked,
        ReentrantState::<Data, Token>::fresh(data).content == data,
        owned.acquired(token).content == owned.content,
        owned.released().content == owned.content,
        owned.with_content(data).content == data,
        owned.with_content(data).holder == owned.holder,
        owned.with_content(data).depth == owned.depth,
{
}

} // verus!
