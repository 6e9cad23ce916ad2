//! What holds of runs of operations on the shared state, stated over the steps
//! that the operations of [`SetWakerInner`](crate::pending::SetWakerInner)
//! ensure.

use crate::pending::{drain_step, valid_key_type, wake_step};
use vstd::pervasive::cloned;
use vstd::prelude::*;

verus! {

/// After a run of wakes that starts right after a drain, the pending set holds
/// exactly the distinct keys of that run.
pub proof fn lemma_pending_after_wakes<K>(fired: Seq<K>, states: Seq<Set<K>>, n: int)
    requires
        states.len() == fired.len() + 1,
        states[0] == Set::<K>::empty(),
        forall|i: int| 0 <= i < fired.len() ==> wake_step(#[trigger] states[i], fired[i], states[i + 1]),
        0 <= n <= fired.len(),
    ensures
        states[n] == fired.take(n).to_set(),
    decreases n,
{
    if n == 0 {
        assert(fired.take(0) =~= Seq::<K>::empty());
        assert(fired.take(0).to_set() =~= Set::<K>::empty());
    } else {
        lemma_pending_after_wakes(fired, states, n - 1);
        assert(wake_step(states[n - 1], fired[n - 1], states[n]));
        assert(fired.take(n) =~= fired.take(n - 1).push(fired[n - 1]));
        fired.take(n - 1).lemma_push_to_set_commute(fired[n - 1]);
    }
}

/// A drain hands out exactly the distinct keys woken since the drain before
/// it: none missing, none twice, in no particular order.
pub proof fn lemma_drain_reports_fired<K>(
    before: Set<K>,
    earlier: Set<K>,
    fired: Seq<K>,
    states: Seq<Set<K>>,
    after: Set<K>,
    out: Set<K>,
)
    requires
        states.len() == fired.len() + 1,
        drain_step(before, states[0], earlier),
        forall|i: int| 0 <= i < fired.len() ==> wake_step(#[trigger] states[i], fired[i], states[i + 1]),
        drain_step(states.last(), after, out),
    ensures
        out == fired.to_set(),
        forall|k: K| out.contains(k) <==> fired.contains(k),
{
    lemma_pending_after_wakes(fired, states, fired.len() as int);
    assert(fired.take(fired.len() as int) =~= fired);
}

/// A second drain with no wake in between hands out nothing.
pub proof fn lemma_second_drain_empty<K>(
    s0: Set<K>,
    s1: Set<K>,
    s2: Set<K>,
    out1: Set<K>,
    out2: Set<K>,
)
    requires
        drain_step(s0, s1, out1),
        drain_step(s1, s2, out2),
    ensures
        out2 == Set::<K>::empty(),
{
}

/// Two wakers for one key, both woken, leave that key pending once: the
/// second wake leaves the pending set as it was, and right after a drain the
/// next drain hands out that one key alone.
pub proof fn lemma_same_key_coalesces<K: Clone>(
    s0: Set<K>,
    key: K,
    copy: K,
    s1: Set<K>,
    s2: Set<K>,
    s3: Set<K>,
    out: Set<K>,
)
    requires
        valid_key_type::<K>(),
        cloned(key, copy),
        wake_step(s0, key, s1),
        wake_step(s1, copy, s2),
        drain_step(s2, s3, out),
    ensures
        s2 == s1,
        out == s0.insert(key),
        s0 == Set::<K>::empty() ==> out == set![key] && out.len() == 1,
{
    assert(copy == key);
    assert(s1.insert(key) =~= s1);
    if s0 == Set::<K>::empty() {
        assert(out =~= set![key]);
        assert(set![key].len() == 1) by {
            assert(Set::<K>::empty().insert(key).len() == Set::<K>::empty().len() + 1);
        }
    }
}

} // verus!
