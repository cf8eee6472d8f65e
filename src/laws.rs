use vstd::prelude::*;
use crate::cache::{get_step, run, commit_all};

verus! {

/// Calls with the slot already filled with `d`, none of them a bypass, all
/// return `d`, make no fetch, and leave the slot as it was.
proof fn lemma_hits_on_filled<D, E>(d: D, calls: Seq<(bool, Result<D, E>)>)
    requires
        forall|i: int| 0 <= i < calls.len() ==> !(#[trigger] calls[i]).0,
    ensures
        run(Some(d), calls) == (Some(d), Seq::new(calls.len(), |i: int| Ok::<D, E>(d)), 0nat),
    decreases calls.len(),
{
    if calls.len() > 0 {
        let rest = calls.drop_first();
        assert forall|i: int| 0 <= i < rest.len() implies !(#[trigger] rest[i]).0 by {
            assert(rest[i] == calls[i + 1]);
        }
        lemma_hits_on_filled::<D, E>(d, rest);
        assert(seq![Ok::<D, E>(d)] + Seq::new(rest.len(), |i: int| Ok::<D, E>(d)) =~= Seq::new(
            calls.len(),
            |i: int| Ok::<D, E>(d),
        ));
    }
}

/// After a first non-bypass `get` whose fetch returns `d` on an empty slot,
/// every later non-bypass `get` returns that same `d`, whatever its own fetch
/// would have returned, and no further fetch is made: one fetch in all.
pub proof fn idempotent_cache_hit<D, E>(d: D, later: Seq<(bool, Result<D, E>)>)
    requires
        forall|i: int| 0 <= i < later.len() ==> !(#[trigger] later[i]).0,
    ensures
        run(None, seq![(false, Ok::<D, E>(d))] + later) == (
            Some(d),
            Seq::new(later.len() + 1, |i: int| Ok::<D, E>(d)),
            1nat,
        ),
{
    let calls = seq![(false, Ok::<D, E>(d))] + later;
    assert(calls.drop_first() =~= later);
    lemma_hits_on_filled::<D, E>(d, later);
    assert(seq![Ok::<D, E>(d)] + Seq::new(later.len(), |i: int| Ok::<D, E>(d)) =~= Seq::new(
        later.len() + 1,
        |i: int| Ok::<D, E>(d),
    ));
}

/// Bypass calls, any number of them, neither read nor change the slot: each
/// makes one fetch and returns exactly what that fetch returned, and the slot
/// is left as it was, so the next non-bypass `get` fetches, fills and returns
/// exactly as it would have without them.
pub proof fn bypass_independence<D, E>(
    slot: Option<D>,
    bypasses: Seq<(bool, Result<D, E>)>,
    fetched: Result<D, E>,
)
    requires
        forall|i: int| 0 <= i < bypasses.len() ==> (#[trigger] bypasses[i]).0,
    ensures
        run(slot, bypasses).0 == slot,
        run(slot, bypasses).1 == bypasses.map_values(|c: (bool, Result<D, E>)| c.1),
        run(slot, bypasses).2 == bypasses.len(),
        get_step(run(slot, bypasses).0, false, fetched) == get_step(slot, false, fetched),
    decreases bypasses.len(),
{
    if bypasses.len() > 0 {
        let rest = bypasses.drop_first();
        assert forall|i: int| 0 <= i < rest.len() implies (#[trigger] rest[i]).0 by {
            assert(rest[i] == bypasses[i + 1]);
        }
        bypass_independence(slot, rest, fetched);
        assert(run(slot, bypasses).1 =~= bypasses.map_values(|c: (bool, Result<D, E>)| c.1));
    }
}

/// Callers that all found the slot empty and all fetched successfully commit
/// in some order: exactly the first commit fills the slot, and every caller,
/// winner and losers alike, gets that one document back.
pub proof fn exactly_once_fill<D, E>(docs: Seq<D>)
    requires
        docs.len() > 0,
    ensures
        commit_all::<D, E>(None, docs) == (
            Some(docs[0]),
            Seq::new(docs.len(), |i: int| Ok::<D, E>(docs[0])),
        ),
{
    lemma_losers_get_winner::<D, E>(docs[0], docs.drop_first());
    assert(seq![Ok::<D, E>(docs[0])] + Seq::new(docs.drop_first().len(), |i: int| Ok::<D, E>(docs[0]))
        =~= Seq::new(docs.len(), |i: int| Ok::<D, E>(docs[0])));
}

/// Commits onto a slot already filled with `w` leave it so and all return `w`.
proof fn lemma_losers_get_winner<D, E>(w: D, docs: Seq<D>)
    ensures
        commit_all::<D, E>(Some(w), docs) == (
            Some(w),
            Seq::new(docs.len(), |i: int| Ok::<D, E>(w)),
        ),
    decreases docs.len(),
{
    if docs.len() > 0 {
        lemma_losers_get_winner::<D, E>(w, docs.drop_first());
        assert(seq![Ok::<D, E>(w)] + Seq::new(docs.drop_first().len(), |i: int| Ok::<D, E>(w)) =~= Seq::new(
            docs.len(),
            |i: int| Ok::<D, E>(w),
        ));
    }
}

/// A failed first fetch reaches the caller unchanged and leaves the slot
/// empty; the next `get` fetches again and, on success, fills the slot.
pub proof fn failure_does_not_poison<D, E>(e: E, d: D)
    ensures
        get_step(None, false, Err::<D, E>(e)) == (None::<D>, Err::<D, E>(e), 1nat),
        get_step(get_step(None, false, Err::<D, E>(e)).0, false, Ok::<D, E>(d)) == (
            Some(d),
            Ok::<D, E>(d),
            1nat,
        ),
{
}

} // verus!
