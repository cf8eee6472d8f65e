use vstd::prelude::*;
use crate::model::{AiPricingJson, FetchError};

verus! {

/// What a `get` does first, decided from the slot alone.
#[derive(Debug, Clone, Copy, PartialEq)]
pub enum Action<D> {
    /// Hand this cached document back; no network call is made.
    Serve(D),
    /// Fetch the document; settle the outcome afterwards.
    Fetch,
}

/// The first decision of a `get`: a filled slot serves a non-bypass call,
/// every other call fetches.
pub open spec fn plan<D>(slot: Option<D>, bust_cache: bool) -> Action<D> {
    match slot {
        Some(d) if !bust_cache => Action::Serve(d),
        _ => Action::Fetch,
    }
}

/// The slot and the result after a fetch has returned `fetched`.
///
/// A bypass call hands the fetched outcome back and leaves the slot as it
/// was. A failed fetch leaves the slot as it was. A success fills an empty
/// slot; where another caller filled it first, the committed document wins.
pub open spec fn settle<D, E>(slot: Option<D>, bust_cache: bool, fetched: Result<D, E>) -> (
    Option<D>,
    Result<D, E>,
) {
    if bust_cache {
        (slot, fetched)
    } else {
        match fetched {
            Err(e) => (slot, Err(e)),
            Ok(d) => match slot {
                None => (Some(d), Ok(d)),
                Some(c) => (Some(c), Ok(c)),
            },
        }
    }
}

/// One whole `get`: the slot after it, its result, and the number of fetches
/// made (0 or 1). `fetched` is what the fetch would return; it is not looked at
/// when no fetch is made.
pub open spec fn get_step<D, E>(slot: Option<D>, bust_cache: bool, fetched: Result<D, E>) -> (
    Option<D>,
    Result<D, E>,
    nat,
) {
    match plan(slot, bust_cache) {
        Action::Serve(d) => (slot, Ok(d), 0),
        Action::Fetch => {
            let (s, r) = settle(slot, bust_cache, fetched);
            (s, r, 1)
        },
    }
}

/// A sequence of `get` calls, one after the other, each given by its bypass
/// flag and what its fetch would return: the final slot, the results in order,
/// and the number of fetches made.
pub open spec fn run<D, E>(slot: Option<D>, calls: Seq<(bool, Result<D, E>)>) -> (
    Option<D>,
    Seq<Result<D, E>>,
    nat,
)
    decreases calls.len(),
{
    if calls.len() == 0 {
        (slot, Seq::empty(), 0)
    } else {
        let (s1, r1, f1) = get_step(slot, calls[0].0, calls[0].1);
        let (s2, rs, f2) = run(s1, calls.drop_first());
        (s2, seq![r1] + rs, f1 + f2)
    }
}

/// Fetches that all found the slot empty, committed in the order given: the
/// final slot and what each caller gets back.
pub open spec fn commit_all<D, E>(slot: Option<D>, docs: Seq<D>) -> (Option<D>, Seq<Result<D, E>>)
    decreases docs.len(),
{
    if docs.len() == 0 {
        (slot, Seq::empty())
    } else {
        let (s1, r1) = settle::<D, E>(slot, false, Ok(docs[0]));
        let (s2, rs) = commit_all::<D, E>(s1, docs.drop_first());
        (s2, seq![r1] + rs)
    }
}

/// The single slot of cached pricing: empty until the first successful
/// non-bypass fetch, then holding that document for good.
pub struct PricingCache<'a> {
    slot: Option<&'a AiPricingJson>,
}

impl<'a> PricingCache<'a> {
    /// The document held, if any.
    pub closed spec fn slot(&self) -> Option<&'a AiPricingJson> {
        self.slot
    }

    /// An empty cache.
    pub fn new() -> (r: Self)
        ensures
            r.slot() == None::<&'a AiPricingJson>,
    {
        PricingCache { slot: None }
    }

    /// The cached document, if the slot is filled.
    pub fn cached(&self) -> (r: Option<&'a AiPricingJson>)
        ensures
            r == self.slot(),
    {
        self.slot
    }

    /// Whether the slot is filled.
    pub fn is_filled(&self) -> (r: bool)
        ensures
            r == self.slot().is_some(),
    {
        self.slot.is_some()
    }

    /// The first step of a `get`: serve the cached document, or fetch.
    pub fn begin(&self, bust_cache: bool) -> (r: Action<&'a AiPricingJson>)
        ensures
            r == plan(self.slot(), bust_cache),
    {
        match self.slot {
            Some(d) if !bust_cache => Action::Serve(d),
            _ => Action::Fetch,
        }
    }

    /// The last step of a `get` that fetched: commit the outcome and say what
    /// the caller receives.
    pub fn settle(
        &mut self,
        bust_cache: bool,
        fetched: Result<&'a AiPricingJson, FetchError>,
    ) -> (r: Result<&'a AiPricingJson, FetchError>)
        ensures
            (final(self).slot(), r) == settle(old(self).slot(), bust_cache, fetched),
    {
        if bust_cache {
            return fetched;
        }
        match fetched {
            Err(e) => Err(e),
            Ok(d) => match self.slot {
                None => {
                    self.slot = Some(d);
                    Ok(d)
                },
                Some(c) => Ok(c),
            },
        }
    }
}

} // verus!
