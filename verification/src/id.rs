use vstd::prelude::*;

verus! {

/// Source of record identifiers. Every identifier handed out is larger than
/// all those handed out before it, so none is ever handed out twice.
///
/// The generator is plain data: callers that share one between tasks keep it
/// behind a lock and call [`IdGen::generate`] while holding it.
pub struct IdGen {
    last: i64,
}

impl IdGen {
    /// The identifier handed out most recently, or the seed if none was yet.
    pub closed spec fn last(&self) -> i64 {
        self.last
    }

    /// Whether a call of `generate` on `self` returns `id` and leaves `after`.
    pub open spec fn hands_out(&self, id: int, after: IdGen) -> bool {
        &&& id == self.last() + 1
        &&& after.last() == id
    }

    /// A generator whose first identifier is 1.
    pub fn new() -> (r: Self)
        ensures
            r.last() == 0,
    {
        IdGen { last: 0 }
    }

    /// A generator that continues after `seed`, the largest identifier that
    /// is already in use.
    pub fn starting_after(seed: i64) -> (r: Self)
        ensures
            r.last() == seed,
    {
        IdGen { last: seed }
    }

    /// Whether every identifier has been handed out.
    pub fn exhausted(&self) -> (b: bool)
        ensures
            b == (self.last() == i64::MAX),
    {
        self.last == i64::MAX
    }

    /// Hands out the next identifier.
    pub fn generate(&mut self) -> (id: i64)
        requires
            old(self).last() < i64::MAX,
        ensures
            old(self).hands_out(id as int, *final(self)),
    {
        self.last = self.last + 1;
        self.last
    }
}

/// Whether `ids` are the identifiers of successive calls of `generate` that
/// take the generator through `states`, one state before each call and one
/// after the last.
pub open spec fn successive_calls(states: Seq<IdGen>, ids: Seq<int>) -> bool {
    &&& states.len() == ids.len() + 1
    &&& forall|k: int|
        0 <= k < ids.len() ==> (#[trigger] states[k]).hands_out(ids[k], states[k + 1])
}

/// Of any number of successive calls, a later one returns a larger
/// identifier than an earlier one: no two calls return the same.
pub proof fn lemma_successive_ids_increase(states: Seq<IdGen>, ids: Seq<int>, i: int, j: int)
    requires
        successive_calls(states, ids),
        0 <= i < j < ids.len(),
    ensures
        ids[i] < ids[j],
    decreases j - i,
{
    assert(states[j].hands_out(ids[j], states[j + 1]));
    assert(states[j - 1].hands_out(ids[j - 1], states[j]));
    if i < j - 1 {
        lemma_successive_ids_increase(states, ids, i, j - 1);
    }
}

} // verus!
