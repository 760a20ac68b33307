use vstd::prelude::*;
use crate::device::claim_step;
use crate::store::{is_source, with_source};

verus! {

/// Two distinct sources injected into an empty pending set, in either order,
/// are handed out by the next two claims, each exactly once: the two claimed
/// ids are the two sources, nothing stays pending, and both are active.
pub proof fn lemma_two_injections_two_claims(
    a: usize,
    b: usize,
    active: Set<usize>,
    x: u32,
    pending1: Set<usize>,
    active1: Set<usize>,
    y: u32,
    pending2: Set<usize>,
    active2: Set<usize>,
)
    requires
        is_source(a),
        is_source(b),
        a != b,
        claim_step(
            with_source(with_source(Set::<usize>::empty(), a), b),
            active,
            x,
            pending1,
            active1,
        ),
        claim_step(pending1, active1, y, pending2, active2),
    ensures
        with_source(with_source(Set::<usize>::empty(), a), b) == with_source(
            with_source(Set::<usize>::empty(), b),
            a,
        ),
        x != y,
        set![x as usize, y as usize] == set![a, b],
        pending2 == Set::<usize>::empty(),
        active2 == active.insert(a).insert(b),
{
    let p0 = with_source(with_source(Set::<usize>::empty(), a), b);
    assert(p0 =~= set![a, b]);
    assert(with_source(with_source(Set::<usize>::empty(), b), a) =~= set![a, b]);
    assert(p0.contains(a));
    assert(p0 != Set::<usize>::empty());
    let lo = if a < b { a } else { b };
    let hi = if a < b { b } else { a };
    assert(p0.contains(lo) && p0.contains(hi));
    assert(x as usize == lo);
    assert(pending1 =~= set![hi]);
    assert(pending1.contains(hi));
    assert(pending1 != Set::<usize>::empty());
    assert(y as usize == hi);
    assert(pending2 =~= Set::<usize>::empty());
    assert(set![x as usize, y as usize] =~= set![a, b]);
    assert(active2 =~= active.insert(a).insert(b));
}

} // verus!

verus! {

/// A claim keeps the pending and active sets apart: the claimed id leaves the
/// one as it joins the other.
pub proof fn lemma_claim_keeps_sets_apart(
    pending: Set<usize>,
    active: Set<usize>,
    x: u32,
    pending2: Set<usize>,
    active2: Set<usize>,
)
    requires
        pending.disjoint(active),
        claim_step(pending, active, x, pending2, active2),
    ensures
        pending2.disjoint(active2),
{
}

/// Injecting an id, which takes it out of the active set, or completing any
/// id keeps the pending and active sets apart.
pub proof fn lemma_inject_complete_keep_sets_apart(
    pending: Set<usize>,
    active: Set<usize>,
    id: usize,
)
    requires
        pending.disjoint(active),
    ensures
        with_source(pending, id).disjoint(active.remove(id)),
        pending.disjoint(active.remove(id)),
{
}

} // verus!
