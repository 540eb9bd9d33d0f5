//! Properties that relate several operations on the correlation store.
use vstd::prelude::*;

use crate::store::{registered, CorrelationStore};

verus! {

/// Resolving (or expiring) request `a` never affects a different request `b`:
/// `b` stays pending exactly when it was, with the same response slot.
pub proof fn lemma_requests_independent<T>(
    before: CorrelationStore<T>,
    after: CorrelationStore<T>,
    a: u128,
    b: u128,
)
    requires
        after@ == before@.remove(a),
        a != b,
    ensures
        after.is_pending(b) == before.is_pending(b),
        before.is_pending(b) ==> after@[b] == before@[b],
{
}

/// Once a request has been settled (timed out, abandoned or answered), a
/// later `resolve` or `expire` with the same id finds nothing, reports
/// `false` and leaves the store unchanged: the entry is removed exactly once.
pub proof fn lemma_late_answer_is_ignored<T>(
    settled: CorrelationStore<T>,
    later: CorrelationStore<T>,
    id: u128,
    found: bool,
)
    requires
        !settled.is_pending(id),
        found == settled.is_pending(id),
        later@ == settled@.remove(id),
    ensures
        !found,
        later@ == settled@,
{
    assert(later@ =~= settled@);
}

/// `resolve` and `expire` racing on one id, in either order: the one that
/// runs first removes the entry and reports whether it was there; the one
/// that runs second always reports `false`. So when the id was pending,
/// exactly one of them succeeds, and both orders end in the same store.
pub proof fn lemma_resolve_expire_race<T>(
    before: CorrelationStore<T>,
    middle: CorrelationStore<T>,
    after: CorrelationStore<T>,
    id: u128,
    first_won: bool,
    second_won: bool,
)
    requires
        first_won == before.is_pending(id),
        middle@ == before@.remove(id),
        second_won == middle.is_pending(id),
        after@ == middle@.remove(id),
    ensures
        !second_won,
        before.is_pending(id) ==> first_won,
        after@ == before@.remove(id),
        !after.is_pending(id),
{
    assert(after@ =~= before@.remove(id));
}

/// A request registered with `begin` and then rolled back because the
/// dispatch failed leaves the store exactly as it was before the request.
pub proof fn lemma_failed_dispatch_leaves_no_entry<T>(
    before: CorrelationStore<T>,
    registered_store: CorrelationStore<T>,
    after: CorrelationStore<T>,
    id: u128,
)
    requires
        registered(before@, registered_store@, id),
        after@ == registered_store@.remove(id),
    ensures
        after@ == before@,
        !after.is_pending(id),
{
}

} // verus!
