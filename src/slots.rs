//! Memoization slots for metric handles, modelled as which slots hold a
//! handle, how many handles were ever created for each, and how many
//! observations went through each.

use vstd::prelude::*;

verus! {

/// Abstract state of a table of handle slots.
pub struct SlotsModel {
    /// Slot `k` holds a handle.
    pub filled: Seq<bool>,
    /// Handles created for slot `k` so far.
    pub created: Seq<nat>,
    /// Observations made through the handle of slot `k`.
    pub count: Seq<nat>,
    /// Requests made to the registry for a handle of slot `k`.
    pub asked: Seq<nat>,
}

/// A table of `n` slots of which none was used yet.
pub open spec fn empty_slots(n: nat) -> SlotsModel {
    SlotsModel {
        filled: Seq::new(n, |k: int| false),
        created: Seq::new(n, |k: int| 0nat),
        count: Seq::new(n, |k: int| 0nat),
        asked: Seq::new(n, |k: int| 0nat),
    }
}

/// Every slot holds at most the one handle created for it, and only a slot
/// that holds a handle has observations.
pub open spec fn slots_wf(m: SlotsModel) -> bool {
    &&& m.created.len() == m.filled.len()
    &&& m.count.len() == m.filled.len()
    &&& m.asked.len() == m.filled.len()
    &&& forall|k: int|
        0 <= k < m.filled.len() ==> #[trigger] m.created[k] == (if m.filled[k] {
            1nat
        } else {
            0nat
        }) && (m.count[k] > 0 ==> m.filled[k])
}

/// One use of slot `k`. A slot that holds a handle observes through it and
/// asks nothing of the registry. An empty slot asks the registry for a handle;
/// when `granted`, it keeps that handle and observes through it; otherwise the
/// observation is skipped.
pub open spec fn record(m: SlotsModel, k: int, granted: bool) -> SlotsModel {
    if m.filled[k] {
        SlotsModel { count: m.count.update(k, m.count[k] + 1), ..m }
    } else if granted {
        SlotsModel {
            filled: m.filled.update(k, true),
            created: m.created.update(k, m.created[k] + 1),
            count: m.count.update(k, m.count[k] + 1),
            asked: m.asked.update(k, m.asked[k] + 1),
        }
    } else {
        SlotsModel { asked: m.asked.update(k, m.asked[k] + 1), ..m }
    }
}

/// Uses of slot `k`, one per entry of `grants`, in order.
pub open spec fn record_all(m: SlotsModel, k: int, grants: Seq<bool>) -> SlotsModel
    decreases grants.len(),
{
    if grants.len() == 0 {
        m
    } else {
        record_all(record(m, k, grants[0]), k, grants.drop_first())
    }
}

/// A fresh table is well formed.
pub proof fn lemma_empty_slots_wf(n: nat)
    ensures
        slots_wf(empty_slots(n)),
{
}

/// Every use keeps the table well formed: no slot ever gets a second handle.
pub proof fn lemma_record_wf(m: SlotsModel, k: int, granted: bool)
    requires
        slots_wf(m),
        0 <= k < m.filled.len(),
    ensures
        slots_wf(record(m, k, granted)),
        record(m, k, granted).filled.len() == m.filled.len(),
{
    let r = record(m, k, granted);
    assert forall|j: int| 0 <= j < r.filled.len() implies #[trigger] r.created[j] == (if r.filled[j] {
        1nat
    } else {
        0nat
    }) && (r.count[j] > 0 ==> r.filled[j]) by {
        if j != k {
            assert(m.created[j] == (if m.filled[j] {
                1nat
            } else {
                0nat
            }));
        }
    }
}

/// Uses of a slot that holds a handle all observe through it and create none.
pub proof fn lemma_filled_slot_counts(m: SlotsModel, k: int, grants: Seq<bool>)
    requires
        slots_wf(m),
        0 <= k < m.filled.len(),
        m.filled[k],
    ensures
        slots_wf(record_all(m, k, grants)),
        record_all(m, k, grants).filled.len() == m.filled.len(),
        record_all(m, k, grants).filled[k],
        record_all(m, k, grants).created[k] == 1,
        record_all(m, k, grants).count[k] == m.count[k] + grants.len(),
        record_all(m, k, grants).asked[k] == m.asked[k],
    decreases grants.len(),
{
    if grants.len() > 0 {
        lemma_record_wf(m, k, grants[0]);
        lemma_filled_slot_counts(record(m, k, grants[0]), k, grants.drop_first());
    }
}

/// However many uses a slot sees, and however the registry answers, at most
/// one handle is ever created for it.
pub proof fn lemma_created_at_most_once(m: SlotsModel, k: int, grants: Seq<bool>)
    requires
        slots_wf(m),
        0 <= k < m.filled.len(),
    ensures
        slots_wf(record_all(m, k, grants)),
        record_all(m, k, grants).filled.len() == m.filled.len(),
        record_all(m, k, grants).created[k] <= 1,
    decreases grants.len(),
{
    if grants.len() > 0 {
        lemma_record_wf(m, k, grants[0]);
        lemma_created_at_most_once(record(m, k, grants[0]), k, grants.drop_first());
    }
}

/// `n` requests on a slot not used before, the first of which gets a handle
/// from the registry: the registry is asked once, exactly one handle is
/// created, and it counts all `n`.
pub proof fn lemma_first_use_counts_every_request(m: SlotsModel, k: int, grants: Seq<bool>)
    requires
        slots_wf(m),
        0 <= k < m.filled.len(),
        !m.filled[k],
        grants.len() >= 1,
        grants[0],
    ensures
        record_all(m, k, grants).created[k] == 1,
        record_all(m, k, grants).count[k] == grants.len(),
        record_all(m, k, grants).asked[k] == m.asked[k] + 1,
{
    let m1 = record(m, k, true);
    lemma_record_wf(m, k, true);
    assert(m.count[k] == 0);
    lemma_filled_slot_counts(m1, k, grants.drop_first());
}

} // verus!
