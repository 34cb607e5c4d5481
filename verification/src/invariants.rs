//! What the transactions of the task system keep true of the store.
//!
//! The store is shared by workers, the monitor and operators, and each of
//! them may act between any two steps of another. So each statement here is
//! about one step, taken from any store that the others may have left.

use crate::key::{
    claims_prefix_bytes, lemma_key_injective, lemma_key_kinds_disjoint, queue_prefix_bytes,
    spec_claim_key, spec_interrupt_key, spec_queue_key, spec_task_key,
};
use crate::store::{lemma_after_ops_frame, CompareView, Store, TxnOpView, TxnView};
use crate::txn::{
    spec_claim_txn, spec_enqueue_txn, spec_guarded_put_txn, spec_interrupt_txn,
    spec_resume_unclaimed_txn, spec_update_txn,
};
use vstd::prelude::*;

verus! {

/// No task has a queue entry and a claim at once.
pub open spec fn exclusive(store: Store) -> bool {
    forall|task_id: Seq<u8>|
        !(store.has(#[trigger] spec_queue_key(task_id)) && store.has(spec_claim_key(task_id)))
}

/// While the lease `lease` is alive, the claim of the task `task_id` stands
/// and is attached to it: the holder of the lease owns the task.
pub open spec fn owns(store: Store, task_id: Seq<u8>, lease: i64) -> bool {
    store.leases.contains(lease as int) ==> store.has(spec_claim_key(task_id))
        && store.kvs[spec_claim_key(task_id)].lease == lease
}

/// The key is neither a queue entry nor a claim.
pub open spec fn is_plain_key(key: Seq<u8>) -> bool {
    forall|task_id: Seq<u8>|
        key != #[trigger] spec_queue_key(task_id) && key != spec_claim_key(task_id)
}

/// None of the operations writes or removes a queue entry or a claim.
pub open spec fn writes_plain_keys(ops: Seq<TxnOpView>) -> bool {
    forall|i: int|
        0 <= i < ops.len() ==> ((#[trigger] ops[i]).written_key() matches Some(key)
            ==> is_plain_key(key))
}

proof fn lemma_ops_one(store: Store, a: TxnOpView)
    ensures
        store.after_ops(seq![a]) == store.after_op(a),
{
    assert(seq![a].drop_last() =~= Seq::<TxnOpView>::empty());
    assert(store.after_ops(Seq::<TxnOpView>::empty()) == store);
}

proof fn lemma_ops_two(store: Store, a: TxnOpView, b: TxnOpView)
    ensures
        store.after_ops(seq![a, b]) == store.after_op(a).after_op(b),
{
    assert(seq![a, b].drop_last() =~= seq![a]);
    lemma_ops_one(store, a);
}

proof fn lemma_ops_three(store: Store, a: TxnOpView, b: TxnOpView, c: TxnOpView)
    ensures
        store.after_ops(seq![a, b, c]) == store.after_op(a).after_op(b).after_op(c),
{
    assert(seq![a, b, c].drop_last() =~= seq![a, b]);
    lemma_ops_two(store, a, b);
}

/// Keys of the tasks and interrupts are neither queue entries nor claims.
pub proof fn lemma_task_keys_are_plain(task_id: Seq<u8>)
    ensures
        is_plain_key(spec_task_key(task_id)),
        is_plain_key(spec_interrupt_key(task_id)),
{
    let task = spec_task_key(task_id);
    let interrupt = spec_interrupt_key(task_id);
    assert forall|other: Seq<u8>|
        task != #[trigger] spec_queue_key(other) && task != spec_claim_key(other) by {
        lemma_key_kinds_disjoint(task_id, other);
    }
    assert forall|other: Seq<u8>|
        interrupt != #[trigger] spec_queue_key(other) && interrupt != spec_claim_key(other) by {
        lemma_key_kinds_disjoint(other, task_id);
    }
}

/// A transaction leaves the store well formed.
pub proof fn lemma_txn_keeps_wf(store: Store, txn: TxnView)
    requires
        store.wf(),
    ensures
        store.after_txn(txn).wf(),
{
    let ops = store.branch(txn);
    if store.admits_all(ops) {
        lemma_ops_keep_wf(store, ops);
    }
}

proof fn lemma_ops_keep_wf(store: Store, ops: Seq<TxnOpView>)
    requires
        store.wf(),
        store.admits_all(ops),
    ensures
        store.after_ops(ops).wf(),
        store.after_ops(ops).leases == store.leases,
    decreases ops.len(),
{
    if ops.len() > 0 {
        let rest = ops.drop_last();
        lemma_ops_keep_wf(store, rest);
    }
}

/// A transaction that writes and removes neither queue entries nor claims
/// leaves each of them as it was.
pub proof fn lemma_plain_txn_keeps_exclusion(store: Store, txn: TxnView)
    requires
        exclusive(store),
        writes_plain_keys(txn.and_then),
        writes_plain_keys(txn.or_else),
    ensures
        exclusive(store.after_txn(txn)),
        forall|task_id: Seq<u8>, lease: i64|
            owns(store, task_id, lease) ==> owns(store.after_txn(txn), task_id, lease),
{
    let ops = store.branch(txn);
    let after = store.after_txn(txn);
    assert forall|task_id: Seq<u8>|
        after.has(#[trigger] spec_queue_key(task_id)) == store.has(spec_queue_key(task_id))
            && after.has(spec_claim_key(task_id)) == store.has(spec_claim_key(task_id))
            && after.leases == store.leases && (store.has(spec_claim_key(task_id))
            ==> after.kvs[spec_claim_key(task_id)] == store.kvs[spec_claim_key(task_id)]) by {
        if store.admits_all(ops) {
            assert forall|i: int| 0 <= i < ops.len() implies (#[trigger] ops[i]).written_key()
                != Some(spec_queue_key(task_id)) && ops[i].written_key() != Some(
                spec_claim_key(task_id),
            ) by {
                if ops[i].written_key() is Some {
                }
            }
            lemma_after_ops_frame(store, ops, spec_queue_key(task_id));
            lemma_after_ops_frame(store, ops, spec_claim_key(task_id));
        }
    }
    assert forall|task_id: Seq<u8>, lease: i64| owns(store, task_id, lease) implies owns(
        after,
        task_id,
        lease,
    ) by {
        assert(after.has(spec_queue_key(task_id)) == store.has(spec_queue_key(task_id)));
    }
}

/// The claim transaction keeps queue entries and claims apart, of every
/// task. Where the store admits it, the queue entry of the task is gone
/// after it. Where nobody held the claim, the claimant holds it now under its
/// lease; where somebody did, that claim stands as it was.
pub proof fn lemma_claim_txn(store: Store, task_id: Seq<u8>, identity: Seq<u8>, lease: i64)
    requires
        store.wf(),
        exclusive(store),
    ensures
        ({
            let txn = spec_claim_txn(
                spec_queue_key(task_id),
                spec_claim_key(task_id),
                identity,
                lease,
            );
            let after = store.after_txn(txn);
            &&& exclusive(after)
            &&& after.leases == store.leases
            &&& store.admits_all(store.branch(txn)) ==> !after.has(spec_queue_key(task_id))
            &&& store.holds_all(txn.when) <==> !store.has(spec_claim_key(task_id))
            &&& store.holds_all(txn.when) && store.leases.contains(lease as int) && lease != 0
                ==> after.has(spec_claim_key(task_id)) && after.kvs[spec_claim_key(
                task_id,
            )].value == identity && owns(after, task_id, lease)
            &&& !store.holds_all(txn.when) ==> after.has(spec_claim_key(task_id))
                && after.kvs[spec_claim_key(task_id)] == store.kvs[spec_claim_key(task_id)]
        }),
{
    let queue = spec_queue_key(task_id);
    let claim = spec_claim_key(task_id);
    let txn = spec_claim_txn(queue, claim, identity, lease);
    let after = store.after_txn(txn);
    let delete = TxnOpView::Delete { key: queue };
    let put = TxnOpView::Put { key: claim, value: identity, lease: Some(lease) };
    assert(txn.when[0] == CompareView { key: claim, version: 0 });
    lemma_ops_two(store, delete, put);
    lemma_ops_one(store, delete);
    assert forall|other: Seq<u8>|
        !(after.has(#[trigger] spec_queue_key(other)) && after.has(spec_claim_key(other))) by {
        lemma_key_kinds_disjoint(other, task_id);
        if spec_claim_key(other) == claim {
            lemma_key_injective(claims_prefix_bytes(), other, task_id);
        }
    }
}

/// The enqueue transaction keeps queue entries and claims apart, of every
/// task, and leaves every claim and every lease as it was.
pub proof fn lemma_enqueue_keeps_exclusion(store: Store, task_id: Seq<u8>)
    requires
        store.wf(),
        exclusive(store),
    ensures
        ({
            let after = store.after_txn(
                spec_enqueue_txn(spec_claim_key(task_id), spec_queue_key(task_id)),
            );
            &&& exclusive(after)
            &&& forall|other: Seq<u8>, lease: i64|
                owns(store, other, lease) ==> owns(after, other, lease)
        }),
{
    let queue = spec_queue_key(task_id);
    let claim = spec_claim_key(task_id);
    let txn = spec_enqueue_txn(claim, queue);
    let after = store.after_txn(txn);
    let put = TxnOpView::Put { key: queue, value: Seq::empty(), lease: None };
    lemma_ops_one(store, put);
    assert forall|other: Seq<u8>|
        !(after.has(#[trigger] spec_queue_key(other)) && after.has(spec_claim_key(other))) && (
        after.has(spec_claim_key(other)) == store.has(spec_claim_key(other))) && (store.has(
            spec_claim_key(other),
        ) ==> after.kvs[spec_claim_key(other)] == store.kvs[spec_claim_key(other)]) by {
        lemma_key_kinds_disjoint(task_id, other);
        if spec_queue_key(other) == queue {
            lemma_key_injective(queue_prefix_bytes(), other, task_id);
        }
    }
}

/// Enqueueing is idempotent: the enqueue transaction done twice leaves the
/// store as the enqueue transaction done once leaves it.
pub proof fn lemma_enqueue_is_idempotent(store: Store, task_id: Seq<u8>)
    ensures
        ({
            let txn = spec_enqueue_txn(spec_claim_key(task_id), spec_queue_key(task_id));
            store.after_txn(txn).after_txn(txn) == store.after_txn(txn)
        }),
{
    let queue = spec_queue_key(task_id);
    let put = TxnOpView::Put { key: queue, value: Seq::empty(), lease: None };
    lemma_ops_one(store, put);
}

/// After the monitor has handled a task that is Pending or Resuming, which
/// it does by one enqueue transaction, the task has a queue entry or a claim.
pub proof fn lemma_enqueue_makes_claimable(store: Store, task_id: Seq<u8>)
    requires
        store.wf(),
    ensures
        ({
            let after = store.after_txn(
                spec_enqueue_txn(spec_claim_key(task_id), spec_queue_key(task_id)),
            );
            after.has(spec_queue_key(task_id)) || after.has(spec_claim_key(task_id))
        }),
{
}

/// A worker's update keeps queue entries and claims apart, and the worker
/// the owner of its task, provided it owned the task before.
pub proof fn lemma_update_keeps_exclusion(
    store: Store,
    task_id: Seq<u8>,
    identity: Seq<u8>,
    lease: i64,
    record: Seq<u8>,
)
    requires
        exclusive(store),
        owns(store, task_id, lease),
    ensures
        ({
            let after = store.after_txn(
                spec_update_txn(
                    spec_claim_key(task_id),
                    identity,
                    lease,
                    spec_task_key(task_id),
                    record,
                ),
            );
            &&& exclusive(after)
            &&& owns(after, task_id, lease)
        }),
{
    let claim = spec_claim_key(task_id);
    let task = spec_task_key(task_id);
    let txn = spec_update_txn(claim, identity, lease, task, record);
    let after = store.after_txn(txn);
    let put_claim = TxnOpView::Put { key: claim, value: identity, lease: Some(lease) };
    let put_task = TxnOpView::Put { key: task, value: record, lease: None };
    lemma_ops_two(store, put_claim, put_task);
    lemma_task_keys_are_plain(task_id);
    lemma_key_kinds_disjoint(task_id, task_id);
}

/// The transaction that consumes an interrupt keeps what an update keeps.
pub proof fn lemma_interrupt_txn_keeps_exclusion(
    store: Store,
    task_id: Seq<u8>,
    identity: Seq<u8>,
    lease: i64,
    record: Seq<u8>,
)
    requires
        exclusive(store),
        owns(store, task_id, lease),
    ensures
        ({
            let after = store.after_txn(
                spec_interrupt_txn(
                    spec_claim_key(task_id),
                    identity,
                    lease,
                    spec_task_key(task_id),
                    record,
                    spec_interrupt_key(task_id),
                ),
            );
            &&& exclusive(after)
            &&& owns(after, task_id, lease)
            &&& store.leases.contains(lease as int) && lease != 0 ==> !after.has(
                spec_interrupt_key(task_id),
            )
        }),
{
    let claim = spec_claim_key(task_id);
    let task = spec_task_key(task_id);
    let interrupt = spec_interrupt_key(task_id);
    let txn = spec_interrupt_txn(claim, identity, lease, task, record, interrupt);
    let after = store.after_txn(txn);
    let put_claim = TxnOpView::Put { key: claim, value: identity, lease: Some(lease) };
    let put_task = TxnOpView::Put { key: task, value: record, lease: None };
    let delete = TxnOpView::Delete { key: interrupt };
    lemma_ops_three(store, put_claim, put_task, delete);
    lemma_task_keys_are_plain(task_id);
    lemma_key_kinds_disjoint(task_id, task_id);
}

/// No write lands after the end of the lease under which it is made: once a
/// worker's lease has ended, its update and its consuming of an interrupt
/// change nothing in the store.
pub proof fn lemma_no_write_after_lease_end(
    store: Store,
    claim_key: Seq<u8>,
    identity: Seq<u8>,
    lease: i64,
    task_key: Seq<u8>,
    record: Seq<u8>,
    interrupt_key: Seq<u8>,
)
    requires
        !store.leases.contains(lease as int),
    ensures
        store.after_txn(spec_update_txn(claim_key, identity, lease, task_key, record)) == store,
        store.after_txn(
            spec_interrupt_txn(claim_key, identity, lease, task_key, record, interrupt_key),
        ) == store,
{
}

/// Guarded writes of task records, and the resuming of orphans, keep queue
/// entries and claims apart and every owner the owner of its task.
pub proof fn lemma_monitor_writes_keep_exclusion(
    store: Store,
    task_id: Seq<u8>,
    version: i64,
    record: Seq<u8>,
)
    requires
        exclusive(store),
    ensures
        exclusive(
            store.after_txn(spec_guarded_put_txn(spec_task_key(task_id), version, record)),
        ),
        exclusive(
            store.after_txn(
                spec_resume_unclaimed_txn(
                    spec_task_key(task_id),
                    version,
                    spec_claim_key(task_id),
                    record,
                    spec_interrupt_key(task_id),
                ),
            ),
        ),
        forall|other: Seq<u8>, lease: i64|
            owns(store, other, lease) ==> owns(
                store.after_txn(spec_guarded_put_txn(spec_task_key(task_id), version, record)),
                other,
                lease,
            ) && owns(
                store.after_txn(
                    spec_resume_unclaimed_txn(
                        spec_task_key(task_id),
                        version,
                        spec_claim_key(task_id),
                        record,
                        spec_interrupt_key(task_id),
                    ),
                ),
                other,
                lease,
            ),
{
    lemma_task_keys_are_plain(task_id);
    let put = spec_guarded_put_txn(spec_task_key(task_id), version, record);
    lemma_plain_txn_keeps_exclusion(store, put);
    let resume = spec_resume_unclaimed_txn(
        spec_task_key(task_id),
        version,
        spec_claim_key(task_id),
        record,
        spec_interrupt_key(task_id),
    );
    lemma_plain_txn_keeps_exclusion(store, resume);
}

/// The monitor writes no record of a task that somebody owns: the resuming
/// of an orphan changes nothing while the claim of the task stands.
pub proof fn lemma_resume_unclaimed_needs_no_claim(
    store: Store,
    task_id: Seq<u8>,
    version: i64,
    record: Seq<u8>,
)
    requires
        store.wf(),
        store.has(spec_claim_key(task_id)),
    ensures
        store.after_txn(
            spec_resume_unclaimed_txn(
                spec_task_key(task_id),
                version,
                spec_claim_key(task_id),
                record,
                spec_interrupt_key(task_id),
            ),
        ) == store,
{
    let txn = spec_resume_unclaimed_txn(
        spec_task_key(task_id),
        version,
        spec_claim_key(task_id),
        record,
        spec_interrupt_key(task_id),
    );
}

/// The end of a lease keeps queue entries and claims apart, and takes the
/// claim with it that was attached to it: with the lease the worker loses
/// the claim, at once.
pub proof fn lemma_lease_end(store: Store, task_id: Seq<u8>, lease: i64)
    requires
        exclusive(store),
    ensures
        exclusive(store.after_lease_end(lease as int)),
        store.has(spec_claim_key(task_id)) && store.kvs[spec_claim_key(task_id)].lease == lease
            ==> !store.after_lease_end(lease as int).has(spec_claim_key(task_id)),
        owns(store.after_lease_end(lease as int), task_id, lease),
{
}

/// Of two workers that try to claim one task, one after the other, only the
/// first gets the claim: the second one's transaction finds the claim, and
/// leaves it to the first.
pub proof fn lemma_claim_race(
    store: Store,
    task_id: Seq<u8>,
    first: Seq<u8>,
    first_lease: i64,
    second: Seq<u8>,
    second_lease: i64,
)
    requires
        !store.has(spec_claim_key(task_id)),
        store.leases.contains(first_lease as int),
        first_lease != 0,
    ensures
        ({
            let queue = spec_queue_key(task_id);
            let claim = spec_claim_key(task_id);
            let one = spec_claim_txn(queue, claim, first, first_lease);
            let two = spec_claim_txn(queue, claim, second, second_lease);
            let between = store.after_txn(one);
            let after = between.after_txn(two);
            &&& store.holds_all(one.when)
            &&& !between.holds_all(two.when)
            &&& after.has(claim)
            &&& after.kvs[claim].value == first
            &&& after.kvs[claim].lease == first_lease
            &&& !after.has(queue)
        }),
{
    let queue = spec_queue_key(task_id);
    let claim = spec_claim_key(task_id);
    let one = spec_claim_txn(queue, claim, first, first_lease);
    let between = store.after_txn(one);
    let delete = TxnOpView::Delete { key: queue };
    let put = TxnOpView::Put { key: claim, value: first, lease: Some(first_lease) };
    assert(one.when[0] == CompareView { key: claim, version: 0 });
    lemma_ops_two(store, delete, put);
    lemma_ops_one(between, delete);
    lemma_key_kinds_disjoint(task_id, task_id);
}

} // verus!
