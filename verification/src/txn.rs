//! The transactions of the task system.
//!
//! Every compound change that a worker, the monitor or an operator makes to
//! the store is one transaction. This module states each of them and builds
//! it.

use crate::store::{Compare, CompareView, Txn, TxnOp, TxnOpView, TxnView};
use vstd::prelude::*;
use vstd::slice::slice_to_vec;

verus! {

/// The claim transaction: where nobody holds the claim, the queue entry goes
/// and the claim is written under the claimant's lease; where somebody does,
/// only the queue entry goes, which is redundant by then.
pub open spec fn spec_claim_txn(
    queue_key: Seq<u8>,
    claim_key: Seq<u8>,
    identity: Seq<u8>,
    lease: i64,
) -> TxnView {
    TxnView {
        when: seq![CompareView { key: claim_key, version: 0 }],
        and_then: seq![
            TxnOpView::Delete { key: queue_key },
            TxnOpView::Put { key: claim_key, value: identity, lease: Some(lease) },
        ],
        or_else: seq![TxnOpView::Delete { key: queue_key }],
    }
}

/// The enqueue transaction: where the task has neither a queue entry nor a
/// claim, an empty queue entry is written.
pub open spec fn spec_enqueue_txn(claim_key: Seq<u8>, queue_key: Seq<u8>) -> TxnView {
    TxnView {
        when: seq![
            CompareView { key: claim_key, version: 0 },
            CompareView { key: queue_key, version: 0 },
        ],
        and_then: seq![TxnOpView::Put { key: queue_key, value: Seq::empty(), lease: None }],
        or_else: Seq::empty(),
    }
}

/// The update transaction of the owner of a task: the claim is written again
/// under the owner's lease, and the task record with it.
pub open spec fn spec_update_txn(
    claim_key: Seq<u8>,
    identity: Seq<u8>,
    lease: i64,
    task_key: Seq<u8>,
    record: Seq<u8>,
) -> TxnView {
    TxnView {
        when: Seq::empty(),
        and_then: seq![
            TxnOpView::Put { key: claim_key, value: identity, lease: Some(lease) },
            TxnOpView::Put { key: task_key, value: record, lease: None },
        ],
        or_else: Seq::empty(),
    }
}

/// The transaction that consumes an interrupt: the update transaction, and
/// with it the interrupt key goes.
pub open spec fn spec_interrupt_txn(
    claim_key: Seq<u8>,
    identity: Seq<u8>,
    lease: i64,
    task_key: Seq<u8>,
    record: Seq<u8>,
    interrupt_key: Seq<u8>,
) -> TxnView {
    TxnView {
        when: Seq::empty(),
        and_then: seq![
            TxnOpView::Put { key: claim_key, value: identity, lease: Some(lease) },
            TxnOpView::Put { key: task_key, value: record, lease: None },
            TxnOpView::Delete { key: interrupt_key },
        ],
        or_else: Seq::empty(),
    }
}

/// A write that is guarded by the version of the key it writes: where `key`
/// still has the version `version`, it gets the value `value`.
pub open spec fn spec_guarded_put_txn(key: Seq<u8>, version: i64, value: Seq<u8>) -> TxnView {
    TxnView {
        when: seq![CompareView { key, version }],
        and_then: seq![TxnOpView::Put { key, value, lease: None }],
        or_else: Seq::empty(),
    }
}

/// The transaction that resumes an orphan: where the record still has the
/// version `version` and nobody holds the claim, the record is written and
/// the interrupt key goes.
pub open spec fn spec_resume_unclaimed_txn(
    task_key: Seq<u8>,
    version: i64,
    claim_key: Seq<u8>,
    record: Seq<u8>,
    interrupt_key: Seq<u8>,
) -> TxnView {
    TxnView {
        when: seq![
            CompareView { key: task_key, version },
            CompareView { key: claim_key, version: 0 },
        ],
        and_then: seq![
            TxnOpView::Put { key: task_key, value: record, lease: None },
            TxnOpView::Delete { key: interrupt_key },
        ],
        or_else: Seq::empty(),
    }
}

/// The transaction that reads the keys `keys`, each once, in their order.
pub open spec fn spec_get_all_txn(keys: Seq<Seq<u8>>) -> TxnView {
    TxnView {
        when: Seq::empty(),
        and_then: keys.map_values(|key: Seq<u8>| TxnOpView::Get { key }),
        or_else: Seq::empty(),
    }
}

pub fn claim_txn(queue_key: &[u8], claim_key: &[u8], identity: &[u8], lease: i64) -> (txn: Txn)
    ensures
        txn@ == spec_claim_txn(queue_key@, claim_key@, identity@, lease),
{
    let mut when: Vec<Compare> = Vec::new();
    when.push(Compare { key: slice_to_vec(claim_key), version: 0 });
    let mut and_then: Vec<TxnOp> = Vec::new();
    and_then.push(TxnOp::Delete { key: slice_to_vec(queue_key) });
    and_then.push(
        TxnOp::Put {
            key: slice_to_vec(claim_key),
            value: slice_to_vec(identity),
            lease: Some(lease),
        },
    );
    let mut or_else: Vec<TxnOp> = Vec::new();
    or_else.push(TxnOp::Delete { key: slice_to_vec(queue_key) });
    let txn = Txn { when, and_then, or_else };
    let ghost spec = spec_claim_txn(queue_key@, claim_key@, identity@, lease);
    assert(txn@.when =~= spec.when);
    assert(txn@.and_then =~= spec.and_then);
    assert(txn@.or_else =~= spec.or_else);
    txn
}

pub fn enqueue_txn(claim_key: &[u8], queue_key: &[u8]) -> (txn: Txn)
    ensures
        txn@ == spec_enqueue_txn(claim_key@, queue_key@),
{
    let mut when: Vec<Compare> = Vec::new();
    when.push(Compare { key: slice_to_vec(claim_key), version: 0 });
    when.push(Compare { key: slice_to_vec(queue_key), version: 0 });
    let mut and_then: Vec<TxnOp> = Vec::new();
    and_then.push(TxnOp::Put { key: slice_to_vec(queue_key), value: Vec::new(), lease: None });
    let txn = Txn { when, and_then, or_else: Vec::new() };
    let ghost spec = spec_enqueue_txn(claim_key@, queue_key@);
    assert(txn@.when =~= spec.when);
    assert(txn@.and_then =~= spec.and_then);
    assert(txn@.or_else =~= spec.or_else);
    txn
}

pub fn update_txn(
    claim_key: &[u8],
    identity: &[u8],
    lease: i64,
    task_key: &[u8],
    record: Vec<u8>,
) -> (txn: Txn)
    ensures
        txn@ == spec_update_txn(claim_key@, identity@, lease, task_key@, record@),
{
    let ghost spec = spec_update_txn(claim_key@, identity@, lease, task_key@, record@);
    let mut and_then: Vec<TxnOp> = Vec::new();
    and_then.push(
        TxnOp::Put {
            key: slice_to_vec(claim_key),
            value: slice_to_vec(identity),
            lease: Some(lease),
        },
    );
    and_then.push(TxnOp::Put { key: slice_to_vec(task_key), value: record, lease: None });
    let txn = Txn { when: Vec::new(), and_then, or_else: Vec::new() };
    assert(txn@.when =~= spec.when);
    assert(txn@.and_then =~= spec.and_then);
    assert(txn@.or_else =~= spec.or_else);
    txn
}

pub fn interrupt_txn(
    claim_key: &[u8],
    identity: &[u8],
    lease: i64,
    task_key: &[u8],
    record: Vec<u8>,
    interrupt_key: &[u8],
) -> (txn: Txn)
    ensures
        txn@ == spec_interrupt_txn(
            claim_key@,
            identity@,
            lease,
            task_key@,
            record@,
            interrupt_key@,
        ),
{
    let ghost spec = spec_interrupt_txn(
        claim_key@,
        identity@,
        lease,
        task_key@,
        record@,
        interrupt_key@,
    );
    let mut and_then: Vec<TxnOp> = Vec::new();
    and_then.push(
        TxnOp::Put {
            key: slice_to_vec(claim_key),
            value: slice_to_vec(identity),
            lease: Some(lease),
        },
    );
    and_then.push(TxnOp::Put { key: slice_to_vec(task_key), value: record, lease: None });
    and_then.push(TxnOp::Delete { key: slice_to_vec(interrupt_key) });
    let txn = Txn { when: Vec::new(), and_then, or_else: Vec::new() };
    assert(txn@.when =~= spec.when);
    assert(txn@.and_then =~= spec.and_then);
    assert(txn@.or_else =~= spec.or_else);
    txn
}

pub fn guarded_put_txn(key: &[u8], version: i64, value: Vec<u8>) -> (txn: Txn)
    ensures
        txn@ == spec_guarded_put_txn(key@, version, value@),
{
    let ghost spec = spec_guarded_put_txn(key@, version, value@);
    let mut when: Vec<Compare> = Vec::new();
    when.push(Compare { key: slice_to_vec(key), version });
    let mut and_then: Vec<TxnOp> = Vec::new();
    and_then.push(TxnOp::Put { key: slice_to_vec(key), value, lease: None });
    let txn = Txn { when, and_then, or_else: Vec::new() };
    assert(txn@.when =~= spec.when);
    assert(txn@.and_then =~= spec.and_then);
    assert(txn@.or_else =~= spec.or_else);
    txn
}

pub fn resume_unclaimed_txn(
    task_key: &[u8],
    version: i64,
    claim_key: &[u8],
    record: Vec<u8>,
    interrupt_key: &[u8],
) -> (txn: Txn)
    ensures
        txn@ == spec_resume_unclaimed_txn(
            task_key@,
            version,
            claim_key@,
            record@,
            interrupt_key@,
        ),
{
    let ghost spec = spec_resume_unclaimed_txn(
        task_key@,
        version,
        claim_key@,
        record@,
        interrupt_key@,
    );
    let mut when: Vec<Compare> = Vec::new();
    when.push(Compare { key: slice_to_vec(task_key), version });
    when.push(Compare { key: slice_to_vec(claim_key), version: 0 });
    let mut and_then: Vec<TxnOp> = Vec::new();
    and_then.push(TxnOp::Put { key: slice_to_vec(task_key), value: record, lease: None });
    and_then.push(TxnOp::Delete { key: slice_to_vec(interrupt_key) });
    let txn = Txn { when, and_then, or_else: Vec::new() };
    assert(txn@.when =~= spec.when);
    assert(txn@.and_then =~= spec.and_then);
    assert(txn@.or_else =~= spec.or_else);
    txn
}

pub fn get_all_txn(keys: &Vec<Vec<u8>>) -> (txn: Txn)
    ensures
        txn@ == spec_get_all_txn(keys@.map_values(|key: Vec<u8>| key@)),
{
    let ghost spec = spec_get_all_txn(keys@.map_values(|key: Vec<u8>| key@));
    let mut and_then: Vec<TxnOp> = Vec::new();
    let mut i: usize = 0;
    while i < keys.len()
        invariant
            i <= keys.len(),
            and_then.len() == i,
            forall|j: int| 0 <= j < i ==> and_then[j]@ == (TxnOpView::Get { key: keys[j]@ }),
        decreases keys.len() - i,
    {
        and_then.push(TxnOp::Get { key: keys[i].clone() });
        i = i + 1;
    }
    let txn = Txn { when: Vec::new(), and_then, or_else: Vec::new() };
    assert(txn@.when =~= spec.when);
    assert(txn@.and_then =~= spec.and_then);
    assert(txn@.or_else =~= spec.or_else);
    txn
}

} // verus!
