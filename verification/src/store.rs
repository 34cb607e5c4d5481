//! The key-value store as the task system sees it.
//!
//! The store is an outside service. This module holds the vocabulary in which
//! the library asks for its operations and is told their outcome, and a model
//! of what the store does: keys with versions, leases whose end takes their
//! keys away, and transactions that compare versions and then write. The
//! transactions of the library are stated and proved against this model.

use vstd::prelude::*;

verus! {

/// A key of the store with its value and bookkeeping, as the store hands it
/// out.
#[derive(Debug)]
pub struct KeyValue {
    pub key: Vec<u8>,
    pub value: Vec<u8>,
    /// How often the key was written since it was created; at least 1.
    pub version: i64,
    pub create_revision: i64,
    pub mod_revision: i64,
    /// The lease that the key is attached to, or 0.
    pub lease: i64,
}

pub struct KeyValueView {
    pub key: Seq<u8>,
    pub value: Seq<u8>,
    pub version: i64,
    pub create_revision: i64,
    pub mod_revision: i64,
    pub lease: i64,
}

impl View for KeyValue {
    type V = KeyValueView;

    open spec fn view(&self) -> KeyValueView {
        KeyValueView {
            key: self.key@,
            value: self.value@,
            version: self.version,
            create_revision: self.create_revision,
            mod_revision: self.mod_revision,
            lease: self.lease,
        }
    }
}

/// A list of keys as the contracts speak of it.
pub open spec fn kvs_view(kvs: Seq<KeyValue>) -> Seq<KeyValueView> {
    kvs.map_values(|kv: KeyValue| kv@)
}

/// The condition of a transaction: the key `key` has the version `version`.
/// Version 0 says that the key does not exist.
#[derive(Debug)]
pub struct Compare {
    pub key: Vec<u8>,
    pub version: i64,
}

pub struct CompareView {
    pub key: Seq<u8>,
    pub version: i64,
}

impl View for Compare {
    type V = CompareView;

    open spec fn view(&self) -> CompareView {
        CompareView { key: self.key@, version: self.version }
    }
}

/// One operation of a transaction.
#[derive(Debug)]
pub enum TxnOp {
    /// Writes `value` at `key`, attached to `lease` where there is one.
    Put { key: Vec<u8>, value: Vec<u8>, lease: Option<i64> },
    /// Removes `key`.
    Delete { key: Vec<u8> },
    /// Reads `key`.
    Get { key: Vec<u8> },
}

pub enum TxnOpView {
    Put { key: Seq<u8>, value: Seq<u8>, lease: Option<i64> },
    Delete { key: Seq<u8> },
    Get { key: Seq<u8> },
}

impl View for TxnOp {
    type V = TxnOpView;

    open spec fn view(&self) -> TxnOpView {
        match self {
            TxnOp::Put { key, value, lease } => TxnOpView::Put {
                key: key@,
                value: value@,
                lease: *lease,
            },
            TxnOp::Delete { key } => TxnOpView::Delete { key: key@ },
            TxnOp::Get { key } => TxnOpView::Get { key: key@ },
        }
    }
}

/// A transaction: where every condition of `when` holds the operations of
/// `and_then` are done, else those of `or_else`, all at once.
#[derive(Debug)]
pub struct Txn {
    pub when: Vec<Compare>,
    pub and_then: Vec<TxnOp>,
    pub or_else: Vec<TxnOp>,
}

pub struct TxnView {
    pub when: Seq<CompareView>,
    pub and_then: Seq<TxnOpView>,
    pub or_else: Seq<TxnOpView>,
}

impl View for Txn {
    type V = TxnView;

    open spec fn view(&self) -> TxnView {
        TxnView {
            when: self.when@.map_values(|c: Compare| c@),
            and_then: self.and_then@.map_values(|op: TxnOp| op@),
            or_else: self.or_else@.map_values(|op: TxnOp| op@),
        }
    }
}

/// What a key holds in the model of the store.
pub struct Entry {
    pub value: Seq<u8>,
    pub version: int,
    /// The lease that the key is attached to, or 0.
    pub lease: int,
}

/// The model of the store: its keys, and the leases that are alive.
pub struct Store {
    pub kvs: Map<Seq<u8>, Entry>,
    pub leases: Set<int>,
}

impl TxnOpView {
    /// The key that the operation writes or removes, if it does either.
    pub open spec fn written_key(self) -> Option<Seq<u8>> {
        match self {
            TxnOpView::Put { key, .. } => Some(key),
            TxnOpView::Delete { key } => Some(key),
            TxnOpView::Get { .. } => None,
        }
    }
}

impl Store {
    pub open spec fn has(self, key: Seq<u8>) -> bool {
        self.kvs.contains_key(key)
    }

    /// The version of a key: 0 where the key does not exist.
    pub open spec fn version(self, key: Seq<u8>) -> int {
        if self.kvs.contains_key(key) {
            self.kvs[key].version
        } else {
            0
        }
    }

    /// Versions start at 1, and a key is attached to a lease that is alive or
    /// to none.
    pub open spec fn wf(self) -> bool {
        forall|key: Seq<u8>| #[trigger]
            self.kvs.contains_key(key) ==> self.kvs[key].version >= 1 && (self.kvs[key].lease
                != 0 ==> self.leases.contains(self.kvs[key].lease))
    }

    pub open spec fn holds(self, compare: CompareView) -> bool {
        self.version(compare.key) == compare.version
    }

    pub open spec fn holds_all(self, when: Seq<CompareView>) -> bool {
        forall|i: int| 0 <= i < when.len() ==> self.holds(#[trigger] when[i])
    }

    /// The store admits the operation: a write under a lease needs the lease
    /// to be alive.
    pub open spec fn admits(self, op: TxnOpView) -> bool {
        match op {
            TxnOpView::Put { lease: Some(lease), .. } => lease != 0 && self.leases.contains(
                lease as int,
            ),
            _ => true,
        }
    }

    pub open spec fn admits_all(self, ops: Seq<TxnOpView>) -> bool {
        forall|i: int| 0 <= i < ops.len() ==> self.admits(#[trigger] ops[i])
    }

    /// The store after one operation.
    pub open spec fn after_op(self, op: TxnOpView) -> Store {
        match op {
            TxnOpView::Put { key, value, lease } => Store {
                kvs: self.kvs.insert(
                    key,
                    Entry {
                        value,
                        version: self.version(key) + 1,
                        lease: match lease {
                            Some(lease) => lease as int,
                            None => 0,
                        },
                    },
                ),
                ..self
            },
            TxnOpView::Delete { key } => Store { kvs: self.kvs.remove(key), ..self },
            TxnOpView::Get { .. } => self,
        }
    }

    /// The store after the operations `ops`, done in their order.
    pub open spec fn after_ops(self, ops: Seq<TxnOpView>) -> Store
        decreases ops.len(),
    {
        if ops.len() == 0 {
            self
        } else {
            self.after_ops(ops.drop_last()).after_op(ops.last())
        }
    }

    /// The branch of a transaction that the store takes.
    pub open spec fn branch(self, txn: TxnView) -> Seq<TxnOpView> {
        if self.holds_all(txn.when) {
            txn.and_then
        } else {
            txn.or_else
        }
    }

    /// The store after a transaction. A transaction with a write that the
    /// store does not admit fails as a whole and changes nothing.
    pub open spec fn after_txn(self, txn: TxnView) -> Store {
        if self.admits_all(self.branch(txn)) {
            self.after_ops(self.branch(txn))
        } else {
            self
        }
    }

    /// The store after the lease `lease` ended, by expiry or by revocation:
    /// the lease is gone, and with it every key that was attached to it.
    pub open spec fn after_lease_end(self, lease: int) -> Store {
        Store {
            kvs: Map::new(
                |key: Seq<u8>| self.kvs.contains_key(key) && self.kvs[key].lease != lease,
                |key: Seq<u8>| self.kvs[key],
            ),
            leases: self.leases.remove(lease),
        }
    }

    /// The store after a lease was granted.
    pub open spec fn after_lease_grant(self, lease: int) -> Store {
        Store { leases: self.leases.insert(lease), ..self }
    }
}

/// Operations leave every key alone that none of them writes or removes.
pub proof fn lemma_after_ops_frame(store: Store, ops: Seq<TxnOpView>, key: Seq<u8>)
    requires
        forall|i: int| 0 <= i < ops.len() ==> (#[trigger] ops[i]).written_key() != Some(key),
    ensures
        store.after_ops(ops).has(key) == store.has(key),
        store.has(key) ==> store.after_ops(ops).kvs[key] == store.kvs[key],
        store.after_ops(ops).leases == store.leases,
    decreases ops.len(),
{
    if ops.len() > 0 {
        let rest = ops.drop_last();
        lemma_after_ops_frame(store, rest, key);
    }
}

/// Operations neither grant nor end a lease.
pub proof fn lemma_after_ops_leases(store: Store, ops: Seq<TxnOpView>)
    ensures
        store.after_ops(ops).leases == store.leases,
    decreases ops.len(),
{
    if ops.len() > 0 {
        lemma_after_ops_leases(store, ops.drop_last());
    }
}

} // verus!
