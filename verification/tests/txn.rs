use vectorlink_task::store::TxnOp;
use vectorlink_task::txn::{
    claim_txn, enqueue_txn, get_all_txn, guarded_put_txn, interrupt_txn, resume_unclaimed_txn,
    update_txn,
};

#[test]
fn claim_txn_takes_the_claim_where_nobody_has_it() {
    let txn = claim_txn(b"queue/svc/a", b"claims/svc/a", b"w1", 77);
    assert_eq!(txn.when.len(), 1);
    assert_eq!(txn.when[0].key, b"claims/svc/a".to_vec());
    assert_eq!(txn.when[0].version, 0);
    assert_eq!(txn.and_then.len(), 2);
    assert!(matches!(&txn.and_then[0], TxnOp::Delete { key } if key == b"queue/svc/a"));
    assert!(matches!(&txn.and_then[1], TxnOp::Put { key, value, lease: Some(77) }
        if key == b"claims/svc/a" && value == b"w1"));
    assert_eq!(txn.or_else.len(), 1);
    assert!(matches!(&txn.or_else[0], TxnOp::Delete { key } if key == b"queue/svc/a"));
}

#[test]
fn enqueue_txn_writes_an_empty_entry_where_neither_key_exists() {
    let txn = enqueue_txn(b"claims/svc/a", b"queue/svc/a");
    assert_eq!(txn.when.len(), 2);
    assert_eq!((txn.when[0].key.clone(), txn.when[0].version), (b"claims/svc/a".to_vec(), 0));
    assert_eq!((txn.when[1].key.clone(), txn.when[1].version), (b"queue/svc/a".to_vec(), 0));
    assert_eq!(txn.and_then.len(), 1);
    assert!(matches!(&txn.and_then[0], TxnOp::Put { key, value, lease: None }
        if key == b"queue/svc/a" && value.is_empty()));
    assert!(txn.or_else.is_empty());
}

#[test]
fn update_txn_writes_claim_and_record_together() {
    let txn = update_txn(b"claims/svc/a", b"w1", 5, b"tasks/svc/a", b"{}".to_vec());
    assert!(txn.when.is_empty());
    assert!(txn.or_else.is_empty());
    assert_eq!(txn.and_then.len(), 2);
    assert!(matches!(&txn.and_then[0], TxnOp::Put { key, value, lease: Some(5) }
        if key == b"claims/svc/a" && value == b"w1"));
    assert!(matches!(&txn.and_then[1], TxnOp::Put { key, value, lease: None }
        if key == b"tasks/svc/a" && value == b"{}"));
}

#[test]
fn interrupt_txn_removes_the_interrupt_with_the_update() {
    let txn = interrupt_txn(b"claims/svc/a", b"w1", 5, b"tasks/svc/a", b"{}".to_vec(), b"interrupt/svc/a");
    assert!(txn.when.is_empty());
    assert_eq!(txn.and_then.len(), 3);
    assert!(matches!(&txn.and_then[0], TxnOp::Put { key, lease: Some(5), .. } if key == b"claims/svc/a"));
    assert!(matches!(&txn.and_then[1], TxnOp::Put { key, lease: None, .. } if key == b"tasks/svc/a"));
    assert!(matches!(&txn.and_then[2], TxnOp::Delete { key } if key == b"interrupt/svc/a"));
}

#[test]
fn guarded_put_txn_compares_the_version_of_the_key_it_writes() {
    let txn = guarded_put_txn(b"tasks/svc/a", 4, b"doc".to_vec());
    assert_eq!(txn.when.len(), 1);
    assert_eq!((txn.when[0].key.clone(), txn.when[0].version), (b"tasks/svc/a".to_vec(), 4));
    assert_eq!(txn.and_then.len(), 1);
    assert!(matches!(&txn.and_then[0], TxnOp::Put { key, value, lease: None }
        if key == b"tasks/svc/a" && value == b"doc"));
    assert!(txn.or_else.is_empty());
}

#[test]
fn resume_unclaimed_txn_needs_the_claim_to_be_gone() {
    let txn = resume_unclaimed_txn(b"tasks/svc/a", 4, b"claims/svc/a", b"doc".to_vec(), b"interrupt/svc/a");
    assert_eq!(txn.when.len(), 2);
    assert_eq!((txn.when[0].key.clone(), txn.when[0].version), (b"tasks/svc/a".to_vec(), 4));
    assert_eq!((txn.when[1].key.clone(), txn.when[1].version), (b"claims/svc/a".to_vec(), 0));
    assert_eq!(txn.and_then.len(), 2);
    assert!(matches!(&txn.and_then[0], TxnOp::Put { key, value, lease: None }
        if key == b"tasks/svc/a" && value == b"doc"));
    assert!(matches!(&txn.and_then[1], TxnOp::Delete { key } if key == b"interrupt/svc/a"));
}

#[test]
fn get_all_txn_reads_each_key_once() {
    let txn = get_all_txn(&vec![b"tasks/svc/x".to_vec(), b"tasks/svc/y".to_vec()]);
    assert!(txn.when.is_empty());
    assert_eq!(txn.and_then.len(), 2);
    assert!(matches!(&txn.and_then[0], TxnOp::Get { key } if key == b"tasks/svc/x"));
    assert!(matches!(&txn.and_then[1], TxnOp::Get { key } if key == b"tasks/svc/y"));
    assert!(get_all_txn(&Vec::new()).and_then.is_empty());
}
