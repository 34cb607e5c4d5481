use vectorlink_task::key::{
    claim_key, claim_key_task_id, concat_bytes, get_increment_key, interrupt_key,
    interrupt_key_task_id, key_after_prefix, queue_key, queue_key_task_id, task_key,
    task_key_task_id, wait_key, wait_key_task_id,
};

#[test]
fn keys_are_prefix_then_id() {
    assert_eq!(task_key(b"svc/a"), b"tasks/svc/a".to_vec());
    assert_eq!(queue_key(b"svc/a"), b"queue/svc/a".to_vec());
    assert_eq!(claim_key(b"svc/a"), b"claims/svc/a".to_vec());
    assert_eq!(interrupt_key(b"svc/a"), b"interrupt/svc/a".to_vec());
    assert_eq!(wait_key(b"svc/a"), b"waits/svc/a".to_vec());
}

#[test]
fn task_id_is_read_back_from_each_key() {
    assert_eq!(task_key_task_id(b"tasks/svc/a"), b"svc/a");
    assert_eq!(queue_key_task_id(b"queue/svc/a"), b"svc/a");
    assert_eq!(claim_key_task_id(b"claims/svc/a"), b"svc/a");
    assert_eq!(interrupt_key_task_id(b"interrupt/svc/a"), b"svc/a");
    assert_eq!(wait_key_task_id(b"waits/svc/a"), b"svc/a");
    assert_eq!(task_key_task_id(b"tasks/"), b"");
}

#[test]
fn concat_bytes_joins_in_order() {
    assert_eq!(concat_bytes(b"ab", b"cd"), b"abcd".to_vec());
    assert_eq!(concat_bytes(b"", b"cd"), b"cd".to_vec());
    assert_eq!(concat_bytes(b"ab", b""), b"ab".to_vec());
}

#[test]
fn key_after_prefix_raises_the_last_byte() {
    assert_eq!(key_after_prefix(b"tasks/"), b"tasks0".to_vec());
    assert_eq!(key_after_prefix(&[1, 2, 3]), vec![1, 2, 4]);
}

#[test]
fn key_after_prefix_drops_trailing_255() {
    assert_eq!(key_after_prefix(&[1, 2, 255]), vec![1, 3]);
    assert_eq!(key_after_prefix(&[7, 255, 255]), vec![8]);
}

#[test]
fn key_after_prefix_without_a_bound_is_the_open_end() {
    assert_eq!(key_after_prefix(&[]), vec![0]);
    assert_eq!(key_after_prefix(&[255, 255]), vec![0]);
}

#[test]
fn get_increment_key_appends_zero() {
    assert_eq!(get_increment_key(b"tasks/svc/a"), b"tasks/svc/a\0".to_vec());
    assert_eq!(get_increment_key(b""), vec![0]);
}
