//! The key layout of the task system.
//!
//! Every piece of state lives in a flat, byte-ordered key space. A task is
//! named by an id of the form `<service>/<id>`, and each of the five kinds of
//! key is the kind's fixed prefix followed by that id.

use vstd::prelude::*;
use vstd::slice::slice_subrange;

verus! {

/// The bytes of `claims/`.
pub open spec fn claims_prefix_bytes() -> Seq<u8> {
    seq![99u8, 108u8, 97u8, 105u8, 109u8, 115u8, 47u8]
}

/// The bytes of `tasks/`.
pub open spec fn tasks_prefix_bytes() -> Seq<u8> {
    seq![116u8, 97u8, 115u8, 107u8, 115u8, 47u8]
}

/// The bytes of `queue/`.
pub open spec fn queue_prefix_bytes() -> Seq<u8> {
    seq![113u8, 117u8, 101u8, 117u8, 101u8, 47u8]
}

/// The bytes of `interrupt/`.
pub open spec fn interrupt_prefix_bytes() -> Seq<u8> {
    seq![105u8, 110u8, 116u8, 101u8, 114u8, 114u8, 117u8, 112u8, 116u8, 47u8]
}

/// The bytes of `waits/`.
pub open spec fn waits_prefix_bytes() -> Seq<u8> {
    seq![119u8, 97u8, 105u8, 116u8, 115u8, 47u8]
}

/// The claim key of the task `task_id`.
pub open spec fn spec_claim_key(task_id: Seq<u8>) -> Seq<u8> {
    claims_prefix_bytes() + task_id
}

/// The key of the record of the task `task_id`.
pub open spec fn spec_task_key(task_id: Seq<u8>) -> Seq<u8> {
    tasks_prefix_bytes() + task_id
}

/// The key of the queue entry of the task `task_id`.
pub open spec fn spec_queue_key(task_id: Seq<u8>) -> Seq<u8> {
    queue_prefix_bytes() + task_id
}

/// The interrupt key of the task `task_id`.
pub open spec fn spec_interrupt_key(task_id: Seq<u8>) -> Seq<u8> {
    interrupt_prefix_bytes() + task_id
}

/// The wait key of the task `task_id`.
pub open spec fn spec_wait_key(task_id: Seq<u8>) -> Seq<u8> {
    waits_prefix_bytes() + task_id
}

/// `p` is a prefix of `k`.
pub open spec fn is_prefix_of(p: Seq<u8>, k: Seq<u8>) -> bool {
    p.len() <= k.len() && k.subrange(0, p.len() as int) == p
}

/// `a` comes strictly before `b` in the byte order of the key space: at the
/// first index where they differ `a` holds the smaller byte, or `a` is a
/// proper prefix of `b`.
pub open spec fn key_lt(a: Seq<u8>, b: Seq<u8>) -> bool {
    exists|i: int|
        0 <= i <= a.len() && i <= b.len() && #[trigger] a.subrange(0, i) == b.subrange(0, i) && (if i
            == a.len() {
            i < b.len()
        } else {
            i < b.len() && a[i] < b[i]
        })
}

/// `a` comes before `b` in the byte order of the key space, or equals it.
pub open spec fn key_le(a: Seq<u8>, b: Seq<u8>) -> bool {
    a == b || key_lt(a, b)
}

/// `bound` is strictly greater than every key that has the prefix `p`.
pub open spec fn bounds_prefix(p: Seq<u8>, bound: Seq<u8>) -> bool {
    forall|k: Seq<u8>| #[trigger] is_prefix_of(p, k) ==> key_lt(k, bound)
}

/// Some byte of `key` is not 255, so that keys exist beyond those under it.
pub open spec fn has_successor(key: Seq<u8>) -> bool {
    exists|i: int| 0 <= i < key.len() && #[trigger] key[i] != 255u8
}

/// The index of the last byte of `key` that is not 255, or -1.
pub open spec fn last_incrementable(key: Seq<u8>) -> int
    decreases key.len(),
{
    if key.len() == 0 {
        -1
    } else if key.last() != 255u8 {
        key.len() - 1
    } else {
        last_incrementable(key.drop_last())
    }
}

/// The end of the half-open range that holds exactly the keys under `key`:
/// `key` without its trailing 255s and with its last byte raised by one.
/// Where every byte is 255 (or there is none) no key bounds the prefix from
/// above, and the range end is the single byte 0, by which the store means
/// "up to the end of the key space".
pub open spec fn prefix_range_end(key: Seq<u8>) -> Seq<u8> {
    let j = last_incrementable(key);
    if j < 0 {
        seq![0u8]
    } else {
        key.subrange(0, j).push((key[j] + 1) as u8)
    }
}

pub fn claims_prefix() -> (prefix: Vec<u8>)
    ensures
        prefix@ == claims_prefix_bytes(),
{
    vec![99u8, 108u8, 97u8, 105u8, 109u8, 115u8, 47u8]
}

pub fn tasks_prefix() -> (prefix: Vec<u8>)
    ensures
        prefix@ == tasks_prefix_bytes(),
{
    vec![116u8, 97u8, 115u8, 107u8, 115u8, 47u8]
}

pub fn queue_prefix() -> (prefix: Vec<u8>)
    ensures
        prefix@ == queue_prefix_bytes(),
{
    vec![113u8, 117u8, 101u8, 117u8, 101u8, 47u8]
}

pub fn interrupt_prefix() -> (prefix: Vec<u8>)
    ensures
        prefix@ == interrupt_prefix_bytes(),
{
    vec![105u8, 110u8, 116u8, 101u8, 114u8, 114u8, 117u8, 112u8, 116u8, 47u8]
}

pub fn waits_prefix() -> (prefix: Vec<u8>)
    ensures
        prefix@ == waits_prefix_bytes(),
{
    vec![119u8, 97u8, 105u8, 116u8, 115u8, 47u8]
}

/// The task id in a claim key: what follows the claims prefix.
pub fn claim_key_task_id(claim_key: &[u8]) -> (task_id: &[u8])
    requires
        claim_key@.len() >= claims_prefix_bytes().len(),
    ensures
        task_id@ == claim_key@.skip(claims_prefix_bytes().len() as int),
{
    slice_subrange(claim_key, 7, claim_key.len())
}

/// The task id in a task key: what follows the tasks prefix.
pub fn task_key_task_id(task_key: &[u8]) -> (task_id: &[u8])
    requires
        task_key@.len() >= tasks_prefix_bytes().len(),
    ensures
        task_id@ == task_key@.skip(tasks_prefix_bytes().len() as int),
{
    slice_subrange(task_key, 6, task_key.len())
}

/// The task id in a queue key: what follows the queue prefix.
pub fn queue_key_task_id(queue_key: &[u8]) -> (task_id: &[u8])
    requires
        queue_key@.len() >= queue_prefix_bytes().len(),
    ensures
        task_id@ == queue_key@.skip(queue_prefix_bytes().len() as int),
{
    slice_subrange(queue_key, 6, queue_key.len())
}

/// The task id in an interrupt key: what follows the interrupt prefix.
pub fn interrupt_key_task_id(interrupt_key: &[u8]) -> (task_id: &[u8])
    requires
        interrupt_key@.len() >= interrupt_prefix_bytes().len(),
    ensures
        task_id@ == interrupt_key@.skip(interrupt_prefix_bytes().len() as int),
{
    slice_subrange(interrupt_key, 10, interrupt_key.len())
}

/// The task id in a wait key: what follows the waits prefix.
pub fn wait_key_task_id(wait_key: &[u8]) -> (task_id: &[u8])
    requires
        wait_key@.len() >= waits_prefix_bytes().len(),
    ensures
        task_id@ == wait_key@.skip(waits_prefix_bytes().len() as int),
{
    slice_subrange(wait_key, 6, wait_key.len())
}

/// Joins two byte strings: the bytes of `b1` followed by the bytes of `b2`.
pub fn concat_bytes(b1: &[u8], b2: &[u8]) -> (result: Vec<u8>)
    ensures
        result@ == b1@ + b2@,
{
    let mut result: Vec<u8> = Vec::new();
    result.extend_from_slice(b1);
    result.extend_from_slice(b2);
    result
}

pub fn claim_key(task_id: &[u8]) -> (key: Vec<u8>)
    ensures
        key@ == claims_prefix_bytes() + task_id@,
{
    let prefix = claims_prefix();
    concat_bytes(prefix.as_slice(), task_id)
}

pub fn task_key(task_id: &[u8]) -> (key: Vec<u8>)
    ensures
        key@ == tasks_prefix_bytes() + task_id@,
{
    let prefix = tasks_prefix();
    concat_bytes(prefix.as_slice(), task_id)
}

pub fn queue_key(task_id: &[u8]) -> (key: Vec<u8>)
    ensures
        key@ == queue_prefix_bytes() + task_id@,
{
    let prefix = queue_prefix();
    concat_bytes(prefix.as_slice(), task_id)
}

pub fn interrupt_key(task_id: &[u8]) -> (key: Vec<u8>)
    ensures
        key@ == interrupt_prefix_bytes() + task_id@,
{
    let prefix = interrupt_prefix();
    concat_bytes(prefix.as_slice(), task_id)
}

pub fn wait_key(task_id: &[u8]) -> (key: Vec<u8>)
    ensures
        key@ == waits_prefix_bytes() + task_id@,
{
    let prefix = waits_prefix();
    concat_bytes(prefix.as_slice(), task_id)
}

/// The first key that is not under the prefix `key`: the end of the half-open
/// range that scans the prefix.
pub fn key_after_prefix(key: &[u8]) -> (end: Vec<u8>)
    ensures
        end@ == prefix_range_end(key@),
{
    let mut i: usize = key.len();
    assert(key@.subrange(0, i as int) == key@);
    while i > 0 && key[i - 1] == 255u8
        invariant
            i <= key.len(),
            last_incrementable(key@) == last_incrementable(key@.subrange(0, i as int)),
        decreases i,
    {
        assert(key@.subrange(0, i as int).drop_last() == key@.subrange(0, i - 1));
        i = i - 1;
    }
    if i == 0 {
        vec![0u8]
    } else {
        let last: u8 = key[i - 1];
        let mut end: Vec<u8> = Vec::new();
        end.extend_from_slice(slice_subrange(key, 0, i - 1));
        end.push(last + 1);
        end
    }
}

/// The smallest key that is strictly greater than `key`: `key` followed by a
/// zero byte.
pub fn get_increment_key(key: &[u8]) -> (next: Vec<u8>)
    ensures
        next@ == key@.push(0u8),
{
    let mut next: Vec<u8> = Vec::new();
    next.extend_from_slice(key);
    next.push(0u8);
    next
}

/// Where `key` has a byte that is not 255, `last_incrementable` is the index
/// of the last such byte.
proof fn lemma_last_incrementable(key: Seq<u8>)
    requires
        has_successor(key),
    ensures
        0 <= last_incrementable(key) < key.len(),
        key[last_incrementable(key)] != 255u8,
        forall|m: int| last_incrementable(key) < m < key.len() ==> key[m] == 255u8,
    decreases key.len(),
{
    let w = choose|i: int| 0 <= i < key.len() && #[trigger] key[i] != 255u8;
    if key.last() == 255u8 {
        let shorter = key.drop_last();
        assert(shorter[w] != 255u8);
        lemma_last_incrementable(shorter);
        assert forall|m: int| last_incrementable(key) < m < key.len() implies key[m] == 255u8 by {
            if m < shorter.len() {
                assert(shorter[m] == 255u8);
            }
        }
    }
}

/// The id that a key was built from is the id that is read back from it, for
/// each of the five kinds of key.
pub proof fn lemma_key_task_id_round_trip(task_id: Seq<u8>)
    ensures
        (claims_prefix_bytes() + task_id).skip(claims_prefix_bytes().len() as int) == task_id,
        (tasks_prefix_bytes() + task_id).skip(tasks_prefix_bytes().len() as int) == task_id,
        (queue_prefix_bytes() + task_id).skip(queue_prefix_bytes().len() as int) == task_id,
        (interrupt_prefix_bytes() + task_id).skip(interrupt_prefix_bytes().len() as int)
            == task_id,
        (waits_prefix_bytes() + task_id).skip(waits_prefix_bytes().len() as int) == task_id,
{
}

/// The five kinds of key are disjoint: whatever the ids, keys of two kinds
/// differ.
pub proof fn lemma_key_kinds_disjoint(a: Seq<u8>, b: Seq<u8>)
    ensures
        tasks_prefix_bytes() + a != queue_prefix_bytes() + b,
        tasks_prefix_bytes() + a != claims_prefix_bytes() + b,
        tasks_prefix_bytes() + a != interrupt_prefix_bytes() + b,
        tasks_prefix_bytes() + a != waits_prefix_bytes() + b,
        queue_prefix_bytes() + a != claims_prefix_bytes() + b,
        queue_prefix_bytes() + a != interrupt_prefix_bytes() + b,
        queue_prefix_bytes() + a != waits_prefix_bytes() + b,
        claims_prefix_bytes() + a != interrupt_prefix_bytes() + b,
        claims_prefix_bytes() + a != waits_prefix_bytes() + b,
        interrupt_prefix_bytes() + a != waits_prefix_bytes() + b,
{
    let t = tasks_prefix_bytes() + a;
    let q = queue_prefix_bytes() + a;
    let c = claims_prefix_bytes() + a;
    let i = interrupt_prefix_bytes() + a;
    assert(t[0] == 116u8 && q[0] == 113u8 && c[0] == 99u8 && i[0] == 105u8);
}

/// Keys built from two ids are equal only if the ids are: no two tasks share
/// a key.
pub proof fn lemma_key_injective(prefix: Seq<u8>, a: Seq<u8>, b: Seq<u8>)
    requires
        prefix + a == prefix + b,
    ensures
        a == b,
{
    assert((prefix + a).skip(prefix.len() as int) == a);
}

/// For a prefix with a byte that is not 255, `prefix_range_end` is the
/// smallest key that is strictly greater than every key under the prefix.
pub proof fn lemma_prefix_range_end_is_least_bound(key: Seq<u8>, other: Seq<u8>)
    requires
        has_successor(key),
    ensures
        bounds_prefix(key, prefix_range_end(key)),
        bounds_prefix(key, other) ==> key_le(prefix_range_end(key), other),
{
    lemma_last_incrementable(key);
    let j = last_incrementable(key);
    let end = prefix_range_end(key);
    assert forall|k: Seq<u8>| #[trigger] is_prefix_of(key, k) implies key_lt(k, end) by {
        assert(k.subrange(0, j) == end.subrange(0, j));
    }
    if bounds_prefix(key, other) {
        let beyond = key + Seq::new(other.len() + 1, |m: int| 255u8);
        assert(beyond.subrange(0, key.len() as int) == key);
        assert(is_prefix_of(key, beyond));
        let i = choose|i: int|
            0 <= i <= beyond.len() && i <= other.len() && #[trigger] beyond.subrange(0, i)
                == other.subrange(0, i) && (if i == beyond.len() {
                i < other.len()
            } else {
                i < other.len() && beyond[i] < other[i]
            });
        assert(end.subrange(0, i) == beyond.subrange(0, i));
        if i >= j && other[j] <= end[j] {
            assert(end.subrange(0, j + 1) == other.subrange(0, j + 1));
            if other.len() == j + 1 {
                assert(end == other);
            }
        }
    }
}

/// `key` followed by a zero byte is the smallest key strictly greater than
/// `key`.
pub proof fn lemma_increment_key_is_successor(key: Seq<u8>, other: Seq<u8>)
    ensures
        key_lt(key, key.push(0u8)),
        key_lt(key, other) ==> key_le(key.push(0u8), other),
{
    let next = key.push(0u8);
    let n = key.len() as int;
    assert(key.subrange(0, n) == next.subrange(0, n));
    if key_lt(key, other) {
        let i = choose|i: int|
            0 <= i <= key.len() && i <= other.len() && #[trigger] key.subrange(0, i)
                == other.subrange(0, i) && (if i == key.len() {
                i < other.len()
            } else {
                i < other.len() && key[i] < other[i]
            });
        if i < n {
            assert(next.subrange(0, i) == key.subrange(0, i));
        } else if other[n] > 0u8 {
        } else {
            assert forall|m: int| 0 <= m < n + 1 implies next[m] == other[m] by {
                if m < n {
                    assert(key.subrange(0, n)[m] == other.subrange(0, n)[m]);
                }
            }
            assert(next.subrange(0, n + 1) == other.subrange(0, n + 1));
            if other.len() == n + 1 {
                assert(next == other);
            }
        }
    }
}

} // verus!
