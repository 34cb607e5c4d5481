//! What the library asks of the store, and what it is told.
//!
//! The library never talks to the store. Each of its machines hands out a
//! `Request`, the caller performs it against the store, and hands the
//! `Response` back in. So every decision lies in the library, and every call
//! outside of it.

use crate::record::{RecordError, RecordErrorView};
use crate::store::{kvs_view, KeyValue, KeyValueView, Txn, TxnView};
use vstd::prelude::*;

verus! {

/// Which changes a watch reports.
#[derive(Clone, Copy, Debug, PartialEq, Eq, Structural)]
pub enum WatchKind {
    /// Keys that were written.
    Puts,
    /// Keys that were removed.
    Deletes,
}

/// An operation of the store.
#[derive(Debug)]
pub enum Request {
    /// The key `key`, as of `revision`, or as of now where that is 0.
    Get { key: Vec<u8>, revision: i64 },
    /// The keys from `start` up to `end`, the end not included, at most
    /// `limit` of them, as of `revision`, or as of now where that is 0; in
    /// the order of their creation where `by_creation` says so.
    Range { start: Vec<u8>, end: Vec<u8>, limit: i64, revision: i64, by_creation: bool },
    Txn { txn: Txn },
    /// A new lease that lives for `ttl` seconds.
    LeaseGrant { ttl: i64 },
    /// One renewal of the lease.
    LeaseKeepAlive { lease: i64 },
    LeaseRevoke { lease: i64 },
    /// A watch on the keys under `prefix`, from `start_revision` on, and its
    /// first batch of events.
    Watch { prefix: Vec<u8>, start_revision: i64, kind: WatchKind },
    /// The next batch of events of the watch.
    NextEvents,
    /// The end of the watch.
    CancelWatch,
}

pub enum RequestView {
    Get { key: Seq<u8>, revision: i64 },
    Range { start: Seq<u8>, end: Seq<u8>, limit: i64, revision: i64, by_creation: bool },
    Txn { txn: TxnView },
    LeaseGrant { ttl: i64 },
    LeaseKeepAlive { lease: i64 },
    LeaseRevoke { lease: i64 },
    Watch { prefix: Seq<u8>, start_revision: i64, kind: WatchKind },
    NextEvents,
    CancelWatch,
}

impl View for Request {
    type V = RequestView;

    open spec fn view(&self) -> RequestView {
        match self {
            Request::Get { key, revision } => RequestView::Get { key: key@, revision: *revision },
            Request::Range { start, end, limit, revision, by_creation } => RequestView::Range {
                start: start@,
                end: end@,
                limit: *limit,
                revision: *revision,
                by_creation: *by_creation,
            },
            Request::Txn { txn } => RequestView::Txn { txn: txn@ },
            Request::LeaseGrant { ttl } => RequestView::LeaseGrant { ttl: *ttl },
            Request::LeaseKeepAlive { lease } => RequestView::LeaseKeepAlive { lease: *lease },
            Request::LeaseRevoke { lease } => RequestView::LeaseRevoke { lease: *lease },
            Request::Watch { prefix, start_revision, kind } => RequestView::Watch {
                prefix: prefix@,
                start_revision: *start_revision,
                kind: *kind,
            },
            Request::NextEvents => RequestView::NextEvents,
            Request::CancelWatch => RequestView::CancelWatch,
        }
    }
}

/// One change that a watch reports.
#[derive(Debug)]
pub struct WatchEvent {
    pub kind: WatchKind,
    /// The key that was written or removed, where the store tells.
    pub kv: Option<KeyValue>,
}

pub struct WatchEventView {
    pub kind: WatchKind,
    pub kv: Option<KeyValueView>,
}

impl View for WatchEvent {
    type V = WatchEventView;

    open spec fn view(&self) -> WatchEventView {
        WatchEventView {
            kind: self.kind,
            kv: match self.kv {
                Some(kv) => Some(kv@),
                None => None,
            },
        }
    }
}

/// The outcome of an operation of the store.
#[derive(Debug)]
pub enum Response {
    /// Of `Get` and `Range`: the keys, whether there are more than the limit
    /// let through, and the revision of the store.
    Kvs { kvs: Vec<KeyValue>, more: bool, revision: i64 },
    /// Of `Txn`: whether the conditions held, and what each `Get` of the
    /// branch taken has read.
    TxnDone { succeeded: bool, gets: Vec<Vec<KeyValue>> },
    LeaseGranted { lease: i64 },
    /// Of `LeaseKeepAlive`: the seconds that the lease has left. Zero says
    /// that the lease is gone.
    LeaseKeptAlive { ttl: i64 },
    /// Of `LeaseRevoke` and `CancelWatch`.
    Done,
    /// Of `Watch` and `NextEvents`: a batch of events, or the word that the
    /// store canceled the watch; `compacted` where it did so because the
    /// revisions asked for are no longer kept.
    Events { revision: i64, canceled: bool, compacted: bool, events: Vec<WatchEvent> },
    /// Of `Watch` and `NextEvents`: the watch has no more to tell.
    EndOfEvents,
    /// The store could not be reached, or refused.
    Failed { message: String },
}

pub enum ResponseView {
    Kvs { kvs: Seq<KeyValueView>, more: bool, revision: i64 },
    TxnDone { succeeded: bool, gets: Seq<Seq<KeyValueView>> },
    LeaseGranted { lease: i64 },
    LeaseKeptAlive { ttl: i64 },
    Done,
    Events { revision: i64, canceled: bool, compacted: bool, events: Seq<WatchEventView> },
    EndOfEvents,
    Failed { message: Seq<char> },
}

impl View for Response {
    type V = ResponseView;

    open spec fn view(&self) -> ResponseView {
        match self {
            Response::Kvs { kvs, more, revision } => ResponseView::Kvs {
                kvs: kvs_view(kvs@),
                more: *more,
                revision: *revision,
            },
            Response::TxnDone { succeeded, gets } => ResponseView::TxnDone {
                succeeded: *succeeded,
                gets: gets@.map_values(|kvs: Vec<KeyValue>| kvs_view(kvs@)),
            },
            Response::LeaseGranted { lease } => ResponseView::LeaseGranted { lease: *lease },
            Response::LeaseKeptAlive { ttl } => ResponseView::LeaseKeptAlive { ttl: *ttl },
            Response::Done => ResponseView::Done,
            Response::Events { revision, canceled, compacted, events } => ResponseView::Events {
                revision: *revision,
                canceled: *canceled,
                compacted: *compacted,
                events: events@.map_values(|event: WatchEvent| event@),
            },
            Response::EndOfEvents => ResponseView::EndOfEvents,
            Response::Failed { message } => ResponseView::Failed { message: message@ },
        }
    }
}

/// The lease of a claim is gone, and the claim with it.
#[derive(Clone, Copy, Debug, PartialEq, Eq, Structural)]
pub struct LeaseExpired;

/// A failure of the store.
#[derive(Debug)]
pub struct StoreError {
    pub message: String,
}

/// Why a keep-alive did not end well.
#[derive(Debug)]
pub enum TaskAliveError {
    /// An interrupt was consumed: the task is paused or canceled.
    Interrupted,
    KeepAliveFailed(StoreError),
}

/// Why an operation on a task did not end well.
#[derive(Debug)]
pub enum TaskStateError {
    /// The worker lost its claim. It writes nothing further for the task.
    LeaseExpired,
    /// The store failed.
    Etcd(StoreError),
    /// A task record could not be read.
    Json(RecordError),
    Alive(TaskAliveError),
    /// A child could not be spawned over a task that is still at work.
    TaskAlreadyRunning,
}

pub enum TaskStateErrorView {
    LeaseExpired,
    Etcd(Seq<char>),
    Json(RecordErrorView),
    Interrupted,
    KeepAliveFailed(Seq<char>),
    TaskAlreadyRunning,
}

impl View for TaskStateError {
    type V = TaskStateErrorView;

    open spec fn view(&self) -> TaskStateErrorView {
        match self {
            TaskStateError::LeaseExpired => TaskStateErrorView::LeaseExpired,
            TaskStateError::Etcd(error) => TaskStateErrorView::Etcd(error.message@),
            TaskStateError::Json(error) => TaskStateErrorView::Json(error@),
            TaskStateError::Alive(TaskAliveError::Interrupted) => TaskStateErrorView::Interrupted,
            TaskStateError::Alive(TaskAliveError::KeepAliveFailed(error)) =>
                TaskStateErrorView::KeepAliveFailed(error.message@),
            TaskStateError::TaskAlreadyRunning => TaskStateErrorView::TaskAlreadyRunning,
        }
    }
}

impl TaskStateError {
    /// The error as a text, for logs.
    pub fn message(&self) -> (text: String)
        ensures
            text@ == match self@ {
                TaskStateErrorView::LeaseExpired => "lease expired"@,
                TaskStateErrorView::Etcd(message) => message,
                TaskStateErrorView::Json(error) => RecordError::spec_message(error),
                TaskStateErrorView::Interrupted => "task was interrupted"@,
                TaskStateErrorView::KeepAliveFailed(message) => message,
                TaskStateErrorView::TaskAlreadyRunning =>
                    "tried to create a task that is already running"@,
            },
    {
        match self {
            TaskStateError::LeaseExpired => "lease expired".to_owned(),
            TaskStateError::Etcd(error) => error.message.clone(),
            TaskStateError::Json(error) => error.message(),
            TaskStateError::Alive(TaskAliveError::Interrupted) => "task was interrupted".to_owned(),
            TaskStateError::Alive(TaskAliveError::KeepAliveFailed(error)) => error.message.clone(),
            TaskStateError::TaskAlreadyRunning =>
                "tried to create a task that is already running".to_owned(),
        }
    }
}

impl LeaseExpired {
    /// The error of an operation on a task that a lost lease stands for.
    pub fn into_state_error(self) -> (error: TaskStateError)
        ensures
            error@ == TaskStateErrorView::LeaseExpired,
    {
        TaskStateError::LeaseExpired
    }
}

/// The text by which the library reports an answer of the store that does not
/// fit the request it was given for.
pub open spec fn unexpected_response() -> Seq<char> {
    "the store answered a request that was not made"@
}

/// The error by which the library reports an answer of the store that does
/// not fit the request it was given for.
pub fn unexpected() -> (error: TaskStateError)
    ensures
        error@ == TaskStateErrorView::Etcd(unexpected_response()),
{
    TaskStateError::Etcd(
        StoreError { message: "the store answered a request that was not made".to_owned() },
    )
}

/// The text by which the library reports that a task has no record.
pub open spec fn record_is_missing() -> Seq<char> {
    "the task has no record"@
}

/// The error by which the library reports that a task has no record.
pub fn missing_record() -> (error: TaskStateError)
    ensures
        error@ == TaskStateErrorView::Etcd(record_is_missing()),
{
    TaskStateError::Etcd(StoreError { message: "the task has no record".to_owned() })
}

} // verus!
