use serde_json::Value;
use vectorlink_task::handler::Outcome;
use vectorlink_task::liveness::{
    keep_alive_continuously, send_keep_alive, ExchangeItem, LivenessGuard, RenewerAction,
    RenewerEvent, TaskLiveness,
};
use vectorlink_task::record::TaskData;
use vectorlink_task::request::{LeaseExpired, Request, Response, TaskStateError};
use vectorlink_task::spawn::{catch_panic, panic_outcome, Joined};
use vectorlink_task::status::TaskStatus;
use vectorlink_task::task::{Step, Task, LEASE_TTL_SECONDS, RENEW_INTERVAL_MS};

fn running_task(lease: Option<i64>) -> Task {
    let record =
        TaskData::from_bytes(b"{\"status\":\"running\",\"init\":{\"n\":3},\"progress\":{\"step\":1}}")
            .unwrap();
    Task::new(b"svc/a".to_vec(), b"w1".to_vec(), lease, record, 0)
}

#[test]
fn renewal_outcomes() {
    assert_eq!(send_keep_alive(10), Ok(()));
    assert_eq!(send_keep_alive(1), Ok(()));
    assert_eq!(send_keep_alive(0), Err(LeaseExpired));
    assert!(matches!(LeaseExpired.into_state_error(), TaskStateError::LeaseExpired));
    assert_eq!(RENEW_INTERVAL_MS, 1000);
    assert_eq!(LEASE_TTL_SECONDS, 10);
}

#[test]
fn background_renewer_renews_once_per_tick_while_the_guard_is_held() {
    assert!(matches!(keep_alive_continuously(5, true, RenewerEvent::Started), RenewerAction::WaitTick));
    assert!(matches!(keep_alive_continuously(5, false, RenewerEvent::Started), RenewerAction::Stop(Ok(()))));
    assert!(matches!(
        keep_alive_continuously(5, true, RenewerEvent::Tick),
        RenewerAction::KeepAlive { lease: 5 }
    ));
    assert!(matches!(
        keep_alive_continuously(5, true, RenewerEvent::KeptAlive { ttl: 9 }),
        RenewerAction::WaitTick
    ));
    assert!(matches!(
        keep_alive_continuously(5, false, RenewerEvent::KeptAlive { ttl: 9 }),
        RenewerAction::Stop(Ok(()))
    ));
    assert!(matches!(
        keep_alive_continuously(5, true, RenewerEvent::KeptAlive { ttl: 0 }),
        RenewerAction::Stop(Err(LeaseExpired))
    ));
    assert!(matches!(
        keep_alive_continuously(5, true, RenewerEvent::Failed),
        RenewerAction::Stop(Err(LeaseExpired))
    ));
}

#[test]
fn guard_tells_of_a_lost_lease_when_joined() {
    let mut guard = LivenessGuard::new();
    assert!(!guard.faults_on_drop(true));
    assert!(guard.faults_on_drop(false));
    assert!(matches!(guard.join(false), Err(TaskStateError::LeaseExpired)));
    assert!(!guard.faults_on_drop(false));
    assert!(guard.join(false).is_ok());
    let mut guard = LivenessGuard::new();
    assert!(guard.join(true).is_ok());
    assert!(!guard.faults_on_drop(false));
}

#[test]
fn keepalive_is_throttled_to_one_renewal_per_interval() {
    let mut live = TaskLiveness::new(running_task(Some(5)));
    assert!(matches!(live.keepalive(0), Step::Done(Ok(()))));
    assert!(matches!(live.keepalive(1000), Step::Done(Ok(()))));
    let step = live.keepalive(1001);
    assert!(matches!(step, Step::Call(Request::LeaseKeepAlive { lease: 5 })));
    let step = live.proceed(Response::LeaseKeptAlive { ttl: 10 }, 1002);
    match step {
        Step::Call(Request::Get { key, revision }) => {
            assert_eq!(key, b"interrupt/svc/a".to_vec());
            assert_eq!(revision, 0);
        }
        _ => panic!("the interrupt is looked for"),
    }
    let step = live.proceed(Response::Kvs { kvs: Vec::new(), more: false, revision: 3 }, 1003);
    assert!(matches!(step, Step::Done(Ok(()))));
    assert!(matches!(live.keepalive(2003), Step::Done(Ok(()))));
    assert!(matches!(live.keepalive(2004), Step::Call(Request::LeaseKeepAlive { lease: 5 })));
    let step = live.proceed(Response::Failed { message: "unreachable".to_owned() }, 2005);
    match step {
        Step::Done(Err(error)) => assert_eq!(error.message(), "unreachable"),
        _ => panic!("a failed renewal fails the keep-alive"),
    }
}

#[test]
fn liveness_reads_init_and_progress_and_guards_a_span() {
    let live = TaskLiveness::new(running_task(Some(5)));
    assert_eq!(live.init(), Some(serde_json::from_str::<Value>("{\"n\":3}").unwrap()));
    assert_eq!(live.progress(), Some(serde_json::from_str::<Value>("{\"step\":1}").unwrap()));
    match live.guarded_keepalive() {
        Some((Request::LeaseKeepAlive { lease }, guard)) => {
            assert_eq!(lease, 5);
            assert!(guard.faults_on_drop(false));
        }
        _ => panic!("a renewal starts the span"),
    }
    assert!(TaskLiveness::new(running_task(None)).guarded_keepalive().is_none());
}

#[test]
fn blocking_side_is_served_one_wish_at_a_time() {
    let mut sync = TaskLiveness::new(running_task(Some(5))).into_sync();
    assert_eq!(*sync.init(), Some(serde_json::from_str::<Value>("{\"n\":3}").unwrap()));
    assert_eq!(*sync.progress(), Some(serde_json::from_str::<Value>("{\"step\":1}").unwrap()));
    assert!(!sync.is_renewing());

    let step = sync.set_progress(Value::from(2), 10);
    let txn = match step {
        Step::Call(Request::Txn { txn }) => txn,
        _ => panic!("the progress is written"),
    };
    assert_eq!(txn.and_then.len(), 2);
    assert_eq!(*sync.progress(), Some(serde_json::from_str::<Value>("{\"step\":1}").unwrap()));
    let step = sync.proceed(Response::TxnDone { succeeded: true, gets: Vec::new() }, 20);
    assert!(matches!(step, Step::Done(Ok(()))));
    assert_eq!(*sync.progress(), Some(Value::from(2)));

    assert!(matches!(sync.keepalive(30), Step::Done(Ok(()))));
    assert!(!sync.is_renewing());
    let (step, guard) = sync.guarded_keepalive(40);
    assert!(matches!(step, Step::Done(Ok(()))));
    assert!(sync.is_renewing());
    assert!(!guard.faults_on_drop(true));
    assert!(matches!(sync.blocking_keepalive(50), Step::Done(Ok(()))));
    assert!(matches!(sync.serve(ExchangeItem::SendKeepalive, 5000), Step::Call(Request::LeaseKeepAlive { lease: 5 })));
    assert!(matches!(
        sync.proceed(Response::LeaseKeptAlive { ttl: 0 }, 5001),
        Step::Done(Err(TaskStateError::LeaseExpired))
    ));
    assert!(matches!(
        sync.set_progress(Value::from(3), 5002),
        Step::Done(Err(TaskStateError::LeaseExpired))
    ));
    assert_eq!(*sync.progress(), Some(Value::from(2)));
}

#[test]
fn fault_in_the_users_code_becomes_an_error() {
    assert_eq!(catch_panic(Joined::Returned(7), None), Ok(7));
    assert_eq!(catch_panic(Joined::Returned(7), Some("ignored".to_owned())), Ok(7));
    assert_eq!(
        catch_panic::<u8>(Joined::Panicked, Some("panic while running task a: boom".to_owned())),
        Err("panic while running task a: boom".to_owned())
    );
    assert_eq!(
        catch_panic::<u8>(Joined::Panicked, None),
        Err("task errored but no error was set".to_owned())
    );
    match panic_outcome("boom") {
        Outcome::Failed(error) => assert_eq!(error, Value::from("task panicked: boom")),
        Outcome::Returned(_) => panic!("a fault is an error"),
    }
}

#[test]
fn task_operations_write_what_they_say() {
    let record = TaskData::from_bytes(b"{\"status\":\"pending\",\"init\":1}").unwrap();
    let mut task = Task::new(b"svc/a".to_vec(), b"w1".to_vec(), Some(9), record, 100);
    assert_eq!(task.task_id(), b"svc/a");
    assert_eq!(task.lease(), Some(9));
    assert_eq!(task.state().status(), TaskStatus::Pending);
    assert_eq!(task.init(), Some(Value::from(1)));
    assert_eq!(task.result(), None);
    assert_eq!(task.error(), None);
    let txn = match task.start(100) {
        Step::Call(Request::Txn { txn }) => txn,
        _ => panic!("the start is written"),
    };
    assert_eq!(task.status(), TaskStatus::Pending);
    match &txn.and_then[1] {
        vectorlink_task::store::TxnOp::Put { key, value, lease } => {
            assert_eq!(key, b"tasks/svc/a");
            assert_eq!(*lease, None);
            let written = TaskData::from_bytes(value).unwrap();
            assert_eq!(written.status(), TaskStatus::Running);
            assert_eq!(written.field("init"), Some(Value::from(1)));
        }
        _ => panic!("the record is written"),
    }
    assert!(matches!(
        task.proceed(Response::TxnDone { succeeded: true, gets: Vec::new() }, 100),
        Step::Done(Ok(()))
    ));
    assert_eq!(task.status(), TaskStatus::Running);

    let txn = match task.finish_error(Value::from("boom"), 100) {
        Step::Call(Request::Txn { txn }) => txn,
        _ => panic!("the error is written"),
    };
    match &txn.and_then[1] {
        vectorlink_task::store::TxnOp::Put { value, .. } => {
            let written = TaskData::from_bytes(value).unwrap();
            assert_eq!(written.status(), TaskStatus::Error);
            assert_eq!(written.field("error"), Some(Value::from("boom")));
        }
        _ => panic!("the record is written"),
    }
    let step = task.proceed(Response::TxnDone { succeeded: true, gets: Vec::new() }, 100);
    assert!(matches!(step, Step::Call(Request::LeaseRevoke { lease: 9 })));
    assert!(matches!(task.proceed(Response::Done, 100), Step::Done(Ok(()))));
    assert!(!task.has_lease());
    assert_eq!(task.status(), TaskStatus::Error);
    assert_eq!(task.error(), Some(Value::from("boom")));

    let copy = task.duplicate();
    assert_eq!(copy.status(), TaskStatus::Error);
    assert!(matches!(task.proceed(Response::Done, 100), Step::Done(Err(TaskStateError::Etcd(_)))));
}

#[test]
fn begin_wait_names_what_the_task_waits_for_and_gives_up_the_claim() {
    let record = TaskData::from_bytes(b"{\"status\":\"running\"}").unwrap();
    let mut task = Task::new(b"svc/p".to_vec(), b"w1".to_vec(), Some(9), record, 0);
    let txn = match task.begin_wait(vec!["svc/c".to_owned()], 0) {
        Step::Call(Request::Txn { txn }) => txn,
        _ => panic!("the wait is written"),
    };
    match &txn.and_then[1] {
        vectorlink_task::store::TxnOp::Put { value, .. } => {
            let written = TaskData::from_bytes(value).unwrap();
            assert_eq!(written.status(), TaskStatus::Waiting);
            assert_eq!(written.waiting(), Some(vec!["svc/c".to_owned()]));
        }
        _ => panic!("the record is written"),
    }
    let step = task.proceed(Response::TxnDone { succeeded: true, gets: Vec::new() }, 0);
    assert!(matches!(step, Step::Call(Request::LeaseRevoke { lease: 9 })));
}

#[test]
fn refresh_reads_the_record_anew() {
    let mut task = running_task(None);
    let step = task.refresh_state(0);
    assert!(matches!(step, Step::Call(Request::Get { .. })));
    let kv = vectorlink_task::store::KeyValue {
        key: b"tasks/svc/a".to_vec(),
        value: b"{\"status\":\"paused\"}".to_vec(),
        version: 3,
        create_revision: 1,
        mod_revision: 5,
        lease: 0,
    };
    assert!(matches!(
        task.proceed(Response::Kvs { kvs: vec![kv], more: false, revision: 5 }, 0),
        Step::Done(Ok(()))
    ));
    assert_eq!(task.status(), TaskStatus::Paused);
    assert_eq!(task.progress(), None);
    let step = task.refresh_state(0);
    assert!(matches!(step, Step::Call(Request::Get { .. })));
    match task.proceed(Response::Kvs { kvs: Vec::new(), more: false, revision: 5 }, 0) {
        Step::Done(Err(error)) => assert_eq!(error.message(), "the task has no record"),
        _ => panic!("a task without a record cannot be refreshed"),
    }
}
