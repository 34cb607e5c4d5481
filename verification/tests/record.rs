use serde_json::Value;
use vectorlink_task::record::{is_known, RecordError, TaskData};
use vectorlink_task::status::{bytes_equal, InterruptReason, TaskStatus, Transition};

fn json(text: &str) -> Value {
    serde_json::from_str(text).unwrap()
}

const ALL: [TaskStatus; 8] = [
    TaskStatus::Pending,
    TaskStatus::Resuming,
    TaskStatus::Running,
    TaskStatus::Waiting,
    TaskStatus::Paused,
    TaskStatus::Complete,
    TaskStatus::Error,
    TaskStatus::Canceled,
];

#[test]
fn status_names_are_lowercase_and_read_back() {
    assert_eq!(TaskStatus::Pending.name(), "pending");
    assert_eq!(TaskStatus::Resuming.name(), "resuming");
    assert_eq!(TaskStatus::Running.name(), "running");
    assert_eq!(TaskStatus::Waiting.name(), "waiting");
    assert_eq!(TaskStatus::Paused.name(), "paused");
    assert_eq!(TaskStatus::Complete.name(), "complete");
    assert_eq!(TaskStatus::Error.name(), "error");
    assert_eq!(TaskStatus::Canceled.name(), "canceled");
    for status in ALL {
        assert_eq!(TaskStatus::from_name(&status.name()), Some(status));
    }
    assert_eq!(TaskStatus::from_name("Pending"), None);
    assert_eq!(TaskStatus::from_name(""), None);
    assert_eq!(TaskStatus::from_name("done"), None);
}

#[test]
fn final_states_are_complete_error_canceled() {
    for status in ALL {
        let expected = matches!(
            status,
            TaskStatus::Complete | TaskStatus::Error | TaskStatus::Canceled
        );
        assert_eq!(status.is_final(), expected);
    }
}

#[test]
fn transitions_follow_the_state_diagram() {
    assert_eq!(TaskStatus::Pending.transition(Transition::Start), Some(TaskStatus::Running));
    assert_eq!(TaskStatus::Resuming.transition(Transition::Resume), Some(TaskStatus::Running));
    assert_eq!(TaskStatus::Running.transition(Transition::Finish), Some(TaskStatus::Complete));
    assert_eq!(TaskStatus::Running.transition(Transition::FinishError), Some(TaskStatus::Error));
    assert_eq!(TaskStatus::Running.transition(Transition::Pause), Some(TaskStatus::Paused));
    assert_eq!(TaskStatus::Running.transition(Transition::Cancel), Some(TaskStatus::Canceled));
    assert_eq!(TaskStatus::Running.transition(Transition::BeginWait), Some(TaskStatus::Waiting));
    assert_eq!(TaskStatus::Waiting.transition(Transition::WakeUp), Some(TaskStatus::Resuming));
    assert_eq!(
        TaskStatus::Error.transition(Transition::OperatorResume),
        Some(TaskStatus::Resuming)
    );
    assert_eq!(
        TaskStatus::Paused.transition(Transition::OperatorResume),
        Some(TaskStatus::Resuming)
    );
    assert_eq!(TaskStatus::Running.transition(Transition::Start), None);
    assert_eq!(TaskStatus::Pending.transition(Transition::Finish), None);
    assert_eq!(TaskStatus::Waiting.transition(Transition::Resume), None);
}

#[test]
fn final_states_are_left_by_the_operators_resume_from_error_only() {
    let moves = [
        Transition::Start,
        Transition::Resume,
        Transition::Finish,
        Transition::FinishError,
        Transition::Pause,
        Transition::Cancel,
        Transition::BeginWait,
        Transition::WakeUp,
        Transition::OperatorResume,
    ];
    for status in [TaskStatus::Complete, TaskStatus::Error, TaskStatus::Canceled] {
        for by in moves {
            let next = status.transition(by);
            if status == TaskStatus::Error && by == Transition::OperatorResume {
                assert_eq!(next, Some(TaskStatus::Resuming));
            } else {
                assert_eq!(next, None);
            }
        }
    }
}

#[test]
fn interrupt_reasons_are_read_from_their_values() {
    assert_eq!(InterruptReason::from_value(b"paused"), Some(InterruptReason::Paused));
    assert_eq!(InterruptReason::from_value(b"canceled"), Some(InterruptReason::Canceled));
    assert_eq!(InterruptReason::from_value(b"cancelled"), None);
    assert_eq!(InterruptReason::from_value(b""), None);
    assert_eq!(InterruptReason::Paused.value(), b"paused".to_vec());
    assert_eq!(InterruptReason::Canceled.value(), b"canceled".to_vec());
    assert_eq!(InterruptReason::Paused.status(), TaskStatus::Paused);
    assert_eq!(InterruptReason::Canceled.status(), TaskStatus::Canceled);
    assert!(bytes_equal(b"abc", b"abc"));
    assert!(!bytes_equal(b"abc", b"abd"));
    assert!(!bytes_equal(b"abc", b"ab"));
}

#[test]
fn record_is_read_from_its_document() {
    let record = TaskData::from_bytes(
        b"{\"status\":\"waiting\",\"parent\":\"svc/p\",\"children\":[\"svc/c\",\"svc/d\"],\
          \"waiting\":[\"svc/c\"],\"init\":{\"n\":3},\"note\":[1,2.5,null]}",
    )
    .unwrap();
    assert_eq!(record.status(), TaskStatus::Waiting);
    assert_eq!(record.parent(), Some("svc/p".to_owned()));
    assert_eq!(record.children(), Some(vec!["svc/c".to_owned(), "svc/d".to_owned()]));
    assert_eq!(record.waiting(), Some(vec!["svc/c".to_owned()]));
    assert_eq!(record.field("init"), Some(json("{\"n\":3}")));
    assert_eq!(record.field("note"), Some(json("[1,2.5,null]")));
    assert_eq!(record.field("progress"), None);
    assert_eq!(record.field("status"), None);
    assert!(record.waits_for(b"svc/c"));
    assert!(!record.waits_for(b"svc/d"));
    assert!(!record.waits_for(b"svc"));
}

#[test]
fn null_members_stand_for_none() {
    let record = TaskData::from_bytes(
        b"{\"status\":\"pending\",\"parent\":null,\"children\":null,\"waiting\":null}",
    )
    .unwrap();
    assert_eq!(record.parent(), None);
    assert_eq!(record.children(), None);
    assert_eq!(record.waiting(), None);
    assert!(!record.waits_for(b"svc/c"));
}

#[test]
fn document_round_trip_keeps_every_member() {
    let documents: [&[u8]; 4] = [
        b"{\"status\":\"pending\"}",
        b"{\"status\":\"running\",\"init\":{\"n\":3},\"progress\":{\"step\":1}}",
        b"{\"parent\":\"svc/p\",\"status\":\"error\",\"error\":\"boom\",\"zeta\":{\"a\":[true,null]},\"alpha\":1.5}",
        b"{\"status\":\"waiting\",\"waiting\":[],\"children\":[\"svc/c\"],\"made up by another writer\":\"x\"}",
    ];
    for document in documents {
        let record = TaskData::from_bytes(document).unwrap();
        let original: Value = serde_json::from_slice(document).unwrap();
        let compact: Value = serde_json::from_slice(&record.to_bytes()).unwrap();
        let pretty: Value = serde_json::from_slice(&record.to_bytes_pretty()).unwrap();
        assert_eq!(compact, original);
        assert_eq!(pretty, original);
        let again = TaskData::from_bytes(&record.to_bytes()).unwrap();
        assert_eq!(again.to_fields(), record.to_fields());
        assert_eq!(again.status(), record.status());
    }
}

#[test]
fn written_document_has_the_members_of_the_record() {
    let mut record = TaskData::new(TaskStatus::Running);
    record.set_parent(Some("svc/p".to_owned()));
    record.set_waiting(Some(vec!["svc/x".to_owned(), "svc/y".to_owned()]));
    assert!(record.set_field("progress", json("{\"step\":2}")));
    assert_eq!(
        record.to_bytes(),
        b"{\"parent\":\"svc/p\",\"progress\":{\"step\":2},\"status\":\"running\",\"waiting\":[\"svc/x\",\"svc/y\"]}".to_vec()
    );
    assert_eq!(
        String::from_utf8(TaskData::new(TaskStatus::Canceled).to_bytes_pretty()).unwrap(),
        "{\n  \"status\": \"canceled\"\n}"
    );
    let fields = record.to_fields();
    assert_eq!(fields.len(), 4);
    assert_eq!(fields[0], ("status".to_owned(), Value::from("running")));
    assert_eq!(fields[1], ("parent".to_owned(), Value::from("svc/p")));
    assert_eq!(fields[2], ("waiting".to_owned(), json("[\"svc/x\",\"svc/y\"]")));
    assert_eq!(fields[3], ("progress".to_owned(), json("{\"step\":2}")));
}

#[test]
fn each_record_error_has_its_document() {
    assert!(matches!(TaskData::from_bytes(b"{not json"), Err(RecordError::Syntax(_))));
    assert!(matches!(TaskData::from_bytes(b"[1,2]"), Err(RecordError::Syntax(_))));
    assert!(matches!(TaskData::from_bytes(b""), Err(RecordError::Syntax(_))));
    assert!(matches!(TaskData::from_bytes(b"{}"), Err(RecordError::MissingStatus)));
    assert!(matches!(TaskData::from_bytes(b"{\"status\":3}"), Err(RecordError::BadStatus)));
    assert!(matches!(TaskData::from_bytes(b"{\"status\":null}"), Err(RecordError::BadStatus)));
    assert!(matches!(
        TaskData::from_bytes(b"{\"status\":\"Running\"}"),
        Err(RecordError::BadStatus)
    ));
    assert!(matches!(
        TaskData::from_bytes(b"{\"status\":\"running\",\"parent\":7}"),
        Err(RecordError::BadParent)
    ));
    assert!(matches!(
        TaskData::from_bytes(b"{\"status\":\"running\",\"children\":[1]}"),
        Err(RecordError::BadChildren)
    ));
    assert!(matches!(
        TaskData::from_bytes(b"{\"status\":\"running\",\"waiting\":\"svc/c\"}"),
        Err(RecordError::BadWaiting)
    ));
    assert_eq!(RecordError::MissingStatus.message(), "missing field `status`");
    assert_eq!(RecordError::Syntax("here".to_owned()).message(), "here");
    match TaskData::from_bytes(b"{not json") {
        Err(error) => assert_eq!(error.message(), "key must be a string at line 1 column 2"),
        Ok(_) => panic!("no record"),
    }
}

#[test]
fn payload_slots_are_set_and_taken_away() {
    let mut record = TaskData::from_bytes(b"{\"status\":\"error\",\"a\":1,\"error\":\"x\",\"b\":2}").unwrap();
    assert!(record.set_field("a", json("3")));
    assert_eq!(record.field("a"), Some(json("3")));
    assert_eq!(record.field("b"), Some(json("2")));
    record.remove_field("error");
    assert_eq!(record.field("error"), None);
    record.remove_field("never there");
    let fields = record.to_fields();
    assert_eq!(fields.len(), 3);
    assert_eq!(fields[1], ("b".to_owned(), json("2")));
    assert_eq!(fields[2], ("a".to_owned(), json("3")));
    assert!(!record.set_field("status", json("\"complete\"")));
    assert!(!record.set_field("waiting", json("[]")));
    assert_eq!(record.status(), TaskStatus::Error);
    assert_eq!(record.to_fields().len(), 3);
    assert!(is_known("parent") && is_known("children") && !is_known("progress"));
    record.set_status(TaskStatus::Resuming);
    assert_eq!(record.status(), TaskStatus::Resuming);
    let copy = record.duplicate();
    assert_eq!(copy.to_fields(), record.to_fields());
}

#[test]
fn unparsable_record_holds_diagnostic_and_original() {
    let record = TaskData::unparsable("expected value", &[b'{', 0xff, b'x']);
    assert_eq!(record.status(), TaskStatus::Error);
    assert_eq!(record.parent(), None);
    assert_eq!(record.field("error"), Some(Value::from("unparsable task: expected value")));
    assert_eq!(record.field("original"), Some(Value::from("{\u{fffd}x")));
    assert_eq!(record.to_fields().len(), 3);
}
