//! The task record: the durable document of a task.
//!
//! A record is a JSON object. The library reads four of its members, `status`,
//! `parent`, `children` and `waiting`; every other member is a payload slot
//! that it carries through unchanged, whatever its name and value.

use crate::json::{
    error_text, fields_view, json_document, json_document_pretty, json_object, json_shape,
    parse_object, print_object, print_object_pretty, text_list_value, text_of_bytes, text_value,
    texts_view, utf8_lossy, value_as_text, value_as_text_list, value_is_null, JsonShape,
};
use crate::status::TaskStatus;
use serde_json::Value;
use vstd::prelude::*;

verus! {

/// The durable state of one task.
#[derive(Debug)]
pub struct TaskData {
    status: TaskStatus,
    parent: Option<String>,
    children: Option<Vec<String>>,
    waiting: Option<Vec<String>>,
    other_fields: Vec<(String, Value)>,
}

/// A task record as the contracts speak of it.
pub struct TaskDataView {
    pub status: TaskStatus,
    /// The id of the task that spawned this one.
    pub parent: Option<Seq<char>>,
    /// The ids of the tasks that this one spawned.
    pub children: Option<Seq<Seq<char>>>,
    /// The ids of the tasks that this one is blocked on.
    pub waiting: Option<Seq<Seq<char>>>,
    /// The payload slots, each a name and a JSON value, in the order of the
    /// document.
    pub other_fields: Seq<(Seq<char>, Value)>,
}

/// Why a document is no task record.
#[derive(Debug)]
pub enum RecordError {
    /// The bytes hold no JSON object. The text is the parser's message.
    Syntax(String),
    /// The object has no member `status`.
    MissingStatus,
    /// The member `status` is not the name of a state.
    BadStatus,
    /// The member `parent` is neither null nor a string.
    BadParent,
    /// The member `children` is neither null nor an array of strings.
    BadChildren,
    /// The member `waiting` is neither null nor an array of strings.
    BadWaiting,
}

/// A record error as the contracts speak of it.
pub enum RecordErrorView {
    Syntax(Seq<char>),
    MissingStatus,
    BadStatus,
    BadParent,
    BadChildren,
    BadWaiting,
}

impl View for RecordError {
    type V = RecordErrorView;

    open spec fn view(&self) -> RecordErrorView {
        match self {
            RecordError::Syntax(text) => RecordErrorView::Syntax(text@),
            RecordError::MissingStatus => RecordErrorView::MissingStatus,
            RecordError::BadStatus => RecordErrorView::BadStatus,
            RecordError::BadParent => RecordErrorView::BadParent,
            RecordError::BadChildren => RecordErrorView::BadChildren,
            RecordError::BadWaiting => RecordErrorView::BadWaiting,
        }
    }
}

/// An optional list of strings as the contracts speak of it.
pub open spec fn optional_texts_view(list: Option<Vec<String>>) -> Option<Seq<Seq<char>>> {
    match list {
        Some(list) => Some(texts_view(list@)),
        None => None,
    }
}

/// An optional string as the contracts speak of it.
pub open spec fn optional_text_view(text: Option<String>) -> Option<Seq<char>> {
    match text {
        Some(text) => Some(text@),
        None => None,
    }
}

impl View for TaskData {
    type V = TaskDataView;

    closed spec fn view(&self) -> TaskDataView {
        TaskDataView {
            status: self.status,
            parent: optional_text_view(self.parent),
            children: optional_texts_view(self.children),
            waiting: optional_texts_view(self.waiting),
            other_fields: fields_view(self.other_fields@),
        }
    }
}

/// One of the four member names that the library reads.
pub open spec fn is_known_name(name: Seq<char>) -> bool {
    name == "status"@ || name == "parent"@ || name == "children"@ || name == "waiting"@
}

/// The value of the first member named `name`.
pub open spec fn field_value(fields: Seq<(Seq<char>, Value)>, name: Seq<char>) -> Option<Value>
    decreases fields.len(),
{
    if fields.len() == 0 {
        None
    } else {
        match field_value(fields.drop_last(), name) {
            Some(value) => Some(value),
            None => if fields.last().0 == name {
                Some(fields.last().1)
            } else {
                None
            },
        }
    }
}

/// The members that the library does not read, in their order.
pub open spec fn payload_fields(fields: Seq<(Seq<char>, Value)>) -> Seq<(Seq<char>, Value)>
    decreases fields.len(),
{
    if fields.len() == 0 {
        fields
    } else if is_known_name(fields.last().0) {
        payload_fields(fields.drop_last())
    } else {
        payload_fields(fields.drop_last()).push(fields.last())
    }
}

/// The members without those named `name`, in their order.
pub open spec fn fields_without(fields: Seq<(Seq<char>, Value)>, name: Seq<char>) -> Seq<
    (Seq<char>, Value),
>
    decreases fields.len(),
{
    if fields.len() == 0 {
        fields
    } else if fields.last().0 == name {
        fields_without(fields.drop_last(), name)
    } else {
        fields_without(fields.drop_last(), name).push(fields.last())
    }
}

/// What an optional member that holds a string stands for: a string, or
/// nothing where the member is missing or null. Any other value is an error.
pub open spec fn optional_text_member(member: Option<Value>) -> Option<Option<Seq<char>>> {
    match member {
        None => Some(None),
        Some(value) => match json_shape(value) {
            JsonShape::Null => Some(None),
            JsonShape::Text(text) => Some(Some(text)),
            _ => None,
        },
    }
}

/// What an optional member that holds a list of strings stands for: the list,
/// or nothing where the member is missing or null. Any other value is an
/// error.
pub open spec fn optional_list_member(member: Option<Value>) -> Option<Option<Seq<Seq<char>>>> {
    match member {
        None => Some(None),
        Some(value) => match json_shape(value) {
            JsonShape::Null => Some(None),
            JsonShape::TextList(list) => Some(Some(list)),
            _ => None,
        },
    }
}

/// The state that the member `status` stands for.
pub open spec fn status_member(member: Option<Value>) -> Result<TaskStatus, RecordErrorView> {
    match member {
        None => Err(RecordErrorView::MissingStatus),
        Some(value) => match json_shape(value) {
            JsonShape::Text(name) => match TaskStatus::spec_from_name(name) {
                Some(status) => Ok(status),
                None => Err(RecordErrorView::BadStatus),
            },
            _ => Err(RecordErrorView::BadStatus),
        },
    }
}

/// The record that the members of a document stand for.
pub open spec fn record_of_fields(fields: Seq<(Seq<char>, Value)>) -> Result<
    TaskDataView,
    RecordErrorView,
> {
    match status_member(field_value(fields, "status"@)) {
        Err(error) => Err(error),
        Ok(status) => match optional_text_member(field_value(fields, "parent"@)) {
            None => Err(RecordErrorView::BadParent),
            Some(parent) => match optional_list_member(field_value(fields, "children"@)) {
                None => Err(RecordErrorView::BadChildren),
                Some(children) => match optional_list_member(field_value(fields, "waiting"@)) {
                    None => Err(RecordErrorView::BadWaiting),
                    Some(waiting) => Ok(
                        TaskDataView {
                            status,
                            parent,
                            children,
                            waiting,
                            other_fields: payload_fields(fields),
                        },
                    ),
                },
            },
        },
    }
}

/// The record that a document stands for.
pub open spec fn record_of_bytes(bytes: Seq<u8>) -> Result<TaskDataView, RecordErrorView> {
    match json_object(bytes) {
        Err(message) => Err(RecordErrorView::Syntax(message)),
        Ok(fields) => record_of_fields(fields),
    }
}

/// The member that holds an optional string, if there is one to hold.
pub open spec fn text_member_encodes(
    member: Seq<(Seq<char>, Value)>,
    name: Seq<char>,
    text: Option<Seq<char>>,
) -> bool {
    match text {
        None => member.len() == 0,
        Some(text) => member.len() == 1 && member[0].0 == name && json_shape(member[0].1)
            == JsonShape::Text(text),
    }
}

/// The member that holds an optional list of strings, if there is one to
/// hold.
pub open spec fn list_member_encodes(
    member: Seq<(Seq<char>, Value)>,
    name: Seq<char>,
    list: Option<Seq<Seq<char>>>,
) -> bool {
    match list {
        None => member.len() == 0,
        Some(list) => member.len() == 1 && member[0].0 == name && json_shape(member[0].1)
            == JsonShape::TextList(list),
    }
}

/// `fields` are the members of the document of `record`: `status` with the
/// state's name; then `parent`, `children` and `waiting`, each only where the
/// record has it; then the payload slots as they are.
pub open spec fn fields_encode(fields: Seq<(Seq<char>, Value)>, record: TaskDataView) -> bool {
    exists|
        status: Seq<(Seq<char>, Value)>,
        parent: Seq<(Seq<char>, Value)>,
        children: Seq<(Seq<char>, Value)>,
        waiting: Seq<(Seq<char>, Value)>,
    |
        #![trigger status + parent + children + waiting]
        fields == status + parent + children + waiting + record.other_fields
            && text_member_encodes(status, "status"@, Some(record.status.spec_name()))
            && text_member_encodes(parent, "parent"@, record.parent) && list_member_encodes(
            children,
            "children"@,
            record.children,
        ) && list_member_encodes(waiting, "waiting"@, record.waiting)
}

impl TaskDataView {
    /// No payload slot has one of the names that the library reads.
    pub open spec fn wf(self) -> bool {
        forall|i: int|
            0 <= i < self.other_fields.len() ==> !is_known_name(
                #[trigger] self.other_fields[i].0,
            )
    }

    /// The value of the payload slot `name`.
    pub open spec fn slot(self, name: Seq<char>) -> Option<Value> {
        field_value(self.other_fields, name)
    }

    /// The record in another state.
    pub open spec fn with_status(self, status: TaskStatus) -> TaskDataView {
        TaskDataView { status, ..self }
    }

    /// The record with the payload slot `name` set to `value`: the slot comes
    /// last, and no other slot has its name.
    pub open spec fn with_slot(self, name: Seq<char>, value: Value) -> TaskDataView {
        TaskDataView {
            other_fields: fields_without(self.other_fields, name).push((name, value)),
            ..self
        }
    }

    /// The record without the payload slot `name`.
    pub open spec fn without_slot(self, name: Seq<char>) -> TaskDataView {
        TaskDataView { other_fields: fields_without(self.other_fields, name), ..self }
    }
}

/// A value found among the leading members is the value found among all.
proof fn lemma_field_value_prefix(fields: Seq<(Seq<char>, Value)>, n: int, name: Seq<char>)
    requires
        0 <= n <= fields.len(),
        field_value(fields.take(n), name) is Some,
    ensures
        field_value(fields, name) == field_value(fields.take(n), name),
    decreases fields.len() - n,
{
    if n == fields.len() {
        assert(fields.take(n) == fields);
    } else {
        assert(fields.drop_last().take(n) == fields.take(n));
        lemma_field_value_prefix(fields.drop_last(), n, name);
    }
}

/// The value of a name among two lists of members joined: that among the
/// first, and else that among the second.
proof fn lemma_field_value_concat(
    a: Seq<(Seq<char>, Value)>,
    b: Seq<(Seq<char>, Value)>,
    name: Seq<char>,
)
    ensures
        field_value(a + b, name) == match field_value(a, name) {
            Some(value) => Some(value),
            None => field_value(b, name),
        },
    decreases b.len(),
{
    if b.len() > 0 {
        assert((a + b).drop_last() == a + b.drop_last());
        lemma_field_value_concat(a, b.drop_last(), name);
    }
}

/// The payload slots of two lists of members joined are those of the first
/// followed by those of the second.
proof fn lemma_payload_fields_concat(a: Seq<(Seq<char>, Value)>, b: Seq<(Seq<char>, Value)>)
    ensures
        payload_fields(a + b) == payload_fields(a) + payload_fields(b),
    decreases b.len(),
{
    if b.len() > 0 {
        assert((a + b).drop_last() == a + b.drop_last());
        lemma_payload_fields_concat(a, b.drop_last());
    }
}

/// No payload slot has a name that the library reads.
proof fn lemma_payload_fields_wf(fields: Seq<(Seq<char>, Value)>)
    ensures
        forall|i: int|
            0 <= i < payload_fields(fields).len() ==> !is_known_name(
                #[trigger] payload_fields(fields)[i].0,
            ),
    decreases fields.len(),
{
    if fields.len() > 0 {
        let rest = payload_fields(fields.drop_last());
        lemma_payload_fields_wf(fields.drop_last());
    }
}

/// Members without a name that the library reads are all payload slots, and
/// none of them answers to such a name.
proof fn lemma_payload_only(fields: Seq<(Seq<char>, Value)>, name: Seq<char>)
    requires
        forall|i: int| 0 <= i < fields.len() ==> !is_known_name(#[trigger] fields[i].0),
        is_known_name(name),
    ensures
        payload_fields(fields) == fields,
        field_value(fields, name) is None,
    decreases fields.len(),
{
    if fields.len() > 0 {
        let rest = fields.drop_last();
        lemma_payload_only(rest, name);
    }
}

/// The four names that the library reads differ, each from each.
proof fn lemma_known_names_differ()
    ensures
        "status"@ != "parent"@,
        "status"@ != "children"@,
        "status"@ != "waiting"@,
        "parent"@ != "children"@,
        "parent"@ != "waiting"@,
        "children"@ != "waiting"@,
{
    reveal_strlit("status");
    reveal_strlit("parent");
    reveal_strlit("children");
    reveal_strlit("waiting");
    assert("status"@[0] == 's' && "parent"@[0] == 'p');
    assert("status"@.len() == 6 && "children"@.len() == 8 && "waiting"@.len() == 7);
}

/// Reading is the inverse of writing: the members of a record's document
/// stand for that record, payload slots and all. The record must be well
/// formed: no payload slot of it has one of the four names that the library
/// reads.
pub proof fn lemma_record_round_trip(fields: Seq<(Seq<char>, Value)>, record: TaskDataView)
    requires
        fields_encode(fields, record),
        record.wf(),
    ensures
        record_of_fields(fields) == Ok::<TaskDataView, RecordErrorView>(record),
{
    let (status, parent, children, waiting) = choose|
        status: Seq<(Seq<char>, Value)>,
        parent: Seq<(Seq<char>, Value)>,
        children: Seq<(Seq<char>, Value)>,
        waiting: Seq<(Seq<char>, Value)>,
    |
        #![trigger status + parent + children + waiting]
        fields == status + parent + children + waiting + record.other_fields
            && text_member_encodes(status, "status"@, Some(record.status.spec_name()))
            && text_member_encodes(parent, "parent"@, record.parent) && list_member_encodes(
            children,
            "children"@,
            record.children,
        ) && list_member_encodes(waiting, "waiting"@, record.waiting);
    let other = record.other_fields;
    lemma_known_names_differ();
    crate::status::lemma_status_name_round_trip(record.status);
    let names = seq!["status"@, "parent"@, "children"@, "waiting"@];
    assert forall|k: int| 0 <= k < 4 implies field_value(fields, #[trigger] names[k]) == (if k
        == 0 {
        field_value(status, names[k])
    } else if k == 1 {
        field_value(parent, names[k])
    } else if k == 2 {
        field_value(children, names[k])
    } else {
        field_value(waiting, names[k])
    }) by {
        let name = names[k];
        lemma_field_value_concat(status + parent + children + waiting, other, name);
        lemma_field_value_concat(status + parent + children, waiting, name);
        lemma_field_value_concat(status + parent, children, name);
        lemma_field_value_concat(status, parent, name);
        lemma_payload_only(other, name);
        lemma_single_member(status, name);
        lemma_single_member(parent, name);
        lemma_single_member(children, name);
        lemma_single_member(waiting, name);
    }
    assert(names[0] == "status"@ && names[1] == "parent"@ && names[2] == "children"@ && names[3]
        == "waiting"@);
    lemma_single_member(status, "status"@);
    lemma_single_member(parent, "parent"@);
    lemma_single_member(children, "children"@);
    lemma_single_member(waiting, "waiting"@);
    lemma_payload_fields_concat(status + parent + children + waiting, other);
    lemma_payload_fields_concat(status + parent + children, waiting);
    lemma_payload_fields_concat(status + parent, children);
    lemma_payload_fields_concat(status, parent);
    lemma_payload_only(other, "status"@);
}

/// Of at most one member: its value under its own name and under no other,
/// and whether it is a payload slot.
proof fn lemma_single_member(member: Seq<(Seq<char>, Value)>, name: Seq<char>)
    requires
        member.len() <= 1,
    ensures
        field_value(member, name) == (if member.len() == 1 && member[0].0 == name {
            Some(member[0].1)
        } else {
            None
        }),
        payload_fields(member) == (if member.len() == 1 && !is_known_name(member[0].0) {
            member
        } else {
            Seq::empty()
        }),
{
    if member.len() == 1 {
        assert(field_value(member.drop_last(), name) is None);
        assert(payload_fields(member.drop_last()) == Seq::<(Seq<char>, Value)>::empty());
    }
}

/// A copy of a list of strings.
pub fn clone_texts(list: &Vec<String>) -> (copy: Vec<String>)
    ensures
        texts_view(copy@) == texts_view(list@),
{
    let mut copy: Vec<String> = Vec::new();
    let mut i: usize = 0;
    while i < list.len()
        invariant
            i <= list.len(),
            copy.len() == i,
            forall|j: int| 0 <= j < i ==> copy[j]@ == list[j]@,
        decreases list.len() - i,
    {
        copy.push(list[i].clone());
        i = i + 1;
    }
    copy
}

/// A copy of the members of a document.
pub fn clone_fields(fields: &Vec<(String, Value)>) -> (copy: Vec<(String, Value)>)
    ensures
        fields_view(copy@) == fields_view(fields@),
{
    let mut copy: Vec<(String, Value)> = Vec::new();
    let mut i: usize = 0;
    while i < fields.len()
        invariant
            i <= fields.len(),
            copy.len() == i,
            forall|j: int| 0 <= j < i ==> copy[j].0@ == fields[j].0@ && copy[j].1 == fields[j].1,
        decreases fields.len() - i,
    {
        copy.push((fields[i].0.clone(), fields[i].1.clone()));
        i = i + 1;
    }
    copy
}

/// Whether `name` is one of the four member names that the library reads.
pub fn is_known(name: &str) -> (known: bool)
    ensures
        known == is_known_name(name@),
{
    let name = String::from_str(name);
    name == String::from_str("status") || name == String::from_str("parent") || name
        == String::from_str("children") || name == String::from_str("waiting")
}

/// The place of the first member named `name`.
fn find_field(fields: &Vec<(String, Value)>, name: &str) -> (found: Option<usize>)
    ensures
        match found {
            Some(i) => i < fields.len() && fields[i as int].0@ == name@ && field_value(
                fields_view(fields@),
                name@,
            ) == Some(fields[i as int].1) && field_value(
                fields_view(fields@).take(i as int),
                name@,
            ) is None,
            None => field_value(fields_view(fields@), name@) is None,
        },
{
    let wanted = String::from_str(name);
    let ghost all = fields_view(fields@);
    let mut i: usize = 0;
    while i < fields.len()
        invariant
            i <= fields.len(),
            all == fields_view(fields@),
            wanted@ == name@,
            field_value(all.take(i as int), name@) is None,
        decreases fields.len() - i,
    {
        proof {
            assert(all.take(i + 1).drop_last() == all.take(i as int));
        }
        if fields[i].0 == wanted {
            proof {
                lemma_field_value_prefix(all, i + 1, name@);
            }
            return Some(i);
        }
        i = i + 1;
    }
    assert(all.take(i as int) == all);
    None
}

/// Reads an optional member that holds a string.
fn read_optional_text(fields: &Vec<(String, Value)>, name: &str) -> (text: Option<Option<String>>)
    ensures
        match text {
            Some(text) => optional_text_member(field_value(fields_view(fields@), name@)) == Some(
                optional_text_view(text),
            ),
            None => optional_text_member(field_value(fields_view(fields@), name@)) is None,
        },
{
    match find_field(fields, name) {
        None => Some(None),
        Some(i) => {
            let value = &fields[i].1;
            if value_is_null(value) {
                Some(None)
            } else {
                match value_as_text(value) {
                    Some(text) => Some(Some(text)),
                    None => None,
                }
            }
        },
    }
}

/// Reads an optional member that holds a list of strings.
fn read_optional_list(fields: &Vec<(String, Value)>, name: &str) -> (list: Option<
    Option<Vec<String>>,
>)
    ensures
        match list {
            Some(list) => optional_list_member(field_value(fields_view(fields@), name@)) == Some(
                optional_texts_view(list),
            ),
            None => optional_list_member(field_value(fields_view(fields@), name@)) is None,
        },
{
    match find_field(fields, name) {
        None => Some(None),
        Some(i) => {
            let value = &fields[i].1;
            if value_is_null(value) {
                Some(None)
            } else {
                match value_as_text_list(value) {
                    Some(list) => Some(Some(list)),
                    None => None,
                }
            }
        },
    }
}

/// Reads the member `status`.
fn read_status(fields: &Vec<(String, Value)>) -> (status: Result<TaskStatus, RecordError>)
    ensures
        match status {
            Ok(status) => status_member(field_value(fields_view(fields@), "status"@)) == Ok::<
                TaskStatus,
                RecordErrorView,
            >(status),
            Err(error) => status_member(field_value(fields_view(fields@), "status"@)) == Err::<
                TaskStatus,
                RecordErrorView,
            >(error@),
        },
{
    match find_field(fields, "status") {
        None => Err(RecordError::MissingStatus),
        Some(i) => match value_as_text(&fields[i].1) {
            None => Err(RecordError::BadStatus),
            Some(name) => match TaskStatus::from_name(name.as_str()) {
                None => Err(RecordError::BadStatus),
                Some(status) => Ok(status),
            },
        },
    }
}

/// The members that the library does not read, in their order.
fn read_payload(fields: &Vec<(String, Value)>) -> (payload: Vec<(String, Value)>)
    ensures
        fields_view(payload@) == payload_fields(fields_view(fields@)),
{
    let ghost all = fields_view(fields@);
    let mut payload: Vec<(String, Value)> = Vec::new();
    let mut i: usize = 0;
    while i < fields.len()
        invariant
            i <= fields.len(),
            all == fields_view(fields@),
            fields_view(payload@) == payload_fields(all.take(i as int)),
        decreases fields.len() - i,
    {
        proof {
            assert(all.take(i + 1).drop_last() == all.take(i as int));
        }
        if !is_known(fields[i].0.as_str()) {
            payload.push((fields[i].0.clone(), fields[i].1.clone()));
        }
        i = i + 1;
    }
    assert(all.take(i as int) == all);
    payload
}

impl RecordError {
    /// The diagnostic of the error, for logs and for the `error` slot of a
    /// record that could not be read.
    pub open spec fn spec_message(error: RecordErrorView) -> Seq<char> {
        match error {
            RecordErrorView::Syntax(text) => text,
            RecordErrorView::MissingStatus => "missing field `status`"@,
            RecordErrorView::BadStatus => "field `status` is not the name of a task status"@,
            RecordErrorView::BadParent => "field `parent` is not a string"@,
            RecordErrorView::BadChildren => "field `children` is not a list of strings"@,
            RecordErrorView::BadWaiting => "field `waiting` is not a list of strings"@,
        }
    }

    pub fn message(&self) -> (text: String)
        ensures
            text@ == RecordError::spec_message(self@),
    {
        match self {
            RecordError::Syntax(text) => text.clone(),
            RecordError::MissingStatus => String::from_str("missing field `status`"),
            RecordError::BadStatus => String::from_str(
                "field `status` is not the name of a task status",
            ),
            RecordError::BadParent => String::from_str("field `parent` is not a string"),
            RecordError::BadChildren => String::from_str(
                "field `children` is not a list of strings",
            ),
            RecordError::BadWaiting => String::from_str("field `waiting` is not a list of strings"),
        }
    }
}

impl TaskData {
    /// A record in the state `status`, with no parent, no children, nothing
    /// to wait for and no payload.
    pub fn new(status: TaskStatus) -> (record: TaskData)
        ensures
            record@ == (TaskDataView {
                status,
                parent: None,
                children: None,
                waiting: None,
                other_fields: Seq::empty(),
            }),
            record@.wf(),
    {
        let record = TaskData {
            status,
            parent: None,
            children: None,
            waiting: None,
            other_fields: Vec::new(),
        };
        assert(record@.other_fields =~= Seq::empty());
        record
    }

    /// The record that the members of a document stand for. Payload slots are
    /// kept as they are, in their order.
    pub fn from_fields(fields: &Vec<(String, Value)>) -> (record: Result<TaskData, RecordError>)
        ensures
            match record {
                Ok(record) => record_of_fields(fields_view(fields@)) == Ok::<
                    TaskDataView,
                    RecordErrorView,
                >(record@) && record@.wf(),
                Err(error) => record_of_fields(fields_view(fields@)) == Err::<
                    TaskDataView,
                    RecordErrorView,
                >(error@),
            },
    {
        let status = match read_status(fields) {
            Ok(status) => status,
            Err(error) => {
                return Err(error);
            },
        };
        let parent = match read_optional_text(fields, "parent") {
            Some(parent) => parent,
            None => {
                return Err(RecordError::BadParent);
            },
        };
        let children = match read_optional_list(fields, "children") {
            Some(children) => children,
            None => {
                return Err(RecordError::BadChildren);
            },
        };
        let waiting = match read_optional_list(fields, "waiting") {
            Some(waiting) => waiting,
            None => {
                return Err(RecordError::BadWaiting);
            },
        };
        let other_fields = read_payload(fields);
        proof {
            lemma_payload_fields_wf(fields_view(fields@));
        }
        Ok(TaskData { status, parent, children, waiting, other_fields })
    }

    /// The members of the record's document.
    pub fn to_fields(&self) -> (fields: Vec<(String, Value)>)
        ensures
            fields_encode(fields_view(fields@), self@),
    {
        let mut fields: Vec<(String, Value)> = Vec::new();
        let name = self.status.name();
        fields.push((String::from_str("status"), text_value(name.as_str())));
        let ghost status = fields_view(fields@);
        match &self.parent {
            Some(parent) => {
                fields.push((String::from_str("parent"), text_value(parent.as_str())));
            },
            None => {},
        }
        let ghost parent = fields_view(fields@).skip(1);
        let ghost n1 = fields@.len();
        match &self.children {
            Some(children) => {
                fields.push((String::from_str("children"), text_list_value(children)));
            },
            None => {},
        }
        let ghost children = fields_view(fields@).skip(n1 as int);
        let ghost n2 = fields@.len();
        match &self.waiting {
            Some(waiting) => {
                fields.push((String::from_str("waiting"), text_list_value(waiting)));
            },
            None => {},
        }
        let ghost waiting = fields_view(fields@).skip(n2 as int);
        let ghost known = fields_view(fields@);
        let mut i: usize = 0;
        while i < self.other_fields.len()
            invariant
                i <= self.other_fields.len(),
                fields_view(fields@) == known + fields_view(self.other_fields@).take(i as int),
            decreases self.other_fields.len() - i,
        {
            let ghost before = fields_view(fields@);
            fields.push((self.other_fields[i].0.clone(), self.other_fields[i].1.clone()));
            assert(fields_view(fields@) =~= before.push(fields_view(self.other_fields@)[i as int]));
            i = i + 1;
        }
        assert(fields_view(fields@) == status + parent + children + waiting
            + self@.other_fields);
        fields
    }

    /// Reads a record from the bytes of its document.
    pub fn from_bytes(bytes: &[u8]) -> (record: Result<TaskData, RecordError>)
        ensures
            match record {
                Ok(record) => record_of_bytes(bytes@) == Ok::<TaskDataView, RecordErrorView>(
                    record@,
                ) && record@.wf(),
                Err(error) => record_of_bytes(bytes@) == Err::<TaskDataView, RecordErrorView>(
                    error@,
                ),
            },
    {
        match parse_object(bytes) {
            Err(error) => Err(RecordError::Syntax(error_text(&error))),
            Ok(fields) => TaskData::from_fields(&fields),
        }
    }

    /// The bytes of the record's document, in the compact form.
    pub fn to_bytes(&self) -> (bytes: Vec<u8>)
        ensures
            exists|fields: Seq<(Seq<char>, Value)>|
                fields_encode(fields, self@) && bytes@ == #[trigger] json_document(fields),
    {
        let fields = self.to_fields();
        print_object(&fields)
    }

    /// The bytes of the record's document, indented for a reader.
    pub fn to_bytes_pretty(&self) -> (bytes: Vec<u8>)
        ensures
            exists|fields: Seq<(Seq<char>, Value)>|
                fields_encode(fields, self@) && bytes@ == #[trigger] json_document_pretty(fields),
    {
        let fields = self.to_fields();
        print_object_pretty(&fields)
    }

    pub fn status(&self) -> (status: TaskStatus)
        ensures
            status == self@.status,
    {
        self.status
    }

    pub fn set_status(&mut self, status: TaskStatus)
        ensures
            final(self)@ == old(self)@.with_status(status),
    {
        self.status = status;
    }

    pub fn parent(&self) -> (parent: Option<String>)
        ensures
            optional_text_view(parent) == self@.parent,
    {
        match &self.parent {
            Some(parent) => Some(parent.clone()),
            None => None,
        }
    }

    pub fn set_parent(&mut self, parent: Option<String>)
        ensures
            final(self)@ == (TaskDataView { parent: optional_text_view(parent), ..old(self)@ }),
    {
        self.parent = parent;
    }

    pub fn children(&self) -> (children: Option<Vec<String>>)
        ensures
            optional_texts_view(children) == self@.children,
    {
        match &self.children {
            Some(children) => Some(clone_texts(children)),
            None => None,
        }
    }

    pub fn set_children(&mut self, children: Option<Vec<String>>)
        ensures
            final(self)@ == (TaskDataView {
                children: optional_texts_view(children),
                ..old(self)@
            }),
    {
        self.children = children;
    }

    pub fn waiting(&self) -> (waiting: Option<Vec<String>>)
        ensures
            optional_texts_view(waiting) == self@.waiting,
    {
        match &self.waiting {
            Some(waiting) => Some(clone_texts(waiting)),
            None => None,
        }
    }

    pub fn set_waiting(&mut self, waiting: Option<Vec<String>>)
        ensures
            final(self)@ == (TaskDataView { waiting: optional_texts_view(waiting), ..old(self)@ }),
    {
        self.waiting = waiting;
    }

    /// The value of the payload slot `name`.
    pub fn field(&self, name: &str) -> (value: Option<Value>)
        ensures
            value == self@.slot(name@),
    {
        match find_field(&self.other_fields, name) {
            Some(i) => Some(self.other_fields[i].1.clone()),
            None => None,
        }
    }

    /// A copy of the record.
    pub fn duplicate(&self) -> (copy: TaskData)
        ensures
            copy@ == self@,
    {
        TaskData {
            status: self.status,
            parent: self.parent(),
            children: self.children(),
            waiting: self.waiting(),
            other_fields: clone_fields(&self.other_fields),
        }
    }
}

/// Taking members away leaves no name that was not there.
proof fn lemma_fields_without_wf(fields: Seq<(Seq<char>, Value)>, name: Seq<char>)
    requires
        forall|i: int| 0 <= i < fields.len() ==> !is_known_name(#[trigger] fields[i].0),
    ensures
        forall|i: int|
            0 <= i < fields_without(fields, name).len() ==> !is_known_name(
                #[trigger] fields_without(fields, name)[i].0,
            ),
    decreases fields.len(),
{
    if fields.len() > 0 {
        let shorter = fields.drop_last();
        lemma_fields_without_wf(shorter, name);
        let rest = fields_without(shorter, name);
    }
}

/// The members without those named `name`, in their order.
fn without_field(fields: &Vec<(String, Value)>, name: &str) -> (rest: Vec<(String, Value)>)
    ensures
        fields_view(rest@) == fields_without(fields_view(fields@), name@),
{
    let wanted = String::from_str(name);
    let ghost all = fields_view(fields@);
    let mut rest: Vec<(String, Value)> = Vec::new();
    let mut i: usize = 0;
    while i < fields.len()
        invariant
            i <= fields.len(),
            all == fields_view(fields@),
            wanted@ == name@,
            fields_view(rest@) == fields_without(all.take(i as int), name@),
        decreases fields.len() - i,
    {
        proof {
            assert(all.take(i + 1).drop_last() == all.take(i as int));
        }
        if !(fields[i].0 == wanted) {
            rest.push((fields[i].0.clone(), fields[i].1.clone()));
        }
        i = i + 1;
    }
    assert(all.take(i as int) == all);
    rest
}

/// `task_id` is, byte for byte, one of the ids of `list`.
pub open spec fn list_names(list: Seq<Seq<char>>, task_id: Seq<u8>) -> bool {
    exists|i: int| 0 <= i < list.len() && #[trigger] vstd::utf8::encode_utf8(list[i]) == task_id
}

/// Whether `task_id` is, byte for byte, one of the ids of `list`.
pub fn names_task(list: &Vec<String>, task_id: &[u8]) -> (found: bool)
    ensures
        found == list_names(texts_view(list@), task_id@),
{
    let mut i: usize = 0;
    while i < list.len()
        invariant
            i <= list.len(),
            forall|j: int|
                0 <= j < i ==> #[trigger] vstd::utf8::encode_utf8(texts_view(list@)[j])
                    != task_id@,
        decreases list.len() - i,
    {
        if crate::status::bytes_equal(list[i].as_str().as_bytes(), task_id) {
            assert(vstd::utf8::encode_utf8(texts_view(list@)[i as int]) == task_id@);
            return true;
        }
        i = i + 1;
    }
    false
}

impl TaskDataView {
    /// The record is blocked on the task `task_id`.
    pub open spec fn waits_for(self, task_id: Seq<u8>) -> bool {
        match self.waiting {
            Some(list) => list_names(list, task_id),
            None => false,
        }
    }

    /// What stands in place of a document that could not be read: a record in
    /// the state Error whose slot `error` holds the diagnostic and whose slot
    /// `original` holds the text of the document.
    pub open spec fn is_unparsable(self, message: Seq<char>, original: Seq<u8>) -> bool {
        &&& self.status == TaskStatus::Error
        &&& self.parent is None
        &&& self.children is None
        &&& self.waiting is None
        &&& self.other_fields.len() == 2
        &&& self.other_fields[0].0 == "error"@
        &&& json_shape(self.other_fields[0].1) == JsonShape::Text("unparsable task: "@ + message)
        &&& self.other_fields[1].0 == "original"@
        &&& json_shape(self.other_fields[1].1) == JsonShape::Text(utf8_lossy(original))
    }
}

impl TaskData {
    /// Sets the payload slot `name` to `value`. The four names that the
    /// library reads are no payload slots: for them nothing is stored.
    pub fn set_field(&mut self, name: &str, value: Value) -> (stored: bool)
        ensures
            stored == !is_known_name(name@),
            stored ==> final(self)@ == old(self)@.with_slot(name@, value),
            !stored ==> final(self)@ == old(self)@,
            old(self)@.wf() ==> final(self)@.wf(),
    {
        if is_known(name) {
            return false;
        }
        let ghost before = fields_view(self.other_fields@);
        let mut rest = without_field(&self.other_fields, name);
        let ghost kept = fields_view(rest@);
        rest.push((String::from_str(name), value));
        assert(fields_view(rest@) =~= kept.push((name@, value)));
        self.other_fields = rest;
        proof {
            if old(self)@.wf() {
                lemma_fields_without_wf(before, name@);
            }
        }
        true
    }

    /// Takes the payload slot `name` away.
    pub fn remove_field(&mut self, name: &str)
        ensures
            final(self)@ == old(self)@.without_slot(name@),
            old(self)@.wf() ==> final(self)@.wf(),
    {
        let ghost before = fields_view(self.other_fields@);
        let rest = without_field(&self.other_fields, name);
        self.other_fields = rest;
        proof {
            if old(self)@.wf() {
                lemma_fields_without_wf(before, name@);
            }
        }
    }

    /// Whether the record is blocked on the task `task_id`.
    pub fn waits_for(&self, task_id: &[u8]) -> (waits: bool)
        ensures
            waits == self@.waits_for(task_id@),
    {
        match &self.waiting {
            None => false,
            Some(list) => names_task(list, task_id),
        }
    }

    /// The record that takes the place of a document that could not be read.
    pub fn unparsable(message: &str, original: &[u8]) -> (record: TaskData)
        ensures
            record@.is_unparsable(message@, original@),
            record@.wf(),
    {
        let mut other_fields: Vec<(String, Value)> = Vec::new();
        let diagnostic = String::from_str("unparsable task: ").concat(message);
        other_fields.push((String::from_str("error"), text_value(diagnostic.as_str())));
        let text = text_of_bytes(original);
        other_fields.push((String::from_str("original"), text_value(text.as_str())));
        let record = TaskData {
            status: TaskStatus::Error,
            parent: None,
            children: None,
            waiting: None,
            other_fields,
        };
        proof {
            reveal_strlit("error");
            reveal_strlit("original");
            reveal_strlit("status");
            reveal_strlit("parent");
            reveal_strlit("children");
            reveal_strlit("waiting");
            assert("error"@.len() == 5 && "original"@.len() == 8 && "original"@[0] == 'o');
        }
        record
    }
}

} // verus!
