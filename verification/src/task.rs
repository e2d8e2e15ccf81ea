//! The task, its status, and the record by which a task is stored.

use crate::time::Timestamp;
use vstd::prelude::*;

verus! {

/// Where a task stands. A task starts as `Todo`; any status may follow any
/// other.
#[derive(Clone, Copy, Debug, PartialEq, Eq, Structural)]
pub enum Status {
    Todo,
    InProgress,
    Done,
}

impl Status {
    /// The word by which a status is written in listings and in the store.
    pub open spec fn label_text(self) -> Seq<char> {
        match self {
            Status::Todo => "todo"@,
            Status::InProgress => "in-progress"@,
            Status::Done => "done"@,
        }
    }

    /// The status that a word names, if it names one.
    pub open spec fn named_by(word: Seq<char>) -> Option<Status> {
        if word == "todo"@ {
            Some(Status::Todo)
        } else if word == "in-progress"@ {
            Some(Status::InProgress)
        } else if word == "done"@ {
            Some(Status::Done)
        } else {
            None
        }
    }

    /// The word by which this status is written.
    pub fn label(&self) -> (word: String)
        ensures
            word@ == self.label_text(),
    {
        match self {
            Status::Todo => String::from_str("todo"),
            Status::InProgress => String::from_str("in-progress"),
            Status::Done => String::from_str("done"),
        }
    }

    /// Reads a status from its word; `None` for any other text.
    pub fn from_label(word: &str) -> (status: Option<Status>)
        ensures
            status == Status::named_by(word@),
    {
        let word = String::from_str(word);
        if word == String::from_str("todo") {
            Some(Status::Todo)
        } else if word == String::from_str("in-progress") {
            Some(Status::InProgress)
        } else if word == String::from_str("done") {
            Some(Status::Done)
        } else {
            None
        }
    }
}

/// Reading back the word of a status gives that status.
pub proof fn lemma_label_round_trip(status: Status)
    ensures
        Status::named_by(status.label_text()) == Some(status),
{
    reveal_strlit("todo");
    reveal_strlit("in-progress");
    reveal_strlit("done");
    assert("done"@[0] == 'd');
    assert("todo"@[0] == 't');
}

/// One trackable entry.
#[derive(Clone, Debug, PartialEq, Eq)]
pub struct Task {
    /// The number by which commands name the task; at least 1 and held by no
    /// other task of a collection.
    pub id: u32,
    /// Free text, set when the task is added and replaced by an update.
    pub description: String,
    pub status: Status,
    /// When the task was added. Nothing changes it afterwards.
    pub created_at: Timestamp,
    /// When the description or the status was last set.
    pub updated_at: Timestamp,
}

/// A task as contracts speak of it: the description is its text.
pub struct TaskView {
    pub id: u32,
    pub description: Seq<char>,
    pub status: Status,
    pub created_at: Timestamp,
    pub updated_at: Timestamp,
}

impl View for Task {
    type V = TaskView;

    open spec fn view(&self) -> TaskView {
        TaskView {
            id: self.id,
            description: self.description@,
            status: self.status,
            created_at: self.created_at,
            updated_at: self.updated_at,
        }
    }
}

/// A task as it is stored: the status is written as its word.
#[derive(Clone, Debug, PartialEq, Eq)]
pub struct TaskRecord {
    pub id: u32,
    pub description: String,
    pub status: String,
    pub created_at: Timestamp,
    pub updated_at: Timestamp,
}

/// A stored task as contracts speak of it.
pub struct RecordView {
    pub id: u32,
    pub description: Seq<char>,
    pub status: Seq<char>,
    pub created_at: Timestamp,
    pub updated_at: Timestamp,
}

impl View for TaskRecord {
    type V = RecordView;

    open spec fn view(&self) -> RecordView {
        RecordView {
            id: self.id,
            description: self.description@,
            status: self.status@,
            created_at: self.created_at,
            updated_at: self.updated_at,
        }
    }
}

/// The record that stores `task`.
pub open spec fn record_of(task: TaskView) -> RecordView {
    RecordView {
        id: task.id,
        description: task.description,
        status: task.status.label_text(),
        created_at: task.created_at,
        updated_at: task.updated_at,
    }
}

/// The task that `record` stores, if its status word names a status.
pub open spec fn task_of(record: RecordView) -> Option<TaskView> {
    match Status::named_by(record.status) {
        Some(status) => Some(
            TaskView {
                id: record.id,
                description: record.description,
                status,
                created_at: record.created_at,
                updated_at: record.updated_at,
            },
        ),
        None => None,
    }
}

/// The view of an optional task.
pub open spec fn task_view(task: Option<Task>) -> Option<TaskView> {
    match task {
        Some(t) => Some(t@),
        None => None,
    }
}

/// A stored task is read back as it was.
pub proof fn lemma_record_round_trip(task: TaskView)
    ensures
        task_of(record_of(task)) == Some(task),
{
    lemma_label_round_trip(task.status);
}

impl Task {
    /// A fresh task: status `Todo`, created and last updated at `now`.
    pub fn new(id: u32, description: String, now: Timestamp) -> (task: Task)
        ensures
            task@ == (TaskView {
                id,
                description: description@,
                status: Status::Todo,
                created_at: now,
                updated_at: now,
            }),
    {
        Task { id, description, status: Status::Todo, created_at: now, updated_at: now }
    }

    /// The record by which the task is stored.
    pub fn to_record(&self) -> (record: TaskRecord)
        ensures
            record@ == record_of(self@),
    {
        TaskRecord {
            id: self.id,
            description: self.description.clone(),
            status: self.status.label(),
            created_at: self.created_at,
            updated_at: self.updated_at,
        }
    }

    /// The task that a record stores; `None` where its status word names no
    /// status.
    pub fn from_record(record: &TaskRecord) -> (task: Option<Task>)
        ensures
            task_view(task) == task_of(record@),
    {
        match Status::from_label(record.status.as_str()) {
            Some(status) => Some(
                Task {
                    id: record.id,
                    description: record.description.clone(),
                    status,
                    created_at: record.created_at,
                    updated_at: record.updated_at,
                },
            ),
            None => None,
        }
    }
}

} // verus!
