use vstd::prelude::*;
use vstd::string::*;

use crate::text::{same_text, trim_text, trimmed};

verus! {

/// Where a task stands in the Kanban flow.
#[derive(Clone, Copy, Debug, PartialEq, Eq, Structural)]
pub enum TaskStatus {
    Todo,
    InProgress,
    Done,
}

/// A task as the control and wallpaper windows show it.
#[derive(Clone, Debug, PartialEq, Eq)]
pub struct Task {
    pub id: i64,
    pub title: String,
    pub status: TaskStatus,
    pub scheduled_for: Option<String>,
}

/// The longest title, in characters, that a task may carry.
pub const MAX_TITLE_CHARS: usize = 120;

/// A task title is accepted when, once trimmed, it is neither empty nor
/// longer than the limit.
pub open spec fn title_is_acceptable(title: Seq<char>) -> bool {
    0 < trimmed(title).len() <= MAX_TITLE_CHARS
}

impl Task {
    /// A new to-do task with a trimmed title.
    pub fn new(id: i64, title: String, scheduled_for: Option<String>) -> (r: Result<Task, String>)
        ensures
            match r {
                Ok(task) => {
                    &&& title_is_acceptable(title@)
                    &&& task.id == id
                    &&& task.title@ == trimmed(title@)
                    &&& task.status == TaskStatus::Todo
                    &&& task.scheduled_for == scheduled_for
                },
                Err(message) => {
                    ||| (trimmed(title@).len() == 0 && message@ == "Görev başlığı boş olamaz."@)
                    ||| (trimmed(title@).len() > MAX_TITLE_CHARS
                        && message@ == "Görev başlığı 120 karakterden uzun olamaz."@)
                },
            },
    {
        let title = trim_text(title.as_str());
        let length = title.as_str().unicode_len();
        if length == 0 {
            return Err(String::from_str("Görev başlığı boş olamaz."));
        }
        if length > MAX_TITLE_CHARS {
            return Err(String::from_str("Görev başlığı 120 karakterden uzun olamaz."));
        }
        Ok(Task { id, title, status: TaskStatus::Todo, scheduled_for })
    }
}

/// A title that was accepted and trimmed is accepted again and kept as it is,
/// so a stored task can be rebuilt from its own title.
pub proof fn lemma_accepted_title_is_stable(title: Seq<char>)
    requires
        title_is_acceptable(title),
    ensures
        title_is_acceptable(trimmed(title)),
        trimmed(trimmed(title)) == trimmed(title),
{
    crate::text::lemma_trimmed_is_idempotent(title);
}

impl TaskStatus {
    /// The text under which the value is stored in the database.
    pub open spec fn database_text(self) -> Seq<char> {
        match self {
            TaskStatus::Todo => "todo"@,
            TaskStatus::InProgress => "in_progress"@,
            TaskStatus::Done => "done"@,
        }
    }

    /// The value stored under the given text, if any.
    pub open spec fn parse_database_text(text: Seq<char>) -> Option<TaskStatus> {
        if text == "todo"@ {
            Some(TaskStatus::Todo)
        } else if text == "in_progress"@ {
            Some(TaskStatus::InProgress)
        } else if text == "done"@ {
            Some(TaskStatus::Done)
        } else {
            None
        }
    }

    pub fn as_database_value(self) -> (r: &'static str)
        ensures
            r@ == self.database_text(),
    {
        match self {
            TaskStatus::Todo => "todo",
            TaskStatus::InProgress => "in_progress",
            TaskStatus::Done => "done",
        }
    }

    pub fn from_database_value(value: &str) -> (r: Result<TaskStatus, String>)
        ensures
            match r {
                Ok(parsed) => TaskStatus::parse_database_text(value@) == Some(parsed),
                Err(message) => TaskStatus::parse_database_text(value@) is None
                    && message@ == "Bilinmeyen görev durumu: "@ + value@,
            },
    {
        if same_text(value, "todo") {
            Ok(TaskStatus::Todo)
        } else if same_text(value, "in_progress") {
            Ok(TaskStatus::InProgress)
        } else if same_text(value, "done") {
            Ok(TaskStatus::Done)
        } else {
            Err(String::from_str("Bilinmeyen görev durumu: ").concat(value))
        }
    }
}

/// Reading back the stored text of a task status gives the same value, and
/// a text is read as a value only when it is exactly that value's stored text.
pub proof fn lemma_task_status_database_round_trip(value: TaskStatus, text: Seq<char>)
    ensures
        TaskStatus::parse_database_text(value.database_text()) == Some(value),
        TaskStatus::parse_database_text(text) == Some(value) ==> text == value.database_text(),
{
    reveal_strlit("todo");
    reveal_strlit("in_progress");
    reveal_strlit("done");
    match value {
        TaskStatus::Todo => {
        },
        TaskStatus::InProgress => {
            assert("in_progress"@.len() != "todo"@.len());
        },
        TaskStatus::Done => {
            assert("done"@[0] != "todo"@[0]);
            assert("done"@.len() != "in_progress"@.len());
        },
    }
}

} // verus!
