//! The task record and the line that displays it.

use crate::number::{decimal, decimal_text};
use crate::timestamp::{Moment, Timestamp};
use vstd::prelude::*;
use vstd::string::StringExecFns;

verus! {

/// One row of the task table.
#[derive(Debug, PartialEq, Eq)]
pub struct Task {
    pub id: i32,
    pub description: String,
    pub completed: bool,
    pub created_at: Timestamp,
}

/// The mathematical value of a [`Task`].
pub struct TaskView {
    pub id: int,
    pub description: Seq<char>,
    pub completed: bool,
    pub created_at: Moment,
}

impl View for Task {
    type V = TaskView;

    open spec fn view(&self) -> TaskView {
        TaskView {
            id: self.id as int,
            description: self.description@,
            completed: self.completed,
            created_at: self.created_at@,
        }
    }
}

/// The values of a list of tasks.
pub open spec fn task_views(tasks: Seq<Task>) -> Seq<TaskView> {
    tasks.map_values(|t: Task| t@)
}

/// The tag that shows whether a task is done.
pub open spec fn status_tag(completed: bool) -> Seq<char> {
    if completed {
        "[COMPLETED]"@
    } else {
        "[PENDING]"@
    }
}

/// The line that lists `task`, given its creation time as displayed.
pub open spec fn task_line(task: TaskView, created: Seq<char>) -> Seq<char> {
    "ID: "@ + decimal(task.id) + ", "@ + status_tag(task.completed) + " Description: '"@
        + task.description + "' (Created: "@ + created + ")"@
}

impl Task {
    /// A copy of the task.
    pub fn duplicate(&self) -> (copy: Task)
        ensures
            copy@ == self@,
    {
        Task {
            id: self.id,
            description: self.description.clone(),
            completed: self.completed,
            created_at: self.created_at,
        }
    }

    /// The line that lists the task, with `created` as its creation time.
    pub fn line(&self, created: &str) -> (line: String)
        ensures
            line@ == task_line(self@, created@),
    {
        let mut line = String::from_str("ID: ");
        let id = decimal_text(self.id);
        line.append(id.as_str());
        line.append(", ");
        line.append(if self.completed {
            "[COMPLETED]"
        } else {
            "[PENDING]"
        });
        line.append(" Description: '");
        line.append(self.description.as_str());
        line.append("' (Created: ");
        line.append(created);
        line.append(")");
        line
    }
}

} // verus!
