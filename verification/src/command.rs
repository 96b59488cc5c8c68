//! What the task manager asks of its store, and what the store answers.

use crate::task::{task_views, Task, TaskView};
use vstd::prelude::*;

verus! {

/// One of the four operations of the task store.
#[derive(Debug, PartialEq, Eq)]
pub enum Command {
    /// Add a task with this description.
    Insert { description: String },
    /// Read all tasks, newest first.
    ListOrdered,
    /// Mark the task with this id as completed.
    UpdateCompleted { id: i32 },
    /// Remove the task with this id.
    Delete { id: i32 },
}

/// The mathematical value of a [`Command`].
pub enum CommandView {
    Insert { description: Seq<char> },
    ListOrdered,
    UpdateCompleted { id: int },
    Delete { id: int },
}

impl View for Command {
    type V = CommandView;

    open spec fn view(&self) -> CommandView {
        match self {
            Command::Insert { description } => CommandView::Insert { description: description@ },
            Command::ListOrdered => CommandView::ListOrdered,
            Command::UpdateCompleted { id } => CommandView::UpdateCompleted { id: *id as int },
            Command::Delete { id } => CommandView::Delete { id: *id as int },
        }
    }
}

/// The value bound to the placeholder of a statement.
#[derive(Debug, PartialEq, Eq)]
pub enum Parameter {
    Text(String),
    Integer(i32),
}

/// The mathematical value of a [`Parameter`].
pub enum ParameterView {
    Text(Seq<char>),
    Integer(int),
}

impl View for Parameter {
    type V = ParameterView;

    open spec fn view(&self) -> ParameterView {
        match self {
            Parameter::Text(text) => ParameterView::Text(text@),
            Parameter::Integer(n) => ParameterView::Integer(*n as int),
        }
    }
}

impl CommandView {
    /// The statement of the command. It is fixed text for each kind of
    /// command: the description or id of the command is no part of it, and
    /// reaches the store only as the statement's parameter.
    pub open spec fn statement(self) -> Seq<char> {
        match self {
            CommandView::Insert { .. } => "INSERT INTO tasks (description) VALUES (?)"@,
            CommandView::ListOrdered =>
                "SELECT id, description, completed, created_at FROM tasks ORDER BY created_at DESC"@,
            CommandView::UpdateCompleted { .. } => "UPDATE tasks SET completed = TRUE WHERE id = ?"@,
            CommandView::Delete { .. } => "DELETE FROM tasks WHERE id = ?"@,
        }
    }

    /// The value for the statement's placeholder, where it has one.
    pub open spec fn parameter(self) -> Option<ParameterView> {
        match self {
            CommandView::Insert { description } => Some(ParameterView::Text(description)),
            CommandView::ListOrdered => None,
            CommandView::UpdateCompleted { id } => Some(ParameterView::Integer(id)),
            CommandView::Delete { id } => Some(ParameterView::Integer(id)),
        }
    }
}

impl Command {
    /// The parameterized statement that carries out the command.
    pub fn statement(&self) -> (sql: &'static str)
        ensures
            sql@ == self@.statement(),
    {
        match self {
            Command::Insert { .. } => "INSERT INTO tasks (description) VALUES (?)",
            Command::ListOrdered =>
                "SELECT id, description, completed, created_at FROM tasks ORDER BY created_at DESC",
            Command::UpdateCompleted { .. } => "UPDATE tasks SET completed = TRUE WHERE id = ?",
            Command::Delete { .. } => "DELETE FROM tasks WHERE id = ?",
        }
    }

    /// The value to bind to the statement's placeholder, where it has one.
    pub fn parameter(&self) -> (bound: Option<Parameter>)
        ensures
            match bound {
                Some(p) => self@.parameter() == Some(p@),
                None => self@.parameter() is None,
            },
    {
        match self {
            Command::Insert { description } => Some(Parameter::Text(description.clone())),
            Command::ListOrdered => None,
            Command::UpdateCompleted { id } => Some(Parameter::Integer(*id)),
            Command::Delete { id } => Some(Parameter::Integer(*id)),
        }
    }

    /// A copy of the command.
    pub fn duplicate(&self) -> (copy: Command)
        ensures
            copy@ == self@,
    {
        match self {
            Command::Insert { description } => Command::Insert { description: description.clone() },
            Command::ListOrdered => Command::ListOrdered,
            Command::UpdateCompleted { id } => Command::UpdateCompleted { id: *id },
            Command::Delete { id } => Command::Delete { id: *id },
        }
    }
}

/// What the store answers to a command that it carried out.
#[derive(Debug, PartialEq, Eq)]
pub enum Reply {
    /// How many rows a statement touched.
    RowsAffected(u64),
    /// The rows that a query found, in its order.
    Rows(Vec<Task>),
}

/// The mathematical value of a [`Reply`].
pub enum ReplyView {
    RowsAffected(int),
    Rows(Seq<TaskView>),
}

impl View for Reply {
    type V = ReplyView;

    open spec fn view(&self) -> ReplyView {
        match self {
            Reply::RowsAffected(n) => ReplyView::RowsAffected(*n as int),
            Reply::Rows(tasks) => ReplyView::Rows(task_views(tasks@)),
        }
    }
}

} // verus!
