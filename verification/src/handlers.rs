//! The four actions of the task manager: what each makes of the line that
//! the user typed, what it asks of the store, and what it prints.

use crate::command::{Command, CommandView, ReplyView};
use crate::number::{decimal, decimal_text, parse_i32, parsed_i32};
use crate::store::{StoreError, TableView, TaskTable};
use crate::task::{task_line, task_views, Task, TaskView};
use crate::text::{trim, trimmed};
use crate::timestamp::{earliest_local_text, Moment, Timestamp};
use vstd::prelude::*;
use vstd::string::StringExecFns;

verus! {

/// An action that reads a line from the user before it turns to the store.
#[derive(Clone, Copy, Debug, PartialEq, Eq)]
pub enum Action {
    /// Add a task; the line is its description.
    Add,
    /// Mark a task as completed; the line is its id.
    Complete,
    /// Delete a task; the line is its id.
    Delete,
}

/// What an action does with the line that the user typed: turn it down
/// with a message, or ask the store to carry out a command.
#[derive(Debug, PartialEq, Eq)]
pub enum Decision {
    Reject(String),
    Ask(Command),
}

/// The mathematical value of a [`Decision`].
pub enum DecisionView {
    Reject(Seq<char>),
    Ask(CommandView),
}

impl View for Decision {
    type V = DecisionView;

    open spec fn view(&self) -> DecisionView {
        match self {
            Decision::Reject(message) => DecisionView::Reject(message@),
            Decision::Ask(command) => DecisionView::Ask(command@),
        }
    }
}

/// The description that a typed line gives: the line without the whitespace
/// around it, or nothing where the line is blank.
pub open spec fn typed_description(input: Seq<char>) -> Option<Seq<char>> {
    if trimmed(input).len() == 0 {
        None
    } else {
        Some(trimmed(input))
    }
}

/// The id that a typed line gives: the number that the line holds between
/// the whitespace around it, or nothing where that is no number.
pub open spec fn typed_id(input: Seq<char>) -> Option<i32> {
    parsed_i32(trimmed(input))
}

/// What is printed for a blank description.
pub open spec fn empty_description_text() -> Seq<char> {
    "Task description cannot be empty.\n"@
}

/// What is printed for an id that is no number.
pub open spec fn invalid_id_text() -> Seq<char> {
    "Invalid task ID. Please enter a number.\n"@
}

/// What `action` makes of the typed line. A blank description and an id
/// that is no number are turned down, and the store is not asked.
pub open spec fn decision(action: Action, input: Seq<char>) -> DecisionView {
    match action {
        Action::Add => match typed_description(input) {
            Some(description) => DecisionView::Ask(CommandView::Insert { description }),
            None => DecisionView::Reject(empty_description_text()),
        },
        Action::Complete => match typed_id(input) {
            Some(id) => DecisionView::Ask(CommandView::UpdateCompleted { id: id as int }),
            None => DecisionView::Reject(invalid_id_text()),
        },
        Action::Delete => match typed_id(input) {
            Some(id) => DecisionView::Ask(CommandView::Delete { id: id as int }),
            None => DecisionView::Reject(invalid_id_text()),
        },
    }
}

/// What "add" prints once the store has answered.
pub open spec fn added_text(description: Seq<char>, rows_affected: int) -> Seq<char> {
    if rows_affected > 0 {
        "Task '"@ + description + "' added successfully!\n"@
    } else {
        "Failed to add task.\n"@
    }
}

/// What "mark as completed" prints once the store has answered.
pub open spec fn completed_text(id: int, rows_affected: int) -> Seq<char> {
    if rows_affected > 0 {
        "Task with ID "@ + decimal(id) + " marked as completed.\n"@
    } else {
        "No task found with ID "@ + decimal(id) + ". Nothing updated.\n"@
    }
}

/// What "delete" prints once the store has answered.
pub open spec fn deleted_text(id: int, rows_affected: int) -> Seq<char> {
    if rows_affected > 0 {
        "Task with ID "@ + decimal(id) + " deleted successfully.\n"@
    } else {
        "No task found with ID "@ + decimal(id) + ". Nothing deleted.\n"@
    }
}

/// The lines that list `tasks`, one for each, in order.
pub open spec fn task_lines(tasks: Seq<TaskView>) -> Seq<char>
    decreases tasks.len(),
{
    if tasks.len() == 0 {
        Seq::empty()
    } else {
        task_lines(tasks.drop_last()) + task_line(tasks.last(), tasks.last().created_at.text())
            + "\n"@
    }
}

/// What "list" prints before the first task.
pub open spec fn list_heading() -> Seq<char> {
    "\n--- Your Tasks ---\n"@
}

/// What "list" prints for `tasks`.
pub open spec fn listing_text(tasks: Seq<TaskView>) -> Seq<char> {
    if tasks.len() == 0 {
        "No tasks found.\n"@
    } else {
        list_heading() + task_lines(tasks)
    }
}

/// A listing that stopped at a task whose creation time does not exist in
/// the local time zone.
#[derive(Debug, PartialEq, Eq)]
pub struct BrokenListing {
    /// What was printed before the listing stopped.
    pub printed: String,
    /// The id of the task that could not be shown.
    pub id: i32,
}

/// Whether a listing of `tasks` can stop having printed `printed`, at the
/// task with this id: the heading and the lines of the tasks before that
/// task were printed.
pub open spec fn listing_breaks(tasks: Seq<TaskView>, printed: Seq<char>, id: int) -> bool {
    exists|k: int|
        0 <= k < tasks.len() && (#[trigger] tasks[k]).id == id && printed == list_heading()
            + task_lines(tasks.take(k))
}

/// Reads a description from the typed line.
pub fn read_description(input: &str) -> (description: Option<String>)
    ensures
        match description {
            Some(text) => typed_description(input@) == Some(text@),
            None => typed_description(input@) is None,
        },
{
    let description = trim(input);
    if description.is_empty() {
        None
    } else {
        Some(String::from_str(description))
    }
}

/// Reads a task id from the typed line.
pub fn read_id(input: &str) -> (id: Option<i32>)
    ensures
        id == typed_id(input@),
{
    parse_i32(trim(input))
}

/// Decides what `action` does with the typed line.
pub fn decide(action: Action, input: &str) -> (outcome: Decision)
    ensures
        outcome@ == decision(action, input@),
{
    match action {
        Action::Add => match read_description(input) {
            Some(description) => Decision::Ask(Command::Insert { description }),
            None => Decision::Reject(String::from_str("Task description cannot be empty.\n")),
        },
        Action::Complete => match read_id(input) {
            Some(id) => Decision::Ask(Command::UpdateCompleted { id }),
            None => Decision::Reject(String::from_str("Invalid task ID. Please enter a number.\n")),
        },
        Action::Delete => match read_id(input) {
            Some(id) => Decision::Ask(Command::Delete { id }),
            None => Decision::Reject(String::from_str("Invalid task ID. Please enter a number.\n")),
        },
    }
}

/// "Add": the message for the store's answer.
pub fn report_added(description: &str, rows_affected: u64) -> (text: String)
    ensures
        text@ == added_text(description@, rows_affected as int),
{
    if rows_affected > 0 {
        let mut text = String::from_str("Task '");
        text.append(description);
        text.append("' added successfully!\n");
        text
    } else {
        String::from_str("Failed to add task.\n")
    }
}

/// "Mark as completed": the message for the store's answer.
pub fn report_completed(id: i32, rows_affected: u64) -> (text: String)
    ensures
        text@ == completed_text(id as int, rows_affected as int),
{
    let number = decimal_text(id);
    if rows_affected > 0 {
        let mut text = String::from_str("Task with ID ");
        text.append(number.as_str());
        text.append(" marked as completed.\n");
        text
    } else {
        let mut text = String::from_str("No task found with ID ");
        text.append(number.as_str());
        text.append(". Nothing updated.\n");
        text
    }
}

/// "Delete": the message for the store's answer.
pub fn report_deleted(id: i32, rows_affected: u64) -> (text: String)
    ensures
        text@ == deleted_text(id as int, rows_affected as int),
{
    let number = decimal_text(id);
    if rows_affected > 0 {
        let mut text = String::from_str("Task with ID ");
        text.append(number.as_str());
        text.append(" deleted successfully.\n");
        text
    } else {
        let mut text = String::from_str("No task found with ID ");
        text.append(number.as_str());
        text.append(". Nothing deleted.\n");
        text
    }
}

/// The values of a list of readings.
pub open spec fn reading_views(readings: Seq<Option<String>>) -> Seq<Option<Seq<char>>> {
    readings.map_values(
        |reading: Option<String>|
            match reading {
                Some(text) => Some(text@),
                None => None,
            },
    )
}

/// The reading for the task at `i`; a task without one has none.
pub open spec fn reading_at(readings: Seq<Option<Seq<char>>>, i: int) -> Option<Seq<char>> {
    if 0 <= i < readings.len() {
        readings[i]
    } else {
        None
    }
}

/// The lines that list the first `n` of `tasks`, each with its reading as
/// the creation time.
pub open spec fn lines_as_read(
    tasks: Seq<TaskView>,
    readings: Seq<Option<Seq<char>>>,
    n: nat,
) -> Seq<char>
    decreases n,
{
    if n == 0 {
        Seq::empty()
    } else {
        lines_as_read(tasks, readings, (n - 1) as nat) + task_line(
            tasks[n - 1],
            reading_at(readings, n - 1)->0,
        ) + "\n"@
    }
}

/// The listing of `tasks` with these readings of their creation times: with
/// no tasks, the message that says so; with a reading for every task, the
/// heading and a line for each; otherwise `None`.
pub open spec fn whole_listing(tasks: Seq<TaskView>, readings: Seq<Option<Seq<char>>>) -> Option<
    Seq<char>,
> {
    if tasks.len() == 0 {
        Some("No tasks found.\n"@)
    } else if forall|i: int| 0 <= i < tasks.len() ==> reading_at(readings, i) is Some {
        Some(list_heading() + lines_as_read(tasks, readings, tasks.len()))
    } else {
        None
    }
}

/// Whether `k` is the first task without a reading.
pub open spec fn first_unread(tasks: Seq<TaskView>, readings: Seq<Option<Seq<char>>>, k: int) -> bool {
    &&& 0 <= k < tasks.len()
    &&& reading_at(readings, k) is None
    &&& forall|i: int| 0 <= i < k ==> reading_at(readings, i) is Some
}

/// "List": the text for the rows that the store found, given how the local
/// time zone reads the creation time of each: `readings[i]` for `tasks[i]`,
/// `None` where that time does not exist there.
///
/// The listing stops at the first task without a reading, after the heading
/// and the lines of the tasks before it.
pub fn render_readings(tasks: &Vec<Task>, readings: &Vec<Option<String>>) -> (outcome: Result<
    String,
    BrokenListing,
>)
    ensures
        match outcome {
            Ok(text) => whole_listing(task_views(tasks@), reading_views(readings@)) == Some(text@),
            Err(broken) => exists|k: int|
                {
                    &&& #[trigger] first_unread(task_views(tasks@), reading_views(readings@), k)
                    &&& broken.id == tasks[k].id
                    &&& broken.printed@ == list_heading() + lines_as_read(
                        task_views(tasks@),
                        reading_views(readings@),
                        k as nat,
                    )
                },
        },
{
    if tasks.len() == 0 {
        return Ok(String::from_str("No tasks found.\n"));
    }
    let ghost views = task_views(tasks@);
    let ghost read = reading_views(readings@);
    let mut text = String::from_str("\n--- Your Tasks ---\n");
    let mut i: usize = 0;
    while i < tasks.len()
        invariant
            i <= tasks.len(),
            views == task_views(tasks@),
            read == reading_views(readings@),
            forall|j: int| 0 <= j < i ==> reading_at(read, j) is Some,
            text@ == list_heading() + lines_as_read(views, read, i as nat),
        decreases tasks.len() - i,
    {
        if i < readings.len() {
            match &readings[i] {
                Some(created) => {
                    let line = tasks[i].line(created.as_str());
                    text.append(line.as_str());
                    text.append("\n");
                },
                None => {
                    assert(first_unread(views, read, i as int));
                    return Err(BrokenListing { printed: text, id: tasks[i].id });
                },
            }
        } else {
            assert(first_unread(views, read, i as int));
            return Err(BrokenListing { printed: text, id: tasks[i].id });
        }
        i += 1;
    }
    Ok(text)
}

/// With the creation time of each task as its reading, the lines as read
/// are the lines of the tasks.
proof fn lemma_lines_as_read(tasks: Seq<TaskView>, readings: Seq<Option<Seq<char>>>, n: nat)
    requires
        n <= tasks.len(),
        forall|i: int|
            0 <= i < n ==> reading_at(readings, i) == Some(
                (#[trigger] tasks[i]).created_at.text(),
            ),
    ensures
        lines_as_read(tasks, readings, n) == task_lines(tasks.take(n as int)),
    decreases n,
{
    if n > 0 {
        lemma_lines_as_read(tasks, readings, (n - 1) as nat);
        assert(tasks.take(n as int).drop_last() =~= tasks.take(n - 1));
    }
}

/// How the time zone of the machine reads the creation times of `tasks`, up
/// to the first that it cannot read.
fn local_readings(tasks: &Vec<Task>) -> (readings: Vec<Option<String>>)
    ensures
        readings.len() <= tasks.len(),
        forall|i: int|
            0 <= i < readings.len() ==> ((#[trigger] readings[i]) matches Some(text) ==> text@
                == tasks[i]@.created_at.text()),
        forall|i: int| 0 <= i < readings.len() - 1 ==> (#[trigger] readings[i]) is Some,
        readings.len() < tasks.len() ==> readings.len() > 0 && readings[readings.len() - 1] is None,
{
    let mut readings: Vec<Option<String>> = Vec::new();
    let mut i: usize = 0;
    while i < tasks.len()
        invariant
            i <= tasks.len(),
            readings.len() == i,
            forall|j: int|
                0 <= j < i ==> ((#[trigger] readings[j]) matches Some(text) && text@
                    == tasks[j]@.created_at.text()),
        decreases tasks.len() - i,
    {
        let stamp = tasks[i].created_at;
        proof {
            use_type_invariant(&stamp);
        }
        let reading = earliest_local_text(&stamp);
        let stop = reading.is_none();
        readings.push(reading);
        if stop {
            return readings;
        }
        i += 1;
    }
    readings
}

/// "List": the text for the rows that the store found.
///
/// The creation time of each task is read in the time zone of the machine,
/// the earlier reading where there are two. The listing stops at the first
/// task whose creation time has no reading there. With no rows nothing is
/// read or formatted, and the listing does not stop.
pub fn render_list(tasks: &Vec<Task>) -> (outcome: Result<String, BrokenListing>)
    ensures
        match outcome {
            Ok(text) => text@ == listing_text(task_views(tasks@)),
            Err(broken) => listing_breaks(task_views(tasks@), broken.printed@, broken.id as int),
        },
        tasks.len() == 0 ==> outcome is Ok,
{
    let readings = local_readings(tasks);
    let outcome = render_readings(tasks, &readings);
    proof {
        let views = task_views(tasks@);
        let read = reading_views(readings@);
        if outcome is Ok {
            if tasks.len() > 0 {
                lemma_lines_as_read(views, read, views.len());
                assert(views.take(views.len() as int) =~= views);
            }
        } else {
            let broken = outcome->Err_0;
            let k = choose|k: int|
                {
                    &&& #[trigger] first_unread(views, read, k)
                    &&& broken.id == tasks[k].id
                    &&& broken.printed@ == list_heading() + lines_as_read(views, read, k as nat)
                };
            lemma_lines_as_read(views, read, k as nat);
            assert(views[k].id == broken.id);
        }
    }
    outcome
}

/// What is printed for the store's answer to a command, where the answer is
/// one to that command: a count of rows for an insertion, an update or a
/// deletion, rows for a listing.
pub open spec fn report_text(command: CommandView, reply: ReplyView) -> Option<Seq<char>> {
    match (command, reply) {
        (CommandView::Insert { description }, ReplyView::RowsAffected(n)) => Some(
            added_text(description, n),
        ),
        (CommandView::ListOrdered, ReplyView::Rows(tasks)) => Some(listing_text(tasks)),
        (CommandView::UpdateCompleted { id }, ReplyView::RowsAffected(n)) => Some(
            completed_text(id, n),
        ),
        (CommandView::Delete { id }, ReplyView::RowsAffected(n)) => Some(deleted_text(id, n)),
        _ => None,
    }
}

/// The text for a count of rows as the store's answer to a command, or
/// nothing where a count is no answer to the command.
pub fn report_count(command: &Command, rows_affected: u64) -> (text: Option<String>)
    ensures
        match text {
            Some(text) => report_text(command@, ReplyView::RowsAffected(rows_affected as int))
                == Some(text@),
            None => report_text(command@, ReplyView::RowsAffected(rows_affected as int)) is None,
        },
{
    match command {
        Command::Insert { description } => Some(report_added(description.as_str(), rows_affected)),
        Command::ListOrdered => None,
        Command::UpdateCompleted { id } => Some(report_completed(*id, rows_affected)),
        Command::Delete { id } => Some(report_deleted(*id, rows_affected)),
    }
}

/// The table after "add" with this typed description, at `now`.
pub open spec fn after_add(table: TableView, input: Seq<char>, now: Moment) -> TableView {
    match typed_description(input) {
        Some(description) => if table.can_insert() {
            table.inserted(description, now)
        } else {
            table
        },
        None => table,
    }
}

/// What "add" prints for this typed description, or how it fails.
pub open spec fn add_outcome(table: TableView, input: Seq<char>) -> Result<Seq<char>, StoreError> {
    match typed_description(input) {
        Some(description) => if table.can_insert() {
            Ok(added_text(description, 1))
        } else {
            Err(StoreError::OutOfIds)
        },
        None => Ok(empty_description_text()),
    }
}

/// The table after "mark as completed" with this typed id.
pub open spec fn after_complete(table: TableView, input: Seq<char>) -> TableView {
    match typed_id(input) {
        Some(id) => table.completed(id as int),
        None => table,
    }
}

/// What "mark as completed" prints for this typed id.
pub open spec fn complete_output(table: TableView, input: Seq<char>) -> Seq<char> {
    match typed_id(input) {
        Some(id) => completed_text(id as int, table.matching(id as int) as int),
        None => invalid_id_text(),
    }
}

/// The table after "delete" with this typed id.
pub open spec fn after_delete(table: TableView, input: Seq<char>) -> TableView {
    match typed_id(input) {
        Some(id) => table.deleted(id as int),
        None => table,
    }
}

/// What "delete" prints for this typed id.
pub open spec fn delete_output(table: TableView, input: Seq<char>) -> Seq<char> {
    match typed_id(input) {
        Some(id) => deleted_text(id as int, table.matching(id as int) as int),
        None => invalid_id_text(),
    }
}

/// "Add" on a table in memory: takes the typed description, inserts the
/// task at `now` and gives the text to print. Blank text changes nothing.
/// Fails, changing nothing, when the table has no id left.
pub fn add_task(table: &mut TaskTable, input: &str, now: Timestamp) -> (outcome: Result<
    String,
    StoreError,
>)
    ensures
        final(table)@ == after_add(old(table)@, input@, now@),
        match outcome {
            Ok(text) => add_outcome(old(table)@, input@) == Ok::<Seq<char>, StoreError>(text@),
            Err(e) => add_outcome(old(table)@, input@) == Err::<Seq<char>, StoreError>(e),
        },
{
    match read_description(input) {
        Some(description) => {
            let shown = description.clone();
            match table.insert(description, now) {
                Ok(rows_affected) => Ok(report_added(shown.as_str(), rows_affected)),
                Err(e) => Err(e),
            }
        },
        None => Ok(String::from_str("Task description cannot be empty.\n")),
    }
}

/// "List" on a table in memory: the text to print for its tasks, newest
/// first. The listing may stop at a creation time that does not exist in
/// the time zone of the machine.
pub fn list_tasks(table: &TaskTable) -> (outcome: Result<String, BrokenListing>)
    ensures
        match outcome {
            Ok(text) => text@ == listing_text(table@.rows),
            Err(broken) => listing_breaks(table@.rows, broken.printed@, broken.id as int),
        },
        table@.rows.len() == 0 ==> outcome is Ok,
{
    let tasks = table.list_ordered();
    render_list(&tasks)
}

/// "Mark as completed" on a table in memory: takes the typed id, marks the
/// task and gives the text to print. Text that is no number, or the id of
/// no task, changes nothing.
pub fn mark_task_completed(table: &mut TaskTable, input: &str) -> (text: String)
    ensures
        final(table)@ == after_complete(old(table)@, input@),
        text@ == complete_output(old(table)@, input@),
{
    match read_id(input) {
        Some(id) => {
            let rows_affected = table.update_completed(id);
            report_completed(id, rows_affected)
        },
        None => String::from_str("Invalid task ID. Please enter a number.\n"),
    }
}

/// "Delete" on a table in memory: takes the typed id, removes the task and
/// gives the text to print. Text that is no number, or the id of no task,
/// changes nothing.
pub fn delete_task(table: &mut TaskTable, input: &str) -> (text: String)
    ensures
        final(table)@ == after_delete(old(table)@, input@),
        text@ == delete_output(old(table)@, input@),
{
    match read_id(input) {
        Some(id) => {
            let rows_affected = table.delete(id);
            report_deleted(id, rows_affected)
        },
        None => String::from_str("Invalid task ID. Please enter a number.\n"),
    }
}

} // verus!
