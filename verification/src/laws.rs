//! What holds of the actions whatever the table and the typed line.

use crate::command::CommandView;
use crate::handlers::{
    add_outcome, added_text, after_add, after_complete, after_delete, complete_output,
    completed_text, delete_output, deleted_text, empty_description_text, typed_id, Action,
};
use crate::number::{decimal, lemma_decimal_digits, lemma_decimal_reads_back};
use crate::session::fed;
use crate::shell::{
    has_ended, invalid_choice_text, menu_choice, menu_text, next, step_allowed, Abort, Choice,
    EventView, StateView,
};
use crate::store::{
    lemma_absent_id, lemma_deleted_valid, lemma_inserted, lemma_present_id, newer_rows,
    StoreError, TableView,
};
use crate::task::TaskView;
use crate::text::{is_blank, is_space, lemma_trimmed, lemma_trimmed_fixed, trimmed};
use crate::timestamp::Moment;
use vstd::prelude::*;

verus! {

/// After "add" with a description that is not blank, the listing holds
/// exactly one task more: the tasks that it held before, in their order, and
/// among them one new task. The new task has the typed description (without
/// the whitespace around it: the typed line itself where it has none), is
/// not completed, and has an id that no task of the table has or ever had.
pub proof fn law_add_then_list(table: TableView, input: Seq<char>, now: Moment)
    requires
        table.is_valid(),
        now.is_valid(),
        table.can_insert(),
        !is_blank(input),
    ensures
        ({
            let after = after_add(table, input, now);
            let at = newer_rows(table.rows, now) as int;
            &&& add_outcome(table, input) == Ok::<Seq<char>, StoreError>(
                added_text(trimmed(input), 1),
            )
            &&& after.is_valid()
            &&& 0 <= at < after.rows.len()
            &&& after.rows.len() == table.rows.len() + 1
            &&& after.rows.remove(at) == table.rows
            &&& after.rows[at].description == trimmed(input)
            &&& !is_space(input.first()) && !is_space(input.last()) ==> after.rows[at].description
                == input
            &&& !after.rows[at].completed
            &&& after.rows[at].created_at == now
            &&& !table.holds(after.rows[at].id)
            &&& after.rows[at].id > table.last_id
        }),
{
    lemma_trimmed(input);
    lemma_inserted(table, trimmed(input), now);
}

/// "Add" with a blank description, empty or made of whitespace, changes
/// nothing in the table, and prints the same message for each.
pub proof fn law_blank_description(table: TableView, input: Seq<char>, now: Moment)
    requires
        is_blank(input),
    ensures
        after_add(table, input, now) == table,
        add_outcome(table, input) == Ok::<Seq<char>, StoreError>(empty_description_text()),
{
    lemma_trimmed(input);
}

/// "Mark as completed" and "delete" with an id that no task has report that
/// no task was found, and change nothing in the table.
pub proof fn law_unknown_id(table: TableView, input: Seq<char>, id: i32)
    requires
        typed_id(input) == Some(id),
        !table.holds(id as int),
    ensures
        after_complete(table, input) == table,
        complete_output(table, input) == completed_text(id as int, 0),
        after_delete(table, input) == table,
        delete_output(table, input) == deleted_text(id as int, 0),
{
    lemma_absent_id(table, id as int);
}

/// "Mark as completed" twice with the id of a task: the task is completed
/// after the first time and after the second, the second changes nothing,
/// and both report success.
pub proof fn law_complete_twice(table: TableView, input: Seq<char>, id: i32)
    requires
        table.is_valid(),
        typed_id(input) == Some(id),
        table.holds(id as int),
    ensures
        ({
            let once = after_complete(table, input);
            let twice = after_complete(once, input);
            &&& twice == once
            &&& once.is_valid()
            &&& once.rows.len() == table.rows.len()
            &&& forall|i: int|
                0 <= i < once.rows.len() && (#[trigger] once.rows[i]).id == id
                    ==> once.rows[i].completed
            &&& complete_output(table, input) == completed_text(id as int, 1)
            &&& complete_output(once, input) == completed_text(id as int, 1)
        }),
{
    let i = choose|i: int| 0 <= i < table.rows.len() && (#[trigger] table.rows[i]).id == id;
    let once = table.completed(id as int);
    lemma_present_id(table, id as int, i);
    lemma_present_id(once, id as int, i);
    assert(once.completed(id as int).rows =~= once.rows);
}

/// "Delete" twice with the id of a task: the first reports success and
/// removes the task, the second reports that no task was found and changes
/// nothing.
pub proof fn law_delete_twice(table: TableView, input: Seq<char>, id: i32)
    requires
        table.is_valid(),
        typed_id(input) == Some(id),
        table.holds(id as int),
    ensures
        ({
            let once = after_delete(table, input);
            let twice = after_delete(once, input);
            &&& delete_output(table, input) == deleted_text(id as int, 1)
            &&& once.is_valid()
            &&& once.rows.len() == table.rows.len() - 1
            &&& !once.holds(id as int)
            &&& delete_output(once, input) == deleted_text(id as int, 0)
            &&& twice == once
        }),
{
    let i = choose|i: int| 0 <= i < table.rows.len() && (#[trigger] table.rows[i]).id == id;
    let once = table.deleted(id as int);
    lemma_present_id(table, id as int, i);
    lemma_deleted_valid(table, id as int);
    assert(!once.holds(id as int));
    lemma_absent_id(once, id as int);
}

/// At the menu, a line that is no choice leaves the shell at the menu: the
/// store is not asked, and the menu is printed again behind the complaint.
pub proof fn law_invalid_choice(line: Seq<char>)
    requires
        menu_choice(line) == Choice::Invalid,
    ensures
        next(StateView::Menu, EventView::Line(line)) == (
            StateView::Menu,
            invalid_choice_text() + menu_text(),
        ),
{
}

/// Whether `after` is the task `before` at a later time: the same id,
/// description and creation time, and completed if `before` was.
pub open spec fn carried_on(before: TaskView, after: TaskView) -> bool {
    &&& after.id == before.id
    &&& after.description == before.description
    &&& after.created_at == before.created_at
    &&& before.completed ==> after.completed
}

/// Whether `row` is a task that `table` held, carried on.
pub open spec fn held_before(table: TableView, row: TaskView) -> bool {
    exists|i: int| 0 <= i < table.rows.len() && carried_on(#[trigger] table.rows[i], row)
}

/// Whatever the store is asked, the table stays valid and gives out ids
/// upwards only, and every task that it holds afterwards is either new, with
/// an id above every id given out before, or a task that it held before:
/// with its id, its description and its creation time, and still completed
/// if it was.
pub proof fn law_tasks_keep_their_fields(table: TableView, command: CommandView, now: Moment)
    requires
        table.is_valid(),
        now.is_valid(),
        command matches CommandView::Insert { description } ==> description.len() > 0,
    ensures
        table.after(command, now).is_valid(),
        table.after(command, now).last_id >= table.last_id,
        forall|j: int|
            0 <= j < table.after(command, now).rows.len() ==> {
                ||| (#[trigger] table.after(command, now).rows[j]).id > table.last_id
                ||| held_before(table, table.after(command, now).rows[j])
            },
{
    match command {
        CommandView::Insert { description } => {
            if table.can_insert() {
                lemma_inserted(table, description, now);
            }
        },
        CommandView::Delete { id } => {
            if table.holds(id) {
                let gone = choose|i: int|
                    0 <= i < table.rows.len() && (#[trigger] table.rows[i]).id == id;
                lemma_present_id(table, id, gone);
            } else {
                lemma_absent_id(table, id);
            }
        },
        _ => {},
    }
}

/// The id that a listing shows for a task, typed as it is shown, is read as
/// that id.
pub proof fn law_shown_id_reads_back(id: i32)
    ensures
        typed_id(decimal(id as int)) == Some(id),
{
    if id >= 0 {
        lemma_decimal_digits(id as nat);
    }
    lemma_trimmed_fixed(decimal(id as int));
    lemma_decimal_reads_back(id);
}

/// A line typed at the menu or at a prompt never makes the shell give up:
/// it leads to the menu, to a prompt, to the store or to the exit.
pub proof fn law_typed_lines_are_taken(state: StateView, line: Seq<char>)
    requires
        state is Menu || state is Prompt,
    ensures
        !(next(state, EventView::Line(line)).0 is Aborted),
{
}

/// A failure of the store ends the shell, and a shell that has ended stays
/// as it is whatever happens: it prints nothing, and asks nothing more of
/// the store.
pub proof fn law_ended_shell_stays_ended(
    state: StateView,
    event: EventView,
    after: StateView,
    output: Seq<char>,
)
    requires
        step_allowed(state, event, after, output),
    ensures
        state is Waiting && event is StoreFailed ==> after == StateView::Aborted(
            Abort::StoreFailed,
        ),
        has_ended(state) ==> after == state && output == Seq::<char>::empty(),
{
}

/// At a prompt, a shell with a table as its store does with the typed line
/// what the action does with it: the table changes as the action says, and
/// the shell prints what the action prints and then the menu. Where "add"
/// fails, the shell gives up and prints nothing.
pub proof fn law_shell_acts_as_the_actions(
    action: Action,
    table: TableView,
    line: Seq<char>,
    now: Moment,
    after: StateView,
    table_after: TableView,
    output: Seq<char>,
)
    requires
        fed(StateView::Prompt(action), table, line, now, after, table_after, output),
    ensures
        match action {
            Action::Add => {
                &&& table_after == after_add(table, line, now)
                &&& match add_outcome(table, line) {
                    Ok(text) => after == StateView::Menu && output == text + menu_text(),
                    Err(_) => after == StateView::Aborted(Abort::StoreFailed) && output
                        == Seq::<char>::empty(),
                }
            },
            Action::Complete => {
                &&& table_after == after_complete(table, line)
                &&& after == StateView::Menu
                &&& output == complete_output(table, line) + menu_text()
            },
            Action::Delete => {
                &&& table_after == after_delete(table, line)
                &&& after == StateView::Menu
                &&& output == delete_output(table, line) + menu_text()
            },
        },
{
}

} // verus!
