//! The shell attached to a task table in memory: each typed line is taken
//! through the shell, and what the shell asks of the store is carried out
//! at once.

use crate::command::CommandView;
use crate::shell::{next, step, step_allowed, Event, EventView, State, StateView, Step};
use crate::store::{TableView, TaskTable};
use crate::timestamp::{Moment, Timestamp};
use vstd::prelude::*;
use vstd::string::StringExecFns;

verus! {

/// What the shell is told once `table` was asked to carry out `command`:
/// the table's answer, or that it failed.
pub open spec fn answer(table: TableView, command: CommandView) -> EventView {
    if table.accepts(command) {
        EventView::Reply(table.reply(command))
    } else {
        EventView::StoreFailed
    }
}

/// Whether a typed line may take the shell from `state` to `after` and the
/// table from `table` to `table_after`, printing `output`.
///
/// The line moves the shell by one step. Where the shell then waits for the
/// store, the table carries out the command at `now`, and its answer moves
/// the shell by a second step; what the two steps print is printed in turn.
pub open spec fn fed(
    state: StateView,
    table: TableView,
    line: Seq<char>,
    now: Moment,
    after: StateView,
    table_after: TableView,
    output: Seq<char>,
) -> bool {
    let (asked, first) = next(state, EventView::Line(line));
    match asked {
        StateView::Waiting(command) => {
            &&& table_after == table.after(command, now)
            &&& exists|second: Seq<char>|
                #[trigger] step_allowed(asked, answer(table, command), after, second) && output
                    == first + second
        },
        _ => after == asked && table_after == table && output == first,
    }
}

/// Takes one typed line through the shell, with `table` as its store.
pub fn feed(state: State, table: &mut TaskTable, line: String, now: Timestamp) -> (step: Step)
    ensures
        fed(state@, old(table)@, line@, now@, step.state@, final(table)@, step.output@),
{
    let first = step(state, Event::Line(line));
    match first.state {
        State::Waiting(command) => {
            let event = match table.execute(&command, now) {
                Ok(reply) => Event::Reply(reply),
                Err(_) => Event::StoreFailed,
            };
            let second = step(State::Waiting(command), event);
            let mut output = first.output;
            output.append(second.output.as_str());
            assert(step_allowed(
                StateView::Waiting(command@),
                answer(old(table)@, command@),
                second.state@,
                second.output@,
            ));
            Step { state: second.state, output }
        },
        other => Step { state: other, output: first.output },
    }
}

} // verus!
