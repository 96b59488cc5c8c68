//! The interactive shell as a state machine: it waits for a line from the
//! user or for an answer from the store, and each of them moves it on.

use crate::command::{Command, CommandView, Reply, ReplyView};
use crate::handlers::{
    decide, decision, listing_breaks, render_list, report_count, report_text, Action,
    BrokenListing, Decision, DecisionView,
};
use crate::text::{chars_of, trim, trimmed};
use vstd::prelude::*;
use vstd::string::StringExecFns;

verus! {

/// Why the shell gave up.
#[derive(Clone, Copy, Debug, PartialEq, Eq)]
pub enum Abort {
    /// The store could not carry out a command.
    StoreFailed,
    /// The creation time of the task with this id does not exist in the
    /// local time zone.
    NoLocalTime { id: i32 },
    /// An event arrived that the shell was not waiting for.
    OutOfTurn,
}

/// What the shell is waiting for.
#[derive(Debug, PartialEq, Eq)]
pub enum State {
    /// A menu choice from the user.
    Menu,
    /// The line that `Action` reads from the user.
    Prompt(Action),
    /// The store's answer to this command.
    Waiting(Command),
    /// Nothing: the user chose to leave.
    Exited,
    /// Nothing: the shell gave up.
    Aborted(Abort),
}

/// The mathematical value of a [`State`].
pub enum StateView {
    Menu,
    Prompt(Action),
    Waiting(CommandView),
    Exited,
    Aborted(Abort),
}

impl View for State {
    type V = StateView;

    open spec fn view(&self) -> StateView {
        match self {
            State::Menu => StateView::Menu,
            State::Prompt(action) => StateView::Prompt(*action),
            State::Waiting(command) => StateView::Waiting(command@),
            State::Exited => StateView::Exited,
            State::Aborted(abort) => StateView::Aborted(*abort),
        }
    }
}

/// What happens to the shell.
#[derive(Debug, PartialEq, Eq)]
pub enum Event {
    /// The user typed a line.
    Line(String),
    /// The store answered the command.
    Reply(Reply),
    /// The store failed to carry out the command.
    StoreFailed,
}

/// The mathematical value of an [`Event`].
pub enum EventView {
    Line(Seq<char>),
    Reply(ReplyView),
    StoreFailed,
}

impl View for Event {
    type V = EventView;

    open spec fn view(&self) -> EventView {
        match self {
            Event::Line(line) => EventView::Line(line@),
            Event::Reply(reply) => EventView::Reply(reply@),
            Event::StoreFailed => EventView::StoreFailed,
        }
    }
}

/// The state that an event leads to, and what is printed on the way.
#[derive(Debug, PartialEq, Eq)]
pub struct Step {
    pub state: State,
    pub output: String,
}

/// What the user chose from the menu.
#[derive(Clone, Copy, Debug, PartialEq, Eq)]
pub enum Choice {
    Add,
    List,
    Complete,
    Delete,
    Exit,
    Invalid,
}

/// The choice that a typed line makes: one of the digits 1 to 5, with any
/// whitespace around it; every other line is invalid.
pub open spec fn menu_choice(line: Seq<char>) -> Choice {
    let typed = trimmed(line);
    if typed == seq!['1'] {
        Choice::Add
    } else if typed == seq!['2'] {
        Choice::List
    } else if typed == seq!['3'] {
        Choice::Complete
    } else if typed == seq!['4'] {
        Choice::Delete
    } else if typed == seq!['5'] {
        Choice::Exit
    } else {
        Choice::Invalid
    }
}

/// The menu, and the prompt for a choice.
pub open spec fn menu_text() -> Seq<char> {
    "\n--- Task Management CLI ---\n1. Add Task\n2. List Tasks\n3. Mark Task as Completed\n4. Delete Task\n5. Exit\nEnter your choice: "@
}

/// The prompt for the line that `action` reads.
pub open spec fn prompt_text(action: Action) -> Seq<char> {
    match action {
        Action::Add => "Enter task description: "@,
        Action::Complete => "Enter the ID of the task to mark as completed: "@,
        Action::Delete => "Enter the ID of the task to delete: "@,
    }
}

/// What is printed when the user leaves.
pub open spec fn goodbye_text() -> Seq<char> {
    "Exiting application. Goodbye!\n"@
}

/// What is printed for a line that is no menu choice.
pub open spec fn invalid_choice_text() -> Seq<char> {
    "Invalid choice. Please try again.\n"@
}

/// Where a menu choice leads, and what is printed.
pub open spec fn chosen(choice: Choice) -> (StateView, Seq<char>) {
    match choice {
        Choice::Add => (StateView::Prompt(Action::Add), prompt_text(Action::Add)),
        Choice::List => (StateView::Waiting(CommandView::ListOrdered), Seq::empty()),
        Choice::Complete => (StateView::Prompt(Action::Complete), prompt_text(Action::Complete)),
        Choice::Delete => (StateView::Prompt(Action::Delete), prompt_text(Action::Delete)),
        Choice::Exit => (StateView::Exited, goodbye_text()),
        Choice::Invalid => (StateView::Menu, invalid_choice_text() + menu_text()),
    }
}

/// The state that `event` leads to from `state`, and what is printed.
///
/// At the menu a line is a choice. At a prompt a line is the input of the
/// action: it is turned down, back to the menu, or makes a command for the
/// store to carry out. While the shell waits for the store, an answer is
/// reported, back to the menu, and a failure of the store ends the shell.
/// Once the shell has ended nothing moves it. Any other event is out of
/// turn and ends the shell.
///
/// The one step that this does not settle is the listing of rows: see
/// [`step_allowed`].
pub open spec fn next(state: StateView, event: EventView) -> (StateView, Seq<char>) {
    match (state, event) {
        (StateView::Exited, _) => (state, Seq::empty()),
        (StateView::Aborted(_), _) => (state, Seq::empty()),
        (StateView::Menu, EventView::Line(line)) => chosen(menu_choice(line)),
        (StateView::Prompt(action), EventView::Line(line)) => match decision(action, line) {
            DecisionView::Reject(message) => (StateView::Menu, message + menu_text()),
            DecisionView::Ask(command) => (StateView::Waiting(command), Seq::empty()),
        },
        (StateView::Waiting(command), EventView::Reply(reply)) => match report_text(
            command,
            reply,
        ) {
            Some(text) => (StateView::Menu, text + menu_text()),
            None => (StateView::Aborted(Abort::OutOfTurn), Seq::empty()),
        },
        (StateView::Waiting(_), EventView::StoreFailed) => (
            StateView::Aborted(Abort::StoreFailed),
            Seq::empty(),
        ),
        _ => (StateView::Aborted(Abort::OutOfTurn), Seq::empty()),
    }
}

/// Whether `event` may lead from `state` to `after`, printing `output`.
///
/// Every step is the one that [`next`] gives, but for one: where the store
/// answers a listing with rows and the creation time of one of them does not
/// exist in the time zone of the machine, the listing stops at that task and
/// the shell gives up.
pub open spec fn step_allowed(
    state: StateView,
    event: EventView,
    after: StateView,
    output: Seq<char>,
) -> bool {
    ||| (after, output) == next(state, event)
    ||| {
        &&& state == StateView::Waiting(CommandView::ListOrdered)
        &&& event matches EventView::Reply(ReplyView::Rows(tasks))
        &&& after matches StateView::Aborted(Abort::NoLocalTime { id })
        &&& listing_breaks(tasks, output, id as int)
    }
}

/// The choice that a typed line makes.
pub fn read_choice(line: &str) -> (choice: Choice)
    ensures
        choice == menu_choice(line@),
{
    let typed = chars_of(trim(line));
    if typed.len() != 1 {
        return Choice::Invalid;
    }
    let c = typed[0];
    assert(typed@ =~= seq![c]);
    if c == '1' {
        Choice::Add
    } else if c == '2' {
        Choice::List
    } else if c == '3' {
        Choice::Complete
    } else if c == '4' {
        Choice::Delete
    } else if c == '5' {
        Choice::Exit
    } else {
        Choice::Invalid
    }
}

/// The menu, and the prompt for a choice.
pub fn menu() -> (text: &'static str)
    ensures
        text@ == menu_text(),
{
    "\n--- Task Management CLI ---\n1. Add Task\n2. List Tasks\n3. Mark Task as Completed\n4. Delete Task\n5. Exit\nEnter your choice: "
}

/// The prompt for the line that `action` reads.
pub fn prompt(action: Action) -> (text: &'static str)
    ensures
        text@ == prompt_text(action),
{
    match action {
        Action::Add => "Enter task description: ",
        Action::Complete => "Enter the ID of the task to mark as completed: ",
        Action::Delete => "Enter the ID of the task to delete: ",
    }
}

/// The shell as it starts: at the menu, which is printed.
pub fn start() -> (step: Step)
    ensures
        step.state@ == StateView::Menu,
        step.output@ == menu_text(),
{
    Step { state: State::Menu, output: String::from_str(menu()) }
}

/// Back at the menu, having printed `text` and then the menu.
fn back_to_menu(text: String) -> (step: Step)
    ensures
        step.state@ == StateView::Menu,
        step.output@ == text@ + menu_text(),
{
    let mut output = text;
    output.append(menu());
    Step { state: State::Menu, output }
}

/// At the end, having printed nothing.
fn give_up(abort: Abort) -> (step: Step)
    ensures
        step.state@ == StateView::Aborted(abort),
        step.output@ == Seq::<char>::empty(),
{
    Step { state: State::Aborted(abort), output: String::new() }
}

/// Where the shell goes once the rows of the store were listed: back to
/// the menu behind the listing, or, where the listing stopped at a creation
/// time that does not exist in the local time zone, to its end, behind what
/// of the listing was printed.
pub fn listed(outcome: Result<String, BrokenListing>) -> (step: Step)
    ensures
        match outcome {
            Ok(text) => step.state@ == StateView::Menu && step.output@ == text@ + menu_text(),
            Err(broken) => {
                &&& step.state@ == StateView::Aborted(Abort::NoLocalTime { id: broken.id })
                &&& step.output@ == broken.printed@
            },
        },
{
    match outcome {
        Ok(text) => back_to_menu(text),
        Err(broken) => Step {
            state: State::Aborted(Abort::NoLocalTime { id: broken.id }),
            output: broken.printed,
        },
    }
}

/// Moves the shell on by one event.
pub fn step(state: State, event: Event) -> (step: Step)
    ensures
        step_allowed(state@, event@, step.state@, step.output@),
{
    match (state, event) {
        (State::Exited, _) => Step { state: State::Exited, output: String::new() },
        (State::Aborted(abort), _) => give_up(abort),
        (State::Menu, Event::Line(line)) => match read_choice(line.as_str()) {
            Choice::Add => Step {
                state: State::Prompt(Action::Add),
                output: String::from_str(prompt(Action::Add)),
            },
            Choice::List => Step { state: State::Waiting(Command::ListOrdered), output: String::new() },
            Choice::Complete => Step {
                state: State::Prompt(Action::Complete),
                output: String::from_str(prompt(Action::Complete)),
            },
            Choice::Delete => Step {
                state: State::Prompt(Action::Delete),
                output: String::from_str(prompt(Action::Delete)),
            },
            Choice::Exit => Step {
                state: State::Exited,
                output: String::from_str("Exiting application. Goodbye!\n"),
            },
            Choice::Invalid => back_to_menu(String::from_str("Invalid choice. Please try again.\n")),
        },
        (State::Prompt(action), Event::Line(line)) => match decide(action, line.as_str()) {
            Decision::Reject(message) => back_to_menu(message),
            Decision::Ask(command) => Step { state: State::Waiting(command), output: String::new() },
        },
        (State::Waiting(Command::ListOrdered), Event::Reply(Reply::Rows(tasks))) => listed(
            render_list(&tasks),
        ),
        (State::Waiting(command), Event::Reply(Reply::RowsAffected(n))) => match report_count(
            &command,
            n,
        ) {
            Some(text) => back_to_menu(text),
            None => give_up(Abort::OutOfTurn),
        },
        (State::Waiting(_), Event::StoreFailed) => give_up(Abort::StoreFailed),
        _ => give_up(Abort::OutOfTurn),
    }
}

/// Whether the shell has ended, by the user's choice or by giving up.
pub open spec fn has_ended(state: StateView) -> bool {
    state is Exited || state is Aborted
}

/// The exit code of the process once the shell has ended: 0 where the user
/// chose to leave, 1 where the store failed, 101 where the shell gave up
/// for another reason.
pub open spec fn exit_code_of(state: StateView) -> Option<int> {
    match state {
        StateView::Exited => Some(0),
        StateView::Aborted(Abort::StoreFailed) => Some(1),
        StateView::Aborted(_) => Some(101),
        _ => None,
    }
}

/// Why the shell gave up, in words.
pub open spec fn diagnostic_text(abort: Abort) -> Seq<char> {
    match abort {
        Abort::StoreFailed => "The task store failed to carry out a command"@,
        Abort::NoLocalTime { .. } => "Failed to convert naive datetime to local datetime"@,
        Abort::OutOfTurn => "The shell was given an event that it did not wait for"@,
    }
}

/// The exit code of the process, once the shell has ended.
pub fn exit_code(state: &State) -> (code: Option<i32>)
    ensures
        code is Some <==> has_ended(state@),
        match code {
            Some(n) => exit_code_of(state@) == Some(n as int),
            None => exit_code_of(state@) is None,
        },
{
    match state {
        State::Exited => Some(0),
        State::Aborted(Abort::StoreFailed) => Some(1),
        State::Aborted(_) => Some(101),
        _ => None,
    }
}

/// Why the shell gave up, in words.
pub fn diagnostic(abort: Abort) -> (text: &'static str)
    ensures
        text@ == diagnostic_text(abort),
{
    match abort {
        Abort::StoreFailed => "The task store failed to carry out a command",
        Abort::NoLocalTime { .. } => "Failed to convert naive datetime to local datetime",
        Abort::OutOfTurn => "The shell was given an event that it did not wait for",
    }
}

} // verus!
