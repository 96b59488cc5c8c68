use task_manager::command::{Command, Reply};
use task_manager::config::{connected, database_url_key, require_database_url, MAX_CONNECTIONS};
use task_manager::handlers::{Action, BrokenListing};
use task_manager::session::feed;
use task_manager::shell::{
    diagnostic, exit_code, listed, menu, prompt, read_choice, start, step, Abort, Choice, Event,
    State, Step,
};
use task_manager::store::TaskTable;
use task_manager::task::Task;
use task_manager::timestamp::Timestamp;

const MENU: &str = "\n--- Task Management CLI ---\n1. Add Task\n2. List Tasks\n3. Mark Task as Completed\n4. Delete Task\n5. Exit\nEnter your choice: ";

fn june_noon(day: u32) -> Timestamp {
    Timestamp::new(2024, 6, day, 12, 0, 0).unwrap()
}

fn line(text: &str) -> Event {
    Event::Line(String::from(text))
}

fn at_menu(text: &str) -> Step {
    Step { state: State::Menu, output: format!("{}{}", text, MENU) }
}

fn silent(state: State) -> Step {
    Step { state, output: String::new() }
}

#[test]
fn menu_lists_the_five_choices() {
    assert_eq!(menu(), MENU);
}

#[test]
fn start_prints_the_menu() {
    assert_eq!(start(), Step { state: State::Menu, output: String::from(MENU) });
}

#[test]
fn read_choice_takes_the_digits_one_to_five() {
    assert_eq!(read_choice("1\n"), Choice::Add);
    assert_eq!(read_choice("2\n"), Choice::List);
    assert_eq!(read_choice("3\n"), Choice::Complete);
    assert_eq!(read_choice("4\n"), Choice::Delete);
    assert_eq!(read_choice("5\n"), Choice::Exit);
}

#[test]
fn read_choice_trims_the_line() {
    assert_eq!(read_choice("  1  \r\n"), Choice::Add);
    assert_eq!(read_choice("\t5"), Choice::Exit);
}

#[test]
fn read_choice_takes_nothing_else() {
    let lines = ["abc\n", "", "\n", "0\n", "6\n", "11\n", "1 1\n", "+1\n", "01\n", "１\n", "one\n", "1.\n"];
    for text in lines {
        assert_eq!(read_choice(text), Choice::Invalid, "line {:?}", text);
    }
}

#[test]
fn unrecognized_choice_stays_at_the_menu() {
    assert_eq!(step(State::Menu, line("abc\n")), at_menu("Invalid choice. Please try again.\n"));
    assert_eq!(step(State::Menu, line("abc")), at_menu("Invalid choice. Please try again.\n"));
}

#[test]
fn unrecognized_choice_leaves_the_table_alone() {
    let mut table = TaskTable::new();
    table.insert(String::from("Buy milk"), june_noon(1)).unwrap();
    let before = table.list_ordered();
    let fed = feed(State::Menu, &mut table, String::from("abc\n"), june_noon(2));
    assert_eq!(fed, at_menu("Invalid choice. Please try again.\n"));
    assert_eq!(table.list_ordered(), before);
}

#[test]
fn choice_of_an_action_prompts_for_its_line() {
    assert_eq!(
        step(State::Menu, line("1\n")),
        Step { state: State::Prompt(Action::Add), output: String::from("Enter task description: ") }
    );
    assert_eq!(
        step(State::Menu, line("3\n")),
        Step {
            state: State::Prompt(Action::Complete),
            output: String::from("Enter the ID of the task to mark as completed: "),
        }
    );
    assert_eq!(
        step(State::Menu, line("4\n")),
        Step {
            state: State::Prompt(Action::Delete),
            output: String::from("Enter the ID of the task to delete: "),
        }
    );
}

#[test]
fn prompt_of_each_action() {
    assert_eq!(prompt(Action::Add), "Enter task description: ");
    assert_eq!(prompt(Action::Complete), "Enter the ID of the task to mark as completed: ");
    assert_eq!(prompt(Action::Delete), "Enter the ID of the task to delete: ");
}

#[test]
fn choice_of_the_listing_asks_the_store() {
    assert_eq!(step(State::Menu, line("2\n")), silent(State::Waiting(Command::ListOrdered)));
}

#[test]
fn choice_of_exit_ends_the_shell() {
    assert_eq!(
        step(State::Menu, line("5\n")),
        Step { state: State::Exited, output: String::from("Exiting application. Goodbye!\n") }
    );
}

#[test]
fn typed_description_asks_for_an_insertion() {
    assert_eq!(
        step(State::Prompt(Action::Add), line(" Buy milk \n")),
        silent(State::Waiting(Command::Insert { description: String::from("Buy milk") }))
    );
}

#[test]
fn blank_description_goes_back_to_the_menu() {
    assert_eq!(
        step(State::Prompt(Action::Add), line("\n")),
        at_menu("Task description cannot be empty.\n")
    );
    assert_eq!(
        step(State::Prompt(Action::Add), line("   ")),
        at_menu("Task description cannot be empty.\n")
    );
}

#[test]
fn typed_id_asks_for_an_update_or_a_deletion() {
    assert_eq!(
        step(State::Prompt(Action::Complete), line("3\n")),
        silent(State::Waiting(Command::UpdateCompleted { id: 3 }))
    );
    assert_eq!(
        step(State::Prompt(Action::Delete), line("3\n")),
        silent(State::Waiting(Command::Delete { id: 3 }))
    );
}

#[test]
fn id_that_is_no_number_goes_back_to_the_menu() {
    assert_eq!(
        step(State::Prompt(Action::Complete), line("three\n")),
        at_menu("Invalid task ID. Please enter a number.\n")
    );
    assert_eq!(
        step(State::Prompt(Action::Delete), line("\n")),
        at_menu("Invalid task ID. Please enter a number.\n")
    );
}

#[test]
fn answer_of_the_store_is_reported_at_the_menu() {
    let insert = Command::Insert { description: String::from("Buy milk") };
    assert_eq!(
        step(State::Waiting(insert), Event::Reply(Reply::RowsAffected(1))),
        at_menu("Task 'Buy milk' added successfully!\n")
    );
    assert_eq!(
        step(State::Waiting(Command::UpdateCompleted { id: 2 }), Event::Reply(Reply::RowsAffected(0))),
        at_menu("No task found with ID 2. Nothing updated.\n")
    );
    assert_eq!(
        step(State::Waiting(Command::Delete { id: 2 }), Event::Reply(Reply::RowsAffected(1))),
        at_menu("Task with ID 2 deleted successfully.\n")
    );
    assert_eq!(
        step(State::Waiting(Command::ListOrdered), Event::Reply(Reply::Rows(Vec::new()))),
        at_menu("No tasks found.\n")
    );
}

#[test]
fn rows_of_the_store_are_listed_at_the_menu() {
    let rows = vec![Task {
        id: 4,
        description: String::from("Buy milk"),
        completed: true,
        created_at: june_noon(15),
    }];
    assert_eq!(
        step(State::Waiting(Command::ListOrdered), Event::Reply(Reply::Rows(rows))),
        at_menu(
            "\n--- Your Tasks ---\nID: 4, [COMPLETED] Description: 'Buy milk' (Created: 2024-06-15 12:00:00)\n"
        )
    );
}

#[test]
fn listed_goes_back_to_the_menu() {
    assert_eq!(listed(Ok(String::from("No tasks found.\n"))), at_menu("No tasks found.\n"));
}

#[test]
fn listed_gives_up_where_a_creation_time_does_not_exist() {
    let broken = BrokenListing { printed: String::from("\n--- Your Tasks ---\n"), id: 7 };
    let step = listed(Err(broken));
    assert_eq!(
        step,
        Step {
            state: State::Aborted(Abort::NoLocalTime { id: 7 }),
            output: String::from("\n--- Your Tasks ---\n"),
        }
    );
    assert_eq!(exit_code(&step.state), Some(101));
}

#[test]
fn session_ends_when_the_table_has_no_id_left() {
    let mut table = TaskTable::starting_after(i32::MAX).unwrap();
    let first = feed(State::Menu, &mut table, String::from("1\n"), june_noon(1));
    let second = feed(first.state, &mut table, String::from("Buy milk\n"), june_noon(1));
    assert_eq!(second, silent(State::Aborted(Abort::StoreFailed)));
    assert_eq!(exit_code(&second.state), Some(1));
    assert_eq!(table.len(), 0);
}

#[test]
fn failure_of_the_store_ends_the_shell() {
    assert_eq!(
        step(State::Waiting(Command::ListOrdered), Event::StoreFailed),
        silent(State::Aborted(Abort::StoreFailed))
    );
    assert_eq!(
        step(State::Waiting(Command::Delete { id: 1 }), Event::StoreFailed),
        silent(State::Aborted(Abort::StoreFailed))
    );
}

#[test]
fn event_out_of_turn_ends_the_shell() {
    let out_of_turn = silent(State::Aborted(Abort::OutOfTurn));
    assert_eq!(step(State::Menu, Event::StoreFailed), out_of_turn);
    assert_eq!(step(State::Menu, Event::Reply(Reply::RowsAffected(1))), out_of_turn);
    assert_eq!(step(State::Prompt(Action::Add), Event::StoreFailed), out_of_turn);
    assert_eq!(step(State::Prompt(Action::Delete), Event::Reply(Reply::Rows(Vec::new()))), out_of_turn);
    assert_eq!(step(State::Waiting(Command::ListOrdered), line("1\n")), out_of_turn);
    assert_eq!(
        step(State::Waiting(Command::ListOrdered), Event::Reply(Reply::RowsAffected(1))),
        out_of_turn
    );
    assert_eq!(
        step(State::Waiting(Command::Delete { id: 1 }), Event::Reply(Reply::Rows(Vec::new()))),
        out_of_turn
    );
}

#[test]
fn ended_shell_stays_as_it_is() {
    assert_eq!(step(State::Exited, line("1\n")), silent(State::Exited));
    assert_eq!(step(State::Exited, Event::StoreFailed), silent(State::Exited));
    assert_eq!(
        step(State::Aborted(Abort::StoreFailed), line("1\n")),
        silent(State::Aborted(Abort::StoreFailed))
    );
    assert_eq!(
        step(State::Aborted(Abort::NoLocalTime { id: 3 }), Event::Reply(Reply::RowsAffected(1))),
        silent(State::Aborted(Abort::NoLocalTime { id: 3 }))
    );
}

#[test]
fn exit_code_of_each_state() {
    assert_eq!(exit_code(&State::Menu), None);
    assert_eq!(exit_code(&State::Prompt(Action::Add)), None);
    assert_eq!(exit_code(&State::Waiting(Command::ListOrdered)), None);
    assert_eq!(exit_code(&State::Exited), Some(0));
    assert_eq!(exit_code(&State::Aborted(Abort::StoreFailed)), Some(1));
    assert_eq!(exit_code(&State::Aborted(Abort::NoLocalTime { id: 1 })), Some(101));
    assert_eq!(exit_code(&State::Aborted(Abort::OutOfTurn)), Some(101));
}

#[test]
fn diagnostic_of_each_abort() {
    assert_eq!(
        diagnostic(Abort::NoLocalTime { id: 1 }),
        "Failed to convert naive datetime to local datetime"
    );
    assert_eq!(diagnostic(Abort::StoreFailed), "The task store failed to carry out a command");
    assert_eq!(
        diagnostic(Abort::OutOfTurn),
        "The shell was given an event that it did not wait for"
    );
}

#[test]
fn session_from_add_to_exit() {
    let mut table = TaskTable::new();
    let mut state = start().state;
    let script = [
        ("1\n", "Enter task description: ".to_string()),
        ("Buy milk\n", format!("Task 'Buy milk' added successfully!\n{}", MENU)),
        (
            "2\n",
            format!(
                "\n--- Your Tasks ---\nID: 1, [PENDING] Description: 'Buy milk' (Created: 2024-06-15 12:00:00)\n{}",
                MENU
            ),
        ),
        ("3\n", "Enter the ID of the task to mark as completed: ".to_string()),
        ("1\n", format!("Task with ID 1 marked as completed.\n{}", MENU)),
        (
            "2\n",
            format!(
                "\n--- Your Tasks ---\nID: 1, [COMPLETED] Description: 'Buy milk' (Created: 2024-06-15 12:00:00)\n{}",
                MENU
            ),
        ),
        ("4\n", "Enter the ID of the task to delete: ".to_string()),
        ("1\n", format!("Task with ID 1 deleted successfully.\n{}", MENU)),
        ("2\n", format!("No tasks found.\n{}", MENU)),
        ("abc\n", format!("Invalid choice. Please try again.\n{}", MENU)),
        ("4\n", "Enter the ID of the task to delete: ".to_string()),
        ("1\n", format!("No task found with ID 1. Nothing deleted.\n{}", MENU)),
        ("5\n", "Exiting application. Goodbye!\n".to_string()),
    ];
    for (typed, printed) in script {
        let fed = feed(state, &mut table, String::from(typed), june_noon(15));
        assert_eq!(fed.output, printed, "after {:?}", typed);
        state = fed.state;
    }
    assert_eq!(state, State::Exited);
    assert_eq!(exit_code(&state), Some(0));
    assert_eq!(table.len(), 0);
}

#[test]
fn session_turns_blank_description_down() {
    let mut table = TaskTable::new();
    let first = feed(State::Menu, &mut table, String::from("1\n"), june_noon(1));
    assert_eq!(first.state, State::Prompt(Action::Add));
    let second = feed(first.state, &mut table, String::from("   \n"), june_noon(1));
    assert_eq!(second, at_menu("Task description cannot be empty.\n"));
    assert_eq!(table.len(), 0);
}

#[test]
fn session_does_not_take_a_line_while_it_waits() {
    let mut table = TaskTable::new();
    let fed = feed(State::Waiting(Command::ListOrdered), &mut table, String::from("2\n"), june_noon(1));
    assert_eq!(fed, silent(State::Aborted(Abort::OutOfTurn)));
}

#[test]
fn pool_holds_five_connections() {
    assert_eq!(MAX_CONNECTIONS, 5);
}

#[test]
fn database_url_is_required() {
    assert_eq!(database_url_key(), "DATABASE_URL");
    assert_eq!(
        require_database_url(Some(String::from("mysql://localhost/tasks"))),
        Ok(String::from("mysql://localhost/tasks"))
    );
    assert_eq!(
        require_database_url(None),
        Err(String::from("DATABASE_URL must be set in .env file"))
    );
    assert_eq!(require_database_url(Some(String::new())), Ok(String::new()));
}

#[test]
fn connected_greets_once_the_store_is_reached() {
    assert_eq!(connected(), "Connected to MySQL database!\n");
}
