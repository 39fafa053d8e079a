//! The task operations offered to a front end. None of them keeps anything:
//! each builds one record and hands it back.

use crate::clock::{now, Date, Timestamp};
use crate::task::{CreateTodo, Priority, Todo, TodoStatus, ID_LENGTH};
use vstd::prelude::*;

verus! {

/// `todo` is a pending task that has never been completed or dated.
pub open spec fn untouched(todo: Todo) -> bool {
    &&& todo.status == TodoStatus::Pending
    &&& todo.priority == Priority::Normal
    &&& todo.due_date is None
    &&& todo.scheduled_for is None
    &&& todo.completed_at is None
}

/// The priority a request asks for: its own, or normal where it names none.
pub open spec fn requested_priority(data: CreateTodo) -> Priority {
    match data.priority {
        Some(priority) => priority,
        None => Priority::Normal,
    }
}

/// The task `todo` with each part that a request names put in place of the
/// task's own: the priority, the due date, the scheduled day. A part that the
/// request leaves out stays as it is, and so does everything else.
pub open spec fn requested(
    todo: Todo,
    priority: Option<Priority>,
    due_date: Option<Date>,
    scheduled_for: Option<Date>,
) -> Todo {
    Todo {
        priority: match priority {
            Some(asked) => asked,
            None => todo.priority,
        },
        due_date: match due_date {
            Some(asked) => Some(asked),
            None => todo.due_date,
        },
        scheduled_for: match scheduled_for {
            Some(asked) => Some(asked),
            None => todo.scheduled_for,
        },
        ..todo
    }
}

/// The answer to a toggle request: the task `todo` under the identifier
/// `todo_id`, completed at the instant `at`.
pub open spec fn answer(todo: Todo, todo_id: String, at: Timestamp) -> Todo {
    (Todo { id: todo_id, ..todo }).completed(at)
}

/// Puts the parts that a request names into the task `todo`.
pub fn with_request(
    todo: Todo,
    priority: Option<Priority>,
    due_date: Option<Date>,
    scheduled_for: Option<Date>,
) -> (made: Todo)
    ensures
        made == requested(todo, priority, due_date, scheduled_for),
        todo.well_formed() ==> made.well_formed(),
{
    let mut todo = todo;
    if let Some(priority) = priority {
        todo.priority = priority;
    }
    if let Some(due_date) = due_date {
        todo.due_date = Some(due_date);
    }
    if let Some(scheduled_for) = scheduled_for {
        todo.scheduled_for = Some(scheduled_for);
    }
    todo
}

/// Gives the task `todo` the identifier `todo_id` and completes it at the
/// instant `at`.
pub fn answered(todo: Todo, todo_id: String, at: Timestamp) -> (done: Todo)
    ensures
        done == answer(todo, todo_id, at),
        done.well_formed(),
{
    let mut todo = todo;
    todo.id = todo_id;
    todo.complete_at(at);
    todo
}

/// Builds a task from a request: the text and the dates are the request's,
/// the priority is the request's or normal. The task is pending, carries a
/// new identifier, is created at the instant the clock gave, and is never
/// refused.
pub fn create_todo(todo_data: CreateTodo) -> (made: Result<Todo, String>)
    ensures
        made matches Ok(todo) && {
            &&& todo == requested(
                Todo::fresh(todo.id, todo_data.text, todo.created_at),
                todo_data.priority,
                todo_data.due_date,
                todo_data.scheduled_for,
            )
            &&& todo.text == todo_data.text
            &&& todo.priority == requested_priority(todo_data)
            &&& todo.due_date == todo_data.due_date
            &&& todo.scheduled_for == todo_data.scheduled_for
            &&& todo.status == TodoStatus::Pending
            &&& todo.completed_at is None
            &&& todo.id@.len() == ID_LENGTH
            &&& todo.well_formed()
        },
{
    let todo = Todo::new(todo_data.text);
    Ok(with_request(todo, todo_data.priority, todo_data.due_date, todo_data.scheduled_for))
}

/// The one example task shown for the day `day`: otherwise untouched, and
/// scheduled for that day.
pub fn example_for_day(day: Date) -> (todo: Todo)
    ensures
        todo.text@ == "Exemple de todo pour aujourd'hui"@,
        todo.scheduled_for == Some(day),
        todo.scheduled_on(day),
        untouched(Todo { scheduled_for: None, ..todo }),
        todo.id@.len() == ID_LENGTH,
        todo.well_formed(),
{
    let todo = Todo::new("Exemple de todo pour aujourd'hui".to_owned());
    with_request(todo, None, None, Some(day))
}

/// The tasks for the current UTC day: always exactly one example task,
/// scheduled for the day the clock gave.
pub fn get_today_todos() -> (listed: Result<Vec<Todo>, String>)
    ensures
        listed matches Ok(todos) && {
            &&& todos@.len() == 1
            &&& todos@[0].text@ == "Exemple de todo pour aujourd'hui"@
            &&& todos@[0].scheduled_for is Some
            &&& untouched(Todo { scheduled_for: None, ..todos@[0] })
            &&& todos@[0].id@.len() == ID_LENGTH
            &&& todos@[0].well_formed()
        },
{
    let reading = now();
    let example_todo = example_for_day(reading.date);
    let mut todos: Vec<Todo> = Vec::new();
    todos.push(example_todo);
    Ok(todos)
}

/// Answers a toggle request for the identifier `todo_id` with an example
/// task that carries that identifier and has just been completed.
pub fn toggle_todo(todo_id: String) -> (toggled: Result<Todo, String>)
    ensures
        toggled matches Ok(todo) && {
            &&& todo.id == todo_id
            &&& todo.text@ == "Todo exemple"@
            &&& todo.status == TodoStatus::Completed
            &&& todo.completed_at is Some
            &&& todo.priority == Priority::Normal
            &&& todo.due_date is None
            &&& todo.scheduled_for is None
            &&& todo.well_formed()
        },
{
    let todo = Todo::new("Todo exemple".to_owned());
    let reading = now();
    Ok(answered(todo, todo_id, reading.stamp))
}

} // verus!
