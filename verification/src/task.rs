//! The task record and what can be asked of it.

use crate::clock::{now, Date, Timestamp};
use vstd::prelude::*;

verus! {

/// Whether a task is still to be done.
#[derive(Debug, Clone, Copy, PartialEq, Eq, Structural)]
pub enum TodoStatus {
    Pending,
    Completed,
}

/// How urgent a task is.
#[derive(Debug, Clone, Copy, PartialEq, Eq, Structural)]
pub enum Priority {
    Low,
    Normal,
    High,
}

/// One task.
#[derive(Debug, Clone)]
pub struct Todo {
    pub id: String,
    pub text: String,
    pub status: TodoStatus,
    pub priority: Priority,
    pub due_date: Option<Date>,
    pub scheduled_for: Option<Date>,
    pub created_at: Timestamp,
    pub completed_at: Option<Timestamp>,
}

/// What a caller supplies to have a task created.
#[derive(Debug)]
pub struct CreateTodo {
    pub text: String,
    pub priority: Option<Priority>,
    pub due_date: Option<Date>,
    pub scheduled_for: Option<Date>,
}

/// A partial change to a task: each field that is present replaces the
/// task's own.
#[derive(Debug)]
pub struct UpdateTodo {
    pub text: Option<String>,
    pub priority: Option<Priority>,
    pub due_date: Option<Date>,
    pub scheduled_for: Option<Date>,
    pub status: Option<TodoStatus>,
}

/// Number of characters in a task identifier: 32 hexadecimal digits in five
/// groups, with a hyphen between groups.
pub const ID_LENGTH: usize = 36;

/// Draws a random version-4 UUID with `uuid::Uuid::new_v4` and writes it out
/// with the `Display` impl of `uuid::Uuid`, which is the hyphenated form:
/// always 36 characters. Which identifier comes out is left open.
#[verifier::external_body]
fn fresh_id() -> (id: String)
    ensures
        id@.len() == ID_LENGTH,
{
    uuid::Uuid::new_v4().to_string()
}

impl Todo {
    /// A completion time is recorded exactly when the task is completed.
    pub open spec fn well_formed(self) -> bool {
        self.completed_at is Some <==> self.status == TodoStatus::Completed
    }

    /// The task as it starts out: pending, normal priority, no dates.
    pub open spec fn fresh(id: String, text: String, created_at: Timestamp) -> Todo {
        Todo {
            id,
            text,
            status: TodoStatus::Pending,
            priority: Priority::Normal,
            due_date: None,
            scheduled_for: None,
            created_at,
            completed_at: None,
        }
    }

    /// The task once it has been completed at the instant `at`.
    pub open spec fn completed(self, at: Timestamp) -> Todo {
        Todo { status: TodoStatus::Completed, completed_at: Some(at), ..self }
    }

    /// The task once it is pending again.
    pub open spec fn uncompleted(self) -> Todo {
        Todo { status: TodoStatus::Pending, completed_at: None, ..self }
    }

    /// The task is scheduled for exactly the day `day`.
    pub open spec fn scheduled_on(self, day: Date) -> bool {
        self.scheduled_for == Some(day)
    }

    /// The task is late on the day `today`: it has a due date strictly before
    /// `today` and is still pending.
    pub open spec fn overdue_on(self, today: Date) -> bool {
        &&& self.due_date matches Some(due)
        &&& due.before(today)
        &&& self.status == TodoStatus::Pending
    }

    /// A new task with the given identifier and creation time.
    pub fn with_origin(id: String, text: String, created_at: Timestamp) -> (todo: Todo)
        ensures
            todo == Todo::fresh(id, text, created_at),
            todo.well_formed(),
    {
        Todo {
            id,
            text,
            status: TodoStatus::Pending,
            priority: Priority::Normal,
            due_date: None,
            scheduled_for: None,
            created_at,
            completed_at: None,
        }
    }

    /// A new task with a freshly drawn identifier, created now.
    pub fn new(text: String) -> (todo: Todo)
        ensures
            todo == Todo::fresh(todo.id, text, todo.created_at),
            todo.id@.len() == ID_LENGTH,
            todo.well_formed(),
    {
        let id = fresh_id();
        let reading = now();
        Todo::with_origin(id, text, reading.stamp)
    }

    /// Marks the task completed at the instant `at`.
    pub fn complete_at(&mut self, at: Timestamp)
        ensures
            *final(self) == old(self).completed(at),
            final(self).well_formed(),
    {
        self.status = TodoStatus::Completed;
        self.completed_at = Some(at);
    }

    /// Marks the task completed now.
    pub fn complete(&mut self)
        ensures
            final(self).completed_at is Some,
            *final(self) == old(self).completed(final(self).completed_at->0),
            final(self).well_formed(),
    {
        let reading = now();
        self.complete_at(reading.stamp);
    }

    /// Puts the task back to pending and forgets when it was completed.
    pub fn uncomplete(&mut self)
        ensures
            *final(self) == old(self).uncompleted(),
            final(self).well_formed(),
    {
        self.status = TodoStatus::Pending;
        self.completed_at = None;
    }

    /// Whether the task is scheduled for the day `day`.
    pub fn is_scheduled_on(&self, day: &Date) -> (hit: bool)
        ensures
            hit == self.scheduled_on(*day),
    {
        match self.scheduled_for {
            Some(scheduled) => scheduled == *day,
            None => false,
        }
    }

    /// Whether the task is scheduled for the current UTC day. A task without
    /// a scheduled day never is.
    pub fn is_for_today(&self) -> (hit: bool)
        ensures
            hit ==> self.scheduled_for is Some,
    {
        let reading = now();
        self.is_scheduled_on(&reading.date)
    }

    /// Whether the task is late on the day `today`.
    pub fn is_overdue_on(&self, today: &Date) -> (late: bool)
        ensures
            late == self.overdue_on(*today),
    {
        match self.due_date {
            Some(due) => due.is_before(today) && matches!(self.status, TodoStatus::Pending),
            None => false,
        }
    }

    /// Whether the task is late on the current UTC day. A task without a due
    /// date, or one that is completed, never is.
    pub fn is_overdue(&self) -> (late: bool)
        ensures
            late ==> self.due_date is Some && self.status == TodoStatus::Pending,
            late ==> exists|today: Date| self.overdue_on(today),
    {
        let reading = now();
        self.is_overdue_on(&reading.date)
    }
}

/// Completing a pending task at an instant that is not before its creation
/// leaves it completed, with a completion time at or after the creation time.
pub proof fn lemma_completion_follows_creation(todo: Todo, at: Timestamp)
    requires
        todo.status == TodoStatus::Pending,
        at.at_or_after(todo.created_at),
    ensures
        todo.completed(at).status == TodoStatus::Completed,
        todo.completed(at).completed_at matches Some(done) && done.at_or_after(
            todo.completed(at).created_at,
        ),
        todo.completed(at).well_formed(),
{
}

/// A task is late on a day exactly when it is pending and its due date lies
/// strictly before that day; once completed it is late on no day, whatever
/// its due date.
pub proof fn lemma_overdue_only_while_pending(todo: Todo, today: Date, at: Timestamp)
    ensures
        todo.overdue_on(today) <==> (todo.status == TodoStatus::Pending && exists|due: Date|
            todo.due_date == Some(due) && due.before(today)),
        todo.completed(at).due_date == todo.due_date,
        !todo.completed(at).overdue_on(today),
{
    if todo.overdue_on(today) {
        assert(todo.due_date == Some(todo.due_date->0) && (todo.due_date->0).before(today));
    }
}

} // verus!
