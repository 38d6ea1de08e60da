use vstd::prelude::*;
use vstd::string::*;

verus! {

/// The priority of a task that was given none.
pub const DEFAULT_PRIORITY: i32 = 2;

/// The status of a task that was just created.
pub open spec fn pending_status() -> Seq<char> {
    "pending"@
}

/// A task as the store holds it. Times are seconds since the start of 1970.
#[derive(Debug)]
pub struct Todo {
    pub id: String,
    pub title: String,
    pub description: Option<String>,
    pub status: String,
    pub priority: i32,
    pub category: Option<String>,
    pub due_date: Option<i64>,
    pub created_at: i64,
    pub updated_at: i64,
    pub parent_id: Option<String>,
    pub ai_generated: bool,
}

/// What a caller gives to create a task.
#[derive(Debug)]
pub struct CreateTodoInput {
    pub title: String,
    pub description: Option<String>,
    pub priority: Option<i32>,
    pub category: Option<String>,
    pub due_date: Option<i64>,
    pub parent_id: Option<String>,
    pub ai_generated: Option<bool>,
}

/// What a caller gives to change the task `id`. A field that is left out keeps its value.
#[derive(Debug)]
pub struct UpdateTodoInput {
    pub id: String,
    pub title: Option<String>,
    pub description: Option<String>,
    pub status: Option<String>,
    pub priority: Option<i32>,
    pub category: Option<String>,
    pub due_date: Option<i64>,
    pub parent_id: Option<String>,
    pub ai_generated: Option<bool>,
}

/// The task to store for a caller's input, under a fresh identifier and at the time `now`:
/// it is pending, was created and updated now, has the default priority where none is
/// given, and counts as written by hand unless the input says otherwise.
pub fn create_todo(input: CreateTodoInput, id: String, now: i64) -> (todo: Todo)
    ensures
        todo.id == id,
        todo.title == input.title,
        todo.description == input.description,
        todo.status@ == pending_status(),
        todo.priority == match input.priority {
            Some(priority) => priority,
            None => DEFAULT_PRIORITY,
        },
        todo.category == input.category,
        todo.due_date == input.due_date,
        todo.created_at == now,
        todo.updated_at == now,
        todo.parent_id == input.parent_id,
        todo.ai_generated == match input.ai_generated {
            Some(flag) => flag,
            None => false,
        },
{
    Todo {
        id,
        title: input.title,
        description: input.description,
        status: String::from_str("pending"),
        priority: match input.priority {
            Some(priority) => priority,
            None => DEFAULT_PRIORITY,
        },
        category: input.category,
        due_date: input.due_date,
        created_at: now,
        updated_at: now,
        parent_id: input.parent_id,
        ai_generated: match input.ai_generated {
            Some(flag) => flag,
            None => false,
        },
    }
}

} // verus!
