//! The task entity and the payload that creates or updates one.
use vstd::prelude::*;

verus! {

/// The text of an optional string.
pub open spec fn opt_text(o: Option<String>) -> Option<Seq<char>> {
    match o {
        Some(s) => Some(s@),
        None => None,
    }
}

/// What a task is, as plain values.
pub struct TaskView {
    pub id: i64,
    pub name: Seq<char>,
    pub description: Option<Seq<char>>,
}

/// What a create or update payload is, as plain values.
pub struct NewTaskView {
    pub name: Seq<char>,
    pub description: Option<Seq<char>>,
}

/// A persisted task: its id is assigned by the store and never changes.
#[derive(Debug, PartialEq, Eq)]
pub struct Task {
    pub id: i64,
    pub name: String,
    pub description: Option<String>,
}

impl View for Task {
    type V = TaskView;

    open spec fn view(&self) -> TaskView {
        TaskView { id: self.id, name: self.name@, description: opt_text(self.description) }
    }
}

/// The tasks of a sequence, as plain values.
pub open spec fn tasks_view(v: Seq<Task>) -> Seq<TaskView> {
    v.map_values(|t: Task| t@)
}

pub(crate) fn clone_text(o: &Option<String>) -> (r: Option<String>)
    ensures
        opt_text(r) == opt_text(*o),
{
    match o {
        Some(s) => Some(s.clone()),
        None => None,
    }
}

impl Task {
    /// The task built from an assigned id and a payload.
    pub fn from_payload(id: i64, form: CreateTask) -> (r: Task)
        ensures
            r@ == (TaskView { id, name: form@.name, description: form@.description }),
    {
        Task { id, name: form.name, description: form.description }
    }

    /// A task with the same fields as this one.
    pub fn duplicate(&self) -> (r: Task)
        ensures
            r@ == self@,
    {
        Task { id: self.id, name: self.name.clone(), description: clone_text(&self.description) }
    }
}

/// The body of a create or update request: a required name and an optional description.
#[derive(Debug, PartialEq, Eq)]
pub struct CreateTask {
    pub name: String,
    pub description: Option<String>,
}

impl View for CreateTask {
    type V = NewTaskView;

    open spec fn view(&self) -> NewTaskView {
        NewTaskView { name: self.name@, description: opt_text(self.description) }
    }
}

} // verus!
