//! The decisions of the five request handlers. Each takes what the store
//! answered to the handler's statement and returns the response or the error;
//! issuing the statement and sending the response happen around them.
use vstd::prelude::*;
use crate::error::{AppError, Body, BodyView, DbError, ErrorView, Response, ResponseView, result_view};
use crate::store::{ExecResult, exec_view, list_view, lookup_view};
use crate::task::{CreateTask, NewTaskView, Task, TaskView};
use crate::text::{append_int, int_text};

verus! {

/// The message of a failed lookup.
pub open spec fn missing_lookup_text(id: i64) -> Seq<char> {
    "Task with id "@ + int_text(id as int) + " not found"@
}

/// The message of a failed update or delete.
pub open spec fn missing_task_text(id: i64) -> Seq<char> {
    "Task "@ + int_text(id as int) + " not found"@
}

/// The confirmation of an update.
pub open spec fn updated_text(id: i64) -> Seq<char> {
    "updated task "@ + int_text(id as int)
}

/// The confirmation of a delete.
pub open spec fn deleted_text(id: i64) -> Seq<char> {
    "Deleted task "@ + int_text(id as int)
}

/// Listing: 200 with every row, or the store's failure.
pub open spec fn list_reply(fetched: Result<Seq<TaskView>, Seq<char>>) -> Result<ResponseView, ErrorView> {
    match fetched {
        Ok(rows) => Ok(ResponseView { status: 200, body: BodyView::Tasks(rows) }),
        Err(m) => Err(ErrorView::Database(m)),
    }
}

/// Lookup: 200 with the row, not found when there is none, or the store's failure.
pub open spec fn lookup_reply(id: i64, fetched: Result<Option<TaskView>, Seq<char>>) -> Result<ResponseView, ErrorView> {
    match fetched {
        Ok(Some(t)) => Ok(ResponseView { status: 200, body: BodyView::One(t) }),
        Ok(None) => Err(ErrorView::NotFound(missing_lookup_text(id))),
        Err(m) => Err(ErrorView::Database(m)),
    }
}

/// Create: 201 with the payload under the id the store assigned, or the store's failure.
pub open spec fn create_reply(form: NewTaskView, executed: Result<ExecResult, Seq<char>>) -> Result<ResponseView, ErrorView> {
    match executed {
        Ok(x) => Ok(ResponseView {
            status: 201,
            body: BodyView::One(TaskView { id: x.last_insert_id, name: form.name, description: form.description }),
        }),
        Err(m) => Err(ErrorView::Database(m)),
    }
}

/// Update: not found when no row changed, else 200 with a confirmation; or the store's failure.
pub open spec fn update_reply(id: i64, executed: Result<ExecResult, Seq<char>>) -> Result<ResponseView, ErrorView> {
    match executed {
        Ok(x) => if x.rows_affected == 0 {
            Err(ErrorView::NotFound(missing_task_text(id)))
        } else {
            Ok(ResponseView { status: 200, body: BodyView::Text(updated_text(id)) })
        },
        Err(m) => Err(ErrorView::Database(m)),
    }
}

/// Delete: not found when no row changed, else 200 with a confirmation; or the store's failure.
pub open spec fn delete_reply(id: i64, executed: Result<ExecResult, Seq<char>>) -> Result<ResponseView, ErrorView> {
    match executed {
        Ok(x) => if x.rows_affected == 0 {
            Err(ErrorView::NotFound(missing_task_text(id)))
        } else {
            Ok(ResponseView { status: 200, body: BodyView::Text(deleted_text(id)) })
        },
        Err(m) => Err(ErrorView::Database(m)),
    }
}

fn id_text(prefix: &str, id: i64, suffix: &str) -> (r: String)
    ensures
        r@ == prefix@ + int_text(id as int) + suffix@,
{
    let mut s = String::from_str(prefix);
    append_int(&mut s, id);
    s.append(suffix);
    s
}

/// Handles `GET /tasks`, given what the store answered to the listing.
pub fn get_tasks(fetched: Result<Vec<Task>, DbError>) -> (r: Result<Response, AppError>)
    ensures
        result_view(r) == list_reply(list_view(fetched)),
{
    match fetched {
        Ok(tasks) => Ok(Response { status: 200, body: Body::Tasks(tasks) }),
        Err(e) => Err(AppError::Database(e)),
    }
}

/// Handles `GET /tasks/{id}`, given what the store answered to the lookup of `id`.
pub fn get_task_by_id(id: i64, fetched: Result<Option<Task>, DbError>) -> (r: Result<Response, AppError>)
    ensures
        result_view(r) == lookup_reply(id, lookup_view(fetched)),
{
    match fetched {
        Ok(Some(t)) => Ok(Response { status: 200, body: Body::One(t) }),
        Ok(None) => Err(AppError::NotFound(id_text("Task with id ", id, " not found"))),
        Err(e) => Err(AppError::Database(e)),
    }
}

/// Handles `POST /tasks`, given the payload and what the store answered to its insert.
pub fn create_task(form: CreateTask, executed: Result<ExecResult, DbError>) -> (r: Result<Response, AppError>)
    ensures
        result_view(r) == create_reply(form@, exec_view(executed)),
{
    match executed {
        Ok(x) => Ok(Response { status: 201, body: Body::One(Task::from_payload(x.last_insert_id, form)) }),
        Err(e) => Err(AppError::Database(e)),
    }
}

/// Handles `PUT /tasks/{id}`, given what the store answered to the update of `id`.
pub fn update_task(id: i64, executed: Result<ExecResult, DbError>) -> (r: Result<Response, AppError>)
    ensures
        result_view(r) == update_reply(id, exec_view(executed)),
{
    match executed {
        Ok(x) => if x.rows_affected == 0 {
            Err(AppError::NotFound(id_text("Task ", id, " not found")))
        } else {
            let text = id_text("updated task ", id, "");
            proof {
                reveal_strlit("");
            }
            assert(text@ =~= "updated task "@ + int_text(id as int));
            Ok(Response { status: 200, body: Body::Text(text) })
        },
        Err(e) => Err(AppError::Database(e)),
    }
}

/// Handles `DELETE /tasks/{id}`, given what the store answered to the delete of `id`.
pub fn delete_task(id: i64, executed: Result<ExecResult, DbError>) -> (r: Result<Response, AppError>)
    ensures
        result_view(r) == delete_reply(id, exec_view(executed)),
{
    match executed {
        Ok(x) => if x.rows_affected == 0 {
            Err(AppError::NotFound(id_text("Task ", id, " not found")))
        } else {
            let text = id_text("Deleted task ", id, "");
            proof {
                reveal_strlit("");
            }
            assert(text@ =~= "Deleted task "@ + int_text(id as int));
            Ok(Response { status: 200, body: Body::Text(text) })
        },
        Err(e) => Err(AppError::Database(e)),
    }
}

} // verus!
