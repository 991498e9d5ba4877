//! Responses, the two domain errors, and the one place where an error becomes a response.
use vstd::prelude::*;
use crate::task::{Task, TaskView, tasks_view};

verus! {

/// A failure reported by the store; `message` is its detail, never shown to clients.
#[derive(Debug, PartialEq, Eq)]
pub struct DbError {
    pub message: String,
}

/// The two kinds of failure a handler can end in.
#[derive(Debug, PartialEq, Eq)]
pub enum AppError {
    /// The targeted task does not exist; the message names its id.
    NotFound(String),
    /// The store failed.
    Database(DbError),
}

/// What an error is, as plain values.
pub enum ErrorView {
    NotFound(Seq<char>),
    Database(Seq<char>),
}

impl View for AppError {
    type V = ErrorView;

    open spec fn view(&self) -> ErrorView {
        match self {
            AppError::NotFound(m) => ErrorView::NotFound(m@),
            AppError::Database(e) => ErrorView::Database(e.message@),
        }
    }
}

/// A response body: a JSON list of tasks, one JSON task, or plain text.
#[derive(Debug, PartialEq, Eq)]
pub enum Body {
    Tasks(Vec<Task>),
    One(Task),
    Text(String),
}

/// What a body is, as plain values.
pub enum BodyView {
    Tasks(Seq<TaskView>),
    One(TaskView),
    Text(Seq<char>),
}

impl View for Body {
    type V = BodyView;

    open spec fn view(&self) -> BodyView {
        match self {
            Body::Tasks(v) => BodyView::Tasks(tasks_view(v@)),
            Body::One(t) => BodyView::One(t@),
            Body::Text(s) => BodyView::Text(s@),
        }
    }
}

/// An HTTP response: a status code and a body.
#[derive(Debug, PartialEq, Eq)]
pub struct Response {
    pub status: u16,
    pub body: Body,
}

/// What a response is, as plain values.
pub struct ResponseView {
    pub status: u16,
    pub body: BodyView,
}

impl View for Response {
    type V = ResponseView;

    open spec fn view(&self) -> ResponseView {
        ResponseView { status: self.status, body: self.body@ }
    }
}

/// The body sent for any store failure; the detail stays on the server.
pub open spec fn internal_error_text() -> Seq<char> {
    "internal database error"@
}

/// The response an error maps to: 404 with its message, or 500 with a generic text.
pub open spec fn error_reply(e: ErrorView) -> ResponseView {
    match e {
        ErrorView::NotFound(m) => ResponseView { status: 404, body: BodyView::Text(m) },
        ErrorView::Database(_) => ResponseView {
            status: 500,
            body: BodyView::Text(internal_error_text()),
        },
    }
}

/// The response a handler's result maps to.
pub open spec fn reply(r: Result<ResponseView, ErrorView>) -> ResponseView {
    match r {
        Ok(resp) => resp,
        Err(e) => error_reply(e),
    }
}

/// A handler's result, as plain values.
pub open spec fn result_view(r: Result<Response, AppError>) -> Result<ResponseView, ErrorView> {
    match r {
        Ok(resp) => Ok(resp@),
        Err(e) => Err(e@),
    }
}

impl AppError {
    /// The response this error maps to.
    pub fn error_response(&self) -> (r: Response)
        ensures
            r@ == error_reply(self@),
    {
        match self {
            AppError::NotFound(m) => Response { status: 404, body: Body::Text(m.clone()) },
            AppError::Database(_) => Response {
                status: 500,
                body: Body::Text(String::from_str("internal database error")),
            },
        }
    }
}

/// The response a handler's result maps to: a success as it is, an error by `error_response`.
pub fn respond(result: Result<Response, AppError>) -> (r: Response)
    ensures
        r@ == reply(result_view(result)),
{
    match result {
        Ok(resp) => resp,
        Err(e) => e.error_response(),
    }
}

} // verus!
