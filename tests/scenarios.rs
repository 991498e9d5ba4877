use task_service::error::{respond, AppError, Body, DbError, Response};
use task_service::handlers::{create_task, delete_task, get_task_by_id, get_tasks, update_task};
use task_service::store::{ExecResult, MemoryStore};
use task_service::task::{CreateTask, Task};

fn form(name: &str, description: Option<&str>) -> CreateTask {
    CreateTask { name: name.to_string(), description: description.map(|d| d.to_string()) }
}

fn task(id: i64, name: &str, description: Option<&str>) -> Task {
    Task { id, name: name.to_string(), description: description.map(|d| d.to_string()) }
}

fn text(status: u16, body: &str) -> Response {
    Response { status, body: Body::Text(body.to_string()) }
}

fn post(store: &mut MemoryStore, f: CreateTask) -> Response {
    let executed = store.insert(&f);
    respond(create_task(f, executed))
}

fn get(store: &MemoryStore, id: i64) -> Response {
    respond(get_task_by_id(id, store.fetch_by_id(id)))
}

fn put(store: &mut MemoryStore, id: i64, f: CreateTask) -> Response {
    let executed = store.update(id, &f);
    respond(update_task(id, executed))
}

fn delete(store: &mut MemoryStore, id: i64) -> Response {
    let executed = store.delete(id);
    respond(delete_task(id, executed))
}

fn list(store: &MemoryStore) -> Response {
    respond(get_tasks(store.fetch_all()))
}

fn db_failure() -> DbError {
    DbError { message: "disk I/O error".to_string() }
}

#[test]
fn create_returns_201_with_assigned_id() {
    let mut store = MemoryStore::new();
    let r = post(&mut store, form("Buy milk", None));
    assert_eq!(r, Response { status: 201, body: Body::One(task(1, "Buy milk", None)) });
}

#[test]
fn get_after_create_returns_same_body() {
    let mut store = MemoryStore::new();
    let created = post(&mut store, form("Buy milk", None));
    let fetched = get(&store, 1);
    assert_eq!(fetched, Response { status: 200, body: Body::One(task(1, "Buy milk", None)) });
    assert_eq!(created.body, fetched.body);
}

#[test]
fn update_confirms_and_changes_fields() {
    let mut store = MemoryStore::new();
    post(&mut store, form("Buy milk", None));
    let r = put(&mut store, 1, form("Buy bread", Some("whole wheat")));
    assert_eq!(r, text(200, "updated task 1"));
    assert_eq!(
        get(&store, 1),
        Response { status: 200, body: Body::One(task(1, "Buy bread", Some("whole wheat"))) }
    );
}

#[test]
fn delete_confirms_then_get_is_404() {
    let mut store = MemoryStore::new();
    post(&mut store, form("Buy milk", None));
    assert_eq!(delete(&mut store, 1), text(200, "Deleted task 1"));
    assert_eq!(get(&store, 1), text(404, "Task with id 1 not found"));
}

#[test]
fn get_never_created_is_404() {
    let store = MemoryStore::new();
    assert_eq!(get(&store, 999), text(404, "Task with id 999 not found"));
}

#[test]
fn round_trip_with_description() {
    let mut store = MemoryStore::new();
    post(&mut store, form("first", None));
    let created = post(&mut store, form("Write report", Some("due friday")));
    let id = match &created.body {
        Body::One(t) => t.id,
        _ => panic!("create returned no task"),
    };
    assert_eq!(id, 2);
    assert_eq!(
        get(&store, id),
        Response { status: 200, body: Body::One(task(2, "Write report", Some("due friday"))) }
    );
}

#[test]
fn delete_absent_is_404_every_time() {
    let mut store = MemoryStore::new();
    assert_eq!(delete(&mut store, 5), text(404, "Task 5 not found"));
    assert_eq!(delete(&mut store, 5), text(404, "Task 5 not found"));
    post(&mut store, form("a", None));
    assert_eq!(delete(&mut store, 1), text(200, "Deleted task 1"));
    assert_eq!(delete(&mut store, 1), text(404, "Task 1 not found"));
}

#[test]
fn list_holds_every_created_task() {
    let mut store = MemoryStore::new();
    assert_eq!(list(&store), Response { status: 200, body: Body::Tasks(vec![]) });
    post(&mut store, form("a", None));
    post(&mut store, form("b", Some("bee")));
    post(&mut store, form("a", None));
    assert_eq!(
        list(&store),
        Response {
            status: 200,
            body: Body::Tasks(vec![task(1, "a", None), task(2, "b", Some("bee")), task(3, "a", None)]),
        }
    );
}

#[test]
fn ids_are_not_reused_after_delete() {
    let mut store = MemoryStore::new();
    post(&mut store, form("a", None));
    post(&mut store, form("b", None));
    delete(&mut store, 2);
    let r = post(&mut store, form("c", None));
    assert_eq!(r, Response { status: 201, body: Body::One(task(3, "c", None)) });
    assert_eq!(list(&store), Response { status: 200, body: Body::Tasks(vec![task(1, "a", None), task(3, "c", None)]) });
}

#[test]
fn update_keeps_the_id() {
    let mut store = MemoryStore::new();
    post(&mut store, form("a", Some("x")));
    post(&mut store, form("b", None));
    assert_eq!(put(&mut store, 2, form("c", None)), text(200, "updated task 2"));
    assert_eq!(get(&store, 2), Response { status: 200, body: Body::One(task(2, "c", None)) });
    assert_eq!(get(&store, 1), Response { status: 200, body: Body::One(task(1, "a", Some("x"))) });
}

#[test]
fn absent_ids_are_404_for_every_operation() {
    let mut store = MemoryStore::new();
    post(&mut store, form("a", None));
    assert_eq!(get(&store, 2).status, 404);
    assert_eq!(put(&mut store, 2, form("b", None)), text(404, "Task 2 not found"));
    assert_eq!(delete(&mut store, 2).status, 404);
    delete(&mut store, 1);
    assert_eq!(get(&store, 1).status, 404);
    assert_eq!(put(&mut store, 1, form("b", None)).status, 404);
    assert_eq!(delete(&mut store, 1).status, 404);
    assert_eq!(list(&store), Response { status: 200, body: Body::Tasks(vec![]) });
}

#[test]
fn store_failures_map_to_500() {
    let expected = text(500, "internal database error");
    assert_eq!(respond(get_tasks(Err(db_failure()))), expected);
    assert_eq!(respond(get_task_by_id(1, Err(db_failure()))), expected);
    assert_eq!(respond(create_task(form("a", None), Err(db_failure()))), expected);
    assert_eq!(respond(update_task(1, Err(db_failure()))), expected);
    assert_eq!(respond(delete_task(1, Err(db_failure()))), expected);
}

#[test]
fn store_failure_keeps_its_detail_in_the_error() {
    assert_eq!(get_tasks(Err(db_failure())), Err(AppError::Database(db_failure())));
}

#[test]
fn not_found_error_maps_to_404_with_message() {
    let e = AppError::NotFound("Task 3 not found".to_string());
    assert_eq!(e.error_response(), text(404, "Task 3 not found"));
}

#[test]
fn messages_render_negative_zero_and_extreme_ids() {
    let none = ExecResult { rows_affected: 0, last_insert_id: 0 };
    assert_eq!(respond(update_task(-7, Ok(none))), text(404, "Task -7 not found"));
    assert_eq!(respond(delete_task(0, Ok(none))), text(404, "Task 0 not found"));
    assert_eq!(
        respond(get_task_by_id(i64::MIN, Ok(None))),
        text(404, "Task with id -9223372036854775808 not found")
    );
    let one = ExecResult { rows_affected: 1, last_insert_id: 0 };
    assert_eq!(respond(delete_task(i64::MAX, Ok(one))), text(200, "Deleted task 9223372036854775807"));
    assert_eq!(respond(update_task(1234567890, Ok(one))), text(200, "updated task 1234567890"));
}

#[test]
fn create_uses_the_store_assigned_id() {
    let done = ExecResult { rows_affected: 1, last_insert_id: 42 };
    assert_eq!(
        respond(create_task(form("x", Some("y")), Ok(done))),
        Response { status: 201, body: Body::One(task(42, "x", Some("y"))) }
    );
}

#[test]
fn update_with_rows_changed_is_200_even_if_many() {
    let many = ExecResult { rows_affected: 3, last_insert_id: 9 };
    assert_eq!(respond(update_task(4, Ok(many))), text(200, "updated task 4"));
}

#[test]
fn empty_name_is_accepted() {
    let mut store = MemoryStore::new();
    assert_eq!(post(&mut store, form("", None)), Response { status: 201, body: Body::One(task(1, "", None)) });
}
