//! Laws of the service: what a sequence of requests answers, given that the
//! store behaves as the table model says.
use vstd::prelude::*;
use crate::error::{BodyView, ErrorView, ResponseView, reply};
use crate::handlers::{
    create_reply, delete_reply, list_reply, lookup_reply, missing_task_text, update_reply, updated_text,
};
use crate::store::{TableModel, lemma_index_of, lemma_insert_wf, lemma_update_wf};
use crate::task::{NewTaskView, TaskView};

verus! {

/// The table after inserting each payload in turn.
pub open spec fn after_inserts(t: TableModel, forms: Seq<NewTaskView>) -> TableModel
    decreases forms.len(),
{
    if forms.len() == 0 {
        t
    } else {
        after_inserts(t, forms.drop_last()).after_insert(forms.last())
    }
}

/// The rows that inserting each payload in turn adds, from the id `start` on.
pub open spec fn inserted_rows(start: int, forms: Seq<NewTaskView>) -> Seq<TaskView> {
    Seq::new(
        forms.len(),
        |i: int| TaskView { id: (start + i) as i64, name: forms[i].name, description: forms[i].description },
    )
}

/// A deleted id is absent afterwards, and the table stays well formed.
pub proof fn deleted_is_absent(t: TableModel, id: i64)
    requires
        t.wf(),
    ensures
        t.after_delete(id).wf(),
        !t.after_delete(id).has(id),
{
    if t.has(id) {
        let k = t.index_of(id);
        let d = t.after_delete(id);
        assert forall|i: int| 0 <= i < d.rows.len() implies #[trigger] d.rows[i] == (if i < k {
            t.rows[i]
        } else {
            t.rows[i + 1]
        }) by {
        }
        assert forall|i: int, j: int| 0 <= i < j < d.rows.len() implies #[trigger] d.rows[i].id < #[trigger] d.rows[j].id by {
            let oi = if i < k { i } else { i + 1 };
            let oj = if j < k { j } else { j + 1 };
            assert(d.rows[i] == t.rows[oi]);
            assert(d.rows[j] == t.rows[oj]);
            assert(t.rows[oi].id < t.rows[oj].id);
        }
        assert forall|i: int| 0 <= i < d.rows.len() implies 1 <= #[trigger] d.rows[i].id < d.next_id by {
            let oi = if i < k { i } else { i + 1 };
            assert(d.rows[i] == t.rows[oi]);
        }
        if d.has(id) {
            let j = choose|j: int| 0 <= j < d.rows.len() && #[trigger] d.rows[j].id == id;
            let oj = if j < k { j } else { j + 1 };
            assert(d.rows[j] == t.rows[oj]);
            if oj < k {
                assert(t.rows[oj].id < t.rows[k].id);
            } else {
                assert(t.rows[k].id < t.rows[oj].id);
            }
        }
    }
}

/// An id that the store has not yet assigned names no row.
pub proof fn unassigned_is_absent(t: TableModel, id: i64)
    requires
        t.wf(),
        id < 1 || id >= t.next_id,
    ensures
        !t.has(id),
{
}

/// Creating a task and then fetching it by the id that the creation returned
/// yields a task with that id and the created name and description.
pub proof fn create_then_get(t: TableModel, form: NewTaskView)
    requires
        t.wf(),
        !t.is_full(),
    ensures
        create_reply(form, t.insert_outcome()) == Ok::<ResponseView, ErrorView>(
            ResponseView {
                status: 201,
                body: BodyView::One(TaskView { id: t.next_id as i64, name: form.name, description: form.description }),
            },
        ),
        lookup_reply(t.next_id as i64, Ok(t.after_insert(form).lookup(t.next_id as i64)))
            == Ok::<ResponseView, ErrorView>(
            ResponseView {
                status: 200,
                body: BodyView::One(TaskView { id: t.next_id as i64, name: form.name, description: form.description }),
            },
        ),
{
    let u = t.after_insert(form);
    lemma_insert_wf(t, form);
    lemma_index_of(u, t.rows.len() as int, t.next_id as i64);
}

/// Deleting an id that names no row yields not found and leaves the table as it was,
/// so deleting it again yields not found again.
pub proof fn delete_absent_not_found(t: TableModel, id: i64)
    requires
        t.wf(),
        !t.has(id),
    ensures
        delete_reply(id, t.change_outcome(id)) == Err::<ResponseView, ErrorView>(
            ErrorView::NotFound(missing_task_text(id)),
        ),
        t.after_delete(id) == t,
{
}

/// Whatever the table holds, a second delete of the same id yields not found.
pub proof fn delete_twice_not_found(t: TableModel, id: i64)
    requires
        t.wf(),
    ensures
        delete_reply(id, t.after_delete(id).change_outcome(id)) == Err::<ResponseView, ErrorView>(
            ErrorView::NotFound(missing_task_text(id)),
        ),
{
    deleted_is_absent(t, id);
}

proof fn lemma_after_inserts(t: TableModel, forms: Seq<NewTaskView>)
    requires
        t.wf(),
        t.next_id + forms.len() <= i64::MAX + 1,
    ensures
        after_inserts(t, forms).wf(),
        after_inserts(t, forms).next_id == t.next_id + forms.len(),
        after_inserts(t, forms).rows == t.rows + inserted_rows(t.next_id, forms),
    decreases forms.len(),
{
    if forms.len() == 0 {
        assert(t.rows + inserted_rows(t.next_id, forms) =~= t.rows);
    } else {
        let prev = forms.drop_last();
        lemma_after_inserts(t, prev);
        let p = after_inserts(t, prev);
        lemma_insert_wf(p, forms.last());
        assert(inserted_rows(t.next_id, forms) =~= inserted_rows(t.next_id, prev).push(
            TaskView { id: p.next_id as i64, name: forms.last().name, description: forms.last().description },
        ));
        assert(after_inserts(t, forms).rows =~= t.rows + inserted_rows(t.next_id, forms));
    }
}

/// After creating tasks one by one with no deletion, each creation returned the
/// next id, and the listing holds at least as many rows, among them every created task.
pub proof fn list_after_creates(t: TableModel, forms: Seq<NewTaskView>)
    requires
        t.wf(),
        t.next_id + forms.len() <= i64::MAX + 1,
    ensures
        forall|i: int| 0 <= i < forms.len() ==> #[trigger] create_reply(forms[i], after_inserts(t, forms.take(i)).insert_outcome())
            == Ok::<ResponseView, ErrorView>(
            ResponseView {
                status: 201,
                body: BodyView::One(
                    TaskView { id: (t.next_id + i) as i64, name: forms[i].name, description: forms[i].description },
                ),
            },
        ),
        list_reply(Ok(after_inserts(t, forms).rows)) == Ok::<ResponseView, ErrorView>(
            ResponseView { status: 200, body: BodyView::Tasks(after_inserts(t, forms).rows) },
        ),
        after_inserts(t, forms).rows.len() >= forms.len(),
        forall|i: int| 0 <= i < forms.len() ==> after_inserts(t, forms).rows.contains(
            TaskView { id: (t.next_id + i) as i64, name: #[trigger] forms[i].name, description: forms[i].description },
        ),
{
    lemma_after_inserts(t, forms);
    let rows = after_inserts(t, forms).rows;
    assert forall|i: int| 0 <= i < forms.len() implies #[trigger] create_reply(forms[i], after_inserts(t, forms.take(i)).insert_outcome())
        == Ok::<ResponseView, ErrorView>(
        ResponseView {
            status: 201,
            body: BodyView::One(
                TaskView { id: (t.next_id + i) as i64, name: forms[i].name, description: forms[i].description },
            ),
        },
    ) by {
        lemma_after_inserts(t, forms.take(i));
    }
    assert forall|i: int| 0 <= i < forms.len() implies rows.contains(
        TaskView { id: (t.next_id + i) as i64, name: #[trigger] forms[i].name, description: forms[i].description },
    ) by {
        assert(rows[t.rows.len() + i] == inserted_rows(t.next_id, forms)[i]);
    }
}

/// Updating an existing task confirms it, and a later fetch of the same id
/// returns that id with the new name and description.
pub proof fn update_keeps_id(t: TableModel, id: i64, form: NewTaskView)
    requires
        t.wf(),
        t.has(id),
    ensures
        update_reply(id, t.change_outcome(id)) == Ok::<ResponseView, ErrorView>(
            ResponseView { status: 200, body: BodyView::Text(updated_text(id)) },
        ),
        lookup_reply(id, Ok(t.after_update(id, form).lookup(id))) == Ok::<ResponseView, ErrorView>(
            ResponseView {
                status: 200,
                body: BodyView::One(TaskView { id, name: form.name, description: form.description }),
            },
        ),
{
    let k = t.index_of(id);
    let u = t.after_update(id, form);
    lemma_update_wf(t, id, form);
    lemma_index_of(u, k, id);
}

/// On an id that names no row (never created, or deleted), lookup, update and
/// delete all answer 404, and the update changes nothing.
pub proof fn absent_is_not_found(t: TableModel, id: i64, form: NewTaskView)
    requires
        t.wf(),
        !t.has(id),
    ensures
        reply(lookup_reply(id, Ok(t.lookup(id)))).status == 404,
        reply(update_reply(id, t.change_outcome(id))).status == 404,
        reply(delete_reply(id, t.change_outcome(id))).status == 404,
        t.after_update(id, form) == t,
{
}

} // verus!
