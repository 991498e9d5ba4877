//! The `tasks` table: the statements the service issues, a model of what each
//! does to the table, and an in-memory table that behaves as the model says.
use vstd::prelude::*;
use crate::error::DbError;
use crate::laws::deleted_is_absent;
use crate::task::{clone_text, tasks_view, CreateTask, NewTaskView, Task, TaskView};

verus! {

/// Creates the table if it is missing; issued once before the service starts.
pub const CREATE_TABLE_SQL: &'static str = "CREATE TABLE IF NOT EXISTS tasks (id INTEGER PRIMARY KEY AUTOINCREMENT, name TEXT NOT NULL, description TEXT)";

/// Lists every row.
pub const SELECT_ALL_SQL: &'static str = "SELECT id, name, description FROM tasks";

/// Looks up one row; binds the id.
pub const SELECT_BY_ID_SQL: &'static str = "SELECT id, name, description FROM tasks WHERE id = ?";

/// Adds a row; binds the name and the description.
pub const INSERT_SQL: &'static str = "INSERT INTO tasks (name, description) VALUES (?, ?)";

/// Rewrites a row; binds the name, the description and the id.
pub const UPDATE_SQL: &'static str = "UPDATE tasks SET name = ?, description = ? WHERE id = ?";

/// Removes a row; binds the id.
pub const DELETE_SQL: &'static str = "DELETE FROM tasks WHERE id = ?";

/// The outcome of a statement that changes the table.
#[derive(Clone, Copy, Debug, PartialEq, Eq, Structural)]
pub struct ExecResult {
    /// How many rows the statement changed.
    pub rows_affected: u64,
    /// The id of the last row inserted on the connection.
    pub last_insert_id: i64,
}

/// The detail of the failure of an insert once every id has been used.
pub open spec fn full_text() -> Seq<char> {
    "database or disk is full"@
}

/// The table as plain values: its rows in id order, the next id that an
/// insert assigns, and the id of the last row inserted.
pub struct TableModel {
    pub rows: Seq<TaskView>,
    pub next_id: int,
    pub last_insert_id: i64,
}

impl TableModel {
    /// The empty table of a new store.
    pub open spec fn empty() -> TableModel {
        TableModel { rows: Seq::empty(), next_id: 1, last_insert_id: 0 }
    }

    /// Ids are positive, below the next id, and increase along the rows.
    pub open spec fn wf(self) -> bool {
        &&& 1 <= self.next_id <= i64::MAX + 1
        &&& forall|i: int| 0 <= i < self.rows.len() ==> 1 <= #[trigger] self.rows[i].id < self.next_id
        &&& forall|i: int, j: int|
            0 <= i < j < self.rows.len() ==> #[trigger] self.rows[i].id < #[trigger] self.rows[j].id
    }

    /// A row with this id exists.
    pub open spec fn has(self, id: i64) -> bool {
        exists|i: int| 0 <= i < self.rows.len() && #[trigger] self.rows[i].id == id
    }

    /// The position of the row with this id, where one exists.
    pub open spec fn index_of(self, id: i64) -> int {
        choose|i: int| 0 <= i < self.rows.len() && #[trigger] self.rows[i].id == id
    }

    /// The row with this id, if any.
    pub open spec fn lookup(self, id: i64) -> Option<TaskView> {
        if self.has(id) {
            Some(self.rows[self.index_of(id)])
        } else {
            None
        }
    }

    /// Every id has been assigned: an insert fails.
    pub open spec fn is_full(self) -> bool {
        self.next_id > i64::MAX
    }

    /// The table after an insert.
    pub open spec fn after_insert(self, form: NewTaskView) -> TableModel {
        if self.is_full() {
            self
        } else {
            TableModel {
                rows: self.rows.push(
                    TaskView { id: self.next_id as i64, name: form.name, description: form.description },
                ),
                next_id: self.next_id + 1,
                last_insert_id: self.next_id as i64,
            }
        }
    }

    /// What an insert reports.
    pub open spec fn insert_outcome(self) -> Result<ExecResult, Seq<char>> {
        if self.is_full() {
            Err(full_text())
        } else {
            Ok(ExecResult { rows_affected: 1, last_insert_id: self.next_id as i64 })
        }
    }

    /// The table after an update of the row with this id.
    pub open spec fn after_update(self, id: i64, form: NewTaskView) -> TableModel {
        if self.has(id) {
            TableModel {
                rows: self.rows.update(
                    self.index_of(id),
                    TaskView { id, name: form.name, description: form.description },
                ),
                ..self
            }
        } else {
            self
        }
    }

    /// The table after a delete of the row with this id.
    pub open spec fn after_delete(self, id: i64) -> TableModel {
        if self.has(id) {
            TableModel { rows: self.rows.remove(self.index_of(id)), ..self }
        } else {
            self
        }
    }

    /// What an update or delete of the row with this id reports.
    pub open spec fn change_outcome(self, id: i64) -> Result<ExecResult, Seq<char>> {
        Ok(
            ExecResult {
                rows_affected: if self.has(id) { 1 } else { 0 },
                last_insert_id: self.last_insert_id,
            },
        )
    }
}

/// A store failure, as plain values: its detail.
pub open spec fn db_error_view(e: DbError) -> Seq<char> {
    e.message@
}

/// The result of a listing, as plain values.
pub open spec fn list_view(r: Result<Vec<Task>, DbError>) -> Result<Seq<TaskView>, Seq<char>> {
    match r {
        Ok(v) => Ok(tasks_view(v@)),
        Err(e) => Err(db_error_view(e)),
    }
}

/// The result of a lookup, as plain values.
pub open spec fn lookup_view(r: Result<Option<Task>, DbError>) -> Result<Option<TaskView>, Seq<char>> {
    match r {
        Ok(Some(t)) => Ok(Some(t@)),
        Ok(None) => Ok(None),
        Err(e) => Err(db_error_view(e)),
    }
}

/// The result of a change, as plain values.
pub open spec fn exec_view(r: Result<ExecResult, DbError>) -> Result<ExecResult, Seq<char>> {
    match r {
        Ok(x) => Ok(x),
        Err(e) => Err(db_error_view(e)),
    }
}

/// Where a row has the id, `index_of` names that row: ids are unique.
pub proof fn lemma_index_of(t: TableModel, i: int, id: i64)
    requires
        t.wf(),
        0 <= i < t.rows.len(),
        t.rows[i].id == id,
    ensures
        t.has(id),
        t.index_of(id) == i,
{
    let k = t.index_of(id);
    assert(t.rows[k].id == id);
    if k < i {
        assert(t.rows[k].id < t.rows[i].id);
    } else if i < k {
        assert(t.rows[i].id < t.rows[k].id);
    }
}

/// An insert keeps the table well formed.
pub proof fn lemma_insert_wf(t: TableModel, form: NewTaskView)
    requires
        t.wf(),
    ensures
        t.after_insert(form).wf(),
{
}

/// An update keeps the table well formed and every row's id in place.
pub proof fn lemma_update_wf(t: TableModel, id: i64, form: NewTaskView)
    requires
        t.wf(),
    ensures
        t.after_update(id, form).wf(),
        t.after_update(id, form).rows.len() == t.rows.len(),
        forall|i: int| 0 <= i < t.rows.len() ==> #[trigger] t.after_update(id, form).rows[i].id == t.rows[i].id,
{
    if t.has(id) {
        let k = t.index_of(id);
        let u = t.after_update(id, form);
        assert forall|i: int| 0 <= i < t.rows.len() implies #[trigger] u.rows[i].id == t.rows[i].id by {
            if i == k {
            }
        }
        assert forall|i: int, j: int| 0 <= i < j < u.rows.len() implies #[trigger] u.rows[i].id < #[trigger] u.rows[j].id by {
            assert(u.rows[i].id == t.rows[i].id);
            assert(u.rows[j].id == t.rows[j].id);
        }
        assert forall|i: int| 0 <= i < u.rows.len() implies 1 <= #[trigger] u.rows[i].id < u.next_id by {
            assert(u.rows[i].id == t.rows[i].id);
        }
    }
}

/// A `tasks` table held in memory, with the semantics of the statements above.
pub struct MemoryStore {
    rows: Vec<Task>,
    next_id: u64,
    last_insert_id: i64,
}

impl View for MemoryStore {
    type V = TableModel;

    closed spec fn view(&self) -> TableModel {
        TableModel {
            rows: tasks_view(self.rows@),
            next_id: self.next_id as int,
            last_insert_id: self.last_insert_id,
        }
    }
}

impl MemoryStore {
    /// An empty table.
    pub fn new() -> (r: MemoryStore)
        ensures
            r@ == TableModel::empty(),
            r@.wf(),
    {
        let r = MemoryStore { rows: Vec::new(), next_id: 1, last_insert_id: 0 };
        assert(r@.rows =~= Seq::empty());
        r
    }

    fn position(&self, id: i64) -> (r: Option<usize>)
        requires
            self@.wf(),
        ensures
            match r {
                Some(i) => i < self.rows@.len() && self@.has(id) && self@.index_of(id) == i,
                None => !self@.has(id),
            },
    {
        let mut i: usize = 0;
        while i < self.rows.len()
            invariant
                i <= self.rows@.len(),
                self@.wf(),
                forall|k: int| 0 <= k < i ==> #[trigger] self@.rows[k].id != id,
            decreases self.rows@.len() - i,
        {
            assert(self@.rows[i as int] == self.rows@[i as int]@);
            if self.rows[i].id == id {
                proof {
                    lemma_index_of(self@, i as int, id);
                }
                return Some(i);
            }
            i = i + 1;
        }
        None
    }

    /// Every row, in id order.
    pub fn fetch_all(&self) -> (r: Result<Vec<Task>, DbError>)
        ensures
            list_view(r) == Ok::<Seq<TaskView>, Seq<char>>(self@.rows),
    {
        let mut out: Vec<Task> = Vec::new();
        let mut i: usize = 0;
        while i < self.rows.len()
            invariant
                i <= self.rows@.len(),
                out@.len() == i,
                forall|k: int| 0 <= k < i ==> #[trigger] out@[k]@ == self.rows@[k]@,
            decreases self.rows@.len() - i,
        {
            out.push(self.rows[i].duplicate());
            i = i + 1;
        }
        assert(tasks_view(out@) =~= self@.rows);
        Ok(out)
    }

    /// The row with this id, if any.
    pub fn fetch_by_id(&self, id: i64) -> (r: Result<Option<Task>, DbError>)
        requires
            self@.wf(),
        ensures
            lookup_view(r) == Ok::<Option<TaskView>, Seq<char>>(self@.lookup(id)),
    {
        match self.position(id) {
            Some(i) => Ok(Some(self.rows[i].duplicate())),
            None => Ok(None),
        }
    }

    /// Adds a row with the next id.
    pub fn insert(&mut self, form: &CreateTask) -> (r: Result<ExecResult, DbError>)
        requires
            old(self)@.wf(),
        ensures
            final(self)@ == old(self)@.after_insert(form@),
            final(self)@.wf(),
            exec_view(r) == old(self)@.insert_outcome(),
    {
        proof {
            lemma_insert_wf(old(self)@, form@);
        }
        if self.next_id > i64::MAX as u64 {
            proof {
                reveal_strlit("database or disk is full");
            }
            return Err(DbError { message: String::from_str("database or disk is full") });
        }
        let id = self.next_id as i64;
        let task = Task { id, name: form.name.clone(), description: clone_text(&form.description) };
        self.rows.push(task);
        self.next_id = self.next_id + 1;
        self.last_insert_id = id;
        assert(self@.rows =~= old(self)@.after_insert(form@).rows);
        Ok(ExecResult { rows_affected: 1, last_insert_id: id })
    }

    /// Rewrites the name and description of the row with this id, if any.
    pub fn update(&mut self, id: i64, form: &CreateTask) -> (r: Result<ExecResult, DbError>)
        requires
            old(self)@.wf(),
        ensures
            final(self)@ == old(self)@.after_update(id, form@),
            final(self)@.wf(),
            exec_view(r) == old(self)@.change_outcome(id),
    {
        proof {
            lemma_update_wf(old(self)@, id, form@);
        }
        match self.position(id) {
            Some(i) => {
                let task = Task { id, name: form.name.clone(), description: clone_text(&form.description) };
                self.rows.set(i, task);
                assert(self@.rows =~= old(self)@.after_update(id, form@).rows);
                Ok(ExecResult { rows_affected: 1, last_insert_id: self.last_insert_id })
            },
            None => Ok(ExecResult { rows_affected: 0, last_insert_id: self.last_insert_id }),
        }
    }

    /// Removes the row with this id, if any.
    pub fn delete(&mut self, id: i64) -> (r: Result<ExecResult, DbError>)
        requires
            old(self)@.wf(),
        ensures
            final(self)@ == old(self)@.after_delete(id),
            final(self)@.wf(),
            exec_view(r) == old(self)@.change_outcome(id),
    {
        proof {
            deleted_is_absent(old(self)@, id);
        }
        match self.position(id) {
            Some(i) => {
                let _removed = self.rows.remove(i);
                assert(self@.rows =~= old(self)@.after_delete(id).rows);
                Ok(ExecResult { rows_affected: 1, last_insert_id: self.last_insert_id })
            },
            None => Ok(ExecResult { rows_affected: 0, last_insert_id: self.last_insert_id }),
        }
    }
}

} // verus!
