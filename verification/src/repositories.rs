//! The repository: what its five operations promise, stated over a model of
//! the table, and the errors they report.

use vstd::prelude::*;
use vstd::string::StringExecFns;
use crate::text::decimal;
use crate::text::decimal_text;
use crate::todo::merged;
use crate::todo::new_row;
use crate::todo::CreateTodo;
use crate::todo::CreateTodoData;
use crate::todo::Todo;
use crate::todo::TodoData;
use crate::todo::UpdateTodo;
use crate::todo::UpdateTodoData;

verus! {

/// Why a repository operation failed.
#[derive(Debug, PartialEq, Eq)]
pub enum RepositoryError {
    /// The store failed; the text says how.
    Unexpected(String),
    /// The store holds no row with this identifier.
    NotFound(i32),
}

impl RepositoryError {
    /// The text that describes this error.
    pub open spec fn message_text(self) -> Seq<char> {
        match self {
            RepositoryError::Unexpected(text) => "Unexpected Error: ["@ + text@ + "]"@,
            RepositoryError::NotFound(id) => "NotFound, id is "@ + decimal_text(id as int),
        }
    }

    /// Writes the text that describes this error.
    pub fn message(&self) -> (res: String)
        ensures
            res@ == self.message_text(),
    {
        match self {
            RepositoryError::Unexpected(text) => {
                let mut out = String::from_str("Unexpected Error: [");
                out.append(text.as_str());
                out.append("]");
                out
            },
            RepositoryError::NotFound(id) => {
                let mut out = String::from_str("NotFound, id is ");
                out.append(decimal(*id).as_str());
                out
            },
        }
    }
}

/// The table as mathematics: the rows by identifier, and every identifier
/// that was ever given to a row, whether the row is still there or not.
pub struct TableModel {
    pub rows: Map<i32, TodoData>,
    pub issued: Set<i32>,
}

impl TableModel {
    /// A table is well formed when it has finitely many rows, each filed
    /// under its own identifier, and each identifier was issued.
    pub open spec fn wf(self) -> bool {
        &&& self.rows.dom().finite()
        &&& forall|id: i32| #[trigger]
            self.rows.contains_key(id) ==> self.issued.contains(id) && self.rows[id].id == id
    }

    /// The table that has never held a row.
    pub open spec fn empty() -> TableModel {
        TableModel { rows: Map::empty(), issued: Set::empty() }
    }

    /// The table after `row` was written under an identifier of its own.
    pub open spec fn with_created(self, row: TodoData) -> TableModel {
        TableModel { rows: self.rows.insert(row.id, row), issued: self.issued.insert(row.id) }
    }

    /// The table after `payload` was merged into the row `id`.
    pub open spec fn with_updated(self, id: i32, payload: UpdateTodoData) -> TableModel {
        TableModel { rows: self.rows.insert(id, merged(self.rows[id], payload)), ..self }
    }

    /// The table after the row `id` was removed. Its identifier stays issued.
    pub open spec fn with_deleted(self, id: i32) -> TableModel {
        TableModel { rows: self.rows.remove(id), ..self }
    }
}

/// The rows that a list of todos shows.
pub open spec fn views(todos: Seq<Todo>) -> Seq<TodoData> {
    todos.map_values(|todo: Todo| todo@)
}

/// Whether some row of the list has the identifier `id`.
pub open spec fn has_id(listed: Seq<TodoData>, id: i32) -> bool {
    exists|i: int| 0 <= i < listed.len() && (#[trigger] listed[i]).id == id
}

/// `listed` shows every row of `rows` exactly once, in some order.
pub open spec fn lists(rows: Map<i32, TodoData>, listed: Seq<TodoData>) -> bool {
    &&& forall|i: int|
        0 <= i < listed.len() ==> rows.contains_key((#[trigger] listed[i]).id) && rows[listed[i].id]
            == listed[i]
    &&& forall|i: int, j: int|
        0 <= i < j < listed.len() ==> (#[trigger] listed[i]).id != (#[trigger] listed[j]).id
    &&& forall|id: i32| #[trigger] rows.contains_key(id) ==> has_id(listed, id)
}

/// What `create` may answer and do. On success the row is the payload's,
/// not completed, under an identifier that was never issued before, and the
/// table gains exactly that row. A failure is a store fault and changes
/// nothing.
pub open spec fn create_outcome(
    before: TableModel,
    payload: CreateTodoData,
    res: Result<Todo, RepositoryError>,
    after: TableModel,
) -> bool {
    match res {
        Ok(todo) => {
            &&& !before.issued.contains(todo@.id)
            &&& todo@ == new_row(todo@.id, payload)
            &&& after == before.with_created(todo@)
        },
        Err(e) => e is Unexpected && after == before,
    }
}

/// What `find` may answer: the row `id` where the table holds it, `NotFound`
/// with that identifier where it does not, or a store fault.
pub open spec fn find_outcome(table: TableModel, id: i32, res: Result<Todo, RepositoryError>) -> bool {
    match res {
        Ok(todo) => table.rows.contains_key(id) && todo@ == table.rows[id],
        Err(RepositoryError::NotFound(missing)) => missing == id && !table.rows.contains_key(id),
        Err(RepositoryError::Unexpected(_)) => true,
    }
}

/// What `all` may answer: every row exactly once, or a store fault; never
/// `NotFound`.
pub open spec fn all_outcome(table: TableModel, res: Result<Vec<Todo>, RepositoryError>) -> bool {
    match res {
        Ok(todos) => lists(table.rows, views(todos@)),
        Err(e) => e is Unexpected,
    }
}

/// What `update` may answer and do. On success the row `id` is the old row
/// with the payload merged into it, and no other row changes. Where the
/// table holds no row `id` the answer is `NotFound` with that identifier or
/// a store fault; every failure changes nothing.
pub open spec fn update_outcome(
    before: TableModel,
    id: i32,
    payload: UpdateTodoData,
    res: Result<Todo, RepositoryError>,
    after: TableModel,
) -> bool {
    match res {
        Ok(todo) => {
            &&& before.rows.contains_key(id)
            &&& todo@ == merged(before.rows[id], payload)
            &&& after == before.with_updated(id, payload)
        },
        Err(RepositoryError::NotFound(missing)) => {
            &&& missing == id
            &&& !before.rows.contains_key(id)
            &&& after == before
        },
        Err(RepositoryError::Unexpected(_)) => after == before,
    }
}

/// What `delete` may answer and do. On success the table held the row `id`
/// and holds it no more. Where it held none the answer is `NotFound` with
/// that identifier or a store fault; every failure changes nothing.
pub open spec fn delete_outcome(
    before: TableModel,
    id: i32,
    res: Result<(), RepositoryError>,
    after: TableModel,
) -> bool {
    match res {
        Ok(_) => before.rows.contains_key(id) && after == before.with_deleted(id),
        Err(RepositoryError::NotFound(missing)) => {
            &&& missing == id
            &&& !before.rows.contains_key(id)
            &&& after == before
        },
        Err(RepositoryError::Unexpected(_)) => after == before,
    }
}

/// Whether an answer reports a store fault.
pub open spec fn is_fault<T>(res: Result<T, RepositoryError>) -> bool {
    res matches Err(RepositoryError::Unexpected(_))
}

/// A store of todos. An implementation says what table it stands for and
/// keeps each operation within the outcome stated for it. Whether and when
/// a store fault occurs is the implementation's own matter, but it says in
/// which states it promises none, and an update or a deletion does not end
/// such a state.
pub trait TodoRepository {
    /// The table that this repository stands for.
    spec fn table(&self) -> TableModel;

    /// Whether, as the repository now is, its next operation is sure to
    /// report no store fault.
    spec fn faultless(&self) -> bool;

    /// What the implementation keeps true of itself between operations.
    spec fn inv(&self) -> bool;

    /// A repository in good order stands for a well-formed table.
    proof fn table_is_wf(&self)
        requires
            self.inv(),
        ensures
            self.table().wf(),
    ;

    /// Writes a new row for `payload` under an identifier that the store
    /// chooses, and answers with the row.
    fn create(&mut self, payload: CreateTodo) -> (res: Result<Todo, RepositoryError>)
        requires
            old(self).inv(),
        ensures
            final(self).inv(),
            create_outcome(old(self).table(), payload@, res, final(self).table()),
            old(self).faultless() ==> !is_fault(res),
    ;

    /// Fetches the row `id`.
    fn find(&self, id: i32) -> (res: Result<Todo, RepositoryError>)
        requires
            self.inv(),
        ensures
            find_outcome(self.table(), id, res),
            self.faultless() ==> !is_fault(res),
    ;

    /// Lists every row, in an order of the store's choosing.
    fn all(&self) -> (res: Result<Vec<Todo>, RepositoryError>)
        requires
            self.inv(),
        ensures
            all_outcome(self.table(), res),
            self.faultless() ==> !is_fault(res),
    ;

    /// Merges `payload` into the row `id`, and answers with the merged row.
    fn update(&mut self, id: i32, payload: UpdateTodo) -> (res: Result<Todo, RepositoryError>)
        requires
            old(self).inv(),
        ensures
            final(self).inv(),
            update_outcome(old(self).table(), id, payload@, res, final(self).table()),
            old(self).faultless() ==> !is_fault(res) && final(self).faultless(),
    ;

    /// Removes the row `id`. A row that is not there is an error, not a
    /// success.
    fn delete(&mut self, id: i32) -> (res: Result<(), RepositoryError>)
        requires
            old(self).inv(),
        ensures
            final(self).inv(),
            delete_outcome(old(self).table(), id, res, final(self).table()),
            old(self).faultless() ==> !is_fault(res) && final(self).faultless(),
    ;
}

} // verus!
