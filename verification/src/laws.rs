//! What holds across several operations of a repository, whatever the
//! implementation: each law speaks of the outcomes that the operations'
//! contracts state, and of the answers that the handlers give to them.

use vstd::prelude::*;
use crate::handlers::spec_delete_response;
use crate::handlers::spec_find_response;
use crate::handlers::Status;
use crate::repositories::create_outcome;
use crate::repositories::delete_outcome;
use crate::repositories::find_outcome;
use crate::repositories::has_id;
use crate::repositories::is_fault;
use crate::repositories::lists;
use crate::repositories::update_outcome;
use crate::repositories::RepositoryError;
use crate::repositories::TableModel;
use crate::todo::merged;
use crate::todo::new_row;
use crate::todo::CreateTodoData;
use crate::todo::Todo;
use crate::todo::TodoData;
use crate::todo::UpdateTodoData;

verus! {

/// A fetch of an identifier that names no row is answered with `NotFound`,
/// unless the store fails. An identifier that was never issued names no row.
pub proof fn law_missing_id_is_not_found(
    table: TableModel,
    id: i32,
    found: Result<Todo, RepositoryError>,
)
    requires
        table.wf(),
        !table.rows.contains_key(id) || !table.issued.contains(id),
        find_outcome(table, id, found),
        !is_fault(found),
    ensures
        found == Err::<Todo, RepositoryError>(RepositoryError::NotFound(id)),
        spec_find_response(found) == Err::<(Status, Todo), Status>(Status::NotFound),
{
}

/// The update payload that sets the completion flag and nothing else.
pub open spec fn completion_only(flag: bool) -> UpdateTodoData {
    UpdateTodoData { title: None, description: None, completed: Some(flag) }
}

/// An update of a todo that was just created succeeds, unless the store
/// fails, and leaves the row as the payload's fields merged over the created
/// ones. With a payload that only sets the completion flag, the title and
/// the description stay as they were created and the flag is as set.
pub proof fn law_update_merges_over_created(
    before: TableModel,
    payload: CreateTodoData,
    created: Todo,
    between: TableModel,
    change: UpdateTodoData,
    updated: Result<Todo, RepositoryError>,
    after: TableModel,
)
    requires
        create_outcome(before, payload, Ok(created), between),
        update_outcome(between, created@.id, change, updated, after),
        !is_fault(updated),
    ensures
        updated matches Ok(todo) && todo@ == merged(new_row(created@.id, payload), change)
            && after.rows.contains_key(created@.id) && after.rows[created@.id] == todo@,
        forall|flag: bool|
            change == completion_only(flag) ==> {
                &&& after.rows[created@.id].id == created@.id
                &&& after.rows[created@.id].title == created@.title
                &&& after.rows[created@.id].description == created@.description
                &&& after.rows[created@.id].completed == flag
            },
{
}

/// Once a todo is deleted it stays gone: a fetch of its identifier is
/// answered with `NotFound`, a second deletion too, and that second deletion
/// changes nothing. (Either may instead meet a store fault.)
pub proof fn law_deleted_is_gone(
    before: TableModel,
    id: i32,
    between: TableModel,
    found: Result<Todo, RepositoryError>,
    again: Result<(), RepositoryError>,
    after: TableModel,
)
    requires
        delete_outcome(before, id, Ok(()), between),
        find_outcome(between, id, found),
        !is_fault(found),
        delete_outcome(between, id, again, after),
        !is_fault(again),
    ensures
        spec_find_response(found) == Err::<(Status, Todo), Status>(Status::NotFound),
        again == Err::<(), RepositoryError>(RepositoryError::NotFound(id)),
        spec_delete_response(again) == Status::NotFound,
        after == between,
{
}

/// The table after the rows of `created` were created in `start`, one after
/// the other.
pub open spec fn after_creating(start: TableModel, created: Seq<TodoData>) -> TableModel
    decreases created.len(),
{
    if created.len() == 0 {
        start
    } else {
        after_creating(start, created.drop_last()).with_created(created.last())
    }
}

/// Each row of `created` got an identifier that had not been issued when it
/// was created: not in `start`, and not to a row created before it.
pub open spec fn each_fresh(start: TableModel, created: Seq<TodoData>) -> bool {
    forall|k: int|
        0 <= k < created.len() ==> !after_creating(start, created.take(k)).issued.contains(
            (#[trigger] created[k]).id,
        )
}

/// The identifiers issued after a run of creations are those issued before
/// and those of the created rows.
pub proof fn lemma_issued_after_creating(start: TableModel, created: Seq<TodoData>)
    ensures
        forall|id: i32| #[trigger]
            after_creating(start, created).issued.contains(id) <==> start.issued.contains(id)
                || has_id(created, id),
    decreases created.len(),
{
    let end = after_creating(start, created);
    if created.len() > 0 {
        let front = created.drop_last();
        let last = created.last();
        let mid = after_creating(start, front);
        lemma_issued_after_creating(start, front);
        lemma_has_id_push(front, last);
        assert(front.push(last) == created);
        assert(end.issued == mid.issued.insert(last.id));
        assert forall|id: i32| #[trigger]
            end.issued.contains(id) <==> start.issued.contains(id) || has_id(created, id) by {
            assert(has_id(front.push(last), id) <==> has_id(front, id) || id == last.id);
            assert(mid.issued.contains(id) <==> start.issued.contains(id) || has_id(front, id));
        }
    } else {
        assert forall|id: i32| !has_id(created, id) by {}
    }
}

/// A list with one more row has the identifiers of the shorter list and the
/// identifier of that row.
pub proof fn lemma_has_id_push(front: Seq<TodoData>, last: TodoData)
    ensures
        forall|id: i32| #[trigger]
            has_id(front.push(last), id) <==> has_id(front, id) || id == last.id,
{
    let longer = front.push(last);
    assert forall|id: i32| #[trigger]
        has_id(longer, id) <==> has_id(front, id) || id == last.id by {
        if has_id(longer, id) {
            let k = choose|k: int| 0 <= k < longer.len() && (#[trigger] longer[k]).id == id;
            if k < front.len() {
                assert(front[k].id == id);
            }
        }
        if has_id(front, id) {
            let k = choose|k: int| 0 <= k < front.len() && (#[trigger] front[k]).id == id;
            assert(longer[k].id == id);
        }
        if id == last.id {
            assert(longer[front.len() as int].id == id);
        }
    }
}

/// The created rows have identifiers of their own: none is the identifier of
/// a row that `start` held, and no two are the same.
pub open spec fn ids_are_new(start: TableModel, created: Seq<TodoData>) -> bool {
    &&& forall|k: int|
        0 <= k < created.len() ==> !start.rows.contains_key((#[trigger] created[k]).id)
    &&& forall|j: int, k: int|
        0 <= j < k < created.len() ==> (#[trigger] created[j]).id != (#[trigger] created[k]).id
}

/// Rows created under fresh identifiers have identifiers of their own.
pub proof fn lemma_fresh_ids_are_new(start: TableModel, created: Seq<TodoData>)
    requires
        start.wf(),
        each_fresh(start, created),
    ensures
        ids_are_new(start, created),
{
    assert forall|k: int| 0 <= k < created.len() implies !start.rows.contains_key(
        (#[trigger] created[k]).id,
    ) by {
        lemma_issued_after_creating(start, created.take(k));
        assert(!after_creating(start, created.take(k)).issued.contains(created[k].id));
    }
    assert forall|j: int, k: int| 0 <= j < k < created.len() implies (#[trigger] created[j]).id != (
    #[trigger] created[k]).id by {
        lemma_issued_after_creating(start, created.take(k));
        assert(!after_creating(start, created.take(k)).issued.contains(created[k].id));
        assert(created.take(k)[j] == created[j]);
        if created[j].id == created[k].id {
            assert(has_id(created.take(k), created[k].id));
        }
    }
}

/// After a run of creations under identifiers of their own, the table holds
/// the rows it held before, unchanged, and each created row under its
/// identifier, and it has grown by the number of creations.
pub proof fn lemma_rows_after_creating(start: TableModel, created: Seq<TodoData>)
    requires
        start.rows.dom().finite(),
        ids_are_new(start, created),
    ensures
        after_creating(start, created).rows.dom().finite(),
        after_creating(start, created).rows.dom().len() == start.rows.dom().len() + created.len(),
        forall|id: i32| #[trigger]
            after_creating(start, created).rows.contains_key(id) <==> start.rows.contains_key(id)
                || has_id(created, id),
        forall|id: i32|
            start.rows.contains_key(id) ==> #[trigger] after_creating(start, created).rows[id]
                == start.rows[id],
        forall|k: int|
            0 <= k < created.len() ==> after_creating(start, created).rows[(
            #[trigger] created[k]).id] == created[k],
    decreases created.len(),
{
    if created.len() > 0 {
        let front = created.drop_last();
        let last = created.last();
        let n = front.len() as int;
        assert(ids_are_new(start, front)) by {
            assert forall|k: int| 0 <= k < front.len() implies !start.rows.contains_key(
                (#[trigger] front[k]).id,
            ) by {
                assert(front[k] == created[k]);
            }
            assert forall|j: int, k: int| 0 <= j < k < front.len() implies (#[trigger] front[j]).id
                != (#[trigger] front[k]).id by {
                assert(front[j] == created[j]);
                assert(front[k] == created[k]);
            }
        }
        lemma_rows_after_creating(start, front);
        lemma_has_id_push(front, last);
        assert(front.push(last) == created);
        let mid = after_creating(start, front);
        let end = after_creating(start, created);
        assert(end.rows == mid.rows.insert(last.id, last));
        assert(created[n] == last);
        assert(!has_id(front, last.id)) by {
            if has_id(front, last.id) {
                let j = choose|j: int| 0 <= j < front.len() && (#[trigger] front[j]).id == last.id;
                assert(front[j] == created[j]);
                assert(created[j].id != created[n].id);
            }
        }
        assert(!mid.rows.contains_key(last.id));
        assert(end.rows.dom() == mid.rows.dom().insert(last.id));
        assert forall|id: i32|
            start.rows.contains_key(id) implies #[trigger] end.rows[id] == start.rows[id] by {
            assert(mid.rows[id] == start.rows[id]);
            assert(id != last.id);
        }
        assert forall|k: int| 0 <= k < created.len() implies end.rows[(#[trigger] created[k]).id]
            == created[k] by {
            if k < n {
                assert(front[k] == created[k]);
                assert(mid.rows[front[k].id] == front[k]);
                assert(created[k].id != created[n].id);
            }
        }
    }
}

/// A list that shows every row of a finite table exactly once is as long as
/// the table has rows.
pub proof fn lemma_listing_length(rows: Map<i32, TodoData>, listed: Seq<TodoData>)
    requires
        rows.dom().finite(),
        lists(rows, listed),
    ensures
        listed.len() == rows.dom().len(),
    decreases listed.len(),
{
    if listed.len() == 0 {
        assert forall|id: i32| !rows.dom().contains(id) by {
            if rows.contains_key(id) {
                assert(has_id(listed, id));
            }
        }
        assert(rows.dom() =~= Set::<i32>::empty());
    } else {
        let front = listed.drop_last();
        let last = listed.last();
        let rest = rows.remove(last.id);
        assert(listed[listed.len() - 1] == last);
        assert(lists(rest, front)) by {
            assert forall|i: int| 0 <= i < front.len() implies rest.contains_key(
                (#[trigger] front[i]).id,
            ) && rest[front[i].id] == front[i] by {
                assert(front[i] == listed[i]);
                assert(listed[i].id != listed[listed.len() - 1].id);
            }
            assert forall|i: int, j: int| 0 <= i < j < front.len() implies (#[trigger] front[i]).id
                != (#[trigger] front[j]).id by {
                assert(front[i] == listed[i]);
                assert(front[j] == listed[j]);
            }
            assert forall|id: i32| #[trigger] rest.contains_key(id) implies has_id(front, id) by {
                assert(rows.contains_key(id));
                assert(has_id(listed, id));
                let i = choose|i: int| 0 <= i < listed.len() && (#[trigger] listed[i]).id == id;
                assert(i < front.len());
                assert(front[i].id == id);
            }
        }
        lemma_listing_length(rest, front);
        assert(rows.contains_key(last.id));
        assert(rest.dom() =~= rows.dom().remove(last.id));
    }
}

/// After any number of todos were created, a listing that meets no store
/// fault shows each row that was there before and each created row, and
/// nothing else: it is as long as the table was large plus the number of
/// creations, and a row stands in it exactly if it was created or was there
/// before.
pub proof fn law_all_lists_what_was_created(
    start: TableModel,
    created: Seq<TodoData>,
    listed: Seq<TodoData>,
)
    requires
        start.wf(),
        each_fresh(start, created),
        lists(after_creating(start, created).rows, listed),
    ensures
        listed.len() == start.rows.dom().len() + created.len(),
        forall|row: TodoData|
            listed.contains(row) <==> created.contains(row) || (start.rows.contains_key(row.id)
                && start.rows[row.id] == row),
{
    let end = after_creating(start, created);
    lemma_fresh_ids_are_new(start, created);
    lemma_rows_after_creating(start, created);
    lemma_listing_length(end.rows, listed);
    assert forall|row: TodoData|
        listed.contains(row) <==> created.contains(row) || (start.rows.contains_key(row.id)
            && start.rows[row.id] == row) by {
        if listed.contains(row) {
            let i = choose|i: int| 0 <= i < listed.len() && listed[i] == row;
            assert(end.rows.contains_key(listed[i].id) && end.rows[listed[i].id] == listed[i]);
            if has_id(created, row.id) {
                let k = choose|k: int|
                    0 <= k < created.len() && (#[trigger] created[k]).id == row.id;
                assert(end.rows[created[k].id] == created[k]);
                assert(created[k] == row);
            }
        }
        if created.contains(row) {
            let k = choose|k: int| 0 <= k < created.len() && created[k] == row;
            assert(end.rows[created[k].id] == created[k]);
            assert(has_id(created, row.id));
            assert(end.rows.contains_key(row.id));
            assert(has_id(listed, row.id));
            let i = choose|i: int| 0 <= i < listed.len() && (#[trigger] listed[i]).id == row.id;
            assert(end.rows[listed[i].id] == listed[i]);
        }
        if start.rows.contains_key(row.id) && start.rows[row.id] == row {
            assert(end.rows.contains_key(row.id));
            assert(has_id(listed, row.id));
            let i = choose|i: int| 0 <= i < listed.len() && (#[trigger] listed[i]).id == row.id;
            assert(end.rows[listed[i].id] == listed[i]);
        }
    }
}

/// After `n` todos were created in a table that had never held a row, a
/// listing that meets no store fault has `n` rows: the created ones, each
/// once, in some order.
pub proof fn law_all_after_only_creations(created: Seq<TodoData>, listed: Seq<TodoData>)
    requires
        each_fresh(TableModel::empty(), created),
        lists(after_creating(TableModel::empty(), created).rows, listed),
    ensures
        listed.len() == created.len(),
        listed.to_set() == created.to_set(),
        listed.no_duplicates(),
{
    law_all_lists_what_was_created(TableModel::empty(), created, listed);
    assert(TableModel::empty().rows.dom() =~= Set::<i32>::empty());
    assert forall|row: TodoData| listed.to_set().contains(row) <==> created.to_set().contains(
        row,
    ) by {
        assert(listed.contains(row) <==> created.contains(row));
    }
    assert(listed.to_set() =~= created.to_set());
    assert forall|i: int, j: int| 0 <= i < listed.len() && 0 <= j < listed.len() && i
        != j implies listed[i] != listed[j] by {
        if i < j {
            assert(listed[i].id != listed[j].id);
        } else {
            assert(listed[j].id != listed[i].id);
        }
    }
}

} // verus!
