//! A repository that keeps its rows in memory, in the order of their
//! identifiers. It never reports a store fault but one: that no identifier
//! is left to give.

use vstd::prelude::*;
use vstd::string::StringExecFns;
use crate::repositories::has_id;
use crate::repositories::is_fault;
use crate::repositories::lists;
use crate::repositories::views;
use crate::repositories::RepositoryError;
use crate::repositories::TableModel;
use crate::repositories::TodoRepository;
use crate::todo::new_row;
use crate::todo::CreateTodo;
use crate::todo::Todo;
use crate::todo::TodoData;
use crate::todo::UpdateTodo;

verus! {

/// The rows of a list, by identifier. Where two rows share an identifier the
/// later one counts.
pub open spec fn rows_of(stored: Seq<TodoData>) -> Map<i32, TodoData>
    decreases stored.len(),
{
    if stored.len() == 0 {
        Map::empty()
    } else {
        rows_of(stored.drop_last()).insert(stored.last().id, stored.last())
    }
}

/// The identifiers grow strictly along the list.
pub open spec fn ascending(stored: Seq<TodoData>) -> bool {
    forall|i: int, j: int| 0 <= i < j < stored.len() ==> stored[i].id < stored[j].id
}

/// Every identifier of the list is at least `first` and below `next`.
pub open spec fn ids_within(stored: Seq<TodoData>, first: i32, next: i32) -> bool {
    forall|i: int| 0 <= i < stored.len() ==> first <= (#[trigger] stored[i]).id < next
}

/// The identifiers from `first` up to `next`, without `next`.
pub open spec fn ids_between(first: i32, next: i32) -> Set<i32> {
    Set::new(|id: i32| first <= id < next)
}

/// In a list with ascending identifiers, the rows by identifier are the rows
/// of the list, each under its own identifier.
pub proof fn lemma_rows_of(stored: Seq<TodoData>)
    requires
        ascending(stored),
    ensures
        rows_of(stored).dom().finite(),
        forall|id: i32| #[trigger] rows_of(stored).contains_key(id) <==> has_id(stored, id),
        forall|i: int|
            0 <= i < stored.len() ==> rows_of(stored)[(#[trigger] stored[i]).id] == stored[i],
    decreases stored.len(),
{
    if stored.len() > 0 {
        let front = stored.drop_last();
        let last = stored.last();
        lemma_rows_of(front);
        assert forall|id: i32| #[trigger] rows_of(stored).contains_key(id) <==> has_id(
            stored,
            id,
        ) by {
            if has_id(stored, id) {
                let i = choose|i: int| 0 <= i < stored.len() && (#[trigger] stored[i]).id == id;
                if i < front.len() {
                    assert(front[i].id == id);
                    assert(has_id(front, id));
                }
            }
            if rows_of(stored).contains_key(id) {
                if id == last.id {
                    assert(stored[stored.len() - 1].id == id);
                } else {
                    assert(has_id(front, id));
                    let i = choose|i: int| 0 <= i < front.len() && (#[trigger] front[i]).id == id;
                    assert(stored[i].id == id);
                }
            }
        }
        assert forall|i: int| 0 <= i < stored.len() implies rows_of(stored)[(
        #[trigger] stored[i]).id] == stored[i] by {
            if i < front.len() {
                assert(front[i] == stored[i]);
                assert(stored[i].id < stored[stored.len() - 1].id);
            }
        }
    }
}

/// A list with ascending identifiers shows each of its rows exactly once.
pub proof fn lemma_lists_rows_of(stored: Seq<TodoData>)
    requires
        ascending(stored),
    ensures
        lists(rows_of(stored), stored),
{
    lemma_rows_of(stored);
}

/// Appending a row with a larger identifier than any in the list adds that
/// row and keeps the others.
pub proof fn lemma_rows_of_push(stored: Seq<TodoData>, row: TodoData)
    ensures
        rows_of(stored.push(row)) == rows_of(stored).insert(row.id, row),
{
    assert(stored.push(row).drop_last() == stored);
}

/// Replacing a row by one with the same identifier replaces it by identifier.
pub proof fn lemma_rows_of_update(stored: Seq<TodoData>, k: int, row: TodoData)
    requires
        ascending(stored),
        0 <= k < stored.len(),
        row.id == stored[k].id,
    ensures
        ascending(stored.update(k, row)),
        rows_of(stored.update(k, row)) == rows_of(stored).insert(row.id, row),
{
    let changed = stored.update(k, row);
    assert(ascending(changed)) by {
        assert forall|i: int, j: int| 0 <= i < j < changed.len() implies changed[i].id
            < changed[j].id by {
            assert(changed[i].id == stored[i].id);
            assert(changed[j].id == stored[j].id);
        }
    }
    lemma_rows_of(stored);
    lemma_rows_of(changed);
    let left = rows_of(changed);
    let right = rows_of(stored).insert(row.id, row);
    assert forall|id: i32| left.contains_key(id) <==> right.contains_key(id) by {
        if has_id(changed, id) {
            let i = choose|i: int| 0 <= i < changed.len() && (#[trigger] changed[i]).id == id;
            assert(stored[i].id == id);
        }
        if has_id(stored, id) {
            let i = choose|i: int| 0 <= i < stored.len() && (#[trigger] stored[i]).id == id;
            assert(changed[i].id == id);
        }
        if id == row.id {
            assert(changed[k].id == id);
        }
    }
    assert forall|id: i32| left.contains_key(id) implies left[id] == right[id] by {
        assert(has_id(changed, id));
        let i = choose|i: int| 0 <= i < changed.len() && (#[trigger] changed[i]).id == id;
        assert(left[changed[i].id] == changed[i]);
        if i == k {
        } else {
            assert(stored[i].id == id);
            assert(rows_of(stored)[stored[i].id] == stored[i]);
            if i < k {
                assert(stored[i].id < stored[k].id);
            } else {
                assert(stored[k].id < stored[i].id);
            }
        }
    }
    assert(left =~= right);
}

/// Taking a row out of the list removes it by identifier.
pub proof fn lemma_rows_of_remove(stored: Seq<TodoData>, k: int)
    requires
        ascending(stored),
        0 <= k < stored.len(),
    ensures
        ascending(stored.remove(k)),
        rows_of(stored.remove(k)) == rows_of(stored).remove(stored[k].id),
{
    let rest = stored.remove(k);
    assert(ascending(rest)) by {
        assert forall|i: int, j: int| 0 <= i < j < rest.len() implies rest[i].id < rest[j].id by {
            let from_i = if i < k { i } else { i + 1 };
            let from_j = if j < k { j } else { j + 1 };
            assert(rest[i] == stored[from_i]);
            assert(rest[j] == stored[from_j]);
        }
    }
    lemma_rows_of(stored);
    lemma_rows_of(rest);
    let left = rows_of(rest);
    let right = rows_of(stored).remove(stored[k].id);
    assert forall|id: i32| left.contains_key(id) <==> right.contains_key(id) by {
        if has_id(rest, id) {
            let i = choose|i: int| 0 <= i < rest.len() && (#[trigger] rest[i]).id == id;
            let from = if i < k { i } else { i + 1 };
            assert(rest[i] == stored[from]);
            assert(stored[from].id == id);
            if from < k {
                assert(stored[from].id < stored[k].id);
            } else {
                assert(stored[k].id < stored[from].id);
            }
        }
        if has_id(stored, id) && id != stored[k].id {
            let i = choose|i: int| 0 <= i < stored.len() && (#[trigger] stored[i]).id == id;
            let to = if i < k { i } else { i - 1 };
            assert(rest[to] == stored[i]);
            assert(rest[to].id == id);
        }
    }
    assert forall|id: i32| left.contains_key(id) implies left[id] == right[id] by {
        assert(has_id(rest, id));
        let i = choose|i: int| 0 <= i < rest.len() && (#[trigger] rest[i]).id == id;
        let from = if i < k { i } else { i + 1 };
        assert(rest[i] == stored[from]);
        assert(left[rest[i].id] == rest[i]);
        assert(rows_of(stored)[stored[from].id] == stored[from]);
    }
    assert(left =~= right);
}

/// A repository whose table lives in memory.
#[derive(Debug)]
pub struct TodoRepositoryForMemory {
    rows: Vec<Todo>,
    first_id: i32,
    next_id: i32,
}

impl TodoRepositoryForMemory {
    /// The rows held, in the order of their identifiers.
    pub closed spec fn stored(&self) -> Seq<TodoData> {
        views(self.rows@)
    }

    /// The identifier that the first created row got or will get.
    pub closed spec fn first_id(&self) -> i32 {
        self.first_id
    }

    /// The identifier that the next created row gets.
    pub closed spec fn next_id(&self) -> i32 {
        self.next_id
    }

    /// A repository that has never held a row. Its first row gets the
    /// identifier 1.
    pub fn new() -> (res: Self)
        ensures
            res.inv(),
            res.stored() == Seq::<TodoData>::empty(),
            res.first_id() == 1,
            res.next_id() == 1,
            res.table() == TableModel::empty(),
    {
        Self::starting_at(1)
    }

    /// A repository that has never held a row and whose first row gets the
    /// identifier `first_id`.
    pub fn starting_at(first_id: i32) -> (res: Self)
        ensures
            res.inv(),
            res.stored() == Seq::<TodoData>::empty(),
            res.first_id() == first_id,
            res.next_id() == first_id,
            res.table() == TableModel::empty(),
    {
        let res = TodoRepositoryForMemory { rows: Vec::new(), first_id, next_id: first_id };
        proof {
            assert(res.stored() =~= Seq::<TodoData>::empty());
            assert(ids_between(first_id, first_id) =~= Set::<i32>::empty());
        }
        res
    }

    /// Where in the list the row `id` stands, if it is there: found by
    /// halving, since the identifiers ascend.
    fn position(&self, id: i32) -> (res: Option<usize>)
        requires
            ascending(self.stored()),
        ensures
            match res {
                Some(k) => k < self.stored().len() && self.stored()[k as int].id == id,
                None => !has_id(self.stored(), id),
            },
    {
        let mut low: usize = 0;
        let mut high: usize = self.rows.len();
        while low < high
            invariant
                low <= high <= self.rows.len(),
                ascending(self.stored()),
                forall|i: int| 0 <= i < low ==> (#[trigger] self.stored()[i]).id < id,
                forall|i: int|
                    high <= i < self.stored().len() ==> (#[trigger] self.stored()[i]).id > id,
            decreases high - low,
        {
            let middle: usize = low + (high - low) / 2;
            let here: i32 = self.rows[middle].id();
            assert(self.stored()[middle as int].id == here);
            if here == id {
                return Some(middle);
            } else if here < id {
                low = middle + 1;
            } else {
                high = middle;
            }
        }
        None
    }
}

impl TodoRepository for TodoRepositoryForMemory {
    open spec fn table(&self) -> TableModel {
        TableModel {
            rows: rows_of(self.stored()),
            issued: ids_between(self.first_id(), self.next_id()),
        }
    }

    /// Only `create` can fail, and only once the identifiers have run out.
    open spec fn faultless(&self) -> bool {
        self.next_id() < i32::MAX
    }

    open spec fn inv(&self) -> bool {
        &&& self.first_id() <= self.next_id()
        &&& ascending(self.stored())
        &&& ids_within(self.stored(), self.first_id(), self.next_id())
    }

    proof fn table_is_wf(&self) {
        lemma_rows_of(self.stored());
        assert forall|id: i32| #[trigger]
            self.table().rows.contains_key(id) implies self.table().issued.contains(id)
            && self.table().rows[id].id == id by {
            assert(has_id(self.stored(), id));
            let i = choose|i: int|
                0 <= i < self.stored().len() && (#[trigger] self.stored()[i]).id == id;
            assert(rows_of(self.stored())[self.stored()[i].id] == self.stored()[i]);
        }
    }

    /// Gives the new row the next identifier. Fails, with a store fault, only
    /// where that identifier is the largest `i32`: none would be left to give.
    fn create(&mut self, payload: CreateTodo) -> (res: Result<Todo, RepositoryError>)
        ensures
            res is Ok <==> old(self).next_id() < i32::MAX,
            res matches Ok(todo) ==> {
                &&& todo@ == new_row(old(self).next_id(), payload@)
                &&& final(self).stored() == old(self).stored().push(todo@)
                &&& final(self).next_id() == old(self).next_id() + 1
            },
            final(self).first_id() == old(self).first_id(),
            res matches Err(e) ==> {
                &&& e matches RepositoryError::Unexpected(text)
                &&& text@ == "no unused identifier is left"@
                &&& final(self).stored() == old(self).stored()
                &&& final(self).next_id() == old(self).next_id()
            },
    {
        if self.next_id == i32::MAX {
            return Err(RepositoryError::Unexpected(String::from_str("no unused identifier is left")));
        }
        let id: i32 = self.next_id;
        let todo = payload.into_todo(id);
        let answer = todo.clone();
        self.rows.push(todo);
        self.next_id = id + 1;
        proof {
            let before = old(self).stored();
            assert(self.stored() =~= before.push(answer@));
            lemma_rows_of_push(before, answer@);
            assert(ids_between(self.first_id, (id + 1) as i32) =~= ids_between(
                self.first_id,
                id,
            ).insert(id));
            assert(self.table().rows == old(self).table().with_created(answer@).rows);
            assert(self.table().issued == old(self).table().with_created(answer@).issued);
        }
        Ok(answer)
    }

    /// Never reports a store fault.
    fn find(&self, id: i32) -> (res: Result<Todo, RepositoryError>)
        ensures
            !is_fault(res),
    {
        proof {
            lemma_rows_of(self.stored());
        }
        match self.position(id) {
            Some(k) => {
                assert(self.stored()[k as int] == self.rows[k as int]@);
                assert(rows_of(self.stored())[self.stored()[k as int].id] == self.stored()[k as int]);
                Ok(self.rows[k].clone())
            },
            None => Err(RepositoryError::NotFound(id)),
        }
    }

    /// Lists the rows in the order of their identifiers, and never fails.
    fn all(&self) -> (res: Result<Vec<Todo>, RepositoryError>)
        ensures
            res matches Ok(todos) && views(todos@) == self.stored(),
    {
        let mut todos: Vec<Todo> = Vec::new();
        let n: usize = self.rows.len();
        let mut k: usize = 0;
        while k < n
            invariant
                n == self.rows.len(),
                k <= n,
                views(todos@) == self.stored().take(k as int),
            decreases n - k,
        {
            let ghost listed = views(todos@);
            let todo = self.rows[k].clone();
            todos.push(todo);
            assert(views(todos@) =~= listed.push(self.stored()[k as int]));
            assert(listed.push(self.stored()[k as int]) =~= self.stored().take(k + 1));
            k += 1;
        }
        proof {
            assert(self.stored().take(n as int) == self.stored());
            lemma_lists_rows_of(self.stored());
        }
        Ok(todos)
    }

    /// Never reports a store fault.
    fn update(&mut self, id: i32, payload: UpdateTodo) -> (res: Result<Todo, RepositoryError>)
        ensures
            !is_fault(res),
            final(self).first_id() == old(self).first_id(),
            final(self).next_id() == old(self).next_id(),
    {
        proof {
            lemma_rows_of(self.stored());
        }
        match self.position(id) {
            Some(k) => {
                let ghost before = self.stored();
                let changed = self.rows[k].clone().merge(payload);
                let answer = changed.clone();
                self.rows.set(k, changed);
                proof {
                    assert(before[k as int] == old(self).rows[k as int]@);
                    assert(rows_of(before)[before[k as int].id] == before[k as int]);
                    assert(self.stored() =~= before.update(k as int, answer@));
                    lemma_rows_of_update(before, k as int, answer@);
                    assert(self.table().rows == old(self).table().with_updated(id, payload@).rows);
                    assert forall|i: int| 0 <= i < self.stored().len() implies self.first_id()
                        <= (#[trigger] self.stored()[i]).id < self.next_id() by {
                        assert(self.stored()[i].id == before[i].id);
                    }
                }
                Ok(answer)
            },
            None => Err(RepositoryError::NotFound(id)),
        }
    }

    /// Never reports a store fault.
    fn delete(&mut self, id: i32) -> (res: Result<(), RepositoryError>)
        ensures
            !is_fault(res),
            final(self).first_id() == old(self).first_id(),
            final(self).next_id() == old(self).next_id(),
    {
        proof {
            lemma_rows_of(self.stored());
        }
        match self.position(id) {
            Some(k) => {
                let ghost before = self.stored();
                self.rows.remove(k);
                proof {
                    assert(self.stored() =~= before.remove(k as int));
                    lemma_rows_of_remove(before, k as int);
                    assert(self.table().rows == old(self).table().with_deleted(id).rows);
                    assert forall|i: int| 0 <= i < self.stored().len() implies self.first_id()
                        <= (#[trigger] self.stored()[i]).id < self.next_id() by {
                        let from = if i < k { i } else { i + 1 };
                        assert(self.stored()[i] == before[from]);
                    }
                }
                Ok(())
            },
            None => Err(RepositoryError::NotFound(id)),
        }
    }
}

} // verus!
