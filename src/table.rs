use vstd::prelude::*;

use crate::reply::StoreError;
use crate::todo::{todo_views, Todo, TodoView};

verus! {

/// What the table holds: each id present maps to its title and completion
/// flag; `last_id` is the last id the table has given out.
pub ghost struct TableView {
    pub rows: Map<int, (Seq<char>, bool)>,
    pub last_id: int,
}

impl TableView {
    /// Every stored id is positive and was given out; ids given out fit in `i32`.
    pub open spec fn wf(self) -> bool {
        &&& 0 <= self.last_id <= i32::MAX
        &&& forall|id: int| #[trigger] self.rows.contains_key(id) ==> 0 < id <= self.last_id
    }

    /// The stored row with id `id`, as a todo item.
    pub open spec fn row(self, id: int) -> TodoView {
        TodoView { id, title: self.rows[id].0, completed: self.rows[id].1 }
    }

    /// Whether another id can be given out.
    pub open spec fn can_insert(self) -> bool {
        self.last_id < i32::MAX
    }

    /// The table after inserting a row with `title`: it takes the next id and
    /// is not completed.
    pub open spec fn inserted(self, title: Seq<char>) -> TableView {
        TableView {
            rows: self.rows.insert(self.last_id + 1, (title, false)),
            last_id: self.last_id + 1,
        }
    }

    /// The table after the row `id` takes `title` and is marked not completed.
    pub open spec fn updated(self, id: int, title: Seq<char>) -> TableView {
        TableView { rows: self.rows.insert(id, (title, false)), last_id: self.last_id }
    }

    /// The table without the row `id`.
    pub open spec fn deleted(self, id: int) -> TableView {
        TableView { rows: self.rows.remove(id), last_id: self.last_id }
    }
}

/// `s` lists the rows of `rows` exactly: each once, in some order.
pub open spec fn lists_exactly(s: Seq<TodoView>, rows: Map<int, (Seq<char>, bool)>) -> bool {
    &&& forall|i: int|
        0 <= i < s.len() ==> #[trigger] rows.contains_key(s[i].id) && rows[s[i].id] == (
            s[i].title,
            s[i].completed,
        )
    &&& forall|id: int| #[trigger] rows.contains_key(id) ==> exists|i: int| 0 <= i < s.len() && s[i].id == id
    &&& forall|i: int, j: int| 0 <= i < j < s.len() ==> s[i].id != s[j].id
}

/// An in-memory `todos` table: ids are given out in increasing order from 1,
/// and a title is stored with a completion flag.
pub struct TodoTable {
    rows: Vec<Todo>,
    last_id: i32,
    contents: Ghost<Map<int, (Seq<char>, bool)>>,
}

impl View for TodoTable {
    type V = TableView;

    closed spec fn view(&self) -> TableView {
        TableView { rows: self.contents@, last_id: self.last_id as int }
    }
}

impl TodoTable {
    /// The rows are kept in increasing order of id, and the ghost contents
    /// hold exactly the rows of the vector.
    pub closed spec fn wf(&self) -> bool {
        let rows = self.rows@;
        let m = self.contents@;
        &&& 0 <= self.last_id
        &&& forall|i: int| 0 <= i < rows.len() ==> 0 < #[trigger] rows[i].id <= self.last_id
        &&& forall|i: int, j: int| 0 <= i < j < rows.len() ==> rows[i].id < rows[j].id
        &&& forall|i: int|
            0 <= i < rows.len() ==> #[trigger] m.contains_key(rows[i].id as int) && m[rows[i].id as int] == (
                rows[i].title@,
                rows[i].completed,
            )
        &&& forall|id: int| #[trigger]
            m.contains_key(id) ==> exists|i: int| 0 <= i < rows.len() && rows[i].id == id
    }

    /// The view of a well-formed table is well formed.
    pub proof fn lemma_view_wf(&self)
        requires
            self.wf(),
        ensures
            self@.wf(),
    {
        assert forall|id: int| #[trigger] self@.rows.contains_key(id) implies 0 < id <= self@.last_id by {
            let i = choose|i: int| 0 <= i < self.rows@.len() && self.rows@[i].id == id;
            assert(0 < self.rows@[i].id <= self.last_id);
        }
    }

    /// An empty table that has given out no id.
    pub fn new() -> (r: TodoTable)
        ensures
            r.wf(),
            r@.rows == Map::<int, (Seq<char>, bool)>::empty(),
            r@.last_id == 0,
    {
        TodoTable { rows: Vec::new(), last_id: 0, contents: Ghost(Map::empty()) }
    }

    /// The position of the row with id `id`, if there is one.
    fn find(&self, id: i32) -> (r: Option<usize>)
        requires
            self.wf(),
        ensures
            match r {
                Some(i) => i < self.rows@.len() && self.rows@[i as int].id == id,
                None => !self@.rows.contains_key(id as int),
            },
    {
        let mut i: usize = 0;
        while i < self.rows.len()
            invariant
                i <= self.rows@.len(),
                forall|k: int| 0 <= k < i ==> self.rows@[k].id != id,
            decreases self.rows@.len() - i,
        {
            if self.rows[i].id == id {
                return Some(i);
            }
            i = i + 1;
        }
        assert(!self@.rows.contains_key(id as int)) by {
            if self@.rows.contains_key(id as int) {
                let k = choose|k: int| 0 <= k < self.rows@.len() && self.rows@[k].id == id;
                assert(self.rows@[k].id != id);
            }
        }
        None
    }

    fn row_not_found() -> (e: StoreError)
        ensures
            e.row_not_found,
    {
        StoreError { row_not_found: true, text: String::from_str("no row has the requested id") }
    }

    /// Inserts a row with `title`, not completed, under the next id, and
    /// returns it; fails, changing nothing, once every `i32` id has been given out.
    pub fn insert(&mut self, title: String) -> (r: Result<Todo, StoreError>)
        requires
            old(self).wf(),
        ensures
            final(self).wf(),
            old(self)@.can_insert() ==> r is Ok && final(self)@ == old(self)@.inserted(title@)
                && r->Ok_0@ == final(self)@.row(final(self)@.last_id),
            !old(self)@.can_insert() ==> r is Err && !r->Err_0.row_not_found && final(self)@
                == old(self)@,
    {
        if self.last_id == i32::MAX {
            return Err(
                StoreError { row_not_found: false, text: String::from_str("todo ids are exhausted") },
            );
        }
        let id = self.last_id + 1;
        let ghost old_rows = self.rows@;
        let todo = Todo { id, title: title.clone(), completed: false };
        let out = todo.clone();
        self.rows.push(todo);
        self.last_id = id;
        self.contents = Ghost(self.contents@.insert(id as int, (title@, false)));
        assert forall|k: int| #[trigger] self.contents@.contains_key(k) implies exists|i: int|
            0 <= i < self.rows@.len() && self.rows@[i].id == k by {
            if k != id as int {
                let i = choose|i: int| 0 <= i < old_rows.len() && old_rows[i].id == k;
                assert(self.rows@[i].id == k);
            } else {
                assert(self.rows@[old_rows.len() as int].id == k);
            }
        }
        assert(self@.rows[id as int] == (title@, false));
        Ok(out)
    }

    /// All the rows, each once, in increasing order of id.
    pub fn select_all(&self) -> (r: Result<Vec<Todo>, StoreError>)
        requires
            self.wf(),
        ensures
            r is Ok && lists_exactly(todo_views(r->Ok_0@), self@.rows),
    {
        let mut out: Vec<Todo> = Vec::new();
        let mut i: usize = 0;
        while i < self.rows.len()
            invariant
                i <= self.rows@.len(),
                out@.len() == i,
                forall|k: int| 0 <= k < i ==> #[trigger] out@[k]@ == self.rows@[k]@,
            decreases self.rows@.len() - i,
        {
            out.push(self.rows[i].clone());
            i = i + 1;
        }
        let ghost s = todo_views(out@);
        assert forall|id: int| #[trigger] self@.rows.contains_key(id) implies exists|k: int|
            0 <= k < s.len() && s[k].id == id by {
            let k = choose|k: int| 0 <= k < self.rows@.len() && self.rows@[k].id == id;
            assert(s[k] == out@[k]@);
        }
        assert forall|k: int| 0 <= k < s.len() implies #[trigger] self@.rows.contains_key(s[k].id)
            && self@.rows[s[k].id] == (s[k].title, s[k].completed) by {
            assert(s[k] == out@[k]@);
            assert(self.contents@.contains_key(self.rows@[k].id as int));
        }
        assert forall|a: int, b: int| 0 <= a < b < s.len() implies s[a].id != s[b].id by {
            assert(s[a] == out@[a]@);
            assert(s[b] == out@[b]@);
        }
        Ok(out)
    }

    /// The row with id `id`; fails with a row-not-found error where there is none.
    pub fn select_by_id(&self, id: i32) -> (r: Result<Todo, StoreError>)
        requires
            self.wf(),
        ensures
            self@.rows.contains_key(id as int) ==> r is Ok && r->Ok_0@ == self@.row(id as int),
            !self@.rows.contains_key(id as int) ==> r is Err && r->Err_0.row_not_found,
    {
        match self.find(id) {
            Some(i) => {
                assert(self.contents@.contains_key(self.rows@[i as int].id as int));
                Ok(self.rows[i].clone())
            },
            None => Err(TodoTable::row_not_found()),
        }
    }

    /// Gives the row `id` the title `title` and marks it not completed, and
    /// returns it; fails with a row-not-found error, changing nothing, where
    /// there is no such row.
    pub fn update_by_id(&mut self, id: i32, title: String) -> (r: Result<Todo, StoreError>)
        requires
            old(self).wf(),
        ensures
            final(self).wf(),
            old(self)@.rows.contains_key(id as int) ==> r is Ok && final(self)@ == old(
                self,
            )@.updated(id as int, title@) && r->Ok_0@ == final(self)@.row(id as int),
            !old(self)@.rows.contains_key(id as int) ==> r is Err && r->Err_0.row_not_found
                && final(self)@ == old(self)@,
    {
        match self.find(id) {
            Some(i) => {
                let ghost old_rows = self.rows@;
                let todo = Todo { id, title: title.clone(), completed: false };
                let out = todo.clone();
                self.rows.set(i, todo);
                self.contents = Ghost(self.contents@.insert(id as int, (title@, false)));
                assert forall|k: int| #[trigger] self.contents@.contains_key(k) implies exists|
                    j: int,
                | 0 <= j < self.rows@.len() && self.rows@[j].id == k by {
                    let j = choose|j: int| 0 <= j < old_rows.len() && old_rows[j].id == k;
                    assert(self.rows@[j].id == k);
                }
                assert(self@.rows[id as int] == (title@, false));
                Ok(out)
            },
            None => Err(TodoTable::row_not_found()),
        }
    }

    /// Removes the row `id`, and returns how many rows were removed: one where
    /// it was there, none where it was not.
    pub fn delete_by_id(&mut self, id: i32) -> (r: Result<u64, StoreError>)
        requires
            old(self).wf(),
        ensures
            final(self).wf(),
            old(self)@.rows.contains_key(id as int) ==> r == Ok::<u64, StoreError>(1)
                && final(self)@ == old(self)@.deleted(id as int),
            !old(self)@.rows.contains_key(id as int) ==> r == Ok::<u64, StoreError>(0)
                && final(self)@ == old(self)@,
    {
        match self.find(id) {
            Some(i) => {
                let ghost old_rows = self.rows@;
                let ghost old_m = self.contents@;
                self.rows.remove(i);
                self.contents = Ghost(self.contents@.remove(id as int));
                assert forall|k: int| 0 <= k < self.rows@.len() implies #[trigger]
                    self.contents@.contains_key(self.rows@[k].id as int) && self.contents@[self.rows@[k].id as int] == (
                        self.rows@[k].title@,
                        self.rows@[k].completed,
                    ) by {
                    if k < i {
                        assert(self.rows@[k] == old_rows[k]);
                        assert(old_rows[k].id < old_rows[i as int].id);
                    } else {
                        assert(self.rows@[k] == old_rows[k + 1]);
                        assert(old_rows[i as int].id < old_rows[k + 1].id);
                    }
                }
                assert forall|k: int| #[trigger] self.contents@.contains_key(k) implies exists|
                    j: int,
                | 0 <= j < self.rows@.len() && self.rows@[j].id == k by {
                    let j = choose|j: int| 0 <= j < old_rows.len() && old_rows[j].id == k;
                    if j < i {
                        assert(self.rows@[j].id == k);
                    } else {
                        assert(j != i);
                        assert(self.rows@[j - 1].id == k);
                    }
                }
                assert forall|a: int, b: int| 0 <= a < b < self.rows@.len() implies self.rows@[a].id
                    < self.rows@[b].id by {
                    let oa = if a < i { a } else { a + 1 };
                    let ob = if b < i { b } else { b + 1 };
                    assert(self.rows@[a] == old_rows[oa]);
                    assert(self.rows@[b] == old_rows[ob]);
                }
                assert forall|k: int| 0 <= k < self.rows@.len() implies 0 < #[trigger]
                    self.rows@[k].id <= self.last_id by {
                    let ok = if k < i { k } else { k + 1 };
                    assert(self.rows@[k] == old_rows[ok]);
                }
                Ok(1)
            },
            None => Ok(0),
        }
    }
}

} // verus!
