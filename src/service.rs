use vstd::prelude::*;

use crate::reply::{
    create_reply, delete_reply, get_reply, list_reply, spec_not_found_reply, update_reply, BodyView,
    Reply, ReplyView, CREATED, INTERNAL_SERVER_ERROR, NO_CONTENT, OK,
};
use crate::table::{lists_exactly, TableView, TodoTable};
use crate::todo::CreateTodo;

verus! {

/// Creating a row with `title` in table `t` gives table `t2` and reply `r`.
pub open spec fn created(t: TableView, title: Seq<char>, t2: TableView, r: ReplyView) -> bool {
    if t.can_insert() {
        &&& t2 == t.inserted(title)
        &&& r == ReplyView { status: CREATED, body: BodyView::One(t2.row(t2.last_id)) }
    } else {
        &&& t2 == t
        &&& r.status == INTERNAL_SERVER_ERROR
        &&& r.body is Message
    }
}

/// Listing table `t` gives reply `r`: every row once, in some order.
pub open spec fn listed(t: TableView, r: ReplyView) -> bool {
    &&& r.status == OK
    &&& r.body is Many
    &&& lists_exactly(r.body->Many_0, t.rows)
}

/// Getting the row `id` of table `t` gives reply `r`.
pub open spec fn got(t: TableView, id: int, r: ReplyView) -> bool {
    if t.rows.contains_key(id) {
        r == ReplyView { status: OK, body: BodyView::One(t.row(id)) }
    } else {
        r == spec_not_found_reply(id)
    }
}

/// Updating the row `id` of table `t` with `title` gives table `t2` and reply `r`.
pub open spec fn updated(t: TableView, id: int, title: Seq<char>, t2: TableView, r: ReplyView) -> bool {
    if t.rows.contains_key(id) {
        &&& t2 == t.updated(id, title)
        &&& r == ReplyView { status: OK, body: BodyView::One(t2.row(id)) }
    } else {
        &&& t2 == t
        &&& r == spec_not_found_reply(id)
    }
}

/// Deleting the row `id` of table `t` gives table `t2` and reply `r`.
pub open spec fn deleted(t: TableView, id: int, t2: TableView, r: ReplyView) -> bool {
    if t.rows.contains_key(id) {
        &&& t2 == t.deleted(id)
        &&& r == ReplyView { status: NO_CONTENT, body: BodyView::Empty }
    } else {
        &&& t2 == t
        &&& r == spec_not_found_reply(id)
    }
}

/// Handles a create request against `store`.
pub fn create_todo(store: &mut TodoTable, payload: CreateTodo) -> (r: Reply)
    requires
        old(store).wf(),
    ensures
        final(store).wf(),
        final(store)@.wf(),
        created(old(store)@, payload.title@, final(store)@, r@),
{
    let result = store.insert(payload.title);
    proof {
        store.lemma_view_wf();
    }
    create_reply(result)
}

/// Handles a list request against `store`.
pub fn get_todos(store: &TodoTable) -> (r: Reply)
    requires
        store.wf(),
    ensures
        listed(store@, r@),
{
    let result = store.select_all();
    list_reply(result)
}

/// Handles a get-by-id request against `store`.
pub fn get_todo(store: &TodoTable, id: i32) -> (r: Reply)
    requires
        store.wf(),
    ensures
        got(store@, id as int, r@),
{
    let result = store.select_by_id(id);
    get_reply(id, result)
}

/// Handles an update request against `store`.
pub fn update_todo(store: &mut TodoTable, id: i32, payload: CreateTodo) -> (r: Reply)
    requires
        old(store).wf(),
    ensures
        final(store).wf(),
        final(store)@.wf(),
        updated(old(store)@, id as int, payload.title@, final(store)@, r@),
{
    let result = store.update_by_id(id, payload.title);
    proof {
        store.lemma_view_wf();
    }
    update_reply(id, result)
}

/// Handles a delete request against `store`.
pub fn delete_todo(store: &mut TodoTable, id: i32) -> (r: Reply)
    requires
        old(store).wf(),
    ensures
        final(store).wf(),
        final(store)@.wf(),
        deleted(old(store)@, id as int, final(store)@, r@),
{
    let result = store.delete_by_id(id);
    proof {
        store.lemma_view_wf();
    }
    delete_reply(id, result)
}

} // verus!
