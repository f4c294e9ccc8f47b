use vstd::prelude::*;

use crate::reply::{BodyView, ReplyView, CREATED, NOT_FOUND, NO_CONTENT, OK};
use crate::service::{created, deleted, got, listed, updated};
use crate::table::TableView;
use crate::todo::TodoView;

verus! {

/// Creating a todo replies 201 with a row that has the given title, is not
/// completed, and has a positive id.
pub proof fn create_replies_new_row(t: TableView, title: Seq<char>, t2: TableView, r: ReplyView)
    requires
        t.wf(),
        t.can_insert(),
        created(t, title, t2, r),
    ensures
        r.status == CREATED,
        r.body is One,
        r.body->One_0.title == title,
        !r.body->One_0.completed,
        r.body->One_0.id > 0,
{
}

/// After two creates, a list holds both created rows, each as the create
/// replied it, in some order.
pub proof fn list_after_two_creates(
    t: TableView,
    a: Seq<char>,
    b: Seq<char>,
    t1: TableView,
    r1: ReplyView,
    t2: TableView,
    r2: ReplyView,
    r3: ReplyView,
)
    requires
        t.wf(),
        t.last_id + 2 <= i32::MAX,
        created(t, a, t1, r1),
        created(t1, b, t2, r2),
        listed(t2, r3),
    ensures
        r1.status == CREATED && r2.status == CREATED,
        r1.body is One && r2.body is One,
        r1.body->One_0.title == a && r2.body->One_0.title == b,
        r1.body->One_0.id != r2.body->One_0.id,
        exists|i: int|
            0 <= i < r3.body->Many_0.len() && r3.body->Many_0[i] == r1.body->One_0,
        exists|i: int|
            0 <= i < r3.body->Many_0.len() && r3.body->Many_0[i] == r2.body->One_0,
{
    let s = r3.body->Many_0;
    let ia = t.last_id + 1;
    let ib = t.last_id + 2;
    assert(t2.rows.contains_key(ia));
    assert(t2.rows.contains_key(ib));
    let i = choose|i: int| 0 <= i < s.len() && s[i].id == ia;
    let j = choose|j: int| 0 <= j < s.len() && s[j].id == ib;
    assert(t2.rows.contains_key(s[i].id));
    assert(t2.rows.contains_key(s[j].id));
    assert(s[i] == r1.body->One_0);
    assert(s[j] == r2.body->One_0);
}

/// Getting an id that no row has replies 404.
pub proof fn get_missing_is_not_found(t: TableView, id: int, r: ReplyView)
    requires
        !t.rows.contains_key(id),
        got(t, id, r),
    ensures
        r.status == NOT_FOUND,
{
}

/// Updating an existing row replies 200 with the new title and the row not
/// completed, whatever its flag was before, and stores it so.
pub proof fn update_resets_completed(
    t: TableView,
    id: int,
    title: Seq<char>,
    t2: TableView,
    r: ReplyView,
)
    requires
        t.rows.contains_key(id),
        updated(t, id, title, t2, r),
    ensures
        r.status == OK,
        r.body == BodyView::One(TodoView { id, title, completed: false }),
        t2.rows[id] == (title, false),
{
}

/// Deleting an existing id twice replies 204, then 404.
pub proof fn delete_twice(t: TableView, id: int, t1: TableView, r1: ReplyView, t2: TableView, r2: ReplyView)
    requires
        t.rows.contains_key(id),
        deleted(t, id, t1, r1),
        deleted(t1, id, t2, r2),
    ensures
        r1.status == NO_CONTENT,
        r2.status == NOT_FOUND,
{
}

/// Getting the id that a create replied with gives back the created row.
pub proof fn create_then_get(t: TableView, title: Seq<char>, t1: TableView, r1: ReplyView, r2: ReplyView)
    requires
        t.wf(),
        t.can_insert(),
        created(t, title, t1, r1),
        got(t1, r1.body->One_0.id, r2),
    ensures
        r2.status == OK,
        r2.body == r1.body,
{
}

} // verus!
