use vstd::prelude::*;

use crate::decimal::{decimal, decimal_text};
use crate::todo::{todo_views, Todo, TodoView};

verus! {

pub const OK: u16 = 200;

pub const CREATED: u16 = 201;

pub const NO_CONTENT: u16 = 204;

pub const NOT_FOUND: u16 = 404;

pub const INTERNAL_SERVER_ERROR: u16 = 500;

/// A failed statement, as the store reports it: whether it failed because a
/// statement that returns one row found none, and the store's error text.
pub struct StoreError {
    pub row_not_found: bool,
    pub text: String,
}

impl StoreError {
    /// A store error with the given kind and text.
    pub fn new(row_not_found: bool, text: String) -> (r: StoreError)
        ensures
            r.row_not_found == row_not_found,
            r.text@ == text@,
    {
        StoreError { row_not_found, text }
    }
}

/// The body of a reply.
pub enum Body {
    /// One todo item, as JSON.
    One(Todo),
    /// An array of todo items, as JSON.
    Many(Vec<Todo>),
    /// A plain-text message.
    Message(String),
    /// No body.
    Empty,
}

/// A reply: an HTTP status code and a body.
pub struct Reply {
    pub status: u16,
    pub body: Body,
}

pub ghost enum BodyView {
    One(TodoView),
    Many(Seq<TodoView>),
    Message(Seq<char>),
    Empty,
}

pub ghost struct ReplyView {
    pub status: u16,
    pub body: BodyView,
}

impl View for Body {
    type V = BodyView;

    open spec fn view(&self) -> BodyView {
        match self {
            Body::One(t) => BodyView::One(t@),
            Body::Many(v) => BodyView::Many(todo_views(v@)),
            Body::Message(m) => BodyView::Message(m@),
            Body::Empty => BodyView::Empty,
        }
    }
}

impl View for Reply {
    type V = ReplyView;

    open spec fn view(&self) -> ReplyView {
        ReplyView { status: self.status, body: self.body@ }
    }
}

/// The message of a reply to a request for an id that no row has.
pub open spec fn not_found_text(id: int) -> Seq<char> {
    "Todo with id "@ + decimal(id) + " not found"@
}

/// A 404 reply naming the id.
pub open spec fn spec_not_found_reply(id: int) -> ReplyView {
    ReplyView { status: NOT_FOUND, body: BodyView::Message(not_found_text(id)) }
}

/// A 500 reply: what was being done, then the store's error text.
pub open spec fn spec_failure_reply(what: Seq<char>, e: StoreError) -> ReplyView {
    ReplyView { status: INTERNAL_SERVER_ERROR, body: BodyView::Message(what + e.text@) }
}

pub open spec fn spec_create_reply(r: Result<Todo, StoreError>) -> ReplyView {
    match r {
        Ok(t) => ReplyView { status: CREATED, body: BodyView::One(t@) },
        Err(e) => spec_failure_reply("Failed to create todo: "@, e),
    }
}

pub open spec fn spec_list_reply(r: Result<Vec<Todo>, StoreError>) -> ReplyView {
    match r {
        Ok(v) => ReplyView { status: OK, body: BodyView::Many(todo_views(v@)) },
        Err(e) => spec_failure_reply("Failed to fetch todos: "@, e),
    }
}

pub open spec fn spec_get_reply(id: i32, r: Result<Todo, StoreError>) -> ReplyView {
    match r {
        Ok(t) => ReplyView { status: OK, body: BodyView::One(t@) },
        Err(e) => if e.row_not_found {
            spec_not_found_reply(id as int)
        } else {
            spec_failure_reply("Failed to fetch todo: "@, e)
        },
    }
}

pub open spec fn spec_update_reply(id: i32, r: Result<Todo, StoreError>) -> ReplyView {
    match r {
        Ok(t) => ReplyView { status: OK, body: BodyView::One(t@) },
        Err(e) => if e.row_not_found {
            spec_not_found_reply(id as int)
        } else {
            spec_failure_reply("Failed to update todo: "@, e)
        },
    }
}

pub open spec fn spec_delete_reply(id: i32, r: Result<u64, StoreError>) -> ReplyView {
    match r {
        Ok(n) => if n > 0 {
            ReplyView { status: NO_CONTENT, body: BodyView::Empty }
        } else {
            spec_not_found_reply(id as int)
        },
        Err(e) => spec_failure_reply("Failed to delete todo: "@, e),
    }
}

/// The 404 reply for `id`.
pub fn not_found_reply(id: i32) -> (r: Reply)
    ensures
        r@ == spec_not_found_reply(id as int),
{
    let text = String::from_str("Todo with id ").concat(decimal_text(id).as_str()).concat(
        " not found",
    );
    Reply { status: NOT_FOUND, body: Body::Message(text) }
}

/// The 500 reply for a failure while doing `what`.
fn failure_reply(what: &str, e: StoreError) -> (r: Reply)
    ensures
        r@ == spec_failure_reply(what@, e),
{
    let text = String::from_str(what).concat(e.text.as_str());
    Reply { status: INTERNAL_SERVER_ERROR, body: Body::Message(text) }
}

/// The reply to a create request, from the outcome of the insert: 201 with the
/// new row, or 500 whatever the error.
pub fn create_reply(r: Result<Todo, StoreError>) -> (reply: Reply)
    ensures
        reply@ == spec_create_reply(r),
{
    match r {
        Ok(t) => Reply { status: CREATED, body: Body::One(t) },
        Err(e) => failure_reply("Failed to create todo: ", e),
    }
}

/// The reply to a list request, from the outcome of the select: 200 with all
/// the rows, or 500.
pub fn list_reply(r: Result<Vec<Todo>, StoreError>) -> (reply: Reply)
    ensures
        reply@ == spec_list_reply(r),
{
    match r {
        Ok(v) => Reply { status: OK, body: Body::Many(v) },
        Err(e) => failure_reply("Failed to fetch todos: ", e),
    }
}

/// The reply to a get-by-id request: 200 with the row, 404 where no row has
/// the id, or 500 on any other failure.
pub fn get_reply(id: i32, r: Result<Todo, StoreError>) -> (reply: Reply)
    ensures
        reply@ == spec_get_reply(id, r),
{
    match r {
        Ok(t) => Reply { status: OK, body: Body::One(t) },
        Err(e) => if e.row_not_found {
            not_found_reply(id)
        } else {
            failure_reply("Failed to fetch todo: ", e)
        },
    }
}

/// The reply to an update request: 200 with the updated row, 404 where no
/// row has the id, or 500 on any other failure.
pub fn update_reply(id: i32, r: Result<Todo, StoreError>) -> (reply: Reply)
    ensures
        reply@ == spec_update_reply(id, r),
{
    match r {
        Ok(t) => Reply { status: OK, body: Body::One(t) },
        Err(e) => if e.row_not_found {
            not_found_reply(id)
        } else {
            failure_reply("Failed to update todo: ", e)
        },
    }
}

/// The reply to a delete request, from the number of rows deleted: 204 with
/// no body where one was, 404 where none was, or 500 on failure.
pub fn delete_reply(id: i32, r: Result<u64, StoreError>) -> (reply: Reply)
    ensures
        reply@ == spec_delete_reply(id, r),
{
    match r {
        Ok(n) => if n > 0 {
            Reply { status: NO_CONTENT, body: Body::Empty }
        } else {
            not_found_reply(id)
        },
        Err(e) => failure_reply("Failed to delete todo: ", e),
    }
}

} // verus!
