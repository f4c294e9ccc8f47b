use vstd::prelude::*;

verus! {

/// A stored todo item: an identifier given by the store, a title and a completion flag.
pub struct Todo {
    pub id: i32,
    pub title: String,
    pub completed: bool,
}

/// The body of a create or update request.
pub struct CreateTodo {
    pub title: String,
}

/// What a todo item is, mathematically.
pub ghost struct TodoView {
    pub id: int,
    pub title: Seq<char>,
    pub completed: bool,
}

impl View for Todo {
    type V = TodoView;

    open spec fn view(&self) -> TodoView {
        TodoView { id: self.id as int, title: self.title@, completed: self.completed }
    }
}

/// The views of a sequence of todo items, in the same order.
pub open spec fn todo_views(s: Seq<Todo>) -> Seq<TodoView> {
    s.map_values(|t: Todo| t@)
}

impl Todo {
    /// A todo item with the given fields.
    pub fn new(id: i32, title: String, completed: bool) -> (r: Todo)
        ensures
            r.id == id,
            r.title@ == title@,
            r.completed == completed,
    {
        Todo { id, title, completed }
    }
}

impl Clone for Todo {
    fn clone(&self) -> (r: Todo)
        ensures
            r@ == self@,
    {
        Todo { id: self.id, title: self.title.clone(), completed: self.completed }
    }
}

impl CreateTodo {
    /// A request body with the given title.
    pub fn new(title: String) -> (r: CreateTodo)
        ensures
            r.title@ == title@,
    {
        CreateTodo { title }
    }
}

} // verus!
