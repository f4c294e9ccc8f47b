use todo_service::reply::{Body, Reply};
use todo_service::service::{create_todo, delete_todo, get_todo, get_todos, update_todo};
use todo_service::table::TodoTable;
use todo_service::todo::{CreateTodo, Todo};

fn payload(title: &str) -> CreateTodo {
    CreateTodo::new(title.to_string())
}

fn one(r: &Reply) -> &Todo {
    match &r.body {
        Body::One(t) => t,
        _ => panic!("expected one todo"),
    }
}

fn message(r: &Reply) -> &str {
    match &r.body {
        Body::Message(m) => m.as_str(),
        _ => panic!("expected a message"),
    }
}

#[test]
fn create_buy_milk() {
    let mut store = TodoTable::new();
    let r = create_todo(&mut store, payload("Buy milk"));
    assert_eq!(r.status, 201);
    let t = one(&r);
    assert_eq!(t.title, "Buy milk");
    assert!(!t.completed);
    assert!(t.id > 0);
}

#[test]
fn list_after_two_creates_has_both() {
    let mut store = TodoTable::new();
    let a = create_todo(&mut store, payload("first"));
    let b = create_todo(&mut store, payload("second"));
    let (a, b) = (one(&a).clone(), one(&b).clone());
    assert_ne!(a.id, b.id);
    let r = get_todos(&store);
    assert_eq!(r.status, 200);
    let rows = match &r.body {
        Body::Many(v) => v,
        _ => panic!("expected a list"),
    };
    assert_eq!(rows.len(), 2);
    for want in [&a, &b] {
        let got = rows.iter().find(|t| t.id == want.id).expect("created row listed");
        assert_eq!(got.title, want.title);
        assert_eq!(got.completed, want.completed);
    }
}

#[test]
fn list_of_empty_table_is_empty() {
    let store = TodoTable::new();
    let r = get_todos(&store);
    assert_eq!(r.status, 200);
    assert!(matches!(&r.body, Body::Many(v) if v.is_empty()));
}

#[test]
fn get_nonexistent_is_not_found() {
    let mut store = TodoTable::new();
    create_todo(&mut store, payload("something"));
    let r = get_todo(&store, 99999);
    assert_eq!(r.status, 404);
    assert_eq!(message(&r), "Todo with id 99999 not found");
}

#[test]
fn update_resets_completed_and_replaces_title() {
    let mut store = TodoTable::new();
    let c = create_todo(&mut store, payload("old title"));
    let id = one(&c).id;
    let u = update_todo(&mut store, id, payload("new title"));
    assert_eq!(u.status, 200);
    let t = one(&u);
    assert_eq!(t.id, id);
    assert_eq!(t.title, "new title");
    assert!(!t.completed);
    let g = get_todo(&store, id);
    assert_eq!(one(&g).title, "new title");
    assert!(!one(&g).completed);
}

#[test]
fn update_nonexistent_is_not_found() {
    let mut store = TodoTable::new();
    let u = update_todo(&mut store, 7, payload("x"));
    assert_eq!(u.status, 404);
    assert_eq!(message(&u), "Todo with id 7 not found");
}

#[test]
fn delete_twice_gives_no_content_then_not_found() {
    let mut store = TodoTable::new();
    let c = create_todo(&mut store, payload("to delete"));
    let id = one(&c).id;
    let first = delete_todo(&mut store, id);
    assert_eq!(first.status, 204);
    assert!(matches!(first.body, Body::Empty));
    let second = delete_todo(&mut store, id);
    assert_eq!(second.status, 404);
    assert_eq!(get_todo(&store, id).status, 404);
}

#[test]
fn delete_keeps_other_rows() {
    let mut store = TodoTable::new();
    let ids: Vec<i32> = ["a", "b", "c"]
        .iter()
        .map(|t| one(&create_todo(&mut store, payload(t))).id)
        .collect();
    assert_eq!(delete_todo(&mut store, ids[1]).status, 204);
    assert_eq!(one(&get_todo(&store, ids[0])).title, "a");
    assert_eq!(one(&get_todo(&store, ids[2])).title, "c");
    let r = get_todos(&store);
    assert!(matches!(&r.body, Body::Many(v) if v.len() == 2));
}

#[test]
fn create_then_get_round_trip() {
    let mut store = TodoTable::new();
    let c = create_todo(&mut store, payload("round trip"));
    let created = one(&c).clone();
    let g = get_todo(&store, created.id);
    assert_eq!(g.status, 200);
    let got = one(&g);
    assert_eq!(got.id, created.id);
    assert_eq!(got.title, created.title);
    assert_eq!(got.completed, created.completed);
}

#[test]
fn ids_are_not_reused_after_delete() {
    let mut store = TodoTable::new();
    let a = one(&create_todo(&mut store, payload("a"))).id;
    delete_todo(&mut store, a);
    let b = one(&create_todo(&mut store, payload("b"))).id;
    assert_eq!(a, 1);
    assert_eq!(b, 2);
}
