use todo_service::decimal::decimal_text;
use todo_service::reply::{
    create_reply, delete_reply, get_reply, list_reply, not_found_reply, update_reply, Body,
    StoreError,
};
use todo_service::todo::Todo;

fn failure(text: &str) -> StoreError {
    StoreError::new(false, text.to_string())
}

fn row_not_found() -> StoreError {
    StoreError::new(true, "no rows returned".to_string())
}

fn text(body: &Body) -> &str {
    match body {
        Body::Message(m) => m.as_str(),
        _ => panic!("expected a message"),
    }
}

#[test]
fn decimal_text_of_integers() {
    assert_eq!(decimal_text(0), "0");
    assert_eq!(decimal_text(7), "7");
    assert_eq!(decimal_text(10), "10");
    assert_eq!(decimal_text(99999), "99999");
    assert_eq!(decimal_text(-42), "-42");
    assert_eq!(decimal_text(i32::MAX), "2147483647");
    assert_eq!(decimal_text(i32::MIN), "-2147483648");
}

#[test]
fn not_found_reply_names_the_id() {
    let r = not_found_reply(-3);
    assert_eq!(r.status, 404);
    assert_eq!(text(&r.body), "Todo with id -3 not found");
}

#[test]
fn create_reply_outcomes() {
    let ok = create_reply(Ok(Todo::new(5, "Buy milk".to_string(), false)));
    assert_eq!(ok.status, 201);
    assert!(matches!(&ok.body, Body::One(t) if t.id == 5 && t.title == "Buy milk" && !t.completed));
    let err = create_reply(Err(failure("connection refused")));
    assert_eq!(err.status, 500);
    assert_eq!(text(&err.body), "Failed to create todo: connection refused");
    let nf = create_reply(Err(row_not_found()));
    assert_eq!(nf.status, 500);
    assert_eq!(text(&nf.body), "Failed to create todo: no rows returned");
}

#[test]
fn list_reply_outcomes() {
    let rows = vec![Todo::new(1, "a".to_string(), false), Todo::new(2, "b".to_string(), true)];
    let ok = list_reply(Ok(rows));
    assert_eq!(ok.status, 200);
    assert!(matches!(&ok.body, Body::Many(v) if v.len() == 2 && v[1].completed));
    let err = list_reply(Err(failure("timeout")));
    assert_eq!(err.status, 500);
    assert_eq!(text(&err.body), "Failed to fetch todos: timeout");
}

#[test]
fn get_reply_outcomes() {
    let ok = get_reply(3, Ok(Todo::new(3, "t".to_string(), true)));
    assert_eq!(ok.status, 200);
    assert!(matches!(&ok.body, Body::One(t) if t.id == 3 && t.completed));
    let nf = get_reply(99999, Err(row_not_found()));
    assert_eq!(nf.status, 404);
    assert_eq!(text(&nf.body), "Todo with id 99999 not found");
    let err = get_reply(3, Err(failure("broken pipe")));
    assert_eq!(err.status, 500);
    assert_eq!(text(&err.body), "Failed to fetch todo: broken pipe");
}

#[test]
fn update_reply_outcomes() {
    let ok = update_reply(4, Ok(Todo::new(4, "new".to_string(), false)));
    assert_eq!(ok.status, 200);
    let nf = update_reply(4, Err(row_not_found()));
    assert_eq!(nf.status, 404);
    assert_eq!(text(&nf.body), "Todo with id 4 not found");
    let err = update_reply(4, Err(failure("deadlock")));
    assert_eq!(err.status, 500);
    assert_eq!(text(&err.body), "Failed to update todo: deadlock");
}

#[test]
fn delete_reply_outcomes() {
    let ok = delete_reply(8, Ok(1));
    assert_eq!(ok.status, 204);
    assert!(matches!(ok.body, Body::Empty));
    let nf = delete_reply(8, Ok(0));
    assert_eq!(nf.status, 404);
    assert_eq!(text(&nf.body), "Todo with id 8 not found");
    let err = delete_reply(8, Err(failure("gone")));
    assert_eq!(err.status, 500);
    assert_eq!(text(&err.body), "Failed to delete todo: gone");
    let odd = delete_reply(8, Err(row_not_found()));
    assert_eq!(odd.status, 500);
}
