use todo_iced_sqlite::db::{Database, DbError, Todo};
use todo_iced_sqlite::todos::{failure_status, TodoList, TodoMessage};

fn fresh_list() -> TodoList {
    TodoList::new(Database::open_in_memory().unwrap())
}

#[test]
fn new_list_starts_empty() {
    let mut list = fresh_list();
    assert!(list.todos.is_empty());
    assert_eq!(list.input, "");
    assert!(list.status.is_none());
    assert_eq!(list.counter_label(), "0/0 completed");
}

#[test]
fn typing_replaces_the_input() {
    let mut list = fresh_list();
    list.update(TodoMessage::InputChanged(String::from("hel")));
    list.update(TodoMessage::InputChanged(String::from("hello")));
    assert_eq!(list.input, "hello");
    assert!(list.todos.is_empty());
}

#[test]
fn adding_trims_inserts_and_clears_the_input() {
    let mut list = fresh_list();
    list.update(TodoMessage::InputChanged(String::from("  buy milk  ")));
    list.update(TodoMessage::AddTodo);
    assert_eq!(list.input, "");
    assert!(list.status.is_none());
    assert_eq!(list.todos.len(), 1);
    assert_eq!(list.todos[0].title, "buy milk");
    assert!(!list.todos[0].completed);
    assert_eq!(list.counter_label(), "0/1 completed");
}

#[test]
fn adding_blank_input_does_nothing() {
    let mut list = fresh_list();
    list.update(TodoMessage::InputChanged(String::from(" \t ")));
    list.update(TodoMessage::AddTodo);
    assert_eq!(list.input, " \t ");
    assert!(list.todos.is_empty());
    assert!(list.status.is_none());
    assert_eq!(list.db.count().unwrap(), (0, 0));
}

#[test]
fn toggling_and_deleting_refresh_the_list() {
    let mut list = fresh_list();
    list.update(TodoMessage::InputChanged(String::from("a")));
    list.update(TodoMessage::AddTodo);
    list.update(TodoMessage::InputChanged(String::from("b")));
    list.update(TodoMessage::AddTodo);
    assert_eq!(list.todos[0].title, "b");
    let a = list.todos[1].id;

    list.update(TodoMessage::Toggle(a));
    assert!(list.todos[1].completed);
    assert_eq!(list.counter_label(), "1/2 completed");

    list.update(TodoMessage::Delete(a));
    assert_eq!(list.todos.len(), 1);
    assert_eq!(list.todos[0].title, "b");
    assert_eq!(list.counter_label(), "0/1 completed");
}

#[test]
fn failed_listing_keeps_todos_and_reports() {
    let mut list = fresh_list();
    list.apply_listing(Ok(vec![Todo { id: 1, title: String::from("x"), completed: false }]));
    assert_eq!(list.todos.len(), 1);
    list.apply_listing(Err(DbError { message: String::from("disk I/O error") }));
    assert_eq!(list.todos.len(), 1);
    assert_eq!(list.status.as_deref(), Some("DB error: disk I/O error"));
    list.apply_listing(Ok(Vec::new()));
    assert!(list.todos.is_empty());
    assert!(list.status.is_none());
}

#[test]
fn failure_lines() {
    let e = DbError { message: String::from("no such table: todos") };
    assert_eq!(failure_status("Insert failed: ", &e), "Insert failed: no such table: todos");
    assert_eq!(failure_status("Toggle failed: ", &e), "Toggle failed: no such table: todos");
}

#[test]
fn counter_for_counts() {
    assert_eq!(TodoList::counter_for(Ok((2, 3))), "2/3 completed");
    assert_eq!(TodoList::counter_for(Err(DbError { message: String::from("x") })), "");
}

#[test]
fn panel_from_a_listing() {
    let listed = TodoList::from_listing(
        Database::open_in_memory().unwrap(),
        Ok(vec![Todo { id: 4, title: String::from("t"), completed: true }]),
    );
    assert_eq!(listed.todos.len(), 1);
    assert_eq!(listed.input, "");
    assert!(listed.status.is_none());
    let failed = TodoList::from_listing(
        Database::open_in_memory().unwrap(),
        Err(DbError { message: String::from("locked") }),
    );
    assert!(failed.todos.is_empty());
    assert!(failed.status.is_none());
}

#[test]
fn failed_writes_report_their_own_error() {
    let mut list = fresh_list();
    list.update(TodoMessage::InputChanged(String::from("keep me")));
    list.after_add(Err(DbError { message: String::from("disk full") }));
    assert_eq!(list.status.as_deref(), Some("Insert failed: disk full"));
    assert_eq!(list.input, "keep me");
    list.after_write("Toggle failed: ", Err(DbError { message: String::from("busy") }));
    assert_eq!(list.status.as_deref(), Some("Toggle failed: busy"));
    assert_eq!(list.input, "keep me");
}

#[test]
fn successful_writes_clear_status_and_reread() {
    let mut list = fresh_list();
    list.db.add("from elsewhere").unwrap();
    list.update(TodoMessage::InputChanged(String::from("typed")));
    list.after_write("Toggle failed: ", Ok(()));
    assert_eq!(list.todos.len(), 1);
    assert_eq!(list.input, "typed");
    assert!(list.status.is_none());
    list.after_add(Ok(1));
    assert_eq!(list.input, "");
    assert_eq!(list.todos[0].title, "from elsewhere");
}
