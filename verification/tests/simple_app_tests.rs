use orange_todo::db::set::Error;
use orange_todo::to_do_app::{AddTodoError, Tag, ToDoApp, Todo};
use orange_todo::todo_app::add_todo_error::AddTodoError as PlainAddTodoError;

fn simple(heading: &str, body: &str) -> Todo {
    Todo {
        heading: heading.to_string(),
        body: body.to_string(),
        checked: false,
        tags: Vec::new(),
    }
}

#[test]
fn insert_todo_appends() {
    let mut app = ToDoApp::new();
    app.insert_todo(simple("a", "x"));
    app.insert_todo(simple("b", "y"));
    assert_eq!(app.todos.len(), 2);
    assert_eq!(app.todos[1].heading, "b");
}

#[test]
fn add_todo_moves_draft_into_list() {
    let mut app = ToDoApp::new();
    app.show_todo_maker = true;
    app.todo_maker.todo = Some(simple("a", "x"));
    assert!(app.add_todo().is_ok());
    assert_eq!(app.todos.len(), 1);
    assert!(app.todo_maker.todo.is_none());
    assert!(!app.show_todo_maker);
}

#[test]
fn open_for_create_hands_out_a_blank_draft() {
    let mut app = ToDoApp::new();
    app.open_for_create();
    let d = app.todo_maker.todo.as_ref().unwrap();
    assert!(d.heading.is_empty());
    assert!(d.body.is_empty());
    assert!(!d.checked);
    assert!(d.tags.is_empty());
    app.todo_maker.todo.as_mut().unwrap().heading = "typed".to_string();
    app.open_for_create();
    assert_eq!(app.todo_maker.todo.as_ref().unwrap().heading, "typed");
}

#[test]
fn add_todo_rejects_empty_body() {
    let mut app = ToDoApp::new();
    app.todo_maker.todo = Some(simple("a", ""));
    assert_eq!(app.add_todo().unwrap_err(), AddTodoError::EmptyBody);
    assert!(app.todo_maker.todo.is_some());
    assert!(app.todos.is_empty());
}

#[test]
fn add_todo_without_draft_is_caller_error() {
    let mut app = ToDoApp::new();
    assert_eq!(app.add_todo().unwrap_err(), AddTodoError::NoCurrentTodo);
}

#[test]
fn toggle_checked_at_flips_task_and_bound_draft() {
    let mut app = ToDoApp::new();
    app.insert_todo(simple("a", "x"));
    app.toggle_edit_at(0, 0);
    app.toggle_checked_at(0);
    assert!(app.todos[0].checked);
    assert!(app.todo_editor.todo.as_ref().unwrap().checked);
}

#[test]
fn toggle_edit_at_binds_a_copy() {
    let mut app = ToDoApp::new();
    let mut t = simple("a", "x");
    t.tags.push(Tag("k".to_string()));
    app.insert_todo(t);
    app.toggle_edit_at(0, 5);
    assert_eq!(app.todo_bound_with_editor, Some(0));
    assert_eq!(app.button_switch_timer, Some(5));
    let d = app.todo_editor.todo.as_mut().unwrap();
    assert_eq!(d.heading, "a");
    assert_eq!(d.tags.len(), 1);
    d.heading = "changed".to_string();
    assert_eq!(app.todos[0].heading, "a");
}

#[test]
fn toggle_edit_at_unbinds_after_debounce() {
    let mut app = ToDoApp::new();
    app.insert_todo(simple("a", "x"));
    app.toggle_edit_at(0, 0);
    app.toggle_edit_at(0, 40);
    assert_eq!(app.todo_bound_with_editor, Some(0));
    app.toggle_edit_at(0, 140);
    assert!(app.todo_bound_with_editor.is_none());
    assert!(app.button_switch_timer.is_none());
}

#[test]
fn save_edit_at_swaps_in_the_draft() {
    let mut app = ToDoApp::new();
    app.insert_todo(simple("a", "x"));
    app.toggle_edit_at(0, 0);
    app.todo_editor.todo.as_mut().unwrap().body = "edited".to_string();
    assert!(app.save_edit_at(0).is_ok());
    assert_eq!(app.todos[0].body, "edited");
    assert!(app.todo_editor.todo.is_none());
    assert!(app.todo_bound_with_editor.is_none());
    assert_eq!(app.todo_editor.save_result, Ok(()));
}

#[test]
fn save_edit_at_rejects_empty_body() {
    let mut app = ToDoApp::new();
    app.insert_todo(simple("a", "x"));
    app.toggle_edit_at(0, 0);
    app.todo_editor.todo.as_mut().unwrap().body = String::new();
    assert_eq!(app.save_edit_at(0).unwrap_err(), AddTodoError::EmptyBody);
    assert_eq!(app.todos[0].body, "x");
    assert_eq!(app.todo_bound_with_editor, Some(0));
    assert_eq!(app.todo_editor.save_result, Err(AddTodoError::EmptyBody));
}

#[test]
fn standalone_add_error_messages() {
    assert_eq!(PlainAddTodoError::EmptyBody.message(), "Body empty");
    assert_eq!(PlainAddTodoError::NoCurrentTodo.message(), "Current todo is missing!");
    assert_ne!(PlainAddTodoError::EmptyBody, PlainAddTodoError::NoCurrentTodo);
}

#[test]
fn error_messages_match_the_display_text() {
    assert_eq!(AddTodoError::EmptyBody.message(), "Body empty");
    assert_eq!(AddTodoError::NoCurrentTodo.message(), "Current todo is missing!");
    assert_eq!(Error::SetupDb.message(), "Couldn't setup db properly");
    assert_eq!(
        Error::ReadConfig.message(),
        "Couldn't read config from file 'secrets.toml' properly"
    );
}
