use orange_todo::todo_app::todo::Todo;
use orange_todo::todo_app::todo_editor::SaveError;
use orange_todo::todo_app::{start_timer, switch_todo_binding, FlushOp, TodoApp, TodoEdit};

fn task(id: i32, heading: &str, body: &str) -> Todo {
    Todo::new(id, heading.to_string(), body.to_string()).unwrap()
}

fn app_with(tasks: Vec<Todo>) -> TodoApp {
    let mut app = TodoApp::default();
    app.todos = tasks;
    app
}

#[test]
fn toggle_checked_flips_task_and_bound_draft() {
    let mut app = app_with(vec![task(1, "A", "x"), task(2, "B", "y")]);
    app.begin_edit(1, 0);
    assert_eq!(app.edit.todo_bound_with_editor, Some(1));
    app.toggle_checked(1);
    assert!(app.todos[0].checked());
    assert!(!app.todos[1].checked());
    assert!(app.edit.todo_editor.todo.as_ref().unwrap().checked);
    app.toggle_checked(1);
    assert!(!app.todos[0].checked());
    assert!(!app.edit.todo_editor.todo.as_ref().unwrap().checked);
}

#[test]
fn toggle_checked_without_binding_touches_only_the_task() {
    let mut app = app_with(vec![task(1, "A", "x")]);
    app.toggle_checked(1);
    assert!(app.todos[0].checked());
    assert!(app.edit.todo_editor.todo.is_none());
}

#[test]
fn toggle_checked_absent_id_is_a_no_op() {
    let mut app = app_with(vec![task(1, "A", "x")]);
    app.toggle_checked(9);
    assert!(!app.todos[0].checked());
}

#[test]
fn queue_then_apply_removes_one_task_and_records_it() {
    let mut app = app_with(vec![task(1, "A", "x"), task(2, "B", "y")]);
    app.queue_removal(1);
    app.apply_removals();
    assert_eq!(app.todos.len(), 1);
    assert_eq!(*app.todos[0].id(), 2);
    assert_eq!(app.removed_todos, vec![1]);
    assert!(app.todo_to_remove.is_none());
}

#[test]
fn apply_removals_on_absent_id_changes_nothing() {
    let mut app = app_with(vec![task(1, "A", "x")]);
    app.queue_removal(7);
    app.apply_removals();
    assert_eq!(app.todos.len(), 1);
    assert!(app.removed_todos.is_empty());
    assert!(app.todo_to_remove.is_none());
}

#[test]
fn apply_removals_without_queue_changes_nothing() {
    let mut app = app_with(vec![task(1, "A", "x")]);
    app.apply_removals();
    assert_eq!(app.todos.len(), 1);
    assert!(app.removed_todos.is_empty());
}

#[test]
fn apply_removals_drops_every_match_and_records_once() {
    let mut app = app_with(vec![task(3, "A", "x"), task(1, "B", "y"), task(3, "C", "z")]);
    app.queue_removal(3);
    app.apply_removals();
    assert_eq!(app.todos.len(), 1);
    assert_eq!(*app.todos[0].id(), 1);
    assert_eq!(app.removed_todos, vec![3]);
}

#[test]
fn edit_then_empty_body_fails_and_keeps_binding() {
    let mut app = app_with(vec![task(1, "A", "x")]);
    app.begin_edit(1, 0);
    app.edit.todo_editor.todo.as_mut().unwrap().body = String::new();
    let r = app.save_edit();
    assert_eq!(r.unwrap_err(), SaveError::EmptyBody);
    assert_eq!(app.todos[0].heading(), "A");
    assert_eq!(app.todos[0].to_draft().body, "x");
    assert_eq!(app.edit.todo_bound_with_editor, Some(1));
    assert!(app.edit.todo_editor.todo.is_some());
}

#[test]
fn edit_then_save_replaces_task_and_clears_binding() {
    let mut app = app_with(vec![task(1, "A", "x")]);
    app.begin_edit(1, 0);
    app.edit.todo_editor.todo.as_mut().unwrap().heading = "B".to_string();
    let r = app.save_edit();
    assert!(r.is_ok());
    assert_eq!(app.todos[0].heading(), "B");
    assert_eq!(app.todos[0].to_draft().body, "x");
    assert!(app.edit.todo_bound_with_editor.is_none());
    assert!(app.edit.todo_editor.todo.is_none());
}

#[test]
fn save_edit_without_binding_is_caller_error() {
    let mut app = app_with(vec![task(1, "A", "x")]);
    let r = app.save_edit();
    assert_eq!(r.unwrap_err(), SaveError::NoCurrentDraft);
}

#[test]
fn second_activation_within_window_keeps_binding() {
    let mut app = app_with(vec![task(1, "A", "x")]);
    app.begin_edit(1, 0);
    assert_eq!(app.edit.todo_bound_with_editor, Some(1));
    app.begin_edit(1, 50);
    assert_eq!(app.edit.todo_bound_with_editor, Some(1));
}

#[test]
fn activation_after_window_unbinds() {
    let mut app = app_with(vec![task(1, "A", "x")]);
    app.begin_edit(1, 0);
    app.begin_edit(1, 150);
    assert!(app.edit.todo_bound_with_editor.is_none());
    assert!(app.edit.button_switch_timer.is_none());
}

#[test]
fn begin_edit_absent_id_is_a_no_op() {
    let mut app = app_with(vec![task(1, "A", "x")]);
    app.begin_edit(9, 0);
    assert!(app.edit.todo_bound_with_editor.is_none());
    assert!(app.edit.todo_editor.todo.is_none());
}

#[test]
fn open_for_create_then_create_appends() {
    let mut app = app_with(vec![task(1, "A", "x"), task(2, "B", "y")]);
    app.open_for_create();
    let draft = app.edit.todo_maker.todo.as_mut().unwrap();
    assert_eq!(draft.id, 3);
    draft.heading = "C".to_string();
    draft.body = "z".to_string();
    app.edit.show_todo_maker = true;
    let r = app.create();
    assert!(r.is_ok());
    assert_eq!(app.todos.len(), 3);
    assert_eq!(*app.todos[2].id(), 3);
    assert_eq!(app.todos[2].heading(), "C");
    assert!(app.edit.todo_maker.todo.is_none());
    assert!(!app.edit.show_todo_maker);
}

#[test]
fn create_with_empty_body_keeps_draft() {
    let mut app = app_with(vec![]);
    app.open_for_create();
    app.edit.todo_maker.todo.as_mut().unwrap().heading = "C".to_string();
    let r = app.create();
    assert_eq!(r.unwrap_err(), SaveError::EmptyBody);
    assert!(app.todos.is_empty());
    assert!(app.edit.todo_maker.todo.is_some());
}

#[test]
fn create_without_draft_is_caller_error() {
    let mut app = app_with(vec![]);
    let r = app.create();
    assert_eq!(r.unwrap_err(), SaveError::NoCurrentDraft);
}

#[test]
fn open_for_create_keeps_an_existing_draft() {
    let mut app = app_with(vec![task(1, "A", "x")]);
    app.open_for_create();
    app.edit.todo_maker.todo.as_mut().unwrap().heading = "typed".to_string();
    app.open_for_create();
    assert_eq!(app.edit.todo_maker.todo.as_ref().unwrap().heading, "typed");
}

#[test]
fn load_task_row_accepts_valid_rows() {
    let mut app = TodoApp::default();
    app.load_task_row(1, "h".to_string(), "b".to_string(), true, None);
    app.load_task_row(
        2,
        "i".to_string(),
        "c".to_string(),
        false,
        Some(vec!["t".to_string()]),
    );
    assert_eq!(app.todos.len(), 2);
    assert!(app.todos[0].checked());
    assert!(app.todos[0].tags().is_empty());
    assert_eq!(app.todos[1].tags().as_slice(), ["t"]);
}

#[test]
fn load_task_row_skips_invalid_rows() {
    let mut app = TodoApp::default();
    app.load_task_row(1, String::new(), "b".to_string(), false, None);
    app.load_task_row(0, "h".to_string(), "b".to_string(), false, None);
    app.load_task_row(2, "h".to_string(), String::new(), false, None);
    assert!(app.todos.is_empty());
}

#[test]
fn flush_plan_lists_deletes_then_upserts() {
    let mut app = app_with(vec![task(1, "A", "x")]);
    app.removed_todos = vec![4, 9];
    let plan = app.flush_plan();
    assert_eq!(plan.len(), 3);
    match &plan[0] {
        FlushOp::Delete(id) => assert_eq!(*id, 4),
        _ => panic!("expected a deletion first"),
    }
    match &plan[1] {
        FlushOp::Delete(id) => assert_eq!(*id, 9),
        _ => panic!("expected a deletion second"),
    }
    match &plan[2] {
        FlushOp::Upsert(p) => {
            assert_eq!(p.id, 1);
            assert_eq!(p.heading, "A");
            assert_eq!(p.body, "x");
        },
        _ => panic!("expected an upsert last"),
    }
}

#[test]
fn start_timer_only_arms_once() {
    let mut timer = None;
    start_timer(&mut timer, 10);
    assert_eq!(timer, Some(10));
    start_timer(&mut timer, 99);
    assert_eq!(timer, Some(10));
}

#[test]
fn switch_todo_binding_binds_then_unbinds() {
    let mut edit = TodoEdit::default();
    let t = task(3, "A", "x");
    switch_todo_binding(&mut edit, &t, 0);
    assert_eq!(edit.todo_bound_with_editor, Some(3));
    assert_eq!(edit.todo_editor.todo.as_ref().unwrap().id, 3);
    switch_todo_binding(&mut edit, &t, 500);
    assert_eq!(edit.todo_bound_with_editor, Some(3));
    edit.button_switch_timer = Some(0);
    switch_todo_binding(&mut edit, &t, 250);
    assert!(edit.todo_bound_with_editor.is_none());
    assert!(edit.button_switch_timer.is_none());
}

#[test]
fn note_flush_result_drives_the_close_dialog() {
    let mut app = TodoApp::default();
    let allowed = app.note_flush_result(false);
    assert!(!allowed);
    assert!(app.on_close.on_close_dialog);
    assert!(!app.on_close.allowed_to_close);
    let allowed = app.note_flush_result(true);
    assert!(allowed);
    assert!(app.on_close.allowed_to_close);
}
