/// Connection settings and setup errors for the backing database.
pub mod db;
/// A simple task list over unvalidated tasks, with the inline editor
/// bound by position.
pub mod to_do_app;
/// The validated task list: task entities and drafts, editor slots, and
/// the controller that reconciles edits with the collection.
pub mod todo_app;
