use vstd::prelude::*;

verus! {

/// What adding a task can report: a draft whose body is empty, or a
/// missing draft.
#[derive(Debug, Clone, Copy, PartialEq, Eq, Structural)]
pub enum AddTodoError {
    EmptyBody,
    NoCurrentTodo,
}

impl AddTodoError {
    /// The message shown for this failure.
    pub fn message(&self) -> (r: &'static str)
        ensures
            *self is EmptyBody ==> r@ == "Body empty"@,
            *self is NoCurrentTodo ==> r@ == "Current todo is missing!"@,
    {
        match self {
            AddTodoError::EmptyBody => "Body empty",
            AddTodoError::NoCurrentTodo => "Current todo is missing!",
        }
    }
}

} // verus!
