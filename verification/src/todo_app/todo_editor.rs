use vstd::prelude::*;

use crate::todo_app::todo::{Id, PartialTodo, Todo, TodoError, TodoView};

verus! {

/// Everything a save attempt can report: the three validation failures,
/// and the caller error of saving while no draft is open.
#[derive(Debug, Clone, Copy, PartialEq, Eq, Structural)]
pub enum SaveError {
    EmptyHeading,
    EmptyBody,
    ZeroId,
    NoCurrentDraft,
}

/// The save error corresponding to a validation failure.
pub open spec fn save_error_of(e: TodoError) -> SaveError {
    match e {
        TodoError::EmptyHeading => SaveError::EmptyHeading,
        TodoError::EmptyBody => SaveError::EmptyBody,
        TodoError::ZeroId => SaveError::ZeroId,
    }
}

/// The identifier a fresh draft gets: one more than the largest existing
/// identifier, or one when there are no tasks yet.
pub open spec fn spec_next_id(s: Seq<Todo>) -> int {
    if s.len() == 0 {
        1
    } else {
        spec_max_id(s) + 1
    }
}

/// The largest identifier among the given tasks.
pub open spec fn spec_max_id(s: Seq<Todo>) -> int
    recommends
        s.len() > 0,
    decreases s.len(),
{
    if s.len() <= 1 {
        s[0]@.id as int
    } else {
        let rest = spec_max_id(s.drop_last());
        if s.last()@.id as int >= rest {
            s.last()@.id as int
        } else {
            rest
        }
    }
}

/// Computes the identifier for a fresh draft from the current tasks.
fn next_id(todos: &Vec<Todo>) -> (r: Id)
    requires
        forall|j: int| 0 <= j < todos@.len() ==> (#[trigger] todos@[j])@.id < i32::MAX,
    ensures
        r as int == spec_next_id(todos@),
{
    if todos.len() == 0 {
        1
    } else {
        let mut m: Id = *todos[0].id();
        let mut i: usize = 1;
        while i < todos.len()
            invariant
                1 <= i <= todos@.len(),
                todos@.len() > 0,
                m as int == spec_max_id(todos@.take(i as int)),
                m < i32::MAX,
                forall|j: int| 0 <= j < todos@.len() ==> (#[trigger] todos@[j])@.id < i32::MAX,
            decreases todos@.len() - i,
        {
            let next = *todos[i].id();
            proof {
                assert(todos@.take(i + 1).drop_last() =~= todos@.take(i as int));
                assert(todos@.take(i + 1).last() == todos@[i as int]);
            }
            if next > m {
                m = next;
            }
            i = i + 1;
        }
        proof {
            assert(todos@.take(todos@.len() as int) =~= todos@);
        }
        m + 1
    }
}

/// An editor slot: at most one draft under construction or edit, plus the
/// outcome of the most recent save attempt.
#[derive(Debug)]
pub struct TodoEditor {
    pub todo: Option<PartialTodo>,
    pub save_result: Result<(), TodoError>,
}

impl Default for TodoEditor {
    /// A slot starts empty, with no failure recorded.
    fn default() -> (r: Self)
        ensures
            r.todo is None,
            r.save_result == Ok::<(), TodoError>(()),
    {
        TodoEditor { todo: None, save_result: Ok(()) }
    }
}

impl TodoEditor {
    /// Populates an empty slot with a fresh draft whose identifier is one
    /// past the largest identifier in the given collection, or one when
    /// the collection is empty. Everything else in the draft is empty.
    pub fn open_for_create(&mut self, todos: &Vec<Todo>)
        requires
            old(self).todo is None,
            forall|j: int| 0 <= j < todos@.len() ==> (#[trigger] todos@[j])@.id < i32::MAX,
        ensures
            final (self).todo matches Some(d) && d@ == (TodoView {
                id: spec_next_id(todos@) as Id,
                heading: Seq::<char>::empty(),
                body: Seq::<char>::empty(),
                checked: false,
                tags: Seq::<Seq<char>>::empty(),
            }),
            final (self).save_result == old(self).save_result,
    {
        let id = next_id(todos);
        self.todo = Some(PartialTodo::new(id));
    }

    /// Populates an empty slot with a draft copied from the given task's
    /// current field values. The copy is independent: editing it does not
    /// touch the task.
    pub fn open_for_edit(&mut self, task: &Todo)
        requires
            old(self).todo is None,
        ensures
            final (self).todo matches Some(d) && d@ == task@,
            final (self).save_result == old(self).save_result,
    {
        self.todo = Some(task.to_draft());
    }

    /// Validates the current draft. On valid content the slot empties,
    /// records success and returns the constructed task for the caller to
    /// insert or swap in. On a validation failure the draft stays put and
    /// the failure is recorded for display. Saving with no draft open is a
    /// caller error and changes nothing.
    pub fn attempt_save(&mut self) -> (r: Result<Todo, SaveError>)
        ensures
            old(self).todo is None ==> r == Err::<Todo, SaveError>(SaveError::NoCurrentDraft)
                && *final (self) == *old(self),
            old(self).todo is Some ==> ({
                let d = old(self).todo->Some_0;
                &&& d@.valid() ==> r is Ok && r->Ok_0@ == d@ && r->Ok_0.wf() && final (self).todo
                    is None && final (self).save_result == Ok::<(), TodoError>(())
                &&& !d@.valid() ==> r == Err::<Todo, SaveError>(save_error_of(d@.violation()))
                    && final (self).todo == old(self).todo && final (self).save_result == Err::<
                    (),
                    TodoError,
                >(d@.violation())
            }),
    {
        match self.todo.take() {
            None => Err(SaveError::NoCurrentDraft),
            Some(d) => {
                match Todo::try_from(d.duplicate()) {
                    Ok(t) => {
                        self.save_result = Ok(());
                        Ok(t)
                    },
                    Err(e) => {
                        self.todo = Some(d);
                        self.save_result = Err(e);
                        match e {
                            TodoError::EmptyHeading => Err(SaveError::EmptyHeading),
                            TodoError::EmptyBody => Err(SaveError::EmptyBody),
                            TodoError::ZeroId => Err(SaveError::ZeroId),
                        }
                    },
                }
            },
        }
    }

    /// Discards the draft unconditionally; the recorded save outcome is
    /// left as it was.
    pub fn cancel(&mut self)
        ensures
            final (self).todo is None,
            final (self).save_result == old(self).save_result,
    {
        self.todo = None;
    }
}

} // verus!
