pub mod add_todo_error;
pub mod todo;
pub mod todo_editor;

use vstd::prelude::*;

use self::todo::{Id, PartialTodo, Tag, Todo, TodoView};
use self::todo::TodoError;
use self::todo_editor::{save_error_of, spec_next_id, SaveError, TodoEditor};

verus! {

/// How long a task must have been bound to the inline editor before
/// another activation of its heading unbinds it, in milliseconds.
pub const BUTTON_SWITCH_MILLIS: u64 = 100;

/// Whether some task in the sequence carries the given identifier.
pub open spec fn has_task_with_id(s: Seq<Todo>, id: Id) -> bool {
    exists|j: int| 0 <= j < s.len() && (#[trigger] s[j])@.id == id
}

/// Whether position `i` holds the first task with the given identifier.
pub open spec fn first_match_at(s: Seq<Todo>, id: Id, i: int) -> bool {
    &&& 0 <= i < s.len()
    &&& s[i]@.id == id
    &&& forall|j: int| 0 <= j < i ==> (#[trigger] s[j])@.id != id
}

/// The sequence with every task carrying the given identifier removed.
pub open spec fn without_id(s: Seq<Todo>, id: Id) -> Seq<Todo> {
    s.filter(|t: Todo| t@.id != id)
}

/// The edit-related state: the two editor slots, which task identifier
/// the inline editor is bound to, and the debounce timer, measured in
/// milliseconds on the caller's monotone clock.
#[derive(Debug)]
pub struct TodoEdit {
    pub show_todo_maker: bool,
    pub todo_maker: TodoEditor,
    pub todo_editor: TodoEditor,
    pub todo_bound_with_editor: Option<Id>,
    pub button_switch_timer: Option<u64>,
}

impl Default for TodoEdit {
    /// Fresh edit state: both slots empty, nothing bound, no timer.
    fn default() -> (r: Self)
        ensures
            !r.show_todo_maker,
            r.todo_maker.todo is None,
            r.todo_maker.save_result is Ok,
            r.todo_editor.todo is None,
            r.todo_editor.save_result is Ok,
            r.todo_bound_with_editor is None,
            r.button_switch_timer is None,
    {
        TodoEdit {
            show_todo_maker: false,
            todo_maker: TodoEditor::default(),
            todo_editor: TodoEditor::default(),
            todo_bound_with_editor: None,
            button_switch_timer: None,
        }
    }
}

/// The close-confirmation state: whether the window may close, and
/// whether the "quit anyway?" dialog is up.
#[derive(Debug)]
pub struct OnClose {
    pub allowed_to_close: bool,
    pub on_close_dialog: bool,
}

impl Default for OnClose {
    fn default() -> (r: Self)
        ensures
            !r.allowed_to_close,
            !r.on_close_dialog,
    {
        OnClose { allowed_to_close: false, on_close_dialog: false }
    }
}

/// One step of the shutdown write-back: delete a removed identifier, or
/// store a task's current fields under its identifier.
#[derive(Debug)]
pub enum FlushOp {
    Delete(Id),
    Upsert(PartialTodo),
}

/// The task list controller: the collection of tasks in display order,
/// the edit state, the close-confirmation state, the removal ledger, and
/// the identifier queued for removal this tick.
#[derive(Debug)]
pub struct TodoApp {
    pub todos: Vec<Todo>,
    pub on_close: OnClose,
    pub edit: TodoEdit,
    pub removed_todos: Vec<Id>,
    pub todo_to_remove: Option<Id>,
}

impl Default for TodoApp {
    /// A fresh controller: no tasks, nothing queued, nothing bound.
    fn default() -> (r: Self)
        ensures
            r.todos@ == Seq::<Todo>::empty(),
            !r.on_close.allowed_to_close,
            !r.on_close.on_close_dialog,
            !r.edit.show_todo_maker,
            r.edit.todo_maker.todo is None,
            r.edit.todo_maker.save_result is Ok,
            r.edit.todo_editor.todo is None,
            r.edit.todo_editor.save_result is Ok,
            r.edit.todo_bound_with_editor is None,
            r.edit.button_switch_timer is None,
            r.removed_todos@ == Seq::<Id>::empty(),
            r.todo_to_remove is None,
    {
        let r = TodoApp {
            todos: Vec::new(),
            on_close: OnClose::default(),
            edit: TodoEdit::default(),
            removed_todos: Vec::new(),
            todo_to_remove: None,
        };
        proof {
            assert(r.todos@ =~= Seq::<Todo>::empty());
            assert(r.removed_todos@ =~= Seq::<Id>::empty());
        }
        r
    }
}

/// No position is a first match when no task carries the identifier.
proof fn lemma_no_first_match(s: Seq<Todo>, id: Id)
    requires
        !has_task_with_id(s, id),
    ensures
        forall|k: int| !(#[trigger] first_match_at(s, id, k)),
{
    assert forall|k: int| !(#[trigger] first_match_at(s, id, k)) by {
        if first_match_at(s, id, k) {
            assert((s[k])@.id == id);
            assert(has_task_with_id(s, id));
        }
    }
}

/// The first matching position is unique.
proof fn lemma_first_match_unique(s: Seq<Todo>, id: Id, i: int)
    requires
        first_match_at(s, id, i),
    ensures
        forall|k: int| #[trigger] first_match_at(s, id, k) ==> k == i,
{
    assert forall|k: int| #[trigger] first_match_at(s, id, k) implies k == i by {
        if k < i {
            assert(s[k]@.id != id);
        } else if k > i {
            assert(s[i]@.id != id);
        }
    }
}

/// Removing one task from the end distributes over `without_id`.
proof fn lemma_without_id_push(s: Seq<Todo>, id: Id, t: Todo)
    ensures
        t@.id != id ==> without_id(s.push(t), id) == without_id(s, id).push(t),
        t@.id == id ==> without_id(s.push(t), id) == without_id(s, id),
{
    reveal(Seq::filter);
    assert(s.push(t).drop_last() =~= s);
    assert(s.push(t).last() == t);
}

/// The position of the first task carrying the given identifier, if any.
fn position_of(todos: &Vec<Todo>, id: Id) -> (r: Option<usize>)
    ensures
        r is None ==> !has_task_with_id(todos@, id),
        r matches Some(i) ==> first_match_at(todos@, id, i as int),
{
    let mut i: usize = 0;
    while i < todos.len()
        invariant
            i <= todos@.len(),
            forall|j: int| 0 <= j < i ==> (#[trigger] todos@[j])@.id != id,
        decreases todos@.len() - i,
    {
        if *todos[i].id() == id {
            return Some(i);
        }
        i = i + 1;
    }
    None
}

/// Arms the debounce timer with the current instant, unless it is
/// already running.
pub fn start_timer(timer: &mut Option<u64>, now_ms: u64)
    ensures
        *old(timer) is Some ==> *final (timer) == *old(timer),
        *old(timer) is None ==> *final (timer) == Some(now_ms),
{
    if timer.is_none() {
        *timer = Some(now_ms);
    }
}

/// Reacts to an activation of a task's heading. With nothing bound, the
/// given task becomes bound to the inline editor and the edit slot
/// receives a draft copy of it. With something bound, the binding is
/// dropped once the debounce window has elapsed on the running timer;
/// within the window, or with no timer running, nothing changes. The
/// draft is not discarded by unbinding.
pub fn switch_todo_binding(edit: &mut TodoEdit, todo: &Todo, now_ms: u64)
    requires
        old(edit).button_switch_timer matches Some(t0) ==> t0 <= now_ms,
    ensures
        old(edit).todo_bound_with_editor is None ==> {
            &&& final (edit).todo_bound_with_editor == Some(todo@.id)
            &&& final (edit).todo_editor.todo is Some
            &&& final (edit).todo_editor.todo->Some_0@ == todo@
            &&& final (edit).todo_editor.save_result == old(edit).todo_editor.save_result
            &&& final (edit).button_switch_timer == old(edit).button_switch_timer
            &&& final (edit).show_todo_maker == old(edit).show_todo_maker
            &&& final (edit).todo_maker == old(edit).todo_maker
        },
        old(edit).todo_bound_with_editor is Some && old(edit).button_switch_timer is Some && now_ms
            >= old(edit).button_switch_timer->Some_0 + BUTTON_SWITCH_MILLIS ==> *final (edit) == (
        TodoEdit { todo_bound_with_editor: None, button_switch_timer: None, ..*old(edit) }),
        old(edit).todo_bound_with_editor is Some && old(edit).button_switch_timer is Some && now_ms
            < old(edit).button_switch_timer->Some_0 + BUTTON_SWITCH_MILLIS ==> *final (edit)
            == *old(edit),
        old(edit).todo_bound_with_editor is Some && old(edit).button_switch_timer is None
            ==> *final (edit) == *old(edit),
{
    if edit.todo_bound_with_editor.is_none() {
        edit.todo_bound_with_editor = Some(*todo.id());
        edit.todo_editor.todo = Some(todo.to_draft());
    } else {
        match edit.button_switch_timer {
            Some(timer) => {
                if now_ms - timer >= BUTTON_SWITCH_MILLIS {
                    edit.todo_bound_with_editor = None;
                    edit.button_switch_timer = None;
                }
            },
            None => {},
        }
    }
}

impl TodoApp {
    /// Flips the completion flag of the first task carrying the given
    /// identifier; an absent identifier changes nothing. When that same
    /// identifier is bound to the inline editor, the edit draft's flag is
    /// flipped identically, keeping the two views consistent.
    pub fn toggle_checked(&mut self, id: Id)
        requires
            old(self).edit.todo_bound_with_editor == Some(id) && has_task_with_id(
                old(self).todos@,
                id,
            ) ==> old(self).edit.todo_editor.todo is Some,
        ensures
            !has_task_with_id(old(self).todos@, id) ==> *final (self) == *old(self),
            forall|i: int|
                #[trigger] first_match_at(old(self).todos@, id, i) ==> {
                    &&& final (self).todos@.len() == old(self).todos@.len()
                    &&& forall|j: int|
                        0 <= j < old(self).todos@.len() && j != i
                            ==> final (self).todos@[j] == old(self).todos@[j]
                    &&& final (self).todos@[i]@ == (TodoView {
                        checked: !old(self).todos@[i]@.checked,
                        ..old(self).todos@[i]@
                    })
                    &&& final (self).todos@[i].wf() == old(self).todos@[i].wf()
                },
            has_task_with_id(old(self).todos@, id) ==> {
                &&& final (self).on_close == old(self).on_close
                &&& final (self).removed_todos == old(self).removed_todos
                &&& final (self).todo_to_remove == old(self).todo_to_remove
                &&& old(self).edit.todo_bound_with_editor != Some(id)
                    ==> final (self).edit == old(self).edit
                &&& old(self).edit.todo_bound_with_editor == Some(id) ==> {
                    &&& final (self).edit.todo_editor.todo is Some
                    &&& old(self).edit.todo_editor.todo is Some
                    &&& final (self).edit.todo_editor.todo->Some_0@ == (TodoView {
                        checked: !old(self).edit.todo_editor.todo->Some_0@.checked,
                        ..old(self).edit.todo_editor.todo->Some_0@
                    })
                    &&& final (self).edit == (TodoEdit {
                        todo_editor: final (self).edit.todo_editor,
                        ..old(self).edit
                    })
                    &&& final (self).edit.todo_editor.save_result == old(
                        self,
                    ).edit.todo_editor.save_result
                }
            },
    {
        match position_of(&self.todos, id) {
            None => {
                proof {
                    lemma_no_first_match(old(self).todos@, id);
                }
            },
            Some(i) => {
                proof {
                    assert(has_task_with_id(old(self).todos@, id));
                    lemma_first_match_unique(old(self).todos@, id, i as int);
                }
                let mut t = self.todos.remove(i);
                t.flip_checked();
                let ghost t_snap = t;
                self.todos.insert(i, t);
                proof {
                    assert(self.todos@ =~= old(self).todos@.update(i as int, t_snap));
                }
                let bound_here = match self.edit.todo_bound_with_editor {
                    Some(num) => num == id,
                    None => false,
                };
                if bound_here {
                    match self.edit.todo_editor.todo.take() {
                        Some(mut d) => {
                            let ghost d_before = d;
                            d.checked = !d.checked;
                            proof {
                                assert(d@ =~= (TodoView {
                                    checked: !d_before@.checked,
                                    ..d_before@
                                }));
                            }
                            self.edit.todo_editor.todo = Some(d);
                        },
                        None => {},
                    }
                }
            },
        }
    }

    /// Makes sure the creation panel has a draft to edit: an empty maker
    /// slot receives a fresh draft whose identifier continues the
    /// collection; a populated one is left alone.
    pub fn open_for_create(&mut self)
        requires
            old(self).edit.todo_maker.todo is None ==> forall|j: int|
                0 <= j < old(self).todos@.len() ==> (#[trigger] old(self).todos@[j])@.id
                    < i32::MAX,
        ensures
            old(self).edit.todo_maker.todo is Some ==> *final (self) == *old(self),
            old(self).edit.todo_maker.todo is None ==> {
                &&& final (self).edit.todo_maker.todo is Some
                &&& final (self).edit.todo_maker.todo->Some_0@ == (TodoView {
                    id: spec_next_id(old(self).todos@) as Id,
                    heading: Seq::<char>::empty(),
                    body: Seq::<char>::empty(),
                    checked: false,
                    tags: Seq::<Seq<char>>::empty(),
                })
                &&& final (self).edit == (TodoEdit {
                    todo_maker: final (self).edit.todo_maker,
                    ..old(self).edit
                })
                &&& final (self).edit.todo_maker.save_result == old(self).edit.todo_maker.save_result
                &&& final (self).todos == old(self).todos
                &&& final (self).on_close == old(self).on_close
                &&& final (self).removed_todos == old(self).removed_todos
                &&& final (self).todo_to_remove == old(self).todo_to_remove
            },
    {
        if self.edit.todo_maker.todo.is_none() {
            self.edit.todo_maker.open_for_create(&self.todos);
        }
    }

    /// Commits the creation draft: on valid content the new task is
    /// appended to the collection, the maker slot empties and the
    /// creation panel is dismissed. On a validation failure everything
    /// stays, the failure is recorded, and with no draft open nothing
    /// changes at all.
    pub fn create(&mut self) -> (r: Result<(), SaveError>)
        ensures
            old(self).edit.todo_maker.todo is None ==> r == Err::<(), SaveError>(
                SaveError::NoCurrentDraft,
            ) && *final (self) == *old(self),
            old(self).edit.todo_maker.todo is Some ==> ({
                let d = old(self).edit.todo_maker.todo->Some_0;
                &&& d@.valid() ==> {
                    &&& r == Ok::<(), SaveError>(())
                    &&& final (self).todos@.len() == old(self).todos@.len() + 1
                    &&& forall|j: int|
                        0 <= j < old(self).todos@.len() ==> final (self).todos@[j] == old(
                            self,
                        ).todos@[j]
                    &&& final (self).todos@.last()@ == d@
                    &&& final (self).todos@.last().wf()
                    &&& final (self).edit == (TodoEdit {
                        show_todo_maker: false,
                        todo_maker: final (self).edit.todo_maker,
                        ..old(self).edit
                    })
                    &&& final (self).edit.todo_maker.todo is None
                    &&& final (self).edit.todo_maker.save_result == Ok::<(), TodoError>(())
                    &&& final (self).on_close == old(self).on_close
                    &&& final (self).removed_todos == old(self).removed_todos
                    &&& final (self).todo_to_remove == old(self).todo_to_remove
                }
                &&& !d@.valid() ==> {
                    &&& r == Err::<(), SaveError>(save_error_of(d@.violation()))
                    &&& final (self).todos == old(self).todos
                    &&& final (self).edit == (TodoEdit {
                        todo_maker: final (self).edit.todo_maker,
                        ..old(self).edit
                    })
                    &&& final (self).edit.todo_maker.todo == old(self).edit.todo_maker.todo
                    &&& final (self).edit.todo_maker.save_result == Err::<(), TodoError>(
                        d@.violation(),
                    )
                    &&& final (self).on_close == old(self).on_close
                    &&& final (self).removed_todos == old(self).removed_todos
                    &&& final (self).todo_to_remove == old(self).todo_to_remove
                }
            }),
    {
        match self.edit.todo_maker.attempt_save() {
            Ok(t) => {
                self.todos.push(t);
                self.edit.show_todo_maker = false;
                Ok(())
            },
            Err(e) => Err(e),
        }
    }

    /// Reacts to an activation of the heading of the task carrying the
    /// given identifier: arms the debounce timer if it is not running,
    /// then binds or unbinds the inline editor as `switch_todo_binding`
    /// does. An absent identifier changes nothing.
    pub fn begin_edit(&mut self, id: Id, now_ms: u64)
        requires
            old(self).edit.button_switch_timer matches Some(t0) ==> t0 <= now_ms,
        ensures
            !has_task_with_id(old(self).todos@, id) ==> *final (self) == *old(self),
            has_task_with_id(old(self).todos@, id) ==> {
                &&& final (self).todos == old(self).todos
                &&& final (self).on_close == old(self).on_close
                &&& final (self).removed_todos == old(self).removed_todos
                &&& final (self).todo_to_remove == old(self).todo_to_remove
            },
            forall|i: int|
                #[trigger] first_match_at(old(self).todos@, id, i) ==> {
                    &&& old(self).edit.todo_bound_with_editor is None ==> {
                        &&& final (self).edit.todo_bound_with_editor == Some(id)
                        &&& final (self).edit.todo_editor.todo is Some
                        &&& final (self).edit.todo_editor.todo->Some_0@ == old(self).todos@[i]@
                        &&& final (self).edit.todo_editor.save_result == old(
                            self,
                        ).edit.todo_editor.save_result
                        &&& final (self).edit.show_todo_maker == old(self).edit.show_todo_maker
                        &&& final (self).edit.todo_maker == old(self).edit.todo_maker
                        &&& old(self).edit.button_switch_timer is Some ==> final (self).edit.button_switch_timer == old(self).edit.button_switch_timer
                        &&& old(self).edit.button_switch_timer is None ==> final (self).edit.button_switch_timer == Some(now_ms)
                    }
                    &&& old(self).edit.todo_bound_with_editor is Some ==> {
                        &&& old(self).edit.button_switch_timer is Some && now_ms >= old(
                            self,
                        ).edit.button_switch_timer->Some_0 + BUTTON_SWITCH_MILLIS ==> final (self).edit == (TodoEdit {
                            todo_bound_with_editor: None,
                            button_switch_timer: None,
                            ..old(self).edit
                        })
                        &&& old(self).edit.button_switch_timer is Some && now_ms < old(
                            self,
                        ).edit.button_switch_timer->Some_0 + BUTTON_SWITCH_MILLIS ==> final (self).edit == old(self).edit
                        &&& old(self).edit.button_switch_timer is None ==> final (self).edit == (
                        TodoEdit { button_switch_timer: Some(now_ms), ..old(self).edit })
                    }
                },
    {
        match position_of(&self.todos, id) {
            None => {
                proof {
                    lemma_no_first_match(old(self).todos@, id);
                }
            },
            Some(i) => {
                proof {
                    assert(has_task_with_id(old(self).todos@, id));
                    lemma_first_match_unique(old(self).todos@, id, i as int);
                }
                start_timer(&mut self.edit.button_switch_timer, now_ms);
                switch_todo_binding(&mut self.edit, &self.todos[i], now_ms);
            },
        }
    }

    /// Commits the edit draft into the bound task: on valid content the
    /// first task carrying the bound identifier takes the draft's fields
    /// in place and the binding and draft are cleared. On a validation
    /// failure the binding and draft remain and the failure is recorded.
    /// With no binding or no draft, nothing changes.
    pub fn save_edit(&mut self) -> (r: Result<(), SaveError>)
        ensures
            old(self).edit.todo_bound_with_editor is None ==> r == Err::<(), SaveError>(
                SaveError::NoCurrentDraft,
            ) && *final (self) == *old(self),
            old(self).edit.todo_bound_with_editor is Some && old(self).edit.todo_editor.todo
                is None ==> r == Err::<(), SaveError>(SaveError::NoCurrentDraft) && *final (self)
                == *old(self),
            old(self).edit.todo_bound_with_editor is Some && old(self).edit.todo_editor.todo
                is Some ==> ({
                let bid = old(self).edit.todo_bound_with_editor->Some_0;
                let d = old(self).edit.todo_editor.todo->Some_0;
                &&& !d@.valid() ==> {
                    &&& r == Err::<(), SaveError>(save_error_of(d@.violation()))
                    &&& final (self).todos == old(self).todos
                    &&& final (self).edit == (TodoEdit {
                        todo_editor: final (self).edit.todo_editor,
                        ..old(self).edit
                    })
                    &&& final (self).edit.todo_editor.todo == old(self).edit.todo_editor.todo
                    &&& final (self).edit.todo_editor.save_result == Err::<(), TodoError>(
                        d@.violation(),
                    )
                    &&& final (self).on_close == old(self).on_close
                    &&& final (self).removed_todos == old(self).removed_todos
                    &&& final (self).todo_to_remove == old(self).todo_to_remove
                }
                &&& d@.valid() ==> {
                    &&& r == Ok::<(), SaveError>(())
                    &&& final (self).edit == (TodoEdit {
                        todo_bound_with_editor: None,
                        todo_editor: final (self).edit.todo_editor,
                        ..old(self).edit
                    })
                    &&& final (self).edit.todo_editor.todo is None
                    &&& final (self).edit.todo_editor.save_result == Ok::<(), TodoError>(())
                    &&& final (self).on_close == old(self).on_close
                    &&& final (self).removed_todos == old(self).removed_todos
                    &&& final (self).todo_to_remove == old(self).todo_to_remove
                    &&& !has_task_with_id(old(self).todos@, bid) ==> final (self).todos == old(
                        self,
                    ).todos
                    &&& forall|i: int|
                        #[trigger] first_match_at(old(self).todos@, bid, i) ==> {
                            &&& final (self).todos@.len() == old(self).todos@.len()
                            &&& forall|j: int|
                                0 <= j < old(self).todos@.len() && j != i
                                    ==> final (self).todos@[j] == old(self).todos@[j]
                            &&& final (self).todos@[i]@ == d@
                            &&& final (self).todos@[i].wf()
                        }
                }
            }),
    {
        match self.edit.todo_bound_with_editor {
            None => Err(SaveError::NoCurrentDraft),
            Some(bid) => {
                match self.edit.todo_editor.attempt_save() {
                    Err(e) => Err(e),
                    Ok(t) => {
                        match position_of(&self.todos, bid) {
                            None => {
                                proof {
                                    lemma_no_first_match(old(self).todos@, bid);
                                }
                            },
                            Some(i) => {
                                proof {
                                    lemma_first_match_unique(old(self).todos@, bid, i as int);
                                }
                                let ghost t_snap = t;
                                let _replaced = self.todos.remove(i);
                                self.todos.insert(i, t);
                                proof {
                                    assert(self.todos@ =~= old(self).todos@.update(
                                        i as int,
                                        t_snap,
                                    ));
                                }
                            },
                        }
                        self.edit.todo_bound_with_editor = None;
                        Ok(())
                    },
                }
            },
        }
    }

    /// Carries out the removal queued this tick, if any: every task
    /// carrying the queued identifier leaves the collection, and the
    /// identifier is appended once to the removal ledger when at least
    /// one task matched. A queued identifier no task carries leaves both
    /// untouched. The queue is cleared either way.
    pub fn apply_removals(&mut self)
        ensures
            old(self).todo_to_remove is None ==> *final (self) == *old(self),
            old(self).todo_to_remove is Some ==> ({
                let id = old(self).todo_to_remove->Some_0;
                &&& final (self).todos@ == without_id(old(self).todos@, id)
                &&& has_task_with_id(old(self).todos@, id) ==> final (self).removed_todos@ == old(
                    self,
                ).removed_todos@.push(id)
                &&& !has_task_with_id(old(self).todos@, id) ==> final (self).removed_todos == old(
                    self,
                ).removed_todos
                &&& final (self).todo_to_remove is None
                &&& final (self).edit == old(self).edit
                &&& final (self).on_close == old(self).on_close
            }),
    {
        let target = self.todo_to_remove;
        match target {
            None => {},
            Some(id) => {
                let ghost s_old = self.todos@;
                let mut source: Vec<Todo> = Vec::new();
                core::mem::swap(&mut source, &mut self.todos);
                let mut kept: Vec<Todo> = Vec::new();
                let mut removed_any: bool = false;
                proof {
                    assert(s_old.take(0) =~= Seq::<Todo>::empty());
                    assert(without_id(Seq::<Todo>::empty(), id) =~= Seq::<Todo>::empty()) by {
                        reveal(Seq::filter);
                    }
                    assert(s_old.subrange(0, s_old.len() as int) =~= s_old);
                }
                while source.len() > 0
                    invariant
                        source@.len() <= s_old.len(),
                        source@ == s_old.subrange(
                            s_old.len() - source@.len(),
                            s_old.len() as int,
                        ),
                        kept@ == without_id(s_old.take(s_old.len() - source@.len()), id),
                        removed_any == has_task_with_id(
                            s_old.take(s_old.len() - source@.len()),
                            id,
                        ),
                    decreases source@.len(),
                {
                    let ghost k: int = s_old.len() - source@.len();
                    let t = source.remove(0);
                    let ghost t_snap = t;
                    proof {
                        assert(t_snap == s_old[k]);
                        assert(source@ =~= s_old.subrange(k + 1, s_old.len() as int));
                        assert(s_old.take(k + 1) =~= s_old.take(k).push(s_old[k]));
                        lemma_without_id_push(s_old.take(k), id, s_old[k]);
                    }
                    let matched = *t.id() == id;
                    if matched {
                        removed_any = true;
                        proof {
                            assert(s_old.take(k + 1)[k]@.id == id);
                            assert(has_task_with_id(s_old.take(k + 1), id));
                        }
                    } else {
                        kept.push(t);
                        proof {
                            let tk = s_old.take(k);
                            let tk1 = s_old.take(k + 1);
                            if has_task_with_id(tk, id) {
                                let j = choose|j: int|
                                    0 <= j < tk.len() && (#[trigger] tk[j])@.id == id;
                                assert(tk1[j]@.id == id);
                                assert(has_task_with_id(tk1, id));
                            }
                            if has_task_with_id(tk1, id) {
                                let j = choose|j: int|
                                    0 <= j < tk1.len() && (#[trigger] tk1[j])@.id == id;
                                assert(j != k);
                                assert(tk[j]@.id == id);
                                assert(has_task_with_id(tk, id));
                            }
                        }
                    }
                }
                proof {
                    assert(s_old.take(s_old.len() as int) =~= s_old);
                }
                self.todos = kept;
                if removed_any {
                    self.removed_todos.push(id);
                }
                self.todo_to_remove = None;
            },
        }
    }

    /// Absorbs one stored row into the collection, applying the loading
    /// policy: absent tags are replaced by an empty tag list, and a row
    /// whose content fails task validation is skipped silently.
    pub fn load_task_row(
        &mut self,
        id: Id,
        heading: String,
        body: String,
        checked: bool,
        tags: Option<Vec<Tag>>,
    )
        ensures
            ({
                let tag_views = if tags is Some {
                    tags->Some_0.deep_view()
                } else {
                    Seq::<Seq<char>>::empty()
                };
                let row = TodoView { id, heading: heading@, body: body@, checked, tags: tag_views };
                &&& !row.valid() ==> *final (self) == *old(self)
                &&& row.valid() ==> {
                    &&& final (self).todos@.len() == old(self).todos@.len() + 1
                    &&& forall|j: int|
                        0 <= j < old(self).todos@.len() ==> final (self).todos@[j] == old(
                            self,
                        ).todos@[j]
                    &&& final (self).todos@.last()@ == row
                    &&& final (self).todos@.last().wf()
                    &&& final (self).edit == old(self).edit
                    &&& final (self).on_close == old(self).on_close
                    &&& final (self).removed_todos == old(self).removed_todos
                    &&& final (self).todo_to_remove == old(self).todo_to_remove
                }
            }),
    {
        let tag_list = match tags {
            Some(v) => v,
            None => Vec::new(),
        };
        proof {
            assert(tag_list.deep_view() =~= (if tags is Some {
                tags->Some_0.deep_view()
            } else {
                Seq::<Seq<char>>::empty()
            }));
        }
        let draft = PartialTodo { id, heading, body, checked, tags: tag_list };
        match Todo::try_from(draft) {
            Ok(t) => {
                self.todos.push(t);
            },
            Err(_) => {},
        }
    }

    /// The write-back plan for shutdown: first a deletion for every
    /// identifier in the removal ledger, in ledger order, then an upsert
    /// of every task's current fields, in display order.
    pub fn flush_plan(&self) -> (plan: Vec<FlushOp>)
        ensures
            plan@.len() == self.removed_todos@.len() + self.todos@.len(),
            forall|i: int|
                0 <= i < self.removed_todos@.len() ==> plan@[i] == FlushOp::Delete(
                    self.removed_todos@[i],
                ),
            forall|j: int|
                0 <= j < self.todos@.len() ==> (#[trigger] plan@[self.removed_todos@.len() + j])
                    is Upsert && plan@[self.removed_todos@.len() + j]->Upsert_0@
                    == self.todos@[j]@,
    {
        let mut plan: Vec<FlushOp> = Vec::new();
        let mut i: usize = 0;
        while i < self.removed_todos.len()
            invariant
                i <= self.removed_todos@.len(),
                plan@.len() == i,
                forall|k: int|
                    0 <= k < i ==> plan@[k] == FlushOp::Delete(self.removed_todos@[k]),
            decreases self.removed_todos@.len() - i,
        {
            plan.push(FlushOp::Delete(self.removed_todos[i]));
            i = i + 1;
        }
        let mut j: usize = 0;
        while j < self.todos.len()
            invariant
                j <= self.todos@.len(),
                plan@.len() == self.removed_todos@.len() + j,
                forall|k: int|
                    0 <= k < self.removed_todos@.len() ==> plan@[k] == FlushOp::Delete(
                        self.removed_todos@[k],
                    ),
                forall|k: int|
                    0 <= k < j ==> (#[trigger] plan@[self.removed_todos@.len() + k]) is Upsert
                        && plan@[self.removed_todos@.len() + k]->Upsert_0@ == self.todos@[k]@,
            decreases self.todos@.len() - j,
        {
            plan.push(FlushOp::Upsert(self.todos[j].to_draft()));
            j = j + 1;
        }
        plan
    }

    /// Records the given identifier for removal on the next tick,
    /// replacing any identifier recorded earlier.
    pub fn queue_removal(&mut self, id: Id)
        ensures
            *final (self) == (TodoApp { todo_to_remove: Some(id), ..*old(self) }),
    {
        self.todo_to_remove = Some(id);
    }

    /// Notes the outcome of the shutdown write-back: success permits the
    /// window to close; failure raises the confirmation dialog instead.
    /// Returns whether closing is now permitted.
    pub fn note_flush_result(&mut self, ok: bool) -> (allowed: bool)
        ensures
            ok ==> final (self).on_close == (OnClose {
                allowed_to_close: true,
                ..old(self).on_close
            }),
            !ok ==> final (self).on_close == (OnClose {
                on_close_dialog: true,
                ..old(self).on_close
            }),
            allowed == final (self).on_close.allowed_to_close,
            final (self).todos == old(self).todos,
            final (self).edit == old(self).edit,
            final (self).removed_todos == old(self).removed_todos,
            final (self).todo_to_remove == old(self).todo_to_remove,
    {
        if ok {
            self.on_close.allowed_to_close = true;
        } else {
            self.on_close.on_close_dialog = true;
        }
        self.on_close.allowed_to_close
    }
}

} // verus!
