use vstd::prelude::*;

verus! {

/// How long a task must have been bound to the inline editor before
/// another activation of its heading unbinds it, in milliseconds.
pub const BUTTON_SWITCH_MILLIS: u64 = 100;

/// A free-form label attached to a task.
#[derive(Default, Clone, Debug)]
pub struct Tag(pub String);

impl Tag {
    /// Builds a second tag with equal text.
    pub fn duplicate(&self) -> (r: Tag)
        ensures
            r == *self,
    {
        Tag(self.0.clone())
    }
}

/// A task of the simple, unvalidated kind: any field may be empty.
#[derive(Default, Clone, Debug)]
pub struct Todo {
    pub heading: String,
    pub body: String,
    pub checked: bool,
    pub tags: Vec<Tag>,
}

impl Todo {
    /// Builds a second task with equal fields, sharing no storage.
    pub fn duplicate(&self) -> (r: Todo)
        ensures
            r.heading == self.heading,
            r.body == self.body,
            r.checked == self.checked,
            r.tags@ == self.tags@,
    {
        let mut tags: Vec<Tag> = Vec::new();
        let mut i: usize = 0;
        while i < self.tags.len()
            invariant
                i <= self.tags@.len(),
                tags@ == self.tags@.take(i as int),
            decreases self.tags@.len() - i,
        {
            tags.push(self.tags[i].duplicate());
            proof {
                assert(self.tags@.take(i as int) + seq![self.tags@[i as int]] =~= self.tags@.take(
                    i + 1,
                ));
            }
            i = i + 1;
        }
        proof {
            assert(tags@ =~= self.tags@);
        }
        Todo { heading: self.heading.clone(), body: self.body.clone(), checked: self.checked, tags }
    }
}

/// What adding or saving a simple task can report.
#[derive(Debug, Clone, Copy, PartialEq, Eq, Structural)]
pub enum AddTodoError {
    EmptyBody,
    NoCurrentTodo,
}

impl AddTodoError {
    /// The message shown for this failure.
    pub fn message(&self) -> (r: &'static str)
        ensures
            *self is EmptyBody ==> r@ == "Body empty"@,
            *self is NoCurrentTodo ==> r@ == "Current todo is missing!"@,
    {
        match self {
            AddTodoError::EmptyBody => "Body empty",
            AddTodoError::NoCurrentTodo => "Current todo is missing!",
        }
    }
}

/// An editor slot for the simple task kind: at most one task being
/// typed, plus the outcome of the last save attempt.
#[derive(Debug)]
pub struct TodoEditor {
    pub todo: Option<Todo>,
    pub save_result: Result<(), AddTodoError>,
}

impl Default for TodoEditor {
    /// A slot starts empty, with no failure recorded.
    fn default() -> (r: Self)
        ensures
            r.todo is None,
            r.save_result == Ok::<(), AddTodoError>(()),
    {
        TodoEditor { todo: None, save_result: Ok(()) }
    }
}

/// The simple task list: the collection in display order, the creation
/// panel state, the inline editor and which position it is bound to, and
/// the debounce timer in milliseconds on the caller's monotone clock.
#[derive(Debug)]
pub struct ToDoApp {
    pub todos: Vec<Todo>,
    pub show_todo_maker: bool,
    pub todo_maker: TodoEditor,
    pub todo_editor: TodoEditor,
    pub todo_bound_with_editor: Option<usize>,
    pub button_switch_timer: Option<u64>,
}

impl Default for ToDoApp {
    /// A fresh list: no tasks, both editors empty, nothing bound.
    fn default() -> (r: Self)
        ensures
            r.todos@ == Seq::<Todo>::empty(),
            !r.show_todo_maker,
            r.todo_maker.todo is None,
            r.todo_maker.save_result is Ok,
            r.todo_editor.todo is None,
            r.todo_editor.save_result is Ok,
            r.todo_bound_with_editor is None,
            r.button_switch_timer is None,
    {
        let r = ToDoApp {
            todos: Vec::new(),
            show_todo_maker: false,
            todo_maker: TodoEditor::default(),
            todo_editor: TodoEditor::default(),
            todo_bound_with_editor: None,
            button_switch_timer: None,
        };
        proof {
            assert(r.todos@ =~= Seq::<Todo>::empty());
        }
        r
    }
}

impl ToDoApp {
    /// A fresh, empty task list.
    pub fn new() -> (r: Self)
        ensures
            r.todos@ == Seq::<Todo>::empty(),
            !r.show_todo_maker,
            r.todo_maker.todo is None,
            r.todo_editor.todo is None,
            r.todo_bound_with_editor is None,
            r.button_switch_timer is None,
    {
        Self::default()
    }

    /// Appends a task at the end of the display order.
    pub fn insert_todo(&mut self, todo: Todo)
        ensures
            final (self).todos@ == old(self).todos@.push(todo),
            final (self).show_todo_maker == old(self).show_todo_maker,
            final (self).todo_maker == old(self).todo_maker,
            final (self).todo_editor == old(self).todo_editor,
            final (self).todo_bound_with_editor == old(self).todo_bound_with_editor,
            final (self).button_switch_timer == old(self).button_switch_timer,
    {
        self.todos.push(todo);
    }

    /// Makes sure the creation panel has a draft to type into: an empty
    /// maker slot receives a blank task; a populated one is left alone.
    pub fn open_for_create(&mut self)
        ensures
            old(self).todo_maker.todo is Some ==> *final (self) == *old(self),
            old(self).todo_maker.todo is None ==> {
                &&& final (self).todo_maker.todo is Some
                &&& ({
                    let d = final (self).todo_maker.todo->Some_0;
                    d.heading@.len() == 0 && d.body@.len() == 0 && !d.checked && d.tags@.len() == 0
                })
                &&& final (self).todo_maker.save_result == old(self).todo_maker.save_result
                &&& final (self).todos == old(self).todos
                &&& final (self).show_todo_maker == old(self).show_todo_maker
                &&& final (self).todo_editor == old(self).todo_editor
                &&& final (self).todo_bound_with_editor == old(self).todo_bound_with_editor
                &&& final (self).button_switch_timer == old(self).button_switch_timer
            },
    {
        if self.todo_maker.todo.is_none() {
            self.todo_maker.todo = Some(
                Todo {
                    heading: String::new(),
                    body: String::new(),
                    checked: false,
                    tags: Vec::new(),
                },
            );
        }
    }

    /// Moves the creation draft into the collection, provided its body is
    /// not empty, and dismisses the creation panel. An empty body or a
    /// missing draft is reported and changes nothing.
    pub fn add_todo(&mut self) -> (r: Result<(), AddTodoError>)
        ensures
            old(self).todo_maker.todo is None ==> r == Err::<(), AddTodoError>(
                AddTodoError::NoCurrentTodo,
            ) && *final (self) == *old(self),
            old(self).todo_maker.todo is Some && old(self).todo_maker.todo->Some_0.body@.len() == 0
                ==> r == Err::<(), AddTodoError>(AddTodoError::EmptyBody) && *final (self) == *old(
                self,
            ),
            old(self).todo_maker.todo is Some && old(self).todo_maker.todo->Some_0.body@.len() > 0
                ==> {
                &&& r == Ok::<(), AddTodoError>(())
                &&& final (self).todos@ == old(self).todos@.push(old(self).todo_maker.todo->Some_0)
                &&& final (self).todo_maker.todo is None
                &&& final (self).todo_maker.save_result == old(self).todo_maker.save_result
                &&& !final (self).show_todo_maker
                &&& final (self).todo_editor == old(self).todo_editor
                &&& final (self).todo_bound_with_editor == old(self).todo_bound_with_editor
                &&& final (self).button_switch_timer == old(self).button_switch_timer
            },
    {
        let body_empty = match &self.todo_maker.todo {
            Some(t) => t.body.as_str().is_empty(),
            None => {
                return Err(AddTodoError::NoCurrentTodo);
            },
        };
        if body_empty {
            return Err(AddTodoError::EmptyBody);
        }
        match self.todo_maker.todo.take() {
            Some(t) => {
                self.todos.push(t);
            },
            None => {},
        }
        self.show_todo_maker = false;
        Ok(())
    }

    /// Flips the completion flag of the task at the given position; when
    /// that position is bound to the inline editor, the editor's draft is
    /// flipped identically.
    pub fn toggle_checked_at(&mut self, i: usize)
        requires
            i < old(self).todos@.len(),
            old(self).todo_bound_with_editor == Some(i) ==> old(self).todo_editor.todo is Some,
        ensures
            final (self).todos@.len() == old(self).todos@.len(),
            forall|j: int|
                0 <= j < old(self).todos@.len() && j != i ==> final (self).todos@[j] == old(
                    self,
                ).todos@[j],
            ({
                let before = old(self).todos@[i as int];
                let after = final (self).todos@[i as int];
                after.heading == before.heading && after.body == before.body && after.checked
                    == !before.checked && after.tags@ == before.tags@
            }),
            final (self).show_todo_maker == old(self).show_todo_maker,
            final (self).todo_maker == old(self).todo_maker,
            final (self).todo_bound_with_editor == old(self).todo_bound_with_editor,
            final (self).button_switch_timer == old(self).button_switch_timer,
            old(self).todo_bound_with_editor != Some(i) ==> final (self).todo_editor == old(
                self,
            ).todo_editor,
            old(self).todo_bound_with_editor == Some(i) ==> {
                &&& final (self).todo_editor.todo is Some
                &&& ({
                    let b = old(self).todo_editor.todo->Some_0;
                    let a = final (self).todo_editor.todo->Some_0;
                    a.heading == b.heading && a.body == b.body && a.checked == !b.checked && a.tags
                        == b.tags
                })
                &&& final (self).todo_editor.save_result == old(self).todo_editor.save_result
            },
    {
        let mut t = self.todos.remove(i);
        t.checked = !t.checked;
        let ghost t_snap = t;
        self.todos.insert(i, t);
        proof {
            assert(self.todos@ =~= old(self).todos@.update(i as int, t_snap));
        }
        let bound_here = match self.todo_bound_with_editor {
            Some(num) => num == i,
            None => false,
        };
        if bound_here {
            match self.todo_editor.todo.take() {
                Some(mut d) => {
                    d.checked = !d.checked;
                    self.todo_editor.todo = Some(d);
                },
                None => {},
            }
        }
    }

    /// Reacts to an activation of the heading of the task at the given
    /// position: arms the debounce timer if it is not running, then with
    /// nothing bound, binds that position and hands the inline editor a
    /// copy of the task; with something bound, unbinds once the debounce
    /// window has elapsed and otherwise does nothing.
    pub fn toggle_edit_at(&mut self, i: usize, now_ms: u64)
        requires
            i < old(self).todos@.len(),
            old(self).button_switch_timer matches Some(t0) ==> t0 <= now_ms,
        ensures
            final (self).todos == old(self).todos,
            final (self).show_todo_maker == old(self).show_todo_maker,
            final (self).todo_maker == old(self).todo_maker,
            old(self).todo_bound_with_editor is None ==> {
                &&& final (self).todo_bound_with_editor == Some(i)
                &&& final (self).todo_editor.todo is Some
                &&& ({
                    let src = old(self).todos@[i as int];
                    let d = final (self).todo_editor.todo->Some_0;
                    d.heading == src.heading && d.body == src.body && d.checked == src.checked
                        && d.tags@ == src.tags@
                })
                &&& final (self).todo_editor.save_result == old(self).todo_editor.save_result
                &&& old(self).button_switch_timer is Some ==> final (self).button_switch_timer
                    == old(self).button_switch_timer
                &&& old(self).button_switch_timer is None ==> final (self).button_switch_timer
                    == Some(now_ms)
            },
            old(self).todo_bound_with_editor is Some ==> {
                &&& final (self).todo_editor == old(self).todo_editor
                &&& old(self).button_switch_timer is Some && now_ms >= old(
                    self,
                ).button_switch_timer->Some_0 + BUTTON_SWITCH_MILLIS ==> final (self).todo_bound_with_editor is None && final (self).button_switch_timer is None
                &&& old(self).button_switch_timer is Some && now_ms < old(
                    self,
                ).button_switch_timer->Some_0 + BUTTON_SWITCH_MILLIS ==> final (self).todo_bound_with_editor == old(self).todo_bound_with_editor && final (self).button_switch_timer == old(self).button_switch_timer
                &&& old(self).button_switch_timer is None ==> final (self).todo_bound_with_editor
                    == old(self).todo_bound_with_editor && final (self).button_switch_timer
                    == Some(now_ms)
            },
    {
        if self.button_switch_timer.is_none() {
            self.button_switch_timer = Some(now_ms);
        }
        if self.todo_bound_with_editor.is_none() {
            self.todo_bound_with_editor = Some(i);
            let copy = self.todos[i].duplicate();
            self.todo_editor.todo = Some(copy);
        } else {
            match self.button_switch_timer {
                Some(t0) => {
                    if now_ms - t0 >= BUTTON_SWITCH_MILLIS {
                        self.todo_bound_with_editor = None;
                        self.button_switch_timer = None;
                    }
                },
                None => {},
            }
        }
    }

    /// Saves the inline editor's draft over the task at the given
    /// position, provided the draft's body is not empty; then unbinds and
    /// clears the editor. An empty body is recorded and leaves the task,
    /// the draft and the binding in place.
    pub fn save_edit_at(&mut self, i: usize) -> (r: Result<(), AddTodoError>)
        requires
            i < old(self).todos@.len(),
        ensures
            old(self).todo_editor.todo is None ==> r == Err::<(), AddTodoError>(
                AddTodoError::NoCurrentTodo,
            ) && *final (self) == *old(self),
            old(self).todo_editor.todo is Some && old(self).todo_editor.todo->Some_0.body@.len()
                == 0 ==> {
                &&& r == Err::<(), AddTodoError>(AddTodoError::EmptyBody)
                &&& final (self).todo_editor.todo == old(self).todo_editor.todo
                &&& final (self).todo_editor.save_result == Err::<(), AddTodoError>(
                    AddTodoError::EmptyBody,
                )
                &&& final (self).todos == old(self).todos
                &&& final (self).show_todo_maker == old(self).show_todo_maker
                &&& final (self).todo_maker == old(self).todo_maker
                &&& final (self).todo_bound_with_editor == old(self).todo_bound_with_editor
                &&& final (self).button_switch_timer == old(self).button_switch_timer
            },
            old(self).todo_editor.todo is Some && old(self).todo_editor.todo->Some_0.body@.len()
                > 0 ==> {
                &&& r == Ok::<(), AddTodoError>(())
                &&& final (self).todos@ == old(self).todos@.update(
                    i as int,
                    old(self).todo_editor.todo->Some_0,
                )
                &&& final (self).todo_editor.todo is None
                &&& final (self).todo_editor.save_result == Ok::<(), AddTodoError>(())
                &&& final (self).todo_bound_with_editor is None
                &&& final (self).show_todo_maker == old(self).show_todo_maker
                &&& final (self).todo_maker == old(self).todo_maker
                &&& final (self).button_switch_timer == old(self).button_switch_timer
            },
    {
        let body_empty = match &self.todo_editor.todo {
            Some(d) => d.body.as_str().is_empty(),
            None => {
                return Err(AddTodoError::NoCurrentTodo);
            },
        };
        if body_empty {
            self.todo_editor.save_result = Err(AddTodoError::EmptyBody);
            return Err(AddTodoError::EmptyBody);
        }
        match self.todo_editor.todo.take() {
            Some(d) => {
                let ghost d_snap = d;
                let _replaced = self.todos.remove(i);
                self.todos.insert(i, d);
                proof {
                    assert(self.todos@ =~= old(self).todos@.update(i as int, d_snap));
                }
            },
            None => {},
        }
        self.todo_bound_with_editor = None;
        self.todo_editor.save_result = Ok(());
        Ok(())
    }
}

} // verus!
