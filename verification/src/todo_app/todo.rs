use vstd::prelude::*;

verus! {

/// Task identifier; zero is the invalid sentinel that construction rejects.
pub type Id = i32;

pub type Heading = String;

pub type Body = String;

pub type Tag = String;

/// Reasons a task is rejected at construction or commit time.
#[derive(Debug, Clone, Copy, PartialEq, Eq, Structural)]
pub enum TodoError {
    EmptyHeading,
    EmptyBody,
    ZeroId,
}

/// The mathematical content of a task or draft: its identifier, its two
/// text fields as character sequences, its completion flag, and its tags
/// in insertion order.
#[verifier::ext_equal]
pub ghost struct TodoView {
    pub id: Id,
    pub heading: Seq<char>,
    pub body: Seq<char>,
    pub checked: bool,
    pub tags: Seq<Seq<char>>,
}

impl TodoView {
    /// A view passes validation when the identifier is non-zero and both
    /// text fields are non-empty.
    pub open spec fn valid(self) -> bool {
        &&& self.id != 0
        &&& self.heading.len() > 0
        &&& self.body.len() > 0
    }

    /// The error that validation reports first: an empty heading, then an
    /// empty body, then a zero identifier.
    pub open spec fn violation(self) -> TodoError {
        if self.heading.len() == 0 {
            TodoError::EmptyHeading
        } else if self.body.len() == 0 {
            TodoError::EmptyBody
        } else {
            TodoError::ZeroId
        }
    }
}

/// The content of a freshly constructed task: unchecked and without tags.
pub open spec fn fresh_view(id: Id, heading: Seq<char>, body: Seq<char>) -> TodoView {
    TodoView { id, heading, body, checked: false, tags: Seq::empty() }
}

/// A validated task. Once a value of this type exists, its identifier is
/// non-zero and its heading and body are non-empty; the setters refuse any
/// change that would break this.
#[derive(Debug, Clone)]
pub struct Todo {
    id: Id,
    heading: Heading,
    body: Body,
    pub checked: bool,
    pub tags: Vec<Tag>,
}

impl View for Todo {
    type V = TodoView;

    closed spec fn view(&self) -> TodoView {
        TodoView {
            id: self.id,
            heading: self.heading@,
            body: self.body@,
            checked: self.checked,
            tags: self.tags.deep_view(),
        }
    }
}

impl Todo {
    /// Every task in existence passes validation.
    pub open spec fn wf(&self) -> bool {
        self@.valid()
    }

    /// Builds a task from its parts, rejecting an empty heading, then an
    /// empty body, then a zero identifier. Succeeds exactly on valid input,
    /// and then returns an unchecked, untagged task carrying the input.
    pub fn new(id: Id, heading: String, body: String) -> (r: Result<Todo, TodoError>)
        ensures
            heading@.len() == 0 ==> r == Err::<Todo, TodoError>(TodoError::EmptyHeading),
            heading@.len() > 0 && body@.len() == 0 ==> r == Err::<Todo, TodoError>(
                TodoError::EmptyBody,
            ),
            heading@.len() > 0 && body@.len() > 0 && id == 0 ==> r == Err::<Todo, TodoError>(
                TodoError::ZeroId,
            ),
            r matches Ok(t) ==> t@ == fresh_view(id, heading@, body@) && t.wf(),
            r is Ok <==> fresh_view(id, heading@, body@).valid(),
    {
        if heading.as_str().is_empty() {
            Err(TodoError::EmptyHeading)
        } else if body.as_str().is_empty() {
            Err(TodoError::EmptyBody)
        } else if id == 0 {
            Err(TodoError::ZeroId)
        } else {
            let t = Todo { id, heading, body, checked: false, tags: Vec::new() };
            proof {
                assert(t@ =~= fresh_view(id, t.heading@, t.body@));
            }
            Ok(t)
        }
    }

    /// Replaces the identifier, refusing zero and leaving the task
    /// untouched in that case.
    pub fn set_id(&mut self, id: Id) -> (r: Result<(), TodoError>)
        ensures
            id == 0 ==> r == Err::<(), TodoError>(TodoError::ZeroId) && *final (self) == *old(self),
            id != 0 ==> r == Ok::<(), TodoError>(()) && final (self)@ == (TodoView {
                id,
                ..old(self)@
            }),
    {
        if id == 0 {
            Err(TodoError::ZeroId)
        } else {
            self.id = id;
            Ok(())
        }
    }

    /// Replaces the heading, refusing an empty one and leaving the task
    /// untouched in that case.
    pub fn set_heading(&mut self, heading: String) -> (r: Result<(), TodoError>)
        ensures
            heading@.len() == 0 ==> r == Err::<(), TodoError>(TodoError::EmptyHeading) && *final (self) == *old(self),
            heading@.len() > 0 ==> r == Ok::<(), TodoError>(()) && final (self)@ == (TodoView {
                heading: heading@,
                ..old(self)@
            }),
    {
        if heading.as_str().is_empty() {
            Err(TodoError::EmptyHeading)
        } else {
            self.heading = heading;
            Ok(())
        }
    }

    /// Replaces the body, refusing an empty one and leaving the task
    /// untouched in that case.
    pub fn set_body(&mut self, body: String) -> (r: Result<(), TodoError>)
        ensures
            body@.len() == 0 ==> r == Err::<(), TodoError>(TodoError::EmptyBody) && *final (self) == *old(self),
            body@.len() > 0 ==> r == Ok::<(), TodoError>(()) && final (self)@ == (TodoView {
                body: body@,
                ..old(self)@
            }),
    {
        if body.as_str().is_empty() {
            Err(TodoError::EmptyBody)
        } else {
            self.body = body;
            Ok(())
        }
    }

    pub fn heading(&self) -> (r: &str)
        ensures
            r@ == self@.heading,
    {
        self.heading.as_str()
    }

    pub fn id(&self) -> (r: &Id)
        ensures
            *r == self@.id,
    {
        &self.id
    }

    pub fn checked(&self) -> (r: bool)
        ensures
            r == self@.checked,
    {
        self.checked
    }

    pub fn tags(&self) -> (r: &Vec<Tag>)
        ensures
            r.deep_view() == self@.tags,
    {
        &self.tags
    }

    /// Flips the completion flag.
    pub fn flip_checked(&mut self)
        ensures
            final (self)@ == (TodoView { checked: !old(self)@.checked, ..old(self)@ }),
    {
        self.checked = !self.checked;
    }

    /// Marks the task as completed.
    pub fn check(&mut self)
        ensures
            final (self)@ == (TodoView { checked: true, ..old(self)@ }),
    {
        self.checked = true;
    }

    /// Appends the given tags in order; duplicates are kept.
    pub fn add_tags(&mut self, tags: Vec<Tag>)
        ensures
            final (self)@ == (TodoView { tags: old(self)@.tags + tags.deep_view(), ..old(self)@ }),
    {
        let ghost before: Seq<String> = self.tags@;
        let mut i: usize = 0;
        while i < tags.len()
            invariant
                i <= tags.len(),
                self.tags@ == before + tags@.take(i as int),
                self.id == old(self).id,
                self.heading == old(self).heading,
                self.body == old(self).body,
                self.checked == old(self).checked,
            decreases tags.len() - i,
        {
            self.tags.push(tags[i].clone());
            proof {
                assert(before + tags@.take(i as int) + seq![tags@[i as int]] =~= before + tags@.take(
                    i + 1,
                ));
            }
            i = i + 1;
        }
        proof {
            assert(self.tags@ =~= before + tags@);
            assert(self.tags.deep_view() =~= old(self)@.tags + tags.deep_view());
            assert(final (self)@ =~= (TodoView {
                tags: old(self)@.tags + tags.deep_view(),
                ..old(self)@
            }));
        }
    }

    /// Hands out an independent draft that starts from the task's current
    /// field values; later edits to the draft never touch the task.
    pub fn to_draft(&self) -> (r: PartialTodo)
        ensures
            r@ == self@,
    {
        let r = PartialTodo {
            id: self.id,
            heading: self.heading.clone(),
            body: self.body.clone(),
            checked: self.checked,
            tags: clone_tags(&self.tags),
        };
        proof {
            assert(r@ =~= self@);
        }
        r
    }

    /// Commits a draft: runs full validation and, on valid content,
    /// returns a task carrying exactly the draft's fields. Reports an
    /// empty heading first, then an empty body, then a zero identifier.
    pub fn try_from(partial: PartialTodo) -> (r: Result<Todo, TodoError>)
        ensures
            partial@.valid() <==> r is Ok,
            r matches Ok(t) ==> t@ == partial@ && t.wf(),
            !partial@.valid() ==> r == Err::<Todo, TodoError>(partial@.violation()),
    {
        let PartialTodo { id, heading, body, checked, tags } = partial;
        match Todo::new(id, heading, body) {
            Ok(mut t) => {
                if checked {
                    t.check();
                }
                t.add_tags(tags);
                proof {
                    assert(t@ =~= partial@);
                }
                Ok(t)
            },
            Err(e) => Err(e),
        }
    }
}

/// An unvalidated, mutable staging copy of a task: every field may be
/// empty, and nothing is checked until the draft is committed.
#[derive(Debug, Clone)]
pub struct PartialTodo {
    pub id: Id,
    pub heading: Heading,
    pub body: Body,
    pub checked: bool,
    pub tags: Vec<Tag>,
}

impl View for PartialTodo {
    type V = TodoView;

    open spec fn view(&self) -> TodoView {
        TodoView {
            id: self.id,
            heading: self.heading@,
            body: self.body@,
            checked: self.checked,
            tags: self.tags.deep_view(),
        }
    }
}

impl PartialTodo {
    /// A fresh draft: the given identifier, everything else empty.
    pub fn new(id: Id) -> (r: PartialTodo)
        ensures
            r@ == (TodoView {
                id,
                heading: Seq::<char>::empty(),
                body: Seq::<char>::empty(),
                checked: false,
                tags: Seq::<Seq<char>>::empty(),
            }),
    {
        let r = PartialTodo {
            id,
            heading: String::new(),
            body: String::new(),
            checked: false,
            tags: Vec::new(),
        };
        proof {
            assert(r@ =~= (TodoView {
                id,
                heading: Seq::<char>::empty(),
                body: Seq::<char>::empty(),
                checked: false,
                tags: Seq::<Seq<char>>::empty(),
            }));
        }
        r
    }

    /// Demotes a task to a draft; the draft carries the task's content
    /// unchanged.
    pub fn from(value: Todo) -> (r: PartialTodo)
        ensures
            r@ == value@,
    {
        value.to_draft()
    }

    /// Builds a second draft with equal fields, sharing no storage.
    pub fn duplicate(&self) -> (r: PartialTodo)
        ensures
            r@ == self@,
    {
        let r = PartialTodo {
            id: self.id,
            heading: self.heading.clone(),
            body: self.body.clone(),
            checked: self.checked,
            tags: clone_tags(&self.tags),
        };
        proof {
            assert(r@ =~= self@);
        }
        r
    }
}

/// An element-wise copy of a tag list, preserving order and duplicates.
fn clone_tags(tags: &Vec<Tag>) -> (r: Vec<Tag>)
    ensures
        r@ == tags@,
{
    let mut r: Vec<Tag> = Vec::new();
    let mut i: usize = 0;
    while i < tags.len()
        invariant
            i <= tags.len(),
            r@ == tags@.take(i as int),
        decreases tags.len() - i,
    {
        r.push(tags[i].clone());
        proof {
            assert(tags@.take(i as int) + seq![tags@[i as int]] =~= tags@.take(i + 1));
        }
        i = i + 1;
    }
    proof {
        assert(r@ =~= tags@);
    }
    r
}

/// Law: demoting a valid task to a draft and committing that draft
/// unmodified gives back a task with exactly the same identifier, heading,
/// body, completion flag and tags. The draft passes validation, so the
/// commit is guaranteed to succeed.
pub proof fn lemma_task_draft_round_trip(task: Todo, draft: PartialTodo, rebuilt: Todo)
    requires
        task.wf(),
        draft@ == task@,
        rebuilt@ == draft@,
    ensures
        draft@.valid(),
        rebuilt@ == task@,
{
}

} // verus!
