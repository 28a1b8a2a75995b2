//! The to-do record and the payload that creates or retitles one.
use crate::id::TodoId;
use vstd::prelude::*;

verus! {

/// The mathematical value of a to-do record.
pub struct TodoView {
    pub id: u128,
    pub title: Seq<char>,
    pub completed: bool,
}

/// A to-do record. Its id is assigned at creation and never changes.
#[derive(Debug, Clone)]
pub struct Todo {
    pub id: TodoId,
    pub title: String,
    pub completed: bool,
}

/// The payload of a create or update: a title.
#[derive(Debug, Clone)]
pub struct TodoInput {
    pub title: String,
}

impl View for Todo {
    type V = TodoView;

    open spec fn view(&self) -> TodoView {
        TodoView { id: self.id@, title: self.title@, completed: self.completed }
    }
}

impl View for TodoInput {
    type V = Seq<char>;

    open spec fn view(&self) -> Seq<char> {
        self.title@
    }
}

impl Todo {
    /// A new, not yet completed record with the given id and the input's title.
    pub fn new(id: TodoId, input: TodoInput) -> (r: Todo)
        ensures
            r@ == (TodoView { id: id@, title: input@, completed: false }),
    {
        Todo { id, title: input.title, completed: false }
    }

    /// Replaces the title with the input's; id and completion stay.
    pub fn update(&mut self, input: TodoInput)
        ensures
            final(self)@ == (TodoView { title: input@, ..old(self)@ }),
    {
        self.title = input.title;
    }

    /// A copy of the record, independent of the original.
    pub fn snapshot(&self) -> (r: Todo)
        ensures
            r@ == self@,
    {
        Todo { id: self.id, title: self.title.clone(), completed: self.completed }
    }
}

} // verus!
