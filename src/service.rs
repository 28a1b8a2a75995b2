//! The service layer: the call surface of the boundary, which turns a
//! repository's "nothing there" into `TodoError::NotFound`.
use crate::error::TodoError;
use crate::id::TodoId;
use crate::models::{Todo, TodoInput, TodoView};
use crate::repository::{created, deleted, enumerates, store_wf, updated, views, TodoRepository};
use vstd::prelude::*;

verus! {

/// The record of a successful result, or nothing.
pub open spec fn ok_view(r: Result<Todo, TodoError>) -> Option<TodoView> {
    match r {
        Ok(t) => Some(t@),
        Err(_) => None,
    }
}

/// Orchestrates calls into a repository.
pub struct TodoService<R: TodoRepository> {
    repo: R,
}

impl<R: TodoRepository> TodoService<R> {
    /// The records held by the underlying repository.
    pub closed spec fn todos(&self) -> Map<u128, TodoView> {
        self.repo.todos()
    }

    /// The underlying repository is well formed.
    pub closed spec fn inv(&self) -> bool {
        self.repo.inv()
    }

    /// A well-formed service holds a well-formed store: each record sits
    /// under its own id.
    pub proof fn lemma_inv_store_wf(&self)
        requires
            self.inv(),
        ensures
            store_wf(self.todos()),
    {
        self.repo.lemma_inv_store_wf();
    }

    /// A service over the given repository.
    pub fn new(repo: R) -> (r: Self)
        requires
            repo.inv(),
        ensures
            r.inv(),
            r.todos() == repo.todos(),
    {
        TodoService { repo }
    }

    /// Every stored record, in an unspecified order.
    pub fn list_todos(&self) -> (r: Vec<Todo>)
        requires
            self.inv(),
        ensures
            enumerates(views(r@), self.todos()),
    {
        self.repo.list()
    }

    /// Creates a record from the input; this cannot fail.
    pub fn add_todo(&mut self, todo: TodoInput) -> (r: Todo)
        requires
            old(self).inv(),
        ensures
            final(self).inv(),
            store_wf(final(self).todos()),
            created(old(self).todos(), todo@, r@, final(self).todos()),
    {
        let r = self.repo.create(todo);
        proof {
            self.repo.lemma_inv_store_wf();
        }
        r
    }

    /// Retitles the record with the given id; `NotFound` where there is none.
    pub fn update_todo(&mut self, id: TodoId, input: TodoInput) -> (r: Result<Todo, TodoError>)
        requires
            old(self).inv(),
        ensures
            final(self).inv(),
            r is Err <==> !old(self).todos().contains_key(id@),
            r matches Err(e) ==> e is NotFound,
            r matches Ok(t) ==> t.id == id,
            store_wf(final(self).todos()),
            updated(old(self).todos(), id@, input@, ok_view(r), final(self).todos()),
    {
        let r = self.repo.update(id, input);
        proof {
            old(self).repo.lemma_inv_store_wf();
            self.repo.lemma_inv_store_wf();
        }
        match r {
            Some(t) => Ok(t),
            None => Err(TodoError::NotFound),
        }
    }

    /// Removes the record with the given id; `NotFound` where there is none.
    pub fn delete_todo(&mut self, id: TodoId) -> (r: Result<Todo, TodoError>)
        requires
            old(self).inv(),
        ensures
            final(self).inv(),
            r is Err <==> !old(self).todos().contains_key(id@),
            r matches Err(e) ==> e is NotFound,
            r matches Ok(t) ==> t.id == id,
            store_wf(final(self).todos()),
            deleted(old(self).todos(), id@, ok_view(r), final(self).todos()),
    {
        let r = self.repo.delete(id);
        proof {
            old(self).repo.lemma_inv_store_wf();
            self.repo.lemma_inv_store_wf();
        }
        match r {
            Some(t) => Ok(t),
            None => Err(TodoError::NotFound),
        }
    }
}

} // verus!
