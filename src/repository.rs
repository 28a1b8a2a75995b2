//! The storage abstraction over to-do records.
use crate::id::TodoId;
use crate::models::{Todo, TodoInput, TodoView};
use vstd::prelude::*;

verus! {

/// A store is well formed when it is finite and each record sits under its
/// own id, so that no two records share an id.
pub open spec fn store_wf(m: Map<u128, TodoView>) -> bool {
    &&& m.dom().finite()
    &&& forall|k: u128| #[trigger] m.contains_key(k) ==> m[k].id == k
}

/// `r` lists the records of `m`, each exactly once, in some order.
pub open spec fn enumerates(r: Seq<TodoView>, m: Map<u128, TodoView>) -> bool {
    &&& r.len() == m.len()
    &&& forall|i: int| 0 <= i < r.len() ==> #[trigger] m.contains_key(r[i].id) && m[r[i].id] == r[i]
    &&& forall|i: int, j: int| 0 <= i < j < r.len() ==> r[i].id != r[j].id
    &&& forall|k: u128| #[trigger] m.contains_key(k) ==> exists|i: int| 0 <= i < r.len() && r[i].id == k
}

/// The values of a sequence of records.
pub open spec fn views(r: Seq<Todo>) -> Seq<TodoView> {
    r.map_values(|t: Todo| t@)
}

/// The value of an optional record.
pub open spec fn opt_view(r: Option<Todo>) -> Option<TodoView> {
    match r {
        Some(t) => Some(t@),
        None => None,
    }
}

/// `r` was created from `title` in store `before`, giving store `after`: it
/// is not completed, its id was free, and it is added under that id.
pub open spec fn created(
    before: Map<u128, TodoView>,
    title: Seq<char>,
    r: TodoView,
    after: Map<u128, TodoView>,
) -> bool {
    &&& !before.contains_key(r.id)
    &&& r == (TodoView { id: r.id, title: title, completed: false })
    &&& after == before.insert(r.id, r)
}

/// Retitling the record `id` of store `before` to `title` gave `r` and store
/// `after`: the retitled record where there was one, else nothing and no
/// change.
pub open spec fn updated(
    before: Map<u128, TodoView>,
    id: u128,
    title: Seq<char>,
    r: Option<TodoView>,
    after: Map<u128, TodoView>,
) -> bool {
    if before.contains_key(id) {
        let t = TodoView { title: title, ..before[id] };
        r == Some(t) && after == before.insert(id, t)
    } else {
        r is None && after == before
    }
}

/// Removing the record `id` of store `before` gave `r` and store `after`: the
/// removed record where there was one, else nothing and no change.
pub open spec fn deleted(
    before: Map<u128, TodoView>,
    id: u128,
    r: Option<TodoView>,
    after: Map<u128, TodoView>,
) -> bool {
    if before.contains_key(id) {
        r == Some(before[id]) && after == before.remove(id)
    } else {
        r is None && after == before
    }
}

/// Storage of to-do records, keyed by id.
pub trait TodoRepository {
    /// The stored records, by id.
    spec fn todos(&self) -> Map<u128, TodoView>;

    /// The implementation's own well-formedness.
    spec fn inv(&self) -> bool;

    /// A well-formed implementation holds a well-formed store.
    proof fn lemma_inv_store_wf(&self)
        requires
            self.inv(),
        ensures
            store_wf(self.todos()),
    ;

    /// A snapshot of every stored record, in an unspecified order.
    fn list(&self) -> (r: Vec<Todo>)
        requires
            self.inv(),
        ensures
            enumerates(views(r@), self.todos()),
    ;

    /// Stores a new, not yet completed record with the input's title under a
    /// fresh id, and returns a copy of it.
    fn create(&mut self, input: TodoInput) -> (r: Todo)
        requires
            old(self).inv(),
        ensures
            final(self).inv(),
            created(old(self).todos(), input@, r@, final(self).todos()),
    ;

    /// Retitles the record with the given id and returns a copy of it; with
    /// no such record, returns `None` and changes nothing.
    fn update(&mut self, id: TodoId, input: TodoInput) -> (r: Option<Todo>)
        requires
            old(self).inv(),
        ensures
            final(self).inv(),
            updated(old(self).todos(), id@, input@, opt_view(r), final(self).todos()),
    ;

    /// Removes the record with the given id and returns it; with no such
    /// record, returns `None` and changes nothing.
    fn delete(&mut self, id: TodoId) -> (r: Option<Todo>)
        requires
            old(self).inv(),
        ensures
            final(self).inv(),
            deleted(old(self).todos(), id@, opt_view(r), final(self).todos()),
    ;
}

} // verus!
