//! The in-memory repository: a hash map from id value to record.
use crate::id::TodoId;
use crate::models::{Todo, TodoInput, TodoView};
use crate::repository::{enumerates, store_wf, views, TodoRepository};
use std::collections::HashMap;
use vstd::std_specs::iter::IteratorSpec;
use vstd::prelude::*;

verus! {

broadcast use vstd::std_specs::hash::group_hash_axioms;

/// How far `x` lies past `start`, counting upward with wrap-around.
spec fn offset_from(start: u128, x: u128) -> int {
    if x >= start {
        x - start
    } else {
        x + 0x1_0000_0000_0000_0000_0000_0000_0000_0000int - start
    }
}

/// Records held in memory, keyed by the value of their id.
pub struct InMemoryTodoRepository {
    store: HashMap<u128, Todo>,
}

impl InMemoryTodoRepository {
    /// An empty repository.
    pub fn new() -> (r: InMemoryTodoRepository)
        ensures
            r.inv(),
            r.todos() == Map::<u128, TodoView>::empty(),
    {
        let r = InMemoryTodoRepository { store: HashMap::new() };
        assert(r.todos() =~= Map::<u128, TodoView>::empty());
        r
    }

    /// A copy of the record with the given id, if there is one.
    pub fn get(&self, id: TodoId) -> (r: Option<Todo>)
        requires
            self.inv(),
        ensures
            match r {
                Some(t) => self.todos().contains_key(id@) && t@ == self.todos()[id@],
                None => !self.todos().contains_key(id@),
            },
    {
        match self.store.get(&id.0) {
            Some(t) => Some(t.snapshot()),
            None => None,
        }
    }

    /// A value under which nothing is stored: `start` itself when it is free,
    /// else the next free value counting upward from it.
    fn free_key_from(&self, start: u128) -> (r: u128)
        requires
            self.inv(),
        ensures
            !self.store@.contains_key(r),
            !self.store@.contains_key(start) ==> r == start,
    {
        let mut candidate: u128 = start;
        let mut k: u128 = 0;
        let ghost mut tried: Set<u128> = Set::empty();
        while self.store.contains_key(&candidate)
            invariant
                self.inv(),
                tried.finite(),
                tried.len() == k,
                tried.subset_of(self.store@.dom()),
                forall|x: u128| #[trigger] tried.contains(x) ==> offset_from(start, x) < k,
                offset_from(start, candidate) == k,
                k <= self.store@.dom().len(),
                k == 0 ==> candidate == start,
                k > 0 ==> self.store@.contains_key(start),
            decreases self.store@.dom().len() - k,
        {
            proof {
                tried = tried.insert(candidate);
                vstd::set_lib::lemma_len_subset(tried, self.store@.dom());
                assert(self.store@.dom().len() == self.store.len());
            }
            k = k + 1;
            candidate = candidate.wrapping_add(1);
        }
        candidate
    }
}

impl Default for InMemoryTodoRepository {
    /// An empty repository.
    fn default() -> (r: InMemoryTodoRepository)
        ensures
            r.inv(),
            r.todos() == Map::<u128, TodoView>::empty(),
    {
        InMemoryTodoRepository::new()
    }
}

impl TodoRepository for InMemoryTodoRepository {
    closed spec fn todos(&self) -> Map<u128, TodoView> {
        self.store@.map_values(|t: Todo| t@)
    }

    closed spec fn inv(&self) -> bool {
        &&& self.store@.dom().finite()
        &&& forall|k: u128| #[trigger] self.store@.contains_key(k) ==> self.store@[k].id@ == k
    }

    proof fn lemma_inv_store_wf(&self) {
        assert(self.todos().dom() =~= self.store@.dom());
    }

    fn list(&self) -> (r: Vec<Todo>) {
        let mut out: Vec<Todo> = Vec::new();
        let ghost ks: Seq<u128> = self.store.keys().remaining().unref();
        proof {
            self.lemma_inv_store_wf();
        }
        for k in it: self.store.keys()
            invariant
                self.inv(),
                it.seq().unref() == ks,
                ks.no_duplicates(),
                ks.to_set() == self.store@.dom(),
                ks.len() == self.store@.dom().len(),
                out@.len() == it.index(),
                forall|i: int| 0 <= i < out@.len() ==> #[trigger] out@[i]@ == self.store@[ks[i]]@,
        {
            assert(*k == ks[it.index()]);
            assert(ks.to_set().contains(*k));
            match self.store.get(k) {
                Some(t) => out.push(t.snapshot()),
                None => {},
            }
        }
        proof {
            let r = views(out@);
            assert(self.todos().dom() =~= self.store@.dom());
            assert forall|i: int| 0 <= i < r.len() implies r[i].id == ks[i] && self.todos().contains_key(
                #[trigger] r[i].id,
            ) && self.todos()[r[i].id] == r[i] by {
                assert(ks.to_set().contains(ks[i]));
            }
            assert forall|i: int, j: int| 0 <= i < j < r.len() implies r[i].id != r[j].id by {
                assert(ks.to_set().contains(ks[i]) && ks.to_set().contains(ks[j]));
            }
            assert forall|k: u128| #[trigger] self.todos().contains_key(k) implies exists|i: int|
                0 <= i < r.len() && r[i].id == k by {
                assert(ks.to_set().contains(k));
                let i = choose|i: int| 0 <= i < ks.len() && ks[i] == k;
                assert(self.store@.contains_key(ks[i]));
                assert(r[i].id == ks[i]);
            }
        }
        out
    }

    /// The id is drawn at random; should that value already be taken, the
    /// next free value counting upward from it is used instead.
    fn create(&mut self, input: TodoInput) -> (r: Todo) {
        let id = TodoId(self.free_key_from(TodoId::new().0));
        let todo = Todo::new(id, input);
        self.store.insert(id.0, todo.snapshot());
        assert(self.todos() =~= old(self).todos().insert(todo.id@, todo@));
        todo
    }

    fn update(&mut self, id: TodoId, input: TodoInput) -> (r: Option<Todo>) {
        match self.store.remove(&id.0) {
            Some(mut t) => {
                t.update(input);
                let copy = t.snapshot();
                self.store.insert(id.0, t);
                assert(self.todos() =~= old(self).todos().insert(id@, copy@));
                Some(copy)
            },
            None => {
                assert(self.todos() =~= old(self).todos());
                None
            },
        }
    }

    fn delete(&mut self, id: TodoId) -> (r: Option<Todo>) {
        let r = self.store.remove(&id.0);
        assert(self.todos() =~= old(self).todos().remove(id@));
        if r.is_none() {
            assert(self.todos() =~= old(self).todos());
        }
        r
    }
}

} // verus!
