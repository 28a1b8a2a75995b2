//! Laws of the repository operations, stated over the relations that their
//! contracts use.
use crate::models::TodoView;
use crate::repository::{created, deleted, enumerates, store_wf, updated};
use vstd::prelude::*;

verus! {

/// Store `stores[i + 1]` came from `stores[i]` by creating `made[i]` from
/// `titles[i]`, for each `i`.
pub open spec fn creates_from(
    stores: Seq<Map<u128, TodoView>>,
    titles: Seq<Seq<char>>,
    made: Seq<TodoView>,
) -> bool {
    &&& stores.len() == titles.len() + 1
    &&& made.len() == titles.len()
    &&& forall|i: int| 0 <= i < titles.len() ==> #[trigger] created(stores[i], titles[i], made[i], stores[i + 1])
}

/// After `k` creates, every earlier record is still stored, unchanged.
proof fn lemma_creates_keep(
    stores: Seq<Map<u128, TodoView>>,
    titles: Seq<Seq<char>>,
    made: Seq<TodoView>,
    k: int,
)
    requires
        creates_from(stores, titles, made),
        0 <= k <= titles.len(),
    ensures
        forall|i: int| 0 <= i < k ==> #[trigger] stores[k].contains_key(made[i].id) && stores[k][made[i].id] == made[i],
        forall|id: u128| stores[0].contains_key(id) ==> #[trigger] stores[k].contains_key(id),
    decreases k,
{
    if k > 0 {
        lemma_creates_keep(stores, titles, made, k - 1);
        let p = k - 1;
        assert(created(stores[p], titles[p], made[p], stores[p + 1]));
        assert forall|i: int| 0 <= i < k implies #[trigger] stores[k].contains_key(made[i].id)
            && stores[k][made[i].id] == made[i] by {
            if i < k - 1 {
                assert(stores[k - 1].contains_key(made[i].id));
            }
        }
    }
}

/// From an empty store, after `k` creates the store holds exactly the `k`
/// records made.
proof fn lemma_creates_exact(
    stores: Seq<Map<u128, TodoView>>,
    titles: Seq<Seq<char>>,
    made: Seq<TodoView>,
    k: int,
)
    requires
        creates_from(stores, titles, made),
        stores[0] == Map::<u128, TodoView>::empty(),
        0 <= k <= titles.len(),
    ensures
        stores[k].dom().finite(),
        stores[k].len() == k,
        forall|id: u128| #[trigger] stores[k].contains_key(id) ==> exists|i: int| 0 <= i < k && made[i].id == id,
    decreases k,
{
    if k > 0 {
        lemma_creates_exact(stores, titles, made, k - 1);
        let p = k - 1;
        assert(created(stores[p], titles[p], made[p], stores[p + 1]));
        assert forall|id: u128| #[trigger] stores[k].contains_key(id) implies exists|i: int|
            0 <= i < k && made[i].id == id by {
            if id != made[k - 1].id {
                assert(stores[k - 1].contains_key(id));
            }
        }
    } else {
        assert(stores[0].dom() =~= Set::<u128>::empty());
    }
}

/// After any run of creates from an empty store, listing gives exactly the
/// records created, each with the title it was given and not completed.
pub proof fn lemma_list_after_creates(
    stores: Seq<Map<u128, TodoView>>,
    titles: Seq<Seq<char>>,
    made: Seq<TodoView>,
    listed: Seq<TodoView>,
)
    requires
        creates_from(stores, titles, made),
        stores[0] == Map::<u128, TodoView>::empty(),
        enumerates(listed, stores.last()),
    ensures
        listed.len() == titles.len(),
        forall|i: int| 0 <= i < titles.len() ==> #[trigger] made[i].title == titles[i] && !made[i].completed,
        listed.to_set() == made.to_set(),
{
    let n = titles.len() as int;
    lemma_creates_keep(stores, titles, made, n);
    lemma_creates_exact(stores, titles, made, n);
    assert(stores.last() == stores[n]);
    assert forall|i: int| 0 <= i < n implies #[trigger] made[i].title == titles[i] && !made[i].completed by {
        assert(created(stores[i], titles[i], made[i], stores[i + 1]));
    }
    assert forall|x: TodoView| #[trigger] made.to_set().contains(x) implies listed.to_set().contains(x) by {
        let i = choose|i: int| 0 <= i < made.len() && made[i] == x;
        assert(stores[n].contains_key(made[i].id));
        let j = choose|j: int| 0 <= j < listed.len() && listed[j].id == made[i].id;
        assert(stores[n].contains_key(listed[j].id));
        assert(listed[j] == x);
    }
    assert forall|x: TodoView| #[trigger] listed.to_set().contains(x) implies made.to_set().contains(x) by {
        let j = choose|j: int| 0 <= j < listed.len() && listed[j] == x;
        assert(stores[n].contains_key(listed[j].id));
        let i = choose|i: int| 0 <= i < n && made[i].id == listed[j].id;
        assert(stores[n][made[i].id] == made[i]);
        assert(made[i] == x);
    }
    assert(listed.to_set() =~= made.to_set());
}

/// Creates give pairwise distinct ids, and from a store whose ids are unique
/// they lead to a store whose ids are unique.
pub proof fn lemma_created_ids_distinct(
    stores: Seq<Map<u128, TodoView>>,
    titles: Seq<Seq<char>>,
    made: Seq<TodoView>,
)
    requires
        creates_from(stores, titles, made),
    ensures
        forall|i: int, j: int| 0 <= i < j < titles.len() ==> #[trigger] made[i].id != #[trigger] made[j].id,
        store_wf(stores[0]) ==> store_wf(stores.last()),
    decreases titles.len(),
{
    assert forall|i: int, j: int| 0 <= i < j < titles.len() implies #[trigger] made[i].id != #[trigger] made[j].id by {
        lemma_creates_keep(stores, titles, made, j);
        assert(created(stores[j], titles[j], made[j], stores[j + 1]));
    }
    if titles.len() > 0 {
        let n = titles.len() - 1;
        lemma_created_ids_distinct(stores.take(n + 1), titles.take(n), made.take(n));
        assert(stores.take(n + 1).last() == stores[n]);
        assert(created(stores[n], titles[n], made[n], stores[n + 1]));
    }
}

/// Updating an unknown id gives nothing and leaves the store as it was.
pub proof fn lemma_update_unknown(
    before: Map<u128, TodoView>,
    id: u128,
    title: Seq<char>,
    r: Option<TodoView>,
    after: Map<u128, TodoView>,
)
    requires
        updated(before, id, title, r, after),
        !before.contains_key(id),
    ensures
        r is None,
        after == before,
        after.len() == before.len(),
{
}

/// Updating a known id changes its title only: the id and completion stay,
/// the other records stay, and the result is the new stored record.
pub proof fn lemma_update_known(
    before: Map<u128, TodoView>,
    id: u128,
    title: Seq<char>,
    r: Option<TodoView>,
    after: Map<u128, TodoView>,
)
    requires
        store_wf(before),
        updated(before, id, title, r, after),
        before.contains_key(id),
    ensures
        r is Some,
        r->Some_0.id == id,
        r->Some_0.title == title,
        r->Some_0.completed == before[id].completed,
        after.contains_key(id) && after[id] == r->Some_0,
        after.dom() == before.dom(),
        forall|k: u128| k != id && #[trigger] before.contains_key(k) ==> after[k] == before[k],
{
    assert(after.dom() =~= before.dom());
}

/// Deleting a known id removes it: a later listing lacks it, and the store
/// has one record fewer.
pub proof fn lemma_delete_known(
    before: Map<u128, TodoView>,
    id: u128,
    r: Option<TodoView>,
    after: Map<u128, TodoView>,
    listed: Seq<TodoView>,
)
    requires
        store_wf(before),
        deleted(before, id, r, after),
        before.contains_key(id),
        enumerates(listed, after),
    ensures
        r == Some(before[id]),
        !after.contains_key(id),
        forall|i: int| 0 <= i < listed.len() ==> #[trigger] listed[i].id != id,
        after.len() == before.len() - 1,
{
    assert forall|i: int| 0 <= i < listed.len() implies #[trigger] listed[i].id != id by {
        assert(after.contains_key(listed[i].id));
    }
}

/// Deleting an unknown id gives nothing and leaves the store as it was.
pub proof fn lemma_delete_unknown(
    before: Map<u128, TodoView>,
    id: u128,
    r: Option<TodoView>,
    after: Map<u128, TodoView>,
)
    requires
        deleted(before, id, r, after),
        !before.contains_key(id),
    ensures
        r is None,
        after == before,
{
}

} // verus!
