//! Laws that every backend meeting the repository contract obeys, stated over
//! the spec functions that the contract of `TodoRepository` is written in.
use vstd::prelude::*;

use super::todo::{
    after_update, deleted, found, is_creation, lists, updated, CreateTodo, Todo, UpdateTodo,
};
use super::RepositoryError;

verus! {

/// A record returned by `create` is exactly what `find` then reports for its id.
pub proof fn lemma_find_after_create(
    before: Map<i32, Todo>,
    after: Map<i32, Todo>,
    payload: CreateTodo,
    created: Todo,
)
    requires
        is_creation(before, after, payload, created),
    ensures
        found(after, created.id) == Ok::<Todo, RepositoryError>(created),
{
}

/// On an id that is not stored, `find`, `update` and `delete` all report
/// `NotFound` with that id, and the records stay as they were.
pub proof fn lemma_absent_id_not_found(records: Map<i32, Todo>, id: i32, payload: UpdateTodo)
    requires
        !records.contains_key(id),
    ensures
        found(records, id) == Err::<Todo, RepositoryError>(RepositoryError::NotFound(id)),
        updated(records, id, payload) == Err::<Todo, RepositoryError>(
            RepositoryError::NotFound(id),
        ),
        deleted(records, id) == Err::<(), RepositoryError>(RepositoryError::NotFound(id)),
        after_update(records, id, payload) == records,
        records.remove(id) == records,
{
    assert(records.remove(id) =~= records);
}

proof fn lemma_creations_count(
    states: Seq<Map<i32, Todo>>,
    payloads: Seq<CreateTodo>,
    created: Seq<Todo>,
    n: int,
)
    requires
        0 <= n < states.len(),
        states.len() == created.len() + 1,
        payloads.len() == created.len(),
        states[0] == Map::<i32, Todo>::empty(),
        forall|k: int|
            0 <= k < created.len() ==> #[trigger] is_creation(
                states[k],
                states[k + 1],
                payloads[k],
                created[k],
            ),
    ensures
        states[n].dom().finite(),
        states[n].len() == n,
    decreases n,
{
    if n > 0 {
        lemma_creations_count(states, payloads, created, n - 1);
        let k = n - 1;
        assert(is_creation(states[k], states[k + 1], payloads[k], created[k]));
        assert(states[k + 1] == states[n]);
    }
}

/// Listing a store that started empty and saw `created.len()` successful
/// creates gives exactly that many records, no two with the same id.
pub proof fn lemma_all_after_creates(
    states: Seq<Map<i32, Todo>>,
    payloads: Seq<CreateTodo>,
    created: Seq<Todo>,
    listing: Seq<Todo>,
)
    requires
        states.len() == created.len() + 1,
        payloads.len() == created.len(),
        states[0] == Map::<i32, Todo>::empty(),
        forall|k: int|
            0 <= k < created.len() ==> #[trigger] is_creation(
                states[k],
                states[k + 1],
                payloads[k],
                created[k],
            ),
        lists(listing, states.last()),
    ensures
        listing.len() == created.len(),
        forall|i: int, j: int|
            0 <= i < j < listing.len() ==> #[trigger] listing[i].id != #[trigger] listing[j].id,
{
    lemma_creations_count(states, payloads, created, created.len() as int);
}

/// An update that names only the text keeps the stored `completed`; one that
/// names only `completed` keeps the stored text.
pub proof fn lemma_partial_update_keeps_other_field(
    records: Map<i32, Todo>,
    id: i32,
    text: String,
    completed: bool,
)
    requires
        records.contains_key(id),
    ensures
        ({
            let r = updated(records, id, UpdateTodo { text: Some(text), completed: None });
            r is Ok && r->Ok_0.text == text && r->Ok_0.completed == records[id].completed
        }),
        ({
            let r = updated(records, id, UpdateTodo { text: None, completed: Some(completed) });
            r is Ok && r->Ok_0.text == records[id].text && r->Ok_0.completed == completed
        }),
{
}

/// After a successful `delete` of `id`, `find` reports `NotFound(id)`, and so
/// does a second `delete`.
pub proof fn lemma_find_after_delete(records: Map<i32, Todo>, id: i32)
    requires
        deleted(records, id) is Ok,
    ensures
        found(records.remove(id), id) == Err::<Todo, RepositoryError>(
            RepositoryError::NotFound(id),
        ),
        deleted(records.remove(id), id) == Err::<(), RepositoryError>(
            RepositoryError::NotFound(id),
        ),
{
}

} // verus!
