//! Todo records, their validation, and the repository contract over them.
use std::collections::HashMap;

use vstd::prelude::*;

use super::RepositoryError;

verus! {

/// Fewest characters a todo text may have.
pub const TEXT_MIN_CHARS: u64 = 1;

/// Most characters a todo text may have.
pub const TEXT_MAX_CHARS: u64 = 100;

/// A stored todo record.
#[derive(Debug, PartialEq, Eq)]
pub struct Todo {
    pub id: i32,
    pub text: String,
    pub completed: bool,
}

impl Clone for Todo {
    fn clone(&self) -> (r: Self)
        ensures
            r == *self,
    {
        Todo { id: self.id, text: self.text.clone(), completed: self.completed }
    }
}

impl Todo {
    /// A record that is not completed yet.
    pub fn new(id: i32, text: String) -> (r: Self)
        ensures
            r == (Todo { id, text, completed: false }),
    {
        Todo { id, text, completed: false }
    }
}

/// Whether a text has an allowed number of characters.
pub open spec fn text_is_valid(text: Seq<char>) -> bool {
    TEXT_MIN_CHARS <= text.len() <= TEXT_MAX_CHARS
}

/// Input for creating a record.
#[derive(Debug, PartialEq, Eq)]
pub struct CreateTodo {
    pub text: String,
}

impl Clone for CreateTodo {
    fn clone(&self) -> (r: Self)
        ensures
            r == *self,
    {
        CreateTodo { text: self.text.clone() }
    }
}

impl CreateTodo {
    pub fn new(text: String) -> (r: Self)
        ensures
            r.text == text,
    {
        CreateTodo { text }
    }

    /// The payload is valid when its text has an allowed length.
    pub open spec fn is_valid(&self) -> bool {
        text_is_valid(self.text@)
    }

    pub fn validate(&self) -> (r: bool)
        ensures
            r == self.is_valid(),
    {
        length_within(&self.text, TEXT_MIN_CHARS, TEXT_MAX_CHARS)
    }
}

/// Input for a partial update: an absent field keeps the stored value.
#[derive(Debug, PartialEq, Eq)]
pub struct UpdateTodo {
    pub text: Option<String>,
    pub completed: Option<bool>,
}

impl Clone for UpdateTodo {
    fn clone(&self) -> (r: Self)
        ensures
            r == *self,
    {
        let text = match &self.text {
            Some(t) => Some(t.clone()),
            None => None,
        };
        UpdateTodo { text, completed: self.completed }
    }
}

impl UpdateTodo {
    /// The payload is valid when its text, if present, has an allowed length.
    pub open spec fn is_valid(&self) -> bool {
        match self.text {
            Some(t) => text_is_valid(t@),
            None => true,
        }
    }

    pub fn validate(&self) -> (r: bool)
        ensures
            r == self.is_valid(),
    {
        match &self.text {
            Some(t) => length_within(t, TEXT_MIN_CHARS, TEXT_MAX_CHARS),
            None => true,
        }
    }

    /// The record that results from laying this payload over `current`.
    pub open spec fn merged_over(&self, current: Todo) -> Todo {
        Todo {
            id: current.id,
            text: match self.text {
                Some(t) => t,
                None => current.text,
            },
            completed: match self.completed {
                Some(c) => c,
                None => current.completed,
            },
        }
    }

    /// Lays the present fields of this payload over `current`.
    pub fn apply_to(&self, current: &Todo) -> (r: Todo)
        ensures
            r == self.merged_over(*current),
    {
        let text = match &self.text {
            Some(t) => t.clone(),
            None => current.text.clone(),
        };
        let completed = match self.completed {
            Some(c) => c,
            None => current.completed,
        };
        Todo { id: current.id, text, completed }
    }
}

/// What `find` reports for `id` on a store holding `records`.
pub open spec fn found(records: Map<i32, Todo>, id: i32) -> Result<Todo, RepositoryError> {
    if records.contains_key(id) {
        Ok(records[id])
    } else {
        Err(RepositoryError::NotFound(id))
    }
}

/// What `update` reports for `id` on a store holding `records`.
pub open spec fn updated(records: Map<i32, Todo>, id: i32, payload: UpdateTodo) -> Result<
    Todo,
    RepositoryError,
> {
    if records.contains_key(id) {
        Ok(payload.merged_over(records[id]))
    } else {
        Err(RepositoryError::NotFound(id))
    }
}

/// The records after `update` of `id`: an absent id changes nothing.
pub open spec fn after_update(records: Map<i32, Todo>, id: i32, payload: UpdateTodo) -> Map<
    i32,
    Todo,
> {
    if records.contains_key(id) {
        records.insert(id, payload.merged_over(records[id]))
    } else {
        records
    }
}

/// What `delete` reports for `id` on a store holding `records`.
pub open spec fn deleted(records: Map<i32, Todo>, id: i32) -> Result<(), RepositoryError> {
    if records.contains_key(id) {
        Ok(())
    } else {
        Err(RepositoryError::NotFound(id))
    }
}

/// `created` is a fresh record made from `payload`, and `after` is `before`
/// with it added.
pub open spec fn is_creation(
    before: Map<i32, Todo>,
    after: Map<i32, Todo>,
    payload: CreateTodo,
    created: Todo,
) -> bool {
    &&& created.id > 0
    &&& !before.contains_key(created.id)
    &&& created.text == payload.text
    &&& !created.completed
    &&& after == before.insert(created.id, created)
}

/// `listing` holds every record of `records` once, and nothing else.
pub open spec fn lists(listing: Seq<Todo>, records: Map<i32, Todo>) -> bool {
    &&& listing.len() == records.len()
    &&& forall|i: int|
        #![trigger listing[i]]
        0 <= i < listing.len() ==> records.contains_key(listing[i].id) && records[listing[i].id]
            == listing[i]
    &&& forall|i: int, j: int|
        #![trigger listing[i], listing[j]]
        0 <= i < j < listing.len() ==> listing[i].id != listing[j].id
}

/// The result is a backend failure.
pub open spec fn is_fault<T>(r: Result<T, RepositoryError>) -> bool {
    r matches Err(RepositoryError::Unexpected(_))
}

/// The storage-agnostic contract for todo persistence. A backend either does
/// what the operation asks, or reports a failure of its own (`Unexpected`)
/// and leaves the records as they were.
pub trait TodoRepository: Sized {
    /// The stored records, by id.
    spec fn records(&self) -> Map<i32, Todo>;

    /// The backend's internal invariant.
    spec fn well_formed(&self) -> bool;

    /// Stores a new record from `payload`, not completed, under a fresh id.
    fn create(&mut self, payload: CreateTodo) -> (r: Result<Todo, RepositoryError>)
        requires
            old(self).well_formed(),
        ensures
            final(self).well_formed(),
            match r {
                Ok(t) => is_creation(old(self).records(), final(self).records(), payload, t),
                Err(_) => is_fault(r) && final(self).records() == old(self).records(),
            },
    ;

    /// The record stored under `id`.
    fn find(&self, id: i32) -> (r: Result<Todo, RepositoryError>)
        requires
            self.well_formed(),
        ensures
            r == found(self.records(), id) || is_fault(r),
    ;

    /// Every stored record.
    fn all(&self) -> (r: Result<Vec<Todo>, RepositoryError>)
        requires
            self.well_formed(),
        ensures
            match r {
                Ok(v) => lists(v@, self.records()),
                Err(_) => is_fault(r),
            },
    ;

    /// Lays the present fields of `payload` over the record stored under `id`.
    fn update(&mut self, id: i32, payload: UpdateTodo) -> (r: Result<Todo, RepositoryError>)
        requires
            old(self).well_formed(),
        ensures
            final(self).well_formed(),
            r == updated(old(self).records(), id, payload) && final(self).records()
                == after_update(old(self).records(), id, payload) || is_fault(r)
                && final(self).records() == old(self).records(),
    ;

    /// Removes the record stored under `id`.
    fn delete(&mut self, id: i32) -> (r: Result<(), RepositoryError>)
        requires
            old(self).well_formed(),
        ensures
            final(self).well_formed(),
            r == deleted(old(self).records(), id) && final(self).records() == old(
                self,
            ).records().remove(id) || is_fault(r) && final(self).records() == old(
                self,
            ).records(),
    ;
}

/// An in-memory backend. Records sit in a map keyed by id; a list of ids keeps
/// the order of insertion, which is the order `all` reports.
///
/// Ids come from a counter that only grows, so an id is never handed out
/// twice, also after a deletion: the next id is one past the last one
/// assigned, not one past the number of records held.
#[derive(Debug)]
pub struct TodoRepositoryForMemory {
    store: HashMap<i32, Todo>,
    order: Vec<i32>,
    next_id: i32,
}

impl TodoRepositoryForMemory {
    /// An empty store; the first id it assigns is 1.
    pub fn new() -> (r: Self)
        ensures
            r.well_formed(),
            r.records() == Map::<i32, Todo>::empty(),
            r.ids_in_order() == Seq::<i32>::empty(),
            r.next_identifier() == 1,
    {
        TodoRepositoryForMemory { store: HashMap::new(), order: Vec::new(), next_id: 1 }
    }

    /// The ids of the stored records, in the order of their creation.
    pub closed spec fn ids_in_order(&self) -> Seq<i32> {
        self.order@
    }

    /// The stored records, in the order of their creation.
    pub open spec fn listing(&self) -> Seq<Todo> {
        self.ids_in_order().map_values(|id: i32| self.records()[id])
    }

    proof fn lemma_listing_lists(&self)
        requires
            self.well_formed(),
        ensures
            lists(self.listing(), self.records()),
    {
        self.order@.unique_seq_to_set();
        assert(self.order@.to_set() =~= self.store@.dom());
        assert forall|i: int| 0 <= i < self.order@.len() implies self.listing()[i].id
            == self.order@[i] && self.store@.contains_key(self.order@[i]) by {
            assert(self.order@.contains(self.order@[i]));
        }
    }

    /// The id that the next `create` assigns.
    pub closed spec fn next_identifier(&self) -> i32 {
        self.next_id
    }
}

impl TodoRepository for TodoRepositoryForMemory {
    closed spec fn records(&self) -> Map<i32, Todo> {
        self.store@
    }

    closed spec fn well_formed(&self) -> bool {
        &&& self.store@.dom().finite()
        &&& self.order@.no_duplicates()
        &&& 0 < self.next_id
        &&& forall|k: i32|
            #![trigger self.store@.contains_key(k)]
            #![trigger self.order@.contains(k)]
            self.store@.contains_key(k) <==> self.order@.contains(k)
        &&& forall|k: i32| #[trigger]
            self.store@.contains_key(k) ==> 0 < k < self.next_id && self.store@[k].id == k
    }

    /// Fails only when the id space is used up.
    fn create(&mut self, payload: CreateTodo) -> (r: Result<Todo, RepositoryError>)
        ensures
            old(self).next_identifier() < i32::MAX <==> r is Ok,
            r is Ok ==> r->Ok_0.id == old(self).next_identifier() && final(self).ids_in_order()
                == old(self).ids_in_order().push(r->Ok_0.id) && final(self).next_identifier()
                == old(self).next_identifier() + 1,
            r is Err ==> final(self).ids_in_order() == old(self).ids_in_order()
                && final(self).next_identifier() == old(self).next_identifier(),
    {
        broadcast use vstd::std_specs::hash::group_hash_axioms;

        if self.next_id == i32::MAX {
            return Err(RepositoryError::Unexpected("no identifier is left to assign".to_owned()));
        }
        let id = self.next_id;
        let todo = Todo::new(id, payload.text);
        proof {
            assert(!self.order@.contains(id));
        }
        self.store.insert(id, todo.clone());
        self.order.push(id);
        self.next_id = id + 1;
        proof {
            assert forall|k: i32| #[trigger]
                self.store@.contains_key(k) <==> self.order@.contains(k) by {
                if k != id {
                    if old(self).order@.contains(k) {
                        let i = choose|i: int| 0 <= i < old(self).order@.len() && old(self).order@[i] == k;
                        assert(self.order@[i] == k);
                    }
                } else {
                    assert(self.order@[self.order@.len() - 1] == id);
                }
            }
        }
        Ok(todo)
    }

    fn find(&self, id: i32) -> (r: Result<Todo, RepositoryError>)
        ensures
            r == found(self.records(), id),
    {
        broadcast use vstd::std_specs::hash::group_hash_axioms;

        match self.store.get(&id) {
            Some(t) => Ok(t.clone()),
            None => Err(RepositoryError::NotFound(id)),
        }
    }

    /// Never fails; lists the records in the order of their creation.
    fn all(&self) -> (r: Result<Vec<Todo>, RepositoryError>)
        ensures
            r is Ok && r->Ok_0@ == self.listing(),
    {
        broadcast use vstd::std_specs::hash::group_hash_axioms;

        let mut v: Vec<Todo> = Vec::new();
        let mut i: usize = 0;
        while i < self.order.len()
            invariant
                self.well_formed(),
                i <= self.order@.len(),
                v@ == self.listing().take(i as int),
            decreases self.order@.len() - i,
        {
            let id = self.order[i];
            proof {
                assert(self.order@.contains(id));
            }
            match self.store.get(&id) {
                Some(t) => v.push(t.clone()),
                None => {},
            }
            i = i + 1;
            proof {
                assert(v@ =~= self.listing().take(i as int));
            }
        }
        proof {
            assert(v@ =~= self.listing());
            self.lemma_listing_lists();
        }
        Ok(v)
    }

    fn update(&mut self, id: i32, payload: UpdateTodo) -> (r: Result<Todo, RepositoryError>)
        ensures
            r == updated(old(self).records(), id, payload),
            final(self).records() == after_update(old(self).records(), id, payload),
            final(self).ids_in_order() == old(self).ids_in_order(),
            final(self).next_identifier() == old(self).next_identifier(),
    {
        broadcast use vstd::std_specs::hash::group_hash_axioms;

        let merged = match self.store.get(&id) {
            Some(current) => payload.apply_to(current),
            None => {
                return Err(RepositoryError::NotFound(id));
            },
        };
        self.store.insert(id, merged.clone());
        Ok(merged)
    }

    fn delete(&mut self, id: i32) -> (r: Result<(), RepositoryError>)
        ensures
            r == deleted(old(self).records(), id),
            final(self).records() == old(self).records().remove(id),
            r is Ok ==> exists|i: int|
                0 <= i < old(self).ids_in_order().len() && old(self).ids_in_order()[i] == id
                    && final(self).ids_in_order() == old(self).ids_in_order().remove(i),
            r is Err ==> final(self).ids_in_order() == old(self).ids_in_order(),
            final(self).next_identifier() == old(self).next_identifier(),
    {
        broadcast use vstd::std_specs::hash::group_hash_axioms;

        match self.store.remove(&id) {
            Some(_) => {},
            None => {
                return Err(RepositoryError::NotFound(id));
            },
        }
        let mut i: usize = 0;
        while i < self.order.len()
            invariant
                i <= self.order@.len(),
                self.order@ == old(self).order@,
                forall|j: int| 0 <= j < i ==> self.order@[j] != id,
            ensures
                i <= self.order@.len(),
                self.order@ == old(self).order@,
                forall|j: int| 0 <= j < i ==> self.order@[j] != id,
                i < self.order@.len() ==> self.order@[i as int] == id,
            decreases self.order@.len() - i,
        {
            if self.order[i] == id {
                break;
            }
            i = i + 1;
        }
        proof {
            assert(old(self).order@.contains(id));
            if i == self.order.len() {
                let j = choose|j: int| 0 <= j < self.order@.len() && self.order@[j] == id;
                assert(self.order@[j] != id);
            }
        }
        let ghost before = self.order@;
        self.order.remove(i);
        proof {
            assert(0 <= i < before.len() && before[i as int] == id && self.order@ == before.remove(
                i as int,
            ));
            assert(old(self).ids_in_order()[i as int] == id && self.ids_in_order() == old(
                self,
            ).ids_in_order().remove(i as int));
            assert forall|k: i32|
                self.store@.contains_key(k) <==> self.order@.contains(k) by {
                if self.order@.contains(k) {
                    let j = choose|j: int| 0 <= j < self.order@.len() && self.order@[j] == k;
                    if j < i {
                        assert(before[j] == k);
                    } else {
                        assert(before[j + 1] == k);
                    }
                    assert(before.contains(k));
                }
                if self.store@.contains_key(k) {
                    assert(k != id);
                    assert(before.contains(k));
                    let j = choose|j: int| 0 <= j < before.len() && before[j] == k;
                    if j < i {
                        assert(self.order@[j] == k);
                    } else {
                        assert(self.order@[j - 1] == k);
                    }
                }
            }
        }
        Ok(())
    }
}

/// Relies on validator::validate_length: it counts the characters of the
/// string and returns whether the count lies within the bounds given.
#[verifier::external_body]
fn length_within(s: &String, min: u64, max: u64) -> (r: bool)
    ensures
        r == (min <= s@.len() && s@.len() <= max),
{
    validator::validate_length(s, Some(min), Some(max), None)
}

} // verus!
