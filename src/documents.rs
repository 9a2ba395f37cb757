use std::collections::HashMap;
use vstd::prelude::*;
use crate::model::{Event, RepositoryError, Resource, TalkRoomCard};

verus! {

broadcast use vstd::std_specs::hash::group_hash_axioms;

/// An event stored as a child of a talk room's document.
pub struct StoredEvent {
    pub parent: u64,
    pub event: Event,
}

/// The non-transactional document store: talk-room cards keyed by document
/// id, and events addressed by their parent document and their own id.
pub struct DocumentStore {
    pub cards: HashMap<u64, TalkRoomCard>,
    pub events: Vec<StoredEvent>,
}

impl DocumentStore {
    pub open spec fn wf(&self) -> bool {
        &&& forall|i: int, j: int|
            0 <= i < self.events@.len() && 0 <= j < self.events@.len() && #[trigger] self.events@[i].parent
                == #[trigger] self.events@[j].parent && self.events@[i].event.id
                == self.events@[j].event.id ==> i == j
        &&& vstd::std_specs::hash::obeys_key_model::<u64>()
    }

    /// Whether an event with id `id` is stored under document `parent`.
    pub open spec fn has_event(&self, parent: u64, id: u64) -> bool {
        exists|i: int|
            0 <= i < self.events@.len() && #[trigger] self.events@[i].parent == parent
                && self.events@[i].event.id == id
    }

    /// The event with id `id` under document `parent`, where there is one.
    pub open spec fn event_at(&self, parent: u64, id: u64) -> Event {
        self.events@[choose|i: int|
            0 <= i < self.events@.len() && #[trigger] self.events@[i].parent == parent
                && self.events@[i].event.id == id].event
    }

    /// An empty store.
    pub fn new() -> (r: Self)
        ensures
            r.wf(),
            r.cards@ == Map::<u64, TalkRoomCard>::empty(),
            r.events@.len() == 0,
    {
        DocumentStore { cards: HashMap::new(), events: Vec::new() }
    }

    /// The card of document `document_id`, or `NotFound`.
    pub fn get_card(&self, document_id: u64) -> (r: Result<TalkRoomCard, RepositoryError>)
        requires
            self.wf(),
        ensures
            self.cards@.contains_key(document_id) ==> r == Ok::<TalkRoomCard, RepositoryError>(
                self.cards@[document_id],
            ),
            !self.cards@.contains_key(document_id) ==> r == Err::<TalkRoomCard, RepositoryError>(
                RepositoryError::NotFound(Resource::TalkRoomCards, document_id),
            ),
    {
        match self.cards.get(&document_id) {
            Some(c) => Ok(c.clone()),
            None => Err(RepositoryError::NotFound(Resource::TalkRoomCards, document_id)),
        }
    }

    /// Inserts the card of document `document_id`; an existing one makes it
    /// fail with `CouldNotInsert` and nothing changes.
    pub fn insert_card(&mut self, document_id: u64, card: TalkRoomCard) -> (r: Result<
        (),
        RepositoryError,
    >)
        requires
            old(self).wf(),
        ensures
            final(self).wf(),
            final(self).events@ == old(self).events@,
            old(self).cards@.contains_key(document_id) ==> r == Err::<(), RepositoryError>(
                RepositoryError::CouldNotInsert(Resource::TalkRoomCards, document_id),
            ) && final(self).cards@ == old(self).cards@,
            !old(self).cards@.contains_key(document_id) ==> r == Ok::<(), RepositoryError>(())
                && final(self).cards@ == old(self).cards@.insert(document_id, card),
    {
        if self.cards.contains_key(&document_id) {
            return Err(RepositoryError::CouldNotInsert(Resource::TalkRoomCards, document_id));
        }
        self.cards.insert(document_id, card);
        Ok(())
    }

    /// Replaces the card of document `document_id`; a missing one makes it
    /// fail with `NotFound` and nothing changes.
    pub fn update_card(&mut self, document_id: u64, card: TalkRoomCard) -> (r: Result<
        (),
        RepositoryError,
    >)
        requires
            old(self).wf(),
        ensures
            final(self).wf(),
            final(self).events@ == old(self).events@,
            !old(self).cards@.contains_key(document_id) ==> r == Err::<(), RepositoryError>(
                RepositoryError::NotFound(Resource::TalkRoomCards, document_id),
            ) && final(self).cards@ == old(self).cards@,
            old(self).cards@.contains_key(document_id) ==> r == Ok::<(), RepositoryError>(())
                && final(self).cards@ == old(self).cards@.insert(document_id, card),
    {
        if !self.cards.contains_key(&document_id) {
            return Err(RepositoryError::NotFound(Resource::TalkRoomCards, document_id));
        }
        self.cards.insert(document_id, card);
        Ok(())
    }

    /// The event `id` under document `parent`, or `NotFound`.
    pub fn get_event(&self, parent: u64, id: u64) -> (r: Result<Event, RepositoryError>)
        requires
            self.wf(),
        ensures
            self.has_event(parent, id) ==> r == Ok::<Event, RepositoryError>(
                self.event_at(parent, id),
            ),
            !self.has_event(parent, id) ==> r == Err::<Event, RepositoryError>(
                RepositoryError::NotFound(Resource::Events, id),
            ),
    {
        let n = self.events.len();
        let mut i: usize = 0;
        while i < n
            invariant
                self.wf(),
                n == self.events@.len(),
                0 <= i <= n,
                forall|k: int|
                    0 <= k < i ==> !(#[trigger] self.events@[k].parent == parent
                        && self.events@[k].event.id == id),
            decreases n - i,
        {
            if self.events[i].parent == parent && self.events[i].event.id == id {
                proof {
                    let j = choose|j: int|
                        0 <= j < self.events@.len() && #[trigger] self.events@[j].parent == parent
                            && self.events@[j].event.id == id;
                    assert(self.events@[j].parent == self.events@[i as int].parent);
                }
                return Ok(self.events[i].event.clone());
            }
            i = i + 1;
        }
        Err(RepositoryError::NotFound(Resource::Events, id))
    }

    /// Inserts `event` as a child of document `parent`; an event with the same
    /// id there makes it fail with `CouldNotInsert` and nothing changes.
    pub fn insert_event(&mut self, parent: u64, event: Event) -> (r: Result<(), RepositoryError>)
        requires
            old(self).wf(),
        ensures
            final(self).wf(),
            final(self).cards@ == old(self).cards@,
            old(self).has_event(parent, event.id) ==> r == Err::<(), RepositoryError>(
                RepositoryError::CouldNotInsert(Resource::Events, event.id),
            ) && final(self).events@ == old(self).events@,
            !old(self).has_event(parent, event.id) ==> r == Ok::<(), RepositoryError>(())
                && final(self).events@ == old(self).events@.push(StoredEvent { parent, event }),
    {
        let id = event.id;
        match self.get_event(parent, id) {
            Ok(_) => {
                return Err(RepositoryError::CouldNotInsert(Resource::Events, id));
            },
            Err(_) => {},
        }
        let ghost old_events = self.events@;
        self.events.push(StoredEvent { parent, event });
        proof {
            assert forall|i: int, j: int|
                0 <= i < self.events@.len() && 0 <= j < self.events@.len() && #[trigger] self.events@[i].parent
                    == #[trigger] self.events@[j].parent && self.events@[i].event.id
                    == self.events@[j].event.id implies i == j by {
                if i < old_events.len() && j == old_events.len() {
                    assert(old_events[i] == self.events@[i]);
                } else if j < old_events.len() && i == old_events.len() {
                    assert(old_events[j] == self.events@[j]);
                }
            }
        }
        Ok(())
    }
}

} // verus!
