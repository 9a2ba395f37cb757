use vstd::prelude::*;
use crate::documents::{DocumentStore, StoredEvent};
use crate::model::{
    Event, RepositoryError, Resource, TalkRoom, TalkRoomCard, User, appended_card, assemble,
    initial_card,
};
use crate::relational::DatabaseRepositoryImpl;

verus! {

/// The talk-room adapter over the relational store and the document store.
pub struct DbFirestoreRepositoryImpl {
    pub db: DatabaseRepositoryImpl,
    pub firestore: DocumentStore,
}

impl DbFirestoreRepositoryImpl {
    pub open spec fn wf(&self) -> bool {
        self.db.wf() && self.firestore.wf()
    }

    /// What reading the talk room of `uid` yields: the identity, its card and
    /// the event that the card points to, joined, or the first of them that
    /// is missing.
    pub open spec fn read_talk_room(&self, uid: u64) -> Result<TalkRoom, RepositoryError> {
        if !self.db.talk_rooms@.contains_key(uid) {
            Err(RepositoryError::NotFound(Resource::TalkRooms, uid))
        } else {
            let d = self.db.talk_rooms@[uid];
            if !self.firestore.cards@.contains_key(d) {
                Err(RepositoryError::NotFound(Resource::TalkRoomCards, d))
            } else {
                let c = self.firestore.cards@[d];
                if !self.firestore.has_event(d, c.latest_event_id) {
                    Err(RepositoryError::NotFound(Resource::Events, c.latest_event_id))
                } else {
                    Ok(assemble(d, uid, c, self.firestore.event_at(d, c.latest_event_id)))
                }
            }
        }
    }

    /// `s1` and `r` are what creating a talk room for `user` with first event
    /// `first` makes of `s0`.
    ///
    /// The identity becomes visible only where both document inserts
    /// succeeded; a card inserted before a failed event insert stays behind,
    /// unreachable.
    pub open spec fn creates_talk_room(
        s0: Self,
        s1: Self,
        user: User,
        first: Event,
        r: Result<TalkRoom, RepositoryError>,
    ) -> bool {
        let d = s0.db.next_document_id;
        let card = initial_card(user, first);
        &&& if s0.db.talk_rooms@.contains_key(user.id) {
            &&& r == Err::<TalkRoom, RepositoryError>(
                RepositoryError::AlreadyExists(Resource::TalkRooms),
            )
            &&& s1.db.talk_rooms@ == s0.db.talk_rooms@
            &&& s1.db.next_document_id == s0.db.next_document_id
            &&& s1.firestore.cards@ == s0.firestore.cards@
            &&& s1.firestore.events@ == s0.firestore.events@
        } else if d == u64::MAX {
            &&& r == Err::<TalkRoom, RepositoryError>(
                RepositoryError::Exhausted(Resource::TalkRooms),
            )
            &&& s1.db.talk_rooms@ == s0.db.talk_rooms@
            &&& s1.db.next_document_id == s0.db.next_document_id
            &&& s1.firestore.cards@ == s0.firestore.cards@
            &&& s1.firestore.events@ == s0.firestore.events@
        } else if s0.firestore.cards@.contains_key(d) {
            &&& r == Err::<TalkRoom, RepositoryError>(
                RepositoryError::CouldNotInsert(Resource::TalkRoomCards, d),
            )
            &&& s1.db.talk_rooms@ == s0.db.talk_rooms@
            &&& s1.db.next_document_id == d + 1
            &&& s1.firestore.cards@ == s0.firestore.cards@
            &&& s1.firestore.events@ == s0.firestore.events@
        } else if s0.firestore.has_event(d, first.id) {
            &&& r == Err::<TalkRoom, RepositoryError>(
                RepositoryError::CouldNotInsert(Resource::Events, first.id),
            )
            &&& s1.db.talk_rooms@ == s0.db.talk_rooms@
            &&& s1.db.next_document_id == d + 1
            &&& s1.firestore.cards@ == s0.firestore.cards@.insert(d, card)
            &&& s1.firestore.events@ == s0.firestore.events@
        } else {
            &&& r == Ok::<TalkRoom, RepositoryError>(assemble(d, user.id, card, first))
            &&& s1.db.talk_rooms@ == s0.db.talk_rooms@.insert(user.id, d)
            &&& s1.db.next_document_id == d + 1
            &&& s1.firestore.cards@ == s0.firestore.cards@.insert(d, card)
            &&& s1.firestore.events@ == s0.firestore.events@.push(
                StoredEvent { parent: d, event: first },
            )
        }
    }

    /// `s1` and `r` are what appending `e` to the talk room `t` makes of `s0`:
    /// the card is updated first, then the event is inserted, and a failed
    /// insert leaves the updated card in place.
    pub open spec fn appends_event(
        s0: Self,
        s1: Self,
        t: TalkRoom,
        e: Event,
        r: Result<TalkRoom, RepositoryError>,
    ) -> bool {
        let d = t.document_id;
        let card = appended_card(t, e);
        &&& s1.db.talk_rooms@ == s0.db.talk_rooms@
        &&& s1.db.next_document_id == s0.db.next_document_id
        &&& if !s0.firestore.cards@.contains_key(d) {
            &&& r == Err::<TalkRoom, RepositoryError>(
                RepositoryError::NotFound(Resource::TalkRoomCards, d),
            )
            &&& s1.firestore.cards@ == s0.firestore.cards@
            &&& s1.firestore.events@ == s0.firestore.events@
        } else if s0.firestore.has_event(d, e.id) {
            &&& r == Err::<TalkRoom, RepositoryError>(
                RepositoryError::CouldNotInsert(Resource::Events, e.id),
            )
            &&& s1.firestore.cards@ == s0.firestore.cards@.insert(d, card)
            &&& s1.firestore.events@ == s0.firestore.events@
        } else {
            &&& r == Ok::<TalkRoom, RepositoryError>(assemble(d, t.primary_user_id, card, e))
            &&& s1.firestore.cards@ == s0.firestore.cards@.insert(d, card)
            &&& s1.firestore.events@ == s0.firestore.events@.push(
                StoredEvent { parent: d, event: e },
            )
        }
    }

    /// Empty stores.
    pub fn new() -> (r: Self)
        ensures
            r.wf(),
            r.db.users@.len() == 0,
            r.db.talk_rooms@ == Map::<u64, u64>::empty(),
            r.db.next_user_id == 1,
            r.db.next_document_id == 1,
            r.firestore.cards@ == Map::<u64, TalkRoomCard>::empty(),
            r.firestore.events@.len() == 0,
    {
        DbFirestoreRepositoryImpl { db: DatabaseRepositoryImpl::new(), firestore: DocumentStore::new() }
    }

    /// Reads the talk room of primary user `primary_user_id`.
    pub fn get_talk_room(&self, primary_user_id: u64) -> (r: Result<TalkRoom, RepositoryError>)
        requires
            self.wf(),
        ensures
            r == self.read_talk_room(primary_user_id),
    {
        let identity = self.db.get_talk_room_identity(primary_user_id)?;
        let d = identity.document_id;
        let card = self.firestore.get_card(d)?;
        let event = self.firestore.get_event(d, card.latest_event_id)?;
        Ok(TalkRoom::from_parts(d, primary_user_id, card, event))
    }

    /// Creates the talk room of `user` with its first event.
    ///
    /// The identity row is held in an open transaction while the card and
    /// the event are inserted into the document store, and is committed only
    /// after both succeeded; otherwise the transaction is abandoned.
    pub fn create_talk_room(&mut self, user: &User, first: Event) -> (r: Result<
        TalkRoom,
        RepositoryError,
    >)
        requires
            old(self).wf(),
        ensures
            final(self).wf(),
            final(self).db.users@ == old(self).db.users@,
            final(self).db.next_user_id == old(self).db.next_user_id,
            Self::creates_talk_room(*old(self), *final(self), *user, first, r),
    {
        let reservation = self.db.begin_talk_room(user.id)?;
        let d = reservation.identity.document_id;
        let card = TalkRoomCard {
            display_name: user.display_name.clone(),
            rsvp: false,
            pinned: false,
            follow: false,
            latest_event_id: first.id,
            latest_messaged_at: first.sent_at,
            sort_time: first.sent_at,
            created_at: first.sent_at,
            updated_at: first.sent_at,
        };
        self.firestore.insert_card(d, card.clone())?;
        self.firestore.insert_event(d, first.clone())?;
        let committed = self.db.commit_talk_room(reservation);
        proof {
            assert(committed is Ok);
        }
        Ok(TalkRoom::from_parts(d, user.id, card, first))
    }

    /// Appends `event` to the existing talk room `talk_room`: advances the
    /// card's latest-message pointer and times, then inserts the event.
    pub fn create_event(&mut self, talk_room: &TalkRoom, event: Event) -> (r: Result<
        TalkRoom,
        RepositoryError,
    >)
        requires
            old(self).wf(),
        ensures
            final(self).wf(),
            final(self).db == old(self).db,
            Self::appends_event(*old(self), *final(self), *talk_room, event, r),
    {
        let d = talk_room.document_id;
        let card = TalkRoomCard {
            display_name: talk_room.display_name.clone(),
            rsvp: talk_room.rsvp,
            pinned: talk_room.pinned,
            follow: talk_room.follow,
            latest_event_id: event.id,
            latest_messaged_at: event.sent_at,
            sort_time: event.sent_at,
            created_at: talk_room.created_at,
            updated_at: event.sent_at,
        };
        self.firestore.update_card(d, card.clone())?;
        self.firestore.insert_event(d, event.clone())?;
        Ok(TalkRoom::from_parts(d, talk_room.primary_user_id, card, event))
    }
}

} // verus!
