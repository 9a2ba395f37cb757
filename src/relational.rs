use std::collections::HashMap;
use vstd::prelude::*;
use crate::model::{
    LineUserProfile, RepositoryError, Resource, TalkRoomIdentity, User, user_from_profile,
};

verus! {

broadcast use vstd::std_specs::hash::group_hash_axioms;

/// The transactional store of users and talk-room identities.
///
/// Users are unique by auth id; a primary user id owns at most one talk room,
/// and no two talk rooms share a document id.
pub struct DatabaseRepositoryImpl {
    pub users: Vec<User>,
    /// Primary user id to the document id of its talk room.
    pub talk_rooms: HashMap<u64, u64>,
    pub next_user_id: u64,
    pub next_document_id: u64,
}

/// A talk-room identity whose insert is held in an open transaction.
///
/// It becomes visible only through [`DatabaseRepositoryImpl::commit_talk_room`];
/// dropping it abandons the transaction.
pub struct TalkRoomReservation {
    pub identity: TalkRoomIdentity,
}

impl DatabaseRepositoryImpl {
    pub open spec fn wf(&self) -> bool {
        &&& forall|i: int, j: int|
            0 <= i < self.users@.len() && 0 <= j < self.users@.len() && #[trigger] self.users@[i].auth_id@
                == #[trigger] self.users@[j].auth_id@ ==> i == j
        &&& forall|i: int| 0 <= i < self.users@.len() ==> #[trigger] self.users@[i].id < self.next_user_id
        &&& forall|u: u64| #[trigger]
            self.talk_rooms@.contains_key(u) ==> self.talk_rooms@[u] < self.next_document_id
        &&& forall|u: u64, v: u64|
            #[trigger] self.talk_rooms@.contains_key(u) && #[trigger] self.talk_rooms@.contains_key(v)
                && self.talk_rooms@[u] == self.talk_rooms@[v] ==> u == v
        &&& vstd::std_specs::hash::obeys_key_model::<u64>()
    }

    /// Whether a user is bound to auth id `a`.
    pub open spec fn has_auth(&self, a: Seq<char>) -> bool {
        exists|i: int| 0 <= i < self.users@.len() && #[trigger] self.users@[i].auth_id@ == a
    }

    /// The user bound to auth id `a`, where there is one.
    pub open spec fn user_with_auth(&self, a: Seq<char>) -> User {
        self.users@[choose|i: int| 0 <= i < self.users@.len() && #[trigger] self.users@[i].auth_id@ == a]
    }

    /// Whether some talk room holds document id `d`.
    pub open spec fn document_used(&self, d: u64) -> bool {
        exists|u: u64| #[trigger] self.talk_rooms@.contains_key(u) && self.talk_rooms@[u] == d
    }

    /// `s1` and `r` are what inserting the user of `profile` makes of `s0`:
    /// a conflict where its auth id is bound, else a user under the next
    /// primary user id.
    pub open spec fn inserts_user(
        s0: Self,
        s1: Self,
        profile: LineUserProfile,
        r: Result<User, RepositoryError>,
    ) -> bool {
        if s0.has_auth(profile.auth_id@) {
            r == Err::<User, RepositoryError>(RepositoryError::AlreadyExists(Resource::LineUsers))
                && s1 == s0
        } else if s0.next_user_id == u64::MAX {
            r == Err::<User, RepositoryError>(RepositoryError::Exhausted(Resource::LineUsers))
                && s1 == s0
        } else {
            &&& r == Ok::<User, RepositoryError>(user_from_profile(s0.next_user_id, profile))
            &&& s1.users@ == s0.users@.push(user_from_profile(s0.next_user_id, profile))
            &&& s1.next_user_id == s0.next_user_id + 1
            &&& s1.talk_rooms@ == s0.talk_rooms@
            &&& s1.next_document_id == s0.next_document_id
        }
    }

    /// An empty store.
    pub fn new() -> (r: Self)
        ensures
            r.wf(),
            r.users@.len() == 0,
            r.talk_rooms@ == Map::<u64, u64>::empty(),
            r.next_user_id == 1,
            r.next_document_id == 1,
    {
        DatabaseRepositoryImpl {
            users: Vec::new(),
            talk_rooms: HashMap::new(),
            next_user_id: 1,
            next_document_id: 1,
        }
    }

    /// The user bound to `auth_id`, or `NotAuthFound`.
    pub fn get_user(&self, auth_id: &String) -> (r: Result<User, RepositoryError>)
        requires
            self.wf(),
        ensures
            self.has_auth(auth_id@) ==> r == Ok::<User, RepositoryError>(
                self.user_with_auth(auth_id@),
            ),
            !self.has_auth(auth_id@) ==> r == Err::<User, RepositoryError>(
                RepositoryError::NotAuthFound(*auth_id),
            ),
    {
        let n = self.users.len();
        let mut i: usize = 0;
        while i < n
            invariant
                self.wf(),
                n == self.users@.len(),
                0 <= i <= n,
                forall|k: int| 0 <= k < i ==> #[trigger] self.users@[k].auth_id@ != auth_id@,
            decreases n - i,
        {
            if self.users[i].auth_id == *auth_id {
                proof {
                    let j = choose|j: int|
                        0 <= j < self.users@.len() && #[trigger] self.users@[j].auth_id@ == auth_id@;
                    assert(self.users@[j].auth_id@ == self.users@[i as int].auth_id@);
                }
                return Ok(self.users[i].clone());
            }
            i = i + 1;
        }
        Err(RepositoryError::NotAuthFound(auth_id.clone()))
    }

    /// Allocates a primary user id and inserts the user of `profile` under it.
    ///
    /// An auth id that is already bound is a uniqueness conflict.
    pub fn create_user(&mut self, profile: LineUserProfile) -> (r: Result<User, RepositoryError>)
        requires
            old(self).wf(),
        ensures
            final(self).wf(),
            Self::inserts_user(*old(self), *final(self), profile, r),
    {
        match self.get_user(&profile.auth_id) {
            Ok(_) => {
                return Err(RepositoryError::AlreadyExists(Resource::LineUsers));
            },
            Err(_) => {},
        }
        if self.next_user_id == u64::MAX {
            return Err(RepositoryError::Exhausted(Resource::LineUsers));
        }
        let user = User {
            id: self.next_user_id,
            auth_id: profile.auth_id,
            display_name: profile.display_name,
            picture_url: profile.picture_url,
        };
        let ghost old_users = self.users@;
        self.users.push(user.clone());
        self.next_user_id = self.next_user_id + 1;
        proof {
            assert forall|i: int, j: int|
                0 <= i < self.users@.len() && 0 <= j < self.users@.len() && #[trigger] self.users@[i].auth_id@
                    == #[trigger] self.users@[j].auth_id@ implies i == j by {
                if i < old_users.len() && j == old_users.len() {
                    assert(old_users[i] == self.users@[i]);
                } else if j < old_users.len() && i == old_users.len() {
                    assert(old_users[j] == self.users@[j]);
                }
            }
        }
        Ok(user)
    }

    /// The identity of the talk room of `primary_user_id`, or `NotFound`.
    pub fn get_talk_room_identity(&self, primary_user_id: u64) -> (r: Result<
        TalkRoomIdentity,
        RepositoryError,
    >)
        requires
            self.wf(),
        ensures
            self.talk_rooms@.contains_key(primary_user_id) ==> r == Ok::<
                TalkRoomIdentity,
                RepositoryError,
            >(TalkRoomIdentity { document_id: self.talk_rooms@[primary_user_id], primary_user_id }),
            !self.talk_rooms@.contains_key(primary_user_id) ==> r == Err::<
                TalkRoomIdentity,
                RepositoryError,
            >(RepositoryError::NotFound(Resource::TalkRooms, primary_user_id)),
    {
        match self.talk_rooms.get(&primary_user_id) {
            Some(d) => Ok(TalkRoomIdentity { document_id: *d, primary_user_id }),
            None => Err(RepositoryError::NotFound(Resource::TalkRooms, primary_user_id)),
        }
    }

    /// Opens the transaction that inserts a talk room for `primary_user_id`
    /// under a newly allocated document id. Nothing becomes visible until the
    /// reservation is committed.
    pub fn begin_talk_room(&mut self, primary_user_id: u64) -> (r: Result<
        TalkRoomReservation,
        RepositoryError,
    >)
        requires
            old(self).wf(),
        ensures
            final(self).wf(),
            final(self).users@ == old(self).users@,
            final(self).talk_rooms@ == old(self).talk_rooms@,
            final(self).next_user_id == old(self).next_user_id,
            old(self).talk_rooms@.contains_key(primary_user_id) ==> r == Err::<
                TalkRoomReservation,
                RepositoryError,
            >(RepositoryError::AlreadyExists(Resource::TalkRooms)) && *final(self) == *old(self),
            !old(self).talk_rooms@.contains_key(primary_user_id) && old(self).next_document_id
                == u64::MAX ==> r == Err::<
                TalkRoomReservation,
                RepositoryError,
            >(RepositoryError::Exhausted(Resource::TalkRooms)) && *final(self)
                == *old(self),
            !old(self).talk_rooms@.contains_key(primary_user_id) && old(self).next_document_id
                < u64::MAX ==> {
                &&& r matches Ok(res)
                &&& res.identity == TalkRoomIdentity {
                    document_id: old(self).next_document_id,
                    primary_user_id,
                }
                &&& final(self).next_document_id == old(self).next_document_id + 1
            },
    {
        if self.talk_rooms.contains_key(&primary_user_id) {
            return Err(RepositoryError::AlreadyExists(Resource::TalkRooms));
        }
        if self.next_document_id == u64::MAX {
            return Err(RepositoryError::Exhausted(Resource::TalkRooms));
        }
        let document_id = self.next_document_id;
        self.next_document_id = self.next_document_id + 1;
        Ok(TalkRoomReservation { identity: TalkRoomIdentity { document_id, primary_user_id } })
    }

    /// Commits a reserved talk room, making its identity visible. A talk room
    /// committed for the same user in the meantime is a uniqueness conflict.
    pub fn commit_talk_room(&mut self, reservation: TalkRoomReservation) -> (r: Result<
        (),
        RepositoryError,
    >)
        requires
            old(self).wf(),
            reservation.identity.document_id < old(self).next_document_id,
            !old(self).document_used(reservation.identity.document_id),
        ensures
            final(self).wf(),
            final(self).users@ == old(self).users@,
            final(self).next_user_id == old(self).next_user_id,
            final(self).next_document_id == old(self).next_document_id,
            old(self).talk_rooms@.contains_key(reservation.identity.primary_user_id) ==> r == Err::<
                (),
                RepositoryError,
            >(RepositoryError::AlreadyExists(Resource::TalkRooms)) && final(self).talk_rooms@
                == old(self).talk_rooms@,
            !old(self).talk_rooms@.contains_key(reservation.identity.primary_user_id) ==> r == Ok::<
                (),
                RepositoryError,
            >(()) && final(self).talk_rooms@ == old(self).talk_rooms@.insert(
                reservation.identity.primary_user_id,
                reservation.identity.document_id,
            ),
    {
        let uid = reservation.identity.primary_user_id;
        let d = reservation.identity.document_id;
        if self.talk_rooms.contains_key(&uid) {
            return Err(RepositoryError::AlreadyExists(Resource::TalkRooms));
        }
        let ghost old_rooms = self.talk_rooms@;
        self.talk_rooms.insert(uid, d);
        proof {
            assert forall|u: u64, v: u64|
                #[trigger] self.talk_rooms@.contains_key(u) && #[trigger] self.talk_rooms@.contains_key(v)
                    && self.talk_rooms@[u] == self.talk_rooms@[v] implies u == v by {
                if u != uid && v == uid {
                    assert(old_rooms.contains_key(u));
                } else if v != uid && u == uid {
                    assert(old_rooms.contains_key(v));
                }
            }
        }
        Ok(())
    }
}

} // verus!
