use vstd::prelude::*;
use crate::conversation::DbFirestoreRepositoryImpl;
use crate::model::{
    CreateUserEvent, LineUserProfile, RepositoryError, Resource, TalkRoom, TalkRoomCard, User, event_of,
    user_from_profile,
};

verus! {

/// Resolves the sender of an inbound message to a user and a talk room,
/// creating either where it does not exist yet, and records the message.
pub struct LinebotWebhookUseCase {
    pub repositories: DbFirestoreRepositoryImpl,
}

/// The user that the sender `auth_id` resolves to in `s`: the one bound to
/// it, else the one created from the fetched `profile`, else the failure.
pub open spec fn resolved_user(
    s: DbFirestoreRepositoryImpl,
    auth_id: String,
    profile: Option<LineUserProfile>,
) -> Result<User, RepositoryError> {
    if s.db.has_auth(auth_id@) {
        Ok(s.db.user_with_auth(auth_id@))
    } else {
        match profile {
            None => Err(RepositoryError::NotAuthFound(auth_id)),
            Some(p) => if s.db.has_auth(p.auth_id@) {
                Err(RepositoryError::AlreadyExists(Resource::LineUsers))
            } else if s.db.next_user_id == u64::MAX {
                Err(RepositoryError::Exhausted(Resource::LineUsers))
            } else {
                Ok(user_from_profile(s.db.next_user_id, p))
            },
        }
    }
}

/// Whether resolving `auth_id` in `s` creates a user.
pub open spec fn creates_user(
    s: DbFirestoreRepositoryImpl,
    auth_id: String,
    profile: Option<LineUserProfile>,
) -> bool {
    !s.db.has_auth(auth_id@) && resolved_user(s, auth_id, profile) is Ok
}

/// `s1` holds the users of `s0` after `auth_id` was resolved.
pub open spec fn users_resolved(
    s0: DbFirestoreRepositoryImpl,
    s1: DbFirestoreRepositoryImpl,
    auth_id: String,
    profile: Option<LineUserProfile>,
) -> bool {
    if creates_user(s0, auth_id, profile) {
        &&& s1.db.users@ == s0.db.users@.push(resolved_user(s0, auth_id, profile)->Ok_0)
        &&& s1.db.next_user_id == s0.db.next_user_id + 1
    } else {
        &&& s1.db.users@ == s0.db.users@
        &&& s1.db.next_user_id == s0.db.next_user_id
    }
}

/// `s1` and `r` are what handling `source` makes of `s0`, where `profile` is
/// the sender's profile as the identity provider returned it, if fetched.
pub open spec fn handles_message(
    s0: DbFirestoreRepositoryImpl,
    s1: DbFirestoreRepositoryImpl,
    source: CreateUserEvent,
    profile: Option<LineUserProfile>,
    r: Result<TalkRoom, RepositoryError>,
) -> bool {
    match resolved_user(s0, source.auth_id, profile) {
        Err(e) => r == Err::<TalkRoom, RepositoryError>(e) && s1 == s0,
        Ok(u) => {
            &&& users_resolved(s0, s1, source.auth_id, profile)
            &&& match s0.read_talk_room(u.id) {
                Ok(t) => DbFirestoreRepositoryImpl::appends_event(s0, s1, t, event_of(source), r),
                Err(_) => DbFirestoreRepositoryImpl::creates_talk_room(
                    s0,
                    s1,
                    u,
                    event_of(source),
                    r,
                ),
            }
        },
    }
}

impl LinebotWebhookUseCase {
    pub open spec fn wf(&self) -> bool {
        self.repositories.wf()
    }

    /// A use case over empty stores.
    pub fn new() -> (r: Self)
        ensures
            r.wf(),
            r.repositories.db.users@.len() == 0,
            r.repositories.db.talk_rooms@ == Map::<u64, u64>::empty(),
            r.repositories.db.next_user_id == 1,
            r.repositories.db.next_document_id == 1,
            r.repositories.firestore.cards@ == Map::<u64, TalkRoomCard>::empty(),
            r.repositories.firestore.events@.len() == 0,
    {
        LinebotWebhookUseCase { repositories: DbFirestoreRepositoryImpl::new() }
    }

    /// Whether the sender `auth_id` is unknown, so that its profile must be
    /// fetched before its message can be handled.
    pub fn needs_profile(&self, auth_id: &String) -> (r: bool)
        requires
            self.wf(),
        ensures
            r == !self.repositories.db.has_auth(auth_id@),
    {
        self.repositories.db.get_user(auth_id).is_err()
    }

    /// The user bound to `auth_id`; an unknown one is created from `profile`.
    /// Without a profile an unknown sender stays `NotAuthFound`; any other
    /// failure is passed on unchanged.
    pub fn resolve_user(&mut self, auth_id: &String, profile: Option<LineUserProfile>) -> (r:
        Result<User, RepositoryError>)
        requires
            old(self).wf(),
        ensures
            final(self).wf(),
            r == resolved_user(old(self).repositories, *auth_id, profile),
            users_resolved(old(self).repositories, final(self).repositories, *auth_id, profile),
            final(self).repositories.db.talk_rooms@ == old(self).repositories.db.talk_rooms@,
            final(self).repositories.db.next_document_id
                == old(self).repositories.db.next_document_id,
            final(self).repositories.firestore == old(self).repositories.firestore,
            r is Err ==> *final(self) == *old(self),
    {
        match self.repositories.db.get_user(auth_id) {
            Ok(u) => Ok(u),
            Err(RepositoryError::NotAuthFound(a)) => match profile {
                Some(p) => self.repositories.db.create_user(p),
                None => Err(RepositoryError::NotAuthFound(a)),
            },
            Err(e) => Err(e),
        }
    }

    /// Handles one inbound message: resolves its sender to a user, then to
    /// a talk room. A missing talk room is created with the message as its
    /// first event; an existing one gets the message appended.
    pub fn create_user(&mut self, source: CreateUserEvent, profile: Option<LineUserProfile>) -> (r:
        Result<TalkRoom, RepositoryError>)
        requires
            old(self).wf(),
        ensures
            final(self).wf(),
            handles_message(old(self).repositories, final(self).repositories, source, profile, r),
    {
        let ghost s0 = self.repositories;
        let user = self.resolve_user(&source.auth_id, profile)?;
        let event = source.to_event();
        let ghost mid = self.repositories;
        proof {
            assert(mid.read_talk_room(user.id) == s0.read_talk_room(user.id));
        }
        match self.repositories.get_talk_room(user.id) {
            Ok(t) => self.repositories.create_event(&t, event),
            Err(RepositoryError::NotFound(_, _)) => self.repositories.create_talk_room(&user, event),
            Err(e) => Err(e),
        }
    }
}

} // verus!
