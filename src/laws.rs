use vstd::prelude::*;
use crate::conversation::DbFirestoreRepositoryImpl;
use crate::documents::StoredEvent;
use crate::model::{
    CreateUserEvent, Event, LineUserProfile, RepositoryError, Resource, TalkRoom, User,
    appended_card, event_of, initial_card,
};
use crate::relational::DatabaseRepositoryImpl;
use crate::usecase::{creates_user, handles_message, resolved_user};

verus! {

/// After a user is created from `profile`, looking up its auth id finds a user
/// with that auth id, the one created; creating a user with the same auth id
/// again fails with a uniqueness conflict and changes nothing.
pub proof fn lemma_created_user_is_found(
    s0: DatabaseRepositoryImpl,
    s1: DatabaseRepositoryImpl,
    profile: LineUserProfile,
    r: Result<User, RepositoryError>,
    again: LineUserProfile,
    s2: DatabaseRepositoryImpl,
    r2: Result<User, RepositoryError>,
)
    requires
        s1.wf(),
        DatabaseRepositoryImpl::inserts_user(s0, s1, profile, r),
        r is Ok,
        again.auth_id@ == profile.auth_id@,
        DatabaseRepositoryImpl::inserts_user(s1, s2, again, r2),
    ensures
        s1.has_auth(profile.auth_id@),
        s1.user_with_auth(profile.auth_id@).auth_id@ == profile.auth_id@,
        r == Ok::<User, RepositoryError>(s1.user_with_auth(profile.auth_id@)),
        r2 == Err::<User, RepositoryError>(RepositoryError::AlreadyExists(Resource::LineUsers)),
        s2 == s1,
{
    let last = s0.users@.len() as int;
    assert(s1.users@[last].auth_id@ == profile.auth_id@);
    let j = choose|j: int| 0 <= j < s1.users@.len() && #[trigger] s1.users@[j].auth_id@ == profile.auth_id@;
    assert(s1.users@[j].auth_id@ == s1.users@[last].auth_id@);
}

/// The event `e` pushed last under `d` is the one found there.
proof fn lemma_pushed_event_found(s: DbFirestoreRepositoryImpl, d: u64, e: Event)
    requires
        s.firestore.wf(),
        s.firestore.events@.len() > 0,
        s.firestore.events@.last() == (StoredEvent { parent: d, event: e }),
    ensures
        s.firestore.has_event(d, e.id),
        s.firestore.event_at(d, e.id) == e,
{
    let last = s.firestore.events@.len() - 1;
    assert(s.firestore.events@[last].parent == d && s.firestore.events@[last].event.id == e.id);
    let j = choose|j: int|
        0 <= j < s.firestore.events@.len() && #[trigger] s.firestore.events@[j].parent == d
            && s.firestore.events@[j].event.id == e.id;
    assert(s.firestore.events@[j].parent == s.firestore.events@[last].parent);
}

/// After a talk room is created for `user` with first event `first`, reading
/// the talk room of `user` gives the created one: its latest event is `first`,
/// and its identity, its card and `first` share one document id.
pub proof fn lemma_created_talk_room_is_read(
    s0: DbFirestoreRepositoryImpl,
    s1: DbFirestoreRepositoryImpl,
    user: User,
    first: Event,
    t: TalkRoom,
)
    requires
        s1.wf(),
        DbFirestoreRepositoryImpl::creates_talk_room(s0, s1, user, first, Ok(t)),
    ensures
        s1.read_talk_room(user.id) == Ok::<TalkRoom, RepositoryError>(t),
        t.latest_message == first,
        t.primary_user_id == user.id,
        s1.db.talk_rooms@[user.id] == t.document_id,
        s1.firestore.cards@[t.document_id].latest_event_id == first.id,
        s1.firestore.has_event(t.document_id, first.id),
        s1.firestore.event_at(t.document_id, first.id) == first,
{
    let d = s0.db.next_document_id;
    lemma_pushed_event_found(s1, d, first);
    assert(s1.firestore.cards@[d] == initial_card(user, first));
}

/// Where creating a talk room fails, no identity appears: reading the talk
/// room of a user that had none still fails with `NotFound` on the identity.
pub proof fn lemma_failed_creation_leaves_no_identity(
    s0: DbFirestoreRepositoryImpl,
    s1: DbFirestoreRepositoryImpl,
    user: User,
    first: Event,
    r: Result<TalkRoom, RepositoryError>,
)
    requires
        DbFirestoreRepositoryImpl::creates_talk_room(s0, s1, user, first, r),
        r is Err,
    ensures
        s1.db.talk_rooms@ == s0.db.talk_rooms@,
        !s0.db.talk_rooms@.contains_key(user.id) ==> s1.read_talk_room(user.id) == Err::<
            TalkRoom,
            RepositoryError,
        >(RepositoryError::NotFound(Resource::TalkRooms, user.id)),
{
}

/// Appending `e`, sent after the latest message of the talk room `t` that was
/// read for `uid`, strictly advances its sort time and latest-message time,
/// and reading the talk room then gives `e` as the latest event.
pub proof fn lemma_appended_event_is_latest(
    s0: DbFirestoreRepositoryImpl,
    s1: DbFirestoreRepositoryImpl,
    uid: u64,
    t: TalkRoom,
    e: Event,
    t2: TalkRoom,
)
    requires
        s1.wf(),
        s0.read_talk_room(uid) == Ok::<TalkRoom, RepositoryError>(t),
        DbFirestoreRepositoryImpl::appends_event(s0, s1, t, e, Ok(t2)),
        e.sent_at > t.sort_time,
        e.sent_at > t.latest_messaged_at,
    ensures
        t2.sort_time > t.sort_time,
        t2.latest_messaged_at > t.latest_messaged_at,
        t2.latest_message == e,
        s1.read_talk_room(uid) == Ok::<TalkRoom, RepositoryError>(t2),
{
    lemma_appended_event_is_latest_any_time(s0, s1, uid, t, e, t2);
}

/// After a message is handled successfully, reading the talk room of its
/// sender gives the result: the message is its latest event.
pub proof fn lemma_handled_message_is_latest(
    s0: DbFirestoreRepositoryImpl,
    s1: DbFirestoreRepositoryImpl,
    source: CreateUserEvent,
    profile: Option<LineUserProfile>,
    t: TalkRoom,
)
    requires
        s1.wf(),
        handles_message(s0, s1, source, profile, Ok(t)),
    ensures
        resolved_user(s0, source.auth_id, profile) is Ok,
        t.primary_user_id == resolved_user(s0, source.auth_id, profile)->Ok_0.id,
        t.latest_message == event_of(source),
        s1.read_talk_room(t.primary_user_id) == Ok::<TalkRoom, RepositoryError>(t),
        s1.db.talk_rooms@.dom() == s0.db.talk_rooms@.dom().insert(t.primary_user_id),
{
    let u = resolved_user(s0, source.auth_id, profile)->Ok_0;
    match s0.read_talk_room(u.id) {
        Ok(t0) => {
            lemma_appended_event_is_latest_any_time(s0, s1, u.id, t0, event_of(source), t);
            assert(s1.db.talk_rooms@.dom() =~= s0.db.talk_rooms@.dom().insert(u.id));
        },
        Err(_) => {
            lemma_created_talk_room_is_read(s0, s1, u, event_of(source), t);
            assert(s1.db.talk_rooms@.dom() =~= s0.db.talk_rooms@.dom().insert(u.id));
        },
    }
}

/// Appending to a talk room read for `uid` makes the appended event the
/// latest one read, whenever it was sent.
proof fn lemma_appended_event_is_latest_any_time(
    s0: DbFirestoreRepositoryImpl,
    s1: DbFirestoreRepositoryImpl,
    uid: u64,
    t: TalkRoom,
    e: Event,
    t2: TalkRoom,
)
    requires
        s1.wf(),
        s0.read_talk_room(uid) == Ok::<TalkRoom, RepositoryError>(t),
        DbFirestoreRepositoryImpl::appends_event(s0, s1, t, e, Ok(t2)),
    ensures
        t2.latest_message == e,
        t2.primary_user_id == uid,
        s1.read_talk_room(uid) == Ok::<TalkRoom, RepositoryError>(t2),
{
    lemma_pushed_event_found(s1, t.document_id, e);
    assert(s1.firestore.cards@[t.document_id] == appended_card(t, e));
}

/// Two messages from a sender that had no user, handled one after the other,
/// leave exactly one new user bound to the sender and one talk room for it,
/// created by the first message and read with the second as its latest
/// event.
pub proof fn lemma_two_messages_from_new_sender(
    s0: DbFirestoreRepositoryImpl,
    s1: DbFirestoreRepositoryImpl,
    s2: DbFirestoreRepositoryImpl,
    m1: CreateUserEvent,
    m2: CreateUserEvent,
    profile: LineUserProfile,
    second_profile: Option<LineUserProfile>,
    t1: TalkRoom,
    t2: TalkRoom,
)
    requires
        s0.wf(),
        s1.wf(),
        s2.wf(),
        !s0.db.has_auth(m1.auth_id@),
        profile.auth_id@ == m1.auth_id@,
        m2.auth_id@ == m1.auth_id@,
        handles_message(s0, s1, m1, Some(profile), Ok(t1)),
        handles_message(s1, s2, m2, second_profile, Ok(t2)),
    ensures
        s2.db.users@.len() == s0.db.users@.len() + 1,
        s2.db.has_auth(m1.auth_id@),
        s2.db.user_with_auth(m1.auth_id@).id == t1.primary_user_id,
        t2.primary_user_id == t1.primary_user_id,
        t2.document_id == t1.document_id,
        s2.db.talk_rooms@.dom() == s0.db.talk_rooms@.dom().insert(t1.primary_user_id),
        t2.latest_message == event_of(m2),
        s2.read_talk_room(t1.primary_user_id) == Ok::<TalkRoom, RepositoryError>(t2),
{
    let a = m1.auth_id@;
    lemma_handled_message_is_latest(s0, s1, m1, Some(profile), t1);
    let u = resolved_user(s0, m1.auth_id, Some(profile))->Ok_0;
    let last = s0.db.users@.len() as int;
    assert(creates_user(s0, m1.auth_id, Some(profile)));
    assert(s1.db.users@ == s0.db.users@.push(u));
    assert(s1.db.users@[last] == u);
    assert(s1.db.users@[last].auth_id@ == a);
    assert(s1.db.has_auth(a));
    let j = choose|j: int| 0 <= j < s1.db.users@.len() && #[trigger] s1.db.users@[j].auth_id@ == a;
    assert(s1.db.users@[j].auth_id@ == s1.db.users@[last].auth_id@);
    assert(s1.db.user_with_auth(a) == u);
    assert(resolved_user(s1, m2.auth_id, second_profile) == Ok::<User, RepositoryError>(u));
    lemma_handled_message_is_latest(s1, s2, m2, second_profile, t2);
    assert(s2.db.users@ == s1.db.users@);
    assert(s1.read_talk_room(u.id) == Ok::<TalkRoom, RepositoryError>(t1));
    assert(s2.db.talk_rooms@.dom() =~= s0.db.talk_rooms@.dom().insert(t1.primary_user_id));
}

} // verus!
