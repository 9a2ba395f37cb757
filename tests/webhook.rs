use linebot_webhook::conversation::DbFirestoreRepositoryImpl;
use linebot_webhook::documents::DocumentStore;
use linebot_webhook::model::{
    CreateUserEvent, Event, LineUserProfile, RepositoryError, Resource, TalkRoomCard, User,
};
use linebot_webhook::relational::DatabaseRepositoryImpl;
use linebot_webhook::timestamp_utils::{
    from_timestamp, to_timestamp, Timestamp, TimestampError, UtcDateTime,
};
use linebot_webhook::usecase::LinebotWebhookUseCase;

fn profile(auth_id: &str, name: &str) -> LineUserProfile {
    LineUserProfile {
        auth_id: auth_id.to_string(),
        display_name: name.to_string(),
        picture_url: format!("https://example.com/{}.png", name),
    }
}

fn message(auth_id: &str, id: u64, text: &str, at: i64) -> CreateUserEvent {
    CreateUserEvent {
        auth_id: auth_id.to_string(),
        message_id: id,
        message: text.to_string(),
        sent_at: at,
    }
}

fn event(id: u64, text: &str, author: &str, at: i64) -> Event {
    Event { id, message: text.to_string(), author: author.to_string(), sent_at: at }
}

fn user(id: u64, auth_id: &str, name: &str) -> User {
    let p = profile(auth_id, name);
    User { id, auth_id: p.auth_id, display_name: p.display_name, picture_url: p.picture_url }
}

fn events_under(store: &DocumentStore, parent: u64) -> Vec<&Event> {
    store.events.iter().filter(|s| s.parent == parent).map(|s| &s.event).collect()
}

/// Handles one message the way the webhook does: the profile is fetched only
/// for an unknown sender.
fn handle(
    uc: &mut LinebotWebhookUseCase,
    m: CreateUserEvent,
    p: LineUserProfile,
) -> Result<linebot_webhook::model::TalkRoom, RepositoryError> {
    let fetched = if uc.needs_profile(&m.auth_id) { Some(p) } else { None };
    uc.create_user(m, fetched)
}

#[test]
fn first_and_second_message_of_new_sender() {
    let mut uc = LinebotWebhookUseCase::new();
    assert!(uc.needs_profile(&"U100".to_string()));
    let t1 = handle(&mut uc, message("U100", 1, "hello", 100), profile("U100", "alice")).unwrap();
    assert_eq!(uc.repositories.db.users.len(), 1);
    let u = uc.repositories.db.get_user(&"U100".to_string()).unwrap();
    assert_eq!(u.auth_id, "U100");
    assert_eq!(t1.primary_user_id, u.id);
    assert_eq!(t1.latest_message, event(1, "hello", "U100", 100));
    assert_eq!(t1.latest_messaged_at, 100);
    assert_eq!(t1.sort_time, 100);
    assert_eq!(events_under(&uc.repositories.firestore, t1.document_id).len(), 1);

    assert!(!uc.needs_profile(&"U100".to_string()));
    let t2 = handle(&mut uc, message("U100", 2, "world", 200), profile("U100", "alice")).unwrap();
    assert_eq!(uc.repositories.db.users.len(), 1);
    assert_eq!(uc.repositories.db.get_user(&"U100".to_string()).unwrap(), u);
    assert_eq!(t2.document_id, t1.document_id);
    assert_eq!(t2.primary_user_id, u.id);
    assert_eq!(t2.latest_message, event(2, "world", "U100", 200));
    let card = uc.repositories.firestore.get_card(t1.document_id).unwrap();
    assert_eq!(card.latest_event_id, 2);
    assert_eq!(card.latest_messaged_at, 200);
    assert_eq!(events_under(&uc.repositories.firestore, t1.document_id).len(), 2);
    assert_eq!(uc.repositories.db.talk_rooms.len(), 1);
    assert_eq!(uc.repositories.get_talk_room(u.id).unwrap(), t2);
}

#[test]
fn two_senders_get_separate_rooms() {
    let mut uc = LinebotWebhookUseCase::new();
    let a = handle(&mut uc, message("Ua", 1, "hi", 10), profile("Ua", "a")).unwrap();
    let b = handle(&mut uc, message("Ub", 2, "yo", 20), profile("Ub", "b")).unwrap();
    assert_ne!(a.primary_user_id, b.primary_user_id);
    assert_ne!(a.document_id, b.document_id);
    assert_eq!(uc.repositories.db.users.len(), 2);
    assert_eq!(b.display_name, "b");
}

#[test]
fn unknown_sender_without_profile_is_not_auth_found() {
    let mut uc = LinebotWebhookUseCase::new();
    let r = uc.create_user(message("U1", 1, "hello", 1), None);
    assert_eq!(r, Err(RepositoryError::NotAuthFound("U1".to_string())));
    assert_eq!(uc.repositories.db.users.len(), 0);
    assert!(uc.repositories.db.talk_rooms.is_empty());
}

#[test]
fn created_user_is_found_and_second_create_conflicts() {
    let mut db = DatabaseRepositoryImpl::new();
    assert_eq!(
        db.get_user(&"U7".to_string()),
        Err(RepositoryError::NotAuthFound("U7".to_string()))
    );
    let u = db.create_user(profile("U7", "seven")).unwrap();
    assert_eq!(u, user(1, "U7", "seven"));
    assert_eq!(db.get_user(&"U7".to_string()), Ok(user(1, "U7", "seven")));
    assert_eq!(
        db.create_user(profile("U7", "other")),
        Err(RepositoryError::AlreadyExists(Resource::LineUsers))
    );
    assert_eq!(db.users.len(), 1);
    let v = db.create_user(profile("U8", "eight")).unwrap();
    assert_eq!(v.id, 2);
}

#[test]
fn user_ids_exhausted() {
    let mut db = DatabaseRepositoryImpl::new();
    db.next_user_id = u64::MAX;
    assert_eq!(
        db.create_user(profile("U1", "one")),
        Err(RepositoryError::Exhausted(Resource::LineUsers))
    );
    assert!(db.users.is_empty());
}

#[test]
fn created_talk_room_is_read_back() {
    let mut repo = DbFirestoreRepositoryImpl::new();
    let u = repo.db.create_user(profile("U1", "one")).unwrap();
    let e0 = event(10, "first", "U1", 50);
    let t = repo.create_talk_room(&u, e0.clone()).unwrap();
    assert_eq!(t.latest_message, e0);
    assert_eq!(t.display_name, "one");
    assert!(!t.rsvp && !t.pinned && !t.follow);
    assert_eq!(t.created_at, 50);
    assert_eq!(repo.db.talk_rooms.get(&u.id), Some(&t.document_id));
    assert_eq!(repo.firestore.get_card(t.document_id).unwrap().latest_event_id, 10);
    assert_eq!(repo.firestore.get_event(t.document_id, 10), Ok(e0));
    assert_eq!(repo.get_talk_room(u.id), Ok(t));
}

#[test]
fn talk_room_of_unknown_user_is_not_found() {
    let repo = DbFirestoreRepositoryImpl::new();
    assert_eq!(
        repo.get_talk_room(42),
        Err(RepositoryError::NotFound(Resource::TalkRooms, 42))
    );
}

#[test]
fn second_talk_room_for_user_conflicts() {
    let mut repo = DbFirestoreRepositoryImpl::new();
    let u = repo.db.create_user(profile("U1", "one")).unwrap();
    repo.create_talk_room(&u, event(1, "a", "U1", 1)).unwrap();
    assert_eq!(
        repo.create_talk_room(&u, event(2, "b", "U1", 2)),
        Err(RepositoryError::AlreadyExists(Resource::TalkRooms))
    );
    assert_eq!(repo.db.talk_rooms.len(), 1);
}

#[test]
fn failed_card_insert_rolls_back_identity() {
    let mut repo = DbFirestoreRepositoryImpl::new();
    let u = repo.db.create_user(profile("U1", "one")).unwrap();
    let d = repo.db.next_document_id;
    let stray = TalkRoomCard {
        display_name: "stray".to_string(),
        rsvp: false,
        pinned: false,
        follow: false,
        latest_event_id: 0,
        latest_messaged_at: 0,
        sort_time: 0,
        created_at: 0,
        updated_at: 0,
    };
    repo.firestore.insert_card(d, stray.clone()).unwrap();
    let r = repo.create_talk_room(&u, event(1, "hello", "U1", 100));
    assert_eq!(r, Err(RepositoryError::CouldNotInsert(Resource::TalkRoomCards, d)));
    assert_eq!(repo.get_talk_room(u.id), Err(RepositoryError::NotFound(Resource::TalkRooms, u.id)));
    assert_eq!(repo.firestore.get_card(d), Ok(stray));
    // a retry allocates a new document id and succeeds
    let t = repo.create_talk_room(&u, event(1, "hello", "U1", 100)).unwrap();
    assert_eq!(t.document_id, d + 1);
    assert_eq!(repo.get_talk_room(u.id), Ok(t));
}

#[test]
fn failed_event_insert_rolls_back_identity() {
    let mut repo = DbFirestoreRepositoryImpl::new();
    let u = repo.db.create_user(profile("U1", "one")).unwrap();
    let d = repo.db.next_document_id;
    repo.firestore.insert_event(d, event(1, "old", "U1", 1)).unwrap();
    let r = repo.create_talk_room(&u, event(1, "hello", "U1", 100));
    assert_eq!(r, Err(RepositoryError::CouldNotInsert(Resource::Events, 1)));
    assert_eq!(repo.get_talk_room(u.id), Err(RepositoryError::NotFound(Resource::TalkRooms, u.id)));
    assert!(repo.db.talk_rooms.is_empty());
    // the card inserted before the failure stays behind, unreachable
    assert_eq!(repo.firestore.get_card(d).unwrap().latest_event_id, 1);
}

#[test]
fn document_ids_exhausted() {
    let mut repo = DbFirestoreRepositoryImpl::new();
    let u = repo.db.create_user(profile("U1", "one")).unwrap();
    repo.db.next_document_id = u64::MAX;
    assert_eq!(
        repo.create_talk_room(&u, event(1, "a", "U1", 1)),
        Err(RepositoryError::Exhausted(Resource::TalkRooms))
    );
    assert!(repo.db.talk_rooms.is_empty());
    assert!(repo.firestore.cards.is_empty());
}

#[test]
fn append_advances_card_and_latest_event() {
    let mut repo = DbFirestoreRepositoryImpl::new();
    let u = repo.db.create_user(profile("U1", "one")).unwrap();
    let t = repo.create_talk_room(&u, event(1, "a", "U1", 100)).unwrap();
    let t2 = repo.create_event(&t, event(2, "b", "U1", 150)).unwrap();
    assert!(t2.sort_time > t.sort_time);
    assert!(t2.latest_messaged_at > t.latest_messaged_at);
    assert_eq!(t2.sort_time, 150);
    assert_eq!(t2.updated_at, 150);
    assert_eq!(t2.created_at, 100);
    assert_eq!(t2.latest_message, event(2, "b", "U1", 150));
    assert_eq!(repo.get_talk_room(u.id), Ok(t2));
}

#[test]
fn append_with_duplicate_event_leaves_card_updated() {
    let mut repo = DbFirestoreRepositoryImpl::new();
    let u = repo.db.create_user(profile("U1", "one")).unwrap();
    let t = repo.create_talk_room(&u, event(1, "a", "U1", 100)).unwrap();
    let r = repo.create_event(&t, event(1, "again", "U1", 300));
    assert_eq!(r, Err(RepositoryError::CouldNotInsert(Resource::Events, 1)));
    let card = repo.firestore.get_card(t.document_id).unwrap();
    assert_eq!(card.sort_time, 300);
    assert_eq!(events_under(&repo.firestore, t.document_id).len(), 1);
    let read = repo.get_talk_room(u.id).unwrap();
    assert_eq!(read.latest_message, event(1, "a", "U1", 100));
    assert_eq!(read.sort_time, 300);
}

#[test]
fn append_to_room_without_card_is_not_found() {
    let mut repo = DbFirestoreRepositoryImpl::new();
    let u = repo.db.create_user(profile("U1", "one")).unwrap();
    let mut t = repo.create_talk_room(&u, event(1, "a", "U1", 100)).unwrap();
    t.document_id = 999;
    assert_eq!(
        repo.create_event(&t, event(2, "b", "U1", 200)),
        Err(RepositoryError::NotFound(Resource::TalkRoomCards, 999))
    );
}

#[test]
fn missing_card_or_event_is_not_found() {
    let mut repo = DbFirestoreRepositoryImpl::new();
    let u = repo.db.create_user(profile("U1", "one")).unwrap();
    let t = repo.create_talk_room(&u, event(1, "a", "U1", 100)).unwrap();
    repo.firestore.events.clear();
    assert_eq!(
        repo.get_talk_room(u.id),
        Err(RepositoryError::NotFound(Resource::Events, 1))
    );
    repo.firestore.cards.clear();
    assert_eq!(
        repo.get_talk_room(u.id),
        Err(RepositoryError::NotFound(Resource::TalkRoomCards, t.document_id))
    );
}

#[test]
fn corrupt_projection_is_not_recreated() {
    let mut uc = LinebotWebhookUseCase::new();
    handle(&mut uc, message("U1", 1, "a", 1), profile("U1", "one")).unwrap();
    uc.repositories.firestore.cards.clear();
    let r = handle(&mut uc, message("U1", 2, "b", 2), profile("U1", "one"));
    assert_eq!(r, Err(RepositoryError::AlreadyExists(Resource::TalkRooms)));
    assert_eq!(uc.repositories.db.talk_rooms.len(), 1);
}

#[test]
fn profile_for_bound_auth_id_conflicts() {
    let mut uc = LinebotWebhookUseCase::new();
    handle(&mut uc, message("U1", 1, "a", 1), profile("U1", "one")).unwrap();
    let r = uc.create_user(message("U2", 2, "b", 2), Some(profile("U1", "one")));
    assert_eq!(r, Err(RepositoryError::AlreadyExists(Resource::LineUsers)));
    assert_eq!(uc.repositories.db.users.len(), 1);
}

#[test]
fn resolve_user_creates_once() {
    let mut uc = LinebotWebhookUseCase::new();
    let a = uc.resolve_user(&"U5".to_string(), Some(profile("U5", "five"))).unwrap();
    let b = uc.resolve_user(&"U5".to_string(), None).unwrap();
    assert_eq!(a, b);
    assert_eq!(a, user(1, "U5", "five"));
    assert_eq!(uc.repositories.db.users.len(), 1);
}

#[test]
fn message_converts_to_event() {
    let m = message("U9", 77, "text", -5);
    assert_eq!(m.to_event(), event(77, "text", "U9", -5));
}

#[test]
fn timestamp_converts_to_instant_and_back() {
    let ts = Timestamp { seconds: 1431648000, nanos: 250 };
    let dt = from_timestamp(ts).unwrap();
    assert_eq!(dt, UtcDateTime { secs: 1431648000, nanos: 250 });
    assert_eq!(to_timestamp(dt), ts);
    let before_epoch = Timestamp { seconds: -86_401, nanos: 999_999_999 };
    assert_eq!(from_timestamp(before_epoch), Ok(UtcDateTime { secs: -86_401, nanos: 999_999_999 }));
}

#[test]
fn timestamp_leap_second_is_accepted_only_at_59() {
    let leap = Timestamp { seconds: 59, nanos: 1_500_000_000 };
    assert_eq!(from_timestamp(leap).unwrap().nanos, 1_500_000_000);
    let bad = Timestamp { seconds: 58, nanos: 1_500_000_000 };
    assert_eq!(from_timestamp(bad), Err(TimestampError::InvalidOrOutOfRange(bad)));
}

#[test]
fn timestamp_invalid_inputs_are_rejected() {
    let negative = Timestamp { seconds: 0, nanos: -1 };
    assert_eq!(from_timestamp(negative), Err(TimestampError::InvalidOrOutOfRange(negative)));
    let huge = Timestamp { seconds: i64::MAX, nanos: 0 };
    assert_eq!(from_timestamp(huge), Err(TimestampError::InvalidOrOutOfRange(huge)));
    let too_many = Timestamp { seconds: 59, nanos: 2_000_000_000 };
    assert_eq!(from_timestamp(too_many), Err(TimestampError::InvalidOrOutOfRange(too_many)));
}
