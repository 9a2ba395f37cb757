use vstd::prelude::*;

verus! {

/// The collections and tables that errors refer to.
#[derive(PartialEq, Eq, Structural, Clone, Copy, Debug)]
pub enum Resource {
    LineUsers,
    TalkRooms,
    TalkRoomCards,
    Events,
}

/// Errors surfaced by the stores and propagated by the resolution use case.
#[derive(Debug, PartialEq, Eq)]
pub enum RepositoryError {
    /// A keyed record is absent.
    NotFound(Resource, u64),
    /// No user is bound to this external auth id.
    NotAuthFound(String),
    /// A document could not be inserted under this key.
    CouldNotInsert(Resource, u64),
    /// A uniqueness constraint rejected an insert.
    AlreadyExists(Resource),
    /// The store has no id left to allocate for this resource.
    Exhausted(Resource),
    /// A failure outside the normal control flow.
    Unexpected(String),
}

/// The profile that the identity provider returns for an auth id.
#[derive(Debug, PartialEq, Eq)]
pub struct LineUserProfile {
    pub auth_id: String,
    pub display_name: String,
    pub picture_url: String,
}

/// The canonical user record.
#[derive(Debug, PartialEq, Eq)]
pub struct User {
    /// The primary user id, allocated by the relational store.
    pub id: u64,
    pub auth_id: String,
    pub display_name: String,
    pub picture_url: String,
}

/// One message of a talk room.
#[derive(Debug, PartialEq, Eq)]
pub struct Event {
    pub id: u64,
    pub message: String,
    /// The auth id of the sender.
    pub author: String,
    pub sent_at: i64,
}

/// The mutable summary of a talk room kept in the document store.
#[derive(Debug, PartialEq, Eq)]
pub struct TalkRoomCard {
    pub display_name: String,
    pub rsvp: bool,
    pub pinned: bool,
    pub follow: bool,
    /// The id of the latest event, a child of the talk room's document.
    pub latest_event_id: u64,
    pub latest_messaged_at: i64,
    pub sort_time: i64,
    pub created_at: i64,
    pub updated_at: i64,
}

/// The relational row that says a talk room exists.
#[derive(PartialEq, Eq, Structural, Clone, Copy, Debug)]
pub struct TalkRoomIdentity {
    pub document_id: u64,
    pub primary_user_id: u64,
}

/// The read model: identity, card and latest event joined.
#[derive(Debug, PartialEq, Eq)]
pub struct TalkRoom {
    pub document_id: u64,
    pub primary_user_id: u64,
    pub display_name: String,
    pub rsvp: bool,
    pub pinned: bool,
    pub follow: bool,
    pub latest_message: Event,
    pub latest_messaged_at: i64,
    pub sort_time: i64,
    pub created_at: i64,
    pub updated_at: i64,
}

/// An inbound webhook message.
#[derive(Debug, PartialEq, Eq)]
pub struct CreateUserEvent {
    pub auth_id: String,
    pub message_id: u64,
    pub message: String,
    pub sent_at: i64,
}

impl Clone for LineUserProfile {
    fn clone(&self) -> (r: Self)
        ensures
            r == *self,
    {
        LineUserProfile {
            auth_id: self.auth_id.clone(),
            display_name: self.display_name.clone(),
            picture_url: self.picture_url.clone(),
        }
    }
}

impl Clone for User {
    fn clone(&self) -> (r: Self)
        ensures
            r == *self,
    {
        User {
            id: self.id,
            auth_id: self.auth_id.clone(),
            display_name: self.display_name.clone(),
            picture_url: self.picture_url.clone(),
        }
    }
}

impl Clone for Event {
    fn clone(&self) -> (r: Self)
        ensures
            r == *self,
    {
        Event {
            id: self.id,
            message: self.message.clone(),
            author: self.author.clone(),
            sent_at: self.sent_at,
        }
    }
}

impl Clone for TalkRoomCard {
    fn clone(&self) -> (r: Self)
        ensures
            r == *self,
    {
        TalkRoomCard {
            display_name: self.display_name.clone(),
            rsvp: self.rsvp,
            pinned: self.pinned,
            follow: self.follow,
            latest_event_id: self.latest_event_id,
            latest_messaged_at: self.latest_messaged_at,
            sort_time: self.sort_time,
            created_at: self.created_at,
            updated_at: self.updated_at,
        }
    }
}

impl Clone for TalkRoom {
    fn clone(&self) -> (r: Self)
        ensures
            r == *self,
    {
        TalkRoom {
            document_id: self.document_id,
            primary_user_id: self.primary_user_id,
            display_name: self.display_name.clone(),
            rsvp: self.rsvp,
            pinned: self.pinned,
            follow: self.follow,
            latest_message: self.latest_message.clone(),
            latest_messaged_at: self.latest_messaged_at,
            sort_time: self.sort_time,
            created_at: self.created_at,
            updated_at: self.updated_at,
        }
    }
}

/// The user that a profile becomes under primary user id `id`.
pub open spec fn user_from_profile(id: u64, p: LineUserProfile) -> User {
    User { id, auth_id: p.auth_id, display_name: p.display_name, picture_url: p.picture_url }
}

/// The event that an inbound message becomes.
pub open spec fn event_of(source: CreateUserEvent) -> Event {
    Event {
        id: source.message_id,
        message: source.message,
        author: source.auth_id,
        sent_at: source.sent_at,
    }
}

/// The card of a talk room whose first event is `first`.
pub open spec fn initial_card(user: User, first: Event) -> TalkRoomCard {
    TalkRoomCard {
        display_name: user.display_name,
        rsvp: false,
        pinned: false,
        follow: false,
        latest_event_id: first.id,
        latest_messaged_at: first.sent_at,
        sort_time: first.sent_at,
        created_at: first.sent_at,
        updated_at: first.sent_at,
    }
}

/// The read model joined from an identity, its card and the latest event.
pub open spec fn assemble(
    document_id: u64,
    primary_user_id: u64,
    c: TalkRoomCard,
    e: Event,
) -> TalkRoom {
    TalkRoom {
        document_id,
        primary_user_id,
        display_name: c.display_name,
        rsvp: c.rsvp,
        pinned: c.pinned,
        follow: c.follow,
        latest_message: e,
        latest_messaged_at: c.latest_messaged_at,
        sort_time: c.sort_time,
        created_at: c.created_at,
        updated_at: c.updated_at,
    }
}

impl CreateUserEvent {
    /// The event that this message becomes.
    pub fn to_event(&self) -> (r: Event)
        ensures
            r == event_of(*self),
    {
        Event {
            id: self.message_id,
            message: self.message.clone(),
            author: self.auth_id.clone(),
            sent_at: self.sent_at,
        }
    }
}

impl TalkRoom {
    /// Joins an identity, its card and the latest event.
    pub fn from_parts(document_id: u64, primary_user_id: u64, c: TalkRoomCard, e: Event) -> (r:
        TalkRoom)
        ensures
            r == assemble(document_id, primary_user_id, c, e),
    {
        TalkRoom {
            document_id,
            primary_user_id,
            display_name: c.display_name,
            rsvp: c.rsvp,
            pinned: c.pinned,
            follow: c.follow,
            latest_message: e,
            latest_messaged_at: c.latest_messaged_at,
            sort_time: c.sort_time,
            created_at: c.created_at,
            updated_at: c.updated_at,
        }
    }
}

} // verus!

verus! {

/// The card that a talk room's read model gets once `e` is appended to it.
pub open spec fn appended_card(t: TalkRoom, e: Event) -> TalkRoomCard {
    TalkRoomCard {
        display_name: t.display_name,
        rsvp: t.rsvp,
        pinned: t.pinned,
        follow: t.follow,
        latest_event_id: e.id,
        latest_messaged_at: e.sent_at,
        sort_time: e.sent_at,
        created_at: t.created_at,
        updated_at: e.sent_at,
    }
}

} // verus!
