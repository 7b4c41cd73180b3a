//! The records that deletions are about: persons, communities, posts, comments and private
//! messages, each with the fields that a deletion reads or hands on.

use vstd::prelude::*;

use crate::urls::Url;

verus! {

/// Key of a person in the database.
#[derive(Clone, Copy, Debug, PartialEq, Eq, Structural)]
pub struct PersonId(pub i32);

/// Key of the account of a person who is registered on this instance.
#[derive(Clone, Copy, Debug, PartialEq, Eq, Structural)]
pub struct LocalUserId(pub i32);

/// Key of a community in the database.
#[derive(Clone, Copy, Debug, PartialEq, Eq, Structural)]
pub struct CommunityId(pub i32);

/// Key of a post in the database.
#[derive(Clone, Copy, Debug, PartialEq, Eq, Structural)]
pub struct PostId(pub i32);

/// Key of a comment in the database.
#[derive(Clone, Copy, Debug, PartialEq, Eq, Structural)]
pub struct CommentId(pub i32);

/// Key of a private message in the database.
#[derive(Clone, Copy, Debug, PartialEq, Eq, Structural)]
pub struct PrivateMessageId(pub i32);

/// A point in time in UTC: whole seconds since the Unix epoch, and the nanoseconds after that
/// second. Within a leap second the nanoseconds go on beyond one billion.
#[derive(Clone, Copy, Debug, PartialEq, Eq, Structural)]
pub struct Timestamp {
    pub secs: i64,
    pub nanos: u32,
}

/// The text of an optional string.
pub open spec fn text_of(s: Option<String>) -> Option<Seq<char>> {
    match s {
        Some(t) => Some(t@),
        None => None,
    }
}

/// A person, local or remote.
#[derive(Debug, PartialEq, Eq)]
pub struct Person {
    pub id: PersonId,
    pub name: String,
    pub actor_id: Url,
    pub published: Timestamp,
    pub inbox: Url,
    pub shared_inbox: Option<Url>,
}

/// The model of a [`Person`].
pub struct PersonView {
    pub id: PersonId,
    pub name: Seq<char>,
    pub actor_id: Seq<char>,
    pub published: Timestamp,
    pub inbox: Seq<char>,
    pub shared_inbox: Option<Seq<char>>,
}

impl View for Person {
    type V = PersonView;

    open spec fn view(&self) -> PersonView {
        PersonView {
            id: self.id,
            name: self.name@,
            actor_id: self.actor_id@,
            published: self.published,
            inbox: self.inbox@,
            shared_inbox: match self.shared_inbox {
                Some(u) => Some(u@),
                None => None,
            },
        }
    }
}

impl Clone for Person {
    fn clone(&self) -> (res: Self)
        ensures
            res@ == self@,
    {
        Person {
            id: self.id,
            name: self.name.clone(),
            actor_id: self.actor_id.clone(),
            published: self.published,
            inbox: self.inbox.clone(),
            shared_inbox: match &self.shared_inbox {
                Some(u) => Some(u.clone()),
                None => None,
            },
        }
    }
}

impl PersonView {
    /// The inbox that activities for this person are delivered to: the shared inbox of their
    /// instance where there is one, their own otherwise.
    pub open spec fn shared_inbox_or_inbox(self) -> Seq<char> {
        match self.shared_inbox {
            Some(u) => u,
            None => self.inbox,
        }
    }
}

impl Person {
    /// The URL that names this person in the federation.
    pub fn id(&self) -> (res: Url)
        ensures
            res@ == self@.actor_id,
    {
        self.actor_id.clone()
    }

    /// The inbox that activities for this person are delivered to: the shared inbox of their
    /// instance where there is one, their own otherwise.
    pub fn shared_inbox_or_inbox(&self) -> (res: Url)
        ensures
            res@ == self@.shared_inbox_or_inbox(),
    {
        match &self.shared_inbox {
            Some(u) => u.clone(),
            None => self.inbox.clone(),
        }
    }
}

/// A community, local or remote.
#[derive(Debug, PartialEq, Eq)]
pub struct Community {
    pub id: CommunityId,
    pub actor_id: Url,
    pub local: bool,
}

/// The model of a [`Community`].
pub struct CommunityView {
    pub id: CommunityId,
    pub actor_id: Seq<char>,
    pub local: bool,
}

impl View for Community {
    type V = CommunityView;

    open spec fn view(&self) -> CommunityView {
        CommunityView { id: self.id, actor_id: self.actor_id@, local: self.local }
    }
}

impl Clone for Community {
    fn clone(&self) -> (res: Self)
        ensures
            res@ == self@,
    {
        Community { id: self.id, actor_id: self.actor_id.clone(), local: self.local }
    }
}

impl Community {
    /// The URL that names this community in the federation.
    pub fn id(&self) -> (res: Url)
        ensures
            res@ == self@.actor_id,
    {
        self.actor_id.clone()
    }
}

/// A post.
#[derive(Debug, PartialEq, Eq)]
pub struct Post {
    pub id: PostId,
    pub ap_id: Url,
    pub deleted: bool,
}

/// The model of a [`Post`].
pub struct PostView {
    pub id: PostId,
    pub ap_id: Seq<char>,
    pub deleted: bool,
}

impl View for Post {
    type V = PostView;

    open spec fn view(&self) -> PostView {
        PostView { id: self.id, ap_id: self.ap_id@, deleted: self.deleted }
    }
}

/// A comment.
#[derive(Debug, PartialEq, Eq)]
pub struct Comment {
    pub id: CommentId,
    pub ap_id: Url,
    pub deleted: bool,
}

/// The model of a [`Comment`].
pub struct CommentView {
    pub id: CommentId,
    pub ap_id: Seq<char>,
    pub deleted: bool,
}

impl View for Comment {
    type V = CommentView;

    open spec fn view(&self) -> CommentView {
        CommentView { id: self.id, ap_id: self.ap_id@, deleted: self.deleted }
    }
}

/// A private message.
#[derive(Debug, PartialEq, Eq)]
pub struct PrivateMessage {
    pub id: PrivateMessageId,
    pub ap_id: Url,
    pub recipient_id: PersonId,
}

/// The model of a [`PrivateMessage`].
pub struct PrivateMessageView {
    pub id: PrivateMessageId,
    pub ap_id: Seq<char>,
    pub recipient_id: PersonId,
}

impl View for PrivateMessage {
    type V = PrivateMessageView;

    open spec fn view(&self) -> PrivateMessageView {
        PrivateMessageView { id: self.id, ap_id: self.ap_id@, recipient_id: self.recipient_id }
    }
}

/// An object that a deletion can be about.
#[derive(Debug, PartialEq, Eq)]
pub enum DeletableObjects {
    Community(Community),
    Person(Person),
    Comment(Comment),
    Post(Post),
    PrivateMessage(PrivateMessage),
}

/// The model of [`DeletableObjects`].
pub enum DeletableObjectsView {
    Community(CommunityView),
    Person(PersonView),
    Comment(CommentView),
    Post(PostView),
    PrivateMessage(PrivateMessageView),
}

impl View for DeletableObjects {
    type V = DeletableObjectsView;

    open spec fn view(&self) -> DeletableObjectsView {
        match self {
            DeletableObjects::Community(c) => DeletableObjectsView::Community(c@),
            DeletableObjects::Person(p) => DeletableObjectsView::Person(p@),
            DeletableObjects::Comment(c) => DeletableObjectsView::Comment(c@),
            DeletableObjects::Post(p) => DeletableObjectsView::Post(p@),
            DeletableObjects::PrivateMessage(p) => DeletableObjectsView::PrivateMessage(p@),
        }
    }
}

impl DeletableObjectsView {
    /// The URL that names the object in the federation.
    pub open spec fn id(self) -> Seq<char> {
        match self {
            DeletableObjectsView::Community(c) => c.actor_id,
            DeletableObjectsView::Person(p) => p.actor_id,
            DeletableObjectsView::Comment(c) => c.ap_id,
            DeletableObjectsView::Post(p) => p.ap_id,
            DeletableObjectsView::PrivateMessage(p) => p.ap_id,
        }
    }
}

impl DeletableObjects {
    /// The URL that names the object in the federation.
    pub fn id(&self) -> (res: Url)
        ensures
            res@ == self@.id(),
    {
        match self {
            DeletableObjects::Community(c) => c.id(),
            DeletableObjects::Person(p) => p.id(),
            DeletableObjects::Comment(c) => c.ap_id.clone(),
            DeletableObjects::Post(p) => p.ap_id.clone(),
            DeletableObjects::PrivateMessage(p) => p.ap_id.clone(),
        }
    }
}

} // verus!
