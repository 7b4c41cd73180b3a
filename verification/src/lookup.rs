//! Finding the object that a URL names.

use vstd::prelude::*;

use crate::actions::{Action, ActionView, DeletionError, ObjectKind, Reply, ReplyView};
use crate::objects::{DeletableObjects, DeletableObjectsView};
use crate::program::{failure, Program};
use crate::urls::Url;

verus! {

impl ObjectKind {
    /// The kind that is searched after this one.
    pub open spec fn successor(self) -> Option<ObjectKind> {
        match self {
            ObjectKind::Community => Some(ObjectKind::Person),
            ObjectKind::Person => Some(ObjectKind::Post),
            ObjectKind::Post => Some(ObjectKind::Comment),
            ObjectKind::Comment => Some(ObjectKind::PrivateMessage),
            ObjectKind::PrivateMessage => None,
        }
    }

    /// The kind that is searched after this one.
    fn next(self) -> (res: Option<ObjectKind>)
        ensures
            res == self.successor(),
    {
        match self {
            ObjectKind::Community => Some(ObjectKind::Person),
            ObjectKind::Person => Some(ObjectKind::Post),
            ObjectKind::Post => Some(ObjectKind::Comment),
            ObjectKind::Comment => Some(ObjectKind::PrivateMessage),
            ObjectKind::PrivateMessage => None,
        }
    }
}

/// The object in the reply to a search for an object of this kind.
pub open spec fn found<E>(kind: ObjectKind, reply: ReplyView<E>) -> Result<
    Option<DeletableObjectsView>,
    E,
> {
    match kind {
        ObjectKind::Community => match reply->FoundCommunity_0 {
            Ok(Some(c)) => Ok(Some(DeletableObjectsView::Community(c))),
            Ok(None) => Ok(None),
            Err(e) => Err(e),
        },
        ObjectKind::Person => match reply->FoundPerson_0 {
            Ok(Some(p)) => Ok(Some(DeletableObjectsView::Person(p))),
            Ok(None) => Ok(None),
            Err(e) => Err(e),
        },
        ObjectKind::Post => match reply->FoundPost_0 {
            Ok(Some(p)) => Ok(Some(DeletableObjectsView::Post(p))),
            Ok(None) => Ok(None),
            Err(e) => Err(e),
        },
        ObjectKind::Comment => match reply->FoundComment_0 {
            Ok(Some(c)) => Ok(Some(DeletableObjectsView::Comment(c))),
            Ok(None) => Ok(None),
            Err(e) => Err(e),
        },
        ObjectKind::PrivateMessage => match reply->FoundPrivateMessage_0 {
            Ok(Some(p)) => Ok(Some(DeletableObjectsView::PrivateMessage(p))),
            Ok(None) => Ok(None),
            Err(e) => Err(e),
        },
    }
}

/// Searches for the object of this kind with the URL `ap_id`: goes on with the object where there
/// is one, and otherwise in the other way.
pub open spec fn search<E>(
    kind: ObjectKind,
    ap_id: Seq<char>,
    next: spec_fn(DeletableObjectsView) -> Program<E>,
    otherwise: Program<E>,
) -> Program<E> {
    Program::Perform(
        ActionView::ReadFromId { kind, ap_id },
        |r: ReplyView<E>|
            match found(kind, r) {
                Ok(Some(o)) => next(o),
                Ok(None) => otherwise,
                Err(e) => failure(DeletionError::Service(e)),
            },
    )
}

/// Searches for the object with the URL `ap_id`, among the objects of this kind first and then
/// of each kind after it, and goes on with the first one found.
pub open spec fn lookup<E>(
    kind: ObjectKind,
    ap_id: Seq<char>,
    next: spec_fn(DeletableObjectsView) -> Program<E>,
) -> Program<E> {
    let nothing = failure(DeletionError::NotFound);
    let private_message = search(ObjectKind::PrivateMessage, ap_id, next, nothing);
    let comment = search(ObjectKind::Comment, ap_id, next, private_message);
    let post = search(ObjectKind::Post, ap_id, next, comment);
    let person = search(ObjectKind::Person, ap_id, next, post);
    let community = search(ObjectKind::Community, ap_id, next, person);
    match kind {
        ObjectKind::Community => community,
        ObjectKind::Person => person,
        ObjectKind::Post => post,
        ObjectKind::Comment => comment,
        ObjectKind::PrivateMessage => private_message,
    }
}

/// Searches for the object with the URL `ap_id` among all objects: communities, persons, posts,
/// comments and private messages, in this order.
pub open spec fn lookup_object<E>(
    ap_id: Seq<char>,
    next: spec_fn(DeletableObjectsView) -> Program<E>,
) -> Program<E> {
    lookup(ObjectKind::Community, ap_id, next)
}

/// A search for the object that a URL names, which waits for the reply on one kind of object.
#[derive(Debug)]
pub struct Lookup {
    ap_id: Url,
    kind: ObjectKind,
}

/// How far a search has come.
#[derive(Debug)]
pub enum LookupProgress<E> {
    /// The action is to be performed next, and its reply given to the search.
    Await(Lookup, Action),
    /// The search is over.
    Complete(Result<DeletableObjects, DeletionError<E>>),
}

impl Lookup {
    /// The kind of object that the search waits for.
    pub closed spec fn kind(self) -> ObjectKind {
        self.kind
    }

    /// The URL that is searched for.
    pub closed spec fn ap_id(self) -> Seq<char> {
        self.ap_id@
    }

    /// The rest of the search, and `next` after it.
    pub open spec fn program_with<E>(
        self,
        next: spec_fn(DeletableObjectsView) -> Program<E>,
    ) -> Program<E> {
        lookup(self.kind(), self.ap_id(), next)
    }

    /// Takes the reply on one kind of object: ends the search where there is an object or the
    /// action failed, and goes on to the next kind otherwise.
    pub fn resume<E>(self, reply: Reply<E>) -> (res: LookupProgress<E>)
        requires
            (ActionView::ReadFromId { kind: self.kind(), ap_id: self.ap_id() }).admits(reply@),
        ensures
            match found(self.kind(), reply@) {
                Ok(Some(o)) => res matches LookupProgress::Complete(Ok(p)) && p@ == o,
                Ok(None) => match self.kind().successor() {
                    Some(k) => {
                        &&& res matches LookupProgress::Await(l, a)
                        &&& l.kind() == k
                        &&& l.ap_id() == self.ap_id()
                        &&& a@ == (ActionView::ReadFromId { kind: k, ap_id: self.ap_id() })
                    },
                    None => res == LookupProgress::<E>::Complete(Err(DeletionError::NotFound)),
                },
                Err(e) => res == LookupProgress::<E>::Complete(Err(DeletionError::Service(e))),
            },
    {
        let found: Result<Option<DeletableObjects>, E> = match reply {
            Reply::FoundCommunity(Ok(Some(c))) => Ok(Some(DeletableObjects::Community(c))),
            Reply::FoundPerson(Ok(Some(p))) => Ok(Some(DeletableObjects::Person(p))),
            Reply::FoundPost(Ok(Some(p))) => Ok(Some(DeletableObjects::Post(p))),
            Reply::FoundComment(Ok(Some(c))) => Ok(Some(DeletableObjects::Comment(c))),
            Reply::FoundPrivateMessage(Ok(Some(p))) => Ok(
                Some(DeletableObjects::PrivateMessage(p)),
            ),
            Reply::FoundCommunity(Err(e))
            | Reply::FoundPerson(Err(e))
            | Reply::FoundPost(Err(e))
            | Reply::FoundComment(Err(e))
            | Reply::FoundPrivateMessage(Err(e)) => Err(e),
            _ => Ok(None),
        };
        match found {
            Ok(Some(o)) => LookupProgress::Complete(Ok(o)),
            Ok(None) => match self.kind.next() {
                Some(k) => {
                    let action = Action::ReadFromId { kind: k, ap_id: self.ap_id.clone() };
                    LookupProgress::Await(Lookup { ap_id: self.ap_id, kind: k }, action)
                },
                None => LookupProgress::Complete(Err(DeletionError::NotFound)),
            },
            Err(e) => LookupProgress::Complete(Err(DeletionError::Service(e))),
        }
    }
}

impl DeletableObjects {
    /// Starts the search for the object that a URL names. Communities are searched first.
    pub fn read_from_db(ap_id: &Url) -> (res: (Lookup, Action))
        ensures
            res.0.kind() == ObjectKind::Community,
            res.0.ap_id() == ap_id@,
            res.1@ == (ActionView::ReadFromId { kind: ObjectKind::Community, ap_id: ap_id@ }),
    {
        (
            Lookup { ap_id: ap_id.clone(), kind: ObjectKind::Community },
            Action::ReadFromId { kind: ObjectKind::Community, ap_id: ap_id.clone() },
        )
    }
}

} // verus!
