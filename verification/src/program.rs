//! The behaviour of a deletion as a whole.
//!
//! A [`Program`] says which action comes first and, for each reply to it, how it goes on. The
//! contracts of this crate state the behaviour of every deletion as a program; the executable
//! types stand for what is left of a program once some of the replies are in.

use vstd::prelude::*;

use crate::actions::{Action, ActionView, DeletionError, Reply, ReplyView};
use crate::activities::{DeleteView, UndoDeleteView};
use crate::objects::{CommunityId, CommunityView, PersonView, Timestamp};

verus! {

/// What there is to do, and what comes of it.
#[verifier::reject_recursive_types(E)]
pub enum Program<E> {
    /// Nothing is left to do, and this is the result.
    Return(Result<(), DeletionError<E>>),
    /// Perform the action, then go on in the way that the reply decides.
    Perform(ActionView, spec_fn(ReplyView<E>) -> Program<E>),
}

/// How the program goes on after a reply. One that has returned stays as it is.
pub open spec fn continuation<E>(p: Program<E>, reply: ReplyView<E>) -> Program<E> {
    match p {
        Program::Return(_) => p,
        Program::Perform(_, k) => k(reply),
    }
}

/// The program waits for a reply of this form.
pub open spec fn awaits<E>(p: Program<E>, reply: ReplyView<E>) -> bool {
    p matches Program::Perform(a, _) && a.admits(reply)
}

/// The program begins with this action.
pub open spec fn begins_with<E>(p: Program<E>, a: ActionView) -> bool {
    p matches Program::Perform(b, _) && b == a
}

/// The program waits for each of these replies in turn.
pub open spec fn conforms<E>(p: Program<E>, replies: Seq<ReplyView<E>>) -> bool
    decreases replies.len(),
{
    replies.len() == 0 || (awaits(p, replies[0]) && conforms(
        continuation(p, replies[0]),
        replies.skip(1),
    ))
}

/// What is left of the program after these replies.
pub open spec fn remainder<E>(p: Program<E>, replies: Seq<ReplyView<E>>) -> Program<E>
    decreases replies.len(),
{
    if replies.len() == 0 {
        p
    } else {
        remainder(continuation(p, replies[0]), replies.skip(1))
    }
}

/// The actions that have been handed out when these replies are in, in order. The last one still
/// waits for its reply, unless the program has returned.
pub open spec fn actions<E>(p: Program<E>, replies: Seq<ReplyView<E>>) -> Seq<ActionView>
    decreases replies.len(),
{
    match p {
        Program::Return(_) => seq![],
        Program::Perform(a, k) => if replies.len() == 0 {
            seq![a]
        } else {
            seq![a] + actions(k(replies[0]), replies.skip(1))
        },
    }
}

/// The program of a deletion that has gone through.
pub open spec fn success<E>() -> Program<E> {
    Program::Return(Ok(()))
}

/// The program of a deletion that has been given up.
pub open spec fn failure<E>(e: DeletionError<E>) -> Program<E> {
    Program::Return(Err(e))
}

/// Performs an action that has to succeed, then goes on.
pub open spec fn command<E>(a: ActionView, next: Program<E>) -> Program<E> {
    Program::Perform(
        a,
        |r: ReplyView<E>|
            match r->Done_0 {
                Ok(_) => next,
                Err(e) => failure(DeletionError::Service(e)),
            },
    )
}

/// Performs an action that may fail, and goes on either way.
pub open spec fn attempt<E>(a: ActionView, next: Program<E>) -> Program<E> {
    Program::Perform(a, |r: ReplyView<E>| next)
}

/// Performs a search for a person who has to exist.
pub open spec fn find_person<E>(
    a: ActionView,
    next: spec_fn(PersonView) -> Program<E>,
) -> Program<E> {
    Program::Perform(
        a,
        |r: ReplyView<E>|
            match r->FoundPerson_0 {
                Ok(Some(p)) => next(p),
                Ok(None) => failure(DeletionError::CouldntFindPerson),
                Err(e) => failure(DeletionError::Service(e)),
            },
    )
}

/// Performs an action that yields a person.
pub open spec fn with_person<E>(
    a: ActionView,
    next: spec_fn(PersonView) -> Program<E>,
) -> Program<E> {
    Program::Perform(
        a,
        |r: ReplyView<E>|
            match r->Person_0 {
                Ok(p) => next(p),
                Err(e) => failure(DeletionError::Service(e)),
            },
    )
}

/// Performs an update of a person, which yields the person as updated.
pub open spec fn update_person<E>(
    a: ActionView,
    next: spec_fn(PersonView) -> Program<E>,
) -> Program<E> {
    Program::Perform(
        a,
        |r: ReplyView<E>|
            match r->Person_0 {
                Ok(p) => next(p),
                Err(e) => failure(DeletionError::CouldntUpdateUser(e)),
            },
    )
}

/// Performs an action that yields a community.
pub open spec fn with_community<E>(
    a: ActionView,
    next: spec_fn(CommunityView) -> Program<E>,
) -> Program<E> {
    Program::Perform(
        a,
        |r: ReplyView<E>|
            match r->Community_0 {
                Ok(c) => next(c),
                Err(e) => failure(DeletionError::Service(e)),
            },
    )
}

/// Performs an action that yields a list of communities.
pub open spec fn with_community_ids<E>(
    a: ActionView,
    next: spec_fn(Seq<CommunityId>) -> Program<E>,
) -> Program<E> {
    Program::Perform(
        a,
        |r: ReplyView<E>|
            match r->CommunityIds_0 {
                Ok(ids) => next(ids),
                Err(e) => failure(DeletionError::Service(e)),
            },
    )
}

/// Performs an action that yields a deletion activity.
pub open spec fn with_delete<E>(
    a: ActionView,
    next: spec_fn(DeleteView) -> Program<E>,
) -> Program<E> {
    Program::Perform(
        a,
        |r: ReplyView<E>|
            match r->NewDelete_0 {
                Ok(d) => next(d),
                Err(e) => failure(DeletionError::Service(e)),
            },
    )
}

/// Performs an action that yields an activity which takes a deletion back.
pub open spec fn with_undo_delete<E>(
    a: ActionView,
    next: spec_fn(UndoDeleteView) -> Program<E>,
) -> Program<E> {
    Program::Perform(
        a,
        |r: ReplyView<E>|
            match r->NewUndoDelete_0 {
                Ok(u) => next(u),
                Err(e) => failure(DeletionError::Service(e)),
            },
    )
}

/// Reads the time, to go back from it by a number of days.
pub open spec fn with_time<E>(
    days_back: u64,
    next: spec_fn(Timestamp) -> Program<E>,
) -> Program<E> {
    Program::Perform(ActionView::ReadClock { days_back }, |r: ReplyView<E>| next(r->Time_0))
}

/// What the state of a deletion stands for.
pub trait Plan<E>: Sized {
    /// What is left to do. It begins with the action that was handed out last, to which there is
    /// no reply yet.
    spec fn program(self) -> Program<E>;
}

/// How far a deletion has come.
#[derive(Debug)]
pub enum Progress<S, E> {
    /// The action is to be performed next, and its reply given to the state.
    Await(S, Action),
    /// The deletion is over.
    Complete(Result<(), DeletionError<E>>),
}

impl<S: Plan<E>, E> Progress<S, E> {
    /// What is left to do.
    pub open spec fn program(self) -> Program<E> {
        match self {
            Progress::Await(s, _) => s.program(),
            Progress::Complete(r) => Program::Return(r),
        }
    }

    /// The action that is handed out is the one that the program begins with.
    pub open spec fn well_formed(self) -> bool {
        match self {
            Progress::Await(s, a) => begins_with(s.program(), a@),
            Progress::Complete(_) => true,
        }
    }
}

/// The state of a deletion, which replies carry forward.
pub trait Workflow<E>: Plan<E> {
    /// Takes the reply to the action that was handed out last.
    fn resume(self, reply: Reply<E>) -> (next: Progress<Self, E>)
        requires
            awaits(self.program(), reply@),
        ensures
            next.program() == continuation(self.program(), reply@),
            next.well_formed(),
    ;
}

} // verus!
