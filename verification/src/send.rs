//! Federating deletions that happened on this instance.

use vstd::pervasive::unreached;
use vstd::prelude::*;

use crate::actions::{Action, ActionView, DeletionError, NewActivity, NewActivityView, Reply};
use crate::activities::{
    ActivitySendTargets, ActivitySendTargetsView, AnnouncableActivities, AnnouncableActivitiesView,
    DeleteView, UndoDeleteView,
};
use crate::objects::{
    text_of, Community, CommunityView, DeletableObjects, DeletableObjectsView, Person, PersonView,
    PrivateMessage, PrivateMessageView,
};
use crate::program::{
    awaits, begins_with, command, continuation, failure, find_person, success, with_delete,
    with_undo_delete, Plan, Program, Progress, Workflow,
};
use crate::urls::{public, public_url, Url};

verus! {

/// Sends an activity to the followers of a community, and goes on.
pub open spec fn announce<E>(
    activity: AnnouncableActivitiesView,
    actor: PersonView,
    community: CommunityView,
    is_mod_action: bool,
    next: Program<E>,
) -> Program<E> {
    command(
        ActionView::SendActivityInCommunity {
            activity,
            actor,
            community,
            targets: ActivitySendTargetsView::Empty,
            is_mod_action,
        },
        next,
    )
}

/// Makes an activity, a deletion or the undoing of one, and announces it in a community.
pub open spec fn make_and_announce<E>(
    new: NewActivityView,
    deleted: bool,
    actor: PersonView,
    community: CommunityView,
    is_mod_action: bool,
    next: Program<E>,
) -> Program<E> {
    if deleted {
        with_delete(
            ActionView::NewDelete(new),
            |d: DeleteView|
                announce(
                    AnnouncableActivitiesView::Delete(d),
                    actor,
                    community,
                    is_mod_action,
                    next,
                ),
        )
    } else {
        with_undo_delete(
            ActionView::NewUndoDelete(new),
            |u: UndoDeleteView|
                announce(
                    AnnouncableActivitiesView::UndoDelete(u),
                    actor,
                    community,
                    is_mod_action,
                    next,
                ),
        )
    }
}

/// Tells the public, through a community, that `actor` has deleted `object` or, where `deleted`
/// is unset, has restored it; and goes on. With a `reason` it is the removal by a moderator.
pub open spec fn send_in_community<E>(
    actor: PersonView,
    community: CommunityView,
    object: DeletableObjectsView,
    reason: Option<Seq<char>>,
    deleted: bool,
    next: Program<E>,
) -> Program<E> {
    make_and_announce(
        NewActivityView {
            actor,
            object,
            to: public_url(),
            community: Some(community),
            summary: reason,
        },
        deleted,
        actor,
        community,
        reason is Some,
        next,
    )
}

/// The sending of a deletion to a community.
pub struct CommunitySend {
    step: CommunityStep,
}

#[allow(inconsistent_fields)]
enum CommunityStep {
    Make {
        new: Ghost<NewActivityView>,
        deleted: bool,
        actor: Person,
        community: Community,
        is_mod_action: bool,
    },
    Announce {
        activity: Ghost<AnnouncableActivitiesView>,
        actor: Ghost<PersonView>,
        community: Ghost<CommunityView>,
        is_mod_action: Ghost<bool>,
    },
}

impl CommunitySend {
    /// The rest of the sending, and `next` after it.
    pub closed spec fn program_before<E>(self, next: Program<E>) -> Program<E> {
        match self.step {
            CommunityStep::Make { new, deleted, actor, community, is_mod_action } =>
                make_and_announce(new@, deleted, actor@, community@, is_mod_action, next),
            CommunityStep::Announce { activity, actor, community, is_mod_action } => announce(
                activity@,
                actor@,
                community@,
                is_mod_action@,
                next,
            ),
        }
    }

    /// Takes the reply to the action that was handed out last, whatever is to come after the
    /// sending.
    pub(crate) fn proceed<E>(self, reply: Reply<E>) -> (res: Progress<CommunitySend, E>)
        requires
            exists|next: Program<E>| awaits(#[trigger] self.program_before(next), reply@),
        ensures
            res matches Progress::Await(s, a) ==> forall|next: Program<E>|
                begins_with(#[trigger] s.program_before(next), a@),
            forall|next: Program<E>|
                continuation(#[trigger] self.program_before(next), reply@) == (match res {
                    Progress::Await(s, _) => s.program_before(next),
                    Progress::Complete(Ok(_)) => next,
                    Progress::Complete(Err(e)) => failure(e),
                }),
    {
        match self.step {
            CommunityStep::Make { new, deleted, actor, community, is_mod_action } => {
                let activity: AnnouncableActivities = match reply {
                    Reply::NewDelete(Ok(d)) => AnnouncableActivities::Delete(d),
                    Reply::NewUndoDelete(Ok(u)) => AnnouncableActivities::UndoDelete(u),
                    Reply::NewDelete(Err(e)) | Reply::NewUndoDelete(Err(e)) => {
                        return Progress::Complete(Err(DeletionError::Service(e)));
                    },
                    _ => unreached(),
                };
                let step = CommunityStep::Announce {
                    activity: Ghost(activity@),
                    actor: Ghost(actor@),
                    community: Ghost(community@),
                    is_mod_action: Ghost(is_mod_action),
                };
                Progress::Await(
                    CommunitySend { step },
                    Action::SendActivityInCommunity {
                        activity,
                        actor,
                        community,
                        targets: ActivitySendTargets::Empty,
                        is_mod_action,
                    },
                )
            },
            CommunityStep::Announce { .. } => match reply {
                Reply::Done(Err(e)) => Progress::Complete(Err(DeletionError::Service(e))),
                _ => Progress::Complete(Ok(())),
            },
        }
    }
}

impl<E> Plan<E> for CommunitySend {
    open spec fn program(self) -> Program<E> {
        self.program_before(success())
    }
}

impl<E> Workflow<E> for CommunitySend {
    fn resume(self, reply: Reply<E>) -> (next: Progress<Self, E>) {
        let next = self.proceed(reply);
        assert(next matches Progress::Complete(Ok(u)) ==> u == ());
        next
    }
}

/// Starts to tell a community that `actor` has deleted `object` or, where `deleted` is unset,
/// has restored it.
///
/// Parameter `reason` being set indicates that this is a removal by a mod. If it is unset, this
/// action was done by a normal user.
pub fn send_apub_delete_in_community<E>(
    actor: Person,
    community: Community,
    object: DeletableObjects,
    reason: Option<String>,
    deleted: bool,
) -> (res: Progress<CommunitySend, E>)
    ensures
        res.well_formed(),
        res.program() == send_in_community::<E>(
            actor@,
            community@,
            object@,
            text_of(reason),
            deleted,
            success(),
        ),
        res matches Progress::Await(s, a) && forall|next: Program<E>| #[trigger]
            s.program_before(next) == send_in_community(
                actor@,
                community@,
                object@,
                text_of(reason),
                deleted,
                next,
            ) && begins_with(s.program_before(next), a@),
{
    let is_mod_action = reason.is_some();
    let new = NewActivity {
        actor: actor.clone(),
        object,
        to: public(),
        community: Some(community.clone()),
        summary: reason,
    };
    let step = CommunityStep::Make { new: Ghost(new@), deleted, actor, community, is_mod_action };
    let action = if deleted {
        Action::NewDelete(new)
    } else {
        Action::NewUndoDelete(new)
    };
    Progress::Await(CommunitySend { step }, action)
}

/// Sends an activity to the given targets.
pub open spec fn send<E>(
    activity: AnnouncableActivitiesView,
    actor: PersonView,
    targets: ActivitySendTargetsView,
) -> Program<E> {
    command(
        ActionView::SendLemmyActivity { activity, actor, targets, sensitive: true },
        success(),
    )
}

/// Makes an activity, a deletion or the undoing of one, and sends it to the given targets.
pub open spec fn make_and_send<E>(
    new: NewActivityView,
    deleted: bool,
    actor: PersonView,
    targets: ActivitySendTargetsView,
) -> Program<E> {
    if deleted {
        with_delete(
            ActionView::NewDelete(new),
            |d: DeleteView| send(AnnouncableActivitiesView::Delete(d), actor, targets),
        )
    } else {
        with_undo_delete(
            ActionView::NewUndoDelete(new),
            |u: UndoDeleteView| send(AnnouncableActivitiesView::UndoDelete(u), actor, targets),
        )
    }
}

/// Tells the recipient of a private message, and nobody else, that `actor` has deleted the
/// message or, where `deleted` is unset, has restored it.
pub open spec fn send_to_recipient<E>(
    actor: PersonView,
    pm: PrivateMessageView,
    deleted: bool,
    recipient: PersonView,
) -> Program<E> {
    make_and_send(
        NewActivityView {
            actor,
            object: DeletableObjectsView::PrivateMessage(pm),
            to: recipient.actor_id,
            community: None,
            summary: None,
        },
        deleted,
        actor,
        ActivitySendTargetsView::Inbox(recipient.shared_inbox_or_inbox()),
    )
}

/// Looks up the recipient of a private message and tells them of its deletion or restoring.
pub open spec fn send_private_message<E>(
    actor: PersonView,
    pm: PrivateMessageView,
    deleted: bool,
) -> Program<E> {
    find_person(
        ActionView::ReadPerson(pm.recipient_id),
        |recipient: PersonView| send_to_recipient(actor, pm, deleted, recipient),
    )
}

/// The sending of the deletion of a private message.
pub struct PrivateMessageSend {
    step: PrivateMessageStep,
}

#[allow(inconsistent_fields)]
enum PrivateMessageStep {
    FindRecipient { actor: Person, pm: PrivateMessage, deleted: bool },
    Make { new: Ghost<NewActivityView>, deleted: bool, actor: Person, inbox: Url },
    Send {
        activity: Ghost<AnnouncableActivitiesView>,
        actor: Ghost<PersonView>,
        targets: Ghost<ActivitySendTargetsView>,
    },
}

impl<E> Plan<E> for PrivateMessageSend {
    closed spec fn program(self) -> Program<E> {
        match self.step {
            PrivateMessageStep::FindRecipient { actor, pm, deleted } => send_private_message(
                actor@,
                pm@,
                deleted,
            ),
            PrivateMessageStep::Make { new, deleted, actor, inbox } => make_and_send(
                new@,
                deleted,
                actor@,
                ActivitySendTargetsView::Inbox(inbox@),
            ),
            PrivateMessageStep::Send { activity, actor, targets } => send(
                activity@,
                actor@,
                targets@,
            ),
        }
    }
}

impl<E> Workflow<E> for PrivateMessageSend {
    fn resume(self, reply: Reply<E>) -> (next: Progress<Self, E>) {
        match self.step {
            PrivateMessageStep::FindRecipient { actor, pm, deleted } => match reply {
                Reply::FoundPerson(Ok(Some(recipient))) => {
                    let inbox = recipient.shared_inbox_or_inbox();
                    let new = NewActivity {
                        actor: actor.clone(),
                        object: DeletableObjects::PrivateMessage(pm),
                        to: recipient.id(),
                        community: None,
                        summary: None,
                    };
                    let step = PrivateMessageStep::Make { new: Ghost(new@), deleted, actor, inbox };
                    let action = if deleted {
                        Action::NewDelete(new)
                    } else {
                        Action::NewUndoDelete(new)
                    };
                    Progress::Await(PrivateMessageSend { step }, action)
                },
                Reply::FoundPerson(Ok(None)) => {
                    Progress::Complete(Err(DeletionError::CouldntFindPerson))
                },
                Reply::FoundPerson(Err(e)) => Progress::Complete(Err(DeletionError::Service(e))),
                _ => unreached(),
            },
            PrivateMessageStep::Make { new, deleted, actor, inbox } => {
                let activity: AnnouncableActivities = match reply {
                    Reply::NewDelete(Ok(d)) => AnnouncableActivities::Delete(d),
                    Reply::NewUndoDelete(Ok(u)) => AnnouncableActivities::UndoDelete(u),
                    Reply::NewDelete(Err(e)) | Reply::NewUndoDelete(Err(e)) => {
                        return Progress::Complete(Err(DeletionError::Service(e)));
                    },
                    _ => unreached(),
                };
                let targets = ActivitySendTargets::Inbox(inbox);
                let step = PrivateMessageStep::Send {
                    activity: Ghost(activity@),
                    actor: Ghost(actor@),
                    targets: Ghost(targets@),
                };
                Progress::Await(
                    PrivateMessageSend { step },
                    Action::SendLemmyActivity { activity, actor, targets, sensitive: true },
                )
            },
            PrivateMessageStep::Send { .. } => match reply {
                Reply::Done(Err(e)) => Progress::Complete(Err(DeletionError::Service(e))),
                _ => Progress::Complete(Ok(())),
            },
        }
    }
}

/// Starts to tell the recipient of a private message that `actor` has deleted the message or,
/// where `deleted` is unset, has restored it.
pub fn send_apub_delete_private_message<E>(
    actor: &Person,
    pm: PrivateMessage,
    deleted: bool,
) -> (res: Progress<PrivateMessageSend, E>)
    ensures
        res.well_formed(),
        res.program() == send_private_message::<E>(actor@, pm@, deleted),
{
    let action = Action::ReadPerson(pm.recipient_id);
    let step = PrivateMessageStep::FindRecipient { actor: actor.clone(), pm, deleted };
    Progress::Await(PrivateMessageSend { step }, action)
}

/// Tells all instances that a person has deleted their account, and whether what they wrote goes
/// too.
pub open spec fn send_user<E>(person: PersonView, remove_data: bool) -> Program<E> {
    with_delete(
        ActionView::NewDelete(
            NewActivityView {
                actor: person,
                object: DeletableObjectsView::Person(person),
                to: public_url(),
                community: None,
                summary: None,
            },
        ),
        |d: DeleteView|
            send(
                AnnouncableActivitiesView::Delete(
                    DeleteView { remove_data: Some(remove_data), ..d },
                ),
                person,
                ActivitySendTargetsView::AllInstances,
            ),
    )
}

/// The sending of the deletion of an account.
pub struct UserSend {
    step: UserStep,
}

#[allow(inconsistent_fields)]
enum UserStep {
    Make { person: Person, remove_data: bool },
    Send { activity: Ghost<AnnouncableActivitiesView>, person: Ghost<PersonView> },
}

impl<E> Plan<E> for UserSend {
    closed spec fn program(self) -> Program<E> {
        match self.step {
            UserStep::Make { person, remove_data } => send_user(person@, remove_data),
            UserStep::Send { activity, person } => send(
                activity@,
                person@,
                ActivitySendTargetsView::AllInstances,
            ),
        }
    }
}

impl<E> Workflow<E> for UserSend {
    fn resume(self, reply: Reply<E>) -> (next: Progress<Self, E>) {
        match self.step {
            UserStep::Make { person, remove_data } => match reply {
                Reply::NewDelete(Ok(delete)) => {
                    let mut delete = delete;
                    delete.remove_data = Some(remove_data);
                    let activity = AnnouncableActivities::Delete(delete);
                    let step = UserStep::Send {
                        activity: Ghost(activity@),
                        person: Ghost(person@),
                    };
                    Progress::Await(
                        UserSend { step },
                        Action::SendLemmyActivity {
                            activity,
                            actor: person,
                            targets: ActivitySendTargets::AllInstances,
                            sensitive: true,
                        },
                    )
                },
                Reply::NewDelete(Err(e)) => Progress::Complete(Err(DeletionError::Service(e))),
                _ => unreached(),
            },
            UserStep::Send { .. } => match reply {
                Reply::Done(Err(e)) => Progress::Complete(Err(DeletionError::Service(e))),
                _ => Progress::Complete(Ok(())),
            },
        }
    }
}

/// Starts to tell all instances that a person has deleted their account, and whether what they
/// wrote goes too.
pub fn send_apub_delete_user<E>(person: Person, remove_data: bool) -> (res: Progress<UserSend, E>)
    ensures
        res.well_formed(),
        res.program() == send_user::<E>(person@, remove_data),
{
    let new = NewActivity {
        actor: person.clone(),
        object: DeletableObjects::Person(person.clone()),
        to: public(),
        community: None,
        summary: None,
    };
    Progress::Await(
        UserSend { step: UserStep::Make { person, remove_data } },
        Action::NewDelete(new),
    )
}

} // verus!
