//! What is asked and answered when a deletion is sent out.

use vstd::prelude::*;

use crate::actions::{ActionView, DeletionError, NewActivityView, ReplyView};
use crate::activities::{
    ActivitySendTargetsView, AnnouncableActivitiesView, DeleteView, UndoDeleteView,
};
use crate::dialogue_laws::{cause, dialogue, errors_have_causes, fails_for_causes};
use crate::objects::{CommunityView, DeletableObjectsView, PersonView, PrivateMessageView};
use crate::program::{actions, conforms, remainder, success, Program};
use crate::send::{
    announce, make_and_send, send, send_in_community, send_private_message, send_to_recipient,
    send_user,
};

verus! {

/// The inbox of a person is the shared one of their instance exactly where there is one.
pub proof fn a_shared_inbox_goes_first(person: PersonView)
    ensures
        person.shared_inbox matches Some(inbox) ==> person.shared_inbox_or_inbox() == inbox,
        person.shared_inbox is None ==> person.shared_inbox_or_inbox() == person.inbox,
{
}

/// The deletion of an object is made into an activity and sent in the community, whichever
/// community it is and whatever the object; and then what is to follow follows.
pub proof fn a_deletion_is_sent_in_the_community<E>(
    actor: PersonView,
    community: CommunityView,
    object: DeletableObjectsView,
    reason: Option<Seq<char>>,
    next: Program<E>,
    delete: DeleteView,
)
    ensures
        dialogue(
            send_in_community(actor, community, object, reason, true, next),
            seq![
                (
                    ActionView::NewDelete(
                        NewActivityView {
                            actor,
                            object,
                            to: "https://www.w3.org/ns/activitystreams#Public"@,
                            community: Some(community),
                            summary: reason,
                        },
                    ),
                    ReplyView::NewDelete(Ok(delete)),
                ),
                (
                    ActionView::SendActivityInCommunity {
                        activity: AnnouncableActivitiesView::Delete(delete),
                        actor,
                        community,
                        targets: ActivitySendTargetsView::Empty,
                        is_mod_action: reason is Some,
                    },
                    ReplyView::Done(Ok(())),
                ),
            ],
            next,
        ),
{
    reveal_with_fuel(dialogue, 4);
}

/// The restoring of an object is made into the undoing of a deletion and sent in the community,
/// whichever community it is and whatever the object; and then what is to follow follows.
pub proof fn a_restoring_is_sent_in_the_community<E>(
    actor: PersonView,
    community: CommunityView,
    object: DeletableObjectsView,
    reason: Option<Seq<char>>,
    next: Program<E>,
    undo: UndoDeleteView,
)
    ensures
        dialogue(
            send_in_community(actor, community, object, reason, false, next),
            seq![
                (
                    ActionView::NewUndoDelete(
                        NewActivityView {
                            actor,
                            object,
                            to: "https://www.w3.org/ns/activitystreams#Public"@,
                            community: Some(community),
                            summary: reason,
                        },
                    ),
                    ReplyView::NewUndoDelete(Ok(undo)),
                ),
                (
                    ActionView::SendActivityInCommunity {
                        activity: AnnouncableActivitiesView::UndoDelete(undo),
                        actor,
                        community,
                        targets: ActivitySendTargetsView::Empty,
                        is_mod_action: reason is Some,
                    },
                    ReplyView::Done(Ok(())),
                ),
            ],
            next,
        ),
{
    reveal_with_fuel(dialogue, 4);
}

/// The search for the recipient of a private message, and the recipient that was found.
pub open spec fn recipient_found<E>(pm: PrivateMessageView, recipient: PersonView) -> (
    ActionView,
    ReplyView<E>,
) {
    (ActionView::ReadPerson(pm.recipient_id), ReplyView::FoundPerson(Ok(Some(recipient))))
}

/// What tells the recipient of a private message, and nobody else, of its fate.
pub open spec fn news_for(
    actor: PersonView,
    pm: PrivateMessageView,
    recipient: PersonView,
) -> NewActivityView {
    NewActivityView {
        actor,
        object: DeletableObjectsView::PrivateMessage(pm),
        to: recipient.actor_id,
        community: None,
        summary: None,
    }
}

/// The inbox that a person gets their news in.
pub open spec fn inbox_of(person: PersonView) -> ActivitySendTargetsView {
    ActivitySendTargetsView::Inbox(
        if person.shared_inbox is Some {
            person.shared_inbox->0
        } else {
            person.inbox
        },
    )
}

/// A recipient who exists is told of the deletion of a private message, whatever inboxes they
/// have.
pub proof fn a_recipient_is_told_of_a_deletion<E>(
    actor: PersonView,
    pm: PrivateMessageView,
    recipient: PersonView,
    delete: DeleteView,
)
    ensures
        dialogue(
            send_private_message::<E>(actor, pm, true),
            seq![
                recipient_found(pm, recipient),
                (
                    ActionView::NewDelete(news_for(actor, pm, recipient)),
                    ReplyView::NewDelete(Ok(delete)),
                ),
                (
                    ActionView::SendLemmyActivity {
                        activity: AnnouncableActivitiesView::Delete(delete),
                        actor,
                        targets: inbox_of(recipient),
                        sensitive: true,
                    },
                    ReplyView::Done(Ok(())),
                ),
            ],
            Program::Return(Ok(())),
        ),
{
    reveal_with_fuel(dialogue, 5);
}

/// A recipient who exists is told of the restoring of a private message, whatever inboxes they
/// have.
pub proof fn a_recipient_is_told_of_a_restoring<E>(
    actor: PersonView,
    pm: PrivateMessageView,
    recipient: PersonView,
    undo: UndoDeleteView,
)
    ensures
        dialogue(
            send_private_message::<E>(actor, pm, false),
            seq![
                recipient_found(pm, recipient),
                (
                    ActionView::NewUndoDelete(news_for(actor, pm, recipient)),
                    ReplyView::NewUndoDelete(Ok(undo)),
                ),
                (
                    ActionView::SendLemmyActivity {
                        activity: AnnouncableActivitiesView::UndoDelete(undo),
                        actor,
                        targets: inbox_of(recipient),
                        sensitive: true,
                    },
                    ReplyView::Done(Ok(())),
                ),
            ],
            Program::Return(Ok(())),
        ),
{
    reveal_with_fuel(dialogue, 5);
}

/// A recipient who does not exist is an error.
pub proof fn a_recipient_has_to_exist<E>(actor: PersonView, pm: PrivateMessageView, deleted: bool)
    ensures
        dialogue(
            send_private_message::<E>(actor, pm, deleted),
            seq![(ActionView::ReadPerson(pm.recipient_id), ReplyView::FoundPerson(Ok(None)))],
            Program::Return(Err(DeletionError::CouldntFindPerson)),
        ),
{
    reveal_with_fuel(dialogue, 3);
}

/// All instances are told of the deletion of an account, and whether its content goes too; nothing
/// else about the activity that was made is changed.
pub proof fn all_instances_are_told_of_a_deleted_account<E>(
    person: PersonView,
    remove_data: bool,
    delete: DeleteView,
)
    ensures
        dialogue(
            send_user::<E>(person, remove_data),
            seq![
                (
                    ActionView::NewDelete(
                        NewActivityView {
                            actor: person,
                            object: DeletableObjectsView::Person(person),
                            to: "https://www.w3.org/ns/activitystreams#Public"@,
                            community: None,
                            summary: None,
                        },
                    ),
                    ReplyView::NewDelete(Ok(delete)),
                ),
                (
                    ActionView::SendLemmyActivity {
                        activity: AnnouncableActivitiesView::Delete(
                            DeleteView {
                                id: delete.id,
                                actor: delete.actor,
                                to: delete.to,
                                object: delete.object,
                                summary: delete.summary,
                                remove_data: Some(remove_data),
                            },
                        ),
                        actor: person,
                        targets: ActivitySendTargetsView::AllInstances,
                        sensitive: true,
                    },
                    ReplyView::Done(Ok(())),
                ),
            ],
            Program::Return(Ok(())),
        ),
{
    reveal_with_fuel(dialogue, 4);
}

/// A sending that is over has ended well, unless its last action failed or the recipient that was
/// looked for does not exist; and then it has ended with the error that this is.
pub open spec fn ends_well_without_a_cause<E>(p: Program<E>, replies: Seq<ReplyView<E>>) -> bool {
    conforms(p, replies) && remainder(p, replies) is Return ==> {
        &&& replies.len() > 0
        &&& remainder(p, replies) matches Program::Return(Err(error)) ==> cause(
            actions(p, replies)[replies.len() - 1],
            replies.last(),
            error,
        )
    }
}

proof fn errors_of_a_sending<E>(p: Program<E>, replies: Seq<ReplyView<E>>)
    requires
        p is Perform,
        fails_for_causes(
            p,
            |a: ActionView, r: ReplyView<E>, e: DeletionError<E>| cause(a, r, e),
        ),
    ensures
        ends_well_without_a_cause(p, replies),
{
    if conforms(p, replies) && remainder(p, replies) is Return {
        if remainder(p, replies)->Return_0 is Err {
            errors_have_causes(
                p,
                |a: ActionView, r: ReplyView<E>, e: DeletionError<E>| cause(a, r, e),
                replies,
                remainder(p, replies)->Return_0->Err_0,
            );
        }
    }
}

/// The sending of a deletion to a community ends well, for every community and object, unless an
/// action fails.
pub proof fn community_send_ends_well_without_a_cause<E>(
    actor: PersonView,
    community: CommunityView,
    object: DeletableObjectsView,
    reason: Option<Seq<char>>,
    deleted: bool,
    replies: Seq<ReplyView<E>>,
)
    ensures
        ends_well_without_a_cause(
            send_in_community::<E>(actor, community, object, reason, deleted, success()),
            replies,
        ),
{
    let p = send_in_community::<E>(actor, community, object, reason, deleted, success());
    let c = |a: ActionView, r: ReplyView<E>, e: DeletionError<E>| cause(a, r, e);
    assert(fails_for_causes(p, c)) by {
        reveal_with_fuel(fails_for_causes, 2);
        assert forall|activity: AnnouncableActivitiesView| fails_for_causes(
            #[trigger] announce::<E>(activity, actor, community, reason is Some, success()),
            c,
        ) by {}
    }
    errors_of_a_sending(p, replies);
}

/// The sending of the deletion of a private message ends well, for every recipient who exists,
/// unless an action fails.
pub proof fn private_message_send_ends_well_without_a_cause<E>(
    actor: PersonView,
    pm: PrivateMessageView,
    deleted: bool,
    replies: Seq<ReplyView<E>>,
)
    ensures
        ends_well_without_a_cause(send_private_message::<E>(actor, pm, deleted), replies),
{
    let p = send_private_message::<E>(actor, pm, deleted);
    let c = |a: ActionView, r: ReplyView<E>, e: DeletionError<E>| cause(a, r, e);
    assert(fails_for_causes(p, c)) by {
        reveal_with_fuel(fails_for_causes, 2);
        assert forall|activity: AnnouncableActivitiesView, t: ActivitySendTargetsView|
            fails_for_causes(#[trigger] send::<E>(activity, actor, t), c) by {}
        assert forall|new: NewActivityView, t: ActivitySendTargetsView| fails_for_causes(
            #[trigger] make_and_send::<E>(new, deleted, actor, t),
            c,
        ) by {}
        assert forall|recipient: PersonView| fails_for_causes(
            #[trigger] send_to_recipient::<E>(actor, pm, deleted, recipient),
            c,
        ) by {}
    }
    errors_of_a_sending(p, replies);
}

/// The sending of the deletion of an account ends well unless an action fails.
pub proof fn user_send_ends_well_without_a_cause<E>(
    person: PersonView,
    remove_data: bool,
    replies: Seq<ReplyView<E>>,
)
    ensures
        ends_well_without_a_cause(send_user::<E>(person, remove_data), replies),
{
    let p = send_user::<E>(person, remove_data);
    let c = |a: ActionView, r: ReplyView<E>, e: DeletionError<E>| cause(a, r, e);
    assert(fails_for_causes(p, c)) by {
        reveal_with_fuel(fails_for_causes, 2);
        assert forall|activity: AnnouncableActivitiesView, t: ActivitySendTargetsView|
            fails_for_causes(#[trigger] send::<E>(activity, person, t), c) by {}
    }
    errors_of_a_sending(p, replies);
}

} // verus!
