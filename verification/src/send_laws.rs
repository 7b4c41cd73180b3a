//! What holds of every deletion that is sent out.

use vstd::prelude::*;

use crate::actions::{ActionView, NewActivityView, ReplyView};
use crate::activities::{ActivitySendTargetsView, AnnouncableActivitiesView, DeleteView};
use crate::laws::{
    a_bounded_program_ends, ends_within, failure_ends_the_run, no_tolerance,
    nothing_follows_the_result, reports, stops_on_failure, successful_command,
    successful_run_goes_on,
};
use crate::objects::{CommunityView, DeletableObjectsView, PersonView, PrivateMessageView};
use crate::program::{actions, conforms, continuation, remainder, success};
use crate::send::{
    announce, make_and_send, send, send_in_community, send_private_message, send_to_recipient,
    send_user,
};
use crate::urls::public_url;

verus! {

/// Makes an activity: a deletion or, where `deleted` is unset, the undoing of one. Both are made
/// of the same.
pub open spec fn new_activity(new: NewActivityView, deleted: bool) -> ActionView {
    if deleted {
        ActionView::NewDelete(new)
    } else {
        ActionView::NewUndoDelete(new)
    }
}

/// The activity in the reply to its making.
pub open spec fn activity_in<E>(reply: ReplyView<E>, deleted: bool) -> AnnouncableActivitiesView {
    if deleted {
        AnnouncableActivitiesView::Delete(reply->NewDelete_0->Ok_0)
    } else {
        AnnouncableActivitiesView::UndoDelete(reply->NewUndoDelete_0->Ok_0)
    }
}

/// What the sending of a deletion or restoring to a community has done once it ends well: the
/// activity was made, for the public, and sent to the followers of the community; and as the act
/// of a moderator exactly where a reason was given.
pub proof fn successful_community_send<E>(
    actor: PersonView,
    community: CommunityView,
    object: DeletableObjectsView,
    reason: Option<Seq<char>>,
    deleted: bool,
    replies: Seq<ReplyView<E>>,
)
    requires
        conforms(
            send_in_community::<E>(actor, community, object, reason, deleted, success()),
            replies,
        ),
        remainder(
            send_in_community::<E>(actor, community, object, reason, deleted, success()),
            replies,
        ) == success::<E>(),
    ensures
        replies.len() == 2,
        actions(
            send_in_community::<E>(actor, community, object, reason, deleted, success()),
            replies,
        ) == seq![
            new_activity(
                NewActivityView {
                    actor,
                    object,
                    to: public_url(),
                    community: Some(community),
                    summary: reason,
                },
                deleted,
            ),
            ActionView::SendActivityInCommunity {
                activity: activity_in(replies[0], deleted),
                actor,
                community,
                targets: ActivitySendTargetsView::Empty,
                is_mod_action: reason is Some,
            },
        ],
{
    let p0 = send_in_community::<E>(actor, community, object, reason, deleted, success());
    successful_run_goes_on(p0, replies);
    let r1 = replies.skip(1);
    let p1 = continuation(p0, replies[0]);
    if p1 is Return {
        nothing_follows_the_result(p1, r1);
    }
    let sent = p1->Perform_0;
    assert(p1 == announce::<E>(
        activity_in(replies[0], deleted),
        actor,
        community,
        reason is Some,
        success(),
    ));
    successful_command(sent, success(), r1);
    nothing_follows_the_result(success::<E>(), r1.skip(1));
    assert(actions(p0, replies) =~= seq![p0->Perform_0, sent]);
}

/// What the sending of the deletion or restoring of a private message has done once it ends
/// well: the recipient was looked up, and the activity made for them alone and sent to their
/// inbox alone, as a sensitive one.
pub proof fn successful_private_message_send<E>(
    actor: PersonView,
    pm: PrivateMessageView,
    deleted: bool,
    replies: Seq<ReplyView<E>>,
)
    requires
        conforms(send_private_message::<E>(actor, pm, deleted), replies),
        remainder(send_private_message::<E>(actor, pm, deleted), replies) == success::<E>(),
    ensures
        replies.len() == 3,
        replies[0] matches ReplyView::FoundPerson(Ok(Some(recipient))) && actions(
            send_private_message::<E>(actor, pm, deleted),
            replies,
        ) == seq![
            ActionView::ReadPerson(pm.recipient_id),
            new_activity(
                NewActivityView {
                    actor,
                    object: DeletableObjectsView::PrivateMessage(pm),
                    to: recipient.actor_id,
                    community: None,
                    summary: None,
                },
                deleted,
            ),
            ActionView::SendLemmyActivity {
                activity: activity_in(replies[1], deleted),
                actor,
                targets: ActivitySendTargetsView::Inbox(recipient.shared_inbox_or_inbox()),
                sensitive: true,
            },
        ],
{
    let p0 = send_private_message::<E>(actor, pm, deleted);
    successful_run_goes_on(p0, replies);
    let r1 = replies.skip(1);
    let p1 = continuation(p0, replies[0]);
    if p1 is Return {
        nothing_follows_the_result(p1, r1);
    }
    let recipient = replies[0]->FoundPerson_0->Ok_0->Some_0;
    assert(p1 == send_to_recipient::<E>(actor, pm, deleted, recipient));
    successful_run_goes_on(p1, r1);
    let r2 = r1.skip(1);
    let p2 = continuation(p1, r1[0]);
    if p2 is Return {
        nothing_follows_the_result(p2, r2);
    }
    let sent = p2->Perform_0;
    assert(r1[0] == replies[1]);
    assert(p2 == send::<E>(
        activity_in(replies[1], deleted),
        actor,
        ActivitySendTargetsView::Inbox(recipient.shared_inbox_or_inbox()),
    ));
    successful_command(sent, success(), r2);
    nothing_follows_the_result(success::<E>(), r2.skip(1));
    assert(actions(p0, replies) =~= seq![p0->Perform_0, p1->Perform_0, sent]);
}

/// What the sending of the deletion of an account has done once it ends well: the activity was
/// made, for the public, and sent to all instances as a sensitive one, with the word on whether
/// the content goes too.
pub proof fn successful_user_send<E>(
    person: PersonView,
    remove_data: bool,
    replies: Seq<ReplyView<E>>,
)
    requires
        conforms(send_user::<E>(person, remove_data), replies),
        remainder(send_user::<E>(person, remove_data), replies) == success::<E>(),
    ensures
        replies.len() == 2,
        replies[0] matches ReplyView::NewDelete(Ok(delete)) && actions(
            send_user::<E>(person, remove_data),
            replies,
        ) == seq![
            ActionView::NewDelete(
                NewActivityView {
                    actor: person,
                    object: DeletableObjectsView::Person(person),
                    to: public_url(),
                    community: None,
                    summary: None,
                },
            ),
            ActionView::SendLemmyActivity {
                activity: AnnouncableActivitiesView::Delete(
                    DeleteView { remove_data: Some(remove_data), ..delete },
                ),
                actor: person,
                targets: ActivitySendTargetsView::AllInstances,
                sensitive: true,
            },
        ],
{
    let p0 = send_user::<E>(person, remove_data);
    successful_run_goes_on(p0, replies);
    let r1 = replies.skip(1);
    let p1 = continuation(p0, replies[0]);
    if p1 is Return {
        nothing_follows_the_result(p1, r1);
    }
    let sent = p1->Perform_0;
    successful_command(sent, success(), r1);
    nothing_follows_the_result(success::<E>(), r1.skip(1));
    assert(actions(p0, replies) =~= seq![p0->Perform_0, sent]);
}

proof fn sends_stop_and_end<E>()
    ensures
        forall|
            actor: PersonView,
            community: CommunityView,
            object: DeletableObjectsView,
            reason: Option<Seq<char>>,
            deleted: bool,
        |
            #![trigger send_in_community::<E>(actor, community, object, reason, deleted, success())]
            {
                let p = send_in_community::<E>(
                    actor,
                    community,
                    object,
                    reason,
                    deleted,
                    success(),
                );
                stops_on_failure(p, no_tolerance()) && ends_within(p, 2)
            },
        forall|actor: PersonView, pm: PrivateMessageView, deleted: bool|
            #![trigger send_private_message::<E>(actor, pm, deleted)]
            {
                let p = send_private_message::<E>(actor, pm, deleted);
                stops_on_failure(p, no_tolerance()) && ends_within(p, 3)
            },
        forall|person: PersonView, remove_data: bool|
            #![trigger send_user::<E>(person, remove_data)]
            {
                let p = send_user::<E>(person, remove_data);
                stops_on_failure(p, no_tolerance()) && ends_within(p, 2)
            },
{
    reveal_with_fuel(stops_on_failure, 2);
    reveal_with_fuel(ends_within, 2);
    assert forall|activity: AnnouncableActivitiesView, p: PersonView, c: CommunityView, m: bool|
        {
            let q = #[trigger] announce::<E>(activity, p, c, m, success());
            stops_on_failure(q, no_tolerance()) && ends_within(q, 1)
        } by {}
    assert forall|activity: AnnouncableActivitiesView, p: PersonView, t: ActivitySendTargetsView|
        {
            let q = #[trigger] send::<E>(activity, p, t);
            stops_on_failure(q, no_tolerance()) && ends_within(q, 1)
        } by {}
    assert forall|new: NewActivityView, deleted: bool, p: PersonView, t: ActivitySendTargetsView|
        {
            let q = #[trigger] make_and_send::<E>(new, deleted, p, t);
            stops_on_failure(q, no_tolerance()) && ends_within(q, 2)
        } by {}
}

/// The first action that fails ends the sending of a deletion to a community, with its error.
pub proof fn community_send_stops_on_failure<E>(
    actor: PersonView,
    community: CommunityView,
    object: DeletableObjectsView,
    reason: Option<Seq<char>>,
    deleted: bool,
    replies: Seq<ReplyView<E>>,
    i: int,
)
    requires
        conforms(
            send_in_community::<E>(actor, community, object, reason, deleted, success()),
            replies,
        ),
        0 <= i < replies.len(),
        replies[i].error() is Some,
    ensures
        i == replies.len() - 1,
        reports(
            remainder(
                send_in_community::<E>(actor, community, object, reason, deleted, success()),
                replies,
            ),
            actions(
                send_in_community::<E>(actor, community, object, reason, deleted, success()),
                replies,
            )[i],
            replies[i].error()->0,
        ),
{
    sends_stop_and_end::<E>();
    failure_ends_the_run(
        send_in_community::<E>(actor, community, object, reason, deleted, success()),
        no_tolerance(),
        replies,
        i,
    );
}

/// The first action that fails ends the sending of the deletion of a private message, with its
/// error.
pub proof fn private_message_send_stops_on_failure<E>(
    actor: PersonView,
    pm: PrivateMessageView,
    deleted: bool,
    replies: Seq<ReplyView<E>>,
    i: int,
)
    requires
        conforms(send_private_message::<E>(actor, pm, deleted), replies),
        0 <= i < replies.len(),
        replies[i].error() is Some,
    ensures
        i == replies.len() - 1,
        reports(
            remainder(send_private_message::<E>(actor, pm, deleted), replies),
            actions(send_private_message::<E>(actor, pm, deleted), replies)[i],
            replies[i].error()->0,
        ),
{
    sends_stop_and_end::<E>();
    failure_ends_the_run(
        send_private_message::<E>(actor, pm, deleted),
        no_tolerance(),
        replies,
        i,
    );
}

/// The first action that fails ends the sending of the deletion of an account, with its error.
pub proof fn user_send_stops_on_failure<E>(
    person: PersonView,
    remove_data: bool,
    replies: Seq<ReplyView<E>>,
    i: int,
)
    requires
        conforms(send_user::<E>(person, remove_data), replies),
        0 <= i < replies.len(),
        replies[i].error() is Some,
    ensures
        i == replies.len() - 1,
        reports(
            remainder(send_user::<E>(person, remove_data), replies),
            actions(send_user::<E>(person, remove_data), replies)[i],
            replies[i].error()->0,
        ),
{
    sends_stop_and_end::<E>();
    failure_ends_the_run(send_user::<E>(person, remove_data), no_tolerance(), replies, i);
}

/// The sending of a deletion to a community ends after at most two actions.
pub proof fn community_send_ends<E>(
    actor: PersonView,
    community: CommunityView,
    object: DeletableObjectsView,
    reason: Option<Seq<char>>,
    deleted: bool,
    replies: Seq<ReplyView<E>>,
)
    requires
        conforms(
            send_in_community::<E>(actor, community, object, reason, deleted, success()),
            replies,
        ),
    ensures
        replies.len() <= 2,
{
    sends_stop_and_end::<E>();
    a_bounded_program_ends(
        send_in_community::<E>(actor, community, object, reason, deleted, success()),
        2,
        replies,
    );
}

/// The sending of the deletion of a private message ends after at most three actions.
pub proof fn private_message_send_ends<E>(
    actor: PersonView,
    pm: PrivateMessageView,
    deleted: bool,
    replies: Seq<ReplyView<E>>,
)
    requires
        conforms(send_private_message::<E>(actor, pm, deleted), replies),
    ensures
        replies.len() <= 3,
{
    sends_stop_and_end::<E>();
    a_bounded_program_ends(send_private_message::<E>(actor, pm, deleted), 3, replies);
}

/// The sending of the deletion of an account ends after at most two actions.
pub proof fn user_send_ends<E>(person: PersonView, remove_data: bool, replies: Seq<ReplyView<E>>)
    requires
        conforms(send_user::<E>(person, remove_data), replies),
    ensures
        replies.len() <= 2,
{
    sends_stop_and_end::<E>();
    a_bounded_program_ends(send_user::<E>(person, remove_data), 2, replies);
}

} // verus!
