//! What is asked and answered when an incoming deletion is checked.

use vstd::prelude::*;

use crate::actions::{ActionView, DeletionError, ReplyView};
use crate::activities::DeleteView;
use crate::dialogue_laws::{
    a_search_fails_for_causes, an_object_is_found, cause, dialogue, dialogues_can_be_joined,
    errors_have_causes, fails_for_causes, finding, finding_nothing, no_object_is_found,
    not_found_means_that_nothing_was_found,
};
use crate::laws::{failure_ends_the_run, no_tolerance, reports, stops_on_failure};
use crate::objects::{CommunityView, DeletableObjectsView, PersonView, PrivateMessageView};
use crate::program::{actions, conforms, remainder, Program};
use crate::urls::{domain_check, url_check, url_domain, url_serialization};
use crate::verify::{
    check_community, check_content, check_moderator, check_object, check_person,
    check_post_or_comment, checks, delete_check,
};

verus! {

/// URLs share a domain exactly where the domains are equal, or both are missing, and are identical
/// exactly where their serializations are equal; otherwise the check fails and says so.
pub proof fn how_urls_are_compared<E>(a: Seq<char>, b: Seq<char>)
    ensures
        domain_check::<E>(a, b) == if url_domain(a) == url_domain(b) {
            Ok::<(), DeletionError<E>>(())
        } else {
            Err(DeletionError::DomainsDoNotMatch)
        },
        url_check::<E>(a, b) == if url_serialization(a) == url_serialization(b) {
            Ok::<(), DeletionError<E>>(())
        } else {
            Err(DeletionError::UrlsDoNotMatch)
        },
{
}

/// A question, and the answer that nothing speaks against it.
pub open spec fn granted<E>(question: ActionView) -> (ActionView, ReplyView<E>) {
    (question, ReplyView::Done(Ok(())))
}

/// The question whether an activity is addressed to the public: it is asked about all to whom the
/// activity is addressed, and about nobody else.
pub open spec fn public_question(activity: DeleteView) -> ActionView {
    ActionView::VerifyIsPublic { to: activity.to, cc: Seq::<Seq<char>>::empty() }
}

/// The result of the check that two URLs share a domain.
pub open spec fn same_domain<E>(a: Seq<char>, b: Seq<char>) -> Program<E> {
    Program::Return(
        if url_domain(a) == url_domain(b) {
            Ok(())
        } else {
            Err(DeletionError::DomainsDoNotMatch)
        },
    )
}

/// A post or comment may be deleted by a member of the community who is a moderator, if they act
/// as one.
pub proof fn a_moderator_may_delete_content<E>(
    actor: Seq<char>,
    object_id: Seq<char>,
    community: CommunityView,
)
    ensures
        dialogue(
            check_post_or_comment::<E>(actor, object_id, community, true),
            seq![
                granted(ActionView::VerifyPersonInCommunity { actor, community }),
                granted(ActionView::VerifyModAction { actor, community }),
            ],
            Program::Return(Ok(())),
        ),
{
    reveal_with_fuel(dialogue, 4);
}

/// A post or comment may be deleted by a member of the community who does not act as a moderator
/// exactly where it is of their domain.
pub proof fn an_owner_may_delete_content<E>(
    actor: Seq<char>,
    object_id: Seq<char>,
    community: CommunityView,
)
    ensures
        dialogue(
            check_post_or_comment::<E>(actor, object_id, community, false),
            seq![granted(ActionView::VerifyPersonInCommunity { actor, community })],
            same_domain(actor, object_id),
        ),
{
    reveal_with_fuel(dialogue, 3);
}

/// The first refusal ends the check of a post or comment, with its error.
pub proof fn content_check_stops_on_failure<E>(
    actor: Seq<char>,
    object_id: Seq<char>,
    community: CommunityView,
    is_mod_action: bool,
    replies: Seq<ReplyView<E>>,
    i: int,
)
    requires
        conforms(
            check_post_or_comment::<E>(actor, object_id, community, is_mod_action),
            replies,
        ),
        0 <= i < replies.len(),
        replies[i].error() is Some,
    ensures
        i == replies.len() - 1,
        reports(
            remainder(
                check_post_or_comment::<E>(actor, object_id, community, is_mod_action),
                replies,
            ),
            actions(
                check_post_or_comment::<E>(actor, object_id, community, is_mod_action),
                replies,
            )[i],
            replies[i].error()->0,
        ),
{
    let p = check_post_or_comment::<E>(actor, object_id, community, is_mod_action);
    assert(stops_on_failure(p, no_tolerance())) by {
        reveal_with_fuel(stops_on_failure, 2);
        assert(stops_on_failure(check_moderator::<E>(actor, community), no_tolerance()));
    }
    failure_ends_the_run(p, no_tolerance(), replies, i);
}

/// An activity about an object that does not exist is refused.
pub proof fn a_deletion_of_nothing_is_refused<E>(activity: DeleteView, is_mod_action: bool)
    ensures
        dialogue(
            delete_check::<E>(activity, is_mod_action),
            finding_nothing(activity.object),
            Program::Return(Err(DeletionError::NotFound)),
        ),
{
    no_object_is_found(activity.object, checks::<E>(activity, is_mod_action));
}

proof fn object_is_checked<E>(
    activity: DeleteView,
    is_mod_action: bool,
    object: DeletableObjectsView,
    lines: Seq<(ActionView, ReplyView<E>)>,
    end: Program<E>,
)
    requires
        dialogue(check_object::<E>(activity, is_mod_action, object), lines, end),
    ensures
        dialogue(
            delete_check::<E>(activity, is_mod_action),
            finding(activity.object, object) + lines,
            end,
        ),
{
    let next = checks::<E>(activity, is_mod_action);
    an_object_is_found(activity.object, next, object);
    dialogues_can_be_joined(
        delete_check::<E>(activity, is_mod_action),
        finding(activity.object, object),
        next(object),
        lines,
        end,
    );
}

/// The deletion of a local community is accepted, whatever else the activity says, where it is
/// public and its actor is a member of the community who moderates it.
pub proof fn a_local_community_is_deleted_by_its_moderators<E>(
    activity: DeleteView,
    is_mod_action: bool,
    community: CommunityView,
)
    requires
        community.local,
    ensures
        dialogue(
            delete_check::<E>(activity, is_mod_action),
            finding(activity.object, DeletableObjectsView::Community(community)) + seq![
                granted(public_question(activity)),
                granted(ActionView::VerifyPersonInCommunity { actor: activity.actor, community }),
                granted(ActionView::VerifyModAction { actor: activity.actor, community }),
            ],
            Program::Return(Ok(())),
        ),
{
    reveal_with_fuel(dialogue, 5);
    object_is_checked::<E>(
        activity,
        is_mod_action,
        DeletableObjectsView::Community(community),
        seq![
            granted(public_question(activity)),
            granted(ActionView::VerifyPersonInCommunity { actor: activity.actor, community }),
            granted(ActionView::VerifyModAction { actor: activity.actor, community }),
        ],
        Program::Return(Ok(())),
    );
}

/// The deletion of a remote community is accepted, whatever else the activity says, where it is
/// public and its actor moderates the community.
pub proof fn a_remote_community_is_deleted_by_its_moderators<E>(
    activity: DeleteView,
    is_mod_action: bool,
    community: CommunityView,
)
    requires
        !community.local,
    ensures
        dialogue(
            delete_check::<E>(activity, is_mod_action),
            finding(activity.object, DeletableObjectsView::Community(community)) + seq![
                granted(public_question(activity)),
                granted(ActionView::VerifyModAction { actor: activity.actor, community }),
            ],
            Program::Return(Ok(())),
        ),
{
    reveal_with_fuel(dialogue, 4);
    object_is_checked::<E>(
        activity,
        is_mod_action,
        DeletableObjectsView::Community(community),
        seq![
            granted(public_question(activity)),
            granted(ActionView::VerifyModAction { actor: activity.actor, community }),
        ],
        Program::Return(Ok(())),
    );
}

/// The deletion of a person is accepted, whatever else the activity says, where it is public, its
/// actor may act, and the person's URL is the one that it is about.
pub proof fn a_person_is_deleted_under_their_own_url<E>(
    activity: DeleteView,
    is_mod_action: bool,
    person: PersonView,
)
    ensures
        dialogue(
            delete_check::<E>(activity, is_mod_action),
            finding(activity.object, DeletableObjectsView::Person(person)) + seq![
                granted(public_question(activity)),
                granted(ActionView::VerifyPerson(activity.actor)),
            ],
            Program::Return(
                if url_serialization(person.actor_id) == url_serialization(activity.object) {
                    Ok(())
                } else {
                    Err(DeletionError::UrlsDoNotMatch)
                },
            ),
        ),
{
    reveal_with_fuel(dialogue, 4);
    object_is_checked::<E>(
        activity,
        is_mod_action,
        DeletableObjectsView::Person(person),
        seq![
            granted(public_question(activity)),
            granted(ActionView::VerifyPerson(activity.actor)),
        ],
        Program::Return(url_check(person.actor_id, activity.object)),
    );
}

/// What is asked about a post or comment: whether the activity is public, which community it
/// belongs to, and whether its actor is a member there.
pub open spec fn content_questions<E>(activity: DeleteView, community: CommunityView) -> Seq<
    (ActionView, ReplyView<E>),
> {
    seq![
        granted(public_question(activity)),
        (ActionView::ReadActivityCommunity(activity), ReplyView::Community(Ok(community))),
        granted(ActionView::VerifyPersonInCommunity { actor: activity.actor, community }),
    ]
}

/// The removal of a post or comment by a moderator is accepted, with or without a reason, where it
/// is public and its actor is a member of the community who moderates it.
pub proof fn content_is_removed_by_moderators<E>(
    activity: DeleteView,
    object: DeletableObjectsView,
    community: CommunityView,
)
    requires
        object is Post || object is Comment,
    ensures
        dialogue(
            delete_check::<E>(activity, true),
            finding(activity.object, object) + content_questions(activity, community).push(
                granted(ActionView::VerifyModAction { actor: activity.actor, community }),
            ),
            Program::Return(Ok(())),
        ),
{
    reveal_with_fuel(dialogue, 6);
    object_is_checked::<E>(
        activity,
        true,
        object,
        content_questions(activity, community).push(
            granted(ActionView::VerifyModAction { actor: activity.actor, community }),
        ),
        Program::Return(Ok(())),
    );
}

/// The deletion of a post or comment by its owner is accepted, with or without a reason, where it
/// is public, its actor is a member of the community, and the object is of the actor's domain.
pub proof fn content_is_deleted_by_owners<E>(
    activity: DeleteView,
    object: DeletableObjectsView,
    community: CommunityView,
)
    requires
        object is Post || object is Comment,
    ensures
        dialogue(
            delete_check::<E>(activity, false),
            finding(activity.object, object) + content_questions(activity, community),
            same_domain(
                activity.actor,
                if object is Post {
                    object->Post_0.ap_id
                } else {
                    object->Comment_0.ap_id
                },
            ),
        ),
{
    reveal_with_fuel(dialogue, 5);
    let id = if object is Post {
        object->Post_0.ap_id
    } else {
        object->Comment_0.ap_id
    };
    object_is_checked::<E>(
        activity,
        false,
        object,
        content_questions(activity, community),
        same_domain(activity.actor, id),
    );
}

/// The deletion of a private message is accepted, whatever else the activity says, where its actor
/// may act and the message is of their domain. It need not be public.
pub proof fn a_private_message_is_deleted_from_its_domain<E>(
    activity: DeleteView,
    is_mod_action: bool,
    pm: PrivateMessageView,
)
    ensures
        dialogue(
            delete_check::<E>(activity, is_mod_action),
            finding(activity.object, DeletableObjectsView::PrivateMessage(pm)) + seq![
                granted(ActionView::VerifyPerson(activity.actor)),
            ],
            same_domain(activity.actor, activity.object),
        ),
{
    reveal_with_fuel(dialogue, 3);
    object_is_checked::<E>(
        activity,
        is_mod_action,
        DeletableObjectsView::PrivateMessage(pm),
        seq![granted(ActionView::VerifyPerson(activity.actor))],
        same_domain(activity.actor, activity.object),
    );
}

/// Why a deletion is refused once the object is known: a question was answered with a refusal, or
/// all questions were granted and URLs that have to agree do not.
pub open spec fn refusal_cause<E>(
    a: ActionView,
    reply: ReplyView<E>,
    error: DeletionError<E>,
) -> bool {
    match error {
        DeletionError::Service(e) => reply.error() == Some(e),
        DeletionError::DomainsDoNotMatch => {
            &&& reply matches ReplyView::Done(Ok(_))
            &&& a is VerifyPerson || a is VerifyPersonInCommunity
        },
        DeletionError::UrlsDoNotMatch => {
            reply matches ReplyView::Done(Ok(_)) && a is VerifyPerson
        },
        _ => false,
    }
}

proof fn object_check_errors<E>(
    activity: DeleteView,
    is_mod_action: bool,
    object: DeletableObjectsView,
    c: spec_fn(ActionView, ReplyView<E>, DeletionError<E>) -> bool,
)
    requires
        forall|a: ActionView, r: ReplyView<E>, e: DeletionError<E>|
            refusal_cause(a, r, e) ==> #[trigger] c(a, r, e),
    ensures
        fails_for_causes(check_object::<E>(activity, is_mod_action, object), c),
{
    reveal_with_fuel(fails_for_causes, 2);
    let actor = activity.actor;
    assert forall|community: CommunityView, id: Seq<char>| fails_for_causes(
        #[trigger] check_post_or_comment::<E>(actor, id, community, is_mod_action),
        c,
    ) by {
        assert(fails_for_causes(check_moderator::<E>(actor, community), c));
    }
    match object {
        DeletableObjectsView::Community(q) => {
            assert(fails_for_causes(check_moderator::<E>(actor, q), c));
            assert(fails_for_causes(check_community::<E>(actor, q), c));
        },
        DeletableObjectsView::Person(q) => {
            assert(fails_for_causes(check_person::<E>(actor, q.actor_id, activity.object), c));
        },
        DeletableObjectsView::Post(q) => {
            assert(fails_for_causes(check_content::<E>(activity, q.ap_id, is_mod_action), c));
        },
        DeletableObjectsView::Comment(q) => {
            assert(fails_for_causes(check_content::<E>(activity, q.ap_id, is_mod_action), c));
        },
        DeletableObjectsView::PrivateMessage(_) => {},
    }
}

/// The check of a deletion that is over has accepted it, unless the last question was answered
/// with a refusal, or URLs that have to agree do not, or there is no object; and it ends with
/// `NotFound` exactly where there is none of any kind.
pub proof fn a_deletion_is_refused_for_causes_only<E>(
    activity: DeleteView,
    is_mod_action: bool,
    replies: Seq<ReplyView<E>>,
)
    requires
        conforms(delete_check::<E>(activity, is_mod_action), replies),
    ensures
        ({
            let p = delete_check::<E>(activity, is_mod_action);
            &&& remainder(p, replies) matches Program::Return(Err(error)) ==> {
                let a = actions(p, replies)[replies.len() - 1];
                &&& replies.len() > 0
                &&& cause(a, replies.last(), error) || refusal_cause(a, replies.last(), error)
            }
            &&& remainder(p, replies) == Program::<E>::Return(Err(DeletionError::NotFound))
                <==> replies == seq![
                ReplyView::<E>::FoundCommunity(Ok(None)),
                ReplyView::FoundPerson(Ok(None)),
                ReplyView::FoundPost(Ok(None)),
                ReplyView::FoundComment(Ok(None)),
                ReplyView::FoundPrivateMessage(Ok(None)),
            ]
        }),
{
    let p = delete_check::<E>(activity, is_mod_action);
    let next = checks::<E>(activity, is_mod_action);
    let later = |a: ActionView, r: ReplyView<E>, e: DeletionError<E>| refusal_cause(a, r, e);
    let all = |a: ActionView, r: ReplyView<E>, e: DeletionError<E>|
        cause(a, r, e) || refusal_cause(a, r, e);
    assert forall|o: DeletableObjectsView|
        fails_for_causes(#[trigger] next(o), later) && next(o) is Perform by {
        object_check_errors(activity, is_mod_action, o, later);
    }
    not_found_means_that_nothing_was_found(activity.object, next, later, replies);
    assert forall|o: DeletableObjectsView|
        fails_for_causes(#[trigger] next(o), all) && next(o) is Perform by {
        object_check_errors(activity, is_mod_action, o, all);
    }
    a_search_fails_for_causes(activity.object, next, all);
    if remainder(p, replies) is Return && remainder(p, replies)->Return_0 is Err {
        errors_have_causes(p, all, replies, remainder(p, replies)->Return_0->Err_0);
    }
}

} // verus!
