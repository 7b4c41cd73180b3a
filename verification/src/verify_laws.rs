//! What holds of every check of an incoming deletion.

use vstd::prelude::*;

use crate::actions::{ActionView, DeletionError, ReplyView};
use crate::activities::DeleteView;
use crate::laws::{
    a_bounded_program_ends, ends_within, every_action, every_action_of_a_run,
    failure_ends_the_run, no_tolerance, nothing_follows_the_result, reports, stops_on_failure,
};
use crate::lookup::{found, lookup_object, search};
use crate::lookup_laws::{
    a_search_asks_in_turn, lookup_stops_on_failure, nothing_among_first, questions, search_order,
};
use crate::objects::{CommunityView, DeletableObjectsView};
use crate::program::{
    actions, command, conforms, continuation, failure, remainder, success, Program,
};
use crate::urls::{domain_check, url_check};
use crate::verify::{
    check_community, check_content, check_moderator, check_object, check_person,
    check_post_or_comment, checks, delete_check, is_public,
};

verus! {

impl ActionView {
    /// The action asks a question about an object, an activity or an actor.
    pub open spec fn is_question(self) -> bool {
        match self {
            ActionView::ReadFromId { .. } => true,
            ActionView::ReadActivityCommunity(_) => true,
            ActionView::VerifyIsPublic { .. } => true,
            ActionView::VerifyPerson(_) => true,
            ActionView::VerifyPersonInCommunity { .. } => true,
            ActionView::VerifyModAction { .. } => true,
            _ => false,
        }
    }
}

/// A check of a deletion only asks questions: it changes nothing and sends nothing.
pub proof fn a_check_changes_nothing<E>(
    activity: DeleteView,
    is_mod_action: bool,
    replies: Seq<ReplyView<E>>,
    i: int,
)
    requires
        0 <= i < actions(delete_check::<E>(activity, is_mod_action), replies).len(),
    ensures
        actions(delete_check::<E>(activity, is_mod_action), replies)[i].is_question(),
{
    let p = delete_check::<E>(activity, is_mod_action);
    let ok = |a: ActionView| a.is_question();
    let next = checks::<E>(activity, is_mod_action);
    assert(every_action(p, ok)) by {
        reveal_with_fuel(every_action, 2);
        assert forall|object: DeletableObjectsView| every_action(#[trigger] next(object), ok) by {
            assert forall|c: CommunityView| every_action(
                #[trigger] check_moderator::<E>(activity.actor, c),
                ok,
            ) by {}
            assert forall|c: CommunityView, id: Seq<char>| every_action(
                #[trigger] check_post_or_comment::<E>(activity.actor, id, c, is_mod_action),
                ok,
            ) by {
                assert(every_action(check_moderator::<E>(activity.actor, c), ok));
            }
            match object {
                DeletableObjectsView::Community(c) => {
                    assert(every_action(check_moderator::<E>(activity.actor, c), ok));
                    assert(every_action(check_community::<E>(activity.actor, c), ok));
                },
                DeletableObjectsView::Person(q) => {
                    assert(every_action(
                        check_person::<E>(activity.actor, q.actor_id, activity.object),
                        ok,
                    ));
                },
                DeletableObjectsView::Post(q) => {
                    assert(every_action(
                        check_content::<E>(activity, q.ap_id, is_mod_action),
                        ok,
                    ));
                },
                DeletableObjectsView::Comment(q) => {
                    assert(every_action(
                        check_content::<E>(activity, q.ap_id, is_mod_action),
                        ok,
                    ));
                },
                DeletableObjectsView::PrivateMessage(_) => {},
            }
        }
        every_action_of_a_lookup(activity.object, next, ok);
    }
    every_action_of_a_run(p, ok, replies);
    assert(ok(actions(p, replies)[i]));
}

proof fn every_action_of_a_lookup<E>(
    ap_id: Seq<char>,
    next: spec_fn(DeletableObjectsView) -> Program<E>,
    ok: spec_fn(ActionView) -> bool,
)
    requires
        forall|object: DeletableObjectsView| every_action(#[trigger] next(object), ok),
        forall|a: ActionView| a is ReadFromId ==> #[trigger] ok(a),
    ensures
        every_action(lookup_object(ap_id, next), ok),
{
    reveal_with_fuel(every_action, 2);
    let private_message = search(
        search_order()[4],
        ap_id,
        next,
        failure::<E>(DeletionError::NotFound),
    );
    let comment = search(search_order()[3], ap_id, next, private_message);
    let post = search(search_order()[2], ap_id, next, comment);
    let person = search(search_order()[1], ap_id, next, post);
    assert(every_action(private_message, ok));
    assert(every_action(comment, ok));
    assert(every_action(post, ok));
    assert(every_action(person, ok));
}

proof fn check_stops<E>(activity: DeleteView, is_mod_action: bool)
    ensures
        stops_on_failure(delete_check::<E>(activity, is_mod_action), no_tolerance()),
{
    let next = checks::<E>(activity, is_mod_action);
    assert forall|object: DeletableObjectsView| stops_on_failure(
        #[trigger] next(object),
        no_tolerance(),
    ) by {
        reveal_with_fuel(stops_on_failure, 2);
        assert forall|c: CommunityView, id: Seq<char>| stops_on_failure(
            #[trigger] check_post_or_comment::<E>(activity.actor, id, c, is_mod_action),
            no_tolerance(),
        ) by {
            assert(stops_on_failure(check_moderator::<E>(activity.actor, c), no_tolerance()));
        }
        match object {
            DeletableObjectsView::Community(c) => {
                assert(stops_on_failure(check_moderator::<E>(activity.actor, c), no_tolerance()));
                assert(stops_on_failure(check_community::<E>(activity.actor, c), no_tolerance()));
            },
            DeletableObjectsView::Person(q) => {
                assert(stops_on_failure(
                    check_person::<E>(activity.actor, q.actor_id, activity.object),
                    no_tolerance(),
                ));
            },
            DeletableObjectsView::Post(q) => {
                assert(stops_on_failure(
                    check_content::<E>(activity, q.ap_id, is_mod_action),
                    no_tolerance(),
                ));
            },
            DeletableObjectsView::Comment(q) => {
                assert(stops_on_failure(
                    check_content::<E>(activity, q.ap_id, is_mod_action),
                    no_tolerance(),
                ));
            },
            DeletableObjectsView::PrivateMessage(_) => {},
        }
    }
    lookup_stops_on_failure(activity.object, next, no_tolerance());
}

/// The first question that is answered with a refusal or a failure ends the check of a deletion,
/// with the error.
pub proof fn check_stops_on_failure<E>(
    activity: DeleteView,
    is_mod_action: bool,
    replies: Seq<ReplyView<E>>,
    i: int,
)
    requires
        conforms(delete_check::<E>(activity, is_mod_action), replies),
        0 <= i < replies.len(),
        replies[i].error() is Some,
    ensures
        i == replies.len() - 1,
        reports(
            remainder(delete_check::<E>(activity, is_mod_action), replies),
            actions(delete_check::<E>(activity, is_mod_action), replies)[i],
            replies[i].error()->0,
        ),
{
    check_stops::<E>(activity, is_mod_action);
    failure_ends_the_run(delete_check::<E>(activity, is_mod_action), no_tolerance(), replies, i);
}

/// The questions that are asked about the deletion of an object before it is accepted. The
/// community is the one that the activity belongs to.
pub open spec fn questions_about(
    activity: DeleteView,
    is_mod_action: bool,
    object: DeletableObjectsView,
    community: CommunityView,
) -> Seq<ActionView> {
    let actor = activity.actor;
    match object {
        DeletableObjectsView::Community(c) => if c.local {
            seq![
                is_public(activity),
                ActionView::VerifyPersonInCommunity { actor, community: c },
                ActionView::VerifyModAction { actor, community: c },
            ]
        } else {
            seq![is_public(activity), ActionView::VerifyModAction { actor, community: c }]
        },
        DeletableObjectsView::Person(_) => seq![
            is_public(activity),
            ActionView::VerifyPerson(actor),
        ],
        DeletableObjectsView::PrivateMessage(_) => seq![ActionView::VerifyPerson(actor)],
        _ => if is_mod_action {
            seq![
                is_public(activity),
                ActionView::ReadActivityCommunity(activity),
                ActionView::VerifyPersonInCommunity { actor, community },
                ActionView::VerifyModAction { actor, community },
            ]
        } else {
            seq![
                is_public(activity),
                ActionView::ReadActivityCommunity(activity),
                ActionView::VerifyPersonInCommunity { actor, community },
            ]
        },
    }
}

/// The outcome of the check of a deletion in which no question is answered with a refusal: it is
/// that of the comparison of the URLs that are to agree.
pub open spec fn url_outcome<E>(
    activity: DeleteView,
    is_mod_action: bool,
    object: DeletableObjectsView,
) -> Result<(), DeletionError<E>> {
    match object {
        DeletableObjectsView::Community(_) => Ok(()),
        DeletableObjectsView::Person(p) => url_check(p.actor_id, activity.object),
        DeletableObjectsView::Post(p) => if is_mod_action {
            Ok(())
        } else {
            domain_check(activity.actor, p.ap_id)
        },
        DeletableObjectsView::Comment(c) => if is_mod_action {
            Ok(())
        } else {
            domain_check(activity.actor, c.ap_id)
        },
        DeletableObjectsView::PrivateMessage(_) => domain_check(activity.actor, activity.object),
    }
}

/// No reply tells of a refusal or a failure.
pub open spec fn no_refusal<E>(replies: Seq<ReplyView<E>>) -> bool {
    forall|i: int| 0 <= i < replies.len() ==> (#[trigger] replies[i]).error() is None
}

proof fn one_answer<E>(a: ActionView, next: Program<E>, replies: Seq<ReplyView<E>>)
    requires
        conforms(command(a, next), replies),
        remainder(command(a, next), replies) is Return,
        a.admits(ReplyView::<E>::Done(Ok(()))),
        no_refusal(replies),
    ensures
        replies.len() > 0,
        conforms(next, replies.skip(1)),
        remainder(command(a, next), replies) == remainder(next, replies.skip(1)),
        actions(command(a, next), replies) == seq![a] + actions(next, replies.skip(1)),
        no_refusal(replies.skip(1)),
{
    assert(replies[0].error() is None);
}

proof fn outcome_for_content<E>(
    activity: DeleteView,
    is_mod_action: bool,
    id: Seq<char>,
    object: DeletableObjectsView,
    replies: Seq<ReplyView<E>>,
)
    requires
        ({
            ||| object matches DeletableObjectsView::Post(p) && p.ap_id == id
            ||| object matches DeletableObjectsView::Comment(c) && c.ap_id == id
        }),
        conforms(check_object::<E>(activity, is_mod_action, object), replies),
        remainder(check_object::<E>(activity, is_mod_action, object), replies) is Return,
        no_refusal(replies),
    ensures
        replies.len() > 1,
        replies[1] matches ReplyView::Community(Ok(community)) && actions(
            check_object::<E>(activity, is_mod_action, object),
            replies,
        ) == questions_about(activity, is_mod_action, object, community),
        remainder(check_object::<E>(activity, is_mod_action, object), replies)
            == Program::<E>::Return(url_outcome(activity, is_mod_action, object)),
{
    let p0 = check_object::<E>(activity, is_mod_action, object);
    let p1 = check_content::<E>(activity, id, is_mod_action);
    assert(p0 == command(is_public(activity), p1));
    one_answer(is_public(activity), p1, replies);
    let r1 = replies.skip(1);
    assert(r1[0].error() is None);
    let community = r1[0]->Community_0->Ok_0;
    let p2 = check_post_or_comment::<E>(activity.actor, id, community, is_mod_action);
    assert(continuation(p1, r1[0]) == p2);
    let r2 = r1.skip(1);
    assert(no_refusal(r2));
    let member = ActionView::VerifyPersonInCommunity { actor: activity.actor, community };
    let p3 = if is_mod_action {
        check_moderator::<E>(activity.actor, community)
    } else {
        Program::Return(domain_check(activity.actor, id))
    };
    one_answer(member, p3, r2);
    let r3 = r2.skip(1);
    if is_mod_action {
        one_answer(
            ActionView::VerifyModAction { actor: activity.actor, community },
            success(),
            r3,
        );
        nothing_follows_the_result(success::<E>(), r3.skip(1));
    } else {
        nothing_follows_the_result(p3, r3);
    }
    assert(actions(p0, replies) =~= questions_about(activity, is_mod_action, object, community));
}

proof fn outcome_for_community<E>(
    activity: DeleteView,
    is_mod_action: bool,
    community: CommunityView,
    any: CommunityView,
    replies: Seq<ReplyView<E>>,
)
    requires
        ({
            let object = DeletableObjectsView::Community(community);
            &&& conforms(check_object::<E>(activity, is_mod_action, object), replies)
            &&& remainder(check_object::<E>(activity, is_mod_action, object), replies) is Return
        }),
        no_refusal(replies),
    ensures
        ({
            let object = DeletableObjectsView::Community(community);
            let p = check_object::<E>(activity, is_mod_action, object);
            &&& actions(p, replies) == questions_about(activity, is_mod_action, object, any)
            &&& remainder(p, replies) == success::<E>()
        }),
{
    let object = DeletableObjectsView::Community(community);
    let p0 = check_object::<E>(activity, is_mod_action, object);
    let p1 = check_community::<E>(activity.actor, community);
    one_answer(is_public(activity), p1, replies);
    let r1 = replies.skip(1);
    let moderator = ActionView::VerifyModAction { actor: activity.actor, community };
    if community.local {
        let member = ActionView::VerifyPersonInCommunity { actor: activity.actor, community };
        one_answer(member, check_moderator::<E>(activity.actor, community), r1);
        let r2 = r1.skip(1);
        one_answer(moderator, success(), r2);
        nothing_follows_the_result(success::<E>(), r2.skip(1));
    } else {
        one_answer(moderator, success(), r1);
        nothing_follows_the_result(success::<E>(), r1.skip(1));
    }
    assert(actions(p0, replies) =~= questions_about(activity, is_mod_action, object, any));
}

proof fn outcome_for_object<E>(
    activity: DeleteView,
    is_mod_action: bool,
    object: DeletableObjectsView,
    replies: Seq<ReplyView<E>>,
)
    requires
        conforms(check_object::<E>(activity, is_mod_action, object), replies),
        remainder(check_object::<E>(activity, is_mod_action, object), replies) is Return,
        no_refusal(replies),
    ensures
        actions(check_object::<E>(activity, is_mod_action, object), replies) == questions_about(
            activity,
            is_mod_action,
            object,
            replies[1]->Community_0->Ok_0,
        ),
        remainder(check_object::<E>(activity, is_mod_action, object), replies)
            == Program::<E>::Return(url_outcome(activity, is_mod_action, object)),
{
    let p0 = check_object::<E>(activity, is_mod_action, object);
    let any = replies[1]->Community_0->Ok_0;
    match object {
        DeletableObjectsView::Community(c) => {
            outcome_for_community::<E>(activity, is_mod_action, c, any, replies);
        },
        DeletableObjectsView::Person(p) => {
            let p1 = check_person::<E>(activity.actor, p.actor_id, activity.object);
            one_answer(is_public(activity), p1, replies);
            let r1 = replies.skip(1);
            let p2 = Program::<E>::Return(url_check(p.actor_id, activity.object));
            one_answer(ActionView::VerifyPerson(activity.actor), p2, r1);
            nothing_follows_the_result(p2, r1.skip(1));
            assert(actions(p0, replies) =~= questions_about(
                activity,
                is_mod_action,
                object,
                any,
            ));
        },
        DeletableObjectsView::Post(p) => {
            outcome_for_content::<E>(activity, is_mod_action, p.ap_id, object, replies);
        },
        DeletableObjectsView::Comment(c) => {
            outcome_for_content::<E>(activity, is_mod_action, c.ap_id, object, replies);
        },
        DeletableObjectsView::PrivateMessage(_) => {
            let p1 = Program::<E>::Return(domain_check(activity.actor, activity.object));
            one_answer(ActionView::VerifyPerson(activity.actor), p1, replies);
            nothing_follows_the_result(p1, replies.skip(1));
            assert(actions(p0, replies) =~= questions_about(
                activity,
                is_mod_action,
                object,
                any,
            ));
        },
    }
}

/// The check of a deletion in which no question is answered with a refusal, once it is over: it
/// has found the object and asked all that there is to ask about it, and its outcome is that of
/// the comparison of URLs; or there is no object. `n` is the number of kinds of which there was
/// none.
pub proof fn unrefused_check<E>(
    activity: DeleteView,
    is_mod_action: bool,
    replies: Seq<ReplyView<E>>,
) -> (n: int)
    requires
        conforms(delete_check::<E>(activity, is_mod_action), replies),
        remainder(delete_check::<E>(activity, is_mod_action), replies) is Return,
        no_refusal(replies),
    ensures
        0 <= n <= 5,
        nothing_among_first(replies, n),
        ({
            let p = delete_check::<E>(activity, is_mod_action);
            if n == 5 {
                remainder(p, replies) == failure::<E>(DeletionError::NotFound)
            } else {
                let object = found(search_order()[n], replies[n])->Ok_0->Some_0;
                let community = replies[n + 2]->Community_0->Ok_0;
                &&& n < replies.len()
                &&& found(search_order()[n], replies[n]) == Ok::<
                    Option<DeletableObjectsView>,
                    E,
                >(Some(object))
                &&& actions(p, replies) == questions(activity.object, n + 1) + questions_about(
                    activity,
                    is_mod_action,
                    object,
                    community,
                )
                &&& remainder(p, replies) == Program::<E>::Return(
                    url_outcome(activity, is_mod_action, object),
                )
            }
        }),
{
    let next = checks::<E>(activity, is_mod_action);
    let n = a_search_asks_in_turn(activity.object, next, replies);
    if n < 5 {
        let object = found(search_order()[n], replies[n])->Ok_0->Some_0;
        let rest = replies.skip(n + 1);
        assert(no_refusal(rest)) by {
            assert forall|i: int| 0 <= i < rest.len() implies (#[trigger] rest[i]).error()
                is None by {
                assert(replies[n + 1 + i].error() is None);
            }
        }
        outcome_for_object::<E>(activity, is_mod_action, object, rest);
        if object is Post || object is Comment {
            assert(rest.len() > 1) by {
                match object {
                    DeletableObjectsView::Post(q) => {
                        outcome_for_content::<E>(activity, is_mod_action, q.ap_id, object, rest);
                    },
                    DeletableObjectsView::Comment(q) => {
                        outcome_for_content::<E>(activity, is_mod_action, q.ap_id, object, rest);
                    },
                    _ => {},
                }
            }
            assert(rest[1] == replies[n + 2]);
        }
    }
    n
}

/// An accepted deletion: there is an object with the URL, all that there is to ask about it was
/// asked and no question answered with a refusal, and the URLs agree. `n` is the number of kinds
/// of object of which there was none.
pub proof fn accepted_deletion<E>(
    activity: DeleteView,
    is_mod_action: bool,
    replies: Seq<ReplyView<E>>,
) -> (n: int)
    requires
        conforms(delete_check::<E>(activity, is_mod_action), replies),
        remainder(delete_check::<E>(activity, is_mod_action), replies) == success::<E>(),
    ensures
        no_refusal(replies),
        0 <= n < 5,
        nothing_among_first(replies, n),
        found(search_order()[n], replies[n]) matches Ok(Some(object)) && {
            &&& url_outcome::<E>(activity, is_mod_action, object) is Ok
            &&& actions(delete_check::<E>(activity, is_mod_action), replies) == questions(
                activity.object,
                n + 1,
            ) + questions_about(
                activity,
                is_mod_action,
                object,
                replies[n + 2]->Community_0->Ok_0,
            )
        },
{
    assert forall|i: int| 0 <= i < replies.len() implies (#[trigger] replies[i]).error()
        is None by {
        if replies[i].error() is Some {
            check_stops_on_failure::<E>(activity, is_mod_action, replies, i);
        }
    }
    unrefused_check::<E>(activity, is_mod_action, replies)
}

/// The check of a deletion ends after at most eight questions.
pub proof fn check_ends<E>(
    activity: DeleteView,
    is_mod_action: bool,
    replies: Seq<ReplyView<E>>,
)
    requires
        conforms(delete_check::<E>(activity, is_mod_action), replies),
    ensures
        replies.len() <= 8,
{
    let next = checks::<E>(activity, is_mod_action);
    let n = a_search_asks_in_turn(activity.object, next, replies);
    if replies.len() > 5 {
        let object = found(search_order()[n], replies[n])->Ok_0->Some_0;
        let bound: nat = if object is PrivateMessage { 1 } else { 4 };
        assert(ends_within(next(object), bound)) by {
            reveal_with_fuel(ends_within, 2);
            assert forall|c: CommunityView, id: Seq<char>| ends_within(
                #[trigger] check_post_or_comment::<E>(activity.actor, id, c, is_mod_action),
                2,
            ) by {
                assert(ends_within(check_moderator::<E>(activity.actor, c), 1));
            }
            match object {
                DeletableObjectsView::Community(c) => {
                    assert(ends_within(check_moderator::<E>(activity.actor, c), 2));
                    assert(ends_within(check_moderator::<E>(activity.actor, c), 3));
                    assert(ends_within(check_community::<E>(activity.actor, c), 3));
                },
                DeletableObjectsView::Person(q) => {
                    assert(ends_within(
                        check_person::<E>(activity.actor, q.actor_id, activity.object),
                        3,
                    ));
                },
                DeletableObjectsView::Post(q) => {
                    assert(ends_within(check_content::<E>(activity, q.ap_id, is_mod_action), 3));
                },
                DeletableObjectsView::Comment(q) => {
                    assert(ends_within(check_content::<E>(activity, q.ap_id, is_mod_action), 3));
                },
                DeletableObjectsView::PrivateMessage(_) => {},
            }
        }
        a_bounded_program_ends(next(object), bound, replies.skip(n + 1));
    }
}

} // verus!
