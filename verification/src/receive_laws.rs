//! What holds of every incoming deletion that is carried out.

use vstd::prelude::*;

use crate::actions::{ActionView, AutomodRule, NewActivityView, ReplyView};
use crate::activities::{ActivitySendTargetsView, AnnouncableActivitiesView, DeleteView};
use crate::automod::{
    ban_action, issuing_ban, mod_ban_form, no_automod_user, AutomodConfigView,
};
use crate::clock::happened_within;
use crate::laws::{
    a_bounded_program_ends, a_run_hands_out_its_actions, ends_within, errors_come_from_actions,
    every_action, every_action_of_a_run, failure_ends_the_run, later_action,
    nothing_follows_the_result, reported, reports, stops_on_failure, successful_command,
    successful_run_goes_on,
};
use crate::lookup::found;
use crate::lookup_laws::{
    a_search_asks_in_turn, lookup_stops_on_failure, nothing_among_first, questions, search_order,
};
use crate::objects::{
    CommentView, CommunityId, CommunityView, DeletableObjectsView, PersonId, PersonView, PostView,
    PrivateMessageView,
};
use crate::program::{
    actions, attempt, awaits, command, conforms, continuation, remainder, success, Program,
};
use crate::receive::{
    ban_by_automod, ban_from_all, ban_from_communities, ban_if_recent, ban_person, community_ban,
    community_ban_entry, community_ban_news, delete_community, delete_person, issue_ban, log_ban,
    moderate, receive, receive_object, receive_step, tell_clients, tell_followers, unfollow,
    write_community,
};
use crate::send::{announce, send_in_community};
use crate::urls::public_url;

verus! {

/// The failures that an incoming deletion tolerates: that of a ban from a community, and that of
/// the end of a subscription.
pub open spec fn community_failures() -> spec_fn(ActionView) -> bool {
    |a: ActionView| a is BanFromCommunity || a is Unfollow
}

proof fn community_bans_stop<E>(
    communities: Seq<CommunityId>,
    moderator: PersonView,
    person: PersonView,
    next: Program<E>,
)
    requires
        stops_on_failure(next, community_failures()),
        reported(next) is None,
    ensures
        stops_on_failure(
            ban_from_communities::<E>(communities, moderator, person, next),
            community_failures(),
        ),
    decreases communities.len(),
{
    reveal_with_fuel(stops_on_failure, 2);
    if communities.len() > 0 {
        let rest = ban_from_communities::<E>(communities.skip(1), moderator, person, next);
        community_bans_stop::<E>(communities.skip(1), moderator, person, next);
        let news = command(community_ban_news(communities[0], moderator, person), rest);
        assert(stops_on_failure(news, community_failures()));
        let entry = command(
            community_ban_entry(communities[0], moderator.id, person.id),
            news,
        );
        assert(stops_on_failure(entry, community_failures()));
        let leave = attempt(unfollow(communities[0], person.id), entry);
        assert(stops_on_failure(leave, community_failures()));
    }
}

proof fn person_deletion_stops<E>(
    config: AutomodConfigView,
    person: PersonView,
    next: Program<E>,
)
    requires
        stops_on_failure(next, community_failures()),
        reported(next) is None,
    ensures
        stops_on_failure(delete_person::<E>(config, person, next), community_failures()),
{
    reveal_with_fuel(stops_on_failure, 2);
    let t = community_failures();
    assert forall|moderator: PersonView, banned: PersonView| stops_on_failure(
        #[trigger] log_ban::<E>(moderator, banned, next),
        t,
    ) by {
        assert forall|ids: Seq<CommunityId>| stops_on_failure(
            #[trigger] ban_from_communities::<E>(ids, moderator, banned, next),
            t,
        ) by {
            community_bans_stop::<E>(ids, moderator, banned, next);
        }
        assert(stops_on_failure(ban_from_all::<E>(moderator, banned, next), t));
    }
    assert forall|moderator: PersonView| stops_on_failure(
        #[trigger] ban_person::<E>(moderator, person.id, next),
        t,
    ) by {
        assert forall|banned: PersonView| stops_on_failure(
            #[trigger] command::<E>(
                ActionView::RemoveUserData(banned.id),
                log_ban(moderator, banned, next),
            ),
            t,
        ) by {
            assert(stops_on_failure(log_ban::<E>(moderator, banned, next), t));
        }
    }
    let name = config.actor_username;
    assert(stops_on_failure(ban_by_automod::<E>(name, person.id, next), t));
    assert(stops_on_failure(issue_ban::<E>(name, person.id, person.actor_id, next), t));
    if config.ban_deleted_persons_created_within_days is Some {
        let days = config.ban_deleted_persons_created_within_days->0;
        assert(stops_on_failure(ban_if_recent::<E>(days, name, person, next), t));
    }
    assert(stops_on_failure(moderate::<E>(config, person, next), t));
}

proof fn community_deletion_stops<E>(
    actor: Seq<char>,
    community: CommunityView,
    deleted: bool,
    next: Program<E>,
)
    requires
        stops_on_failure(next, community_failures()),
        reported(next) is None,
    ensures
        stops_on_failure(
            delete_community::<E>(actor, community, deleted, next),
            community_failures(),
        ),
{
    reveal_with_fuel(stops_on_failure, 2);
    let t = community_failures();
    let write = write_community::<E>(community.id, deleted, next);
    assert(stops_on_failure(write, t));
    assert forall|moderator: PersonView| stops_on_failure(
        #[trigger] send_in_community(
            moderator,
            community,
            DeletableObjectsView::Community(community),
            None,
            true,
            write,
        ),
        t,
    ) by {
        assert forall|d: DeleteView| stops_on_failure(
            #[trigger] announce(
                AnnouncableActivitiesView::Delete(d),
                moderator,
                community,
                false,
                write,
            ),
            t,
        ) by {}
    }
    assert(stops_on_failure(tell_followers::<E>(actor, community, deleted, next), t));
}

proof fn object_deletion_stops<E>(
    actor: Seq<char>,
    deleted: bool,
    do_purge_user_account: Option<bool>,
    config: AutomodConfigView,
    object: DeletableObjectsView,
)
    ensures
        stops_on_failure(
            receive_object::<E>(actor, deleted, do_purge_user_account, config, object),
            community_failures(),
        ),
{
    reveal_with_fuel(stops_on_failure, 2);
    let next = tell_clients::<E>(object, deleted);
    assert(stops_on_failure(next, community_failures()));
    match object {
        DeletableObjectsView::Community(c) => {
            community_deletion_stops::<E>(actor, c, deleted, next);
        },
        DeletableObjectsView::Person(p) => {
            person_deletion_stops::<E>(config, p, next);
        },
        _ => {},
    }
}

/// The first action that fails ends an incoming deletion, with its error, unless it is the ban
/// from a community or the end of a subscription.
pub proof fn reception_stops_on_failure<E>(
    object: Seq<char>,
    actor: Seq<char>,
    deleted: bool,
    do_purge_user_account: Option<bool>,
    config: AutomodConfigView,
    replies: Seq<ReplyView<E>>,
    i: int,
)
    requires
        conforms(receive::<E>(object, actor, deleted, do_purge_user_account, config), replies),
        0 <= i < replies.len(),
        replies[i].error() is Some,
        !(actions(
            receive::<E>(object, actor, deleted, do_purge_user_account, config),
            replies,
        )[i] is BanFromCommunity),
        !(actions(
            receive::<E>(object, actor, deleted, do_purge_user_account, config),
            replies,
        )[i] is Unfollow),
    ensures
        i == replies.len() - 1,
        reports(
            remainder(
                receive::<E>(object, actor, deleted, do_purge_user_account, config),
                replies,
            ),
            actions(
                receive::<E>(object, actor, deleted, do_purge_user_account, config),
                replies,
            )[i],
            replies[i].error()->0,
        ),
{
    reception_stops::<E>(object, actor, deleted, do_purge_user_account, config);
    failure_ends_the_run(
        receive::<E>(object, actor, deleted, do_purge_user_account, config),
        community_failures(),
        replies,
        i,
    );
}

proof fn reception_stops<E>(
    object: Seq<char>,
    actor: Seq<char>,
    deleted: bool,
    do_purge_user_account: Option<bool>,
    config: AutomodConfigView,
)
    ensures
        stops_on_failure(
            receive::<E>(object, actor, deleted, do_purge_user_account, config),
            community_failures(),
        ),
{
    let next = receive_step::<E>(actor, deleted, do_purge_user_account, config);
    assert forall|o: DeletableObjectsView|
        stops_on_failure(#[trigger] next(o), community_failures()) && reported(next(o)) is None by {
        object_deletion_stops::<E>(actor, deleted, do_purge_user_account, config, o);
    }
    lookup_stops_on_failure(object, next, community_failures());
}

/// An incoming deletion ends with the error of an action only where the last action failed with
/// it: with `CouldntUpdateUser` where that action was the update of a person, and with `Service`
/// where it was another.
pub proof fn reception_reports_failures_only<E>(
    object: Seq<char>,
    actor: Seq<char>,
    deleted: bool,
    do_purge_user_account: Option<bool>,
    config: AutomodConfigView,
    replies: Seq<ReplyView<E>>,
)
    requires
        conforms(receive::<E>(object, actor, deleted, do_purge_user_account, config), replies),
        reported(
            remainder(
                receive::<E>(object, actor, deleted, do_purge_user_account, config),
                replies,
            ),
        ) is Some,
    ensures
        ({
            let p = receive::<E>(object, actor, deleted, do_purge_user_account, config);
            &&& replies.len() > 0
            &&& replies.last().error() == reported(remainder(p, replies))
            &&& reports(
                remainder(p, replies),
                actions(p, replies)[replies.len() - 1],
                replies.last().error()->0,
            )
        }),
{
    reception_stops::<E>(object, actor, deleted, do_purge_user_account, config);
    errors_come_from_actions(
        receive::<E>(object, actor, deleted, do_purge_user_account, config),
        community_failures(),
        replies,
    );
}

/// What is done to ban a person from one community.
pub open spec fn community_ban_actions(
    community: CommunityId,
    moderator: PersonView,
    person: PersonView,
) -> Seq<ActionView> {
    seq![
        community_ban(community, person.id),
        unfollow(community, person.id),
        community_ban_entry(community, moderator.id, person.id),
        community_ban_news(community, moderator, person),
    ]
}

/// What is done to ban a person from a list of communities.
pub open spec fn community_bans_actions(
    communities: Seq<CommunityId>,
    moderator: PersonView,
    person: PersonView,
) -> Seq<ActionView> {
    Seq::new(
        4 * communities.len(),
        |i: int| community_ban_actions(communities[i / 4], moderator, person)[i % 4],
    )
}

proof fn one_community_more(
    communities: Seq<CommunityId>,
    moderator: PersonView,
    person: PersonView,
)
    requires
        communities.len() > 0,
    ensures
        community_bans_actions(communities, moderator, person) == community_ban_actions(
            communities[0],
            moderator,
            person,
        ) + community_bans_actions(communities.skip(1), moderator, person),
{
    let all = community_bans_actions(communities, moderator, person);
    let first = community_ban_actions(communities[0], moderator, person);
    let rest = community_bans_actions(communities.skip(1), moderator, person);
    assert forall|i: int| 0 <= i < all.len() implies all[i] == (first + rest)[i] by {
        if i >= 4 {
            assert(communities.skip(1)[(i - 4) / 4] == communities[i / 4]);
        }
    }
    assert(all =~= first + rest);
}

/// A ban from a list of communities after which all ends well has gone through all of them, in
/// order, and has taken every step for each of them, before it went on.
pub proof fn every_community_bans<E>(
    communities: Seq<CommunityId>,
    moderator: PersonView,
    person: PersonView,
    next: Program<E>,
    replies: Seq<ReplyView<E>>,
)
    requires
        conforms(ban_from_communities::<E>(communities, moderator, person, next), replies),
        remainder(ban_from_communities::<E>(communities, moderator, person, next), replies)
            == success::<E>(),
    ensures
        ({
            let n = 4 * communities.len() as int;
            let rest = replies.skip(n);
            &&& replies.len() >= n
            &&& conforms(next, rest)
            &&& remainder(next, rest) == success::<E>()
            &&& actions(
                ban_from_communities::<E>(communities, moderator, person, next),
                replies,
            ) == community_bans_actions(communities, moderator, person) + actions(next, rest)
        }),
    decreases communities.len(),
{
    let p0 = ban_from_communities::<E>(communities, moderator, person, next);
    if communities.len() == 0 {
        assert(replies.skip(0) =~= replies);
        assert(community_bans_actions(communities, moderator, person) =~= seq![]);
        assert(actions(p0, replies) =~= community_bans_actions(communities, moderator, person)
            + actions(next, replies));
    } else {
        let rest = ban_from_communities::<E>(communities.skip(1), moderator, person, next);
        let news = command(community_ban_news(communities[0], moderator, person), rest);
        let entry = command(community_ban_entry(communities[0], moderator.id, person.id), news);
        let leave = attempt(unfollow(communities[0], person.id), entry);
        successful_run_goes_on(p0, replies);
        let r1 = replies.skip(1);
        successful_run_goes_on(leave, r1);
        let r2 = r1.skip(1);
        successful_command(community_ban_entry(communities[0], moderator.id, person.id), news, r2);
        let r3 = r2.skip(1);
        successful_command(community_ban_news(communities[0], moderator, person), rest, r3);
        let r4 = r3.skip(1);
        every_community_bans::<E>(communities.skip(1), moderator, person, next, r4);
        one_community_more(communities, moderator, person);
        assert(r4.skip(4 * communities.skip(1).len() as int) =~= replies.skip(
            4 * communities.len() as int,
        ));
        let first = community_ban_actions(communities[0], moderator, person);
        let others = community_bans_actions(communities.skip(1), moderator, person);
        assert(actions(p0, replies) =~= first + actions(rest, r4));
        let last = actions(next, replies.skip(4 * communities.len() as int));
        assert(first + (others + last) =~= (first + others) + last);
    }
}

/// What is done to ban a person: the ban itself, the removal of what they have written, the log
/// entry, and the bans from the communities that the list names.
pub open spec fn ban_actions(
    moderator: PersonView,
    person: PersonId,
    banned: PersonView,
    communities: Seq<CommunityId>,
) -> Seq<ActionView> {
    seq![
        ban_action(person),
        ActionView::RemoveUserData(banned.id),
        ActionView::CreateModBan(mod_ban_form(moderator.id, banned.id)),
        ActionView::ListLocalCommunityIds(banned.id),
    ] + community_bans_actions(communities, moderator, banned)
}

proof fn successful_ban<E>(
    moderator: PersonView,
    person: PersonId,
    next: Program<E>,
    replies: Seq<ReplyView<E>>,
)
    requires
        conforms(ban_person::<E>(moderator, person, next), replies),
        remainder(ban_person::<E>(moderator, person, next), replies) == success::<E>(),
    ensures
        ({
            let banned = replies[0]->Person_0->Ok_0;
            let communities = replies[3]->CommunityIds_0->Ok_0;
            let rest = replies.skip(4 + 4 * communities.len() as int);
            &&& replies[0] == ReplyView::<E>::Person(Ok(banned))
            &&& replies[3] == ReplyView::<E>::CommunityIds(Ok(communities))
            &&& replies.len() >= 4 + 4 * communities.len()
            &&& conforms(next, rest)
            &&& remainder(next, rest) == success::<E>()
            &&& actions(ban_person::<E>(moderator, person, next), replies) == ban_actions(
                moderator,
                person,
                banned,
                communities,
            ) + actions(next, rest)
        }),
{
    let p0 = ban_person::<E>(moderator, person, next);
    successful_run_goes_on(p0, replies);
    let r1 = replies.skip(1);
    let p1 = continuation(p0, replies[0]);
    if replies[0]->Person_0 is Err {
        nothing_follows_the_result(p1, r1);
    }
    let banned = replies[0]->Person_0->Ok_0;
    successful_command(ActionView::RemoveUserData(banned.id), log_ban(moderator, banned, next), r1);
    let r2 = r1.skip(1);
    successful_command(
        ActionView::CreateModBan(mod_ban_form(moderator.id, banned.id)),
        ban_from_all(moderator, banned, next),
        r2,
    );
    let r3 = r2.skip(1);
    let p3 = ban_from_all::<E>(moderator, banned, next);
    successful_run_goes_on(p3, r3);
    let r4 = r3.skip(1);
    let p4 = continuation(p3, r3[0]);
    assert(r3[0] == replies[3]);
    if r3[0]->CommunityIds_0 is Err {
        nothing_follows_the_result(p4, r4);
    }
    let communities = replies[3]->CommunityIds_0->Ok_0;
    every_community_bans::<E>(communities, moderator, banned, next, r4);
    let n = 4 * communities.len() as int;
    assert(r4.skip(n) =~= replies.skip(4 + n));
    assert(actions(p0, replies) =~= ban_actions(moderator, person, banned, communities) + actions(
        next,
        replies.skip(4 + n),
    ));
}

/// What the automatic moderator does about an account that is young enough, before it bans anyone:
/// it reports the account, and looks for the moderator or reports that none is set.
pub open spec fn ban_preparations(
    actor_username: Option<Seq<char>>,
    person: PersonView,
) -> Seq<ActionView> {
    seq![
        issuing_ban(AutomodRule::BanFederatedDeletedUser, person.actor_id),
        match actor_username {
            Some(name) => ActionView::ReadLocalUserByName(name),
            None => no_automod_user(AutomodRule::BanFederatedDeletedUser),
        },
    ]
}

/// What the deletion of a remote account that ends well has done: the account was deleted; unless
/// the settings name no age, the time was read, and a person who had been registered too short a
/// time before was reported and, exactly where a moderator is set, banned, from the instance and
/// from all local communities that they took part in; and the clients were told.
pub proof fn successful_person_deletion<E>(
    actor: Seq<char>,
    do_purge_user_account: Option<bool>,
    config: AutomodConfigView,
    person: PersonView,
    replies: Seq<ReplyView<E>>,
)
    requires
        do_purge_user_account != Some(true),
        ({
            let object = DeletableObjectsView::Person(person);
            let p = receive_object::<E>(actor, true, do_purge_user_account, config, object);
            conforms(p, replies) && remainder(p, replies) == success::<E>()
        }),
    ensures
        ({
            let object = DeletableObjectsView::Person(person);
            let acts = actions(
                receive_object::<E>(actor, true, do_purge_user_account, config, object),
                replies,
            );
            let told = ActionView::SendWebsocketMessage { object, deleted: true };
            let removed = seq![ActionView::DeleteAccount(person.id)];
            match config.ban_deleted_persons_created_within_days {
                Some(days) => {
                    let asked = removed.push(ActionView::ReadClock { days_back: days });
                    &&& replies.len() >= 2
                    &&& replies[1] is Time
                    &&& if happened_within(person.published, replies[1]->Time_0, days) {
                        let prepared = asked + ban_preparations(config.actor_username, person);
                        if config.actor_username is Some {
                            let moderator = replies[3]->FoundPerson_0->Ok_0->Some_0;
                            let banned = replies[4]->Person_0->Ok_0;
                            let communities = replies[7]->CommunityIds_0->Ok_0;
                            &&& replies.len() == 9 + 4 * communities.len()
                            &&& replies[3] == ReplyView::<E>::FoundPerson(Ok(Some(moderator)))
                            &&& replies[4] == ReplyView::<E>::Person(Ok(banned))
                            &&& replies[7] == ReplyView::<E>::CommunityIds(Ok(communities))
                            &&& acts == (prepared + ban_actions(
                                moderator,
                                person.id,
                                banned,
                                communities,
                            )).push(told)
                        } else {
                            acts == prepared.push(told)
                        }
                    } else {
                        acts == asked.push(told)
                    }
                },
                None => acts == removed.push(told),
            }
        }),
{
    let object = DeletableObjectsView::Person(person);
    let next = tell_clients::<E>(object, true);
    let told = ActionView::SendWebsocketMessage { object, deleted: true };
    let p0 = delete_person::<E>(config, person, next);
    let p1 = moderate::<E>(config, person, next);
    successful_command(ActionView::DeleteAccount(person.id), p1, replies);
    let removed = seq![ActionView::DeleteAccount(person.id)];
    let r1 = replies.skip(1);
    match config.ban_deleted_persons_created_within_days {
        Some(days) => {
            successful_run_goes_on(p1, r1);
            let r2 = r1.skip(1);
            let p2 = continuation(p1, r1[0]);
            assert(r1[0] == replies[1]);
            let asked = removed.push(ActionView::ReadClock { days_back: days });
            if happened_within(person.published, replies[1]->Time_0, days) {
                successful_run_goes_on(p2, r2);
                let r3 = r2.skip(1);
                let p3 = continuation(p2, r2[0]);
                assert(p3 == ban_by_automod::<E>(config.actor_username, person.id, next));
                successful_run_goes_on(p3, r3);
                let r4 = r3.skip(1);
                let p4 = continuation(p3, r3[0]);
                let prepared = asked + ban_preparations(config.actor_username, person);
                if config.actor_username is Some {
                    assert(r3[0] == replies[3]);
                    if p4 is Return {
                        nothing_follows_the_result(p4, r4);
                    }
                    let moderator = replies[3]->FoundPerson_0->Ok_0->Some_0;
                    successful_ban::<E>(moderator, person.id, next, r4);
                    assert(r4[0] == replies[4]);
                    assert(r4[3] == replies[7]);
                    let banned = replies[4]->Person_0->Ok_0;
                    let communities = replies[7]->CommunityIds_0->Ok_0;
                    clients_are_told(object, true, r4.skip(4 + 4 * communities.len() as int));
                    assert(actions(p0, replies) =~= (prepared + ban_actions(
                        moderator,
                        person.id,
                        banned,
                        communities,
                    )).push(told));
                } else {
                    clients_are_told(object, true, r4);
                    assert(actions(p0, replies) =~= prepared.push(told));
                }
            } else {
                clients_are_told(object, true, r2);
                assert(actions(p0, replies) =~= asked.push(told));
            }
        },
        None => {
            clients_are_told(object, true, r1);
            assert(actions(p0, replies) =~= removed.push(told));
        },
    }
}

proof fn clients_are_told<E>(
    object: DeletableObjectsView,
    deleted: bool,
    replies: Seq<ReplyView<E>>,
)
    requires
        conforms(tell_clients::<E>(object, deleted), replies),
        remainder(tell_clients::<E>(object, deleted), replies) == success::<E>(),
    ensures
        replies.len() == 1,
        actions(tell_clients::<E>(object, deleted), replies) == seq![
            ActionView::SendWebsocketMessage { object, deleted },
        ],
{
    successful_command(
        ActionView::SendWebsocketMessage { object, deleted },
        success(),
        replies,
    );
    nothing_follows_the_result(success::<E>(), replies.skip(1));
}

/// What the deletion or restoring of a community that ends well has done. A local community's
/// followers were told of its deletion, in the name of the actor and not as the act of a
/// moderator, before the community was marked; of a remote one the mark was set at once. The
/// clients were told in the end.
pub proof fn successful_community_deletion<E>(
    actor: Seq<char>,
    deleted: bool,
    do_purge_user_account: Option<bool>,
    config: AutomodConfigView,
    community: CommunityView,
    replies: Seq<ReplyView<E>>,
)
    requires
        ({
            let object = DeletableObjectsView::Community(community);
            let p = receive_object::<E>(actor, deleted, do_purge_user_account, config, object);
            conforms(p, replies) && remainder(p, replies) == success::<E>()
        }),
    ensures
        ({
            let object = DeletableObjectsView::Community(community);
            let acts = actions(
                receive_object::<E>(actor, deleted, do_purge_user_account, config, object),
                replies,
            );
            let mark = ActionView::UpdateCommunity { id: community.id, deleted };
            let told = ActionView::SendWebsocketMessage { object, deleted };
            if community.local {
                let moderator = replies[0]->Person_0->Ok_0;
                let delete = replies[1]->NewDelete_0->Ok_0;
                &&& replies[0] == ReplyView::<E>::Person(Ok(moderator))
                &&& replies[1] == ReplyView::<E>::NewDelete(Ok(delete))
                &&& acts == seq![
                    ActionView::Dereference(actor),
                    ActionView::NewDelete(
                        NewActivityView {
                            actor: moderator,
                            object,
                            to: public_url(),
                            community: Some(community),
                            summary: None,
                        },
                    ),
                    ActionView::SendActivityInCommunity {
                        activity: AnnouncableActivitiesView::Delete(delete),
                        actor: moderator,
                        community,
                        targets: ActivitySendTargetsView::Empty,
                        is_mod_action: false,
                    },
                    mark,
                    told,
                ]
            } else {
                acts == seq![mark, told]
            }
        }),
{
    let object = DeletableObjectsView::Community(community);
    let p0 = receive_object::<E>(actor, deleted, do_purge_user_account, config, object);
    let mark = ActionView::UpdateCommunity { id: community.id, deleted };
    let told = ActionView::SendWebsocketMessage { object, deleted };
    let next = tell_clients::<E>(object, deleted);
    let write = write_community::<E>(community.id, deleted, next);
    if community.local {
        successful_run_goes_on(p0, replies);
        let r1 = replies.skip(1);
        let p1 = continuation(p0, replies[0]);
        if replies[0]->Person_0 is Err {
            nothing_follows_the_result(p1, r1);
        }
        let moderator = replies[0]->Person_0->Ok_0;
        successful_run_goes_on(p1, r1);
        let r2 = r1.skip(1);
        let p2 = continuation(p1, r1[0]);
        if r1[0]->NewDelete_0 is Err {
            nothing_follows_the_result(p2, r2);
        }
        let delete = r1[0]->NewDelete_0->Ok_0;
        let sent = ActionView::SendActivityInCommunity {
            activity: AnnouncableActivitiesView::Delete(delete),
            actor: moderator,
            community,
            targets: ActivitySendTargetsView::Empty,
            is_mod_action: false,
        };
        successful_command(sent, write, r2);
        let r3 = r2.skip(1);
        successful_command(mark, next, r3);
        clients_are_told(object, deleted, r3.skip(1));
        assert(actions(p0, replies) =~= seq![p0->Perform_0, p1->Perform_0, sent, mark, told]);
    } else {
        successful_command(mark, next, replies);
        clients_are_told(object, deleted, replies.skip(1));
        assert(actions(p0, replies) =~= seq![mark, told]);
    }
}

/// What an action makes of a post or comment.
pub open spec fn applied(a: ActionView, object: DeletableObjectsView) -> DeletableObjectsView {
    match (a, object) {
        (ActionView::UpdatePost { id, deleted }, DeletableObjectsView::Post(p)) if id == p.id =>
            DeletableObjectsView::Post(PostView { deleted, ..p }),
        (ActionView::UpdateComment { id, deleted }, DeletableObjectsView::Comment(c)) if id
            == c.id => DeletableObjectsView::Comment(CommentView { deleted, ..c }),
        _ => object,
    }
}

/// What a list of actions makes of a post or comment.
pub open spec fn outcome(
    acts: Seq<ActionView>,
    object: DeletableObjectsView,
) -> DeletableObjectsView {
    acts.fold_left(object, |o: DeletableObjectsView, a: ActionView| applied(a, o))
}

/// A post or comment whose deletion or restoring ends well is deleted, or is not, as was asked,
/// whatever it was before, and is otherwise unchanged.
pub proof fn content_ends_up_as_asked<E>(
    actor: Seq<char>,
    deleted: bool,
    do_purge_user_account: Option<bool>,
    config: AutomodConfigView,
    object: DeletableObjectsView,
    replies: Seq<ReplyView<E>>,
)
    requires
        object is Post || object is Comment,
        conforms(
            receive_object::<E>(actor, deleted, do_purge_user_account, config, object),
            replies,
        ),
        remainder(
            receive_object::<E>(actor, deleted, do_purge_user_account, config, object),
            replies,
        ) == success::<E>(),
    ensures
        outcome(
            actions(
                receive_object::<E>(actor, deleted, do_purge_user_account, config, object),
                replies,
            ),
            object,
        ) == match object {
            DeletableObjectsView::Post(p) => DeletableObjectsView::Post(PostView { deleted, ..p }),
            DeletableObjectsView::Comment(c) => DeletableObjectsView::Comment(
                CommentView { deleted, ..c },
            ),
            _ => object,
        },
{
    let p = receive_object::<E>(actor, deleted, do_purge_user_account, config, object);
    let next = tell_clients::<E>(object, deleted);
    let told = ActionView::SendWebsocketMessage { object, deleted };
    let acts = actions(p, replies);
    reveal_with_fuel(Seq::fold_left, 3);
    if p->Perform_0 == told {
        clients_are_told(object, deleted, replies);
        assert(acts.drop_last() =~= seq![]);
    } else {
        successful_command(p->Perform_0, next, replies);
        clients_are_told(object, deleted, replies.skip(1));
        assert(acts =~= seq![p->Perform_0, told]);
        assert(acts.drop_last() =~= seq![p->Perform_0]);
        assert(acts.drop_last().drop_last() =~= seq![]);
    }
}

/// To delete a post or comment that is deleted, or to restore one that is not, is to do nothing
/// but tell the clients.
pub proof fn repeated_deletion_writes_nothing<E>(
    actor: Seq<char>,
    deleted: bool,
    do_purge_user_account: Option<bool>,
    config: AutomodConfigView,
    object: DeletableObjectsView,
)
    requires
        match object {
            DeletableObjectsView::Post(p) => p.deleted == deleted,
            DeletableObjectsView::Comment(c) => c.deleted == deleted,
            _ => false,
        },
    ensures
        receive_object::<E>(actor, deleted, do_purge_user_account, config, object)
            == tell_clients::<E>(object, deleted),
{
}

/// To restore a person is to do nothing but tell the clients: no account is deleted, purged or
/// banned.
pub proof fn restoring_a_person_writes_nothing<E>(
    actor: Seq<char>,
    do_purge_user_account: Option<bool>,
    config: AutomodConfigView,
    person: PersonView,
)
    ensures
        receive_object::<E>(
            actor,
            false,
            do_purge_user_account,
            config,
            DeletableObjectsView::Person(person),
        ) == tell_clients::<E>(DeletableObjectsView::Person(person), false),
{
}

/// A private message is marked whatever it was before, and nothing else is done but to tell the
/// clients.
pub proof fn private_message_is_always_marked<E>(
    actor: Seq<char>,
    deleted: bool,
    do_purge_user_account: Option<bool>,
    config: AutomodConfigView,
    pm: PrivateMessageView,
    replies: Seq<ReplyView<E>>,
)
    requires
        ({
            let object = DeletableObjectsView::PrivateMessage(pm);
            let p = receive_object::<E>(actor, deleted, do_purge_user_account, config, object);
            conforms(p, replies) && remainder(p, replies) == success::<E>()
        }),
    ensures
        ({
            let object = DeletableObjectsView::PrivateMessage(pm);
            actions(
                receive_object::<E>(actor, deleted, do_purge_user_account, config, object),
                replies,
            ) == seq![
                ActionView::UpdatePrivateMessage { id: pm.id, deleted },
                ActionView::SendWebsocketMessage { object, deleted },
            ]
        }),
{
    let object = DeletableObjectsView::PrivateMessage(pm);
    let mark = ActionView::UpdatePrivateMessage { id: pm.id, deleted };
    successful_command(mark, tell_clients::<E>(object, deleted), replies);
    clients_are_told(object, deleted, replies.skip(1));
    assert(actions(
        receive_object::<E>(actor, deleted, do_purge_user_account, config, object),
        replies,
    ) =~= seq![mark, ActionView::SendWebsocketMessage { object, deleted }]);
}

/// A person whose account is to be purged is purged, and nothing else is done but to tell the
/// clients.
pub proof fn purge_is_all_there_is<E>(
    actor: Seq<char>,
    config: AutomodConfigView,
    person: PersonView,
    replies: Seq<ReplyView<E>>,
)
    requires
        ({
            let object = DeletableObjectsView::Person(person);
            let p = receive_object::<E>(actor, true, Some(true), config, object);
            conforms(p, replies) && remainder(p, replies) == success::<E>()
        }),
    ensures
        ({
            let object = DeletableObjectsView::Person(person);
            actions(receive_object::<E>(actor, true, Some(true), config, object), replies) == seq![
                ActionView::PurgeUserAccount(person.id),
                ActionView::SendWebsocketMessage { object, deleted: true },
            ]
        }),
{
    let object = DeletableObjectsView::Person(person);
    let purge = ActionView::PurgeUserAccount(person.id);
    successful_command(purge, tell_clients::<E>(object, true), replies);
    clients_are_told(object, true, replies.skip(1));
    assert(actions(receive_object::<E>(actor, true, Some(true), config, object), replies) =~= seq![
        purge,
        ActionView::SendWebsocketMessage { object, deleted: true },
    ]);
}

/// An incoming deletion that ends well has found an object, the first of the kinds in their order
/// to have the URL, and has carried out the deletion of that object and nothing else. `n` is the
/// number of kinds of which there was none.
pub proof fn successful_reception<E>(
    object: Seq<char>,
    actor: Seq<char>,
    deleted: bool,
    do_purge_user_account: Option<bool>,
    config: AutomodConfigView,
    replies: Seq<ReplyView<E>>,
) -> (n: int)
    requires
        conforms(receive::<E>(object, actor, deleted, do_purge_user_account, config), replies),
        remainder(
            receive::<E>(object, actor, deleted, do_purge_user_account, config),
            replies,
        ) == success::<E>(),
    ensures
        0 <= n < 5,
        nothing_among_first(replies, n),
        found(search_order()[n], replies[n]) matches Ok(Some(o)) && {
            let p = receive_object::<E>(actor, deleted, do_purge_user_account, config, o);
            let rest = replies.skip(n + 1);
            &&& conforms(p, rest)
            &&& remainder(p, rest) == success::<E>()
            &&& actions(
                receive::<E>(object, actor, deleted, do_purge_user_account, config),
                replies,
            ) == questions(object, n + 1) + actions(p, rest)
        },
{
    let next = receive_step::<E>(actor, deleted, do_purge_user_account, config);
    a_search_asks_in_turn(object, next, replies)
}

/// A post or comment that is deleted and then restored is as it was, and not deleted.
pub proof fn restoring_takes_a_deletion_back<E>(
    actor: Seq<char>,
    do_purge_user_account: Option<bool>,
    config: AutomodConfigView,
    object: DeletableObjectsView,
    deletion: Seq<ReplyView<E>>,
    restoring: Seq<ReplyView<E>>,
)
    requires
        object is Post || object is Comment,
        ({
            let delete = receive_object::<E>(actor, true, do_purge_user_account, config, object);
            let deleted = outcome(actions(delete, deletion), object);
            let restore = receive_object::<E>(actor, false, do_purge_user_account, config, deleted);
            &&& conforms(delete, deletion)
            &&& remainder(delete, deletion) == success::<E>()
            &&& conforms(restore, restoring)
            &&& remainder(restore, restoring) == success::<E>()
        }),
    ensures
        ({
            let delete = receive_object::<E>(actor, true, do_purge_user_account, config, object);
            let deleted = outcome(actions(delete, deletion), object);
            let restore = receive_object::<E>(actor, false, do_purge_user_account, config, deleted);
            outcome(actions(restore, restoring), deleted) == match object {
                DeletableObjectsView::Post(p) => DeletableObjectsView::Post(
                    PostView { deleted: false, ..p },
                ),
                DeletableObjectsView::Comment(c) => DeletableObjectsView::Comment(
                    CommentView { deleted: false, ..c },
                ),
                _ => object,
            }
        }),
{
    content_ends_up_as_asked(actor, true, do_purge_user_account, config, object, deletion);
    let delete = receive_object::<E>(actor, true, do_purge_user_account, config, object);
    let deleted = outcome(actions(delete, deletion), object);
    content_ends_up_as_asked(actor, false, do_purge_user_account, config, deleted, restoring);
}

/// Every run of the program that ends well does this last, and sends no other message to the
/// clients.
spec fn tells_last<E>(p: Program<E>, told: ActionView) -> bool
    decreases p,
{
    match p {
        Program::Return(r) => r is Err,
        Program::Perform(a, k) => if a == told {
            forall|r: ReplyView<E>| (#[trigger] k(r)) is Return
        } else {
            &&& !(a is SendWebsocketMessage)
            &&& forall|r: ReplyView<E>| tells_last(#[trigger] k(r), told)
        },
    }
}

proof fn told_last_in_a_run<E>(p: Program<E>, told: ActionView, replies: Seq<ReplyView<E>>)
    requires
        tells_last(p, told),
        conforms(p, replies),
        remainder(p, replies) == success::<E>(),
    ensures
        actions(p, replies).len() > 0,
        actions(p, replies).last() == told,
        forall|i: int|
            0 <= i < actions(p, replies).len() - 1 ==> !(#[trigger] actions(p, replies)[i]
                is SendWebsocketMessage),
    decreases replies.len(),
{
    if p is Return {
        nothing_follows_the_result(p, replies);
    } else {
        successful_run_goes_on(p, replies);
        let rest = replies.skip(1);
        let later = continuation(p, replies[0]);
        let k = p->Perform_1;
        assert(later == k(replies[0]));
        if p->Perform_0 == told {
            assert(k(replies[0]) is Return);
            nothing_follows_the_result(later, rest);
        } else {
            assert(tells_last(k(replies[0]), told));
            told_last_in_a_run(later, told, rest);
            assert forall|i: int| 0 <= i < actions(p, replies).len() - 1 implies !(
            #[trigger] actions(p, replies)[i] is SendWebsocketMessage) by {
                if i > 0 {
                    assert(actions(p, replies)[i] == actions(later, rest)[i - 1]);
                }
            }
        }
    }
}

proof fn community_bans_tell_last<E>(
    communities: Seq<CommunityId>,
    moderator: PersonView,
    person: PersonView,
    next: Program<E>,
    told: ActionView,
)
    requires
        told is SendWebsocketMessage,
        tells_last(next, told),
    ensures
        tells_last(ban_from_communities::<E>(communities, moderator, person, next), told),
    decreases communities.len(),
{
    reveal_with_fuel(tells_last, 2);
    if communities.len() > 0 {
        let rest = ban_from_communities::<E>(communities.skip(1), moderator, person, next);
        community_bans_tell_last::<E>(communities.skip(1), moderator, person, next, told);
        let news = command(community_ban_news(communities[0], moderator, person), rest);
        assert(tells_last(news, told));
        let entry = command(community_ban_entry(communities[0], moderator.id, person.id), news);
        assert(tells_last(entry, told));
        let leave = attempt(unfollow(communities[0], person.id), entry);
        assert(tells_last(leave, told));
    }
}

proof fn person_deletion_tells_last<E>(
    config: AutomodConfigView,
    person: PersonView,
    next: Program<E>,
    told: ActionView,
)
    requires
        told is SendWebsocketMessage,
        tells_last(next, told),
    ensures
        tells_last(delete_person::<E>(config, person, next), told),
{
    reveal_with_fuel(tells_last, 2);
    assert forall|moderator: PersonView, banned: PersonView| tells_last(
        #[trigger] log_ban::<E>(moderator, banned, next),
        told,
    ) by {
        assert forall|ids: Seq<CommunityId>| tells_last(
            #[trigger] ban_from_communities::<E>(ids, moderator, banned, next),
            told,
        ) by {
            community_bans_tell_last::<E>(ids, moderator, banned, next, told);
        }
        assert(tells_last(ban_from_all::<E>(moderator, banned, next), told));
    }
    assert forall|moderator: PersonView| tells_last(
        #[trigger] ban_person::<E>(moderator, person.id, next),
        told,
    ) by {
        assert forall|banned: PersonView| tells_last(
            #[trigger] command::<E>(
                ActionView::RemoveUserData(banned.id),
                log_ban(moderator, banned, next),
            ),
            told,
        ) by {
            assert(tells_last(log_ban::<E>(moderator, banned, next), told));
        }
    }
    let name = config.actor_username;
    assert(tells_last(ban_by_automod::<E>(name, person.id, next), told));
    assert(tells_last(issue_ban::<E>(name, person.id, person.actor_id, next), told));
    if config.ban_deleted_persons_created_within_days is Some {
        let days = config.ban_deleted_persons_created_within_days->0;
        assert(tells_last(ban_if_recent::<E>(days, name, person, next), told));
    }
    assert(tells_last(moderate::<E>(config, person, next), told));
}

proof fn object_deletion_tells_last<E>(
    actor: Seq<char>,
    deleted: bool,
    do_purge_user_account: Option<bool>,
    config: AutomodConfigView,
    object: DeletableObjectsView,
)
    ensures
        tells_last(
            receive_object::<E>(actor, deleted, do_purge_user_account, config, object),
            ActionView::SendWebsocketMessage { object, deleted },
        ),
{
    reveal_with_fuel(tells_last, 2);
    let told = ActionView::SendWebsocketMessage { object, deleted };
    let next = tell_clients::<E>(object, deleted);
    assert(tells_last(next, told));
    match object {
        DeletableObjectsView::Community(c) => {
            let write = write_community::<E>(c.id, deleted, next);
            assert(tells_last(write, told));
            assert forall|m: PersonView| tells_last(
                #[trigger] send_in_community(m, c, object, None, true, write),
                told,
            ) by {
                assert forall|d: DeleteView| tells_last(
                    #[trigger] announce(AnnouncableActivitiesView::Delete(d), m, c, false, write),
                    told,
                ) by {}
            }
            assert(tells_last(tell_followers::<E>(actor, c, deleted, next), told));
        },
        DeletableObjectsView::Person(p) => {
            person_deletion_tells_last::<E>(config, p, next, told);
        },
        _ => {},
    }
}

/// An incoming deletion that ends well tells the clients of the deletion or restoring of the
/// object that was found, once, and in the end. `n` is the number of kinds of object of which
/// there was none.
pub proof fn clients_are_told_in_the_end<E>(
    object: Seq<char>,
    actor: Seq<char>,
    deleted: bool,
    do_purge_user_account: Option<bool>,
    config: AutomodConfigView,
    replies: Seq<ReplyView<E>>,
) -> (n: int)
    requires
        conforms(receive::<E>(object, actor, deleted, do_purge_user_account, config), replies),
        remainder(
            receive::<E>(object, actor, deleted, do_purge_user_account, config),
            replies,
        ) == success::<E>(),
    ensures
        0 <= n < 5,
        nothing_among_first(replies, n),
        found(search_order()[n], replies[n]) matches Ok(Some(o)) && {
            let acts = actions(
                receive::<E>(object, actor, deleted, do_purge_user_account, config),
                replies,
            );
            &&& acts.len() > 0
            &&& acts.last() == (ActionView::SendWebsocketMessage { object: o, deleted })
            &&& forall|i: int|
                0 <= i < acts.len() - 1 ==> !(#[trigger] acts[i] is SendWebsocketMessage)
        },
{
    let p = receive::<E>(object, actor, deleted, do_purge_user_account, config);
    let n = successful_reception::<E>(
        object,
        actor,
        deleted,
        do_purge_user_account,
        config,
        replies,
    );
    let o = found(search_order()[n], replies[n])->Ok_0->Some_0;
    let later = receive_object::<E>(actor, deleted, do_purge_user_account, config, o);
    let rest = replies.skip(n + 1);
    object_deletion_tells_last::<E>(actor, deleted, do_purge_user_account, config, o);
    told_last_in_a_run(later, ActionView::SendWebsocketMessage { object: o, deleted }, rest);
    let acts = actions(p, replies);
    assert(acts.last() == actions(later, rest).last());
    assert forall|i: int| 0 <= i < acts.len() - 1 implies !(#[trigger] acts[i]
        is SendWebsocketMessage) by {
        if i < n + 1 {
            assert(acts[i] == questions(object, n + 1)[i]);
        } else {
            assert(acts[i] == actions(later, rest)[i - (n + 1)]);
        }
    }
    n
}

impl ActionView {
    /// The action marks an object as deleted or restored.
    pub open spec fn is_mark(self) -> bool {
        match self {
            ActionView::UpdateCommunity { .. } => true,
            ActionView::UpdatePost { .. } => true,
            ActionView::UpdateComment { .. } => true,
            ActionView::UpdatePrivateMessage { .. } => true,
            _ => false,
        }
    }
}

/// Those of the actions that mark an object as deleted or restored.
pub open spec fn marks(acts: Seq<ActionView>) -> Seq<ActionView> {
    acts.filter(|a: ActionView| a.is_mark())
}

/// The mark on a community or private message.
pub open spec fn mark_of(object: DeletableObjectsView, deleted: bool) -> ActionView
    recommends
        object is Community || object is PrivateMessage,
{
    match object {
        DeletableObjectsView::Community(c) => ActionView::UpdateCommunity { id: c.id, deleted },
        _ => ActionView::UpdatePrivateMessage { id: object->PrivateMessage_0.id, deleted },
    }
}

proof fn one_action_more(acts: Seq<ActionView>, a: ActionView)
    ensures
        marks(acts.push(a)) == if a.is_mark() {
            marks(acts).push(a)
        } else {
            marks(acts)
        },
{
    reveal(Seq::filter);
    assert(acts.push(a).drop_last() =~= acts);
}

/// A community or private message whose deletion or restoring ends well was marked once, as was
/// asked, and no other object was marked.
pub proof fn one_mark_is_set<E>(
    actor: Seq<char>,
    deleted: bool,
    do_purge_user_account: Option<bool>,
    config: AutomodConfigView,
    object: DeletableObjectsView,
    replies: Seq<ReplyView<E>>,
)
    requires
        object is Community || object is PrivateMessage,
        conforms(
            receive_object::<E>(actor, deleted, do_purge_user_account, config, object),
            replies,
        ),
        remainder(
            receive_object::<E>(actor, deleted, do_purge_user_account, config, object),
            replies,
        ) == success::<E>(),
    ensures
        marks(
            actions(
                receive_object::<E>(actor, deleted, do_purge_user_account, config, object),
                replies,
            ),
        ) == seq![mark_of(object, deleted)],
{
    let acts = actions(
        receive_object::<E>(actor, deleted, do_purge_user_account, config, object),
        replies,
    );
    let told = ActionView::SendWebsocketMessage { object, deleted };
    let mark = mark_of(object, deleted);
    let none = Seq::<ActionView>::empty();
    assert(marks(none) =~= none) by {
        reveal(Seq::filter);
    }
    match object {
        DeletableObjectsView::Community(c) => {
            successful_community_deletion::<E>(
                actor,
                deleted,
                do_purge_user_account,
                config,
                c,
                replies,
            );
            if c.local {
                let s1 = none.push(acts[0]);
                let s2 = s1.push(acts[1]);
                let s3 = s2.push(acts[2]);
                one_action_more(none, acts[0]);
                one_action_more(s1, acts[1]);
                one_action_more(s2, acts[2]);
                one_action_more(s3, mark);
                one_action_more(s3.push(mark), told);
                assert(acts =~= s3.push(mark).push(told));
            } else {
                one_action_more(none, mark);
                one_action_more(none.push(mark), told);
                assert(acts =~= none.push(mark).push(told));
            }
        },
        _ => {
            private_message_is_always_marked::<E>(
                actor,
                deleted,
                do_purge_user_account,
                config,
                object->PrivateMessage_0,
                replies,
            );
            one_action_more(none, mark);
            one_action_more(none.push(mark), told);
            assert(acts =~= none.push(mark).push(told));
        },
    }
}

/// A community or private message that is deleted and then restored is marked as deleted and then
/// as restored, and no other mark is set: the last one takes the deletion back.
pub proof fn restoring_sets_the_last_mark<E>(
    actor: Seq<char>,
    do_purge_user_account: Option<bool>,
    config: AutomodConfigView,
    object: DeletableObjectsView,
    deletion: Seq<ReplyView<E>>,
    restoring: Seq<ReplyView<E>>,
)
    requires
        object is Community || object is PrivateMessage,
        ({
            let delete = receive_object::<E>(actor, true, do_purge_user_account, config, object);
            let restore = receive_object::<E>(actor, false, do_purge_user_account, config, object);
            &&& conforms(delete, deletion)
            &&& remainder(delete, deletion) == success::<E>()
            &&& conforms(restore, restoring)
            &&& remainder(restore, restoring) == success::<E>()
        }),
    ensures
        ({
            let delete = receive_object::<E>(actor, true, do_purge_user_account, config, object);
            let restore = receive_object::<E>(actor, false, do_purge_user_account, config, object);
            marks(actions(delete, deletion) + actions(restore, restoring)) == seq![
                mark_of(object, true),
                mark_of(object, false),
            ]
        }),
{
    let delete = receive_object::<E>(actor, true, do_purge_user_account, config, object);
    let restore = receive_object::<E>(actor, false, do_purge_user_account, config, object);
    one_mark_is_set(actor, true, do_purge_user_account, config, object, deletion);
    one_mark_is_set(actor, false, do_purge_user_account, config, object, restoring);
    Seq::filter_distributes_over_add(
        actions(delete, deletion),
        actions(restore, restoring),
        |a: ActionView| a.is_mark(),
    );
    assert(seq![mark_of(object, true)] + seq![mark_of(object, false)] =~= seq![
        mark_of(object, true),
        mark_of(object, false),
    ]);
}

proof fn only_young_persons_are_banned<E>(
    config: AutomodConfigView,
    person: PersonView,
    next: Program<E>,
    replies: Seq<ReplyView<E>>,
    i: int,
)
    requires
        every_action(next, harmless()),
        conforms(delete_person::<E>(config, person, next), replies),
        0 <= i < actions(delete_person::<E>(config, person, next), replies).len(),
        actions(delete_person::<E>(config, person, next), replies)[i].bans(),
    ensures
        config.actor_username is Some,
        config.ban_deleted_persons_created_within_days is Some,
        replies.len() > 1,
        replies[1] is Time,
        happened_within(
            person.published,
            replies[1]->Time_0,
            config.ban_deleted_persons_created_within_days->0,
        ),
{
    let p0 = delete_person::<E>(config, person, next);
    later_action(p0, replies, i);
    let p1 = continuation(p0, replies[0]);
    let r1 = replies.skip(1);
    if p1 is Return {
        nothing_follows_the_result(p1, r1);
    }
    assert(p1 == moderate::<E>(config, person, next));
    if config.ban_deleted_persons_created_within_days is None {
        harmless_action(next, r1, i - 1);
    }
    later_action(p1, r1, i - 1);
    assert(conforms(p1, r1));
    assert(r1[0] == replies[1]);
    let p2 = continuation(p1, r1[0]);
    let r2 = r1.skip(1);
    let days = config.ban_deleted_persons_created_within_days->0;
    if !happened_within(person.published, replies[1]->Time_0, days) {
        harmless_action(next, r2, i - 2);
    } else if config.actor_username is None {
        assert(every_action(p2, harmless())) by {
            reveal_with_fuel(every_action, 2);
            assert(every_action(
                ban_by_automod::<E>(config.actor_username, person.id, next),
                harmless(),
            ));
        }
        harmless_action(p2, r2, i - 2);
    }
}

/// The action bans nobody.
spec fn harmless() -> spec_fn(ActionView) -> bool {
    |a: ActionView| !a.bans()
}

proof fn harmless_action<E>(p: Program<E>, replies: Seq<ReplyView<E>>, i: int)
    requires
        every_action(p, harmless()),
        0 <= i < actions(p, replies).len(),
    ensures
        !actions(p, replies)[i].bans(),
{
    every_action_of_a_run(p, harmless(), replies);
    assert(harmless()(actions(p, replies)[i]));
}

proof fn only_persons_are_banned<E>(
    actor: Seq<char>,
    deleted: bool,
    do_purge_user_account: Option<bool>,
    config: AutomodConfigView,
    object: DeletableObjectsView,
    replies: Seq<ReplyView<E>>,
    i: int,
)
    requires
        0 <= i < actions(
            receive_object::<E>(actor, deleted, do_purge_user_account, config, object),
            replies,
        ).len(),
        actions(
            receive_object::<E>(actor, deleted, do_purge_user_account, config, object),
            replies,
        )[i].bans(),
    ensures
        object is Person,
        deleted,
        do_purge_user_account != Some(true),
{
    let p = receive_object::<E>(actor, deleted, do_purge_user_account, config, object);
    if !(object is Person && deleted && do_purge_user_account != Some(true)) {
        assert(every_action(p, harmless())) by {
            reveal_with_fuel(every_action, 2);
            let next = tell_clients::<E>(object, deleted);
            assert(every_action(next, harmless()));
            match object {
                DeletableObjectsView::Community(c) => {
                    let write = write_community::<E>(c.id, deleted, next);
                    assert(every_action(write, harmless()));
                    assert forall|m: PersonView| every_action(
                        #[trigger] send_in_community(m, c, object, None, true, write),
                        harmless(),
                    ) by {
                        assert forall|d: DeleteView| every_action(
                            #[trigger] announce(
                                AnnouncableActivitiesView::Delete(d),
                                m,
                                c,
                                false,
                                write,
                            ),
                            harmless(),
                        ) by {}
                    }
                    assert(every_action(
                        tell_followers::<E>(actor, c, deleted, next),
                        harmless(),
                    ));
                },
                _ => {},
            }
        }
        harmless_action(p, replies, i);
    }
}

/// A person is banned only where it is their account that is to be deleted and not purged, the
/// settings say how young an account has to be and who bans it, and it was that young when the
/// time was read.
pub proof fn only_young_remote_accounts_are_banned<E>(
    object: Seq<char>,
    actor: Seq<char>,
    deleted: bool,
    do_purge_user_account: Option<bool>,
    config: AutomodConfigView,
    replies: Seq<ReplyView<E>>,
    i: int,
)
    requires
        conforms(receive::<E>(object, actor, deleted, do_purge_user_account, config), replies),
        0 <= i < actions(
            receive::<E>(object, actor, deleted, do_purge_user_account, config),
            replies,
        ).len(),
        actions(
            receive::<E>(object, actor, deleted, do_purge_user_account, config),
            replies,
        )[i].bans(),
    ensures
        deleted,
        do_purge_user_account != Some(true),
        config.actor_username is Some,
        config.ban_deleted_persons_created_within_days is Some,
        replies.len() > 3,
        replies[0] == ReplyView::<E>::FoundCommunity(Ok(None)),
        replies[1] matches ReplyView::FoundPerson(Ok(Some(person))) && replies[3]
            matches ReplyView::Time(now) && happened_within(
            person.published,
            now,
            config.ban_deleted_persons_created_within_days->0,
        ),
{
    let next = receive_step::<E>(actor, deleted, do_purge_user_account, config);
    let p = receive::<E>(object, actor, deleted, do_purge_user_account, config);
    let n = a_search_asks_in_turn(object, next, replies);
    assert forall|m: int, j: int| 0 <= j < m implies !(#[trigger] questions(
        object,
        m,
    )[j]).bans() by {}
    assert(n < 5 && n < replies.len() && found(search_order()[n], replies[n]) is Ok);
    let found_object = found(search_order()[n], replies[n])->Ok_0->Some_0;
    let rest = replies.skip(n + 1);
    let later = actions(next(found_object), rest);
    assert(i >= n + 1);
    assert(actions(p, replies)[i] == later[i - (n + 1)]);
    only_persons_are_banned::<E>(
        actor,
        deleted,
        do_purge_user_account,
        config,
        found_object,
        rest,
        i - (n + 1),
    );
    let person = found_object->Person_0;
    let end = tell_clients::<E>(found_object, deleted);
    assert(every_action(end, harmless())) by {
        reveal_with_fuel(every_action, 2);
    }
    only_young_persons_are_banned::<E>(config, person, end, rest, i - (n + 1));
    a_run_hands_out_its_actions(p, replies);
    assert(n == 1);
    assert(rest[1] == replies[3]);
    assert(found(search_order()[0], replies[0]) == Ok::<Option<DeletableObjectsView>, E>(None));
    assert(actions(p, replies)[0].admits(replies[0]));
    assert(actions(p, replies)[1].admits(replies[1]));
}

proof fn community_bans_end<E>(
    communities: Seq<CommunityId>,
    moderator: PersonView,
    person: PersonView,
    next: Program<E>,
    bound: nat,
)
    requires
        ends_within(next, bound),
    ensures
        ends_within(
            ban_from_communities::<E>(communities, moderator, person, next),
            4 * communities.len() + bound,
        ),
    decreases communities.len(),
{
    if communities.len() > 0 {
        reveal_with_fuel(ends_within, 2);
        let left = 4 * communities.skip(1).len() + bound;
        let rest = ban_from_communities::<E>(communities.skip(1), moderator, person, next);
        community_bans_end::<E>(communities.skip(1), moderator, person, next, bound);
        let news = command(community_ban_news(communities[0], moderator, person), rest);
        assert(ends_within(news, left + 1));
        let entry = command(community_ban_entry(communities[0], moderator.id, person.id), news);
        assert(ends_within(entry, left + 2));
        let leave = attempt(unfollow(communities[0], person.id), entry);
        assert(ends_within(leave, left + 3));
    }
}

proof fn person_deletion_ends<E>(
    config: AutomodConfigView,
    person: PersonView,
    next: Program<E>,
    replies: Seq<ReplyView<E>>,
)
    requires
        ends_within(next, 1),
        conforms(delete_person::<E>(config, person, next), replies),
    ensures
        replies.len() > 8 ==> (replies[7] matches ReplyView::CommunityIds(Ok(communities))
            && replies.len() <= 9 + 4 * communities.len()),
{
    if replies.len() > 8 {
        let p0 = delete_person::<E>(config, person, next);
        let r1 = replies.skip(1);
        let p1 = continuation(p0, replies[0]);
        assert(conforms(p1, r1));
        if config.ban_deleted_persons_created_within_days is None && p1 is Perform {
            a_bounded_program_ends(next, 1, r1);
        }
        let r2 = r1.skip(1);
        let p2 = continuation(p1, r1[0]);
        assert(conforms(p2, r2));
        let days = config.ban_deleted_persons_created_within_days->0;
        if !happened_within(person.published, r1[0]->Time_0, days) {
            a_bounded_program_ends(next, 1, r2);
        }
        let r3 = r2.skip(1);
        let p3 = continuation(p2, r2[0]);
        assert(conforms(p3, r3));
        assert(p3 == ban_by_automod::<E>(config.actor_username, person.id, next));
        let r4 = r3.skip(1);
        let p4 = continuation(p3, r3[0]);
        assert(conforms(p4, r4));
        if config.actor_username is None {
            a_bounded_program_ends(next, 1, r4);
        }
        let r5 = r4.skip(1);
        let p5 = continuation(p4, r4[0]);
        assert(conforms(p5, r5));
        let r6 = r5.skip(1);
        let p6 = continuation(p5, r5[0]);
        assert(conforms(p6, r6));
        let r7 = r6.skip(1);
        let p7 = continuation(p6, r6[0]);
        assert(conforms(p7, r7));
        let r8 = r7.skip(1);
        let p8 = continuation(p7, r7[0]);
        assert(conforms(p8, r8));
        assert(awaits(p8, r8[0]));
        assert(r7[0] == replies[7]);
        let moderator = r3[0]->FoundPerson_0->Ok_0->Some_0;
        let banned = r4[0]->Person_0->Ok_0;
        assert(p4 == ban_person::<E>(moderator, person.id, next));
        assert(p5 == command::<E>(
            ActionView::RemoveUserData(banned.id),
            log_ban(moderator, banned, next),
        ));
        assert(p6 == log_ban::<E>(moderator, banned, next));
        assert(p7 == ban_from_all::<E>(moderator, banned, next));
        let communities = r7[0]->CommunityIds_0->Ok_0;
        community_bans_end::<E>(communities, moderator, banned, next, 1);
        a_bounded_program_ends(p8, 4 * communities.len() + 1, r8);
    }
}

/// An incoming deletion ends after at most eleven actions, and four more for each local community
/// that a person is banned from.
pub proof fn reception_ends<E>(
    object: Seq<char>,
    actor: Seq<char>,
    deleted: bool,
    do_purge_user_account: Option<bool>,
    config: AutomodConfigView,
    replies: Seq<ReplyView<E>>,
)
    requires
        conforms(receive::<E>(object, actor, deleted, do_purge_user_account, config), replies),
    ensures
        replies.len() > 10 ==> (replies[9] matches ReplyView::CommunityIds(Ok(communities))
            && replies.len() <= 11 + 4 * communities.len()),
{
    let next = receive_step::<E>(actor, deleted, do_purge_user_account, config);
    let n = a_search_asks_in_turn(object, next, replies);
    if replies.len() > 10 {
        let found_object = found(search_order()[n], replies[n])->Ok_0->Some_0;
        let rest = replies.skip(n + 1);
        let later = next(found_object);
        let end = tell_clients::<E>(found_object, deleted);
        assert(ends_within(end, 1)) by {
            reveal_with_fuel(ends_within, 2);
        }
        if found_object is Person && deleted && do_purge_user_account != Some(true) {
            let person = found_object->Person_0;
            person_deletion_ends::<E>(config, person, end, rest);
            assert(n == 1);
            assert(rest[7] == replies[9]);
        } else {
            assert(ends_within(later, 5)) by {
                reveal_with_fuel(ends_within, 2);
                assert(ends_within(success::<E>(), 4));
                assert(ends_within(end, 4));
                assert(ends_within(end, 5));
                match found_object {
                    DeletableObjectsView::Community(c) => {
                        let write = write_community::<E>(c.id, deleted, end);
                        assert(ends_within(write, 2));
                        assert forall|m: PersonView| ends_within(
                            #[trigger] send_in_community(m, c, found_object, None, true, write),
                            4,
                        ) by {
                            assert forall|d: DeleteView| ends_within(
                                #[trigger] announce(
                                    AnnouncableActivitiesView::Delete(d),
                                    m,
                                    c,
                                    false,
                                    write,
                                ),
                                3,
                            ) by {}
                        }
                        assert(ends_within(write, 5));
                        assert(ends_within(tell_followers::<E>(actor, c, deleted, end), 5));
                    },
                    _ => {},
                }
            }
            a_bounded_program_ends(later, 5, rest);
        }
    }
}

} // verus!
