//! What holds of every deletion of a local account.

use vstd::prelude::*;

use crate::account::{
    account_deletion, announce_ban, announce_removal, ban_by_automod, ban_if_recent, ban_person,
    issue_ban, log_ban, log_out, moderate, removal,
};
use crate::actions::{ActionView, AutomodRule, DeletionError, ReplyView, SendActivityDataView};
use crate::automod::{
    automod_reason, ban_action, issuing_ban, mod_ban_form, no_automod_user, AutomodConfigView,
};
use crate::clock::happened_within;
use crate::laws::{
    a_bounded_program_ends, ends_within, errors_come_from_actions, failure_ends_the_run,
    later_action, no_tolerance, nothing_follows_the_result, reported, reports, stops_on_failure,
    successful_command, successful_run_goes_on,
};
use crate::objects::{LocalUserId, PersonView};
use crate::program::{actions, command, conforms, continuation, failure, remainder, success};

verus! {

/// Who gives the wrong password gets an error, and nothing is done.
pub proof fn wrong_password_does_nothing<E>(
    delete_content: bool,
    config: AutomodConfigView,
    local_user: LocalUserId,
    person: PersonView,
    replies: Seq<ReplyView<E>>,
)
    ensures
        ({
            let p = account_deletion::<E>(false, delete_content, config, local_user, person);
            &&& actions(p, replies) == Seq::<ActionView>::empty()
            &&& remainder(p, replies) == failure::<E>(DeletionError::IncorrectLogin)
        }),
{
    nothing_follows_the_result(
        account_deletion::<E>(false, delete_content, config, local_user, person),
        replies,
    );
}

proof fn moderation_stops<E>(delete_content: bool, config: AutomodConfigView, person: PersonView)
    ensures
        stops_on_failure(moderate::<E>(delete_content, config, person), no_tolerance()),
{
    reveal_with_fuel(stops_on_failure, 2);
    assert forall|moderator: PersonView| stops_on_failure(
        #[trigger] log_ban::<E>(moderator, person),
        no_tolerance(),
    ) by {
        assert(stops_on_failure(announce_ban::<E>(moderator, person), no_tolerance()));
    }
    assert forall|moderator: PersonView| stops_on_failure(
        #[trigger] ban_person::<E>(moderator, person),
        no_tolerance(),
    ) by {
        assert(stops_on_failure(log_ban::<E>(moderator, person), no_tolerance()));
        assert forall|banned: PersonView| stops_on_failure(
            #[trigger] command::<E>(
                ActionView::RemoveUserData(banned.id),
                log_ban(moderator, person),
            ),
            no_tolerance(),
        ) by {}
    }
    assert(stops_on_failure(ban_by_automod::<E>(config.actor_username, person), no_tolerance()));
    assert(stops_on_failure(issue_ban::<E>(config.actor_username, person), no_tolerance()));
}

/// The first action that fails ends the deletion of an account, with its error.
pub proof fn account_deletion_stops_on_failure<E>(
    valid: bool,
    delete_content: bool,
    config: AutomodConfigView,
    local_user: LocalUserId,
    person: PersonView,
    replies: Seq<ReplyView<E>>,
    i: int,
)
    requires
        conforms(
            account_deletion::<E>(valid, delete_content, config, local_user, person),
            replies,
        ),
        0 <= i < replies.len(),
        replies[i].error() is Some,
    ensures
        i == replies.len() - 1,
        reports(
            remainder(
                account_deletion::<E>(valid, delete_content, config, local_user, person),
                replies,
            ),
            actions(
                account_deletion::<E>(valid, delete_content, config, local_user, person),
                replies,
            )[i],
            replies[i].error()->0,
        ),
{
    account_deletion_stops::<E>(valid, delete_content, config, local_user, person);
    failure_ends_the_run(
        account_deletion::<E>(valid, delete_content, config, local_user, person),
        no_tolerance(),
        replies,
        i,
    );
}

proof fn account_deletion_stops<E>(
    valid: bool,
    delete_content: bool,
    config: AutomodConfigView,
    local_user: LocalUserId,
    person: PersonView,
)
    ensures
        stops_on_failure(
            account_deletion::<E>(valid, delete_content, config, local_user, person),
            no_tolerance(),
        ),
{
    reveal_with_fuel(stops_on_failure, 2);
    moderation_stops::<E>(delete_content, config, person);
    assert(stops_on_failure(
        announce_removal::<E>(delete_content, config, person),
        no_tolerance(),
    ));
    assert(stops_on_failure(
        log_out::<E>(delete_content, config, local_user, person),
        no_tolerance(),
    ));
}

/// The deletion of an account ends with the error of an action only where the last action failed
/// with it: with `CouldntUpdateUser` where that action was the update of a person, and with
/// `Service` where it was another.
pub proof fn account_deletion_reports_failures_only<E>(
    valid: bool,
    delete_content: bool,
    config: AutomodConfigView,
    local_user: LocalUserId,
    person: PersonView,
    replies: Seq<ReplyView<E>>,
)
    requires
        conforms(
            account_deletion::<E>(valid, delete_content, config, local_user, person),
            replies,
        ),
        reported(
            remainder(
                account_deletion::<E>(valid, delete_content, config, local_user, person),
                replies,
            ),
        ) is Some,
    ensures
        ({
            let p = account_deletion::<E>(valid, delete_content, config, local_user, person);
            &&& replies.len() > 0
            &&& replies.last().error() == reported(remainder(p, replies))
            &&& reports(
                remainder(p, replies),
                actions(p, replies)[replies.len() - 1],
                replies.last().error()->0,
            )
        }),
{
    let p = account_deletion::<E>(valid, delete_content, config, local_user, person);
    if p is Return {
        nothing_follows_the_result(p, replies);
    }
    account_deletion_stops::<E>(valid, delete_content, config, local_user, person);
    errors_come_from_actions(p, no_tolerance(), replies);
}

/// The actions by which a person is banned in the name of a moderator, after the ban itself has
/// been written.
pub open spec fn ban_actions(
    moderator: PersonView,
    person: PersonView,
    banned: PersonView,
) -> Seq<ActionView> {
    seq![
        ban_action(person.id),
        ActionView::RemoveUserData(banned.id),
        ActionView::CreateModBan(mod_ban_form(moderator.id, person.id)),
        ActionView::SubmitActivity(
            SendActivityDataView::BanFromSite {
                moderator,
                banned_user: person,
                reason: automod_reason(),
                remove_data: Some(true),
                ban: true,
                expires: None,
            },
        ),
    ]
}

proof fn successful_ban<E>(
    moderator: PersonView,
    person: PersonView,
    replies: Seq<ReplyView<E>>,
) -> (banned: PersonView)
    requires
        conforms(ban_person::<E>(moderator, person), replies),
        remainder(ban_person::<E>(moderator, person), replies) == success::<E>(),
    ensures
        replies.len() == 4,
        replies[0] == ReplyView::<E>::Person(Ok(banned)),
        actions(ban_person::<E>(moderator, person), replies) == ban_actions(
            moderator,
            person,
            banned,
        ),
{
    let p0 = ban_person::<E>(moderator, person);
    successful_run_goes_on(p0, replies);
    let r1 = replies.skip(1);
    let p1 = continuation(p0, replies[0]);
    if replies[0]->Person_0 is Err {
        nothing_follows_the_result(p1, r1);
    }
    let banned = replies[0]->Person_0->Ok_0;
    assert(p1 == command::<E>(ActionView::RemoveUserData(banned.id), log_ban(moderator, person)));
    successful_command(ActionView::RemoveUserData(banned.id), log_ban(moderator, person), r1);
    let r2 = r1.skip(1);
    successful_command(
        ActionView::CreateModBan(mod_ban_form(moderator.id, person.id)),
        announce_ban(moderator, person),
        r2,
    );
    let r3 = r2.skip(1);
    successful_command(ban_actions(moderator, person, banned)[3], success(), r3);
    nothing_follows_the_result(success::<E>(), r3.skip(1));
    assert(actions(p0, replies) =~= ban_actions(moderator, person, banned));
    banned
}

/// The actions that every deletion of an account takes, if nothing fails.
pub open spec fn removal_actions(
    delete_content: bool,
    local_user: LocalUserId,
    person: PersonView,
) -> Seq<ActionView> {
    seq![
        removal(delete_content, person.id),
        ActionView::InvalidateLoginTokens(local_user),
        ActionView::SubmitActivity(SendActivityDataView::DeleteUser(person, delete_content)),
    ]
}

/// What the automatic moderator does about an account that is young enough, before it bans anyone:
/// it reports the account, and looks for the moderator or reports that none is set.
pub open spec fn ban_preparations(
    actor_username: Option<Seq<char>>,
    person: PersonView,
) -> Seq<ActionView> {
    seq![
        issuing_ban(AutomodRule::BanLocalDeletedUser, person.name),
        match actor_username {
            Some(name) => ActionView::ReadPersonByName { name, include_deleted: false },
            None => no_automod_user(AutomodRule::BanLocalDeletedUser),
        },
    ]
}

proof fn successful_moderation<E>(
    days: u64,
    actor_username: Option<Seq<char>>,
    person: PersonView,
    replies: Seq<ReplyView<E>>,
)
    requires
        conforms(ban_if_recent::<E>(days, actor_username, person), replies),
        remainder(ban_if_recent::<E>(days, actor_username, person), replies) == success::<E>(),
    ensures
        replies.len() > 0,
        replies[0] is Time,
        ({
            let acts = actions(ban_if_recent::<E>(days, actor_username, person), replies);
            let clock = seq![ActionView::ReadClock { days_back: days }];
            if happened_within(person.published, replies[0]->Time_0, days) {
                let prepared = clock + ban_preparations(actor_username, person);
                if actor_username is Some {
                    let moderator = replies[2]->FoundPerson_0->Ok_0->Some_0;
                    let banned = replies[3]->Person_0->Ok_0;
                    &&& replies.len() == 7
                    &&& replies[2] == ReplyView::<E>::FoundPerson(Ok(Some(moderator)))
                    &&& replies[3] == ReplyView::<E>::Person(Ok(banned))
                    &&& acts == prepared + ban_actions(moderator, person, banned)
                } else {
                    replies.len() == 3 && acts == prepared
                }
            } else {
                replies.len() == 1 && acts == clock
            }
        }),
{
    let p0 = ban_if_recent::<E>(days, actor_username, person);
    let clock = seq![ActionView::ReadClock { days_back: days }];
    successful_run_goes_on(p0, replies);
    let r1 = replies.skip(1);
    let p1 = continuation(p0, replies[0]);
    if happened_within(person.published, replies[0]->Time_0, days) {
        let prepared = clock + ban_preparations(actor_username, person);
        successful_run_goes_on(p1, r1);
        let r2 = r1.skip(1);
        let p2 = continuation(p1, r1[0]);
        assert(p2 == ban_by_automod::<E>(actor_username, person));
        successful_run_goes_on(p2, r2);
        let r3 = r2.skip(1);
        let p3 = continuation(p2, r2[0]);
        assert(r2[0] == replies[2]);
        if p3 is Return {
            nothing_follows_the_result(p3, r3);
            assert(actions(p0, replies) =~= prepared);
        } else {
            let moderator = r2[0]->FoundPerson_0->Ok_0->Some_0;
            let banned = successful_ban::<E>(moderator, person, r3);
            assert(r3[0] == replies[3]);
            assert(actions(p0, replies) =~= prepared + ban_actions(moderator, person, banned));
        }
    } else {
        nothing_follows_the_result(p1, r1);
        assert(actions(p0, replies) =~= clock);
    }
}

/// What a deletion of an account that ends well has done: the password was right; the account
/// was removed, logged out and its removal announced, in this order; and, unless it was purged
/// or the settings name no age, the time was read, and a person who had been registered too short
/// a time before was reported, and banned exactly where a moderator is set.
pub proof fn successful_account_deletion<E>(
    valid: bool,
    delete_content: bool,
    config: AutomodConfigView,
    local_user: LocalUserId,
    person: PersonView,
    replies: Seq<ReplyView<E>>,
)
    requires
        conforms(
            account_deletion::<E>(valid, delete_content, config, local_user, person),
            replies,
        ),
        remainder(
            account_deletion::<E>(valid, delete_content, config, local_user, person),
            replies,
        ) == success::<E>(),
    ensures
        valid,
        ({
            let acts = actions(
                account_deletion::<E>(valid, delete_content, config, local_user, person),
                replies,
            );
            let removed = removal_actions(delete_content, local_user, person);
            match config.ban_deleted_persons_created_within_days {
                Some(days) if !delete_content => {
                    let asked = removed.push(ActionView::ReadClock { days_back: days });
                    &&& replies.len() >= 4
                    &&& replies[3] is Time
                    &&& if happened_within(person.published, replies[3]->Time_0, days) {
                        let prepared = asked + ban_preparations(config.actor_username, person);
                        if config.actor_username is Some {
                            let moderator = replies[5]->FoundPerson_0->Ok_0->Some_0;
                            let banned = replies[6]->Person_0->Ok_0;
                            &&& replies.len() == 10
                            &&& replies[5] == ReplyView::<E>::FoundPerson(Ok(Some(moderator)))
                            &&& replies[6] == ReplyView::<E>::Person(Ok(banned))
                            &&& acts == prepared + ban_actions(moderator, person, banned)
                        } else {
                            acts == prepared
                        }
                    } else {
                        acts == asked
                    }
                },
                _ => acts == removed,
            }
        }),
{
    let p = account_deletion::<E>(valid, delete_content, config, local_user, person);
    if !valid {
        nothing_follows_the_result(p, replies);
    }
    let removed = removal_actions(delete_content, local_user, person);
    successful_command(removed[0], log_out(delete_content, config, local_user, person), replies);
    let r1 = replies.skip(1);
    successful_command(removed[1], announce_removal(delete_content, config, person), r1);
    let r2 = r1.skip(1);
    successful_command(removed[2], moderate(delete_content, config, person), r2);
    let r3 = r2.skip(1);
    assert(r3 =~= replies.skip(3));
    let rest = actions(moderate::<E>(delete_content, config, person), r3);
    assert(actions(p, replies) =~= removed + rest);
    match config.ban_deleted_persons_created_within_days {
        Some(days) if !delete_content => {
            successful_moderation::<E>(days, config.actor_username, person, r3);
            assert(r3[0] == replies[3]);
            let asked = removed.push(ActionView::ReadClock { days_back: days });
            if happened_within(person.published, replies[3]->Time_0, days) {
                let prepared = asked + ban_preparations(config.actor_username, person);
                if config.actor_username is Some {
                    assert(r3[2] == replies[5] && r3[3] == replies[6]);
                    let moderator = replies[5]->FoundPerson_0->Ok_0->Some_0;
                    let banned = replies[6]->Person_0->Ok_0;
                    assert(actions(p, replies) =~= prepared + ban_actions(
                        moderator,
                        person,
                        banned,
                    ));
                } else {
                    assert(actions(p, replies) =~= prepared);
                }
            } else {
                assert(actions(p, replies) =~= asked);
            }
        },
        _ => {
            nothing_follows_the_result(success::<E>(), r3);
            assert(actions(p, replies) =~= removed);
        },
    }
}

/// However far a deletion comes, it takes the actions that every deletion of an account takes in
/// their order, and before anything else.
pub proof fn removal_comes_first<E>(
    delete_content: bool,
    config: AutomodConfigView,
    local_user: LocalUserId,
    person: PersonView,
    replies: Seq<ReplyView<E>>,
    i: int,
)
    requires
        0 <= i < 3,
        i < actions(
            account_deletion::<E>(true, delete_content, config, local_user, person),
            replies,
        ).len(),
    ensures
        actions(
            account_deletion::<E>(true, delete_content, config, local_user, person),
            replies,
        )[i] == removal_actions(delete_content, local_user, person)[i],
{
    let p = account_deletion::<E>(true, delete_content, config, local_user, person);
    if i > 0 {
        later_action(p, replies, i);
        let p1 = continuation(p, replies[0]);
        let r1 = replies.skip(1);
        if i > 1 {
            later_action(p1, r1, i - 1);
        }
    }
}

/// A person is banned only where the settings say how young an account has to be and who bans
/// it, the account was not purged, and it was that young when the time was read.
pub proof fn only_young_accounts_are_banned<E>(
    valid: bool,
    delete_content: bool,
    config: AutomodConfigView,
    local_user: LocalUserId,
    person: PersonView,
    replies: Seq<ReplyView<E>>,
    i: int,
)
    requires
        conforms(
            account_deletion::<E>(valid, delete_content, config, local_user, person),
            replies,
        ),
        0 <= i < actions(
            account_deletion::<E>(valid, delete_content, config, local_user, person),
            replies,
        ).len(),
        actions(
            account_deletion::<E>(valid, delete_content, config, local_user, person),
            replies,
        )[i].bans(),
    ensures
        !delete_content,
        config.actor_username is Some,
        config.ban_deleted_persons_created_within_days is Some,
        replies.len() > 3,
        replies[3] is Time,
        happened_within(
            person.published,
            replies[3]->Time_0,
            config.ban_deleted_persons_created_within_days->0,
        ),
{
    let p0 = account_deletion::<E>(valid, delete_content, config, local_user, person);
    later_action(p0, replies, i);
    let p1 = continuation(p0, replies[0]);
    let r1 = replies.skip(1);
    later_action(p1, r1, i - 1);
    let p2 = continuation(p1, r1[0]);
    let r2 = r1.skip(1);
    later_action(p2, r2, i - 2);
    let p3 = continuation(p2, r2[0]);
    let r3 = r2.skip(1);
    later_action(p3, r3, i - 3);
    assert(r3[0] == replies[3]);
    assert(conforms(p1, r1));
    assert(conforms(p2, r2));
    assert(conforms(p3, r3));
    assert(p3 == ban_if_recent::<E>(
        config.ban_deleted_persons_created_within_days->0,
        config.actor_username,
        person,
    ));
    let p4 = continuation(p3, r3[0]);
    let r4 = r3.skip(1);
    assert(p4 == issue_ban::<E>(config.actor_username, person));
    later_action(p4, r4, i - 4);
    let p5 = continuation(p4, r4[0]);
    let r5 = r4.skip(1);
    if config.actor_username is None && r5.len() > 0 {
        nothing_follows_the_result(continuation(p5, r5[0]), r5.skip(1));
    }
}

/// The deletion of an account ends after at most ten actions.
pub proof fn account_deletion_ends<E>(
    valid: bool,
    delete_content: bool,
    config: AutomodConfigView,
    local_user: LocalUserId,
    person: PersonView,
    replies: Seq<ReplyView<E>>,
)
    requires
        conforms(
            account_deletion::<E>(valid, delete_content, config, local_user, person),
            replies,
        ),
    ensures
        replies.len() <= 10,
{
    let p = account_deletion::<E>(valid, delete_content, config, local_user, person);
    assert(ends_within(p, 10)) by {
        reveal_with_fuel(ends_within, 2);
        moderation_ends::<E>(delete_content, config, person);
        assert(ends_within(announce_removal::<E>(delete_content, config, person), 8));
        assert(ends_within(log_out::<E>(delete_content, config, local_user, person), 9));
    }
    a_bounded_program_ends(p, 10, replies);
}

proof fn moderation_ends<E>(delete_content: bool, config: AutomodConfigView, person: PersonView)
    ensures
        ends_within(moderate::<E>(delete_content, config, person), 7),
{
    reveal_with_fuel(ends_within, 2);
    assert forall|moderator: PersonView| ends_within(
        #[trigger] log_ban::<E>(moderator, person),
        2,
    ) by {
        assert(ends_within(announce_ban::<E>(moderator, person), 1));
    }
    assert forall|moderator: PersonView| ends_within(
        #[trigger] ban_person::<E>(moderator, person),
        4,
    ) by {
        assert(ends_within(log_ban::<E>(moderator, person), 2));
        assert forall|banned: PersonView| ends_within(
            #[trigger] command::<E>(
                ActionView::RemoveUserData(banned.id),
                log_ban(moderator, person),
            ),
            3,
        ) by {}
    }
    assert(ends_within(ban_by_automod::<E>(config.actor_username, person), 5));
    assert(ends_within(issue_ban::<E>(config.actor_username, person), 6));
}

} // verus!
