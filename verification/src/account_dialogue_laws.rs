//! What is asked and answered when a local account is deleted.

use vstd::prelude::*;

use crate::account::{
    account_deletion, announce_ban, announce_removal, ban_by_automod, ban_person, issue_ban,
    log_ban, log_out, moderate,
};
use crate::actions::{
    ActionView, AutomodReportView, AutomodRule, DeletionError, ModBanFormView, PersonUpdateForm,
    ReplyView, SendActivityDataView,
};
use crate::automod::AutomodConfigView;
use crate::dialogue_laws::{
    can_be_set_back, cause, dialogue, errors_have_causes, fails_for_causes, is_younger,
};
use crate::laws::nothing_follows_the_result;
use crate::objects::{LocalUserId, PersonView, Timestamp};
use crate::password::{bcrypt_verdict, password_matches};
use crate::program::{actions, command, conforms, remainder, Program};

verus! {

/// A password belongs to a hash exactly where `bcrypt` says so; to one that it cannot read, none
/// does.
pub proof fn a_password_is_what_bcrypt_takes_for_one(password: Seq<char>, hash: Seq<char>)
    ensures
        password_matches(password, hash) <==> (bcrypt_verdict(password, hash)
            matches Some(verdict) && verdict),
{
}

/// What every deletion of an account does, whatever the settings, with the replies that all went
/// well: the account is purged or deleted, logged out everywhere, and its deletion announced.
pub open spec fn account_removal<E>(
    delete_content: bool,
    local_user: LocalUserId,
    person: PersonView,
) -> Seq<(ActionView, ReplyView<E>)> {
    seq![
        (
            if delete_content {
                ActionView::PurgeUserAccount(person.id)
            } else {
                ActionView::DeleteAccount(person.id)
            },
            ReplyView::Done(Ok(())),
        ),
        (ActionView::InvalidateLoginTokens(local_user), ReplyView::Done(Ok(()))),
        (
            ActionView::SubmitActivity(SendActivityDataView::DeleteUser(person, delete_content)),
            ReplyView::Done(Ok(())),
        ),
    ]
}

/// The report that a local user falls under the rule, and that it was written.
pub open spec fn local_report<E>(person: PersonView) -> (ActionView, ReplyView<E>) {
    (
        ActionView::Log(
            AutomodReportView::IssuingBan {
                rule: AutomodRule::BanLocalDeletedUser,
                user: person.name,
            },
        ),
        ReplyView::Logged,
    )
}

/// Who gives the right password is not refused: the first action is handed out, whatever the
/// settings, and it purges the account where the content is to go too and deletes it otherwise.
/// Who gives the wrong one is refused with `IncorrectLogin`, and nobody else is.
pub proof fn only_a_wrong_password_is_refused<E>(
    valid: bool,
    delete_content: bool,
    config: AutomodConfigView,
    local_user: LocalUserId,
    person: PersonView,
    replies: Seq<ReplyView<E>>,
)
    requires
        conforms(
            account_deletion::<E>(valid, delete_content, config, local_user, person),
            replies,
        ),
    ensures
        ({
            let p = account_deletion::<E>(valid, delete_content, config, local_user, person);
            &&& valid <==> (p matches Program::Perform(a, _) && a == if delete_content {
                ActionView::PurgeUserAccount(person.id)
            } else {
                ActionView::DeleteAccount(person.id)
            })
            &&& !valid <==> remainder(p, replies) == Program::<E>::Return(
                Err(DeletionError::IncorrectLogin),
            )
        }),
{
    let p = account_deletion::<E>(valid, delete_content, config, local_user, person);
    if valid {
        if remainder(p, replies) == Program::<E>::Return(Err(DeletionError::IncorrectLogin)) {
            account_deletion_errors::<E>(delete_content, config, local_user, person);
            errors_have_causes(
                p,
                |a: ActionView, r: ReplyView<E>, e: DeletionError<E>| cause(a, r, e),
                replies,
                DeletionError::IncorrectLogin,
            );
        }
    } else {
        nothing_follows_the_result(p, replies);
    }
}

/// An account that is purged, or that no age is set for, is removed, and that is all.
pub proof fn account_is_removed<E>(
    delete_content: bool,
    config: AutomodConfigView,
    local_user: LocalUserId,
    person: PersonView,
)
    requires
        delete_content || config.ban_deleted_persons_created_within_days is None,
    ensures
        dialogue(
            account_deletion::<E>(true, delete_content, config, local_user, person),
            account_removal(delete_content, local_user, person),
            Program::Return(Ok(())),
        ),
{
    reveal_with_fuel(dialogue, 5);
}

/// An account that is deleted, and is not as young as the age that is set, is removed, and that is
/// all.
pub proof fn old_account_is_removed<E>(
    days: u64,
    actor_username: Option<Seq<char>>,
    local_user: LocalUserId,
    person: PersonView,
    now: Timestamp,
)
    requires
        can_be_set_back(now, days),
        !is_younger(person.published, now, days),
    ensures
        dialogue(
            account_deletion::<E>(
                true,
                false,
                AutomodConfigView {
                    ban_deleted_persons_created_within_days: Some(days),
                    actor_username,
                },
                local_user,
                person,
            ),
            account_removal(false, local_user, person).push(
                (ActionView::ReadClock { days_back: days }, ReplyView::Time(now)),
            ),
            Program::Return(Ok(())),
        ),
{
    reveal_with_fuel(dialogue, 6);
}

/// An account that is deleted, and is younger than the age that is set, is removed and reported,
/// and where no moderator is set, that is reported too.
pub proof fn young_account_is_only_reported_without_a_moderator<E>(
    days: u64,
    local_user: LocalUserId,
    person: PersonView,
    now: Timestamp,
)
    requires
        can_be_set_back(now, days),
        is_younger(person.published, now, days),
    ensures
        dialogue(
            account_deletion::<E>(
                true,
                false,
                AutomodConfigView {
                    ban_deleted_persons_created_within_days: Some(days),
                    actor_username: None,
                },
                local_user,
                person,
            ),
            account_removal(false, local_user, person) + seq![
                (ActionView::ReadClock { days_back: days }, ReplyView::Time(now)),
                local_report(person),
                (
                    ActionView::Log(
                        AutomodReportView::NoAutomodUser { rule: AutomodRule::BanLocalDeletedUser },
                    ),
                    ReplyView::Logged,
                ),
            ],
            Program::Return(Ok(())),
        ),
{
    reveal_with_fuel(dialogue, 8);
}

/// An account that is deleted, and is younger than the age that is set, is removed and reported;
/// where the moderator that is set does not exist, it ends there with `CouldntFindPerson`.
pub proof fn young_account_needs_the_moderator_that_is_set<E>(
    days: u64,
    name: Seq<char>,
    local_user: LocalUserId,
    person: PersonView,
    now: Timestamp,
)
    requires
        can_be_set_back(now, days),
        is_younger(person.published, now, days),
    ensures
        dialogue(
            account_deletion::<E>(
                true,
                false,
                AutomodConfigView {
                    ban_deleted_persons_created_within_days: Some(days),
                    actor_username: Some(name),
                },
                local_user,
                person,
            ),
            account_removal(false, local_user, person) + seq![
                (ActionView::ReadClock { days_back: days }, ReplyView::Time(now)),
                local_report(person),
                (
                    ActionView::ReadPersonByName { name, include_deleted: false },
                    ReplyView::FoundPerson(Ok(None)),
                ),
            ],
            Program::Return(Err(DeletionError::CouldntFindPerson)),
        ),
{
    reveal_with_fuel(dialogue, 8);
}

/// An account that is deleted, and is younger than the age that is set, is removed and reported;
/// and where the moderator that is set exists, the person is banned for good in their name, what
/// the person has written is removed, and the ban is logged and announced.
pub proof fn young_account_is_banned<E>(
    days: u64,
    name: Seq<char>,
    local_user: LocalUserId,
    person: PersonView,
    now: Timestamp,
    moderator: PersonView,
    banned: PersonView,
)
    requires
        can_be_set_back(now, days),
        is_younger(person.published, now, days),
    ensures
        dialogue(
            account_deletion::<E>(
                true,
                false,
                AutomodConfigView {
                    ban_deleted_persons_created_within_days: Some(days),
                    actor_username: Some(name),
                },
                local_user,
                person,
            ),
            account_removal(false, local_user, person) + seq![
                (ActionView::ReadClock { days_back: days }, ReplyView::Time(now)),
                local_report(person),
                (
                    ActionView::ReadPersonByName { name, include_deleted: false },
                    ReplyView::FoundPerson(Ok(Some(moderator))),
                ),
                (
                    ActionView::UpdatePerson(
                        person.id,
                        PersonUpdateForm { banned: Some(true), ban_expires: Some(None) },
                    ),
                    ReplyView::Person(Ok(banned)),
                ),
                (ActionView::RemoveUserData(banned.id), ReplyView::Done(Ok(()))),
                (
                    ActionView::CreateModBan(
                        ModBanFormView {
                            mod_person_id: moderator.id,
                            other_person_id: person.id,
                            reason: Some("automod"@),
                            banned: Some(true),
                            expires: None,
                        },
                    ),
                    ReplyView::Done(Ok(())),
                ),
                (
                    ActionView::SubmitActivity(
                        SendActivityDataView::BanFromSite {
                            moderator,
                            banned_user: person,
                            reason: Some("automod"@),
                            remove_data: Some(true),
                            ban: true,
                            expires: None,
                        },
                    ),
                    ReplyView::Done(Ok(())),
                ),
            ],
            Program::Return(Ok(())),
        ),
{
    reveal_with_fuel(dialogue, 12);
}

proof fn account_deletion_errors<E>(
    delete_content: bool,
    config: AutomodConfigView,
    local_user: LocalUserId,
    person: PersonView,
)
    ensures
        fails_for_causes(
            account_deletion::<E>(true, delete_content, config, local_user, person),
            |a: ActionView, r: ReplyView<E>, e: DeletionError<E>| cause(a, r, e),
        ),
{
    reveal_with_fuel(fails_for_causes, 2);
    let c = |a: ActionView, r: ReplyView<E>, e: DeletionError<E>| cause(a, r, e);
    assert forall|moderator: PersonView| fails_for_causes(
        #[trigger] log_ban::<E>(moderator, person),
        c,
    ) by {
        assert(fails_for_causes(announce_ban::<E>(moderator, person), c));
    }
    assert forall|moderator: PersonView| fails_for_causes(
        #[trigger] ban_person::<E>(moderator, person),
        c,
    ) by {
        assert(fails_for_causes(log_ban::<E>(moderator, person), c));
        assert forall|banned: PersonView| fails_for_causes(
            #[trigger] command::<E>(
                ActionView::RemoveUserData(banned.id),
                log_ban(moderator, person),
            ),
            c,
        ) by {}
    }
    assert(fails_for_causes(ban_by_automod::<E>(config.actor_username, person), c));
    assert(fails_for_causes(issue_ban::<E>(config.actor_username, person), c));
    assert(fails_for_causes(moderate::<E>(delete_content, config, person), c));
    assert(fails_for_causes(announce_removal::<E>(delete_content, config, person), c));
    assert(fails_for_causes(log_out::<E>(delete_content, config, local_user, person), c));
}

/// The deletion of an account whose password was right ends well, once it is over, unless an
/// action failed or the moderator that was looked for does not exist; and it ends with the error
/// that this is.
pub proof fn account_deletion_ends_well_without_a_cause<E>(
    delete_content: bool,
    config: AutomodConfigView,
    local_user: LocalUserId,
    person: PersonView,
    replies: Seq<ReplyView<E>>,
)
    requires
        conforms(
            account_deletion::<E>(true, delete_content, config, local_user, person),
            replies,
        ),
        remainder(
            account_deletion::<E>(true, delete_content, config, local_user, person),
            replies,
        ) is Return,
    ensures
        ({
            let p = account_deletion::<E>(true, delete_content, config, local_user, person);
            &&& replies.len() > 0
            &&& remainder(p, replies) matches Program::Return(Err(error)) ==> cause(
                actions(p, replies)[replies.len() - 1],
                replies.last(),
                error,
            )
        }),
{
    let p = account_deletion::<E>(true, delete_content, config, local_user, person);
    account_deletion_errors::<E>(delete_content, config, local_user, person);
    if remainder(p, replies)->Return_0 is Err {
        errors_have_causes(
            p,
            |a: ActionView, r: ReplyView<E>, e: DeletionError<E>| cause(a, r, e),
            replies,
            remainder(p, replies)->Return_0->Err_0,
        );
    }
}

} // verus!
