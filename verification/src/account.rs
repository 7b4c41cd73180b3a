//! Deletion of a local account at the request of its owner.

use vstd::pervasive::unreached;
use vstd::prelude::*;

use crate::actions::{
    Action, ActionView, AutomodReport, AutomodRule, DeletionError, PersonUpdateForm, Reply,
    SendActivityData, SendActivityDataView,
};
use crate::automod::{
    automod_reason, ban_action, issuing_ban, mod_ban, mod_ban_form, no_automod_user, reason,
    AutomodConfig, AutomodConfigView,
};
use crate::clock::{happened_within, is_within};
use crate::objects::{text_of, LocalUserId, Person, PersonId, PersonView, Timestamp};
use crate::password::{is_password, password_matches};
use crate::program::{
    attempt, command, failure, find_person, success, update_person, with_time, Plan, Program,
    Progress, Workflow,
};

verus! {

/// The request to delete one's account.
#[derive(Debug, PartialEq, Eq)]
pub struct DeleteAccount {
    pub password: String,
    /// Whether everything that the person has written goes too.
    pub delete_content: bool,
}

/// The account of a person who is registered on this instance.
#[derive(Debug, PartialEq, Eq)]
pub struct LocalUser {
    pub id: LocalUserId,
    pub password_encrypted: String,
}

/// A registered person: their account and who they are.
#[derive(Debug, PartialEq, Eq)]
pub struct LocalUserView {
    pub local_user: LocalUser,
    pub person: Person,
}

/// Removes the account, together with all its content where `delete_content` is set.
pub open spec fn removal(delete_content: bool, person: PersonId) -> ActionView {
    if delete_content {
        ActionView::PurgeUserAccount(person)
    } else {
        ActionView::DeleteAccount(person)
    }
}

/// Tells the federation of the ban of a person.
pub open spec fn announce_ban<E>(moderator: PersonView, person: PersonView) -> Program<E> {
    command(
        ActionView::SubmitActivity(
            SendActivityDataView::BanFromSite {
                moderator,
                banned_user: person,
                reason: automod_reason(),
                remove_data: Some(true),
                ban: true,
                expires: None,
            },
        ),
        success(),
    )
}

/// Logs the ban of a person, and tells the federation of it.
pub open spec fn log_ban<E>(moderator: PersonView, person: PersonView) -> Program<E> {
    command(
        ActionView::CreateModBan(mod_ban_form(moderator.id, person.id)),
        announce_ban(moderator, person),
    )
}

/// Bans a person in the name of a moderator: writes the ban, removes what the person has
/// written, logs the ban, and tells the federation of it.
pub open spec fn ban_person<E>(moderator: PersonView, person: PersonView) -> Program<E> {
    update_person(
        ban_action(person.id),
        |banned: PersonView|
            command(ActionView::RemoveUserData(banned.id), log_ban(moderator, person)),
    )
}

/// Bans a person in the name of the automatic moderator, or reports that there is none.
pub open spec fn ban_by_automod<E>(
    actor_username: Option<Seq<char>>,
    person: PersonView,
) -> Program<E> {
    match actor_username {
        Some(name) => find_person(
            ActionView::ReadPersonByName { name, include_deleted: false },
            |moderator: PersonView| ban_person(moderator, person),
        ),
        None => attempt(no_automod_user(AutomodRule::BanLocalDeletedUser), success()),
    }
}

/// Reports that a person falls under the rule, and bans them.
pub open spec fn issue_ban<E>(
    actor_username: Option<Seq<char>>,
    person: PersonView,
) -> Program<E> {
    attempt(
        issuing_ban(AutomodRule::BanLocalDeletedUser, person.name),
        ban_by_automod(actor_username, person),
    )
}

/// Reads the time, and bans the person if they were registered less than this number of days
/// ago.
pub open spec fn ban_if_recent<E>(
    days: u64,
    actor_username: Option<Seq<char>>,
    person: PersonView,
) -> Program<E> {
    with_time(
        days,
        |now: Timestamp|
            if happened_within(person.published, now, days) {
                issue_ban(actor_username, person)
            } else {
                success()
            },
    )
}

/// Lets the automatic moderator look at an account that has been deleted. Accounts that were
/// purged are left alone.
pub open spec fn moderate<E>(
    delete_content: bool,
    config: AutomodConfigView,
    person: PersonView,
) -> Program<E> {
    match config.ban_deleted_persons_created_within_days {
        Some(days) if !delete_content => ban_if_recent(days, config.actor_username, person),
        _ => success(),
    }
}

/// Tells the federation that the account is gone, and lets the automatic moderator look at it.
pub open spec fn announce_removal<E>(
    delete_content: bool,
    config: AutomodConfigView,
    person: PersonView,
) -> Program<E> {
    command(
        ActionView::SubmitActivity(SendActivityDataView::DeleteUser(person, delete_content)),
        moderate(delete_content, config, person),
    )
}

/// Logs the account out everywhere, and goes on as [`announce_removal`] says.
pub open spec fn log_out<E>(
    delete_content: bool,
    config: AutomodConfigView,
    local_user: LocalUserId,
    person: PersonView,
) -> Program<E> {
    command(
        ActionView::InvalidateLoginTokens(local_user),
        announce_removal(delete_content, config, person),
    )
}

/// Deletes an account whose owner has given their password, rightly or not: removes it, logs it
/// out everywhere, tells the federation, and lets the automatic moderator look at it.
pub open spec fn account_deletion<E>(
    valid: bool,
    delete_content: bool,
    config: AutomodConfigView,
    local_user: LocalUserId,
    person: PersonView,
) -> Program<E> {
    if valid {
        command(
            removal(delete_content, person.id),
            log_out(delete_content, config, local_user, person),
        )
    } else {
        failure(DeletionError::IncorrectLogin)
    }
}

/// The deletion of a local account.
pub struct AccountDeletion {
    step: AccountStep,
}

#[allow(inconsistent_fields)]
enum AccountStep {
    Remove {
        delete_content: bool,
        config: AutomodConfig,
        local_user: LocalUserId,
        person: Person,
    },
    LogOut { delete_content: bool, config: AutomodConfig, local_user: LocalUserId, person: Person },
    AnnounceRemoval { delete_content: bool, config: AutomodConfig, person: Person },
    ReadClock { days: u64, actor_username: Option<String>, person: Person },
    IssueBan { actor_username: Option<String>, person: Person },
    ReportNoModerator,
    FindModerator { name: Ghost<Seq<char>>, person: Person },
    Ban { moderator: Person, person: Person },
    RemoveData { banned: PersonId, moderator: Person, person: Person },
    LogBan { moderator: Person, person: Person },
    AnnounceBan { moderator: Ghost<PersonView>, person: Ghost<PersonView> },
}

impl<E> Plan<E> for AccountDeletion {
    closed spec fn program(self) -> Program<E> {
        match self.step {
            AccountStep::Remove { delete_content, config, local_user, person } => account_deletion(
                true,
                delete_content,
                config@,
                local_user,
                person@,
            ),
            AccountStep::LogOut { delete_content, config, local_user, person } => log_out(
                delete_content,
                config@,
                local_user,
                person@,
            ),
            AccountStep::AnnounceRemoval { delete_content, config, person } => announce_removal(
                delete_content,
                config@,
                person@,
            ),
            AccountStep::ReadClock { days, actor_username, person } => ban_if_recent(
                days,
                text_of(actor_username),
                person@,
            ),
            AccountStep::IssueBan { actor_username, person } => issue_ban(
                text_of(actor_username),
                person@,
            ),
            AccountStep::ReportNoModerator => attempt(
                no_automod_user(AutomodRule::BanLocalDeletedUser),
                success(),
            ),
            AccountStep::FindModerator { name, person } => ban_by_automod(Some(name@), person@),
            AccountStep::Ban { moderator, person } => ban_person(moderator@, person@),
            AccountStep::RemoveData { banned, moderator, person } => command(
                ActionView::RemoveUserData(banned),
                log_ban(moderator@, person@),
            ),
            AccountStep::LogBan { moderator, person } => log_ban(moderator@, person@),
            AccountStep::AnnounceBan { moderator, person } => announce_ban(moderator@, person@),
        }
    }
}

impl<E> Workflow<E> for AccountDeletion {
    fn resume(self, reply: Reply<E>) -> (next: Progress<Self, E>) {
        match self.step {
            AccountStep::Remove { delete_content, config, local_user, person } => match reply {
                Reply::Done(Ok(_)) => Progress::Await(
                    AccountDeletion {
                        step: AccountStep::LogOut { delete_content, config, local_user, person },
                    },
                    Action::InvalidateLoginTokens(local_user),
                ),
                Reply::Done(Err(e)) => Progress::Complete(Err(DeletionError::Service(e))),
                _ => unreached(),
            },
            AccountStep::LogOut { delete_content, config, local_user, person } => match reply {
                Reply::Done(Ok(_)) => {
                    let news = SendActivityData::DeleteUser(person.clone(), delete_content);
                    Progress::Await(
                        AccountDeletion {
                            step: AccountStep::AnnounceRemoval { delete_content, config, person },
                        },
                        Action::SubmitActivity(news),
                    )
                },
                Reply::Done(Err(e)) => Progress::Complete(Err(DeletionError::Service(e))),
                _ => unreached(),
            },
            AccountStep::AnnounceRemoval { delete_content, config, person } => match reply {
                Reply::Done(Ok(_)) => match config.ban_deleted_persons_created_within_days {
                    Some(days) if !delete_content => Progress::Await(
                        AccountDeletion {
                            step: AccountStep::ReadClock {
                                days,
                                actor_username: config.actor_username,
                                person,
                            },
                        },
                        Action::ReadClock { days_back: days },
                    ),
                    _ => Progress::Complete(Ok(())),
                },
                Reply::Done(Err(e)) => Progress::Complete(Err(DeletionError::Service(e))),
                _ => unreached(),
            },
            AccountStep::ReadClock { days, actor_username, person } => match reply {
                Reply::Time(now) => {
                    if !is_within(person.published, now, days) {
                        return Progress::Complete(Ok(()));
                    }
                    let report = AutomodReport::IssuingBan {
                        rule: AutomodRule::BanLocalDeletedUser,
                        user: person.name.clone(),
                    };
                    Progress::Await(
                        AccountDeletion { step: AccountStep::IssueBan { actor_username, person } },
                        Action::Log(report),
                    )
                },
                _ => unreached(),
            },
            AccountStep::IssueBan { actor_username, person } => match actor_username {
                Some(name) => Progress::Await(
                    AccountDeletion {
                        step: AccountStep::FindModerator { name: Ghost(name@), person },
                    },
                    Action::ReadPersonByName { name, include_deleted: false },
                ),
                None => Progress::Await(
                    AccountDeletion { step: AccountStep::ReportNoModerator },
                    Action::Log(
                        AutomodReport::NoAutomodUser { rule: AutomodRule::BanLocalDeletedUser },
                    ),
                ),
            },
            AccountStep::ReportNoModerator => Progress::Complete(Ok(())),
            AccountStep::FindModerator { person, .. } => match reply {
                Reply::FoundPerson(Ok(Some(moderator))) => {
                    let form = PersonUpdateForm { banned: Some(true), ban_expires: Some(None) };
                    let action = Action::UpdatePerson(person.id, form);
                    Progress::Await(
                        AccountDeletion { step: AccountStep::Ban { moderator, person } },
                        action,
                    )
                },
                Reply::FoundPerson(Ok(None)) => {
                    Progress::Complete(Err(DeletionError::CouldntFindPerson))
                },
                Reply::FoundPerson(Err(e)) => Progress::Complete(Err(DeletionError::Service(e))),
                _ => unreached(),
            },
            AccountStep::Ban { moderator, person } => match reply {
                Reply::Person(Ok(banned)) => Progress::Await(
                    AccountDeletion {
                        step: AccountStep::RemoveData { banned: banned.id, moderator, person },
                    },
                    Action::RemoveUserData(banned.id),
                ),
                Reply::Person(Err(e)) => {
                    Progress::Complete(Err(DeletionError::CouldntUpdateUser(e)))
                },
                _ => unreached(),
            },
            AccountStep::RemoveData { moderator, person, .. } => match reply {
                Reply::Done(Ok(_)) => {
                    let action = Action::CreateModBan(mod_ban(moderator.id, person.id));
                    Progress::Await(
                        AccountDeletion { step: AccountStep::LogBan { moderator, person } },
                        action,
                    )
                },
                Reply::Done(Err(e)) => Progress::Complete(Err(DeletionError::Service(e))),
                _ => unreached(),
            },
            AccountStep::LogBan { moderator, person } => match reply {
                Reply::Done(Ok(_)) => {
                    let step = AccountStep::AnnounceBan {
                        moderator: Ghost(moderator@),
                        person: Ghost(person@),
                    };
                    let news = SendActivityData::BanFromSite {
                        moderator,
                        banned_user: person,
                        reason: reason(),
                        remove_data: Some(true),
                        ban: true,
                        expires: None,
                    };
                    Progress::Await(AccountDeletion { step }, Action::SubmitActivity(news))
                },
                Reply::Done(Err(e)) => Progress::Complete(Err(DeletionError::Service(e))),
                _ => unreached(),
            },
            AccountStep::AnnounceBan { .. } => match reply {
                Reply::Done(Ok(_)) => Progress::Complete(Ok(())),
                Reply::Done(Err(e)) => Progress::Complete(Err(DeletionError::Service(e))),
                _ => unreached(),
            },
        }
    }
}

/// Starts the deletion of an account whose password has been checked, with the result `valid`.
pub fn delete_account_if<E>(
    valid: bool,
    delete_content: bool,
    config: AutomodConfig,
    local_user_view: LocalUserView,
) -> (res: Progress<AccountDeletion, E>)
    ensures
        res.well_formed(),
        res.program() == account_deletion::<E>(
            valid,
            delete_content,
            config@,
            local_user_view.local_user.id,
            local_user_view.person@,
        ),
{
    if !valid {
        return Progress::Complete(Err(DeletionError::IncorrectLogin));
    }
    let person = local_user_view.person;
    let action = if delete_content {
        Action::PurgeUserAccount(person.id)
    } else {
        Action::DeleteAccount(person.id)
    };
    let step = AccountStep::Remove {
        delete_content,
        config,
        local_user: local_user_view.local_user.id,
        person,
    };
    Progress::Await(AccountDeletion { step }, action)
}

/// Starts the deletion of an account at the request of its owner, who has to give the password.
pub fn delete_account<E>(
    data: &DeleteAccount,
    config: AutomodConfig,
    local_user_view: LocalUserView,
) -> (res: Progress<AccountDeletion, E>)
    ensures
        res.well_formed(),
        res.program() == account_deletion::<E>(
            password_matches(data.password@, local_user_view.local_user.password_encrypted@),
            data.delete_content,
            config@,
            local_user_view.local_user.id,
            local_user_view.person@,
        ),
{
    let valid = is_password(
        data.password.as_str(),
        local_user_view.local_user.password_encrypted.as_str(),
    );
    delete_account_if(valid, data.delete_content, config, local_user_view)
}

} // verus!
