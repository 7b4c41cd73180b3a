//! The automatic moderator, who bans persons that delete their account soon after they made it.

use vstd::prelude::*;

use crate::actions::{
    ActionView, AutomodReportView, AutomodRule, ModBanForm, ModBanFormView, PersonUpdateForm,
};
use crate::objects::{text_of, PersonId};

verus! {

/// The settings of the automatic moderator.
#[derive(Debug, PartialEq, Eq)]
pub struct AutomodConfig {
    /// Accounts that are younger than this number of days when they are deleted are banned;
    /// none are where it is unset.
    pub ban_deleted_persons_created_within_days: Option<u64>,
    /// The name of the local account in whose name bans are made; none are made where it is
    /// unset.
    pub actor_username: Option<String>,
}

/// The model of an [`AutomodConfig`].
pub struct AutomodConfigView {
    pub ban_deleted_persons_created_within_days: Option<u64>,
    pub actor_username: Option<Seq<char>>,
}

impl View for AutomodConfig {
    type V = AutomodConfigView;

    open spec fn view(&self) -> AutomodConfigView {
        AutomodConfigView {
            ban_deleted_persons_created_within_days: self.ban_deleted_persons_created_within_days,
            actor_username: text_of(self.actor_username),
        }
    }
}

impl ActionView {
    /// The action bans a person, or logs or announces a ban.
    pub open spec fn bans(self) -> bool {
        match self {
            ActionView::UpdatePerson(_, form) => form.banned == Some(true),
            ActionView::CreateModBan(_) => true,
            ActionView::CreateModBanFromCommunity(_) => true,
            ActionView::BanFromCommunity(_) => true,
            ActionView::SubmitActivity(data) => data is BanFromSite || data is BanFromCommunity,
            _ => false,
        }
    }
}

/// Reports that a user falls under a rule.
pub open spec fn issuing_ban(rule: AutomodRule, user: Seq<char>) -> ActionView {
    ActionView::Log(AutomodReportView::IssuingBan { rule, user })
}

/// Reports that nobody is banned under a rule, because no moderator is set.
pub open spec fn no_automod_user(rule: AutomodRule) -> ActionView {
    ActionView::Log(AutomodReportView::NoAutomodUser { rule })
}

/// The reason that is given for the bans of the automatic moderator.
pub open spec fn automod_reason() -> Option<Seq<char>> {
    Some("automod"@)
}

/// The reason that is given for the bans of the automatic moderator.
pub(crate) fn reason() -> (res: Option<String>)
    ensures
        text_of(res) == automod_reason(),
{
    Some("automod".to_owned())
}

/// The change that bans a person for good.
pub open spec fn ban_form() -> PersonUpdateForm {
    PersonUpdateForm { banned: Some(true), ban_expires: Some(None) }
}

/// Bans a person from the instance for good.
pub open spec fn ban_action(person: PersonId) -> ActionView {
    ActionView::UpdatePerson(person, ban_form())
}

/// The log entry for the ban of a person from the instance.
pub open spec fn mod_ban_form(moderator: PersonId, person: PersonId) -> ModBanFormView {
    ModBanFormView {
        mod_person_id: moderator,
        other_person_id: person,
        reason: automod_reason(),
        banned: Some(true),
        expires: None,
    }
}

/// The log entry for the ban of a person from the instance.
pub(crate) fn mod_ban(moderator: PersonId, person: PersonId) -> (res: ModBanForm)
    ensures
        res@ == mod_ban_form(moderator, person),
{
    ModBanForm {
        mod_person_id: moderator,
        other_person_id: person,
        reason: reason(),
        banned: Some(true),
        expires: None,
    }
}

} // verus!
