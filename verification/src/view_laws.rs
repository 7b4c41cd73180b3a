//! What the models keep: nothing that a value holds is lost or changed in its model.

use vstd::prelude::*;

use crate::actions::{
    Action, ActionView, AutomodReport, AutomodReportView, BanFromCommunity, ModBanForm,
    ModBanFromCommunityForm, NewActivity, Reply, ReplyView, SendActivityData,
    SendActivityDataView,
};
use crate::activities::{
    ActivitySendTargets, ActivitySendTargetsView, AnnouncableActivities,
    AnnouncableActivitiesView, Delete, UndoDelete,
};
use crate::automod::AutomodConfig;
use crate::objects::{
    text_of, Comment, Community, DeletableObjects, DeletableObjectsView, Person, Post,
    PrivateMessage,
};
use crate::urls::{url_texts, Url};

verus! {

/// The model of a list of URLs has the text of each of them, in order.
pub proof fn lists_of_urls_keep_every_text(urls: Seq<Url>, i: int)
    requires
        0 <= i < urls.len(),
    ensures
        url_texts(urls).len() == urls.len(),
        url_texts(urls)[i] == urls[i]@,
{
}

/// The model of an optional text has the text exactly where there is one.
pub proof fn optional_texts_are_kept(text: Option<String>)
    ensures
        text is None <==> text_of(text) is None,
        text is Some ==> text_of(text)->0 == text->0@,
{
}

/// The models of the records have what the records hold, field by field.
pub proof fn records_are_kept(
    person: Person,
    community: Community,
    post: Post,
    comment: Comment,
    pm: PrivateMessage,
)
    ensures
        person@.id == person.id,
        person@.name == person.name@,
        person@.actor_id == person.actor_id@,
        person@.published == person.published,
        person@.inbox == person.inbox@,
        person@.shared_inbox is Some <==> person.shared_inbox is Some,
        person.shared_inbox is Some ==> person@.shared_inbox->0 == person.shared_inbox->0@,
        community@.id == community.id,
        community@.actor_id == community.actor_id@,
        community@.local == community.local,
        post@.id == post.id,
        post@.ap_id == post.ap_id@,
        post@.deleted == post.deleted,
        comment@.id == comment.id,
        comment@.ap_id == comment.ap_id@,
        comment@.deleted == comment.deleted,
        pm@.id == pm.id,
        pm@.ap_id == pm.ap_id@,
        pm@.recipient_id == pm.recipient_id,
{
}

/// The model of an object is that of the record that it is, and names the same URL.
pub proof fn objects_are_kept(object: DeletableObjects)
    ensures
        match object {
            DeletableObjects::Community(c) => {
                &&& object@ == DeletableObjectsView::Community(c@)
                &&& object@.id() == c.actor_id@
            },
            DeletableObjects::Person(p) => {
                &&& object@ == DeletableObjectsView::Person(p@)
                &&& object@.id() == p.actor_id@
            },
            DeletableObjects::Comment(c) => {
                &&& object@ == DeletableObjectsView::Comment(c@)
                &&& object@.id() == c.ap_id@
            },
            DeletableObjects::Post(p) => {
                &&& object@ == DeletableObjectsView::Post(p@)
                &&& object@.id() == p.ap_id@
            },
            DeletableObjects::PrivateMessage(p) => {
                &&& object@ == DeletableObjectsView::PrivateMessage(p@)
                &&& object@.id() == p.ap_id@
            },
        },
{
}

/// The models of the activities have what the activities hold, field by field.
pub proof fn activities_are_kept(
    delete: Delete,
    undo: UndoDelete,
    activity: AnnouncableActivities,
    targets: ActivitySendTargets,
)
    ensures
        delete@.id == delete.id@,
        delete@.actor == delete.actor@,
        delete@.to == url_texts(delete.to@),
        delete@.object == delete.object@,
        delete@.summary == text_of(delete.summary),
        delete@.remove_data == delete.remove_data,
        undo@.actor == undo.actor@,
        undo@.to == url_texts(undo.to@),
        undo@.object == undo.object@,
        undo@.cc == url_texts(undo.cc@),
        undo@.kind == undo.kind,
        undo@.id == undo.id@,
        undo@.unparsed == undo.unparsed,
        match activity {
            AnnouncableActivities::Delete(d) => activity@ == AnnouncableActivitiesView::Delete(d@),
            AnnouncableActivities::UndoDelete(u) => activity@
                == AnnouncableActivitiesView::UndoDelete(u@),
        },
        match targets {
            ActivitySendTargets::Empty => targets@ == ActivitySendTargetsView::Empty,
            ActivitySendTargets::Inbox(u) => targets@ == ActivitySendTargetsView::Inbox(u@),
            ActivitySendTargets::AllInstances => targets@ == ActivitySendTargetsView::AllInstances,
        },
{
}

/// The model of the settings has what the settings hold.
pub proof fn settings_are_kept(config: AutomodConfig)
    ensures
        config@.ban_deleted_persons_created_within_days
            == config.ban_deleted_persons_created_within_days,
        config@.actor_username == text_of(config.actor_username),
{
}

/// The models of the forms have what the forms hold, field by field.
pub proof fn forms_are_kept(
    ban: ModBanForm,
    community_ban: ModBanFromCommunityForm,
    request: BanFromCommunity,
    new: NewActivity,
    report: AutomodReport,
    data: SendActivityData,
)
    ensures
        ban@.mod_person_id == ban.mod_person_id,
        ban@.other_person_id == ban.other_person_id,
        ban@.reason == text_of(ban.reason),
        ban@.banned == ban.banned,
        ban@.expires == ban.expires,
        community_ban@.mod_person_id == community_ban.mod_person_id,
        community_ban@.other_person_id == community_ban.other_person_id,
        community_ban@.community_id == community_ban.community_id,
        community_ban@.reason == text_of(community_ban.reason),
        community_ban@.banned == community_ban.banned,
        community_ban@.expires == community_ban.expires,
        request@.community_id == request.community_id,
        request@.person_id == request.person_id,
        request@.ban == request.ban,
        request@.reason == text_of(request.reason),
        request@.remove_data == request.remove_data,
        request@.expires == request.expires,
        new@.actor == new.actor@,
        new@.object == new.object@,
        new@.to == new.to@,
        new@.community is Some <==> new.community is Some,
        new.community is Some ==> new@.community->0 == new.community->0@,
        new@.summary == text_of(new.summary),
        match report {
            AutomodReport::IssuingBan { rule, user } => report@ == (
            AutomodReportView::IssuingBan { rule, user: user@ }),
            AutomodReport::NoAutomodUser { rule } => report@ == (
            AutomodReportView::NoAutomodUser { rule }),
        },
        match data {
            SendActivityData::DeleteUser(person, content) => data@
                == SendActivityDataView::DeleteUser(person@, content),
            SendActivityData::BanFromSite {
                moderator,
                banned_user,
                reason,
                remove_data,
                ban,
                expires,
            } => data@ == (SendActivityDataView::BanFromSite {
                moderator: moderator@,
                banned_user: banned_user@,
                reason: text_of(reason),
                remove_data,
                ban,
                expires,
            }),
            SendActivityData::BanFromCommunity { moderator, community_id, target, data: request } =>
                data@ == (SendActivityDataView::BanFromCommunity {
                    moderator: moderator@,
                    community_id,
                    target: target@,
                    data: request@,
                }),
        },
{
}

/// The model of an action is the action itself, with the models of what it holds.
pub proof fn actions_are_kept(action: Action)
    ensures
        match action {
            Action::ReadFromId { kind, ap_id } => action@ == (ActionView::ReadFromId {
                kind,
                ap_id: ap_id@,
            }),
            Action::ReadPerson(id) => action@ == ActionView::ReadPerson(id),
            Action::ReadPersonByName { name, include_deleted } => action@ == (
            ActionView::ReadPersonByName { name: name@, include_deleted }),
            Action::ReadLocalUserByName(name) => action@ == ActionView::ReadLocalUserByName(name@),
            Action::Dereference(url) => action@ == ActionView::Dereference(url@),
            Action::ReadActivityCommunity(d) => action@ == ActionView::ReadActivityCommunity(d@),
            Action::ReadClock { days_back } => action@ == (ActionView::ReadClock { days_back }),
            Action::ListLocalCommunityIds(id) => action@ == ActionView::ListLocalCommunityIds(id),
            Action::PurgeUserAccount(id) => action@ == ActionView::PurgeUserAccount(id),
            Action::DeleteAccount(id) => action@ == ActionView::DeleteAccount(id),
            Action::InvalidateLoginTokens(id) => action@ == ActionView::InvalidateLoginTokens(id),
            Action::RemoveUserData(id) => action@ == ActionView::RemoveUserData(id),
            Action::UpdatePerson(id, form) => action@ == ActionView::UpdatePerson(id, form),
            Action::UpdateCommunity { id, deleted } => action@ == (ActionView::UpdateCommunity {
                id,
                deleted,
            }),
            Action::UpdatePost { id, deleted } => action@ == (ActionView::UpdatePost {
                id,
                deleted,
            }),
            Action::UpdateComment { id, deleted } => action@ == (ActionView::UpdateComment {
                id,
                deleted,
            }),
            Action::UpdatePrivateMessage { id, deleted } => action@ == (
            ActionView::UpdatePrivateMessage { id, deleted }),
            Action::CreateModBan(form) => action@ == ActionView::CreateModBan(form@),
            Action::CreateModBanFromCommunity(form) => action@
                == ActionView::CreateModBanFromCommunity(form@),
            Action::BanFromCommunity(form) => action@ == ActionView::BanFromCommunity(form),
            Action::Unfollow(form) => action@ == ActionView::Unfollow(form),
            Action::SubmitActivity(data) => action@ == ActionView::SubmitActivity(data@),
            Action::NewDelete(new) => action@ == ActionView::NewDelete(new@),
            Action::NewUndoDelete(new) => action@ == ActionView::NewUndoDelete(new@),
            Action::SendActivityInCommunity {
                activity,
                actor,
                community,
                targets,
                is_mod_action,
            } => action@ == (ActionView::SendActivityInCommunity {
                activity: activity@,
                actor: actor@,
                community: community@,
                targets: targets@,
                is_mod_action,
            }),
            Action::SendLemmyActivity { activity, actor, targets, sensitive } => action@ == (
            ActionView::SendLemmyActivity {
                activity: activity@,
                actor: actor@,
                targets: targets@,
                sensitive,
            }),
            Action::SendWebsocketMessage { object, deleted } => action@ == (
            ActionView::SendWebsocketMessage { object: object@, deleted }),
            Action::Log(report) => action@ == ActionView::Log(report@),
            Action::VerifyIsPublic { to, cc } => action@ == (ActionView::VerifyIsPublic {
                to: url_texts(to@),
                cc: url_texts(cc@),
            }),
            Action::VerifyPerson(actor) => action@ == ActionView::VerifyPerson(actor@),
            Action::VerifyPersonInCommunity { actor, community } => action@ == (
            ActionView::VerifyPersonInCommunity { actor: actor@, community: community@ }),
            Action::VerifyModAction { actor, community } => action@ == (
            ActionView::VerifyModAction { actor: actor@, community: community@ }),
        },
{
}

/// The model of a reply tells the same as the reply: that it failed, and with what; that there was
/// nothing; or the model of what it holds.
pub proof fn replies_are_kept<E>(reply: Reply<E>)
    ensures
        match reply {
            Reply::Done(r) => reply@ == ReplyView::Done(r),
            Reply::FoundCommunity(Ok(Some(c))) => reply@ == ReplyView::<E>::FoundCommunity(
                Ok(Some(c@)),
            ),
            Reply::FoundCommunity(Ok(None)) => reply@ == ReplyView::<E>::FoundCommunity(Ok(None)),
            Reply::FoundCommunity(Err(e)) => reply@ == ReplyView::FoundCommunity(Err(e)),
            Reply::FoundPerson(Ok(Some(p))) => reply@ == ReplyView::<E>::FoundPerson(Ok(Some(p@))),
            Reply::FoundPerson(Ok(None)) => reply@ == ReplyView::<E>::FoundPerson(Ok(None)),
            Reply::FoundPerson(Err(e)) => reply@ == ReplyView::FoundPerson(Err(e)),
            Reply::FoundPost(Ok(Some(p))) => reply@ == ReplyView::<E>::FoundPost(Ok(Some(p@))),
            Reply::FoundPost(Ok(None)) => reply@ == ReplyView::<E>::FoundPost(Ok(None)),
            Reply::FoundPost(Err(e)) => reply@ == ReplyView::FoundPost(Err(e)),
            Reply::FoundComment(Ok(Some(c))) => reply@ == ReplyView::<E>::FoundComment(
                Ok(Some(c@)),
            ),
            Reply::FoundComment(Ok(None)) => reply@ == ReplyView::<E>::FoundComment(Ok(None)),
            Reply::FoundComment(Err(e)) => reply@ == ReplyView::FoundComment(Err(e)),
            Reply::FoundPrivateMessage(Ok(Some(p))) => reply@
                == ReplyView::<E>::FoundPrivateMessage(Ok(Some(p@))),
            Reply::FoundPrivateMessage(Ok(None)) => reply@ == ReplyView::<E>::FoundPrivateMessage(
                Ok(None),
            ),
            Reply::FoundPrivateMessage(Err(e)) => reply@ == ReplyView::FoundPrivateMessage(Err(e)),
            Reply::Person(Ok(p)) => reply@ == ReplyView::<E>::Person(Ok(p@)),
            Reply::Person(Err(e)) => reply@ == ReplyView::Person(Err(e)),
            Reply::Community(Ok(c)) => reply@ == ReplyView::<E>::Community(Ok(c@)),
            Reply::Community(Err(e)) => reply@ == ReplyView::Community(Err(e)),
            Reply::CommunityIds(Ok(ids)) => reply@ == ReplyView::<E>::CommunityIds(Ok(ids@)),
            Reply::CommunityIds(Err(e)) => reply@ == ReplyView::CommunityIds(Err(e)),
            Reply::NewDelete(Ok(d)) => reply@ == ReplyView::<E>::NewDelete(Ok(d@)),
            Reply::NewDelete(Err(e)) => reply@ == ReplyView::NewDelete(Err(e)),
            Reply::NewUndoDelete(Ok(u)) => reply@ == ReplyView::<E>::NewUndoDelete(Ok(u@)),
            Reply::NewUndoDelete(Err(e)) => reply@ == ReplyView::NewUndoDelete(Err(e)),
            Reply::Time(t) => reply@ == ReplyView::<E>::Time(t),
            Reply::Logged => reply@ == ReplyView::<E>::Logged,
        },
{
}

/// The error of a reply is the one that the action failed with, whatever the action.
pub proof fn errors_are_kept<E>(error: E)
    ensures
        ReplyView::Done(Err(error)).error() == Some(error),
        ReplyView::FoundCommunity(Err(error)).error() == Some(error),
        ReplyView::FoundPerson(Err(error)).error() == Some(error),
        ReplyView::FoundPost(Err(error)).error() == Some(error),
        ReplyView::FoundComment(Err(error)).error() == Some(error),
        ReplyView::FoundPrivateMessage(Err(error)).error() == Some(error),
        ReplyView::Person(Err(error)).error() == Some(error),
        ReplyView::Community(Err(error)).error() == Some(error),
        ReplyView::CommunityIds(Err(error)).error() == Some(error),
        ReplyView::NewDelete(Err(error)).error() == Some(error),
        ReplyView::NewUndoDelete(Err(error)).error() == Some(error),
{
}

} // verus!
