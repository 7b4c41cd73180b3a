//! What a deletion asks of the world around it, and the replies that it gets.
//!
//! The database, the federation and the clock are out of reach of this library. A deletion hands
//! out one [`Action`] at a time; whoever runs it performs the action and hands back the
//! [`Reply`]. `E` is the error type of the services that perform the actions.

use vstd::prelude::*;

use crate::activities::{
    ActivitySendTargets, ActivitySendTargetsView, AnnouncableActivities, AnnouncableActivitiesView,
    Delete, DeleteView, UndoDelete, UndoDeleteView,
};
use crate::clock::days_before_is_representable;
use crate::objects::{
    text_of, Comment, CommentId, CommentView, Community, CommunityId, CommunityView,
    DeletableObjects, DeletableObjectsView, LocalUserId, Person, PersonId, PersonView, Post, PostId,
    PostView, PrivateMessage, PrivateMessageId, PrivateMessageView, Timestamp,
};
use crate::urls::{url_texts, Url};

verus! {

/// The kinds of object that a URL is looked up as.
#[derive(Clone, Copy, Debug, PartialEq, Eq, Structural)]
pub enum ObjectKind {
    Community,
    Person,
    Post,
    Comment,
    PrivateMessage,
}

/// Changes to the row of a person; what is `None` stays as it is.
#[derive(Clone, Copy, Debug, PartialEq, Eq)]
pub struct PersonUpdateForm {
    pub banned: Option<bool>,
    pub ban_expires: Option<Option<Timestamp>>,
}

/// A row of the moderation log: a ban from the instance.
#[derive(Debug, PartialEq, Eq)]
pub struct ModBanForm {
    pub mod_person_id: PersonId,
    pub other_person_id: PersonId,
    pub reason: Option<String>,
    pub banned: Option<bool>,
    pub expires: Option<Timestamp>,
}

/// The model of a [`ModBanForm`].
pub struct ModBanFormView {
    pub mod_person_id: PersonId,
    pub other_person_id: PersonId,
    pub reason: Option<Seq<char>>,
    pub banned: Option<bool>,
    pub expires: Option<Timestamp>,
}

impl View for ModBanForm {
    type V = ModBanFormView;

    open spec fn view(&self) -> ModBanFormView {
        ModBanFormView {
            mod_person_id: self.mod_person_id,
            other_person_id: self.other_person_id,
            reason: text_of(self.reason),
            banned: self.banned,
            expires: self.expires,
        }
    }
}

/// A ban of a person from a community.
#[derive(Clone, Copy, Debug, PartialEq, Eq)]
pub struct CommunityPersonBanForm {
    pub community_id: CommunityId,
    pub person_id: PersonId,
    pub expires: Option<Option<Timestamp>>,
}

/// A person's subscription to a community.
#[derive(Clone, Copy, Debug, PartialEq, Eq)]
pub struct CommunityFollowerForm {
    pub community_id: CommunityId,
    pub person_id: PersonId,
    pub pending: bool,
}

/// A row of the moderation log: a ban from a community.
#[derive(Debug, PartialEq, Eq)]
pub struct ModBanFromCommunityForm {
    pub mod_person_id: PersonId,
    pub other_person_id: PersonId,
    pub community_id: CommunityId,
    pub reason: Option<String>,
    pub banned: Option<bool>,
    pub expires: Option<Timestamp>,
}

/// The model of a [`ModBanFromCommunityForm`].
pub struct ModBanFromCommunityFormView {
    pub mod_person_id: PersonId,
    pub other_person_id: PersonId,
    pub community_id: CommunityId,
    pub reason: Option<Seq<char>>,
    pub banned: Option<bool>,
    pub expires: Option<Timestamp>,
}

impl View for ModBanFromCommunityForm {
    type V = ModBanFromCommunityFormView;

    open spec fn view(&self) -> ModBanFromCommunityFormView {
        ModBanFromCommunityFormView {
            mod_person_id: self.mod_person_id,
            other_person_id: self.other_person_id,
            community_id: self.community_id,
            reason: text_of(self.reason),
            banned: self.banned,
            expires: self.expires,
        }
    }
}

/// A request to ban a person from a community.
#[derive(Debug, PartialEq, Eq)]
pub struct BanFromCommunity {
    pub community_id: CommunityId,
    pub person_id: PersonId,
    pub ban: bool,
    pub reason: Option<String>,
    pub remove_data: Option<bool>,
    pub expires: Option<i64>,
}

/// The model of a [`BanFromCommunity`].
pub struct BanFromCommunityView {
    pub community_id: CommunityId,
    pub person_id: PersonId,
    pub ban: bool,
    pub reason: Option<Seq<char>>,
    pub remove_data: Option<bool>,
    pub expires: Option<i64>,
}

impl View for BanFromCommunity {
    type V = BanFromCommunityView;

    open spec fn view(&self) -> BanFromCommunityView {
        BanFromCommunityView {
            community_id: self.community_id,
            person_id: self.person_id,
            ban: self.ban,
            reason: text_of(self.reason),
            remove_data: self.remove_data,
            expires: self.expires,
        }
    }
}

/// News that is queued for the federation.
#[derive(Debug, PartialEq, Eq)]
pub enum SendActivityData {
    /// A person deleted their account; the flag says whether their content goes too.
    DeleteUser(Person, bool),
    BanFromSite {
        moderator: Person,
        banned_user: Person,
        reason: Option<String>,
        remove_data: Option<bool>,
        ban: bool,
        expires: Option<i64>,
    },
    BanFromCommunity {
        moderator: Person,
        community_id: CommunityId,
        target: Person,
        data: BanFromCommunity,
    },
}

/// The model of [`SendActivityData`].
pub enum SendActivityDataView {
    DeleteUser(PersonView, bool),
    BanFromSite {
        moderator: PersonView,
        banned_user: PersonView,
        reason: Option<Seq<char>>,
        remove_data: Option<bool>,
        ban: bool,
        expires: Option<i64>,
    },
    BanFromCommunity {
        moderator: PersonView,
        community_id: CommunityId,
        target: PersonView,
        data: BanFromCommunityView,
    },
}

impl View for SendActivityData {
    type V = SendActivityDataView;

    open spec fn view(&self) -> SendActivityDataView {
        match self {
            SendActivityData::DeleteUser(p, d) => SendActivityDataView::DeleteUser(p@, *d),
            SendActivityData::BanFromSite {
                moderator,
                banned_user,
                reason,
                remove_data,
                ban,
                expires,
            } => SendActivityDataView::BanFromSite {
                moderator: moderator@,
                banned_user: banned_user@,
                reason: text_of(*reason),
                remove_data: *remove_data,
                ban: *ban,
                expires: *expires,
            },
            SendActivityData::BanFromCommunity { moderator, community_id, target, data } =>
                SendActivityDataView::BanFromCommunity {
                    moderator: moderator@,
                    community_id: *community_id,
                    target: target@,
                    data: data@,
                },
        }
    }
}

/// The rules by which the automatic moderator bans.
#[derive(Clone, Copy, Debug, PartialEq, Eq, Structural)]
pub enum AutomodRule {
    /// A local account was deleted soon after it was made.
    BanLocalDeletedUser,
    /// A remote account was deleted soon after it was made.
    BanFederatedDeletedUser,
}

/// What the automatic moderator reports of its work.
#[derive(Debug, PartialEq, Eq)]
pub enum AutomodReport {
    /// The user falls under the rule.
    IssuingBan { rule: AutomodRule, user: String },
    /// Nobody is banned under the rule, because no moderator is set.
    NoAutomodUser { rule: AutomodRule },
}

/// The model of an [`AutomodReport`].
pub enum AutomodReportView {
    IssuingBan { rule: AutomodRule, user: Seq<char> },
    NoAutomodUser { rule: AutomodRule },
}

impl View for AutomodReport {
    type V = AutomodReportView;

    open spec fn view(&self) -> AutomodReportView {
        match self {
            AutomodReport::IssuingBan { rule, user } => AutomodReportView::IssuingBan {
                rule: *rule,
                user: user@,
            },
            AutomodReport::NoAutomodUser { rule } => AutomodReportView::NoAutomodUser {
                rule: *rule,
            },
        }
    }
}

/// What a new activity is made of.
#[derive(Debug, PartialEq, Eq)]
pub struct NewActivity {
    pub actor: Person,
    pub object: DeletableObjects,
    pub to: Url,
    pub community: Option<Community>,
    pub summary: Option<String>,
}

/// The model of a [`NewActivity`].
pub struct NewActivityView {
    pub actor: PersonView,
    pub object: DeletableObjectsView,
    pub to: Seq<char>,
    pub community: Option<CommunityView>,
    pub summary: Option<Seq<char>>,
}

impl View for NewActivity {
    type V = NewActivityView;

    open spec fn view(&self) -> NewActivityView {
        NewActivityView {
            actor: self.actor@,
            object: self.object@,
            to: self.to@,
            community: match self.community {
                Some(c) => Some(c@),
                None => None,
            },
            summary: text_of(self.summary),
        }
    }
}

/// A single thing to do.
#[derive(Debug)]
#[allow(inconsistent_fields)]
pub enum Action {
    /// Look up the object of this kind that has this URL.
    ReadFromId { kind: ObjectKind, ap_id: Url },
    /// Look up a person by key.
    ReadPerson(PersonId),
    /// Look up a person by name, deleted ones only where the flag is set.
    ReadPersonByName { name: String, include_deleted: bool },
    /// Look up the person behind a local account by name.
    ReadLocalUserByName(String),
    /// Resolve a URL to the person it names, over the network if need be.
    Dereference(Url),
    /// Find the community that an activity belongs to.
    ReadActivityCommunity(Delete),
    /// Read the time. The caller will go back from it by this number of days.
    ReadClock { days_back: u64 },
    /// List the local communities that a person takes part in.
    ListLocalCommunityIds(PersonId),
    /// Remove an account together with all its content.
    PurgeUserAccount(PersonId),
    /// Mark an account as deleted.
    DeleteAccount(PersonId),
    /// Log an account out everywhere.
    InvalidateLoginTokens(LocalUserId),
    /// Remove what a person has written.
    RemoveUserData(PersonId),
    UpdatePerson(PersonId, PersonUpdateForm),
    UpdateCommunity { id: CommunityId, deleted: bool },
    UpdatePost { id: PostId, deleted: bool },
    UpdateComment { id: CommentId, deleted: bool },
    UpdatePrivateMessage { id: PrivateMessageId, deleted: bool },
    CreateModBan(ModBanForm),
    CreateModBanFromCommunity(ModBanFromCommunityForm),
    BanFromCommunity(CommunityPersonBanForm),
    Unfollow(CommunityFollowerForm),
    /// Queue news for the federation.
    SubmitActivity(SendActivityData),
    /// Make a deletion activity.
    NewDelete(NewActivity),
    /// Make the activity that takes a deletion back.
    NewUndoDelete(NewActivity),
    /// Send an activity to the followers of a community.
    SendActivityInCommunity {
        activity: AnnouncableActivities,
        actor: Person,
        community: Community,
        targets: ActivitySendTargets,
        is_mod_action: bool,
    },
    /// Send an activity to the given targets.
    SendLemmyActivity {
        activity: AnnouncableActivities,
        actor: Person,
        targets: ActivitySendTargets,
        sensitive: bool,
    },
    /// Tell the clients that are connected that the object was deleted or, where the flag is
    /// unset, restored.
    SendWebsocketMessage { object: DeletableObjects, deleted: bool },
    /// Write a report of the automatic moderator to the log.
    Log(AutomodReport),
    /// Check that the public is among the recipients, `to` and `cc`.
    VerifyIsPublic { to: Vec<Url>, cc: Vec<Url> },
    /// Check that an actor may act at all.
    VerifyPerson(Url),
    /// Check that an actor may act in a community.
    VerifyPersonInCommunity { actor: Url, community: Community },
    /// Check that an actor may moderate a community.
    VerifyModAction { actor: Url, community: Community },
}

/// The model of an [`Action`].
#[allow(inconsistent_fields)]
pub enum ActionView {
    ReadFromId { kind: ObjectKind, ap_id: Seq<char> },
    ReadPerson(PersonId),
    ReadPersonByName { name: Seq<char>, include_deleted: bool },
    ReadLocalUserByName(Seq<char>),
    Dereference(Seq<char>),
    ReadActivityCommunity(DeleteView),
    ReadClock { days_back: u64 },
    ListLocalCommunityIds(PersonId),
    PurgeUserAccount(PersonId),
    DeleteAccount(PersonId),
    InvalidateLoginTokens(LocalUserId),
    RemoveUserData(PersonId),
    UpdatePerson(PersonId, PersonUpdateForm),
    UpdateCommunity { id: CommunityId, deleted: bool },
    UpdatePost { id: PostId, deleted: bool },
    UpdateComment { id: CommentId, deleted: bool },
    UpdatePrivateMessage { id: PrivateMessageId, deleted: bool },
    CreateModBan(ModBanFormView),
    CreateModBanFromCommunity(ModBanFromCommunityFormView),
    BanFromCommunity(CommunityPersonBanForm),
    Unfollow(CommunityFollowerForm),
    SubmitActivity(SendActivityDataView),
    NewDelete(NewActivityView),
    NewUndoDelete(NewActivityView),
    SendActivityInCommunity {
        activity: AnnouncableActivitiesView,
        actor: PersonView,
        community: CommunityView,
        targets: ActivitySendTargetsView,
        is_mod_action: bool,
    },
    SendLemmyActivity {
        activity: AnnouncableActivitiesView,
        actor: PersonView,
        targets: ActivitySendTargetsView,
        sensitive: bool,
    },
    SendWebsocketMessage { object: DeletableObjectsView, deleted: bool },
    Log(AutomodReportView),
    VerifyIsPublic { to: Seq<Seq<char>>, cc: Seq<Seq<char>> },
    VerifyPerson(Seq<char>),
    VerifyPersonInCommunity { actor: Seq<char>, community: CommunityView },
    VerifyModAction { actor: Seq<char>, community: CommunityView },
}

impl View for Action {
    type V = ActionView;

    open spec fn view(&self) -> ActionView {
        match self {
            Action::ReadFromId { kind, ap_id } => ActionView::ReadFromId {
                kind: *kind,
                ap_id: ap_id@,
            },
            Action::ReadPerson(id) => ActionView::ReadPerson(*id),
            Action::ReadPersonByName { name, include_deleted } => ActionView::ReadPersonByName {
                name: name@,
                include_deleted: *include_deleted,
            },
            Action::ReadLocalUserByName(name) => ActionView::ReadLocalUserByName(name@),
            Action::Dereference(url) => ActionView::Dereference(url@),
            Action::ReadActivityCommunity(d) => ActionView::ReadActivityCommunity(d@),
            Action::ReadClock { days_back } => ActionView::ReadClock { days_back: *days_back },
            Action::ListLocalCommunityIds(id) => ActionView::ListLocalCommunityIds(*id),
            Action::PurgeUserAccount(id) => ActionView::PurgeUserAccount(*id),
            Action::DeleteAccount(id) => ActionView::DeleteAccount(*id),
            Action::InvalidateLoginTokens(id) => ActionView::InvalidateLoginTokens(*id),
            Action::RemoveUserData(id) => ActionView::RemoveUserData(*id),
            Action::UpdatePerson(id, form) => ActionView::UpdatePerson(*id, *form),
            Action::UpdateCommunity { id, deleted } => ActionView::UpdateCommunity {
                id: *id,
                deleted: *deleted,
            },
            Action::UpdatePost { id, deleted } => ActionView::UpdatePost {
                id: *id,
                deleted: *deleted,
            },
            Action::UpdateComment { id, deleted } => ActionView::UpdateComment {
                id: *id,
                deleted: *deleted,
            },
            Action::UpdatePrivateMessage { id, deleted } => ActionView::UpdatePrivateMessage {
                id: *id,
                deleted: *deleted,
            },
            Action::CreateModBan(form) => ActionView::CreateModBan(form@),
            Action::CreateModBanFromCommunity(form) => ActionView::CreateModBanFromCommunity(
                form@,
            ),
            Action::BanFromCommunity(form) => ActionView::BanFromCommunity(*form),
            Action::Unfollow(form) => ActionView::Unfollow(*form),
            Action::SubmitActivity(data) => ActionView::SubmitActivity(data@),
            Action::NewDelete(n) => ActionView::NewDelete(n@),
            Action::NewUndoDelete(n) => ActionView::NewUndoDelete(n@),
            Action::SendActivityInCommunity {
                activity,
                actor,
                community,
                targets,
                is_mod_action,
            } => ActionView::SendActivityInCommunity {
                activity: activity@,
                actor: actor@,
                community: community@,
                targets: targets@,
                is_mod_action: *is_mod_action,
            },
            Action::SendLemmyActivity { activity, actor, targets, sensitive } =>
                ActionView::SendLemmyActivity {
                    activity: activity@,
                    actor: actor@,
                    targets: targets@,
                    sensitive: *sensitive,
                },
            Action::SendWebsocketMessage { object, deleted } => ActionView::SendWebsocketMessage {
                object: object@,
                deleted: *deleted,
            },
            Action::Log(report) => ActionView::Log(report@),
            Action::VerifyIsPublic { to, cc } => ActionView::VerifyIsPublic {
                to: url_texts(to@),
                cc: url_texts(cc@),
            },
            Action::VerifyPerson(actor) => ActionView::VerifyPerson(actor@),
            Action::VerifyPersonInCommunity { actor, community } =>
                ActionView::VerifyPersonInCommunity { actor: actor@, community: community@ },
            Action::VerifyModAction { actor, community } => ActionView::VerifyModAction {
                actor: actor@,
                community: community@,
            },
        }
    }
}

/// What came of an action.
#[derive(Debug)]
pub enum Reply<E> {
    /// The action was performed, or failed.
    Done(Result<(), E>),
    FoundCommunity(Result<Option<Community>, E>),
    FoundPerson(Result<Option<Person>, E>),
    FoundPost(Result<Option<Post>, E>),
    FoundComment(Result<Option<Comment>, E>),
    FoundPrivateMessage(Result<Option<PrivateMessage>, E>),
    Person(Result<Person, E>),
    Community(Result<Community, E>),
    CommunityIds(Result<Vec<CommunityId>, E>),
    NewDelete(Result<Delete, E>),
    NewUndoDelete(Result<UndoDelete, E>),
    Time(Timestamp),
    /// The report was written to the log.
    Logged,
}

/// The model of a [`Reply`].
pub enum ReplyView<E> {
    Done(Result<(), E>),
    FoundCommunity(Result<Option<CommunityView>, E>),
    FoundPerson(Result<Option<PersonView>, E>),
    FoundPost(Result<Option<PostView>, E>),
    FoundComment(Result<Option<CommentView>, E>),
    FoundPrivateMessage(Result<Option<PrivateMessageView>, E>),
    Person(Result<PersonView, E>),
    Community(Result<CommunityView, E>),
    CommunityIds(Result<Seq<CommunityId>, E>),
    NewDelete(Result<DeleteView, E>),
    NewUndoDelete(Result<UndoDeleteView, E>),
    Time(Timestamp),
    Logged,
}

/// The model of a value that may have failed to come.
pub open spec fn ok_view<T: View, E>(r: Result<T, E>) -> Result<T::V, E> {
    match r {
        Ok(t) => Ok(t@),
        Err(e) => Err(e),
    }
}

/// The model of a value that may be absent or may have failed to come.
pub open spec fn found_view<T: View, E>(r: Result<Option<T>, E>) -> Result<Option<T::V>, E> {
    match r {
        Ok(Some(t)) => Ok(Some(t@)),
        Ok(None) => Ok(None),
        Err(e) => Err(e),
    }
}

impl<E> View for Reply<E> {
    type V = ReplyView<E>;

    open spec fn view(&self) -> ReplyView<E> {
        match *self {
            Reply::Done(r) => ReplyView::Done(r),
            Reply::FoundCommunity(r) => ReplyView::FoundCommunity(found_view(r)),
            Reply::FoundPerson(r) => ReplyView::FoundPerson(found_view(r)),
            Reply::FoundPost(r) => ReplyView::FoundPost(found_view(r)),
            Reply::FoundComment(r) => ReplyView::FoundComment(found_view(r)),
            Reply::FoundPrivateMessage(r) => ReplyView::FoundPrivateMessage(found_view(r)),
            Reply::Person(r) => ReplyView::Person(ok_view(r)),
            Reply::Community(r) => ReplyView::Community(ok_view(r)),
            Reply::CommunityIds(r) => ReplyView::CommunityIds(ok_view(r)),
            Reply::NewDelete(r) => ReplyView::NewDelete(ok_view(r)),
            Reply::NewUndoDelete(r) => ReplyView::NewUndoDelete(ok_view(r)),
            Reply::Time(t) => ReplyView::Time(t),
            Reply::Logged => ReplyView::Logged,
        }
    }
}

/// The error in a result.
pub open spec fn error_in<T, E>(r: Result<T, E>) -> Option<E> {
    match r {
        Ok(_) => None,
        Err(e) => Some(e),
    }
}

impl<E> ReplyView<E> {
    /// The error with which the action failed, if it did.
    pub open spec fn error(self) -> Option<E> {
        match self {
            ReplyView::Done(r) => error_in(r),
            ReplyView::FoundCommunity(r) => error_in(r),
            ReplyView::FoundPerson(r) => error_in(r),
            ReplyView::FoundPost(r) => error_in(r),
            ReplyView::FoundComment(r) => error_in(r),
            ReplyView::FoundPrivateMessage(r) => error_in(r),
            ReplyView::Person(r) => error_in(r),
            ReplyView::Community(r) => error_in(r),
            ReplyView::CommunityIds(r) => error_in(r),
            ReplyView::NewDelete(r) => error_in(r),
            ReplyView::NewUndoDelete(r) => error_in(r),
            ReplyView::Time(_) => None,
            ReplyView::Logged => None,
        }
    }
}

impl ActionView {
    /// Replies of this form are replies to this action.
    pub open spec fn admits<E>(self, reply: ReplyView<E>) -> bool {
        match self {
            ActionView::ReadFromId { kind, .. } => match kind {
                ObjectKind::Community => reply is FoundCommunity,
                ObjectKind::Person => reply is FoundPerson,
                ObjectKind::Post => reply is FoundPost,
                ObjectKind::Comment => reply is FoundComment,
                ObjectKind::PrivateMessage => reply is FoundPrivateMessage,
            },
            ActionView::ReadPerson(_) => reply is FoundPerson,
            ActionView::ReadPersonByName { .. } => reply is FoundPerson,
            ActionView::ReadLocalUserByName(_) => reply is FoundPerson,
            ActionView::Dereference(_) => reply is Person,
            ActionView::ReadActivityCommunity(_) => reply is Community,
            ActionView::ReadClock { days_back } => reply matches ReplyView::Time(now)
                && days_before_is_representable(now, days_back),
            ActionView::ListLocalCommunityIds(_) => reply is CommunityIds,
            ActionView::UpdatePerson(_, _) => reply is Person,
            ActionView::NewDelete(_) => reply is NewDelete,
            ActionView::NewUndoDelete(_) => reply is NewUndoDelete,
            ActionView::Log(_) => reply is Logged,
            _ => reply is Done,
        }
    }
}

impl Action {
    /// Whether the reply has the form of a reply to this action.
    pub fn admits<E>(&self, reply: &Reply<E>) -> (res: bool)
        ensures
            res == self@.admits(reply@),
    {
        match (self, reply) {
            (Action::ReadFromId { kind, .. }, _) => match (kind, reply) {
                (ObjectKind::Community, Reply::FoundCommunity(_)) => true,
                (ObjectKind::Person, Reply::FoundPerson(_)) => true,
                (ObjectKind::Post, Reply::FoundPost(_)) => true,
                (ObjectKind::Comment, Reply::FoundComment(_)) => true,
                (ObjectKind::PrivateMessage, Reply::FoundPrivateMessage(_)) => true,
                _ => false,
            },
            (Action::ReadPerson(_), _)
            | (Action::ReadPersonByName { .. }, _)
            | (Action::ReadLocalUserByName(_), _) => matches!(reply, Reply::FoundPerson(_)),
            (Action::Dereference(_), _)
            | (Action::UpdatePerson(_, _), _) => matches!(reply, Reply::Person(_)),
            (Action::ReadActivityCommunity(_), _) => matches!(reply, Reply::Community(_)),
            (Action::ReadClock { days_back }, Reply::Time(now)) => {
                crate::clock::can_go_back(*now, *days_back)
            },
            (Action::ReadClock { .. }, _) => false,
            (Action::ListLocalCommunityIds(_), _) => matches!(reply, Reply::CommunityIds(_)),
            (Action::NewDelete(_), _) => matches!(reply, Reply::NewDelete(_)),
            (Action::NewUndoDelete(_), _) => matches!(reply, Reply::NewUndoDelete(_)),
            (Action::Log(_), _) => matches!(reply, Reply::Logged),
            _ => matches!(reply, Reply::Done(_)),
        }
    }
}

/// Why a deletion did not go through.
#[derive(Debug, PartialEq, Eq)]
pub enum DeletionError<E> {
    /// The password is not that of the account.
    IncorrectLogin,
    /// A person that has to exist does not.
    CouldntFindPerson,
    /// The ban of a person could not be written.
    CouldntUpdateUser(E),
    /// No object has the given URL.
    NotFound,
    /// Two URLs that have to share a domain do not.
    DomainsDoNotMatch,
    /// Two URLs that have to be identical are not.
    UrlsDoNotMatch,
    /// An action failed.
    Service(E),
}

} // verus!
